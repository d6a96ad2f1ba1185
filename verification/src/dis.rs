//! The code-flow analysis behind the ROM disassembler: starting from entry
//! points, it follows the instructions of a ROM image, and the jumps and
//! calls they make (mapped through the banks' slot addresses), to split the
//! ROM into code, runs of NOPs and data.
use crate::instr::{spec_decode, Addr, Disasm, Instr};
use crate::wla::WlaSym;
use vstd::prelude::*;

verus! {

/// Bytes in one ROM bank.
pub const BANK_SIZE: u64 = 0x4000;

/// What a stretch of the ROM holds.
#[derive(Clone, Copy, PartialEq, Eq, Structural, Debug)]
pub enum Section {
    Code,
    Nop,
    Data,
}

/// Where the window of a bank whose slot starts at `start` ends (exclusive):
/// 0x4000 bytes on, but not past 0xFFFF.
pub open spec fn window_end(start: u16) -> int {
    if start + 0x4000 > 0xffff {
        0xffff
    } else {
        start + 0x4000
    }
}

/// The slot address of bank `b` in the symbol files' memory map.
pub open spec fn slot_of(syms: WlaSym, b: u8) -> u16 {
    if syms.memmap().contains_key(b) {
        syms.memmap()[b]
    } else if b == 0 {
        0
    } else {
        0x4000
    }
}

/// The ROM offsets an address can stand for, seen from bank `cur`: one for
/// each bank (in order) whose window holds the address and that is `cur`,
/// or any bank when `cur` is bank 0.
pub open spec fn remap_spec(target: u16, cur: u8, starts: Seq<u16>) -> Seq<u64>
    decreases starts.len(),
{
    if starts.len() == 0 {
        Seq::empty()
    } else {
        let b = starts.len() - 1;
        let s = starts[b];
        let rest = remap_spec(target, cur, starts.drop_last());
        if s <= target < window_end(s) && (cur == 0 || cur == b) {
            rest.push((b * BANK_SIZE + target - s) as u64)
        } else {
            rest
        }
    }
}

/// Every offset a remap gives lies in a bank before `starts.len()`.
proof fn lemma_remap_bound(target: u16, cur: u8, starts: Seq<u16>)
    requires
        starts.len() <= 256,
    ensures
        forall|k: int|
            0 <= k < remap_spec(target, cur, starts).len() ==> #[trigger] remap_spec(target, cur, starts)[k]
                < starts.len() * BANK_SIZE,
    decreases starts.len(),
{
    if starts.len() > 0 {
        let b = starts.len() - 1;
        let s = starts[b];
        let rest = remap_spec(target, cur, starts.drop_last());
        lemma_remap_bound(target, cur, starts.drop_last());
        assert(b * BANK_SIZE + BANK_SIZE == starts.len() * BANK_SIZE) by (nonlinear_arith)
            requires
                b == starts.len() - 1,
        ;
        assert(b * BANK_SIZE <= 255 * BANK_SIZE) by (nonlinear_arith)
            requires
                b <= 255,
        ;
        if s <= target < window_end(s) && (cur == 0 || cur == b) {
            let v = (b * BANK_SIZE + target - s) as u64;
            assert(v == b * BANK_SIZE + target - s);
            assert(v < starts.len() * BANK_SIZE);
            assert forall|k: int| 0 <= k < rest.len() + 1 implies #[trigger] rest.push(v)[k] < starts.len()
                * BANK_SIZE by {
                if k < rest.len() {
                    assert(rest[k] < (starts.len() - 1) * BANK_SIZE);
                }
            }
        }
    }
}

/// The ROM offsets `target` can stand for from bank `cur_bank` (see
/// `remap_spec`); `None` when there are none.
pub fn remap_address(target: u16, cur_bank: u8, starts: &Vec<u16>) -> (r: Option<Vec<u64>>)
    requires
        starts@.len() <= 256,
    ensures
        match r {
            Some(v) => v@ == remap_spec(target, cur_bank, starts@) && v@.len() > 0,
            None => remap_spec(target, cur_bank, starts@).len() == 0,
        },
{
    let mut v: Vec<u64> = Vec::new();
    let mut b: usize = 0;
    while b < starts.len()
        invariant
            b <= starts@.len() <= 256,
            v@ == remap_spec(target, cur_bank, starts@.subrange(0, b as int)),
        decreases starts@.len() - b,
    {
        let s = starts[b];
        let end: u16 = s.saturating_add(0x4000);
        let ghost prefix = starts@.subrange(0, b + 1);
        assert(prefix.drop_last() =~= starts@.subrange(0, b as int));
        if s <= target && target < end && (cur_bank == 0 || cur_bank as usize == b) {
            v.push(b as u64 * BANK_SIZE + target as u64 - s as u64);
        }
        b = b + 1;
    }
    assert(starts@.subrange(0, starts@.len() as int) =~= starts@);
    if v.len() > 0 {
        Some(v)
    } else {
        None
    }
}

/// The slot addresses of the banks of a ROM of `num_banks` banks (counted
/// modulo 256), from the symbol files' memory map.
pub fn bank_starts(syms: &WlaSym, num_banks: u64) -> (r: Vec<u16>)
    ensures
        r@.len() == num_banks % 256,
        forall|b: int| 0 <= b < r@.len() ==> #[trigger] r@[b] == slot_of(*syms, b as u8),
{
    let n = (num_banks % 256) as usize;
    let mut v: Vec<u16> = Vec::new();
    let mut b: usize = 0;
    while b < n
        invariant
            b <= n <= 255,
            n == num_banks % 256,
            v@.len() == b,
            forall|k: int| 0 <= k < b ==> #[trigger] v@[k] == slot_of(*syms, k as u8),
        decreases n - b,
    {
        v.push(syms.mem_map(b as u8));
        b = b + 1;
    }
    v
}

/// Whether `pos` falls in one of the data ranges.
pub open spec fn in_data(data: Seq<(u64, u64)>, pos: u64) -> bool {
    exists|k: int| 0 <= k < data.len() && (#[trigger] data[k]).0 <= pos < data[k].1
}

fn in_data_exec(data: &Vec<(u64, u64)>, pos: u64) -> (r: bool)
    ensures
        r == in_data(data@, pos),
{
    let mut k: usize = 0;
    while k < data.len()
        invariant
            k <= data@.len(),
            forall|j: int| 0 <= j < k ==> !((#[trigger] data@[j]).0 <= pos < data@[j].1),
        decreases data@.len() - k,
    {
        if data[k].0 <= pos && pos < data[k].1 {
            return true;
        }
        k = k + 1;
    }
    false
}

/// The stretches the analysis finds, and the offsets jumps and calls lead
/// to.
pub struct Analysis {
    pub ranges: Vec<(u64, u64, Section)>,
    pub targets: Vec<u64>,
}

/// The number of positions not yet visited.
pub open spec fn unvisited(v: Seq<bool>) -> nat
    decreases v.len(),
{
    if v.len() == 0 {
        0
    } else {
        unvisited(v.drop_last()) + (if v.last() {
            0nat
        } else {
            1nat
        })
    }
}

pub proof fn lemma_unvisited_mark(v: Seq<bool>, i: int)
    requires
        0 <= i < v.len(),
        !v[i],
    ensures
        unvisited(v.update(i, true)) + 1 == unvisited(v),
    decreases v.len(),
{
    if i < v.len() - 1 {
        assert(v.update(i, true).drop_last() =~= v.drop_last().update(i, true));
        lemma_unvisited_mark(v.drop_last(), i);
    } else {
        assert(v.update(i, true).drop_last() =~= v.drop_last());
    }
}

/// What the analysis keeps true of what it found.
pub open spec fn findings_ok(ranges: Seq<(u64, u64, Section)>, data: Seq<(u64, u64)>, targets: Seq<u64>, len: nat) -> bool {
    &&& ranges.len() >= data.len()
    &&& forall|k: int| 0 <= k < data.len() ==> #[trigger] ranges[k] == (data[k].0, data[k].1, Section::Data)
    &&& forall|k: int|
        data.len() <= k < ranges.len() ==> (#[trigger] ranges[k]).0 < ranges[k].1 <= len && ranges[k].2
            != Section::Data
    &&& forall|k: int|
        data.len() <= k < ranges.len() && (#[trigger] ranges[k]).2 == Section::Nop ==> ranges[k].1
            - ranges[k].0 > 10
    &&& forall|k: int| 0 <= k < targets.len() ==> #[trigger] targets[k] < len
}

/// Closes a run of NOPs at `pos`: one longer than ten bytes becomes a NOP
/// range.
fn close_nops(ranges: &mut Vec<(u64, u64, Section)>, pos: u64, nop_start: Option<u64>)
    requires
        nop_start matches Some(s) ==> s <= pos,
    ensures
        match nop_start {
            Some(s) => if pos - s > 10 {
                final(ranges)@ == old(ranges)@.push((s, pos, Section::Nop))
            } else {
                final(ranges)@ == old(ranges)@
            },
            None => final(ranges)@ == old(ranges)@,
        },
{
    if let Some(s) = nop_start {
        if pos - s > 10 {
            ranges.push((s, pos, Section::Nop));
        }
    }
}

/// How reading one instruction ends: it stops at a position (at a bank
/// boundary when the flag is set, which makes the boundary an entry point
/// of its own), or an instruction is read that ends at a position.
pub enum Fetch {
    Stop(u64, bool),
    Got(Instr, u64),
}

/// Reading one instruction at `pos`, after the bytes `pend` of it: it
/// stops at a bank boundary (unless the region starts there, `fresh`), at
/// a data range and at the end of the ROM.
pub open spec fn fetch_spec(rom: Seq<u8>, data: Seq<(u64, u64)>, pos: u64, fresh: bool, pend: Seq<u8>) -> Fetch
    decreases 3 - pend.len(),
{
    if !fresh && pos % BANK_SIZE == 0 {
        Fetch::Stop(pos, true)
    } else if in_data(data, pos) {
        Fetch::Stop(pos, false)
    } else if pos >= rom.len() || pend.len() >= 3 {
        Fetch::Stop(pos, false)
    } else {
        let fed = pend.push(rom[pos as int]);
        match spec_decode(fed) {
            Some(i) => Fetch::Got(i, (pos + 1) as u64),
            None => fetch_spec(rom, data, (pos + 1) as u64, false, fed),
        }
    }
}

/// The run of NOPs that started at `nop` and ends at `pos`, when it is
/// longer than ten bytes.
pub open spec fn nop_close(nop: Option<u64>, pos: u64) -> Seq<(u64, u64, Section)> {
    match nop {
        Some(s) => if pos - s > 10 {
            seq![(s, pos, Section::Nop)]
        } else {
            Seq::empty()
        },
        None => Seq::empty(),
    }
}

/// The address a relative jump `a` whose instruction ends at ROM offset
/// `pos` goes to: counted from the offset itself in bank 0, from its
/// address in the bank's slot elsewhere.
pub open spec fn jr_spec(a: i8, pos: u64, syms: WlaSym) -> u16 {
    let bank = pos / BANK_SIZE;
    let base: int = if bank == 0 {
        (pos % 0x10000) as int
    } else {
        (slot_of(syms, (bank % 256) as u8) + pos % BANK_SIZE) % 0x10000
    };
    ((base + a + 65536) % 65536) as u16
}

/// The address a jump or call that ends at `pos` goes to.
pub open spec fn target_spec(i: Instr, pos: u64, syms: WlaSym) -> Option<u16> {
    match i {
        Instr::JR_COND_r8(_, a) | Instr::JR_r8(a) => Some(jr_spec(a.0, pos, syms)),
        Instr::JP_a16(a) | Instr::CALL_a16(a) | Instr::CALL_COND_a16(_, a) => Some(a.0),
        _ => None,
    }
}

/// An absolute jump or call to `t` (JP a16, CALL a16, CALL cc,a16) decoded
/// while scanning a region makes the remapped addresses of `t` the first
/// targets the region reports and the first positions it adds to the work
/// list.
pub proof fn law_scan_follows_jumps(
    rom: Seq<u8>,
    data: Seq<(u64, u64)>,
    starts: Seq<u16>,
    syms: WlaSym,
    pos: u64,
    fresh: bool,
    nop: Option<u64>,
    i: Instr,
    p: u64,
    t: u16,
    c: crate::registers::Cond,
)
    requires
        fetch_spec(rom, data, pos, fresh, Seq::empty()) == Fetch::Got(i, p),
        i == Instr::CALL_a16(Addr(t)) || i == Instr::JP_a16(Addr(t)) || i == Instr::CALL_COND_a16(c, Addr(t)),
    ensures
        ({
            let s = scan_spec(rom, data, starts, syms, pos, fresh, nop);
            let f = remap_spec(t, ((p / BANK_SIZE) % 256) as u8, starts);
            &&& s.3.len() >= f.len()
            &&& s.3.subrange(0, f.len() as int) == f
            &&& s.2.len() >= f.len()
            &&& s.2.subrange(0, f.len() as int) == f
        }),
{
    let s = scan_spec(rom, data, starts, syms, pos, fresh, nop);
    let f = remap_spec(t, ((p / BANK_SIZE) % 256) as u8, starts);
    assert(target_spec(i, p, syms) == Some(t));
    if ends_region(i) {
        assert(f.push(p).subrange(0, f.len() as int) =~= f);
    } else if pos < p <= rom.len() {
        let rest = scan_spec(rom, data, starts, syms, p, false, if i == Instr::NOP { if nop is None { Some(pos) } else { nop } } else { None });
        assert((f + rest.2).subrange(0, f.len() as int) =~= f);
        assert((f + rest.3).subrange(0, f.len() as int) =~= f);
    } else {
        assert(f.subrange(0, f.len() as int) =~= f);
    }
}

/// Instructions after which the code does not go on.
pub open spec fn ends_region(i: Instr) -> bool {
    match i {
        Instr::RET | Instr::RETI | Instr::JR_r8(_) | Instr::JP_r16(_) | Instr::JP_a16(_) => true,
        _ => false,
    }
}

/// Scanning a region from `pos` (the NOP run open since `nop`): where it
/// ends, the NOP ranges it closes, the positions it adds to the work list,
/// the jump and call targets it finds (in order), and the NOP run still
/// open at its end.
pub open spec fn scan_spec(
    rom: Seq<u8>,
    data: Seq<(u64, u64)>,
    starts: Seq<u16>,
    syms: WlaSym,
    pos: u64,
    fresh: bool,
    nop: Option<u64>,
) -> (u64, Seq<(u64, u64, Section)>, Seq<u64>, Seq<u64>, Option<u64>)
    decreases rom.len() - pos,
{
    match fetch_spec(rom, data, pos, fresh, Seq::empty()) {
        Fetch::Stop(p, boundary) => (
            p,
            Seq::empty(),
            if boundary {
                seq![p]
            } else {
                Seq::empty()
            },
            Seq::empty(),
            nop,
        ),
        Fetch::Got(i, p) => {
            let nops = if i == Instr::NOP {
                Seq::empty()
            } else {
                nop_close(nop, pos)
            };
            let nop1 = if i == Instr::NOP {
                if nop is None {
                    Some(pos)
                } else {
                    nop
                }
            } else {
                None
            };
            if i is INVALID {
                (p, nops, seq![p], Seq::empty(), nop1)
            } else {
                let found = match target_spec(i, p, syms) {
                    Some(t) => remap_spec(t, ((p / BANK_SIZE) % 256) as u8, starts),
                    None => Seq::empty(),
                };
                if ends_region(i) {
                    (p, nops, found.push(p), found, nop1)
                } else if pos < p <= rom.len() {
                    let rest = scan_spec(rom, data, starts, syms, p, false, nop1);
                    (rest.0, nops + rest.1, found + rest.2, found + rest.3, rest.4)
                } else {
                    (p, nops, found, found, nop1)
                }
            }
        },
    }
}

/// The analysis from a state: take the last position of the work list;
/// skip it when it is past the ROM or visited, else scan a region from it
/// and record the region's NOP runs, its code range and its targets.
pub open spec fn run_spec(
    rom: Seq<u8>,
    data: Seq<(u64, u64)>,
    starts: Seq<u16>,
    syms: WlaSym,
    wl: Seq<u64>,
    visited: Seq<bool>,
    ranges: Seq<(u64, u64, Section)>,
    targets: Seq<u64>,
) -> (Seq<(u64, u64, Section)>, Seq<u64>)
    decreases unvisited(visited), wl.len(),
{
    if wl.len() == 0 {
        (ranges, targets)
    } else {
        let p = wl.last();
        let rest = wl.drop_last();
        if p >= visited.len() || visited[p as int] {
            run_spec(rom, data, starts, syms, rest, visited, ranges, targets)
        } else {
            let s = scan_spec(rom, data, starts, syms, p, p % BANK_SIZE == 0, None);
            let code = if s.0 > p {
                seq![(p, s.0, Section::Code)]
            } else {
                Seq::empty()
            };
            proof {
                lemma_unvisited_mark(visited, p as int);
            }
            run_spec(
                rom,
                data,
                starts,
                syms,
                rest + s.2,
                visited.update(p as int, true),
                ranges + s.1 + nop_close(s.4, s.0) + code,
                targets + s.3,
            )
        }
    }
}

/// The data ranges as the first ranges of the analysis.
pub open spec fn data_ranges(data: Seq<(u64, u64)>) -> Seq<(u64, u64, Section)> {
    Seq::new(data.len(), |k: int| (data[k].0, data[k].1, Section::Data))
}

/// The slot addresses of the banks of a ROM of `n` banks (counted modulo
/// 256).
pub open spec fn starts_spec(syms: WlaSym, n: nat) -> Seq<u16> {
    Seq::new(n % 256, |b: int| slot_of(syms, b as u8))
}

/// The whole analysis: from the entry points, nothing visited, the data
/// ranges and no targets.
pub open spec fn analysis_spec(rom: Seq<u8>, syms: WlaSym, entries: Seq<u64>, data: Seq<(u64, u64)>) -> (
    Seq<(u64, u64, Section)>,
    Seq<u64>,
) {
    run_spec(
        rom,
        data,
        starts_spec(syms, rom.len() / BANK_SIZE as nat),
        syms,
        entries,
        Seq::new(rom.len(), |i: int| false),
        data_ranges(data),
        Seq::empty(),
    )
}

/// The target of a relative jump (see `jr_spec`).
fn jr_target(a: i8, pos: u64, syms: &WlaSym) -> (r: u16)
    ensures
        r == jr_spec(a, pos, *syms),
{
    let cur_bank = pos / BANK_SIZE;
    let base: u16 = if cur_bank == 0 {
        (pos % 0x1_0000) as u16
    } else {
        let start = syms.mem_map((cur_bank % 256) as u8);
        start.wrapping_add((pos % BANK_SIZE) as u16)
    };
    crate::instr::RelAddr(a).add(Addr(base)).0
}

/// Reads one instruction (see `fetch_spec`).
fn fetch_instr(rom: &Vec<u8>, data: &Vec<(u64, u64)>, pos: u64, fresh: bool) -> (r: Fetch)
    requires
        pos <= rom@.len(),
    ensures
        r == fetch_spec(rom@, data@, pos, fresh, Seq::empty()),
{
    let n = rom.len();
    let mut d = Disasm::new();
    let mut p = pos;
    let mut first = fresh;
    loop
        invariant
            pos <= p <= rom@.len(),
            n == rom@.len(),
            d.wf(),
            d.fed().len() < 3,
            fetch_spec(rom@, data@, pos, fresh, Seq::empty()) == fetch_spec(rom@, data@, p, first, d.fed()),
        decreases 3 - d.fed().len(),
    {
        if !first && p % BANK_SIZE == 0 {
            return Fetch::Stop(p, true);
        }
        if in_data_exec(data, p) {
            return Fetch::Stop(p, false);
        }
        if p >= n as u64 {
            return Fetch::Stop(p, false);
        }
        let b = rom[p as usize];
        match d.feed_byte(b) {
            Some(i) => {
                return Fetch::Got(i, p + 1);
            },
            None => {},
        }
        p = p + 1;
        first = false;
    }
}

proof fn lemma_fetch_advances(rom: Seq<u8>, data: Seq<(u64, u64)>, pos: u64, fresh: bool, pend: Seq<u8>)
    requires
        pos <= rom.len() <= u64::MAX,
    ensures
        match fetch_spec(rom, data, pos, fresh, pend) {
            Fetch::Got(_, p) => pos < p <= rom.len(),
            Fetch::Stop(p, _) => pos <= p <= rom.len(),
        },
    decreases 3 - pend.len(),
{
    if !(!fresh && pos % BANK_SIZE == 0) && !in_data(data, pos) && !(pos >= rom.len() || pend.len() >= 3) {
        let fed = pend.push(rom[pos as int]);
        if spec_decode(fed) is None {
            lemma_fetch_advances(rom, data, (pos + 1) as u64, false, fed);
        }
    }
}

/// Scans one region (see `scan_spec`), adding its NOP ranges, work list
/// entries and targets to the lists; returns where it ends and the NOP
/// run still open.
#[verifier::spinoff_prover]
#[verifier::rlimit(80)]
fn scan_region(
    rom: &Vec<u8>,
    data: &Vec<(u64, u64)>,
    starts: &Vec<u16>,
    syms: &WlaSym,
    region_pos: u64,
    ranges: &mut Vec<(u64, u64, Section)>,
    worklist: &mut Vec<u64>,
    targets: &mut Vec<u64>,
) -> (r: (u64, Option<u64>))
    requires
        region_pos < rom@.len() <= u64::MAX,
        starts@.len() <= 256,
        starts@.len() * BANK_SIZE <= rom@.len(),
        findings_ok(old(ranges)@, data@, old(targets)@, rom@.len()),
    ensures
        ({
            let s = scan_spec(rom@, data@, starts@, *syms, region_pos, region_pos % BANK_SIZE == 0, None);
            &&& final(ranges)@ == old(ranges)@ + s.1
            &&& final(worklist)@ == old(worklist)@ + s.2
            &&& final(targets)@ == old(targets)@ + s.3
            &&& r == (s.0, s.4)
        }),
        region_pos <= r.0 <= rom@.len(),
        r.1 matches Some(x) ==> region_pos <= x <= r.0,
        findings_ok(final(ranges)@, data@, final(targets)@, rom@.len()),
{
    let ghost s0 = scan_spec(rom@, data@, starts@, *syms, region_pos, region_pos % BANK_SIZE == 0, None);
    let ghost r0 = ranges@;
    let ghost w0 = worklist@;
    let ghost t0 = targets@;
    let mut pos = region_pos;
    let mut fresh = region_pos % BANK_SIZE == 0;
    let mut nop: Option<u64> = None;
    proof {
        assert(r0 + s0.1 =~= ranges@ + s0.1);
    }
    loop
        invariant
            region_pos <= pos <= rom@.len() <= u64::MAX,
            starts@.len() <= 256,
            starts@.len() * BANK_SIZE <= rom@.len(),
            nop matches Some(x) ==> region_pos <= x <= pos,
            findings_ok(ranges@, data@, targets@, rom@.len()),
            s0 == scan_spec(rom@, data@, starts@, *syms, region_pos, region_pos % BANK_SIZE == 0, None),
            r0 == old(ranges)@,
            w0 == old(worklist)@,
            t0 == old(targets)@,
            ({
                let cur = scan_spec(rom@, data@, starts@, *syms, pos, fresh, nop);
                &&& s0.0 == cur.0
                &&& s0.4 == cur.4
                &&& r0 + s0.1 == ranges@ + cur.1
                &&& w0 + s0.2 == worklist@ + cur.2
                &&& t0 + s0.3 == targets@ + cur.3
            }),
        decreases rom@.len() - pos,
    {
        let ghost cur = scan_spec(rom@, data@, starts@, *syms, pos, fresh, nop);
        proof {
            lemma_fetch_advances(rom@, data@, pos, fresh, Seq::empty());
        }
        match fetch_instr(rom, data, pos, fresh) {
            Fetch::Stop(p, boundary) => {
                if boundary {
                    worklist.push(p);
                }
                proof {
                    assert(ranges@ + Seq::<(u64, u64, Section)>::empty() =~= ranges@);
                    assert(targets@ + Seq::<u64>::empty() =~= targets@);
                    if boundary {
                        assert(worklist@ =~= w0 + s0.2);
                    } else {
                        assert(worklist@ + Seq::<u64>::empty() =~= worklist@);
                    }
                }
                return (p, nop);
            },
            Fetch::Got(i, p) => {
                let ghost rbefore = ranges@;
                let is_nop = match i {
                    Instr::NOP => true,
                    _ => false,
                };
                assert(is_nop == (i == Instr::NOP));
                let ghost nops = if is_nop {
                    Seq::<(u64, u64, Section)>::empty()
                } else {
                    nop_close(nop, pos)
                };
                if is_nop {
                    if nop.is_none() {
                        nop = Some(pos);
                    }
                } else {
                    close_nops(ranges, pos, nop);
                    nop = None;
                }
                assert(ranges@ =~= rbefore + nops);
                let is_invalid = match i {
                    Instr::INVALID(_) => true,
                    _ => false,
                };
                if is_invalid {
                    worklist.push(p);
                    proof {
                        assert(r0 + s0.1 =~= ranges@);
                        assert(targets@ + Seq::<u64>::empty() =~= targets@);
                        assert(w0 + s0.2 =~= worklist@);
                    }
                    return (p, nop);
                }
                let target: Option<u16> = match i {
                    Instr::JR_COND_r8(_, a) | Instr::JR_r8(a) => Some(jr_target(a.0, p, syms)),
                    Instr::JP_a16(a) | Instr::CALL_a16(a) | Instr::CALL_COND_a16(_, a) => Some(a.0),
                    _ => None,
                };
                assert(target == target_spec(i, p, *syms));
                let ghost found = match target_spec(i, p, *syms) {
                    Some(t) => remap_spec(t, ((p / BANK_SIZE) % 256) as u8, starts@),
                    None => Seq::<u64>::empty(),
                };
                let ghost wbefore = worklist@;
                let ghost tbefore = targets@;
                if let Some(t) = target {
                    if let Some(addrs) = remap_address(t, ((p / BANK_SIZE) % 256) as u8, starts) {
                        proof {
                            lemma_remap_bound(t, ((p / BANK_SIZE) % 256) as u8, starts@);
                        }
                        let mut j: usize = 0;
                        while j < addrs.len()
                            invariant
                                j <= addrs@.len(),
                                addrs@ == found,
                                forall|q: int| 0 <= q < addrs@.len() ==> #[trigger] addrs@[q] < rom@.len(),
                                worklist@ == wbefore + addrs@.subrange(0, j as int),
                                targets@ == tbefore + addrs@.subrange(0, j as int),
                                findings_ok(ranges@, data@, targets@, rom@.len()),
                            decreases addrs@.len() - j,
                        {
                            worklist.push(addrs[j]);
                            targets.push(addrs[j]);
                            proof {
                                assert(worklist@ =~= wbefore + addrs@.subrange(0, j + 1));
                                assert(targets@ =~= tbefore + addrs@.subrange(0, j + 1));
                            }
                            j = j + 1;
                        }
                        assert(addrs@.subrange(0, addrs@.len() as int) =~= addrs@);
                    } else {
                        assert(worklist@ =~= wbefore + found);
                        assert(targets@ =~= tbefore + found);
                    }
                } else {
                    assert(worklist@ =~= wbefore + found);
                    assert(targets@ =~= tbefore + found);
                }
                let ends = match i {
                    Instr::RET | Instr::RETI | Instr::JR_r8(_) | Instr::JP_r16(_) | Instr::JP_a16(_) => true,
                    _ => false,
                };
                assert(ends == ends_region(i));
                if ends {
                    worklist.push(p);
                    proof {
                        assert(r0 + s0.1 =~= ranges@);
                        assert(w0 + s0.2 =~= worklist@);
                        assert(t0 + s0.3 =~= targets@);
                    }
                    return (p, nop);
                }
                proof {
                    let rest = scan_spec(rom@, data@, starts@, *syms, p, false, nop);
                    assert(cur == (rest.0, nops + rest.1, found + rest.2, found + rest.3, rest.4));
                    assert(r0 + s0.1 =~= ranges@ + rest.1);
                    assert(w0 + s0.2 =~= worklist@ + rest.2);
                    assert(t0 + s0.3 =~= targets@ + rest.3);
                }
                pos = p;
                fresh = false;
            },
        }
    }
}

/// Follows the code of `rom` from the entry points. Each region starts at
/// a position taken from the work list (the entry points first, last one
/// first) that was not visited before and runs instruction by instruction
/// until a bank boundary, a data range, the end of the ROM, an undefined
/// opcode, or a return or unconditional jump; the targets of jumps and
/// calls (mapped through the banks' slots) join the work list, and so does
/// the position after a region. Runs of more than ten bytes of NOPs are
/// marked. The result lists the data ranges first, then the NOP and code
/// ranges found, as `analysis_spec` gives them.
pub fn analyze(rom: &Vec<u8>, syms: &WlaSym, entries: &Vec<u64>, data: &Vec<(u64, u64)>) -> (r: Analysis)
    ensures
        (r.ranges@, r.targets@) == analysis_spec(rom@, *syms, entries@, data@),
        findings_ok(r.ranges@, data@, r.targets@, rom@.len()),
{
    let len = rom.len() as u64;
    let num_banks = len / BANK_SIZE;
    let starts = bank_starts(syms, num_banks);
    assert(starts@ =~= starts_spec(*syms, rom@.len() / BANK_SIZE as nat));
    proof {
        assert(starts@.len() * BANK_SIZE <= len) by (nonlinear_arith)
            requires
                starts@.len() <= num_banks,
                num_banks == len / BANK_SIZE,
        ;
    }
    let mut ranges: Vec<(u64, u64, Section)> = Vec::new();
    let mut k: usize = 0;
    while k < data.len()
        invariant
            k <= data@.len(),
            ranges@.len() == k,
            forall|j: int| 0 <= j < k ==> #[trigger] ranges@[j] == (data@[j].0, data@[j].1, Section::Data),
        decreases data@.len() - k,
    {
        ranges.push((data[k].0, data[k].1, Section::Data));
        k = k + 1;
    }
    assert(ranges@ =~= data_ranges(data@));
    let mut targets: Vec<u64> = Vec::new();
    let mut worklist: Vec<u64> = entries.clone();
    let mut visited: Vec<bool> = vec![false; rom.len()];
    assert(visited@ =~= Seq::new(rom@.len(), |i: int| false));
    let ghost whole = analysis_spec(rom@, *syms, entries@, data@);
    let n = rom.len();
    loop
        invariant
            len == rom@.len(),
            n == rom@.len(),
            visited@.len() == rom@.len(),
            starts@ == starts_spec(*syms, rom@.len() / BANK_SIZE as nat),
            starts@.len() <= 256,
            starts@.len() * BANK_SIZE <= rom@.len(),
            findings_ok(ranges@, data@, targets@, rom@.len()),
            whole == run_spec(rom@, data@, starts@, *syms, worklist@, visited@, ranges@, targets@),
        ensures
            worklist@.len() == 0,
        decreases unvisited(visited@), worklist@.len(),
    {
        let ghost wl = worklist@;
        let region_pos = match worklist.pop() {
            Some(p) => p,
            None => {
                break;
            },
        };
        assert(worklist@ == wl.drop_last() && region_pos == wl.last());
        if region_pos >= len {
            continue;
        }
        assert(region_pos < n);
        let idx = region_pos as usize;
        assert(idx == region_pos);
        if visited[idx] {
            continue;
        }
        proof {
            lemma_unvisited_mark(visited@, idx as int);
        }
        visited.set(idx, true);
        let ghost rbefore = ranges@;
        let (end, nop) = scan_region(rom, data, &starts, syms, region_pos, &mut ranges, &mut worklist, &mut targets);
        let ghost rscan = ranges@;
        close_nops(&mut ranges, end, nop);
        assert(ranges@ =~= rscan + nop_close(nop, end));
        let ghost rclosed = ranges@;
        if end > region_pos {
            ranges.push((region_pos, end, Section::Code));
        }
        proof {
            let code = if end > region_pos {
                seq![(region_pos, end, Section::Code)]
            } else {
                Seq::<(u64, u64, Section)>::empty()
            };
            assert(ranges@ =~= rclosed + code);
        }
    }
    assert(worklist@.len() == 0);
    Analysis { ranges, targets }
}

/// The well-known entry points of every cartridge: the start of the game
/// and the restart and interrupt vectors.
pub fn fixed_entries() -> (r: Vec<(&'static str, u64)>)
    ensures
        r@.len() == 14,
        r@[0].1 == 0x100,
        forall|k: int| 1 <= k < 9 ==> #[trigger] r@[k].1 == (k - 1) * 8,
        forall|k: int| 9 <= k < 14 ==> #[trigger] r@[k].1 == 0x40 + (k - 9) * 8,
{
    vec![
        ("main", 0x0100),
        ("rst_0", 0x0000),
        ("rst_8", 0x0008),
        ("rst_10", 0x0010),
        ("rst_18", 0x0018),
        ("rst_20", 0x0020),
        ("rst_28", 0x0028),
        ("rst_30", 0x0030),
        ("rst_38", 0x0038),
        ("VBlankInterrupt", 0x0040),
        ("LCDCInterrupt", 0x0048),
        ("TimerOverflowInterrupt", 0x0050),
        ("SerialTransferCompleteInterrupt", 0x0058),
        ("JoypadTransitionInterrupt", 0x0060),
    ]
}

/// The header fields of a cartridge, as named data ranges; the title field
/// is shorter on colour cartridges, which also have a manufacturer code and
/// a new licensee code.
pub fn header_data(cgb: bool) -> (r: Vec<(&'static str, u64, u64)>)
    ensures
        r@.len() == (if cgb { 13int } else { 12int }),
        r@[0].1 == 0x104 && r@[0].2 == 0x134,
        forall|k: int| 0 <= k < r@.len() ==> 0x104 <= (#[trigger] r@[k]).1 < r@[k].2 <= 0x150,
        cgb ==> r@[10].1 == 0x134 && r@[10].2 == 0x13f,
        !cgb ==> r@[10].1 == 0x134 && r@[10].2 == 0x144,
{
    let mut v = vec![
        ("HeaderLogo", 0x104u64, 0x134u64),
        ("CGBFlag", 0x143, 0x144),
        ("SGBFlag", 0x146, 0x147),
        ("CartridgeType", 0x147, 0x148),
        ("ROMSize", 0x148, 0x149),
        ("RAMSize", 0x149, 0x14A),
        ("DestinationCode", 0x14A, 0x14B),
        ("MaskRomVersion", 0x14C, 0x14D),
        ("HeaderChecksum", 0x14D, 0x14E),
        ("GlobalChecksum", 0x14E, 0x150),
    ];
    if cgb {
        v.push(("Title", 0x134, 0x13f));
        v.push(("ManufacterCode", 0x13f, 0x143));
        v.push(("LicenseeCode", 0x144, 0x145));
    } else {
        v.push(("Title", 0x134, 0x144));
        v.push(("OldLicenseeCode", 0x14B, 0x14C));
    }
    v
}

/// Whether the label at index `k` is the last one with its bank and
/// address (no later one replaces it).
pub open spec fn label_live(v: Seq<(u8, u16, Vec<u8>)>, k: int) -> bool {
    forall|j: int| k < j < v.len() ==> !((#[trigger] v[j]).0 == v[k].0 && v[j].1 == v[k].1)
}

/// Offsets paired with a name.
pub open spec fn with_name(offsets: Seq<u64>, name: Seq<u8>) -> Seq<(u64, Seq<u8>)> {
    Seq::new(offsets.len(), |i: int| (offsets[i], name))
}

/// Entry points as offsets and name bytes.
pub open spec fn entry_view(v: Seq<(u64, Vec<u8>)>) -> Seq<(u64, Seq<u8>)> {
    Seq::new(v.len(), |i: int| (v[i].0, v[i].1@))
}

/// The ROM offsets the first `n` labels of `all` name (each label that no
/// later one replaces, remapped from its own bank), with their names.
pub open spec fn label_entries_upto(all: Seq<(u8, u16, Vec<u8>)>, n: int, starts: Seq<u16>) -> Seq<(u64, Seq<u8>)>
    decreases n,
{
    if n <= 0 {
        Seq::empty()
    } else {
        let k = n - 1;
        let rest = label_entries_upto(all, k, starts);
        if label_live(all, k) {
            rest + with_name(remap_spec(all[k].1, all[k].0, starts), all[k].2@)
        } else {
            rest
        }
    }
}

/// The entry points the symbol files give: every label, remapped from its
/// bank, with its name.
pub fn label_entries(syms: &WlaSym, starts: &Vec<u16>) -> (r: Vec<(u64, Vec<u8>)>)
    requires
        starts@.len() <= 256,
    ensures
        entry_view(r@) == label_entries_upto(syms.entries_view(), syms.entries_view().len() as int, starts@),
{
    let labels = syms.entries();
    let mut out: Vec<(u64, Vec<u8>)> = Vec::new();
    let mut k: usize = 0;
    assert(entry_view(out@) =~= label_entries_upto(labels@, 0, starts@));
    while k < labels.len()
        invariant
            k <= labels@.len(),
            starts@.len() <= 256,
            labels@ == syms.entries_view(),
            entry_view(out@) == label_entries_upto(labels@, k as int, starts@),
        decreases labels@.len() - k,
    {
        let mut live = true;
        let mut j = k + 1;
        while j < labels.len()
            invariant
                k < j <= labels@.len(),
                live == (forall|q: int| k < q < j ==> !((#[trigger] labels@[q]).0 == labels@[k as int].0 && labels@[q].1 == labels@[k as int].1)),
            decreases labels@.len() - j,
        {
            if labels[j].0 == labels[k].0 && labels[j].1 == labels[k].1 {
                live = false;
            }
            j = j + 1;
        }
        let ghost before = entry_view(out@);
        assert(live == label_live(labels@, k as int));
        if live {
            if let Some(addrs) = remap_address(labels[k].1, labels[k].0, starts) {
                let ghost name = labels@[k as int].2@;
                let mut q: usize = 0;
                assert(entry_view(out@) =~= before + with_name(addrs@.subrange(0, 0), name));
                while q < addrs.len()
                    invariant
                        q <= addrs@.len(),
                        k < labels@.len(),
                        name == labels@[k as int].2@,
                        entry_view(out@) == before + with_name(addrs@.subrange(0, q as int), name),
                    decreases addrs@.len() - q,
                {
                    let n = labels[k].2.clone();
                    assert(n@ == name);
                    let ghost old_out = out@;
                    out.push((addrs[q], n));
                    assert(entry_view(out@) =~= entry_view(old_out).push((addrs@[q as int], name)));
                    assert(with_name(addrs@.subrange(0, q + 1), name) =~= with_name(addrs@.subrange(0, q as int), name).push((addrs@[q as int], name)));
                    assert(entry_view(out@) =~= before + with_name(addrs@.subrange(0, q + 1), name));
                    q = q + 1;
                }
                assert(addrs@.subrange(0, addrs@.len() as int) =~= addrs@);
            } else {
                assert(with_name(remap_spec(labels@[k as int].1, labels@[k as int].0, starts@), labels@[k as int].2@) =~= Seq::empty());
                assert(before + Seq::<(u64, Seq<u8>)>::empty() =~= before);
            }
        }
        k = k + 1;
    }
    out
}

} // verus!
