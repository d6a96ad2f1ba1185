//! The assembler source of one ROM bank: each piece of the bank (see
//! `regions`) becomes `.db` lines, a `.DSB` run of zeros or disassembled
//! instructions, under the name of the position it starts at.
use crate::dis::{remap_address, remap_spec, slot_of, window_end, Section, BANK_SIZE};
use crate::format::{hex2, hex4, hex_digit, instr_code, instr_code_ok, name_of, names_view, push_hex2, push_hex4, push_hex_digit, FormatCode};
use crate::instr::{spec_decode, Disasm, Instr};
use crate::regions::{byte_regions, region_at, regions_ok};
use crate::wla::WlaSym;
use vstd::prelude::*;
use vstd::string::*;

verus! {

/// A number in decimal.
pub open spec fn dec_text(n: nat) -> Seq<char>
    decreases n,
{
    if n < 10 {
        hex_digit(n as int)
    } else {
        dec_text(n / 10) + hex_digit((n % 10) as int)
    }
}

pub(crate) fn push_dec(out: &mut String, n: u64)
    ensures
        final(out)@ == old(out)@ + dec_text(n as nat),
    decreases n,
{
    let ghost start = out@;
    if n >= 10 {
        push_dec(out, n / 10);
    }
    push_hex_digit(out, (n % 10) as u8);
    proof {
        if n >= 10 {
            assert(out@ =~= start + (dec_text((n / 10) as nat) + hex_digit((n % 10) as int)));
        }
    }
}

/// Each byte as `$` and two hex digits, followed by a space.
pub open spec fn db_items(s: Seq<u8>) -> Seq<char>
    decreases s.len(),
{
    if s.len() == 0 {
        Seq::empty()
    } else {
        db_items(s.drop_last()) + "$"@ + hex2(s.last()) + " "@
    }
}

/// One `.db` line.
pub open spec fn db_line(s: Seq<u8>) -> Seq<char> {
    "\t.db "@ + db_items(s) + "\n"@
}

/// The `.db` lines of `s` from index `i` on, sixteen bytes to a line.
pub open spec fn data_from(s: Seq<u8>, i: int) -> Seq<char>
    decreases s.len() - i,
{
    if i >= s.len() {
        Seq::empty()
    } else if i + 16 < s.len() {
        db_line(s.subrange(i, i + 16)) + data_from(s, i + 16)
    } else {
        db_line(s.subrange(i, s.len() as int))
    }
}

/// The address shown for the byte at index `i` of a piece mapped at
/// `[ms, me)`: past the end of the mapping, the last address repeats.
pub open spec fn byte_addr(ms: u16, me: u16, i: int) -> int {
    if i < me - ms {
        ms + i
    } else {
        me - 1
    }
}

/// The line of an instruction of `len` bytes whose last byte is shown at
/// address `a`.
pub open spec fn code_line(ins: Instr, a: int, len: nat, names: Seq<(u16, Seq<char>)>) -> Seq<char> {
    "\t"@ + instr_code(ins, ((a + len) % 0x10000) as u16, names) + " ; Addr: 0000"@ + hex4(
        ((a + 1 - len) % 0x10000) as u16,
    ) + "\n"@
}

/// The text of a code piece from index `i` on, with the bytes `pend` of
/// an unfinished instruction before it; `None` when an instruction has no
/// text. Bytes left over at the end become a `.db` line.
#[verifier::opaque]
pub open spec fn code_from(s: Seq<u8>, ms: u16, me: u16, i: int, pend: Seq<u8>, names: Seq<(u16, Seq<char>)>) -> Option<
    Seq<char>,
>
    decreases s.len() - i,
{
    if i >= s.len() {
        Some(
            if pend.len() > 0 {
                db_line(pend)
            } else {
                Seq::empty()
            },
        )
    } else {
        let fed = pend.push(s[i]);
        match spec_decode(fed) {
            None => code_from(s, ms, me, i + 1, fed, names),
            Some(ins) => if !instr_code_ok(ins) {
                None
            } else {
                match code_from(s, ms, me, i + 1, Seq::empty(), names) {
                    Some(rest) => Some(code_line(ins, byte_addr(ms, me, i), fed.len(), names) + rest),
                    None => None,
                }
            },
        }
    }
}

/// `p` followed by the text, if there is one.
pub open spec fn opt_prefix(p: Seq<char>, o: Option<Seq<char>>) -> Option<Seq<char>> {
    match o {
        Some(t) => Some(p + t),
        None => None,
    }
}

/// Names of ROM positions, as plain values.
pub open spec fn targets_view(t: Seq<(u64, String)>) -> Seq<(u64, Seq<char>)> {
    t.map_values(|p: (u64, String)| (p.0, p.1@))
}

/// The name the first entry for position `k` gives it.
pub open spec fn target_name(t: Seq<(u64, Seq<char>)>, k: u64) -> Option<Seq<char>>
    decreases t.len(),
{
    if t.len() == 0 {
        None
    } else if t[0].0 == k {
        Some(t[0].1)
    } else {
        target_name(t.drop_first(), k)
    }
}

/// The label line of position `k`, if it has a name.
pub open spec fn label_text(t: Seq<(u64, Seq<char>)>, k: u64) -> Seq<char> {
    match target_name(t, k) {
        Some(n) => n + ":\n"@,
        None => Seq::empty(),
    }
}

/// The text of one piece `[p.0, p.1)` of the ROM, mapped at `[p.2, p.3)`.
pub open spec fn piece_text(
    rom: Seq<u8>,
    p: (u64, u64, u16, u16, Section),
    t: Seq<(u64, Seq<char>)>,
    names: Seq<(u16, Seq<char>)>,
) -> Option<Seq<char>> {
    let bytes = rom.subrange(p.0 as int, p.1 as int);
    let body = match p.4 {
        Section::Data => Some(data_from(bytes, 0) + "\n"@),
        Section::Nop => Some("\t.DSB "@ + dec_text((p.1 - p.0) as nat) + ", $00\n"@),
        Section::Code => code_from(bytes, p.2, p.3, 0, Seq::empty(), names),
    };
    opt_prefix(label_text(t, p.0), body)
}

/// The text of the pieces in order; `None` when one of them has none.
pub open spec fn pieces_text(
    rom: Seq<u8>,
    regs: Seq<(u64, u64, u16, u16, Section)>,
    t: Seq<(u64, Seq<char>)>,
    names: Seq<(u16, Seq<char>)>,
) -> Option<Seq<char>>
    decreases regs.len(),
{
    if regs.len() == 0 {
        Some(Seq::empty())
    } else {
        match pieces_text(rom, regs.drop_last(), t, names) {
            None => None,
            Some(a) => match piece_text(rom, regs.last(), t, names) {
                None => None,
                Some(b) => Some(a + b),
            },
        }
    }
}

/// The first lines of the source of bank `b`.
pub open spec fn bank_header(b: u64) -> Seq<char> {
    ".BANK "@ + dec_text(b as nat) + " SLOT "@ + dec_text(b as nat) + "\n.ORG 0\n"@
}

proof fn lemma_pieces_none(
    rom: Seq<u8>,
    regs: Seq<(u64, u64, u16, u16, Section)>,
    j: int,
    t: Seq<(u64, Seq<char>)>,
    names: Seq<(u16, Seq<char>)>,
)
    requires
        0 <= j <= regs.len(),
        pieces_text(rom, regs.subrange(0, j), t, names) is None,
    ensures
        pieces_text(rom, regs, t, names) is None,
    decreases regs.len() - j,
{
    if j < regs.len() {
        assert(regs.subrange(0, j + 1).drop_last() =~= regs.subrange(0, j));
        lemma_pieces_none(rom, regs, j + 1, t, names);
    } else {
        assert(regs.subrange(0, j) =~= regs);
    }
}

fn push_db_items(out: &mut String, rom: &Vec<u8>, lo: usize, hi: usize)
    requires
        lo <= hi <= rom@.len(),
    ensures
        final(out)@ == old(out)@ + db_items(rom@.subrange(lo as int, hi as int)),
{
    let ghost start = out@;
    let mut i = lo;
    assert(rom@.subrange(lo as int, lo as int) =~= Seq::<u8>::empty());
    while i < hi
        invariant
            lo <= i <= hi <= rom@.len(),
            out@ == start + db_items(rom@.subrange(lo as int, i as int)),
        decreases hi - i,
    {
        let ghost before = out@;
        out.append("$");
        push_hex2(out, rom[i]);
        out.append(" ");
        proof {
            let s = rom@.subrange(lo as int, i + 1);
            assert(s.drop_last() =~= rom@.subrange(lo as int, i as int));
            assert(s.last() == rom@[i as int]);
            assert(out@ =~= start + db_items(s));
        }
        i = i + 1;
    }
}

fn push_db_line(out: &mut String, rom: &Vec<u8>, lo: usize, hi: usize)
    requires
        lo <= hi <= rom@.len(),
    ensures
        final(out)@ == old(out)@ + db_line(rom@.subrange(lo as int, hi as int)),
{
    let ghost start = out@;
    out.append("\t.db ");
    push_db_items(out, rom, lo, hi);
    out.append("\n");
    assert(out@ =~= start + db_line(rom@.subrange(lo as int, hi as int)));
}

/// The `.db` lines of the bytes `[lo, hi)`, and an empty line.
fn push_data(out: &mut String, rom: &Vec<u8>, lo: usize, hi: usize)
    requires
        lo <= hi <= rom@.len(),
    ensures
        final(out)@ == old(out)@ + data_from(rom@.subrange(lo as int, hi as int), 0) + "\n"@,
{
    let ghost s = rom@.subrange(lo as int, hi as int);
    let ghost start = out@;
    let mut i = lo;
    assert(start + data_from(s, 0) =~= out@ + data_from(s, 0));
    while i < hi
        invariant
            lo <= i <= hi <= rom@.len(),
            s == rom@.subrange(lo as int, hi as int),
            start + data_from(s, 0) == out@ + data_from(s, i - lo),
        decreases hi - i,
    {
        let j = if hi - i > 16 {
            i + 16
        } else {
            hi
        };
        let ghost k = i - lo;
        proof {
            assert(s.subrange(k, (j - lo) as int) =~= rom@.subrange(i as int, j as int));
        }
        let ghost before = out@;
        push_db_line(out, rom, i, j);
        proof {
            if j == hi {
                assert(data_from(s, k) == db_line(s.subrange(k, (j - lo) as int)));
                assert(data_from(s, (j - lo) as int) == Seq::<char>::empty());
            } else {
                assert(data_from(s, k) == db_line(s.subrange(k, (j - lo) as int)) + data_from(s, k + 16));
            }
            assert(out@ + data_from(s, j - lo) =~= before + data_from(s, k));
        }
        i = j;
    }
    proof {
        assert(data_from(s, (i - lo) as int) == Seq::<char>::empty());
        assert(out@ =~= start + data_from(s, 0));
    }
    let ghost mid = out@;
    out.append("\n");
    assert(out@ =~= start + data_from(s, 0) + "\n"@);
}

/// Whether an instruction has a text: a relative jump of -128 has none.
fn has_text(ins: Instr) -> (r: bool)
    ensures
        r == instr_code_ok(ins),
{
    match ins {
        Instr::JR_COND_r8(_, o) | Instr::JR_r8(o) => o.0 != -128,
        _ => true,
    }
}

/// One instruction line (see `code_line`).
fn push_line(out: &mut String, ins: Instr, a: u16, len: usize, names: &Vec<(u16, String)>)
    requires
        instr_code_ok(ins),
        1 <= len <= 3,
        a + 1 >= len,
    ensures
        final(out)@ == old(out)@ + code_line(ins, a as int, len as nat, names_view(names@)),
{
    let ghost start = out@;
    let end = a.wrapping_add(len as u16);
    assert(end == ((a + len) % 0x10000) as u16) by (bit_vector)
        requires
            end == a.wrapping_add(len as u16),
            len <= 3,
    ;
    let code = ins.to_code(a..end, names);
    out.append("\t");
    out.append(code.as_str());
    out.append(" ; Addr: 0000");
    let shown: u16 = a - (len as u16 - 1);
    assert(shown == ((a + 1 - len) % 0x10000) as u16);
    push_hex4(out, shown);
    out.append("\n");
    assert(out@ =~= start + code_line(ins, a as int, len as nat, names_view(names@)));
}

proof fn lemma_code_more(s: Seq<u8>, ms: u16, me: u16, k: int, pend: Seq<u8>, nv: Seq<(u16, Seq<char>)>)
    requires
        0 <= k < s.len(),
        spec_decode(pend.push(s[k])) is None,
    ensures
        code_from(s, ms, me, k, pend, nv) == code_from(s, ms, me, k + 1, pend.push(s[k]), nv),
{
    reveal(code_from);
}

proof fn lemma_code_bad(s: Seq<u8>, ms: u16, me: u16, k: int, pend: Seq<u8>, nv: Seq<(u16, Seq<char>)>, ins: Instr)
    requires
        0 <= k < s.len(),
        spec_decode(pend.push(s[k])) == Some(ins),
        !instr_code_ok(ins),
    ensures
        code_from(s, ms, me, k, pend, nv) is None,
{
    reveal(code_from);
}

proof fn lemma_code_some(
    s: Seq<u8>,
    ms: u16,
    me: u16,
    k: int,
    pend: Seq<u8>,
    nv: Seq<(u16, Seq<char>)>,
    ins: Instr,
    text: Seq<char>,
)
    requires
        0 <= k < s.len(),
        spec_decode(pend.push(s[k])) == Some(ins),
        instr_code_ok(ins),
    ensures
        opt_prefix(text, code_from(s, ms, me, k, pend, nv)) == opt_prefix(
            text + code_line(ins, byte_addr(ms, me, k), pend.len() + 1, nv),
            code_from(s, ms, me, k + 1, Seq::empty(), nv),
        ),
{
    reveal(code_from);
    let line = code_line(ins, byte_addr(ms, me, k), pend.push(s[k]).len(), nv);
    match code_from(s, ms, me, k + 1, Seq::empty(), nv) {
        Some(rest) => {
            assert(text + (line + rest) =~= (text + line) + rest);
        },
        None => {},
    }
}

proof fn lemma_code_end(s: Seq<u8>, ms: u16, me: u16, pend: Seq<u8>, nv: Seq<(u16, Seq<char>)>)
    ensures
        code_from(s, ms, me, s.len() as int, pend, nv) == Some(
            if pend.len() > 0 {
                db_line(pend)
            } else {
                Seq::empty()
            },
        ),
{
    reveal(code_from);
}

/// The disassembly of the code piece `[lo, hi)` shown at `[ms, me)`.
#[verifier::spinoff_prover]
#[verifier::rlimit(40)]
fn push_code(out: &mut String, rom: &Vec<u8>, lo: usize, hi: usize, ms: u16, me: u16, names: &Vec<(u16, String)>) -> (ok: bool)
    requires
        lo < hi <= rom@.len(),
        ms <= me,
        me - ms >= hi - lo || me == 0xffff,
    ensures
        opt_prefix(old(out)@, code_from(rom@.subrange(lo as int, hi as int), ms, me, 0, Seq::empty(), names_view(names@)))
            == (if ok {
            Some(final(out)@)
        } else {
            None
        }),
{
    let ghost s = rom@.subrange(lo as int, hi as int);
    let ghost nv = names_view(names@);
    let ghost start = out@;
    let mut text = String::new();
    let mut d = Disasm::new();
    let mut i = lo;
    assert(opt_prefix(text@, code_from(s, ms, me, 0, d.fed(), nv)) =~= code_from(s, ms, me, 0, Seq::empty(), nv)) by {
        match code_from(s, ms, me, 0, Seq::empty(), nv) {
            Some(t) => assert(Seq::<char>::empty() + t =~= t),
            None => {},
        }
    }
    while i < hi
        invariant
            lo <= i <= hi <= rom@.len(),
            s == rom@.subrange(lo as int, hi as int),
            ms <= me,
            me - ms >= hi - lo || me == 0xffff,
            d.wf(),
            d.fed().len() <= i - lo,
            d.fed().len() < 3,
            nv == names_view(names@),
            opt_prefix(text@, code_from(s, ms, me, i - lo, d.fed(), nv)) == code_from(s, ms, me, 0, Seq::empty(), nv),
        decreases hi - i,
    {
        let ghost k = i - lo;
        let ghost pend = d.fed();
        let b = rom[i];
        assert(s[k] == b);
        let r = d.feed_byte(b);
        match r {
            None => {
                proof {
                    lemma_code_more(s, ms, me, k, pend, nv);
                }
            },
            Some(ins) => {
                if !has_text(ins) {
                    proof {
                        lemma_code_bad(s, ms, me, k, pend, nv, ins);
                    }
                    return false;
                }
                let len = d.len();
                let off = i - lo;
                let a: u16 = if (off as u64) < (me - ms) as u64 {
                    ms + off as u16
                } else {
                    me - 1
                };
                assert(a == byte_addr(ms, me, k));
                assert(a + 1 >= len) by {
                    if k >= me - ms {
                        assert(me == 0xffff);
                    }
                }
                let ghost before = text@;
                push_line(&mut text, ins, a, len, names);
                proof {
                    lemma_code_some(s, ms, me, k, pend, nv, ins, before);
                }
                d.reset();
            },
        }
        i = i + 1;
    }
    let ghost pend = d.fed();
    proof {
        lemma_code_end(s, ms, me, pend, nv);
    }
    let left = d.to_bytes();
    if left.len() > 0 {
        let ghost before = text@;
        text.append("\t.db ");
        push_db_items(&mut text, &left, 0, left.len());
        text.append("\n");
        proof {
            assert(left@.subrange(0, left@.len() as int) =~= left@);
            assert(text@ =~= before + db_line(pend));
        }
    } else {
        assert(text@ + Seq::<char>::empty() =~= text@);
    }
    out.append(text.as_str());
    true
}

/// Looks a position up among the named positions.
fn lookup_target(targets: &Vec<(u64, String)>, k: u64) -> (r: Option<&String>)
    ensures
        match r {
            Some(s) => target_name(targets_view(targets@), k) == Some(s@),
            None => target_name(targets_view(targets@), k) is None,
        },
{
    let mut i: usize = 0;
    assert(targets_view(targets@).skip(0) =~= targets_view(targets@));
    while i < targets.len()
        invariant
            i <= targets@.len(),
            target_name(targets_view(targets@), k) == target_name(targets_view(targets@).skip(i as int), k),
        decreases targets@.len() - i,
    {
        let ghost rest = targets_view(targets@).skip(i as int);
        assert(rest.drop_first() =~= targets_view(targets@).skip(i + 1));
        if targets[i].0 == k {
            return Some(&targets[i].1);
        }
        i = i + 1;
    }
    proof {
        assert(targets_view(targets@).skip(i as int).len() == 0);
    }
    None
}

/// The text of one piece (see `piece_text`).
fn push_piece(
    out: &mut String,
    rom: &Vec<u8>,
    p: (u64, u64, u16, u16, Section),
    targets: &Vec<(u64, String)>,
    names: &Vec<(u16, String)>,
) -> (ok: bool)
    requires
        p.0 < p.1 <= rom@.len(),
        p.2 <= p.3,
        p.3 - p.2 >= p.1 - p.0 || p.3 == 0xffff,
    ensures
        opt_prefix(old(out)@, piece_text(rom@, p, targets_view(targets@), names_view(names@))) == (if ok {
            Some(final(out)@)
        } else {
            None
        }),
{
    let ghost start = out@;
    let ghost tv = targets_view(targets@);
    let ghost nv = names_view(names@);
    match lookup_target(targets, p.0) {
        Some(n) => {
            out.append(n.as_str());
            out.append(":\n");
        },
        None => {},
    }
    let ghost labelled = out@;
    assert(labelled =~= start + label_text(tv, p.0));
    let n = rom.len();
    assert(p.1 <= n);
    let lo = p.0 as usize;
    let hi = p.1 as usize;
    assert(lo == p.0 && hi == p.1);
    match p.4 {
        Section::Data => {
            push_data(out, rom, lo, hi);
            assert(out@ =~= start + (label_text(tv, p.0) + (data_from(rom@.subrange(lo as int, hi as int), 0) + "\n"@)));
            true
        },
        Section::Nop => {
            out.append("\t.DSB ");
            push_dec(out, p.1 - p.0);
            out.append(", $00\n");
            assert(out@ =~= start + (label_text(tv, p.0) + ("\t.DSB "@ + dec_text((p.1 - p.0) as nat) + ", $00\n"@)));
            true
        },
        Section::Code => {
            let ok = push_code(out, rom, lo, hi, p.2, p.3, names);
            proof {
                if ok {
                    let body = code_from(rom@.subrange(lo as int, hi as int), p.2, p.3, 0, Seq::empty(), nv)->0;
                    assert(out@ == labelled + body);
                    assert(out@ =~= start + (label_text(tv, p.0) + body));
                }
            }
            ok
        },
    }
}

/// The assembler source of bank `b` of `rom`, whose slot starts at address
/// `m`: its first lines, then the text of each piece `byte_regions` cuts
/// the bank into, with the names of `targets` as labels and `names` for
/// the operands; `None` when an instruction in a code piece has no text.
pub fn dump_bank(
    rom: &Vec<u8>,
    b: u64,
    m: u16,
    ranges: &Vec<(u64, u64, Section)>,
    targets: &Vec<(u64, String)>,
    names: &Vec<(u16, String)>,
) -> (r: Option<String>)
    requires
        (b + 1) * BANK_SIZE <= rom@.len(),
        BANK_SIZE - 1 + m <= 0xffff,
    ensures
        exists|regs: Seq<(u64, u64, u16, u16, Section)>|
            {
                &&& regions_ok(ranges@, (b * BANK_SIZE) as u64, ((b + 1) * BANK_SIZE) as u64, m, regs)
                &&& match r {
                    Some(s) => opt_prefix(bank_header(b), pieces_text(rom@, regs, targets_view(targets@), names_view(names@))) == Some(s@),
                    None => pieces_text(rom@, regs, targets_view(targets@), names_view(names@)) is None,
                }
            },
{
    assert(b * BANK_SIZE + BANK_SIZE == (b + 1) * BANK_SIZE) by (nonlinear_arith);
    let n = rom.len();
    assert(b * BANK_SIZE + BANK_SIZE <= n);
    let fs = b * BANK_SIZE;
    let fe = fs + BANK_SIZE;
    let regs = byte_regions(fs, fe, m, ranges);
    let ghost tv = targets_view(targets@);
    let ghost nv = names_view(names@);
    let mut out = String::new();
    out.append(".BANK ");
    push_dec(&mut out, b);
    out.append(" SLOT ");
    push_dec(&mut out, b);
    out.append("\n.ORG 0\n");
    assert(out@ =~= bank_header(b));
    let ghost head = out@;
    let mut q: usize = 0;
    assert(regs@.subrange(0, 0) =~= Seq::<(u64, u64, u16, u16, Section)>::empty());
    assert(head + Seq::<char>::empty() =~= head);
    while q < regs.len()
        invariant
            q <= regs@.len(),
            fs == b * BANK_SIZE,
            fe == fs + BANK_SIZE,
            fe <= rom@.len(),
            BANK_SIZE - 1 + m <= 0xffff,
            regions_ok(ranges@, fs, fe, m, regs@),
            tv == targets_view(targets@),
            nv == names_view(names@),
            head == bank_header(b),
            opt_prefix(head, pieces_text(rom@, regs@.subrange(0, q as int), tv, nv)) == Some(out@),
        decreases regs@.len() - q,
    {
        let p = regs[q];
        assert(p == region_at(ranges@, fs, m, p.0, p.1));
        assert(fs <= p.0 && p.0 < p.1 && p.1 <= fe);
        let ghost before = out@;
        let ghost sub = regs@.subrange(0, q + 1);
        assert(sub.drop_last() =~= regs@.subrange(0, q as int));
        assert(sub.last() == p);
        let ok = push_piece(&mut out, rom, p, targets, names);
        if !ok {
            proof {
                lemma_pieces_none(rom@, regs@, q + 1, tv, nv);
            }
            return None;
        }
        proof {
            let a = pieces_text(rom@, regs@.subrange(0, q as int), tv, nv)->0;
            let t = piece_text(rom@, p, tv, nv)->0;
            assert(before == head + a);
            assert(out@ == before + t);
            assert(out@ =~= head + (a + t));
        }
        q = q + 1;
    }
    assert(regs@.subrange(0, regs@.len() as int) =~= regs@);
    Some(out)
}

/// The name an operand address `a` gets in bank `b`: the name of the ROM
/// position it stands for, when it stands for exactly one.
pub open spec fn remap_name(t: Seq<(u64, Seq<char>)>, starts: Seq<u16>, b: u8, a: u16) -> Option<Seq<char>> {
    let v = remap_spec(a, b, starts);
    if v.len() == 1 {
        target_name(t, v[0])
    } else {
        None
    }
}

/// A position an address stands for lies in a bank whose window holds
/// the address, at the address's distance from the window's start.
proof fn lemma_remap_member(target: u16, cur: u8, starts: Seq<u16>, k: int)
    requires
        starts.len() <= 256,
        0 <= k < remap_spec(target, cur, starts).len(),
    ensures
        remap_spec(target, cur, starts)[k] / BANK_SIZE < starts.len(),
        target == starts[(remap_spec(target, cur, starts)[k] / BANK_SIZE) as int] + remap_spec(target, cur, starts)[k] % BANK_SIZE,
        target < 0xffff,
    decreases starts.len(),
{
    let b = starts.len() - 1;
    let st = starts[b];
    let rest = remap_spec(target, cur, starts.drop_last());
    if k < rest.len() {
        lemma_remap_member(target, cur, starts.drop_last(), k);
        let x = rest[k];
        assert(remap_spec(target, cur, starts)[k] == x);
    } else {
        let x = remap_spec(target, cur, starts)[k];
        assert(st <= target < window_end(st) && (cur == 0 || cur == b));
        assert(b * BANK_SIZE <= 255 * BANK_SIZE) by (nonlinear_arith)
            requires
                b <= 255,
        ;
        assert(x == b * BANK_SIZE + target - st);
        vstd::arithmetic::div_mod::lemma_fundamental_div_mod_converse(x as int, BANK_SIZE as int, b, target - st);
    }
}

proof fn lemma_name_of_push(s: Seq<(u16, Seq<char>)>, e: (u16, Seq<char>), a: u16)
    ensures
        name_of(s.push(e), a) == (match name_of(s, a) {
            Some(n) => Some(n),
            None => if e.0 == a {
                Some(e.1)
            } else {
                None
            },
        }),
    decreases s.len(),
{
    if s.len() > 0 {
        assert(s.push(e).drop_first() =~= s.drop_first().push(e));
        assert(s.push(e)[0] == s[0]);
        lemma_name_of_push(s.drop_first(), e, a);
    } else {
        assert(s.push(e).drop_first() =~= s);
        assert(s.push(e)[0] == e);
    }
}

proof fn lemma_target_name_push(s: Seq<(u64, Seq<char>)>, e: (u64, Seq<char>), k: u64)
    ensures
        target_name(s.push(e), k) == (match target_name(s, k) {
            Some(n) => Some(n),
            None => if e.0 == k {
                Some(e.1)
            } else {
                None
            },
        }),
    decreases s.len(),
{
    if s.len() > 0 {
        assert(s.push(e).drop_first() =~= s.drop_first().push(e));
        assert(s.push(e)[0] == s[0]);
        lemma_target_name_push(s.drop_first(), e, k);
    } else {
        assert(s.push(e).drop_first() =~= s);
        assert(s.push(e)[0] == e);
    }
}

/// The operand names of bank `b`: each address gets the name of the one
/// ROM position it stands for (see `remap_name`).
pub fn bank_names(targets: &Vec<(u64, String)>, starts: &Vec<u16>, b: u8) -> (r: Vec<(u16, String)>)
    requires
        starts@.len() <= 256,
    ensures
        forall|a: u16| #[trigger] name_of(names_view(r@), a) == remap_name(targets_view(targets@), starts@, b, a),
{
    let ghost tv = targets_view(targets@);
    let mut out: Vec<(u16, String)> = Vec::new();
    let mut j: usize = 0;
    assert forall|a: u16| #[trigger] name_of(names_view(out@), a) == remap_name(tv.take(0), starts@, b, a) by {
        let v = remap_spec(a, b, starts@);
        if v.len() == 1 {
            assert(tv.take(0).len() == 0);
        }
    }
    while j < targets.len()
        invariant
            j <= targets@.len(),
            starts@.len() <= 256,
            tv == targets_view(targets@),
            forall|a: u16| #[trigger] name_of(names_view(out@), a) == remap_name(tv.take(j as int), starts@, b, a),
        decreases targets@.len() - j,
    {
        let x = targets[j].0;
        let bx = x / BANK_SIZE;
        let off = x % BANK_SIZE;
        let ghost prev = out@;
        let ghost e = tv[j as int];
        assert(tv.take(j + 1) =~= tv.take(j as int).push(e));
        assert(e.0 == x);
        let mut pushed: Option<u16> = None;
        if bx < starts.len() as u64 && (starts[bx as usize] as u64) + off < 0xffff {
            let a: u16 = starts[bx as usize] + off as u16;
            match remap_address(a, b, starts) {
                Some(v) => {
                    if v.len() == 1 && v[0] == x {
                        out.push((a, targets[j].1.clone()));
                        pushed = Some(a);
                    }
                },
                None => {},
            }
        }
        proof {
            assert forall|a2: u16| #[trigger] name_of(names_view(out@), a2) == remap_name(tv.take(j + 1), starts@, b, a2) by {
                let v2 = remap_spec(a2, b, starts@);
                lemma_target_name_push(tv.take(j as int), e, if v2.len() == 1 { v2[0] } else { x });
                match pushed {
                    Some(a) => {
                        assert(names_view(out@) =~= names_view(prev).push((a, e.1)));
                        lemma_name_of_push(names_view(prev), (a, e.1), a2);
                        if a2 == a {
                            assert(v2.len() == 1 && v2[0] == x);
                        } else if v2.len() == 1 && v2[0] == x {
                            lemma_remap_member(a2, b, starts@, 0);
                            vstd::arithmetic::div_mod::lemma_fundamental_div_mod(x as int, BANK_SIZE as int);
                        }
                    },
                    None => {
                        assert(out@ == prev);
                        if v2.len() == 1 && v2[0] == x {
                            lemma_remap_member(a2, b, starts@, 0);
                            vstd::arithmetic::div_mod::lemma_fundamental_div_mod(x as int, BANK_SIZE as int);
                        }
                    },
                }
            }
        }
        j = j + 1;
    }
    assert(tv.take(targets@.len() as int) =~= tv);
    out
}

/// A number in decimal, padded with zeros to three digits.
pub open spec fn pad3(n: nat) -> Seq<char> {
    if n < 10 {
        "00"@ + dec_text(n)
    } else if n < 100 {
        "0"@ + dec_text(n)
    } else {
        dec_text(n)
    }
}

/// The name of the source file of bank `b`.
pub open spec fn bank_file(b: nat) -> Seq<char> {
    "bank"@ + pad3(b) + ".s"@
}

/// The name of the source file of bank `b` (see `bank_file`).
pub fn bank_file_name(b: u64) -> (r: String)
    ensures
        r@ == bank_file(b as nat),
{
    let mut out = String::new();
    out.append("bank");
    if b < 10 {
        out.append("00");
    } else if b < 100 {
        out.append("0");
    }
    push_dec(&mut out, b);
    out.append(".s");
    proof {
        if b < 10 {
            assert(out@ =~= "bank"@ + ("00"@ + dec_text(b as nat)) + ".s"@);
        } else if b < 100 {
            assert(out@ =~= "bank"@ + ("0"@ + dec_text(b as nat)) + ".s"@);
        } else {
            assert(out@ =~= "bank"@ + dec_text(b as nat) + ".s"@);
        }
    }
    out
}

/// The bank size lines of the first `k` banks.
pub open spec fn bank_size_lines(k: nat) -> Seq<char>
    decreases k,
{
    if k == 0 {
        Seq::empty()
    } else {
        bank_size_lines((k - 1) as nat) + "BANKSIZE  $4000\nBANKS 1\n\n"@
    }
}

/// The slot lines of the first `k` banks.
pub open spec fn slot_lines(syms: WlaSym, k: nat) -> Seq<char>
    decreases k,
{
    if k == 0 {
        Seq::empty()
    } else {
        let b = (k - 1) as nat;
        slot_lines(syms, b) + "SLOT "@ + dec_text(b) + " $"@ + hex4(slot_of(syms, (b % 256) as u8)) + " size $4000 \n"@
    }
}

/// The include lines of the first `k` banks.
pub open spec fn include_lines(k: nat) -> Seq<char>
    decreases k,
{
    if k == 0 {
        Seq::empty()
    } else {
        include_lines((k - 1) as nat) + ".include \""@ + bank_file((k - 1) as nat) + "\"\n"@
    }
}

/// The main source file of a ROM of `n` banks: its bank map, its memory
/// map from the symbol files, and the inclusion of each bank's file.
pub open spec fn header_text(syms: WlaSym, n: nat) -> Seq<char> {
    ".ROMBANKMAP\nBANKSTOTAL "@ + dec_text(n) + "\n"@ + bank_size_lines(n) + ".ENDRO\n"@
        + ".MEMORYMAP\nDEFAULTSLOT 0\n"@ + slot_lines(syms, n) + ".ENDME\n"@ + include_lines(n)
}

/// The main source file of a ROM of `n` banks (see `header_text`).
pub fn header_source(syms: &WlaSym, n: u64) -> (r: String)
    ensures
        r@ == header_text(*syms, n as nat),
{
    let mut out = String::new();
    out.append(".ROMBANKMAP\nBANKSTOTAL ");
    push_dec(&mut out, n);
    out.append("\n");
    let ghost p1 = out@;
    let mut b: u64 = 0;
    while b < n
        invariant
            b <= n,
            out@ == p1 + bank_size_lines(b as nat),
        decreases n - b,
    {
        let ghost before = out@;
        out.append("BANKSIZE  $4000\nBANKS 1\n\n");
        assert(out@ =~= p1 + bank_size_lines((b + 1) as nat));
        b = b + 1;
    }
    out.append(".ENDRO\n");
    out.append(".MEMORYMAP\nDEFAULTSLOT 0\n");
    let ghost p2 = out@;
    let mut b: u64 = 0;
    while b < n
        invariant
            b <= n,
            out@ == p2 + slot_lines(*syms, b as nat),
        decreases n - b,
    {
        out.append("SLOT ");
        push_dec(&mut out, b);
        out.append(" $");
        push_hex4(&mut out, syms.mem_map((b % 256) as u8));
        out.append(" size $4000 \n");
        assert(out@ =~= p2 + slot_lines(*syms, (b + 1) as nat));
        b = b + 1;
    }
    out.append(".ENDME\n");
    let ghost p3 = out@;
    let mut b: u64 = 0;
    while b < n
        invariant
            b <= n,
            out@ == p3 + include_lines(b as nat),
        decreases n - b,
    {
        out.append(".include \"");
        let f = bank_file_name(b);
        out.append(f.as_str());
        out.append("\"\n");
        assert(out@ =~= p3 + include_lines((b + 1) as nat));
        b = b + 1;
    }
    assert(out@ =~= header_text(*syms, n as nat));
    out
}

/// The source files of the first `k` banks, each after a space.
pub open spec fn source_list(k: nat) -> Seq<char>
    decreases k,
{
    if k == 0 {
        Seq::empty()
    } else {
        source_list((k - 1) as nat) + " "@ + bank_file((k - 1) as nat)
    }
}

/// The makefile that assembles and links the sources of `n` banks.
pub open spec fn makefile_text(n: nat) -> Seq<char> {
    "rom.gb : rom.link rom.o\n\twlalink $< $@\n"@ + "rom.o : header.s"@ + source_list(n) + "\n\twla-gb -o $@ $<\n"@
}

/// The makefile for `n` banks (see `makefile_text`).
pub fn makefile_source(n: u64) -> (r: String)
    ensures
        r@ == makefile_text(n as nat),
{
    let mut out = String::new();
    out.append("rom.gb : rom.link rom.o\n\twlalink $< $@\n");
    out.append("rom.o : header.s");
    let ghost p = out@;
    let mut b: u64 = 0;
    while b < n
        invariant
            b <= n,
            out@ == p + source_list(b as nat),
        decreases n - b,
    {
        out.append(" ");
        let f = bank_file_name(b);
        out.append(f.as_str());
        assert(out@ =~= p + source_list((b + 1) as nat));
        b = b + 1;
    }
    out.append("\n\twla-gb -o $@ $<\n");
    assert(out@ =~= makefile_text(n as nat));
    out
}

/// The linker file: one object.
pub fn link_source() -> (r: String)
    ensures
        r@ == "[objects]\nrom.o\n"@,
{
    let mut out = String::new();
    out.append("[objects]\nrom.o\n");
    out
}

} // verus!
