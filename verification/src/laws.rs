//! Properties of the machine that span several operations, stated over the
//! same models the operations' contracts use.
use crate::cpu::{
    daa_high, daa_value, dec16, exec_reg, executed, inc16, low, operand_ok, plain_effect, store16, store8,
    store_ok, CPU,
};
use crate::mmu::{
    is_plain, is_wram, lemma_wram_index_bounds, wram_index, MMUInternal, MMU, SVBK_ADDR,
};
use crate::instr::{spec_cb_prefix, spec_decode, Instr};
use crate::hdma::{next_taken, Copier};
use crate::names::{lemma_uniquify_distinct, names_of, unique_named, uniquify};
use crate::registers::{Flag, Reg16, Reg8, Registers};
use vstd::prelude::*;

verus! {

/// A byte holding two decimal digits, one per nibble.
pub open spec fn is_bcd(x: u8) -> bool {
    x % 16 <= 9 && x / 16 <= 9
}

/// The number (0..=99) a binary-coded decimal byte stands for.
pub open spec fn from_bcd(x: u8) -> int {
    (x / 16) * 10 + x % 16
}

/// The binary-coded decimal byte for a number below 100.
pub open spec fn to_bcd(n: int) -> u8 {
    ((n / 10) * 16 + n % 10) as u8
}

/// The decimal adjust after adding two BCD bytes, on plain numbers.
pub open spec fn bcd_add_ok(a: u8, b: u8) -> bool {
    let s = a + b;
    let a1 = s % 256;
    let lo = a % 16 + b % 16 >= 16 || a1 % 16 > 9;
    let hi = s > 255 || a1 > 0x99;
    &&& (a1 + (if lo { 6int } else { 0 }) + (if hi { 0x60int } else { 0 })) % 256 == to_bcd(
        (from_bcd(a) + from_bcd(b)) % 100)
    &&& hi == (from_bcd(a) + from_bcd(b) >= 100)
}

/// The decimal adjust after a BCD addition, digit sums `h` (high digits)
/// and `l` (low digits) at a time.
proof fn lemma_bcd_add_digits(h: u16, l: u16)
    by (bit_vector)
    requires
        h <= 18,
        l <= 18,
    ensures
        ((16 * h + l) % 256 + (if l >= 16 || ((16 * h + l) % 256) % 16 > 9 {
            6u16
        } else {
            0u16
        }) + (if 16 * h + l > 255 || (16 * h + l) % 256 > 153 {
            96u16
        } else {
            0u16
        })) % 256 == ((10 * h + l) % 100 / 10) * 16 + (10 * h + l) % 100 % 10,
        (16 * h + l > 255 || (16 * h + l) % 256 > 153) == (10 * h + l >= 100),
{
}

proof fn lemma_bcd_add_arith(a: u8, b: u8)
    requires
        is_bcd(a),
        is_bcd(b),
    ensures
        bcd_add_ok(a, b),
{
    let h = (a / 16 + b / 16) as u16;
    let l = (a % 16 + b % 16) as u16;
    assert(a == 16 * (a / 16) + a % 16);
    assert(b == 16 * (b / 16) + b % 16);
    lemma_bcd_add_digits(h, l);
    assert(a + b == 16 * h + l);
    assert(from_bcd(a) + from_bcd(b) == 10 * h + l);
}

/// The decimal adjust after a BCD subtraction, one digit at a time.
proof fn lemma_bcd_sub_digits(ah: u16, al: u16, bh: u16, bl: u16)
    by (bit_vector)
    requires
        ah <= 9,
        al <= 9,
        bh <= 9,
        bl <= 9,
    ensures
        ((((16 * ah + al) + 256 - (16 * bh + bl)) % 256) + 256 - ((if al < bl {
            6u16
        } else {
            0u16
        }) + (if 16 * ah + al < 16 * bh + bl {
            96u16
        } else {
            0u16
        }))) % 256 == (((10 * ah + al) + 100 - (10 * bh + bl)) % 100 / 10) * 16 + ((10 * ah + al)
            + 100 - (10 * bh + bl)) % 100 % 10,
        (16 * ah + al < 16 * bh + bl) == (10 * ah + al < 10 * bh + bl),
{
}

/// How F's bits move through merging an ALU result and setting or
/// clearing single flags (each write keeping only the high nibble).
proof fn lemma_flag_moves()
    by (bit_vector)
    ensures
        forall|g: u8, f: u8|
            #![trigger ((g & 0xf0) | (f & !0xf0u8)) & 0xf0]
            (f & 0x0f == 0 && g & 0x0f == 0) ==> ((g & 0xf0) | (f & !0xf0u8)) & 0xf0 == g,
        forall|x: u8| #[trigger] (((x | 0x10) & 0xf0) & 0x10) != 0,
        forall|x: u8| #[trigger] (((x & !0x10u8) & 0xf0) & 0x10) == 0,
        forall|x: u8| #[trigger] (((x | 0x80) & 0xf0) & 0x10) == x & 0x10,
        forall|x: u8| #[trigger] (((x & !0x80u8) & 0xf0) & 0x10) == x & 0x10,
        forall|x: u8| #[trigger] (((x & !0x20u8) & 0xf0) & 0x10) == x & 0x10,
{
}

/// The register file after an 8-bit ALU operation on A with flags `fb`:
/// A holds the value and F exactly the flags.
proof fn lemma_alu_a_result(r: Registers, v: (u8, u8))
    requires
        r.wf(),
        v.1 & 0x0f == 0,
    ensures
        crate::cpu::res8(r, Reg8::A, v, 0xf0).r8(Reg8::A) == v.0,
        crate::cpu::res8(r, Reg8::A, v, 0xf0).r8(Reg8::F) == v.1,
        crate::cpu::res8(r, Reg8::A, v, 0xf0).wf(),
{
    let r1 = r.with8(Reg8::A, v.0);
    let f = r1.r8(Reg8::F);
    let g = (v.1 & 0xf0) | (f & !0xf0u8);
    r.lemma_frame(Reg8::A, v.0, Reg16::SP, 0, Reg8::F, Reg16::SP);
    r.lemma_wf_kept(Reg8::A, v.0, Reg16::SP, 0, 0);
    r1.lemma_frame(Reg8::F, g, Reg16::SP, 0, Reg8::A, Reg16::SP);
    r1.lemma_wf_kept(Reg8::F, g, Reg16::SP, 0, 0);
    r.lemma_wf_f();
    lemma_flag_moves();
    assert(((v.1 & 0xf0) | (f & !0xf0u8)) & 0xf0 == v.1);
}

/// After DAA, A holds the adjusted value and C says whether the high digit
/// was corrected.
proof fn lemma_daa_result(r: Registers)
    requires
        r.wf(),
    ensures
        crate::cpu::daa(r).r8(Reg8::A) == daa_value(r),
        crate::cpu::daa(r).flag(Flag::C) == daa_high(r),
{
    let hi = daa_high(r);
    let v = daa_value(r);
    let f0 = r.r8(Reg8::F);
    let r1 = crate::cpu::with_flag(r, 0x10, hi);
    let r2 = crate::cpu::with_flag(r1, 0x80, v == 0);
    let r3 = crate::cpu::with_flag(r2, 0x20, false);
    lemma_flag_moves();
    r.lemma_frame(Reg8::F, f0 | 0x10, Reg16::SP, 0, Reg8::F, Reg16::SP);
    r.lemma_frame(Reg8::F, f0 & !0x10u8, Reg16::SP, 0, Reg8::F, Reg16::SP);
    let f1 = r1.r8(Reg8::F);
    assert((f1 & 0x10 != 0) == hi);
    r1.lemma_frame(Reg8::F, f1 | 0x80, Reg16::SP, 0, Reg8::F, Reg16::SP);
    r1.lemma_frame(Reg8::F, f1 & !0x80u8, Reg16::SP, 0, Reg8::F, Reg16::SP);
    let f2 = r2.r8(Reg8::F);
    assert(f2 & 0x10 == f1 & 0x10);
    r2.lemma_frame(Reg8::F, f2 & !0x20u8, Reg16::SP, 0, Reg8::F, Reg16::SP);
    let f3 = r3.r8(Reg8::F);
    assert(f3 & 0x10 == f2 & 0x10);
    r3.lemma_frame(Reg8::A, v, Reg16::SP, 0, Reg8::F, Reg16::SP);
}

/// The adjust DAA computes after a BCD addition, from A and the flags the
/// addition left.
proof fn lemma_daa_after_add_value(r1: Registers, a: u8, b: u8)
    requires
        is_bcd(a),
        is_bcd(b),
        r1.r8(Reg8::A) == (a + b) % 256,
        !r1.flag(Flag::N),
        r1.flag(Flag::H) == (a % 16 + b % 16 >= 16),
        r1.flag(Flag::C) == (a + b > 255),
    ensures
        daa_value(r1) == to_bcd((from_bcd(a) + from_bcd(b)) % 100),
        daa_high(r1) == (from_bcd(a) + from_bcd(b) >= 100),
{
    lemma_bcd_add_arith(a, b);
    let a1 = r1.r8(Reg8::A);
    let lo = r1.flag(Flag::H) || a1 % 16 > 9;
    let hi = daa_high(r1);
    let x = a1 + (if lo { 6int } else { 0 }) + (if hi { 0x60int } else { 0 });
    assert(0 <= x < 512);
    vstd::arithmetic::div_mod::lemma_mod_add_multiples_vanish(x, 256);
    assert((x + 256) % 256 == x % 256);
    assert(daa_value(r1) == (x % 256) as u8);
}

/// Adding two BCD bytes and then adjusting with DAA leaves their decimal sum
/// (modulo 100) in A, as BCD, and sets C exactly when the sum reaches 100.
pub proof fn law_daa_after_add(r: Registers, b: u8, m1: u16, m2: u16)
    requires
        r.wf(),
        is_bcd(r.r8(Reg8::A)),
        is_bcd(b),
    ensures
        ({
            let r2 = exec_reg(exec_reg(r, Instr::ADD_r8_d8(Reg8::A, b), m1), Instr::DAA, m2);
            let n = from_bcd(r.r8(Reg8::A)) + from_bcd(b);
            &&& r2.r8(Reg8::A) == to_bcd(n % 100)
            &&& r2.flag(Flag::C) == (n >= 100)
        }),
{
    let a = r.r8(Reg8::A);
    let v = crate::cpu::alu_add8(a, b);
    let r1 = crate::cpu::res8(r, Reg8::A, v, 0xf0);
    assert(exec_reg(r, Instr::ADD_r8_d8(Reg8::A, b), m1) == r1);
    assert(exec_reg(r1, Instr::DAA, m2) == crate::cpu::daa(r1));
    crate::alu::lemma_flag_bits_decode((a + b) % 256 == 0, false, a % 16 + b % 16 >= 16, a + b > 255);
    lemma_alu_a_result(r, v);
    lemma_daa_result(r1);
    lemma_daa_after_add_value(r1, a, b);
}

/// Subtracting a BCD byte from another and then adjusting with DAA leaves
/// their decimal difference (modulo 100) in A, as BCD, and sets C exactly
/// when a borrow out of the high digit occurred.
pub proof fn law_daa_after_sub(r: Registers, b: u8, m1: u16, m2: u16)
    requires
        r.wf(),
        is_bcd(r.r8(Reg8::A)),
        is_bcd(b),
    ensures
        ({
            let r2 = exec_reg(exec_reg(r, Instr::SUB_d8(b), m1), Instr::DAA, m2);
            let x = from_bcd(r.r8(Reg8::A));
            let y = from_bcd(b);
            &&& r2.r8(Reg8::A) == to_bcd((x + 100 - y) % 100)
            &&& r2.flag(Flag::C) == (x < y)
        }),
{
    let a = r.r8(Reg8::A);
    let v = crate::cpu::alu_sub8(a, b);
    crate::alu::lemma_flag_bits_decode((a - b + 256) % 256 == 0, true, a % 16 < b % 16, a < b);
    lemma_alu_a_result(r, v);
    let r1 = crate::cpu::res8(r, Reg8::A, v, 0xf0);
    assert(exec_reg(r, Instr::SUB_d8(b), m1) == r1);
    lemma_daa_result(r1);
    let ah = (a / 16) as u16;
    let al = (a % 16) as u16;
    let bh = (b / 16) as u16;
    let bl = (b % 16) as u16;
    assert(a == 16 * ah + al);
    assert(b == 16 * bh + bl);
    lemma_bcd_sub_digits(ah, al, bh, bl);
}

/// Two plain addresses that reach the same byte of memory (work RAM and its
/// echo alias; SVBK picks the bank at 0xD000).
pub open spec fn same_cell(a: u16, b: u16, svbk: u8) -> bool {
    a == b || (is_wram(a) && is_wram(b) && wram_index(a, svbk) == wram_index(b, svbk))
}

/// A byte written to plain memory (work RAM and its echo, high RAM, the area
/// after OAM, IE) is what a later read of that address returns, however much
/// time the devices spent in between (they never touch plain memory).
pub proof fn law_plain_read_after_write(
    b0: MMUInternal,
    b1: MMUInternal,
    b2: MMUInternal,
    addr: u16,
    v: u8,
)
    requires
        b0.wf(),
        is_plain(addr),
        b1.plain_written(&b0, addr, v),
        b2.same_plain(&b1),
        b2.spec_svbk() == b1.spec_svbk(),
    ensures
        b2.spec_peek(addr) == v,
{
    b0.lemma_wf_sizes();
    b2.lemma_peek_plain(addr);
    if is_wram(addr) {
        lemma_wram_index_bounds(addr, b0.spec_svbk());
    }
}

/// A write to plain memory leaves every other plain byte as it was.
pub proof fn law_plain_write_elsewhere(b0: MMUInternal, b1: MMUInternal, addr: u16, v: u8, other: u16)
    requires
        b0.wf(),
        addr != SVBK_ADDR,
        is_plain(other),
        !same_cell(addr, other, b0.spec_svbk()),
        b1.plain_written(&b0, addr, v),
    ensures
        b1.spec_peek(other) == b0.spec_peek(other),
{
    b0.lemma_wf_sizes();
    b0.lemma_peek_plain(other);
    b1.lemma_peek_plain(other);
    if is_wram(addr) {
        lemma_wram_index_bounds(addr, b0.spec_svbk());
    }
    if is_wram(other) {
        lemma_wram_index_bounds(other, b0.spec_svbk());
    }
}

/// An instruction that stores nothing leaves plain memory and SVBK as they
/// were.
pub proof fn law_no_store_frame(c0: CPU, c1: CPU, m0: MMU, m1: MMU, pc: u16, i: Instr)
    requires
        executed(c0, c1, m0, m1, pc, i),
        forall|m: u16| #[trigger] store8(c0.spec_reg(), i, m) is None,
        store16(c0.spec_reg(), i) is None,
    ensures
        m1.spec_bus().same_plain(&m0.spec_bus()),
        m1.spec_bus().spec_svbk() == m0.spec_bus().spec_svbk(),
{
    let m = choose|m: u16|
        operand_ok(m0.spec_bus(), c0.spec_reg(), i, m) && crate::cpu::read_seen(m0, c0.spec_reg(), i, m)
            && c1.spec_reg() == exec_reg(c0.spec_reg(), i, m) && store_ok(m1.spec_bus(), c0.spec_reg(), i, m)
            && plain_effect(m0.spec_bus(), m1.spec_bus(), c0.spec_reg(), i, m)
            && crate::cpu::device_effect(m0.spec_bus(), m1.spec_bus(), c0.spec_reg(), i, m);
    assert(store8(c0.spec_reg(), i, m) is None);
}

/// A byte store leaves every plain byte but the one it writes (and the
/// echo of that one) as it was.
pub proof fn law_store_frame(c0: CPU, c1: CPU, m0: MMU, m1: MMU, pc: u16, i: Instr, a: u16, w: u8, other: u16)
    requires
        m0.wf(),
        executed(c0, c1, m0, m1, pc, i),
        forall|m: u16| #[trigger] store8(c0.spec_reg(), i, m) == Some((a, w)),
        a != SVBK_ADDR,
        is_plain(other),
        !same_cell(a, other, m0.spec_bus().spec_svbk()),
    ensures
        m1.spec_bus().spec_peek(other) == m0.spec_bus().spec_peek(other),
{
    let m = choose|m: u16|
        operand_ok(m0.spec_bus(), c0.spec_reg(), i, m) && crate::cpu::read_seen(m0, c0.spec_reg(), i, m)
            && c1.spec_reg() == exec_reg(c0.spec_reg(), i, m) && store_ok(m1.spec_bus(), c0.spec_reg(), i, m)
            && plain_effect(m0.spec_bus(), m1.spec_bus(), c0.spec_reg(), i, m)
            && crate::cpu::device_effect(m0.spec_bus(), m1.spec_bus(), c0.spec_reg(), i, m);
    assert(store8(c0.spec_reg(), i, m) == Some((a, w)));
    law_plain_write_elsewhere(m0.spec_bus(), m1.spec_bus(), a, w, other);
}

/// Echo RAM: 0xE000..=0xEFFF mirrors 0xC000..=0xCFFF, and 0xF000..=0xFDFF
/// mirrors 0xD000..=0xDDFF while bank 1 is the one mapped there.
pub proof fn law_echo_mirror(b: MMUInternal, addr: u16)
    requires
        0xe000 <= addr <= 0xfdff,
        addr <= 0xefff || b.spec_svbk() & 7 <= 1,
    ensures
        b.spec_peek(addr) == b.spec_peek((addr - 0x2000) as u16),
{
    b.lemma_peek_plain(addr);
    b.lemma_peek_plain((addr - 0x2000) as u16);
}

/// What a PUSH does: SP moves down two bytes, and the pair lands there.
#[verifier::spinoff_prover]
#[verifier::rlimit(40)]
proof fn lemma_push_effect(c0: CPU, c1: CPU, m0: MMU, m1: MMU, pc0: u16, x: Reg16)
    requires
        executed(c0, c1, m0, m1, pc0, Instr::PUSH_r16(x)),
        is_plain(dec16(dec16(c0.spec_reg().r16(Reg16::SP)))),
        is_plain(dec16(c0.spec_reg().r16(Reg16::SP))),
    ensures
        ({
            let r0 = c0.spec_reg();
            let below = dec16(dec16(r0.r16(Reg16::SP)));
            &&& c1.spec_reg() == r0.with16(Reg16::SP, below)
            &&& m1.spec_bus().plain_at(below) == low(r0.r16(x))
            &&& m1.spec_bus().plain_at(inc16(below)) == r0.r16(x) / 256
        }),
{
    let r0 = c0.spec_reg();
    let push = Instr::PUSH_r16(x);
    let ma = choose|m: u16|
        operand_ok(m0.spec_bus(), r0, push, m) && c1.spec_reg() == exec_reg(r0, push, m)
            && store_ok(m1.spec_bus(), r0, push, m);
    assert(inc16(dec16(dec16(r0.r16(Reg16::SP)))) == dec16(r0.r16(Reg16::SP)));
}

/// What a POP does: the pair takes the two bytes at SP, and SP moves up.
#[verifier::spinoff_prover]
proof fn lemma_pop_effect(c1: CPU, c2: CPU, m1: MMU, m2: MMU, pc1: u16, y: Reg16)
    requires
        executed(c1, c2, m1, m2, pc1, Instr::POP_r16(y)),
        is_plain(c1.spec_reg().r16(Reg16::SP)),
        is_plain(inc16(c1.spec_reg().r16(Reg16::SP))),
    ensures
        ({
            let sp = c1.spec_reg().r16(Reg16::SP);
            let bus = m1.spec_bus();
            c2.spec_reg() == crate::cpu::popped(
                c1.spec_reg(),
                y,
                (bus.plain_at(sp) + 256 * bus.plain_at(inc16(sp))) as u16,
            )
        }),
{
    let r1 = c1.spec_reg();
    let pop = Instr::POP_r16(y);
    let mb = choose|m: u16|
        operand_ok(m1.spec_bus(), r1, pop, m) && c2.spec_reg() == exec_reg(r1, pop, m)
            && store_ok(m2.spec_bus(), r1, pop, m);
}

/// A PUSH followed by a POP moves the pushed register pair into the popped
/// one (AF keeps only the flag bits of its low byte) and leaves SP where it
/// was, when both stack bytes are plain memory.
#[verifier::spinoff_prover]
#[verifier::rlimit(80)]
pub proof fn law_push_pop(
    c0: CPU,
    c1: CPU,
    c2: CPU,
    m0: MMU,
    m1: MMU,
    m2: MMU,
    pc0: u16,
    pc1: u16,
    x: Reg16,
    y: Reg16,
)
    requires
        executed(c0, c1, m0, m1, pc0, Instr::PUSH_r16(x)),
        executed(c1, c2, m1, m2, pc1, Instr::POP_r16(y)),
        y != Reg16::SP,
        is_plain(dec16(dec16(c0.spec_reg().r16(Reg16::SP)))),
        is_plain(dec16(c0.spec_reg().r16(Reg16::SP))),
    ensures
        c2.spec_reg().r16(Reg16::SP) == c0.spec_reg().r16(Reg16::SP),
        y != Reg16::AF ==> c2.spec_reg().r16(y) == c0.spec_reg().r16(x),
        y == Reg16::AF ==> c2.spec_reg().r16(y) == ({
            let w = c0.spec_reg().r16(x);
            w - w % 256 + (((w % 256) as u8) & 0xf0u8)
        }),
{
    let r0 = c0.spec_reg();
    let sp0 = r0.r16(Reg16::SP);
    let below = dec16(dec16(sp0));
    let w = r0.r16(x);
    lemma_push_effect(c0, c1, m0, m1, pc0, x);
    let r1 = c1.spec_reg();
    r0.lemma_frame(Reg8::A, 0, Reg16::SP, below, Reg8::A, Reg16::SP);
    assert(r1.r16(Reg16::SP) == below);
    assert(inc16(below) == dec16(sp0));
    lemma_pop_effect(c1, c2, m1, m2, pc1, y);
    assert(low(w) + 256 * (w / 256) == w);
    let r1y = r1.with16(y, w);
    r1.lemma_frame(Reg8::A, 0, y, w, Reg8::A, Reg16::SP);
    assert(r1y.r16(Reg16::SP) == below);
    assert(inc16(inc16(below)) == sp0);
    r1y.lemma_frame(Reg8::A, 0, Reg16::SP, sp0, Reg8::A, y);
    r1y.lemma_frame(Reg8::A, 0, Reg16::SP, sp0, Reg8::A, Reg16::SP);
}

/// Every label of the disassembly has a name of its own: once the names
/// are made unique, no two named positions share one.
pub proof fn law_label_names_distinct(named: Seq<(u64, String)>)
    ensures
        forall|i: int, j: int|
            0 <= i < j < named.len() ==> #[trigger] unique_named(named)[i].1 != #[trigger] unique_named(named)[j].1,
{
    let u = uniquify(names_of(named));
    lemma_uniquify_distinct(names_of(named));
    assert forall|i: int, j: int| 0 <= i < j < named.len() implies #[trigger] unique_named(named)[i].1
        != #[trigger] unique_named(named)[j].1 by {
        assert(unique_named(named)[i].1 == u[i]);
        assert(unique_named(named)[j].1 == u[j]);
    }
}

/// Opcodes followed by a two-byte operand.
pub open spec fn three_byte_op(b: u8) -> bool {
    b == 0x01 || b == 0x08 || b == 0x11 || b == 0x21 || b == 0x31 || b == 0xc2 || b == 0xc3 || b == 0xc4
        || b == 0xca || b == 0xcc || b == 0xcd || b == 0xd2 || b == 0xd4 || b == 0xda || b == 0xdc || b
        == 0xea || b == 0xfa
}

/// Opcodes followed by a one-byte operand (or, for 0xCB, the second byte of
/// a bit instruction).
pub open spec fn two_byte_op(b: u8) -> bool {
    b == 0x06 || b == 0x0e || b == 0x16 || b == 0x18 || b == 0x1e || b == 0x20 || b == 0x26 || b == 0x28
        || b == 0x2e || b == 0x30 || b == 0x36 || b == 0x38 || b == 0x3e || b == 0xc6 || b == 0xcb || b
        == 0xce || b == 0xd6 || b == 0xde || b == 0xe0 || b == 0xe6 || b == 0xe8 || b == 0xee || b == 0xf0
        || b == 0xf6 || b == 0xf8 || b == 0xfe
}

/// Opcodes the processor does not define.
pub open spec fn undefined_op(b: u8) -> bool {
    b == 0xd3 || b == 0xdb || b == 0xdd || b == 0xe3 || b == 0xe4 || b == 0xeb || b == 0xec || b == 0xed
        || b == 0xf4 || b == 0xfc || b == 0xfd
}

/// The first byte fixes an instruction's length: the decoder completes
/// after one byte, after two for the one-operand opcodes (0xCB then
/// naming a bit instruction), and after three for the two-operand ones;
/// an undefined opcode decodes at once as `INVALID`.
pub proof fn law_decode_length(b0: u8, b1: u8, b2: u8)
    ensures
        (spec_decode(seq![b0]) is Some) == !(two_byte_op(b0) || three_byte_op(b0)),
        two_byte_op(b0) ==> spec_decode(seq![b0, b1]) is Some,
        three_byte_op(b0) ==> spec_decode(seq![b0, b1]) is None && spec_decode(seq![b0, b1, b2]) is Some,
        undefined_op(b0) ==> spec_decode(seq![b0]) == Some(Instr::INVALID(b0)),
        b0 == 0xcb ==> spec_decode(seq![b0, b1]) == Some(spec_cb_prefix(b1)),
{
    assert(seq![b0].len() == 1 && seq![b0][0] == b0);
    assert(seq![b0, b1].len() == 2 && seq![b0, b1][0] == b0 && seq![b0, b1][1] == b1);
    assert(seq![b0, b1, b2].len() == 3 && seq![b0, b1, b2][0] == b0);
}

proof fn lemma_drain_from(cs: Seq<Copier>, rs: Seq<Option<(u16, u16)>>, l: nat, k: int)
    requires
        0 <= k <= l,
        cs.len() == l + 1,
        rs.len() == l,
        cs[k].spec_len() == l - k,
        forall|j: int| 0 <= j < l ==> #[trigger] next_taken(cs[j], cs[j + 1], rs[j]),
    ensures
        forall|j: int| k <= j < l ==> (#[trigger] rs[j]) is Some,
        cs[l as int].spec_len() == 0,
    decreases l - k,
{
    if k < l {
        assert(next_taken(cs[k], cs[k + 1], rs[k]));
        lemma_drain_from(cs, rs, l, k + 1);
    }
}

/// A copier made for `l` bytes hands out exactly `l` moves: each of `l`
/// successive `next` calls returns one, and the copier is empty after
/// them.
pub proof fn law_copier_drains(cs: Seq<Copier>, rs: Seq<Option<(u16, u16)>>, l: nat)
    requires
        cs.len() == l + 1,
        rs.len() == l,
        cs[0].spec_len() == l,
        forall|k: int| 0 <= k < l ==> #[trigger] next_taken(cs[k], cs[k + 1], rs[k]),
    ensures
        forall|k: int| 0 <= k < l ==> (#[trigger] rs[k]) is Some,
        cs[l as int].spec_len() == 0,
{
    lemma_drain_from(cs, rs, l, 0);
}

} // verus!
