//! The SM83 core: the effect of each instruction on the registers, on
//! memory and on the halt state, interrupt dispatch, and the
//! fetch-decode-execute step.
use crate::alu::{flag_bits, ALUOps, ALU};
use crate::cart::CGBStatus;
use crate::instr::{spec_decode, Addr, Disasm, Instr, RelAddr};
use crate::mmu::{is_plain, is_wram, wram_index, BIOS_OFF_ADDR, IE_ADDR, IF_ADDR, KEY1_ADDR, MMU};
use crate::registers::{Cond, Flag, Reg16, Reg8, RegType, Registers};
use vstd::prelude::*;

verus! {

pub open spec fn cbit(c: bool) -> int {
    if c {
        1
    } else {
        0
    }
}

/// 8-bit addition: result and flags (Z, H from bit 3, C from bit 7).
pub open spec fn alu_add8(a: u8, b: u8) -> (u8, u8) {
    (((a + b) % 256) as u8, flag_bits((a + b) % 256 == 0, false, a % 16 + b % 16 >= 16, a + b > 255))
}

/// 8-bit addition with carry in.
pub open spec fn alu_adc(a: u8, b: u8, c: bool) -> (u8, u8) {
    let s = a + b + cbit(c);
    ((s % 256) as u8, flag_bits(s % 256 == 0, false, a % 16 + b % 16 + cbit(c) >= 16, s > 255))
}

/// 8-bit subtraction: N set, H and C are borrows.
pub open spec fn alu_sub8(a: u8, b: u8) -> (u8, u8) {
    (((a - b + 256) % 256) as u8, flag_bits((a - b + 256) % 256 == 0, true, a % 16 < b % 16, a < b))
}

/// 8-bit subtraction with borrow in.
pub open spec fn alu_sbc(a: u8, b: u8, c: bool) -> (u8, u8) {
    let d = (a - b - cbit(c) + 512) % 256;
    (d as u8, flag_bits(d == 0, true, a % 16 < b % 16 + cbit(c), a < b + cbit(c)))
}

pub open spec fn alu_and(a: u8, b: u8) -> (u8, u8) {
    (a & b, flag_bits(a & b == 0, false, true, false))
}

pub open spec fn alu_or(a: u8, b: u8) -> (u8, u8) {
    (a | b, flag_bits(a | b == 0, false, false, false))
}

pub open spec fn alu_xor(a: u8, b: u8) -> (u8, u8) {
    (a ^ b, flag_bits(a ^ b == 0, false, false, false))
}

pub open spec fn alu_inc8(a: u8) -> (u8, u8) {
    (((a + 1) % 256) as u8, flag_bits((a + 1) % 256 == 0, false, a % 16 + 1 >= 16, false))
}

pub open spec fn alu_dec8(a: u8) -> (u8, u8) {
    (((a - 1 + 256) % 256) as u8, flag_bits((a - 1 + 256) % 256 == 0, true, a % 16 < 1, false))
}

/// 16-bit addition: H from bit 11, C from bit 15.
pub open spec fn alu_add16(a: u16, b: u16) -> (u16, u8) {
    (
        ((a + b) % 65536) as u16,
        flag_bits((a + b) % 65536 == 0, false, a % 4096 + b % 4096 >= 4096, a + b > 65535),
    )
}

pub open spec fn inc16(a: u16) -> u16 {
    ((a + 1) % 65536) as u16
}

pub open spec fn dec16(a: u16) -> u16 {
    ((a - 1 + 65536) % 65536) as u16
}

/// Rotate left; bit 0 takes the carry (through carry) or the old bit 7.
pub open spec fn alu_rl(a: u8, c: bool, thru: bool, with_zero: bool) -> (u8, u8) {
    let v = (a * 2) % 256 + (if thru { cbit(c) } else { a as int / 128 });
    (v as u8, flag_bits(with_zero && v == 0, false, false, a >= 128))
}

/// Rotate right; bit 7 takes the carry (through carry) or the old bit 0.
pub open spec fn alu_rr(a: u8, c: bool, thru: bool, with_zero: bool) -> (u8, u8) {
    let v = a / 2 + (if thru { 128 * cbit(c) } else { (a % 2) * 128 });
    (v as u8, flag_bits(with_zero && v == 0, false, false, a % 2 == 1))
}

pub open spec fn alu_sla(a: u8) -> (u8, u8) {
    (((a * 2) % 256) as u8, flag_bits((a * 2) % 256 == 0, false, false, a >= 128))
}

pub open spec fn alu_sr(a: u8, arith: bool) -> (u8, u8) {
    let v = a / 2 + (if arith { (a / 128) * 128 } else { 0int });
    (v as u8, flag_bits(v == 0, false, false, a % 2 == 1))
}

pub open spec fn alu_swap(a: u8) -> (u8, u8) {
    let v = (a % 16) * 16 + a / 16;
    (v as u8, flag_bits(v == 0, false, false, false))
}

/// The flags of testing bit `n` of `b`: Z when clear, H set.
pub open spec fn alu_bit_flags(n: u8, b: u8) -> u8 {
    flag_bits((1u8 << n) & b == 0, false, true, false)
}

/// A signed offset as the 16-bit value that adds it modulo 2^16.
pub open spec fn sext(x: i8) -> u16 {
    ((x + 65536) % 65536) as u16
}

pub open spec fn low(v: u16) -> u8 {
    (v % 256) as u8
}

/// Whether a branch condition holds.
pub open spec fn cond_holds(r: Registers, c: Cond) -> bool {
    match c {
        Cond::Z => r.flag(Flag::Z),
        Cond::NZ => !r.flag(Flag::Z),
        Cond::C => r.flag(Flag::C),
        Cond::NC => !r.flag(Flag::C),
    }
}

/// Stores an 8-bit result and merges the flags selected by `mask` into F.
pub open spec fn res8(r: Registers, dst: Reg8, v: (u8, u8), mask: u8) -> Registers {
    let r1 = r.with8(dst, v.0);
    r1.with8(Reg8::F, (v.1 & mask) | (r1.r8(Reg8::F) & !mask))
}

/// Stores a 16-bit result and merges the flags selected by `mask` into F.
pub open spec fn res16(r: Registers, dst: Reg16, v: (u16, u8), mask: u8) -> Registers {
    let r1 = r.with16(dst, v.0);
    r1.with8(Reg8::F, (v.1 & mask) | (r1.r8(Reg8::F) & !mask))
}

/// Merges the flags selected by `mask` into F.
pub open spec fn flags_only(r: Registers, f: u8, mask: u8) -> Registers {
    r.with8(Reg8::F, (f & mask) | (r.r8(Reg8::F) & !mask))
}

/// SP + offset with the flags of adding the offset to SP's low byte
/// (Z and N clear).
pub open spec fn sp_offset(base: u16, x: i8) -> (u16, u8) {
    (alu_add16(base, sext(x)).0, alu_add8(low(base), x as u8).1 & !0xc0u8)
}

/// F with one flag set or cleared.
pub open spec fn with_flag(r: Registers, f: u8, on: bool) -> Registers {
    if on {
        r.with8(Reg8::F, r.r8(Reg8::F) | f)
    } else {
        r.with8(Reg8::F, r.r8(Reg8::F) & !f)
    }
}

/// Whether decimal adjust corrects the high digit (and sets C).
pub open spec fn daa_high(r: Registers) -> bool {
    r.flag(Flag::C) || (!r.flag(Flag::N) && r.r8(Reg8::A) > 0x99)
}

/// The decimal adjust of A after a BCD addition (N clear) or subtraction
/// (N set): 6 for the low digit if H or a low digit above 9, 0x60 for the
/// high digit if C or a value above 0x99.
pub open spec fn daa_value(r: Registers) -> u8 {
    let a = r.r8(Reg8::A);
    let n = r.flag(Flag::N);
    let lo_adj = r.flag(Flag::H) || (!n && a % 16 > 9);
    let adjust = (if lo_adj { 6int } else { 0 }) + (if daa_high(r) { 0x60int } else { 0 });
    (((if n { a - adjust } else { a + adjust }) + 256) % 256) as u8
}

/// Decimal adjust: A corrected, C as decided, Z from the result, H clear.
pub open spec fn daa(r: Registers) -> Registers {
    let v = daa_value(r);
    with_flag(with_flag(with_flag(r, 0x10, daa_high(r)), 0x80, v == 0), 0x20, false).with8(Reg8::A, v)
}

/// The registers after a pop of `m` into `dst`.
pub open spec fn popped(r: Registers, dst: Reg16, m: u16) -> Registers {
    let r1 = r.with16(dst, m);
    r1.with16(Reg16::SP, inc16(inc16(r1.r16(Reg16::SP))))
}

/// The registers after pushing the return address and jumping.
pub open spec fn called(r: Registers, target: u16) -> Registers {
    r.with16(Reg16::SP, dec16(dec16(r.r16(Reg16::SP)))).with16(Reg16::PC, target)
}

/// The 8-bit ALU operations with A: their operand (immediate, register or
/// the byte `mb` read from memory) and their effect.
pub open spec fn alu8_result(r: Registers, i: Instr, mb: u8) -> Registers {
    let a = r.r8(Reg8::A);
    let cf = r.flag(Flag::C);
    match i {
        Instr::ADC_r8_d8(x) => res8(r, Reg8::A, alu_adc(a, x, cf), 0xf0),
        Instr::ADC_r8_ir16(_) => res8(r, Reg8::A, alu_adc(a, mb, cf), 0xf0),
        Instr::ADC_r8_r8(x) => res8(r, Reg8::A, alu_adc(a, r.r8(x), cf), 0xf0),
        Instr::ADD_r8_d8(x0, x1) => res8(r, x0, alu_add8(r.r8(x0), x1), 0xf0),
        Instr::ADD_r8_ir16(x0, _) => res8(r, x0, alu_add8(r.r8(x0), mb), 0xf0),
        Instr::ADD_r8_r8(x0, x1) => res8(r, x0, alu_add8(r.r8(x0), r.r8(x1)), 0xf0),
        Instr::AND_d8(x) => res8(r, Reg8::A, alu_and(a, x), 0xf0),
        Instr::AND_ir16(_) => res8(r, Reg8::A, alu_and(a, mb), 0xf0),
        Instr::AND_r8(x) => res8(r, Reg8::A, alu_and(a, r.r8(x)), 0xf0),
        Instr::CP_d8(x) => flags_only(r, alu_sub8(a, x).1, 0xf0),
        Instr::CP_ir16(_) => flags_only(r, alu_sub8(a, mb).1, 0xf0),
        Instr::CP_r8(x) => flags_only(r, alu_sub8(a, r.r8(x)).1, 0xf0),
        Instr::OR_d8(x) => res8(r, Reg8::A, alu_or(a, x), 0xf0),
        Instr::OR_ir16(_) => res8(r, Reg8::A, alu_or(a, mb), 0xf0),
        Instr::OR_r8(x) => res8(r, Reg8::A, alu_or(a, r.r8(x)), 0xf0),
        Instr::SBC_r8_d8(x) => res8(r, Reg8::A, alu_sbc(a, x, cf), 0xf0),
        Instr::SBC_r8_ir16(_) => res8(r, Reg8::A, alu_sbc(a, mb, cf), 0xf0),
        Instr::SBC_r8_r8(x) => res8(r, Reg8::A, alu_sbc(a, r.r8(x), cf), 0xf0),
        Instr::SUB_d8(x) => res8(r, Reg8::A, alu_sub8(a, x), 0xf0),
        Instr::SUB_ir16(_) => res8(r, Reg8::A, alu_sub8(a, mb), 0xf0),
        Instr::SUB_r8(x) => res8(r, Reg8::A, alu_sub8(a, r.r8(x)), 0xf0),
        Instr::XOR_d8(x) => res8(r, Reg8::A, alu_xor(a, x), 0xf0),
        Instr::XOR_ir16(_) => res8(r, Reg8::A, alu_xor(a, mb), 0xf0),
        Instr::XOR_r8(x) => res8(r, Reg8::A, alu_xor(a, r.r8(x)), 0xf0),
        _ => r,
    }
}

pub open spec fn is_alu8(i: Instr) -> bool {
    match i {
        Instr::ADC_r8_d8(_) | Instr::ADC_r8_ir16(_) | Instr::ADC_r8_r8(_) | Instr::ADD_r8_d8(_, _)
        | Instr::ADD_r8_ir16(_, _) | Instr::ADD_r8_r8(_, _) | Instr::AND_d8(_) | Instr::AND_ir16(_)
        | Instr::AND_r8(_) | Instr::CP_d8(_) | Instr::CP_ir16(_) | Instr::CP_r8(_) | Instr::OR_d8(_)
        | Instr::OR_ir16(_) | Instr::OR_r8(_) | Instr::SBC_r8_d8(_) | Instr::SBC_r8_ir16(_)
        | Instr::SBC_r8_r8(_) | Instr::SUB_d8(_) | Instr::SUB_ir16(_) | Instr::SUB_r8(_)
        | Instr::XOR_d8(_) | Instr::XOR_ir16(_) | Instr::XOR_r8(_) => true,
        _ => false,
    }
}

/// Bit tests, rotations, shifts and increments of a register or of the
/// byte `mb` read from memory (which only changes F here).
pub open spec fn bits_result(r: Registers, i: Instr, mb: u8) -> Registers {
    let a = r.r8(Reg8::A);
    let cf = r.flag(Flag::C);
    match i {
        Instr::BIT_l8_ir16(n, _) => flags_only(r, alu_bit_flags(n, mb), 0xe0),
        Instr::BIT_l8_r8(n, x) => flags_only(r, alu_bit_flags(n, r.r8(x)), 0xe0),
        Instr::DEC_ir16(_) => flags_only(r, alu_dec8(mb).1, 0xe0),
        Instr::DEC_r8(x) => res8(r, x, alu_dec8(r.r8(x)), 0xe0),
        Instr::INC_ir16(_) => flags_only(r, alu_inc8(mb).1, 0xe0),
        Instr::INC_r8(x) => res8(r, x, alu_inc8(r.r8(x)), 0xe0),
        Instr::RES_l8_r8(n, x) => r.with8(x, r.r8(x) & !(1u8 << n)),
        Instr::SET_l8_r8(n, x) => r.with8(x, r.r8(x) | (1u8 << n)),
        Instr::RLA => res8(r, Reg8::A, alu_rl(a, cf, true, false), 0xf0),
        Instr::RLCA => res8(r, Reg8::A, alu_rl(a, cf, false, false), 0xf0),
        Instr::RRA => res8(r, Reg8::A, alu_rr(a, cf, true, false), 0xf0),
        Instr::RRCA => res8(r, Reg8::A, alu_rr(a, cf, false, false), 0xf0),
        Instr::RLC_ir16(_) => flags_only(r, alu_rl(mb, cf, false, true).1, 0xf0),
        Instr::RLC_r8(x) => res8(r, x, alu_rl(r.r8(x), cf, false, true), 0xf0),
        Instr::RL_ir16(_) => flags_only(r, alu_rl(mb, cf, true, true).1, 0xf0),
        Instr::RL_r8(x) => res8(r, x, alu_rl(r.r8(x), cf, true, true), 0xf0),
        Instr::RRC_ir16(_) => flags_only(r, alu_rr(mb, cf, false, true).1, 0xf0),
        Instr::RRC_r8(x) => res8(r, x, alu_rr(r.r8(x), cf, false, true), 0xf0),
        Instr::RR_ir16(_) => flags_only(r, alu_rr(mb, cf, true, true).1, 0xf0),
        Instr::RR_r8(x) => res8(r, x, alu_rr(r.r8(x), cf, true, true), 0xf0),
        Instr::SLA_ir16(_) => flags_only(r, alu_sla(mb).1, 0xf0),
        Instr::SLA_r8(x) => res8(r, x, alu_sla(r.r8(x)), 0xf0),
        Instr::SRA_ir16(_) => flags_only(r, alu_sr(mb, true).1, 0xf0),
        Instr::SRA_r8(x) => res8(r, x, alu_sr(r.r8(x), true), 0xf0),
        Instr::SRL_ir16(_) => flags_only(r, alu_sr(mb, false).1, 0xf0),
        Instr::SRL_r8(x) => res8(r, x, alu_sr(r.r8(x), false), 0xf0),
        Instr::SWAP_ir16(_) => flags_only(r, alu_swap(mb).1, 0xf0),
        Instr::SWAP_r8(x) => res8(r, x, alu_swap(r.r8(x)), 0xf0),
        _ => r,
    }
}

pub open spec fn is_bits_op(i: Instr) -> bool {
    match i {
        Instr::BIT_l8_ir16(_, _) | Instr::BIT_l8_r8(_, _) | Instr::DEC_ir16(_) | Instr::DEC_r8(_)
        | Instr::INC_ir16(_) | Instr::INC_r8(_) | Instr::RES_l8_r8(_, _) | Instr::SET_l8_r8(_, _)
        | Instr::RLA | Instr::RLCA | Instr::RRA | Instr::RRCA | Instr::RLC_ir16(_) | Instr::RLC_r8(_)
        | Instr::RL_ir16(_) | Instr::RL_r8(_) | Instr::RRC_ir16(_) | Instr::RRC_r8(_)
        | Instr::RR_ir16(_) | Instr::RR_r8(_) | Instr::SLA_ir16(_) | Instr::SLA_r8(_)
        | Instr::SRA_ir16(_) | Instr::SRA_r8(_) | Instr::SRL_ir16(_) | Instr::SRL_r8(_)
        | Instr::SWAP_ir16(_) | Instr::SWAP_r8(_) => true,
        _ => false,
    }
}

/// Loads: registers take an immediate, another register, or the value `m`
/// read from memory; the (HL+)/(HL-) forms step HL.
pub open spec fn load_result(r: Registers, i: Instr, m: u16) -> Registers {
    let mb = low(m);
    match i {
        Instr::LDH_r8_ia8(x, _) => r.with8(x, mb),
        Instr::LD_iir16_r8(x, _) => r.with16(x, inc16(r.r16(x))),
        Instr::LD_dir16_r8(x, _) => r.with16(x, dec16(r.r16(x))),
        Instr::LD_r16_d16(x, v) => r.with16(x, v),
        Instr::LD_r16_r16(x0, x1) => r.with16(x0, r.r16(x1)),
        Instr::LD_r16_r16_r8(x0, x1, x2) => res16(r, x0, sp_offset(r.r16(x1), x2), 0xf0),
        Instr::LD_r8_d8(x, v) => r.with8(x, v),
        Instr::LD_r8_ia16(x, _) => r.with8(x, mb),
        Instr::LD_r8_ir16(x, _) => r.with8(x, mb),
        Instr::LD_r8_iir16(x0, x1) => {
            let r1 = r.with8(x0, mb);
            r1.with16(x1, inc16(r1.r16(x1)))
        },
        Instr::LD_r8_dir16(x0, x1) => {
            let r1 = r.with8(x0, mb);
            r1.with16(x1, dec16(r1.r16(x1)))
        },
        Instr::LD_r8_ir8(x, _) => r.with8(x, mb),
        Instr::LD_r8_r8(x0, x1) => r.with8(x0, r.r8(x1)),
        _ => r,
    }
}

/// Jumps, calls, returns, the stack, 16-bit arithmetic and the flag and
/// interrupt-enable instructions.
pub open spec fn control_result(r: Registers, i: Instr, m: u16) -> Registers {
    let a = r.r8(Reg8::A);
    let cf = r.flag(Flag::C);
    match i {
        Instr::ADD_r16_r16(x0, x1) => res16(r, x0, alu_add16(r.r16(x0), r.r16(x1)), 0x70),
        Instr::ADD_r16_r8(x0, x1) => res16(r, x0, sp_offset(r.r16(x0), x1), 0xf0),
        Instr::CALL_COND_a16(c, t) => if cond_holds(r, c) {
            called(r, t.0)
        } else {
            r
        },
        Instr::CALL_a16(t) => called(r, t.0),
        Instr::CCF => with_flag(with_flag(with_flag(r, 0x10, !cf), 0x40, false), 0x20, false),
        Instr::CPL => with_flag(with_flag(r.with8(Reg8::A, !a), 0x40, true), 0x20, true),
        Instr::DAA => daa(r),
        Instr::DEC_r16(x) => r.with16(x, dec16(r.r16(x))),
        Instr::DI => r.with_ime(0),
        Instr::EI => r.with_ime(1),
        Instr::INC_r16(x) => r.with16(x, inc16(r.r16(x))),
        Instr::JP_COND_a16(c, t) => if cond_holds(r, c) {
            r.with16(Reg16::PC, t.0)
        } else {
            r
        },
        Instr::JP_a16(t) => r.with16(Reg16::PC, t.0),
        Instr::JP_r16(x) => r.with16(Reg16::PC, r.r16(x)),
        Instr::JR_COND_r8(c, o) => if cond_holds(r, c) {
            r.with16(Reg16::PC, alu_add16(r.r16(Reg16::PC), sext(o.0)).0)
        } else {
            r
        },
        Instr::JR_r8(o) => r.with16(Reg16::PC, alu_add16(r.r16(Reg16::PC), sext(o.0)).0),
        Instr::POP_r16(x) => popped(r, x, m),
        Instr::PUSH_r16(_) => r.with16(Reg16::SP, dec16(dec16(r.r16(Reg16::SP)))),
        Instr::RET => popped(r, Reg16::PC, m),
        Instr::RETI => popped(r, Reg16::PC, m).with_ime(1),
        Instr::RET_COND(c) => if cond_holds(r, c) {
            popped(r, Reg16::PC, m)
        } else {
            r
        },
        Instr::RST_LIT(n) => called(r, n as u16),
        Instr::SCF => flags_only(r, 0x10, 0x70),
        _ => r,
    }
}

/// What an instruction does to the registers, given the 16-bit value `m`
/// that it reads from memory (the low byte for one-byte reads).
pub open spec fn exec_reg(r: Registers, i: Instr, m: u16) -> Registers {
    if is_alu8(i) {
        alu8_result(r, i, low(m))
    } else if is_bits_op(i) {
        bits_result(r, i, low(m))
    } else {
        match i {
            Instr::LDH_r8_ia8(_, _) | Instr::LD_iir16_r8(_, _) | Instr::LD_dir16_r8(_, _)
            | Instr::LD_r16_d16(_, _) | Instr::LD_r16_r16(_, _) | Instr::LD_r16_r16_r8(_, _, _)
            | Instr::LD_r8_d8(_, _) | Instr::LD_r8_ia16(_, _) | Instr::LD_r8_ir16(_, _)
            | Instr::LD_r8_iir16(_, _) | Instr::LD_r8_dir16(_, _) | Instr::LD_r8_ir8(_, _)
            | Instr::LD_r8_r8(_, _) => load_result(r, i, m),
            _ => control_result(r, i, m),
        }
    }
}

/// The address an instruction reads its one-byte memory operand from.
pub open spec fn read_addr(r: Registers, i: Instr) -> Option<u16> {
    match i {
        Instr::ADC_r8_ir16(x) | Instr::AND_ir16(x) | Instr::CP_ir16(x) | Instr::DEC_ir16(x)
        | Instr::INC_ir16(x) | Instr::OR_ir16(x) | Instr::SBC_r8_ir16(x) | Instr::SUB_ir16(x)
        | Instr::XOR_ir16(x) | Instr::RLC_ir16(x) | Instr::RL_ir16(x) | Instr::RRC_ir16(x)
        | Instr::RR_ir16(x) | Instr::SLA_ir16(x) | Instr::SRA_ir16(x) | Instr::SRL_ir16(x)
        | Instr::SWAP_ir16(x) => Some(r.r16(x)),
        Instr::ADD_r8_ir16(_, x) | Instr::BIT_l8_ir16(_, x) | Instr::RES_l8_ir16(_, x)
        | Instr::SET_l8_ir16(_, x) | Instr::LD_r8_ir16(_, x) | Instr::LD_r8_iir16(_, x)
        | Instr::LD_r8_dir16(_, x) => Some(r.r16(x)),
        Instr::LDH_r8_ia8(_, a) => Some((0xff00 + a) as u16),
        Instr::LD_r8_ia16(_, a) => Some(a.0),
        Instr::LD_r8_ir8(_, x) => Some((0xff00 + r.r8(x)) as u16),
        _ => None,
    }
}

/// Whether an instruction pops a 16-bit value off the stack.
pub open spec fn pops(r: Registers, i: Instr) -> bool {
    match i {
        Instr::POP_r16(_) | Instr::RET | Instr::RETI => true,
        Instr::RET_COND(c) => cond_holds(r, c),
        _ => false,
    }
}

/// What is known of the value an instruction reads: a byte, the one plain
/// memory holds where it reads plain memory; for a pop, the little-endian
/// pair plain memory holds at SP.
pub open spec fn operand_ok(bus: crate::mmu::MMUInternal, r: Registers, i: Instr, m: u16) -> bool {
    match read_addr(r, i) {
        Some(a) => m < 256 && (is_plain(a) ==> m == bus.plain_at(a)),
        None => pops(r, i) ==> {
            let sp = r.r16(Reg16::SP);
            is_plain(sp) && is_plain(inc16(sp)) ==> m == bus.plain_at(sp) + 256 * bus.plain_at(
                inc16(sp),
            )
        },
    }
}

/// The one-byte read at `a` gave `b`: there is a bus state one memory
/// cycle on from `m0` whose byte at `a` is `b` (see `read_step`).
pub open spec fn read_from(m0: MMU, a: u16, b: u8) -> bool {
    exists|mr: MMU| #[trigger] read_step(m0, mr, a, b)
}

/// A pop of `m` at `sp`: its low byte read at `sp`, then its high byte at
/// the next address, each as the bus shows it then.
pub open spec fn pop_from(m0: MMU, sp: u16, m: u16) -> bool {
    exists|mr: MMU| #[trigger] read_step(m0, mr, sp, low(m)) && read_from(mr, inc16(sp), (m / 256) as u8)
}

/// For an instruction with a one-byte memory operand, the operand is the
/// byte the bus shows at the operand's address when the instruction reads
/// it, its first bus access; POP, RET and RETI pop their operand as their
/// first bus accesses, and a taken conditional return after one idle cycle.
pub open spec fn read_seen(m0: MMU, r: Registers, i: Instr, m: u16) -> bool {
    match read_addr(r, i) {
        Some(a) => read_from(m0, a, m as u8),
        None => match i {
            Instr::POP_r16(_) | Instr::RET | Instr::RETI => pop_from(m0, r.r16(Reg16::SP), m),
            Instr::RET_COND(c) => cond_holds(r, c) ==> exists|mc: MMU|
                #[trigger] idle_cycle(m0, mc) && pop_from(mc, r.r16(Reg16::SP), m),
            _ => true,
        },
    }
}

/// The byte an instruction stores, and where.
pub open spec fn store8(r: Registers, i: Instr, m: u16) -> Option<(u16, u8)> {
    let mb = low(m);
    let cf = r.flag(Flag::C);
    match i {
        Instr::LD_ir16_r8(x0, x1) | Instr::LD_iir16_r8(x0, x1) | Instr::LD_dir16_r8(x0, x1) => Some(
            (r.r16(x0), r.r8(x1)),
        ),
        Instr::LD_ia16_r8(a, x) => Some((a.0, r.r8(x))),
        Instr::LDH_ia8_r8(a, x) => Some(((0xff00 + a) as u16, r.r8(x))),
        Instr::LD_ir8_r8(x0, x1) => Some(((0xff00 + r.r8(x0)) as u16, r.r8(x1))),
        Instr::LD_ir16_d8(x, v) => Some((r.r16(x), v)),
        Instr::INC_ir16(x) => Some((r.r16(x), alu_inc8(mb).0)),
        Instr::DEC_ir16(x) => Some((r.r16(x), alu_dec8(mb).0)),
        Instr::RES_l8_ir16(n, x) => Some((r.r16(x), mb & !(1u8 << n))),
        Instr::SET_l8_ir16(n, x) => Some((r.r16(x), mb | (1u8 << n))),
        Instr::RLC_ir16(x) => Some((r.r16(x), alu_rl(mb, cf, false, true).0)),
        Instr::RL_ir16(x) => Some((r.r16(x), alu_rl(mb, cf, true, true).0)),
        Instr::RRC_ir16(x) => Some((r.r16(x), alu_rr(mb, cf, false, true).0)),
        Instr::RR_ir16(x) => Some((r.r16(x), alu_rr(mb, cf, true, true).0)),
        Instr::SLA_ir16(x) => Some((r.r16(x), alu_sla(mb).0)),
        Instr::SRA_ir16(x) => Some((r.r16(x), alu_sr(mb, true).0)),
        Instr::SRL_ir16(x) => Some((r.r16(x), alu_sr(mb, false).0)),
        Instr::SWAP_ir16(x) => Some((r.r16(x), alu_swap(mb).0)),
        _ => None,
    }
}

/// The 16-bit value an instruction stores (low byte first), and where.
pub open spec fn store16(r: Registers, i: Instr) -> Option<(u16, u16)> {
    let below = dec16(dec16(r.r16(Reg16::SP)));
    match i {
        Instr::PUSH_r16(x) => Some((below, r.r16(x))),
        Instr::CALL_a16(_) | Instr::RST_LIT(_) => Some((below, r.r16(Reg16::PC))),
        Instr::CALL_COND_a16(c, _) => if cond_holds(r, c) {
            Some((below, r.r16(Reg16::PC)))
        } else {
            None
        },
        Instr::LD_ia16_r16(a, x) => Some((a.0, r.r16(x))),
        _ => None,
    }
}

/// Stores to plain memory can be read back.
pub open spec fn store_ok(bus: crate::mmu::MMUInternal, r: Registers, i: Instr, m: u16) -> bool {
    &&& match store8(r, i, m) {
        Some((a, w)) => is_plain(a) ==> bus.plain_at(a) == w,
        None => true,
    }
    &&& match store16(r, i) {
        Some((a, w)) => is_plain(a) && is_plain(inc16(a)) ==> bus.plain_at(a) == low(w)
            && bus.plain_at(inc16(a)) == w / 256,
        None => true,
    }
}

/// A 16-bit store as two bus writes: the low byte at `a`, then the high
/// byte at the next address.
pub open spec fn stored16(b0: crate::mmu::MMUInternal, b1: crate::mmu::MMUInternal, a: u16, w: u16) -> bool {
    exists|bm: crate::mmu::MMUInternal|
        #[trigger] bm.plain_written(&b0, a, low(w)) && b1.plain_written(&bm, inc16(a), (w / 256) as u8)
}

/// What an instruction does to plain memory (work RAM, high RAM, the
/// unused OAM tail, IE) and to SVBK: its byte store lands as a bus write
/// does (`plain_written`); a 16-bit store writes its low byte, then its
/// high byte at the next address; an instruction that stores nothing
/// leaves all of it as it was.
pub open spec fn plain_effect(b0: crate::mmu::MMUInternal, b1: crate::mmu::MMUInternal, r: Registers, i: Instr, m: u16) -> bool {
    match store8(r, i, m) {
        Some((a, w)) => b1.plain_written(&b0, a, w),
        None => match store16(r, i) {
            Some((a, w)) => stored16(b0, b1, a, w),
            None => b1.same_plain(&b0) && b1.spec_svbk() == b0.spec_svbk(),
        },
    }
}

/// What an instruction's byte store does to the registers the bus itself
/// holds, as a bus write does: writing 0xFF50 unmaps the boot ROM, a write
/// to KEY1 sets its speed-switch request bit, and a write to IF sets IF.
pub open spec fn device_effect(b0: crate::mmu::MMUInternal, b1: crate::mmu::MMUInternal, r: Registers, i: Instr, m: u16) -> bool {
    match store8(r, i, m) {
        Some((a, w)) => {
            &&& b1.spec_bios_exists() == (b0.spec_bios_exists() && a != BIOS_OFF_ADDR)
            &&& b1.spec_key1() == (if a == KEY1_ADDR {
                (b0.spec_key1() & 0xfe) | (w & 1)
            } else {
                b0.spec_key1()
            })
            &&& a == IF_ADDR ==> b1.spec_if() == w
        },
        None => true,
    }
}

/// Machine cycles an instruction spends on the bus beyond its fetch.
pub open spec fn mcycles(r: Registers, i: Instr) -> nat {
    match i {
        Instr::ADC_r8_ir16(_) | Instr::ADD_r8_ir16(_, _) | Instr::AND_ir16(_) | Instr::BIT_l8_ir16(
            _,
            _,
        ) | Instr::CP_ir16(_) | Instr::LDH_r8_ia8(_, _) | Instr::LD_r8_ia16(_, _) | Instr::LD_r8_ir16(
            _,
            _,
        ) | Instr::LD_r8_iir16(_, _) | Instr::LD_r8_dir16(_, _) | Instr::LD_r8_ir8(_, _)
        | Instr::OR_ir16(_) | Instr::SBC_r8_ir16(_) | Instr::SUB_ir16(_) | Instr::XOR_ir16(_) => 1,
        Instr::DEC_ir16(_) | Instr::INC_ir16(_) | Instr::RES_l8_ir16(_, _) | Instr::SET_l8_ir16(_, _)
        | Instr::RLC_ir16(_) | Instr::RL_ir16(_) | Instr::RRC_ir16(_) | Instr::RR_ir16(_)
        | Instr::SLA_ir16(_) | Instr::SRA_ir16(_) | Instr::SRL_ir16(_) | Instr::SWAP_ir16(_) => 2,
        Instr::LDH_ia8_r8(_, _) | Instr::LD_ia16_r8(_, _) | Instr::LD_ir16_d8(_, _)
        | Instr::LD_ir16_r8(_, _) | Instr::LD_iir16_r8(_, _) | Instr::LD_dir16_r8(_, _)
        | Instr::LD_ir8_r8(_, _) => 1,
        Instr::LD_ia16_r16(_, _) => 2,
        Instr::ADD_r16_r16(_, _) | Instr::DEC_r16(_) | Instr::INC_r16(_) | Instr::LD_r16_r16(_, _)
        | Instr::LD_r16_r16_r8(_, _, _) => 1,
        Instr::ADD_r16_r8(_, _) => 2,
        Instr::CALL_a16(_) | Instr::RST_LIT(_) | Instr::PUSH_r16(_) => 3,
        Instr::CALL_COND_a16(c, _) => if cond_holds(r, c) {
            3
        } else {
            0
        },
        Instr::JP_a16(_) | Instr::JR_r8(_) => 1,
        Instr::JP_COND_a16(c, _) | Instr::JR_COND_r8(c, _) => if cond_holds(r, c) {
            1
        } else {
            0
        },
        Instr::POP_r16(x) => if x == Reg16::PC {
            3
        } else {
            2
        },
        Instr::RET | Instr::RETI => 3,
        Instr::RET_COND(c) => if cond_holds(r, c) {
            4
        } else {
            1
        },
        _ => 0,
    }
}

/// Whether an instruction is one the core executes: not an undefined
/// opcode, and bit numbers below 8.
pub open spec fn executable(i: Instr) -> bool {
    match i {
        Instr::INVALID(_) => false,
        Instr::BIT_l8_ir16(n, _) | Instr::BIT_l8_r8(n, _) | Instr::RES_l8_ir16(n, _)
        | Instr::RES_l8_r8(n, _) | Instr::SET_l8_ir16(n, _) | Instr::SET_l8_r8(n, _) => n < 8,
        _ => true,
    }
}

/// The CPU: registers, and whether it is halted (waiting for an interrupt)
/// or dead (stuck for good).
pub struct CPU {
    reg: Registers,
    halted: bool,
    dead: bool,
    trace: bool,
    magic_bp: bool,
}

impl CPU {
    pub closed spec fn spec_reg(&self) -> Registers {
        self.reg
    }

    pub closed spec fn spec_halted(&self) -> bool {
        self.halted
    }

    pub closed spec fn spec_dead(&self) -> bool {
        self.dead
    }

    pub closed spec fn spec_trace(&self) -> bool {
        self.trace
    }

    pub closed spec fn spec_magic_bp(&self) -> bool {
        self.magic_bp
    }

    pub open spec fn wf(&self) -> bool {
        self.spec_reg().wf()
    }

    /// The same CPU with PC set to `pc`.
    pub closed spec fn with_pc(self, pc: u16) -> CPU {
        CPU { reg: self.reg.with16(Reg16::PC, pc), ..self }
    }

    /// The same CPU stopped for good.
    pub closed spec fn stopped(self) -> CPU {
        CPU { dead: true, ..self }
    }

    pub proof fn lemma_with_pc(self, pc: u16)
        ensures
            self.with_pc(pc).spec_reg() == self.spec_reg().with16(Reg16::PC, pc),
            self.with_pc(pc).spec_halted() == self.spec_halted(),
            self.with_pc(pc).spec_dead() == self.spec_dead(),
            self.with_pc(pc).spec_trace() == self.spec_trace(),
            self.with_pc(pc).spec_magic_bp() == self.spec_magic_bp(),
    {
    }

    pub proof fn lemma_stopped(self)
        ensures
            self.stopped().spec_reg() == self.spec_reg(),
            self.stopped().spec_halted() == self.spec_halted(),
            self.stopped().spec_dead(),
            self.stopped().spec_trace() == self.spec_trace(),
            self.stopped().spec_magic_bp() == self.spec_magic_bp(),
    {
    }
}

/// What executing `i` (fetched at `prev_pc`) does: the registers follow
/// `exec_reg` for the value read, which is the byte the bus shows at the
/// operand's address when read (and what plain memory holds there); plain
/// memory and SVBK change by the instruction's stores alone, and a byte
/// store acts on the boot ROM switch, KEY1 and IF as a bus write does; the
/// CPU halts on HALT (and on STOP unless a
/// speed switch is pending) and dies on a jump to itself with interrupts
/// off (or on `LD B,B` with the magic breakpoint armed), and the bus clock
/// advances by the instruction's machine cycles.
pub open spec fn executed(c0: CPU, c1: CPU, m0: MMU, m1: MMU, prev_pc: u16, i: Instr) -> bool {
    let r = c0.spec_reg();
    let no_irq = r.spec_ime() == 0 || m0.spec_bus().spec_ie() == 0;
    &&& m1.wf()
    &&& c1.wf()
    &&& exists|m: u16|
        operand_ok(m0.spec_bus(), r, i, m) && read_seen(m0, r, i, m) && c1.spec_reg() == exec_reg(r, i, m) && store_ok(
            m1.spec_bus(),
            r,
            i,
            m,
        ) && plain_effect(m0.spec_bus(), m1.spec_bus(), r, i, m) && device_effect(m0.spec_bus(), m1.spec_bus(), r, i, m)
    &&& c1.spec_halted() == (c0.spec_halted() || i == Instr::HALT || (i == Instr::STOP
        && m0.spec_bus().spec_key1() & 1 == 0))
    &&& c1.spec_dead() == (c0.spec_dead() || (match i {
        Instr::JP_a16(t) => t.0 == prev_pc && no_irq,
        Instr::JR_r8(o) => o.0 == -2 && no_irq,
        Instr::LD_r8_r8(x0, x1) => c0.spec_magic_bp() && x0 == Reg8::B && x1 == Reg8::B,
        _ => false,
    }))
    &&& c1.spec_trace() == c0.spec_trace()
    &&& c1.spec_magic_bp() == c0.spec_magic_bp()
    &&& m1.spec_bus().spec_time() == m0.spec_bus().spec_time() + (if m0.spec_bus().spec_double_speed() {
        mcycles(r, i) as int
    } else {
        2 * mcycles(r, i) as int
    })
    &&& (i == Instr::STOP && m0.spec_bus().spec_key1() & 1 != 0) ==> m1.spec_bus().spec_key1() == (
        m0.spec_bus().spec_key1() & 0xfe) ^ 0x80
    &&& !(i == Instr::STOP && m0.spec_bus().spec_key1() & 1 != 0) ==> m1.spec_bus().spec_double_speed()
        == m0.spec_bus().spec_double_speed()
}


impl CPU {
    /// A CPU with every register zero, running.
    pub fn new(trace: bool) -> (r: CPU)
        ensures
            r.spec_reg() == Registers::zeroed(),
            forall|x: Reg8| #[trigger] r.spec_reg().r8(x) == 0,
            forall|x: Reg16| #[trigger] r.spec_reg().r16(x) == 0,
            r.spec_reg().spec_ime() == 0,
            r.wf(),
            !r.spec_halted(),
            !r.spec_dead(),
            r.spec_trace() == trace,
            !r.spec_magic_bp(),
    {
        CPU { reg: Registers::new(), halted: false, dead: false, trace, magic_bp: false }
    }

    /// Arms the breakpoint: executing `LD B,B` then stops the CPU for good.
    pub fn magic_breakpoint(&mut self)
        ensures
            final(self).spec_magic_bp(),
            final(self).spec_reg() == old(self).spec_reg(),
            final(self).spec_halted() == old(self).spec_halted(),
            final(self).spec_dead() == old(self).spec_dead(),
            final(self).spec_trace() == old(self).spec_trace(),
    {
        self.magic_bp = true;
    }

    pub fn get_reg(&self) -> (r: Registers)
        ensures
            r == self.spec_reg(),
    {
        self.reg
    }

    pub fn is_dead(&self, _mem: &MMU) -> (r: bool)
        ensures
            r == self.spec_dead(),
    {
        self.dead
    }

    pub fn is_halted(&self) -> (r: bool)
        ensures
            r == self.spec_halted(),
    {
        self.halted
    }

    pub fn toggle_trace(&mut self)
        ensures
            final(self).spec_trace() == !old(self).spec_trace(),
            final(self).spec_reg() == old(self).spec_reg(),
            final(self).spec_halted() == old(self).spec_halted(),
            final(self).spec_dead() == old(self).spec_dead(),
            final(self).spec_magic_bp() == old(self).spec_magic_bp(),
    {
        self.trace = !self.trace;
    }

    fn check_flag(&self, cond: Cond) -> (r: bool)
        ensures
            r == cond_holds(self.spec_reg(), cond),
    {
        match cond {
            Cond::Z => self.reg.get_flag(Flag::Z),
            Cond::NZ => !self.reg.get_flag(Flag::Z),
            Cond::C => self.reg.get_flag(Flag::C),
            Cond::NC => !self.reg.get_flag(Flag::C),
        }
    }

    /// Stores an 8-bit ALU result and merges its flags under `mask`.
    fn alu8(&mut self, dst: Reg8, v: (u8, u8), mask: u8)
        requires
            old(self).wf(),
        ensures
            final(self).reg == res8(old(self).reg, dst, v, mask),
            final(self).wf(),
            final(self).halted == old(self).halted,
            final(self).dead == old(self).dead,
            final(self).trace == old(self).trace,
            final(self).magic_bp == old(self).magic_bp,
    {
        proof {
            self.reg.lemma_wf_kept(dst, v.0, Reg16::SP, 0, 0);
        }
        self.reg.write(dst, v.0);
        proof {
            self.reg.lemma_wf_kept(Reg8::F, (v.1 & mask) | (self.reg.r8(Reg8::F) & !mask), Reg16::SP, 0, 0);
        }
        self.reg.write_mask(Reg8::F, v.1, mask);
    }

    /// Stores a 16-bit ALU result and merges its flags under `mask`.
    fn alu16(&mut self, dst: Reg16, v: (u16, u8), mask: u8)
        requires
            old(self).wf(),
        ensures
            final(self).reg == res16(old(self).reg, dst, v, mask),
            final(self).wf(),
            final(self).halted == old(self).halted,
            final(self).dead == old(self).dead,
            final(self).trace == old(self).trace,
            final(self).magic_bp == old(self).magic_bp,
    {
        proof {
            self.reg.lemma_wf_kept(Reg8::A, 0, dst, v.0, 0);
        }
        self.reg.write(dst, v.0);
        proof {
            self.reg.lemma_wf_kept(Reg8::F, (v.1 & mask) | (self.reg.r8(Reg8::F) & !mask), Reg16::SP, 0, 0);
        }
        self.reg.write_mask(Reg8::F, v.1, mask);
    }

    /// Merges flags under `mask` into F.
    fn set_flags(&mut self, f: u8, mask: u8)
        requires
            old(self).wf(),
        ensures
            final(self).reg == flags_only(old(self).reg, f, mask),
            final(self).wf(),
            final(self).halted == old(self).halted,
            final(self).dead == old(self).dead,
            final(self).trace == old(self).trace,
            final(self).magic_bp == old(self).magic_bp,
    {
        proof {
            self.reg.lemma_wf_kept(Reg8::F, (f & mask) | (self.reg.r8(Reg8::F) & !mask), Reg16::SP, 0, 0);
        }
        self.reg.write_mask(Reg8::F, f, mask);
    }

    fn put8(&mut self, dst: Reg8, v: u8)
        requires
            old(self).wf(),
        ensures
            final(self).reg == old(self).reg.with8(dst, v),
            final(self).wf(),
            final(self).halted == old(self).halted,
            final(self).dead == old(self).dead,
            final(self).trace == old(self).trace,
            final(self).magic_bp == old(self).magic_bp,
    {
        proof {
            self.reg.lemma_wf_kept(dst, v, Reg16::SP, 0, 0);
        }
        self.reg.write(dst, v);
    }

    fn put16(&mut self, dst: Reg16, v: u16)
        requires
            old(self).wf(),
        ensures
            final(self).reg == old(self).reg.with16(dst, v),
            final(self).wf(),
            final(self).halted == old(self).halted,
            final(self).dead == old(self).dead,
            final(self).trace == old(self).trace,
            final(self).magic_bp == old(self).magic_bp,
    {
        proof {
            self.reg.lemma_wf_kept(Reg8::A, 0, dst, v, 0);
        }
        self.reg.write(dst, v);
    }

    fn flag_op(&mut self, f: Flag, on: bool)
        requires
            old(self).wf(),
        ensures
            final(self).reg == with_flag(old(self).reg, f.spec_mask(), on),
            final(self).wf(),
            final(self).halted == old(self).halted,
            final(self).dead == old(self).dead,
            final(self).trace == old(self).trace,
            final(self).magic_bp == old(self).magic_bp,
    {
        proof {
            self.reg.lemma_wf_kept(Reg8::F, self.reg.r8(Reg8::F) | f.spec_mask(), Reg16::SP, 0, 0);
            self.reg.lemma_wf_kept(Reg8::F, self.reg.r8(Reg8::F) & !f.spec_mask(), Reg16::SP, 0, 0);
        }
        if on {
            self.reg.set_flag(f);
        } else {
            self.reg.clear_flag(f);
        }
    }

    fn set_ime(&mut self, v: u8)
        requires
            old(self).wf(),
        ensures
            final(self).reg == old(self).reg.with_ime(v),
            final(self).wf(),
            final(self).halted == old(self).halted,
            final(self).dead == old(self).dead,
            final(self).trace == old(self).trace,
            final(self).magic_bp == old(self).magic_bp,
    {
        proof {
            self.reg.lemma_wf_kept(Reg8::A, 0, Reg16::SP, 0, v);
        }
        self.reg.set_ime(v);
    }
}


/// Register-to-register ALU operations on A.
pub open spec fn is_alu_a(i: Instr) -> bool {
    match i {
        Instr::ADC_r8_d8(_) | Instr::ADC_r8_r8(_) | Instr::ADD_r8_d8(_, _) | Instr::ADD_r8_r8(_, _)
        | Instr::AND_d8(_) | Instr::AND_r8(_) | Instr::CP_d8(_) | Instr::CP_r8(_) | Instr::OR_d8(_)
        | Instr::OR_r8(_) | Instr::SBC_r8_d8(_) | Instr::SBC_r8_r8(_) | Instr::SUB_d8(_)
        | Instr::SUB_r8(_) | Instr::XOR_d8(_) | Instr::XOR_r8(_) => true,
        _ => false,
    }
}

/// Bit, rotate, shift and increment operations on a register.
pub open spec fn is_bits(i: Instr) -> bool {
    match i {
        Instr::BIT_l8_r8(_, _) | Instr::RES_l8_r8(_, _) | Instr::SET_l8_r8(_, _) | Instr::RLC_r8(_)
        | Instr::RL_r8(_) | Instr::RRC_r8(_) | Instr::RR_r8(_) | Instr::SLA_r8(_) | Instr::SRA_r8(_)
        | Instr::SRL_r8(_) | Instr::SWAP_r8(_) | Instr::RLA | Instr::RLCA | Instr::RRA | Instr::RRCA
        | Instr::INC_r8(_) | Instr::DEC_r8(_) => true,
        _ => false,
    }
}

/// Rotations and shifts of a register.
pub open spec fn is_shift_r8(i: Instr) -> bool {
    match i {
        Instr::RLC_r8(_) | Instr::RL_r8(_) | Instr::RRC_r8(_) | Instr::RR_r8(_) | Instr::SLA_r8(_)
        | Instr::SRA_r8(_) | Instr::SRL_r8(_) | Instr::SWAP_r8(_) => true,
        _ => false,
    }
}

/// Flag operations, loads of constants and the remaining register moves.
pub open spec fn is_misc(i: Instr) -> bool {
    match i {
        Instr::CCF | Instr::CPL | Instr::DAA | Instr::DI | Instr::EI | Instr::JP_r16(_)
        | Instr::LD_r16_d16(_, _) | Instr::LD_r8_d8(_, _) | Instr::NOP | Instr::SCF => true,
        _ => false,
    }
}

/// Instructions that touch only the registers (and the speed switch).
pub open spec fn is_simple(i: Instr) -> bool {
    is_alu_a(i) || is_bits(i) || is_misc(i) || i == Instr::HALT || i == Instr::STOP || i is LD_r8_r8
}

impl CPU {
    #[verifier::spinoff_prover]
    #[verifier::rlimit(100)]
    fn exec_alu_a(&mut self, instr: Instr, mb: u8)
        requires
            old(self).wf(),
            is_alu_a(instr),
        ensures
            final(self).reg == alu8_result(old(self).reg, instr, mb),
            final(self).wf(),
            final(self).halted == old(self).halted,
            final(self).dead == old(self).dead,
            final(self).trace == old(self).trace,
            final(self).magic_bp == old(self).magic_bp,
    {
        let a = self.reg.read(Reg8::A);
        let cf = self.reg.get_flag(Flag::C);
        match instr {
            Instr::ADC_r8_d8(x) => self.alu8(Reg8::A, ALU::adc(a, x, cf), 0xf0),
            Instr::ADC_r8_r8(x) => {
                let b = self.reg.read(x);
                self.alu8(Reg8::A, ALU::adc(a, b, cf), 0xf0)
            },
            Instr::ADD_r8_d8(x0, x1) => {
                let v = self.reg.read(x0);
                self.alu8(x0, <ALU as ALUOps<u8>>::add(v, x1), 0xf0)
            },
            Instr::ADD_r8_r8(x0, x1) => {
                let v = self.reg.read(x0);
                let b = self.reg.read(x1);
                self.alu8(x0, <ALU as ALUOps<u8>>::add(v, b), 0xf0)
            },
            Instr::AND_d8(x) => self.alu8(Reg8::A, ALU::and(a, x), 0xf0),
            Instr::AND_r8(x) => {
                let b = self.reg.read(x);
                self.alu8(Reg8::A, ALU::and(a, b), 0xf0)
            },
            Instr::CP_d8(x) => {
                let (_, f) = <ALU as ALUOps<u8>>::sub(a, x);
                self.set_flags(f, 0xf0)
            },
            Instr::CP_r8(x) => {
                let b = self.reg.read(x);
                let (_, f) = <ALU as ALUOps<u8>>::sub(a, b);
                self.set_flags(f, 0xf0)
            },
            Instr::OR_d8(x) => self.alu8(Reg8::A, ALU::or(a, x), 0xf0),
            Instr::OR_r8(x) => {
                let b = self.reg.read(x);
                self.alu8(Reg8::A, ALU::or(a, b), 0xf0)
            },
            Instr::SBC_r8_d8(x) => self.alu8(Reg8::A, ALU::sbc(a, x, cf), 0xf0),
            Instr::SBC_r8_r8(x) => {
                let b = self.reg.read(x);
                self.alu8(Reg8::A, ALU::sbc(a, b, cf), 0xf0)
            },
            Instr::SUB_d8(x) => self.alu8(Reg8::A, <ALU as ALUOps<u8>>::sub(a, x), 0xf0),
            Instr::SUB_r8(x) => {
                let b = self.reg.read(x);
                self.alu8(Reg8::A, <ALU as ALUOps<u8>>::sub(a, b), 0xf0)
            },
            Instr::XOR_d8(x) => self.alu8(Reg8::A, ALU::xor(a, x), 0xf0),
            Instr::XOR_r8(x) => {
                let b = self.reg.read(x);
                self.alu8(Reg8::A, ALU::xor(a, b), 0xf0)
            },
            _ => {},
        }
    }

    /// The 8-bit ALU operations on a byte read from memory.
    #[verifier::spinoff_prover]
    #[verifier::rlimit(60)]
    fn exec_alu_mem(&mut self, instr: Instr, mb: u8)
        requires
            old(self).wf(),
            is_alu8(instr),
            !is_alu_a(instr),
        ensures
            final(self).reg == alu8_result(old(self).reg, instr, mb),
            final(self).wf(),
            final(self).halted == old(self).halted,
            final(self).dead == old(self).dead,
            final(self).trace == old(self).trace,
            final(self).magic_bp == old(self).magic_bp,
    {
        let a = self.reg.read(Reg8::A);
        let cf = self.reg.get_flag(Flag::C);
        match instr {
            Instr::ADC_r8_ir16(_) => self.alu8(Reg8::A, ALU::adc(a, mb, cf), 0xf0),
            Instr::ADD_r8_ir16(x0, _) => {
                let v = self.reg.read(x0);
                self.alu8(x0, <ALU as ALUOps<u8>>::add(v, mb), 0xf0)
            },
            Instr::AND_ir16(_) => self.alu8(Reg8::A, ALU::and(a, mb), 0xf0),
            Instr::CP_ir16(_) => {
                let (_, f) = <ALU as ALUOps<u8>>::sub(a, mb);
                self.set_flags(f, 0xf0)
            },
            Instr::OR_ir16(_) => self.alu8(Reg8::A, ALU::or(a, mb), 0xf0),
            Instr::SBC_r8_ir16(_) => self.alu8(Reg8::A, ALU::sbc(a, mb, cf), 0xf0),
            Instr::SUB_ir16(_) => self.alu8(Reg8::A, <ALU as ALUOps<u8>>::sub(a, mb), 0xf0),
            Instr::XOR_ir16(_) => self.alu8(Reg8::A, ALU::xor(a, mb), 0xf0),
            _ => {},
        }
    }

    #[verifier::spinoff_prover]
    #[verifier::rlimit(60)]
    fn exec_bit_flags(&mut self, instr: Instr)
        requires
            old(self).wf(),
            is_bits(instr),
            !is_shift_r8(instr),
            executable(instr),
        ensures
            final(self).reg == bits_result(old(self).reg, instr, 0),
            final(self).wf(),
            final(self).halted == old(self).halted,
            final(self).dead == old(self).dead,
            final(self).trace == old(self).trace,
            final(self).magic_bp == old(self).magic_bp,
    {
        let a = self.reg.read(Reg8::A);
        let cf = self.reg.get_flag(Flag::C);
        match instr {
            Instr::BIT_l8_r8(n, x) => {
                let b = self.reg.read(x);
                let (_, f) = ALU::bit(n, b);
                self.set_flags(f, 0xe0)
            },
            Instr::RES_l8_r8(n, x) => {
                let v = self.reg.read(x);
                self.put8(x, v & !(1u8 << n))
            },
            Instr::SET_l8_r8(n, x) => {
                let v = self.reg.read(x);
                self.put8(x, v | (1u8 << n))
            },
            Instr::RLA => self.alu8(Reg8::A, ALU::rlca(a, cf, true, false), 0xf0),
            Instr::RLCA => self.alu8(Reg8::A, ALU::rlca(a, cf, false, false), 0xf0),
            Instr::RRA => self.alu8(Reg8::A, ALU::rrca(a, cf, true, false), 0xf0),
            Instr::RRCA => self.alu8(Reg8::A, ALU::rrca(a, cf, false, false), 0xf0),
            Instr::DEC_r8(x) => {
                let v = self.reg.read(x);
                self.alu8(x, <ALU as ALUOps<u8>>::dec(v), 0xe0)
            },
            Instr::INC_r8(x) => {
                let v = self.reg.read(x);
                self.alu8(x, <ALU as ALUOps<u8>>::inc(v), 0xe0)
            },
            _ => {},
        }
    }

    #[verifier::spinoff_prover]
    #[verifier::rlimit(60)]
    fn exec_shift(&mut self, instr: Instr)
        requires
            old(self).wf(),
            is_shift_r8(instr),
        ensures
            final(self).reg == bits_result(old(self).reg, instr, 0),
            final(self).wf(),
            final(self).halted == old(self).halted,
            final(self).dead == old(self).dead,
            final(self).trace == old(self).trace,
            final(self).magic_bp == old(self).magic_bp,
    {
        let cf = self.reg.get_flag(Flag::C);
        match instr {
            Instr::RLC_r8(x) => {
                let v = self.reg.read(x);
                self.alu8(x, ALU::rlca(v, cf, false, true), 0xf0)
            },
            Instr::RL_r8(x) => {
                let v = self.reg.read(x);
                self.alu8(x, ALU::rlca(v, cf, true, true), 0xf0)
            },
            Instr::RRC_r8(x) => {
                let v = self.reg.read(x);
                self.alu8(x, ALU::rrca(v, cf, false, true), 0xf0)
            },
            Instr::RR_r8(x) => {
                let v = self.reg.read(x);
                self.alu8(x, ALU::rrca(v, cf, true, true), 0xf0)
            },
            Instr::SLA_r8(x) => {
                let v = self.reg.read(x);
                self.alu8(x, ALU::sla(v), 0xf0)
            },
            Instr::SRA_r8(x) => {
                let v = self.reg.read(x);
                self.alu8(x, ALU::sr(v, true), 0xf0)
            },
            Instr::SRL_r8(x) => {
                let v = self.reg.read(x);
                self.alu8(x, ALU::sr(v, false), 0xf0)
            },
            Instr::SWAP_r8(x) => {
                let v = self.reg.read(x);
                self.alu8(x, ALU::swap(v), 0xf0)
            },
            _ => {},
        }
    }

    fn exec_bits(&mut self, instr: Instr)
        requires
            old(self).wf(),
            is_bits(instr),
            executable(instr),
        ensures
            final(self).reg == bits_result(old(self).reg, instr, 0),
            final(self).wf(),
            final(self).halted == old(self).halted,
            final(self).dead == old(self).dead,
            final(self).trace == old(self).trace,
            final(self).magic_bp == old(self).magic_bp,
    {
        let shift = match instr {
            Instr::RLC_r8(_) | Instr::RL_r8(_) | Instr::RRC_r8(_) | Instr::RR_r8(_) | Instr::SLA_r8(_)
            | Instr::SRA_r8(_) | Instr::SRL_r8(_) | Instr::SWAP_r8(_) => true,
            _ => false,
        };
        if shift {
            self.exec_shift(instr);
        } else {
            self.exec_bit_flags(instr);
        }
    }

    fn exec_misc(&mut self, instr: Instr)
        requires
            old(self).wf(),
            is_misc(instr),
        ensures
            final(self).reg == exec_reg(old(self).reg, instr, 0),
            final(self).wf(),
            final(self).halted == old(self).halted,
            final(self).dead == old(self).dead,
            final(self).trace == old(self).trace,
            final(self).magic_bp == old(self).magic_bp,
    {
        let a = self.reg.read(Reg8::A);
        let cf = self.reg.get_flag(Flag::C);
        match instr {
            Instr::CCF => {
                self.flag_op(Flag::C, !cf);
                self.flag_op(Flag::N, false);
                self.flag_op(Flag::H, false);
            },
            Instr::CPL => {
                self.put8(Reg8::A, !a);
                self.flag_op(Flag::N, true);
                self.flag_op(Flag::H, true);
            },
            Instr::DAA => {
                let n = self.reg.get_flag(Flag::N);
                let h = self.reg.get_flag(Flag::H);
                let mut adjust: u8 = 0;
                if h || (!n && a % 16 > 9) {
                    adjust = adjust + 0x6;
                }
                let high = cf || (!n && a > 0x99);
                if high {
                    adjust = adjust + 0x60;
                }
                self.flag_op(Flag::C, high);
                let value: u8 = if n {
                    a.wrapping_sub(adjust)
                } else {
                    a.wrapping_add(adjust)
                };
                self.flag_op(Flag::Z, value == 0);
                self.flag_op(Flag::H, false);
                self.put8(Reg8::A, value);
            },
            Instr::DI => self.set_ime(0),
            Instr::EI => self.set_ime(1),
            Instr::JP_r16(x) => {
                let t = self.reg.read(x);
                self.put16(Reg16::PC, t)
            },
            Instr::LD_r16_d16(x, v) => self.put16(x, v),
            Instr::LD_r8_d8(x, v) => self.put8(x, v),
            Instr::NOP => {},
            Instr::SCF => self.set_flags(0x10, 0x70),
            _ => {},
        }
    }

    fn exec_simple(&mut self, mem: &mut MMU, prev_pc: u16, instr: Instr)
        requires
            old(self).wf(),
            old(mem).wf(),
            is_simple(instr),
            executable(instr),
        ensures
            executed(*old(self), *final(self), *old(mem), *final(mem), prev_pc, instr),
    {
        let ghost r0 = self.reg;
        if is_alu_a_instr(instr) {
            self.exec_alu_a(instr, 0);
        } else if is_bits_instr(instr) {
            self.exec_bits(instr);
        } else if is_misc_instr(instr) {
            self.exec_misc(instr);
        } else {
            match instr {
                Instr::HALT => {
                    self.halted = true;
                },
                Instr::LD_r8_r8(x0, x1) => {
                    if self.magic_bp && x0 == Reg8::B && x1 == Reg8::B {
                        self.dead = true;
                    }
                    let v = self.reg.read(x1);
                    self.put8(x0, v)
                },
                _ => {
                    if mem.speed_change() {
                        mem.toggle_speed();
                    } else {
                        self.halted = true;
                    }
                },
            }
        }
        assert(mcycles(r0, instr) == 0);
        assert(operand_ok(old(mem).spec_bus(), r0, instr, 0) && self.reg == exec_reg(r0, instr, 0)
            && store_ok(mem.spec_bus(), r0, instr, 0));
    }
}

fn is_alu_a_instr(i: Instr) -> (r: bool)
    ensures
        r == is_alu_a(i),
{
    match i {
        Instr::ADC_r8_d8(_) | Instr::ADC_r8_r8(_) | Instr::ADD_r8_d8(_, _) | Instr::ADD_r8_r8(_, _)
        | Instr::AND_d8(_) | Instr::AND_r8(_) | Instr::CP_d8(_) | Instr::CP_r8(_) | Instr::OR_d8(_)
        | Instr::OR_r8(_) | Instr::SBC_r8_d8(_) | Instr::SBC_r8_r8(_) | Instr::SUB_d8(_)
        | Instr::SUB_r8(_) | Instr::XOR_d8(_) | Instr::XOR_r8(_) => true,
        _ => false,
    }
}

fn is_bits_instr(i: Instr) -> (r: bool)
    ensures
        r == is_bits(i),
{
    match i {
        Instr::BIT_l8_r8(_, _) | Instr::RES_l8_r8(_, _) | Instr::SET_l8_r8(_, _) | Instr::RLC_r8(_)
        | Instr::RL_r8(_) | Instr::RRC_r8(_) | Instr::RR_r8(_) | Instr::SLA_r8(_) | Instr::SRA_r8(_)
        | Instr::SRL_r8(_) | Instr::SWAP_r8(_) | Instr::RLA | Instr::RLCA | Instr::RRA | Instr::RRCA
        | Instr::INC_r8(_) | Instr::DEC_r8(_) => true,
        _ => false,
    }
}

fn is_misc_instr(i: Instr) -> (r: bool)
    ensures
        r == is_misc(i),
{
    match i {
        Instr::CCF | Instr::CPL | Instr::DAA | Instr::DI | Instr::EI | Instr::JP_r16(_)
        | Instr::LD_r16_d16(_, _) | Instr::LD_r8_d8(_, _) | Instr::NOP | Instr::SCF => true,
        _ => false,
    }
}


/// Instructions that read one byte of memory and change only registers.
pub open spec fn is_mem_read(i: Instr) -> bool {
    match i {
        Instr::ADC_r8_ir16(_) | Instr::ADD_r8_ir16(_, _) | Instr::AND_ir16(_) | Instr::CP_ir16(_)
        | Instr::OR_ir16(_) | Instr::SBC_r8_ir16(_) | Instr::SUB_ir16(_) | Instr::XOR_ir16(_)
        | Instr::BIT_l8_ir16(_, _) | Instr::LDH_r8_ia8(_, _) | Instr::LD_r8_ia16(_, _)
        | Instr::LD_r8_ir16(_, _) | Instr::LD_r8_iir16(_, _) | Instr::LD_r8_dir16(_, _)
        | Instr::LD_r8_ir8(_, _) => true,
        _ => false,
    }
}

/// Instructions that read a byte of memory and write it back changed.
pub open spec fn is_mem_rmw(i: Instr) -> bool {
    match i {
        Instr::DEC_ir16(_) | Instr::INC_ir16(_) | Instr::RES_l8_ir16(_, _) | Instr::SET_l8_ir16(_, _)
        | Instr::RLC_ir16(_) | Instr::RL_ir16(_) | Instr::RRC_ir16(_) | Instr::RR_ir16(_)
        | Instr::SLA_ir16(_) | Instr::SRA_ir16(_) | Instr::SRL_ir16(_) | Instr::SWAP_ir16(_) => true,
        _ => false,
    }
}

impl CPU {
    /// The address of the one-byte memory operand.
    fn operand_addr(&self, instr: Instr) -> (r: u16)
        requires
            read_addr(self.reg, instr) is Some,
        ensures
            read_addr(self.reg, instr) == Some(r),
    {
        match instr {
            Instr::ADC_r8_ir16(x) | Instr::AND_ir16(x) | Instr::CP_ir16(x) | Instr::DEC_ir16(x)
            | Instr::INC_ir16(x) | Instr::OR_ir16(x) | Instr::SBC_r8_ir16(x) | Instr::SUB_ir16(x)
            | Instr::XOR_ir16(x) | Instr::RLC_ir16(x) | Instr::RL_ir16(x) | Instr::RRC_ir16(x)
            | Instr::RR_ir16(x) | Instr::SLA_ir16(x) | Instr::SRA_ir16(x) | Instr::SRL_ir16(x)
            | Instr::SWAP_ir16(x) => self.reg.read(x),
            Instr::ADD_r8_ir16(_, x) | Instr::BIT_l8_ir16(_, x) | Instr::RES_l8_ir16(_, x)
            | Instr::SET_l8_ir16(_, x) | Instr::LD_r8_ir16(_, x) | Instr::LD_r8_iir16(_, x)
            | Instr::LD_r8_dir16(_, x) => self.reg.read(x),
            Instr::LDH_r8_ia8(_, a) => 0xff00 + a as u16,
            Instr::LD_r8_ia16(_, a) => a.0,
            Instr::LD_r8_ir8(_, x) => {
                let v = self.reg.read(x);
                0xff00 + v as u16
            },
            _ => 0,
        }
    }

    /// Reads the memory operand, letting one machine cycle pass; plain
    /// memory gives what it holds.
    fn read_operand(&mut self, mem: &mut MMU, addr: u16) -> (r: u8)
        requires
            old(mem).wf(),
            old(mem).spec_bus().spec_time() <= u64::MAX - 4,
        ensures
            final(mem).wf(),
            is_plain(addr) ==> r == old(mem).spec_bus().plain_at(addr),
            final(mem).spec_bus().spec_time() == old(mem).spec_bus().spec_time() + old(mem).spec_bus().spec_mult(),
            final(mem).spec_bus().same_plain(&old(mem).spec_bus()),
            final(mem).spec_bus().spec_svbk() == old(mem).spec_bus().spec_svbk(),
            final(mem).spec_bus().spec_key1() == old(mem).spec_bus().spec_key1(),
            final(mem).spec_bus().spec_bios_exists() == old(mem).spec_bus().spec_bios_exists(),
            read_step(*old(mem), *final(mem), addr, r),
            *final(self) == *old(self),
    {
        let v = mem.read_byte(addr);
        proof {
            if is_plain(addr) {
                mem.spec_bus().lemma_peek_plain(addr);
            }
        }
        v
    }

    #[verifier::spinoff_prover]
    #[verifier::rlimit(60)]
    fn exec_mem_read(&mut self, mem: &mut MMU, prev_pc: u16, instr: Instr)
        requires
            old(self).wf(),
            old(mem).wf(),
            is_mem_read(instr),
            executable(instr),
            old(mem).spec_bus().spec_time() <= u64::MAX - 4,
        ensures
            executed(*old(self), *final(self), *old(mem), *final(mem), prev_pc, instr),
    {
        let ghost r0 = self.reg;
        let addr = self.operand_addr(instr);
        let v = self.read_operand(mem, addr);
        let ghost mr = *mem;
        match instr {
            Instr::BIT_l8_ir16(n, _) => {
                let (_, f) = ALU::bit(n, v);
                self.set_flags(f, 0xe0)
            },
            Instr::LDH_r8_ia8(x, _) | Instr::LD_r8_ia16(x, _) | Instr::LD_r8_ir16(x, _)
            | Instr::LD_r8_ir8(x, _) => self.put8(x, v),
            Instr::LD_r8_iir16(x0, x1) => {
                self.put8(x0, v);
                let hl = self.reg.read(x1);
                self.put16(x1, <ALU as ALUOps<u16>>::inc(hl).0);
            },
            Instr::LD_r8_dir16(x0, x1) => {
                self.put8(x0, v);
                let hl = self.reg.read(x1);
                self.put16(x1, <ALU as ALUOps<u16>>::dec(hl).0);
            },
            _ => self.exec_alu_mem(instr, v),
        }
        assert(low(v as u16) == v);
        assert(read_step(*old(mem), mr, addr, v));
        assert(read_seen(*old(mem), r0, instr, v as u16));
        assert(operand_ok(old(mem).spec_bus(), r0, instr, v as u16) && self.reg == exec_reg(
            r0,
            instr,
            v as u16,
        ) && store_ok(mem.spec_bus(), r0, instr, v as u16));
    }
}


/// Instructions that store to memory without reading it.
pub open spec fn is_mem_store(i: Instr) -> bool {
    match i {
        Instr::LDH_ia8_r8(_, _) | Instr::LD_ia16_r8(_, _) | Instr::LD_ir16_d8(_, _)
        | Instr::LD_ir16_r8(_, _) | Instr::LD_iir16_r8(_, _) | Instr::LD_dir16_r8(_, _)
        | Instr::LD_ir8_r8(_, _) => true,
        _ => false,
    }
}

impl CPU {
    /// Writes a byte, letting one machine cycle pass; a plain address then
    /// holds it.
    fn write_mem(&mut self, mem: &mut MMU, addr: u16, v: u8)
        requires
            old(mem).wf(),
            old(mem).spec_bus().spec_time() <= u64::MAX - 4,
        ensures
            final(mem).wf(),
            final(mem).spec_bus().plain_written(&old(mem).spec_bus(), addr, v),
            final(mem).spec_bus().spec_bios_exists() == (old(mem).spec_bus().spec_bios_exists() && addr != BIOS_OFF_ADDR),
            final(mem).spec_bus().spec_key1() == (if addr == KEY1_ADDR {
                (old(mem).spec_bus().spec_key1() & 0xfe) | (v & 1)
            } else {
                old(mem).spec_bus().spec_key1()
            }),
            addr == IF_ADDR ==> final(mem).spec_bus().spec_if() == v,
            is_plain(addr) ==> final(mem).spec_bus().plain_at(addr) == v,
            final(mem).spec_bus().spec_time() == old(mem).spec_bus().spec_time() + old(mem).spec_bus().spec_mult(),
            final(mem).spec_bus().spec_double_speed() == old(mem).spec_bus().spec_double_speed(),
            is_plain(addr) ==> final(mem).spec_bus().spec_svbk() == old(mem).spec_bus().spec_svbk(),
            forall|a: u16|
                is_plain(a) && is_plain(addr) && a != addr && !(is_wram(a) && is_wram(addr) && wram_index(a, old(mem).spec_bus().spec_svbk()) == wram_index(addr, old(mem).spec_bus().spec_svbk()))
                ==> #[trigger] final(mem).spec_bus().plain_at(a) == old(mem).spec_bus().plain_at(a),
            *final(self) == *old(self),
    {
        proof {
            if is_wram(addr) {
                crate::mmu::lemma_wram_index_bounds(addr, mem.spec_bus().spec_svbk());
            }
            mem.spec_bus().lemma_wf_sizes();
        }
        mem.write_byte(addr, v);
        proof {
            mem.spec_bus().lemma_wf_sizes();
            assert forall|a: u16|
                is_plain(a) && is_plain(addr) && a != addr && !(is_wram(a) && is_wram(addr) && wram_index(a, old(mem).spec_bus().spec_svbk()) == wram_index(addr, old(mem).spec_bus().spec_svbk()))
                implies #[trigger] mem.spec_bus().plain_at(a) == old(mem).spec_bus().plain_at(a) by {
                if is_wram(a) {
                    crate::mmu::lemma_wram_index_bounds(a, old(mem).spec_bus().spec_svbk());
                }
            }
        }
    }

    /// Read-modify-write of the byte at (HL): increments, bit changes,
    /// rotations and shifts of memory.
    #[verifier::spinoff_prover]
    #[verifier::rlimit(80)]
    fn exec_mem_rmw(&mut self, mem: &mut MMU, prev_pc: u16, instr: Instr)
        requires
            old(self).wf(),
            old(mem).wf(),
            is_mem_rmw(instr),
            executable(instr),
            old(mem).spec_bus().spec_time() <= u64::MAX - 8,
        ensures
            executed(*old(self), *final(self), *old(mem), *final(mem), prev_pc, instr),
    {
        let ghost r0 = self.reg;
        let addr = self.operand_addr(instr);
        let v = self.read_operand(mem, addr);
        let ghost mr = *mem;
        let cf = self.reg.get_flag(Flag::C);
        let (w, f, mask): (u8, u8, u8) = match instr {
            Instr::DEC_ir16(_) => {
                let (w, f) = <ALU as ALUOps<u8>>::dec(v);
                (w, f, 0xe0)
            },
            Instr::INC_ir16(_) => {
                let (w, f) = <ALU as ALUOps<u8>>::inc(v);
                (w, f, 0xe0)
            },
            Instr::RES_l8_ir16(n, _) => (v & !(1u8 << n), 0, 0),
            Instr::SET_l8_ir16(n, _) => (v | (1u8 << n), 0, 0),
            Instr::RLC_ir16(_) => {
                let (w, f) = ALU::rlca(v, cf, false, true);
                (w, f, 0xf0)
            },
            Instr::RL_ir16(_) => {
                let (w, f) = ALU::rlca(v, cf, true, true);
                (w, f, 0xf0)
            },
            Instr::RRC_ir16(_) => {
                let (w, f) = ALU::rrca(v, cf, false, true);
                (w, f, 0xf0)
            },
            Instr::RR_ir16(_) => {
                let (w, f) = ALU::rrca(v, cf, true, true);
                (w, f, 0xf0)
            },
            Instr::SLA_ir16(_) => {
                let (w, f) = ALU::sla(v);
                (w, f, 0xf0)
            },
            Instr::SRA_ir16(_) => {
                let (w, f) = ALU::sr(v, true);
                (w, f, 0xf0)
            },
            Instr::SRL_ir16(_) => {
                let (w, f) = ALU::sr(v, false);
                (w, f, 0xf0)
            },
            _ => {
                let (w, f) = ALU::swap(v);
                (w, f, 0xf0)
            },
        };
        self.write_mem(mem, addr, w);
        let is_bitop = match instr {
            Instr::RES_l8_ir16(_, _) | Instr::SET_l8_ir16(_, _) => true,
            _ => false,
        };
        if !is_bitop {
            self.set_flags(f, mask);
        }
        assert(low(v as u16) == v);
        assert(read_step(*old(mem), mr, addr, v));
        assert(read_seen(*old(mem), r0, instr, v as u16));
        assert(operand_ok(old(mem).spec_bus(), r0, instr, v as u16) && self.reg == exec_reg(
            r0,
            instr,
            v as u16,
        ) && store_ok(mem.spec_bus(), r0, instr, v as u16));
    }

    #[verifier::spinoff_prover]
    #[verifier::rlimit(60)]
    fn exec_mem_store(&mut self, mem: &mut MMU, prev_pc: u16, instr: Instr)
        requires
            old(self).wf(),
            old(mem).wf(),
            is_mem_store(instr),
            old(mem).spec_bus().spec_time() <= u64::MAX - 4,
        ensures
            executed(*old(self), *final(self), *old(mem), *final(mem), prev_pc, instr),
    {
        let ghost r0 = self.reg;
        let (addr, v): (u16, u8) = match instr {
            Instr::LDH_ia8_r8(a, x) => (0xff00 + a as u16, self.reg.read(x)),
            Instr::LD_ia16_r8(a, x) => (a.0, self.reg.read(x)),
            Instr::LD_ir16_d8(x, v) => (self.reg.read(x), v),
            Instr::LD_ir16_r8(x0, x1) | Instr::LD_iir16_r8(x0, x1) | Instr::LD_dir16_r8(x0, x1) => (
                self.reg.read(x0),
                self.reg.read(x1),
            ),
            Instr::LD_ir8_r8(x0, x1) => {
                let lo = self.reg.read(x0);
                (0xff00 + lo as u16, self.reg.read(x1))
            },
            _ => (0, 0),
        };
        self.write_mem(mem, addr, v);
        match instr {
            Instr::LD_iir16_r8(x0, _) => {
                let hl = self.reg.read(x0);
                self.put16(x0, <ALU as ALUOps<u16>>::inc(hl).0);
            },
            Instr::LD_dir16_r8(x0, _) => {
                let hl = self.reg.read(x0);
                self.put16(x0, <ALU as ALUOps<u16>>::dec(hl).0);
            },
            _ => {},
        }
        assert(operand_ok(old(mem).spec_bus(), r0, instr, 0) && self.reg == exec_reg(r0, instr, 0)
            && store_ok(mem.spec_bus(), r0, instr, 0));
    }
}


/// 16-bit register arithmetic and moves.
pub open spec fn is_arith16(i: Instr) -> bool {
    match i {
        Instr::ADD_r16_r16(_, _) | Instr::ADD_r16_r8(_, _) | Instr::DEC_r16(_) | Instr::INC_r16(_)
        | Instr::LD_r16_r16(_, _) | Instr::LD_r16_r16_r8(_, _, _) => true,
        _ => false,
    }
}

/// Jumps, calls and restarts.
pub open spec fn is_jump(i: Instr) -> bool {
    match i {
        Instr::CALL_COND_a16(_, _) | Instr::CALL_a16(_) | Instr::JP_COND_a16(_, _) | Instr::JP_a16(_)
        | Instr::JR_COND_r8(_, _) | Instr::JR_r8(_) | Instr::RST_LIT(_) => true,
        _ => false,
    }
}

/// Pushes, pops, returns and the 16-bit store.
pub open spec fn is_stack(i: Instr) -> bool {
    match i {
        Instr::POP_r16(_) | Instr::PUSH_r16(_) | Instr::RET | Instr::RETI | Instr::RET_COND(_)
        | Instr::LD_ia16_r16(_, _) => true,
        _ => false,
    }
}

/// A signed offset as the 16-bit value that adds it modulo 2^16.
fn sext16(x: i8) -> (r: u16)
    ensures
        r == sext(x),
{
    if x >= 0 {
        x as u16
    } else {
        (x as i32 + 65536) as u16
    }
}

impl CPU {
    /// Stores a 16-bit value little-endian at `addr` and `addr + 1`
    /// (wrapping), one machine cycle each.
    fn write16(&mut self, mem: &mut MMU, addr: u16, item: u16)
        requires
            old(mem).wf(),
            old(mem).spec_bus().spec_time() <= u64::MAX - 8,
        ensures
            final(mem).wf(),
            is_plain(addr) && is_plain(inc16(addr)) ==> final(mem).spec_bus().plain_at(addr) == low(
                item,
            ) && final(mem).spec_bus().plain_at(inc16(addr)) == item / 256,
            final(mem).spec_bus().spec_time() == old(mem).spec_bus().spec_time() + 2 * old(mem).spec_bus().spec_mult(),
            final(mem).spec_bus().spec_double_speed() == old(mem).spec_bus().spec_double_speed(),
            stored16(old(mem).spec_bus(), final(mem).spec_bus(), addr, item),
            *final(self) == *old(self),
    {
        let lo = (item % 256) as u8;
        let hi = (item / 256) as u8;
        let next = addr.wrapping_add(1);
        let ghost svbk0 = mem.spec_bus().spec_svbk();
        self.write_mem(mem, addr, lo);
        proof {
            if is_plain(addr) && is_plain(next) && is_wram(addr) && is_wram(next) {
                crate::mmu::lemma_wram_next_distinct(addr, svbk0);
            }
        }
        let ghost bm = mem.spec_bus();
        self.write_mem(mem, next, hi);
        assert(lo == low(item));
        assert(bm.plain_written(&old(mem).spec_bus(), addr, low(item)));
        assert(next == inc16(addr));
        assert(mem.spec_bus().plain_written(&bm, inc16(addr), (item / 256) as u8));
    }

    /// Pushes a register: SP moves down by two and the value is stored
    /// there, low byte first.
    fn push16(&mut self, mem: &mut MMU, v: Reg16)
        requires
            old(self).wf(),
            old(mem).wf(),
            old(mem).spec_bus().spec_time() <= u64::MAX - 8,
        ensures
            final(self).wf(),
            final(self).reg == old(self).reg.with16(Reg16::SP, dec16(dec16(old(self).reg.r16(Reg16::SP)))),
            final(mem).wf(),
            ({
                let a = dec16(dec16(old(self).reg.r16(Reg16::SP)));
                let item = old(self).reg.r16(v);
                &&& is_plain(a) && is_plain(inc16(a)) ==> final(mem).spec_bus().plain_at(a) == low(item)
                    && final(mem).spec_bus().plain_at(inc16(a)) == item / 256
                &&& stored16(old(mem).spec_bus(), final(mem).spec_bus(), a, item)
            }),
            final(mem).spec_bus().spec_time() == old(mem).spec_bus().spec_time() + 2 * old(mem).spec_bus().spec_mult(),
            final(mem).spec_bus().spec_double_speed() == old(mem).spec_bus().spec_double_speed(),
            final(self).halted == old(self).halted,
            final(self).dead == old(self).dead,
            final(self).trace == old(self).trace,
            final(self).magic_bp == old(self).magic_bp,
    {
        let item = self.reg.read(v);
        let sp = self.reg.read(Reg16::SP);
        let below = sp.wrapping_sub(2);
        self.put16(Reg16::SP, below);
        self.write16(mem, below, item);
    }

    /// Pops into a register: reads SP and SP + 1 (the low byte first),
    /// writes the register, then moves SP up by two; popping PC takes one
    /// more machine cycle. Returns the value popped.
    fn pop16(&mut self, mem: &mut MMU, t: Reg16) -> (m: u16)
        requires
            old(self).wf(),
            old(mem).wf(),
            old(mem).spec_bus().spec_time() <= u64::MAX - 12,
        ensures
            final(self).wf(),
            final(self).reg == popped(old(self).reg, t, m),
            final(mem).wf(),
            ({
                let sp = old(self).reg.r16(Reg16::SP);
                is_plain(sp) && is_plain(inc16(sp)) ==> m == old(mem).spec_bus().plain_at(sp) + 256
                    * old(mem).spec_bus().plain_at(inc16(sp))
            }),
            final(mem).spec_bus().spec_time() == old(mem).spec_bus().spec_time() + (if t == Reg16::PC {
                3int
            } else {
                2
            }) * old(mem).spec_bus().spec_mult(),
            final(mem).spec_bus().spec_double_speed() == old(mem).spec_bus().spec_double_speed(),
            final(mem).spec_bus().same_plain(&old(mem).spec_bus()),
            final(mem).spec_bus().spec_svbk() == old(mem).spec_bus().spec_svbk(),
            pop_from(*old(mem), old(self).reg.r16(Reg16::SP), m),
            final(self).halted == old(self).halted,
            final(self).dead == old(self).dead,
            final(self).trace == old(self).trace,
            final(self).magic_bp == old(self).magic_bp,
    {
        let sp = self.reg.read(Reg16::SP);
        let lo = self.read_operand(mem, sp);
        let ghost ma = *mem;
        let hi = self.read_operand(mem, sp.wrapping_add(1));
        let m: u16 = lo as u16 + (hi as u16) * 256;
        proof {
            assert(low(m) == lo);
            assert((m / 256) as u8 == hi);
            assert(read_step(ma, *mem, inc16(sp), hi));
            assert(read_from(ma, inc16(sp), (m / 256) as u8));
            assert(read_step(*old(mem), ma, sp, low(m)));
        }
        self.put16(t, m);
        let sp2 = self.reg.read(Reg16::SP);
        self.put16(Reg16::SP, sp2.wrapping_add(2));
        if t == Reg16::PC {
            mem.cycles_passed(1);
        }
        m
    }

    /// Jumps: PC takes the target and one machine cycle passes.
    fn move_pc(&mut self, mem: &mut MMU, v: u16)
        requires
            old(self).wf(),
            old(mem).wf(),
            old(mem).spec_bus().spec_time() <= u64::MAX - 4,
        ensures
            final(self).wf(),
            final(self).reg == old(self).reg.with16(Reg16::PC, v),
            final(mem).wf(),
            final(mem).spec_bus().same_plain(&old(mem).spec_bus()),
            final(mem).spec_bus().spec_svbk() == old(mem).spec_bus().spec_svbk(),
            final(mem).spec_bus().spec_key1() == old(mem).spec_bus().spec_key1(),
            final(mem).spec_bus().spec_time() == old(mem).spec_bus().spec_time() + old(mem).spec_bus().spec_mult(),
            final(self).halted == old(self).halted,
            final(self).dead == old(self).dead,
            final(self).trace == old(self).trace,
            final(self).magic_bp == old(self).magic_bp,
    {
        self.put16(Reg16::PC, v);
        mem.cycles_passed(1);
    }

    #[verifier::spinoff_prover]
    #[verifier::rlimit(60)]
    fn exec_arith16(&mut self, mem: &mut MMU, prev_pc: u16, instr: Instr)
        requires
            old(self).wf(),
            old(mem).wf(),
            is_arith16(instr),
            old(mem).spec_bus().spec_time() <= u64::MAX - 8,
        ensures
            executed(*old(self), *final(self), *old(mem), *final(mem), prev_pc, instr),
    {
        let ghost r0 = self.reg;
        match instr {
            Instr::ADD_r16_r16(x0, x1) => {
                let a = self.reg.read(x0);
                let b = self.reg.read(x1);
                self.alu16(x0, <ALU as ALUOps<u16>>::add(a, b), 0x70);
                mem.cycles_passed(1);
            },
            Instr::ADD_r16_r8(x0, x1) => {
                let base = self.reg.read(x0);
                let (res, _) = <ALU as ALUOps<u16>>::add(base, sext16(x1));
                let (_, flags) = <ALU as ALUOps<u8>>::add((base % 256) as u8, x1 as u8);
                self.alu16(x0, (res, flags & !0xc0u8), 0xf0);
                mem.cycles_passed(2);
            },
            Instr::DEC_r16(x) => {
                let v = self.reg.read(x);
                self.put16(x, <ALU as ALUOps<u16>>::dec(v).0);
                mem.cycles_passed(1);
            },
            Instr::INC_r16(x) => {
                let v = self.reg.read(x);
                self.put16(x, <ALU as ALUOps<u16>>::inc(v).0);
                mem.cycles_passed(1);
            },
            Instr::LD_r16_r16(x0, x1) => {
                let v = self.reg.read(x1);
                self.put16(x0, v);
                mem.cycles_passed(1);
            },
            Instr::LD_r16_r16_r8(x0, x1, x2) => {
                let base = self.reg.read(x1);
                let (res, _) = <ALU as ALUOps<u16>>::add(base, sext16(x2));
                let (_, flags) = <ALU as ALUOps<u8>>::add((base % 256) as u8, x2 as u8);
                self.alu16(x0, (res, flags & !0xc0u8), 0xf0);
                mem.cycles_passed(1);
            },
            _ => {},
        }
        assert(operand_ok(old(mem).spec_bus(), r0, instr, 0) && self.reg == exec_reg(r0, instr, 0)
            && store_ok(mem.spec_bus(), r0, instr, 0));
    }
}


/// A 16-bit store stays as it landed while later bus activity leaves
/// plain memory and SVBK alone.
proof fn lemma_store16_kept(
    b0: crate::mmu::MMUInternal,
    b1: crate::mmu::MMUInternal,
    b2: crate::mmu::MMUInternal,
    r: Registers,
    i: Instr,
    m: u16,
    a: u16,
    w: u16,
)
    requires
        store8(r, i, m) is None,
        store16(r, i) == Some((a, w)),
        stored16(b0, b1, a, w),
        b2.same_plain(&b1),
        b2.spec_svbk() == b1.spec_svbk(),
    ensures
        plain_effect(b0, b2, r, i, m),
{
    let bm = choose|bm: crate::mmu::MMUInternal|
        #[trigger] bm.plain_written(&b0, a, low(w)) && b1.plain_written(&bm, inc16(a), (w / 256) as u8);
    assert(bm.plain_written(&b0, a, low(w)) && b2.plain_written(&bm, inc16(a), (w / 256) as u8));
    assert(stored16(b0, b2, a, w));
}

impl CPU {
    #[verifier::spinoff_prover]
    #[verifier::rlimit(80)]
    fn exec_jump(&mut self, mem: &mut MMU, prev_pc: u16, instr: Instr)
        requires
            old(self).wf(),
            old(mem).wf(),
            is_jump(instr),
            old(mem).spec_bus().spec_time() <= u64::MAX - 16,
        ensures
            executed(*old(self), *final(self), *old(mem), *final(mem), prev_pc, instr),
    {
        let ghost r0 = self.reg;
        match instr {
            Instr::CALL_COND_a16(c, t) => {
                if self.check_flag(c) {
                    self.push16(mem, Reg16::PC);
                    let ghost b1 = mem.spec_bus();
                    self.move_pc(mem, t.0);
                    proof {
                        lemma_store16_kept(old(mem).spec_bus(), b1, mem.spec_bus(), r0, instr, 0, dec16(dec16(r0.r16(Reg16::SP))), r0.r16(Reg16::PC));
                    }
                }
            },
            Instr::CALL_a16(t) => {
                self.push16(mem, Reg16::PC);
                let ghost b1 = mem.spec_bus();
                self.move_pc(mem, t.0);
                proof {
                    lemma_store16_kept(old(mem).spec_bus(), b1, mem.spec_bus(), r0, instr, 0, dec16(dec16(r0.r16(Reg16::SP))), r0.r16(Reg16::PC));
                }
            },
            Instr::RST_LIT(n) => {
                self.push16(mem, Reg16::PC);
                let ghost b1 = mem.spec_bus();
                self.move_pc(mem, n as u16);
                proof {
                    lemma_store16_kept(old(mem).spec_bus(), b1, mem.spec_bus(), r0, instr, 0, dec16(dec16(r0.r16(Reg16::SP))), r0.r16(Reg16::PC));
                }
            },
            Instr::JP_COND_a16(c, t) => {
                if self.check_flag(c) {
                    self.move_pc(mem, t.0);
                }
            },
            Instr::JP_a16(t) => {
                if t.0 == prev_pc {
                    let ie = if self.reg.ime() == 0 {
                        0
                    } else {
                        mem.read_byte_noeffect(IE_ADDR)
                    };
                    proof {
                        mem.spec_bus().lemma_peek_plain(IE_ADDR);
                    }
                    if self.reg.ime() == 0 || ie == 0 {
                        self.dead = true;
                    }
                }
                self.move_pc(mem, t.0);
            },
            Instr::JR_COND_r8(c, o) => {
                if self.check_flag(c) {
                    let pc = self.reg.read(Reg16::PC);
                    let target = <ALU as ALUOps<u16>>::add(pc, sext16(o.0)).0;
                    self.move_pc(mem, target);
                }
            },
            Instr::JR_r8(o) => {
                if o.0 == -2 {
                    let ie = if self.reg.ime() == 0 {
                        0
                    } else {
                        mem.read_byte_noeffect(IE_ADDR)
                    };
                    proof {
                        mem.spec_bus().lemma_peek_plain(IE_ADDR);
                    }
                    if self.reg.ime() == 0 || ie == 0 {
                        self.dead = true;
                    }
                }
                let pc = self.reg.read(Reg16::PC);
                let target = <ALU as ALUOps<u16>>::add(pc, sext16(o.0)).0;
                self.move_pc(mem, target);
            },
            _ => {},
        }
        assert(operand_ok(old(mem).spec_bus(), r0, instr, 0) && self.reg == exec_reg(r0, instr, 0)
            && store_ok(mem.spec_bus(), r0, instr, 0) && plain_effect(old(mem).spec_bus(), mem.spec_bus(), r0, instr, 0));
    }

    #[verifier::spinoff_prover]
    #[verifier::rlimit(80)]
    fn exec_stack(&mut self, mem: &mut MMU, prev_pc: u16, instr: Instr)
        requires
            old(self).wf(),
            old(mem).wf(),
            is_stack(instr),
            old(mem).spec_bus().spec_time() <= u64::MAX - 16,
        ensures
            executed(*old(self), *final(self), *old(mem), *final(mem), prev_pc, instr),
    {
        let ghost r0 = self.reg;
        let mut m: u16 = 0;
        match instr {
            Instr::POP_r16(x) => {
                m = self.pop16(mem, x);
            },
            Instr::PUSH_r16(x) => {
                self.push16(mem, x);
                let ghost b1 = mem.spec_bus();
                mem.cycles_passed(1);
                proof {
                    lemma_store16_kept(old(mem).spec_bus(), b1, mem.spec_bus(), r0, instr, 0, dec16(dec16(r0.r16(Reg16::SP))), r0.r16(x));
                }
            },
            Instr::RET => {
                m = self.pop16(mem, Reg16::PC);
            },
            Instr::RETI => {
                m = self.pop16(mem, Reg16::PC);
                self.set_ime(1);
            },
            Instr::RET_COND(c) => {
                mem.cycles_passed(1);
                let ghost mc = *mem;
                if self.check_flag(c) {
                    m = self.pop16(mem, Reg16::PC);
                    assert(idle_cycle(*old(mem), mc) && pop_from(mc, r0.r16(Reg16::SP), m));
                }
            },
            Instr::LD_ia16_r16(a, x) => {
                let v = self.reg.read(x);
                self.write16(mem, a.0, v);
            },
            _ => {},
        }
        assert(operand_ok(old(mem).spec_bus(), r0, instr, m) && self.reg == exec_reg(r0, instr, m)
            && store_ok(mem.spec_bus(), r0, instr, m) && plain_effect(old(mem).spec_bus(), mem.spec_bus(), r0, instr, m));
    }
}


/// The lowest pending interrupt among the five sources (0 = V-blank ..
/// 4 = joypad), if any.
pub open spec fn irq_index(ints: u8) -> int {
    if ints & 1 != 0 {
        0
    } else if ints & 2 != 0 {
        1
    } else if ints & 4 != 0 {
        2
    } else if ints & 8 != 0 {
        3
    } else {
        4
    }
}

/// What handling interrupts does before an instruction: with one requested,
/// enabled and allowed (IME), the CPU calls its vector (clearing IME) and
/// wakes; otherwise the registers stay and the CPU stays halted only while
/// nothing is requested and enabled, and the bus is untouched.
pub open spec fn interrupts_handled(c0: CPU, m0: MMU, c1: CPU, m1: MMU) -> bool {
    let iflag = m0.spec_bus().spec_if();
    let ie = m0.spec_bus().spec_ie();
    let r = c0.spec_reg();
    &&& c1.wf()
    &&& m1.wf()
    &&& c1.spec_dead() == c0.spec_dead()
    &&& c1.spec_trace() == c0.spec_trace()
    &&& c1.spec_magic_bp() == c0.spec_magic_bp()
    &&& m1.spec_bus().spec_double_speed() == m0.spec_bus().spec_double_speed()
    &&& m0.spec_bus().spec_time() <= m1.spec_bus().spec_time() <= m0.spec_bus().spec_time() + 6
    &&& if irq_pending(iflag, ie) && r.spec_ime() != 0 {
        let n = irq_index(iflag & ie);
        &&& c1.spec_reg() == called(r.with_ime(0), (0x40 + 8 * n) as u16)
        &&& !c1.spec_halted()
    } else {
        &&& c1.spec_reg() == r
        &&& c1.spec_halted() == (c0.spec_halted() && iflag & ie == 0)
        &&& m1 == m0
    }
}

/// One read of the byte at `addr`: `b` is what the bus shows there once its
/// devices caught up, one memory cycle later; plain memory is untouched.
pub open spec fn read_step(m0: MMU, m1: MMU, addr: u16, b: u8) -> bool {
    &&& m1.wf()
    &&& b == m1.spec_bus().spec_peek(addr)
    &&& m1.spec_bus().spec_time() == m0.spec_bus().spec_time() + m0.spec_bus().spec_mult()
    &&& m1.spec_bus().same_plain(&m0.spec_bus())
    &&& m1.spec_bus().spec_svbk() == m0.spec_bus().spec_svbk()
    &&& m1.spec_bus().spec_key1() == m0.spec_bus().spec_key1()
    &&& m1.spec_bus().spec_bios_exists() == m0.spec_bus().spec_bios_exists()
}

/// Fetching an instruction at `pc`: `bytes` are read one after another
/// (the bus going through `states`, from `m0` to `m1`) until they decode.
pub open spec fn fetch_ok(m0: MMU, m1: MMU, pc: u16, bytes: Seq<u8>, states: Seq<MMU>) -> bool {
    &&& 1 <= bytes.len() <= 3
    &&& states.len() == bytes.len() + 1
    &&& states[0] == m0
    &&& states[bytes.len() as int] == m1
    &&& forall|k: int| 0 <= k < bytes.len() ==> read_step(#[trigger] states[k], states[k + 1], ((pc + k) % 65536) as u16, bytes[k])
    &&& spec_decode(bytes) is Some
    &&& forall|k: int| 1 <= k < bytes.len() ==> spec_decode(#[trigger] bytes.take(k)) is None
}

/// Running a CPU that is not halted: fetch the instruction at PC, move PC
/// past it, and execute it; an undefined opcode stops the CPU for good.
pub open spec fn fetch_execute(c0: CPU, m0: MMU, c1: CPU, m1: MMU) -> bool {
    exists|bytes: Seq<u8>, states: Seq<MMU>, mf: MMU|
        #![trigger fetch_ok(m0, mf, c0.spec_reg().r16(Reg16::PC), bytes, states)]
        {
            let pc = c0.spec_reg().r16(Reg16::PC);
            let instr = spec_decode(bytes)->0;
            let cf = c0.with_pc(((pc + bytes.len()) % 65536) as u16);
            &&& fetch_ok(m0, mf, pc, bytes, states)
            &&& if executable(instr) {
                executed(cf, c1, mf, m1, pc, instr)
            } else {
                &&& c1 == cf.stopped()
                &&& m1 == mf
            }
        }
}

/// One memory cycle passing with nothing read or written.
pub open spec fn idle_cycle(m0: MMU, m1: MMU) -> bool {
    &&& m1.wf()
    &&& m1.spec_bus().spec_time() == m0.spec_bus().spec_time() + m0.spec_bus().spec_mult()
    &&& m1.spec_bus().same_plain(&m0.spec_bus())
    &&& m1.spec_bus().spec_svbk() == m0.spec_bus().spec_svbk()
    &&& m1.spec_bus().spec_key1() == m0.spec_bus().spec_key1()
    &&& m1.spec_bus().spec_bios_exists() == m0.spec_bus().spec_bios_exists()
}

/// Whether an interrupt is both requested (IF) and enabled (IE) among the
/// five sources.
pub open spec fn irq_pending(iflag: u8, ie: u8) -> bool {
    (iflag & ie) & 0x1f != 0
}

impl CPU {
    /// Executes one decoded instruction (fetched at `prev_pc`, with PC
    /// already past it).
    pub fn execute_instr(&mut self, mem: &mut MMU, prev_pc: u16, instr: Instr)
        requires
            old(self).wf(),
            old(mem).wf(),
            executable(instr),
            old(mem).spec_bus().spec_time() <= u64::MAX - crate::mmu::TIME_HEADROOM,
        ensures
            executed(*old(self), *final(self), *old(mem), *final(mem), prev_pc, instr),
    {
        match instr {
            Instr::ADC_r8_d8(_) | Instr::ADC_r8_r8(_) | Instr::ADD_r8_d8(_, _) | Instr::ADD_r8_r8(_, _)
            | Instr::AND_d8(_) | Instr::AND_r8(_) | Instr::BIT_l8_r8(_, _) | Instr::CCF | Instr::CPL
            | Instr::CP_d8(_) | Instr::CP_r8(_) | Instr::DAA | Instr::DEC_r8(_) | Instr::DI
            | Instr::EI | Instr::HALT | Instr::INC_r8(_) | Instr::JP_r16(_) | Instr::LD_r16_d16(_, _)
            | Instr::LD_r8_d8(_, _) | Instr::LD_r8_r8(_, _) | Instr::NOP | Instr::OR_d8(_)
            | Instr::OR_r8(_) | Instr::RES_l8_r8(_, _) | Instr::RLA | Instr::RLCA | Instr::RRA
            | Instr::RRCA | Instr::SBC_r8_d8(_) | Instr::SBC_r8_r8(_) | Instr::SCF
            | Instr::SET_l8_r8(_, _) | Instr::SUB_d8(_) | Instr::SUB_r8(_) | Instr::XOR_d8(_)
            | Instr::XOR_r8(_) | Instr::RLC_r8(_) | Instr::RL_r8(_) | Instr::RRC_r8(_)
            | Instr::RR_r8(_) | Instr::SLA_r8(_) | Instr::SRA_r8(_) | Instr::SRL_r8(_)
            | Instr::SWAP_r8(_) | Instr::STOP => self.exec_simple(mem, prev_pc, instr),
            Instr::ADC_r8_ir16(_) | Instr::ADD_r8_ir16(_, _) | Instr::AND_ir16(_) | Instr::CP_ir16(_)
            | Instr::OR_ir16(_) | Instr::SBC_r8_ir16(_) | Instr::SUB_ir16(_) | Instr::XOR_ir16(_)
            | Instr::BIT_l8_ir16(_, _) | Instr::LDH_r8_ia8(_, _) | Instr::LD_r8_ia16(_, _)
            | Instr::LD_r8_ir16(_, _) | Instr::LD_r8_iir16(_, _) | Instr::LD_r8_dir16(_, _)
            | Instr::LD_r8_ir8(_, _) => self.exec_mem_read(mem, prev_pc, instr),
            Instr::DEC_ir16(_) | Instr::INC_ir16(_) | Instr::RES_l8_ir16(_, _)
            | Instr::SET_l8_ir16(_, _) | Instr::RLC_ir16(_) | Instr::RL_ir16(_) | Instr::RRC_ir16(_)
            | Instr::RR_ir16(_) | Instr::SLA_ir16(_) | Instr::SRA_ir16(_) | Instr::SRL_ir16(_)
            | Instr::SWAP_ir16(_) => self.exec_mem_rmw(mem, prev_pc, instr),
            Instr::LDH_ia8_r8(_, _) | Instr::LD_ia16_r8(_, _) | Instr::LD_ir16_d8(_, _)
            | Instr::LD_ir16_r8(_, _) | Instr::LD_iir16_r8(_, _) | Instr::LD_dir16_r8(_, _)
            | Instr::LD_ir8_r8(_, _) => self.exec_mem_store(mem, prev_pc, instr),
            Instr::ADD_r16_r16(_, _) | Instr::ADD_r16_r8(_, _) | Instr::DEC_r16(_) | Instr::INC_r16(_)
            | Instr::LD_r16_r16(_, _) | Instr::LD_r16_r16_r8(_, _, _) => self.exec_arith16(mem, prev_pc, instr),
            Instr::CALL_COND_a16(_, _) | Instr::CALL_a16(_) | Instr::JP_COND_a16(_, _)
            | Instr::JP_a16(_) | Instr::JR_COND_r8(_, _) | Instr::JR_r8(_) | Instr::RST_LIT(_) => self.exec_jump(mem, prev_pc, instr),
            Instr::POP_r16(_) | Instr::PUSH_r16(_) | Instr::RET | Instr::RETI | Instr::RET_COND(_)
            | Instr::LD_ia16_r16(_, _) => self.exec_stack(mem, prev_pc, instr),
            Instr::INVALID(_) => {},
        }
    }

    /// Dispatches the lowest pending interrupt that IE enables when the
    /// master enable is on: clears it in IF, turns the master enable off,
    /// pushes PC and jumps to its vector (0x40 + 8 * source); a pending
    /// interrupt also ends a halt.
    pub fn manage_interrupt(&mut self, mem: &mut MMU)
        requires
            old(self).wf(),
            old(mem).wf(),
            old(mem).spec_bus().spec_time() <= u64::MAX - 16,
        ensures
            interrupts_handled(*old(self), *old(mem), *final(self), *final(mem)),
    {
        let iflag = mem.read_byte_noeffect(IF_ADDR);
        let ienable = mem.read_byte_noeffect(IE_ADDR);
        proof {
            mem.spec_bus().lemma_peek_plain(IE_ADDR);
            mem.spec_bus().lemma_peek_if();
        }
        let interrupt = iflag & ienable;
        assert(interrupt & 0x1f != 0 ==> interrupt != 0) by (bit_vector);
        if interrupt == 0 {
        } else if self.reg.ime() != 0 && interrupt & 0x1f != 0 {
            self.set_ime(0);
            let n: u8 = if interrupt & 1 != 0 {
                0
            } else if interrupt & 2 != 0 {
                1
            } else if interrupt & 4 != 0 {
                2
            } else if interrupt & 8 != 0 {
                3
            } else {
                4
            };
            let addr: u16 = 0x40 + 8 * n as u16;
            mem.write_byte_noeffect(IF_ADDR, iflag & !(1u8 << n));
            self.push16(mem, Reg16::PC);
            self.move_pc(mem, addr);
            self.halted = false;
        } else if self.halted {
            self.halted = false;
        }
    }
}


fn is_executable(i: Instr) -> (r: bool)
    ensures
        r == executable(i),
{
    match i {
        Instr::INVALID(_) => false,
        Instr::BIT_l8_ir16(n, _) | Instr::BIT_l8_r8(n, _) | Instr::RES_l8_ir16(n, _)
        | Instr::RES_l8_r8(n, _) | Instr::SET_l8_ir16(n, _) | Instr::SET_l8_r8(n, _) => n < 8,
        _ => true,
    }
}

impl CPU {
    /// Puts the machine in the state the boot ROM leaves it in: boot ROM
    /// unmapped, BC = 0x0013, DE = 0x00D8, HL = 0x014D, SP = 0xFFFE,
    /// PC = 0x0100, F = 0, A = 0x01 (0x11 on colour hardware), and the sound
    /// and LCD registers set up.
    pub fn initialize(&mut self, cgb: CGBStatus, mem: &mut MMU)
        requires
            old(self).wf(),
            old(mem).wf(),
        ensures
            final(self).wf(),
            final(mem).wf(),
            !final(mem).spec_bus().spec_bios_exists(),
            final(self).spec_reg().r16(Reg16::BC) == 0x0013,
            final(self).spec_reg().r16(Reg16::DE) == 0x00d8,
            final(self).spec_reg().r16(Reg16::HL) == 0x014d,
            final(self).spec_reg().r16(Reg16::SP) == 0xfffe,
            final(self).spec_reg().r16(Reg16::PC) == 0x0100,
            final(self).spec_reg().r8(Reg8::F) == 0,
            final(self).spec_reg().r8(Reg8::A) == (match cgb {
                CGBStatus::GB => 0x01u8,
                _ => 0x11u8,
            }),
            final(self).spec_reg().spec_ime() == old(self).spec_reg().spec_ime(),
            final(self).spec_halted() == old(self).spec_halted(),
            final(self).spec_dead() == old(self).spec_dead(),
            final(self).spec_trace() == old(self).spec_trace(),
            final(self).spec_magic_bp() == old(self).spec_magic_bp(),
            final(mem).spec_bus().spec_time() == old(mem).spec_bus().spec_time(),
    {
        mem.disable_bios();
        let ghost r0 = self.reg;
        self.put16(Reg16::BC, 0x0013);
        let ghost r1 = self.reg;
        self.put16(Reg16::DE, 0x00d8);
        let ghost r2 = self.reg;
        self.put16(Reg16::HL, 0x014d);
        let ghost r3 = self.reg;
        self.put16(Reg16::SP, 0xfffe);
        let ghost r4 = self.reg;
        self.put16(Reg16::PC, 0x0100);
        let ghost r5 = self.reg;
        self.put8(Reg8::F, 0);
        let ghost r6 = self.reg;
        proof {
            assert forall|o: Reg16| o != Reg16::AF implies #[trigger] r6.r16(o) == (match o {
                Reg16::BC => 0x0013u16,
                Reg16::DE => 0x00d8u16,
                Reg16::HL => 0x014du16,
                Reg16::SP => 0xfffeu16,
                _ => 0x0100u16,
            }) by {
                r0.lemma_frame(Reg8::F, 0, Reg16::BC, 0x0013, Reg8::F, o);
                r1.lemma_frame(Reg8::F, 0, Reg16::DE, 0x00d8, Reg8::F, o);
                r2.lemma_frame(Reg8::F, 0, Reg16::HL, 0x014d, Reg8::F, o);
                r3.lemma_frame(Reg8::F, 0, Reg16::SP, 0xfffe, Reg8::F, o);
                r4.lemma_frame(Reg8::F, 0, Reg16::PC, 0x0100, Reg8::F, o);
                r5.lemma_frame(Reg8::F, 0, Reg16::PC, 0, Reg8::F, o);
            }
            r0.lemma_frame(Reg8::F, 0, Reg16::BC, 0x0013, Reg8::F, Reg16::BC);
            r1.lemma_frame(Reg8::F, 0, Reg16::DE, 0x00d8, Reg8::F, Reg16::BC);
            r2.lemma_frame(Reg8::F, 0, Reg16::HL, 0x014d, Reg8::F, Reg16::BC);
            r3.lemma_frame(Reg8::F, 0, Reg16::SP, 0xfffe, Reg8::F, Reg16::BC);
            r4.lemma_frame(Reg8::F, 0, Reg16::PC, 0x0100, Reg8::F, Reg16::BC);
            r5.lemma_frame(Reg8::F, 0, Reg16::PC, 0, Reg8::F, Reg16::BC);
            assert(0u8 & 0xf0u8 == 0) by {
            crate::bits::lemma_byte_masks();
        }
        }
        mem.write_byte_noeffect(0xff24, 0x77);
        mem.write_byte_noeffect(0xff25, 0xf3);
        mem.write_byte_noeffect(0xff26, 0xf1);
        mem.write_byte_noeffect(0xff40, 0x91);
        mem.write_byte_noeffect(0xff47, 0xfc);
        mem.write_byte_noeffect(0xff48, 0xff);
        mem.write_byte_noeffect(0xff49, 0xff);
        let a: u8 = match cgb {
            CGBStatus::GB => 0x01,
            _ => {
                mem.write_byte_noeffect(0xff6c, 0xfe);
                mem.write_byte_noeffect(0xff75, 0x8f);
                0x11
            },
        };
        self.put8(Reg8::A, a);
        proof {
            r6.lemma_frame(Reg8::A, a, Reg16::PC, 0, Reg8::F, Reg16::BC);
            r6.lemma_frame(Reg8::A, a, Reg16::PC, 0, Reg8::F, Reg16::DE);
            r6.lemma_frame(Reg8::A, a, Reg16::PC, 0, Reg8::F, Reg16::HL);
            r6.lemma_frame(Reg8::A, a, Reg16::PC, 0, Reg8::F, Reg16::SP);
            r6.lemma_frame(Reg8::A, a, Reg16::PC, 0, Reg8::F, Reg16::PC);
            r5.lemma_frame(Reg8::F, 0, Reg16::PC, 0, Reg8::F, Reg16::PC);
        }
    }
}


/// What one call of `execute` does: pending interrupts are handled (bus
/// from `m0` to `mi`), then a halted CPU lets one machine cycle pass and a
/// running one fetches and executes the instruction at PC.
pub open spec fn execute_step(c0: CPU, m0: MMU, c1: CPU, m1: MMU) -> bool {
    &&& c1.wf()
    &&& m1.wf()
    &&& c0.spec_dead() ==> c1.spec_dead()
    &&& c1.spec_trace() == c0.spec_trace()
    &&& c1.spec_magic_bp() == c0.spec_magic_bp()
    &&& m0.spec_bus().spec_time() < m1.spec_bus().spec_time() <= m0.spec_bus().spec_time() + 64
    &&& exists|ci: CPU, mi: MMU|
        #![trigger interrupts_handled(c0, m0, ci, mi)]
        {
            &&& interrupts_handled(c0, m0, ci, mi)
            &&& if ci.spec_halted() {
                &&& c1 == ci
                &&& idle_cycle(mi, m1)
            } else {
                fetch_execute(ci, mi, c1, m1)
            }
        }
}

impl CPU {
    /// One step: dispatches a pending interrupt; a halted CPU lets one
    /// machine cycle pass; otherwise the instruction at PC is fetched byte by
    /// byte, PC moves past it and it is executed. An undefined opcode stops
    /// the CPU for good.
    pub fn execute(&mut self, mem: &mut MMU)
        requires
            old(self).wf(),
            old(mem).wf(),
            old(mem).spec_bus().spec_time() <= u64::MAX - 2 * crate::mmu::TIME_HEADROOM,
        ensures
            final(self).wf(),
            final(mem).wf(),
            old(self).spec_dead() ==> final(self).spec_dead(),
            final(self).spec_trace() == old(self).spec_trace(),
            final(self).spec_magic_bp() == old(self).spec_magic_bp(),
            old(mem).spec_bus().spec_time() < final(mem).spec_bus().spec_time() <= old(mem).spec_bus().spec_time() + 64,
            exists|ci: CPU, mi: MMU|
                #![trigger interrupts_handled(*old(self), *old(mem), ci, mi)]
                {
                    &&& interrupts_handled(*old(self), *old(mem), ci, mi)
                    &&& if ci.spec_halted() {
                        &&& *final(self) == ci
                        &&& idle_cycle(mi, *final(mem))
                    } else {
                        fetch_execute(ci, mi, *final(self), *final(mem))
                    }
                },
            execute_step(*old(self), *old(mem), *final(self), *final(mem)),
    {
        self.manage_interrupt(mem);
        let ghost ci = *self;
        let ghost mi = *mem;
        if self.halted {
            mem.cycles_passed(1);
            assert(interrupts_handled(*old(self), *old(mem), ci, mi));
            return;
        }
        let pc = self.reg.read(Reg16::PC);
        let mut d = Disasm::new();
        let mut next_pc = pc;
        let ghost t0 = mem.spec_bus().spec_time();
        let ghost mut bytes: Seq<u8> = Seq::empty();
        let ghost mut states: Seq<MMU> = seq![*mem];
        let mut instr = Instr::NOP;
        loop
            invariant_except_break
                d.wf(),
                d.fed().len() < 3,
                t0 <= mem.spec_bus().spec_time() <= t0 + 2 * d.fed().len(),
                forall|k: int| 1 <= k <= bytes.len() ==> spec_decode(#[trigger] bytes.take(k)) is None,
            invariant
                self.wf(),
                mem.wf(),
                *self == ci,
                !ci.spec_halted(),
                pc == ci.spec_reg().r16(Reg16::PC),
                t0 == mi.spec_bus().spec_time(),
                t0 <= old(mem).spec_bus().spec_time() + 6,
                old(mem).spec_bus().spec_time() <= t0,
                old(mem).spec_bus().spec_time() <= u64::MAX - 2 * crate::mmu::TIME_HEADROOM,
                old(self).spec_dead() ==> self.spec_dead(),
                self.spec_trace() == old(self).spec_trace(),
                self.spec_magic_bp() == old(self).spec_magic_bp(),
                bytes == d.fed(),
                next_pc == ((pc + bytes.len()) % 65536) as u16,
                states.len() == bytes.len() + 1,
                states[0] == mi,
                states[bytes.len() as int] == *mem,
                forall|k: int|
                    0 <= k < bytes.len() ==> read_step(#[trigger] states[k], states[k + 1], ((pc + k) % 65536) as u16, bytes[k]),
            ensures
                self.wf(),
                mem.wf(),
                t0 < mem.spec_bus().spec_time() <= t0 + 6,
                fetch_ok(mi, *mem, pc, bytes, states),
                spec_decode(bytes) == Some(instr),
            decreases 3 - d.fed().len(),
        {
            let ghost prev_bytes = bytes;
            let b = mem.read_byte(next_pc);
            proof {
                bytes = bytes.push(b);
                states = states.push(*mem);
            }
            next_pc = next_pc.wrapping_add(1);
            match d.feed_byte(b) {
                Some(i) => {
                    instr = i;
                    proof {
                        assert forall|k: int| 1 <= k < bytes.len() implies spec_decode(#[trigger] bytes.take(k)) is None by {
                            assert(bytes.take(k) =~= prev_bytes.take(k));
                            assert(spec_decode(prev_bytes.take(k)) is None);
                        }
                    }
                    break;
                },
                None => {
                    proof {
                        assert(bytes =~= d.fed());
                        assert(spec_decode(bytes) is None);
                        assert forall|k: int| 1 <= k <= bytes.len() implies spec_decode(#[trigger] bytes.take(k)) is None by {
                            if k < bytes.len() {
                                assert(bytes.take(k) =~= prev_bytes.take(k));
                                assert(spec_decode(prev_bytes.take(k)) is None);
                            } else {
                                assert(bytes.take(k) =~= bytes);
                            }
                        }
                    }
                },
            }
        }
        let ghost mf = *mem;
        self.put16(Reg16::PC, next_pc);
        let ghost cf = *self;
        assert(cf == ci.with_pc(((pc + bytes.len()) % 65536) as u16));
        if is_executable(instr) {
            self.execute_instr(mem, pc, instr);
        } else {
            self.dead = true;
            assert(*self == cf.stopped());
        }
        assert(fetch_ok(mi, mf, ci.spec_reg().r16(Reg16::PC), bytes, states));
        assert(fetch_execute(ci, mi, *self, *mem));
        assert(interrupts_handled(*old(self), *old(mem), ci, mi));
    }
}

} // verus!
