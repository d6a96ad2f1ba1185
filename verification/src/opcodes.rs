//! The SM83 opcode map, stated by the fields of an opcode byte (x = bits
//! 6-7, y = bits 3-5, z = bits 0-2, p = bits 4-5, q = bit 3), and laws
//! that the decoder follows it.
use crate::instr::{spec_decode, Addr, Instr, RelAddr};
use crate::registers::{Cond, Reg16, Reg8};
use vstd::prelude::*;

verus! {

/// The 8-bit operand numbered `i` in the opcode map: B, C, D, E, H, L,
/// (HL) (given as `None`), A.
pub open spec fn op_r8(i: int) -> Option<Reg8> {
    if i == 0 {
        Some(Reg8::B)
    } else if i == 1 {
        Some(Reg8::C)
    } else if i == 2 {
        Some(Reg8::D)
    } else if i == 3 {
        Some(Reg8::E)
    } else if i == 4 {
        Some(Reg8::H)
    } else if i == 5 {
        Some(Reg8::L)
    } else if i == 6 {
        None
    } else {
        Some(Reg8::A)
    }
}

/// The register pair numbered `p` in loads, increments and 16-bit adds:
/// BC, DE, HL, SP.
pub open spec fn op_rp(p: int) -> Reg16 {
    if p == 0 {
        Reg16::BC
    } else if p == 1 {
        Reg16::DE
    } else if p == 2 {
        Reg16::HL
    } else {
        Reg16::SP
    }
}

/// The register pair numbered `p` in PUSH and POP: BC, DE, HL, AF.
pub open spec fn op_rp2(p: int) -> Reg16 {
    if p == 0 {
        Reg16::BC
    } else if p == 1 {
        Reg16::DE
    } else if p == 2 {
        Reg16::HL
    } else {
        Reg16::AF
    }
}

/// The condition numbered `c`: NZ, Z, NC, C.
pub open spec fn op_cc(c: int) -> Cond {
    if c == 0 {
        Cond::NZ
    } else if c == 1 {
        Cond::Z
    } else if c == 2 {
        Cond::NC
    } else {
        Cond::C
    }
}

/// The eight arithmetic operations of A with an operand (row y of the
/// 0x80..0xBF block): ADD, ADC, SUB, SBC, AND, XOR, OR, CP.
pub open spec fn op_alu(y: int, src: Option<Reg8>) -> Instr {
    match src {
        Some(r) => if y == 0 {
            Instr::ADD_r8_r8(Reg8::A, r)
        } else if y == 1 {
            Instr::ADC_r8_r8(r)
        } else if y == 2 {
            Instr::SUB_r8(r)
        } else if y == 3 {
            Instr::SBC_r8_r8(r)
        } else if y == 4 {
            Instr::AND_r8(r)
        } else if y == 5 {
            Instr::XOR_r8(r)
        } else if y == 6 {
            Instr::OR_r8(r)
        } else {
            Instr::CP_r8(r)
        },
        None => if y == 0 {
            Instr::ADD_r8_ir16(Reg8::A, Reg16::HL)
        } else if y == 1 {
            Instr::ADC_r8_ir16(Reg16::HL)
        } else if y == 2 {
            Instr::SUB_ir16(Reg16::HL)
        } else if y == 3 {
            Instr::SBC_r8_ir16(Reg16::HL)
        } else if y == 4 {
            Instr::AND_ir16(Reg16::HL)
        } else if y == 5 {
            Instr::XOR_ir16(Reg16::HL)
        } else if y == 6 {
            Instr::OR_ir16(Reg16::HL)
        } else {
            Instr::CP_ir16(Reg16::HL)
        },
    }
}

/// The eight rotates and shifts after 0xCB (row y): RLC, RRC, RL, RR, SLA,
/// SRA, SWAP, SRL.
pub open spec fn op_rot(y: int, src: Option<Reg8>) -> Instr {
    match src {
        Some(r) => if y == 0 {
            Instr::RLC_r8(r)
        } else if y == 1 {
            Instr::RRC_r8(r)
        } else if y == 2 {
            Instr::RL_r8(r)
        } else if y == 3 {
            Instr::RR_r8(r)
        } else if y == 4 {
            Instr::SLA_r8(r)
        } else if y == 5 {
            Instr::SRA_r8(r)
        } else if y == 6 {
            Instr::SWAP_r8(r)
        } else {
            Instr::SRL_r8(r)
        },
        None => if y == 0 {
            Instr::RLC_ir16(Reg16::HL)
        } else if y == 1 {
            Instr::RRC_ir16(Reg16::HL)
        } else if y == 2 {
            Instr::RL_ir16(Reg16::HL)
        } else if y == 3 {
            Instr::RR_ir16(Reg16::HL)
        } else if y == 4 {
            Instr::SLA_ir16(Reg16::HL)
        } else if y == 5 {
            Instr::SRA_ir16(Reg16::HL)
        } else if y == 6 {
            Instr::SWAP_ir16(Reg16::HL)
        } else {
            Instr::SRL_ir16(Reg16::HL)
        },
    }
}

/// 0x03, 0x13, 0x23, 0x33 increment and 0x0B, 0x1B, 0x2B, 0x3B decrement
/// the register pair in bits 4-5 (BC, DE, HL, SP), in one byte.
pub proof fn law_decode_inc_dec_pair(op: u8)
    requires
        op < 0x40,
        op % 8 == 3,
    ensures
        spec_decode(seq![op]) == Some(if (op / 8) % 2 == 0 {
            Instr::INC_r16(op_rp((op / 16) as int))
        } else {
            Instr::DEC_r16(op_rp((op / 16) as int))
        }),
{
    assert(seq![op][0] == op);
}

/// z = 4 increments and z = 5 decrements the operand in row y, in one byte.
pub proof fn law_decode_inc_dec_r8(op: u8)
    requires
        op < 0x40,
        op % 8 == 4 || op % 8 == 5,
    ensures
        spec_decode(seq![op]) == Some(match op_r8((op / 8) as int) {
            Some(r) => if op % 8 == 4 {
                Instr::INC_r8(r)
            } else {
                Instr::DEC_r8(r)
            },
            None => if op % 8 == 4 {
                Instr::INC_ir16(Reg16::HL)
            } else {
                Instr::DEC_ir16(Reg16::HL)
            },
        }),
{
    assert(seq![op][0] == op);
}

/// z = 6 loads the next byte into the operand in row y: two bytes.
pub proof fn law_decode_load_immediate(op: u8, n: u8)
    requires
        op < 0x40,
        op % 8 == 6,
    ensures
        spec_decode(seq![op]) is None,
        spec_decode(seq![op, n]) == Some(match op_r8((op / 8) as int) {
            Some(r) => Instr::LD_r8_d8(r, n),
            None => Instr::LD_ir16_d8(Reg16::HL, n),
        }),
{
    assert(seq![op][0] == op);
    assert(seq![op, n][0] == op && seq![op, n][1] == n);
}

/// 0x01, 0x11, 0x21, 0x31 load the next two bytes (low first) into the
/// pair in bits 4-5; 0x09, 0x19, 0x29, 0x39 add that pair to HL.
pub proof fn law_decode_pair_load_add(op: u8, lo: u8, hi: u8)
    requires
        op < 0x40,
        op % 8 == 1,
    ensures
        (op / 8) % 2 == 0 ==> {
            &&& spec_decode(seq![op]) is None
            &&& spec_decode(seq![op, lo]) is None
            &&& spec_decode(seq![op, lo, hi]) == Some(Instr::LD_r16_d16(op_rp((op / 16) as int), (lo + 256 * hi) as u16))
        },
        (op / 8) % 2 == 1 ==> spec_decode(seq![op]) == Some(Instr::ADD_r16_r16(Reg16::HL, op_rp((op / 16) as int))),
{
    assert(seq![op][0] == op);
    assert(seq![op, lo][0] == op);
    assert(seq![op, lo, hi][0] == op && seq![op, lo, hi][1] == lo && seq![op, lo, hi][2] == hi);
}

/// 0x40..0x7F load the operand in the low three bits into the one in the
/// next three, except 0x76, which is HALT.
pub proof fn law_decode_load_block(op: u8)
    requires
        0x40 <= op < 0x80,
    ensures
        spec_decode(seq![op]) == Some(if op == 0x76 {
            Instr::HALT
        } else {
            match (op_r8(((op / 8) % 8) as int), op_r8((op % 8) as int)) {
                (Some(d), Some(s)) => Instr::LD_r8_r8(d, s),
                (Some(d), None) => Instr::LD_r8_ir16(d, Reg16::HL),
                (None, Some(s)) => Instr::LD_ir16_r8(Reg16::HL, s),
                (None, None) => Instr::HALT,
            }
        }),
{
    assert(seq![op][0] == op);
}

/// 0x80..0xBF combine A with the operand in the low three bits by the
/// operation in the next three.
pub proof fn law_decode_alu_block(op: u8)
    requires
        0x80 <= op < 0xc0,
    ensures
        spec_decode(seq![op]) == Some(op_alu(((op / 8) % 8) as int, op_r8((op % 8) as int))),
{
    assert(seq![op][0] == op);
}

/// After 0xCB, a byte picks a rotate/shift (top bits 00, kind in bits
/// 3-5), BIT (01), RES (10) or SET (11) of bit y, on the operand in the low
/// three bits.
pub proof fn law_decode_cb(b: u8)
    ensures
        spec_decode(seq![0xcbu8]) is None,
        spec_decode(seq![0xcbu8, b]) == Some({
            let y = ((b / 8) % 8) as int;
            let src = op_r8((b % 8) as int);
            if b < 0x40 {
                op_rot(y, src)
            } else {
                match src {
                    Some(r) => if b < 0x80 {
                        Instr::BIT_l8_r8(y as u8, r)
                    } else if b < 0xc0 {
                        Instr::RES_l8_r8(y as u8, r)
                    } else {
                        Instr::SET_l8_r8(y as u8, r)
                    },
                    None => if b < 0x80 {
                        Instr::BIT_l8_ir16(y as u8, Reg16::HL)
                    } else if b < 0xc0 {
                        Instr::RES_l8_ir16(y as u8, Reg16::HL)
                    } else {
                        Instr::SET_l8_ir16(y as u8, Reg16::HL)
                    },
                }
            }
        }),
{
    assert(seq![0xcbu8][0] == 0xcb);
    assert(seq![0xcbu8, b][0] == 0xcb && seq![0xcbu8, b][1] == b);
}

/// 0xC1, 0xD1, 0xE1, 0xF1 pop and 0xC5, 0xD5, 0xE5, 0xF5 push the pair in
/// bits 4-5 (BC, DE, HL, AF); z = 7 restarts at y * 8.
pub proof fn law_decode_stack(op: u8)
    requires
        op >= 0xc0,
    ensures
        op % 16 == 1 ==> spec_decode(seq![op]) == Some(Instr::POP_r16(op_rp2(((op / 16) % 4) as int))),
        op % 16 == 5 ==> spec_decode(seq![op]) == Some(Instr::PUSH_r16(op_rp2(((op / 16) % 4) as int))),
        op % 8 == 7 ==> spec_decode(seq![op]) == Some(Instr::RST_LIT((op - 0xc7) as u8)),
{
    assert(seq![op][0] == op);
}

/// The conditional control transfers take condition y (NZ, Z, NC, C):
/// RET cc (z = 0), JP cc,a16 (z = 2) and CALL cc,a16 (z = 4) in rows 0-3
/// of 0xC0..0xFF, and JR cc,r8 in rows 4-7 of 0x00..0x3F (condition y - 4).
pub proof fn law_decode_conditional(op: u8, lo: u8, hi: u8)
    ensures
        0xc0 <= op < 0xe0 && op % 8 == 0 ==> spec_decode(seq![op]) == Some(Instr::RET_COND(op_cc(((op / 8) % 4) as int))),
        0xc0 <= op < 0xe0 && op % 8 == 2 ==> spec_decode(seq![op, lo, hi]) == Some(
            Instr::JP_COND_a16(op_cc(((op / 8) % 4) as int), Addr((lo + 256 * hi) as u16)),
        ),
        0xc0 <= op < 0xe0 && op % 8 == 4 ==> spec_decode(seq![op, lo, hi]) == Some(
            Instr::CALL_COND_a16(op_cc(((op / 8) % 4) as int), Addr((lo + 256 * hi) as u16)),
        ),
        0x20 <= op < 0x40 && op % 8 == 0 ==> spec_decode(seq![op, lo]) == Some(
            Instr::JR_COND_r8(op_cc(((op / 8) % 4) as int), RelAddr(lo as i8)),
        ),
{
    assert(seq![op][0] == op);
    assert(seq![op, lo][0] == op && seq![op, lo][1] == lo);
    assert(seq![op, lo, hi][0] == op && seq![op, lo, hi][1] == lo && seq![op, lo, hi][2] == hi);
}


/// The accumulator and flag operations of row z = 7 in 0x00..0x3F, by y:
/// RLCA, RRCA, RLA, RRA, DAA, CPL, SCF, CCF.
pub proof fn law_decode_accumulator_row(op: u8)
    requires
        op < 0x40,
        op % 8 == 7,
    ensures
        spec_decode(seq![op]) == Some({
            let y = op / 8;
            if y == 0 {
                Instr::RLCA
            } else if y == 1 {
                Instr::RRCA
            } else if y == 2 {
                Instr::RLA
            } else if y == 3 {
                Instr::RRA
            } else if y == 4 {
                Instr::DAA
            } else if y == 5 {
                Instr::CPL
            } else if y == 6 {
                Instr::SCF
            } else {
                Instr::CCF
            }
        }),
{
    assert(seq![op][0] == op);
}

/// z = 2 in 0x00..0x3F moves A through memory: q = 0 stores A, q = 1 loads
/// A, at (BC), (DE), (HL) then HL + 1, (HL) then HL - 1 for p = 0..3.
pub proof fn law_decode_indirect_accumulator(op: u8)
    requires
        op < 0x40,
        op % 8 == 2,
    ensures
        spec_decode(seq![op]) == Some({
            let p = op / 16;
            if (op / 8) % 2 == 0 {
                if p == 0 {
                    Instr::LD_ir16_r8(Reg16::BC, Reg8::A)
                } else if p == 1 {
                    Instr::LD_ir16_r8(Reg16::DE, Reg8::A)
                } else if p == 2 {
                    Instr::LD_iir16_r8(Reg16::HL, Reg8::A)
                } else {
                    Instr::LD_dir16_r8(Reg16::HL, Reg8::A)
                }
            } else {
                if p == 0 {
                    Instr::LD_r8_ir16(Reg8::A, Reg16::BC)
                } else if p == 1 {
                    Instr::LD_r8_ir16(Reg8::A, Reg16::DE)
                } else if p == 2 {
                    Instr::LD_r8_iir16(Reg8::A, Reg16::HL)
                } else {
                    Instr::LD_r8_dir16(Reg8::A, Reg16::HL)
                }
            }
        }),
{
    assert(seq![op][0] == op);
}

/// z = 6 in 0xC0..0xFF combines A with the next byte by operation y (ADD,
/// ADC, SUB, SBC, AND, XOR, OR, CP): two bytes.
pub proof fn law_decode_alu_immediate(op: u8, n: u8)
    requires
        op >= 0xc0,
        op % 8 == 6,
    ensures
        spec_decode(seq![op]) is None,
        spec_decode(seq![op, n]) == Some({
            let y = (op / 8) % 8;
            if y == 0 {
                Instr::ADD_r8_d8(Reg8::A, n)
            } else if y == 1 {
                Instr::ADC_r8_d8(n)
            } else if y == 2 {
                Instr::SUB_d8(n)
            } else if y == 3 {
                Instr::SBC_r8_d8(n)
            } else if y == 4 {
                Instr::AND_d8(n)
            } else if y == 5 {
                Instr::XOR_d8(n)
            } else if y == 6 {
                Instr::OR_d8(n)
            } else {
                Instr::CP_d8(n)
            }
        }),
{
    assert(seq![op][0] == op);
    assert(seq![op, n][0] == op && seq![op, n][1] == n);
}


/// Row z = 0 of 0x00..0x1F: NOP, LD (a16),SP, STOP, JR r8.
pub proof fn law_decode_row0(op: u8, lo: u8, hi: u8)
    requires
        op < 0x20,
        op % 8 == 0,
    ensures
        op == 0x00 ==> spec_decode(seq![op]) == Some(Instr::NOP),
        op == 0x08 ==> spec_decode(seq![op, lo, hi]) == Some(Instr::LD_ia16_r16(Addr((lo + 256 * hi) as u16), Reg16::SP)),
        op == 0x10 ==> spec_decode(seq![op]) == Some(Instr::STOP),
        op == 0x18 ==> spec_decode(seq![op, lo]) == Some(Instr::JR_r8(RelAddr(lo as i8))),
{
    assert(seq![op][0] == op);
    assert(seq![op, lo][0] == op && seq![op, lo][1] == lo);
    assert(seq![op, lo, hi][0] == op && seq![op, lo, hi][1] == lo && seq![op, lo, hi][2] == hi);
}

/// Rows 4-7 of 0xC0..0xFF with z = 0 and z = 2: the high-page and absolute
/// loads of A (y = 4, 6 store and load through 0xFF00 + a8 (z = 0) or
/// 0xFF00 + C (z = 2); y = 5, 7 with z = 2 store and load through a16),
/// ADD SP,r8 (0xE8) and LD HL,SP+r8 (0xF8).
pub proof fn law_decode_high_page(op: u8, lo: u8, hi: u8)
    requires
        0xe0 <= op,
        op % 8 == 0 || op % 8 == 2,
    ensures
        op == 0xe0 ==> spec_decode(seq![op, lo]) == Some(Instr::LDH_ia8_r8(lo, Reg8::A)),
        op == 0xf0 ==> spec_decode(seq![op, lo]) == Some(Instr::LDH_r8_ia8(Reg8::A, lo)),
        op == 0xe8 ==> spec_decode(seq![op, lo]) == Some(Instr::ADD_r16_r8(Reg16::SP, lo as i8)),
        op == 0xf8 ==> spec_decode(seq![op, lo]) == Some(Instr::LD_r16_r16_r8(Reg16::HL, Reg16::SP, lo as i8)),
        op == 0xe2 ==> spec_decode(seq![op]) == Some(Instr::LD_ir8_r8(Reg8::C, Reg8::A)),
        op == 0xf2 ==> spec_decode(seq![op]) == Some(Instr::LD_r8_ir8(Reg8::A, Reg8::C)),
        op == 0xea ==> spec_decode(seq![op, lo, hi]) == Some(Instr::LD_ia16_r8(Addr((lo + 256 * hi) as u16), Reg8::A)),
        op == 0xfa ==> spec_decode(seq![op, lo, hi]) == Some(Instr::LD_r8_ia16(Reg8::A, Addr((lo + 256 * hi) as u16))),
{
    assert(seq![op][0] == op);
    assert(seq![op, lo][0] == op && seq![op, lo][1] == lo);
    assert(seq![op, lo, hi][0] == op && seq![op, lo, hi][1] == lo && seq![op, lo, hi][2] == hi);
}

/// The remaining control and interrupt opcodes of 0xC0..0xFF: z = 1, q = 1
/// gives RET, RETI, JP (HL), LD SP,HL; z = 3 gives JP a16 (y = 0), DI
/// (y = 6), EI (y = 7); 0xCD is CALL a16; the eleven holes of the map
/// decode as undefined.
pub proof fn law_decode_control(op: u8, lo: u8, hi: u8)
    requires
        op >= 0xc0,
    ensures
        op % 16 == 9 ==> spec_decode(seq![op]) == Some({
            let p = (op / 16) % 4;
            if p == 0 {
                Instr::RET
            } else if p == 1 {
                Instr::RETI
            } else if p == 2 {
                Instr::JP_r16(Reg16::HL)
            } else {
                Instr::LD_r16_r16(Reg16::SP, Reg16::HL)
            }
        }),
        op == 0xc3 ==> spec_decode(seq![op, lo, hi]) == Some(Instr::JP_a16(Addr((lo + 256 * hi) as u16))),
        op == 0xcd ==> spec_decode(seq![op, lo, hi]) == Some(Instr::CALL_a16(Addr((lo + 256 * hi) as u16))),
        op == 0xf3 ==> spec_decode(seq![op]) == Some(Instr::DI),
        op == 0xfb ==> spec_decode(seq![op]) == Some(Instr::EI),
        (op == 0xd3 || op == 0xdb || op == 0xdd || op == 0xe3 || op == 0xe4 || op == 0xeb || op == 0xec
            || op == 0xed || op == 0xf4 || op == 0xfc || op == 0xfd) ==> spec_decode(seq![op]) == Some(Instr::INVALID(op)),
{
    assert(seq![op][0] == op);
    assert(seq![op, lo, hi][0] == op && seq![op, lo, hi][1] == lo && seq![op, lo, hi][2] == hi);
}

} // verus!
