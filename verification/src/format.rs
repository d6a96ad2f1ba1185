//! The assembler text of instructions and their operands, as the
//! disassembler prints them.
use crate::instr::{spec_decode, Addr, Disasm, Instr, RelAddr};
use crate::mmu::{MMUInternal, MMU};
use crate::registers::{Cond, Reg16, Reg8};
use vstd::prelude::*;
use vstd::string::*;

verus! {

/// A lowercase hexadecimal digit.
pub open spec fn hex_digit(d: int) -> Seq<char> {
    if d == 0 {
        "0"@
    } else if d == 1 {
        "1"@
    } else if d == 2 {
        "2"@
    } else if d == 3 {
        "3"@
    } else if d == 4 {
        "4"@
    } else if d == 5 {
        "5"@
    } else if d == 6 {
        "6"@
    } else if d == 7 {
        "7"@
    } else if d == 8 {
        "8"@
    } else if d == 9 {
        "9"@
    } else if d == 10 {
        "a"@
    } else if d == 11 {
        "b"@
    } else if d == 12 {
        "c"@
    } else if d == 13 {
        "d"@
    } else if d == 14 {
        "e"@
    } else {
        "f"@
    }
}

/// Two hexadecimal digits of a byte.
pub open spec fn hex2(b: u8) -> Seq<char> {
    hex_digit((b / 16) as int) + hex_digit((b % 16) as int)
}

/// Four hexadecimal digits of a word.
pub open spec fn hex4(w: u16) -> Seq<char> {
    hex2((w / 256) as u8) + hex2((w % 256) as u8)
}

pub open spec fn u8_text(x: u8) -> Seq<char> {
    "$"@ + hex2(x)
}

/// A signed byte is shown as its two's complement.
pub open spec fn i8_text(x: i8) -> Seq<char> {
    "$"@ + hex2((if x < 0 { x + 256 } else { x as int }) as u8)
}

pub open spec fn u16_text(x: u16) -> Seq<char> {
    "$"@ + hex4(x)
}

pub open spec fn reg8_text(r: Reg8) -> Seq<char> {
    match r {
        Reg8::A => "A"@,
        Reg8::F => "F"@,
        Reg8::B => "B"@,
        Reg8::C => "C"@,
        Reg8::D => "D"@,
        Reg8::E => "E"@,
        Reg8::H => "H"@,
        Reg8::L => "L"@,
    }
}

pub open spec fn reg16_text(r: Reg16) -> Seq<char> {
    match r {
        Reg16::AF => "AF"@,
        Reg16::BC => "BC"@,
        Reg16::DE => "DE"@,
        Reg16::HL => "HL"@,
        Reg16::SP => "SP"@,
        Reg16::PC => "PC"@,
    }
}

pub open spec fn cond_text(c: Cond) -> Seq<char> {
    match c {
        Cond::Z => "z"@,
        Cond::NZ => "nz"@,
        Cond::C => "c"@,
        Cond::NC => "nc"@,
    }
}

/// The destination of an 8-bit arithmetic instruction: nothing for A,
/// otherwise the register and a comma.
pub open spec fn omit_a_text(r: Reg8) -> Seq<char> {
    if r == Reg8::A {
        Seq::empty()
    } else {
        reg8_text(r) + ","@
    }
}

/// Names for addresses, as plain values: the first entry for an address
/// names it.
pub open spec fn names_view(names: Seq<(u16, String)>) -> Seq<(u16, Seq<char>)> {
    names.map_values(|p: (u16, String)| (p.0, p.1@))
}

/// The name the table gives an address, if any.
pub open spec fn name_of(names: Seq<(u16, Seq<char>)>, a: u16) -> Option<Seq<char>>
    decreases names.len(),
{
    if names.len() == 0 {
        None
    } else if names[0].0 == a {
        Some(names[0].1)
    } else {
        name_of(names.drop_first(), a)
    }
}

/// An absolute address: its name, else four hex digits.
pub open spec fn addr_text(a: u16, names: Seq<(u16, Seq<char>)>) -> Seq<char> {
    match name_of(names, a) {
        Some(s) => s,
        None => u16_text(a),
    }
}

/// Where a relative jump that ends at `end` goes: the offset counts from
/// the byte before `end`.
pub open spec fn rel_target(o: i8, end: u16) -> u16 {
    ((end + 65535 + o) % 65536) as u16
}

/// A relative jump: the target's name, else the offset with its sign.
pub open spec fn rel_text(o: i8, end: u16, names: Seq<(u16, Seq<char>)>) -> Seq<char> {
    match name_of(names, rel_target(o, end)) {
        Some(s) => s,
        None => if o >= 0 {
            "$"@ + hex2(o as u8)
        } else {
            "-$"@ + hex2((-o) as u8)
        },
    }
}

/// The assembler text of an instruction that ends at `end`.
pub open spec fn instr_code(i: Instr, end: u16, names: Seq<(u16, Seq<char>)>) -> Seq<char> {
    match i {
        Instr::ADC_r8_d8(x1) => "ADC "@ + u8_text(x1),
        Instr::ADC_r8_ir16(x1) => "ADC ("@ + reg16_text(x1) + ")"@,
        Instr::ADC_r8_r8(x1) => "ADC "@ + reg8_text(x1),
        Instr::ADD_r16_r16(x0, x1) => "ADD "@ + reg16_text(x0) + ","@ + reg16_text(x1),
        Instr::ADD_r16_r8(x0, x1) => "ADD "@ + reg16_text(x0) + ","@ + i8_text(x1),
        Instr::ADD_r8_d8(x0, x1) => "ADD "@ + omit_a_text(x0) + " "@ + u8_text(x1),
        Instr::ADD_r8_ir16(x0, x1) => "ADD "@ + omit_a_text(x0) + " ("@ + reg16_text(x1) + ")"@,
        Instr::ADD_r8_r8(x0, x1) => "ADD "@ + omit_a_text(x0) + " "@ + reg8_text(x1),
        Instr::AND_d8(x0) => "AND "@ + u8_text(x0),
        Instr::AND_ir16(x0) => "AND ("@ + reg16_text(x0) + ")"@,
        Instr::AND_r8(x0) => "AND "@ + reg8_text(x0),
        Instr::CALL_COND_a16(x0, x1) => "CALL "@ + cond_text(x0) + ","@ + addr_text(x1.0, names),
        Instr::CALL_a16(x0) => "CALL "@ + addr_text(x0.0, names),
        Instr::CCF => "CCF"@,
        Instr::CPL => "CPL"@,
        Instr::CP_d8(x0) => "CP "@ + u8_text(x0),
        Instr::CP_ir16(x0) => "CP ("@ + reg16_text(x0) + ")"@,
        Instr::CP_r8(x0) => "CP "@ + reg8_text(x0),
        Instr::DAA => "DAA"@,
        Instr::DEC_ir16(x0) => "DEC ("@ + reg16_text(x0) + ")"@,
        Instr::DEC_r16(x0) => "DEC "@ + reg16_text(x0),
        Instr::DEC_r8(x0) => "DEC "@ + reg8_text(x0),
        Instr::DI => "DI"@,
        Instr::EI => "EI"@,
        Instr::HALT => "HALT"@,
        Instr::INC_ir16(x0) => "INC ("@ + reg16_text(x0) + ")"@,
        Instr::INC_r16(x0) => "INC "@ + reg16_text(x0),
        Instr::INC_r8(x0) => "INC "@ + reg8_text(x0),
        Instr::INVALID(x0) => ".db "@ + u8_text(x0),
        Instr::JP_COND_a16(x0, x1) => "JP "@ + cond_text(x0) + ","@ + addr_text(x1.0, names),
        Instr::JP_a16(x0) => "JP "@ + addr_text(x0.0, names),
        Instr::JP_r16(x0) => "JP "@ + reg16_text(x0),
        Instr::JR_COND_r8(x0, x1) => "JR "@ + cond_text(x0) + ","@ + rel_text(x1.0, end, names),
        Instr::JR_r8(x0) => "JR "@ + rel_text(x0.0, end, names),
        Instr::LDH_ia8_r8(x0, x1) => "LDH ("@ + u8_text(x0) + "),"@ + reg8_text(x1),
        Instr::LDH_r8_ia8(x0, x1) => "LDH "@ + reg8_text(x0) + ",("@ + u8_text(x1) + ")"@,
        Instr::LD_ia16_r16(x0, x1) => "LD ("@ + addr_text(x0.0, names) + "),"@ + reg16_text(x1),
        Instr::LD_ia16_r8(x0, x1) => "LD ("@ + addr_text(x0.0, names) + "),"@ + reg8_text(x1),
        Instr::LD_ir16_d8(x0, x1) => "LD ("@ + reg16_text(x0) + "),"@ + u8_text(x1),
        Instr::LD_ir16_r8(x0, x1) => "LD ("@ + reg16_text(x0) + "),"@ + reg8_text(x1),
        Instr::LD_iir16_r8(x0, x1) => "LD ("@ + reg16_text(x0) + "+),"@ + reg8_text(x1),
        Instr::LD_dir16_r8(x0, x1) => "LD ("@ + reg16_text(x0) + "-),"@ + reg8_text(x1),
        Instr::LD_ir8_r8(x0, x1) => "LD ($FF00 + "@ + reg8_text(x0) + "),"@ + reg8_text(x1),
        Instr::LD_r16_d16(x0, x1) => "LD "@ + reg16_text(x0) + ","@ + u16_text(x1),
        Instr::LD_r16_r16(x0, x1) => "LD "@ + reg16_text(x0) + ","@ + reg16_text(x1),
        Instr::LD_r16_r16_r8(x0, x1, x2) => "LD "@ + reg16_text(x0) + ","@ + reg16_text(x1) + ","@ + i8_text(x2),
        Instr::LD_r8_d8(x0, x1) => "LD "@ + reg8_text(x0) + ","@ + u8_text(x1),
        Instr::LD_r8_ia16(x0, x1) => "LD "@ + reg8_text(x0) + ",("@ + addr_text(x1.0, names) + ")"@,
        Instr::LD_r8_ir16(x0, x1) => "LD "@ + reg8_text(x0) + ",("@ + reg16_text(x1) + ")"@,
        Instr::LD_r8_iir16(x0, x1) => "LD "@ + reg8_text(x0) + ",("@ + reg16_text(x1) + "+)"@,
        Instr::LD_r8_dir16(x0, x1) => "LD "@ + reg8_text(x0) + ",("@ + reg16_text(x1) + "-)"@,
        Instr::LD_r8_ir8(x0, x1) => "LD "@ + reg8_text(x0) + ",($FF00 + "@ + reg8_text(x1) + ")"@,
        Instr::LD_r8_r8(x0, x1) => "LD "@ + reg8_text(x0) + ","@ + reg8_text(x1),
        Instr::NOP => "NOP"@,
        Instr::OR_d8(x0) => "OR "@ + u8_text(x0),
        Instr::OR_ir16(x0) => "OR ("@ + reg16_text(x0) + ")"@,
        Instr::OR_r8(x0) => "OR "@ + reg8_text(x0),
        Instr::POP_r16(x0) => "POP "@ + reg16_text(x0),
        Instr::PUSH_r16(x0) => "PUSH "@ + reg16_text(x0),
        Instr::RET => "RET"@,
        Instr::RETI => "RETI"@,
        Instr::RET_COND(x0) => "RET "@ + cond_text(x0),
        Instr::RLA => "RLA"@,
        Instr::RLCA => "RLCA"@,
        Instr::RRA => "RRA"@,
        Instr::RRCA => "RRCA"@,
        Instr::RST_LIT(x0) => "RST "@ + u8_text(x0),
        Instr::SBC_r8_d8(x1) => "SBC "@ + u8_text(x1),
        Instr::SBC_r8_ir16(x1) => "SBC ("@ + reg16_text(x1) + ")"@,
        Instr::SBC_r8_r8(x1) => "SBC "@ + reg8_text(x1),
        Instr::SCF => "SCF"@,
        Instr::STOP => "STOP"@,
        Instr::SUB_d8(x0) => "SUB "@ + u8_text(x0),
        Instr::SUB_ir16(x0) => "SUB ("@ + reg16_text(x0) + ")"@,
        Instr::SUB_r8(x0) => "SUB "@ + reg8_text(x0),
        Instr::XOR_d8(x0) => "XOR "@ + u8_text(x0),
        Instr::XOR_ir16(x0) => "XOR ("@ + reg16_text(x0) + ")"@,
        Instr::XOR_r8(x0) => "XOR "@ + reg8_text(x0),
        Instr::BIT_l8_ir16(x0, x1) => "BIT "@ + u8_text(x0) + ",("@ + reg16_text(x1) + ")"@,
        Instr::BIT_l8_r8(x0, x1) => "BIT "@ + u8_text(x0) + ","@ + reg8_text(x1),
        Instr::RES_l8_ir16(x0, x1) => "RES "@ + u8_text(x0) + ",("@ + reg16_text(x1) + ")"@,
        Instr::RES_l8_r8(x0, x1) => "RES "@ + u8_text(x0) + ","@ + reg8_text(x1),
        Instr::RLC_ir16(x0) => "RLC ("@ + reg16_text(x0) + ")"@,
        Instr::RLC_r8(x0) => "RLC "@ + reg8_text(x0),
        Instr::RL_ir16(x0) => "RL ("@ + reg16_text(x0) + ")"@,
        Instr::RL_r8(x0) => "RL "@ + reg8_text(x0),
        Instr::RRC_ir16(x0) => "RRC ("@ + reg16_text(x0) + ")"@,
        Instr::RRC_r8(x0) => "RRC "@ + reg8_text(x0),
        Instr::RR_ir16(x0) => "RR ("@ + reg16_text(x0) + ")"@,
        Instr::RR_r8(x0) => "RR "@ + reg8_text(x0),
        Instr::SLA_ir16(x0) => "SLA ("@ + reg16_text(x0) + ")"@,
        Instr::SLA_r8(x0) => "SLA "@ + reg8_text(x0),
        Instr::SRA_ir16(x0) => "SRA ("@ + reg16_text(x0) + ")"@,
        Instr::SRA_r8(x0) => "SRA "@ + reg8_text(x0),
        Instr::SRL_ir16(x0) => "SRL ("@ + reg16_text(x0) + ")"@,
        Instr::SRL_r8(x0) => "SRL "@ + reg8_text(x0),
        Instr::SET_l8_ir16(x0, x1) => "SET "@ + u8_text(x0) + ",("@ + reg16_text(x1) + ")"@,
        Instr::SET_l8_r8(x0, x1) => "SET "@ + u8_text(x0) + ","@ + reg8_text(x1),
        Instr::SWAP_ir16(x0) => "SWAP ("@ + reg16_text(x0) + ")"@,
        Instr::SWAP_r8(x0) => "SWAP "@ + reg8_text(x0),
    }
}

/// Offsets the text can show: every one but -128, whose magnitude has no
/// signed byte.
pub open spec fn instr_code_ok(i: Instr) -> bool {
    match i {
        Instr::JR_COND_r8(_, o) | Instr::JR_r8(o) => o.0 != -128,
        _ => true,
    }
}

pub(crate) fn push_hex_digit(out: &mut String, d: u8)
    requires
        d < 16,
    ensures
        final(out)@ == old(out)@ + hex_digit(d as int),
{
    if d == 0 {
        out.append("0");
    } else if d == 1 {
        out.append("1");
    } else if d == 2 {
        out.append("2");
    } else if d == 3 {
        out.append("3");
    } else if d == 4 {
        out.append("4");
    } else if d == 5 {
        out.append("5");
    } else if d == 6 {
        out.append("6");
    } else if d == 7 {
        out.append("7");
    } else if d == 8 {
        out.append("8");
    } else if d == 9 {
        out.append("9");
    } else if d == 10 {
        out.append("a");
    } else if d == 11 {
        out.append("b");
    } else if d == 12 {
        out.append("c");
    } else if d == 13 {
        out.append("d");
    } else if d == 14 {
        out.append("e");
    } else {
        out.append("f");
    }
}

pub(crate) fn push_hex2(out: &mut String, b: u8)
    ensures
        final(out)@ == old(out)@ + hex2(b),
{
    push_hex_digit(out, b / 16);
    push_hex_digit(out, b % 16);
}

pub(crate) fn push_hex4(out: &mut String, w: u16)
    ensures
        final(out)@ == old(out)@ + hex4(w),
{
    push_hex2(out, (w / 256) as u8);
    push_hex2(out, (w % 256) as u8);
}

fn push_u8(out: &mut String, x: u8)
    ensures
        final(out)@ == old(out)@ + u8_text(x),
{
    out.append("$");
    push_hex2(out, x);
}

fn push_i8(out: &mut String, x: i8)
    ensures
        final(out)@ == old(out)@ + i8_text(x),
{
    out.append("$");
    let b: u8 = if x < 0 { (x as i16 + 256) as u8 } else { x as u8 };
    push_hex2(out, b);
}

fn push_u16(out: &mut String, x: u16)
    ensures
        final(out)@ == old(out)@ + u16_text(x),
{
    out.append("$");
    push_hex4(out, x);
}

fn push_reg8(out: &mut String, r: Reg8)
    ensures
        final(out)@ == old(out)@ + reg8_text(r),
{
    match r {
        Reg8::A => out.append("A"),
        Reg8::F => out.append("F"),
        Reg8::B => out.append("B"),
        Reg8::C => out.append("C"),
        Reg8::D => out.append("D"),
        Reg8::E => out.append("E"),
        Reg8::H => out.append("H"),
        Reg8::L => out.append("L"),
    }
}

fn push_reg16(out: &mut String, r: Reg16)
    ensures
        final(out)@ == old(out)@ + reg16_text(r),
{
    match r {
        Reg16::AF => out.append("AF"),
        Reg16::BC => out.append("BC"),
        Reg16::DE => out.append("DE"),
        Reg16::HL => out.append("HL"),
        Reg16::SP => out.append("SP"),
        Reg16::PC => out.append("PC"),
    }
}

fn push_cond(out: &mut String, c: Cond)
    ensures
        final(out)@ == old(out)@ + cond_text(c),
{
    match c {
        Cond::Z => out.append("z"),
        Cond::NZ => out.append("nz"),
        Cond::C => out.append("c"),
        Cond::NC => out.append("nc"),
    }
}

fn push_omit_a(out: &mut String, r: Reg8)
    ensures
        final(out)@ == old(out)@ + omit_a_text(r),
{
    match r {
        Reg8::A => {},
        _ => {
            push_reg8(out, r);
            out.append(",");
        },
    }
}

/// Looks an address up in the name table.
pub fn lookup_name(names: &Vec<(u16, String)>, a: u16) -> (r: Option<&String>)
    ensures
        match r {
            Some(s) => name_of(names_view(names@), a) == Some(s@),
            None => name_of(names_view(names@), a) is None,
        },
{
    let mut k: usize = 0;
    assert(names_view(names@).skip(0) =~= names_view(names@));
    while k < names.len()
        invariant
            k <= names@.len(),
            name_of(names_view(names@), a) == name_of(names_view(names@).skip(k as int), a),
        decreases names@.len() - k,
    {
        let ghost rest = names_view(names@).skip(k as int);
        assert(rest.drop_first() =~= names_view(names@).skip(k + 1));
        if names[k].0 == a {
            return Some(&names[k].1);
        }
        k = k + 1;
    }
    proof {
        assert(names_view(names@).skip(k as int).len() == 0);
    }
    None
}

fn push_addr(out: &mut String, a: u16, names: &Vec<(u16, String)>)
    ensures
        final(out)@ == old(out)@ + addr_text(a, names_view(names@)),
{
    match lookup_name(names, a) {
        Some(s) => out.append(s.as_str()),
        None => push_u16(out, a),
    }
}

fn push_rel(out: &mut String, o: i8, end: u16, names: &Vec<(u16, String)>)
    requires
        o != -128,
    ensures
        final(out)@ == old(out)@ + rel_text(o, end, names_view(names@)),
{
    let pc = end.wrapping_sub(1);
    let target: u16 = if o > 0 {
        pc.wrapping_add(o as u16)
    } else {
        pc.wrapping_sub((0 - o as i16) as u16)
    };
    assert(target == rel_target(o, end));
    match lookup_name(names, target) {
        Some(s) => out.append(s.as_str()),
        None => {
            if o >= 0 {
                out.append("$");
                push_hex2(out, o as u8);
            } else {
                out.append("-$");
                push_hex2(out, (0 - o) as u8);
            }
        },
    }
}

/// Values that print as assembler operands or instructions.
pub trait FormatCode {
    /// The text, for an instruction occupying addresses up to `end`
    /// (exclusive) and a table of address names.
    spec fn code(&self, end: u16, names: Seq<(u16, Seq<char>)>) -> Seq<char>;

    /// Whether the value has a text.
    spec fn code_ok(&self) -> bool;

    fn to_code(&self, instr: std::ops::Range<u16>, names: &Vec<(u16, String)>) -> (r: String)
        requires
            self.code_ok(),
        ensures
            r@ == self.code(instr.end, names_view(names@)),
    ;
}

impl FormatCode for RelAddr {
    open spec fn code(&self, end: u16, names: Seq<(u16, Seq<char>)>) -> Seq<char> {
        rel_text(self.0, end, names)
    }

    open spec fn code_ok(&self) -> bool {
        self.0 != -128
    }

    fn to_code(&self, instr: std::ops::Range<u16>, names: &Vec<(u16, String)>) -> (r: String) {
        let mut out = String::new();
        push_rel(&mut out, self.0, instr.end, names);
        out
    }
}

impl FormatCode for Addr {
    open spec fn code(&self, end: u16, names: Seq<(u16, Seq<char>)>) -> Seq<char> {
        addr_text(self.0, names)
    }

    open spec fn code_ok(&self) -> bool {
        true
    }

    fn to_code(&self, instr: std::ops::Range<u16>, names: &Vec<(u16, String)>) -> (r: String) {
        let mut out = String::new();
        push_addr(&mut out, self.0, names);
        out
    }
}

impl FormatCode for u8 {
    open spec fn code(&self, end: u16, names: Seq<(u16, Seq<char>)>) -> Seq<char> {
        u8_text(*self)
    }

    open spec fn code_ok(&self) -> bool {
        true
    }

    fn to_code(&self, instr: std::ops::Range<u16>, names: &Vec<(u16, String)>) -> (r: String) {
        let mut out = String::new();
        push_u8(&mut out, *self);
        out
    }
}

impl FormatCode for i8 {
    open spec fn code(&self, end: u16, names: Seq<(u16, Seq<char>)>) -> Seq<char> {
        i8_text(*self)
    }

    open spec fn code_ok(&self) -> bool {
        true
    }

    fn to_code(&self, instr: std::ops::Range<u16>, names: &Vec<(u16, String)>) -> (r: String) {
        let mut out = String::new();
        push_i8(&mut out, *self);
        out
    }
}

impl FormatCode for u16 {
    open spec fn code(&self, end: u16, names: Seq<(u16, Seq<char>)>) -> Seq<char> {
        u16_text(*self)
    }

    open spec fn code_ok(&self) -> bool {
        true
    }

    fn to_code(&self, instr: std::ops::Range<u16>, names: &Vec<(u16, String)>) -> (r: String) {
        let mut out = String::new();
        push_u16(&mut out, *self);
        out
    }
}

impl FormatCode for Reg8 {
    open spec fn code(&self, end: u16, names: Seq<(u16, Seq<char>)>) -> Seq<char> {
        reg8_text(*self)
    }

    open spec fn code_ok(&self) -> bool {
        true
    }

    fn to_code(&self, instr: std::ops::Range<u16>, names: &Vec<(u16, String)>) -> (r: String) {
        let mut out = String::new();
        push_reg8(&mut out, *self);
        out
    }
}

impl FormatCode for Cond {
    open spec fn code(&self, end: u16, names: Seq<(u16, Seq<char>)>) -> Seq<char> {
        cond_text(*self)
    }

    open spec fn code_ok(&self) -> bool {
        true
    }

    fn to_code(&self, instr: std::ops::Range<u16>, names: &Vec<(u16, String)>) -> (r: String) {
        let mut out = String::new();
        push_cond(&mut out, *self);
        out
    }
}

impl FormatCode for Reg16 {
    open spec fn code(&self, end: u16, names: Seq<(u16, Seq<char>)>) -> Seq<char> {
        reg16_text(*self)
    }

    open spec fn code_ok(&self) -> bool {
        true
    }

    fn to_code(&self, instr: std::ops::Range<u16>, names: &Vec<(u16, String)>) -> (r: String) {
        let mut out = String::new();
        push_reg16(&mut out, *self);
        out
    }
}

impl FormatCode for Instr {
    open spec fn code(&self, end: u16, names: Seq<(u16, Seq<char>)>) -> Seq<char> {
        instr_code(*self, end, names)
    }

    open spec fn code_ok(&self) -> bool {
        instr_code_ok(*self)
    }

    #[verifier::spinoff_prover]
    #[verifier::rlimit(50)]
    fn to_code(&self, instr: std::ops::Range<u16>, names: &Vec<(u16, String)>) -> (r: String) {
        let mut out = String::new();
        match *self {
            Instr::ADC_r8_d8(x1) => {
                out.append("ADC ");
                push_u8(&mut out, x1);
            },
            Instr::ADC_r8_ir16(x1) => {
                out.append("ADC (");
                push_reg16(&mut out, x1);
                out.append(")");
            },
            Instr::ADC_r8_r8(x1) => {
                out.append("ADC ");
                push_reg8(&mut out, x1);
            },
            Instr::ADD_r16_r16(x0, x1) => {
                out.append("ADD ");
                push_reg16(&mut out, x0);
                out.append(",");
                push_reg16(&mut out, x1);
            },
            Instr::ADD_r16_r8(x0, x1) => {
                out.append("ADD ");
                push_reg16(&mut out, x0);
                out.append(",");
                push_i8(&mut out, x1);
            },
            Instr::ADD_r8_d8(x0, x1) => {
                out.append("ADD ");
                push_omit_a(&mut out, x0);
                out.append(" ");
                push_u8(&mut out, x1);
            },
            Instr::ADD_r8_ir16(x0, x1) => {
                out.append("ADD ");
                push_omit_a(&mut out, x0);
                out.append(" (");
                push_reg16(&mut out, x1);
                out.append(")");
            },
            Instr::ADD_r8_r8(x0, x1) => {
                out.append("ADD ");
                push_omit_a(&mut out, x0);
                out.append(" ");
                push_reg8(&mut out, x1);
            },
            Instr::AND_d8(x0) => {
                out.append("AND ");
                push_u8(&mut out, x0);
            },
            Instr::AND_ir16(x0) => {
                out.append("AND (");
                push_reg16(&mut out, x0);
                out.append(")");
            },
            Instr::AND_r8(x0) => {
                out.append("AND ");
                push_reg8(&mut out, x0);
            },
            Instr::CALL_COND_a16(x0, x1) => {
                out.append("CALL ");
                push_cond(&mut out, x0);
                out.append(",");
                push_addr(&mut out, x1.0, names);
            },
            Instr::CALL_a16(x0) => {
                out.append("CALL ");
                push_addr(&mut out, x0.0, names);
            },
            Instr::CCF => {
                out.append("CCF");
            },
            Instr::CPL => {
                out.append("CPL");
            },
            Instr::CP_d8(x0) => {
                out.append("CP ");
                push_u8(&mut out, x0);
            },
            Instr::CP_ir16(x0) => {
                out.append("CP (");
                push_reg16(&mut out, x0);
                out.append(")");
            },
            Instr::CP_r8(x0) => {
                out.append("CP ");
                push_reg8(&mut out, x0);
            },
            Instr::DAA => {
                out.append("DAA");
            },
            Instr::DEC_ir16(x0) => {
                out.append("DEC (");
                push_reg16(&mut out, x0);
                out.append(")");
            },
            Instr::DEC_r16(x0) => {
                out.append("DEC ");
                push_reg16(&mut out, x0);
            },
            Instr::DEC_r8(x0) => {
                out.append("DEC ");
                push_reg8(&mut out, x0);
            },
            Instr::DI => {
                out.append("DI");
            },
            Instr::EI => {
                out.append("EI");
            },
            Instr::HALT => {
                out.append("HALT");
            },
            Instr::INC_ir16(x0) => {
                out.append("INC (");
                push_reg16(&mut out, x0);
                out.append(")");
            },
            Instr::INC_r16(x0) => {
                out.append("INC ");
                push_reg16(&mut out, x0);
            },
            Instr::INC_r8(x0) => {
                out.append("INC ");
                push_reg8(&mut out, x0);
            },
            Instr::INVALID(x0) => {
                out.append(".db ");
                push_u8(&mut out, x0);
            },
            Instr::JP_COND_a16(x0, x1) => {
                out.append("JP ");
                push_cond(&mut out, x0);
                out.append(",");
                push_addr(&mut out, x1.0, names);
            },
            Instr::JP_a16(x0) => {
                out.append("JP ");
                push_addr(&mut out, x0.0, names);
            },
            Instr::JP_r16(x0) => {
                out.append("JP ");
                push_reg16(&mut out, x0);
            },
            Instr::JR_COND_r8(x0, x1) => {
                out.append("JR ");
                push_cond(&mut out, x0);
                out.append(",");
                push_rel(&mut out, x1.0, instr.end, names);
            },
            Instr::JR_r8(x0) => {
                out.append("JR ");
                push_rel(&mut out, x0.0, instr.end, names);
            },
            Instr::LDH_ia8_r8(x0, x1) => {
                out.append("LDH (");
                push_u8(&mut out, x0);
                out.append("),");
                push_reg8(&mut out, x1);
            },
            Instr::LDH_r8_ia8(x0, x1) => {
                out.append("LDH ");
                push_reg8(&mut out, x0);
                out.append(",(");
                push_u8(&mut out, x1);
                out.append(")");
            },
            Instr::LD_ia16_r16(x0, x1) => {
                out.append("LD (");
                push_addr(&mut out, x0.0, names);
                out.append("),");
                push_reg16(&mut out, x1);
            },
            Instr::LD_ia16_r8(x0, x1) => {
                out.append("LD (");
                push_addr(&mut out, x0.0, names);
                out.append("),");
                push_reg8(&mut out, x1);
            },
            Instr::LD_ir16_d8(x0, x1) => {
                out.append("LD (");
                push_reg16(&mut out, x0);
                out.append("),");
                push_u8(&mut out, x1);
            },
            Instr::LD_ir16_r8(x0, x1) => {
                out.append("LD (");
                push_reg16(&mut out, x0);
                out.append("),");
                push_reg8(&mut out, x1);
            },
            Instr::LD_iir16_r8(x0, x1) => {
                out.append("LD (");
                push_reg16(&mut out, x0);
                out.append("+),");
                push_reg8(&mut out, x1);
            },
            Instr::LD_dir16_r8(x0, x1) => {
                out.append("LD (");
                push_reg16(&mut out, x0);
                out.append("-),");
                push_reg8(&mut out, x1);
            },
            Instr::LD_ir8_r8(x0, x1) => {
                out.append("LD ($FF00 + ");
                push_reg8(&mut out, x0);
                out.append("),");
                push_reg8(&mut out, x1);
            },
            Instr::LD_r16_d16(x0, x1) => {
                out.append("LD ");
                push_reg16(&mut out, x0);
                out.append(",");
                push_u16(&mut out, x1);
            },
            Instr::LD_r16_r16(x0, x1) => {
                out.append("LD ");
                push_reg16(&mut out, x0);
                out.append(",");
                push_reg16(&mut out, x1);
            },
            Instr::LD_r16_r16_r8(x0, x1, x2) => {
                out.append("LD ");
                push_reg16(&mut out, x0);
                out.append(",");
                push_reg16(&mut out, x1);
                out.append(",");
                push_i8(&mut out, x2);
            },
            Instr::LD_r8_d8(x0, x1) => {
                out.append("LD ");
                push_reg8(&mut out, x0);
                out.append(",");
                push_u8(&mut out, x1);
            },
            Instr::LD_r8_ia16(x0, x1) => {
                out.append("LD ");
                push_reg8(&mut out, x0);
                out.append(",(");
                push_addr(&mut out, x1.0, names);
                out.append(")");
            },
            Instr::LD_r8_ir16(x0, x1) => {
                out.append("LD ");
                push_reg8(&mut out, x0);
                out.append(",(");
                push_reg16(&mut out, x1);
                out.append(")");
            },
            Instr::LD_r8_iir16(x0, x1) => {
                out.append("LD ");
                push_reg8(&mut out, x0);
                out.append(",(");
                push_reg16(&mut out, x1);
                out.append("+)");
            },
            Instr::LD_r8_dir16(x0, x1) => {
                out.append("LD ");
                push_reg8(&mut out, x0);
                out.append(",(");
                push_reg16(&mut out, x1);
                out.append("-)");
            },
            Instr::LD_r8_ir8(x0, x1) => {
                out.append("LD ");
                push_reg8(&mut out, x0);
                out.append(",($FF00 + ");
                push_reg8(&mut out, x1);
                out.append(")");
            },
            Instr::LD_r8_r8(x0, x1) => {
                out.append("LD ");
                push_reg8(&mut out, x0);
                out.append(",");
                push_reg8(&mut out, x1);
            },
            Instr::NOP => {
                out.append("NOP");
            },
            Instr::OR_d8(x0) => {
                out.append("OR ");
                push_u8(&mut out, x0);
            },
            Instr::OR_ir16(x0) => {
                out.append("OR (");
                push_reg16(&mut out, x0);
                out.append(")");
            },
            Instr::OR_r8(x0) => {
                out.append("OR ");
                push_reg8(&mut out, x0);
            },
            Instr::POP_r16(x0) => {
                out.append("POP ");
                push_reg16(&mut out, x0);
            },
            Instr::PUSH_r16(x0) => {
                out.append("PUSH ");
                push_reg16(&mut out, x0);
            },
            Instr::RET => {
                out.append("RET");
            },
            Instr::RETI => {
                out.append("RETI");
            },
            Instr::RET_COND(x0) => {
                out.append("RET ");
                push_cond(&mut out, x0);
            },
            Instr::RLA => {
                out.append("RLA");
            },
            Instr::RLCA => {
                out.append("RLCA");
            },
            Instr::RRA => {
                out.append("RRA");
            },
            Instr::RRCA => {
                out.append("RRCA");
            },
            Instr::RST_LIT(x0) => {
                out.append("RST ");
                push_u8(&mut out, x0);
            },
            Instr::SBC_r8_d8(x1) => {
                out.append("SBC ");
                push_u8(&mut out, x1);
            },
            Instr::SBC_r8_ir16(x1) => {
                out.append("SBC (");
                push_reg16(&mut out, x1);
                out.append(")");
            },
            Instr::SBC_r8_r8(x1) => {
                out.append("SBC ");
                push_reg8(&mut out, x1);
            },
            Instr::SCF => {
                out.append("SCF");
            },
            Instr::STOP => {
                out.append("STOP");
            },
            Instr::SUB_d8(x0) => {
                out.append("SUB ");
                push_u8(&mut out, x0);
            },
            Instr::SUB_ir16(x0) => {
                out.append("SUB (");
                push_reg16(&mut out, x0);
                out.append(")");
            },
            Instr::SUB_r8(x0) => {
                out.append("SUB ");
                push_reg8(&mut out, x0);
            },
            Instr::XOR_d8(x0) => {
                out.append("XOR ");
                push_u8(&mut out, x0);
            },
            Instr::XOR_ir16(x0) => {
                out.append("XOR (");
                push_reg16(&mut out, x0);
                out.append(")");
            },
            Instr::XOR_r8(x0) => {
                out.append("XOR ");
                push_reg8(&mut out, x0);
            },
            Instr::BIT_l8_ir16(x0, x1) => {
                out.append("BIT ");
                push_u8(&mut out, x0);
                out.append(",(");
                push_reg16(&mut out, x1);
                out.append(")");
            },
            Instr::BIT_l8_r8(x0, x1) => {
                out.append("BIT ");
                push_u8(&mut out, x0);
                out.append(",");
                push_reg8(&mut out, x1);
            },
            Instr::RES_l8_ir16(x0, x1) => {
                out.append("RES ");
                push_u8(&mut out, x0);
                out.append(",(");
                push_reg16(&mut out, x1);
                out.append(")");
            },
            Instr::RES_l8_r8(x0, x1) => {
                out.append("RES ");
                push_u8(&mut out, x0);
                out.append(",");
                push_reg8(&mut out, x1);
            },
            Instr::RLC_ir16(x0) => {
                out.append("RLC (");
                push_reg16(&mut out, x0);
                out.append(")");
            },
            Instr::RLC_r8(x0) => {
                out.append("RLC ");
                push_reg8(&mut out, x0);
            },
            Instr::RL_ir16(x0) => {
                out.append("RL (");
                push_reg16(&mut out, x0);
                out.append(")");
            },
            Instr::RL_r8(x0) => {
                out.append("RL ");
                push_reg8(&mut out, x0);
            },
            Instr::RRC_ir16(x0) => {
                out.append("RRC (");
                push_reg16(&mut out, x0);
                out.append(")");
            },
            Instr::RRC_r8(x0) => {
                out.append("RRC ");
                push_reg8(&mut out, x0);
            },
            Instr::RR_ir16(x0) => {
                out.append("RR (");
                push_reg16(&mut out, x0);
                out.append(")");
            },
            Instr::RR_r8(x0) => {
                out.append("RR ");
                push_reg8(&mut out, x0);
            },
            Instr::SLA_ir16(x0) => {
                out.append("SLA (");
                push_reg16(&mut out, x0);
                out.append(")");
            },
            Instr::SLA_r8(x0) => {
                out.append("SLA ");
                push_reg8(&mut out, x0);
            },
            Instr::SRA_ir16(x0) => {
                out.append("SRA (");
                push_reg16(&mut out, x0);
                out.append(")");
            },
            Instr::SRA_r8(x0) => {
                out.append("SRA ");
                push_reg8(&mut out, x0);
            },
            Instr::SRL_ir16(x0) => {
                out.append("SRL (");
                push_reg16(&mut out, x0);
                out.append(")");
            },
            Instr::SRL_r8(x0) => {
                out.append("SRL ");
                push_reg8(&mut out, x0);
            },
            Instr::SET_l8_ir16(x0, x1) => {
                out.append("SET ");
                push_u8(&mut out, x0);
                out.append(",(");
                push_reg16(&mut out, x1);
                out.append(")");
            },
            Instr::SET_l8_r8(x0, x1) => {
                out.append("SET ");
                push_u8(&mut out, x0);
                out.append(",");
                push_reg8(&mut out, x1);
            },
            Instr::SWAP_ir16(x0) => {
                out.append("SWAP (");
                push_reg16(&mut out, x0);
                out.append(")");
            },
            Instr::SWAP_r8(x0) => {
                out.append("SWAP ");
                push_reg8(&mut out, x0);
            },
        }
        out
    }
}

/// The instruction that starts at `pc` on the bus, and its length.
pub open spec fn decode_at(bus: MMUInternal, pc: u16) -> (Instr, nat) {
    let b0 = bus.spec_peek(pc);
    let b1 = bus.spec_peek(((pc + 1) % 65536) as u16);
    let b2 = bus.spec_peek(((pc + 2) % 65536) as u16);
    if spec_decode(seq![b0]) is Some {
        (spec_decode(seq![b0])->0, 1)
    } else if spec_decode(seq![b0, b1]) is Some {
        (spec_decode(seq![b0, b1])->0, 2)
    } else {
        (spec_decode(seq![b0, b1, b2])->0, 3)
    }
}

/// The bytes `pc`, `pc + 1`, .. (`n` of them) in hex, each followed by a
/// space.
pub open spec fn bytes_text(bus: MMUInternal, pc: u16, n: nat) -> Seq<char>
    decreases n,
{
    if n == 0 {
        Seq::empty()
    } else {
        hex2(bus.spec_peek(pc)) + " "@ + bytes_text(bus, ((pc + 1) % 65536) as u16, (n - 1) as nat)
    }
}

/// Three spaces for each of the `n` byte columns left empty.
pub open spec fn pad_text(n: nat) -> Seq<char>
    decreases n,
{
    if n == 0 {
        Seq::empty()
    } else {
        "   "@ + pad_text((n - 1) as nat)
    }
}

/// One line of a listing: the address, the instruction's bytes (none when
/// it runs past the end of the address space), padding to three columns
/// and the instruction.
pub open spec fn line_text(bus: MMUInternal, pc: u16) -> Seq<char> {
    let (i, len) = decode_at(bus, pc);
    let shown = if pc + len > 0xffff { 0 } else { len };
    "0x"@ + hex4(pc) + ": "@ + bytes_text(bus, pc, shown) + pad_text((3 - len) as nat) + instr_code(
        i,
        0,
        Seq::empty(),
    )
}

/// The listing of the instructions from `pc` up to `stop`, where `keep`
/// says, in order, which instructions are shown; it ends after an
/// instruction that runs past the end of the address space.
pub open spec fn listing(bus: MMUInternal, pc: u16, stop: u16, keep: Seq<bool>) -> Seq<char>
    decreases 0x10000 - pc,
{
    if pc >= stop {
        Seq::empty()
    } else {
        let len = decode_at(bus, pc).1;
        let line = if keep.len() > 0 && keep[0] {
            line_text(bus, pc)
        } else {
            Seq::empty()
        };
        if pc + len > 0xffff || len == 0 {
            line
        } else {
            line + listing(bus, (pc + len) as u16, stop, keep.drop_first())
        }
    }
}

/// `keep` holds, in order, answers the filter may give for the
/// instructions from `pc` up to `stop`.
pub open spec fn filter_agrees<F: Fn(Instr) -> bool>(
    filter: F,
    bus: MMUInternal,
    pc: u16,
    stop: u16,
    keep: Seq<bool>,
) -> bool
    decreases 0x10000 - pc,
{
    if pc >= stop {
        keep.len() == 0
    } else {
        let (i, len) = decode_at(bus, pc);
        &&& keep.len() > 0
        &&& call_ensures(filter, (i,), keep[0])
        &&& if pc + len > 0xffff || len == 0 {
            keep.len() == 1
        } else {
            filter_agrees(filter, bus, (pc + len) as u16, stop, keep.drop_first())
        }
    }
}

/// Every instruction from `pc` up to `stop` has a text.
pub open spec fn range_ok(bus: MMUInternal, pc: u16, stop: u16) -> bool
    decreases 0x10000 - pc,
{
    if pc >= stop {
        true
    } else {
        let (i, len) = decode_at(bus, pc);
        &&& instr_code_ok(i)
        &&& (pc + len > 0xffff || len == 0 || range_ok(bus, (pc + len) as u16, stop))
    }
}

/// One step of a listing.
proof fn lemma_listing_step(bus: MMUInternal, pc: u16, stop: u16, keep: bool, rest: Seq<bool>)
    requires
        pc < stop,
    ensures
        ({
            let len = decode_at(bus, pc).1;
            let line = if keep {
                line_text(bus, pc)
            } else {
                Seq::empty()
            };
            &&& 1 <= len <= 3
            &&& pc + len > 0xffff ==> listing(bus, pc, stop, seq![keep] + rest) == line
            &&& pc + len <= 0xffff ==> listing(bus, pc, stop, seq![keep] + rest) == line + listing(
                bus,
                (pc + len) as u16,
                stop,
                rest,
            )
            &&& filter_agrees_step(bus, pc, stop, keep, rest)
        }),
{
    assert((seq![keep] + rest).drop_first() =~= rest);
}

/// One step of the filter's answers.
pub open spec fn filter_agrees_step(bus: MMUInternal, pc: u16, stop: u16, keep: bool, rest: Seq<bool>) -> bool {
    (seq![keep] + rest).drop_first() == rest && (seq![keep] + rest)[0] == keep && (seq![keep]
        + rest).len() == rest.len() + 1
}

/// Reads and decodes the instruction at `pc`; the bus is left unchanged.
fn fetch_at(mem: &mut MMU, pc: u16) -> (r: (Instr, u16))
    requires
        old(mem).wf(),
    ensures
        *final(mem) == *old(mem),
        r.0 == decode_at(old(mem).spec_bus(), pc).0,
        r.1 == decode_at(old(mem).spec_bus(), pc).1,
{
    let mut d = Disasm::new();
    let b0 = mem.read_byte_noeffect(pc);
    match d.feed_byte(b0) {
        Some(i) => {
            assert(d.fed() =~= seq![b0]);
            return (i, 1);
        },
        None => {},
    }
    assert(d.fed() =~= seq![b0]);
    let b1 = mem.read_byte_noeffect(pc.wrapping_add(1));
    match d.feed_byte(b1) {
        Some(i) => {
            assert(d.fed() =~= seq![b0, b1]);
            return (i, 2);
        },
        None => {},
    }
    assert(d.fed() =~= seq![b0, b1]);
    let b2 = mem.read_byte_noeffect(pc.wrapping_add(2));
    let r = d.feed_byte(b2);
    assert(d.fed() =~= seq![b0, b1, b2]);
    proof {
        crate::instr::lemma_decode_total(b0, b1);
        assert(crate::instr::spec_decode_three(b0, (b1 + b2 * 256) as u16) is Some);
    }
    match r {
        Some(i) => (i, 3),
        None => (Instr::NOP, 3),
    }
}

/// Appends the hex bytes `pc`, `pc + 1`, .. (`n` of them), each followed by
/// a space.
fn push_bytes(out: &mut String, mem: &mut MMU, pc: u16, n: u16)
    requires
        old(mem).wf(),
    ensures
        *final(mem) == *old(mem),
        final(out)@ == old(out)@ + bytes_text(old(mem).spec_bus(), pc, n as nat),
    decreases n,
{
    if n > 0 {
        let b = mem.read_byte_noeffect(pc);
        push_hex2(out, b);
        out.append(" ");
        push_bytes(out, mem, pc.wrapping_add(1), n - 1);
    }
}

fn push_pad(out: &mut String, n: u16)
    ensures
        final(out)@ == old(out)@ + pad_text(n as nat),
    decreases n,
{
    if n > 0 {
        out.append("   ");
        push_pad(out, n - 1);
    }
}

/// The listing and the filter's answers after one more instruction.
proof fn lemma_disasm_step<F: Fn(Instr) -> bool>(
    filter: F,
    bus: MMUInternal,
    start: u16,
    stop: u16,
    old_pc: u16,
    keep: bool,
    old_kept: Seq<bool>,
    before: Seq<char>,
    out: Seq<char>,
    done: bool,
    pc: u16,
)
    requires
        old_pc < stop,
        range_ok(bus, old_pc, stop),
        forall|rest: Seq<bool>|
            #![trigger listing(bus, old_pc, stop, rest)]
            listing(bus, start, stop, old_kept + rest) == before + listing(bus, old_pc, stop, rest),
        forall|rest: Seq<bool>|
            #![trigger filter_agrees(filter, bus, old_pc, stop, rest)]
            filter_agrees(filter, bus, old_pc, stop, rest) ==> filter_agrees(
                filter,
                bus,
                start,
                stop,
                old_kept + rest,
            ),
        call_ensures(filter, (decode_at(bus, old_pc).0,), keep),
        out == before + (if keep {
            line_text(bus, old_pc)
        } else {
            Seq::empty()
        }),
        done == (old_pc + decode_at(bus, old_pc).1 > 0xffff),
        !done ==> pc == old_pc + decode_at(bus, old_pc).1,
    ensures
        !done ==> range_ok(bus, pc, stop),
        !done ==> forall|rest: Seq<bool>|
            #![trigger listing(bus, pc, stop, rest)]
            listing(bus, start, stop, old_kept.push(keep) + rest) == out + listing(bus, pc, stop, rest),
        !done ==> forall|rest: Seq<bool>|
            #![trigger filter_agrees(filter, bus, pc, stop, rest)]
            filter_agrees(filter, bus, pc, stop, rest) ==> filter_agrees(
                filter,
                bus,
                start,
                stop,
                old_kept.push(keep) + rest,
            ),
        done ==> listing(bus, start, stop, old_kept.push(keep)) == out,
        done ==> filter_agrees(filter, bus, start, stop, old_kept.push(keep)),
{
    let kept = old_kept.push(keep);
    let piece = if keep {
        line_text(bus, old_pc)
    } else {
        Seq::<char>::empty()
    };
    lemma_listing_step(bus, old_pc, stop, keep, Seq::empty());
    if done {
        let e = Seq::<bool>::empty();
        let r2 = seq![keep] + e;
        assert(kept =~= old_kept + r2);
        assert(filter_agrees(filter, bus, old_pc, stop, r2));
        assert(listing(bus, start, stop, old_kept + r2) == before + listing(bus, old_pc, stop, r2));
    } else {
        assert forall|rest: Seq<bool>| #![trigger listing(bus, pc, stop, rest)]
            listing(bus, start, stop, kept + rest) == out + listing(bus, pc, stop, rest) by {
            let r2 = seq![keep] + rest;
            lemma_listing_step(bus, old_pc, stop, keep, rest);
            assert(kept + rest =~= old_kept + r2);
            assert(before + (piece + listing(bus, pc, stop, rest)) =~= out + listing(
                bus,
                pc,
                stop,
                rest,
            ));
        }
        assert forall|rest: Seq<bool>| #![trigger filter_agrees(filter, bus, pc, stop, rest)]
            filter_agrees(filter, bus, pc, stop, rest) implies filter_agrees(
                filter,
                bus,
                start,
                stop,
                kept + rest,
            ) by {
            let r2 = seq![keep] + rest;
            lemma_listing_step(bus, old_pc, stop, keep, rest);
            assert(kept + rest =~= old_kept + r2);
            assert(filter_agrees(filter, bus, old_pc, stop, r2));
        }
    }
}

/// Appends the listing line of the instruction `op` (`len` bytes) at `pc`.
fn push_line(out: &mut String, mem: &mut MMU, pc: u16, op: Instr, len: u16)
    requires
        old(mem).wf(),
        op == decode_at(old(mem).spec_bus(), pc).0,
        len == decode_at(old(mem).spec_bus(), pc).1,
        1 <= len <= 3,
        instr_code_ok(op),
    ensures
        *final(mem) == *old(mem),
        final(out)@ == old(out)@ + line_text(old(mem).spec_bus(), pc),
{
    let ghost before = out@;
    let ghost bus = mem.spec_bus();
    let next: u32 = pc as u32 + len as u32;
    out.append("0x");
    push_hex4(out, pc);
    out.append(": ");
    if next <= 0xffff {
        push_bytes(out, mem, pc, len);
    }
    push_pad(out, 3 - len);
    let names: Vec<(u16, String)> = Vec::new();
    let text = op.to_code(0..0, &names);
    assert(names_view(names@) =~= Seq::<(u16, Seq<char>)>::empty());
    out.append(text.as_str());
    assert(out@ =~= before + line_text(bus, pc));
}

/// Lists the instructions on the bus from `start` up to `stop`: for each
/// one the filter accepts, its address, bytes and text (lines are not
/// separated). The listing stops after an instruction that runs past the
/// end of the address space.
#[verifier::spinoff_prover]
#[verifier::rlimit(60)]
pub fn disasm<F: Fn(Instr) -> bool>(start: u16, stop: u16, mem: &mut MMU, filter: &F) -> (r: String)
    requires
        old(mem).wf(),
        range_ok(old(mem).spec_bus(), start, stop),
        forall|i: Instr| filter.requires((i,)),
    ensures
        *final(mem) == *old(mem),
        exists|keep: Seq<bool>|
            filter_agrees(*filter, old(mem).spec_bus(), start, stop, keep) && r@ == listing(
                old(mem).spec_bus(),
                start,
                stop,
                keep,
            ),
{
    let ghost bus = mem.spec_bus();
    let mut out = String::new();
    let mut pc = start;
    let ghost mut kept: Seq<bool> = Seq::empty();
    let mut done = false;
    proof {
        assert forall|rest: Seq<bool>| #![trigger listing(bus, pc, stop, rest)]
            listing(bus, start, stop, kept + rest) == out@ + listing(bus, pc, stop, rest) by {
            assert(kept + rest =~= rest);
            assert(out@ + listing(bus, pc, stop, rest) =~= listing(bus, pc, stop, rest));
        }
        assert forall|rest: Seq<bool>| #![trigger filter_agrees(*filter, bus, pc, stop, rest)]
            filter_agrees(*filter, bus, pc, stop, rest) implies filter_agrees(
                *filter,
                bus,
                start,
                stop,
                kept + rest,
            ) by {
            assert(kept + rest =~= rest);
        }
    }
    while pc < stop && !done
        invariant
            mem.wf(),
            mem.spec_bus() == bus,
            *mem == *old(mem),
            forall|i: Instr| filter.requires((i,)),
            !done ==> range_ok(bus, pc, stop),
            !done ==> forall|rest: Seq<bool>|
                #![trigger listing(bus, pc, stop, rest)]
                listing(bus, start, stop, kept + rest) == out@ + listing(bus, pc, stop, rest),
            !done ==> forall|rest: Seq<bool>|
                #![trigger filter_agrees(*filter, bus, pc, stop, rest)]
                filter_agrees(*filter, bus, pc, stop, rest) ==> filter_agrees(
                    *filter,
                    bus,
                    start,
                    stop,
                    kept + rest,
                ),
            done ==> listing(bus, start, stop, kept) == out@,
            done ==> filter_agrees(*filter, bus, start, stop, kept),
        decreases 0x20000 - 2 * pc + (if done { 0int } else { 1int }),
    {
        let (op, len) = fetch_at(mem, pc);
        let ghost old_pc = pc;
        proof {
            lemma_listing_step(bus, pc, stop, true, Seq::empty());
        }
        let next: u32 = pc as u32 + len as u32;
        let keep = filter(op);
        let ghost before = out@;
        let ghost line = line_text(bus, pc);
        if keep {
            push_line(&mut out, mem, pc, op, len);
        }
        let ghost piece = if keep { line } else { Seq::<char>::empty() };
        assert(out@ =~= before + piece);
        let ghost old_kept = kept;
        proof {
            kept = kept.push(keep);
        }
        if next > 0xffff {
            done = true;
        } else {
            pc = next as u16;
        }
        proof {
            lemma_disasm_step(*filter, bus, start, stop, old_pc, keep, old_kept, before, out@, done, pc);
        }
    }
    proof {
        let e = Seq::<bool>::empty();
        assert(kept + e =~= kept);
        if !done {
            let tail = listing(bus, pc, stop, e);
            let agrees = filter_agrees(*filter, bus, pc, stop, e);
            assert(tail =~= Seq::<char>::empty());
            assert(agrees);
            assert(out@ + Seq::<char>::empty() =~= out@);
            assert(listing(bus, start, stop, kept + e) == out@);
            assert(filter_agrees(*filter, bus, start, stop, kept + e));
        }
    }
    out
}

} // verus!
