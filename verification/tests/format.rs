use gb::cart::Cart;
use gb::format::{disasm, FormatCode};
use gb::mmu::{MMUInternal, MMU};
use gb::peripherals::PeripheralData;
use gb::{Addr, Cond, Instr, Reg16, Reg8, RelAddr};

fn text(i: Instr) -> String {
    i.to_code(0..0, &Vec::new())
}

#[test]
fn arithmetic_on_a_omits_the_destination() {
    assert_eq!(text(Instr::ADD_r8_d8(Reg8::A, 0x05)), "ADD  $05");
    assert_eq!(text(Instr::ADD_r8_r8(Reg8::A, Reg8::B)), "ADD  B");
    assert_eq!(text(Instr::ADD_r8_ir16(Reg8::A, Reg16::HL)), "ADD  (HL)");
    assert_eq!(text(Instr::SUB_d8(0x0a)), "SUB $0a");
}

#[test]
fn loads_and_operands() {
    assert_eq!(text(Instr::LD_r8_r8(Reg8::B, Reg8::C)), "LD B,C");
    assert_eq!(text(Instr::LD_r16_d16(Reg16::SP, 0xfffe)), "LD SP,$fffe");
    assert_eq!(text(Instr::LD_ir8_r8(Reg8::C, Reg8::A)), "LD ($FF00 + C),A");
    assert_eq!(text(Instr::LD_iir16_r8(Reg16::HL, Reg8::A)), "LD (HL+),A");
    assert_eq!(text(Instr::LD_r8_dir16(Reg8::A, Reg16::HL)), "LD A,(HL-)");
    assert_eq!(text(Instr::LDH_ia8_r8(0x40, Reg8::A)), "LDH ($40),A");
    assert_eq!(text(Instr::ADD_r16_r8(Reg16::SP, -2)), "ADD SP,$fe");
    assert_eq!(text(Instr::LD_r16_r16_r8(Reg16::HL, Reg16::SP, 3)), "LD HL,SP,$03");
}

#[test]
fn control_flow_and_bits() {
    assert_eq!(text(Instr::CALL_COND_a16(Cond::NZ, Addr(0x1234))), "CALL nz,$1234");
    assert_eq!(text(Instr::RET_COND(Cond::C)), "RET c");
    assert_eq!(text(Instr::RST_LIT(0x38)), "RST $38");
    assert_eq!(text(Instr::BIT_l8_r8(7, Reg8::H)), "BIT $07,H");
    assert_eq!(text(Instr::SWAP_ir16(Reg16::HL)), "SWAP (HL)");
    assert_eq!(text(Instr::INVALID(0xd3)), ".db $d3");
    assert_eq!(text(Instr::NOP), "NOP");
}

#[test]
fn names_replace_addresses() {
    let names = vec![(0x0150u16, String::from("main")), (0x0101u16, String::from("loop"))];
    assert_eq!(Instr::JP_a16(Addr(0x150)).to_code(0..0, &names), "JP main");
    assert_eq!(Instr::JP_a16(Addr(0x151)).to_code(0..0, &names), "JP $0151");
    // a relative jump counts from the byte before the end of the instruction
    assert_eq!(Instr::JR_r8(RelAddr(-2)).to_code(0x102..0x104, &names), "JR loop");
    assert_eq!(Instr::JR_r8(RelAddr(-2)).to_code(0x200..0x202, &names), "JR -$02");
    assert_eq!(Instr::JR_COND_r8(Cond::Z, RelAddr(5)).to_code(0..0, &names), "JR z,$05");
}

#[test]
fn operand_texts() {
    assert_eq!(0x3cu8.to_code(0..0, &Vec::new()), "$3c");
    assert_eq!((-1i8).to_code(0..0, &Vec::new()), "$ff");
    assert_eq!(0xbeefu16.to_code(0..0, &Vec::new()), "$beef");
    assert_eq!(Reg16::AF.to_code(0..0, &Vec::new()), "AF");
    assert_eq!(Cond::NC.to_code(0..0, &Vec::new()), "nc");
}

fn bus_with(code: &[u8]) -> MMU {
    let mut m = MMU::new(MMUInternal::new(Cart::fake(), None, None), PeripheralData::empty());
    for (k, b) in code.iter().enumerate() {
        m.write_byte_noeffect(0xc000 + k as u16, *b);
    }
    m
}

#[test]
fn disasm_lists_each_instruction() {
    let mut m = bus_with(&[0x3e, 0x05, 0x00, 0xc3, 0x50, 0x01]);
    let out = disasm(0xc000, 0xc006, &mut m, &|_i: Instr| true);
    assert_eq!(
        out,
        "0xc000: 3e 05    LD A,$050xc002: 00       NOP0xc003: c3 50 01 JP $0150"
    );
}

#[test]
fn disasm_filter_drops_instructions() {
    let mut m = bus_with(&[0x00, 0x00, 0x04]);
    let out = disasm(0xc000, 0xc003, &mut m, &|i: Instr| i != Instr::NOP);
    assert_eq!(out, "0xc002: 04       INC B");
}
