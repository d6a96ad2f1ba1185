use gb::cart::Cart;
use gb::cpu::CPU;
use gb::mmu::{MMUInternal, MMU};
use gb::peripherals::PeripheralData;
use gb::{Instr, Reg16, Reg8, RegType};

fn run_a(instrs: Vec<Instr>) -> u8 {
    let cart = Cart::fake();
    let internal = MMUInternal::new(cart, None, None);
    let data = PeripheralData::empty();
    let mut mem = MMU::new(internal, data);
    let mut cpu = CPU::new(false);
    for i in instrs {
        cpu.execute_instr(&mut mem, 0, i);
    }
    cpu.get_reg().read(Reg8::A)
}

#[test]
fn targeted() {
    assert_eq!(run_a(vec![Instr::ADD_r8_d8(Reg8::A, 0x05), Instr::DAA]), 0x05);
    assert_eq!(
        run_a(vec![
            Instr::ADD_r8_d8(Reg8::A, 0x05),
            Instr::ADD_r8_d8(Reg8::A, 0x05),
            Instr::DAA,
        ]),
        0x10
    );
    assert_eq!(
        run_a(vec![
            Instr::ADD_r8_d8(Reg8::A, 0x05),
            Instr::ADD_r8_d8(Reg8::A, 0x15),
            Instr::DAA,
        ]),
        0x20
    );
    assert_eq!(
        run_a(vec![
            Instr::ADD_r8_d8(Reg8::A, 0x17),
            Instr::ADD_r8_d8(Reg8::A, 0x39),
            Instr::DAA,
        ]),
        0x56
    );
    assert_eq!(
        run_a(vec![Instr::ADD_r8_d8(Reg8::A, 0x17), Instr::SUB_d8(0x09), Instr::DAA]),
        0x08
    );
    assert_eq!(
        run_a(vec![Instr::ADD_r8_d8(Reg8::A, 0x32), Instr::SUB_d8(0x09), Instr::DAA]),
        0x23
    );
    assert_eq!(
        run_a(vec![Instr::ADD_r8_d8(Reg8::A, 0x05), Instr::SUB_d8(0x04), Instr::DAA]),
        0x01
    );
    assert_eq!(run_a(vec![Instr::LD_r8_d8(Reg8::A, 0x05), Instr::RRA]), 0x05u8 >> 1);
    assert_eq!(
        run_a(vec![Instr::LD_r8_d8(Reg8::A, 0x05), Instr::RRCA]),
        0x05u8.rotate_right(1)
    );
    assert_eq!(
        run_a(vec![Instr::LD_r8_d8(Reg8::A, 0x05), Instr::SCF, Instr::RRA]),
        0x80 | 0x05u8 >> 1
    );
    assert_eq!(run_a(vec![Instr::LD_r8_d8(Reg8::A, 0x80), Instr::RLA]), 0x80u8 << 1);
    assert_eq!(
        run_a(vec![Instr::LD_r8_d8(Reg8::A, 0x80), Instr::RLCA]),
        0x80u8.rotate_left(1)
    );
    assert_eq!(
        run_a(vec![Instr::LD_r8_d8(Reg8::A, 0x80), Instr::SCF, Instr::RLA]),
        0x80u8 << 1 | 1
    );
    assert_eq!(run_a(vec![Instr::ADD_r8_d8(Reg8::A, 0x23), Instr::SWAP_r8(Reg8::A)]), 0x32);
    assert_eq!(run_a(vec![Instr::ADD_r8_d8(Reg8::A, 0x71), Instr::SWAP_r8(Reg8::A)]), 0x17);
}

fn fresh() -> (CPU, MMU) {
    let internal = MMUInternal::new(Cart::fake(), None, None);
    (CPU::new(false), MMU::new(internal, PeripheralData::empty()))
}

#[test]
fn daa_after_bcd_add_carries_past_99() {
    // 0x99 + 0x01 = 100: A holds 00 and C is set.
    let (mut cpu, mut mem) = fresh();
    cpu.execute_instr(&mut mem, 0, Instr::LD_r8_d8(Reg8::A, 0x99));
    cpu.execute_instr(&mut mem, 0, Instr::ADD_r8_d8(Reg8::A, 0x01));
    cpu.execute_instr(&mut mem, 0, Instr::DAA);
    assert_eq!(cpu.get_reg().read(Reg8::A), 0x00);
    assert!(cpu.get_reg().get_flag(gb::Flag::C));
}

#[test]
fn daa_after_bcd_sub_borrows() {
    // 0x10 - 0x25 = -15: A holds 85 and C is set.
    let (mut cpu, mut mem) = fresh();
    cpu.execute_instr(&mut mem, 0, Instr::LD_r8_d8(Reg8::A, 0x10));
    cpu.execute_instr(&mut mem, 0, Instr::SUB_d8(0x25));
    cpu.execute_instr(&mut mem, 0, Instr::DAA);
    assert_eq!(cpu.get_reg().read(Reg8::A), 0x85);
    assert!(cpu.get_reg().get_flag(gb::Flag::C));
}

#[test]
fn push_then_pop_moves_the_pair() {
    let (mut cpu, mut mem) = fresh();
    cpu.execute_instr(&mut mem, 0, Instr::LD_r16_d16(Reg16::SP, 0xdff0));
    cpu.execute_instr(&mut mem, 0, Instr::LD_r16_d16(Reg16::BC, 0x1234));
    cpu.execute_instr(&mut mem, 0, Instr::PUSH_r16(Reg16::BC));
    assert_eq!(cpu.get_reg().read(Reg16::SP), 0xdfee);
    cpu.execute_instr(&mut mem, 0, Instr::POP_r16(Reg16::DE));
    assert_eq!(cpu.get_reg().read(Reg16::DE), 0x1234);
    assert_eq!(cpu.get_reg().read(Reg16::SP), 0xdff0);
}

#[test]
fn pop_into_af_keeps_only_flag_bits() {
    let (mut cpu, mut mem) = fresh();
    cpu.execute_instr(&mut mem, 0, Instr::LD_r16_d16(Reg16::SP, 0xfffe));
    cpu.execute_instr(&mut mem, 0, Instr::LD_r16_d16(Reg16::HL, 0x12ff));
    cpu.execute_instr(&mut mem, 0, Instr::PUSH_r16(Reg16::HL));
    cpu.execute_instr(&mut mem, 0, Instr::POP_r16(Reg16::AF));
    assert_eq!(cpu.get_reg().read(Reg16::AF), 0x12f0);
}

#[test]
fn initialize_sets_post_boot_registers() {
    let (mut cpu, mut mem) = fresh();
    cpu.initialize(gb::cart::CGBStatus::GB, &mut mem);
    let r = cpu.get_reg();
    assert_eq!(r.read(Reg16::PC), 0x0100);
    assert_eq!(r.read(Reg16::SP), 0xfffe);
    assert_eq!(r.read(Reg16::BC), 0x0013);
    assert_eq!(r.read(Reg16::DE), 0x00d8);
    assert_eq!(r.read(Reg16::HL), 0x014d);
    assert_eq!(r.read(Reg8::A), 0x01);
}

#[test]
fn execute_advances_the_clock_by_machine_cycles() {
    let (mut cpu, mut mem) = fresh();
    let t0 = mem.time();
    cpu.execute_instr(&mut mem, 0, Instr::NOP);
    assert_eq!(mem.time(), t0);
    cpu.execute_instr(&mut mem, 0, Instr::PUSH_r16(Reg16::BC));
    // three machine cycles at normal speed, two cycle units each
    assert_eq!(mem.time(), t0 + 6);
}

#[test]
fn jump_to_itself_with_interrupts_off_is_dead() {
    let (mut cpu, mut mem) = fresh();
    assert!(!cpu.is_dead(&mem));
    cpu.execute_instr(&mut mem, 0x200, Instr::JP_a16(gb::Addr(0x200)));
    assert!(cpu.is_dead(&mem));
}

#[test]
fn byte_store_leaves_its_neighbours() {
    let (mut cpu, mut mem) = fresh();
    cpu.execute_instr(&mut mem, 0, Instr::LD_r8_d8(Reg8::A, 0x5a));
    cpu.execute_instr(&mut mem, 0, Instr::LD_ia16_r8(gb::instr::Addr(0xc000), Reg8::A));
    assert_eq!(mem.read_byte_noeffect(0xc000), 0x5a);
    assert_eq!(mem.read_byte_noeffect(0xc001), 0x00);
    assert_eq!(mem.read_byte_noeffect(0xbfff), 0xff);
}

#[test]
fn load_reads_the_byte_the_bus_shows() {
    let internal = MMUInternal::new(Cart::fake(), Some(vec![0x42u8; 256]), None);
    let mut mem = MMU::new(internal, PeripheralData::empty());
    let mut cpu = CPU::new(false);
    cpu.execute_instr(&mut mem, 0, Instr::LD_r8_ia16(Reg8::A, gb::instr::Addr(0x0010)));
    assert_eq!(cpu.get_reg().read(Reg8::A), 0x42);
}

#[test]
fn store_to_ff50_unmaps_the_boot_rom() {
    let internal = MMUInternal::new(Cart::fake(), Some(vec![0x42u8; 256]), None);
    let mut mem = MMU::new(internal, PeripheralData::empty());
    let mut cpu = CPU::new(false);
    assert_eq!(mem.read_byte_noeffect(0x0000), 0x42);
    cpu.execute_instr(&mut mem, 0, Instr::LD_r8_d8(Reg8::A, 1));
    cpu.execute_instr(&mut mem, 0, Instr::LDH_ia8_r8(0x50, Reg8::A));
    assert_eq!(mem.read_byte_noeffect(0x0000), 0xff);
    cpu.execute_instr(&mut mem, 0, Instr::LD_r8_ia16(Reg8::B, gb::instr::Addr(0x0010)));
    assert_eq!(cpu.get_reg().read(Reg8::B), 0xff);
}

#[test]
fn register_instruction_leaves_memory_alone() {
    let (mut cpu, mut mem) = fresh();
    cpu.execute_instr(&mut mem, 0, Instr::LD_r8_d8(Reg8::A, 0x77));
    cpu.execute_instr(&mut mem, 0, Instr::LD_ia16_r8(gb::instr::Addr(0xff90), Reg8::A));
    cpu.execute_instr(&mut mem, 0, Instr::ADD_r8_d8(Reg8::A, 0x01));
    cpu.execute_instr(&mut mem, 0, Instr::NOP);
    assert_eq!(mem.read_byte_noeffect(0xff90), 0x77);
    assert_eq!(mem.read_byte_noeffect(0xff91), 0x00);
    assert_eq!(cpu.get_reg().read(Reg8::A), 0x78);
}
