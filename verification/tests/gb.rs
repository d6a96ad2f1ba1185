use gb::cart::{CGBStatus, Cart};
use gb::gb::{GBReason, GB};
use gb::peripherals::{Addressable, PeripheralData};
use gb::{Reg16, Reg8, RegType};

/// A 32 KiB ROM-only cartridge titled "TEST" whose code at 0x100 is `code`.
fn rom(code: &[u8]) -> Vec<u8> {
    let mut r = vec![0u8; 0x8000];
    r[0x134..0x138].copy_from_slice(b"TEST");
    for (k, b) in code.iter().enumerate() {
        r[0x100 + k] = *b;
    }
    r
}

#[test]
fn cartridge_header_is_read() {
    let mut r = rom(&[]);
    r[0x143] = 0x80;
    let mut c = Cart::new(r);
    assert_eq!(&c.title()[..4], b"TEST");
    assert_eq!(c.title().len(), 15);
    assert!(matches!(c.cgb(), CGBStatus::SupportsCGB));
    assert_eq!(c.read_byte(0x0134), b'T');
    assert_eq!(c.title_hash(), b'T'.wrapping_add(b'E').wrapping_add(b'S').wrapping_add(b'T'));
}

#[test]
fn mbc1_switches_rom_banks() {
    let mut r = vec![0u8; 0x10000];
    r[0x134..0x138].copy_from_slice(b"BANK");
    r[0x147] = 0x01;
    r[0x148] = 0x01;
    r[0x8000] = 0xab;
    r[0xc000] = 0xcd;
    let mut c = Cart::new(r);
    c.write_byte(0x2000, 2);
    assert_eq!(c.read_byte(0x4000), 0xab);
    c.write_byte(0x2000, 3);
    assert_eq!(c.read_byte(0x4000), 0xcd);
    // bank 0 selects bank 1
    c.write_byte(0x2000, 0);
    assert_eq!(c.read_byte(0x4000), 0x00);
}

#[test]
fn a_loop_on_itself_stops_the_machine() {
    // JR -2 at 0x100 with interrupts off
    let cart = Cart::new(rom(&[0x18, 0xfe]));
    let mut g = GB::new(cart, false, None, None, None);
    assert_eq!(g.get_reg().read(Reg16::PC), 0x100);
    assert_eq!(g.get_reg().read(Reg8::A), 0x01);
    let mut host = PeripheralData::empty();
    assert_eq!(g.step(None, &mut host), GBReason::Dead);
    assert!(g.cpu_cycles() > 0);
}

#[test]
fn a_run_ends_when_its_time_is_up() {
    // JR 0 at 0x100: an endless loop that is not a jump to itself
    let cart = Cart::new(rom(&[0x00, 0x18, 0xfd]));
    let mut g = GB::new(cart, false, None, None, None);
    let mut host = PeripheralData::empty();
    let t0 = g.cpu_cycles();
    assert_eq!(g.step(Some(1000), &mut host), GBReason::Timeout);
    assert!(g.cpu_cycles() >= t0 + 1000);
    assert_eq!(g.step_timeout(Some(500), &mut host), GBReason::Timeout);
}

#[test]
fn the_display_reaches_vertical_blank() {
    let cart = Cart::new(rom(&[0x00, 0x18, 0xfd]));
    let mut g = GB::new(cart, false, None, None, None);
    let mut host = PeripheralData::new(Some(vec![0u8; 160 * 144 * 4]), None, None);
    assert_eq!(g.step(Some(200_000), &mut host), GBReason::VSync);
}

#[test]
fn the_boot_rom_starts_at_zero() {
    let cart = Cart::new(rom(&[]));
    let g = GB::new(cart, true, Some(vec![0u8; 256]), None, None);
    assert_eq!(g.get_reg().read(Reg16::PC), 0);
}
