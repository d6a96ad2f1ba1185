use gb::cart::CGBStatus;
use gb::display::Display;
use gb::peripherals::{Addressable, Peripheral, PeripheralData};

/// Draws line 0 of a background whose tiles alternate between all shade 3
/// (even map columns) and all shade 0 (odd map columns), scrolled by `scx`.
fn line0(scx: u8) -> Vec<u8> {
    let mut d = Display::new(CGBStatus::GB);
    d.init(0, 0, None);
    for row in 0..8u16 {
        d.write_byte(0x8000 + 2 * row, 0xff);
        d.write_byte(0x8001 + 2 * row, 0xff);
    }
    for col in 0..32u16 {
        d.write_byte(0x9800 + col, (col % 2) as u8);
    }
    d.write_byte(0xff47, 0xe4);
    d.write_byte(0xff43, scx);
    d.write_byte(0xff40, 0x91);
    let mut data = PeripheralData::new(Some(vec![0u8; 92160]), None, None);
    for _ in 0..5 {
        d.step(&mut data, 30);
    }
    data.lcd.unwrap()[0..640].to_vec()
}

fn col(line: &[u8], c: usize) -> &[u8] {
    &line[c * 4..c * 4 + 4]
}

#[test]
fn background_columns_follow_the_tile_map() {
    let l = line0(0);
    assert_ne!(col(&l, 0), col(&l, 8));
    for c in 0..8 {
        assert_eq!(col(&l, c), col(&l, 0));
        assert_eq!(col(&l, c + 8), col(&l, 8));
        assert_eq!(col(&l, c + 16), col(&l, 0));
    }
}

#[test]
fn fine_scroll_shifts_the_background() {
    let plain = line0(0);
    let l = line0(4);
    for c in 0..4 {
        assert_eq!(col(&l, c), col(&plain, 0));
    }
    for c in 4..12 {
        assert_eq!(col(&l, c), col(&plain, 8));
    }
    assert_eq!(col(&l, 12), col(&plain, 0));
}

#[test]
fn sprite_covers_eight_columns_from_its_x_minus_8() {
    let mut d = Display::new(CGBStatus::GB);
    d.init(0, 0, None);
    for row in 0..8u16 {
        d.write_byte(0x8020 + 2 * row, 0xff);
        d.write_byte(0x8021 + 2 * row, 0xff);
    }
    for col in 0..32u16 {
        d.write_byte(0x9800 + col, 1);
    }
    d.write_byte(0xfe00, 16);
    d.write_byte(0xfe01, 12);
    d.write_byte(0xfe02, 2);
    d.write_byte(0xfe03, 0);
    d.write_byte(0xff47, 0xe4);
    d.write_byte(0xff48, 0xe4);
    d.write_byte(0xff40, 0x93);
    let mut data = PeripheralData::new(Some(vec![0u8; 92160]), None, None);
    for _ in 0..5 {
        d.step(&mut data, 30);
    }
    let l = data.lcd.unwrap()[0..640].to_vec();
    assert_ne!(col(&l, 4), col(&l, 0));
    for c in 4..12 {
        assert_eq!(col(&l, c), col(&l, 4));
    }
    assert_eq!(col(&l, 3), col(&l, 0));
    assert_eq!(col(&l, 12), col(&l, 0));
}
