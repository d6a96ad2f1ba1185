use gb::hdma::{Copier, HDMA};
use gb::peripherals::{Addressable, Peripheral, PeripheralData};

#[test]
fn copier_extended_after_draining_goes_on_from_where_it_stopped() {
    let mut c = Copier::new(0x100, 0x8000, 0);
    c.extend(2);
    assert_eq!(c.drain(), vec![(0x100, 0x8000), (0x101, 0x8001)]);
    assert!(c.empty());
    c.extend(1);
    assert_eq!(c.next(), Some((0x102, 0x8002)));
    assert_eq!(c.next(), None);
}

#[test]
fn hdma5_copies_from_the_source_and_destination_registers() {
    let mut h = HDMA::new();
    let mut data = PeripheralData::empty();
    h.write_byte(0xff51, 0x12);
    h.write_byte(0xff52, 0x34);
    h.write_byte(0xff53, 0x81);
    h.write_byte(0xff54, 0x25);
    h.write_byte(0xff55, 0x00);
    assert!(h.is_active());
    h.step(&mut data, 64);
    let moves = h.copy_bytes();
    assert_eq!(moves.len(), 16);
    assert_eq!(moves[0], (0x1230, 0x8120));
    assert_eq!(moves[15], (0x123f, 0x812f));
    assert_eq!(h.read_byte(0xff51), 0x12);
    assert_eq!(h.read_byte(0xff54), 0x25);
}
