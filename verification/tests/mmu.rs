use gb::cart::Cart;
use gb::mmu::{MMUInternal, MMU};
use gb::peripherals::PeripheralData;

fn bus() -> MMU {
    MMU::new(MMUInternal::new(Cart::fake(), None, None), PeripheralData::empty())
}

#[test]
fn work_ram_reads_back_what_was_written() {
    let mut m = bus();
    m.write_byte(0xc123, 0x42);
    assert_eq!(m.read_byte(0xc123), 0x42);
    m.write_byte(0xd456, 0x99);
    assert_eq!(m.read_byte(0xd456), 0x99);
}

#[test]
fn echo_ram_mirrors_work_ram() {
    let mut m = bus();
    m.write_byte(0xc010, 0x5a);
    assert_eq!(m.read_byte(0xe010), 0x5a);
    m.write_byte(0xf020, 0xa5);
    assert_eq!(m.read_byte(0xd020), 0xa5);
}

#[test]
fn svbk_switches_the_bank_at_d000() {
    let mut m = bus();
    m.write_byte(0xd000, 1);
    m.write_byte(0xff70, 2);
    assert_eq!(m.read_byte(0xd000), 0);
    m.write_byte(0xd000, 2);
    m.write_byte(0xff70, 0);
    // bank 0 selects bank 1
    assert_eq!(m.read_byte(0xd000), 1);
}

#[test]
fn high_ram_and_interrupt_enable() {
    let mut m = bus();
    m.write_byte(0xff80, 7);
    m.write_byte(0xfffe, 8);
    m.write_byte(0xffff, 0x1f);
    assert_eq!(m.read_byte(0xff80), 7);
    assert_eq!(m.read_byte(0xfffe), 8);
    assert_eq!(m.read_byte(0xffff), 0x1f);
}

#[test]
fn a_write_elsewhere_leaves_plain_memory() {
    let mut m = bus();
    m.write_byte(0xc000, 1);
    m.write_byte(0xc001, 2);
    m.write_byte(0xff81, 3);
    assert_eq!(m.read_byte(0xc000), 1);
}

#[test]
fn every_access_takes_a_machine_cycle() {
    let mut m = bus();
    let t0 = m.time();
    m.read_byte(0xc000);
    assert_eq!(m.time(), t0 + 2);
    m.write_byte(0xc000, 0);
    assert_eq!(m.time(), t0 + 4);
    m.read_byte_noeffect(0xc000);
    assert_eq!(m.time(), t0 + 4);
}

#[test]
fn key1_speed_switch() {
    let mut m = bus();
    m.write_byte(0xff4d, 1);
    assert!(m.speed_change());
    m.toggle_speed();
    assert!(!m.speed_change());
    let t0 = m.time();
    m.read_byte(0xc000);
    assert_eq!(m.time(), t0 + 1);
}

#[test]
fn audio_samples_come_at_the_sample_period() {
    let spec = gb::peripherals::AudioSpec { samples: Vec::new(), freq: 32768, silence: 0 };
    let data = PeripheralData::new(None, None, Some(spec));
    let mut m = MMU::new(MMUInternal::new(Cart::fake(), None, Some(64)), data);
    for _ in 0..64 {
        m.cycles_passed(1);
    }
    let (_, data) = m.into_parts();
    assert_eq!(data.audio_spec.unwrap().samples.len(), 4);
}
