use gb::sound::channel::{ChannelRegs, Clocks, Duty, Freq, Length, LengthPass, Sweep, Timer, Vol};
use gb::sound::channels::{FrameSequencer, Lfsr};

fn clocks(length: u16, vol: u16, sweep: u16, cycles: u64) -> Clocks {
    Clocks { length, vol, sweep, cycles }
}

fn regs(nrx0: u8, nrx1: u8, nrx2: u8, nrx3: u8, nrx4: u8) -> ChannelRegs {
    ChannelRegs { nrx0, nrx1, nrx2, nrx3, nrx4 }
}

#[test]
fn register_fields() {
    let r = regs(0x7b, 0xc5, 0xa3, 0x34, 0xc6);
    assert_eq!(r.freq(), 0x634);
    assert_eq!(Freq::period(&r), 2048 - 0x634);
    assert_eq!(r.length(), 64 - 5);
    assert!(r.enabled());
    assert!(r.trigger());
    let mut s = r;
    s.clear_trigger();
    assert_eq!(s.nrx4, 0x46);
    s.set_freq(0x7ff);
    assert_eq!((s.nrx3, s.nrx4), (0xff, 0x47));
}

#[test]
fn envelope_steps_down_once_per_period() {
    let r = regs(0, 0, 0xf3, 0, 0);
    let mut v = Vol::new();
    assert_eq!(v.step(&r, &clocks(0, 0, 0, 0)), 15);
    assert_eq!(v.step(&r, &clocks(0, 2, 0, 0)), 15);
    assert_eq!(v.step(&r, &clocks(0, 1, 0, 0)), 14);
    assert_eq!(v.step(&r, &clocks(0, 60, 0, 0)), 0);
}

#[test]
fn envelope_steps_up_to_fifteen() {
    let r = regs(0, 0, 0xc9, 0, 0);
    let mut v = Vol::new();
    assert_eq!(v.step(&r, &clocks(0, 2, 0, 0)), 14);
    assert_eq!(v.step(&r, &clocks(0, 5, 0, 0)), 15);
}

#[test]
fn duty_patterns() {
    // 50% duty: high at steps 0, 5, 6, 7
    let r = regs(0, 0x80, 0, 0, 0);
    let mut d = Duty::new();
    assert!(!d.step(&r, 1));
    assert!(!d.step(&r, 3));
    assert!(d.step(&r, 1));
    assert!(d.step(&r, 3));
}

#[test]
fn length_counter_stops_the_channel() {
    let r = regs(0, 60, 0, 0, 0x40);
    let mut l = Length::new();
    assert_eq!(l.step(&r, &clocks(3, 0, 0, 0)), Some(()));
    assert_eq!(l.step(&r, &clocks(1, 0, 0, 0)), None);
    let free = regs(0, 60, 0, 0, 0);
    let mut l2 = Length::new();
    assert_eq!(l2.step(&free, &clocks(100, 0, 0, 0)), Some(()));
}

#[test]
fn timer_counts_frequency_periods() {
    let r = regs(0, 0, 0, 0x00, 0x07);
    // period 2048 - 0x700 = 256
    let mut t = Timer::new();
    assert_eq!(t.step(&r, &clocks(0, 0, 0, 600)), 2);
    assert_eq!(t.step(&r, &clocks(0, 0, 0, 170)), 1);
}

#[test]
fn sweep_raises_the_frequency_and_overflows() {
    // period 1, shift 1, up
    let mut r = regs(0x11, 0, 0, 0x00, 0x04);
    let mut s = Sweep::new();
    assert_eq!(s.step(&mut r, &clocks(0, 0, 1, 0)), Some(()));
    assert_eq!(r.freq(), 0x600);
    assert_eq!(s.step(&mut r, &clocks(0, 0, 1, 0)), None);
    assert_eq!(r.freq(), 0x600);
}

#[test]
fn noise_register_shifts() {
    let mut l = Lfsr::new();
    assert!(!l.step(1, 0));
    let mut short = Lfsr::new();
    short.step(1, 0x08);
    assert!(!short.step(0, 0x08));
}

#[test]
fn frame_sequencer_clocks() {
    let mut f = FrameSequencer::new();
    let c = f.step(4096 * 8);
    assert_eq!((c.length, c.vol, c.sweep), (4, 1, 2));
    let c = f.step(4095);
    assert_eq!((c.length, c.vol, c.sweep), (0, 0, 0));
    let c = f.step(1);
    assert_eq!((c.length, c.vol, c.sweep), (0, 0, 0));
    let c = f.step(4096);
    assert_eq!((c.length, c.vol, c.sweep), (1, 0, 0));
}
