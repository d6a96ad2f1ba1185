//! The sound unit: the channel registers, the master registers NR50..NR52,
//! wave RAM, and the per-channel state the registers control.
use crate::cycles::CycleCount;
use crate::emptymem::EmptyMem;
use crate::mem::Mem;
use crate::peripherals::{Addressable, Peripheral, PeripheralData};
use crate::waittimer::WaitTimer;
use channel::{periods, ChannelRegs};
use channels::{signed_level, wave_level, wave_nibble, AudioChannel, Channel1, Channel2, Channel3, Channel4, FrameSequencer};
use channel::duty_high;
use vstd::prelude::*;

pub mod channel;
pub mod channels;

verus! {

pub const NR10_ADDR: u16 = 0xff10;

pub const NR50_ADDR: u16 = 0xff24;

pub const NR51_ADDR: u16 = 0xff25;

pub const NR52_ADDR: u16 = 0xff26;

pub const WAVE_ADDR: u16 = 0xff30;

/// Bits of a sound register that always read as 1 (unused or write-only
/// bits), for the registers 0xFF10..=0xFF26.
pub open spec fn read_mask(addr: u16) -> u8 {
    let i = addr - NR10_ADDR;
    if i == 0 {
        0x80u8
    } else if i == 1 {
        0x3f
    } else if i == 2 {
        0x00
    } else if i == 3 {
        0xff
    } else if i == 4 {
        0xbf
    } else if i == 5 {
        0xff
    } else if i == 6 {
        0x3f
    } else if i == 7 {
        0x00
    } else if i == 8 {
        0xff
    } else if i == 9 {
        0xbf
    } else if i == 10 {
        0x7f
    } else if i == 11 {
        0xff
    } else if i == 12 {
        0x9f
    } else if i == 13 {
        0xff
    } else if i == 14 {
        0xbf
    } else if i == 15 {
        0xff
    } else if i == 16 {
        0xff
    } else if i == 17 {
        0x00
    } else if i == 18 {
        0x00
    } else if i == 19 {
        0xbf
    } else if i == 22 {
        0x70
    } else {
        0x00
    }
}

/// Whether `addr` belongs to the sound unit.
pub open spec fn sound_handles(addr: u16) -> bool {
    0xff10 <= addr <= 0xff3f
}

/// The register that holds channel `ch`'s register `n` (NRx0..NRx4).
pub open spec fn channel_reg_addr(ch: int, n: int) -> u16 {
    (NR10_ADDR + ch * 5 + n) as u16
}

/// Whether writing `v` to the given register turns the channel's DAC off:
/// NR30 bit 7 for the wave channel, the upper five bits of NRx2 for the
/// others.
pub open spec fn dac_off_write(addr: u16, v: u8) -> bool {
    ||| (addr == 0xff12 || addr == 0xff17 || addr == 0xff21) && v & 0xf8 == 0
    ||| addr == 0xff1a && v & 0x80 == 0
}

/// The channel whose NRx4 register `addr` is.
pub open spec fn trigger_channel(addr: u16) -> int {
    if addr == 0xff14 {
        0
    } else if addr == 0xff19 {
        1
    } else if addr == 0xff1e {
        2
    } else {
        3
    }
}

pub open spec fn is_trigger_reg(addr: u16) -> bool {
    addr == 0xff14 || addr == 0xff19 || addr == 0xff1e || addr == 0xff23
}

/// The mixer and its registers.
pub struct Mixer {
    regs: Vec<u8>,
    wave: Mem,
    unused: EmptyMem,
    ch1: Channel1,
    ch2: Channel2,
    ch3: Channel3,
    ch4: Channel4,
    rate: Option<CycleCount>,
    wait: WaitTimer,
    frame_seq: FrameSequencer,
}

/// A usable sample period: positive and at most half a second.
pub open spec fn rate_ok(rate: Option<CycleCount>) -> bool {
    rate matches Some(r) ==> 0 < r <= 0x10_0000
}

/// Channel 1's level as it stands (nothing while it is off): its duty
/// output at the envelope's volume.
pub open spec fn level1_of(ch: Channel1, regs: Seq<u8>) -> int {
    if ch.spec_enabled() {
        signed_level(duty_high((regs[1] & 0xc0) >> 6u8, ch.spec_duty_offset()), ch.spec_volume()->0)
    } else {
        0
    }
}

/// Channel 2's level as it stands.
pub open spec fn level2_of(ch: Channel2, regs: Seq<u8>) -> int {
    if ch.spec_enabled() {
        signed_level(duty_high((regs[6] & 0xc0) >> 6u8, ch.spec_duty_offset()), ch.spec_volume()->0)
    } else {
        0
    }
}

/// Channel 3's level as it stands: the wave nibble at its position after
/// NR32's volume code.
pub open spec fn level3_of(ch: Channel3, regs: Seq<u8>, wave: Seq<u8>) -> int {
    if ch.spec_enabled() {
        match ch.spec_pos() {
            Some(p) => wave_level((regs[12] / 32) % 4, wave_nibble(wave, p as int)) as int,
            None => 0,
        }
    } else {
        0
    }
}

/// Channel 4's level as it stands: the shift register's output at the
/// envelope's volume.
pub open spec fn level4_of(ch: Channel4) -> int {
    if ch.spec_enabled() {
        signed_level(ch.spec_lfsr() % 2 == 0, ch.spec_volume()->0)
    } else {
        0
    }
}

/// One output sample: the channel sum scaled by the master volume (0..=7),
/// added to the silence level, both saturating.
pub open spec fn mix_sample(silence: i16, sum: int, vol: u8) -> i16 {
    let s = if sum > 32767 { 32767 } else if sum < -32768 { -32768 } else { sum };
    let m = s * (128 * vol);
    let m2 = if m > 32767 { 32767 } else if m < -32768 { -32768 } else { m };
    let t = silence + m2;
    (if t > 32767 { 32767 } else if t < -32768 { -32768 } else { t }) as i16
}

impl Mixer {
    /// The stored byte of register 0xFF10 + i.
    pub closed spec fn raw(&self, addr: u16) -> u8 {
        self.regs@[addr - NR10_ADDR]
    }

    pub closed spec fn channel_on(&self, ch: int) -> bool {
        if ch == 0 {
            self.ch1.spec_enabled()
        } else if ch == 1 {
            self.ch2.spec_enabled()
        } else if ch == 2 {
            self.ch3.spec_enabled()
        } else {
            self.ch4.spec_enabled()
        }
    }

    /// The sample period, in cycles, when samples are wanted.
    pub closed spec fn spec_rate(&self) -> Option<CycleCount> {
        self.rate
    }

    /// Cycles accumulated towards the next sample.
    pub closed spec fn spec_sample_acc(&self) -> u64 {
        self.wait.spec_acc()
    }

    pub closed spec fn wave_ram(&self) -> Seq<u8> {
        self.wave.contents()
    }

    pub closed spec fn wave_locked(&self) -> bool {
        self.wave.spec_read_only()
    }

    pub closed spec fn level1(&self) -> int {
        level1_of(self.ch1, self.regs@)
    }

    pub closed spec fn level2(&self) -> int {
        level2_of(self.ch2, self.regs@)
    }

    pub closed spec fn level3(&self) -> int {
        level3_of(self.ch3, self.regs@, self.wave.contents())
    }

    pub closed spec fn level4(&self) -> int {
        level4_of(self.ch4)
    }

    /// The left and right sums of the channels' levels: channel i goes
    /// left when NR51 bit i is set and right when bit i + 4 is.
    pub closed spec fn outputs(&self) -> (int, int) {
        let nr51 = self.regs@[21];
        let l = (if nr51 & 0x01 != 0 { self.level1() } else { 0 }) + (if nr51 & 0x02 != 0 {
            self.level2()
        } else {
            0
        }) + (if nr51 & 0x04 != 0 { self.level3() } else { 0 }) + (if nr51 & 0x08 != 0 {
            self.level4()
        } else {
            0
        });
        let r = (if nr51 & 0x10 != 0 { self.level1() } else { 0 }) + (if nr51 & 0x20 != 0 {
            self.level2()
        } else {
            0
        }) + (if nr51 & 0x40 != 0 { self.level3() } else { 0 }) + (if nr51 & 0x80 != 0 {
            self.level4()
        } else {
            0
        });
        (l, r)
    }

    /// Power is on while bit 7 of NR52 is set.
    pub open spec fn powered(&self) -> bool {
        self.raw(NR52_ADDR) & 0x80 != 0
    }

    pub closed spec fn wf(&self) -> bool {
        &&& self.regs@.len() == 23
        &&& self.ch1.wf()
        &&& self.ch2.wf()
        &&& self.ch3.wf()
        &&& self.ch4.wf()
        &&& self.frame_seq.wf()
        &&& rate_ok(self.rate)
        &&& self.wait.spec_acc() < 0x10_0000
        &&& self.wave.spec_base() == WAVE_ADDR
        &&& self.wave.contents().len() == 16
        &&& self.unused.spec_default() == 0xff
        &&& forall|a: u16| 0xff27 <= a <= 0xff2f ==> #[trigger] self.unused.covers(a)
    }

    /// What a read returns: the register with its unused bits set, the
    /// wave RAM byte, or 0xFF for the unused addresses.
    pub open spec fn spec_read(&self, addr: u16) -> u8 {
        if addr <= NR52_ADDR {
            self.raw(addr) | read_mask(addr)
        } else if addr < WAVE_ADDR {
            0xff
        } else {
            self.wave_ram()[addr - WAVE_ADDR]
        }
    }

    /// A silent mixer: every register and wave RAM zero, all channels off;
    /// `rate` is the sample period in cycles, when samples are wanted.
    pub fn new(rate: Option<CycleCount>) -> (r: Mixer)
        requires
            rate_ok(rate),
        ensures
            r.wf(),
            r.spec_rate() == rate,
            r.spec_sample_acc() == 0,
            forall|a: u16| NR10_ADDR <= a <= NR52_ADDR ==> #[trigger] r.raw(a) == 0,
            forall|ch: int| 0 <= ch < 4 ==> !#[trigger] r.channel_on(ch),
            r.wave_ram() == Seq::new(16, |i: int| 0u8),
            !r.wave_locked(),
    {
        let regs = vec![0u8; 23];
        let wave = Mem::new(false, WAVE_ADDR, vec![0u8; 16]);
        let unused = EmptyMem::new(0xff, 0xff1f, 17);
        assert(wave.contents() =~= Seq::new(16, |i: int| 0u8));
        Mixer {
            regs,
            wave,
            unused,
            ch1: Channel1::new(),
            ch2: Channel2::new(),
            ch3: Channel3::new(),
            ch4: Channel4::new(),
            rate,
            wait: WaitTimer::new(),
            frame_seq: FrameSequencer::new(),
        }
    }

    fn mask(addr: u16) -> (r: u8)
        requires
            NR10_ADDR <= addr <= NR52_ADDR,
        ensures
            r == read_mask(addr),
    {
        let i = addr - NR10_ADDR;
        if i == 0 {
            0x80
        } else if i == 1 {
            0x3f
        } else if i == 2 {
            0x00
        } else if i == 3 {
            0xff
        } else if i == 4 {
            0xbf
        } else if i == 5 {
            0xff
        } else if i == 6 {
            0x3f
        } else if i == 7 {
            0x00
        } else if i == 8 {
            0xff
        } else if i == 9 {
            0xbf
        } else if i == 10 {
            0x7f
        } else if i == 11 {
            0xff
        } else if i == 12 {
            0x9f
        } else if i == 13 {
            0xff
        } else if i == 14 {
            0xbf
        } else if i == 15 {
            0xff
        } else if i == 16 {
            0xff
        } else if i == 17 {
            0x00
        } else if i == 18 {
            0x00
        } else if i == 19 {
            0xbf
        } else if i == 22 {
            0x70
        } else {
            0x00
        }
    }

    /// Turns channel `ch` off; nothing else changes.
    fn disable_channel(&mut self, ch: usize)
        requires
            old(self).wf(),
            ch < 4,
        ensures
            final(self).wf(),
            !final(self).channel_on(ch as int),
            forall|c: int| 0 <= c < 4 && c != ch ==> #[trigger] final(self).channel_on(c) == old(self).channel_on(c),
            final(self).regs == old(self).regs,
            final(self).wave == old(self).wave,
            final(self).unused == old(self).unused,
            final(self).rate == old(self).rate,
            final(self).wait == old(self).wait,
    {
        if ch == 0 {
            self.ch1.disable();
        } else if ch == 1 {
            self.ch2.disable();
        } else if ch == 2 {
            self.ch3.disable();
        } else {
            self.ch4.disable();
        }
    }

    /// Restarts channel `ch`, which then plays exactly when `on`; nothing
    /// else changes.
    fn restart_channel(&mut self, ch: usize, on: bool)
        requires
            old(self).wf(),
            ch < 4,
        ensures
            final(self).wf(),
            final(self).channel_on(ch as int) == on,
            forall|c: int| 0 <= c < 4 && c != ch ==> #[trigger] final(self).channel_on(c) == old(self).channel_on(c),
            final(self).regs == old(self).regs,
            final(self).wave == old(self).wave,
            final(self).unused == old(self).unused,
            final(self).rate == old(self).rate,
            final(self).wait == old(self).wait,
    {
        if ch == 0 {
            self.ch1.reset();
        } else if ch == 1 {
            self.ch2.reset();
        } else if ch == 2 {
            self.ch3.reset();
        } else {
            self.ch4.reset();
        }
        if !on {
            self.disable_channel(ch);
        }
    }

    /// Whether a channel's DAC is on: NR30 bit 7 for the wave channel, the
    /// upper five bits of NRx2 for the others.
    fn dac_enabled(&self, ch: usize) -> (r: bool)
        requires
            self.wf(),
            ch < 4,
        ensures
            r == (if ch == 2 {
                self.raw(0xff1a) & 0x80 != 0
            } else {
                self.raw(channel_reg_addr(ch as int, 2)) & 0xf8 != 0
            }),
    {
        if ch == 2 {
            self.regs[10] & 0x80 != 0
        } else {
            self.regs[ch * 5 + 2] & 0xf8 != 0
        }
    }
}

/// Runs channel 1 for one sample period: its level after the period (see
/// `level1_of`); a channel with nothing to play, or every channel while
/// the power is off, is turned off. The sweep may rewrite NR13 and NR14.
fn sample1(ch: &mut Channel1, regs: &mut Vec<u8>, wave: &Vec<u8>, powered: bool, clocks: &channel::Clocks) -> (v: i16)
    requires
        old(ch).wf(),
        old(regs)@.len() == 23,
        wave@.len() == 16,
    ensures
        final(ch).wf(),
        final(regs)@.len() == 23,
        forall|i: int| 0 <= i < 23 && i != 3 && i != 4 ==> #[trigger] final(regs)@[i] == old(regs)@[i],
        v == level1_of(*final(ch), final(regs)@),
        -15 <= v <= 15,
        !powered ==> !final(ch).spec_enabled(),
{
    if !powered {
        ch.disable();
        return 0;
    }
    let mut r = ChannelRegs { nrx0: regs[0], nrx1: regs[1], nrx2: regs[2], nrx3: regs[3], nrx4: regs[4] };
    let out = match ch.sample(&mut r, wave, clocks) {
        Some(v) => v,
        None => {
            ch.disable();
            0
        },
    };
    regs.set(3, r.nrx3);
    regs.set(4, r.nrx4);
    out
}

/// Runs channel 2 for one sample period (see `level2_of`).
fn sample2(ch: &mut Channel2, regs: &Vec<u8>, wave: &Vec<u8>, powered: bool, clocks: &channel::Clocks) -> (v: i16)
    requires
        old(ch).wf(),
        regs@.len() == 23,
        wave@.len() == 16,
    ensures
        final(ch).wf(),
        v == level2_of(*final(ch), regs@),
        -15 <= v <= 15,
        !powered ==> !final(ch).spec_enabled(),
{
    if !powered {
        ch.disable();
        return 0;
    }
    let mut r = ChannelRegs { nrx0: regs[5], nrx1: regs[6], nrx2: regs[7], nrx3: regs[8], nrx4: regs[9] };
    match ch.sample(&mut r, wave, clocks) {
        Some(v) => v,
        None => {
            ch.disable();
            0
        },
    }
}

/// Runs channel 3 for one sample period (see `level3_of`).
fn sample3(ch: &mut Channel3, regs: &Vec<u8>, wave: &Vec<u8>, powered: bool, clocks: &channel::Clocks) -> (v: i16)
    requires
        old(ch).wf(),
        regs@.len() == 23,
        wave@.len() == 16,
    ensures
        final(ch).wf(),
        v == level3_of(*final(ch), regs@, wave@),
        -15 <= v <= 15,
        !powered ==> !final(ch).spec_enabled(),
{
    if !powered {
        ch.disable();
        return 0;
    }
    let mut r = ChannelRegs { nrx0: regs[10], nrx1: regs[11], nrx2: regs[12], nrx3: regs[13], nrx4: regs[14] };
    match ch.sample(&mut r, wave, clocks) {
        Some(v) => v,
        None => {
            ch.disable();
            0
        },
    }
}

/// Runs channel 4 for one sample period (see `level4_of`).
fn sample4(ch: &mut Channel4, regs: &Vec<u8>, wave: &Vec<u8>, powered: bool, clocks: &channel::Clocks) -> (v: i16)
    requires
        old(ch).wf(),
        regs@.len() == 23,
        wave@.len() == 16,
    ensures
        final(ch).wf(),
        v == level4_of(*final(ch)),
        -15 <= v <= 15,
        !powered ==> !final(ch).spec_enabled(),
{
    if !powered {
        ch.disable();
        return 0;
    }
    let mut r = ChannelRegs { nrx0: regs[15], nrx1: regs[16], nrx2: regs[17], nrx3: regs[18], nrx4: regs[19] };
    match ch.sample(&mut r, wave, clocks) {
        Some(v) => v,
        None => {
            ch.disable();
            0
        },
    }
}

/// The output sample for a channel sum and a master volume (see
/// `mix_sample`).
fn mix(silence: i16, sum: i16, vol: u8) -> (r: i16)
    requires
        -60 <= sum <= 60,
        vol <= 7,
    ensures
        r == mix_sample(silence, sum as int, vol),
{
    assert(-60 * 896 <= sum * (128 * vol) <= 60 * 896) by (nonlinear_arith)
        requires
            -60 <= sum <= 60,
            vol <= 7,
    ;
    let m: i32 = sum as i32 * (128 * vol as i32);
    let m2: i32 = if m > 32767 {
        32767
    } else if m < -32768 {
        -32768
    } else {
        m
    };
    let t: i32 = silence as i32 + m2;
    if t > 32767 {
        32767
    } else if t < -32768 {
        -32768
    } else {
        t as i16
    }
}

impl Mixer {
    /// Runs the four channels for one sample period and sums their levels
    /// into the left (NR51 bit i for channel i) and right (bit i + 4) outputs;
    /// a channel with nothing to play, or all of them while the power is
    /// off, is turned off.
    fn sample_channels(&mut self, clocks: &channel::Clocks) -> (r: (i16, i16))
        requires
            old(self).wf(),
        ensures
            final(self).wf(),
            -60 <= r.0 <= 60,
            -60 <= r.1 <= 60,
            (r.0 as int, r.1 as int) == final(self).outputs(),
            !old(self).powered() ==> forall|ch: int| 0 <= ch < 4 ==> !#[trigger] final(self).channel_on(ch),
            final(self).wave == old(self).wave,
            final(self).unused == old(self).unused,
            final(self).rate == old(self).rate,
            final(self).wait == old(self).wait,
            final(self).frame_seq == old(self).frame_seq,
            forall|i: int| 0 <= i < 23 && i != 3 && i != 4 ==> #[trigger] final(self).regs@[i] == old(self).regs@[i],
    {
        let powered = self.regs[22] & 0x80 != 0;
        let nr51 = self.regs[21];
        let wave = self.wave.bytes();
        let v1 = sample1(&mut self.ch1, &mut self.regs, wave, powered, clocks);
        let v2 = sample2(&mut self.ch2, &self.regs, wave, powered, clocks);
        let v3 = sample3(&mut self.ch3, &self.regs, wave, powered, clocks);
        let v4 = sample4(&mut self.ch4, &self.regs, wave, powered, clocks);
        let left = (if nr51 & 0x01 != 0 { v1 } else { 0 }) + (if nr51 & 0x02 != 0 { v2 } else { 0 }) + (if nr51
            & 0x04 != 0 {
            v3
        } else {
            0
        }) + (if nr51 & 0x08 != 0 { v4 } else { 0 });
        let right = (if nr51 & 0x10 != 0 { v1 } else { 0 }) + (if nr51 & 0x20 != 0 { v2 } else { 0 }) + (if nr51
            & 0x40 != 0 {
            v3
        } else {
            0
        }) + (if nr51 & 0x80 != 0 { v4 } else { 0 });
        (left, right)
    }

    /// Produces the samples due after `time` more cycles (when a sample
    /// period is set and the host wants audio): per sample, the frame
    /// sequencer advances by the period, the channels are mixed, and the
    /// left and right samples are appended.
    fn generate(&mut self, data: &mut PeripheralData, time: CycleCount)
        requires
            old(self).wf(),
            time <= 64,
        ensures
            final(self).wf(),
            final(data).lcd == old(data).lcd,
            final(data).serial == old(data).serial,
            final(data).vblank == old(data).vblank,
            final(self).rate == old(self).rate,
            final(self).wave == old(self).wave,
            final(self).unused == old(self).unused,
            forall|i: int| 0 <= i < 23 && i != 3 && i != 4 ==> #[trigger] final(self).regs@[i] == old(self).regs@[i],
            match (old(self).spec_rate(), old(data).audio_spec) {
                (Some(rate), Some(a0)) => final(data).audio_spec matches Some(a1) && {
                    let n = periods(old(self).spec_sample_acc(), time, rate);
                    &&& a1.samples@.len() == a0.samples@.len() + 2 * n
                    &&& a1.samples@.subrange(0, a0.samples@.len() as int) == a0.samples@
                    &&& a1.freq == a0.freq
                    &&& a1.silence == a0.silence
                },
                _ => final(data).audio_spec == old(data).audio_spec,
            },
    {
        let rate = match self.rate {
            Some(r) => r,
            None => {
                return;
            },
        };
        let mut taken: Option<crate::peripherals::AudioSpec> = None;
        std::mem::swap(&mut taken, &mut data.audio_spec);
        match taken {
            Some(mut audio) => {
                let ghost a0 = audio;
                if let Some(count) = self.wait.ready(time, rate) {
                    let mut k: u64 = 0;
                    while k < count
                        invariant
                            k <= count,
                            self.wf(),
                            self.rate == Some(rate),
                            self.rate == old(self).rate,
                            self.wave == old(self).wave,
                            self.unused == old(self).unused,
                            forall|i: int| 0 <= i < 23 && i != 3 && i != 4 ==> #[trigger] self.regs@[i] == old(self).regs@[i],
                            audio.samples@.len() == a0.samples@.len() + 2 * k,
                            audio.samples@.subrange(0, a0.samples@.len() as int) == a0.samples@,
                            audio.freq == a0.freq,
                            audio.silence == a0.silence,
                            count == periods(old(self).spec_sample_acc(), time, rate),
                        decreases count - k,
                    {
                        let clocks = self.frame_seq.step(rate);
                        let (l, r) = self.sample_channels(&clocks);
                        let nr50 = self.regs[20];
                        let lv = nr50 & 0b111;
                        let rv = (nr50 & 0b0111_0000) >> 4;
                        proof {
                            crate::bits::lemma_byte_masks();
                            assert((nr50 & 0x70) >> 4u8 <= 7) by (bit_vector);
                        }
                        let ghost before = audio.samples@;
                        audio.samples.push(mix(audio.silence, l, lv));
                        audio.samples.push(mix(audio.silence, r, rv));
                        proof {
                            assert(audio.samples@.subrange(0, a0.samples@.len() as int) =~= before.subrange(0, a0.samples@.len() as int));
                        }
                        k = k + 1;
                    }
                }
                data.audio_spec = Some(audio);
            },
            None => {
                data.audio_spec = None;
            },
        }
    }
}

impl Addressable for Mixer {
    open spec fn handles(&self, addr: u16) -> bool {
        self.wf() && sound_handles(addr)
    }

    fn read_byte(&mut self, addr: u16) -> (r: u8)
        ensures
            r == old(self).spec_read(addr),
            *final(self) == *old(self),
    {
        if addr <= NR52_ADDR {
            self.regs[(addr - NR10_ADDR) as usize] | Mixer::mask(addr)
        } else if addr < WAVE_ADDR {
            self.unused.read_byte(addr)
        } else {
            self.wave.read_byte(addr)
        }
    }

    /// While the power is off only NR52 can be written. A write stores the
    /// byte; writing NR52 with bit 7 clear turns the power off, which clears
    /// every channel register and NR50/NR51 and silences the channels. A
    /// write that turns a channel's DAC off silences it; setting bit 7 of
    /// NRx4 triggers the channel, which then plays if its DAC is on. Wave
    /// RAM ignores writes while the wave channel plays.
    fn write_byte(&mut self, addr: u16, v: u8)
        ensures
            final(self).wf(),
            !old(self).powered() && addr != NR52_ADDR ==> *final(self) == *old(self),
            addr == NR52_ADDR && v & 0x80 == 0 ==> {
                &&& final(self).raw(NR52_ADDR) == v
                &&& forall|a: u16| NR10_ADDR <= a < NR52_ADDR ==> #[trigger] final(self).raw(a) == 0
                &&& forall|ch: int| 0 <= ch < 4 ==> !#[trigger] final(self).channel_on(ch)
                &&& final(self).wave_ram() == old(self).wave_ram()
            },
            addr == NR52_ADDR && v & 0x80 != 0 ==> {
                &&& final(self).raw(NR52_ADDR) == v
                &&& forall|a: u16| NR10_ADDR <= a < NR52_ADDR ==> #[trigger] final(self).raw(a) == old(self).raw(a)
                &&& forall|ch: int| 0 <= ch < 4 ==> #[trigger] final(self).channel_on(ch) == old(self).channel_on(ch)
                &&& final(self).wave_ram() == old(self).wave_ram()
            },
            old(self).powered() && addr < NR52_ADDR ==> {
                &&& final(self).raw(addr) == v
                &&& forall|a: u16| NR10_ADDR <= a <= NR52_ADDR && a != addr ==> #[trigger] final(self).raw(a) == old(self).raw(a)
                &&& final(self).wave_ram() == old(self).wave_ram()
                &&& forall|ch: int| 0 <= ch < 4 ==> #[trigger] final(self).channel_on(ch) == (
                    if dac_off_write(addr, v) && ch == (if addr == 0xff12 { 0int } else if addr == 0xff17 { 1 } else if addr == 0xff1a { 2 } else { 3 }) {
                        false
                    } else if is_trigger_reg(addr) && v & 0x80 != 0 && ch == trigger_channel(addr) {
                        if ch == 2 {
                            final(self).raw(0xff1a) & 0x80 != 0
                        } else {
                            final(self).raw(channel_reg_addr(ch, 2)) & 0xf8 != 0
                        }
                    } else {
                        old(self).channel_on(ch)
                    })
            },
            old(self).powered() && addr >= WAVE_ADDR ==> {
                &&& forall|a: u16| NR10_ADDR <= a <= NR52_ADDR ==> #[trigger] final(self).raw(a) == old(self).raw(a)
                &&& final(self).wave_ram() == (if old(self).wave_locked() {
                    old(self).wave_ram()
                } else {
                    old(self).wave_ram().update(addr - WAVE_ADDR, v)
                })
            },
            final(self).wave_locked() == old(self).wave_locked(),
            old(self).powered() && NR52_ADDR < addr < WAVE_ADDR ==> *final(self) == *old(self),
    {
        let powered = self.regs[22] & 0x80 != 0;
        if !powered && addr != NR52_ADDR {
            return;
        }
        if addr == NR52_ADDR {
            self.regs.set(22, v);
            if v & 0x80 == 0 {
                let mut i: usize = 0;
                while i < 22
                    invariant
                        i <= 22,
                        self.regs@.len() == 23,
                        self.ch1 == old(self).ch1,
                        self.ch2 == old(self).ch2,
                        self.ch3 == old(self).ch3,
                        self.ch4 == old(self).ch4,
                        self.frame_seq == old(self).frame_seq,
                        self.rate == old(self).rate,
                        self.wait == old(self).wait,
                        self.wave == old(self).wave,
                        self.unused == old(self).unused,
                        old(self).wf(),
                        self.regs@[22] == v,
                        forall|k: int| 0 <= k < i ==> self.regs@[k] == 0,
                    decreases 22 - i,
                {
                    self.regs.set(i, 0);
                    i = i + 1;
                }
                self.disable_channel(0);
                self.disable_channel(1);
                self.disable_channel(2);
                self.disable_channel(3);
            }
        } else if addr < NR52_ADDR {
            self.regs.set((addr - NR10_ADDR) as usize, v);
            if (addr == 0xff12 || addr == 0xff17 || addr == 0xff21) && v & 0xf8 == 0 {
                let ch: usize = if addr == 0xff12 { 0 } else if addr == 0xff17 { 1 } else { 3 };
                self.disable_channel(ch);
            } else if addr == 0xff1a && v & 0x80 == 0 {
                self.disable_channel(2);
            } else if (addr == 0xff14 || addr == 0xff19 || addr == 0xff1e || addr == 0xff23) && v
                & 0x80 != 0 {
                let ch: usize = if addr == 0xff14 {
                    0
                } else if addr == 0xff19 {
                    1
                } else if addr == 0xff1e {
                    2
                } else {
                    3
                };
                let on = self.dac_enabled(ch);
                self.restart_channel(ch, on);
            }
        } else if addr >= WAVE_ADDR {
            self.wave.write_byte(addr, v);
        }
    }
}

impl Peripheral for Mixer {
    open spec fn can_step(&self, time: CycleCount) -> bool {
        self.wf() && time <= 64
    }

    /// Reports in bits 0..3 of NR52 which channels play, and locks wave RAM
    /// while the wave channel plays.
    fn step(&mut self, data: &mut PeripheralData, time: CycleCount) -> (r: u8)
        ensures
            r == 0,
            final(self).wf(),
            final(data).lcd_view() == old(data).lcd_view(),
            final(data).serial == old(data).serial,
            final(data).vblank == old(data).vblank,
            final(self).spec_rate() == old(self).spec_rate(),
            match (old(self).spec_rate(), old(data).audio_spec) {
                (Some(rate), Some(a0)) => final(data).audio_spec matches Some(a1) && {
                    let n = periods(old(self).spec_sample_acc(), time, rate);
                    &&& a1.samples@.len() == a0.samples@.len() + 2 * n
                    &&& a1.samples@.subrange(0, a0.samples@.len() as int) == a0.samples@
                    &&& a1.freq == a0.freq
                    &&& a1.silence == a0.silence
                },
                _ => final(data).audio_spec == old(data).audio_spec,
            },
    {
        self.generate(data, time);
        let status = (self.regs[22] & 0xf0) | (if self.ch1.enabled() { 1u8 } else { 0u8 }) | (
        if self.ch2.enabled() {
            2u8
        } else {
            0u8
        }) | (if self.ch3.enabled() { 4u8 } else { 0u8 }) | (if self.ch4.enabled() { 8u8 } else { 0u8 });
        self.regs.set(22, status);
        let locked = self.ch3.enabled();
        self.wave.set_readonly(locked);
        0
    }

    fn next_step(&self) -> (r: Option<CycleCount>)
        ensures
            r == Some(u64::MAX),
    {
        Some(u64::MAX)
    }
}

} // verus!
