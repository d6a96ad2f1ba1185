//! The four sound channels (two square waves, the first with a frequency
//! sweep; the wave channel; the noise channel), the frame sequencer that
//! clocks their envelopes, lengths and sweep, and the interface the mixer
//! drives them through.
use super::channel::{
    acc_after, duty_high, length_lasts, periods, sweep_lasts, ChannelRegs, Clocks, Duty, Freq, HasRegs, Length, LengthPass,
    Sweep, Timer, Vol,
};
use crate::cycles::{CycleCount, SECOND};
use crate::waittimer::WaitTimer;
use vstd::prelude::*;

verus! {

/// A sound channel as the mixer drives it.
pub trait AudioChannel {
    spec fn spec_enabled(&self) -> bool;

    spec fn wf(&self) -> bool;

    /// Restarts the channel (its units start over) and turns it on.
    fn reset(&mut self)
        ensures
            final(self).wf(),
            final(self).spec_enabled(),
    ;

    /// Turns the channel off.
    fn disable(&mut self)
        requires
            old(self).wf(),
        ensures
            final(self).wf(),
            !final(self).spec_enabled(),
    ;

    fn enabled(&self) -> (r: bool)
        ensures
            r == self.spec_enabled(),
    ;

    /// The channel's output for one sample period (a signed 4-bit level),
    /// or `None` when it has nothing to play or stopped during the period.
    fn sample(&mut self, regs: &mut ChannelRegs, wave: &Vec<u8>, clocks: &Clocks) -> (r: Option<i16>)
        requires
            old(self).wf(),
            wave@.len() == 16,
        ensures
            final(self).wf(),
            final(self).spec_enabled() == old(self).spec_enabled(),
            !old(self).spec_enabled() ==> r is None,
            r matches Some(v) ==> -15 <= v <= 15,
    ;
}

/// A level played with the sign the duty or noise output gives it.
pub open spec fn signed_level(high: bool, vol: u8) -> int {
    if high {
        vol as int
    } else {
        -(vol as int)
    }
}

/// Channel 1: a square wave with a frequency sweep.
pub struct Channel1 {
    enabled: bool,
    vol: Vol,
    timer: Timer,
    sweep: Sweep,
    length: Length,
    duty: Duty,
}

impl Channel1 {
    pub closed spec fn spec_duty_offset(&self) -> u8 {
        self.duty.spec_offset()
    }

    pub closed spec fn spec_volume(&self) -> Option<u8> {
        self.vol.spec_volume()
    }

    pub fn new() -> (r: Channel1)
        ensures
            r.wf(),
            !r.spec_enabled(),
    {
        Channel1 {
            enabled: false,
            vol: Vol::new(),
            timer: Timer::new(),
            sweep: Sweep::new(),
            length: Length::new(),
            duty: Duty::new(),
        }
    }
}

impl Channel1 {
    /// Whether a sample with these registers and clocks plays: the channel
    /// is on, and neither its length counter nor its sweep stops it.
    pub closed spec fn plays(&self, regs: ChannelRegs, c: Clocks) -> bool {
        self.enabled && length_lasts(self.length.spec_count(), regs.spec_length(), regs.spec_regs().nrx4 & 0x40 != 0, c.length)
            && sweep_lasts(self.sweep.spec_shadow(), self.sweep.spec_acc(), regs.spec_regs(), c.sweep)
    }
}

impl AudioChannel for Channel1 {
    closed spec fn spec_enabled(&self) -> bool {
        self.enabled
    }

    closed spec fn wf(&self) -> bool {
        self.vol.wf() && self.timer.wf() && self.sweep.wf() && self.duty.wf()
    }

    fn reset(&mut self) {
        self.sweep.reset();
        self.sweep = Sweep::new();
        self.timer.reset();
        self.duty.reset();
        self.length.reset();
        self.vol.reset();
        self.enabled = true;
    }

    fn disable(&mut self) {
        self.enabled = false;
    }

    fn enabled(&self) -> (r: bool) {
        self.enabled
    }

    /// The length counter runs first (also while off); then the sweep, the
    /// timer driving the duty pattern, and the envelope.
    #[verifier::spinoff_prover]
    fn sample(&mut self, regs: &mut ChannelRegs, wave: &Vec<u8>, clocks: &Clocks) -> (r: Option<i16>)
        ensures
            (r is Some) == old(self).plays(*old(regs), *clocks),
            final(regs).nrx1 == old(regs).nrx1,
            r matches Some(v) ==> v == signed_level(
                duty_high((final(regs).nrx1 & 0xc0) >> 6u8, final(self).spec_duty_offset()),
                final(self).spec_volume()->0,
            ),
    {
        if !self.enabled {
            self.length.step(regs, clocks);
            return None;
        }
        if self.length.step(regs, clocks).is_none() {
            return None;
        }
        if self.sweep.step(regs, clocks).is_none() {
            return None;
        }
        let ticks = self.timer.step(regs, clocks);
        let high = self.duty.step(regs, ticks);
        let vol = self.vol.step(regs, clocks);
        if high {
            Some(vol as i16)
        } else {
            Some(-(vol as i16))
        }
    }
}

/// Channel 2: a square wave.
pub struct Channel2 {
    enabled: bool,
    vol: Vol,
    timer: Timer,
    length: Length,
    duty: Duty,
}

impl Channel2 {
    pub closed spec fn spec_duty_offset(&self) -> u8 {
        self.duty.spec_offset()
    }

    pub closed spec fn spec_volume(&self) -> Option<u8> {
        self.vol.spec_volume()
    }

    pub fn new() -> (r: Channel2)
        ensures
            r.wf(),
            !r.spec_enabled(),
    {
        Channel2 {
            enabled: false,
            vol: Vol::new(),
            timer: Timer::new(),
            length: Length::new(),
            duty: Duty::new(),
        }
    }
}

impl Channel2 {
    /// Whether a sample with these registers and clocks plays: the channel
    /// is on and its length counter does not stop it.
    pub closed spec fn plays(&self, regs: ChannelRegs, c: Clocks) -> bool {
        self.enabled && length_lasts(self.length.spec_count(), regs.spec_length(), regs.spec_regs().nrx4 & 0x40 != 0, c.length)
    }
}

impl AudioChannel for Channel2 {
    closed spec fn spec_enabled(&self) -> bool {
        self.enabled
    }

    closed spec fn wf(&self) -> bool {
        self.vol.wf() && self.timer.wf() && self.duty.wf()
    }

    fn reset(&mut self) {
        self.timer.reset();
        self.duty.reset();
        self.length.reset();
        self.vol.reset();
        self.enabled = true;
    }

    fn disable(&mut self) {
        self.enabled = false;
    }

    fn enabled(&self) -> (r: bool) {
        self.enabled
    }

    /// The length counter runs first (also while off); then the timer
    /// driving the duty pattern, and the envelope.
    #[verifier::spinoff_prover]
    fn sample(&mut self, regs: &mut ChannelRegs, wave: &Vec<u8>, clocks: &Clocks) -> (r: Option<i16>)
        ensures
            (r is Some) == old(self).plays(*old(regs), *clocks),
            *final(regs) == *old(regs),
            r matches Some(v) ==> v == signed_level(
                duty_high((final(regs).nrx1 & 0xc0) >> 6u8, final(self).spec_duty_offset()),
                final(self).spec_volume()->0,
            ),
    {
        if !self.enabled {
            self.length.step(regs, clocks);
            return None;
        }
        if self.length.step(regs, clocks).is_none() {
            return None;
        }
        let ticks = self.timer.step(regs, clocks);
        let high = self.duty.step(regs, ticks);
        let vol = self.vol.step(regs, clocks);
        if high {
            Some(vol as i16)
        } else {
            Some(-(vol as i16))
        }
    }
}

/// Channel 3's registers: its length counts from 256 (NRx1 whole).
pub struct WaveRegs(pub ChannelRegs);

impl HasRegs for WaveRegs {
    open spec fn spec_regs(&self) -> ChannelRegs {
        self.0
    }

    fn regs(&self) -> (r: &ChannelRegs) {
        &self.0
    }

    fn mut_regs(&mut self) -> (r: &mut ChannelRegs) {
        &mut self.0
    }
}

impl LengthPass for WaveRegs {
    open spec fn spec_length(&self) -> u16 {
        (256 - self.0.nrx1) as u16
    }

    fn length(&self) -> (r: u16) {
        256 - self.0.nrx1 as u16
    }
}

impl Freq for WaveRegs {}

/// The 4-bit wave sample at `pos` (0..32) of wave RAM: the high nibble of
/// a byte first.
pub open spec fn wave_nibble(wave: Seq<u8>, pos: int) -> u8 {
    let b = wave[pos / 2];
    if pos % 2 == 0 {
        b / 16
    } else {
        b % 16
    }
}

/// The wave output level after the volume code of NR32 (bits 5..6): mute,
/// full, half or quarter.
pub open spec fn wave_level(code: u8, s: u8) -> i16 {
    if code == 0 {
        0
    } else if code == 1 {
        s as i16
    } else if code == 2 {
        (s / 2) as i16
    } else {
        (s / 4) as i16
    }
}

/// Channel 3: plays the 32 nibbles of wave RAM.
pub struct Channel3 {
    enabled: bool,
    timer: Timer,
    length: Length,
    pos: Option<usize>,
}

impl Channel3 {
    pub closed spec fn spec_pos(&self) -> Option<usize> {
        self.pos
    }

    pub fn new() -> (r: Channel3)
        ensures
            r.wf(),
            !r.spec_enabled(),
    {
        Channel3 { enabled: false, timer: Timer::new(), length: Length::new(), pos: None }
    }
}

impl Channel3 {
    /// Whether a sample with these registers and clocks plays: the channel
    /// is on and its length counter does not stop it.
    pub closed spec fn plays(&self, regs: ChannelRegs, c: Clocks) -> bool {
        self.enabled && length_lasts(self.length.spec_count(), WaveRegs(regs).spec_length(), regs.nrx4 & 0x40 != 0, c.length)
    }
}

impl AudioChannel for Channel3 {
    closed spec fn spec_enabled(&self) -> bool {
        self.enabled
    }

    closed spec fn wf(&self) -> bool {
        &&& self.timer.wf()
        &&& (self.pos matches Some(p) ==> p < 32)
    }

    fn reset(&mut self) {
        self.timer.reset();
        self.length.reset();
        self.pos = None;
        self.enabled = true;
    }

    fn disable(&mut self) {
        self.enabled = false;
    }

    fn enabled(&self) -> (r: bool) {
        self.enabled
    }

    /// The length counter runs first (also while off); the position moves
    /// by the periods of twice the frequency's period that completed.
    #[verifier::spinoff_prover]
    fn sample(&mut self, regs: &mut ChannelRegs, wave: &Vec<u8>, clocks: &Clocks) -> (r: Option<i16>)
        ensures
            (r is Some) == old(self).plays(*old(regs), *clocks),
            *final(regs) == *old(regs),
            r matches Some(v) ==> final(self).spec_pos() matches Some(p) && v == wave_level(
                (old(regs).nrx2 / 32) % 4,
                wave_nibble(wave@, p as int),
            ),
    {
        let w = WaveRegs(*regs);
        if !self.enabled {
            self.length.step(&w, clocks);
            return None;
        }
        let period = w.period() as u64 * 2;
        let ticks = self.timer.step_period(period, clocks.cycles % 65536);
        if self.length.step(&w, clocks).is_none() {
            return None;
        }
        let p0: usize = match self.pos {
            Some(p) => p,
            None => 0,
        };
        let pos = (p0 + ticks as usize) % 32;
        self.pos = Some(pos);
        let byte = wave[pos / 2];
        let s = if pos % 2 == 0 { byte / 16 } else { byte % 16 };
        let code = (regs.nrx2 / 32) % 4;
        let v: i16 = if code == 0 {
            0
        } else if code == 1 {
            s as i16
        } else if code == 2 {
            (s / 2) as i16
        } else {
            (s / 4) as i16
        };
        Some(v)
    }
}

/// The noise channel's clock period in cycles: a divisor picked by NR43
/// bits 0..2 (8, 16, 32, .., 112), shifted left by NR43 bits 4..7.
pub open spec fn noise_period(nr43: u8) -> u64 {
    let code = nr43 % 8;
    let div: u64 = if code == 0 {
        8
    } else {
        (16 * code) as u64
    };
    (div * pow2((nr43 / 16) as nat)) as u64
}

pub open spec fn pow2(n: nat) -> nat
    decreases n,
{
    if n == 0 {
        1
    } else {
        2 * pow2((n - 1) as nat)
    }
}

/// One shift of the noise register: the XOR of its two low bits goes in at
/// bit 14 (and at bit 6 too in 7-bit mode).
pub open spec fn lfsr_next(x: u16, short: bool) -> u16 {
    let bit = (x % 2 + (x / 2) % 2) % 2;
    let y = (x / 2 + bit * 0x4000) as u16;
    if short {
        (y - ((y / 64) % 2) * 64 + bit * 64) as u16
    } else {
        y
    }
}

pub open spec fn lfsr_after(x: u16, short: bool, n: nat) -> u16
    decreases n,
{
    if n == 0 {
        x
    } else {
        lfsr_after(lfsr_next(x, short), short, (n - 1) as nat)
    }
}

/// The noise channel's 15-bit shift register.
pub struct Lfsr {
    reg: u16,
}

impl Lfsr {
    pub closed spec fn spec_reg(&self) -> u16 {
        self.reg
    }

    pub open spec fn wf(&self) -> bool {
        self.spec_reg() < 0x8000
    }

    pub fn new() -> (r: Lfsr)
        ensures
            r.wf(),
            r.spec_reg() == 0x7fff,
    {
        Lfsr { reg: 0x7fff }
    }

    /// Shifts the register `ticks` times (7-bit mode when NR43 bit 3 is
    /// set); the output is high while bit 0 is clear.
    pub fn step(&mut self, ticks: u8, nr43: u8) -> (r: bool)
        requires
            old(self).wf(),
        ensures
            final(self).wf(),
            final(self).spec_reg() == lfsr_after(old(self).spec_reg(), (nr43 / 8) % 2 == 1, ticks as nat),
            r == (final(self).spec_reg() % 2 == 0),
    {
        let short = (nr43 / 8) % 2 == 1;
        let mut k: u8 = 0;
        while k < ticks
            invariant
                k <= ticks,
                self.reg < 0x8000,
                lfsr_after(old(self).spec_reg(), short, ticks as nat) == lfsr_after(self.reg, short, (ticks - k) as nat),
            decreases ticks - k,
        {
            let x = self.reg;
            let bit = (x % 2 + (x / 2) % 2) % 2;
            let mut y = x / 2 + bit * 0x4000;
            if short {
                y = y - ((y / 64) % 2) * 64 + bit * 64;
            }
            self.reg = y;
            k = k + 1;
        }
        self.reg % 2 == 0
    }
}

/// Channel 4: noise from the shift register.
pub struct Channel4 {
    enabled: bool,
    vol: Vol,
    timer: Timer,
    length: Length,
    lfsr: Lfsr,
}

impl Channel4 {
    pub closed spec fn spec_lfsr(&self) -> u16 {
        self.lfsr.spec_reg()
    }

    pub closed spec fn spec_volume(&self) -> Option<u8> {
        self.vol.spec_volume()
    }

    pub fn new() -> (r: Channel4)
        ensures
            r.wf(),
            !r.spec_enabled(),
    {
        Channel4 {
            enabled: false,
            vol: Vol::new(),
            timer: Timer::new(),
            length: Length::new(),
            lfsr: Lfsr::new(),
        }
    }
}

fn noise_period_of(nr43: u8) -> (r: u64)
    ensures
        r == noise_period(nr43),
        0 < r <= 0x1_0000_0000,
{
    let code = nr43 % 8;
    let div: u64 = if code == 0 { 8 } else { 16 * code as u64 };
    let s = nr43 / 16;
    let mut p: u64 = div;
    let mut k: u8 = 0;
    proof {
        assert(s <= 15) by {
            assert(nr43 / 16 <= 15);
        }
    }
    while k < s
        invariant
            k <= s,
            s <= 15,
            1 <= div <= 112,
            p == div * pow2(k as nat),
        decreases s - k,
    {
        proof {
            lemma_pow2_bound(k as nat);
            lemma_pow2_bound((k + 1) as nat);
            let q = pow2(k as nat);
            assert(pow2((k + 1) as nat) == 2 * q);
            assert(div * (2 * q) == (div * q) * 2) by (nonlinear_arith);
            assert(div * q <= 112 * 16384) by (nonlinear_arith)
                requires
                    div <= 112,
                    2 * q <= 32768,
            ;
        }
        p = p * 2;
        k = k + 1;
    }
    proof {
        lemma_pow2_bound(s as nat);
        let q = pow2(s as nat);
        assert(1 <= div * q <= 112 * 32768) by (nonlinear_arith)
            requires
                1 <= div <= 112,
                1 <= q <= 32768,
        ;
    }
    p
}

proof fn lemma_pow2_bound(n: nat)
    requires
        n <= 15,
    ensures
        1 <= pow2(n) <= 32768,
{
    lemma_pow2_mono(n, 15);
    reveal_with_fuel(pow2, 16);
    assert(pow2(15) == 32768);
}

proof fn lemma_pow2_mono(n: nat, m: nat)
    requires
        n <= m,
    ensures
        1 <= pow2(n) <= pow2(m),
    decreases m,
{
    if n < m {
        lemma_pow2_mono(n, (m - 1) as nat);
    } else if n > 0 {
        lemma_pow2_mono((n - 1) as nat, (n - 1) as nat);
    }
}

impl Channel4 {
    /// Whether a sample with these registers and clocks plays: the channel
    /// is on and its length counter does not stop it.
    pub closed spec fn plays(&self, regs: ChannelRegs, c: Clocks) -> bool {
        self.enabled && length_lasts(self.length.spec_count(), regs.spec_length(), regs.spec_regs().nrx4 & 0x40 != 0, c.length)
    }
}

impl AudioChannel for Channel4 {
    closed spec fn spec_enabled(&self) -> bool {
        self.enabled
    }

    closed spec fn wf(&self) -> bool {
        self.vol.wf() && self.timer.wf() && self.lfsr.wf()
    }

    fn reset(&mut self) {
        self.timer.reset();
        self.length.reset();
        self.lfsr = Lfsr::new();
        self.vol.reset();
        self.enabled = true;
    }

    fn disable(&mut self) {
        self.enabled = false;
    }

    fn enabled(&self) -> (r: bool) {
        self.enabled
    }

    /// The length counter runs first (also while off); then the timer
    /// clocking the shift register, and the envelope.
    #[verifier::spinoff_prover]
    fn sample(&mut self, regs: &mut ChannelRegs, wave: &Vec<u8>, clocks: &Clocks) -> (r: Option<i16>)
        ensures
            (r is Some) == old(self).plays(*old(regs), *clocks),
            *final(regs) == *old(regs),
            r matches Some(v) ==> v == signed_level(
                final(self).spec_lfsr() % 2 == 0,
                final(self).spec_volume()->0,
            ),
    {
        if !self.enabled {
            self.length.step(regs, clocks);
            return None;
        }
        let period = noise_period_of(regs.nrx3);
        let ticks = self.timer.step_period(period, clocks.cycles % 65536);
        if self.length.step(regs, clocks).is_none() {
            return None;
        }
        let high = self.lfsr.step(ticks, regs.nrx3);
        let vol = self.vol.step(regs, clocks);
        if high {
            Some(vol as i16)
        } else {
            Some(-(vol as i16))
        }
    }
}

/// Cycles per tick of the 512 Hz frame sequencer.
pub const FRAME_PERIOD: u64 = 4096;

/// The frame clocks fired by `n` ticks of the frame sequencer after step
/// `t` of its eight: the length clock on even steps, the envelope clock on
/// step 7, the sweep clock on steps 3 and 6.
pub open spec fn frame_clocks(t: int, n: nat) -> (int, int, int)
    decreases n,
{
    if n == 0 {
        (0, 0, 0)
    } else {
        let t1 = (t + 1) % 8;
        let rest = frame_clocks(t1, (n - 1) as nat);
        (
            rest.0 + (if t1 % 2 == 0 { 1int } else { 0 }),
            rest.1 + (if t1 == 7 { 1int } else { 0 }),
            rest.2 + (if t1 == 3 || t1 == 6 { 1int } else { 0 }),
        )
    }
}

/// The frame sequencer: a 512 Hz clock stepping through eight steps.
pub struct FrameSequencer {
    time: u64,
    wait: WaitTimer,
}

impl FrameSequencer {
    pub closed spec fn spec_time(&self) -> u64 {
        self.time
    }

    pub closed spec fn spec_acc(&self) -> u64 {
        self.wait.spec_acc()
    }

    pub open spec fn wf(&self) -> bool {
        self.spec_time() < 8 && self.spec_acc() < FRAME_PERIOD
    }

    pub fn new() -> (r: FrameSequencer)
        ensures
            r.wf(),
            r.spec_time() == 0,
            r.spec_acc() == 0,
    {
        FrameSequencer { time: 0, wait: WaitTimer::new() }
    }

    /// The clocks that fire while `cycles` more pass.
    pub fn step(&mut self, cycles: CycleCount) -> (r: Clocks)
        requires
            old(self).wf(),
            cycles <= 0x10_0000,
        ensures
            final(self).wf(),
            r.cycles == cycles,
            ({
                let n = periods(old(self).spec_acc(), cycles, FRAME_PERIOD) as nat;
                let c = frame_clocks(old(self).spec_time() as int, n);
                &&& r.length == c.0
                &&& r.vol == c.1
                &&& r.sweep == c.2
                &&& final(self).spec_time() == (old(self).spec_time() + n) % 8
                &&& final(self).spec_acc() == acc_after(old(self).spec_acc(), cycles, FRAME_PERIOD)
            }),
    {
        let mut new = Clocks { length: 0, vol: 0, sweep: 0, cycles };
        if let Some(count) = self.wait.ready(cycles, FRAME_PERIOD) {
            let ghost t0 = self.time as int;
            let mut k: u64 = 0;
            proof {
                lemma_periods_bound(old(self).spec_acc(), cycles);
            }
            while k < count
                invariant
                    k <= count <= 257,
                    self.time < 8,
                    self.time == (t0 + k) % 8,
                    frame_clocks(t0, count as nat) == ({
                        let rest = frame_clocks(self.time as int, (count - k) as nat);
                        (new.length + rest.0, new.vol + rest.1, new.sweep + rest.2)
                    }),
                    new.length <= k,
                    new.vol <= k,
                    new.sweep <= k,
                    new.cycles == cycles,
                    self.wait.spec_acc() < FRAME_PERIOD,
                    self.wait.spec_acc() == acc_after(old(self).spec_acc(), cycles, FRAME_PERIOD),
                    count == periods(old(self).spec_acc(), cycles, FRAME_PERIOD),
                    t0 == old(self).spec_time(),
                decreases count - k,
            {
                self.time = (self.time + 1) % 8;
                if self.time % 2 == 0 {
                    new.length = new.length + 1;
                }
                if self.time == 7 {
                    new.vol = new.vol + 1;
                }
                if self.time == 3 || self.time == 6 {
                    new.sweep = new.sweep + 1;
                }
                k = k + 1;
            }
        }
        new
    }
}

proof fn lemma_periods_bound(acc: u64, cycles: u64)
    requires
        acc < FRAME_PERIOD,
        cycles <= 0x10_0000,
    ensures
        periods(acc, cycles, FRAME_PERIOD) <= 257,
{
}

} // verus!
