//! The building blocks of the sound channels: the five registers of a
//! channel, the views of them that each unit reads, and the units
//! themselves (volume envelope, frequency timer, duty cycle, frequency
//! sweep, length counter).
use crate::cycles::CycleCount;
use crate::waittimer::WaitTimer;
use vstd::prelude::*;

verus! {

/// How many times each frame-sequencer clock ticked during a sample
/// period, and the cycles the period spans.
#[derive(Clone, Copy)]
pub struct Clocks {
    pub length: u16,
    pub vol: u16,
    pub sweep: u16,
    pub cycles: CycleCount,
}

/// The registers NRx0..NRx4 of one channel.
#[derive(Clone, Copy, PartialEq, Eq, Structural, Debug)]
pub struct ChannelRegs {
    pub nrx0: u8,
    pub nrx1: u8,
    pub nrx2: u8,
    pub nrx3: u8,
    pub nrx4: u8,
}

impl ChannelRegs {
    pub fn new() -> (r: ChannelRegs)
        ensures
            r == (ChannelRegs { nrx0: 0, nrx1: 0, nrx2: 0, nrx3: 0, nrx4: 0 }),
    {
        ChannelRegs { nrx0: 0, nrx1: 0, nrx2: 0, nrx3: 0, nrx4: 0 }
    }
}

/// Bounds of the register fields the units read, and how the frequency
/// splits over NRx3 and NRx4.
proof fn lemma_field_bounds()
    by (bit_vector)
    ensures
        forall|x: u8| #[trigger] ((x & 0x70) >> 4u8) <= 7,
        forall|x: u8| #[trigger] ((x & 0xf0) >> 4u8) <= 15,
        forall|x: u8| #[trigger] ((x & 0xc0) >> 6u8) <= 3,
        forall|x: u8| #[trigger] (x & 7) <= 7,
        forall|x: u8| x <= 7 ==> #[trigger] (x & 7) == x,
        forall|x: u8| #[trigger] (x & 0x3f) <= 63,
        forall|x: u8, h: u8| #![trigger (x & !7u8) | (h & 7)] ((x & !7u8) | (h & 7)) & 7 == h & 7,
        forall|x: u8, h: u8| #![trigger (x & !7u8) | (h & 7)] ((x & !7u8) | (h & 7)) & 0xf8 == x & 0xf8,
        forall|x: u8, h: u8, g: u8|
            #![trigger (((x & !7u8) | (h & 7)) & !7u8) | (g & 7)]
            (((x & !7u8) | (h & 7)) & !7u8) | (g & 7) == (x & !7u8) | (g & 7),
{
}

/// The sweep period (NRx0 bits 4..6).
pub open spec fn sweep_period(r: ChannelRegs) -> u8 {
    (r.nrx0 & 0x70) >> 4u8
}

/// The sweep shift (NRx0 bits 0..2).
pub open spec fn sweep_shift(r: ChannelRegs) -> u8 {
    r.nrx0 & 7
}

/// Whether the sweep lowers the frequency (NRx0 bit 3).
pub open spec fn sweep_negated(r: ChannelRegs) -> bool {
    r.nrx0 & 8 != 0
}

/// The 11-bit frequency: NRx3 and the low three bits of NRx4.
pub open spec fn spec_freq(r: ChannelRegs) -> u16 {
    (r.nrx3 + (r.nrx4 & 7) * 256) as u16
}

/// The registers with the frequency set to `f` (below 2048); the other
/// bits of NRx4 stay.
pub open spec fn with_freq(r: ChannelRegs, f: u16) -> ChannelRegs {
    ChannelRegs { nrx3: (f % 256) as u8, nrx4: (r.nrx4 & !7u8) | (((f / 256) as u8) & 7), ..r }
}

/// A channel's registers, as the units read and write them.
pub trait HasRegs {
    spec fn spec_regs(&self) -> ChannelRegs;

    fn regs(&self) -> (r: &ChannelRegs)
        ensures
            *r == self.spec_regs(),
    ;

    fn mut_regs(&mut self) -> (r: &mut ChannelRegs)
        ensures
            *r == old(self).spec_regs(),
            final(self).spec_regs() == *final(r),
    ;
}

/// The frequency sweep's fields of NRx0.
pub trait SweepPass: HasRegs {
    fn period(&self) -> (r: u8)
        ensures
            r == sweep_period(self.spec_regs()),
    {
        (self.regs().nrx0 & 0b0111_0000) >> 4
    }

    fn negated(&self) -> (r: bool)
        ensures
            r == sweep_negated(self.spec_regs()),
    {
        (self.regs().nrx0 & 0b0000_1000) != 0
    }

    fn shift(&self) -> (r: u8)
        ensures
            r == sweep_shift(self.spec_regs()),
    {
        self.regs().nrx0 & 0b0000_0111
    }
}

/// The length counter's view: the length loaded on start, whether the
/// counter stops the channel (NRx4 bit 6), and the trigger bit (NRx4 bit
/// 7).
pub trait LengthPass: HasRegs {
    spec fn spec_length(&self) -> u16;

    fn length(&self) -> (r: u16)
        ensures
            r == self.spec_length(),
    ;

    fn enabled(&self) -> (r: bool)
        ensures
            r == (self.spec_regs().nrx4 & 0x40 != 0),
    {
        self.regs().nrx4 & 0b0100_0000 != 0
    }

    fn trigger(&self) -> (r: bool)
        ensures
            r == (self.spec_regs().nrx4 & 0x80 != 0),
    {
        self.regs().nrx4 & 0b1000_0000 != 0
    }

    fn clear_trigger(&mut self)
        ensures
            final(self).spec_regs() == (ChannelRegs {
                nrx4: old(self).spec_regs().nrx4 & 0x7f,
                ..old(self).spec_regs()
            }),
    {
        let r = self.mut_regs();
        r.nrx4 = r.nrx4 & 0b0111_1111;
    }
}

/// Channels whose length counts from 64 down: the length is 64 minus the
/// low six bits of NRx1.
pub trait Length64Pass: HasRegs {}

impl<T: Length64Pass> LengthPass for T {
    open spec fn spec_length(&self) -> u16 {
        (64 - (self.spec_regs().nrx1 & 0x3f)) as u16
    }

    fn length(&self) -> (r: u16) {
        let n = self.regs().nrx1 & 0b0011_1111;
        proof {
            lemma_field_bounds();
        }
        64 - n as u16
    }
}

/// The volume envelope's fields of NRx2.
pub trait VolumePass: HasRegs {
    fn vol_start(&self) -> (r: u8)
        ensures
            r == (self.spec_regs().nrx2 & 0xf0) >> 4u8,
            r <= 15,
    {
        proof {
            lemma_field_bounds();
        }
        (self.regs().nrx2 & 0b1111_0000) >> 4
    }

    fn vol_add(&self) -> (r: bool)
        ensures
            r == (self.spec_regs().nrx2 & 8 != 0),
    {
        (self.regs().nrx2 & 0b0000_1000) != 0
    }

    fn vol_period(&self) -> (r: u8)
        ensures
            r == self.spec_regs().nrx2 & 7,
            r <= 7,
    {
        proof {
            lemma_field_bounds();
        }
        self.regs().nrx2 & 0b0000_0111
    }
}

/// The duty pattern selector (NRx1 bits 6..7).
pub trait DutyPass: HasRegs {
    fn duty(&self) -> (r: u8)
        ensures
            r == (self.spec_regs().nrx1 & 0xc0) >> 6u8,
            r <= 3,
    {
        proof {
            lemma_field_bounds();
        }
        (self.regs().nrx1 & 0b1100_0000) >> 6
    }
}

/// The 11-bit frequency in NRx3 and NRx4, and the timer period it gives.
pub trait Freq: HasRegs {
    fn freq(&self) -> (r: u16)
        ensures
            r == spec_freq(self.spec_regs()),
            r < 2048,
    {
        let lo = self.regs().nrx3;
        let hi = self.regs().nrx4 & 0b111;
        proof {
            lemma_field_bounds();
        }
        lo as u16 + hi as u16 * 256
    }

    fn period(&self) -> (r: u16)
        ensures
            r == 2048 - spec_freq(self.spec_regs()),
            1 <= r <= 2048,
    {
        2048 - self.freq()
    }

    fn set_freq(&mut self, new_freq: u16)
        requires
            new_freq < 2048,
        ensures
            final(self).spec_regs() == with_freq(old(self).spec_regs(), new_freq),
            spec_freq(final(self).spec_regs()) == new_freq,
    {
        let x0 = (new_freq % 256) as u8;
        let x1 = (new_freq / 256) as u8;
        let r = self.mut_regs();
        r.nrx4 = r.nrx4 & !0b111;
        r.nrx4 = r.nrx4 | (x1 & 0b111);
        r.nrx3 = x0;
        proof {
            lemma_field_bounds();
            assert(x1 <= 7);
            assert(x1 & 7 == x1);
        }
    }
}

impl HasRegs for ChannelRegs {
    open spec fn spec_regs(&self) -> ChannelRegs {
        *self
    }

    fn regs(&self) -> (r: &ChannelRegs) {
        self
    }

    fn mut_regs(&mut self) -> (r: &mut ChannelRegs) {
        self
    }
}

impl SweepPass for ChannelRegs {}

impl Length64Pass for ChannelRegs {}

impl VolumePass for ChannelRegs {}

impl DutyPass for ChannelRegs {}

impl Freq for ChannelRegs {}

/// Whether a length counter holding `count` (none yet: `start`, the
/// register's length) keeps its channel on through a sample with `ticks`
/// length clocks; it always does while counting is off.
pub open spec fn length_lasts(count: Option<u16>, start: u16, counting: bool, ticks: u16) -> bool {
    let n0 = match count {
        Some(n) => n,
        None => start,
    };
    !counting || n0 > ticks
}

/// Whether the frequency sweep (shadow frequency `shadow`, `acc` cycles
/// towards its next period) keeps its channel on through a sample with
/// `ticks` sweep clocks: a step past 2047 stops it; with no period or no
/// shift the sweep does nothing.
pub open spec fn sweep_lasts(shadow: Option<u16>, acc: u64, r: ChannelRegs, ticks: u16) -> bool {
    if sweep_period(r) > 0 && sweep_shift(r) > 0 {
        let n = periods(acc, ticks as u64, sweep_period(r) as u64) as nat;
        sweep_run(sweep_start(shadow, r), sweep_shift(r), sweep_negated(r), n).1
    } else {
        true
    }
}

/// Whole periods of `p` completed when `new` cycles join `acc`.
pub open spec fn periods(acc: u64, new: u64, p: u64) -> int {
    if acc + new >= p {
        (acc + new) / (p as int)
    } else {
        0
    }
}

/// Cycles left towards the next period after `new` cycles join `acc`.
pub open spec fn acc_after(acc: u64, new: u64, p: u64) -> int {
    if acc + new >= p {
        (acc + new) % (p as int)
    } else {
        acc + new
    }
}

/// The volume after `n` envelope steps from `v`: up to 15 or down to 0.
pub open spec fn env_after(v: int, add: bool, n: int) -> int {
    if add {
        if v + n > 15 {
            15
        } else {
            v + n
        }
    } else {
        if v - n < 0 {
            0
        } else {
            v - n
        }
    }
}

/// The volume envelope: the current volume (loaded from NRx2 on first
/// use) moves one step per envelope period.
pub struct Vol {
    volume: Option<u8>,
    wait: WaitTimer,
}

impl Vol {
    pub closed spec fn spec_volume(&self) -> Option<u8> {
        self.volume
    }

    pub closed spec fn spec_acc(&self) -> u64 {
        self.wait.spec_acc()
    }

    pub open spec fn wf(&self) -> bool {
        &&& (self.spec_volume() matches Some(v) ==> v <= 15)
        &&& self.spec_acc() < 0x1_0000
    }

    pub fn new() -> (r: Vol)
        ensures
            r.wf(),
            r.spec_volume() is None,
            r.spec_acc() == 0,
    {
        Vol { volume: None, wait: WaitTimer::new() }
    }

    pub fn reset(&mut self)
        ensures
            final(self).wf(),
            final(self).spec_volume() is None,
            final(self).spec_acc() == 0,
    {
        self.wait.reset();
        self.volume = None;
    }

    /// The volume for this sample: the start volume of NRx2 on first use,
    /// then one step up or down (within 0..=15) per completed envelope
    /// period; a period of 0 stops the envelope.
    pub fn step<R: VolumePass>(&mut self, reg: &R, c: &Clocks) -> (r: u8)
        requires
            old(self).wf(),
        ensures
            final(self).wf(),
            final(self).spec_volume() == Some(r),
            ({
                let regs = reg.spec_regs();
                let v0 = match old(self).spec_volume() {
                    Some(v) => v as int,
                    None => ((regs.nrx2 & 0xf0) >> 4u8) as int,
                };
                let p = (regs.nrx2 & 7) as u64;
                if p == 0 {
                    r == v0 && final(self).spec_acc() == old(self).spec_acc()
                } else {
                    &&& r == env_after(v0, regs.nrx2 & 8 != 0, periods(old(self).spec_acc(), c.vol as u64, p))
                    &&& final(self).spec_acc() == acc_after(old(self).spec_acc(), c.vol as u64, p)
                }
            }),
    {
        let start = reg.vol_start();
        let mut vol: u8 = match self.volume {
            Some(v) => v,
            None => start,
        };
        let ghost v0 = vol as int;
        let p = reg.vol_period();
        if p != 0 {
            let add = reg.vol_add();
            match self.wait.ready(c.vol as u64, p as u64) {
                Some(count) => {
                    let mut k: u64 = 0;
                    while k < count
                        invariant
                            k <= count,
                            vol <= 15,
                            vol == env_after(v0, add, k as int),
                        decreases count - k,
                    {
                        vol = if add {
                            if vol == 15 {
                                15
                            } else {
                                vol + 1
                            }
                        } else {
                            if vol == 0 {
                                0
                            } else {
                                vol - 1
                            }
                        };
                        k = k + 1;
                    }
                },
                None => {},
            }
        }
        self.volume = Some(vol);
        vol
    }
}

/// The frequency timer: counts the periods of a channel's frequency that
/// complete within a sample.
pub struct Timer {
    period_wait: WaitTimer,
}

impl Timer {
    pub closed spec fn spec_acc(&self) -> u64 {
        self.period_wait.spec_acc()
    }

    pub open spec fn wf(&self) -> bool {
        self.spec_acc() < 0x1_0000_0000
    }

    pub fn new() -> (r: Timer)
        ensures
            r.wf(),
            r.spec_acc() == 0,
    {
        Timer { period_wait: WaitTimer::new() }
    }

    pub fn reset(&mut self)
        ensures
            final(self).wf(),
            final(self).spec_acc() == 0,
    {
        self.period_wait.reset();
    }

    /// The periods of `period` cycles completed as `cycles` more pass
    /// (modulo 256).
    pub fn step_period(&mut self, period: u64, cycles: u64) -> (r: u8)
        requires
            old(self).wf(),
            0 < period <= 0x1_0000_0000,
            cycles < 0x1_0000_0000,
        ensures
            final(self).wf(),
            r == periods(old(self).spec_acc(), cycles, period) % 256,
            final(self).spec_acc() == acc_after(old(self).spec_acc(), cycles, period),
    {
        let mut ticks: u8 = 0;
        if let Some(count) = self.period_wait.ready(cycles, period) {
            ticks = (count % 256) as u8;
        }
        proof {
            let t = old(self).spec_acc() + cycles;
            if t >= period {
                vstd::arithmetic::div_mod::lemma_mod_bound(t as int, period as int);
            }
        }
        ticks
    }

    /// The periods of the channel's frequency (2048 minus the frequency)
    /// completed during the sample's cycles (taken modulo 65536), modulo
    /// 256.
    pub fn step<R: Freq>(&mut self, regs: &R, clocks: &Clocks) -> (r: u8)
        requires
            old(self).wf(),
        ensures
            final(self).wf(),
            ({
                let p = (2048 - spec_freq(regs.spec_regs())) as u64;
                let c = clocks.cycles % 65536;
                &&& r == periods(old(self).spec_acc(), c, p) % 256
                &&& final(self).spec_acc() == acc_after(old(self).spec_acc(), c, p)
            }),
    {
        let p = Freq::period(regs);
        self.step_period(p as u64, clocks.cycles % 65536)
    }
}

/// Whether a duty pattern is high at a step of its eight: 12.5%, 25%,
/// 50% and 75%.
pub open spec fn duty_high(duty: u8, offset: u8) -> bool {
    if duty == 0 {
        offset == 7
    } else if duty == 1 {
        offset == 0 || offset == 7
    } else if duty == 2 {
        offset == 0 || offset >= 5
    } else {
        1 <= offset <= 6
    }
}

/// The four duty patterns as bytes, the first of the eight steps in the
/// top bit: 12.5% is 00000001, 25% is 10000001, 50% is 10000111 and 75%
/// is 01111110.
pub open spec fn duty_pattern(duty: u8) -> int {
    if duty == 0 {
        0x01
    } else if duty == 1 {
        0x81
    } else if duty == 2 {
        0x87
    } else {
        0x7e
    }
}

/// Bit `i` (0 = lowest) of a non-negative number.
pub open spec fn bit_at(x: int, i: nat) -> bool
    decreases i,
{
    if i == 0 {
        x % 2 == 1
    } else {
        bit_at(x / 2, (i - 1) as nat)
    }
}

/// A duty pattern is high at step `offset` exactly where its byte has a 1
/// (the first step being the top bit), so patterns 0..3 are high on 1, 2,
/// 4 and 6 of their eight steps.
pub proof fn law_duty_patterns(duty: u8, offset: u8)
    requires
        duty < 4,
        offset < 8,
    ensures
        duty_high(duty, offset) == bit_at(duty_pattern(duty), (7 - offset) as nat),
{
    reveal_with_fuel(bit_at, 9);
    if offset == 0 {
    } else if offset == 1 {
    } else if offset == 2 {
    } else if offset == 3 {
    } else if offset == 4 {
    } else if offset == 5 {
    } else if offset == 6 {
    } else {
    }
}

/// The duty cycle: a position in the eight-step pattern.
pub struct Duty {
    offset: u8,
}

impl Duty {
    pub closed spec fn spec_offset(&self) -> u8 {
        self.offset
    }

    pub open spec fn wf(&self) -> bool {
        self.spec_offset() < 8
    }

    pub fn new() -> (r: Duty)
        ensures
            r.wf(),
            r.spec_offset() == 0,
    {
        Duty { offset: 0 }
    }

    pub fn reset(&mut self)
        ensures
            final(self).wf(),
            final(self).spec_offset() == 0,
    {
        self.offset = 0;
    }

    /// Moves `ticks` steps along the pattern NRx1 selects and says whether
    /// the output is high there.
    pub fn step<R: DutyPass>(&mut self, regs: &R, ticks: u8) -> (r: bool)
        requires
            old(self).wf(),
        ensures
            final(self).wf(),
            final(self).spec_offset() == (old(self).spec_offset() + ticks) % 8,
            r == duty_high((regs.spec_regs().nrx1 & 0xc0) >> 6u8, final(self).spec_offset()),
    {
        self.offset = ((self.offset as u16 + ticks as u16) % 8) as u8;
        let d = regs.duty();
        let o = self.offset;
        if d == 0 {
            o == 7
        } else if d == 1 {
            o == 0 || o == 7
        } else if d == 2 {
            o == 0 || o >= 5
        } else {
            1 <= o && o <= 6
        }
    }
}

/// One sweep step: the frequency moves by itself shifted right.
pub open spec fn sweep_next(f: u16, shift: u8, neg: bool) -> int {
    let d = f >> shift;
    if neg {
        if f >= d {
            f - d
        } else {
            0
        }
    } else {
        if f + d > 0xffff {
            0xffff
        } else {
            f + d
        }
    }
}

/// `n` sweep steps from `f`: the shadow frequency reached and whether it
/// stayed below 2048 (the first step past 2047 ends the run).
pub open spec fn sweep_run(f: u16, shift: u8, neg: bool, n: nat) -> (u16, bool)
    decreases n,
{
    if n == 0 {
        (f, true)
    } else {
        let g = sweep_next(f, shift, neg) as u16;
        if g > 2047 {
            (g, false)
        } else {
            sweep_run(g, shift, neg, (n - 1) as nat)
        }
    }
}

/// The frequency left in the registers by `n` sweep steps from `f`, when
/// they held `cur`: the last step's frequency that stayed below 2048.
pub open spec fn sweep_written(f: u16, shift: u8, neg: bool, n: nat, cur: u16) -> u16
    decreases n,
{
    if n == 0 {
        cur
    } else {
        let g = sweep_next(f, shift, neg) as u16;
        if g > 2047 {
            cur
        } else {
            sweep_written(g, shift, neg, (n - 1) as nat, g)
        }
    }
}

/// The shadow frequency a sweep starts from: the one it holds, else the
/// registers' frequency.
pub open spec fn sweep_start(shadow: Option<u16>, r: ChannelRegs) -> u16 {
    match shadow {
        Some(f) => f,
        None => spec_freq(r),
    }
}

/// The frequency sweep: a shadow copy of the frequency, moved each sweep
/// period and written back; moving past 2047 stops the channel.
pub struct Sweep {
    shadow_freq: Option<u16>,
    wait: WaitTimer,
}

impl Sweep {
    pub closed spec fn spec_shadow(&self) -> Option<u16> {
        self.shadow_freq
    }

    pub closed spec fn spec_acc(&self) -> u64 {
        self.wait.spec_acc()
    }

    pub open spec fn wf(&self) -> bool {
        self.spec_acc() < 0x1_0000
    }

    pub fn new() -> (r: Sweep)
        ensures
            r.wf(),
            r.spec_shadow() is None,
            r.spec_acc() == 0,
    {
        Sweep { shadow_freq: None, wait: WaitTimer::new() }
    }

    /// Forgets the shadow frequency (the sweep timer keeps counting).
    pub fn reset(&mut self)
        ensures
            final(self).wf() == old(self).wf(),
            final(self).spec_shadow() is None,
            final(self).spec_acc() == old(self).spec_acc(),
    {
        self.shadow_freq = None;
    }

    /// Takes the frequency as the shadow on first use; with a sweep period
    /// and shift set, steps the shadow once per completed sweep period,
    /// writing each result below 2048 back to the registers. `None` when a
    /// step goes past 2047.
    #[verifier::spinoff_prover]
    pub fn step<T: SweepPass + Freq>(&mut self, regs: &mut T, clocks: &Clocks) -> (r: Option<()>)
        requires
            old(self).wf(),
        ensures
            final(self).wf(),
            (r is Some) == sweep_lasts(old(self).spec_shadow(), old(self).spec_acc(), old(regs).spec_regs(), clocks.sweep),
            sweep_period(old(regs).spec_regs()) > 0 && sweep_shift(old(regs).spec_regs()) > 0 ==> {
                let r0 = old(regs).spec_regs();
                let f0 = sweep_start(old(self).spec_shadow(), r0);
                let p = sweep_period(r0) as u64;
                let n = periods(old(self).spec_acc(), clocks.sweep as u64, p) as nat;
                final(self).spec_acc() == acc_after(old(self).spec_acc(), clocks.sweep as u64, p)
            },
            sweep_period(old(regs).spec_regs()) > 0 && sweep_shift(old(regs).spec_regs()) > 0 ==> {
                let r0 = old(regs).spec_regs();
                let f0 = sweep_start(old(self).spec_shadow(), r0);
                let p = sweep_period(r0) as u64;
                let n = periods(old(self).spec_acc(), clocks.sweep as u64, p) as nat;
                let run = sweep_run(f0, sweep_shift(r0), sweep_negated(r0), n);
                &&& final(self).spec_shadow() == Some(run.0)
                &&& (r is Some) == run.1
            },
            sweep_period(old(regs).spec_regs()) > 0 && sweep_shift(old(regs).spec_regs()) > 0 ==> {
                let r0 = old(regs).spec_regs();
                let f0 = sweep_start(old(self).spec_shadow(), r0);
                let p = sweep_period(r0) as u64;
                let n = periods(old(self).spec_acc(), clocks.sweep as u64, p) as nat;
                let w = sweep_written(f0, sweep_shift(r0), sweep_negated(r0), n, 0xffff);
                final(regs).spec_regs() == (if n > 0 && w != 0xffff {
                    with_freq(r0, w)
                } else {
                    r0
                })
            },
            !(sweep_period(old(regs).spec_regs()) > 0 && sweep_shift(old(regs).spec_regs()) > 0) ==> {
                &&& r is Some
                &&& final(self).spec_shadow() == Some(sweep_start(old(self).spec_shadow(), old(regs).spec_regs()))
                &&& final(self).spec_acc() == old(self).spec_acc()
                &&& final(regs).spec_regs() == old(regs).spec_regs()
            },
    {
        if self.shadow_freq.is_none() {
            self.shadow_freq = Some(regs.freq());
        }
        let mut freq: u16 = match self.shadow_freq {
            Some(f) => f,
            None => 0,
        };
        let p = SweepPass::period(regs);
        let shift = regs.shift();
        proof {
            lemma_field_bounds();
        }
        if p > 0 && shift > 0 {
            let neg = SweepPass::negated(regs);
            if let Some(count) = self.wait.ready(clocks.sweep as u64, p as u64) {
                let ghost f0 = freq;
                let ghost r0 = regs.spec_regs();
                let mut k: u64 = 0;
                let ghost mut cur: u16 = 0xffff;
                while k < count
                    invariant
                        k <= count,
                        sweep_run(f0, shift, neg, count as nat) == sweep_run(freq, shift, neg, (count - k) as nat),
                        sweep_written(f0, shift, neg, count as nat, 0xffff) == sweep_written(freq, shift, neg, (count - k) as nat, cur),
                        cur == 0xffff ==> regs.spec_regs() == r0,
                        cur != 0xffff ==> cur < 2048 && regs.spec_regs() == with_freq(r0, cur),
                        self.spec_acc() < 0x1_0000,
                        shift == sweep_shift(r0) && shift <= 7,
                        p == sweep_period(r0),
                        p > 0 && shift > 0,
                        neg == sweep_negated(r0),
                        r0 == old(regs).spec_regs(),
                        f0 == sweep_start(old(self).spec_shadow(), r0),
                        count == periods(old(self).spec_acc(), clocks.sweep as u64, p as u64),
                        self.spec_acc() == acc_after(old(self).spec_acc(), clocks.sweep as u64, p as u64),
                    decreases count - k,
                {
                    let d = freq >> shift;
                    freq = if neg { freq.saturating_sub(d) } else { freq.saturating_add(d) };
                    k = k + 1;
                    if freq > 2047 {
                        self.shadow_freq = Some(freq);
                        return None;
                    } else {
                        let ghost before = regs.spec_regs();
                        regs.set_freq(freq);
                        proof {
                            lemma_field_bounds();
                            if cur != 0xffff {
                                assert(regs.spec_regs() == with_freq(r0, freq));
                            }
                            cur = freq;
                        }
                    }
                }
                self.shadow_freq = Some(freq);
            }
        }
        Some(())
    }
}

/// The length counter: loaded from the registers on first use, it counts
/// down by the length clocks while NRx4 bit 6 is set and stops the channel
/// when it runs out.
pub struct Length {
    count: Option<u16>,
}

impl Length {
    pub closed spec fn spec_count(&self) -> Option<u16> {
        self.count
    }

    pub fn new() -> (r: Length)
        ensures
            r.spec_count() is None,
    {
        Length { count: None }
    }

    pub fn reset(&mut self)
        ensures
            final(self).spec_count() is None,
    {
        self.count = None;
    }

    /// `None` when the counter runs out during this sample.
    pub fn step<R: LengthPass>(&mut self, reg: &R, c: &Clocks) -> (r: Option<()>)
        ensures
            (r is Some) == length_lasts(old(self).spec_count(), reg.spec_length(), reg.spec_regs().nrx4 & 0x40 != 0, c.length),
            ({
                let n0 = match old(self).spec_count() {
                    Some(n) => n,
                    None => reg.spec_length(),
                };
                if reg.spec_regs().nrx4 & 0x40 == 0 {
                    r is Some && final(self).spec_count() == Some(n0)
                } else if n0 > c.length {
                    r is Some && final(self).spec_count() == Some((n0 - c.length) as u16)
                } else {
                    r is None && final(self).spec_count() == Some(0u16)
                }
            }),
    {
        let n0: u16 = match self.count {
            Some(n) => n,
            None => reg.length(),
        };
        if !reg.enabled() {
            self.count = Some(n0);
            Some(())
        } else if n0 > c.length {
            self.count = Some(n0 - c.length);
            Some(())
        } else {
            self.count = Some(0);
            None
        }
    }
}

} // verus!
