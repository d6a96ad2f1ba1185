//! The divider and the programmable timer (DIV, TIMA, TMA, TAC).
use crate::cycles::{CycleCount, SECOND};
use crate::peripherals::{Addressable, Peripheral, PeripheralData};
use crate::waittimer::WaitTimer;
use vstd::prelude::*;

verus! {

pub const DIV_ADDR: u16 = 0xff04;

pub const TIMA_ADDR: u16 = 0xff05;

pub const TMA_ADDR: u16 = 0xff06;

pub const TAC_ADDR: u16 = 0xff07;

/// The input clocks TAC can select for TIMA.
#[allow(non_camel_case_types)]
#[derive(Debug, Copy, Clone, PartialEq, Eq, Structural)]
pub enum TimerSpeed {
    ICS_4096hz,
    ICS_262144hz,
    ICS_65536hz,
    ICS_16384hz,
}

/// The rate of a timer input clock, in Hz.
pub open spec fn speed_hz(s: TimerSpeed) -> u64 {
    match s {
        TimerSpeed::ICS_4096hz => 4096,
        TimerSpeed::ICS_262144hz => 262144,
        TimerSpeed::ICS_65536hz => 65536,
        TimerSpeed::ICS_16384hz => 16384,
    }
}

/// What a timer step of `time` cycles does (`r` its interrupt): DIV
/// counts every 32 cycles; while started, TIMA counts one per period of
/// the selected clock and, on passing 255, reloads from TMA and raises the
/// timer interrupt; while stopped, TIMA keeps and its clock starts over.
pub open spec fn timer_stepped(t0: Timer, t1: Timer, time: u64, r: u8) -> bool {
    &&& t1.tac() == t0.tac()
    &&& t1.tma() == t0.tma()
    &&& t1.div() == (if t0.div_acc() + time >= 32 {
        (t0.div() + ((t0.div_acc() + time) / 32) % 256) % 256
    } else {
        t0.div() as int
    })
    &&& !t0.started() ==> t1.tima() == t0.tima() && r == 0 && t1.timer_acc() == 0
    &&& t0.started() ==> {
        let d = spec_divider(speed_of(t0.tac()));
        let ticks = (t0.timer_acc() + time) / (d as int);
        &&& t1.timer_acc() == (t0.timer_acc() + time) % (d as int)
        &&& if t0.tima() + ticks > 255 {
            t1.tima() == t0.tma() && r == 0x04
        } else {
            t1.tima() == t0.tima() + ticks && r == 0
        }
    }
}

/// Cycles until TIMA overflows: at once when it already reads 0 (an
/// overflow is due), else the rest of the current tick and one tick per
/// count still missing to 256; never (`u64::MAX`) while the timer is
/// stopped.
pub open spec fn timer_next(tac: u8, tima: u8, acc: u64) -> u64 {
    if tac & 0x4 != 0 {
        let count = spec_divider(speed_of(tac)) as int;
        let rest: int = if count > acc { count - acc } else { 0 };
        if tima == 0 {
            0
        } else if tima == 255 {
            rest as u64
        } else {
            (rest + count * (255 - tima)) as u64
        }
    } else {
        u64::MAX
    }
}

/// The clock that the two low bits of TAC select.
pub open spec fn speed_of(tac: u8) -> TimerSpeed {
    let s = tac & 0x3;
    if s == 0 {
        TimerSpeed::ICS_4096hz
    } else if s == 1 {
        TimerSpeed::ICS_262144hz
    } else if s == 2 {
        TimerSpeed::ICS_65536hz
    } else {
        TimerSpeed::ICS_16384hz
    }
}

/// Cycles per tick of a timer input clock.
pub open spec fn spec_divider(s: TimerSpeed) -> u64 {
    match s {
        TimerSpeed::ICS_4096hz => 512,
        TimerSpeed::ICS_262144hz => 8,
        TimerSpeed::ICS_65536hz => 32,
        TimerSpeed::ICS_16384hz => 128,
    }
}

/// Each timer period is one second divided by the clock's rate.
pub proof fn lemma_divider_is_second_over_rate(s: TimerSpeed)
    ensures
        spec_divider(s) * speed_hz(s) == SECOND,
{
    match s {
        TimerSpeed::ICS_4096hz => {},
        TimerSpeed::ICS_262144hz => {},
        TimerSpeed::ICS_65536hz => {},
        TimerSpeed::ICS_16384hz => {},
    }
}

#[allow(non_snake_case)]
pub struct Timer {
    TIMA: u8,
    TMA: u8,
    TAC: u8,
    DIV: u8,
    timer: WaitTimer,
    div_timer: WaitTimer,
}

impl Timer {
    pub closed spec fn tima(&self) -> u8 {
        self.TIMA
    }

    pub closed spec fn tma(&self) -> u8 {
        self.TMA
    }

    pub closed spec fn tac(&self) -> u8 {
        self.TAC
    }

    pub closed spec fn div(&self) -> u8 {
        self.DIV
    }

    pub closed spec fn timer_acc(&self) -> u64 {
        self.timer.spec_acc()
    }

    pub closed spec fn div_acc(&self) -> u64 {
        self.div_timer.spec_acc()
    }

    /// Bit 2 of TAC starts the timer.
    pub open spec fn started(&self) -> bool {
        self.tac() & 0x4 != 0
    }

    /// Accumulated cycles stay below the slowest period.
    pub closed spec fn wf(&self) -> bool {
        self.timer.spec_acc() < 512 && self.div_timer.spec_acc() < 32
    }

    pub fn new() -> (r: Timer)
        ensures
            r.tima() == 0,
            r.tma() == 0,
            r.tac() == 0,
            r.div() == 0,
            r.timer_acc() == 0,
            r.div_acc() == 0,
            r.wf(),
    {
        Timer {
            TIMA: 0,
            TMA: 0,
            TAC: 0,
            DIV: 0,
            div_timer: WaitTimer::new(),
            timer: WaitTimer::new(),
        }
    }

    fn freq(&self) -> (r: TimerSpeed)
        ensures
            r == speed_of(self.tac()),
    {
        let s = self.TAC & 0x3;
        if s == 0 {
            TimerSpeed::ICS_4096hz
        } else if s == 1 {
            TimerSpeed::ICS_262144hz
        } else if s == 2 {
            TimerSpeed::ICS_65536hz
        } else {
            TimerSpeed::ICS_16384hz
        }
    }

    /// Cycles per tick of the given input clock: one second divided by its
    /// rate.
    fn divider(freq: TimerSpeed) -> (r: CycleCount)
        ensures
            r == spec_divider(freq),
            r == 8 || r == 32 || r == 128 || r == 512,
    {
        match freq {
            TimerSpeed::ICS_4096hz => SECOND / 4_096,
            TimerSpeed::ICS_262144hz => SECOND / 262_144,
            TimerSpeed::ICS_65536hz => SECOND / 65_536,
            TimerSpeed::ICS_16384hz => SECOND / 16_384,
        }
    }
}

impl Addressable for Timer {
    open spec fn handles(&self, addr: u16) -> bool {
        DIV_ADDR <= addr <= TAC_ADDR
    }

    fn read_byte(&mut self, addr: u16) -> (r: u8)
        ensures
            r == (if addr == TAC_ADDR {
                old(self).tac()
            } else if addr == DIV_ADDR {
                old(self).div()
            } else if addr == TIMA_ADDR {
                old(self).tima()
            } else {
                old(self).tma()
            }),
            *final(self) == *old(self),
    {
        if addr == TAC_ADDR {
            self.TAC
        } else if addr == DIV_ADDR {
            self.DIV
        } else if addr == TIMA_ADDR {
            self.TIMA
        } else {
            self.TMA
        }
    }

    /// A write to DIV clears it; the others store the byte.
    fn write_byte(&mut self, addr: u16, v: u8)
        ensures
            final(self).div() == (if addr == DIV_ADDR { 0 } else { old(self).div() }),
            final(self).tac() == (if addr == TAC_ADDR { v } else { old(self).tac() }),
            final(self).tima() == (if addr == TIMA_ADDR { v } else { old(self).tima() }),
            final(self).tma() == (if addr == TMA_ADDR { v } else { old(self).tma() }),
            final(self).timer_acc() == old(self).timer_acc(),
            final(self).div_acc() == old(self).div_acc(),
            old(self).wf() ==> final(self).wf(),
    {
        if addr == DIV_ADDR {
            self.DIV = 0;
        } else if addr == TAC_ADDR {
            self.TAC = v;
        } else if addr == TIMA_ADDR {
            self.TIMA = v;
        } else {
            self.TMA = v;
        }
    }
}

impl Peripheral for Timer {
    /// The elapsed time fits the accumulators and TIMA gets at most 255
    /// ticks at once.
    open spec fn can_step(&self, time: CycleCount) -> bool {
        &&& self.wf()
        &&& time <= 1024
    }

    /// Advances DIV at 16384 Hz, and TIMA at the selected clock while the
    /// timer runs; on overflow TIMA reloads from TMA and the timer interrupt
    /// is raised. A stopped timer drops its partial tick.
    fn step(&mut self, data: &mut PeripheralData, time: CycleCount) -> (r: u8)
        ensures
            final(self).wf(),
            final(self).tac() == old(self).tac(),
            final(self).tma() == old(self).tma(),
            final(self).div() == (if old(self).div_acc() + time >= 32 {
                (old(self).div() + ((old(self).div_acc() + time) / 32) % 256) % 256
            } else {
                old(self).div() as int
            }),
            !old(self).started() ==> final(self).tima() == old(self).tima() && r == 0
                && final(self).timer_acc() == 0,
            old(self).started() ==> {
                let d = spec_divider(speed_of(old(self).tac()));
                let ticks = (old(self).timer_acc() + time) / (d as int);
                &&& final(self).timer_acc() == (old(self).timer_acc() + time) % (d as int)
                &&& if old(self).tima() + ticks > 255 {
                    final(self).tima() == old(self).tma() && r == 0x04
                } else {
                    final(self).tima() == old(self).tima() + ticks && r == 0
                }
            },
    {
        let div_period = Timer::divider(TimerSpeed::ICS_65536hz);
        assert(div_period == 32);
        let ghost dacc0 = self.div_timer.spec_acc();
        proof {
            vstd::arithmetic::div_mod::lemma_mod_division_less_than_divisor(
                dacc0 + time,
                32,
            );
        }
        if let Some(c) = self.div_timer.ready(time, div_period) {
            let inc = (c & 0xff) as u8;
            assert((c & 0xff) == c % 256) by (bit_vector);
            self.DIV = if self.DIV as u16 + inc as u16 > 255 {
                (self.DIV as u16 + inc as u16 - 256) as u8
            } else {
                self.DIV + inc
            };
        }
        if self.TAC & 0x4 != 0 {
            let d = Timer::divider(self.freq());
            let ghost acc0 = self.timer.spec_acc();
            proof {
                vstd::arithmetic::div_mod::lemma_mod_division_less_than_divisor(
                    acc0 + time,
                    d as int,
                );
                if acc0 + time < d {
                    vstd::arithmetic::div_mod::lemma_small_mod((acc0 + time) as nat, d as nat);
                    vstd::arithmetic::div_mod::lemma_basic_div(acc0 + time, d as int);
                }
            }
            if let Some(add) = self.timer.ready(time, d) {
                proof {
                    assert(add <= 255) by (nonlinear_arith)
                        requires
                            add == (acc0 + time) / (d as int),
                            acc0 < 512,
                            time <= 1024,
                            d >= 8,
                    ;
                }
                let add8 = add as u8;
                if self.TIMA as u16 + add8 as u16 > 255 {
                    self.TIMA = self.TMA;
                    return 0x04;
                } else {
                    self.TIMA = self.TIMA + add8;
                }
            }
        } else {
            self.timer.reset();
        }
        0
    }

    /// Cycles until TIMA overflows, or never while the timer is stopped.
    #[verifier::spinoff_prover]
    fn next_step(&self) -> (r: Option<CycleCount>)
        ensures
            r == Some(timer_next(self.tac(), self.tima(), self.timer_acc())),
    {
        if self.TAC & 0x4 != 0 {
            let count = Timer::divider(self.freq());
            let need: u64 = if self.TIMA == 0 {
                0
            } else {
                256 - self.TIMA as u64
            };
            assert(need >= 2 ==> count * (need - 1) <= 512 * 255) by (nonlinear_arith)
                requires
                    count <= 512,
                    need <= 256,
            ;
            let required = if need == 0 {
                0
            } else if need == 1 {
                self.timer.next_ready(count)
            } else {
                self.timer.next_ready(count) + count * (need - 1)
            };
            Some(required)
        } else {
            Some(u64::MAX)
        }
    }
}

} // verus!
