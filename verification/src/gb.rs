//! The whole machine: a CPU on a bus, run in slices of time.
use crate::cart::{byte_sum, CGBStatus, Cart};
use crate::display::{chosen_palette, palette_loaded};
use crate::cpu::{execute_step, CPU};
use crate::cycles::CycleCount;
use crate::mmu::{MMUInternal, MMU};
use crate::peripherals::PeripheralData;
use crate::registers::{Reg16, Reg8, Registers};
use vstd::prelude::*;

verus! {

/// The latest clock value at which the machine still starts an
/// instruction; past it a run ends as if its time were up.
pub const RUN_LIMIT: u64 = 0xffff_ffff_ffff_efff;

/// Why a run stopped.
#[derive(PartialEq, Eq, Structural, Clone, Copy, Debug)]
pub enum GBReason {
    /// The time asked for has passed.
    Timeout,
    /// The display reached its vertical blank.
    VSync,
    /// The CPU stopped for good.
    Dead,
}

/// A run of `CPU::execute` calls from the CPU `c0` on the bus `b0`: call
/// `k` takes `cpus[k]` on `pre[k]` to `cpus[k + 1]` on `post[k]`, and each
/// call starts on the bus the one before left (its output record aside).
pub open spec fn run_chain(c0: CPU, b0: MMUInternal, cpus: Seq<CPU>, pre: Seq<MMU>, post: Seq<MMU>) -> bool {
    &&& cpus.len() == pre.len() + 1
    &&& post.len() == pre.len()
    &&& cpus[0] == c0
    &&& pre.len() > 0 ==> pre[0].spec_bus() == b0
    &&& forall|k: int| 0 <= k < pre.len() ==> #[trigger] execute_step(cpus[k], pre[k], cpus[k + 1], post[k])
    &&& forall|k: int| #![trigger pre[k]] 0 < k < pre.len() ==> pre[k].spec_bus() == post[k - 1].spec_bus()
}

/// The bus a run leaves: the last call's, or `b0` when there was none.
pub open spec fn chain_end(b0: MMUInternal, post: Seq<MMU>) -> MMUInternal {
    if post.len() == 0 {
        b0
    } else {
        post[post.len() - 1].spec_bus()
    }
}

/// A Game Boy: its CPU and its bus (which holds the cartridge and every
/// other device).
pub struct GB {
    cpu: CPU,
    mmu: MMU,
}

impl GB {
    pub closed spec fn spec_cpu(&self) -> CPU {
        self.cpu
    }

    pub closed spec fn spec_mmu(&self) -> MMU {
        self.mmu
    }

    /// The bus clock, in cycle units.
    pub open spec fn spec_time(&self) -> u64 {
        self.spec_mmu().spec_bus().spec_time()
    }

    pub open spec fn wf(&self) -> bool {
        self.spec_cpu().wf() && self.spec_mmu().wf()
    }

    /// A machine for `cart`. With a boot ROM, the CPU starts at address 0
    /// with the boot ROM mapped; without one, the CPU and I/O registers are
    /// set as the boot ROM leaves them, the boot ROM is unmapped and a
    /// monochrome game gets its colour palette (`palette` picks one of the
    /// key-combination palettes, else the title decides).
    pub fn new(
        cart: Cart,
        trace: bool,
        boot_rom: Option<Vec<u8>>,
        palette: Option<usize>,
        audio_sample_rate: Option<CycleCount>,
    ) -> (r: GB)
        requires
            cart.wf(),
            cart.spec_title_bytes().len() > 3,
            crate::sound::rate_ok(audio_sample_rate),
        ensures
            r.wf(),
            r.spec_time() == 0,
            r.spec_cpu().spec_trace() == trace,
            !r.spec_cpu().spec_dead(),
            !r.spec_cpu().spec_halted(),
            !r.spec_cpu().spec_magic_bp(),
            r.spec_mmu().spec_bus().spec_bios_exists() == (boot_rom is Some),
            boot_rom is Some ==> r.spec_cpu().spec_reg() == Registers::zeroed(),
            boot_rom is None ==> {
                let reg = r.spec_cpu().spec_reg();
                &&& reg.r16(Reg16::BC) == 0x0013
                &&& reg.r16(Reg16::DE) == 0x00d8
                &&& reg.r16(Reg16::HL) == 0x014d
                &&& reg.r16(Reg16::SP) == 0xfffe
                &&& reg.r16(Reg16::PC) == 0x0100
                &&& reg.r8(Reg8::F) == 0
                &&& reg.r8(Reg8::A) == (match cart.spec_cgb() {
                    CGBStatus::GB => 0x01u8,
                    _ => 0x11u8,
                })
            },
            boot_rom is None && cart.spec_cgb() == CGBStatus::GB ==> palette_loaded(
                r.spec_mmu().spec_bus().spec_display(),
                chosen_palette(byte_sum(cart.spec_title_bytes()), cart.spec_title_bytes()[3], palette),
            ),
    {
        let has_bootrom = boot_rom.is_some();
        let cgb = cart.cgb();
        let hash = cart.title_hash();
        let dis = cart.title()[3];
        let mut mmu = MMU::new(
            MMUInternal::new(cart, boot_rom, audio_sample_rate),
            PeripheralData::empty(),
        );
        let mut cpu = CPU::new(trace);
        if !has_bootrom {
            cpu.initialize(cgb, &mut mmu);
            match cgb {
                CGBStatus::GB => mmu.init_display(hash, dis, palette),
                _ => {},
            }
        }
        GB { cpu, mmu }
    }

    /// The bus clock, in cycle units.
    pub fn cpu_cycles(&self) -> (r: CycleCount)
        ensures
            r == self.spec_time(),
    {
        self.mmu.time()
    }

    pub fn toggle_trace(&mut self)
        ensures
            final(self).spec_cpu().spec_trace() == !old(self).spec_cpu().spec_trace(),
            final(self).spec_cpu().spec_reg() == old(self).spec_cpu().spec_reg(),
            final(self).spec_cpu().spec_dead() == old(self).spec_cpu().spec_dead(),
            final(self).spec_mmu() == old(self).spec_mmu(),
            final(self).wf() == old(self).wf(),
    {
        self.cpu.toggle_trace()
    }

    pub fn get_reg(&self) -> (r: Registers)
        ensures
            r == self.spec_cpu().spec_reg(),
    {
        self.cpu.get_reg()
    }

    /// Arms the breakpoint: executing `LD B,B` then stops the CPU for good.
    pub fn magic_breakpoint(&mut self)
        ensures
            final(self).spec_cpu().spec_magic_bp(),
            final(self).spec_cpu().spec_reg() == old(self).spec_cpu().spec_reg(),
            final(self).spec_cpu().spec_dead() == old(self).spec_cpu().spec_dead(),
            final(self).spec_mmu() == old(self).spec_mmu(),
            final(self).wf() == old(self).wf(),
    {
        self.cpu.magic_breakpoint();
    }

    /// Sets the pressed keys (a mask of `GBControl` bits, set = released).
    pub fn set_controls(&mut self, controls: u8)
        requires
            old(self).wf(),
        ensures
            final(self).wf(),
            final(self).spec_mmu().spec_bus().spec_controller().keys() == controls,
            final(self).spec_mmu().spec_bus().spec_controller().spec_p1() == old(self).spec_mmu().spec_bus().spec_controller().spec_p1(),
            final(self).spec_mmu().spec_bus().spec_controller().seen() == old(self).spec_mmu().spec_bus().spec_controller().seen(),
            final(self).spec_mmu().spec_bus().spec_display() == old(self).spec_mmu().spec_bus().spec_display(),
            final(self).spec_mmu().spec_bus().same_plain(&old(self).spec_mmu().spec_bus()),
            final(self).spec_mmu().spec_data() == old(self).spec_mmu().spec_data(),
            final(self).spec_cpu() == old(self).spec_cpu(),
            final(self).spec_time() == old(self).spec_time(),
    {
        self.mmu.set_controls(controls);
    }

    /// Runs until `time` cycle units have passed (forever when `None`), the
    /// display reaches a vertical blank, or the CPU stops for good, and
    /// says which. The devices write their output (screen, serial bytes,
    /// sound) into `host`; its V-blank mark is cleared first. A run also
    /// ends, as a timeout, once the clock passes `RUN_LIMIT`. The machine
    /// goes through a chain of `CPU::execute` calls (`run_chain`), the
    /// devices catching up at the end; `VSync` is answered right after the
    /// call whose bus accesses set the output record's V-blank mark.
    pub fn step(&mut self, time: Option<CycleCount>, host: &mut PeripheralData) -> (r: GBReason)
        requires
            old(self).wf(),
            old(host).lcd_ok(),
            time matches Some(t) ==> old(self).spec_time() + t <= u64::MAX,
        ensures
            final(self).wf(),
            final(host).lcd_ok(),
            old(self).spec_time() <= final(self).spec_time(),
            final(self).spec_cpu().spec_trace() == old(self).spec_cpu().spec_trace(),
            final(self).spec_cpu().spec_magic_bp() == old(self).spec_cpu().spec_magic_bp(),
            old(self).spec_cpu().spec_dead() ==> final(self).spec_cpu().spec_dead(),
            r == GBReason::Dead ==> final(self).spec_cpu().spec_dead(),
            r == GBReason::VSync ==> !final(self).spec_cpu().spec_dead() && old(self).spec_time()
                < final(self).spec_time(),
            r == GBReason::Timeout ==> (match time {
                Some(t) => final(self).spec_time() >= old(self).spec_time() + t,
                None => false,
            }) || final(self).spec_time() > RUN_LIMIT,
            r != GBReason::Timeout ==> old(self).spec_time() <= RUN_LIMIT && (match time {
                Some(t) => old(self).spec_time() + t > old(self).spec_time(),
                None => true,
            }),
            exists|cpus: Seq<CPU>, pre: Seq<MMU>, post: Seq<MMU>|
                #[trigger] run_chain(old(self).spec_cpu(), old(self).spec_mmu().spec_bus(), cpus, pre, post)
                    && final(self).spec_cpu() == cpus[cpus.len() - 1]
                    && crate::mmu::synced(chain_end(old(self).spec_mmu().spec_bus(), post), final(self).spec_mmu().spec_bus(), 0)
                    && (r != GBReason::Timeout ==> pre.len() > 0)
                    && (r == GBReason::VSync ==> post[post.len() - 1].spec_data().vblank),
    {
        let start = self.mmu.time();
        let finish: Option<u64> = match time {
            Some(t) => Some(t + start),
            None => None,
        };
        host.reset_vblank();
        self.mmu.swap_data(host);
        let mut reason = GBReason::Timeout;
        let ghost b0 = old(self).spec_mmu().spec_bus();
        let ghost mut cpus: Seq<CPU> = seq![self.cpu];
        let ghost mut pre: Seq<MMU> = Seq::empty();
        let ghost mut post: Seq<MMU> = Seq::empty();
        loop
            invariant
                self.wf(),
                b0 == old(self).spec_mmu().spec_bus(),
                run_chain(old(self).spec_cpu(), b0, cpus, pre, post),
                self.cpu == cpus[cpus.len() - 1],
                self.mmu.spec_bus() == chain_end(b0, post),
                start == old(self).spec_time(),
                start <= self.spec_time(),
                finish == (match time {
                    Some(t) => Some((t + start) as u64),
                    None => None::<u64>,
                }),
                host.lcd_ok(),
                self.spec_cpu().spec_trace() == old(self).spec_cpu().spec_trace(),
                self.spec_cpu().spec_magic_bp() == old(self).spec_cpu().spec_magic_bp(),
                old(self).spec_cpu().spec_dead() ==> self.spec_cpu().spec_dead(),
            ensures
                run_chain(old(self).spec_cpu(), b0, cpus, pre, post),
                self.cpu == cpus[cpus.len() - 1],
                self.mmu.spec_bus() == chain_end(b0, post),
                reason != GBReason::Timeout ==> pre.len() > 0,
                reason == GBReason::VSync ==> post[post.len() - 1].spec_data().vblank,
                reason == GBReason::Dead ==> self.spec_cpu().spec_dead(),
                reason == GBReason::VSync ==> !self.spec_cpu().spec_dead() && start
                    < self.spec_time(),
                reason == GBReason::Timeout ==> (match finish {
                    Some(f) => self.spec_time() >= f,
                    None => false,
                }) || self.spec_time() > RUN_LIMIT,
                reason != GBReason::Timeout ==> start <= RUN_LIMIT && (match finish {
                    Some(f) => start < f,
                    None => true,
                }),
            decreases u64::MAX - self.spec_time(),
        {
            let now = self.mmu.time();
            let go = match finish {
                Some(f) => now < f,
                None => true,
            };
            if !go || now > RUN_LIMIT {
                reason = GBReason::Timeout;
                break;
            }
            let ghost mb = self.mmu;
            self.cpu.execute(&mut self.mmu);
            proof {
                let n: int = pre.len() as int;
                assert(execute_step(cpus[cpus.len() - 1], mb, self.cpu, self.mmu));
                cpus = cpus.push(self.cpu);
                pre = pre.push(mb);
                post = post.push(self.mmu);
                assert forall|k: int| 0 <= k < pre.len() implies #[trigger] execute_step(cpus[k], pre[k], cpus[k + 1], post[k]) by {
                    if k < n {
                        assert(cpus[k] == cpus.drop_last()[k]);
                    }
                }
            }
            self.mmu.sync_peripherals(false);
            if self.cpu.is_dead(&self.mmu) {
                reason = GBReason::Dead;
                break;
            } else if self.mmu.ack_vblank() {
                reason = GBReason::VSync;
                break;
            }
        }
        self.mmu.sync_peripherals(true);
        self.mmu.swap_data(host);
        assert(run_chain(old(self).spec_cpu(), old(self).spec_mmu().spec_bus(), cpus, pre, post));
        reason
    }

    /// Runs until `time` cycle units have passed (forever when `None`) or
    /// the CPU stops for good, going on through vertical blanks.
    pub fn step_timeout(&mut self, time: Option<CycleCount>, host: &mut PeripheralData) -> (r:
        GBReason)
        requires
            old(self).wf(),
            old(host).lcd_ok(),
            time matches Some(t) ==> old(self).spec_time() + t <= u64::MAX,
        ensures
            final(self).wf(),
            final(host).lcd_ok(),
            old(self).spec_time() <= final(self).spec_time(),
            r != GBReason::VSync,
            r == GBReason::Dead ==> final(self).spec_cpu().spec_dead(),
            r == GBReason::Timeout ==> (match time {
                Some(t) => final(self).spec_time() >= old(self).spec_time() + t,
                None => false,
            }) || final(self).spec_time() > RUN_LIMIT,
    {
        let start = self.mmu.time();
        let finish: Option<u64> = match time {
            Some(t) => Some(t + start),
            None => None,
        };
        loop
            invariant
                self.wf(),
                host.lcd_ok(),
                start == old(self).spec_time(),
                time matches Some(t) ==> start + t <= u64::MAX,
                start <= self.spec_time(),
                finish == (match time {
                    Some(t) => Some((t + start) as u64),
                    None => None::<u64>,
                }),
            decreases u64::MAX - self.spec_time(),
        {
            let now = self.mmu.time();
            let left: Option<u64> = match finish {
                Some(f) => Some(if f > now { f - now } else { 0 }),
                None => None,
            };
            let r = self.step(left, host);
            match r {
                GBReason::VSync => {},
                _ => {
                    return r;
                },
            }
        }
    }
}

} // verus!
