//! OAM DMA: a write to 0xFF46 copies 160 bytes from `value * 0x100` into
//! sprite memory at 0xFE00.
use crate::cycles::{CycleCount, GB};
use crate::hdma::Copier;
use crate::peripherals::{Addressable, Peripheral, PeripheralData};
use crate::waittimer::WaitTimer;
use vstd::prelude::*;

verus! {

pub const DMA_ADDR: u16 = 0xff46;

#[derive(Clone, Copy)]
pub struct DMA {
    active: bool,
    copy: Copier,
    wait: WaitTimer,
}

impl DMA {
    pub closed spec fn spec_active(&self) -> bool {
        self.active
    }

    pub closed spec fn spec_copy(&self) -> Copier {
        self.copy
    }

    pub closed spec fn wait_acc(&self) -> u64 {
        self.wait.spec_acc()
    }

    /// The period accumulator stays below one machine cycle.
    pub closed spec fn wf(&self) -> bool {
        &&& self.wait.spec_acc() < GB
        &&& self.copy.spec_len() == 0 || (self.copy.spec_dst() == 0xfe00 && self.copy.spec_len() <= 160)
    }

    pub fn new() -> (r: DMA)
        ensures
            !r.spec_active(),
            r.spec_copy().spec_len() == 0,
            r.wf(),
    {
        DMA { active: false, copy: Copier::new(0, 0, 0), wait: WaitTimer::new() }
    }

    pub fn is_active(&self) -> (r: bool)
        ensures
            r == self.spec_active(),
    {
        self.active
    }

    /// Takes the byte moves still queued, leaving the queue empty.
    pub fn copy_bytes(&mut self) -> (r: Vec<(u16, u16)>)
        ensures
            r@ == old(self).spec_copy().pending(),
            old(self).wf() ==> forall|i: int| 0 <= i < r@.len() ==> 0xfe00 <= (#[trigger] r@[i]).1 < 0xfea0,
            final(self).spec_copy().spec_len() == 0,
            final(self).spec_active() == old(self).spec_active(),
            old(self).wf() ==> final(self).wf(),
    {
        proof {
            let c = self.copy;
            if self.wf() {
                assert forall|i: int| 0 <= i < c.pending().len() implies 0xfe00 <= (#[trigger] c.pending()[i]).1 < 0xfea0 by {
                    assert(c.spec_dst() + i < 0xfea0);
                }
            }
        }
        self.copy.drain()
    }
}

impl Peripheral for DMA {
    open spec fn can_step(&self, time: CycleCount) -> bool {
        self.wf() && time <= 1024
    }

    /// Once a machine cycle has passed with the queue drained, the transfer
    /// is over.
    fn step(&mut self, data: &mut PeripheralData, time: CycleCount) -> (r: u8)
        ensures
            r == 0,
            final(self).wf(),
            final(self).spec_copy() == old(self).spec_copy(),
            final(self).spec_active() == (old(self).spec_active() && !(old(self).spec_copy().spec_len()
                == 0 && old(self).wait_acc() + time >= GB)),
    {
        if !self.is_active() {
        } else if let Some(_) = self.wait.ready(time, GB) {
            if self.copy.empty() {
                self.active = false;
            }
        }
        proof {
            vstd::arithmetic::div_mod::lemma_mod_division_less_than_divisor(
                old(self).wait.spec_acc() + time,
                GB as int,
            );
        }
        0
    }

    /// One machine cycle after the last step while running; never while
    /// idle.
    fn next_step(&self) -> (r: Option<CycleCount>)
        ensures
            r == Some(if self.spec_active() { (if GB > self.wait_acc() { GB - self.wait_acc() } else { 0int }) as u64 } else { u64::MAX }),
    {
        if self.is_active() {
            Some(self.wait.next_ready(GB))
        } else {
            Some(u64::MAX)
        }
    }
}

impl Addressable for DMA {
    open spec fn handles(&self, addr: u16) -> bool {
        addr == DMA_ADDR
    }

    /// Starts copying 160 bytes from `val * 0x100` to 0xFE00.
    fn write_byte(&mut self, _addr: u16, val: u8)
        ensures
            final(self).spec_active(),
            final(self).spec_copy().pending() == crate::hdma::copy_pairs((val * 256) as u16, 0xfe00u16, 0xA0nat),
            final(self).wf(),
    {
        self.active = true;
        let source = (val as u16) * 256;
        let target: u16 = 0xfe00;
        let len: u16 = 0xA0;
        self.wait.reset();
        self.copy = Copier::new(source, target, len);
    }

    /// The register reads as 0.
    fn read_byte(&mut self, _addr: u16) -> (r: u8)
        ensures
            r == 0,
            *final(self) == *old(self),
    {
        0
    }
}

} // verus!
