//! A single I/O register with masks on what reads see and what writes change.
use crate::cycles::CycleCount;
use crate::peripherals::{Addressable, Peripheral, PeripheralData};
use vstd::prelude::*;

verus! {

#[derive(Clone, Copy)]
pub struct MemReg {
    reg: u8,
    read_mask: u8,
    write_mask: u8,
}

impl MemReg {
    /// The stored value, before the read mask.
    pub closed spec fn raw(&self) -> u8 {
        self.reg
    }

    pub closed spec fn spec_read_mask(&self) -> u8 {
        self.read_mask
    }

    pub closed spec fn spec_write_mask(&self) -> u8 {
        self.write_mask
    }

    /// What a read returns.
    pub open spec fn value(&self) -> u8 {
        self.raw() & self.spec_read_mask()
    }

    /// The register after a write of `val`: bits outside the write mask keep
    /// their stored value.
    pub closed spec fn written(self, val: u8) -> MemReg {
        MemReg { reg: (self.reg & !self.write_mask) | (val & self.write_mask), ..self }
    }

    /// A register with every bit readable and writable.
    pub fn default() -> (r: MemReg)
        ensures
            r.raw() == 0,
            r.spec_read_mask() == 0xff,
            r.spec_write_mask() == 0xff,
    {
        MemReg::new(0, 0xff, 0xff)
    }

    pub fn new(v: u8, r: u8, w: u8) -> (m: MemReg)
        ensures
            m.raw() == v,
            m.spec_read_mask() == r,
            m.spec_write_mask() == w,
    {
        MemReg { reg: v, read_mask: r, write_mask: w }
    }

    pub fn reg(&self) -> (r: u8)
        ensures
            r == self.value(),
    {
        self.reg & self.read_mask
    }

    /// The stored value, ignoring the read mask.
    pub fn raw_reg(&self) -> (r: u8)
        ensures
            r == self.raw(),
    {
        self.reg
    }

    pub fn set_reg(&mut self, val: u8)
        ensures
            *final(self) == old(self).written(val),
            final(self).raw() == (old(self).raw() & !old(self).spec_write_mask()) | (val
                & old(self).spec_write_mask()),
            final(self).spec_read_mask() == old(self).spec_read_mask(),
            final(self).spec_write_mask() == old(self).spec_write_mask(),
    {
        self.reg = (self.reg & !self.write_mask) | (val & self.write_mask);
    }

    /// Stores `val` whole, ignoring the write mask (for the hardware's own
    /// updates).
    pub fn force_reg(&mut self, val: u8)
        ensures
            final(self).raw() == val,
            final(self).spec_read_mask() == old(self).spec_read_mask(),
            final(self).spec_write_mask() == old(self).spec_write_mask(),
    {
        self.reg = val;
    }

    /// With a full write mask, a read gives back what was written, masked by
    /// the read mask.
    pub proof fn lemma_read_after_write(self, val: u8)
        requires
            self.spec_write_mask() == 0xff,
        ensures
            self.written(val).value() == val & self.spec_read_mask(),
    {
        let r = self.reg;
        assert((r & !0xffu8) | (val & 0xffu8) == val) by (bit_vector);
    }
}

impl Addressable for MemReg {
    open spec fn handles(&self, addr: u16) -> bool {
        true
    }

    fn write_byte(&mut self, _addr: u16, val: u8)
        ensures
            *final(self) == old(self).written(val),
            final(self).raw() == (old(self).raw() & !old(self).spec_write_mask()) | (val
                & old(self).spec_write_mask()),
            final(self).spec_read_mask() == old(self).spec_read_mask(),
            final(self).spec_write_mask() == old(self).spec_write_mask(),
    {
        self.set_reg(val);
    }

    fn read_byte(&mut self, _addr: u16) -> (r: u8)
        ensures
            r == old(self).value(),
            *final(self) == *old(self),
    {
        self.reg()
    }
}

impl Peripheral for MemReg {
    open spec fn can_step(&self, time: CycleCount) -> bool {
        true
    }

    fn step(&mut self, data: &mut PeripheralData, time: CycleCount) -> (r: u8)
        ensures
            r == 0,
            *final(self) == *old(self),
    {
        0
    }

    /// A register raises no interrupts and only changes when written.
    fn next_step(&self) -> (r: Option<CycleCount>)
        ensures
            r == Some(u64::MAX),
    {
        Some(u64::MAX)
    }
}

} // verus!
