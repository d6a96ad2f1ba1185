//! A range of addresses that reads as a fixed byte and ignores writes.
use crate::cycles::CycleCount;
use crate::peripherals::{Addressable, Peripheral, PeripheralData};
use vstd::prelude::*;

verus! {

pub struct EmptyMem {
    default: u8,
    base: u16,
    len: u16,
}

impl EmptyMem {
    pub closed spec fn spec_default(&self) -> u8 {
        self.default
    }

    /// Whether `addr` lies in `base..=base + len`.
    pub closed spec fn covers(&self, addr: u16) -> bool {
        self.base <= addr <= self.base + self.len
    }

    pub fn new(default: u8, base: u16, len: u16) -> (r: EmptyMem)
        ensures
            r.spec_default() == default,
            forall|a: u16| #[trigger] r.covers(a) <==> base <= a <= base + len,
    {
        EmptyMem { base, default, len }
    }
}

impl Addressable for EmptyMem {
    open spec fn handles(&self, addr: u16) -> bool {
        self.covers(addr)
    }

    fn write_byte(&mut self, _addr: u16, _val: u8)
        ensures
            *final(self) == *old(self),
    {
    }

    fn read_byte(&mut self, _addr: u16) -> (r: u8)
        ensures
            r == old(self).spec_default(),
            *final(self) == *old(self),
    {
        self.default
    }
}

impl Peripheral for EmptyMem {
    open spec fn can_step(&self, time: CycleCount) -> bool {
        true
    }

    fn step(&mut self, data: &mut PeripheralData, time: CycleCount) -> (r: u8)
        ensures
            r == 0,
            *final(self) == *old(self),
    {
        0
    }

    fn next_step(&self) -> (r: Option<CycleCount>)
        ensures
            r == Some(u64::MAX),
    {
        Some(u64::MAX)
    }
}

} // verus!
