//! Stands in for addresses that no device answers: reads give 0, writes
//! are dropped.
use crate::cycles::CycleCount;
use crate::peripherals::{Addressable, Peripheral, PeripheralData};
use vstd::prelude::*;

verus! {

pub struct FakeMem {}

impl FakeMem {
    pub fn new() -> FakeMem {
        FakeMem {  }
    }
}

impl Addressable for FakeMem {
    open spec fn handles(&self, addr: u16) -> bool {
        true
    }

    fn write_byte(&mut self, _addr: u16, _val: u8) {
    }

    fn read_byte(&mut self, _addr: u16) -> (r: u8)
        ensures
            r == 0,
    {
        0
    }
}

impl Peripheral for FakeMem {
    open spec fn can_step(&self, time: CycleCount) -> bool {
        true
    }

    fn step(&mut self, data: &mut PeripheralData, time: CycleCount) -> (r: u8)
        ensures
            r == 0,
    {
        0
    }

    fn next_step(&self) -> (r: Option<CycleCount>)
        ensures
            r == Some(u64::MAX),
    {
        Some(u64::MAX)
    }
}

} // verus!
