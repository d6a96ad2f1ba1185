//! A block of RAM or ROM mapped at a base address.
use crate::cycles::CycleCount;
use crate::peripherals::{Addressable, Peripheral, PeripheralData};
use vstd::prelude::*;

verus! {

pub struct Mem {
    read_only: bool,
    base: u16,
    mem: Vec<u8>,
}

impl Mem {
    pub closed spec fn spec_base(&self) -> u16 {
        self.base
    }

    pub closed spec fn contents(&self) -> Seq<u8> {
        self.mem@
    }

    pub closed spec fn spec_read_only(&self) -> bool {
        self.read_only
    }

    /// Whether `addr` falls inside the block.
    pub open spec fn covers(&self, addr: u16) -> bool {
        self.spec_base() <= addr < self.spec_base() + self.contents().len()
    }

    /// The byte held at `addr`.
    pub open spec fn at(&self, addr: u16) -> u8 {
        self.contents()[addr - self.spec_base()]
    }

    pub fn new(read_only: bool, base: u16, mem: Vec<u8>) -> (r: Mem)
        ensures
            r.spec_read_only() == read_only,
            r.spec_base() == base,
            r.contents() == mem@,
    {
        Mem { read_only, base, mem }
    }

    /// The index of `addr` in the block, if it falls inside it.
    fn offset(&self, addr: u16) -> (r: Option<usize>)
        ensures
            r is Some <==> self.covers(addr),
            r is Some ==> r == Some((addr - self.base) as usize),
    {
        if addr >= self.base && ((addr - self.base) as usize) < self.mem.len() {
            Some((addr - self.base) as usize)
        } else {
            None
        }
    }

    pub fn set_readonly(&mut self, readonly: bool)
        ensures
            final(self).spec_read_only() == readonly,
            final(self).spec_base() == old(self).spec_base(),
            final(self).contents() == old(self).contents(),
    {
        self.read_only = readonly;
    }

    /// The bytes of the block.
    pub fn bytes(&self) -> (r: &Vec<u8>)
        ensures
            r@ == self.contents(),
    {
        &self.mem
    }

    /// The size of the block in bytes.
    pub fn len(&self) -> (r: usize)
        ensures
            r == self.contents().len(),
    {
        self.mem.len()
    }
}

impl Addressable for Mem {
    open spec fn handles(&self, addr: u16) -> bool {
        self.covers(addr)
    }

    /// Stores `val` unless the block is read-only.
    fn write_byte(&mut self, addr: u16, val: u8)
        ensures
            final(self).spec_base() == old(self).spec_base(),
            final(self).spec_read_only() == old(self).spec_read_only(),
            final(self).contents() == (if old(self).spec_read_only() {
                old(self).contents()
            } else {
                old(self).contents().update(addr - old(self).spec_base(), val)
            }),
    {
        if !self.read_only {
            if let Some(o) = self.offset(addr) {
                self.mem.set(o, val);
            }
        }
    }

    fn read_byte(&mut self, addr: u16) -> (r: u8)
        ensures
            r == old(self).at(addr),
            *final(self) == *old(self),
    {
        match self.offset(addr) {
            Some(o) => self.mem[o],
            None => 0,
        }
    }
}

impl Peripheral for Mem {
    open spec fn can_step(&self, time: CycleCount) -> bool {
        true
    }

    fn step(&mut self, data: &mut PeripheralData, time: CycleCount) -> (r: u8)
        ensures
            r == 0,
            *final(self) == *old(self),
    {
        0
    }

    /// Memory raises no interrupts and only changes when written.
    fn next_step(&self) -> (r: Option<CycleCount>)
        ensures
            r == Some(u64::MAX),
    {
        Some(u64::MAX)
    }
}

} // verus!
