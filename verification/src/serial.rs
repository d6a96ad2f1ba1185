//! The serial port: a byte written to SB is sent once SC starts a transfer.
use crate::cycles::CycleCount;
use crate::peripherals::{Addressable, Peripheral, PeripheralData};
use vstd::prelude::*;

verus! {

pub const SB_ADDR: u16 = 0xff01;

pub const SC_ADDR: u16 = 0xff02;

pub struct Serial {
    sb: u8,
    sc: u8,
}

impl Serial {
    pub closed spec fn spec_sb(&self) -> u8 {
        self.sb
    }

    pub closed spec fn spec_sc(&self) -> u8 {
        self.sc
    }

    pub fn new() -> (r: Serial)
        ensures
            r.spec_sb() == 0,
            r.spec_sc() == 0,
    {
        Serial { sb: 0, sc: 0 }
    }
}

impl Addressable for Serial {
    open spec fn handles(&self, addr: u16) -> bool {
        addr == SB_ADDR || addr == SC_ADDR
    }

    fn read_byte(&mut self, addr: u16) -> (r: u8)
        ensures
            r == (if addr == SB_ADDR { old(self).spec_sb() } else { old(self).spec_sc() }),
            *final(self) == *old(self),
    {
        if addr == SB_ADDR {
            self.sb
        } else {
            self.sc
        }
    }

    fn write_byte(&mut self, addr: u16, v: u8)
        ensures
            final(self).spec_sb() == (if addr == SB_ADDR { v } else { old(self).spec_sb() }),
            final(self).spec_sc() == (if addr == SB_ADDR { old(self).spec_sc() } else { v }),
    {
        if addr == SB_ADDR {
            self.sb = v;
        } else {
            self.sc = v;
        }
    }
}

impl Peripheral for Serial {
    open spec fn can_step(&self, time: CycleCount) -> bool {
        true
    }

    /// When a transfer was started, sends SB to the host's serial sink,
    /// clears the start bit and SB. No interrupt is raised.
    fn step(&mut self, data: &mut PeripheralData, _time: CycleCount) -> (r: u8)
        ensures
            r == 0,
            old(self).spec_sc() & 0x80 != 0 ==> {
                &&& final(self).spec_sc() == old(self).spec_sc() & !0x80u8
                &&& final(self).spec_sb() == 0
                &&& match (old(data).serial, final(data).serial) {
                    (Some(o), Some(n)) => n@ == o@.push(old(self).spec_sb()),
                    (None, None) => true,
                    _ => false,
                }
            },
            old(self).spec_sc() & 0x80 == 0 ==> *final(self) == *old(self) && *final(data)
                == *old(data),
            final(data).lcd == old(data).lcd,
            final(data).audio_spec == old(data).audio_spec,
            final(data).vblank == old(data).vblank,
    {
        if (self.sc & 0x80) != 0 {
            let sb = self.sb;
            match &mut data.serial {
                Some(out) => {
                    out.push(sb);
                },
                None => {},
            }
            self.sc = self.sc & !0x80u8;
            self.sb = 0;
        }
        0
    }

    /// Transfers happen only when observed.
    fn next_step(&self) -> (r: Option<CycleCount>)
        ensures
            r == Some(u64::MAX),
    {
        Some(u64::MAX)
    }
}

} // verus!
