//! What every device on the memory bus offers, and the host-side buffers
//! that devices fill while they run.
use crate::cycles::CycleCount;
use vstd::prelude::*;

verus! {

/// Where generated audio goes: samples are appended to `samples`, two
/// (left, right) per tick of the sample clock.
pub struct AudioSpec {
    pub samples: Vec<i16>,
    pub freq: u32,
    pub silence: i16,
}

/// The host side of a run: the screen buffer (160x144 RGBA, when drawing is
/// wanted), the bytes sent on the serial port, the audio output, and whether
/// a vertical blank was reached.
pub struct PeripheralData {
    pub lcd: Option<Vec<u8>>,
    pub serial: Option<Vec<u8>>,
    pub audio_spec: Option<AudioSpec>,
    pub vblank: bool,
}

impl PeripheralData {
    /// The frame buffer's bytes, where there is one.
    pub open spec fn lcd_view(&self) -> Option<Seq<u8>> {
        match self.lcd {
            Some(v) => Some(v@),
            None => None,
        }
    }

    /// A frame buffer, where there is one, holds a whole screen of RGBA
    /// pixels.
    pub open spec fn lcd_ok(&self) -> bool {
        match self.lcd {
            Some(v) => v@.len() == 92160,
            None => true,
        }
    }

    /// No screen, serial sink or audio.
    pub fn empty() -> (r: PeripheralData)
        ensures
            r.lcd is None,
            r.serial is None,
            r.audio_spec is None,
            !r.vblank,
    {
        PeripheralData { serial: None, lcd: None, audio_spec: None, vblank: false }
    }

    pub fn reset_vblank(&mut self)
        ensures
            !final(self).vblank,
            final(self).lcd == old(self).lcd,
            final(self).serial == old(self).serial,
            final(self).audio_spec == old(self).audio_spec,
    {
        self.vblank = false;
    }

    pub fn new(lcd: Option<Vec<u8>>, serial: Option<Vec<u8>>, audio_spec: Option<AudioSpec>) -> (r:
        PeripheralData)
        ensures
            r.lcd == lcd,
            r.serial == serial,
            r.audio_spec == audio_spec,
            !r.vblank,
    {
        PeripheralData { serial, lcd, audio_spec, vblank: false }
    }
}

/// A device that answers reads and writes on part of the address space.
pub trait Addressable {
    /// The addresses the device answers.
    spec fn handles(&self, addr: u16) -> bool;

    fn read_byte(&mut self, addr: u16) -> u8
        requires
            old(self).handles(addr),
    ;

    fn write_byte(&mut self, addr: u16, v: u8)
        requires
            old(self).handles(addr),
    ;
}

/// A device that also advances with time and may raise interrupts (as a
/// mask of IF bits).
pub trait Peripheral: Addressable {
    /// Whether the device can advance by `time` cycles in one step.
    spec fn can_step(&self, time: CycleCount) -> bool;

    /// Advances the device by `time` cycles; returns the interrupts raised.
    fn step(&mut self, data: &mut PeripheralData, time: CycleCount) -> (r: u8)
        requires
            old(self).can_step(time),
            old(data).lcd_ok(),
        ensures
            final(data).lcd_ok(),
    ;

    /// How many cycles may pass before the device has something to do;
    /// `None` when it cannot tell.
    fn next_step(&self) -> Option<CycleCount>;
}

} // verus!
