//! The joypad: P1 selects the button or the direction group, and reads
//! return the selected group in the low nibble (0 = pressed).
use crate::cycles::CycleCount;
use crate::peripherals::{Addressable, Peripheral, PeripheralData};
use vstd::prelude::*;

verus! {

/// The joypad keys, as bits of the byte handed to `set_controls`: the
/// direction keys in the high nibble, the buttons in the low one.
#[derive(Debug, Copy, Clone, PartialEq, Eq, Structural)]
pub enum GBControl {
    Right,
    Left,
    Up,
    Down,
    A,
    B,
    Select,
    Start,
}

impl GBControl {
    pub open spec fn spec_mask(self) -> u8 {
        match self {
            GBControl::Right => 0x10,
            GBControl::Left => 0x20,
            GBControl::Up => 0x40,
            GBControl::Down => 0x80,
            GBControl::A => 0x01,
            GBControl::B => 0x02,
            GBControl::Select => 0x04,
            GBControl::Start => 0x08,
        }
    }

    /// The bit of the controls byte that stands for this key.
    pub fn mask(self) -> (r: u8)
        ensures
            r == self.spec_mask(),
    {
        match self {
            GBControl::Right => 0x10,
            GBControl::Left => 0x20,
            GBControl::Up => 0x40,
            GBControl::Down => 0x80,
            GBControl::A => 0x01,
            GBControl::B => 0x02,
            GBControl::Select => 0x04,
            GBControl::Start => 0x08,
        }
    }
}

pub const P1_ADDR: u16 = 0xff00;

pub struct Controller {
    p1: u8,
    read: u8,
    old: u8,
}

/// What P1 reads: the select bits as written, with the selected group of
/// keys in the low nibble, or 0xF when neither or both groups are selected.
pub open spec fn spec_p1_read(p1: u8, keys: u8) -> u8 {
    let buttons = p1 & 0x20 == 0;
    let dirs = p1 & 0x10 == 0;
    if !buttons && dirs {
        p1 | ((keys >> 4u8) & 0x0f)
    } else if buttons && !dirs {
        p1 | (keys & 0x0f)
    } else {
        p1 | 0x0f
    }
}

impl Controller {
    pub closed spec fn spec_p1(&self) -> u8 {
        self.p1
    }

    /// The keys as last set (0 = pressed).
    pub closed spec fn keys(&self) -> u8 {
        self.read
    }

    /// The keys as seen at the last step.
    pub closed spec fn seen(&self) -> u8 {
        self.old
    }

    pub fn new() -> (r: Controller)
        ensures
            r.spec_p1() == 0x3f,
            r.keys() == 0xff,
            r.seen() == 0xff,
    {
        Controller { p1: 0x3f, read: 0xff, old: 0xff }
    }

    /// Records the state of the keys (0 = pressed).
    pub fn set_controls(&mut self, controls: u8)
        ensures
            final(self).keys() == controls,
            final(self).spec_p1() == old(self).spec_p1(),
            final(self).seen() == old(self).seen(),
    {
        self.read = controls;
    }
}

/// The joypad interrupt a controller step raises: when a key went down
/// since the last step.
pub open spec fn joypad_irq(c: Controller) -> u8 {
    if (c.seen() ^ c.keys()) & !c.keys() != 0 {
        0x10u8
    } else {
        0
    }
}

impl Addressable for Controller {
    open spec fn handles(&self, addr: u16) -> bool {
        addr == P1_ADDR
    }

    fn read_byte(&mut self, _addr: u16) -> (r: u8)
        ensures
            r == spec_p1_read(old(self).spec_p1(), old(self).keys()),
            *final(self) == *old(self),
    {
        let button_keys = (self.p1 & 0b0010_0000) == 0;
        let dir_keys = (self.p1 & 0b0001_0000) == 0;
        if !button_keys && dir_keys {
            self.p1 | ((self.read >> 4u8) & 0x0f)
        } else if button_keys && !dir_keys {
            self.p1 | (self.read & 0x0f)
        } else {
            self.p1 | 0xf
        }
    }

    /// Only the select bits (high nibble) are writable.
    fn write_byte(&mut self, _addr: u16, v: u8)
        ensures
            final(self).spec_p1() == v & 0xF0,
            final(self).keys() == old(self).keys(),
            final(self).seen() == old(self).seen(),
    {
        self.p1 = v & 0xF0;
    }
}

impl Peripheral for Controller {
    open spec fn can_step(&self, time: CycleCount) -> bool {
        true
    }

    /// Raises the joypad interrupt when a key went down since the last step.
    fn step(&mut self, data: &mut PeripheralData, _time: CycleCount) -> (r: u8)
        ensures
            r == joypad_irq(*old(self)),
            final(self).seen() == old(self).keys(),
            final(self).keys() == old(self).keys(),
            final(self).spec_p1() == old(self).spec_p1(),
    {
        let res: u8 = if (self.old ^ self.read) & !self.read != 0 {
            0x10
        } else {
            0
        };
        self.old = self.read;
        res
    }

    /// The joypad only needs stepping when observed.
    fn next_step(&self) -> (r: Option<CycleCount>)
        ensures
            r == Some(u64::MAX),
    {
        Some(u64::MAX)
    }
}

} // verus!
