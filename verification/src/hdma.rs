//! Block copies between memory regions: the copy queue and the CGB's
//! general-purpose / H-blank DMA unit.
use crate::cycles::{CycleCount, CGB};
use crate::memreg::MemReg;
use crate::peripherals::{Addressable, Peripheral, PeripheralData};
use crate::waittimer::WaitTimer;
use vstd::prelude::*;

verus! {

/// The (source, destination) pairs of a copy of `len` bytes, both
/// addresses wrapping at 16 bits.
pub open spec fn copy_pairs(src: u16, dst: u16, len: nat) -> Seq<(u16, u16)> {
    Seq::new(len, |i: int| (((src + i) % 65536) as u16, ((dst + i) % 65536) as u16))
}

proof fn lemma_wrap_step(a: int, i: int)
    requires
        0 <= a < 65536,
        0 <= i,
    ensures
        ((if a == 65535 { 0 } else { a + 1 }) + i) % 65536 == (a + (i + 1)) % 65536,
{
    if a == 65535 {
        vstd::arithmetic::div_mod::lemma_mod_add_multiples_vanish(i, 65536);
    }
}

/// A pending copy of `len` bytes from `src` to `dst`.
#[derive(Clone, Copy)]
pub struct Copier {
    src: u16,
    dst: u16,
    len: u16,
}

/// The effect of one `Copier::next` call from `c0` to `c1`.
pub open spec fn next_taken(c0: Copier, c1: Copier, r: Option<(u16, u16)>) -> bool {
    &&& c0.spec_len() == 0 ==> r is None && c1 == c0
    &&& c0.spec_len() > 0 ==> r is Some && c1.spec_len() == c0.spec_len() - 1
}

impl Copier {
    pub closed spec fn spec_src(&self) -> u16 {
        self.src
    }

    pub closed spec fn spec_dst(&self) -> u16 {
        self.dst
    }

    pub closed spec fn spec_len(&self) -> u16 {
        self.len
    }

    /// The byte moves still to be done, in order.
    pub open spec fn pending(&self) -> Seq<(u16, u16)> {
        copy_pairs(self.spec_src(), self.spec_dst(), self.spec_len() as nat)
    }

    pub fn new(s: u16, d: u16, l: u16) -> (r: Copier)
        ensures
            r.spec_src() == s,
            r.spec_dst() == d,
            r.spec_len() == l,
    {
        Copier { src: s, dst: d, len: l }
    }

    /// Adds `l` more bytes to the copy.
    pub fn extend(&mut self, l: u16)
        requires
            old(self).spec_len() + l <= u16::MAX,
        ensures
            final(self).spec_len() == old(self).spec_len() + l,
            final(self).spec_src() == old(self).spec_src(),
            final(self).spec_dst() == old(self).spec_dst(),
    {
        self.len = self.len + l;
    }

    pub fn empty(&self) -> (r: bool)
        ensures
            r == (self.spec_len() == 0),
    {
        self.len == 0
    }

    /// Takes the next byte move, if any.
    pub fn next(&mut self) -> (r: Option<(u16, u16)>)
        ensures
            next_taken(*old(self), *final(self), r),
            old(self).spec_len() == 0 ==> r is None && *final(self) == *old(self),
            old(self).spec_len() > 0 ==> {
                &&& r == Some(old(self).pending()[0])
                &&& final(self).pending() == old(self).pending().drop_first()
                &&& final(self).spec_len() == old(self).spec_len() - 1
                &&& final(self).spec_src() == (old(self).spec_src() + 1) % 65536
                &&& final(self).spec_dst() == (old(self).spec_dst() + 1) % 65536
            },
    {
        if self.len > 0 {
            self.len = self.len - 1;
            let r = (self.src, self.dst);
            self.src = if self.src == 0xffff {
                0
            } else {
                self.src + 1
            };
            self.dst = if self.dst == 0xffff {
                0
            } else {
                self.dst + 1
            };
            proof {
                let p = old(self).pending();
                let q = self.pending();
                let s0 = old(self).src as int;
                let d0 = old(self).dst as int;
                assert(q.len() == p.drop_first().len());
                assert forall|i: int| 0 <= i < q.len() implies q[i] == p.drop_first()[i] by {
                    lemma_wrap_step(s0, i);
                    lemma_wrap_step(d0, i);
                }
                assert(q =~= p.drop_first());
            }
            Some(r)
        } else {
            None
        }
    }

    /// Takes every pending byte move, in order, leaving the copy empty.
    pub fn drain(&mut self) -> (r: Vec<(u16, u16)>)
        ensures
            r@ == old(self).pending(),
            final(self).spec_len() == 0,
            final(self).spec_src() == (old(self).spec_src() + old(self).spec_len()) % 65536,
            final(self).spec_dst() == (old(self).spec_dst() + old(self).spec_len()) % 65536,
    {
        let mut v: Vec<(u16, u16)> = Vec::new();
        while self.len > 0
            invariant
                v@ + self.pending() == old(self).pending(),
                (self.src + self.len) % 65536 == (old(self).src + old(self).len) % 65536,
                (self.dst + self.len) % 65536 == (old(self).dst + old(self).len) % 65536,
            decreases self.len,
        {
            let ghost before = self.pending();
            let n = self.next();
            match n {
                Some(p) => {
                    v.push(p);
                    proof {
                        assert(before =~= seq![p] + before.drop_first());
                        assert(v@ + self.pending() =~= old(self).pending());
                    }
                },
                None => {},
            }
        }
        assert(self.pending() =~= Seq::<(u16, u16)>::empty());
        assert(v@ =~= old(self).pending());
        v
    }
}

pub const HDMA1_ADDR: u16 = 0xff51;

pub const HDMA2_ADDR: u16 = 0xff52;

pub const HDMA3_ADDR: u16 = 0xff53;

pub const HDMA4_ADDR: u16 = 0xff54;

pub const HDMA5_ADDR: u16 = 0xff55;

#[derive(Clone, Copy)]
pub struct HDMA {
    copy: Copier,
    wait: WaitTimer,
    hblank_dma: bool,
    remain: u16,
    hdma1: MemReg,
    hdma2: MemReg,
    hdma3: MemReg,
    hdma4: MemReg,
    hdma5: MemReg,
}

impl HDMA {
    pub closed spec fn spec_copy(&self) -> Copier {
        self.copy
    }

    pub closed spec fn spec_remain(&self) -> u16 {
        self.remain
    }

    pub closed spec fn spec_hblank(&self) -> bool {
        self.hblank_dma
    }

    /// Where a copy started now would read from: HDMA1:HDMA2 with the low
    /// nibble cleared.
    pub open spec fn spec_source(&self) -> u16 {
        ((self.spec_read(HDMA1_ADDR) * 256 + self.spec_read(HDMA2_ADDR)) as u16) & 0xfff0u16
    }

    /// Where a copy started now would write to: HDMA3:HDMA4 with the low
    /// nibble cleared, inside VRAM (0x8000..=0x9ff0).
    pub open spec fn spec_dest(&self) -> u16 {
        (((self.spec_read(HDMA3_ADDR) * 256 + self.spec_read(HDMA4_ADDR)) as u16) & 0x1ff0u16) | 0x8000u16
    }

    /// What a read of a register returns; HDMA5 gives the remaining bytes
    /// divided by ten, minus one, while running (0xFF when that is out of
    /// range) and 0xFF when idle.
    pub closed spec fn spec_read(&self, addr: u16) -> u8 {
        if addr == HDMA1_ADDR {
            self.hdma1.value()
        } else if addr == HDMA2_ADDR {
            self.hdma2.value()
        } else if addr == HDMA3_ADDR {
            self.hdma3.value()
        } else if addr == HDMA4_ADDR {
            self.hdma4.value()
        } else if self.active() && 1 <= self.remain / 10 <= 256 {
            (self.remain / 10 - 1) as u8
        } else {
            0xff
        }
    }

    /// Bit 7 of HDMA5 clear means a transfer is running.
    pub closed spec fn active(&self) -> bool {
        self.hdma5.value() & 0x80 == 0
    }

    /// The copy queue is drained whenever the bus runs, so it never holds
    /// more than what one step adds; the period accumulator stays below it.
    pub closed spec fn wf(&self) -> bool {
        &&& self.copy.spec_len() <= 2048
        &&& 0x8000 <= self.copy.spec_dst()
        &&& self.copy.spec_dst() + self.copy.spec_len() <= 0xabf0
        &&& self.remain > 0 ==> self.copy.spec_dst() + self.copy.spec_len() + self.remain <= 0xa7f0
        &&& self.remain <= 2048
        &&& self.wait.spec_acc() < 1
        &&& self.hdma5.spec_read_mask() == 0xff
        &&& self.hdma5.spec_write_mask() == 0xff
        &&& self.hdma1.spec_read_mask() == 0xff
        &&& self.hdma1.spec_write_mask() == 0xff
        &&& self.hdma2.spec_read_mask() == 0xff
        &&& self.hdma2.spec_write_mask() == 0xff
        &&& self.hdma3.spec_read_mask() == 0xff
        &&& self.hdma3.spec_write_mask() == 0xff
        &&& self.hdma4.spec_read_mask() == 0xff
        &&& self.hdma4.spec_write_mask() == 0xff
    }

    pub fn new() -> (r: HDMA)
        ensures
            !r.active(),
            r.spec_remain() == 0,
            r.spec_copy().spec_len() == 0,
            r.spec_copy().spec_src() == 0,
            r.spec_copy().spec_dst() == 0x8000,
            !r.spec_hblank(),
            r.spec_read(HDMA1_ADDR) == 0,
            r.spec_read(HDMA2_ADDR) == 0,
            r.spec_read(HDMA3_ADDR) == 0,
            r.spec_read(HDMA4_ADDR) == 0,
            r.spec_read(HDMA5_ADDR) == 0xff,
            r.wf(),
    {
        assert((0x80u8 & 0xffu8) & 0x80 != 0) by {
            crate::bits::lemma_byte_masks();
        }
        assert(0u8 & 0xffu8 == 0) by {
            crate::bits::lemma_byte_masks();
        }
        HDMA {
            copy: Copier::new(0, 0x8000, 0),
            hblank_dma: false,
            remain: 0,
            wait: WaitTimer::new(),
            hdma1: MemReg::default(),
            hdma2: MemReg::default(),
            hdma3: MemReg::default(),
            hdma4: MemReg::default(),
            hdma5: MemReg::new(0b1000_0000, 0xff, 0xff),
        }
    }

    pub fn is_active(&self) -> (r: bool)
        ensures
            r == self.active(),
    {
        (self.hdma5.reg() & 0b1000_0000) == 0
    }

    /// Takes the byte moves that are due, leaving the queue empty.
    pub fn copy_bytes(&mut self) -> (r: Vec<(u16, u16)>)
        ensures
            r@ == old(self).spec_copy().pending(),
            old(self).wf() ==> forall|i: int| 0 <= i < r@.len() ==> 0x8000 <= (#[trigger] r@[i]).1 < 0xabf0,
            final(self).spec_copy().spec_len() == 0,
            final(self).spec_copy().spec_src() == (old(self).spec_copy().spec_src() + old(self).spec_copy().spec_len()) % 65536,
            final(self).spec_copy().spec_dst() == (old(self).spec_copy().spec_dst() + old(self).spec_copy().spec_len()) % 65536,
            final(self).active() == old(self).active(),
            final(self).spec_remain() == old(self).spec_remain(),
            final(self).spec_hblank() == old(self).spec_hblank(),
            forall|a: u16| #[trigger] final(self).spec_read(a) == old(self).spec_read(a),
            old(self).wf() ==> final(self).wf(),
    {
        proof {
            let c = self.copy;
            if self.wf() {
                assert forall|i: int| 0 <= i < c.pending().len() implies 0x8000 <= (#[trigger] c.pending()[i]).1 < 0xabf0 by {
                    assert(c.spec_dst() + i < 0xabf0);
                }
            }
        }
        self.copy.drain()
    }
}

impl Addressable for HDMA {
    open spec fn handles(&self, addr: u16) -> bool {
        HDMA1_ADDR <= addr <= HDMA5_ADDR
    }

    /// HDMA1..4 set the source and destination. Writing HDMA5 starts a copy
    /// of (bits 0..6 + 1) * 16 bytes from the source (low nibble cleared)
    /// to VRAM at the destination (within 0x8000..0x9ff0); bit 7 selects
    /// copying 16 bytes per H-blank instead of all at once.
    fn write_byte(&mut self, addr: u16, val: u8)
        ensures
            old(self).wf() ==> final(self).wf(),
            addr == HDMA5_ADDR ==> {
                &&& final(self).active()
                &&& final(self).spec_hblank() == (val & 0x80 != 0)
                &&& final(self).spec_remain() == ((val & 0x7f) + 1) * 16
                &&& final(self).spec_copy().spec_len() == 0
                &&& final(self).spec_copy().spec_src() == old(self).spec_source()
                &&& final(self).spec_copy().spec_dst() == old(self).spec_dest()
                &&& forall|a: u16| HDMA1_ADDR <= a <= HDMA4_ADDR ==> #[trigger] final(self).spec_read(a) == old(self).spec_read(a)
            },
            addr != HDMA5_ADDR ==> final(self).active() == old(self).active()
                && final(self).spec_remain() == old(self).spec_remain()
                && final(self).spec_hblank() == old(self).spec_hblank()
                && final(self).spec_copy() == old(self).spec_copy(),
            HDMA1_ADDR <= addr < HDMA5_ADDR && old(self).wf() ==> final(self).spec_read(addr) == val
                && forall|a: u16| HDMA1_ADDR <= a <= HDMA4_ADDR && a != addr ==> #[trigger] final(self).spec_read(a) == old(self).spec_read(a),
    {
        proof {
            crate::bits::lemma_byte_masks();
        }
        if addr == HDMA1_ADDR {
            self.hdma1.write_byte(addr, val);
        } else if addr == HDMA2_ADDR {
            self.hdma2.write_byte(addr, val);
        } else if addr == HDMA3_ADDR {
            self.hdma3.write_byte(addr, val);
        } else if addr == HDMA4_ADDR {
            self.hdma4.write_byte(addr, val);
        } else {
            self.hdma5.force_reg(0);
            let ghost m = self.hdma5.spec_read_mask();
            assert((0u8 & m) & 0x80 == 0) by {
            crate::bits::lemma_byte_masks();
        }
            self.hblank_dma = (val & 0b1000_0000) != 0;
            assert(val & 0x7f <= 127) by {
            crate::bits::lemma_byte_masks();
        }
            let low = val & 0x7f;
            let len = (low as u16 + 1) * 0x10;
            assert(len == (low + 1) * 16);
            self.remain = len;
            let source = (self.hdma1.reg() as u16 * 256 + self.hdma2.reg() as u16) & 0xfff0;
            let raw_dest = self.hdma3.reg() as u16 * 256 + self.hdma4.reg() as u16;
            let dest = (raw_dest & 0x1ff0) | 0x8000;
            assert(0x8000 <= (raw_dest & 0x1ff0u16) | 0x8000u16 <= 0x9ff0) by (bit_vector);
            self.wait.reset();
            self.copy = Copier::new(source, dest, 0);
        }
    }

    /// HDMA5 reads the blocks still to copy (minus one) while running, and
    /// 0xFF when idle.
    fn read_byte(&mut self, addr: u16) -> (r: u8)
        ensures
            *final(self) == *old(self),
            r == old(self).spec_read(addr),
            addr == HDMA5_ADDR && !old(self).active() ==> r == 0xff,
    {
        if addr == HDMA1_ADDR {
            self.hdma1.reg()
        } else if addr == HDMA2_ADDR {
            self.hdma2.reg()
        } else if addr == HDMA3_ADDR {
            self.hdma3.reg()
        } else if addr == HDMA4_ADDR {
            self.hdma4.reg()
        } else if self.is_active() {
            let blocks = self.remain / 10;
            if blocks >= 1 && blocks <= 256 {
                (blocks - 1) as u8
            } else {
                0xff
            }
        } else {
            0xff
        }
    }
}

impl Peripheral for HDMA {
    open spec fn can_step(&self, time: CycleCount) -> bool {
        &&& self.wf()
        &&& self.spec_copy().spec_len() == 0
        &&& time <= 64
    }

    /// While running: once nothing remains and the queue is empty, marks the
    /// transfer done; otherwise queues 16 bytes per elapsed cycle (H-blank
    /// mode) or everything that remains.
    fn step(&mut self, data: &mut PeripheralData, time: CycleCount) -> (r: u8)
        ensures
            r == 0,
            final(self).wf(),
            final(self).spec_copy().spec_src() == old(self).spec_copy().spec_src(),
            final(self).spec_copy().spec_dst() == old(self).spec_copy().spec_dst(),
            final(self).spec_hblank() == old(self).spec_hblank(),
            forall|a: u16| HDMA1_ADDR <= a <= HDMA4_ADDR ==> #[trigger] final(self).spec_read(a) == old(self).spec_read(a),
            !old(self).active() ==> *final(self) == *old(self),
            old(self).active() && old(self).spec_remain() == 0 && old(self).spec_copy().spec_len()
                == 0 ==> !final(self).active(),
            old(self).active() && !(old(self).spec_remain() == 0
                && old(self).spec_copy().spec_len() == 0) ==> {
                let queued = (if time >= 1 {
                    if old(self).spec_hblank() {
                        16 * time
                    } else {
                        old(self).spec_remain() as int
                    }
                } else {
                    0
                });
                &&& final(self).active()
                &&& final(self).spec_copy().spec_len() == old(self).spec_copy().spec_len() + queued
                &&& final(self).spec_remain() == (if queued <= old(self).spec_remain() {
                    old(self).spec_remain() - queued
                } else {
                    0
                })
            },
    {
        if !self.is_active() {
        } else if self.remain == 0 && self.copy.empty() {
            self.hdma5.force_reg(0b1000_0000);
            assert((0b1000_0000u8 & 0xffu8) & 0x80 != 0) by (bit_vector);
        } else if let Some(c) = self.wait.ready(time, CGB) {
            let copy: u16 = if self.hblank_dma {
                (16 * c) as u16
            } else {
                self.remain
            };
            self.remain = if copy <= self.remain {
                self.remain - copy
            } else {
                0
            };
            self.copy.extend(copy);
        }
        0
    }

    /// Cycles until the next block is due, or never while idle.
    fn next_step(&self) -> (r: Option<CycleCount>)
        ensures
            !self.active() ==> r == Some(u64::MAX),
            self.active() && self.wf() ==> r == Some(1u64),
    {
        if self.is_active() {
            Some(self.wait.next_ready(CGB))
        } else {
            Some(u64::MAX)
        }
    }
}

} // verus!
