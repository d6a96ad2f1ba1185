//! The memory bus: maps each address to the device that answers it, keeps
//! the clock, and advances the devices as cycles pass.
use crate::cart::Cart;
use crate::controller::{joypad_irq, spec_p1_read, Controller, P1_ADDR};
use crate::cycles::{CycleCount, CGB, GB};
use crate::display::{chosen_palette, display_handles, display_irq, palette_loaded, Display, BGPS_ADDR, LY_ADDR, OBPS_ADDR, VBK_ADDR};
use crate::dma::DMA;
use crate::fakemem::FakeMem;
use crate::hdma::HDMA;
use crate::mem::Mem;
use crate::memreg::MemReg;
use crate::peripherals::{Addressable, Peripheral, PeripheralData};
use crate::serial::{Serial, SB_ADDR};
use crate::sound::Mixer;
use crate::timer::{timer_stepped, Timer, DIV_ADDR, TAC_ADDR, TIMA_ADDR};
use vstd::prelude::*;

verus! {

pub const IF_ADDR: u16 = 0xff0f;

pub const IE_ADDR: u16 = 0xffff;

pub const SVBK_ADDR: u16 = 0xff70;

pub const KEY1_ADDR: u16 = 0xff4d;

pub const DMA_REG_ADDR: u16 = 0xff46;

/// Writing this address unmaps the boot ROM.
pub const BIOS_OFF_ADDR: u16 = 0xff50;

/// Bytes of work RAM: eight 4 KiB banks.
pub const WRAM_BYTES: usize = 0x8000;

/// Bytes of high RAM (0xFF80..=0xFFFE).
pub const HRAM_BYTES: usize = 127;

/// Bytes of the unusable area after OAM (0xFEA0..=0xFF00).
pub const RAM2_BYTES: usize = 97;

/// Headroom the clock keeps below its maximum for one step of the CPU.
pub const TIME_HEADROOM: u64 = 1024;

pub open spec fn is_wram(addr: u16) -> bool {
    0xc000 <= addr <= 0xfdff
}

pub open spec fn is_hram(addr: u16) -> bool {
    0xff80 <= addr <= 0xfffe
}

pub open spec fn is_ram2(addr: u16) -> bool {
    0xfea0 <= addr <= 0xfeff
}

/// Addresses backed by plain memory: work RAM and its echo, high RAM, the
/// area after OAM, and the interrupt enable register.
pub open spec fn is_plain(addr: u16) -> bool {
    is_wram(addr) || is_hram(addr) || is_ram2(addr) || addr == IE_ADDR
}

/// The work RAM bank mapped at 0xD000: SVBK's bank, with 0 meaning 1.
pub open spec fn wram_bank(svbk: u8) -> int {
    if svbk & 7 == 0 {
        1
    } else {
        (svbk & 7) as int
    }
}

/// Where in work RAM an address lands: bank 0 at 0xC000, the selected bank
/// at 0xD000, and the echo at 0xE000 (bank 0) and 0xF000 (bank 1).
pub open spec fn wram_index(addr: u16, svbk: u8) -> int {
    if addr <= 0xcfff {
        addr - 0xc000
    } else if addr <= 0xdfff {
        wram_bank(svbk) * 0x1000 + (addr - 0xd000)
    } else if addr <= 0xefff {
        addr - 0xe000
    } else {
        0x1000 + (addr - 0xf000)
    }
}

/// Two consecutive work RAM addresses never land on the same byte.
pub proof fn lemma_wram_next_distinct(addr: u16, svbk: u8)
    requires
        is_wram(addr),
        is_wram((addr + 1) as u16),
        addr < 0xffff,
    ensures
        wram_index(addr, svbk) != wram_index((addr + 1) as u16, svbk),
        0 <= wram_index(addr, svbk) < WRAM_BYTES,
{
    assert(svbk & 7 <= 7) by {
            crate::bits::lemma_byte_masks();
        }
}

/// Every work RAM address lands inside work RAM.
pub proof fn lemma_wram_index_bounds(addr: u16, svbk: u8)
    requires
        is_wram(addr),
    ensures
        0 <= wram_index(addr, svbk) < WRAM_BYTES,
{
    assert(svbk & 7 <= 7) by {
            crate::bits::lemma_byte_masks();
        }
}

/// Where a seek counts from: an absolute address, the top of memory, or
/// the current position.
#[derive(PartialEq, Eq, Structural, Clone, Copy, Debug)]
pub enum SeekFrom {
    Start(u64),
    End(i64),
    Current(i64),
}

/// Why a seek failed.
#[derive(PartialEq, Eq, Structural, Clone, Copy, Debug)]
pub enum SeekError {
    /// The offset would move before address 0.
    BeforeStart,
}

/// A seek offset clamped to the signed 16-bit range.
pub open spec fn clamp16(seek: i64) -> int {
    if seek > 32767 {
        32767
    } else if seek < -32768 {
        -32768
    } else {
        seek as int
    }
}

/// A position moved by an offset: forward, stopping at 0xFFFF; a
/// non-positive offset `s` subtracts `s` taken as a 16-bit unsigned number
/// (that is, 65536 + s for a negative one), which fails when that would go
/// below 0.
pub open spec fn spec_apply_offset(pos: u16, seek: i64) -> Option<u16> {
    let s = clamp16(seek);
    if s > 0 {
        Some(if pos + s > 0xffff { 0xffffu16 } else { (pos + s) as u16 })
    } else {
        let d = if s == 0 { 0 } else { s + 65536 };
        if pos >= d {
            Some((pos - d) as u16)
        } else {
            None
        }
    }
}

/// Moves a seek position by an offset (see `spec_apply_offset`).
pub fn apply_offset(pos: u16, seek: i64) -> (r: Result<u64, SeekError>)
    ensures
        match spec_apply_offset(pos, seek) {
            Some(p) => r == Ok::<u64, SeekError>(p as u64),
            None => r == Err::<u64, SeekError>(SeekError::BeforeStart),
        },
{
    let s: i32 = if seek > 32767 {
        32767
    } else if seek < -32768 {
        -32768
    } else {
        seek as i32
    };
    if s > 0 {
        let sum: u32 = pos as u32 + s as u32;
        Ok(if sum > 0xffff { 0xffff } else { sum as u64 })
    } else {
        let d: u32 = if s == 0 { 0 } else { (s + 65536) as u32 };
        if pos as u32 >= d {
            Ok((pos as u32 - d) as u64)
        } else {
            Err(SeekError::BeforeStart)
        }
    }
}

/// The device map of everything on the bus.
pub struct MMUInternal {
    bios_exists: bool,
    bios: Mem,
    cart: Cart,
    timer: Timer,
    display: Display,
    controller: Controller,
    dma: DMA,
    hdma: HDMA,
    svbk: MemReg,
    key1: MemReg,
    wram: Vec<u8>,
    fake_mem: FakeMem,
    serial: Serial,
    hram: Mem,
    ram2: Mem,
    sound: Mixer,
    interrupt_flag: MemReg,
    interrupt_enable: MemReg,
    time: CycleCount,
    seek_pos: u16,
}

impl MMUInternal {
    /// The same bus with the boot ROM unmapped.
    pub closed spec fn without_bios(&self) -> MMUInternal {
        MMUInternal { bios_exists: false, ..*self }
    }

    pub closed spec fn spec_time(&self) -> u64 {
        self.time
    }

    /// The address the next sequential access would use.
    pub closed spec fn spec_seek_pos(&self) -> u16 {
        self.seek_pos
    }

    /// The same bus with the seek position moved to `p`.
    pub closed spec fn with_seek_pos(&self, p: u16) -> MMUInternal {
        MMUInternal { seek_pos: p, ..*self }
    }

    /// Moves the seek position: to an absolute address (clamped to
    /// 0xFFFF), or by an offset from the top of memory or from the
    /// current position (see `spec_apply_offset`). Returns the new
    /// position; a seek that fails leaves the bus as it was.
    pub fn seek(&mut self, pos: SeekFrom) -> (r: Result<u64, SeekError>)
        ensures
            ({
                let target = match pos {
                    SeekFrom::Start(x) => Some(if x > 0xffff { 0xffffu16 } else { x as u16 }),
                    SeekFrom::End(x) => spec_apply_offset(0xffff, x),
                    SeekFrom::Current(x) => spec_apply_offset(old(self).spec_seek_pos(), x),
                };
                match target {
                    Some(p) => r == Ok::<u64, SeekError>(p as u64) && *final(self) == old(self).with_seek_pos(p),
                    None => r == Err::<u64, SeekError>(SeekError::BeforeStart) && *final(self) == *old(self),
                }
            }),
    {
        let target = match pos {
            SeekFrom::Start(x) => Ok(if x > 0xffff { 0xffffu64 } else { x }),
            SeekFrom::End(x) => apply_offset(0xffff, x),
            SeekFrom::Current(x) => apply_offset(self.seek_pos, x),
        };
        match target {
            Ok(p) => {
                self.seek_pos = p as u16;
                Ok(p)
            },
            Err(e) => Err(e),
        }
    }

    pub closed spec fn spec_wram(&self) -> Seq<u8> {
        self.wram@
    }

    pub closed spec fn spec_hram(&self) -> Seq<u8> {
        self.hram.contents()
    }

    pub closed spec fn spec_ram2(&self) -> Seq<u8> {
        self.ram2.contents()
    }

    pub closed spec fn spec_ie(&self) -> u8 {
        self.interrupt_enable.value()
    }

    pub closed spec fn spec_if(&self) -> u8 {
        self.interrupt_flag.value()
    }

    pub closed spec fn spec_svbk(&self) -> u8 {
        self.svbk.value()
    }

    pub closed spec fn spec_key1(&self) -> u8 {
        self.key1.raw()
    }

    pub closed spec fn spec_bios_exists(&self) -> bool {
        self.bios_exists
    }

    pub closed spec fn spec_bios(&self) -> Seq<u8> {
        self.bios.contents()
    }

    pub closed spec fn spec_cart(&self) -> Cart {
        self.cart
    }

    pub closed spec fn spec_display(&self) -> Display {
        self.display
    }

    pub closed spec fn spec_timer(&self) -> Timer {
        self.timer
    }

    pub closed spec fn spec_controller(&self) -> Controller {
        self.controller
    }

    pub closed spec fn spec_sound(&self) -> Mixer {
        self.sound
    }

    /// Bit 7 of KEY1: the CPU runs at double speed.
    pub open spec fn spec_double_speed(&self) -> bool {
        self.spec_key1() & 0x80 != 0
    }

    /// Cycle units one machine cycle takes at the current speed.
    pub open spec fn spec_mult(&self) -> u64 {
        if self.spec_double_speed() {
            CGB
        } else {
            GB
        }
    }

    /// The value plain memory holds at a plain address.
    pub open spec fn plain_at(&self, addr: u16) -> u8 {
        if is_wram(addr) {
            self.spec_wram()[wram_index(addr, self.spec_svbk())]
        } else if is_hram(addr) {
            self.spec_hram()[addr - 0xff80]
        } else if is_ram2(addr) {
            self.spec_ram2()[addr - 0xfea0]
        } else {
            self.spec_ie()
        }
    }

    /// Every device is well formed and every memory has its size; the copy
    /// queue of the H-blank DMA is drained.
    pub closed spec fn wf(&self) -> bool {
        &&& self.bios.spec_base() == 0
        &&& self.bios.spec_read_only()
        &&& self.cart.wf()
        &&& self.timer.wf()
        &&& self.display.wf()
        &&& self.dma.wf()
        &&& self.hdma.wf()
        &&& self.hdma.spec_copy().spec_len() == 0
        &&& self.sound.wf()
        &&& self.wram@.len() == WRAM_BYTES
        &&& self.hram.spec_base() == 0xff80
        &&& self.hram.contents().len() == HRAM_BYTES
        &&& !self.hram.spec_read_only()
        &&& self.ram2.spec_base() == 0xfea0
        &&& self.ram2.contents().len() == RAM2_BYTES
        &&& !self.ram2.spec_read_only()
        &&& self.svbk.spec_read_mask() == 7
        &&& self.svbk.spec_write_mask() == 7
        &&& self.key1.spec_read_mask() == 0xff
        &&& self.key1.spec_write_mask() == 1
        &&& self.interrupt_flag.spec_read_mask() == 0xff
        &&& self.interrupt_flag.spec_write_mask() == 0xff
        &&& self.interrupt_enable.spec_read_mask() == 0xff
        &&& self.interrupt_enable.spec_write_mask() == 0xff
    }

    /// What a read returns for a device address (no time passes).
    pub closed spec fn spec_peek(&self, addr: u16) -> u8 {
        let bios_read = if self.bios.covers(addr) { self.bios.at(addr) } else { 0xffu8 };
        let cart_read = if self.cart.access_ok(addr) { self.cart.spec_read(addr) } else { 0xffu8 };
        if addr <= 0x00ff {
            if self.bios_exists { bios_read } else { cart_read }
        } else if addr <= 0x01ff {
            cart_read
        } else if addr <= 0x08ff {
            if self.bios_exists && self.bios.contents().len() > 256 { bios_read } else { cart_read }
        } else if addr <= 0x7fff {
            cart_read
        } else if addr <= 0x9fff {
            self.display.spec_mem().spec_read(addr)
        } else if addr <= 0xbfff {
            cart_read
        } else if is_plain(addr) {
            self.plain_at(addr)
        } else if addr <= 0xfe9f || display_handles(addr) {
            self.display.spec_mem().spec_read(addr)
        } else if addr == P1_ADDR {
            spec_p1_read(self.controller.spec_p1(), self.controller.keys())
        } else if addr == SB_ADDR {
            self.serial.spec_sb()
        } else if addr == 0xff02 {
            self.serial.spec_sc()
        } else if addr == DIV_ADDR {
            self.timer.div()
        } else if addr == TIMA_ADDR {
            self.timer.tima()
        } else if addr == 0xff06 {
            self.timer.tma()
        } else if addr == TAC_ADDR {
            self.timer.tac()
        } else if addr == IF_ADDR {
            self.interrupt_flag.value()
        } else if 0xff10 <= addr <= 0xff3f {
            self.sound.spec_read(addr)
        } else if addr == SVBK_ADDR {
            self.svbk.value()
        } else if addr == KEY1_ADDR {
            self.key1.value()
        } else if addr == DMA_REG_ADDR {
            0
        } else if 0xff51 <= addr <= 0xff55 {
            self.hdma.spec_read(addr)
        } else {
            0
        }
    }

    /// IF reads as the interrupt flags.
    pub proof fn lemma_peek_if(&self)
        ensures
            self.spec_peek(IF_ADDR) == self.spec_if(),
    {
    }

    /// The plain memories have their sizes.
    pub proof fn lemma_wf_sizes(&self)
        requires
            self.wf(),
        ensures
            self.spec_wram().len() == WRAM_BYTES,
            self.spec_hram().len() == HRAM_BYTES,
            self.spec_ram2().len() == RAM2_BYTES,
    {
    }

    /// A read of plain memory returns what plain memory holds.
    pub proof fn lemma_peek_plain(&self, addr: u16)
        requires
            is_plain(addr),
        ensures
            self.spec_peek(addr) == self.plain_at(addr),
    {
    }

    /// A bus for a cartridge, with an optional boot ROM mapped over the
    /// start of the cartridge, and the rate (in cycle units) at which sound
    /// samples are produced, if any.
    pub fn new(cart: Cart, boot_rom: Option<Vec<u8>>, audio_sample_rate: Option<CycleCount>) -> (r: Self)
        requires
            cart.wf(),
            crate::sound::rate_ok(audio_sample_rate),
        ensures
            r.wf(),
            r.spec_time() == 0,
            r.spec_bios_exists() == (boot_rom is Some),
            r.spec_wram() == Seq::new(WRAM_BYTES as nat, |i: int| 0u8),
            r.spec_hram() == Seq::new(HRAM_BYTES as nat, |i: int| 0u8),
            r.spec_ram2() == Seq::new(RAM2_BYTES as nat, |i: int| 0u8),
            r.spec_ie() == 0,
            r.spec_if() == 0,
            r.spec_svbk() == 0,
            r.spec_key1() == 0,
            r.spec_cart() == cart,
    {
        let bios_exists = boot_rom.is_some();
        let bios = Mem::new(
            true,
            0,
            match boot_rom {
                Some(rom) => rom,
                None => Vec::new(),
            },
        );
        let cart_mode = cart.cgb();
        let wram = vec![0u8; 0x8000];
        let hram = Mem::new(false, 0xff80, vec![0u8; 127]);
        let ram2 = Mem::new(false, 0xfea0, vec![0u8; 97]);
        let interrupt_flag = MemReg::default();
        let interrupt_enable = MemReg::default();
        let r = MMUInternal {
            time: 0,
            seek_pos: 0,
            bios_exists,
            bios,
            cart,
            svbk: MemReg::new(0, 0b111, 0b111),
            key1: MemReg::new(0, 0xff, 0b1),
            display: Display::new(cart_mode),
            timer: Timer::new(),
            serial: Serial::new(),
            controller: Controller::new(),
            sound: Mixer::new(audio_sample_rate),
            wram,
            fake_mem: FakeMem::new(),
            hram,
            ram2,
            dma: DMA::new(),
            hdma: HDMA::new(),
            interrupt_flag,
            interrupt_enable,
        };
        assert(r.spec_wram() =~= Seq::new(WRAM_BYTES as nat, |i: int| 0u8));
        assert(r.spec_hram() =~= Seq::new(HRAM_BYTES as nat, |i: int| 0u8));
        assert(r.spec_ram2() =~= Seq::new(RAM2_BYTES as nat, |i: int| 0u8));
        assert(0u8 & 7u8 == 0 && 0u8 & 0xffu8 == 0) by {
            crate::bits::lemma_byte_masks();
        }
        r
    }

    pub fn time(&self) -> (r: CycleCount)
        ensures
            r == self.spec_time(),
    {
        self.time
    }

    pub fn ienable(&self) -> (r: u8)
        ensures
            r == self.spec_ie(),
    {
        self.interrupt_enable.reg()
    }

    pub fn iflag(&self) -> (r: u8)
        ensures
            r == self.spec_if(),
    {
        self.interrupt_flag.reg()
    }

    pub fn mbc_rom(&self) -> (r: &Vec<u8>)
        ensures
            r@ == self.spec_cart().rom(),
    {
        self.cart.mbc_rom()
    }

    pub fn double_speed(&self) -> (r: bool)
        ensures
            r == self.spec_double_speed(),
    {
        (self.key1.raw_reg() & 0x80) != 0
    }

    /// Bit 0 of KEY1: a speed switch has been requested.
    pub fn speed_change(&self) -> (r: bool)
        ensures
            r == (self.spec_key1() & 1 != 0),
    {
        (self.key1.raw_reg() & 0x1) != 0
    }

    pub fn get_display(&self) -> (r: &Display)
        ensures
            *r == self.spec_display(),
    {
        &self.display
    }

    pub fn disable_bios(&mut self)
        ensures
            *final(self) == old(self).without_bios(),
            final(self).wf() == old(self).wf(),
            !final(self).spec_bios_exists(),
            final(self).same_plain(old(self)),
            final(self).spec_time() == old(self).spec_time(),
            final(self).spec_svbk() == old(self).spec_svbk(),
            final(self).spec_key1() == old(self).spec_key1(),
    {
        self.bios_exists = false;
    }
}


impl MMUInternal {
    /// Whether an access at `addr` goes to the boot ROM rather than the
    /// cartridge.
    pub open spec fn routes_bios(&self, addr: u16) -> bool {
        self.spec_bios_exists() && (addr <= 0x00ff || (0x0200 <= addr <= 0x08ff
            && self.spec_bios().len() > 256))
    }

    /// Whether an access at `addr` goes to the cartridge.
    pub open spec fn routes_cart(&self, addr: u16) -> bool {
        (addr <= 0x7fff || 0xa000 <= addr <= 0xbfff) && !self.routes_bios(addr)
    }

    /// Whether an access at `addr` goes to the display.
    pub open spec fn routes_display(addr: u16) -> bool {
        (0x8000 <= addr <= 0x9fff) || (0xfe00 <= addr <= 0xfe9f) || display_handles(addr)
    }

    fn cart_read(&mut self, addr: u16) -> (r: u8)
        requires
            old(self).wf(),
        ensures
            r == (if old(self).cart.access_ok(addr) { old(self).cart.spec_read(addr) } else { 0xffu8 }),
            *final(self) == *old(self),
    {
        if self.cart.accessible(addr) {
            self.cart.read_byte(addr)
        } else {
            0xff
        }
    }

    fn bios_read(&mut self, addr: u16) -> (r: u8)
        requires
            old(self).wf(),
        ensures
            r == (if old(self).bios.covers(addr) { old(self).bios.at(addr) } else { 0xffu8 }),
            *final(self) == *old(self),
    {
        if (addr as usize) < self.bios.len() {
            self.bios.read_byte(addr)
        } else {
            0xff
        }
    }

    fn wram_offset(&self, addr: u16) -> (r: usize)
        requires
            self.wf(),
            is_wram(addr),
        ensures
            r == wram_index(addr, self.spec_svbk()),
            r < WRAM_BYTES,
    {
        if addr <= 0xcfff {
            (addr - 0xc000) as usize
        } else if addr <= 0xdfff {
            let b = self.svbk.reg();
            let bank: usize = if b & 7 == 0 {
                1
            } else {
                (b & 7) as usize
            };
            assert(b & 7 < 8) by {
            crate::bits::lemma_byte_masks();
        }
            bank * 0x1000 + (addr - 0xd000) as usize
        } else if addr <= 0xefff {
            (addr - 0xe000) as usize
        } else {
            0x1000 + (addr - 0xf000) as usize
        }
    }

    /// Reads a byte from whatever answers `addr`, without letting time
    /// pass. The boot ROM and the cartridge read 0xFF where they have no
    /// byte; unmapped addresses read 0.
    pub fn read_byte_noeffect(&mut self, addr: u16) -> (r: u8)
        requires
            old(self).wf(),
        ensures
            r == old(self).spec_peek(addr),
            *final(self) == *old(self),
    {
        if addr <= 0x00ff {
            if self.bios_exists {
                self.bios_read(addr)
            } else {
                self.cart_read(addr)
            }
        } else if addr <= 0x01ff {
            self.cart_read(addr)
        } else if addr <= 0x08ff {
            if self.bios_exists && self.bios.len() > 256 {
                self.bios_read(addr)
            } else {
                self.cart_read(addr)
            }
        } else if addr <= 0x7fff {
            self.cart_read(addr)
        } else if addr <= 0x9fff {
            self.display.read_byte(addr)
        } else if addr <= 0xbfff {
            self.cart_read(addr)
        } else if addr <= 0xfdff {
            let o = self.wram_offset(addr);
            self.wram[o]
        } else if addr <= 0xfe9f {
            self.display.read_byte(addr)
        } else if addr <= 0xfeff {
            self.ram2.read_byte(addr)
        } else if (0xff40 <= addr && addr <= 0xff45) || (0xff47 <= addr && addr <= 0xff4b) || addr
            == 0xff4f || (0xff68 <= addr && addr <= 0xff6b) {
            self.display.read_byte(addr)
        } else if addr == P1_ADDR {
            self.controller.read_byte(addr)
        } else if addr == SB_ADDR || addr == 0xff02 {
            self.serial.read_byte(addr)
        } else if DIV_ADDR <= addr && addr <= TAC_ADDR {
            self.timer.read_byte(addr)
        } else if addr == IF_ADDR {
            self.interrupt_flag.read_byte(addr)
        } else if 0xff10 <= addr && addr <= 0xff3f {
            self.sound.read_byte(addr)
        } else if addr == SVBK_ADDR {
            self.svbk.read_byte(addr)
        } else if addr == KEY1_ADDR {
            self.key1.read_byte(addr)
        } else if addr == DMA_REG_ADDR {
            self.dma.read_byte(addr)
        } else if 0xff51 <= addr && addr <= 0xff55 {
            self.hdma.read_byte(addr)
        } else if 0xff80 <= addr && addr <= 0xfffe {
            self.hram.read_byte(addr)
        } else if addr == IE_ADDR {
            self.interrupt_enable.read_byte(addr)
        } else {
            self.fake_mem.read_byte(addr)
        }
    }
}


impl MMUInternal {
    /// The parts of the bus a write leaves alone when it goes to a device
    /// other than plain memory, the boot ROM switch and SVBK.
    pub open spec fn same_plain(&self, other: &MMUInternal) -> bool {
        &&& self.spec_wram() == other.spec_wram()
        &&& self.spec_hram() == other.spec_hram()
        &&& self.spec_ram2() == other.spec_ram2()
        &&& self.spec_ie() == other.spec_ie()
    }

    /// What a write of `v` to `addr` does to plain memory and SVBK, as seen
    /// from the bus before it (`prev`).
    pub open spec fn plain_written(&self, prev: &MMUInternal, addr: u16, v: u8) -> bool {
        &&& self.spec_svbk() == (if addr == SVBK_ADDR { v & 7 } else { prev.spec_svbk() })
        &&& self.spec_wram() == (if is_wram(addr) {
            prev.spec_wram().update(wram_index(addr, prev.spec_svbk()), v)
        } else {
            prev.spec_wram()
        })
        &&& self.spec_hram() == (if is_hram(addr) {
            prev.spec_hram().update(addr - 0xff80, v)
        } else {
            prev.spec_hram()
        })
        &&& self.spec_ram2() == (if is_ram2(addr) {
            prev.spec_ram2().update(addr - 0xfea0, v)
        } else {
            prev.spec_ram2()
        })
        &&& self.spec_ie() == (if addr == IE_ADDR { v } else { prev.spec_ie() })
    }

    /// Writes a byte to whatever answers `addr`, without letting time pass.
    /// Writing 0xFF50 unmaps the boot ROM; the boot ROM is read-only; the
    /// cartridge ignores accesses it has no byte for; unmapped addresses
    /// ignore writes.
    pub fn write_byte_noeffect(&mut self, addr: u16, v: u8)
        requires
            old(self).wf(),
        ensures
            final(self).wf(),
            final(self).spec_time() == old(self).spec_time(),
            final(self).spec_bios_exists() == (old(self).spec_bios_exists() && addr != BIOS_OFF_ADDR),
            final(self).spec_bios() == old(self).spec_bios(),
            final(self).spec_svbk() == (if addr == SVBK_ADDR { v & 7 } else { old(self).spec_svbk() }),
            final(self).spec_key1() == (if addr == KEY1_ADDR {
                (old(self).spec_key1() & 0xfe) | (v & 1)
            } else {
                old(self).spec_key1()
            }),
            final(self).spec_if() == (if addr == IF_ADDR { v } else { old(self).spec_if() }),
            final(self).spec_double_speed() == old(self).spec_double_speed(),
            final(self).spec_wram() == (if is_wram(addr) {
                old(self).spec_wram().update(wram_index(addr, old(self).spec_svbk()), v)
            } else {
                old(self).spec_wram()
            }),
            final(self).spec_hram() == (if is_hram(addr) {
                old(self).spec_hram().update(addr - 0xff80, v)
            } else {
                old(self).spec_hram()
            }),
            final(self).spec_ram2() == (if is_ram2(addr) {
                old(self).spec_ram2().update(addr - 0xfea0, v)
            } else {
                old(self).spec_ram2()
            }),
            final(self).spec_ie() == (if addr == IE_ADDR { v } else { old(self).spec_ie() }),
            !(old(self).routes_cart(addr) && addr != BIOS_OFF_ADDR) ==> final(self).spec_cart() == old(self).spec_cart(),
            !MMUInternal::routes_display(addr) ==> final(self).spec_display() == old(self).spec_display(),
            MMUInternal::routes_display(addr) && addr != LY_ADDR ==> final(self).spec_display().spec_mem().spec_read(addr) == v,
            MMUInternal::routes_display(addr) ==> forall|a: u16|
                display_handles(a) && a != addr && a != BGPS_ADDR && a != OBPS_ADDR && !(addr == VBK_ADDR && 0x8000 <= a <= 0x9fff)
                    ==> #[trigger] final(self).spec_display().spec_mem().spec_read(a) == old(self).spec_display().spec_mem().spec_read(a),
            !(DIV_ADDR <= addr <= TAC_ADDR) ==> final(self).spec_timer() == old(self).spec_timer(),
            addr != P1_ADDR ==> final(self).spec_controller() == old(self).spec_controller(),
            !(0xff10 <= addr <= 0xff3f) ==> final(self).spec_sound() == old(self).spec_sound(),
    {
        if addr == BIOS_OFF_ADDR {
            self.disable_bios();
            return;
        }
        if addr <= 0x00ff {
            if !self.bios_exists && self.cart.accessible(addr) {
                self.cart.write_byte(addr, v);
            }
        } else if addr <= 0x01ff {
            if self.cart.accessible(addr) {
                self.cart.write_byte(addr, v);
            }
        } else if addr <= 0x08ff {
            if !(self.bios_exists && self.bios.len() > 256) && self.cart.accessible(addr) {
                self.cart.write_byte(addr, v);
            }
        } else if addr <= 0x7fff {
            if self.cart.accessible(addr) {
                self.cart.write_byte(addr, v);
            }
        } else if addr <= 0x9fff {
            self.display.write_byte(addr, v);
        } else if addr <= 0xbfff {
            if self.cart.accessible(addr) {
                self.cart.write_byte(addr, v);
            }
        } else if addr <= 0xfdff {
            let o = self.wram_offset(addr);
            self.wram.set(o, v);
        } else if addr <= 0xfe9f {
            self.display.write_byte(addr, v);
        } else if addr <= 0xfeff {
            self.ram2.write_byte(addr, v);
        } else if (0xff40 <= addr && addr <= 0xff45) || (0xff47 <= addr && addr <= 0xff4b) || addr
            == 0xff4f || (0xff68 <= addr && addr <= 0xff6b) {
            self.display.write_byte(addr, v);
        } else if addr == P1_ADDR {
            self.controller.write_byte(addr, v);
        } else if addr == SB_ADDR || addr == 0xff02 {
            self.serial.write_byte(addr, v);
        } else if DIV_ADDR <= addr && addr <= TAC_ADDR {
            self.timer.write_byte(addr, v);
        } else if addr == IF_ADDR {
            let ghost r0 = self.interrupt_flag.raw();
            self.interrupt_flag.write_byte(addr, v);
            assert(((r0 & !0xffu8) | (v & 0xffu8)) & 0xffu8 == v) by (bit_vector);
        } else if 0xff10 <= addr && addr <= 0xff3f {
            self.sound.write_byte(addr, v);
        } else if addr == SVBK_ADDR {
            let ghost r0 = self.svbk.raw();
            self.svbk.write_byte(addr, v);
            assert(((r0 & !7u8) | (v & 7u8)) & 7u8 == v & 7) by (bit_vector);
        } else if addr == KEY1_ADDR {
            let ghost r0 = self.key1.raw();
            self.key1.write_byte(addr, v);
            assert((r0 & !1u8) | (v & 1u8) == (r0 & 0xfe) | (v & 1)) by (bit_vector);
            assert((((r0 & 0xfe) | (v & 1)) & 0x80 != 0) == (r0 & 0x80 != 0)) by (bit_vector);
        } else if addr == DMA_REG_ADDR {
            self.dma.write_byte(addr, v);
        } else if 0xff51 <= addr && addr <= 0xff55 {
            self.hdma.write_byte(addr, v);
        } else if 0xff80 <= addr && addr <= 0xfffe {
            self.hram.write_byte(addr, v);
        } else if addr == IE_ADDR {
            let ghost r0 = self.interrupt_enable.raw();
            self.interrupt_enable.write_byte(addr, v);
            assert(((r0 & !0xffu8) | (v & 0xffu8)) & 0xffu8 == v) by (bit_vector);
        } else {
            self.fake_mem.write_byte(addr, v);
        }
    }
}


/// What stepping the devices by `cycles` does to the bus, as far as the
/// timer, the joypad and IF go: the timer steps, the joypad notes the keys,
/// and the interrupts the timer, the display and the joypad raise join IF
/// (see `if_after`).
pub open spec fn synced(s0: MMUInternal, s1: MMUInternal, cycles: u64) -> bool {
    &&& s1.spec_controller().seen() == s0.spec_controller().keys()
    &&& s1.spec_controller().keys() == s0.spec_controller().keys()
    &&& exists|rt: u8|
        #[trigger] timer_stepped(s0.spec_timer(), s1.spec_timer(), cycles, rt) && s1.spec_if() == if_after(
            s0.spec_if(),
            rt | display_irq(s0.spec_display(), cycles) | joypad_irq(s0.spec_controller()),
            s1.spec_display().spec_mem().enabled(),
        )
}

/// IF after a synchronisation: the raised interrupts join it, except
/// V-blank while the LCD is off.
pub open spec fn if_after(flags: u8, ints: u8, lcd_on: bool) -> u8 {
    if lcd_on {
        flags | ints
    } else {
        (flags | ints) & 0xfe
    }
}

/// One queued byte move from `src` to `dst`: where the destination is
/// display memory it then reads the byte the source showed, the rest of
/// the display keeping its contents; elsewhere the display is untouched.
pub open spec fn copy_step(s0: MMUInternal, s1: MMUInternal, src: u16, dst: u16) -> bool {
    &&& MMUInternal::routes_display(dst) && dst != LY_ADDR ==> s1.spec_display().spec_mem().spec_read(dst) == s0.spec_peek(src)
    &&& MMUInternal::routes_display(dst) ==> forall|a: u16|
        display_handles(a) && a != dst && a != BGPS_ADDR && a != OBPS_ADDR && !(dst == VBK_ADDR && 0x8000 <= a <= 0x9fff)
            ==> #[trigger] s1.spec_display().spec_mem().spec_read(a) == s0.spec_display().spec_mem().spec_read(a)
    &&& !MMUInternal::routes_display(dst) ==> s1.spec_display() == s0.spec_display()
}

/// The moves done in order, the bus going through `states` from `s0` to
/// `s1`.
pub open spec fn copies_done(s0: MMUInternal, s1: MMUInternal, moves: Seq<(u16, u16)>, states: Seq<MMUInternal>) -> bool {
    &&& states.len() == moves.len() + 1
    &&& states[0] == s0
    &&& states[moves.len() as int] == s1
    &&& forall|k: int| 0 <= k < moves.len() ==> #[trigger] copy_step(states[k], states[k + 1], moves[k].0, moves[k].1)
}

impl MMUInternal {
    /// Carries out queued byte moves (each a read and a write on the bus)
    /// whose destinations are video memory, OAM or the cartridge window.
    #[verifier::spinoff_prover]
    fn run_copies(&mut self, moves: &Vec<(u16, u16)>)
        requires
            old(self).wf(),
            forall|i: int|
                0 <= i < moves@.len() ==> (0x8000 <= (#[trigger] moves@[i]).1 < 0xc000) || (0xfe00
                    <= moves@[i].1 < 0xfea0),
        ensures
            final(self).wf(),
            exists|states: Seq<MMUInternal>| #[trigger] copies_done(*old(self), *final(self), moves@, states),
            final(self).spec_controller() == old(self).spec_controller(),
            final(self).same_plain(old(self)),
            final(self).spec_time() == old(self).spec_time(),
            final(self).spec_svbk() == old(self).spec_svbk(),
            final(self).spec_key1() == old(self).spec_key1(),
            final(self).spec_if() == old(self).spec_if(),
            final(self).spec_bios_exists() == old(self).spec_bios_exists(),
            final(self).spec_bios() == old(self).spec_bios(),
            final(self).spec_timer() == old(self).spec_timer(),
            final(self).spec_sound() == old(self).spec_sound(),
    {
        let mut i: usize = 0;
        let ghost mut states: Seq<MMUInternal> = seq![*self];
        while i < moves.len()
            invariant
                self.wf(),
                i <= moves@.len(),
                copies_done(*old(self), *self, moves@.take(i as int), states),
                self.spec_controller() == old(self).spec_controller(),
                self.same_plain(old(self)),
                self.spec_time() == old(self).spec_time(),
                self.spec_svbk() == old(self).spec_svbk(),
                self.spec_key1() == old(self).spec_key1(),
                self.spec_if() == old(self).spec_if(),
                self.spec_bios_exists() == old(self).spec_bios_exists(),
                self.spec_bios() == old(self).spec_bios(),
                self.spec_timer() == old(self).spec_timer(),
                self.spec_sound() == old(self).spec_sound(),
                forall|k: int|
                    0 <= k < moves@.len() ==> (0x8000 <= (#[trigger] moves@[k]).1 < 0xc000) || (0xfe00
                        <= moves@[k].1 < 0xfea0),
            decreases moves@.len() - i,
        {
            let (src, dst) = moves[i];
            let ghost before = *self;
            let b = self.read_byte_noeffect(src);
            self.write_byte_noeffect(dst, b);
            proof {
                assert(copy_step(before, *self, src, dst));
                let prev = states;
                states = states.push(*self);
                assert(moves@.take(i + 1) =~= moves@.take(i as int).push(moves@[i as int]));
                assert forall|k: int| 0 <= k < i + 1 implies #[trigger] copy_step(states[k], states[k + 1], moves@.take(i + 1)[k].0, moves@.take(i + 1)[k].1) by {
                    if k < i {
                        assert(states[k] == prev[k] && states[k + 1] == prev[k + 1]);
                        assert(moves@.take(i + 1)[k] == moves@.take(i as int)[k]);
                    }
                }
            }
            i = i + 1;
        }
        assert(moves@.take(moves@.len() as int) =~= moves@);
    }

    /// Advances every device by `cycles`, runs the DMA copies that became
    /// due, and records the interrupts raised in IF (without V-blank while
    /// the LCD is off); a raised V-blank is reported in `data`.
    #[verifier::spinoff_prover]
    fn sync(&mut self, data: &mut PeripheralData, cycles: CycleCount)
        requires
            old(self).wf(),
            old(data).lcd_ok(),
            cycles <= 4,
        ensures
            final(self).wf(),
            final(data).lcd_ok(),
            final(self).same_plain(old(self)),
            final(self).spec_time() == old(self).spec_time(),
            final(self).spec_svbk() == old(self).spec_svbk(),
            final(self).spec_key1() == old(self).spec_key1(),
            final(self).spec_bios_exists() == old(self).spec_bios_exists(),
            final(self).spec_bios() == old(self).spec_bios(),
            synced(*old(self), *final(self), cycles),
    {
        let ghost t0 = self.timer;
        let ghost d0 = self.display;
        let ghost c0 = self.controller;
        let rt = self.timer.step(data, cycles);
        let rd = self.display.step(data, cycles);
        let rs = self.serial.step(data, cycles);
        let rc = self.controller.step(data, cycles);
        let rm = self.sound.step(data, cycles);
        assert(timer_stepped(t0, self.timer, cycles, rt));
        assert(rd == display_irq(d0, cycles));
        assert(rc == joypad_irq(c0));
        let ints: u8 = rt | rd | rs | rc | rm;
        proof {
            crate::bits::lemma_byte_masks();
            assert((rt | rd) | 0u8 == rt | rd);
            assert(((rt | rd) | rc) | 0u8 == (rt | rd) | rc);
        }
        assert(ints == rt | rd | rc);
        if self.dma.is_active() {
            self.dma.step(data, cycles);
            let moves = self.dma.copy_bytes();
            self.run_copies(&moves);
        }
        if self.hdma.is_active() {
            self.hdma.step(data, cycles);
            let moves = self.hdma.copy_bytes();
            self.run_copies(&moves);
        }
        let flags = self.interrupt_flag.reg();
        let mut rhs = flags | ints;
        if !self.display.display_enabled() {
            rhs = rhs & 0xfe;
        }
        if rhs != flags {
            let ghost r0 = self.interrupt_flag.raw();
            self.interrupt_flag.set_reg(rhs);
            proof {
                crate::bits::lemma_byte_masks();
                assert((((r0 & !0xffu8) | (rhs & 0xffu8)) & 0xffu8) == rhs);
            }
        }
        assert(self.spec_if() == if_after(old(self).spec_if(), ints, self.spec_display().spec_mem().enabled()));
        assert(timer_stepped(old(self).spec_timer(), self.spec_timer(), cycles, rt));
        if ints & 1 != 0 {
            data.vblank = true;
        }
    }

    /// Lets `n` machine cycles pass (one cycle unit each at double speed,
    /// two otherwise) and advances the devices.
    #[verifier::spinoff_prover]
    pub fn cycles_passed(&mut self, data: &mut PeripheralData, n: u64)
        requires
            old(self).wf(),
            old(data).lcd_ok(),
            n <= 2,
            old(self).spec_time() <= u64::MAX - 4,
        ensures
            final(self).wf(),
            final(data).lcd_ok(),
            final(self).spec_time() == old(self).spec_time() + n * old(self).spec_mult(),
            final(self).same_plain(old(self)),
            final(self).spec_svbk() == old(self).spec_svbk(),
            final(self).spec_key1() == old(self).spec_key1(),
            final(self).spec_bios_exists() == old(self).spec_bios_exists(),
            final(self).spec_bios() == old(self).spec_bios(),
    {
        let mult = if self.double_speed() { CGB } else { GB };
        let t = n * mult;
        self.time = self.time + t;
        self.sync(data, t);
    }

    /// Lets one machine cycle pass, then reads.
    pub fn read_byte(&mut self, data: &mut PeripheralData, addr: u16) -> (r: u8)
        requires
            old(self).wf(),
            old(data).lcd_ok(),
            old(self).spec_time() <= u64::MAX - 4,
        ensures
            final(self).wf(),
            final(data).lcd_ok(),
            r == final(self).spec_peek(addr),
            final(self).spec_time() == old(self).spec_time() + old(self).spec_mult(),
            final(self).same_plain(old(self)),
            final(self).spec_svbk() == old(self).spec_svbk(),
            final(self).spec_key1() == old(self).spec_key1(),
            final(self).spec_bios_exists() == old(self).spec_bios_exists(),
            final(self).spec_bios() == old(self).spec_bios(),
    {
        self.cycles_passed(data, 1);
        self.read_byte_noeffect(addr)
    }

    /// Lets one machine cycle pass, then writes.
    pub fn write_byte(&mut self, data: &mut PeripheralData, addr: u16, v: u8)
        requires
            old(self).wf(),
            old(data).lcd_ok(),
            old(self).spec_time() <= u64::MAX - 4,
        ensures
            final(self).wf(),
            final(data).lcd_ok(),
            final(self).spec_time() == old(self).spec_time() + old(self).spec_mult(),
            final(self).spec_bios_exists() == (old(self).spec_bios_exists() && addr != BIOS_OFF_ADDR),
            final(self).spec_svbk() == (if addr == SVBK_ADDR { v & 7 } else { old(self).spec_svbk() }),
            final(self).spec_key1() == (if addr == KEY1_ADDR {
                (old(self).spec_key1() & 0xfe) | (v & 1)
            } else {
                old(self).spec_key1()
            }),
            final(self).spec_wram() == (if is_wram(addr) {
                old(self).spec_wram().update(wram_index(addr, old(self).spec_svbk()), v)
            } else {
                old(self).spec_wram()
            }),
            final(self).spec_hram() == (if is_hram(addr) {
                old(self).spec_hram().update(addr - 0xff80, v)
            } else {
                old(self).spec_hram()
            }),
            final(self).spec_ram2() == (if is_ram2(addr) {
                old(self).spec_ram2().update(addr - 0xfea0, v)
            } else {
                old(self).spec_ram2()
            }),
            final(self).spec_ie() == (if addr == IE_ADDR { v } else { old(self).spec_ie() }),
            addr == IF_ADDR ==> final(self).spec_if() == v,
            final(self).spec_double_speed() == old(self).spec_double_speed(),
    {
        self.cycles_passed(data, 1);
        self.write_byte_noeffect(addr, v);
    }

    /// Advances the devices by the cycles not yet seen (none: the bus keeps
    /// them up to date), so that a forced synchronisation steps them once.
    pub fn sync_peripherals(&mut self, data: &mut PeripheralData, force: bool)
        requires
            old(self).wf(),
            old(data).lcd_ok(),
        ensures
            final(self).wf(),
            final(data).lcd_ok(),
            !force ==> *final(self) == *old(self) && *final(data) == *old(data),
            force ==> synced(*old(self), *final(self), 0),
            final(self).same_plain(old(self)),
            final(self).spec_time() == old(self).spec_time(),
            final(self).spec_svbk() == old(self).spec_svbk(),
            final(self).spec_key1() == old(self).spec_key1(),
            final(self).spec_bios_exists() == old(self).spec_bios_exists(),
    {
        if force {
            self.sync(data, 0);
        }
    }

    /// Sets the pressed keys (a mask of `GBControl` bits, set = released).
    pub fn set_controls(&mut self, controls: u8)
        requires
            old(self).wf(),
        ensures
            final(self).wf(),
            final(self).spec_controller().keys() == controls,
            final(self).spec_controller().spec_p1() == old(self).spec_controller().spec_p1(),
            final(self).spec_controller().seen() == old(self).spec_controller().seen(),
            final(self).spec_display() == old(self).spec_display(),
            final(self).spec_timer() == old(self).spec_timer(),
            final(self).spec_sound() == old(self).spec_sound(),
            final(self).spec_cart() == old(self).spec_cart(),
            final(self).spec_if() == old(self).spec_if(),
            final(self).same_plain(old(self)),
            final(self).spec_time() == old(self).spec_time(),
            final(self).spec_svbk() == old(self).spec_svbk(),
            final(self).spec_key1() == old(self).spec_key1(),
            final(self).spec_bios_exists() == old(self).spec_bios_exists(),
    {
        self.controller.set_controls(controls);
    }

    /// Picks the colours a monochrome game is shown in (see
    /// `Display::init`).
    pub fn init_display(&mut self, checksum: u8, dis: u8, key_palette: Option<usize>)
        requires
            old(self).wf(),
        ensures
            final(self).wf(),
            palette_loaded(final(self).spec_display(), chosen_palette(checksum, dis, key_palette)),
            final(self).same_plain(old(self)),
            final(self).spec_time() == old(self).spec_time(),
            final(self).spec_svbk() == old(self).spec_svbk(),
            final(self).spec_key1() == old(self).spec_key1(),
            final(self).spec_bios_exists() == old(self).spec_bios_exists(),
    {
        self.display.init(checksum, dis, key_palette);
    }

    /// Performs a requested speed switch: clears the request bit and flips
    /// the current speed (bit 7 of KEY1).
    pub fn toggle_speed(&mut self, data: &mut PeripheralData)
        requires
            old(self).wf(),
            old(data).lcd_ok(),
        ensures
            final(self).wf(),
            final(data).lcd_ok(),
            final(self).spec_key1() == (old(self).spec_key1() & 0xfe) ^ 0x80,
            final(self).same_plain(old(self)),
            final(self).spec_time() == old(self).spec_time(),
            final(self).spec_svbk() == old(self).spec_svbk(),
            final(self).spec_bios_exists() == old(self).spec_bios_exists(),
    {
        let k = self.key1.raw_reg();
        self.key1.force_reg((k & 0xfe) ^ 0x80);
        self.timer.step(data, 0);
    }
}


/// The bus together with what the devices hand to the outside (frame
/// buffer, serial output, sound samples, the V-blank signal), as the CPU
/// sees it.
pub struct MMU {
    bus: MMUInternal,
    data: PeripheralData,
}

impl MMU {
    pub closed spec fn spec_bus(&self) -> MMUInternal {
        self.bus
    }

    pub closed spec fn spec_data(&self) -> PeripheralData {
        self.data
    }

    /// The bus is well formed and any frame buffer has a whole screen.
    pub open spec fn wf(&self) -> bool {
        self.spec_bus().wf() && self.spec_data().lcd_ok()
    }

    pub fn new(bus: MMUInternal, data: PeripheralData) -> (r: MMU)
        ensures
            r.spec_bus() == bus,
            r.spec_data() == data,
    {
        MMU { bus, data }
    }

    /// Hands back the bus and the device outputs.
    pub fn into_parts(self) -> (r: (MMUInternal, PeripheralData))
        ensures
            r.0 == self.spec_bus(),
            r.1 == self.spec_data(),
    {
        (self.bus, self.data)
    }

    pub fn time(&self) -> (r: CycleCount)
        ensures
            r == self.spec_bus().spec_time(),
    {
        self.bus.time()
    }

    /// Whether a speed switch has been requested (KEY1 bit 0).
    pub fn speed_change(&self) -> (r: bool)
        ensures
            r == (self.spec_bus().spec_key1() & 1 != 0),
    {
        self.bus.speed_change()
    }

    pub fn disable_bios(&mut self)
        ensures
            final(self).spec_bus() == old(self).spec_bus().without_bios(),
            final(self).spec_data() == old(self).spec_data(),
            final(self).wf() == old(self).wf(),
            !final(self).spec_bus().spec_bios_exists(),
            final(self).spec_bus().same_plain(&old(self).spec_bus()),
            final(self).spec_bus().spec_time() == old(self).spec_bus().spec_time(),
            final(self).spec_bus().spec_svbk() == old(self).spec_bus().spec_svbk(),
            final(self).spec_bus().spec_key1() == old(self).spec_bus().spec_key1(),
    {
        self.bus.disable_bios();
    }

    pub fn cycles_passed(&mut self, n: u64)
        requires
            old(self).wf(),
            n <= 2,
            old(self).spec_bus().spec_time() <= u64::MAX - 4,
        ensures
            final(self).wf(),
            final(self).spec_bus().spec_time() == old(self).spec_bus().spec_time() + n * old(self).spec_bus().spec_mult(),
            final(self).spec_bus().same_plain(&old(self).spec_bus()),
            final(self).spec_bus().spec_svbk() == old(self).spec_bus().spec_svbk(),
            final(self).spec_bus().spec_key1() == old(self).spec_bus().spec_key1(),
            final(self).spec_bus().spec_bios_exists() == old(self).spec_bus().spec_bios_exists(),
    {
        self.bus.cycles_passed(&mut self.data, n);
    }

    pub fn read_byte(&mut self, addr: u16) -> (r: u8)
        requires
            old(self).wf(),
            old(self).spec_bus().spec_time() <= u64::MAX - 4,
        ensures
            final(self).wf(),
            r == final(self).spec_bus().spec_peek(addr),
            final(self).spec_bus().spec_time() == old(self).spec_bus().spec_time() + old(self).spec_bus().spec_mult(),
            final(self).spec_bus().same_plain(&old(self).spec_bus()),
            final(self).spec_bus().spec_svbk() == old(self).spec_bus().spec_svbk(),
            final(self).spec_bus().spec_key1() == old(self).spec_bus().spec_key1(),
            final(self).spec_bus().spec_bios_exists() == old(self).spec_bus().spec_bios_exists(),
    {
        self.bus.read_byte(&mut self.data, addr)
    }

    pub fn write_byte(&mut self, addr: u16, v: u8)
        requires
            old(self).wf(),
            old(self).spec_bus().spec_time() <= u64::MAX - 4,
        ensures
            final(self).wf(),
            final(self).spec_bus().plain_written(&old(self).spec_bus(), addr, v),
            final(self).spec_bus().spec_time() == old(self).spec_bus().spec_time() + old(self).spec_bus().spec_mult(),
            final(self).spec_bus().spec_bios_exists() == (old(self).spec_bus().spec_bios_exists() && addr != BIOS_OFF_ADDR),
            final(self).spec_bus().spec_svbk() == (if addr == SVBK_ADDR { v & 7 } else { old(self).spec_bus().spec_svbk() }),
            final(self).spec_bus().spec_key1() == (if addr == KEY1_ADDR {
                (old(self).spec_bus().spec_key1() & 0xfe) | (v & 1)
            } else {
                old(self).spec_bus().spec_key1()
            }),
            final(self).spec_bus().spec_wram() == (if is_wram(addr) {
                old(self).spec_bus().spec_wram().update(wram_index(addr, old(self).spec_bus().spec_svbk()), v)
            } else {
                old(self).spec_bus().spec_wram()
            }),
            final(self).spec_bus().spec_hram() == (if is_hram(addr) {
                old(self).spec_bus().spec_hram().update(addr - 0xff80, v)
            } else {
                old(self).spec_bus().spec_hram()
            }),
            final(self).spec_bus().spec_ram2() == (if is_ram2(addr) {
                old(self).spec_bus().spec_ram2().update(addr - 0xfea0, v)
            } else {
                old(self).spec_bus().spec_ram2()
            }),
            final(self).spec_bus().spec_ie() == (if addr == IE_ADDR { v } else { old(self).spec_bus().spec_ie() }),
            addr == IF_ADDR ==> final(self).spec_bus().spec_if() == v,
            final(self).spec_bus().spec_double_speed() == old(self).spec_bus().spec_double_speed(),
    {
        self.bus.write_byte(&mut self.data, addr, v);
    }

    /// Reads without letting time pass.
    pub fn read_byte_noeffect(&mut self, addr: u16) -> (r: u8)
        requires
            old(self).wf(),
        ensures
            r == old(self).spec_bus().spec_peek(addr),
            *final(self) == *old(self),
    {
        self.bus.read_byte_noeffect(addr)
    }

    /// Writes without letting time pass.
    pub fn write_byte_noeffect(&mut self, addr: u16, v: u8)
        requires
            old(self).wf(),
        ensures
            final(self).wf(),
            final(self).spec_data() == old(self).spec_data(),
            final(self).spec_bus().plain_written(&old(self).spec_bus(), addr, v),
            final(self).spec_bus().spec_time() == old(self).spec_bus().spec_time(),
            final(self).spec_bus().spec_bios_exists() == (old(self).spec_bus().spec_bios_exists() && addr != BIOS_OFF_ADDR),
            final(self).spec_bus().spec_svbk() == (if addr == SVBK_ADDR { v & 7 } else { old(self).spec_bus().spec_svbk() }),
            final(self).spec_bus().spec_key1() == (if addr == KEY1_ADDR {
                (old(self).spec_bus().spec_key1() & 0xfe) | (v & 1)
            } else {
                old(self).spec_bus().spec_key1()
            }),
            final(self).spec_bus().spec_if() == (if addr == IF_ADDR { v } else { old(self).spec_bus().spec_if() }),
            final(self).spec_bus().spec_wram() == (if is_wram(addr) {
                old(self).spec_bus().spec_wram().update(wram_index(addr, old(self).spec_bus().spec_svbk()), v)
            } else {
                old(self).spec_bus().spec_wram()
            }),
            final(self).spec_bus().spec_hram() == (if is_hram(addr) {
                old(self).spec_bus().spec_hram().update(addr - 0xff80, v)
            } else {
                old(self).spec_bus().spec_hram()
            }),
            final(self).spec_bus().spec_ram2() == (if is_ram2(addr) {
                old(self).spec_bus().spec_ram2().update(addr - 0xfea0, v)
            } else {
                old(self).spec_bus().spec_ram2()
            }),
            final(self).spec_bus().spec_ie() == (if addr == IE_ADDR { v } else { old(self).spec_bus().spec_ie() }),
            final(self).spec_bus().spec_double_speed() == old(self).spec_bus().spec_double_speed(),
    {
        self.bus.write_byte_noeffect(addr, v);
    }

    /// Moves the bus's seek position (see `MMUInternal::seek`).
    pub fn seek(&mut self, pos: SeekFrom) -> (r: Result<u64, SeekError>)
        ensures
            final(self).spec_data() == old(self).spec_data(),
            ({
                let target = match pos {
                    SeekFrom::Start(x) => Some(if x > 0xffff { 0xffffu16 } else { x as u16 }),
                    SeekFrom::End(x) => spec_apply_offset(0xffff, x),
                    SeekFrom::Current(x) => spec_apply_offset(old(self).spec_bus().spec_seek_pos(), x),
                };
                match target {
                    Some(p) => r == Ok::<u64, SeekError>(p as u64) && final(self).spec_bus() == old(self).spec_bus().with_seek_pos(p),
                    None => r == Err::<u64, SeekError>(SeekError::BeforeStart) && final(self).spec_bus() == old(self).spec_bus(),
                }
            }),
    {
        self.bus.seek(pos)
    }

    pub fn toggle_speed(&mut self)
        requires
            old(self).wf(),
        ensures
            final(self).wf(),
            final(self).spec_bus().spec_key1() == (old(self).spec_bus().spec_key1() & 0xfe) ^ 0x80,
            final(self).spec_bus().same_plain(&old(self).spec_bus()),
            final(self).spec_bus().spec_time() == old(self).spec_bus().spec_time(),
            final(self).spec_bus().spec_svbk() == old(self).spec_bus().spec_svbk(),
            final(self).spec_bus().spec_bios_exists() == old(self).spec_bus().spec_bios_exists(),
    {
        self.bus.toggle_speed(&mut self.data);
    }

    pub fn sync_peripherals(&mut self, force: bool)
        requires
            old(self).wf(),
        ensures
            final(self).wf(),
            !force ==> *final(self) == *old(self),
            force ==> synced(old(self).spec_bus(), final(self).spec_bus(), 0),
            final(self).spec_bus().same_plain(&old(self).spec_bus()),
            final(self).spec_bus().spec_time() == old(self).spec_bus().spec_time(),
            final(self).spec_bus().spec_svbk() == old(self).spec_bus().spec_svbk(),
            final(self).spec_bus().spec_key1() == old(self).spec_bus().spec_key1(),
            final(self).spec_bus().spec_bios_exists() == old(self).spec_bus().spec_bios_exists(),
    {
        self.bus.sync_peripherals(&mut self.data, force);
    }

    /// Exchanges the device outputs the bus writes into with `data`.
    pub fn swap_data(&mut self, data: &mut PeripheralData)
        ensures
            final(self).spec_bus() == old(self).spec_bus(),
            final(self).spec_data() == *old(data),
            *final(data) == old(self).spec_data(),
    {
        std::mem::swap(&mut self.data, data);
    }

    pub fn set_controls(&mut self, controls: u8)
        requires
            old(self).wf(),
        ensures
            final(self).wf(),
            final(self).spec_bus().spec_controller().keys() == controls,
            final(self).spec_bus().spec_controller().spec_p1() == old(self).spec_bus().spec_controller().spec_p1(),
            final(self).spec_bus().spec_controller().seen() == old(self).spec_bus().spec_controller().seen(),
            final(self).spec_bus().spec_display() == old(self).spec_bus().spec_display(),
            final(self).spec_bus().spec_timer() == old(self).spec_bus().spec_timer(),
            final(self).spec_bus().spec_sound() == old(self).spec_bus().spec_sound(),
            final(self).spec_bus().spec_cart() == old(self).spec_bus().spec_cart(),
            final(self).spec_bus().spec_if() == old(self).spec_bus().spec_if(),
            final(self).spec_data() == old(self).spec_data(),
            final(self).spec_bus().same_plain(&old(self).spec_bus()),
            final(self).spec_bus().spec_time() == old(self).spec_bus().spec_time(),
            final(self).spec_bus().spec_svbk() == old(self).spec_bus().spec_svbk(),
            final(self).spec_bus().spec_key1() == old(self).spec_bus().spec_key1(),
            final(self).spec_bus().spec_bios_exists() == old(self).spec_bus().spec_bios_exists(),
    {
        self.bus.set_controls(controls);
    }

    pub fn init_display(&mut self, checksum: u8, dis: u8, key_palette: Option<usize>)
        requires
            old(self).wf(),
        ensures
            final(self).wf(),
            palette_loaded(final(self).spec_bus().spec_display(), chosen_palette(checksum, dis, key_palette)),
            final(self).spec_data() == old(self).spec_data(),
            final(self).spec_bus().same_plain(&old(self).spec_bus()),
            final(self).spec_bus().spec_time() == old(self).spec_bus().spec_time(),
            final(self).spec_bus().spec_svbk() == old(self).spec_bus().spec_svbk(),
            final(self).spec_bus().spec_key1() == old(self).spec_bus().spec_key1(),
            final(self).spec_bus().spec_bios_exists() == old(self).spec_bus().spec_bios_exists(),
    {
        self.bus.init_display(checksum, dis, key_palette);
    }

    /// Reports whether a V-blank happened since the last call, and forgets
    /// it.
    pub fn ack_vblank(&mut self) -> (r: bool)
        ensures
            r == old(self).spec_data().vblank,
            !final(self).spec_data().vblank,
            final(self).spec_bus() == old(self).spec_bus(),
            final(self).spec_data().lcd_view() == old(self).spec_data().lcd_view(),
            final(self).spec_data().lcd_ok() == old(self).spec_data().lcd_ok(),
    {
        let r = self.data.vblank;
        self.data.vblank = false;
        r
    }
}

} // verus!
