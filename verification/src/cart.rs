//! The cartridge: the ROM image, its RAM, and the memory bank controller
//! (MBC1, MBC3 with its real-time clock, MBC5) that maps them into the
//! address space.
use crate::cycles::{CycleCount, SECOND};
use crate::peripherals::{Addressable, Peripheral, PeripheralData};
use vstd::prelude::*;

verus! {

/// What the header says about Game Boy Color support.
#[derive(Copy, Clone, Debug, PartialEq, Eq, Structural)]
pub enum CGBStatus {
    GB,
    SupportsCGB,
    CGBOnly,
}

/// The memory bank controllers that cartridge headers name.
#[derive(Debug, Clone, Copy, PartialEq, Eq, Structural)]
pub enum MBCType {
    MBC1,
    MBC2,
    MBC3,
    MBC5,
    MBC6,
    MBC7,
    MMM01,
}

#[derive(Debug, Clone, Copy, PartialEq, Eq, Structural)]
enum BankMode {
    ROM,
    RAM,
}

/// The cartridge's memory and the bank registers shared by every MBC.
struct CartPhysical {
    ram: Vec<u8>,
    rom: Vec<u8>,
    rom_reg: usize,
    ram_reg: usize,
    bank_mode: BankMode,
    ram_enable: bool,
}

/// The offset into RAM that `addr` (in 0xA000..0xC000) selects, if RAM is
/// enabled: the address itself in ROM banking mode, the banked address
/// (wrapped to the RAM size) in RAM banking mode.
spec fn spec_ram_offset(p: CartPhysical, addr: u16) -> Option<int> {
    if !p.ram_enable {
        None
    } else if p.bank_mode == BankMode::ROM {
        Some(addr - 0xA000)
    } else {
        Some((((addr - 0xA000 + p.ram_reg * 8192) as usize) & ((p.ram@.len() - 1) as usize)) as int)
    }
}

/// The bank mapped at `base` (0x0000 or 0x4000).
spec fn spec_rom_bank(p: CartPhysical, base: u16) -> int {
    if base == 0 {
        if p.bank_mode == BankMode::RAM {
            (p.ram_reg * 32) as int
        } else {
            0
        }
    } else {
        if p.bank_mode == BankMode::RAM {
            let low = (p.rom_reg as usize & 0x1f) as int;
            ((p.ram_reg * 32) as usize | (if low == 0 { 1 } else { low }) as usize) as int
        } else {
            p.rom_reg as int
        }
    }
}

/// The offset into ROM that `addr` selects in the window at `base`,
/// wrapped to the ROM size.
spec fn spec_rom_offset(p: CartPhysical, base: u16, addr: u16) -> int {
    (((addr - base + spec_rom_bank(p, base) * 16384) as usize) & ((p.rom@.len() - 1) as usize)) as int
}

impl CartPhysical {
    /// The memory sizes and bank registers are in range.
    spec fn regs_ok(&self) -> bool {
        &&& self.rom@.len() <= usize::MAX
        &&& self.ram@.len() <= usize::MAX
        &&& self.rom_reg < 0x1_0000
        &&& self.ram_reg < 0x100
    }

    spec fn wf(&self) -> bool {
        &&& self.rom@.len() > 0
        &&& self.rom@.len() <= usize::MAX
        &&& self.ram@.len() <= usize::MAX
        &&& self.rom_reg < 0x1_0000
        &&& self.ram_reg < 0x100
    }

    fn new(ram: Vec<u8>, rom: Vec<u8>) -> (r: CartPhysical)
        ensures
            r.ram@ == ram@,
            r.rom@ == rom@,
            r.ram_reg == 0,
            r.rom_reg == 1,
            r.bank_mode == BankMode::ROM,
            !r.ram_enable,
    {
        CartPhysical { ram, rom, ram_reg: 0, rom_reg: 1, bank_mode: BankMode::ROM, ram_enable: false }
    }

    fn ram_offset(&self, addr: u16) -> (r: Option<usize>)
        requires
            0xA000 <= addr < 0xC000,
            self.wf(),
            self.ram_enable && self.bank_mode == BankMode::RAM ==> self.ram@.len() > 0,
        ensures
            r is Some <==> spec_ram_offset(*self, addr) is Some,
            r is Some ==> r->0 as int == spec_ram_offset(*self, addr)->0,
    {
        if !self.ram_enable {
            None
        } else if self.bank_mode == BankMode::ROM {
            Some(addr as usize - 0xA000)
        } else {
            Some((addr as usize - 0xA000 + self.ram_reg * 8192) & (self.ram.len() - 1))
        }
    }

    fn rom_offset(&self, base: u16, addr: u16) -> (r: usize)
        requires
            base == 0 || base == 0x4000,
            base <= addr < base + 0x4000,
            self.wf(),
        ensures
            r == spec_rom_offset(*self, base, addr),
            r < self.rom@.len(),
    {
        let bank: usize = if base == 0 {
            if self.bank_mode == BankMode::RAM {
                self.ram_reg * 32
            } else {
                0
            }
        } else {
            if self.bank_mode == BankMode::RAM {
                let rr = self.rom_reg;
                let mut rhs = rr & 0x1f;
                assert(rr & 0x1f <= 0x1f) by {
            crate::bits::lemma_byte_masks();
        }
                if rhs == 0 {
                    rhs = rhs + 1;
                }
                let hi = self.ram_reg * 32;
                assert(hi | rhs <= 0xffff) by (bit_vector)
                    requires
                        hi < 0x2000,
                        rhs <= 0x1f,
                ;
                hi | rhs
            } else {
                self.rom_reg
            }
        };
        let len = self.rom.len();
        let m = len - 1;
        let off = addr as usize - base as usize + bank * 16384;
        let r = off & m;
        assert(r <= m) by (bit_vector)
            requires
                r == off & m,
        ;
        r
    }

    /// Reads ROM at an offset returned by `rom_offset`.
    fn rom_at(&self, o: usize) -> (r: u8)
        requires
            o < self.rom@.len(),
        ensures
            r == self.rom@[o as int],
    {
        self.rom[o]
    }
}

/// Whether a RAM access at `addr` (in the RAM window) stays inside the
/// cartridge RAM.
fn ram_access_check(p: &CartPhysical, addr: u16) -> (r: bool)
    requires
        p.wf(),
        0xA000 <= addr < 0xC000,
    ensures
        r == ram_access_ok(*p, addr),
{
    if !p.ram_enable {
        true
    } else if p.bank_mode == BankMode::ROM {
        ((addr - 0xA000) as usize) < p.ram.len()
    } else if p.ram.len() == 0 {
        false
    } else {
        let o = p.ram_offset(addr);
        match o {
            Some(o) => o < p.ram.len(),
            None => true,
        }
    }
}

/// Whether a RAM access at `addr` stays inside the cartridge RAM.
spec fn ram_access_ok(p: CartPhysical, addr: u16) -> bool {
    match spec_ram_offset(p, addr) {
        None => true,
        Some(o) => (p.bank_mode == BankMode::RAM ==> p.ram@.len() > 0) && 0 <= o < p.ram@.len(),
    }
}

/// What a read in the ROM windows or the RAM window returns.
spec fn spec_phys_read(p: CartPhysical, addr: u16) -> u8 {
    if addr < 0x4000 {
        p.rom@[spec_rom_offset(p, 0, addr)]
    } else if addr < 0x8000 {
        p.rom@[spec_rom_offset(p, 0x4000, addr)]
    } else {
        match spec_ram_offset(p, addr) {
            Some(o) => p.ram@[o],
            None => 0xff,
        }
    }
}

/// The RAM after a write at `addr` in the RAM window.
spec fn spec_ram_write(p: CartPhysical, addr: u16, v: u8) -> Seq<u8> {
    match spec_ram_offset(p, addr) {
        Some(o) => p.ram@.update(o, v),
        None => p.ram@,
    }
}

struct CartMBC1 {
    cart: CartPhysical,
}

/// The cartridge's real-time clock (MBC3).
#[derive(Clone, Copy)]
struct RTC {
    microseconds: u64,
    seconds: u8,
    minutes: u8,
    hours: u8,
    days: u16,
    halt: bool,
}

/// The clock registers that RAM bank numbers 8..=0xC select.
#[derive(Clone, Copy, PartialEq, Eq, Structural)]
enum RTCMode {
    Seconds,
    Minutes,
    Hours,
    DayLow,
    DayHigh,
}

spec fn spec_rtc_read(r: RTC, mode: RTCMode) -> u8 {
    match mode {
        RTCMode::Seconds => r.seconds,
        RTCMode::Minutes => r.minutes,
        RTCMode::Hours => r.hours,
        RTCMode::DayLow => (r.days % 256) as u8,
        RTCMode::DayHigh => ((r.days / 256) as u8 & 0b1) | ((if r.halt { 1u8 } else { 0u8 }) << 6u8)
            | ((r.days & 0x80) as u8),
    }
}

impl RTC {
    fn new() -> (r: RTC)
        ensures
            r.microseconds == 0 && r.seconds == 0 && r.minutes == 0 && r.hours == 0 && r.days
                == 0 && !r.halt,
    {
        RTC { microseconds: 0, seconds: 0, minutes: 0, hours: 0, days: 0, halt: false }
    }

    /// Advances the clock unless halted. Whole seconds carry into minutes,
    /// minutes into hours (the hour count itself is not wrapped), and every
    /// 24 hours of the count into days (wrapping at 2048).
    fn step(&mut self, time: CycleCount)
        requires
            old(self).microseconds < 1_000_000,
            old(self).seconds < 60,
            old(self).minutes < 60,
            old(self).hours <= 200,
            old(self).days < 2048,
            time <= 1_000_000,
        ensures
            old(self).halt ==> *final(self) == *old(self),
            !old(self).halt ==> final(self).microseconds == (old(self).microseconds + time / 2)
                % 1_000_000 || final(self).microseconds == old(self).microseconds + time / 2,
    {
        if !self.halt {
            self.microseconds = self.microseconds + time / (SECOND / 1_000_000);
            if self.microseconds >= 1_000_000 {
                let seconds = self.microseconds / 1_000_000;
                assert(seconds <= 1);
                self.microseconds = self.microseconds % 1_000_000;
                self.seconds = self.seconds + seconds as u8;
                let minutes = self.seconds / 60;
                self.seconds = self.seconds % 60;
                self.minutes = self.minutes + minutes;
                let hours = self.minutes / 60;
                self.hours = self.hours + hours;
                self.minutes = self.minutes % 60;
                let days = self.hours / 24;
                self.days = self.days + days as u16;
                self.days = self.days % 2048;
            }
        }
    }

    fn rtc_read(&self, mode: RTCMode) -> (r: u8)
        ensures
            r == spec_rtc_read(*self, mode),
    {
        match mode {
            RTCMode::Seconds => self.seconds,
            RTCMode::Minutes => self.minutes,
            RTCMode::Hours => self.hours,
            RTCMode::DayLow => (self.days % 256) as u8,
            RTCMode::DayHigh => ((self.days / 256) as u8 & 0b1) | ((if self.halt {
                1u8
            } else {
                0u8
            }) << 6u8) | ((self.days & 0x80) as u8),
        }
    }

    /// Seconds and minutes wrap at 60 and hours at 24; DayHigh sets the two
    /// low bits of the ninth-bit group and the halt flag (bit 6).
    fn rtc_write(&mut self, mode: RTCMode, v: u8)
        ensures
            mode == RTCMode::Seconds ==> *final(self) == (RTC { seconds: v % 60, ..*old(self) }),
            mode == RTCMode::Minutes ==> *final(self) == (RTC { minutes: v % 60, ..*old(self) }),
            mode == RTCMode::Hours ==> *final(self) == (RTC { hours: v % 24, ..*old(self) }),
            mode == RTCMode::DayLow ==> *final(self) == (RTC {
                days: (old(self).days & !0xffu16) | v as u16,
                ..*old(self)
            }),
            mode == RTCMode::DayHigh ==> *final(self) == (RTC {
                days: (old(self).days & 0xff) | (v as u16 & 2) | (v as u16 & 1),
                halt: v & 0x40 != 0,
                ..*old(self)
            }),
    {
        match mode {
            RTCMode::Seconds => self.seconds = v % 60,
            RTCMode::Minutes => self.minutes = v % 60,
            RTCMode::Hours => self.hours = v % 24,
            RTCMode::DayLow => self.days = (self.days & !0xffu16) | v as u16,
            RTCMode::DayHigh => {
                self.days = (self.days & 0xff) | (v as u16 & 2) | (v as u16 & 1);
                self.halt = v & 0x40 != 0;
            },
        }
    }
}

struct CartMBC3 {
    cart: CartPhysical,
    rtc: RTC,
    rtc_latch: Option<RTC>,
}

spec fn spec_rtc_select(ram_reg: usize) -> Option<RTCMode> {
    if ram_reg == 0x08 {
        Some(RTCMode::Seconds)
    } else if ram_reg == 0x09 {
        Some(RTCMode::Minutes)
    } else if ram_reg == 0x0A {
        Some(RTCMode::Hours)
    } else if ram_reg == 0x0B {
        Some(RTCMode::DayLow)
    } else if ram_reg == 0x0C {
        Some(RTCMode::DayHigh)
    } else {
        None
    }
}

impl CartMBC3 {
    fn rtc_select(&self) -> (r: Option<RTCMode>)
        ensures
            r == spec_rtc_select(self.cart.ram_reg),
    {
        let reg = self.cart.ram_reg;
        if reg == 0x08 {
            Some(RTCMode::Seconds)
        } else if reg == 0x09 {
            Some(RTCMode::Minutes)
        } else if reg == 0x0A {
            Some(RTCMode::Hours)
        } else if reg == 0x0B {
            Some(RTCMode::DayLow)
        } else if reg == 0x0C {
            Some(RTCMode::DayHigh)
        } else {
            None
        }
    }
}

struct CartMBC5 {
    cart: CartPhysical,
}

/// The bank controller in the cartridge.
enum MBC {
    MBC1(CartMBC1),
    MBC3(CartMBC3),
    MBC5(CartMBC5),
}

impl MBC {
    spec fn phys(&self) -> CartPhysical {
        match self {
            MBC::MBC1(c) => c.cart,
            MBC::MBC3(c) => c.cart,
            MBC::MBC5(c) => c.cart,
        }
    }

    spec fn with_phys(self, p: CartPhysical) -> MBC {
        match self {
            MBC::MBC1(c) => MBC::MBC1(CartMBC1 { cart: p }),
            MBC::MBC3(c) => MBC::MBC3(CartMBC3 { cart: p, ..c }),
            MBC::MBC5(c) => MBC::MBC5(CartMBC5 { cart: p }),
        }
    }
}

pub struct Cart {
    mbc: Option<MBCType>,
    battery: bool,
    title: Vec<u8>,
    cgb: CGBStatus,
    cart: MBC,
}

/// The MBC type that header byte 0x147 names.
spec fn spec_mbc_type(b: u8) -> Option<Option<MBCType>> {
    if b == 0x00 {
        Some(None)
    } else if 0x01 <= b <= 0x03 {
        Some(Some(MBCType::MBC1))
    } else if 0x05 <= b <= 0x06 {
        Some(Some(MBCType::MBC2))
    } else if 0x08 <= b <= 0x09 {
        Some(None)
    } else if 0x0B <= b <= 0x0D {
        Some(Some(MBCType::MMM01))
    } else if 0x0F <= b <= 0x13 {
        Some(Some(MBCType::MBC3))
    } else if 0x19 <= b <= 0x1E {
        Some(Some(MBCType::MBC5))
    } else if b == 0x20 {
        Some(Some(MBCType::MBC6))
    } else if b == 0x22 {
        Some(Some(MBCType::MBC7))
    } else {
        None
    }
}

/// The RAM size that header byte 0x149 names, if it is a known code.
pub open spec fn spec_ram_size(b: u8) -> Option<nat> {
    if b == 0 {
        Some(0)
    } else if b == 1 {
        Some(2048)
    } else if b == 2 {
        Some(8192)
    } else if b == 3 {
        Some(32768)
    } else if b == 4 {
        Some(131072)
    } else if b == 5 {
        Some(65536)
    } else {
        None
    }
}

/// Cartridge types (header byte 0x147) this emulator runs: no MBC, MBC1,
/// MBC3 and MBC5.
pub open spec fn supported_cart_type(b: u8) -> bool {
    b == 0x00 || (0x01 <= b <= 0x03) || (0x08 <= b <= 0x09) || (0x0F <= b <= 0x13) || (0x19 <= b
        <= 0x1E)
}

/// A ROM image whose header this emulator accepts.
pub open spec fn header_ok(rom: Seq<u8>) -> bool {
    &&& 0x14D < rom.len() <= usize::MAX
    &&& supported_cart_type(rom[0x147])
    &&& spec_ram_size(rom[0x149]) is Some
}

/// The CGB flag (header byte 0x143).
pub open spec fn spec_cgb_status(b: u8) -> CGBStatus {
    if b == 0x80 {
        CGBStatus::SupportsCGB
    } else if b == 0xC0 {
        CGBStatus::CGBOnly
    } else {
        CGBStatus::GB
    }
}

/// Cartridge types that have a battery.
pub open spec fn spec_battery(b: u8) -> bool {
    b == 0x03 || b == 0x06 || b == 0x09 || b == 0x0D || b == 0x10 || b == 0x13 || b == 0x1B || b
        == 0x1e || b == 0x22 || b == 0xff
}

/// The wrapping sum of some bytes.
pub open spec fn byte_sum(s: Seq<u8>) -> u8
    decreases s.len(),
{
    if s.len() == 0 {
        0
    } else {
        ((byte_sum(s.drop_last()) + s.last()) % 256) as u8
    }
}

/// Whether `bytes` is valid UTF-8, by `std::str::from_utf8`.
#[verifier::external_body]
fn utf8_valid(bytes: &[u8]) -> (r: bool)
    ensures
        r == vstd::utf8::valid_utf8(bytes@),
{
    std::str::from_utf8(bytes).is_ok()
}

fn copy_range(v: &Vec<u8>, start: usize, end: usize) -> (r: Vec<u8>)
    requires
        start <= end <= v@.len(),
    ensures
        r@ == v@.subrange(start as int, end as int),
{
    let mut out: Vec<u8> = Vec::new();
    let mut i = start;
    while i < end
        invariant
            start <= i <= end <= v@.len(),
            out@ == v@.subrange(start as int, i as int),
        decreases end - i,
    {
        out.push(v[i]);
        i = i + 1;
        assert(out@ =~= v@.subrange(start as int, i as int));
    }
    out
}

/// The bytes of the text used when the title is not valid UTF-8.
pub open spec fn invalid_title() -> Seq<u8> {
    seq![73u8, 110, 118, 97, 108, 105, 100, 32, 84, 105, 116, 108, 101]
}

fn invalid_title_bytes() -> (r: Vec<u8>)
    ensures
        r@ == invalid_title(),
{
    let v: Vec<u8> = vec![73u8, 110, 118, 97, 108, 105, 100, 32, 84, 105, 116, 108, 101];
    assert(v@ =~= invalid_title());
    v
}

/// The title field: 0x134..0x143 for CGB carts, 0x134..0x144 otherwise;
/// "Invalid Title" when those bytes are not UTF-8.
pub open spec fn spec_title(rom: Seq<u8>) -> Seq<u8> {
    let end: int = if spec_cgb_status(rom[0x143]) == CGBStatus::GB {
        0x144
    } else {
        0x143
    };
    let raw = rom.subrange(0x134, end);
    if vstd::utf8::valid_utf8(raw) {
        raw
    } else {
        invalid_title()
    }
}

impl Cart {
    /// The memory sizes and the bank registers are in range.
    pub closed spec fn wf(&self) -> bool {
        self.cart.phys().regs_ok()
    }

    /// The kind of bank controller.
    pub closed spec fn kind(&self) -> MBCType {
        match self.cart {
            MBC::MBC1(_) => MBCType::MBC1,
            MBC::MBC3(_) => MBCType::MBC3,
            MBC::MBC5(_) => MBCType::MBC5,
        }
    }

    /// The ROM bank register, the RAM bank register and whether RAM banking
    /// mode is selected.
    pub closed spec fn bank_regs(&self) -> (usize, usize, bool) {
        (self.cart.phys().rom_reg, self.cart.phys().ram_reg, self.cart.phys().bank_mode
            == BankMode::RAM)
    }

    /// Whether the RAM window currently reaches a clock register (MBC3).
    pub closed spec fn rtc_selected(&self) -> bool {
        match self.cart {
            MBC::MBC3(c) => spec_rtc_select(c.cart.ram_reg) is Some,
            _ => false,
        }
    }

    /// The RAM after a write of `v` at `addr` in the RAM window.
    pub closed spec fn ram_after_write(&self, addr: u16, v: u8) -> Seq<u8> {
        spec_ram_write(self.cart.phys(), addr, v)
    }

    /// The bytes of the ROM image.
    pub closed spec fn rom(&self) -> Seq<u8> {
        self.cart.phys().rom@
    }

    /// The cartridge RAM.
    pub closed spec fn ram(&self) -> Seq<u8> {
        self.cart.phys().ram@
    }

    pub closed spec fn spec_title_bytes(&self) -> Seq<u8> {
        self.title@
    }

    pub closed spec fn spec_cgb(&self) -> CGBStatus {
        self.cgb
    }

    /// Whether RAM (or the clock) is enabled for access.
    pub closed spec fn ram_enabled(&self) -> bool {
        self.cart.phys().ram_enable
    }

    /// Whether an access at `addr` is one the cartridge answers without
    /// leaving its ROM or RAM.
    pub closed spec fn access_ok(&self, addr: u16) -> bool {
        &&& self.cart.phys().wf()
        &&& (addr < 0x8000 || (0xA000 <= addr < 0xC000))
        &&& (0xA000 <= addr < 0xC000 ==> match self.cart {
            MBC::MBC3(c) => spec_rtc_select(c.cart.ram_reg) is Some || ram_access_ok(c.cart, addr),
            _ => ram_access_ok(self.cart.phys(), addr),
        })
    }

    /// What a read at `addr` returns.
    pub closed spec fn spec_read(&self, addr: u16) -> u8 {
        match self.cart {
            MBC::MBC3(c) => {
                if 0xA000 <= addr && spec_rtc_select(c.cart.ram_reg) is Some {
                    let rtc = match c.rtc_latch {
                        Some(l) => l,
                        None => c.rtc,
                    };
                    spec_rtc_read(rtc, spec_rtc_select(c.cart.ram_reg)->0)
                } else {
                    spec_phys_read(c.cart, addr)
                }
            },
            _ => spec_phys_read(self.cart.phys(), addr),
        }
    }

    /// The ROM image of the cartridge.
    pub fn mbc_rom(&self) -> (r: &Vec<u8>)
        ensures
            r@ == self.rom(),
    {
        match &self.cart {
            MBC::MBC1(c) => &c.cart.rom,
            MBC::MBC3(c) => &c.cart.rom,
            MBC::MBC5(c) => &c.cart.rom,
        }
    }

    /// The title from the header (raw bytes).
    pub fn title(&self) -> (r: &Vec<u8>)
        ensures
            r@ == self.spec_title_bytes(),
    {
        &self.title
    }

    /// Whether the cartridge answers an access at `addr` (ROM windows, or a
    /// RAM window access that stays inside its RAM or reaches the clock).
    pub fn accessible(&self, addr: u16) -> (r: bool)
        requires
            self.wf(),
        ensures
            r == self.access_ok(addr),
    {
        let rom_len = match &self.cart {
            MBC::MBC1(c) => c.cart.rom.len(),
            MBC::MBC3(c) => c.cart.rom.len(),
            MBC::MBC5(c) => c.cart.rom.len(),
        };
        if rom_len == 0 {
            false
        } else if addr < 0x8000 {
            true
        } else if addr < 0xA000 || addr >= 0xC000 {
            false
        } else {
            match &self.cart {
                MBC::MBC3(c) => {
                    if c.rtc_select().is_some() {
                        true
                    } else {
                        ram_access_check(&c.cart, addr)
                    }
                },
                MBC::MBC1(c) => ram_access_check(&c.cart, addr),
                MBC::MBC5(c) => ram_access_check(&c.cart, addr),
            }
        }
    }

    pub fn cgb(&self) -> (r: CGBStatus)
        ensures
            r == self.spec_cgb(),
    {
        self.cgb
    }

    /// The wrapping sum of the title's bytes.
    pub fn title_hash(&self) -> (r: u8)
        ensures
            r == byte_sum(self.spec_title_bytes()),
    {
        let mut acc: u8 = 0;
        let mut i: usize = 0;
        while i < self.title.len()
            invariant
                i <= self.title@.len(),
                acc == byte_sum(self.title@.subrange(0, i as int)),
            decreases self.title@.len() - i,
        {
            let v = self.title[i];
            proof {
                let s = self.title@.subrange(0, i as int + 1);
                assert(s.drop_last() =~= self.title@.subrange(0, i as int));
            }
            acc = if acc as u16 + v as u16 > 255 {
                (acc as u16 + v as u16 - 256) as u8
            } else {
                acc + v
            };
            i = i + 1;
        }
        assert(self.title@.subrange(0, i as int) =~= self.title@);
        acc
    }

    /// A cartridge with no ROM, no RAM and no MBC, titled "Fake ROM".
    pub fn fake() -> (r: Cart)
        ensures
            r.rom().len() == 0,
            r.ram().len() == 0,
            r.spec_cgb() == CGBStatus::GB,
            r.wf(),
            r.spec_title_bytes() == seq![70u8, 97, 107, 101, 32, 82, 79, 77],
    {
        let title: Vec<u8> = vec![70u8, 97, 107, 101, 32, 82, 79, 77];
        Cart {
            title,
            cgb: CGBStatus::GB,
            mbc: None,
            battery: false,
            cart: MBC::MBC1(CartMBC1 { cart: CartPhysical::new(Vec::new(), Vec::new()) }),
        }
    }

    /// Whether `Cart::new` accepts this ROM image: it must reach the header
    /// checksum byte (0x14D), name a supported cartridge type and a known RAM size.
    pub fn header_supported(rom: &Vec<u8>) -> (r: bool)
        ensures
            r == header_ok(rom@),
    {
        rom.len() > 0x14d && {
            let t = rom[0x147];
            t == 0x00 || (0x01 <= t && t <= 0x03) || (0x08 <= t && t <= 0x09) || (0x0F <= t && t
                <= 0x13) || (0x19 <= t && t <= 0x1E)
        } && rom[0x149] <= 5
    }

    /// Reads the header: CGB support, title, battery, RAM size and MBC type;
    /// the RAM starts zeroed with RAM access disabled and ROM bank 1 mapped.
    pub fn new(rom: Vec<u8>) -> (r: Cart)
        requires
            header_ok(rom@),
        ensures
            r.rom() == rom@,
            r.ram() == Seq::new(spec_ram_size(rom@[0x149])->0, |i: int| 0u8),
            r.spec_cgb() == spec_cgb_status(rom@[0x143]),
            r.spec_title_bytes() == spec_title(rom@),
            !r.ram_enabled(),
            r.wf(),
    {
        let cgb = if rom[0x143] == 0x80 {
            CGBStatus::SupportsCGB
        } else if rom[0x143] == 0xC0 {
            CGBStatus::CGBOnly
        } else {
            CGBStatus::GB
        };
        let end: usize = match cgb {
            CGBStatus::SupportsCGB | CGBStatus::CGBOnly => 0x143,
            _ => 0x144,
        };
        let raw = copy_range(&rom, 0x134, end);
        let title = if utf8_valid(raw.as_slice()) {
            raw
        } else {
            invalid_title_bytes()
        };
        let t = rom[0x147];
        let mbc: Option<MBCType> = if t == 0x00 {
            None
        } else if 0x01 <= t && t <= 0x03 {
            Some(MBCType::MBC1)
        } else if 0x08 <= t && t <= 0x09 {
            None
        } else if 0x0F <= t && t <= 0x13 {
            Some(MBCType::MBC3)
        } else {
            Some(MBCType::MBC5)
        };
        let battery = t == 0x03 || t == 0x06 || t == 0x09 || t == 0x0D || t == 0x10 || t == 0x13
            || t == 0x1B || t == 0x1e || t == 0x22 || t == 0xff;
        let code = rom[0x149];
        let ram_size: usize = if code == 0 {
            0
        } else if code == 1 {
            2048
        } else if code == 2 {
            8192
        } else if code == 3 {
            32768
        } else if code == 4 {
            131072
        } else {
            65536
        };
        assert(spec_ram_size(code) == Some(ram_size as nat));
        let mut ram: Vec<u8> = Vec::new();
        let mut i: usize = 0;
        while i < ram_size
            invariant
                i <= ram_size,
                ram@ == Seq::new(i as nat, |j: int| 0u8),
            decreases ram_size - i,
        {
            ram.push(0);
            i = i + 1;
            assert(ram@ =~= Seq::new(i as nat, |j: int| 0u8));
        }
        let physical = CartPhysical::new(ram, rom);
        let cart = match mbc {
            Some(MBCType::MBC3) => MBC::MBC3(
                CartMBC3 { cart: physical, rtc_latch: None, rtc: RTC::new() },
            ),
            Some(MBCType::MBC5) => MBC::MBC5(CartMBC5 { cart: physical }),
            _ => MBC::MBC1(CartMBC1 { cart: physical }),
        };
        Cart { title, cgb, mbc, battery, cart }
    }
}

/// What a write to the bank registers (0x2000..0x8000) does to them, as
/// (ROM bank register, RAM bank register, RAM banking mode):
/// MBC1: 0x2000 sets the low five ROM bank bits (0 meaning 1), 0x4000 the
/// RAM bank or, in ROM banking mode, ROM bank bits 5-6, 0x6000 the mode;
/// MBC3: 0x2000 sets the seven-bit ROM bank (0 meaning 1), 0x4000 the RAM
/// bank or clock register; MBC5: 0x2000 sets the low eight ROM bank bits,
/// 0x3000 the ninth, 0x4000 the RAM bank. The controller does not change.
pub open spec fn bank_write(c0: Cart, c1: Cart, addr: u16, v: u8) -> bool {
    let rom0 = c0.bank_regs().0;
    let ram0 = c0.bank_regs().1;
    let mode0 = c0.bank_regs().2;
    &&& c1.kind() == c0.kind()
    &&& match c0.kind() {
        MBCType::MBC5 => {
            &&& 0x2000 <= addr < 0x3000 ==> c1.bank_regs() == ((rom0 & 0xff00) | v as usize, ram0, mode0)
            &&& 0x3000 <= addr < 0x4000 ==> c1.bank_regs() == ((rom0 & 0x00ff) | (((v & 1) as usize * 256) as usize), ram0, mode0)
            &&& 0x4000 <= addr < 0x6000 ==> c1.bank_regs() == (rom0, (v & 0xf) as usize, mode0)
            &&& 0x6000 <= addr < 0x8000 ==> c1.bank_regs() == c0.bank_regs()
        },
        MBCType::MBC3 => {
            &&& 0x2000 <= addr < 0x4000 ==> c1.bank_regs() == (if v & 0x7f == 0 { 1usize } else { (v & 0x7f) as usize }, ram0, mode0)
            &&& 0x4000 <= addr < 0x6000 ==> c1.bank_regs().1 == v as usize
        },
        _ => {
            &&& 0x2000 <= addr < 0x4000 ==> c1.bank_regs() == ((rom0 & 0x60) | (v & 0x1f) as usize | (if v & 0x1f == 0 { 1usize } else { 0 }), ram0, mode0)
            &&& 0x4000 <= addr < 0x6000 && !mode0 ==> c1.bank_regs() == ((rom0 & 0x1f) | (((v & 3) as usize * 32) as usize), ram0, mode0)
            &&& 0x4000 <= addr < 0x6000 && mode0 ==> c1.bank_regs() == (rom0, (v & 3) as usize, mode0)
            &&& 0x6000 <= addr < 0x8000 ==> c1.bank_regs() == (rom0, ram0, v & 1 != 0)
        },
    }
}

/// In ROM banking mode a read in the switchable window 0x4000..0x8000
/// returns the ROM byte at (ROM bank register * 0x4000 + offset), wrapped
/// to the ROM's size (a power of two).
proof fn lemma_rom_window(c: Cart, addr: u16, n: nat)
    requires
        c.wf(),
        !c.bank_regs().2,
        0x4000 <= addr < 0x8000,
        n < 32,
        c.rom().len() == vstd::arithmetic::power2::pow2(n),
    ensures
        c.spec_read(addr) == c.rom()[((c.bank_regs().0 * 0x4000 + (addr - 0x4000)) % (c.rom().len() as int))],
{
    let p = c.cart.phys();
    let x: int = addr - 0x4000 + p.rom_reg * 16384;
    assert(0 <= x < 0x8000_0000);
    vstd::bits::lemma_usize_low_bits_mask_is_mod(x as usize, n);
    vstd::arithmetic::power2::lemma_pow2_pos(n);
    assert(spec_rom_bank(p, 0x4000) == p.rom_reg);
}

/// In ROM banking mode a read at 0x0000..0x4000 returns the ROM byte at
/// that offset (wrapped to the ROM's size).
pub proof fn law_rom_bank0(c: Cart, k: int, n: nat)
    requires
        c.wf(),
        !c.bank_regs().2,
        0 <= k < 0x4000,
        n < 32,
        c.rom().len() == vstd::arithmetic::power2::pow2(n),
    ensures
        c.spec_read(k as u16) == c.rom()[k % (c.rom().len() as int)],
{
    let p = c.cart.phys();
    vstd::bits::lemma_usize_low_bits_mask_is_mod(k as usize, n);
    vstd::arithmetic::power2::lemma_pow2_pos(n);
    assert(spec_rom_bank(p, 0) == 0);
}

/// MBC5: after writing `v` to 0x2000 and `h` to 0x3000, a read at
/// 0x4000 + k returns the byte at offset k of ROM bank (h & 1) * 256 + v
/// (wrapped to the ROM's size).
pub proof fn law_mbc5_rom_bank(c0: Cart, c1: Cart, c2: Cart, v: u8, h: u8, k: int, n: nat)
    requires
        c2.wf(),
        c0.kind() == MBCType::MBC5,
        !c0.bank_regs().2,
        bank_write(c0, c1, 0x2000, v),
        c1.rom() == c0.rom(),
        bank_write(c1, c2, 0x3000, h),
        c2.rom() == c1.rom(),
        0 <= k < 0x4000,
        n < 32,
        c0.rom().len() == vstd::arithmetic::power2::pow2(n),
    ensures
        c2.spec_read((0x4000 + k) as u16) == c0.rom()[(((h % 2) * 256 + v) * 0x4000 + k) % (c0.rom().len() as int)],
{
    crate::bits::lemma_bank_bits();
    let r0 = c0.bank_regs().0;
    assert(((((r0 & 0xff00) | (v as usize)) & 0x00ff) | (((h & 1) as usize * 256) as usize)) == (v as usize) + (h & 1) as usize * 256);
    assert(h & 1 == h % 2);
    assert(c2.bank_regs().0 == v + (h % 2) * 256);
    lemma_rom_window(c2, (0x4000 + k) as u16, n);
}

/// MBC3: after writing `v` to 0x2000, a read at 0x4000 + k returns the
/// byte at offset k of ROM bank v mod 128 (bank 0 selecting bank 1).
pub proof fn law_mbc3_rom_bank(c0: Cart, c1: Cart, v: u8, k: int, n: nat)
    requires
        c1.wf(),
        c0.kind() == MBCType::MBC3,
        !c0.bank_regs().2,
        bank_write(c0, c1, 0x2000, v),
        c1.rom() == c0.rom(),
        0 <= k < 0x4000,
        n < 32,
        c0.rom().len() == vstd::arithmetic::power2::pow2(n),
    ensures
        c1.spec_read((0x4000 + k) as u16) == c0.rom()[((if v % 128 == 0 { 1 } else { v % 128 }) * 0x4000 + k) % (c0.rom().len() as int)],
{
    crate::bits::lemma_bank_bits();
    assert(v & 0x7f == v % 128);
    lemma_rom_window(c1, (0x4000 + k) as u16, n);
}

/// MBC1 in ROM banking mode: after writing `v` to 0x2000 and `u` to
/// 0x4000, a read at 0x4000 + k returns the byte at offset k of ROM bank
/// (u mod 4) * 32 + (v mod 32), bank bits 0-4 of 0 selecting 1.
pub proof fn law_mbc1_rom_bank(c0: Cart, c1: Cart, c2: Cart, v: u8, u: u8, k: int, n: nat)
    requires
        c2.wf(),
        c0.kind() == MBCType::MBC1,
        !c0.bank_regs().2,
        bank_write(c0, c1, 0x2000, v),
        c1.rom() == c0.rom(),
        bank_write(c1, c2, 0x4000, u),
        c2.rom() == c1.rom(),
        0 <= k < 0x4000,
        n < 32,
        c0.rom().len() == vstd::arithmetic::power2::pow2(n),
    ensures
        c2.spec_read((0x4000 + k) as u16) == c0.rom()[(((u % 4) * 32 + (if v % 32 == 0 { 1 } else { v % 32 })) * 0x4000 + k) % (c0.rom().len() as int)],
{
    crate::bits::lemma_bank_bits();
    let r0 = c0.bank_regs().0;
    let r1 = c1.bank_regs().0;
    let one: usize = if v & 0x1f == 0 { 1usize } else { 0usize };
    assert(r1 == (r0 & 0x60) | (v & 0x1f) as usize | one);
    assert(((((r0 & 0x60) | (v & 0x1f) as usize | one) & 0x1f) | (((u & 3) as usize * 32) as usize))
        == (if v & 0x1f == 0 { 1usize } else { (v & 0x1f) as usize }) + (u & 3) as usize * 32);
    assert(v & 0x1f == v % 32 && u & 3 == u % 4);
    lemma_rom_window(c2, (0x4000 + k) as u16, n);
}

impl Addressable for Cart {
    open spec fn handles(&self, addr: u16) -> bool {
        self.access_ok(addr)
    }

    /// ROM reads go through the bank mapping; RAM reads return the banked
    /// RAM byte, the selected clock register (MBC3), or 0xFF while RAM is
    /// disabled.
    fn read_byte(&mut self, addr: u16) -> (r: u8)
        ensures
            r == old(self).spec_read(addr),
            *final(self) == *old(self),
    {
        match &self.cart {
            MBC::MBC3(c) => {
                if addr >= 0xA000 {
                    match c.rtc_select() {
                        Some(mode) => {
                            return match &c.rtc_latch {
                                Some(l) => l.rtc_read(mode),
                                None => c.rtc.rtc_read(mode),
                            };
                        },
                        None => {},
                    }
                }
                phys_read(&c.cart, addr)
            },
            MBC::MBC1(c) => phys_read(&c.cart, addr),
            MBC::MBC5(c) => phys_read(&c.cart, addr),
        }
    }

    fn write_byte(&mut self, addr: u16, v: u8)
        ensures
            final(self).wf(),
            final(self).rom() == old(self).rom(),
            final(self).spec_cgb() == old(self).spec_cgb(),
            final(self).spec_title_bytes() == old(self).spec_title_bytes(),
            addr < 0x2000 ==> final(self).ram_enabled() == (v & 0xf == 0xA),
            0xA000 <= addr < 0xC000 && !old(self).rtc_selected() ==> final(self).ram()
                == old(self).ram_after_write(addr, v) && final(self).ram_enabled()
                == old(self).ram_enabled() && final(self).bank_regs() == old(self).bank_regs(),
            bank_write(*old(self), *final(self), addr, v),
    {
        match &mut self.cart {
            MBC::MBC1(c) => mbc1_write(&mut c.cart, addr, v),
            MBC::MBC5(c) => mbc5_write(&mut c.cart, addr, v),
            MBC::MBC3(c) => mbc3_write(c, addr, v),
        }
    }
}

/// A read of the ROM windows or the RAM window.
fn phys_read(p: &CartPhysical, addr: u16) -> (r: u8)
    requires
        p.wf(),
        addr < 0x8000 || (0xA000 <= addr < 0xC000),
        0xA000 <= addr ==> ram_access_ok(*p, addr),
    ensures
        r == spec_phys_read(*p, addr),
{
    if addr < 0x4000 {
        let o = p.rom_offset(0x0000, addr);
        p.rom_at(o)
    } else if addr < 0x8000 {
        let o = p.rom_offset(0x4000, addr);
        p.rom_at(o)
    } else {
        match p.ram_offset(addr) {
            Some(o) => p.ram[o],
            None => 0xff,
        }
    }
}

/// A write to the RAM window.
fn ram_write(p: &mut CartPhysical, addr: u16, v: u8)
    requires
        old(p).wf(),
        0xA000 <= addr < 0xC000,
        ram_access_ok(*old(p), addr),
    ensures
        final(p).ram@ == spec_ram_write(*old(p), addr, v),
        final(p).rom@ == old(p).rom@,
        final(p).rom_reg == old(p).rom_reg,
        final(p).ram_reg == old(p).ram_reg,
        final(p).bank_mode == old(p).bank_mode,
        final(p).ram_enable == old(p).ram_enable,
{
    match p.ram_offset(addr) {
        Some(o) => {
            p.ram.set(o, v);
        },
        None => {},
    }
}

/// MBC1: 0x0000 enables RAM, 0x2000 sets the five low ROM bank bits (0
/// counts as 1), 0x4000 sets the RAM bank or the two high ROM bank bits
/// depending on the banking mode, 0x6000 selects the banking mode.
fn mbc1_write(p: &mut CartPhysical, addr: u16, v: u8)
    requires
        old(p).wf(),
        addr < 0x8000 || (0xA000 <= addr < 0xC000 && ram_access_ok(*old(p), addr)),
    ensures
        final(p).wf(),
        final(p).rom@ == old(p).rom@,
        addr < 0x2000 ==> *final(p) == (CartPhysical { ram_enable: v & 0xf == 0xA, ..*old(p) }),
        0x2000 <= addr < 0x4000 ==> final(p).rom_reg == ((old(p).rom_reg & 0x60) | (v & 0x1f) as usize
            | (if v & 0x1f == 0 { 1usize } else { 0 })),
        0x4000 <= addr < 0x6000 && old(p).bank_mode == BankMode::RAM ==> final(p).ram_reg == (v
            & 3) as usize,
        0x4000 <= addr < 0x6000 && old(p).bank_mode == BankMode::ROM ==> final(p).rom_reg == ((
        old(p).rom_reg & 0x1f) | (((v & 3) as usize * 32) as usize)),
        0x6000 <= addr < 0x8000 ==> final(p).bank_mode == (if v & 1 == 0 {
            BankMode::ROM
        } else {
            BankMode::RAM
        }),
        0x2000 <= addr < 0x8000 ==> final(p).ram@ == old(p).ram@,
        0x2000 <= addr < 0x6000 ==> final(p).bank_mode == old(p).bank_mode,
        0x2000 <= addr < 0x4000 ==> final(p).ram_reg == old(p).ram_reg,
        0x4000 <= addr < 0x6000 && old(p).bank_mode == BankMode::ROM ==> final(p).ram_reg == old(p).ram_reg,
        0x4000 <= addr < 0x6000 && old(p).bank_mode == BankMode::RAM ==> final(p).rom_reg == old(p).rom_reg,
        0x6000 <= addr < 0x8000 ==> final(p).rom_reg == old(p).rom_reg && final(p).ram_reg == old(p).ram_reg,
        0xA000 <= addr ==> final(p).ram@ == spec_ram_write(*old(p), addr, v) && final(p).ram_enable
            == old(p).ram_enable && final(p).bank_mode == old(p).bank_mode && final(p).ram_reg
            == old(p).ram_reg && final(p).rom_reg == old(p).rom_reg,
{
    if addr < 0x2000 {
        p.ram_enable = (v & 0xF) == 0xA;
    } else if addr < 0x4000 {
        assert(v & 0b11111 <= 0x1f) by {
            crate::bits::lemma_byte_masks();
        }
        let new_v = (v & 0b11111) as usize;
        let one: usize = if new_v == 0 {
            1
        } else {
            0
        };
        let old_r = p.rom_reg;
        let r = (old_r & 0x60) | new_v | one;
        assert(r < 0x1_0000) by (bit_vector)
            requires
                r == (old_r & 0x60) | new_v | one,
                new_v <= 0x1f,
                one <= 1,
        ;
        p.rom_reg = r;
    } else if addr < 0x6000 {
        if p.bank_mode == BankMode::RAM {
            p.ram_reg = (v & 0b11) as usize;
        } else {
            assert(v & 0b11 <= 3) by {
            crate::bits::lemma_byte_masks();
        }
            let hi = ((v & 0b11) as usize) * 32;
            let old_r = p.rom_reg;
            let r = (old_r & 0x1f) | hi;
            assert(r < 0x1_0000) by (bit_vector)
                requires
                    r == (old_r & 0x1f) | hi,
                    hi <= 96,
            ;
            p.rom_reg = r;
        }
    } else if addr < 0x8000 {
        p.bank_mode = if v & 0x1 == 0 {
            BankMode::ROM
        } else {
            BankMode::RAM
        };
    } else {
        ram_write(p, addr, v);
    }
}

/// MBC5: 0x2000..0x3000 sets the low eight ROM bank bits, 0x3000..0x4000
/// the ninth, 0x4000 the RAM bank (four bits); 0x6000 is ignored.
fn mbc5_write(p: &mut CartPhysical, addr: u16, v: u8)
    requires
        old(p).wf(),
        addr < 0x8000 || (0xA000 <= addr < 0xC000 && ram_access_ok(*old(p), addr)),
    ensures
        final(p).wf(),
        final(p).rom@ == old(p).rom@,
        addr < 0x2000 ==> *final(p) == (CartPhysical { ram_enable: v & 0xf == 0xA, ..*old(p) }),
        0x2000 <= addr < 0x3000 ==> final(p).rom_reg == (old(p).rom_reg & 0xff00) | v as usize,
        0x3000 <= addr < 0x4000 ==> final(p).rom_reg == (old(p).rom_reg & 0x00ff) | (((v & 1) as usize
            * 256) as usize),
        0x4000 <= addr < 0x6000 ==> final(p).ram_reg == (v & 0xf) as usize,
        0x6000 <= addr < 0x8000 ==> *final(p) == *old(p),
        0x2000 <= addr < 0x4000 ==> final(p).ram_reg == old(p).ram_reg && final(p).bank_mode == old(p).bank_mode,
        0xA000 <= addr ==> final(p).ram@ == spec_ram_write(*old(p), addr, v) && final(p).ram_enable
            == old(p).ram_enable && final(p).bank_mode == old(p).bank_mode && final(p).ram_reg
            == old(p).ram_reg && final(p).rom_reg == old(p).rom_reg,
        0x4000 <= addr < 0x6000 ==> final(p).rom_reg == old(p).rom_reg && final(p).bank_mode == old(p).bank_mode,
{
    if addr < 0x2000 {
        p.ram_enable = (v & 0xF) == 0xA;
    } else if addr < 0x3000 {
        let old_r = p.rom_reg;
        let vv = v as usize;
        let r = (old_r & 0xff00) | vv;
        assert(r < 0x1_0000) by (bit_vector)
            requires
                r == (old_r & 0xff00) | vv,
                old_r < 0x1_0000,
                vv < 0x100,
        ;
        p.rom_reg = r;
    } else if addr < 0x4000 {
        assert(v & 0b1 <= 1) by {
            crate::bits::lemma_byte_masks();
        }
        let hi = (v & 0b1) as usize * 256;
        let old_r = p.rom_reg;
        let r = (old_r & 0x00ff) | hi;
        assert(r < 0x1_0000) by (bit_vector)
            requires
                r == (old_r & 0x00ff) | hi,
                hi <= 256,
        ;
        p.rom_reg = r;
    } else if addr < 0x6000 {
        p.ram_reg = (v & 0xf) as usize;
    } else if addr < 0x8000 {
    } else {
        ram_write(p, addr, v);
    }
}

/// MBC3: 0x2000 sets the seven-bit ROM bank (0 counts as 1), 0x4000 the
/// RAM bank or clock register, 0x6000 latches the clock (non-zero) or
/// releases the latch (zero); the RAM window reaches the selected clock
/// register or RAM.
fn mbc3_write(c: &mut CartMBC3, addr: u16, v: u8)
    requires
        old(c).cart.wf(),
        addr < 0x8000 || (0xA000 <= addr < 0xC000 && (spec_rtc_select(old(c).cart.ram_reg) is Some
            || ram_access_ok(old(c).cart, addr))),
    ensures
        final(c).cart.wf(),
        final(c).cart.rom@ == old(c).cart.rom@,
        addr < 0x2000 ==> final(c).cart == (CartPhysical { ram_enable: v & 0xf == 0xA, ..old(c).cart }),
        0x2000 <= addr < 0x4000 ==> final(c).cart.rom_reg == (if v & 0x7f == 0 {
            1usize
        } else {
            (v & 0x7f) as usize
        }),
        0x4000 <= addr < 0x6000 ==> final(c).cart.ram_reg == v as usize,
        0x2000 <= addr < 0x4000 ==> final(c).cart.ram_reg == old(c).cart.ram_reg && final(c).cart.bank_mode == old(c).cart.bank_mode,
        0x6000 <= addr < 0x8000 ==> final(c).rtc_latch == (if v > 0 {
            Some(old(c).rtc)
        } else {
            None
        }),
        0xA000 <= addr && spec_rtc_select(old(c).cart.ram_reg) is None ==> final(c).cart.ram@
            == spec_ram_write(old(c).cart, addr, v) && final(c).cart.ram_enable
            == old(c).cart.ram_enable && final(c).cart.bank_mode == old(c).cart.bank_mode
            && final(c).cart.ram_reg == old(c).cart.ram_reg && final(c).cart.rom_reg
            == old(c).cart.rom_reg,
{
    if addr < 0x2000 {
        c.cart.ram_enable = (v & 0xF) == 0xA;
    } else if addr < 0x4000 {
        let new_v = (v & 0x7f) as usize;
        c.cart.rom_reg = if new_v == 0 {
            1
        } else {
            new_v
        };
    } else if addr < 0x6000 {
        c.cart.ram_reg = v as usize;
    } else if addr < 0x8000 {
        if v > 0 {
            c.rtc_latch = Some(c.rtc);
        } else {
            c.rtc_latch = None;
        }
    } else {
        match c.rtc_select() {
            Some(mode) => {
                c.rtc.rtc_write(mode, v);
            },
            None => {
                ram_write(&mut c.cart, addr, v);
            },
        }
    }
}

impl Peripheral for Cart {
    open spec fn can_step(&self, time: CycleCount) -> bool {
        true
    }

    /// The cartridge raises no interrupts and is only observed through
    /// reads.
    fn step(&mut self, data: &mut PeripheralData, time: CycleCount) -> (r: u8)
        ensures
            r == 0,
            *final(self) == *old(self),
    {
        0
    }

    fn next_step(&self) -> (r: Option<CycleCount>)
        ensures
            r == Some(u64::MAX),
    {
        Some(u64::MAX)
    }
}

} // verus!
