//! The picture processing unit: video memory, the LCD registers, the
//! mode state machine (OAM search, pixel transfer, H-blank, V-blank) and the
//! scan-line renderer.
use crate::cart::CGBStatus;
use crate::cycles::{CycleCount, GB};
use crate::palette::CustomPalette;
use crate::peripherals::{Addressable, Peripheral, PeripheralData};
use crate::waittimer::WaitTimer;
use vstd::prelude::*;

verus! {

pub const SCREEN_X: usize = 160;

pub const SCREEN_Y: usize = 144;

pub const BYTES_PER_PIXEL: usize = 4;

/// Bytes of one tile: 8 lines of two bit planes.
pub const BYTES_PER_TILE: usize = 16;

/// Bytes of one VRAM tile bank (384 tiles).
pub const TILE_BANK_BYTES: usize = 6144;

/// Entries of one 32x32 background map.
pub const BG_MAP_ENTRIES: usize = 1024;

/// Bytes of sprite attribute memory: 40 sprites of 4 bytes.
pub const OAM_BYTES: usize = 160;

/// Bytes of one colour palette memory: 8 palettes of 4 colours, 2 bytes each.
pub const PALETTE_BYTES: usize = 64;

/// Length of a full frame buffer in bytes.
pub const LCD_BYTES: usize = 92160;

pub const LCDC_ADDR: u16 = 0xff40;

pub const STAT_ADDR: u16 = 0xff41;

pub const SCY_ADDR: u16 = 0xff42;

pub const SCX_ADDR: u16 = 0xff43;

pub const LY_ADDR: u16 = 0xff44;

pub const LYC_ADDR: u16 = 0xff45;

pub const BGP_ADDR: u16 = 0xff47;

pub const OBP0_ADDR: u16 = 0xff48;

pub const OBP1_ADDR: u16 = 0xff49;

pub const WY_ADDR: u16 = 0xff4a;

pub const WX_ADDR: u16 = 0xff4b;

pub const VBK_ADDR: u16 = 0xff4f;

pub const BGPS_ADDR: u16 = 0xff68;

pub const BGPD_ADDR: u16 = 0xff69;

pub const OBPS_ADDR: u16 = 0xff6a;

pub const OBPD_ADDR: u16 = 0xff6b;

/// The four modes the display cycles through on each line.
#[derive(PartialEq, Eq, Structural, Clone, Copy, Debug)]
pub enum DisplayState {
    OAMSearch,
    PixelTransfer,
    HBlank,
    VBlank,
}

/// How colours are produced: classic shades, classic palettes through the
/// colour hardware, or full colour.
#[derive(PartialEq, Eq, Structural, Clone, Copy, Debug)]
pub enum DisplayMode {
    StrictGB,
    CGBCompat,
    CGB,
}

/// Machine cycles (times the cycle unit) each mode lasts.
pub open spec fn state_period(s: DisplayState) -> u64 {
    match s {
        DisplayState::OAMSearch => 40,
        DisplayState::PixelTransfer => 86,
        DisplayState::HBlank => 102,
        DisplayState::VBlank => 228,
    }
}

/// The interrupts (bit 0 V-blank, bit 1 LCD status) a display step of
/// `time` cycles raises: none while the LCD is off.
pub open spec fn display_irq(d: Display, time: u64) -> u8 {
    if d.spec_mem().enabled() {
        let p = state_period(d.spec_state());
        let fired = d.spec_acc() + time >= p;
        let next = if fired {
            spec_next_state(d.spec_state(), d.spec_mem().spec_ly())
        } else {
            (d.spec_state(), d.spec_mem().spec_ly())
        };
        let m = d.spec_mem();
        spec_display_interrupts(m.spec_stat(), d.spec_state(), next.0, m.spec_ly(), next.1, m.spec_lyc())
    } else {
        0
    }
}

/// The STAT mode bits that report a display state.
pub open spec fn stat_mode_bits(s: DisplayState) -> u8 {
    match s {
        DisplayState::HBlank => 0,
        DisplayState::VBlank => 1,
        DisplayState::OAMSearch => 2,
        DisplayState::PixelTransfer => 3,
    }
}

/// Whether `addr` belongs to the display: VRAM, OAM and the LCD registers.
pub open spec fn display_handles(addr: u16) -> bool {
    ||| 0x8000 <= addr <= 0x9fff
    ||| 0xfe00 <= addr <= 0xfe9f
    ||| 0xff40 <= addr <= 0xff45
    ||| 0xff47 <= addr <= 0xff4b
    ||| addr == VBK_ADDR
    ||| 0xff68 <= addr <= 0xff6b
}

/// A palette control register after a data write: with bit 7 set, the
/// 6-bit index in bits 0..5 advances, wrapping, and bits 6..7 stay.
pub open spec fn advance_palette_control(ctl: u8) -> u8 {
    if ctl & 0x80 != 0 {
        (ctl & 0xc0) | (((ctl & 0x3f) + 1) % 64) as u8
    } else {
        ctl
    }
}

/// Video memory and registers of the display.
pub struct DispMem {
    tiles: Vec<u8>,
    map: Vec<u8>,
    flags: Vec<u8>,
    oam: Vec<u8>,
    window_line: u8,
    scx: u8,
    scy: u8,
    lcdc: u8,
    stat: u8,
    ly: u8,
    lyc: u8,
    bgp: u8,
    obp0: u8,
    obp1: u8,
    wy: u8,
    wx: u8,
    vbk: u8,
    bgps: u8,
    bgpd: u8,
    obps: u8,
    obpd: u8,
    cgb_mode: DisplayMode,
    bgpalette: Vec<u8>,
    objpalette: Vec<u8>,
}

impl DispMem {
    /// Every memory has its hardware size.
    pub closed spec fn wf(&self) -> bool {
        &&& self.tiles@.len() == 2 * TILE_BANK_BYTES
        &&& self.map@.len() == 2 * BG_MAP_ENTRIES
        &&& self.flags@.len() == 2 * BG_MAP_ENTRIES
        &&& self.oam@.len() == OAM_BYTES
        &&& self.bgpalette@.len() == PALETTE_BYTES
        &&& self.objpalette@.len() == PALETTE_BYTES
    }

    pub closed spec fn spec_lcdc(&self) -> u8 {
        self.lcdc
    }

    pub closed spec fn spec_stat(&self) -> u8 {
        self.stat
    }

    pub closed spec fn spec_ly(&self) -> u8 {
        self.ly
    }

    pub closed spec fn spec_lyc(&self) -> u8 {
        self.lyc
    }

    pub closed spec fn spec_window_line(&self) -> u8 {
        self.window_line
    }

    pub closed spec fn spec_mode(&self) -> DisplayMode {
        self.cgb_mode
    }

    /// Colour palette memory for backgrounds and for sprites.
    pub closed spec fn spec_bg_palette(&self) -> Seq<u8> {
        self.bgpalette@
    }

    pub closed spec fn spec_obj_palette(&self) -> Seq<u8> {
        self.objpalette@
    }

    /// Bit 7 of LCDC switches the LCD on.
    pub open spec fn enabled(&self) -> bool {
        self.spec_lcdc() & 0x80 != 0
    }

    /// What a read of `addr` returns: the VRAM bank chosen by VBK for tiles
    /// and map attributes, the stored bytes elsewhere.
    pub closed spec fn spec_read(&self, addr: u16) -> u8 {
        let bank = (self.vbk & 1) as int;
        if 0x8000 <= addr <= 0x97ff {
            self.tiles@[bank * TILE_BANK_BYTES + (addr - 0x8000)]
        } else if 0x9800 <= addr <= 0x9fff {
            let i = (addr - 0x9800) as int;
            if bank == 0 {
                self.map@[i]
            } else {
                self.flags@[i]
            }
        } else if 0xfe00 <= addr <= 0xfe9f {
            self.oam@[addr - 0xfe00]
        } else if addr == LCDC_ADDR {
            self.lcdc
        } else if addr == STAT_ADDR {
            self.stat
        } else if addr == SCY_ADDR {
            self.scy
        } else if addr == SCX_ADDR {
            self.scx
        } else if addr == LY_ADDR {
            self.ly
        } else if addr == LYC_ADDR {
            self.lyc
        } else if addr == BGP_ADDR {
            self.bgp
        } else if addr == OBP0_ADDR {
            self.obp0
        } else if addr == OBP1_ADDR {
            self.obp1
        } else if addr == WY_ADDR {
            self.wy
        } else if addr == WX_ADDR {
            self.wx
        } else if addr == VBK_ADDR {
            self.vbk
        } else if addr == BGPS_ADDR {
            self.bgps
        } else if addr == BGPD_ADDR {
            self.bgpd
        } else if addr == OBPS_ADDR {
            self.obps
        } else {
            self.obpd
        }
    }

    fn new(cgb_mode: DisplayMode) -> (r: DispMem)
        ensures
            r.wf(),
            r.spec_mode() == cgb_mode,
            forall|a: u16| display_handles(a) ==> r.spec_read(a) == 0,
    {
        let tiles = vec![0u8; 12288];
        let map = vec![0u8; 2048];
        let flags = vec![0u8; 2048];
        let oam = vec![0u8; 160];
        assert(forall|i: int| 0 <= i < 12288 ==> tiles@[i] == 0);
        assert(forall|i: int| 0 <= i < 2048 ==> map@[i] == 0 && flags@[i] == 0);
        assert(forall|i: int| 0 <= i < 160 ==> oam@[i] == 0);
        assert(0u8 & 1u8 == 0) by {
            crate::bits::lemma_byte_masks();
        }
        DispMem {
            tiles,
            map,
            flags,
            oam,
            window_line: 0,
            scx: 0,
            scy: 0,
            lcdc: 0,
            stat: 0,
            ly: 0,
            lyc: 0,
            bgp: 0,
            obp0: 0,
            obp1: 0,
            wy: 0,
            wx: 0,
            vbk: 0,
            bgps: 0,
            bgpd: 0,
            obps: 0,
            obpd: 0,
            cgb_mode,
            bgpalette: vec![0u8; 64],
            objpalette: vec![0u8; 64],
        }
    }

    fn display_enabled(&self) -> (r: bool)
        ensures
            r == self.enabled(),
    {
        self.lcdc & 0x80 != 0
    }

    fn read_byte(&self, addr: u16) -> (r: u8)
        requires
            self.wf(),
            display_handles(addr),
        ensures
            r == self.spec_read(addr),
    {
        let vbk = self.vbk;
        assert(vbk & 1 <= 1) by {
            crate::bits::lemma_byte_masks();
        }
        let bank: usize = (vbk & 1) as usize;
        if 0x8000 <= addr && addr <= 0x97ff {
            self.tiles[bank * TILE_BANK_BYTES + (addr - 0x8000) as usize]
        } else if 0x9800 <= addr && addr <= 0x9fff {
            let i = (addr - 0x9800) as usize;
            if bank == 0 {
                self.map[i]
            } else {
                self.flags[i]
            }
        } else if 0xfe00 <= addr && addr <= 0xfe9f {
            self.oam[(addr - 0xfe00) as usize]
        } else if addr == LCDC_ADDR {
            self.lcdc
        } else if addr == STAT_ADDR {
            self.stat
        } else if addr == SCY_ADDR {
            self.scy
        } else if addr == SCX_ADDR {
            self.scx
        } else if addr == LY_ADDR {
            self.ly
        } else if addr == LYC_ADDR {
            self.lyc
        } else if addr == BGP_ADDR {
            self.bgp
        } else if addr == OBP0_ADDR {
            self.obp0
        } else if addr == OBP1_ADDR {
            self.obp1
        } else if addr == WY_ADDR {
            self.wy
        } else if addr == WX_ADDR {
            self.wx
        } else if addr == VBK_ADDR {
            self.vbk
        } else if addr == BGPS_ADDR {
            self.bgps
        } else if addr == BGPD_ADDR {
            self.bgpd
        } else if addr == OBPS_ADDR {
            self.obps
        } else {
            self.obpd
        }
    }

    /// Stores a data byte at the palette index of a control register, and
    /// returns the control register as it stands afterwards.
    /// `new` is `old` with entry bytes 0..n of `cols` stored from `start`.
    pub open spec fn palette_written(old: Seq<u8>, new: Seq<u8>, cols: [u8; 4], start: int, n: int) -> bool {
        &&& new.len() == PALETTE_BYTES
        &&& old.len() == PALETTE_BYTES
        &&& forall|k: int| 0 <= k < n ==> new[start + k] == entry_byte(cols, k)
        &&& forall|k: int| 0 <= k < PALETTE_BYTES && !(start <= k < start + n) ==> new[k] == old[k]
    }

    fn update_color_palette(palette: &mut Vec<u8>, control: u8, data: u8) -> (r: u8)
        requires
            old(palette)@.len() == PALETTE_BYTES,
        ensures
            control & 0x3f < 64,
            final(palette)@ == old(palette)@.update((control & 0x3f) as int, data),
            final(palette)@.len() == PALETTE_BYTES,
            r == advance_palette_control(control),
    {
        let idx = (control & 0x3f) as usize;
        assert(control & 0x3f < 64) by {
            crate::bits::lemma_byte_masks();
        }
        palette.set(idx, data);
        if control & 0x80 != 0 {
            assert((control & 0x3f) + 1 <= 64) by {
            crate::bits::lemma_byte_masks();
        }
            let count: u8 = ((control & 0x3f) + 1) % 64;
            (control & 0xc0) | count
        } else {
            control
        }
    }

    /// A write stores the byte where a read would find it; LY is read-only,
    /// and a write to a palette data register also advances its control
    /// register when auto-increment is on.
    fn write_byte(&mut self, addr: u16, v: u8)
        requires
            old(self).wf(),
            display_handles(addr),
        ensures
            final(self).wf(),
            final(self).cgb_mode == old(self).cgb_mode,
            final(self).window_line == old(self).window_line,
            final(self).ly == old(self).ly,
            addr != LY_ADDR ==> final(self).spec_read(addr) == v,
            addr == LY_ADDR ==> *final(self) == *old(self),
            addr == BGPD_ADDR ==> {
                &&& final(self).bgpalette@ == old(self).bgpalette@.update((old(self).bgps & 0x3f) as int, v)
                &&& final(self).bgps == advance_palette_control(old(self).bgps)
            },
            addr == OBPD_ADDR ==> {
                &&& final(self).objpalette@ == old(self).objpalette@.update((old(self).obps & 0x3f) as int, v)
                &&& final(self).obps == advance_palette_control(old(self).obps)
            },
            addr != BGPD_ADDR ==> final(self).bgpalette@ == old(self).bgpalette@,
            addr != OBPD_ADDR ==> final(self).objpalette@ == old(self).objpalette@,
            forall|a: u16|
                display_handles(a) && a != addr && a != BGPS_ADDR && a != OBPS_ADDR && !(addr
                    == VBK_ADDR && 0x8000 <= a <= 0x9fff) ==> #[trigger] final(self).spec_read(a)
                    == old(self).spec_read(a),
            addr != BGPD_ADDR && addr != BGPS_ADDR ==> final(self).bgps == old(self).bgps,
            addr != OBPD_ADDR && addr != OBPS_ADDR ==> final(self).obps == old(self).obps,
    {
        let vbk = self.vbk;
        assert(vbk & 1 <= 1) by {
            crate::bits::lemma_byte_masks();
        }
        let bank: usize = (vbk & 1) as usize;
        if 0x8000 <= addr && addr <= 0x97ff {
            self.tiles.set(bank * TILE_BANK_BYTES + (addr - 0x8000) as usize, v);
        } else if 0x9800 <= addr && addr <= 0x9fff {
            let i = (addr - 0x9800) as usize;
            if bank == 0 {
                self.map.set(i, v);
            } else {
                self.flags.set(i, v);
            }
        } else if 0xfe00 <= addr && addr <= 0xfe9f {
            self.oam.set((addr - 0xfe00) as usize, v);
        } else if addr == LCDC_ADDR {
            self.lcdc = v;
        } else if addr == STAT_ADDR {
            self.stat = v;
        } else if addr == SCY_ADDR {
            self.scy = v;
        } else if addr == SCX_ADDR {
            self.scx = v;
        } else if addr == LY_ADDR {
        } else if addr == LYC_ADDR {
            self.lyc = v;
        } else if addr == BGP_ADDR {
            self.bgp = v;
        } else if addr == OBP0_ADDR {
            self.obp0 = v;
        } else if addr == OBP1_ADDR {
            self.obp1 = v;
        } else if addr == WY_ADDR {
            self.wy = v;
        } else if addr == WX_ADDR {
            self.wx = v;
        } else if addr == VBK_ADDR {
            self.vbk = v;
        } else if addr == BGPS_ADDR {
            self.bgps = v;
        } else if addr == BGPD_ADDR {
            self.bgpd = v;
            let ctl = self.bgps;
            self.bgps = DispMem::update_color_palette(&mut self.bgpalette, ctl, v);
        } else if addr == OBPS_ADDR {
            self.obps = v;
        } else {
            self.obpd = v;
            let ctl = self.obps;
            self.obps = DispMem::update_color_palette(&mut self.objpalette, ctl, v);
        }
    }
}


/// The palette shade (0..3) of pixel `x` of a tile line: the bit of the
/// high byte gives bit 1, the bit of the low byte gives bit 0, leftmost
/// pixel first.
pub open spec fn spec_shade(line: u16, x: u16) -> u8 {
    (((line >> (15 - x) as u16) & 1) * 2 + ((line >> (7 - x) as u16) & 1)) as u8
}

/// The bits of a byte in reverse order.
pub open spec fn spec_reverse8(b: u8) -> u8 {
    ((b & 1) << 7u8) | ((b & 2) << 5u8) | ((b & 4) << 3u8) | ((b & 8) << 1u8) | ((b & 16) >> 1u8)
        | ((b & 32) >> 3u8) | ((b & 64) >> 5u8) | ((b & 128) >> 7u8)
}

/// The tile number a map entry selects: with LCDC bit 4 clear the entry is
/// signed and counts from tile 256.
pub open spec fn spec_tile_index(entry: u8, unsigned_select: bool) -> int {
    if unsigned_select {
        entry as int
    } else if entry < 128 {
        256 + entry
    } else {
        entry as int
    }
}

/// Tile addressing: with LCDC bit 4 set a map entry names tile `entry` of
/// the block at 0x8000; with it clear the entry is a signed number counted
/// from tile 256 (VRAM 0x9000), so the tile lies in 128..384 (VRAM
/// 0x8800..0x97FF) and agrees with the entry modulo 256.
pub proof fn law_tile_addressing(entry: u8)
    ensures
        spec_tile_index(entry, true) == entry,
        128 <= spec_tile_index(entry, false) < 384,
        spec_tile_index(entry, false) % 256 == entry,
        0x8000 + 16 * spec_tile_index(entry, false) == 0x9000 + 16 * (if entry < 128 { entry as int } else { entry - 256 }),
{
}

/// The 8-bit channel value of a 5-bit colour component.
pub open spec fn spec_expand5(c: u16) -> u8 {
    (((c << 3u16) | (c >> 2u16)) & 0xff) as u8
}

/// The RGBA colour of a little-endian 15-bit colour entry.
pub open spec fn spec_rgb(low: u8, high: u8) -> (u8, u8, u8, u8) {
    let v = (low as u16) | ((high as u16) << 8u16);
    (spec_expand5(v & 0x1f), spec_expand5((v >> 5u16) & 0x1f), spec_expand5((v >> 10u16) & 0x1f), 0xff)
}

/// Who owns a pixel: a sprite (its priority rank and whether it hides
/// behind the background) or the background (whether it is drawn over
/// sprites).
#[derive(PartialEq, Eq, Structural, Clone, Copy, Debug)]
pub enum Priority {
    Obj(usize, bool),
    BG(bool),
}

/// Where a pixel's colour comes from.
#[derive(PartialEq, Eq, Structural, Clone, Copy, Debug)]
pub enum Palette {
    Blank,
    BG,
    OBP0,
    OBP1,
    BGColor(u8),
    OBPColor(u8),
}

/// A pixel waiting in the shift register: owner, palette and shade (0..3).
#[derive(PartialEq, Eq, Structural, Clone, Copy, Debug)]
pub struct Pixel {
    pub priority: Priority,
    pub palette: Palette,
    pub shade: u8,
}

/// One sprite's four bytes of OAM.
#[derive(PartialEq, Eq, Structural, Clone, Copy, Debug)]
pub struct SpriteAttribute {
    pub y: u8,
    pub x: u8,
    pub pattern: u8,
    pub flags: u8,
}

/// A tile line to fetch: a background or window map entry with its
/// attribute byte and the line within the tile, or a sprite with its
/// priority rank and line.
#[derive(Clone, Copy)]
pub enum Tile {
    BG(u8, u8, u8),
    Window(u8, u8, u8),
    Sprite(usize, SpriteAttribute, u8),
}

/// Whether a sprite pixel replaces what the shift register holds.
pub open spec fn spec_overwrite(old: Pixel, new: Priority) -> bool {
    match (old.priority, new) {
        (Priority::BG(true), Priority::Obj(_, _)) => old.shade == 0,
        (Priority::BG(false), Priority::Obj(_, behind)) => old.shade == 0 || !behind,
        (Priority::Obj(p1, _), Priority::Obj(p2, _)) => p1 > p2,
        (_, _) => false,
    }
}

pub open spec fn is_sprite_palette(p: Palette) -> bool {
    match p {
        Palette::OBP0 | Palette::OBP1 | Palette::OBPColor(_) => true,
        _ => false,
    }
}

/// The shift register after loading a fetched tile line: background pixels
/// are appended; sprite pixels that are not transparent replace the first
/// eight pixels where the priority rules allow.
pub open spec fn spec_load(shift: Seq<Pixel>, priority: Priority, palette: Palette, line: u16) -> Seq<Pixel> {
    if is_sprite_palette(palette) {
        Seq::new(
            shift.len(),
            |i: int|
                if i < 8 && spec_shade(line, i as u16) != 0 && spec_overwrite(shift[i], priority) {
                    Pixel { priority, palette, shade: spec_shade(line, i as u16) }
                } else {
                    shift[i]
                },
        )
    } else {
        shift + Seq::new(8, |i: int| Pixel { priority, palette, shade: spec_shade(line, i as u16) })
    }
}

/// The pixel shift register.
pub struct PPU {
    shift: Vec<Pixel>,
}

impl PPU {
    pub closed spec fn pixels(&self) -> Seq<Pixel> {
        self.shift@
    }

    pub fn new() -> (r: PPU)
        ensures
            r.pixels() == Seq::<Pixel>::empty(),
    {
        PPU { shift: Vec::new() }
    }

    /// Shade of pixel `x` (0 = leftmost) of a tile line.
    pub fn line_palette(line: u16, x: u16) -> (r: u8)
        requires
            x < 8,
        ensures
            r == spec_shade(line, x),
            r < 4,
    {
        let hi: u16 = 0x8000;
        let lo: u16 = 0x0080;
        let t = (((line << x) & hi) >> 14u16) | (((line << x) & lo) >> 7u16);
        assert((((line << x) & 0x8000u16) >> 14u16) | (((line << x) & 0x80u16) >> 7u16) == (((line
            >> (15 - x) as u16) & 1) * 2 + ((line >> (7 - x) as u16) & 1)) as u16) by (bit_vector)
            requires
                x < 8,
        ;
        assert((((line >> (15 - x) as u16) & 1) * 2 + ((line >> (7 - x) as u16) & 1)) < 4) by (bit_vector);
        t as u8
    }

    fn load(&mut self, priority: Priority, palette: Palette, line: u16)
        requires
            is_sprite_palette(palette) ==> old(self).pixels().len() >= 8,
            old(self).pixels().len() <= 64,
        ensures
            final(self).pixels() == spec_load(old(self).pixels(), priority, palette, line),
    {
        let ghost orig = self.shift@;
        if is_sprite(palette) {
            let mut x: u16 = 0;
            while x < 8
                invariant
                    0 <= x <= 8,
                    orig.len() >= 8,
                    self.shift@.len() == orig.len(),
                    is_sprite_palette(palette),
                    forall|i: int|
                        0 <= i < orig.len() ==> #[trigger] self.shift@[i] == (if i < x && spec_shade(
                            line,
                            i as u16,
                        ) != 0 && spec_overwrite(orig[i], priority) {
                            Pixel { priority, palette, shade: spec_shade(line, i as u16) }
                        } else {
                            orig[i]
                        }),
                decreases 8 - x,
            {
                let p = PPU::line_palette(line, x);
                if p != 0 {
                    let old_px = self.shift[x as usize];
                    if PPU::overwrite(old_px, priority) {
                        self.shift.set(x as usize, Pixel { priority, palette, shade: p });
                    }
                }
                x = x + 1;
            }
            assert(self.shift@ =~= spec_load(orig, priority, palette, line));
        } else {
            let mut x: u16 = 0;
            while x < 8
                invariant
                    0 <= x <= 8,
                    !is_sprite_palette(palette),
                    self.shift@ =~= orig + Seq::new(
                        x as nat,
                        |i: int| Pixel { priority, palette, shade: spec_shade(line, i as u16) },
                    ),
                decreases 8 - x,
            {
                let p = PPU::line_palette(line, x);
                self.shift.push(Pixel { priority, palette, shade: p });
                x = x + 1;
            }
            assert(self.shift@ =~= spec_load(orig, priority, palette, line));
        }
    }

    fn overwrite(old: Pixel, new: Priority) -> (r: bool)
        ensures
            r == spec_overwrite(old, new),
    {
        match (old.priority, new) {
            (Priority::BG(true), Priority::Obj(_, _)) => old.shade == 0,
            (Priority::BG(false), Priority::Obj(_, behind)) => old.shade == 0 || !behind,
            (Priority::Obj(p1, _), Priority::Obj(p2, _)) => p1 > p2,
            (_, _) => false,
        }
    }

    /// Takes the leftmost pixel out.
    fn shift(&mut self) -> (r: Pixel)
        requires
            old(self).pixels().len() > 0,
        ensures
            r == old(self).pixels()[0],
            final(self).pixels() == old(self).pixels().drop_first(),
    {
        let r = self.shift.remove(0);
        assert(self.shift@ =~= old(self).shift@.drop_first());
        r
    }

    /// Fewer than nine pixels are queued: time to fetch another tile line.
    fn need_data(&self) -> (r: bool)
        ensures
            r == (self.pixels().len() <= 8),
    {
        self.shift.len() <= 8
    }

    fn clear(&mut self)
        ensures
            final(self).pixels() == Seq::<Pixel>::empty(),
    {
        self.shift.clear();
    }
}

fn is_sprite(p: Palette) -> (r: bool)
    ensures
        r == is_sprite_palette(p),
{
    match p {
        Palette::OBP0 | Palette::OBP1 | Palette::OBPColor(_) => true,
        _ => false,
    }
}

/// Reverses the bit order of a byte (a horizontally flipped tile line).
pub fn reverse8(b: u8) -> (r: u8)
    ensures
        r == spec_reverse8(b),
{
    ((b & 1) << 7u8) | ((b & 2) << 5u8) | ((b & 4) << 3u8) | ((b & 8) << 1u8) | ((b & 16) >> 1u8) | ((b
        & 32) >> 3u8) | ((b & 64) >> 5u8) | ((b & 128) >> 7u8)
}

/// The tile number selected by a map entry (LCDC bit 4 picks unsigned
/// numbering from tile 0, otherwise signed numbering around tile 256).
pub fn get_idx(entry: u8, unsigned_select: bool) -> (r: usize)
    ensures
        r == spec_tile_index(entry, unsigned_select),
        r < 384,
{
    if unsigned_select {
        entry as usize
    } else if entry < 128 {
        256 + entry as usize
    } else {
        entry as usize
    }
}


/// The colour of a shade through a classic palette register: bits
/// 2*shade..2*shade+1 pick the colour number.
pub open spec fn spec_palette_pick(pal: u8, shade: u8) -> u8 {
    (pal >> (shade * 2) as u8) & 3
}

/// The four classic grey levels, lightest first.
pub open spec fn spec_grey(n: u8) -> (u8, u8, u8, u8) {
    if n == 0 {
        (0xff, 0xff, 0xff, 0xff)
    } else if n == 1 {
        (0xaa, 0xaa, 0xaa, 0xff)
    } else if n == 2 {
        (0x55, 0x55, 0x55, 0xff)
    } else {
        (0x00, 0x00, 0x00, 0xff)
    }
}

/// A tile line as stored (low plane in the low byte), mirrored when
/// flipped horizontally.
pub open spec fn spec_line(b0: u8, b1: u8, flip_x: bool) -> u16 {
    if flip_x {
        (spec_reverse8(b0) as u16) | ((spec_reverse8(b1) as u16) << 8u16)
    } else {
        (b0 as u16) | ((b1 as u16) << 8u16)
    }
}

impl DispMem {
    pub open spec fn spec_sprite_size(&self) -> u8 {
        if self.spec_lcdc() & 4 != 0 {
            16
        } else {
            8
        }
    }

    pub closed spec fn spec_tiles(&self) -> Seq<u8> {
        self.tiles@
    }

    pub closed spec fn spec_map(&self) -> Seq<u8> {
        self.map@
    }

    pub closed spec fn spec_flags(&self) -> Seq<u8> {
        self.flags@
    }

    pub closed spec fn spec_oam(&self) -> Seq<u8> {
        self.oam@
    }

    /// Byte offset within a VRAM bank, VRAM bank and horizontal flip of the
    /// line a tile fetch reads.
    pub open spec fn spec_fetch_place(&self, t: Tile) -> (int, int, bool) {
        match t {
            Tile::BG(entry, flags, y) | Tile::Window(entry, flags, y) => {
                let yy = if flags & 0x40 != 0 { 15 - y } else { y as int };
                (
                    spec_tile_index(entry, self.spec_lcdc() & 0x10 != 0) * 16 + (yy % 8) * 2,
                    ((flags >> 3u8) & 1) as int,
                    flags & 0x20 != 0,
                )
            },
            Tile::Sprite(_, oam, y) => {
                let size = self.spec_sprite_size();
                let idx = if size == 16 { oam.pattern >> 1u8 } else { oam.pattern };
                let yy = if oam.flags & 0x40 != 0 { ((size - 1 - y) % 256) as int } else { y as int };
                (idx * 2 * size + yy * 2, ((oam.flags >> 3u8) & 1) as int, oam.flags & 0x20 != 0)
            },
        }
    }

    /// The owner and palette of the pixels a tile fetch produces.
    pub open spec fn spec_fetch_attrs(&self, t: Tile) -> (Priority, Palette) {
        let gbc = self.spec_mode() == DisplayMode::CGB;
        match t {
            Tile::Sprite(p, oam, _) => (
                Priority::Obj(p, oam.flags & 0x80 != 0),
                if gbc {
                    Palette::OBPColor(oam.flags & 7)
                } else if oam.flags & 0x10 == 0 {
                    Palette::OBP0
                } else {
                    Palette::OBP1
                },
            ),
            Tile::BG(_, flags, _) | Tile::Window(_, flags, _) => if gbc {
                (
                    Priority::BG(self.spec_lcdc() & 1 != 0 && flags & 0x80 != 0),
                    Palette::BGColor(flags & 7),
                )
            } else if self.spec_lcdc() & 1 != 0 {
                (Priority::BG(false), Palette::BG)
            } else {
                (Priority::BG(false), Palette::Blank)
            },
        }
    }

    /// The tile line a fetch reads.
    pub open spec fn spec_fetch_line(&self, t: Tile) -> u16 {
        let (offset, bank, flip_x) = self.spec_fetch_place(t);
        spec_line(
            self.spec_tiles()[bank * TILE_BANK_BYTES + offset],
            self.spec_tiles()[bank * TILE_BANK_BYTES + offset + 1],
            flip_x,
        )
    }

    /// Two bytes of palette memory as a colour.
    pub open spec fn spec_palette_color(pal: Seq<u8>, num: int, idx: int) -> (u8, u8, u8, u8) {
        spec_rgb(pal[(num * 4 + idx) * 2], pal[(num * 4 + idx) * 2 + 1])
    }

    /// The screen colour of a pixel: white while the LCD is off or for
    /// blank pixels; classic palettes give greys, or colour palette 0/1
    /// when the colour hardware is in use; colour palettes index palette
    /// memory directly.
    pub open spec fn spec_shade_color(&self, p: Pixel) -> (u8, u8, u8, u8) {
        let white = (0xffu8, 0xffu8, 0xffu8, 0xffu8);
        if !self.enabled() {
            white
        } else {
            match p.palette {
                Palette::Blank => white,
                Palette::BG | Palette::OBP0 | Palette::OBP1 => {
                    let pal = match p.palette {
                        Palette::BG => self.spec_read(BGP_ADDR),
                        Palette::OBP0 => self.spec_read(OBP0_ADDR),
                        _ => self.spec_read(OBP1_ADDR),
                    };
                    let n = spec_palette_pick(pal, p.shade);
                    if self.spec_mode() == DisplayMode::StrictGB {
                        spec_grey(n)
                    } else {
                        match p.palette {
                            Palette::BG => DispMem::spec_palette_color(self.spec_bg_palette(), 0, n as int),
                            Palette::OBP0 => DispMem::spec_palette_color(self.spec_obj_palette(), 0, n as int),
                            _ => DispMem::spec_palette_color(self.spec_obj_palette(), 1, n as int),
                        }
                    }
                },
                Palette::BGColor(i) => DispMem::spec_palette_color(self.spec_bg_palette(), i as int, p.shade as int),
                Palette::OBPColor(i) => DispMem::spec_palette_color(self.spec_obj_palette(), i as int, p.shade as int),
            }
        }
    }

    fn sprite_size(&self) -> (r: u8)
        ensures
            r == self.spec_sprite_size(),
    {
        if self.lcdc & 4 != 0 {
            16
        } else {
            8
        }
    }

    /// A screen position shifted by the background scroll, wrapping.
    fn get_bg_true(&self, x: u8, y: u8) -> (r: (u8, u8))
        ensures
            r == (((self.scx + x) % 256) as u8, ((self.scy + y) % 256) as u8),
    {
        (self.scx.wrapping_add(x), self.scy.wrapping_add(y))
    }

    /// The background map entry and attributes at tile position (x, y) of
    /// the map LCDC bit 3 selects; attributes only exist in colour mode.
    fn get_bg_tile(&self, tx: u8, ty: u8) -> (r: (u8, u8))
        requires
            self.wf(),
            tx < 32,
            ty < 32,
        ensures
            ({
                let base = if self.lcdc & 8 != 0 { BG_MAP_ENTRIES as int } else { 0 };
                let i = base + ty * 32 + tx;
                r == (self.map@[i], if self.cgb_mode == DisplayMode::CGB { self.flags@[i] } else { 0u8 })
            }),
    {
        let base: usize = if self.lcdc & 8 != 0 { BG_MAP_ENTRIES } else { 0 };
        let i = base + ty as usize * 32 + tx as usize;
        let flags = if self.cgb_mode == DisplayMode::CGB { self.flags[i] } else { 0 };
        (self.map[i], flags)
    }

    /// The background tile line under screen position (x, y): the map
    /// entry (LCDC bit 3 picks the map) at the scrolled position, its
    /// attributes in colour mode, and the line within the tile.
    pub closed spec fn spec_screen_bg_tile(&self, x: u8, y: u8) -> Tile {
        self.bg_map_tile(((self.scx + x) % 256) as u8, ((self.scy + y) % 256) as u8)
    }

    /// The tile line of the background map (LCDC bit 3 picks the map)
    /// under pixel (tx, ty) of the 256 x 256 background.
    pub closed spec fn bg_map_tile(&self, tx: u8, ty: u8) -> Tile {
        let base = if self.lcdc & 8 != 0 { BG_MAP_ENTRIES as int } else { 0 };
        let i = base + (ty / 8) * 32 + tx / 8;
        Tile::BG(self.map@[i], if self.cgb_mode == DisplayMode::CGB { self.flags@[i] } else { 0u8 }, ty % 8)
    }

    pub closed spec fn spec_scx(&self) -> u8 {
        self.scx
    }

    pub closed spec fn spec_scy(&self) -> u8 {
        self.scy
    }

    /// Background pixels in the same 8-pixel column share a tile line.
    pub proof fn lemma_bg_map_tile_column(&self, a: u8, b: u8, ty: u8)
        requires
            a / 8 == b / 8,
        ensures
            self.bg_map_tile(a, ty) == self.bg_map_tile(b, ty),
    {
    }

    /// The fine scroll is SCX modulo 8.
    pub proof fn lemma_fine_x(&self)
        ensures
            self.spec_fine_x() == self.spec_scx() % 8,
    {
    }

    /// The screen's background tile is the map's under the scrolled pixel.
    pub proof fn lemma_screen_bg_tile(&self, x: u8, y: u8)
        ensures
            self.spec_screen_bg_tile(x, y) == self.bg_map_tile(((self.spec_scx() + x) % 256) as u8, ((self.spec_scy() + y) % 256) as u8),
    {
    }

    /// The window tile line under screen column x on the current window
    /// line (LCDC bit 6 picks the map), the window starting at WX - 7.
    pub closed spec fn spec_win_tile(&self, x: u8) -> Tile {
        let wx = ((x - ((self.wx + 249) % 256) + 256) % 256) as u8;
        let base = if self.lcdc & 0x40 != 0 { BG_MAP_ENTRIES as int } else { 0 };
        let i = base + (self.window_line / 8) * 32 + wx / 8;
        Tile::Window(self.map@[i], if self.cgb_mode == DisplayMode::CGB { self.flags@[i] } else { 0u8 }, self.window_line % 8)
    }

    /// The first screen column of the window on the current line: WX - 7
    /// (WX below 7 counting as 7) when the window is on and WY has been
    /// reached, else 160 (no window).
    pub closed spec fn spec_bg_split(&self) -> int {
        if self.lcdc & 0x20 != 0 && self.ly >= self.wy {
            let w = if self.wx > 7 { self.wx } else { 7 };
            if w - 7 < 160 { w - 7 } else { 160 }
        } else {
            160
        }
    }

    /// The fine horizontal scroll: SCX modulo 8.
    pub closed spec fn spec_fine_x(&self) -> int {
        (self.scx % 8) as int
    }

    /// The background tile line under screen position (x, y).
    #[verifier::spinoff_prover]
    fn get_screen_bg_tile(&self, x: u8, y: u8) -> (r: Tile)
        requires
            self.wf(),
        ensures
            r == self.spec_screen_bg_tile(x, y),
            ({
                let tx = ((self.scx + x) % 256) as u8;
                let ty = ((self.scy + y) % 256) as u8;
                let base = if self.lcdc & 8 != 0 { BG_MAP_ENTRIES as int } else { 0 };
                let i = base + (ty / 8) * 32 + tx / 8;
                r == Tile::BG(
                    self.map@[i],
                    if self.cgb_mode == DisplayMode::CGB { self.flags@[i] } else { 0u8 },
                    ty % 8,
                )
            }),
            match r {
                Tile::BG(_, _, line) => line < 8,
                _ => false,
            },
    {
        let (true_x, true_y) = self.get_bg_true(x, y);
        let (entry, flags) = self.get_bg_tile(true_x / 8, true_y / 8);
        Tile::BG(entry, flags, true_y % 8)
    }

    /// The window tile line under screen column x, on the current window
    /// line, from the map LCDC bit 6 selects.
    #[verifier::spinoff_prover]
    #[verifier::rlimit(40)]
    fn get_win_tile(&self, x: u8) -> (r: Tile)
        requires
            self.wf(),
        ensures
            r == self.spec_win_tile(x),
            ({
                let wx = ((x - ((self.wx + 249) % 256) + 256) % 256) as u8;
                let base = if self.lcdc & 0x40 != 0 { BG_MAP_ENTRIES as int } else { 0 };
                let i = base + (self.window_line / 8) * 32 + wx / 8;
                r == Tile::Window(
                    self.map@[i],
                    if self.cgb_mode == DisplayMode::CGB { self.flags@[i] } else { 0u8 },
                    self.window_line % 8,
                )
            }),
            match r {
                Tile::Window(_, _, line) => line < 8,
                _ => false,
            },
    {
        let x = x.wrapping_sub(self.wx.wrapping_sub(7));
        let y = self.window_line;
        let base: usize = if self.lcdc & 0x40 != 0 { BG_MAP_ENTRIES } else { 0 };
        let i = base + (y as usize / 8) * 32 + (x as usize / 8);
        let flags = if self.cgb_mode == DisplayMode::CGB { self.flags[i] } else { 0 };
        Tile::Window(self.map[i], flags, y % 8)
    }

    /// Reads the two bytes of a tile line and the owner and palette of its
    /// pixels.
    #[verifier::spinoff_prover]
    #[verifier::rlimit(40)]
    fn fetch(&self, t: Tile) -> (r: (Priority, Palette, u16))
        requires
            self.wf(),
            match t {
                Tile::BG(_, _, y) | Tile::Window(_, _, y) => y < 8,
                Tile::Sprite(_, _, _) => true,
            },
        ensures
            (r.0, r.1) == self.spec_fetch_attrs(t),
            r.2 == self.spec_fetch_line(t),
    {
        let (offset, bank, flip_x): (usize, usize, bool) = match t {
            Tile::BG(entry, flags, y) | Tile::Window(entry, flags, y) => {
                let yy: u8 = if flags & 0x40 != 0 { 15 - y } else { y };
                let idx = get_idx(entry, self.lcdc & 0x10 != 0);
                assert((flags >> 3u8) & 1 <= 1) by {
            crate::bits::lemma_byte_masks();
        }
                (idx * 16 + (yy % 8) as usize * 2, ((flags >> 3u8) & 1) as usize, flags & 0x20 != 0)
            },
            Tile::Sprite(_, oam, y) => {
                let size = self.sprite_size();
                let pattern = oam.pattern;
                let idx = if size == 16 { pattern >> 1u8 } else { pattern };
                assert(pattern >> 1u8 <= 127) by {
            crate::bits::lemma_byte_masks();
        }
                let yy: u8 = if oam.flags & 0x40 != 0 { (size - 1).wrapping_sub(y) } else { y };
                let f = oam.flags;
                assert((f >> 3u8) & 1 <= 1) by {
            crate::bits::lemma_byte_masks();
        }
                let base: usize = if size == 16 { idx as usize * 32 } else { idx as usize * 16 };
                (base + yy as usize * 2, ((f >> 3u8) & 1) as usize, f & 0x20 != 0)
            },
        };
        let b0 = self.tiles[bank * TILE_BANK_BYTES + offset];
        let b1 = self.tiles[bank * TILE_BANK_BYTES + offset + 1];
        let line: u16 = if flip_x {
            (reverse8(b0) as u16) | ((reverse8(b1) as u16) << 8u16)
        } else {
            (b0 as u16) | ((b1 as u16) << 8u16)
        };
        let gbc = self.cgb_mode == DisplayMode::CGB;
        let (priority, palette) = match t {
            Tile::Sprite(p, oam, _) => (
                Priority::Obj(p, oam.flags & 0x80 != 0),
                if gbc {
                    Palette::OBPColor(oam.flags & 7)
                } else if oam.flags & 0x10 == 0 {
                    Palette::OBP0
                } else {
                    Palette::OBP1
                },
            ),
            Tile::BG(_, flags, _) | Tile::Window(_, flags, _) => if gbc {
                (Priority::BG(self.lcdc & 1 != 0 && flags & 0x80 != 0), Palette::BGColor(flags & 7))
            } else if self.lcdc & 1 != 0 {
                (Priority::BG(false), Palette::BG)
            } else {
                (Priority::BG(false), Palette::Blank)
            },
        };
        (priority, palette, line)
    }

    fn rgb(low: u8, high: u8) -> (r: (u8, u8, u8, u8))
        ensures
            r == spec_rgb(low, high),
    {
        let v: u16 = (low as u16) | ((high as u16) << 8u16);
        let r5 = v & 0x1f;
        let g5 = (v >> 5u16) & 0x1f;
        let b5 = (v >> 10u16) & 0x1f;
        (
            (((r5 << 3u16) | (r5 >> 2u16)) & 0xff) as u8,
            (((g5 << 3u16) | (g5 >> 2u16)) & 0xff) as u8,
            (((b5 << 3u16) | (b5 >> 2u16)) & 0xff) as u8,
            0xff,
        )
    }

    fn palette_color(pal: &Vec<u8>, num: u8, idx: u8) -> (r: (u8, u8, u8, u8))
        requires
            pal@.len() == PALETTE_BYTES,
            num < 8,
            idx < 4,
        ensures
            r == DispMem::spec_palette_color(pal@, num as int, idx as int),
    {
        let i = (num as usize * 4 + idx as usize) * 2;
        DispMem::rgb(pal[i], pal[i + 1])
    }

    /// The screen colour of a pixel.
    fn bgp_shade(&self, p: Pixel) -> (r: (u8, u8, u8, u8))
        requires
            self.wf(),
            p.shade < 4,
            match p.palette {
                Palette::BGColor(i) | Palette::OBPColor(i) => i < 8,
                _ => true,
            },
        ensures
            r == self.spec_shade_color(p),
    {
        let white = (0xffu8, 0xffu8, 0xffu8, 0xffu8);
        if !self.display_enabled() {
            return white;
        }
        match p.palette {
            Palette::Blank => white,
            Palette::BG | Palette::OBP0 | Palette::OBP1 => {
                let pal = match p.palette {
                    Palette::BG => self.bgp,
                    Palette::OBP0 => self.obp0,
                    _ => self.obp1,
                };
                let sh = p.shade;
                let n = (pal >> (sh * 2)) & 3;
                assert((pal >> (sh * 2) as u8) & 3 < 4) by (bit_vector);
                if self.cgb_mode == DisplayMode::StrictGB {
                    if n == 0 {
                        (0xff, 0xff, 0xff, 0xff)
                    } else if n == 1 {
                        (0xaa, 0xaa, 0xaa, 0xff)
                    } else if n == 2 {
                        (0x55, 0x55, 0x55, 0xff)
                    } else {
                        (0x00, 0x00, 0x00, 0xff)
                    }
                } else {
                    match p.palette {
                        Palette::BG => DispMem::palette_color(&self.bgpalette, 0, n),
                        Palette::OBP0 => DispMem::palette_color(&self.objpalette, 0, n),
                        _ => DispMem::palette_color(&self.objpalette, 1, n),
                    }
                }
            },
            Palette::BGColor(i) => DispMem::palette_color(&self.bgpalette, i, p.shade),
            Palette::OBPColor(i) => DispMem::palette_color(&self.objpalette, i, p.shade),
        }
    }
}


/// Whether a pixel can be coloured: a shade of 0..3 and a colour palette
/// number of 0..7.
pub open spec fn pixel_ok(p: Pixel) -> bool {
    &&& p.shade < 4
    &&& match p.palette {
        Palette::BGColor(i) | Palette::OBPColor(i) => i < 8,
        _ => true,
    }
}

pub open spec fn pixels_ok(s: Seq<Pixel>) -> bool {
    forall|i: int| 0 <= i < s.len() ==> pixel_ok(#[trigger] s[i])
}

pub proof fn lemma_shade_small(line: u16, x: u16)
    requires
        x < 8,
    ensures
        spec_shade(line, x) < 4,
{
    assert((((line >> (15 - x) as u16) & 1) * 2 + ((line >> (7 - x) as u16) & 1)) < 4) by (bit_vector);
}

proof fn lemma_load_ok(shift: Seq<Pixel>, priority: Priority, palette: Palette, line: u16)
    requires
        pixels_ok(shift),
        match palette {
            Palette::BGColor(i) | Palette::OBPColor(i) => i < 8,
            _ => true,
        },
    ensures
        pixels_ok(spec_load(shift, priority, palette, line)),
        spec_load(shift, priority, palette, line).len() == shift.len() + (if is_sprite_palette(
            palette,
        ) {
            0int
        } else {
            8
        }),
{
    let r = spec_load(shift, priority, palette, line);
    assert forall|i: int| 0 <= i < r.len() implies pixel_ok(#[trigger] r[i]) by {
        if is_sprite_palette(palette) {
            if i < 8 {
                lemma_shade_small(line, i as u16);
            }
        } else if i >= shift.len() {
            lemma_shade_small(line, (i - shift.len()) as u16);
        }
    }
}

proof fn lemma_fetch_palette_ok(mem: DispMem, t: Tile)
    ensures
        match mem.spec_fetch_attrs(t).1 {
            Palette::BGColor(i) | Palette::OBPColor(i) => i < 8,
            _ => true,
        },
{
    match t {
        Tile::Sprite(_, oam, _) => {
            let f = oam.flags;
            assert(f & 7 < 8) by {
            crate::bits::lemma_byte_masks();
        }
        },
        Tile::BG(_, f, _) | Tile::Window(_, f, _) => {
            assert(f & 7 < 8) by {
            crate::bits::lemma_byte_masks();
        }
        },
    }
}

/// A pixel of the tile line fetched for `t`: the fetch's owner and
/// palette, and the shade of column `j` of the line.
pub open spec fn tile_pixel(mem: DispMem, t: Tile, j: int) -> Pixel {
    Pixel {
        priority: mem.spec_fetch_attrs(t).0,
        palette: mem.spec_fetch_attrs(t).1,
        shade: spec_shade(mem.spec_fetch_line(t), j as u16),
    }
}

/// The background (or window) tile a line segment fetches when its column
/// counter is `x`.
pub open spec fn seg_tile(mem: DispMem, window: bool, x: int) -> Tile {
    if window {
        mem.spec_win_tile(x as u8)
    } else {
        mem.spec_screen_bg_tile(x as u8, mem.spec_ly())
    }
}

/// The column counter at which a segment starting at `start`, with `bo`
/// pixels of fine scroll, fetches its `k`-th tile.
pub open spec fn load_x(start: int, bo: int, k: int) -> int {
    if k == 0 {
        start
    } else {
        start + 8 * k - bo
    }
}

/// The `p`-th background pixel of a segment: first the 8 - `bo` pixels
/// left of a dummy fetch, then the tiles fetched at `load_x`, 8 pixels each.
pub open spec fn seg_base(mem: DispMem, window: bool, bo: int, start: int, p: int) -> Pixel {
    if p < 8 - bo {
        tile_pixel(mem, Tile::BG(0, 0, 0), bo + p)
    } else {
        let q = p - (8 - bo);
        tile_pixel(mem, seg_tile(mem, window, load_x(start, bo, q / 8)), q % 8)
    }
}

/// The sprite tile line a selected sprite shows on the current line.
pub open spec fn sprite_tile(mem: DispMem, o: (usize, SpriteAttribute)) -> Tile {
    Tile::Sprite(o.0, o.1, ((mem.spec_ly() + 16 - o.1.y) % 256) as u8)
}

/// Sprites sorted by column.
pub open spec fn sorted_by_x(oams: Seq<(usize, SpriteAttribute)>) -> bool {
    forall|i: int, j: int| 0 <= i <= j < oams.len() ==> oams[i].1.x <= oams[j].1.x
}

/// The `p`-th pixel of a segment drawn over columns `start..end` once the
/// first `k` sprites are laid over the background: a sprite at column
/// counter `x` (within `start..end + 8`) covers pixels `x - start` to
/// `x - start + 7`, its non-transparent pixels replacing what is there
/// where the priority rules allow.
pub open spec fn seg_pixel(
    mem: DispMem,
    oams: Seq<(usize, SpriteAttribute)>,
    window: bool,
    bo: int,
    start: int,
    end: int,
    k: nat,
    p: int,
) -> Pixel
    decreases k,
{
    if k == 0 {
        seg_base(mem, window, bo, start, p)
    } else {
        let prev = seg_pixel(mem, oams, window, bo, start, end, (k - 1) as nat, p);
        let o = oams[k - 1];
        let ox = o.1.x as int;
        let i = p - (ox - start);
        let t = sprite_tile(mem, o);
        let sh = spec_shade(mem.spec_fetch_line(t), i as u16);
        if start <= ox < end + 8 && 0 <= i < 8 && sh != 0 && spec_overwrite(prev, mem.spec_fetch_attrs(t).0) {
            Pixel { priority: mem.spec_fetch_attrs(t).0, palette: mem.spec_fetch_attrs(t).1, shade: sh }
        } else {
            prev
        }
    }
}

/// The pixel drawn at screen column `c` of the current line: the
/// background left of the window's column (scrolled by SCX/SCY), the window
/// from there, with the line's sprites laid over both.
pub open spec fn line_pixel(mem: DispMem, oams: Seq<(usize, SpriteAttribute)>, c: int) -> Pixel {
    let split = mem.spec_bg_split();
    if c < split {
        seg_pixel(mem, oams, false, mem.spec_fine_x(), 0, split, oams.len(), c + 8)
    } else {
        seg_pixel(mem, oams, true, 0, split, 160, oams.len(), c + 8 - split)
    }
}

/// Arithmetic behind the scroll law: moving within an 8-pixel column
/// keeps the column, modulo the 256-pixel background.
proof fn lemma_column_mod(m: int, j: int)
    requires
        m >= 0,
        0 <= j < 8,
    ensures
        ((8 * m) % 256) / 8 == ((8 * m + j) % 256) / 8,
        (8 * m + j) % 8 == j,
{
    assert(((8 * m) % 256) / 8 == ((8 * m + j) % 256) / 8 && (8 * m + j) % 8 == j) by (nonlinear_arith)
        requires
            m >= 0,
            0 <= j < 8,
    ;
}

/// Without sprites, screen column `c` left of the window shows pixel
/// (SCX + c) mod 8 of the background map's tile under background pixel
/// (SCX + c, SCY + LY), both wrapping at 256.
#[verifier::spinoff_prover]
pub proof fn law_background_scroll(mem: DispMem, c: int)
    requires
        0 <= c < mem.spec_bg_split(),
    ensures
        line_pixel(mem, Seq::empty(), c) == tile_pixel(
            mem,
            mem.bg_map_tile(((mem.spec_scx() + c) % 256) as u8, ((mem.spec_scy() + mem.spec_ly()) % 256) as u8),
            (mem.spec_scx() + c) % 8,
        ),
{
    mem.lemma_fine_x();
    let sx = mem.spec_scx() as int;
    let bo = sx % 8;
    let a = sx / 8;
    let q = c + bo;
    let k = q / 8;
    let j = q % 8;
    let x = load_x(0, bo, k);
    let ty = ((mem.spec_scy() + mem.spec_ly()) % 256) as u8;
    assert(sx == 8 * a + bo);
    assert(q == 8 * k + j);
    assert(seg_pixel(mem, Seq::empty(), false, bo, 0, mem.spec_bg_split(), 0, c + 8) == seg_base(mem, false, bo, 0, c + 8));
    assert(c + 8 - (8 - bo) == q);
    if k == 0 {
        assert(x == 0);
        lemma_column_mod(a, bo);
        lemma_column_mod(a, j);
        assert(sx + c == 8 * a + j);
    } else {
        assert(x == 8 * k - bo);
        assert(sx + x == 8 * (a + k));
        assert(sx + c == 8 * (a + k) + j);
        lemma_column_mod(a + k, 0);
        lemma_column_mod(a + k, j);
    }
    assert(0 <= x < 256);
    mem.lemma_screen_bg_tile(x as u8, mem.spec_ly());
    assert((sx + c) % 8 == j);
    mem.lemma_bg_map_tile_column(((sx + x) % 256) as u8, ((sx + c) % 256) as u8, ty);
}

/// The shift register after the sprites `from..to` that start at column
/// counter `x` are loaded into it, in order.
pub open spec fn sprites_loaded(
    mem: DispMem,
    fifo: Seq<Pixel>,
    oams: Seq<(usize, SpriteAttribute)>,
    from: int,
    to: int,
    x: int,
) -> Seq<Pixel>
    decreases to - from,
{
    if to <= from {
        fifo
    } else {
        let prev = sprites_loaded(mem, fifo, oams, from, to - 1, x);
        let t = sprite_tile(mem, oams[to - 1]);
        if oams[to - 1].1.x == x {
            spec_load(prev, mem.spec_fetch_attrs(t).0, mem.spec_fetch_attrs(t).1, mem.spec_fetch_line(t))
        } else {
            prev
        }
    }
}

/// No sprite among the first `k` covers pixel `p`: the segment shows its
/// background there.
proof fn lemma_seg_base(
    mem: DispMem,
    oams: Seq<(usize, SpriteAttribute)>,
    window: bool,
    bo: int,
    start: int,
    end: int,
    k: nat,
    p: int,
)
    requires
        k <= oams.len(),
        forall|j: int| 0 <= j < k ==> {
            let ox = (#[trigger] oams[j]).1.x as int;
            !(start <= ox < end + 8 && 0 <= p - (ox - start) < 8)
        },
    ensures
        seg_pixel(mem, oams, window, bo, start, end, k, p) == seg_base(mem, window, bo, start, p),
    decreases k,
{
    if k > 0 {
        lemma_seg_base(mem, oams, window, bo, start, end, (k - 1) as nat, p);
    }
}

/// Sprites `r..k` start right of pixel `p`, so they leave it as it is.
proof fn lemma_seg_tail(
    mem: DispMem,
    oams: Seq<(usize, SpriteAttribute)>,
    window: bool,
    bo: int,
    start: int,
    end: int,
    r: nat,
    k: nat,
    p: int,
)
    requires
        r <= k <= oams.len(),
        forall|j: int| r <= j < k ==> (#[trigger] oams[j]).1.x as int - start > p,
    ensures
        seg_pixel(mem, oams, window, bo, start, end, k, p) == seg_pixel(mem, oams, window, bo, start, end, r, p),
    decreases k,
{
    if k > r {
        lemma_seg_tail(mem, oams, window, bo, start, end, r, (k - 1) as nat, p);
    }
}

/// Loading the sprites `next..r` at column counter `x` into a shift
/// register that holds pixels `x - start ..` of the segment with the first
/// `next` sprites laid over gives those pixels with the first `r` laid over.
proof fn lemma_sprites_loaded(
    mem: DispMem,
    fifo: Seq<Pixel>,
    oams: Seq<(usize, SpriteAttribute)>,
    window: bool,
    bo: int,
    start: int,
    end: int,
    next: nat,
    r: nat,
    x: int,
)
    requires
        next <= r <= oams.len(),
        fifo.len() >= 8,
        start <= x < end + 8,
        forall|i: int| 0 <= i < fifo.len() ==> #[trigger] fifo[i] == seg_pixel(mem, oams, window, bo, start, end, next, x - start + i),
        forall|j: int| next <= j < r ==> (#[trigger] oams[j]).1.x == x || (oams[j].1.x as int) < start,
    ensures
        sprites_loaded(mem, fifo, oams, next as int, r as int, x).len() == fifo.len(),
        forall|i: int| 0 <= i < fifo.len() ==> #[trigger] sprites_loaded(mem, fifo, oams, next as int, r as int, x)[i]
            == seg_pixel(mem, oams, window, bo, start, end, r, x - start + i),
    decreases r,
{
    if r > next {
        let r1 = (r - 1) as nat;
        lemma_sprites_loaded(mem, fifo, oams, window, bo, start, end, next, r1, x);
        let prev = sprites_loaded(mem, fifo, oams, next as int, r1 as int, x);
        let o = oams[r1 as int];
        let t = sprite_tile(mem, o);
        let now = sprites_loaded(mem, fifo, oams, next as int, r as int, x);
        if o.1.x == x {
            assert(is_sprite_palette(mem.spec_fetch_attrs(t).1));
            assert forall|i: int| 0 <= i < fifo.len() implies #[trigger] now[i]
                == seg_pixel(mem, oams, window, bo, start, end, r, x - start + i) by {
                assert(prev[i] == seg_pixel(mem, oams, window, bo, start, end, r1, x - start + i));
                assert((x - start + i) - (o.1.x as int - start) == i);
            }
        } else {
            assert forall|i: int| 0 <= i < fifo.len() implies #[trigger] now[i]
                == seg_pixel(mem, oams, window, bo, start, end, r, x - start + i) by {
                assert(prev[i] == seg_pixel(mem, oams, window, bo, start, end, r1, x - start + i));
            }
        }
    }
}

/// Appending the segment's next background tile line to a shift register
/// that holds its pixels from `x - start` on keeps it doing so.
proof fn lemma_bg_loaded(
    mem: DispMem,
    oams: Seq<(usize, SpriteAttribute)>,
    window: bool,
    bo: int,
    start: int,
    end: int,
    next: nat,
    x: int,
    nl: int,
    before: Seq<Pixel>,
    t: Tile,
)
    requires
        0 <= bo < 8,
        start <= x,
        nl >= 0,
        x == load_x(start, bo, nl),
        before.len() == (8 - bo) + 8 * nl - (x - start),
        before.len() <= 8,
        x == start ==> next == 0,
        next <= oams.len(),
        forall|j: int| 0 <= j < next ==> ((#[trigger] oams[j]).1.x as int) < x,
        forall|i: int| 0 <= i < before.len() ==> #[trigger] before[i] == seg_pixel(mem, oams, window, bo, start, end, next, x - start + i),
        t == seg_tile(mem, window, x),
        !is_sprite_palette(mem.spec_fetch_attrs(t).1),
    ensures
        ({
            let after = spec_load(before, mem.spec_fetch_attrs(t).0, mem.spec_fetch_attrs(t).1, mem.spec_fetch_line(t));
            forall|i: int| 0 <= i < after.len() ==> #[trigger] after[i] == seg_pixel(mem, oams, window, bo, start, end, next, x - start + i)
        }),
{
    let after = spec_load(before, mem.spec_fetch_attrs(t).0, mem.spec_fetch_attrs(t).1, mem.spec_fetch_line(t));
    let len0 = before.len() as int;
    assert forall|i: int| 0 <= i < after.len() implies #[trigger] after[i] == seg_pixel(mem, oams, window, bo, start, end, next, x - start + i) by {
        if i >= len0 {
            let p = x - start + i;
            let q = p - (8 - bo);
            assert(q == 8 * nl + (i - len0));
            assert(q / 8 == nl && q % 8 == i - len0) by (nonlinear_arith)
                requires
                    q == 8 * nl + (i - len0),
                    0 <= i - len0 < 8,
                    nl >= 0,
            ;
            assert(after[i] == tile_pixel(mem, t, i - len0));
            assert forall|j: int| 0 <= j < next implies {
                let ox = (#[trigger] oams[j]).1.x as int;
                !(start <= ox < end + 8 && 0 <= p - (ox - start) < 8)
            } by {
                assert((oams[j].1.x as int) < x);
            }
            lemma_seg_base(mem, oams, window, bo, start, end, next, p);
        } else {
            assert(after[i] == before[i]);
        }
    }
}

/// Setting the four bytes of column `col` to `c` changes that column to
/// `c` and nothing else.
proof fn lemma_column_set(before: Seq<u8>, after: Seq<u8>, ls: int, col: int, c: (u8, u8, u8, u8))
    requires
        0 <= ls,
        0 <= col,
        ls + col * 4 + 3 < before.len(),
        after == before.update(ls + col * 4, c.0).update(ls + col * 4 + 1, c.1).update(ls + col * 4 + 2, c.2).update(
            ls + col * 4 + 3,
            c.3,
        ),
    ensures
        after.len() == before.len(),
        column_rgba(after, ls, col) == c,
        forall|c2: int| 0 <= c2 && c2 != col && ls + c2 * 4 + 3 < before.len() ==> #[trigger] column_rgba(after, ls, c2) == column_rgba(before, ls, c2),
        forall|i: int| 0 <= i < before.len() && !(ls + col * 4 <= i < ls + col * 4 + 4) ==> #[trigger] after[i] == before[i],
{
    assert forall|c2: int| 0 <= c2 && c2 != col && ls + c2 * 4 + 3 < before.len() implies #[trigger] column_rgba(after, ls, c2) == column_rgba(before, ls, c2) by {
        assert(c2 < col || c2 > col);
    }
}

/// Feeds the sprites that start at column `x` into the shift register.
/// `next` indexes the first sprite (sorted by column) not yet passed.
fn add_oams(
    ppu: &mut PPU,
    mem: &DispMem,
    oams: &Vec<(usize, SpriteAttribute)>,
    next: usize,
    x: u16,
    y: u8,
) -> (r: usize)
    requires
        mem.wf(),
        old(ppu).pixels().len() >= 8,
        old(ppu).pixels().len() <= 16,
        pixels_ok(old(ppu).pixels()),
        next <= oams@.len(),
        y == mem.spec_ly(),
    ensures
        next <= r <= oams@.len(),
        final(ppu).pixels() == sprites_loaded(*mem, old(ppu).pixels(), oams@, next as int, r as int, x as int),
        final(ppu).pixels().len() == old(ppu).pixels().len(),
        pixels_ok(final(ppu).pixels()),
        forall|i: int| next <= i < r ==> oams@[i].1.x <= x,
        r < oams@.len() ==> oams@[r as int].1.x > x,
{
    let mut i = next;
    while i < oams.len() && oams[i].1.x as u16 <= x
        invariant
            mem.wf(),
            next <= i <= oams@.len(),
            ppu.pixels().len() == old(ppu).pixels().len(),
            ppu.pixels().len() >= 8,
            ppu.pixels().len() <= 16,
            pixels_ok(ppu.pixels()),
            forall|k: int| next <= k < i ==> oams@[k].1.x <= x,
            y == mem.spec_ly(),
            ppu.pixels() == sprites_loaded(*mem, old(ppu).pixels(), oams@, next as int, i as int, x as int),
        decreases oams@.len() - i,
    {
        let (priority, oam) = oams[i];
        if oam.x as u16 == x {
            let t = Tile::Sprite(priority, oam, y.wrapping_add(16).wrapping_sub(oam.y));
            assert(t == sprite_tile(*mem, oams@[i as int]));
            let (pr, pal, line) = mem.fetch(t);
            proof {
                lemma_fetch_palette_ok(*mem, t);
                lemma_load_ok(ppu.pixels(), pr, pal, line);
            }
            ppu.load(pr, pal, line);
        }
        i = i + 1;
    }
    i
}

/// The colour stored for screen column `c` of the line starting at
/// `line_start`.
pub open spec fn column_rgba(lcd: Seq<u8>, line_start: int, c: int) -> (u8, u8, u8, u8) {
    let i = line_start + c * 4;
    (lcd[i], lcd[i + 1], lcd[i + 2], lcd[i + 3])
}

/// Line `ly` of the frame buffer drawn with the selected sprites `oams`:
/// each of its 160 columns holds the colour, under `mem`'s palettes, of
/// the pixel `line_pixel` picks there, and every byte outside the line is
/// as it was.
pub open spec fn line_drawn(mem: DispMem, oams: Seq<(usize, SpriteAttribute)>, before: Seq<u8>, after: Seq<u8>, ly: int) -> bool {
    let ls = ly * 640;
    &&& after.len() == before.len()
    &&& forall|i: int| 0 <= i < before.len() && !(ls <= i < ls + 640) ==> #[trigger] after[i] == before[i]
    &&& forall|c: int| 0 <= c < 160 ==> #[trigger] column_rgba(after, ls, c) == mem.spec_shade_color(line_pixel(mem, oams, c))
    &&& forall|c: int| 0 <= c < 160 ==> is_shade(mem, #[trigger] column_rgba(after, ls, c))
}

/// The background part (columns `0..split`) and the window part
/// (`split..160`) drawn one after the other make up the whole line.
proof fn lemma_line_joined(
    mem: DispMem,
    oams: Seq<(usize, SpriteAttribute)>,
    l0: Seq<u8>,
    l1: Seq<u8>,
    l2: Seq<u8>,
    ly: int,
    split: int,
)
    requires
        0 <= ly < 144,
        l0.len() == 92160,
        l1.len() == l0.len(),
        l2.len() == l0.len(),
        split == mem.spec_bg_split(),
        0 <= split <= 160,
        forall|i: int| 0 <= i < l0.len() && !(ly * 640 <= i < ly * 640 + split * 4) ==> #[trigger] l1[i] == l0[i],
        forall|i: int| 0 <= i < l0.len() && !(ly * 640 + split * 4 <= i < ly * 640 + 640) ==> #[trigger] l2[i] == l1[i],
        forall|c: int| 0 <= c < split ==> is_shade(mem, #[trigger] column_rgba(l1, ly * 640, c)),
        forall|c: int| 0 <= c < split ==> #[trigger] column_rgba(l1, ly * 640, c)
            == mem.spec_shade_color(seg_pixel(mem, oams, false, mem.spec_fine_x(), 0, split, oams.len(), c + 8 - 0)),
        forall|c: int| split <= c < 160 ==> is_shade(mem, #[trigger] column_rgba(l2, ly * 640, c)),
        forall|c: int| split <= c < 160 ==> #[trigger] column_rgba(l2, ly * 640, c)
            == mem.spec_shade_color(seg_pixel(mem, oams, true, 0, split, 160, oams.len(), c + 8 - split)),
    ensures
        line_drawn(mem, oams, l0, l2, ly),
{
    let ls = ly * 640;
    assert forall|c: int| 0 <= c < 160 implies #[trigger] column_rgba(l2, ls, c) == mem.spec_shade_color(line_pixel(mem, oams, c))
        && is_shade(mem, column_rgba(l2, ls, c)) by {
        if c < split {
            assert(column_rgba(l2, ls, c) == column_rgba(l1, ls, c));
            assert(column_rgba(l1, ls, c) == mem.spec_shade_color(seg_pixel(mem, oams, false, mem.spec_fine_x(), 0, split, oams.len(), c + 8 - 0)));
        }
    }
}

/// Whether `color` is the colour of some pixel.
pub open spec fn is_shade(mem: DispMem, color: (u8, u8, u8, u8)) -> bool {
    exists|p: Pixel| pixel_ok(p) && color == #[trigger] mem.spec_shade_color(p)
}

/// Draws screen columns `start..end` of line `ly` from the background (or
/// window) and the sprites, shifting out `bg_offset` pixels first for the
/// fine horizontal scroll. Eight columns are fetched ahead of those shown.
#[verifier::spinoff_prover]
#[verifier::rlimit(100)]
fn draw_window(
    ppu: &mut PPU,
    mem: &DispMem,
    lcd: &mut Vec<u8>,
    line_start: usize,
    oams: &Vec<(usize, SpriteAttribute)>,
    window: bool,
    bg_offset: u8,
    start: u8,
    end: u8,
)
    requires
        mem.wf(),
        old(ppu).pixels().len() == 0,
        bg_offset < 8,
        start <= end <= SCREEN_X,
        line_start + SCREEN_X * BYTES_PER_PIXEL <= old(lcd)@.len(),
        sorted_by_x(oams@),
    ensures
        final(ppu).pixels().len() == 0,
        final(lcd)@.len() == old(lcd)@.len(),
        forall|i: int|
            0 <= i < old(lcd)@.len() && !(line_start + start * 4 <= i < line_start + end * 4)
                ==> #[trigger] final(lcd)@[i] == old(lcd)@[i],
        forall|c: int| start <= c < end ==> is_shade(*mem, #[trigger] column_rgba(final(lcd)@, line_start as int, c)),
        forall|c: int| start <= c < end ==> #[trigger] column_rgba(final(lcd)@, line_start as int, c)
            == mem.spec_shade_color(seg_pixel(*mem, oams@, window, bg_offset as int, start as int, end as int, oams@.len(), c + 8 - start)),
{
    let ghost bo = bg_offset as int;
    let ghost st = start as int;
    let ghost en = end as int;
    let ghost n = oams@.len();
    let fake = Tile::BG(0, 0, 0);
    let (pr, pal, line) = mem.fetch(fake);
    proof {
        lemma_fetch_palette_ok(*mem, fake);
        lemma_load_ok(ppu.pixels(), pr, pal, line);
    }
    ppu.load(pr, pal, line);
    let mut k: u8 = 0;
    while k < bg_offset
        invariant
            k <= bg_offset < 8,
            ppu.pixels().len() == 8 - k,
            pixels_ok(ppu.pixels()),
            forall|i: int| 0 <= i < 8 - k ==> #[trigger] ppu.pixels()[i] == tile_pixel(*mem, fake, k + i),
        decreases bg_offset - k,
    {
        ppu.shift();
        k = k + 1;
    }
    let mut next: usize = 0;
    let mut target: usize = 0;
    let mut x: u16 = start as u16;
    let stop: u16 = end as u16 + 8;
    let ghost mut nl: int = 0;
    proof {
        assert forall|i: int| 0 <= i < ppu.pixels().len() implies #[trigger] ppu.pixels()[i]
            == seg_pixel(*mem, oams@, window, bo, st, en, 0, x - st + i) by {
            assert(ppu.pixels()[i] == tile_pixel(*mem, fake, bo + i));
        }
    }
    while x < stop
        invariant
            mem.wf(),
            start <= x <= stop,
            stop == end + 8,
            end <= SCREEN_X,
            bo == bg_offset as int,
            bo < 8,
            st == start as int,
            en == end as int,
            n == oams@.len(),
            sorted_by_x(oams@),
            1 <= ppu.pixels().len() <= 16,
            pixels_ok(ppu.pixels()),
            next <= oams@.len(),
            x == start ==> next == 0,
            forall|j: int| 0 <= j < next ==> (#[trigger] oams@[j]).1.x < x,
            x > start ==> forall|j: int| next <= j < oams@.len() ==> (#[trigger] oams@[j]).1.x >= x,
            (x == start && nl == 0) || (x > start && nl >= 1 && load_x(st, bo, nl - 1) < x <= load_x(st, bo, nl)),
            ppu.pixels().len() == (8 - bo) + 8 * nl - (x - st),
            forall|i: int| 0 <= i < ppu.pixels().len() ==> #[trigger] ppu.pixels()[i]
                == seg_pixel(*mem, oams@, window, bo, st, en, next as nat, x - st + i),
            target == (if x >= start + 8 { x - start - 8 } else { 0 }),
            line_start + SCREEN_X * BYTES_PER_PIXEL <= lcd@.len(),
            lcd@.len() == old(lcd)@.len(),
            forall|i: int|
                0 <= i < old(lcd)@.len() && !(line_start + start * 4 <= i < line_start + end * 4)
                    ==> #[trigger] lcd@[i] == old(lcd)@[i],
            forall|c: int| start <= c < start + target ==> is_shade(*mem, #[trigger] column_rgba(lcd@, line_start as int, c)),
            forall|c: int| start <= c < start + target ==> #[trigger] column_rgba(lcd@, line_start as int, c)
                == mem.spec_shade_color(seg_pixel(*mem, oams@, window, bo, st, en, n, c + 8 - st)),
        decreases stop - x,
    {
        let ghost p0 = x - st;
        if ppu.need_data() {
            let t = if window {
                mem.get_win_tile(x as u8)
            } else {
                mem.get_screen_bg_tile(x as u8, mem.ly)
            };
            let ghost before = ppu.pixels();
            let (pr, pal, line) = mem.fetch(t);
            proof {
                lemma_fetch_palette_ok(*mem, t);
                lemma_load_ok(ppu.pixels(), pr, pal, line);
                assert(x == load_x(st, bo, nl));
                lemma_bg_loaded(*mem, oams@, window, bo, st, en, next as nat, x as int, nl, before, t);
            }
            ppu.load(pr, pal, line);
            proof {
                nl = nl + 1;
            }
        }
        let ghost fifo = ppu.pixels();
        let ghost next0 = next as nat;
        next = add_oams(ppu, mem, oams, next, x, mem.ly);
        proof {
            assert forall|j: int| next0 <= j < next implies (#[trigger] oams@[j]).1.x == x || (oams@[j].1.x as int) < st by {
                if x > start {
                    assert(oams@[j].1.x >= x);
                }
            }
            lemma_sprites_loaded(*mem, fifo, oams@, window, bo, st, en, next0, next as nat, x as int);
            assert forall|j: int| next <= j < oams@.len() implies (#[trigger] oams@[j]).1.x > x by {
                assert(oams@[next as int].1.x <= oams@[j].1.x);
            }
            assert forall|j: int| next <= j < n implies (#[trigger] oams@[j]).1.x as int - st > p0 by {
                assert(oams@[j].1.x > x);
            }
            lemma_seg_tail(*mem, oams@, window, bo, st, en, next as nat, n, p0);
        }
        if x >= start as u16 + 8 {
            let p = ppu.shift();
            let c = mem.bgp_shade(p);
            let len = lcd.len();
            assert(start + target < end);
            assert(line_start + (start + target) * 4 + 3 < line_start + SCREEN_X * BYTES_PER_PIXEL);
            let pos = line_start + (start as usize + target) * BYTES_PER_PIXEL;
            let ghost before = lcd@;
            lcd.set(pos, c.0);
            lcd.set(pos + 1, c.1);
            lcd.set(pos + 2, c.2);
            lcd.set(pos + 3, c.3);
            proof {
                let col = start + target;
                lemma_column_set(before, lcd@, line_start as int, col as int, c);
                assert(p == seg_pixel(*mem, oams@, window, bo, st, en, n, col + 8 - st));
                assert(pixel_ok(p));
                assert(is_shade(*mem, column_rgba(lcd@, line_start as int, col)));
            }
            target = target + 1;
        } else {
            ppu.shift();
        }
        x = x + 1;
    }
    assert(start + target == end);
    ppu.clear();
}


/// The state a display step moves to when the current mode's period has
/// elapsed, with the new LY.
pub open spec fn spec_next_state(s: DisplayState, ly: u8) -> (DisplayState, u8) {
    match s {
        DisplayState::OAMSearch => (DisplayState::PixelTransfer, ly),
        DisplayState::PixelTransfer => (DisplayState::HBlank, ly),
        DisplayState::HBlank => if ly + 1 == 144 {
            (DisplayState::VBlank, (ly + 1) as u8)
        } else {
            (DisplayState::OAMSearch, (ly + 1) as u8)
        },
        DisplayState::VBlank => if ly + 1 == 154 {
            (DisplayState::OAMSearch, 0u8)
        } else {
            (DisplayState::VBlank, (ly + 1) as u8)
        },
    }
}

/// STAT after a step: the mode bits follow a state change, and the
/// coincidence flag (bit 2) follows a change of LY.
pub open spec fn spec_stat_after(stat: u8, old_s: DisplayState, new_s: DisplayState, old_ly: u8, new_ly: u8, lyc: u8) -> u8 {
    let with_mode = if new_s != old_s {
        (stat & 0xfc) | stat_mode_bits(new_s)
    } else {
        stat
    };
    if new_ly != old_ly {
        if new_ly == lyc {
            with_mode | 4
        } else {
            with_mode & 0xfb
        }
    } else {
        with_mode
    }
}

/// The interrupts a step raises: V-blank (bit 0) on entering V-blank; LCD
/// status (bit 1) when LY changes to LYC with bit 6 of STAT set, or on
/// entering a mode whose STAT enable bit is set (bit 5 OAM search, bit 4
/// V-blank, bit 3 H-blank).
pub open spec fn spec_display_interrupts(stat: u8, old_s: DisplayState, new_s: DisplayState, old_ly: u8, new_ly: u8, lyc: u8) -> u8 {
    let coincidence = new_ly != old_ly && stat & 0x40 != 0 && new_ly == lyc;
    let changed = new_s != old_s;
    let mode_int = match new_s {
        DisplayState::OAMSearch => stat & 0x20 != 0,
        DisplayState::VBlank => stat & 0x10 != 0,
        DisplayState::HBlank => stat & 0x08 != 0,
        DisplayState::PixelTransfer => false,
    };
    let lcdc = coincidence || (changed && mode_int);
    let vblank = changed && new_s == DisplayState::VBlank;
    ((if vblank { 1u8 } else { 0u8 }) | (if lcdc { 2u8 } else { 0u8 })) as u8
}

/// Whether the sprite at OAM bytes `b` is on screen and covers line `ly`.
pub open spec fn sprite_on_line(oam: SpriteAttribute, ly: u8, size: u8) -> bool {
    &&& oam.x != 0 && oam.x < 168 && oam.y != 0 && oam.y < 160
    &&& ly + 16 >= oam.y && ly + 16 - oam.y < size
}

/// Sprite `i` of OAM (four bytes: Y, X, tile, flags).
pub open spec fn oam_sprite(oam: Seq<u8>, i: int) -> SpriteAttribute {
    SpriteAttribute { y: oam[4 * i], x: oam[4 * i + 1], pattern: oam[4 * i + 2], flags: oam[4 * i + 3] }
}

/// `s` (sorted by column) with `e` inserted after every entry whose column
/// is not greater than its own.
pub open spec fn insert_by_x(s: Seq<(usize, SpriteAttribute)>, e: (usize, SpriteAttribute)) -> Seq<(usize, SpriteAttribute)>
    decreases s.len(),
{
    if s.len() == 0 || s.last().1.x <= e.1.x {
        s.push(e)
    } else {
        insert_by_x(s.drop_last(), e).push(s.last())
    }
}

/// The drawing rank of OAM sprite `i`: its OAM index in colour mode, its
/// column otherwise.
pub open spec fn sprite_rank(mem: DispMem, i: int, o: SpriteAttribute) -> usize {
    if mem.spec_mode() == DisplayMode::CGB {
        i as usize
    } else {
        o.x as usize
    }
}

/// The sprites an OAM search selects from the first `i` OAM entries: the
/// visible ones on the current line, in OAM order, at most ten, each with
/// its rank, sorted by column (OAM order among equal columns).
pub open spec fn oam_selected(mem: DispMem, i: nat) -> Seq<(usize, SpriteAttribute)>
    decreases i,
{
    if i == 0 {
        Seq::empty()
    } else {
        let prev = oam_selected(mem, (i - 1) as nat);
        let o = oam_sprite(mem.spec_oam(), i - 1);
        if prev.len() < 10 && sprite_on_line(o, mem.spec_ly(), mem.spec_sprite_size()) {
            insert_by_x(prev, (sprite_rank(mem, i - 1, o), o))
        } else {
            prev
        }
    }
}

/// Once ten sprites are selected the rest of OAM changes nothing.
proof fn lemma_oam_selected_full(mem: DispMem, i: nat, j: nat)
    requires
        i <= j,
        oam_selected(mem, i).len() >= 10,
    ensures
        oam_selected(mem, j) == oam_selected(mem, i),
    decreases j,
{
    if j > i {
        lemma_oam_selected_full(mem, i, (j - 1) as nat);
    }
}

/// Inserting at `pos`, after the entries whose column is not greater and
/// before those whose column is, is `insert_by_x`.
proof fn lemma_insert_by_x(s: Seq<(usize, SpriteAttribute)>, e: (usize, SpriteAttribute), pos: int)
    requires
        0 <= pos <= s.len(),
        forall|a: int| pos <= a < s.len() ==> (#[trigger] s[a]).1.x > e.1.x,
        pos > 0 ==> s[pos - 1].1.x <= e.1.x,
    ensures
        s.insert(pos, e) == insert_by_x(s, e),
    decreases s.len(),
{
    if s.len() == 0 || s.last().1.x <= e.1.x {
        assert(pos == s.len());
        assert(s.insert(pos, e) =~= s.push(e));
    } else {
        let t = s.drop_last();
        lemma_insert_by_x(t, e, pos);
        assert(s.insert(pos, e) =~= t.insert(pos, e).push(s.last()));
    }
}


/// The display unit.
pub struct Display {
    needs_clear: bool,
    ppu: PPU,
    oam_searched: Vec<(usize, SpriteAttribute)>,
    mem: DispMem,
    unused_cycles: WaitTimer,
    state: DisplayState,
}

impl Display {
    pub closed spec fn spec_mem(&self) -> DispMem {
        self.mem
    }

    pub closed spec fn spec_state(&self) -> DisplayState {
        self.state
    }

    pub closed spec fn spec_acc(&self) -> u64 {
        self.unused_cycles.spec_acc()
    }

    pub closed spec fn spec_needs_clear(&self) -> bool {
        self.needs_clear
    }

    pub closed spec fn spec_sprites(&self) -> Seq<(usize, SpriteAttribute)> {
        self.oam_searched@
    }

    /// Memories have their sizes; LY stays below 154 and is at least 144
    /// exactly in V-blank; the cycle accumulator stays below the current
    /// mode's period; at most ten sprites are selected.
    pub closed spec fn wf(&self) -> bool {
        &&& self.mem.wf()
        &&& self.mem.ly < 154
        &&& (self.state == DisplayState::VBlank) == (self.mem.ly >= 144)
        &&& self.unused_cycles.spec_acc() < state_period(self.state)
        &&& self.oam_searched@.len() <= 10
        &&& sorted_by_x(self.oam_searched@)
    }

    /// A display for a cartridge: full colour for colour cartridges,
    /// classic palettes through the colour hardware otherwise. It starts in
    /// OAM search with everything zeroed.
    pub fn new(cgb: CGBStatus) -> (r: Display)
        ensures
            r.wf(),
            r.spec_state() == DisplayState::OAMSearch,
            r.spec_acc() == 0,
            r.spec_needs_clear(),
            r.spec_mem().spec_mode() == (match cgb {
                CGBStatus::GB => DisplayMode::CGBCompat,
                _ => DisplayMode::CGB,
            }),
            forall|a: u16| display_handles(a) ==> r.spec_mem().spec_read(a) == 0,
    {
        let mode = match cgb {
            CGBStatus::GB => DisplayMode::CGBCompat,
            _ => DisplayMode::CGB,
        };
        let mem = DispMem::new(mode);
        assert(display_handles(LY_ADDR));
        assert(mem.spec_read(LY_ADDR) == 0);
        Display {
            needs_clear: true,
            state: DisplayState::OAMSearch,
            unused_cycles: WaitTimer::new(),
            mem,
            oam_searched: Vec::new(),
            ppu: PPU::new(),
        }
    }

    pub fn display_enabled(&self) -> (r: bool)
        ensures
            r == self.spec_mem().enabled(),
    {
        self.mem.display_enabled()
    }

    fn oam_entry(&self, i: usize) -> (r: SpriteAttribute)
        requires
            self.mem.wf(),
            i < 40,
        ensures
            r == (SpriteAttribute {
                y: self.mem.oam@[4 * i],
                x: self.mem.oam@[4 * i + 1],
                pattern: self.mem.oam@[4 * i + 2],
                flags: self.mem.oam@[4 * i + 3],
            }),
    {
        SpriteAttribute {
            y: self.mem.oam[4 * i],
            x: self.mem.oam[4 * i + 1],
            pattern: self.mem.oam[4 * i + 2],
            flags: self.mem.oam[4 * i + 3],
        }
    }

    /// Selects the first ten sprites, in OAM order, that are visible and
    /// cover the current line (none while sprites are off), ranked by OAM
    /// index in colour mode and by column otherwise, and orders them by
    /// column, keeping OAM order among equal columns.
    fn oam_search(&mut self)
        requires
            old(self).wf(),
        ensures
            final(self).wf(),
            final(self).mem == old(self).mem,
            final(self).state == old(self).state,
            final(self).unused_cycles == old(self).unused_cycles,
            final(self).needs_clear == old(self).needs_clear,
            final(self).ppu == old(self).ppu,
            old(self).mem.lcdc & 2 == 0 ==> final(self).oam_searched@.len() == 0,
            old(self).mem.lcdc & 2 != 0 ==> final(self).oam_searched@ == oam_selected(old(self).mem, 40),
            forall|i: int, j: int|
                0 <= i <= j < final(self).oam_searched@.len() ==> final(self).oam_searched@[i].1.x
                    <= final(self).oam_searched@[j].1.x,
            forall|i: int|
                0 <= i < final(self).oam_searched@.len() ==> sprite_on_line(
                    #[trigger] final(self).oam_searched@[i].1,
                    old(self).mem.ly,
                    old(self).mem.spec_sprite_size(),
                ),
    {
        self.oam_searched.clear();
        if self.mem.lcdc & 2 != 0 {
            let ly = self.mem.ly;
            let size = self.mem.sprite_size();
            let mut i: usize = 0;
            while i < 40 && self.oam_searched.len() < 10
                invariant
                    self.mem == old(self).mem,
                    self.state == old(self).state,
                    self.unused_cycles == old(self).unused_cycles,
                    self.needs_clear == old(self).needs_clear,
                    self.ppu == old(self).ppu,
                    self.mem.wf(),
                    ly == self.mem.ly,
                    ly < 154,
                    size == self.mem.spec_sprite_size(),
                    i <= 40,
                    self.oam_searched@.len() <= 10,
                    self.oam_searched@ == oam_selected(self.mem, i as nat),
                    forall|a: int, b: int|
                        0 <= a <= b < self.oam_searched@.len() ==> self.oam_searched@[a].1.x
                            <= self.oam_searched@[b].1.x,
                    forall|a: int|
                        0 <= a < self.oam_searched@.len() ==> sprite_on_line(
                            #[trigger] self.oam_searched@[a].1,
                            ly,
                            size,
                        ),
                decreases 40 - i,
            {
                let oam = self.oam_entry(i);
                assert(oam == oam_sprite(self.mem.spec_oam(), i as int));
                if oam.x != 0 && oam.x < 168 && oam.y != 0 && oam.y < 160 && ly + 16 >= oam.y && ly
                    + 16 - oam.y < size {
                    let priority: usize = if self.mem.cgb_mode == DisplayMode::CGB {
                        i
                    } else {
                        oam.x as usize
                    };
                    let mut pos = self.oam_searched.len();
                    while pos > 0 && self.oam_searched[pos - 1].1.x > oam.x
                        invariant
                            pos <= self.oam_searched@.len(),
                            forall|a: int| pos <= a < self.oam_searched@.len() ==> self.oam_searched@[a].1.x > oam.x,
                        decreases pos,
                    {
                        pos = pos - 1;
                    }
                    proof {
                        if pos > 0 {
                            assert(self.oam_searched@[pos - 1].1.x <= oam.x);
                        }
                        lemma_insert_by_x(self.oam_searched@, (priority, oam), pos as int);
                    }
                    let ghost before = self.oam_searched@;
                    self.oam_searched.insert(pos, (priority, oam));
                    proof {
                        assert forall|a: int, b: int|
                            0 <= a <= b < self.oam_searched@.len() implies self.oam_searched@[a].1.x
                            <= self.oam_searched@[b].1.x by {
                            if a < pos && b > pos {
                                assert(self.oam_searched@[a] == before[a]);
                                assert(self.oam_searched@[b] == before[b - 1]);
                                assert(before[a].1.x <= before[pos - 1].1.x);
                            }
                        }
                    }
                }
                i = i + 1;
            }
            proof {
                if i < 40 {
                    lemma_oam_selected_full(self.mem, i as nat, 40);
                }
            }
        }
    }
}


/// Turns every byte of a frame buffer white.
fn fill_white(lcd: &mut Vec<u8>)
    ensures
        final(lcd)@ == Seq::new(old(lcd)@.len(), |i: int| 0xffu8),
{
    let mut i: usize = 0;
    while i < lcd.len()
        invariant
            i <= lcd@.len(),
            lcd@.len() == old(lcd)@.len(),
            forall|k: int| 0 <= k < i ==> lcd@[k] == 0xff,
        decreases lcd@.len() - i,
    {
        lcd.set(i, 0xff);
        i = i + 1;
    }
    assert(lcd@ =~= Seq::new(old(lcd)@.len(), |i: int| 0xffu8));
}

impl Display {
    /// Draws the current line into the frame buffer, if there is one: the
    /// background left of the window's column and the window from there,
    /// with the sprites over both; drawing any window moves to the next
    /// window line.
    #[verifier::spinoff_prover]
    #[verifier::rlimit(80)]
    fn render_line(&mut self, data: &mut PeripheralData)
        requires
            old(self).wf(),
            old(self).mem.ly < 144,
            old(data).lcd_ok(),
        ensures
            final(self).wf(),
            final(data).lcd_ok(),
            final(data).serial == old(data).serial,
            final(data).vblank == old(data).vblank,
            final(self).state == old(self).state,
            final(self).unused_cycles == old(self).unused_cycles,
            final(self).needs_clear == old(self).needs_clear,
            final(self).oam_searched == old(self).oam_searched,
            final(self).mem == (DispMem {
                window_line: final(self).mem.window_line,
                ..old(self).mem
            }),
            old(data).lcd is None ==> final(data).lcd is None && final(self).mem.window_line
                == old(self).mem.window_line,
            old(data).lcd is Some ==> final(data).lcd is Some && line_drawn(old(self).mem, old(self).oam_searched@, old(data).lcd_view()->0, final(data).lcd_view()->0, old(self).mem.ly as int),
            old(data).lcd is Some ==> final(self).mem.window_line == (if old(self).mem.lcdc & 0x20
                != 0 && old(self).mem.ly >= old(self).mem.wy && (if old(self).mem.wx > 7 {
                old(self).mem.wx
            } else {
                7
            }) - 7 < 160 {
                ((old(self).mem.window_line + 1) % 256) as u8
            } else {
                old(self).mem.window_line
            }),
    {
        self.ppu.clear();
        let ly = self.mem.ly;
        let (true_x, _true_y) = self.mem.get_bg_true(0, ly);
        let has_window = self.mem.lcdc & 0x20 != 0 && ly >= self.mem.wy;
        let bg_split: u8 = if has_window {
            let w = if self.mem.wx > 7 { self.mem.wx } else { 7 };
            if w - 7 < 160 { w - 7 } else { 160 }
        } else {
            160
        };
        match &mut data.lcd {
            Some(lcd) => {
                let line_start = SCREEN_X * ly as usize * BYTES_PER_PIXEL;
                let ghost l0 = lcd@;
                assert(bg_split == self.mem.spec_bg_split());
                assert(true_x % 8 == self.mem.spec_fine_x());
                draw_window(&mut self.ppu, &self.mem, lcd, line_start, &self.oam_searched, false, true_x % 8, 0, bg_split);
                let ghost l1 = lcd@;
                draw_window(&mut self.ppu, &self.mem, lcd, line_start, &self.oam_searched, true, 0, bg_split, 160);
                proof {
                    assert(line_start == ly * 640);
                    lemma_line_joined(self.mem, self.oam_searched@, l0, l1, lcd@, ly as int, bg_split as int);
                }
                if bg_split < 160 {
                    self.mem.window_line = self.mem.window_line.wrapping_add(1);
                }
            },
            None => {},
        }
        self.ppu.clear();
    }
}

impl Addressable for Display {
    open spec fn handles(&self, addr: u16) -> bool {
        self.wf() && display_handles(addr)
    }

    fn read_byte(&mut self, addr: u16) -> (r: u8)
        ensures
            r == old(self).spec_mem().spec_read(addr),
            *final(self) == *old(self),
    {
        self.mem.read_byte(addr)
    }

    /// Stores into video memory or a register (see the memory's write).
    fn write_byte(&mut self, addr: u16, v: u8)
        ensures
            final(self).wf(),
            final(self).spec_state() == old(self).spec_state(),
            final(self).spec_acc() == old(self).spec_acc(),
            final(self).spec_needs_clear() == old(self).spec_needs_clear(),
            addr != LY_ADDR ==> final(self).spec_mem().spec_read(addr) == v,
            forall|a: u16|
                display_handles(a) && a != addr && a != BGPS_ADDR && a != OBPS_ADDR && !(addr
                    == VBK_ADDR && 0x8000 <= a <= 0x9fff) ==> #[trigger] final(self).spec_mem().spec_read(a)
                    == old(self).spec_mem().spec_read(a),
            final(self).spec_mem().spec_mode() == old(self).spec_mem().spec_mode(),
    {
        self.mem.write_byte(addr, v);
    }
}

impl Peripheral for Display {
    /// At most one mode period can elapse in one step.
    open spec fn can_step(&self, time: CycleCount) -> bool {
        self.wf() && time < 40
    }

    /// With the LCD off: whitens the frame buffer once, parks in OAM search
    /// on line 0 and raises nothing. With the LCD on: once the current
    /// mode's period has elapsed, moves to the next mode (selecting the
    /// line's sprites after OAM search (`oam_selected`), drawing the line
    /// after pixel transfer (each column the colour of `line_pixel`), advancing
    /// LY after H-blank and each V-blank line), updates STAT's mode and
    /// coincidence bits, and raises the V-blank and LCD status interrupts
    /// that the new state calls for.
    fn step(&mut self, data: &mut PeripheralData, time: CycleCount) -> (r: u8)
        ensures
            final(self).wf(),
            final(data).serial == old(data).serial,
            final(data).vblank == old(data).vblank,
            !old(self).spec_mem().enabled() ==> {
                &&& r == 0
                &&& final(self).spec_sprites() == old(self).spec_sprites()
                &&& final(self).spec_state() == DisplayState::OAMSearch
                &&& final(self).spec_mem().spec_ly() == 0
                &&& final(self).spec_acc() == 0
                &&& !final(self).spec_needs_clear()
                &&& final(self).spec_mem().spec_stat() == old(self).spec_mem().spec_stat()
                &&& (old(self).spec_needs_clear() && old(data).lcd is Some) ==> final(data).lcd_view()
                    == Some(Seq::new(LCD_BYTES as nat, |i: int| 0xffu8))
                &&& !(old(self).spec_needs_clear() && old(data).lcd is Some) ==> final(data).lcd_view()
                    == old(data).lcd_view()
            },
            old(self).spec_mem().enabled() ==> {
                let p = state_period(old(self).spec_state());
                let total = old(self).spec_acc() + time;
                let fired = total >= p;
                let next = if fired {
                    spec_next_state(old(self).spec_state(), old(self).spec_mem().spec_ly())
                } else {
                    (old(self).spec_state(), old(self).spec_mem().spec_ly())
                };
                let m = old(self).spec_mem();
                &&& final(self).spec_needs_clear()
                &&& final(self).spec_acc() == (if fired { total - p } else { total })
                &&& final(self).spec_state() == next.0
                &&& final(self).spec_mem().spec_ly() == next.1
                &&& final(self).spec_mem().spec_stat() == spec_stat_after(m.spec_stat(), old(self).spec_state(), next.0, m.spec_ly(), next.1, m.spec_lyc())
                &&& r == spec_display_interrupts(m.spec_stat(), old(self).spec_state(), next.0, m.spec_ly(), next.1, m.spec_lyc())
                &&& !(fired && old(self).spec_state() == DisplayState::PixelTransfer) ==> final(data).lcd_view()
                    == old(data).lcd_view()
                &&& (fired && old(self).spec_state() == DisplayState::OAMSearch) ==> final(self).spec_sprites() == (if m.spec_lcdc() & 2 != 0 {
                    oam_selected(m, 40)
                } else {
                    Seq::empty()
                })
                &&& !(fired && old(self).spec_state() == DisplayState::OAMSearch) ==> final(self).spec_sprites() == old(self).spec_sprites()
                &&& (fired && old(self).spec_state() == DisplayState::PixelTransfer) ==> (match old(data).lcd_view() {
                    Some(l0) => final(data).lcd_view() matches Some(l1) && line_drawn(m, old(self).spec_sprites(), l0, l1, m.spec_ly() as int),
                    None => final(data).lcd_view() is None,
                })
            },
            forall|a: u16|
                display_handles(a) && a != LY_ADDR && a != STAT_ADDR ==> #[trigger] final(self).spec_mem().spec_read(a)
                    == old(self).spec_mem().spec_read(a),
            final(self).spec_mem().spec_mode() == old(self).spec_mem().spec_mode(),
            final(self).spec_mem().spec_bg_palette() == old(self).spec_mem().spec_bg_palette(),
            final(self).spec_mem().spec_obj_palette() == old(self).spec_mem().spec_obj_palette(),
            final(self).spec_mem().spec_lcdc() == old(self).spec_mem().spec_lcdc(),
    {
        if !self.mem.display_enabled() {
            if self.needs_clear {
                match &mut data.lcd {
                    Some(lcd) => fill_white(lcd),
                    None => {},
                }
            }
            self.needs_clear = false;
            self.state = DisplayState::OAMSearch;
            self.mem.ly = 0;
            self.unused_cycles.reset();
            return 0;
        }
        self.needs_clear = true;
        let old_state = self.state;
        let old_ly = self.mem.ly;
        let period: u64 = match self.state {
            DisplayState::OAMSearch => 20 * GB,
            DisplayState::PixelTransfer => 43 * GB,
            DisplayState::HBlank => 51 * GB,
            DisplayState::VBlank => (43 + 51 + 20) * GB,
        };
        assert(period == state_period(old_state));
        let ghost acc0 = self.unused_cycles.spec_acc();
        proof {
            if acc0 + time >= period {
                let t: int = acc0 + time;
                let pp: int = period as int;
                assert(t / pp == 1 && t % pp == t - pp) by (nonlinear_arith)
                    requires
                        pp <= t < 2 * pp,
                        pp > 0,
                ;
            }
        }
        let (next_state, new_ly): (DisplayState, u8) = match self.unused_cycles.ready(time, period) {
            Some(_) => match self.state {
                DisplayState::OAMSearch => {
                    self.oam_search();
                    (DisplayState::PixelTransfer, old_ly)
                },
                DisplayState::PixelTransfer => {
                    self.render_line(data);
                    (DisplayState::HBlank, old_ly)
                },
                DisplayState::HBlank => {
                    if old_ly + 1 == 144 {
                        (DisplayState::VBlank, old_ly + 1)
                    } else {
                        (DisplayState::OAMSearch, old_ly + 1)
                    }
                },
                DisplayState::VBlank => {
                    if old_ly + 1 == 154 {
                        self.mem.window_line = 0;
                        (DisplayState::OAMSearch, 0)
                    } else {
                        (DisplayState::VBlank, old_ly + 1)
                    }
                },
            },
            None => (old_state, old_ly),
        };
        let changed = next_state != old_state;
        // The interrupt enable bits (3..6) are untouched by the mode and
        // coincidence updates below.
        let stat0 = self.mem.stat;
        if changed {
            let bits: u8 = match next_state {
                DisplayState::HBlank => 0,
                DisplayState::VBlank => 1,
                DisplayState::OAMSearch => 2,
                DisplayState::PixelTransfer => 3,
            };
            self.mem.stat = (self.mem.stat & 0xfc) | bits;
            self.state = next_state;
        }
        let mut lcdc_int = false;
        if new_ly != old_ly {
            self.mem.ly = new_ly;
            if new_ly == self.mem.lyc {
                self.mem.stat = self.mem.stat | 4;
            } else {
                self.mem.stat = self.mem.stat & 0xfb;
            }
            if stat0 & 0x40 != 0 {
                lcdc_int = new_ly == self.mem.lyc;
            }
        }
        let mut vblank = false;
        if changed {
            if next_state == DisplayState::VBlank {
                vblank = true;
            }
            let mode_int = match next_state {
                DisplayState::OAMSearch => stat0 & 0x20 != 0,
                DisplayState::VBlank => stat0 & 0x10 != 0,
                DisplayState::HBlank => stat0 & 0x08 != 0,
                DisplayState::PixelTransfer => false,
            };
            lcdc_int = lcdc_int || mode_int;
        }
        (if vblank { 1u8 } else { 0u8 }) | (if lcdc_int { 2u8 } else { 0u8 })
    }

    /// Cycles until the current mode ends while the LCD is on; otherwise
    /// at once if the screen still has to be whitened, or never.
    fn next_step(&self) -> (r: Option<CycleCount>)
        ensures
            r == Some(
                if self.spec_mem().enabled() {
                    (if state_period(self.spec_state()) > self.spec_acc() {
                        state_period(self.spec_state()) - self.spec_acc()
                    } else {
                        0int
                    }) as u64
                } else if self.spec_needs_clear() {
                    0u64
                } else {
                    u64::MAX
                },
            ),
    {
        if self.display_enabled() {
            let period: u64 = match self.state {
                DisplayState::OAMSearch => 20 * GB,
                DisplayState::PixelTransfer => 43 * GB,
                DisplayState::HBlank => 51 * GB,
                DisplayState::VBlank => (43 + 51 + 20) * GB,
            };
            Some(self.unused_cycles.next_ready(period))
        } else if self.needs_clear {
            Some(0)
        } else {
            Some(u64::MAX)
        }
    }
}


/// The two bytes (low first) of the 15-bit colour entry of a table colour:
/// each component keeps its top five bits, red lowest.
pub open spec fn color_bytes(c: [u8; 3]) -> (u8, u8) {
    let e: u16 = ((c@[0] >> 3u8) as u16) | (((c@[1] >> 3u8) as u16) << 5u16) | (((c@[2] >> 3u8) as u16)
        << 10u16);
    ((e & 0xff) as u8, (e >> 8u16) as u8)
}

/// Byte `j` (0..8) of the colour entries of four table colours.
pub open spec fn entry_byte(cols: [u8; 4], j: int) -> u8 {
    let c = crate::palette::PALETTE_COLORS@[cols@[j / 2] as int];
    if j % 2 == 0 {
        color_bytes(c).0
    } else {
        color_bytes(c).1
    }
}

fn color_entry(m: u8) -> (r: (u8, u8))
    requires
        m < 76,
    ensures
        r == color_bytes(crate::palette::PALETTE_COLORS@[m as int]),
{
    let c = crate::palette::PALETTE_COLORS[m as usize];
    let e: u16 = ((c[0] >> 3u8) as u16) | (((c[1] >> 3u8) as u16) << 5u16) | (((c[2] >> 3u8) as u16)
        << 10u16);
    ((e & 0xff) as u8, (e >> 8u16) as u8)
}

/// Whether the colour palettes hold `p`: its background colours, then
/// its two sprite palettes.
pub open spec fn palette_loaded(d: Display, p: CustomPalette) -> bool {
    &&& forall|j: int| 0 <= j < 8 ==> d.spec_mem().spec_bg_palette()[j] == entry_byte(p.bg, j)
    &&& forall|j: int| 0 <= j < 8 ==> d.spec_mem().spec_obj_palette()[j] == entry_byte(p.obj0, j)
    &&& forall|j: int| 0 <= j < 8 ==> d.spec_mem().spec_obj_palette()[8 + j] == entry_byte(p.obj1, j)
}

/// The palette of a classic cartridge: the one key combination
/// `key_palette` picks if it names one, otherwise the one the title's
/// checksum and fourth byte pick.
pub open spec fn chosen_palette(checksum: u8, dis: u8, key_palette: Option<usize>) -> CustomPalette {
    match key_palette {
        Some(k) => match crate::palette::spec_key_palette(k) {
            Some(p) => p,
            None => crate::palette::spec_builtin_palette(checksum, dis),
        },
        None => crate::palette::spec_builtin_palette(checksum, dis),
    }
}

impl Display {
    /// Streams the colour entries of four table colours into a palette data
    /// register, whose control register auto-increments from `start`.
    fn write_colors(&mut self, data_addr: u16, cols: [u8; 4], start: u8)
        requires
            old(self).wf(),
            data_addr == BGPD_ADDR || data_addr == OBPD_ADDR,
            forall|i: int| 0 <= i < 4 ==> cols@[i] < 76,
            start + 8 < 64,
            data_addr == BGPD_ADDR ==> old(self).mem.bgps == 0x80 + start,
            data_addr == OBPD_ADDR ==> old(self).mem.obps == 0x80 + start,
        ensures
            final(self).wf(),
            final(self).state == old(self).state,
            final(self).unused_cycles == old(self).unused_cycles,
            final(self).needs_clear == old(self).needs_clear,
            final(self).mem.cgb_mode == old(self).mem.cgb_mode,
            final(self).mem.ly == old(self).mem.ly,
            data_addr == BGPD_ADDR ==> final(self).mem.bgps == 0x80 + start + 8,
            data_addr == OBPD_ADDR ==> final(self).mem.obps == 0x80 + start + 8,
            data_addr == BGPD_ADDR ==> final(self).mem.obps == old(self).mem.obps,
            data_addr == OBPD_ADDR ==> final(self).mem.bgps == old(self).mem.bgps,
            data_addr == BGPD_ADDR ==> DispMem::palette_written(old(self).mem.bgpalette@, final(self).mem.bgpalette@, cols, start as int, 8),
            data_addr == OBPD_ADDR ==> DispMem::palette_written(old(self).mem.objpalette@, final(self).mem.objpalette@, cols, start as int, 8),
            data_addr == BGPD_ADDR ==> final(self).mem.objpalette@ == old(self).mem.objpalette@,
            data_addr == OBPD_ADDR ==> final(self).mem.bgpalette@ == old(self).mem.bgpalette@,
    {
        let mut j: u8 = 0;
        while j < 8
            invariant
                self.wf(),
                j <= 8,
                data_addr == BGPD_ADDR || data_addr == OBPD_ADDR,
                forall|i: int| 0 <= i < 4 ==> cols@[i] < 76,
                start + 8 < 64,
                self.state == old(self).state,
                self.unused_cycles == old(self).unused_cycles,
                self.needs_clear == old(self).needs_clear,
                self.mem.cgb_mode == old(self).mem.cgb_mode,
                self.mem.ly == old(self).mem.ly,
                data_addr == BGPD_ADDR ==> self.mem.bgps == 0x80 + start + j,
                data_addr == OBPD_ADDR ==> self.mem.obps == 0x80 + start + j,
                data_addr == BGPD_ADDR ==> self.mem.obps == old(self).mem.obps,
                data_addr == OBPD_ADDR ==> self.mem.bgps == old(self).mem.bgps,
                data_addr == BGPD_ADDR ==> DispMem::palette_written(old(self).mem.bgpalette@, self.mem.bgpalette@, cols, start as int, j as int),
                data_addr == OBPD_ADDR ==> DispMem::palette_written(old(self).mem.objpalette@, self.mem.objpalette@, cols, start as int, j as int),
                data_addr == BGPD_ADDR ==> self.mem.objpalette@ == old(self).mem.objpalette@,
                data_addr == OBPD_ADDR ==> self.mem.bgpalette@ == old(self).mem.bgpalette@,
            decreases 8 - j,
        {
            let (lo, hi) = color_entry(cols[(j / 2) as usize]);
            let b = if j % 2 == 0 { lo } else { hi };
            let ghost ctl: u8 = (0x80 + start + j) as u8;
            let ghost k: u8 = (start + j) as u8;
            assert(ctl & 0x3f == k && advance_palette_control(ctl) == ctl + 1) by (bit_vector)
                requires
                    ctl == 0x80 + k,
                    k < 63,
            ;
            self.mem.write_byte(data_addr, b);
            j = j + 1;
        }
    }

    /// Loads a palette into colour palette memory: background palette 0,
    /// then sprite palettes 0 and 1, each through its auto-incrementing data
    /// register.
    pub fn apply_palette(&mut self, p: &CustomPalette)
        requires
            old(self).wf(),
            crate::palette::palette_ok(*p),
        ensures
            final(self).wf(),
            final(self).spec_state() == old(self).spec_state(),
            final(self).spec_acc() == old(self).spec_acc(),
            final(self).spec_mem().spec_mode() == old(self).spec_mem().spec_mode(),
            final(self).spec_mem().spec_ly() == old(self).spec_mem().spec_ly(),
            forall|j: int| 0 <= j < 8 ==> final(self).spec_mem().spec_bg_palette()[j] == entry_byte(p.bg, j),
            forall|j: int| 0 <= j < 8 ==> final(self).spec_mem().spec_obj_palette()[j] == entry_byte(p.obj0, j),
            forall|j: int| 0 <= j < 8 ==> final(self).spec_mem().spec_obj_palette()[8 + j] == entry_byte(p.obj1, j),
    {
        self.mem.write_byte(BGPS_ADDR, 0x80);
        self.write_colors(BGPD_ADDR, p.bg, 0);
        self.mem.write_byte(OBPS_ADDR, 0x80);
        self.write_colors(OBPD_ADDR, p.obj0, 0);
        self.write_colors(OBPD_ADDR, p.obj1, 8);
    }

    /// Sets up the colours of a classic cartridge on colour hardware: the
    /// palette picked by key combination `key_palette` if it names one,
    /// otherwise the one picked from the title's checksum and fourth byte.
    pub fn init(&mut self, checksum: u8, dis: u8, key_palette: Option<usize>)
        requires
            old(self).wf(),
        ensures
            final(self).wf(),
            final(self).spec_state() == old(self).spec_state(),
            final(self).spec_acc() == old(self).spec_acc(),
            final(self).spec_mem().spec_mode() == old(self).spec_mem().spec_mode(),
            final(self).spec_mem().spec_ly() == old(self).spec_mem().spec_ly(),
            palette_loaded(*final(self), chosen_palette(checksum, dis, key_palette)),
    {
        let chosen = match key_palette {
            Some(k) => match crate::palette::key_palette(k) {
                Some(p) => p,
                None => crate::palette::builtin_palette(checksum, dis),
            },
            None => crate::palette::builtin_palette(checksum, dis),
        };
        self.apply_palette(&chosen);
    }
}

} // verus!
