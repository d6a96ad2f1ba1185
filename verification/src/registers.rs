//! The CPU register file: eight 8-bit registers that pair into 16-bit ones,
//! the stack pointer, the program counter and the interrupt master enable.
use vstd::prelude::*;

verus! {

#[derive(Debug, PartialEq, Eq, Structural, Copy, Clone)]
pub enum Reg8 {
    A,
    F,
    B,
    C,
    D,
    E,
    H,
    L,
}

#[derive(Debug, PartialEq, Eq, Structural, Copy, Clone)]
pub enum Reg16 {
    AF,
    BC,
    DE,
    HL,
    SP,
    PC,
}

/// The four flags kept in the high nibble of F.
#[derive(Debug, PartialEq, Eq, Structural, Copy, Clone)]
pub enum Flag {
    Z,
    N,
    H,
    C,
}

impl Flag {
    pub open spec fn spec_mask(self) -> u8 {
        match self {
            Flag::Z => 0x80,
            Flag::N => 0x40,
            Flag::H => 0x20,
            Flag::C => 0x10,
        }
    }

    /// The bit of F that holds this flag.
    pub fn mask(self) -> (r: u8)
        ensures
            r == self.spec_mask(),
    {
        match self {
            Flag::Z => 0x80,
            Flag::N => 0x40,
            Flag::H => 0x20,
            Flag::C => 0x10,
        }
    }
}

/// Branch conditions.
#[derive(Debug, PartialEq, Eq, Structural, Copy, Clone)]
pub enum Cond {
    Z,
    NZ,
    C,
    NC,
}

/// The interrupt sources, in the bit order of IF and IE.
#[derive(Debug, PartialEq, Eq, Structural, Copy, Clone)]
pub enum InterruptFlag {
    HiLo,
    Serial,
    Timer,
    LCDC,
    VBlank,
}

impl InterruptFlag {
    pub open spec fn spec_mask(self) -> u8 {
        match self {
            InterruptFlag::HiLo => 0x10,
            InterruptFlag::Serial => 0x08,
            InterruptFlag::Timer => 0x04,
            InterruptFlag::LCDC => 0x02,
            InterruptFlag::VBlank => 0x01,
        }
    }

    /// The bit of IF and IE that stands for this source.
    pub fn mask(self) -> (r: u8)
        ensures
            r == self.spec_mask(),
    {
        match self {
            InterruptFlag::HiLo => 0x10,
            InterruptFlag::Serial => 0x08,
            InterruptFlag::Timer => 0x04,
            InterruptFlag::LCDC => 0x02,
            InterruptFlag::VBlank => 0x01,
        }
    }
}

#[derive(Debug, PartialEq, Eq, Structural, Clone, Copy)]
pub struct Registers {
    a: u8,
    f: u8,
    b: u8,
    c: u8,
    d: u8,
    e: u8,
    h: u8,
    l: u8,
    sp: u16,
    pc: u16,
    ime: u8,
}

/// Reads and writes of one width of register.
pub trait RegType<Register> {
    type Output;

    fn write(&mut self, reg: Register, val: Self::Output);

    fn write_mask(&mut self, reg: Register, val: Self::Output, mask: Self::Output);

    fn read(&self, reg: Register) -> Self::Output;

    fn read_mask(&self, reg: Register, mask: Self::Output) -> Self::Output;
}

impl Registers {
    /// The value of an 8-bit register.
    pub closed spec fn r8(self, r: Reg8) -> u8 {
        match r {
            Reg8::A => self.a,
            Reg8::F => self.f,
            Reg8::B => self.b,
            Reg8::C => self.c,
            Reg8::D => self.d,
            Reg8::E => self.e,
            Reg8::H => self.h,
            Reg8::L => self.l,
        }
    }

    /// The value of a 16-bit register; a pair reads its first register as the
    /// high byte.
    pub closed spec fn r16(self, r: Reg16) -> u16 {
        match r {
            Reg16::AF => (self.a * 256 + self.f) as u16,
            Reg16::BC => (self.b * 256 + self.c) as u16,
            Reg16::DE => (self.d * 256 + self.e) as u16,
            Reg16::HL => (self.h * 256 + self.l) as u16,
            Reg16::SP => self.sp,
            Reg16::PC => self.pc,
        }
    }

    /// The interrupt master enable.
    pub closed spec fn spec_ime(self) -> u8 {
        self.ime
    }

    /// The register file after writing `v` to an 8-bit register; F keeps only
    /// its high nibble.
    pub closed spec fn with8(self, r: Reg8, v: u8) -> Registers {
        match r {
            Reg8::A => Registers { a: v, ..self },
            Reg8::F => Registers { f: v & 0xf0, ..self },
            Reg8::B => Registers { b: v, ..self },
            Reg8::C => Registers { c: v, ..self },
            Reg8::D => Registers { d: v, ..self },
            Reg8::E => Registers { e: v, ..self },
            Reg8::H => Registers { h: v, ..self },
            Reg8::L => Registers { l: v, ..self },
        }
    }

    /// The register file after writing `v` to a 16-bit register: a pair takes
    /// the high byte in its first register and the low byte in its second.
    pub closed spec fn with16(self, r: Reg16, v: u16) -> Registers {
        let hi = (v / 256) as u8;
        let lo = (v % 256) as u8;
        match r {
            Reg16::AF => self.with8(Reg8::A, hi).with8(Reg8::F, lo),
            Reg16::BC => self.with8(Reg8::B, hi).with8(Reg8::C, lo),
            Reg16::DE => self.with8(Reg8::D, hi).with8(Reg8::E, lo),
            Reg16::HL => self.with8(Reg8::H, hi).with8(Reg8::L, lo),
            Reg16::SP => Registers { sp: v, ..self },
            Reg16::PC => Registers { pc: v, ..self },
        }
    }

    /// The register file with the interrupt master enable set to `v`.
    pub closed spec fn with_ime(self, v: u8) -> Registers {
        Registers { ime: v, ..self }
    }

    /// Whether a flag is set in F.
    pub open spec fn flag(self, f: Flag) -> bool {
        self.r8(Reg8::F) & f.spec_mask() != 0
    }

    /// The value every register holds before the first write.
    pub closed spec fn zeroed() -> Registers {
        Registers { a: 0, f: 0, b: 0, c: 0, d: 0, e: 0, h: 0, l: 0, sp: 0, pc: 0, ime: 0 }
    }

    /// Every register, pair, SP, PC and IME reads 0 before the first write.
    pub proof fn lemma_zeroed()
        ensures
            forall|x: Reg8| #[trigger] Registers::zeroed().r8(x) == 0,
            forall|x: Reg16| #[trigger] Registers::zeroed().r16(x) == 0,
            Registers::zeroed().spec_ime() == 0,
            Registers::zeroed().wf(),
    {
        crate::bits::lemma_byte_masks();

    }

    /// F only ever holds the four flag bits.
    pub closed spec fn wf(self) -> bool {
        self.f & 0x0f == 0
    }

    /// Reading a register gives back what was written to it, and leaves every
    /// other 8-bit register as it was; F keeps only its flag bits.
    pub proof fn lemma_read_after_write8(self, r: Reg8, v: u8, other: Reg8)
        ensures
            self.with8(r, v).r8(r) == (if r == Reg8::F { v & 0xf0 } else { v }),
            other != r ==> self.with8(r, v).r8(other) == self.r8(other),
            self.with8(r, v).r16(Reg16::SP) == self.r16(Reg16::SP),
            self.with8(r, v).r16(Reg16::PC) == self.r16(Reg16::PC),
            self.with8(r, v).spec_ime() == self.spec_ime(),
    {
    }

    /// A 16-bit write is read back whole, except that AF keeps only the flag
    /// bits in its low byte.
    pub proof fn lemma_read_after_write16(self, r: Reg16, v: u16)
        ensures
            self.with16(r, v).r16(r) == (if r == Reg16::AF {
                v - v % 256 + (((v % 256) as u8) & 0xf0u8)
            } else {
                v as int
            }),
    {
        let lo = (v % 256) as u8;
        assert(lo & 0xf0 <= lo) by {
            crate::bits::lemma_byte_masks();
        }
    }

    /// Whether an 8-bit register is one half of a 16-bit register.
    pub open spec fn part_of(x: Reg8, p: Reg16) -> bool {
        match p {
            Reg16::AF => x == Reg8::A || x == Reg8::F,
            Reg16::BC => x == Reg8::B || x == Reg8::C,
            Reg16::DE => x == Reg8::D || x == Reg8::E,
            Reg16::HL => x == Reg8::H || x == Reg8::L,
            _ => false,
        }
    }

    /// A write leaves the registers it does not touch alone.
    pub proof fn lemma_frame(self, x: Reg8, v8: u8, p: Reg16, v16: u16, o8: Reg8, o16: Reg16)
        ensures
            o8 != x ==> self.with8(x, v8).r8(o8) == self.r8(o8),
            !Registers::part_of(x, o16) ==> self.with8(x, v8).r16(o16) == self.r16(o16),
            !Registers::part_of(o8, p) ==> self.with16(p, v16).r8(o8) == self.r8(o8),
            p != o16 ==> self.with16(p, v16).r16(o16) == self.r16(o16),
            self.with8(x, v8).spec_ime() == self.spec_ime(),
            self.with16(p, v16).spec_ime() == self.spec_ime(),
            self.with16(p, v16).r16(p) == (if p == Reg16::AF {
                v16 - v16 % 256 + (((v16 % 256) as u8) & 0xf0u8)
            } else {
                v16 as int
            }),
            self.with8(x, v8).r8(x) == (if x == Reg8::F { v8 & 0xf0 } else { v8 }),
    {
        self.lemma_read_after_write16(p, v16);
    }

    /// A well-formed F has its low nibble clear.
    pub proof fn lemma_wf_f(self)
        requires
            self.wf(),
        ensures
            self.r8(Reg8::F) & 0x0f == 0,
    {
    }

    /// Writes keep F's low nibble clear.
    pub proof fn lemma_wf_kept(self, r8: Reg8, v8: u8, r16: Reg16, v16: u16, ime: u8)
        requires
            self.wf(),
        ensures
            self.with8(r8, v8).wf(),
            self.with16(r16, v16).wf(),
            self.with_ime(ime).wf(),
    {
        let lo = (v16 % 256) as u8;
        assert((v8 & 0xf0) & 0x0f == 0) by {
            crate::bits::lemma_byte_masks();
        }
        assert((lo & 0xf0) & 0x0f == 0) by {
            crate::bits::lemma_byte_masks();
        }
    }

    /// With F's low nibble clear, F is exactly the four flags.
    pub proof fn lemma_flags_exact(self)
        requires
            self.wf(),
        ensures
            self.r8(Reg8::F) == crate::alu::flag_bits(
                self.flag(Flag::Z),
                self.flag(Flag::N),
                self.flag(Flag::H),
                self.flag(Flag::C),
            ),
    {
        let f = self.f;
        crate::alu::lemma_flag_bits_decode(
            self.flag(Flag::Z),
            self.flag(Flag::N),
            self.flag(Flag::H),
            self.flag(Flag::C),
        );
        let g = crate::alu::flag_bits(
            self.flag(Flag::Z),
            self.flag(Flag::N),
            self.flag(Flag::H),
            self.flag(Flag::C),
        );
        assert(f & 0x0f == 0 && g & 0x0f == 0 && (f & 0x80 != 0) == (g & 0x80 != 0) && (f & 0x40 != 0)
            == (g & 0x40 != 0) && (f & 0x20 != 0) == (g & 0x20 != 0) && (f & 0x10 != 0) == (g & 0x10
            != 0) ==> f == g) by (bit_vector);
    }

    pub fn new() -> (r: Registers)
        ensures
            r == Registers::zeroed(),
            forall|x: Reg8| #[trigger] r.r8(x) == 0,
            forall|x: Reg16| #[trigger] r.r16(x) == 0,
            r.spec_ime() == 0,
            r.wf(),
    {
        proof {
            Registers::lemma_zeroed();
        }
        assert(0u8 & 0x0f == 0) by {
            crate::bits::lemma_byte_masks();
        }
        Registers { a: 0, f: 0, b: 0, c: 0, d: 0, e: 0, h: 0, l: 0, sp: 0, pc: 0, ime: 0 }
    }

    /// The mask of the bits of F that hold flags.
    pub fn default_mask() -> (r: u8)
        ensures
            r == 0xf0,
    {
        0xf0
    }

    pub fn ime(&self) -> (r: u8)
        ensures
            r == self.spec_ime(),
    {
        self.ime
    }

    pub fn set_ime(&mut self, v: u8)
        ensures
            *final(self) == old(self).with_ime(v),
    {
        self.ime = v;
    }

    /// Sets one flag and leaves the others.
    pub fn set_flag(&mut self, f: Flag)
        ensures
            *final(self) == old(self).with8(Reg8::F, old(self).r8(Reg8::F) | f.spec_mask()),
    {
        let m = f.mask();
        let old_f = self.f;
        self.write_mask(Reg8::F, m, m);
        assert((m & m) | (old_f & !m) == old_f | m) by (bit_vector);
    }

    /// Clears one flag and leaves the others.
    pub fn clear_flag(&mut self, f: Flag)
        ensures
            *final(self) == old(self).with8(Reg8::F, old(self).r8(Reg8::F) & !f.spec_mask()),
    {
        let m = f.mask();
        let old_f = self.f;
        self.write_mask(Reg8::F, 0, m);
        assert((0u8 & m) | (old_f & !m) == old_f & !m) by (bit_vector);
    }

    pub fn get_flag(&self, f: Flag) -> (r: bool)
        ensures
            r == self.flag(f),
    {
        self.f & f.mask() != 0
    }
}

impl RegType<Reg8> for Registers {
    type Output = u8;

    fn write(&mut self, reg: Reg8, v: u8)
        ensures
            *final(self) == old(self).with8(reg, v),
    {
        match reg {
            Reg8::A => {
                self.a = v;
            },
            Reg8::F => {
                self.f = v & Registers::default_mask();
            },
            Reg8::B => {
                self.b = v;
            },
            Reg8::C => {
                self.c = v;
            },
            Reg8::D => {
                self.d = v;
            },
            Reg8::E => {
                self.e = v;
            },
            Reg8::H => {
                self.h = v;
            },
            Reg8::L => {
                self.l = v;
            },
        }
    }

    /// Writes the bits of `val` selected by `mask` and keeps the others.
    fn write_mask(&mut self, reg: Reg8, val: u8, mask: u8)
        ensures
            *final(self) == old(self).with8(reg, (val & mask) | (old(self).r8(reg) & !mask)),
    {
        let old = self.read(reg);
        self.write(reg, (val & mask) | (old & !mask));
    }

    fn read(&self, r: Reg8) -> (v: u8)
        ensures
            v == self.r8(r),
    {
        match r {
            Reg8::A => self.a,
            Reg8::F => self.f,
            Reg8::B => self.b,
            Reg8::C => self.c,
            Reg8::D => self.d,
            Reg8::E => self.e,
            Reg8::H => self.h,
            Reg8::L => self.l,
        }
    }

    fn read_mask(&self, reg: Reg8, mask: u8) -> (v: u8)
        ensures
            v == self.r8(reg) & mask,
    {
        self.read(reg) & mask
    }
}

impl RegType<Reg16> for Registers {
    type Output = u16;

    fn write(&mut self, r: Reg16, v: u16)
        ensures
            *final(self) == old(self).with16(r, v),
    {
        let hi = (v / 256) as u8;
        let lo = (v % 256) as u8;
        match r {
            Reg16::AF => {
                self.write(Reg8::A, hi);
                self.write(Reg8::F, lo);
            },
            Reg16::BC => {
                self.write(Reg8::B, hi);
                self.write(Reg8::C, lo);
            },
            Reg16::DE => {
                self.write(Reg8::D, hi);
                self.write(Reg8::E, lo);
            },
            Reg16::HL => {
                self.write(Reg8::H, hi);
                self.write(Reg8::L, lo);
            },
            Reg16::SP => self.sp = v,
            Reg16::PC => self.pc = v,
        }
    }

    fn write_mask(&mut self, r: Reg16, val: u16, mask: u16)
        ensures
            *final(self) == old(self).with16(r, (val & mask) | (old(self).r16(r) & !mask)),
    {
        let old = self.read(r);
        self.write(r, (val & mask) | (old & !mask));
    }

    fn read(&self, r: Reg16) -> (v: u16)
        ensures
            v == self.r16(r),
    {
        match r {
            Reg16::AF => self.a as u16 * 256 + self.f as u16,
            Reg16::BC => self.b as u16 * 256 + self.c as u16,
            Reg16::DE => self.d as u16 * 256 + self.e as u16,
            Reg16::HL => self.h as u16 * 256 + self.l as u16,
            Reg16::SP => self.sp,
            Reg16::PC => self.pc,
        }
    }

    fn read_mask(&self, r: Reg16, mask: u16) -> (v: u16)
        ensures
            v == self.r16(r) & mask,
    {
        self.read(r) & mask
    }
}

} // verus!
