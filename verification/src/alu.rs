//! The arithmetic and logic unit of the SM83 core: pure functions from
//! operands to a result and the flag byte (Z N H C in the high nibble).
use vstd::prelude::*;

verus! {

/// The flag byte with the zero, subtract, half-carry and carry bits set as given.
pub open spec fn flag_bits(z: bool, n: bool, h: bool, c: bool) -> u8 {
    ((if z { 0x80int } else { 0 }) + (if n { 0x40int } else { 0 }) + (if h { 0x20int } else { 0 })
        + (if c { 0x10int } else { 0 })) as u8
}

/// Each flag can be read back from the byte that `flag_bits` builds, and the
/// low nibble of that byte is always clear.
pub proof fn lemma_flag_bits_decode(z: bool, n: bool, h: bool, c: bool)
    ensures
        (flag_bits(z, n, h, c) & 0x80 != 0) == z,
        (flag_bits(z, n, h, c) & 0x40 != 0) == n,
        (flag_bits(z, n, h, c) & 0x20 != 0) == h,
        (flag_bits(z, n, h, c) & 0x10 != 0) == c,
        flag_bits(z, n, h, c) & 0x0f == 0,
        flag_bits(z, n, h, c) & 0xf0 == flag_bits(z, n, h, c),
        flag_bits(z, n, h, c) & !0x10u8 == flag_bits(z, n, h, false),
{
    let f = flag_bits(z, n, h, c);
    let g = flag_bits(z, n, h, false);
    let zb: u8 = if z { 0x80 } else { 0 };
    let nb: u8 = if n { 0x40 } else { 0 };
    let hb: u8 = if h { 0x20 } else { 0 };
    let cb: u8 = if c { 0x10 } else { 0 };
    assert(f == zb + nb + hb + cb);
    assert(g == zb + nb + hb);
    assert((zb == 0 || zb == 0x80) && (nb == 0 || nb == 0x40) && (hb == 0 || hb == 0x20) && (cb
        == 0 || cb == 0x10) ==> {
        let s = (zb + nb + hb + cb) as u8;
        &&& (s & 0x80 != 0) == (zb != 0)
        &&& (s & 0x40 != 0) == (nb != 0)
        &&& (s & 0x20 != 0) == (hb != 0)
        &&& (s & 0x10 != 0) == (cb != 0)
        &&& s & 0x0f == 0
        &&& s & 0xf0 == s
        &&& s & !0x10u8 == (zb + nb + hb) as u8
    }) by (bit_vector);
}

/// Builds the flag byte at run time.
pub(crate) fn make_flags(z: bool, n: bool, h: bool, c: bool) -> (r: u8)
    ensures
        r == flag_bits(z, n, h, c),
{
    let mut f: u8 = 0;
    if z {
        f = f + 0x80;
    }
    if n {
        f = f + 0x40;
    }
    if h {
        f = f + 0x20;
    }
    if c {
        f = f + 0x10;
    }
    f
}

/// The rotate/shift helpers below are stated arithmetically; these facts tie
/// the bit operations that compute them to that arithmetic.
proof fn lemma_shift_facts(a: u8)
    ensures
        (a << 1u8) == (a * 2) % 256,
        a >> 1u8 == a / 2,
        a >> 7u8 == a / 128,
        (a << 7u8) == (a % 2) * 128,
        a & 0x80 == (a / 128) * 128,
        (a & 0x80 > 0) == (a >= 128),
        (a & 0x01 > 0) == (a % 2 == 1),
        ((a & 0x0f) << 4u8) | ((a & 0xf0) >> 4u8) == (a % 16) * 16 + a / 16,
        (a & 0x0f) == a % 16,
{
    assert((a << 1u8) == (a * 2) % 256) by (bit_vector);
    assert(a >> 1u8 == a / 2) by (bit_vector);
    assert(a >> 7u8 == a / 128) by (bit_vector);
    assert((a << 7u8) == (a % 2) * 128) by (bit_vector);
    assert(a & 0x80 == (a / 128) * 128) by (bit_vector);
    assert((a & 0x80 > 0) == (a >= 128)) by (bit_vector);
    assert((a & 0x01 > 0) == (a % 2 == 1)) by (bit_vector);
    assert(((a & 0x0f) << 4u8) | ((a & 0xf0) >> 4u8) == (a % 16) * 16 + a / 16) by (bit_vector);
    assert((a & 0x0f) == a % 16) by (bit_vector);
}

proof fn lemma_or_low(x: u8, y: u8)
    requires
        x % 2 == 0,
        y < 2,
    ensures
        x | y == x + y,
{
    assert(x % 2 == 0 && y < 2 ==> x | y == x + y) by (bit_vector);
}

proof fn lemma_or_high(x: u8, y: u8)
    requires
        x < 128,
        y == 0 || y == 128,
    ensures
        x | y == x + y,
{
    assert(x < 128 && (y == 0 || y == 128) ==> x | y == x + y) by (bit_vector);
}

/// Namespace of the arithmetic operations.
pub struct ALU {}

impl ALU {
    /// Bitwise and: Z from the result, H always set.
    pub fn and(a: u8, b: u8) -> (r: (u8, u8))
        ensures
            r.0 == a & b,
            r.1 == flag_bits(a & b == 0, false, true, false),
    {
        let res = a & b;
        (res, make_flags(res == 0, false, true, false))
    }

    /// Bitwise exclusive or: only Z can be set.
    pub fn xor(a: u8, b: u8) -> (r: (u8, u8))
        ensures
            r.0 == a ^ b,
            r.1 == flag_bits(a ^ b == 0, false, false, false),
    {
        let res = a ^ b;
        (res, make_flags(res == 0, false, false, false))
    }

    /// Bitwise or: only Z can be set.
    pub fn or(a: u8, b: u8) -> (r: (u8, u8))
        ensures
            r.0 == a | b,
            r.1 == flag_bits(a | b == 0, false, false, false),
    {
        let res = a | b;
        (res, make_flags(res == 0, false, false, false))
    }

    /// Tests bit `a` of `b`: the result is that bit in place; Z is set when it
    /// is clear, H is set, N is clear.
    pub fn bit(a: u8, b: u8) -> (r: (u8, u8))
        requires
            a < 8,
        ensures
            r.0 == (1u8 << a) & b,
            r.1 == flag_bits((1u8 << a) & b == 0, false, true, false),
    {
        let res = (1u8 << a) & b;
        (res, make_flags(res == 0, false, true, false))
    }

    /// Addition with carry in: the result is `a + b + carry` modulo 256, H is
    /// the carry out of the low nibble, C the carry out of the byte.
    pub fn adc(a: u8, b: u8, carry: bool) -> (r: (u8, u8))
        ensures
            r.0 == (a + b + (if carry { 1int } else { 0 })) % 256,
            r.1 == flag_bits(
                (a + b + (if carry { 1int } else { 0 })) % 256 == 0,
                false,
                a % 16 + b % 16 + (if carry { 1int } else { 0 }) >= 16,
                a + b + (if carry { 1int } else { 0 }) > 255,
            ),
    {
        let (sum, flags) = <ALU as ALUOps<u8>>::add(a, b);
        let mut res = sum;
        let mut h = a % 16 + b % 16 >= 16;
        let mut c = a as u16 + b as u16 > 255;
        if carry {
            let h2 = <ALU as ALUOps<u8>>::half_carry(res, 1);
            let c2 = res == 255;
            h = h || h2;
            c = c || c2;
            res = if res == 255 {
                0
            } else {
                res + 1
            };
        }
        (res, make_flags(res == 0, false, h, c))
    }

    /// Subtraction with borrow in: the result is `a - b - carry` modulo 256,
    /// H is the borrow from the low nibble, C the borrow from the byte.
    pub fn sbc(a: u8, b: u8, carry: bool) -> (r: (u8, u8))
        ensures
            r.0 == (a - b - (if carry { 1int } else { 0 }) + 512) % 256,
            r.1 == flag_bits(
                (a - b - (if carry { 1int } else { 0 }) + 512) % 256 == 0,
                true,
                a % 16 < b % 16 + (if carry { 1int } else { 0 }),
                a < b + (if carry { 1int } else { 0 }),
            ),
    {
        let (diff, flags) = <ALU as ALUOps<u8>>::sub(a, b);
        let mut res = diff;
        let mut h = <ALU as ALUOps<u8>>::sub_carry(a, b);
        let mut c = a < b;
        if carry {
            let h2 = <ALU as ALUOps<u8>>::sub_carry(res, 1);
            let c2 = res == 0;
            h = h || h2;
            c = c || c2;
            res = if res == 0 {
                255
            } else {
                res - 1
            };
        }
        (res, make_flags(res == 0, true, h, c))
    }

    /// Rotate left. Through the carry, bit 0 takes the old carry; otherwise it
    /// takes the old bit 7. C takes the old bit 7; Z is reported only when
    /// `with_zero` holds.
    pub fn rlca(a: u8, c: bool, thru_carry: bool, with_zero: bool) -> (r: (u8, u8))
        ensures
            r.0 == (a * 2) % 256 + (if thru_carry {
                if c { 1int } else { 0 }
            } else {
                a as int / 128
            }),
            r.1 == flag_bits(with_zero && r.0 == 0, false, false, a >= 128),
    {
        proof {
            lemma_shift_facts(a);
        }
        let shifted = a << 1u8;
        let low: u8 = if thru_carry {
            if c {
                1
            } else {
                0
            }
        } else {
            a >> 7u8
        };
        proof {
            lemma_or_low(shifted, low);
        }
        let res = shifted | low;
        (res, make_flags(with_zero && res == 0, false, false, a & 0x80 > 0))
    }

    /// Rotate right. Through the carry, bit 7 takes the old carry; otherwise
    /// it takes the old bit 0. C takes the old bit 0.
    pub fn rrca(a: u8, c: bool, thru_carry: bool, with_zero: bool) -> (r: (u8, u8))
        ensures
            r.0 == a / 2 + (if thru_carry {
                if c { 128int } else { 0 }
            } else {
                (a % 2) * 128
            }),
            r.1 == flag_bits(with_zero && r.0 == 0, false, false, a % 2 == 1),
    {
        proof {
            lemma_shift_facts(a);
        }
        let shifted = a >> 1u8;
        let high: u8 = if thru_carry {
            if c {
                0x80
            } else {
                0
            }
        } else {
            a << 7u8
        };
        proof {
            lemma_or_high(shifted, high);
        }
        let res = shifted | high;
        (res, make_flags(with_zero && res == 0, false, false, a & 0x01 > 0))
    }

    /// Arithmetic shift left: bit 7 goes to C, bit 0 is cleared.
    pub fn sla(a: u8) -> (r: (u8, u8))
        ensures
            r.0 == (a * 2) % 256,
            r.1 == flag_bits((a * 2) % 256 == 0, false, false, a >= 128),
    {
        proof {
            lemma_shift_facts(a);
        }
        let res = a << 1u8;
        (res, make_flags(res == 0, false, false, a & 0x80 > 0))
    }

    /// Shift right: bit 0 goes to C; an arithmetic shift keeps bit 7, a
    /// logical one clears it.
    pub fn sr(a: u8, arith: bool) -> (r: (u8, u8))
        ensures
            r.0 == a / 2 + (if arith { (a / 128) * 128 } else { 0int }),
            r.1 == flag_bits(r.0 == 0, false, false, a % 2 == 1),
    {
        proof {
            lemma_shift_facts(a);
        }
        let high: u8 = if arith {
            a & 0x80
        } else {
            0
        };
        proof {
            lemma_or_high(a >> 1u8, high);
        }
        let res = a >> 1u8 | high;
        (res, make_flags(res == 0, false, false, a & 0x01 > 0))
    }

    /// Exchanges the two nibbles; only Z can be set.
    pub fn swap(a: u8) -> (r: (u8, u8))
        ensures
            r.0 == (a % 16) * 16 + a / 16,
            r.1 == flag_bits((a % 16) * 16 + a / 16 == 0, false, false, false),
    {
        proof {
            lemma_shift_facts(a);
        }
        let res = ((a & 0x0f) << 4u8) | ((a & 0xf0) >> 4u8);
        (res, make_flags(res == 0, false, false, false))
    }
}

/// Addition, subtraction, increment and decrement at a given width, with the
/// flag byte they produce.
pub trait ALUOps<T> {
    fn add(a: T, b: T) -> (T, u8);

    fn sub(a: T, b: T) -> (T, u8);

    fn dec(a: T) -> (T, u8);

    fn inc(a: T) -> (T, u8);

    fn half_carry(a: T, b: T) -> bool;

    fn sub_carry(a: T, b: T) -> bool;
}

impl ALUOps<u8> for ALU {
    /// Carry out of bit 3.
    fn half_carry(a: u8, b: u8) -> (r: bool)
        ensures
            r == (a % 16 + b % 16 >= 16),
    {
        assert((a & 0xF) < 16 && (b & 0xF) < 16) by (bit_vector);
        assert((((a & 0xF) + (b & 0xF)) as u8) & 0x10 != 0 <==> a % 16 + b % 16 >= 16)
            by (bit_vector);
        ((a & 0xF) + (b & 0xF)) & 0x10 != 0
    }

    /// Borrow from bit 4.
    fn sub_carry(a: u8, b: u8) -> (r: bool)
        ensures
            r == (a % 16 < b % 16),
    {
        assert((a & 0xf) == a % 16 && (b & 0xf) == b % 16) by (bit_vector);
        a & 0xf < b & 0xf
    }

    fn add(a: u8, b: u8) -> (r: (u8, u8))
        ensures
            r.0 == (a + b) % 256,
            r.1 == flag_bits((a + b) % 256 == 0, false, a % 16 + b % 16 >= 16, a + b > 255),
    {
        let c = a as u16 + b as u16 > 255;
        let res: u8 = if c {
            (a as u16 + b as u16 - 256) as u8
        } else {
            a + b
        };
        let h = Self::half_carry(a, b);
        (res, make_flags(res == 0, false, h, c))
    }

    fn sub(a: u8, b: u8) -> (r: (u8, u8))
        ensures
            r.0 == (a - b + 256) % 256,
            r.1 == flag_bits((a - b + 256) % 256 == 0, true, a % 16 < b % 16, a < b),
    {
        let c = a < b;
        let res: u8 = if c {
            (a as u16 + 256 - b as u16) as u8
        } else {
            a - b
        };
        let h = Self::sub_carry(a, b);
        (res, make_flags(res == 0, true, h, c))
    }

    /// Decrement: as `sub(a, 1)` with the carry flag cleared.
    fn dec(a: u8) -> (r: (u8, u8))
        ensures
            r.0 == (a - 1 + 256) % 256,
            r.1 == flag_bits((a - 1 + 256) % 256 == 0, true, a % 16 < 1, false),
    {
        let (res, flags) = Self::sub(a, 1);
        proof {
            lemma_flag_bits_decode(res == 0, true, a % 16 < 1, a < 1);
        }
        (res, flags & !0x10u8)
    }

    /// Increment: as `add(a, 1)` with the carry flag cleared.
    fn inc(a: u8) -> (r: (u8, u8))
        ensures
            r.0 == (a + 1) % 256,
            r.1 == flag_bits((a + 1) % 256 == 0, false, a % 16 + 1 >= 16, false),
    {
        let (res, flags) = Self::add(a, 1);
        proof {
            lemma_flag_bits_decode(res == 0, false, a % 16 + 1 >= 16, a + 1 > 255);
        }
        (res, flags & !0x10u8)
    }
}

impl ALUOps<u16> for ALU {
    /// Carry out of bit 11.
    fn half_carry(a: u16, b: u16) -> (r: bool)
        ensures
            r == (a % 4096 + b % 4096 >= 4096),
    {
        assert((a & 0xFFF) < 4096 && (b & 0xFFF) < 4096) by (bit_vector);
        assert((((a & 0xFFF) + (b & 0xFFF)) as u16) & 0x1000 != 0 <==> a % 4096 + b % 4096
            >= 4096) by (bit_vector);
        ((a & 0xFFF) + (b & 0xFFF)) & 0x1000 != 0
    }

    /// Borrow from bit 12.
    fn sub_carry(a: u16, b: u16) -> (r: bool)
        ensures
            r == (a % 4096 < b % 4096),
    {
        assert((a & 0xfff) == a % 4096 && (b & 0xfff) == b % 4096) by (bit_vector);
        a & 0xfff < b & 0xfff
    }

    fn add(a: u16, b: u16) -> (r: (u16, u8))
        ensures
            r.0 == (a + b) % 65536,
            r.1 == flag_bits(
                (a + b) % 65536 == 0,
                false,
                a % 4096 + b % 4096 >= 4096,
                a + b > 65535,
            ),
    {
        let c = a as u32 + b as u32 > 65535;
        let res: u16 = if c {
            (a as u32 + b as u32 - 65536) as u16
        } else {
            a + b
        };
        let h = Self::half_carry(a, b);
        (res, make_flags(res == 0, false, h, c))
    }

    fn sub(a: u16, b: u16) -> (r: (u16, u8))
        ensures
            r.0 == (a - b + 65536) % 65536,
            r.1 == flag_bits((a - b + 65536) % 65536 == 0, true, a % 4096 < b % 4096, a < b),
    {
        let c = a < b;
        let res: u16 = if c {
            (a as u32 + 65536 - b as u32) as u16
        } else {
            a - b
        };
        let h = Self::sub_carry(a, b);
        (res, make_flags(res == 0, true, h, c))
    }

    fn dec(a: u16) -> (r: (u16, u8))
        ensures
            r.0 == (a - 1 + 65536) % 65536,
            r.1 == flag_bits((a - 1 + 65536) % 65536 == 0, true, a % 4096 < 1, false),
    {
        let (res, flags) = Self::sub(a, 1);
        proof {
            lemma_flag_bits_decode(res == 0, true, a % 4096 < 1, a < 1);
        }
        (res, flags & !0x10u8)
    }

    fn inc(a: u16) -> (r: (u16, u8))
        ensures
            r.0 == (a + 1) % 65536,
            r.1 == flag_bits((a + 1) % 65536 == 0, false, a % 4096 + 1 >= 4096, false),
    {
        let (res, flags) = Self::add(a, 1);
        proof {
            lemma_flag_bits_decode(res == 0, false, a % 4096 + 1 >= 4096, a + 1 > 65535);
        }
        (res, flags & !0x10u8)
    }
}

} // verus!
