//! Facts about masks and shifts of bytes that the rest of the crate relies
//! on, proved once by bit blasting.
use vstd::prelude::*;

verus! {

/// Bounds of masked and shifted bytes, and a few masked constants.
pub proof fn lemma_byte_masks()
    by (bit_vector)
    ensures
        forall|x: u8| #[trigger] (x | 0u8) == x,
        forall|r0: u8, v: u8| #[trigger] (((r0 & !0xffu8) | (v & 0xffu8)) & 0xffu8) == v,
        forall|x: u8| #[trigger] (x & 1) <= 1,
        forall|x: u8| #[trigger] (x & 3) <= 3,
        forall|x: u8| #[trigger] (x & 7) < 8,
        forall|x: u8| #[trigger] (x & 0x1f) <= 0x1f,
        forall|x: u8| #[trigger] (x & 0x3f) < 64,
        forall|x: u8| #[trigger] (x & 0x7f) <= 127,
        forall|x: u8| #[trigger] (x >> 1u8) <= 127,
        forall|x: u8| #[trigger] (x & 0xf0) <= x,
        forall|x: u8| #[trigger] ((x & 0xf0) & 0x0f) == 0,
        forall|m: u8| #[trigger] ((0u8 & m) & 0x80) == 0,
        forall|x: usize| #[trigger] (x & 0x1f) <= 0x1f,
        0u8 & 1u8 == 0,
        0u8 & 7u8 == 0,
        0u8 & 0x0f == 0,
        0u8 & 0xf0u8 == 0,
        0u8 & 0xffu8 == 0,
        (0x80u8 & 0xffu8) & 0x80 != 0,
{
}


/// How the bank register writes of the memory bank controllers combine:
/// masks as remainders, and the register values they leave.
pub proof fn lemma_bank_bits()
    by (bit_vector)
    ensures
        forall|h: u8| #[trigger] (h & 1) == h % 2,
        forall|v: u8| #[trigger] (v & 0x7f) == v % 128,
        forall|v: u8| #[trigger] (v & 0x1f) == v % 32,
        forall|u: u8| #[trigger] (u & 3) == u % 4,
        forall|r: usize, v: u8, h: u8|
            #[trigger] ((((r & 0xff00) | (v as usize)) & 0x00ff) | (((h & 1) as usize * 256) as usize)) == (v as usize) + (h & 1) as usize * 256,
        forall|r: usize, v: u8, u: u8, one: usize|
            one == (if v & 0x1f == 0 { 1usize } else { 0usize }) ==> #[trigger] ((((r & 0x60) | (v & 0x1f) as usize | one) & 0x1f) | (((u & 3) as usize * 32) as usize))
                == (if v & 0x1f == 0 { 1usize } else { (v & 0x1f) as usize }) + (u & 3) as usize * 32,
{
}

} // verus!
