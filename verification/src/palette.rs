//! Colour palettes for classic cartridges on colour hardware: the colour
//! table, the palettes selectable by key combination at boot, and the
//! palette chosen from the cartridge title.
use vstd::prelude::*;

verus! {

/// The colours palettes are built from, as [r, g, b].
pub const PALETTE_COLORS: [[u8; 3]; 76] = [
    [0x00, 0x00, 0x00],
    [0x00, 0x00, 0xff],
    [0x00, 0x3a, 0x3a],
    [0x00, 0x4a, 0x00],
    [0x00, 0x63, 0x00],
    [0x00, 0x63, 0xc5],
    [0x00, 0x84, 0x00],
    [0x00, 0x84, 0x84],
    [0x00, 0x84, 0xff],
    [0x00, 0xff, 0x00],
    [0x31, 0x84, 0x00],
    [0x3a, 0x29, 0x00],
    [0x42, 0x73, 0x7b],
    [0x4a, 0x00, 0x00],
    [0x52, 0x52, 0x52],
    [0x52, 0x52, 0x8c],
    [0x52, 0xde, 0x00],
    [0x52, 0xff, 0x00],
    [0x5a, 0x31, 0x08],
    [0x5a, 0x5a, 0x5a],
    [0x5a, 0xbd, 0xff],
    [0x63, 0x00, 0x00],
    [0x63, 0x94, 0x73],
    [0x63, 0xa5, 0xff],
    [0x63, 0xef, 0xef],
    [0x6b, 0x52, 0x31],
    [0x6b, 0xff, 0x00],
    [0x7b, 0x4a, 0x00],
    [0x7b, 0xff, 0x00],
    [0x7b, 0xff, 0x31],
    [0x84, 0x31, 0x00],
    [0x84, 0x6b, 0x29],
    [0x8c, 0x8c, 0xde],
    [0x94, 0x3a, 0x00],
    [0x94, 0x3a, 0x3a],
    [0x94, 0x42, 0x00],
    [0x94, 0x94, 0x94],
    [0x94, 0x94, 0xff],
    [0x94, 0xb5, 0xff],
    [0x9c, 0x63, 0x00],
    [0x9c, 0x84, 0x31],
    [0xa5, 0x84, 0x52],
    [0xa5, 0x9c, 0xff],
    [0xa5, 0xa5, 0xa5],
    [0xad, 0x5a, 0x42],
    [0xad, 0xad, 0x84],
    [0xb5, 0x73, 0x00],
    [0xb5, 0xb5, 0xff],
    [0xce, 0x9c, 0x84],
    [0xd6, 0x00, 0x00],
    [0xe6, 0x00, 0x00],
    [0xf7, 0xc5, 0xa5],
    [0xff, 0x00, 0x00],
    [0xff, 0x00, 0xff],
    [0xff, 0x42, 0x00],
    [0xff, 0x52, 0x4a],
    [0xff, 0x63, 0x52],
    [0xff, 0x73, 0x00],
    [0xff, 0x84, 0x00],
    [0xff, 0x84, 0x84],
    [0xff, 0x94, 0x94],
    [0xff, 0x9c, 0x00],
    [0xff, 0xad, 0x63],
    [0xff, 0xc5, 0x42],
    [0xff, 0xce, 0x00],
    [0xff, 0xd6, 0x00],
    [0xff, 0xde, 0x00],
    [0xff, 0xe6, 0xc5],
    [0xff, 0xff, 0x00],
    [0xff, 0xff, 0x3a],
    [0xff, 0xff, 0x7b],
    [0xff, 0xff, 0x94],
    [0xff, 0xff, 0x9c],
    [0xff, 0xff, 0xa5],
    [0xff, 0xff, 0xce],
    [0xff, 0xff, 0xff],
];

/// Colour numbers (indices into `PALETTE_COLORS`) for the four shades of
/// the background and of the two sprite palettes.
#[derive(Clone, Copy, Debug)]
pub struct CustomPalette {
    pub bg: [u8; 4],
    pub obj0: [u8; 4],
    pub obj1: [u8; 4],
}

/// Every colour number of the palette names an entry of the colour table.
pub open spec fn palette_ok(p: CustomPalette) -> bool {
    forall|i: int| 0 <= i < 4 ==> p.bg@[i] < 76 && p.obj0@[i] < 76 && p.obj1@[i] < 76
}

/// Number of palettes selectable by key combination.
pub const KEY_PALETTE_COUNT: usize = 12;

/// The palette selected by key combination `i`, if there is one.
pub open spec fn spec_key_palette(i: usize) -> Option<CustomPalette> {
    match i {
        0 => Some(CustomPalette { bg: [75, 17, 54, 0], obj0: [75, 17, 54, 0], obj1: [75, 17, 54, 0] }),
        1 => Some(CustomPalette { bg: [75, 68, 52, 0], obj0: [75, 68, 52, 0], obj1: [75, 68, 52, 0] }),
        2 => Some(CustomPalette { bg: [75, 62, 30, 0], obj0: [75, 62, 30, 0], obj1: [75, 62, 30, 0] }),
        3 => Some(CustomPalette { bg: [0, 7, 66, 75], obj0: [0, 7, 66, 75], obj1: [0, 7, 66, 75] }),
        4 => Some(CustomPalette { bg: [75, 43, 14, 0], obj0: [75, 43, 14, 0], obj1: [75, 43, 14, 0] }),
        5 => Some(CustomPalette { bg: [73, 60, 37, 0], obj0: [73, 60, 37, 0], obj1: [73, 60, 37, 0] }),
        6 => Some(CustomPalette { bg: [67, 48, 31, 18], obj0: [75, 62, 30, 0], obj1: [75, 62, 30, 0] }),
        7 => Some(CustomPalette { bg: [75, 29, 5, 0], obj0: [75, 59, 34, 0], obj1: [75, 59, 34, 0] }),
        8 => Some(CustomPalette { bg: [75, 32, 15, 0], obj0: [75, 59, 34, 0], obj1: [75, 62, 30, 0] }),
        9 => Some(CustomPalette { bg: [75, 59, 34, 0], obj0: [75, 29, 6, 0], obj1: [75, 23, 1, 0] }),
        10 => Some(CustomPalette { bg: [75, 23, 1, 0], obj0: [75, 59, 34, 0], obj1: [75, 29, 6, 0] }),
        11 => Some(CustomPalette { bg: [75, 68, 27, 0], obj0: [75, 23, 1, 0], obj1: [75, 29, 6, 0] }),
        _ => None,
    }
}

pub fn key_palette(i: usize) -> (r: Option<CustomPalette>)
    ensures
        r == spec_key_palette(i),
        r is Some <==> i < KEY_PALETTE_COUNT,
        r matches Some(p) ==> palette_ok(p),
{
    match i {
        0 => Some(CustomPalette { bg: [75, 17, 54, 0], obj0: [75, 17, 54, 0], obj1: [75, 17, 54, 0] }),
        1 => Some(CustomPalette { bg: [75, 68, 52, 0], obj0: [75, 68, 52, 0], obj1: [75, 68, 52, 0] }),
        2 => Some(CustomPalette { bg: [75, 62, 30, 0], obj0: [75, 62, 30, 0], obj1: [75, 62, 30, 0] }),
        3 => Some(CustomPalette { bg: [0, 7, 66, 75], obj0: [0, 7, 66, 75], obj1: [0, 7, 66, 75] }),
        4 => Some(CustomPalette { bg: [75, 43, 14, 0], obj0: [75, 43, 14, 0], obj1: [75, 43, 14, 0] }),
        5 => Some(CustomPalette { bg: [73, 60, 37, 0], obj0: [73, 60, 37, 0], obj1: [73, 60, 37, 0] }),
        6 => Some(CustomPalette { bg: [67, 48, 31, 18], obj0: [75, 62, 30, 0], obj1: [75, 62, 30, 0] }),
        7 => Some(CustomPalette { bg: [75, 29, 5, 0], obj0: [75, 59, 34, 0], obj1: [75, 59, 34, 0] }),
        8 => Some(CustomPalette { bg: [75, 32, 15, 0], obj0: [75, 59, 34, 0], obj1: [75, 62, 30, 0] }),
        9 => Some(CustomPalette { bg: [75, 59, 34, 0], obj0: [75, 29, 6, 0], obj1: [75, 23, 1, 0] }),
        10 => Some(CustomPalette { bg: [75, 23, 1, 0], obj0: [75, 59, 34, 0], obj1: [75, 29, 6, 0] }),
        11 => Some(CustomPalette { bg: [75, 68, 27, 0], obj0: [75, 23, 1, 0], obj1: [75, 29, 6, 0] }),
        _ => None,
    }
}

/// The key combination that selects palette `i`, if there is one.
pub fn key_palette_name(i: usize) -> (r: Option<&'static str>)
    ensures
        r is Some <==> i < KEY_PALETTE_COUNT,
{
    match i {
        0 => Some("Right"),
        1 => Some("A + Down"),
        2 => Some("Up"),
        3 => Some("B + Right"),
        4 => Some("B + Left"),
        5 => Some("Down"),
        6 => Some("B + Up"),
        7 => Some("A + Right"),
        8 => Some("A + Left"),
        9 => Some("A + Up"),
        10 => Some("Left"),
        11 => Some("B + Down"),
        _ => None,
    }
}

/// The palette the colour hardware picks for a classic cartridge from the
/// checksum of its title and the title's fourth byte.
pub open spec fn spec_builtin_palette(checksum: u8, dis: u8) -> CustomPalette {
    match (checksum, dis) {
        (0xdb, _) | (0x15, _) => CustomPalette { bg: [75, 68, 52, 0], obj0: [75, 68, 52, 0], obj1: [75, 68, 52, 0] },
        (0x6b, _) | (0x18, 0x4b) | (0x6a, 0x4b) => CustomPalette { bg: [75, 32, 15, 0], obj0: [63, 65, 33, 13], obj1: [75, 20, 52, 1] },
        (0x14, _) => CustomPalette { bg: [75, 59, 34, 0], obj0: [75, 29, 6, 0], obj1: [75, 59, 34, 0] },
        (0xa8, _) | (0x86, _) => CustomPalette { bg: [72, 38, 22, 2], obj0: [63, 65, 33, 13], obj1: [75, 59, 34, 0] },
        (0x4b, _) | (0x90, _) | (0x9a, _) | (0xbd, _) | (0x28, 0x46) => CustomPalette { bg: [75, 29, 6, 0], obj0: [75, 59, 34, 0], obj1: [75, 59, 34, 0] },
        (0x3d, _) | (0x6a, 0x49) => CustomPalette { bg: [75, 17, 54, 0], obj0: [75, 59, 34, 0], obj1: [75, 59, 34, 0] },
        (0x3e, _) | (0xe0, _) => CustomPalette { bg: [75, 61, 52, 0], obj0: [75, 61, 52, 0], obj1: [75, 20, 52, 1] },
        (0x4e, _) => CustomPalette { bg: [75, 23, 1, 0], obj0: [75, 59, 34, 0], obj1: [75, 70, 8, 52] },
        (0x17, _) | (0x8b, _) | (0x27, 0x4e) | (0x61, 0x41) => CustomPalette { bg: [75, 29, 6, 0], obj0: [75, 59, 34, 0], obj1: [75, 23, 1, 0] },
        (0x70, _) => CustomPalette { bg: [75, 59, 34, 0], obj0: [75, 9, 10, 3], obj1: [75, 23, 1, 0] },
        (0x3c, _) => CustomPalette { bg: [75, 23, 1, 0], obj0: [75, 23, 1, 0], obj1: [75, 59, 34, 0] },
        (0x46, 0x45) => CustomPalette { bg: [47, 71, 44, 0], obj0: [0, 75, 59, 34], obj1: [0, 75, 59, 34] },
        (0x5c, _) | (0x49, _) | (0xb3, 0x42) | (0x27, 0x42) => CustomPalette { bg: [42, 68, 4, 0], obj0: [56, 49, 21, 0], obj1: [1, 75, 70, 8] },
        (0x10, _) | (0xf6, _) | (0x68, _) | (0x29, _) | (0x52, _) | (0x01, _) | (0x5d, _) | (0x6d, _) => CustomPalette { bg: [75, 62, 30, 0], obj0: [75, 23, 1, 0], obj1: [75, 29, 6, 0] },
        (0x19, _) => CustomPalette { bg: [75, 61, 52, 0], obj0: [75, 59, 34, 0], obj1: [75, 59, 34, 0] },
        (0xd3, 0x52) => CustomPalette { bg: [75, 32, 15, 0], obj0: [75, 59, 34, 0], obj1: [75, 32, 15, 0] },
        (0xbf, 0x20) => CustomPalette { bg: [75, 32, 15, 0], obj0: [75, 59, 34, 0], obj1: [75, 59, 34, 0] },
        (0xf2, _) | (0x69, _) | (0x0d, 0x52) => CustomPalette { bg: [75, 68, 52, 0], obj0: [75, 68, 52, 0], obj1: [75, 20, 52, 1] },
        (0x95, _) | (0xb3, 0x52) => CustomPalette { bg: [75, 17, 54, 0], obj0: [75, 17, 54, 0], obj1: [75, 20, 52, 1] },
        (0x8c, _) => CustomPalette { bg: [75, 45, 12, 0], obj0: [75, 57, 35, 0], obj1: [75, 45, 12, 0] },
        (0x59, _) | (0xc6, 0x41) => CustomPalette { bg: [75, 45, 12, 0], obj0: [75, 57, 35, 0], obj1: [75, 20, 52, 1] },
        (0x97, _) | (0x39, _) | (0x43, _) => CustomPalette { bg: [75, 62, 30, 0], obj0: [75, 23, 1, 0], obj1: [75, 23, 1, 0] },
        (0xc9, _) => CustomPalette { bg: [74, 24, 40, 19], obj0: [75, 57, 35, 0], obj1: [75, 23, 1, 0] },
        (0x9c, _) => CustomPalette { bg: [75, 32, 15, 0], obj0: [75, 32, 15, 0], obj1: [63, 65, 33, 13] },
        (0xf4, 0x2d) => CustomPalette { bg: [75, 29, 5, 0], obj0: [75, 59, 34, 0], obj1: [75, 23, 1, 0] },
        (0x16, _) | (0x92, _) | (0x35, _) | (0x75, _) | (0x99, _) | (0x0c, _) | (0xb7, _) | (0x67, _) => CustomPalette { bg: [75, 62, 30, 0], obj0: [75, 62, 30, 0], obj1: [75, 62, 30, 0] },
        (0xd3, 0x49) => CustomPalette { bg: [75, 45, 12, 0], obj0: [75, 62, 30, 0], obj1: [75, 23, 1, 0] },
        (0x88, _) => CustomPalette { bg: [42, 68, 4, 0], obj0: [42, 68, 4, 0], obj1: [42, 68, 4, 0] },
        (0x34, _) | (0x66, 0x45) | (0xf4, 0x20) => CustomPalette { bg: [75, 28, 46, 0], obj0: [75, 59, 34, 0], obj1: [75, 59, 34, 0] },
        (0x46, 0x52) => CustomPalette { bg: [75, 23, 1, 0], obj0: [68, 52, 21, 0], obj1: [75, 29, 6, 0] },
        (0xe8, _) | (0x28, 0x41) | (0xa5, 0x41) => CustomPalette { bg: [0, 7, 66, 75], obj0: [0, 7, 66, 75], obj1: [0, 7, 66, 75] },
        (0xa5, 0x52) => CustomPalette { bg: [75, 62, 30, 0], obj0: [75, 29, 6, 0], obj1: [75, 29, 6, 0] },
        (0xb3, 0x55) => CustomPalette { bg: [75, 45, 12, 0], obj0: [75, 57, 35, 0], obj1: [75, 57, 35, 0] },
        (0xaa, _) => CustomPalette { bg: [75, 29, 5, 0], obj0: [75, 59, 34, 0], obj1: [75, 29, 5, 0] },
        (0x36, _) => CustomPalette { bg: [16, 58, 68, 75], obj0: [75, 75, 23, 1], obj1: [75, 59, 34, 0] },
        (0xff, _) | (0x71, _) => CustomPalette { bg: [75, 61, 52, 0], obj0: [75, 61, 52, 0], obj1: [75, 61, 52, 0] },
        (0x1d, _) => CustomPalette { bg: [42, 68, 4, 0], obj0: [56, 49, 21, 0], obj1: [56, 49, 21, 0] },
        (0x0d, 0x45) => CustomPalette { bg: [75, 32, 15, 0], obj0: [63, 65, 33, 13], obj1: [63, 65, 33, 13] },
        (0xf7, _) | (0xa2, _) => CustomPalette { bg: [75, 62, 30, 0], obj0: [75, 29, 6, 0], obj1: [75, 23, 1, 0] },
        (0x9d, _) => CustomPalette { bg: [75, 32, 15, 0], obj0: [75, 59, 34, 0], obj1: [75, 62, 30, 0] },
        (0x58, _) => CustomPalette { bg: [75, 43, 14, 0], obj0: [75, 43, 14, 0], obj1: [75, 43, 14, 0] },
        (0x6f, _) => CustomPalette { bg: [75, 64, 39, 0], obj0: [75, 64, 39, 0], obj1: [75, 64, 39, 0] },
        (0x61, 0x45) => CustomPalette { bg: [75, 23, 1, 0], obj0: [75, 59, 34, 0], obj1: [75, 23, 1, 0] },
        (0xd1, _) | (0xf0, _) | (0xce, _) | (0xbf, 0x43) => CustomPalette { bg: [26, 75, 55, 0], obj0: [75, 75, 23, 1], obj1: [75, 62, 30, 0] },
        (0x3f, _) | (0xc6, 0x20) | (0x18, 0x49) | (0x66, 0x4c) | (_, _) => CustomPalette { bg: [75, 29, 5, 0], obj0: [75, 59, 34, 0], obj1: [75, 59, 34, 0] },
    }
}

pub fn builtin_palette(checksum: u8, dis: u8) -> (r: CustomPalette)
    ensures
        r == spec_builtin_palette(checksum, dis),
        palette_ok(r),
{
    match (checksum, dis) {
        (0xdb, _) | (0x15, _) => CustomPalette { bg: [75, 68, 52, 0], obj0: [75, 68, 52, 0], obj1: [75, 68, 52, 0] },
        (0x6b, _) | (0x18, 0x4b) | (0x6a, 0x4b) => CustomPalette { bg: [75, 32, 15, 0], obj0: [63, 65, 33, 13], obj1: [75, 20, 52, 1] },
        (0x14, _) => CustomPalette { bg: [75, 59, 34, 0], obj0: [75, 29, 6, 0], obj1: [75, 59, 34, 0] },
        (0xa8, _) | (0x86, _) => CustomPalette { bg: [72, 38, 22, 2], obj0: [63, 65, 33, 13], obj1: [75, 59, 34, 0] },
        (0x4b, _) | (0x90, _) | (0x9a, _) | (0xbd, _) | (0x28, 0x46) => CustomPalette { bg: [75, 29, 6, 0], obj0: [75, 59, 34, 0], obj1: [75, 59, 34, 0] },
        (0x3d, _) | (0x6a, 0x49) => CustomPalette { bg: [75, 17, 54, 0], obj0: [75, 59, 34, 0], obj1: [75, 59, 34, 0] },
        (0x3e, _) | (0xe0, _) => CustomPalette { bg: [75, 61, 52, 0], obj0: [75, 61, 52, 0], obj1: [75, 20, 52, 1] },
        (0x4e, _) => CustomPalette { bg: [75, 23, 1, 0], obj0: [75, 59, 34, 0], obj1: [75, 70, 8, 52] },
        (0x17, _) | (0x8b, _) | (0x27, 0x4e) | (0x61, 0x41) => CustomPalette { bg: [75, 29, 6, 0], obj0: [75, 59, 34, 0], obj1: [75, 23, 1, 0] },
        (0x70, _) => CustomPalette { bg: [75, 59, 34, 0], obj0: [75, 9, 10, 3], obj1: [75, 23, 1, 0] },
        (0x3c, _) => CustomPalette { bg: [75, 23, 1, 0], obj0: [75, 23, 1, 0], obj1: [75, 59, 34, 0] },
        (0x46, 0x45) => CustomPalette { bg: [47, 71, 44, 0], obj0: [0, 75, 59, 34], obj1: [0, 75, 59, 34] },
        (0x5c, _) | (0x49, _) | (0xb3, 0x42) | (0x27, 0x42) => CustomPalette { bg: [42, 68, 4, 0], obj0: [56, 49, 21, 0], obj1: [1, 75, 70, 8] },
        (0x10, _) | (0xf6, _) | (0x68, _) | (0x29, _) | (0x52, _) | (0x01, _) | (0x5d, _) | (0x6d, _) => CustomPalette { bg: [75, 62, 30, 0], obj0: [75, 23, 1, 0], obj1: [75, 29, 6, 0] },
        (0x19, _) => CustomPalette { bg: [75, 61, 52, 0], obj0: [75, 59, 34, 0], obj1: [75, 59, 34, 0] },
        (0xd3, 0x52) => CustomPalette { bg: [75, 32, 15, 0], obj0: [75, 59, 34, 0], obj1: [75, 32, 15, 0] },
        (0xbf, 0x20) => CustomPalette { bg: [75, 32, 15, 0], obj0: [75, 59, 34, 0], obj1: [75, 59, 34, 0] },
        (0xf2, _) | (0x69, _) | (0x0d, 0x52) => CustomPalette { bg: [75, 68, 52, 0], obj0: [75, 68, 52, 0], obj1: [75, 20, 52, 1] },
        (0x95, _) | (0xb3, 0x52) => CustomPalette { bg: [75, 17, 54, 0], obj0: [75, 17, 54, 0], obj1: [75, 20, 52, 1] },
        (0x8c, _) => CustomPalette { bg: [75, 45, 12, 0], obj0: [75, 57, 35, 0], obj1: [75, 45, 12, 0] },
        (0x59, _) | (0xc6, 0x41) => CustomPalette { bg: [75, 45, 12, 0], obj0: [75, 57, 35, 0], obj1: [75, 20, 52, 1] },
        (0x97, _) | (0x39, _) | (0x43, _) => CustomPalette { bg: [75, 62, 30, 0], obj0: [75, 23, 1, 0], obj1: [75, 23, 1, 0] },
        (0xc9, _) => CustomPalette { bg: [74, 24, 40, 19], obj0: [75, 57, 35, 0], obj1: [75, 23, 1, 0] },
        (0x9c, _) => CustomPalette { bg: [75, 32, 15, 0], obj0: [75, 32, 15, 0], obj1: [63, 65, 33, 13] },
        (0xf4, 0x2d) => CustomPalette { bg: [75, 29, 5, 0], obj0: [75, 59, 34, 0], obj1: [75, 23, 1, 0] },
        (0x16, _) | (0x92, _) | (0x35, _) | (0x75, _) | (0x99, _) | (0x0c, _) | (0xb7, _) | (0x67, _) => CustomPalette { bg: [75, 62, 30, 0], obj0: [75, 62, 30, 0], obj1: [75, 62, 30, 0] },
        (0xd3, 0x49) => CustomPalette { bg: [75, 45, 12, 0], obj0: [75, 62, 30, 0], obj1: [75, 23, 1, 0] },
        (0x88, _) => CustomPalette { bg: [42, 68, 4, 0], obj0: [42, 68, 4, 0], obj1: [42, 68, 4, 0] },
        (0x34, _) | (0x66, 0x45) | (0xf4, 0x20) => CustomPalette { bg: [75, 28, 46, 0], obj0: [75, 59, 34, 0], obj1: [75, 59, 34, 0] },
        (0x46, 0x52) => CustomPalette { bg: [75, 23, 1, 0], obj0: [68, 52, 21, 0], obj1: [75, 29, 6, 0] },
        (0xe8, _) | (0x28, 0x41) | (0xa5, 0x41) => CustomPalette { bg: [0, 7, 66, 75], obj0: [0, 7, 66, 75], obj1: [0, 7, 66, 75] },
        (0xa5, 0x52) => CustomPalette { bg: [75, 62, 30, 0], obj0: [75, 29, 6, 0], obj1: [75, 29, 6, 0] },
        (0xb3, 0x55) => CustomPalette { bg: [75, 45, 12, 0], obj0: [75, 57, 35, 0], obj1: [75, 57, 35, 0] },
        (0xaa, _) => CustomPalette { bg: [75, 29, 5, 0], obj0: [75, 59, 34, 0], obj1: [75, 29, 5, 0] },
        (0x36, _) => CustomPalette { bg: [16, 58, 68, 75], obj0: [75, 75, 23, 1], obj1: [75, 59, 34, 0] },
        (0xff, _) | (0x71, _) => CustomPalette { bg: [75, 61, 52, 0], obj0: [75, 61, 52, 0], obj1: [75, 61, 52, 0] },
        (0x1d, _) => CustomPalette { bg: [42, 68, 4, 0], obj0: [56, 49, 21, 0], obj1: [56, 49, 21, 0] },
        (0x0d, 0x45) => CustomPalette { bg: [75, 32, 15, 0], obj0: [63, 65, 33, 13], obj1: [63, 65, 33, 13] },
        (0xf7, _) | (0xa2, _) => CustomPalette { bg: [75, 62, 30, 0], obj0: [75, 29, 6, 0], obj1: [75, 23, 1, 0] },
        (0x9d, _) => CustomPalette { bg: [75, 32, 15, 0], obj0: [75, 59, 34, 0], obj1: [75, 62, 30, 0] },
        (0x58, _) => CustomPalette { bg: [75, 43, 14, 0], obj0: [75, 43, 14, 0], obj1: [75, 43, 14, 0] },
        (0x6f, _) => CustomPalette { bg: [75, 64, 39, 0], obj0: [75, 64, 39, 0], obj1: [75, 64, 39, 0] },
        (0x61, 0x45) => CustomPalette { bg: [75, 23, 1, 0], obj0: [75, 59, 34, 0], obj1: [75, 23, 1, 0] },
        (0xd1, _) | (0xf0, _) | (0xce, _) | (0xbf, 0x43) => CustomPalette { bg: [26, 75, 55, 0], obj0: [75, 75, 23, 1], obj1: [75, 62, 30, 0] },
        (0x3f, _) | (0xc6, 0x20) | (0x18, 0x49) | (0x66, 0x4c) | (_, _) => CustomPalette { bg: [75, 29, 5, 0], obj0: [75, 59, 34, 0], obj1: [75, 59, 34, 0] },
    }
}

} // verus!
