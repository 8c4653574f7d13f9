//! The standard 256-colour terminal palette and the table that maps an
//! 8-bit gray level to its closest palette entry.

use vstd::prelude::*;

verus! {

/// A colour as three channel intensities (red, green, blue).
pub type Channels = (int, int, int);

/// The channels of a 24-bit colour.
pub open spec fn channels(c: [u8; 3]) -> Channels {
    (c[0] as int, c[1] as int, c[2] as int)
}

/// The gray with all three channels at `v`.
pub open spec fn gray(v: int) -> Channels {
    (v, v, v)
}

/// Intensity of level `k` (0..=5) along one axis of the 6x6x6 colour cube:
/// 0x00, 0x5F, 0x87, 0xAF, 0xD7, 0xFF.
pub open spec fn cube_level(k: int) -> int {
    if k == 0 {
        0
    } else {
        55 + 40 * k
    }
}

/// Palette index of the cube entry with coordinates `(r, g, b)`.
pub open spec fn cube_entry(r: int, g: int, b: int) -> int {
    16 + 36 * r + 6 * g + b
}

/// Colour of palette entry `i` (0..=255). Entries below 16 are overridable
/// by terminals and read as black; 16..=231 form the colour cube; 232..=255
/// are a gray ramp from 0x08 to 0xEE in steps of 10.
pub open spec fn palette(i: int) -> Channels {
    if i < 16 {
        (0, 0, 0)
    } else if i < 232 {
        let j = i - 16;
        (cube_level(j / 36), cube_level((j / 6) % 6), cube_level(j % 6))
    } else {
        let v = 8 + 10 * (i - 232);
        (v, v, v)
    }
}

/// Palette index that a gray level `v` maps to. The values are tuned against
/// real terminal palettes rather than derived from a distance formula: some
/// ranges prefer the diagonal grays of the cube (59, 102, 145, 188, 231)
/// over the ramp.
pub open spec fn gray_index(v: int) -> int {
    if v <= 4 {
        16
    } else if v <= 13 {
        232
    } else if v <= 23 {
        233
    } else if v <= 33 {
        234
    } else if v <= 43 {
        235
    } else if v <= 53 {
        236
    } else if v <= 63 {
        237
    } else if v <= 73 {
        238
    } else if v <= 83 {
        239
    } else if v <= 91 {
        240
    } else if v <= 96 {
        59
    } else if v <= 103 {
        241
    } else if v <= 113 {
        242
    } else if v <= 122 {
        243
    } else if v <= 131 {
        244
    } else if v <= 136 {
        102
    } else if v <= 142 {
        245
    } else if v <= 152 {
        246
    } else if v <= 162 {
        247
    } else if v <= 171 {
        248
    } else if v <= 176 {
        145
    } else if v <= 182 {
        249
    } else if v <= 192 {
        250
    } else if v <= 202 {
        251
    } else if v <= 211 {
        252
    } else if v <= 216 {
        188
    } else if v <= 222 {
        253
    } else if v <= 232 {
        254
    } else if v <= 246 {
        255
    } else {
        231
    }
}

/// Every gray level maps to a palette index in 16..=255.
pub proof fn lemma_gray_index_range(v: int)
    requires
        0 <= v <= 255,
    ensures
        16 <= gray_index(v) <= 255,
{
}

/// Intensity of cube level `k` as an executable value.
fn level_value(k: u8) -> (r: u8)
    requires
        k <= 5,
    ensures
        r as int == cube_level(k as int),
{
    if k == 0 {
        0
    } else {
        55 + 40 * k
    }
}

/// The colour of palette entry `i`.
pub fn palette_color(i: u8) -> (r: [u8; 3])
    ensures
        channels(r) == palette(i as int),
{
    if i < 16 {
        [0, 0, 0]
    } else if i < 232 {
        let j: u8 = i - 16;
        [level_value(j / 36), level_value((j / 6) % 6), level_value(j % 6)]
    } else {
        let v: u8 = 8 + 10 * (i - 232);
        [v, v, v]
    }
}

/// Get the closest 8-bit color to the given 24-bit grayscale value.
pub fn gray_to_256(c: u8) -> (r: u8)
    ensures
        r as int == gray_index(c as int),
        16 <= r,
{
    if c <= 4 {
        16
    } else if c <= 13 {
        232
    } else if c <= 23 {
        233
    } else if c <= 33 {
        234
    } else if c <= 43 {
        235
    } else if c <= 53 {
        236
    } else if c <= 63 {
        237
    } else if c <= 73 {
        238
    } else if c <= 83 {
        239
    } else if c <= 91 {
        240
    } else if c <= 96 {
        59
    } else if c <= 103 {
        241
    } else if c <= 113 {
        242
    } else if c <= 122 {
        243
    } else if c <= 131 {
        244
    } else if c <= 136 {
        102
    } else if c <= 142 {
        245
    } else if c <= 152 {
        246
    } else if c <= 162 {
        247
    } else if c <= 171 {
        248
    } else if c <= 176 {
        145
    } else if c <= 182 {
        249
    } else if c <= 192 {
        250
    } else if c <= 202 {
        251
    } else if c <= 211 {
        252
    } else if c <= 216 {
        188
    } else if c <= 222 {
        253
    } else if c <= 232 {
        254
    } else if c <= 246 {
        255
    } else {
        231
    }
}

} // verus!
