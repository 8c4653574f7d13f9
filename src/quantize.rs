//! Perceptual colour distance and quantization of a 24-bit colour to the
//! 256-colour palette.

use vstd::prelude::*;

use crate::palette::{
    channels, cube_entry, cube_level, gray, gray_index, gray_to_256, palette, palette_color,
    Channels,
};

verus! {

/// The largest distance between two colours, reached between black and white.
pub const MAX_DISTANCE: u32 = 584970;

/// Colour-correction parameters supplied by the caller.
pub struct ColorAttributes {
    /// Bias added to the distance of the grayscale candidate before it is
    /// compared with the cube candidate; a larger bias favours the cube.
    pub luma_correct: u32,
}

impl ColorAttributes {
    pub fn new(luma_correct: u32) -> (r: ColorAttributes)
        ensures
            r.luma_correct == luma_correct,
    {
        ColorAttributes { luma_correct }
    }
}

/// Luma of a colour, weights 0.2126 / 0.7152 / 0.0722, truncated.
pub open spec fn luma_of(c: Channels) -> int {
    (2126 * c.0 + 7152 * c.1 + 722 * c.2) / 10000
}

/// Redmean-style distance between two colours: the red and blue squared
/// differences are weighted by the mean red of the two colours.
pub open spec fn distance(a: Channels, b: Channels) -> int {
    let rm = (a.0 + b.0) / 2;
    let dr = (a.0 - b.0) * (a.0 - b.0);
    let dg = (a.1 - b.1) * (a.1 - b.1);
    let db = (a.2 - b.2) * (a.2 - b.2);
    (512 + rm) * dr / 256 + 4 * dg + (767 - rm) * db / 256
}

/// Nearest cube level of one channel: `round(x * 5 / 255)`. The quotient is
/// never exactly half-way, so adding 127 before the division rounds it.
pub open spec fn nearest_level(x: int) -> int {
    (5 * x + 127) / 255
}

/// Palette index of the cube entry nearest to `c` axis by axis.
pub open spec fn cube_index(c: Channels) -> int {
    cube_entry(nearest_level(c.0), nearest_level(c.1), nearest_level(c.2))
}

/// Palette index chosen for `c`: the grayscale candidate when its distance
/// plus `luma_correct` is strictly below that of the cube candidate, else
/// the cube candidate.
pub open spec fn quantize(c: Channels, luma_correct: int) -> int {
    let gray = gray_index(luma_of(c));
    let cube = cube_index(c);
    if distance(c, palette(gray)) + luma_correct < distance(c, palette(cube)) {
        gray
    } else {
        cube
    }
}

/// Get the luma of the given 24-bit color (sRGB -> Luma).
pub fn luma(c: &[u8; 3]) -> (r: u8)
    ensures
        r as int == luma_of(channels(*c)),
{
    let sum: u32 = c[0] as u32 * 2126 + c[1] as u32 * 7152 + c[2] as u32 * 722;
    (sum / 10000) as u8
}

proof fn lemma_square_bound(d: int)
    requires
        -255 <= d <= 255,
    ensures
        0 <= d * d <= 65025,
{
    assert(0 <= d * d <= 65025) by (nonlinear_arith)
        requires
            -255 <= d <= 255,
    ;
}

/// Absolute difference of two channels and its square.
fn square_diff(x: u8, y: u8) -> (r: u32)
    ensures
        r as int == (x - y) * (x - y),
        r <= 65025,
{
    let d: u32 = if x >= y {
        (x - y) as u32
    } else {
        (y - x) as u32
    };
    proof {
        lemma_square_bound(d as int);
        assert((x - y) * (x - y) == d * d) by (nonlinear_arith)
            requires
                d == x - y || d == y - x,
        ;
    }
    d * d
}

/// Get the distance between two 24-bit colors.
pub fn dist(a: &[u8; 3], b: &[u8; 3]) -> (r: u32)
    ensures
        r as int == distance(channels(*a), channels(*b)),
        r <= MAX_DISTANCE,
{
    let rm: u32 = (a[0] as u32 + b[0] as u32) / 2;
    let dr = square_diff(a[0], b[0]);
    let dg = square_diff(a[1], b[1]);
    let db = square_diff(a[2], b[2]);
    proof {
        lemma_distance_bounds(channels(*a), channels(*b));
        assert((512 + rm) * dr <= 767 * 65025) by (nonlinear_arith)
            requires
                rm <= 255,
                dr <= 65025,
        ;
        assert((767 - rm) * db <= 767 * 65025) by (nonlinear_arith)
            requires
                rm <= 255,
                db <= 65025,
        ;
    }
    ((512 + rm) * dr) / 256 + 4 * dg + ((767 - rm) * db) / 256
}

/// Round one channel to the nearest cube level.
fn channel_level(x: u8) -> (r: u8)
    ensures
        r as int == nearest_level(x as int),
        r <= 5,
{
    ((x as u16 * 5 + 127) / 255) as u8
}

/// Get the closest 8-bit color in the 6x6x6 cube to the given 24-bit color.
pub fn rgb_xyz_256(c: &[u8; 3]) -> (r: u8)
    ensures
        r as int == cube_index(channels(*c)),
        16 <= r <= 231,
{
    channel_level(c[0]) * 36 + channel_level(c[1]) * 6 + channel_level(c[2]) + 16
}

/// Get the closest 8-bit color to the given 24-bit color.
pub fn rgb_to_256(c: &[u8; 3], ca: &ColorAttributes) -> (r: u8)
    ensures
        r as int == quantize(channels(*c), ca.luma_correct as int),
        16 <= r,
{
    let xyz = rgb_xyz_256(c);
    let luma = gray_to_256(luma(c));
    let gray_dist: u64 = dist(c, &palette_color(luma)) as u64 + ca.luma_correct as u64;
    if gray_dist < dist(c, &palette_color(xyz)) as u64 {
        luma
    } else {
        xyz
    }
}

/// Distance is symmetric, and zero from a colour to itself.
pub proof fn lemma_distance_symmetric(a: Channels, b: Channels)
    ensures
        distance(a, b) == distance(b, a),
        distance(a, a) == 0,
{
    assert((a.0 - b.0) * (a.0 - b.0) == (b.0 - a.0) * (b.0 - a.0)) by (nonlinear_arith);
    assert((a.1 - b.1) * (a.1 - b.1) == (b.1 - a.1) * (b.1 - a.1)) by (nonlinear_arith);
    assert((a.2 - b.2) * (a.2 - b.2) == (b.2 - a.2) * (b.2 - a.2)) by (nonlinear_arith);
    let rm = (a.0 + a.0) / 2;
    assert((512 + rm) * 0 == 0 && (767 - rm) * 0 == 0) by (nonlinear_arith);
}

/// Between two colours of 8-bit channels the distance lies in 0..=584970.
pub proof fn lemma_distance_bounds(a: Channels, b: Channels)
    requires
        0 <= a.0 <= 255 && 0 <= a.1 <= 255 && 0 <= a.2 <= 255,
        0 <= b.0 <= 255 && 0 <= b.1 <= 255 && 0 <= b.2 <= 255,
    ensures
        0 <= distance(a, b) <= MAX_DISTANCE,
{
    let rm = (a.0 + b.0) / 2;
    let dr = (a.0 - b.0) * (a.0 - b.0);
    let dg = (a.1 - b.1) * (a.1 - b.1);
    let db = (a.2 - b.2) * (a.2 - b.2);
    lemma_square_bound(a.0 - b.0);
    lemma_square_bound(a.1 - b.1);
    lemma_square_bound(a.2 - b.2);
    let t1 = (512 + rm) * dr;
    let t3 = (767 - rm) * db;
    assert(0 <= t1 <= (512 + rm) * 65025) by (nonlinear_arith)
        requires
            0 <= rm <= 255,
            0 <= dr <= 65025,
            t1 == (512 + rm) * dr,
    ;
    assert(0 <= t3 <= (767 - rm) * 65025) by (nonlinear_arith)
        requires
            0 <= rm <= 255,
            0 <= db <= 65025,
            t3 == (767 - rm) * db,
    ;
    assert(t1 / 256 + t3 / 256 <= 324870) by (nonlinear_arith)
        requires
            0 <= t1,
            0 <= t3,
            t1 + t3 <= 1279 * 65025,
    ;
}

/// Cube levels that the projection maps back to themselves: 0x00, 0xAF,
/// 0xD7 and 0xFF. The projection rounds `x * 5 / 255`, which spaces the
/// levels evenly, so 0x5F is taken to level 2 and 0x87 to level 3.
pub open spec fn fixed_level(k: int) -> bool {
    k == 0 || 3 <= k <= 5
}

/// Re-projecting the colour of a cube entry whose coordinates are all fixed
/// levels gives back that entry.
pub proof fn lemma_cube_round_trip(r: int, g: int, b: int)
    requires
        fixed_level(r) && fixed_level(g) && fixed_level(b),
    ensures
        cube_index(palette(cube_entry(r, g, b))) == cube_entry(r, g, b),
{
    let j = 36 * r + 6 * g + b;
    assert(j / 36 == r && (j / 6) % 6 == g && j % 6 == b) by (nonlinear_arith)
        requires
            j == 36 * r + 6 * g + b,
            0 <= r <= 5 && 0 <= g <= 5 && 0 <= b <= 5,
    ;
    assert(forall|k: int| fixed_level(k) ==> nearest_level(#[trigger] cube_level(k)) == k) by {
        assert(nearest_level(cube_level(0)) == 0);
        assert(nearest_level(cube_level(3)) == 3);
        assert(nearest_level(cube_level(4)) == 4);
        assert(nearest_level(cube_level(5)) == 5);
    }
}

/// Any colour quantizes to an index in 16..=255, and raising the bias can
/// only keep a cube selection: it never turns it into the grayscale one.
pub proof fn lemma_luma_correct_monotone(c: Channels, low: int, high: int)
    requires
        0 <= c.0 <= 255 && 0 <= c.1 <= 255 && 0 <= c.2 <= 255,
        0 <= low <= high,
    ensures
        16 <= quantize(c, low) <= 255,
        quantize(c, low) == cube_index(c) ==> quantize(c, high) == cube_index(c),
{
    crate::palette::lemma_gray_index_range(luma_of(c));
}

/// Diagonal cube entries are grays.
proof fn lemma_diagonal_entry(n: int)
    requires
        0 <= n <= 5,
    ensures
        palette(cube_entry(n, n, n)) == gray(cube_level(n)),
{
    if n == 0 {
    } else if n == 1 {
    } else if n == 2 {
    } else if n == 3 {
    } else if n == 4 {
    } else {
    }
}

/// The gray-table candidate of a gray level is itself a gray, and unless it
/// is the cube candidate it is strictly nearer to that level.
#[verifier::rlimit(40)]
proof fn lemma_gray_candidate_nearer(v: int)
    requires
        0 <= v <= 255,
    ensures
        palette(gray_index(v)) == gray(palette(gray_index(v)).0),
        gray_index(v) == cube_index(gray(v)) || {
            let g = palette(gray_index(v)).0;
            let l = palette(cube_index(gray(v))).0;
            (if v >= g { v - g } else { g - v }) < (if v >= l { v - l } else { l - v })
        },
{
    let n = nearest_level(v);
    assert(0 <= n <= 5);
    lemma_diagonal_entry(n);
    lemma_diagonal_entry(1);
    lemma_diagonal_entry(2);
    lemma_diagonal_entry(3);
    lemma_diagonal_entry(4);
    lemma_diagonal_entry(5);
}

/// Distance between two grays, within rounding of 2303/256 times the
/// squared difference.
proof fn lemma_gray_distance(v: int, x: int)
    requires
        0 <= v <= 255,
        0 <= x <= 255,
    ensures
        2303 * ((v - x) * (v - x)) - 510 <= 256 * distance(gray(v), gray(x)),
        256 * distance(gray(v), gray(x)) <= 2303 * ((v - x) * (v - x)),
{
    let rm = (v + x) / 2;
    let d = (v - x) * (v - x);
    lemma_square_bound(v - x);
    let t1 = (512 + rm) * d;
    let t3 = (767 - rm) * d;
    assert(t1 + t3 == 1279 * d) by (nonlinear_arith)
        requires
            t1 == (512 + rm) * d,
            t3 == (767 - rm) * d,
    ;
    assert(0 <= t1 && 0 <= t3) by (nonlinear_arith)
        requires
            0 <= rm <= 255,
            0 <= d,
            t1 == (512 + rm) * d,
            t3 == (767 - rm) * d,
    ;
}

/// Of two grays, the one with the smaller absolute difference to `v` is
/// strictly nearer by distance.
proof fn lemma_gray_distance_order(v: int, x: int, y: int)
    requires
        0 <= v <= 255,
        0 <= x <= 255,
        0 <= y <= 255,
        (if v >= x { v - x } else { x - v }) < (if v >= y { v - y } else { y - v }),
    ensures
        distance(gray(v), gray(x)) < distance(gray(v), gray(y)),
{
    lemma_gray_distance(v, x);
    lemma_gray_distance(v, y);
    let a = if v >= x { v - x } else { x - v };
    let b = if v >= y { v - y } else { y - v };
    assert((v - x) * (v - x) < (v - y) * (v - y)) by (nonlinear_arith)
        requires
            0 <= a < b,
            a == v - x || a == x - v,
            b == v - y || b == y - v,
    ;
}

/// For a pure gray input and no bias, the quantizer returns the gray-table
/// entry whenever that entry is at least as close as the cube candidate.
pub proof fn lemma_pure_gray(v: int)
    requires
        0 <= v <= 255,
        distance(gray(v), palette(gray_index(v))) <= distance(
            gray(v),
            palette(cube_index(gray(v))),
        ),
    ensures
        quantize(gray(v), 0) == gray_index(v),
{
    assert(luma_of(gray(v)) == v);
    lemma_gray_candidate_nearer(v);
    let n = nearest_level(v);
    lemma_diagonal_entry(n);
    if gray_index(v) != cube_index(gray(v)) {
        lemma_gray_distance_order(
            v,
            palette(gray_index(v)).0,
            palette(cube_index(gray(v))).0,
        );
    }
}

} // verus!
