//! Per-pixel colour arithmetic: luma (brightness) and colour distance.

use vstd::prelude::*;

verus! {

/// Brightness of an RGB pixel as the BT.709 luma, in fixed-point
/// (coefficients scaled by 10_000, then truncated back to a byte):
/// `(2126*r + 7152*g + 722*b) / 10000`.
pub open spec fn luma(r: u8, g: u8, b: u8) -> int {
    (2126 * r + 7152 * g + 722 * b) / 10000
}

/// Squared Euclidean distance between two RGB colours.
pub open spec fn rgb_distance_squared_spec(a: (u8, u8, u8), c: (u8, u8, u8)) -> int {
    (a.0 - c.0) * (a.0 - c.0) + (a.1 - c.1) * (a.1 - c.1) + (a.2 - c.2) * (a.2 - c.2)
}

/// Grey level of a pixel: the BT.709 luma of its colour.
pub fn get_grey(r: u8, g: u8, b: u8) -> (grey: u8)
    ensures
        grey == luma(r, g, b),
{
    let weighted: u32 = 2126 * (r as u32) + 7152 * (g as u32) + 722 * (b as u32);
    (weighted / 10000) as u8
}

/// Squared Euclidean distance between two RGB colours. The square avoids
/// irrational intermediate values; comparisons against a threshold are made
/// on squares of both sides, which is equivalent for non-negative numbers.
pub fn rgb_distance_squared(a: (u8, u8, u8), c: (u8, u8, u8)) -> (d: u32)
    ensures
        d == rgb_distance_squared_spec(a, c),
{
    let dr: i32 = a.0 as i32 - c.0 as i32;
    let dg: i32 = a.1 as i32 - c.1 as i32;
    let db: i32 = a.2 as i32 - c.2 as i32;
    proof {
        assert(0 <= dr * dr <= 255 * 255) by (nonlinear_arith)
            requires -255 <= dr <= 255;
        assert(0 <= dg * dg <= 255 * 255) by (nonlinear_arith)
            requires -255 <= dg <= 255;
        assert(0 <= db * db <= 255 * 255) by (nonlinear_arith)
            requires -255 <= db <= 255;
    }
    (dr * dr + dg * dg + db * db) as u32
}

/// Whether the colour of a cell has drifted at least `threshold` away from
/// the colour painted there before: Euclidean distance `>= threshold`,
/// decided on squares.
pub open spec fn differs_beyond(a: (u8, u8, u8), c: (u8, u8, u8), threshold: u16) -> bool {
    rgb_distance_squared_spec(a, c) >= threshold * threshold
}

/// Compares the colour distance between `a` and `c` against `threshold`.
pub fn exceeds_threshold(a: (u8, u8, u8), c: (u8, u8, u8), threshold: u16) -> (r: bool)
    ensures
        r == differs_beyond(a, c, threshold),
{
    let d = rgb_distance_squared(a, c);
    let t: u64 = threshold as u64;
    proof {
        assert(t * t <= 65535 * 65535) by (nonlinear_arith)
            requires t <= 65535;
    }
    (d as u64) >= t * t
}

} // verus!
