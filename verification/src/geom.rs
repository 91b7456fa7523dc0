//! Fixed-point screen geometry.
//!
//! All screen-space quantities (positions, sizes, scroll deltas, the zoom
//! factor and the fit-to-window scale) are integers in thousandths:
//! milli-pixels for coordinates and milli-ratios for scale factors. This
//! keeps the viewport arithmetic exact and free of floating point.

use vstd::arithmetic::div_mod::lemma_div_basics;
use vstd::arithmetic::div_mod::lemma_div_is_ordered;
use vstd::arithmetic::div_mod::lemma_div_is_ordered_by_denominator;
use vstd::arithmetic::div_mod::lemma_div_pos_is_pos;
use vstd::prelude::*;

verus! {

/// One unit of scale: a factor of `1.0` is `SCALE` milli-units.
pub const SCALE: i64 = 1000;

/// Smallest zoom factor, `1.0` in milli-units.
pub const ZOOM_MIN: i64 = 1000;

/// Largest zoom factor, `10.0` in milli-units.
pub const ZOOM_MAX: i64 = 10000;

/// Window growth (in milli-pixels) beyond which the viewport resets.
pub const RESIZE_GUARD: i64 = 100000;

/// Largest magnitude accepted for an incoming coordinate, size or scroll
/// delta: one billion pixels in milli-pixels, far beyond any real screen.
pub const COORD_LIMIT: i64 = 1000000000000;

/// Largest magnitude the pan offset may accumulate to; pan updates saturate
/// here, a thousand times beyond `COORD_LIMIT`.
pub const PAN_LIMIT: i64 = 1000000000000000;

/// A 2D vector in milli-pixels.
#[derive(Clone, Copy, PartialEq, Eq, Structural, Debug)]
pub struct Vec2M {
    pub x: i64,
    pub y: i64,
}

/// An axis-aligned rectangle in milli-pixels.
#[derive(Clone, Copy, PartialEq, Eq, Structural, Debug)]
pub struct RectM {
    pub min: Vec2M,
    pub max: Vec2M,
}

/// Mathematical 2D vector, the model of `Vec2M`.
pub struct V2 {
    pub x: int,
    pub y: int,
}

/// Mathematical rectangle, the model of `RectM`.
pub struct R2 {
    pub min: V2,
    pub max: V2,
}

impl View for Vec2M {
    type V = V2;

    open spec fn view(&self) -> V2 {
        V2 { x: self.x as int, y: self.y as int }
    }
}

impl View for RectM {
    type V = R2;

    open spec fn view(&self) -> R2 {
        R2 { min: self.min@, max: self.max@ }
    }
}

/// The center of a mathematical rectangle, halves rounded toward zero.
pub open spec fn spec_center(r: R2) -> V2 {
    V2 {
        x: r.min.x + (r.max.x - r.min.x) / 2,
        y: r.min.y + (r.max.y - r.min.y) / 2,
    }
}

/// The mathematical clamp of `v` into `[lo, hi]`.
pub open spec fn spec_clamp(v: int, lo: int, hi: int) -> int {
    if v < lo {
        lo
    } else if v > hi {
        hi
    } else {
        v
    }
}

/// Clamps `v` into the closed interval `[lo, hi]`.
pub fn clamp_i64(v: i64, lo: i64, hi: i64) -> (r: i64)
    requires
        lo <= hi,
    ensures
        r == spec_clamp(v as int, lo as int, hi as int),
{
    if v < lo {
        lo
    } else if v > hi {
        hi
    } else {
        v
    }
}

/// Division by `SCALE` rounding toward zero, as the hardware divides.
pub open spec fn div_scale(a: int) -> int {
    if a >= 0 {
        a / (SCALE as int)
    } else {
        -((-a) / (SCALE as int))
    }
}

/// Divides by `SCALE`, rounding toward zero.
pub fn div_scale_i64(a: i64) -> (r: i64)
    requires
        a > i64::MIN,
    ensures
        r == div_scale(a as int),
{
    if a >= 0 {
        a / SCALE
    } else {
        -((-a) / SCALE)
    }
}

/// `div_scale` maps `[-bound, bound]` into `[-(bound / SCALE), bound / SCALE]`.
pub proof fn lemma_div_scale_bound(a: int, bound: int)
    requires
        -bound <= a <= bound,
        0 <= bound,
    ensures
        -(bound / (SCALE as int)) <= div_scale(a) <= bound / (SCALE as int),
{
    if a >= 0 {
        lemma_div_pos_is_pos(a, SCALE as int);
        lemma_div_is_ordered(a, bound, SCALE as int);
    } else {
        lemma_div_pos_is_pos(-a, SCALE as int);
        lemma_div_is_ordered(-a, bound, SCALE as int);
    }
}

/// Dividing a value of `[0, bound]` by a divisor of at least one stays in
/// `[0, bound]`.
pub proof fn lemma_div_stays_bounded(a: int, d: int, bound: int)
    requires
        0 <= a <= bound,
        1 <= d,
    ensures
        0 <= a / d <= a,
{
    lemma_div_pos_is_pos(a, d);
    lemma_div_is_ordered_by_denominator(a, 1, d);
    lemma_div_basics(a);
}

/// The milli-ratio of two zoom values in `[ZOOM_MIN, ZOOM_MAX]` lies in
/// `[100, 10000]`.
pub proof fn lemma_zoom_ratio_bounds(z2: int, z1: int)
    requires
        ZOOM_MIN <= z2 <= ZOOM_MAX,
        ZOOM_MIN <= z1 <= ZOOM_MAX,
    ensures
        100 <= z2 * (SCALE as int) / z1 <= 10000,
{
    let n = z2 * (SCALE as int);
    assert(1000000 <= n <= 10000000);
    lemma_div_is_ordered_by_denominator(n, 1000, z1);
    lemma_div_is_ordered(n, 10000000, 1000);
    lemma_div_is_ordered_by_denominator(n, z1, 10000);
    lemma_div_is_ordered(1000000, n, 10000);
}

/// The smaller of two mathematical integers.
pub open spec fn spec_min(a: int, b: int) -> int {
    if a < b {
        a
    } else {
        b
    }
}

/// The smaller of two machine integers.
pub fn min_i64(a: i64, b: i64) -> (r: i64)
    ensures
        r == spec_min(a as int, b as int),
{
    if a < b {
        a
    } else {
        b
    }
}

} // verus!
