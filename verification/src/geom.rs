//! Integer pixel geometry: 2-D vectors, rectangles, and saturating helpers.
//!
//! All coordinates are whole pixels in an `i64`, kept inside
//! [`MAX_COORD`] so that the sums and products the layout engines form
//! never overflow.

use vstd::prelude::*;

verus! {

/// The absolute value, as an `int`.
pub open spec fn spec_abs(x: int) -> int {
    if x >= 0 {
        x
    } else {
        -x
    }
}

/// Largest magnitude a coordinate may have (about 10^9 pixels).
pub const MAX_COORD: i64 = 0x4000_0000;

/// Does `x` lie in the coordinate range?
pub open spec fn in_coord(x: i64) -> bool {
    -MAX_COORD <= x <= MAX_COORD
}

/// A wider range for derived quantities (differences and offsets of
/// coordinates): twice the coordinate range, still far from overflow.
pub open spec fn in_wide_coord(x: i64) -> bool {
    -2 * MAX_COORD <= x <= 2 * MAX_COORD
}

/// A position or extent in pixels.
#[derive(Clone, Copy, Debug, PartialEq, Eq, Structural)]
pub struct Vec2i {
    pub x: i64,
    pub y: i64,
}

impl Vec2i {
    pub open spec fn spec_in_range(self) -> bool {
        in_coord(self.x) && in_coord(self.y)
    }

    pub fn new(x: i64, y: i64) -> (r: Vec2i)
        ensures
            r.x == x,
            r.y == y,
    {
        Vec2i { x, y }
    }

    pub fn zero() -> (r: Vec2i)
        ensures
            r.x == 0,
            r.y == 0,
    {
        Vec2i { x: 0, y: 0 }
    }

    pub fn in_range(&self) -> (r: bool)
        ensures
            r == self.spec_in_range(),
    {
        -MAX_COORD <= self.x && self.x <= MAX_COORD && -MAX_COORD <= self.y && self.y
            <= MAX_COORD
    }
}

/// An axis-aligned rectangle given by its top-left corner and its size.
#[derive(Clone, Copy, Debug, PartialEq, Eq, Structural)]
pub struct Recti {
    pub min: Vec2i,
    pub size: Vec2i,
}

impl Recti {
    pub open spec fn spec_right(self) -> int {
        self.min.x + self.size.x
    }

    pub open spec fn spec_bottom(self) -> int {
        self.min.y + self.size.y
    }

    pub open spec fn spec_in_range(self) -> bool {
        self.min.spec_in_range() && self.size.spec_in_range()
    }

    pub fn from_min_size(min: Vec2i, size: Vec2i) -> (r: Recti)
        ensures
            r.min == min,
            r.size == size,
    {
        Recti { min, size }
    }

    pub fn right(&self) -> (r: i64)
        requires
            self.spec_in_range(),
        ensures
            r == self.spec_right(),
    {
        self.min.x + self.size.x
    }

    pub fn bottom(&self) -> (r: i64)
        requires
            self.spec_in_range(),
        ensures
            r == self.spec_bottom(),
    {
        self.min.y + self.size.y
    }
}

/// The larger of two values.
pub open spec fn spec_max(a: int, b: int) -> int {
    if a >= b {
        a
    } else {
        b
    }
}

/// The smaller of two values.
pub open spec fn spec_min(a: int, b: int) -> int {
    if a <= b {
        a
    } else {
        b
    }
}

/// `x` forced into `[lo, hi]`; when the interval is empty, `lo` wins
/// (the lower bound is applied last).
pub open spec fn spec_clamp(x: int, lo: int, hi: int) -> int {
    spec_max(spec_min(x, hi), lo)
}

pub fn max_i64(a: i64, b: i64) -> (r: i64)
    ensures
        r == spec_max(a as int, b as int),
{
    if a >= b {
        a
    } else {
        b
    }
}

pub fn min_i64(a: i64, b: i64) -> (r: i64)
    ensures
        r == spec_min(a as int, b as int),
{
    if a <= b {
        a
    } else {
        b
    }
}

/// Clamp `x` to `[lo, hi]`, the upper bound first, so that for an empty
/// interval the result is `lo`.
pub fn clamp_i64(x: i64, lo: i64, hi: i64) -> (r: i64)
    ensures
        r == spec_clamp(x as int, lo as int, hi as int),
{
    max_i64(min_i64(x, hi), lo)
}

/// The absolute value, written over the coordinate range so that negation
/// cannot overflow.
pub fn abs_i64(x: i64) -> (r: i64)
    requires
        in_coord(x),
    ensures
        r == spec_abs(x as int),
        0 <= r <= MAX_COORD,
{
    if x >= 0 {
        x
    } else {
        -x
    }
}

/// `sign(a) * ((|a| * num) / den)`: scale a signed pixel quantity by a
/// non-negative rational, rounding the magnitude toward zero.
pub open spec fn spec_scale(a: int, num: int, den: int) -> int {
    if a >= 0 {
        (a * num) / den
    } else {
        -(((-a) * num) / den)
    }
}

proof fn lemma_div_bound(a: int, num: int, den: int) by (nonlinear_arith)
    requires
        0 <= a,
        0 <= num,
        0 < den,
    ensures
        0 <= (a * num) / den <= a * num,
        num <= den ==> (a * num) / den <= a,
{
}

/// Scale `a` by `num / den`, rounding the magnitude toward zero.
pub fn scale_i64(a: i64, num: i64, den: i64) -> (r: i64)
    requires
        -4 * MAX_COORD <= a <= 4 * MAX_COORD,
        0 <= num <= MAX_COORD,
        0 < den <= MAX_COORD,
    ensures
        r == spec_scale(a as int, num as int, den as int),
        spec_abs(r as int) <= spec_abs(a as int) * (num as int) / (den as int),
        spec_abs(r as int) <= 4 * MAX_COORD * MAX_COORD,
        num <= den ==> spec_abs(r as int) <= spec_abs(a as int),
        a >= 0 ==> 0 <= r,
        a <= 0 ==> r <= 0,
{
    proof {
        lemma_div_bound(spec_abs(a as int), num as int, den as int);
        assert(spec_abs(a as int) * num <= 4 * MAX_COORD * MAX_COORD) by (nonlinear_arith)
            requires
                spec_abs(a as int) <= 4 * MAX_COORD,
                num <= MAX_COORD,
                0 <= spec_abs(a as int),
                0 <= num,
        ;
        if a == 0 {
            assert((a as int) * (num as int) == 0) by (nonlinear_arith)
                requires
                    a == 0,
            ;
        }
    }
    if a >= 0 {
        (a * num) / den
    } else {
        -(((-a) * num) / den)
    }
}

} // verus!
