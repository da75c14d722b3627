//! Two-component fixed-point vectors.
//!
//! Coordinates are integers counted in sub-pixels: one pixel of the play
//! field is `SUBPIXELS` units. Sums saturate at the bounds of `i64`, the
//! way a float runs out to an infinity; quotients round toward zero.
use vstd::arithmetic::div_mod::{lemma_div_basics, lemma_div_is_ordered_by_denominator, lemma_div_pos_is_pos};
use vstd::prelude::*;

verus! {

/// Number of fixed-point units in one pixel.
pub const SUBPIXELS: i64 = 256;

/// `v` held to the range of `i64`.
pub open spec fn saturate(v: int) -> i64 {
    if v > i64::MAX {
        i64::MAX
    } else if v < i64::MIN {
        i64::MIN
    } else {
        v as i64
    }
}

pub open spec fn abs(a: int) -> int {
    if a >= 0 {
        a
    } else {
        -a
    }
}

/// `a / d` rounded toward zero, for a non-zero `d`.
pub open spec fn div_toward_zero(a: int, d: int) -> int {
    if (a >= 0) == (d > 0) {
        abs(a) / abs(d)
    } else {
        -(abs(a) / abs(d))
    }
}

/// `v` clipped to `[lo, hi]`; the lower bound is tested first.
pub open spec fn clip(v: i64, lo: i64, hi: i64) -> i64 {
    if v < lo {
        lo
    } else if v > hi {
        hi
    } else {
        v
    }
}

/// Whether clipping `v` to `[lo, hi]` moves it.
pub open spec fn clips(v: i64, lo: i64, hi: i64) -> bool {
    v < lo || v > hi
}

fn quotient(a: i64, d: i64) -> (r: i64)
    requires
        d != 0,
        !(a == i64::MIN && d == -1),
    ensures
        r == div_toward_zero(a as int, d as int),
{
    proof {
        let (x, y) = (abs(a as int), abs(d as int));
        lemma_div_basics(x);
        lemma_div_pos_is_pos(x, y);
        if y >= 2 {
            lemma_div_is_ordered_by_denominator(x, 2, y);
        }
    }
    match a.checked_div(d) {
        Some(q) => q,
        None => 0,
    }
}

fn saturating_sum(a: i64, b: i64) -> (r: i64)
    ensures
        r == saturate(a + b),
{
    match a.checked_add(b) {
        Some(s) => s,
        None => if b > 0 {
            i64::MAX
        } else {
            i64::MIN
        },
    }
}

#[derive(Clone, Copy, Debug, PartialEq, Eq, Structural)]
pub struct Vec2 {
    pub x: i64,
    pub y: i64,
}

impl Vec2 {
    pub open spec fn zero() -> Vec2 {
        Vec2 { x: 0, y: 0 }
    }

    pub open spec fn spec_plus(self, o: Vec2) -> Vec2 {
        Vec2 { x: saturate(self.x + o.x), y: saturate(self.y + o.y) }
    }

    pub open spec fn spec_div(self, d: i64) -> Vec2 {
        Vec2 { x: div_toward_zero(self.x as int, d as int) as i64, y: div_toward_zero(self.y as int, d as int) as i64 }
    }

    pub open spec fn spec_clamped(self, lo: Vec2, hi: Vec2) -> Vec2 {
        Vec2 { x: clip(self.x, lo.x, hi.x), y: clip(self.y, lo.y, hi.y) }
    }

    pub open spec fn spec_clamp_fires(self, lo: Vec2, hi: Vec2) -> bool {
        clips(self.x, lo.x, hi.x) || clips(self.y, lo.y, hi.y)
    }

    /// The zero vector.
    pub fn new() -> (r: Vec2)
        ensures
            r == Vec2::zero(),
    {
        Vec2 { x: 0, y: 0 }
    }

    /// Component-wise sum.
    pub fn plus(self, o: Vec2) -> (r: Vec2)
        ensures
            r == self.spec_plus(o),
    {
        Vec2 { x: saturating_sum(self.x, o.x), y: saturating_sum(self.y, o.y) }
    }

    /// Component-wise quotient by a non-zero scalar, rounded toward zero.
    pub fn div(self, d: i64) -> (r: Vec2)
        requires
            d != 0,
            // the one quotient that does not fit in an `i64`
            d == -1 ==> self.x != i64::MIN && self.y != i64::MIN,
        ensures
            r == self.spec_div(d),
    {
        Vec2 { x: quotient(self.x, d), y: quotient(self.y, d) }
    }

    /// Adds `o` into `self` in place.
    pub fn accumulate(&mut self, o: Vec2)
        ensures
            *final(self) == old(self).spec_plus(o),
    {
        self.x = saturating_sum(self.x, o.x);
        self.y = saturating_sum(self.y, o.y);
    }

    /// Sets both components to zero.
    pub fn clear(&mut self)
        ensures
            *final(self) == Vec2::zero(),
    {
        self.x = 0;
        self.y = 0;
    }

    /// Clips each axis to `[lo, hi]`; tells whether either axis was clipped.
    pub fn clamp(&mut self, lo: Vec2, hi: Vec2) -> (fired: bool)
        ensures
            *final(self) == old(self).spec_clamped(lo, hi),
            fired == old(self).spec_clamp_fires(lo, hi),
    {
        let mut fired = false;
        if self.x < lo.x {
            self.x = lo.x;
            fired = true;
        } else if self.x > hi.x {
            self.x = hi.x;
            fired = true;
        }
        if self.y < lo.y {
            self.y = lo.y;
            fired = true;
        } else if self.y > hi.y {
            self.y = hi.y;
            fired = true;
        }
        fired
    }
}

} // verus!
