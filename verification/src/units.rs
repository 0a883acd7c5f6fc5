//! Fixed-point quantities and the conversion from physical to logical pixels.

use vstd::prelude::*;

verus! {

/// Number of fixed-point steps in one whole unit: a pixel, a scrolled line,
/// the scale factor 1.0, or full pressure.
pub const UNIT: u32 = 1000;

/// A position in physical pixels, in thousandths of a pixel.
#[derive(Clone, Copy, Debug, PartialEq, Eq, Hash, Default)]
pub struct PhysicalPoint {
    pub x: i32,
    pub y: i32,
}

/// A position in logical pixels, in thousandths of a pixel.
#[derive(Clone, Copy, Debug, PartialEq, Eq, Hash, Default)]
pub struct Point {
    pub x: i64,
    pub y: i64,
}

/// The number of physical pixels per logical pixel, in thousandths. It is
/// never zero.
#[derive(Clone, Copy, Debug, PartialEq, Eq, Hash)]
pub struct ScaleFactor {
    thousandths: u32,
}

/// The logical length, in thousandths, of a physical length at a scale
/// factor, both in thousandths: the quotient rounded down.
pub open spec fn scaled(physical: int, scale: int) -> int {
    (physical * UNIT) / scale
}

impl ScaleFactor {
    #[verifier::type_invariant]
    spec fn positive(self) -> bool {
        self.thousandths > 0
    }

    /// The factor in thousandths.
    pub closed spec fn value(self) -> int {
        self.thousandths as int
    }

    /// The factor of `thousandths` thousandths, unless that is zero.
    pub fn new(thousandths: u32) -> (r: Option<ScaleFactor>)
        ensures
            thousandths == 0 ==> r is None,
            thousandths > 0 ==> r is Some && r.unwrap().value() == thousandths,
    {
        if thousandths == 0 {
            None
        } else {
            Some(ScaleFactor { thousandths })
        }
    }

    /// The factor 1.0, at which logical and physical pixels coincide.
    pub fn one() -> (r: ScaleFactor)
        ensures
            r.value() == UNIT,
    {
        ScaleFactor { thousandths: UNIT }
    }

    /// The factor in thousandths.
    pub fn thousandths(&self) -> (r: u32)
        ensures
            r == self.value(),
            r > 0,
    {
        proof {
            use_type_invariant(self);
        }
        self.thousandths
    }

    /// Converts a physical length to the logical length at this factor.
    pub fn to_logical(&self, physical: i32) -> (r: i64)
        ensures
            r == scaled(physical as int, self.value()),
    {
        proof {
            use_type_invariant(self);
        }
        let s: i64 = self.thousandths as i64;
        let n: i64 = (physical as i64) * (UNIT as i64);
        if n >= 0 {
            n / s
        } else {
            let m: i64 = -n;
            let q: i64 = (m + (s - 1)) / s;
            proof {
                lemma_floor_of_negative(m as int, s as int);
            }
            -q
        }
    }
}

impl PhysicalPoint {
    /// The logical position of this physical position at `scale`.
    pub open spec fn logical(self, scale: ScaleFactor) -> Point {
        Point {
            x: scaled(self.x as int, scale.value()) as i64,
            y: scaled(self.y as int, scale.value()) as i64,
        }
    }

    /// Converts this physical position to the logical position at `scale`.
    pub fn to_logical(&self, scale: ScaleFactor) -> (r: Point)
        ensures
            r == self.logical(scale),
            r.x == scaled(self.x as int, scale.value()),
            r.y == scaled(self.y as int, scale.value()),
    {
        Point { x: scale.to_logical(self.x), y: scale.to_logical(self.y) }
    }
}

/// At the scale factor 1.0 the logical length is the physical length.
pub proof fn lemma_scaled_by_unit(physical: int)
    ensures
        scaled(physical, UNIT as int) == physical,
{
    vstd::arithmetic::div_mod::lemma_div_multiples_vanish(physical, UNIT as int);
}

/// The logical length is the physical length divided by the scale factor,
/// rounded down to a whole thousandth: it is the greatest length that,
/// multiplied by the factor, does not exceed the physical length.
pub proof fn lemma_scaled_is_quotient(physical: int, scale: int)
    requires
        scale > 0,
    ensures
        scaled(physical, scale) * scale <= physical * UNIT < (scaled(physical, scale) + 1) * scale,
{
    let n = physical * UNIT;
    vstd::arithmetic::div_mod::lemma_fundamental_div_mod(n, scale);
    vstd::arithmetic::div_mod::lemma_mod_bound(n, scale);
    let q = scaled(physical, scale);
    assert(q == n / scale);
    assert(q * scale == scale * q && (q + 1) * scale == scale * q + scale) by (nonlinear_arith);
}

/// Rounding a negative quotient down is rounding its absolute value up.
proof fn lemma_floor_of_negative(m: int, s: int)
    requires
        m > 0,
        s > 0,
    ensures
        (-m) / s == -((m + (s - 1)) / s),
{
    let q = (m + (s - 1)) / s;
    let r = (m + (s - 1)) % s;
    vstd::arithmetic::div_mod::lemma_fundamental_div_mod(m + (s - 1), s);
    vstd::arithmetic::div_mod::lemma_mod_bound(m + (s - 1), s);
    // m = s * q + r - (s - 1), so -m = s * (-q) + (s - 1 - r) with 0 <= s - 1 - r < s.
    assert(-m == s * (-q) + (s - 1 - r)) by (nonlinear_arith)
        requires
            m + (s - 1) == s * q + r,
    ;
    vstd::arithmetic::div_mod::lemma_fundamental_div_mod_converse(-m, s, -q, s - 1 - r);
}

} // verus!
