//! Exact base-10 fixed-point decimal arithmetic.
//!
//! All monetary amounts and scores in this crate are held as a signed count of
//! millionths (six fractional digits), so sums and ratios of currency amounts
//! never suffer binary floating-point drift.  Multiplication and division
//! truncate the exact rational result toward zero at the sixth fractional
//! digit.  Every value is kept within a fixed symmetric range so that the
//! intermediate products of every operation in this crate fit in 128-bit
//! machine arithmetic.

use vstd::prelude::*;
use vstd::math::abs;

verus! {

/// Number of stored units in 1.0 (six decimal places).
pub const SCALE: i128 = 1_000_000;

/// Largest magnitude, in stored units, that a [`FixedDec`] may hold
/// (10^19 units, i.e. ten trillion whole currency units).
pub const MAX_UNITS: i128 = 10_000_000_000_000_000_000;

/// The representable range of a [`FixedDec`], over stored units.
pub open spec fn in_range(u: int) -> bool {
    -(MAX_UNITS as int) <= u <= MAX_UNITS as int
}

/// Integer division truncated toward zero, the rounding used by
/// [`FixedDec::checked_mul`] and [`FixedDec::checked_div`].
pub open spec fn div_towards_zero(n: int, d: int) -> int
    recommends
        d != 0,
{
    if (n < 0) <==> (d < 0) {
        (abs(n) as int) / (abs(d) as int)
    } else {
        -((abs(n) as int) / (abs(d) as int))
    }
}

/// Stored units of the product of two values given in stored units.
pub open spec fn mul_units(a: int, b: int) -> int {
    div_towards_zero(a * b, SCALE as int)
}

/// Stored units of the quotient of two values given in stored units.
pub open spec fn div_units(a: int, b: int) -> int
    recommends
        b != 0,
{
    div_towards_zero(a * SCALE as int, b)
}

/// Clamping over stored units.
pub open spec fn spec_clamp(v: int, lo: int, hi: int) -> int {
    if v < lo {
        lo
    } else if v > hi {
        hi
    } else {
        v
    }
}

/// An exact base-10 decimal with six fractional digits, stored as a count of
/// 10^-6 units.  The view of a value is that count, as a mathematical integer.
#[derive(Debug, Clone, Copy, PartialEq, Eq)]
pub struct FixedDec {
    units: i128,
}

impl View for FixedDec {
    type V = int;

    closed spec fn view(&self) -> int {
        self.units as int
    }
}

impl FixedDec {
    #[verifier::type_invariant]
    closed spec fn inv(self) -> bool {
        in_range(self.units as int)
    }

    /// The value 0.
    pub fn zero() -> (r: FixedDec)
        ensures
            r@ == 0,
    {
        FixedDec { units: 0 }
    }

    /// The value 1.
    pub fn one() -> (r: FixedDec)
        ensures
            r@ == SCALE as int,
    {
        FixedDec { units: SCALE }
    }

    /// Builds a value from a raw count of 10^-6 units; `None` when out of range.
    pub fn from_units(u: i128) -> (r: Option<FixedDec>)
        ensures
            r is Some <==> in_range(u as int),
            r is Some ==> r->0@ == u as int,
    {
        if -MAX_UNITS <= u && u <= MAX_UNITS {
            Some(FixedDec { units: u })
        } else {
            None
        }
    }

    /// Builds a whole-number value; `None` when out of range.
    pub fn from_int(v: i64) -> (r: Option<FixedDec>)
        ensures
            r is Some <==> in_range(v as int * SCALE as int),
            r is Some ==> r->0@ == v as int * SCALE as int,
    {
        let u: i128 = (v as i128) * SCALE;
        FixedDec::from_units(u)
    }

    /// The raw count of 10^-6 units.
    pub fn units(&self) -> (r: i128)
        ensures
            r as int == self@,
            in_range(self@),
    {
        proof {
            use_type_invariant(*self);
        }
        self.units
    }

    /// `self <= other` on the exact values.
    pub fn le(&self, other: &FixedDec) -> (r: bool)
        ensures
            r == (self@ <= other@),
    {
        self.units <= other.units
    }

    /// `self < other` on the exact values.
    pub fn lt(&self, other: &FixedDec) -> (r: bool)
        ensures
            r == (self@ < other@),
    {
        self.units < other.units
    }

    /// `self >= other` on the exact values.
    pub fn ge(&self, other: &FixedDec) -> (r: bool)
        ensures
            r == (self@ >= other@),
    {
        self.units >= other.units
    }

    /// `self > other` on the exact values.
    pub fn gt(&self, other: &FixedDec) -> (r: bool)
        ensures
            r == (self@ > other@),
    {
        self.units > other.units
    }

    /// Exact addition; `None` when the sum leaves the representable range.
    pub fn checked_add(self, other: FixedDec) -> (r: Option<FixedDec>)
        ensures
            r is Some <==> in_range(self@ + other@),
            r is Some ==> r->0@ == self@ + other@,
    {
        proof {
            use_type_invariant(self);
            use_type_invariant(other);
        }
        let s: i128 = self.units + other.units;
        FixedDec::from_units(s)
    }

    /// Exact subtraction; `None` when the difference leaves the range.
    pub fn checked_sub(self, other: FixedDec) -> (r: Option<FixedDec>)
        ensures
            r is Some <==> in_range(self@ - other@),
            r is Some ==> r->0@ == self@ - other@,
    {
        proof {
            use_type_invariant(self);
            use_type_invariant(other);
        }
        let s: i128 = self.units - other.units;
        FixedDec::from_units(s)
    }

    /// Multiplication, truncated toward zero at the sixth fractional digit;
    /// `None` when the product leaves the representable range.
    pub fn checked_mul(self, other: FixedDec) -> (r: Option<FixedDec>)
        ensures
            r is Some <==> in_range(mul_units(self@, other@)),
            r is Some ==> r->0@ == mul_units(self@, other@),
    {
        proof {
            use_type_invariant(self);
            use_type_invariant(other);
        }
        let aa = abs_to_u128(self.units);
        let bb = abs_to_u128(other.units);
        proof {
            lemma_abs_mul(self@, other@);
            assert(aa as int * bb as int <= MAX_UNITS as int * MAX_UNITS as int)
                by (nonlinear_arith)
                requires
                    0 <= aa as int <= MAX_UNITS as int,
                    0 <= bb as int <= MAX_UNITS as int;
        }
        let prod: u128 = aa * bb;
        let q: u128 = prod / (SCALE as u128);
        let neg = (self.units < 0) != (other.units < 0);
        proof {
            lemma_mul_sign(self@, other@);
            vstd::arithmetic::div_mod::lemma_div_pos_is_pos(
                abs(self@ * other@) as int,
                SCALE as int,
            );
            assert(q as int == (abs(self@ * other@) as int) / (SCALE as int));
        }
        FixedDec::from_signed_magnitude(q, neg)
    }

    /// Division, truncated toward zero at the sixth fractional digit; `None`
    /// when the divisor is zero or the quotient leaves the range.
    pub fn checked_div(self, other: FixedDec) -> (r: Option<FixedDec>)
        ensures
            r is Some <==> other@ != 0 && in_range(div_units(self@, other@)),
            r is Some ==> r->0@ == div_units(self@, other@),
    {
        proof {
            use_type_invariant(self);
            use_type_invariant(other);
        }
        if other.units == 0 {
            return None;
        }
        let aa = abs_to_u128(self.units);
        let bb = abs_to_u128(other.units);
        proof {
            lemma_abs_mul(self@, SCALE as int);
            assert(aa as int * SCALE as int <= MAX_UNITS as int * SCALE as int)
                by (nonlinear_arith)
                requires
                    0 <= aa as int <= MAX_UNITS as int;
            assert(abs(self@ * SCALE as int) == abs(self@) * SCALE as int);
        }
        let num: u128 = aa * (SCALE as u128);
        let q: u128 = num / bb;
        let neg = (self.units < 0) != (other.units < 0);
        proof {
            vstd::arithmetic::div_mod::lemma_div_pos_is_pos(
                abs(self@ * (SCALE as int)) as int,
                abs(other@) as int,
            );
            assert(((self@ * (SCALE as int)) < 0) == (self@ < 0));
            assert(q as int == (abs(self@ * (SCALE as int)) as int) / (abs(other@) as int));
        }
        FixedDec::from_signed_magnitude(q, neg)
    }

    /// Clamps the value into `[lo, hi]`.
    pub fn clamp_to(self, lo: FixedDec, hi: FixedDec) -> (r: FixedDec)
        requires
            lo@ <= hi@,
        ensures
            r@ == spec_clamp(self@, lo@, hi@),
    {
        if self.units < lo.units {
            lo
        } else if self.units > hi.units {
            hi
        } else {
            self
        }
    }

    /// Builds `magnitude` with the given sign; `None` when out of range.
    fn from_signed_magnitude(magnitude: u128, neg: bool) -> (r: Option<FixedDec>)
        ensures
            r is Some <==> magnitude as int <= MAX_UNITS as int,
            r is Some ==> r->0@ == if neg {
                -(magnitude as int)
            } else {
                magnitude as int
            },
    {
        if magnitude <= MAX_UNITS as u128 {
            if neg {
                Some(FixedDec { units: -(magnitude as i128) })
            } else {
                Some(FixedDec { units: magnitude as i128 })
            }
        } else {
            None
        }
    }
}

/// Magnitude of a bounded `i128`, as a `u128`.
fn abs_to_u128(x: i128) -> (r: u128)
    requires
        in_range(x as int),
    ensures
        r as int == abs(x as int),
{
    if x >= 0 {
        x as u128
    } else {
        (-x) as u128
    }
}

/// `|a * b| == |a| * |b|`.
proof fn lemma_abs_mul(a: int, b: int)
    ensures
        abs(a * b) == abs(a) * abs(b),
{
    if a >= 0 && b >= 0 {
        assert(a * b >= 0) by (nonlinear_arith)
            requires
                a >= 0,
                b >= 0;
    } else if a >= 0 && b < 0 {
        assert(a * b <= 0 && a * b == -(a * (-b))) by (nonlinear_arith)
            requires
                a >= 0,
                b < 0;
    } else if a < 0 && b >= 0 {
        assert(a * b <= 0 && a * b == -((-a) * b)) by (nonlinear_arith)
            requires
                a < 0,
                b >= 0;
    } else {
        assert(a * b >= 0 && a * b == (-a) * (-b)) by (nonlinear_arith)
            requires
                a < 0,
                b < 0;
    }
}

/// The sign of a product follows the signs of its factors.
proof fn lemma_mul_sign(a: int, b: int)
    ensures
        ((a < 0) != (b < 0)) ==> a * b <= 0,
        ((a < 0) == (b < 0)) ==> a * b >= 0,
{
    if a >= 0 && b >= 0 {
        assert(a * b >= 0) by (nonlinear_arith)
            requires
                a >= 0,
                b >= 0;
    } else if a < 0 && b < 0 {
        assert(a * b >= 0) by (nonlinear_arith)
            requires
                a < 0,
                b < 0;
    } else if a >= 0 {
        assert(a * b <= 0) by (nonlinear_arith)
            requires
                a >= 0,
                b < 0;
    } else {
        assert(a * b <= 0) by (nonlinear_arith)
            requires
                a < 0,
                b >= 0;
    }
}

} // verus!
