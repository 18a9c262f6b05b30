//! Coordinates along the scroll axis.

use vstd::prelude::*;

verus! {

/// A coordinate, a length or a velocity along the scroll axis.
///
/// The widget's formulas are written once, over this trait, and its contracts name the
/// operations by their spec functions. A host that lays widgets out in another number type
/// than the one below brings an implementation of its own. All that the formulas ask of an
/// operation is that its result follows from its operands alone; no algebraic law and no order
/// is taken for granted, so that rounding arithmetic fits as well as exact arithmetic.
pub trait Scalar: Copy + Sized {
    /// The value 0.
    spec fn spec_zero() -> Self;

    /// The value of a whole number.
    spec fn spec_whole(n: usize) -> Self;

    /// The sum of two values.
    spec fn spec_plus(self, other: Self) -> Self;

    /// The difference of two values.
    spec fn spec_minus(self, other: Self) -> Self;

    /// The product of two values.
    spec fn spec_times(self, other: Self) -> Self;

    /// A value divided into `count` equal parts.
    spec fn spec_share(self, count: usize) -> Self;

    /// Whether a value can be the number of physical pixels that make up a logical one.
    spec fn spec_is_scale_factor(self) -> bool;

    /// A number of physical pixels, in logical pixels.
    spec fn spec_unscaled(self, scale_factor: Self) -> Self;

    /// How far something gets in a number of nanoseconds, for a value that is a velocity in
    /// pixels per second.
    spec fn spec_travel(self, nanos: u64) -> Self;

    /// A value with its sign turned.
    spec fn spec_negated(self) -> Self;

    /// The smaller of two values.
    spec fn spec_least(self, other: Self) -> Self;

    /// Whether a value equals 0.
    spec fn spec_is_zero(self) -> bool;

    /// Whether a value is less than another.
    spec fn spec_below(self, other: Self) -> bool;

    /// Whether a value is less than another or equal to it.
    spec fn spec_at_most(self, other: Self) -> bool;

    /// Returns 0.
    fn zero() -> (r: Self)
        ensures
            r == Self::spec_zero(),
    ;

    /// Returns the value of a whole number.
    fn whole(n: usize) -> (r: Self)
        ensures
            r == Self::spec_whole(n),
    ;

    /// Adds.
    fn plus(self, other: Self) -> (r: Self)
        ensures
            r == self.spec_plus(other),
    ;

    /// Subtracts.
    fn minus(self, other: Self) -> (r: Self)
        ensures
            r == self.spec_minus(other),
    ;

    /// Multiplies.
    fn times(self, other: Self) -> (r: Self)
        ensures
            r == self.spec_times(other),
    ;

    /// Divides by a number of items.
    fn share(self, count: usize) -> (r: Self)
        requires
            count != 0,
        ensures
            r == self.spec_share(count),
    ;

    /// Tests whether this can be a scale factor.
    fn is_scale_factor(self) -> (r: bool)
        ensures
            r == self.spec_is_scale_factor(),
    ;

    /// Converts physical pixels to logical ones.
    fn unscaled(self, scale_factor: Self) -> (r: Self)
        requires
            scale_factor.spec_is_scale_factor(),
        ensures
            r == self.spec_unscaled(scale_factor),
    ;

    /// Returns how far something of this velocity gets.
    fn travel(self, nanos: u64) -> (r: Self)
        ensures
            r == self.spec_travel(nanos),
    ;

    /// Turns the sign.
    fn negated(self) -> (r: Self)
        ensures
            r == self.spec_negated(),
    ;

    /// Returns the smaller value.
    fn least(self, other: Self) -> (r: Self)
        ensures
            r == self.spec_least(other),
    ;

    /// Tests for 0.
    fn is_zero(self) -> (r: bool)
        ensures
            r == self.spec_is_zero(),
    ;

    /// Tests whether `self` is less than `other`.
    fn below(self, other: Self) -> (r: bool)
        ensures
            r == self.spec_below(other),
    ;

    /// Tests whether `self` is less than `other` or equal to it.
    fn at_most(self, other: Self) -> (r: bool)
        ensures
            r == self.spec_at_most(other),
    ;
}

/// The `i64` nearest to an integer.
pub open spec fn nearest_i64(n: int) -> i64 {
    if n < i64::MIN {
        i64::MIN
    } else if n > i64::MAX {
        i64::MAX
    } else {
        n as i64
    }
}

fn to_nearest_i64(n: i128) -> (r: i64)
    ensures
        r == nearest_i64(n as int),
{
    if n < i64::MIN as i128 {
        i64::MIN
    } else if n > i64::MAX as i128 {
        i64::MAX
    } else {
        n as i64
    }
}

fn magnitude_of(n: i64) -> (r: u128)
    ensures
        r == vstd::math::abs(n as int),
{
    if n >= 0 {
        n as u128
    } else {
        (-(n as i128)) as u128
    }
}

/// Whole pixels.
///
/// Sums, differences and products are exact, except that a result outside the range of `i64`
/// stops at the bound it would cross. A quotient that is no whole number is rounded: see each.
impl Scalar for i64 {
    open spec fn spec_zero() -> Self {
        0
    }

    open spec fn spec_whole(n: usize) -> Self {
        nearest_i64(n as int)
    }

    open spec fn spec_plus(self, other: Self) -> Self {
        nearest_i64(self + other)
    }

    open spec fn spec_minus(self, other: Self) -> Self {
        nearest_i64(self - other)
    }

    open spec fn spec_times(self, other: Self) -> Self {
        nearest_i64(self * other)
    }

    /// Rounds towards 0.
    open spec fn spec_share(self, count: usize) -> Self {
        if self >= 0 {
            nearest_i64(self as int / count as int)
        } else {
            nearest_i64(-((-self) / count as int))
        }
    }

    open spec fn spec_is_scale_factor(self) -> bool {
        self > 0
    }

    /// Rounds away from 0, so that what is not 0 in physical pixels is not 0 in logical ones.
    open spec fn spec_unscaled(self, scale_factor: Self) -> Self {
        if self >= 0 {
            nearest_i64((self + scale_factor - 1) / scale_factor as int)
        } else {
            nearest_i64(-((-self + scale_factor - 1) / scale_factor as int))
        }
    }

    /// Rounds the distance towards 0.
    open spec fn spec_travel(self, nanos: u64) -> Self {
        if self >= 0 {
            nearest_i64((self * nanos) / 1_000_000_000)
        } else {
            nearest_i64(-(((-self) * nanos) / 1_000_000_000))
        }
    }

    open spec fn spec_negated(self) -> Self {
        nearest_i64(-self)
    }

    open spec fn spec_least(self, other: Self) -> Self {
        if self <= other {
            self
        } else {
            other
        }
    }

    open spec fn spec_is_zero(self) -> bool {
        self == 0
    }

    open spec fn spec_below(self, other: Self) -> bool {
        self < other
    }

    open spec fn spec_at_most(self, other: Self) -> bool {
        self <= other
    }

    fn zero() -> (r: Self) {
        0
    }

    fn whole(n: usize) -> (r: Self) {
        to_nearest_i64(n as i128)
    }

    fn plus(self, other: Self) -> (r: Self) {
        to_nearest_i64(self as i128 + other as i128)
    }

    fn minus(self, other: Self) -> (r: Self) {
        to_nearest_i64(self as i128 - other as i128)
    }

    fn times(self, other: Self) -> (r: Self) {
        proof {
            lemma_product_fits(self, other);
        }
        to_nearest_i64(self as i128 * other as i128)
    }

    fn share(self, count: usize) -> (r: Self) {
        if self >= 0 {
            to_nearest_i64((self as u128 / count as u128) as i128)
        } else {
            let magnitude: u128 = magnitude_of(self);
            proof {
                lemma_quotient_shrinks(magnitude as int, count as int);
            }
            to_nearest_i64(-((magnitude / count as u128) as i128))
        }
    }

    fn is_scale_factor(self) -> (r: bool) {
        self > 0
    }

    fn unscaled(self, scale_factor: Self) -> (r: Self) {
        let negative = self < 0;
        let magnitude: u128 = magnitude_of(self);
        let rounded_up: u128 = magnitude + (scale_factor as u128 - 1);
        proof {
            lemma_quotient_shrinks(rounded_up as int, scale_factor as int);
        }
        let quotient: i128 = (rounded_up / scale_factor as u128) as i128;
        to_nearest_i64(if negative { -quotient } else { quotient })
    }

    fn travel(self, nanos: u64) -> (r: Self) {
        let negative = self < 0;
        let magnitude: u128 = magnitude_of(self);
        proof {
            lemma_travel_fits(magnitude as int, nanos);
        }
        let distance: i128 = ((magnitude * nanos as u128) / 1_000_000_000) as i128;
        to_nearest_i64(if negative { -distance } else { distance })
    }

    fn negated(self) -> (r: Self) {
        to_nearest_i64(-(self as i128))
    }

    fn least(self, other: Self) -> (r: Self) {
        if self <= other {
            self
        } else {
            other
        }
    }

    fn is_zero(self) -> (r: bool) {
        self == 0
    }

    fn below(self, other: Self) -> (r: bool) {
        self < other
    }

    fn at_most(self, other: Self) -> (r: bool) {
        self <= other
    }
}

proof fn lemma_product_fits(a: i64, b: i64)
    ensures
        i128::MIN <= a * b <= i128::MAX,
{
    assert(-0x4000_0000_0000_0000_0000_0000_0000_0000 <= a * b
        <= 0x4000_0000_0000_0000_0000_0000_0000_0000) by (nonlinear_arith)
        requires
            -0x8000_0000_0000_0000 <= a <= 0x8000_0000_0000_0000,
            -0x8000_0000_0000_0000 <= b <= 0x8000_0000_0000_0000,
    ;
}

proof fn lemma_travel_fits(magnitude: int, nanos: u64)
    requires
        0 <= magnitude <= 0x8000_0000_0000_0000,
    ensures
        0 <= magnitude * nanos <= i128::MAX,
{
    assert(0 <= magnitude * nanos <= 0x8000_0000_0000_0000 * 0xffff_ffff_ffff_ffff)
        by (nonlinear_arith)
        requires
            0 <= magnitude <= 0x8000_0000_0000_0000,
            0 <= nanos <= 0xffff_ffff_ffff_ffff,
    ;
}

proof fn lemma_quotient_shrinks(a: int, b: int)
    requires
        0 <= a,
        0 < b,
    ensures
        0 <= a / b <= a,
{
    assert(0 <= a / b <= a) by (nonlinear_arith)
        requires
            0 <= a,
            0 < b,
    ;
}

} // verus!
