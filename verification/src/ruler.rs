//! Where the arithmetic of a number type is exact.

use std::ops::Range;

use vstd::prelude::*;

use crate::scalar::Scalar;

verus! {

/// Evenly spaced marks, from `-reach` to `reach`, and the values that stand on them.
///
/// The laws that speak of distances are stated of values on a ruler along which arithmetic is
/// exact. They then hold of every number type that has one. Whole pixels do: see [`pixels`].
/// So do binary floating point numbers, whose marks are the multiples of a power of two, up to as
/// many as the significand can count. Several values may stand on the same mark, as the two
/// zeros of a floating point type do.
#[verifier::reject_recursive_types(S)]
pub struct Ruler<S> {
    /// Whether a value stands on a mark.
    pub marks: spec_fn(S) -> bool,
    /// The mark that a value stands on.
    pub reading: spec_fn(S) -> int,
    /// The mark that 1 stands on.
    pub unit: int,
    /// The last mark.
    pub reach: int,
}

impl<S: Scalar> Ruler<S> {
    /// Whether a value stands on a mark.
    pub open spec fn has(self, a: S) -> bool {
        (self.marks)(a)
    }

    /// The mark that a value stands on.
    pub open spec fn at(self, a: S) -> int {
        (self.reading)(a)
    }

    /// Whether there is such a mark.
    pub open spec fn reaches(self, n: int) -> bool {
        -self.reach <= n <= self.reach
    }

    /// Sums, differences and signs are exact as long as the result is in reach, and values compare
    /// as their marks do.
    pub open spec fn exact(self) -> bool {
        &&& self.has(S::spec_zero())
        &&& self.at(S::spec_zero()) == 0
        &&& forall|a: S| #[trigger] self.has(a) ==> self.reaches(self.at(a))
        &&& forall|a: S, b: S|
            self.has(a) && self.has(b) && self.reaches(self.at(a) + self.at(b)) ==> self.has(
                #[trigger] a.spec_plus(b),
            ) && self.at(a.spec_plus(b)) == self.at(a) + self.at(b)
        &&& forall|a: S, b: S|
            self.has(a) && self.has(b) && self.reaches(self.at(a) - self.at(b)) ==> self.has(
                #[trigger] a.spec_minus(b),
            ) && self.at(a.spec_minus(b)) == self.at(a) - self.at(b)
        &&& forall|a: S|
            self.has(a) ==> self.has(#[trigger] a.spec_negated()) && self.at(a.spec_negated())
                == -self.at(a)
        &&& forall|a: S, b: S|
            self.has(a) && self.has(b) ==> self.has(#[trigger] a.spec_least(b)) && self.at(
                a.spec_least(b),
            ) == (if self.at(a) <= self.at(b) {
                self.at(a)
            } else {
                self.at(b)
            })
        &&& forall|a: S| self.has(a) ==> #[trigger] a.spec_is_zero() == (self.at(a) == 0)
        &&& forall|a: S, b: S|
            self.has(a) && self.has(b) ==> #[trigger] a.spec_below(b) == (self.at(a) < self.at(b))
        &&& forall|a: S, b: S|
            self.has(a) && self.has(b) ==> #[trigger] a.spec_at_most(b) == (self.at(a) <= self.at(
                b,
            ))
    }

    /// No two values stand on the same mark.
    pub open spec fn distinct(self) -> bool {
        forall|a: S, b: S|
            #[trigger] self.has(a) && #[trigger] self.has(b) && self.at(a) == self.at(b) ==> a == b
    }

    /// The mark that the product of two values stands on, if it stands on one.
    pub open spec fn product(self, a: S, b: S) -> int {
        (self.at(a) * self.at(b)) / self.unit
    }

    /// Whether the product of two values stands on a mark.
    pub open spec fn has_product(self, a: S, b: S) -> bool {
        (self.at(a) * self.at(b)) % self.unit == 0 && self.reaches(self.product(a, b))
    }

    /// Whole numbers, products and quotients are exact as long as the result stands on a mark, and
    /// scale factors are what is more than 0.
    pub open spec fn exact_products(self) -> bool {
        &&& self.unit > 0
        &&& forall|n: usize|
            self.reaches(n * self.unit) ==> self.has(#[trigger] S::spec_whole(n)) && self.at(
                S::spec_whole(n),
            ) == n * self.unit
        &&& forall|a: S, b: S|
            self.has(a) && self.has(b) && self.has_product(a, b) ==> self.has(
                #[trigger] a.spec_times(b),
            ) && self.at(a.spec_times(b)) == self.product(a, b)
        &&& forall|f: S|
            self.has(f) ==> #[trigger] f.spec_is_scale_factor() == (self.at(f) > 0)
        &&& forall|a: S, f: S|
            self.has(a) && self.has(f) && self.at(f) > 0 && (self.at(a) * self.unit) % self.at(f)
                == 0 && self.reaches((self.at(a) * self.unit) / self.at(f)) ==> self.has(
                #[trigger] a.spec_unscaled(f),
            ) && self.at(a.spec_unscaled(f)) == (self.at(a) * self.unit) / self.at(f)
    }

    /// A value so far from the ends of the ruler that a few of them can be added up.
    pub open spec fn moderate(self, a: S) -> bool {
        self.has(a) && self.reaches(8 * self.at(a))
    }

    /// A range that does not run backwards and whose width is in reach.
    pub open spec fn measures(self, r: Range<S>) -> bool {
        self.has(r.start) && self.has(r.end) && 0 <= self.width(r) <= self.reach
    }

    /// How many marks a range is wide.
    pub open spec fn width(self, r: Range<S>) -> int {
        self.at(r.end) - self.at(r.start)
    }
}

/// The ruler of whole pixels. It ends where turning the sign of an `i64` is still exact.
pub open spec fn pixels() -> Ruler<i64> {
    Ruler {
        marks: |a: i64| a > i64::MIN,
        reading: |a: i64| a as int,
        unit: 1,
        reach: i64::MAX as int,
    }
}

/// The arithmetic of whole pixels is exact.
pub proof fn law_pixels_are_exact()
    ensures
        pixels().exact(),
        pixels().exact_products(),
        pixels().distinct(),
{
    let r = pixels();
    assert forall|a: i64, f: i64|
        r.has(a) && r.has(f) && r.at(f) > 0 && (r.at(a) * r.unit) % r.at(f) == 0 && r.reaches(
            (r.at(a) * r.unit) / r.at(f),
        ) implies r.has(#[trigger] a.spec_unscaled(f)) && r.at(a.spec_unscaled(f)) == (r.at(a)
        * r.unit) / r.at(f) by {
        let q = a as int / f as int;
        assert(a == q * f) by (nonlinear_arith)
            requires
                q == a as int / f as int,
                a as int % f as int == 0,
                f > 0,
        ;
        lemma_rounding_up_keeps(q, f as int);
    }
}

/// Rounding a quotient away from 0 keeps one that is whole.
pub proof fn lemma_rounding_up_keeps(q: int, d: int)
    requires
        d > 0,
    ensures
        q >= 0 ==> q * d >= 0 && (q * d + d - 1) / d == q,
        q < 0 ==> q * d < 0 && (-(q * d) + d - 1) / d == -q,
{
    assert(q >= 0 ==> q * d >= 0 && (q * d + d - 1) / d == q) by (nonlinear_arith)
        requires
            d > 0,
    ;
    assert(q < 0 ==> q * d < 0 && (-(q * d) + d - 1) / d == -q) by (nonlinear_arith)
        requires
            d > 0,
    ;
}

/// Multiplying by a scale factor and taking it out again leaves a product as it is.
pub proof fn law_scaling_cancels<S: Scalar>(r: Ruler<S>, n: S, step: S, scale_factor: S)
    requires
        r.exact(),
        r.exact_products(),
        r.has(n),
        r.has(step),
        r.has(scale_factor),
        scale_factor.spec_is_scale_factor(),
        r.has_product(n, step),
        r.has_product(step, scale_factor),
        r.has_product(n, step.spec_times(scale_factor)),
    ensures
        r.has(n.spec_times(step.spec_times(scale_factor)).spec_unscaled(scale_factor)),
        r.at(n.spec_times(step.spec_times(scale_factor)).spec_unscaled(scale_factor))
            == r.product(n, step),
{
    let u = r.unit;
    let (a, b, f) = (r.at(n), r.at(step), r.at(scale_factor));
    let scaled = r.at(step.spec_times(scale_factor));
    let p = r.at(n.spec_times(step.spec_times(scale_factor)));
    let q = r.product(n, step);
    lemma_whole_quotient(b * f, u);
    lemma_whole_quotient(a * scaled, u);
    lemma_whole_quotient(a * b, u);
    assert(p * u == q * f) by (nonlinear_arith)
        requires
            scaled * u == b * f,
            p * u == a * scaled,
            q * u == a * b,
            u > 0,
    {
        assert((p * u) * u == (q * f) * u) by (nonlinear_arith)
            requires
                scaled * u == b * f,
                p * u == a * scaled,
                q * u == a * b,
        ;
    }
    assert((q * f) % f == 0 && (q * f) / f == q) by (nonlinear_arith)
        requires
            f > 0,
    ;
}

proof fn lemma_whole_quotient(n: int, d: int)
    requires
        d > 0,
        n % d == 0,
    ensures
        (n / d) * d == n,
{
    assert((n / d) * d == n) by (nonlinear_arith)
        requires
            d > 0,
            n % d == 0,
    ;
}

} // verus!
