//! The arithmetic capability a stepping method needs from its scalar type.
//!
//! The engine never fixes the scalar representation: every operation it
//! performs goes through [`ScalarOps`], and every contract is stated over the
//! trait's spec-level counterparts of those operations.  The crate provides an
//! exact rational instance ([`crate::rat::Rat`]); callers may supply their own
//! machine-arithmetic instance, in which case the engine's contracts describe
//! the result in terms of that instance's operations.

use vstd::prelude::*;

verus! {

/// Arithmetic interface of the integration engine.
///
/// Each exec method is pinned to a spec-level function of the same arguments,
/// so that the engine's contracts can speak about the exact expression a
/// method computes.  No algebraic law is assumed here; laws that some
/// instances satisfy (exact arithmetic) are collected in [`exact_ordered`]
/// and taken as explicit hypotheses by the lemmas that need them.
pub trait ScalarOps: Sized + Copy {
    /// Value of `add`.
    spec fn spec_add(a: Self, b: Self) -> Self;

    /// Value of `sub`.
    spec fn spec_sub(a: Self, b: Self) -> Self;

    /// Value of `mul`.
    spec fn spec_mul(a: Self, b: Self) -> Self;

    /// Value of `div`.
    spec fn spec_div(a: Self, b: Self) -> Self;

    /// Value of `neg`.
    spec fn spec_neg(a: Self) -> Self;

    /// Value of `sqrt`.
    spec fn spec_sqrt(a: Self) -> Self;

    /// Value of `pow_frac`.
    spec fn spec_pow_frac(a: Self, num: i64, den: i64) -> Self;

    /// Value of `ratio`.
    spec fn spec_ratio(num: i64, den: i64) -> Self;

    /// Value of `le`.
    spec fn spec_le(a: Self, b: Self) -> bool;

    /// Value of `lt`.
    spec fn spec_lt(a: Self, b: Self) -> bool;

    /// Value of `eq_val`.
    spec fn spec_eq(a: Self, b: Self) -> bool;

    /// Sum of `self` and `rhs`.
    fn add(self, rhs: Self) -> (r: Self)
        ensures
            r == Self::spec_add(self, rhs),
    ;

    /// Difference of `self` and `rhs`.
    fn sub(self, rhs: Self) -> (r: Self)
        ensures
            r == Self::spec_sub(self, rhs),
    ;

    /// Product of `self` and `rhs`.
    fn mul(self, rhs: Self) -> (r: Self)
        ensures
            r == Self::spec_mul(self, rhs),
    ;

    /// Quotient of `self` by `rhs`.
    fn div(self, rhs: Self) -> (r: Self)
        ensures
            r == Self::spec_div(self, rhs),
    ;

    /// Additive inverse of `self`.
    fn neg(self) -> (r: Self)
        ensures
            r == Self::spec_neg(self),
    ;

    /// Square root of `self`, as the instance defines it.
    fn sqrt(self) -> (r: Self)
        ensures
            r == Self::spec_sqrt(self),
    ;

    /// `self` raised to the rational power `num / den`, as the instance
    /// defines it.  The controller only ever asks for the exponents 1/5
    /// and 1/4.
    fn pow_frac(self, num: i64, den: i64) -> (r: Self)
        ensures
            r == Self::spec_pow_frac(self, num, den),
    ;

    /// The scalar standing for the fraction `num / den`; every numeric
    /// constant of the engine is produced through this.
    fn ratio(num: i64, den: i64) -> (r: Self)
        ensures
            r == Self::spec_ratio(num, den),
    ;

    /// Order test `self <= rhs` of the instance.
    fn le(self, rhs: Self) -> (r: bool)
        ensures
            r == Self::spec_le(self, rhs),
    ;

    /// Order test `self < rhs` of the instance.
    fn lt(self, rhs: Self) -> (r: bool)
        ensures
            r == Self::spec_lt(self, rhs),
    ;

    /// Numeric equality test of the instance.
    fn eq_val(self, rhs: Self) -> (r: bool)
        ensures
            r == Self::spec_eq(self, rhs),
    ;
}

/// The zero of a scalar instance, written as the fraction 0/1.
pub open spec fn spec_zero<S: ScalarOps>() -> S {
    S::spec_ratio(0, 1)
}

/// The smaller of `a` and `b` under the instance's order.
pub open spec fn spec_min<S: ScalarOps>(a: S, b: S) -> S {
    if S::spec_le(a, b) {
        a
    } else {
        b
    }
}

/// The smaller of `a` and `b` under the instance's order.
pub fn min_val<S: ScalarOps>(a: S, b: S) -> (r: S)
    ensures
        r == spec_min(a, b),
{
    if a.le(b) {
        a
    } else {
        b
    }
}

/// The laws of exact ordered arithmetic that the time-bookkeeping lemmas
/// rely on: subtraction cancels addition, zero is neutral, addition is
/// monotone, and the order is total and antisymmetric.
///
/// Exact rational or real arithmetic satisfies all of them.  Rounding
/// machine arithmetic satisfies the order laws and monotonicity but not
/// cancellation, so the lemmas that quote this predicate describe the
/// engine under an exact scalar.
pub open spec fn exact_ordered<S: ScalarOps>() -> bool {
    &&& forall|a: S, b: S| #[trigger] S::spec_add(a, S::spec_sub(b, a)) == b
    &&& forall|a: S| #[trigger] S::spec_add(a, spec_zero::<S>()) == a
    &&& forall|a: S, b: S, c: S|
        S::spec_le(b, c) ==> #[trigger] S::spec_le(S::spec_add(a, b), S::spec_add(a, c))
    &&& forall|a: S, b: S| #![trigger S::spec_lt(a, b)] !S::spec_lt(a, b) ==> S::spec_le(b, a)
    &&& forall|a: S, b: S| #![trigger S::spec_le(a, b)] !S::spec_le(a, b) ==> S::spec_le(b, a)
    &&& forall|a: S, b: S| #[trigger] S::spec_lt(a, b) ==> S::spec_le(a, b)
    &&& forall|a: S, b: S, c: S|
        S::spec_lt(b, c) ==> #[trigger] S::spec_lt(S::spec_add(a, b), S::spec_add(a, c))
    &&& forall|a: S, b: S| #[trigger] S::spec_le(a, b) && S::spec_le(b, a) ==> a == b
    &&& forall|a: S| #[trigger] S::spec_le(a, a)
    &&& forall|a: S, b: S, c: S|
        #![trigger S::spec_le(a, b), S::spec_le(b, c)]
        S::spec_le(a, b) && S::spec_le(b, c) ==> S::spec_le(a, c)
}

/// The rescale-bound laws the step-size lemmas rely on: the quarter-power
/// of a tolerance-to-error ratio taken on a rejected trial (a nonnegative
/// tolerance not reached by the error) lies between zero and one, and is
/// strictly positive when the tolerance is; multiplying a nonnegative
/// value by a factor between zero and one neither grows it nor makes it
/// negative, and two strictly positive values have a strictly positive
/// product.
///
/// Exact rational or real arithmetic satisfies both; rounding machine
/// arithmetic satisfies them away from its non-numbers.  The lemmas that
/// quote this predicate describe the controller under such a scalar.
pub open spec fn contractive_rescale<S: ScalarOps>() -> bool {
    &&& forall|t: S, e: S|
        S::spec_le(spec_zero::<S>(), t) && !S::spec_le(e, t) ==> S::spec_le(
            #[trigger] S::spec_pow_frac(S::spec_div(t, e), 1, 4),
            S::spec_ratio(1, 1),
        ) && S::spec_le(spec_zero::<S>(), S::spec_pow_frac(S::spec_div(t, e), 1, 4))
    &&& forall|a: S, c: S|
        S::spec_le(spec_zero::<S>(), a) && S::spec_le(spec_zero::<S>(), c) && S::spec_le(
            c,
            S::spec_ratio(1, 1),
        ) ==> S::spec_le(#[trigger] S::spec_mul(a, c), a) && S::spec_le(
            spec_zero::<S>(),
            S::spec_mul(a, c),
        )
    &&& forall|t: S, e: S|
        S::spec_lt(spec_zero::<S>(), t) && !S::spec_le(e, t) ==> S::spec_lt(
            spec_zero::<S>(),
            #[trigger] S::spec_pow_frac(S::spec_div(t, e), 1, 4),
        )
    &&& forall|a: S, c: S|
        S::spec_lt(spec_zero::<S>(), a) && S::spec_lt(spec_zero::<S>(), c) ==> S::spec_lt(
            spec_zero::<S>(),
            #[trigger] S::spec_mul(a, c),
        )
}

/// Under exact ordered arithmetic, the smaller of two values lies at or
/// below both.
pub proof fn lemma_min_le_both<S: ScalarOps>(a: S, b: S)
    requires
        exact_ordered::<S>(),
    ensures
        S::spec_le(spec_min(a, b), a),
        S::spec_le(spec_min(a, b), b),
{
    if S::spec_le(a, b) {
        assert(S::spec_le(a, a));
    } else {
        assert(S::spec_le(b, a));
        assert(S::spec_le(b, b));
    }
}

/// Under exact ordered arithmetic, stepping time forward by a non-negative
/// increment never moves it backward.
pub proof fn lemma_time_nondecreasing<S: ScalarOps>(t: S, dt: S)
    requires
        exact_ordered::<S>(),
        S::spec_le(spec_zero::<S>(), dt),
    ensures
        S::spec_le(t, S::spec_add(t, dt)),
{
    assert(S::spec_add(t, spec_zero::<S>()) == t);
    assert(S::spec_le(S::spec_add(t, spec_zero::<S>()), S::spec_add(t, dt)));
}

/// Under exact ordered arithmetic, stepping time forward by a strictly
/// positive increment moves it strictly forward: across accepted
/// macro-steps with a positive step size, time strictly increases.
pub proof fn lemma_time_strictly_increasing<S: ScalarOps>(t: S, dt: S)
    requires
        exact_ordered::<S>(),
        S::spec_lt(spec_zero::<S>(), dt),
    ensures
        S::spec_lt(t, S::spec_add(t, dt)),
{
    assert(S::spec_add(t, spec_zero::<S>()) == t);
    assert(S::spec_lt(S::spec_add(t, spec_zero::<S>()), S::spec_add(t, dt)));
}

} // verus!
