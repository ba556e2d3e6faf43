//! An exact rational scalar.
//!
//! [`Rat`] keeps a numerator and a positive denominator, reduced by their
//! greatest common divisor after every operation; when a reduced result
//! cannot be represented in 64 bits the value degrades to a truncated
//! integer approximation instead of wrapping.  Square roots are rounded
//! down to the nearest representable value and fractional powers are not
//! representable at all, so [`ScalarOps::pow_frac`] returns its argument
//! unchanged; the adaptive controller then rescales by the raw tolerance
//! ratio when run over this scalar.

use vstd::prelude::*;

use crate::scalar::ScalarOps;

verus! {

/// Largest magnitude a reduced numerator or denominator may take.
pub const RAT_LIM: i64 = 0x7fff_ffff_ffff_ffff;

/// An exact fraction `n / d` with `d >= 1`.
#[derive(Clone, Copy, Debug, PartialEq, Eq, Structural)]
pub struct Rat {
    n: i64,
    d: i64,
}

impl Rat {
    /// Every [`Rat`] keeps a positive denominator and a numerator whose
    /// negation is still representable.
    #[verifier::type_invariant]
    pub closed spec fn wf(self) -> bool {
        &&& 1 <= self.d
        &&& -RAT_LIM <= self.n <= RAT_LIM
    }

    /// Numerator of the reduced fraction.
    pub closed spec fn numer(self) -> int {
        self.n as int
    }

    /// Denominator of the reduced fraction.
    pub closed spec fn denom(self) -> int {
        self.d as int
    }

    /// The fraction `num / den`, reduced.
    pub fn new(num: i64, den: i64) -> (r: Rat)
        ensures
            r == Self::spec_ratio(num, den),
    {
        Self::ratio(num, den)
    }
}

/// Greatest common divisor by Euclid's rule.
pub closed spec fn spec_gcd(a: nat, b: nat) -> nat
    decreases b,
{
    if b == 0 {
        a
    } else {
        spec_gcd(b, a % b)
    }
}

fn gcd_u128(a: u128, b: u128) -> (g: u128)
    ensures
        g as nat == spec_gcd(a as nat, b as nat),
{
    let mut x = a;
    let mut y = b;
    while y != 0
        invariant
            spec_gcd(x as nat, y as nat) == spec_gcd(a as nat, b as nat),
        decreases y,
    {
        let r = x % y;
        x = y;
        y = r;
    }
    x
}

/// Magnitude of an integer.
pub closed spec fn iabs(x: int) -> nat {
    if x < 0 {
        (-x) as nat
    } else {
        x as nat
    }
}

/// The reduced, range-clamped fraction `n / d`.  Mirrors [`norm128`].
pub closed spec fn spec_norm(n: int, d: int) -> Rat {
    if d < 1 {
        Rat { n: 0, d: 1 }
    } else {
        let na = iabs(n);
        let g0 = spec_gcd(na, d as nat);
        let g: nat = if g0 == 0 || g0 > d as nat {
            1
        } else {
            g0
        };
        let n2: nat = na / g;
        let d2: nat = (d as nat) / g;
        if n2 <= RAT_LIM as nat && d2 <= RAT_LIM as nat {
            Rat {
                n: if n < 0 {
                    (-(n2 as int)) as i64
                } else {
                    n2 as i64
                },
                d: d2 as i64,
            }
        } else {
            let q: nat = n2 / d2;
            let m: nat = if q > RAT_LIM as nat {
                RAT_LIM as nat
            } else {
                q
            };
            Rat {
                n: if n < 0 {
                    (-(m as int)) as i64
                } else {
                    m as i64
                },
                d: 1,
            }
        }
    }
}

proof fn lemma_prod_bound(a: int, b: int, m: int)
    by (nonlinear_arith)
    requires
        0 <= m,
        -m <= a <= m,
        -m <= b <= m,
    ensures
        -m * m <= a * b <= m * m,
{
}

proof fn lemma_pos_prod(a: int, b: int)
    by (nonlinear_arith)
    requires
        1 <= a,
        1 <= b,
    ensures
        1 <= a * b,
{
}

proof fn lemma_div_pos(a: nat, b: nat)
    by (nonlinear_arith)
    requires
        1 <= b <= a,
    ensures
        1 <= a / b,
        a / b <= a,
{
}

fn norm128(n: i128, d: i128) -> (r: Rat)
    requires
        1 <= d,
        i128::MIN < n,
    ensures
        r == spec_norm(n as int, d as int),
        r.wf(),
{
    let neg = n < 0;
    let na: u128 = if neg {
        (-n) as u128
    } else {
        n as u128
    };
    let dd: u128 = d as u128;
    let g0 = gcd_u128(na, dd);
    let g: u128 = if g0 == 0 || g0 > dd {
        1
    } else {
        g0
    };
    let n2: u128 = na / g;
    let d2: u128 = dd / g;
    proof {
        lemma_div_pos(dd as nat, g as nat);
    }
    if n2 <= RAT_LIM as u128 && d2 <= RAT_LIM as u128 {
        let nn: i64 = if neg {
            -(n2 as i64)
        } else {
            n2 as i64
        };
        Rat { n: nn, d: d2 as i64 }
    } else {
        let q: u128 = n2 / d2;
        let m: u128 = if q > RAT_LIM as u128 {
            RAT_LIM as u128
        } else {
            q
        };
        let nn: i64 = if neg {
            -(m as i64)
        } else {
            m as i64
        };
        Rat { n: nn, d: 1 }
    }
}

/// Floor of the square root, defined by counting up.
pub closed spec fn spec_isqrt(x: nat) -> nat
    decreases x,
{
    if x == 0 {
        0
    } else {
        let r = spec_isqrt((x - 1) as nat);
        if (r + 1) * (r + 1) <= x {
            r + 1
        } else {
            r
        }
    }
}

proof fn lemma_isqrt_bracket(x: nat)
    ensures
        spec_isqrt(x) * spec_isqrt(x) <= x,
        x < (spec_isqrt(x) + 1) * (spec_isqrt(x) + 1),
    decreases x,
{
    if x == 0 {
        assert(spec_isqrt(0) == 0);
        assert(x < (spec_isqrt(x) + 1) * (spec_isqrt(x) + 1)) by (nonlinear_arith)
            requires
                x == 0,
                spec_isqrt(x) == 0,
        ;
    } else {
        lemma_isqrt_bracket((x - 1) as nat);
        let r = spec_isqrt((x - 1) as nat);
        assert(spec_isqrt(x) == if (r + 1) * (r + 1) <= x {
            r + 1
        } else {
            r
        });
        if (r + 1) * (r + 1) <= x {
            assert(spec_isqrt(x) == r + 1);
            assert(x < (r + 1) * (r + 1) + 1);
            assert((r + 1) * (r + 1) + 1 <= (r + 2) * (r + 2)) by (nonlinear_arith);
            assert(x < (r + 2) * (r + 2));
            assert(x < (spec_isqrt(x) + 1) * (spec_isqrt(x) + 1)) by (nonlinear_arith)
                requires
                    spec_isqrt(x) == r + 1,
                    x < (r + 2) * (r + 2),
            ;
        } else {
            assert(spec_isqrt(x) == r);
            assert(x < (r + 1) * (r + 1));
            assert(x < (spec_isqrt(x) + 1) * (spec_isqrt(x) + 1)) by (nonlinear_arith)
                requires
                    spec_isqrt(x) == r,
                    x < (r + 1) * (r + 1),
            ;
        }
    }
}

fn isqrt_u128(x: u128) -> (r: u128)
    requires
        x < 0x8000_0000_0000_0000 * 0x8000_0000_0000_0000,
    ensures
        r as nat == spec_isqrt(x as nat),
{
    let mut lo: u128 = 0;
    let mut hi: u128 = 0x8000_0000_0000_0000;
    proof {
        assert(0x8000_0000_0000_0000u128 * 0x8000_0000_0000_0000u128
            == 0x4000_0000_0000_0000_0000_0000_0000_0000) by (nonlinear_arith);
    }
    while lo + 1 < hi
        invariant
            lo < hi <= 0x8000_0000_0000_0000,
            lo as nat * lo as nat <= x as nat,
            (x as nat) < hi as nat * hi as nat,
        decreases hi - lo,
    {
        let mid = lo + (hi - lo) / 2;
        proof {
            lemma_prod_bound(mid as int, mid as int, 0x8000_0000_0000_0000);
        }
        if mid * mid <= x {
            lo = mid;
        } else {
            hi = mid;
        }
    }
    proof {
        lemma_isqrt_bracket(x as nat);
        let s = spec_isqrt(x as nat);
        assert(lo as nat == s) by (nonlinear_arith)
            requires
                lo as nat * lo as nat <= x as nat,
                (x as nat) < (lo as nat + 1) * (lo as nat + 1),
                s * s <= x as nat,
                (x as nat) < (s + 1) * (s + 1),
        ;
    }
    lo
}

impl ScalarOps for Rat {
    closed spec fn spec_add(a: Rat, b: Rat) -> Rat {
        spec_norm(a.n * b.d + b.n * a.d, a.d * b.d)
    }

    closed spec fn spec_sub(a: Rat, b: Rat) -> Rat {
        spec_norm(a.n * b.d - b.n * a.d, a.d * b.d)
    }

    closed spec fn spec_mul(a: Rat, b: Rat) -> Rat {
        spec_norm(a.n * b.n, a.d * b.d)
    }

    closed spec fn spec_div(a: Rat, b: Rat) -> Rat {
        if b.n == 0 {
            Rat { n: 0, d: 1 }
        } else if b.n < 0 {
            spec_norm(-(a.n * b.d), a.d * -b.n)
        } else {
            spec_norm(a.n * b.d, a.d * b.n)
        }
    }

    closed spec fn spec_neg(a: Rat) -> Rat {
        spec_norm(-(a.n as int), a.d as int)
    }

    closed spec fn spec_sqrt(a: Rat) -> Rat {
        if a.n < 0 {
            Rat { n: 0, d: 1 }
        } else {
            spec_norm(spec_isqrt((a.n * a.d) as nat) as int, a.d as int)
        }
    }

    closed spec fn spec_pow_frac(a: Rat, num: i64, den: i64) -> Rat {
        a
    }

    closed spec fn spec_ratio(num: i64, den: i64) -> Rat {
        if den == 0 {
            Rat { n: 0, d: 1 }
        } else if den < 0 {
            spec_norm(-(num as int), -(den as int))
        } else {
            spec_norm(num as int, den as int)
        }
    }

    closed spec fn spec_le(a: Rat, b: Rat) -> bool {
        a.n * b.d <= b.n * a.d
    }

    closed spec fn spec_lt(a: Rat, b: Rat) -> bool {
        a.n * b.d < b.n * a.d
    }

    closed spec fn spec_eq(a: Rat, b: Rat) -> bool {
        a.n * b.d == b.n * a.d
    }

    fn add(self, rhs: Rat) -> (r: Rat) {
        proof {
            use_type_invariant(&self);
            use_type_invariant(&rhs);
            lemma_prod_bound(self.n as int, rhs.d as int, RAT_LIM as int);
            lemma_prod_bound(rhs.n as int, self.d as int, RAT_LIM as int);
            lemma_prod_bound(self.d as int, rhs.d as int, RAT_LIM as int);
            lemma_pos_prod(self.d as int, rhs.d as int);
        }
        norm128(
            self.n as i128 * rhs.d as i128 + rhs.n as i128 * self.d as i128,
            self.d as i128 * rhs.d as i128,
        )
    }

    fn sub(self, rhs: Rat) -> (r: Rat) {
        proof {
            use_type_invariant(&self);
            use_type_invariant(&rhs);
            lemma_prod_bound(self.n as int, rhs.d as int, RAT_LIM as int);
            lemma_prod_bound(rhs.n as int, self.d as int, RAT_LIM as int);
            lemma_prod_bound(self.d as int, rhs.d as int, RAT_LIM as int);
            lemma_pos_prod(self.d as int, rhs.d as int);
        }
        norm128(
            self.n as i128 * rhs.d as i128 - rhs.n as i128 * self.d as i128,
            self.d as i128 * rhs.d as i128,
        )
    }

    fn mul(self, rhs: Rat) -> (r: Rat) {
        proof {
            use_type_invariant(&self);
            use_type_invariant(&rhs);
            lemma_prod_bound(self.n as int, rhs.n as int, RAT_LIM as int);
            lemma_prod_bound(self.d as int, rhs.d as int, RAT_LIM as int);
            lemma_pos_prod(self.d as int, rhs.d as int);
        }
        norm128(self.n as i128 * rhs.n as i128, self.d as i128 * rhs.d as i128)
    }

    fn div(self, rhs: Rat) -> (r: Rat) {
        proof {
            use_type_invariant(&self);
            use_type_invariant(&rhs);
            lemma_prod_bound(self.n as int, rhs.d as int, RAT_LIM as int);
        }
        if rhs.n == 0 {
            Rat { n: 0, d: 1 }
        } else if rhs.n < 0 {
            proof {
                lemma_prod_bound(self.d as int, -(rhs.n as int), RAT_LIM as int);
                lemma_pos_prod(self.d as int, -(rhs.n as int));
            }
            norm128(-(self.n as i128 * rhs.d as i128), self.d as i128 * -(rhs.n as i128))
        } else {
            proof {
                lemma_prod_bound(self.d as int, rhs.n as int, RAT_LIM as int);
                lemma_pos_prod(self.d as int, rhs.n as int);
            }
            norm128(self.n as i128 * rhs.d as i128, self.d as i128 * rhs.n as i128)
        }
    }

    fn neg(self) -> (r: Rat) {
        proof {
            use_type_invariant(&self);
        }
        norm128(-(self.n as i128), self.d as i128)
    }

    fn sqrt(self) -> (r: Rat) {
        proof {
            use_type_invariant(&self);
        }
        if self.n < 0 {
            Rat { n: 0, d: 1 }
        } else {
            proof {
                lemma_prod_bound(self.n as int, self.d as int, RAT_LIM as int);
                assert((RAT_LIM as int) * (RAT_LIM as int)
                    < 0x8000_0000_0000_0000 * 0x8000_0000_0000_0000) by (nonlinear_arith);
            }
            let p: u128 = (self.n as i128 * self.d as i128) as u128;
            let s = isqrt_u128(p);
            proof {
                lemma_isqrt_bracket(p as nat);
                assert(spec_isqrt(p as nat) * spec_isqrt(p as nat) <= p as nat);
                assert(s as nat <= 0x8000_0000_0000_0000) by (nonlinear_arith)
                    requires
                        s as nat * s as nat <= p as nat,
                        (p as nat) < 0x8000_0000_0000_0000 * 0x8000_0000_0000_0000,
                ;
            }
            norm128(s as i128, self.d as i128)
        }
    }

    fn pow_frac(self, _num: i64, _den: i64) -> (r: Rat) {
        self
    }

    fn ratio(num: i64, den: i64) -> (r: Rat) {
        if den == 0 {
            Rat { n: 0, d: 1 }
        } else if den < 0 {
            norm128(-(num as i128), -(den as i128))
        } else {
            norm128(num as i128, den as i128)
        }
    }

    fn le(self, rhs: Rat) -> (r: bool) {
        proof {
            use_type_invariant(&self);
            use_type_invariant(&rhs);
            lemma_prod_bound(self.n as int, rhs.d as int, RAT_LIM as int);
            lemma_prod_bound(rhs.n as int, self.d as int, RAT_LIM as int);
        }
        self.n as i128 * rhs.d as i128 <= rhs.n as i128 * self.d as i128
    }

    fn lt(self, rhs: Rat) -> (r: bool) {
        proof {
            use_type_invariant(&self);
            use_type_invariant(&rhs);
            lemma_prod_bound(self.n as int, rhs.d as int, RAT_LIM as int);
            lemma_prod_bound(rhs.n as int, self.d as int, RAT_LIM as int);
        }
        (self.n as i128 * rhs.d as i128) < (rhs.n as i128 * self.d as i128)
    }

    fn eq_val(self, rhs: Rat) -> (r: bool) {
        proof {
            use_type_invariant(&self);
            use_type_invariant(&rhs);
            lemma_prod_bound(self.n as int, rhs.d as int, RAT_LIM as int);
            lemma_prod_bound(rhs.n as int, self.d as int, RAT_LIM as int);
        }
        self.n as i128 * rhs.d as i128 == rhs.n as i128 * self.d as i128
    }
}

} // verus!
