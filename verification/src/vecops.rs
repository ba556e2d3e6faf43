//! Element-wise algebra over state and derivative vectors, at the spec level
//! and as verified executable helpers.

use vstd::prelude::*;

use crate::scalar::{spec_zero, ScalarOps};

verus! {

/// Element-wise sum of two equally long vectors.
pub open spec fn vadd<S: ScalarOps>(a: Seq<S>, b: Seq<S>) -> Seq<S> {
    Seq::new(a.len(), |i: int| S::spec_add(a[i], b[i]))
}

/// Element-wise difference of two equally long vectors.
pub open spec fn vsub<S: ScalarOps>(a: Seq<S>, b: Seq<S>) -> Seq<S> {
    Seq::new(a.len(), |i: int| S::spec_sub(a[i], b[i]))
}

/// Every element multiplied by `k` on the left.
pub open spec fn vscale<S: ScalarOps>(k: S, v: Seq<S>) -> Seq<S> {
    Seq::new(v.len(), |i: int| S::spec_mul(k, v[i]))
}

/// The all-zero vector of length `n`.
pub open spec fn vzero<S: ScalarOps>(n: nat) -> Seq<S> {
    Seq::new(n, |i: int| spec_zero::<S>())
}

/// Every element squared.
pub open spec fn vsq<S: ScalarOps>(v: Seq<S>) -> Seq<S> {
    Seq::new(v.len(), |i: int| S::spec_mul(v[i], v[i]))
}

/// Left-to-right sum of the first `n` elements, starting from zero, in the
/// order an accumulating loop adds them.
pub open spec fn sum_pre<S: ScalarOps>(v: Seq<S>, n: nat) -> S
    decreases n,
{
    if n == 0 {
        spec_zero::<S>()
    } else {
        S::spec_add(sum_pre(v, (n - 1) as nat), v[n - 1])
    }
}

/// Euclidean norm of a vector: the square root of the accumulated sum of
/// squares.
pub open spec fn l2_norm_spec<S: ScalarOps>(v: Seq<S>) -> S {
    S::spec_sqrt(sum_pre(vsq(v), v.len()))
}

/// Element-wise sum of two equally long vectors.
pub fn vec_add<S: ScalarOps>(a: &Vec<S>, b: &Vec<S>) -> (r: Vec<S>)
    requires
        a@.len() == b@.len(),
    ensures
        r@ == vadd(a@, b@),
{
    let mut out: Vec<S> = Vec::new();
    let mut j: usize = 0;
    while j < a.len()
        invariant
            j <= a@.len(),
            a@.len() == b@.len(),
            out@ =~= vadd(a@, b@).take(j as int),
        decreases a@.len() - j,
    {
        out.push(a[j].add(b[j]));
        j = j + 1;
    }
    proof {
        assert(out@ =~= vadd(a@, b@));
    }
    out
}

/// Element-wise difference of two equally long vectors.
pub fn vec_sub<S: ScalarOps>(a: &Vec<S>, b: &Vec<S>) -> (r: Vec<S>)
    requires
        a@.len() == b@.len(),
    ensures
        r@ == vsub(a@, b@),
{
    let mut out: Vec<S> = Vec::new();
    let mut j: usize = 0;
    while j < a.len()
        invariant
            j <= a@.len(),
            a@.len() == b@.len(),
            out@ =~= vsub(a@, b@).take(j as int),
        decreases a@.len() - j,
    {
        out.push(a[j].sub(b[j]));
        j = j + 1;
    }
    proof {
        assert(out@ =~= vsub(a@, b@));
    }
    out
}

/// Euclidean norm, accumulated left to right.
pub fn l2_norm<S: ScalarOps>(v: &Vec<S>) -> (r: S)
    ensures
        r == l2_norm_spec(v@),
{
    let mut acc: S = S::ratio(0, 1);
    let mut j: usize = 0;
    while j < v.len()
        invariant
            j <= v@.len(),
            acc == sum_pre(vsq(v@), j as nat),
        decreases v@.len() - j,
    {
        let x = v[j];
        acc = acc.add(x.mul(x));
        j = j + 1;
    }
    acc.sqrt()
}

/// Successive differences of a vector, matching the element order of the
/// original sequence: the `i`-th output is `v[i + 1] - v[i]`.
pub open spec fn diff_spec<S: ScalarOps>(v: Seq<S>) -> Seq<S> {
    if v.len() == 0 {
        Seq::empty()
    } else {
        Seq::new((v.len() - 1) as nat, |i: int| S::spec_sub(v[i + 1], v[i]))
    }
}

/// Successive differences of a vector.
pub fn diff<S: ScalarOps>(v: &Vec<S>) -> (r: Vec<S>)
    ensures
        r@ == diff_spec(v@),
{
    let mut out: Vec<S> = Vec::new();
    if v.len() == 0 {
        proof {
            assert(out@ =~= diff_spec(v@));
        }
        return out;
    }
    let mut j: usize = 0;
    while j < v.len() - 1
        invariant
            v@.len() >= 1,
            j <= v@.len() - 1,
            out@ =~= diff_spec(v@).take(j as int),
        decreases v@.len() - j,
    {
        out.push(v[j + 1].sub(v[j]));
        j = j + 1;
    }
    proof {
        assert(out@ =~= diff_spec(v@));
    }
    out
}

/// The schedule of `n` points evenly spaced from `start` to `stop`:
/// point `i` is `i * (stop - start) / (n - 1) + start`.
pub open spec fn linspace_spec<S: ScalarOps>(start: S, stop: S, n: nat) -> Seq<S> {
    let step = S::spec_div(S::spec_sub(stop, start), S::spec_ratio((n - 1) as i64, 1));
    Seq::new(n, |i: int| S::spec_add(S::spec_mul(S::spec_ratio(i as i64, 1), step), start))
}

/// `n` evenly spaced points from `start` to `stop`.
pub fn linspace<S: ScalarOps>(start: S, stop: S, n: usize) -> (r: Vec<S>)
    requires
        2 <= n <= i64::MAX,
    ensures
        r@ == linspace_spec(start, stop, n as nat),
{
    let step = stop.sub(start).div(S::ratio((n - 1) as i64, 1));
    let mut out: Vec<S> = Vec::new();
    let mut j: usize = 0;
    while j < n
        invariant
            j <= n,
            2 <= n <= i64::MAX,
            step == S::spec_div(
                S::spec_sub(stop, start),
                S::spec_ratio((n - 1) as i64, 1),
            ),
            out@ =~= linspace_spec(start, stop, n as nat).take(j as int),
        decreases n - j,
    {
        out.push(S::ratio(j as i64, 1).mul(step).add(start));
        j = j + 1;
    }
    proof {
        assert(out@ =~= linspace_spec(start, stop, n as nat));
    }
    out
}

} // verus!
