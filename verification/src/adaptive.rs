//! The embedded adaptive methods: the Cash-Karp 5(4) pair and the
//! Bogacki-Shampine 3(2) pair, and the error-norm-based step-size
//! controller they share.
//!
//! Each pair has a stage function computing both embedded increments for a
//! trial step size from one shared set of stage evaluations; the controller
//! retries the stage function at rescaled step sizes until an error
//! tolerance or the iteration cap is reached, then commits the higher-order
//! increment.  All tableau coefficients appear as exact integer ratios.

use vstd::prelude::*;

use crate::scalar::{contractive_rescale, exact_ordered, lemma_min_le_both, spec_min, min_val, spec_zero, ScalarOps};
use crate::solver_types::{AdaptiveSolverConfig, SolverReasons, SolverState};
use crate::system::{dims_ok, field_at, SolverBase};
use crate::vecops::{l2_norm, l2_norm_spec, vadd, vec_add, vec_sub, vscale, vsub};

verus! {

/// Which embedded pair the controller is driving.
#[derive(Clone, Copy, PartialEq, Eq, Structural)]
pub enum PairKind {
    /// the Cash-Karp 5(4) pair
    CashKarp,
    /// the Bogacki-Shampine 3(2) pair
    BogackiShampine,
}

/// `(c1*a + c2*b) * dt`, in each component.
pub open spec fn combo2<S: ScalarOps>(c1: S, a: Seq<S>, c2: S, b: Seq<S>, dt: S) -> Seq<S> {
    Seq::new(
        a.len(),
        |i: int| S::spec_mul(S::spec_add(S::spec_mul(c1, a[i]), S::spec_mul(c2, b[i])), dt),
    )
}

/// `(c1*a + c2*b + c3*c) * dt`, in each component.
pub open spec fn combo3<S: ScalarOps>(
    c1: S,
    a: Seq<S>,
    c2: S,
    b: Seq<S>,
    c3: S,
    c: Seq<S>,
    dt: S,
) -> Seq<S> {
    Seq::new(
        a.len(),
        |i: int| S::spec_mul(
            S::spec_add(
                S::spec_add(S::spec_mul(c1, a[i]), S::spec_mul(c2, b[i])),
                S::spec_mul(c3, c[i]),
            ),
            dt,
        ),
    )
}

/// `(c1*a + c2*b + c3*c + c4*d) * dt`, in each component.
pub open spec fn combo4<S: ScalarOps>(
    c1: S,
    a: Seq<S>,
    c2: S,
    b: Seq<S>,
    c3: S,
    c: Seq<S>,
    c4: S,
    d: Seq<S>,
    dt: S,
) -> Seq<S> {
    Seq::new(
        a.len(),
        |i: int| S::spec_mul(
            S::spec_add(
                S::spec_add(
                    S::spec_add(S::spec_mul(c1, a[i]), S::spec_mul(c2, b[i])),
                    S::spec_mul(c3, c[i]),
                ),
                S::spec_mul(c4, d[i]),
            ),
            dt,
        ),
    )
}

/// `(c1*a + c2*b + c3*c + c4*d + c5*e) * dt`, in each component.
pub open spec fn combo5<S: ScalarOps>(
    c1: S,
    a: Seq<S>,
    c2: S,
    b: Seq<S>,
    c3: S,
    c: Seq<S>,
    c4: S,
    d: Seq<S>,
    c5: S,
    e: Seq<S>,
    dt: S,
) -> Seq<S> {
    Seq::new(
        a.len(),
        |i: int| S::spec_mul(
            S::spec_add(
                S::spec_add(
                    S::spec_add(
                        S::spec_add(S::spec_mul(c1, a[i]), S::spec_mul(c2, b[i])),
                        S::spec_mul(c3, c[i]),
                    ),
                    S::spec_mul(c4, d[i]),
                ),
                S::spec_mul(c5, e[i]),
            ),
            dt,
        ),
    )
}

fn combo2_vec<S: ScalarOps>(c1: S, a: &Vec<S>, c2: S, b: &Vec<S>, dt: S) -> (r: Vec<S>)
    requires
        b@.len() == a@.len(),
    ensures
        r@ == combo2(c1, a@, c2, b@, dt),
{
    let mut out: Vec<S> = Vec::new();
    let mut j: usize = 0;
    while j < a.len()
        invariant
            j <= a@.len(),
            b@.len() == a@.len(),
            out@ =~= combo2(c1, a@, c2, b@, dt).take(j as int),
        decreases a@.len() - j,
    {
        out.push(c1.mul(a[j]).add(c2.mul(b[j])).mul(dt));
        j = j + 1;
    }
    proof {
        assert(out@ =~= combo2(c1, a@, c2, b@, dt));
    }
    out
}

fn combo3_vec<S: ScalarOps>(c1: S, a: &Vec<S>, c2: S, b: &Vec<S>, c3: S, c: &Vec<S>, dt: S) -> (r:
    Vec<S>)
    requires
        b@.len() == a@.len(),
        c@.len() == a@.len(),
    ensures
        r@ == combo3(c1, a@, c2, b@, c3, c@, dt),
{
    let mut out: Vec<S> = Vec::new();
    let mut j: usize = 0;
    while j < a.len()
        invariant
            j <= a@.len(),
            b@.len() == a@.len(),
            c@.len() == a@.len(),
            out@ =~= combo3(c1, a@, c2, b@, c3, c@, dt).take(j as int),
        decreases a@.len() - j,
    {
        out.push(c1.mul(a[j]).add(c2.mul(b[j])).add(c3.mul(c[j])).mul(dt));
        j = j + 1;
    }
    proof {
        assert(out@ =~= combo3(c1, a@, c2, b@, c3, c@, dt));
    }
    out
}

fn combo4_vec<S: ScalarOps>(
    c1: S,
    a: &Vec<S>,
    c2: S,
    b: &Vec<S>,
    c3: S,
    c: &Vec<S>,
    c4: S,
    d: &Vec<S>,
    dt: S,
) -> (r: Vec<S>)
    requires
        b@.len() == a@.len(),
        c@.len() == a@.len(),
        d@.len() == a@.len(),
    ensures
        r@ == combo4(c1, a@, c2, b@, c3, c@, c4, d@, dt),
{
    let mut out: Vec<S> = Vec::new();
    let mut j: usize = 0;
    while j < a.len()
        invariant
            j <= a@.len(),
            b@.len() == a@.len(),
            c@.len() == a@.len(),
            d@.len() == a@.len(),
            out@ =~= combo4(c1, a@, c2, b@, c3, c@, c4, d@, dt).take(j as int),
        decreases a@.len() - j,
    {
        out.push(c1.mul(a[j]).add(c2.mul(b[j])).add(c3.mul(c[j])).add(c4.mul(d[j])).mul(dt));
        j = j + 1;
    }
    proof {
        assert(out@ =~= combo4(c1, a@, c2, b@, c3, c@, c4, d@, dt));
    }
    out
}

fn combo5_vec<S: ScalarOps>(
    c1: S,
    a: &Vec<S>,
    c2: S,
    b: &Vec<S>,
    c3: S,
    c: &Vec<S>,
    c4: S,
    d: &Vec<S>,
    c5: S,
    e: &Vec<S>,
    dt: S,
) -> (r: Vec<S>)
    requires
        b@.len() == a@.len(),
        c@.len() == a@.len(),
        d@.len() == a@.len(),
        e@.len() == a@.len(),
    ensures
        r@ == combo5(c1, a@, c2, b@, c3, c@, c4, d@, c5, e@, dt),
{
    let mut out: Vec<S> = Vec::new();
    let mut j: usize = 0;
    while j < a.len()
        invariant
            j <= a@.len(),
            b@.len() == a@.len(),
            c@.len() == a@.len(),
            d@.len() == a@.len(),
            e@.len() == a@.len(),
            out@ =~= combo5(c1, a@, c2, b@, c3, c@, c4, d@, c5, e@, dt).take(j as int),
        decreases a@.len() - j,
    {
        out.push(
            c1.mul(a[j]).add(c2.mul(b[j])).add(c3.mul(c[j])).add(c4.mul(d[j])).add(
                c5.mul(e[j]),
            ).mul(dt),
        );
        j = j + 1;
    }
    proof {
        assert(out@ =~= combo5(c1, a@, c2, b@, c3, c@, c4, d@, c5, e@, dt));
    }
    out
}

/// The six Cash-Karp stage derivatives at trial step `dt`, with stage time
/// offsets 0, 1/5, 3/10, 3/5, 1 and 7/8 of `dt`.
pub open spec fn ck_stages<S: ScalarOps>(
    f: spec_fn(Seq<S>, S) -> Seq<S>,
    x0: Seq<S>,
    t0: S,
    dt: S,
) -> (Seq<S>, Seq<S>, Seq<S>, Seq<S>, Seq<S>, Seq<S>) {
    let r = |n: int, d: int| S::spec_ratio(n as i64, d as i64);
    let k1 = f(x0, t0);
    let c2 = S::spec_div(dt, r(5, 1));
    let k2 = f(vadd(x0, vscale(c2, k1)), S::spec_add(t0, c2));
    let t3 = S::spec_div(S::spec_mul(dt, r(3, 1)), r(10, 1));
    let k3 = f(vadd(x0, combo2(r(3, 40), k1, r(9, 40), k2, dt)), S::spec_add(t0, t3));
    let t4 = S::spec_div(S::spec_mul(dt, r(3, 1)), r(5, 1));
    let k4 = f(
        vadd(x0, combo3(r(3, 10), k1, r(-9, 10), k2, r(6, 5), k3, dt)),
        S::spec_add(t0, t4),
    );
    let k5 = f(
        vadd(x0, combo4(r(-11, 54), k1, r(5, 2), k2, r(-70, 27), k3, r(35, 27), k4, dt)),
        S::spec_add(t0, dt),
    );
    let t6 = S::spec_div(S::spec_mul(dt, r(7, 1)), r(8, 1));
    let k6 = f(
        vadd(
            x0,
            combo5(
                r(1631, 55296),
                k1,
                r(175, 512),
                k2,
                r(575, 13824),
                k3,
                r(44275, 110592),
                k4,
                r(253, 4096),
                k5,
                dt,
            ),
        ),
        S::spec_add(t0, t6),
    );
    (k1, k2, k3, k4, k5, k6)
}

/// The 5th-order Cash-Karp increment, with weights
/// 37/378, 0, 250/621, 125/594, 0, 512/1771: what an accepted step commits.
pub open spec fn ck_high<S: ScalarOps>(
    f: spec_fn(Seq<S>, S) -> Seq<S>,
    x0: Seq<S>,
    t0: S,
    dt: S,
) -> Seq<S> {
    let r = |n: int, d: int| S::spec_ratio(n as i64, d as i64);
    let (k1, k2, k3, k4, k5, k6) = ck_stages(f, x0, t0, dt);
    combo4(r(37, 378), k1, r(250, 621), k3, r(125, 594), k4, r(512, 1771), k6, dt)
}

/// The embedded 4th-order Cash-Karp increment, with weights
/// 2825/27648, 0, 18575/48384, 13525/55296, 277/14336, 1/4.
pub open spec fn ck_low<S: ScalarOps>(
    f: spec_fn(Seq<S>, S) -> Seq<S>,
    x0: Seq<S>,
    t0: S,
    dt: S,
) -> Seq<S> {
    let r = |n: int, d: int| S::spec_ratio(n as i64, d as i64);
    let (k1, k2, k3, k4, k5, k6) = ck_stages(f, x0, t0, dt);
    combo5(
        r(2825, 27648),
        k1,
        r(18575, 48384),
        k3,
        r(13525, 55296),
        k4,
        r(277, 14336),
        k5,
        r(1, 4),
        k6,
        dt,
    )
}

/// The four Bogacki-Shampine stage derivatives at trial step `dt`, with
/// stage time offsets 0, 1/2, 3/4 and 1 of `dt`.
pub open spec fn bs_stages<S: ScalarOps>(
    f: spec_fn(Seq<S>, S) -> Seq<S>,
    x0: Seq<S>,
    t0: S,
    dt: S,
) -> (Seq<S>, Seq<S>, Seq<S>, Seq<S>) {
    let r = |n: int, d: int| S::spec_ratio(n as i64, d as i64);
    let k1 = f(x0, t0);
    let c2 = S::spec_div(dt, r(2, 1));
    let k2 = f(vadd(x0, vscale(c2, k1)), S::spec_add(t0, c2));
    let c3 = S::spec_div(S::spec_mul(dt, r(3, 1)), r(4, 1));
    let k3 = f(vadd(x0, vscale(c3, k2)), S::spec_add(t0, c3));
    let d3 = combo3(r(2, 9), k1, r(1, 3), k2, r(4, 9), k3, dt);
    let k4 = f(vadd(x0, d3), S::spec_add(t0, dt));
    (k1, k2, k3, k4)
}

/// The 3rd-order Bogacki-Shampine increment, with weights 2/9, 1/3, 4/9, 0:
/// what an accepted step commits.
pub open spec fn bs_high<S: ScalarOps>(
    f: spec_fn(Seq<S>, S) -> Seq<S>,
    x0: Seq<S>,
    t0: S,
    dt: S,
) -> Seq<S> {
    let r = |n: int, d: int| S::spec_ratio(n as i64, d as i64);
    let (k1, k2, k3, k4) = bs_stages(f, x0, t0, dt);
    combo3(r(2, 9), k1, r(1, 3), k2, r(4, 9), k3, dt)
}

/// The embedded 2nd-order Bogacki-Shampine increment, with weights
/// 7/24, 1/4, 1/3, 1/8.
pub open spec fn bs_low<S: ScalarOps>(
    f: spec_fn(Seq<S>, S) -> Seq<S>,
    x0: Seq<S>,
    t0: S,
    dt: S,
) -> Seq<S> {
    let r = |n: int, d: int| S::spec_ratio(n as i64, d as i64);
    let (k1, k2, k3, k4) = bs_stages(f, x0, t0, dt);
    combo4(r(7, 24), k1, r(1, 4), k2, r(1, 3), k3, r(1, 8), k4, dt)
}

/// The lower-order increment of the selected pair.
pub open spec fn pair_low<S: ScalarOps>(
    kind: PairKind,
    f: spec_fn(Seq<S>, S) -> Seq<S>,
    x0: Seq<S>,
    t0: S,
    dt: S,
) -> Seq<S> {
    match kind {
        PairKind::CashKarp => ck_low(f, x0, t0, dt),
        PairKind::BogackiShampine => bs_low(f, x0, t0, dt),
    }
}

/// The higher-order increment of the selected pair: what an accepted step
/// commits.
pub open spec fn pair_high<S: ScalarOps>(
    kind: PairKind,
    f: spec_fn(Seq<S>, S) -> Seq<S>,
    x0: Seq<S>,
    t0: S,
    dt: S,
) -> Seq<S> {
    match kind {
        PairKind::CashKarp => ck_high(f, x0, t0, dt),
        PairKind::BogackiShampine => bs_high(f, x0, t0, dt),
    }
}

/// One Cash-Karp evaluation at trial step `dt`: six stage derivatives on
/// trial copies, returning the 4th-order and 5th-order increments.  The
/// authoritative state and time are untouched; only the derivative vector
/// is left at the stage-one value.
pub fn rk45_cash_karp_step<S: ScalarOps, T: SolverBase<S>>(sys: &mut T, dt: S) -> (r: (
    Vec<S>,
    Vec<S>,
))
    requires
        dims_ok(old(sys).st(), old(sys).dv(), old(sys).strg(), old(sys).rhs()),
    ensures
        r.0@ == ck_low(old(sys).rhs(), old(sys).st(), old(sys).tm(), dt),
        r.1@ == ck_high(old(sys).rhs(), old(sys).st(), old(sys).tm(), dt),
        final(sys).st() == old(sys).st(),
        final(sys).tm() == old(sys).tm(),
        final(sys).dv() == ck_stages(old(sys).rhs(), old(sys).st(), old(sys).tm(), dt).0,
        final(sys).idx() == old(sys).idx(),
        final(sys).strg() == old(sys).strg(),
        final(sys).rhs() == old(sys).rhs(),
{
    sys.update_derivs();
    let k1 = sys.derivs();

    let mut sys1 = sys.trial_copy();
    sys1.step_states_by_dt(&dt.div(S::ratio(5, 1)));
    sys1.update_derivs();
    let k2 = sys1.derivs();

    let mut sys2 = sys.trial_copy();
    sys2.step_time(&dt.mul(S::ratio(3, 1)).div(S::ratio(10, 1)));
    sys2.step_states(combo2_vec(S::ratio(3, 40), &k1, S::ratio(9, 40), &k2, dt));
    sys2.update_derivs();
    let k3 = sys2.derivs();

    let mut sys3 = sys.trial_copy();
    sys3.step_time(&dt.mul(S::ratio(3, 1)).div(S::ratio(5, 1)));
    sys3.step_states(
        combo3_vec(S::ratio(3, 10), &k1, S::ratio(-9, 10), &k2, S::ratio(6, 5), &k3, dt),
    );
    sys3.update_derivs();
    let k4 = sys3.derivs();

    let mut sys4 = sys.trial_copy();
    sys4.step_time(&dt);
    sys4.step_states(
        combo4_vec(
            S::ratio(-11, 54),
            &k1,
            S::ratio(5, 2),
            &k2,
            S::ratio(-70, 27),
            &k3,
            S::ratio(35, 27),
            &k4,
            dt,
        ),
    );
    sys4.update_derivs();
    let k5 = sys4.derivs();

    let mut sys5 = sys.trial_copy();
    sys5.step_time(&dt.mul(S::ratio(7, 1)).div(S::ratio(8, 1)));
    sys5.step_states(
        combo5_vec(
            S::ratio(1631, 55296),
            &k1,
            S::ratio(175, 512),
            &k2,
            S::ratio(575, 13824),
            &k3,
            S::ratio(44275, 110592),
            &k4,
            S::ratio(253, 4096),
            &k5,
            dt,
        ),
    );
    sys5.update_derivs();
    let k6 = sys5.derivs();

    let delta4 = combo5_vec(
        S::ratio(2825, 27648),
        &k1,
        S::ratio(18575, 48384),
        &k3,
        S::ratio(13525, 55296),
        &k4,
        S::ratio(277, 14336),
        &k5,
        S::ratio(1, 4),
        &k6,
        dt,
    );
    let delta5 = combo4_vec(
        S::ratio(37, 378),
        &k1,
        S::ratio(250, 621),
        &k3,
        S::ratio(125, 594),
        &k4,
        S::ratio(512, 1771),
        &k6,
        dt,
    );
    (delta4, delta5)
}

/// One Bogacki-Shampine evaluation at trial step `dt`: four stage
/// derivatives on trial copies, returning the 2nd-order and 3rd-order
/// increments.  The authoritative state and time are untouched; only the
/// derivative vector is left at the stage-one value.
pub fn rk23_bogacki_shampine_step<S: ScalarOps, T: SolverBase<S>>(sys: &mut T, dt: S) -> (r: (
    Vec<S>,
    Vec<S>,
))
    requires
        dims_ok(old(sys).st(), old(sys).dv(), old(sys).strg(), old(sys).rhs()),
    ensures
        r.0@ == bs_low(old(sys).rhs(), old(sys).st(), old(sys).tm(), dt),
        r.1@ == bs_high(old(sys).rhs(), old(sys).st(), old(sys).tm(), dt),
        final(sys).st() == old(sys).st(),
        final(sys).tm() == old(sys).tm(),
        final(sys).dv() == bs_stages(old(sys).rhs(), old(sys).st(), old(sys).tm(), dt).0,
        final(sys).idx() == old(sys).idx(),
        final(sys).strg() == old(sys).strg(),
        final(sys).rhs() == old(sys).rhs(),
{
    sys.update_derivs();
    let k1 = sys.derivs();

    let mut sys1 = sys.trial_copy();
    sys1.step_states_by_dt(&dt.div(S::ratio(2, 1)));
    sys1.update_derivs();
    let k2 = sys1.derivs();

    let mut sys2 = sys.trial_copy();
    sys2.set_derivs(&k2);
    sys2.step_states_by_dt(&dt.mul(S::ratio(3, 1)).div(S::ratio(4, 1)));
    sys2.update_derivs();
    let k3 = sys2.derivs();

    let delta3 = combo3_vec(S::ratio(2, 9), &k1, S::ratio(1, 3), &k2, S::ratio(4, 9), &k3, dt);

    let mut sys3 = sys.trial_copy();
    sys3.step_time(&dt);
    let delta3_new = combo3_vec(S::ratio(2, 9), &k1, S::ratio(1, 3), &k2, S::ratio(4, 9), &k3, dt);
    sys3.step_states(delta3_new);
    sys3.update_derivs();
    let k4 = sys3.derivs();

    let delta2 = combo4_vec(
        S::ratio(7, 24),
        &k1,
        S::ratio(1, 4),
        &k2,
        S::ratio(1, 3),
        &k3,
        S::ratio(1, 8),
        &k4,
        dt,
    );
    (delta2, delta3)
}


/// Everything one controller run decides: the step size that was used and
/// committed, the rescaled step size carried to the next macro-step, how
/// many inner iterations ran, the two error norms of the accepted trial,
/// and whether acceptance came from meeting a tolerance (as opposed to
/// exhausting the iteration cap).
pub struct CtrlOutcome<S> {
    /// step size of the accepted trial
    pub dt_used: S,
    /// step size after the final rescale, carried to the next macro-step
    pub dt_next: S,
    /// number of inner iterations run
    pub n_done: int,
    /// absolute error norm of the accepted trial
    pub err: S,
    /// whether the relative error was defined for the accepted trial
    pub rel_def: bool,
    /// relative error norm of the accepted trial, meaningful when defined
    pub rel: S,
    /// whether a tolerance was met (otherwise the cap was exhausted)
    pub by_tol: bool,
}

/// Absolute error of one trial: the Euclidean norm of the difference
/// between the two embedded increments.
pub open spec fn trial_err<S: ScalarOps>(
    kind: PairKind,
    f: spec_fn(Seq<S>, S) -> Seq<S>,
    x0: Seq<S>,
    t0: S,
    dt: S,
) -> S {
    l2_norm_spec(vsub(pair_low(kind, f, x0, t0, dt), pair_high(kind, f, x0, t0, dt)))
}

/// Reference norm of one trial: the Euclidean norm of the higher-order
/// increment.
pub open spec fn trial_ref<S: ScalarOps>(
    kind: PairKind,
    f: spec_fn(Seq<S>, S) -> Seq<S>,
    x0: Seq<S>,
    t0: S,
    dt: S,
) -> S {
    l2_norm_spec(pair_high(kind, f, x0, t0, dt))
}

/// The relative error is defined when the reference norm is meaningfully
/// above zero, which the controller reads as: strictly above `atol`.
pub open spec fn trial_rel_def<S: ScalarOps>(
    kind: PairKind,
    f: spec_fn(Seq<S>, S) -> Seq<S>,
    x0: Seq<S>,
    t0: S,
    dt: S,
    atol: S,
) -> bool {
    S::spec_lt(atol, trial_ref(kind, f, x0, t0, dt))
}

/// Relative error of one trial: absolute error over the reference norm.
pub open spec fn trial_rel<S: ScalarOps>(
    kind: PairKind,
    f: spec_fn(Seq<S>, S) -> Seq<S>,
    x0: Seq<S>,
    t0: S,
    dt: S,
) -> S {
    S::spec_div(trial_err(kind, f, x0, t0, dt), trial_ref(kind, f, x0, t0, dt))
}

/// A trial meets tolerance when its relative error (if defined) is within
/// `rtol`, or its absolute error is within `atol`.
pub open spec fn trial_by_tol<S: ScalarOps>(
    kind: PairKind,
    f: spec_fn(Seq<S>, S) -> Seq<S>,
    x0: Seq<S>,
    t0: S,
    dt: S,
    atol: S,
    rtol: S,
) -> bool {
    ||| trial_rel_def(kind, f, x0, t0, dt, atol) && S::spec_le(trial_rel(kind, f, x0, t0, dt), rtol)
    ||| S::spec_le(trial_err(kind, f, x0, t0, dt), atol)
}

/// The step-size rescale factor `(tol / err) ^ p`, with the gentler
/// exponent `p = 1/5` when the tolerance was met and the more conservative
/// `p = 1/4` otherwise.
pub open spec fn rescale_spec<S: ScalarOps>(tol: S, err: S, within: bool) -> S {
    S::spec_pow_frac(S::spec_div(tol, err), 1, if within { 5 } else { 4 })
}

/// The rescale factor of one trial: driven by the relative error when it
/// is defined, by the absolute error otherwise.
pub open spec fn trial_coeff<S: ScalarOps>(
    kind: PairKind,
    f: spec_fn(Seq<S>, S) -> Seq<S>,
    x0: Seq<S>,
    t0: S,
    dt: S,
    atol: S,
    rtol: S,
) -> S {
    if trial_rel_def(kind, f, x0, t0, dt, atol) {
        let rel = trial_rel(kind, f, x0, t0, dt);
        rescale_spec(rtol, rel, S::spec_le(rel, rtol))
    } else {
        let err = trial_err(kind, f, x0, t0, dt);
        rescale_spec(atol, err, S::spec_le(err, atol))
    }
}

/// The whole inner loop of one macro-step, as a recursion over trials:
/// evaluate the pair at the current trial step, accept when a tolerance is
/// met or the iteration count reaches the cap, and otherwise retry at the
/// rescaled step size.  The rescale is applied after every trial, accepted
/// or not.
pub open spec fn ctrl_mirror<S: ScalarOps>(
    kind: PairKind,
    f: spec_fn(Seq<S>, S) -> Seq<S>,
    x0: Seq<S>,
    t0: S,
    atol: S,
    rtol: S,
    max_iter: int,
    fuel: nat,
    n0: int,
    dt: S,
) -> CtrlOutcome<S>
    decreases fuel,
{
    let n1 = n0 + 1;
    let met = trial_by_tol(kind, f, x0, t0, dt, atol, rtol);
    let accept = met || n1 >= max_iter;
    let coeff = trial_coeff(kind, f, x0, t0, dt, atol, rtol);
    let dt2 = S::spec_mul(dt, coeff);
    if accept || fuel == 0 {
        CtrlOutcome {
            dt_used: dt,
            dt_next: dt2,
            n_done: n1,
            err: trial_err(kind, f, x0, t0, dt),
            rel_def: trial_rel_def(kind, f, x0, t0, dt, atol),
            rel: trial_rel(kind, f, x0, t0, dt),
            by_tol: met,
        }
    } else {
        ctrl_mirror(kind, f, x0, t0, atol, rtol, max_iter, (fuel - 1) as nat, n1, dt2)
    }
}

/// The controller outcome of one macro-step started on `s` with the given
/// configuration and caller ceiling: the carried step size is first
/// clamped to the caller's ceiling and the configured maximum.
pub open spec fn ctrl_outcome<S: ScalarOps, T: SolverBase<S>>(
    kind: PairKind,
    s: T,
    cfg: AdaptiveSolverConfig<S>,
    dt_max: S,
) -> CtrlOutcome<S> {
    ctrl_mirror(
        kind,
        s.rhs(),
        s.st(),
        s.tm(),
        cfg.atol,
        cfg.rtol,
        cfg.max_iter as int,
        cfg.max_iter as nat,
        0,
        spec_min(spec_min(cfg.state.dt, dt_max), cfg.dt_max),
    )
}

/// The step-size rescale factor `(tol / err) ^ p`, with `p = 1/5` when the
/// tolerance was met and `p = 1/4` otherwise.
pub fn rescale_factor<S: ScalarOps>(tol: S, err: S, within: bool) -> (r: S)
    ensures
        r == rescale_spec(tol, err, within),
{
    if within {
        tol.div(err).pow_frac(1, 5)
    } else {
        tol.div(err).pow_frac(1, 4)
    }
}

fn vec_copy<S: Copy>(v: &Vec<S>) -> (r: Vec<S>)
    ensures
        r@ == v@,
{
    let mut out: Vec<S> = Vec::new();
    let mut j: usize = 0;
    while j < v.len()
        invariant
            j <= v@.len(),
            out@ =~= v@.take(j as int),
        decreases v@.len() - j,
    {
        out.push(v[j]);
        j = j + 1;
    }
    proof {
        assert(out@ =~= v@);
    }
    out
}

fn pair_step<S: ScalarOps, T: SolverBase<S>>(kind: PairKind, sys: &mut T, dt: S) -> (r: (
    Vec<S>,
    Vec<S>,
))
    requires
        dims_ok(old(sys).st(), old(sys).dv(), old(sys).strg(), old(sys).rhs()),
    ensures
        r.0@ == pair_low(kind, old(sys).rhs(), old(sys).st(), old(sys).tm(), dt),
        r.1@ == pair_high(kind, old(sys).rhs(), old(sys).st(), old(sys).tm(), dt),
        final(sys).st() == old(sys).st(),
        final(sys).tm() == old(sys).tm(),
        final(sys).dv() == field_at(old(sys).rhs(), old(sys).st(), old(sys).tm()),
        final(sys).idx() == old(sys).idx(),
        final(sys).strg() == old(sys).strg(),
        final(sys).rhs() == old(sys).rhs(),
{
    match kind {
        PairKind::CashKarp => rk45_cash_karp_step(sys, dt),
        PairKind::BogackiShampine => rk23_bogacki_shampine_step(sys, dt),
    }
}

/// One macro-step of the shared adaptive controller: clamp the carried
/// trial step, iterate the selected pair until a tolerance is met or the
/// iteration cap is reached, rescale the step size after every trial,
/// commit the higher-order increment of the accepted trial, record the
/// diagnostics, and report the step size used together with the reason
/// iteration stopped.  A step accepted only because the cap was reached is
/// reported as [`SolverReasons::MaxIter`], not as a failure.
///
/// The contract pins the used and rescaled step sizes as expressions over
/// the scalar's operations.  Under the explicit hypotheses of
/// [`contractive_rescale`] and [`exact_ordered`],
/// [`lemma_adaptive_step_bounded`] bounds the step used by the clamped
/// start and each of its three clamp inputs; strict positivity of the
/// used step is not claimed, since [`ScalarOps`] leaves the sign of the
/// instance's division, square root and fractional power open (see
/// `lemma_time_strictly_increasing` for what strict time increase then
/// needs).
pub fn adaptive_march<S: ScalarOps, T: SolverBase<S>>(
    kind: PairKind,
    sys: &mut T,
    cfg: &mut AdaptiveSolverConfig<S>,
    dt_max: &S,
) -> (r: (S, SolverReasons))
    requires
        dims_ok(old(sys).st(), old(sys).dv(), old(sys).strg(), old(sys).rhs()),
        old(cfg).history.wf(),
    ensures
        ({
            let out = ctrl_outcome(kind, *old(sys), *old(cfg), *dt_max);
            &&& r.0 == out.dt_used
            &&& (r.1 is ToleranceAchieved <==> out.by_tol)
            &&& final(sys).st() == vadd(
                old(sys).st(),
                pair_high(kind, old(sys).rhs(), old(sys).st(), old(sys).tm(), out.dt_used),
            )
            &&& final(sys).tm() == S::spec_add(old(sys).tm(), out.dt_used)
            &&& final(sys).dv() == field_at(old(sys).rhs(), old(sys).st(), old(sys).tm())
            &&& final(sys).idx() == old(sys).idx()
            &&& final(sys).strg() == old(sys).strg()
            &&& final(sys).rhs() == old(sys).rhs()
            &&& final(cfg).dt_max == old(cfg).dt_max
            &&& final(cfg).max_iter == old(cfg).max_iter
            &&& final(cfg).atol == old(cfg).atol
            &&& final(cfg).rtol == old(cfg).rtol
            &&& final(cfg).save == old(cfg).save
            &&& final(cfg).save_states == old(cfg).save_states
            &&& final(cfg).state.dt == out.dt_next
            &&& final(cfg).state.n_iter as int == out.n_done
            &&& final(cfg).state.norm_err == Some(out.err)
            &&& final(cfg).state.norm_err_rel == (if out.rel_def {
                Some(out.rel)
            } else {
                None::<S>
            })
            &&& final(cfg).state.t_curr == S::spec_add(old(sys).tm(), out.dt_used)
            &&& final(cfg).state.states@ == (if old(cfg).save_states {
                if old(cfg).save {
                    vadd(
                        old(sys).st(),
                        pair_high(
                            kind,
                            old(sys).rhs(),
                            old(sys).st(),
                            old(sys).tm(),
                            out.dt_used,
                        ),
                    )
                } else {
                    Seq::<S>::empty()
                }
            } else {
                old(cfg).state.states@
            })
            &&& final(cfg).history.wf()
            &&& final(cfg).history.dt@ == (if old(cfg).save {
                old(cfg).history.dt@.push(out.dt_used)
            } else {
                old(cfg).history.dt@
            })
            &&& final(cfg).history.t_curr@ == (if old(cfg).save {
                old(cfg).history.t_curr@.push(S::spec_add(old(sys).tm(), out.dt_used))
            } else {
                old(cfg).history.t_curr@
            })
            &&& final(cfg).history.n_iter@ == (if old(cfg).save {
                old(cfg).history.n_iter@.push(out.n_done as u8)
            } else {
                old(cfg).history.n_iter@
            })
            &&& final(cfg).history.norm_err@ == (if old(cfg).save {
                old(cfg).history.norm_err@.push(Some(out.err))
            } else {
                old(cfg).history.norm_err@
            })
            &&& final(cfg).history.norm_err_rel@ == (if old(cfg).save {
                old(cfg).history.norm_err_rel@.push(
                    if out.rel_def {
                        Some(out.rel)
                    } else {
                        None::<S>
                    },
                )
            } else {
                old(cfg).history.norm_err_rel@
            })
            &&& final(cfg).history.states@.len() == old(cfg).history.states@.len() + (
            if old(cfg).save {
                1int
            } else {
                0int
            })
            &&& (old(cfg).save ==> final(cfg).history.states@.last()@ == (
            if old(cfg).save_states {
                vadd(
                    old(sys).st(),
                    pair_high(kind, old(sys).rhs(), old(sys).st(), old(sys).tm(), out.dt_used),
                )
            } else {
                old(cfg).state.states@
            }))
            &&& (!old(cfg).save ==> final(cfg).history.states@ == old(cfg).history.states@)
        }),
{
    let ghost f = old(sys).rhs();
    let ghost x0 = old(sys).st();
    let ghost t0 = old(sys).tm();
    let ghost sg0 = old(sys).strg();
    let ghost i0 = old(sys).idx();
    let ghost states0 = old(cfg).state.states@;
    let ghost hist0 = old(cfg).history;
    let ghost target = ctrl_outcome(kind, *old(sys), *old(cfg), *dt_max);

    let dt0 = min_val(min_val(cfg.state.dt, *dt_max), cfg.dt_max);
    cfg.state.n_iter = 0;
    cfg.state.dt = dt0;
    let mut dt_cur = dt0;
    let mut n: u8 = 0;
    let mut dt_used = dt0;
    let mut met = false;

    loop
        invariant_except_break
            dims_ok(sys.st(), sys.dv(), sys.strg(), sys.rhs()),
            sys.st() == x0,
            sys.tm() == t0,
            sys.strg() == sg0,
            sys.idx() == i0,
            sys.rhs() == f,
            cfg.dt_max == old(cfg).dt_max,
            cfg.max_iter == old(cfg).max_iter,
            cfg.atol == old(cfg).atol,
            cfg.rtol == old(cfg).rtol,
            cfg.save == old(cfg).save,
            cfg.save_states == old(cfg).save_states,
            cfg.state.states@ == states0,
            cfg.history == hist0,
            cfg.history.wf(),
            cfg.state.dt == dt_cur,
            cfg.state.n_iter == n,
            (n as int) < cfg.max_iter as int || n == 0,
            ctrl_mirror(
                kind,
                f,
                x0,
                t0,
                cfg.atol,
                cfg.rtol,
                cfg.max_iter as int,
                (cfg.max_iter - n) as nat,
                n as int,
                dt_cur,
            ) == target,
        ensures
            sys.st() == vadd(x0, pair_high(kind, f, x0, t0, target.dt_used)),
            sys.tm() == S::spec_add(t0, target.dt_used),
            sys.dv() == field_at(f, x0, t0),
            sys.idx() == i0,
            sys.strg() == sg0,
            sys.rhs() == f,
            cfg.dt_max == old(cfg).dt_max,
            cfg.max_iter == old(cfg).max_iter,
            cfg.atol == old(cfg).atol,
            cfg.rtol == old(cfg).rtol,
            cfg.save == old(cfg).save,
            cfg.save_states == old(cfg).save_states,
            cfg.state.dt == target.dt_next,
            cfg.state.n_iter as int == target.n_done,
            cfg.state.norm_err == Some(target.err),
            cfg.state.norm_err_rel == (if target.rel_def {
                Some(target.rel)
            } else {
                None::<S>
            }),
            cfg.state.t_curr == S::spec_add(t0, target.dt_used),
            cfg.state.states@ == (if old(cfg).save_states {
                if old(cfg).save {
                    vadd(x0, pair_high(kind, f, x0, t0, target.dt_used))
                } else {
                    Seq::<S>::empty()
                }
            } else {
                states0
            }),
            cfg.history.wf(),
            cfg.history.dt@ == (if old(cfg).save {
                hist0.dt@.push(target.dt_used)
            } else {
                hist0.dt@
            }),
            cfg.history.t_curr@ == (if old(cfg).save {
                hist0.t_curr@.push(S::spec_add(t0, target.dt_used))
            } else {
                hist0.t_curr@
            }),
            cfg.history.n_iter@ == (if old(cfg).save {
                hist0.n_iter@.push(target.n_done as u8)
            } else {
                hist0.n_iter@
            }),
            cfg.history.norm_err@ == (if old(cfg).save {
                hist0.norm_err@.push(Some(target.err))
            } else {
                hist0.norm_err@
            }),
            cfg.history.norm_err_rel@ == (if old(cfg).save {
                hist0.norm_err_rel@.push(
                    if target.rel_def {
                        Some(target.rel)
                    } else {
                        None::<S>
                    },
                )
            } else {
                hist0.norm_err_rel@
            }),
            cfg.history.states@.len() == hist0.states@.len() + (if old(cfg).save {
                1int
            } else {
                0int
            }),
            old(cfg).save ==> cfg.history.states@[cfg.history.states@.len() - 1]@ == (
            if old(cfg).save_states {
                vadd(x0, pair_high(kind, f, x0, t0, target.dt_used))
            } else {
                states0
            }),
            !old(cfg).save ==> cfg.history.states@ == hist0.states@,
            dt_used == target.dt_used,
            met == target.by_tol,
        decreases (cfg.max_iter - n) as int + 1,
    {
        let (dlow, dhigh) = pair_step(kind, sys, dt_cur);
        let errv = vec_sub(&dlow, &dhigh);
        let err = l2_norm(&errv);
        let refn = l2_norm(&dhigh);
        let rel_def = cfg.atol.lt(refn);
        let rel = err.div(refn);
        let n1 = n + 1;
        let tol_hit = (rel_def && rel.le(cfg.rtol)) || err.le(cfg.atol);
        let acc = tol_hit || n1 >= cfg.max_iter;
        let coeff = if rel_def {
            rescale_factor(cfg.rtol, rel, rel.le(cfg.rtol))
        } else {
            rescale_factor(cfg.atol, err, err.le(cfg.atol))
        };
        let dt_next = dt_cur.mul(coeff);
        proof {
            assert(err == trial_err(kind, f, x0, t0, dt_cur));
            assert(refn == trial_ref(kind, f, x0, t0, dt_cur));
            assert(coeff == trial_coeff(kind, f, x0, t0, dt_cur, cfg.atol, cfg.rtol));
        }
        if acc {
            cfg.state.dt = dt_cur;
            cfg.state.n_iter = n1;
            cfg.state.norm_err = Some(err);
            cfg.state.norm_err_rel = if rel_def {
                Some(rel)
            } else {
                None
            };
            let tb = sys.time();
            cfg.state.t_curr = tb.add(dt_cur);
            if cfg.save_states {
                cfg.state.states = if cfg.save {
                    vec_add(&sys.states(), &dhigh)
                } else {
                    Vec::new()
                };
            }
            if cfg.save {
                let snap = SolverState {
                    dt: dt_cur,
                    n_iter: n1,
                    norm_err: Some(err),
                    norm_err_rel: if rel_def {
                        Some(rel)
                    } else {
                        None
                    },
                    t_curr: tb.add(dt_cur),
                    states: vec_copy(&cfg.state.states),
                };
                cfg.history.push(snap);
            }
            cfg.state.dt = dt_cur.mul(coeff);
            dt_used = dt_cur;
            met = tol_hit;
            sys.step_states(dhigh);
            sys.step_time(&dt_cur);
            break;
        } else {
            cfg.state.dt = dt_next;
            cfg.state.n_iter = n1;
            n = n1;
            dt_cur = dt_next;
        }
    }
    let reason = if met {
        SolverReasons::ToleranceAchieved
    } else {
        SolverReasons::MaxIter
    };
    (dt_used, reason)
}

/// One macro-step of the Cash-Karp 5(4) adaptive method; returns the step
/// size actually used and carries the shared controller's full contract:
/// the committed increment, the recorded runtime state including both
/// error norms, and every diagnostic-history column.
pub fn rk45_cash_karp<S: ScalarOps, T: SolverBase<S>>(
    sys: &mut T,
    cfg: &mut AdaptiveSolverConfig<S>,
    dt_max: &S,
) -> (r: S)
    requires
        dims_ok(old(sys).st(), old(sys).dv(), old(sys).strg(), old(sys).rhs()),
        old(cfg).history.wf(),
    ensures
        ({
            let out = ctrl_outcome(PairKind::CashKarp, *old(sys), *old(cfg), *dt_max);
            &&& r == out.dt_used
            &&& final(sys).st() == vadd(
                old(sys).st(),
                pair_high(PairKind::CashKarp, old(sys).rhs(), old(sys).st(), old(sys).tm(), out.dt_used),
            )
            &&& final(sys).tm() == S::spec_add(old(sys).tm(), out.dt_used)
            &&& final(sys).dv() == field_at(old(sys).rhs(), old(sys).st(), old(sys).tm())
            &&& final(sys).idx() == old(sys).idx()
            &&& final(sys).strg() == old(sys).strg()
            &&& final(sys).rhs() == old(sys).rhs()
            &&& final(cfg).dt_max == old(cfg).dt_max
            &&& final(cfg).max_iter == old(cfg).max_iter
            &&& final(cfg).atol == old(cfg).atol
            &&& final(cfg).rtol == old(cfg).rtol
            &&& final(cfg).save == old(cfg).save
            &&& final(cfg).save_states == old(cfg).save_states
            &&& final(cfg).state.dt == out.dt_next
            &&& final(cfg).state.n_iter as int == out.n_done
            &&& final(cfg).state.norm_err == Some(out.err)
            &&& final(cfg).state.norm_err_rel == (if out.rel_def {
                Some(out.rel)
            } else {
                None::<S>
            })
            &&& final(cfg).state.t_curr == S::spec_add(old(sys).tm(), out.dt_used)
            &&& final(cfg).state.states@ == (if old(cfg).save_states {
                if old(cfg).save {
                    vadd(
                        old(sys).st(),
                        pair_high(
                            PairKind::CashKarp,
                            old(sys).rhs(),
                            old(sys).st(),
                            old(sys).tm(),
                            out.dt_used,
                        ),
                    )
                } else {
                    Seq::<S>::empty()
                }
            } else {
                old(cfg).state.states@
            })
            &&& final(cfg).history.wf()
            &&& final(cfg).history.dt@ == (if old(cfg).save {
                old(cfg).history.dt@.push(out.dt_used)
            } else {
                old(cfg).history.dt@
            })
            &&& final(cfg).history.t_curr@ == (if old(cfg).save {
                old(cfg).history.t_curr@.push(S::spec_add(old(sys).tm(), out.dt_used))
            } else {
                old(cfg).history.t_curr@
            })
            &&& final(cfg).history.n_iter@ == (if old(cfg).save {
                old(cfg).history.n_iter@.push(out.n_done as u8)
            } else {
                old(cfg).history.n_iter@
            })
            &&& final(cfg).history.norm_err@ == (if old(cfg).save {
                old(cfg).history.norm_err@.push(Some(out.err))
            } else {
                old(cfg).history.norm_err@
            })
            &&& final(cfg).history.norm_err_rel@ == (if old(cfg).save {
                old(cfg).history.norm_err_rel@.push(
                    if out.rel_def {
                        Some(out.rel)
                    } else {
                        None::<S>
                    },
                )
            } else {
                old(cfg).history.norm_err_rel@
            })
            &&& final(cfg).history.states@.len() == old(cfg).history.states@.len() + (
            if old(cfg).save {
                1int
            } else {
                0int
            })
            &&& (old(cfg).save ==> final(cfg).history.states@.last()@ == (
            if old(cfg).save_states {
                vadd(
                    old(sys).st(),
                    pair_high(PairKind::CashKarp, old(sys).rhs(), old(sys).st(), old(sys).tm(), out.dt_used),
                )
            } else {
                old(cfg).state.states@
            }))
            &&& (!old(cfg).save ==> final(cfg).history.states@ == old(cfg).history.states@)

        }),
{
    let (dt, _reason) = adaptive_march(PairKind::CashKarp, sys, cfg, dt_max);
    dt
}

/// One macro-step of the Bogacki-Shampine 3(2) adaptive method; returns
/// the step size actually used and carries the shared controller's full
/// contract: the committed increment, the recorded runtime state
/// including both error norms, and every diagnostic-history column.
pub fn rk23_bogacki_shampine<S: ScalarOps, T: SolverBase<S>>(
    sys: &mut T,
    cfg: &mut AdaptiveSolverConfig<S>,
    dt_max: &S,
) -> (r: S)
    requires
        dims_ok(old(sys).st(), old(sys).dv(), old(sys).strg(), old(sys).rhs()),
        old(cfg).history.wf(),
    ensures
        ({
            let out = ctrl_outcome(PairKind::BogackiShampine, *old(sys), *old(cfg), *dt_max);
            &&& r == out.dt_used
            &&& final(sys).st() == vadd(
                old(sys).st(),
                pair_high(PairKind::BogackiShampine, old(sys).rhs(), old(sys).st(), old(sys).tm(), out.dt_used),
            )
            &&& final(sys).tm() == S::spec_add(old(sys).tm(), out.dt_used)
            &&& final(sys).dv() == field_at(old(sys).rhs(), old(sys).st(), old(sys).tm())
            &&& final(sys).idx() == old(sys).idx()
            &&& final(sys).strg() == old(sys).strg()
            &&& final(sys).rhs() == old(sys).rhs()
            &&& final(cfg).dt_max == old(cfg).dt_max
            &&& final(cfg).max_iter == old(cfg).max_iter
            &&& final(cfg).atol == old(cfg).atol
            &&& final(cfg).rtol == old(cfg).rtol
            &&& final(cfg).save == old(cfg).save
            &&& final(cfg).save_states == old(cfg).save_states
            &&& final(cfg).state.dt == out.dt_next
            &&& final(cfg).state.n_iter as int == out.n_done
            &&& final(cfg).state.norm_err == Some(out.err)
            &&& final(cfg).state.norm_err_rel == (if out.rel_def {
                Some(out.rel)
            } else {
                None::<S>
            })
            &&& final(cfg).state.t_curr == S::spec_add(old(sys).tm(), out.dt_used)
            &&& final(cfg).state.states@ == (if old(cfg).save_states {
                if old(cfg).save {
                    vadd(
                        old(sys).st(),
                        pair_high(
                            PairKind::BogackiShampine,
                            old(sys).rhs(),
                            old(sys).st(),
                            old(sys).tm(),
                            out.dt_used,
                        ),
                    )
                } else {
                    Seq::<S>::empty()
                }
            } else {
                old(cfg).state.states@
            })
            &&& final(cfg).history.wf()
            &&& final(cfg).history.dt@ == (if old(cfg).save {
                old(cfg).history.dt@.push(out.dt_used)
            } else {
                old(cfg).history.dt@
            })
            &&& final(cfg).history.t_curr@ == (if old(cfg).save {
                old(cfg).history.t_curr@.push(S::spec_add(old(sys).tm(), out.dt_used))
            } else {
                old(cfg).history.t_curr@
            })
            &&& final(cfg).history.n_iter@ == (if old(cfg).save {
                old(cfg).history.n_iter@.push(out.n_done as u8)
            } else {
                old(cfg).history.n_iter@
            })
            &&& final(cfg).history.norm_err@ == (if old(cfg).save {
                old(cfg).history.norm_err@.push(Some(out.err))
            } else {
                old(cfg).history.norm_err@
            })
            &&& final(cfg).history.norm_err_rel@ == (if old(cfg).save {
                old(cfg).history.norm_err_rel@.push(
                    if out.rel_def {
                        Some(out.rel)
                    } else {
                        None::<S>
                    },
                )
            } else {
                old(cfg).history.norm_err_rel@
            })
            &&& final(cfg).history.states@.len() == old(cfg).history.states@.len() + (
            if old(cfg).save {
                1int
            } else {
                0int
            })
            &&& (old(cfg).save ==> final(cfg).history.states@.last()@ == (
            if old(cfg).save_states {
                vadd(
                    old(sys).st(),
                    pair_high(PairKind::BogackiShampine, old(sys).rhs(), old(sys).st(), old(sys).tm(), out.dt_used),
                )
            } else {
                old(cfg).state.states@
            }))
            &&& (!old(cfg).save ==> final(cfg).history.states@ == old(cfg).history.states@)

        }),
{
    let (dt, _reason) = adaptive_march(PairKind::BogackiShampine, sys, cfg, dt_max);
    dt
}


/// Under exact ordered arithmetic and a contractive rescale, the inner
/// loop never grows the trial step before acceptance: every rejected
/// trial multiplies the step by a factor between zero and one, so the
/// step finally used stays at or below the nonnegative start.
pub proof fn lemma_ctrl_dt_bounded<S: ScalarOps>(
    kind: PairKind,
    f: spec_fn(Seq<S>, S) -> Seq<S>,
    x0: Seq<S>,
    t0: S,
    atol: S,
    rtol: S,
    max_iter: int,
    fuel: nat,
    n0: int,
    dt: S,
)
    requires
        exact_ordered::<S>(),
        contractive_rescale::<S>(),
        S::spec_le(spec_zero::<S>(), atol),
        S::spec_le(spec_zero::<S>(), rtol),
        S::spec_le(spec_zero::<S>(), dt),
    ensures
        S::spec_le(ctrl_mirror(kind, f, x0, t0, atol, rtol, max_iter, fuel, n0, dt).dt_used, dt),
        S::spec_le(
            spec_zero::<S>(),
            ctrl_mirror(kind, f, x0, t0, atol, rtol, max_iter, fuel, n0, dt).dt_used,
        ),
    decreases fuel,
{
    let met = trial_by_tol(kind, f, x0, t0, dt, atol, rtol);
    let n1 = n0 + 1;
    let accept = met || n1 >= max_iter;
    if accept || fuel == 0 {
        assert(S::spec_le(dt, dt));
    } else {
        let err = trial_err(kind, f, x0, t0, dt);
        let rel = trial_rel(kind, f, x0, t0, dt);
        let coeff = trial_coeff(kind, f, x0, t0, dt, atol, rtol);
        if trial_rel_def(kind, f, x0, t0, dt, atol) {
            assert(!S::spec_le(rel, rtol));
            assert(coeff == S::spec_pow_frac(S::spec_div(rtol, rel), 1, 4));
        } else {
            assert(!S::spec_le(err, atol));
            assert(coeff == S::spec_pow_frac(S::spec_div(atol, err), 1, 4));
        }
        assert(S::spec_le(coeff, S::spec_ratio(1, 1)));
        assert(S::spec_le(spec_zero::<S>(), coeff));
        let dt2 = S::spec_mul(dt, coeff);
        assert(S::spec_le(dt2, dt));
        assert(S::spec_le(spec_zero::<S>(), dt2));
        lemma_ctrl_dt_bounded(kind, f, x0, t0, atol, rtol, max_iter, (fuel - 1) as nat, n1, dt2);
    }
}

/// The step-size clamp bound of the shared controller: under exact
/// ordered arithmetic and a contractive rescale, with nonnegative
/// tolerances and a nonnegative clamped start, the step the controller
/// uses never exceeds the minimum of the carried step, the caller's
/// ceiling and the configured maximum -- the rescale factor never grows a
/// trial before acceptance.
pub proof fn lemma_adaptive_step_bounded<S: ScalarOps, T: SolverBase<S>>(
    kind: PairKind,
    s: T,
    cfg: AdaptiveSolverConfig<S>,
    dt_max: S,
)
    requires
        exact_ordered::<S>(),
        contractive_rescale::<S>(),
        S::spec_le(spec_zero::<S>(), cfg.atol),
        S::spec_le(spec_zero::<S>(), cfg.rtol),
        S::spec_le(spec_zero::<S>(), spec_min(spec_min(cfg.state.dt, dt_max), cfg.dt_max)),
    ensures
        ({
            let dt0 = spec_min(spec_min(cfg.state.dt, dt_max), cfg.dt_max);
            let out = ctrl_outcome(kind, s, cfg, dt_max);
            &&& S::spec_le(out.dt_used, dt0)
            &&& S::spec_le(spec_zero::<S>(), out.dt_used)
            &&& S::spec_le(out.dt_used, cfg.state.dt)
            &&& S::spec_le(out.dt_used, dt_max)
            &&& S::spec_le(out.dt_used, cfg.dt_max)
        }),
{
    let dt0 = spec_min(spec_min(cfg.state.dt, dt_max), cfg.dt_max);
    lemma_ctrl_dt_bounded(
        kind,
        s.rhs(),
        s.st(),
        s.tm(),
        cfg.atol,
        cfg.rtol,
        cfg.max_iter as int,
        cfg.max_iter as nat,
        0,
        dt0,
    );
    lemma_min_le_both(spec_min(cfg.state.dt, dt_max), cfg.dt_max);
    lemma_min_le_both(cfg.state.dt, dt_max);
}


/// Under exact ordered arithmetic and a contractive rescale, strictly
/// positive tolerances and a strictly positive clamped start keep every
/// trial step -- and so the step finally used -- strictly positive.
pub proof fn lemma_ctrl_dt_positive<S: ScalarOps>(
    kind: PairKind,
    f: spec_fn(Seq<S>, S) -> Seq<S>,
    x0: Seq<S>,
    t0: S,
    atol: S,
    rtol: S,
    max_iter: int,
    fuel: nat,
    n0: int,
    dt: S,
)
    requires
        exact_ordered::<S>(),
        contractive_rescale::<S>(),
        S::spec_lt(spec_zero::<S>(), atol),
        S::spec_lt(spec_zero::<S>(), rtol),
        S::spec_lt(spec_zero::<S>(), dt),
    ensures
        S::spec_lt(
            spec_zero::<S>(),
            ctrl_mirror(kind, f, x0, t0, atol, rtol, max_iter, fuel, n0, dt).dt_used,
        ),
    decreases fuel,
{
    let met = trial_by_tol(kind, f, x0, t0, dt, atol, rtol);
    let n1 = n0 + 1;
    let accept = met || n1 >= max_iter;
    if accept || fuel == 0 {
    } else {
        let err = trial_err(kind, f, x0, t0, dt);
        let rel = trial_rel(kind, f, x0, t0, dt);
        let coeff = trial_coeff(kind, f, x0, t0, dt, atol, rtol);
        if trial_rel_def(kind, f, x0, t0, dt, atol) {
            assert(!S::spec_le(rel, rtol));
            assert(coeff == S::spec_pow_frac(S::spec_div(rtol, rel), 1, 4));
        } else {
            assert(!S::spec_le(err, atol));
            assert(coeff == S::spec_pow_frac(S::spec_div(atol, err), 1, 4));
        }
        assert(S::spec_lt(spec_zero::<S>(), coeff));
        let dt2 = S::spec_mul(dt, coeff);
        assert(S::spec_lt(spec_zero::<S>(), dt2));
        lemma_ctrl_dt_positive(kind, f, x0, t0, atol, rtol, max_iter, (fuel - 1) as nat, n1, dt2);
    }
}

/// Strict time increase across an accepted adaptive macro-step: under
/// exact ordered arithmetic and a contractive rescale, with strictly
/// positive tolerances and a strictly positive clamped start, the
/// controller's landing time lies strictly after the start time.
pub proof fn lemma_adaptive_time_advances<S: ScalarOps, T: SolverBase<S>>(
    kind: PairKind,
    s: T,
    cfg: AdaptiveSolverConfig<S>,
    dt_max: S,
)
    requires
        exact_ordered::<S>(),
        contractive_rescale::<S>(),
        S::spec_lt(spec_zero::<S>(), cfg.atol),
        S::spec_lt(spec_zero::<S>(), cfg.rtol),
        S::spec_lt(spec_zero::<S>(), spec_min(spec_min(cfg.state.dt, dt_max), cfg.dt_max)),
    ensures
        ({
            let out = ctrl_outcome(kind, s, cfg, dt_max);
            &&& S::spec_lt(spec_zero::<S>(), out.dt_used)
            &&& S::spec_lt(s.tm(), S::spec_add(s.tm(), out.dt_used))
        }),
{
    let dt0 = spec_min(spec_min(cfg.state.dt, dt_max), cfg.dt_max);
    lemma_ctrl_dt_positive(
        kind,
        s.rhs(),
        s.st(),
        s.tm(),
        cfg.atol,
        cfg.rtol,
        cfg.max_iter as int,
        cfg.max_iter as nat,
        0,
        dt0,
    );
    crate::scalar::lemma_time_strictly_increasing::<S>(
        s.tm(),
        ctrl_outcome(kind, s, cfg, dt_max).dt_used,
    );
}

} // verus!
