//! The fixed-step explicit methods: Euler, Heun, midpoint, Ralston and the
//! classical 4th-order Runge-Kutta method.
//!
//! Each method is a transformation of the modelled system by one step of
//! size `dt`, built from derivative evaluations on trial copies; the
//! authoritative state is only written by the final application step.  The
//! contract of each method pins the new state, derivative vector and time
//! exactly, as spec-level expressions over the model's derivative field.

use vstd::prelude::*;

use crate::scalar::ScalarOps;
use crate::system::{dims_ok, field_at, SolverBase};
use crate::vecops::{vadd, vscale};

verus! {

/// The stage-one derivative: the field at the current state and time.
pub open spec fn k1_of<S: ScalarOps>(
    f: spec_fn(Seq<S>, S) -> Seq<S>,
    x0: Seq<S>,
    t0: S,
) -> Seq<S> {
    f(x0, t0)
}

/// The field evaluated after advancing by `c` times the derivative vector
/// `k`: the generic trial-copy stage evaluation.
pub open spec fn stage_at<S: ScalarOps>(
    f: spec_fn(Seq<S>, S) -> Seq<S>,
    x0: Seq<S>,
    t0: S,
    c: S,
    k: Seq<S>,
) -> Seq<S> {
    f(vadd(x0, vscale(c, k)), S::spec_add(t0, c))
}

/// Heun's averaged slope: half the start derivative plus half the
/// derivative at the Euler endpoint.
pub open spec fn heun_mean<S: ScalarOps>(
    f: spec_fn(Seq<S>, S) -> Seq<S>,
    x0: Seq<S>,
    t0: S,
    dt: S,
) -> Seq<S> {
    let k1 = k1_of(f, x0, t0);
    let k2 = stage_at(f, x0, t0, dt, k1);
    let half = S::spec_ratio(1, 2);
    Seq::new(k1.len(), |i: int| S::spec_add(S::spec_mul(k1[i], half), S::spec_mul(k2[i], half)))
}

/// The midpoint slope: the field at the half-step point.
pub open spec fn midpoint_slope<S: ScalarOps>(
    f: spec_fn(Seq<S>, S) -> Seq<S>,
    x0: Seq<S>,
    t0: S,
    dt: S,
) -> Seq<S> {
    let k1 = k1_of(f, x0, t0);
    stage_at(f, x0, t0, S::spec_mul(S::spec_ratio(1, 2), dt), k1)
}

/// Ralston's averaged slope: one quarter of the start derivative plus three
/// quarters of the derivative at the two-thirds point.
pub open spec fn ralston_mean<S: ScalarOps>(
    f: spec_fn(Seq<S>, S) -> Seq<S>,
    x0: Seq<S>,
    t0: S,
    dt: S,
) -> Seq<S> {
    let k1 = k1_of(f, x0, t0);
    let off = S::spec_div(S::spec_mul(S::spec_ratio(2, 1), dt), S::spec_ratio(3, 1));
    let k2 = stage_at(f, x0, t0, off, k1);
    let three = S::spec_ratio(3, 1);
    let four = S::spec_ratio(4, 1);
    Seq::new(
        k1.len(),
        |i: int| S::spec_add(S::spec_div(k1[i], four), S::spec_div(S::spec_mul(three, k2[i]), four)),
    )
}

/// The four classical Runge-Kutta stage derivatives.
pub open spec fn rk4_stages<S: ScalarOps>(
    f: spec_fn(Seq<S>, S) -> Seq<S>,
    x0: Seq<S>,
    t0: S,
    dt: S,
) -> (Seq<S>, Seq<S>, Seq<S>, Seq<S>) {
    let half_dt = S::spec_div(dt, S::spec_ratio(2, 1));
    let k1 = k1_of(f, x0, t0);
    let k2 = stage_at(f, x0, t0, half_dt, k1);
    let k3 = stage_at(f, x0, t0, half_dt, k2);
    let k4 = stage_at(f, x0, t0, dt, k3);
    (k1, k2, k3, k4)
}

/// The committed Runge-Kutta increment: `1/6 * (k1 + 2 k2 + 2 k3 + k4) * dt`
/// in each component.
pub open spec fn rk4_delta<S: ScalarOps>(
    f: spec_fn(Seq<S>, S) -> Seq<S>,
    x0: Seq<S>,
    t0: S,
    dt: S,
) -> Seq<S> {
    let (k1, k2, k3, k4) = rk4_stages(f, x0, t0, dt);
    let two = S::spec_ratio(2, 1);
    let sixth = S::spec_ratio(1, 6);
    Seq::new(
        x0.len(),
        |i: int| S::spec_mul(
            S::spec_mul(
                sixth,
                S::spec_add(
                    S::spec_add(
                        S::spec_add(k1[i], S::spec_mul(two, k2[i])),
                        S::spec_mul(two, k3[i]),
                    ),
                    k4[i],
                ),
            ),
            dt,
        ),
    )
}

/// One Euler step: one derivative evaluation, then one advance by `dt`.
pub fn euler<S: ScalarOps, T: SolverBase<S>>(sys: &mut T, dt: &S)
    requires
        dims_ok(old(sys).st(), old(sys).dv(), old(sys).strg(), old(sys).rhs()),
    ensures
        final(sys).st() == vadd(
            old(sys).st(),
            vscale(*dt, k1_of(old(sys).rhs(), old(sys).st(), old(sys).tm())),
        ),
        final(sys).dv() == k1_of(old(sys).rhs(), old(sys).st(), old(sys).tm()),
        final(sys).tm() == S::spec_add(old(sys).tm(), *dt),
        final(sys).idx() == old(sys).idx(),
        final(sys).strg() == old(sys).strg(),
        final(sys).rhs() == old(sys).rhs(),
{
    sys.update_derivs();
    sys.step_states_by_dt(dt);
}

/// One step of Heun's method: an Euler trial step, a second derivative
/// evaluation at its endpoint, then one advance by `dt` along the averaged
/// slope.
pub fn heun<S: ScalarOps, T: SolverBase<S>>(sys: &mut T, dt: &S)
    requires
        dims_ok(old(sys).st(), old(sys).dv(), old(sys).strg(), old(sys).rhs()),
    ensures
        final(sys).st() == vadd(
            old(sys).st(),
            vscale(*dt, heun_mean(old(sys).rhs(), old(sys).st(), old(sys).tm(), *dt)),
        ),
        final(sys).dv() == heun_mean(old(sys).rhs(), old(sys).st(), old(sys).tm(), *dt),
        final(sys).tm() == S::spec_add(old(sys).tm(), *dt),
        final(sys).idx() == old(sys).idx(),
        final(sys).strg() == old(sys).strg(),
        final(sys).rhs() == old(sys).rhs(),
{
    let ghost f = old(sys).rhs();
    let ghost x0 = old(sys).st();
    let ghost t0 = old(sys).tm();
    sys.update_derivs();
    let k1 = sys.derivs();
    let mut trial = sys.trial_copy();
    trial.step_states_by_dt(dt);
    trial.update_derivs();
    let k2 = trial.derivs();
    let half = S::ratio(1, 2);
    let mut mean: Vec<S> = Vec::new();
    let mut j: usize = 0;
    while j < k1.len()
        invariant
            j <= k1@.len(),
            k2@.len() == k1@.len(),
            half == S::spec_ratio(1, 2),
            mean@ =~= Seq::new(
                j as nat,
                |i: int| S::spec_add(S::spec_mul(k1@[i], half), S::spec_mul(k2@[i], half)),
            ),
        decreases k1@.len() - j,
    {
        mean.push(k1[j].mul(half).add(k2[j].mul(half)));
        j = j + 1;
    }
    proof {
        assert(mean@ =~= heun_mean(f, x0, t0, *dt));
    }
    sys.set_derivs(&mean);
    sys.step_states_by_dt(dt);
}

/// One step of the midpoint method: a half-step trial, a derivative
/// evaluation at the midpoint, then one advance by `dt` along that slope.
pub fn midpoint<S: ScalarOps, T: SolverBase<S>>(sys: &mut T, dt: &S)
    requires
        dims_ok(old(sys).st(), old(sys).dv(), old(sys).strg(), old(sys).rhs()),
    ensures
        final(sys).st() == vadd(
            old(sys).st(),
            vscale(*dt, midpoint_slope(old(sys).rhs(), old(sys).st(), old(sys).tm(), *dt)),
        ),
        final(sys).dv() == midpoint_slope(old(sys).rhs(), old(sys).st(), old(sys).tm(), *dt),
        final(sys).tm() == S::spec_add(old(sys).tm(), *dt),
        final(sys).idx() == old(sys).idx(),
        final(sys).strg() == old(sys).strg(),
        final(sys).rhs() == old(sys).rhs(),
{
    sys.update_derivs();
    let mut trial = sys.trial_copy();
    let half_dt = S::ratio(1, 2).mul(*dt);
    trial.step_states_by_dt(&half_dt);
    trial.update_derivs();
    let k2 = trial.derivs();
    sys.set_derivs(&k2);
    sys.step_states_by_dt(dt);
}

/// One step of Ralston's method: a two-thirds trial step, then one advance
/// by `dt` along the 1/4-3/4 weighted slope.
pub fn ralston<S: ScalarOps, T: SolverBase<S>>(sys: &mut T, dt: &S)
    requires
        dims_ok(old(sys).st(), old(sys).dv(), old(sys).strg(), old(sys).rhs()),
    ensures
        final(sys).st() == vadd(
            old(sys).st(),
            vscale(*dt, ralston_mean(old(sys).rhs(), old(sys).st(), old(sys).tm(), *dt)),
        ),
        final(sys).dv() == ralston_mean(old(sys).rhs(), old(sys).st(), old(sys).tm(), *dt),
        final(sys).tm() == S::spec_add(old(sys).tm(), *dt),
        final(sys).idx() == old(sys).idx(),
        final(sys).strg() == old(sys).strg(),
        final(sys).rhs() == old(sys).rhs(),
{
    let ghost f = old(sys).rhs();
    let ghost x0 = old(sys).st();
    let ghost t0 = old(sys).tm();
    sys.update_derivs();
    let k1 = sys.derivs();
    let mut trial = sys.trial_copy();
    let off = S::ratio(2, 1).mul(*dt).div(S::ratio(3, 1));
    trial.step_states_by_dt(&off);
    trial.update_derivs();
    let k2 = trial.derivs();
    let three = S::ratio(3, 1);
    let four = S::ratio(4, 1);
    let mut mean: Vec<S> = Vec::new();
    let mut j: usize = 0;
    while j < k1.len()
        invariant
            j <= k1@.len(),
            k2@.len() == k1@.len(),
            three == S::spec_ratio(3, 1),
            four == S::spec_ratio(4, 1),
            mean@ =~= Seq::new(
                j as nat,
                |i: int| S::spec_add(
                    S::spec_div(k1@[i], four),
                    S::spec_div(S::spec_mul(three, k2@[i]), four),
                ),
            ),
        decreases k1@.len() - j,
    {
        mean.push(k1[j].div(four).add(three.mul(k2[j]).div(four)));
        j = j + 1;
    }
    proof {
        assert(mean@ =~= ralston_mean(f, x0, t0, *dt));
    }
    sys.set_derivs(&mean);
    sys.step_states_by_dt(dt);
}

/// One step of the classical 4th-order Runge-Kutta method: four stage
/// derivatives on successive trial copies, then one advance by the
/// weighted increment.
pub fn rk4fixed<S: ScalarOps, T: SolverBase<S>>(sys: &mut T, dt: &S)
    requires
        dims_ok(old(sys).st(), old(sys).dv(), old(sys).strg(), old(sys).rhs()),
    ensures
        final(sys).st() == vadd(
            old(sys).st(),
            rk4_delta(old(sys).rhs(), old(sys).st(), old(sys).tm(), *dt),
        ),
        final(sys).dv() == k1_of(old(sys).rhs(), old(sys).st(), old(sys).tm()),
        final(sys).tm() == S::spec_add(old(sys).tm(), *dt),
        final(sys).idx() == old(sys).idx(),
        final(sys).strg() == old(sys).strg(),
        final(sys).rhs() == old(sys).rhs(),
{
    let ghost f = old(sys).rhs();
    let ghost x0 = old(sys).st();
    let ghost t0 = old(sys).tm();
    sys.update_derivs();
    let k1 = sys.derivs();

    let half_dt = (*dt).div(S::ratio(2, 1));

    let mut sys1 = sys.trial_copy();
    sys1.step_states_by_dt(&half_dt);
    sys1.update_derivs();
    let k2 = sys1.derivs();

    let mut sys2 = sys.trial_copy();
    sys2.set_derivs(&k2);
    sys2.step_states_by_dt(&half_dt);
    sys2.update_derivs();
    let k3 = sys2.derivs();

    let mut sys3 = sys.trial_copy();
    sys3.set_derivs(&k3);
    sys3.step_states_by_dt(dt);
    sys3.update_derivs();
    let k4 = sys3.derivs();

    let two = S::ratio(2, 1);
    let sixth = S::ratio(1, 6);
    let mut delta: Vec<S> = Vec::new();
    let mut j: usize = 0;
    while j < k1.len()
        invariant
            j <= k1@.len(),
            k2@.len() == k1@.len(),
            k3@.len() == k1@.len(),
            k4@.len() == k1@.len(),
            two == S::spec_ratio(2, 1),
            sixth == S::spec_ratio(1, 6),
            delta@ =~= Seq::new(
                j as nat,
                |i: int| S::spec_mul(
                    S::spec_mul(
                        sixth,
                        S::spec_add(
                            S::spec_add(
                                S::spec_add(k1@[i], S::spec_mul(two, k2@[i])),
                                S::spec_mul(two, k3@[i]),
                            ),
                            k4@[i],
                        ),
                    ),
                    *dt,
                ),
            ),
        decreases k1@.len() - j,
    {
        delta.push(sixth.mul(k1[j].add(two.mul(k2[j])).add(two.mul(k3[j])).add(k4[j])).mul(*dt));
        j = j + 1;
    }
    proof {
        assert(delta@ =~= rk4_delta(f, x0, t0, *dt));
    }
    sys.step_states(delta);
    sys.step_time(dt);
}


/// Trial-copy isolation of the classical Runge-Kutta step: the four stage
/// derivatives are each a fresh evaluation of the model's derivative field
/// from the same starting state, and the committed increment is exactly
/// the standard weighted sum of those four stages.  Together with the
/// contract of [`rk4fixed`], running the method once is equivalent to
/// computing the stages via independent trial evaluations and applying
/// the weighted sum once.
pub proof fn lemma_rk4_trial_isolation<S: ScalarOps>(
    f: spec_fn(Seq<S>, S) -> Seq<S>,
    x0: Seq<S>,
    t0: S,
    dt: S,
)
    ensures
        ({
            let half_dt = S::spec_div(dt, S::spec_ratio(2, 1));
            let (k1, k2, k3, k4) = rk4_stages(f, x0, t0, dt);
            let two = S::spec_ratio(2, 1);
            let sixth = S::spec_ratio(1, 6);
            &&& k1 == f(x0, t0)
            &&& k2 == f(vadd(x0, vscale(half_dt, k1)), S::spec_add(t0, half_dt))
            &&& k3 == f(vadd(x0, vscale(half_dt, k2)), S::spec_add(t0, half_dt))
            &&& k4 == f(vadd(x0, vscale(dt, k3)), S::spec_add(t0, dt))
            &&& rk4_delta(f, x0, t0, dt) == Seq::new(
                x0.len(),
                |i: int| S::spec_mul(
                    S::spec_mul(
                        sixth,
                        S::spec_add(
                            S::spec_add(
                                S::spec_add(k1[i], S::spec_mul(two, k2[i])),
                                S::spec_mul(two, k3[i]),
                            ),
                            k4[i],
                        ),
                    ),
                    dt,
                ),
            )
        }),
{
}

} // verus!
