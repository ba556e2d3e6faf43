//! Exact single-step checks of the fixed-step methods over the rational
//! scalar, on the three-mass chain, plus the history-isolation behaviour
//! of trial copies.

use dess::components::{Conductance, ThermalMass};
use dess::methods::{euler, heun, midpoint, ralston, rk4fixed};
use dess::rat::Rat;
use dess::scalar::ScalarOps;
use dess::system::{BareClone, SolverBase};
use dess::system3tm::System3TM;

fn rat(n: i64, d: i64) -> Rat {
    Rat::new(n, d)
}

/// The three-mass system of the worked example: capacities 1, 2 and 3/2,
/// initial temperatures 0, 10 and 12, both conductances 5.
fn sample_sys() -> System3TM<Rat> {
    System3TM::new(
        ThermalMass::new(rat(1, 1), rat(0, 1)),
        ThermalMass::new(rat(2, 1), rat(10, 1)),
        Conductance::new(rat(5, 1)),
        ThermalMass::new(rat(3, 2), rat(12, 1)),
        Conductance::new(rat(5, 1)),
    )
}

fn states_of(sys: &System3TM<Rat>) -> Vec<Rat> {
    sys.states()
}

#[test]
fn euler_single_step_exact() {
    let mut sys = sample_sys();
    let dt = rat(1, 200);
    euler(&mut sys, &dt);
    let st = states_of(&sys);
    // derivatives at the start: (50, -20, -20/3)
    assert!(st[0].eq_val(rat(1, 4)));
    assert!(st[1].eq_val(rat(99, 10)));
    assert!(st[2].eq_val(rat(359, 30)));
    assert!(sys.time().eq_val(rat(1, 200)));
}

#[test]
fn midpoint_single_step_exact() {
    let mut sys = sample_sys();
    let dt = rat(1, 200);
    midpoint(&mut sys, &dt);
    let st = states_of(&sys);
    assert!(st[0].eq_val(rat(393, 1600)));
    assert!(st[1].eq_val(rat(19013, 1920)));
    assert!(st[2].eq_val(rat(21539, 1800)));
    assert!(sys.time().eq_val(rat(1, 200)));
}

#[test]
fn heun_matches_manual_stages() {
    let mut sys = sample_sys();
    let dt = rat(1, 200);

    // manual computation via independent trial evaluations
    let mut manual = sample_sys();
    manual.update_derivs();
    let k1 = manual.derivs();
    let mut trial = manual.trial_copy();
    trial.step_states_by_dt(&dt);
    trial.update_derivs();
    let k2 = trial.derivs();
    let half = rat(1, 2);
    let x0 = manual.states();
    let expected: Vec<Rat> = (0..3)
        .map(|i| x0[i].add(dt.mul(k1[i].mul(half).add(k2[i].mul(half)))))
        .collect();

    heun(&mut sys, &dt);
    let st = states_of(&sys);
    for i in 0..3 {
        assert!(st[i].eq_val(expected[i]));
    }
}

#[test]
fn ralston_matches_manual_stages() {
    let mut sys = sample_sys();
    let dt = rat(1, 200);

    let mut manual = sample_sys();
    manual.update_derivs();
    let k1 = manual.derivs();
    let mut trial = manual.trial_copy();
    let off = rat(2, 1).mul(dt).div(rat(3, 1));
    trial.step_states_by_dt(&off);
    trial.update_derivs();
    let k2 = trial.derivs();
    let x0 = manual.states();
    let four = rat(4, 1);
    let three = rat(3, 1);
    let expected: Vec<Rat> = (0..3)
        .map(|i| x0[i].add(dt.mul(k1[i].div(four).add(three.mul(k2[i]).div(four)))))
        .collect();

    ralston(&mut sys, &dt);
    let st = states_of(&sys);
    for i in 0..3 {
        assert!(st[i].eq_val(expected[i]));
    }
}

#[test]
fn rk4_matches_manual_stages() {
    // running the method once is equivalent to computing the four stage
    // derivatives via independent trial evaluations and applying the
    // weighted sum once
    let mut sys = sample_sys();
    let dt = rat(1, 200);

    let mut manual = sample_sys();
    manual.update_derivs();
    let k1 = manual.derivs();
    let half_dt = dt.div(rat(2, 1));
    let mut t1 = manual.trial_copy();
    t1.step_states_by_dt(&half_dt);
    t1.update_derivs();
    let k2 = t1.derivs();
    let mut t2 = manual.trial_copy();
    t2.set_derivs(&k2);
    t2.step_states_by_dt(&half_dt);
    t2.update_derivs();
    let k3 = t2.derivs();
    let mut t3 = manual.trial_copy();
    t3.set_derivs(&k3);
    t3.step_states_by_dt(&dt);
    t3.update_derivs();
    let k4 = t3.derivs();
    let two = rat(2, 1);
    let sixth = rat(1, 6);
    let x0 = manual.states();
    let expected: Vec<Rat> = (0..3)
        .map(|i| {
            let sum = k1[i].add(two.mul(k2[i])).add(two.mul(k3[i])).add(k4[i]);
            x0[i].add(sixth.mul(sum).mul(dt))
        })
        .collect();

    rk4fixed(&mut sys, &dt);
    let st = states_of(&sys);
    for i in 0..3 {
        assert!(st[i].eq_val(expected[i]));
    }
    assert!(sys.time().eq_val(dt));
}

#[test]
fn storages_read_back_capacities() {
    let sys = sample_sys();
    let c = sys.storages();
    assert!(c[0].eq_val(rat(1, 1)));
    assert!(c[1].eq_val(rat(2, 1)));
    assert!(c[2].eq_val(rat(3, 2)));
}

#[test]
fn test_bare_clone() {
    let mut sys = sample_sys();
    assert!(sys.history.is_empty());
    assert!(sys.m1.history.is_empty());
    assert!(sys.h12.history.is_empty());
    sys.save_state();
    assert!(sys.history.len() == 1);
    assert!(sys.m1.history.len() == 1);
    assert!(sys.h12.history.len() == 1);
    let bare_sys = sys.bare_clone();
    assert!(bare_sys.history.is_empty());
    assert!(bare_sys.m1.history.is_empty());
    assert!(bare_sys.h12.history.is_empty());
    // the copy carries the current values
    let a = sys.states();
    let b = bare_sys.states();
    for i in 0..3 {
        assert!(a[i].eq_val(b[i]));
    }
    assert!(bare_sys.m1.c.eq_val(sys.m1.c));
    assert!(bare_sys.h12.h.eq_val(sys.h12.h));
    assert!(bare_sys.state.time.eq_val(sys.state.time));
}

#[test]
fn trial_copies_leave_histories_alone() {
    // a full Runge-Kutta step evaluates four stages on trial copies, and
    // none of them touches the authoritative histories
    let mut sys = sample_sys();
    sys.save_state();
    let dt = rat(1, 200);
    rk4fixed(&mut sys, &dt);
    assert!(sys.history.len() == 1);
    assert!(sys.m1.history.len() == 1);
    assert!(sys.m2.history.len() == 1);
    assert!(sys.h12.history.len() == 1);
}
