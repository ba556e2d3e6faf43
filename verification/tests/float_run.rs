//! Numerical behaviour of the engine instantiated with machine floating
//! point: order of accuracy, adaptive tolerance containment, the worked
//! two-capacity scenario, and the step-size growth factor.

use dess::adaptive::rescale_factor;
use dess::components::{Conductance, ThermalMass};
use dess::driver::TimeMarch;
use dess::methods::rk4fixed;
use dess::scalar::ScalarOps;
use dess::solver_types::{AdaptiveSolverConfig, SolverTypes};
use dess::system::SolverBase;
use dess::system3tm::System3TM;
use dess::vecops::linspace;

/// Machine floating point as an engine scalar.
#[derive(Clone, Copy, Debug, PartialEq, PartialOrd)]
struct F(f64);

impl ScalarOps for F {
    // the erased spec-level members: present only to satisfy the trait
    // shape, never called at run time
    fn spec_add(a: Self, b: Self) -> Self {
        F(a.0 + b.0)
    }
    fn spec_sub(a: Self, b: Self) -> Self {
        F(a.0 - b.0)
    }
    fn spec_mul(a: Self, b: Self) -> Self {
        F(a.0 * b.0)
    }
    fn spec_div(a: Self, b: Self) -> Self {
        F(a.0 / b.0)
    }
    fn spec_neg(a: Self) -> Self {
        F(-a.0)
    }
    fn spec_sqrt(a: Self) -> Self {
        F(a.0.sqrt())
    }
    fn spec_pow_frac(a: Self, num: i64, den: i64) -> Self {
        F(a.0.powf(num as f64 / den as f64))
    }
    fn spec_ratio(num: i64, den: i64) -> Self {
        F(num as f64 / den as f64)
    }
    fn spec_le(a: Self, b: Self) -> bool {
        a.0 <= b.0
    }
    fn spec_lt(a: Self, b: Self) -> bool {
        a.0 < b.0
    }
    fn spec_eq(a: Self, b: Self) -> bool {
        a.0 == b.0
    }
    fn add(self, rhs: Self) -> Self {
        F(self.0 + rhs.0)
    }
    fn sub(self, rhs: Self) -> Self {
        F(self.0 - rhs.0)
    }
    fn mul(self, rhs: Self) -> Self {
        F(self.0 * rhs.0)
    }
    fn div(self, rhs: Self) -> Self {
        F(self.0 / rhs.0)
    }
    fn neg(self) -> Self {
        F(-self.0)
    }
    fn sqrt(self) -> Self {
        F(self.0.sqrt())
    }
    fn pow_frac(self, num: i64, den: i64) -> Self {
        F(self.0.powf(num as f64 / den as f64))
    }
    fn ratio(num: i64, den: i64) -> Self {
        F(num as f64 / den as f64)
    }
    fn le(self, rhs: Self) -> bool {
        self.0 <= rhs.0
    }
    fn lt(self, rhs: Self) -> bool {
        self.0 < rhs.0
    }
    fn eq_val(self, rhs: Self) -> bool {
        self.0 == rhs.0
    }
}

fn f(x: f64) -> F {
    F(x)
}

/// Two coupled capacitive elements (the third mass is disconnected by a
/// zero conductance): capacities 1 and 2, initial potentials 0 and 10,
/// coupling conductance 5.
fn two_mass_sys() -> System3TM<F> {
    System3TM::new(
        ThermalMass::new(f(1.0), f(0.0)),
        ThermalMass::new(f(2.0), f(10.0)),
        Conductance::new(f(5.0)),
        ThermalMass::new(f(1.5), f(12.0)),
        Conductance::new(f(0.0)),
    )
}

/// The original three-mass chain: both conductances at 5, the third mass
/// carried with capacity 3/2 and initial potential 12.
fn chain_sys() -> System3TM<F> {
    System3TM::new(
        ThermalMass::new(f(1.0), f(0.0)),
        ThermalMass::new(f(2.0), f(10.0)),
        Conductance::new(f(5.0)),
        ThermalMass::new(f(1.5), f(12.0)),
        Conductance::new(f(5.0)),
    )
}

/// Closed-form solution for the first potential of the decay system:
/// both potentials approach the shared equilibrium 20/3 with rate
/// `k = h * (1/c1 + 1/c2) = 7.5`.
fn exact_t1(t: f64) -> f64 {
    let eq = 20.0 / 3.0;
    eq - eq * (-7.5 * t).exp()
}

/// Peak error of the first potential against the closed form over a
/// fixed-method run with the given step size.
fn peak_error(solver_type: SolverTypes<F>) -> f64 {
    let t_report = linspace(f(0.0), f(1.0), 11);
    let mut run = TimeMarch::new(two_mass_sys(), solver_type, t_report.clone());
    assert!(run.walk());
    let mut worst: f64 = 0.0;
    for i in 0..run.snapshots.len() {
        let t = run.snapshots[i].0;
        let got = run.sys.m1.history.temp[i].0;
        let err = (got - exact_t1(t)).abs();
        if err > worst {
            worst = err;
        }
    }
    worst
}

#[test]
fn rk4_error_shrinks_sixteenfold_when_halving_dt() {
    let e1 = peak_error(SolverTypes::RK4Fixed { dt: f(0.05) });
    let e2 = peak_error(SolverTypes::RK4Fixed { dt: f(0.025) });
    let ratio = e1 / e2;
    assert!(ratio > 8.0 && ratio < 24.0, "rk4 error ratio {}", ratio);
}

#[test]
fn euler_error_shrinks_twofold_when_halving_dt() {
    let e1 = peak_error(SolverTypes::EulerFixed { dt: f(0.05) });
    let e2 = peak_error(SolverTypes::EulerFixed { dt: f(0.025) });
    let ratio = e1 / e2;
    assert!(ratio > 1.5 && ratio < 3.0, "euler error ratio {}", ratio);
}

#[test]
fn adaptive_error_contained_by_tolerances() {
    let rtol = 1e-6;
    let atol = 1e-9;
    let cfg = AdaptiveSolverConfig::new(
        f(0.05),
        Some(f(10.0)),
        Some(5),
        Some(f(rtol)),
        Some(f(atol)),
        false,
        false,
    );
    let t_report = linspace(f(0.0), f(1.0), 11);
    let mut run = TimeMarch::new(
        two_mass_sys(),
        SolverTypes::RK45CashKarp(cfg),
        t_report,
    );
    assert!(run.walk());
    let got = run.sys.m1.state.temp.0;
    let err = (got - exact_t1(run.sys.time().0)).abs();
    assert!(err < 10.0 * (rtol * exact_t1(1.0).abs() + atol) + 1e-7, "error {}", err);
}

#[test]
fn two_capacity_scenario_converges_monotonically() {
    // fixed Euler at dt = 5e-3 from t = 0 to t = 1
    let t_report = linspace(f(0.0), f(1.0), 201);
    let mut run = TimeMarch::new(
        two_mass_sys(),
        SolverTypes::EulerFixed { dt: f(5e-3) },
        t_report,
    );
    assert!(run.walk());
    let eq = 20.0 / 3.0;
    let t1 = &run.sys.m1.history.temp;
    let t2 = &run.sys.m2.history.temp;
    assert_eq!(t1.len(), 201);
    for i in 1..t1.len() {
        // the cold element rises toward equilibrium, the warm one falls
        assert!(t1[i].0 >= t1[i - 1].0 - 1e-12);
        assert!(t2[i].0 <= t2[i - 1].0 + 1e-12);
        // the higher-capacity element moves more slowly
        assert!(
            (t2[i].0 - t2[i - 1].0).abs() <= (t1[i].0 - t1[i - 1].0).abs() + 1e-12
        );
    }
    assert!((t1[200].0 - eq).abs() < 0.05);
    assert!((t2[200].0 - eq).abs() < 0.05);
}

#[test]
fn rk4_equals_manual_stage_computation_bitwise() {
    let dt = f(5e-3);
    let mut sys = two_mass_sys();

    let mut manual = two_mass_sys();
    manual.update_derivs();
    let k1 = manual.derivs();
    let half_dt = dt.div(f(2.0));
    let mut t1 = manual.trial_copy();
    t1.step_states_by_dt(&half_dt);
    t1.update_derivs();
    let k2 = t1.derivs();
    let mut t2 = manual.trial_copy();
    t2.set_derivs(&k2);
    t2.step_states_by_dt(&half_dt);
    t2.update_derivs();
    let k3 = t2.derivs();
    let mut t3 = manual.trial_copy();
    t3.set_derivs(&k3);
    t3.step_states_by_dt(&dt);
    t3.update_derivs();
    let k4 = t3.derivs();
    let two = f(2.0);
    let sixth = F(1.0 / 6.0);
    let x0 = manual.states();
    let expected: Vec<F> = (0..3)
        .map(|i| {
            let sum = k1[i].add(two.mul(k2[i])).add(two.mul(k3[i])).add(k4[i]);
            x0[i].add(sixth.mul(sum).mul(dt))
        })
        .collect();

    rk4fixed(&mut sys, &dt);
    let st = sys.states();
    for i in 0..3 {
        // bit-for-bit equality of the committed state
        assert!(st[i].0 == expected[i].0);
    }
}

#[test]
fn test_rk4_dt_behavior() {
    let t_report = linspace(f(0.0), f(1.0), 51);
    let interval = t_report[1].0 - t_report[0].0;

    let mut small = TimeMarch::new(
        chain_sys(),
        SolverTypes::RK4Fixed { dt: f(1e-3) },
        t_report.clone(),
    );
    assert!(small.walk());

    let mut slightly_less = TimeMarch::new(
        chain_sys(),
        SolverTypes::RK4Fixed { dt: f(interval * 0.9) },
        t_report.clone(),
    );
    assert!(slightly_less.walk());

    assert!(small.sys.m1.history.temp != slightly_less.sys.m1.history.temp);

    let mut slightly_larger = TimeMarch::new(
        chain_sys(),
        SolverTypes::RK4Fixed { dt: f(interval * 1.1) },
        t_report.clone(),
    );
    assert!(slightly_larger.walk());

    let mut much_larger = TimeMarch::new(
        chain_sys(),
        SolverTypes::RK4Fixed { dt: f(interval * 10.0) },
        t_report,
    );
    assert!(much_larger.walk());

    assert!(much_larger.sys.m1.history.temp != slightly_less.sys.m1.history.temp);
    assert!(much_larger.sys.m1.history.temp == slightly_larger.sys.m1.history.temp);
}

#[test]
fn growth_factor_is_exactly_two_at_rtol_over_32() {
    // with p = 1/5 and a relative error of exactly rtol / 32 the rescale
    // factor is exactly 2
    let rtol = 1e-3;
    let r = rescale_factor(f(rtol), f(rtol / 32.0), true);
    assert!(r.0 == 2.0);
}

#[test]
fn bogacki_shampine_run_reaches_all_report_times() {
    let cfg = AdaptiveSolverConfig::new(
        f(0.05),
        Some(f(10.0)),
        Some(5),
        Some(f(1e-5)),
        Some(f(1e-8)),
        false,
        false,
    );
    let t_report = linspace(f(0.0), f(1.0), 11);
    let mut run = TimeMarch::new(
        two_mass_sys(),
        SolverTypes::RK23BogackiShampine(cfg),
        t_report.clone(),
    );
    assert!(run.walk());
    assert_eq!(run.snapshots.len(), t_report.len());
    let got = run.sys.m1.state.temp.0;
    let err = (got - exact_t1(run.sys.time().0)).abs();
    assert!(err < 1e-3, "error {}", err);
}
