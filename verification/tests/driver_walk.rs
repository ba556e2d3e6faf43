//! Driver behaviour over the exact rational scalar: report-time exactness,
//! monotonic time, and the adaptive controller's bookkeeping.

use dess::adaptive::{adaptive_march, rescale_factor, rk45_cash_karp, PairKind};
use dess::components::{Conductance, ThermalMass};
use dess::driver::TimeMarch;
use dess::rat::Rat;
use dess::scalar::ScalarOps;
use dess::solver_types::{AdaptiveSolverConfig, SolverReasons, SolverTypes};
use dess::system::SolverBase;
use dess::system3tm::System3TM;
use dess::vecops::{diff, linspace};

fn rat(n: i64, d: i64) -> Rat {
    Rat::new(n, d)
}

fn sample_sys() -> System3TM<Rat> {
    System3TM::new(
        ThermalMass::new(rat(1, 1), rat(0, 1)),
        ThermalMass::new(rat(2, 1), rat(10, 1)),
        Conductance::new(rat(5, 1)),
        ThermalMass::new(rat(3, 2), rat(12, 1)),
        Conductance::new(rat(5, 1)),
    )
}

#[test]
fn walk_snapshots_hit_report_times_exactly() {
    // 11 report points from 0 to 1, fixed Euler at dt = 1/20
    let t_report = linspace(rat(0, 1), rat(1, 1), 11);
    let mut run = TimeMarch::new(
        sample_sys(),
        SolverTypes::EulerFixed { dt: rat(1, 20) },
        t_report.clone(),
    );
    let done = run.walk();
    assert!(done);
    assert_eq!(run.snapshots.len(), t_report.len());
    for i in 0..t_report.len() {
        assert!(run.snapshots[i].eq_val(t_report[i]));
        // under exact arithmetic the landing is structurally exact too
        assert!(run.snapshots[i] == t_report[i]);
    }
    assert!(run.sys.time().eq_val(rat(1, 1)));
    assert_eq!(run.sys.cursor(), t_report.len());
}

#[test]
fn walk_time_is_monotonic() {
    let t_report = linspace(rat(0, 1), rat(1, 1), 6);
    let mut run = TimeMarch::new(
        sample_sys(),
        SolverTypes::RK4Fixed { dt: rat(1, 30) },
        t_report,
    );
    let done = run.walk();
    assert!(done);
    let steps = diff(&run.snapshots);
    for d in steps {
        assert!(rat(0, 1).le(d));
    }
}

#[test]
fn linspace_endpoints_exact() {
    let v = linspace(rat(0, 1), rat(1, 1), 201);
    assert_eq!(v.len(), 201);
    assert!(v[0].eq_val(rat(0, 1)));
    assert!(v[200].eq_val(rat(1, 1)));
    assert!(v[1].eq_val(rat(1, 200)));
}

#[test]
fn adaptive_controller_records_diagnostics() {
    let mut sys = sample_sys();
    let mut cfg: AdaptiveSolverConfig<Rat> = AdaptiveSolverConfig::new(
        rat(1, 10),
        Some(rat(10, 1)),
        Some(2),
        Some(rat(1, 1000)),
        Some(rat(1, 1_000_000_000)),
        true,
        false,
    );
    let dt_max = rat(1, 10);
    let used = rk45_cash_karp(&mut sys, &mut cfg, &dt_max);
    // one accepted macro-step was logged
    assert_eq!(cfg.history.dt.len(), 1);
    assert!(cfg.history.dt[0].eq_val(used));
    assert!(cfg.state.n_iter >= 1);
    assert!(cfg.state.n_iter <= 2);
    assert!(cfg.state.norm_err.is_some());
    // the step used never exceeds the carried step, the ceiling or the
    // configured maximum
    assert!(used.le(rat(1, 10)));
    assert!(used.le(dt_max));
    assert!(used.le(rat(10, 1)));
    // the snapshot's landing time is the old time plus the step used
    assert!(cfg.state.t_curr.eq_val(used));
    assert!(cfg.history.t_curr.len() == 1);
    assert!(cfg.history.t_curr[0].eq_val(used));
    assert!(cfg.history.n_iter.len() == 1);
    assert!(cfg.history.norm_err.len() == 1);
    // the accepted step advanced time by the step size used
    assert!(sys.time().eq_val(used));
}

#[test]
fn adaptive_controller_reports_cap_exhaustion() {
    let mut sys = sample_sys();
    // tolerances no nonnegative error norm can meet: the cap decides,
    // silently
    let mut cfg: AdaptiveSolverConfig<Rat> = AdaptiveSolverConfig::new(
        rat(1, 10),
        None,
        Some(1),
        Some(rat(-1, 1)),
        Some(rat(-1, 1)),
        false,
        false,
    );
    let dt_max = rat(1, 10);
    let (used, reason) = adaptive_march(PairKind::CashKarp, &mut sys, &mut cfg, &dt_max);
    assert!(matches!(reason, SolverReasons::MaxIter));
    assert_eq!(cfg.state.n_iter, 1);
    assert!(sys.time().eq_val(used));
}

#[test]
fn dt_mean_over_logged_steps() {
    let mut sys = sample_sys();
    let mut cfg: AdaptiveSolverConfig<Rat> = AdaptiveSolverConfig::new(
        rat(1, 10),
        None,
        Some(2),
        Some(rat(1, 2)),
        Some(rat(1, 2)),
        true,
        false,
    );
    assert!(cfg.dt_mean().is_none());
    let dt_max = rat(1, 10);
    let _ = rk45_cash_karp(&mut sys, &mut cfg, &dt_max);
    let m = cfg.dt_mean();
    assert!(m.is_some());
    assert!(m.unwrap().eq_val(cfg.history.dt[0]));
}

#[test]
fn rescale_factor_rational_uses_tolerance_ratio() {
    // the rational scalar has no exact fractional powers, so the factor
    // is the raw tolerance ratio
    let f = rescale_factor(rat(1, 100), rat(1, 200), true);
    assert!(f.eq_val(rat(2, 1)));
}
