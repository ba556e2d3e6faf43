//! The solver method selector and the adaptive controller's configuration,
//! runtime state and diagnostic history.

use vstd::prelude::*;

use crate::scalar::ScalarOps;
use crate::vecops::sum_pre;

verus! {

/// Runtime state of the adaptive controller.
///
/// The controller is considered converged when any one of the following
/// holds: the relative error is within `rtol`, the absolute error is within
/// `atol`, or `n_iter` has reached the iteration cap.
pub struct SolverState<S> {
    /// time step size used by solver
    pub dt: S,
    /// number of inner iterations of the last macro-step
    pub n_iter: u8,
    /// absolute error: Euclidean norm of the difference of the two
    /// embedded increments; unset before the first evaluation
    pub norm_err: Option<S>,
    /// relative error: `norm_err` over the norm of the higher-order
    /// increment; unset when that reference norm is numerically zero
    pub norm_err_rel: Option<S>,
    /// the time at which the last accepted step landed
    pub t_curr: S,
    /// state values after the accepted step, when saving them is enabled
    pub states: Vec<S>,
}

impl<S: ScalarOps> SolverState<S> {
    /// A fresh runtime state starting at trial step `dt`, with time zero,
    /// no recorded errors and no iterations.
    pub fn fresh(dt: S) -> (r: SolverState<S>)
        ensures
            r.dt == dt,
            r.n_iter == 0u8,
            r.norm_err is None,
            r.norm_err_rel is None,
            r.t_curr == S::spec_ratio(0, 1),
            r.states@ == Seq::<S>::empty(),
    {
        SolverState {
            dt,
            n_iter: 0,
            norm_err: None,
            norm_err_rel: None,
            t_curr: S::ratio(0, 1),
            states: Vec::new(),
        }
    }
}

/// Column-oriented log of [`SolverState`] snapshots, one entry per accepted
/// macro-step.
pub struct SolverStateHistoryVec<S> {
    /// `dt` column
    pub dt: Vec<S>,
    /// `n_iter` column
    pub n_iter: Vec<u8>,
    /// `norm_err` column
    pub norm_err: Vec<Option<S>>,
    /// `norm_err_rel` column
    pub norm_err_rel: Vec<Option<S>>,
    /// `t_curr` column
    pub t_curr: Vec<S>,
    /// `states` column
    pub states: Vec<Vec<S>>,
}

impl<S: ScalarOps> SolverStateHistoryVec<S> {
    /// All columns have the same number of entries.
    pub open spec fn wf(&self) -> bool {
        &&& self.n_iter@.len() == self.dt@.len()
        &&& self.norm_err@.len() == self.dt@.len()
        &&& self.norm_err_rel@.len() == self.dt@.len()
        &&& self.t_curr@.len() == self.dt@.len()
        &&& self.states@.len() == self.dt@.len()
    }

    /// An empty log.
    pub fn new() -> (r: SolverStateHistoryVec<S>)
        ensures
            r.wf(),
            r.dt@.len() == 0,
    {
        SolverStateHistoryVec {
            dt: Vec::new(),
            n_iter: Vec::new(),
            norm_err: Vec::new(),
            norm_err_rel: Vec::new(),
            t_curr: Vec::new(),
            states: Vec::new(),
        }
    }

    /// Number of logged snapshots.
    pub fn len(&self) -> (r: usize)
        ensures
            r == self.dt@.len(),
    {
        self.dt.len()
    }

    /// Whether the log is empty.
    pub fn is_empty(&self) -> (r: bool)
        ensures
            r == (self.dt@.len() == 0),
    {
        self.dt.len() == 0
    }

    /// Appends one snapshot: every field of `state` goes to its column.
    pub fn push(&mut self, state: SolverState<S>)
        requires
            old(self).wf(),
        ensures
            final(self).wf(),
            final(self).dt@ == old(self).dt@.push(state.dt),
            final(self).n_iter@ == old(self).n_iter@.push(state.n_iter),
            final(self).norm_err@ == old(self).norm_err@.push(state.norm_err),
            final(self).norm_err_rel@ == old(self).norm_err_rel@.push(state.norm_err_rel),
            final(self).t_curr@ == old(self).t_curr@.push(state.t_curr),
            final(self).states@ == old(self).states@.push(state.states),
    {
        self.dt.push(state.dt);
        self.n_iter.push(state.n_iter);
        self.norm_err.push(state.norm_err);
        self.norm_err_rel.push(state.norm_err_rel);
        self.t_curr.push(state.t_curr);
        self.states.push(state.states);
    }
}

/// Why the adaptive controller stopped iterating within a macro-step.
#[derive(Clone, Copy, Debug, PartialEq, Eq, Structural)]
pub enum SolverReasons {
    /// iterations stopped because an error tolerance was achieved
    ToleranceAchieved,
    /// iterations stopped because the iteration cap was reached without
    /// meeting tolerance; the step is still accepted silently
    MaxIter,
}

/// Tunable parameters plus nested runtime state of an embedded adaptive
/// method.
pub struct AdaptiveSolverConfig<S> {
    /// max allowable dt
    pub dt_max: S,
    /// max number of inner iterations per macro-step
    pub max_iter: u8,
    /// absolute Euclidean error tolerance
    pub atol: S,
    /// relative Euclidean error tolerance
    pub rtol: S,
    /// save per-step diagnostics
    pub save: bool,
    /// also save the full state vector per diagnostic entry; expensive,
    /// generally `false`
    pub save_states: bool,
    /// solver runtime state
    pub state: SolverState<S>,
    /// history of solver runtime state
    pub history: SolverStateHistoryVec<S>,
}

impl<S: ScalarOps> AdaptiveSolverConfig<S> {
    /// A configuration starting at trial step `dt_init`; every omitted
    /// parameter takes its documented default: `dt_max` 10, `max_iter` 2,
    /// `rtol` 1/1000, `atol` 1/1000000000.
    pub fn new(
        dt_init: S,
        dt_max: Option<S>,
        max_iter: Option<u8>,
        rtol: Option<S>,
        atol: Option<S>,
        save: bool,
        save_states: bool,
    ) -> (r: AdaptiveSolverConfig<S>)
        ensures
            r.dt_max == if dt_max is Some { dt_max->0 } else { S::spec_ratio(10, 1) },
            r.max_iter == if max_iter is Some { max_iter->0 } else { 2u8 },
            r.rtol == if rtol is Some { rtol->0 } else { S::spec_ratio(1, 1000) },
            r.atol == if atol is Some { atol->0 } else { S::spec_ratio(1, 1_000_000_000) },
            r.save == save,
            r.save_states == save_states,
            r.state.dt == dt_init,
            r.state.n_iter == 0u8,
            r.state.norm_err is None,
            r.state.norm_err_rel is None,
            r.state.t_curr == S::spec_ratio(0, 1),
            r.state.states@ == Seq::<S>::empty(),
            r.history.wf(),
            r.history.dt@.len() == 0,
    {
        AdaptiveSolverConfig {
            dt_max: match dt_max {
                Some(v) => v,
                None => S::ratio(10, 1),
            },
            max_iter: match max_iter {
                Some(v) => v,
                None => 2,
            },
            rtol: match rtol {
                Some(v) => v,
                None => S::ratio(1, 1000),
            },
            atol: match atol {
                Some(v) => v,
                None => S::ratio(1, 1_000_000_000),
            },
            save,
            save_states,
            state: SolverState::fresh(dt_init),
            history: SolverStateHistoryVec::new(),
        }
    }

    /// Mean of the logged step sizes, or `None` while the log is empty:
    /// the left-to-right sum of the `dt` column divided by its length.
    pub fn dt_mean(&self) -> (r: Option<S>)
        requires
            self.history.dt@.len() <= i64::MAX,
        ensures
            match r {
                Some(m) => self.history.dt@.len() > 0 && m == S::spec_div(
                    sum_pre(self.history.dt@, self.history.dt@.len()),
                    S::spec_ratio(self.history.dt@.len() as i64, 1),
                ),
                None => self.history.dt@.len() == 0,
            },
    {
        if self.history.is_empty() {
            None
        } else {
            let col = &self.history.dt;
            let mut acc: S = S::ratio(0, 1);
            let mut j: usize = 0;
            while j < col.len()
                invariant
                    j <= col@.len(),
                    acc == sum_pre(col@, j as nat),
                decreases col@.len() - j,
            {
                acc = acc.add(col[j]);
                j = j + 1;
            }
            Some(acc.div(S::ratio(col.len() as i64, 1)))
        }
    }
}

/// The tagged choice of stepping method for a run.  Fixed-step variants
/// carry their step size; the embedded adaptive variants carry their
/// configuration and mutable runtime state.
pub enum SolverTypes<S> {
    /// Euler with fixed time step
    EulerFixed {
        /// step size between report times
        dt: S,
    },
    /// Heun's method: Runge-Kutta 2nd order with fixed time step
    HeunsMethod {
        /// step size between report times
        dt: S,
    },
    /// Midpoint method: alternate Runge-Kutta 2nd order with fixed step
    MidpointMethod {
        /// step size between report times
        dt: S,
    },
    /// Ralston's method: alternate Runge-Kutta 2nd order with fixed step
    RalstonsMethod {
        /// step size between report times
        dt: S,
    },
    /// Bogacki-Shampine 3(2)-order adaptive pair
    RK23BogackiShampine(AdaptiveSolverConfig<S>),
    /// classical Runge-Kutta 4th order with fixed time step
    RK4Fixed {
        /// step size between report times
        dt: S,
    },
    /// Cash-Karp 5(4)-order adaptive pair
    RK45CashKarp(AdaptiveSolverConfig<S>),
}


/// The bookkeeping state a modelled system carries for the driver: the
/// cursor into the report-time schedule and the current time.
pub struct SystemState<S> {
    /// current index in the report-time schedule
    pub i: usize,
    /// current time
    pub time: S,
}

/// Column-oriented log of [`SystemState`] snapshots.
pub struct SystemStateHistoryVec<S> {
    /// `i` column
    pub i: Vec<usize>,
    /// `time` column
    pub time: Vec<S>,
}

impl<S: ScalarOps> SystemStateHistoryVec<S> {
    /// Both columns have the same number of entries.
    pub open spec fn wf(&self) -> bool {
        self.i@.len() == self.time@.len()
    }

    /// An empty log.
    pub fn new() -> (r: SystemStateHistoryVec<S>)
        ensures
            r.wf(),
            r.time@.len() == 0,
    {
        SystemStateHistoryVec { i: Vec::new(), time: Vec::new() }
    }

    /// Number of logged snapshots.
    pub fn len(&self) -> (r: usize)
        ensures
            r == self.time@.len(),
    {
        self.time.len()
    }

    /// Whether the log is empty.
    pub fn is_empty(&self) -> (r: bool)
        ensures
            r == (self.time@.len() == 0),
    {
        self.time.len() == 0
    }

    /// Appends one snapshot: each field of `state` goes to its column.
    pub fn push(&mut self, state: &SystemState<S>)
        ensures
            final(self).i@ == old(self).i@.push(state.i),
            final(self).time@ == old(self).time@.push(state.time),
    {
        self.i.push(state.i);
        self.time.push(state.time);
    }
}

} // verus!
