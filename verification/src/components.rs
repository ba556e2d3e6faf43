//! Lumped-parameter physical components: a thermal mass (a capacitive
//! element holding one potential) and a conductance (a flow element
//! coupling two potentials), each with a column-oriented history log.

use vstd::prelude::*;

use crate::scalar::ScalarOps;
use crate::system::{BareClone, Flow, HasState};

verus! {

/// State of a [`ThermalMass`]: its temperature and the time derivative of
/// its temperature.
pub struct ThermalMassState<S> {
    /// temperature
    pub temp: S,
    /// time derivative of temperature
    pub dtemp: S,
}

/// Column-oriented log of [`ThermalMassState`] snapshots.
pub struct ThermalMassStateHistoryVec<S> {
    /// `temp` column
    pub temp: Vec<S>,
    /// `dtemp` column
    pub dtemp: Vec<S>,
}

impl<S: ScalarOps> ThermalMassStateHistoryVec<S> {
    /// Both columns have the same number of entries.
    pub open spec fn wf(&self) -> bool {
        self.temp@.len() == self.dtemp@.len()
    }

    /// An empty log.
    pub fn new() -> (r: ThermalMassStateHistoryVec<S>)
        ensures
            r.wf(),
            r.temp@.len() == 0,
    {
        ThermalMassStateHistoryVec { temp: Vec::new(), dtemp: Vec::new() }
    }

    /// Number of logged snapshots.
    pub fn len(&self) -> (r: usize)
        ensures
            r == self.temp@.len(),
    {
        self.temp.len()
    }

    /// Whether the log is empty.
    pub fn is_empty(&self) -> (r: bool)
        ensures
            r == (self.temp@.len() == 0),
    {
        self.temp.len() == 0
    }

    /// Appends one snapshot.
    pub fn push(&mut self, state: &ThermalMassState<S>)
        ensures
            final(self).temp@ == old(self).temp@.push(state.temp),
            final(self).dtemp@ == old(self).dtemp@.push(state.dtemp),
    {
        self.temp.push(state.temp);
        self.dtemp.push(state.dtemp);
    }
}

/// A capacitive element: one potential backed by a storage capacity.
pub struct ThermalMass<S> {
    /// storage capacity (e.g. thermal capacitance)
    pub c: S,
    /// current temperature and its derivative
    pub state: ThermalMassState<S>,
    /// history of the state
    pub history: ThermalMassStateHistoryVec<S>,
}

impl<S: ScalarOps> ThermalMass<S> {
    /// A new thermal mass with capacity `c` and initial temperature `t0`,
    /// a zero temperature derivative and an empty history.
    pub fn new(c: S, t0: S) -> (r: ThermalMass<S>)
        ensures
            r.c == c,
            r.state.temp == t0,
            r.state.dtemp == S::spec_ratio(0, 1),
            r.history.wf(),
            r.history.temp@.len() == 0,
    {
        ThermalMass {
            c,
            state: ThermalMassState { temp: t0, dtemp: S::ratio(0, 1) },
            history: ThermalMassStateHistoryVec::new(),
        }
    }

    /// Commits one snapshot of the current state to the history.
    pub fn save_state(&mut self)
        ensures
            final(self).c == old(self).c,
            final(self).state == old(self).state,
            final(self).history.temp@ == old(self).history.temp@.push(old(self).state.temp),
            final(self).history.dtemp@ == old(self).history.dtemp@.push(old(self).state.dtemp),
    {
        let snap = ThermalMassState { temp: self.state.temp, dtemp: self.state.dtemp };
        self.history.push(&snap);
    }
}

impl<S: ScalarOps> HasState<S> for ThermalMass<S> {
    open spec fn pot(&self) -> S {
        self.state.temp
    }

    open spec fn der(&self) -> S {
        self.state.dtemp
    }

    open spec fn cap(&self) -> S {
        self.c
    }

    fn set_state(&mut self, val: S) {
        self.state.temp = val;
    }

    fn state(&self) -> (r: S) {
        self.state.temp
    }

    fn set_deriv(&mut self, val: S) {
        self.state.dtemp = val;
    }

    fn deriv(&self) -> (r: S) {
        self.state.dtemp
    }

    fn storage(&self) -> (r: S) {
        self.c
    }
}

impl<S: ScalarOps> BareClone for ThermalMass<S> {
    open spec fn same_values(&self, other: &Self) -> bool {
        &&& other.c == self.c
        &&& other.state.temp == self.state.temp
        &&& other.state.dtemp == self.state.dtemp
    }

    open spec fn hist_empty(&self) -> bool {
        &&& self.history.temp@.len() == 0
        &&& self.history.dtemp@.len() == 0
    }

    /// The current values with an empty history.
    fn bare_clone(&self) -> (r: Self) {
        ThermalMass {
            c: self.c,
            state: ThermalMassState { temp: self.state.temp, dtemp: self.state.dtemp },
            history: ThermalMassStateHistoryVec::new(),
        }
    }
}

/// State of a [`Conductance`]: its flow value.
pub struct ConductanceState<S> {
    /// flow (e.g. heat transfer rate)
    pub q: S,
}

/// Column-oriented log of [`ConductanceState`] snapshots.
pub struct ConductanceStateHistoryVec<S> {
    /// `q` column
    pub q: Vec<S>,
}

impl<S: ScalarOps> ConductanceStateHistoryVec<S> {
    /// An empty log.
    pub fn new() -> (r: ConductanceStateHistoryVec<S>)
        ensures
            r.q@.len() == 0,
    {
        ConductanceStateHistoryVec { q: Vec::new() }
    }

    /// Number of logged snapshots.
    pub fn len(&self) -> (r: usize)
        ensures
            r == self.q@.len(),
    {
        self.q.len()
    }

    /// Whether the log is empty.
    pub fn is_empty(&self) -> (r: bool)
        ensures
            r == (self.q@.len() == 0),
    {
        self.q.len() == 0
    }

    /// Appends one snapshot.
    pub fn push(&mut self, state: &ConductanceState<S>)
        ensures
            final(self).q@ == old(self).q@.push(state.q),
    {
        self.q.push(state.q);
    }
}

/// A flow element whose flow is its conductance coefficient times the
/// difference of the two potentials it couples.
pub struct Conductance<S> {
    /// conductance coefficient between two potentials
    pub h: S,
    /// current flow value
    pub state: ConductanceState<S>,
    /// history of the state
    pub history: ConductanceStateHistoryVec<S>,
}

impl<S: ScalarOps> Conductance<S> {
    /// A new conductance with coefficient `h`, zero flow and an empty
    /// history.
    pub fn new(h: S) -> (r: Conductance<S>)
        ensures
            r.h == h,
            r.state.q == S::spec_ratio(0, 1),
            r.history.q@.len() == 0,
    {
        Conductance {
            h,
            state: ConductanceState { q: S::ratio(0, 1) },
            history: ConductanceStateHistoryVec::new(),
        }
    }

    /// Commits one snapshot of the current state to the history.
    pub fn save_state(&mut self)
        ensures
            final(self).h == old(self).h,
            final(self).state == old(self).state,
            final(self).history.q@ == old(self).history.q@.push(old(self).state.q),
    {
        let snap = ConductanceState { q: self.state.q };
        self.history.push(&snap);
    }
}

impl<S: ScalarOps> Flow<S> for Conductance<S> {
    open spec fn flw(&self) -> S {
        self.state.q
    }

    open spec fn coef(&self) -> S {
        self.h
    }

    fn flow(&self) -> (r: S) {
        self.state.q
    }

    fn set_flow(&mut self, p0: S, p1: S) {
        self.state.q = self.h.mul(p0.sub(p1));
    }
}

impl<S: ScalarOps> BareClone for Conductance<S> {
    open spec fn same_values(&self, other: &Self) -> bool {
        &&& other.h == self.h
        &&& other.state.q == self.state.q
    }

    open spec fn hist_empty(&self) -> bool {
        self.history.q@.len() == 0
    }

    /// The current values with an empty history.
    fn bare_clone(&self) -> (r: Self) {
        Conductance {
            h: self.h,
            state: ConductanceState { q: self.state.q },
            history: ConductanceStateHistoryVec::new(),
        }
    }
}

} // verus!
