//! The capability contract a physical model must satisfy so that the
//! stepping methods and the time-march driver can advance it.
//!
//! A model exposes an ordered vector of state values, the matching vector of
//! time derivatives, a clock, a cursor into the report schedule, and a
//! user-defined derivative-update routine.  The spec members pin an abstract
//! view of the model: its state values `st`, derivative values `dv`, time
//! `tm`, storage capacities `strg`, cursor `idx`, and the derivative field
//! `rhs` that the update routine evaluates at state values and a time.

use vstd::prelude::*;

use crate::scalar::ScalarOps;
use crate::vecops::{vadd, vscale, vzero};

verus! {

/// Application of a derivative field to state values and a time.
pub open spec fn field_at<S>(rhs: spec_fn(Seq<S>, S) -> Seq<S>, stv: Seq<S>, t: S) -> Seq<S> {
    rhs(stv, t)
}

/// The dimensions a well-formed model keeps: derivative and storage vectors
/// as long as the state vector, and a derivative field that always returns
/// that many entries.
pub open spec fn dims_ok<S>(
    stv: Seq<S>,
    dvv: Seq<S>,
    sg: Seq<S>,
    rhs: spec_fn(Seq<S>, S) -> Seq<S>,
) -> bool {
    &&& dvv.len() == stv.len()
    &&& sg.len() == stv.len()
    &&& forall|x: Seq<S>, t: S| (#[trigger] rhs(x, t)).len() == stv.len()
}

/// The state-vector interface: what the engine reads and writes on the
/// modelled system.  The derivative-update routine `update_derivs` is the
/// user-defined part; its contract promises only that it fills the
/// derivative vector with the model's derivative field at the current state
/// and leaves everything else alone.
pub trait SolverBase<S: ScalarOps>: Sized {
    /// Current state values, in the model's fixed element order.
    spec fn st(&self) -> Seq<S>;

    /// Current time-derivative values, paired 1:1 with `st`.
    spec fn dv(&self) -> Seq<S>;

    /// Current time.
    spec fn tm(&self) -> S;

    /// Storage capacities, paired 1:1 with `st`.
    spec fn strg(&self) -> Seq<S>;

    /// Cursor into the caller's report-time schedule.
    spec fn idx(&self) -> int;

    /// The derivative field of the model: the derivative vector its update
    /// routine computes from state values and a time.  Determined by the
    /// model's parameters, which no engine operation changes.
    spec fn rhs(&self) -> spec_fn(Seq<S>, S) -> Seq<S>;

    /// Returns values of states.
    fn states(&self) -> (r: Vec<S>)
        ensures
            r@ == self.st(),
    ;

    /// Sets values of states.
    fn set_states(&mut self, val: Vec<S>)
        requires
            val@.len() == old(self).st().len(),
        ensures
            final(self).st() == val@,
            final(self).dv() == old(self).dv(),
            final(self).tm() == old(self).tm(),
            final(self).idx() == old(self).idx(),
            final(self).strg() == old(self).strg(),
            final(self).rhs() == old(self).rhs(),
    ;

    /// Returns derivatives of states.
    fn derivs(&self) -> (r: Vec<S>)
        ensures
            r@ == self.dv(),
    ;

    /// Sets values of derivatives of states.
    fn set_derivs(&mut self, val: &Vec<S>)
        requires
            val@.len() == old(self).dv().len(),
        ensures
            final(self).dv() == val@,
            final(self).st() == old(self).st(),
            final(self).tm() == old(self).tm(),
            final(self).idx() == old(self).idx(),
            final(self).strg() == old(self).strg(),
            final(self).rhs() == old(self).rhs(),
    ;

    /// Steps each state value by the matching entry of `val`.
    fn step_states(&mut self, val: Vec<S>)
        requires
            val@.len() == old(self).st().len(),
        ensures
            final(self).st() == vadd(old(self).st(), val@),
            final(self).dv() == old(self).dv(),
            final(self).tm() == old(self).tm(),
            final(self).idx() == old(self).idx(),
            final(self).strg() == old(self).strg(),
            final(self).rhs() == old(self).rhs(),
    ;

    /// Assuming the derivatives have been populated, steps each state value
    /// by `dt` times its derivative, and advances time by `dt`.
    fn step_states_by_dt(&mut self, dt: &S)
        requires
            old(self).dv().len() == old(self).st().len(),
        ensures
            final(self).st() == vadd(old(self).st(), vscale(*dt, old(self).dv())),
            final(self).dv() == old(self).dv(),
            final(self).tm() == S::spec_add(old(self).tm(), *dt),
            final(self).idx() == old(self).idx(),
            final(self).strg() == old(self).strg(),
            final(self).rhs() == old(self).rhs(),
    ;

    /// Steps time by `dt` without touching states or derivatives.
    fn step_time(&mut self, dt: &S)
        ensures
            final(self).tm() == S::spec_add(old(self).tm(), *dt),
            final(self).st() == old(self).st(),
            final(self).dv() == old(self).dv(),
            final(self).idx() == old(self).idx(),
            final(self).strg() == old(self).strg(),
            final(self).rhs() == old(self).rhs(),
    ;

    /// Resets all time derivatives to zero.
    fn reset_derivs(&mut self)
        ensures
            final(self).dv() == vzero::<S>(old(self).dv().len()),
            final(self).st() == old(self).st(),
            final(self).tm() == old(self).tm(),
            final(self).idx() == old(self).idx(),
            final(self).strg() == old(self).strg(),
            final(self).rhs() == old(self).rhs(),
    ;

    /// Returns the current time.
    fn time(&self) -> (r: S)
        ensures
            r == self.tm(),
    ;

    /// Returns values of the storage variables.
    fn storages(&self) -> (r: Vec<S>)
        ensures
            r@ == self.strg(),
    ;

    /// Current cursor into the report-time schedule.
    fn cursor(&self) -> (r: usize)
        ensures
            r as int == self.idx(),
    ;

    /// Moves the cursor.
    fn set_cursor(&mut self, i: usize)
        ensures
            final(self).idx() == i as int,
            final(self).st() == old(self).st(),
            final(self).dv() == old(self).dv(),
            final(self).tm() == old(self).tm(),
            final(self).strg() == old(self).strg(),
            final(self).rhs() == old(self).rhs(),
    ;

    /// Updates the time derivatives of the states: the user-defined
    /// derivative routine.  It evaluates the model's derivative field at
    /// the current state values and time, and changes nothing else.
    fn update_derivs(&mut self)
        requires
            old(self).dv().len() == old(self).st().len(),
        ensures
            final(self).dv() == field_at(old(self).rhs(), old(self).st(), old(self).tm()),
            final(self).st() == old(self).st(),
            final(self).tm() == old(self).tm(),
            final(self).idx() == old(self).idx(),
            final(self).strg() == old(self).strg(),
            final(self).rhs() == old(self).rhs(),
    ;

    /// A structural duplicate carrying the current values only; any
    /// history log of the model is left empty in the copy.
    fn trial_copy(&self) -> (r: Self)
        ensures
            r.st() == self.st(),
            r.dv() == self.dv(),
            r.tm() == self.tm(),
            r.idx() == self.idx(),
            r.strg() == self.strg(),
            r.rhs() == self.rhs(),
    ;

    /// Commits one snapshot of the current values to the model's history
    /// log.  The log is outside the abstract view, so everything the view
    /// sees is unchanged.
    fn save_state(&mut self)
        ensures
            final(self).st() == old(self).st(),
            final(self).dv() == old(self).dv(),
            final(self).tm() == old(self).tm(),
            final(self).idx() == old(self).idx(),
            final(self).strg() == old(self).strg(),
            final(self).rhs() == old(self).rhs(),
    ;
}

/// A cheap structural copy that omits any history log.
pub trait BareClone: Sized {
    /// Whether `other` carries the same current values as `self`:
    /// everything but the history logs.
    spec fn same_values(&self, other: &Self) -> bool;

    /// Whether every history log of `self` is empty.
    spec fn hist_empty(&self) -> bool;

    /// Returns a copy of the current values with empty history fields.
    fn bare_clone(&self) -> (r: Self)
        ensures
            self.same_values(&r),
            r.hist_empty(),
    ;
}

/// A single stateful element: one potential value, its time derivative and
/// its storage capacity.
pub trait HasState<S: ScalarOps>: Sized {
    /// Current potential value (e.g. temperature, pressure, voltage).
    spec fn pot(&self) -> S;

    /// Current time derivative of the potential value.
    spec fn der(&self) -> S;

    /// Storage capacity normalising flow into a derivative.
    spec fn cap(&self) -> S;

    /// Sets the potential value.
    fn set_state(&mut self, val: S)
        ensures
            final(self).pot() == val,
            final(self).der() == old(self).der(),
            final(self).cap() == old(self).cap(),
    ;

    /// Returns the potential value.
    fn state(&self) -> (r: S)
        ensures
            r == self.pot(),
    ;

    /// Sets the time derivative.
    fn set_deriv(&mut self, val: S)
        ensures
            final(self).der() == val,
            final(self).pot() == old(self).pot(),
            final(self).cap() == old(self).cap(),
    ;

    /// Returns the time derivative.
    fn deriv(&self) -> (r: S)
        ensures
            r == self.der(),
    ;

    /// Returns the storage capacity.
    fn storage(&self) -> (r: S)
        ensures
            r == self.cap(),
    ;

    /// Increments the potential value by `val`.
    fn step_state(&mut self, val: S)
        ensures
            final(self).pot() == S::spec_add(old(self).pot(), val),
            final(self).der() == old(self).der(),
            final(self).cap() == old(self).cap(),
    {
        let v = self.state().add(val);
        self.set_state(v);
    }

    /// Advances the potential value by `dt` times its derivative.
    fn step_state_by_dt(&mut self, dt: &S)
        ensures
            final(self).pot() == S::spec_add(
                old(self).pot(),
                S::spec_mul(*dt, old(self).der()),
            ),
            final(self).der() == old(self).der(),
            final(self).cap() == old(self).cap(),
    {
        let v = self.state().add((*dt).mul(self.deriv()));
        self.set_state(v);
    }

    /// Accumulates `val` into the time derivative.
    fn step_deriv(&mut self, val: S)
        ensures
            final(self).der() == S::spec_add(old(self).der(), val),
            final(self).pot() == old(self).pot(),
            final(self).cap() == old(self).cap(),
    {
        let v = self.deriv().add(val);
        self.set_deriv(v);
    }
}

/// A flow element connecting two potentials.
pub trait Flow<S: ScalarOps>: Sized {
    /// Current flow value (e.g. heat transfer rate, current).
    spec fn flw(&self) -> S;

    /// Conductance coefficient of the element.
    spec fn coef(&self) -> S;

    /// Returns the flow value.
    fn flow(&self) -> (r: S)
        ensures
            r == self.flw(),
    ;

    /// Sets the flow from the difference of the two potentials: the flow
    /// becomes the element's coefficient times `p0 - p1`.
    fn set_flow(&mut self, p0: S, p1: S)
        ensures
            final(self).flw() == S::spec_mul(old(self).coef(), S::spec_sub(p0, p1)),
            final(self).coef() == old(self).coef(),
    ;
}

} // verus!
