//! A concrete modelled system: three thermal masses in a chain, coupled by
//! two conductances.  It implements the full state-vector interface, so
//! every stepping method and the time-march driver run on it; its
//! derivative field is proved to match its derivative-update routine.

use vstd::prelude::*;

use crate::components::{
    Conductance, ConductanceState, ConductanceStateHistoryVec, ThermalMass, ThermalMassState,
    ThermalMassStateHistoryVec,
};
use crate::scalar::{spec_zero, ScalarOps};
use crate::solver_types::{SystemState, SystemStateHistoryVec};
use crate::system::{field_at, BareClone, Flow, HasState, SolverBase};
use crate::vecops::{vadd, vscale, vzero};

verus! {

/// The derivative field of the three-mass chain: each conductance carries
/// a flow proportional to the difference of the potentials it couples, and
/// each mass accumulates its incident flows normalised by its capacity.
pub open spec fn three_mass_field<S: ScalarOps>(
    h12: S,
    h23: S,
    c1: S,
    c2: S,
    c3: S,
) -> spec_fn(Seq<S>, S) -> Seq<S> {
    |stv: Seq<S>, t: S|
        {
            let q12 = S::spec_mul(h12, S::spec_sub(stv[0], stv[1]));
            let q23 = S::spec_mul(h23, S::spec_sub(stv[1], stv[2]));
            seq![
                S::spec_add(spec_zero::<S>(), S::spec_div(S::spec_neg(q12), c1)),
                S::spec_add(
                    S::spec_add(spec_zero::<S>(), S::spec_div(q12, c2)),
                    S::spec_div(S::spec_neg(q23), c2),
                ),
                S::spec_add(spec_zero::<S>(), S::spec_div(q23, c3)),
            ]
        }
}

/// Three thermal masses in a chain: `h12` couples `m1` to `m2` and `h23`
/// couples `m2` to `m3`.
pub struct System3TM<S> {
    /// first mass
    pub m1: ThermalMass<S>,
    /// second mass
    pub m2: ThermalMass<S>,
    /// conductance between `m1` and `m2`
    pub h12: Conductance<S>,
    /// third mass
    pub m3: ThermalMass<S>,
    /// conductance between `m2` and `m3`
    pub h23: Conductance<S>,
    /// driver bookkeeping: schedule cursor and current time
    pub state: SystemState<S>,
    /// history of the bookkeeping state
    pub history: SystemStateHistoryVec<S>,
}

impl<S: ScalarOps> System3TM<S> {
    /// A new system from its components, starting at time zero with the
    /// cursor at the start of the schedule and empty histories.
    pub fn new(
        m1: ThermalMass<S>,
        m2: ThermalMass<S>,
        h12: Conductance<S>,
        m3: ThermalMass<S>,
        h23: Conductance<S>,
    ) -> (r: System3TM<S>)
        ensures
            r.m1 == m1,
            r.m2 == m2,
            r.h12 == h12,
            r.m3 == m3,
            r.h23 == h23,
            r.state.i == 0usize,
            r.state.time == S::spec_ratio(0, 1),
            r.history.wf(),
            r.history.time@.len() == 0,
    {
        System3TM {
            m1,
            m2,
            h12,
            m3,
            h23,
            state: SystemState { i: 0, time: S::ratio(0, 1) },
            history: SystemStateHistoryVec::new(),
        }
    }
}

impl<S: ScalarOps> SolverBase<S> for System3TM<S> {
    open spec fn st(&self) -> Seq<S> {
        seq![self.m1.state.temp, self.m2.state.temp, self.m3.state.temp]
    }

    open spec fn dv(&self) -> Seq<S> {
        seq![self.m1.state.dtemp, self.m2.state.dtemp, self.m3.state.dtemp]
    }

    open spec fn tm(&self) -> S {
        self.state.time
    }

    open spec fn strg(&self) -> Seq<S> {
        seq![self.m1.c, self.m2.c, self.m3.c]
    }

    open spec fn idx(&self) -> int {
        self.state.i as int
    }

    open spec fn rhs(&self) -> spec_fn(Seq<S>, S) -> Seq<S> {
        three_mass_field(self.h12.h, self.h23.h, self.m1.c, self.m2.c, self.m3.c)
    }

    fn states(&self) -> (r: Vec<S>) {
        let mut out: Vec<S> = Vec::new();
        out.push(self.m1.state());
        out.push(self.m2.state());
        out.push(self.m3.state());
        proof {
            assert(out@ =~= self.st());
        }
        out
    }

    fn set_states(&mut self, val: Vec<S>) {
        self.m1.set_state(val[0]);
        self.m2.set_state(val[1]);
        self.m3.set_state(val[2]);
        proof {
            assert(self.st() =~= val@);
        }
    }

    fn derivs(&self) -> (r: Vec<S>) {
        let mut out: Vec<S> = Vec::new();
        out.push(self.m1.deriv());
        out.push(self.m2.deriv());
        out.push(self.m3.deriv());
        proof {
            assert(out@ =~= self.dv());
        }
        out
    }

    fn set_derivs(&mut self, val: &Vec<S>) {
        self.m1.set_deriv(val[0]);
        self.m2.set_deriv(val[1]);
        self.m3.set_deriv(val[2]);
        proof {
            assert(self.dv() =~= val@);
        }
    }

    fn step_states(&mut self, val: Vec<S>) {
        let ghost pre = *self;
        self.m1.step_state(val[0]);
        self.m2.step_state(val[1]);
        self.m3.step_state(val[2]);
        proof {
            assert(self.st() =~= vadd(pre.st(), val@));
        }
    }

    fn step_states_by_dt(&mut self, dt: &S) {
        let ghost pre = *self;
        self.m1.step_state_by_dt(dt);
        self.m2.step_state_by_dt(dt);
        self.m3.step_state_by_dt(dt);
        self.state.time = self.state.time.add(*dt);
        proof {
            assert(self.st() =~= vadd(pre.st(), vscale(*dt, pre.dv())));
        }
    }

    fn step_time(&mut self, dt: &S) {
        self.state.time = self.state.time.add(*dt);
    }

    fn reset_derivs(&mut self) {
        let z = S::ratio(0, 1);
        self.m1.set_deriv(z);
        self.m2.set_deriv(z);
        self.m3.set_deriv(z);
        proof {
            assert(self.dv() =~= vzero::<S>(old(self).dv().len()));
        }
    }

    fn time(&self) -> (r: S) {
        self.state.time
    }

    fn storages(&self) -> (r: Vec<S>) {
        let mut out: Vec<S> = Vec::new();
        out.push(self.m1.storage());
        out.push(self.m2.storage());
        out.push(self.m3.storage());
        proof {
            assert(out@ =~= self.strg());
        }
        out
    }

    fn cursor(&self) -> (r: usize) {
        self.state.i
    }

    fn set_cursor(&mut self, i: usize) {
        self.state.i = i;
    }

    fn update_derivs(&mut self) {
        let ghost pre = *self;
        self.reset_derivs();
        self.h12.set_flow(self.m1.state.temp, self.m2.state.temp);
        self.h23.set_flow(self.m2.state.temp, self.m3.state.temp);
        let q12 = self.h12.flow();
        let q23 = self.h23.flow();
        let d1 = q12.neg().div(self.m1.c);
        self.m1.step_deriv(d1);
        let d2a = q12.div(self.m2.c);
        self.m2.step_deriv(d2a);
        let d2b = q23.neg().div(self.m2.c);
        self.m2.step_deriv(d2b);
        let d3 = q23.div(self.m3.c);
        self.m3.step_deriv(d3);
        proof {
            assert(self.dv() =~= field_at(pre.rhs(), pre.st(), pre.tm()));
        }
    }

    fn trial_copy(&self) -> (r: Self) {
        System3TM {
            m1: ThermalMass {
                c: self.m1.c,
                state: ThermalMassState { temp: self.m1.state.temp, dtemp: self.m1.state.dtemp },
                history: ThermalMassStateHistoryVec::new(),
            },
            m2: ThermalMass {
                c: self.m2.c,
                state: ThermalMassState { temp: self.m2.state.temp, dtemp: self.m2.state.dtemp },
                history: ThermalMassStateHistoryVec::new(),
            },
            h12: Conductance {
                h: self.h12.h,
                state: ConductanceState { q: self.h12.state.q },
                history: ConductanceStateHistoryVec::new(),
            },
            m3: ThermalMass {
                c: self.m3.c,
                state: ThermalMassState { temp: self.m3.state.temp, dtemp: self.m3.state.dtemp },
                history: ThermalMassStateHistoryVec::new(),
            },
            h23: Conductance {
                h: self.h23.h,
                state: ConductanceState { q: self.h23.state.q },
                history: ConductanceStateHistoryVec::new(),
            },
            state: SystemState { i: self.state.i, time: self.state.time },
            history: SystemStateHistoryVec::new(),
        }
    }

    fn save_state(&mut self) {
        let snap = SystemState { i: self.state.i, time: self.state.time };
        self.history.push(&snap);
        self.m1.save_state();
        self.m2.save_state();
        self.m3.save_state();
        self.h12.save_state();
        self.h23.save_state();
    }
}

impl<S: ScalarOps> BareClone for System3TM<S> {
    open spec fn same_values(&self, other: &Self) -> bool {
        &&& self.m1.same_values(&other.m1)
        &&& self.m2.same_values(&other.m2)
        &&& self.h12.same_values(&other.h12)
        &&& self.m3.same_values(&other.m3)
        &&& self.h23.same_values(&other.h23)
        &&& other.state.i == self.state.i
        &&& other.state.time == self.state.time
    }

    open spec fn hist_empty(&self) -> bool {
        &&& self.m1.hist_empty()
        &&& self.m2.hist_empty()
        &&& self.m3.hist_empty()
        &&& self.h12.hist_empty()
        &&& self.h23.hist_empty()
        &&& self.history.i@.len() == 0
        &&& self.history.time@.len() == 0
    }

    /// The current values with every history left empty.
    fn bare_clone(&self) -> (r: Self) {
        System3TM {
            m1: self.m1.bare_clone(),
            m2: self.m2.bare_clone(),
            h12: self.h12.bare_clone(),
            m3: self.m3.bare_clone(),
            h23: self.h23.bare_clone(),
            state: SystemState { i: self.state.i, time: self.state.time },
            history: SystemStateHistoryVec::new(),
        }
    }
}

} // verus!
