//! The time-march driver: the outer loop that advances a modelled system
//! to each requested report time in turn and commits one history snapshot
//! per report time.
//!
//! `solve_step` repeatedly applies the selected stepping method, clamped so
//! that a fixed method never overshoots the pending report time and so that
//! the adaptive controller's ceiling is the distance to it; `walk` runs
//! `solve_step` over the whole schedule.  Under exact ordered arithmetic a
//! fixed-method run lands on every report time exactly.

use vstd::prelude::*;

use crate::adaptive::{adaptive_march, ctrl_mirror, pair_high, PairKind};
use crate::methods::{
    euler, heun, k1_of, midpoint, ralston, rk4fixed, heun_mean, midpoint_slope, ralston_mean,
    rk4_delta,
};
use crate::scalar::{exact_ordered, spec_min, min_val, ScalarOps};
use crate::solver_types::{AdaptiveSolverConfig, SolverTypes};
use crate::system::{dims_ok, SolverBase};
use crate::vecops::{vadd, vscale};

verus! {

/// Whether the method selector is one of the fixed-step methods.
pub open spec fn is_fixed<S>(m: SolverTypes<S>) -> bool {
    match m {
        SolverTypes::EulerFixed { .. } => true,
        SolverTypes::HeunsMethod { .. } => true,
        SolverTypes::MidpointMethod { .. } => true,
        SolverTypes::RalstonsMethod { .. } => true,
        SolverTypes::RK4Fixed { .. } => true,
        SolverTypes::RK23BogackiShampine(..) => false,
        SolverTypes::RK45CashKarp(..) => false,
    }
}

/// A schedule whose entries never decrease under the instance's order.
pub open spec fn nondecreasing<S: ScalarOps>(v: Seq<S>) -> bool {
    forall|i: int, j: int| #![trigger v[i], v[j]] 0 <= i < j < v.len() ==> S::spec_le(v[i], v[j])
}

/// Every entry before the last lies strictly below it: the final report
/// time is not repeated.  Repeated earlier entries are fine; a repeated
/// final entry would stop the march early, as the time loop exits once
/// the final value is reached.
pub open spec fn final_entry_strict<S: ScalarOps>(v: Seq<S>) -> bool {
    forall|k: int| 0 <= k < v.len() - 1 ==> S::spec_lt(#[trigger] v[k], v[v.len() - 1])
}

/// The parts of the model view that no stepping method changes.
pub open spec fn frames_kept<S: ScalarOps, T: SolverBase<S>>(s0: T, s1: T) -> bool {
    &&& s1.idx() == s0.idx()
    &&& s1.strg() == s0.strg()
    &&& s1.rhs() == s0.rhs()
}

/// The effect of one slope-form fixed step of effective size `de`: the
/// state advances by `de` times `slope`, the derivative vector is left at
/// `slope`, and time advances by `de`.
pub open spec fn slope_rel<S: ScalarOps, T: SolverBase<S>>(
    s0: T,
    s1: T,
    slope: Seq<S>,
    de: S,
) -> bool {
    &&& s1.st() == vadd(s0.st(), vscale(de, slope))
    &&& s1.dv() == slope
    &&& s1.tm() == S::spec_add(s0.tm(), de)
    &&& frames_kept(s0, s1)
}

/// The effect of one adaptive macro-step with ceiling `ceil`: exactly what
/// the shared controller promises of the system and its configuration.
pub open spec fn adapt_rel<S: ScalarOps, T: SolverBase<S>>(
    kind: PairKind,
    s0: T,
    cfg0: AdaptiveSolverConfig<S>,
    s1: T,
    cfg1: AdaptiveSolverConfig<S>,
    ceil: S,
) -> bool {
    let out = ctrl_mirror(
        kind,
        s0.rhs(),
        s0.st(),
        s0.tm(),
        cfg0.atol,
        cfg0.rtol,
        cfg0.max_iter as int,
        cfg0.max_iter as nat,
        0,
        spec_min(spec_min(cfg0.state.dt, ceil), cfg0.dt_max),
    );
    &&& s1.st() == vadd(s0.st(), pair_high(kind, s0.rhs(), s0.st(), s0.tm(), out.dt_used))
    &&& s1.tm() == S::spec_add(s0.tm(), out.dt_used)
    &&& frames_kept(s0, s1)
    &&& cfg1.dt_max == cfg0.dt_max
    &&& cfg1.max_iter == cfg0.max_iter
    &&& cfg1.atol == cfg0.atol
    &&& cfg1.rtol == cfg0.rtol
    &&& cfg1.save == cfg0.save
    &&& cfg1.save_states == cfg0.save_states
    &&& cfg1.state.dt == out.dt_next
    &&& cfg1.state.n_iter as int == out.n_done
    &&& cfg1.state.norm_err == Some(out.err)
    &&& cfg1.history.wf()
    &&& cfg1.history.dt@ == (if cfg0.save {
        cfg0.history.dt@.push(out.dt_used)
    } else {
        cfg0.history.dt@
    })
}

/// One clamped step of the driver toward `target`: a fixed method runs at
/// its step size clamped to the remaining distance; an adaptive method
/// runs one macro-step with the remaining distance as its ceiling.
pub open spec fn march_rel<S: ScalarOps, T: SolverBase<S>>(
    s0: T,
    m0: SolverTypes<S>,
    s1: T,
    m1: SolverTypes<S>,
    target: S,
) -> bool {
    let raw = S::spec_sub(target, s0.tm());
    let f = s0.rhs();
    let x0 = s0.st();
    let t0 = s0.tm();
    match m0 {
        SolverTypes::EulerFixed { dt } => {
            let de = spec_min(raw, dt);
            m1 == m0 && slope_rel(s0, s1, k1_of(f, x0, t0), de)
        },
        SolverTypes::HeunsMethod { dt } => {
            let de = spec_min(raw, dt);
            m1 == m0 && slope_rel(s0, s1, heun_mean(f, x0, t0, de), de)
        },
        SolverTypes::MidpointMethod { dt } => {
            let de = spec_min(raw, dt);
            m1 == m0 && slope_rel(s0, s1, midpoint_slope(f, x0, t0, de), de)
        },
        SolverTypes::RalstonsMethod { dt } => {
            let de = spec_min(raw, dt);
            m1 == m0 && slope_rel(s0, s1, ralston_mean(f, x0, t0, de), de)
        },
        SolverTypes::RK4Fixed { dt } => {
            let de = spec_min(raw, dt);
            &&& m1 is RK4Fixed && m1 == m0
            &&& s1.st() == vadd(x0, rk4_delta(f, x0, t0, de))
            &&& s1.dv() == k1_of(f, x0, t0)
            &&& s1.tm() == S::spec_add(t0, de)
            &&& frames_kept(s0, s1)
        },
        SolverTypes::RK23BogackiShampine(c0) => {
            match m1 {
                SolverTypes::RK23BogackiShampine(c1) => adapt_rel(
                    PairKind::BogackiShampine,
                    s0,
                    c0,
                    s1,
                    c1,
                    raw,
                ),
                _ => false,
            }
        },
        SolverTypes::RK45CashKarp(c0) => {
            match m1 {
                SolverTypes::RK45CashKarp(c1) => adapt_rel(PairKind::CashKarp, s0, c0, s1, c1, raw),
                _ => false,
            }
        },
    }
}

/// `s1`/`m1` arises from `s0`/`m0` by `n` clamped steps toward `target`,
/// each taken while the time was still short of `target`.
pub open spec fn reaches<S: ScalarOps, T: SolverBase<S>>(
    s0: T,
    m0: SolverTypes<S>,
    s1: T,
    m1: SolverTypes<S>,
    target: S,
    n: nat,
) -> bool
    decreases n,
{
    if n == 0 {
        s1 == s0 && m1 == m0
    } else {
        exists|sm: T, mm: SolverTypes<S>|
            {
                &&& reaches(s0, m0, sm, mm, target, (n - 1) as nat)
                &&& S::spec_lt(sm.tm(), target)
                &&& #[trigger] march_rel(sm, mm, s1, m1, target)
            }
    }
}

/// A driver around a modelled system: the selected method, the caller's
/// report-time schedule, and the record of times at which history
/// snapshots were committed.
pub struct TimeMarch<S, T> {
    /// the modelled system being advanced
    pub sys: T,
    /// the selected stepping method for the run
    pub solver_type: SolverTypes<S>,
    /// the report-time schedule the run must land on exactly
    pub t_report: Vec<S>,
    /// the times at which history snapshots were committed, in order
    pub snapshots: Vec<S>,
    /// cap on the number of internal sub-steps per report interval, a
    /// guard against a non-positive or vanishing step size
    pub step_limit: usize,
}

impl<S: ScalarOps, T: SolverBase<S>> TimeMarch<S, T> {
    /// The model keeps its dimensions and an adaptive configuration keeps
    /// a well-formed history log.
    pub open spec fn wf(&self) -> bool {
        &&& dims_ok(self.sys.st(), self.sys.dv(), self.sys.strg(), self.sys.rhs())
        &&& match self.solver_type {
            SolverTypes::RK23BogackiShampine(c) => c.history.wf(),
            SolverTypes::RK45CashKarp(c) => c.history.wf(),
            _ => true,
        }
    }

    /// A driver over `sys` using `solver_type`, with an empty snapshot
    /// record.
    pub fn new(sys: T, solver_type: SolverTypes<S>, t_report: Vec<S>) -> (r: TimeMarch<S, T>)
        ensures
            r.sys == sys,
            r.solver_type == solver_type,
            r.t_report == t_report,
            r.snapshots@ == Seq::<S>::empty(),
            r.step_limit == usize::MAX,
    {
        TimeMarch { sys, solver_type, t_report, snapshots: Vec::new(), step_limit: usize::MAX }
    }

    /// Advances the system until its time has reached the report time under
    /// the cursor, by clamped steps of the selected method; gives up once
    /// the step cap is exhausted.  Returns whether the report time was
    /// reached: a `false` return means the full step budget was spent, as
    /// the trace clause below records.  Under exact ordered arithmetic, a
    /// fixed method started at or before the report time that reaches it
    /// lands on it exactly; the adaptive methods' landing additionally
    /// depends on the rescale factor staying at or below one on rejected
    /// trials, which is a property of the scalar's fractional power that
    /// [`ScalarOps`] does not promise, so no exactness is claimed of them.
    pub fn solve_step(&mut self) -> (reached: bool)
        requires
            old(self).wf(),
            old(self).sys.idx() < old(self).t_report@.len(),
        ensures
            final(self).wf(),
            final(self).t_report@ == old(self).t_report@,
            final(self).snapshots@ == old(self).snapshots@,
            final(self).step_limit == old(self).step_limit,
            final(self).sys.idx() == old(self).sys.idx(),
            final(self).sys.strg() == old(self).sys.strg(),
            final(self).sys.rhs() == old(self).sys.rhs(),
            is_fixed(final(self).solver_type) == is_fixed(old(self).solver_type),
            reached == !S::spec_lt(
                final(self).sys.tm(),
                old(self).t_report@[old(self).sys.idx()],
            ),
            exists|n: nat|
                reaches(
                    old(self).sys,
                    old(self).solver_type,
                    final(self).sys,
                    final(self).solver_type,
                    old(self).t_report@[old(self).sys.idx()],
                    n,
                ),
            !reached ==> reaches(
                old(self).sys,
                old(self).solver_type,
                final(self).sys,
                final(self).solver_type,
                old(self).t_report@[old(self).sys.idx()],
                old(self).step_limit as nat,
            ),
            exact_ordered::<S>() && is_fixed(old(self).solver_type) && S::spec_le(
                old(self).sys.tm(),
                old(self).t_report@[old(self).sys.idx()],
            ) && reached ==> final(self).sys.tm() == old(self).t_report@[old(self).sys.idx()],
    {
        let ghost s0 = old(self).sys;
        let ghost m0 = old(self).solver_type;
        let ghost rpt0 = old(self).t_report@;
        let ghost snaps0 = old(self).snapshots@;
        let ghost sl0 = old(self).step_limit;
        let idx = self.sys.cursor();
        let target = self.t_report[idx];
        let mut steps_left: usize = self.step_limit;
        let mut reached = false;
        let ghost mut cnt: nat = 0;
        proof {
            assert(reaches(s0, m0, self.sys, self.solver_type, target, 0));
        }
        loop
            invariant_except_break
                self.wf(),
                self.t_report@ == rpt0,
                self.snapshots@ == snaps0,
                self.step_limit == sl0,
                self.sys.idx() == s0.idx(),
                self.sys.strg() == s0.strg(),
                self.sys.rhs() == s0.rhs(),
                is_fixed(self.solver_type) == is_fixed(m0),
                target == rpt0[s0.idx()],
                s0.idx() < rpt0.len(),
                steps_left <= sl0,
                cnt == sl0 - steps_left,
                reaches(s0, m0, self.sys, self.solver_type, target, cnt),
                exact_ordered::<S>() && is_fixed(m0) && S::spec_le(s0.tm(), target)
                    ==> S::spec_le(self.sys.tm(), target),
            ensures
                self.wf(),
                self.t_report@ == rpt0,
                self.snapshots@ == snaps0,
                self.step_limit == sl0,
                self.sys.idx() == s0.idx(),
                self.sys.strg() == s0.strg(),
                self.sys.rhs() == s0.rhs(),
                is_fixed(self.solver_type) == is_fixed(m0),
                reached == !S::spec_lt(self.sys.tm(), target),
                exists|n: nat| reaches(s0, m0, self.sys, self.solver_type, target, n),
                !reached ==> reaches(s0, m0, self.sys, self.solver_type, target, sl0 as nat),
                exact_ordered::<S>() && is_fixed(m0) && S::spec_le(s0.tm(), target)
                    ==> S::spec_le(self.sys.tm(), target),
            decreases steps_left,
        {
            let t_now = self.sys.time();
            if !t_now.lt(target) {
                reached = true;
                break;
            }
            if steps_left == 0 {
                reached = false;
                break;
            }
            steps_left = steps_left - 1;
            let ghost s_pre = self.sys;
            let ghost m_pre = self.solver_type;
            let dt_raw = target.sub(t_now);
            match &mut self.solver_type {
                SolverTypes::EulerFixed { dt } => {
                    let d = min_val(dt_raw, *dt);
                    euler(&mut self.sys, &d);
                },
                SolverTypes::HeunsMethod { dt } => {
                    let d = min_val(dt_raw, *dt);
                    heun(&mut self.sys, &d);
                },
                SolverTypes::MidpointMethod { dt } => {
                    let d = min_val(dt_raw, *dt);
                    midpoint(&mut self.sys, &d);
                },
                SolverTypes::RalstonsMethod { dt } => {
                    let d = min_val(dt_raw, *dt);
                    ralston(&mut self.sys, &d);
                },
                SolverTypes::RK4Fixed { dt } => {
                    let d = min_val(dt_raw, *dt);
                    rk4fixed(&mut self.sys, &d);
                },
                SolverTypes::RK23BogackiShampine(cfg) => {
                    adaptive_march(PairKind::BogackiShampine, &mut self.sys, cfg, &dt_raw);
                },
                SolverTypes::RK45CashKarp(cfg) => {
                    adaptive_march(PairKind::CashKarp, &mut self.sys, cfg, &dt_raw);
                },
            }
            proof {
                assert(march_rel(s_pre, m_pre, self.sys, self.solver_type, target));
                assert(reaches(s0, m0, self.sys, self.solver_type, target, cnt + 1));
                cnt = cnt + 1;
                lemma_fixed_step_stays_at_or_below(
                    s_pre,
                    m_pre,
                    self.sys,
                    self.solver_type,
                    target,
                );
            }
        }
        proof {
            if exact_ordered::<S>() && is_fixed(m0) && S::spec_le(s0.tm(), target) && reached {
                assert(S::spec_le(self.sys.tm(), target));
                assert(S::spec_le(target, self.sys.tm()));
                assert(self.sys.tm() == target);
            }
        }
        reached
    }

    /// Runs `solve_step` over the whole report-time schedule: one pass per
    /// scheduled entry, each advancing the cursor, committing one model
    /// history snapshot and recording the snapshot time.  Returns whether
    /// every processed report time was reached within the step cap: a run
    /// that starts at or past the final entry, or past the schedule, has
    /// nothing to do and reports completion; a completed run that
    /// processed anything ends with its time at or past the last processed
    /// entry.  Under exact ordered arithmetic, a completed fixed-method
    /// run over a non-decreasing schedule whose final entry is not
    /// repeated records exactly the remaining schedule entries as its
    /// snapshot times and ends on the final entry; the adaptive methods'
    /// exactness is not claimed, for the reason given on `solve_step`.
    pub fn walk(&mut self) -> (done: bool)
        requires
            old(self).wf(),
            old(self).t_report@.len() >= 1,
        ensures
            final(self).wf(),
            final(self).t_report@ == old(self).t_report@,
            final(self).step_limit == old(self).step_limit,
            is_fixed(final(self).solver_type) == is_fixed(old(self).solver_type),
            final(self).sys.idx() >= old(self).sys.idx(),
            final(self).snapshots@.len() == old(self).snapshots@.len() + final(self).sys.idx()
                - old(self).sys.idx(),
            old(self).snapshots@.is_prefix_of(final(self).snapshots@),
            final(self).sys.idx() >= old(self).t_report@.len() || !S::spec_lt(
                final(self).sys.tm(),
                old(self).t_report@[old(self).t_report@.len() - 1],
            ),
            done ==> final(self).sys.idx() == old(self).sys.idx() || !S::spec_lt(
                final(self).sys.tm(),
                old(self).t_report@[final(self).sys.idx() - 1],
            ),
            !S::spec_lt(
                old(self).sys.tm(),
                old(self).t_report@[old(self).t_report@.len() - 1],
            ) ==> done && final(self).sys.idx() == old(self).sys.idx() && final(self).sys.tm()
                == old(self).sys.tm(),
            old(self).sys.idx() >= old(self).t_report@.len() ==> done && final(self).sys.tm()
                == old(self).sys.tm(),
            ({
                let rpt = old(self).t_report@;
                let i0 = old(self).sys.idx();
                let tm0 = old(self).sys.tm();
                let last = rpt[rpt.len() - 1];
                exact_ordered::<S>() && is_fixed(old(self).solver_type)
                    && nondecreasing(rpt) && final_entry_strict(rpt) && 0 <= i0 < rpt.len() && S::spec_le(tm0, rpt[i0])
                    && S::spec_lt(tm0, last) && done ==> {
                    &&& final(self).sys.idx() == rpt.len()
                    &&& final(self).sys.tm() == last
                    &&& final(self).snapshots@ == old(self).snapshots@ + rpt.skip(i0)
                }
            }),
    {
        let ghost rpt = old(self).t_report@;
        let ghost i0 = old(self).sys.idx();
        let ghost tm0 = old(self).sys.tm();
        let ghost snaps0 = old(self).snapshots@;
        let ghost m0 = old(self).solver_type;
        let ghost sl0 = old(self).step_limit;
        let last = self.t_report[self.t_report.len() - 1];
        let ghost lastg = last;
        let mut done = true;
        proof {
            if 0 <= i0 <= rpt.len() {
                assert(snaps0 + rpt.subrange(i0, i0) =~= snaps0);
            }
        }
        loop
            invariant_except_break
                self.wf(),
                self.t_report@ == rpt,
                self.step_limit == sl0,
                is_fixed(self.solver_type) == is_fixed(m0),
                rpt.len() >= 1,
                self.sys.idx() <= rpt.len() || self.sys.idx() == i0,
                lastg == rpt[rpt.len() - 1],
                last == lastg,
                self.sys.idx() >= i0,
                self.snapshots@.len() == snaps0.len() + self.sys.idx() - i0,
                snaps0.is_prefix_of(self.snapshots@),
                done ==> self.sys.idx() == i0 || !S::spec_lt(
                    self.sys.tm(),
                    rpt[self.sys.idx() - 1],
                ),
                !S::spec_lt(tm0, lastg) ==> done && self.sys.idx() == i0 && self.sys.tm() == tm0,
                i0 >= rpt.len() ==> done && self.sys.idx() == i0 && self.sys.tm() == tm0,
                exact_ordered::<S>() && is_fixed(m0) && nondecreasing(rpt) && final_entry_strict(rpt)
                    && 0 <= i0 < rpt.len() && S::spec_le(tm0, rpt[i0]) && S::spec_lt(tm0, lastg)
                    && done ==> {
                    &&& i0 <= self.sys.idx() <= rpt.len()
                    &&& self.snapshots@ == snaps0 + rpt.subrange(i0, self.sys.idx())
                    &&& (self.sys.idx() == i0 ==> self.sys.tm() == tm0)
                    &&& (self.sys.idx() > i0 ==> self.sys.tm() == rpt[self.sys.idx() - 1])
                },
            ensures
                self.wf(),
                self.t_report@ == rpt,
                self.step_limit == sl0,
                is_fixed(self.solver_type) == is_fixed(m0),
                self.sys.idx() >= i0,
                self.snapshots@.len() == snaps0.len() + self.sys.idx() - i0,
                snaps0.is_prefix_of(self.snapshots@),
                self.sys.idx() >= rpt.len() || !S::spec_lt(self.sys.tm(), lastg),
                done ==> self.sys.idx() == i0 || !S::spec_lt(
                    self.sys.tm(),
                    rpt[self.sys.idx() - 1],
                ),
                !S::spec_lt(tm0, lastg) ==> done && self.sys.idx() == i0 && self.sys.tm() == tm0,
                i0 >= rpt.len() ==> done && self.sys.idx() == i0 && self.sys.tm() == tm0,
                exact_ordered::<S>() && is_fixed(m0) && nondecreasing(rpt) && final_entry_strict(rpt)
                    && 0 <= i0 < rpt.len() && S::spec_le(tm0, rpt[i0]) && S::spec_lt(tm0, lastg)
                    && done ==> {
                    &&& i0 <= self.sys.idx() <= rpt.len()
                    &&& self.snapshots@ == snaps0 + rpt.subrange(i0, self.sys.idx())
                    &&& (self.sys.idx() == i0 ==> self.sys.tm() == tm0)
                    &&& (self.sys.idx() > i0 ==> self.sys.tm() == rpt[self.sys.idx() - 1])
                },
            decreases rpt.len() - self.sys.idx(),
        {
            let i = self.sys.cursor();
            if i >= self.t_report.len() {
                break;
            }
            let t_now = self.sys.time();
            if !t_now.lt(last) {
                break;
            }
            let ghost idx_pre = self.sys.idx();
            let ghost tm_pre = self.sys.tm();
            proof {
                if exact_ordered::<S>() && is_fixed(m0) && nondecreasing(rpt) && final_entry_strict(rpt)
                    && 0 <= i0 < rpt.len() && S::spec_le(tm0, rpt[i0]) && S::spec_lt(tm0, lastg)
                    && done && idx_pre > i0 {
                    assert(S::spec_le(rpt[idx_pre - 1], rpt[idx_pre]));
                    assert(S::spec_le(tm_pre, rpt[idx_pre]));
                }
            }
            let r = self.solve_step();
            done = done && r;
            self.sys.set_cursor(i + 1);
            self.sys.save_state();
            let t_snap = self.sys.time();
            self.snapshots.push(t_snap);
            proof {
                if exact_ordered::<S>() && is_fixed(m0) && nondecreasing(rpt) && final_entry_strict(rpt)
                    && 0 <= i0 < rpt.len() && S::spec_le(tm0, rpt[i0]) && S::spec_lt(tm0, lastg)
                    && done {
                    assert(self.sys.tm() == rpt[idx_pre]);
                    assert(self.snapshots@ =~= snaps0 + rpt.subrange(i0, self.sys.idx()));
                }
            }
        }
        proof {
            if exact_ordered::<S>() && is_fixed(m0) && nondecreasing(rpt) && final_entry_strict(rpt)
                && 0 <= i0 < rpt.len() && S::spec_le(tm0, rpt[i0]) && S::spec_lt(tm0, lastg)
                && done {
                if self.sys.idx() < rpt.len() {
                    if self.sys.idx() == i0 {
                        assert(S::spec_lt(tm0, lastg));
                        assert(false);
                    } else {
                        assert(self.sys.tm() == rpt[self.sys.idx() - 1]);
                        assert(S::spec_lt(rpt[self.sys.idx() - 1], rpt[rpt.len() - 1]));
                        assert(false);
                    }
                }
                assert(self.sys.idx() == rpt.len());
                assert(self.snapshots@ =~= snaps0 + rpt.skip(i0));
                assert(self.sys.tm() == rpt[rpt.len() - 1]);
            }
        }
        done
    }
}

/// Under exact ordered arithmetic, one clamped fixed step taken strictly
/// before the report time never moves time past it.
proof fn lemma_fixed_step_stays_at_or_below<S: ScalarOps, T: SolverBase<S>>(
    s0: T,
    m0: SolverTypes<S>,
    s1: T,
    m1: SolverTypes<S>,
    target: S,
)
    requires
        march_rel(s0, m0, s1, m1, target),
    ensures
        exact_ordered::<S>() && is_fixed(m0) && S::spec_le(s0.tm(), target) ==> S::spec_le(
            s1.tm(),
            target,
        ),
{
    if exact_ordered::<S>() && is_fixed(m0) && S::spec_le(s0.tm(), target) {
        match m0 {
            SolverTypes::EulerFixed { dt } => lemma_clamped_add(s0.tm(), target, dt),
            SolverTypes::HeunsMethod { dt } => lemma_clamped_add(s0.tm(), target, dt),
            SolverTypes::MidpointMethod { dt } => lemma_clamped_add(s0.tm(), target, dt),
            SolverTypes::RalstonsMethod { dt } => lemma_clamped_add(s0.tm(), target, dt),
            SolverTypes::RK4Fixed { dt } => lemma_clamped_add(s0.tm(), target, dt),
            SolverTypes::RK23BogackiShampine(..) => {},
            SolverTypes::RK45CashKarp(..) => {},
        }
    }
}

/// Under exact ordered arithmetic, adding the remaining distance clamped
/// to a step size never moves time past the target.
proof fn lemma_clamped_add<S: ScalarOps>(t0: S, target: S, dtf: S)
    requires
        exact_ordered::<S>(),
        S::spec_le(t0, target),
    ensures
        S::spec_le(S::spec_add(t0, spec_min(S::spec_sub(target, t0), dtf)), target),
{
    let raw = S::spec_sub(target, t0);
    let de = spec_min(raw, dtf);
    if S::spec_le(raw, dtf) {
        assert(de == raw);
        assert(S::spec_le(de, raw));
    } else {
        assert(de == dtf);
        assert(S::spec_le(dtf, raw));
    }
    assert(S::spec_le(S::spec_add(t0, de), S::spec_add(t0, raw)));
    assert(S::spec_add(t0, S::spec_sub(target, t0)) == target);
}

} // verus!
