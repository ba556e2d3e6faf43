//! Exact-output checks of the code generators.

use dess::codegen::{
    bare_clone, common_derives, get_state_vals_derive, history_methods_derive,
    history_vec_derive, is_vec, pyo3_api, pyo3_api_cleanup, solver, walk_derive, FieldDef,
};

const ITEM: &str = "pub struct ThermalMassState { pub temp: f64, pub dtemp: f64 }";

#[test]
fn history_vec_output() {
    let out = history_vec_derive(ITEM).unwrap();
    assert_eq!(
        out,
        "pub struct ThermalMassStateHistoryVec { pub temp: Vec<f64>, pub dtemp: Vec<f64>, } \
         impl ThermalMassStateHistoryVec { pub fn new() -> Self { Self { temp: Vec::new(), \
         dtemp: Vec::new(), } } pub fn push(&mut self, state: ThermalMassState) { \
         self.temp.push(state.temp); self.dtemp.push(state.dtemp); } \
         pub fn len(&self) -> usize { self.temp.len() } \
         pub fn is_empty(&self) -> bool { self.len() == 0 } \
         pub fn clear(&mut self) { self.temp.clear(); self.dtemp.clear(); } }"
    );
}

#[test]
fn history_vec_rejects_non_struct() {
    assert!(history_vec_derive("fn nope() {}").is_none());
    assert!(history_vec_derive("pub enum E { A, B }").is_none());
}

#[test]
fn history_methods_output() {
    let item = "pub struct Sys { #[use_state] pub m1: Mass, #[save_state] pub h12: Cond, \
                pub t_report: Vec<f64>, pub state: SysState, pub history: SysHistoryVec }";
    let out = history_methods_derive(item).unwrap();
    assert_eq!(
        out,
        "impl Sys { pub fn save_state(&mut self) { self.history.push(self.state); \
         self.m1.save_state(); self.h12.save_state(); } }"
    );
}

#[test]
fn history_methods_needs_some_state() {
    // neither a `state` field nor any marked field: nothing to save
    assert!(history_methods_derive("pub struct P { pub a: u8 }").is_none());
}

#[test]
fn bare_clone_output() {
    let item = "pub struct Sys { #[use_state] pub m1: Mass, pub t_report: Vec<f64>, \
                pub history: SysHistoryVec }";
    let out = bare_clone(item).unwrap();
    assert_eq!(
        out,
        "impl BareClone for Sys { fn bare_clone(&self) -> Self { let mut new = \
         Self::default(); new.m1 = self.m1.bare_clone(); new.t_report = \
         self.t_report.clone(); new } }"
    );
}

#[test]
fn solver_requires_update_derivs() {
    let item = "pub struct Sys { #[use_state] pub m1: Mass }";
    let attr = "fn update_derivs(&mut self) { self.reset_derivs(); }";
    let out = solver(attr, item).unwrap();
    assert!(out.starts_with(item));
    assert!(out.contains("pub fn states(&self) -> Vec<Scalar>"));
    assert!(out.contains(" states.push(self.m1.state());"));
    assert!(out.contains(" self.m1.set_deriv(zero);"));
    assert!(out.contains("pub fn set_states(&mut self, val: Vec<Scalar>)"));
    assert!(out.contains(" self.m1.set_state(iter.next().unwrap().clone());"));
    assert!(out.contains("pub fn step_states_by_dt(&mut self, dt: &Scalar)"));
    assert!(out.contains(" self.m1.step_state_by_dt(dt); self.step_time(dt); }"));
    assert!(out.contains("pub fn derivs(&self) -> Vec<Scalar>"));
    assert!(out.contains(" derivs.push(self.m1.deriv());"));
    assert!(out.contains("pub fn storages(&self) -> Vec<Scalar>"));
    assert!(out.contains(
        "pub fn step_time(&mut self, dt: &Scalar) { self.state.time = self.state.time.add(*dt); }"
    ));
    // a wrong routine name is refused
    assert!(solver("fn other(&mut self) {}", item).is_none());
    // anything but function definitions is refused
    assert!(solver("const X: u8 = 1;", item).is_none());
}

#[test]
fn pyo3_api_output() {
    let item = "pub struct P { pub a: f64, #[skip_get] pub b: f64 }";
    let out = pyo3_api("", item).unwrap();
    assert!(out.contains(" pub fn get_a(&self) -> f64 { self.a.clone() }"));
    assert!(!out.contains("get_b"));
    assert!(out.contains("pub fn default_py() -> Self { Self::default() }"));
    // reserved names are refused
    assert!(pyo3_api("fn default() {}", item).is_none());
}

#[test]
fn walk_and_state_vals_output() {
    let item = "pub struct Sys { #[use_state] pub m1: Mass, pub other: u8 }";
    let w = walk_derive(item).unwrap();
    assert!(w.contains(
        "pub fn walk(&mut self, end_time: Scalar) { self.save_state(); \
         while self.state.time.lt(end_time) { self.solve_step(); } }"
    ));
    assert!(w.contains("pub fn solve_step(&mut self)"));
    assert!(w.contains("SolverOptions::FixedEuler { dt }"));
    assert!(w.contains(" derivs.push(self.m1.deriv());"));
    assert!(w.contains(" states.push(self.m1.state());"));
    assert!(!w.contains("self.other.state()"));
    let g = get_state_vals_derive(item).unwrap();
    assert!(g.contains("pub fn get_state_vals(&self) -> Vec<Scalar>"));
}

#[test]
fn common_derives_prefixes() {
    let out = common_derives("pub struct P;");
    assert_eq!(
        out,
        "#[derive(Debug, Default, Clone, PartialEq, PartialOrd, Serialize, Deserialize)] \
         pub struct P;"
    );
}

#[test]
fn cleanup_generates_nothing() {
    assert_eq!(pyo3_api_cleanup("anything"), "");
}

fn field_of_ty(ty: &str) -> FieldDef {
    FieldDef {
        name: String::from("x"),
        ty: String::from(ty),
        save_state: false,
        use_state: false,
        skip_get: false,
    }
}

#[test]
fn is_vec_checks_type_text() {
    // the type text is token text: a space separates `Vec` from `<`
    assert!(is_vec(&field_of_ty("Vec < f64 >")));
    assert!(is_vec(&field_of_ty("Vec")));
    assert!(!is_vec(&field_of_ty("f64")));
    assert!(!is_vec(&field_of_ty("VecDeque < u8 >")));
    assert!(!is_vec(&field_of_ty("Vector3 < f64 >")));
    assert!(!is_vec(&field_of_ty("std :: vec :: Vec < u8 >")));
}
