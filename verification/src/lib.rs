//! A time-domain integration engine for first-order ODE systems arising from
//! lumped-parameter physical models, together with the small code-generation
//! helpers that the modelling layer uses to build such systems.
//!
//! The stepping methods, the embedded adaptive pairs, the step-size controller
//! and the time-march driver are generic over a scalar type described by
//! [`scalar::ScalarOps`]; every contract is stated over the spec-level
//! operations of that trait, so the algebraic shape of each method is pinned
//! exactly.  An exact rational scalar, [`rat::Rat`], instantiates the trait
//! inside the crate; machine floating point can instantiate it outside.
//!
//! [`system::SolverBase`] is the capability contract a physical model must
//! satisfy; [`system3tm::System3TM`] is a worked three-mass model proved
//! against it.  [`driver::TimeMarch`] runs a model over a report-time
//! schedule.  [`codegen`] holds the derive-style text generators the
//! modelling layer uses to cut boilerplate.

pub mod scalar;
pub mod rat;
pub mod vecops;
pub mod system;
pub mod solver_types;
pub mod methods;
pub mod adaptive;
pub mod driver;
pub mod components;
pub mod system3tm;
pub mod codegen;
