//! Compartmental pharmacokinetic simulation support.
//!
//! A simulation run integrates a system of ordinary differential equations
//! describing mass transfer between body compartments.  The numerical
//! integration itself is floating-point work performed by an external
//! stiff-ODE solver; this crate holds everything around it that can be
//! stated and proved exactly:
//!
//! - the model tables (parameter and compartment descriptors with their
//!   defaults, units and the fixed compartment index order),
//! - resolution of a caller-supplied parameter record against a model
//!   (required-field checking, defaulting, initial-state overrides),
//! - the run trace: the state machine that accepts or refuses each step
//!   the solver reports, and keeps the sample times strictly increasing,
//!   finite, starting at the initial time and ending exactly at the
//!   requested stop time,
//! - assembly of the recorded trajectory into the per-compartment output
//!   series, index-aligned with the time array.
//!
//! Scalar values are carried as IEEE-754 binary64 bit patterns (`u64`),
//! which lets the crate decide finiteness, sign and the ordering of
//! sample times exactly; the driver converts at the boundary.

pub mod model;
pub mod output;
pub mod params;
pub mod run;
pub mod scalar;

pub mod euromix;
pub mod pbpk_bpa;
pub mod talinolol;
pub mod zake2021;
