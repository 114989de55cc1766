//! A fixed-timestep model of a reactor's thermal and power dynamics, the
//! controllers that drive it tick by tick, and the driver that runs them.
//!
//! Every physical quantity is a fixed-point integer in micro-units
//! (`units::ONE` stands for one unit), and time deltas are microseconds.
use vstd::prelude::*;

pub mod controller;
pub mod reactor;
pub mod simulation;
pub mod strategies;
pub mod units;

pub use controller::Controller;
pub use reactor::{Input, Output, Reactor};
pub use simulation::Simulation;

verus! {

} // verus!
