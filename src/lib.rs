//! Core of a small two-dimensional gravitational N-body simulator.
//!
//! The library holds the parts of the simulation that decide *when*, *in
//! what order* and *between whom* work happens:
//! - [`scheduler`]: the fixed-timestep scheduler, which turns measured frame
//!   durations into a whole number of simulation steps;
//! - [`integrator`]: the batched step, in which every body's next state is
//!   computed from the complete pre-step set before any body changes;
//! - [`interaction`]: the gravitational partners of each body, which never
//!   include the body itself.
//!
//! The per-pair force law works on floating-point vectors and is supplied by
//! the caller as the rule for one body's next state.
pub mod integrator;
pub mod interaction;
pub mod scheduler;
