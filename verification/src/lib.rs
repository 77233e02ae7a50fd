//! A flight-control state machine for a single vehicle. The vehicle must
//! never accept a command that is illegal for its current phase of flight:
//! moving before takeoff, landing twice, or landing while in motion.
//!
//! The crate offers the same transition function under two enforcement
//! strategies, both verified against the one model in [`model`]:
//!
//! * [`machine`] — dynamic enforcement: the state is a runtime tag, every
//!   operation checks it and returns a result, and an illegal command is
//!   rejected at the moment it executes, leaving the vehicle unchanged.
//! * [`typestate`] — static enforcement: the state is encoded in the
//!   vehicle's type, each operation exists only on the type representing
//!   the state that permits it, and an illegal command does not compile.

pub mod machine;
pub mod model;
mod sealed;
pub mod typestate;
