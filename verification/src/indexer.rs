//! The indexing loop as a state machine.
//!
//! [`model`] says what the loop does, as a function from a state and an
//! event to the next state. [`machine`] is the value a driver holds and
//! feeds, proved to follow the model. [`laws`] holds what follows for whole
//! runs.

pub mod laws;
pub mod machine;
pub mod model;
