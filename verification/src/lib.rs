//! Observation of a single child process: a launch specification, per-stream
//! stdio routing, a monotonic timing bracket around the wait, and a two-kind
//! error taxonomy for spawn and join failures.
//!
//! The modules hold the verified core. Spawning, waiting and reading the
//! clock are operating-system work that a thin front end performs; it hands
//! the recorded events to this library, which forms the outcome and the
//! report text under contract.

pub mod numerals;
pub mod observer;
pub mod report;
pub mod types;
