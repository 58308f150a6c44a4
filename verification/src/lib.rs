//! Supervision of a sidecar server process: finding a server artifact,
//! planning its launch, judging its health and driving the fallback chain
//! from one strategy to the next.
//!
//! The crate decides; it performs no I/O. A host feeds observations in as
//! events and carries out the actions that come back.

pub mod candidate;
pub mod commands;
pub mod failure;
pub mod health;
pub mod launcher;
pub mod readiness;
pub mod supervisor;
pub mod text;
