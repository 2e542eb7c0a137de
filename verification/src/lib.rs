//! Height, time and slot resolution for a chain split into an execution
//! layer and a consensus layer.
//!
//! The library decides; it performs no network call. Each operation is a
//! step function: the caller performs the upstream request that a step asks
//! for and hands the upstream's reply to the next step.

pub mod binding;
pub mod error;
pub mod laws;
pub mod protocol;
pub mod query;
pub mod text;
pub mod types;
