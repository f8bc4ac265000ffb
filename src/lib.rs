//! Host compliance checks for a Kubernetes node: shared probe primitives,
//! the individual controls, and the engine that selects, runs and
//! summarises them.

pub mod results;
pub mod probes;
pub mod config;
pub mod checks;
pub mod engine;
