//! Bootstrap-and-dispatch layer of a distributed task-execution agent.
//!
//! Given a single configuration document describing what kind of work to
//! run, this library determines the work kind, applies the caller-supplied
//! setup directory, plans the optional inter-process handshake with a parent
//! supervisor, records telemetry context, and drives the bootstrap state
//! machine up to the point where the selected runner takes over.

pub mod bootstrap;
pub mod common;
pub mod config;
pub mod document;
pub mod ids;
pub mod json;
pub mod telemetry;
