//! Resilient telemetry delivery pipeline for an air-quality monitoring node.
//!
//! The crate verifies the logic that turns unreliable network and sensor
//! conditions into a steady stream of best-effort telemetry: the network
//! readiness gate, the service resolver's acceptance rule, the retrying
//! publish state machine, the all-or-nothing sensor polling cycle, and the
//! codec that renders discovery and state messages.

pub mod numfmt;
pub mod readiness;
pub mod mdns;
pub mod mqtt;
pub mod home_assistant;
pub mod orchestrator;
