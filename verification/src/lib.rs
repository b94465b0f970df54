//! Core of a live telemetry dashboard for a cognitive-agent process.
//!
//! The library holds the verified pipeline: display formatting, the metrics
//! store with change notification, the streaming client's reconnection state
//! machine, and the keyed rendering plan for the thought feed. The thin
//! browser shell (socket I/O, timers, the view tree) lives outside and drives
//! these functions with plain values.

pub mod client;
pub mod fmt;
pub mod metrics;
pub mod store;
pub mod view;
