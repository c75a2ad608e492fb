//! Core of a small telemetry-and-algorithms network service.
//!
//! The crate holds the verified heart of the service: the closed registry of
//! algorithm identifiers, the two-stage request-envelope decoder and
//! dispatcher, the versioned telemetry snapshot that a background sampler
//! refreshes, the per-connection broadcast step logic, and the connection
//! counters. The network edge (HTTP routing, WebSocket upgrades, the OS
//! telemetry reads) lives outside and hands this crate plain values.

pub mod broadcast;
pub mod counter;
pub mod dispatch;
pub mod json;
pub mod registry;
pub mod telemetry;
pub mod text;

pub use registry::Algorithm;
pub use registry::AlgorithmType;
