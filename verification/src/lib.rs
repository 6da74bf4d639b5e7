//! A minimal key-value state service core.
//!
//! The library holds the verified heart of a small HTTP key-value service
//! that stores entries either in a remote sidecar-managed state store or,
//! when the sidecar is unreachable at startup, in an in-process map:
//!
//! - [`server`]: the `StateClient` contract that every backend satisfies,
//!   the HTTP-level decision logic for the three CRUD endpoints, and the
//!   laws that relate saves, deletes and reads.
//! - [`memstore`]: the in-memory fallback backend.
//! - [`selector`]: the startup state machine that probes sidecar health
//!   and commits to one backend for the process lifetime.
//! - [`config`]: configuration values and their defaults.
//! - [`telemetry`]: endpoint normalization for the telemetry exporter.
//!
//! The surrounding process (socket handling, the RPC connection to the
//! sidecar, telemetry initialization) lives outside this library and hands
//! it plain values.

pub mod config;
pub mod memstore;
pub mod selector;
pub mod server;
pub mod telemetry;
