//! Batching core of a telemetry ingestion pipeline.
//!
//! Records published by a fleet of devices are accumulated into bounded
//! batches and handed to the store as one column-oriented bulk write per
//! batch. The crate holds the decisions of that pipeline (when a batch is
//! emitted, what a bulk write contains, how faults are absorbed) as verified
//! functions on plain values; the surrounding program performs the waiting,
//! the network traffic and the store round trips.

pub mod columns;
pub mod config;
pub mod decimal;
pub mod error;
pub mod laws;
pub mod scheduler;
pub mod telemetry;
pub mod topics;
