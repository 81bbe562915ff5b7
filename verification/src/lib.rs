//! Verified core of an event ingestion router: validate, queue, batch, sink.

pub mod api;
pub mod batcher;
pub mod circuit_breaker;
pub mod config;
pub mod error;
pub mod models;
pub mod sink;
pub mod sinks;
pub mod text;
