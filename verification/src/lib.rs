//! An in-memory key-value store with request handlers and
//! byte-volume / latency instrumentation.
//!
//! [`store::Store`] is the mapping itself; [`metrics::Recorder`] accumulates
//! per-flow byte counters and duration samples; [`handlers`] turns a routed
//! request into store and recorder calls and a response body.

pub mod handlers;
pub mod laws;
pub mod metrics;
mod prom;
pub mod store;
