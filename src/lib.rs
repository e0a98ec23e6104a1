//! A latency monitor engine: a bounded window of probe samples with running
//! counters, a debounced threshold trigger for diagnostic logs, the log text
//! renderer, and the start/stop/clear/export control surface.
pub mod clock;
pub mod laws;
pub mod monitor;
pub mod render;
pub mod store;
