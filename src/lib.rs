//! Verified core of a terminal network-latency monitor: latency classification,
//! time-windowed sample history, graph bucketing and snapshot aggregation.

pub mod tier;
pub mod history;
pub mod graph;
pub mod status;
pub mod aggregator;
pub mod monitor;
pub mod servers;
