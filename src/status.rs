use vstd::prelude::*;
use std::collections::VecDeque;
use crate::history::Sample;
use crate::tier::ConnectionStatus;

verus! {

/// The latest known state of one monitored target, as sent by its monitor and
/// shown on the dashboard. Latency is in microseconds; times are milliseconds.
#[derive(Clone, Debug)]
pub struct ServerStatus {
    pub name: String,
    pub latency: Option<u64>,
    pub last_update: u64,
    pub status: ConnectionStatus,
    pub history: VecDeque<Sample>,
}

impl ServerStatus {
    /// The state of a target that has not been probed yet: no latency,
    /// `Timeout`, an empty history.
    pub fn unprobed(name: String, now: u64) -> (r: ServerStatus)
        ensures
            r.name == name,
            r.latency is None,
            r.last_update == now,
            r.status == ConnectionStatus::Timeout,
            r.history@.len() == 0,
    {
        ServerStatus {
            name,
            latency: None,
            last_update: now,
            status: ConnectionStatus::Timeout,
            history: VecDeque::new(),
        }
    }
}

} // verus!
