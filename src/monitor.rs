use vstd::prelude::*;
use std::collections::VecDeque;
use crate::history::{appended, record_sample, snapshot, Sample};
use crate::status::ServerStatus;
use crate::tier::{classify_latency, tier_of};

verus! {

/// Pause between two probes of one target, in milliseconds.
pub const POLL_INTERVAL_MS: u64 = 2_000;

/// What a monitor does once its snapshot has been offered to the aggregator.
#[derive(Clone, Copy, Debug, PartialEq, Eq, Structural)]
pub enum MonitorAction {
    /// Wait this many milliseconds, then probe again.
    Sleep(u64),
    /// The aggregator is gone: end the task.
    Stop,
}

/// The decisions of one target's polling task. The task owns its history;
/// each probe result goes through `on_probe`, which hands back a snapshot to
/// send, and the send's outcome through `after_send`.
pub struct Monitor {
    pub name: String,
    pub host: String,
    pub history: VecDeque<Sample>,
}

impl Monitor {
    /// A monitor for one target, with an empty history.
    pub fn new(name: String, host: String) -> (r: Monitor)
        ensures
            r.name == name,
            r.host == host,
            r.history@.len() == 0,
    {
        Monitor { name, host, history: VecDeque::new() }
    }

    /// Classifies a probe result taken at `now` (a latency in microseconds,
    /// `None` for a failed probe), records it in the history and returns the
    /// snapshot to send: a copy of the whole state as of `now`.
    pub fn on_probe(&mut self, latency: Option<u64>, now: u64) -> (snap: ServerStatus)
        ensures
            final(self).name == old(self).name,
            final(self).host == old(self).host,
            final(self).history@ == appended(old(self).history@, now, tier_of(latency)),
            snap.name == old(self).name,
            snap.latency == latency,
            snap.last_update == now,
            snap.status == tier_of(latency),
            snap.history@ == final(self).history@,
    {
        let status = classify_latency(latency);
        record_sample(&mut self.history, now, status);
        let copy = snapshot(&self.history);
        ServerStatus {
            name: self.name.clone(),
            latency,
            last_update: now,
            status,
            history: copy,
        }
    }

    /// The next step once a snapshot has been offered: sleep for the poll
    /// interval if it was delivered, stop if the aggregator has gone away.
    pub fn after_send(&self, delivered: bool) -> (r: MonitorAction)
        ensures
            delivered ==> r == MonitorAction::Sleep(POLL_INTERVAL_MS),
            !delivered ==> r == MonitorAction::Stop,
    {
        if delivered {
            MonitorAction::Sleep(POLL_INTERVAL_MS)
        } else {
            MonitorAction::Stop
        }
    }
}

} // verus!
