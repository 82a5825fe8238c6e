use vstd::prelude::*;

verus! {

/// Latencies below this many microseconds are rated `Good` (50 ms).
pub const GOOD_BELOW_US: u64 = 50_000;

/// Latencies below this many microseconds are at worst `Fair` (150 ms).
pub const FAIR_BELOW_US: u64 = 150_000;

/// Latencies below this many microseconds are at worst `Poor` (500 ms).
pub const POOR_BELOW_US: u64 = 500_000;

/// Severity tier of one probe result.
#[derive(Clone, Copy, Debug, PartialEq, Eq, Structural)]
pub enum ConnectionStatus {
    Good,
    Fair,
    Poor,
    Timeout,
}

/// The tier that a probe result belongs to; `None` is a failed probe.
/// Latencies are in microseconds.
pub open spec fn tier_of(latency: Option<u64>) -> ConnectionStatus {
    match latency {
        Some(us) => if us < GOOD_BELOW_US {
            ConnectionStatus::Good
        } else if us < FAIR_BELOW_US {
            ConnectionStatus::Fair
        } else if us < POOR_BELOW_US {
            ConnectionStatus::Poor
        } else {
            ConnectionStatus::Timeout
        },
        None => ConnectionStatus::Timeout,
    }
}

/// The glyph that stands for a tier on the dashboard and in the graph.
pub open spec fn glyph(s: ConnectionStatus) -> char {
    match s {
        ConnectionStatus::Good => '●',
        ConnectionStatus::Fair => '◐',
        ConnectionStatus::Poor => '◑',
        ConnectionStatus::Timeout => '○',
    }
}

impl ConnectionStatus {
    /// The tier's glyph as a one-character string.
    pub fn symbol(&self) -> (r: &'static str)
        ensures
            r@ == seq![glyph(*self)],
    {
        match self {
            ConnectionStatus::Good => {
                proof {
                    reveal_strlit("●");
                }
                "●"
            },
            ConnectionStatus::Fair => {
                proof {
                    reveal_strlit("◐");
                }
                "◐"
            },
            ConnectionStatus::Poor => {
                proof {
                    reveal_strlit("◑");
                }
                "◑"
            },
            ConnectionStatus::Timeout => {
                proof {
                    reveal_strlit("○");
                }
                "○"
            },
        }
    }
}

/// Rates a probe result: `Some(us)` is a round trip of `us` microseconds,
/// `None` a failed or timed-out probe. Each threshold belongs to the slower tier.
pub fn classify_latency(latency: Option<u64>) -> (r: ConnectionStatus)
    ensures
        r == tier_of(latency),
        r == ConnectionStatus::Good <==> (latency.is_some() && latency.unwrap() < 50_000),
        r == ConnectionStatus::Fair <==> (latency.is_some() && 50_000 <= latency.unwrap() < 150_000),
        r == ConnectionStatus::Poor <==> (latency.is_some() && 150_000 <= latency.unwrap() < 500_000),
        r == ConnectionStatus::Timeout <==> (latency.is_none() || latency.unwrap() >= 500_000),
{
    match latency {
        Some(us) => if us < GOOD_BELOW_US {
            ConnectionStatus::Good
        } else if us < FAIR_BELOW_US {
            ConnectionStatus::Fair
        } else if us < POOR_BELOW_US {
            ConnectionStatus::Poor
        } else {
            ConnectionStatus::Timeout
        },
        None => ConnectionStatus::Timeout,
    }
}

} // verus!
