use vstd::prelude::*;
use std::collections::VecDeque;
use crate::tier::ConnectionStatus;

verus! {

/// How long a sample is kept, in milliseconds (ten minutes).
pub const HISTORY_WINDOW_MS: u64 = 600_000;

/// One probe outcome: the time in milliseconds and its tier.
pub type Sample = (u64, ConnectionStatus);

/// Timestamps never decrease from front to back.
pub open spec fn time_ordered(s: Seq<Sample>) -> bool {
    forall|i: int, j: int| 0 <= i <= j < s.len() ==> s[i].0 <= s[j].0
}

/// Drops samples from the front for as long as the front one is older than `cutoff`.
pub open spec fn evict_before(s: Seq<Sample>, cutoff: int) -> Seq<Sample>
    decreases s.len(),
{
    if s.len() > 0 && (s[0].0 as int) < cutoff {
        evict_before(s.drop_first(), cutoff)
    } else {
        s
    }
}

/// The buffer after appending `(now, status)` to `s` and evicting what has
/// fallen out of the retention window.
pub open spec fn appended(s: Seq<Sample>, now: u64, status: ConnectionStatus) -> Seq<Sample> {
    evict_before(s.push((now, status)), now - HISTORY_WINDOW_MS)
}

/// What eviction leaves is a suffix of its input whose front is not stale.
pub proof fn lemma_evict_suffix(s: Seq<Sample>, cutoff: int)
    ensures
        exists|k: int|
            0 <= k <= s.len() && #[trigger] evict_before(s, cutoff) == s.subrange(k, s.len() as int)
                && forall|i: int| 0 <= i < k ==> (#[trigger] s[i].0 as int) < cutoff,
        evict_before(s, cutoff).len() > 0 ==> evict_before(s, cutoff)[0].0 >= cutoff,
    decreases s.len(),
{
    if s.len() > 0 && (s[0].0 as int) < cutoff {
        lemma_evict_suffix(s.drop_first(), cutoff);
        let k = choose|k: int|
            0 <= k <= s.drop_first().len() && #[trigger] evict_before(s.drop_first(), cutoff)
                == s.drop_first().subrange(k, s.drop_first().len() as int) && forall|i: int|
                0 <= i < k ==> (#[trigger] s.drop_first()[i].0 as int) < cutoff;
        assert(s.drop_first().subrange(k, s.drop_first().len() as int) =~= s.subrange(
            k + 1,
            s.len() as int,
        ));
        assert forall|i: int| 0 <= i < k + 1 implies (#[trigger] s[i].0 as int) < cutoff by {
            if i > 0 {
                assert(s[i] == s.drop_first()[i - 1]);
            }
        }
    } else {
        assert(s.subrange(0, s.len() as int) =~= s);
    }
}

/// After an append at time `now` to a time-ordered buffer whose samples are
/// no later than `now`, every remaining sample is at most one retention window
/// old, the buffer is still time-ordered, and the new sample is its last.
pub proof fn lemma_append_keeps_window(s: Seq<Sample>, now: u64, status: ConnectionStatus)
    requires
        time_ordered(s),
        forall|i: int| 0 <= i < s.len() ==> #[trigger] s[i].0 <= now,
    ensures
        forall|i: int|
            0 <= i < appended(s, now, status).len() ==> #[trigger] appended(s, now, status)[i].0
                >= now - HISTORY_WINDOW_MS,
        time_ordered(appended(s, now, status)),
        appended(s, now, status).len() > 0,
        appended(s, now, status).last() == (now, status),
{
    let pushed = s.push((now, status));
    let cutoff: int = now - HISTORY_WINDOW_MS;
    assert(time_ordered(pushed)) by {
        assert forall|i: int, j: int| 0 <= i <= j < pushed.len() implies pushed[i].0
            <= pushed[j].0 by {
            if j == s.len() {
                if i < s.len() {
                    assert(pushed[i] == s[i]);
                }
            } else {
                assert(pushed[i] == s[i] && pushed[j] == s[j]);
            }
        }
    }
    lemma_evict_suffix(pushed, cutoff);
    let r = evict_before(pushed, cutoff);
    let k = choose|k: int|
        0 <= k <= pushed.len() && #[trigger] evict_before(pushed, cutoff) == pushed.subrange(
            k,
            pushed.len() as int,
        ) && forall|i: int| 0 <= i < k ==> (#[trigger] pushed[i].0 as int) < cutoff;
    if k == pushed.len() {
        let last = pushed.len() - 1;
        assert((pushed[last].0 as int) < cutoff);
    }
    assert(r.len() > 0);
    assert forall|i: int| 0 <= i < r.len() implies #[trigger] r[i].0 >= cutoff by {
        assert(r[i] == pushed[k + i] && r[0] == pushed[k]);
    }
    assert(r.last() == pushed.last());
}

/// Appends a sample taken at `now` and then evicts from the front every sample
/// older than `now` minus the retention window.
pub fn record_sample(history: &mut VecDeque<Sample>, now: u64, status: ConnectionStatus)
    ensures
        final(history)@ == appended(old(history)@, now, status),
{
    history.push_back((now, status));
    let ghost pushed = old(history)@.push((now, status));
    let ghost cutoff: int = now - HISTORY_WINDOW_MS;
    let stale_below: u64 = if now >= HISTORY_WINDOW_MS { now - HISTORY_WINDOW_MS } else { 0 };
    while history.len() > 0
        invariant
            evict_before(history@, cutoff) == evict_before(pushed, cutoff),
            stale_below as int == if cutoff > 0 { cutoff } else { 0 },
        ensures
            evict_before(history@, cutoff) == history@,
        decreases history@.len(),
    {
        if history[0].0 < stale_below {
            history.pop_front();
        } else {
            break;
        }
    }
}

/// An independent copy of the buffer's samples, in order, to hand to another task.
pub fn snapshot(history: &VecDeque<Sample>) -> (r: VecDeque<Sample>)
    ensures
        r@ == history@,
{
    let mut copy: VecDeque<Sample> = VecDeque::new();
    let mut i: usize = 0;
    while i < history.len()
        invariant
            i <= history@.len(),
            copy@ == history@.take(i as int),
        decreases history@.len() - i,
    {
        copy.push_back(history[i]);
        i = i + 1;
        assert(copy@ =~= history@.take(i as int));
    }
    assert(copy@ =~= history@);
    copy
}

} // verus!
