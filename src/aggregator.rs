use vstd::prelude::*;
use crate::status::ServerStatus;

verus! {

/// The display state for a list of targets, each unprobed as of `now`, in
/// the order given.
pub fn initial_statuses(targets: &Vec<(&str, &str)>, now: u64) -> (r: Vec<ServerStatus>)
    ensures
        r@.len() == targets@.len(),
        forall|i: int|
            0 <= i < r@.len() ==> {
                &&& (#[trigger] r@[i]).name@ == targets@[i].0@
                &&& r@[i].latency is None
                &&& r@[i].last_update == now
                &&& r@[i].status == crate::tier::ConnectionStatus::Timeout
                &&& r@[i].history@.len() == 0
            },
{
    let mut r: Vec<ServerStatus> = Vec::new();
    let mut i: usize = 0;
    while i < targets.len()
        invariant
            i <= targets@.len(),
            r@.len() == i,
            forall|k: int|
                0 <= k < i ==> {
                    &&& (#[trigger] r@[k]).name@ == targets@[k].0@
                    &&& r@[k].latency is None
                    &&& r@[k].last_update == now
                    &&& r@[k].status == crate::tier::ConnectionStatus::Timeout
                    &&& r@[k].history@.len() == 0
                },
        decreases targets@.len() - i,
    {
        let name = targets[i].0.to_owned();
        r.push(ServerStatus::unprobed(name, now));
        i = i + 1;
    }
    r
}

/// Replaces, whole, the first entry of `statuses` whose name is the
/// update's, and returns its index; an update that names no entry is dropped
/// and `None` returned.
pub fn apply_update(statuses: &mut Vec<ServerStatus>, update: ServerStatus) -> (r: Option<usize>)
    ensures
        match r {
            Some(i) => {
                &&& i < old(statuses)@.len()
                &&& old(statuses)@[i as int].name@ == update.name@
                &&& forall|k: int| 0 <= k < i ==> (#[trigger] old(statuses)@[k]).name@ != update.name@
                &&& final(statuses)@ == old(statuses)@.update(i as int, update)
            },
            None => {
                &&& forall|k: int|
                    0 <= k < old(statuses)@.len() ==> (#[trigger] old(statuses)@[k]).name@
                        != update.name@
                &&& final(statuses)@ == old(statuses)@
            },
        },
{
    let mut i: usize = 0;
    while i < statuses.len()
        invariant
            i <= statuses@.len(),
            statuses@ == old(statuses)@,
            forall|k: int| 0 <= k < i ==> (#[trigger] statuses@[k]).name@ != update.name@,
        decreases statuses@.len() - i,
    {
        if statuses[i].name == update.name {
            statuses.set(i, update);
            return Some(i);
        }
        i = i + 1;
    }
    None
}

} // verus!
