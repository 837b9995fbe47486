//! Watch events and the reload decision: a reload is triggered if and only
//! if at least one drained event reports a creation operation on a path
//! equal to the watched artifact path.

use vstd::prelude::*;

verus! {

/// The operation a filesystem event reports. Anything that is not exactly
/// a creation (writes, removals, renames, attribute changes, errors) does
/// not trigger a reload: a create event is what follows the final write of
/// a fully rewritten artifact.
pub enum WatchOp {
    Create,
    Other,
}

/// One drained filesystem event: the path it originated from, if the
/// watcher reported one, and the operation observed on it.
pub struct WatchEvent {
    pub path: Option<String>,
    pub op: WatchOp,
}

/// Whether `ev` reports a creation on exactly the path `target`.
pub open spec fn is_create_of(ev: WatchEvent, target: Seq<char>) -> bool {
    &&& ev.path is Some
    &&& ev.path->Some_0@ == target
    &&& ev.op is Create
}

/// Whether a batch of drained events contains at least one creation of
/// `target`.
pub open spec fn triggers_reload(events: Seq<WatchEvent>, target: Seq<char>) -> bool {
    exists|k: int| 0 <= k < events.len() && is_create_of(events[k], target)
}

/// The reload decision over one drained batch.
pub fn reload_triggered(events: &Vec<WatchEvent>, target: &String) -> (r: bool)
    ensures
        r == triggers_reload(events@, target@),
{
    let mut k: usize = 0;
    let mut found = false;
    while k < events.len()
        invariant
            0 <= k <= events@.len(),
            found == exists|j: int| 0 <= j < k && is_create_of(events@[j], target@),
        decreases events@.len() - k,
    {
        match (&events[k].path, &events[k].op) {
            (Some(p), WatchOp::Create) => {
                if p.eq(target) {
                    found = true;
                    assert(is_create_of(events@[k as int], target@));
                }
            },
            _ => {},
        }
        k = k + 1;
    }
    found
}

} // verus!
