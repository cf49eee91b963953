//! Network readiness gate.
//!
//! No network operation may proceed before the link is associated and an
//! address has been configured.  A status snapshot is re-checked at a fixed
//! polling interval, blocking until both signals are observed true at the
//! same poll; the waiting itself is performed by the runtime around the
//! library, which hands each observed snapshot to these functions.

use vstd::prelude::*;

verus! {

/// One observation of the interface driver's state: whether the link is
/// associated and whether an address lease has been configured.
#[derive(Clone, Copy, PartialEq, Eq, Structural, Debug)]
pub struct NetStatus {
    pub link_up: bool,
    pub address_configured: bool,
}

/// Readiness is the conjunction of link association and address
/// configuration.
pub open spec fn spec_ready(s: NetStatus) -> bool {
    s.link_up && s.address_configured
}

/// Decides whether a status snapshot permits network operations.
pub fn is_ready(s: &NetStatus) -> (r: bool)
    ensures
        r == spec_ready(*s),
{
    s.link_up && s.address_configured
}

/// The index of the first poll at which both signals are simultaneously
/// true, if any.
pub open spec fn spec_first_ready(polls: Seq<NetStatus>) -> Option<int>
    decreases polls.len(),
{
    if polls.len() == 0 {
        None
    } else if spec_ready(polls[0]) {
        Some(0int)
    } else {
        match spec_first_ready(polls.drop_first()) {
            Some(i) => Some(i + 1),
            None => None,
        }
    }
}

/// Scans a sequence of observed snapshots: returns the index of the first
/// poll at which readiness holds, and `None` when readiness was never
/// observed — waiting continues rather than failing, so a `None` only means
/// the simulated horizon ended.
pub fn wait_ready(polls: &Vec<NetStatus>) -> (r: Option<usize>)
    ensures
        match r {
            Some(i) => {
                &&& i < polls@.len()
                &&& spec_ready(polls@[i as int])
                &&& forall|j: int| 0 <= j < i ==> !spec_ready(polls@[j])
                &&& spec_first_ready(polls@) == Some(i as int)
            },
            None => {
                &&& forall|j: int| 0 <= j < polls@.len() ==> !spec_ready(polls@[j])
                &&& spec_first_ready(polls@) is None
            },
        },
{
    let mut i: usize = 0;
    while i < polls.len()
        invariant
            i <= polls@.len(),
            forall|j: int| 0 <= j < i ==> !spec_ready(polls@[j]),
        decreases polls@.len() - i,
    {
        if is_ready(&polls[i]) {
            proof {
                lemma_first_ready_at(polls@, i as int);
            }
            return Some(i);
        }
        i = i + 1;
    }
    proof {
        lemma_never_ready(polls@);
    }
    None
}

/// If every poll before `i` is not ready and poll `i` is, then `i` is the
/// first ready index.
proof fn lemma_first_ready_at(polls: Seq<NetStatus>, i: int)
    requires
        0 <= i < polls.len(),
        spec_ready(polls[i]),
        forall|j: int| 0 <= j < i ==> !spec_ready(polls[j]),
    ensures
        spec_first_ready(polls) == Some(i),
    decreases i,
{
    if i == 0 {
    } else {
        lemma_first_ready_at(polls.drop_first(), i - 1);
    }
}

/// If no poll is ready, waiting never ends.
proof fn lemma_never_ready(polls: Seq<NetStatus>)
    requires
        forall|j: int| 0 <= j < polls.len() ==> !spec_ready(polls[j]),
    ensures
        spec_first_ready(polls) is None,
    decreases polls.len(),
{
    if polls.len() > 0 {
        lemma_never_ready(polls.drop_first());
    }
}

} // verus!
