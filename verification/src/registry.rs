//! Work registry and solution classification. The registry stores, keyed by
//! the hardware-assigned work identifier, every work item still in flight,
//! together with the (nonce, midstate index) pairs already accepted for it.
//! Classification of a retrieved solution against that store is exhaustive
//! and mutually exclusive: exactly one of unique, duplicate, stale or
//! mismatched holds.

use vstd::prelude::*;

use std::collections::HashMap;

use crate::hal::MiningWork;
use crate::hal::MiningWorkSolution;
use crate::hal::work_matches;

verus! {

broadcast use vstd::std_specs::hash::group_hash_axioms;

/// The four classes a retrieved solution can fall into.
#[derive(Clone, Copy, Debug, PartialEq, Eq, Structural)]
pub enum SolutionClass {
    /// First time this (work, nonce, midstate) result was seen: counted and
    /// emitted upstream.
    Unique,
    /// Already reported for the same work item: counted and discarded.
    Duplicate,
    /// The originating work was superseded and purged before the solution
    /// arrived: counted and discarded.
    Stale,
    /// The midstate index is no valid lane of the originating work: counted,
    /// discarded, and worth escalating if it recurs.
    Mismatched,
}

/// One work item as the hardware knows it: the work itself plus every
/// (nonce, midstate index) pair already accepted for it.
pub struct RegisteredWork {
    pub work: MiningWork,
    pub seen: Vec<(u32, usize)>,
}

/// Whether a (nonce, midstate index) pair was already accepted.
pub open spec fn seen_contains(seen: Seq<(u32, usize)>, nonce: u32, midstate_idx: usize) -> bool {
    exists|i: int| 0 <= i < seen.len() && seen[i] == (nonce, midstate_idx)
}

/// The classification rule of the controller, over the registry contents.
/// The order of the tests makes the four classes mutually exclusive and
/// exhaustive.
pub open spec fn classify(
    works: Map<u32, RegisteredWork>,
    work_id: u32,
    solution: MiningWorkSolution,
) -> SolutionClass {
    if !works.contains_key(work_id) {
        SolutionClass::Stale
    } else if solution.midstate_idx >= works[work_id].work.midstates@.len() {
        SolutionClass::Mismatched
    } else if seen_contains(works[work_id].seen@, solution.nonce, solution.midstate_idx) {
        SolutionClass::Duplicate
    } else {
        SolutionClass::Unique
    }
}

/// In-flight work items of one hash chain, keyed by the identifier the
/// hardware driver assigned when the work was sent.
pub struct WorkRegistry {
    works: HashMap<u32, RegisteredWork>,
}

impl View for WorkRegistry {
    type V = Map<u32, RegisteredWork>;

    closed spec fn view(&self) -> Map<u32, RegisteredWork> {
        self.works@
    }
}

impl WorkRegistry {
    pub fn new() -> (r: Self)
        ensures
            r@ == Map::<u32, RegisteredWork>::empty(),
    {
        WorkRegistry { works: HashMap::new() }
    }

    /// How many work items are currently in flight.
    pub fn len(&self) -> (r: usize)
        ensures
            r == self@.len(),
    {
        self.works.len()
    }

    /// Stores a freshly sent work item under the identifier the driver
    /// returned for it. Re-using an identifier supersedes the work stored
    /// under it.
    pub fn register(&mut self, work_id: u32, work: MiningWork)
        ensures
            final(self)@.dom() == old(self)@.dom().insert(work_id),
            final(self)@[work_id].work == work,
            final(self)@[work_id].seen@ == Seq::<(u32, usize)>::empty(),
            forall|k: u32|
                k != work_id && old(self)@.contains_key(k) ==> final(self)@[k] == old(self)@[k],
    {
        let entry = RegisteredWork { work, seen: Vec::new() };
        self.works.insert(work_id, entry);
        proof {
            assert(self@.dom() =~= old(self)@.dom().insert(work_id));
        }
    }

    /// Purges a superseded work item; solutions that still name it will be
    /// classified stale from now on.
    pub fn retire(&mut self, work_id: u32)
        ensures
            final(self)@ == old(self)@.remove(work_id),
    {
        self.works.remove(&work_id);
    }

    /// Whether the registry still holds the work a solution names.
    pub fn contains(&self, work_id: u32) -> (r: bool)
        ensures
            r == self@.contains_key(work_id),
    {
        self.works.contains_key(&work_id)
    }

    /// Classifies one retrieved solution against the registry and records it
    /// when it is unique. Returns the class, and for a unique solution also
    /// the originating work, so the caller can pair the two upstream.
    pub fn classify_and_record(&mut self, work_id: u32, solution: &MiningWorkSolution) -> (r: (
        SolutionClass,
        Option<MiningWork>,
    ))
        ensures
            r.0 == classify(old(self)@, work_id, *solution),
            r.0 != SolutionClass::Unique ==> final(self)@ == old(self)@ && r.1 is None,
            r.0 == SolutionClass::Unique ==> {
                &&& r.1 matches Some(w) && work_matches(w, old(self)@[work_id].work)
                &&& final(self)@.dom() == old(self)@.dom()
                &&& final(self)@[work_id].work == old(self)@[work_id].work
                &&& final(self)@[work_id].seen@ == old(self)@[work_id].seen@.push(
                    (solution.nonce, solution.midstate_idx),
                )
                &&& forall|k: u32|
                    k != work_id && old(self)@.contains_key(k) ==> final(self)@[k] == old(
                        self,
                    )@[k]
            },
    {
        match self.works.get(&work_id) {
            None => {
                return (SolutionClass::Stale, None);
            },
            Some(entry) => {
                if solution.midstate_idx >= entry.work.midstates.len() {
                    return (SolutionClass::Mismatched, None);
                }
                if seen_lookup(&entry.seen, solution.nonce, solution.midstate_idx) {
                    return (SolutionClass::Duplicate, None);
                }
            },
        }
        let mut entry = self.works.remove(&work_id).unwrap();
        entry.seen.push((solution.nonce, solution.midstate_idx));
        let work = entry.work.clone();
        self.works.insert(work_id, entry);
        proof {
            assert(self@.dom() =~= old(self)@.dom());
        }
        (SolutionClass::Unique, Some(work))
    }
}

/// Linear scan for a (nonce, midstate index) pair among those already
/// accepted for one work item.
fn seen_lookup(seen: &Vec<(u32, usize)>, nonce: u32, midstate_idx: usize) -> (r: bool)
    ensures
        r == seen_contains(seen@, nonce, midstate_idx),
{
    let mut i: usize = 0;
    while i < seen.len()
        invariant
            i <= seen@.len(),
            forall|j: int| 0 <= j < i ==> seen@[j] != (nonce, midstate_idx),
        decreases seen@.len() - i,
    {
        let (n, m) = seen[i];
        if n == nonce && m == midstate_idx {
            proof {
                assert(seen@[i as int] == (nonce, midstate_idx));
            }
            return true;
        }
        i = i + 1;
    }
    false
}

/// Law: re-submitting an identical (work id, nonce, midstate index) tuple
/// right after it was classified unique yields a duplicate classification:
/// one unique, one duplicate, in that order. The relation between `pre` and
/// `post` is exactly what `classify_and_record` ensures for a unique
/// solution.
pub proof fn lemma_resubmitted_solution_is_duplicate(
    pre: Map<u32, RegisteredWork>,
    post: Map<u32, RegisteredWork>,
    work_id: u32,
    solution: MiningWorkSolution,
)
    requires
        classify(pre, work_id, solution) == SolutionClass::Unique,
        post.dom() == pre.dom(),
        post[work_id].work == pre[work_id].work,
        post[work_id].seen@ == pre[work_id].seen@.push((solution.nonce, solution.midstate_idx)),
    ensures
        classify(post, work_id, solution) == SolutionClass::Duplicate,
{
    assert(pre.contains_key(work_id));
    assert(post.contains_key(work_id));
    let s = post[work_id].seen@;
    assert(s[s.len() - 1] == (solution.nonce, solution.midstate_idx));
    assert(seen_contains(s, solution.nonce, solution.midstate_idx));
}

/// Law: a solution whose midstate index is no valid lane of its originating
/// work is always classified mismatched, never unique.
pub proof fn lemma_oversized_midstate_idx_is_mismatched(
    works: Map<u32, RegisteredWork>,
    work_id: u32,
    solution: MiningWorkSolution,
)
    requires
        works.contains_key(work_id),
        solution.midstate_idx >= works[work_id].work.midstates@.len(),
    ensures
        classify(works, work_id, solution) == SolutionClass::Mismatched,
{
}

} // verus!
