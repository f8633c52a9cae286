//! The set of in-flight meshing task ids, backed by a hash set of the
//! hashbrown crate behind trusted wrappers.

use vstd::prelude::*;

verus! {

/// The ids a [`PendingTaskSet`] currently holds.
pub uninterp spec fn pending_ids(s: PendingTaskSet) -> Set<u32>;

/// The pending-task set: which task ids are queued or being built and
/// have not had their result collected yet.
#[verifier::external_body]
pub struct PendingTaskSet {
    set: hashbrown::HashSet<u32>,
}

impl PendingTaskSet {
    /// Relies on hashbrown::HashSet::new: the new set is empty.
    #[verifier::external_body]
    pub(crate) fn new() -> (s: PendingTaskSet)
        ensures
            pending_ids(s) == Set::<u32>::empty(),
    {
        PendingTaskSet { set: hashbrown::HashSet::new() }
    }

    /// Relies on hashbrown::HashSet::insert: afterwards the set holds the
    /// given value on top of what it held.
    #[verifier::external_body]
    pub(crate) fn insert(&mut self, id: u32)
        ensures
            pending_ids(*final(self)) == pending_ids(*old(self)).insert(id),
        no_unwind
    {
        self.set.insert(id);
    }

    /// Relies on hashbrown::HashSet::remove: afterwards the set no longer
    /// holds the value; the return says whether it did.
    #[verifier::external_body]
    pub(crate) fn remove(&mut self, id: u32) -> (r: bool)
        ensures
            pending_ids(*final(self)) == pending_ids(*old(self)).remove(id),
            r == pending_ids(*old(self)).contains(id),
        no_unwind
    {
        self.set.remove(&id)
    }

    /// Relies on hashbrown::HashSet::contains.
    #[verifier::external_body]
    pub(crate) fn contains(&self, id: u32) -> (r: bool)
        ensures
            r == pending_ids(*self).contains(id),
    {
        self.set.contains(&id)
    }

    /// Relies on hashbrown::HashSet::len: the number of elements held.
    #[verifier::external_body]
    pub(crate) fn len(&self) -> (r: usize)
        ensures
            r == pending_ids(*self).len(),
    {
        self.set.len()
    }
}

/// If every id below `n` is in a finite set, the set has at least `n`
/// elements.
pub proof fn lemma_ids_below_give_len(s: Set<u32>, n: int)
    requires
        s.finite(),
        0 <= n <= u32::MAX as int + 1,
        forall|j: int| 0 <= j < n ==> #[trigger] s.contains(j as u32),
    ensures
        s.len() >= n,
    decreases n,
{
    if n > 0 {
        let prev = (n - 1) as u32;
        let smaller = s.remove(prev);
        assert forall|j: int| 0 <= j < n - 1 implies #[trigger] smaller.contains(j as u32) by {
            assert(s.contains(j as u32));
            assert(j as u32 != prev);
        }
        lemma_ids_below_give_len(smaller, n - 1);
        assert(s.contains(prev));
        assert(s.len() == smaller.len() + 1);
    }
}

} // verus!
