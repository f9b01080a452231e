//! Kernel-object identifier allocation: a monotonically increasing,
//! never-reused identifier source.

use vstd::prelude::*;

verus! {

/// A kernel-object identifier: assigned at creation, immutable afterwards.
pub type KoID = u64;

/// The first identifier ever handed out; the range below it stays reserved.
pub const KOID_BASE: u64 = 1024;

/// The identifier source: hands out `KOID_BASE`, `KOID_BASE + 1`, ... in
/// order, never reusing a value. The ghost history records every identifier
/// handed out so far, in allocation order.
pub struct KoidAllocator {
    next: KoID,
    history: Ghost<Seq<KoID>>,
}

impl KoidAllocator {
    /// The identifiers handed out so far, in allocation order.
    pub closed spec fn allocated(self) -> Seq<KoID> {
        self.history@
    }

    /// The identifier the next allocation returns.
    pub closed spec fn next_spec(self) -> KoID {
        self.next
    }

    /// Every identifier handed out is `KOID_BASE` plus its position in the
    /// allocation order, and the next one follows right after.
    pub closed spec fn wf(self) -> bool {
        &&& KOID_BASE <= self.next
        &&& self.history@.len() == self.next - KOID_BASE
        &&& forall|i: int|
            0 <= i < self.history@.len() ==> self.history@[i] == KOID_BASE + i
    }

    /// A fresh allocator: nothing handed out yet, starting at `KOID_BASE`.
    pub fn new() -> (a: KoidAllocator)
        ensures
            a.wf(),
            a.next_spec() == KOID_BASE,
            a.allocated() == Seq::<KoID>::empty(),
    {
        KoidAllocator { next: KOID_BASE, history: Ghost(Seq::empty()) }
    }

    /// The identifier the next allocation returns.
    pub fn next_id(&self) -> (id: KoID)
        ensures
            id == self.next_spec(),
    {
        self.next
    }

    /// Hand out the next identifier. The result is larger than every
    /// identifier handed out before, so identifiers never repeat.
    pub fn allocate(&mut self) -> (id: KoID)
        requires
            old(self).wf(),
            old(self).next_spec() < u64::MAX,
        ensures
            final(self).wf(),
            id == old(self).next_spec(),
            final(self).next_spec() == old(self).next_spec() + 1,
            final(self).allocated() == old(self).allocated().push(id),
            forall|i: int| 0 <= i < old(self).allocated().len() ==> old(self).allocated()[i] < id,
    {
        let id = self.next;
        self.next = self.next + 1;
        proof {
            self.history@ = self.history@.push(id);
        }
        id
    }
}

/// Identifiers allocated in sequence are strictly increasing in allocation
/// order, and in particular pairwise distinct: no two objects ever share one.
pub proof fn lemma_koids_strictly_increasing(a: KoidAllocator)
    requires
        a.wf(),
    ensures
        forall|i: int, j: int|
            0 <= i < j < a.allocated().len() ==> a.allocated()[i] < a.allocated()[j],
{
}

} // verus!
