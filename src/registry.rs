use vstd::prelude::*;

verus! {

/// Identifies one subscription within one collection's registry.
#[derive(Debug, Clone, Copy, PartialEq, Eq, Hash, PartialOrd, Ord)]
pub struct SubscriptionHandle(pub usize);

impl SubscriptionHandle {
    /// The numeric identifier.
    pub fn id(&self) -> (r: usize)
        ensures
            r == self.0,
    {
        self.0
    }
}

/// Why a registration was refused.
#[derive(Debug, Clone, Copy, PartialEq, Eq)]
pub enum SubscriptionsManagerError {
    /// Every identifier of the handle type is in use.
    NoFreeSlot,
}

impl SubscriptionsManagerError {
    /// Human-readable description of the error.
    pub fn message(&self) -> (r: &'static str)
        ensures
            r@ == "No free slot"@,
    {
        proof {
            reveal_strlit("No free slot");
        }
        "No free slot"
    }
}

/// The allocator's phase: hand out increasing identifiers until the counter
/// would overflow, then take the smallest unused identifier from then on.
#[derive(Debug, Clone, Copy, PartialEq, Eq)]
pub enum AllocPhase {
    /// The identifier handed out by the next registration.
    Growing(usize),
    /// The smallest identifier not in use is handed out.
    Compacting,
}

/// The subscriptions of one collection, keyed by handle.
pub struct SubscriptionsManager<S> {
    entries: Vec<(usize, S)>,
    phase: AllocPhase,
}

/// Is `h` the identifier of some entry of `s`?
pub open spec fn seq_has<S>(s: Seq<(usize, S)>, h: usize) -> bool {
    exists|i: int| 0 <= i < s.len() && (#[trigger] s[i]).0 == h
}

/// `h` is the smallest identifier that no entry of `s` uses.
pub open spec fn is_smallest_free<S>(s: Seq<(usize, S)>, h: usize) -> bool {
    &&& !seq_has(s, h)
    &&& forall|j: usize| j < h ==> #[trigger] seq_has(s, j)
}

impl<S> SubscriptionsManager<S> {
    /// The live entries, in registration order.
    pub closed spec fn entries(&self) -> Seq<(usize, S)> {
        self.entries@
    }

    /// The allocator's current phase.
    pub closed spec fn phase(&self) -> AllocPhase {
        self.phase
    }

    /// Is `h` a live handle?
    pub open spec fn has(&self, h: usize) -> bool {
        seq_has(self.entries(), h)
    }

    /// Live handles are unique; while growing, all of them lie below the
    /// next identifier.
    pub open spec fn wf(&self) -> bool {
        &&& forall|i: int, j: int|
            0 <= i < self.entries().len() && 0 <= j < self.entries().len() && i != j
                ==> (#[trigger] self.entries()[i]).0 != (#[trigger] self.entries()[j]).0
        &&& match self.phase() {
            AllocPhase::Growing(n) => forall|i: int|
                0 <= i < self.entries().len() ==> (#[trigger] self.entries()[i]).0 < n,
            AllocPhase::Compacting => true,
        }
    }

    /// An empty registry in its first phase.
    pub fn new() -> (r: Self)
        ensures
            r.wf(),
            r.entries() =~= Seq::<(usize, S)>::empty(),
            r.phase() == AllocPhase::Growing(0),
    {
        SubscriptionsManager { entries: Vec::new(), phase: AllocPhase::Growing(0) }
    }

    /// Number of live subscriptions.
    pub fn len(&self) -> (r: usize)
        ensures
            r == self.entries().len(),
    {
        self.entries.len()
    }

    /// Is the handle live?
    pub fn contains(&self, handle: SubscriptionHandle) -> (r: bool)
        ensures
            r == self.has(handle.0),
    {
        let mut i: usize = 0;
        while i < self.entries.len()
            invariant
                i <= self.entries().len(),
                forall|k: int| 0 <= k < i ==> (#[trigger] self.entries()[k]).0 != handle.0,
            decreases self.entries().len() - i,
        {
            if self.entries[i].0 == handle.0 {
                return true;
            }
            i = i + 1;
        }
        false
    }

    /// The subscription stored at position `i` of registration order.
    pub fn get(&self, i: usize) -> (r: &S)
        requires
            i < self.entries().len(),
        ensures
            *r == self.entries()[i as int].1,
    {
        &self.entries[i].1
    }

    /// The smallest identifier that no live subscription uses, or
    /// `NoFreeSlot` when every identifier is taken.
    pub fn find_free_index(&self) -> (r: Result<usize, SubscriptionsManagerError>)
        ensures
            match r {
                Ok(h) => is_smallest_free(self.entries(), h),
                Err(e) => e == SubscriptionsManagerError::NoFreeSlot && forall|j: usize|
                    #[trigger] seq_has(self.entries(), j),
            },
    {
        let mut cand: usize = 0;
        loop
            invariant
                forall|j: usize| j < cand ==> #[trigger] seq_has(self.entries(), j),
            decreases usize::MAX - cand,
        {
            let taken = self.contains(SubscriptionHandle(cand));
            if !taken {
                return Ok(cand);
            }
            if cand == usize::MAX {
                assert forall|j: usize| #[trigger] seq_has(self.entries(), j) by {
                    if j < cand {
                    } else {
                        assert(j == cand);
                    }
                }
                return Err(SubscriptionsManagerError::NoFreeSlot);
            }
            cand = cand + 1;
        }
    }

    /// Registers a subscription and returns its handle.
    ///
    /// While growing, the handle is the phase's counter, which then moves on
    /// by one, or switches the allocator to compacting when it would
    /// overflow. While compacting, the handle is the smallest free one.
    pub fn add(&mut self, subscription: S) -> (r: Result<SubscriptionHandle, SubscriptionsManagerError>)
        requires
            old(self).wf(),
        ensures
            final(self).wf(),
            match old(self).phase() {
                AllocPhase::Growing(n) => r == Ok::<SubscriptionHandle, SubscriptionsManagerError>(
                    SubscriptionHandle(n),
                ) && final(self).phase() == (if n < usize::MAX {
                    AllocPhase::Growing((n + 1) as usize)
                } else {
                    AllocPhase::Compacting
                }),
                AllocPhase::Compacting => final(self).phase() == AllocPhase::Compacting && match r {
                    Ok(h) => is_smallest_free(old(self).entries(), h.0),
                    Err(e) => e == SubscriptionsManagerError::NoFreeSlot && forall|j: usize|
                        #[trigger] seq_has(old(self).entries(), j),
                },
            },
            match r {
                Ok(h) => final(self).entries() == old(self).entries().push((h.0, subscription)),
                Err(_) => final(self).entries() == old(self).entries(),
            },
    {
        let ghost old_phase = self.phase;
        let id: usize = match self.phase {
            AllocPhase::Growing(n) => {
                if n < usize::MAX {
                    self.phase = AllocPhase::Growing(n + 1);
                } else {
                    self.phase = AllocPhase::Compacting;
                }
                n
            },
            AllocPhase::Compacting => {
                match self.find_free_index() {
                    Ok(h) => h,
                    Err(e) => {
                        return Err(e);
                    },
                }
            },
        };
        let ghost before = self.entries@;
        proof {
            assert(before == old(self).entries());
            assert(old_phase == old(self).phase());
            match old_phase {
                AllocPhase::Growing(n) => {
                    assert(id == n);
                    assert(forall|i: int| 0 <= i < before.len() ==> (#[trigger] old(self).entries()[i]).0 < n);
                    if seq_has(before, id) {
                        let i = choose|i: int| 0 <= i < before.len() && (#[trigger] before[i]).0 == id;
                        assert(before[i].0 < n);
                    }
                },
                AllocPhase::Compacting => {},
            }
            assert(!seq_has(before, id));
        }
        self.entries.push((id, subscription));
        assert(forall|i: int| 0 <= i < before.len() ==> self.entries@[i] == before[i]);
        assert(self.entries@[before.len() as int] == (id, subscription));
        if let AllocPhase::Growing(m) = self.phase {
            assert(forall|i: int| 0 <= i < before.len() ==> (#[trigger] old(self).entries()[i]).0 < id);
            assert(forall|i: int| 0 <= i < self.entries@.len() ==> (#[trigger] self.entries@[i]).0 < m);
        }
        assert forall|i: int| 0 <= i < before.len() implies (#[trigger] self.entries@[i]).0 != id by {
            if self.entries@[i].0 == id {
                assert(before[i].0 == id);
            }
        }
        Ok(SubscriptionHandle(id))
    }

    /// Unregisters the handle; an unknown handle leaves the registry as it is.
    pub fn remove(&mut self, handle: SubscriptionHandle)
        requires
            old(self).wf(),
        ensures
            final(self).wf(),
            final(self).phase() == old(self).phase(),
            !old(self).has(handle.0) ==> final(self).entries() == old(self).entries(),
            old(self).has(handle.0) ==> exists|i: int|
                0 <= i < old(self).entries().len() && (#[trigger] old(self).entries()[i]).0
                    == handle.0 && final(self).entries() == old(self).entries().remove(i),
            !final(self).has(handle.0),
    {
        let mut i: usize = 0;
        while i < self.entries.len()
            invariant
                i <= self.entries().len(),
                self.entries() == old(self).entries(),
                self.phase() == old(self).phase(),
                self.wf(),
                forall|k: int| 0 <= k < i ==> (#[trigger] self.entries()[k]).0 != handle.0,
            decreases self.entries().len() - i,
        {
            if self.entries[i].0 == handle.0 {
                let ghost before = self.entries@;
                self.entries.remove(i);
                assert(self.entries@ == before.remove(i as int));
                assert forall|k: int| 0 <= k < self.entries@.len() implies (
                #[trigger] self.entries@[k]).0 != handle.0 by {
                    if k < i {
                        assert(self.entries@[k] == before[k]);
                    } else {
                        assert(self.entries@[k] == before[k + 1]);
                        assert(before[k + 1].0 != before[i as int].0);
                    }
                }
                assert(self.entries@.len() == before.len() - 1);
                assert forall|a: int, b: int|
                    0 <= a < self.entries@.len() && 0 <= b < self.entries@.len() && a != b
                        implies (#[trigger] self.entries@[a]).0 != (#[trigger] self.entries@[b]).0 by {
                    let a2 = if a < i { a } else { a + 1 };
                    let b2 = if b < i { b } else { b + 1 };
                    assert(self.entries@[a] == before[a2]);
                    assert(self.entries@[b] == before[b2]);
                }
                assert forall|a: int| 0 <= a < self.entries@.len() implies
                    (#[trigger] self.entries@[a]) == before[if a < i { a } else { a + 1 }] by {}
                return;
            }
            i = i + 1;
        }
    }
}

/// While the allocator grows, the identifier it hands out next is above
/// every live handle: a handle that was freed is not handed out again
/// before the counter runs out.
pub proof fn lemma_growing_hands_out_fresh<S>(r: SubscriptionsManager<S>, n: usize)
    requires
        r.wf(),
        r.phase() == AllocPhase::Growing(n),
    ensures
        !r.has(n),
        forall|h: usize| r.has(h) ==> h < n,
{
    assert forall|h: usize| r.has(h) implies h < n by {
        let i = choose|i: int| 0 <= i < r.entries().len() && (#[trigger] r.entries()[i]).0 == h;
    }
}

} // verus!
