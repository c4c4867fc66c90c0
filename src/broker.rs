use vstd::prelude::*;

use crate::registry::SubscriptionHandle;

verus! {

/// What a subscriber holds to unsubscribe: the collection and the handle
/// within that collection's registry.
pub struct Handle {
    collection_name: String,
    subscription_handle: SubscriptionHandle,
}

impl Handle {
    /// The collection's name.
    pub closed spec fn collection_view(&self) -> Seq<char> {
        self.collection_name@
    }

    /// The handle within the collection's registry.
    pub closed spec fn subscription_view(&self) -> SubscriptionHandle {
        self.subscription_handle
    }

    /// A handle for the subscription `subscription_handle` of the collection.
    pub fn new(collection_name: String, subscription_handle: SubscriptionHandle) -> (r: Self)
        ensures
            r.collection_view() == collection_name@,
            r.subscription_view() == subscription_handle,
    {
        Handle { collection_name, subscription_handle }
    }

    /// The collection the subscription belongs to.
    pub fn collection(&self) -> (r: &String)
        ensures
            r@ == self.collection_view(),
    {
        &self.collection_name
    }

    /// The handle within the collection's registry.
    pub fn subscription(&self) -> (r: SubscriptionHandle)
        ensures
            r == self.subscription_view(),
    {
        self.subscription_handle
    }
}

/// The watched collections, each with its watcher; one watcher per name.
pub struct WatchTable<W> {
    entries: Vec<(String, W)>,
}

/// Does some entry of `s` carry the name `name`?
pub open spec fn names_contain<W>(s: Seq<(String, W)>, name: Seq<char>) -> bool {
    exists|i: int| 0 <= i < s.len() && (#[trigger] s[i]).0@ == name
}

/// The names that stay watched after the last subscriber count of `name`
/// was seen to be `remaining`: `name` is dropped exactly when none remain.
pub open spec fn still_watched(watched: bool, n: Seq<char>, name: Seq<char>, remaining: nat) -> bool {
    watched && !(n == name && remaining == 0)
}

impl<W> WatchTable<W> {
    /// The entries, in the order the collections were first watched.
    pub closed spec fn entries(&self) -> Seq<(String, W)> {
        self.entries@
    }

    /// Is the collection watched?
    pub open spec fn watched(&self, name: Seq<char>) -> bool {
        names_contain(self.entries(), name)
    }

    /// Names are unique.
    pub open spec fn wf(&self) -> bool {
        forall|i: int, j: int|
            0 <= i < self.entries().len() && 0 <= j < self.entries().len() && i != j
                ==> (#[trigger] self.entries()[i]).0@ != (#[trigger] self.entries()[j]).0@
    }

    /// No collection is watched.
    pub fn new() -> (r: Self)
        ensures
            r.wf(),
            forall|n: Seq<char>| !r.watched(n),
    {
        WatchTable { entries: Vec::new() }
    }

    /// Number of watched collections.
    pub fn len(&self) -> (r: usize)
        ensures
            r == self.entries().len(),
    {
        self.entries.len()
    }

    /// The position of the collection's entry, if it is watched.
    fn position(&self, name: &str) -> (r: Option<usize>)
        ensures
            match r {
                Some(i) => i < self.entries().len() && self.entries()[i as int].0@ == name@,
                None => !self.watched(name@),
            },
    {
        let wanted: String = name.to_owned();
        let mut i: usize = 0;
        while i < self.entries.len()
            invariant
                i <= self.entries().len(),
                wanted@ == name@,
                forall|k: int| 0 <= k < i ==> (#[trigger] self.entries()[k]).0@ != name@,
            decreases self.entries().len() - i,
        {
            if self.entries[i].0 == wanted {
                return Some(i);
            }
            i = i + 1;
        }
        None
    }

    /// Is the collection being watched?
    pub fn is_watched(&self, name: &str) -> (r: bool)
        ensures
            r == self.watched(name@),
    {
        self.position(name).is_some()
    }

    /// The watcher of the collection, if it is watched.
    pub fn get(&self, name: &str) -> (r: Option<&W>)
        ensures
            r is None <==> !self.watched(name@),
            r matches Some(w) ==> exists|i: int|
                0 <= i < self.entries().len() && (#[trigger] self.entries()[i]).0@ == name@ && self.entries()[i].1
                    == *w,
    {
        match self.position(name) {
            Some(i) => Some(&self.entries[i].1),
            None => None,
        }
    }

    /// Starts watching a collection that is not watched yet.
    pub fn insert(&mut self, name: String, watcher: W)
        requires
            old(self).wf(),
            !old(self).watched(name@),
        ensures
            final(self).wf(),
            final(self).entries() == old(self).entries().push((name, watcher)),
            forall|n: Seq<char>| #[trigger] final(self).watched(n) <==> (old(self).watched(n) || n == name@),
    {
        let ghost before = self.entries@;
        self.entries.push((name, watcher));
        assert(forall|i: int| 0 <= i < before.len() ==> self.entries@[i] == before[i]);
        assert(self.entries@[before.len() as int] == (name, watcher));
        assert forall|n: Seq<char>| #[trigger] self.watched(n) <==> (old(self).watched(n) || n == name@) by {
            if self.watched(n) {
                let i = choose|i: int| 0 <= i < self.entries@.len() && (#[trigger] self.entries@[i]).0@ == n;
                if i < before.len() {
                    assert(before[i].0@ == n);
                }
            }
            if old(self).watched(n) {
                let i = choose|i: int| 0 <= i < before.len() && (#[trigger] before[i]).0@ == n;
                assert(self.entries@[i].0@ == n);
            }
            if n == name@ {
                assert(self.entries@[before.len() as int].0@ == n);
            }
        }
        assert forall|i: int| 0 <= i < before.len() implies (#[trigger] self.entries@[i]).0@ != name@ by {
            assert(self.entries@[i] == before[i]);
        }
    }

    /// Stops watching the collection and hands back its watcher; an
    /// unwatched name leaves the table as it is.
    pub fn remove(&mut self, name: &str) -> (r: Option<W>)
        requires
            old(self).wf(),
        ensures
            final(self).wf(),
            r is Some <==> old(self).watched(name@),
            r matches Some(w) ==> exists|i: int|
                0 <= i < old(self).entries().len() && (#[trigger] old(self).entries()[i]).0@ == name@
                    && old(self).entries()[i].1 == w && final(self).entries() == old(self).entries().remove(i),
            r is None ==> final(self).entries() == old(self).entries(),
            forall|n: Seq<char>| #[trigger] final(self).watched(n) <==> (old(self).watched(n) && n != name@),
    {
        match self.position(name) {
            None => None,
            Some(i) => {
                let ghost before = self.entries@;
                let (_, w) = self.entries.remove(i);
                assert(self.entries@ == before.remove(i as int));
                assert forall|a: int| 0 <= a < self.entries@.len() implies (#[trigger] self.entries@[a])
                    == before[if a < i { a } else { a + 1 }] by {}
                assert forall|a: int, b: int|
                    0 <= a < self.entries@.len() && 0 <= b < self.entries@.len() && a != b implies (
                    #[trigger] self.entries@[a]).0@ != (#[trigger] self.entries@[b]).0@ by {
                    let a2 = if a < i { a } else { a + 1 };
                    let b2 = if b < i { b } else { b + 1 };
                    assert(self.entries@[a] == before[a2]);
                    assert(self.entries@[b] == before[b2]);
                }
                assert forall|n: Seq<char>| #[trigger] self.watched(n) <==> (old(self).watched(n) && n != name@) by {
                    if self.watched(n) {
                        let a = choose|a: int| 0 <= a < self.entries@.len() && (#[trigger] self.entries@[a]).0@ == n;
                        let a2 = if a < i { a } else { a + 1 };
                        assert(before[a2].0@ == n);
                        assert(a2 != i);
                    }
                    if old(self).watched(n) && n != name@ {
                        let b = choose|b: int| 0 <= b < before.len() && (#[trigger] before[b]).0@ == n;
                        assert(b != i);
                        let a = if b < i { b } else { b - 1 };
                        assert(self.entries@[a] == before[b]);
                    }
                }
                Some(w)
            },
        }
    }

    /// After an unsubscribe left `remaining` subscriptions on the collection:
    /// with none left, stop watching it and hand back its watcher to be torn
    /// down; otherwise change nothing.
    pub fn release(&mut self, name: &str, remaining: usize) -> (r: Option<W>)
        requires
            old(self).wf(),
        ensures
            final(self).wf(),
            r is Some <==> (remaining == 0 && old(self).watched(name@)),
            remaining > 0 ==> final(self).entries() == old(self).entries(),
            !old(self).watched(name@) ==> final(self).entries() == old(self).entries(),
            forall|n: Seq<char>|
                #[trigger] final(self).watched(n) == still_watched(old(self).watched(n), n, name@, remaining as nat),
    {
        if remaining == 0 {
            self.remove(name)
        } else {
            None
        }
    }
}

/// A collection whose last subscriber has left is no longer watched, and a
/// later subscription to it finds it unwatched, so it gets a fresh watcher.
pub proof fn lemma_release_last_stops_watching(watched: bool, name: Seq<char>)
    ensures
        !still_watched(watched, name, name, 0),
{
}

/// Releasing a collection that still has subscribers, or any other
/// collection, keeps whether it is watched.
pub proof fn lemma_release_keeps_others(watched: bool, n: Seq<char>, name: Seq<char>, remaining: nat)
    requires
        n != name || remaining > 0,
    ensures
        still_watched(watched, n, name, remaining) == watched,
{
}

} // verus!
