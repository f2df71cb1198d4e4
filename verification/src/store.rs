//! Record stores: independent key-to-record maps with get, put, and delete
//! realized as an explicit absent write (a tombstone). A key never written is
//! told apart from a tombstoned one: the first is missing from the view, the
//! second maps to `Slot::Absent`.

use vstd::prelude::*;

use crate::assoc::{
    assoc_map, assoc_unique, lemma_assoc_contains, lemma_assoc_index, lemma_assoc_push,
    lemma_assoc_update,
};

verus! {

/// A record slot: a live record, or the tombstone that terminates a record's
/// lifecycle without removing its key.
#[derive(Clone, Copy, Debug, PartialEq, Eq)]
pub enum Slot<T> {
    Present(T),
    Absent,
}

/// A key-to-slot store. The view maps each key ever written to its current
/// slot; the backing vector holds each key at most once.
pub struct Store<T> {
    entries: Vec<(String, Slot<T>)>,
}

impl<T> View for Store<T> {
    type V = Map<Seq<char>, Slot<T>>;

    closed spec fn view(&self) -> Map<Seq<char>, Slot<T>> {
        assoc_map(self.keyed())
    }
}

impl<T> Store<T> {
    /// The entries with their keys taken as character sequences.
    closed spec fn keyed(&self) -> Seq<(Seq<char>, Slot<T>)> {
        self.entries@.map_values(|p: (String, Slot<T>)| (p.0@, p.1))
    }

    /// Each key occupies at most one backing entry.
    pub closed spec fn wf(&self) -> bool {
        assoc_unique(self.keyed())
    }
}

impl<T: Copy> Store<T> {

    /// An empty store.
    pub fn new() -> (s: Self)
        ensures
            s@ == Map::<Seq<char>, Slot<T>>::empty(),
            s.wf(),
    {
        let s = Store { entries: Vec::new() };
        proof {
            assert(s.keyed() =~= Seq::<(Seq<char>, Slot<T>)>::empty());
        }
        s
    }

    /// The slot under a key, or `None` if the key was never written.
    pub fn get(&self, key: &String) -> (r: Option<Slot<T>>)
        requires
            self.wf(),
        ensures
            match r {
                None => !self@.dom().contains(key@),
                Some(slot) => self@.dom().contains(key@) && slot == self@[key@],
            },
    {
        let n = self.entries.len();
        let mut i: usize = 0;
        while i < n
            invariant
                n == self.entries.len(),
                i <= n,
                self.wf(),
                forall|j: int| 0 <= j < i ==> (#[trigger] self.keyed()[j]).0 != key@,
            decreases n - i,
        {
            if self.entries[i].0 == *key {
                proof {
                    lemma_assoc_index(self.keyed(), i as int);
                }
                return Some(self.entries[i].1);
            }
            assert(self.keyed()[i as int].0 != key@);
            i += 1;
        }
        proof {
            lemma_assoc_contains(self.keyed(), key@);
        }
        None
    }

    /// Writes a slot under a key, replacing whatever the key held.
    pub fn put(&mut self, key: &String, slot: Slot<T>)
        requires
            old(self).wf(),
        ensures
            final(self).wf(),
            final(self)@ == old(self)@.insert(key@, slot),
    {
        let n = self.entries.len();
        let mut i: usize = 0;
        while i < n
            invariant
                n == self.entries.len(),
                i <= n,
                self.wf(),
                *self == *old(self),
                forall|j: int| 0 <= j < i ==> (#[trigger] self.keyed()[j]).0 != key@,
            decreases n - i,
        {
            if self.entries[i].0 == *key {
                let ghost pre = self.keyed();
                self.entries[i] = (key.clone(), slot);
                proof {
                    assert(self.keyed() =~= pre.update(i as int, (key@, slot)));
                    lemma_assoc_update(pre, i as int, (key@, slot));
                }
                return;
            }
            assert(self.keyed()[i as int].0 != key@);
            i += 1;
        }
        let ghost pre = self.keyed();
        self.entries.push((key.clone(), slot));
        proof {
            assert(self.keyed() =~= pre.push((key@, slot)));
            lemma_assoc_push(pre, (key@, slot));
        }
    }
}

} // verus!
