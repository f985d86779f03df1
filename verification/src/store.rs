//! The slot store: a keyed collection of committed slots.
//!
//! Entries are keyed by insertion order: the entry inserted when the
//! store held `n` entries gets key `dec_str(n)` and identifier `n`.
//! Nothing is ever deleted, so the key of an entry is exactly its
//! position, and the store is modelled as the sequence of its slots.

use vstd::prelude::*;
use vstd::string::StringExecFns;

use crate::keys::{dec_str, key_string};
use crate::slot::{Slot, SlotView};

verus! {

/// `d` as it is written into the store under identifier `n`: the draft's
/// text fields with the identifier assigned.
pub open spec fn committed(d: SlotView, n: usize) -> SlotView {
    SlotView { id: Some(n), ..d }
}

/// Every entry's identifier equals its position, and no committed slot
/// has an empty title.
pub open spec fn store_wf(s: Seq<SlotView>) -> bool {
    forall|i: int|
        0 <= i < s.len() ==> (#[trigger] s[i]).id == Some(i as usize) && s[i].title.len() > 0
}

/// Why a commit was refused. The empty title is an ordinary, silent
/// refusal; the other two report an invariant violation instead of
/// aborting.
#[derive(Clone, Copy, Debug, PartialEq, Eq, Structural)]
pub enum CommitError {
    /// The draft's title is empty; the commit is refused.
    EmptyTitle,
    /// A save was requested while nothing was being edited.
    NotEditing,
    /// An existing-slot commit named an identifier absent from the store.
    DanglingId,
}

/// A keyed collection of committed slots, in insertion order.
pub struct SlotStore {
    pub slots: Vec<Slot>,
}

impl View for SlotStore {
    type V = Seq<SlotView>;

    open spec fn view(&self) -> Seq<SlotView> {
        self.slots@.map_values(|s: Slot| s@)
    }
}

impl SlotStore {
    /// An empty store.
    pub fn new() -> (r: Self)
        ensures
            r@ == Seq::<SlotView>::empty(),
    {
        let r = SlotStore { slots: Vec::new() };
        proof {
            assert(r@ =~= Seq::<SlotView>::empty());
        }
        r
    }

    /// The number of entries.
    pub fn len(&self) -> (r: usize)
        ensures
            r == self@.len(),
    {
        self.slots.len()
    }

    /// The entry at position `i`, which is also the entry with key
    /// `dec_str(i)` and identifier `i`.
    pub fn get_at(&self, i: usize) -> (r: &Slot)
        requires
            i < self@.len(),
        ensures
            r@ == self@[i as int],
    {
        &self.slots[i]
    }

    /// The position of the entry whose key is `key`, if any.
    pub fn find_key(&self, key: &str) -> (r: Option<usize>)
        ensures
            match r {
                Some(i) => i < self@.len() && dec_str(i as nat) == key@,
                None => forall|i: int| 0 <= i < self@.len() ==> #[trigger] dec_str(i as nat) != key@,
            },
    {
        let target = String::from_str(key);
        let n = self.slots.len();
        for i in 0..n
            invariant
                n == self@.len(),
                target@ == key@,
                forall|j: int| 0 <= j < i ==> #[trigger] dec_str(j as nat) != key@,
        {
            let k = key_string(i);
            if k == target {
                return Some(i);
            }
        }
        None
    }

    /// All entries as `(key, slot)` pairs, in insertion order.
    pub fn list(&self) -> (r: Vec<(String, Slot)>)
        ensures
            r@.len() == self@.len(),
            forall|i: int|
                0 <= i < r@.len() ==> (#[trigger] r@[i]).0@ == dec_str(i as nat) && r@[i].1@
                    == self@[i],
    {
        let mut out: Vec<(String, Slot)> = Vec::new();
        let n = self.slots.len();
        for i in 0..n
            invariant
                n == self@.len(),
                out@.len() == i,
                forall|j: int|
                    0 <= j < i ==> (#[trigger] out@[j]).0@ == dec_str(j as nat) && out@[j].1@
                        == self@[j],
        {
            out.push((key_string(i), self.slots[i].clone()));
        }
        out
    }

    /// Mints the next key — the decimal string of the current entry
    /// count — stores the draft's fields under it with the matching
    /// identifier assigned, and returns the key.
    pub fn insert_new(&mut self, draft: &Slot) -> (key: String)
        ensures
            final(self)@ == old(self)@.push(committed(draft@, old(self)@.len() as usize)),
            key@ == dec_str(old(self)@.len()),
    {
        let n = self.slots.len();
        let key = key_string(n);
        let mut entry = draft.clone();
        entry.id = Some(n);
        self.slots.push(entry);
        proof {
            assert(self@ =~= old(self)@.push(committed(draft@, old(self)@.len() as usize)));
        }
        key
    }

    /// Overwrites the fields of the entry whose identifier is `id` with
    /// the draft's fields, preserving the key; refused when no entry has
    /// that identifier.
    pub fn update_existing(&mut self, id: usize, draft: &Slot) -> (r: Result<(), CommitError>)
        ensures
            match r {
                Ok(()) => id < old(self)@.len() && final(self)@ == old(self)@.update(
                    id as int,
                    committed(draft@, id),
                ),
                Err(e) => e == CommitError::DanglingId && id >= old(self)@.len() && final(self)@
                    == old(self)@,
            },
    {
        if id >= self.slots.len() {
            return Err(CommitError::DanglingId);
        }
        let mut entry = draft.clone();
        entry.id = Some(id);
        self.slots[id] = entry;
        proof {
            assert(self@ =~= old(self)@.update(id as int, committed(draft@, id)));
        }
        Ok(())
    }
}

} // verus!
