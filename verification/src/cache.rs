//! The store of generated states, one per key.

use vstd::prelude::*;
use crate::entry::StateEntry;
use crate::key::{PathKey, PathKeyView};
use crate::table::Table;

verus! {

/// Keeps the generated states. A key has at most one entry: a new one takes the
/// place of the old one.
pub struct StateCache {
    entries: Table<StateEntry>,
}

impl View for StateCache {
    type V = Map<PathKeyView, StateEntry>;

    /// The cache as a map from what a key stands for to its entry.
    closed spec fn view(&self) -> Map<PathKeyView, StateEntry> {
        self.entries@
    }
}

impl StateCache {
    /// A cache without entries.
    pub fn new() -> (cache: StateCache)
        ensures
            cache@ == Map::<PathKeyView, StateEntry>::empty(),
    {
        StateCache { entries: Table::new() }
    }

    /// A snapshot of the entry of `key`, if it has one. The cache stays as it is.
    pub fn get(&self, key: &PathKey) -> (found: Option<StateEntry>)
        ensures
            found == if self@.contains_key(key@) {
                Some(self@[key@])
            } else {
                None
            },
    {
        match self.entries.get(key) {
            Some(entry) => Some(entry.snapshot()),
            None => None,
        }
    }

    /// Makes `entry` the entry of `key`, in place of any it had.
    pub fn put(&mut self, key: PathKey, entry: StateEntry)
        ensures
            final(self)@ == old(self)@.insert(key@, entry),
    {
        self.entries.insert(key, entry);
    }

    /// Removes the entry of `key`, so that the next request for it finds none.
    /// Says whether there was one.
    pub fn invalidate(&mut self, key: &PathKey) -> (removed: bool)
        ensures
            final(self)@ == old(self)@.remove(key@),
            removed == old(self)@.contains_key(key@),
    {
        self.entries.remove(key).is_some()
    }
}

} // verus!
