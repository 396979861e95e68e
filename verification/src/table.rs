//! A small keyed table: at most one value for each [`PathKey`].

use vstd::prelude::*;
use crate::key::{PathKey, PathKeyView};

verus! {

struct Slot<V> {
    key: PathKey,
    value: V,
}

/// No two slots hold the same key.
spec fn distinct<V>(slots: Seq<Slot<V>>) -> bool {
    forall|i: int, j: int| 0 <= i < j < slots.len() ==> slots[i].key@ != slots[j].key@
}

/// Whether the slot at `i` holds `k`.
spec fn holds<V>(slots: Seq<Slot<V>>, k: PathKeyView, i: int) -> bool {
    0 <= i < slots.len() && slots[i].key@ == k
}

/// The index of a slot that holds `k`, if one does.
spec fn index_of<V>(slots: Seq<Slot<V>>, k: PathKeyView) -> Option<int> {
    if exists|i: int| holds(slots, k, i) {
        Some(choose|i: int| holds(slots, k, i))
    } else {
        None
    }
}

/// The slots as a map from what a key stands for to the value kept under it.
spec fn as_map<V>(slots: Seq<Slot<V>>) -> Map<PathKeyView, V> {
    Map::new(
        |k: PathKeyView| index_of(slots, k).is_some(),
        |k: PathKeyView| slots[index_of(slots, k).unwrap()].value,
    )
}

proof fn lemma_index_of<V>(slots: Seq<Slot<V>>, i: int)
    requires
        distinct(slots),
        0 <= i < slots.len(),
    ensures
        index_of(slots, slots[i].key@) == Some(i),
{
    let k = slots[i].key@;
    assert(holds(slots, k, i));
    let c = choose|c: int| holds(slots, k, c);
    assert(holds(slots, k, c));
    if c < i {
        assert(slots[c].key@ != slots[i].key@);
    } else if i < c {
        assert(slots[i].key@ != slots[c].key@);
    }
}

proof fn lemma_absent<V>(slots: Seq<Slot<V>>, k: PathKeyView)
    requires
        forall|i: int| 0 <= i < slots.len() ==> slots[i].key@ != k,
    ensures
        index_of(slots, k).is_none(),
{
    assert forall|i: int| !holds(slots, k, i) by {}
}

proof fn lemma_push<V>(slots: Seq<Slot<V>>, slot: Slot<V>)
    requires
        distinct(slots),
        index_of(slots, slot.key@).is_none(),
    ensures
        distinct(slots.push(slot)),
        as_map(slots.push(slot)) == as_map(slots).insert(slot.key@, slot.value),
{
    let after = slots.push(slot);
    let n = slots.len() as int;
    assert forall|i: int, j: int| 0 <= i < j < after.len() implies after[i].key@
        != after[j].key@ by {
        if j == n {
            assert(!holds(slots, slot.key@, i));
        }
    }
    assert forall|k: PathKeyView| #[trigger]
        as_map(after).contains_key(k) == as_map(slots).insert(slot.key@, slot.value).contains_key(
            k,
        ) && (as_map(after).contains_key(k) ==> as_map(after)[k] == as_map(slots).insert(
            slot.key@,
            slot.value,
        )[k]) by {
        if k == slot.key@ {
            lemma_index_of(after, n);
        } else if index_of(slots, k).is_some() {
            let i = index_of(slots, k).unwrap();
            assert(holds(slots, k, i));
            lemma_index_of(after, i);
        } else {
            assert forall|i: int| !holds(after, k, i) by {
                if 0 <= i < n {
                    assert(!holds(slots, k, i));
                }
            }
        }
    }
    assert(as_map(after) =~= as_map(slots).insert(slot.key@, slot.value));
}

proof fn lemma_remove<V>(slots: Seq<Slot<V>>, at: int)
    requires
        distinct(slots),
        0 <= at < slots.len(),
    ensures
        distinct(slots.remove(at)),
        as_map(slots.remove(at)) == as_map(slots).remove(slots[at].key@),
        as_map(slots).contains_key(slots[at].key@),
        as_map(slots)[slots[at].key@] == slots[at].value,
        index_of(slots.remove(at), slots[at].key@).is_none(),
{
    let after = slots.remove(at);
    let gone = slots[at].key@;
    lemma_index_of(slots, at);
    assert forall|i: int, j: int| 0 <= i < j < after.len() implies after[i].key@
        != after[j].key@ by {
        let oi = if i < at { i } else { i + 1 };
        let oj = if j < at { j } else { j + 1 };
        assert(after[i] == slots[oi] && after[j] == slots[oj]);
    }
    assert forall|k: PathKeyView| #[trigger]
        as_map(after).contains_key(k) == as_map(slots).remove(gone).contains_key(k) && (as_map(
            after,
        ).contains_key(k) ==> as_map(after)[k] == as_map(slots).remove(gone)[k]) by {
        if k == gone {
            assert forall|i: int| !holds(after, k, i) by {
                if 0 <= i < after.len() {
                    let oi = if i < at { i } else { i + 1 };
                    assert(after[i] == slots[oi]);
                    if oi < at {
                        assert(slots[oi].key@ != slots[at].key@);
                    } else {
                        assert(slots[at].key@ != slots[oi].key@);
                    }
                }
            }
        } else if index_of(slots, k).is_some() {
            let oi = index_of(slots, k).unwrap();
            assert(holds(slots, k, oi));
            let i = if oi < at { oi } else { oi - 1 };
            assert(after[i] == slots[oi]);
            lemma_index_of(after, i);
        } else {
            assert forall|i: int| !holds(after, k, i) by {
                if 0 <= i < after.len() {
                    let oi = if i < at { i } else { i + 1 };
                    assert(after[i] == slots[oi]);
                    assert(!holds(slots, k, oi));
                }
            }
        }
    }
    assert(as_map(after) =~= as_map(slots).remove(gone));
}

/// Holds at most one value per key, found again by the key's locale and path.
pub struct Table<V> {
    slots: Vec<Slot<V>>,
}

impl<V> View for Table<V> {
    type V = Map<PathKeyView, V>;

    /// The table as a map from what a key stands for to the value kept under it.
    closed spec fn view(&self) -> Map<PathKeyView, V> {
        as_map(self.slots@)
    }
}

impl<V> Table<V> {
    #[verifier::type_invariant]
    spec fn distinct_keys(self) -> bool {
        distinct(self.slots@)
    }

    /// An empty table.
    pub fn new() -> (table: Table<V>)
        ensures
            table@ == Map::<PathKeyView, V>::empty(),
    {
        let table = Table { slots: Vec::new() };
        proof {
            assert forall|k: PathKeyView| !(#[trigger] as_map(table.slots@).contains_key(k)) by {
                assert forall|i: int| !holds(table.slots@, k, i) by {}
            }
            assert(table@ =~= Map::<PathKeyView, V>::empty());
        }
        table
    }

    fn position(&self, key: &PathKey) -> (at: Option<usize>)
        ensures
            match at {
                Some(i) => i < self.slots.len() && self.slots[i as int].key@ == key@,
                None => true,
            },
            index_of(self.slots@, key@) == match at {
                Some(i) => Some(i as int),
                None => None,
            },
    {
        proof {
            use_type_invariant(self);
        }
        let mut i: usize = 0;
        while i < self.slots.len()
            invariant
                i <= self.slots.len(),
                distinct(self.slots@),
                forall|j: int| 0 <= j < i ==> self.slots[j].key@ != key@,
            decreases self.slots.len() - i,
        {
            if self.slots[i].key.same_as(key) {
                proof {
                    lemma_index_of(self.slots@, i as int);
                }
                return Some(i);
            }
            i += 1;
        }
        proof {
            lemma_absent(self.slots@, key@);
        }
        None
    }

    /// Whether a value is kept under `key`.
    pub fn contains_key(&self, key: &PathKey) -> (held: bool)
        ensures
            held == self@.contains_key(key@),
    {
        self.position(key).is_some()
    }

    /// The value kept under `key`, if there is one.
    pub fn get(&self, key: &PathKey) -> (found: Option<&V>)
        ensures
            match found {
                Some(value) => self@.contains_key(key@) && *value == self@[key@],
                None => !self@.contains_key(key@),
            },
    {
        match self.position(key) {
            Some(i) => Some(&self.slots[i].value),
            None => None,
        }
    }

    /// Puts `value` under `key` and hands back the value it replaces, if any.
    pub fn insert(&mut self, key: PathKey, value: V) -> (replaced: Option<V>)
        ensures
            final(self)@ == old(self)@.insert(key@, value),
            match replaced {
                Some(before) => old(self)@.contains_key(key@) && before == old(self)@[key@],
                None => !old(self)@.contains_key(key@),
            },
    {
        proof {
            use_type_invariant(&*self);
        }
        let at = self.position(&key);
        let mut slots = self.take_slots();
        let replaced = match at {
            Some(i) => {
                proof {
                    lemma_remove(slots@, i as int);
                }
                Some(slots.remove(i).value)
            },
            None => None,
        };
        proof {
            let slot = Slot { key, value };
            lemma_push(slots@, slot);
            assert(old(self)@.remove(key@).insert(key@, value) =~= old(self)@.insert(key@, value));
        }
        slots.push(Slot { key, value });
        self.slots = slots;
        replaced
    }

    /// Takes away what is kept under `key` and hands it back, if there was anything.
    pub fn remove(&mut self, key: &PathKey) -> (removed: Option<V>)
        ensures
            final(self)@ == old(self)@.remove(key@),
            match removed {
                Some(before) => old(self)@.contains_key(key@) && before == old(self)@[key@],
                None => !old(self)@.contains_key(key@),
            },
    {
        proof {
            use_type_invariant(&*self);
        }
        match self.position(key) {
            Some(i) => {
                let mut slots = self.take_slots();
                proof {
                    lemma_remove(slots@, i as int);
                }
                let slot = slots.remove(i);
                self.slots = slots;
                Some(slot.value)
            },
            None => {
                assert(old(self)@.remove(key@) =~= old(self)@);
                None
            },
        }
    }

    /// Moves the slots out, leaving the table empty.
    fn take_slots(&mut self) -> (slots: Vec<Slot<V>>)
        ensures
            slots == old(self).slots,
            final(self).slots@.len() == 0,
    {
        let mut slots: Vec<Slot<V>> = Vec::new();
        core::mem::swap(&mut self.slots, &mut slots);
        slots
    }
}

} // verus!
