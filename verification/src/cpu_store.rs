//! In-memory store implementation.
//!
//! Mostly meant for testing.

use vstd::prelude::*;

use crate::exchange::lookup;
use crate::json::{JsonError, JsonSerialized};
use crate::IsStore;

verus! {

/// A backend that keeps its entries in memory, as JSON values: one slot for
/// each key that it holds.
pub struct CpuStore {
    inner: Vec<(String, JsonSerialized)>,
}

/// Whether `key` is the key of one of `slots`.
pub open spec fn holds(slots: Seq<(String, JsonSerialized)>, key: Seq<char>) -> bool {
    exists|i: int| 0 <= i < slots.len() && (#[trigger] slots[i]).0@ == key
}

/// The place of `key` among `slots`.
pub open spec fn place(slots: Seq<(String, JsonSerialized)>, key: Seq<char>) -> int {
    choose|i: int| 0 <= i < slots.len() && (#[trigger] slots[i]).0@ == key
}

/// Whether no key occurs twice among `slots`.
pub open spec fn distinct(slots: Seq<(String, JsonSerialized)>) -> bool {
    forall|i: int, j: int|
        0 <= i < slots.len() && 0 <= j < slots.len() && (#[trigger] slots[i]).0@ == (
        #[trigger] slots[j]).0@ ==> i == j
}

/// The entries that `slots` stand for: each key with the value beside it.
pub open spec fn entries_of(slots: Seq<(String, JsonSerialized)>) -> Map<
    Seq<char>,
    JsonSerialized,
> {
    Map::new(|key: Seq<char>| holds(slots, key), |key: Seq<char>| slots[place(slots, key)].1)
}

/// Among slots with distinct keys, the slot with a key is the key's place.
proof fn lemma_place(slots: Seq<(String, JsonSerialized)>, key: Seq<char>, i: int)
    requires
        distinct(slots),
        0 <= i < slots.len(),
        slots[i].0@ == key,
    ensures
        place(slots, key) == i,
{
    let at = place(slots, key);
    assert(slots[at].0@ == slots[i].0@);
}

/// What putting `value` under `key` does to the entries, where `after` is
/// `slots` with the slot of `key` replaced, or with one more slot at the end
/// if `slots` had none for `key`: it sets `key` to `value`, and no key occurs
/// twice afterwards.
proof fn lemma_set(
    slots: Seq<(String, JsonSerialized)>,
    after: Seq<(String, JsonSerialized)>,
    i: int,
    key: Seq<char>,
    value: JsonSerialized,
)
    requires
        distinct(slots),
        0 <= i < after.len(),
        after[i].0@ == key,
        after[i].1 == value,
        i < slots.len() ==> after.len() == slots.len() && slots[i].0@ == key,
        i >= slots.len() ==> after.len() == slots.len() + 1 && !holds(slots, key),
        forall|j: int| 0 <= j < slots.len() && j != i ==> #[trigger] after[j] == slots[j],
    ensures
        distinct(after),
        entries_of(after) == entries_of(slots).insert(key, value),
{
    assert forall|j: int| 0 <= j < after.len() && j != i implies (#[trigger] after[j]).0@
        != key by {
        assert(after[j] == slots[j]);
        if i < slots.len() {
            assert(slots[j].0@ != slots[i].0@);
        }
    }
    assert forall|a: int, b: int|
        0 <= a < after.len() && 0 <= b < after.len() && (#[trigger] after[a]).0@ == (
        #[trigger] after[b]).0@ implies a == b by {
        if a != i && b != i {
            assert(slots[a].0@ == slots[b].0@);
        }
    }
    assert forall|other: Seq<char>| holds(after, other) == (holds(slots, other) || other
        == key) by {
        if holds(slots, other) && other != key {
            let at = place(slots, other);
            assert(after[at].0@ == other);
        }
        if other == key {
            assert(after[i].0@ == other);
        }
        if holds(after, other) && other != key {
            let at = place(after, other);
            assert(slots[at].0@ == other);
        }
    }
    assert forall|other: Seq<char>| holds(after, other) implies #[trigger] entries_of(after)[other]
        == entries_of(slots).insert(key, value)[other] by {
        if other == key {
            lemma_place(after, key, i);
        } else {
            let at = place(after, other);
            assert(slots[at].0@ == other);
            lemma_place(slots, other, at);
        }
    }
    assert(entries_of(after) =~= entries_of(slots).insert(key, value));
}

impl CpuStore {
    /// A backend that holds nothing.
    pub fn new() -> (store: Self)
        ensures
            store.well_formed(),
            store.entries() == Map::<Seq<char>, JsonSerialized>::empty(),
    {
        let store = CpuStore { inner: Vec::new() };
        assert(store.entries() =~= Map::<Seq<char>, JsonSerialized>::empty());
        store
    }

    /// The index of the slot that holds `key`, if there is one.
    fn find(&self, key: &String) -> (found: Option<usize>)
        ensures
            match found {
                Some(i) => i < self.inner.len() && self.inner@[i as int].0@ == key@,
                None => !holds(self.inner@, key@),
            },
    {
        let mut i: usize = 0;
        while i < self.inner.len()
            invariant
                i <= self.inner.len(),
                forall|j: int| 0 <= j < i ==> (#[trigger] self.inner@[j]).0@ != key@,
            decreases self.inner.len() - i,
        {
            if self.inner[i].0 == *key {
                return Some(i);
            }
            i = i + 1;
        }
        None
    }
}

impl Default for CpuStore {
    fn default() -> (store: Self)
        ensures
            store.well_formed(),
            store.entries() == Map::<Seq<char>, JsonSerialized>::empty(),
    {
        CpuStore::new()
    }
}

impl IsStore for CpuStore {
    type Error = JsonError;

    type StoreValue = JsonSerialized;

    /// No key is held twice.
    closed spec fn well_formed(&self) -> bool {
        distinct(self.inner@)
    }

    closed spec fn entries(&self) -> Map<Seq<char>, JsonSerialized> {
        entries_of(self.inner@)
    }

    /// Never fails: the answer is a copy of the value held under `key`, or
    /// `None` when there is none.
    fn fetch_serialized_by_key(&self, key: &str) -> (fetched: Result<
        Option<JsonSerialized>,
        JsonError,
    >)
        ensures
            fetched == Ok::<Option<JsonSerialized>, JsonError>(lookup(self.entries(), key@)),
    {
        let key = String::from_str(key);
        match self.find(&key) {
            None => Ok(None),
            Some(i) => {
                proof {
                    lemma_place(self.inner@, key@, i as int);
                }
                Ok(Some(self.inner[i].1.copy()))
            },
        }
    }

    /// Never fails: afterwards `serialized_value` is held under `key`,
    /// whatever was held there before.
    fn store_serialized_by_key(&mut self, key: &str, serialized_value: JsonSerialized) -> (stored:
        Result<(), JsonError>)
        ensures
            stored is Ok,
    {
        let ghost before = self.inner@;
        let key = String::from_str(key);
        match self.find(&key) {
            None => {
                self.inner.push((key, serialized_value));
                proof {
                    lemma_set(
                        before,
                        self.inner@,
                        before.len() as int,
                        key@,
                        serialized_value,
                    );
                }
            },
            Some(i) => {
                self.inner.set(i, (key, serialized_value));
                proof {
                    lemma_set(before, self.inner@, i as int, key@, serialized_value);
                }
            },
        }
        Ok(())
    }
}

} // verus!
