//! A list of entries as a store's map: no hashing, no locks, no outside
//! code. It is meant for small stores and for tests, and shows that the
//! contract of a backend can be met.

use crate::entries::{
    distinct_keys, entries_of, lemma_distinct_lists, lemma_insert_all_finite,
    lemma_listing_rebuilds, Entries,
};
use serde_json::Value;
use vstd::prelude::*;

verus! {

/// Entries in a list, each key once. A key that is inserted again moves to
/// the end of the list with its new value.
#[derive(Debug)]
pub struct PlainMap {
    items: Vec<(String, Value)>,
}

impl PlainMap {
    /// The place of `key` in the list, if it is present.
    fn position(&self, key: &String) -> (at: Option<usize>)
        ensures
            at matches Some(i) ==> i < self.items@.len() && self.items@[i as int].0@ == key@,
            at is None ==> forall|j: int|
                0 <= j < self.items@.len() ==> (#[trigger] self.items@[j]).0@ != key@,
    {
        let mut i: usize = 0;
        while i < self.items.len()
            invariant
                0 <= i <= self.items@.len(),
                forall|j: int| 0 <= j < i ==> (#[trigger] self.items@[j]).0@ != key@,
            decreases self.items@.len() - i,
        {
            if self.items[i].0 == *key {
                return Some(i);
            }
            i += 1;
        }
        None
    }
}

impl crate::backend::MapBackend for PlainMap {
    closed spec fn entries(&self) -> Entries {
        entries_of(self.items@)
    }

    closed spec fn wf(&self) -> bool {
        distinct_keys(self.items@)
    }

    proof fn lemma_wf_finite(&self) {
        lemma_insert_all_finite(Entries::empty(), self.items@);
    }

    fn empty() -> (map: Self) {
        PlainMap { items: Vec::new() }
    }

    fn insert(&mut self, key: String, value: Value) -> (prev: Option<Value>) {
        proof {
            lemma_distinct_lists(self.items@);
        }
        let ghost before = self.items@;
        let ghost target = entries_of(before).insert(key@, value);
        match self.position(&key) {
            Some(i) => {
                let prev = self.items.remove(i).1;
                self.items.push((key, value));
                proof {
                    let after = self.items@;
                    assert forall|a: int| 0 <= a < after.len() implies target.get(
                        (#[trigger] after[a]).0@,
                    ) == Some(after[a].1) by {
                        if a < i {
                            assert(after[a] == before[a]);
                        } else if a < after.len() - 1 {
                            assert(after[a] == before[a + 1]);
                        }
                    }
                    assert forall|a: int, b: int| 0 <= a < b < after.len() implies (
                    #[trigger] after[a]).0@ != (#[trigger] after[b]).0@ by {
                        let a0 = if a < i { a } else { a + 1 };
                        let b0 = if b < i { b } else { b + 1 };
                        assert(after[a] == before[a0]);
                        if b < after.len() - 1 {
                            assert(after[b] == before[b0]);
                        }
                    }
                    assert forall|k: Seq<char>| #[trigger] target.dom().contains(k) implies exists|
                        a: int,
                    | 0 <= a < after.len() && (#[trigger] after[a]).0@ == k by {
                        if k == key@ {
                            assert(after[after.len() - 1].0@ == k);
                        } else {
                            let a0 = choose|a0: int|
                                0 <= a0 < before.len() && (#[trigger] before[a0]).0@ == k;
                            let a = if a0 < i { a0 } else { a0 - 1 };
                            assert(after[a] == before[a0]);
                        }
                    }
                    lemma_listing_rebuilds(after, target);
                }
                Some(prev)
            },
            None => {
                self.items.push((key, value));
                proof {
                    let after = self.items@;
                    assert(after.drop_last() == before);
                    assert forall|a: int, b: int| 0 <= a < b < after.len() implies (
                    #[trigger] after[a]).0@ != (#[trigger] after[b]).0@ by {
                        assert(after[a] == before[a]);
                        if b < after.len() - 1 {
                            assert(after[b] == before[b]);
                        }
                    }
                    if entries_of(before).dom().contains(key@) {
                        let a0 = choose|a0: int|
                            0 <= a0 < before.len() && (#[trigger] before[a0]).0@ == key@;
                        assert(false);
                    }
                }
                None
            },
        }
    }

    fn get(&self, key: &String) -> (found: Option<Value>) {
        proof {
            lemma_distinct_lists(self.items@);
        }
        match self.position(key) {
            Some(i) => Some(self.items[i].1.clone()),
            None => {
                proof {
                    if self.entries().dom().contains(key@) {
                        let a = choose|a: int|
                            0 <= a < self.items@.len() && (#[trigger] self.items@[a]).0@ == key@;
                        assert(false);
                    }
                }
                None
            },
        }
    }

    fn remove(&mut self, key: &String) -> (prev: Option<Value>) {
        proof {
            lemma_distinct_lists(self.items@);
        }
        let ghost before = self.items@;
        let ghost target = entries_of(before).remove(key@);
        match self.position(key) {
            Some(i) => {
                let prev = self.items.remove(i).1;
                proof {
                    let after = self.items@;
                    assert forall|a: int| 0 <= a < after.len() implies target.get(
                        (#[trigger] after[a]).0@,
                    ) == Some(after[a].1) by {
                        let a0 = if a < i { a } else { a + 1 };
                        assert(after[a] == before[a0]);
                    }
                    assert forall|a: int, b: int| 0 <= a < b < after.len() implies (
                    #[trigger] after[a]).0@ != (#[trigger] after[b]).0@ by {
                        let a0 = if a < i { a } else { a + 1 };
                        let b0 = if b < i { b } else { b + 1 };
                        assert(after[a] == before[a0]);
                        assert(after[b] == before[b0]);
                    }
                    assert forall|k: Seq<char>| #[trigger] target.dom().contains(k) implies exists|
                        a: int,
                    | 0 <= a < after.len() && (#[trigger] after[a]).0@ == k by {
                        let a0 = choose|a0: int|
                            0 <= a0 < before.len() && (#[trigger] before[a0]).0@ == k;
                        let a = if a0 < i { a0 } else { a0 - 1 };
                        assert(after[a] == before[a0]);
                    }
                    lemma_listing_rebuilds(after, target);
                }
                Some(prev)
            },
            None => {
                proof {
                    if entries_of(before).dom().contains(key@) {
                        let a = choose|a: int|
                            0 <= a < before.len() && (#[trigger] before[a]).0@ == key@;
                        assert(false);
                    }
                    assert(target =~= entries_of(before));
                }
                None
            },
        }
    }

    fn iter_snapshot(&self) -> (snap: Vec<(String, Value)>) {
        proof {
            lemma_distinct_lists(self.items@);
        }
        let mut snap: Vec<(String, Value)> = Vec::new();
        let mut i: usize = 0;
        while i < self.items.len()
            invariant
                0 <= i <= self.items@.len(),
                snap@ == self.items@.take(i as int),
            decreases self.items@.len() - i,
        {
            snap.push((self.items[i].0.clone(), self.items[i].1.clone()));
            i += 1;
            assert(snap@ =~= self.items@.take(i as int));
        }
        assert(self.items@.take(self.items@.len() as int) == self.items@);
        snap
    }
}

} // verus!
