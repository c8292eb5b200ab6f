//! The contract that a map must meet to hold a store's entries in memory,
//! and the maps that meet it.

use crate::entries::{lemma_listing_len, lists, Entries};
use serde_json::Value;
use vstd::prelude::*;

pub mod dash;
pub mod locked;
pub mod plain;
pub mod sharded;

verus! {

/// The map that a store uses where nothing speaks for another.
pub type DefaultBackend = shardmap::ShardMap<String, Value>;

/// A map from `String` keys to JSON values that a store can keep its entries
/// in.
///
/// `entries` is what the map holds and `wf` is its invariant; an
/// implementation chooses both. Every method hands out owned values, so no
/// caller keeps a reference into the map. Duplicate keys always mean that the
/// last insert wins. `map_len`, `contains_key` and `clear` have defaults that
/// are built from the other methods; a map with a cheaper native operation
/// overrides them, and must behave the same.
pub trait MapBackend: Sized {
    /// What the map holds.
    spec fn entries(&self) -> Entries;

    /// The map's invariant. It is established by `empty` and kept by every
    /// method.
    spec fn wf(&self) -> bool;

    /// A well-formed map holds finitely many entries.
    proof fn lemma_wf_finite(&self)
        requires
            self.wf(),
        ensures
            self.entries().dom().finite(),
    ;

    /// A new map without entries.
    fn empty() -> (map: Self)
        ensures
            map.wf(),
            map.entries() == Entries::empty(),
    ;

    /// Inserts or overwrites, and returns what was replaced.
    fn insert(&mut self, key: String, value: Value) -> (prev: Option<Value>)
        requires
            old(self).wf(),
        ensures
            final(self).wf(),
            final(self).entries() == old(self).entries().insert(key@, value),
            prev == old(self).entries().get(key@),
    ;

    /// An owned copy of the value under `key`.
    fn get(&self, key: &String) -> (found: Option<Value>)
        requires
            self.wf(),
        ensures
            found == self.entries().get(key@),
    ;

    /// Removes `key`, and returns the value that it had.
    fn remove(&mut self, key: &String) -> (prev: Option<Value>)
        requires
            old(self).wf(),
        ensures
            final(self).wf(),
            final(self).entries() == old(self).entries().remove(key@),
            prev == old(self).entries().get(key@),
    ;

    /// All entries at one point in time, each once, in no particular order.
    fn iter_snapshot(&self) -> (snap: Vec<(String, Value)>)
        requires
            self.wf(),
        ensures
            lists(snap@, self.entries()),
    ;

    /// The number of entries. The default counts a snapshot.
    fn map_len(&self) -> (n: usize)
        requires
            self.wf(),
        ensures
            self.entries().dom().finite(),
            n == self.entries().len(),
    {
        let snap = self.iter_snapshot();
        proof {
            lemma_listing_len(snap@, self.entries());
        }
        snap.len()
    }

    /// Whether `key` is present. The default asks `get`.
    fn contains_key(&self, key: &String) -> (present: bool)
        requires
            self.wf(),
        ensures
            present == self.entries().dom().contains(key@),
    {
        self.get(key).is_some()
    }

    /// Removes every entry. The default takes a snapshot and removes its
    /// keys one by one.
    fn clear(&mut self)
        requires
            old(self).wf(),
        ensures
            final(self).wf(),
            final(self).entries() == Entries::empty(),
    {
        let snap = self.iter_snapshot();
        let mut i: usize = 0;
        while i < snap.len()
            invariant
                0 <= i <= snap.len(),
                self.wf(),
                forall|k: Seq<char>| #[trigger]
                    self.entries().dom().contains(k) ==> exists|j: int|
                        i <= j < snap.len() && (#[trigger] snap@[j]).0@ == k,
            decreases snap.len() - i,
        {
            let _ = self.remove(&snap[i].0);
            i += 1;
        }
        assert(self.entries() =~= Entries::empty());
    }
}

} // verus!
