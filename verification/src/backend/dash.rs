//! `dashmap::DashMap` as a store's map.

use crate::entries::{lists, Entries};
use dashmap::DashMap;
use serde_json::Value;
use vstd::prelude::*;

verus! {

/// `dashmap::DashMap`: a hash map in shards, each behind its own lock.
#[verifier::external_type_specification]
#[verifier::external_body]
#[verifier::reject_recursive_types(K)]
#[verifier::reject_recursive_types(V)]
#[verifier::reject_recursive_types(S)]
pub struct ExDashMap<K, V, S>(dashmap::DashMap<K, V, S>);

/// The entries that a `DashMap` holds.
pub uninterp spec fn dash_entries(m: DashMap<String, Value>) -> Entries;

/// `DashMap::default`: a map without entries.
#[verifier::external_body]
fn dash_new() -> (m: DashMap<String, Value>)
    ensures
        dash_entries(m) == Entries::empty(),
{
    DashMap::default()
}

/// `DashMap::insert`: puts the value under the key and returns the value
/// that the key had before, if any. All other entries stay.
#[verifier::external_body]
fn dash_insert(m: &mut DashMap<String, Value>, key: String, value: Value) -> (prev: Option<Value>)
    ensures
        dash_entries(*final(m)) == dash_entries(*old(m)).insert(key@, value),
        prev == dash_entries(*old(m)).get(key@),
{
    DashMap::insert(m, key, value)
}

/// `DashMap::get`: a clone of the value under the key, if it is present.
#[verifier::external_body]
fn dash_get(m: &DashMap<String, Value>, key: &String) -> (found: Option<Value>)
    ensures
        found == dash_entries(*m).get(key@),
{
    DashMap::get(m, key).map(|r| r.value().clone())
}

/// `DashMap::remove`: takes the key out and returns the value that it had,
/// if any. All other entries stay.
#[verifier::external_body]
fn dash_remove(m: &mut DashMap<String, Value>, key: &String) -> (prev: Option<Value>)
    ensures
        dash_entries(*final(m)) == dash_entries(*old(m)).remove(key@),
        prev == dash_entries(*old(m)).get(key@),
{
    DashMap::remove(m, key).map(|(_, v)| v)
}

/// `DashMap::iter`: visits every entry once, in an order that is left open;
/// each is cloned into the result.
#[verifier::external_body]
fn dash_snapshot(m: &DashMap<String, Value>) -> (snap: Vec<(String, Value)>)
    ensures
        lists(snap@, dash_entries(*m)),
{
    DashMap::iter(m).map(|r| (r.key().clone(), r.value().clone())).collect()
}

/// `DashMap::len`: the number of entries.
#[verifier::external_body]
fn dash_len(m: &DashMap<String, Value>) -> (n: usize)
    ensures
        n == dash_entries(*m).len(),
{
    DashMap::len(m)
}

/// `DashMap::contains_key`: whether the key is present.
#[verifier::external_body]
fn dash_contains_key(m: &DashMap<String, Value>, key: &String) -> (present: bool)
    ensures
        present == dash_entries(*m).dom().contains(key@),
{
    DashMap::contains_key(m, key)
}

/// `DashMap::clear`: removes every entry.
#[verifier::external_body]
fn dash_clear(m: &mut DashMap<String, Value>)
    ensures
        dash_entries(*final(m)) == Entries::empty(),
{
    DashMap::clear(m)
}

/// Every operation is the map's own.
impl crate::backend::MapBackend for DashMap<String, Value> {
    open spec fn entries(&self) -> Entries {
        dash_entries(*self)
    }

    open spec fn wf(&self) -> bool {
        dash_entries(*self).dom().finite()
    }

    proof fn lemma_wf_finite(&self) {
    }

    fn empty() -> (map: Self) {
        dash_new()
    }

    fn insert(&mut self, key: String, value: Value) -> (prev: Option<Value>) {
        dash_insert(self, key, value)
    }

    fn get(&self, key: &String) -> (found: Option<Value>) {
        dash_get(self, key)
    }

    fn remove(&mut self, key: &String) -> (prev: Option<Value>) {
        dash_remove(self, key)
    }

    fn iter_snapshot(&self) -> (snap: Vec<(String, Value)>) {
        dash_snapshot(self)
    }

    fn map_len(&self) -> (n: usize) {
        dash_len(self)
    }

    fn contains_key(&self, key: &String) -> (present: bool) {
        dash_contains_key(self, key)
    }

    fn clear(&mut self) {
        dash_clear(self)
    }
}

} // verus!
