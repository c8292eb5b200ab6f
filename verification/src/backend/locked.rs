//! A `HashMap` behind a `parking_lot::RwLock` as a store's map: one lock
//! for the whole map.

use crate::entries::{lists, Entries};
use parking_lot::RwLock;
use serde_json::Value;
use std::collections::HashMap;
use vstd::prelude::*;

verus! {

/// `lock_api::RwLock`, which `parking_lot::RwLock` is with `RawRwLock` as
/// its first parameter: a readers-writer lock around a value.
#[verifier::external_type_specification]
#[verifier::external_body]
#[verifier::reject_recursive_types(R)]
#[verifier::reject_recursive_types(T)]
pub struct ExRwLock<R, T: ?Sized>(parking_lot::lock_api::RwLock<R, T>);

/// `parking_lot::RawRwLock`: the lock itself, without a value.
#[verifier::external_type_specification]
#[verifier::external_body]
pub struct ExRawRwLock<const RECURSIVE: bool>(parking_lot::RawRwLock<RECURSIVE>);

/// The entries of the `HashMap` that the lock guards.
pub uninterp spec fn locked_entries(m: RwLock<HashMap<String, Value>>) -> Entries;

/// `RwLock::default`: a lock around `HashMap::default()`, a map without
/// entries.
#[verifier::external_body]
fn locked_new() -> (m: RwLock<HashMap<String, Value>>)
    ensures
        locked_entries(m) == Entries::empty(),
{
    RwLock::default()
}

/// `RwLock::write`, then `HashMap::insert` on the guarded map: puts the
/// value under the key and returns the value that the key had before.
#[verifier::external_body]
fn locked_insert(m: &mut RwLock<HashMap<String, Value>>, key: String, value: Value) -> (prev:
    Option<Value>)
    ensures
        locked_entries(*final(m)) == locked_entries(*old(m)).insert(key@, value),
        prev == locked_entries(*old(m)).get(key@),
{
    m.write().insert(key, value)
}

/// `RwLock::read`, then `HashMap::get` on the guarded map: a clone of the
/// value under the key, if it is present.
#[verifier::external_body]
fn locked_get(m: &RwLock<HashMap<String, Value>>, key: &String) -> (found: Option<Value>)
    ensures
        found == locked_entries(*m).get(key@),
{
    m.read().get(key).cloned()
}

/// `RwLock::write`, then `HashMap::remove` on the guarded map: takes the
/// key out and returns the value that it had.
#[verifier::external_body]
fn locked_remove(m: &mut RwLock<HashMap<String, Value>>, key: &String) -> (prev: Option<Value>)
    ensures
        locked_entries(*final(m)) == locked_entries(*old(m)).remove(key@),
        prev == locked_entries(*old(m)).get(key@),
{
    m.write().remove(key)
}

/// `RwLock::read`, then `HashMap::iter` on the guarded map: visits every
/// entry once, in an order that is left open; each is cloned into the
/// result before the lock is released.
#[verifier::external_body]
fn locked_snapshot(m: &RwLock<HashMap<String, Value>>) -> (snap: Vec<(String, Value)>)
    ensures
        lists(snap@, locked_entries(*m)),
{
    m.read().iter().map(|(k, v)| (k.clone(), v.clone())).collect()
}

/// `RwLock::read`, then `HashMap::len` on the guarded map.
#[verifier::external_body]
fn locked_len(m: &RwLock<HashMap<String, Value>>) -> (n: usize)
    ensures
        n == locked_entries(*m).len(),
{
    m.read().len()
}

/// `RwLock::read`, then `HashMap::contains_key` on the guarded map.
#[verifier::external_body]
fn locked_contains_key(m: &RwLock<HashMap<String, Value>>, key: &String) -> (present: bool)
    ensures
        present == locked_entries(*m).dom().contains(key@),
{
    m.read().contains_key(key)
}

/// `RwLock::write`, then `HashMap::clear` on the guarded map.
#[verifier::external_body]
fn locked_clear(m: &mut RwLock<HashMap<String, Value>>)
    ensures
        locked_entries(*final(m)) == Entries::empty(),
{
    m.write().clear()
}

/// Every operation takes the lock once, and is the `HashMap`'s own.
impl crate::backend::MapBackend for RwLock<HashMap<String, Value>> {
    open spec fn entries(&self) -> Entries {
        locked_entries(*self)
    }

    open spec fn wf(&self) -> bool {
        locked_entries(*self).dom().finite()
    }

    proof fn lemma_wf_finite(&self) {
    }

    fn empty() -> (map: Self) {
        locked_new()
    }

    fn insert(&mut self, key: String, value: Value) -> (prev: Option<Value>) {
        locked_insert(self, key, value)
    }

    fn get(&self, key: &String) -> (found: Option<Value>) {
        locked_get(self, key)
    }

    fn remove(&mut self, key: &String) -> (prev: Option<Value>) {
        locked_remove(self, key)
    }

    fn iter_snapshot(&self) -> (snap: Vec<(String, Value)>) {
        locked_snapshot(self)
    }

    fn map_len(&self) -> (n: usize) {
        locked_len(self)
    }

    fn contains_key(&self, key: &String) -> (present: bool) {
        locked_contains_key(self, key)
    }

    fn clear(&mut self) {
        locked_clear(self)
    }
}

} // verus!
