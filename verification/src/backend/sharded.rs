//! `shardmap::ShardMap` as a store's map.

use crate::entries::{lists, Entries};
use serde_json::Value;
use shardmap::ShardMap;
use vstd::prelude::*;

verus! {

/// `shardmap::ShardMap`: a hash map in shards, each behind its own lock,
/// whose entries may be given a time to live.
#[verifier::external_type_specification]
#[verifier::external_body]
#[verifier::reject_recursive_types(K)]
#[verifier::reject_recursive_types(V)]
pub struct ExShardMap<K, V, const SHARDS: usize>(shardmap::ShardMap<K, V, SHARDS>);

/// The entries that a `ShardMap` holds.
pub uninterp spec fn shard_entries(m: ShardMap<String, Value>) -> Entries;

/// The time to live that a `ShardMap` was made with, in milliseconds: what
/// `ShardMap::default_ttl_ms` returns. With `None` no entry ever expires.
pub uninterp spec fn shard_default_ttl(m: ShardMap<String, Value>) -> Option<u64>;

/// `ShardMap::default`: a map without entries and without a time to live.
#[verifier::external_body]
fn shard_new() -> (m: ShardMap<String, Value>)
    ensures
        shard_entries(m) == Entries::empty(),
        shard_default_ttl(m) is None,
{
    ShardMap::default()
}

/// `ShardMap::insert`: puts the value under the key and returns the value
/// that the key had before, if any. All other entries stay, and so does
/// the map's time to live.
#[verifier::external_body]
fn shard_insert(m: &mut ShardMap<String, Value>, key: String, value: Value) -> (prev: Option<
    Value,
>)
    requires
        shard_default_ttl(*old(m)) is None,
    ensures
        shard_entries(*final(m)) == shard_entries(*old(m)).insert(key@, value),
        shard_default_ttl(*final(m)) is None,
        prev == shard_entries(*old(m)).get(key@),
{
    ShardMap::insert(m, key, value)
}

/// `ShardMap::get`: a clone of the value under the key, if it is present.
#[verifier::external_body]
fn shard_get(m: &ShardMap<String, Value>, key: &String) -> (found: Option<Value>)
    requires
        shard_default_ttl(*m) is None,
    ensures
        found == shard_entries(*m).get(key@),
{
    ShardMap::get(m, key)
}

/// `ShardMap::remove`: takes the key out and returns the value that it
/// had, if any. All other entries stay, and so does the map's time to live.
#[verifier::external_body]
fn shard_remove(m: &mut ShardMap<String, Value>, key: &String) -> (prev: Option<Value>)
    requires
        shard_default_ttl(*old(m)) is None,
    ensures
        shard_entries(*final(m)) == shard_entries(*old(m)).remove(key@),
        shard_default_ttl(*final(m)) is None,
        prev == shard_entries(*old(m)).get(key@),
{
    ShardMap::remove(m, key)
}

/// `ShardMap::entries`: a clone of every entry, each once, shard by shard,
/// in an order that is left open.
#[verifier::external_body]
fn shard_snapshot(m: &ShardMap<String, Value>) -> (snap: Vec<(String, Value)>)
    requires
        shard_default_ttl(*m) is None,
    ensures
        lists(snap@, shard_entries(*m)),
{
    ShardMap::entries(m)
}

/// `ShardMap::len`: the number of entries.
#[verifier::external_body]
fn shard_len(m: &ShardMap<String, Value>) -> (n: usize)
    requires
        shard_default_ttl(*m) is None,
    ensures
        n == shard_entries(*m).len(),
{
    ShardMap::len(m)
}

/// A `ShardMap` serves as a store's map where it was made without a time to
/// live, so that no entry leaves by itself. `contains_key` and `clear` are
/// the trait's defaults.
impl crate::backend::MapBackend for ShardMap<String, Value> {
    open spec fn entries(&self) -> Entries {
        shard_entries(*self)
    }

    open spec fn wf(&self) -> bool {
        &&& shard_entries(*self).dom().finite()
        &&& shard_default_ttl(*self) is None
    }

    proof fn lemma_wf_finite(&self) {
    }

    fn empty() -> (map: Self) {
        shard_new()
    }

    fn insert(&mut self, key: String, value: Value) -> (prev: Option<Value>) {
        shard_insert(self, key, value)
    }

    fn get(&self, key: &String) -> (found: Option<Value>) {
        shard_get(self, key)
    }

    fn remove(&mut self, key: &String) -> (prev: Option<Value>) {
        shard_remove(self, key)
    }

    fn iter_snapshot(&self) -> (snap: Vec<(String, Value)>) {
        shard_snapshot(self)
    }

    fn map_len(&self) -> (n: usize) {
        shard_len(self)
    }
}

} // verus!
