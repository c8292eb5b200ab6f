//! The store, and the builder that opens it.

use crate::backend::MapBackend;
use crate::entries::{
    entries_of, insert_all, keys_of, lemma_insert_all_last_wins, lemma_insert_all_present,
    lemma_listing_len, lemma_listing_rebuilds, lists, values_of, Entries,
};
use crate::error::Error;
use crate::flush::{answers, mirrors, reported, FlushAction, FlushPolicy};
use crate::persist::{held_by, load, FileRead};
use crate::serializer::{json_object, JsonSerializer, Serializer};
use serde_json::Value;
use std::marker::PhantomData;
use vstd::prelude::*;

verus! {

/// A key-value store in memory that mirrors itself to a JSON file.
///
/// The entries in memory are the live state; the file is a snapshot that
/// may lag behind by as much as the flush policy allows. The store never
/// touches the file itself. It is opened on what was read from the file,
/// and it hands its caller the bytes to write: `flush` on request, every
/// mutation as the policy asks, in the `FlushAction` that it returns.
///
/// `M` is the map that holds the entries in memory.
#[derive(Debug)]
pub struct JsonSync<M: MapBackend> {
    map: M,
    path: String,
    serializer: JsonSerializer,
    policy: FlushPolicy,
}

/// Configures and opens a `JsonSync`.
#[derive(Debug)]
pub struct JsonSyncBuilder<M: MapBackend> {
    path: String,
    policy: FlushPolicy,
    pretty: bool,
    _marker: PhantomData<M>,
}

/// The entries that a store opened on `file` starts with: none where the
/// file is missing or has no bytes; otherwise the JSON object that the bytes
/// hold. `None` where the read failed or the bytes hold no such object.
pub open spec fn json_held(file: FileRead) -> Option<Entries> {
    match file {
        FileRead::Missing => Some(Entries::empty()),
        FileRead::Failed(_) => None,
        FileRead::Contents(bytes) => if bytes@.len() == 0 {
            Some(Entries::empty())
        } else {
            json_object(bytes@)
        },
    }
}

/// `out` is how a mutation may end that changed the entries to `m`, in a
/// store with the layout `pretty`, and owes its caller `value`: with `value`
/// and the action that `policy` asks for, or, under `Immediate` alone, with
/// the `Serialize` error of an encoding that failed.
pub open spec fn settled<T>(
    policy: FlushPolicy,
    pretty: bool,
    out: Result<(T, FlushAction), Error>,
    value: T,
    m: Entries,
) -> bool {
    match out {
        Ok(done) => done.0 == value && answers(policy, pretty, done.1, m),
        Err(e) => policy is Immediate && e is Serialize,
    }
}

/// `out` is how an operation ends that found nothing to change: with
/// `value`, and with nothing left to do.
pub open spec fn untouched<T>(out: Result<(T, FlushAction), Error>, value: T) -> bool {
    out matches Ok(done) && done.0 == value && done.1 is Idle
}

/// Encodes a snapshot of `map`. What comes back as `Ok` mirrors the entries
/// of `map`: it reads back as exactly these, in the serializer's layout.
/// Whether encoding succeeds is for the serializer to say.
pub fn do_flush<M: MapBackend>(map: &M, serializer: &JsonSerializer) -> (out: Result<
    Vec<u8>,
    Error,
>)
    requires
        map.wf(),
    ensures
        out matches Ok(bytes) ==> mirrors(bytes@, serializer.is_pretty(), map.entries()),
        out matches Err(e) ==> e is Serialize,
{
    let snap = map.iter_snapshot();
    proof {
        lemma_listing_rebuilds(snap@, map.entries());
        lemma_listing_len(snap@, map.entries());
    }
    serializer.serialize(&snap)
}

impl<M: MapBackend> View for JsonSync<M> {
    type V = Entries;

    /// The entries that the store holds in memory.
    closed spec fn view(&self) -> Entries {
        self.map.entries()
    }
}

impl<M: MapBackend> JsonSync<M> {
    /// The store's invariant: its map is well formed.
    pub closed spec fn wf(&self) -> bool {
        self.map.wf()
    }

    /// The path of the store's file, as it was given to the builder.
    pub closed spec fn path_of(&self) -> Seq<char> {
        self.path@
    }

    /// The store's flush policy.
    pub closed spec fn policy_of(&self) -> FlushPolicy {
        self.policy
    }

    /// Whether the store writes indented JSON.
    pub closed spec fn is_pretty(&self) -> bool {
        self.serializer.is_pretty()
    }

    /// Nothing but the entries differs between the two stores.
    pub open spec fn same_setup(&self, other: &Self) -> bool {
        &&& self.path_of() == other.path_of()
        &&& self.policy_of() == other.policy_of()
        &&& self.is_pretty() == other.is_pretty()
    }

    /// Opens a store on what was read from the file at `path`, with manual
    /// flushing and compact JSON.
    pub fn open(path: &str, file: &FileRead) -> (out: Result<Self, Error>)
        ensures
            out is Ok <==> json_held(*file) is Some,
            out matches Ok(store) ==> store.wf() && store@ == json_held(*file).unwrap(),
            out matches Ok(store) ==> store.path_of() == path@ && store.policy_of() is Manual
                && !store.is_pretty(),
            file matches FileRead::Failed(message) ==> out matches Err(Error::Io(m)) && m
                == message,
            file is Contents ==> (out matches Err(e) ==> e is Deserialize),
    {
        Self::builder(path).build(file)
    }

    /// Opens a store with a given flush policy: short for
    /// `builder(path).policy(policy).build(file)`.
    pub fn open_with_policy(path: &str, policy: FlushPolicy, file: &FileRead) -> (out: Result<
        Self,
        Error,
    >)
        ensures
            out is Ok <==> json_held(*file) is Some,
            out matches Ok(store) ==> store.wf() && store@ == json_held(*file).unwrap(),
            out matches Ok(store) ==> store.path_of() == path@ && store.policy_of() == policy
                && !store.is_pretty(),
            file matches FileRead::Failed(message) ==> out matches Err(Error::Io(m)) && m
                == message,
            file is Contents ==> (out matches Err(e) ==> e is Deserialize),
    {
        Self::builder(path).policy(policy).build(file)
    }

    /// Starts to configure a store for the file at `path`.
    pub fn builder(path: &str) -> (b: JsonSyncBuilder<M>)
        ensures
            b.path_of() == path@,
            b.policy_of() is Manual,
            !b.is_pretty(),
    {
        JsonSyncBuilder::new(path)
    }

    /// An owned copy of the value under `key`.
    #[must_use]
    pub fn get(&self, key: &String) -> (found: Option<Value>)
        requires
            self.wf(),
        ensures
            found == self@.get(key@),
    {
        self.map.get(key)
    }

    /// Whether `key` is present.
    #[must_use]
    pub fn contains_key(&self, key: &String) -> (present: bool)
        requires
            self.wf(),
        ensures
            present == self@.dom().contains(key@),
    {
        self.map.contains_key(key)
    }

    /// The number of entries.
    #[must_use]
    pub fn len(&self) -> (n: usize)
        requires
            self.wf(),
        ensures
            self@.dom().finite(),
            n == self@.len(),
    {
        self.map.map_len()
    }

    /// Whether the store holds no entry.
    #[must_use]
    pub fn is_empty(&self) -> (empty: bool)
        requires
            self.wf(),
        ensures
            empty == (self@.len() == 0),
            empty == (self@ == Entries::empty()),
    {
        let n = self.len();
        proof {
            if n == 0 {
                assert(self@.dom() =~= Set::<Seq<char>>::empty());
                assert(self@ =~= Entries::empty());
            }
        }
        n == 0
    }

    /// A snapshot of all entries, each once, in no particular order.
    #[must_use]
    pub fn iter(&self) -> (snap: Vec<(String, Value)>)
        requires
            self.wf(),
        ensures
            lists(snap@, self@),
    {
        self.map.iter_snapshot()
    }

    /// The keys of a snapshot, in its order: every key once.
    #[must_use]
    pub fn keys(&self) -> (keys: Vec<String>)
        requires
            self.wf(),
        ensures
            exists|snap: Seq<(String, Value)>| lists(snap, self@) && keys@ == keys_of(snap),
    {
        let snap = self.map.iter_snapshot();
        let mut keys: Vec<String> = Vec::new();
        let mut i: usize = 0;
        while i < snap.len()
            invariant
                0 <= i <= snap.len(),
                keys@ == keys_of(snap@.take(i as int)),
            decreases snap.len() - i,
        {
            keys.push(snap[i].0.clone());
            i += 1;
            assert(keys@ =~= keys_of(snap@.take(i as int)));
        }
        assert(snap@.take(snap.len() as int) == snap@);
        keys
    }

    /// The values of a snapshot, in its order: one for every key.
    #[must_use]
    pub fn values(&self) -> (values: Vec<Value>)
        requires
            self.wf(),
        ensures
            exists|snap: Seq<(String, Value)>| lists(snap, self@) && values@ == values_of(snap),
    {
        let snap = self.map.iter_snapshot();
        let mut values: Vec<Value> = Vec::new();
        let mut i: usize = 0;
        while i < snap.len()
            invariant
                0 <= i <= snap.len(),
                values@ == values_of(snap@.take(i as int)),
            decreases snap.len() - i,
        {
            values.push(snap[i].1.clone());
            i += 1;
            assert(values@ =~= values_of(snap@.take(i as int)));
        }
        assert(snap@.take(snap.len() as int) == snap@);
        values
    }

    /// Inserts or overwrites an entry, and returns the value that the key
    /// had before together with what the policy asks for. The entry is in
    /// memory whatever is returned: an error says that the file may now lag
    /// behind, not that the insert was undone.
    pub fn insert(&mut self, key: String, value: Value) -> (out: Result<
        (Option<Value>, FlushAction),
        Error,
    >)
        requires
            old(self).wf(),
        ensures
            final(self).wf(),
            final(self).same_setup(old(self)),
            final(self)@ == old(self)@.insert(key@, value),
            settled(old(self).policy_of(), old(self).is_pretty(), out, old(self)@.get(key@), final(self)@),
    {
        let prev = self.map.insert(key, value);
        match self.notify_mutation() {
            Ok(action) => Ok((prev, action)),
            Err(e) => Err(e),
        }
    }

    /// Removes an entry, and returns the value that the key had together
    /// with what the policy asks for. The entry is gone from memory whatever
    /// is returned.
    pub fn remove(&mut self, key: &String) -> (out: Result<(Option<Value>, FlushAction), Error>)
        requires
            old(self).wf(),
        ensures
            final(self).wf(),
            final(self).same_setup(old(self)),
            final(self)@ == old(self)@.remove(key@),
            settled(old(self).policy_of(), old(self).is_pretty(), out, old(self)@.get(key@), final(self)@),
    {
        let prev = self.map.remove(key);
        match self.notify_mutation() {
            Ok(action) => Ok((prev, action)),
            Err(e) => Err(e),
        }
    }

    /// Removes every entry, and returns what the policy asks for. On a
    /// store without entries nothing changes.
    pub fn clear(&mut self) -> (out: Result<FlushAction, Error>)
        requires
            old(self).wf(),
        ensures
            final(self).wf(),
            final(self).same_setup(old(self)),
            final(self)@ == Entries::empty(),
            final(self)@.len() == 0,
            reported(old(self).policy_of(), old(self).is_pretty(), out, final(self)@),
    {
        self.map.clear();
        self.notify_mutation()
    }

    /// Inserts a batch of entries, first to last, and then lets the policy
    /// act once for the whole batch. Afterwards every key of the batch is
    /// present, and holds the value of its last occurrence in the batch.
    pub fn extend(&mut self, items: Vec<(String, Value)>) -> (out: Result<FlushAction, Error>)
        requires
            old(self).wf(),
        ensures
            final(self).wf(),
            final(self).same_setup(old(self)),
            final(self)@ == insert_all(old(self)@, items@),
            forall|i: int|
                0 <= i < items@.len() ==> final(self)@.dom().contains((#[trigger] items@[i]).0@),
            forall|i: int|
                0 <= i < items@.len() && (forall|j: int|
                    i < j < items@.len() ==> (#[trigger] items@[j]).0@ != items@[i].0@)
                    ==> final(self)@[(#[trigger] items@[i]).0@] == items@[i].1,
            reported(old(self).policy_of(), old(self).is_pretty(), out, final(self)@),
    {
        let mut i: usize = 0;
        while i < items.len()
            invariant
                0 <= i <= items.len(),
                self.wf(),
                self.same_setup(old(self)),
                self@ == insert_all(old(self)@, items@.take(i as int)),
            decreases items.len() - i,
        {
            let key = items[i].0.clone();
            let value = items[i].1.clone();
            proof {
                assert(items@.take(i + 1).drop_last() == items@.take(i as int));
                assert(items@.take(i + 1).last() == items@[i as int]);
            }
            let _ = self.map.insert(key, value);
            i += 1;
        }
        proof {
            assert(items@.take(items.len() as int) == items@);
            assert forall|j: int| 0 <= j < items@.len() implies self@.dom().contains(
                (#[trigger] items@[j]).0@,
            ) by {
                lemma_insert_all_present(old(self)@, items@, j);
            }
            assert forall|i: int|
                0 <= i < items@.len() && (forall|j: int|
                    i < j < items@.len() ==> (#[trigger] items@[j]).0@ != items@[i].0@)
                implies self@[(#[trigger] items@[i]).0@] == items@[i].1 by {
                lemma_insert_all_last_wins(old(self)@, items@, i);
            }
        }
        self.notify_mutation()
    }

    /// Replaces the value under `key` by what `f` makes of it. Where the key
    /// is absent nothing happens, `f` is not called and the policy is not
    /// asked. The value is read, changed and written back in three steps:
    /// the store must not be written by anyone else in between.
    pub fn update<F: FnOnce(Value) -> Value>(&mut self, key: &String, f: F) -> (out: Result<
        (bool, FlushAction),
        Error,
    >)
        requires
            old(self).wf(),
            old(self)@.dom().contains(key@) ==> call_requires(f, (old(self)@[key@],)),
        ensures
            final(self).wf(),
            final(self).same_setup(old(self)),
            !old(self)@.dom().contains(key@) ==> final(self)@ == old(self)@ && untouched(
                out,
                false,
            ),
            old(self)@.dom().contains(key@) ==> exists|w: Value|
                call_ensures(f, (old(self)@[key@],), w) && final(self)@ == old(self)@.insert(
                    key@,
                    w,
                ) && settled(old(self).policy_of(), old(self).is_pretty(), out, true, final(self)@),
    {
        match self.map.get(key) {
            Some(v) => {
                let changed = f(v);
                let _ = self.map.insert(key.clone(), changed);
                match self.notify_mutation() {
                    Ok(action) => Ok((true, action)),
                    Err(e) => Err(e),
                }
            },
            None => Ok((false, FlushAction::Idle)),
        }
    }

    /// The value under `key`; where the key is absent, `default` is
    /// inserted first. Only an insert lets the policy act.
    pub fn get_or_insert(&mut self, key: String, default: Value) -> (out: Result<
        (Value, FlushAction),
        Error,
    >)
        requires
            old(self).wf(),
        ensures
            final(self).wf(),
            final(self).same_setup(old(self)),
            old(self)@.dom().contains(key@) ==> final(self)@ == old(self)@ && untouched(
                out,
                old(self)@[key@],
            ),
            !old(self)@.dom().contains(key@) ==> final(self)@ == old(self)@.insert(key@, default)
                && final(self)@.len() == old(self)@.len() + 1 && settled(
                old(self).policy_of(),
                old(self).is_pretty(),
                out,
                default,
                final(self)@,
            ),
    {
        if let Some(v) = self.map.get(&key) {
            return Ok((v, FlushAction::Idle));
        }
        proof {
            self.map.lemma_wf_finite();
        }
        let ret = default.clone();
        let _ = self.map.insert(key, default);
        match self.notify_mutation() {
            Ok(action) => Ok((ret, action)),
            Err(e) => Err(e),
        }
    }

    /// Like `get_or_insert`, but the default is computed by `f`, and only
    /// where the key is absent.
    pub fn get_or_insert_with<F: FnOnce() -> Value>(&mut self, key: String, f: F) -> (out: Result<
        (Value, FlushAction),
        Error,
    >)
        requires
            old(self).wf(),
            !old(self)@.dom().contains(key@) ==> call_requires(f, ()),
        ensures
            final(self).wf(),
            final(self).same_setup(old(self)),
            old(self)@.dom().contains(key@) ==> final(self)@ == old(self)@ && untouched(
                out,
                old(self)@[key@],
            ),
            !old(self)@.dom().contains(key@) ==> exists|v: Value|
                call_ensures(f, (), v) && final(self)@ == old(self)@.insert(key@, v)
                    && final(self)@.len() == old(self)@.len() + 1 && settled(
                    old(self).policy_of(),
                    old(self).is_pretty(),
                    out,
                    v,
                    final(self)@,
                ),
    {
        if let Some(v) = self.map.get(&key) {
            return Ok((v, FlushAction::Idle));
        }
        proof {
            self.map.lemma_wf_finite();
        }
        let val = f();
        let ret = val.clone();
        let _ = self.map.insert(key, val);
        match self.notify_mutation() {
            Ok(action) => Ok((ret, action)),
            Err(e) => Err(e),
        }
    }

    /// The path of the store's file.
    #[must_use]
    pub fn path(&self) -> (p: &str)
        ensures
            p@ == self.path_of(),
    {
        self.path.as_str()
    }

    /// The bytes that the store's file should now hold: a snapshot of the
    /// entries, encoded. The caller writes them atomically. The entries stay
    /// as they are, so flushing twice asks for the same entries twice.
    ///
    /// What comes back as `Ok` mirrors the store: it is a JSON object that
    /// reads back as exactly the store's entries, on one line or indented as
    /// the store was built. Whether encoding succeeds is for the serializer to
    /// say.
    pub fn flush(&self) -> (out: Result<Vec<u8>, Error>)
        requires
            self.wf(),
        ensures
            out matches Ok(bytes) ==> mirrors(bytes@, self.is_pretty(), self@),
            out matches Err(e) ==> e is Serialize,
    {
        do_flush(&self.map, &self.serializer)
    }

    /// What the policy asks for after a mutation: under `Immediate` a write
    /// of the newly encoded entries, under `Async` a nudge of the worker,
    /// under `Manual` nothing. Only encoding can fail, so only `Immediate`
    /// can give an error.
    pub fn notify_mutation(&self) -> (out: Result<FlushAction, Error>)
        requires
            self.wf(),
        ensures
            reported(self.policy_of(), self.is_pretty(), out, self@),
    {
        match self.policy {
            FlushPolicy::Immediate => {
                match do_flush(&self.map, &self.serializer) {
                    Ok(bytes) => Ok(FlushAction::Write(bytes)),
                    Err(e) => Err(e),
                }
            },
            FlushPolicy::Async(_) => Ok(FlushAction::Nudge),
            FlushPolicy::Manual => Ok(FlushAction::Idle),
        }
    }
}

impl<M: MapBackend> JsonSyncBuilder<M> {
    /// The path that the store will carry.
    pub closed spec fn path_of(&self) -> Seq<char> {
        self.path@
    }

    /// The flush policy that the store will have.
    pub closed spec fn policy_of(&self) -> FlushPolicy {
        self.policy
    }

    /// Whether the store will write indented JSON.
    pub closed spec fn is_pretty(&self) -> bool {
        self.pretty
    }

    /// A builder with the defaults: manual flushing, compact JSON.
    pub fn new(path: &str) -> (b: Self)
        ensures
            b.path_of() == path@,
            b.policy_of() is Manual,
            !b.is_pretty(),
    {
        JsonSyncBuilder {
            path: String::from_str(path),
            policy: FlushPolicy::Manual,
            pretty: false,
            _marker: PhantomData,
        }
    }

    /// Sets the flush policy.
    pub fn policy(self, policy: FlushPolicy) -> (b: Self)
        ensures
            b.policy_of() == policy,
            b.path_of() == self.path_of(),
            b.is_pretty() == self.is_pretty(),
    {
        let mut b = self;
        b.policy = policy;
        b
    }

    /// Chooses indented JSON, or compact JSON with `false`.
    pub fn pretty(self, yes: bool) -> (b: Self)
        ensures
            b.is_pretty() == yes,
            b.path_of() == self.path_of(),
            b.policy_of() == self.policy_of(),
    {
        let mut b = self;
        b.pretty = yes;
        b
    }

    /// Opens the store on what was read from its file: a new map, filled
    /// with the entries that the file holds. A missing file and a file
    /// without bytes give a store without entries. Under `Async` it is for
    /// the caller to start the worker.
    pub fn build(self, file: &FileRead) -> (out: Result<JsonSync<M>, Error>)
        ensures
            out is Ok <==> json_held(*file) is Some,
            out matches Ok(store) ==> store.wf() && store@ == json_held(*file).unwrap(),
            out matches Ok(store) ==> store.path_of() == self.path_of() && store.policy_of()
                == self.policy_of() && store.is_pretty() == self.is_pretty(),
            file matches FileRead::Failed(message) ==> out matches Err(Error::Io(m)) && m
                == message,
            file is Contents ==> (out matches Err(e) ==> e is Deserialize),
    {
        let serializer = if self.pretty {
            JsonSerializer::pretty()
        } else {
            JsonSerializer::new()
        };
        let mut map = M::empty();
        let data = match load(file, &serializer) {
            Ok(data) => data,
            Err(e) => {
                return Err(e);
            },
        };
        proof {
            assert(held_by(serializer, *file) == json_held(*file));
            lemma_listing_rebuilds(data@, json_held(*file).unwrap());
        }
        let mut i: usize = 0;
        while i < data.len()
            invariant
                0 <= i <= data.len(),
                map.wf(),
                map.entries() == entries_of(data@.take(i as int)),
            decreases data.len() - i,
        {
            let key = data[i].0.clone();
            let value = data[i].1.clone();
            proof {
                assert(data@.take(i + 1).drop_last() == data@.take(i as int));
                assert(data@.take(i + 1).last() == data@[i as int]);
            }
            let _ = map.insert(key, value);
            i += 1;
        }
        proof {
            assert(data@.take(data.len() as int) == data@);
        }
        Ok(JsonSync { map, path: self.path, serializer, policy: self.policy })
    }
}

/// Flushing and opening again gives back the entries: a store opened on a
/// file with the bytes that `flush` returned for a store that held `m` opens,
/// and holds exactly `m`.
pub proof fn lemma_reopen_after_flush(m: Entries, pretty: bool, bytes: Vec<u8>)
    requires
        mirrors(bytes@, pretty, m),
    ensures
        json_held(FileRead::Contents(bytes)) == Some(m),
{
}

/// Under `Immediate` the file follows every mutation. The action that
/// comes back from a mutation which left the entries `m` is a write, and a
/// store opened on a file with the bytes of that write opens, and holds
/// exactly `m`.
pub proof fn lemma_write_through(pretty: bool, action: FlushAction, m: Entries)
    requires
        answers(FlushPolicy::Immediate, pretty, action, m),
    ensures
        action matches FlushAction::Write(bytes) && json_held(FileRead::Contents(bytes)) == Some(
            m,
        ),
{
}

/// Under `Manual` no mutation asks for a write: the file changes only by
/// what `flush` hands out. The same holds of `Async`, under which a mutation
/// asks for a nudge and leaves the writing to the worker.
pub proof fn lemma_no_write_unless_immediate(
    policy: FlushPolicy,
    pretty: bool,
    action: FlushAction,
    m: Entries,
)
    requires
        answers(policy, pretty, action, m),
        !(policy is Immediate),
    ensures
        !(action is Write),
        policy is Manual ==> action is Idle,
{
}

} // verus!
