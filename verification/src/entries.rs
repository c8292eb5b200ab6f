//! The mathematical model of a store's contents, and of the listings that
//! snapshots and bulk loads hand around.

use serde_json::Value;
use vstd::prelude::*;

verus! {

/// What a store holds: a map from the text of each key to its JSON value.
pub type Entries = Map<Seq<char>, Value>;

/// No key occurs twice in `items`.
pub open spec fn distinct_keys(items: Seq<(String, Value)>) -> bool {
    forall|i: int, j: int|
        0 <= i < j < items.len() ==> (#[trigger] items[i]).0@ != (#[trigger] items[j]).0@
}

/// `snap` lists `m`: every entry of `m` occurs in it exactly once, and
/// nothing else does. The order of a listing is left open.
pub open spec fn lists(snap: Seq<(String, Value)>, m: Entries) -> bool {
    &&& forall|i: int|
        0 <= i < snap.len() ==> m.get((#[trigger] snap[i]).0@) == Some(snap[i].1)
    &&& distinct_keys(snap)
    &&& forall|k: Seq<char>| #[trigger]
        m.dom().contains(k) ==> exists|i: int| 0 <= i < snap.len() && (#[trigger] snap[i]).0@ == k
}

/// `m` after inserting `items` one by one, first to last: where a key
/// occurs more than once, its last value stays.
pub open spec fn insert_all(m: Entries, items: Seq<(String, Value)>) -> Entries
    decreases items.len(),
{
    if items.len() == 0 {
        m
    } else {
        insert_all(m, items.drop_last()).insert(items.last().0@, items.last().1)
    }
}

/// The map that a sequence of entries spells when read first to last.
pub open spec fn entries_of(items: Seq<(String, Value)>) -> Entries {
    insert_all(Map::empty(), items)
}

/// The keys of a sequence of entries, in its order.
pub open spec fn keys_of(items: Seq<(String, Value)>) -> Seq<String> {
    items.map_values(|e: (String, Value)| e.0)
}

/// The values of a sequence of entries, in its order.
pub open spec fn values_of(items: Seq<(String, Value)>) -> Seq<Value> {
    items.map_values(|e: (String, Value)| e.1)
}

/// Dropping the last item of a listing leaves a listing of the map without
/// that item's key.
pub proof fn lemma_listing_drop_last(snap: Seq<(String, Value)>, m: Entries)
    requires
        lists(snap, m),
        snap.len() > 0,
    ensures
        lists(snap.drop_last(), m.remove(snap.last().0@)),
{
    let rest = snap.drop_last();
    let key = snap.last().0@;
    let smaller = m.remove(key);
    assert forall|i: int| 0 <= i < rest.len() implies smaller.get((#[trigger] rest[i]).0@) == Some(
        rest[i].1,
    ) by {
        assert(rest[i] == snap[i]);
        assert(snap[i].0@ != snap[snap.len() - 1].0@);
    }
    assert forall|i: int, j: int| 0 <= i < j < rest.len() implies (#[trigger] rest[i]).0@ != (
    #[trigger] rest[j]).0@ by {
        assert(rest[i] == snap[i]);
        assert(rest[j] == snap[j]);
    }
    assert forall|k: Seq<char>| #[trigger] smaller.dom().contains(k) implies exists|i: int|
        0 <= i < rest.len() && (#[trigger] rest[i]).0@ == k by {
        assert(m.dom().contains(k));
        let i = choose|i: int| 0 <= i < snap.len() && (#[trigger] snap[i]).0@ == k;
        assert(i != snap.len() - 1);
        assert(rest[i] == snap[i]);
    }
}

/// A listing is as long as the map it lists is large, and only a finite map
/// has one.
pub proof fn lemma_listing_len(snap: Seq<(String, Value)>, m: Entries)
    requires
        lists(snap, m),
    ensures
        m.dom().finite(),
        m.len() == snap.len(),
    decreases snap.len(),
{
    if snap.len() == 0 {
        assert(m.dom() =~= Set::<Seq<char>>::empty());
    } else {
        let key = snap.last().0@;
        lemma_listing_drop_last(snap, m);
        lemma_listing_len(snap.drop_last(), m.remove(key));
        assert(m.get(snap[snap.len() - 1].0@) == Some(snap[snap.len() - 1].1));
        assert(m.dom().contains(key));
        assert(m.dom() =~= m.remove(key).dom().insert(key));
    }
}

/// Reading a listing first to last gives back the map that it lists.
pub proof fn lemma_listing_rebuilds(snap: Seq<(String, Value)>, m: Entries)
    requires
        lists(snap, m),
    ensures
        entries_of(snap) == m,
    decreases snap.len(),
{
    if snap.len() == 0 {
        assert(m.dom() =~= Set::<Seq<char>>::empty());
        assert(m =~= Entries::empty());
    } else {
        let key = snap.last().0@;
        lemma_listing_drop_last(snap, m);
        lemma_listing_rebuilds(snap.drop_last(), m.remove(key));
        assert(m.get(snap[snap.len() - 1].0@) == Some(snap[snap.len() - 1].1));
        assert(m =~= m.remove(key).insert(key, snap.last().1));
    }
}

/// A sequence of entries without a repeated key lists the map that it
/// spells.
pub proof fn lemma_distinct_lists(items: Seq<(String, Value)>)
    requires
        distinct_keys(items),
    ensures
        lists(items, entries_of(items)),
{
    let m = entries_of(items);
    assert forall|i: int| 0 <= i < items.len() implies m.get((#[trigger] items[i]).0@) == Some(
        items[i].1,
    ) by {
        lemma_insert_all_last_wins(Entries::empty(), items, i);
    }
    assert forall|k: Seq<char>| #[trigger] m.dom().contains(k) implies exists|i: int|
        0 <= i < items.len() && (#[trigger] items[i]).0@ == k by {
        if !(exists|i: int| 0 <= i < items.len() && (#[trigger] items[i]).0@ == k) {
            lemma_insert_all_keeps(Entries::empty(), items, k);
            assert(false);
        }
    }
}

/// After a bulk insert every key of the batch is present.
pub proof fn lemma_insert_all_present(m: Entries, items: Seq<(String, Value)>, i: int)
    requires
        0 <= i < items.len(),
    ensures
        insert_all(m, items).dom().contains(items[i].0@),
    decreases items.len(),
{
    if i < items.len() - 1 {
        lemma_insert_all_present(m, items.drop_last(), i);
        assert(items.drop_last()[i] == items[i]);
    }
}

/// After a bulk insert a key of the batch holds the value of its last
/// occurrence in the batch.
pub proof fn lemma_insert_all_last_wins(m: Entries, items: Seq<(String, Value)>, i: int)
    requires
        0 <= i < items.len(),
        forall|j: int| i < j < items.len() ==> (#[trigger] items[j]).0@ != items[i].0@,
    ensures
        insert_all(m, items).get(items[i].0@) == Some(items[i].1),
    decreases items.len(),
{
    if i < items.len() - 1 {
        let rest = items.drop_last();
        assert(rest[i] == items[i]);
        assert forall|j: int| i < j < rest.len() implies (#[trigger] rest[j]).0@ != rest[i].0@ by {
            assert(rest[j] == items[j]);
        }
        lemma_insert_all_last_wins(m, rest, i);
        assert(items[items.len() - 1].0@ != items[i].0@);
    }
}

/// A bulk insert leaves every key outside the batch as it was.
pub proof fn lemma_insert_all_keeps(m: Entries, items: Seq<(String, Value)>, k: Seq<char>)
    requires
        forall|j: int| 0 <= j < items.len() ==> (#[trigger] items[j]).0@ != k,
    ensures
        insert_all(m, items).get(k) == m.get(k),
    decreases items.len(),
{
    if items.len() > 0 {
        let rest = items.drop_last();
        assert forall|j: int| 0 <= j < rest.len() implies (#[trigger] rest[j]).0@ != k by {
            assert(rest[j] == items[j]);
        }
        lemma_insert_all_keeps(m, rest, k);
        assert(items[items.len() - 1].0@ != k);
    }
}

/// A bulk insert into a finite map gives a finite map.
pub proof fn lemma_insert_all_finite(m: Entries, items: Seq<(String, Value)>)
    requires
        m.dom().finite(),
    ensures
        insert_all(m, items).dom().finite(),
    decreases items.len(),
{
    if items.len() > 0 {
        lemma_insert_all_finite(m, items.drop_last());
    }
}

} // verus!
