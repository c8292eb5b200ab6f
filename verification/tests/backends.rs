use dashmap::DashMap;
use json_sync::{FileRead, JsonSync};
use parking_lot::RwLock;
use serde_json::Value;
use shardmap::ShardMap;
use std::collections::HashMap;

fn path_of(name: &str) -> String {
    format!("json_sync_test_{}.json", name)
}

#[test]
fn shardmap_insert_get_remove_flush_persist() {
    let path = path_of("sm_persist");
    let disk;
    {
        let mut db =
            JsonSync::<ShardMap<String, Value>>::open(&path, &FileRead::Missing).unwrap();
        assert!(db.insert("a".into(), Value::from(1)).unwrap().0.is_none());
        assert_eq!(db.get(&"a".into()), Some(Value::from(1)));
        assert_eq!(db.insert("a".into(), Value::from(2)).unwrap().0, Some(Value::from(1)));
        assert_eq!(db.get(&"a".into()), Some(Value::from(2)));
        assert_eq!(db.remove(&"a".into()).unwrap().0, Some(Value::from(2)));
        assert_eq!(db.get(&"a".into()), None);
        db.insert("b".into(), Value::from(3)).unwrap();
        disk = FileRead::Contents(db.flush().unwrap());
    }

    let db2 = JsonSync::<ShardMap<String, Value>>::open(&path, &disk).unwrap();
    assert_eq!(db2.get(&"a".into()), None);
    assert_eq!(db2.get(&"b".into()), Some(Value::from(3)));
}

#[test]
fn shardmap_iter_snapshot() {
    let mut db =
        JsonSync::<ShardMap<String, Value>>::open(&path_of("sm_iter"), &FileRead::Missing)
            .unwrap();
    db.insert("x".into(), Value::from(10u8)).unwrap();
    db.insert("y".into(), Value::from(20u8)).unwrap();
    let mut entries = db.iter();
    entries.sort_by(|a, b| a.0.cmp(&b.0));
    assert_eq!(entries, vec![("x".into(), Value::from(10u8)), ("y".into(), Value::from(20u8))]);
}

#[test]
fn len_contains_key_is_empty() {
    let mut db =
        JsonSync::<ShardMap<String, Value>>::open(&path_of("len_contains"), &FileRead::Missing)
            .unwrap();

    assert!(db.is_empty());
    assert_eq!(db.len(), 0);
    assert!(!db.contains_key(&"a".into()));

    db.insert("a".into(), Value::from(1)).unwrap();
    assert!(!db.is_empty());
    assert_eq!(db.len(), 1);
    assert!(db.contains_key(&"a".into()));
    assert!(!db.contains_key(&"z".into()));

    db.insert("b".into(), Value::from(2)).unwrap();
    assert_eq!(db.len(), 2);
    db.remove(&"a".into()).unwrap();
    assert_eq!(db.len(), 1);
    assert!(!db.contains_key(&"a".into()));
    assert!(db.contains_key(&"b".into()));

    db.remove(&"b".into()).unwrap();
    assert!(db.is_empty());
}

#[test]
fn rwlock_hashmap_crud() {
    let mut db =
        JsonSync::<RwLock<HashMap<String, Value>>>::open(&path_of("rwlock"), &FileRead::Missing)
            .unwrap();
    db.insert("k".into(), Value::from(100)).unwrap();
    assert_eq!(db.get(&"k".into()), Some(Value::from(100)));
    assert!(db.contains_key(&"k".into()));
    assert_eq!(db.len(), 1);
    db.remove(&"k".into()).unwrap();
    assert!(db.is_empty());
    db.flush().unwrap();
}

#[test]
fn dashmap_crud() {
    let mut db =
        JsonSync::<DashMap<String, Value>>::open(&path_of("dashmap_crud"), &FileRead::Missing)
            .unwrap();
    db.insert("a".into(), Value::from(1)).unwrap();
    assert_eq!(db.get(&"a".into()), Some(Value::from(1)));
    assert!(db.contains_key(&"a".into()));
    assert_eq!(db.len(), 1);
    db.remove(&"a".into()).unwrap();
    assert!(db.is_empty());
    db.flush().unwrap();
}

#[test]
fn dashmap_iter_snapshot() {
    let mut db =
        JsonSync::<DashMap<String, Value>>::open(&path_of("dashmap_iter"), &FileRead::Missing)
            .unwrap();
    db.insert("p".into(), Value::from(1u8)).unwrap();
    db.insert("q".into(), Value::from(2u8)).unwrap();
    let mut entries = db.iter();
    entries.sort_by(|a, b| a.0.cmp(&b.0));
    assert_eq!(entries, vec![("p".into(), Value::from(1u8)), ("q".into(), Value::from(2u8))]);
}

#[test]
fn dashmap_persist_and_reload() {
    let path = path_of("dashmap_persist");
    let disk;
    {
        let mut db = JsonSync::<DashMap<String, Value>>::open(&path, &FileRead::Missing).unwrap();
        db.insert("key".into(), Value::from("val")).unwrap();
        disk = FileRead::Contents(db.flush().unwrap());
    }
    let db = JsonSync::<DashMap<String, Value>>::open(&path, &disk).unwrap();
    assert_eq!(db.get(&"key".into()), Some(Value::from("val")));
}
