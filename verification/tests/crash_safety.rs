use json_sync::{FileRead, JsonSync};
use serde_json::Value;
use shardmap::ShardMap;

fn file_name(name: &str) -> String {
    format!("json_sync_test_{}.json", name)
}

#[test]
fn open_missing_file_creates_empty() {
    let db = JsonSync::<ShardMap<String, Value>>::open(&file_name("missing"), &FileRead::Missing)
        .unwrap();
    assert!(db.iter().is_empty());
}

#[test]
fn path_accessor() {
    let path = file_name("path_acc");
    let db = JsonSync::<ShardMap<String, Value>>::open(&path, &FileRead::Missing).unwrap();
    assert_eq!(db.path(), path.as_str());
}

#[test]
fn persist_and_reload_roundtrip() {
    let path = file_name("roundtrip");
    let disk;
    {
        let mut db =
            JsonSync::<ShardMap<String, Value>>::open(&path, &FileRead::Missing).unwrap();
        db.insert("k1".into(), Value::from("v1")).unwrap();
        db.insert("k2".into(), Value::from("v2")).unwrap();
        disk = FileRead::Contents(db.flush().unwrap());
    }
    let db = JsonSync::<ShardMap<String, Value>>::open(&path, &disk).unwrap();
    assert_eq!(db.get(&"k1".into()), Some(Value::from("v1")));
    assert_eq!(db.get(&"k2".into()), Some(Value::from("v2")));
}
