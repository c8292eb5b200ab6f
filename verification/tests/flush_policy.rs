use json_sync::flush::{after_wait, before_wait, Wake, WorkerAction};
use json_sync::{FileRead, FlushAction, FlushPolicy, JsonSync};
use serde_json::Value;
use shardmap::ShardMap;
use std::time::Duration;

fn target(name: &str) -> String {
    format!("json_sync_test_{}.json", name)
}

#[test]
fn manual_flush_only_on_call() {
    let path = target("manual");
    let mut disk = FileRead::Missing;
    let mut db = JsonSync::<ShardMap<String, Value>>::open(&path, &disk).unwrap();
    let (_, action) = db.insert("a".into(), Value::from(1)).unwrap();
    if let FlushAction::Write(bytes) = action {
        disk = FileRead::Contents(bytes);
    }
    assert!(matches!(disk, FileRead::Missing));
    disk = FileRead::Contents(db.flush().unwrap());
    drop(db);
    let db2 = JsonSync::<ShardMap<String, Value>>::open(&path, &disk).unwrap();
    assert_eq!(db2.get(&"a".into()), Some(Value::from(1)));
}

#[test]
fn immediate_flush_after_mutate() {
    let path = target("immediate");
    let mut disk = FileRead::Missing;
    let mut db = JsonSync::<ShardMap<String, Value>>::open_with_policy(
        &path,
        FlushPolicy::Immediate,
        &disk,
    )
    .unwrap();
    let (_, action) = db.insert("x".into(), Value::from(42)).unwrap();
    if let FlushAction::Write(bytes) = action {
        disk = FileRead::Contents(bytes);
    }
    drop(db);
    let db2 = JsonSync::<ShardMap<String, Value>>::open(&path, &disk).unwrap();
    assert_eq!(db2.get(&"x".into()), Some(Value::from(42)));
}

#[test]
fn async_flush_worker_graceful_drop() {
    let path = target("async_drop");
    let mut db = JsonSync::<ShardMap<String, Value>>::open_with_policy(
        &path,
        FlushPolicy::Async(Duration::from_secs(60)),
        &FileRead::Missing,
    )
    .unwrap();
    let (_, action) = db.insert("q".into(), Value::from(7)).unwrap();
    assert!(matches!(action, FlushAction::Nudge));
    db.flush().unwrap();

    // The worker waits while the store lives, and leaves once the stop flag
    // is set and the sender is gone, without another write.
    assert_eq!(before_wait(false), WorkerAction::Wait);
    drop(db);
    assert_eq!(after_wait(Wake::Disconnected), WorkerAction::Exit);
    assert_eq!(before_wait(true), WorkerAction::Exit);
}
