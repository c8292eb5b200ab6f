//! A key-value store that lives in memory and mirrors itself to a JSON file.
//!
//! Pick a map to hold the entries (`ShardMap`, `DashMap`, or a `HashMap`
//! behind a lock) and a flush policy, open the store on what the file holds,
//! and write what it hands back.
//!
//! The library performs no file operation and starts no thread. It decides:
//! what a file's bytes mean, which bytes the file should hold, when they are
//! due, which step of an atomic write comes next, and when the background
//! worker writes and when it leaves. The program around it reads, writes,
//! renames and waits.
//!
//! One store belongs to one process. Two processes that open the same file
//! overwrite each other.

pub mod backend;
pub mod entries;
pub mod error;
pub mod flush;
pub mod json;
pub mod persist;
pub mod serializer;
pub mod store;

pub use backend::{DefaultBackend, MapBackend};
pub use error::Error;
pub use flush::{FlushAction, FlushPolicy};
pub use persist::FileRead;
pub use serializer::{JsonSerializer, Serializer};
pub use store::{JsonSync, JsonSyncBuilder};
