//! What a store reads from its file when it is opened, and the steps by
//! which a file is replaced atomically. The file operations themselves are
//! the caller's: this module decides what they mean and which comes next.

use crate::entries::{lists, Entries};
use crate::error::Error;
use crate::serializer::Serializer;
use serde_json::Value;
use vstd::prelude::*;

verus! {

/// What an attempt to read the store's file gave.
#[derive(Debug)]
pub enum FileRead {
    /// There is no such file.
    Missing,
    /// The file system refused the read, with this message.
    Failed(String),
    /// The whole content of the file.
    Contents(Vec<u8>),
}

/// The entries that a store opened on `file` starts with: none where the
/// file is missing or has no bytes, which is how a first run and a truncated
/// file look; otherwise what the serializer decodes. `None` where the read
/// failed or the bytes do not decode.
pub open spec fn held_by<S: Serializer>(serializer: S, file: FileRead) -> Option<Entries> {
    match file {
        FileRead::Missing => Some(Entries::empty()),
        FileRead::Failed(_) => None,
        FileRead::Contents(bytes) => if bytes@.len() == 0 {
            Some(Entries::empty())
        } else {
            serializer.decoded(bytes@)
        },
    }
}

/// Lists the entries that `file` holds. A failed read is an `Io` error with
/// the file system's message; bytes that do not decode are a `Deserialize`
/// error.
pub fn load<S: Serializer>(file: &FileRead, serializer: &S) -> (out: Result<
    Vec<(String, Value)>,
    Error,
>)
    ensures
        out is Ok <==> held_by(*serializer, *file) is Some,
        out matches Ok(items) ==> lists(items@, held_by(*serializer, *file).unwrap()),
        file matches FileRead::Failed(message) ==> out matches Err(Error::Io(m)) && m == message,
        file is Contents ==> (out matches Err(e) ==> e is Deserialize),
{
    match file {
        FileRead::Missing => Ok(Vec::new()),
        FileRead::Failed(message) => Err(Error::Io(message.clone())),
        FileRead::Contents(bytes) => {
            if bytes.len() == 0 {
                Ok(Vec::new())
            } else {
                serializer.deserialize(bytes.as_slice())
            }
        },
    }
}

/// The extension of the side file that an atomic write stages its bytes
/// in: the target's own extension, or `json` where it has none, and then
/// `.tmp`. The side file stands beside the target under the target's name
/// with this extension.
pub fn temp_extension(extension: Option<&str>) -> (tmp: String)
    ensures
        extension matches Some(e) ==> tmp@ == e@ + ".tmp"@,
        extension is None ==> tmp@ == "json"@ + ".tmp"@,
{
    let stem = match extension {
        Some(e) => String::from_str(e),
        None => String::from_str("json"),
    };
    stem.concat(".tmp")
}

/// The file operation that an atomic write is waiting for.
#[derive(Debug, Clone, Copy, PartialEq, Eq, Structural)]
pub enum WriteStep {
    /// Writing all the bytes to the side file.
    Stage,
    /// Renaming the side file over the target.
    Commit,
}

/// Where an atomic write stands after one of its file operations.
#[derive(Debug)]
pub enum WriteProgress {
    /// The next operation to perform.
    Next(WriteStep),
    /// The write is over, with this result.
    Done(Result<(), Error>),
}

/// An atomic write starts by staging the bytes in the side file.
pub fn first_step() -> (step: WriteStep)
    ensures
        step == WriteStep::Stage,
{
    WriteStep::Stage
}

/// What follows a file operation of an atomic write, given how the
/// operation ended: `Err` carries the file system's message.
///
/// The target is touched by the rename alone, and the rename is asked for
/// only when the side file has been written in full. So whoever reads the
/// target sees its old content or the new one, never a part. The first
/// failure ends the write with an `Io` error; the side file may then stay
/// behind.
pub fn after_step(step: WriteStep, outcome: Result<(), String>) -> (next: WriteProgress)
    ensures
        outcome is Ok && step == WriteStep::Stage ==> next == WriteProgress::Next(
            WriteStep::Commit,
        ),
        outcome is Ok && step == WriteStep::Commit ==> next == WriteProgress::Done(Ok(())),
        outcome matches Err(message) ==> next == WriteProgress::Done(Err(Error::Io(message))),
{
    match outcome {
        Ok(()) => match step {
            WriteStep::Stage => WriteProgress::Next(WriteStep::Commit),
            WriteStep::Commit => WriteProgress::Done(Ok(())),
        },
        Err(message) => WriteProgress::Done(Err(Error::Io(message))),
    }
}

} // verus!
