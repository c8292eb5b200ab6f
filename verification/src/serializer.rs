//! Turning a listing of entries into bytes and back. The store writes JSON
//! through `serde_json`; another encoding implements `Serializer`.

use crate::entries::{distinct_keys, entries_of, lemma_listing_rebuilds, lists, Entries};
use crate::error::Error;
use serde_json::Error as JsonError;
use serde_json::Value;
use std::collections::HashMap;
use vstd::prelude::*;

verus! {

/// `decoded` does not contradict `m`: where bytes decode at all, they decode
/// to `m`. This is as much as the encoders of `serde_json` promise of their
/// own output, which they write to any depth and read to a fixed one.
pub open spec fn agrees(decoded: Option<Entries>, m: Entries) -> bool {
    decoded matches Some(d) ==> d == m
}

/// No byte of `bytes` is a line feed.
pub open spec fn one_line(bytes: Seq<u8>) -> bool {
    forall|i: int| 0 <= i < bytes.len() ==> bytes[i] != 10u8
}

/// `bytes` open an indented object: a brace, a line feed, and two spaces
/// before the first member.
pub open spec fn indented(bytes: Seq<u8>) -> bool {
    &&& bytes.len() >= 4
    &&& bytes[0] == 123u8
    &&& bytes[1] == 10u8
    &&& bytes[2] == 32u8
    &&& bytes[3] == 32u8
}

/// `bytes` have the layout that was asked for, for an object of `count`
/// members: on one line where `pretty` is off, and indented where it is on
/// and there is a member to indent.
pub open spec fn laid_out(pretty: bool, bytes: Seq<u8>, count: nat) -> bool {
    if pretty {
        count > 0 ==> indented(bytes)
    } else {
        one_line(bytes)
    }
}

/// An encoding of entries as bytes.
///
/// `decoded` says what `deserialize` reads from given bytes. What
/// `serialize` writes must read back as exactly what went in, and is never
/// empty: a file without bytes stands for a store without entries. Entries
/// that cannot be encoded are a `Serialize` error, bytes that cannot be
/// decoded a `Deserialize` error.
pub trait Serializer {
    /// The entries that the bytes hold, or `None` where they hold none.
    spec fn decoded(&self, bytes: Seq<u8>) -> Option<Entries>;

    /// Encodes the entries that `data` lists. A mapping has each key once,
    /// and so must `data`.
    fn serialize(&self, data: &Vec<(String, Value)>) -> (out: Result<Vec<u8>, Error>)
        requires
            distinct_keys(data@),
        ensures
            out matches Ok(bytes) ==> bytes@.len() > 0 && self.decoded(bytes@) == Some(
                entries_of(data@),
            ),
            out matches Err(e) ==> e is Serialize,
    ;

    /// Decodes bytes into a listing of the entries that they hold.
    fn deserialize(&self, bytes: &[u8]) -> (out: Result<Vec<(String, Value)>, Error>)
        ensures
            out is Ok <==> self.decoded(bytes@) is Some,
            out matches Ok(items) ==> lists(items@, self.decoded(bytes@).unwrap()),
            out matches Err(e) ==> e is Deserialize,
    ;
}

/// The entries of the JSON object that `serde_json::from_slice` reads from
/// the bytes, or `None` where it reports an error.
pub uninterp spec fn json_object(bytes: Seq<u8>) -> Option<Entries>;

/// `serde_json::from_slice`, reading a `HashMap<String, Value>`: it
/// succeeds exactly where `json_object` is `Some`, and the map that it
/// returns is handed on as a listing, each entry once, in the order in which
/// the map yields them.
#[verifier::external_body]
fn json_from_slice(bytes: &[u8]) -> (out: Result<Vec<(String, Value)>, JsonError>)
    ensures
        out is Ok <==> json_object(bytes@) is Some,
        out matches Ok(items) ==> lists(items@, json_object(bytes@).unwrap()),
{
    serde_json::from_slice::<HashMap<String, Value>>(bytes).map(|m| m.into_iter().collect())
}

/// `serde_json::to_vec`, on the entries collected into a `HashMap`: compact
/// JSON text of one object, which starts with a brace. Where `from_slice`
/// accepts that text, it reads the same entries from it. The compact
/// formatter adds no whitespace, and a line feed inside a string is written
/// as an escape, so no byte of the text is a line feed. With `String` keys
/// and JSON values the writer's only faults are those of its sink, and the
/// sink is a `Vec`, which has none: the call succeeds.
#[verifier::external_body]
fn json_to_vec(data: &Vec<(String, Value)>) -> (out: Result<Vec<u8>, JsonError>)
    requires
        distinct_keys(data@),
    ensures
        out is Ok,
        out matches Ok(bytes) ==> bytes@.len() > 0 && agrees(
            json_object(bytes@),
            entries_of(data@),
        ),
        out matches Ok(bytes) ==> one_line(bytes@),
{
    serde_json::to_vec(&data.iter().cloned().collect::<HashMap<String, Value>>())
}

/// `serde_json::to_vec_pretty`, on the entries collected into a `HashMap`:
/// indented JSON text of one object, which starts with a brace. Where
/// `from_slice` accepts that text, it reads the same entries from it. The
/// pretty formatter puts a line feed and two spaces before the first member
/// of the outermost object, so where there is an entry the text starts with
/// a brace, a line feed and two spaces. With `String` keys and JSON values
/// the writer's only faults are those of its sink, and the sink is a `Vec`,
/// which has none: the call succeeds.
#[verifier::external_body]
fn json_to_vec_pretty(data: &Vec<(String, Value)>) -> (out: Result<Vec<u8>, JsonError>)
    requires
        distinct_keys(data@),
    ensures
        out is Ok,
        out matches Ok(bytes) ==> bytes@.len() > 0 && agrees(
            json_object(bytes@),
            entries_of(data@),
        ),
        out matches Ok(bytes) ==> data@.len() > 0 ==> indented(bytes@),
{
    serde_json::to_vec_pretty(&data.iter().cloned().collect::<HashMap<String, Value>>())
}

/// What becomes of freshly written bytes once the decoder has been asked to
/// read them back. Bytes that it read leave as they are. Bytes that it
/// refused do not leave: they are a `Serialize` error with the decoder's
/// message, since a store could not be opened on them.
pub fn accept(bytes: Vec<u8>, refused: Option<String>) -> (out: Result<Vec<u8>, Error>)
    ensures
        refused is None ==> (out matches Ok(kept) && kept == bytes),
        refused matches Some(message) ==> (out matches Err(Error::Serialize(m)) && m == message),
{
    match refused {
        None => Ok(bytes),
        Some(message) => Err(Error::Serialize(message)),
    }
}

/// The JSON encoding, compact or indented.
#[derive(Clone, Copy, Debug)]
pub struct JsonSerializer {
    pretty: bool,
}

impl JsonSerializer {
    /// Whether the serializer writes indented JSON.
    pub closed spec fn is_pretty(&self) -> bool {
        self.pretty
    }

    /// Compact JSON: one line, no added whitespace.
    pub fn new() -> (s: Self)
        ensures
            !s.is_pretty(),
    {
        JsonSerializer { pretty: false }
    }

    /// Indented JSON, one member per line.
    pub fn pretty() -> (s: Self)
        ensures
            s.is_pretty(),
    {
        JsonSerializer { pretty: true }
    }
}

impl Default for JsonSerializer {
    fn default() -> (s: Self)
        ensures
            !s.is_pretty(),
    {
        JsonSerializer::new()
    }
}

impl Serializer for JsonSerializer {
    /// Both layouts are read by the same parser.
    open spec fn decoded(&self, bytes: Seq<u8>) -> Option<Entries> {
        json_object(bytes)
    }

    /// Writes one JSON object with a member for each entry, in the layout
    /// that the serializer was made for, reads it back, and lets `accept`
    /// say what leaves. Writing itself does not fail. What `serde_json`
    /// writes but would not read again, a value nested deeper than it
    /// reads, is a `Serialize` error.
    fn serialize(&self, data: &Vec<(String, Value)>) -> (out: Result<Vec<u8>, Error>)
        ensures
            out matches Ok(bytes) ==> laid_out(self.is_pretty(), bytes@, data@.len()),
    {
        let written = if self.pretty {
            json_to_vec_pretty(data)
        } else {
            json_to_vec(data)
        };
        match written {
            Ok(bytes) => {
                let refused = match json_from_slice(bytes.as_slice()) {
                    Ok(_) => None,
                    Err(fault) => Some(fault.to_string()),
                };
                accept(bytes, refused)
            },
            Err(fault) => Err(Error::Serialize(fault.to_string())),
        }
    }

    /// Reads one JSON object. Where `serde_json` reports a fault, whatever
    /// its kind, the error carries its message.
    fn deserialize(&self, bytes: &[u8]) -> (out: Result<Vec<(String, Value)>, Error>) {
        match json_from_slice(bytes) {
            Ok(items) => Ok(items),
            Err(fault) => Err(Error::Deserialize(fault.to_string())),
        }
    }
}

/// Encoding and decoding again gives back the entries: where `bytes` hold
/// the entries that `data` spells, as `serialize` ensures of what it writes,
/// every listing `back` of what the bytes hold, as `deserialize` returns one
/// and does not fail to, spells the same entries.
pub proof fn lemma_round_trip<S: Serializer>(
    s: S,
    data: Seq<(String, Value)>,
    bytes: Seq<u8>,
    back: Seq<(String, Value)>,
)
    requires
        s.decoded(bytes) == Some(entries_of(data)),
        lists(back, s.decoded(bytes).unwrap()),
    ensures
        entries_of(back) == entries_of(data),
{
    lemma_listing_rebuilds(back, s.decoded(bytes).unwrap());
}

} // verus!
