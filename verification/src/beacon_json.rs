//! The JSON form of a beacon entry: the round as a number and the signature
//! as base64 text.
//!
//! The base64 coding is the work of the `base64` crate, with its standard
//! alphabet and padding. What it returns for a given input is given a name
//! here and taken on trust.

use vstd::prelude::*;
use crate::beacon::BeaconEntry;
use crate::cid::bytes_of;

verus! {

/// The text that `base64::prelude::BASE64_STANDARD` encodes `bytes` to.
pub uninterp spec fn base64_text(bytes: Seq<u8>) -> Seq<char>;

/// The bytes that `base64::prelude::BASE64_STANDARD` decodes `text` to, where
/// it accepts the text.
pub uninterp spec fn base64_bytes(text: Seq<char>) -> Option<Seq<u8>>;

/// Trusted: `Engine::encode` of `BASE64_STANDARD`. The result is the text
/// named by [`base64_text`] for these bytes.
#[verifier::external_body]
fn encode_base64(bytes: &[u8]) -> (text: String)
    ensures
        text@ == base64_text(bytes@),
{
    base64::Engine::encode(&base64::prelude::BASE64_STANDARD, bytes)
}

/// Trusted: `Engine::decode` of `BASE64_STANDARD`. The result is the bytes
/// named by [`base64_bytes`] for this text, and nothing where the engine
/// refuses the text.
#[verifier::external_body]
fn decode_base64(text: &str) -> (bytes: Option<Vec<u8>>)
    ensures
        bytes_of(bytes) == base64_bytes(text@),
{
    match base64::Engine::decode(&base64::prelude::BASE64_STANDARD, text) {
        Ok(bytes) => Some(bytes),
        Err(_) => None,
    }
}

/// A beacon entry as it stands in JSON, under the keys `Round` and `Data`.
#[derive(Debug)]
pub struct JsonHelper {
    pub round: u64,
    /// The signature in base64.
    pub data: String,
}

/// A beacon entry that is written to and read from JSON.
#[derive(Debug)]
pub struct BeaconEntryJson(pub BeaconEntry);

/// A borrowed beacon entry that is written to JSON.
#[derive(Debug)]
pub struct BeaconEntryJsonRef<'a>(pub &'a BeaconEntry);

impl From<BeaconEntryJson> for BeaconEntry {
    fn from(wrapper: BeaconEntryJson) -> (entry: BeaconEntry) {
        wrapper.0
    }
}

impl vstd::std_specs::convert::FromSpecImpl<BeaconEntryJson> for BeaconEntry {
    open spec fn obeys_from_spec() -> bool {
        true
    }

    open spec fn from_spec(wrapper: BeaconEntryJson) -> BeaconEntry {
        wrapper.0
    }
}

/// A JSON form whose signature is not base64.
#[derive(Clone, Copy, Debug, PartialEq, Eq, Structural)]
pub struct InvalidData;

/// The JSON form of an entry.
pub fn serialize(m: &BeaconEntry) -> (json: JsonHelper)
    ensures
        json.round == m@.round,
        json.data@ == base64_text(m@.data),
{
    JsonHelper { round: m.round(), data: encode_base64(m.data()) }
}

/// The entry that a JSON form stands for. The form is refused exactly when
/// its signature is not base64.
pub fn deserialize(m: &JsonHelper) -> (result: Result<BeaconEntry, InvalidData>)
    ensures
        match base64_bytes(m.data@) {
            Some(data) => result is Ok && result->Ok_0@.round == m.round && result->Ok_0@.data
                == data,
            None => result is Err,
        },
{
    match decode_base64(m.data.as_str()) {
        Some(data) => Ok(BeaconEntry::new(m.round, data)),
        None => Err(InvalidData),
    }
}

} // verus!
