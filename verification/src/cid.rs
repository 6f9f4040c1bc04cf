//! Content identifiers, held in their binary form.
//!
//! Reading an identifier from text or from bytes is the work of the `cid`
//! crate. What it returns for a given input is given a name here and taken
//! on trust; everything else in this crate is proved from those names.

use vstd::prelude::*;
use crate::bytes::{bytes_equal, copy_bytes};

verus! {

/// The binary form of the content identifier that `text` denotes, where it
/// denotes one: what `cid::Cid::try_from` makes of the text, written back by
/// `cid::Cid::to_bytes`.
pub uninterp spec fn cid_of_text(text: Seq<char>) -> Option<Seq<u8>>;

/// The binary form of the content identifier that `bytes` start with, where
/// they start with one: what `cid::Cid::try_from` makes of the bytes, written
/// back by `cid::Cid::to_bytes`.
pub uninterp spec fn cid_of_bytes(bytes: Seq<u8>) -> Option<Seq<u8>>;

/// What an optional byte string holds.
pub open spec fn bytes_of(found: Option<Vec<u8>>) -> Option<Seq<u8>> {
    match found {
        Some(b) => Some(b@),
        None => None,
    }
}

/// Trusted: `cid::Cid::try_from` on a string, then `cid::Cid::to_bytes`. The
/// result is the identifier named by [`cid_of_text`] for this text; nothing
/// is claimed about which texts denote one.
#[verifier::external_body]
fn read_text(text: &str) -> (found: Option<Vec<u8>>)
    ensures
        bytes_of(found) == cid_of_text(text@),
{
    match cid::Cid::try_from(text) {
        Ok(c) => Some(c.to_bytes()),
        Err(_) => None,
    }
}

/// Trusted: `cid::Cid::try_from` on a byte slice, then `cid::Cid::to_bytes`.
/// The result is the identifier named by [`cid_of_bytes`] for these bytes;
/// nothing is claimed about which bytes hold one.
#[verifier::external_body]
fn read_bytes(bytes: &Vec<u8>) -> (found: Option<Vec<u8>>)
    ensures
        bytes_of(found) == cid_of_bytes(bytes@),
{
    match cid::Cid::try_from(bytes.as_slice()) {
        Ok(c) => Some(c.to_bytes()),
        Err(_) => None,
    }
}

/// A content identifier. Its view is its binary form.
#[derive(Debug)]
pub struct Cid {
    bytes: Vec<u8>,
}

impl View for Cid {
    type V = Seq<u8>;

    closed spec fn view(&self) -> Seq<u8> {
        self.bytes@
    }
}

/// What an optional identifier holds.
pub open spec fn binary_of(found: Option<Cid>) -> Option<Seq<u8>> {
    match found {
        Some(c) => Some(c@),
        None => None,
    }
}

impl Cid {
    /// The identifier that `text` denotes, if it denotes one.
    pub fn try_from_text(text: &str) -> (found: Option<Cid>)
        ensures
            binary_of(found) == cid_of_text(text@),
    {
        match read_text(text) {
            Some(bytes) => Some(Cid { bytes }),
            None => None,
        }
    }

    /// The identifier that `bytes` start with, if they start with one.
    pub fn try_from_bytes(bytes: &Vec<u8>) -> (found: Option<Cid>)
        ensures
            binary_of(found) == cid_of_bytes(bytes@),
    {
        match read_bytes(bytes) {
            Some(bytes) => Some(Cid { bytes }),
            None => None,
        }
    }

    /// The binary form of the identifier.
    pub fn to_bytes(&self) -> (bytes: Vec<u8>)
        ensures
            bytes@ == self@,
    {
        copy_bytes(&self.bytes)
    }

    /// A copy of the identifier.
    pub fn duplicate(&self) -> (copy: Cid)
        ensures
            copy@ == self@,
    {
        Cid { bytes: copy_bytes(&self.bytes) }
    }

    /// Whether two identifiers are the same.
    pub fn same_as(&self, other: &Cid) -> (same: bool)
        ensures
            same == (self@ == other@),
    {
        bytes_equal(&self.bytes, &other.bytes)
    }

    /// Whether `text` denotes this identifier.
    pub fn is_named_by(&self, text: &str) -> (named: bool)
        ensures
            named == (cid_of_text(text@) == Some(self@)),
    {
        match Cid::try_from_text(text) {
            Some(known) => known.same_as(self),
            None => false,
        }
    }
}

} // verus!
