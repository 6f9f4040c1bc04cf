//! The JSON form of a list of beacon entries.

use vstd::prelude::*;
use crate::beacon::{BeaconEntry, BeaconEntryModel};
use crate::beacon_json::{base64_bytes, base64_text, InvalidData, JsonHelper};

verus! {

/// Whether `json` is the JSON form of `entry`.
pub open spec fn is_form_of(json: JsonHelper, entry: BeaconEntryModel) -> bool {
    json.round == entry.round && json.data@ == base64_text(entry.data)
}

/// Whether `entry` is what `json` stands for.
pub open spec fn stands_for(json: JsonHelper, entry: BeaconEntryModel) -> bool {
    json.round == entry.round && base64_bytes(json.data@) == Some(entry.data)
}

/// The forms of a list that may be absent.
pub open spec fn forms_in(forms: Option<Vec<JsonHelper>>) -> Seq<JsonHelper> {
    match forms {
        Some(list) => list@,
        None => Seq::empty(),
    }
}

/// The JSON forms of the entries, in order.
pub fn serialize(m: &[BeaconEntry]) -> (forms: Vec<JsonHelper>)
    ensures
        forms@.len() == m@.len(),
        forall|i: int| 0 <= i < m@.len() ==> is_form_of(#[trigger] forms@[i], m@[i]@),
{
    let mut forms: Vec<JsonHelper> = Vec::new();
    let mut i: usize = 0;
    while i < m.len()
        invariant
            i <= m@.len(),
            forms@.len() == i,
            forall|j: int| 0 <= j < i ==> is_form_of(#[trigger] forms@[j], m@[j]@),
        decreases m@.len() - i,
    {
        forms.push(crate::beacon_json::serialize(&m[i]));
        i += 1;
    }
    forms
}

/// The entries that a JSON list stands for. An absent list, which some
/// writers put for an empty one, gives no entries. The list is refused
/// exactly when one of its signatures is not base64.
pub fn deserialize(forms: &Option<Vec<JsonHelper>>) -> (result: Result<Vec<BeaconEntry>, InvalidData>)
    ensures
        match result {
            Ok(entries) => entries@.len() == forms_in(*forms).len() && forall|i: int|
                0 <= i < entries@.len() ==> stands_for(
                    #[trigger] forms_in(*forms)[i],
                    entries@[i]@,
                ),
            Err(_) => exists|i: int|
                0 <= i < forms_in(*forms).len() && base64_bytes(
                    (#[trigger] forms_in(*forms)[i]).data@,
                ) is None,
        },
{
    let mut entries: Vec<BeaconEntry> = Vec::new();
    match forms {
        None => Ok(entries),
        Some(list) => {
            let mut i: usize = 0;
            while i < list.len()
                invariant
                    i <= list@.len(),
                    list@ == forms_in(*forms),
                    entries@.len() == i,
                    forall|j: int| 0 <= j < i ==> stands_for(#[trigger] list@[j], entries@[j]@),
                decreases list@.len() - i,
            {
                match crate::beacon_json::deserialize(&list[i]) {
                    Ok(entry) => {
                        entries.push(entry);
                    },
                    Err(e) => {
                        proof {
                            assert(base64_bytes(forms_in(*forms)[i as int].data@) is None);
                        }
                        return Err(e);
                    },
                }
                i += 1;
            }
            Ok(entries)
        },
    }
}

} // verus!
