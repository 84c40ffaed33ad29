//! The lists as JSON text: an object whose keys are the names of the lists
//! and whose values are arrays of strings, the items. `serde_json` reads and
//! writes the text.

use std::collections::HashMap;
use vstd::prelude::*;
use crate::collection::{distinct_names, lists_of, Entry, ListCollection};
use crate::error::StoreError;

verus! {

/// The error type of `serde_json`.
#[verifier::external_type_specification]
#[verifier::external_body]
pub struct ExJsonError(serde_json::Error);

/// The lists that `serde_json::from_str` reads from a text as a map from
/// strings to vectors of strings, or `None` where it turns the text down.
pub uninterp spec fn decoded(text: Seq<char>) -> Option<Map<Seq<char>, Seq<Seq<char>>>>;

/// Calls `serde_json::from_str` for a `HashMap<String, Vec<String>>` and
/// hands out the entries of the map, in the order in which the map walks
/// them. Not proved: that the call gives the same map for the same text,
/// which `decoded` names, and that the walk gives each key once.
#[verifier::external_body]
fn decode_entries(text: &str) -> (r: Result<Vec<Entry>, serde_json::Error>)
    ensures
        match r {
            Ok(entries) => distinct_names(entries@) && decoded(text@) == Some(lists_of(entries@)),
            Err(_) => decoded(text@) is None,
        },
{
    let map: HashMap<String, Vec<String>> = serde_json::from_str(text)?;
    Ok(map.into_iter().collect())
}

/// Calls `serde_json::to_string` on a `HashMap` made of the entries, which
/// walks them in an order of its own. Not proved: that the call succeeds, as
/// it does for a map whose keys are strings and whose values are vectors of
/// strings, written to memory; that the text is not empty, as it begins with
/// the brace that opens the object; and that `serde_json::from_str` reads the
/// text as the map that was written, each string escaped and read back
/// letter for letter.
#[verifier::external_body]
fn encode_entries(entries: &Vec<Entry>) -> (r: Result<String, serde_json::Error>)
    requires
        distinct_names(entries@),
    ensures
        match r {
            Ok(text) => text@.len() > 0 && decoded(text@) == Some(lists_of(entries@)),
            Err(_) => false,
        },
{
    let map: HashMap<&String, &Vec<String>> = entries.iter().map(|e| (&e.0, &e.1)).collect();
    serde_json::to_string(&map)
}

/// Calls `to_string` on an error of `serde_json`: its words for the user.
#[verifier::external_body]
fn error_detail(e: &serde_json::Error) -> (detail: String) {
    e.to_string()
}

/// The lists that the text of a list file holds: none for a text without a
/// letter, as for a file that is not there; for any other text what the
/// decoder reads from it, or `None` where it reads no lists.
pub open spec fn stored(text: Seq<char>) -> Option<Map<Seq<char>, Seq<Seq<char>>>> {
    if text.len() == 0 {
        Some(Map::empty())
    } else {
        decoded(text)
    }
}

/// What reading a text gives: the lists that the text holds, or an error
/// where it holds none.
pub open spec fn deserialized(text: Seq<char>, r: Result<ListCollection, StoreError>) -> bool {
    match stored(text) {
        Some(lists) => r matches Ok(collection) && collection@ == lists,
        None => r matches Err(StoreError::Serialization(_)),
    }
}

/// What writing lists gives: a text that holds these lists.
pub open spec fn serialized(
    lists: Map<Seq<char>, Seq<Seq<char>>>,
    r: Result<String, StoreError>,
) -> bool {
    r matches Ok(text) && stored(text@) == Some(lists)
}

/// Reads the lists from the text of a list file. The empty text holds no
/// lists; any other text is read as JSON.
pub fn deserialize(text: &str) -> (r: Result<ListCollection, StoreError>)
    ensures
        deserialized(text@, r),
        text@.len() == 0 ==> (r matches Ok(collection) && collection@ == Map::<
            Seq<char>,
            Seq<Seq<char>>,
        >::empty()),
{
    if text.is_empty() {
        return Ok(ListCollection::new());
    }
    match decode_entries(text) {
        Ok(entries) => Ok(ListCollection::from_entries(entries)),
        Err(e) => Err(StoreError::Serialization(error_detail(&e))),
    }
}

/// Writes the lists as JSON text, which `deserialize` reads as the same
/// lists.
pub fn serialize(lists: &ListCollection) -> (r: Result<String, StoreError>)
    ensures
        serialized(lists@, r),
{
    match encode_entries(lists.entries()) {
        Ok(text) => Ok(text),
        Err(e) => Err(StoreError::Serialization(error_detail(&e))),
    }
}

/// Writing and reading give the lists back: `serialize` hands out a text for
/// every collection, and `deserialize` reads that text as a collection of
/// the same lists.
pub proof fn law_round_trip(
    lists: ListCollection,
    written: Result<String, StoreError>,
    read: Result<ListCollection, StoreError>,
)
    requires
        serialized(lists@, written),
        deserialized(written->Ok_0@, read),
    ensures
        written is Ok,
        read matches Ok(back) && back@ == lists@,
{
}

} // verus!
