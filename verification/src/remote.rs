//! Reading the remote directory's listing response.
//!
//! The listing endpoint answers with a JSON array of label objects, each
//! carrying at least a `name` string field. [`parse_label_entries`] turns the
//! response body into [`ListedLabel`] values: the decoding is serde_json's,
//! behind one trusted wrapper from plain text to plain values, and its
//! outcome is pinned by the named results below — the decode depends on the
//! body alone. Everything downstream of the decoded entries
//! ([`crate::sync::names_to_delete`] and the orchestrator) is verified.

use vstd::prelude::*;

use crate::sync::ListedLabel;
use crate::sync::SyncError;

verus! {

/// Whether a string is one valid JSON document, as serde_json::from_str
/// decides it.
pub uninterp spec fn is_json_document(s: Seq<char>) -> bool;

/// Whether the JSON document a string holds is an array at its top level, as
/// serde_json::Value::as_array decides it.
pub uninterp spec fn is_json_array_document(s: Seq<char>) -> bool;

/// The entries a JSON array document yields: one per element, in array
/// order, carrying the element's `name` string field when it has one.
pub uninterp spec fn label_entries_of(s: Seq<char>) -> Seq<Option<Seq<char>>>;

/// Relies on serde_json::from_str for Value, and on Value::as_array,
/// Value::get and Value::as_str: parsing succeeds exactly when the input is
/// one valid JSON document, the array view exactly when that document is an
/// array, and each element's `name` string field is read off as plain values.
/// The whole decode is deterministic in the body alone, which the three
/// named results stand for.
#[verifier::external_body]
fn decode_label_entries(body: &str) -> (r: Result<Vec<ListedLabel>, String>)
    ensures
        r is Ok <==> (is_json_document(body@) && is_json_array_document(body@)),
        r matches Ok(entries) ==> entries@.map_values(|e: ListedLabel| e@) == label_entries_of(body@),
{
    match serde_json::from_str::<serde_json::Value>(body) {
        Err(error) => Err(error.to_string()),
        Ok(value) => match value.as_array() {
            None => Err("the response is not a JSON array".to_owned()),
            Some(elements) => Ok(
                elements.iter().map(
                    |element| ListedLabel {
                        name: element.get("name").and_then(|v| v.as_str()).map(|s| s.to_owned()),
                    },
                ).collect(),
            ),
        },
    }
}

/// Reads the listing response body: a JSON array of label objects. Succeeds
/// exactly on a JSON array document, handing back one entry per element with
/// the element's `name` string field when it has one; what the names decide
/// is then verified downstream, in [`crate::sync::names_to_delete`] and the
/// orchestrator. A body that is not valid JSON, or whose document is not an
/// array, is a parse failure.
pub fn parse_label_entries(body: &str) -> (r: Result<Vec<ListedLabel>, SyncError>)
    ensures
        r is Ok <==> (is_json_document(body@) && is_json_array_document(body@)),
        r matches Ok(entries) ==> entries@.map_values(|e: ListedLabel| e@) == label_entries_of(body@),
        r matches Err(e) ==> e is Parse,
{
    match decode_label_entries(body) {
        Ok(entries) => Ok(entries),
        Err(message) => Err(SyncError::Parse { message }),
    }
}

} // verus!
