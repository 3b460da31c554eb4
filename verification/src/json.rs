//! Reading JSON texts with `serde_json`.

use crate::text::strings_model;
use vstd::prelude::*;

verus! {

/// The list of strings that a JSON text denotes, if it denotes one.
pub uninterp spec fn json_string_list(json: Seq<char>) -> Option<Seq<Seq<char>>>;

/// `serde_json::from_str` reads the text as a JSON array of strings. It
/// fails on anything else; the failure is handed on as its `Display` text.
#[verifier::external_body]
pub(crate) fn read_string_list(json: &str) -> (r: Result<Vec<String>, String>)
    ensures
        match r {
            Ok(list) => json_string_list(json@) == Some(strings_model(list@)),
            Err(_) => json_string_list(json@) is None,
        },
{
    serde_json::from_str::<Vec<String>>(json).map_err(|e| e.to_string())
}

} // verus!
