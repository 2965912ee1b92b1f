//! Aggregation of the accumulated subtask outputs into the single reply
//! string: a JSON list when the serializer succeeds, newline-joined plain
//! text as the degraded fallback.

use vstd::prelude::*;
use crate::text::{join_lines, join_with_newlines, seq_views};

verus! {

/// What `serde_json` renders a list of strings as: a function of the
/// strings alone.
pub uninterp spec fn json_string_list(items: Seq<Seq<char>>) -> Seq<char>;

/// Relies on `serde_json::to_string` applied to a `Vec<String>`: the JSON
/// array text it renders depends on the strings alone.
#[verifier::external_body]
fn json_encode_outputs(items: &Vec<String>) -> (r: Option<String>)
    ensures
        match r {
            Some(s) => s@ == json_string_list(seq_views(items@)),
            None => true,
        },
{
    serde_json::to_string(items).ok()
}

/// The aggregate is the JSON list of the outputs, or, degraded, their
/// newline-joined text.
pub open spec fn spec_aggregate(items: Seq<Seq<char>>, out: Seq<char>) -> bool {
    out == json_string_list(items) || out == join_lines(items)
}

/// Serializes the outputs: the JSON list when the serializer succeeds, the
/// newline-joined text otherwise.
pub fn serialize_outputs(outputs: &Vec<String>) -> (r: String)
    ensures
        spec_aggregate(seq_views(outputs@), r@),
{
    match json_encode_outputs(outputs) {
        Some(s) => s,
        None => join_with_newlines(outputs),
    }
}

} // verus!
