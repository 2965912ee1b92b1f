//! Self-debugging: the bounded correction cycle after a failed subtask. The
//! anomaly is recorded best-effort, and only a failed output carrying the
//! `low virality` signal, answered by a usable re-plan, halts the loop.
//! Every external failure on this path degrades to "carry on".

use vstd::prelude::*;
use crate::model::AgentResult;
use crate::text::{contains_sub, str_contains};

verus! {

/// The note recorded for a failed output.
pub open spec fn spec_anomaly_note(output: Seq<char>) -> Seq<char> {
    "Anomaly: "@ + output
}

/// A failed output carrying the `low virality` signal asks for a re-plan.
pub open spec fn spec_wants_replan(output: Seq<char>, status: bool) -> bool {
    !status && contains_sub(output, "low virality"@)
}

/// The loop halts after a subtask exactly when its failed output asked for a
/// re-plan and the re-plan call yielded a plan string.
pub open spec fn spec_debug_halts(output: Seq<char>, status: bool, replanned: Option<
    String,
>) -> bool {
    spec_wants_replan(output, status) && replanned is Some
}

/// The note to hand the memory service, tagged as an error: `Anomaly: ` and
/// the failed output. `None` when the result succeeded and nothing is
/// recorded. Storing it is fire-and-forget; a storage failure is swallowed.
pub fn anomaly_note(result: &AgentResult) -> (r: Option<String>)
    ensures
        match r {
            Some(note) => !result.status && note@ == spec_anomaly_note(result.output@),
            None => result.status,
        },
{
    if result.status {
        None
    } else {
        Some("Anomaly: ".to_owned().concat(result.output.as_str()))
    }
}

/// Whether a result asks the re-plan capability for one alternative.
pub fn wants_replan(result: &AgentResult) -> (r: bool)
    ensures
        r == spec_wants_replan(result.output@, result.status),
{
    !result.status && str_contains(result.output.as_str(), "low virality")
}

/// The fixed alternative directive handed to the re-plan capability.
pub fn replan_directive() -> (r: String)
    ensures
        r@ == "replan viral alt strategy"@,
{
    "replan viral alt strategy".to_owned()
}

/// Decides whether the loop halts, given the re-plan outcome (`None` when no
/// re-plan was attempted or the call yielded nothing usable). At most one
/// re-plan is ever attempted per run, and never chained.
pub fn self_debug_decision(result: &AgentResult, replanned: &Option<String>) -> (r: bool)
    ensures
        r == spec_debug_halts(result.output@, result.status, *replanned),
{
    if wants_replan(result) {
        replanned.is_some()
    } else {
        false
    }
}

} // verus!
