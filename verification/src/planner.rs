//! Planning: a keyword fast path that returns a fixed five-step plan, and
//! the fallback decision wrapped around the external decomposition service.
//! Planning never fails outward: every service failure degrades to a
//! one-element plan holding the original command.

use vstd::prelude::*;
use crate::text::{contains_sub, seq_views, str_contains};

verus! {

/// A command takes the fixed fast-path plan when it contains `viral` or
/// `engage` (case-sensitive substring containment; either suffices).
pub open spec fn spec_is_trigger(command: Seq<char>) -> bool {
    contains_sub(command, "viral"@) || contains_sub(command, "engage"@)
}

/// The fixed five-step plan the fast path returns, verbatim.
pub open spec fn fast_path_plan() -> Seq<Seq<char>> {
    seq!["gen content"@, "inject hook"@, "amplify MWPM"@, "measure spread"@, "eval metrics"@]
}

/// The plan for `command` once the decomposition outcome is known: the
/// fast-path plan on a trigger word (the outcome is ignored); otherwise the
/// service's decomposition when it is a non-empty sequence; otherwise the
/// command itself, alone and unchanged.
pub open spec fn spec_plan(command: Seq<char>, decomposed: Option<Vec<String>>) -> Seq<Seq<char>> {
    if spec_is_trigger(command) {
        fast_path_plan()
    } else {
        match decomposed {
            Some(subtasks) => if subtasks@.len() > 0 {
                seq_views(subtasks@)
            } else {
                seq![command]
            },
            None => seq![command],
        }
    }
}

/// Whether `command` carries a trigger word, i.e. whether planning skips the
/// decomposition service entirely.
pub fn is_trigger_command(command: &String) -> (r: bool)
    ensures
        r == spec_is_trigger(command@),
{
    str_contains(command.as_str(), "viral") || str_contains(command.as_str(), "engage")
}

/// Builds the fixed five-step plan.
pub fn fast_plan() -> (r: Vec<String>)
    ensures
        seq_views(r@) == fast_path_plan(),
{
    let mut v: Vec<String> = Vec::new();
    v.push("gen content".to_owned());
    v.push("inject hook".to_owned());
    v.push("amplify MWPM".to_owned());
    v.push("measure spread".to_owned());
    v.push("eval metrics".to_owned());
    proof {
        assert(seq_views(v@) =~= fast_path_plan());
    }
    v
}

/// A one-element plan holding the command unchanged.
fn single_plan(command: &String) -> (r: Vec<String>)
    ensures
        seq_views(r@) == seq![command@],
{
    let mut v: Vec<String> = Vec::new();
    v.push(command.clone());
    proof {
        assert(seq_views(v@) =~= seq![command@]);
    }
    v
}

/// The plan for `command`, given what the decomposition service answered
/// (`None` when it was unavailable, failed, or its reply was not a sequence
/// of strings). Never fails: every degraded path yields the one-element
/// fallback plan.
pub fn plan_with(command: &String, decomposed: Option<Vec<String>>) -> (r: Vec<String>)
    ensures
        seq_views(r@) == spec_plan(command@, decomposed),
{
    if is_trigger_command(command) {
        fast_plan()
    } else {
        match decomposed {
            Some(subtasks) => {
                if subtasks.len() > 0 {
                    subtasks
                } else {
                    single_plan(command)
                }
            },
            None => single_plan(command),
        }
    }
}

} // verus!
