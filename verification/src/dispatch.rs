//! Routing and result construction. A subtask is classified by its text in
//! fixed precedence order — the `query llm ` prefix first, the `viral`
//! substring second, unknown last — and the handler's outcome is then shaped
//! into an `AgentResult`. Handler failures become fixed sentinel results,
//! never errors.

use vstd::prelude::*;
use crate::model::{AgentResult, SimReading};
use crate::text::{
    contains_sub, fixed4_rep, fixed4_string, has_prefix, str_contains, str_has_prefix,
};

verus! {

/// First routing rule: the subtask starts with the literal `query llm `
/// prefix (trailing space included).
pub open spec fn spec_routes_to_generation(sub: Seq<char>) -> bool {
    has_prefix(sub, "query llm "@)
}

/// Second routing rule: no prefix match, but the subtask mentions `viral`
/// somewhere.
pub open spec fn spec_routes_to_simulation(sub: Seq<char>) -> bool {
    !spec_routes_to_generation(sub) && contains_sub(sub, "viral"@)
}

/// The prompt handed to the generation handler: the subtask with the routing
/// prefix removed, the remainder verbatim.
pub open spec fn spec_prompt(sub: Seq<char>) -> Seq<char> {
    sub.subrange("query llm "@.len() as int, sub.len() as int)
}

/// Where one subtask goes: to the generation handler with its prompt, to the
/// simulation handler, or nowhere.
pub enum Route {
    Generation { prompt: String },
    Simulation,
    Unknown,
}

/// Classifies a subtask; the first matching rule wins, so the prefix beats
/// the substring.
pub fn route(sub_task: &String) -> (r: Route)
    ensures
        match r {
            Route::Generation { prompt } => spec_routes_to_generation(sub_task@)
                && prompt@ == spec_prompt(sub_task@),
            Route::Simulation => spec_routes_to_simulation(sub_task@),
            Route::Unknown => !spec_routes_to_generation(sub_task@)
                && !contains_sub(sub_task@, "viral"@),
        },
{
    if str_has_prefix(sub_task.as_str(), "query llm ") {
        let n = sub_task.as_str().unicode_len();
        proof {
            reveal_strlit("query llm ");
        }
        let prompt = sub_task.as_str().substring_char(10, n);
        Route::Generation { prompt: prompt.to_owned() }
    } else if str_contains(sub_task.as_str(), "viral") {
        Route::Simulation
    } else {
        Route::Unknown
    }
}

/// The output of the terminal result for a subtask no rule recognises.
pub open spec fn spec_unknown_output(sub: Seq<char>) -> Seq<char> {
    "Unknown subtask: "@ + sub
}

/// The terminal result for an unrecognised subtask: a normal outcome, not an
/// error, but flagged unsuccessful.
pub fn unknown_result(sub_task: &String) -> (r: AgentResult)
    ensures
        r.output@ == spec_unknown_output(sub_task@),
        !r.status,
        r.metadata@.len() == 0,
{
    AgentResult {
        output: "Unknown subtask: ".to_owned().concat(sub_task.as_str()),
        status: false,
        metadata: Vec::new(),
    }
}

/// The generation handler's result: the generated text on success, the
/// `LLM Error` sentinel when the call failed or its reply was not a string.
pub fn generation_result(outcome: Option<String>) -> (r: AgentResult)
    ensures
        match outcome {
            Some(text) => r.output@ == text@ && r.status,
            None => r.output@ == "LLM Error"@ && !r.status,
        },
        r.metadata@.len() == 0,
{
    match outcome {
        Some(text) => AgentResult { output: text, status: true, metadata: Vec::new() },
        None => AgentResult {
            output: "LLM Error".to_owned(),
            status: false,
            metadata: Vec::new(),
        },
    }
}

/// The virality a reading reports: its score, or zero when the reply carried
/// no numeric `virality`.
pub open spec fn spec_virality(reading: SimReading) -> int {
    match reading.virality_e4 {
        Some(v) => v as int,
        None => 0,
    }
}

/// The strict success threshold: virality above 0.8.
pub open spec fn spec_sim_status(reading: SimReading) -> bool {
    spec_virality(reading) > 8000
}

/// The simulation handler's output line: the virality to four decimal
/// places, then the reply's `metrics` rendering, or `N/A` when absent.
pub open spec fn spec_sim_output(reading: SimReading) -> Seq<char> {
    "Viral: Virality="@ + fixed4_rep(spec_virality(reading)) + ", Metrics: "@ + (match reading
        .metrics_repr {
        Some(m) => m@,
        None => "N/A"@,
    })
}

/// The simulation handler's result: threshold decision, formatted output and
/// the full reply as metadata on success; the `Viral Error` sentinel when
/// the call failed or its reply was not a map.
pub fn simulation_result(outcome: Option<SimReading>) -> (r: AgentResult)
    ensures
        match outcome {
            Some(reading) => {
                &&& r.output@ == spec_sim_output(reading)
                &&& r.status == spec_sim_status(reading)
                &&& r.metadata@ == reading.entries@
            },
            None => r.output@ == "Viral Error"@ && !r.status && r.metadata@.len() == 0,
        },
{
    match outcome {
        Some(reading) => {
            let virality: i64 = match reading.virality_e4 {
                Some(v) => v,
                None => 0,
            };
            let status = virality > 8000;
            let mut output = "Viral: Virality=".to_owned();
            let rendered = fixed4_string(virality);
            output.append(rendered.as_str());
            output.append(", Metrics: ");
            match &reading.metrics_repr {
                Some(m) => output.append(m.as_str()),
                None => output.append("N/A"),
            }
            proof {
                assert(output@ =~= spec_sim_output(reading));
            }
            AgentResult { output, status, metadata: reading.entries }
        },
        None => AgentResult {
            output: "Viral Error".to_owned(),
            status: false,
            metadata: Vec::new(),
        },
    }
}

/// The output text one dispatch step yields for `sub`, given the service
/// outcomes it may consume.
pub open spec fn spec_step_output(
    sub: Seq<char>,
    generated: Option<String>,
    simulated: Option<SimReading>,
) -> Seq<char> {
    if spec_routes_to_generation(sub) {
        match generated {
            Some(t) => t@,
            None => "LLM Error"@,
        }
    } else if spec_routes_to_simulation(sub) {
        match simulated {
            Some(reading) => spec_sim_output(reading),
            None => "Viral Error"@,
        }
    } else {
        spec_unknown_output(sub)
    }
}

/// The success flag one dispatch step yields.
pub open spec fn spec_step_status(
    sub: Seq<char>,
    generated: Option<String>,
    simulated: Option<SimReading>,
) -> bool {
    if spec_routes_to_generation(sub) {
        generated is Some
    } else if spec_routes_to_simulation(sub) {
        match simulated {
            Some(reading) => spec_sim_status(reading),
            None => false,
        }
    } else {
        false
    }
}

/// The metadata one dispatch step yields: the simulation reply's entries,
/// empty everywhere else.
pub open spec fn spec_step_metadata(sub: Seq<char>, simulated: Option<SimReading>) -> Seq<
    (String, String),
> {
    if spec_routes_to_simulation(sub) {
        match simulated {
            Some(reading) => reading.entries@,
            None => Seq::empty(),
        }
    } else {
        Seq::empty()
    }
}

/// Routes `sub_task` and shapes the matching service outcome into the
/// dispatch result; outcomes for the other handlers are ignored.
pub fn dispatch_with(
    sub_task: &String,
    generated: Option<String>,
    simulated: Option<SimReading>,
) -> (r: AgentResult)
    ensures
        r.output@ == spec_step_output(sub_task@, generated, simulated),
        r.status == spec_step_status(sub_task@, generated, simulated),
        r.metadata@ == spec_step_metadata(sub_task@, simulated),
{
    match route(sub_task) {
        Route::Generation { prompt: _ } => generation_result(generated),
        Route::Simulation => simulation_result(simulated),
        Route::Unknown => unknown_result(sub_task),
    }
}

} // verus!
