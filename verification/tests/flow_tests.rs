use cognitive_orchestrator::debugger::{anomaly_note, replan_directive, wants_replan};
use cognitive_orchestrator::dispatch::{
    dispatch_with, generation_result, route, simulation_result, unknown_result, Route,
};
use cognitive_orchestrator::model::{SimReading, StepReply};
use cognitive_orchestrator::orchestrator::CognitiveOrchestrator;
use cognitive_orchestrator::planner::plan_with;
use cognitive_orchestrator::codec::serialize_outputs;

fn no_reply() -> StepReply {
    StepReply { generated: None, simulated: None, replanned: None }
}

fn sim_reading(virality_e4: i64, metrics_repr: Option<&str>) -> SimReading {
    SimReading {
        virality_e4: Some(virality_e4),
        metrics_repr: metrics_repr.map(|m| m.to_owned()),
        entries: vec![("virality".to_owned(), "number".to_owned())],
    }
}

#[test]
fn trigger_word_takes_the_fixed_plan() {
    let plan = plan_with(&"let's engage users".to_owned(), None);
    assert_eq!(
        plan,
        vec!["gen content", "inject hook", "amplify MWPM", "measure spread", "eval metrics"]
    );
    let plan = plan_with(&"make this viral".to_owned(), Some(vec!["ignored".to_owned()]));
    assert_eq!(plan.len(), 5);
    assert_eq!(plan[0], "gen content");
}

#[test]
fn unavailable_decomposition_falls_back_to_the_command() {
    let plan = plan_with(&"summarise the report".to_owned(), None);
    assert_eq!(plan, vec!["summarise the report"]);
    let plan = plan_with(&"summarise the report".to_owned(), Some(vec![]));
    assert_eq!(plan, vec!["summarise the report"]);
}

#[test]
fn decomposition_is_returned_unmodified() {
    let steps = vec!["first".to_owned(), "second".to_owned()];
    let plan = plan_with(&"summarise the report".to_owned(), Some(steps.clone()));
    assert_eq!(plan, steps);
}

#[test]
fn prefix_beats_substring_in_routing() {
    match route(&"query llm viral campaign".to_owned()) {
        Route::Generation { prompt } => assert_eq!(prompt, "viral campaign"),
        _ => panic!("expected the generation route"),
    }
    match route(&"run viral push".to_owned()) {
        Route::Simulation => {}
        _ => panic!("expected the simulation route"),
    }
    match route(&"do something unrelated".to_owned()) {
        Route::Unknown => {}
        _ => panic!("expected the unknown route"),
    }
}

#[test]
fn generation_outcomes_shape_the_result() {
    let ok = generation_result(Some("generated text".to_owned()));
    assert!(ok.status);
    assert_eq!(ok.output, "generated text");
    assert!(ok.metadata.is_empty());

    let failed = generation_result(None);
    assert!(!failed.status);
    assert_eq!(failed.output, "LLM Error");
}

#[test]
fn virality_threshold_is_strict() {
    let high = simulation_result(Some(sim_reading(8500, None)));
    assert!(high.status);
    assert!(high.output.starts_with("Viral: Virality=0.8500,"));
    assert_eq!(high.output, "Viral: Virality=0.8500, Metrics: N/A");
    assert_eq!(high.metadata.len(), 1);

    let exactly_at = simulation_result(Some(sim_reading(8000, None)));
    assert!(!exactly_at.status);
    assert!(exactly_at.output.starts_with("Viral: Virality=0.8000,"));

    let missing_virality = simulation_result(Some(SimReading {
        virality_e4: None,
        metrics_repr: None,
        entries: vec![],
    }));
    assert!(!missing_virality.status);
    assert_eq!(missing_virality.output, "Viral: Virality=0.0000, Metrics: N/A");

    let failed = simulation_result(None);
    assert!(!failed.status);
    assert_eq!(failed.output, "Viral Error");
    assert!(failed.metadata.is_empty());
}

#[test]
fn unknown_subtasks_are_terminal_but_not_fatal() {
    let r = unknown_result(&"do something unrelated".to_owned());
    assert!(!r.status);
    assert_eq!(r.output, "Unknown subtask: do something unrelated");
    assert!(r.metadata.is_empty());
}

#[test]
fn dispatch_consumes_only_the_routed_outcome() {
    let r = dispatch_with(
        &"query llm viral campaign".to_owned(),
        Some("campaign copy".to_owned()),
        Some(sim_reading(9000, None)),
    );
    assert!(r.status);
    assert_eq!(r.output, "campaign copy");
    assert!(r.metadata.is_empty());
}

#[test]
fn debug_signals() {
    let failed = unknown_result(&"x".to_owned());
    assert_eq!(anomaly_note(&failed).unwrap(), "Anomaly: Unknown subtask: x");
    assert!(!wants_replan(&failed));

    let low = simulation_result(Some(sim_reading(2000, Some("low virality zone"))));
    assert!(!low.status);
    assert!(wants_replan(&low));
    assert_eq!(anomaly_note(&low).unwrap(), "Anomaly: Viral: Virality=0.2000, Metrics: low virality zone");

    let ok = generation_result(Some("fine".to_owned()));
    assert!(anomaly_note(&ok).is_none());
    assert!(!wants_replan(&ok));

    assert_eq!(replan_directive(), "replan viral alt strategy");
}

#[test]
fn serialize_joins_as_json() {
    let outputs = vec!["a".to_owned(), "b\"quoted\"".to_owned()];
    assert_eq!(serialize_outputs(&outputs), "[\"a\",\"b\\\"quoted\\\"\"]");
    let empty: Vec<String> = vec![];
    assert_eq!(serialize_outputs(&empty), "[]");
}

#[test]
fn process_runs_every_subtask_when_nothing_halts() {
    let mut orch = CognitiveOrchestrator::new();
    let decomposed = Some(vec!["do something unrelated".to_owned(), "query llm hi".to_owned()]);
    let replies = vec![
        no_reply(),
        StepReply { generated: Some("hello".to_owned()), simulated: None, replanned: None },
    ];
    let out = orch.process(&"plain command".to_owned(), &"c1".to_owned(), decomposed, replies);
    assert_eq!(out, "[\"Unknown subtask: do something unrelated\",\"hello\"]");
}

#[test]
fn low_virality_with_a_replan_halts_the_loop() {
    let mut orch = CognitiveOrchestrator::new();
    let decomposed = Some(vec![
        "query llm draft".to_owned(),
        "run viral push".to_owned(),
        "query llm never reached".to_owned(),
    ]);
    let replies = vec![
        StepReply { generated: Some("ok".to_owned()), simulated: None, replanned: None },
        StepReply {
            generated: None,
            simulated: Some(sim_reading(2000, Some("low virality zone"))),
            replanned: Some("replan viral alt strategy".to_owned()),
        },
        StepReply { generated: Some("unused".to_owned()), simulated: None, replanned: None },
    ];
    let out = orch.process(&"plain command".to_owned(), &"c2".to_owned(), decomposed, replies);
    assert_eq!(
        out,
        "[\"ok\",\"Viral: Virality=0.2000, Metrics: low virality zone\"]"
    );
}

#[test]
fn low_virality_without_a_replan_continues() {
    let mut orch = CognitiveOrchestrator::new();
    let decomposed = Some(vec!["run viral push".to_owned(), "query llm after".to_owned()]);
    let replies = vec![
        StepReply {
            generated: None,
            simulated: Some(sim_reading(2000, Some("low virality zone"))),
            replanned: None,
        },
        StepReply { generated: Some("after".to_owned()), simulated: None, replanned: None },
    ];
    let out = orch.process(&"plain command".to_owned(), &"c3".to_owned(), decomposed, replies);
    assert_eq!(
        out,
        "[\"Viral: Virality=0.2000, Metrics: low virality zone\",\"after\"]"
    );
}

#[test]
fn fast_path_plan_dispatches_as_unknown_subtasks() {
    let mut orch = CognitiveOrchestrator::new();
    let replies = vec![no_reply(), no_reply(), no_reply(), no_reply(), no_reply()];
    let out = orch.process(&"go viral".to_owned(), &"c4".to_owned(), None, replies);
    assert_eq!(
        out,
        "[\"Unknown subtask: gen content\",\"Unknown subtask: inject hook\",\"Unknown subtask: amplify MWPM\",\"Unknown subtask: measure spread\",\"Unknown subtask: eval metrics\"]"
    );
}

#[test]
fn process_ensures_the_context_and_exposes_simulation_inputs() {
    let mut orch = CognitiveOrchestrator::new();
    let replies = vec![no_reply()];
    let _ = orch.process(&"one".to_owned(), &"c5".to_owned(), None, replies);
    let (nodes, hook_rate_e4) = orch.simulation_inputs(&"c5".to_owned()).unwrap();
    assert_eq!(nodes, 32);
    assert_eq!(hook_rate_e4, 500);
    assert!(orch.simulation_inputs(&"absent".to_owned()).is_err());
}
