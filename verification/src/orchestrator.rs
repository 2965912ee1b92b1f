//! The top-level driver: it composes the store, the planner, the router and
//! the self-debugger into the plan → dispatch → self-debug → aggregate
//! cycle. Every collaborator outcome reaches it as a plain value — the
//! decomposition as an optional subtask list, the per-step service outcomes
//! as a reply record — so the whole control loop is specified and proved for
//! every possible service behaviour.

use vstd::prelude::*;
use crate::codec::{serialize_outputs, spec_aggregate};
use crate::debugger::{self_debug_decision, spec_debug_halts};
use crate::dispatch::{
    dispatch_with, spec_routes_to_simulation, spec_step_metadata, spec_step_output,
    spec_step_status,
};
use crate::model::{AgentResult, SimReading, StepReply};
use crate::planner::{plan_with, spec_plan};
use crate::store::{spec_ensured, ContextStore, StoreError};
use crate::text::{lemma_seq_views_push, seq_views};

verus! {

/// Whether step `i` of the loop halts it: the step's failed output carried
/// the re-plan signal and the step's re-plan outcome was usable.
pub open spec fn spec_step_halts(
    subtasks: Seq<Seq<char>>,
    replies: Seq<StepReply>,
    i: int,
) -> bool {
    spec_debug_halts(
        spec_step_output(subtasks[i], replies[i].generated, replies[i].simulated),
        spec_step_status(subtasks[i], replies[i].generated, replies[i].simulated),
        replies[i].replanned,
    )
}

/// The outputs the dispatch loop accumulates from position `i` on: one
/// output per subtask, cut short just after the first halting step.
pub open spec fn spec_loop_outputs(
    subtasks: Seq<Seq<char>>,
    replies: Seq<StepReply>,
    i: int,
) -> Seq<Seq<char>>
    decreases subtasks.len() - i,
{
    if i < 0 || i >= subtasks.len() || i >= replies.len() {
        Seq::empty()
    } else {
        let out = seq![
            spec_step_output(subtasks[i], replies[i].generated, replies[i].simulated),
        ];
        if spec_step_halts(subtasks, replies, i) {
            out
        } else {
            out + spec_loop_outputs(subtasks, replies, i + 1)
        }
    }
}

/// The outputs `process` accumulates over the whole plan.
pub open spec fn spec_process_outputs(subtasks: Seq<Seq<char>>, replies: Seq<StepReply>) -> Seq<
    Seq<char>,
> {
    spec_loop_outputs(subtasks, replies, 0)
}

proof fn lemma_loop_outputs_halt(subtasks: Seq<Seq<char>>, replies: Seq<StepReply>, k: int, i: int)
    requires
        0 <= k <= i < subtasks.len(),
        subtasks.len() <= replies.len(),
        forall|j: int| k <= j < i ==> !spec_step_halts(subtasks, replies, j),
        spec_step_halts(subtasks, replies, i),
    ensures
        spec_loop_outputs(subtasks, replies, k) == Seq::new(
            (i + 1 - k) as nat,
            |j: int|
                spec_step_output(
                    subtasks[k + j],
                    replies[k + j].generated,
                    replies[k + j].simulated,
                ),
        ),
    decreases i - k,
{
    if k == i {
        assert(spec_loop_outputs(subtasks, replies, k) =~= Seq::new(
            (i + 1 - k) as nat,
            |j: int|
                spec_step_output(
                    subtasks[k + j],
                    replies[k + j].generated,
                    replies[k + j].simulated,
                ),
        ));
    } else {
        lemma_loop_outputs_halt(subtasks, replies, k + 1, i);
        assert(spec_loop_outputs(subtasks, replies, k) =~= Seq::new(
            (i + 1 - k) as nat,
            |j: int|
                spec_step_output(
                    subtasks[k + j],
                    replies[k + j].generated,
                    replies[k + j].simulated,
                ),
        ));
    }
}

proof fn lemma_loop_outputs_all(subtasks: Seq<Seq<char>>, replies: Seq<StepReply>, k: int)
    requires
        0 <= k <= subtasks.len(),
        subtasks.len() <= replies.len(),
        forall|j: int| k <= j < subtasks.len() ==> !spec_step_halts(subtasks, replies, j),
    ensures
        spec_loop_outputs(subtasks, replies, k) == Seq::new(
            (subtasks.len() - k) as nat,
            |j: int|
                spec_step_output(
                    subtasks[k + j],
                    replies[k + j].generated,
                    replies[k + j].simulated,
                ),
        ),
    decreases subtasks.len() - k,
{
    if k == subtasks.len() {
        assert(spec_loop_outputs(subtasks, replies, k) =~= Seq::new(
            (subtasks.len() - k) as nat,
            |j: int|
                spec_step_output(
                    subtasks[k + j],
                    replies[k + j].generated,
                    replies[k + j].simulated,
                ),
        ));
    } else {
        lemma_loop_outputs_all(subtasks, replies, k + 1);
        assert(spec_loop_outputs(subtasks, replies, k) =~= Seq::new(
            (subtasks.len() - k) as nat,
            |j: int|
                spec_step_output(
                    subtasks[k + j],
                    replies[k + j].generated,
                    replies[k + j].simulated,
                ),
        ));
    }
}

/// One halting step ends the run: when the steps before `i` all continue and
/// step `i` halts, the run's outputs are exactly the step outputs up to and
/// including `i` — everything after the halting step is dropped.
pub proof fn lemma_halt_cuts_outputs(subtasks: Seq<Seq<char>>, replies: Seq<StepReply>, i: int)
    requires
        0 <= i < subtasks.len(),
        subtasks.len() <= replies.len(),
        forall|j: int| 0 <= j < i ==> !spec_step_halts(subtasks, replies, j),
        spec_step_halts(subtasks, replies, i),
    ensures
        spec_process_outputs(subtasks, replies) == Seq::new(
            (i + 1) as nat,
            |j: int|
                spec_step_output(subtasks[j], replies[j].generated, replies[j].simulated),
        ),
{
    lemma_loop_outputs_halt(subtasks, replies, 0, i);
    assert(Seq::new(
        (i + 1) as nat,
        |j: int| spec_step_output(subtasks[0 + j], replies[0 + j].generated, replies[0 + j].simulated),
    ) =~= Seq::new(
        (i + 1) as nat,
        |j: int| spec_step_output(subtasks[j], replies[j].generated, replies[j].simulated),
    ));
}

/// When no step halts, every subtask contributes: the run's outputs are the
/// step outputs of the whole plan, in order.
pub proof fn lemma_no_halt_outputs(subtasks: Seq<Seq<char>>, replies: Seq<StepReply>)
    requires
        subtasks.len() <= replies.len(),
        forall|j: int| 0 <= j < subtasks.len() ==> !spec_step_halts(subtasks, replies, j),
    ensures
        spec_process_outputs(subtasks, replies) == Seq::new(
            subtasks.len(),
            |j: int|
                spec_step_output(subtasks[j], replies[j].generated, replies[j].simulated),
        ),
{
    lemma_loop_outputs_all(subtasks, replies, 0);
    assert(Seq::new(
        subtasks.len(),
        |j: int| spec_step_output(subtasks[0 + j], replies[0 + j].generated, replies[0 + j].simulated),
    ) =~= Seq::new(
        subtasks.len(),
        |j: int| spec_step_output(subtasks[j], replies[j].generated, replies[j].simulated),
    ));
}

/// The orchestrator: per-conversation contexts plus the control loop's
/// decision logic.
pub struct CognitiveOrchestrator {
    pub contexts: ContextStore,
}

impl CognitiveOrchestrator {
    /// The store's keys are unambiguous.
    pub open spec fn wf(self) -> bool {
        self.contexts.wf()
    }

    pub fn new() -> (r: Self)
        ensures
            r.wf(),
            r.contexts.entries@.len() == 0,
    {
        CognitiveOrchestrator { contexts: ContextStore::new() }
    }

    /// Plans a command: first makes sure the context exists, then returns
    /// the fast-path plan on a trigger word, the service's non-empty
    /// decomposition otherwise, or the one-element fallback plan. Planning
    /// never fails outward.
    pub fn proactive_plan(
        &mut self,
        command: &String,
        context_id: &String,
        decomposed: Option<Vec<String>>,
    ) -> (r: Vec<String>)
        requires
            old(self).wf(),
        ensures
            final(self).wf(),
            spec_ensured(old(self).contexts, final(self).contexts, context_id@),
            seq_views(r@) == spec_plan(command@, decomposed),
    {
        self.contexts.ensure(context_id);
        plan_with(command, decomposed)
    }

    /// The inputs handed verbatim to the simulation service for this
    /// context: its engagement node count and its hook rate (in
    /// ten-thousandths), or `NotFound` when the context was never ensured.
    pub fn simulation_inputs(&self, context_id: &String) -> (r: Result<(usize, u64), StoreError>)
        requires
            self.wf(),
        ensures
            match r {
                Ok(p) => self.contexts.has(context_id@) && p.0 == self.contexts.ctx(
                    context_id@,
                ).viral_metrics.engagement_nodes && p.1 == self.contexts.ctx(
                    context_id@,
                ).viral_metrics.hook_rate_e4,
                Err(e) => !self.contexts.has(context_id@) && e == StoreError::NotFound,
            },
    {
        match self.contexts.metrics(context_id) {
            Ok(m) => Ok((m.engagement_nodes, m.hook_rate_e4)),
            Err(e) => Err(e),
        }
    }

    /// Routes one subtask and shapes the matching service outcome into its
    /// result. A simulation-routed subtask reads the context's live metrics
    /// for its service call, so its context must exist — the driver always
    /// plans first, which ensures it.
    pub fn dispatch(
        &self,
        sub_task: &String,
        context_id: &String,
        generated: Option<String>,
        simulated: Option<SimReading>,
    ) -> (r: AgentResult)
        requires
            self.wf(),
            spec_routes_to_simulation(sub_task@) ==> self.contexts.has(context_id@),
        ensures
            r.output@ == spec_step_output(sub_task@, generated, simulated),
            r.status == spec_step_status(sub_task@, generated, simulated),
            r.metadata@ == spec_step_metadata(sub_task@, simulated),
    {
        dispatch_with(sub_task, generated, simulated)
    }

    /// Decides whether the loop halts after a subtask, given the re-plan
    /// outcome (`None` when no re-plan was attempted or it yielded nothing
    /// usable): only a failed output carrying the `low virality` signal,
    /// answered by a usable re-plan, halts. Recording the anomaly is
    /// fire-and-forget and never influences the decision.
    pub fn self_debug(&self, result: &AgentResult, replanned: &Option<String>) -> (r: bool)
        ensures
            r == spec_debug_halts(result.output@, result.status, *replanned),
    {
        self_debug_decision(result, replanned)
    }

    /// Runs the whole cycle for one command: plan, dispatch each subtask in
    /// order, stop early when self-debug says so, and aggregate the
    /// accumulated outputs. The collaborator outcomes arrive as plain
    /// values, one reply record per planned subtask, consumed in step order.
    pub fn process(
        &mut self,
        command: &String,
        context_id: &String,
        decomposed: Option<Vec<String>>,
        replies: Vec<StepReply>,
    ) -> (r: String)
        requires
            old(self).wf(),
            replies@.len() >= spec_plan(command@, decomposed).len(),
        ensures
            final(self).wf(),
            spec_ensured(old(self).contexts, final(self).contexts, context_id@),
            spec_aggregate(
                spec_process_outputs(spec_plan(command@, decomposed), replies@),
                r@,
            ),
    {
        let ghost plan = spec_plan(command@, decomposed);
        let ghost reps = replies@;
        let subtasks = self.proactive_plan(command, context_id, decomposed);
        let n = subtasks.len();
        let mut rest = replies;
        let mut outputs: Vec<String> = Vec::new();
        let mut i: usize = 0;
        loop
            invariant_except_break
                self.wf(),
                spec_ensured(old(self).contexts, self.contexts, context_id@),
                plan == seq_views(subtasks@),
                n == subtasks@.len(),
                reps.len() >= n,
                i <= n,
                rest@ == reps.skip(i as int),
                seq_views(outputs@) + spec_loop_outputs(plan, reps, i as int)
                    == spec_process_outputs(plan, reps),
                forall|j: int| 0 <= j < i ==> !spec_step_halts(plan, reps, j),
            ensures
                self.wf(),
                spec_ensured(old(self).contexts, self.contexts, context_id@),
                seq_views(outputs@) == spec_process_outputs(plan, reps),
            decreases n - i,
        {
            if i >= n {
                proof {
                    assert(spec_loop_outputs(plan, reps, i as int) =~= Seq::<Seq<char>>::empty());
                    assert(seq_views(outputs@) + Seq::<Seq<char>>::empty() =~= seq_views(outputs@));
                }
                break;
            }
            let ghost outputs_before = outputs@;
            let reply = rest.remove(0);
            proof {
                assert(reply == reps[i as int]);
                assert(rest@ =~= reps.skip(i as int + 1));
            }
            let StepReply { generated, simulated, replanned } = reply;
            let sub = &subtasks[i];
            let res = self.dispatch(sub, context_id, generated, simulated);
            outputs.push(res.output.clone());
            let halt = self.self_debug(&res, &replanned);
            proof {
                assert(sub@ == plan[i as int]);
                lemma_seq_views_push(outputs_before, res.output);
                assert(halt == spec_step_halts(plan, reps, i as int));
            }
            if halt {
                proof {
                    assert(spec_loop_outputs(plan, reps, i as int) =~= seq![res.output@]);
                    assert(seq_views(outputs@) =~= seq_views(outputs_before).push(res.output@));
                    assert(seq_views(outputs@) =~= seq_views(outputs_before) + seq![res.output@]);
                    assert(seq_views(outputs@) =~= spec_process_outputs(plan, reps));
                }
                break;
            }
            proof {
                assert(spec_loop_outputs(plan, reps, i as int) =~= seq![res.output@]
                    + spec_loop_outputs(plan, reps, i as int + 1));
                assert(seq_views(outputs@) =~= seq_views(outputs_before) + seq![res.output@]);
                assert(seq_views(outputs@) + spec_loop_outputs(plan, reps, i as int + 1)
                    =~= seq_views(outputs_before) + spec_loop_outputs(plan, reps, i as int));
            }
            i += 1;
        }
        serialize_outputs(&outputs)
    }
}

} // verus!
