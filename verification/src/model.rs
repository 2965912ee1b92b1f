//! The data model: per-context metrics and state, the outcome of one subtask
//! dispatch, and the plain-value shapes in which collaborator outcomes reach
//! the core. Rates and scores are held in fixed point, in ten-thousandths,
//! so that `hook_rate_e4 == 500` stands for a hook rate of 0.05 and
//! `virality_e4 == 8500` for a virality of 0.85.

use vstd::prelude::*;

verus! {

/// Simulation-facing metrics snapshot for a context.
#[derive(Clone, Copy, PartialEq, Eq, Structural, Debug)]
pub struct ViralMetrics {
    pub virality_score_e4: i64,
    pub engagement_nodes: usize,
    pub hook_rate_e4: u64,
    pub amplification_factor_e4: u64,
    pub quantum_fidelity_e4: u64,
}

/// The metrics a fresh context starts with: score 0.0, 32 engagement nodes,
/// hook rate 0.05, amplification factor 1.0, fidelity 0.99.
pub open spec fn default_metrics() -> ViralMetrics {
    ViralMetrics {
        virality_score_e4: 0,
        engagement_nodes: 32,
        hook_rate_e4: 500,
        amplification_factor_e4: 10000,
        quantum_fidelity_e4: 9900,
    }
}

impl Default for ViralMetrics {
    fn default() -> (r: Self)
        ensures
            r == default_metrics(),
    {
        ViralMetrics {
            virality_score_e4: 0,
            engagement_nodes: 32,
            hook_rate_e4: 500,
            amplification_factor_e4: 10000,
            quantum_fidelity_e4: 9900,
        }
    }
}

/// One ongoing conversation's state. Embedding vectors are held in fixed
/// point (ten-thousandths per component); the creation timestamp is the
/// rendered form handed back by the clock when the context was made.
pub struct Context {
    pub context_id: String,
    pub active_goals: Vec<String>,
    pub memory_vectors: Vec<Vec<i64>>,
    pub viral_metrics: ViralMetrics,
    pub created_at: String,
}

/// A context exactly as it is created for `id`: default metrics, no goals or
/// memory yet, and a non-empty creation timestamp.
pub open spec fn is_fresh_context(c: Context, id: Seq<char>) -> bool {
    &&& c.context_id@ == id
    &&& c.active_goals@.len() == 0
    &&& c.memory_vectors@.len() == 0
    &&& c.viral_metrics == default_metrics()
    &&& c.created_at@.len() > 0
}

/// Outcome of one subtask dispatch. `metadata` carries the handler's reply
/// as rendered key/value pairs; only `status` steers the control loop.
pub struct AgentResult {
    pub output: String,
    pub status: bool,
    pub metadata: Vec<(String, String)>,
}

/// What the simulation service handed back, reduced to plain values: the
/// virality score in ten-thousandths (`None` when the reply carried no
/// numeric `virality`), the rendering of its `metrics` entry (`None` when
/// absent), and the full reply as rendered key/value pairs.
pub struct SimReading {
    pub virality_e4: Option<i64>,
    pub metrics_repr: Option<String>,
    pub entries: Vec<(String, String)>,
}

/// The collaborator outcomes one loop step may consume: the generation
/// service's text, the simulation service's reading, and the re-plan
/// service's alternative plan. Each is `None` when the call failed or its
/// reply could not be read; a step only looks at the fields its subtask
/// actually routes to.
pub struct StepReply {
    pub generated: Option<String>,
    pub simulated: Option<SimReading>,
    pub replanned: Option<String>,
}

} // verus!
