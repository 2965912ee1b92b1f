//! A command orchestrator: it decomposes an instruction into subtasks, routes
//! each subtask to a handler, observes the outcome, and runs a bounded
//! self-correction cycle when a subtask fails. Per-conversation state lives in
//! a context store keyed by an opaque identifier.
//!
//! External collaborator services (decomposition, generation, simulation,
//! memory) are reached through narrow interfaces: every decision the
//! orchestrator makes is a verified function from plain values (the command,
//! the subtask text, the service outcome) to plain values, so the control
//! logic is proved for every possible service behaviour.

pub mod codec;
pub mod debugger;
pub mod dispatch;
pub mod model;
pub mod orchestrator;
pub mod planner;
pub mod store;
pub mod text;
