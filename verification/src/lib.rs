//! The flow execution state machine of a workflow orchestrator: given a
//! persisted flow job, decide the next unit of work to enqueue, record each
//! step's state in the job's `flow_status`, and reconcile each finished
//! child — retries, iteration and branch advancement, failure-module
//! fallback, suspension on external approvals, early stops, and upward
//! propagation into an enclosing flow.
//!
//! The crate holds the decisions; the shell around it performs the outside
//! work (the queue, the database row, the expression evaluator, the script
//! runner) and hands plain values back.

pub mod error;
pub mod flow;
pub mod json;
pub mod laws;
pub mod paths;
pub mod planner;
pub mod reconciler;
pub mod resources;
pub mod retry;
pub mod status;
pub mod time;
pub mod transforms;
