//! A small workflow engine: named steps that run one after another, each
//! asking for the next step by name or declaring the run complete.
//!
//! The crate holds the parts of the engine that decide: identifiers, the
//! per-run context store, retry policies, the step registry and its builder,
//! and the state machine that turns step outcomes into the next thing to do.
//! Running the asynchronous steps themselves is left to the caller, who feeds
//! each outcome back into [`Run`].

mod context;
mod error;
mod names;
mod retry;
mod run;
mod step;
mod table;
mod value;
mod workflow;

pub use context::{deref_opt, fresh_context_reads_nothing, stored, stored_reads_back, Context};
pub use error::{ErrorView, HookType, WorkflowError};
pub use names::{ContextKey, StepName};
pub use retry::{backoff_delay_is_monotone, fixed_delay_is_constant, RetryPolicy, RetryPolicyError};
pub use run::{
    after_attempt, after_backoff, after_failure_hook, after_success_hook, completing_step_completes_run,
    dangling_continue_fails_run, enter, failing_success_hook_fails_run, finished_run_is_final,
    timeout_without_retry_fails_run, transitions_stay_within_bounds, within_bounds, AttemptOutcome,
    Run, RunView,
};
pub use step::{StepConfig, StepOutput, DEFAULT_TIMEOUT_MS};
pub use value::{Storable, Value, ValueKind};
pub use workflow::{StepEntry, Workflow, WorkflowBuilder};
