use crate::names::StepName;
use crate::retry::RetryPolicy;
use vstd::prelude::*;

verus! {

/// The time bound of a step when none is configured: thirty seconds.
pub const DEFAULT_TIMEOUT_MS: u64 = 30_000;

/// What a successful step asks for next.
#[derive(Debug, Clone, PartialEq, Eq)]
pub enum StepOutput {
    /// Go on with the step registered under this name.
    Continue(StepName),
    /// The run is complete.
    Complete,
}

impl StepOutput {
    /// The name of the step asked for, or `None` when the run is complete.
    pub open spec fn next_name(self) -> Option<Seq<char>> {
        match self {
            StepOutput::Continue(name) => Some(name@),
            StepOutput::Complete => None,
        }
    }

    pub fn next(name: &str) -> (r: Self)
        ensures
            r matches StepOutput::Continue(n) && n@ == name@,
    {
        StepOutput::Continue(StepName::new(name))
    }

    pub fn done() -> (r: Self)
        ensures
            r == StepOutput::Complete,
    {
        StepOutput::Complete
    }
}

/// How a step is run: its time bound in milliseconds (`None` for the default)
/// and its retry policy.
#[derive(Debug, Clone, Copy, PartialEq, Eq, Structural)]
pub struct StepConfig {
    pub timeout_ms: Option<u64>,
    pub retry_policy: RetryPolicy,
}

impl StepConfig {
    /// The time bound this configuration gives a step.
    pub open spec fn spec_timeout_ms(self) -> u64 {
        match self.timeout_ms {
            Some(t) => t,
            None => DEFAULT_TIMEOUT_MS,
        }
    }
}

impl Default for StepConfig {
    /// Thirty seconds and no retry.
    fn default() -> (r: Self)
        ensures
            r == (StepConfig { timeout_ms: Some(DEFAULT_TIMEOUT_MS), retry_policy: RetryPolicy::NoRetry }),
    {
        StepConfig { timeout_ms: Some(DEFAULT_TIMEOUT_MS), retry_policy: RetryPolicy::NoRetry }
    }
}

impl Default for RetryPolicy {
    /// No retry.
    fn default() -> (r: Self)
        ensures
            r == RetryPolicy::NoRetry,
    {
        RetryPolicy::NoRetry
    }
}

} // verus!
