use crate::error::{ErrorView, HookType, WorkflowError};
use crate::names::StepName;
use crate::step::StepOutput;
use crate::workflow::Workflow;
use vstd::prelude::*;

verus! {

/// Where a run stands, and so what its driver must do next.
///
/// A driver starts with [`Run::start`], performs what the current state asks
/// for, and reports the result through the matching method, until the run is
/// `Done` or `Failed`. Steps run one at a time; a failure that is not retried
/// ends the run, and no later step is attempted.
#[derive(Debug)]
pub enum Run {
    /// Execute attempt `attempt` (counted from 0) of the step registered under
    /// `step`, bounded by its time limit; report with [`Run::attempt_finished`].
    Attempt { step: StepName, attempt: u32 },
    /// Wait `delay_ms` milliseconds (when given), then call
    /// [`Run::backoff_elapsed`]; attempt `attempt` follows.
    Backoff { step: StepName, attempt: u32, delay_ms: Option<u64> },
    /// Call the success hook of the step; report with
    /// [`Run::success_hook_finished`]. `label` is the name the step gave for
    /// itself, `output` what it returned.
    SuccessHook { step: StepName, label: StepName, output: StepOutput },
    /// Call the failure hook of the step; report with
    /// [`Run::failure_hook_finished`]. `error` is the failure that ends the step.
    FailureHook { step: StepName, label: StepName, error: WorkflowError },
    /// The run completed.
    Done,
    /// The run stopped; the errors in order.
    Failed(Vec<WorkflowError>),
}

/// How one attempt at a step ended.
#[derive(Debug)]
pub enum AttemptOutcome {
    /// The step returned in time with this output.
    Succeeded(StepOutput),
    /// The step returned in time with this error.
    Failed(WorkflowError),
    /// The time bound ran out first.
    TimedOut,
}

/// A [`Run`] with its names and errors read as plain values.
pub enum RunView {
    Attempt { step: Seq<char>, attempt: nat },
    Backoff { step: Seq<char>, attempt: nat, delay_ms: Option<u64> },
    SuccessHook { step: Seq<char>, label: Seq<char>, next: Option<Seq<char>> },
    FailureHook { step: Seq<char>, label: Seq<char>, error: ErrorView },
    Done,
    Failed(Seq<ErrorView>),
}

impl View for Run {
    type V = RunView;

    open spec fn view(&self) -> RunView {
        match self {
            Run::Attempt { step, attempt } => RunView::Attempt { step: step@, attempt: *attempt as nat },
            Run::Backoff { step, attempt, delay_ms } => RunView::Backoff {
                step: step@,
                attempt: *attempt as nat,
                delay_ms: *delay_ms,
            },
            Run::SuccessHook { step, label, output } => RunView::SuccessHook {
                step: step@,
                label: label@,
                next: output.next_name(),
            },
            Run::FailureHook { step, label, error } => RunView::FailureHook {
                step: step@,
                label: label@,
                error: error@,
            },
            Run::Done => RunView::Done,
            Run::Failed(errors) => RunView::Failed(errors@.map_values(|e: WorkflowError| e@)),
        }
    }
}

impl RunView {
    pub open spec fn is_finished(self) -> bool {
        self is Done || self is Failed
    }
}

/// The state a run reaches when the step named `name` is asked for: its first
/// attempt if a step is registered under the name, else a failed run with a
/// single `StepNotFound`.
pub open spec fn enter<S>(wf: Workflow<S>, name: Seq<char>) -> RunView {
    if wf.steps().contains_key(name) {
        RunView::Attempt { step: name, attempt: 0 }
    } else {
        RunView::Failed(seq![ErrorView::StepNotFound(name)])
    }
}

/// The state after an attempt ended with `outcome`; `label` is the name the
/// step gives for itself. A success goes to the success hook. A failure or
/// timeout is retried while the step's policy allows, after the policy's
/// delay; otherwise it goes to the failure hook.
pub open spec fn after_attempt<S>(
    wf: Workflow<S>,
    run: RunView,
    label: Seq<char>,
    outcome: AttemptOutcome,
) -> RunView {
    match run {
        RunView::Attempt { step, attempt } => {
            if !wf.steps().contains_key(step) {
                RunView::Failed(seq![ErrorView::StepNotFound(step)])
            } else {
                let policy = wf.steps()[step].retry_policy;
                match outcome {
                    AttemptOutcome::Succeeded(output) => RunView::SuccessHook {
                        step,
                        label,
                        next: output.next_name(),
                    },
                    _ => {
                        let error = match outcome {
                            AttemptOutcome::Failed(e) => e@,
                            _ => ErrorView::Timeout { step_name: label },
                        };
                        if attempt < policy.spec_max_retries() {
                            RunView::Backoff {
                                step,
                                attempt: attempt + 1,
                                delay_ms: policy.spec_delay_for_attempt(attempt),
                            }
                        } else {
                            RunView::FailureHook { step, label, error }
                        }
                    },
                }
            }
        },
        _ => run,
    }
}

/// The state after the wait before a retry.
pub open spec fn after_backoff(run: RunView) -> RunView {
    match run {
        RunView::Backoff { step, attempt, .. } => RunView::Attempt { step, attempt },
        _ => run,
    }
}

/// The state after the success hook returned `result`. A failing hook fails
/// the run even though the step itself succeeded.
pub open spec fn after_success_hook<S>(
    wf: Workflow<S>,
    run: RunView,
    result: Result<(), WorkflowError>,
) -> RunView {
    match run {
        RunView::SuccessHook { label, next, .. } => match result {
            Err(e) => RunView::Failed(
                seq![
                    ErrorView::HookError {
                        step_name: label,
                        hook_type: HookType::OnSuccess,
                        details: e@.message(),
                    },
                ],
            ),
            Ok(_) => match next {
                None => RunView::Done,
                Some(name) => enter(wf, name),
            },
        },
        _ => run,
    }
}

/// The state after the failure hook returned `result`: the run fails with the
/// hook's own error, if any, ahead of the step's error.
pub open spec fn after_failure_hook(run: RunView, result: Result<(), WorkflowError>) -> RunView {
    match run {
        RunView::FailureHook { label, error, .. } => match result {
            Err(e) => RunView::Failed(
                seq![
                    ErrorView::HookError {
                        step_name: label,
                        hook_type: HookType::OnFailure,
                        details: e@.message(),
                    },
                    error,
                ],
            ),
            Ok(_) => RunView::Failed(seq![error]),
        },
        _ => run,
    }
}

/// Holds of every state a run of `wf` passes through: the step at hand is
/// registered, an attempt index never exceeds the step's retry bound, and a
/// pending retry is one that the bound allows.
pub open spec fn within_bounds<S>(wf: Workflow<S>, run: RunView) -> bool {
    match run {
        RunView::Attempt { step, attempt } => wf.steps().contains_key(step) && attempt
            <= wf.steps()[step].retry_policy.spec_max_retries(),
        RunView::Backoff { step, attempt, .. } => wf.steps().contains_key(step) && 1 <= attempt
            <= wf.steps()[step].retry_policy.spec_max_retries(),
        RunView::SuccessHook { step, .. } => wf.steps().contains_key(step),
        RunView::FailureHook { step, .. } => wf.steps().contains_key(step),
        _ => true,
    }
}

/// Every transition keeps a run within bounds, so a step is attempted at most
/// `max_retries + 1` times and a run never stays on an unregistered name.
pub proof fn transitions_stay_within_bounds<S>(
    wf: Workflow<S>,
    run: RunView,
    name: Seq<char>,
    label: Seq<char>,
    outcome: AttemptOutcome,
    result: Result<(), WorkflowError>,
)
    requires
        within_bounds(wf, run),
    ensures
        within_bounds(wf, enter(wf, name)),
        within_bounds(wf, after_attempt(wf, run, label, outcome)),
        within_bounds(wf, after_backoff(run)),
        within_bounds(wf, after_success_hook(wf, run, result)),
        within_bounds(wf, after_failure_hook(run, result)),
{
}

/// A finished run stays as it is, whatever is reported to it: after a run
/// has failed or completed, no step is attempted.
pub proof fn finished_run_is_final<S>(
    wf: Workflow<S>,
    run: RunView,
    label: Seq<char>,
    outcome: AttemptOutcome,
    result: Result<(), WorkflowError>,
)
    requires
        run.is_finished(),
    ensures
        after_attempt(wf, run, label, outcome) == run,
        after_backoff(run) == run,
        after_success_hook(wf, run, result) == run,
        after_failure_hook(run, result) == run,
{
}

/// A step that returns `Complete` and whose success hook passes ends the run
/// with success.
pub proof fn completing_step_completes_run<S>(
    wf: Workflow<S>,
    step: Seq<char>,
    attempt: nat,
    label: Seq<char>,
)
    requires
        wf.steps().contains_key(step),
    ensures
        after_success_hook(
            wf,
            after_attempt(
                wf,
                RunView::Attempt { step, attempt },
                label,
                AttemptOutcome::Succeeded(StepOutput::Complete),
            ),
            Ok(()),
        ) == RunView::Done,
{
}

/// A step that asks to continue with a name under which nothing is
/// registered ends the run with exactly one error, `StepNotFound` of that
/// name; the run is then finished.
pub proof fn dangling_continue_fails_run<S>(
    wf: Workflow<S>,
    step: Seq<char>,
    attempt: nat,
    label: Seq<char>,
    next: StepName,
)
    requires
        wf.steps().contains_key(step),
        !wf.steps().contains_key(next@),
    ensures
        after_success_hook(
            wf,
            after_attempt(
                wf,
                RunView::Attempt { step, attempt },
                label,
                AttemptOutcome::Succeeded(StepOutput::Continue(next)),
            ),
            Ok(()),
        ) == RunView::Failed(seq![ErrorView::StepNotFound(next@)]),
        RunView::Failed(seq![ErrorView::StepNotFound(next@)]).is_finished(),
{
}

/// A step without retries whose only attempt runs out of time ends the run
/// with exactly one error, a `Timeout` naming the step, when its failure
/// hook passes.
pub proof fn timeout_without_retry_fails_run<S>(wf: Workflow<S>, step: Seq<char>, label: Seq<char>)
    requires
        wf.steps().contains_key(step),
        wf.steps()[step].retry_policy == crate::retry::RetryPolicy::NoRetry,
    ensures
        after_failure_hook(
            after_attempt(
                wf,
                RunView::Attempt { step, attempt: 0 },
                label,
                AttemptOutcome::TimedOut,
            ),
            Ok(()),
        ) == RunView::Failed(seq![ErrorView::Timeout { step_name: label }]),
{
}

/// A step that succeeds but whose success hook fails ends the run with a
/// single `HookError` for the success hook.
pub proof fn failing_success_hook_fails_run<S>(
    wf: Workflow<S>,
    step: Seq<char>,
    attempt: nat,
    label: Seq<char>,
    output: StepOutput,
    hook_error: WorkflowError,
)
    requires
        wf.steps().contains_key(step),
    ensures
        after_success_hook(
            wf,
            after_attempt(
                wf,
                RunView::Attempt { step, attempt },
                label,
                AttemptOutcome::Succeeded(output),
            ),
            Err(hook_error),
        ) == RunView::Failed(
            seq![
                ErrorView::HookError {
                    step_name: label,
                    hook_type: HookType::OnSuccess,
                    details: hook_error@.message(),
                },
            ],
        ),
{
}

impl Run {
    fn enter<S>(wf: &Workflow<S>, name: StepName) -> (r: Run)
        requires
            wf.wf(),
        ensures
            r@ == enter(*wf, name@),
    {
        if wf.has_step(name.as_str()) {
            Run::Attempt { step: name, attempt: 0 }
        } else {
            let errors = vec![WorkflowError::StepNotFound(name)];
            proof {
                assert(errors@.map_values(|e: WorkflowError| e@) =~= seq![
                    ErrorView::StepNotFound(name@),
                ]);
            }
            Run::Failed(errors)
        }
    }

    /// A run of `wf`, at the first attempt of its start step.
    pub fn start<S>(wf: &Workflow<S>) -> (r: Run)
        requires
            wf.wf(),
        ensures
            r@ == enter(*wf, wf.start()@),
            r@ == (RunView::Attempt { step: wf.start()@, attempt: 0 }),
    {
        proof {
            wf.lemma_start_registered();
        }
        Run::enter(wf, wf.start_step().duplicate())
    }

    /// Reports how the current attempt ended. `label` is the name the step
    /// gives for itself; errors raised for the step carry it.
    pub fn attempt_finished<S>(self, wf: &Workflow<S>, label: StepName, outcome: AttemptOutcome) -> (r: Run)
        requires
            wf.wf(),
        ensures
            r@ == after_attempt(*wf, self@, label@, outcome),
    {
        match self {
            Run::Attempt { step, attempt } => {
                let entry = match wf.entry(step.as_str()) {
                    Some(e) => e,
                    None => {
                        return Run::enter(wf, step);
                    },
                };
                let max_retries = entry.retry_policy.max_retries();
                match outcome {
                    AttemptOutcome::Succeeded(output) => Run::SuccessHook { step, label, output },
                    AttemptOutcome::Failed(error) => {
                        if attempt < max_retries {
                            let delay_ms = entry.retry_policy.delay_for_attempt(attempt);
                            Run::Backoff { step, attempt: attempt + 1, delay_ms }
                        } else {
                            Run::FailureHook { step, label, error }
                        }
                    },
                    AttemptOutcome::TimedOut => {
                        if attempt < max_retries {
                            let delay_ms = entry.retry_policy.delay_for_attempt(attempt);
                            Run::Backoff { step, attempt: attempt + 1, delay_ms }
                        } else {
                            let error = WorkflowError::Timeout { step_name: label.duplicate() };
                            Run::FailureHook { step, label, error }
                        }
                    },
                }
            },
            other => other,
        }
    }

    /// Reports that the wait before a retry is over.
    pub fn backoff_elapsed(self) -> (r: Run)
        ensures
            r@ == after_backoff(self@),
    {
        match self {
            Run::Backoff { step, attempt, .. } => Run::Attempt { step, attempt },
            other => other,
        }
    }

    /// Reports what the success hook returned.
    pub fn success_hook_finished<S>(self, wf: &Workflow<S>, result: Result<(), WorkflowError>) -> (r: Run)
        requires
            wf.wf(),
        ensures
            r@ == after_success_hook(*wf, self@, result),
    {
        match self {
            Run::SuccessHook { label, output, .. } => match result {
                Err(e) => {
                    let details = e.to_string();
                    let errors = vec![
                        WorkflowError::HookError {
                            step_name: label,
                            hook_type: HookType::OnSuccess,
                            details,
                        },
                    ];
                    proof {
                        assert(errors@.map_values(|e: WorkflowError| e@) =~= seq![
                            errors@[0]@,
                        ]);
                    }
                    Run::Failed(errors)
                },
                Ok(_) => match output {
                    StepOutput::Complete => Run::Done,
                    StepOutput::Continue(next) => Run::enter(wf, next),
                },
            },
            other => other,
        }
    }

    /// Reports what the failure hook returned.
    pub fn failure_hook_finished(self, result: Result<(), WorkflowError>) -> (r: Run)
        ensures
            r@ == after_failure_hook(self@, result),
    {
        match self {
            Run::FailureHook { label, error, .. } => {
                let ghost label_view = label@;
                let ghost error_view = error@;
                let mut errors: Vec<WorkflowError> = Vec::new();
                match &result {
                    Err(e) => {
                        let details = e.to_string();
                        errors.push(
                            WorkflowError::HookError {
                                step_name: label,
                                hook_type: HookType::OnFailure,
                                details,
                            },
                        );
                        proof {
                            assert(errors@.map_values(|e: WorkflowError| e@) =~= seq![
                                errors@[0]@,
                            ]);
                        }
                    },
                    Ok(_) => {
                        proof {
                            assert(errors@.map_values(|e: WorkflowError| e@) =~= Seq::<
                                ErrorView,
                            >::empty());
                        }
                    },
                }
                let ghost before = errors@;
                errors.push(error);
                proof {
                    assert(errors@ == before.push(error));
                    assert(errors@.map_values(|e: WorkflowError| e@) =~= before.map_values(
                        |e: WorkflowError| e@,
                    ).push(error_view));
                    match &result {
                        Err(e) => {
                            assert(errors@.map_values(|e: WorkflowError| e@) =~= seq![
                                ErrorView::HookError {
                                    step_name: label_view,
                                    hook_type: HookType::OnFailure,
                                    details: e@.message(),
                                },
                                error_view,
                            ]);
                        },
                        Ok(_) => {
                            assert(errors@.map_values(|e: WorkflowError| e@) =~= seq![error_view]);
                        },
                    }
                }
                Run::Failed(errors)
            },
            other => other,
        }
    }

    /// Whether the run has ended, well or badly.
    pub fn is_finished(&self) -> (r: bool)
        ensures
            r == self@.is_finished(),
    {
        match self {
            Run::Done => true,
            Run::Failed(_) => true,
            _ => false,
        }
    }
}

} // verus!
