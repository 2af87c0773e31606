use std::cell::Cell;
use tsumugi::{
    AttemptOutcome, Context, HookType, RetryPolicy, Run, StepConfig, StepName, StepOutput,
    Workflow, WorkflowBuilder, WorkflowError,
};

/// What a scripted step does on one attempt.
#[derive(Clone, Copy)]
enum Act {
    /// Store `key = "true"` and continue with the named step, or complete.
    Succeed(&'static str, Option<&'static str>),
    /// Fail with this detail text.
    Fail(&'static str),
    /// Run past the time bound.
    Hang,
}

/// A step whose attempts follow a script; the last act repeats.
struct Scripted {
    label: &'static str,
    script: Vec<Act>,
    calls: Cell<u32>,
    success_hook_fails: bool,
    failure_hook_fails: bool,
}

impl Scripted {
    fn new(label: &'static str, script: Vec<Act>) -> Scripted {
        Scripted {
            label,
            script,
            calls: Cell::new(0),
            success_hook_fails: false,
            failure_hook_fails: false,
        }
    }

    fn perform(&self, ctx: &mut Context) -> AttemptOutcome {
        let n = self.calls.get();
        self.calls.set(n + 1);
        let i = (n as usize).min(self.script.len() - 1);
        match self.script[i] {
            Act::Succeed(key, next) => {
                ctx.insert(key, "true".to_string());
                match next {
                    Some(name) => AttemptOutcome::Succeeded(StepOutput::next(name)),
                    None => AttemptOutcome::Succeeded(StepOutput::done()),
                }
            }
            Act::Fail(details) => AttemptOutcome::Failed(WorkflowError::StepError {
                step_name: StepName::new(self.label),
                details: details.to_string(),
            }),
            Act::Hang => AttemptOutcome::TimedOut,
        }
    }

    fn hook(&self, fails: bool, what: &str) -> Result<(), WorkflowError> {
        if fails {
            Err(WorkflowError::StepError {
                step_name: StepName::new(self.label),
                details: what.to_string(),
            })
        } else {
            Ok(())
        }
    }
}

/// Drives a run to its end, as an executor would, recording every wait.
fn drive(wf: &Workflow<Scripted>, ctx: &mut Context) -> (Result<(), Vec<WorkflowError>>, Vec<Option<u64>>) {
    let mut waits = Vec::new();
    let mut run = Run::start(wf);
    loop {
        run = match &run {
            Run::Attempt { step, .. } => {
                let entry = wf.entry(step.as_str()).expect("registered");
                let outcome = entry.step.perform(ctx);
                run.attempt_finished(wf, StepName::new(entry.step.label), outcome)
            }
            Run::Backoff { delay_ms, .. } => {
                waits.push(*delay_ms);
                run.backoff_elapsed()
            }
            Run::SuccessHook { step, .. } => {
                let entry = wf.entry(step.as_str()).expect("registered");
                let result = entry.step.hook(entry.step.success_hook_fails, "success hook");
                run.success_hook_finished(wf, result)
            }
            Run::FailureHook { step, .. } => {
                let entry = wf.entry(step.as_str()).expect("registered");
                let result = entry.step.hook(entry.step.failure_hook_fails, "failure hook");
                run.failure_hook_finished(result)
            }
            Run::Done => return (Ok(()), waits),
            Run::Failed(_) => match run {
                Run::Failed(errors) => return (Err(errors), waits),
                _ => unreachable!(),
            },
        };
    }
}

#[test]
fn test_workflow_introspection() {
    let workflow = Workflow::builder()
        .add_step("SuccessStep", Scripted::new("SuccessStep", vec![Act::Succeed("success", None)]))
        .add_step("FailureStep", Scripted::new("FailureStep", vec![Act::Fail("Intentional failure")]))
        .start_with("SuccessStep")
        .build()
        .unwrap();

    assert_eq!(workflow.start_step().as_str(), "SuccessStep");
    assert_eq!(workflow.step_count(), 2);
    assert!(workflow.has_step("SuccessStep"));
    assert!(workflow.has_step("FailureStep"));
    assert!(!workflow.has_step("NonExistentStep"));

    let all = workflow.step_names();
    let names: Vec<&str> = all.iter().map(|n| n.as_str()).collect();
    assert_eq!(names.len(), 2);
    assert!(names.contains(&"SuccessStep"));
    assert!(names.contains(&"FailureStep"));
}

#[test]
fn workflow_test_workflow_success() {
    let workflow = Workflow::builder()
        .add_step("success", Scripted::new("SuccessStep", vec![Act::Succeed("success", None)]))
        .start_with("success")
        .build()
        .expect("valid workflow");

    let mut ctx = Context::new();
    let (result, _) = drive(&workflow, &mut ctx);
    assert!(result.is_ok());
    assert_eq!(ctx.get::<String>("success").map(|s| s.as_str()), Some("true"));
}

#[test]
fn workflow_test_workflow_failure() {
    let workflow = Workflow::builder()
        .add_step("failure", Scripted::new("FailureStep", vec![Act::Fail("Intentional failure")]))
        .start_with("failure")
        .build()
        .expect("valid workflow");

    let mut ctx = Context::new();
    let (result, _) = drive(&workflow, &mut ctx);
    assert!(result.is_err());
    let errors = result.unwrap_err();
    assert_eq!(errors.len(), 1);
    match &errors[0] {
        WorkflowError::StepError { step_name, details } => {
            assert_eq!(step_name.as_str(), "FailureStep");
            assert_eq!(details, "Intentional failure");
        }
        _ => panic!("Unexpected error type"),
    }
}

#[test]
fn workflow_test_workflow_builder_validation() {
    let result = Workflow::builder()
        .add_step("step", Scripted::new("SuccessStep", vec![Act::Succeed("success", None)]))
        .build();
    assert!(result.is_err());
    match result.err().unwrap() {
        WorkflowError::Configuration(msg) => {
            assert_eq!(msg, "Start step must be specified");
        }
        _ => panic!("Unexpected error type"),
    }
}

#[test]
fn build_with_unregistered_start_fails_with_step_not_found() {
    let result = WorkflowBuilder::new()
        .add_step("a", Scripted::new("A", vec![Act::Succeed("a", None)]))
        .start_with("b")
        .build();
    match result.err().unwrap() {
        WorkflowError::StepNotFound(name) => assert_eq!(name.as_str(), "b"),
        _ => panic!("Unexpected error type"),
    }
}

#[test]
fn build_of_empty_builder_needs_a_start() {
    let result = WorkflowBuilder::<Scripted>::default().build();
    assert!(matches!(result.err().unwrap(), WorkflowError::Configuration(_)));
    let result = WorkflowBuilder::<Scripted>::new().start_with("x").build();
    assert!(matches!(result.err().unwrap(), WorkflowError::StepNotFound(_)));
}

#[test]
fn later_registration_replaces_earlier() {
    let workflow = Workflow::builder()
        .add_step("s", Scripted::new("First", vec![Act::Fail("first")]))
        .add_retryable("s", Scripted::new("Second", vec![Act::Succeed("second", None)]), RetryPolicy::fixed(2, 5))
        .start_with("s")
        .build()
        .unwrap();
    assert_eq!(workflow.step_count(), 1);
    let entry = workflow.entry("s").unwrap();
    assert_eq!(entry.step.label, "Second");
    assert_eq!(entry.retry_policy, RetryPolicy::fixed(2, 5));
    assert_eq!(entry.timeout_ms, 30_000);
}

#[test]
fn registration_variants_record_their_configuration() {
    let workflow = Workflow::builder()
        .add_with_timeout("t", Scripted::new("T", vec![Act::Hang]), 50)
        .add_configured(
            "c",
            Scripted::new("C", vec![Act::Hang]),
            StepConfig { timeout_ms: None, retry_policy: RetryPolicy::exponential(4, 10) },
        )
        .add_configured(
            "d",
            Scripted::new("D", vec![Act::Hang]),
            StepConfig { timeout_ms: Some(75), retry_policy: RetryPolicy::NoRetry },
        )
        .start_with("t")
        .build()
        .unwrap();
    let t = workflow.entry("t").unwrap();
    assert_eq!((t.timeout_ms, t.retry_policy), (50, RetryPolicy::NoRetry));
    let c = workflow.entry("c").unwrap();
    assert_eq!((c.timeout_ms, c.retry_policy), (30_000, RetryPolicy::exponential(4, 10)));
    let d = workflow.entry("d").unwrap();
    assert_eq!(d.timeout_ms, 75);
    assert!(workflow.entry("missing").is_none());
}

#[test]
fn integration_test_test_complete_workflow() {
    let workflow = Workflow::builder()
        .add_step("step1", Scripted::new("Step1", vec![Act::Succeed("step1", Some("step2"))]))
        .add_step("step2", Scripted::new("Step2", vec![Act::Succeed("step2", None)]))
        .start_with("step1")
        .build()
        .expect("valid workflow");

    let mut ctx = Context::new();
    let (result, _) = drive(&workflow, &mut ctx);

    assert!(result.is_ok());
    assert_eq!(ctx.get::<String>("step1").map(|s| s.as_str()), Some("true"));
    assert_eq!(ctx.get::<String>("step2").map(|s| s.as_str()), Some("true"));
}

#[test]
fn integration_test_test_step_not_found_error() {
    let workflow = Workflow::builder()
        .add_step("start", Scripted::new("StepWithInvalidNext", vec![Act::Succeed("start", Some("nonexistent_step"))]))
        .start_with("start")
        .build()
        .expect("valid workflow");

    let mut ctx = Context::new();
    let (result, _) = drive(&workflow, &mut ctx);

    assert!(result.is_err());
    let errors = result.unwrap_err();
    assert_eq!(errors.len(), 1);
    assert!(
        matches!(&errors[0], WorkflowError::StepNotFound(name) if name.as_str() == "nonexistent_step")
    );
    assert_eq!(workflow.entry("start").unwrap().step.calls.get(), 1);
}

#[test]
fn integration_test_test_timeout_error() {
    let workflow = Workflow::builder()
        .add_with_timeout("slow", Scripted::new("SlowStep", vec![Act::Hang]), 50)
        .start_with("slow")
        .build()
        .expect("valid workflow");

    let mut ctx = Context::new();
    let (result, waits) = drive(&workflow, &mut ctx);

    assert!(result.is_err());
    let errors = result.unwrap_err();
    assert_eq!(errors.len(), 1);
    assert!(
        matches!(&errors[0], WorkflowError::Timeout { step_name } if step_name.as_str() == "SlowStep")
    );
    assert_eq!(workflow.entry("slow").unwrap().step.calls.get(), 1);
    assert!(waits.is_empty());
}

#[test]
fn test_hook_error_propagation() {
    let mut step = Scripted::new("StepWithFailingHook", vec![Act::Succeed("executed", None)]);
    step.success_hook_fails = true;
    let workflow = Workflow::builder()
        .add_step("hook_test", step)
        .start_with("hook_test")
        .build()
        .unwrap();

    let mut ctx = Context::new();
    let (result, _) = drive(&workflow, &mut ctx);

    assert!(result.is_err());
    let errors = result.unwrap_err();
    assert_eq!(errors.len(), 1);
    assert!(matches!(
        &errors[0],
        WorkflowError::HookError {
            hook_type: HookType::OnSuccess,
            ..
        }
    ));
    match &errors[0] {
        WorkflowError::HookError { step_name, details, .. } => {
            assert_eq!(step_name.as_str(), "StepWithFailingHook");
            assert_eq!(details, "Step failed: StepWithFailingHook, details: success hook");
        }
        _ => panic!("Unexpected error type"),
    }
    assert_eq!(ctx.get::<String>("executed").map(|s| s.as_str()), Some("true"));
}

#[test]
fn integration_test_test_retry_eventual_success() {
    let step = Scripted::new(
        "RetryableStep",
        vec![Act::Fail("Attempt 1 failed"), Act::Fail("Attempt 2 failed"), Act::Succeed("success", None)],
    );
    let workflow = Workflow::builder()
        .add_retryable("retry", step, RetryPolicy::fixed(3, 10))
        .start_with("retry")
        .build()
        .expect("valid workflow");

    let mut ctx = Context::new();
    let (result, waits) = drive(&workflow, &mut ctx);

    assert!(result.is_ok());
    assert_eq!(workflow.entry("retry").unwrap().step.calls.get(), 3);
    assert_eq!(waits, vec![Some(10), Some(10)]);
    assert_eq!(ctx.get::<String>("success").map(|s| s.as_str()), Some("true"));
}

#[test]
fn integration_test_test_retry_exhausted() {
    let step = Scripted::new("RetryableStep", vec![Act::Fail("always")]);
    let workflow = Workflow::builder()
        .add_retryable("retry", step, RetryPolicy::fixed(3, 10))
        .start_with("retry")
        .build()
        .expect("valid workflow");

    let mut ctx = Context::new();
    let (result, waits) = drive(&workflow, &mut ctx);

    assert!(result.is_err());
    // 1 initial + 3 retries = 4 total attempts
    assert_eq!(workflow.entry("retry").unwrap().step.calls.get(), 4);
    assert_eq!(waits.len(), 3);
    assert_eq!(result.unwrap_err().len(), 1);
}

#[test]
fn test_workflow_retry_success() {
    let step = Scripted::new(
        "RetryableStep",
        vec![Act::Fail("Intentional failure (attempt 1)"), Act::Fail("Intentional failure (attempt 2)"), Act::Succeed("result", None)],
    );
    let workflow = Workflow::builder()
        .add_configured(
            "RetryableStep",
            step,
            StepConfig { timeout_ms: Some(30_000), retry_policy: RetryPolicy::fixed(3, 10) },
        )
        .start_with("RetryableStep")
        .build()
        .unwrap();

    let mut ctx = Context::new();
    let (result, _) = drive(&workflow, &mut ctx);
    assert!(result.is_ok());
    assert_eq!(workflow.entry("RetryableStep").unwrap().step.calls.get(), 3);
}

#[test]
fn test_workflow_retry_exhausted() {
    let step = Scripted::new("RetryableStep", vec![Act::Fail("Intentional failure")]);
    let workflow = Workflow::builder()
        .add_configured(
            "RetryableStep",
            step,
            StepConfig { timeout_ms: Some(30_000), retry_policy: RetryPolicy::fixed(3, 10) },
        )
        .start_with("RetryableStep")
        .build()
        .unwrap();

    let mut ctx = Context::new();
    let (result, _) = drive(&workflow, &mut ctx);
    assert!(result.is_err());
    assert_eq!(workflow.entry("RetryableStep").unwrap().step.calls.get(), 4);
}

#[test]
fn test_heterogeneous_context() {
    let mut ctx = Context::new();
    ctx.insert("int_val", 42i32);
    ctx.insert("str_val", "hello".to_string());
    ctx.insert("bool_val", true);

    assert_eq!(ctx.get::<i32>("int_val"), Some(&42));
    assert_eq!(ctx.get::<String>("str_val"), Some(&"hello".to_string()));
    assert_eq!(ctx.get::<bool>("bool_val"), Some(&true));
    assert_eq!(ctx.get::<String>("int_val"), None);
}

#[test]
fn failure_hook_error_comes_first() {
    let mut step = Scripted::new("Flaky", vec![Act::Fail("boom")]);
    step.failure_hook_fails = true;
    let workflow = Workflow::builder()
        .add_step("flaky", step)
        .start_with("flaky")
        .build()
        .unwrap();
    let mut ctx = Context::new();
    let (result, _) = drive(&workflow, &mut ctx);
    let errors = result.unwrap_err();
    assert_eq!(errors.len(), 2);
    assert!(matches!(&errors[0], WorkflowError::HookError { hook_type: HookType::OnFailure, .. }));
    assert!(matches!(&errors[1], WorkflowError::StepError { details, .. } if details == "boom"));
}

#[test]
fn timeouts_are_retried_then_fail_with_timeout() {
    let step = Scripted::new("Slow", vec![Act::Hang]);
    let policy = RetryPolicy::exponential_backoff(2, 100, 150, 2).unwrap();
    let workflow = Workflow::builder()
        .add_retryable("slow", step, policy)
        .start_with("slow")
        .build()
        .unwrap();
    let mut ctx = Context::new();
    let (result, waits) = drive(&workflow, &mut ctx);
    assert_eq!(waits, vec![Some(100), Some(150)]);
    let errors = result.unwrap_err();
    assert_eq!(errors.len(), 1);
    assert!(matches!(&errors[0], WorkflowError::Timeout { step_name } if step_name.as_str() == "Slow"));
    assert_eq!(workflow.entry("slow").unwrap().step.calls.get(), 3);
}

#[test]
fn timeout_then_success_runs_on() {
    let step = Scripted::new("Once", vec![Act::Hang, Act::Succeed("late", Some("next"))]);
    let workflow = Workflow::builder()
        .add_retryable("first", step, RetryPolicy::fixed(1, 0))
        .add_step("next", Scripted::new("Next", vec![Act::Succeed("next", None)]))
        .start_with("first")
        .build()
        .unwrap();
    let mut ctx = Context::new();
    let (result, _) = drive(&workflow, &mut ctx);
    assert!(result.is_ok());
    assert!(ctx.contains_key("late"));
    assert!(ctx.contains_key("next"));
}

#[test]
fn failure_stops_the_run_before_later_steps() {
    let workflow = Workflow::builder()
        .add_step("a", Scripted::new("A", vec![Act::Succeed("a", Some("b"))]))
        .add_step("b", Scripted::new("B", vec![Act::Fail("no")]))
        .add_step("c", Scripted::new("C", vec![Act::Succeed("c", None)]))
        .start_with("a")
        .build()
        .unwrap();
    let mut ctx = Context::new();
    let (result, _) = drive(&workflow, &mut ctx);
    assert!(result.is_err());
    assert_eq!(workflow.entry("c").unwrap().step.calls.get(), 0);
}

#[test]
fn finished_run_ignores_reports() {
    let workflow = Workflow::builder()
        .add_step("a", Scripted::new("A", vec![Act::Succeed("a", None)]))
        .start_with("a")
        .build()
        .unwrap();
    let run = Run::Done;
    let run = run.attempt_finished(&workflow, StepName::new("A"), AttemptOutcome::TimedOut);
    let run = run.backoff_elapsed();
    let run = run.success_hook_finished(&workflow, Ok(()));
    let run = run.failure_hook_finished(Ok(()));
    assert!(run.is_finished());
    assert!(matches!(run, Run::Done));
}

#[test]
fn start_is_first_attempt_of_start_step() {
    let workflow = Workflow::builder()
        .add_step("a", Scripted::new("A", vec![Act::Succeed("a", None)]))
        .start_with("a")
        .build()
        .unwrap();
    match Run::start(&workflow) {
        Run::Attempt { step, attempt } => {
            assert_eq!(step.as_str(), "a");
            assert_eq!(attempt, 0);
        }
        _ => panic!("Unexpected state"),
    }
}
