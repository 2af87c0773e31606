use tsumugi::{ContextKey, HookType, StepName, StepOutput, WorkflowError};

#[test]
fn step_test_step_name() {
    let name = StepName::new("test");
    assert_eq!(name.as_str(), "test");

    let name = StepName::new("test");
    assert_eq!(name.as_str(), "test");

    // A step named after its type keeps the last path segment.
    let name = StepName::from_path("tsumugi::step::tests::TestStep");
    assert_eq!(name, StepName::new("TestStep"));
}

#[test]
fn test_step_output() {
    let output = StepOutput::next("next_step");
    assert_eq!(output, StepOutput::Continue(StepName::new("next_step")));

    let output = StepOutput::done();
    assert_eq!(output, StepOutput::Complete);
}

#[test]
fn error_test_error_display() {
    let error = WorkflowError::StepError {
        step_name: StepName::new("test_step"),
        details: "test error".to_string(),
    };
    assert_eq!(
        error.to_string(),
        "Step failed: test_step, details: test error"
    );

    let timeout_error = WorkflowError::Timeout {
        step_name: StepName::new("test_step"),
    };
    assert_eq!(
        timeout_error.to_string(),
        "Timeout occurred in step: test_step"
    );
}

#[test]
fn test_hook_error_display() {
    let error = WorkflowError::HookError {
        step_name: StepName::new("test_step"),
        hook_type: HookType::OnSuccess,
        details: "hook failed".to_string(),
    };
    assert_eq!(
        error.to_string(),
        "Hook 'on_success' failed in step 'test_step': hook failed"
    );

    let error = WorkflowError::HookError {
        step_name: StepName::new("test_step"),
        hook_type: HookType::OnFailure,
        details: "cleanup failed".to_string(),
    };
    assert_eq!(
        error.to_string(),
        "Hook 'on_failure' failed in step 'test_step': cleanup failed"
    );
}

#[test]
fn error_test_hook_type_display() {
    assert_eq!(HookType::OnSuccess.to_string(), "on_success");
    assert_eq!(HookType::OnFailure.to_string(), "on_failure");
}

#[test]
fn other_error_messages() {
    let error = WorkflowError::StepNotFound(StepName::new("ghost"));
    assert_eq!(error.to_string(), "Step not found: ghost");
    let error = WorkflowError::Configuration("bad".to_string());
    assert_eq!(error.to_string(), "Invalid workflow configuration: bad");
}

#[test]
fn names_compare_by_content() {
    assert_eq!(StepName::new("a"), StepName::new("a"));
    assert_ne!(StepName::new("a"), StepName::new("b"));
    assert_eq!(ContextKey::new("k").as_str(), "k");
    assert_ne!(ContextKey::new("k"), ContextKey::new("K"));
    assert_eq!(StepName::new("x").duplicate(), StepName::new("x"));
}

#[test]
fn path_segments() {
    assert_eq!(StepName::from_path("plain").as_str(), "plain");
    assert_eq!(StepName::from_path("a::b::c").as_str(), "c");
    assert_eq!(StepName::from_path("").as_str(), "");
    assert_eq!(StepName::from_path("a::").as_str(), "");
    assert_eq!(StepName::from_path("a:b").as_str(), "a:b");
    // split from the left: "a" then ":b"
    assert_eq!(StepName::from_path("a:::b").as_str(), ":b");
    assert_eq!(StepName::from_path("crate::Wrap<crate::Inner>").as_str(), "Inner>");
}
