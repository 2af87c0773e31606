use crate::names::StepName;
use vstd::prelude::*;

verus! {

/// Which lifecycle hook of a step failed.
#[derive(Debug, Clone, Copy, PartialEq, Eq, Structural)]
pub enum HookType {
    /// The hook run after a successful execution.
    OnSuccess,
    /// The hook run after the step has failed for good.
    OnFailure,
}

/// Everything that can go wrong while building or running a workflow.
#[derive(Debug, Clone)]
#[non_exhaustive]
pub enum WorkflowError {
    /// A step reported a business failure.
    StepError { step_name: StepName, details: String },
    /// A step ran past its time bound.
    Timeout { step_name: StepName },
    /// A step name that nothing was registered under.
    StepNotFound(StepName),
    /// The workflow was set up wrongly.
    Configuration(String),
    /// A lifecycle hook itself failed.
    HookError { step_name: StepName, hook_type: HookType, details: String },
}

impl HookType {
    pub open spec fn label(self) -> Seq<char> {
        match self {
            HookType::OnSuccess => "on_success"@,
            HookType::OnFailure => "on_failure"@,
        }
    }

    /// The hook's name as written in messages.
    pub fn to_string(&self) -> (r: String)
        ensures
            r@ == self.label(),
    {
        match self {
            HookType::OnSuccess => String::from_str("on_success"),
            HookType::OnFailure => String::from_str("on_failure"),
        }
    }
}

/// A [`WorkflowError`] with its names and texts read as character sequences.
pub enum ErrorView {
    StepError { step_name: Seq<char>, details: Seq<char> },
    Timeout { step_name: Seq<char> },
    StepNotFound(Seq<char>),
    Configuration(Seq<char>),
    HookError { step_name: Seq<char>, hook_type: HookType, details: Seq<char> },
}

impl ErrorView {
    /// The human-readable text of the error.
    pub open spec fn message(self) -> Seq<char> {
        match self {
            ErrorView::StepError { step_name, details } => "Step failed: "@ + step_name
                + ", details: "@ + details,
            ErrorView::Timeout { step_name } => "Timeout occurred in step: "@ + step_name,
            ErrorView::StepNotFound(name) => "Step not found: "@ + name,
            ErrorView::Configuration(message) => "Invalid workflow configuration: "@ + message,
            ErrorView::HookError { step_name, hook_type, details } => "Hook '"@ + hook_type.label()
                + "' failed in step '"@ + step_name + "': "@ + details,
        }
    }
}

impl View for WorkflowError {
    type V = ErrorView;

    open spec fn view(&self) -> ErrorView {
        match self {
            WorkflowError::StepError { step_name, details } => ErrorView::StepError {
                step_name: step_name@,
                details: details@,
            },
            WorkflowError::Timeout { step_name } => ErrorView::Timeout { step_name: step_name@ },
            WorkflowError::StepNotFound(name) => ErrorView::StepNotFound(name@),
            WorkflowError::Configuration(message) => ErrorView::Configuration(message@),
            WorkflowError::HookError { step_name, hook_type, details } => ErrorView::HookError {
                step_name: step_name@,
                hook_type: *hook_type,
                details: details@,
            },
        }
    }
}

impl WorkflowError {
    /// The human-readable text of the error.
    pub fn to_string(&self) -> (r: String)
        ensures
            r@ == self@.message(),
    {
        match self {
            WorkflowError::StepError { step_name, details } => {
                let mut s = String::from_str("Step failed: ");
                s.append(step_name.as_str());
                s.append(", details: ");
                s.append(details.as_str());
                s
            },
            WorkflowError::Timeout { step_name } => {
                let mut s = String::from_str("Timeout occurred in step: ");
                s.append(step_name.as_str());
                s
            },
            WorkflowError::StepNotFound(name) => {
                let mut s = String::from_str("Step not found: ");
                s.append(name.as_str());
                s
            },
            WorkflowError::Configuration(message) => {
                let mut s = String::from_str("Invalid workflow configuration: ");
                s.append(message.as_str());
                s
            },
            WorkflowError::HookError { step_name, hook_type, details } => {
                let mut s = String::from_str("Hook '");
                let label = hook_type.to_string();
                s.append(label.as_str());
                s.append("' failed in step '");
                s.append(step_name.as_str());
                s.append("': ");
                s.append(details.as_str());
                s
            },
        }
    }
}

} // verus!
