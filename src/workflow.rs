use crate::error::WorkflowError;
use crate::names::StepName;
use crate::retry::RetryPolicy;
use crate::step::{StepConfig, DEFAULT_TIMEOUT_MS};
use crate::table::Table;
use vstd::prelude::*;

verus! {

/// A registered step together with how it is run.
#[derive(Debug)]
pub struct StepEntry<S> {
    pub step: S,
    /// Time bound of one attempt, in milliseconds.
    pub timeout_ms: u64,
    pub retry_policy: RetryPolicy,
}

/// An immutable registry of steps by name, with a start step that is
/// registered. Built with [`WorkflowBuilder`]; `S` is whatever runs a step.
#[derive(Debug)]
pub struct Workflow<S> {
    steps: Table<StepEntry<S>>,
    start_step: StepName,
}

/// Collects steps and the start name, then checks them in [`build`](WorkflowBuilder::build).
#[derive(Debug)]
pub struct WorkflowBuilder<S> {
    steps: Table<StepEntry<S>>,
    start_step: Option<StepName>,
}

impl<S> Workflow<S> {
    /// The registered steps by name.
    pub closed spec fn steps(&self) -> Map<Seq<char>, StepEntry<S>> {
        self.steps@
    }

    pub closed spec fn start(&self) -> StepName {
        self.start_step
    }

    pub closed spec fn wf(&self) -> bool {
        self.steps.wf() && self.steps@.contains_key(self.start_step@)
    }

    /// A built workflow always has a step under its start name.
    pub proof fn lemma_start_registered(&self)
        requires
            self.wf(),
        ensures
            self.steps().contains_key(self.start()@),
    {
    }

    pub fn builder() -> (r: WorkflowBuilder<S>)
        ensures
            r.wf(),
            r.steps() == Map::<Seq<char>, StepEntry<S>>::empty(),
            r.start() is None,
    {
        WorkflowBuilder::new()
    }

    pub fn start_step(&self) -> (r: &StepName)
        ensures
            *r == self.start(),
    {
        &self.start_step
    }

    /// Every registered name once, in no promised order.
    pub fn step_names(&self) -> (r: Vec<StepName>)
        requires
            self.wf(),
        ensures
            r@.map_values(|n: StepName| n@).no_duplicates(),
            r@.map_values(|n: StepName| n@).to_set() == self.steps().dom(),
    {
        let names = self.steps.key_list();
        let mut out: Vec<StepName> = Vec::new();
        let mut i: usize = 0;
        while i < names.len()
            invariant
                i <= names@.len(),
                out@.map_values(|n: StepName| n@) == names@.map_values(|s: String| s@).subrange(
                    0,
                    i as int,
                ),
            decreases names@.len() - i,
        {
            let name = StepName::new(names[i].as_str());
            let ghost before = out@;
            out.push(name);
            proof {
                assert(before.map_values(|n: StepName| n@).len() == i);
                assert(out@.map_values(|n: StepName| n@) =~= names@.map_values(
                    |s: String| s@,
                ).subrange(0, i + 1));
            }
            i = i + 1;
        }
        proof {
            assert(names@.map_values(|s: String| s@).subrange(0, names@.len() as int)
                =~= names@.map_values(|s: String| s@));
        }
        out
    }

    pub fn has_step(&self, name: &str) -> (r: bool)
        requires
            self.wf(),
        ensures
            r == self.steps().contains_key(name@),
    {
        self.steps.contains_key(name)
    }

    pub fn step_count(&self) -> (r: usize)
        requires
            self.wf(),
        ensures
            r == self.steps().len(),
    {
        self.steps.len()
    }

    /// The entry registered under `name`, if any.
    pub fn entry(&self, name: &str) -> (r: Option<&StepEntry<S>>)
        requires
            self.wf(),
        ensures
            match r {
                Some(e) => self.steps().contains_key(name@) && *e == self.steps()[name@],
                None => !self.steps().contains_key(name@),
            },
    {
        self.steps.get(name)
    }
}

impl<S> Default for WorkflowBuilder<S> {
    fn default() -> (r: Self)
        ensures
            r.wf(),
            r.steps() == Map::<Seq<char>, StepEntry<S>>::empty(),
            r.start() is None,
    {
        WorkflowBuilder::new()
    }
}

impl<S> WorkflowBuilder<S> {
    /// The steps added so far by name; a later addition under a name replaces
    /// an earlier one.
    pub closed spec fn steps(&self) -> Map<Seq<char>, StepEntry<S>> {
        self.steps@
    }

    pub closed spec fn start(&self) -> Option<StepName> {
        self.start_step
    }

    pub closed spec fn wf(&self) -> bool {
        self.steps.wf()
    }

    pub fn new() -> (r: Self)
        ensures
            r.wf(),
            r.steps() == Map::<Seq<char>, StepEntry<S>>::empty(),
            r.start() is None,
    {
        WorkflowBuilder { steps: Table::new(), start_step: None }
    }

    /// Registers `step` under `name` with the given time bound and policy.
    pub fn add_configured(self, name: &str, step: S, config: StepConfig) -> (r: Self)
        requires
            self.wf(),
        ensures
            r.wf(),
            r.steps() == self.steps().insert(
                name@,
                StepEntry {
                    step,
                    timeout_ms: config.spec_timeout_ms(),
                    retry_policy: config.retry_policy,
                },
            ),
            r.start() == self.start(),
    {
        let timeout_ms = match config.timeout_ms {
            Some(t) => t,
            None => DEFAULT_TIMEOUT_MS,
        };
        let entry = StepEntry { step, timeout_ms, retry_policy: config.retry_policy };
        let mut builder = self;
        builder.steps.insert(name.to_owned(), entry);
        builder
    }

    /// Registers `step` under `name` with the default time bound and no retry.
    pub fn add_step(self, name: &str, step: S) -> (r: Self)
        requires
            self.wf(),
        ensures
            r.wf(),
            r.steps() == self.steps().insert(
                name@,
                StepEntry { step, timeout_ms: DEFAULT_TIMEOUT_MS, retry_policy: RetryPolicy::NoRetry },
            ),
            r.start() == self.start(),
    {
        self.add_configured(
            name,
            step,
            StepConfig { timeout_ms: None, retry_policy: RetryPolicy::NoRetry },
        )
    }

    /// Registers `step` under `name` with its own time bound and no retry.
    pub fn add_with_timeout(self, name: &str, step: S, timeout_ms: u64) -> (r: Self)
        requires
            self.wf(),
        ensures
            r.wf(),
            r.steps() == self.steps().insert(
                name@,
                StepEntry { step, timeout_ms, retry_policy: RetryPolicy::NoRetry },
            ),
            r.start() == self.start(),
    {
        self.add_configured(
            name,
            step,
            StepConfig { timeout_ms: Some(timeout_ms), retry_policy: RetryPolicy::NoRetry },
        )
    }

    /// Registers `step` under `name` with the default time bound and the given
    /// retry policy.
    pub fn add_retryable(self, name: &str, step: S, retry_policy: RetryPolicy) -> (r: Self)
        requires
            self.wf(),
        ensures
            r.wf(),
            r.steps() == self.steps().insert(
                name@,
                StepEntry { step, timeout_ms: DEFAULT_TIMEOUT_MS, retry_policy },
            ),
            r.start() == self.start(),
    {
        self.add_configured(name, step, StepConfig { timeout_ms: None, retry_policy })
    }

    /// Names the step that runs first.
    pub fn start_with(self, name: &str) -> (r: Self)
        ensures
            r.steps() == self.steps(),
            r.wf() == self.wf(),
            r.start() matches Some(n) && n@ == name@,
    {
        WorkflowBuilder { steps: self.steps, start_step: Some(StepName::new(name)) }
    }

    /// Checks the setup: a start name must be set, and a step must be
    /// registered under it.
    pub fn build(self) -> (r: Result<Workflow<S>, WorkflowError>)
        requires
            self.wf(),
        ensures
            match self.start() {
                None => r matches Err(WorkflowError::Configuration(m)) && m@
                    == "Start step must be specified"@,
                Some(n) => if self.steps().contains_key(n@) {
                    r matches Ok(w) && w.wf() && w.start() == n && w.steps() == self.steps()
                } else {
                    r == Err::<Workflow<S>, WorkflowError>(WorkflowError::StepNotFound(n))
                },
            },
    {
        match self.start_step {
            None => Err(WorkflowError::Configuration(String::from_str("Start step must be specified"))),
            Some(start) => {
                if !self.steps.contains_key(start.as_str()) {
                    return Err(WorkflowError::StepNotFound(start));
                }
                Ok(Workflow { steps: self.steps, start_step: start })
            },
        }
    }
}

} // verus!
