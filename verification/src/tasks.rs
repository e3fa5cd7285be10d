//! Background tasks: their names, the attempt-counting lifecycle
//! `Pending -> Running -> (Success | Retrying -> Running ... | Failed)`, with
//! cancellation from any non-terminal state, and the outcomes a run ends in.
use vstd::prelude::*;
use crate::common::UniqueIdentifier;
use crate::storage::StorageFault;
use crate::text::{decimal, message_with_number, string_from_chars, trimmed, trimmed_chars};

verus! {

/// Longest task name accepted, in characters.
pub const BACKGROUND_TASK_NAME_MAX_CHARACTERS: usize = 100;

/// The name of a background task: trimmed, 1 to 100 characters.
#[derive(Clone, Eq, PartialEq, Hash, Debug)]
pub struct BackgroundTaskName(String);

#[derive(Debug, PartialEq, Eq, Structural)]
pub enum BackgroundTaskNameError {
    Empty,
    TooLong { max: usize },
}

impl BackgroundTaskName {
    /// The characters of the name.
    pub closed spec fn view(self) -> Seq<char> {
        self.0@
    }

    /// Trims surrounding whitespace, then requires between 1 and
    /// 100 characters.
    pub fn new(value: &str) -> (r: Result<Self, BackgroundTaskNameError>)
        ensures
            trimmed(value@).len() == 0 ==> r == Err::<BackgroundTaskName, BackgroundTaskNameError>(
                BackgroundTaskNameError::Empty,
            ),
            0 < trimmed(value@).len() <= BACKGROUND_TASK_NAME_MAX_CHARACTERS ==> (r matches Ok(n)
                && n.view() == trimmed(value@)),
            trimmed(value@).len() > BACKGROUND_TASK_NAME_MAX_CHARACTERS ==> r == Err::<
                BackgroundTaskName,
                BackgroundTaskNameError,
            >(BackgroundTaskNameError::TooLong { max: BACKGROUND_TASK_NAME_MAX_CHARACTERS }),
    {
        let t = trimmed_chars(value);
        if t.len() == 0 {
            return Err(BackgroundTaskNameError::Empty);
        }
        if t.len() > BACKGROUND_TASK_NAME_MAX_CHARACTERS {
            return Err(
                BackgroundTaskNameError::TooLong { max: BACKGROUND_TASK_NAME_MAX_CHARACTERS },
            );
        }
        Ok(BackgroundTaskName(string_from_chars(&t)))
    }

    pub fn as_str(&self) -> (r: &str)
        ensures
            r@ == self.view(),
    {
        self.0.as_str()
    }
}

impl core::str::FromStr for BackgroundTaskName {
    type Err = BackgroundTaskNameError;

    fn from_str(s: &str) -> (r: Result<Self, Self::Err>)
        ensures
            trimmed(s@).len() == 0 ==> r == Err::<BackgroundTaskName, BackgroundTaskNameError>(
                BackgroundTaskNameError::Empty,
            ),
            0 < trimmed(s@).len() <= BACKGROUND_TASK_NAME_MAX_CHARACTERS ==> (r matches Ok(n)
                && n.view() == trimmed(s@)),
            trimmed(s@).len() > BACKGROUND_TASK_NAME_MAX_CHARACTERS ==> r == Err::<
                BackgroundTaskName,
                BackgroundTaskNameError,
            >(BackgroundTaskNameError::TooLong { max: BACKGROUND_TASK_NAME_MAX_CHARACTERS }),
    {
        BackgroundTaskName::new(s)
    }
}

impl BackgroundTaskNameError {
    /// The human-readable text of the error, as `Display` prints it.
    pub fn to_string(&self) -> (msg: String)
        ensures
            msg@ == match self {
                BackgroundTaskNameError::Empty => "task name cannot be empty"@,
                BackgroundTaskNameError::TooLong { max } => "task name exceeds maximum length of "@
                    + decimal(*max as nat) + " characters"@,
            },
    {
        match self {
            BackgroundTaskNameError::Empty => String::from_str("task name cannot be empty"),
            BackgroundTaskNameError::TooLong { max } => message_with_number(
                "task name exceeds maximum length of ",
                *max as u64,
                " characters",
            ),
        }
    }
}

/// Lifecycle state: scheduled, not started yet.
#[derive(Debug, Clone, PartialEq, Eq)]
pub struct Pending;

/// Lifecycle state: an attempt is under way.
#[derive(Debug, Clone, PartialEq, Eq)]
pub struct Running;

/// Lifecycle state: finished, with its output.
#[derive(Debug, Clone, PartialEq, Eq)]
pub struct Success {
    pub output: String,
}

/// Lifecycle state: failed for good, with the error of the last attempt.
#[derive(Debug, Clone, PartialEq, Eq)]
pub struct Failed {
    pub error: String,
}

/// Lifecycle state: an attempt failed and another one is allowed.
#[derive(Debug, Clone, PartialEq, Eq)]
pub struct Retrying {
    pub last_error: String,
}

/// Lifecycle state: cancelled before it finished.
#[derive(Debug, Clone, PartialEq, Eq)]
pub struct Cancelled;

/// How many attempts a task may make and which one it is on.
#[derive(Debug, Clone, PartialEq, Eq)]
pub struct TaskAttemptTracker {
    max_attempts: u32,
    current_attempt: u32,
}

impl TaskAttemptTracker {
    pub closed spec fn max_attempts_spec(self) -> u32 {
        self.max_attempts
    }

    pub closed spec fn current_attempt_spec(self) -> u32 {
        self.current_attempt
    }
}

/// The attempt counter after `start`: one more, saturating at `u32::MAX`.
pub open spec fn next_attempt(current: u32) -> u32 {
    if current < u32::MAX {
        (current + 1) as u32
    } else {
        current
    }
}

/// Whether a failure on attempt `current` of `max` leads to a retry.
pub open spec fn retries(current: u32, max: u32) -> bool {
    current < max
}

/// The attempt counter of a freshly built task after `k` attempts, each of
/// which began with `start`.
pub open spec fn counter_after(k: nat) -> u32
    decreases k,
{
    if k == 0 {
        0
    } else {
        next_attempt(counter_after((k - 1) as nat))
    }
}

/// A background task in lifecycle state `State`. The transitions consume the
/// task and give it back in its next state, so a task can only move along
/// the lifecycle.
#[derive(Debug, Clone, PartialEq, Eq)]
pub struct ScheduledBackgroundTask<State> {
    id: UniqueIdentifier,
    name: BackgroundTaskName,
    attempts: TaskAttemptTracker,
    state: State,
}

impl<S> ScheduledBackgroundTask<S> {
    pub closed spec fn id_spec(self) -> UniqueIdentifier {
        self.id
    }

    pub closed spec fn name_spec(self) -> BackgroundTaskName {
        self.name
    }

    pub closed spec fn max_attempts_spec(self) -> u32 {
        self.attempts.max_attempts
    }

    pub closed spec fn current_attempt_spec(self) -> u32 {
        self.attempts.current_attempt
    }

    pub closed spec fn state_spec(self) -> S {
        self.state
    }

    /// Identity, name and attempt budget agree.
    pub open spec fn same_task<T>(self, later: ScheduledBackgroundTask<T>) -> bool {
        &&& later.id_spec() == self.id_spec()
        &&& later.name_spec() == self.name_spec()
        &&& later.max_attempts_spec() == self.max_attempts_spec()
    }

    pub fn id(&self) -> (r: &UniqueIdentifier)
        ensures
            *r == self.id_spec(),
    {
        &self.id
    }

    pub fn name(&self) -> (r: &BackgroundTaskName)
        ensures
            *r == self.name_spec(),
    {
        &self.name
    }

    pub fn max_attempts(&self) -> (r: u32)
        ensures
            r == self.max_attempts_spec(),
    {
        self.attempts.max_attempts
    }

    pub fn current_attempt(&self) -> (r: u32)
        ensures
            r == self.current_attempt_spec(),
    {
        self.attempts.current_attempt
    }
}

impl ScheduledBackgroundTask<Pending> {
    /// Begins the first attempt.
    pub fn start(self) -> (r: ScheduledBackgroundTask<Running>)
        ensures
            self.same_task(r),
            r.current_attempt_spec() == next_attempt(self.current_attempt_spec()),
    {
        let current = self.attempts.current_attempt.saturating_add(1);
        ScheduledBackgroundTask {
            id: self.id,
            name: self.name,
            attempts: TaskAttemptTracker {
                max_attempts: self.attempts.max_attempts,
                current_attempt: current,
            },
            state: Running,
        }
    }

    pub fn cancel(self) -> (r: ScheduledBackgroundTask<Cancelled>)
        ensures
            self.same_task(r),
            r.current_attempt_spec() == self.current_attempt_spec(),
    {
        ScheduledBackgroundTask { id: self.id, name: self.name, attempts: self.attempts, state: Cancelled }
    }
}

impl ScheduledBackgroundTask<Running> {
    /// Finishes the current attempt successfully with `output`.
    pub fn complete(self, output: &str) -> (r: ScheduledBackgroundTask<Success>)
        ensures
            self.same_task(r),
            r.current_attempt_spec() == self.current_attempt_spec(),
            r.state_spec().output@ == output@,
    {
        ScheduledBackgroundTask {
            id: self.id,
            name: self.name,
            attempts: self.attempts,
            state: Success { output: String::from_str(output) },
        }
    }

    /// Records a failed attempt: the task is retried while attempts remain
    /// (`Ok`), and fails for good otherwise (`Err`).
    pub fn fail(self, error: &str) -> (r: Result<
        ScheduledBackgroundTask<Retrying>,
        ScheduledBackgroundTask<Failed>,
    >)
        ensures
            r is Ok <==> retries(self.current_attempt_spec(), self.max_attempts_spec()),
            r matches Ok(t) ==> self.same_task(t) && t.current_attempt_spec()
                == self.current_attempt_spec() && t.state_spec().last_error@ == error@,
            r matches Err(t) ==> self.same_task(t) && t.current_attempt_spec()
                == self.current_attempt_spec() && t.state_spec().error@ == error@,
    {
        let message = String::from_str(error);
        if self.attempts.current_attempt < self.attempts.max_attempts {
            Ok(
                ScheduledBackgroundTask {
                    id: self.id,
                    name: self.name,
                    attempts: self.attempts,
                    state: Retrying { last_error: message },
                },
            )
        } else {
            Err(
                ScheduledBackgroundTask {
                    id: self.id,
                    name: self.name,
                    attempts: self.attempts,
                    state: Failed { error: message },
                },
            )
        }
    }

    pub fn cancel(self) -> (r: ScheduledBackgroundTask<Cancelled>)
        ensures
            self.same_task(r),
            r.current_attempt_spec() == self.current_attempt_spec(),
    {
        ScheduledBackgroundTask { id: self.id, name: self.name, attempts: self.attempts, state: Cancelled }
    }
}

impl ScheduledBackgroundTask<Retrying> {
    /// The error of the attempt that failed.
    pub fn last_error(&self) -> (r: &str)
        ensures
            r@ == self.state_spec().last_error@,
    {
        self.state.last_error.as_str()
    }

    /// Begins the next attempt.
    pub fn start(self) -> (r: ScheduledBackgroundTask<Running>)
        ensures
            self.same_task(r),
            r.current_attempt_spec() == next_attempt(self.current_attempt_spec()),
    {
        let current = self.attempts.current_attempt.saturating_add(1);
        ScheduledBackgroundTask {
            id: self.id,
            name: self.name,
            attempts: TaskAttemptTracker {
                max_attempts: self.attempts.max_attempts,
                current_attempt: current,
            },
            state: Running,
        }
    }

    pub fn cancel(self) -> (r: ScheduledBackgroundTask<Cancelled>)
        ensures
            self.same_task(r),
            r.current_attempt_spec() == self.current_attempt_spec(),
    {
        ScheduledBackgroundTask { id: self.id, name: self.name, attempts: self.attempts, state: Cancelled }
    }
}

impl ScheduledBackgroundTask<Success> {
    pub fn output(&self) -> (r: &str)
        ensures
            r@ == self.state_spec().output@,
    {
        self.state.output.as_str()
    }
}

impl ScheduledBackgroundTask<Failed> {
    pub fn error(&self) -> (r: &str)
        ensures
            r@ == self.state_spec().error@,
    {
        self.state.error.as_str()
    }
}

#[derive(Debug, PartialEq, Eq, Structural)]
pub enum TaskBuilderError {
    ZeroMaxAttempts,
    MissingId,
    MissingName,
}

impl TaskBuilderError {
    /// The human-readable text of the error, as `Display` prints it.
    pub fn to_string(&self) -> (msg: String)
        ensures
            msg@ == match self {
                TaskBuilderError::ZeroMaxAttempts => "max_attempts must be at least 1"@,
                TaskBuilderError::MissingId => "Missing task id. Use `BackgroundTaskBuilder::id` to set it"@,
                TaskBuilderError::MissingName => "Missing task name. Use `BackgroundTaskBuilder::name` to set it"@,
            },
    {
        match self {
            TaskBuilderError::ZeroMaxAttempts => String::from_str("max_attempts must be at least 1"),
            TaskBuilderError::MissingId => String::from_str(
                "Missing task id. Use `BackgroundTaskBuilder::id` to set it",
            ),
            TaskBuilderError::MissingName => String::from_str(
                "Missing task name. Use `BackgroundTaskBuilder::name` to set it",
            ),
        }
    }
}

/// Assembles a pending task; an id and a name are required, and the attempt
/// budget defaults to one.
pub struct BackgroundTaskBuilder {
    id: Option<UniqueIdentifier>,
    name: Option<BackgroundTaskName>,
    max_attempts: u32,
}

impl Default for BackgroundTaskBuilder {
    fn default() -> (r: Self)
        ensures
            r.id_spec() is None,
            r.name_spec() is None,
            r.max_attempts_spec() == 1,
    {
        BackgroundTaskBuilder { id: None, name: None, max_attempts: 1 }
    }
}

impl BackgroundTaskBuilder {
    pub closed spec fn id_spec(self) -> Option<UniqueIdentifier> {
        self.id
    }

    pub closed spec fn name_spec(self) -> Option<BackgroundTaskName> {
        self.name
    }

    pub closed spec fn max_attempts_spec(self) -> u32 {
        self.max_attempts
    }

    pub fn new() -> (r: Self)
        ensures
            r.id_spec() is None,
            r.name_spec() is None,
            r.max_attempts_spec() == 1,
    {
        BackgroundTaskBuilder::default()
    }

    pub fn id(self, id: UniqueIdentifier) -> (r: Self)
        ensures
            r.id_spec() == Some(id),
            r.name_spec() == self.name_spec(),
            r.max_attempts_spec() == self.max_attempts_spec(),
    {
        BackgroundTaskBuilder { id: Some(id), name: self.name, max_attempts: self.max_attempts }
    }

    pub fn name(self, name: BackgroundTaskName) -> (r: Self)
        ensures
            r.name_spec() == Some(name),
            r.id_spec() == self.id_spec(),
            r.max_attempts_spec() == self.max_attempts_spec(),
    {
        BackgroundTaskBuilder { id: self.id, name: Some(name), max_attempts: self.max_attempts }
    }

    pub fn max_attempts(self, max_attempts: u32) -> (r: Self)
        ensures
            r.max_attempts_spec() == max_attempts,
            r.id_spec() == self.id_spec(),
            r.name_spec() == self.name_spec(),
    {
        BackgroundTaskBuilder { id: self.id, name: self.name, max_attempts }
    }

    /// A pending task on attempt 0; errors are checked in the order: attempt
    /// budget, id, name.
    pub fn build(self) -> (r: Result<ScheduledBackgroundTask<Pending>, TaskBuilderError>)
        ensures
            self.max_attempts_spec() == 0 ==> r == Err::<
                ScheduledBackgroundTask<Pending>,
                TaskBuilderError,
            >(TaskBuilderError::ZeroMaxAttempts),
            self.max_attempts_spec() > 0 && self.id_spec() is None ==> r == Err::<
                ScheduledBackgroundTask<Pending>,
                TaskBuilderError,
            >(TaskBuilderError::MissingId),
            self.max_attempts_spec() > 0 && self.id_spec() is Some && self.name_spec() is None
                ==> r == Err::<ScheduledBackgroundTask<Pending>, TaskBuilderError>(
                TaskBuilderError::MissingName,
            ),
            self.max_attempts_spec() > 0 && self.id_spec() is Some && self.name_spec() is Some
                ==> (r matches Ok(t) && Some(t.id_spec()) == self.id_spec() && Some(t.name_spec())
                == self.name_spec() && t.max_attempts_spec() == self.max_attempts_spec()
                && t.current_attempt_spec() == 0),
    {
        if self.max_attempts == 0 {
            return Err(TaskBuilderError::ZeroMaxAttempts);
        }
        let id = match self.id {
            Some(id) => id,
            None => return Err(TaskBuilderError::MissingId),
        };
        let name = match self.name {
            Some(name) => name,
            None => return Err(TaskBuilderError::MissingName),
        };
        Ok(
            ScheduledBackgroundTask {
                id,
                name,
                attempts: TaskAttemptTracker { max_attempts: self.max_attempts, current_attempt: 0 },
                state: Pending,
            },
        )
    }
}

/// The three terminal states in one value, as a finished run reports it.
#[derive(Debug, Clone, PartialEq, Eq)]
pub enum TaskOutcome {
    Success(ScheduledBackgroundTask<Success>),
    Failed(ScheduledBackgroundTask<Failed>),
    Cancelled(ScheduledBackgroundTask<Cancelled>),
}

impl TaskOutcome {
    /// The id of the task, whichever way it ended.
    pub open spec fn id_spec(self) -> UniqueIdentifier {
        match self {
            TaskOutcome::Success(t) => t.id_spec(),
            TaskOutcome::Failed(t) => t.id_spec(),
            TaskOutcome::Cancelled(t) => t.id_spec(),
        }
    }

    pub fn id(&self) -> (r: &UniqueIdentifier)
        ensures
            *r == self.id_spec(),
    {
        match self {
            TaskOutcome::Success(t) => t.id(),
            TaskOutcome::Failed(t) => t.id(),
            TaskOutcome::Cancelled(t) => t.id(),
        }
    }

    pub fn is_success(&self) -> (r: bool)
        ensures
            r == (self is Success),
    {
        matches!(self, TaskOutcome::Success(_))
    }

    pub fn is_failed(&self) -> (r: bool)
        ensures
            r == (self is Failed),
    {
        matches!(self, TaskOutcome::Failed(_))
    }

    pub fn is_cancelled(&self) -> (r: bool)
        ensures
            r == (self is Cancelled),
    {
        matches!(self, TaskOutcome::Cancelled(_))
    }
}

/// The lifecycle states without their data, for reporting live status.
#[derive(Debug, Clone, Copy, PartialEq, Eq, Structural)]
pub enum TaskStatus {
    Pending,
    Running,
    Retrying,
    Success,
    Failed,
    Cancelled,
}

impl TaskStatus {
    /// The lower-case word of the state, as `Display` prints it.
    pub open spec fn text(self) -> Seq<char> {
        match self {
            TaskStatus::Pending => "pending"@,
            TaskStatus::Running => "running"@,
            TaskStatus::Retrying => "retrying"@,
            TaskStatus::Success => "success"@,
            TaskStatus::Failed => "failed"@,
            TaskStatus::Cancelled => "cancelled"@,
        }
    }

    pub fn as_str(&self) -> (r: &'static str)
        ensures
            r@ == self.text(),
    {
        match self {
            TaskStatus::Pending => "pending",
            TaskStatus::Running => "running",
            TaskStatus::Retrying => "retrying",
            TaskStatus::Success => "success",
            TaskStatus::Failed => "failed",
            TaskStatus::Cancelled => "cancelled",
        }
    }

    pub fn to_string(&self) -> (r: String)
        ensures
            r@ == self.text(),
    {
        String::from_str(self.as_str())
    }
}

/// Errors of the background-task registry.
#[derive(Debug)]
pub enum BackgroundTasksError {
    Storage(StorageFault),
}

impl From<StorageFault> for BackgroundTasksError {
    fn from(f: StorageFault) -> (r: BackgroundTasksError) {
        BackgroundTasksError::Storage(f)
    }
}

impl vstd::std_specs::convert::FromSpecImpl<StorageFault> for BackgroundTasksError {
    open spec fn obeys_from_spec() -> bool {
        true
    }

    open spec fn from_spec(v: StorageFault) -> BackgroundTasksError {
        BackgroundTasksError::Storage(v)
    }
}

impl BackgroundTasksError {
    /// The message of the storage failure, as `Display` prints it.
    pub fn to_string(&self) -> (r: String)
        ensures
            self matches BackgroundTasksError::Storage(f) ==> r@ == f.view(),
    {
        match self {
            BackgroundTasksError::Storage(f) => f.to_string(),
        }
    }
}

/// A task that fails every attempt runs exactly `max` times: its `k`-th
/// attempt (counted by `start` from a freshly built task) carries the number
/// `k`, and a failure of that attempt is retried exactly when `k < max`.
pub proof fn law_failing_task_gets_max_attempts(max: u32, k: nat)
    requires
        1 <= max,
        1 <= k <= max,
    ensures
        counter_after(k) == k,
        retries(counter_after(k), max) <==> k < max,
    decreases k,
{
    assert(counter_after(0) == 0);
    if k > 1 {
        law_failing_task_gets_max_attempts(max, (k - 1) as nat);
    }
    assert(counter_after(k) == next_attempt(counter_after((k - 1) as nat)));
}

/// The attempt counter never passes the budget: a task on attempt
/// `current <= max` that is retried starts an attempt no later than `max`.
pub proof fn law_attempts_stay_within_budget(current: u32, max: u32)
    requires
        current <= max,
        retries(current, max),
    ensures
        next_attempt(current) <= max,
        next_attempt(current) == current + 1,
{
}

} // verus!
