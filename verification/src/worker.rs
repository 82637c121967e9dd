//! The recovery worker: a bounded process that wakes up, attempts a plan and waits, as a machine
//! from events to phases.

use crate::ids::Digest;
use crate::recovery_discovery::MAX_DISCOVERY_WAIT_SECONDS;
use crate::recovery_plan::{RecoveryExecutionPolicy, RecoveryNetworkClass, RecoveryPowerSource};
use crate::scheduler::{
    SchedulerLifecycle, SchedulerReadiness, MAX_HISTORY_RECOVERY_PAGES_PER_SESSION,
};
use crate::time::TimeSpan;
use vstd::prelude::*;

verus! {

pub const DEFAULT_HISTORY_RECOVERY_WORKER_RUNTIME_SECONDS: u64 = 3_600;

pub const MAX_HISTORY_RECOVERY_WORKER_RUNTIME_SECONDS: u64 = 86_400;

pub const DEFAULT_HISTORY_RECOVERY_WORKER_WAKEUPS: usize = 64;

pub const MAX_HISTORY_RECOVERY_WORKER_WAKEUPS: usize = 1_024;

pub const DEFAULT_HISTORY_RECOVERY_WORKER_CANCEL_POLL_SECONDS: u64 = 5;

pub const MAX_HISTORY_RECOVERY_WORKER_CANCEL_POLL_SECONDS: u64 = 30;

pub const HISTORY_RECOVERY_WORKER_LOCK_RETRY_MILLISECONDS: u64 = 25;

pub const HISTORY_RECOVERY_WORKER_LOCK_WAIT_SECONDS: u64 = 2;

pub const RUNTIME_STATE_LOCK_RETRY_MILLISECONDS: u64 = 25;

pub const RUNTIME_STATE_LOCK_WAIT_SECONDS: u64 = 15;

/// Why the worker woke up.
#[derive(Clone, Copy, Debug, PartialEq, Eq, Structural)]
pub enum HistoryRecoveryWorkerWakeReason {
    Initial,
    SchedulerDeadline,
    PlatformChange,
    SchedulerStateChange,
}

impl HistoryRecoveryWorkerWakeReason {
    /// The name of the reason.
    pub fn as_str(self) -> (r: &'static str)
        ensures
            r@ == match self {
                HistoryRecoveryWorkerWakeReason::Initial => "initial"@,
                HistoryRecoveryWorkerWakeReason::SchedulerDeadline => "scheduler-deadline"@,
                HistoryRecoveryWorkerWakeReason::PlatformChange => "platform-change"@,
                HistoryRecoveryWorkerWakeReason::SchedulerStateChange => "scheduler-state-change"@,
            },
    {
        match self {
            HistoryRecoveryWorkerWakeReason::Initial => "initial",
            HistoryRecoveryWorkerWakeReason::SchedulerDeadline => "scheduler-deadline",
            HistoryRecoveryWorkerWakeReason::PlatformChange => "platform-change",
            HistoryRecoveryWorkerWakeReason::SchedulerStateChange => "scheduler-state-change",
        }
    }
}

/// Why the worker refuses its options or ends with an error.
#[derive(Clone, Copy, Debug, PartialEq, Eq, Structural)]
pub enum WorkerError {
    WakeupsOutOfRange,
    RuntimeOutOfRange,
    CancelPollOutOfRange,
    DiscoveryWaitOutOfRange,
    PagesOutOfRange,
    NotTerminal,
    ClockRollback { last_observed_unix_seconds: u64 },
    LeaseNotReconciled,
    AttemptFailed,
    OutsideFailure,
    UnexpectedEvent,
}

/// The options of a worker.
#[derive(Clone, Copy, Debug, PartialEq, Eq, Structural)]
pub struct WorkerOptions {
    pub max_runtime_seconds: u64,
    pub max_wakeups: usize,
    pub cancel_poll_seconds: u64,
    pub discovery_wait_seconds: u64,
    pub max_pages: usize,
}

impl WorkerOptions {
    /// The first option that is out of its range.
    pub open spec fn fault(self) -> Option<WorkerError> {
        if !(1 <= self.max_wakeups <= MAX_HISTORY_RECOVERY_WORKER_WAKEUPS) {
            Some(WorkerError::WakeupsOutOfRange)
        } else if !(1 <= self.max_runtime_seconds <= MAX_HISTORY_RECOVERY_WORKER_RUNTIME_SECONDS) {
            Some(WorkerError::RuntimeOutOfRange)
        } else if !(1 <= self.cancel_poll_seconds
            <= MAX_HISTORY_RECOVERY_WORKER_CANCEL_POLL_SECONDS) {
            Some(WorkerError::CancelPollOutOfRange)
        } else if !(1 <= self.discovery_wait_seconds <= MAX_DISCOVERY_WAIT_SECONDS) {
            Some(WorkerError::DiscoveryWaitOutOfRange)
        } else if !(1 <= self.max_pages <= MAX_HISTORY_RECOVERY_PAGES_PER_SESSION) {
            Some(WorkerError::PagesOutOfRange)
        } else {
            None
        }
    }

    /// Tests every option against its range.
    pub fn validate(self) -> (r: Result<(), WorkerError>)
        ensures
            match self.fault() {
                None => r is Ok,
                Some(error) => r == Err::<(), WorkerError>(error),
            },
    {
        if !(1 <= self.max_wakeups && self.max_wakeups <= MAX_HISTORY_RECOVERY_WORKER_WAKEUPS) {
            return Err(WorkerError::WakeupsOutOfRange);
        }
        if !(1 <= self.max_runtime_seconds && self.max_runtime_seconds
            <= MAX_HISTORY_RECOVERY_WORKER_RUNTIME_SECONDS) {
            return Err(WorkerError::RuntimeOutOfRange);
        }
        if !(1 <= self.cancel_poll_seconds && self.cancel_poll_seconds
            <= MAX_HISTORY_RECOVERY_WORKER_CANCEL_POLL_SECONDS) {
            return Err(WorkerError::CancelPollOutOfRange);
        }
        if !(1 <= self.discovery_wait_seconds && self.discovery_wait_seconds
            <= MAX_DISCOVERY_WAIT_SECONDS) {
            return Err(WorkerError::DiscoveryWaitOutOfRange);
        }
        if !(1 <= self.max_pages && self.max_pages <= MAX_HISTORY_RECOVERY_PAGES_PER_SESSION) {
            return Err(WorkerError::PagesOutOfRange);
        }
        Ok(())
    }
}

/// One cause in the chain of an error.
#[derive(Clone, Copy, Debug, PartialEq, Eq, Structural)]
pub enum ErrorCause {
    StateAlreadyLocked,
    Other,
}

/// Whether an error comes from a state directory that another process holds: only the typed
/// cause tells, never a message.
pub fn recovery_worker_state_lock_is_busy(causes: &[ErrorCause]) -> (r: bool)
    ensures
        r == causes@.contains(ErrorCause::StateAlreadyLocked),
{
    let mut i: usize = 0;
    while i < causes.len()
        invariant
            i <= causes.len(),
            forall|j: int| 0 <= j < i ==> causes@[j] != ErrorCause::StateAlreadyLocked,
        decreases causes.len() - i,
    {
        if causes[i] == ErrorCause::StateAlreadyLocked {
            return true;
        }
        i += 1;
    }
    false
}

/// What to do about a failed operation on the state.
#[derive(Clone, Copy, Debug, PartialEq, Eq, Structural)]
pub enum LockRetry {
    Retry,
    GiveUp,
    Fail,
}

/// Whether an operation that failed after `elapsed` is tried again: only where the state was
/// locked, and only while less than `limit` has passed.
pub fn lock_retry(busy: bool, elapsed: TimeSpan, limit: TimeSpan) -> (r: LockRetry)
    ensures
        r == if !busy {
            LockRetry::Fail
        } else if elapsed.nanos < limit.nanos {
            LockRetry::Retry
        } else {
            LockRetry::GiveUp
        },
{
    if !busy {
        LockRetry::Fail
    } else if elapsed.nanos < limit.nanos {
        LockRetry::Retry
    } else {
        LockRetry::GiveUp
    }
}

/// Whether the worker tries an operation on the state again.
pub fn retry_recovery_worker_state_operation(causes: &[ErrorCause], elapsed: TimeSpan) -> (r:
    LockRetry)
    ensures
        r == if !causes@.contains(ErrorCause::StateAlreadyLocked) {
            LockRetry::Fail
        } else if elapsed.nanos < 2_000_000_000 {
            LockRetry::Retry
        } else {
            LockRetry::GiveUp
        },
{
    lock_retry(
        recovery_worker_state_lock_is_busy(causes),
        elapsed,
        TimeSpan::from_secs(HISTORY_RECOVERY_WORKER_LOCK_WAIT_SECONDS),
    )
}

/// Whether the runtime tries to lock its state again.
pub fn acquire_runtime_state_lock(already_locked: bool, elapsed: TimeSpan) -> (r: LockRetry)
    ensures
        r == if !already_locked {
            LockRetry::Fail
        } else if elapsed.nanos < 15_000_000_000 {
            LockRetry::Retry
        } else {
            LockRetry::GiveUp
        },
{
    lock_retry(
        already_locked,
        elapsed,
        TimeSpan::from_secs(RUNTIME_STATE_LOCK_WAIT_SECONDS),
    )
}

/// How long the worker sleeps: until it looks for a cancellation, until its runtime is over, or
/// until the scheduler's deadline, whichever comes first; a deadline counts as at least one
/// second away.
pub open spec fn worker_wait(
    cancel_poll: TimeSpan,
    runtime_remaining: TimeSpan,
    scheduler_deadline: Option<(u64, u64)>,
) -> TimeSpan {
    let bounded = cancel_poll.shorter(runtime_remaining);
    match scheduler_deadline {
        None => bounded,
        Some((now, deadline)) => {
            let seconds: int = if deadline > now + 1 {
                deadline - now
            } else {
                1
            };
            bounded.shorter(TimeSpan { nanos: (seconds * 1_000_000_000) as u128 })
        },
    }
}

/// How long the worker sleeps. The deadline is a pair of the present time and the deadline.
pub fn recovery_worker_wait_duration(
    cancel_poll: TimeSpan,
    runtime_remaining: TimeSpan,
    scheduler_deadline: Option<(u64, u64)>,
) -> (r: TimeSpan)
    ensures
        r == worker_wait(cancel_poll, runtime_remaining, scheduler_deadline),
{
    let bounded = cancel_poll.at_most(runtime_remaining);
    match scheduler_deadline {
        None => bounded,
        Some((now_unix_seconds, deadline_unix_seconds)) => {
            let until: u64 = deadline_unix_seconds.saturating_sub(now_unix_seconds);
            let seconds: u64 = if until < 1 {
                1
            } else {
                until
            };
            bounded.at_most(TimeSpan::from_secs(seconds))
        },
    }
}

/// The worker never sleeps past its next look for a cancellation, past its runtime, or past the
/// scheduler's deadline (or one second, where that is nearer).
pub proof fn worker_wait_is_bounded(
    cancel_poll: TimeSpan,
    runtime_remaining: TimeSpan,
    scheduler_deadline: Option<(u64, u64)>,
)
    ensures
        ({
            let wait = worker_wait(cancel_poll, runtime_remaining, scheduler_deadline);
            &&& wait.nanos <= cancel_poll.nanos
            &&& wait.nanos <= runtime_remaining.nanos
            &&& scheduler_deadline matches Some((now, deadline)) ==> wait.nanos <= 1_000_000_000
                || wait.nanos <= (deadline - now) * 1_000_000_000
            &&& runtime_remaining.nanos > 0 && cancel_poll.nanos > 0 ==> wait.nanos > 0
        }),
{
}

/// How a worker ended.
#[derive(Clone, Copy, Debug, PartialEq, Eq, Structural)]
pub enum WorkerOutcome {
    Cancelled,
    Complete,
    RuntimeExpired,
    WakeupLimit,
    Failed { error: WorkerError },
}

/// How an attempt of the worker ended.
#[derive(Clone, Copy, Debug, PartialEq, Eq, Structural)]
pub enum AttemptEnd {
    Finished,
    PolicyBlocked,
    StateLocked,
    Failed,
    TimedOut,
}

/// What a worker is doing, which tells its driver what to do next.
#[derive(Clone, Copy, Debug, PartialEq, Eq, Structural)]
pub enum WorkerPhase {
    /// Look for a terminal scheduler state and at the clock, before waking up.
    Observing,
    /// Verify the plan and load the scheduler state.
    Preparing,
    /// Record the failure of an attempt whose lease ran out.
    RecoveringExpiredAttempt,
    /// Read the platform context.
    CheckingPolicy { readiness: SchedulerReadiness },
    /// Run one attempt of the plan, for as long as the runtime lasts.
    Attempting,
    /// Record the failure of the attempt that the end of the runtime interrupted.
    RecordingInterruption,
    /// Look for a terminal scheduler state, after the wakeup.
    ObservingAfterWakeup,
    /// Read the scheduler state that the wait begins with.
    BeginningWait,
    /// Look for a terminal scheduler state and at the clock, while waiting.
    ObservingInWait { observed: Digest },
    /// Read the scheduler state and, where it is ready, the platform context.
    ReadingInWait { observed: Digest },
    /// Sleep until the platform changes or the time is over.
    Sleeping { observed: Digest, deadline: Option<u64> },
    /// Nothing more.
    Done { outcome: WorkerOutcome },
}

/// What happened outside.
#[derive(Clone, Copy, Debug, PartialEq, Eq, Structural)]
pub enum WorkerEvent {
    Observed { terminal: Option<SchedulerLifecycle>, runtime_over: bool },
    Prepared { complete: bool, lifecycle: SchedulerLifecycle, readiness: SchedulerReadiness },
    ExpiredAttemptRecorded { readiness: SchedulerReadiness },
    PolicyChecked { network: RecoveryNetworkClass, power: RecoveryPowerSource },
    AttemptEnded { end: AttemptEnd },
    InterruptionRecorded { lifecycle: SchedulerLifecycle },
    WaitBegun { state: Digest },
    StateRead {
        state: Digest,
        readiness: SchedulerReadiness,
        network: RecoveryNetworkClass,
        power: RecoveryPowerSource,
    },
    PlatformChanged,
    TimedOut,
    OutsideFailure,
}

/// A worker.
#[derive(Clone, Copy, Debug, PartialEq, Eq, Structural)]
pub struct RecoveryWorker {
    pub policy: RecoveryExecutionPolicy,
    pub max_wakeups: usize,
    pub wake_count: usize,
    pub wake_reason: HistoryRecoveryWorkerWakeReason,
    pub phase: WorkerPhase,
}

/// How a worker ends on a scheduler state that should be terminal.
pub open spec fn terminal_outcome(lifecycle: SchedulerLifecycle) -> WorkerOutcome {
    match lifecycle {
        SchedulerLifecycle::Cancelled => WorkerOutcome::Cancelled,
        SchedulerLifecycle::Completed => WorkerOutcome::Complete,
        SchedulerLifecycle::Active | SchedulerLifecycle::Attempting => WorkerOutcome::Failed {
            error: WorkerError::NotTerminal,
        },
    }
}

/// How a worker ends on a scheduler state that should be terminal.
pub fn print_history_recovery_worker_terminal(lifecycle: SchedulerLifecycle) -> (r: WorkerOutcome)
    ensures
        r == terminal_outcome(lifecycle),
{
    match lifecycle {
        SchedulerLifecycle::Cancelled => WorkerOutcome::Cancelled,
        SchedulerLifecycle::Completed => WorkerOutcome::Complete,
        SchedulerLifecycle::Active | SchedulerLifecycle::Attempting => WorkerOutcome::Failed {
            error: WorkerError::NotTerminal,
        },
    }
}

impl RecoveryWorker {
    /// The same worker in another phase.
    pub open spec fn at(self, phase: WorkerPhase) -> RecoveryWorker {
        RecoveryWorker { phase, ..self }
    }

    /// The same worker, ended.
    pub open spec fn ended(self, outcome: WorkerOutcome) -> RecoveryWorker {
        self.at(WorkerPhase::Done { outcome })
    }

    /// The same worker, ended by an error.
    pub open spec fn failed(self, error: WorkerError) -> RecoveryWorker {
        self.ended(WorkerOutcome::Failed { error })
    }

    /// The same worker, about to wake up.
    pub open spec fn woken(self, wake_reason: HistoryRecoveryWorkerWakeReason) -> RecoveryWorker {
        RecoveryWorker { wake_reason, phase: WorkerPhase::Observing, ..self }
    }

    /// What a worker keeps in every phase.
    pub open spec fn wf(self) -> bool {
        self.wake_count <= self.max_wakeups
    }

    /// What follows a test of the policy in a wakeup.
    pub open spec fn after_policy(self, readiness: SchedulerReadiness, allowed: bool) -> RecoveryWorker {
        match readiness {
            SchedulerReadiness::Ready => if allowed {
                self.at(WorkerPhase::Attempting)
            } else {
                self.at(WorkerPhase::ObservingAfterWakeup)
            },
            SchedulerReadiness::Deferred { .. } => self.at(WorkerPhase::ObservingAfterWakeup),
            SchedulerReadiness::ClockRollback { last_observed_unix_seconds } => self.failed(
                WorkerError::ClockRollback { last_observed_unix_seconds },
            ),
            SchedulerReadiness::AttemptLeaseExpired => self.failed(WorkerError::LeaseNotReconciled),
            SchedulerReadiness::Cancelled => self.ended(WorkerOutcome::Cancelled),
            SchedulerReadiness::Completed => self.ended(WorkerOutcome::Complete),
        }
    }

    /// What follows a look at the scheduler state while waiting.
    pub open spec fn after_reading(
        self,
        observed: Digest,
        state: Digest,
        readiness: SchedulerReadiness,
        allowed: bool,
    ) -> RecoveryWorker {
        if state != observed {
            self.woken(HistoryRecoveryWorkerWakeReason::SchedulerStateChange)
        } else {
            match readiness {
                SchedulerReadiness::ClockRollback { last_observed_unix_seconds } => self.failed(
                    WorkerError::ClockRollback { last_observed_unix_seconds },
                ),
                SchedulerReadiness::AttemptLeaseExpired => self.woken(
                    HistoryRecoveryWorkerWakeReason::SchedulerDeadline,
                ),
                SchedulerReadiness::Ready => if allowed {
                    self.woken(HistoryRecoveryWorkerWakeReason::SchedulerDeadline)
                } else {
                    self.at(WorkerPhase::Sleeping { observed, deadline: None })
                },
                SchedulerReadiness::Cancelled => self.ended(WorkerOutcome::Cancelled),
                SchedulerReadiness::Completed => self.ended(WorkerOutcome::Complete),
                SchedulerReadiness::Deferred { not_before_unix_seconds } => self.at(
                    WorkerPhase::Sleeping { observed, deadline: Some(not_before_unix_seconds) },
                ),
            }
        }
    }

    /// What follows an event.
    pub open spec fn next(self, event: WorkerEvent) -> RecoveryWorker {
        match (self.phase, event) {
            (WorkerPhase::Done { .. }, _) => self,
            (_, WorkerEvent::OutsideFailure) => self.failed(WorkerError::OutsideFailure),
            (WorkerPhase::Observing, WorkerEvent::Observed { terminal, runtime_over }) => match
            terminal {
                Some(lifecycle) => self.ended(terminal_outcome(lifecycle)),
                None => if runtime_over {
                    self.ended(WorkerOutcome::RuntimeExpired)
                } else if self.wake_count >= self.max_wakeups {
                    self.ended(WorkerOutcome::WakeupLimit)
                } else {
                    RecoveryWorker {
                        wake_count: (self.wake_count + 1) as usize,
                        phase: WorkerPhase::Preparing,
                        ..self
                    }
                },
            },
            (
                WorkerPhase::Preparing,
                WorkerEvent::Prepared { complete, lifecycle, readiness },
            ) => if complete || lifecycle.terminal() {
                self.ended(terminal_outcome(lifecycle))
            } else if readiness == SchedulerReadiness::AttemptLeaseExpired {
                self.at(WorkerPhase::RecoveringExpiredAttempt)
            } else {
                self.at(WorkerPhase::CheckingPolicy { readiness })
            },
            (
                WorkerPhase::RecoveringExpiredAttempt,
                WorkerEvent::ExpiredAttemptRecorded { readiness },
            ) => self.at(WorkerPhase::CheckingPolicy { readiness }),
            (
                WorkerPhase::CheckingPolicy { readiness },
                WorkerEvent::PolicyChecked { network, power },
            ) => self.after_policy(readiness, self.policy.permits(network, power)),
            (WorkerPhase::Attempting, WorkerEvent::AttemptEnded { end }) => match end {
                AttemptEnd::Finished | AttemptEnd::PolicyBlocked | AttemptEnd::StateLocked => self.at(
                    WorkerPhase::ObservingAfterWakeup,
                ),
                AttemptEnd::Failed => self.failed(WorkerError::AttemptFailed),
                AttemptEnd::TimedOut => self.at(WorkerPhase::RecordingInterruption),
            },
            (
                WorkerPhase::RecordingInterruption,
                WorkerEvent::InterruptionRecorded { lifecycle },
            ) => if lifecycle.terminal() {
                self.ended(terminal_outcome(lifecycle))
            } else {
                self.ended(WorkerOutcome::RuntimeExpired)
            },
            (
                WorkerPhase::ObservingAfterWakeup,
                WorkerEvent::Observed { terminal, .. },
            ) => match terminal {
                Some(lifecycle) => self.ended(terminal_outcome(lifecycle)),
                None => self.at(WorkerPhase::BeginningWait),
            },
            (WorkerPhase::BeginningWait, WorkerEvent::WaitBegun { state }) => self.at(
                WorkerPhase::ObservingInWait { observed: state },
            ),
            (
                WorkerPhase::ObservingInWait { observed },
                WorkerEvent::Observed { terminal, runtime_over },
            ) => match terminal {
                Some(lifecycle) => self.ended(terminal_outcome(lifecycle)),
                None => if runtime_over {
                    self.ended(WorkerOutcome::RuntimeExpired)
                } else {
                    self.at(WorkerPhase::ReadingInWait { observed })
                },
            },
            (
                WorkerPhase::ReadingInWait { observed },
                WorkerEvent::StateRead { state, readiness, network, power },
            ) => self.after_reading(
                observed,
                state,
                readiness,
                self.policy.permits(network, power),
            ),
            (WorkerPhase::Sleeping { .. }, WorkerEvent::PlatformChanged) => self.woken(
                HistoryRecoveryWorkerWakeReason::PlatformChange,
            ),
            (WorkerPhase::Sleeping { observed, .. }, WorkerEvent::TimedOut) => self.at(
                WorkerPhase::ObservingInWait { observed },
            ),
            _ => self.failed(WorkerError::UnexpectedEvent),
        }
    }

    /// Starts a worker.
    pub fn start(options: WorkerOptions, policy: RecoveryExecutionPolicy) -> (r: Result<
        RecoveryWorker,
        WorkerError,
    >)
        ensures
            match options.fault() {
                Some(error) => r == Err::<RecoveryWorker, WorkerError>(error),
                None => r == Ok::<RecoveryWorker, WorkerError>(
                    RecoveryWorker {
                        policy,
                        max_wakeups: options.max_wakeups,
                        wake_count: 0,
                        wake_reason: HistoryRecoveryWorkerWakeReason::Initial,
                        phase: WorkerPhase::Observing,
                    },
                ),
            },
    {
        if let Err(error) = options.validate() {
            return Err(error);
        }
        Ok(
            RecoveryWorker {
                policy,
                max_wakeups: options.max_wakeups,
                wake_count: 0,
                wake_reason: HistoryRecoveryWorkerWakeReason::Initial,
                phase: WorkerPhase::Observing,
            },
        )
    }

    fn end(&mut self, outcome: WorkerOutcome)
        ensures
            *final(self) == old(self).ended(outcome),
    {
        self.phase = WorkerPhase::Done { outcome };
    }

    fn fail(&mut self, error: WorkerError)
        ensures
            *final(self) == old(self).failed(error),
    {
        self.phase = WorkerPhase::Done { outcome: WorkerOutcome::Failed { error } };
    }

    fn wake(&mut self, reason: HistoryRecoveryWorkerWakeReason)
        ensures
            *final(self) == old(self).woken(reason),
    {
        self.wake_reason = reason;
        self.phase = WorkerPhase::Observing;
    }

    fn policy_checked(&mut self, readiness: SchedulerReadiness, allowed: bool)
        ensures
            *final(self) == old(self).after_policy(readiness, allowed),
    {
        match readiness {
            SchedulerReadiness::Ready => {
                if allowed {
                    self.phase = WorkerPhase::Attempting;
                } else {
                    self.phase = WorkerPhase::ObservingAfterWakeup;
                }
            },
            SchedulerReadiness::Deferred { .. } => {
                self.phase = WorkerPhase::ObservingAfterWakeup;
            },
            SchedulerReadiness::ClockRollback { last_observed_unix_seconds } => self.fail(
                WorkerError::ClockRollback { last_observed_unix_seconds },
            ),
            SchedulerReadiness::AttemptLeaseExpired => self.fail(WorkerError::LeaseNotReconciled),
            SchedulerReadiness::Cancelled => self.end(WorkerOutcome::Cancelled),
            SchedulerReadiness::Completed => self.end(WorkerOutcome::Complete),
        }
    }

    fn state_read(
        &mut self,
        observed: Digest,
        state: Digest,
        readiness: SchedulerReadiness,
        allowed: bool,
    )
        ensures
            *final(self) == old(self).after_reading(observed, state, readiness, allowed),
    {
        if state != observed {
            self.wake(HistoryRecoveryWorkerWakeReason::SchedulerStateChange);
        } else {
            match readiness {
                SchedulerReadiness::ClockRollback { last_observed_unix_seconds } => self.fail(
                    WorkerError::ClockRollback { last_observed_unix_seconds },
                ),
                SchedulerReadiness::AttemptLeaseExpired => self.wake(
                    HistoryRecoveryWorkerWakeReason::SchedulerDeadline,
                ),
                SchedulerReadiness::Ready => {
                    if allowed {
                        self.wake(HistoryRecoveryWorkerWakeReason::SchedulerDeadline);
                    } else {
                        self.phase = WorkerPhase::Sleeping { observed, deadline: None };
                    }
                },
                SchedulerReadiness::Cancelled => self.end(WorkerOutcome::Cancelled),
                SchedulerReadiness::Completed => self.end(WorkerOutcome::Complete),
                SchedulerReadiness::Deferred { not_before_unix_seconds } => {
                    self.phase =
                    WorkerPhase::Sleeping { observed, deadline: Some(not_before_unix_seconds) };
                },
            }
        }
    }

    /// Takes an event. An event that does not belong to the phase ends the worker.
    pub fn watch_history_recovery_plan(&mut self, event: WorkerEvent)
        requires
            old(self).wf(),
        ensures
            final(self).wf(),
            *final(self) == old(self).next(event),
    {
        match (self.phase, event) {
            (WorkerPhase::Done { .. }, _) => {},
            (_, WorkerEvent::OutsideFailure) => self.fail(WorkerError::OutsideFailure),
            (WorkerPhase::Observing, WorkerEvent::Observed { terminal, runtime_over }) => {
                match terminal {
                    Some(lifecycle) => self.end(print_history_recovery_worker_terminal(lifecycle)),
                    None => {
                        if runtime_over {
                            self.end(WorkerOutcome::RuntimeExpired);
                        } else if self.wake_count >= self.max_wakeups {
                            self.end(WorkerOutcome::WakeupLimit);
                        } else {
                            self.wake_count = self.wake_count + 1;
                            self.phase = WorkerPhase::Preparing;
                        }
                    },
                }
            },
            (
                WorkerPhase::Preparing,
                WorkerEvent::Prepared { complete, lifecycle, readiness },
            ) => {
                if complete || lifecycle.is_terminal() {
                    self.end(print_history_recovery_worker_terminal(lifecycle));
                } else if readiness == SchedulerReadiness::AttemptLeaseExpired {
                    self.phase = WorkerPhase::RecoveringExpiredAttempt;
                } else {
                    self.phase = WorkerPhase::CheckingPolicy { readiness };
                }
            },
            (
                WorkerPhase::RecoveringExpiredAttempt,
                WorkerEvent::ExpiredAttemptRecorded { readiness },
            ) => {
                self.phase = WorkerPhase::CheckingPolicy { readiness };
            },
            (
                WorkerPhase::CheckingPolicy { readiness },
                WorkerEvent::PolicyChecked { network, power },
            ) => {
                let allowed = self.policy.allows(network, power);
                self.policy_checked(readiness, allowed);
            },
            (WorkerPhase::Attempting, WorkerEvent::AttemptEnded { end }) => match end {
                AttemptEnd::Finished | AttemptEnd::PolicyBlocked | AttemptEnd::StateLocked => {
                    self.phase = WorkerPhase::ObservingAfterWakeup;
                },
                AttemptEnd::Failed => self.fail(WorkerError::AttemptFailed),
                AttemptEnd::TimedOut => {
                    self.phase = WorkerPhase::RecordingInterruption;
                },
            },
            (
                WorkerPhase::RecordingInterruption,
                WorkerEvent::InterruptionRecorded { lifecycle },
            ) => {
                if lifecycle.is_terminal() {
                    self.end(print_history_recovery_worker_terminal(lifecycle));
                } else {
                    self.end(WorkerOutcome::RuntimeExpired);
                }
            },
            (WorkerPhase::ObservingAfterWakeup, WorkerEvent::Observed { terminal, .. }) => {
                match terminal {
                    Some(lifecycle) => self.end(print_history_recovery_worker_terminal(lifecycle)),
                    None => {
                        self.phase = WorkerPhase::BeginningWait;
                    },
                }
            },
            (WorkerPhase::BeginningWait, WorkerEvent::WaitBegun { state }) => {
                self.phase = WorkerPhase::ObservingInWait { observed: state };
            },
            (
                WorkerPhase::ObservingInWait { observed },
                WorkerEvent::Observed { terminal, runtime_over },
            ) => {
                match terminal {
                    Some(lifecycle) => self.end(print_history_recovery_worker_terminal(lifecycle)),
                    None => {
                        if runtime_over {
                            self.end(WorkerOutcome::RuntimeExpired);
                        } else {
                            self.phase = WorkerPhase::ReadingInWait { observed };
                        }
                    },
                }
            },
            (
                WorkerPhase::ReadingInWait { observed },
                WorkerEvent::StateRead { state, readiness, network, power },
            ) => {
                let allowed = self.policy.allows(network, power);
                self.state_read(observed, state, readiness, allowed);
            },
            (WorkerPhase::Sleeping { .. }, WorkerEvent::PlatformChanged) => self.wake(
                HistoryRecoveryWorkerWakeReason::PlatformChange,
            ),
            (WorkerPhase::Sleeping { observed, .. }, WorkerEvent::TimedOut) => {
                self.phase = WorkerPhase::ObservingInWait { observed };
            },
            _ => self.fail(WorkerError::UnexpectedEvent),
        }
    }
}

/// The worker that a sequence of events leads to.
pub open spec fn work_through(worker: RecoveryWorker, events: Seq<WorkerEvent>) -> RecoveryWorker
    decreases events.len(),
{
    if events.len() == 0 {
        worker
    } else {
        work_through(worker, events.drop_last()).next(events.last())
    }
}

/// Whatever happens, a worker never wakes up more often than it may, its policy never changes,
/// and once it has ended it stays as it is.
pub proof fn worker_is_bounded(worker: RecoveryWorker, events: Seq<WorkerEvent>)
    requires
        worker.wf(),
    ensures
        work_through(worker, events).wf(),
        work_through(worker, events).max_wakeups == worker.max_wakeups,
        work_through(worker, events).wake_count >= worker.wake_count,
        work_through(worker, events).policy == worker.policy,
        worker.phase is Done ==> work_through(worker, events) == worker,
    decreases events.len(),
{
    if events.len() > 0 {
        worker_is_bounded(worker, events.drop_last());
    }
}

/// A worker attempts a plan only in a wakeup whose scheduler state was ready and whose network
/// and power the policy permits.
pub proof fn worker_obeys_policy(worker: RecoveryWorker, event: WorkerEvent)
    requires
        worker.phase != WorkerPhase::Attempting,
        worker.next(event).phase == WorkerPhase::Attempting,
    ensures
        worker.phase == (WorkerPhase::CheckingPolicy { readiness: SchedulerReadiness::Ready }),
        event matches WorkerEvent::PolicyChecked { network, power } && worker.policy.permits(
            network,
            power,
        ),
{
}

/// A worker that sees a cancelled or completed scheduler state ends there: it neither attempts
/// the plan nor waits.
pub proof fn worker_stops_on_terminal_state(
    worker: RecoveryWorker,
    lifecycle: SchedulerLifecycle,
    runtime_over: bool,
)
    requires
        lifecycle.terminal(),
        worker.phase is Observing || worker.phase is ObservingAfterWakeup
            || worker.phase is ObservingInWait,
    ensures
        worker.next(
            WorkerEvent::Observed { terminal: Some(lifecycle), runtime_over },
        ).phase == (WorkerPhase::Done {
            outcome: if lifecycle == SchedulerLifecycle::Cancelled {
                WorkerOutcome::Cancelled
            } else {
                WorkerOutcome::Complete
            },
        }),
{
}

/// Options are usable exactly where each lies in its range; the first that does not names the
/// error.
pub proof fn usable_worker_options_lie_in_range(options: WorkerOptions)
    ensures
        ({
            let fault = options.fault();
            let wakes = 0 < options.max_wakeups && options.max_wakeups <= 1_024;
            let runs = 0 < options.max_runtime_seconds && options.max_runtime_seconds <= 86_400;
            let polls = 0 < options.cancel_poll_seconds && options.cancel_poll_seconds <= 30;
            let discovers = 0 < options.discovery_wait_seconds
                && options.discovery_wait_seconds <= 30;
            let pages = 0 < options.max_pages && options.max_pages <= 64;
            &&& fault == Some(WorkerError::WakeupsOutOfRange) <==> !wakes
            &&& fault == Some(WorkerError::RuntimeOutOfRange) <==> wakes && !runs
            &&& fault == Some(WorkerError::CancelPollOutOfRange) <==> wakes && runs && !polls
            &&& fault == Some(WorkerError::DiscoveryWaitOutOfRange) <==> wakes && runs && polls
                && !discovers
            &&& fault == Some(WorkerError::PagesOutOfRange) <==> wakes && runs && polls
                && discovers && !pages
            &&& fault is None <==> wakes && runs && polls && discovers && pages
        }),
{
}

/// A worker waits for the shortest of its poll, what is left of its runtime and the time to the
/// scheduler's deadline, which counts for one second at least.
pub proof fn worker_waits_for_the_shortest(
    cancel_poll: TimeSpan,
    runtime_remaining: TimeSpan,
    now: u64,
    deadline: u64,
)
    ensures
        ({
            let wait = worker_wait(cancel_poll, runtime_remaining, None).nanos;
            &&& wait <= cancel_poll.nanos && wait <= runtime_remaining.nanos
            &&& wait == cancel_poll.nanos || wait == runtime_remaining.nanos
        }),
        ({
            let wait = worker_wait(cancel_poll, runtime_remaining, Some((now, deadline))).nanos;
            let seconds = if deadline <= now {
                1
            } else {
                deadline - now
            };
            &&& wait <= cancel_poll.nanos
            &&& wait <= runtime_remaining.nanos
            &&& wait <= seconds * 1_000_000_000
            &&& wait == cancel_poll.nanos || wait == runtime_remaining.nanos || wait == seconds
                * 1_000_000_000
        }),
{
}

/// A worker ends as cancelled or complete exactly for the two terminal states.
pub proof fn terminal_state_decides_the_outcome(lifecycle: SchedulerLifecycle)
    ensures
        terminal_outcome(lifecycle) == WorkerOutcome::Cancelled <==> lifecycle
            == SchedulerLifecycle::Cancelled,
        terminal_outcome(lifecycle) == WorkerOutcome::Complete <==> lifecycle
            == SchedulerLifecycle::Completed,
        terminal_outcome(lifecycle) == (WorkerOutcome::Failed { error: WorkerError::NotTerminal })
            <==> lifecycle == SchedulerLifecycle::Active || lifecycle
            == SchedulerLifecycle::Attempting,
{
}

/// A worker wakes up exactly where no state is terminal, its runtime is not over and a wakeup is
/// left, and counts that wakeup; it starts an attempt exactly where the scheduler is ready and the
/// policy permits it, and waits after one that finished, was forbidden or found the state locked.
pub proof fn worker_goes_step_by_step(
    worker: RecoveryWorker,
    event: WorkerEvent,
    readiness: SchedulerReadiness,
    digest: Digest,
)
    requires
        worker.wf(),
        worker.phase !is Done,
    ensures
        ({
            let (before, after) = (worker.phase, worker.next(event).phase);
            let unobserved = event matches WorkerEvent::Observed { terminal, .. } && terminal
                is None;
            let over = event matches WorkerEvent::Observed { runtime_over, .. } && runtime_over;
            let wakes = before == WorkerPhase::Observing && unobserved && !over && worker.wake_count
                < worker.max_wakeups;
            let checked = before is CheckingPolicy && event is PolicyChecked;
            let permitted = event matches WorkerEvent::PolicyChecked { network, power }
                && worker.policy.permits(network, power);
            let open = event matches WorkerEvent::Prepared { complete, lifecycle, .. } && !complete
                && !lifecycle.terminal();
            &&& after == WorkerPhase::Preparing <==> wakes
            &&& worker.next(event).wake_count == worker.wake_count + (if wakes {
                1int
            } else {
                0
            })
            &&& after == WorkerPhase::RecoveringExpiredAttempt <==> before == WorkerPhase::Preparing
                && open && (event matches WorkerEvent::Prepared { readiness, .. } && readiness
                == SchedulerReadiness::AttemptLeaseExpired)
            &&& after == (WorkerPhase::CheckingPolicy { readiness }) <==> {
                ||| before == WorkerPhase::Preparing && open && readiness
                    != SchedulerReadiness::AttemptLeaseExpired && (
                event matches WorkerEvent::Prepared { readiness: found, .. } && found == readiness)
                ||| before == WorkerPhase::RecoveringExpiredAttempt && event == (
                WorkerEvent::ExpiredAttemptRecorded { readiness })
            }
            &&& after == WorkerPhase::Attempting <==> before == (WorkerPhase::CheckingPolicy {
                readiness: SchedulerReadiness::Ready,
            }) && permitted
            &&& after == WorkerPhase::RecordingInterruption <==> before == WorkerPhase::Attempting
                && event == (WorkerEvent::AttemptEnded { end: AttemptEnd::TimedOut })
            &&& after == WorkerPhase::ObservingAfterWakeup <==> {
                ||| checked && (before == (WorkerPhase::CheckingPolicy {
                    readiness: SchedulerReadiness::Ready,
                }) && !permitted || before->readiness is Deferred)
                ||| before == WorkerPhase::Attempting && (event matches WorkerEvent::AttemptEnded {
                    end,
                } && (end == AttemptEnd::Finished || end == AttemptEnd::PolicyBlocked || end
                    == AttemptEnd::StateLocked))
            }
            &&& after == WorkerPhase::BeginningWait <==> before == WorkerPhase::ObservingAfterWakeup
                && unobserved
            &&& after == (WorkerPhase::ObservingInWait { observed: digest }) <==> {
                ||| before == WorkerPhase::BeginningWait && event == (WorkerEvent::WaitBegun {
                    state: digest,
                })
                ||| event == WorkerEvent::TimedOut && (before matches WorkerPhase::Sleeping {
                    observed,
                    ..
                } && observed == digest)
            }
            &&& after == (WorkerPhase::ReadingInWait { observed: digest }) <==> before == (
            WorkerPhase::ObservingInWait { observed: digest }) && unobserved && !over
            &&& worker.next(event).policy == worker.policy
            &&& worker.next(event).max_wakeups == worker.max_wakeups
        }),
{
}

/// A worker wakes from its wait for exactly the reason that there is: the scheduler state changed,
/// its deadline or lease is over and the policy permits to go on, or the platform changed. It
/// sleeps exactly where the same state asks to wait, up to the time that it names, or where it is
/// ready and the policy forbids it.
pub proof fn worker_wakes_for_its_reason(
    worker: RecoveryWorker,
    event: WorkerEvent,
    reason: HistoryRecoveryWorkerWakeReason,
)
    requires
        worker.phase !is Done,
        worker.phase != WorkerPhase::Observing,
    ensures
        ({
            let (before, after) = (worker.phase, worker.next(event));
            let read = before is ReadingInWait && event is StateRead;
            let changed = event matches WorkerEvent::StateRead { state, .. } && before
                != (WorkerPhase::ReadingInWait { observed: state });
            let readiness = event->StateRead_readiness;
            let permitted = event matches WorkerEvent::StateRead { network, power, .. }
                && worker.policy.permits(network, power);
            let deadline = read && !changed && (readiness == SchedulerReadiness::AttemptLeaseExpired
                || (readiness == SchedulerReadiness::Ready && permitted));
            let platform = before is Sleeping && event == WorkerEvent::PlatformChanged;
            &&& after.phase == WorkerPhase::Observing <==> platform || deadline || (read && changed)
            &&& after.phase == WorkerPhase::Observing ==> after.wake_reason == if platform {
                HistoryRecoveryWorkerWakeReason::PlatformChange
            } else if changed {
                HistoryRecoveryWorkerWakeReason::SchedulerStateChange
            } else {
                HistoryRecoveryWorkerWakeReason::SchedulerDeadline
            }
            &&& after.phase != WorkerPhase::Observing ==> after.wake_reason == worker.wake_reason
            &&& after.phase is Sleeping <==> read && !changed && (readiness is Deferred
                || (readiness
                == SchedulerReadiness::Ready && !permitted))
            &&& after.phase matches WorkerPhase::Sleeping { observed, deadline } ==> before == (
            WorkerPhase::ReadingInWait { observed }) && deadline == match readiness {
                SchedulerReadiness::Deferred { not_before_unix_seconds } => Some(
                    not_before_unix_seconds,
                ),
                _ => None,
            }
        }),
{
}

/// A worker ends as it was told: for a terminal state as that state says, for an interrupted
/// attempt or at the end of its runtime as expired, and at the limit of its wakeups as limited.
pub proof fn worker_ends_as_it_was_told(worker: RecoveryWorker, event: WorkerEvent)
    requires
        worker.wf(),
        worker.phase !is Done,
    ensures
        ({
            let (before, after) = (worker.phase, worker.next(event).phase);
            let ended = |outcome: WorkerOutcome| after == (WorkerPhase::Done { outcome });
            let failed = |error: WorkerError| ended(WorkerOutcome::Failed { error });
            let unobserved = event matches WorkerEvent::Observed { terminal, .. } && terminal
                is None;
            let over = event matches WorkerEvent::Observed { runtime_over, .. } && runtime_over;
            let told = |state: SchedulerLifecycle, ready: SchedulerReadiness|
                {
                    ||| (before is Observing || before is ObservingAfterWakeup || before
                        is ObservingInWait) && (event matches WorkerEvent::Observed {
                        terminal: Some(found),
                        ..
                    } && found == state)
                    ||| before == WorkerPhase::Preparing && (event matches WorkerEvent::Prepared {
                        lifecycle,
                        ..
                    } && lifecycle == state)
                    ||| before == WorkerPhase::RecordingInterruption && event == (
                    WorkerEvent::InterruptionRecorded { lifecycle: state })
                    ||| before == (WorkerPhase::CheckingPolicy { readiness: ready }) && event
                        is PolicyChecked
                    ||| before is ReadingInWait && (event matches WorkerEvent::StateRead {
                        state: read,
                        readiness,
                        ..
                    } && before->ReadingInWait_observed == read && readiness == ready)
                };
            &&& ended(WorkerOutcome::Cancelled) <==> told(
                SchedulerLifecycle::Cancelled,
                SchedulerReadiness::Cancelled,
            )
            &&& ended(WorkerOutcome::Complete) <==> told(
                SchedulerLifecycle::Completed,
                SchedulerReadiness::Completed,
            )
            &&& ended(WorkerOutcome::RuntimeExpired) <==> {
                ||| (before is Observing || before is ObservingInWait) && unobserved && over
                ||| before == WorkerPhase::RecordingInterruption && (
                event matches WorkerEvent::InterruptionRecorded { lifecycle } && (lifecycle
                    == SchedulerLifecycle::Active || lifecycle == SchedulerLifecycle::Attempting))
            }
            &&& ended(WorkerOutcome::WakeupLimit) <==> before == WorkerPhase::Observing
                && unobserved && !over && worker.wake_count == worker.max_wakeups
            &&& failed(WorkerError::OutsideFailure) <==> event == WorkerEvent::OutsideFailure
            &&& failed(WorkerError::AttemptFailed) <==> before == WorkerPhase::Attempting && event
                == (WorkerEvent::AttemptEnded { end: AttemptEnd::Failed })
            &&& failed(WorkerError::LeaseNotReconciled)
                <==> before == (WorkerPhase::CheckingPolicy {
                readiness: SchedulerReadiness::AttemptLeaseExpired,
            }) && event is PolicyChecked
        }),
{
}

/// A clock that ran back ends a worker with the time that was seen before.
pub proof fn worker_refuses_a_clock_that_ran_back(
    worker: RecoveryWorker,
    event: WorkerEvent,
    last_observed_unix_seconds: u64,
)
    requires
        worker.phase !is Done,
    ensures
        worker.next(event).phase == (WorkerPhase::Done {
            outcome: WorkerOutcome::Failed {
                error: WorkerError::ClockRollback { last_observed_unix_seconds },
            },
        }) <==> {
            let rolled_back = SchedulerReadiness::ClockRollback { last_observed_unix_seconds };
            ||| worker.phase == (WorkerPhase::CheckingPolicy { readiness: rolled_back }) && event
                is PolicyChecked
            ||| worker.phase is ReadingInWait && (event matches WorkerEvent::StateRead {
                state,
                readiness,
                ..
            } && readiness == rolled_back && worker.phase == (WorkerPhase::ReadingInWait {
                observed: state,
            }))
        },
{
}

} // verus!
