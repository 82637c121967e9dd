//! The recovery scheduler: one bounded run of an approved plan, as a machine from events to
//! phases, and the decisions on the signed scheduler state.

use crate::identity::ProtocolLimits;
use crate::ids::{ConversationId, DeviceId, Digest};
use crate::recovery_discovery::MAX_DISCOVERY_WAIT_SECONDS;
use crate::recovery_plan::{
    RecoveryExecutionPolicy, RecoveryNetworkClass, RecoveryPowerSource, SignedHistoryRecoveryPlan,
};
use vstd::prelude::*;

verus! {

pub const DEFAULT_HISTORY_RECOVERY_SCHEDULER_ATTEMPTS: usize = 3;

pub const MAX_HISTORY_RECOVERY_SCHEDULER_ATTEMPTS: usize = 8;

pub const MAX_HISTORY_RECOVERY_PAGES_PER_SESSION: usize = 64;

pub const CONNECTION_TIMEOUT_SECONDS: u64 = 30;

pub const ROUTE_POLICY_WAIT_SECONDS: u64 = 15;

pub const CLIENT_RELAY_WAIT_SECONDS: u64 = 30;

pub const STREAM_OPEN_TIMEOUT_SECONDS: u64 = 15;

pub const HISTORY_RECOVERY_NEXT_PAGE_TIMEOUT_SECONDS: u64 = 60;

/// Where a scheduled recovery stands.
#[derive(Clone, Copy, Debug, PartialEq, Eq, Structural)]
pub enum SchedulerLifecycle {
    Active,
    Attempting,
    Completed,
    Cancelled,
}

impl SchedulerLifecycle {
    /// Nothing can happen any more.
    pub open spec fn terminal(self) -> bool {
        self == SchedulerLifecycle::Completed || self == SchedulerLifecycle::Cancelled
    }

    /// Whether nothing can happen any more.
    pub fn is_terminal(self) -> (r: bool)
        ensures
            r == self.terminal(),
    {
        match self {
            SchedulerLifecycle::Completed | SchedulerLifecycle::Cancelled => true,
            SchedulerLifecycle::Active | SchedulerLifecycle::Attempting => false,
        }
    }
}

/// What a scheduled recovery may do at a time.
#[derive(Clone, Copy, Debug, PartialEq, Eq, Structural)]
pub enum SchedulerReadiness {
    Ready,
    Deferred { not_before_unix_seconds: u64 },
    ClockRollback { last_observed_unix_seconds: u64 },
    AttemptLeaseExpired,
    Cancelled,
    Completed,
}

/// How an attempt ended.
#[derive(Clone, Copy, Debug, PartialEq, Eq, Structural)]
pub enum SchedulerAttemptResult {
    Failed,
    Progressed,
    Completed,
}

/// Where a run tests the execution policy.
#[derive(Clone, Copy, Debug, PartialEq, Eq, Structural)]
pub enum PolicyStage {
    Initial,
    BeforeDiscovery,
    BeforeConnect,
}

impl PolicyStage {
    /// The name of the stage.
    pub fn as_str(self) -> (r: &'static str)
        ensures
            r@ == match self {
                PolicyStage::Initial => "initial"@,
                PolicyStage::BeforeDiscovery => "before-discovery"@,
                PolicyStage::BeforeConnect => "before-connect"@,
            },
    {
        match self {
            PolicyStage::Initial => "initial",
            PolicyStage::BeforeDiscovery => "before-discovery",
            PolicyStage::BeforeConnect => "before-connect",
        }
    }
}

/// Why the scheduler refuses or ends a run.
#[derive(Clone, Copy, Debug, PartialEq, Eq, Structural)]
pub enum SchedulerError {
    AttemptsOutOfRange,
    DiscoveryWaitOutOfRange,
    PagesOutOfRange,
    LeasePagesOverflow,
    LeaseOverflow,
    LeaseTooLong,
    PolicyBlocked { stage: PolicyStage },
    CompleteWithoutCheckpoint,
    ClockRollback { last_observed_unix_seconds: u64 },
    LeaseNotReconciled,
    LeaseExpiredWhileWaiting,
    LeaseReplaced,
    LeaseNotExpired,
    AttemptStillInProgress,
    PlanInvalid,
    ConversationMismatch,
    NotThePlanRecipient,
    NotInitialized,
    AlreadyCompleted,
    OutsideFailure,
    UnexpectedEvent,
}

/// Tests the options of a run.
pub fn validate_run_options(max_attempts: usize, discovery_wait_seconds: u64, max_pages: usize) -> (r:
    Result<(), SchedulerError>)
    ensures
        r == if !(1 <= max_attempts <= MAX_HISTORY_RECOVERY_SCHEDULER_ATTEMPTS) {
            Err(SchedulerError::AttemptsOutOfRange)
        } else if !(1 <= discovery_wait_seconds <= MAX_DISCOVERY_WAIT_SECONDS) {
            Err(SchedulerError::DiscoveryWaitOutOfRange)
        } else if !(1 <= max_pages <= MAX_HISTORY_RECOVERY_PAGES_PER_SESSION) {
            Err(SchedulerError::PagesOutOfRange)
        } else {
            Ok(())
        },
{
    if !(1 <= max_attempts && max_attempts <= MAX_HISTORY_RECOVERY_SCHEDULER_ATTEMPTS) {
        return Err(SchedulerError::AttemptsOutOfRange);
    }
    if !(1 <= discovery_wait_seconds && discovery_wait_seconds <= MAX_DISCOVERY_WAIT_SECONDS) {
        return Err(SchedulerError::DiscoveryWaitOutOfRange);
    }
    if !(1 <= max_pages && max_pages <= MAX_HISTORY_RECOVERY_PAGES_PER_SESSION) {
        return Err(SchedulerError::PagesOutOfRange);
    }
    Ok(())
}

/// The longest that an attempt can take: discovery, connecting, the route, the relay, every
/// page, and a minute more.
pub open spec fn attempt_bound(discovery_wait_seconds: u64, max_pages: usize) -> int {
    discovery_wait_seconds + CONNECTION_TIMEOUT_SECONDS + ROUTE_POLICY_WAIT_SECONDS
        + CLIENT_RELAY_WAIT_SECONDS + max_pages * HISTORY_RECOVERY_NEXT_PAGE_TIMEOUT_SECONDS + 60
}

/// The seconds for which an attempt holds its lease.
pub open spec fn attempt_lease(
    discovery_wait_seconds: u64,
    max_pages: usize,
    max_lease_seconds: u64,
) -> Result<u64, SchedulerError> {
    let bound = attempt_bound(discovery_wait_seconds, max_pages);
    if max_pages * HISTORY_RECOVERY_NEXT_PAGE_TIMEOUT_SECONDS > u64::MAX {
        Err(SchedulerError::LeasePagesOverflow)
    } else if bound > u64::MAX {
        Err(SchedulerError::LeaseOverflow)
    } else if bound > max_lease_seconds {
        Err(SchedulerError::LeaseTooLong)
    } else {
        Ok(bound as u64)
    }
}

/// The seconds for which an attempt holds its lease, which is never zero.
pub fn history_recovery_attempt_lease_seconds(
    discovery_wait_seconds: u64,
    max_pages: usize,
    max_lease_seconds: u64,
) -> (r: Result<u64, SchedulerError>)
    ensures
        r == attempt_lease(discovery_wait_seconds, max_pages, max_lease_seconds),
        r matches Ok(seconds) ==> seconds >= 1,
{
    let page_seconds: u64 = match (max_pages as u64).checked_mul(
        HISTORY_RECOVERY_NEXT_PAGE_TIMEOUT_SECONDS,
    ) {
        None => {
            return Err(SchedulerError::LeasePagesOverflow);
        },
        Some(seconds) => seconds,
    };
    let fixed: u64 = CONNECTION_TIMEOUT_SECONDS + ROUTE_POLICY_WAIT_SECONDS
        + CLIENT_RELAY_WAIT_SECONDS + 60;
    let partial: u64 = match discovery_wait_seconds.checked_add(fixed) {
        None => {
            return Err(SchedulerError::LeaseOverflow);
        },
        Some(seconds) => seconds,
    };
    let seconds: u64 = match partial.checked_add(page_seconds) {
        None => {
            return Err(SchedulerError::LeaseOverflow);
        },
        Some(seconds) => seconds,
    };
    if seconds > max_lease_seconds {
        return Err(SchedulerError::LeaseTooLong);
    }
    Ok(seconds)
}

/// How a run ended.
#[derive(Clone, Copy, Debug, PartialEq, Eq, Structural)]
pub enum RunOutcome {
    Complete,
    Cancelled,
    Deferred,
    Scheduled,
    Failed { error: SchedulerError },
}

/// What a run is doing, which tells its driver what to do next.
#[derive(Clone, Copy, Debug, PartialEq, Eq, Structural)]
pub enum RunPhase {
    /// Verify the plan locally, load the scheduler state and read the platform context.
    Preparing,
    /// Record the failure of an attempt whose lease ran out.
    RecoveringExpiredAttempt,
    /// Verify the plan at the present time and read the platform context again.
    CheckingAttempt,
    /// Under the state lock, start an attempt if the scheduler state is ready.
    OpeningAttempt,
    /// Scan the local network for a link of the plan's terms.
    Discovering,
    /// See whether the attempt still holds its lease.
    CheckingLease,
    /// Read the platform context once more, before connecting.
    CheckingConnection,
    /// Connect and transfer history.
    Transferring,
    /// Read the recovery checkpoint.
    ReadingCheckpoint,
    /// Record the result of the attempt.
    Finalizing { result: SchedulerAttemptResult, after_scan_failure: bool },
    /// Wait until the scheduler state is ready again.
    Waiting,
    /// Nothing more.
    Done { outcome: RunOutcome },
}

/// What happened outside.
#[derive(Clone, Copy, Debug, PartialEq, Eq, Structural)]
pub enum RunEvent {
    Prepared {
        complete: bool,
        lifecycle: SchedulerLifecycle,
        readiness: SchedulerReadiness,
        network: RecoveryNetworkClass,
        power: RecoveryPowerSource,
    },
    ExpiredAttemptRecorded,
    AttemptChecked { plan_valid: bool, network: RecoveryNetworkClass, power: RecoveryPowerSource },
    AttemptOpened { readiness: SchedulerReadiness },
    Scanned { candidates: usize, candidate_limit_reached: bool },
    ScanFailed,
    LeaseChecked { current: bool },
    ConnectionChecked { network: RecoveryNetworkClass, power: RecoveryPowerSource },
    TransferEnded { succeeded: bool },
    CheckpointRead { complete: bool },
    AttemptFinalized { lifecycle: SchedulerLifecycle },
    DeadlineReached,
    OutsideFailure,
}

/// A run of a plan.
#[derive(Clone, Copy, Debug)]
pub struct RecoveryRun {
    pub policy: RecoveryExecutionPolicy,
    pub lease: Result<u64, SchedulerError>,
    pub max_attempts: usize,
    pub attempt: usize,
    pub phase: RunPhase,
}

impl RecoveryRun {
    /// The same run in another phase.
    pub open spec fn at(self, phase: RunPhase) -> RecoveryRun {
        RecoveryRun { phase, ..self }
    }

    /// The same run, ended.
    pub open spec fn ended(self, outcome: RunOutcome) -> RecoveryRun {
        self.at(RunPhase::Done { outcome })
    }

    /// The same run, ended by an error.
    pub open spec fn failed(self, error: SchedulerError) -> RecoveryRun {
        self.ended(RunOutcome::Failed { error })
    }

    /// The same run at the start of its next attempt.
    pub open spec fn next_attempt(self) -> RecoveryRun {
        RecoveryRun {
            attempt: (self.attempt + 1) as usize,
            phase: RunPhase::CheckingAttempt,
            ..self
        }
    }

    /// The phase after an attempt that neither completed nor was cancelled.
    pub open spec fn again_or_later(self) -> RecoveryRun {
        if self.attempt < self.max_attempts {
            self.at(RunPhase::Waiting)
        } else {
            self.ended(RunOutcome::Scheduled)
        }
    }

    /// What a run keeps in every phase.
    pub open spec fn wf(self) -> bool {
        &&& 1 <= self.max_attempts
        &&& self.attempt <= self.max_attempts
        &&& self.phase == RunPhase::Waiting ==> self.attempt < self.max_attempts
        &&& (self.phase == RunPhase::Preparing || self.phase == RunPhase::RecoveringExpiredAttempt)
            ==> self.attempt == 0
    }

    /// What follows the preparation.
    pub open spec fn after_preparation(
        self,
        complete: bool,
        lifecycle: SchedulerLifecycle,
        readiness: SchedulerReadiness,
        network: RecoveryNetworkClass,
        power: RecoveryPowerSource,
    ) -> RecoveryRun {
        if complete || lifecycle == SchedulerLifecycle::Completed {
            self.ended(RunOutcome::Complete)
        } else if lifecycle == SchedulerLifecycle::Cancelled {
            self.ended(RunOutcome::Cancelled)
        } else if !self.policy.permits(network, power) {
            self.failed(SchedulerError::PolicyBlocked { stage: PolicyStage::Initial })
        } else {
            match readiness {
                SchedulerReadiness::Cancelled => self.ended(RunOutcome::Cancelled),
                SchedulerReadiness::Completed => self.failed(
                    SchedulerError::CompleteWithoutCheckpoint,
                ),
                SchedulerReadiness::ClockRollback { last_observed_unix_seconds } => self.failed(
                    SchedulerError::ClockRollback { last_observed_unix_seconds },
                ),
                SchedulerReadiness::AttemptLeaseExpired => self.at(
                    RunPhase::RecoveringExpiredAttempt,
                ),
                SchedulerReadiness::Deferred { .. } => self.ended(RunOutcome::Deferred),
                SchedulerReadiness::Ready => match self.lease {
                    Err(error) => self.failed(error),
                    Ok(_) => self.next_attempt(),
                },
            }
        }
    }

    /// What follows an event.
    pub open spec fn next(self, event: RunEvent) -> RecoveryRun {
        match (self.phase, event) {
            (RunPhase::Done { .. }, _) => self,
            (_, RunEvent::OutsideFailure) => self.failed(SchedulerError::OutsideFailure),
            (
                RunPhase::Preparing,
                RunEvent::Prepared { complete, lifecycle, readiness, network, power },
            ) => self.after_preparation(complete, lifecycle, readiness, network, power),
            (RunPhase::RecoveringExpiredAttempt, RunEvent::ExpiredAttemptRecorded) => self.ended(
                RunOutcome::Deferred,
            ),
            (
                RunPhase::CheckingAttempt,
                RunEvent::AttemptChecked { plan_valid, network, power },
            ) => if !plan_valid {
                self.failed(SchedulerError::PlanInvalid)
            } else if self.policy.permits(network, power) {
                self.at(RunPhase::OpeningAttempt)
            } else {
                self.failed(SchedulerError::PolicyBlocked { stage: PolicyStage::BeforeDiscovery })
            },
            (RunPhase::OpeningAttempt, RunEvent::AttemptOpened { readiness }) => match readiness {
                SchedulerReadiness::Ready => self.at(RunPhase::Discovering),
                SchedulerReadiness::Cancelled => self.ended(RunOutcome::Cancelled),
                SchedulerReadiness::Completed => self.ended(RunOutcome::Complete),
                SchedulerReadiness::Deferred { .. } => self.ended(RunOutcome::Deferred),
                SchedulerReadiness::ClockRollback { last_observed_unix_seconds } => self.failed(
                    SchedulerError::ClockRollback { last_observed_unix_seconds },
                ),
                SchedulerReadiness::AttemptLeaseExpired => self.failed(
                    SchedulerError::LeaseNotReconciled,
                ),
            },
            (RunPhase::Discovering, RunEvent::ScanFailed) => self.at(
                RunPhase::Finalizing {
                    result: SchedulerAttemptResult::Failed,
                    after_scan_failure: true,
                },
            ),
            (
                RunPhase::Discovering,
                RunEvent::Scanned { candidates, candidate_limit_reached },
            ) => if candidates == 1 && !candidate_limit_reached {
                self.at(RunPhase::CheckingLease)
            } else {
                self.finalizing(SchedulerAttemptResult::Failed)
            },
            (RunPhase::CheckingLease, RunEvent::LeaseChecked { current }) => if current {
                self.at(RunPhase::CheckingConnection)
            } else {
                self.ended(RunOutcome::Cancelled)
            },
            (RunPhase::CheckingConnection, RunEvent::ConnectionChecked { network, power }) => if
            self.policy.permits(network, power) {
                self.at(RunPhase::Transferring)
            } else {
                self.finalizing(SchedulerAttemptResult::Failed)
            },
            (RunPhase::Transferring, RunEvent::TransferEnded { succeeded }) => if succeeded {
                self.at(RunPhase::ReadingCheckpoint)
            } else {
                self.finalizing(SchedulerAttemptResult::Failed)
            },
            (RunPhase::ReadingCheckpoint, RunEvent::CheckpointRead { complete }) => if complete {
                self.finalizing(SchedulerAttemptResult::Completed)
            } else {
                self.finalizing(SchedulerAttemptResult::Progressed)
            },
            (
                RunPhase::Finalizing { after_scan_failure, .. },
                RunEvent::AttemptFinalized { lifecycle },
            ) => if lifecycle == SchedulerLifecycle::Cancelled {
                self.ended(RunOutcome::Cancelled)
            } else if after_scan_failure || lifecycle == SchedulerLifecycle::Active {
                self.again_or_later()
            } else if lifecycle == SchedulerLifecycle::Completed {
                self.ended(RunOutcome::Complete)
            } else {
                self.failed(SchedulerError::AttemptStillInProgress)
            },
            (RunPhase::Waiting, RunEvent::DeadlineReached) => self.next_attempt(),
            _ => self.failed(SchedulerError::UnexpectedEvent),
        }
    }

    /// The same run, recording a result.
    pub open spec fn finalizing(self, result: SchedulerAttemptResult) -> RecoveryRun {
        self.at(RunPhase::Finalizing { result, after_scan_failure: false })
    }

    /// Starts a run of a plan with these options.
    pub fn start(
        policy: RecoveryExecutionPolicy,
        max_attempts: usize,
        discovery_wait_seconds: u64,
        max_pages: usize,
        max_lease_seconds: u64,
    ) -> (r: Result<RecoveryRun, SchedulerError>)
        ensures
            match r {
                Ok(run) => {
                    &&& 1 <= max_attempts <= MAX_HISTORY_RECOVERY_SCHEDULER_ATTEMPTS
                    &&& 1 <= discovery_wait_seconds <= MAX_DISCOVERY_WAIT_SECONDS
                    &&& 1 <= max_pages <= MAX_HISTORY_RECOVERY_PAGES_PER_SESSION
                    &&& run.wf()
                    &&& run.policy == policy
                    &&& run.max_attempts == max_attempts
                    &&& run.lease == attempt_lease(
                        discovery_wait_seconds,
                        max_pages,
                        max_lease_seconds,
                    )
                    &&& run.attempt == 0
                    &&& run.phase == RunPhase::Preparing
                },
                Err(SchedulerError::AttemptsOutOfRange) => !(1 <= max_attempts
                    <= MAX_HISTORY_RECOVERY_SCHEDULER_ATTEMPTS),
                Err(SchedulerError::DiscoveryWaitOutOfRange) => {
                    &&& 1 <= max_attempts <= MAX_HISTORY_RECOVERY_SCHEDULER_ATTEMPTS
                    &&& !(1 <= discovery_wait_seconds <= MAX_DISCOVERY_WAIT_SECONDS)
                },
                Err(error) => {
                    &&& error == SchedulerError::PagesOutOfRange
                    &&& 1 <= max_attempts <= MAX_HISTORY_RECOVERY_SCHEDULER_ATTEMPTS
                    &&& 1 <= discovery_wait_seconds <= MAX_DISCOVERY_WAIT_SECONDS
                    &&& !(1 <= max_pages <= MAX_HISTORY_RECOVERY_PAGES_PER_SESSION)
                },
            },
    {
        if let Err(error) = validate_run_options(max_attempts, discovery_wait_seconds, max_pages) {
            return Err(error);
        }
        Ok(
            RecoveryRun {
                policy,
                lease: history_recovery_attempt_lease_seconds(
                    discovery_wait_seconds,
                    max_pages,
                    max_lease_seconds,
                ),
                max_attempts,
                attempt: 0,
                phase: RunPhase::Preparing,
            },
        )
    }

    fn end(&mut self, outcome: RunOutcome)
        ensures
            *final(self) == old(self).ended(outcome),
    {
        self.phase = RunPhase::Done { outcome };
    }

    fn fail(&mut self, error: SchedulerError)
        ensures
            *final(self) == old(self).failed(error),
    {
        self.phase = RunPhase::Done { outcome: RunOutcome::Failed { error } };
    }

    fn finalize(&mut self, result: SchedulerAttemptResult)
        ensures
            *final(self) == old(self).finalizing(result),
    {
        self.phase = RunPhase::Finalizing { result, after_scan_failure: false };
    }

    fn begin_attempt(&mut self)
        requires
            old(self).attempt < usize::MAX,
        ensures
            *final(self) == old(self).next_attempt(),
    {
        self.attempt = self.attempt + 1;
        self.phase = RunPhase::CheckingAttempt;
    }

    fn prepared(
        &mut self,
        complete: bool,
        lifecycle: SchedulerLifecycle,
        readiness: SchedulerReadiness,
        network: RecoveryNetworkClass,
        power: RecoveryPowerSource,
    )
        requires
            old(self).attempt == 0,
        ensures
            *final(self) == old(self).after_preparation(
                complete,
                lifecycle,
                readiness,
                network,
                power,
            ),
    {
        if complete || lifecycle == SchedulerLifecycle::Completed {
            self.end(RunOutcome::Complete);
        } else if lifecycle == SchedulerLifecycle::Cancelled {
            self.end(RunOutcome::Cancelled);
        } else if !self.policy.allows(network, power) {
            self.fail(SchedulerError::PolicyBlocked { stage: PolicyStage::Initial });
        } else {
            match readiness {
                SchedulerReadiness::Cancelled => self.end(RunOutcome::Cancelled),
                SchedulerReadiness::Completed => self.fail(
                    SchedulerError::CompleteWithoutCheckpoint,
                ),
                SchedulerReadiness::ClockRollback { last_observed_unix_seconds } => self.fail(
                    SchedulerError::ClockRollback { last_observed_unix_seconds },
                ),
                SchedulerReadiness::AttemptLeaseExpired => {
                    self.phase = RunPhase::RecoveringExpiredAttempt;
                },
                SchedulerReadiness::Deferred { .. } => self.end(RunOutcome::Deferred),
                SchedulerReadiness::Ready => match self.lease {
                    Err(error) => self.fail(error),
                    Ok(_) => self.begin_attempt(),
                },
            }
        }
    }

    /// Takes an event. An event that does not belong to the phase ends the run.
    pub fn run_history_recovery_plan(&mut self, event: RunEvent)
        requires
            old(self).wf(),
        ensures
            final(self).wf(),
            *final(self) == old(self).next(event),
    {
        match (self.phase, event) {
            (RunPhase::Done { .. }, _) => {},
            (_, RunEvent::OutsideFailure) => self.fail(SchedulerError::OutsideFailure),
            (
                RunPhase::Preparing,
                RunEvent::Prepared { complete, lifecycle, readiness, network, power },
            ) => self.prepared(complete, lifecycle, readiness, network, power),
            (RunPhase::RecoveringExpiredAttempt, RunEvent::ExpiredAttemptRecorded) => self.end(
                RunOutcome::Deferred,
            ),
            (
                RunPhase::CheckingAttempt,
                RunEvent::AttemptChecked { plan_valid, network, power },
            ) => {
                if !plan_valid {
                    self.fail(SchedulerError::PlanInvalid);
                } else if self.policy.allows(network, power) {
                    self.phase = RunPhase::OpeningAttempt;
                } else {
                    self.fail(
                        SchedulerError::PolicyBlocked { stage: PolicyStage::BeforeDiscovery },
                    );
                }
            },
            (RunPhase::OpeningAttempt, RunEvent::AttemptOpened { readiness }) => match readiness {
                SchedulerReadiness::Ready => {
                    self.phase = RunPhase::Discovering;
                },
                SchedulerReadiness::Cancelled => self.end(RunOutcome::Cancelled),
                SchedulerReadiness::Completed => self.end(RunOutcome::Complete),
                SchedulerReadiness::Deferred { .. } => self.end(RunOutcome::Deferred),
                SchedulerReadiness::ClockRollback { last_observed_unix_seconds } => self.fail(
                    SchedulerError::ClockRollback { last_observed_unix_seconds },
                ),
                SchedulerReadiness::AttemptLeaseExpired => self.fail(
                    SchedulerError::LeaseNotReconciled,
                ),
            },
            (RunPhase::Discovering, RunEvent::ScanFailed) => {
                self.phase =
                RunPhase::Finalizing {
                    result: SchedulerAttemptResult::Failed,
                    after_scan_failure: true,
                };
            },
            (
                RunPhase::Discovering,
                RunEvent::Scanned { candidates, candidate_limit_reached },
            ) => {
                if candidates == 1 && !candidate_limit_reached {
                    self.phase = RunPhase::CheckingLease;
                } else {
                    self.finalize(SchedulerAttemptResult::Failed);
                }
            },
            (RunPhase::CheckingLease, RunEvent::LeaseChecked { current }) => {
                if current {
                    self.phase = RunPhase::CheckingConnection;
                } else {
                    self.end(RunOutcome::Cancelled);
                }
            },
            (RunPhase::CheckingConnection, RunEvent::ConnectionChecked { network, power }) => {
                if self.policy.allows(network, power) {
                    self.phase = RunPhase::Transferring;
                } else {
                    self.finalize(SchedulerAttemptResult::Failed);
                }
            },
            (RunPhase::Transferring, RunEvent::TransferEnded { succeeded }) => {
                if succeeded {
                    self.phase = RunPhase::ReadingCheckpoint;
                } else {
                    self.finalize(SchedulerAttemptResult::Failed);
                }
            },
            (RunPhase::ReadingCheckpoint, RunEvent::CheckpointRead { complete }) => {
                if complete {
                    self.finalize(SchedulerAttemptResult::Completed);
                } else {
                    self.finalize(SchedulerAttemptResult::Progressed);
                }
            },
            (
                RunPhase::Finalizing { after_scan_failure, .. },
                RunEvent::AttemptFinalized { lifecycle },
            ) => {
                if lifecycle == SchedulerLifecycle::Cancelled {
                    self.end(RunOutcome::Cancelled);
                } else if after_scan_failure || lifecycle == SchedulerLifecycle::Active {
                    if self.attempt < self.max_attempts {
                        self.phase = RunPhase::Waiting;
                    } else {
                        self.end(RunOutcome::Scheduled);
                    }
                } else if lifecycle == SchedulerLifecycle::Completed {
                    self.end(RunOutcome::Complete);
                } else {
                    self.fail(SchedulerError::AttemptStillInProgress);
                }
            },
            (RunPhase::Waiting, RunEvent::DeadlineReached) => self.begin_attempt(),
            _ => self.fail(SchedulerError::UnexpectedEvent),
        }
    }

    /// How many steps are left in the present attempt.
    pub open spec fn steps_in_attempt(self) -> nat {
        match self.phase {
            RunPhase::Preparing => 11,
            RunPhase::RecoveringExpiredAttempt => 10,
            RunPhase::CheckingAttempt => 9,
            RunPhase::OpeningAttempt => 8,
            RunPhase::Discovering => 7,
            RunPhase::CheckingLease => 6,
            RunPhase::CheckingConnection => 5,
            RunPhase::Transferring => 4,
            RunPhase::ReadingCheckpoint => 3,
            RunPhase::Finalizing { .. } => 2,
            RunPhase::Waiting => 1,
            RunPhase::Done { .. } => 0,
        }
    }

    /// A bound on the events that a run can still take.
    pub open spec fn steps_left(self) -> int {
        if self.phase is Done {
            0
        } else {
            (self.max_attempts - self.attempt) * 12 + self.steps_in_attempt()
        }
    }
}

/// The run that a sequence of events leads to.
pub open spec fn run_through(run: RecoveryRun, events: Seq<RunEvent>) -> RecoveryRun
    decreases events.len(),
{
    if events.len() == 0 {
        run
    } else {
        run_through(run, events.drop_last()).next(events.last())
    }
}

/// Whatever happens, a run never starts more attempts than it may, and every event brings it
/// closer to its end, so that it is over after at most that many events.
pub proof fn run_is_bounded(run: RecoveryRun, events: Seq<RunEvent>)
    requires
        run.wf(),
    ensures
        run_through(run, events).wf(),
        run_through(run, events).attempt <= run.max_attempts,
        run_through(run, events).max_attempts == run.max_attempts,
        run_through(run, events).policy == run.policy,
        run_through(run, events).phase is Done || run_through(run, events).steps_left()
            + events.len() <= run.steps_left(),
        events.len() >= run.steps_left() ==> run_through(run, events).phase is Done,
    decreases events.len(),
{
    if events.len() > 0 {
        run_is_bounded(run, events.drop_last());
    }
}

/// A run that has ended stays as it is.
pub proof fn ended_run_stays_ended(run: RecoveryRun, event: RunEvent)
    requires
        run.phase is Done,
    ensures
        run.next(event) == run,
{
}

/// A run looks for links only after the policy permitted the network and the power of that
/// moment, and connects only after it permitted them once more, after exactly one link was
/// found, and after the attempt was seen to hold its lease still.
pub proof fn run_obeys_policy(run: RecoveryRun, event: RunEvent)
    requires
        run.wf(),
        run.next(event).phase != run.phase,
    ensures
        run.next(event).phase == RunPhase::OpeningAttempt ==> (run.phase
            == RunPhase::CheckingAttempt && (event matches RunEvent::AttemptChecked {
            plan_valid,
            network,
            power,
        } && plan_valid && run.policy.permits(network, power))),
        run.next(event).phase == RunPhase::Discovering ==> (run.phase == RunPhase::OpeningAttempt
            && event == (RunEvent::AttemptOpened { readiness: SchedulerReadiness::Ready })),
        run.next(event).phase == RunPhase::CheckingLease ==> (run.phase == RunPhase::Discovering
            && event == (RunEvent::Scanned { candidates: 1, candidate_limit_reached: false })),
        run.next(event).phase == RunPhase::CheckingConnection ==> (run.phase
            == RunPhase::CheckingLease && event == (RunEvent::LeaseChecked { current: true })),
        run.next(event).phase == RunPhase::Transferring ==> (run.phase
            == RunPhase::CheckingConnection && (event matches RunEvent::ConnectionChecked {
            network,
            power,
        } && run.policy.permits(network, power))),
{
}

/// A run ends as complete only where the signed state or the checkpoint said so.
pub proof fn run_completes_only_on_evidence(run: RecoveryRun, event: RunEvent)
    requires
        run.phase !is Done,
        run.next(event).phase == (RunPhase::Done { outcome: RunOutcome::Complete }),
    ensures
        match event {
            RunEvent::Prepared { complete, lifecycle, .. } => complete || lifecycle
                == SchedulerLifecycle::Completed,
            RunEvent::AttemptOpened { readiness } => readiness == SchedulerReadiness::Completed,
            RunEvent::AttemptFinalized { lifecycle } => lifecycle == SchedulerLifecycle::Completed,
            _ => false,
        },
{
}

/// The signed scheduler state, as far as decisions read it.
#[derive(Clone, Copy, Debug, PartialEq, Eq, Structural)]
pub struct SchedulerState {
    pub state_id: Digest,
    pub lifecycle: SchedulerLifecycle,
}

/// What is to be appended to the signed scheduler state.
#[derive(Clone, Copy, Debug, PartialEq, Eq, Structural)]
pub enum SchedulerTransition {
    Keep,
    RecordFailure,
    RecordProgress,
    Complete,
    Cancel,
}

/// What preparing a run appends to the state.
pub open spec fn preparation(lifecycle: SchedulerLifecycle, checkpoint_complete: bool) -> Result<SchedulerTransition, SchedulerError> {
    if checkpoint_complete && !lifecycle.terminal() {
        Ok(SchedulerTransition::Complete)
    } else if lifecycle == SchedulerLifecycle::Completed && !checkpoint_complete {
        Err(SchedulerError::CompleteWithoutCheckpoint)
    } else {
        Ok(SchedulerTransition::Keep)
    }
}

/// What preparing the state appends: completion, where the checkpoint is complete and the
/// state does not know yet. A state that claims completion without it is refused.
pub fn prepare_history_recovery_scheduler_state(
    lifecycle: SchedulerLifecycle,
    checkpoint_complete: bool,
) -> (r: Result<SchedulerTransition, SchedulerError>)
    ensures
        r == preparation(lifecycle, checkpoint_complete),
{
    if checkpoint_complete && !lifecycle.is_terminal() {
        return Ok(SchedulerTransition::Complete);
    }
    if lifecycle == SchedulerLifecycle::Completed && !checkpoint_complete {
        return Err(SchedulerError::CompleteWithoutCheckpoint);
    }
    Ok(SchedulerTransition::Keep)
}

/// The state that is there, or `None` where a new one is to be made, which only the recipient
/// of the plan may do.
pub fn load_or_initialize_recovery_scheduler_state(
    existing: Option<SchedulerState>,
    local_device_id: DeviceId,
    plan_recipient_device_id: DeviceId,
) -> (r: Result<Option<SchedulerState>, SchedulerError>)
    ensures
        r == match existing {
            Some(state) => Ok(Some(state)),
            None => if local_device_id == plan_recipient_device_id {
                Ok(None)
            } else {
                Err(SchedulerError::NotThePlanRecipient)
            },
        },
{
    match existing {
        Some(state) => Ok(Some(state)),
        None => if local_device_id == plan_recipient_device_id {
            Ok(None)
        } else {
            Err(SchedulerError::NotThePlanRecipient)
        },
    }
}

/// The state that ended a plan, where one did: the plan is valid and of the conversation, and
/// only its recipient gets to see the state.
pub fn observe_terminal_recovery_scheduler_state(
    plan: &SignedHistoryRecoveryPlan,
    conversation_id: ConversationId,
    existing: Option<SchedulerState>,
    local_device_id: DeviceId,
    limits: ProtocolLimits,
) -> (r: Result<Option<SchedulerState>, SchedulerError>)
    ensures
        r == if plan.fault(limits) is Some {
            Err::<Option<SchedulerState>, SchedulerError>(SchedulerError::PlanInvalid)
        } else if conversation_id != plan.content.conversation_id {
            Err(SchedulerError::ConversationMismatch)
        } else {
            match existing {
                None => Ok(None),
                Some(state) => if !state.lifecycle.terminal() {
                    Ok(None)
                } else if local_device_id != plan.content.recipient_device_id {
                    Err(SchedulerError::NotThePlanRecipient)
                } else {
                    Ok(Some(state))
                },
            }
        },
{
    if plan.verify(limits).is_err() {
        return Err(SchedulerError::PlanInvalid);
    }
    if conversation_id != plan.content.conversation_id {
        return Err(SchedulerError::ConversationMismatch);
    }
    match existing {
        None => Ok(None),
        Some(state) => {
            if !state.lifecycle.is_terminal() {
                return Ok(None);
            }
            match load_scheduler_signing_device(plan, local_device_id, limits) {
                Ok(()) => Ok(Some(state)),
                Err(error) => Err(error),
            }
        },
    }
}

/// The state, which must be there.
pub fn load_required_recovery_scheduler_state(existing: Option<SchedulerState>) -> (r: Result<
    SchedulerState,
    SchedulerError,
>)
    ensures
        r == match existing {
            Some(state) => Ok(state),
            None => Err(SchedulerError::NotInitialized),
        },
{
    match existing {
        Some(state) => Ok(state),
        None => Err(SchedulerError::NotInitialized),
    }
}

/// Whether an attempt still holds its lease: not where the plan was cancelled meanwhile, and
/// any other state than the one that the attempt began is refused.
pub fn recovery_scheduler_attempt_is_current(current: SchedulerState, started: Digest) -> (r:
    Result<bool, SchedulerError>)
    ensures
        r == if current.lifecycle == SchedulerLifecycle::Cancelled {
            Ok(false)
        } else if current == (SchedulerState {
            state_id: started,
            lifecycle: SchedulerLifecycle::Attempting,
        }) {
            Ok(true)
        } else {
            Err(SchedulerError::LeaseReplaced)
        },
{
    if current.lifecycle == SchedulerLifecycle::Cancelled {
        return Ok(false);
    }
    if current.state_id == started && current.lifecycle == SchedulerLifecycle::Attempting {
        Ok(true)
    } else {
        Err(SchedulerError::LeaseReplaced)
    }
}

/// What the end of an attempt appends to the state.
pub open spec fn attempt_end(current: SchedulerState, started: Digest, result: SchedulerAttemptResult) -> Result<SchedulerTransition, SchedulerError> {
    if current.lifecycle == SchedulerLifecycle::Cancelled {
        Ok(SchedulerTransition::Keep)
    } else if current != (SchedulerState {
        state_id: started,
        lifecycle: SchedulerLifecycle::Attempting,
    }) {
        Err(SchedulerError::LeaseReplaced)
    } else {
        Ok(
            match result {
                SchedulerAttemptResult::Failed => SchedulerTransition::RecordFailure,
                SchedulerAttemptResult::Progressed => SchedulerTransition::RecordProgress,
                SchedulerAttemptResult::Completed => SchedulerTransition::Complete,
            },
        )
    }
}

/// What the end of an attempt appends to the state that the attempt began.
pub fn finalize_recovery_scheduler_attempt(
    current: SchedulerState,
    started: Digest,
    result: SchedulerAttemptResult,
) -> (r: Result<SchedulerTransition, SchedulerError>)
    ensures
        r == attempt_end(current, started, result),
{
    match recovery_scheduler_attempt_is_current(current, started) {
        Err(error) => Err(error),
        Ok(false) => Ok(SchedulerTransition::Keep),
        Ok(true) => Ok(
            match result {
                SchedulerAttemptResult::Failed => SchedulerTransition::RecordFailure,
                SchedulerAttemptResult::Progressed => SchedulerTransition::RecordProgress,
                SchedulerAttemptResult::Completed => SchedulerTransition::Complete,
            },
        ),
    }
}

/// What is appended for an attempt whose lease ran out.
pub fn finalize_expired_recovery_attempt(readiness: SchedulerReadiness) -> (r: Result<
    SchedulerTransition,
    SchedulerError,
>)
    ensures
        r == if readiness == SchedulerReadiness::AttemptLeaseExpired {
            Ok(SchedulerTransition::RecordFailure)
        } else {
            Err(SchedulerError::LeaseNotExpired)
        },
{
    match readiness {
        SchedulerReadiness::AttemptLeaseExpired => Ok(SchedulerTransition::RecordFailure),
        _ => Err(SchedulerError::LeaseNotExpired),
    }
}

/// What an interruption appends to the state.
pub open spec fn interruption(lifecycle: SchedulerLifecycle) -> SchedulerTransition {
    if lifecycle == SchedulerLifecycle::Attempting {
        SchedulerTransition::RecordFailure
    } else {
        SchedulerTransition::Keep
    }
}

/// What is appended for an attempt that was interrupted.
pub fn finalize_interrupted_recovery_worker_attempt(lifecycle: SchedulerLifecycle) -> (r:
    SchedulerTransition)
    ensures
        r == interruption(lifecycle),
{
    if lifecycle == SchedulerLifecycle::Attempting {
        SchedulerTransition::RecordFailure
    } else {
        SchedulerTransition::Keep
    }
}

/// What a cancellation appends to the state.
pub open spec fn cancellation(lifecycle: SchedulerLifecycle) -> Result<SchedulerTransition, SchedulerError> {
    match lifecycle {
        SchedulerLifecycle::Cancelled => Ok(SchedulerTransition::Keep),
        SchedulerLifecycle::Completed => Err(SchedulerError::AlreadyCompleted),
        SchedulerLifecycle::Active | SchedulerLifecycle::Attempting => Ok(
            SchedulerTransition::Cancel,
        ),
    }
}

/// What cancelling a plan appends. A completed plan cannot be cancelled.
pub fn cancel_history_recovery_plan(lifecycle: SchedulerLifecycle) -> (r: Result<
    SchedulerTransition,
    SchedulerError,
>)
    ensures
        r == cancellation(lifecycle),
{
    match lifecycle {
        SchedulerLifecycle::Cancelled => Ok(SchedulerTransition::Keep),
        SchedulerLifecycle::Completed => Err(SchedulerError::AlreadyCompleted),
        SchedulerLifecycle::Active | SchedulerLifecycle::Attempting => Ok(
            SchedulerTransition::Cancel,
        ),
    }
}

/// What waiting for the next attempt does.
#[derive(Clone, Copy, Debug, PartialEq, Eq, Structural)]
pub enum DeadlineWait {
    Over,
    Sleep { remaining_seconds: u64, sleep_seconds: u64 },
}

/// Whether the wait for the next attempt is over, or for how long to sleep before looking
/// again: what remains, but at least one second and at most five.
pub fn wait_for_recovery_scheduler_deadline(readiness: SchedulerReadiness, now: u64) -> (r: Result<
    DeadlineWait,
    SchedulerError,
>)
    ensures
        match readiness {
            SchedulerReadiness::Ready
            | SchedulerReadiness::Cancelled
            | SchedulerReadiness::Completed => r == Ok::<DeadlineWait, SchedulerError>(
                DeadlineWait::Over,
            ),
            SchedulerReadiness::ClockRollback { last_observed_unix_seconds } => r == Err::<
                DeadlineWait,
                SchedulerError,
            >(SchedulerError::ClockRollback { last_observed_unix_seconds }),
            SchedulerReadiness::AttemptLeaseExpired => r == Err::<DeadlineWait, SchedulerError>(
                SchedulerError::LeaseExpiredWhileWaiting,
            ),
            SchedulerReadiness::Deferred { not_before_unix_seconds } => {
                let remaining = if not_before_unix_seconds > now {
                    not_before_unix_seconds - now
                } else {
                    0
                };
                r matches Ok(DeadlineWait::Sleep { remaining_seconds, sleep_seconds })
                    && remaining_seconds == remaining && sleep_seconds == if remaining < 1 {
                    1
                } else if remaining > 5 {
                    5
                } else {
                    remaining
                }
            },
        },
{
    match readiness {
        SchedulerReadiness::Ready
        | SchedulerReadiness::Cancelled
        | SchedulerReadiness::Completed => Ok(DeadlineWait::Over),
        SchedulerReadiness::ClockRollback { last_observed_unix_seconds } => Err(
            SchedulerError::ClockRollback { last_observed_unix_seconds },
        ),
        SchedulerReadiness::AttemptLeaseExpired => Err(SchedulerError::LeaseExpiredWhileWaiting),
        SchedulerReadiness::Deferred { not_before_unix_seconds } => {
            let remaining_seconds: u64 = not_before_unix_seconds.saturating_sub(now);
            let sleep_seconds: u64 = if remaining_seconds < 1 {
                1
            } else if remaining_seconds > 5 {
                5
            } else {
                remaining_seconds
            };
            Ok(DeadlineWait::Sleep { remaining_seconds, sleep_seconds })
        },
    }
}

/// Tests that the local device may sign scheduler states for a plan.
pub fn load_scheduler_signing_device(
    plan: &SignedHistoryRecoveryPlan,
    local_device_id: DeviceId,
    limits: ProtocolLimits,
) -> (r: Result<(), SchedulerError>)
    ensures
        r == if plan.fault(limits) is Some {
            Err(SchedulerError::PlanInvalid)
        } else if local_device_id != plan.content.recipient_device_id {
            Err(SchedulerError::NotThePlanRecipient)
        } else {
            Ok(())
        },
{
    if plan.verify(limits).is_err() {
        return Err(SchedulerError::PlanInvalid);
    }
    if local_device_id != plan.content.recipient_device_id {
        return Err(SchedulerError::NotThePlanRecipient);
    }
    Ok(())
}

/// A decision that appends nothing to the signed state.
pub open spec fn appends_nothing(decision: Result<SchedulerTransition, SchedulerError>) -> bool {
    decision matches Ok(transition) ==> transition == SchedulerTransition::Keep
}

/// A completed or cancelled recovery is final: neither preparing a run, nor the end of an
/// attempt, nor an interruption, nor a cancellation appends anything to its state.
pub proof fn terminal_state_is_final(
    state: SchedulerState,
    started: Digest,
    result: SchedulerAttemptResult,
    checkpoint_complete: bool,
)
    requires
        state.lifecycle.terminal(),
    ensures
        appends_nothing(preparation(state.lifecycle, checkpoint_complete)),
        appends_nothing(attempt_end(state, started, result)),
        interruption(state.lifecycle) == SchedulerTransition::Keep,
        appends_nothing(cancellation(state.lifecycle)),
{
}

/// An attempt is recorded as it ended: as completed exactly where the checkpoint that was read is
/// complete, as progressed exactly where it is not, and as failed exactly where no single link
/// was found, the policy forbade to connect, or the transfer failed.
pub proof fn attempt_is_recorded_as_it_ended(run: RecoveryRun, event: RunEvent)
    requires
        run.phase !is Done,
    ensures
        ({
            let after = run.next(event).phase;
            &&& (after is Finalizing && after->result == SchedulerAttemptResult::Completed)
                <==> run.phase == RunPhase::ReadingCheckpoint && event == (
            RunEvent::CheckpointRead { complete: true })
            &&& (after is Finalizing && after->result == SchedulerAttemptResult::Progressed)
                <==> run.phase == RunPhase::ReadingCheckpoint && event == (
            RunEvent::CheckpointRead { complete: false })
            &&& (after is Finalizing && after->result == SchedulerAttemptResult::Failed) <==> {
                ||| run.phase == RunPhase::Discovering && event == RunEvent::ScanFailed
                ||| run.phase == RunPhase::Discovering && (event matches RunEvent::Scanned {
                    candidates,
                    candidate_limit_reached,
                } && (candidates != 1 || candidate_limit_reached))
                ||| run.phase == RunPhase::CheckingConnection && (
                event matches RunEvent::ConnectionChecked { network, power }
                    && !run.policy.permits(network, power))
                ||| run.phase == RunPhase::Transferring && event == (
                RunEvent::TransferEnded { succeeded: false })
            }
            &&& after is Finalizing ==> after->after_scan_failure == (event
                == RunEvent::ScanFailed)
        }),
{
}

/// A run moves on exactly where the step before went well, counts an attempt exactly where it
/// starts one, and waits for another only while it may start one.
pub proof fn run_moves_on_exactly_where_a_step_went_well(run: RecoveryRun, event: RunEvent)
    requires
        run.wf(),
        run.phase !is Done,
    ensures
        ({
            let after = run.next(event).phase;
            &&& after == RunPhase::OpeningAttempt <==> run.phase == RunPhase::CheckingAttempt && (
            event matches RunEvent::AttemptChecked { plan_valid, network, power } && plan_valid
                && run.policy.permits(network, power))
            &&& after == RunPhase::Discovering <==> run.phase == RunPhase::OpeningAttempt && event
                == (RunEvent::AttemptOpened { readiness: SchedulerReadiness::Ready })
            &&& after == RunPhase::CheckingLease <==> run.phase == RunPhase::Discovering && event
                == (RunEvent::Scanned { candidates: 1, candidate_limit_reached: false })
            &&& after == RunPhase::CheckingConnection <==> run.phase == RunPhase::CheckingLease
                && event == (RunEvent::LeaseChecked { current: true })
            &&& after == RunPhase::Transferring <==> run.phase == RunPhase::CheckingConnection && (
            event matches RunEvent::ConnectionChecked { network, power } && run.policy.permits(
                network,
                power,
            ))
            &&& after == RunPhase::ReadingCheckpoint <==> run.phase == RunPhase::Transferring
                && event == (RunEvent::TransferEnded { succeeded: true })
            &&& after == RunPhase::Waiting <==> run.attempt < run.max_attempts
                && run.phase is Finalizing && (event matches RunEvent::AttemptFinalized {
                lifecycle,
            } && lifecycle != SchedulerLifecycle::Cancelled && (run.phase->after_scan_failure
                || lifecycle == SchedulerLifecycle::Active))
            &&& after == RunPhase::RecoveringExpiredAttempt <==> run.phase == RunPhase::Preparing
                && (event matches RunEvent::Prepared {
                complete,
                lifecycle,
                readiness,
                network,
                power,
            } && !complete && !lifecycle.terminal() && run.policy.permits(network, power)
                && readiness == SchedulerReadiness::AttemptLeaseExpired)
            &&& after == RunPhase::CheckingAttempt <==> {
                ||| run.phase == RunPhase::Waiting && event == RunEvent::DeadlineReached
                ||| run.phase == RunPhase::Preparing && run.lease is Ok && (
                event matches RunEvent::Prepared { complete, lifecycle, readiness, network, power }
                    && !complete && !lifecycle.terminal() && run.policy.permits(network, power)
                    && readiness == SchedulerReadiness::Ready)
            }
            &&& run.next(event).attempt == run.attempt + (if after == RunPhase::CheckingAttempt {
                1int
            } else {
                0
            })
            &&& after != RunPhase::Preparing
        }),
        run.next(event).policy == run.policy,
        run.next(event).lease == run.lease,
        run.next(event).max_attempts == run.max_attempts,
{
}

/// A run ends as it was told: complete, cancelled or deferred exactly where the signed state, the
/// checkpoint or the lease said so, and scheduled exactly where its attempts are used up.
pub proof fn run_ends_as_it_was_told(run: RecoveryRun, event: RunEvent)
    requires
        run.wf(),
        run.phase !is Done,
    ensures
        ({
            let after = run.next(event).phase;
            &&& after == (RunPhase::Done { outcome: RunOutcome::Complete }) <==> {
                ||| run.phase == RunPhase::Preparing && (event matches RunEvent::Prepared {
                    complete,
                    lifecycle,
                    ..
                } && (complete || lifecycle == SchedulerLifecycle::Completed))
                ||| run.phase == RunPhase::OpeningAttempt && event == (RunEvent::AttemptOpened {
                    readiness: SchedulerReadiness::Completed,
                })
                ||| run.phase is Finalizing && !run.phase->after_scan_failure && event == (
                RunEvent::AttemptFinalized { lifecycle: SchedulerLifecycle::Completed })
            }
            &&& after == (RunPhase::Done { outcome: RunOutcome::Cancelled }) <==> {
                ||| run.phase == RunPhase::Preparing && (event matches RunEvent::Prepared {
                    complete,
                    lifecycle,
                    readiness,
                    network,
                    power,
                } && !complete && lifecycle != SchedulerLifecycle::Completed && (lifecycle
                    == SchedulerLifecycle::Cancelled || (run.policy.permits(network, power)
                    && readiness == SchedulerReadiness::Cancelled)))
                ||| run.phase == RunPhase::OpeningAttempt && event == (RunEvent::AttemptOpened {
                    readiness: SchedulerReadiness::Cancelled,
                })
                ||| run.phase == RunPhase::CheckingLease && event == (
                RunEvent::LeaseChecked { current: false })
                ||| run.phase is Finalizing && event == (RunEvent::AttemptFinalized {
                    lifecycle: SchedulerLifecycle::Cancelled,
                })
            }
            &&& after == (RunPhase::Done { outcome: RunOutcome::Deferred }) <==> {
                ||| run.phase == RunPhase::Preparing && (event matches RunEvent::Prepared {
                    complete,
                    lifecycle,
                    readiness,
                    network,
                    power,
                } && !complete && !lifecycle.terminal() && run.policy.permits(network, power)
                    && readiness is Deferred)
                ||| run.phase == RunPhase::RecoveringExpiredAttempt && event
                    == RunEvent::ExpiredAttemptRecorded
                ||| run.phase == RunPhase::OpeningAttempt
                    && (event matches RunEvent::AttemptOpened {
                    readiness,
                } && readiness is Deferred)
            }
            &&& after == (RunPhase::Done { outcome: RunOutcome::Scheduled }) <==> run.attempt
                == run.max_attempts && run.phase is Finalizing && (
            event matches RunEvent::AttemptFinalized { lifecycle } && lifecycle
                != SchedulerLifecycle::Cancelled && (run.phase->after_scan_failure || lifecycle
                == SchedulerLifecycle::Active))
        }),
{
}

/// A run fails for the reason that there is: the policy at the stage where it forbade, a plan that
/// is not valid, a clock that ran back, a lease that was not reconciled or cannot be held, an
/// attempt that is still in progress, or a failure outside.
pub proof fn run_fails_for_its_reason(run: RecoveryRun, event: RunEvent, stage: PolicyStage, seen: u64)
    requires
        run.phase !is Done,
    ensures
        ({
            let failed = |error: SchedulerError|
                run.next(event).phase == (RunPhase::Done { outcome: RunOutcome::Failed { error } });
            &&& event == RunEvent::OutsideFailure ==> failed(SchedulerError::OutsideFailure)
            &&& failed(SchedulerError::PolicyBlocked { stage }) ==> match event {
                RunEvent::Prepared { network, power, .. } => stage == PolicyStage::Initial
                    && !run.policy.permits(network, power),
                RunEvent::AttemptChecked { network, power, .. } => stage
                    == PolicyStage::BeforeDiscovery && !run.policy.permits(network, power),
                _ => run.phase == RunPhase::Preparing && run.lease == Err::<u64, SchedulerError>(
                    SchedulerError::PolicyBlocked { stage },
                ),
            } || run.lease == Err::<u64, SchedulerError>(SchedulerError::PolicyBlocked { stage })
            &&& run.phase == RunPhase::Preparing && (event matches RunEvent::Prepared {
                complete,
                lifecycle,
                network,
                power,
                ..
            } && !complete && !lifecycle.terminal() && !run.policy.permits(network, power))
                ==> failed(SchedulerError::PolicyBlocked { stage: PolicyStage::Initial })
            &&& run.phase == RunPhase::Preparing && (event matches RunEvent::Prepared {
                complete,
                lifecycle,
                readiness,
                network,
                power,
            } && !complete && !lifecycle.terminal() && run.policy.permits(network, power)) ==> {
                let readiness = event->Prepared_readiness;
                &&& readiness == SchedulerReadiness::Completed ==> failed(
                    SchedulerError::CompleteWithoutCheckpoint,
                )
                &&& readiness == (SchedulerReadiness::ClockRollback {
                    last_observed_unix_seconds: seen,
                }) ==> failed(SchedulerError::ClockRollback { last_observed_unix_seconds: seen })
                &&& readiness == SchedulerReadiness::Ready && run.lease is Err ==> failed(
                    run.lease->Err_0,
                )
            }
            &&& run.phase == RunPhase::CheckingAttempt && event is AttemptChecked ==> {
                &&& !event->plan_valid ==> failed(SchedulerError::PlanInvalid)
                &&& event->plan_valid && !run.policy.permits(
                    event->AttemptChecked_network,
                    event->AttemptChecked_power,
                ) ==> failed(
                    SchedulerError::PolicyBlocked { stage: PolicyStage::BeforeDiscovery },
                )
            }
            &&& run.phase == RunPhase::OpeningAttempt && event == (RunEvent::AttemptOpened {
                readiness: SchedulerReadiness::AttemptLeaseExpired,
            }) ==> failed(SchedulerError::LeaseNotReconciled)
            &&& run.phase == RunPhase::OpeningAttempt && event == (RunEvent::AttemptOpened {
                readiness: SchedulerReadiness::ClockRollback { last_observed_unix_seconds: seen },
            }) ==> failed(SchedulerError::ClockRollback { last_observed_unix_seconds: seen })
            &&& run.phase is Finalizing && !run.phase->after_scan_failure && event == (
            RunEvent::AttemptFinalized { lifecycle: SchedulerLifecycle::Attempting }) ==> failed(
                SchedulerError::AttemptStillInProgress,
            )
        }),
{
}

/// A lease lasts for the discovery, a minute for each page, and two and a quarter minutes more;
/// it is granted exactly where that many seconds are allowed.
pub proof fn lease_covers_the_attempt(
    discovery_wait_seconds: u64,
    max_pages: usize,
    max_lease_seconds: u64,
)
    ensures
        ({
            let seconds = discovery_wait_seconds + 60 * max_pages + 135;
            match attempt_lease(discovery_wait_seconds, max_pages, max_lease_seconds) {
                Ok(granted) => granted == seconds && seconds <= max_lease_seconds,
                Err(SchedulerError::LeaseTooLong) => max_lease_seconds < seconds <= u64::MAX,
                Err(SchedulerError::LeasePagesOverflow) => 60 * max_pages > u64::MAX,
                Err(error) => error == SchedulerError::LeaseOverflow && 60 * max_pages <= u64::MAX
                    && seconds > u64::MAX,
            }
        }),
{
}

/// Completion, progress, failure and cancellation are appended to the signed state exactly where
/// they happened to a recovery that has not ended, and by the attempt that the state was signed
/// for.
pub proof fn state_is_appended_what_happened(
    state: SchedulerState,
    started: Digest,
    result: SchedulerAttemptResult,
    checkpoint_complete: bool,
)
    ensures
        ({
            let open = state.lifecycle == SchedulerLifecycle::Active || state.lifecycle
                == SchedulerLifecycle::Attempting;
            let own = state.lifecycle == SchedulerLifecycle::Attempting
                && state.state_id == started;
            let ended = attempt_end(state, started, result);
            let prepared = preparation(state.lifecycle, checkpoint_complete);
            &&& prepared == Ok::<SchedulerTransition, SchedulerError>(
                SchedulerTransition::Complete,
            ) <==> open && checkpoint_complete
            &&& prepared == Err::<SchedulerTransition, SchedulerError>(
                SchedulerError::CompleteWithoutCheckpoint,
            ) <==> state.lifecycle == SchedulerLifecycle::Completed && !checkpoint_complete
            &&& prepared is Ok ==> prepared->Ok_0 == SchedulerTransition::Complete
                || prepared->Ok_0 == SchedulerTransition::Keep
            &&& ended == Ok::<SchedulerTransition, SchedulerError>(SchedulerTransition::Complete)
                <==> own && result == SchedulerAttemptResult::Completed
            &&& ended == Ok::<SchedulerTransition, SchedulerError>(
                SchedulerTransition::RecordProgress,
            ) <==> own && result == SchedulerAttemptResult::Progressed
            &&& ended == Ok::<SchedulerTransition, SchedulerError>(
                SchedulerTransition::RecordFailure,
            ) <==> own && result == SchedulerAttemptResult::Failed
            &&& ended == Ok::<SchedulerTransition, SchedulerError>(SchedulerTransition::Keep)
                <==> state.lifecycle == SchedulerLifecycle::Cancelled
            &&& ended == Err::<SchedulerTransition, SchedulerError>(SchedulerError::LeaseReplaced)
                <==> !own && state.lifecycle != SchedulerLifecycle::Cancelled
            &&& interruption(state.lifecycle) == SchedulerTransition::RecordFailure
                <==> state.lifecycle
                == SchedulerLifecycle::Attempting
            &&& interruption(state.lifecycle) == SchedulerTransition::Keep <==> state.lifecycle
                != SchedulerLifecycle::Attempting
            &&& cancellation(state.lifecycle) == Ok::<SchedulerTransition, SchedulerError>(
                SchedulerTransition::Cancel,
            ) <==> open
            &&& cancellation(state.lifecycle) == Err::<SchedulerTransition, SchedulerError>(
                SchedulerError::AlreadyCompleted,
            ) <==> state.lifecycle == SchedulerLifecycle::Completed
            &&& state.lifecycle.terminal() <==> !open
        }),
{
}

} // verus!
