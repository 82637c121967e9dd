//! The long-lived runtime: its options, its loop, its delivery attempts, its sessions and its
//! local control channel.

use crate::identity::{AccountDeviceList, DeviceCertificate, certificate_of};
use crate::ids::{AccountId, DeviceId, RuntimeQueueId};
use crate::text::same_text;
use crate::time::TimeSpan;
use vstd::prelude::*;

verus! {

/// The most sessions that a runtime can be limited to.
pub const MAX_RUNTIME_SESSIONS: usize = 65_536;

/// The longest idle time that a runtime can be limited to, in seconds.
pub const MAX_RUNTIME_IDLE_SECONDS: u64 = 86_400;

/// The longest poll interval, in milliseconds.
pub const MAX_RUNTIME_POLL_MILLISECONDS: u64 = 10_000;

/// The longest retry delay, in seconds.
pub const MAX_RUNTIME_RETRY_SECONDS: u64 = 3_600;

/// The longest interval of automatic synchronization, in seconds.
pub const MAX_RUNTIME_AUTO_SYNC_SECONDS: u64 = 3_600;

/// Why a runtime does not start, or stops with an error.
#[derive(Clone, Copy, Debug, PartialEq, Eq, Structural)]
pub enum RuntimeError {
    SessionsOutOfRange,
    IdleOutOfRange,
    PollOutOfRange,
    RetryBaseOutOfRange,
    RetryMaxOutOfRange,
    AutoSyncOutOfRange,
    CertificateNotListed,
    IpcAcceptorStopped,
    LocalSessionFailure,
    LockStayedBusy,
    DeviceChanged,
    CertificateChanged,
    VaultGuardFailed,
    PreparationFailed { mirror_failed: bool },
    MirrorFailed,
    DescriptorInsideState,
    DescriptorWithoutName,
    PingIdentityMismatch,
    RejectedByRuntime,
    UnexpectedResponse,
    DifferentQueueId,
    OutsideFailure,
}

/// The limits and intervals of a runtime.
#[derive(Clone, Copy, Debug, PartialEq, Eq, Structural)]
pub struct RuntimeOptions {
    pub max_sessions: usize,
    pub idle_seconds: u64,
    pub poll_milliseconds: u64,
    pub retry_base_seconds: u64,
    pub retry_max_seconds: u64,
    pub auto_sync_seconds: u64,
    pub max_outbound_actions: usize,
}

impl RuntimeOptions {
    /// The first option that is out of range.
    pub open spec fn fault(self) -> Option<RuntimeError> {
        if self.max_sessions > MAX_RUNTIME_SESSIONS {
            Some(RuntimeError::SessionsOutOfRange)
        } else if self.idle_seconds > MAX_RUNTIME_IDLE_SECONDS {
            Some(RuntimeError::IdleOutOfRange)
        } else if !(10 <= self.poll_milliseconds <= MAX_RUNTIME_POLL_MILLISECONDS) {
            Some(RuntimeError::PollOutOfRange)
        } else if !(1 <= self.retry_base_seconds <= MAX_RUNTIME_RETRY_SECONDS) {
            Some(RuntimeError::RetryBaseOutOfRange)
        } else if !(self.retry_base_seconds <= self.retry_max_seconds
            <= MAX_RUNTIME_RETRY_SECONDS) {
            Some(RuntimeError::RetryMaxOutOfRange)
        } else if self.auto_sync_seconds > MAX_RUNTIME_AUTO_SYNC_SECONDS {
            Some(RuntimeError::AutoSyncOutOfRange)
        } else {
            None
        }
    }

    /// Tests the options.
    pub fn validate(&self) -> (r: Result<(), RuntimeError>)
        ensures
            match self.fault() {
                None => r is Ok,
                Some(error) => r == Err::<(), RuntimeError>(error),
            },
    {
        if self.max_sessions > MAX_RUNTIME_SESSIONS {
            return Err(RuntimeError::SessionsOutOfRange);
        }
        if self.idle_seconds > MAX_RUNTIME_IDLE_SECONDS {
            return Err(RuntimeError::IdleOutOfRange);
        }
        if self.poll_milliseconds < 10 || self.poll_milliseconds > MAX_RUNTIME_POLL_MILLISECONDS {
            return Err(RuntimeError::PollOutOfRange);
        }
        if self.retry_base_seconds < 1 || self.retry_base_seconds > MAX_RUNTIME_RETRY_SECONDS {
            return Err(RuntimeError::RetryBaseOutOfRange);
        }
        if self.retry_max_seconds < self.retry_base_seconds || self.retry_max_seconds
            > MAX_RUNTIME_RETRY_SECONDS {
            return Err(RuntimeError::RetryMaxOutOfRange);
        }
        if self.auto_sync_seconds > MAX_RUNTIME_AUTO_SYNC_SECONDS {
            return Err(RuntimeError::AutoSyncOutOfRange);
        }
        Ok(())
    }
}

/// Tests that a listener's certificate is the one that its device list holds for it.
pub fn prepare_runtime_listener(device_list: &AccountDeviceList, certificate: &DeviceCertificate) -> (r:
    Result<(), RuntimeError>)
    ensures
        r == if certificate_of(device_list.certificates@, certificate.device_id) == Some(
            *certificate,
        ) {
            Ok::<(), RuntimeError>(())
        } else {
            Err(RuntimeError::CertificateNotListed)
        },
{
    match device_list.certificate_for(certificate.device_id) {
        Some(listed) => if listed == *certificate {
            Ok(())
        } else {
            Err(RuntimeError::CertificateNotListed)
        },
        None => Err(RuntimeError::CertificateNotListed),
    }
}

/// What a delivery attempt came to.
#[derive(Clone, Copy, Debug, PartialEq, Eq, Structural)]
pub enum RuntimeDeliveryAttempt {
    NoWork,
    Delivered,
    RetryScheduled,
}

/// What a delivery attempt is doing.
#[derive(Clone, Copy, Debug, PartialEq, Eq, Structural)]
pub enum AttemptPhase {
    /// Lock the state, and select a message that is due.
    Selecting,
    /// Prepare the message.
    Preparing { queue_id: RuntimeQueueId },
    /// Send the message and check its acknowledgement.
    Sending { queue_id: RuntimeQueueId },
    /// Record that the message was delivered.
    RecordingDelivery { queue_id: RuntimeQueueId },
    /// Record when the message is to be tried again.
    SchedulingRetry { queue_id: RuntimeQueueId },
    /// Nothing more.
    Done { attempt: RuntimeDeliveryAttempt },
    /// The runtime stops.
    Failed { error: RuntimeError },
}

/// What happened in a delivery attempt.
#[derive(Clone, Copy, Debug, PartialEq, Eq, Structural)]
pub enum AttemptEvent {
    LockBusy,
    Selected { queue_id: Option<RuntimeQueueId> },
    Prepared { succeeded: bool },
    Sent { acknowledged: bool },
    Recorded,
    Failure,
}

/// One attempt to deliver the next message that is due.
#[derive(Clone, Copy, Debug, PartialEq, Eq, Structural)]
pub struct DeliveryAttempt {
    pub phase: AttemptPhase,
}

impl DeliveryAttempt {
    /// What follows an event.
    pub open spec fn next(self, event: AttemptEvent) -> DeliveryAttempt {
        let phase = match (self.phase, event) {
            (AttemptPhase::Done { .. }, _) => self.phase,
            (AttemptPhase::Failed { .. }, _) => self.phase,
            (AttemptPhase::Selecting, AttemptEvent::LockBusy) => AttemptPhase::Failed {
                error: RuntimeError::LockStayedBusy,
            },
            (AttemptPhase::Selecting, AttemptEvent::Selected { queue_id }) => match queue_id {
                None => AttemptPhase::Done { attempt: RuntimeDeliveryAttempt::NoWork },
                Some(queue_id) => AttemptPhase::Preparing { queue_id },
            },
            (AttemptPhase::Preparing { queue_id }, AttemptEvent::Prepared { succeeded }) => if
            succeeded {
                AttemptPhase::Sending { queue_id }
            } else {
                AttemptPhase::SchedulingRetry { queue_id }
            },
            (AttemptPhase::Sending { queue_id }, AttemptEvent::Sent { acknowledged }) => if
            acknowledged {
                AttemptPhase::RecordingDelivery { queue_id }
            } else {
                AttemptPhase::SchedulingRetry { queue_id }
            },
            (
                AttemptPhase::Preparing { queue_id } | AttemptPhase::Sending { queue_id },
                AttemptEvent::LockBusy | AttemptEvent::Failure,
            ) => AttemptPhase::SchedulingRetry { queue_id },
            (AttemptPhase::RecordingDelivery { .. }, AttemptEvent::Recorded) => AttemptPhase::Done {
                attempt: RuntimeDeliveryAttempt::Delivered,
            },
            (AttemptPhase::SchedulingRetry { .. }, AttemptEvent::Recorded) => AttemptPhase::Done {
                attempt: RuntimeDeliveryAttempt::RetryScheduled,
            },
            _ => AttemptPhase::Failed { error: RuntimeError::OutsideFailure },
        };
        DeliveryAttempt { phase }
    }

    /// Starts by selecting a message.
    pub fn start() -> (r: DeliveryAttempt)
        ensures
            r.phase == AttemptPhase::Selecting,
    {
        DeliveryAttempt { phase: AttemptPhase::Selecting }
    }

    /// Takes an event.
    pub fn attempt_next_runtime_delivery(&mut self, event: AttemptEvent)
        ensures
            *final(self) == old(self).next(event),
    {
        self.phase =
        match (self.phase, event) {
            (AttemptPhase::Done { attempt }, _) => AttemptPhase::Done { attempt },
            (AttemptPhase::Failed { error }, _) => AttemptPhase::Failed { error },
            (AttemptPhase::Selecting, AttemptEvent::LockBusy) => AttemptPhase::Failed {
                error: RuntimeError::LockStayedBusy,
            },
            (AttemptPhase::Selecting, AttemptEvent::Selected { queue_id }) => match queue_id {
                None => AttemptPhase::Done { attempt: RuntimeDeliveryAttempt::NoWork },
                Some(queue_id) => AttemptPhase::Preparing { queue_id },
            },
            (AttemptPhase::Preparing { queue_id }, AttemptEvent::Prepared { succeeded }) => if
            succeeded {
                AttemptPhase::Sending { queue_id }
            } else {
                AttemptPhase::SchedulingRetry { queue_id }
            },
            (AttemptPhase::Sending { queue_id }, AttemptEvent::Sent { acknowledged }) => if
            acknowledged {
                AttemptPhase::RecordingDelivery { queue_id }
            } else {
                AttemptPhase::SchedulingRetry { queue_id }
            },
            (
                AttemptPhase::Preparing { queue_id } | AttemptPhase::Sending { queue_id },
                AttemptEvent::LockBusy | AttemptEvent::Failure,
            ) => AttemptPhase::SchedulingRetry { queue_id },
            (AttemptPhase::RecordingDelivery { .. }, AttemptEvent::Recorded) => AttemptPhase::Done {
                attempt: RuntimeDeliveryAttempt::Delivered,
            },
            (AttemptPhase::SchedulingRetry { .. }, AttemptEvent::Recorded) => AttemptPhase::Done {
                attempt: RuntimeDeliveryAttempt::RetryScheduled,
            },
            _ => AttemptPhase::Failed { error: RuntimeError::OutsideFailure },
        };
    }
}

/// The message that an attempt is about.
pub open spec fn attempted(phase: AttemptPhase) -> Option<RuntimeQueueId> {
    match phase {
        AttemptPhase::Preparing { queue_id } => Some(queue_id),
        AttemptPhase::Sending { queue_id } => Some(queue_id),
        AttemptPhase::RecordingDelivery { queue_id } => Some(queue_id),
        AttemptPhase::SchedulingRetry { queue_id } => Some(queue_id),
        _ => None,
    }
}

/// An event by which preparing or sending a message ends without success.
pub open spec fn ends_badly(phase: AttemptPhase, event: AttemptEvent) -> bool {
    match event {
        AttemptEvent::LockBusy | AttemptEvent::Failure => true,
        AttemptEvent::Prepared { succeeded } => phase is Preparing && !succeeded,
        AttemptEvent::Sent { acknowledged } => phase is Sending && !acknowledged,
        _ => false,
    }
}

/// An attempt stays with the message that it selected, and a delivery is recorded only after an
/// acknowledgement. However preparing or sending a message ends without success, a retry is
/// scheduled for it, and once that is recorded the attempt is done.
pub proof fn attempt_records_what_happened(attempt: DeliveryAttempt, event: AttemptEvent)
    ensures
        attempted(attempt.phase) is Some && attempted(attempt.next(event).phase) is Some
            ==> attempted(attempt.next(event).phase) == attempted(attempt.phase),
        attempt.next(event).phase is RecordingDelivery && attempt.phase !is RecordingDelivery
            ==> event == (AttemptEvent::Sent { acknowledged: true }),
        attempt.phase !is Done && attempt.next(event).phase == (AttemptPhase::Done {
            attempt: RuntimeDeliveryAttempt::Delivered,
        }) ==> attempt.phase is RecordingDelivery && event == AttemptEvent::Recorded,
        attempted(attempt.phase) is Some ==> attempt.next(event).phase != (AttemptPhase::Done {
            attempt: RuntimeDeliveryAttempt::NoWork,
        }),
        (attempt.phase is Preparing || attempt.phase is Sending) && ends_badly(attempt.phase, event)
            ==> attempt.next(event).phase == (AttemptPhase::SchedulingRetry {
            queue_id: attempted(attempt.phase)->0,
        }),
        attempt.phase is SchedulingRetry && event == AttemptEvent::Recorded ==> attempt.next(
            event,
        ).phase == (AttemptPhase::Done { attempt: RuntimeDeliveryAttempt::RetryScheduled }),
{
}

/// Why a runtime stopped without an error.
#[derive(Clone, Copy, Debug, PartialEq, Eq, Structural)]
pub enum StopReason {
    IdleTimeout,
    CtrlC,
    OutboundActionLimit,
    SessionLimit,
}

impl StopReason {
    /// The name of the reason.
    pub fn as_str(self) -> (r: &'static str)
        ensures
            r@ == match self {
                StopReason::IdleTimeout => "idle-timeout"@,
                StopReason::CtrlC => "ctrl-c"@,
                StopReason::OutboundActionLimit => "outbound-action-limit"@,
                StopReason::SessionLimit => "session-limit"@,
            },
    {
        match self {
            StopReason::IdleTimeout => "idle-timeout",
            StopReason::CtrlC => "ctrl-c",
            StopReason::OutboundActionLimit => "outbound-action-limit",
            StopReason::SessionLimit => "session-limit",
        }
    }
}

/// What a runtime is doing.
#[derive(Clone, Copy, Debug, PartialEq, Eq, Structural)]
pub enum RuntimePhase {
    /// Wait for a connection, for work from the control channel, for the poll interval, for the
    /// idle deadline or for a signal.
    Waiting,
    /// Attempt the next delivery.
    Delivering,
    /// Attempt an automatic synchronization.
    Syncing,
    /// Serve the connection that was accepted.
    Serving,
    /// Close and report.
    Stopped { reason: StopReason },
    /// Close and fail.
    Failed { error: RuntimeError },
}

/// What happened in a runtime.
#[derive(Clone, Copy, Debug, PartialEq, Eq, Structural)]
pub enum RuntimeEvent {
    Connection { now: TimeSpan },
    Ipc { now: TimeSpan },
    IpcClosed,
    Tick,
    IdleTimeout,
    Shutdown,
    DeliveryAttempted { attempt: RuntimeDeliveryAttempt, now: TimeSpan },
    SyncAttempted { attempted: bool, now: TimeSpan },
    /// The session ended, well or with an error of its own.
    SessionEnded,
    /// The local state failed during the session.
    LocalSessionFailure,
    OutsideFailure,
}

/// A runtime. Times are counted from its start.
#[derive(Clone, Copy, Debug, PartialEq, Eq, Structural)]
pub struct RuntimeLoop {
    pub options: RuntimeOptions,
    pub accepted_sessions: usize,
    pub outbound_actions: usize,
    pub last_activity: TimeSpan,
    pub phase: RuntimePhase,
}

impl RuntimeLoop {
    /// The counters keep to the limits: once a limit is reached, the runtime goes on only to
    /// finish the session that reached it.
    pub open spec fn wf(self) -> bool {
        &&& self.options.fault() is None
        &&& self.options.max_sessions != 0 ==> self.accepted_sessions <= self.options.max_sessions
        &&& self.options.max_outbound_actions != 0 ==> self.outbound_actions
            <= self.options.max_outbound_actions
        &&& self.open() && self.options.max_outbound_actions != 0 ==> self.outbound_actions
            < self.options.max_outbound_actions
        &&& self.open() && self.phase != RuntimePhase::Serving && self.options.max_sessions != 0
            ==> self.accepted_sessions < self.options.max_sessions
    }

    /// The runtime has not ended.
    pub open spec fn open(self) -> bool {
        self.phase !is Stopped && self.phase !is Failed
    }

    /// The same runtime in another phase.
    pub open spec fn at(self, phase: RuntimePhase) -> RuntimeLoop {
        RuntimeLoop { phase, ..self }
    }

    /// The same runtime after an outbound action.
    pub open spec fn acted(self, now: TimeSpan) -> RuntimeLoop {
        let actions = (self.outbound_actions + 1) as usize;
        RuntimeLoop {
            outbound_actions: actions,
            last_activity: now,
            phase: if self.options.max_outbound_actions != 0 && actions
                >= self.options.max_outbound_actions {
                RuntimePhase::Stopped { reason: StopReason::OutboundActionLimit }
            } else {
                RuntimePhase::Waiting
            },
            ..self
        }
    }

    /// What follows an event.
    pub open spec fn next(self, event: RuntimeEvent) -> RuntimeLoop {
        match (self.phase, event) {
            (RuntimePhase::Stopped { .. }, _) => self,
            (RuntimePhase::Failed { .. }, _) => self,
            (RuntimePhase::Waiting, RuntimeEvent::IdleTimeout) => self.at(
                RuntimePhase::Stopped { reason: StopReason::IdleTimeout },
            ),
            (RuntimePhase::Waiting, RuntimeEvent::Shutdown) => self.at(
                RuntimePhase::Stopped { reason: StopReason::CtrlC },
            ),
            (RuntimePhase::Waiting, RuntimeEvent::IpcClosed) => self.at(
                RuntimePhase::Failed { error: RuntimeError::IpcAcceptorStopped },
            ),
            (RuntimePhase::Waiting, RuntimeEvent::Ipc { now }) => RuntimeLoop {
                last_activity: now,
                ..self
            },
            (RuntimePhase::Waiting, RuntimeEvent::Tick) => self.at(RuntimePhase::Delivering),
            (RuntimePhase::Waiting, RuntimeEvent::Connection { now }) => RuntimeLoop {
                accepted_sessions: (self.accepted_sessions + 1) as usize,
                last_activity: now,
                phase: RuntimePhase::Serving,
                ..self
            },
            (RuntimePhase::Delivering, RuntimeEvent::DeliveryAttempted { attempt, now }) => if
            attempt != RuntimeDeliveryAttempt::NoWork {
                self.acted(now)
            } else if self.options.auto_sync_seconds != 0 {
                self.at(RuntimePhase::Syncing)
            } else {
                self.at(RuntimePhase::Waiting)
            },
            (RuntimePhase::Syncing, RuntimeEvent::SyncAttempted { attempted, now }) => if
            attempted {
                self.acted(now)
            } else {
                self.at(RuntimePhase::Waiting)
            },
            (RuntimePhase::Serving, RuntimeEvent::SessionEnded) => if self.options.max_sessions
                != 0 && self.accepted_sessions >= self.options.max_sessions {
                self.at(RuntimePhase::Stopped { reason: StopReason::SessionLimit })
            } else {
                self.at(RuntimePhase::Waiting)
            },
            (RuntimePhase::Serving, RuntimeEvent::LocalSessionFailure) => self.at(
                RuntimePhase::Failed { error: RuntimeError::LocalSessionFailure },
            ),
            _ => self.at(RuntimePhase::Failed { error: RuntimeError::OutsideFailure }),
        }
    }

    /// Starts with valid options.
    pub fn start(options: RuntimeOptions) -> (r: Result<RuntimeLoop, RuntimeError>)
        ensures
            match r {
                Ok(runtime) => options.fault() is None && runtime.wf() && runtime == (RuntimeLoop {
                    options,
                    accepted_sessions: 0,
                    outbound_actions: 0,
                    last_activity: TimeSpan { nanos: 0 },
                    phase: RuntimePhase::Waiting,
                }),
                Err(error) => options.fault() == Some(error),
            },
    {
        if let Err(error) = options.validate() {
            return Err(error);
        }
        Ok(
            RuntimeLoop {
                options,
                accepted_sessions: 0,
                outbound_actions: 0,
                last_activity: TimeSpan { nanos: 0 },
                phase: RuntimePhase::Waiting,
            },
        )
    }

    /// When the runtime stops for want of activity, if it does.
    pub fn idle_deadline(&self) -> (r: Option<TimeSpan>)
        requires
            self.wf(),
            self.last_activity.nanos <= u64::MAX * 1_000_000_000,
        ensures
            r == if self.options.idle_seconds == 0 {
                None::<TimeSpan>
            } else {
                Some(
                    TimeSpan {
                        nanos: (self.last_activity.nanos + self.options.idle_seconds
                            * 1_000_000_000) as u128,
                    },
                )
            },
    {
        if self.options.idle_seconds == 0 {
            None
        } else {
            Some(
                TimeSpan {
                    nanos: self.last_activity.nanos + self.options.idle_seconds as u128
                        * 1_000_000_000,
                },
            )
        }
    }

    fn act(&mut self, now: TimeSpan)
        requires
            old(self).outbound_actions < usize::MAX,
        ensures
            *final(self) == old(self).acted(now),
    {
        self.outbound_actions = self.outbound_actions + 1;
        self.last_activity = now;
        if self.options.max_outbound_actions != 0 && self.outbound_actions
            >= self.options.max_outbound_actions {
            self.phase = RuntimePhase::Stopped { reason: StopReason::OutboundActionLimit };
        } else {
            self.phase = RuntimePhase::Waiting;
        }
    }

    /// Takes an event.
    pub fn runtime(&mut self, event: RuntimeEvent)
        requires
            old(self).wf(),
            old(self).accepted_sessions < usize::MAX,
            old(self).outbound_actions < usize::MAX,
        ensures
            final(self).wf(),
            *final(self) == old(self).next(event),
    {
        match (self.phase, event) {
            (RuntimePhase::Stopped { .. }, _) => {},
            (RuntimePhase::Failed { .. }, _) => {},
            (RuntimePhase::Waiting, RuntimeEvent::IdleTimeout) => {
                self.phase = RuntimePhase::Stopped { reason: StopReason::IdleTimeout };
            },
            (RuntimePhase::Waiting, RuntimeEvent::Shutdown) => {
                self.phase = RuntimePhase::Stopped { reason: StopReason::CtrlC };
            },
            (RuntimePhase::Waiting, RuntimeEvent::IpcClosed) => {
                self.phase = RuntimePhase::Failed { error: RuntimeError::IpcAcceptorStopped };
            },
            (RuntimePhase::Waiting, RuntimeEvent::Ipc { now }) => {
                self.last_activity = now;
            },
            (RuntimePhase::Waiting, RuntimeEvent::Tick) => {
                self.phase = RuntimePhase::Delivering;
            },
            (RuntimePhase::Waiting, RuntimeEvent::Connection { now }) => {
                self.accepted_sessions = self.accepted_sessions + 1;
                self.last_activity = now;
                self.phase = RuntimePhase::Serving;
            },
            (RuntimePhase::Delivering, RuntimeEvent::DeliveryAttempted { attempt, now }) => {
                if attempt != RuntimeDeliveryAttempt::NoWork {
                    self.act(now);
                } else if self.options.auto_sync_seconds != 0 {
                    self.phase = RuntimePhase::Syncing;
                } else {
                    self.phase = RuntimePhase::Waiting;
                }
            },
            (RuntimePhase::Syncing, RuntimeEvent::SyncAttempted { attempted, now }) => {
                if attempted {
                    self.act(now);
                } else {
                    self.phase = RuntimePhase::Waiting;
                }
            },
            (RuntimePhase::Serving, RuntimeEvent::SessionEnded) => {
                if self.options.max_sessions != 0 && self.accepted_sessions
                    >= self.options.max_sessions {
                    self.phase = RuntimePhase::Stopped { reason: StopReason::SessionLimit };
                } else {
                    self.phase = RuntimePhase::Waiting;
                }
            },
            (RuntimePhase::Serving, RuntimeEvent::LocalSessionFailure) => {
                self.phase = RuntimePhase::Failed { error: RuntimeError::LocalSessionFailure };
            },
            _ => {
                self.phase = RuntimePhase::Failed { error: RuntimeError::OutsideFailure };
            },
        }
    }
}

/// A runtime goes beyond neither of its limits, whatever happens, and an ended runtime stays
/// ended.
pub proof fn runtime_keeps_its_limits(runtime: RuntimeLoop, event: RuntimeEvent)
    requires
        runtime.wf(),
        runtime.accepted_sessions < usize::MAX,
        runtime.outbound_actions < usize::MAX,
    ensures
        runtime.next(event).wf(),
        !runtime.open() ==> runtime.next(event) == runtime,
        runtime.options.max_sessions != 0 ==> runtime.next(event).accepted_sessions
            <= runtime.options.max_sessions,
        runtime.options.max_outbound_actions != 0 ==> runtime.next(event).outbound_actions
            <= runtime.options.max_outbound_actions,
{
}

/// A session that ends with an error of its own does not stop the runtime: unless the session
/// limit is reached, the runtime listens again.
pub proof fn failed_session_does_not_stop_runtime(runtime: RuntimeLoop)
    requires
        runtime.wf(),
        runtime.phase == RuntimePhase::Serving,
        runtime.options.max_sessions == 0 || runtime.accepted_sessions
            < runtime.options.max_sessions,
    ensures
        runtime.next(RuntimeEvent::SessionEnded).phase == RuntimePhase::Waiting,
{
}

/// Tests that the local device and its certificate are still those of the published ticket.
pub fn check_session_identity(
    device_id: DeviceId,
    certificate: &DeviceCertificate,
    ticket_certificate: &DeviceCertificate,
) -> (r: Result<(), RuntimeError>)
    ensures
        r == if device_id != ticket_certificate.device_id {
            Err(RuntimeError::DeviceChanged)
        } else if *certificate != *ticket_certificate {
            Err(RuntimeError::CertificateChanged)
        } else {
            Ok::<(), RuntimeError>(())
        },
{
    if device_id != ticket_certificate.device_id {
        return Err(RuntimeError::DeviceChanged);
    }
    if *certificate != *ticket_certificate {
        return Err(RuntimeError::CertificateChanged);
    }
    Ok(())
}

/// What became of the steps of an accepted session.
#[derive(Clone, Copy, Debug, PartialEq, Eq, Structural)]
pub struct SessionSteps {
    pub lock_acquired: bool,
    pub guard_prepared: bool,
    pub state_prepared: bool,
    pub operation_succeeded: bool,
    pub mirror_finished: bool,
}

/// How an accepted session ended, where the local state did not fail.
#[derive(Clone, Copy, Debug, PartialEq, Eq, Structural)]
pub enum SessionEnd {
    Completed,
    OperationFailed,
    LockBusy,
}

/// How an accepted session ends: a lock that stays busy and an operation that fails end the
/// session, and anything that leaves the local state in doubt ends the runtime.
pub fn handle_runtime_application_connection(steps: SessionSteps) -> (r: Result<
    SessionEnd,
    RuntimeError,
>)
    ensures
        r == if !steps.lock_acquired {
            Ok::<SessionEnd, RuntimeError>(SessionEnd::LockBusy)
        } else if !steps.guard_prepared {
            Err(RuntimeError::VaultGuardFailed)
        } else if !steps.state_prepared {
            Err(RuntimeError::PreparationFailed { mirror_failed: !steps.mirror_finished })
        } else if !steps.mirror_finished {
            Err(RuntimeError::MirrorFailed)
        } else if steps.operation_succeeded {
            Ok(SessionEnd::Completed)
        } else {
            Ok(SessionEnd::OperationFailed)
        },
{
    if !steps.lock_acquired {
        return Ok(SessionEnd::LockBusy);
    }
    if !steps.guard_prepared {
        return Err(RuntimeError::VaultGuardFailed);
    }
    if !steps.state_prepared {
        return Err(RuntimeError::PreparationFailed { mirror_failed: !steps.mirror_finished });
    }
    if !steps.mirror_finished {
        return Err(RuntimeError::MirrorFailed);
    }
    if steps.operation_succeeded {
        Ok(SessionEnd::Completed)
    } else {
        Ok(SessionEnd::OperationFailed)
    }
}

/// The texts of some path components.
pub open spec fn component_texts(components: Seq<String>) -> Seq<Seq<char>> {
    components.map_values(|component: String| component@)
}

/// Whether a path begins with all the components of another.
pub fn path_starts_with(path: &[String], base: &[String]) -> (r: bool)
    ensures
        r == component_texts(base@).is_prefix_of(component_texts(path@)),
{
    if base.len() > path.len() {
        return false;
    }
    let mut i: usize = 0;
    while i < base.len()
        invariant
            i <= base@.len() <= path@.len(),
            forall|j: int|
                0 <= j < i ==> #[trigger] component_texts(base@)[j] == component_texts(path@)[j],
        decreases base@.len() - i,
    {
        if !same_text(base[i].as_str(), path[i].as_str()) {
            proof {
                assert(component_texts(base@)[i as int] != component_texts(path@)[i as int]);
                assert(component_texts(path@).subrange(0, base@.len() as int)[i as int]
                    == component_texts(path@)[i as int]);
            }
            return false;
        }
        proof {
            assert(component_texts(base@)[i as int] == component_texts(path@)[i as int]);
        }
        i += 1;
    }
    proof {
        assert(component_texts(base@) =~= component_texts(path@).subrange(0, base@.len() as int));
    }
    true
}

/// Tests where the descriptor of the control channel goes: its path names a file, and it lies
/// outside the state directory. Both paths are given by their components, resolved.
pub fn resolve_runtime_ipc_descriptor_path(
    has_file_name: bool,
    resolved: &[String],
    state_directory: &[String],
) -> (r: Result<(), RuntimeError>)
    ensures
        r == if !has_file_name {
            Err(RuntimeError::DescriptorWithoutName)
        } else if component_texts(state_directory@).is_prefix_of(component_texts(resolved@)) {
            Err(RuntimeError::DescriptorInsideState)
        } else {
            Ok::<(), RuntimeError>(())
        },
{
    if !has_file_name {
        return Err(RuntimeError::DescriptorWithoutName);
    }
    if path_starts_with(resolved, state_directory) {
        return Err(RuntimeError::DescriptorInsideState);
    }
    Ok(())
}

/// An answer on the control channel.
pub enum IpcReply {
    Pong { account_id: AccountId, device_id: DeviceId },
    MessageQueued { queue_id: String, inserted: bool },
    OutboxStatus,
    Error,
}

/// Judges the answer to a ping: it comes from the runtime that the descriptor names.
pub fn runtime_ipc_ping(reply: &IpcReply, account_id: AccountId, device_id: DeviceId) -> (r: Result<
    (),
    RuntimeError,
>)
    ensures
        r == match *reply {
            IpcReply::Pong { account_id: answered_account, device_id: answered_device } => if
            answered_account == account_id && answered_device == device_id {
                Ok::<(), RuntimeError>(())
            } else {
                Err(RuntimeError::PingIdentityMismatch)
            },
            IpcReply::Error => Err(RuntimeError::RejectedByRuntime),
            _ => Err(RuntimeError::UnexpectedResponse),
        },
{
    match reply {
        IpcReply::Pong { account_id: answered_account, device_id: answered_device } => {
            if *answered_account == account_id && *answered_device == device_id {
                Ok(())
            } else {
                Err(RuntimeError::PingIdentityMismatch)
            }
        },
        IpcReply::Error => Err(RuntimeError::RejectedByRuntime),
        _ => Err(RuntimeError::UnexpectedResponse),
    }
}

/// Judges the answer to a message that was handed over: it is about that message. The result
/// tells whether the message is new.
pub fn runtime_ipc_queue_message(reply: &IpcReply, request_id: &str) -> (r: Result<
    bool,
    RuntimeError,
>)
    ensures
        r == match *reply {
            IpcReply::MessageQueued { queue_id, inserted } => if queue_id@ == request_id@ {
                Ok::<bool, RuntimeError>(inserted)
            } else {
                Err(RuntimeError::DifferentQueueId)
            },
            IpcReply::Error => Err(RuntimeError::RejectedByRuntime),
            _ => Err(RuntimeError::UnexpectedResponse),
        },
{
    match reply {
        IpcReply::MessageQueued { queue_id, inserted } => {
            if same_text(queue_id.as_str(), request_id) {
                Ok(*inserted)
            } else {
                Err(RuntimeError::DifferentQueueId)
            }
        },
        IpcReply::Error => Err(RuntimeError::RejectedByRuntime),
        _ => Err(RuntimeError::UnexpectedResponse),
    }
}

/// Judges the answer to a question for the outbox.
pub fn runtime_ipc_outbox_status(reply: &IpcReply) -> (r: Result<(), RuntimeError>)
    ensures
        r == match *reply {
            IpcReply::OutboxStatus => Ok::<(), RuntimeError>(()),
            IpcReply::Error => Err(RuntimeError::RejectedByRuntime),
            _ => Err(RuntimeError::UnexpectedResponse),
        },
{
    match reply {
        IpcReply::OutboxStatus => Ok(()),
        IpcReply::Error => Err(RuntimeError::RejectedByRuntime),
        _ => Err(RuntimeError::UnexpectedResponse),
    }
}

/// What was asked on the control channel, with what became of it.
#[derive(Clone, Copy, Debug, PartialEq, Eq, Structural)]
pub enum IpcWork {
    Ping,
    QueueMessage { queue_id: RuntimeQueueId, inserted: Option<bool> },
    OutboxStatus { collected: bool },
}

/// The answer to what was asked on the control channel.
pub fn handle_runtime_ipc_work(work: IpcWork, account_id: AccountId, device_id: DeviceId) -> (r:
    IpcReply)
    ensures
        match (work, r) {
            (
                IpcWork::Ping,
                IpcReply::Pong { account_id: answered_account, device_id: answered_device },
            ) => answered_account == account_id && answered_device == device_id,
            (
                IpcWork::QueueMessage { queue_id, inserted },
                IpcReply::MessageQueued { queue_id: text, inserted: stored },
            ) => inserted == Some(stored) && text@ == crate::text::hex(queue_id.raw.bytes()),
            (IpcWork::QueueMessage { inserted, .. }, IpcReply::Error) => inserted is None,
            (IpcWork::OutboxStatus { collected }, IpcReply::OutboxStatus) => collected,
            (IpcWork::OutboxStatus { collected }, IpcReply::Error) => !collected,
            _ => false,
        },
{
    match work {
        IpcWork::Ping => IpcReply::Pong { account_id, device_id },
        IpcWork::QueueMessage { queue_id, inserted } => match inserted {
            Some(inserted) => IpcReply::MessageQueued { queue_id: queue_id.raw.to_text(), inserted },
            None => IpcReply::Error,
        },
        IpcWork::OutboxStatus { collected } => if collected {
            IpcReply::OutboxStatus
        } else {
            IpcReply::Error
        },
    }
}

/// Options are usable exactly where each lies in its range; the first that does not names the
/// error.
pub proof fn usable_runtime_options_lie_in_range(options: RuntimeOptions)
    ensures
        ({
            let fault = options.fault();
            let few_sessions = options.max_sessions <= 65_536;
            let idle_a_day = options.idle_seconds <= 86_400;
            let polls = 10 <= options.poll_milliseconds && options.poll_milliseconds <= 10_000;
            let retries = 0 < options.retry_base_seconds && options.retry_base_seconds <= 3_600;
            let retries_grow = options.retry_base_seconds <= options.retry_max_seconds
                && options.retry_max_seconds <= 3_600;
            let syncs_an_hour = options.auto_sync_seconds <= 3_600;
            &&& fault == Some(RuntimeError::SessionsOutOfRange) <==> !few_sessions
            &&& fault == Some(RuntimeError::IdleOutOfRange) <==> few_sessions && !idle_a_day
            &&& fault == Some(RuntimeError::PollOutOfRange) <==> few_sessions && idle_a_day
                && !polls
            &&& fault == Some(RuntimeError::RetryBaseOutOfRange) <==> few_sessions && idle_a_day
                && polls && !retries
            &&& fault == Some(RuntimeError::RetryMaxOutOfRange) <==> few_sessions && idle_a_day
                && polls && retries && !retries_grow
            &&& fault == Some(RuntimeError::AutoSyncOutOfRange) <==> few_sessions && idle_a_day
                && polls && retries && retries_grow && !syncs_an_hour
            &&& fault is None <==> few_sessions && idle_a_day && polls && retries
                && retries_grow && syncs_an_hour
        }),
{
}

/// An attempt goes on exactly as its steps ended: it prepares the selected message, sends what it
/// prepared, records the delivery of what was acknowledged, and schedules a retry of what was not
/// prepared, sent or acknowledged.
pub proof fn attempt_goes_step_by_step(
    attempt: DeliveryAttempt,
    event: AttemptEvent,
    id: RuntimeQueueId,
)
    requires
        attempt.phase !is Done,
        attempt.phase !is Failed,
    ensures
        ({
            let before = attempt.phase;
            let after = attempt.next(event).phase;
            let preparing = AttemptPhase::Preparing { queue_id: id };
            let sending = AttemptPhase::Sending { queue_id: id };
            let interrupted = event == AttemptEvent::LockBusy || event == AttemptEvent::Failure;
            &&& after == preparing <==> before == AttemptPhase::Selecting && event == (
            AttemptEvent::Selected { queue_id: Some(id) })
            &&& after == sending <==> before == preparing && event == (
            AttemptEvent::Prepared { succeeded: true })
            &&& after == (AttemptPhase::RecordingDelivery { queue_id: id }) <==> before == sending
                && event == (AttemptEvent::Sent { acknowledged: true })
            &&& after == (AttemptPhase::SchedulingRetry { queue_id: id }) <==> {
                ||| before == preparing && (interrupted || event == (
                AttemptEvent::Prepared { succeeded: false }))
                ||| before == sending && (interrupted || event == (
                AttemptEvent::Sent { acknowledged: false }))
            }
            &&& after == (AttemptPhase::Done { attempt: RuntimeDeliveryAttempt::NoWork })
                <==> before == AttemptPhase::Selecting && event == (
            AttemptEvent::Selected { queue_id: None })
            &&& after == (AttemptPhase::Done { attempt: RuntimeDeliveryAttempt::Delivered })
                <==> before is RecordingDelivery && event == AttemptEvent::Recorded
            &&& after == (AttemptPhase::Done { attempt: RuntimeDeliveryAttempt::RetryScheduled })
                <==> before is SchedulingRetry && event == AttemptEvent::Recorded
            &&& after == (AttemptPhase::Failed { error: RuntimeError::LockStayedBusy })
                <==> before == AttemptPhase::Selecting && event == AttemptEvent::LockBusy
            &&& after != AttemptPhase::Selecting
        }),
{
}

/// An attempt that ended stays as it ended.
pub proof fn ended_attempt_stays(attempt: DeliveryAttempt, event: AttemptEvent)
    requires
        attempt.phase is Done || attempt.phase is Failed,
    ensures
        attempt.next(event) == attempt,
{
}

/// The runtime acted: it tried to deliver a message or to synchronize.
pub open spec fn has_acted(runtime: RuntimeLoop, event: RuntimeEvent) -> bool {
    ||| runtime.phase == RuntimePhase::Delivering && (
    event matches RuntimeEvent::DeliveryAttempted { attempt, .. } && attempt
        != RuntimeDeliveryAttempt::NoWork)
    ||| runtime.phase == RuntimePhase::Syncing && (event matches RuntimeEvent::SyncAttempted {
        attempted,
        ..
    } && attempted)
}

/// The runtime does next what its events call for, and stops for exactly the reason that there
/// is: idleness, a signal, or a limit of actions or sessions that is reached.
pub proof fn runtime_does_what_comes(runtime: RuntimeLoop, event: RuntimeEvent)
    requires
        runtime.wf(),
        runtime.open(),
        runtime.accepted_sessions < usize::MAX,
        runtime.outbound_actions < usize::MAX,
    ensures
        ({
            let after = runtime.next(event).phase;
            let stopped = |reason: StopReason| after == (RuntimePhase::Stopped { reason });
            let acted = has_acted(runtime, event);
            let last_action = runtime.options.max_outbound_actions > 0 && runtime.outbound_actions
                + 1 == runtime.options.max_outbound_actions;
            let session_ended = runtime.phase == RuntimePhase::Serving && event is SessionEnded;
            let last_session = runtime.options.max_sessions > 0 && runtime.accepted_sessions
                == runtime.options.max_sessions;
            let no_work = runtime.phase == RuntimePhase::Delivering && event is DeliveryAttempted
                && !acted;
            let waiting = runtime.phase == RuntimePhase::Waiting;
            &&& after == RuntimePhase::Delivering <==> waiting && event is Tick
            &&& after == RuntimePhase::Serving <==> waiting && event is Connection
            &&& after == RuntimePhase::Syncing <==> no_work && runtime.options.auto_sync_seconds > 0
            &&& after == RuntimePhase::Waiting <==> {
                ||| waiting && event is Ipc
                ||| acted && !last_action
                ||| no_work && runtime.options.auto_sync_seconds == 0
                ||| runtime.phase == RuntimePhase::Syncing && event is SyncAttempted && !acted
                ||| session_ended && !last_session
            }
            &&& stopped(StopReason::IdleTimeout) <==> waiting && event is IdleTimeout
            &&& stopped(StopReason::CtrlC) <==> waiting && event is Shutdown
            &&& stopped(StopReason::OutboundActionLimit) <==> acted && last_action
            &&& stopped(StopReason::SessionLimit) <==> session_ended && last_session
            &&& after == (RuntimePhase::Failed { error: RuntimeError::IpcAcceptorStopped })
                <==> waiting && event is IpcClosed
            &&& after == (RuntimePhase::Failed { error: RuntimeError::LocalSessionFailure })
                <==> runtime.phase == RuntimePhase::Serving && event is LocalSessionFailure
            &&& event is OutsideFailure ==> after == (RuntimePhase::Failed {
                error: RuntimeError::OutsideFailure,
            })
        }),
{
}

/// The runtime counts each connection that it takes and each time that it acts, and notes the time
/// of these and of work from the control channel as its last activity.
pub proof fn runtime_counts_what_it_does(runtime: RuntimeLoop, event: RuntimeEvent)
    requires
        runtime.wf(),
        runtime.accepted_sessions < usize::MAX,
        runtime.outbound_actions < usize::MAX,
    ensures
        ({
            let after = runtime.next(event);
            let connected = runtime.phase == RuntimePhase::Waiting && event is Connection;
            let acted = has_acted(runtime, event);
            &&& after.accepted_sessions == runtime.accepted_sessions + (if connected {
                1int
            } else {
                0
            })
            &&& after.outbound_actions == runtime.outbound_actions + (if acted {
                1int
            } else {
                0
            })
            &&& after.last_activity == match event {
                RuntimeEvent::Connection { now } if connected => now,
                RuntimeEvent::Ipc { now } if runtime.phase == RuntimePhase::Waiting => now,
                RuntimeEvent::DeliveryAttempted { now, .. } if acted => now,
                RuntimeEvent::SyncAttempted { now, .. } if acted => now,
                _ => runtime.last_activity,
            }
            &&& after.options == runtime.options
        }),
{
}

} // verus!
