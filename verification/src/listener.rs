//! Listening for one connection: what is checked before, what is published, how the requester
//! is authorized, and which request is served.

use crate::history_rewrap::{
    approval_fault, prepare_history_rewrap_approval, text_view, ApprovalFlags,
    HistoryRewrapApproval, RewrapError,
};
use crate::identity::{
    certificate_of, is_first_certificate, listing_is_exact, AccountDeviceList, DeviceCertificate,
    ProtocolLimits,
};
use crate::ids::{AccountId, DeviceId, Digest};
use crate::recovery_link::{
    HistoryRecoveryLinkOptions, MAX_HISTORY_RECOVERY_LINK_VALIDITY_SECONDS,
};
use crate::runtime::{component_texts, path_starts_with};
use crate::ticket::ConnectionTicket;
use vstd::prelude::*;

verus! {

/// Why a listener does not start, or ends with an error.
#[derive(Clone, Copy, Debug, PartialEq, Eq, Structural)]
pub enum ListenError {
    CertificateNotListed,
    Approval { error: RewrapError },
    PageSizeOutOfRange,
    ValidityOutOfRange,
    ApprovalMissing,
    TicketAndLinkPathsEqual,
    TicketAndQrPathsEqual,
    LinkAndQrPathsEqual,
    BatchFirst,
    PauseFirst,
    AuthorizationRepeated,
    AuthorizationExpected,
    AuthorizationOfAnotherSession,
    AuthorityOfAnotherAccount,
    AuthorityRolledBack,
    DeviceNotAuthorized,
    RejectedByListener,
    AcceptanceMismatch,
    UnexpectedResponse,
    OutsideFailure,
}

/// What a listener publishes, and where. Paths are given by their components.
pub struct ListenOptions {
    pub ticket_file: Option<Vec<String>>,
    pub link_file: Option<Vec<String>>,
    pub qr_file: Option<Vec<String>>,
    pub discovery_publish: bool,
    pub page_size: usize,
    pub valid_for_seconds: u64,
}

impl ListenOptions {
    /// A recovery link is published in some way.
    pub open spec fn publishes_link(self) -> bool {
        self.link_file is Some || self.qr_file is Some || self.discovery_publish
    }

    /// Whether a recovery link is published in some way.
    pub fn publishes_history_recovery_link(&self) -> (r: bool)
        ensures
            r == self.publishes_link(),
    {
        self.link_file.is_some() || self.qr_file.is_some() || self.discovery_publish
    }

    /// The first option of a published link that is out of range.
    pub open spec fn link_fault(self, limits: ProtocolLimits) -> Option<ListenError> {
        if !self.publishes_link() {
            None
        } else if !(1 <= self.page_size <= limits.max_history_rewrap_entries) {
            Some(ListenError::PageSizeOutOfRange)
        } else if !(1 <= self.valid_for_seconds <= MAX_HISTORY_RECOVERY_LINK_VALIDITY_SECONDS) {
            Some(ListenError::ValidityOutOfRange)
        } else {
            None
        }
    }

    /// The first two outputs that would go to one path.
    pub open spec fn path_fault(self) -> Option<ListenError> {
        if same_path(self.ticket_file, self.link_file) {
            Some(ListenError::TicketAndLinkPathsEqual)
        } else if same_path(self.ticket_file, self.qr_file) {
            Some(ListenError::TicketAndQrPathsEqual)
        } else if same_path(self.link_file, self.qr_file) {
            Some(ListenError::LinkAndQrPathsEqual)
        } else {
            None
        }
    }

    /// Tests that no two outputs go to one path.
    pub fn check_output_paths(&self) -> (r: Result<(), ListenError>)
        ensures
            match self.path_fault() {
                None => r is Ok,
                Some(error) => r == Err::<(), ListenError>(error),
            },
    {
        if equal_paths(&self.ticket_file, &self.link_file) {
            return Err(ListenError::TicketAndLinkPathsEqual);
        }
        if equal_paths(&self.ticket_file, &self.qr_file) {
            return Err(ListenError::TicketAndQrPathsEqual);
        }
        if equal_paths(&self.link_file, &self.qr_file) {
            return Err(ListenError::LinkAndQrPathsEqual);
        }
        Ok(())
    }
}

/// Two outputs are both wanted, at one path.
pub open spec fn same_path(a: Option<Vec<String>>, b: Option<Vec<String>>) -> bool {
    &&& a is Some
    &&& b is Some
    &&& component_texts(a->0@) == component_texts(b->0@)
}

fn equal_paths(a: &Option<Vec<String>>, b: &Option<Vec<String>>) -> (r: bool)
    ensures
        r == same_path(*a, *b),
{
    match (a, b) {
        (Some(first), Some(second)) => {
            let equal = path_starts_with(first.as_slice(), second.as_slice()) && path_starts_with(
                second.as_slice(),
                first.as_slice(),
            );
            proof {
                let f = component_texts(first@);
                let s = component_texts(second@);
                assert(f.subrange(0, f.len() as int) =~= f);
                assert(s.subrange(0, s.len() as int) =~= s);
                if equal {
                    assert(f =~= s);
                }
            }
            equal
        },
        _ => false,
    }
}

/// The first reason for which a listener does not start.
pub open spec fn listen_fault(
    options: ListenOptions,
    flags: ApprovalFlags,
    list: AccountDeviceList,
    certificate: DeviceCertificate,
    requester: AccountId,
    derived_sas: Option<Seq<char>>,
    limits: ProtocolLimits,
) -> Option<ListenError> {
    if certificate_of(list.certificates@, certificate.device_id) != Some(certificate) {
        Some(ListenError::CertificateNotListed)
    } else if no_flags(flags) {
        options.link_fault(limits)
    } else {
        match approval_fault(flags, list, certificate, requester, derived_sas, limits) {
            Some(error) => Some(ListenError::Approval { error }),
            None => options.link_fault(limits),
        }
    }
}

/// No flag of an approval was given.
pub open spec fn no_flags(flags: ApprovalFlags) -> bool {
    flags.conversation_id is None && flags.recipient_device_id is None && flags.approved_sas is None
}

/// Tests everything that a listener can be refused for before it changes any state: its
/// certificate is the listed one, its approval is complete or absent, and what it publishes is
/// in range. The result is the approval.
pub fn listen_checks(
    options: &ListenOptions,
    flags: &ApprovalFlags,
    device_list: &AccountDeviceList,
    certificate: DeviceCertificate,
    allowed_requester_account_id: AccountId,
    derived_sas: &Option<String>,
    limits: ProtocolLimits,
) -> (r: Result<Option<HistoryRewrapApproval>, ListenError>)
    ensures
        match listen_fault(
            *options,
            *flags,
            *device_list,
            certificate,
            allowed_requester_account_id,
            text_view(*derived_sas),
            limits,
        ) {
            Some(error) => r == Err::<Option<HistoryRewrapApproval>, ListenError>(error),
            None => {
                &&& r is Ok
                &&& no_flags(*flags) <==> r->Ok_0 is None
                &&& r->Ok_0 matches Some(approval) ==> approval.conversation_id
                    == flags.conversation_id->0 && approval.recipient_device_id
                    == flags.recipient_device_id->0 && approval.sas@ == derived_sas->0@
                    && approval.range_start == flags.range_start && approval.count == flags.count
            },
        },
{
    match device_list.certificate_for(certificate.device_id) {
        Some(listed) => {
            if listed != certificate {
                return Err(ListenError::CertificateNotListed);
            }
        },
        None => return Err(ListenError::CertificateNotListed),
    }
    let approval = match prepare_history_rewrap_approval(
        flags,
        device_list,
        certificate,
        allowed_requester_account_id,
        derived_sas,
        limits,
    ) {
        Ok(approval) => approval,
        Err(error) => return Err(ListenError::Approval { error }),
    };
    if options.publishes_history_recovery_link() {
        if options.page_size < 1 || options.page_size as u64 > limits.max_history_rewrap_entries {
            return Err(ListenError::PageSizeOutOfRange);
        }
        if options.valid_for_seconds < 1 || options.valid_for_seconds
            > MAX_HISTORY_RECOVERY_LINK_VALIDITY_SECONDS {
            return Err(ListenError::ValidityOutOfRange);
        }
    }
    Ok(approval)
}

/// The link that a listener signs for what its user approved: to the listener's endpoint, from
/// its certificate and its device list, for the approved device, conversation and range.
pub fn recovery_link_options(
    options: &ListenOptions,
    approval: &Option<HistoryRewrapApproval>,
    ticket: &ConnectionTicket,
    issued_at_unix_seconds: u64,
    device_list_verified: bool,
    source_authorized: bool,
) -> (r: Result<Option<HistoryRecoveryLinkOptions>, ListenError>)
    ensures
        match r {
            Err(error) => error == ListenError::ApprovalMissing && options.publishes_link()
                && *approval is None,
            Ok(None) => !options.publishes_link(),
            Ok(Some(link)) => {
                &&& options.publishes_link()
                &&& *approval is Some
                &&& link.endpoint == ticket.content.endpoint
                &&& link.source_certificate == ticket.content.listener_certificate
                &&& link.account_device_list.authority
                    == ticket.content.listener_directory.device_list.authority
                &&& link.account_device_list.certificates@
                    == ticket.content.listener_directory.device_list.certificates@
                &&& link.account_device_list.digest == ticket.content.listener_directory.device_list.digest
                &&& link.recipient_device_id == approval->0.recipient_device_id
                &&& link.conversation_id == approval->0.conversation_id
                &&& link.approved_range_start == approval->0.range_start
                &&& link.approved_event_count == approval->0.count
                &&& link.page_size == options.page_size
                &&& link.route_policy == ticket.content.route_policy
                &&& link.issued_at_unix_seconds == issued_at_unix_seconds
                &&& link.valid_for_seconds == options.valid_for_seconds
                &&& link.device_list_verified == device_list_verified
                &&& link.source_authorized == source_authorized
            },
        },
{
    if !options.publishes_history_recovery_link() {
        return Ok(None);
    }
    match approval {
        None => Err(ListenError::ApprovalMissing),
        Some(approval) => Ok(
            Some(
                HistoryRecoveryLinkOptions {
                    endpoint: ticket.content.endpoint,
                    source_certificate: ticket.content.listener_certificate,
                    account_device_list: ticket.content.listener_directory.device_list.duplicate(),
                    recipient_device_id: approval.recipient_device_id,
                    conversation_id: approval.conversation_id,
                    approved_range_start: approval.range_start,
                    approved_event_count: approval.count,
                    page_size: options.page_size,
                    route_policy: ticket.content.route_policy,
                    issued_at_unix_seconds,
                    valid_for_seconds: options.valid_for_seconds,
                    device_list_verified,
                    source_authorized,
                },
            ),
        ),
    }
}

/// What a listener is doing.
#[derive(Clone, Copy, Debug, PartialEq, Eq, Structural)]
pub enum ListenPhase {
    /// Capture the state that is only read.
    CapturingReads,
    /// Install the authority snapshot of the device list.
    InstallingAuthority,
    /// Publish prekeys and assemble the fresh directory.
    AssemblingDirectory,
    /// Bind the endpoint and wait for a relay.
    Binding,
    /// Issue the ticket and, where one is published, sign the link.
    Issuing,
    /// Write and announce what is published.
    Publishing,
    /// Wait for a connection on an allowed path.
    Accepting,
    /// Authorize the requester and serve one request.
    Serving,
    /// Nothing more.
    Done,
    /// Something failed.
    Failed { error: ListenError },
}

/// A listener, with what it publishes and what its user approved.
pub struct Listener {
    pub options: ListenOptions,
    pub approval: Option<HistoryRewrapApproval>,
    pub phase: ListenPhase,
}

impl Listener {
    /// The first reason for which nothing is published: a link that no approval covers, or two
    /// outputs at one path.
    pub open spec fn publication_fault(self) -> Option<ListenError> {
        if self.options.publishes_link() && self.approval is None {
            Some(ListenError::ApprovalMissing)
        } else {
            self.options.path_fault()
        }
    }

    /// The listener publishes, or has published.
    pub open spec fn has_published(self) -> bool {
        match self.phase {
            ListenPhase::Publishing
            | ListenPhase::Accepting
            | ListenPhase::Serving
            | ListenPhase::Done => true,
            _ => false,
        }
    }

    /// What a listener keeps: it publishes only where nothing speaks against it.
    pub open spec fn wf(self) -> bool {
        self.has_published() ==> self.publication_fault() is None
    }

    /// The same listener, doing something else.
    pub open spec fn at(self, phase: ListenPhase) -> Listener {
        Listener { phase, ..self }
    }

    /// What follows the end of a phase.
    pub open spec fn next(self, result: Result<(), ListenError>) -> Listener {
        match (self.phase, result) {
            (ListenPhase::Done, _) => self,
            (ListenPhase::Failed { .. }, _) => self,
            (_, Err(error)) => self.at(ListenPhase::Failed { error }),
            (ListenPhase::CapturingReads, Ok(())) => self.at(ListenPhase::InstallingAuthority),
            (ListenPhase::InstallingAuthority, Ok(())) => self.at(ListenPhase::AssemblingDirectory),
            (ListenPhase::AssemblingDirectory, Ok(())) => self.at(ListenPhase::Binding),
            (ListenPhase::Binding, Ok(())) => self.at(ListenPhase::Issuing),
            (ListenPhase::Issuing, Ok(())) => match self.publication_fault() {
                Some(error) => self.at(ListenPhase::Failed { error }),
                None => self.at(ListenPhase::Publishing),
            },
            (ListenPhase::Publishing, Ok(())) => self.at(ListenPhase::Accepting),
            (ListenPhase::Accepting, Ok(())) => self.at(ListenPhase::Serving),
            (ListenPhase::Serving, Ok(())) => self.at(ListenPhase::Done),
        }
    }

    /// Tests everything that a listener can be refused for before it changes any state, and
    /// starts where nothing speaks against it.
    pub fn start(
        options: ListenOptions,
        flags: &ApprovalFlags,
        device_list: &AccountDeviceList,
        certificate: DeviceCertificate,
        allowed_requester_account_id: AccountId,
        derived_sas: &Option<String>,
        limits: ProtocolLimits,
    ) -> (r: Listener)
        ensures
            r.wf(),
            r.options == options,
            match listen_fault(
                options,
                *flags,
                *device_list,
                certificate,
                allowed_requester_account_id,
                text_view(*derived_sas),
                limits,
            ) {
                Some(error) => r.phase == (ListenPhase::Failed { error }) && r.approval is None,
                None => {
                    &&& r.phase == ListenPhase::CapturingReads
                    &&& no_flags(*flags) <==> r.approval is None
                    &&& r.approval matches Some(approval) ==> approval.conversation_id
                        == flags.conversation_id->0 && approval.recipient_device_id
                        == flags.recipient_device_id->0 && approval.sas@ == derived_sas->0@
                        && approval.range_start == flags.range_start && approval.count
                        == flags.count
                },
            },
    {
        match listen_checks(
            &options,
            flags,
            device_list,
            certificate,
            allowed_requester_account_id,
            derived_sas,
            limits,
        ) {
            Ok(approval) => Listener { options, approval, phase: ListenPhase::CapturingReads },
            Err(error) => Listener {
                options,
                approval: None,
                phase: ListenPhase::Failed { error },
            },
        }
    }

    /// Takes the end of a phase. Nothing is published before the listener has tested that its
    /// outputs do not go to one path.
    pub fn listen_inner(&mut self, result: Result<(), ListenError>)
        ensures
            *final(self) == old(self).next(result),
            old(self).wf() ==> final(self).wf(),
    {
        match self.phase {
            ListenPhase::Done => return,
            ListenPhase::Failed { .. } => return,
            _ => {},
        }
        if let Err(error) = result {
            self.phase = ListenPhase::Failed { error };
            return;
        }
        self.phase =
        match self.phase {
            ListenPhase::CapturingReads => ListenPhase::InstallingAuthority,
            ListenPhase::InstallingAuthority => ListenPhase::AssemblingDirectory,
            ListenPhase::AssemblingDirectory => ListenPhase::Binding,
            ListenPhase::Binding => ListenPhase::Issuing,
            ListenPhase::Issuing => {
                if self.options.publishes_history_recovery_link() && self.approval.is_none() {
                    ListenPhase::Failed { error: ListenError::ApprovalMissing }
                } else {
                    match self.options.check_output_paths() {
                        Ok(()) => ListenPhase::Publishing,
                        Err(error) => ListenPhase::Failed { error },
                    }
                }
            },
            ListenPhase::Publishing => ListenPhase::Accepting,
            ListenPhase::Accepting => ListenPhase::Serving,
            ListenPhase::Serving => ListenPhase::Done,
            ListenPhase::Done => ListenPhase::Done,
            ListenPhase::Failed { error } => ListenPhase::Failed { error },
        };
    }
}

/// How far a listener has come.
pub open spec fn progress(phase: ListenPhase) -> int {
    match phase {
        ListenPhase::CapturingReads => 1,
        ListenPhase::InstallingAuthority => 2,
        ListenPhase::AssemblingDirectory => 3,
        ListenPhase::Binding => 4,
        ListenPhase::Issuing => 5,
        ListenPhase::Publishing => 6,
        ListenPhase::Accepting => 7,
        ListenPhase::Serving => 8,
        ListenPhase::Done => 9,
        ListenPhase::Failed { .. } => 10,
    }
}

/// A listener takes its steps one by one and in order, and none after an error; a step that
/// went well fails only where the outputs cannot be published.
pub proof fn listener_takes_steps_in_order(listener: Listener, result: Result<(), ListenError>)
    ensures
        ({
            let before = progress(listener.phase);
            let after = progress(listener.next(result).phase);
            ||| after == before && before >= 9
            ||| after == before + 1 && result is Ok
            ||| after == 10 && before < 9 && result is Err
            ||| after == 10 && listener.phase == ListenPhase::Issuing
                && listener.publication_fault() is Some
        }),
{
}

/// The listener that a sequence of results leads to.
pub open spec fn listen_through(
    listener: Listener,
    results: Seq<Result<(), ListenError>>,
) -> Listener
    decreases results.len(),
{
    if results.len() == 0 {
        listener
    } else {
        listen_through(listener, results.drop_last()).next(results.last())
    }
}

/// Whatever happens, a listener two of whose outputs go to one path publishes nothing and
/// accepts nobody, and one that gets as far as publishing ends in the error of those paths.
pub proof fn equal_output_paths_are_never_published(
    listener: Listener,
    results: Seq<Result<(), ListenError>>,
)
    requires
        listener.wf(),
        listener.options.path_fault() is Some,
    ensures
        !listen_through(listener, results).has_published(),
        listen_through(listener, results).options == listener.options,
        listen_through(listener, results).approval == listener.approval,
        listen_through(listener, results).phase == ListenPhase::Issuing && (
        listener.options.publishes_link() ==> listener.approval is Some) ==> listen_through(
            listener,
            results,
        ).next(Ok(())).phase == (ListenPhase::Failed {
            error: listener.options.path_fault()->0,
        }),
    decreases results.len(),
{
    if results.len() > 0 {
        equal_output_paths_are_never_published(listener, results.drop_last());
    }
}

/// What became of a connection that came in.
#[derive(Clone, Copy, Debug, PartialEq, Eq, Structural)]
pub enum IncomingEvent {
    /// The endpoint was closed.
    EndpointClosed,
    /// The connection was refused at once.
    Refused,
    /// Its handshake failed or took too long.
    HandshakeFailed,
    /// Its handshake was completed.
    Connected,
}

/// What a listener that waits for a connection is doing.
#[derive(Clone, Copy, Debug, PartialEq, Eq, Structural)]
pub enum IncomingPhase {
    Waiting,
    Connected,
    Closed,
}

/// A listener that waits for a connection, with the number of those that it ignored.
#[derive(Clone, Copy, Debug, PartialEq, Eq, Structural)]
pub struct IncomingConnections {
    pub ignored_attempts: u64,
    pub phase: IncomingPhase,
}

impl IncomingConnections {
    /// What follows an event.
    pub open spec fn next(self, event: IncomingEvent) -> IncomingConnections {
        match (self.phase, event) {
            (IncomingPhase::Waiting, IncomingEvent::EndpointClosed) => IncomingConnections {
                phase: IncomingPhase::Closed,
                ..self
            },
            (IncomingPhase::Waiting, IncomingEvent::Connected) => IncomingConnections {
                phase: IncomingPhase::Connected,
                ..self
            },
            (IncomingPhase::Waiting, _) => IncomingConnections {
                ignored_attempts: if self.ignored_attempts == u64::MAX {
                    u64::MAX
                } else {
                    (self.ignored_attempts + 1) as u64
                },
                ..self
            },
            _ => self,
        }
    }

    /// Starts with none ignored.
    pub fn start() -> (r: IncomingConnections)
        ensures
            r == (IncomingConnections { ignored_attempts: 0, phase: IncomingPhase::Waiting }),
    {
        IncomingConnections { ignored_attempts: 0, phase: IncomingPhase::Waiting }
    }

    /// Takes an event.
    pub fn accept_authenticated_connection(&mut self, event: IncomingEvent)
        ensures
            *final(self) == old(self).next(event),
    {
        if self.phase != IncomingPhase::Waiting {
            return;
        }
        match event {
            IncomingEvent::EndpointClosed => {
                self.phase = IncomingPhase::Closed;
            },
            IncomingEvent::Connected => {
                self.phase = IncomingPhase::Connected;
            },
            _ => {
                self.ignored_attempts = self.ignored_attempts.saturating_add(1);
            },
        }
    }
}

/// What a listener that waits has come to after some events.
pub open spec fn incoming_through(
    incoming: IncomingConnections,
    events: Seq<IncomingEvent>,
) -> IncomingConnections
    decreases events.len(),
{
    if events.len() == 0 {
        incoming
    } else {
        incoming_through(incoming, events.drop_last()).next(events.last())
    }
}

/// Connections that are refused or fail their handshake never stop a listener: however many of
/// them come, it takes the next one that completes its handshake.
pub proof fn failed_connections_do_not_stop_listener(
    incoming: IncomingConnections,
    failures: Seq<IncomingEvent>,
)
    requires
        incoming.phase == IncomingPhase::Waiting,
        forall|i: int|
            0 <= i < failures.len() ==> #[trigger] failures[i] == IncomingEvent::Refused
                || failures[i] == IncomingEvent::HandshakeFailed,
    ensures
        incoming_through(incoming, failures).phase == IncomingPhase::Waiting,
        incoming_through(incoming, failures).next(IncomingEvent::Connected).phase
            == IncomingPhase::Connected,
    decreases failures.len(),
{
    if failures.len() > 0 {
        let fewer = failures.drop_last();
        assert forall|i: int| 0 <= i < fewer.len() implies #[trigger] fewer[i]
            == IncomingEvent::Refused || fewer[i] == IncomingEvent::HandshakeFailed by {
            assert(fewer[i] == failures[i]);
        }
        failed_connections_do_not_stop_listener(incoming, fewer);
        assert(failures.last() == failures[failures.len() - 1]);
    }
}

/// A request on an authorized connection.
#[derive(Clone, Copy, Debug, PartialEq, Eq, Structural)]
pub enum RequestKind {
    DeliverEvent,
    SyncInventory,
    SyncEvents,
    SyncPause,
    HistoryRewrap,
    AuthorizeDevice,
}

/// What serves a first request.
#[derive(Clone, Copy, Debug, PartialEq, Eq, Structural)]
pub enum RequestHandler {
    Delivery,
    Sync,
    HistoryRewrap,
}

/// Chooses what serves the first request on an authorized connection. The second value tells
/// whether the transport is reported on afterwards; a history session reports on it itself.
pub fn handle_authorized_application_connection(request: RequestKind) -> (r: Result<
    (RequestHandler, bool),
    ListenError,
>)
    ensures
        r == match request {
            RequestKind::DeliverEvent => Ok::<(RequestHandler, bool), ListenError>(
                (RequestHandler::Delivery, true),
            ),
            RequestKind::SyncInventory => Ok((RequestHandler::Sync, true)),
            RequestKind::HistoryRewrap => Ok((RequestHandler::HistoryRewrap, false)),
            RequestKind::SyncEvents => Err(ListenError::BatchFirst),
            RequestKind::SyncPause => Err(ListenError::PauseFirst),
            RequestKind::AuthorizeDevice => Err(ListenError::AuthorizationRepeated),
        },
{
    match request {
        RequestKind::DeliverEvent => Ok((RequestHandler::Delivery, true)),
        RequestKind::SyncInventory => Ok((RequestHandler::Sync, true)),
        RequestKind::HistoryRewrap => Ok((RequestHandler::HistoryRewrap, false)),
        RequestKind::SyncEvents => Err(ListenError::BatchFirst),
        RequestKind::SyncPause => Err(ListenError::PauseFirst),
        RequestKind::AuthorizeDevice => Err(ListenError::AuthorizationRepeated),
    }
}

/// A requester's authorization, with what was verified of it.
#[derive(Clone, Copy, Debug, PartialEq, Eq, Structural)]
pub struct AuthorizationRequest {
    pub account_id: AccountId,
    pub device_id: DeviceId,
    pub session: Digest,
    pub signature_verified: bool,
    pub authority_account_id: AccountId,
    pub authority_verified: bool,
}

/// The step of an authorization that comes next.
#[derive(Clone, Copy, Debug, PartialEq, Eq, Structural)]
pub enum AuthorizationStep {
    /// Pin the requester's authority snapshot, which refuses an older one.
    PinAuthority,
    /// Answer with a refusal.
    Reject { error: ListenError },
}

/// Judges an authorization before the requester's authority is pinned: it is the first request,
/// it is for this session, and its authority is of the allowed account.
pub fn accept_device_authorization(
    first_request: Option<AuthorizationRequest>,
    expected_session: Digest,
    allowed_account: AccountId,
) -> (r: Result<AuthorizationStep, ListenError>)
    ensures
        r == match first_request {
            None => Err::<AuthorizationStep, ListenError>(ListenError::AuthorizationExpected),
            Some(request) => Ok(
                if !request.signature_verified || request.session != expected_session {
                    AuthorizationStep::Reject { error: ListenError::AuthorizationOfAnotherSession }
                } else if !request.authority_verified || request.authority_account_id
                    != allowed_account {
                    AuthorizationStep::Reject { error: ListenError::AuthorityOfAnotherAccount }
                } else {
                    AuthorizationStep::PinAuthority
                },
            ),
        },
{
    match first_request {
        None => Err(ListenError::AuthorizationExpected),
        Some(request) => {
            if !request.signature_verified || request.session != expected_session {
                return Ok(
                    AuthorizationStep::Reject { error: ListenError::AuthorizationOfAnotherSession },
                );
            }
            if !request.authority_verified || request.authority_account_id != allowed_account {
                return Ok(
                    AuthorizationStep::Reject { error: ListenError::AuthorityOfAnotherAccount },
                );
            }
            Ok(AuthorizationStep::PinAuthority)
        },
    }
}

/// An answer to an authorization.
#[derive(Clone, Copy, Debug, PartialEq, Eq, Structural)]
pub enum AuthorizationReply {
    Accepted { session: Digest, account_id: AccountId, device_id: DeviceId },
    Rejected,
    Other,
}

/// Concludes an authorization, given whether the authority was pinned and whether the device may
/// send messages for the allowed account: the answer, and the error where it is a refusal.
pub fn conclude_authorization(
    request: &AuthorizationRequest,
    expected_session: Digest,
    authority_pinned: bool,
    device_authorized: bool,
) -> (r: (AuthorizationReply, Result<(), ListenError>))
    ensures
        r == if !authority_pinned {
            (
                AuthorizationReply::Rejected,
                Err::<(), ListenError>(ListenError::AuthorityRolledBack),
            )
        } else if !device_authorized {
            (AuthorizationReply::Rejected, Err(ListenError::DeviceNotAuthorized))
        } else {
            (
                AuthorizationReply::Accepted {
                    session: expected_session,
                    account_id: request.account_id,
                    device_id: request.device_id,
                },
                Ok(()),
            )
        },
{
    if !authority_pinned {
        return (AuthorizationReply::Rejected, Err(ListenError::AuthorityRolledBack));
    }
    if !device_authorized {
        return (AuthorizationReply::Rejected, Err(ListenError::DeviceNotAuthorized));
    }
    (
        AuthorizationReply::Accepted {
            session: expected_session,
            account_id: request.account_id,
            device_id: request.device_id,
        },
        Ok(()),
    )
}

/// What a requester makes of an answer to its authorization.
pub open spec fn reply_fault(
    reply: AuthorizationReply,
    session: Digest,
    account_id: AccountId,
    device_id: DeviceId,
) -> Option<ListenError> {
    match reply {
        AuthorizationReply::Accepted {
            session: answered_session,
            account_id: answered_account,
            device_id: answered_device,
        } => if answered_session == session && answered_account == account_id && answered_device
            == device_id {
            None
        } else {
            Some(ListenError::AcceptanceMismatch)
        },
        AuthorizationReply::Rejected => Some(ListenError::RejectedByListener),
        AuthorizationReply::Other => Some(ListenError::UnexpectedResponse),
    }
}

/// Judges the answer to this device's authorization.
pub fn authorize_with_listener(
    reply: AuthorizationReply,
    session: Digest,
    certificate: &DeviceCertificate,
) -> (r: Result<(), ListenError>)
    ensures
        match reply_fault(reply, session, certificate.account_id, certificate.device_id) {
            None => r is Ok,
            Some(error) => r == Err::<(), ListenError>(error),
        },
{
    match reply {
        AuthorizationReply::Accepted {
            session: answered_session,
            account_id: answered_account,
            device_id: answered_device,
        } => {
            if answered_session == session && answered_account == certificate.account_id
                && answered_device == certificate.device_id {
                Ok(())
            } else {
                Err(ListenError::AcceptanceMismatch)
            }
        },
        AuthorizationReply::Rejected => Err(ListenError::RejectedByListener),
        AuthorizationReply::Other => Err(ListenError::UnexpectedResponse),
    }
}

/// What a listener answers to a device that it authorizes is what that device accepts: the
/// session, the account and the device are those of the request.
pub proof fn acceptance_satisfies_requester(request: AuthorizationRequest)
    ensures
        reply_fault(
            AuthorizationReply::Accepted {
                session: request.session,
                account_id: request.account_id,
                device_id: request.device_id,
            },
            request.session,
            request.account_id,
            request.device_id,
        ) is None,
{
}

/// The options of a link are tested exactly where one is published, in a file, as a QR code or by
/// discovery: some entries in a page, no more than allowed, and one second to one hour.
pub proof fn published_link_has_usable_options(options: ListenOptions, limits: ProtocolLimits)
    ensures
        ({
            let publishes = options.discovery_publish || options.qr_file is Some
                || options.link_file is Some;
            let fault = options.link_fault(limits);
            let some_entries = 0 < options.page_size && options.page_size
                <= limits.max_history_rewrap_entries;
            let some_time = 0 < options.valid_for_seconds && options.valid_for_seconds <= 3_600;
            &&& publishes ==> (fault == Some(ListenError::PageSizeOutOfRange) <==> !some_entries)
            &&& publishes ==> (fault == Some(ListenError::ValidityOutOfRange) <==> some_entries
                && !some_time)
            &&& publishes ==> (fault is None <==> some_entries && some_time)
            &&& !publishes ==> fault is None
            &&& options.publishes_link() <==> publishes
        }),
{
}

/// Two paths are both given and have the same components.
pub open spec fn paths_coincide(a: Option<Vec<String>>, b: Option<Vec<String>>) -> bool {
    match (a, b) {
        (Some(x), Some(y)) => x@.len() == y@.len() && forall|i: int|
            0 <= i < x@.len() ==> (#[trigger] x@[i])@ == y@[i]@,
        _ => false,
    }
}

/// The outputs of a listener can be written exactly where no two of them are given the same path;
/// the first two that are name the error.
pub proof fn output_paths_differ(options: ListenOptions)
    ensures
        ({
            let ticket_is_link = paths_coincide(options.ticket_file, options.link_file);
            let ticket_is_qr = paths_coincide(options.ticket_file, options.qr_file);
            let link_is_qr = paths_coincide(options.link_file, options.qr_file);
            let fault = options.path_fault();
            &&& fault == Some(ListenError::TicketAndLinkPathsEqual) <==> ticket_is_link
            &&& fault == Some(ListenError::TicketAndQrPathsEqual) <==> !ticket_is_link
                && ticket_is_qr
            &&& fault == Some(ListenError::LinkAndQrPathsEqual) <==> !ticket_is_link
                && !ticket_is_qr && link_is_qr
            &&& fault is None <==> !ticket_is_link && !ticket_is_qr && !link_is_qr
        }),
{
    lemma_paths_coincide(options.ticket_file, options.link_file);
    lemma_paths_coincide(options.ticket_file, options.qr_file);
    lemma_paths_coincide(options.link_file, options.qr_file);
}

proof fn lemma_paths_coincide(a: Option<Vec<String>>, b: Option<Vec<String>>)
    ensures
        same_path(a, b) <==> paths_coincide(a, b),
{
    if let (Some(x), Some(y)) = (a, b) {
        let (s, t) = (component_texts(x@), component_texts(y@));
        assert(s.len() == x@.len() && t.len() == y@.len());
        if s == t {
            assert forall|i: int| 0 <= i < x@.len() implies (#[trigger] x@[i])@ == y@[i]@ by {
                assert(s[i] == x@[i]@ && t[i] == y@[i]@);
            }
        }
        if paths_coincide(a, b) {
            assert(s =~= t);
        }
    }
}

/// Listening starts exactly where the certificate is the listed one of its device, the approval
/// flags are absent or make an approval, and the options of a link are usable.
pub proof fn listening_meets_every_condition(
    options: ListenOptions,
    flags: ApprovalFlags,
    list: AccountDeviceList,
    certificate: DeviceCertificate,
    requester: AccountId,
    derived_sas: Option<Seq<char>>,
    limits: ProtocolLimits,
)
    ensures
        ({
            let fault = listen_fault(
                options,
                flags,
                list,
                certificate,
                requester,
                derived_sas,
                limits,
            );
            let listed = is_first_certificate(list, certificate);
            let asked = flags.conversation_id is Some || flags.recipient_device_id is Some
                || flags.approved_sas is Some;
            let approval = approval_fault(
                flags,
                list,
                certificate,
                requester,
                derived_sas,
                limits,
            );
            &&& fault == Some(ListenError::CertificateNotListed) <==> !listed
            &&& listed && asked && approval is Some ==> fault == Some(
                ListenError::Approval { error: approval->0 },
            )
            &&& listed && (asked ==> approval is None) ==> fault == options.link_fault(limits)
        }),
{
    listing_is_exact(list, certificate.device_id, certificate);
}

/// A listener publishes exactly where the step before went well, a link that it publishes was
/// approved, and its outputs can be written. A step that fails ends it with that failure, what it
/// was asked and approved stays, and an end is an end.
pub proof fn listener_publishes_what_was_approved(
    listener: Listener,
    result: Result<(), ListenError>,
)
    ensures
        ({
            let after = listener.next(result);
            let ended = listener.phase == ListenPhase::Done || listener.phase is Failed;
            let unapproved = listener.options.publishes_link() && listener.approval is None;
            &&& ended ==> after == listener
            &&& after.options == listener.options
            &&& after.approval == listener.approval
            &&& !ended && result is Err ==> after.phase == (ListenPhase::Failed {
                error: result->Err_0,
            })
            &&& after.phase == ListenPhase::Publishing <==> listener.phase == ListenPhase::Issuing
                && result is Ok && !unapproved && listener.options.path_fault() is None
            &&& listener.phase == ListenPhase::Issuing && result is Ok && unapproved ==> after.phase
                == (ListenPhase::Failed { error: ListenError::ApprovalMissing })
            &&& listener.phase == ListenPhase::Issuing && result is Ok && !unapproved
                && listener.options.path_fault() is Some ==> after.phase == (ListenPhase::Failed {
                error: listener.options.path_fault()->0,
            })
        }),
{
}

/// A listener waits on after exactly the connections that were refused or failed, and counts each
/// of them, up to the most that it can count.
pub proof fn ignored_connections_are_counted(incoming: IncomingConnections, event: IncomingEvent)
    ensures
        ({
            let after = incoming.next(event);
            let waiting = incoming.phase == IncomingPhase::Waiting;
            let ignored = event == IncomingEvent::Refused || event
                == IncomingEvent::HandshakeFailed;
            &&& waiting ==> (after.phase == IncomingPhase::Connected <==> event
                == IncomingEvent::Connected)
            &&& waiting ==> (after.phase == IncomingPhase::Closed <==> event
                == IncomingEvent::EndpointClosed)
            &&& !waiting ==> after == incoming
            &&& waiting && ignored && incoming.ignored_attempts < u64::MAX
                ==> after.ignored_attempts == incoming.ignored_attempts + 1
            &&& incoming.ignored_attempts == u64::MAX || !ignored ==> after.ignored_attempts
                == incoming.ignored_attempts
        }),
{
}

/// A requester takes an answer exactly where it accepts this session, account and device.
pub proof fn requester_takes_its_own_acceptance(
    reply: AuthorizationReply,
    session: Digest,
    account_id: AccountId,
    device_id: DeviceId,
)
    ensures
        ({
            let fault = reply_fault(reply, session, account_id, device_id);
            let own = AuthorizationReply::Accepted { session, account_id, device_id };
            &&& fault is None <==> reply == own
            &&& fault == Some(ListenError::AcceptanceMismatch) <==> reply is Accepted && reply
                != own
            &&& fault == Some(ListenError::RejectedByListener) <==> reply is Rejected
            &&& fault == Some(ListenError::UnexpectedResponse) <==> reply is Other
        }),
{
}

} // verus!
