//! Serving history to another device of the same account: what the source user approved, which
//! requests it answers, and how a session of pages goes on.

use crate::identity::{
    certificate_of, is_first_certificate, lists_device, listing_is_exact, AccountDeviceList,
    DeviceCertificate, ProtocolLimits,
};
use crate::ids::{AccountId, ConversationId, DeviceId};
use crate::scheduler::MAX_HISTORY_RECOVERY_PAGES_PER_SESSION;
use crate::text::{trim, trimmed};
use vstd::prelude::*;

verus! {

/// Why history is not offered or sent.
#[derive(Clone, Copy, Debug, PartialEq, Eq, Structural)]
pub enum RewrapError {
    ConversationMissing,
    RecipientMissing,
    SasMissing,
    EmptyCount,
    CountTooLarge,
    RangeOverflow,
    RangeBeyondInventory,
    OtherAccount,
    RecipientAbsent,
    SasUnavailable,
    SasMismatch,
    DeviceListUnverified,
    SourceCertificateDiffers,
    NotAMember,
    StartOutsideInventory,
}

/// What the source user approved.
#[derive(Debug)]
pub struct HistoryRewrapApproval {
    pub conversation_id: ConversationId,
    pub recipient_device_id: DeviceId,
    pub sas: String,
    pub range_start: usize,
    pub count: usize,
}

impl HistoryRewrapApproval {
    /// The range lies within what was approved.
    pub open spec fn covers(self, range_start: usize, count: usize) -> bool {
        &&& self.range_start <= range_start
        &&& range_start + count <= self.range_start + self.count
        &&& range_start + count <= usize::MAX
        &&& self.range_start + self.count <= usize::MAX
    }

    /// Whether the range lies within what was approved.
    pub fn contains_range(&self, range_start: usize, count: usize) -> (r: bool)
        ensures
            r == self.covers(range_start, count),
    {
        if range_start < self.range_start {
            return false;
        }
        match (range_start.checked_add(count), self.range_start.checked_add(self.count)) {
            (Some(requested_end), Some(approved_end)) => requested_end <= approved_end,
            _ => false,
        }
    }
}

/// Every event of a range that an approval covers was approved, and so was every part of that
/// range.
pub proof fn approval_covers_parts(
    approval: HistoryRewrapApproval,
    range_start: usize,
    count: usize,
    part_start: usize,
    part_count: usize,
    event: int,
)
    requires
        approval.covers(range_start, count),
    ensures
        range_start <= event < range_start + count ==> approval.range_start <= event
            < approval.range_start + approval.count,
        range_start <= part_start && part_start + part_count <= range_start + count
            ==> approval.covers(part_start, part_count),
{
}

/// The flags of an approval, as they were given.
#[derive(Debug)]
pub struct ApprovalFlags {
    pub conversation_id: Option<ConversationId>,
    pub recipient_device_id: Option<DeviceId>,
    pub approved_sas: Option<String>,
    pub range_start: usize,
    pub count: usize,
}

/// The first reason for which complete flags do not make an approval. `derived_sas` is what the
/// device list and the two devices derive.
pub open spec fn approval_fault(
    flags: ApprovalFlags,
    list: AccountDeviceList,
    source: DeviceCertificate,
    requester: AccountId,
    derived_sas: Option<Seq<char>>,
    limits: ProtocolLimits,
) -> Option<RewrapError> {
    if flags.conversation_id is None {
        Some(RewrapError::ConversationMissing)
    } else if flags.recipient_device_id is None {
        Some(RewrapError::RecipientMissing)
    } else if flags.approved_sas is None {
        Some(RewrapError::SasMissing)
    } else if flags.count == 0 {
        Some(RewrapError::EmptyCount)
    } else if flags.range_start + flags.count > usize::MAX {
        Some(RewrapError::RangeOverflow)
    } else if flags.range_start + flags.count > limits.max_inventory_event_ids {
        Some(RewrapError::RangeBeyondInventory)
    } else if source.account_id != requester {
        Some(RewrapError::OtherAccount)
    } else if certificate_of(list.certificates@, flags.recipient_device_id->0) is None {
        Some(RewrapError::RecipientAbsent)
    } else if derived_sas is None {
        Some(RewrapError::SasUnavailable)
    } else if trimmed(flags.approved_sas->0@) != derived_sas->0 {
        Some(RewrapError::SasMismatch)
    } else {
        None
    }
}

/// The view of an optional text.
pub open spec fn text_view(text: Option<String>) -> Option<Seq<char>> {
    match text {
        Some(t) => Some(t@),
        None => None,
    }
}

/// The approval that the flags make: none where no flag was given, and otherwise only where all
/// are given, the range fits, the recipient is a listed device of the same account, and the
/// user confirmed exactly the derived short authentication string.
pub fn prepare_history_rewrap_approval(
    flags: &ApprovalFlags,
    device_list: &AccountDeviceList,
    source_certificate: DeviceCertificate,
    allowed_requester_account_id: AccountId,
    derived_sas: &Option<String>,
    limits: ProtocolLimits,
) -> (r: Result<Option<HistoryRewrapApproval>, RewrapError>)
    ensures
        if flags.conversation_id is None && flags.recipient_device_id is None
            && flags.approved_sas is None {
            r == Ok::<Option<HistoryRewrapApproval>, RewrapError>(None)
        } else {
            match approval_fault(
                *flags,
                *device_list,
                source_certificate,
                allowed_requester_account_id,
                text_view(*derived_sas),
                limits,
            ) {
                Some(error) => r == Err::<Option<HistoryRewrapApproval>, RewrapError>(error),
                None => r matches Ok(Some(approval)) && approval.conversation_id
                    == flags.conversation_id->0 && approval.recipient_device_id
                    == flags.recipient_device_id->0 && approval.sas@ == derived_sas->0@
                    && approval.range_start == flags.range_start && approval.count == flags.count,
            }
        },
{
    if flags.conversation_id.is_none() && flags.recipient_device_id.is_none()
        && flags.approved_sas.is_none() {
        return Ok(None);
    }
    let conversation_id = match flags.conversation_id {
        None => {
            return Err(RewrapError::ConversationMissing);
        },
        Some(conversation_id) => conversation_id,
    };
    let recipient_device_id = match flags.recipient_device_id {
        None => {
            return Err(RewrapError::RecipientMissing);
        },
        Some(recipient) => recipient,
    };
    let approved_sas = match &flags.approved_sas {
        None => {
            return Err(RewrapError::SasMissing);
        },
        Some(sas) => sas,
    };
    if flags.count == 0 {
        return Err(RewrapError::EmptyCount);
    }
    let approved_range_end: usize = match flags.range_start.checked_add(flags.count) {
        None => {
            return Err(RewrapError::RangeOverflow);
        },
        Some(end) => end,
    };
    if approved_range_end as u64 > limits.max_inventory_event_ids {
        return Err(RewrapError::RangeBeyondInventory);
    }
    if source_certificate.account_id != allowed_requester_account_id {
        return Err(RewrapError::OtherAccount);
    }
    if device_list.certificate_for(recipient_device_id).is_none() {
        return Err(RewrapError::RecipientAbsent);
    }
    let sas = match derived_sas {
        None => {
            return Err(RewrapError::SasUnavailable);
        },
        Some(sas) => sas,
    };
    if trim(approved_sas.as_str()) != *sas {
        return Err(RewrapError::SasMismatch);
    }
    Ok(
        Some(
            HistoryRewrapApproval {
                conversation_id,
                recipient_device_id,
                sas: sas.clone(),
                range_start: flags.range_start,
                count: flags.count,
            },
        ),
    )
}

/// How a request for a page was answered.
#[derive(Clone, Copy, Debug, PartialEq, Eq, Structural)]
pub enum HistoryRewrapServeOutcome {
    Rejected,
    Transferred { next_range_start: u64, recovery_complete: bool },
}

/// How far a session of pages has come.
#[derive(Clone, Copy, Debug, PartialEq, Eq, Structural)]
pub struct HistoryRecoverySessionProgress {
    pub pages_served: usize,
    pub expected_range_start: Option<u64>,
    pub complete: bool,
}

impl Default for HistoryRecoverySessionProgress {
    /// Nothing served yet.
    fn default() -> (r: HistoryRecoverySessionProgress)
        ensures
            r == HistoryRecoverySessionProgress::fresh(),
    {
        HistoryRecoverySessionProgress {
            pages_served: 0,
            expected_range_start: None,
            complete: false,
        }
    }
}

impl HistoryRecoverySessionProgress {
    /// Nothing served yet.
    pub open spec fn fresh() -> HistoryRecoverySessionProgress {
        HistoryRecoverySessionProgress {
            pages_served: 0,
            expected_range_start: None,
            complete: false,
        }
    }

    /// A page that starts at `range_start` may come next.
    pub open spec fn continues_at(self, range_start: u64) -> bool {
        self.expected_range_start matches Some(expected) ==> expected == range_start
    }

    /// Another page may come.
    pub open spec fn unfinished(self) -> bool {
        !self.complete && self.pages_served < MAX_HISTORY_RECOVERY_PAGES_PER_SESSION
    }

    /// Whether a page that starts at `range_start` may come next.
    pub fn accepts(&self, range_start: u64) -> (r: bool)
        ensures
            r == self.continues_at(range_start),
    {
        match self.expected_range_start {
            None => true,
            Some(expected) => expected == range_start,
        }
    }

    /// Notes a page.
    pub fn record_page(&mut self, next_range_start: u64, complete: bool)
        requires
            old(self).pages_served < usize::MAX,
        ensures
            *final(self) == (HistoryRecoverySessionProgress {
                pages_served: (old(self).pages_served + 1) as usize,
                expected_range_start: Some(next_range_start),
                complete,
            }),
    {
        self.pages_served = self.pages_served + 1;
        self.expected_range_start = Some(next_range_start);
        self.complete = complete;
    }

    /// Whether another page may come.
    pub fn can_request_next(&self) -> (r: bool)
        ensures
            r == self.unfinished(),
    {
        !self.complete && self.pages_served < MAX_HISTORY_RECOVERY_PAGES_PER_SESSION
    }
}

/// What a session of pages is doing.
#[derive(Clone, Copy, Debug, PartialEq, Eq, Structural)]
pub enum ServePhase {
    /// A request is expected.
    Awaiting,
    /// The request for the page at `range_start` is to be answered.
    Serving { range_start: u64 },
    /// A request does not continue the session and is to be rejected.
    Rejecting,
    /// The session is over.
    Done,
    /// Something else than a page request came.
    Broken,
}

/// What happened in a session.
#[derive(Clone, Copy, Debug, PartialEq, Eq, Structural)]
pub enum ServeEvent {
    PageRequested { range_start: u64 },
    OtherRequested,
    Answered { outcome: HistoryRewrapServeOutcome },
    RejectionSent,
    StreamEnded,
}

/// A session of pages.
#[derive(Clone, Copy, Debug, PartialEq, Eq, Structural)]
pub struct RewrapSession {
    pub progress: HistoryRecoverySessionProgress,
    pub phase: ServePhase,
}

impl RewrapSession {
    /// What a session keeps: as long as it goes on, another page may come.
    pub open spec fn wf(self) -> bool {
        &&& self.progress.pages_served <= MAX_HISTORY_RECOVERY_PAGES_PER_SESSION
        &&& match self.phase {
            ServePhase::Awaiting => self.progress.unfinished(),
            ServePhase::Serving { range_start } => self.progress.unfinished()
                && self.progress.continues_at(range_start),
            _ => true,
        }
    }

    /// What follows an event.
    pub open spec fn next(self, event: ServeEvent) -> RewrapSession {
        match (self.phase, event) {
            (ServePhase::Awaiting, ServeEvent::PageRequested { range_start }) => RewrapSession {
                phase: if self.progress.continues_at(range_start) {
                    ServePhase::Serving { range_start }
                } else {
                    ServePhase::Rejecting
                },
                ..self
            },
            (ServePhase::Awaiting, ServeEvent::StreamEnded) => RewrapSession {
                phase: ServePhase::Done,
                ..self
            },
            (ServePhase::Rejecting, ServeEvent::RejectionSent) => RewrapSession {
                phase: ServePhase::Done,
                ..self
            },
            (ServePhase::Serving { .. }, ServeEvent::Answered { outcome }) => match outcome {
                HistoryRewrapServeOutcome::Rejected => RewrapSession {
                    phase: ServePhase::Done,
                    ..self
                },
                HistoryRewrapServeOutcome::Transferred { next_range_start, recovery_complete } => {
                    let progress = HistoryRecoverySessionProgress {
                        pages_served: (self.progress.pages_served + 1) as usize,
                        expected_range_start: Some(next_range_start),
                        complete: recovery_complete,
                    };
                    RewrapSession {
                        progress,
                        phase: if progress.unfinished() {
                            ServePhase::Awaiting
                        } else {
                            ServePhase::Done
                        },
                    }
                },
            },
            (ServePhase::Done, _) => self,
            (ServePhase::Broken, _) => self,
            _ => RewrapSession { phase: ServePhase::Broken, ..self },
        }
    }

    /// A session that nothing was asked of yet.
    pub fn start() -> (r: RewrapSession)
        ensures
            r.wf(),
            r.progress == HistoryRecoverySessionProgress::fresh(),
            r.phase == ServePhase::Awaiting,
    {
        RewrapSession {
            progress: HistoryRecoverySessionProgress::default(),
            phase: ServePhase::Awaiting,
        }
    }

    /// Takes an event.
    pub fn serve_history_rewrap_session(&mut self, event: ServeEvent)
        requires
            old(self).wf(),
        ensures
            final(self).wf(),
            *final(self) == old(self).next(event),
    {
        match (self.phase, event) {
            (ServePhase::Awaiting, ServeEvent::PageRequested { range_start }) => {
                if self.progress.accepts(range_start) {
                    self.phase = ServePhase::Serving { range_start };
                } else {
                    self.phase = ServePhase::Rejecting;
                }
            },
            (ServePhase::Awaiting, ServeEvent::StreamEnded) => {
                self.phase = ServePhase::Done;
            },
            (ServePhase::Rejecting, ServeEvent::RejectionSent) => {
                self.phase = ServePhase::Done;
            },
            (ServePhase::Serving { .. }, ServeEvent::Answered { outcome }) => match outcome {
                HistoryRewrapServeOutcome::Rejected => {
                    self.phase = ServePhase::Done;
                },
                HistoryRewrapServeOutcome::Transferred { next_range_start, recovery_complete } => {
                    let mut progress = self.progress;
                    progress.record_page(next_range_start, recovery_complete);
                    self.progress = progress;
                    if progress.can_request_next() {
                        self.phase = ServePhase::Awaiting;
                    } else {
                        self.phase = ServePhase::Done;
                    }
                },
            },
            (ServePhase::Done, _) => {},
            (ServePhase::Broken, _) => {},
            _ => {
                self.phase = ServePhase::Broken;
            },
        }
    }
}

/// The session that a sequence of events leads to.
pub open spec fn serve_through(session: RewrapSession, events: Seq<ServeEvent>) -> RewrapSession
    decreases events.len(),
{
    if events.len() == 0 {
        session
    } else {
        serve_through(session, events.drop_last()).next(events.last())
    }
}

/// Whatever is asked, a session serves at most its bound of pages, every page that it serves
/// after another begins where that one ended, and it serves nothing after the last page.
pub proof fn session_serves_contiguous_pages(session: RewrapSession, events: Seq<ServeEvent>)
    requires
        session.wf(),
    ensures
        serve_through(session, events).wf(),
        serve_through(session, events).progress.pages_served
            <= MAX_HISTORY_RECOVERY_PAGES_PER_SESSION,
        serve_through(session, events).phase matches ServePhase::Serving { range_start } ==> (
        serve_through(session, events).progress.expected_range_start matches Some(expected)
            ==> range_start == expected) && !serve_through(session, events).progress.complete,
    decreases events.len(),
{
    if events.len() > 0 {
        session_serves_contiguous_pages(session, events.drop_last());
    }
}

/// A request for a page. `verified_for_session` tells whether its signature was verified for
/// this session, these two devices and the approved short authentication string.
#[derive(Clone, Copy, Debug, PartialEq, Eq, Structural)]
pub struct RewrapRequest {
    pub conversation_id: ConversationId,
    pub recipient_device_id: DeviceId,
    pub range_start: u64,
    pub max_event_count: u64,
    pub verified_for_session: bool,
}

/// Why a page is not sent.
#[derive(Clone, Copy, Debug, PartialEq, Eq, Structural)]
pub enum RewrapRejection {
    NotApproved,
    ApprovalMismatch,
    TransferTooLarge,
}

/// What to do with a request for a page.
#[derive(Clone, Copy, Debug, PartialEq, Eq, Structural)]
pub enum RewrapDecision {
    Reject { reason: RewrapRejection },
    Serve { range_start: usize, count: usize },
}

/// A request asks for no more than what was approved, for the device that was approved.
pub open spec fn request_matches(
    approval: HistoryRewrapApproval,
    request: RewrapRequest,
    requester_account_id: AccountId,
    requester_device_id: DeviceId,
    source: DeviceCertificate,
    list: AccountDeviceList,
) -> bool {
    &&& request.verified_for_session
    &&& requester_account_id == source.account_id
    &&& request.conversation_id == approval.conversation_id
    &&& request.recipient_device_id == approval.recipient_device_id
    &&& request.range_start <= usize::MAX
    &&& request.max_event_count <= usize::MAX
    &&& approval.covers(request.range_start as usize, request.max_event_count as usize)
    &&& certificate_of(list.certificates@, requester_device_id) is Some
}

/// Decides whether a request is served.
pub fn handle_history_rewrap_request(
    approval: Option<&HistoryRewrapApproval>,
    request: RewrapRequest,
    requester_account_id: AccountId,
    requester_device_id: DeviceId,
    source_certificate: DeviceCertificate,
    device_list: &AccountDeviceList,
) -> (r: RewrapDecision)
    ensures
        r == match approval {
            None => RewrapDecision::Reject { reason: RewrapRejection::NotApproved },
            Some(approval) => if request_matches(
                *approval,
                request,
                requester_account_id,
                requester_device_id,
                source_certificate,
                *device_list,
            ) {
                RewrapDecision::Serve {
                    range_start: request.range_start as usize,
                    count: request.max_event_count as usize,
                }
            } else {
                RewrapDecision::Reject { reason: RewrapRejection::ApprovalMismatch }
            },
        },
{
    let approval = match approval {
        None => {
            return RewrapDecision::Reject { reason: RewrapRejection::NotApproved };
        },
        Some(approval) => approval,
    };
    let representable = request.range_start <= usize::MAX as u64 && request.max_event_count
        <= usize::MAX as u64;
    if request.verified_for_session && requester_account_id == source_certificate.account_id
        && request.conversation_id == approval.conversation_id && request.recipient_device_id
        == approval.recipient_device_id && representable && approval.contains_range(
        request.range_start as usize,
        request.max_event_count as usize,
    ) && device_list.certificate_for(requester_device_id).is_some() {
        RewrapDecision::Serve {
            range_start: request.range_start as usize,
            count: request.max_event_count as usize,
        }
    } else {
        RewrapDecision::Reject { reason: RewrapRejection::ApprovalMismatch }
    }
}

/// What a page that was served amounts to: the recovery is complete where the page reaches the
/// end of what was approved or the end of the inventory.
pub open spec fn page_outcome(
    approval: HistoryRewrapApproval,
    range_end: u64,
    inventory_event_count: u64,
) -> HistoryRewrapServeOutcome {
    HistoryRewrapServeOutcome::Transferred {
        next_range_start: range_end,
        recovery_complete: range_end >= approval.range_start + approval.count || range_end
            >= inventory_event_count,
    }
}

/// The answer to a request whose page was sealed.
#[derive(Clone, Copy, Debug, PartialEq, Eq, Structural)]
pub enum PageAnswer {
    Reject { reason: RewrapRejection },
    Send { outcome: HistoryRewrapServeOutcome },
}

/// The answer to a request whose page was sealed, given the size of its transfer: too large a
/// transfer is rejected.
pub fn serve_page(
    approval: &HistoryRewrapApproval,
    range_end: u64,
    inventory_event_count: u64,
    transfer_bytes: usize,
    max_wire_message_bytes: usize,
) -> (r: Result<PageAnswer, RewrapError>)
    ensures
        r == if transfer_bytes > max_wire_message_bytes {
            Ok(PageAnswer::Reject { reason: RewrapRejection::TransferTooLarge })
        } else if approval.range_start + approval.count > usize::MAX {
            Err(RewrapError::RangeOverflow)
        } else {
            Ok(
                PageAnswer::Send {
                    outcome: page_outcome(*approval, range_end, inventory_event_count),
                },
            )
        },
{
    if transfer_bytes > max_wire_message_bytes {
        return Ok(PageAnswer::Reject { reason: RewrapRejection::TransferTooLarge });
    }
    match approval.range_start.checked_add(approval.count) {
        None => Err(RewrapError::RangeOverflow),
        Some(end) => Ok(
            PageAnswer::Send {
                outcome: HistoryRewrapServeOutcome::Transferred {
                    next_range_start: range_end,
                    recovery_complete: range_end >= end as u64 || range_end
                        >= inventory_event_count,
                },
            },
        ),
    }
}

/// Who a rewrap bundle is made for, and by whom. `device_list_verified` tells whether the list
/// was verified for the source's account, and `is_member` whether that account is a member of
/// the conversation.
pub open spec fn bundle_party_fault(
    list: AccountDeviceList,
    device_list_verified: bool,
    source: DeviceCertificate,
    recipient_device_id: DeviceId,
    is_member: bool,
) -> Option<RewrapError> {
    if !device_list_verified {
        Some(RewrapError::DeviceListUnverified)
    } else if certificate_of(list.certificates@, source.device_id) != Some(source) {
        Some(RewrapError::SourceCertificateDiffers)
    } else if certificate_of(list.certificates@, recipient_device_id) is None {
        Some(RewrapError::RecipientAbsent)
    } else if !is_member {
        Some(RewrapError::NotAMember)
    } else {
        None
    }
}

/// Tests the count of a bundle and the two parties to it.
pub fn export_history_rewrap(
    count: usize,
    device_list: &AccountDeviceList,
    device_list_verified: bool,
    source_certificate: DeviceCertificate,
    recipient_device_id: DeviceId,
    is_member: bool,
    limits: ProtocolLimits,
) -> (r: Result<(), RewrapError>)
    ensures
        if count == 0 {
            r == Err::<(), RewrapError>(RewrapError::EmptyCount)
        } else if count > limits.max_history_rewrap_entries {
            r == Err::<(), RewrapError>(RewrapError::CountTooLarge)
        } else {
            match bundle_party_fault(
                *device_list,
                device_list_verified,
                source_certificate,
                recipient_device_id,
                is_member,
            ) {
                Some(error) => r == Err::<(), RewrapError>(error),
                None => r is Ok,
            }
        },
{
    if count == 0 {
        return Err(RewrapError::EmptyCount);
    }
    if count as u64 > limits.max_history_rewrap_entries {
        return Err(RewrapError::CountTooLarge);
    }
    if !device_list_verified {
        return Err(RewrapError::DeviceListUnverified);
    }
    match device_list.certificate_for(source_certificate.device_id) {
        None => {
            return Err(RewrapError::SourceCertificateDiffers);
        },
        Some(certificate) => {
            if certificate != source_certificate {
                return Err(RewrapError::SourceCertificateDiffers);
            }
        },
    }
    if device_list.certificate_for(recipient_device_id).is_none() {
        return Err(RewrapError::RecipientAbsent);
    }
    if !is_member {
        return Err(RewrapError::NotAMember);
    }
    Ok(())
}

/// The positions, in order, of the events that carry text.
pub open spec fn text_positions(is_text: Seq<bool>, count: nat) -> Seq<usize>
    decreases count,
{
    if count == 0 {
        Seq::empty()
    } else {
        let before = text_positions(is_text, (count - 1) as nat);
        if is_text[count - 1] {
            before.push((count - 1) as usize)
        } else {
            before
        }
    }
}

/// The inventory of a conversation: the positions, in order, of the events that carry text.
pub fn text_inventory(is_text: &[bool]) -> (r: Vec<usize>)
    ensures
        r@ == text_positions(is_text@, is_text@.len()),
{
    let mut inventory: Vec<usize> = Vec::new();
    let mut i: usize = 0;
    while i < is_text.len()
        invariant
            i <= is_text.len(),
            inventory@ == text_positions(is_text@, i as nat),
        decreases is_text.len() - i,
    {
        if is_text[i] {
            inventory.push(i);
        }
        i += 1;
    }
    inventory
}

/// The part of an inventory that a bundle carries.
pub fn build_history_rewrap_bundle(inventory_len: usize, range_start: usize, count: usize) -> (r:
    Result<(usize, usize), RewrapError>)
    ensures
        r == if range_start >= inventory_len {
            Err(RewrapError::StartOutsideInventory)
        } else if range_start + count > usize::MAX {
            Err(RewrapError::RangeOverflow)
        } else {
            Ok(
                (
                    range_start,
                    if range_start + count < inventory_len {
                        (range_start + count) as usize
                    } else {
                        inventory_len
                    },
                ),
            )
        },
        r matches Ok((start, end)) ==> count > 0 ==> start < end <= inventory_len && end - start
            <= count,
{
    if range_start >= inventory_len {
        return Err(RewrapError::StartOutsideInventory);
    }
    match range_start.checked_add(count) {
        None => Err(RewrapError::RangeOverflow),
        Some(requested_end) => if requested_end < inventory_len {
            Ok((range_start, requested_end))
        } else {
            Ok((range_start, inventory_len))
        },
    }
}

/// A page completes a recovery exactly where no event is left behind it: none that was approved
/// and that the inventory holds. The next page begins where this one ended.
pub proof fn complete_recovery_leaves_no_event(
    approval: HistoryRewrapApproval,
    range_end: u64,
    inventory_event_count: u64,
)
    ensures
        page_outcome(approval, range_end, inventory_event_count)
            matches HistoryRewrapServeOutcome::Transferred { next_range_start, recovery_complete }
            && next_range_start == range_end && (recovery_complete <==> forall|event: int|
            !(range_end <= event && #[trigger] approved_event(approval, event) && event
                < inventory_event_count)),
{
    if !(range_end >= approval.range_start + approval.count || range_end >= inventory_event_count) {
        assert(approved_event(approval, range_end as int));
    }
}

/// The event lies before the end of what was approved.
pub open spec fn approved_event(approval: HistoryRewrapApproval, event: int) -> bool {
    event < approval.range_start + approval.count
}

/// Each event from `start` on and before `end` was approved.
pub open spec fn every_event_approved(
    approval: HistoryRewrapApproval,
    start: int,
    end: int,
) -> bool {
    forall|event: int|
        start <= event && event < end ==> approval.range_start <= event
            && #[trigger] approved_event(
            approval,
            event,
        )
}

/// An approval covers a range of events exactly where each of them was approved, and both ends
/// can be represented.
pub proof fn approval_covers_exactly_what_was_approved(
    approval: HistoryRewrapApproval,
    range_start: usize,
    count: usize,
)
    ensures
        count > 0 && range_start + count <= usize::MAX && approval.range_start + approval.count
            <= usize::MAX ==> (approval.covers(range_start, count) <==> every_event_approved(
            approval,
            range_start as int,
            range_start + count,
        )),
        range_start + count > usize::MAX || approval.range_start + approval.count > usize::MAX
            ==> !approval.covers(range_start, count),
        approval.covers(range_start, 0) <==> approval.range_start <= range_start
            <= approval.range_start + approval.count <= usize::MAX,
{
    let first = range_start as int;
    let last = range_start + count - 1;
    if count > 0 && every_event_approved(approval, first, last + 1) {
        assert(approved_event(approval, first));
        assert(approved_event(approval, last));
    }
}

/// Flags make an approval exactly where all are given, the range is not empty and fits, the
/// recipient is a listed device of the account, and the confirmed string is the derived one. The
/// first of these that fails names the error.
pub proof fn approval_needs_every_condition(
    flags: ApprovalFlags,
    list: AccountDeviceList,
    source: DeviceCertificate,
    requester: AccountId,
    derived_sas: Option<Seq<char>>,
    limits: ProtocolLimits,
)
    ensures
        ({
            let fault = approval_fault(flags, list, source, requester, derived_sas, limits);
            let conversation_given = flags.conversation_id is Some;
            let recipient_given = flags.recipient_device_id is Some;
            let sas_given = flags.approved_sas is Some;
            let some_events = flags.count > 0;
            let representable = flags.range_start + flags.count <= usize::MAX;
            let within_inventory = flags.range_start + flags.count
                <= limits.max_inventory_event_ids;
            let same_account = requester == source.account_id;
            let listed = lists_device(list, flags.recipient_device_id->0);
            let derived = derived_sas is Some;
            let confirmed = derived_sas == Some(trimmed(flags.approved_sas->0@));
            &&& fault == Some(RewrapError::ConversationMissing) <==> !conversation_given
            &&& fault == Some(RewrapError::RecipientMissing) <==> conversation_given
                && !recipient_given
            &&& fault == Some(RewrapError::SasMissing) <==> conversation_given
                && recipient_given && !sas_given
            &&& fault == Some(RewrapError::EmptyCount) <==> conversation_given
                && recipient_given && sas_given && !some_events
            &&& fault == Some(RewrapError::RangeOverflow) <==> conversation_given
                && recipient_given && sas_given && some_events && !representable
            &&& fault == Some(RewrapError::RangeBeyondInventory) <==> conversation_given
                && recipient_given && sas_given && some_events && representable && !within_inventory
            &&& fault == Some(RewrapError::OtherAccount) <==> conversation_given
                && recipient_given && sas_given && some_events && representable
                && within_inventory && !same_account
            &&& fault == Some(RewrapError::RecipientAbsent) <==> conversation_given
                && recipient_given && sas_given && some_events && representable
                && within_inventory && same_account && !listed
            &&& fault == Some(RewrapError::SasUnavailable) <==> conversation_given
                && recipient_given && sas_given && some_events && representable
                && within_inventory && same_account && listed && !derived
            &&& fault == Some(RewrapError::SasMismatch) <==> conversation_given
                && recipient_given && sas_given && some_events && representable
                && within_inventory && same_account && listed && derived && !confirmed
            &&& fault is None <==> conversation_given && recipient_given && sas_given
                && some_events && representable && within_inventory && same_account && listed
                && derived && confirmed
        }),
{
    listing_is_exact(list, flags.recipient_device_id->0, source);
}

/// A bundle has its parties exactly where the list was verified, the source is the listed device
/// that it says, the recipient is listed and the account is a member. The first of these that
/// fails names the error.
pub proof fn bundle_needs_every_condition(
    list: AccountDeviceList,
    device_list_verified: bool,
    source: DeviceCertificate,
    recipient_device_id: DeviceId,
    is_member: bool,
)
    ensures
        ({
            let fault = bundle_party_fault(list, device_list_verified, source, recipient_device_id, is_member);
            let verified = device_list_verified;
            let own_certificate = is_first_certificate(list, source);
            let listed = lists_device(list, recipient_device_id);
            let member = is_member;
            &&& fault == Some(RewrapError::DeviceListUnverified) <==> !verified
            &&& fault == Some(RewrapError::SourceCertificateDiffers) <==> verified
                && !own_certificate
            &&& fault == Some(RewrapError::RecipientAbsent) <==> verified && own_certificate
                && !listed
            &&& fault == Some(RewrapError::NotAMember) <==> verified && own_certificate
                && listed && !member
            &&& fault is None <==> verified && own_certificate && listed && member
        }),
{
    listing_is_exact(list, recipient_device_id, source);
}

/// A request is served exactly where it was verified, comes from a listed device of the account,
/// is for the approved conversation and recipient, and asks for approved events alone.
pub proof fn served_request_was_approved(
    approval: HistoryRewrapApproval,
    request: RewrapRequest,
    requester_account_id: AccountId,
    requester_device_id: DeviceId,
    source: DeviceCertificate,
    list: AccountDeviceList,
)
    ensures
        request_matches(
            approval,
            request,
            requester_account_id,
            requester_device_id,
            source,
            list,
        ) <==> {
            let end = request.range_start + request.max_event_count;
            let approved_end = approval.range_start + approval.count;
            &&& request.verified_for_session
            &&& source.account_id == requester_account_id
            &&& lists_device(list, requester_device_id)
            &&& approval.conversation_id == request.conversation_id
            &&& approval.recipient_device_id == request.recipient_device_id
            &&& approval.range_start <= request.range_start
            &&& end <= approved_end <= usize::MAX
        },
{
    listing_is_exact(list, requester_device_id, source);
}

/// A session serves a page exactly where one is requested at the place that is expected, rejects
/// exactly one requested elsewhere, and goes on after a page exactly where the recovery is not
/// complete and a page is left. It counts each page, and expects the next where that one ended.
pub proof fn session_goes_on_page_by_page(session: RewrapSession, event: ServeEvent, start: u64)
    requires
        session.wf(),
    ensures
        ({
            let after = session.next(event);
            let sent = session.phase is Serving && event is Answered && event->outcome
                is Transferred;
            let expected = session.progress.expected_range_start;
            &&& session.phase == ServePhase::Awaiting ==> {
                &&& after.phase == (ServePhase::Serving { range_start: start }) <==> event == (
                ServeEvent::PageRequested { range_start: start }) && (expected is None || expected
                    == Some(start))
                &&& after.phase == ServePhase::Rejecting <==> event is PageRequested && expected
                    is Some && expected != Some(event->range_start)
                &&& after.phase == ServePhase::Done <==> event == ServeEvent::StreamEnded
                &&& after.phase == ServePhase::Broken <==> event !is PageRequested && event
                    !is StreamEnded
            }
            &&& session.phase == ServePhase::Rejecting ==> after.phase == if event
                == ServeEvent::RejectionSent {
                ServePhase::Done
            } else {
                ServePhase::Broken
            }
            &&& session.phase is Serving ==> {
                &&& after.phase == ServePhase::Awaiting <==> sent
                    && !event->outcome->recovery_complete && session.progress.pages_served + 1 < 64
                &&& after.phase == ServePhase::Done <==> event == (ServeEvent::Answered {
                    outcome: HistoryRewrapServeOutcome::Rejected,
                }) || (sent && (event->outcome->recovery_complete || session.progress.pages_served
                    + 1 == 64))
                &&& after.phase == ServePhase::Broken <==> event !is Answered
            }
            &&& session.phase == ServePhase::Done || session.phase == ServePhase::Broken ==> after
                == session
            &&& sent ==> {
                &&& after.progress.pages_served == session.progress.pages_served + 1
                &&& after.progress.expected_range_start == Some(event->outcome->next_range_start)
                &&& after.progress.complete == event->outcome->recovery_complete
            }
            &&& !sent ==> after.progress == session.progress
        }),
{
}

/// The inventory holds the positions of the events that carry text, all of them and no other, in
/// order.
pub proof fn inventory_holds_every_text(is_text: Seq<bool>, count: nat)
    requires
        count <= is_text.len() <= usize::MAX,
    ensures
        forall|k: usize| #[trigger]
            text_positions(is_text, count).contains(k) <==> k < count && is_text[k as int],
        forall|i: int, j: int|
            0 <= i < j < text_positions(is_text, count).len() ==> #[trigger] text_positions(
                is_text,
                count,
            )[i] < #[trigger] text_positions(is_text, count)[j],
    decreases count,
{
    if count > 0 {
        let fewer = (count - 1) as nat;
        inventory_holds_every_text(is_text, fewer);
        let before = text_positions(is_text, fewer);
        let now = text_positions(is_text, count);
        assert forall|i: int| 0 <= i < before.len() implies #[trigger] before[i] < fewer by {
            assert(before.contains(before[i]));
        }
        assert forall|k: usize| #[trigger] now.contains(k) <==> k < count && is_text[k as int] by {
            assert(before.contains(k) <==> k < fewer && is_text[k as int]);
            if is_text[count - 1] {
                assert(now.last() == (count - 1) as usize);
                if before.contains(k) {
                    let i = choose|i: int| 0 <= i < before.len() && before[i] == k;
                    assert(now[i] == k);
                }
                if now.contains(k) {
                    let i = choose|i: int| 0 <= i < now.len() && now[i] == k;
                    if i < before.len() {
                        assert(before[i] == k);
                    }
                }
                assert(now[now.len() - 1] == (count - 1) as usize);
            }
        }
    }
}

/// A session that was just started has served nothing, expects no place and is not complete, so
/// that a page may start anywhere.
pub proof fn fresh_session_may_start_anywhere(range_start: u64)
    ensures
        ({
            let progress = HistoryRecoverySessionProgress::fresh();
            &&& progress.pages_served == 0
            &&& progress.expected_range_start is None
            &&& !progress.complete
            &&& progress.continues_at(range_start)
            &&& progress.unfinished()
        }),
{
}

/// A session goes on at a place exactly where it expects that place or none, and may have another
/// page exactly where it is not complete and has served fewer than sixty-four.
pub proof fn session_expects_its_next_page(
    progress: HistoryRecoverySessionProgress,
    range_start: u64,
)
    ensures
        progress.continues_at(range_start) <==> progress.expected_range_start is None
            || progress.expected_range_start == Some(range_start),
        progress.unfinished() <==> progress.pages_served < 64 && !progress.complete,
{
}

} // verus!
