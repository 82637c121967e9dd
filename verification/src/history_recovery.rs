//! Recovering history on the recipient device: whom it may fetch from, its checkpoints, the
//! pages of a session, and the import of what was fetched.

use crate::codec::same_bytes;
use crate::delivery::holds_account;
use crate::identity::{
    certificate_of, is_first_certificate, listing_is_exact, AccountDeviceList, AuthoritySnapshot,
    DeviceCertificate, ProtocolLimits, RoutePolicy,
};
use crate::ids::{AccountId, ConversationId, DeviceId, Digest, EndpointId, Id32};
use crate::ordered_records::{
    in_order, insert_record, insert_sorted, insertion_keeps_order, Keyed, RecordKey,
};
use crate::recovery_link::{LinkError, SignedHistoryRecoveryLink};
use crate::recovery_plan::SignedHistoryRecoveryPlan;
use crate::scheduler::MAX_HISTORY_RECOVERY_PAGES_PER_SESSION;
use crate::text::{encode_hex, hex, padded_decimal, push_padded_decimal, trim, trimmed};
use vstd::prelude::*;

verus! {

/// Why history is not fetched or imported.
#[derive(Clone, Copy, Debug, PartialEq, Eq, Structural)]
pub enum RecoveryError {
    EmptyCount,
    CountTooLarge,
    RangeOverflow,
    EmptyPage,
    PageTooLarge,
    NoPages,
    TooManyPages,
    RecipientOfAnotherAccount,
    RequesterNotAllowed,
    SourceOfAnotherAccount,
    OtherSource,
    RecipientCertificateDiffers,
    SasUnavailable,
    SasMismatch,
    NotAMember,
    CheckpointRegresses,
    CheckpointForked,
    CheckpointExpectsOtherRange,
    RangeNotRepresentable,
    OtherConversation,
    OtherRecipient,
    OtherAccount,
    EntryUnreadable { entry: usize },
    EntryUnauthorized { entry: usize },
    ExistingProjectionUnreadable { entry: usize },
    ProjectionConflict { entry: usize },
    StoredConflict,
    RejectionOfAnotherConversation,
    RejectedBySource,
    UnexpectedReply,
    TransferUnverified,
    TransferTooLarge,
}

/// Where history is recovered from.
#[derive(Debug)]
pub struct HistoryRecoveryBootstrap {
    pub endpoint: EndpointId,
    pub account_device_list: AccountDeviceList,
    pub account_id: AccountId,
    pub source_device_id: DeviceId,
    pub route_policy: RoutePolicy,
}

impl HistoryRecoveryBootstrap {
    /// Where a link offers history from.
    pub fn from_link(link: &SignedHistoryRecoveryLink) -> (r: HistoryRecoveryBootstrap)
        ensures
            r.endpoint == link.content.endpoint,
            r.account_device_list.authority == link.content.account_device_list.authority,
            r.account_device_list.certificates@ == link.content.account_device_list.certificates@,
            r.account_device_list.digest == link.content.account_device_list.digest,
            r.account_id == link.content.source_certificate.account_id,
            r.source_device_id == link.content.source_certificate.device_id,
            r.route_policy == link.content.route_policy,
    {
        HistoryRecoveryBootstrap {
            endpoint: link.content.endpoint,
            account_device_list: link.content.account_device_list.duplicate(),
            account_id: link.account_id(),
            source_device_id: link.source_device_id(),
            route_policy: link.content.route_policy,
        }
    }

    /// The authority snapshot that the device list embeds.
    pub fn authority_snapshot(&self) -> (r: AuthoritySnapshot)
        ensures
            r == self.account_device_list.authority,
    {
        self.account_device_list.authority
    }
}

/// What a confirmed link starts.
#[derive(Debug)]
pub struct AcceptedLink {
    pub bootstrap: HistoryRecoveryBootstrap,
    pub approved_range_start: usize,
    pub approved_event_count: usize,
    pub page_size: usize,
}

/// The first reason for which a link is not accepted.
pub open spec fn acceptance_fault(
    link: SignedHistoryRecoveryLink,
    limits: ProtocolLimits,
    now: u64,
    recipient: DeviceCertificate,
    conversation_id: ConversationId,
    confirmed_sas: Seq<char>,
) -> Option<LinkError> {
    match link.fault_for(limits, now, recipient) {
        Some(error) => Some(error),
        None => if conversation_id != link.content.conversation_id {
            Some(LinkError::ConversationMismatch)
        } else if link.derived_sas is None {
            Some(LinkError::SasUnavailable)
        } else if trimmed(confirmed_sas) != link.derived_sas->0@ {
            Some(LinkError::SasMismatch)
        } else if link.content.approved_range_start > usize::MAX
            || link.content.approved_range_end - link.content.approved_range_start > usize::MAX
            || link.content.page_size > usize::MAX {
            Some(LinkError::RangeNotRepresentable)
        } else {
            None
        },
    }
}

/// Accepts a link for a conversation: it must be valid for this device now, name the same
/// conversation, and the user must have confirmed exactly its short authentication string.
pub fn accept_history_recovery_link(
    link: &SignedHistoryRecoveryLink,
    now_unix_seconds: u64,
    recipient_certificate: DeviceCertificate,
    conversation_id: ConversationId,
    confirmed_sas: &str,
    limits: ProtocolLimits,
) -> (r: Result<AcceptedLink, LinkError>)
    ensures
        match acceptance_fault(
            *link,
            limits,
            now_unix_seconds,
            recipient_certificate,
            conversation_id,
            confirmed_sas@,
        ) {
            Some(error) => r matches Err(e) && e == error,
            None => r matches Ok(accepted) && accepted.bootstrap.endpoint == link.content.endpoint
                && accepted.bootstrap.account_id == link.content.source_certificate.account_id
                && accepted.bootstrap.source_device_id
                == link.content.source_certificate.device_id && accepted.bootstrap.route_policy
                == link.content.route_policy
                && accepted.bootstrap.account_device_list.certificates@
                == link.content.account_device_list.certificates@
                && accepted.bootstrap.account_device_list.authority
                == link.content.account_device_list.authority
                && accepted.bootstrap.account_device_list.digest
                == link.content.account_device_list.digest
                && accepted.approved_range_start == link.content.approved_range_start
                && accepted.approved_event_count == link.content.approved_range_end
                - link.content.approved_range_start && accepted.page_size
                == link.content.page_size,
        },
{
    if let Err(error) = link.verify_for_recipient(
        now_unix_seconds,
        recipient_certificate,
        limits,
    ) {
        return Err(error);
    }
    if conversation_id != link.content.conversation_id {
        return Err(LinkError::ConversationMismatch);
    }
    match link.sas() {
        Err(error) => {
            return Err(error);
        },
        Ok(sas) => {
            if trim(confirmed_sas) != *sas {
                return Err(LinkError::SasMismatch);
            }
        },
    }
    let event_count: u64 = link.approved_event_count();
    if link.content.approved_range_start > usize::MAX as u64 || event_count > usize::MAX as u64
        || link.content.page_size > usize::MAX as u64 {
        return Err(LinkError::RangeNotRepresentable);
    }
    Ok(
        AcceptedLink {
            bootstrap: HistoryRecoveryBootstrap::from_link(link),
            approved_range_start: link.content.approved_range_start as usize,
            approved_event_count: event_count as usize,
            page_size: link.content.page_size as usize,
        },
    )
}

/// The first option of a recovery that is out of its range.
pub open spec fn resume_options_fault(
    approved_range_start: usize,
    approved_event_count: usize,
    page_size: usize,
    max_pages: usize,
    limits: ProtocolLimits,
) -> Option<RecoveryError> {
    if approved_event_count == 0 {
        Some(RecoveryError::EmptyCount)
    } else if approved_range_start + approved_event_count > usize::MAX {
        Some(RecoveryError::RangeOverflow)
    } else if page_size == 0 {
        Some(RecoveryError::EmptyPage)
    } else if page_size > limits.max_history_rewrap_entries {
        Some(RecoveryError::PageTooLarge)
    } else if max_pages == 0 {
        Some(RecoveryError::NoPages)
    } else if max_pages > MAX_HISTORY_RECOVERY_PAGES_PER_SESSION {
        Some(RecoveryError::TooManyPages)
    } else {
        None
    }
}

/// Tests the options of a recovery.
pub fn validate_resume_options(
    approved_range_start: usize,
    approved_event_count: usize,
    page_size: usize,
    max_pages: usize,
    limits: ProtocolLimits,
) -> (r: Result<(), RecoveryError>)
    ensures
        match resume_options_fault(
            approved_range_start,
            approved_event_count,
            page_size,
            max_pages,
            limits,
        ) {
            None => r is Ok,
            Some(error) => r == Err::<(), RecoveryError>(error),
        },
{
    if approved_event_count == 0 {
        return Err(RecoveryError::EmptyCount);
    }
    if approved_range_start.checked_add(approved_event_count).is_none() {
        return Err(RecoveryError::RangeOverflow);
    }
    if page_size == 0 {
        return Err(RecoveryError::EmptyPage);
    }
    if page_size as u64 > limits.max_history_rewrap_entries {
        return Err(RecoveryError::PageTooLarge);
    }
    if max_pages == 0 {
        return Err(RecoveryError::NoPages);
    }
    if max_pages > MAX_HISTORY_RECOVERY_PAGES_PER_SESSION {
        return Err(RecoveryError::TooManyPages);
    }
    Ok(())
}

/// The first reason for which a recovery may not go on with a source.
pub open spec fn source_fault(
    bootstrap: HistoryRecoveryBootstrap,
    recipient: DeviceCertificate,
    expected_account_id: AccountId,
    expected_source_device_id: DeviceId,
    derived_sas: Option<String>,
    confirmed_sas: Seq<char>,
) -> Option<RecoveryError> {
    if recipient.account_id != expected_account_id {
        Some(RecoveryError::RecipientOfAnotherAccount)
    } else if bootstrap.account_id != expected_account_id {
        Some(RecoveryError::SourceOfAnotherAccount)
    } else if bootstrap.source_device_id != expected_source_device_id {
        Some(RecoveryError::OtherSource)
    } else if certificate_of(
        bootstrap.account_device_list.certificates@,
        recipient.device_id,
    ) != Some(recipient) {
        Some(RecoveryError::RecipientCertificateDiffers)
    } else if derived_sas is None {
        Some(RecoveryError::SasUnavailable)
    } else if trimmed(confirmed_sas) != derived_sas->0@ {
        Some(RecoveryError::SasMismatch)
    } else {
        None
    }
}

/// Tests that a recovery may go on with a source: the expected device of the expected account,
/// whose device list holds this very recipient, and whose short authentication string the user
/// confirmed.
pub fn check_recovery_source(
    bootstrap: &HistoryRecoveryBootstrap,
    recipient_certificate: DeviceCertificate,
    expected_account_id: AccountId,
    expected_source_device_id: DeviceId,
    derived_sas: &Option<String>,
    confirmed_sas: &str,
) -> (r: Result<(), RecoveryError>)
    ensures
        match source_fault(
            *bootstrap,
            recipient_certificate,
            expected_account_id,
            expected_source_device_id,
            *derived_sas,
            confirmed_sas@,
        ) {
            None => r is Ok,
            Some(error) => r == Err::<(), RecoveryError>(error),
        },
{
    if recipient_certificate.account_id != expected_account_id {
        return Err(RecoveryError::RecipientOfAnotherAccount);
    }
    if bootstrap.account_id != expected_account_id {
        return Err(RecoveryError::SourceOfAnotherAccount);
    }
    if bootstrap.source_device_id != expected_source_device_id {
        return Err(RecoveryError::OtherSource);
    }
    match bootstrap.account_device_list.certificate_for(recipient_certificate.device_id) {
        None => {
            return Err(RecoveryError::RecipientCertificateDiffers);
        },
        Some(certificate) => {
            if certificate != recipient_certificate {
                return Err(RecoveryError::RecipientCertificateDiffers);
            }
        },
    }
    match derived_sas {
        None => Err(RecoveryError::SasUnavailable),
        Some(sas) => if trim(confirmed_sas) != *sas {
            Err(RecoveryError::SasMismatch)
        } else {
            Ok(())
        },
    }
}

/// What a fetch of one range is checked against before it connects. `allowed_requester` and
/// `source_device_id` come from the source's ticket.
#[derive(Debug)]
pub struct FetchSource {
    pub allowed_requester_account_id: AccountId,
    pub source_device_id: DeviceId,
    pub account_device_list: AccountDeviceList,
    pub derived_sas: Option<String>,
    pub is_member: bool,
}

/// The first reason for which one range is not fetched.
pub open spec fn fetch_fault(
    count: usize,
    recipient: DeviceCertificate,
    expected_account_id: AccountId,
    expected_source_device_id: Option<DeviceId>,
    source: FetchSource,
    confirmed_sas: Seq<char>,
    limits: ProtocolLimits,
) -> Option<RecoveryError> {
    if count == 0 {
        Some(RecoveryError::EmptyCount)
    } else if count > limits.max_history_rewrap_entries {
        Some(RecoveryError::CountTooLarge)
    } else if recipient.account_id != expected_account_id {
        Some(RecoveryError::RecipientOfAnotherAccount)
    } else if source.allowed_requester_account_id != expected_account_id {
        Some(RecoveryError::RequesterNotAllowed)
    } else if expected_source_device_id is Some && expected_source_device_id->0
        != source.source_device_id {
        Some(RecoveryError::OtherSource)
    } else if certificate_of(source.account_device_list.certificates@, recipient.device_id) != Some(
        recipient,
    ) {
        Some(RecoveryError::RecipientCertificateDiffers)
    } else if source.derived_sas is None {
        Some(RecoveryError::SasUnavailable)
    } else if trimmed(confirmed_sas) != source.derived_sas->0@ {
        Some(RecoveryError::SasMismatch)
    } else if !source.is_member {
        Some(RecoveryError::NotAMember)
    } else {
        None
    }
}

/// Tests that one range may be fetched from a source.
pub fn fetch_history_rewrap(
    count: usize,
    recipient_certificate: DeviceCertificate,
    expected_account_id: AccountId,
    expected_source_device_id: Option<DeviceId>,
    source: &FetchSource,
    confirmed_sas: &str,
    limits: ProtocolLimits,
) -> (r: Result<(), RecoveryError>)
    ensures
        match fetch_fault(
            count,
            recipient_certificate,
            expected_account_id,
            expected_source_device_id,
            *source,
            confirmed_sas@,
            limits,
        ) {
            None => r is Ok,
            Some(error) => r == Err::<(), RecoveryError>(error),
        },
{
    if count == 0 {
        return Err(RecoveryError::EmptyCount);
    }
    if count as u64 > limits.max_history_rewrap_entries {
        return Err(RecoveryError::CountTooLarge);
    }
    if recipient_certificate.account_id != expected_account_id {
        return Err(RecoveryError::RecipientOfAnotherAccount);
    }
    if source.allowed_requester_account_id != expected_account_id {
        return Err(RecoveryError::RequesterNotAllowed);
    }
    if let Some(expected) = expected_source_device_id {
        if expected != source.source_device_id {
            return Err(RecoveryError::OtherSource);
        }
    }
    match source.account_device_list.certificate_for(recipient_certificate.device_id) {
        None => {
            return Err(RecoveryError::RecipientCertificateDiffers);
        },
        Some(certificate) => {
            if certificate != recipient_certificate {
                return Err(RecoveryError::RecipientCertificateDiffers);
            }
        },
    }
    match &source.derived_sas {
        None => {
            return Err(RecoveryError::SasUnavailable);
        },
        Some(sas) => {
            if trim(confirmed_sas) != *sas {
                return Err(RecoveryError::SasMismatch);
            }
        },
    }
    if !source.is_member {
        return Err(RecoveryError::NotAMember);
    }
    Ok(())
}

/// What a source answered to a request for a page. `verified` tells whether the transfer was
/// verified against the exact request.
#[derive(Clone, Copy, Debug, PartialEq, Eq, Structural)]
pub enum PageReply {
    Transfer { verified: bool, encoded_bytes: usize },
    Rejected { conversation_id: ConversationId },
    Other,
}

/// Tests a source's answer to a request for a page.
pub fn request_history_rewrap_transfer(
    reply: PageReply,
    conversation_id: ConversationId,
    max_wire_message_bytes: usize,
) -> (r: Result<(), RecoveryError>)
    ensures
        r == match reply {
            PageReply::Transfer { verified, encoded_bytes } => if !verified {
                Err(RecoveryError::TransferUnverified)
            } else if encoded_bytes > max_wire_message_bytes {
                Err(RecoveryError::TransferTooLarge)
            } else {
                Ok(())
            },
            PageReply::Rejected { conversation_id: rejected } => if rejected != conversation_id {
                Err(RecoveryError::RejectionOfAnotherConversation)
            } else {
                Err(RecoveryError::RejectedBySource)
            },
            PageReply::Other => Err(RecoveryError::UnexpectedReply),
        },
{
    match reply {
        PageReply::Transfer { verified, encoded_bytes } => if !verified {
            Err(RecoveryError::TransferUnverified)
        } else if encoded_bytes > max_wire_message_bytes {
            Err(RecoveryError::TransferTooLarge)
        } else {
            Ok(())
        },
        PageReply::Rejected { conversation_id: rejected } => if rejected != conversation_id {
            Err(RecoveryError::RejectionOfAnotherConversation)
        } else {
            Err(RecoveryError::RejectedBySource)
        },
        PageReply::Other => Err(RecoveryError::UnexpectedReply),
    }
}

/// A signed record of how far a recovery has come.
#[derive(Clone, Copy, Debug, PartialEq, Eq, Structural)]
pub struct RecoveryCheckpoint {
    pub recovery_id: Digest,
    pub checkpoint_id: Digest,
    pub previous_checkpoint_id: Option<Digest>,
    pub next_range_start: u64,
    pub approved_range_end: u64,
    pub complete: bool,
}

impl Keyed for RecoveryCheckpoint {
    open spec fn key(&self) -> RecordKey {
        RecordKey { id: Id32 { high: 0, low: 0 }, generation: self.next_range_start }
    }

    fn record_key(&self) -> (r: RecordKey) {
        RecordKey { id: Id32 { high: 0, low: 0 }, generation: self.next_range_start }
    }
}

impl RecoveryCheckpoint {
    /// A recovery that is not complete has something left to fetch.
    pub open spec fn sound(self) -> bool {
        !self.complete ==> self.next_range_start < self.approved_range_end
    }

    /// Whether a recovery that is not complete has something left to fetch.
    pub fn is_sound(&self) -> (r: bool)
        ensures
            r == self.sound(),
    {
        self.complete || self.next_range_start < self.approved_range_end
    }

    /// `later` is the checkpoint right after this one.
    pub open spec fn precedes(self, later: RecoveryCheckpoint) -> bool {
        &&& self.next_range_start < later.next_range_start
        &&& later.previous_checkpoint_id == Some(self.checkpoint_id)
    }
}

/// The stored checkpoints of a recovery, in the order of their progress.
pub open spec fn matching_checkpoints(
    stored: Seq<RecoveryCheckpoint>,
    count: nat,
    recovery_id: Digest,
) -> Seq<RecoveryCheckpoint>
    decreases count,
{
    if count == 0 {
        Seq::empty()
    } else {
        let before = matching_checkpoints(stored, (count - 1) as nat, recovery_id);
        if stored[count - 1].recovery_id == recovery_id {
            insert_sorted(before, stored[count - 1])
        } else {
            before
        }
    }
}

/// The end of the chain that starts at `current` and goes through `rest`.
pub open spec fn chain_end(current: RecoveryCheckpoint, rest: Seq<RecoveryCheckpoint>) -> Result<
    RecoveryCheckpoint,
    RecoveryError,
>
    decreases rest.len(),
{
    if rest.len() == 0 {
        Ok(current)
    } else if rest[0].next_range_start <= current.next_range_start {
        Err(RecoveryError::CheckpointRegresses)
    } else if rest[0].previous_checkpoint_id != Some(current.checkpoint_id) {
        Err(RecoveryError::CheckpointForked)
    } else {
        chain_end(rest[0], rest.drop_first())
    }
}

/// The latest checkpoint of the recovery that `initial` starts: the end of the one chain that
/// the stored checkpoints of that recovery make up.
pub fn load_latest_history_recovery_checkpoint(
    initial: RecoveryCheckpoint,
    stored: &[RecoveryCheckpoint],
) -> (r: Result<RecoveryCheckpoint, RecoveryError>)
    ensures
        r == chain_end(
            initial,
            matching_checkpoints(stored@, stored@.len(), initial.recovery_id),
        ),
{
    let mut matching: Vec<RecoveryCheckpoint> = Vec::new();
    let mut i: usize = 0;
    while i < stored.len()
        invariant
            i <= stored.len(),
            matching@ == matching_checkpoints(stored@, i as nat, initial.recovery_id),
        decreases stored.len() - i,
    {
        if stored[i].recovery_id == initial.recovery_id {
            insert_record(&mut matching, stored[i]);
        }
        i += 1;
    }
    let mut current = initial;
    let mut i: usize = 0;
    assert(matching@.skip(0) == matching@);
    while i < matching.len()
        invariant
            i <= matching.len(),
            matching@ == matching_checkpoints(stored@, stored@.len(), initial.recovery_id),
            chain_end(initial, matching@) == chain_end(current, matching@.skip(i as int)),
        decreases matching.len() - i,
    {
        let checkpoint = matching[i];
        assert(matching@.skip(i as int).drop_first() == matching@.skip(i + 1));
        if checkpoint.next_range_start <= current.next_range_start {
            return Err(RecoveryError::CheckpointRegresses);
        }
        let linked = match checkpoint.previous_checkpoint_id {
            None => false,
            Some(previous) => previous == current.checkpoint_id,
        };
        if !linked {
            return Err(RecoveryError::CheckpointForked);
        }
        current = checkpoint;
        i += 1;
    }
    Ok(current)
}

/// What a plan has a recovery ask for.
#[derive(Clone, Copy, Debug, PartialEq, Eq, Structural)]
pub struct PlannedRange {
    pub range_start: usize,
    pub event_count: usize,
    pub page_size: usize,
}

/// The range and the page size of a plan, where they can be represented.
pub fn planned_range(plan: &SignedHistoryRecoveryPlan) -> (r: Result<PlannedRange, RecoveryError>)
    ensures
        match r {
            Ok(range) => {
                &&& range.range_start == plan.content.approved_range_start
                &&& range.event_count == if plan.content.approved_range_end
                    > plan.content.approved_range_start {
                    plan.content.approved_range_end - plan.content.approved_range_start
                } else {
                    0
                }
                &&& range.page_size == plan.content.page_size
            },
            Err(error) => error == RecoveryError::RangeNotRepresentable && (
            plan.content.approved_range_start > usize::MAX || plan.content.approved_range_end
                - plan.content.approved_range_start > usize::MAX || plan.content.page_size
                > usize::MAX),
        },
{
    let event_count: u64 = plan.approved_event_count();
    if plan.content.approved_range_start > usize::MAX as u64 || event_count > usize::MAX as u64
        || plan.content.page_size > usize::MAX as u64 {
        return Err(RecoveryError::RangeNotRepresentable);
    }
    Ok(
        PlannedRange {
            range_start: plan.content.approved_range_start as usize,
            event_count: event_count as usize,
            page_size: plan.content.page_size as usize,
        },
    )
}

/// The latest checkpoint of a plan's recovery, of which `initial` is the first one.
pub fn latest_checkpoint_for_plan(
    plan: &SignedHistoryRecoveryPlan,
    initial: RecoveryCheckpoint,
    stored: &[RecoveryCheckpoint],
) -> (r: Result<RecoveryCheckpoint, RecoveryError>)
    ensures
        r == if plan.content.approved_range_start > usize::MAX || plan.content.approved_range_end
            - plan.content.approved_range_start > usize::MAX || plan.content.page_size
            > usize::MAX {
            Err(RecoveryError::RangeNotRepresentable)
        } else {
            chain_end(initial, matching_checkpoints(stored@, stored@.len(), initial.recovery_id))
        },
{
    if let Err(error) = planned_range(plan) {
        return Err(error);
    }
    load_latest_history_recovery_checkpoint(initial, stored)
}

/// Where the chain is accepted, each checkpoint comes right after the one before it, so that
/// progress only grows, and the result is the last of them.
pub proof fn accepted_chain_is_linked(initial: RecoveryCheckpoint, rest: Seq<RecoveryCheckpoint>)
    requires
        chain_end(initial, rest) is Ok,
    ensures
        rest.len() > 0 ==> initial.precedes(rest[0]),
        forall|i: int| 0 < i < rest.len() ==> rest[i - 1].precedes(#[trigger] rest[i]),
        chain_end(initial, rest)->Ok_0 == if rest.len() == 0 {
            initial
        } else {
            rest.last()
        },
        chain_end(initial, rest)->Ok_0.next_range_start >= initial.next_range_start,
    decreases rest.len(),
{
    if rest.len() > 0 {
        let tail = rest.drop_first();
        accepted_chain_is_linked(rest[0], tail);
        assert forall|i: int| 0 < i < rest.len() implies rest[i - 1].precedes(
            #[trigger] rest[i],
        ) by {
            if i > 1 {
                assert(tail[i - 2].precedes(tail[i - 1]));
            } else {
                assert(tail[0] == rest[1]);
            }
        }
    }
}

/// The checkpoints that a chain is made of are exactly the stored ones of the recovery, in the
/// order of their progress.
pub proof fn matching_checkpoints_are_those_of_the_recovery(
    stored: Seq<RecoveryCheckpoint>,
    count: nat,
    recovery_id: Digest,
)
    requires
        count <= stored.len(),
    ensures
        in_order(matching_checkpoints(stored, count, recovery_id)),
        forall|c: RecoveryCheckpoint| #[trigger]
            matching_checkpoints(stored, count, recovery_id).contains(c) <==> c.recovery_id
                == recovery_id && exists|i: int| 0 <= i < count && #[trigger] stored[i] == c,
    decreases count,
{
    if count > 0 {
        let fewer = (count - 1) as nat;
        matching_checkpoints_are_those_of_the_recovery(stored, fewer, recovery_id);
        let before = matching_checkpoints(stored, fewer, recovery_id);
        insertion_keeps_order(before, stored[count - 1]);
        assert forall|c: RecoveryCheckpoint| #[trigger]
            matching_checkpoints(stored, count, recovery_id).contains(c) <==> c.recovery_id
                == recovery_id && exists|i: int| 0 <= i < count && #[trigger] stored[i] == c by {
            assert(before.contains(c) <==> c.recovery_id == recovery_id && exists|i: int|
                0 <= i < fewer && #[trigger] stored[i] == c);
            if exists|i: int| 0 <= i < count && #[trigger] stored[i] == c {
                let i = choose|i: int| 0 <= i < count && #[trigger] stored[i] == c;
                if i < fewer {
                    assert(exists|i: int| 0 <= i < fewer && #[trigger] stored[i] == c);
                }
            }
            if c == stored[count - 1] {
                assert(stored[count - 1] == c);
            }
        }
    }
}

/// A session of pages on the recipient's side.
#[derive(Clone, Copy, Debug, PartialEq, Eq, Structural)]
pub struct RecoverySession {
    pub checkpoint: RecoveryCheckpoint,
    pub page_size: usize,
    pub max_pages: usize,
    pub pages_completed: usize,
}

/// The next page to ask for.
#[derive(Clone, Copy, Debug, PartialEq, Eq, Structural)]
pub struct PageRequest {
    pub range_start: usize,
    pub count: usize,
}

impl RecoverySession {
    /// What a session keeps.
    pub open spec fn wf(self) -> bool {
        &&& self.checkpoint.sound()
        &&& self.page_size > 0
        &&& self.pages_completed <= self.max_pages
    }

    /// The page to ask for next: none where the recovery is complete or the session has
    /// fetched as many pages as it may.
    pub open spec fn request(self) -> Result<Option<PageRequest>, RecoveryError> {
        if self.pages_completed >= self.max_pages || self.checkpoint.complete {
            Ok(None)
        } else if self.checkpoint.next_range_start > usize::MAX || self.checkpoint.approved_range_end
            > usize::MAX {
            Err(RecoveryError::RangeNotRepresentable)
        } else {
            let left = self.checkpoint.approved_range_end - self.checkpoint.next_range_start;
            Ok(
                Some(
                    PageRequest {
                        range_start: self.checkpoint.next_range_start as usize,
                        count: if self.page_size < left {
                            self.page_size
                        } else {
                            left as usize
                        },
                    },
                ),
            )
        }
    }

    /// The page to ask for next.
    pub fn next_request(&self) -> (r: Result<Option<PageRequest>, RecoveryError>)
        requires
            self.wf(),
        ensures
            r == self.request(),
    {
        if self.pages_completed >= self.max_pages || self.checkpoint.complete {
            return Ok(None);
        }
        if self.checkpoint.next_range_start > usize::MAX as u64
            || self.checkpoint.approved_range_end > usize::MAX as u64 {
            return Err(RecoveryError::RangeNotRepresentable);
        }
        let range_start: usize = self.checkpoint.next_range_start as usize;
        let left: usize = self.checkpoint.approved_range_end as usize - range_start;
        let count: usize = if self.page_size < left {
            self.page_size
        } else {
            left
        };
        Ok(Some(PageRequest { range_start, count }))
    }

    /// Goes on from the checkpoint that an imported page advanced to.
    pub fn page_imported(&mut self, advanced: RecoveryCheckpoint)
        requires
            old(self).wf(),
            old(self).pages_completed < old(self).max_pages,
            advanced.sound(),
        ensures
            final(self).wf(),
            *final(self) == (RecoverySession {
                checkpoint: advanced,
                pages_completed: (old(self).pages_completed + 1) as usize,
                ..*old(self)
            }),
    {
        self.checkpoint = advanced;
        self.pages_completed = self.pages_completed + 1;
    }
}

/// The options of a recovery.
#[derive(Clone, Copy, Debug, PartialEq, Eq, Structural)]
pub struct ResumeOptions {
    pub approved_range_start: usize,
    pub approved_event_count: usize,
    pub page_size: usize,
    pub max_pages: usize,
}

/// How a recovery goes on.
#[derive(Clone, Copy, Debug, PartialEq, Eq, Structural)]
pub enum ResumeStart {
    /// Everything that was approved is there.
    Complete { checkpoint: RecoveryCheckpoint },
    /// Connect and ask for pages.
    Connect { session: RecoverySession },
}

/// How a recovery goes on, given the stored checkpoints and whether the account is a member of
/// the conversation.
pub open spec fn resumed(
    options: ResumeOptions,
    source: Option<RecoveryError>,
    initial: RecoveryCheckpoint,
    stored: Seq<RecoveryCheckpoint>,
    is_member: bool,
    limits: ProtocolLimits,
) -> Result<ResumeStart, RecoveryError> {
    match resume_options_fault(
        options.approved_range_start,
        options.approved_event_count,
        options.page_size,
        options.max_pages,
        limits,
    ) {
        Some(error) => Err(error),
        None => match source {
            Some(error) => Err(error),
            None => match chain_end(
                initial,
                matching_checkpoints(stored, stored.len(), initial.recovery_id),
            ) {
                Err(error) => Err(error),
                Ok(checkpoint) => if checkpoint.complete {
                    Ok(ResumeStart::Complete { checkpoint })
                } else if !is_member {
                    Err(RecoveryError::NotAMember)
                } else {
                    Ok(
                        ResumeStart::Connect {
                            session: RecoverySession {
                                checkpoint,
                                page_size: options.page_size,
                                max_pages: options.max_pages,
                                pages_completed: 0,
                            },
                        },
                    )
                },
            },
        },
    }
}

/// Decides how a recovery goes on before it connects: its options are in range, its source is the
/// expected and confirmed one, its stored checkpoints make one chain, and unless that chain is
/// complete the account is a member of the conversation.
pub fn resume_history_recovery(
    options: ResumeOptions,
    bootstrap: &HistoryRecoveryBootstrap,
    recipient_certificate: DeviceCertificate,
    expected_account_id: AccountId,
    expected_source_device_id: DeviceId,
    derived_sas: &Option<String>,
    confirmed_sas: &str,
    initial: RecoveryCheckpoint,
    stored: &[RecoveryCheckpoint],
    is_member: bool,
    limits: ProtocolLimits,
) -> (r: Result<ResumeStart, RecoveryError>)
    requires
        initial.sound(),
        forall|i: int| 0 <= i < stored@.len() ==> (#[trigger] stored@[i]).sound(),
    ensures
        r matches Ok(ResumeStart::Connect { session }) ==> session.wf() && session.pages_completed
            < session.max_pages,
        r == resumed(
            options,
            source_fault(
                *bootstrap,
                recipient_certificate,
                expected_account_id,
                expected_source_device_id,
                *derived_sas,
                confirmed_sas@,
            ),
            initial,
            stored@,
            is_member,
            limits,
        ),
{
    if let Err(error) = validate_resume_options(
        options.approved_range_start,
        options.approved_event_count,
        options.page_size,
        options.max_pages,
        limits,
    ) {
        return Err(error);
    }
    if let Err(error) = check_recovery_source(
        bootstrap,
        recipient_certificate,
        expected_account_id,
        expected_source_device_id,
        derived_sas,
        confirmed_sas,
    ) {
        return Err(error);
    }
    match load_latest_history_recovery_checkpoint(initial, stored) {
        Err(error) => Err(error),
        Ok(checkpoint) => {
            if checkpoint.complete {
                return Ok(ResumeStart::Complete { checkpoint });
            }
            if !is_member {
                return Err(RecoveryError::NotAMember);
            }
            proof {
                let matching = matching_checkpoints(stored@, stored@.len(), initial.recovery_id);
                accepted_chain_is_linked(initial, matching);
                matching_checkpoints_are_those_of_the_recovery(
                    stored@,
                    stored@.len(),
                    initial.recovery_id,
                );
                if matching.len() > 0 {
                    assert(matching.contains(matching.last()));
                }
            }
            Ok(
                ResumeStart::Connect {
                    session: RecoverySession {
                        checkpoint,
                        page_size: options.page_size,
                        max_pages: options.max_pages,
                        pages_completed: 0,
                    },
                },
            )
        },
    }
}

/// A complete recovery does not connect again, and one that connects starts a session that may
/// fetch at least one page.
pub proof fn complete_recovery_does_not_connect(
    options: ResumeOptions,
    source: Option<RecoveryError>,
    initial: RecoveryCheckpoint,
    stored: Seq<RecoveryCheckpoint>,
    is_member: bool,
    limits: ProtocolLimits,
)
    ensures
        resumed(options, source, initial, stored, is_member, limits) matches Ok(
            ResumeStart::Connect { session },
        ) ==> !session.checkpoint.complete && is_member && session.pages_completed
            < session.max_pages && session.page_size > 0,
{
}

/// A session asks only for events that were approved and not yet recovered, at least one and at
/// most a page of them, and for no more pages than it may.
pub proof fn session_requests_approved_range(session: RecoverySession)
    requires
        session.wf(),
    ensures
        session.request() matches Ok(Some(page)) ==> {
            &&& page.range_start == session.checkpoint.next_range_start
            &&& 1 <= page.count <= session.page_size
            &&& page.range_start + page.count <= session.checkpoint.approved_range_end
            &&& session.pages_completed < session.max_pages
        },
{
}

/// Tests that a checkpoint goes on where a requested range starts.
pub fn checkpoint_expects(checkpoint: RecoveryCheckpoint, range_start: usize) -> (r: Result<
    (),
    RecoveryError,
>)
    ensures
        r == if checkpoint.next_range_start == range_start {
            Ok::<(), RecoveryError>(())
        } else {
            Err(RecoveryError::CheckpointExpectsOtherRange)
        },
{
    if checkpoint.next_range_start == range_start as u64 {
        Ok(())
    } else {
        Err(RecoveryError::CheckpointExpectsOtherRange)
    }
}

/// The file name of a checkpoint.
pub fn checkpoint_file_name(recovery_id: &str, next_range_start: u64, checkpoint_id: &[u8]) -> (r:
    String)
    ensures
        r@ == recovery_id@ + "-"@ + padded_decimal(next_range_start as nat, 20) + "-"@ + hex(
            checkpoint_id@,
        ) + ".checkpoint"@,
{
    let mut name = String::from_str(recovery_id);
    name.append("-");
    push_padded_decimal(&mut name, next_range_start, 20);
    name.append("-");
    name.append(encode_hex(checkpoint_id).as_str());
    name.append(".checkpoint");
    name
}

/// Tests that an immutable file holds exactly what would be written to it.
pub fn validate_existing_history_rewrap(existing: &[u8], expected: &[u8]) -> (r: Result<
    (),
    RecoveryError,
>)
    ensures
        r == if existing@ == expected@ {
            Ok::<(), RecoveryError>(())
        } else {
            Err(RecoveryError::StoredConflict)
        },
{
    if same_bytes(existing, expected) {
        Ok(())
    } else {
        Err(RecoveryError::StoredConflict)
    }
}

/// What a rewrap bundle says of itself.
#[derive(Debug)]
pub struct RewrapManifest {
    pub conversation_id: ConversationId,
    pub account_id: AccountId,
    pub recipient_device_id: DeviceId,
    pub account_device_list: AccountDeviceList,
}

/// The first reason for which a bundle is not for this device.
pub open spec fn manifest_fault(
    manifest: RewrapManifest,
    conversation_id: ConversationId,
    recipient: DeviceCertificate,
) -> Option<RecoveryError> {
    if manifest.conversation_id != conversation_id {
        Some(RecoveryError::OtherConversation)
    } else if manifest.recipient_device_id != recipient.device_id {
        Some(RecoveryError::OtherRecipient)
    } else if manifest.account_id != recipient.account_id {
        Some(RecoveryError::OtherAccount)
    } else if certificate_of(
        manifest.account_device_list.certificates@,
        recipient.device_id,
    ) != Some(recipient) {
        Some(RecoveryError::RecipientCertificateDiffers)
    } else {
        None
    }
}

/// Tests that the recipient of a bundle is a member of the conversation.
pub fn require_recipient_membership(members: &[AccountId], account_id: AccountId) -> (r: Result<
    (),
    RecoveryError,
>)
    ensures
        r == if members@.contains(account_id) {
            Ok::<(), RecoveryError>(())
        } else {
            Err(RecoveryError::NotAMember)
        },
{
    if holds_account(members, account_id) {
        Ok(())
    } else {
        Err(RecoveryError::NotAMember)
    }
}

/// Tests that a bundle is for this device.
pub fn check_manifest(
    manifest: &RewrapManifest,
    conversation_id: ConversationId,
    recipient_certificate: DeviceCertificate,
) -> (r: Result<(), RecoveryError>)
    ensures
        match manifest_fault(*manifest, conversation_id, recipient_certificate) {
            None => r is Ok,
            Some(error) => r == Err::<(), RecoveryError>(error),
        },
{
    if manifest.conversation_id != conversation_id {
        return Err(RecoveryError::OtherConversation);
    }
    if manifest.recipient_device_id != recipient_certificate.device_id {
        return Err(RecoveryError::OtherRecipient);
    }
    if manifest.account_id != recipient_certificate.account_id {
        return Err(RecoveryError::OtherAccount);
    }
    match manifest.account_device_list.certificate_for(recipient_certificate.device_id) {
        None => Err(RecoveryError::RecipientCertificateDiffers),
        Some(certificate) => if certificate == recipient_certificate {
            Ok(())
        } else {
            Err(RecoveryError::RecipientCertificateDiffers)
        },
    }
}

/// What the local store holds for the event of an entry.
#[derive(Debug)]
pub enum ExistingProjection {
    Missing,
    Unreadable,
    Body(String),
}

/// One entry of a bundle: its text where it could be opened, whether its event is authorized by
/// the conversation's membership, and what the local store holds for that event.
#[derive(Debug)]
pub struct ImportEntry {
    pub body: Option<String>,
    pub authorized: bool,
    pub existing: ExistingProjection,
}

/// Why an entry cannot be imported.
pub open spec fn entry_fault(entry: ImportEntry, at: usize) -> Option<RecoveryError> {
    match entry.body {
        None => Some(RecoveryError::EntryUnreadable { entry: at }),
        Some(body) => if !entry.authorized {
            Some(RecoveryError::EntryUnauthorized { entry: at })
        } else {
            match entry.existing {
                ExistingProjection::Missing => None,
                ExistingProjection::Unreadable => Some(
                    RecoveryError::ExistingProjectionUnreadable { entry: at },
                ),
                ExistingProjection::Body(existing) => if existing@ == body@ {
                    None
                } else {
                    Some(RecoveryError::ProjectionConflict { entry: at })
                },
            }
        },
    }
}

/// The fault of the first of `entries` that cannot be imported.
pub open spec fn first_entry_fault(entries: Seq<ImportEntry>, count: nat) -> Option<RecoveryError>
    decreases count,
{
    if count == 0 {
        None
    } else {
        match first_entry_fault(entries, (count - 1) as nat) {
            Some(error) => Some(error),
            None => entry_fault(entries[count - 1], (count - 1) as usize),
        }
    }
}

/// Tests every entry before anything is written. The result tells, for each entry, whether the
/// local store has its text already.
pub fn import_history_rewrap_material(entries: &Vec<ImportEntry>) -> (r: Result<
    Vec<bool>,
    RecoveryError,
>)
    ensures
        match r {
            Err(error) => first_entry_fault(entries@, entries@.len()) == Some(error),
            Ok(exists_already) => {
                &&& first_entry_fault(entries@, entries@.len()) is None
                &&& exists_already@.len() == entries@.len()
                &&& forall|i: int|
                    0 <= i < entries@.len() ==> #[trigger] exists_already@[i]
                        == !(entries@[i].existing is Missing)
            },
        },
{
    let mut prepared: Vec<bool> = Vec::new();
    let mut i: usize = 0;
    while i < entries.len()
        invariant
            i <= entries.len(),
            prepared@.len() == i,
            first_entry_fault(entries@, i as nat) is None,
            forall|j: int|
                0 <= j < i ==> #[trigger] prepared@[j] == !(entries@[j].existing is Missing),
        decreases entries.len() - i,
    {
        let entry = &entries[i];
        proof {
            if entry_fault(entries@[i as int], i) is Some {
                lemma_entry_fault_stays(entries@, (i + 1) as nat, entries@.len());
            }
        }
        let body = match &entry.body {
            None => {
                return Err(RecoveryError::EntryUnreadable { entry: i });
            },
            Some(body) => body,
        };
        if !entry.authorized {
            return Err(RecoveryError::EntryUnauthorized { entry: i });
        }
        match &entry.existing {
            ExistingProjection::Missing => {
                prepared.push(false);
            },
            ExistingProjection::Unreadable => {
                return Err(RecoveryError::ExistingProjectionUnreadable { entry: i });
            },
            ExistingProjection::Body(existing) => {
                if *existing != *body {
                    return Err(RecoveryError::ProjectionConflict { entry: i });
                }
                prepared.push(true);
            },
        }
        i += 1;
    }
    Ok(prepared)
}

proof fn lemma_entry_fault_stays(entries: Seq<ImportEntry>, count: nat, more: nat)
    requires
        count <= more <= entries.len(),
        first_entry_fault(entries, count) is Some,
    ensures
        first_entry_fault(entries, more) == first_entry_fault(entries, count),
    decreases more,
{
    if count < more {
        lemma_entry_fault_stays(entries, count, (more - 1) as nat);
    }
}

/// Nothing of a bundle is imported unless all of it can be, and no text that the device already
/// holds is ever replaced by another.
pub proof fn import_never_replaces_text(entries: Seq<ImportEntry>, count: nat, at: int)
    requires
        first_entry_fault(entries, count) is None,
        0 <= at < count <= entries.len(),
        entries.len() <= usize::MAX,
    ensures
        entries[at].body is Some,
        entries[at].authorized,
        entries[at].existing matches ExistingProjection::Body(existing) ==> existing@
            == entries[at].body->0@,
    decreases count,
{
    if at < count - 1 {
        import_never_replaces_text(entries, (count - 1) as nat, at);
    }
}

/// What writing one entry did.
#[derive(Clone, Copy, Debug, PartialEq, Eq, Structural)]
pub struct ImportedEntry {
    pub projection_existed: bool,
    pub projection_inserted: bool,
    pub event_inserted: bool,
}

/// The number of texts and of events that an import added.
pub fn import_counts(entries: &[ImportedEntry]) -> (r: (usize, usize))
    ensures
        r.0 == entries@.filter(
            |e: ImportedEntry| !e.projection_existed && e.projection_inserted,
        ).len(),
        r.1 == entries@.filter(|e: ImportedEntry| e.event_inserted).len(),
{
    let ghost new_text = |e: ImportedEntry| !e.projection_existed && e.projection_inserted;
    let ghost new_event = |e: ImportedEntry| e.event_inserted;
    let mut texts: usize = 0;
    let mut events: usize = 0;
    let mut i: usize = 0;
    proof {
        reveal(Seq::filter);
    }
    while i < entries.len()
        invariant
            i <= entries.len(),
            texts <= i,
            events <= i,
            new_text == (|e: ImportedEntry| !e.projection_existed && e.projection_inserted),
            new_event == (|e: ImportedEntry| e.event_inserted),
            texts == entries@.take(i as int).filter(new_text).len(),
            events == entries@.take(i as int).filter(new_event).len(),
        decreases entries.len() - i,
    {
        proof {
            reveal(Seq::filter);
            assert(entries@.take(i + 1).drop_last() == entries@.take(i as int));
        }
        if !entries[i].projection_existed && entries[i].projection_inserted {
            texts += 1;
        }
        if entries[i].event_inserted {
            events += 1;
        }
        i += 1;
    }
    assert(entries@.take(entries@.len() as int) == entries@);
    (texts, events)
}

/// A link is accepted exactly where it is one for this recipient and now, is for the asked
/// conversation, derives the string that the user confirmed, and its range can be represented.
/// The first of these that fails names the error.
pub proof fn accepted_link_meets_every_condition(
    link: SignedHistoryRecoveryLink,
    limits: ProtocolLimits,
    now: u64,
    recipient: DeviceCertificate,
    conversation_id: ConversationId,
    confirmed_sas: Seq<char>,
)
    ensures
        ({
            let fault = acceptance_fault(
                link,
                limits,
                now,
                recipient,
                conversation_id,
                confirmed_sas,
            );
            let same_conversation = link.content.conversation_id == conversation_id;
            let derived = link.derived_sas is Some;
            let confirmed = link.derived_sas->0@ == trimmed(confirmed_sas);
            let representable = link.content.approved_range_start <= usize::MAX
                && link.content.approved_range_end - link.content.approved_range_start <= usize::MAX
                && link.content.page_size <= usize::MAX;
            &&& link.fault_for(limits, now, recipient) is None
                ==> (fault == Some(LinkError::ConversationMismatch) <==> !same_conversation)
            &&& link.fault_for(limits, now, recipient) is None
                ==> (fault == Some(LinkError::SasUnavailable) <==> same_conversation && !derived)
            &&& link.fault_for(limits, now, recipient) is None
                ==> (fault == Some(LinkError::SasMismatch) <==> same_conversation && derived
                && !confirmed)
            &&& link.fault_for(limits, now, recipient) is None
                ==> (fault == Some(LinkError::RangeNotRepresentable) <==> same_conversation
                && derived && confirmed && !representable)
            &&& link.fault_for(limits, now, recipient) is None ==> (fault is None
                <==> same_conversation && derived && confirmed && representable)
            &&& link.fault_for(limits, now, recipient) matches Some(error) ==> fault == Some(error)
        }),
{
}

/// Options are usable exactly where they ask for some events that can be counted, in pages of a
/// size that is allowed, and for some pages, sixty-four at most.
pub proof fn usable_options_meet_every_condition(
    approved_range_start: usize,
    approved_event_count: usize,
    page_size: usize,
    max_pages: usize,
    limits: ProtocolLimits,
)
    ensures
        ({
            let fault = resume_options_fault(
                approved_range_start,
                approved_event_count,
                page_size,
                max_pages,
                limits,
            );
            let some_events = approved_event_count > 0;
            let representable = approved_range_start + approved_event_count <= usize::MAX;
            let some_entries = page_size > 0;
            let page_fits = page_size <= limits.max_history_rewrap_entries;
            let some_pages = max_pages > 0;
            let session_fits = max_pages <= 64;
            &&& fault == Some(RecoveryError::EmptyCount) <==> !some_events
            &&& fault == Some(RecoveryError::RangeOverflow) <==> some_events && !representable
            &&& fault == Some(RecoveryError::EmptyPage) <==> some_events && representable
                && !some_entries
            &&& fault == Some(RecoveryError::PageTooLarge) <==> some_events && representable
                && some_entries && !page_fits
            &&& fault == Some(RecoveryError::NoPages) <==> some_events && representable
                && some_entries && page_fits && !some_pages
            &&& fault == Some(RecoveryError::TooManyPages) <==> some_events && representable
                && some_entries && page_fits && some_pages && !session_fits
            &&& fault is None <==> some_events && representable && some_entries && page_fits
                && some_pages && session_fits
        }),
{
}

/// A source is one to recover from exactly where recipient and source are of the expected
/// account, it is the expected device, it lists the recipient, and the confirmed string is the
/// derived one.
pub proof fn usable_source_meets_every_condition(
    bootstrap: HistoryRecoveryBootstrap,
    recipient: DeviceCertificate,
    expected_account_id: AccountId,
    expected_source_device_id: DeviceId,
    derived_sas: Option<String>,
    confirmed_sas: Seq<char>,
)
    ensures
        ({
            let fault = source_fault(
                bootstrap,
                recipient,
                expected_account_id,
                expected_source_device_id,
                derived_sas,
                confirmed_sas,
            );
            let own_account = expected_account_id == recipient.account_id;
            let same_account = expected_account_id == bootstrap.account_id;
            let same_source = expected_source_device_id == bootstrap.source_device_id;
            let listed = is_first_certificate(bootstrap.account_device_list, recipient);
            let derived = derived_sas is Some;
            let confirmed = derived_sas->0@ == trimmed(confirmed_sas);
            &&& fault == Some(RecoveryError::RecipientOfAnotherAccount) <==> !own_account
            &&& fault == Some(RecoveryError::SourceOfAnotherAccount) <==> own_account
                && !same_account
            &&& fault == Some(RecoveryError::OtherSource) <==> own_account && same_account
                && !same_source
            &&& fault == Some(RecoveryError::RecipientCertificateDiffers) <==> own_account
                && same_account && same_source && !listed
            &&& fault == Some(RecoveryError::SasUnavailable) <==> own_account && same_account
                && same_source && listed && !derived
            &&& fault == Some(RecoveryError::SasMismatch) <==> own_account && same_account
                && same_source && listed && derived && !confirmed
            &&& fault is None <==> own_account && same_account && same_source && listed
                && derived && confirmed
        }),
{
    listing_is_exact(bootstrap.account_device_list, recipient.device_id, recipient);
}

/// A page is fetched exactly where its count is allowed, recipient and source are of the expected
/// account, the source is the expected device if one is expected, it lists the recipient, the
/// confirmed string is the derived one, and the account is a member.
pub proof fn fetch_meets_every_condition(
    count: usize,
    recipient: DeviceCertificate,
    expected_account_id: AccountId,
    expected_source_device_id: Option<DeviceId>,
    source: FetchSource,
    confirmed_sas: Seq<char>,
    limits: ProtocolLimits,
)
    ensures
        ({
            let fault = fetch_fault(
                count,
                recipient,
                expected_account_id,
                expected_source_device_id,
                source,
                confirmed_sas,
                limits,
            );
            let some_events = count > 0;
            let count_fits = count <= limits.max_history_rewrap_entries;
            let own_account = expected_account_id == recipient.account_id;
            let allowed = expected_account_id == source.allowed_requester_account_id;
            let same_source = expected_source_device_id is None
                || expected_source_device_id == Some(
                source.source_device_id,
            );
            let listed = is_first_certificate(source.account_device_list, recipient);
            let derived = source.derived_sas is Some;
            let confirmed = source.derived_sas->0@ == trimmed(confirmed_sas);
            let member = source.is_member;
            &&& fault == Some(RecoveryError::EmptyCount) <==> !some_events
            &&& fault == Some(RecoveryError::CountTooLarge) <==> some_events && !count_fits
            &&& fault == Some(RecoveryError::RecipientOfAnotherAccount) <==> some_events
                && count_fits && !own_account
            &&& fault == Some(RecoveryError::RequesterNotAllowed) <==> some_events && count_fits
                && own_account && !allowed
            &&& fault == Some(RecoveryError::OtherSource) <==> some_events && count_fits
                && own_account && allowed && !same_source
            &&& fault == Some(RecoveryError::RecipientCertificateDiffers) <==> some_events
                && count_fits && own_account && allowed && same_source && !listed
            &&& fault == Some(RecoveryError::SasUnavailable) <==> some_events && count_fits
                && own_account && allowed && same_source && listed && !derived
            &&& fault == Some(RecoveryError::SasMismatch) <==> some_events && count_fits
                && own_account && allowed && same_source && listed && derived && !confirmed
            &&& fault == Some(RecoveryError::NotAMember) <==> some_events && count_fits
                && own_account && allowed && same_source && listed && derived && confirmed
                && !member
            &&& fault is None <==> some_events && count_fits && own_account && allowed
                && same_source && listed && derived && confirmed && member
        }),
{
    listing_is_exact(source.account_device_list, recipient.device_id, recipient);
}

/// A manifest is imported exactly where it is for this conversation, device and account, and
/// lists this device's own certificate.
pub proof fn imported_manifest_meets_every_condition(
    manifest: RewrapManifest,
    conversation_id: ConversationId,
    recipient: DeviceCertificate,
)
    ensures
        ({
            let fault = manifest_fault(manifest, conversation_id, recipient);
            let same_conversation = conversation_id == manifest.conversation_id;
            let same_recipient = recipient.device_id == manifest.recipient_device_id;
            let same_account = recipient.account_id == manifest.account_id;
            let listed = is_first_certificate(manifest.account_device_list, recipient);
            &&& fault == Some(RecoveryError::OtherConversation) <==> !same_conversation
            &&& fault == Some(RecoveryError::OtherRecipient) <==> same_conversation
                && !same_recipient
            &&& fault == Some(RecoveryError::OtherAccount) <==> same_conversation
                && same_recipient && !same_account
            &&& fault == Some(RecoveryError::RecipientCertificateDiffers) <==> same_conversation
                && same_recipient && same_account && !listed
            &&& fault is None <==> same_conversation && same_recipient && same_account && listed
        }),
{
    listing_is_exact(manifest.account_device_list, recipient.device_id, recipient);
}

/// The checkpoint that `rest[at]` follows, where the chain begins with `initial`.
pub open spec fn predecessor(
    initial: RecoveryCheckpoint,
    rest: Seq<RecoveryCheckpoint>,
    at: int,
) -> RecoveryCheckpoint {
    if at == 0 {
        initial
    } else {
        rest[at - 1]
    }
}

/// Checkpoint `at` moves on from the one before it and names it.
pub open spec fn follows(
    initial: RecoveryCheckpoint,
    rest: Seq<RecoveryCheckpoint>,
    at: int,
) -> bool {
    &&& predecessor(initial, rest, at).next_range_start < rest[at].next_range_start
    &&& rest[at].previous_checkpoint_id == Some(predecessor(initial, rest, at).checkpoint_id)
}

/// A chain is accepted exactly where every checkpoint moves on from the one before it and names
/// it. The first that does not names the error: it regresses, or it was forked.
pub proof fn chain_is_accepted_exactly_where_linked(
    initial: RecoveryCheckpoint,
    rest: Seq<RecoveryCheckpoint>,
    at: int,
)
    ensures
        (forall|i: int| 0 <= i < rest.len() ==> #[trigger] follows(initial, rest, i))
            ==> chain_end(initial, rest) is Ok,
        chain_end(initial, rest) is Ok && 0 <= at < rest.len() ==> follows(initial, rest, at),
        0 <= at < rest.len() && !follows(initial, rest, at) && (forall|i: int|
            0 <= i < at ==> #[trigger] follows(initial, rest, i)) ==> chain_end(initial, rest)
            == Err::<RecoveryCheckpoint, RecoveryError>(
            if rest[at].next_range_start <= predecessor(initial, rest, at).next_range_start {
                RecoveryError::CheckpointRegresses
            } else {
                RecoveryError::CheckpointForked
            },
        ),
    decreases rest.len(),
{
    if rest.len() > 0 {
        let tail = rest.drop_first();
        assert forall|i: int| 0 <= i < tail.len() implies #[trigger] follows(rest[0], tail, i)
            == follows(initial, rest, i + 1) by {}
        if follows(initial, rest, 0) {
            chain_is_accepted_exactly_where_linked(rest[0], tail, at - 1);
            if forall|i: int| 0 <= i < rest.len() ==> #[trigger] follows(initial, rest, i) {
                assert forall|i: int| 0 <= i < tail.len() implies #[trigger] follows(
                    rest[0],
                    tail,
                    i,
                ) by {
                    assert(follows(initial, rest, i + 1));
                }
            }
            if 1 <= at < rest.len() {
                assert(follows(rest[0], tail, at - 1) == follows(initial, rest, at));
                if forall|i: int| 0 <= i < at ==> #[trigger] follows(initial, rest, i) {
                    assert forall|i: int| 0 <= i < at - 1 implies #[trigger] follows(
                        rest[0],
                        tail,
                        i,
                    ) by {
                        assert(follows(initial, rest, i + 1));
                    }
                }
            }
        }
    }
}

/// A session asks for no page exactly where its pages are used up or all is there, and otherwise
/// for the next events: a whole page, or all that is left.
pub proof fn session_requests_as_much_as_it_may(session: RecoverySession)
    requires
        session.wf(),
    ensures
        ({
            let checkpoint = session.checkpoint;
            let over = session.pages_completed == session.max_pages || checkpoint.complete;
            &&& session.request() == Ok::<Option<PageRequest>, RecoveryError>(None) <==> over
            &&& session.request() == Err::<Option<PageRequest>, RecoveryError>(
                RecoveryError::RangeNotRepresentable,
            ) <==> !over && checkpoint.approved_range_end > usize::MAX
            &&& session.request() is Err ==> session.request()->Err_0
                == RecoveryError::RangeNotRepresentable
            &&& session.request() matches Ok(Some(page)) ==> {
                &&& page.range_start == checkpoint.next_range_start
                &&& 0 < page.count <= session.page_size
                &&& page.range_start + page.count <= checkpoint.approved_range_end
                &&& page.count == session.page_size || page.range_start + page.count
                    == checkpoint.approved_range_end
            }
        }),
{
}

/// A recovery goes on from the last checkpoint of its own chain: it is over exactly where that one
/// is complete, and connects exactly where it is not and the account is a member, with the asked
/// page size and number of pages and none counted yet.
pub proof fn recovery_goes_on_from_its_last_checkpoint(
    options: ResumeOptions,
    source: Option<RecoveryError>,
    initial: RecoveryCheckpoint,
    stored: Seq<RecoveryCheckpoint>,
    is_member: bool,
    limits: ProtocolLimits,
)
    ensures
        ({
            let own = matching_checkpoints(stored, stored.len(), initial.recovery_id);
            let last = if own.len() == 0 {
                initial
            } else {
                own.last()
            };
            let faultless = resume_options_fault(
                options.approved_range_start,
                options.approved_event_count,
                options.page_size,
                options.max_pages,
                limits,
            ) is None && source is None && chain_end(initial, own) is Ok;
            let found = resumed(options, source, initial, stored, is_member, limits);
            &&& found
                == Ok::<ResumeStart, RecoveryError>(ResumeStart::Complete { checkpoint: last })
                <==> faultless && last.complete
            &&& found matches Ok(ResumeStart::Complete { checkpoint }) ==> checkpoint == last
            &&& found is Ok && found->Ok_0 is Connect <==> faultless && !last.complete && is_member
            &&& found matches Ok(ResumeStart::Connect { session }) ==> {
                &&& session.checkpoint == last
                &&& session.page_size == options.page_size
                &&& session.max_pages == options.max_pages
                &&& session.pages_completed == 0
            }
            &&& faultless && !last.complete && !is_member ==> found == Err::<
                ResumeStart,
                RecoveryError,
            >(RecoveryError::NotAMember)
            &&& source is Some && found is Err && resume_options_fault(
                options.approved_range_start,
                options.approved_event_count,
                options.page_size,
                options.max_pages,
                limits,
            ) is None ==> found == Err::<ResumeStart, RecoveryError>(source->0)
        }),
{
    let own = matching_checkpoints(stored, stored.len(), initial.recovery_id);
    if chain_end(initial, own) is Ok {
        accepted_chain_is_linked(initial, own);
    }
}

/// An entry is imported exactly where it can be read, its event is authorized, and the text that
/// is there already, if any, can be read and is the same.
pub proof fn imported_entry_meets_every_condition(entry: ImportEntry, at: usize)
    ensures
        ({
            let fault = entry_fault(entry, at);
            let readable = entry.body is Some;
            let authorized = entry.authorized;
            let opens = entry.existing !is Unreadable;
            let same = (entry.existing matches ExistingProjection::Body(existing) ==> existing@
                == entry.body->0@);
            &&& fault == Some(
                RecoveryError::EntryUnreadable { entry: at },
            ) <==> !readable
            &&& fault == Some(
                RecoveryError::EntryUnauthorized { entry: at },
            ) <==> readable && !authorized
            &&& fault == Some(
                RecoveryError::ExistingProjectionUnreadable { entry: at },
            ) <==> readable && authorized && !opens
            &&& fault == Some(
                RecoveryError::ProjectionConflict { entry: at },
            ) <==> readable && authorized && opens && !same
            &&& fault is None <==> readable && authorized && opens && same
        }),
{
}

/// The fault of an import is that of its first entry with one, and there is none exactly where no
/// entry has one.
pub proof fn import_fault_is_the_first(entries: Seq<ImportEntry>, count: nat, at: int)
    requires
        count <= entries.len() <= usize::MAX,
        0 <= at < count,
        forall|i: int| 0 <= i < at ==> entry_fault(#[trigger] entries[i], i as usize) is None,
    ensures
        entry_fault(entries[at], at as usize) is Some ==> first_entry_fault(entries, count)
            == entry_fault(entries[at], at as usize),
        entry_fault(entries[at], at as usize) is None && at == count - 1 ==> first_entry_fault(
            entries,
            count,
        ) is None,
    decreases count,
{
    if at < count - 1 {
        import_fault_is_the_first(entries, (count - 1) as nat, at);
    } else if at > 0 {
        import_fault_is_the_first(entries, (count - 1) as nat, at - 1);
    }
}

} // verus!
