//! Delivering one message: what a listener accepts, and which acknowledgement a sender accepts.

use crate::ids::{AccountId, ConversationId, DeviceId, Digest, EventId};
use vstd::prelude::*;

verus! {

/// Why a delivery or an acknowledgement is refused.
#[derive(Clone, Copy, Debug, PartialEq, Eq, Structural)]
pub enum DeliveryError {
    LocalNotAMember,
    PeerNotAMember,
    EventUnverified,
    AuthorOfAnotherAccount,
    AuthorOfAnotherDevice,
    NotAText,
    RecipientListUnavailable,
    RecipientsOfAnotherAccount,
    NoCiphertextForDevice,
    ProjectionUnreadable,
    ReplayWithoutProjection,
    AcknowledgementUnverified,
    AcknowledgedByAnotherAccount,
    AcknowledgedInAnotherConversation,
    AcknowledgedByAnotherDevice,
    NotAnAcknowledgement,
    AcknowledgesAnotherEvent,
    NotCausal,
    UnexpectedReply,
    DirectoryUnverified,
    InconsistentSender,
    NoRecipients,
    ListenerNotInFanout,
    RequesterUnauthorized,
}

/// What an event carries.
#[derive(Clone, Copy, Debug, PartialEq, Eq, Structural)]
pub enum EventKind {
    Text,
    Acknowledgement { acknowledged_event_id: EventId },
}

/// A signed event, as far as decisions read it.
#[derive(Debug)]
pub struct EventFacts {
    pub event_id: EventId,
    pub author_account_id: AccountId,
    pub author_device_id: DeviceId,
    pub conversation_id: ConversationId,
    pub parents: Vec<EventId>,
    pub kind: EventKind,
}

pub(crate) fn holds_account(members: &[AccountId], account: AccountId) -> (r: bool)
    ensures
        r == members@.contains(account),
{
    let mut i: usize = 0;
    while i < members.len()
        invariant
            i <= members.len(),
            forall|j: int| 0 <= j < i ==> members@[j] != account,
        decreases members.len() - i,
    {
        if members[i] == account {
            assert(members@[i as int] == account);
            return true;
        }
        i += 1;
    }
    false
}

/// The first of the two accounts that is not a member.
pub open spec fn participants_fault(
    members: Seq<AccountId>,
    local_account_id: AccountId,
    peer_account_id: AccountId,
) -> Option<DeliveryError> {
    if !members.contains(local_account_id) {
        Some(DeliveryError::LocalNotAMember)
    } else if !members.contains(peer_account_id) {
        Some(DeliveryError::PeerNotAMember)
    } else {
        None
    }
}

/// Tests that both accounts are members of a conversation.
pub fn require_conversation_participants(
    members: &[AccountId],
    local_account_id: AccountId,
    peer_account_id: AccountId,
) -> (r: Result<(), DeliveryError>)
    ensures
        match participants_fault(members@, local_account_id, peer_account_id) {
            None => r is Ok,
            Some(error) => r == Err::<(), DeliveryError>(error),
        },
{
    if !holds_account(members, local_account_id) {
        return Err(DeliveryError::LocalNotAMember);
    }
    if !holds_account(members, peer_account_id) {
        return Err(DeliveryError::PeerNotAMember);
    }
    Ok(())
}

/// A delivery, as far as decisions read it. `event_verified` tells whether the event was
/// verified for the conversation's membership; `recipient_account_id` is the account of the
/// event's recipient device list, and `has_local_ciphertext` tells whether it holds a
/// ciphertext for this device.
#[derive(Debug)]
pub struct Delivery {
    pub event: EventFacts,
    pub event_verified: bool,
    pub recipient_account_id: Option<AccountId>,
    pub has_local_ciphertext: bool,
}

/// The first reason for which a delivery is refused.
pub open spec fn delivery_fault(
    delivery: Delivery,
    members: Seq<AccountId>,
    listener_account_id: AccountId,
    requester_account_id: AccountId,
    requester_device_id: DeviceId,
) -> Option<DeliveryError> {
    match participants_fault(members, listener_account_id, requester_account_id) {
        Some(error) => Some(error),
        None => if !delivery.event_verified {
            Some(DeliveryError::EventUnverified)
        } else if delivery.event.author_account_id != requester_account_id {
            Some(DeliveryError::AuthorOfAnotherAccount)
        } else if delivery.event.author_device_id != requester_device_id {
            Some(DeliveryError::AuthorOfAnotherDevice)
        } else if delivery.event.kind != EventKind::Text {
            Some(DeliveryError::NotAText)
        } else if delivery.recipient_account_id is None {
            Some(DeliveryError::RecipientListUnavailable)
        } else if delivery.recipient_account_id->0 != listener_account_id {
            Some(DeliveryError::RecipientsOfAnotherAccount)
        } else if !delivery.has_local_ciphertext {
            Some(DeliveryError::NoCiphertextForDevice)
        } else {
            None
        },
    }
}

/// `candidate` is this device's acknowledgement of the event, and of nothing else.
pub open spec fn acknowledges(candidate: EventFacts, local_device_id: DeviceId, event_id: EventId) -> bool {
    &&& candidate.author_device_id == local_device_id
    &&& candidate.kind == (EventKind::Acknowledgement { acknowledged_event_id: event_id })
    &&& candidate.parents@ == seq![event_id]
}

fn is_sole_parent(parents: &Vec<EventId>, event_id: EventId) -> (r: bool)
    ensures
        r == (parents@ == seq![event_id]),
{
    if parents.len() != 1 {
        assert(parents@.len() != seq![event_id].len());
        return false;
    }
    let same = parents[0] == event_id;
    if same {
        assert(parents@ =~= seq![event_id]);
    } else {
        assert(parents@[0] != seq![event_id][0]);
    }
    same
}

/// The place of the first stored acknowledgement of an event by this device.
pub open spec fn stored_acknowledgement(
    stored: Seq<EventFacts>,
    count: nat,
    local_device_id: DeviceId,
    event_id: EventId,
) -> Option<usize>
    decreases count,
{
    if count == 0 {
        None
    } else {
        match stored_acknowledgement(stored, (count - 1) as nat, local_device_id, event_id) {
            Some(at) => Some(at),
            None => if acknowledges(stored[count - 1], local_device_id, event_id) {
                Some((count - 1) as usize)
            } else {
                None
            },
        }
    }
}

fn find_acknowledgement(
    stored: &Vec<EventFacts>,
    local_device_id: DeviceId,
    event_id: EventId,
) -> (r: Option<usize>)
    ensures
        r == stored_acknowledgement(stored@, stored@.len(), local_device_id, event_id),
        r matches Some(at) ==> at < stored@.len(),
{
    let mut found: Option<usize> = None;
    let mut i: usize = 0;
    while i < stored.len()
        invariant
            i <= stored.len(),
            found == stored_acknowledgement(stored@, i as nat, local_device_id, event_id),
            found matches Some(at) ==> at < stored.len(),
        decreases stored.len() - i,
    {
        let candidate = &stored[i];
        let matches_event = candidate.author_device_id == local_device_id && (
        match candidate.kind {
            EventKind::Acknowledgement { acknowledged_event_id } => acknowledged_event_id
                == event_id,
            EventKind::Text => false,
        }) && is_sole_parent(&candidate.parents, event_id);
        assert(matches_event == acknowledges(stored@[i as int], local_device_id, event_id));
        if found.is_none() && matches_event {
            found = Some(i);
        }
        i += 1;
    }
    found
}

/// What the local store holds of a text.
#[derive(Clone, Copy, Debug, PartialEq, Eq, Structural)]
pub enum StoredText {
    Missing,
    Readable,
    Unreadable,
}

/// What a listener does with a delivery that it accepts: answer a replay with the
/// acknowledgement it made before, or store the event and acknowledge it, decrypting its text
/// where the text is not there yet.
#[derive(Clone, Copy, Debug, PartialEq, Eq, Structural)]
pub enum DeliveryPlan {
    Replay { acknowledgement: usize },
    Store { decrypt: bool },
}

/// What a listener does with a delivery.
pub open spec fn delivery_plan(
    delivery: Delivery,
    members: Seq<AccountId>,
    listener_account_id: AccountId,
    local_device_id: DeviceId,
    requester_account_id: AccountId,
    requester_device_id: DeviceId,
    stored: Seq<EventFacts>,
    text: StoredText,
) -> Result<DeliveryPlan, DeliveryError> {
    match delivery_fault(
        delivery,
        members,
        listener_account_id,
        requester_account_id,
        requester_device_id,
    ) {
        Some(error) => Err(error),
        None => match (
            stored_acknowledgement(stored, stored.len(), local_device_id, delivery.event.event_id),
            text,
        ) {
            (_, StoredText::Unreadable) => Err(DeliveryError::ProjectionUnreadable),
            (Some(acknowledgement), StoredText::Readable) => Ok(
                DeliveryPlan::Replay { acknowledgement },
            ),
            (Some(_), StoredText::Missing) => Err(DeliveryError::ReplayWithoutProjection),
            (None, StoredText::Readable) => Ok(DeliveryPlan::Store { decrypt: false }),
            (None, StoredText::Missing) => Ok(DeliveryPlan::Store { decrypt: true }),
        },
    }
}

/// Decides what a listener does with a delivery.
pub fn handle_delivery_request(
    delivery: &Delivery,
    members: &[AccountId],
    listener_account_id: AccountId,
    local_device_id: DeviceId,
    requester_account_id: AccountId,
    requester_device_id: DeviceId,
    stored: &Vec<EventFacts>,
    text: StoredText,
) -> (r: Result<DeliveryPlan, DeliveryError>)
    ensures
        r == delivery_plan(
            *delivery,
            members@,
            listener_account_id,
            local_device_id,
            requester_account_id,
            requester_device_id,
            stored@,
            text,
        ),
{
    if let Err(error) = require_conversation_participants(
        members,
        listener_account_id,
        requester_account_id,
    ) {
        return Err(error);
    }
    if !delivery.event_verified {
        return Err(DeliveryError::EventUnverified);
    }
    if delivery.event.author_account_id != requester_account_id {
        return Err(DeliveryError::AuthorOfAnotherAccount);
    }
    if delivery.event.author_device_id != requester_device_id {
        return Err(DeliveryError::AuthorOfAnotherDevice);
    }
    if delivery.event.kind != EventKind::Text {
        return Err(DeliveryError::NotAText);
    }
    match delivery.recipient_account_id {
        None => {
            return Err(DeliveryError::RecipientListUnavailable);
        },
        Some(recipient_account_id) => {
            if recipient_account_id != listener_account_id {
                return Err(DeliveryError::RecipientsOfAnotherAccount);
            }
        },
    }
    if !delivery.has_local_ciphertext {
        return Err(DeliveryError::NoCiphertextForDevice);
    }
    let existing = find_acknowledgement(stored, local_device_id, delivery.event.event_id);
    match (existing, text) {
        (_, StoredText::Unreadable) => Err(DeliveryError::ProjectionUnreadable),
        (Some(acknowledgement), StoredText::Readable) => Ok(
            DeliveryPlan::Replay { acknowledgement },
        ),
        (Some(_), StoredText::Missing) => Err(DeliveryError::ReplayWithoutProjection),
        (None, StoredText::Readable) => Ok(DeliveryPlan::Store { decrypt: false }),
        (None, StoredText::Missing) => Ok(DeliveryPlan::Store { decrypt: true }),
    }
}

/// A second delivery of an event that this device has acknowledged and whose text it holds is
/// answered with that very acknowledgement: nothing is stored, decrypted or signed again.
pub proof fn replayed_delivery_changes_nothing(
    delivery: Delivery,
    members: Seq<AccountId>,
    listener_account_id: AccountId,
    local_device_id: DeviceId,
    requester_account_id: AccountId,
    requester_device_id: DeviceId,
    stored: Seq<EventFacts>,
    at: int,
)
    requires
        delivery_fault(
            delivery,
            members,
            listener_account_id,
            requester_account_id,
            requester_device_id,
        ) is None,
        0 <= at < stored.len(),
        stored.len() <= usize::MAX,
        acknowledges(stored[at], local_device_id, delivery.event.event_id),
    ensures
        delivery_plan(
            delivery,
            members,
            listener_account_id,
            local_device_id,
            requester_account_id,
            requester_device_id,
            stored,
            StoredText::Readable,
        ) matches Ok(DeliveryPlan::Replay { acknowledgement }) && acknowledgement < stored.len()
            && acknowledges(
            stored[acknowledgement as int],
            local_device_id,
            delivery.event.event_id,
        ),
{
    lemma_stored_acknowledgement(
        stored,
        stored.len(),
        local_device_id,
        delivery.event.event_id,
        at,
    );
}

proof fn lemma_stored_acknowledgement(
    stored: Seq<EventFacts>,
    count: nat,
    local_device_id: DeviceId,
    event_id: EventId,
    at: int,
)
    requires
        0 <= at < count <= stored.len(),
        stored.len() <= usize::MAX,
        acknowledges(stored[at], local_device_id, event_id),
    ensures
        stored_acknowledgement(stored, count, local_device_id, event_id) matches Some(found)
            && found < count && acknowledges(stored[found as int], local_device_id, event_id),
    decreases count,
{
    if at < count - 1 {
        lemma_stored_acknowledgement(
            stored,
            (count - 1) as nat,
            local_device_id,
            event_id,
            at,
        );
    } else {
        lemma_found_acknowledges(stored, (count - 1) as nat, local_device_id, event_id);
    }
}

proof fn lemma_found_acknowledges(
    stored: Seq<EventFacts>,
    count: nat,
    local_device_id: DeviceId,
    event_id: EventId,
)
    requires
        count <= stored.len() <= usize::MAX,
    ensures
        stored_acknowledgement(stored, count, local_device_id, event_id) matches Some(found)
            ==> found < count && acknowledges(stored[found as int], local_device_id, event_id),
    decreases count,
{
    if count > 0 {
        lemma_found_acknowledges(stored, (count - 1) as nat, local_device_id, event_id);
    }
}

/// What a sender expects of an acknowledgement.
#[derive(Clone, Copy, Debug, PartialEq, Eq, Structural)]
pub struct ExpectedAcknowledgement {
    pub account_id: AccountId,
    pub device_id: DeviceId,
    pub conversation_id: ConversationId,
    pub event_id: EventId,
}

/// An acknowledgement of exactly the event that was sent, by the device it was sent to.
pub open spec fn acknowledgement_fits(
    acknowledgement: EventFacts,
    verified: bool,
    expected: ExpectedAcknowledgement,
) -> bool {
    &&& verified
    &&& acknowledgement.author_account_id == expected.account_id
    &&& acknowledgement.author_device_id == expected.device_id
    &&& acknowledgement.conversation_id == expected.conversation_id
    &&& acknowledgement.kind == (EventKind::Acknowledgement {
        acknowledged_event_id: expected.event_id,
    })
    &&& acknowledgement.parents@ == seq![expected.event_id]
}

/// The first reason for which the sender of a message refuses an answer.
pub open spec fn connect_acknowledgement_fault(
    acknowledgement: Option<EventFacts>,
    verified: bool,
    expected: ExpectedAcknowledgement,
) -> Option<DeliveryError> {
    match acknowledgement {
        None => Some(DeliveryError::UnexpectedReply),
        Some(a) => if !verified {
            Some(DeliveryError::AcknowledgementUnverified)
        } else if a.author_account_id != expected.account_id {
            Some(DeliveryError::AcknowledgedByAnotherAccount)
        } else if a.conversation_id != expected.conversation_id {
            Some(DeliveryError::AcknowledgedInAnotherConversation)
        } else if a.author_device_id != expected.device_id {
            Some(DeliveryError::AcknowledgedByAnotherDevice)
        } else if a.kind is Text {
            Some(DeliveryError::NotAnAcknowledgement)
        } else if a.kind->acknowledged_event_id != expected.event_id {
            Some(DeliveryError::AcknowledgesAnotherEvent)
        } else if a.parents@ != seq![expected.event_id] {
            Some(DeliveryError::NotCausal)
        } else {
            None
        },
    }
}

/// Tests the answer to a message that was sent directly. The acknowledgement is `None` where
/// the listener answered with something else, and `verified` tells whether it was verified for
/// the conversation's membership.
pub fn check_connect_acknowledgement(
    acknowledgement: Option<&EventFacts>,
    verified: bool,
    expected: ExpectedAcknowledgement,
) -> (r: Result<(), DeliveryError>)
    ensures
        match connect_acknowledgement_fault(
            match acknowledgement {
                Some(a) => Some(*a),
                None => None,
            },
            verified,
            expected,
        ) {
            None => r is Ok,
            Some(error) => r == Err::<(), DeliveryError>(error),
        },
        r is Ok <==> (acknowledgement matches Some(a) && acknowledgement_fits(
            *a,
            verified,
            expected,
        )),
{
    let a = match acknowledgement {
        None => {
            return Err(DeliveryError::UnexpectedReply);
        },
        Some(a) => a,
    };
    if !verified {
        return Err(DeliveryError::AcknowledgementUnverified);
    }
    if a.author_account_id != expected.account_id {
        return Err(DeliveryError::AcknowledgedByAnotherAccount);
    }
    if a.conversation_id != expected.conversation_id {
        return Err(DeliveryError::AcknowledgedInAnotherConversation);
    }
    if a.author_device_id != expected.device_id {
        return Err(DeliveryError::AcknowledgedByAnotherDevice);
    }
    match a.kind {
        EventKind::Text => {
            return Err(DeliveryError::NotAnAcknowledgement);
        },
        EventKind::Acknowledgement { acknowledged_event_id } => {
            if acknowledged_event_id != expected.event_id {
                return Err(DeliveryError::AcknowledgesAnotherEvent);
            }
        },
    }
    if !is_sole_parent(&a.parents, expected.event_id) {
        return Err(DeliveryError::NotCausal);
    }
    Ok(())
}

/// The first reason for which the runtime refuses an answer.
pub open spec fn runtime_acknowledgement_fault(
    acknowledgement: Option<EventFacts>,
    verified: bool,
    expected: ExpectedAcknowledgement,
) -> Option<DeliveryError> {
    match acknowledgement {
        None => Some(DeliveryError::UnexpectedReply),
        Some(a) => if !verified {
            Some(DeliveryError::AcknowledgementUnverified)
        } else if a.author_account_id != expected.account_id {
            Some(DeliveryError::AcknowledgedByAnotherAccount)
        } else if a.author_device_id != expected.device_id {
            Some(DeliveryError::AcknowledgedByAnotherDevice)
        } else if a.conversation_id != expected.conversation_id {
            Some(DeliveryError::AcknowledgedInAnotherConversation)
        } else if !(a.kind == (EventKind::Acknowledgement {
            acknowledged_event_id: expected.event_id,
        }) && a.parents@ == seq![expected.event_id]) {
            Some(DeliveryError::NotCausal)
        } else {
            None
        },
    }
}

/// Tests the answer to a message that the runtime sent from its outbox.
pub fn send_runtime_delivery(
    acknowledgement: Option<&EventFacts>,
    verified: bool,
    expected: ExpectedAcknowledgement,
) -> (r: Result<(), DeliveryError>)
    ensures
        match runtime_acknowledgement_fault(
            match acknowledgement {
                Some(a) => Some(*a),
                None => None,
            },
            verified,
            expected,
        ) {
            None => r is Ok,
            Some(error) => r == Err::<(), DeliveryError>(error),
        },
        r is Ok <==> (acknowledgement matches Some(a) && acknowledgement_fits(
            *a,
            verified,
            expected,
        )),
{
    let a = match acknowledgement {
        None => {
            return Err(DeliveryError::UnexpectedReply);
        },
        Some(a) => a,
    };
    if !verified {
        return Err(DeliveryError::AcknowledgementUnverified);
    }
    if a.author_account_id != expected.account_id {
        return Err(DeliveryError::AcknowledgedByAnotherAccount);
    }
    if a.author_device_id != expected.device_id {
        return Err(DeliveryError::AcknowledgedByAnotherDevice);
    }
    if a.conversation_id != expected.conversation_id {
        return Err(DeliveryError::AcknowledgedInAnotherConversation);
    }
    let acknowledged = match a.kind {
        EventKind::Text => false,
        EventKind::Acknowledgement { acknowledged_event_id } => acknowledged_event_id
            == expected.event_id,
    };
    if !(acknowledged && is_sole_parent(&a.parents, expected.event_id)) {
        return Err(DeliveryError::NotCausal);
    }
    Ok(())
}

/// The acknowledgement that a listener makes of a delivery is one that the sender accepts, both
/// when it sent the message directly and when the runtime did.
pub proof fn listener_acknowledgement_satisfies_sender(
    delivery: Delivery,
    acknowledgement: EventFacts,
    listener_account_id: AccountId,
    listener_device_id: DeviceId,
)
    requires
        acknowledges(acknowledgement, listener_device_id, delivery.event.event_id),
        acknowledgement.author_account_id == listener_account_id,
        acknowledgement.conversation_id == delivery.event.conversation_id,
    ensures
        ({
            let expected = ExpectedAcknowledgement {
                account_id: listener_account_id,
                device_id: listener_device_id,
                conversation_id: delivery.event.conversation_id,
                event_id: delivery.event.event_id,
            };
            &&& acknowledgement_fits(acknowledgement, true, expected)
            &&& connect_acknowledgement_fault(Some(acknowledgement), true, expected) is None
            &&& runtime_acknowledgement_fault(Some(acknowledgement), true, expected) is None
        }),
{
}

/// The sender identity of a fan-out: the one that every recipient's ciphertext was made with.
pub open spec fn fanout_sender(directory_verified: bool, identities: Seq<Digest>) -> Result<
    Digest,
    DeliveryError,
> {
    if !directory_verified {
        Err(DeliveryError::DirectoryUnverified)
    } else if exists|i: int| 0 <= i < identities.len() && #[trigger] identities[i] != identities[0] {
        Err(DeliveryError::InconsistentSender)
    } else if identities.len() == 0 {
        Err(DeliveryError::NoRecipients)
    } else {
        Ok(identities[0])
    }
}

/// The sender identity of a fan-out, given the digest of the identity that each recipient's
/// ciphertext was made with.
pub fn encrypt_ratchet_fanout(directory_verified: bool, identities: &[Digest]) -> (r: Result<
    Digest,
    DeliveryError,
>)
    ensures
        r == fanout_sender(directory_verified, identities@),
{
    if !directory_verified {
        return Err(DeliveryError::DirectoryUnverified);
    }
    let mut i: usize = 0;
    while i < identities.len()
        invariant
            i <= identities.len(),
            directory_verified,
            forall|j: int| 0 <= j < i ==> #[trigger] identities@[j] == identities@[0],
        decreases identities.len() - i,
    {
        if identities[i] != identities[0] {
            return Err(DeliveryError::InconsistentSender);
        }
        i += 1;
    }
    if identities.len() == 0 {
        return Err(DeliveryError::NoRecipients);
    }
    Ok(identities[0])
}

/// The place of the connected listener among the recipients of a fan-out.
pub fn listener_in_fanout(recipients: &[DeviceId], listener_device_id: DeviceId) -> (r: Result<
    usize,
    DeliveryError,
>)
    ensures
        match r {
            Ok(at) => {
                &&& at < recipients@.len()
                &&& recipients@[at as int] == listener_device_id
                &&& forall|j: int| 0 <= j < at ==> #[trigger] recipients@[j] != listener_device_id
            },
            Err(error) => {
                &&& error == DeliveryError::ListenerNotInFanout
                &&& !recipients@.contains(listener_device_id)
            },
        },
{
    let mut i: usize = 0;
    while i < recipients.len()
        invariant
            i <= recipients.len(),
            forall|j: int| 0 <= j < i ==> #[trigger] recipients@[j] != listener_device_id,
        decreases recipients.len() - i,
    {
        if recipients[i] == listener_device_id {
            return Ok(i);
        }
        i += 1;
    }
    Err(DeliveryError::ListenerNotInFanout)
}

/// What sending one message directly is doing, after the listener authorized this device.
#[derive(Clone, Copy, Debug, PartialEq, Eq, Structural)]
pub enum SendPhase {
    /// Allocate a sequence, encrypt for every device of the listener's account, sign, and
    /// store the text and the event.
    Storing,
    /// Send the stored event.
    Sending,
    /// Find the listener among the recipients.
    FindingListener,
    /// Read the answer.
    AwaitingAcknowledgement,
    /// Store the acknowledgement.
    StoringAcknowledgement,
    /// The message is stored, sent and acknowledged.
    Acknowledged,
    /// Something failed.
    Failed { error: DeliveryError },
    /// Something outside failed.
    Broken,
}

/// What happened while sending one message.
#[derive(Debug)]
pub enum SendEvent {
    EventStored { event_id: EventId },
    EventSent,
    RecipientsListed { recipients: Vec<DeviceId> },
    Answered { acknowledgement: Option<EventFacts>, verified: bool },
    AcknowledgementStored,
    OutsideFailure,
}

/// A message on its way to a listener.
#[derive(Clone, Copy, Debug, PartialEq, Eq, Structural)]
pub struct OutgoingMessage {
    pub listener_account_id: AccountId,
    pub listener_device_id: DeviceId,
    pub conversation_id: ConversationId,
    pub event_id: Option<EventId>,
    pub phase: SendPhase,
}

impl OutgoingMessage {
    /// The acknowledgement that the message waits for.
    pub open spec fn expected(self) -> ExpectedAcknowledgement {
        ExpectedAcknowledgement {
            account_id: self.listener_account_id,
            device_id: self.listener_device_id,
            conversation_id: self.conversation_id,
            event_id: self.event_id->0,
        }
    }

    /// A message that was sent was stored before.
    pub open spec fn wf(self) -> bool {
        match self.phase {
            SendPhase::Storing => self.event_id is None,
            SendPhase::Sending
            | SendPhase::FindingListener
            | SendPhase::AwaitingAcknowledgement
            | SendPhase::StoringAcknowledgement
            | SendPhase::Acknowledged => self.event_id is Some,
            SendPhase::Failed { .. } | SendPhase::Broken => true,
        }
    }

    /// The same message in another phase.
    pub open spec fn at(self, phase: SendPhase) -> OutgoingMessage {
        OutgoingMessage { phase, ..self }
    }

    /// What follows an event.
    pub open spec fn next(self, event: SendEvent) -> OutgoingMessage {
        match (self.phase, event) {
            (SendPhase::Acknowledged, _) => self,
            (SendPhase::Failed { .. }, _) => self,
            (SendPhase::Broken, _) => self,
            (SendPhase::Storing, SendEvent::EventStored { event_id }) => OutgoingMessage {
                event_id: Some(event_id),
                phase: SendPhase::Sending,
                ..self
            },
            (SendPhase::Sending, SendEvent::EventSent) => self.at(SendPhase::FindingListener),
            (SendPhase::FindingListener, SendEvent::RecipientsListed { recipients }) => if
            recipients@.contains(self.listener_device_id) {
                self.at(SendPhase::AwaitingAcknowledgement)
            } else {
                self.at(SendPhase::Failed { error: DeliveryError::ListenerNotInFanout })
            },
            (
                SendPhase::AwaitingAcknowledgement,
                SendEvent::Answered { acknowledgement, verified },
            ) => match connect_acknowledgement_fault(acknowledgement, verified, self.expected()) {
                None => self.at(SendPhase::StoringAcknowledgement),
                Some(error) => self.at(SendPhase::Failed { error }),
            },
            (SendPhase::StoringAcknowledgement, SendEvent::AcknowledgementStored) => self.at(
                SendPhase::Acknowledged,
            ),
            _ => self.at(SendPhase::Broken),
        }
    }

    /// A message that nothing was done for yet.
    pub fn start(
        listener_account_id: AccountId,
        listener_device_id: DeviceId,
        conversation_id: ConversationId,
    ) -> (r: OutgoingMessage)
        ensures
            r.wf(),
            r == (OutgoingMessage {
                listener_account_id,
                listener_device_id,
                conversation_id,
                event_id: None,
                phase: SendPhase::Storing,
            }),
    {
        OutgoingMessage {
            listener_account_id,
            listener_device_id,
            conversation_id,
            event_id: None,
            phase: SendPhase::Storing,
        }
    }

    /// Takes an event.
    pub fn connect(&mut self, event: &SendEvent)
        requires
            old(self).wf(),
        ensures
            final(self).wf(),
            *final(self) == old(self).next(*event),
    {
        match (self.phase, event) {
            (SendPhase::Acknowledged, _) => {},
            (SendPhase::Failed { .. }, _) => {},
            (SendPhase::Broken, _) => {},
            (SendPhase::Storing, SendEvent::EventStored { event_id }) => {
                self.event_id = Some(*event_id);
                self.phase = SendPhase::Sending;
            },
            (SendPhase::Sending, SendEvent::EventSent) => {
                self.phase = SendPhase::FindingListener;
            },
            (SendPhase::FindingListener, SendEvent::RecipientsListed { recipients }) => {
                match listener_in_fanout(recipients.as_slice(), self.listener_device_id) {
                    Ok(at) => {
                        assert(recipients@[at as int] == self.listener_device_id);
                        self.phase = SendPhase::AwaitingAcknowledgement;
                    },
                    Err(error) => {
                        self.phase = SendPhase::Failed { error };
                    },
                }
            },
            (
                SendPhase::AwaitingAcknowledgement,
                SendEvent::Answered { acknowledgement, verified },
            ) => {
                if let Some(event_id) = self.event_id {
                    let expected = ExpectedAcknowledgement {
                        account_id: self.listener_account_id,
                        device_id: self.listener_device_id,
                        conversation_id: self.conversation_id,
                        event_id,
                    };
                    match check_connect_acknowledgement(
                        acknowledgement.as_ref(),
                        *verified,
                        expected,
                    ) {
                        Ok(()) => {
                            self.phase = SendPhase::StoringAcknowledgement;
                        },
                        Err(error) => {
                            self.phase = SendPhase::Failed { error };
                        },
                    }
                }
            },
            (SendPhase::StoringAcknowledgement, SendEvent::AcknowledgementStored) => {
                self.phase = SendPhase::Acknowledged;
            },
            _ => {
                self.phase = SendPhase::Broken;
            },
        }
    }
}

/// A message is sent only after its event was stored, and an acknowledgement is stored only
/// where it is the listener's own, of exactly that event.
pub proof fn message_is_stored_before_it_is_sent(message: OutgoingMessage, event: SendEvent)
    requires
        message.wf(),
        message.next(event).phase != message.phase,
    ensures
        message.next(event).wf(),
        message.next(event).phase == SendPhase::Sending ==> (event matches SendEvent::EventStored {
            event_id,
        } && message.next(event).event_id == Some(event_id)),
        message.next(event).phase == SendPhase::StoringAcknowledgement ==> (
        event matches SendEvent::Answered { acknowledgement: Some(a), verified }
            && acknowledgement_fits(a, verified, message.expected())),
        message.event_id is Some ==> message.next(event).event_id == message.event_id,
{
}

/// Two accounts take part in a conversation exactly where both are members; the first that is
/// not names the error.
pub proof fn participants_are_members(
    members: Seq<AccountId>,
    local_account_id: AccountId,
    peer_account_id: AccountId,
)
    ensures
        ({
            let fault = participants_fault(members, local_account_id, peer_account_id);
            let local_is_member = members.contains(local_account_id);
            let peer_is_member = members.contains(peer_account_id);
            &&& fault == Some(DeliveryError::LocalNotAMember) <==> !local_is_member
            &&& fault == Some(DeliveryError::PeerNotAMember) <==> local_is_member && !peer_is_member
            &&& fault is None <==> local_is_member && peer_is_member
        }),
{
}

/// A delivery is accepted exactly where both accounts are members, the event is a verified text
/// of the requester's own account and device, and it is encrypted to the listener's account and
/// to this device. The first of these that fails names the error.
pub proof fn accepted_delivery_meets_every_condition(
    delivery: Delivery,
    members: Seq<AccountId>,
    listener_account_id: AccountId,
    requester_account_id: AccountId,
    requester_device_id: DeviceId,
)
    ensures
        ({
            let fault = delivery_fault(
                delivery,
                members,
                listener_account_id,
                requester_account_id,
                requester_device_id,
            );
            let listener_is_member = members.contains(listener_account_id);
            let requester_is_member = members.contains(requester_account_id);
            let verified = delivery.event_verified;
            let own_account = requester_account_id == delivery.event.author_account_id;
            let own_device = requester_device_id == delivery.event.author_device_id;
            let text = delivery.event.kind is Text;
            let listed = delivery.recipient_account_id is Some;
            let for_listener = delivery.recipient_account_id == Some(listener_account_id);
            let readable = delivery.has_local_ciphertext;
            &&& fault == Some(DeliveryError::LocalNotAMember) <==> !listener_is_member
            &&& fault == Some(DeliveryError::PeerNotAMember) <==> listener_is_member
                && !requester_is_member
            &&& fault == Some(DeliveryError::EventUnverified) <==> listener_is_member
                && requester_is_member && !verified
            &&& fault == Some(DeliveryError::AuthorOfAnotherAccount) <==> listener_is_member
                && requester_is_member && verified && !own_account
            &&& fault == Some(DeliveryError::AuthorOfAnotherDevice) <==> listener_is_member
                && requester_is_member && verified && own_account && !own_device
            &&& fault == Some(DeliveryError::NotAText) <==> listener_is_member
                && requester_is_member && verified && own_account && own_device && !text
            &&& fault == Some(DeliveryError::RecipientListUnavailable) <==> listener_is_member
                && requester_is_member && verified && own_account && own_device && text && !listed
            &&& fault == Some(DeliveryError::RecipientsOfAnotherAccount) <==> listener_is_member
                && requester_is_member && verified && own_account && own_device && text
                && listed && !for_listener
            &&& fault == Some(DeliveryError::NoCiphertextForDevice) <==> listener_is_member
                && requester_is_member && verified && own_account && own_device && text
                && listed && for_listener && !readable
            &&& fault is None <==> listener_is_member && requester_is_member && verified
                && own_account && own_device && text && listed && for_listener && readable
        }),
{
}

/// An event acknowledges another exactly where this device wrote it, it names that event, and
/// that event is its one parent.
pub proof fn acknowledgement_names_one_event(
    candidate: EventFacts,
    local_device_id: DeviceId,
    event_id: EventId,
)
    ensures
        acknowledges(candidate, local_device_id, event_id) <==> {
            &&& candidate.author_device_id == local_device_id
            &&& candidate.kind is Acknowledgement
            &&& candidate.kind->acknowledged_event_id == event_id
            &&& candidate.parents@.len() == 1
            &&& candidate.parents@[0] == event_id
        },
{
    if candidate.parents@.len() == 1 && candidate.parents@[0] == event_id {
        assert(candidate.parents@ =~= seq![event_id]);
    }
}

/// The acknowledgement that is found is the first stored one of the event by this device, and
/// none is found exactly where none is stored.
pub proof fn found_acknowledgement_is_the_first(
    stored: Seq<EventFacts>,
    count: nat,
    local_device_id: DeviceId,
    event_id: EventId,
)
    requires
        count <= stored.len() <= usize::MAX,
    ensures
        match stored_acknowledgement(stored, count, local_device_id, event_id) {
            None => forall|i: int|
                0 <= i < count ==> !acknowledges(#[trigger] stored[i], local_device_id, event_id),
            Some(at) => {
                &&& at < count
                &&& acknowledges(stored[at as int], local_device_id, event_id)
                &&& forall|i: int|
                    0 <= i < at ==> !acknowledges(#[trigger] stored[i], local_device_id, event_id)
            },
        },
    decreases count,
{
    if count > 0 {
        found_acknowledgement_is_the_first(
            stored,
            (count - 1) as nat,
            local_device_id,
            event_id,
        );
    }
}

/// This device has stored an acknowledgement of the event.
pub open spec fn was_acknowledged(
    stored: Seq<EventFacts>,
    local_device_id: DeviceId,
    event_id: EventId,
) -> bool {
    exists|i: int|
        0 <= i < stored.len() && acknowledges(#[trigger] stored[i], local_device_id, event_id)
}

/// An accepted delivery is replayed exactly where this device acknowledged it before and can read
/// its text, and stored exactly where it did not; its text is decrypted exactly where it is
/// missing. A refused delivery is answered with its fault.
pub proof fn delivery_is_stored_once(
    delivery: Delivery,
    members: Seq<AccountId>,
    listener_account_id: AccountId,
    local_device_id: DeviceId,
    requester_account_id: AccountId,
    requester_device_id: DeviceId,
    stored: Seq<EventFacts>,
    text: StoredText,
)
    requires
        stored.len() <= usize::MAX,
    ensures
        ({
            let fault = delivery_fault(
                delivery,
                members,
                listener_account_id,
                requester_account_id,
                requester_device_id,
            );
            let plan = delivery_plan(
                delivery,
                members,
                listener_account_id,
                local_device_id,
                requester_account_id,
                requester_device_id,
                stored,
                text,
            );
            let known = was_acknowledged(stored, local_device_id, delivery.event.event_id);
            &&& fault matches Some(error) ==> plan == Err::<DeliveryPlan, DeliveryError>(error)
            &&& plan is Ok && plan->Ok_0 is Replay <==> fault is None && known && text
                == StoredText::Readable
            &&& plan matches Ok(DeliveryPlan::Replay { acknowledgement }) ==> acknowledgement
                < stored.len() && acknowledges(
                stored[acknowledgement as int],
                local_device_id,
                delivery.event.event_id,
            )
            &&& plan == Ok::<DeliveryPlan, DeliveryError>(DeliveryPlan::Store { decrypt: true })
                <==> fault is None && !known && text == StoredText::Missing
            &&& plan == Ok::<DeliveryPlan, DeliveryError>(DeliveryPlan::Store { decrypt: false })
                <==> fault is None && !known && text == StoredText::Readable
            &&& plan == Err::<DeliveryPlan, DeliveryError>(DeliveryError::ProjectionUnreadable)
                <==> fault is None && text == StoredText::Unreadable
            &&& plan == Err::<DeliveryPlan, DeliveryError>(DeliveryError::ReplayWithoutProjection)
                <==> fault is None && known && text == StoredText::Missing
        }),
{
    found_acknowledgement_is_the_first(
        stored,
        stored.len(),
        local_device_id,
        delivery.event.event_id,
    );
}

/// A sender takes an acknowledgement exactly where it was verified, comes from the expected
/// account and device, stands in the conversation, and is of the event that was sent, its one
/// parent. The first of these that fails names the error.
pub proof fn accepted_acknowledgement_meets_every_condition(
    a: EventFacts,
    verified: bool,
    expected: ExpectedAcknowledgement,
)
    ensures
        connect_acknowledgement_fault(None, verified, expected) == Some(
            DeliveryError::UnexpectedReply,
        ),
        ({
            let fault = connect_acknowledgement_fault(Some(a), verified, expected);
            let signed = verified;
            let by_account = expected.account_id == a.author_account_id;
            let in_conversation = expected.conversation_id == a.conversation_id;
            let by_device = expected.device_id == a.author_device_id;
            let acknowledgement = a.kind is Acknowledgement;
            let of_event = a.kind->acknowledged_event_id == expected.event_id;
            let causal = a.parents@.len() == 1 && a.parents@[0] == expected.event_id;
            &&& fault == Some(DeliveryError::AcknowledgementUnverified) <==> !signed
            &&& fault == Some(DeliveryError::AcknowledgedByAnotherAccount) <==> signed
                && !by_account
            &&& fault == Some(DeliveryError::AcknowledgedInAnotherConversation) <==> signed
                && by_account && !in_conversation
            &&& fault == Some(DeliveryError::AcknowledgedByAnotherDevice) <==> signed
                && by_account && in_conversation && !by_device
            &&& fault == Some(DeliveryError::NotAnAcknowledgement) <==> signed && by_account
                && in_conversation && by_device && !acknowledgement
            &&& fault == Some(DeliveryError::AcknowledgesAnotherEvent) <==> signed && by_account
                && in_conversation && by_device && acknowledgement && !of_event
            &&& fault == Some(DeliveryError::NotCausal) <==> signed && by_account
                && in_conversation && by_device && acknowledgement && of_event && !causal
            &&& fault is None <==> signed && by_account && in_conversation && by_device
                && acknowledgement && of_event && causal
            &&& acknowledgement_fits(a, verified, expected) <==> fault is None
        }),
{
    if a.parents@.len() == 1 && a.parents@[0] == expected.event_id {
        assert(a.parents@ =~= seq![expected.event_id]);
    }
}

/// The runtime takes an acknowledgement under the same conditions, which it tests in its own
/// order.
pub proof fn runtime_acknowledgement_meets_every_condition(
    a: EventFacts,
    verified: bool,
    expected: ExpectedAcknowledgement,
)
    ensures
        runtime_acknowledgement_fault(None, verified, expected) == Some(
            DeliveryError::UnexpectedReply,
        ),
        ({
            let fault = runtime_acknowledgement_fault(Some(a), verified, expected);
            let signed = verified;
            let by_account = expected.account_id == a.author_account_id;
            let by_device = expected.device_id == a.author_device_id;
            let in_conversation = expected.conversation_id == a.conversation_id;
            let causal = a.kind is Acknowledgement
                && a.kind->acknowledged_event_id == expected.event_id
                && a.parents@.len() == 1 && a.parents@[0] == expected.event_id;
            &&& fault == Some(DeliveryError::AcknowledgementUnverified) <==> !signed
            &&& fault == Some(DeliveryError::AcknowledgedByAnotherAccount) <==> signed
                && !by_account
            &&& fault == Some(DeliveryError::AcknowledgedByAnotherDevice) <==> signed
                && by_account && !by_device
            &&& fault == Some(DeliveryError::AcknowledgedInAnotherConversation) <==> signed
                && by_account && by_device && !in_conversation
            &&& fault == Some(DeliveryError::NotCausal) <==> signed && by_account && by_device
                && in_conversation && !causal
            &&& fault is None <==> signed && by_account && by_device && in_conversation && causal
        }),
{
    if a.parents@.len() == 1 && a.parents@[0] == expected.event_id {
        assert(a.parents@ =~= seq![expected.event_id]);
    }
}

/// All ciphertexts were made with this identity.
pub open spec fn made_by_one(identities: Seq<Digest>, sender: Digest) -> bool {
    identities.len() > 0 && forall|i: int|
        0 <= i < identities.len() ==> #[trigger] identities[i] == sender
}

/// A fan-out has a sender exactly where its directory was verified, it has a recipient, and every
/// ciphertext was made with that one identity.
pub proof fn fanout_has_one_sender(
    directory_verified: bool,
    identities: Seq<Digest>,
    sender: Digest,
)
    ensures
        ({
            let found = fanout_sender(directory_verified, identities);
            &&& found == Ok::<Digest, DeliveryError>(sender) <==> directory_verified && made_by_one(
                identities,
                sender,
            )
            &&& found == Err::<Digest, DeliveryError>(DeliveryError::DirectoryUnverified)
                <==> !directory_verified
            &&& found == Err::<Digest, DeliveryError>(DeliveryError::NoRecipients)
                <==> directory_verified && identities.len() == 0
        }),
{
}

/// A message goes on exactly where the step before went well: it is sent once it is stored, waits
/// for an answer only of a recipient, and is acknowledged only after an acknowledgement that fits
/// was stored. Anything out of place breaks it off, and an end is an end.
pub proof fn message_goes_step_by_step(message: OutgoingMessage, event: SendEvent)
    requires
        message.wf(),
    ensures
        ({
            let after = message.next(event);
            let ended = message.phase == SendPhase::Acknowledged || message.phase is Failed
                || message.phase == SendPhase::Broken;
            &&& ended ==> after == message
            &&& !ended ==> {
                &&& after.phase != SendPhase::Storing
                &&& after.phase == SendPhase::Sending <==> message.phase == SendPhase::Storing
                    && event is EventStored
                &&& after.phase == SendPhase::FindingListener <==> message.phase
                    == SendPhase::Sending && event is EventSent
                &&& after.phase == SendPhase::AwaitingAcknowledgement <==> message.phase
                    == SendPhase::FindingListener && (event matches SendEvent::RecipientsListed {
                    recipients,
                } && recipients@.contains(message.listener_device_id))
                &&& after.phase == (SendPhase::Failed { error: DeliveryError::ListenerNotInFanout })
                    <==> message.phase == SendPhase::FindingListener && (
                event matches SendEvent::RecipientsListed { recipients } && !recipients@.contains(
                    message.listener_device_id,
                ))
                &&& after.phase == SendPhase::StoringAcknowledgement <==> message.phase
                    == SendPhase::AwaitingAcknowledgement && (event matches SendEvent::Answered {
                    acknowledgement: Some(a),
                    verified,
                } && verified && a.author_account_id == message.listener_account_id
                    && a.author_device_id == message.listener_device_id && a.conversation_id
                    == message.conversation_id && acknowledges(
                    a,
                    message.listener_device_id,
                    message.event_id->0,
                ))
                &&& message.phase == SendPhase::AwaitingAcknowledgement && event is Answered
                    && after.phase != SendPhase::StoringAcknowledgement ==> after.phase is Failed
                &&& after.phase == SendPhase::Acknowledged <==> message.phase
                    == SendPhase::StoringAcknowledgement && event is AcknowledgementStored
                &&& event is OutsideFailure ==> after.phase == SendPhase::Broken
            }
            &&& after.event_id == if message.phase == SendPhase::Storing && event is EventStored {
                Some(event->event_id)
            } else {
                message.event_id
            }
            &&& after.listener_account_id == message.listener_account_id
            &&& after.listener_device_id == message.listener_device_id
            &&& after.conversation_id == message.conversation_id
        }),
{
}

} // verus!
