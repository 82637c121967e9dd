//! What the runtime does with its outbox: queueing, choosing what is due, delivering, and
//! scheduling retries.

use crate::codec::{append_bytes, blake3_digest, blake3_hash, same_bytes};
use crate::delivery::{participants_fault, require_conversation_participants, DeliveryError};
use crate::ids::{
    AccountId, ConversationId, DeviceId, Digest, EventId, RuntimeContactId, RuntimeQueueId,
};
use crate::ordered_records::{
    find_record, holds_key, lookup, lookup_finds, lookup_gives_the_record, plain_key,
    plain_record_key, strictly_ordered, Keyed,
};
use crate::runtime_state::{
    broken_reference, loaded_records_refer_to_each_other, DeliveredMessage, MaterializedMessage,
    QueuedMessage, RetryState, RuntimeContact, RuntimeStateSnapshot, RuntimeStateView,
};
use vstd::arithmetic::power2::pow2;
use vstd::prelude::*;

verus! {

/// Why an outbox operation is refused.
#[derive(Clone, Copy, Debug, PartialEq, Eq, Structural)]
pub enum OutboxError {
    RequestReused,
    BodyUnreadable,
    NoMatchingContact,
    Participants { fault: DeliveryError },
    RetryOfAbsentRecord,
    QueueRecordDisappeared,
    AlreadyDelivered,
    ContactDisappeared,
    MaterializationDisappeared,
    MaterializationChanged,
    RecordTooLarge,
    RecordConflict,
}

/// No delivery marker names the queued message.
pub open spec fn undelivered(state: RuntimeStateView, id: RuntimeQueueId) -> bool {
    !holds_key(state.delivered, plain_key(id.raw))
}

/// The queued messages that are not delivered.
pub open spec fn pending(state: RuntimeStateView) -> Seq<QueuedMessage> {
    state.queued.filter(|q: QueuedMessage| undelivered(state, q.queue_id))
}

/// The last retry state of `queue_id`.
pub open spec fn latest_retry_of(retries: Seq<RetryState>, queue_id: RuntimeQueueId) -> Option<
    RetryState,
>
    decreases retries.len(),
{
    if retries.len() == 0 {
        None
    } else if retries.last().queue_id == queue_id {
        Some(retries.last())
    } else {
        latest_retry_of(retries.drop_last(), queue_id)
    }
}

/// The queued message may be sent now: it is not delivered and its latest retry state, if it
/// has one, does not ask to wait longer.
pub open spec fn due(state: RuntimeStateView, id: RuntimeQueueId, now: u64) -> bool {
    undelivered(state, id) && match latest_retry_of(state.retries, id) {
        None => true,
        Some(retry) => retry.not_before_unix_seconds <= now,
    }
}

/// Where a queued message stands.
#[derive(Clone, Copy, Debug, PartialEq, Eq, Structural)]
pub enum QueueState {
    Queued,
    Materialized,
    Delivered,
}

/// One line of the outbox status.
#[derive(Clone, Copy, Debug, PartialEq, Eq, Structural)]
pub struct OutboxItem {
    pub queue_id: RuntimeQueueId,
    pub peer_account_id: AccountId,
    pub conversation_id: ConversationId,
    pub state: QueueState,
    pub acknowledgement_event_id: Option<EventId>,
}

/// The outbox status.
#[derive(Debug)]
pub struct OutboxStatus {
    pub contact_count: usize,
    pub queue_count: usize,
    pub pending_count: usize,
    pub materialized_count: usize,
    pub delivered_count: usize,
    pub retry_state_count: usize,
    pub items: Vec<OutboxItem>,
}

/// The status line of a queued message.
pub open spec fn status_item(state: RuntimeStateView, queued: QueuedMessage) -> OutboxItem {
    let delivered = lookup(state.delivered, plain_key(queued.queue_id.raw));
    OutboxItem {
        queue_id: queued.queue_id,
        peer_account_id: queued.peer_account_id,
        conversation_id: queued.conversation_id,
        state: if delivered is Some {
            QueueState::Delivered
        } else if holds_key(state.materialized, plain_key(queued.queue_id.raw)) {
            QueueState::Materialized
        } else {
            QueueState::Queued
        },
        acknowledgement_event_id: match delivered {
            Some(marker) => Some(marker.acknowledgement_event_id),
            None => None,
        },
    }
}

impl RuntimeStateSnapshot {
    fn is_undelivered(&self, id: RuntimeQueueId) -> (r: bool)
        ensures
            r == undelivered(self@, id),
    {
        proof {
            lookup_finds(self.delivered@, plain_key(id.raw));
        }
        find_record(&self.delivered, plain_record_key(id.raw)).is_none()
    }

    /// The number of queued messages that are not delivered.
    pub fn pending_count(&self) -> (r: usize)
        ensures
            r == pending(self@).len(),
    {
        let ghost keep = |q: QueuedMessage| undelivered(self@, q.queue_id);
        let mut count: usize = 0;
        let mut i: usize = 0;
        proof {
            reveal(Seq::filter);
        }
        assert(self.queued@.take(0).filter(keep).len() == 0);
        while i < self.queued.len()
            invariant
                i <= self.queued.len(),
                count <= i,
                keep == (|q: QueuedMessage| undelivered(self@, q.queue_id)),
                count == self.queued@.take(i as int).filter(keep).len(),
            decreases self.queued.len() - i,
        {
            proof {
                reveal(Seq::filter);
                assert(self.queued@.take(i + 1).drop_last() == self.queued@.take(i as int));
            }
            if self.is_undelivered(self.queued[i].queue_id) {
                count += 1;
            }
            i += 1;
        }
        assert(self.queued@.take(self.queued@.len() as int) == self.queued@);
        count
    }

    /// The last retry state of a queued message.
    pub fn latest_retry(&self, queue_id: RuntimeQueueId) -> (r: Option<RetryState>)
        ensures
            r == latest_retry_of(self.retries@, queue_id),
    {
        let mut i: usize = self.retries.len();
        assert(self.retries@.take(i as int) == self.retries@);
        while i > 0
            invariant
                i <= self.retries.len(),
                latest_retry_of(self.retries@, queue_id) == latest_retry_of(
                    self.retries@.take(i as int),
                    queue_id,
                ),
            decreases i,
        {
            let retry = self.retries[i - 1];
            if retry.queue_id == queue_id {
                return Some(retry);
            }
            assert(self.retries@.take(i as int).drop_last() == self.retries@.take(i - 1));
            i -= 1;
        }
        None
    }

    /// The first queued message, in queue-id order, that may be sent now.
    pub fn select_due_runtime_queue(&self, now: u64) -> (r: Option<RuntimeQueueId>)
        ensures
            match r {
                Some(id) => exists|i: int|
                    {
                        &&& 0 <= i < self.queued@.len()
                        &&& (#[trigger] self.queued@[i]).queue_id == id
                        &&& due(self@, id, now)
                        &&& forall|j: int|
                            0 <= j < i ==> !due(self@, (#[trigger] self.queued@[j]).queue_id, now)
                    },
                None => forall|j: int|
                    0 <= j < self.queued@.len() ==> !due(
                        self@,
                        (#[trigger] self.queued@[j]).queue_id,
                        now,
                    ),
            },
    {
        let mut i: usize = 0;
        while i < self.queued.len()
            invariant
                i <= self.queued.len(),
                forall|j: int|
                    0 <= j < i ==> !due(self@, (#[trigger] self.queued@[j]).queue_id, now),
            decreases self.queued.len() - i,
        {
            let id = self.queued[i].queue_id;
            if self.is_undelivered(id) {
                let waits = match self.latest_retry(id) {
                    None => false,
                    Some(retry) => retry.not_before_unix_seconds > now,
                };
                if !waits {
                    return Some(id);
                }
            }
            i += 1;
        }
        None
    }

    /// The status of the outbox: the counts, and one item for each queued message in order.
    pub fn collect_runtime_outbox_status(&self) -> (r: OutboxStatus)
        ensures
            r.contact_count == self.contacts@.len(),
            r.queue_count == self.queued@.len(),
            r.pending_count == pending(self@).len(),
            r.materialized_count == self.materialized@.len(),
            r.delivered_count == self.delivered@.len(),
            r.retry_state_count == self.retries@.len(),
            r.items@ == self.queued@.map_values(|q: QueuedMessage| status_item(self@, q)),
    {
        let mut items: Vec<OutboxItem> = Vec::new();
        let ghost item = |q: QueuedMessage| status_item(self@, q);
        let mut i: usize = 0;
        while i < self.queued.len()
            invariant
                i <= self.queued.len(),
                item == (|q: QueuedMessage| status_item(self@, q)),
                items@ == self.queued@.take(i as int).map_values(item),
            decreases self.queued.len() - i,
        {
            let queued = self.queued[i];
            let key = plain_record_key(queued.queue_id.raw);
            proof {
                lookup_finds(self.materialized@, key);
            }
            let delivered = find_record(&self.delivered, key);
            let state = if delivered.is_some() {
                QueueState::Delivered
            } else if find_record(&self.materialized, key).is_some() {
                QueueState::Materialized
            } else {
                QueueState::Queued
            };
            let acknowledgement_event_id = match delivered {
                Some(marker) => Some(marker.acknowledgement_event_id),
                None => None,
            };
            items.push(
                OutboxItem {
                    queue_id: queued.queue_id,
                    peer_account_id: queued.peer_account_id,
                    conversation_id: queued.conversation_id,
                    state,
                    acknowledgement_event_id,
                },
            );
            i += 1;
            assert(items@ == self.queued@.take(i as int).map_values(item));
        }
        assert(self.queued@.take(self.queued@.len() as int) == self.queued@);
        OutboxStatus {
            contact_count: self.contacts.len(),
            queue_count: self.queued.len(),
            pending_count: self.pending_count(),
            materialized_count: self.materialized.len(),
            delivered_count: self.delivered.len(),
            retry_state_count: self.retries.len(),
            items,
        }
    }
}

/// A queued message of the same id exists already, or the contact that a new one goes to.
#[derive(Clone, Copy, Debug, PartialEq, Eq, Structural)]
pub enum QueueDecision {
    AlreadyQueued { contact_id: RuntimeContactId },
    Insert { contact: RuntimeContact },
}

/// The first contact for the peer and the conversation.
pub open spec fn matching_contact(
    contacts: Seq<RuntimeContact>,
    peer_account_id: AccountId,
    conversation_id: ConversationId,
) -> Option<RuntimeContact>
    decreases contacts.len(),
{
    if contacts.len() == 0 {
        None
    } else if contacts[0].peer_account_id == peer_account_id && contacts[0].conversation_id
        == conversation_id {
        Some(contacts[0])
    } else {
        matching_contact(contacts.drop_first(), peer_account_id, conversation_id)
    }
}

fn find_matching_contact(
    contacts: &Vec<RuntimeContact>,
    peer_account_id: AccountId,
    conversation_id: ConversationId,
) -> (r: Option<RuntimeContact>)
    ensures
        r == matching_contact(contacts@, peer_account_id, conversation_id),
{
    let mut i: usize = 0;
    assert(contacts@.skip(0) == contacts@);
    while i < contacts.len()
        invariant
            i <= contacts.len(),
            matching_contact(contacts@, peer_account_id, conversation_id) == matching_contact(
                contacts@.skip(i as int),
                peer_account_id,
                conversation_id,
            ),
        decreases contacts.len() - i,
    {
        let contact = contacts[i];
        if contact.peer_account_id == peer_account_id && contact.conversation_id
            == conversation_id {
            return Some(contact);
        }
        assert(contacts@.skip(i as int).drop_first() == contacts@.skip(i + 1));
        i += 1;
    }
    None
}

/// What queueing a message under `queue_id` does. A record of that id is acceptable only where
/// it was queued for the same peer and conversation with the same body, which is `None` where
/// it could not be opened. A new record needs a contact, and both accounts among the members of
/// the conversation.
pub open spec fn queue_decision(
    state: RuntimeStateView,
    members: Seq<AccountId>,
    queue_id: RuntimeQueueId,
    conversation_id: ConversationId,
    local_account_id: AccountId,
    peer_account_id: AccountId,
    message: Seq<char>,
    existing_body: Option<Seq<char>>,
) -> Result<QueueDecision, OutboxError> {
    match lookup(state.queued, plain_key(queue_id.raw)) {
        Some(existing) => if !(existing.peer_account_id == peer_account_id
            && existing.conversation_id == conversation_id) {
            Err(OutboxError::RequestReused)
        } else {
            match existing_body {
                None => Err(OutboxError::BodyUnreadable),
                Some(body) => if body == message {
                    Ok(QueueDecision::AlreadyQueued { contact_id: existing.contact_id })
                } else {
                    Err(OutboxError::RequestReused)
                },
            }
        },
        None => match matching_contact(state.contacts, peer_account_id, conversation_id) {
            None => Err(OutboxError::NoMatchingContact),
            Some(contact) => match participants_fault(members, local_account_id, peer_account_id) {
                Some(fault) => Err(OutboxError::Participants { fault }),
                None => Ok(QueueDecision::Insert { contact }),
            },
        },
    }
}

/// The text that an optional string holds.
pub open spec fn optional_text(text: Option<String>) -> Option<Seq<char>> {
    match text {
        Some(t) => Some(t@),
        None => None,
    }
}

/// Decides what queueing a message under `queue_id` does.
pub fn queue_runtime_message_with_id(
    snapshot: &RuntimeStateSnapshot,
    members: &[AccountId],
    queue_id: RuntimeQueueId,
    conversation_id: ConversationId,
    local_account_id: AccountId,
    peer_account_id: AccountId,
    message: &String,
    existing_body: &Option<String>,
) -> (r: Result<QueueDecision, OutboxError>)
    ensures
        r == queue_decision(
            snapshot@,
            members@,
            queue_id,
            conversation_id,
            local_account_id,
            peer_account_id,
            message@,
            optional_text(*existing_body),
        ),
{
    if let Some(existing) = find_record(&snapshot.queued, plain_record_key(queue_id.raw)) {
        if !(existing.peer_account_id == peer_account_id && existing.conversation_id
            == conversation_id) {
            return Err(OutboxError::RequestReused);
        }
        return match existing_body {
            None => Err(OutboxError::BodyUnreadable),
            Some(body) => if *body == *message {
                Ok(QueueDecision::AlreadyQueued { contact_id: existing.contact_id })
            } else {
                Err(OutboxError::RequestReused)
            },
        };
    }
    match find_matching_contact(&snapshot.contacts, peer_account_id, conversation_id) {
        None => Err(OutboxError::NoMatchingContact),
        Some(contact) => match require_conversation_participants(
            members,
            local_account_id,
            peer_account_id,
        ) {
            Err(fault) => Err(OutboxError::Participants { fault }),
            Ok(()) => Ok(QueueDecision::Insert { contact }),
        },
    }
}

/// What preparing a delivery starts from.
#[derive(Clone, Copy, Debug, PartialEq, Eq, Structural)]
pub struct DeliveryStart {
    pub queued: QueuedMessage,
    pub contact: RuntimeContact,
    pub materialized: Option<MaterializedMessage>,
}

/// What the delivery of `queue_id` starts from.
pub open spec fn delivery_start(state: RuntimeStateView, queue_id: RuntimeQueueId) -> Result<
    DeliveryStart,
    OutboxError,
> {
    match lookup(state.queued, plain_key(queue_id.raw)) {
        None => Err(OutboxError::QueueRecordDisappeared),
        Some(queued) => if !undelivered(state, queue_id) {
            Err(OutboxError::AlreadyDelivered)
        } else {
            match lookup(state.contacts, plain_key(queued.contact_id.raw)) {
                None => Err(OutboxError::ContactDisappeared),
                Some(contact) => Ok(
                    DeliveryStart {
                        queued,
                        contact,
                        materialized: lookup(state.materialized, plain_key(queue_id.raw)),
                    },
                ),
            }
        },
    }
}

/// Finds the queued message, its contact and, if it was materialized before, its event.
pub fn prepare_runtime_delivery(snapshot: &RuntimeStateSnapshot, queue_id: RuntimeQueueId) -> (r:
    Result<DeliveryStart, OutboxError>)
    ensures
        r == delivery_start(snapshot@, queue_id),
{
    let key = plain_record_key(queue_id.raw);
    let queued = match find_record(&snapshot.queued, key) {
        None => {
            return Err(OutboxError::QueueRecordDisappeared);
        },
        Some(queued) => queued,
    };
    if !snapshot.is_undelivered(queue_id) {
        return Err(OutboxError::AlreadyDelivered);
    }
    match find_record(&snapshot.contacts, plain_record_key(queued.contact_id.raw)) {
        None => Err(OutboxError::ContactDisappeared),
        Some(contact) => Ok(
            DeliveryStart {
                queued,
                contact,
                materialized: find_record(&snapshot.materialized, key),
            },
        ),
    }
}

/// Tests, before a delivery is recorded, that the materialized event is still the one that was
/// sent.
pub fn persist_runtime_delivery(
    snapshot: &RuntimeStateSnapshot,
    queue_id: RuntimeQueueId,
    sent_event_digest: Digest,
) -> (r: Result<MaterializedMessage, OutboxError>)
    ensures
        r == match lookup(snapshot.materialized@, plain_key(queue_id.raw)) {
            None => Err(OutboxError::MaterializationDisappeared),
            Some(materialized) => if materialized.event_digest == sent_event_digest {
                Ok(materialized)
            } else {
                Err(OutboxError::MaterializationChanged)
            },
        },
{
    match find_record(&snapshot.materialized, plain_record_key(queue_id.raw)) {
        None => Err(OutboxError::MaterializationDisappeared),
        Some(materialized) => if materialized.event_digest == sent_event_digest {
            Ok(materialized)
        } else {
            Err(OutboxError::MaterializationChanged)
        },
    }
}

/// What writing an append-only record does.
#[derive(Clone, Copy, Debug, PartialEq, Eq, Structural)]
pub enum RecordWrite {
    AlreadyPresent,
    Write,
}

/// Decides what writing an append-only record does, given what stands at its path.
pub fn persist_runtime_record(bytes: &[u8], existing: Option<&[u8]>, max_bytes: usize) -> (r:
    Result<RecordWrite, OutboxError>)
    ensures
        r == if bytes@.len() > max_bytes {
            Err(OutboxError::RecordTooLarge)
        } else {
            match existing {
                None => Ok(RecordWrite::Write),
                Some(other) => if other@ == bytes@ {
                    Ok(RecordWrite::AlreadyPresent)
                } else {
                    Err(OutboxError::RecordConflict)
                },
            }
        },
{
    if bytes.len() > max_bytes {
        return Err(OutboxError::RecordTooLarge);
    }
    match existing {
        None => Ok(RecordWrite::Write),
        Some(other) => if same_bytes(other, bytes) {
            Ok(RecordWrite::AlreadyPresent)
        } else {
            Err(OutboxError::RecordConflict)
        },
    }
}

/// The number that `bytes` stand for, least significant byte first.
pub open spec fn le_value(bytes: Seq<u8>) -> nat
    decreases bytes.len(),
{
    if bytes.len() == 0 {
        0
    } else {
        bytes[0] as nat + 256 * le_value(bytes.drop_first())
    }
}

/// The `count` bytes of `value`, least significant byte first.
pub open spec fn le_bytes(value: nat, count: nat) -> Seq<u8>
    decreases count,
{
    if count == 0 {
        Seq::empty()
    } else {
        seq![(value % 256) as u8] + le_bytes(value / 256, (count - 1) as nat)
    }
}

/// The bytes whose digest spreads the retries of a queued message.
pub open spec fn jitter_input(queue_id: RuntimeQueueId, generation: u32) -> Seq<u8> {
    jitter_domain() + queue_id.raw.bytes() + le_bytes(generation as nat, 4)
}

/// The bytes that begin every input of the retry spread.
pub open spec fn jitter_domain() -> Seq<u8> {
    vstd::utf8::encode_utf8("kilogram:runtime-retry-jitter:v1\0"@)
}

/// The number that spreads the retries of a queued message: the first eight bytes of the
/// digest, least significant first.
pub open spec fn jitter_sample(queue_id: RuntimeQueueId, generation: u32) -> nat {
    le_value(blake3_hash(jitter_input(queue_id, generation)).take(8))
}

/// The generation of the retry state after `previous`.
pub open spec fn next_generation(previous: Option<RetryState>) -> u32 {
    match previous {
        None => 1,
        Some(retry) => if retry.generation == u32::MAX {
            u32::MAX
        } else {
            (retry.generation + 1) as u32
        },
    }
}

/// The longest wait of a generation: the base doubled once for each earlier generation, twenty
/// times at most, and never more than `retry_max_seconds`.
pub open spec fn retry_cap(
    retry_base_seconds: u64,
    retry_max_seconds: u64,
    generation: u32,
) -> nat {
    let shift: nat = if generation == 0 {
        0
    } else if generation - 1 > 20 {
        20
    } else {
        (generation - 1) as nat
    };
    let grown = retry_base_seconds as nat * pow2(shift);
    if grown <= retry_max_seconds {
        grown
    } else {
        retry_max_seconds as nat
    }
}

/// The wait of a generation: between half the cap and the cap, and at least one second.
pub open spec fn retry_delay(cap: nat, sample: nat) -> nat {
    let floor = cap / 2;
    let delay = floor + sample % ((cap - floor + 1) as nat);
    if delay < 1 {
        1
    } else {
        delay
    }
}

/// A scheduled retry.
#[derive(Clone, Copy, Debug, PartialEq, Eq, Structural)]
pub struct RetryPlan {
    pub generation: u32,
    pub delay_seconds: u64,
    pub not_before_unix_seconds: u64,
}

/// `value` is the schedule of the next retry of `queue_id`.
pub open spec fn is_retry_plan(
    plan: RetryPlan,
    state: RuntimeStateView,
    queue_id: RuntimeQueueId,
    retry_base_seconds: u64,
    retry_max_seconds: u64,
    now: u64,
) -> bool {
    let generation = next_generation(latest_retry_of(state.retries, queue_id));
    let cap = retry_cap(retry_base_seconds, retry_max_seconds, generation);
    &&& plan.generation == generation
    &&& plan.delay_seconds == retry_delay(cap, jitter_sample(queue_id, generation))
    &&& plan.not_before_unix_seconds == if now + plan.delay_seconds > u64::MAX {
        u64::MAX as int
    } else {
        now + plan.delay_seconds
    }
}

fn power_of_two(shift: u32) -> (r: u64)
    requires
        shift <= 20,
    ensures
        r == pow2(shift as nat),
        r <= 0x10_0000,
{
    let mut r: u64 = 1;
    let mut i: u32 = 0;
    proof {
        vstd::arithmetic::power2::lemma2_to64();
    }
    while i < shift
        invariant
            i <= shift <= 20,
            r == pow2(i as nat),
            r <= 0x10_0000,
        decreases shift - i,
    {
        proof {
            vstd::arithmetic::power2::lemma_pow2_unfold((i + 1) as nat);
            vstd::arithmetic::power2::lemma2_to64();
            if i + 1 < 20 {
                vstd::arithmetic::power2::lemma_pow2_strictly_increases((i + 1) as nat, 20);
            }
        }
        r = r * 2;
        i += 1;
    }
    r
}

fn grown_cap(retry_base_seconds: u64, retry_max_seconds: u64, generation: u32) -> (r: u64)
    ensures
        r == retry_cap(retry_base_seconds, retry_max_seconds, generation),
        r <= retry_max_seconds,
{
    let earlier: u32 = generation.saturating_sub(1);
    let shift: u32 = if earlier > 20 {
        20
    } else {
        earlier
    };
    let factor: u64 = power_of_two(shift);
    match retry_base_seconds.checked_mul(factor) {
        Some(grown) => if grown <= retry_max_seconds {
            grown
        } else {
            retry_max_seconds
        },
        None => retry_max_seconds,
    }
}

fn push_le_u32(out: &mut Vec<u8>, value: u32, count: usize)
    ensures
        final(out)@ == old(out)@ + le_bytes(value as nat, count as nat),
    decreases count,
{
    if count > 0 {
        out.push((value % 256) as u8);
        let ghost start = old(out)@;
        push_le_u32(out, value / 256, count - 1);
        assert(out@ == start + le_bytes(value as nat, count as nat));
    }
}

fn le_u64(bytes: &[u8; 32], from: usize) -> (r: u64)
    requires
        from <= 8,
    ensures
        r as nat == le_value(bytes@.subrange(from as int, 8)),
        r < vstd::arithmetic::power::pow(256, (8 - from) as nat),
    decreases 8 - from,
{
    proof {
        reveal_with_fuel(vstd::arithmetic::power::pow, 9);
    }
    if from == 8 {
        0
    } else {
        let rest: u64 = le_u64(bytes, from + 1);
        proof {
            vstd::arithmetic::power::lemma_pow_increases(256, (7 - from) as nat, 7);
            assert(bytes@.subrange(from as int, 8).drop_first() == bytes@.subrange(from + 1, 8));
            assert(vstd::arithmetic::power::pow(256, (8 - from) as nat) == 256
                * vstd::arithmetic::power::pow(256, (7 - from) as nat));
        }
        bytes[from] as u64 + 256 * rest
    }
}

fn retry_sample(queue_id: RuntimeQueueId, generation: u32) -> (r: u64)
    ensures
        r as nat == jitter_sample(queue_id, generation),
{
    let mut input: Vec<u8> = Vec::new();
    append_bytes(&mut input, "kilogram:runtime-retry-jitter:v1\0".as_bytes());
    append_bytes(&mut input, &queue_id.raw.to_bytes());
    push_le_u32(&mut input, generation, 4);
    assert(input@ == jitter_input(queue_id, generation));
    let digest = blake3_digest(&input);
    assert(digest@.subrange(0, 8) == digest@.take(8));
    le_u64(&digest, 0)
}

/// Schedules the next retry of a queued message: `None` where it was delivered meanwhile.
pub fn persist_runtime_retry(
    snapshot: &RuntimeStateSnapshot,
    queue_id: RuntimeQueueId,
    retry_base_seconds: u64,
    retry_max_seconds: u64,
    now: u64,
) -> (r: Result<Option<RetryPlan>, OutboxError>)
    ensures
        match r {
            Err(error) => {
                &&& error == OutboxError::RetryOfAbsentRecord
                &&& !holds_key(snapshot.queued@, plain_key(queue_id.raw))
            },
            Ok(None) => {
                &&& holds_key(snapshot.queued@, plain_key(queue_id.raw))
                &&& !undelivered(snapshot@, queue_id)
            },
            Ok(Some(plan)) => {
                &&& holds_key(snapshot.queued@, plain_key(queue_id.raw))
                &&& undelivered(snapshot@, queue_id)
                &&& is_retry_plan(
                    plan,
                    snapshot@,
                    queue_id,
                    retry_base_seconds,
                    retry_max_seconds,
                    now,
                )
            },
        },
{
    proof {
        lookup_finds(snapshot.queued@, plain_key(queue_id.raw));
    }
    if find_record(&snapshot.queued, plain_record_key(queue_id.raw)).is_none() {
        return Err(OutboxError::RetryOfAbsentRecord);
    }
    if !snapshot.is_undelivered(queue_id) {
        return Ok(None);
    }
    let generation: u32 = match snapshot.latest_retry(queue_id) {
        None => 1,
        Some(retry) => retry.generation.saturating_add(1),
    };
    let cap: u64 = grown_cap(retry_base_seconds, retry_max_seconds, generation);
    let floor: u64 = cap / 2;
    let sample: u64 = retry_sample(queue_id, generation);
    let spread: u64 = sample % (cap - floor + 1);
    let delay: u64 = floor + spread;
    let delay_seconds: u64 = if delay < 1 {
        1
    } else {
        delay
    };
    Ok(
        Some(
            RetryPlan {
                generation,
                delay_seconds,
                not_before_unix_seconds: now.saturating_add(delay_seconds),
            },
        ),
    )
}

/// A retry waits at least one second and at least half of its cap, at most the cap (or the one
/// second), and the cap is never above the configured maximum. While the generation counter
/// does not run out, each retry has a higher generation than the one before.
pub proof fn retry_delay_is_bounded(
    plan: RetryPlan,
    state: RuntimeStateView,
    queue_id: RuntimeQueueId,
    retry_base_seconds: u64,
    retry_max_seconds: u64,
    now: u64,
)
    requires
        is_retry_plan(plan, state, queue_id, retry_base_seconds, retry_max_seconds, now),
    ensures
        plan.delay_seconds >= 1,
        ({
            let cap = retry_cap(retry_base_seconds, retry_max_seconds, plan.generation);
            &&& cap <= retry_max_seconds
            &&& cap / 2 <= plan.delay_seconds
            &&& plan.delay_seconds <= cap || plan.delay_seconds == 1
        }),
        plan.not_before_unix_seconds >= now,
        latest_retry_of(state.retries, queue_id) matches Some(previous) ==> plan.generation
            > previous.generation || previous.generation == u32::MAX,
{
    let generation = next_generation(latest_retry_of(state.retries, queue_id));
    let cap = retry_cap(retry_base_seconds, retry_max_seconds, generation);
    let sample = jitter_sample(queue_id, generation);
    let span = (cap - cap / 2 + 1) as nat;
    assert(0 <= sample % span < span) by (nonlinear_arith)
        requires
            span > 0,
    ;
}

/// Once a retry is recorded, it is the latest one of its message, so that the message is not
/// due before the time that the retry names.
pub proof fn recorded_retry_holds_message_back(
    state: RuntimeStateView,
    retry: RetryState,
    now: u64,
)
    requires
        crate::ordered_records::in_order(state.retries),
        latest_retry_of(state.retries, retry.queue_id) matches Some(previous)
            ==> previous.generation <= retry.generation,
    ensures
        ({
            let after = state.with(crate::runtime_state::RuntimeRecord::Retry(retry));
            &&& latest_retry_of(after.retries, retry.queue_id) == Some(retry)
            &&& now < retry.not_before_unix_seconds ==> !due(after, retry.queue_id, now)
        }),
{
    lemma_inserted_retry_is_latest(state.retries, retry);
}

proof fn lemma_inserted_retry_is_latest(s: Seq<RetryState>, retry: RetryState)
    requires
        crate::ordered_records::in_order(s),
        latest_retry_of(s, retry.queue_id) matches Some(previous) ==> previous.generation
            <= retry.generation,
    ensures
        latest_retry_of(
            crate::ordered_records::insert_sorted(s, retry),
            retry.queue_id,
        ) == Some(retry),
    decreases s.len(),
{
    let r = crate::ordered_records::insert_sorted(s, retry);
    if s.len() == 0 || !retry.key().before(s.last().key()) {
        assert(r.last() == retry);
    } else {
        assert(s.last().queue_id != retry.queue_id) by {
            if s.last().queue_id == retry.queue_id {
                assert(latest_retry_of(s, retry.queue_id) == Some(s.last()));
            }
        }
        lemma_inserted_retry_is_latest(s.drop_last(), retry);
        assert(r.drop_last() == crate::ordered_records::insert_sorted(s.drop_last(), retry));
        assert(r.last() == s.last());
    }
}

/// In a state whose references hold, every queued message is either pending or delivered, so
/// the two counts add up to the number of queued messages.
pub proof fn pending_and_delivered_add_up(
    state: RuntimeStateView,
    local_device_id: DeviceId,
    retry_links: Seq<bool>,
)
    requires
        state.ordered(),
        broken_reference(state, local_device_id, retry_links) is None,
    ensures
        pending(state).len() + state.delivered.len() == state.queued.len(),
{
    loaded_records_refer_to_each_other(state, local_device_id, retry_links);
    assert forall|i: int| 0 <= i < state.delivered.len() implies holds_key(
        state.queued,
        (#[trigger] state.delivered[i]).key(),
    ) by {
        let key = state.delivered[i].key();
        assert(holds_key(state.delivered, key));
        assert(holds_key(state.materialized, key));
    }
    lemma_split_count(state.queued, state.delivered);
    let keep = |q: QueuedMessage| undelivered(state, q.queue_id);
    let keep_key = |q: QueuedMessage| !holds_key(state.delivered, q.key());
    assert(keep =~= keep_key);
}

/// Of strictly ordered records `all`, those whose key is not among the strictly ordered
/// `some`, and `some` itself, number as many as `all`, where every key of `some` is in `all`.
proof fn lemma_split_count(all: Seq<QueuedMessage>, some: Seq<DeliveredMessage>)
    requires
        strictly_ordered(all),
        strictly_ordered(some),
        forall|i: int| 0 <= i < some.len() ==> holds_key(all, (#[trigger] some[i]).key()),
    ensures
        all.filter(|q: QueuedMessage| !holds_key(some, q.key())).len() + some.len() == all.len(),
    decreases all.len(),
{
    reveal(Seq::filter);
    let keep = |q: QueuedMessage| !holds_key(some, q.key());
    if all.len() == 0 {
        if some.len() > 0 {
            assert(holds_key(all, some[0].key()));
        }
    } else {
        let rest = all.drop_last();
        let last = all.last();
        assert forall|i: int, j: int| 0 <= i < j < rest.len() implies (#[trigger] rest[i]).key().before(
            (#[trigger] rest[j]).key(),
        ) by {
            assert(all[i].key().before(all[j].key()));
        }
        if holds_key(some, last.key()) {
            let at = choose|at: int| 0 <= at < some.len() && (#[trigger] some[at]).key()
                == last.key();
            assert(at == some.len() - 1) by {
                if at < some.len() - 1 {
                    assert(some[at].key().before(some[some.len() - 1].key()));
                    let k = choose|k: int|
                        0 <= k < all.len() && (#[trigger] all[k]).key() == some[some.len()
                            - 1].key();
                    if k < all.len() - 1 {
                        assert(all[k].key().before(all[all.len() - 1].key()));
                    }
                }
            }
            let fewer = some.drop_last();
            assert forall|i: int, j: int| 0 <= i < j < fewer.len() implies (
            #[trigger] fewer[i]).key().before((#[trigger] fewer[j]).key()) by {
                assert(some[i].key().before(some[j].key()));
            }
            assert forall|i: int| 0 <= i < fewer.len() implies holds_key(
                rest,
                (#[trigger] fewer[i]).key(),
            ) by {
                assert(holds_key(all, some[i].key()));
                assert(some[i].key().before(some[some.len() - 1].key()));
                let k = choose|k: int|
                    0 <= k < all.len() && (#[trigger] all[k]).key() == some[i].key();
                assert(k < rest.len());
                assert(rest[k].key() == fewer[i].key());
            }
            lemma_split_count(rest, fewer);
            let keep_fewer = |q: QueuedMessage| !holds_key(fewer, q.key());
            assert forall|i: int| 0 <= i < rest.len() implies keep(#[trigger] rest[i])
                == keep_fewer(rest[i]) by {
                assert(all[i].key().before(all[all.len() - 1].key()));
                if holds_key(some, rest[i].key()) {
                    let k = choose|k: int|
                        0 <= k < some.len() && (#[trigger] some[k]).key() == rest[i].key();
                    assert(k < fewer.len());
                    assert(fewer[k].key() == rest[i].key());
                }
                if holds_key(fewer, rest[i].key()) {
                    let k = choose|k: int|
                        0 <= k < fewer.len() && (#[trigger] fewer[k]).key() == rest[i].key();
                    assert(some[k].key() == rest[i].key());
                }
            }
            lemma_same_filter(rest, keep, keep_fewer);
            assert(!keep(last));
        } else {
            assert forall|i: int| 0 <= i < some.len() implies holds_key(
                rest,
                (#[trigger] some[i]).key(),
            ) by {
                assert(holds_key(all, some[i].key()));
                let k = choose|k: int|
                    0 <= k < all.len() && (#[trigger] all[k]).key() == some[i].key();
                assert(k < rest.len());
                assert(rest[k].key() == some[i].key());
            }
            lemma_split_count(rest, some);
            assert(keep(last));
        }
    }
}

proof fn lemma_same_filter(
    s: Seq<QueuedMessage>,
    f: spec_fn(QueuedMessage) -> bool,
    g: spec_fn(QueuedMessage) -> bool,
)
    requires
        forall|i: int| 0 <= i < s.len() ==> f(#[trigger] s[i]) == g(s[i]),
    ensures
        s.filter(f) == s.filter(g),
    decreases s.len(),
{
    reveal(Seq::filter);
    if s.len() > 0 {
        let rest = s.drop_last();
        assert forall|i: int| 0 <= i < rest.len() implies f(#[trigger] rest[i]) == g(rest[i]) by {
            assert(f(s[i]) == g(s[i]));
        }
        lemma_same_filter(rest, f, g);
        assert(f(s[s.len() - 1]) == g(s[s.len() - 1]));
    }
}

/// When each contact was last synchronized, in nanoseconds of a clock that never runs back.
#[derive(Clone, Copy, Debug, PartialEq, Eq, Structural)]
pub struct SyncAttempt {
    pub contact_id: RuntimeContactId,
    pub at: u64,
}

/// The last attempt that `attempts` holds for a contact.
pub open spec fn last_attempt(attempts: Seq<SyncAttempt>, contact_id: RuntimeContactId) -> Option<
    u64,
>
    decreases attempts.len(),
{
    if attempts.len() == 0 {
        None
    } else if attempts[0].contact_id == contact_id {
        Some(attempts[0].at)
    } else {
        last_attempt(attempts.drop_first(), contact_id)
    }
}

/// A contact may be synchronized again: it was not yet, or the interval has passed.
pub open spec fn sync_due(
    attempts: Seq<SyncAttempt>,
    contact_id: RuntimeContactId,
    now: u64,
    interval: u64,
) -> bool {
    match last_attempt(attempts, contact_id) {
        None => true,
        Some(at) => (if now > at {
            now - at
        } else {
            0
        }) >= interval,
    }
}

fn attempt_index(attempts: &Vec<SyncAttempt>, contact_id: RuntimeContactId) -> (r: Option<usize>)
    ensures
        match r {
            Some(i) => {
                &&& i < attempts@.len()
                &&& attempts@[i as int].contact_id == contact_id
                &&& last_attempt(attempts@, contact_id) == Some(attempts@[i as int].at)
                &&& forall|j: int| 0 <= j < i ==> (#[trigger] attempts@[j]).contact_id != contact_id
            },
            None => {
                &&& last_attempt(attempts@, contact_id) is None
                &&& forall|j: int|
                    0 <= j < attempts@.len() ==> (#[trigger] attempts@[j]).contact_id != contact_id
            },
        },
{
    let mut i: usize = 0;
    assert(attempts@.skip(0) == attempts@);
    while i < attempts.len()
        invariant
            i <= attempts.len(),
            last_attempt(attempts@, contact_id) == last_attempt(
                attempts@.skip(i as int),
                contact_id,
            ),
            forall|j: int| 0 <= j < i ==> (#[trigger] attempts@[j]).contact_id != contact_id,
        decreases attempts.len() - i,
    {
        if attempts[i].contact_id == contact_id {
            return Some(i);
        }
        assert(attempts@.skip(i as int).drop_first() == attempts@.skip(i + 1));
        i += 1;
    }
    None
}

proof fn lemma_last_attempt_at(attempts: Seq<SyncAttempt>, contact_id: RuntimeContactId, i: int)
    requires
        0 <= i < attempts.len(),
        attempts[i].contact_id == contact_id,
        forall|j: int| 0 <= j < i ==> (#[trigger] attempts[j]).contact_id != contact_id,
    ensures
        last_attempt(attempts, contact_id) == Some(attempts[i].at),
    decreases attempts.len(),
{
    if i > 0 {
        assert(attempts[0].contact_id != contact_id);
        let rest = attempts.drop_first();
        assert forall|j: int| 0 <= j < i - 1 implies (#[trigger] rest[j]).contact_id
            != contact_id by {
            assert(attempts[j + 1].contact_id != contact_id);
        }
        lemma_last_attempt_at(rest, contact_id, i - 1);
    }
}

proof fn lemma_other_attempts(
    before: Seq<SyncAttempt>,
    after: Seq<SyncAttempt>,
    contact_id: RuntimeContactId,
    other: RuntimeContactId,
)
    requires
        other != contact_id,
        before.len() <= after.len() <= before.len() + 1,
        forall|j: int|
            0 <= j < before.len() ==> (#[trigger] after[j]).contact_id == before[j].contact_id && (
            after[j] == before[j] || before[j].contact_id == contact_id),
        after.len() > before.len() ==> after[before.len() as int].contact_id == contact_id,
    ensures
        last_attempt(after, other) == last_attempt(before, other),
    decreases before.len(),
{
    if before.len() == 0 {
        if after.len() > 0 {
            assert(after.drop_first().len() == 0);
        }
    } else {
        assert(after[0].contact_id == before[0].contact_id);
        let b = before.drop_first();
        let a = after.drop_first();
        assert forall|j: int| 0 <= j < b.len() implies (#[trigger] a[j]).contact_id
            == b[j].contact_id && (a[j] == b[j] || b[j].contact_id == contact_id) by {
            assert(after[j + 1].contact_id == before[j + 1].contact_id);
        }
        lemma_other_attempts(b, a, contact_id, other);
    }
}

/// Chooses the first contact, in contact-id order, whose automatic synchronization is due, and
/// notes the attempt.
pub fn attempt_runtime_contact_sync(
    contacts: &Vec<RuntimeContact>,
    attempts: &mut Vec<SyncAttempt>,
    now: u64,
    interval: u64,
) -> (r: Option<RuntimeContact>)
    ensures
        match r {
            None => {
                &&& final(attempts)@ == old(attempts)@
                &&& forall|j: int|
                    0 <= j < contacts@.len() ==> !sync_due(
                        old(attempts)@,
                        (#[trigger] contacts@[j]).contact_id,
                        now,
                        interval,
                    )
            },
            Some(contact) => {
                &&& exists|i: int|
                    {
                        &&& 0 <= i < contacts@.len()
                        &&& #[trigger] contacts@[i] == contact
                        &&& sync_due(old(attempts)@, contact.contact_id, now, interval)
                        &&& forall|j: int|
                            0 <= j < i ==> !sync_due(
                                old(attempts)@,
                                (#[trigger] contacts@[j]).contact_id,
                                now,
                                interval,
                            )
                    }
                &&& last_attempt(final(attempts)@, contact.contact_id) == Some(now)
                &&& forall|other: RuntimeContactId|
                    other != contact.contact_id ==> #[trigger] last_attempt(
                        final(attempts)@,
                        other,
                    ) == last_attempt(old(attempts)@, other)
            },
        },
{
    let ghost before = attempts@;
    let mut i: usize = 0;
    while i < contacts.len()
        invariant
            i <= contacts.len(),
            attempts@ == before,
            before == old(attempts)@,
            forall|j: int|
                0 <= j < i ==> !sync_due(
                    before,
                    (#[trigger] contacts@[j]).contact_id,
                    now,
                    interval,
                ),
        decreases contacts.len() - i,
    {
        let contact = contacts[i];
        let id = contact.contact_id;
        let at = attempt_index(attempts, id);
        let is_due = match at {
            None => true,
            Some(k) => now.saturating_sub(attempts[k].at) >= interval,
        };
        if is_due {
            match at {
                None => {
                    attempts.push(SyncAttempt { contact_id: id, at: now });
                    proof {
                        lemma_last_attempt_at(attempts@, id, before.len() as int);
                    }
                },
                Some(k) => {
                    attempts.set(k, SyncAttempt { contact_id: id, at: now });
                    proof {
                        lemma_last_attempt_at(attempts@, id, k as int);
                    }
                },
            }
            proof {
                let after = attempts@;
                assert forall|other: RuntimeContactId| other != id implies #[trigger] last_attempt(
                    after,
                    other,
                ) == last_attempt(before, other) by {
                    lemma_other_attempts(before, after, id, other);
                }
            }
            return Some(contact);
        }
        i += 1;
    }
    None
}

/// A queued message has the id.
pub open spec fn was_queued(state: RuntimeStateView, id: RuntimeQueueId) -> bool {
    exists|i: int| 0 <= i < state.queued.len() && (#[trigger] state.queued[i]).queue_id == id
}

/// An event was made of the queued message.
pub open spec fn was_materialized(state: RuntimeStateView, id: RuntimeQueueId) -> bool {
    exists|i: int|
        0 <= i < state.materialized.len() && (#[trigger] state.materialized[i]).queue_id == id
}

/// A delivery marker names the queued message.
pub open spec fn was_delivered(state: RuntimeStateView, id: RuntimeQueueId) -> bool {
    exists|i: int| 0 <= i < state.delivered.len() && (#[trigger] state.delivered[i]).queue_id == id
}

/// A contact is for the peer and the conversation.
pub open spec fn has_contact(
    state: RuntimeStateView,
    peer_account_id: AccountId,
    conversation_id: ConversationId,
) -> bool {
    exists|i: int|
        {
            &&& 0 <= i < state.contacts.len()
            &&& (#[trigger] state.contacts[i]).peer_account_id == peer_account_id
            &&& state.contacts[i].conversation_id == conversation_id
        }
}

proof fn lemma_records_by_id(state: RuntimeStateView, id: RuntimeQueueId)
    ensures
        holds_key(state.queued, plain_key(id.raw)) <==> was_queued(state, id),
        holds_key(state.materialized, plain_key(id.raw)) <==> was_materialized(state, id),
        holds_key(state.delivered, plain_key(id.raw)) <==> was_delivered(state, id),
{
    let key = plain_key(id.raw);
    if was_queued(state, id) {
        let i = choose|i: int|
            0 <= i < state.queued.len() && (#[trigger] state.queued[i]).queue_id == id;
        assert(state.queued[i].key() == key);
    }
    if was_materialized(state, id) {
        let i = choose|i: int|
            0 <= i < state.materialized.len() && (#[trigger] state.materialized[i]).queue_id == id;
        assert(state.materialized[i].key() == key);
    }
    if was_delivered(state, id) {
        let i = choose|i: int|
            0 <= i < state.delivered.len() && (#[trigger] state.delivered[i]).queue_id == id;
        assert(state.delivered[i].key() == key);
    }
    if holds_key(state.queued, key) {
        let i = choose|i: int| 0 <= i < state.queued.len() && (#[trigger] state.queued[i]).key()
            == key;
        assert(state.queued[i].queue_id == id);
    }
    if holds_key(state.materialized, key) {
        let i = choose|i: int|
            0 <= i < state.materialized.len() && (#[trigger] state.materialized[i]).key() == key;
        assert(state.materialized[i].queue_id == id);
    }
    if holds_key(state.delivered, key) {
        let i = choose|i: int|
            0 <= i < state.delivered.len() && (#[trigger] state.delivered[i]).key() == key;
        assert(state.delivered[i].queue_id == id);
    }
}

proof fn lemma_matching_contact(
    contacts: Seq<RuntimeContact>,
    peer_account_id: AccountId,
    conversation_id: ConversationId,
)
    ensures
        match matching_contact(contacts, peer_account_id, conversation_id) {
            Some(contact) => contact.peer_account_id == peer_account_id && contact.conversation_id
                == conversation_id && exists|i: int|
                {
                    &&& 0 <= i < contacts.len()
                    &&& #[trigger] contacts[i] == contact
                    &&& forall|j: int|
                        0 <= j < i ==> (#[trigger] contacts[j]).peer_account_id != peer_account_id
                            || contacts[j].conversation_id != conversation_id
                },
            None => forall|j: int|
                0 <= j < contacts.len() ==> (#[trigger] contacts[j]).peer_account_id
                    != peer_account_id || contacts[j].conversation_id != conversation_id,
        },
    decreases contacts.len(),
{
    if contacts.len() > 0 {
        let rest = contacts.drop_first();
        lemma_matching_contact(rest, peer_account_id, conversation_id);
        if contacts[0].peer_account_id == peer_account_id && contacts[0].conversation_id
            == conversation_id {
            assert(contacts[0] == matching_contact(contacts, peer_account_id, conversation_id)->0);
        } else {
            assert(forall|j: int| 0 < j < contacts.len() ==> #[trigger] contacts[j] == rest[j - 1]);
            if let Some(contact) = matching_contact(rest, peer_account_id, conversation_id) {
                let i = choose|i: int|
                    {
                        &&& 0 <= i < rest.len()
                        &&& #[trigger] rest[i] == contact
                        &&& forall|j: int|
                            0 <= j < i ==> (#[trigger] rest[j]).peer_account_id != peer_account_id
                                || rest[j].conversation_id != conversation_id
                    };
                assert(contacts[i + 1] == contact);
            }
        }
    }
}

/// A new message goes to a contact of the state that is for the asked peer and the asked
/// conversation, the first of them, and is refused for want of a contact exactly where none is
/// for both. It is queued only where no message has its id and both accounts are members.
pub proof fn new_message_goes_to_its_contact(
    state: RuntimeStateView,
    members: Seq<AccountId>,
    queue_id: RuntimeQueueId,
    conversation_id: ConversationId,
    local_account_id: AccountId,
    peer_account_id: AccountId,
    message: Seq<char>,
    existing_body: Option<Seq<char>>,
)
    ensures
        ({
            let decision = queue_decision(
                state,
                members,
                queue_id,
                conversation_id,
                local_account_id,
                peer_account_id,
                message,
                existing_body,
            );
            let new_for_contact = !was_queued(state, queue_id) && has_contact(
                state,
                peer_account_id,
                conversation_id,
            );
            &&& decision matches Ok(QueueDecision::Insert { contact }) ==> {
                &&& contact.peer_account_id == peer_account_id
                &&& contact.conversation_id == conversation_id
                &&& exists|i: int|
                    {
                        &&& 0 <= i < state.contacts.len()
                        &&& #[trigger] state.contacts[i] == contact
                        &&& forall|j: int|
                            0 <= j < i ==> (#[trigger] state.contacts[j]).peer_account_id
                                != peer_account_id || state.contacts[j].conversation_id
                                != conversation_id
                    }
            }
            &&& decision is Ok && decision->Ok_0 is Insert <==> new_for_contact && members.contains(
                local_account_id,
            ) && members.contains(peer_account_id)
            &&& decision == Err::<QueueDecision, OutboxError>(OutboxError::NoMatchingContact)
                <==> !was_queued(state, queue_id) && !has_contact(
                state,
                peer_account_id,
                conversation_id,
            )
            &&& decision == Err::<QueueDecision, OutboxError>(
                OutboxError::Participants { fault: DeliveryError::LocalNotAMember },
            ) <==> new_for_contact && !members.contains(local_account_id)
            &&& decision == Err::<QueueDecision, OutboxError>(
                OutboxError::Participants { fault: DeliveryError::PeerNotAMember },
            ) <==> new_for_contact && members.contains(local_account_id) && !members.contains(
                peer_account_id,
            )
        }),
{
    lemma_records_by_id(state, queue_id);
    lookup_finds(state.queued, plain_key(queue_id.raw));
    lemma_matching_contact(state.contacts, peer_account_id, conversation_id);
}

/// A message whose id is queued already is taken for the one that was queued, with its contact,
/// exactly where peer, conversation and body are the same; where the body cannot be opened that
/// is the error, and any difference is a reuse of the id.
pub proof fn queued_message_is_queued_once(
    state: RuntimeStateView,
    members: Seq<AccountId>,
    at: int,
    conversation_id: ConversationId,
    local_account_id: AccountId,
    peer_account_id: AccountId,
    message: Seq<char>,
    existing_body: Option<Seq<char>>,
)
    requires
        strictly_ordered(state.queued),
        0 <= at < state.queued.len(),
    ensures
        ({
            let queued = state.queued[at];
            let decision = queue_decision(
                state,
                members,
                queued.queue_id,
                conversation_id,
                local_account_id,
                peer_account_id,
                message,
                existing_body,
            );
            let same_way = queued.peer_account_id == peer_account_id && queued.conversation_id
                == conversation_id;
            &&& decision == Ok::<QueueDecision, OutboxError>(
                QueueDecision::AlreadyQueued { contact_id: queued.contact_id },
            ) <==> same_way && existing_body == Some(message)
            &&& decision == Err::<QueueDecision, OutboxError>(OutboxError::BodyUnreadable)
                <==> same_way && existing_body is None
            &&& decision == Err::<QueueDecision, OutboxError>(OutboxError::RequestReused)
                <==> !same_way || (existing_body is Some && existing_body->0 != message)
        }),
{
    lookup_gives_the_record(state.queued, at);
    assert(state.queued[at].key() == plain_key(state.queued[at].queue_id.raw));
}

/// The retry state at `at` is the last one of the queued message.
pub open spec fn is_last_retry(
    retries: Seq<RetryState>,
    queue_id: RuntimeQueueId,
    at: int,
) -> bool {
    &&& 0 <= at < retries.len()
    &&& retries[at].queue_id == queue_id
    &&& forall|j: int| at < j < retries.len() ==> (#[trigger] retries[j]).queue_id != queue_id
}

/// The latest retry state of a message is the last one that names it, and there is none exactly
/// where none names it. Where retry states are in order it has the highest generation.
pub proof fn latest_retry_is_the_last(retries: Seq<RetryState>, queue_id: RuntimeQueueId)
    ensures
        match latest_retry_of(retries, queue_id) {
            None => forall|i: int|
                0 <= i < retries.len() ==> (#[trigger] retries[i]).queue_id != queue_id,
            Some(retry) => {
                &&& exists|at: int| #[trigger]
                    is_last_retry(retries, queue_id, at) && retries[at] == retry
                &&& crate::ordered_records::in_order(retries) ==> forall|i: int|
                    0 <= i < retries.len() && (#[trigger] retries[i]).queue_id == queue_id
                        ==> retries[i].generation <= retry.generation
            },
        },
    decreases retries.len(),
{
    if retries.len() > 0 {
        let rest = retries.drop_last();
        latest_retry_is_the_last(rest, queue_id);
        if retries.last().queue_id == queue_id {
            assert(is_last_retry(retries, queue_id, retries.len() - 1));
            if crate::ordered_records::in_order(retries) {
                assert forall|i: int| 0 <= i < retries.len() && (#[trigger] retries[i]).queue_id
                    == queue_id implies retries[i].generation <= retries.last().generation by {
                    if i < retries.len() - 1 {
                        assert(!retries[retries.len() - 1].key().before(retries[i].key()));
                    }
                }
            }
        } else {
            assert(forall|j: int| 0 <= j < rest.len() ==> #[trigger] retries[j] == rest[j]);
            if let Some(retry) = latest_retry_of(rest, queue_id) {
                let at = choose|at: int| #[trigger]
                    is_last_retry(rest, queue_id, at) && rest[at] == retry;
                assert(is_last_retry(retries, queue_id, at));
                if crate::ordered_records::in_order(retries) {
                    assert forall|i: int, j: int| 0 <= i < j < rest.len() implies !(
                    #[trigger] rest[j]).key().before((#[trigger] rest[i]).key()) by {
                        assert(!retries[j].key().before(retries[i].key()));
                    }
                }
            }
        }
    }
}

/// A queued message is due exactly where it was not delivered and the last retry state that names
/// it, if one does, is over.
pub proof fn due_message_waits_for_nothing(
    state: RuntimeStateView,
    queue_id: RuntimeQueueId,
    now: u64,
)
    ensures
        due(state, queue_id, now) <==> !was_delivered(state, queue_id) && forall|at: int| #[trigger]
            is_last_retry(state.retries, queue_id, at)
                ==> state.retries[at].not_before_unix_seconds <= now,
{
    lemma_records_by_id(state, queue_id);
    latest_retry_is_the_last(state.retries, queue_id);
    if let Some(retry) = latest_retry_of(state.retries, queue_id) {
        let at = choose|at: int| #[trigger]
            is_last_retry(state.retries, queue_id, at) && state.retries[at] == retry;
        assert forall|other: int| #[trigger]
            is_last_retry(state.retries, queue_id, other) implies other == at by {
            if other < at {
                assert(state.retries[at].queue_id != queue_id);
            }
            if at < other {
                assert(state.retries[other].queue_id != queue_id);
            }
        }
    }
}

/// The pending messages are the queued ones that no delivery marker names.
pub proof fn pending_messages_were_not_delivered(state: RuntimeStateView, queued: QueuedMessage)
    ensures
        pending(state).contains(queued) <==> state.queued.contains(queued) && !was_delivered(
            state,
            queued.queue_id,
        ),
{
    lemma_records_by_id(state, queued.queue_id);
    let keep = |q: QueuedMessage| undelivered(state, q.queue_id);
    broadcast use vstd::seq_lib::group_filter_ensures;

    if state.queued.contains(queued) && keep(queued) {
        let i = choose|i: int| 0 <= i < state.queued.len() && state.queued[i] == queued;
        assert(state.queued.filter(keep).contains(state.queued[i]));
    }
    if pending(state).contains(queued) {
        let i = choose|i: int| 0 <= i < pending(state).len() && pending(state)[i] == queued;
        assert(keep(state.queued.filter(keep)[i]));
        state.queued.lemma_filter_contains_rev(keep, queued);
    }
}

/// The status of a queued message is delivered exactly where a marker names it, which then gives
/// the acknowledgement, and materialized exactly where no marker but an event does.
pub proof fn status_tells_how_far_a_message_came(
    state: RuntimeStateView,
    queued: QueuedMessage,
    marker: DeliveredMessage,
)
    requires
        strictly_ordered(state.delivered),
    ensures
        ({
            let item = status_item(state, queued);
            let delivered = was_delivered(state, queued.queue_id);
            let materialized = was_materialized(state, queued.queue_id);
            &&& item.queue_id == queued.queue_id
            &&& item.peer_account_id == queued.peer_account_id
            &&& item.conversation_id == queued.conversation_id
            &&& item.state == QueueState::Delivered <==> delivered
            &&& item.state == QueueState::Materialized <==> !delivered && materialized
            &&& item.state == QueueState::Queued <==> !delivered && !materialized
            &&& item.acknowledgement_event_id is None <==> !delivered
            &&& state.delivered.contains(marker) && marker.queue_id == queued.queue_id
                ==> item.acknowledgement_event_id == Some(marker.acknowledgement_event_id)
        }),
{
    lemma_records_by_id(state, queued.queue_id);
    lookup_finds(state.delivered, plain_key(queued.queue_id.raw));
    if state.delivered.contains(marker) && marker.queue_id == queued.queue_id {
        let i = choose|i: int| 0 <= i < state.delivered.len() && state.delivered[i] == marker;
        lookup_gives_the_record(state.delivered, i);
    }
}

/// A delivery starts from the queued message of the id, the contact that the message names and
/// the event that was made of it, if one was. It does not start exactly where no message has the
/// id, a marker names it, or the contact is gone.
pub proof fn delivery_starts_from_its_records(
    state: RuntimeStateView,
    queue_id: RuntimeQueueId,
    queued: QueuedMessage,
)
    requires
        strictly_ordered(state.queued),
    ensures
        ({
            let start = delivery_start(state, queue_id);
            &&& start == Err::<DeliveryStart, OutboxError>(OutboxError::QueueRecordDisappeared)
                <==> !was_queued(state, queue_id)
            &&& start == Err::<DeliveryStart, OutboxError>(OutboxError::AlreadyDelivered)
                <==> was_queued(state, queue_id) && was_delivered(state, queue_id)
            &&& state.queued.contains(queued) && queued.queue_id == queue_id && !was_delivered(
                state,
                queue_id,
            ) ==> (start == Err::<DeliveryStart, OutboxError>(OutboxError::ContactDisappeared)
                <==> forall|i: int|
                0 <= i < state.contacts.len() ==> (#[trigger] state.contacts[i]).contact_id
                    != queued.contact_id)
            &&& start matches Ok(found) ==> {
                &&& state.queued.contains(found.queued)
                &&& found.queued.queue_id == queue_id
                &&& state.contacts.contains(found.contact)
                &&& found.contact.contact_id == found.queued.contact_id
                &&& found.materialized is Some <==> was_materialized(state, queue_id)
                &&& found.materialized matches Some(event) ==> state.materialized.contains(event)
                    && event.queue_id == queue_id
            }
            &&& start matches Err(error) ==> error == OutboxError::QueueRecordDisappeared || error
                == OutboxError::AlreadyDelivered || error == OutboxError::ContactDisappeared
        }),
{
    let key = plain_key(queue_id.raw);
    lemma_records_by_id(state, queue_id);
    lookup_finds(state.queued, key);
    lookup_finds(state.materialized, key);
    if let Some(found) = lookup(state.queued, key) {
        lookup_finds(state.contacts, plain_key(found.contact_id.raw));
    }
    if state.queued.contains(queued) && queued.queue_id == queue_id {
        let at = choose|at: int| 0 <= at < state.queued.len() && state.queued[at] == queued;
        lookup_gives_the_record(state.queued, at);
        let contact_key = plain_key(queued.contact_id.raw);
        if holds_key(state.contacts, contact_key) {
            let i = choose|i: int|
                0 <= i < state.contacts.len() && (#[trigger] state.contacts[i]).key()
                    == contact_key;
            assert(state.contacts[i].contact_id == queued.contact_id);
        } else {
            assert forall|i: int| 0 <= i < state.contacts.len() implies (
            #[trigger] state.contacts[i]).contact_id != queued.contact_id by {
                assert(state.contacts[i].key() != contact_key);
            }
        }
    }
}

/// The cap of the first retry is the base; each generation doubles it, twenty times, up to the
/// maximum, and then it stays.
pub proof fn retry_cap_doubles(
    retry_base_seconds: u64,
    retry_max_seconds: u64,
    generation: u32,
    later: u32,
)
    requires
        1 <= generation <= 20,
        later >= 21,
    ensures
        ({
            let first = retry_cap(retry_base_seconds, retry_max_seconds, 1);
            let cap = retry_cap(retry_base_seconds, retry_max_seconds, generation);
            let next = retry_cap(retry_base_seconds, retry_max_seconds, (generation + 1) as u32);
            &&& first == if retry_base_seconds < retry_max_seconds {
                retry_base_seconds
            } else {
                retry_max_seconds
            }
            &&& next == if 2 * cap < retry_max_seconds {
                2 * cap
            } else {
                retry_max_seconds as nat
            }
            &&& retry_cap(retry_base_seconds, retry_max_seconds, later) == retry_cap(
                retry_base_seconds,
                retry_max_seconds,
                21,
            )
            &&& retry_cap(retry_base_seconds, retry_max_seconds, 0) == first
        }),
{
    vstd::arithmetic::power2::lemma2_to64();
    vstd::arithmetic::power2::lemma_pow2_unfold(generation as nat);
    let factor = pow2((generation - 1) as nat);
    assert(retry_base_seconds as nat * (2 * factor) == 2 * (retry_base_seconds as nat * factor))
        by (nonlinear_arith);
    assert(retry_base_seconds as nat * 1 == retry_base_seconds) by (nonlinear_arith);
}

/// A retry is counted one generation on, waits for a remainder of its sample above half the cap,
/// and is noted for the time that is that much later, or for the end of time.
pub proof fn retry_plan_follows_its_sample(
    plan: RetryPlan,
    state: RuntimeStateView,
    queue_id: RuntimeQueueId,
    retry_base_seconds: u64,
    retry_max_seconds: u64,
    now: u64,
)
    requires
        is_retry_plan(plan, state, queue_id, retry_base_seconds, retry_max_seconds, now),
    ensures
        match latest_retry_of(state.retries, queue_id) {
            None => plan.generation == 1,
            Some(previous) => if previous.generation < u32::MAX {
                plan.generation == previous.generation + 1
            } else {
                plan.generation == u32::MAX
            },
        },
        ({
            let cap = retry_cap(retry_base_seconds, retry_max_seconds, plan.generation);
            let sample = jitter_sample(queue_id, plan.generation);
            let above = plan.delay_seconds - cap / 2;
            &&& cap < 2 ==> plan.delay_seconds == 1
            &&& cap >= 2 ==> 0 <= above <= cap - cap / 2 && exists|turns: int|
                sample == #[trigger] (turns * (cap - cap / 2 + 1)) + above
        }),
        plan.not_before_unix_seconds == now + plan.delay_seconds || (plan.not_before_unix_seconds
            == u64::MAX && now + plan.delay_seconds > u64::MAX),
{
    let cap = retry_cap(retry_base_seconds, retry_max_seconds, plan.generation);
    let sample = jitter_sample(queue_id, plan.generation);
    let span = (cap - cap / 2 + 1) as nat;
    vstd::arithmetic::div_mod::lemma_fundamental_div_mod(sample as int, span as int);
    assert(0 <= sample % span < span) by (nonlinear_arith)
        requires
            span > 0,
    ;
    assert(span as int * (sample as int / span as int) == (sample as int / span as int) * (cap - cap
        / 2 + 1)) by (nonlinear_arith)
        requires
            span == cap - cap / 2 + 1,
    ;
}

proof fn lemma_le_bytes(value: nat, count: nat)
    requires
        value < vstd::arithmetic::power::pow(256, count),
    ensures
        le_bytes(value, count).len() == count,
        le_value(le_bytes(value, count)) == value,
    decreases count,
{
    reveal(vstd::arithmetic::power::pow);
    if count > 0 {
        let fewer = (count - 1) as nat;
        assert(value / 256 < vstd::arithmetic::power::pow(256, fewer));
        lemma_le_bytes(value / 256, fewer);
        assert(le_bytes(value, count).drop_first() == le_bytes(value / 256, fewer));
    }
}

/// Bytes give back the number that they were made of, least significant byte first.
pub proof fn bytes_give_back_their_number(value: u32)
    ensures
        le_bytes(value as nat, 4).len() == 4,
        le_value(le_bytes(value as nat, 4)) == value,
        le_bytes(value as nat, 4)[0] == value % 256,
{
    assert(vstd::arithmetic::power::pow(256, 4) == 0x1_0000_0000) by {
        reveal_with_fuel(vstd::arithmetic::power::pow, 5);
    }
    lemma_le_bytes(value as nat, 4);
}

/// The retries of two messages, or two retries of one, are spread by different inputs.
pub proof fn retries_are_spread_apart(
    queue_id: RuntimeQueueId,
    generation: u32,
    other: RuntimeQueueId,
    other_generation: u32,
)
    ensures
        jitter_input(queue_id, generation) == jitter_input(other, other_generation) <==> queue_id
            == other && generation == other_generation,
{
    bytes_give_back_their_number(generation);
    bytes_give_back_their_number(other_generation);
    crate::ids::identifiers_are_their_bytes(queue_id.raw, other.raw);
    crate::ids::identifiers_are_their_bytes(other.raw, other.raw);
    let a = jitter_input(queue_id, generation);
    let b = jitter_input(other, other_generation);
    let from = jitter_domain().len() as int;
    if a == b {
        assert(a.subrange(from, from + 32) == queue_id.raw.bytes());
        assert(b.subrange(from, from + 32) == other.raw.bytes());
        assert(a.subrange(from + 32, from + 36) == le_bytes(generation as nat, 4));
        assert(b.subrange(from + 32, from + 36) == le_bytes(other_generation as nat, 4));
    }
}

/// The sample of a retry is the number of the first eight bytes of the digest, the first byte
/// being the least significant.
pub proof fn sample_is_read_from_the_digest(queue_id: RuntimeQueueId, generation: u32)
    ensures
        ({
            let d = blake3_hash(jitter_input(queue_id, generation));
            d.len() >= 8 ==> jitter_sample(queue_id, generation) == d[0] + 0x100 * d[1] + 0x1_0000
                * d[2] + 0x100_0000 * d[3] + 0x1_0000_0000 * d[4] + 0x100_0000_0000 * d[5]
                + 0x1_0000_0000_0000 * d[6] + 0x100_0000_0000_0000 * d[7]
        }),
{
    let d = blake3_hash(jitter_input(queue_id, generation));
    if d.len() >= 8 {
        let s0 = d.take(8);
        let s1 = s0.drop_first();
        let s2 = s1.drop_first();
        let s3 = s2.drop_first();
        let s4 = s3.drop_first();
        let s5 = s4.drop_first();
        let s6 = s5.drop_first();
        let s7 = s6.drop_first();
        assert(s7.drop_first().len() == 0);
        assert(le_value(s7.drop_first()) == 0);
        assert(le_value(s7) == d[7]);
        assert(le_value(s6) == d[6] + 256 * d[7]);
        assert(le_value(s5) == d[5] + 256 * le_value(s6));
        assert(le_value(s4) == d[4] + 256 * le_value(s5));
        assert(le_value(s3) == d[3] + 256 * le_value(s4));
        assert(le_value(s2) == d[2] + 256 * le_value(s3));
        assert(le_value(s1) == d[1] + 256 * le_value(s2));
        assert(le_value(s0) == d[0] + 256 * le_value(s1));
    }
}

/// The attempt at `at` is the first that is noted for the contact.
pub open spec fn is_noted_attempt(
    attempts: Seq<SyncAttempt>,
    contact_id: RuntimeContactId,
    at: int,
) -> bool {
    &&& 0 <= at < attempts.len()
    &&& attempts[at].contact_id == contact_id
    &&& forall|j: int| 0 <= j < at ==> (#[trigger] attempts[j]).contact_id != contact_id
}

proof fn lemma_no_attempt(attempts: Seq<SyncAttempt>, contact_id: RuntimeContactId)
    ensures
        last_attempt(attempts, contact_id) is Some ==> exists|at: int| #[trigger]
            is_noted_attempt(attempts, contact_id, at),
    decreases attempts.len(),
{
    if attempts.len() > 0 {
        if attempts[0].contact_id == contact_id {
            assert(is_noted_attempt(attempts, contact_id, 0));
        } else {
            let rest = attempts.drop_first();
            lemma_no_attempt(rest, contact_id);
            if last_attempt(rest, contact_id) is Some {
                let at = choose|at: int| #[trigger] is_noted_attempt(rest, contact_id, at);
                assert(forall|j: int|
                    0 < j < attempts.len() ==> #[trigger] attempts[j] == rest[j - 1]);
                assert(is_noted_attempt(attempts, contact_id, at + 1));
            }
        }
    }
}

/// A contact is due for synchronization exactly where no attempt is noted for it, or the interval
/// has passed since the noted one; an interval of zero has always passed.
pub proof fn contact_is_due_after_the_interval(
    attempts: Seq<SyncAttempt>,
    contact_id: RuntimeContactId,
    now: u64,
    interval: u64,
)
    ensures
        sync_due(attempts, contact_id, now, interval) <==> forall|at: int| #[trigger]
            is_noted_attempt(attempts, contact_id, at) ==> interval == 0 || attempts[at].at
                + interval <= now,
{
    lemma_no_attempt(attempts, contact_id);
    if last_attempt(attempts, contact_id) is Some {
        let at = choose|at: int| #[trigger] is_noted_attempt(attempts, contact_id, at);
        lemma_last_attempt_at(attempts, contact_id, at);
        assert forall|other: int| #[trigger]
            is_noted_attempt(attempts, contact_id, other) implies other == at by {
            if other < at {
                assert(attempts[other].contact_id != contact_id);
            }
            if at < other {
                assert(attempts[at].contact_id != contact_id);
            }
        }
    } else {
        assert forall|at: int| !(#[trigger] is_noted_attempt(attempts, contact_id, at)) by {
            if is_noted_attempt(attempts, contact_id, at) {
                lemma_last_attempt_at(attempts, contact_id, at);
            }
        }
    }
}

/// What spreads the retries begins with a text of its own, closed by a zero byte; the identifier of
/// the message and the four bytes of the generation follow it.
pub proof fn retry_spread_has_its_own_purpose(queue_id: RuntimeQueueId, generation: u32)
    ensures
        jitter_input(queue_id, generation) == vstd::utf8::encode_utf8(
            "kilogram:runtime-retry-jitter:v1"@,
        ).push(0u8) + queue_id.raw.bytes() + le_bytes(generation as nat, 4),
        jitter_input(queue_id, generation).len() == 69,
{
    reveal_strlit("kilogram:runtime-retry-jitter:v1");
    reveal_strlit("kilogram:runtime-retry-jitter:v1\0");
    assert("kilogram:runtime-retry-jitter:v1\0"@ =~= "kilogram:runtime-retry-jitter:v1"@.push('\0'));
    crate::codec::closed_text_ends_in_zero("kilogram:runtime-retry-jitter:v1"@, "kilogram:runtime-retry-jitter:v1\0"@);
    bytes_give_back_their_number(generation);
    crate::ids::identifiers_are_their_bytes(queue_id.raw, queue_id.raw);
}

} // verus!
