//! The runtime's append-only state: contacts, the outbox, and its retry schedule.

use crate::identity::RoutePolicy;
use crate::ids::{
    AccountId, ConversationId, DeviceId, Digest, EventId, RuntimeContactId, RuntimeQueueId,
};
use crate::ordered_records::{
    find_record, holds_key, in_order, insert_record, insert_sorted, insertion_keeps_order, lookup,
    lookup_finds, lookup_gives_the_record, plain_key, plain_record_key, strictly_ordered, Keyed,
    RecordKey,
};
use crate::runtime::component_texts;
use crate::text::{
    beginnings_and_endings, common_beginning_keeps_order, contains, ends_with, finishes_with, hex,
    occurs_at, occurs_in, padded_decimal, padded_decimals_sort_by_value, push_padded_decimal,
    same_text, text_before,
};
use vstd::arithmetic::power::pow;
use vstd::prelude::*;

verus! {

pub const MAX_RUNTIME_CONTACTS: usize = 256;

pub const MAX_RUNTIME_QUEUE_ITEMS: usize = 4_096;

pub const MAX_RUNTIME_RETRY_STATES: usize = 4_096;

/// A peer that the runtime delivers to.
#[derive(Clone, Copy, Debug, PartialEq, Eq, Structural)]
pub struct RuntimeContact {
    pub contact_id: RuntimeContactId,
    pub peer_account_id: AccountId,
    pub peer_device_id: DeviceId,
    pub conversation_id: ConversationId,
    pub route_policy: RoutePolicy,
}

impl Keyed for RuntimeContact {
    open spec fn key(&self) -> RecordKey {
        RecordKey { id: self.contact_id.raw, generation: 0 }
    }

    fn record_key(&self) -> (r: RecordKey) {
        RecordKey { id: self.contact_id.raw, generation: 0 }
    }
}

/// A message that waits in the outbox.
#[derive(Clone, Copy, Debug, PartialEq, Eq, Structural)]
pub struct QueuedMessage {
    pub queue_id: RuntimeQueueId,
    pub contact_id: RuntimeContactId,
    pub local_account_id: AccountId,
    pub local_device_id: DeviceId,
    pub peer_account_id: AccountId,
    pub conversation_id: ConversationId,
}

impl Keyed for QueuedMessage {
    open spec fn key(&self) -> RecordKey {
        RecordKey { id: self.queue_id.raw, generation: 0 }
    }

    fn record_key(&self) -> (r: RecordKey) {
        RecordKey { id: self.queue_id.raw, generation: 0 }
    }
}

/// The signed event that a queued message became. `event_digest` is the digest of the whole
/// authorized event.
#[derive(Clone, Copy, Debug, PartialEq, Eq, Structural)]
pub struct MaterializedMessage {
    pub queue_id: RuntimeQueueId,
    pub local_device_id: DeviceId,
    pub event_id: EventId,
    pub event_digest: Digest,
    pub author_device_id: DeviceId,
    pub conversation_id: ConversationId,
}

impl Keyed for MaterializedMessage {
    open spec fn key(&self) -> RecordKey {
        RecordKey { id: self.queue_id.raw, generation: 0 }
    }

    fn record_key(&self) -> (r: RecordKey) {
        RecordKey { id: self.queue_id.raw, generation: 0 }
    }
}

/// The marker that a queued message was delivered and acknowledged.
#[derive(Clone, Copy, Debug, PartialEq, Eq, Structural)]
pub struct DeliveredMessage {
    pub queue_id: RuntimeQueueId,
    pub local_device_id: DeviceId,
    pub event_id: EventId,
    pub acknowledgement_event_id: EventId,
}

impl Keyed for DeliveredMessage {
    open spec fn key(&self) -> RecordKey {
        RecordKey { id: self.queue_id.raw, generation: 0 }
    }

    fn record_key(&self) -> (r: RecordKey) {
        RecordKey { id: self.queue_id.raw, generation: 0 }
    }
}

/// One state in the retry chain of a queued message.
#[derive(Clone, Copy, Debug, PartialEq, Eq, Structural)]
pub struct RetryState {
    pub queue_id: RuntimeQueueId,
    pub local_device_id: DeviceId,
    pub generation: u32,
    pub not_before_unix_seconds: u64,
}

impl Keyed for RetryState {
    open spec fn key(&self) -> RecordKey {
        RecordKey { id: self.queue_id.raw, generation: self.generation as u64 }
    }

    fn record_key(&self) -> (r: RecordKey) {
        RecordKey { id: self.queue_id.raw, generation: self.generation as u64 }
    }
}

/// The path of a contact record below the state directory.
pub open spec fn contact_path(id: RuntimeContactId) -> Seq<char> {
    "runtime/contacts/"@ + hex(id.raw.bytes()) + ".contact"@
}

/// The path of an outbox record below the state directory.
pub open spec fn outbox_path(id: RuntimeQueueId, suffix: Seq<char>) -> Seq<char> {
    "runtime/outbox/"@ + hex(id.raw.bytes()) + suffix
}

/// The path of a retry state below the state directory.
pub open spec fn retry_path(id: RuntimeQueueId, generation: u32) -> Seq<char> {
    outbox_path(id, ".retry-"@ + padded_decimal(generation as nat, 10))
}

/// The components of the path of a contact record.
pub open spec fn contact_components(id: RuntimeContactId) -> Seq<Seq<char>> {
    seq!["runtime"@, "contacts"@, hex(id.raw.bytes()) + ".contact"@]
}

/// The components of the path of an outbox record.
pub open spec fn outbox_components(id: RuntimeQueueId, suffix: Seq<char>) -> Seq<Seq<char>> {
    seq!["runtime"@, "outbox"@, hex(id.raw.bytes()) + suffix]
}

/// The components of the path of a retry state.
pub open spec fn retry_components(id: RuntimeQueueId, generation: u32) -> Seq<Seq<char>> {
    outbox_components(id, ".retry-"@ + padded_decimal(generation as nat, 10))
}

/// A record's path is its three components with a slash between them.
pub proof fn record_paths_join_their_components(
    contact_id: RuntimeContactId,
    queue_id: RuntimeQueueId,
    suffix: Seq<char>,
)
    ensures
        ({
            let c = contact_components(contact_id);
            contact_path(contact_id) == c[0] + seq!['/'] + c[1] + seq!['/'] + c[2]
        }),
        ({
            let c = outbox_components(queue_id, suffix);
            outbox_path(queue_id, suffix) == c[0] + seq!['/'] + c[1] + seq!['/'] + c[2]
        }),
{
    reveal_strlit("runtime");
    reveal_strlit("contacts");
    reveal_strlit("outbox");
    reveal_strlit("runtime/contacts/");
    reveal_strlit("runtime/outbox/");
    let c = contact_components(contact_id);
    assert("runtime/contacts/"@ =~= c[0] + seq!['/'] + c[1] + seq!['/']);
    assert(contact_path(contact_id) =~= "runtime/contacts/"@ + c[2]);
    let o = outbox_components(queue_id, suffix);
    assert("runtime/outbox/"@ =~= o[0] + seq!['/'] + o[1] + seq!['/']);
    assert(outbox_path(queue_id, suffix) =~= "runtime/outbox/"@ + o[2]);
}

/// Whether a path has these three components, the last of which is a text and a suffix.
fn lies_at(path: &[String], directory: &str, identifier: &str, suffix: &str) -> (r: bool)
    ensures
        r == (component_texts(path@) == seq!["runtime"@, directory@, identifier@ + suffix@]),
{
    let ghost texts = component_texts(path@);
    let ghost expected = seq!["runtime"@, directory@, identifier@ + suffix@];
    if path.len() != 3 {
        assert(texts.len() != expected.len());
        return false;
    }
    let mut name = String::from_str(identifier);
    name.append(suffix);
    let same: bool = same_text(path[0].as_str(), "runtime") && same_text(path[1].as_str(), directory)
        && same_text(path[2].as_str(), name.as_str());
    proof {
        assert(texts[0] == path@[0]@ && texts[1] == path@[1]@ && texts[2] == path@[2]@);
        assert(expected[0] == "runtime"@ && expected[1] == directory@ && expected[2] == identifier@
            + suffix@);
        if same {
            assert(texts =~= expected);
        }
    }
    same
}

fn lies_in_outbox(path: &[String], queue_id: RuntimeQueueId, suffix: &str) -> (r: bool)
    ensures
        r == (component_texts(path@) == outbox_components(queue_id, suffix@)),
{
    lies_at(path, "outbox", queue_id.raw.to_text().as_str(), suffix)
}

/// The path of a contact record.
pub fn runtime_contact_relative_path(contact_id: RuntimeContactId) -> (r: String)
    ensures
        r@ == contact_path(contact_id),
{
    let mut path = String::from_str("runtime/contacts/");
    path.append(contact_id.raw.to_text().as_str());
    path.append(".contact");
    path
}

fn outbox_relative_path(queue_id: RuntimeQueueId, suffix: &str) -> (r: String)
    ensures
        r@ == outbox_path(queue_id, suffix@),
{
    let mut path = String::from_str("runtime/outbox/");
    path.append(queue_id.raw.to_text().as_str());
    path.append(suffix);
    path
}

/// The path of a queued message.
pub fn runtime_queued_relative_path(queue_id: RuntimeQueueId) -> (r: String)
    ensures
        r@ == outbox_path(queue_id, ".queued"@),
{
    outbox_relative_path(queue_id, ".queued")
}

/// The path of a materialized message.
pub fn runtime_materialized_relative_path(queue_id: RuntimeQueueId) -> (r: String)
    ensures
        r@ == outbox_path(queue_id, ".materialized"@),
{
    outbox_relative_path(queue_id, ".materialized")
}

/// The path of a delivery marker.
pub fn runtime_delivered_relative_path(queue_id: RuntimeQueueId) -> (r: String)
    ensures
        r@ == outbox_path(queue_id, ".delivered"@),
{
    outbox_relative_path(queue_id, ".delivered")
}

/// The path of a retry state.
pub fn runtime_retry_relative_path(queue_id: RuntimeQueueId, generation: u32) -> (r: String)
    ensures
        r@ == retry_path(queue_id, generation),
{
    let mut path = outbox_relative_path(queue_id, ".retry-");
    push_padded_decimal(&mut path, generation as u64, 10);
    assert(path@ == retry_path(queue_id, generation));
    path
}

/// The paths of the retry states of one message sort as texts in the order of their generations.
pub proof fn retry_paths_sort_by_generation(queue_id: RuntimeQueueId, first: u32, second: u32)
    ensures
        text_before(retry_path(queue_id, first), retry_path(queue_id, second)) <==> first < second,
{
    assert(pow(10, 10) == 10_000_000_000) by {
        reveal_with_fuel(pow, 11);
    }
    padded_decimals_sort_by_value(first as nat, second as nat, 10);
    let beginning = outbox_path(queue_id, ".retry-"@);
    let one = padded_decimal(first as nat, 10);
    let other = padded_decimal(second as nat, 10);
    common_beginning_keeps_order(beginning, one, other);
    assert(retry_path(queue_id, first) =~= beginning + one);
    assert(retry_path(queue_id, second) =~= beginning + other);
}

/// Different queue records have different paths: the path of an outbox record determines the
/// queue id, and the path of a retry state its generation too.
pub proof fn outbox_paths_are_distinct(
    a: RuntimeQueueId,
    b: RuntimeQueueId,
    suffix: Seq<char>,
    generation_a: u32,
    generation_b: u32,
)
    ensures
        outbox_path(a, suffix) == outbox_path(b, suffix) ==> a == b,
        retry_path(a, generation_a) == retry_path(b, generation_b) ==> a == b && generation_a
            == generation_b,
{
    crate::ids::identifiers_are_their_bytes(a.raw, b.raw);
    crate::ids::identifiers_are_their_bytes(b.raw, a.raw);
    crate::text::hex_is_injective(a.raw.bytes(), b.raw.bytes());
    crate::text::hex_is_injective(b.raw.bytes(), a.raw.bytes());
    let head = "runtime/outbox/"@;
    let ha = hex(a.raw.bytes());
    let hb = hex(b.raw.bytes());
    if outbox_path(a, suffix) == outbox_path(b, suffix) {
        assert(outbox_path(a, suffix).subrange(head.len() as int, head.len() as int + 64) == ha);
        assert(outbox_path(b, suffix).subrange(head.len() as int, head.len() as int + 64) == hb);
    }
    if retry_path(a, generation_a) == retry_path(b, generation_b) {
        let pa = retry_path(a, generation_a);
        let pb = retry_path(b, generation_b);
        assert(pa.subrange(head.len() as int, head.len() as int + 64) == ha);
        assert(pb.subrange(head.len() as int, head.len() as int + 64) == hb);
        let tail = head.len() + 64 + ".retry-"@.len();
        assert(pa.skip(tail as int) == padded_decimal(generation_a as nat, 10));
        assert(pb.skip(tail as int) == padded_decimal(generation_b as nat, 10));
        crate::text::padded_decimal_reads_back(generation_a as nat, 10);
        crate::text::padded_decimal_reads_back(generation_b as nat, 10);
    }
}

/// Why the runtime's state cannot be used.
#[derive(Clone, Copy, Debug, PartialEq, Eq, Structural)]
pub enum RuntimeStateError {
    NotARegularFile,
    RecordTooLarge,
    FileNameNotUtf8,
    UnknownRecord,
    Undecodable,
    ContactNotLocal,
    ContactPathMismatch,
    DuplicateContact,
    QueueOfAnotherIdentity,
    QueuePathMismatch,
    DuplicateQueue,
    MaterializationOfAnotherDevice,
    MaterializationPathMismatch,
    DuplicateMaterialization,
    DeliveryOfAnotherDevice,
    DeliveryPathMismatch,
    DuplicateDelivery,
    RetryOfAnotherDevice,
    RetryPathMismatch,
    ContactLimit,
    QueueLimit,
    RetryLimit,
    RetryChain,
    QueueContactAbsent,
    QueueContactDiffers,
    MaterializationQueueAbsent,
    MaterializationDiffers,
    DeliveryMaterializationAbsent,
    DeliveryDiffers,
}

/// The kind of a runtime record, as its file name tells it.
#[derive(Clone, Copy, Debug, PartialEq, Eq, Structural)]
pub enum RuntimeRecordKind {
    Contact,
    Queued,
    Materialized,
    Delivered,
    Retry,
}

/// A decoded runtime record. `verified_local` tells whether a contact was verified as one of
/// the local account and device.
#[derive(Clone, Copy, Debug)]
pub enum RuntimeRecord {
    Contact { contact: RuntimeContact, verified_local: bool },
    Queued(QueuedMessage),
    Materialized(MaterializedMessage),
    Delivered(DeliveredMessage),
    Retry(RetryState),
}

/// A record file: the components of its path below the state directory, its file name where that
/// is UTF-8, and its content where that could be decoded.
#[derive(Debug)]
pub struct RuntimeRecordFile {
    pub relative_path: Vec<String>,
    pub file_name: Option<String>,
    pub record: Option<RuntimeRecord>,
}

/// The kind of record that a file name stands for.
pub open spec fn kind_of(file_name: Seq<char>) -> Option<RuntimeRecordKind> {
    if finishes_with(file_name, ".contact"@) {
        Some(RuntimeRecordKind::Contact)
    } else if finishes_with(file_name, ".queued"@) {
        Some(RuntimeRecordKind::Queued)
    } else if finishes_with(file_name, ".materialized"@) {
        Some(RuntimeRecordKind::Materialized)
    } else if finishes_with(file_name, ".delivered"@) {
        Some(RuntimeRecordKind::Delivered)
    } else if occurs_in(file_name, ".retry-"@) {
        Some(RuntimeRecordKind::Retry)
    } else {
        None
    }
}

/// The kind of record that a file name stands for.
pub fn runtime_record_kind(file_name: &str) -> (r: Option<RuntimeRecordKind>)
    ensures
        r == kind_of(file_name@),
{
    if ends_with(file_name, ".contact") {
        Some(RuntimeRecordKind::Contact)
    } else if ends_with(file_name, ".queued") {
        Some(RuntimeRecordKind::Queued)
    } else if ends_with(file_name, ".materialized") {
        Some(RuntimeRecordKind::Materialized)
    } else if ends_with(file_name, ".delivered") {
        Some(RuntimeRecordKind::Delivered)
    } else if contains(file_name, ".retry-") {
        Some(RuntimeRecordKind::Retry)
    } else {
        None
    }
}

/// The runtime's state, each kind of record in key order.
#[derive(Debug)]
pub struct RuntimeStateSnapshot {
    pub contacts: Vec<RuntimeContact>,
    pub queued: Vec<QueuedMessage>,
    pub materialized: Vec<MaterializedMessage>,
    pub delivered: Vec<DeliveredMessage>,
    pub retries: Vec<RetryState>,
}

/// What a snapshot holds.
pub struct RuntimeStateView {
    pub contacts: Seq<RuntimeContact>,
    pub queued: Seq<QueuedMessage>,
    pub materialized: Seq<MaterializedMessage>,
    pub delivered: Seq<DeliveredMessage>,
    pub retries: Seq<RetryState>,
}

impl View for RuntimeStateSnapshot {
    type V = RuntimeStateView;

    open spec fn view(&self) -> RuntimeStateView {
        RuntimeStateView {
            contacts: self.contacts@,
            queued: self.queued@,
            materialized: self.materialized@,
            delivered: self.delivered@,
            retries: self.retries@,
        }
    }
}

impl RuntimeStateView {
    /// No record at all.
    pub open spec fn nothing() -> RuntimeStateView {
        RuntimeStateView {
            contacts: Seq::empty(),
            queued: Seq::empty(),
            materialized: Seq::empty(),
            delivered: Seq::empty(),
            retries: Seq::empty(),
        }
    }

    /// The state with one more record, in its place.
    pub open spec fn with(self, record: RuntimeRecord) -> RuntimeStateView {
        match record {
            RuntimeRecord::Contact { contact, .. } => RuntimeStateView {
                contacts: insert_sorted(self.contacts, contact),
                ..self
            },
            RuntimeRecord::Queued(x) => RuntimeStateView {
                queued: insert_sorted(self.queued, x),
                ..self
            },
            RuntimeRecord::Materialized(x) => RuntimeStateView {
                materialized: insert_sorted(self.materialized, x),
                ..self
            },
            RuntimeRecord::Delivered(x) => RuntimeStateView {
                delivered: insert_sorted(self.delivered, x),
                ..self
            },
            RuntimeRecord::Retry(x) => RuntimeStateView {
                retries: insert_sorted(self.retries, x),
                ..self
            },
        }
    }

    /// Every kind of record is in key order, with at most one contact, queued message,
    /// materialization and delivery for each key.
    pub open spec fn ordered(self) -> bool {
        &&& strictly_ordered(self.contacts)
        &&& strictly_ordered(self.queued)
        &&& strictly_ordered(self.materialized)
        &&& strictly_ordered(self.delivered)
        &&& in_order(self.retries)
    }

    /// Why `file` cannot join the state, if it cannot.
    pub open spec fn refuses(
        self,
        file: RuntimeRecordFile,
        local_account_id: AccountId,
        local_device_id: DeviceId,
    ) -> Option<RuntimeStateError> {
        match file.file_name {
            None => Some(RuntimeStateError::FileNameNotUtf8),
            Some(name) => match (kind_of(name@), file.record) {
                (None, _) => Some(RuntimeStateError::UnknownRecord),
                (
                    Some(RuntimeRecordKind::Contact),
                    Some(RuntimeRecord::Contact { contact, verified_local }),
                ) => if !verified_local {
                    Some(RuntimeStateError::ContactNotLocal)
                } else if component_texts(file.relative_path@) != contact_components(contact.contact_id) {
                    Some(RuntimeStateError::ContactPathMismatch)
                } else if holds_key(self.contacts, contact.key()) {
                    Some(RuntimeStateError::DuplicateContact)
                } else {
                    None
                },
                (Some(RuntimeRecordKind::Queued), Some(RuntimeRecord::Queued(x))) => if !(
                x.local_account_id == local_account_id && x.local_device_id == local_device_id) {
                    Some(RuntimeStateError::QueueOfAnotherIdentity)
                } else if component_texts(file.relative_path@) != outbox_components(
                    x.queue_id,
                    ".queued"@,
                ) {
                    Some(RuntimeStateError::QueuePathMismatch)
                } else if holds_key(self.queued, x.key()) {
                    Some(RuntimeStateError::DuplicateQueue)
                } else {
                    None
                },
                (
                    Some(RuntimeRecordKind::Materialized),
                    Some(RuntimeRecord::Materialized(x)),
                ) => if x.local_device_id != local_device_id {
                    Some(RuntimeStateError::MaterializationOfAnotherDevice)
                } else if component_texts(file.relative_path@) != outbox_components(
                    x.queue_id,
                    ".materialized"@,
                ) {
                    Some(RuntimeStateError::MaterializationPathMismatch)
                } else if holds_key(self.materialized, x.key()) {
                    Some(RuntimeStateError::DuplicateMaterialization)
                } else {
                    None
                },
                (Some(RuntimeRecordKind::Delivered), Some(RuntimeRecord::Delivered(x))) => if
                x.local_device_id != local_device_id {
                    Some(RuntimeStateError::DeliveryOfAnotherDevice)
                } else if component_texts(file.relative_path@) != outbox_components(
                    x.queue_id,
                    ".delivered"@,
                ) {
                    Some(RuntimeStateError::DeliveryPathMismatch)
                } else if holds_key(self.delivered, x.key()) {
                    Some(RuntimeStateError::DuplicateDelivery)
                } else {
                    None
                },
                (Some(RuntimeRecordKind::Retry), Some(RuntimeRecord::Retry(x))) => if
                x.local_device_id != local_device_id {
                    Some(RuntimeStateError::RetryOfAnotherDevice)
                } else if component_texts(file.relative_path@) != retry_components(
                    x.queue_id,
                    x.generation,
                ) {
                    Some(RuntimeStateError::RetryPathMismatch)
                } else {
                    None
                },
                _ => Some(RuntimeStateError::Undecodable),
            },
        }
    }
}

impl RuntimeStateSnapshot {
    fn holds_contact(&self, key: RecordKey) -> (r: bool)
        ensures
            r == holds_key(self.contacts@, key),
    {
        proof {
            lookup_finds(self.contacts@, key);
        }
        find_record(&self.contacts, key).is_some()
    }

    fn holds_queued(&self, key: RecordKey) -> (r: bool)
        ensures
            r == holds_key(self.queued@, key),
    {
        proof {
            lookup_finds(self.queued@, key);
        }
        find_record(&self.queued, key).is_some()
    }

    fn holds_materialized(&self, key: RecordKey) -> (r: bool)
        ensures
            r == holds_key(self.materialized@, key),
    {
        proof {
            lookup_finds(self.materialized@, key);
        }
        find_record(&self.materialized, key).is_some()
    }

    fn holds_delivered(&self, key: RecordKey) -> (r: bool)
        ensures
            r == holds_key(self.delivered@, key),
    {
        proof {
            lookup_finds(self.delivered@, key);
        }
        find_record(&self.delivered, key).is_some()
    }

    fn refusal(
        &self,
        file: &RuntimeRecordFile,
        local_account_id: AccountId,
        local_device_id: DeviceId,
    ) -> (r: Option<RuntimeStateError>)
        ensures
            r == self@.refuses(*file, local_account_id, local_device_id),
    {
        let kind = match &file.file_name {
            None => {
                return Some(RuntimeStateError::FileNameNotUtf8);
            },
            Some(name) => match runtime_record_kind(name.as_str()) {
                None => {
                    return Some(RuntimeStateError::UnknownRecord);
                },
                Some(kind) => kind,
            },
        };
        match (kind, file.record) {
            (
                RuntimeRecordKind::Contact,
                Some(RuntimeRecord::Contact { contact, verified_local }),
            ) => {
                if !verified_local {
                    Some(RuntimeStateError::ContactNotLocal)
                } else if !lies_at(
                    file.relative_path.as_slice(),
                    "contacts",
                    contact.contact_id.raw.to_text().as_str(),
                    ".contact",
                ) {
                    Some(RuntimeStateError::ContactPathMismatch)
                } else if self.holds_contact(contact.record_key()) {
                    Some(RuntimeStateError::DuplicateContact)
                } else {
                    None
                }
            },
            (RuntimeRecordKind::Queued, Some(RuntimeRecord::Queued(x))) => {
                if !(x.local_account_id == local_account_id && x.local_device_id
                    == local_device_id) {
                    Some(RuntimeStateError::QueueOfAnotherIdentity)
                } else if !lies_in_outbox(file.relative_path.as_slice(), x.queue_id, ".queued") {
                    Some(RuntimeStateError::QueuePathMismatch)
                } else if self.holds_queued(x.record_key()) {
                    Some(RuntimeStateError::DuplicateQueue)
                } else {
                    None
                }
            },
            (RuntimeRecordKind::Materialized, Some(RuntimeRecord::Materialized(x))) => {
                if x.local_device_id != local_device_id {
                    Some(RuntimeStateError::MaterializationOfAnotherDevice)
                } else if !lies_in_outbox(file.relative_path.as_slice(), x.queue_id, ".materialized") {
                    Some(RuntimeStateError::MaterializationPathMismatch)
                } else if self.holds_materialized(x.record_key()) {
                    Some(RuntimeStateError::DuplicateMaterialization)
                } else {
                    None
                }
            },
            (RuntimeRecordKind::Delivered, Some(RuntimeRecord::Delivered(x))) => {
                if x.local_device_id != local_device_id {
                    Some(RuntimeStateError::DeliveryOfAnotherDevice)
                } else if !lies_in_outbox(file.relative_path.as_slice(), x.queue_id, ".delivered") {
                    Some(RuntimeStateError::DeliveryPathMismatch)
                } else if self.holds_delivered(x.record_key()) {
                    Some(RuntimeStateError::DuplicateDelivery)
                } else {
                    None
                }
            },
            (RuntimeRecordKind::Retry, Some(RuntimeRecord::Retry(x))) => {
                let mut suffix = String::from_str(".retry-");
                push_padded_decimal(&mut suffix, x.generation as u64, 10);
                if x.local_device_id != local_device_id {
                    Some(RuntimeStateError::RetryOfAnotherDevice)
                } else if !lies_in_outbox(
                    file.relative_path.as_slice(),
                    x.queue_id,
                    suffix.as_str(),
                ) {
                    Some(RuntimeStateError::RetryPathMismatch)
                } else {
                    None
                }
            },
            _ => Some(RuntimeStateError::Undecodable),
        }
    }
}

/// The state that the first `count` files make up, whether or not they may join it.
pub open spec fn gathered(files: Seq<RuntimeRecordFile>, count: nat) -> RuntimeStateView
    decreases count,
{
    if count == 0 || count > files.len() {
        RuntimeStateView::nothing()
    } else {
        let before = gathered(files, (count - 1) as nat);
        match files[count - 1].record {
            Some(record) => before.with(record),
            None => before,
        }
    }
}

/// The reason for which the first of `files` that cannot join the state before it is refused.
pub open spec fn first_refusal(
    files: Seq<RuntimeRecordFile>,
    count: nat,
    local_account_id: AccountId,
    local_device_id: DeviceId,
) -> Option<RuntimeStateError>
    decreases count,
{
    if count == 0 || count > files.len() {
        None
    } else {
        match first_refusal(files, (count - 1) as nat, local_account_id, local_device_id) {
            Some(error) => Some(error),
            None => gathered(files, (count - 1) as nat).refuses(
                files[count - 1],
                local_account_id,
                local_device_id,
            ),
        }
    }
}

/// The first limit that a state exceeds.
pub open spec fn exceeded_limit(state: RuntimeStateView) -> Option<RuntimeStateError> {
    if state.contacts.len() > MAX_RUNTIME_CONTACTS {
        Some(RuntimeStateError::ContactLimit)
    } else if state.queued.len() > MAX_RUNTIME_QUEUE_ITEMS {
        Some(RuntimeStateError::QueueLimit)
    } else if state.retries.len() > MAX_RUNTIME_RETRY_STATES {
        Some(RuntimeStateError::RetryLimit)
    } else {
        None
    }
}

/// Where no file is refused, the state that they make up is in key order, with no key twice
/// but for retry states.
pub proof fn accepted_files_make_an_ordered_state(
    files: Seq<RuntimeRecordFile>,
    count: nat,
    local_account_id: AccountId,
    local_device_id: DeviceId,
)
    requires
        first_refusal(files, count, local_account_id, local_device_id) is None,
    ensures
        gathered(files, count).ordered(),
    decreases count,
{
    if count > 0 && count <= files.len() {
        let fewer = (count - 1) as nat;
        accepted_files_make_an_ordered_state(files, fewer, local_account_id, local_device_id);
        let state = gathered(files, fewer);
        lemma_strict_is_in_order(state.contacts);
        lemma_strict_is_in_order(state.queued);
        lemma_strict_is_in_order(state.materialized);
        lemma_strict_is_in_order(state.delivered);
        match files[count - 1].record {
            Some(RuntimeRecord::Contact { contact, .. }) => {
                insertion_keeps_order(state.contacts, contact);
            },
            Some(RuntimeRecord::Queued(x)) => {
                insertion_keeps_order(state.queued, x);
            },
            Some(RuntimeRecord::Materialized(x)) => {
                insertion_keeps_order(state.materialized, x);
            },
            Some(RuntimeRecord::Delivered(x)) => {
                insertion_keeps_order(state.delivered, x);
            },
            Some(RuntimeRecord::Retry(x)) => {
                insertion_keeps_order(state.retries, x);
            },
            None => {},
        }
    }
}

proof fn lemma_strict_is_in_order<T: Keyed>(s: Seq<T>)
    requires
        strictly_ordered(s),
    ensures
        in_order(s),
{
    assert forall|i: int, j: int| 0 <= i < j < s.len() implies !(#[trigger] s[j]).key().before(
        (#[trigger] s[i]).key(),
    ) by {
        assert(s[i].key().before(s[j].key()));
    }
}

/// Gathers the runtime's records from their files, in the order in which they were read. The
/// first file that is refused decides the error; the limits are tested last. The references
/// between the records are not tested yet.
pub fn gather_runtime_records(
    files: &Vec<RuntimeRecordFile>,
    local_account_id: AccountId,
    local_device_id: DeviceId,
) -> (r: Result<RuntimeStateSnapshot, RuntimeStateError>)
    ensures
        match r {
            Ok(snapshot) => {
                &&& first_refusal(
                    files@,
                    files@.len(),
                    local_account_id,
                    local_device_id,
                ) is None
                &&& exceeded_limit(snapshot@) is None
                &&& snapshot@ == gathered(files@, files@.len())
                &&& snapshot@.ordered()
            },
            Err(error) => match first_refusal(
                files@,
                files@.len(),
                local_account_id,
                local_device_id,
            ) {
                Some(refusal) => error == refusal,
                None => exceeded_limit(gathered(files@, files@.len())) == Some(error),
            },
        },
{
    let mut snapshot = RuntimeStateSnapshot {
        contacts: Vec::new(),
        queued: Vec::new(),
        materialized: Vec::new(),
        delivered: Vec::new(),
        retries: Vec::new(),
    };
    let mut i: usize = 0;
    while i < files.len()
        invariant
            i <= files.len(),
            snapshot@ == gathered(files@, i as nat),
            first_refusal(files@, i as nat, local_account_id, local_device_id) is None,
        decreases files.len() - i,
    {
        if let Some(error) = snapshot.refusal(&files[i], local_account_id, local_device_id) {
            proof {
                assert(first_refusal(files@, (i + 1) as nat, local_account_id, local_device_id)
                    == Some(error));
                lemma_refusal_stays(
                    files@,
                    (i + 1) as nat,
                    files@.len(),
                    local_account_id,
                    local_device_id,
                );
            }
            return Err(error);
        }
        match files[i].record {
            Some(RuntimeRecord::Contact { contact, .. }) => {
                insert_record(&mut snapshot.contacts, contact);
            },
            Some(RuntimeRecord::Queued(x)) => {
                insert_record(&mut snapshot.queued, x);
            },
            Some(RuntimeRecord::Materialized(x)) => {
                insert_record(&mut snapshot.materialized, x);
            },
            Some(RuntimeRecord::Delivered(x)) => {
                insert_record(&mut snapshot.delivered, x);
            },
            Some(RuntimeRecord::Retry(x)) => {
                insert_record(&mut snapshot.retries, x);
            },
            None => {},
        }
        i += 1;
    }
    if snapshot.contacts.len() > MAX_RUNTIME_CONTACTS {
        return Err(RuntimeStateError::ContactLimit);
    }
    if snapshot.queued.len() > MAX_RUNTIME_QUEUE_ITEMS {
        return Err(RuntimeStateError::QueueLimit);
    }
    if snapshot.retries.len() > MAX_RUNTIME_RETRY_STATES {
        return Err(RuntimeStateError::RetryLimit);
    }
    proof {
        accepted_files_make_an_ordered_state(
            files@,
            files@.len(),
            local_account_id,
            local_device_id,
        );
    }
    Ok(snapshot)
}

proof fn lemma_refusal_stays(
    files: Seq<RuntimeRecordFile>,
    count: nat,
    more: nat,
    local_account_id: AccountId,
    local_device_id: DeviceId,
)
    requires
        count <= more <= files.len(),
        first_refusal(files, count, local_account_id, local_device_id) is Some,
    ensures
        first_refusal(files, more, local_account_id, local_device_id) == first_refusal(
            files,
            count,
            local_account_id,
            local_device_id,
        ),
    decreases more,
{
    if count < more {
        lemma_refusal_stays(files, count, (more - 1) as nat, local_account_id, local_device_id);
    }
}

/// Why a queued message does not fit its contact.
pub open spec fn queued_fault(state: RuntimeStateView, queued: QueuedMessage) -> Option<
    RuntimeStateError,
> {
    match lookup(state.contacts, plain_key(queued.contact_id.raw)) {
        None => Some(RuntimeStateError::QueueContactAbsent),
        Some(contact) => if queued.peer_account_id == contact.peer_account_id
            && queued.conversation_id == contact.conversation_id {
            None
        } else {
            Some(RuntimeStateError::QueueContactDiffers)
        },
    }
}

/// Why a materialized message does not fit its queue record.
pub open spec fn materialized_fault(
    state: RuntimeStateView,
    materialized: MaterializedMessage,
    local_device_id: DeviceId,
) -> Option<RuntimeStateError> {
    match lookup(state.queued, plain_key(materialized.queue_id.raw)) {
        None => Some(RuntimeStateError::MaterializationQueueAbsent),
        Some(queued) => if materialized.author_device_id == local_device_id
            && materialized.conversation_id == queued.conversation_id {
            None
        } else {
            Some(RuntimeStateError::MaterializationDiffers)
        },
    }
}

/// Why a delivery marker does not fit its materialized message.
pub open spec fn delivered_fault(state: RuntimeStateView, delivered: DeliveredMessage) -> Option<
    RuntimeStateError,
> {
    match lookup(state.materialized, plain_key(delivered.queue_id.raw)) {
        None => Some(RuntimeStateError::DeliveryMaterializationAbsent),
        Some(materialized) => if materialized.event_id == delivered.event_id {
            None
        } else {
            Some(RuntimeStateError::DeliveryDiffers)
        },
    }
}

/// The first fault that `fault` finds among `items`.
pub open spec fn first_fault<T>(
    items: Seq<T>,
    fault: spec_fn(T) -> Option<RuntimeStateError>,
) -> Option<RuntimeStateError>
    decreases items.len(),
{
    if items.len() == 0 {
        None
    } else {
        match fault(items[0]) {
            Some(error) => Some(error),
            None => first_fault(items.drop_first(), fault),
        }
    }
}

/// The first broken reference of a state: retry chains first, then queued messages,
/// materialized messages and delivery markers.
pub open spec fn broken_reference(
    state: RuntimeStateView,
    local_device_id: DeviceId,
    retry_links: Seq<bool>,
) -> Option<RuntimeStateError> {
    if retry_links.len() < state.retries.len() || exists|i: int|
        0 <= i < state.retries.len() && !#[trigger] retry_links[i] {
        Some(RuntimeStateError::RetryChain)
    } else {
        match first_fault(state.queued, |q: QueuedMessage| queued_fault(state, q)) {
            Some(error) => Some(error),
            None => match first_fault(
                state.materialized,
                |m: MaterializedMessage| materialized_fault(state, m, local_device_id),
            ) {
                Some(error) => Some(error),
                None => first_fault(
                    state.delivered,
                    |d: DeliveredMessage| delivered_fault(state, d),
                ),
            },
        }
    }
}

/// Whether retry state `at` begins the chain of its queued message.
pub fn begins_retry_chain(snapshot: &RuntimeStateSnapshot, at: usize) -> (r: bool)
    requires
        at < snapshot.retries@.len(),
    ensures
        r == (at == 0 || snapshot.retries@[at - 1].queue_id != snapshot.retries@[at
            as int].queue_id),
{
    at == 0 || snapshot.retries[at - 1].queue_id != snapshot.retries[at].queue_id
}

/// The first queued message that does not fit its contact.
fn queued_reference_fault(snapshot: &RuntimeStateSnapshot) -> (r: Option<RuntimeStateError>)
    ensures
        r == first_fault(snapshot@.queued, |q: QueuedMessage| queued_fault(snapshot@, q)),
{
    let ghost state = snapshot@;
    let ghost fault = |q: QueuedMessage| queued_fault(state, q);
    let mut i: usize = 0;
    assert(state.queued.skip(0) == state.queued);
    while i < snapshot.queued.len()
        invariant
            i <= snapshot.queued.len(),
            state == snapshot@,
            fault == (|q: QueuedMessage| queued_fault(state, q)),
            first_fault(state.queued, fault) == first_fault(
                state.queued.skip(i as int),
                fault,
            ),
        decreases snapshot.queued.len() - i,
    {
        let item = snapshot.queued[i];
        assert(state.queued.skip(i as int).drop_first() == state.queued.skip(i + 1));
        match find_record(&snapshot.contacts, plain_record_key(item.contact_id.raw)) {
            None => {
                return Some(RuntimeStateError::QueueContactAbsent);
            },
            Some(contact) => {
                if !(item.peer_account_id == contact.peer_account_id && item.conversation_id
                    == contact.conversation_id) {
                    return Some(RuntimeStateError::QueueContactDiffers);
                }
            },
        }
        i += 1;
    }
    None
}

/// The first materialized message that does not fit its queue record.
fn materialized_reference_fault(snapshot: &RuntimeStateSnapshot, local_device_id: DeviceId) -> (r: Option<RuntimeStateError>)
    ensures
        r == first_fault(snapshot@.materialized, |m: MaterializedMessage| materialized_fault(snapshot@, m, local_device_id)),
{
    let ghost state = snapshot@;
    let ghost fault = |m: MaterializedMessage| materialized_fault(state, m, local_device_id);
    let mut i: usize = 0;
    assert(state.materialized.skip(0) == state.materialized);
    while i < snapshot.materialized.len()
        invariant
            i <= snapshot.materialized.len(),
            state == snapshot@,
            fault == (|m: MaterializedMessage| materialized_fault(state, m, local_device_id)),
            first_fault(state.materialized, fault) == first_fault(
                state.materialized.skip(i as int),
                fault,
            ),
        decreases snapshot.materialized.len() - i,
    {
        let item = snapshot.materialized[i];
        assert(state.materialized.skip(i as int).drop_first() == state.materialized.skip(i + 1));
        match find_record(&snapshot.queued, plain_record_key(item.queue_id.raw)) {
            None => {
                return Some(RuntimeStateError::MaterializationQueueAbsent);
            },
            Some(queued) => {
                if !(item.author_device_id == local_device_id && item.conversation_id
                    == queued.conversation_id) {
                    return Some(RuntimeStateError::MaterializationDiffers);
                }
            },
        }
        i += 1;
    }
    None
}

/// The first delivery marker that does not fit its materialized message.
fn delivered_reference_fault(snapshot: &RuntimeStateSnapshot) -> (r: Option<RuntimeStateError>)
    ensures
        r == first_fault(snapshot@.delivered, |d: DeliveredMessage| delivered_fault(snapshot@, d)),
{
    let ghost state = snapshot@;
    let ghost fault = |d: DeliveredMessage| delivered_fault(state, d);
    let mut i: usize = 0;
    assert(state.delivered.skip(0) == state.delivered);
    while i < snapshot.delivered.len()
        invariant
            i <= snapshot.delivered.len(),
            state == snapshot@,
            fault == (|d: DeliveredMessage| delivered_fault(state, d)),
            first_fault(state.delivered, fault) == first_fault(
                state.delivered.skip(i as int),
                fault,
            ),
        decreases snapshot.delivered.len() - i,
    {
        let item = snapshot.delivered[i];
        assert(state.delivered.skip(i as int).drop_first() == state.delivered.skip(i + 1));
        match find_record(&snapshot.materialized, plain_record_key(item.queue_id.raw)) {
            None => {
                return Some(RuntimeStateError::DeliveryMaterializationAbsent);
            },
            Some(materialized) => {
                if !(materialized.event_id == item.event_id) {
                    return Some(RuntimeStateError::DeliveryDiffers);
                }
            },
        }
        i += 1;
    }
    None
}

/// Tests the references between the records of a snapshot. `retry_links[i]` tells whether the
/// signature of retry state `i`, and its link to the state before it in the same chain, were
/// verified.
pub fn verify_runtime_references(
    snapshot: &RuntimeStateSnapshot,
    local_device_id: DeviceId,
    retry_links: &[bool],
) -> (r: Result<(), RuntimeStateError>)
    ensures
        match broken_reference(snapshot@, local_device_id, retry_links@) {
            None => r is Ok,
            Some(error) => r == Err::<(), _>(error),
        },
{
    if retry_links.len() < snapshot.retries.len() {
        return Err(RuntimeStateError::RetryChain);
    }
    let mut i: usize = 0;
    while i < snapshot.retries.len()
        invariant
            i <= snapshot.retries.len(),
            snapshot.retries.len() <= retry_links.len(),
            forall|j: int| 0 <= j < i ==> #[trigger] retry_links@[j],
        decreases snapshot.retries.len() - i,
    {
        if !retry_links[i] {
            return Err(RuntimeStateError::RetryChain);
        }
        i += 1;
    }
    if let Some(error) = queued_reference_fault(snapshot) {
        return Err(error);
    }
    if let Some(error) = materialized_reference_fault(snapshot, local_device_id) {
        return Err(error);
    }
    match delivered_reference_fault(snapshot) {
        Some(error) => Err(error),
        None => Ok(()),
    }
}

/// The first reason for which the runtime's state is not loaded: a file that is refused, a limit
/// that is exceeded, or a reference that is broken.
pub open spec fn load_fault(
    files: Seq<RuntimeRecordFile>,
    local_account_id: AccountId,
    local_device_id: DeviceId,
    retry_links: Seq<bool>,
) -> Option<RuntimeStateError> {
    let state = gathered(files, files.len());
    match first_refusal(files, files.len(), local_account_id, local_device_id) {
        Some(error) => Some(error),
        None => match exceeded_limit(state) {
            Some(error) => Some(error),
            None => broken_reference(state, local_device_id, retry_links),
        },
    }
}

/// Loads the runtime's state from its record files, in the order in which they were read.
/// `retry_links[i]` tells whether the signature of retry state `i`, in the order in which
/// `gather_runtime_records` gives them, and its link to the state before it in the same chain,
/// were verified.
pub fn load_runtime_state_snapshot(
    files: &Vec<RuntimeRecordFile>,
    local_account_id: AccountId,
    local_device_id: DeviceId,
    retry_links: &[bool],
) -> (r: Result<RuntimeStateSnapshot, RuntimeStateError>)
    ensures
        match load_fault(files@, local_account_id, local_device_id, retry_links@) {
            Some(error) => r matches Err(given) && given == error,
            None => {
                &&& r matches Ok(snapshot)
                &&& snapshot@ == gathered(files@, files@.len())
                &&& snapshot@.ordered()
                &&& exceeded_limit(snapshot@) is None
                &&& broken_reference(snapshot@, local_device_id, retry_links@) is None
            },
        },
{
    let snapshot = match gather_runtime_records(files, local_account_id, local_device_id) {
        Ok(snapshot) => snapshot,
        Err(error) => return Err(error),
    };
    match verify_runtime_references(&snapshot, local_device_id, retry_links) {
        Ok(()) => Ok(snapshot),
        Err(error) => Err(error),
    }
}

proof fn lemma_no_fault<T>(
    items: Seq<T>,
    fault: spec_fn(T) -> Option<RuntimeStateError>,
    i: int,
)
    requires
        first_fault(items, fault) is None,
        0 <= i < items.len(),
    ensures
        fault(items[i]) is None,
    decreases items.len(),
{
    if i > 0 {
        lemma_no_fault(items.drop_first(), fault, i - 1);
    }
}

/// In a state that was loaded, every delivered message was materialized, with the event that it
/// was delivered as; every materialized message was queued, for the same conversation; and every
/// queued message is for a known contact, with its account and its conversation.
pub proof fn loaded_records_refer_to_each_other(
    state: RuntimeStateView,
    local_device_id: DeviceId,
    retry_links: Seq<bool>,
)
    requires
        broken_reference(state, local_device_id, retry_links) is None,
    ensures
        forall|k: RecordKey| #[trigger]
            holds_key(state.delivered, k) ==> holds_key(state.materialized, k),
        forall|k: RecordKey| #[trigger]
            holds_key(state.materialized, k) ==> holds_key(state.queued, k),
        forall|i: int|
            0 <= i < state.delivered.len() ==> delivered_fault(
                state,
                #[trigger] state.delivered[i],
            ) is None,
        forall|i: int|
            0 <= i < state.materialized.len() ==> materialized_fault(
                state,
                #[trigger] state.materialized[i],
                local_device_id,
            ) is None,
        forall|i: int|
            0 <= i < state.queued.len() ==> queued_fault(state, #[trigger] state.queued[i]) is None,
        forall|i: int| 0 <= i < state.retries.len() ==> #[trigger] retry_links[i],
{
    let delivery_fault = |d: DeliveredMessage| delivered_fault(state, d);
    let event_fault = |m: MaterializedMessage| materialized_fault(state, m, local_device_id);
    let message_fault = |q: QueuedMessage| queued_fault(state, q);
    assert forall|i: int| 0 <= i < state.delivered.len() implies delivered_fault(
        state,
        #[trigger] state.delivered[i],
    ) is None by {
        lemma_no_fault(state.delivered, delivery_fault, i);
        assert(delivery_fault(state.delivered[i]) is None);
    }
    assert forall|i: int| 0 <= i < state.materialized.len() implies materialized_fault(
        state,
        #[trigger] state.materialized[i],
        local_device_id,
    ) is None by {
        lemma_no_fault(state.materialized, event_fault, i);
        assert(event_fault(state.materialized[i]) is None);
    }
    assert forall|i: int| 0 <= i < state.queued.len() implies queued_fault(
        state,
        #[trigger] state.queued[i],
    ) is None by {
        lemma_no_fault(state.queued, message_fault, i);
        assert(message_fault(state.queued[i]) is None);
    }
    assert forall|k: RecordKey| #[trigger] holds_key(state.delivered, k) implies holds_key(
        state.materialized,
        k,
    ) by {
        let i = choose|i: int| 0 <= i < state.delivered.len() && (#[trigger] state.delivered[i]).key() == k;
        assert(delivered_fault(state, state.delivered[i]) is None);
        lookup_finds(state.materialized, k);
    }
    assert forall|k: RecordKey| #[trigger] holds_key(state.materialized, k) implies holds_key(
        state.queued,
        k,
    ) by {
        let i = choose|i: int| 0 <= i < state.materialized.len() && (#[trigger] state.materialized[i]).key() == k;
        assert(materialized_fault(state, state.materialized[i], local_device_id) is None);
        lookup_finds(state.queued, k);
    }
}

/// Tests a record file before it is read: it is a regular file within the size of a record.
pub fn read_runtime_record_files(is_file: bool, is_symlink: bool, bytes: u64, max_bytes: u64) -> (r:
    Result<(), RuntimeStateError>)
    ensures
        r == if !is_file || is_symlink {
            Err(RuntimeStateError::NotARegularFile)
        } else if bytes > max_bytes {
            Err(RuntimeStateError::RecordTooLarge)
        } else {
            Ok::<(), RuntimeStateError>(())
        },
{
    if !is_file || is_symlink {
        return Err(RuntimeStateError::NotARegularFile);
    }
    if bytes > max_bytes {
        return Err(RuntimeStateError::RecordTooLarge);
    }
    Ok(())
}

/// A file holds a contact, a queued, materialized or delivered message exactly where its name ends
/// so, and a retry state exactly where it ends in none of these and has that in it.
pub proof fn file_name_tells_the_record(name: Seq<char>)
    ensures
        ({
            let contact = finishes_with(name, ".contact"@);
            let queued = finishes_with(name, ".queued"@);
            let materialized = finishes_with(name, ".materialized"@);
            let delivered = finishes_with(name, ".delivered"@);
            let retry = occurs_in(name, ".retry-"@) && !contact && !queued && !materialized
                && !delivered;
            &&& kind_of(name) == Some(RuntimeRecordKind::Contact) <==> contact
            &&& kind_of(name) == Some(RuntimeRecordKind::Queued) <==> queued
            &&& kind_of(name) == Some(RuntimeRecordKind::Materialized) <==> materialized
            &&& kind_of(name) == Some(RuntimeRecordKind::Delivered) <==> delivered
            &&& kind_of(name) == Some(RuntimeRecordKind::Retry) <==> retry
            &&& kind_of(name) is None <==> !contact && !queued && !materialized && !delivered
                && !retry
        }),
{
    reveal_strlit(".contact");
    reveal_strlit(".queued");
    reveal_strlit(".materialized");
    reveal_strlit(".delivered");
    beginnings_and_endings(name, ".contact"@, name);
    beginnings_and_endings(name, ".queued"@, name);
    beginnings_and_endings(name, ".materialized"@, name);
    beginnings_and_endings(name, ".delivered"@, name);
    let n = name.len() as int;
    assert(finishes_with(name, ".contact"@) ==> name[n - 1] == ".contact"@[7]);
    assert(finishes_with(name, ".queued"@) ==> name[n - 1] == ".queued"@[6] && name[n - 3]
        == ".queued"@[4]);
    assert(finishes_with(name, ".materialized"@) ==> name[n - 1] == ".materialized"@[12] && name[n
        - 3] == ".materialized"@[10]);
    assert(finishes_with(name, ".delivered"@) ==> name[n - 1] == ".delivered"@[9] && name[n - 3]
        == ".delivered"@[7]);
}

/// The file of a record has a name that tells the kind of the record.
pub proof fn record_files_are_named_by_kind(
    contact_id: RuntimeContactId,
    queue_id: RuntimeQueueId,
    generation: u32,
)
    ensures
        kind_of(contact_components(contact_id)[2]) == Some(RuntimeRecordKind::Contact),
        kind_of(outbox_components(queue_id, ".queued"@)[2]) == Some(RuntimeRecordKind::Queued),
        kind_of(outbox_components(queue_id, ".materialized"@)[2]) == Some(
            RuntimeRecordKind::Materialized,
        ),
        kind_of(outbox_components(queue_id, ".delivered"@)[2]) == Some(
            RuntimeRecordKind::Delivered,
        ),
        kind_of(retry_components(queue_id, generation)[2]) == Some(RuntimeRecordKind::Retry),
{
    let id = hex(queue_id.raw.bytes());
    beginnings_and_endings(id, ".contact"@, hex(contact_id.raw.bytes()));
    beginnings_and_endings(id, ".queued"@, id);
    beginnings_and_endings(id, ".materialized"@, id);
    beginnings_and_endings(id, ".delivered"@, id);
    file_name_tells_the_record(contact_components(contact_id)[2]);
    file_name_tells_the_record(outbox_components(queue_id, ".queued"@)[2]);
    file_name_tells_the_record(outbox_components(queue_id, ".materialized"@)[2]);
    file_name_tells_the_record(outbox_components(queue_id, ".delivered"@)[2]);
    let digits = padded_decimal(generation as nat, 10);
    crate::text::padded_decimal_reads_back(generation as nat, 10);
    let name = retry_components(queue_id, generation)[2];
    file_name_tells_the_record(name);
    reveal_strlit(".contact");
    reveal_strlit(".queued");
    reveal_strlit(".materialized");
    reveal_strlit(".delivered");
    beginnings_and_endings(name, ".contact"@, name);
    beginnings_and_endings(name, ".queued"@, name);
    beginnings_and_endings(name, ".materialized"@, name);
    beginnings_and_endings(name, ".delivered"@, name);
    let last = digits[digits.len() - 1];
    assert('0' <= last <= '9');
    let n = name.len() as int;
    assert(name[n - 1] == last);
    assert(finishes_with(name, ".contact"@) ==> name[n - 1] == ".contact"@[7]);
    assert(finishes_with(name, ".queued"@) ==> name[n - 1] == ".queued"@[6]);
    assert(finishes_with(name, ".materialized"@) ==> name[n - 1] == ".materialized"@[12]);
    assert(finishes_with(name, ".delivered"@) ==> name[n - 1] == ".delivered"@[9]);
    let at = id.len() as int;
    assert(name.subrange(at, at + ".retry-"@.len()) =~= ".retry-"@);
    assert(occurs_at(name, ".retry-"@, at));
}

/// The state with a record holds what it held, and that record among those of its kind.
pub proof fn record_is_kept_among_its_kind(state: RuntimeStateView, record: RuntimeRecord)
    requires
        state.ordered(),
    ensures
        ({
            let after = state.with(record);
            &&& forall|x: RuntimeContact| #[trigger]
                after.contacts.contains(x) <==> state.contacts.contains(x) || (
                record matches RuntimeRecord::Contact { contact, .. } && contact == x)
            &&& forall|x: QueuedMessage| #[trigger]
                after.queued.contains(x) <==> state.queued.contains(x) || record
                    == RuntimeRecord::Queued(x)
            &&& forall|x: MaterializedMessage| #[trigger]
                after.materialized.contains(x) <==> state.materialized.contains(x) || record
                    == RuntimeRecord::Materialized(x)
            &&& forall|x: DeliveredMessage| #[trigger]
                after.delivered.contains(x) <==> state.delivered.contains(x) || record
                    == RuntimeRecord::Delivered(x)
            &&& forall|x: RetryState| #[trigger]
                after.retries.contains(x) <==> state.retries.contains(x) || record
                    == RuntimeRecord::Retry(x)
            &&& after.contacts.len() + after.queued.len() + after.materialized.len()
                + after.delivered.len() + after.retries.len() == state.contacts.len()
                + state.queued.len() + state.materialized.len() + state.delivered.len()
                + state.retries.len() + 1
        }),
{
    lemma_strict_is_in_order(state.contacts);
    lemma_strict_is_in_order(state.queued);
    lemma_strict_is_in_order(state.materialized);
    lemma_strict_is_in_order(state.delivered);
    match record {
        RuntimeRecord::Contact { contact, .. } => insertion_keeps_order(state.contacts, contact),
        RuntimeRecord::Queued(x) => insertion_keeps_order(state.queued, x),
        RuntimeRecord::Materialized(x) => insertion_keeps_order(state.materialized, x),
        RuntimeRecord::Delivered(x) => insertion_keeps_order(state.delivered, x),
        RuntimeRecord::Retry(x) => insertion_keeps_order(state.retries, x),
    }
}

/// One of the first `count` files holds the record.
pub open spec fn was_read(files: Seq<RuntimeRecordFile>, count: nat, record: RuntimeRecord) -> bool {
    exists|i: int|
        0 <= i < count && i < files.len() && (#[trigger] files[i]).record == Some(record)
}

/// The gathered state holds exactly the messages and retry states that its files hold.
pub proof fn gathered_state_is_what_was_read(
    files: Seq<RuntimeRecordFile>,
    count: nat,
    local_account_id: AccountId,
    local_device_id: DeviceId,
)
    requires
        count <= files.len(),
        first_refusal(files, count, local_account_id, local_device_id) is None,
    ensures
        ({
            let state = gathered(files, count);
            &&& forall|x: QueuedMessage| #[trigger]
                state.queued.contains(x) <==> was_read(files, count, RuntimeRecord::Queued(x))
            &&& forall|x: MaterializedMessage| #[trigger]
                state.materialized.contains(x) <==> was_read(
                    files,
                    count,
                    RuntimeRecord::Materialized(x),
                )
            &&& forall|x: DeliveredMessage| #[trigger]
                state.delivered.contains(x) <==> was_read(files, count, RuntimeRecord::Delivered(x))
            &&& forall|x: RetryState| #[trigger]
                state.retries.contains(x) <==> was_read(files, count, RuntimeRecord::Retry(x))
            &&& forall|x: RuntimeContact| #[trigger]
                state.contacts.contains(x) <==> was_read(
                    files,
                    count,
                    RuntimeRecord::Contact { contact: x, verified_local: true },
                )
        }),
    decreases count,
{
    if count > 0 {
        let fewer = (count - 1) as nat;
        let file = files[count - 1];
        let before = gathered(files, fewer);
        gathered_state_is_what_was_read(files, fewer, local_account_id, local_device_id);
        accepted_files_make_an_ordered_state(files, fewer, local_account_id, local_device_id);
        assert(before.refuses(file, local_account_id, local_device_id) is None);
        let record = file.record->0;
        assert(file.record is Some);
        assert(record matches RuntimeRecord::Contact { verified_local, .. } ==> verified_local);
        record_is_kept_among_its_kind(before, record);
        assert forall|r: RuntimeRecord| #[trigger] was_read(files, count, r) <==> was_read(
            files,
            fewer,
            r,
        ) || record == r by {
            if was_read(files, count, r) {
                let i = choose|i: int|
                    0 <= i < count && i < files.len() && (#[trigger] files[i]).record == Some(r);
                if i < fewer {
                    assert(files[i].record == Some(r));
                }
            }
            if was_read(files, fewer, r) {
                let i = choose|i: int|
                    0 <= i < fewer && i < files.len() && (#[trigger] files[i]).record == Some(r);
                assert(files[i].record == Some(r));
            }
        }
    }
}

/// A file is taken exactly where its name is UTF-8 and tells the kind of its record, the record is
/// of this account and device, it lies at the record's own path, and no record of that key is there
/// yet; retry states may repeat.
pub proof fn taken_file_meets_every_condition(
    state: RuntimeStateView,
    file: RuntimeRecordFile,
    local_account_id: AccountId,
    local_device_id: DeviceId,
)
    ensures
        ({
            let fault = state.refuses(file, local_account_id, local_device_id);
            let kind = kind_of(file.file_name->0@);
            let path = component_texts(file.relative_path@);
            &&& fault == Some(RuntimeStateError::FileNameNotUtf8) <==> file.file_name is None
            &&& fault == Some(RuntimeStateError::UnknownRecord) <==> file.file_name is Some && kind
                is None
            &&& fault is None <==> file.file_name is Some && kind is Some && file.record is Some
                && match file.record->0 {
                RuntimeRecord::Contact { contact, verified_local } => {
                    &&& kind->0 == RuntimeRecordKind::Contact
                    &&& verified_local
                    &&& path == contact_components(contact.contact_id)
                    &&& forall|i: int|
                        0 <= i < state.contacts.len() ==> (#[trigger] state.contacts[i]).contact_id
                            != contact.contact_id
                },
                RuntimeRecord::Queued(x) => {
                    &&& kind->0 == RuntimeRecordKind::Queued
                    &&& x.local_account_id == local_account_id
                    &&& x.local_device_id == local_device_id
                    &&& path == outbox_components(x.queue_id, ".queued"@)
                    &&& forall|i: int|
                        0 <= i < state.queued.len() ==> (#[trigger] state.queued[i]).queue_id
                            != x.queue_id
                },
                RuntimeRecord::Materialized(x) => {
                    &&& kind->0 == RuntimeRecordKind::Materialized
                    &&& x.local_device_id == local_device_id
                    &&& path == outbox_components(x.queue_id, ".materialized"@)
                    &&& forall|i: int|
                        0 <= i < state.materialized.len() ==> (
                        #[trigger] state.materialized[i]).queue_id != x.queue_id
                },
                RuntimeRecord::Delivered(x) => {
                    &&& kind->0 == RuntimeRecordKind::Delivered
                    &&& x.local_device_id == local_device_id
                    &&& path == outbox_components(x.queue_id, ".delivered"@)
                    &&& forall|i: int|
                        0 <= i < state.delivered.len() ==> (#[trigger] state.delivered[i]).queue_id
                            != x.queue_id
                },
                RuntimeRecord::Retry(x) => {
                    &&& kind->0 == RuntimeRecordKind::Retry
                    &&& x.local_device_id == local_device_id
                    &&& path == retry_components(x.queue_id, x.generation)
                },
            }
        }),
{
    if file.record is Some {
        match file.record->0 {
            RuntimeRecord::Contact { contact, .. } => {
                assert forall|i: int| 0 <= i < state.contacts.len() implies ((
                #[trigger] state.contacts[i]).contact_id == contact.contact_id) == (
                state.contacts[i].key() == contact.key()) by {}
            },
            RuntimeRecord::Queued(x) => {
                assert forall|i: int| 0 <= i < state.queued.len() implies ((
                #[trigger] state.queued[i]).queue_id == x.queue_id) == (state.queued[i].key()
                    == x.key()) by {}
            },
            RuntimeRecord::Materialized(x) => {
                assert forall|i: int| 0 <= i < state.materialized.len() implies ((
                #[trigger] state.materialized[i]).queue_id == x.queue_id) == (
                state.materialized[i].key() == x.key()) by {}
            },
            RuntimeRecord::Delivered(x) => {
                assert forall|i: int| 0 <= i < state.delivered.len() implies ((
                #[trigger] state.delivered[i]).queue_id == x.queue_id) == (state.delivered[i].key()
                    == x.key()) by {}
            },
            RuntimeRecord::Retry(_) => {},
        }
    }
}

/// The first file that is refused names the refusal, and none is exactly where no file is refused
/// by the state that those before it make.
pub proof fn refusal_is_that_of_the_first_file(
    files: Seq<RuntimeRecordFile>,
    count: nat,
    local_account_id: AccountId,
    local_device_id: DeviceId,
    at: int,
)
    requires
        count <= files.len(),
    ensures
        (forall|i: int|
            0 <= i < count ==> gathered(files, i as nat).refuses(
                #[trigger] files[i],
                local_account_id,
                local_device_id,
            ) is None) ==> first_refusal(files, count, local_account_id, local_device_id) is None,
        first_refusal(files, count, local_account_id, local_device_id) is None && 0 <= at < count
            ==> gathered(files, at as nat).refuses(
            files[at],
            local_account_id,
            local_device_id,
        ) is None,
        0 <= at < count && gathered(files, at as nat).refuses(
            files[at],
            local_account_id,
            local_device_id,
        ) is Some && (forall|i: int|
            0 <= i < at ==> gathered(files, i as nat).refuses(
                #[trigger] files[i],
                local_account_id,
                local_device_id,
            ) is None) ==> first_refusal(files, count, local_account_id, local_device_id)
            == gathered(files, at as nat).refuses(files[at], local_account_id, local_device_id),
    decreases count,
{
    if count > 0 {
        refusal_is_that_of_the_first_file(
            files,
            (count - 1) as nat,
            local_account_id,
            local_device_id,
            at,
        );
    }
}

/// A state is within its limits exactly where it has at most two hundred and fifty-six contacts and
/// four thousand and ninety-six queued messages and retry states.
pub proof fn state_is_within_its_limits(state: RuntimeStateView)
    ensures
        ({
            let fault = exceeded_limit(state);
            let few_contacts = state.contacts.len() <= 256;
            let few_messages = state.queued.len() <= 4_096;
            let few_retries = state.retries.len() <= 4_096;
            &&& fault == Some(RuntimeStateError::ContactLimit) <==> !few_contacts
            &&& fault == Some(RuntimeStateError::QueueLimit) <==> few_contacts && !few_messages
            &&& fault == Some(RuntimeStateError::RetryLimit) <==> few_contacts && few_messages
                && !few_retries
            &&& fault is None <==> few_contacts && few_messages && few_retries
        }),
{
}

/// A queued message fits exactly where its contact is there, for the same peer and conversation.
pub proof fn queued_message_fits_its_contact(
    state: RuntimeStateView,
    queued: QueuedMessage,
    at: int,
)
    requires
        strictly_ordered(state.contacts),
    ensures
        queued_fault(state, queued) == Some(RuntimeStateError::QueueContactAbsent)
            <==> forall|i: int|
            0 <= i < state.contacts.len() ==> (#[trigger] state.contacts[i]).contact_id
                != queued.contact_id,
        0 <= at < state.contacts.len() && state.contacts[at].contact_id == queued.contact_id ==> (
        queued_fault(state, queued) is None <==> state.contacts[at].peer_account_id
            == queued.peer_account_id && state.contacts[at].conversation_id
            == queued.conversation_id),
        queued_fault(state, queued) matches Some(error) ==> error
            == RuntimeStateError::QueueContactAbsent || error
            == RuntimeStateError::QueueContactDiffers,
{
    let key = plain_key(queued.contact_id.raw);
    lookup_finds(state.contacts, key);
    assert forall|i: int| 0 <= i < state.contacts.len() implies ((
    #[trigger] state.contacts[i]).contact_id == queued.contact_id) == (state.contacts[i].key()
        == key) by {}
    if 0 <= at < state.contacts.len() && state.contacts[at].contact_id == queued.contact_id {
        lookup_gives_the_record(state.contacts, at);
    }
}

/// A materialized message fits exactly where its queued message is there, in the same conversation,
/// and this device wrote its event.
pub proof fn materialized_message_fits_its_queue(
    state: RuntimeStateView,
    materialized: MaterializedMessage,
    local_device_id: DeviceId,
    at: int,
)
    requires
        strictly_ordered(state.queued),
    ensures
        ({
            let fault = materialized_fault(state, materialized, local_device_id);
            &&& fault == Some(RuntimeStateError::MaterializationQueueAbsent) <==> forall|i: int|
                0 <= i < state.queued.len() ==> (#[trigger] state.queued[i]).queue_id
                    != materialized.queue_id
            &&& 0 <= at < state.queued.len() && state.queued[at].queue_id == materialized.queue_id
                ==> (fault is None <==> local_device_id == materialized.author_device_id
                && state.queued[at].conversation_id == materialized.conversation_id)
            &&& fault matches Some(error) ==> error == RuntimeStateError::MaterializationQueueAbsent
                || error == RuntimeStateError::MaterializationDiffers
        }),
{
    let key = plain_key(materialized.queue_id.raw);
    lookup_finds(state.queued, key);
    assert forall|i: int| 0 <= i < state.queued.len() implies ((#[trigger] state.queued[i]).queue_id
        == materialized.queue_id) == (state.queued[i].key() == key) by {}
    if 0 <= at < state.queued.len() && state.queued[at].queue_id == materialized.queue_id {
        lookup_gives_the_record(state.queued, at);
    }
}

/// A delivery marker fits exactly where the materialized message is there, with the same event.
pub proof fn delivered_message_fits_its_event(
    state: RuntimeStateView,
    delivered: DeliveredMessage,
    at: int,
)
    requires
        strictly_ordered(state.materialized),
    ensures
        ({
            let fault = delivered_fault(state, delivered);
            &&& fault == Some(RuntimeStateError::DeliveryMaterializationAbsent) <==> forall|i: int|
                0 <= i < state.materialized.len() ==> (#[trigger] state.materialized[i]).queue_id
                    != delivered.queue_id
            &&& 0 <= at < state.materialized.len() && state.materialized[at].queue_id
                == delivered.queue_id ==> (fault is None <==> state.materialized[at].event_id
                == delivered.event_id)
            &&& fault matches Some(error) ==> error
                == RuntimeStateError::DeliveryMaterializationAbsent || error
                == RuntimeStateError::DeliveryDiffers
        }),
{
    let key = plain_key(delivered.queue_id.raw);
    lookup_finds(state.materialized, key);
    assert forall|i: int| 0 <= i < state.materialized.len() implies ((
    #[trigger] state.materialized[i]).queue_id == delivered.queue_id) == (
    state.materialized[i].key() == key) by {}
    if 0 <= at < state.materialized.len() && state.materialized[at].queue_id == delivered.queue_id {
        lookup_gives_the_record(state.materialized, at);
    }
}

proof fn lemma_first_fault_is_none<T>(
    items: Seq<T>,
    fault: spec_fn(T) -> Option<RuntimeStateError>,
)
    requires
        forall|i: int| 0 <= i < items.len() ==> fault(#[trigger] items[i]) is None,
    ensures
        first_fault(items, fault) is None,
    decreases items.len(),
{
    if items.len() > 0 {
        let rest = items.drop_first();
        assert(fault(items[0]) is None);
        assert forall|i: int| 0 <= i < rest.len() implies fault(#[trigger] rest[i]) is None by {
            assert(fault(items[i + 1]) is None);
        }
        lemma_first_fault_is_none(rest, fault);
    }
}

/// The fault of a list is that of its first item with one.
pub proof fn first_fault_is_the_first<T>(
    items: Seq<T>,
    fault: spec_fn(T) -> Option<RuntimeStateError>,
    at: int,
)
    requires
        0 <= at < items.len(),
        fault(items[at]) is Some,
        forall|i: int| 0 <= i < at ==> fault(#[trigger] items[i]) is None,
    ensures
        first_fault(items, fault) == fault(items[at]),
    decreases items.len(),
{
    if at > 0 {
        let rest = items.drop_first();
        assert(fault(items[0]) is None);
        assert forall|i: int| 0 <= i < at - 1 implies fault(#[trigger] rest[i]) is None by {
            assert(fault(items[i + 1]) is None);
        }
        first_fault_is_the_first(rest, fault, at - 1);
    }
}

/// Every reference of a state holds.
pub open spec fn every_reference_holds(
    state: RuntimeStateView,
    local_device_id: DeviceId,
    retry_links: Seq<bool>,
) -> bool {
    &&& state.retries.len() <= retry_links.len()
    &&& forall|i: int| 0 <= i < state.retries.len() ==> #[trigger] retry_links[i]
    &&& forall|i: int|
        0 <= i < state.queued.len() ==> queued_fault(state, #[trigger] state.queued[i]) is None
    &&& forall|i: int|
        0 <= i < state.materialized.len() ==> materialized_fault(
            state,
            #[trigger] state.materialized[i],
            local_device_id,
        ) is None
    &&& forall|i: int|
        0 <= i < state.delivered.len() ==> delivered_fault(state, #[trigger] state.delivered[i])
            is None
}

/// A state is loaded exactly where no file of it is refused, it is within its limits, and every
/// reference holds; a retry chain that does not link is told before the other references.
pub proof fn state_is_loaded_exactly_where_sound(
    files: Seq<RuntimeRecordFile>,
    local_account_id: AccountId,
    local_device_id: DeviceId,
    retry_links: Seq<bool>,
)
    ensures
        ({
            let state = gathered(files, files.len());
            let refusal = first_refusal(files, files.len(), local_account_id, local_device_id);
            let fault = load_fault(files, local_account_id, local_device_id, retry_links);
            &&& refusal is Some ==> fault == refusal
            &&& refusal is None && exceeded_limit(state) is Some ==> fault == exceeded_limit(state)
            &&& refusal is None && exceeded_limit(state) is None ==> fault == broken_reference(
                state,
                local_device_id,
                retry_links,
            )
            &&& fault is None <==> refusal is None && exceeded_limit(state) is None
                && every_reference_holds(state, local_device_id, retry_links)
            &&& retry_links.len() < state.retries.len() || !(forall|i: int|
                0 <= i < state.retries.len() ==> #[trigger] retry_links[i]) ==> broken_reference(
                state,
                local_device_id,
                retry_links,
            ) == Some(RuntimeStateError::RetryChain)
        }),
{
    let state = gathered(files, files.len());
    let delivery_fault = |d: DeliveredMessage| delivered_fault(state, d);
    let event_fault = |m: MaterializedMessage| materialized_fault(state, m, local_device_id);
    let message_fault = |q: QueuedMessage| queued_fault(state, q);
    if broken_reference(state, local_device_id, retry_links) is None {
        loaded_records_refer_to_each_other(state, local_device_id, retry_links);
    }
    if every_reference_holds(state, local_device_id, retry_links) {
        assert forall|i: int| 0 <= i < state.queued.len() implies message_fault(
            #[trigger] state.queued[i],
        ) is None by {}
        assert forall|i: int| 0 <= i < state.materialized.len() implies event_fault(
            #[trigger] state.materialized[i],
        ) is None by {}
        assert forall|i: int| 0 <= i < state.delivered.len() implies delivery_fault(
            #[trigger] state.delivered[i],
        ) is None by {}
        lemma_first_fault_is_none(state.queued, message_fault);
        lemma_first_fault_is_none(state.materialized, event_fault);
        lemma_first_fault_is_none(state.delivered, delivery_fault);
    }
}

} // verus!
