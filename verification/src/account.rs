//! The commands on accounts, conversations, prekeys and seeded history.

use crate::delivery::{
    holds_account, participants_fault, require_conversation_participants, DeliveryError,
};
use crate::identity::DeviceCertificate;
use crate::ids::{AccountId, DeviceId, EventId};
use crate::runtime::{component_texts, path_starts_with};
use crate::text::{decimal, hex, push_decimal};
use crate::ticket::{check_descriptor_size, ticket_payload, ConnectionTicket, TicketError};
use vstd::prelude::*;

verus! {

/// Why a command is refused.
#[derive(Clone, Copy, Debug, PartialEq, Eq, Structural)]
pub enum AccountError {
    NoMembers,
    NotAMember,
    PeerNotAMember,
    PoolCountOutOfRange,
    ValidityOverflow,
    CertificateOfAnotherDevice,
    EmptyCount,
    PeerIsThisDevice,
    PeerListNotSingle,
    PoolExpired,
    PoolOfAnotherDevice,
    InventoryLimit,
}

/// The texts, one after another with a comma between two.
pub open spec fn comma_joined(texts: Seq<Seq<char>>) -> Seq<char>
    decreases texts.len(),
{
    if texts.len() == 0 {
        Seq::empty()
    } else if texts.len() == 1 {
        texts[0]
    } else {
        comma_joined(texts.drop_last()) + seq![','] + texts.last()
    }
}

/// The texts of some strings.
pub open spec fn texts_of(strings: Seq<&'static str>) -> Seq<Seq<char>> {
    strings.map_values(|text: &'static str| text@)
}

/// The names of capabilities, with a comma between two.
pub fn format_capabilities(capabilities: &[&'static str]) -> (r: String)
    ensures
        r@ == comma_joined(texts_of(capabilities@)),
{
    let mut joined = String::from_str("");
    proof {
        reveal_strlit("");
        assert(texts_of(capabilities@.take(0)) =~= Seq::empty());
        assert(joined@ =~= Seq::empty());
    }
    let mut i: usize = 0;
    while i < capabilities.len()
        invariant
            i <= capabilities@.len(),
            joined@ == comma_joined(texts_of(capabilities@.take(i as int))),
        decreases capabilities@.len() - i,
    {
        let ghost before = joined@;
        proof {
            let next = texts_of(capabilities@.take(i + 1));
            assert(next.len() == i + 1);
            assert(next.drop_last() =~= texts_of(capabilities@.take(i as int)));
            assert(next.last() == capabilities@[i as int]@);
        }
        if i > 0 {
            joined.push(',');
        }
        joined.append(capabilities[i]);
        proof {
            if i > 0 {
                assert(joined@ =~= before + seq![','] + capabilities@[i as int]@);
            } else {
                assert(joined@ =~= capabilities@[i as int]@);
            }
        }
        i += 1;
    }
    proof {
        assert(capabilities@.take(i as int) =~= capabilities@);
    }
    joined
}

/// The texts of some event identifiers.
pub open spec fn event_texts(events: Seq<EventId>) -> Seq<Seq<char>> {
    events.map_values(|event: EventId| hex(event.raw.bytes()))
}

/// The identifiers of events, with a comma between two.
pub fn format_event_ids(events: &[EventId]) -> (r: String)
    ensures
        r@ == comma_joined(event_texts(events@)),
{
    let mut joined = String::from_str("");
    proof {
        reveal_strlit("");
        assert(event_texts(events@.take(0)) =~= Seq::empty());
        assert(joined@ =~= Seq::empty());
    }
    let mut i: usize = 0;
    while i < events.len()
        invariant
            i <= events@.len(),
            joined@ == comma_joined(event_texts(events@.take(i as int))),
        decreases events@.len() - i,
    {
        let ghost before = joined@;
        let text = events[i].raw.to_text();
        proof {
            let next = event_texts(events@.take(i + 1));
            assert(next.len() == i + 1);
            assert(next.drop_last() =~= event_texts(events@.take(i as int)));
            assert(next.last() == text@);
        }
        if i > 0 {
            joined.push(',');
        }
        joined.append(text.as_str());
        proof {
            if i > 0 {
                assert(joined@ =~= before + seq![','] + text@);
            } else {
                assert(joined@ =~= text@);
            }
        }
        i += 1;
    }
    proof {
        assert(events@.take(i as int) =~= events@);
    }
    joined
}

/// Tests that accounts to add to a conversation are given.
pub fn add_conversation_members(member_accounts: &[AccountId]) -> (r: Result<(), AccountError>)
    ensures
        r == if member_accounts@.len() == 0 {
            Err(AccountError::NoMembers)
        } else {
            Ok::<(), AccountError>(())
        },
{
    if member_accounts.len() == 0 {
        return Err(AccountError::NoMembers);
    }
    Ok(())
}

/// Tests that this device's account is a member of a conversation whose membership is installed.
pub fn install_conversation_membership(members: &[AccountId], account_id: AccountId) -> (r: Result<
    (),
    AccountError,
>)
    ensures
        r == if members@.contains(account_id) {
            Ok::<(), AccountError>(())
        } else {
            Err(AccountError::NotAMember)
        },
{
    if holds_account(members, account_id) {
        Ok(())
    } else {
        Err(AccountError::NotAMember)
    }
}

/// The parameters of a published prekey pool.
#[derive(Clone, Copy, Debug, PartialEq, Eq, Structural)]
pub struct PoolParameters {
    pub count: usize,
    pub validity_seconds: u64,
}

/// Tests that prekeys may be exported: the installed certificate is this device's own.
pub fn export_ratchet_bundle(certificate_device: DeviceId, local_device: DeviceId) -> (r: Result<
    (),
    AccountError,
>)
    ensures
        r == if certificate_device != local_device {
            Err(AccountError::CertificateOfAnotherDevice)
        } else {
            Ok::<(), AccountError>(())
        },
{
    if certificate_device != local_device {
        return Err(AccountError::CertificateOfAnotherDevice);
    }
    Ok(())
}

/// Tests the parameters of a prekey pool: its size, and its validity in hours.
pub fn export_ratchet_prekey_pool(
    count: usize,
    valid_for_hours: u64,
    max_pool_size: usize,
    certificate_device: DeviceId,
    local_device: DeviceId,
) -> (r: Result<PoolParameters, AccountError>)
    ensures
        r == if !(1 <= count <= max_pool_size) {
            Err(AccountError::PoolCountOutOfRange)
        } else if valid_for_hours * 3_600 > u64::MAX {
            Err(AccountError::ValidityOverflow)
        } else if certificate_device != local_device {
            Err(AccountError::CertificateOfAnotherDevice)
        } else {
            Ok::<PoolParameters, AccountError>(
                PoolParameters { count, validity_seconds: (valid_for_hours * 3_600) as u64 },
            )
        },
{
    if count < 1 || count > max_pool_size {
        return Err(AccountError::PoolCountOutOfRange);
    }
    let validity_seconds: u64 = match valid_for_hours.checked_mul(3_600) {
        None => return Err(AccountError::ValidityOverflow),
        Some(seconds) => seconds,
    };
    if let Err(error) = export_ratchet_bundle(certificate_device, local_device) {
        return Err(error);
    }
    Ok(PoolParameters { count, validity_seconds })
}

/// What seeding a history is given.
pub struct SeedRequest {
    pub count: usize,
    pub certificate: DeviceCertificate,
    pub peer_certificate: DeviceCertificate,
    pub peer_devices: Vec<DeviceCertificate>,
    pub pool_device_id: DeviceId,
    pub pool_fresh: bool,
}

impl SeedRequest {
    /// The first reason for which no history is seeded, given the conversation's members and the
    /// events that it has.
    pub open spec fn fault(
        self,
        members: Seq<AccountId>,
        existing_count: usize,
        max_inventory: nat,
    ) -> Option<AccountError> {
        if self.count == 0 {
            Some(AccountError::EmptyCount)
        } else if self.peer_certificate.device_id == self.certificate.device_id {
            Some(AccountError::PeerIsThisDevice)
        } else if self.peer_devices@ != seq![self.peer_certificate] {
            Some(AccountError::PeerListNotSingle)
        } else if !self.pool_fresh {
            Some(AccountError::PoolExpired)
        } else if self.pool_device_id != self.peer_certificate.device_id {
            Some(AccountError::PoolOfAnotherDevice)
        } else if !members.contains(self.certificate.account_id) {
            Some(AccountError::NotAMember)
        } else if !members.contains(self.peer_certificate.account_id) {
            Some(AccountError::PeerNotAMember)
        } else if existing_count + self.count > max_inventory {
            Some(AccountError::InventoryLimit)
        } else {
            None
        }
    }

    /// Starts to seed a history after the conversation's frontier, where nothing speaks against
    /// it.
    pub fn seed_history(
        &self,
        members: &[AccountId],
        existing_count: usize,
        max_inventory: usize,
        message_prefix: String,
        frontier: Vec<EventId>,
    ) -> (r: Result<Seeding, AccountError>)
        ensures
            match self.fault(members@, existing_count, max_inventory as nat) {
                Some(error) => r matches Err(e) && e == error,
                None => r matches Ok(seeding) && seeding == (Seeding {
                    message_prefix,
                    count: self.count,
                    seeded: 0,
                    parents: frontier,
                }) && existing_count + self.count <= max_inventory,
            },
    {
        if self.count == 0 {
            return Err(AccountError::EmptyCount);
        }
        if self.peer_certificate.device_id == self.certificate.device_id {
            return Err(AccountError::PeerIsThisDevice);
        }
        if self.peer_devices.len() != 1 {
            return Err(AccountError::PeerListNotSingle);
        }
        if self.peer_devices[0] != self.peer_certificate {
            proof {
                assert(self.peer_devices@[0] != seq![self.peer_certificate][0]);
            }
            return Err(AccountError::PeerListNotSingle);
        }
        proof {
            assert(self.peer_devices@ =~= seq![self.peer_certificate]);
        }
        if !self.pool_fresh {
            return Err(AccountError::PoolExpired);
        }
        if self.pool_device_id != self.peer_certificate.device_id {
            return Err(AccountError::PoolOfAnotherDevice);
        }
        if !holds_account(members, self.certificate.account_id) {
            return Err(AccountError::NotAMember);
        }
        if !holds_account(members, self.peer_certificate.account_id) {
            return Err(AccountError::PeerNotAMember);
        }
        match existing_count.checked_add(self.count) {
            None => Err(AccountError::InventoryLimit),
            Some(total) => if total > max_inventory {
                Err(AccountError::InventoryLimit)
            } else {
                Ok(Seeding { message_prefix, count: self.count, seeded: 0, parents: frontier })
            },
        }
    }
}

/// The body of a seeded message, by its place from 1.
pub fn seeded_body(message_prefix: &str, index: usize) -> (r: String)
    ensures
        r@ == message_prefix@ + "-"@ + decimal(index as nat),
{
    let mut body = String::from_str(message_prefix);
    body.append("-");
    push_decimal(&mut body, index as u64);
    body
}

/// What a seeded event says and follows.
#[derive(Debug)]
pub struct SeededMessage {
    pub body: String,
    pub parents: Vec<EventId>,
}

impl SeededMessage {
    /// This is message `index`, from 0, of a history whose events get `ids`: the first follows
    /// the conversation's frontier, and each other the event before it.
    pub open spec fn is_message(
        self,
        message_prefix: Seq<char>,
        frontier: Seq<EventId>,
        ids: Seq<EventId>,
        index: int,
    ) -> bool {
        &&& self.body@ == message_prefix + "-"@ + decimal((index + 1) as nat)
        &&& self.parents@ == if index == 0 {
            frontier
        } else {
            seq![ids[index - 1]]
        }
    }
}

/// A history that is seeded, event by event. `parents` are those of the next event.
#[derive(Debug)]
pub struct Seeding {
    pub message_prefix: String,
    pub count: usize,
    pub seeded: usize,
    pub parents: Vec<EventId>,
}

impl Seeding {
    /// The next message, until there are as many events as were asked for.
    pub fn next_message(&self) -> (r: Option<SeededMessage>)
        ensures
            match r {
                Some(message) => {
                    &&& self.seeded < self.count
                    &&& message.body@ == self.message_prefix@ + "-"@ + decimal(
                        (self.seeded + 1) as nat,
                    )
                    &&& message.parents@ == self.parents@
                },
                None => self.seeded >= self.count,
            },
    {
        if self.seeded >= self.count {
            return None;
        }
        let body = seeded_body(self.message_prefix.as_str(), self.seeded + 1);
        let parents = vstd::slice::slice_to_vec(self.parents.as_slice());
        Some(SeededMessage { body, parents })
    }

    /// Notes the identifier that the event of the next message got.
    pub fn event_signed(&mut self, event_id: EventId)
        requires
            old(self).seeded < old(self).count,
        ensures
            final(self).message_prefix == old(self).message_prefix,
            final(self).count == old(self).count,
            final(self).seeded == old(self).seeded + 1,
            final(self).parents@ == seq![event_id],
    {
        self.seeded = self.seeded + 1;
        let mut parents: Vec<EventId> = Vec::new();
        parents.push(event_id);
        self.parents = parents;
        assert(self.parents@ =~= seq![event_id]);
    }

    /// All messages of a history that starts to be seeded, where its events get these
    /// identifiers: as many as were asked for.
    pub fn all_messages(self, ids: &[EventId]) -> (r: Vec<SeededMessage>)
        requires
            self.seeded == 0,
            ids@.len() == self.count,
        ensures
            r@.len() == self.count,
            forall|i: int|
                0 <= i < self.count ==> (#[trigger] r@[i]).is_message(
                    self.message_prefix@,
                    self.parents@,
                    ids@,
                    i,
                ),
    {
        let mut seeding = self;
        let mut messages: Vec<SeededMessage> = Vec::new();
        while seeding.seeded < seeding.count
            invariant
                seeding.message_prefix == self.message_prefix,
                seeding.count == self.count,
                seeding.seeded <= seeding.count,
                ids@.len() == self.count,
                seeding.parents@ == if seeding.seeded == 0 {
                    self.parents@
                } else {
                    seq![ids@[seeding.seeded - 1]]
                },
                messages@.len() == seeding.seeded,
                forall|i: int|
                    0 <= i < seeding.seeded ==> (#[trigger] messages@[i]).is_message(
                        self.message_prefix@,
                        self.parents@,
                        ids@,
                        i,
                    ),
            decreases seeding.count - seeding.seeded,
        {
            if let Some(message) = seeding.next_message() {
                messages.push(message);
            }
            seeding.event_signed(ids[seeding.seeded]);
        }
        messages
    }
}

/// Why a contact is not added.
#[derive(Clone, Copy, Debug, PartialEq, Eq, Structural)]
pub enum ContactError {
    Participants { fault: DeliveryError },
    DescriptorInsideState,
    Ticket { error: TicketError },
}

/// Tests that a peer's descriptor may be read for a new contact: both accounts are members of
/// the conversation, and the descriptor lies outside the state directory. Both paths are given
/// by their components, resolved.
pub fn add_runtime_contact(
    members: &[AccountId],
    local_account_id: AccountId,
    peer_account_id: AccountId,
    descriptor: &[String],
    state_directory: &[String],
) -> (r: Result<(), ContactError>)
    ensures
        r == match participants_fault(members@, local_account_id, peer_account_id) {
            Some(fault) => Err::<(), ContactError>(ContactError::Participants { fault }),
            None => if component_texts(state_directory@).is_prefix_of(
                component_texts(descriptor@),
            ) {
                Err(ContactError::DescriptorInsideState)
            } else {
                Ok(())
            },
        },
{
    if let Err(fault) = require_conversation_participants(
        members,
        local_account_id,
        peer_account_id,
    ) {
        return Err(ContactError::Participants { fault });
    }
    if path_starts_with(descriptor, state_directory) {
        return Err(ContactError::DescriptorInsideState);
    }
    Ok(())
}

/// Takes the encoding of the ticket out of a descriptor that was read.
pub fn decode_descriptor(encoded: &str, max_bytes: usize) -> (r: Result<Vec<u8>, ContactError>)
    ensures
        match r {
            Ok(bytes) => vstd::utf8::encode_utf8(encoded@).len() <= max_bytes
                && ticket_payload(encoded@) == Some(bytes@),
            Err(error) => if vstd::utf8::encode_utf8(encoded@).len() > max_bytes {
                error == (ContactError::Ticket { error: TicketError::DescriptorTooLarge })
            } else {
                ticket_payload(encoded@) is None && error == (ContactError::Ticket {
                    error: TicketError::NotBase64,
                })
            },
        },
{
    if let Err(error) = check_descriptor_size(encoded, max_bytes) {
        return Err(ContactError::Ticket { error });
    }
    match ConnectionTicket::decode(encoded) {
        Ok(bytes) => Ok(bytes),
        Err(error) => Err(ContactError::Ticket { error }),
    }
}

/// Texts are joined by one comma between each two, and none is left out.
pub proof fn joined_texts_are_separated_by_commas(first: Seq<Seq<char>>, second: Seq<Seq<char>>)
    ensures
        first.len() == 0 ==> comma_joined(first) == Seq::<char>::empty(),
        first.len() == 1 ==> comma_joined(first) == first[0],
        first.len() > 0 && second.len() > 0 ==> comma_joined(first + second) == comma_joined(first)
            + seq![','] + comma_joined(second),
    decreases second.len(),
{
    if first.len() > 0 && second.len() > 0 {
        let both = first + second;
        assert(both.last() == second.last());
        if second.len() == 1 {
            assert(both.drop_last() =~= first);
        } else {
            joined_texts_are_separated_by_commas(first, second.drop_last());
            assert(both.drop_last() =~= first + second.drop_last());
            assert(comma_joined(both) =~= comma_joined(first) + seq![','] + comma_joined(second));
        }
    }
}

/// The texts of events are those of their identifiers, one for each and in order.
pub proof fn each_event_has_its_text(events: Seq<EventId>, strings: Seq<&'static str>, at: int)
    ensures
        event_texts(events).len() == events.len(),
        0 <= at < events.len() ==> event_texts(events)[at] == hex(events[at].raw.bytes()),
        texts_of(strings).len() == strings.len(),
        0 <= at < strings.len() ==> texts_of(strings)[at] == strings[at]@,
{
}

/// History is seeded exactly where some messages are asked for, the peer is another device, the
/// only one of its list, with a fresh pool of its own, both accounts are members, and the messages
/// fit in the inventory. The first of these that fails names the error.
pub proof fn seeding_meets_every_condition(
    request: SeedRequest,
    members: Seq<AccountId>,
    existing_count: usize,
    max_inventory: nat,
)
    ensures
        ({
            let fault = request.fault(members, existing_count, max_inventory);
            let some_messages = request.count > 0;
            let two_devices = request.certificate.device_id != request.peer_certificate.device_id;
            let only_peer = request.peer_devices@.len() == 1 && request.peer_devices@[0]
                == request.peer_certificate;
            let fresh = request.pool_fresh;
            let pool_of_peer = request.peer_certificate.device_id == request.pool_device_id;
            let own_member = members.contains(request.certificate.account_id);
            let peer_member = members.contains(request.peer_certificate.account_id);
            let within_inventory = request.count + existing_count <= max_inventory;
            &&& fault == Some(AccountError::EmptyCount) <==> !some_messages
            &&& fault == Some(AccountError::PeerIsThisDevice) <==> some_messages && !two_devices
            &&& fault == Some(AccountError::PeerListNotSingle) <==> some_messages && two_devices
                && !only_peer
            &&& fault == Some(AccountError::PoolExpired) <==> some_messages && two_devices
                && only_peer && !fresh
            &&& fault == Some(AccountError::PoolOfAnotherDevice) <==> some_messages
                && two_devices && only_peer && fresh && !pool_of_peer
            &&& fault == Some(AccountError::NotAMember) <==> some_messages && two_devices
                && only_peer && fresh && pool_of_peer && !own_member
            &&& fault == Some(AccountError::PeerNotAMember) <==> some_messages && two_devices
                && only_peer && fresh && pool_of_peer && own_member && !peer_member
            &&& fault == Some(AccountError::InventoryLimit) <==> some_messages && two_devices
                && only_peer && fresh && pool_of_peer && own_member && peer_member
                && !within_inventory
            &&& fault is None <==> some_messages && two_devices && only_peer && fresh
                && pool_of_peer && own_member && peer_member && within_inventory
        }),
{
    if request.peer_devices@.len() == 1 && request.peer_devices@[0] == request.peer_certificate {
        assert(request.peer_devices@ =~= seq![request.peer_certificate]);
    }
}

/// The seeded messages are numbered from one on, behind the prefix and a hyphen, and each follows
/// the one before; the first follows what was there.
pub proof fn seeded_messages_form_a_chain(
    message: SeededMessage,
    message_prefix: Seq<char>,
    frontier: Seq<EventId>,
    ids: Seq<EventId>,
    index: int,
)
    requires
        message.is_message(message_prefix, frontier, ids, index),
        index >= 0,
    ensures
        ({
            let from = message_prefix.len() + 1;
            &&& message.body@.len() > from
            &&& message.body@.take(message_prefix.len() as int) == message_prefix
            &&& message.body@[message_prefix.len() as int] == '-'
            &&& crate::text::decimal_value(message.body@.skip(from as int)) == index + 1
            &&& crate::text::all_digits(message.body@.skip(from as int))
        }),
        index == 0 ==> message.parents@ == frontier,
        index > 0 ==> message.parents@.len() == 1 && message.parents@[0] == ids[index - 1],
{
    reveal_strlit("-");
    let number = decimal((index + 1) as nat);
    crate::text::decimal_reads_back((index + 1) as nat);
    let from = message_prefix.len() + 1;
    assert(message.body@.take(message_prefix.len() as int) =~= message_prefix);
    assert(message.body@.skip(from as int) =~= number);
}

} // verus!
