//! Connection tickets: how a listening device is reached, and who may reach it.

use crate::codec::{
    base64url_bytes, base64url_capacity, base64url_char, base64url_decode, base64url_encode,
    base64url_reads_back, base64url_text, joined,
};
use crate::history_recovery::HistoryRecoveryBootstrap;
use crate::identity::{
    certificate_of, is_first_certificate, listing_is_exact, AccountDeviceList, AuthoritySnapshot,
    DeviceCertificate, RoutePolicy,
};
use crate::ids::{AccountId, DeviceId, EndpointId};
use crate::runtime_state::RuntimeContact;
use crate::text::{decimal, leading_white_space, push_decimal, trim, trimmed, trimmed_end};
use vstd::prelude::*;

verus! {

pub const TICKET_VERSION: u8 = 9;

/// Why a ticket is refused.
#[derive(Clone, Copy, Debug, PartialEq, Eq, Structural)]
pub enum TicketError {
    CertificateOfAnotherDevice,
    DirectoryUnverified,
    DirectoryOfAnotherAccount,
    CertificateNotListed,
    NoPoolForListener,
    IssuingDirectoryOfAnotherAccount,
    IssuingCertificateNotListed,
    SourceRefusesAccount,
    UnsupportedVersion { version: u8 },
    CertificateInvalid,
    SignatureInvalid,
    NotBase64,
    ListenerOfAnotherAccount,
    ListenerUnauthorized,
    RequesterNotAllowed,
    RequesterUnauthorized,
    DescriptorTooLarge,
    OtherPeerDevice,
    RoutePolicyChanged,
    NoInput,
    SeveralInputs,
}

impl TicketError {
    /// What the error says.
    pub open spec fn text(self) -> Seq<char> {
        match self {
            TicketError::CertificateOfAnotherDevice =>
                "listener certificate belongs to a different device"@,
            TicketError::DirectoryUnverified => "verify listener account prekey directory"@,
            TicketError::DirectoryOfAnotherAccount =>
                "connection ticket directory does not belong to the listener account"@,
            TicketError::CertificateNotListed =>
                "connection ticket listener certificate is absent from its signed device list"@,
            TicketError::NoPoolForListener =>
                "listener prekey directory has no pool for the listening device"@,
            TicketError::IssuingDirectoryOfAnotherAccount =>
                "listener prekey directory belongs to a different account"@,
            TicketError::IssuingCertificateNotListed =>
                "listener certificate is not present exactly in its signed device list"@,
            TicketError::SourceRefusesAccount =>
                "source ticket does not authorize this same account"@,
            TicketError::UnsupportedVersion { version } =>
                "unsupported connection ticket version: "@ + decimal(version as nat),
            TicketError::CertificateInvalid => "verify listener certificate"@,
            TicketError::SignatureInvalid => "verify listener signature on connection ticket"@,
            TicketError::NotBase64 => "decode connection ticket as base64url"@,
            TicketError::ListenerOfAnotherAccount => "verify expected listener Account ID"@,
            TicketError::ListenerUnauthorized => "verify listener Account Root authorization"@,
            TicketError::RequesterNotAllowed =>
                "runtime descriptor does not authorize this local account"@,
            TicketError::RequesterUnauthorized =>
                "local device is not authorized by the runtime descriptor"@,
            TicketError::DescriptorTooLarge => "runtime peer descriptor is too large"@,
            TicketError::OtherPeerDevice => "runtime descriptor names a different peer device"@,
            TicketError::RoutePolicyChanged => "runtime descriptor route policy changed"@,
            TicketError::NoInput => "provide either --ticket or --ticket-file"@,
            TicketError::SeveralInputs => "--ticket and --ticket-file are mutually exclusive"@,
        }
    }

    /// What the error says.
    pub fn message(self) -> (r: String)
        ensures
            r@ == self.text(),
    {
        let text = match self {
            TicketError::CertificateOfAnotherDevice =>
                "listener certificate belongs to a different device",
            TicketError::DirectoryUnverified => "verify listener account prekey directory",
            TicketError::DirectoryOfAnotherAccount =>
                "connection ticket directory does not belong to the listener account",
            TicketError::CertificateNotListed =>
                "connection ticket listener certificate is absent from its signed device list",
            TicketError::NoPoolForListener =>
                "listener prekey directory has no pool for the listening device",
            TicketError::IssuingDirectoryOfAnotherAccount =>
                "listener prekey directory belongs to a different account",
            TicketError::IssuingCertificateNotListed =>
                "listener certificate is not present exactly in its signed device list",
            TicketError::SourceRefusesAccount =>
                "source ticket does not authorize this same account",
            TicketError::UnsupportedVersion { version } => {
                let mut message = String::from_str("unsupported connection ticket version: ");
                push_decimal(&mut message, version as u64);
                return message;
            },
            TicketError::CertificateInvalid => "verify listener certificate",
            TicketError::SignatureInvalid => "verify listener signature on connection ticket",
            TicketError::NotBase64 => "decode connection ticket as base64url",
            TicketError::ListenerOfAnotherAccount => "verify expected listener Account ID",
            TicketError::ListenerUnauthorized => "verify listener Account Root authorization",
            TicketError::RequesterNotAllowed =>
                "runtime descriptor does not authorize this local account",
            TicketError::RequesterUnauthorized =>
                "local device is not authorized by the runtime descriptor",
            TicketError::DescriptorTooLarge => "runtime peer descriptor is too large",
            TicketError::OtherPeerDevice => "runtime descriptor names a different peer device",
            TicketError::RoutePolicyChanged => "runtime descriptor route policy changed",
            TicketError::NoInput => "provide either --ticket or --ticket-file",
            TicketError::SeveralInputs => "--ticket and --ticket-file are mutually exclusive",
        };
        String::from_str(text)
    }
}

/// The signed prekeys of an account's devices. `verified_now` tells whether the directory was
/// verified at the present time.
#[derive(Debug)]
pub struct PrekeyDirectory {
    pub account_id: AccountId,
    pub device_list: AccountDeviceList,
    pub pool_devices: Vec<DeviceId>,
    pub verified_now: bool,
}

impl PrekeyDirectory {
    /// Whether the directory holds prekeys of a device.
    pub fn has_pool_for(&self, device: DeviceId) -> (r: bool)
        ensures
            r == self.pool_devices@.contains(device),
    {
        let mut i: usize = 0;
        while i < self.pool_devices.len()
            invariant
                i <= self.pool_devices.len(),
                forall|j: int| 0 <= j < i ==> self.pool_devices@[j] != device,
            decreases self.pool_devices.len() - i,
        {
            if self.pool_devices[i] == device {
                assert(self.pool_devices@[i as int] == device);
                return true;
            }
            i += 1;
        }
        false
    }
}

/// What a listener signs.
#[derive(Debug)]
pub struct ConnectionTicketContent {
    pub version: u8,
    pub endpoint: EndpointId,
    pub listener_certificate: DeviceCertificate,
    pub listener_directory: PrekeyDirectory,
    pub allowed_requester_account_id: AccountId,
    pub route_policy: RoutePolicy,
}

/// A ticket. `certificate_verified` and `signature_verified` tell whether the listener's
/// certificate, and its signature over the content, were verified.
#[derive(Debug)]
pub struct ConnectionTicket {
    pub content: ConnectionTicketContent,
    pub certificate_verified: bool,
    pub signature_verified: bool,
}

/// The bytes that begin what a listener signs.
pub open spec fn ticket_signature_domain() -> Seq<u8> {
    vstd::utf8::encode_utf8("kilogram:connection-ticket-signature:v9\0"@)
}

/// The bytes that a listener signs, given the encoded content of its ticket.
pub fn ticket_signing_bytes(encoded_content: &[u8]) -> (r: Vec<u8>)
    ensures
        r@ == ticket_signature_domain() + encoded_content@,
{
    joined("kilogram:connection-ticket-signature:v9\0".as_bytes(), encoded_content)
}

/// The first reason for which a device may not issue a ticket.
pub open spec fn new_ticket_fault(
    listener_device_id: DeviceId,
    certificate: DeviceCertificate,
    directory: PrekeyDirectory,
) -> Option<TicketError> {
    if certificate.device_id != listener_device_id {
        Some(TicketError::CertificateOfAnotherDevice)
    } else if !directory.verified_now {
        Some(TicketError::DirectoryUnverified)
    } else if directory.account_id != certificate.account_id {
        Some(TicketError::IssuingDirectoryOfAnotherAccount)
    } else if certificate_of(directory.device_list.certificates@, listener_device_id) != Some(
        certificate,
    ) {
        Some(TicketError::IssuingCertificateNotListed)
    } else if !directory.pool_devices@.contains(listener_device_id) {
        Some(TicketError::NoPoolForListener)
    } else {
        None
    }
}

/// The text of an encoded ticket decodes to these bytes.
pub open spec fn ticket_payload(text: Seq<char>) -> Option<Seq<u8>> {
    base64url_bytes(trimmed(text))
}

impl ConnectionTicket {
    /// The content of a ticket that a device signs, where it may issue one with its certificate
    /// and its account's directory.
    pub fn new(
        endpoint: EndpointId,
        listener_device_id: DeviceId,
        listener_certificate: DeviceCertificate,
        listener_directory: PrekeyDirectory,
        allowed_requester_account_id: AccountId,
        route_policy: RoutePolicy,
    ) -> (r: Result<ConnectionTicketContent, TicketError>)
        ensures
            match new_ticket_fault(listener_device_id, listener_certificate, listener_directory) {
                Some(error) => r matches Err(e) && e == error,
                None => r matches Ok(content) && content == (ConnectionTicketContent {
                    version: TICKET_VERSION,
                    endpoint,
                    listener_certificate,
                    listener_directory,
                    allowed_requester_account_id,
                    route_policy,
                }),
            },
    {
        if listener_certificate.device_id != listener_device_id {
            return Err(TicketError::CertificateOfAnotherDevice);
        }
        if !listener_directory.verified_now {
            return Err(TicketError::DirectoryUnverified);
        }
        if listener_directory.account_id != listener_certificate.account_id {
            return Err(TicketError::IssuingDirectoryOfAnotherAccount);
        }
        match listener_directory.device_list.certificate_for(listener_device_id) {
            None => {
                return Err(TicketError::IssuingCertificateNotListed);
            },
            Some(certificate) => {
                if certificate != listener_certificate {
                    return Err(TicketError::IssuingCertificateNotListed);
                }
            },
        }
        if !listener_directory.has_pool_for(listener_device_id) {
            return Err(TicketError::NoPoolForListener);
        }
        Ok(
            ConnectionTicketContent {
                version: TICKET_VERSION,
                endpoint,
                listener_certificate,
                listener_directory,
                allowed_requester_account_id,
                route_policy,
            },
        )
    }

    /// The first reason for which the ticket is not valid.
    pub open spec fn fault(self) -> Option<TicketError> {
        if self.content.version != TICKET_VERSION {
            Some(TicketError::UnsupportedVersion { version: self.content.version })
        } else if !self.certificate_verified {
            Some(TicketError::CertificateInvalid)
        } else if !self.content.listener_directory.verified_now {
            Some(TicketError::DirectoryUnverified)
        } else if self.content.listener_directory.account_id != self.content.listener_certificate.account_id {
            Some(TicketError::DirectoryOfAnotherAccount)
        } else if certificate_of(
            self.content.listener_directory.device_list.certificates@,
            self.content.listener_certificate.device_id,
        ) != Some(self.content.listener_certificate) {
            Some(TicketError::CertificateNotListed)
        } else if !self.signature_verified {
            Some(TicketError::SignatureInvalid)
        } else {
            None
        }
    }

    /// Tests the ticket.
    pub fn verify(&self) -> (r: Result<(), TicketError>)
        ensures
            match self.fault() {
                None => r is Ok,
                Some(error) => r == Err::<(), TicketError>(error),
            },
    {
        if self.content.version != TICKET_VERSION {
            return Err(TicketError::UnsupportedVersion { version: self.content.version });
        }
        if !self.certificate_verified {
            return Err(TicketError::CertificateInvalid);
        }
        if !self.content.listener_directory.verified_now {
            return Err(TicketError::DirectoryUnverified);
        }
        if self.content.listener_directory.account_id != self.content.listener_certificate.account_id {
            return Err(TicketError::DirectoryOfAnotherAccount);
        }
        match self.content.listener_directory.device_list.certificate_for(
            self.content.listener_certificate.device_id,
        ) {
            None => {
                return Err(TicketError::CertificateNotListed);
            },
            Some(certificate) => {
                if certificate != self.content.listener_certificate {
                    return Err(TicketError::CertificateNotListed);
                }
            },
        }
        if !self.signature_verified {
            return Err(TicketError::SignatureInvalid);
        }
        Ok(())
    }

    /// The text of a valid ticket, given its encoding.
    pub fn encode(&self, encoded: &[u8]) -> (r: Result<String, TicketError>)
        requires
            encoded@.len() <= base64url_capacity(),
        ensures
            match self.fault() {
                Some(error) => r == Err::<String, TicketError>(error),
                None => r matches Ok(text) && text@ == base64url_text(encoded@)
                    && ticket_payload(text@) == Some(encoded@),
            },
    {
        if let Err(error) = self.verify() {
            return Err(error);
        }
        let text = base64url_encode(encoded);
        proof {
            lemma_base64_is_trimmed(text@);
        }
        Ok(text)
    }

    /// The encoding that a ticket's text carries.
    pub fn decode(encoded: &str) -> (r: Result<Vec<u8>, TicketError>)
        ensures
            match r {
                Ok(bytes) => ticket_payload(encoded@) == Some(bytes@),
                Err(error) => ticket_payload(encoded@) is None && error == TicketError::NotBase64,
            },
    {
        match base64url_decode(trim(encoded).as_str()) {
            Some(bytes) => Ok(bytes),
            None => Err(TicketError::NotBase64),
        }
    }

    /// The account of the listener.
    pub fn listener_account_id(&self) -> (r: AccountId)
        ensures
            r == self.content.listener_certificate.account_id,
    {
        self.content.listener_certificate.account_id
    }

    /// The device of the listener.
    pub fn listener_device_id(&self) -> (r: DeviceId)
        ensures
            r == self.content.listener_certificate.device_id,
    {
        self.content.listener_certificate.device_id
    }

    /// The authority snapshot that the ticket embeds.
    pub fn listener_authority_snapshot(&self) -> (r: AuthoritySnapshot)
        ensures
            r == self.content.listener_directory.device_list.authority,
    {
        self.content.listener_directory.device_list.authority
    }

    /// Tests the ticket, and that it belongs to the expected account: `authority_verified`
    /// tells whether its authority snapshot was verified for that account.
    pub fn verify_listener_account(&self, authority_verified: bool) -> (r: Result<(), TicketError>)
        ensures
            match self.fault() {
                Some(error) => r == Err::<(), TicketError>(error),
                None => r == if authority_verified {
                    Ok::<(), TicketError>(())
                } else {
                    Err(TicketError::ListenerOfAnotherAccount)
                },
            },
    {
        if let Err(error) = self.verify() {
            return Err(error);
        }
        if authority_verified {
            Ok(())
        } else {
            Err(TicketError::ListenerOfAnotherAccount)
        }
    }

    /// Tests the ticket, and that its listener may exchange messages for the expected account:
    /// `listener_authorized` tells whether the authority snapshot authorizes its certificate.
    pub fn verify_listener_authorization(&self, listener_authorized: bool) -> (r: Result<
        DeviceId,
        TicketError,
    >)
        ensures
            match self.fault() {
                Some(error) => r == Err::<DeviceId, TicketError>(error),
                None => r == if listener_authorized {
                    Ok::<DeviceId, TicketError>(self.content.listener_certificate.device_id)
                } else {
                    Err(TicketError::ListenerUnauthorized)
                },
            },
    {
        if let Err(error) = self.verify() {
            return Err(error);
        }
        if listener_authorized {
            Ok(self.content.listener_certificate.device_id)
        } else {
            Err(TicketError::ListenerUnauthorized)
        }
    }

    /// The first reason for which the ticket does not serve a contact of the runtime.
    pub open spec fn contact_fault(
        self,
        contact: RuntimeContact,
        local_account_id: AccountId,
        checks: ContactChecks,
    ) -> Option<TicketError> {
        match self.fault() {
            Some(error) => Some(error),
            None => if !checks.authority_verified {
                Some(TicketError::ListenerOfAnotherAccount)
            } else if !checks.listener_authorized {
                Some(TicketError::ListenerUnauthorized)
            } else if self.content.listener_certificate.device_id != contact.peer_device_id {
                Some(TicketError::OtherPeerDevice)
            } else if self.content.route_policy != contact.route_policy {
                Some(TicketError::RoutePolicyChanged)
            } else if self.content.allowed_requester_account_id != local_account_id {
                Some(TicketError::RequesterNotAllowed)
            } else if !checks.requester_authorized {
                Some(TicketError::RequesterUnauthorized)
            } else {
                None
            },
        }
    }

    /// Tests that a ticket, read from the descriptor of a contact, serves that contact.
    pub fn load_runtime_contact_ticket(
        &self,
        contact: RuntimeContact,
        local_account_id: AccountId,
        checks: ContactChecks,
    ) -> (r: Result<(), TicketError>)
        ensures
            match self.contact_fault(contact, local_account_id, checks) {
                None => r is Ok,
                Some(error) => r == Err::<(), TicketError>(error),
            },
    {
        if let Err(error) = self.verify_listener_account(checks.authority_verified) {
            return Err(error);
        }
        let peer = match self.verify_listener_authorization(checks.listener_authorized) {
            Err(error) => {
                return Err(error);
            },
            Ok(peer) => peer,
        };
        if peer != contact.peer_device_id {
            return Err(TicketError::OtherPeerDevice);
        }
        if self.content.route_policy != contact.route_policy {
            return Err(TicketError::RoutePolicyChanged);
        }
        if self.content.allowed_requester_account_id != local_account_id {
            return Err(TicketError::RequesterNotAllowed);
        }
        if !checks.requester_authorized {
            return Err(TicketError::RequesterUnauthorized);
        }
        Ok(())
    }

    /// Where a ticket offers history from, to a requester of the same account.
    pub fn recovery_bootstrap(
        &self,
        expected_account_id: AccountId,
        authority_verified: bool,
        listener_authorized: bool,
    ) -> (r: Result<HistoryRecoveryBootstrap, TicketError>)
        ensures
            match self.fault() {
                Some(error) => r matches Err(e) && e == error,
                None => if !authority_verified {
                    r matches Err(e) && e == TicketError::ListenerOfAnotherAccount
                } else if self.content.allowed_requester_account_id != expected_account_id {
                    r matches Err(e) && e == TicketError::SourceRefusesAccount
                } else if !listener_authorized {
                    r matches Err(e) && e == TicketError::ListenerUnauthorized
                } else {
                    r matches Ok(b) && b.endpoint == self.content.endpoint && b.account_id
                        == expected_account_id && b.source_device_id
                        == self.content.listener_certificate.device_id && b.route_policy
                        == self.content.route_policy && b.account_device_list.certificates@
                        == self.content.listener_directory.device_list.certificates@
                        && b.account_device_list.authority
                        == self.content.listener_directory.device_list.authority
                        && b.account_device_list.digest
                        == self.content.listener_directory.device_list.digest
                },
            },
    {
        if let Err(error) = self.verify_listener_account(authority_verified) {
            return Err(error);
        }
        if self.content.allowed_requester_account_id != expected_account_id {
            return Err(TicketError::SourceRefusesAccount);
        }
        match self.verify_listener_authorization(listener_authorized) {
            Err(error) => Err(error),
            Ok(source_device_id) => Ok(
                HistoryRecoveryBootstrap {
                    endpoint: self.content.endpoint,
                    account_device_list: self.content.listener_directory.device_list.duplicate(),
                    account_id: expected_account_id,
                    source_device_id,
                    route_policy: self.content.route_policy,
                },
            ),
        }
    }
}

/// What was verified of a ticket for a contact: its authority snapshot for the peer's account,
/// the listener's authorization by it, and the local device's authorization for the account
/// that the ticket allows.
#[derive(Clone, Copy, Debug, PartialEq, Eq, Structural)]
pub struct ContactChecks {
    pub authority_verified: bool,
    pub listener_authorized: bool,
    pub requester_authorized: bool,
}

proof fn lemma_base64_is_trimmed(text: Seq<char>)
    requires
        forall|i: int| 0 <= i < text.len() ==> base64url_char(#[trigger] text[i]),
    ensures
        trimmed(text) == text,
{
    if text.len() > 0 {
        assert(base64url_char(text[0]));
        assert(base64url_char(text[text.len() - 1]));
    }
    assert(leading_white_space(text) == 0);
    assert(text.skip(0) == text);
    assert(trimmed_end(text) == text);
}

/// Tests the size of a peer's descriptor before it is decoded.
pub fn check_descriptor_size(encoded: &str, max_bytes: usize) -> (r: Result<(), TicketError>)
    ensures
        r == if vstd::utf8::encode_utf8(encoded@).len() <= max_bytes {
            Ok::<(), TicketError>(())
        } else {
            Err(TicketError::DescriptorTooLarge)
        },
{
    if encoded.as_bytes().len() <= max_bytes {
        Ok(())
    } else {
        Err(TicketError::DescriptorTooLarge)
    }
}

/// Where a ticket is read from.
#[derive(Clone, Copy, Debug, PartialEq, Eq, Structural)]
pub enum TicketInput {
    Text,
    File,
}

/// Where a ticket is read from: exactly one of the two flags must be given.
pub fn load_connection_ticket(has_text: bool, has_file: bool) -> (r: Result<
    TicketInput,
    TicketError,
>)
    ensures
        r == match (has_text, has_file) {
            (true, false) => Ok::<TicketInput, TicketError>(TicketInput::Text),
            (false, true) => Ok(TicketInput::File),
            (false, false) => Err(TicketError::NoInput),
            (true, true) => Err(TicketError::SeveralInputs),
        },
{
    match (has_text, has_file) {
        (true, false) => Ok(TicketInput::Text),
        (false, true) => Ok(TicketInput::File),
        (false, false) => Err(TicketError::NoInput),
        (true, true) => Err(TicketError::SeveralInputs),
    }
}

/// The text of a ticket that a device was allowed to issue, and signed, gives whoever reads it a
/// valid ticket, as long as its directory is fresh, with the endpoint, the listener, the account
/// and the route that it was issued for. `write` and `read` stand for the encoding of tickets as
/// bytes and its inverse.
pub proof fn issued_ticket_reads_back(
    endpoint: EndpointId,
    listener_device_id: DeviceId,
    listener_certificate: DeviceCertificate,
    listener_directory: PrekeyDirectory,
    allowed_requester_account_id: AccountId,
    route_policy: RoutePolicy,
    signed: ConnectionTicket,
    write: spec_fn(ConnectionTicket) -> Seq<u8>,
    read: spec_fn(Seq<u8>) -> Option<ConnectionTicket>,
)
    requires
        new_ticket_fault(listener_device_id, listener_certificate, listener_directory) is None,
        signed.content == (ConnectionTicketContent {
            version: TICKET_VERSION,
            endpoint,
            listener_certificate,
            listener_directory,
            allowed_requester_account_id,
            route_policy,
        }),
        signed.certificate_verified,
        signed.signature_verified,
        read(write(signed)) == Some(signed),
    ensures
        ({
            let text = base64url_text(write(signed));
            &&& ticket_payload(text) is Some
            &&& read(ticket_payload(text)->0) matches Some(received)
            &&& received.fault() is None
            &&& received.content.endpoint == endpoint
            &&& received.content.listener_certificate.account_id == listener_directory.account_id
            &&& received.content.listener_certificate.device_id == listener_device_id
            &&& received.content.allowed_requester_account_id == allowed_requester_account_id
            &&& received.content.route_policy == route_policy
        }),
{
    base64url_reads_back(write(signed));
    lemma_base64_is_trimmed(base64url_text(write(signed)));
}

/// A ticket of another version, or one whose signature does not hold over its content, is refused
/// whatever else it says.
pub proof fn changed_ticket_is_refused(ticket: ConnectionTicket)
    requires
        ticket.content.version != TICKET_VERSION || !ticket.signature_verified,
    ensures
        ticket.fault() is Some,
{
}

/// Two contents that are encoded differently are signed over different bytes.
pub proof fn signature_covers_the_content(first: Seq<u8>, second: Seq<u8>)
    requires
        first != second,
    ensures
        ticket_signature_domain() + first != ticket_signature_domain() + second,
{
    let domain = ticket_signature_domain();
    if domain + first == domain + second {
        assert((domain + first).skip(domain.len() as int) =~= first);
        assert((domain + second).skip(domain.len() as int) =~= second);
    }
}

/// A ticket is issued exactly where the certificate is the listener's, the directory was verified,
/// is of its account, lists the certificate and has a pool for the device. The first of these that
/// fails names the error.
pub proof fn issued_ticket_meets_every_condition(
    listener_device_id: DeviceId,
    certificate: DeviceCertificate,
    directory: PrekeyDirectory,
)
    ensures
        ({
            let fault = new_ticket_fault(listener_device_id, certificate, directory);
            let own_device = listener_device_id == certificate.device_id;
            let verified = directory.verified_now;
            let own_account = certificate.account_id == directory.account_id;
            let listed = is_first_certificate(directory.device_list, certificate);
            let has_pool = directory.pool_devices@.contains(listener_device_id);
            &&& fault == Some(TicketError::CertificateOfAnotherDevice) <==> !own_device
            &&& fault == Some(TicketError::DirectoryUnverified) <==> own_device && !verified
            &&& fault == Some(TicketError::IssuingDirectoryOfAnotherAccount) <==> own_device
                && verified && !own_account
            &&& fault == Some(TicketError::IssuingCertificateNotListed) <==> own_device
                && verified && own_account && !listed
            &&& fault == Some(TicketError::NoPoolForListener) <==> own_device && verified
                && own_account && listed && !has_pool
            &&& fault is None <==> own_device && verified && own_account && listed && has_pool
        }),
{
    listing_is_exact(directory.device_list, listener_device_id, certificate);
}

/// A ticket is accepted exactly where its version is supported, its certificate, directory and
/// signature were verified, and the directory is of the listener's account and lists its
/// certificate. The first of these that fails names the error.
pub proof fn accepted_ticket_meets_every_condition(ticket: ConnectionTicket)
    ensures
        ({
            let fault = ticket.fault();
            let supported = ticket.content.version == 9;
            let certified = ticket.certificate_verified;
            let verified = ticket.content.listener_directory.verified_now;
            let own_account = ticket.content.listener_certificate.account_id
                == ticket.content.listener_directory.account_id;
            let listed = is_first_certificate(
                ticket.content.listener_directory.device_list,
                ticket.content.listener_certificate,
            );
            let signed = ticket.signature_verified;
            &&& fault
                == Some(TicketError::UnsupportedVersion { version: ticket.content.version })
                <==> !supported
            &&& fault == Some(TicketError::CertificateInvalid) <==> supported && !certified
            &&& fault == Some(TicketError::DirectoryUnverified) <==> supported && certified
                && !verified
            &&& fault == Some(TicketError::DirectoryOfAnotherAccount) <==> supported
                && certified && verified && !own_account
            &&& fault == Some(TicketError::CertificateNotListed) <==> supported && certified
                && verified && own_account && !listed
            &&& fault == Some(TicketError::SignatureInvalid) <==> supported && certified
                && verified && own_account && listed && !signed
            &&& fault is None <==> supported && certified && verified && own_account && listed
                && signed
        }),
{
    listing_is_exact(
        ticket.content.listener_directory.device_list,
        ticket.content.listener_certificate.device_id,
        ticket.content.listener_certificate,
    );
}

/// A ticket is one of a contact exactly where it is accepted, its listener is verified and
/// authorized and is the device of the contact, the route policy is the contact's, and this
/// account is allowed and authorized. The first of these that fails names the error.
pub proof fn ticket_of_a_contact_meets_every_condition(
    ticket: ConnectionTicket,
    contact: RuntimeContact,
    local_account_id: AccountId,
    checks: ContactChecks,
)
    ensures
        ({
            let sound = ticket.fault() is None;
            let fault = ticket.contact_fault(contact, local_account_id, checks);
            let expected_account = checks.authority_verified;
            let authorized = checks.listener_authorized;
            let same_device = contact.peer_device_id
                == ticket.content.listener_certificate.device_id;
            let same_route = contact.route_policy == ticket.content.route_policy;
            let allowed = local_account_id == ticket.content.allowed_requester_account_id;
            let local_authorized = checks.requester_authorized;
            &&& sound ==> (fault == Some(TicketError::ListenerOfAnotherAccount)
                <==> !expected_account)
            &&& sound ==> (fault == Some(TicketError::ListenerUnauthorized)
                <==> expected_account && !authorized)
            &&& sound ==> (fault == Some(TicketError::OtherPeerDevice) <==> expected_account
                && authorized && !same_device)
            &&& sound ==> (fault == Some(TicketError::RoutePolicyChanged) <==> expected_account
                && authorized && same_device && !same_route)
            &&& sound ==> (fault == Some(TicketError::RequesterNotAllowed) <==> expected_account
                && authorized && same_device && same_route && !allowed)
            &&& sound ==> (fault == Some(TicketError::RequesterUnauthorized)
                <==> expected_account && authorized && same_device && same_route && allowed
                && !local_authorized)
            &&& sound ==> (fault is None <==> expected_account && authorized && same_device
                && same_route && allowed && local_authorized)
            &&& !sound ==> fault == ticket.fault()
        }),
{
}

/// White space around the text of a ticket does not change what is read from it, and what is read
/// is what was written.
pub proof fn ticket_text_reads_back(encoded: Seq<u8>, text: Seq<char>)
    ensures
        trimmed(text) == base64url_text(encoded) ==> ticket_payload(text) == Some(encoded),
        ticket_payload(text) matches Some(bytes) ==> trimmed(text) == base64url_text(bytes),
{
    crate::codec::base64url_reads_back(encoded);
}

/// Each error says in its text what is wrong, and an unsupported version which one it is.
pub proof fn ticket_error_says_what_is_wrong(error: TicketError)
    ensures
        error is CertificateOfAnotherDevice ==> error.text()
            == "listener certificate belongs to a different device"@,
        error is DirectoryUnverified ==> error.text()
            == "verify listener account prekey directory"@,
        error is DirectoryOfAnotherAccount ==> error.text()
            == "connection ticket directory does not belong to the listener account"@,
        error is CertificateNotListed ==> error.text()
            == "connection ticket listener certificate is absent from its signed device list"@,
        error is NoPoolForListener ==> error.text()
            == "listener prekey directory has no pool for the listening device"@,
        error is IssuingDirectoryOfAnotherAccount ==> error.text()
            == "listener prekey directory belongs to a different account"@,
        error is IssuingCertificateNotListed ==> error.text()
            == "listener certificate is not present exactly in its signed device list"@,
        error is SourceRefusesAccount ==> error.text()
            == "source ticket does not authorize this same account"@,
        error is CertificateInvalid ==> error.text() == "verify listener certificate"@,
        error is SignatureInvalid ==> error.text()
            == "verify listener signature on connection ticket"@,
        error is NotBase64 ==> error.text() == "decode connection ticket as base64url"@,
        error is ListenerOfAnotherAccount ==> error.text()
            == "verify expected listener Account ID"@,
        error is ListenerUnauthorized ==> error.text()
            == "verify listener Account Root authorization"@,
        error is RequesterNotAllowed ==> error.text()
            == "runtime descriptor does not authorize this local account"@,
        error is RequesterUnauthorized ==> error.text()
            == "local device is not authorized by the runtime descriptor"@,
        error is DescriptorTooLarge ==> error.text() == "runtime peer descriptor is too large"@,
        error is OtherPeerDevice ==> error.text()
            == "runtime descriptor names a different peer device"@,
        error is RoutePolicyChanged ==> error.text() == "runtime descriptor route policy changed"@,
        error is NoInput ==> error.text() == "provide either --ticket or --ticket-file"@,
        error is SeveralInputs ==> error.text()
            == "--ticket and --ticket-file are mutually exclusive"@,
        error matches TicketError::UnsupportedVersion { version } ==> {
            let told = "unsupported connection ticket version: "@;
            &&& error.text().take(told.len() as int) == told
            &&& crate::text::decimal_value(error.text().skip(told.len() as int)) == version
        },
{
    if let TicketError::UnsupportedVersion { version } = error {
        let told = "unsupported connection ticket version: "@;
        crate::text::decimal_reads_back(version as nat);
        assert(error.text().take(told.len() as int) =~= told);
        assert(error.text().skip(told.len() as int) =~= decimal(version as nat));
    }
}

/// What is signed for a ticket and what is signed for a link begin with different texts, each
/// closed by a zero byte, so that neither is ever the other.
pub proof fn ticket_purpose_is_kept_apart(signed: Seq<u8>, link: Seq<u8>)
    ensures
        ticket_signature_domain() == vstd::utf8::encode_utf8(
            "kilogram:connection-ticket-signature:v9"@,
        ).push(0u8),
        ticket_signature_domain() + signed != crate::recovery_link::link_signature_domain() + link,
{
    reveal_strlit("kilogram:connection-ticket-signature:v9");
    reveal_strlit("kilogram:connection-ticket-signature:v9\0");
    assert("kilogram:connection-ticket-signature:v9\0"@ =~= "kilogram:connection-ticket-signature:v9"@.push('\0'));
    crate::codec::closed_text_ends_in_zero("kilogram:connection-ticket-signature:v9"@, "kilogram:connection-ticket-signature:v9\0"@);
    reveal_strlit("kilogram:history-recovery-link-signature:v1");
    reveal_strlit("kilogram:history-recovery-link-signature:v1\0");
    assert("kilogram:history-recovery-link-signature:v1\0"@ =~= "kilogram:history-recovery-link-signature:v1"@.push('\0'));
    crate::codec::closed_text_ends_in_zero("kilogram:history-recovery-link-signature:v1"@, "kilogram:history-recovery-link-signature:v1\0"@);
    let a = ticket_signature_domain() + signed;
    let b = crate::recovery_link::link_signature_domain() + link;
    assert(a[9] == 'c' as u8 && b[9] == 'h' as u8);
}

} // verus!
