//! History recovery links: what a source device offers to one recipient device, signed, for a
//! short time, as one line of text.

use crate::codec::{
    base64url_bytes, base64url_capacity, base64url_char, base64url_decode, base64url_encode,
    base64url_text, blake3_digest, blake3_hash, joined,
};
use crate::identity::{
    certificate_of, is_first_certificate, listing_is_exact, lists_device, AccountDeviceList,
    DeviceCertificate, ProtocolLimits, RoutePolicy,
};
use crate::ids::{AccountId, ConversationId, DeviceId, EndpointId};
use crate::text::{
    beginnings_and_endings, begins_with, leading_white_space, starts_with, trim, trimmed,
    white_space,
};
use vstd::prelude::*;

verus! {

pub const HISTORY_RECOVERY_LINK_VERSION: u8 = 1;

pub const HISTORY_RECOVERY_LINK_PREFIX: &'static str = "kilogram://history-recovery/v1/";

pub const HISTORY_RECOVERY_LINK_CLOCK_SKEW_SECONDS: u64 = 120;

pub const DEFAULT_HISTORY_RECOVERY_LINK_VALIDITY_SECONDS: u64 = 600;

pub const MAX_HISTORY_RECOVERY_LINK_VALIDITY_SECONDS: u64 = 3_600;

pub const MAX_HISTORY_RECOVERY_LINK_TEXT_BYTES: usize = 2_953;

/// Why a link is refused.
#[derive(Clone, Copy, Debug, PartialEq, Eq, Structural)]
pub enum LinkError {
    RangeOverflow,
    ExpirationOverflow,
    UnsupportedVersion,
    DeviceListUnverified,
    SourceUnauthorized,
    SourceCertificateAbsent,
    RecipientAbsent,
    SourceIsRecipient,
    EmptyRange,
    RangeBeyondInventory,
    PageSize,
    EmptyWindow,
    WindowTooLong,
    SignerNotSource,
    SignatureInvalid,
    IssuedInTheFuture,
    Expired,
    AccountMismatch,
    RecipientMismatch,
    RecipientCertificateDiffers,
    TextTooLong,
    UnsupportedPrefix,
    NotBase64,
    SasUnavailable,
    ConversationMismatch,
    SasMismatch,
    RangeNotRepresentable,
}

/// What a link says. `device_list_verified` tells whether the device list was verified for the
/// account of the source certificate, and `source_authorized` whether the source certificate
/// was found authorized for messaging by the list's authority snapshot.
#[derive(Debug)]
pub struct HistoryRecoveryLinkContent {
    pub version: u8,
    pub endpoint: EndpointId,
    pub source_certificate: DeviceCertificate,
    pub account_device_list: AccountDeviceList,
    pub recipient_device_id: DeviceId,
    pub conversation_id: ConversationId,
    pub approved_range_start: u64,
    pub approved_range_end: u64,
    pub page_size: u64,
    pub route_policy: RoutePolicy,
    pub issued_at_unix_seconds: u64,
    pub expires_at_unix_seconds: u64,
    pub device_list_verified: bool,
    pub source_authorized: bool,
}

/// A signed link. `signature_verified` tells whether the source device's signature over the
/// content was verified, and `derived_sas` is the short authentication string that its device
/// list and its two devices derive.
#[derive(Debug)]
pub struct SignedHistoryRecoveryLink {
    pub content: HistoryRecoveryLinkContent,
    pub signature_verified: bool,
    pub derived_sas: Option<String>,
}

/// What a new link is made from.
#[derive(Debug)]
pub struct HistoryRecoveryLinkOptions {
    pub endpoint: EndpointId,
    pub source_certificate: DeviceCertificate,
    pub account_device_list: AccountDeviceList,
    pub recipient_device_id: DeviceId,
    pub conversation_id: ConversationId,
    pub approved_range_start: usize,
    pub approved_event_count: usize,
    pub page_size: usize,
    pub route_policy: RoutePolicy,
    pub issued_at_unix_seconds: u64,
    pub valid_for_seconds: u64,
    pub device_list_verified: bool,
    pub source_authorized: bool,
}

impl HistoryRecoveryLinkContent {
    /// The first rule that the content breaks.
    pub open spec fn fault(self, limits: ProtocolLimits) -> Option<LinkError> {
        let list = self.account_device_list.certificates@;
        if self.version != HISTORY_RECOVERY_LINK_VERSION {
            Some(LinkError::UnsupportedVersion)
        } else if !self.device_list_verified {
            Some(LinkError::DeviceListUnverified)
        } else if !self.source_authorized {
            Some(LinkError::SourceUnauthorized)
        } else if certificate_of(list, self.source_certificate.device_id) != Some(
            self.source_certificate,
        ) {
            Some(LinkError::SourceCertificateAbsent)
        } else if certificate_of(list, self.recipient_device_id) is None {
            Some(LinkError::RecipientAbsent)
        } else if self.source_certificate.device_id == self.recipient_device_id {
            Some(LinkError::SourceIsRecipient)
        } else if self.approved_range_start >= self.approved_range_end {
            Some(LinkError::EmptyRange)
        } else if self.approved_range_end > limits.max_inventory_event_ids {
            Some(LinkError::RangeBeyondInventory)
        } else if !(1 <= self.page_size <= limits.max_history_rewrap_entries) {
            Some(LinkError::PageSize)
        } else if self.issued_at_unix_seconds >= self.expires_at_unix_seconds {
            Some(LinkError::EmptyWindow)
        } else if self.expires_at_unix_seconds - self.issued_at_unix_seconds
            > MAX_HISTORY_RECOVERY_LINK_VALIDITY_SECONDS {
            Some(LinkError::WindowTooLong)
        } else {
            None
        }
    }

    /// Tests the content against every rule.
    pub fn validate_content(&self, limits: ProtocolLimits) -> (r: Result<(), LinkError>)
        ensures
            match self.fault(limits) {
                None => r is Ok,
                Some(error) => r == Err::<(), LinkError>(error),
            },
    {
        if self.version != HISTORY_RECOVERY_LINK_VERSION {
            return Err(LinkError::UnsupportedVersion);
        }
        if !self.device_list_verified {
            return Err(LinkError::DeviceListUnverified);
        }
        if !self.source_authorized {
            return Err(LinkError::SourceUnauthorized);
        }
        match self.account_device_list.certificate_for(self.source_certificate.device_id) {
            None => {
                return Err(LinkError::SourceCertificateAbsent);
            },
            Some(certificate) => {
                if certificate != self.source_certificate {
                    return Err(LinkError::SourceCertificateAbsent);
                }
            },
        }
        if self.account_device_list.certificate_for(self.recipient_device_id).is_none() {
            return Err(LinkError::RecipientAbsent);
        }
        if self.source_certificate.device_id == self.recipient_device_id {
            return Err(LinkError::SourceIsRecipient);
        }
        if self.approved_range_start >= self.approved_range_end {
            return Err(LinkError::EmptyRange);
        }
        if self.approved_range_end > limits.max_inventory_event_ids {
            return Err(LinkError::RangeBeyondInventory);
        }
        if !(1 <= self.page_size && self.page_size <= limits.max_history_rewrap_entries) {
            return Err(LinkError::PageSize);
        }
        if self.issued_at_unix_seconds >= self.expires_at_unix_seconds {
            return Err(LinkError::EmptyWindow);
        }
        if self.expires_at_unix_seconds - self.issued_at_unix_seconds
            > MAX_HISTORY_RECOVERY_LINK_VALIDITY_SECONDS {
            return Err(LinkError::WindowTooLong);
        }
        Ok(())
    }
}

/// The bytes that begin what a source device signs.
pub open spec fn link_signature_domain() -> Seq<u8> {
    vstd::utf8::encode_utf8("kilogram:history-recovery-link-signature:v1\0"@)
}

/// The bytes that begin what a link identifier is the digest of.
pub open spec fn link_id_domain() -> Seq<u8> {
    vstd::utf8::encode_utf8("kilogram:history-recovery-link-id:v1\0"@)
}

/// The bytes that a source device signs, given the encoded content.
pub fn link_signing_bytes(encoded_content: &[u8]) -> (r: Vec<u8>)
    ensures
        r@ == link_signature_domain() + encoded_content@,
{
    joined("kilogram:history-recovery-link-signature:v1\0".as_bytes(), encoded_content)
}

/// `a + b`, or the largest number where that does not fit.
pub open spec fn saturating_sum(a: u64, b: u64) -> u64 {
    if a + b > u64::MAX {
        u64::MAX
    } else {
        (a + b) as u64
    }
}

/// The link whose signature is to be made: its content, where it keeps every rule.
pub open spec fn new_link_fault(
    signer: DeviceId,
    options: HistoryRecoveryLinkOptions,
    limits: ProtocolLimits,
    content: HistoryRecoveryLinkContent,
) -> Option<LinkError> {
    if options.approved_range_start + options.approved_event_count > u64::MAX {
        Some(LinkError::RangeOverflow)
    } else if options.issued_at_unix_seconds + options.valid_for_seconds > u64::MAX {
        Some(LinkError::ExpirationOverflow)
    } else {
        match content.fault(limits) {
            Some(error) => Some(error),
            None => if signer != options.source_certificate.device_id {
                Some(LinkError::SignerNotSource)
            } else {
                None
            },
        }
    }
}

/// `content` says what `options` ask for.
pub open spec fn content_of(
    options: HistoryRecoveryLinkOptions,
    content: HistoryRecoveryLinkContent,
) -> bool {
    &&& content.version == HISTORY_RECOVERY_LINK_VERSION
    &&& content.endpoint == options.endpoint
    &&& content.source_certificate == options.source_certificate
    &&& content.account_device_list == options.account_device_list
    &&& content.recipient_device_id == options.recipient_device_id
    &&& content.conversation_id == options.conversation_id
    &&& content.approved_range_start == options.approved_range_start
    &&& content.approved_range_end == options.approved_range_start + options.approved_event_count
    &&& content.page_size == options.page_size
    &&& content.route_policy == options.route_policy
    &&& content.issued_at_unix_seconds == options.issued_at_unix_seconds
    &&& content.expires_at_unix_seconds == options.issued_at_unix_seconds
        + options.valid_for_seconds
    &&& content.device_list_verified == options.device_list_verified
    &&& content.source_authorized == options.source_authorized
}

impl SignedHistoryRecoveryLink {
    /// Makes the content that the source device is to sign.
    pub fn sign(
        signer: DeviceId,
        options: HistoryRecoveryLinkOptions,
        limits: ProtocolLimits,
    ) -> (r: Result<HistoryRecoveryLinkContent, LinkError>)
        ensures
            match r {
                Ok(content) => {
                    &&& content_of(options, content)
                    &&& new_link_fault(signer, options, limits, content) is None
                },
                Err(LinkError::RangeOverflow) => options.approved_range_start
                    + options.approved_event_count > u64::MAX,
                Err(LinkError::ExpirationOverflow) => {
                    &&& options.approved_range_start + options.approved_event_count <= u64::MAX
                    &&& options.issued_at_unix_seconds + options.valid_for_seconds > u64::MAX
                },
                Err(error) => exists|content: HistoryRecoveryLinkContent|
                    content_of(options, content) && #[trigger] new_link_fault(
                        signer,
                        options,
                        limits,
                        content,
                    ) == Some(error),
            },
    {
        let start: u64 = options.approved_range_start as u64;
        let end: u64 = match start.checked_add(options.approved_event_count as u64) {
            None => {
                return Err(LinkError::RangeOverflow);
            },
            Some(end) => end,
        };
        let expires_at_unix_seconds: u64 = match options.issued_at_unix_seconds.checked_add(
            options.valid_for_seconds,
        ) {
            None => {
                return Err(LinkError::ExpirationOverflow);
            },
            Some(expires) => expires,
        };
        let content = HistoryRecoveryLinkContent {
            version: HISTORY_RECOVERY_LINK_VERSION,
            endpoint: options.endpoint,
            source_certificate: options.source_certificate,
            account_device_list: options.account_device_list,
            recipient_device_id: options.recipient_device_id,
            conversation_id: options.conversation_id,
            approved_range_start: start,
            approved_range_end: end,
            page_size: options.page_size as u64,
            route_policy: options.route_policy,
            issued_at_unix_seconds: options.issued_at_unix_seconds,
            expires_at_unix_seconds,
            device_list_verified: options.device_list_verified,
            source_authorized: options.source_authorized,
        };
        assert(content_of(options, content));
        if let Err(error) = content.validate_content(limits) {
            assert(new_link_fault(signer, options, limits, content) == Some(error));
            return Err(error);
        }
        if signer != content.source_certificate.device_id {
            assert(new_link_fault(signer, options, limits, content) == Some(
                LinkError::SignerNotSource,
            ));
            return Err(LinkError::SignerNotSource);
        }
        Ok(content)
    }

    /// The first reason for which the link is not valid in itself.
    pub open spec fn fault(self, limits: ProtocolLimits) -> Option<LinkError> {
        match self.content.fault(limits) {
            Some(error) => Some(error),
            None => if self.signature_verified {
                None
            } else {
                Some(LinkError::SignatureInvalid)
            },
        }
    }

    /// The first reason for which the link is not valid at a time.
    pub open spec fn fault_at(self, limits: ProtocolLimits, now: u64) -> Option<LinkError> {
        match self.fault(limits) {
            Some(error) => Some(error),
            None => if self.content.issued_at_unix_seconds > saturating_sum(
                now,
                HISTORY_RECOVERY_LINK_CLOCK_SKEW_SECONDS,
            ) {
                Some(LinkError::IssuedInTheFuture)
            } else if now > saturating_sum(
                self.content.expires_at_unix_seconds,
                HISTORY_RECOVERY_LINK_CLOCK_SKEW_SECONDS,
            ) {
                Some(LinkError::Expired)
            } else {
                None
            },
        }
    }

    /// The first reason for which a device may not use the link at a time.
    pub open spec fn fault_for(
        self,
        limits: ProtocolLimits,
        now: u64,
        recipient: DeviceCertificate,
    ) -> Option<LinkError> {
        match self.fault_at(limits, now) {
            Some(error) => Some(error),
            None => if recipient.account_id != self.content.source_certificate.account_id {
                Some(LinkError::AccountMismatch)
            } else if recipient.device_id != self.content.recipient_device_id {
                Some(LinkError::RecipientMismatch)
            } else if certificate_of(
                self.content.account_device_list.certificates@,
                recipient.device_id,
            ) != Some(recipient) {
                Some(LinkError::RecipientCertificateDiffers)
            } else {
                None
            },
        }
    }

    /// Tests the link's content and signature.
    pub fn verify(&self, limits: ProtocolLimits) -> (r: Result<(), LinkError>)
        ensures
            match self.fault(limits) {
                None => r is Ok,
                Some(error) => r == Err::<(), LinkError>(error),
            },
    {
        if let Err(error) = self.content.validate_content(limits) {
            return Err(error);
        }
        if !self.signature_verified {
            return Err(LinkError::SignatureInvalid);
        }
        Ok(())
    }

    /// Tests the link, and that `now` lies in its validity window, two minutes either way.
    pub fn verify_at(&self, now_unix_seconds: u64, limits: ProtocolLimits) -> (r: Result<
        (),
        LinkError,
    >)
        ensures
            match self.fault_at(limits, now_unix_seconds) {
                None => r is Ok,
                Some(error) => r == Err::<(), LinkError>(error),
            },
    {
        if let Err(error) = self.verify(limits) {
            return Err(error);
        }
        if self.content.issued_at_unix_seconds > now_unix_seconds.saturating_add(
            HISTORY_RECOVERY_LINK_CLOCK_SKEW_SECONDS,
        ) {
            return Err(LinkError::IssuedInTheFuture);
        }
        if now_unix_seconds > self.content.expires_at_unix_seconds.saturating_add(
            HISTORY_RECOVERY_LINK_CLOCK_SKEW_SECONDS,
        ) {
            return Err(LinkError::Expired);
        }
        Ok(())
    }

    /// Tests the link at a time, and that it addresses the device of the certificate.
    pub fn verify_for_recipient(
        &self,
        now_unix_seconds: u64,
        recipient_certificate: DeviceCertificate,
        limits: ProtocolLimits,
    ) -> (r: Result<(), LinkError>)
        ensures
            match self.fault_for(limits, now_unix_seconds, recipient_certificate) {
                None => r is Ok,
                Some(error) => r == Err::<(), LinkError>(error),
            },
    {
        if let Err(error) = self.verify_at(now_unix_seconds, limits) {
            return Err(error);
        }
        if recipient_certificate.account_id != self.content.source_certificate.account_id {
            return Err(LinkError::AccountMismatch);
        }
        if recipient_certificate.device_id != self.content.recipient_device_id {
            return Err(LinkError::RecipientMismatch);
        }
        match self.content.account_device_list.certificate_for(recipient_certificate.device_id) {
            None => Err(LinkError::RecipientCertificateDiffers),
            Some(certificate) => if certificate == recipient_certificate {
                Ok(())
            } else {
                Err(LinkError::RecipientCertificateDiffers)
            },
        }
    }

    /// The text of a valid link, given its encoding.
    pub fn encode_text(&self, encoded: &[u8], limits: ProtocolLimits) -> (r: Result<
        String,
        LinkError,
    >)
        requires
            encoded@.len() <= base64url_capacity(),
        ensures
            match self.fault(limits) {
                Some(error) => r == Err::<String, LinkError>(error),
                None => match r {
                    Ok(text) => text@ == link_text(encoded@) && fits_one_qr(text@),
                    Err(error) => error == LinkError::TextTooLong && !fits_one_qr(
                        link_text(encoded@),
                    ),
                },
            },
            r matches Ok(text) ==> link_payload(text@) == Ok::<Seq<u8>, LinkError>(encoded@),
    {
        if let Err(error) = self.verify(limits) {
            return Err(error);
        }
        let mut text = String::from_str(HISTORY_RECOVERY_LINK_PREFIX);
        let payload = base64url_encode(encoded);
        text.append(payload.as_str());
        if text.as_str().as_bytes().len() > MAX_HISTORY_RECOVERY_LINK_TEXT_BYTES {
            return Err(LinkError::TextTooLong);
        }
        proof {
            lemma_link_text_reads_back(encoded@, payload@);
        }
        Ok(text)
    }

    /// The encoding that a link's text carries.
    pub fn decode_text(text: &str) -> (r: Result<Vec<u8>, LinkError>)
        ensures
            match r {
                Ok(bytes) => link_payload(text@) == Ok::<Seq<u8>, LinkError>(bytes@),
                Err(error) => link_payload(text@) == Err::<Seq<u8>, LinkError>(error),
            },
    {
        let text = trim(text);
        if text.as_str().as_bytes().len() > MAX_HISTORY_RECOVERY_LINK_TEXT_BYTES {
            return Err(LinkError::TextTooLong);
        }
        if !starts_with(text.as_str(), HISTORY_RECOVERY_LINK_PREFIX) {
            return Err(LinkError::UnsupportedPrefix);
        }
        let prefix_len: usize = HISTORY_RECOVERY_LINK_PREFIX.unicode_len();
        let text_len: usize = text.as_str().unicode_len();
        let payload = text.as_str().substring_char(prefix_len, text_len);
        assert(payload@ == text@.skip(prefix_len as int));
        match base64url_decode(payload) {
            Some(bytes) => Ok(bytes),
            None => Err(LinkError::NotBase64),
        }
    }

    /// The identifier of a valid link: the digest of its encoding under a domain of its own.
    pub fn link_id(&self, encoded: &[u8], limits: ProtocolLimits) -> (r: Result<
        [u8; 32],
        LinkError,
    >)
        ensures
            match self.fault(limits) {
                Some(error) => r == Err::<[u8; 32], LinkError>(error),
                None => r matches Ok(id) && id@ == blake3_hash(link_id_domain() + encoded@),
            },
    {
        if let Err(error) = self.verify(limits) {
            return Err(error);
        }
        let input = joined("kilogram:history-recovery-link-id:v1\0".as_bytes(), encoded);
        Ok(blake3_digest(&input))
    }

    /// The account that the link belongs to.
    pub fn account_id(&self) -> (r: AccountId)
        ensures
            r == self.content.source_certificate.account_id,
    {
        self.content.source_certificate.account_id
    }

    /// The device that offers its history.
    pub fn source_device_id(&self) -> (r: DeviceId)
        ensures
            r == self.content.source_certificate.device_id,
    {
        self.content.source_certificate.device_id
    }

    /// The short authentication string that the two users compare.
    pub fn sas(&self) -> (r: Result<&String, LinkError>)
        ensures
            match self.derived_sas {
                Some(sas) => r matches Ok(text) && text@ == sas@,
                None => r == Err::<&String, LinkError>(LinkError::SasUnavailable),
            },
    {
        match &self.derived_sas {
            Some(sas) => Ok(sas),
            None => Err(LinkError::SasUnavailable),
        }
    }

    /// The number of events that the link offers.
    pub fn approved_event_count(&self) -> (r: u64)
        ensures
            r == if self.content.approved_range_end > self.content.approved_range_start {
                self.content.approved_range_end - self.content.approved_range_start
            } else {
                0
            },
    {
        self.content.approved_range_end.saturating_sub(self.content.approved_range_start)
    }
}

/// The text that carries an encoded link.
pub open spec fn link_text(encoded: Seq<u8>) -> Seq<char> {
    HISTORY_RECOVERY_LINK_PREFIX@ + base64url_text(encoded)
}

/// A text that is short enough for one QR code.
pub open spec fn fits_one_qr(text: Seq<char>) -> bool {
    vstd::utf8::encode_utf8(text).len() <= MAX_HISTORY_RECOVERY_LINK_TEXT_BYTES
}

/// The encoding that a link's text carries, or why there is none.
pub open spec fn link_payload(text: Seq<char>) -> Result<Seq<u8>, LinkError> {
    let line = trimmed(text);
    if !fits_one_qr(line) {
        Err(LinkError::TextTooLong)
    } else if !begins_with(line, HISTORY_RECOVERY_LINK_PREFIX@) {
        Err(LinkError::UnsupportedPrefix)
    } else {
        match base64url_bytes(line.skip(HISTORY_RECOVERY_LINK_PREFIX@.len() as int)) {
            Some(bytes) => Ok(bytes),
            None => Err(LinkError::NotBase64),
        }
    }
}

proof fn lemma_link_text_reads_back(encoded: Seq<u8>, payload: Seq<char>)
    requires
        payload == base64url_text(encoded),
        base64url_bytes(payload) == Some(encoded),
        forall|i: int| 0 <= i < payload.len() ==> base64url_char(#[trigger] payload[i]),
        fits_one_qr(link_text(encoded)),
    ensures
        link_payload(link_text(encoded)) == Ok::<Seq<u8>, LinkError>(encoded),
{
    reveal_strlit("kilogram://history-recovery/v1/");
    let prefix = HISTORY_RECOVERY_LINK_PREFIX@;
    let text = link_text(encoded);
    assert(text[0] == 'k');
    assert(leading_white_space(text) == 0);
    assert(text.skip(0) == text);
    if payload.len() > 0 {
        assert(text.last() == payload.last());
        assert(base64url_char(payload[payload.len() - 1]));
    } else {
        assert(text.last() == '/');
    }
    assert(!white_space(text.last()));
    assert(trimmed(text) == text);
    assert(text.subrange(0, prefix.len() as int) == prefix);
    assert(text.skip(prefix.len() as int) == payload);
}

/// A link that keeps every rule is accepted exactly between two minutes before it was issued
/// and two minutes after it expires.
pub proof fn link_is_accepted_in_its_window(
    link: SignedHistoryRecoveryLink,
    limits: ProtocolLimits,
    now: u64,
)
    requires
        link.fault(limits) is None,
    ensures
        link.fault_at(limits, now) is None <==> link.content.issued_at_unix_seconds <= now
            + HISTORY_RECOVERY_LINK_CLOCK_SKEW_SECONDS && now
            <= link.content.expires_at_unix_seconds + HISTORY_RECOVERY_LINK_CLOCK_SKEW_SECONDS,
{
}

/// A link that a device may use is valid, names that device and no other as its recipient, and
/// was offered by another device of the same account.
pub proof fn usable_link_binds_roles(
    link: SignedHistoryRecoveryLink,
    limits: ProtocolLimits,
    now: u64,
    recipient: DeviceCertificate,
)
    requires
        link.fault_for(limits, now, recipient) is None,
    ensures
        link.fault(limits) is None,
        link.signature_verified,
        link.content.recipient_device_id == recipient.device_id,
        link.content.source_certificate.device_id != recipient.device_id,
        link.content.source_certificate.account_id == recipient.account_id,
        link.content.approved_range_start < link.content.approved_range_end
            <= limits.max_inventory_event_ids,
        link.content.expires_at_unix_seconds - link.content.issued_at_unix_seconds
            <= MAX_HISTORY_RECOVERY_LINK_VALIDITY_SECONDS,
{
}

/// The content of a link is sound exactly where it meets each of these conditions, and the first
/// that it does not meet names the error.
pub proof fn sound_link_meets_every_condition(
    content: HistoryRecoveryLinkContent,
    limits: ProtocolLimits,
)
    ensures
        ({
            let fault = content.fault(limits);
            let supported = content.version == 1;
            let verified = content.device_list_verified;
            let authorized = content.source_authorized;
            let source_listed = is_first_certificate(
                content.account_device_list,
                content.source_certificate,
            );
            let recipient_listed = lists_device(content.account_device_list, content.recipient_device_id);
            let two_devices = content.recipient_device_id != content.source_certificate.device_id;
            let some_events = content.approved_range_start < content.approved_range_end;
            let within_inventory = content.approved_range_end <= limits.max_inventory_event_ids;
            let some_entries = 0 < content.page_size && content.page_size
                <= limits.max_history_rewrap_entries;
            let some_time = content.issued_at_unix_seconds < content.expires_at_unix_seconds;
            let one_hour = content.expires_at_unix_seconds
                <= content.issued_at_unix_seconds + 3_600;
            &&& fault == Some(LinkError::UnsupportedVersion) <==> !supported
            &&& fault == Some(LinkError::DeviceListUnverified) <==> supported && !verified
            &&& fault == Some(LinkError::SourceUnauthorized) <==> supported && verified
                && !authorized
            &&& fault == Some(LinkError::SourceCertificateAbsent) <==> supported && verified
                && authorized && !source_listed
            &&& fault == Some(LinkError::RecipientAbsent) <==> supported && verified
                && authorized && source_listed && !recipient_listed
            &&& fault == Some(LinkError::SourceIsRecipient) <==> supported && verified
                && authorized && source_listed && recipient_listed && !two_devices
            &&& fault == Some(LinkError::EmptyRange) <==> supported && verified && authorized
                && source_listed && recipient_listed && two_devices && !some_events
            &&& fault == Some(LinkError::RangeBeyondInventory) <==> supported && verified
                && authorized && source_listed && recipient_listed && two_devices && some_events
                && !within_inventory
            &&& fault == Some(LinkError::PageSize) <==> supported && verified && authorized
                && source_listed && recipient_listed && two_devices && some_events
                && within_inventory && !some_entries
            &&& fault == Some(LinkError::EmptyWindow) <==> supported && verified && authorized
                && source_listed && recipient_listed && two_devices && some_events
                && within_inventory && some_entries && !some_time
            &&& fault == Some(LinkError::WindowTooLong) <==> supported && verified && authorized
                && source_listed && recipient_listed && two_devices && some_events
                && within_inventory && some_entries && some_time && !one_hour
            &&& fault is None <==> supported && verified && authorized && source_listed
                && recipient_listed && two_devices && some_events && within_inventory
                && some_entries && some_time && one_hour
        }),
{
    listing_is_exact(
        content.account_device_list,
        content.recipient_device_id,
        content.source_certificate,
    );
}

/// A link is sound exactly where its content is and its signature was verified. It can be used
/// exactly where it is sound, from two minutes before its issue to two minutes after its end.
pub proof fn usable_link_is_sound_and_current(
    link: SignedHistoryRecoveryLink,
    limits: ProtocolLimits,
    now: u64,
)
    ensures
        ({
            let issued = link.content.issued_at_unix_seconds;
            let expires = link.content.expires_at_unix_seconds;
            let content_fault = link.content.fault(limits);
            let fault = link.fault(limits);
            let fault_now = link.fault_at(limits, now);
            &&& content_fault is Some ==> fault == content_fault
            &&& content_fault is None ==> (fault is None <==> link.signature_verified)
            &&& content_fault is None && fault is Some ==> fault == Some(
                LinkError::SignatureInvalid,
            )
            &&& fault is Some ==> fault_now == fault
            &&& fault is None ==> (fault_now == Some(LinkError::IssuedInTheFuture) <==> now + 120
                < issued)
            &&& fault is None ==> (fault_now == Some(LinkError::Expired) <==> issued <= now + 120
                && expires + 120 < now)
            &&& fault is None ==> (fault_now is None <==> issued <= now + 120 && now <= expires
                + 120)
        }),
{
}

/// A link is for a recipient exactly where it can be used now, the recipient is of its account and
/// is the device that it names, and it lists the recipient's certificate.
pub proof fn link_for_a_recipient_meets_every_condition(
    link: SignedHistoryRecoveryLink,
    limits: ProtocolLimits,
    now: u64,
    recipient: DeviceCertificate,
)
    ensures
        ({
            let usable = link.fault_at(limits, now) is None;
            let fault = link.fault_for(limits, now, recipient);
            let same_account = link.content.source_certificate.account_id == recipient.account_id;
            let same_device = link.content.recipient_device_id == recipient.device_id;
            let listed = is_first_certificate(link.content.account_device_list, recipient);
            &&& usable ==> (fault == Some(LinkError::AccountMismatch) <==> !same_account)
            &&& usable ==> (fault == Some(LinkError::RecipientMismatch) <==> same_account
                && !same_device)
            &&& usable ==> (fault == Some(LinkError::RecipientCertificateDiffers)
                <==> same_account && same_device && !listed)
            &&& usable ==> (fault is None <==> same_account && same_device && listed)
            &&& !usable ==> fault == link.fault_at(limits, now)
        }),
{
    listing_is_exact(link.content.account_device_list, recipient.device_id, recipient);
}

/// A new link is refused exactly where its range or its end cannot be represented, its content is
/// not sound, or the signer is not its source.
pub proof fn new_link_meets_every_condition(
    signer: DeviceId,
    options: HistoryRecoveryLinkOptions,
    limits: ProtocolLimits,
    content: HistoryRecoveryLinkContent,
)
    ensures
        ({
            let fault = new_link_fault(signer, options, limits, content);
            let range_fits = options.approved_range_start + options.approved_event_count
                <= u64::MAX;
            let end_fits = options.issued_at_unix_seconds + options.valid_for_seconds <= u64::MAX;
            let sound = content.fault(limits) is None;
            let own = options.source_certificate.device_id == signer;
            &&& !range_fits ==> fault == Some(LinkError::RangeOverflow)
            &&& range_fits && !end_fits ==> fault == Some(LinkError::ExpirationOverflow)
            &&& range_fits && end_fits && !sound ==> fault == content.fault(limits)
            &&& range_fits && end_fits && sound && !own ==> fault == Some(
                LinkError::SignerNotSource,
            )
            &&& fault is None <==> range_fits && end_fits && sound && own
        }),
{
}

/// A link says what it was made of: who may recover from whom, what, and until when.
pub proof fn link_says_what_was_offered(
    options: HistoryRecoveryLinkOptions,
    content: HistoryRecoveryLinkContent,
)
    requires
        content_of(options, content),
    ensures
        content.version == 1,
        content.endpoint == options.endpoint,
        content.source_certificate == options.source_certificate,
        content.account_device_list == options.account_device_list,
        content.recipient_device_id == options.recipient_device_id,
        content.conversation_id == options.conversation_id,
        content.approved_range_start == options.approved_range_start,
        content.approved_range_end - content.approved_range_start == options.approved_event_count,
        content.page_size == options.page_size,
        content.route_policy == options.route_policy,
        content.issued_at_unix_seconds == options.issued_at_unix_seconds,
        content.expires_at_unix_seconds - content.issued_at_unix_seconds
            == options.valid_for_seconds,
        content.device_list_verified == options.device_list_verified,
        content.source_authorized == options.source_authorized,
{
}

/// What is read from the text of a link, white space around it aside, is what was written, where
/// the text fits in one QR code.
pub proof fn link_text_reads_back(encoded: Seq<u8>, text: Seq<char>)
    requires
        trimmed(text) == link_text(encoded),
    ensures
        link_payload(text) == if vstd::utf8::encode_utf8(link_text(encoded)).len() <= 2_953 {
            Ok::<Seq<u8>, LinkError>(encoded)
        } else {
            Err::<Seq<u8>, LinkError>(LinkError::TextTooLong)
        },
{
    let rest = base64url_text(encoded);
    crate::codec::base64url_reads_back(encoded);
    beginnings_and_endings(link_text(encoded), HISTORY_RECOVERY_LINK_PREFIX@, rest);
    assert(link_text(encoded).skip(HISTORY_RECOVERY_LINK_PREFIX@.len() as int) =~= rest);
}

/// A text is read as a link only where it is the prefix and the base64 of what is read; it is
/// refused for its length exactly where it does not fit in one QR code, and for its prefix exactly
/// where it fits and does not begin with it.
pub proof fn refused_link_text_has_its_reason(text: Seq<char>)
    ensures
        ({
            let line = trimmed(text);
            let fits = vstd::utf8::encode_utf8(line).len() <= 2_953;
            let prefixed = begins_with(line, HISTORY_RECOVERY_LINK_PREFIX@);
            &&& link_payload(text) == Err::<Seq<u8>, LinkError>(LinkError::TextTooLong) <==> !fits
            &&& link_payload(text) == Err::<Seq<u8>, LinkError>(LinkError::UnsupportedPrefix)
                <==> fits && !prefixed
            &&& link_payload(text) matches Ok(bytes) ==> line == HISTORY_RECOVERY_LINK_PREFIX@
                + base64url_text(bytes)
            &&& link_payload(text) matches Err(error) ==> error == LinkError::TextTooLong || error
                == LinkError::UnsupportedPrefix || error == LinkError::NotBase64
        }),
{
    let line = trimmed(text);
    beginnings_and_endings(line, HISTORY_RECOVERY_LINK_PREFIX@, line);
}

/// What is signed for a link and what its identifier is computed from begin with different texts,
/// each closed by a zero byte, so that neither is ever the other.
pub proof fn link_purposes_are_kept_apart(signed: Seq<u8>, identified: Seq<u8>)
    ensures
        link_signature_domain() == vstd::utf8::encode_utf8(
            "kilogram:history-recovery-link-signature:v1"@,
        ).push(0u8),
        link_id_domain() == vstd::utf8::encode_utf8("kilogram:history-recovery-link-id:v1"@).push(
            0u8,
        ),
        link_signature_domain() + signed != link_id_domain() + identified,
{
    reveal_strlit("kilogram:history-recovery-link-signature:v1");
    reveal_strlit("kilogram:history-recovery-link-signature:v1\0");
    assert("kilogram:history-recovery-link-signature:v1\0"@ =~= "kilogram:history-recovery-link-signature:v1"@.push('\0'));
    crate::codec::closed_text_ends_in_zero("kilogram:history-recovery-link-signature:v1"@, "kilogram:history-recovery-link-signature:v1\0"@);
    reveal_strlit("kilogram:history-recovery-link-id:v1");
    reveal_strlit("kilogram:history-recovery-link-id:v1\0");
    assert("kilogram:history-recovery-link-id:v1\0"@ =~= "kilogram:history-recovery-link-id:v1"@.push('\0'));
    crate::codec::closed_text_ends_in_zero("kilogram:history-recovery-link-id:v1"@, "kilogram:history-recovery-link-id:v1\0"@);
    let (a, b) = (link_signature_domain() + signed, link_id_domain() + identified);
    assert(a[31] == 's' as u8 && b[31] == 'i' as u8);
}

} // verus!
