//! History recovery plans: what a recipient device agreed to fetch, and in which network and
//! power conditions.

use crate::codec::{blake3_digest, blake3_hash, joined};
use crate::identity::{
    certificate_of, is_first_certificate, listing_is_exact, lists_device, AccountDeviceList,
    AuthoritySnapshot, DeviceCertificate, ProtocolLimits, RoutePolicy,
};
use crate::ids::{AccountId, ConversationId, DeviceId};
use crate::recovery_link::{saturating_sum, LinkError, SignedHistoryRecoveryLink};
use vstd::prelude::*;

verus! {

pub const HISTORY_RECOVERY_PLAN_VERSION: u8 = 1;

pub const HISTORY_RECOVERY_PLAN_CLOCK_SKEW_SECONDS: u64 = 120;

pub const DEFAULT_HISTORY_RECOVERY_PLAN_VALIDITY_HOURS: u64 = 24;

pub const MAX_HISTORY_RECOVERY_PLAN_VALIDITY_HOURS: u64 = 168;

pub const MAX_HISTORY_RECOVERY_PLAN_BYTES: usize = 65_536;

/// The network that a device is on.
#[derive(Clone, Copy, Debug, PartialEq, Eq, Structural)]
pub enum RecoveryNetworkClass {
    Ethernet,
    Wifi,
    Mobile,
    Unknown,
}

impl RecoveryNetworkClass {
    /// The name of the class.
    pub open spec fn label(self) -> Seq<char> {
        match self {
            RecoveryNetworkClass::Ethernet => "ethernet"@,
            RecoveryNetworkClass::Wifi => "wifi"@,
            RecoveryNetworkClass::Mobile => "mobile"@,
            RecoveryNetworkClass::Unknown => "unknown"@,
        }
    }

    /// The name of the class.
    pub fn as_str(self) -> (r: &'static str)
        ensures
            r@ == self.label(),
    {
        match self {
            RecoveryNetworkClass::Ethernet => "ethernet",
            RecoveryNetworkClass::Wifi => "wifi",
            RecoveryNetworkClass::Mobile => "mobile",
            RecoveryNetworkClass::Unknown => "unknown",
        }
    }
}

/// What powers a device.
#[derive(Clone, Copy, Debug, PartialEq, Eq, Structural)]
pub enum RecoveryPowerSource {
    External,
    Battery,
    Unknown,
}

impl RecoveryPowerSource {
    /// The name of the source.
    pub open spec fn label(self) -> Seq<char> {
        match self {
            RecoveryPowerSource::External => "external"@,
            RecoveryPowerSource::Battery => "battery"@,
            RecoveryPowerSource::Unknown => "unknown"@,
        }
    }

    /// The name of the source.
    pub fn as_str(self) -> (r: &'static str)
        ensures
            r@ == self.label(),
    {
        match self {
            RecoveryPowerSource::External => "external",
            RecoveryPowerSource::Battery => "battery",
            RecoveryPowerSource::Unknown => "unknown",
        }
    }
}

/// Why a plan is refused.
#[derive(Clone, Copy, Debug, PartialEq, Eq, Structural)]
pub enum PlanError {
    EveryNetworkBlocked,
    Link { error: LinkError },
    SignerNotRecipient,
    ValidityHours,
    ExpirationOverflow,
    UnsupportedVersion,
    DeviceListUnverified,
    SourceAbsent,
    SourceUnauthorized,
    RecipientAbsent,
    RecipientUnauthorized,
    SourceIsRecipient,
    SasUnavailable,
    SasMismatch,
    Range,
    PageSize,
    EmptyWindow,
    WindowTooLong,
    SignatureInvalid,
    ApprovedInTheFuture,
    Expired,
    EncodingSize,
    RecipientMismatch,
    AccountMismatch,
    RecipientCertificateDiffers,
    ConversationMismatch,
    AuthorityStale,
    NotAMember,
}

/// The networks and the power on which a recovery may run.
#[derive(Clone, Copy, Debug, PartialEq, Eq, Structural)]
pub struct RecoveryExecutionPolicy {
    pub allow_ethernet: bool,
    pub allow_wifi: bool,
    pub allow_mobile: bool,
    pub allow_unknown_network: bool,
    pub require_external_power: bool,
}

impl RecoveryExecutionPolicy {
    /// At least one network is allowed.
    pub open spec fn valid(self) -> bool {
        self.allow_ethernet || self.allow_wifi || self.allow_mobile || self.allow_unknown_network
    }

    /// The recovery may run on this network and this power.
    pub open spec fn permits(self, network: RecoveryNetworkClass, power: RecoveryPowerSource) -> bool {
        &&& match network {
            RecoveryNetworkClass::Ethernet => self.allow_ethernet,
            RecoveryNetworkClass::Wifi => self.allow_wifi,
            RecoveryNetworkClass::Mobile => self.allow_mobile,
            RecoveryNetworkClass::Unknown => self.allow_unknown_network,
        }
        &&& self.require_external_power ==> power == RecoveryPowerSource::External
    }

    /// A policy that allows at least one network.
    pub fn new(
        allow_ethernet: bool,
        allow_wifi: bool,
        allow_mobile: bool,
        allow_unknown_network: bool,
        require_external_power: bool,
    ) -> (r: Result<RecoveryExecutionPolicy, PlanError>)
        ensures
            ({
                let policy = RecoveryExecutionPolicy {
                    allow_ethernet,
                    allow_wifi,
                    allow_mobile,
                    allow_unknown_network,
                    require_external_power,
                };
                r == if policy.valid() {
                    Ok::<RecoveryExecutionPolicy, PlanError>(policy)
                } else {
                    Err(PlanError::EveryNetworkBlocked)
                }
            }),
    {
        let policy = RecoveryExecutionPolicy {
            allow_ethernet,
            allow_wifi,
            allow_mobile,
            allow_unknown_network,
            require_external_power,
        };
        match policy.validate() {
            Ok(()) => Ok(policy),
            Err(error) => Err(error),
        }
    }

    /// Whether the recovery may run on this network and this power.
    pub fn allows(self, network: RecoveryNetworkClass, power: RecoveryPowerSource) -> (r: bool)
        ensures
            r == self.permits(network, power),
    {
        let network_allowed = match network {
            RecoveryNetworkClass::Ethernet => self.allow_ethernet,
            RecoveryNetworkClass::Wifi => self.allow_wifi,
            RecoveryNetworkClass::Mobile => self.allow_mobile,
            RecoveryNetworkClass::Unknown => self.allow_unknown_network,
        };
        let power_allowed = !self.require_external_power || power == RecoveryPowerSource::External;
        network_allowed && power_allowed
    }

    /// Whether Ethernet is allowed.
    pub fn allow_ethernet(self) -> (r: bool)
        ensures
            r == self.allow_ethernet,
    {
        self.allow_ethernet
    }

    /// Whether Wi-Fi is allowed.
    pub fn allow_wifi(self) -> (r: bool)
        ensures
            r == self.allow_wifi,
    {
        self.allow_wifi
    }

    /// Whether a mobile network is allowed.
    pub fn allow_mobile(self) -> (r: bool)
        ensures
            r == self.allow_mobile,
    {
        self.allow_mobile
    }

    /// Whether a network of unknown class is allowed.
    pub fn allow_unknown_network(self) -> (r: bool)
        ensures
            r == self.allow_unknown_network,
    {
        self.allow_unknown_network
    }

    /// Whether external power is required.
    pub fn require_external_power(self) -> (r: bool)
        ensures
            r == self.require_external_power,
    {
        self.require_external_power
    }

    /// Tests that at least one network is allowed.
    pub fn validate(self) -> (r: Result<(), PlanError>)
        ensures
            r == if self.valid() {
                Ok::<(), PlanError>(())
            } else {
                Err(PlanError::EveryNetworkBlocked)
            },
    {
        if self.allow_ethernet || self.allow_wifi || self.allow_mobile
            || self.allow_unknown_network {
            Ok(())
        } else {
            Err(PlanError::EveryNetworkBlocked)
        }
    }
}

/// A policy that requires external power never permits a run on battery or on unknown power,
/// and a network that the policy does not name never permits a run, whatever the power.
pub proof fn policy_fails_closed(
    policy: RecoveryExecutionPolicy,
    network: RecoveryNetworkClass,
    power: RecoveryPowerSource,
)
    ensures
        policy.require_external_power && power != RecoveryPowerSource::External
            ==> !policy.permits(network, power),
        !policy.allow_unknown_network ==> !policy.permits(RecoveryNetworkClass::Unknown, power),
        !policy.allow_mobile ==> !policy.permits(RecoveryNetworkClass::Mobile, power),
        !policy.valid() ==> !policy.permits(network, power),
{
}

/// What a plan says. `device_list_verified` tells whether the device list was verified for the
/// account; `source_authorized` and `recipient_authorized` whether the list's authority
/// snapshot authorizes the two devices for messaging; `derived_sas` is the short
/// authentication string that the list and the two devices derive.
#[derive(Debug)]
pub struct HistoryRecoveryPlanContent {
    pub version: u8,
    pub account_id: AccountId,
    pub account_device_list: AccountDeviceList,
    pub source_device_id: DeviceId,
    pub recipient_device_id: DeviceId,
    pub conversation_id: ConversationId,
    pub sas: String,
    pub approved_range_start: u64,
    pub approved_range_end: u64,
    pub page_size: u64,
    pub route_policy: RoutePolicy,
    pub execution_policy: RecoveryExecutionPolicy,
    pub approved_at_unix_seconds: u64,
    pub expires_at_unix_seconds: u64,
    pub device_list_verified: bool,
    pub source_authorized: bool,
    pub recipient_authorized: bool,
    pub derived_sas: Option<String>,
}

/// A signed plan. `signature_verified` tells whether the recipient device's signature over the
/// content was verified.
#[derive(Debug)]
pub struct SignedHistoryRecoveryPlan {
    pub content: HistoryRecoveryPlanContent,
    pub signature_verified: bool,
}

impl HistoryRecoveryPlanContent {
    /// The first rule that the content breaks.
    pub open spec fn fault(self, limits: ProtocolLimits) -> Option<PlanError> {
        let list = self.account_device_list.certificates@;
        if self.version != HISTORY_RECOVERY_PLAN_VERSION {
            Some(PlanError::UnsupportedVersion)
        } else if !self.device_list_verified {
            Some(PlanError::DeviceListUnverified)
        } else if certificate_of(list, self.source_device_id) is None {
            Some(PlanError::SourceAbsent)
        } else if !self.source_authorized {
            Some(PlanError::SourceUnauthorized)
        } else if certificate_of(list, self.recipient_device_id) is None {
            Some(PlanError::RecipientAbsent)
        } else if !self.recipient_authorized {
            Some(PlanError::RecipientUnauthorized)
        } else if self.source_device_id == self.recipient_device_id {
            Some(PlanError::SourceIsRecipient)
        } else if self.derived_sas is None {
            Some(PlanError::SasUnavailable)
        } else if self.derived_sas->0@ != self.sas@ {
            Some(PlanError::SasMismatch)
        } else if !(self.approved_range_start < self.approved_range_end
            <= limits.max_inventory_event_ids) {
            Some(PlanError::Range)
        } else if !(1 <= self.page_size <= limits.max_history_rewrap_entries) {
            Some(PlanError::PageSize)
        } else if !self.execution_policy.valid() {
            Some(PlanError::EveryNetworkBlocked)
        } else if self.approved_at_unix_seconds >= self.expires_at_unix_seconds {
            Some(PlanError::EmptyWindow)
        } else if self.expires_at_unix_seconds - self.approved_at_unix_seconds
            > MAX_HISTORY_RECOVERY_PLAN_VALIDITY_HOURS * 3_600 {
            Some(PlanError::WindowTooLong)
        } else {
            None
        }
    }

    /// Tests the content against every rule.
    pub fn validate_content(&self, limits: ProtocolLimits) -> (r: Result<(), PlanError>)
        ensures
            match self.fault(limits) {
                None => r is Ok,
                Some(error) => r == Err::<(), PlanError>(error),
            },
    {
        if self.version != HISTORY_RECOVERY_PLAN_VERSION {
            return Err(PlanError::UnsupportedVersion);
        }
        if !self.device_list_verified {
            return Err(PlanError::DeviceListUnverified);
        }
        if self.account_device_list.certificate_for(self.source_device_id).is_none() {
            return Err(PlanError::SourceAbsent);
        }
        if !self.source_authorized {
            return Err(PlanError::SourceUnauthorized);
        }
        if self.account_device_list.certificate_for(self.recipient_device_id).is_none() {
            return Err(PlanError::RecipientAbsent);
        }
        if !self.recipient_authorized {
            return Err(PlanError::RecipientUnauthorized);
        }
        if self.source_device_id == self.recipient_device_id {
            return Err(PlanError::SourceIsRecipient);
        }
        match &self.derived_sas {
            None => {
                return Err(PlanError::SasUnavailable);
            },
            Some(sas) => {
                if *sas != self.sas {
                    return Err(PlanError::SasMismatch);
                }
            },
        }
        if !(self.approved_range_start < self.approved_range_end && self.approved_range_end
            <= limits.max_inventory_event_ids) {
            return Err(PlanError::Range);
        }
        if !(1 <= self.page_size && self.page_size <= limits.max_history_rewrap_entries) {
            return Err(PlanError::PageSize);
        }
        if let Err(error) = self.execution_policy.validate() {
            return Err(error);
        }
        if self.approved_at_unix_seconds >= self.expires_at_unix_seconds {
            return Err(PlanError::EmptyWindow);
        }
        if self.expires_at_unix_seconds - self.approved_at_unix_seconds
            > MAX_HISTORY_RECOVERY_PLAN_VALIDITY_HOURS * 3_600 {
            return Err(PlanError::WindowTooLong);
        }
        Ok(())
    }
}

/// What a new plan is made from. `source_authorized` and `recipient_authorized` tell whether
/// the link's authority snapshot authorizes the two devices for messaging.
#[derive(Debug)]
pub struct HistoryRecoveryPlanOptions {
    pub link: SignedHistoryRecoveryLink,
    pub execution_policy: RecoveryExecutionPolicy,
    pub approved_at_unix_seconds: u64,
    pub valid_for_hours: u64,
    pub source_authorized: bool,
    pub recipient_authorized: bool,
}

/// The bytes that begin what a recipient device signs.
pub open spec fn plan_signature_domain() -> Seq<u8> {
    vstd::utf8::encode_utf8("kilogram:history-recovery-plan-signature:v1\0"@)
}

/// The bytes that begin what a plan identifier is the digest of.
pub open spec fn plan_id_domain() -> Seq<u8> {
    vstd::utf8::encode_utf8("kilogram:history-recovery-plan-id:v1\0"@)
}

/// The bytes that a recipient device signs, given the encoded content.
pub fn plan_signing_bytes(encoded_content: &[u8]) -> (r: Vec<u8>)
    ensures
        r@ == plan_signature_domain() + encoded_content@,
{
    joined("kilogram:history-recovery-plan-signature:v1\0".as_bytes(), encoded_content)
}

/// The content of a plan speaks of the same devices, history and route as the link.
pub open spec fn same_terms(
    content: HistoryRecoveryPlanContent,
    link: SignedHistoryRecoveryLink,
) -> bool {
    &&& link.content.source_certificate.account_id == content.account_id
    &&& link.content.account_device_list.digest == content.account_device_list.digest
    &&& link.content.source_certificate.device_id == content.source_device_id
    &&& link.content.recipient_device_id == content.recipient_device_id
    &&& link.content.conversation_id == content.conversation_id
    &&& link.derived_sas matches Some(sas) && sas@ == content.sas@
    &&& link.content.approved_range_start == content.approved_range_start
    &&& link.content.approved_range_end == content.approved_range_end
    &&& link.content.page_size == content.page_size
    &&& link.content.route_policy == content.route_policy
}

/// `content` is what approving the link under `options` agrees to.
pub open spec fn approval_of(
    options: HistoryRecoveryPlanOptions,
    content: HistoryRecoveryPlanContent,
) -> bool {
    &&& content.version == HISTORY_RECOVERY_PLAN_VERSION
    &&& same_terms(content, options.link)
    &&& content.account_device_list.authority == options.link.content.account_device_list.authority
    &&& content.account_device_list.certificates@
        == options.link.content.account_device_list.certificates@
    &&& content.execution_policy == options.execution_policy
    &&& content.approved_at_unix_seconds == options.approved_at_unix_seconds
    &&& content.expires_at_unix_seconds == options.approved_at_unix_seconds
        + options.valid_for_hours * 3_600
    &&& content.device_list_verified == options.link.content.device_list_verified
    &&& content.source_authorized == options.source_authorized
    &&& content.recipient_authorized == options.recipient_authorized
    &&& content.derived_sas matches Some(sas) && sas@ == content.sas@
}

/// The first reason for which a link cannot be approved before its content is looked at.
pub open spec fn approval_fault(
    signer: DeviceId,
    options: HistoryRecoveryPlanOptions,
    limits: ProtocolLimits,
) -> Option<PlanError> {
    match options.link.fault_at(limits, options.approved_at_unix_seconds) {
        Some(error) => Some(PlanError::Link { error }),
        None => if signer != options.link.content.recipient_device_id {
            Some(PlanError::SignerNotRecipient)
        } else if !(1 <= options.valid_for_hours <= MAX_HISTORY_RECOVERY_PLAN_VALIDITY_HOURS) {
            Some(PlanError::ValidityHours)
        } else if options.approved_at_unix_seconds + options.valid_for_hours * 3_600 > u64::MAX {
            Some(PlanError::ExpirationOverflow)
        } else if options.link.derived_sas is None {
            Some(PlanError::SasUnavailable)
        } else {
            None
        },
    }
}

impl SignedHistoryRecoveryPlan {
    /// Makes the content that the recipient device is to sign.
    pub fn approve(
        signer: DeviceId,
        options: &HistoryRecoveryPlanOptions,
        limits: ProtocolLimits,
    ) -> (r: Result<HistoryRecoveryPlanContent, PlanError>)
        ensures
            match approval_fault(signer, *options, limits) {
                Some(error) => r == Err::<HistoryRecoveryPlanContent, PlanError>(error),
                None => match r {
                    Ok(content) => approval_of(*options, content) && content.fault(limits) is None,
                    Err(error) => exists|content: HistoryRecoveryPlanContent|
                        approval_of(*options, content) && #[trigger] content.fault(limits) == Some(
                            error,
                        ),
                },
            },
    {
        if let Err(error) = options.link.verify_at(options.approved_at_unix_seconds, limits) {
            return Err(PlanError::Link { error });
        }
        if signer != options.link.content.recipient_device_id {
            return Err(PlanError::SignerNotRecipient);
        }
        if !(1 <= options.valid_for_hours && options.valid_for_hours
            <= MAX_HISTORY_RECOVERY_PLAN_VALIDITY_HOURS) {
            return Err(PlanError::ValidityHours);
        }
        let expires_at_unix_seconds: u64 = match options.approved_at_unix_seconds.checked_add(
            options.valid_for_hours * 3_600,
        ) {
            None => {
                return Err(PlanError::ExpirationOverflow);
            },
            Some(expires) => expires,
        };
        let sas = match &options.link.derived_sas {
            None => {
                return Err(PlanError::SasUnavailable);
            },
            Some(sas) => sas.clone(),
        };
        let content = HistoryRecoveryPlanContent {
            version: HISTORY_RECOVERY_PLAN_VERSION,
            account_id: options.link.account_id(),
            account_device_list: options.link.content.account_device_list.duplicate(),
            source_device_id: options.link.source_device_id(),
            recipient_device_id: options.link.content.recipient_device_id,
            conversation_id: options.link.content.conversation_id,
            sas: sas.clone(),
            approved_range_start: options.link.content.approved_range_start,
            approved_range_end: options.link.content.approved_range_end,
            page_size: options.link.content.page_size,
            route_policy: options.link.content.route_policy,
            execution_policy: options.execution_policy,
            approved_at_unix_seconds: options.approved_at_unix_seconds,
            expires_at_unix_seconds,
            device_list_verified: options.link.content.device_list_verified,
            source_authorized: options.source_authorized,
            recipient_authorized: options.recipient_authorized,
            derived_sas: Some(sas),
        };
        assert(approval_of(*options, content));
        match content.validate_content(limits) {
            Ok(()) => Ok(content),
            Err(error) => {
                assert(content.fault(limits) == Some(error));
                Err(error)
            },
        }
    }

    /// The first reason for which the plan is not valid in itself.
    pub open spec fn fault(self, limits: ProtocolLimits) -> Option<PlanError> {
        match self.content.fault(limits) {
            Some(error) => Some(error),
            None => if self.signature_verified {
                None
            } else {
                Some(PlanError::SignatureInvalid)
            },
        }
    }

    /// The first reason for which the plan is not valid at a time.
    pub open spec fn fault_at(self, limits: ProtocolLimits, now: u64) -> Option<PlanError> {
        match self.fault(limits) {
            Some(error) => Some(error),
            None => if self.content.approved_at_unix_seconds > saturating_sum(
                now,
                HISTORY_RECOVERY_PLAN_CLOCK_SKEW_SECONDS,
            ) {
                Some(PlanError::ApprovedInTheFuture)
            } else if now > saturating_sum(
                self.content.expires_at_unix_seconds,
                HISTORY_RECOVERY_PLAN_CLOCK_SKEW_SECONDS,
            ) {
                Some(PlanError::Expired)
            } else {
                None
            },
        }
    }

    /// Tests the plan's content and signature.
    pub fn verify(&self, limits: ProtocolLimits) -> (r: Result<(), PlanError>)
        ensures
            match self.fault(limits) {
                None => r is Ok,
                Some(error) => r == Err::<(), PlanError>(error),
            },
    {
        if let Err(error) = self.content.validate_content(limits) {
            return Err(error);
        }
        if !self.signature_verified {
            return Err(PlanError::SignatureInvalid);
        }
        Ok(())
    }

    /// Tests the plan, and that `now` lies in its validity window, two minutes either way.
    pub fn verify_at(&self, now_unix_seconds: u64, limits: ProtocolLimits) -> (r: Result<
        (),
        PlanError,
    >)
        ensures
            match self.fault_at(limits, now_unix_seconds) {
                None => r is Ok,
                Some(error) => r == Err::<(), PlanError>(error),
            },
    {
        if let Err(error) = self.verify(limits) {
            return Err(error);
        }
        if self.content.approved_at_unix_seconds > now_unix_seconds.saturating_add(
            HISTORY_RECOVERY_PLAN_CLOCK_SKEW_SECONDS,
        ) {
            return Err(PlanError::ApprovedInTheFuture);
        }
        if now_unix_seconds > self.content.expires_at_unix_seconds.saturating_add(
            HISTORY_RECOVERY_PLAN_CLOCK_SKEW_SECONDS,
        ) {
            return Err(PlanError::Expired);
        }
        Ok(())
    }

    /// Tests an encoding of a valid plan for its size.
    pub fn encode(&self, encoded: &[u8], limits: ProtocolLimits) -> (r: Result<(), PlanError>)
        ensures
            match self.fault(limits) {
                Some(error) => r == Err::<(), PlanError>(error),
                None => r == if encoded@.len() <= MAX_HISTORY_RECOVERY_PLAN_BYTES {
                    Ok::<(), PlanError>(())
                } else {
                    Err(PlanError::EncodingSize)
                },
            },
    {
        if let Err(error) = self.verify(limits) {
            return Err(error);
        }
        if encoded.len() > MAX_HISTORY_RECOVERY_PLAN_BYTES {
            return Err(PlanError::EncodingSize);
        }
        Ok(())
    }

    /// Tests the bytes of a plan file before they are decoded.
    pub fn decode(bytes: &[u8]) -> (r: Result<(), PlanError>)
        ensures
            r == if 0 < bytes@.len() <= MAX_HISTORY_RECOVERY_PLAN_BYTES {
                Ok::<(), PlanError>(())
            } else {
                Err(PlanError::EncodingSize)
            },
    {
        if bytes.len() == 0 || bytes.len() > MAX_HISTORY_RECOVERY_PLAN_BYTES {
            Err(PlanError::EncodingSize)
        } else {
            Ok(())
        }
    }

    /// What comparing the plan with a link gives: the first fault of the two, or whether they
    /// speak of the same terms.
    pub open spec fn comparison(self, link: SignedHistoryRecoveryLink, limits: ProtocolLimits) -> Result<
        bool,
        PlanError,
    > {
        match self.fault(limits) {
            Some(error) => Err(error),
            None => match link.fault(limits) {
                Some(error) => Err(PlanError::Link { error }),
                None => if link.content.source_certificate.account_id != self.content.account_id
                    || link.content.account_device_list.digest
                    != self.content.account_device_list.digest
                    || link.content.source_certificate.device_id != self.content.source_device_id
                    || link.content.recipient_device_id != self.content.recipient_device_id
                    || link.content.conversation_id != self.content.conversation_id {
                    Ok(false)
                } else if link.derived_sas is None {
                    Err(PlanError::SasUnavailable)
                } else {
                    Ok(same_terms(self.content, link))
                },
            },
        }
    }

    /// Whether a link offers what the plan agreed to. The endpoint and the times of the link
    /// may differ from those of the link that was approved.
    pub fn matches_link(&self, link: &SignedHistoryRecoveryLink, limits: ProtocolLimits) -> (r:
        Result<bool, PlanError>)
        ensures
            r == self.comparison(*link, limits),
    {
        if let Err(error) = self.verify(limits) {
            return Err(error);
        }
        if let Err(error) = link.verify(limits) {
            return Err(PlanError::Link { error });
        }
        if link.content.source_certificate.account_id != self.content.account_id
            || link.content.account_device_list.digest != self.content.account_device_list.digest
            || link.content.source_certificate.device_id != self.content.source_device_id
            || link.content.recipient_device_id != self.content.recipient_device_id
            || link.content.conversation_id != self.content.conversation_id {
            return Ok(false);
        }
        let same_sas = match &link.derived_sas {
            None => {
                return Err(PlanError::SasUnavailable);
            },
            Some(sas) => *sas == self.content.sas,
        };
        Ok(
            same_sas && link.content.approved_range_start == self.content.approved_range_start
                && link.content.approved_range_end == self.content.approved_range_end
                && link.content.page_size == self.content.page_size && link.content.route_policy
                == self.content.route_policy,
        )
    }

    /// The identifier of a valid plan: the digest of its encoding under a domain of its own.
    pub fn plan_id(&self, encoded: &[u8], limits: ProtocolLimits) -> (r: Result<
        [u8; 32],
        PlanError,
    >)
        ensures
            match self.fault(limits) {
                Some(error) => r == Err::<[u8; 32], PlanError>(error),
                None => r matches Ok(id) && id@ == blake3_hash(plan_id_domain() + encoded@),
            },
    {
        if let Err(error) = self.verify(limits) {
            return Err(error);
        }
        let input = joined("kilogram:history-recovery-plan-id:v1\0".as_bytes(), encoded);
        Ok(blake3_digest(&input))
    }

    /// The number of events that the plan agreed to fetch.
    pub fn approved_event_count(&self) -> (r: u64)
        ensures
            r == if self.content.approved_range_end > self.content.approved_range_start {
                self.content.approved_range_end - self.content.approved_range_start
            } else {
                0
            },
    {
        self.content.approved_range_end.saturating_sub(self.content.approved_range_start)
    }

    /// The first reason for which the local device may not carry out the plan.
    pub open spec fn local_fault(
        self,
        limits: ProtocolLimits,
        now: u64,
        local: DeviceCertificate,
        local_authority: AuthoritySnapshot,
        conversation_id: ConversationId,
        is_member: bool,
    ) -> Option<PlanError> {
        let listed = self.content.account_device_list.authority;
        match self.fault_at(limits, now) {
            Some(error) => Some(error),
            None => if local.device_id != self.content.recipient_device_id {
                Some(PlanError::RecipientMismatch)
            } else if local.account_id != self.content.account_id {
                Some(PlanError::AccountMismatch)
            } else if certificate_of(
                self.content.account_device_list.certificates@,
                local.device_id,
            ) != Some(local) {
                Some(PlanError::RecipientCertificateDiffers)
            } else if conversation_id != self.content.conversation_id {
                Some(PlanError::ConversationMismatch)
            } else if !(listed.revision > local_authority.revision || listed == local_authority) {
                Some(PlanError::AuthorityStale)
            } else if !is_member {
                Some(PlanError::NotAMember)
            } else {
                None
            },
        }
    }

    /// Tests that the local device may carry out the plan for a conversation. `is_member`
    /// tells whether the plan's account is a member of that conversation.
    pub fn verify_history_recovery_plan_locally(
        &self,
        now_unix_seconds: u64,
        local_certificate: DeviceCertificate,
        local_authority: AuthoritySnapshot,
        conversation_id: ConversationId,
        is_member: bool,
        limits: ProtocolLimits,
    ) -> (r: Result<(), PlanError>)
        ensures
            match self.local_fault(
                limits,
                now_unix_seconds,
                local_certificate,
                local_authority,
                conversation_id,
                is_member,
            ) {
                None => r is Ok,
                Some(error) => r == Err::<(), PlanError>(error),
            },
    {
        if let Err(error) = self.verify_at(now_unix_seconds, limits) {
            return Err(error);
        }
        if local_certificate.device_id != self.content.recipient_device_id {
            return Err(PlanError::RecipientMismatch);
        }
        if local_certificate.account_id != self.content.account_id {
            return Err(PlanError::AccountMismatch);
        }
        match self.content.account_device_list.certificate_for(local_certificate.device_id) {
            None => {
                return Err(PlanError::RecipientCertificateDiffers);
            },
            Some(certificate) => {
                if certificate != local_certificate {
                    return Err(PlanError::RecipientCertificateDiffers);
                }
            },
        }
        if conversation_id != self.content.conversation_id {
            return Err(PlanError::ConversationMismatch);
        }
        let listed = self.content.account_device_list.authority;
        if !(listed.revision > local_authority.revision || (listed.revision
            == local_authority.revision && listed == local_authority)) {
            return Err(PlanError::AuthorityStale);
        }
        if !is_member {
            return Err(PlanError::NotAMember);
        }
        Ok(())
    }
}

/// The short authentication strings of two links were derived alike: they come from the device
/// list and the two devices alone, so that links which agree in these have the same one.
pub open spec fn derived_alike(
    one: SignedHistoryRecoveryLink,
    other: SignedHistoryRecoveryLink,
) -> bool {
    one.content.account_device_list.digest == other.content.account_device_list.digest
        && one.content.source_certificate.device_id == other.content.source_certificate.device_id
        && one.content.recipient_device_id == other.content.recipient_device_id ==> match (
        one.derived_sas,
        other.derived_sas,
    ) {
        (Some(a), Some(b)) => a@ == b@,
        (None, None) => true,
        _ => false,
    }
}

/// Two links offer the same history of the same account between the same devices, by the same
/// route. Their endpoints and times may differ.
pub open spec fn offer_alike(
    one: SignedHistoryRecoveryLink,
    other: SignedHistoryRecoveryLink,
) -> bool {
    &&& one.content.source_certificate.account_id == other.content.source_certificate.account_id
    &&& one.content.account_device_list.digest == other.content.account_device_list.digest
    &&& one.content.source_certificate.device_id == other.content.source_certificate.device_id
    &&& one.content.recipient_device_id == other.content.recipient_device_id
    &&& one.content.conversation_id == other.content.conversation_id
    &&& one.content.approved_range_start == other.content.approved_range_start
    &&& one.content.approved_range_end == other.content.approved_range_end
    &&& one.content.page_size == other.content.page_size
    &&& one.content.route_policy == other.content.route_policy
}

/// A plan matches the link that it was approved from. Of the other valid links, it matches those
/// that offer the same terms from another endpoint or at another time, and no others.
pub proof fn plan_matches_exactly_the_links_of_its_terms(
    options: HistoryRecoveryPlanOptions,
    plan: SignedHistoryRecoveryPlan,
    other: SignedHistoryRecoveryLink,
    limits: ProtocolLimits,
)
    requires
        approval_of(options, plan.content),
        plan.fault(limits) is None,
        options.link.fault(limits) is None,
        other.fault(limits) is None,
        derived_alike(options.link, other),
    ensures
        plan.comparison(options.link, limits) == Ok::<bool, PlanError>(true),
        plan.comparison(other, limits) == Ok::<bool, PlanError>(offer_alike(options.link, other)),
{
}

/// A plan that keeps every rule is accepted exactly between two minutes before it was approved
/// and two minutes after it expires, which is at most a week later.
pub proof fn plan_is_accepted_in_its_window(
    plan: SignedHistoryRecoveryPlan,
    limits: ProtocolLimits,
    now: u64,
)
    requires
        plan.fault(limits) is None,
    ensures
        plan.fault_at(limits, now) is None <==> plan.content.approved_at_unix_seconds <= now
            + HISTORY_RECOVERY_PLAN_CLOCK_SKEW_SECONDS && now
            <= plan.content.expires_at_unix_seconds + HISTORY_RECOVERY_PLAN_CLOCK_SKEW_SECONDS,
        plan.content.expires_at_unix_seconds - plan.content.approved_at_unix_seconds <= 604_800,
{
}

/// A policy permits to go on exactly where it allows the network and, if it asks for external
/// power, has it.
pub proof fn policy_permits_what_it_allows(
    policy: RecoveryExecutionPolicy,
    network: RecoveryNetworkClass,
    power: RecoveryPowerSource,
)
    ensures
        ({
            let powered = power == RecoveryPowerSource::External || !policy.require_external_power;
            &&& policy.permits(RecoveryNetworkClass::Ethernet, power) <==> policy.allow_ethernet
                && powered
            &&& policy.permits(RecoveryNetworkClass::Wifi, power) <==> policy.allow_wifi && powered
            &&& policy.permits(RecoveryNetworkClass::Mobile, power) <==> policy.allow_mobile
                && powered
            &&& policy.permits(RecoveryNetworkClass::Unknown, power)
                <==> policy.allow_unknown_network && powered
        }),
        policy.valid() <==> exists|class: RecoveryNetworkClass| #[trigger]
            policy.permits(class, RecoveryPowerSource::External),
{
    if policy.valid() {
        assert(policy.permits(RecoveryNetworkClass::Ethernet, RecoveryPowerSource::External)
            || policy.permits(RecoveryNetworkClass::Wifi, RecoveryPowerSource::External)
            || policy.permits(RecoveryNetworkClass::Mobile, RecoveryPowerSource::External)
            || policy.permits(RecoveryNetworkClass::Unknown, RecoveryPowerSource::External));
    }
}

/// The content of a plan is sound exactly where it meets each of these conditions, and the first
/// that it does not meet names the error.
pub proof fn sound_plan_meets_every_condition(
    content: HistoryRecoveryPlanContent,
    limits: ProtocolLimits,
    certificate: DeviceCertificate,
)
    ensures
        ({
            let fault = content.fault(limits);
            let supported = content.version == 1;
            let verified = content.device_list_verified;
            let source_listed = lists_device(content.account_device_list, content.source_device_id);
            let source_authorized = content.source_authorized;
            let recipient_listed = lists_device(content.account_device_list, content.recipient_device_id);
            let recipient_authorized = content.recipient_authorized;
            let two_devices = content.recipient_device_id != content.source_device_id;
            let derived = content.derived_sas is Some;
            let same_sas = content.sas@ == content.derived_sas->0@;
            let some_events = content.approved_range_start < content.approved_range_end
                && content.approved_range_end <= limits.max_inventory_event_ids;
            let some_entries = 0 < content.page_size && content.page_size
                <= limits.max_history_rewrap_entries;
            let some_network = content.execution_policy.allow_ethernet
                || content.execution_policy.allow_wifi || content.execution_policy.allow_mobile
                || content.execution_policy.allow_unknown_network;
            let some_time = content.approved_at_unix_seconds < content.expires_at_unix_seconds;
            let one_week = content.expires_at_unix_seconds
                <= content.approved_at_unix_seconds + 604_800;
            &&& fault == Some(PlanError::UnsupportedVersion) <==> !supported
            &&& fault == Some(PlanError::DeviceListUnverified) <==> supported && !verified
            &&& fault == Some(PlanError::SourceAbsent) <==> supported && verified && !source_listed
            &&& fault == Some(PlanError::SourceUnauthorized) <==> supported && verified
                && source_listed && !source_authorized
            &&& fault == Some(PlanError::RecipientAbsent) <==> supported && verified
                && source_listed && source_authorized && !recipient_listed
            &&& fault == Some(PlanError::RecipientUnauthorized) <==> supported && verified
                && source_listed && source_authorized && recipient_listed && !recipient_authorized
            &&& fault == Some(PlanError::SourceIsRecipient) <==> supported && verified
                && source_listed && source_authorized && recipient_listed
                && recipient_authorized && !two_devices
            &&& fault == Some(PlanError::SasUnavailable) <==> supported && verified
                && source_listed && source_authorized && recipient_listed
                && recipient_authorized && two_devices && !derived
            &&& fault == Some(PlanError::SasMismatch) <==> supported && verified
                && source_listed && source_authorized && recipient_listed
                && recipient_authorized && two_devices && derived && !same_sas
            &&& fault == Some(PlanError::Range) <==> supported && verified && source_listed
                && source_authorized && recipient_listed && recipient_authorized && two_devices
                && derived && same_sas && !some_events
            &&& fault == Some(PlanError::PageSize) <==> supported && verified && source_listed
                && source_authorized && recipient_listed && recipient_authorized && two_devices
                && derived && same_sas && some_events && !some_entries
            &&& fault == Some(PlanError::EveryNetworkBlocked) <==> supported && verified
                && source_listed && source_authorized && recipient_listed
                && recipient_authorized && two_devices && derived && same_sas && some_events
                && some_entries && !some_network
            &&& fault == Some(PlanError::EmptyWindow) <==> supported && verified
                && source_listed && source_authorized && recipient_listed
                && recipient_authorized && two_devices && derived && same_sas && some_events
                && some_entries && some_network && !some_time
            &&& fault == Some(PlanError::WindowTooLong) <==> supported && verified
                && source_listed && source_authorized && recipient_listed
                && recipient_authorized && two_devices && derived && same_sas && some_events
                && some_entries && some_network && some_time && !one_week
            &&& fault is None <==> supported && verified && source_listed && source_authorized
                && recipient_listed && recipient_authorized && two_devices && derived
                && same_sas && some_events && some_entries && some_network && some_time && one_week
        }),
{
    let list = content.account_device_list;
    listing_is_exact(list, content.source_device_id, certificate);
    listing_is_exact(list, content.recipient_device_id, certificate);
}

/// A plan is sound exactly where its content is and its signature was verified. It can be used
/// exactly where it is sound, from two minutes before its approval to two minutes after its end.
pub proof fn usable_plan_is_sound_and_current(
    plan: SignedHistoryRecoveryPlan,
    limits: ProtocolLimits,
    now: u64,
)
    ensures
        ({
            let approved = plan.content.approved_at_unix_seconds;
            let expires = plan.content.expires_at_unix_seconds;
            let content_fault = plan.content.fault(limits);
            let fault = plan.fault(limits);
            let fault_now = plan.fault_at(limits, now);
            &&& content_fault is Some ==> fault == content_fault
            &&& content_fault is None ==> (fault is None <==> plan.signature_verified)
            &&& content_fault is None && fault is Some ==> fault == Some(
                PlanError::SignatureInvalid,
            )
            &&& fault is Some ==> fault_now == fault
            &&& fault is None ==> (fault_now == Some(PlanError::ApprovedInTheFuture) <==> now + 120
                < approved)
            &&& fault is None ==> (fault_now == Some(PlanError::Expired) <==> approved <= now + 120
                && expires + 120 < now)
            &&& fault is None ==> (fault_now is None <==> approved <= now + 120 && now <= expires
                + 120)
        }),
{
}

/// A link is approved exactly where it can be used at that time, the signer is its recipient, it
/// is approved for one hour to one week, the end can be represented, and it derives a string.
pub proof fn approval_meets_every_condition(
    signer: DeviceId,
    options: HistoryRecoveryPlanOptions,
    limits: ProtocolLimits,
)
    ensures
        ({
            let usable = options.link.fault_at(limits, options.approved_at_unix_seconds) is None;
            let fault = approval_fault(signer, options, limits);
            let own = options.link.content.recipient_device_id == signer;
            let hours = 0 < options.valid_for_hours && options.valid_for_hours <= 168;
            let representable = options.approved_at_unix_seconds + 3_600 * options.valid_for_hours
                <= u64::MAX;
            let derived = options.link.derived_sas is Some;
            &&& usable ==> (fault == Some(PlanError::SignerNotRecipient) <==> !own)
            &&& usable ==> (fault == Some(PlanError::ValidityHours) <==> own && !hours)
            &&& usable ==> (fault == Some(PlanError::ExpirationOverflow) <==> own && hours
                && !representable)
            &&& usable ==> (fault == Some(PlanError::SasUnavailable) <==> own && hours
                && representable && !derived)
            &&& usable ==> (fault is None <==> own && hours && representable && derived)
            &&& !usable ==> fault == Some(
                PlanError::Link {
                    error: options.link.fault_at(limits, options.approved_at_unix_seconds)->0,
                },
            )
        }),
{
}

/// A plan says what was approved: the terms of the link, the policy, and the time for which it was
/// approved.
pub proof fn plan_says_what_was_approved(
    options: HistoryRecoveryPlanOptions,
    content: HistoryRecoveryPlanContent,
)
    requires
        approval_of(options, content),
    ensures
        ({
            let link = options.link.content;
            &&& content.version == 1
            &&& content.account_id == link.source_certificate.account_id
            &&& content.source_device_id == link.source_certificate.device_id
            &&& content.recipient_device_id == link.recipient_device_id
            &&& content.conversation_id == link.conversation_id
            &&& content.account_device_list.digest == link.account_device_list.digest
            &&& content.account_device_list.authority == link.account_device_list.authority
            &&& content.account_device_list.certificates@ == link.account_device_list.certificates@
            &&& content.approved_range_start == link.approved_range_start
            &&& content.approved_range_end == link.approved_range_end
            &&& content.page_size == link.page_size
            &&& content.route_policy == link.route_policy
            &&& content.execution_policy == options.execution_policy
            &&& content.approved_at_unix_seconds == options.approved_at_unix_seconds
            &&& content.expires_at_unix_seconds - content.approved_at_unix_seconds == 3_600
                * options.valid_for_hours
            &&& content.device_list_verified == link.device_list_verified
            &&& content.source_authorized == options.source_authorized
            &&& content.recipient_authorized == options.recipient_authorized
            &&& content.derived_sas is Some && options.link.derived_sas is Some
            &&& content.derived_sas->0@ == options.link.derived_sas->0@
            &&& content.sas@ == options.link.derived_sas->0@
        }),
{
}

/// A sound plan matches a sound link exactly where every term of the two is the same. Where the
/// two are of other accounts, devices, lists or conversations they differ whatever string the
/// link derives; else a link that derives none cannot be compared.
pub proof fn plan_matches_only_its_terms(
    plan: SignedHistoryRecoveryPlan,
    link: SignedHistoryRecoveryLink,
    limits: ProtocolLimits,
)
    requires
        plan.fault(limits) is None,
        link.fault(limits) is None,
    ensures
        ({
            let (ours, theirs) = (plan.content, link.content);
            let same_parties = ours.account_id == theirs.source_certificate.account_id
                && ours.account_device_list.digest == theirs.account_device_list.digest
                && ours.source_device_id == theirs.source_certificate.device_id
                && ours.recipient_device_id == theirs.recipient_device_id && ours.conversation_id
                == theirs.conversation_id;
            let same_range = ours.approved_range_start == theirs.approved_range_start
                && ours.approved_range_end == theirs.approved_range_end && ours.page_size
                == theirs.page_size && ours.route_policy == theirs.route_policy;
            let compared = plan.comparison(link, limits);
            &&& compared == Err::<bool, PlanError>(PlanError::SasUnavailable) <==> same_parties
                && link.derived_sas is None
            &&& compared is Err ==> compared->Err_0 == PlanError::SasUnavailable
            &&& compared == Ok::<bool, PlanError>(true) <==> same_parties && same_range
                && link.derived_sas is Some && ours.sas@ == link.derived_sas->0@
        }),
{
}

/// A plan is for this device exactly where it can be used now, names this device and account,
/// lists its certificate, is for the asked conversation, rests on an authority that is not older
/// than the local one, and the account is a member.
pub proof fn local_plan_meets_every_condition(
    plan: SignedHistoryRecoveryPlan,
    limits: ProtocolLimits,
    now: u64,
    local: DeviceCertificate,
    local_authority: AuthoritySnapshot,
    conversation_id: ConversationId,
    is_member: bool,
)
    ensures
        ({
            let usable = plan.fault_at(limits, now) is None;
            let fault = plan.local_fault(
                limits,
                now,
                local,
                local_authority,
                conversation_id,
                is_member,
            );
            let own_device = plan.content.recipient_device_id == local.device_id;
            let own_account = plan.content.account_id == local.account_id;
            let listed = is_first_certificate(plan.content.account_device_list, local);
            let same_conversation = plan.content.conversation_id == conversation_id;
            let current = local_authority.revision
                < plan.content.account_device_list.authority.revision || local_authority
                == plan.content.account_device_list.authority;
            let member = is_member;
            &&& usable ==> (fault == Some(PlanError::RecipientMismatch) <==> !own_device)
            &&& usable ==> (fault == Some(PlanError::AccountMismatch) <==> own_device
                && !own_account)
            &&& usable ==> (fault == Some(PlanError::RecipientCertificateDiffers)
                <==> own_device && own_account && !listed)
            &&& usable ==> (fault == Some(PlanError::ConversationMismatch) <==> own_device
                && own_account && listed && !same_conversation)
            &&& usable ==> (fault == Some(PlanError::AuthorityStale) <==> own_device
                && own_account && listed && same_conversation && !current)
            &&& usable ==> (fault == Some(PlanError::NotAMember) <==> own_device && own_account
                && listed && same_conversation && current && !member)
            &&& usable ==> (fault is None <==> own_device && own_account && listed
                && same_conversation && current && member)
            &&& !usable ==> fault == plan.fault_at(limits, now)
        }),
{
    listing_is_exact(plan.content.account_device_list, local.device_id, local);
}

/// Each label names one value and no other.
pub proof fn network_class_labels_are_distinct(value: RecoveryNetworkClass)
    ensures
        value.label() == "ethernet"@ <==> value is Ethernet,
        value.label() == "wifi"@ <==> value is Wifi,
        value.label() == "mobile"@ <==> value is Mobile,
        value.label() == "unknown"@ <==> value is Unknown,
{
    reveal_strlit("ethernet");
    reveal_strlit("wifi");
    reveal_strlit("mobile");
    reveal_strlit("unknown");
    assert("ethernet"@.len() != "wifi"@.len());
    assert("ethernet"@.len() != "mobile"@.len());
    assert("ethernet"@.len() != "unknown"@.len());
    assert("wifi"@.len() != "mobile"@.len());
    assert("wifi"@.len() != "unknown"@.len());
    assert("mobile"@.len() != "unknown"@.len());
}

/// Each label names one value and no other.
pub proof fn power_source_labels_are_distinct(value: RecoveryPowerSource)
    ensures
        value.label() == "external"@ <==> value is External,
        value.label() == "battery"@ <==> value is Battery,
        value.label() == "unknown"@ <==> value is Unknown,
{
    reveal_strlit("external");
    reveal_strlit("battery");
    reveal_strlit("unknown");
    assert("external"@.len() != "battery"@.len());
    assert("external"@.len() != "unknown"@.len());
    assert("battery"@[0] != "unknown"@[0]);
}

/// What is signed for a plan, what its identifier is computed from, and what is signed for a link
/// begin with different texts, each closed by a zero byte, so that none is ever another.
pub proof fn plan_purposes_are_kept_apart(signed: Seq<u8>, identified: Seq<u8>, link: Seq<u8>)
    ensures
        plan_signature_domain() == vstd::utf8::encode_utf8(
            "kilogram:history-recovery-plan-signature:v1"@,
        ).push(0u8),
        plan_id_domain() == vstd::utf8::encode_utf8("kilogram:history-recovery-plan-id:v1"@).push(
            0u8,
        ),
        plan_signature_domain() + signed != plan_id_domain() + identified,
        plan_signature_domain() + signed != crate::recovery_link::link_signature_domain() + link,
{
    reveal_strlit("kilogram:history-recovery-plan-signature:v1");
    reveal_strlit("kilogram:history-recovery-plan-signature:v1\0");
    assert("kilogram:history-recovery-plan-signature:v1\0"@ =~= "kilogram:history-recovery-plan-signature:v1"@.push('\0'));
    crate::codec::closed_text_ends_in_zero("kilogram:history-recovery-plan-signature:v1"@, "kilogram:history-recovery-plan-signature:v1\0"@);
    reveal_strlit("kilogram:history-recovery-plan-id:v1");
    reveal_strlit("kilogram:history-recovery-plan-id:v1\0");
    assert("kilogram:history-recovery-plan-id:v1\0"@ =~= "kilogram:history-recovery-plan-id:v1"@.push('\0'));
    crate::codec::closed_text_ends_in_zero("kilogram:history-recovery-plan-id:v1"@, "kilogram:history-recovery-plan-id:v1\0"@);
    reveal_strlit("kilogram:history-recovery-link-signature:v1");
    reveal_strlit("kilogram:history-recovery-link-signature:v1\0");
    assert("kilogram:history-recovery-link-signature:v1\0"@ =~= "kilogram:history-recovery-link-signature:v1"@.push('\0'));
    crate::codec::closed_text_ends_in_zero("kilogram:history-recovery-link-signature:v1"@, "kilogram:history-recovery-link-signature:v1\0"@);
    let (a, b) = (plan_signature_domain() + signed, plan_id_domain() + identified);
    let c = crate::recovery_link::link_signature_domain() + link;
    assert(a[31] == 's' as u8 && b[31] == 'i' as u8);
    assert(a[26] == 'p' as u8 && c[26] == 'l' as u8);
}

} // verus!
