//! The commands around a recovery: where a link comes from, approving a plan from a link,
//! reading a plan file, and holding the platform against a plan.

use crate::identity::{AuthoritySnapshot, DeviceCertificate, ProtocolLimits};
use crate::ids::ConversationId;
use crate::recovery_discovery::utf8_text;
use crate::recovery_link::{SignedHistoryRecoveryLink, MAX_HISTORY_RECOVERY_LINK_TEXT_BYTES};
use crate::recovery_plan::{
    PlanError, RecoveryExecutionPolicy, MAX_HISTORY_RECOVERY_PLAN_BYTES,
};
use crate::recovery_platform::RecoveryPlatformContext;
use crate::scheduler::{PolicyStage, SchedulerError};
use crate::text::{trim, trimmed};
use vstd::prelude::*;

verus! {

/// Why a link or a plan cannot be loaded.
#[derive(Clone, Copy, Debug, PartialEq, Eq, Structural)]
pub enum LoadError {
    NothingGiven,
    MoreThanOneGiven,
    LinkFileTooLarge,
    LinkFileNotUtf8,
    PlanNotAFile,
    PlanSizeOutOfRange,
}

/// Where the text of a link comes from.
#[derive(Clone, Copy, Debug, PartialEq, Eq, Structural)]
pub enum HistoryRecoveryLinkInput {
    Uri,
    TextFile,
    QrImage,
}

impl HistoryRecoveryLinkInput {
    /// The name of the source.
    pub fn as_str(self) -> (r: &'static str)
        ensures
            r@ == match self {
                HistoryRecoveryLinkInput::Uri => "uri"@,
                HistoryRecoveryLinkInput::TextFile => "text-file"@,
                HistoryRecoveryLinkInput::QrImage => "qr-image"@,
            },
    {
        match self {
            HistoryRecoveryLinkInput::Uri => "uri",
            HistoryRecoveryLinkInput::TextFile => "text-file",
            HistoryRecoveryLinkInput::QrImage => "qr-image",
        }
    }
}

/// Chooses where the text of a link comes from: exactly one source is given.
pub fn load_history_recovery_link(has_link: bool, has_link_file: bool, has_qr_file: bool) -> (r:
    Result<HistoryRecoveryLinkInput, LoadError>)
    ensures
        r == match (has_link, has_link_file, has_qr_file) {
            (true, false, false) => Ok::<HistoryRecoveryLinkInput, LoadError>(
                HistoryRecoveryLinkInput::Uri,
            ),
            (false, true, false) => Ok(HistoryRecoveryLinkInput::TextFile),
            (false, false, true) => Ok(HistoryRecoveryLinkInput::QrImage),
            (false, false, false) => Err(LoadError::NothingGiven),
            _ => Err(LoadError::MoreThanOneGiven),
        },
{
    match (has_link, has_link_file, has_qr_file) {
        (true, false, false) => Ok(HistoryRecoveryLinkInput::Uri),
        (false, true, false) => Ok(HistoryRecoveryLinkInput::TextFile),
        (false, false, true) => Ok(HistoryRecoveryLinkInput::QrImage),
        (false, false, false) => Err(LoadError::NothingGiven),
        _ => Err(LoadError::MoreThanOneGiven),
    }
}

/// The text of a link file.
pub fn link_file_text(bytes: &[u8]) -> (r: Result<String, LoadError>)
    ensures
        match r {
            Ok(text) => bytes@.len() <= MAX_HISTORY_RECOVERY_LINK_TEXT_BYTES
                && vstd::utf8::valid_utf8(bytes@) && text@ == vstd::utf8::decode_utf8(bytes@),
            Err(error) => error == if bytes@.len() > MAX_HISTORY_RECOVERY_LINK_TEXT_BYTES {
                LoadError::LinkFileTooLarge
            } else {
                LoadError::LinkFileNotUtf8
            } && !(bytes@.len() <= MAX_HISTORY_RECOVERY_LINK_TEXT_BYTES
                && vstd::utf8::valid_utf8(bytes@)),
        },
{
    if bytes.len() > MAX_HISTORY_RECOVERY_LINK_TEXT_BYTES {
        return Err(LoadError::LinkFileTooLarge);
    }
    match utf8_text(bytes) {
        Some(text) => Ok(text),
        None => Err(LoadError::LinkFileNotUtf8),
    }
}

/// Tests a plan file before it is read.
pub fn load_history_recovery_plan(is_file: bool, bytes: u64) -> (r: Result<(), LoadError>)
    ensures
        r == if !is_file {
            Err(LoadError::PlanNotAFile)
        } else if !(1 <= bytes <= MAX_HISTORY_RECOVERY_PLAN_BYTES) {
            Err(LoadError::PlanSizeOutOfRange)
        } else {
            Ok::<(), LoadError>(())
        },
{
    if !is_file {
        return Err(LoadError::PlanNotAFile);
    }
    if bytes < 1 || bytes > MAX_HISTORY_RECOVERY_PLAN_BYTES as u64 {
        return Err(LoadError::PlanSizeOutOfRange);
    }
    Ok(())
}

/// The networks and the power that a user allows, as the flags of an approval say it.
#[derive(Clone, Copy, Debug, PartialEq, Eq, Structural)]
pub struct PolicyFlags {
    pub deny_ethernet: bool,
    pub deny_wifi: bool,
    pub allow_mobile: bool,
    pub allow_unknown_network: bool,
    pub require_external_power: bool,
}

impl PolicyFlags {
    /// The policy that the flags ask for.
    pub open spec fn policy(self) -> RecoveryExecutionPolicy {
        RecoveryExecutionPolicy {
            allow_ethernet: !self.deny_ethernet,
            allow_wifi: !self.deny_wifi,
            allow_mobile: self.allow_mobile,
            allow_unknown_network: self.allow_unknown_network,
            require_external_power: self.require_external_power,
        }
    }
}

/// An authority snapshot is newer than the local one, or the same.
pub open spec fn authority_is_current(listed: AuthoritySnapshot, local: AuthoritySnapshot) -> bool {
    listed.revision > local.revision || listed == local
}

/// The first reason for which a plan is not approved from a link.
pub open spec fn plan_approval_fault(
    link: SignedHistoryRecoveryLink,
    limits: ProtocolLimits,
    now: u64,
    recipient: DeviceCertificate,
    local_authority: AuthoritySnapshot,
    conversation_id: ConversationId,
    is_member: bool,
    confirmed_sas: Seq<char>,
    flags: PolicyFlags,
) -> Option<PlanError> {
    match link.fault_for(limits, now, recipient) {
        Some(error) => Some(PlanError::Link { error }),
        None => if link.content.conversation_id != conversation_id {
            Some(PlanError::ConversationMismatch)
        } else if !is_member {
            Some(PlanError::NotAMember)
        } else if !authority_is_current(
            link.content.account_device_list.authority,
            local_authority,
        ) {
            Some(PlanError::AuthorityStale)
        } else if link.derived_sas is None {
            Some(PlanError::SasUnavailable)
        } else if trimmed(confirmed_sas) != link.derived_sas->0@ {
            Some(PlanError::SasMismatch)
        } else if !flags.policy().valid() {
            Some(PlanError::EveryNetworkBlocked)
        } else {
            None
        },
    }
}

/// Judges whether a plan may be approved from a link: the link is valid for this device now, it
/// is for the conversation, the device's account is a member, the link's authority is not
/// behind the local one, the user confirmed exactly the derived short authentication string,
/// and some network is allowed. The result is the policy of the plan.
pub fn approve_history_recovery_plan(
    link: &SignedHistoryRecoveryLink,
    now_unix_seconds: u64,
    recipient_certificate: DeviceCertificate,
    local_authority: AuthoritySnapshot,
    conversation_id: ConversationId,
    is_member: bool,
    confirmed_sas: &str,
    flags: PolicyFlags,
    limits: ProtocolLimits,
) -> (r: Result<RecoveryExecutionPolicy, PlanError>)
    ensures
        match plan_approval_fault(
            *link,
            limits,
            now_unix_seconds,
            recipient_certificate,
            local_authority,
            conversation_id,
            is_member,
            confirmed_sas@,
            flags,
        ) {
            Some(error) => r == Err::<RecoveryExecutionPolicy, PlanError>(error),
            None => r == Ok::<RecoveryExecutionPolicy, PlanError>(flags.policy()),
        },
{
    if let Err(error) = link.verify_for_recipient(now_unix_seconds, recipient_certificate, limits) {
        return Err(PlanError::Link { error });
    }
    if link.content.conversation_id != conversation_id {
        return Err(PlanError::ConversationMismatch);
    }
    if !is_member {
        return Err(PlanError::NotAMember);
    }
    let listed = link.content.account_device_list.authority;
    if !(listed.revision > local_authority.revision || listed == local_authority) {
        return Err(PlanError::AuthorityStale);
    }
    let sas = match &link.derived_sas {
        None => return Err(PlanError::SasUnavailable),
        Some(sas) => sas,
    };
    if trim(confirmed_sas) != *sas {
        return Err(PlanError::SasMismatch);
    }
    RecoveryExecutionPolicy::new(
        !flags.deny_ethernet,
        !flags.deny_wifi,
        flags.allow_mobile,
        flags.allow_unknown_network,
        flags.require_external_power,
    )
}

/// Holds the present network and power against a plan's policy, at a stage of an attempt.
pub fn recheck_recovery_execution_policy(
    policy: RecoveryExecutionPolicy,
    context: RecoveryPlatformContext,
    stage: PolicyStage,
) -> (r: Result<(), SchedulerError>)
    ensures
        r == if policy.permits(context.network_class, context.power_source) {
            Ok::<(), SchedulerError>(())
        } else {
            Err(SchedulerError::PolicyBlocked { stage })
        },
{
    if policy.allows(context.network_class(), context.power_source()) {
        Ok(())
    } else {
        Err(SchedulerError::PolicyBlocked { stage })
    }
}

/// A platform whose network and power are unknown passes only a policy that allows an unknown
/// network and does not require external power.
pub proof fn unknown_platform_needs_explicit_consent(policy: RecoveryExecutionPolicy)
    ensures
        ({
            let context = RecoveryPlatformContext::of_unsupported_platform();
            policy.permits(context.network_class, context.power_source)
                <==> policy.allow_unknown_network && !policy.require_external_power
        }),
{
}

/// A plan is approved only with the short authentication string that the link derives, and not
/// for a link that is refused to the device.
pub proof fn plan_needs_confirmed_link(
    link: SignedHistoryRecoveryLink,
    limits: ProtocolLimits,
    now: u64,
    recipient: DeviceCertificate,
    local_authority: AuthoritySnapshot,
    conversation_id: ConversationId,
    confirmed_sas: Seq<char>,
    flags: PolicyFlags,
)
    requires
        plan_approval_fault(
            link,
            limits,
            now,
            recipient,
            local_authority,
            conversation_id,
            true,
            confirmed_sas,
            flags,
        ) is None,
    ensures
        link.fault_for(limits, now, recipient) is None,
        link.derived_sas is Some,
        trimmed(confirmed_sas) == link.derived_sas->0@,
        recipient.device_id == link.content.recipient_device_id,
{
}

/// The policy of the flags allows wired and wireless networks where they are not denied, and
/// mobile and unknown ones only where they are allowed.
pub proof fn policy_follows_the_flags(flags: PolicyFlags)
    ensures
        flags.policy().allow_ethernet <==> !flags.deny_ethernet,
        flags.policy().allow_wifi <==> !flags.deny_wifi,
        flags.policy().allow_mobile <==> flags.allow_mobile,
        flags.policy().allow_unknown_network <==> flags.allow_unknown_network,
        flags.policy().require_external_power <==> flags.require_external_power,
{
}

/// A plan is approved exactly where its link is one for this recipient and now, is for the asked
/// conversation, the account is a member, the listed authority is newer than the local one or the
/// same, the confirmed string is the derived one, and some network is allowed. The first of these
/// that fails names the error.
pub proof fn approved_plan_meets_every_condition(
    link: SignedHistoryRecoveryLink,
    limits: ProtocolLimits,
    now: u64,
    recipient: DeviceCertificate,
    local_authority: AuthoritySnapshot,
    conversation_id: ConversationId,
    is_member: bool,
    confirmed_sas: Seq<char>,
    flags: PolicyFlags,
)
    ensures
        ({
            let usable = link.fault_for(limits, now, recipient) is None;
            let fault = plan_approval_fault(
                link,
                limits,
                now,
                recipient,
                local_authority,
                conversation_id,
                is_member,
                confirmed_sas,
                flags,
            );
            let same_conversation = conversation_id == link.content.conversation_id;
            let member = is_member;
            let current = local_authority.revision
                < link.content.account_device_list.authority.revision || local_authority
                == link.content.account_device_list.authority;
            let derived = link.derived_sas is Some;
            let confirmed = link.derived_sas->0@ == trimmed(confirmed_sas);
            let some_network = !flags.deny_ethernet || !flags.deny_wifi || flags.allow_mobile
                || flags.allow_unknown_network;
            &&& usable ==> (fault == Some(PlanError::ConversationMismatch) <==> !same_conversation)
            &&& usable ==> (fault == Some(PlanError::NotAMember) <==> same_conversation && !member)
            &&& usable ==> (fault == Some(PlanError::AuthorityStale) <==> same_conversation
                && member && !current)
            &&& usable ==> (fault == Some(PlanError::SasUnavailable) <==> same_conversation
                && member && current && !derived)
            &&& usable ==> (fault == Some(PlanError::SasMismatch) <==> same_conversation
                && member && current && derived && !confirmed)
            &&& usable ==> (fault == Some(PlanError::EveryNetworkBlocked) <==> same_conversation
                && member && current && derived && confirmed && !some_network)
            &&& usable ==> (fault is None <==> same_conversation && member && current && derived
                && confirmed && some_network)
            &&& !usable ==> fault == Some(
                PlanError::Link { error: link.fault_for(limits, now, recipient)->0 },
            )
        }),
{
}

} // verus!
