use kilogram_cli::delivery::{
    check_connect_acknowledgement, encrypt_ratchet_fanout, handle_delivery_request,
    listener_in_fanout, require_conversation_participants, send_runtime_delivery, Delivery,
    DeliveryError, DeliveryPlan, EventFacts, EventKind, ExpectedAcknowledgement, OutgoingMessage,
    SendEvent, SendPhase, StoredText,
};
use kilogram_cli::history_recovery::{
    latest_checkpoint_for_plan, planned_range, PlannedRange, RecoveryCheckpoint,
};
use kilogram_cli::identity::{
    AccountDeviceList, AuthoritySnapshot, DeviceCertificate, ProtocolLimits, RoutePolicy,
};
use kilogram_cli::ids::{
    AccountId, ConversationId, DeviceId, Digest, EndpointId, EventId, Id32, RuntimeContactId,
};
use kilogram_cli::recovery_commands::{
    approve_history_recovery_plan, link_file_text, load_history_recovery_link,
    load_history_recovery_plan, recheck_recovery_execution_policy, HistoryRecoveryLinkInput,
    LoadError, PolicyFlags,
};
use kilogram_cli::recovery_link::{
    link_signing_bytes, HistoryRecoveryLinkOptions, LinkError, SignedHistoryRecoveryLink,
    HISTORY_RECOVERY_LINK_PREFIX, MAX_HISTORY_RECOVERY_LINK_TEXT_BYTES,
};
use kilogram_cli::recovery_plan::{
    HistoryRecoveryPlanOptions, PlanError, RecoveryExecutionPolicy, RecoveryNetworkClass,
    RecoveryPowerSource, SignedHistoryRecoveryPlan,
};
use kilogram_cli::recovery_platform::RecoveryPlatformContext;
use kilogram_cli::runtime_state::RuntimeContact;
use kilogram_cli::scheduler::{
    load_or_initialize_recovery_scheduler_state, load_scheduler_signing_device,
    observe_terminal_recovery_scheduler_state, PolicyStage, SchedulerError, SchedulerLifecycle,
    SchedulerState,
};
use kilogram_cli::ticket::{
    check_descriptor_size, load_connection_ticket, ticket_signing_bytes, ConnectionTicket,
    ConnectionTicketContent, ContactChecks, PrekeyDirectory, TicketError, TicketInput,
    TICKET_VERSION,
};

const LIMITS: ProtocolLimits = ProtocolLimits {
    max_inventory_event_ids: 4_096,
    max_history_rewrap_entries: 256,
};
const SAS: &str = "123-456-789-012";

fn raw(low: u128) -> Id32 {
    Id32 { high: 9, low }
}

fn account(low: u128) -> AccountId {
    AccountId { raw: raw(low) }
}

fn device(low: u128) -> DeviceId {
    DeviceId { raw: raw(low) }
}

fn event_id(low: u128) -> EventId {
    EventId { raw: raw(low) }
}

fn digest(low: u128) -> Digest {
    Digest { raw: raw(low) }
}

fn conversation() -> ConversationId {
    ConversationId { raw: raw(70) }
}

fn certificate(low: u128) -> DeviceCertificate {
    DeviceCertificate {
        account_id: account(1),
        device_id: device(low),
        digest: digest(low),
    }
}

fn authority(revision: u64) -> AuthoritySnapshot {
    AuthoritySnapshot {
        account_id: account(1),
        revision,
        digest: digest(revision as u128),
    }
}

fn device_list() -> AccountDeviceList {
    AccountDeviceList {
        authority: authority(3),
        certificates: vec![certificate(11), certificate(12)],
        digest: digest(91),
    }
}

fn link_options(count: usize, issued_at: u64, endpoint: u128) -> HistoryRecoveryLinkOptions {
    HistoryRecoveryLinkOptions {
        endpoint: EndpointId { raw: raw(endpoint) },
        source_certificate: certificate(11),
        account_device_list: device_list(),
        recipient_device_id: device(12),
        conversation_id: conversation(),
        approved_range_start: 0,
        approved_event_count: count,
        page_size: 64,
        route_policy: RoutePolicy::Auto,
        issued_at_unix_seconds: issued_at,
        valid_for_seconds: 600,
        device_list_verified: true,
        source_authorized: true,
    }
}

fn link(count: usize, issued_at: u64, endpoint: u128) -> SignedHistoryRecoveryLink {
    match SignedHistoryRecoveryLink::sign(device(11), link_options(count, issued_at, endpoint), LIMITS) {
        Ok(content) => SignedHistoryRecoveryLink {
            content,
            signature_verified: true,
            derived_sas: Some(SAS.to_owned()),
        },
        Err(error) => panic!("{error:?}"),
    }
}

#[test]
fn signed_recovery_link_round_trips_and_binds_time_roles_and_payload() {
    let link = link(4_096, 1_000, 50);
    let payload: Vec<u8> = (0..=255).collect();
    let encoded = match link.encode_text(&payload, LIMITS) {
        Ok(encoded) => encoded,
        Err(error) => panic!("{error:?}"),
    };
    assert!(encoded.len() <= MAX_HISTORY_RECOVERY_LINK_TEXT_BYTES);
    assert!(encoded.starts_with(HISTORY_RECOVERY_LINK_PREFIX));
    assert_eq!(
        SignedHistoryRecoveryLink::decode_text(&encoded),
        Ok(payload.clone())
    );
    assert_eq!(
        SignedHistoryRecoveryLink::decode_text(&format!("  {encoded}\n")),
        Ok(payload.clone())
    );
    assert_eq!(
        link.verify_for_recipient(1_500, certificate(12), LIMITS),
        Ok(())
    );
    assert_eq!(link.sas().map(String::as_str), Ok(SAS));
    assert!(link.verify_at(2_000, LIMITS).is_err());
    assert!(link
        .verify_for_recipient(1_500, certificate(13), LIMITS)
        .is_err());

    let mut tampered = encoded.into_bytes();
    let last = tampered.len() - 1;
    tampered[last] = if tampered[last] == b'A' { b'B' } else { b'A' };
    let tampered = match String::from_utf8(tampered) {
        Ok(tampered) => tampered,
        Err(error) => panic!("{error}"),
    };
    assert_ne!(SignedHistoryRecoveryLink::decode_text(&tampered), Ok(payload));
}

#[test]
fn links_are_refused_for_each_broken_rule() {
    let sign = |options: HistoryRecoveryLinkOptions| {
        match SignedHistoryRecoveryLink::sign(device(11), options, LIMITS) {
            Ok(_) => panic!("unexpectedly signed"),
            Err(error) => error,
        }
    };
    assert_eq!(
        sign(HistoryRecoveryLinkOptions {
            approved_event_count: 0,
            ..link_options(4, 1_000, 50)
        }),
        LinkError::EmptyRange
    );
    assert_eq!(
        sign(HistoryRecoveryLinkOptions {
            approved_event_count: 4_097,
            ..link_options(4, 1_000, 50)
        }),
        LinkError::RangeBeyondInventory
    );
    assert_eq!(
        sign(HistoryRecoveryLinkOptions {
            page_size: 257,
            ..link_options(4, 1_000, 50)
        }),
        LinkError::PageSize
    );
    assert_eq!(
        sign(HistoryRecoveryLinkOptions {
            valid_for_seconds: 3_601,
            ..link_options(4, 1_000, 50)
        }),
        LinkError::WindowTooLong
    );
    assert_eq!(
        sign(HistoryRecoveryLinkOptions {
            valid_for_seconds: 0,
            ..link_options(4, 1_000, 50)
        }),
        LinkError::EmptyWindow
    );
    assert_eq!(
        sign(HistoryRecoveryLinkOptions {
            recipient_device_id: device(11),
            ..link_options(4, 1_000, 50)
        }),
        LinkError::SourceIsRecipient
    );
    assert_eq!(
        sign(HistoryRecoveryLinkOptions {
            recipient_device_id: device(13),
            ..link_options(4, 1_000, 50)
        }),
        LinkError::RecipientAbsent
    );
    let mut forged = link(4, 1_000, 50);
    forged.signature_verified = false;
    assert_eq!(forged.verify(LIMITS), Err(LinkError::SignatureInvalid));
    let valid = link(4, 1_000, 50);
    assert_eq!(valid.verify_at(879, LIMITS), Err(LinkError::IssuedInTheFuture));
    assert_eq!(valid.verify_at(880, LIMITS), Ok(()));
    assert_eq!(valid.verify_at(1_720, LIMITS), Ok(()));
    assert_eq!(valid.verify_at(1_721, LIMITS), Err(LinkError::Expired));
    assert_eq!(
        SignedHistoryRecoveryLink::decode_text("https://example.com"),
        Err(LinkError::UnsupportedPrefix)
    );
    assert_eq!(
        SignedHistoryRecoveryLink::decode_text("kilogram://history-recovery/v1/a+b"),
        Err(LinkError::NotBase64)
    );
    assert_eq!(
        SignedHistoryRecoveryLink::decode_text(&"a".repeat(2_954)),
        Err(LinkError::TextTooLong)
    );
    assert_eq!(valid.approved_event_count(), 4);
    assert_eq!(valid.account_id(), account(1));
    assert_eq!(valid.source_device_id(), device(11));
}

#[test]
fn link_identifiers_are_digests_of_a_domain_and_the_encoding() {
    let link = link(4, 1_000, 50);
    let id = match link.link_id(b"encoding", LIMITS) {
        Ok(id) => id,
        Err(error) => panic!("{error:?}"),
    };
    assert_ne!(id, *blake3::hash(b"encoding").as_bytes());
    assert_ne!(Ok(id), link.link_id(b"another", LIMITS));
    let signed = link_signing_bytes(b"content");
    assert!(signed.ends_with(b"content"));
    assert!(signed.len() > b"content".len());
}

fn plan_options(link: SignedHistoryRecoveryLink) -> HistoryRecoveryPlanOptions {
    HistoryRecoveryPlanOptions {
        link,
        execution_policy: policy(false, false),
        approved_at_unix_seconds: 1_100,
        valid_for_hours: 24,
        source_authorized: true,
        recipient_authorized: true,
    }
}

fn policy(mobile: bool, external: bool) -> RecoveryExecutionPolicy {
    match RecoveryExecutionPolicy::new(true, true, mobile, false, external) {
        Ok(policy) => policy,
        Err(error) => panic!("{error:?}"),
    }
}

fn plan() -> SignedHistoryRecoveryPlan {
    match SignedHistoryRecoveryPlan::approve(device(12), &plan_options(link(8, 1_000, 50)), LIMITS) {
        Ok(content) => SignedHistoryRecoveryPlan {
            content,
            signature_verified: true,
        },
        Err(error) => panic!("{error:?}"),
    }
}

#[test]
fn links_of_other_terms_do_not_match_a_plan() {
    let plan = plan();
    let matches_when = |change: &dyn Fn(&mut SignedHistoryRecoveryLink)| {
        let mut other = link(8, 1_200, 51);
        change(&mut other);
        plan.matches_link(&other, LIMITS)
    };
    assert_eq!(matches_when(&|_| ()), Ok(true));
    assert_eq!(
        matches_when(&|other| other.content.conversation_id = ConversationId { raw: raw(99) }),
        Ok(false)
    );
    assert_eq!(
        matches_when(&|other| other.content.route_policy = RoutePolicy::RelayOnly),
        Ok(false)
    );
    assert_eq!(matches_when(&|other| other.content.page_size += 1), Ok(false));
    assert_eq!(
        matches_when(&|other| other.derived_sas = Some("999".to_owned())),
        Ok(false)
    );
    assert_eq!(
        matches_when(&|other| other.derived_sas = None),
        Err(PlanError::SasUnavailable)
    );
}

#[test]
fn recipient_signed_plan_round_trips_and_matches_fresh_endpoint() {
    let plan = plan();
    assert_eq!(plan.encode(&[1, 2, 3], LIMITS), Ok(()));
    assert_eq!(SignedHistoryRecoveryPlan::decode(&[1, 2, 3]), Ok(()));
    assert_eq!(plan.verify_at(2_000, LIMITS), Ok(()));
    let original = link(8, 1_000, 50);
    assert_eq!(plan.matches_link(&original, LIMITS), Ok(true));
    let fresh_link = link(8, 1_200, 51);
    assert_ne!(fresh_link.content.endpoint, original.content.endpoint);
    assert_eq!(plan.matches_link(&fresh_link, LIMITS), Ok(true));
    assert_eq!(plan.matches_link(&link(9, 1_200, 51), LIMITS), Ok(false));
    let policy = policy(false, false);
    assert!(policy.allows(RecoveryNetworkClass::Wifi, RecoveryPowerSource::Battery));
    assert!(!policy.allows(RecoveryNetworkClass::Mobile, RecoveryPowerSource::External));
    assert!(plan.verify_at(100_000, LIMITS).is_err());
    assert_eq!(plan.approved_event_count(), 8);
    assert_eq!(
        planned_range(&plan),
        Ok(PlannedRange {
            range_start: 0,
            event_count: 8,
            page_size: 64
        })
    );
    let initial = RecoveryCheckpoint {
        recovery_id: digest(1),
        checkpoint_id: digest(2),
        previous_checkpoint_id: None,
        next_range_start: 0,
        approved_range_end: 8,
        complete: false,
    };
    assert_eq!(
        latest_checkpoint_for_plan(&plan, initial, &[]),
        Ok(initial)
    );
}

#[test]
fn external_power_policy_is_fail_closed_for_battery_and_unknown() -> Result<(), PlanError> {
    let policy = RecoveryExecutionPolicy::new(true, false, false, false, true)?;
    assert!(policy.allows(
        RecoveryNetworkClass::Ethernet,
        RecoveryPowerSource::External
    ));
    assert!(!policy.allows(RecoveryNetworkClass::Ethernet, RecoveryPowerSource::Battery));
    assert!(!policy.allows(RecoveryNetworkClass::Ethernet, RecoveryPowerSource::Unknown));
    assert!(RecoveryExecutionPolicy::new(false, false, false, false, false).is_err());
    Ok(())
}

#[test]
fn plans_are_refused_for_each_broken_rule() {
    let approve = |options: &HistoryRecoveryPlanOptions, signer: u128| {
        match SignedHistoryRecoveryPlan::approve(device(signer), options, LIMITS) {
            Ok(_) => panic!("unexpectedly approved"),
            Err(error) => error,
        }
    };
    assert_eq!(
        approve(&plan_options(link(8, 1_000, 50)), 11),
        PlanError::SignerNotRecipient
    );
    let mut hours = plan_options(link(8, 1_000, 50));
    hours.valid_for_hours = 169;
    assert_eq!(approve(&hours, 12), PlanError::ValidityHours);
    let mut late = plan_options(link(8, 1_000, 50));
    late.approved_at_unix_seconds = 2_000;
    assert_eq!(
        approve(&late, 12),
        PlanError::Link {
            error: LinkError::Expired
        }
    );
    assert_eq!(
        SignedHistoryRecoveryPlan::decode(&[]),
        Err(PlanError::EncodingSize)
    );
    assert_eq!(
        SignedHistoryRecoveryPlan::decode(&[0; 65_537]),
        Err(PlanError::EncodingSize)
    );
    let mut forged = plan();
    forged.signature_verified = false;
    assert_eq!(forged.verify(LIMITS), Err(PlanError::SignatureInvalid));
    assert_eq!(plan().verify_at(979, LIMITS), Err(PlanError::ApprovedInTheFuture));
}

#[test]
fn plans_are_carried_out_only_by_their_recipient() {
    let check = |certificate: DeviceCertificate, authority: AuthoritySnapshot, member: bool| {
        plan().verify_history_recovery_plan_locally(
            2_000,
            certificate,
            authority,
            conversation(),
            member,
            LIMITS,
        )
    };
    assert_eq!(check(certificate(12), authority(3), true), Ok(()));
    assert_eq!(check(certificate(12), authority(2), true), Ok(()));
    assert_eq!(
        check(certificate(12), authority(4), true),
        Err(PlanError::AuthorityStale)
    );
    assert_eq!(
        check(certificate(11), authority(3), true),
        Err(PlanError::RecipientMismatch)
    );
    assert_eq!(
        check(certificate(12), authority(3), false),
        Err(PlanError::NotAMember)
    );
    assert_eq!(
        load_scheduler_signing_device(&plan(), device(11), LIMITS),
        Err(SchedulerError::NotThePlanRecipient)
    );
    let done = SchedulerState {
        state_id: digest(5),
        lifecycle: SchedulerLifecycle::Cancelled,
    };
    let observe = |conversation_id: ConversationId, state: Option<SchedulerState>, local: u128| {
        observe_terminal_recovery_scheduler_state(
            &plan(),
            conversation_id,
            state,
            device(local),
            LIMITS,
        )
    };
    assert_eq!(observe(conversation(), Some(done), 12), Ok(Some(done)));
    assert_eq!(observe(conversation(), None, 11), Ok(None));
    assert_eq!(
        observe(conversation(), Some(done), 11),
        Err(SchedulerError::NotThePlanRecipient)
    );
    assert_eq!(
        observe(ConversationId { raw: raw(71) }, Some(done), 12),
        Err(SchedulerError::ConversationMismatch)
    );
    assert_eq!(
        load_or_initialize_recovery_scheduler_state(None, device(12), device(12)),
        Ok(None)
    );
    assert_eq!(
        load_or_initialize_recovery_scheduler_state(None, device(11), device(12)),
        Err(SchedulerError::NotThePlanRecipient)
    );
}

#[test]
fn plan_approval_needs_the_confirmed_link() {
    let flags = PolicyFlags {
        deny_ethernet: false,
        deny_wifi: true,
        allow_mobile: false,
        allow_unknown_network: false,
        require_external_power: true,
    };
    let approve = |sas: &str, authority: AuthoritySnapshot, flags: PolicyFlags| {
        approve_history_recovery_plan(
            &link(8, 1_000, 50),
            1_100,
            certificate(12),
            authority,
            conversation(),
            true,
            sas,
            flags,
            LIMITS,
        )
    };
    let policy = match approve(" 123-456-789-012 ", authority(3), flags) {
        Ok(policy) => policy,
        Err(error) => panic!("{error:?}"),
    };
    assert!(policy.allow_ethernet());
    assert!(!policy.allow_wifi());
    assert!(!policy.allow_mobile());
    assert!(!policy.allow_unknown_network());
    assert!(policy.require_external_power());
    assert_eq!(
        approve("000-000-000-000", authority(3), flags),
        Err(PlanError::SasMismatch)
    );
    assert_eq!(
        approve(SAS, authority(4), flags),
        Err(PlanError::AuthorityStale)
    );
    let blocked = PolicyFlags {
        deny_ethernet: true,
        ..flags
    };
    assert_eq!(
        approve(SAS, authority(3), blocked),
        Err(PlanError::EveryNetworkBlocked)
    );
    let unknown = RecoveryPlatformContext::unsupported();
    assert_eq!(
        recheck_recovery_execution_policy(policy, unknown, PolicyStage::BeforeConnect),
        Err(SchedulerError::PolicyBlocked {
            stage: PolicyStage::BeforeConnect
        })
    );
}

#[test]
fn link_and_plan_sources_are_checked() {
    assert_eq!(
        load_history_recovery_link(false, true, false),
        Ok(HistoryRecoveryLinkInput::TextFile)
    );
    assert_eq!(
        load_history_recovery_link(false, false, false),
        Err(LoadError::NothingGiven)
    );
    assert_eq!(
        load_history_recovery_link(true, false, true),
        Err(LoadError::MoreThanOneGiven)
    );
    assert_eq!(HistoryRecoveryLinkInput::QrImage.as_str(), "qr-image");
    assert_eq!(link_file_text(b"text"), Ok("text".to_owned()));
    assert_eq!(
        link_file_text(&[b'a'; 2_954]),
        Err(LoadError::LinkFileTooLarge)
    );
    assert_eq!(link_file_text(&[0xff]), Err(LoadError::LinkFileNotUtf8));
    assert_eq!(load_history_recovery_plan(true, 65_536), Ok(()));
    assert_eq!(
        load_history_recovery_plan(true, 0),
        Err(LoadError::PlanSizeOutOfRange)
    );
    assert_eq!(
        load_history_recovery_plan(false, 1),
        Err(LoadError::PlanNotAFile)
    );
}

fn directory() -> PrekeyDirectory {
    PrekeyDirectory {
        account_id: account(1),
        device_list: device_list(),
        pool_devices: vec![device(11), device(12)],
        verified_now: true,
    }
}

fn issue(
    listener: DeviceId,
    listed: DeviceCertificate,
    directory: PrekeyDirectory,
) -> Result<ConnectionTicketContent, TicketError> {
    ConnectionTicket::new(
        EndpointId { raw: raw(50) },
        listener,
        listed,
        directory,
        account(2),
        RoutePolicy::DirectOnly,
    )
}

fn ticket() -> ConnectionTicket {
    match issue(device(11), certificate(11), directory()) {
        Ok(content) => ConnectionTicket {
            content,
            certificate_verified: true,
            signature_verified: true,
        },
        Err(error) => panic!("{}", error.message()),
    }
}

#[test]
fn connection_ticket_round_trips() {
    let ticket = ticket();
    let payload = vec![9_u8, 0, 255, 127];
    let encoded = match ticket.encode(&payload) {
        Ok(encoded) => encoded,
        Err(error) => panic!("{}", error.message()),
    };
    assert_eq!(encoded, "CQD_fw");
    assert_eq!(ConnectionTicket::decode(&encoded), Ok(payload.clone()));
    assert_eq!(
        ConnectionTicket::decode(&format!("{encoded}\n")),
        Ok(payload)
    );
    assert_eq!(ticket.content.version, TICKET_VERSION);
    assert_eq!(ticket.content.endpoint, EndpointId { raw: raw(50) });
    assert_eq!(ticket.listener_device_id(), device(11));
    assert_eq!(ticket.listener_account_id(), account(1));
    assert_eq!(ticket.listener_authority_snapshot(), authority(3));
    assert_eq!(ticket.content.route_policy, RoutePolicy::DirectOnly);
    assert_eq!(ticket.content.allowed_requester_account_id, account(2));
    assert_eq!(ticket.verify_listener_authorization(true), Ok(device(11)));
    assert!(ticket.verify_listener_authorization(false).is_err());
}

#[test]
fn connection_ticket_rejects_an_expired_prekey_directory() {
    let expired = || PrekeyDirectory {
        verified_now: false,
        ..directory()
    };
    assert_eq!(
        issue(device(11), certificate(11), expired()).err(),
        Some(TicketError::DirectoryUnverified)
    );
    let mut ticket = ticket();
    ticket.content.listener_directory = expired();
    assert_eq!(ticket.verify(), Err(TicketError::DirectoryUnverified));
}

#[test]
fn connection_ticket_rejects_unknown_version() {
    let mut ticket = ticket();
    ticket.content.version = TICKET_VERSION + 1;
    let error = match ticket.verify() {
        Ok(()) => panic!("unknown ticket version unexpectedly succeeded"),
        Err(error) => error,
    };
    assert!(error
        .message()
        .contains("unsupported connection ticket version"));
    assert!(ticket.encode(&[1]).is_err());
}

#[test]
fn connection_ticket_rejects_tampering() {
    let mut ticket = ticket();
    ticket.content.endpoint = EndpointId { raw: raw(51) };
    ticket.signature_verified = false;
    let error = match ticket.verify() {
        Ok(()) => panic!("tampered connection ticket unexpectedly succeeded"),
        Err(error) => error,
    };
    assert!(error
        .message()
        .contains("verify listener signature on connection ticket"));
}

#[test]
fn connection_ticket_rejects_route_policy_tampering() {
    let mut ticket = ticket();
    ticket.content.route_policy = RoutePolicy::RelayOnly;
    ticket.signature_verified = false;
    let error = match ticket.verify() {
        Ok(()) => panic!("tampered route policy unexpectedly succeeded"),
        Err(error) => error,
    };
    assert!(error
        .message()
        .contains("verify listener signature on connection ticket"));
}

#[test]
fn tickets_are_issued_only_for_the_listed_device() {
    let mut foreign = directory();
    foreign.account_id = account(2);
    assert_eq!(
        issue(device(11), certificate(11), foreign).err(),
        Some(TicketError::IssuingDirectoryOfAnotherAccount)
    );
    assert_eq!(
        issue(device(12), certificate(11), directory()).err(),
        Some(TicketError::CertificateOfAnotherDevice)
    );
    assert_eq!(
        issue(device(13), certificate(13), directory()).err(),
        Some(TicketError::IssuingCertificateNotListed)
    );
    let mut poolless = directory();
    poolless.pool_devices = vec![device(12)];
    assert_eq!(
        issue(device(11), certificate(11), poolless).err(),
        Some(TicketError::NoPoolForListener)
    );
    for refused in ["not base64!", "CQD_fx", "CQD_fw==", "CQD_f", "CQD/fw", "CQ-D_"] {
        assert_eq!(
            ConnectionTicket::decode(refused),
            Err(TicketError::NotBase64)
        );
    }
    assert_eq!(ConnectionTicket::decode(""), Ok(Vec::new()));
    assert!(ticket_signing_bytes(b"content").ends_with(b"content"));
    assert_eq!(load_connection_ticket(true, false), Ok(TicketInput::Text));
    assert_eq!(load_connection_ticket(false, false), Err(TicketError::NoInput));
    assert_eq!(
        load_connection_ticket(true, true),
        Err(TicketError::SeveralInputs)
    );
    assert_eq!(check_descriptor_size("12345", 5), Ok(()));
    assert_eq!(
        check_descriptor_size("12345", 4),
        Err(TicketError::DescriptorTooLarge)
    );
}

#[test]
fn contacts_keep_to_their_peer_and_route() {
    let contact = RuntimeContact {
        contact_id: RuntimeContactId { raw: raw(30) },
        peer_account_id: account(1),
        peer_device_id: device(11),
        conversation_id: conversation(),
        route_policy: RoutePolicy::DirectOnly,
    };
    let checks = ContactChecks {
        authority_verified: true,
        listener_authorized: true,
        requester_authorized: true,
    };
    let load = |contact: RuntimeContact, local: u128, checks: ContactChecks| {
        ticket().load_runtime_contact_ticket(contact, account(local), checks)
    };
    assert_eq!(load(contact, 2, checks), Ok(()));
    assert_eq!(
        load(contact, 3, checks),
        Err(TicketError::RequesterNotAllowed)
    );
    let other = RuntimeContact {
        peer_device_id: device(12),
        ..contact
    };
    assert_eq!(load(other, 2, checks), Err(TicketError::OtherPeerDevice));
    let rerouted = RuntimeContact {
        route_policy: RoutePolicy::Auto,
        ..contact
    };
    assert_eq!(
        load(rerouted, 2, checks),
        Err(TicketError::RoutePolicyChanged)
    );
    let refused = ticket().recovery_bootstrap(account(1), true, true);
    assert!(matches!(refused, Err(TicketError::SourceRefusesAccount)));
    match ticket().recovery_bootstrap(account(2), true, true) {
        Ok(bootstrap) => assert_eq!(bootstrap.source_device_id, device(11)),
        Err(error) => panic!("{}", error.message()),
    }
}

#[test]
fn ratchet_fanout_encrypts_one_event_for_every_signed_account_device() {
    let sender = digest(40);
    assert_eq!(encrypt_ratchet_fanout(true, &[sender, sender]), Ok(sender));
    assert_eq!(
        encrypt_ratchet_fanout(true, &[sender, digest(41)]),
        Err(DeliveryError::InconsistentSender)
    );
    assert_eq!(
        encrypt_ratchet_fanout(true, &[]),
        Err(DeliveryError::NoRecipients)
    );
    assert_eq!(
        encrypt_ratchet_fanout(false, &[sender]),
        Err(DeliveryError::DirectoryUnverified)
    );
    let recipients = [device(11), device(12)];
    assert_eq!(listener_in_fanout(&recipients, device(11)), Ok(0));
    assert_eq!(listener_in_fanout(&recipients, device(12)), Ok(1));
    assert_eq!(
        listener_in_fanout(&recipients, device(13)),
        Err(DeliveryError::ListenerNotInFanout)
    );
}

fn text_event(author_account: u128, author: u128) -> EventFacts {
    EventFacts {
        event_id: event_id(60),
        author_account_id: account(author_account),
        author_device_id: device(author),
        conversation_id: conversation(),
        parents: Vec::new(),
        kind: EventKind::Text,
    }
}

fn acknowledgement(parents: Vec<EventId>) -> EventFacts {
    EventFacts {
        event_id: event_id(61),
        author_account_id: account(1),
        author_device_id: device(11),
        conversation_id: conversation(),
        parents,
        kind: EventKind::Acknowledgement {
            acknowledged_event_id: event_id(60),
        },
    }
}

#[test]
fn deliveries_are_stored_once_and_replayed_afterwards() {
    let delivery = Delivery {
        event: text_event(2, 21),
        event_verified: true,
        recipient_account_id: Some(account(1)),
        has_local_ciphertext: true,
    };
    let members = [account(1), account(2)];
    let handle = |delivery: &Delivery, stored: &Vec<EventFacts>, text: StoredText| {
        handle_delivery_request(
            delivery,
            &members,
            account(1),
            device(11),
            account(2),
            device(21),
            stored,
            text,
        )
    };
    assert_eq!(
        handle(&delivery, &Vec::new(), StoredText::Missing),
        Ok(DeliveryPlan::Store { decrypt: true })
    );
    let stored = vec![text_event(2, 21), acknowledgement(vec![event_id(60)])];
    assert_eq!(
        handle(&delivery, &stored, StoredText::Readable),
        Ok(DeliveryPlan::Replay { acknowledgement: 1 })
    );
    assert_eq!(
        handle(&delivery, &stored, StoredText::Missing),
        Err(DeliveryError::ReplayWithoutProjection)
    );
    let forged = Delivery {
        event: text_event(2, 22),
        event_verified: true,
        recipient_account_id: Some(account(1)),
        has_local_ciphertext: true,
    };
    assert_eq!(
        handle(&forged, &Vec::new(), StoredText::Missing),
        Err(DeliveryError::AuthorOfAnotherDevice)
    );
    assert_eq!(
        require_conversation_participants(&members, account(1), account(3)),
        Err(DeliveryError::PeerNotAMember)
    );
    assert_eq!(
        require_conversation_participants(&members, account(3), account(1)),
        Err(DeliveryError::LocalNotAMember)
    );
}

#[test]
fn acknowledgements_are_held_against_the_sent_event() {
    let expected = ExpectedAcknowledgement {
        account_id: account(1),
        device_id: device(11),
        conversation_id: conversation(),
        event_id: event_id(60),
    };
    let causal = acknowledgement(vec![event_id(60)]);
    assert_eq!(
        check_connect_acknowledgement(Some(&causal), true, expected),
        Ok(())
    );
    assert_eq!(send_runtime_delivery(Some(&causal), true, expected), Ok(()));
    assert_eq!(
        check_connect_acknowledgement(Some(&acknowledgement(Vec::new())), true, expected),
        Err(DeliveryError::NotCausal)
    );
    assert_eq!(
        check_connect_acknowledgement(Some(&text_event(1, 11)), true, expected),
        Err(DeliveryError::NotAnAcknowledgement)
    );
    assert_eq!(
        check_connect_acknowledgement(None, true, expected),
        Err(DeliveryError::UnexpectedReply)
    );
}

#[test]
fn messages_are_stored_before_they_are_sent() {
    let mut message = OutgoingMessage::start(account(1), device(11), conversation());
    assert_eq!(message.phase, SendPhase::Storing);
    message.connect(&SendEvent::EventStored {
        event_id: event_id(60),
    });
    assert_eq!(message.event_id, Some(event_id(60)));
    while message.phase != SendPhase::StoringAcknowledgement {
        let event = match message.phase {
            SendPhase::Sending => SendEvent::EventSent,
            SendPhase::FindingListener => SendEvent::RecipientsListed {
                recipients: vec![device(12), device(11)],
            },
            SendPhase::AwaitingAcknowledgement => SendEvent::Answered {
                acknowledgement: Some(acknowledgement(vec![event_id(60)])),
                verified: true,
            },
            _ => panic!("unexpected phase"),
        };
        message.connect(&event);
    }
    message.connect(&SendEvent::AcknowledgementStored);
    assert_eq!(message.phase, SendPhase::Acknowledged);
}
