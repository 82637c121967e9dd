use kilogram_cli::account::{
    add_conversation_members, add_runtime_contact, decode_descriptor, export_ratchet_bundle,
    export_ratchet_prekey_pool, format_capabilities, format_event_ids, install_conversation_membership, seeded_body,
    AccountError, ContactError, PoolParameters, SeedRequest,
};
use kilogram_cli::delivery::DeliveryError;
use kilogram_cli::history_recovery::{
    accept_history_recovery_link, check_manifest, checkpoint_expects, checkpoint_file_name,
    fetch_history_rewrap, import_counts, import_history_rewrap_material,
    load_latest_history_recovery_checkpoint, request_history_rewrap_transfer,
    require_recipient_membership,
    resume_history_recovery, validate_existing_history_rewrap, validate_resume_options,
    ExistingProjection, FetchSource, HistoryRecoveryBootstrap, ImportEntry, ImportedEntry,
    PageReply, PageRequest, RecoveryCheckpoint, RecoveryError, ResumeOptions, ResumeStart,
    RewrapManifest,
};
use kilogram_cli::history_view::{
    show_history, HistoryError, HistoryEvent, HistoryPayload, HistorySummary,
};
use kilogram_cli::identity::{
    AccountDeviceList, AuthoritySnapshot, DeviceCertificate, ProtocolLimits, RoutePolicy,
};
use kilogram_cli::ids::{AccountId, ConversationId, DeviceId, Digest, EndpointId, EventId, Id32};
use kilogram_cli::projection::{
    ensure_authored_local_text_projection, ensure_local_projection, ensure_local_projections,
    ensure_received_local_text_projection, open_local_text_projection_if_present,
    order_text_events, BatchEvent, BatchFault, BatchWrite, BatchWritePhase, ProjectionError,
    ProjectionWrite, ReadProjection, StoredProjection,
};
use kilogram_cli::publication_conflict_ceremony::{
    inspect_publication_conflict_request, inspect_publication_conflict_response, read_claim_qr,
    render_claim_qr, replacement_ticket_text, CeremonyError, PublicationConflictProof,
    PublicationConflictQrClaim, PublicationConflictResolution,
    PublicationConflictResolutionResponse, ReplacementTicket,
    SignedPublicationConflictResolutionRequest,
};
use kilogram_cli::recovery_discovery::{
    accepts_discovered_link, discover_history_recovery_links, loopback_target, multicast_target,
    publication_interval, publication_started, validate_discovery_options, validate_payload_shape,
    DiscoveryError, DiscoveryRequest, HeardDatagram, RecoveryDiscoveryScan,
};
use kilogram_cli::recovery_link::{
    HistoryRecoveryLinkContent, LinkError, SignedHistoryRecoveryLink,
    HISTORY_RECOVERY_LINK_PREFIX, HISTORY_RECOVERY_LINK_VERSION,
};
use kilogram_cli::ticket::TicketError;
use kilogram_cli::time::TimeSpan;
use kilogram_cli::vault::{
    check_passphrase_file, load_certificate, load_conversation_membership,
    load_own_authority_snapshot, membership_relative_path, open_immutable_read_repositories,
    read_recovery_passphrase, strip_vault_record_prefix, HistorySource, TrustReadSource,
    VaultError, VaultRecord, VaultRecordKind,
};

const LIMITS: ProtocolLimits = ProtocolLimits {
    max_inventory_event_ids: 4_096,
    max_history_rewrap_entries: 256,
};

fn raw(low: u128) -> Id32 {
    Id32 { high: 0, low }
}

fn account(low: u128) -> AccountId {
    AccountId { raw: raw(low) }
}

fn device(low: u128) -> DeviceId {
    DeviceId { raw: raw(low) }
}

fn digest(low: u128) -> Digest {
    Digest { raw: raw(low) }
}

fn event(low: u128) -> EventId {
    EventId { raw: raw(low) }
}

fn conversation(low: u128) -> ConversationId {
    ConversationId { raw: raw(low) }
}

fn certificate(low: u128) -> DeviceCertificate {
    DeviceCertificate {
        account_id: account(1),
        device_id: device(low),
        digest: digest(low),
    }
}

fn authority(revision: u64) -> AuthoritySnapshot {
    AuthoritySnapshot {
        account_id: account(1),
        revision,
        digest: digest(90),
    }
}

fn device_list() -> AccountDeviceList {
    AccountDeviceList {
        authority: authority(2),
        certificates: vec![certificate(11), certificate(12)],
        digest: digest(91),
    }
}

fn checkpoint(id: u128, previous: Option<u128>, next: u64) -> RecoveryCheckpoint {
    RecoveryCheckpoint {
        recovery_id: digest(40),
        checkpoint_id: digest(id),
        previous_checkpoint_id: previous.map(digest),
        next_range_start: next,
        approved_range_end: 10,
        complete: next == 10,
    }
}

#[test]
fn recovery_goes_on_from_the_end_of_its_chain() {
    let initial = checkpoint(50, None, 0);
    let first = checkpoint(51, Some(50), 4);
    let second = checkpoint(52, Some(51), 8);
    let mut foreign = checkpoint(60, None, 9);
    foreign.recovery_id = digest(41);
    let load = |stored: &[RecoveryCheckpoint]| {
        load_latest_history_recovery_checkpoint(initial, stored)
    };
    assert_eq!(load(&[]), Ok(initial));
    assert_eq!(load(&[second, foreign, first]), Ok(second));
    assert_eq!(
        load(&[first, first]),
        Err(RecoveryError::CheckpointRegresses)
    );
    assert_eq!(load(&[second]), Err(RecoveryError::CheckpointForked));
    assert!(first.is_sound());
    let mut nothing_left = first;
    nothing_left.next_range_start = nothing_left.approved_range_end;
    nothing_left.complete = false;
    assert!(!nothing_left.is_sound());
    assert_eq!(checkpoint_expects(first, 4), Ok(()));
    assert_eq!(
        checkpoint_expects(first, 5),
        Err(RecoveryError::CheckpointExpectsOtherRange)
    );
    assert_eq!(
        checkpoint_file_name("ab", 42, &[0, 255]),
        "ab-00000000000000000042-00ff.checkpoint"
    );
}

fn bootstrap() -> HistoryRecoveryBootstrap {
    HistoryRecoveryBootstrap {
        endpoint: EndpointId { raw: raw(70) },
        account_device_list: device_list(),
        account_id: account(1),
        source_device_id: device(11),
        route_policy: RoutePolicy::Auto,
    }
}

fn resume(
    options: ResumeOptions,
    source: u128,
    sas: &str,
    stored: &[RecoveryCheckpoint],
    member: bool,
) -> Result<ResumeStart, RecoveryError> {
    resume_history_recovery(
        options,
        &bootstrap(),
        certificate(12),
        account(1),
        device(source),
        &Some("123".to_owned()),
        sas,
        checkpoint(50, None, 0),
        stored,
        member,
        LIMITS,
    )
}

#[test]
fn recovery_asks_for_the_approved_range_page_by_page() {
    let options = ResumeOptions {
        approved_range_start: 0,
        approved_event_count: 10,
        page_size: 4,
        max_pages: 3,
    };
    let mut session = match resume(options, 11, " 123\n", &[checkpoint(51, Some(50), 4)], true) {
        Ok(ResumeStart::Connect { session }) => session,
        other => panic!("{other:?}"),
    };
    assert_eq!(
        session.next_request(),
        Ok(Some(PageRequest {
            range_start: 4,
            count: 4
        }))
    );
    session.page_imported(checkpoint(52, Some(51), 8));
    assert_eq!(
        session.next_request(),
        Ok(Some(PageRequest {
            range_start: 8,
            count: 2
        }))
    );
    session.page_imported(checkpoint(53, Some(52), 10));
    assert_eq!(session.next_request(), Ok(None));

    let complete = checkpoint(54, Some(50), 10);
    assert_eq!(
        resume(options, 11, "123", &[complete], false),
        Ok(ResumeStart::Complete {
            checkpoint: complete
        })
    );
    assert_eq!(
        resume(options, 11, "123", &[], false),
        Err(RecoveryError::NotAMember)
    );
    assert_eq!(
        resume(options, 12, "123", &[], true),
        Err(RecoveryError::OtherSource)
    );
    assert_eq!(
        resume(options, 11, "124", &[], true),
        Err(RecoveryError::SasMismatch)
    );
    let check = |start: usize, count: usize, page: usize, pages: usize| {
        validate_resume_options(start, count, page, pages, LIMITS)
    };
    assert_eq!(check(0, 0, 4, 1), Err(RecoveryError::EmptyCount));
    assert_eq!(check(usize::MAX, 1, 4, 1), Err(RecoveryError::RangeOverflow));
    assert_eq!(check(0, 1, 0, 1), Err(RecoveryError::EmptyPage));
    assert_eq!(check(0, 1, 257, 1), Err(RecoveryError::PageTooLarge));
    assert_eq!(check(0, 1, 4, 0), Err(RecoveryError::NoPages));
    assert_eq!(
        check(0, 1, 4, usize::MAX),
        Err(RecoveryError::TooManyPages)
    );
    assert_eq!(check(0, 1, 256, 1), Ok(()));
}

fn fetch_source() -> FetchSource {
    FetchSource {
        allowed_requester_account_id: account(1),
        source_device_id: device(11),
        account_device_list: device_list(),
        derived_sas: Some("123".to_owned()),
        is_member: true,
    }
}

#[test]
fn ranges_are_fetched_from_the_confirmed_source() {
    let fetch = |count: usize, recipient: u128, sas: &str, source: &FetchSource| {
        fetch_history_rewrap(
            count,
            certificate(recipient),
            account(1),
            Some(device(11)),
            source,
            sas,
            LIMITS,
        )
    };
    assert_eq!(fetch(4, 12, "123", &fetch_source()), Ok(()));
    assert_eq!(
        fetch(0, 12, "123", &fetch_source()),
        Err(RecoveryError::EmptyCount)
    );
    assert_eq!(
        fetch(257, 12, "123", &fetch_source()),
        Err(RecoveryError::CountTooLarge)
    );
    assert_eq!(
        fetch(4, 13, "123", &fetch_source()),
        Err(RecoveryError::RecipientCertificateDiffers)
    );
    assert_eq!(
        fetch(4, 12, "321", &fetch_source()),
        Err(RecoveryError::SasMismatch)
    );
    let mut source = fetch_source();
    source.allowed_requester_account_id = account(2);
    assert_eq!(
        fetch(4, 12, "123", &source),
        Err(RecoveryError::RequesterNotAllowed)
    );
    let mut source = fetch_source();
    source.source_device_id = device(12);
    assert_eq!(
        fetch(4, 12, "123", &source),
        Err(RecoveryError::OtherSource)
    );
    let mut source = fetch_source();
    source.derived_sas = None;
    assert_eq!(
        fetch(4, 12, "123", &source),
        Err(RecoveryError::SasUnavailable)
    );
    let mut source = fetch_source();
    source.is_member = false;
    assert_eq!(fetch(4, 12, "123", &source), Err(RecoveryError::NotAMember));
    let answer = |reply: PageReply| request_history_rewrap_transfer(reply, conversation(70), 100);
    assert_eq!(
        answer(PageReply::Transfer {
            verified: true,
            encoded_bytes: 100
        }),
        Ok(())
    );
    assert_eq!(
        answer(PageReply::Transfer {
            verified: true,
            encoded_bytes: 101
        }),
        Err(RecoveryError::TransferTooLarge)
    );
    assert_eq!(
        answer(PageReply::Transfer {
            verified: false,
            encoded_bytes: 1
        }),
        Err(RecoveryError::TransferUnverified)
    );
    assert_eq!(
        answer(PageReply::Rejected {
            conversation_id: conversation(70)
        }),
        Err(RecoveryError::RejectedBySource)
    );
    assert_eq!(
        answer(PageReply::Rejected {
            conversation_id: conversation(71)
        }),
        Err(RecoveryError::RejectionOfAnotherConversation)
    );
    assert_eq!(
        answer(PageReply::Other),
        Err(RecoveryError::UnexpectedReply)
    );
}

fn entry(body: Option<&str>, existing: ExistingProjection) -> ImportEntry {
    ImportEntry {
        body: body.map(str::to_owned),
        authorized: true,
        existing,
    }
}

#[test]
fn imports_never_replace_a_stored_text() {
    assert_eq!(
        import_history_rewrap_material(&vec![
            entry(Some("a"), ExistingProjection::Missing),
            entry(Some("b"), ExistingProjection::Body("b".to_owned())),
        ]),
        Ok(vec![false, true])
    );
    assert_eq!(
        import_history_rewrap_material(&vec![
            entry(Some("a"), ExistingProjection::Missing),
            entry(Some("b"), ExistingProjection::Body("c".to_owned())),
        ]),
        Err(RecoveryError::ProjectionConflict { entry: 1 })
    );
    assert_eq!(
        import_history_rewrap_material(&vec![entry(Some("a"), ExistingProjection::Unreadable)]),
        Err(RecoveryError::ExistingProjectionUnreadable { entry: 0 })
    );
    assert_eq!(
        import_history_rewrap_material(&vec![entry(None, ExistingProjection::Missing)]),
        Err(RecoveryError::EntryUnreadable { entry: 0 })
    );
    let mut unauthorized = entry(Some("a"), ExistingProjection::Missing);
    unauthorized.authorized = false;
    assert_eq!(
        import_history_rewrap_material(&vec![unauthorized]),
        Err(RecoveryError::EntryUnauthorized { entry: 0 })
    );
    let written = |existed: bool, inserted: bool, event_inserted: bool| ImportedEntry {
        projection_existed: existed,
        projection_inserted: inserted,
        event_inserted,
    };
    assert_eq!(
        import_counts(&[
            written(false, true, true),
            written(true, true, false),
            written(false, true, true),
            written(false, false, true)
        ]),
        (2, 3)
    );
    assert_eq!(validate_existing_history_rewrap(b"a", b"a"), Ok(()));
    assert_eq!(
        validate_existing_history_rewrap(b"a", b"b"),
        Err(RecoveryError::StoredConflict)
    );
    let manifest = |conversation_id: u128, account_id: u128, recipient: u128| RewrapManifest {
        conversation_id: conversation(conversation_id),
        account_id: account(account_id),
        recipient_device_id: device(recipient),
        account_device_list: device_list(),
    };
    let check = |manifest: RewrapManifest| {
        check_manifest(&manifest, conversation(70), certificate(12))
    };
    assert_eq!(check(manifest(70, 1, 12)), Ok(()));
    assert_eq!(
        check(manifest(71, 1, 12)),
        Err(RecoveryError::OtherConversation)
    );
    assert_eq!(check(manifest(70, 2, 12)), Err(RecoveryError::OtherAccount));
    assert_eq!(
        check(manifest(70, 1, 11)),
        Err(RecoveryError::OtherRecipient)
    );
    let mut unlisted = manifest(70, 1, 12);
    unlisted.account_device_list.certificates = vec![certificate(11)];
    assert_eq!(
        check(unlisted),
        Err(RecoveryError::RecipientCertificateDiffers)
    );
}

fn link() -> SignedHistoryRecoveryLink {
    SignedHistoryRecoveryLink {
        content: HistoryRecoveryLinkContent {
            version: HISTORY_RECOVERY_LINK_VERSION,
            endpoint: EndpointId { raw: raw(70) },
            source_certificate: certificate(11),
            account_device_list: device_list(),
            recipient_device_id: device(12),
            conversation_id: conversation(70),
            approved_range_start: 2,
            approved_range_end: 10,
            page_size: 4,
            route_policy: RoutePolicy::RelayOnly,
            issued_at_unix_seconds: 1_000,
            expires_at_unix_seconds: 1_600,
            device_list_verified: true,
            source_authorized: true,
        },
        signature_verified: true,
        derived_sas: Some("123".to_owned()),
    }
}

#[test]
fn links_are_accepted_with_their_confirmed_code() {
    let accept = |sas: &str, conversation_id: u128| {
        accept_history_recovery_link(
            &link(),
            1_500,
            certificate(12),
            conversation(conversation_id),
            sas,
            LIMITS,
        )
    };
    match accept(" 123 ", 70) {
        Ok(accepted) => {
            assert_eq!(accepted.approved_range_start, 2);
            assert_eq!(accepted.approved_event_count, 8);
            assert_eq!(accepted.page_size, 4);
            assert_eq!(accepted.bootstrap.source_device_id, device(11));
            assert_eq!(accepted.bootstrap.route_policy, RoutePolicy::RelayOnly);
            assert_eq!(accepted.bootstrap.authority_snapshot(), authority(2));
        }
        Err(error) => panic!("{error:?}"),
    }
    assert!(matches!(accept("12", 70), Err(LinkError::SasMismatch)));
    assert!(matches!(
        accept("123", 71),
        Err(LinkError::ConversationMismatch)
    ));
    let discovered = |expected: Option<DeviceId>, local: u64| {
        accepts_discovered_link(
            &link(),
            1_500,
            certificate(12),
            conversation(70),
            expected,
            authority(local),
            LIMITS,
        )
    };
    assert!(discovered(None, 2));
    assert!(discovered(Some(device(11)), 1));
    assert!(!discovered(Some(device(12)), 2));
    assert!(!discovered(None, 3));
}

#[test]
fn published_links_are_found_once_and_within_bounds() {
    let payload = format!("{HISTORY_RECOVERY_LINK_PREFIX}test-payload");
    let mut scan = match RecoveryDiscoveryScan::start(TimeSpan::from_millis(900), 2) {
        Ok(scan) => scan,
        Err(error) => panic!("{error:?}"),
    };
    for datagram in [payload.as_bytes(), format!("{payload}\n").as_bytes()] {
        assert!(scan.wants_datagram());
        assert!(scan.receive(datagram));
        assert_eq!(scan.awaiting.as_ref(), Some(&payload));
        scan.judge(true);
    }
    assert!(!scan.receive(b"https://example.com"));
    assert!(!scan.receive(&[0xff]));
    assert_eq!(scan.candidates, vec![payload.clone()]);
    assert_eq!(scan.datagrams_received, 4);
    assert_eq!(scan.datagrams_rejected, 2);
    assert_eq!(scan.duplicate_candidates, 1);
    assert!(!scan.candidate_limit_reached);
    assert!(!scan.datagram_limit_reached());
    assert_eq!(scan.selected_candidate(), Ok(&payload));
    for suffix in ["b", "a"] {
        let other = format!("{HISTORY_RECOVERY_LINK_PREFIX}{suffix}");
        assert!(scan.receive(other.as_bytes()));
        scan.judge(true);
    }
    assert!(scan.candidate_limit_reached);
    assert!(!scan.wants_datagram());
    assert_eq!(scan.candidates.len(), 2);
    assert_eq!(scan.selected_candidate(), Err(DiscoveryError::Ambiguous));
    assert!(matches!(
        RecoveryDiscoveryScan::start(TimeSpan::from_secs(31), 2),
        Err(DiscoveryError::WaitOutOfRange)
    ));
    assert!(matches!(
        RecoveryDiscoveryScan::start(TimeSpan::from_secs(30), 17),
        Err(DiscoveryError::CandidateLimitOutOfRange)
    ));
    let empty = match RecoveryDiscoveryScan::start(TimeSpan::from_secs(1), 2) {
        Ok(scan) => scan,
        Err(error) => panic!("{error:?}"),
    };
    assert_eq!(empty.selected_candidate(), Err(DiscoveryError::NoCandidate));
}

fn heard(text: &str, link: Option<SignedHistoryRecoveryLink>) -> HeardDatagram {
    HeardDatagram {
        bytes: text.as_bytes().to_vec(),
        link,
    }
}

fn discover(max_candidates: usize, heard: &[HeardDatagram]) -> Result<String, DiscoveryError> {
    let request = DiscoveryRequest {
        now_unix_seconds: 1_500,
        recipient_certificate: certificate(12),
        conversation_id: conversation(70),
        expected_source: None,
        local_authority: authority(2),
        limits: LIMITS,
    };
    discover_history_recovery_links(3, max_candidates, heard, request)
}

#[test]
fn discovery_selects_the_one_accepted_link() {
    let first = format!("{HISTORY_RECOVERY_LINK_PREFIX}first");
    let second = format!("{HISTORY_RECOVERY_LINK_PREFIX}second");
    let mut unsigned = link();
    unsigned.signature_verified = false;
    let noise = || {
        vec![
            heard("https://example.com", Some(link())),
            heard(&second, None),
            heard(&first, Some(link())),
            heard(&format!(" {first}\n"), Some(link())),
        ]
    };
    assert_eq!(discover(8, &noise()), Ok(first.clone()));
    let mut several = noise();
    several.push(heard(&second, Some(unsigned)));
    assert_eq!(discover(1, &several), Ok(first));
    several.push(heard(&second, Some(link())));
    assert_eq!(discover(1, &several), Err(DiscoveryError::Ambiguous));
    assert_eq!(discover(8, &several), Err(DiscoveryError::Ambiguous));
    assert_eq!(discover(8, &[]), Err(DiscoveryError::NoCandidate));
    assert_eq!(
        discover(8, &[heard("https://example.com", Some(link()))]),
        Err(DiscoveryError::NoCandidate)
    );
    assert_eq!(
        discover(17, &[]),
        Err(DiscoveryError::CandidateLimitOutOfRange)
    );
    let mut late: Vec<HeardDatagram> = (0..512).map(|_| heard("other", None)).collect();
    late.push(heard(&second, Some(link())));
    assert_eq!(discover(8, &late), Err(DiscoveryError::NoCandidate));
}

#[test]
fn discovery_keeps_to_its_constants() {
    assert_eq!(multicast_target().port, 45_371);
    assert_eq!(loopback_target().octets, (127, 0, 0, 1));
    assert!(publication_interval().nanos > 0);
    assert_eq!(publication_started(false, true), Ok(()));
    assert_eq!(
        publication_started(false, false),
        Err(DiscoveryError::NothingPublished)
    );
    assert_eq!(validate_discovery_options(3, 8), Ok(()));
    assert_eq!(
        validate_discovery_options(0, 8),
        Err(DiscoveryError::WaitOutOfRange)
    );
    assert_eq!(
        validate_discovery_options(3, 0),
        Err(DiscoveryError::CandidateLimitOutOfRange)
    );
    assert_eq!(
        validate_payload_shape("  "),
        Err(DiscoveryError::EmptyPayload)
    );
    assert_eq!(
        validate_payload_shape("kilogram://history-recovery/v1/\u{e9}"),
        Err(DiscoveryError::PayloadNotAscii)
    );
    assert_eq!(
        validate_payload_shape("other://"),
        Err(DiscoveryError::UnsupportedPrefix)
    );
    assert_eq!(
        validate_payload_shape(&"a".repeat(4_097)),
        Err(DiscoveryError::PayloadTooLong)
    );
}

fn batch_event(low: u128, author: u128, sequence: u64, stored: ReadProjection) -> BatchEvent {
    BatchEvent {
        event_id: event(low),
        author_device_id: device(author),
        author_sequence: sequence,
        is_text: true,
        recipient_account_id: account(1),
        has_local_box: true,
        stored,
    }
}

#[test]
fn sync_store_rejects_event_without_a_local_recipient_box() {
    let mut event = batch_event(30, 21, 0, ReadProjection::Missing);
    event.has_local_box = false;
    assert_eq!(
        ensure_local_projections(&[event], device(11), account(1)),
        Err(BatchFault {
            index: 0,
            error: ProjectionError::DeviceNotParticipant {
                device_id: device(11)
            }
        })
    );
    let mut write = BatchWrite::start();
    write.put_events(true);
    write.put_events(false);
    assert_eq!(write.phase, BatchWritePhase::Failed);
}

#[test]
fn sync_store_creates_a_local_projection_for_a_received_event() {
    let received = batch_event(30, 21, 0, ReadProjection::Missing);
    assert_eq!(
        ensure_local_projection(&received, device(11), account(1)),
        Ok(ProjectionWrite::Seal)
    );
    assert_eq!(
        ensure_local_projections(&[received], device(11), account(1)),
        Ok(vec![0])
    );
    let again = batch_event(30, 21, 0, ReadProjection::Opens);
    assert_eq!(
        ensure_local_projections(&[again], device(11), account(1)),
        Ok(Vec::new())
    );
    let mut write = BatchWrite::start();
    for phase in [
        BatchWritePhase::StagingEvents,
        BatchWritePhase::Writing,
        BatchWritePhase::ShowingProjections,
        BatchWritePhase::ShowingEvents,
        BatchWritePhase::Done,
    ] {
        assert_eq!(write.phase, phase);
        write.put_events(true);
    }
    match open_local_text_projection_if_present(StoredProjection::Opened {
        body: "received through sync".to_owned(),
    }) {
        Ok(body) => assert_eq!(body, Some("received through sync".to_owned())),
        Err(error) => panic!("{error:?}"),
    }
}

#[test]
fn texts_are_gone_through_by_author_and_sequence() {
    let mut events = vec![
        batch_event(30, 22, 1, ReadProjection::Missing),
        batch_event(31, 21, 7, ReadProjection::Missing),
        batch_event(32, 22, 0, ReadProjection::Missing),
        batch_event(33, 21, 3, ReadProjection::Opens),
    ];
    assert_eq!(order_text_events(&events), vec![3, 1, 2, 0]);
    assert_eq!(
        ensure_local_projections(&events, device(11), account(1)),
        Ok(vec![1, 2, 0])
    );
    events[1].is_text = false;
    assert_eq!(order_text_events(&events), vec![3, 2, 0]);
    let fault = |event: BatchEvent| ensure_local_projection(&event, device(11), account(1));
    assert_eq!(
        fault(batch_event(30, 11, 0, ReadProjection::Missing)),
        Err(ProjectionError::AuthoredTextMissing)
    );
    let mut elsewhere = batch_event(30, 21, 0, ReadProjection::Missing);
    elsewhere.recipient_account_id = account(2);
    assert_eq!(
        fault(elsewhere),
        Err(ProjectionError::RecipientAccountMismatch {
            expected: account(1),
            actual: account(2)
        })
    );
    assert_eq!(
        fault(batch_event(30, 21, 0, ReadProjection::CannotBeOpened)),
        Err(ProjectionError::CannotBeOpened)
    );
    assert_eq!(
        fault(batch_event(30, 21, 0, ReadProjection::CannotBeRead)),
        Err(ProjectionError::CannotBeRead)
    );
    let stored = StoredProjection::Opened {
        body: "text".to_owned(),
    };
    assert_eq!(
        ensure_authored_local_text_projection(&stored, "text"),
        Ok(ProjectionWrite::Keep)
    );
    assert_eq!(
        ensure_received_local_text_projection(&stored, "other"),
        Err(ProjectionError::PlaintextConflict)
    );
    assert_eq!(
        ensure_received_local_text_projection(&StoredProjection::Missing, "other"),
        Ok(ProjectionWrite::Seal)
    );
}

fn record(kind: VaultRecordKind, path: &str) -> VaultRecord {
    VaultRecord {
        kind,
        relative_path: path.to_owned(),
        content: path.as_bytes().to_vec(),
    }
}

#[test]
fn trust_records_are_found_by_their_path() {
    let trust = |path: &str| record(VaultRecordKind::Trust, path);
    let source = match TrustReadSource::open(Some(vec![trust("a"), trust("b")])) {
        Ok(source) => source,
        Err(error) => panic!("{error:?}"),
    };
    assert_eq!(source.vault_record("b"), Ok(Some(1)));
    assert_eq!(
        source.vault_record("c"),
        Err(VaultError::TrustRecordMissing)
    );
    match TrustReadSource::open(None) {
        Ok(files) => assert_eq!(files.vault_record("c"), Ok(None)),
        Err(error) => panic!("{error:?}"),
    }
    assert!(matches!(
        TrustReadSource::open(Some(vec![trust("a"), record(VaultRecordKind::Event, "b")])),
        Err(VaultError::NotATrustRecord { index: 1 })
    ));
    assert!(matches!(
        TrustReadSource::open(Some(vec![trust("a"), trust("b"), trust("a")])),
        Err(VaultError::DuplicateTrustRecord { index: 2 })
    ));
    assert_eq!(
        membership_relative_path(conversation(255)),
        format!("conversation-memberships/{}ff.membership", "0".repeat(62))
    );
    assert_eq!(
        load_conversation_membership(conversation(1), conversation(1)),
        Ok(())
    );
    assert_eq!(
        load_conversation_membership(conversation(1), conversation(2)),
        Err(VaultError::MembershipOfAnotherConversation)
    );
    assert_eq!(
        load_certificate(&certificate(11), digest(1), device(11), digest(1)),
        Ok(())
    );
    assert_eq!(
        load_certificate(&certificate(12), digest(1), device(11), digest(1)),
        Err(VaultError::CertificateOfAnotherDevice)
    );
    assert_eq!(
        load_certificate(&certificate(11), digest(2), device(11), digest(1)),
        Err(VaultError::CertificateWithAnotherKey)
    );
    let own = |sequence: u64, verified: bool| {
        load_own_authority_snapshot(&certificate(11), sequence, &authority(2), verified)
    };
    assert_eq!(own(1, true), Ok(()));
    assert_eq!(own(2, true), Err(VaultError::CertificateOutsideAuthority));
    assert_eq!(own(1, false), Err(VaultError::AuthorityUnverified));
}

#[test]
fn history_records_are_parted_by_kind() {
    let history = match open_immutable_read_repositories(&[
        record(VaultRecordKind::LocalProjection, "local-messages/x"),
        record(VaultRecordKind::Event, "events/c/1.event"),
        record(VaultRecordKind::Event, "events/c/2.event"),
    ]) {
        Ok(history) => history,
        Err(error) => panic!("{error:?}"),
    };
    let paths: Vec<&str> = history.events.iter().map(|e| e.path.as_str()).collect();
    assert_eq!(paths, vec!["c/1.event", "c/2.event"]);
    assert_eq!(history.local_projections.len(), 1);
    assert_eq!(history.local_projections[0].path, "x");
    assert_eq!(
        history.local_projections[0].content,
        b"local-messages/x".to_vec()
    );
    assert!(matches!(
        open_immutable_read_repositories(&[record(VaultRecordKind::Other, "events/a")]),
        Err(VaultError::UnexpectedRecord { index: 0 })
    ));
    assert!(matches!(
        open_immutable_read_repositories(&[record(VaultRecordKind::Event, "local-messages/a")]),
        Err(VaultError::PrefixMissing)
    ));
    assert_eq!(
        strip_vault_record_prefix("events/a", "events/"),
        Ok("a".to_owned())
    );
    assert_eq!(
        strip_vault_record_prefix("events/", "events/"),
        Err(VaultError::PrefixMissing)
    );
    assert_eq!(HistorySource::Filesystem.primary(), "legacy-filesystem");
    assert_eq!(HistorySource::Filesystem.shadow(), "not-enabled");
    let vault = HistorySource::Vault {
        generation: 1,
        event_records: 2,
        local_projection_records: 3,
    };
    assert_eq!(vault.primary(), "encrypted-vault");
    assert_eq!(vault.shadow(), "legacy-verified");
}

#[test]
fn passphrases_lose_one_line_ending() {
    assert_eq!(read_recovery_passphrase(b"secret\r\n"), 6);
    assert_eq!(read_recovery_passphrase(b"secret\n\n"), 7);
    assert_eq!(read_recovery_passphrase(b"secret\r"), 7);
    assert_eq!(read_recovery_passphrase(b""), 0);
    assert_eq!(check_passphrase_file(false, true, 4_098), Ok(()));
    assert_eq!(
        check_passphrase_file(true, true, 1),
        Err(VaultError::PassphraseIsSymlink)
    );
    assert_eq!(
        check_passphrase_file(false, false, 1),
        Err(VaultError::PassphraseNotAFile)
    );
    assert_eq!(
        check_passphrase_file(false, true, 4_099),
        Err(VaultError::PassphraseTooLarge)
    );
}

fn seed_request() -> SeedRequest {
    let peer = DeviceCertificate {
        account_id: account(2),
        device_id: device(21),
        digest: digest(21),
    };
    SeedRequest {
        count: 3,
        certificate: certificate(11),
        peer_certificate: peer,
        peer_devices: vec![peer],
        pool_device_id: device(21),
        pool_fresh: true,
    }
}

fn seed(
    request: SeedRequest,
    members: &[AccountId],
    existing: usize,
    limit: usize,
) -> Option<AccountError> {
    request
        .seed_history(members, existing, limit, "seed".to_owned(), Vec::new())
        .err()
}

#[test]
fn seeded_histories_are_bounded() {
    let members = [account(1), account(2)];
    assert_eq!(seed(seed_request(), &members, 4_093, 4_096), None);
    assert_eq!(
        seed(seed_request(), &members, 4_094, 4_096),
        Some(AccountError::InventoryLimit)
    );
    assert_eq!(
        seed(seed_request(), &members, usize::MAX, usize::MAX),
        Some(AccountError::InventoryLimit)
    );
    assert_eq!(
        seed(seed_request(), &[account(1)], 0, 4_096),
        Some(AccountError::PeerNotAMember)
    );
    assert_eq!(
        seed(seed_request(), &[account(2)], 0, 4_096),
        Some(AccountError::NotAMember)
    );
    let refused = |request: SeedRequest| seed(request, &members, 0, 4_096);
    let mut request = seed_request();
    request.count = 0;
    assert_eq!(refused(request), Some(AccountError::EmptyCount));
    let mut request = seed_request();
    request.peer_certificate = certificate(11);
    assert_eq!(refused(request), Some(AccountError::PeerIsThisDevice));
    let mut request = seed_request();
    request.peer_devices.push(certificate(12));
    assert_eq!(refused(request), Some(AccountError::PeerListNotSingle));
    let mut request = seed_request();
    request.pool_fresh = false;
    assert_eq!(refused(request), Some(AccountError::PoolExpired));
    let mut request = seed_request();
    request.pool_device_id = device(22);
    assert_eq!(refused(request), Some(AccountError::PoolOfAnotherDevice));
    assert_eq!(seeded_body("seed", 3), "seed-3");
}

#[test]
fn seeded_messages_are_numbered_and_chained() {
    let ids = [event(3), event(4), event(5)];
    let frontier = vec![event(1), event(2)];
    let members = [account(1), account(2)];
    let start = || {
        match seed_request().seed_history(&members, 0, 4_096, "fixture".to_owned(), frontier.clone())
        {
            Ok(seeding) => seeding,
            Err(error) => panic!("{error:?}"),
        }
    };
    let messages = start().all_messages(&ids);
    assert_eq!(messages.len(), 3);
    let bodies: Vec<&str> = messages.iter().map(|message| message.body.as_str()).collect();
    assert_eq!(bodies, vec!["fixture-1", "fixture-2", "fixture-3"]);
    assert_eq!(messages[0].parents, frontier);
    assert_eq!(messages[1].parents, vec![event(3)]);
    assert_eq!(messages[2].parents, vec![event(4)]);

    let mut seeding = start();
    for (id, expected) in ids.iter().zip(&messages) {
        match seeding.next_message() {
            Some(message) => {
                assert_eq!(message.body, expected.body);
                assert_eq!(message.parents, expected.parents);
            }
            None => panic!("a message is missing"),
        }
        seeding.event_signed(*id);
    }
    assert!(seeding.next_message().is_none());
}

#[test]
fn account_commands_check_their_arguments() {
    assert_eq!(export_ratchet_bundle(device(11), device(11)), Ok(()));
    assert_eq!(
        export_ratchet_bundle(device(11), device(12)),
        Err(AccountError::CertificateOfAnotherDevice)
    );
    assert_eq!(
        require_recipient_membership(&[account(1), account(2)], account(2)),
        Ok(())
    );
    assert_eq!(
        require_recipient_membership(&[account(1)], account(2)),
        Err(RecoveryError::NotAMember)
    );
    assert_eq!(
        format_capabilities(&["send-messages", "sync-events"]),
        "send-messages,sync-events"
    );
    assert_eq!(format_capabilities(&[]), "");
    assert_eq!(
        format_event_ids(&[event(1), event(2)]),
        format!("{}01,{}02", "0".repeat(62), "0".repeat(62))
    );
    assert_eq!(add_conversation_members(&[account(1)]), Ok(()));
    assert_eq!(add_conversation_members(&[]), Err(AccountError::NoMembers));
    assert_eq!(
        install_conversation_membership(&[account(1)], account(1)),
        Ok(())
    );
    assert_eq!(
        install_conversation_membership(&[account(1)], account(2)),
        Err(AccountError::NotAMember)
    );
    let export = |count: usize, hours: u64, certificate_device: u128| {
        export_ratchet_prekey_pool(count, hours, 64, device(certificate_device), device(11))
    };
    assert_eq!(
        export(64, 2, 11),
        Ok(PoolParameters {
            count: 64,
            validity_seconds: 7_200
        })
    );
    assert_eq!(export(65, 2, 11), Err(AccountError::PoolCountOutOfRange));
    assert_eq!(
        export(1, u64::MAX, 11),
        Err(AccountError::ValidityOverflow)
    );
    assert_eq!(
        export(1, 2, 12),
        Err(AccountError::CertificateOfAnotherDevice)
    );
    let path = |text: &str| -> Vec<String> { text.split('/').map(str::to_owned).collect() };
    let contact = |peer: u128, descriptor: &str| {
        add_runtime_contact(
            &[account(1), account(2)],
            account(1),
            account(peer),
            &path(descriptor),
            &path("state"),
        )
    };
    assert_eq!(contact(2, "peer/descriptor"), Ok(()));
    assert_eq!(
        contact(3, "peer/descriptor"),
        Err(ContactError::Participants {
            fault: DeliveryError::PeerNotAMember
        })
    );
    assert_eq!(
        contact(2, "state/descriptor"),
        Err(ContactError::DescriptorInsideState)
    );
    assert_eq!(decode_descriptor("AQID\n", 64), Ok(vec![1, 2, 3]));
    assert_eq!(
        decode_descriptor("AQID", 3),
        Err(ContactError::Ticket {
            error: TicketError::DescriptorTooLarge
        })
    );
    assert_eq!(
        decode_descriptor("A+ID", 64),
        Err(ContactError::Ticket {
            error: TicketError::NotBase64
        })
    );
}

fn replacement() -> ReplacementTicket {
    ReplacementTicket {
        listener_account_id: account(2),
        listener_device_id: device(21),
        allowed_requester_account_id: account(1),
        route_policy: RoutePolicy::Auto,
        write_key: digest(60),
        channel_epoch: 8,
        endpoint_id: EndpointId { raw: raw(70) },
        peer_authority_revision: 4,
        peer_device_count: 2,
    }
}

fn resolution_request() -> SignedPublicationConflictResolutionRequest {
    SignedPublicationConflictResolutionRequest {
        request_id: "request".to_owned(),
        local_account_id: account(1),
        requester_device_id: device(11),
        authority_revision: 3,
        conflict_proof: PublicationConflictProof {
            proof_id: "proof".to_owned(),
            evidence_id: "evidence".to_owned(),
            detector_device_id: device(12),
            detected_at_unix_seconds: 100,
            publication_generation: 5,
        },
        peer_account_id: account(2),
        peer_device_id: device(21),
        new_write_key: digest(60),
        old_publication_channel_id: "old".to_owned(),
        new_publication_channel_id: "new".to_owned(),
        old_channel_epoch: 7,
        new_channel_epoch: 8,
        route_policy: RoutePolicy::Auto,
        replacement_ticket: b"ticket".to_vec(),
        replacement_ticket_digest: Digest {
            raw: Id32::from_bytes(blake3::hash(b"ticket").as_bytes()),
        },
        requested_at_unix_seconds: 200,
    }
}

fn claim(encoded: &[u8]) -> PublicationConflictQrClaim {
    PublicationConflictQrClaim {
        encoded: encoded.to_vec(),
        confirmation_code: "1-2-3".to_owned(),
    }
}

#[test]
fn resolution_requests_are_inspected_with_their_ticket() {
    let inspect = |request: SignedPublicationConflictResolutionRequest,
                   decoded: Option<PublicationConflictQrClaim>| {
        inspect_publication_conflict_request(
            "request.bin",
            b"artifact",
            request,
            &replacement(),
            claim(b"claim"),
            &decoded,
        )
    };
    match inspect(resolution_request(), Some(claim(b"claim"))) {
        Ok(inspected) => {
            let report = inspected.report();
            assert_eq!(report.request_file, "request.bin");
            assert_eq!(report.artifact_bytes, 8);
            assert_eq!(
                report.artifact_digest,
                blake3::hash(b"artifact").to_hex().to_string()
            );
            assert_eq!(report.verification_qr_status, "exact-match");
            assert_eq!(report.confirmation_code, "1-2-3");
            assert_eq!(report.replacement_peer_device_count, 2);
            assert_eq!(inspected.request().request_id, "request");
        }
        Err(error) => panic!("{error:?}"),
    }
    match inspect(resolution_request(), None) {
        Ok(inspected) => {
            assert_eq!(inspected.report().verification_qr_status, "not-provided");
        }
        Err(error) => panic!("{error:?}"),
    }
    assert!(matches!(
        inspect(resolution_request(), Some(claim(b"other"))),
        Err(CeremonyError::VerificationQrMismatch)
    ));
    let mut stale = resolution_request();
    stale.old_channel_epoch = 8;
    assert!(matches!(
        inspect(stale, None),
        Err(CeremonyError::RequestTicketMismatch)
    ));
    assert_eq!(
        replacement_ticket_text(b"ticket"),
        Ok("ticket".to_owned())
    );
    assert_eq!(
        replacement_ticket_text(&[0xff]),
        Err(CeremonyError::ReplacementTicketNotUtf8)
    );
}

fn resolution_response(ticket: &[u8]) -> PublicationConflictResolutionResponse {
    let request = resolution_request();
    PublicationConflictResolutionResponse {
        request_id: request.request_id,
        resolution: PublicationConflictResolution {
            resolution_id: "resolution".to_owned(),
            local_account_id: request.local_account_id,
            authority_revision: request.authority_revision,
            conflict_evidence_id: request.conflict_proof.evidence_id,
            peer_account_id: request.peer_account_id,
            peer_device_id: request.peer_device_id,
            new_write_key: request.new_write_key,
            old_publication_channel_id: request.old_publication_channel_id,
            new_publication_channel_id: request.new_publication_channel_id,
            replacement_ticket_digest: request.replacement_ticket_digest,
            authorized_at_unix_seconds: 300,
        },
        replacement_ticket: ticket.to_vec(),
    }
}

#[test]
fn resolution_responses_are_bound_to_the_ticket_digest() {
    let inspect = |ticket: &[u8]| {
        inspect_publication_conflict_response(
            "response.bin",
            b"artifact",
            &resolution_response(ticket),
            &replacement(),
            claim(b"claim"),
            &None,
        )
    };
    match inspect(b"ticket") {
        Ok(inspected) => {
            let report = inspected.report();
            assert_eq!(report.resolution_id, "resolution");
            assert_eq!(report.new_channel_epoch, 8);
            assert_eq!(
                report.replacement_ticket_digest,
                blake3::hash(b"ticket").to_hex().to_string()
            );
        }
        Err(error) => panic!("{error:?}"),
    }
    assert!(matches!(
        inspect(b"another ticket"),
        Err(CeremonyError::ResponseTicketMismatch)
    ));
}

#[test]
fn claims_are_carried_by_a_verification_code() {
    let uri = "kilogram://publication-conflict/v1/claim";
    let rendered = match render_claim_qr(uri, "kilogram://", 512) {
        Ok(rendered) => rendered,
        Err(fault) => panic!("{fault:?}"),
    };
    assert_eq!(
        read_claim_qr(&rendered.png, "kilogram://", 512),
        Ok(uri.to_owned())
    );
    assert!(read_claim_qr(&rendered.png, "other://", 512).is_err());
    assert!(render_claim_qr(uri, "kilogram://", 8).is_err());
}

#[test]
fn histories_are_shown_line_by_line() {
    let id = |low: u8| format!("{}{low:02x}", "0".repeat(62));
    let summary = HistorySummary {
        conversation_id: conversation(70),
        membership_revision: 3,
        event_count: 12,
        frontier: vec![event(5), event(6)],
    };
    match show_history(&summary, &[account(1)], account(1)) {
        Ok(lines) => {
            let shown: Vec<String> = lines
                .iter()
                .map(|line| format!("{}={}", line.name, line.value))
                .collect();
            assert_eq!(
                shown,
                vec![
                    format!("conversation_id={}", id(70)),
                    "membership_revision=3".to_owned(),
                    "event_count=12".to_owned(),
                    "frontier_count=2".to_owned(),
                    format!("frontier={},{}", id(5), id(6)),
                ]
            );
        }
        Err(error) => panic!("{error:?}"),
    }
    assert!(matches!(
        show_history(&summary, &[account(1)], account(2)),
        Err(HistoryError::NotAMember)
    ));
    let shown = |payload: HistoryPayload| HistoryEvent {
        event_id: event(4),
        author_account_id: account(1),
        author_device_id: device(11),
        author_sequence: 9,
        parents: vec![event(2), event(3)],
        payload,
    };
    let heading = format!(
        "event_id={} author_account_id={} author_device_id={} author_sequence=9 parents=[{},{}] payload=",
        id(4),
        id(1),
        id(11),
        id(2),
        id(3)
    );
    match shown(HistoryPayload::Text {
        stored: StoredProjection::Opened {
            body: "hi".to_owned(),
        },
    })
    .history_line()
    {
        Ok(line) => {
            assert_eq!(line.text, format!("{heading}ratchet-text"));
            assert_eq!(line.body, Some("hi".to_owned()));
        }
        Err(error) => panic!("{error:?}"),
    }
    match shown(HistoryPayload::Acknowledgement {
        acknowledged_event_id: event(1),
    })
    .history_line()
    {
        Ok(line) => {
            assert_eq!(
                line.text,
                format!("{heading}acknowledgement acknowledged_event_id={}", id(1))
            );
            assert_eq!(line.body, None);
        }
        Err(error) => panic!("{error:?}"),
    }
    let refused = |stored: StoredProjection| {
        match shown(HistoryPayload::Text { stored }).history_line() {
            Ok(_) => panic!("unexpectedly shown"),
            Err(error) => error,
        }
    };
    assert_eq!(refused(StoredProjection::Missing), HistoryError::TextMissing);
    assert_eq!(
        refused(StoredProjection::CannotBeOpened),
        HistoryError::TextCannotBeOpened
    );
    assert_eq!(
        refused(StoredProjection::CannotBeRead),
        HistoryError::TextCannotBeRead
    );
}
