use kilogram_cli::history_rewrap::{
    build_history_rewrap_bundle, export_history_rewrap, handle_history_rewrap_request,
    prepare_history_rewrap_approval, serve_page, text_inventory, ApprovalFlags,
    HistoryRecoverySessionProgress, HistoryRewrapApproval, HistoryRewrapServeOutcome, PageAnswer,
    RewrapDecision, RewrapError, RewrapRejection, RewrapRequest, RewrapSession, ServeEvent,
    ServePhase,
};
use kilogram_cli::identity::{
    AccountDeviceList, AuthoritySnapshot, DeviceCertificate, ProtocolLimits,
};
use kilogram_cli::ids::{AccountId, ConversationId, DeviceId, Digest, Id32};
use kilogram_cli::reconciliation::{
    classify_history_rewrap_agreement, ranges_cover_inventory, ClaimKey,
};
use kilogram_cli::scheduler::MAX_HISTORY_RECOVERY_PAGES_PER_SESSION;

const MAX_HISTORY_REWRAP_ENTRIES: usize = 256;
const LIMITS: ProtocolLimits = ProtocolLimits {
    max_inventory_event_ids: 4_096,
    max_history_rewrap_entries: MAX_HISTORY_REWRAP_ENTRIES as u64,
};

fn raw(low: u128) -> Id32 {
    Id32 { high: 0, low }
}

fn account(low: u128) -> AccountId {
    AccountId { raw: raw(low) }
}

fn device(low: u128) -> DeviceId {
    DeviceId { raw: raw(low) }
}

fn conversation(low: u128) -> ConversationId {
    ConversationId { raw: raw(low) }
}

fn certificate(low: u128) -> DeviceCertificate {
    DeviceCertificate {
        account_id: account(1),
        device_id: device(low),
        digest: Digest { raw: raw(low) },
    }
}

fn device_list() -> AccountDeviceList {
    AccountDeviceList {
        authority: AuthoritySnapshot {
            account_id: account(1),
            revision: 3,
            digest: Digest { raw: raw(90) },
        },
        certificates: vec![certificate(11), certificate(12)],
        digest: Digest { raw: raw(91) },
    }
}

const SAS: &str = "123-456-789-012";

fn flags(sas: &str, count: usize) -> ApprovalFlags {
    ApprovalFlags {
        conversation_id: Some(conversation(7)),
        recipient_device_id: Some(device(12)),
        approved_sas: Some(sas.to_owned()),
        range_start: 4,
        count,
    }
}

fn approve(
    flags: &ApprovalFlags,
    requester: AccountId,
) -> Result<Option<HistoryRewrapApproval>, RewrapError> {
    prepare_history_rewrap_approval(
        flags,
        &device_list(),
        certificate(11),
        requester,
        &Some(SAS.to_owned()),
        LIMITS,
    )
}

fn approved(count: usize) -> HistoryRewrapApproval {
    match approve(&flags(SAS, count), account(1)) {
        Ok(Some(approval)) => approval,
        Ok(None) => panic!("complete history-rewrap approval was ignored"),
        Err(error) => panic!("{error:?}"),
    }
}

#[test]
fn history_rewrap_source_consent_requires_exact_sas_and_same_account() {
    let approval = approved(8);
    assert_eq!(approval.sas, SAS);
    assert_eq!(approval.range_start, 4);
    assert_eq!(approval.count, 8);
    let paginated_approval = approved(MAX_HISTORY_REWRAP_ENTRIES * 4);
    assert_eq!(paginated_approval.count, MAX_HISTORY_REWRAP_ENTRIES * 4);
    assert!(paginated_approval.contains_range(4, MAX_HISTORY_REWRAP_ENTRIES));
    assert!(paginated_approval.contains_range(260, MAX_HISTORY_REWRAP_ENTRIES));
    assert!(!paginated_approval.contains_range(3, 1));
    assert!(!paginated_approval.contains_range(1027, 2));
    assert!(approve(&flags("000-000-000-000", 8), account(1)).is_err());
    assert!(approve(&flags(SAS, 8), account(2)).is_err());
}

#[test]
fn approval_flags_are_checked_in_order() {
    let none = ApprovalFlags {
        conversation_id: None,
        recipient_device_id: None,
        approved_sas: None,
        range_start: 0,
        count: 0,
    };
    assert!(matches!(approve(&none, account(1)), Ok(None)));
    let error = |flags: &ApprovalFlags| match approve(flags, account(1)) {
        Ok(_) => panic!("unexpectedly approved"),
        Err(error) => error,
    };
    let complete = || flags(SAS, 8);
    assert_eq!(
        error(&ApprovalFlags {
            conversation_id: None,
            ..complete()
        }),
        RewrapError::ConversationMissing
    );
    assert_eq!(
        error(&ApprovalFlags {
            recipient_device_id: None,
            ..complete()
        }),
        RewrapError::RecipientMissing
    );
    assert_eq!(
        error(&ApprovalFlags {
            approved_sas: None,
            ..complete()
        }),
        RewrapError::SasMissing
    );
    assert_eq!(error(&flags(SAS, 0)), RewrapError::EmptyCount);
    assert_eq!(error(&flags(SAS, usize::MAX)), RewrapError::RangeOverflow);
    assert_eq!(error(&flags(SAS, 4_093)), RewrapError::RangeBeyondInventory);
    assert_eq!(
        error(&ApprovalFlags {
            recipient_device_id: Some(device(13)),
            ..complete()
        }),
        RewrapError::RecipientAbsent
    );
    assert_eq!(
        error(&flags("000-000-000-000", 8)),
        RewrapError::SasMismatch
    );
    assert!(approve(&flags(" 123-456-789-012\n", 8), account(1)).is_ok());
}

#[test]
fn history_recovery_session_requires_contiguous_pages_and_stops_at_bound() {
    let mut progress = HistoryRecoverySessionProgress::default();
    assert!(progress.accepts(17));
    progress.record_page(19, false);
    assert_eq!(progress.pages_served, 1);
    assert!(progress.accepts(19));
    assert!(!progress.accepts(18));
    assert!(progress.can_request_next());

    for next in 20..=(MAX_HISTORY_RECOVERY_PAGES_PER_SESSION as u64 + 18) {
        progress.record_page(next, false);
    }
    assert_eq!(
        progress.pages_served,
        MAX_HISTORY_RECOVERY_PAGES_PER_SESSION
    );
    assert!(!progress.can_request_next());

    let mut completed = HistoryRecoverySessionProgress::default();
    completed.record_page(1, true);
    assert!(!completed.can_request_next());
}

#[test]
fn history_rewrap_reconciliation_distinguishes_coverage_and_source_claims() {
    assert!(ranges_cover_inventory(&[(0, 2), (2, 5)], 5));
    assert!(ranges_cover_inventory(&[(0, 3), (2, 5)], 5));
    assert!(!ranges_cover_inventory(&[(0, 2), (3, 5)], 5));
    assert!(!ranges_cover_inventory(&[], 5));

    let claim = |source: u128, count: u64, byte: u8| ClaimKey {
        source: device(source),
        count,
        digest: Digest {
            raw: Id32::from_bytes(&[byte; 32]),
        },
    };
    assert_eq!(
        classify_history_rewrap_agreement(&[claim(1, 5, 7)], 0),
        "single-source"
    );
    assert_eq!(
        classify_history_rewrap_agreement(&[claim(1, 5, 7), claim(2, 5, 7)], 0),
        "agreed"
    );
    assert_eq!(
        classify_history_rewrap_agreement(&[claim(1, 5, 7), claim(2, 6, 8)], 0),
        "divergent"
    );
    assert_eq!(
        classify_history_rewrap_agreement(&[claim(1, 5, 7)], 1),
        "divergent"
    );
    assert_eq!(classify_history_rewrap_agreement(&[], 0), "incomplete");
}

#[test]
fn session_serves_contiguous_pages_and_rejects_others() {
    let mut session = RewrapSession::start();
    session.serve_history_rewrap_session(ServeEvent::PageRequested { range_start: 4 });
    assert_eq!(session.phase, ServePhase::Serving { range_start: 4 });
    session.serve_history_rewrap_session(ServeEvent::Answered {
        outcome: HistoryRewrapServeOutcome::Transferred {
            next_range_start: 8,
            recovery_complete: false,
        },
    });
    assert_eq!(session.phase, ServePhase::Awaiting);
    session.serve_history_rewrap_session(ServeEvent::PageRequested { range_start: 9 });
    assert_eq!(session.phase, ServePhase::Rejecting);
    session.serve_history_rewrap_session(ServeEvent::RejectionSent);
    assert_eq!(session.phase, ServePhase::Done);
    assert_eq!(session.progress.pages_served, 1);
}

fn request(range_start: u64) -> RewrapRequest {
    RewrapRequest {
        conversation_id: conversation(7),
        recipient_device_id: device(12),
        range_start,
        max_event_count: 4,
        verified_for_session: true,
    }
}

#[test]
fn page_requests_are_served_only_as_approved() {
    let approval = approved(8);
    let decide = |approval: Option<&HistoryRewrapApproval>, request: RewrapRequest| {
        handle_history_rewrap_request(
            approval,
            request,
            account(1),
            device(12),
            certificate(11),
            &device_list(),
        )
    };
    assert_eq!(
        decide(Some(&approval), request(4)),
        RewrapDecision::Serve {
            range_start: 4,
            count: 4
        }
    );
    assert_eq!(
        decide(None, request(4)),
        RewrapDecision::Reject {
            reason: RewrapRejection::NotApproved
        }
    );
    assert_eq!(
        decide(Some(&approval), request(9)),
        RewrapDecision::Reject {
            reason: RewrapRejection::ApprovalMismatch
        }
    );
    assert_eq!(
        serve_page(&approval, 8, 20, 10, 100),
        Ok(PageAnswer::Send {
            outcome: HistoryRewrapServeOutcome::Transferred {
                next_range_start: 8,
                recovery_complete: false
            }
        })
    );
    assert_eq!(
        serve_page(&approval, 12, 20, 10, 100),
        Ok(PageAnswer::Send {
            outcome: HistoryRewrapServeOutcome::Transferred {
                next_range_start: 12,
                recovery_complete: true
            }
        })
    );
    assert_eq!(
        serve_page(&approval, 8, 20, 101, 100),
        Ok(PageAnswer::Reject {
            reason: RewrapRejection::TransferTooLarge
        })
    );
}

#[test]
fn bundles_carry_a_part_of_the_text_inventory() {
    assert_eq!(text_inventory(&[true, false, true]), vec![0, 2]);
    assert_eq!(build_history_rewrap_bundle(10, 4, 4), Ok((4, 8)));
    assert_eq!(build_history_rewrap_bundle(10, 8, 4), Ok((8, 10)));
    assert_eq!(
        build_history_rewrap_bundle(10, 10, 1),
        Err(RewrapError::StartOutsideInventory)
    );
    assert_eq!(
        build_history_rewrap_bundle(10, 1, usize::MAX),
        Err(RewrapError::RangeOverflow)
    );
    let check = |count: usize, verified: bool, recipient: u128, member: bool| {
        export_history_rewrap(
            count,
            &device_list(),
            verified,
            certificate(11),
            device(recipient),
            member,
            LIMITS,
        )
    };
    assert_eq!(check(4, true, 12, true), Ok(()));
    assert_eq!(check(0, true, 12, true), Err(RewrapError::EmptyCount));
    assert_eq!(check(257, true, 12, true), Err(RewrapError::CountTooLarge));
    assert_eq!(
        check(4, false, 12, true),
        Err(RewrapError::DeviceListUnverified)
    );
    assert_eq!(check(4, true, 13, true), Err(RewrapError::RecipientAbsent));
    assert_eq!(check(4, true, 12, false), Err(RewrapError::NotAMember));
}
