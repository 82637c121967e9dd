use kilogram_cli::client::{
    relay_wait_needed, timeout_message, wait_for_relay, ClientError, ClientEvent, ClientPhase,
    ClientSession, PartyChecks, RelayStatus,
};
use kilogram_cli::command::CommandKind;
use kilogram_cli::delivery::DeliveryError;
use kilogram_cli::history_rewrap::ApprovalFlags;
use kilogram_cli::identity::{
    AccountDeviceList, AuthoritySnapshot, DeviceCertificate, ProtocolLimits, RoutePolicy,
};
use kilogram_cli::ids::{
    AccountId, ConversationId, DeviceId, Digest, EndpointId, Id32, RuntimeQueueId,
};
use kilogram_cli::listener::{
    accept_device_authorization, authorize_with_listener, conclude_authorization,
    handle_authorized_application_connection, listen_checks, recovery_link_options,
    AuthorizationReply, AuthorizationRequest, AuthorizationStep, IncomingConnections,
    IncomingEvent, IncomingPhase, ListenError, ListenOptions, ListenPhase, Listener,
    RequestHandler, RequestKind,
};
use kilogram_cli::runtime::{
    check_session_identity, handle_runtime_application_connection, handle_runtime_ipc_work,
    path_starts_with, prepare_runtime_listener, resolve_runtime_ipc_descriptor_path,
    runtime_ipc_outbox_status, runtime_ipc_ping, runtime_ipc_queue_message, AttemptEvent,
    AttemptPhase, DeliveryAttempt, IpcReply, IpcWork, RuntimeDeliveryAttempt, RuntimeError,
    RuntimeEvent, RuntimeLoop, RuntimeOptions, RuntimePhase, SessionEnd, SessionSteps, StopReason,
};
use kilogram_cli::sync::{
    ClientRoundPhase, RoundStats, ServerRoundPhase, SyncClientRun, SyncError, SyncOutcome,
    SyncReply, SyncRequest, SyncServerRun,
};
use kilogram_cli::ticket::{
    ConnectionTicket, ConnectionTicketContent, PrekeyDirectory, TicketError, TICKET_VERSION,
};
use kilogram_cli::time::TimeSpan;
use kilogram_cli::transaction::{
    combine_operation_and_mirror, parse_number, CombinedOutcome, GuardPhase, GuardStep,
    GuardedOperation, SequenceError, SequenceRecord, StepResult, TransactionOutcome,
    TransactionPhase, TransactionRun, TransactionSequenceSource, TransactionWorkspaces,
    WorkspaceSource,
};

const LIMITS: ProtocolLimits = ProtocolLimits {
    max_inventory_event_ids: 4_096,
    max_history_rewrap_entries: 256,
};

fn raw(low: u128) -> Id32 {
    Id32 { high: 3, low }
}

fn account(low: u128) -> AccountId {
    AccountId { raw: raw(low) }
}

fn device(low: u128) -> DeviceId {
    DeviceId { raw: raw(low) }
}

fn digest(low: u128) -> Digest {
    Digest { raw: raw(low) }
}

fn conversation(low: u128) -> ConversationId {
    ConversationId { raw: raw(low) }
}

fn certificate(low: u128) -> DeviceCertificate {
    DeviceCertificate {
        account_id: account(1),
        device_id: device(low),
        digest: digest(low),
    }
}

fn device_list() -> AccountDeviceList {
    AccountDeviceList {
        authority: AuthoritySnapshot {
            account_id: account(1),
            revision: 2,
            digest: digest(90),
        },
        certificates: vec![certificate(11), certificate(12)],
        digest: digest(91),
    }
}

fn ticket(route_policy: RoutePolicy) -> ConnectionTicket {
    ConnectionTicket {
        content: ConnectionTicketContent {
            version: TICKET_VERSION,
            endpoint: EndpointId { raw: raw(50) },
            listener_certificate: certificate(11),
            listener_directory: PrekeyDirectory {
                account_id: account(1),
                device_list: device_list(),
                pool_devices: vec![device(11)],
                verified_now: true,
            },
            allowed_requester_account_id: account(2),
            route_policy,
        },
        certificate_verified: true,
        signature_verified: true,
    }
}

fn checked(route_policy: RoutePolicy, checks: PartyChecks, members: &[AccountId]) -> ClientSession {
    let ticket = ticket(route_policy);
    let mut session = ClientSession::start(&ticket, true);
    assert_eq!(session.phase, ClientPhase::ObservingDirectory);
    session.proceed(ClientEvent::DirectoryObserved);
    session.proceed(ClientEvent::AuthorityPinned);
    assert_eq!(session.phase, ClientPhase::CheckingParties);
    session.check_parties(&ticket, checks, members, account(2), account(1));
    session
}

#[test]
fn client_connects_only_after_its_tests() {
    let both = PartyChecks {
        listener_authorized: true,
        requester_authorized: true,
    };
    let members = [account(1), account(2)];
    let mut session = checked(RoutePolicy::Auto, both, &members);
    assert_eq!(session.phase, ClientPhase::Connecting);
    session.proceed(ClientEvent::Authorized);
    assert_eq!(session.phase, ClientPhase::Ready);

    let mut relayed = checked(RoutePolicy::RelayOnly, both, &members);
    assert_eq!(relayed.phase, ClientPhase::WaitingForRelay);
    relayed.proceed(ClientEvent::RelayWaited { online: false });
    assert_eq!(
        relayed.phase,
        ClientPhase::Failed {
            error: ClientError::RelayOffline
        }
    );
    let stranger = checked(RoutePolicy::Auto, both, &[account(1)]);
    assert_eq!(
        stranger.phase,
        ClientPhase::Failed {
            error: ClientError::Parties {
                fault: DeliveryError::LocalNotAMember
            }
        }
    );
    let revoked = checked(
        RoutePolicy::Auto,
        PartyChecks {
            listener_authorized: true,
            requester_authorized: false,
        },
        &members,
    );
    assert_eq!(
        revoked.phase,
        ClientPhase::Failed {
            error: ClientError::Parties {
                fault: DeliveryError::RequesterUnauthorized
            }
        }
    );
    let unlisted = ClientSession::start(&ticket(RoutePolicy::Auto), false);
    assert_eq!(
        unlisted.phase,
        ClientPhase::Failed {
            error: ClientError::Ticket {
                error: TicketError::ListenerOfAnotherAccount
            }
        }
    );
    let mut hasty = ClientSession::start(&ticket(RoutePolicy::Auto), true);
    hasty.proceed(ClientEvent::Authorized);
    assert_eq!(hasty.phase, ClientPhase::Broken);
}

#[test]
fn relay_waits_follow_the_route_policy() {
    assert_eq!(relay_wait_needed(RoutePolicy::Auto, 0), Ok(false));
    assert_eq!(relay_wait_needed(RoutePolicy::Auto, 5), Ok(true));
    assert_eq!(
        relay_wait_needed(RoutePolicy::RelayOnly, 0),
        Err(ClientError::RelayWaitMissing)
    );
    assert_eq!(
        wait_for_relay(RoutePolicy::DirectOnly, 0, false),
        Ok(RelayStatus::Skipped)
    );
    assert_eq!(
        wait_for_relay(RoutePolicy::Auto, 5, true),
        Ok(RelayStatus::Online)
    );
    assert_eq!(
        wait_for_relay(RoutePolicy::Auto, 5, false),
        Ok(RelayStatus::TimedOut)
    );
    assert_eq!(
        wait_for_relay(RoutePolicy::RelayOnly, 5, false),
        Err(ClientError::RelayOffline)
    );
    assert_eq!(
        timeout_message("connect", TimeSpan::from_millis(12_500)),
        "connect timed out after 12.5s"
    );
    for (milliseconds, told) in [(0, "0.0"), (49, "0.0"), (51, "0.1"), (999, "1.0"), (15_000, "15.0")] {
        let span = TimeSpan::from_millis(milliseconds);
        assert_eq!(
            timeout_message("wait", span),
            format!("wait timed out after {told}s")
        );
        assert_eq!(
            told,
            format!("{:.1}", std::time::Duration::from_millis(milliseconds).as_secs_f64())
        );
    }
}

fn stats(sent: u32, received: u32, more_available: bool) -> RoundStats {
    RoundStats {
        sent_events: sent,
        received_events: received,
        more_available,
    }
}

fn client(rounds: usize) -> SyncClientRun {
    match SyncClientRun::start(conversation(70), rounds, 4) {
        Ok(run) => run,
        Err(error) => panic!("{error:?}"),
    }
}

fn failed(error: SyncError) -> ClientRoundPhase {
    ClientRoundPhase::Done {
        outcome: SyncOutcome::Failed { error },
    }
}

#[test]
fn client_synchronizes_round_by_round_and_pauses_at_its_limit() {
    assert_eq!(
        SyncClientRun::start(conversation(70), 0, 4),
        Err(SyncError::RoundsOutOfRange)
    );
    assert_eq!(
        SyncClientRun::start(conversation(70), 5, 4),
        Err(SyncError::RoundsOutOfRange)
    );
    let mut run = client(2);
    run.sync(SyncReply::Diff);
    run.sync(SyncReply::Complete {
        stats: stats(3, 4, true),
    });
    assert_eq!(run.round, 2);
    run.sync(SyncReply::Diff);
    run.sync(SyncReply::Complete {
        stats: stats(1, 2, true),
    });
    assert_eq!(run.phase, ClientRoundPhase::Pausing);
    run.sync(SyncReply::Paused {
        conversation_id: conversation(70),
    });
    assert_eq!(
        run.phase,
        ClientRoundPhase::Done {
            outcome: SyncOutcome::Paused
        }
    );
    assert_eq!((run.sent_events, run.received_events), (4, 6));

    let mut finished = client(1);
    finished.sync(SyncReply::Diff);
    finished.sync(SyncReply::Complete {
        stats: stats(0, 0, false),
    });
    assert_eq!(
        finished.phase,
        ClientRoundPhase::Done {
            outcome: SyncOutcome::Synchronized
        }
    );
}

#[test]
fn client_refuses_answers_out_of_turn() {
    let answer = |replies: &[SyncReply]| {
        let mut run = client(1);
        for reply in replies {
            run.sync(*reply);
        }
        run.phase
    };
    let here = conversation(70);
    let elsewhere = conversation(71);
    let more = SyncReply::Complete {
        stats: stats(0, 0, true),
    };
    assert_eq!(
        answer(&[SyncReply::Rejected {
            conversation_id: here
        }]),
        failed(SyncError::RejectedByListener)
    );
    assert_eq!(
        answer(&[SyncReply::Rejected {
            conversation_id: elsewhere
        }]),
        failed(SyncError::RejectionOfAnotherConversation)
    );
    assert_eq!(answer(&[SyncReply::Other]), failed(SyncError::ExpectedDiff));
    assert_eq!(
        answer(&[SyncReply::Diff, SyncReply::Diff]),
        failed(SyncError::ExpectedCompletion)
    );
    assert_eq!(
        answer(&[SyncReply::Diff, more, SyncReply::Other]),
        failed(SyncError::ExpectedPaused)
    );
    assert_eq!(
        answer(&[
            SyncReply::Diff,
            more,
            SyncReply::Paused {
                conversation_id: elsewhere
            }
        ]),
        failed(SyncError::PauseOfAnotherConversation)
    );
    assert_eq!(
        answer(&[SyncReply::OutsideFailure]),
        failed(SyncError::OutsideFailure)
    );
}

#[test]
fn listener_answers_rounds_up_to_its_limit() {
    let judged = SyncRequest::InventoryJudged { accepted: true };
    let more = SyncRequest::BatchStored {
        stats: stats(5, 6, true),
    };
    let next = SyncRequest::InventoryCame {
        conversation_id: conversation(70),
    };
    let run = |events: &[SyncRequest]| {
        let mut run = SyncServerRun::start(conversation(70), 2);
        for event in events {
            run.handle_sync_request(*event);
        }
        run
    };
    let limited = run(&[judged, more, next, judged, more, next]);
    assert_eq!(
        limited.phase,
        ServerRoundPhase::Done {
            outcome: SyncOutcome::Failed {
                error: SyncError::RoundLimit
            }
        }
    );
    assert_eq!(limited.rounds_completed, 2);
    assert_eq!((limited.sent_events, limited.received_events), (10, 12));
    let paused = run(&[
        judged,
        more,
        SyncRequest::PauseCame {
            conversation_id: conversation(70),
        },
    ]);
    assert_eq!(
        paused.phase,
        ServerRoundPhase::Done {
            outcome: SyncOutcome::Paused
        }
    );
    assert_eq!(
        run(&[SyncRequest::InventoryJudged { accepted: false }]).phase,
        ServerRoundPhase::Done {
            outcome: SyncOutcome::Rejected
        }
    );
    assert_eq!(
        run(&[judged, SyncRequest::OtherCame]).phase,
        ServerRoundPhase::Done {
            outcome: SyncOutcome::Failed {
                error: SyncError::ExpectedBatch
            }
        }
    );
    assert_eq!(
        run(&[judged, more, SyncRequest::OtherCame]).phase,
        ServerRoundPhase::Done {
            outcome: SyncOutcome::Failed {
                error: SyncError::ExpectedInventory
            }
        }
    );
}

fn options() -> RuntimeOptions {
    RuntimeOptions {
        max_sessions: 2,
        idle_seconds: 60,
        poll_milliseconds: 500,
        retry_base_seconds: 2,
        retry_max_seconds: 300,
        auto_sync_seconds: 30,
        max_outbound_actions: 2,
    }
}

#[test]
fn runtime_options_are_checked() {
    assert_eq!(options().validate(), Ok(()));
    let refused = |options: RuntimeOptions, error: RuntimeError| {
        assert_eq!(options.validate(), Err(error));
        assert_eq!(RuntimeLoop::start(options), Err(error));
    };
    refused(
        RuntimeOptions {
            max_sessions: 65_537,
            ..options()
        },
        RuntimeError::SessionsOutOfRange,
    );
    refused(
        RuntimeOptions {
            idle_seconds: 86_401,
            ..options()
        },
        RuntimeError::IdleOutOfRange,
    );
    refused(
        RuntimeOptions {
            poll_milliseconds: 9,
            ..options()
        },
        RuntimeError::PollOutOfRange,
    );
    refused(
        RuntimeOptions {
            retry_base_seconds: 0,
            ..options()
        },
        RuntimeError::RetryBaseOutOfRange,
    );
    refused(
        RuntimeOptions {
            retry_max_seconds: 1,
            ..options()
        },
        RuntimeError::RetryMaxOutOfRange,
    );
    refused(
        RuntimeOptions {
            auto_sync_seconds: 3_601,
            ..options()
        },
        RuntimeError::AutoSyncOutOfRange,
    );
}

fn runtime() -> RuntimeLoop {
    match RuntimeLoop::start(options()) {
        Ok(runtime) => runtime,
        Err(error) => panic!("{error:?}"),
    }
}

#[test]
fn runtime_stops_at_its_limits() {
    let now = TimeSpan::from_secs(7);
    let mut sessions = runtime();
    sessions.runtime(RuntimeEvent::Connection { now });
    assert_eq!(sessions.phase, RuntimePhase::Serving);
    assert_eq!(sessions.idle_deadline(), Some(TimeSpan::from_secs(67)));
    sessions.runtime(RuntimeEvent::SessionEnded);
    assert_eq!(sessions.phase, RuntimePhase::Waiting);
    sessions.runtime(RuntimeEvent::Connection { now });
    sessions.runtime(RuntimeEvent::SessionEnded);
    assert_eq!(
        sessions.phase,
        RuntimePhase::Stopped {
            reason: StopReason::SessionLimit
        }
    );
    sessions.runtime(RuntimeEvent::Connection { now });
    assert_eq!(sessions.accepted_sessions, 2);

    let mut actions = runtime();
    actions.runtime(RuntimeEvent::Tick);
    actions.runtime(RuntimeEvent::DeliveryAttempted {
        attempt: RuntimeDeliveryAttempt::Delivered,
        now,
    });
    actions.runtime(RuntimeEvent::Tick);
    actions.runtime(RuntimeEvent::DeliveryAttempted {
        attempt: RuntimeDeliveryAttempt::NoWork,
        now,
    });
    assert_eq!(actions.phase, RuntimePhase::Syncing);
    actions.runtime(RuntimeEvent::SyncAttempted {
        attempted: true,
        now,
    });
    assert_eq!(
        actions.phase,
        RuntimePhase::Stopped {
            reason: StopReason::OutboundActionLimit
        }
    );
    assert_eq!(StopReason::OutboundActionLimit.as_str(), "outbound-action-limit");
    assert_eq!(StopReason::SessionLimit.as_str(), "session-limit");
    assert_eq!(StopReason::IdleTimeout.as_str(), "idle-timeout");
    assert_eq!(StopReason::CtrlC.as_str(), "ctrl-c");
}

#[test]
fn runtime_ends_on_idleness_signals_and_local_failures() {
    let after = |events: &[RuntimeEvent]| {
        let mut runtime = runtime();
        for event in events {
            runtime.runtime(*event);
        }
        runtime.phase
    };
    let now = TimeSpan::from_secs(1);
    assert_eq!(
        after(&[RuntimeEvent::Ipc { now }, RuntimeEvent::IdleTimeout]),
        RuntimePhase::Stopped {
            reason: StopReason::IdleTimeout
        }
    );
    assert_eq!(
        after(&[RuntimeEvent::Shutdown]),
        RuntimePhase::Stopped {
            reason: StopReason::CtrlC
        }
    );
    assert_eq!(
        after(&[RuntimeEvent::IpcClosed]),
        RuntimePhase::Failed {
            error: RuntimeError::IpcAcceptorStopped
        }
    );
    assert_eq!(
        after(&[
            RuntimeEvent::Connection { now },
            RuntimeEvent::LocalSessionFailure
        ]),
        RuntimePhase::Failed {
            error: RuntimeError::LocalSessionFailure
        }
    );
    assert_eq!(
        after(&[RuntimeEvent::OutsideFailure]),
        RuntimePhase::Failed {
            error: RuntimeError::OutsideFailure
        }
    );
}

#[test]
fn delivery_attempts_record_what_happened() {
    let queue_id = RuntimeQueueId { raw: raw(80) };
    let after = |events: &[AttemptEvent]| {
        let mut attempt = DeliveryAttempt::start();
        for event in events {
            attempt.attempt_next_runtime_delivery(*event);
        }
        attempt.phase
    };
    let done = |attempt: RuntimeDeliveryAttempt| AttemptPhase::Done { attempt };
    let selected = AttemptEvent::Selected {
        queue_id: Some(queue_id),
    };
    let prepared = AttemptEvent::Prepared { succeeded: true };
    assert_eq!(
        after(&[AttemptEvent::Selected { queue_id: None }]),
        done(RuntimeDeliveryAttempt::NoWork)
    );
    assert_eq!(
        after(&[
            selected,
            prepared,
            AttemptEvent::Sent { acknowledged: true }
        ]),
        AttemptPhase::RecordingDelivery { queue_id }
    );
    assert_eq!(
        after(&[
            selected,
            prepared,
            AttemptEvent::Sent { acknowledged: true },
            AttemptEvent::Recorded
        ]),
        done(RuntimeDeliveryAttempt::Delivered)
    );
    assert_eq!(
        after(&[
            selected,
            prepared,
            AttemptEvent::Sent {
                acknowledged: false
            },
            AttemptEvent::Recorded
        ]),
        done(RuntimeDeliveryAttempt::RetryScheduled)
    );
    assert_eq!(
        after(&[selected, AttemptEvent::Prepared { succeeded: false }]),
        AttemptPhase::SchedulingRetry { queue_id }
    );
    assert_eq!(
        after(&[AttemptEvent::LockBusy]),
        AttemptPhase::Failed {
            error: RuntimeError::LockStayedBusy
        }
    );
    for bad in [AttemptEvent::Failure, AttemptEvent::LockBusy] {
        assert_eq!(
            after(&[selected, bad]),
            AttemptPhase::SchedulingRetry { queue_id }
        );
        assert_eq!(
            after(&[selected, prepared, bad, AttemptEvent::Recorded]),
            done(RuntimeDeliveryAttempt::RetryScheduled)
        );
    }
    assert_eq!(
        after(&[
            selected,
            prepared,
            AttemptEvent::Sent { acknowledged: true },
            AttemptEvent::Failure
        ]),
        AttemptPhase::Failed {
            error: RuntimeError::OutsideFailure
        }
    );
}

#[test]
fn accepted_sessions_are_judged_by_their_steps() {
    let steps = SessionSteps {
        lock_acquired: true,
        guard_prepared: true,
        state_prepared: true,
        operation_succeeded: true,
        mirror_finished: true,
    };
    let judge = handle_runtime_application_connection;
    assert_eq!(judge(steps), Ok(SessionEnd::Completed));
    assert_eq!(
        judge(SessionSteps {
            operation_succeeded: false,
            ..steps
        }),
        Ok(SessionEnd::OperationFailed)
    );
    assert_eq!(
        judge(SessionSteps {
            lock_acquired: false,
            ..steps
        }),
        Ok(SessionEnd::LockBusy)
    );
    assert_eq!(
        judge(SessionSteps {
            guard_prepared: false,
            ..steps
        }),
        Err(RuntimeError::VaultGuardFailed)
    );
    assert_eq!(
        judge(SessionSteps {
            state_prepared: false,
            ..steps
        }),
        Err(RuntimeError::PreparationFailed {
            mirror_failed: false
        })
    );
    assert_eq!(
        judge(SessionSteps {
            mirror_finished: false,
            ..steps
        }),
        Err(RuntimeError::MirrorFailed)
    );
    assert_eq!(
        check_session_identity(device(11), &certificate(11), &certificate(11)),
        Ok(())
    );
    assert_eq!(
        check_session_identity(device(12), &certificate(11), &certificate(11)),
        Err(RuntimeError::DeviceChanged)
    );
    assert_eq!(
        check_session_identity(device(11), &certificate(12), &certificate(11)),
        Err(RuntimeError::CertificateChanged)
    );
    assert_eq!(
        prepare_runtime_listener(&device_list(), &certificate(11)),
        Ok(())
    );
    assert_eq!(
        prepare_runtime_listener(&device_list(), &certificate(13)),
        Err(RuntimeError::CertificateNotListed)
    );
}

fn path(text: &str) -> Vec<String> {
    text.split('/').map(str::to_owned).collect()
}

#[test]
fn control_channel_answers_are_bound_to_their_request() {
    let queue_id = RuntimeQueueId { raw: raw(80) };
    let pong = handle_runtime_ipc_work(IpcWork::Ping, account(1), device(11));
    assert_eq!(runtime_ipc_ping(&pong, account(1), device(11)), Ok(()));
    assert_eq!(
        runtime_ipc_ping(&pong, account(1), device(12)),
        Err(RuntimeError::PingIdentityMismatch)
    );
    let stored = handle_runtime_ipc_work(
        IpcWork::QueueMessage {
            queue_id,
            inserted: Some(true),
        },
        account(1),
        device(11),
    );
    assert_eq!(
        runtime_ipc_queue_message(&stored, &queue_id.raw.to_text()),
        Ok(true)
    );
    assert_eq!(
        runtime_ipc_queue_message(&stored, "00"),
        Err(RuntimeError::DifferentQueueId)
    );
    assert_eq!(
        runtime_ipc_outbox_status(&stored),
        Err(RuntimeError::UnexpectedResponse)
    );
    let status = handle_runtime_ipc_work(
        IpcWork::OutboxStatus { collected: true },
        account(1),
        device(11),
    );
    assert_eq!(runtime_ipc_outbox_status(&status), Ok(()));
    assert_eq!(
        runtime_ipc_ping(&IpcReply::Error, account(1), device(11)),
        Err(RuntimeError::RejectedByRuntime)
    );
    assert!(path_starts_with(&path("state/ipc"), &path("state")));
    assert!(!path_starts_with(&path("stateful"), &path("state")));
    assert_eq!(
        resolve_runtime_ipc_descriptor_path(true, &path("run/ipc"), &path("state")),
        Ok(())
    );
    assert_eq!(
        resolve_runtime_ipc_descriptor_path(true, &path("state/ipc"), &path("state")),
        Err(RuntimeError::DescriptorInsideState)
    );
    assert_eq!(
        resolve_runtime_ipc_descriptor_path(false, &path("run"), &path("state")),
        Err(RuntimeError::DescriptorWithoutName)
    );
}

fn listen_options(ticket: Option<&str>, link: Option<&str>, qr: Option<&str>) -> ListenOptions {
    ListenOptions {
        ticket_file: ticket.map(path),
        link_file: link.map(path),
        qr_file: qr.map(path),
        discovery_publish: false,
        page_size: 64,
        valid_for_seconds: 600,
    }
}

fn approval_flags() -> ApprovalFlags {
    ApprovalFlags {
        conversation_id: Some(conversation(70)),
        recipient_device_id: Some(device(12)),
        approved_sas: Some("123".to_owned()),
        range_start: 0,
        count: 8,
    }
}

#[test]
fn listeners_publish_to_distinct_paths_what_was_approved() {
    assert_eq!(
        listen_options(Some("a"), Some("a"), None).check_output_paths(),
        Err(ListenError::TicketAndLinkPathsEqual)
    );
    assert_eq!(
        listen_options(Some("a"), Some("b"), Some("a")).check_output_paths(),
        Err(ListenError::TicketAndQrPathsEqual)
    );
    assert_eq!(
        listen_options(Some("a"), Some("b"), Some("b")).check_output_paths(),
        Err(ListenError::LinkAndQrPathsEqual)
    );
    assert_eq!(
        listen_options(Some("a"), Some("b"), Some("c")).check_output_paths(),
        Ok(())
    );
    let options = listen_options(None, Some("b"), None);
    let approve = |options: &ListenOptions, certificate: DeviceCertificate| {
        listen_checks(
            options,
            &approval_flags(),
            &device_list(),
            certificate,
            account(1),
            &Some("123".to_owned()),
            LIMITS,
        )
    };
    let approval = match approve(&options, certificate(11)) {
        Ok(approval) => approval,
        Err(error) => panic!("{error:?}"),
    };
    match recovery_link_options(&options, &approval, &ticket(RoutePolicy::Auto), 1_000, true, true)
    {
        Ok(Some(link)) => {
            assert_eq!(link.recipient_device_id, device(12));
            assert_eq!(link.conversation_id, conversation(70));
            assert_eq!(link.approved_event_count, 8);
            assert_eq!(link.endpoint, EndpointId { raw: raw(50) });
        }
        other => panic!("{other:?}"),
    }
    assert!(matches!(
        recovery_link_options(&options, &None, &ticket(RoutePolicy::Auto), 1_000, true, true),
        Err(ListenError::ApprovalMissing)
    ));
    assert!(matches!(
        recovery_link_options(
            &listen_options(None, None, None),
            &None,
            &ticket(RoutePolicy::Auto),
            1_000,
            true,
            true
        ),
        Ok(None)
    ));
    assert!(matches!(
        approve(&options, certificate(13)),
        Err(ListenError::CertificateNotListed)
    ));
    let mut wide = listen_options(None, Some("b"), None);
    wide.page_size = 257;
    assert!(matches!(
        approve(&wide, certificate(11)),
        Err(ListenError::PageSizeOutOfRange)
    ));
    let mut long = listen_options(None, Some("b"), None);
    long.valid_for_seconds = 3_601;
    assert!(matches!(
        approve(&long, certificate(11)),
        Err(ListenError::ValidityOutOfRange)
    ));
}

fn started(options: ListenOptions, flags: &ApprovalFlags) -> Listener {
    Listener::start(
        options,
        flags,
        &device_list(),
        certificate(11),
        account(1),
        &Some("123".to_owned()),
        LIMITS,
    )
}

fn run_to_publishing(listener: &mut Listener) {
    for _ in 0..5 {
        listener.listen_inner(Ok(()));
    }
}

#[test]
fn listener_takes_its_steps_in_order() {
    let options = || listen_options(Some("a"), Some("b"), Some("c"));
    let mut listener = started(options(), &approval_flags());
    assert!(listener.approval.is_some());
    let order = [
        ListenPhase::CapturingReads,
        ListenPhase::InstallingAuthority,
        ListenPhase::AssemblingDirectory,
        ListenPhase::Binding,
        ListenPhase::Issuing,
        ListenPhase::Publishing,
        ListenPhase::Accepting,
        ListenPhase::Serving,
        ListenPhase::Done,
    ];
    for phase in order {
        assert_eq!(listener.phase, phase);
        listener.listen_inner(Ok(()));
    }
    let mut refused = started(options(), &approval_flags());
    refused.listen_inner(Err(ListenError::OutsideFailure));
    refused.listen_inner(Ok(()));
    assert_eq!(
        refused.phase,
        ListenPhase::Failed {
            error: ListenError::OutsideFailure
        }
    );
}

#[test]
fn listener_publishes_nothing_to_equal_paths() {
    for (options, error) in [
        (
            listen_options(Some("a"), Some("a"), None),
            ListenError::TicketAndLinkPathsEqual,
        ),
        (
            listen_options(Some("a"), None, Some("a")),
            ListenError::TicketAndQrPathsEqual,
        ),
        (
            listen_options(None, Some("b"), Some("b")),
            ListenError::LinkAndQrPathsEqual,
        ),
    ] {
        let mut listener = started(options, &approval_flags());
        run_to_publishing(&mut listener);
        assert_eq!(listener.phase, ListenPhase::Failed { error });
        listener.listen_inner(Ok(()));
        assert_eq!(listener.phase, ListenPhase::Failed { error });
    }
}

#[test]
fn listener_starts_only_after_its_checks() {
    let mut wide = listen_options(None, Some("b"), None);
    wide.page_size = 257;
    let mut refused = started(wide, &approval_flags());
    let failed = ListenPhase::Failed {
        error: ListenError::PageSizeOutOfRange,
    };
    assert_eq!(refused.phase, failed);
    refused.listen_inner(Ok(()));
    assert_eq!(refused.phase, failed);

    let nothing_approved = ApprovalFlags {
        conversation_id: None,
        recipient_device_id: None,
        approved_sas: None,
        range_start: 0,
        count: 0,
    };
    let mut unapproved = started(listen_options(None, Some("b"), None), &nothing_approved);
    run_to_publishing(&mut unapproved);
    assert_eq!(
        unapproved.phase,
        ListenPhase::Failed {
            error: ListenError::ApprovalMissing
        }
    );
}

#[test]
fn first_requests_choose_their_handler() {
    let choose = handle_authorized_application_connection;
    assert_eq!(
        choose(RequestKind::DeliverEvent),
        Ok((RequestHandler::Delivery, true))
    );
    assert_eq!(
        choose(RequestKind::SyncInventory),
        Ok((RequestHandler::Sync, true))
    );
    assert_eq!(
        choose(RequestKind::HistoryRewrap),
        Ok((RequestHandler::HistoryRewrap, false))
    );
    assert_eq!(choose(RequestKind::SyncEvents), Err(ListenError::BatchFirst));
    assert_eq!(choose(RequestKind::SyncPause), Err(ListenError::PauseFirst));
    assert_eq!(
        choose(RequestKind::AuthorizeDevice),
        Err(ListenError::AuthorizationRepeated)
    );
}

fn authorization() -> AuthorizationRequest {
    AuthorizationRequest {
        account_id: account(1),
        device_id: device(11),
        session: digest(60),
        signature_verified: true,
        authority_account_id: account(1),
        authority_verified: true,
    }
}

#[test]
fn certified_device_is_accepted_before_the_application_exchange() {
    assert_eq!(
        accept_device_authorization(Some(authorization()), digest(60), account(1)),
        Ok(AuthorizationStep::PinAuthority)
    );
    let (reply, result) = conclude_authorization(&authorization(), digest(60), true, true);
    assert_eq!(result, Ok(()));
    assert_eq!(
        authorize_with_listener(reply, digest(60), &certificate(11)),
        Ok(())
    );
    assert_eq!(
        authorize_with_listener(reply, digest(61), &certificate(11)),
        Err(ListenError::AcceptanceMismatch)
    );
    assert_eq!(
        authorize_with_listener(AuthorizationReply::Other, digest(60), &certificate(11)),
        Err(ListenError::UnexpectedResponse)
    );
}

#[test]
fn revoked_devices_are_rejected_after_their_authority_is_pinned() {
    assert_eq!(
        accept_device_authorization(Some(authorization()), digest(60), account(1)),
        Ok(AuthorizationStep::PinAuthority)
    );
    let (reply, result) = conclude_authorization(&authorization(), digest(60), true, false);
    assert_eq!(reply, AuthorizationReply::Rejected);
    assert_eq!(result, Err(ListenError::DeviceNotAuthorized));
    assert_eq!(
        authorize_with_listener(reply, digest(60), &certificate(11)),
        Err(ListenError::RejectedByListener)
    );
    let (_, result) = conclude_authorization(&authorization(), digest(60), false, true);
    assert_eq!(result, Err(ListenError::AuthorityRolledBack));
    assert_eq!(
        accept_device_authorization(None, digest(60), account(1)),
        Err(ListenError::AuthorizationExpected)
    );
    assert_eq!(
        accept_device_authorization(Some(authorization()), digest(61), account(1)),
        Ok(AuthorizationStep::Reject {
            error: ListenError::AuthorizationOfAnotherSession
        })
    );
    assert_eq!(
        accept_device_authorization(Some(authorization()), digest(60), account(2)),
        Ok(AuthorizationStep::Reject {
            error: ListenError::AuthorityOfAnotherAccount
        })
    );
}

#[test]
fn commands_lock_and_mirror_what_they_change() {
    assert!(!CommandKind::PlatformContext.state_directory());
    assert!(CommandKind::Runtime.state_directory());
    assert!(!CommandKind::Runtime.uses_outer_state_lock());
    assert!(!CommandKind::Runtime.uses_state_vault_dual_write());
    assert!(CommandKind::StateVaultMigrate.uses_outer_state_lock());
    assert!(!CommandKind::StateVaultMigrate.uses_state_vault_dual_write());
    assert!(CommandKind::Connect.uses_outer_state_lock());
    assert!(CommandKind::Connect.uses_state_vault_dual_write());
}

fn guarded(results: &[StepResult]) -> GuardPhase {
    let mut guarded = GuardedOperation::start();
    for result in results {
        guarded.with_locked_state(*result);
    }
    guarded.phase
}

#[test]
fn operations_are_locked_and_mirrored() {
    let ok = StepResult::Succeeded;
    assert_eq!(guarded(&[StepResult::Failed]), GuardPhase::Refused);
    assert_eq!(
        guarded(&[ok, StepResult::NoVault]),
        GuardPhase::Operating { mirrored: false }
    );
    assert_eq!(
        guarded(&[ok, StepResult::NoVault, StepResult::Failed]),
        GuardPhase::Done {
            outcome: CombinedOutcome::OperationFailed
        }
    );
    assert_eq!(guarded(&[ok, ok, StepResult::Failed]), GuardPhase::Refused);
    assert_eq!(
        guarded(&[ok; 6]),
        GuardPhase::Preparing {
            step: GuardStep::BeginIntent
        }
    );
    assert_eq!(
        guarded(&[ok; 7]),
        GuardPhase::Operating { mirrored: true }
    );
    assert_eq!(
        guarded(&[ok; 11]),
        GuardPhase::Done {
            outcome: CombinedOutcome::Succeeded
        }
    );
    let mut failing = [ok; 8];
    failing[7] = StepResult::Failed;
    assert_eq!(
        guarded(&failing),
        GuardPhase::Finishing {
            step: GuardStep::Reopen,
            operation_succeeded: false
        }
    );
    let mut unmirrored = [ok; 11];
    unmirrored[10] = StepResult::Failed;
    assert_eq!(
        guarded(&unmirrored),
        GuardPhase::Done {
            outcome: CombinedOutcome::MirrorFailed
        }
    );
    unmirrored[7] = StepResult::Failed;
    assert_eq!(
        guarded(&unmirrored),
        GuardPhase::Done {
            outcome: CombinedOutcome::BothFailed
        }
    );
    assert_eq!(combine_operation_and_mirror(Ok::<u8, u8>(1), Ok(())), Ok(1));
    assert_eq!(
        combine_operation_and_mirror(Err::<u8, u8>(1), Err(2)),
        Err((Some(1), Some(2)))
    );
    assert_eq!(
        combine_operation_and_mirror(Ok::<u8, u8>(1), Err(2)),
        Err((None, Some(2)))
    );
}

#[test]
fn transactions_commit_to_the_vault_first() {
    let after = |results: &[StepResult]| {
        let mut run = TransactionRun::start();
        for result in results {
            run.run_state_transaction(*result);
        }
        run.phase
    };
    let ended = |outcome: TransactionOutcome| TransactionPhase::Ended { outcome };
    let ok = StepResult::Succeeded;
    let bad = StepResult::Failed;
    assert_eq!(after(&[bad]), ended(TransactionOutcome::NotBegun));
    assert_eq!(
        after(&[ok, bad, ok]),
        ended(TransactionOutcome::OperationFailed { rolled_back: true })
    );
    assert_eq!(
        after(&[ok, ok, bad, bad]),
        ended(TransactionOutcome::PrimaryCommitFailed { rolled_back: false })
    );
    assert_eq!(
        after(&[ok, ok, StepResult::NoVault, ok]),
        ended(TransactionOutcome::Committed)
    );
    assert_eq!(after(&[ok, ok, ok, ok]), TransactionPhase::Confirming);
    assert_eq!(
        after(&[ok, ok, ok, bad]),
        ended(TransactionOutcome::LocalCommitFailed)
    );
    assert_eq!(
        after(&[ok, ok, ok, ok, bad]),
        ended(TransactionOutcome::ConfirmationFailed)
    );
    assert_eq!(
        after(&[ok, ok, ok, ok, ok]),
        ended(TransactionOutcome::Committed)
    );
}

fn sequence_record(content: &[u8]) -> SequenceRecord {
    SequenceRecord {
        is_sequence: true,
        relative_path: "next-sequence".to_owned(),
        content: content.to_vec(),
    }
}

#[test]
fn sequence_numbers_come_from_the_vault_where_there_is_one() {
    let load = TransactionSequenceSource::load_sequence_source;
    let mut source = match load(Some(&[sequence_record(b"2\n")])) {
        Ok(source) => source,
        Err(error) => panic!("{error:?}"),
    };
    assert_eq!(source.vault_number(), Some(2));
    assert_eq!(source.allocate_sequence(Some(99)), Ok(2));
    assert_eq!(source.allocate_sequence(Some(99)), Ok(3));
    assert_eq!(source, TransactionSequenceSource::Vault { next: 4 });
    assert_eq!(
        source.allocate_sequence(None),
        Err(SequenceError::AllocationFailed)
    );
    let mut last = TransactionSequenceSource::Vault { next: u64::MAX };
    assert_eq!(
        last.allocate_sequence(Some(0)),
        Err(SequenceError::Exhausted)
    );
    let mut files = TransactionSequenceSource::Filesystem;
    assert_eq!(load(None), Ok(files));
    assert_eq!(files.allocate_sequence(Some(7)), Ok(7));
    let mut unloaded = TransactionSequenceSource::Unloaded;
    assert_eq!(
        unloaded.allocate_sequence(Some(7)),
        Err(SequenceError::SourceUnloaded)
    );
    assert_eq!(
        load(Some(&[])),
        Ok(TransactionSequenceSource::Vault { next: 0 })
    );
    assert_eq!(
        load(Some(&[sequence_record(b"1"), sequence_record(b"1")])),
        Err(SequenceError::MoreThanOneRecord)
    );
    let mut other = sequence_record(b"1");
    other.relative_path = "other".to_owned();
    assert_eq!(load(Some(&[other])), Err(SequenceError::UnexpectedRecord));
    assert_eq!(
        load(Some(&[sequence_record(&[0xff])])),
        Err(SequenceError::NotUtf8)
    );
    assert_eq!(
        load(Some(&[sequence_record(b"one")])),
        Err(SequenceError::NotANumber)
    );
    for text in ["0", "+5", "18446744073709551615"] {
        assert_eq!(parse_number(text), text.parse::<u64>().ok());
    }
    for text in ["", "+", "-1", "1 ", "18446744073709551616", "++1"] {
        assert_eq!(parse_number(text), None);
        assert!(text.parse::<u64>().is_err());
    }
}

#[test]
fn failed_handshakes_are_ignored_until_a_connection_is_accepted() {
    let mut incoming = IncomingConnections::start();
    incoming.accept_authenticated_connection(IncomingEvent::Refused);
    incoming.accept_authenticated_connection(IncomingEvent::HandshakeFailed);
    assert_eq!(incoming.ignored_attempts, 2);
    assert_eq!(incoming.phase, IncomingPhase::Waiting);
    incoming.accept_authenticated_connection(IncomingEvent::Connected);
    assert_eq!(incoming.phase, IncomingPhase::Connected);
    incoming.accept_authenticated_connection(IncomingEvent::Refused);
    assert_eq!(incoming.ignored_attempts, 2);
    let mut closed = IncomingConnections {
        ignored_attempts: u64::MAX,
        phase: IncomingPhase::Waiting,
    };
    closed.accept_authenticated_connection(IncomingEvent::Refused);
    assert_eq!(closed.ignored_attempts, u64::MAX);
    closed.accept_authenticated_connection(IncomingEvent::EndpointClosed);
    assert_eq!(closed.phase, IncomingPhase::Closed);
}

#[test]
fn repositories_are_staged_once_in_a_transaction() {
    let mut workspaces = TransactionWorkspaces::new();
    assert_eq!(workspaces.load_ratchet_state(true), WorkspaceSource::Vault);
    assert_eq!(workspaces.load_ratchet_state(true), WorkspaceSource::Staged);
    assert_eq!(
        workspaces.prepare_trust_workspace(false),
        WorkspaceSource::Filesystem
    );
    assert_eq!(
        workspaces.prepare_trust_workspace(false),
        WorkspaceSource::Staged
    );
}
