use kilogram_cli::codec::{append_bytes, joined, same_bytes};
use kilogram_cli::identity::RoutePolicy;
use kilogram_cli::delivery::DeliveryError;
use kilogram_cli::ids::{
    AccountId, ConversationId, DeviceId, Digest, EventId, Id32, RuntimeContactId, RuntimeQueueId,
};
use kilogram_cli::ordered_records::RecordKey;
use kilogram_cli::runtime_outbox::{
    attempt_runtime_contact_sync, persist_runtime_delivery, persist_runtime_record,
    persist_runtime_retry, prepare_runtime_delivery, queue_runtime_message_with_id, OutboxError,
    QueueDecision, QueueState, RecordWrite, RetryPlan, SyncAttempt,
};
use kilogram_cli::runtime_state::{
    begins_retry_chain, gather_runtime_records, load_runtime_state_snapshot, read_runtime_record_files,
    runtime_contact_relative_path, runtime_delivered_relative_path,
    runtime_materialized_relative_path, runtime_queued_relative_path, runtime_record_kind,
    runtime_retry_relative_path, verify_runtime_references, DeliveredMessage, MaterializedMessage,
    QueuedMessage, RetryState, RuntimeContact, RuntimeRecord, RuntimeRecordFile,
    RuntimeRecordKind, RuntimeStateError, RuntimeStateSnapshot,
};
use kilogram_cli::text::{
    chars_of, contains, encode_hex, ends_with, push_decimal, push_padded_decimal, same_text,
    starts_with, text_of, trim,
};
use kilogram_cli::time::TimeSpan;

fn raw(low: u128) -> Id32 {
    Id32 { high: 0, low }
}

fn local_account() -> AccountId {
    AccountId { raw: raw(1) }
}

fn peer_account() -> AccountId {
    AccountId { raw: raw(2) }
}

fn local_device() -> DeviceId {
    DeviceId { raw: raw(3) }
}

fn conversation() -> ConversationId {
    ConversationId { raw: raw(4) }
}

fn queue(low: u128) -> RuntimeQueueId {
    RuntimeQueueId { raw: raw(low) }
}

fn contact() -> RuntimeContact {
    RuntimeContact {
        contact_id: RuntimeContactId { raw: raw(5) },
        peer_account_id: peer_account(),
        peer_device_id: DeviceId { raw: raw(6) },
        conversation_id: conversation(),
        route_policy: RoutePolicy::Auto,
    }
}

fn queued(low: u128) -> QueuedMessage {
    QueuedMessage {
        queue_id: queue(low),
        contact_id: contact().contact_id,
        local_account_id: local_account(),
        local_device_id: local_device(),
        peer_account_id: peer_account(),
        conversation_id: conversation(),
    }
}

fn materialized(low: u128) -> MaterializedMessage {
    MaterializedMessage {
        queue_id: queue(low),
        local_device_id: local_device(),
        event_id: EventId { raw: raw(100 + low) },
        event_digest: Digest { raw: raw(200 + low) },
        author_device_id: local_device(),
        conversation_id: conversation(),
    }
}

fn delivered(low: u128) -> DeliveredMessage {
    DeliveredMessage {
        queue_id: queue(low),
        local_device_id: local_device(),
        event_id: EventId { raw: raw(100 + low) },
        acknowledgement_event_id: EventId { raw: raw(300 + low) },
    }
}

fn retry(low: u128, generation: u32, not_before: u64) -> RetryState {
    RetryState {
        queue_id: queue(low),
        local_device_id: local_device(),
        generation,
        not_before_unix_seconds: not_before,
    }
}

fn components(path: &str) -> Vec<String> {
    path.split('/')
        .filter(|component| !component.is_empty())
        .map(str::to_owned)
        .collect()
}

fn file(relative_path: String, record: RuntimeRecord) -> RuntimeRecordFile {
    let relative_path = components(&relative_path);
    let file_name = relative_path.last().cloned();
    RuntimeRecordFile {
        relative_path,
        file_name,
        record: Some(record),
    }
}

fn contact_file() -> RuntimeRecordFile {
    file(
        runtime_contact_relative_path(contact().contact_id),
        RuntimeRecord::Contact {
            contact: contact(),
            verified_local: true,
        },
    )
}

fn queued_file(low: u128) -> RuntimeRecordFile {
    file(
        runtime_queued_relative_path(queue(low)),
        RuntimeRecord::Queued(queued(low)),
    )
}

fn load(files: Vec<RuntimeRecordFile>) -> Result<RuntimeStateSnapshot, RuntimeStateError> {
    load_runtime_state_snapshot(&files, local_account(), local_device(), &[true, true])
}

fn refusal(files: Vec<RuntimeRecordFile>) -> RuntimeStateError {
    match load(files) {
        Ok(snapshot) => panic!("unexpectedly loaded {snapshot:?}"),
        Err(error) => error,
    }
}

fn loaded(files: Vec<RuntimeRecordFile>) -> RuntimeStateSnapshot {
    match load(files) {
        Ok(snapshot) => snapshot,
        Err(error) => panic!("{error:?}"),
    }
}

#[test]
fn record_paths_hold_the_identifier_in_hexadecimal() {
    let zeros = "0".repeat(62);
    assert_eq!(
        runtime_contact_relative_path(contact().contact_id),
        format!("runtime/contacts/{zeros}05.contact")
    );
    assert_eq!(
        runtime_queued_relative_path(queue(255)),
        format!("runtime/outbox/{zeros}ff.queued")
    );
    assert_eq!(
        runtime_materialized_relative_path(queue(1)),
        format!("runtime/outbox/{zeros}01.materialized")
    );
    assert_eq!(
        runtime_delivered_relative_path(queue(1)),
        format!("runtime/outbox/{zeros}01.delivered")
    );
    assert_eq!(
        runtime_retry_relative_path(queue(1), 42),
        format!("runtime/outbox/{zeros}01.retry-0000000042")
    );
    assert_eq!(
        runtime_retry_relative_path(queue(1), u32::MAX),
        format!("runtime/outbox/{zeros}01.retry-4294967295")
    );
}

#[test]
fn record_kinds_follow_the_file_name() {
    assert_eq!(
        runtime_record_kind("a.contact"),
        Some(RuntimeRecordKind::Contact)
    );
    assert_eq!(
        runtime_record_kind("a.queued"),
        Some(RuntimeRecordKind::Queued)
    );
    assert_eq!(
        runtime_record_kind("a.materialized"),
        Some(RuntimeRecordKind::Materialized)
    );
    assert_eq!(
        runtime_record_kind("a.delivered"),
        Some(RuntimeRecordKind::Delivered)
    );
    assert_eq!(
        runtime_record_kind("a.retry-0000000001"),
        Some(RuntimeRecordKind::Retry)
    );
    assert_eq!(runtime_record_kind("a.tmp"), None);
}

#[test]
fn loaded_state_is_in_key_order() {
    let snapshot = loaded(vec![
        queued_file(9),
        contact_file(),
        queued_file(7),
        queued_file(8),
        file(
            runtime_retry_relative_path(queue(7), 2),
            RuntimeRecord::Retry(retry(7, 2, 50)),
        ),
        file(
            runtime_retry_relative_path(queue(7), 1),
            RuntimeRecord::Retry(retry(7, 1, 20)),
        ),
    ]);
    let ids: Vec<RuntimeQueueId> = snapshot.queued.iter().map(|q| q.queue_id).collect();
    assert_eq!(ids, vec![queue(7), queue(8), queue(9)]);
    let generations: Vec<u32> = snapshot.retries.iter().map(|r| r.generation).collect();
    assert_eq!(generations, vec![1, 2]);
    assert!(begins_retry_chain(&snapshot, 0));
    assert!(!begins_retry_chain(&snapshot, 1));
    let same_id_precedes = RecordKey {
        id: raw(7),
        generation: 1,
    };
    assert!(same_id_precedes.precedes(RecordKey {
        id: raw(7),
        generation: 2
    }));
    assert!(!same_id_precedes.precedes(same_id_precedes));
}

#[test]
fn unusable_record_files_are_refused() {
    let unnamed = RuntimeRecordFile {
        relative_path: components("runtime/outbox/x"),
        file_name: None,
        record: None,
    };
    assert_eq!(refusal(vec![unnamed]), RuntimeStateError::FileNameNotUtf8);
    assert_eq!(
        refusal(vec![file(
            "runtime/outbox/a.tmp".to_owned(),
            RuntimeRecord::Queued(queued(7))
        )]),
        RuntimeStateError::UnknownRecord
    );
    let undecodable = RuntimeRecordFile {
        relative_path: components(&runtime_queued_relative_path(queue(7))),
        file_name: Some("a.queued".to_owned()),
        record: None,
    };
    assert_eq!(refusal(vec![undecodable]), RuntimeStateError::Undecodable);
    assert_eq!(
        refusal(vec![file(
            runtime_contact_relative_path(contact().contact_id),
            RuntimeRecord::Contact {
                contact: contact(),
                verified_local: false
            }
        )]),
        RuntimeStateError::ContactNotLocal
    );
    assert_eq!(
        refusal(vec![file(
            "runtime/contacts/other.contact".to_owned(),
            RuntimeRecord::Contact {
                contact: contact(),
                verified_local: true
            }
        )]),
        RuntimeStateError::ContactPathMismatch
    );
    assert_eq!(
        refusal(vec![contact_file(), contact_file()]),
        RuntimeStateError::DuplicateContact
    );
    assert_eq!(
        refusal(vec![queued_file(7), queued_file(7)]),
        RuntimeStateError::DuplicateQueue
    );
    let foreign = QueuedMessage {
        local_account_id: peer_account(),
        ..queued(7)
    };
    assert_eq!(
        refusal(vec![file(
            runtime_queued_relative_path(queue(7)),
            RuntimeRecord::Queued(foreign)
        )]),
        RuntimeStateError::QueueOfAnotherIdentity
    );
    assert_eq!(
        refusal(vec![file(
            runtime_queued_relative_path(queue(8)),
            RuntimeRecord::Queued(queued(7))
        )]),
        RuntimeStateError::QueuePathMismatch
    );
    assert_eq!(
        refusal(vec![file(
            runtime_materialized_relative_path(queue(8)),
            RuntimeRecord::Materialized(materialized(7))
        )]),
        RuntimeStateError::MaterializationPathMismatch
    );
    assert_eq!(
        refusal(vec![file(
            runtime_delivered_relative_path(queue(8)),
            RuntimeRecord::Delivered(delivered(7))
        )]),
        RuntimeStateError::DeliveryPathMismatch
    );
    assert_eq!(
        refusal(vec![file(
            runtime_retry_relative_path(queue(7), 3),
            RuntimeRecord::Retry(retry(7, 2, 50))
        )]),
        RuntimeStateError::RetryPathMismatch
    );
    let other = DeviceId { raw: raw(77) };
    assert_eq!(
        refusal(vec![file(
            runtime_retry_relative_path(queue(7), 2),
            RuntimeRecord::Retry(RetryState {
                local_device_id: other,
                ..retry(7, 2, 50)
            })
        )]),
        RuntimeStateError::RetryOfAnotherDevice
    );
    assert_eq!(
        read_runtime_record_files(true, true, 1, 10),
        Err(RuntimeStateError::NotARegularFile)
    );
    assert_eq!(
        read_runtime_record_files(true, false, 11, 10),
        Err(RuntimeStateError::RecordTooLarge)
    );
    assert_eq!(read_runtime_record_files(true, false, 10, 10), Ok(()));
}

#[test]
fn loaded_state_is_bounded() {
    let contacts: Vec<RuntimeRecordFile> = (0..257)
        .map(|low| {
            let contact_id = RuntimeContactId { raw: raw(low) };
            file(
                runtime_contact_relative_path(contact_id),
                RuntimeRecord::Contact {
                    contact: RuntimeContact {
                        contact_id,
                        ..contact()
                    },
                    verified_local: true,
                },
            )
        })
        .collect();
    assert_eq!(refusal(contacts), RuntimeStateError::ContactLimit);
}

fn outbox_files(low: u128) -> [RuntimeRecordFile; 3] {
    [
        queued_file(low),
        file(
            runtime_materialized_relative_path(queue(low)),
            RuntimeRecord::Materialized(materialized(low)),
        ),
        file(
            runtime_delivered_relative_path(queue(low)),
            RuntimeRecord::Delivered(delivered(low)),
        ),
    ]
}

#[test]
fn loading_refuses_records_that_refer_to_nothing() {
    assert_eq!(
        refusal(vec![queued_file(7)]),
        RuntimeStateError::QueueContactAbsent
    );
    let [queued, materialized, delivered] = outbox_files(7);
    assert_eq!(
        refusal(vec![contact_file(), materialized, delivered]),
        RuntimeStateError::MaterializationQueueAbsent
    );
    let [_, _, delivered] = outbox_files(7);
    assert_eq!(
        refusal(vec![contact_file(), queued, delivered]),
        RuntimeStateError::DeliveryMaterializationAbsent
    );
    let mut files: Vec<RuntimeRecordFile> = outbox_files(7).into();
    files.push(contact_file());
    let snapshot = loaded(files);
    assert_eq!(snapshot.queued.len(), 1);
    assert_eq!(snapshot.delivered.len(), 1);

    let retry_file = |generation: u32| {
        file(
            runtime_retry_relative_path(queue(7), generation),
            RuntimeRecord::Retry(retry(7, generation, 50)),
        )
    };
    let files = vec![contact_file(), queued_file(7), retry_file(1), retry_file(2)];
    assert!(
        load_runtime_state_snapshot(&files, local_account(), local_device(), &[true, true]).is_ok()
    );
    assert_eq!(
        load_runtime_state_snapshot(&files, local_account(), local_device(), &[true, false]).err(),
        Some(RuntimeStateError::RetryChain)
    );
    let gathered = gather_runtime_records(&vec![queued_file(7)], local_account(), local_device());
    assert!(gathered.is_ok());
}

#[test]
fn record_paths_are_compared_by_component() {
    let path = runtime_contact_relative_path(contact().contact_id);
    let at = |path: String| {
        load(vec![file(
            path,
            RuntimeRecord::Contact {
                contact: contact(),
                verified_local: true,
            },
        )])
    };
    assert!(at(path.clone()).is_ok());
    assert!(at(path.replace('/', "//")).is_ok());
    for other in [
        path.replace("contacts", "outbox"),
        path.replace("runtime/", ""),
        path.replace("runtime/", "other/runtime/"),
        path.replace("05.contact", "06.contact"),
    ] {
        assert_eq!(at(other).err(), Some(RuntimeStateError::ContactPathMismatch));
    }
}

#[test]
fn retry_paths_sort_like_their_generations() {
    let path = |generation: u32| runtime_retry_relative_path(queue(7), generation);
    for (earlier, later) in [(0, 1), (9, 10), (99, 1_000), (999_999_999, u32::MAX)] {
        assert!(path(earlier).as_bytes() < path(later).as_bytes());
        assert!(path(later).as_bytes() > path(earlier).as_bytes());
    }
    assert_eq!(path(12), path(12));
}

fn state() -> RuntimeStateSnapshot {
    RuntimeStateSnapshot {
        contacts: vec![contact()],
        queued: vec![queued(7), queued(8), queued(9)],
        materialized: vec![materialized(7), materialized(8)],
        delivered: vec![delivered(7)],
        retries: vec![retry(8, 1, 100), retry(8, 2, 200)],
    }
}

#[test]
fn references_between_records_must_hold() {
    let check = |state: &RuntimeStateSnapshot| {
        verify_runtime_references(state, local_device(), &[true, true])
    };
    assert_eq!(check(&state()), Ok(()));
    assert_eq!(
        verify_runtime_references(&state(), local_device(), &[true, false]),
        Err(RuntimeStateError::RetryChain)
    );
    let mut broken = state();
    broken.contacts = Vec::new();
    assert_eq!(check(&broken), Err(RuntimeStateError::QueueContactAbsent));
    let mut broken = state();
    broken.contacts[0].peer_account_id = local_account();
    assert_eq!(check(&broken), Err(RuntimeStateError::QueueContactDiffers));
    let mut broken = state();
    broken.queued.remove(1);
    assert_eq!(
        check(&broken),
        Err(RuntimeStateError::MaterializationQueueAbsent)
    );
    let mut broken = state();
    broken.materialized[1].author_device_id = DeviceId { raw: raw(77) };
    assert_eq!(check(&broken), Err(RuntimeStateError::MaterializationDiffers));
    let mut broken = state();
    broken.materialized.remove(0);
    assert_eq!(
        check(&broken),
        Err(RuntimeStateError::DeliveryMaterializationAbsent)
    );
    let mut broken = state();
    broken.delivered[0].event_id = EventId { raw: raw(0) };
    assert_eq!(check(&broken), Err(RuntimeStateError::DeliveryDiffers));
}

#[test]
fn outbox_status_counts_add_up() {
    let status = state().collect_runtime_outbox_status();
    assert_eq!(status.contact_count, 1);
    assert_eq!(status.queue_count, 3);
    assert_eq!(status.pending_count, 2);
    assert_eq!(status.materialized_count, 2);
    assert_eq!(status.delivered_count, 1);
    assert_eq!(status.retry_state_count, 2);
    assert_eq!(status.pending_count + status.delivered_count, status.queue_count);
    let states: Vec<QueueState> = status.items.iter().map(|item| item.state).collect();
    assert_eq!(
        states,
        vec![
            QueueState::Delivered,
            QueueState::Materialized,
            QueueState::Queued
        ]
    );
    assert_eq!(
        status.items[0].acknowledgement_event_id,
        Some(EventId { raw: raw(307) })
    );
    assert_eq!(status.items[2].acknowledgement_event_id, None);
}

#[test]
fn queued_messages_become_due_after_their_retry() {
    let mut state = state();
    assert_eq!(state.pending_count(), 2);
    assert_eq!(state.latest_retry(queue(8)), Some(retry(8, 2, 200)));
    assert_eq!(state.latest_retry(queue(9)), None);
    assert_eq!(state.select_due_runtime_queue(199), Some(queue(9)));
    assert_eq!(state.select_due_runtime_queue(200), Some(queue(8)));
    state.queued.remove(2);
    assert_eq!(state.select_due_runtime_queue(199), None);
}

fn scheduled(state: &RuntimeStateSnapshot, low: u128, base: u64, max: u64, now: u64) -> RetryPlan {
    match persist_runtime_retry(state, queue(low), base, max, now) {
        Ok(Some(plan)) => plan,
        other => panic!("{other:?}"),
    }
}

#[test]
fn retries_are_spread_by_a_digest_and_bounded() {
    let state = state();
    let mut input = b"kilogram:runtime-retry-jitter:v1\0".to_vec();
    input.extend_from_slice(&queue(9).raw.to_bytes());
    input.extend_from_slice(&1_u32.to_le_bytes());
    let digest = *blake3::hash(&input).as_bytes();
    let mut first = [0_u8; 8];
    first.copy_from_slice(&digest[..8]);
    let sample = u64::from_le_bytes(first);
    let plan = scheduled(&state, 9, 100, 3_600, 1_000);
    assert_eq!(plan.generation, 1);
    assert_eq!(plan.delay_seconds, 50 + sample % 51);
    assert_eq!(plan.not_before_unix_seconds, 1_000 + plan.delay_seconds);

    let third = scheduled(&state, 8, 100, 3_600, u64::MAX);
    assert_eq!(third.generation, 3);
    assert!(third.delay_seconds >= 200 && third.delay_seconds <= 400);
    assert_eq!(third.not_before_unix_seconds, u64::MAX);
    let capped = scheduled(&state, 8, 100, 150, 0);
    assert!(capped.delay_seconds >= 75 && capped.delay_seconds <= 150);
    assert_eq!(scheduled(&state, 8, 0, 0, 0).delay_seconds, 1);
    assert_eq!(
        persist_runtime_retry(&state, queue(7), 100, 3_600, 0),
        Ok(None)
    );
    assert_eq!(
        persist_runtime_retry(&state, queue(6), 100, 3_600, 0),
        Err(OutboxError::RetryOfAbsentRecord)
    );
    let mut last = state;
    last.retries[1].generation = u32::MAX;
    assert_eq!(scheduled(&last, 8, 1, 10, 0).generation, u32::MAX);
}

#[test]
fn a_queue_identifier_is_used_for_one_message() {
    let state = state();
    let queue_among = |members: &[AccountId], id: u128, peer: AccountId, text: &str, body: Option<&str>| {
        queue_runtime_message_with_id(
            &state,
            members,
            queue(id),
            conversation(),
            local_account(),
            peer,
            &text.to_owned(),
            &body.map(str::to_owned),
        )
    };
    let members = [local_account(), peer_account()];
    let queue_message = |id: u128, peer: AccountId, text: &str, body: Option<&str>| {
        queue_among(&members, id, peer, text, body)
    };
    assert_eq!(
        queue_among(&[local_account()], 20, peer_account(), "hello", None),
        Err(OutboxError::Participants {
            fault: DeliveryError::PeerNotAMember
        })
    );
    assert_eq!(
        queue_among(&[peer_account()], 20, peer_account(), "hello", None),
        Err(OutboxError::Participants {
            fault: DeliveryError::LocalNotAMember
        })
    );
    assert_eq!(
        queue_message(7, peer_account(), "hello", Some("hello")),
        Ok(QueueDecision::AlreadyQueued {
            contact_id: contact().contact_id
        })
    );
    assert_eq!(
        queue_message(7, peer_account(), "hello", Some("other")),
        Err(OutboxError::RequestReused)
    );
    assert_eq!(
        queue_message(7, local_account(), "hello", Some("hello")),
        Err(OutboxError::RequestReused)
    );
    assert_eq!(
        queue_message(7, peer_account(), "hello", None),
        Err(OutboxError::BodyUnreadable)
    );
    assert_eq!(
        queue_message(20, peer_account(), "hello", None),
        Ok(QueueDecision::Insert { contact: contact() })
    );
    assert_eq!(
        queue_message(20, local_account(), "hello", None),
        Err(OutboxError::NoMatchingContact)
    );
}

#[test]
fn deliveries_start_from_their_records() {
    let state = state();
    match prepare_runtime_delivery(&state, queue(8)) {
        Ok(start) => {
            assert_eq!(start.queued, queued(8));
            assert_eq!(start.contact, contact());
            assert_eq!(start.materialized, Some(materialized(8)));
        }
        Err(error) => panic!("{error:?}"),
    }
    assert_eq!(
        prepare_runtime_delivery(&state, queue(7)),
        Err(OutboxError::AlreadyDelivered)
    );
    assert_eq!(
        prepare_runtime_delivery(&state, queue(6)),
        Err(OutboxError::QueueRecordDisappeared)
    );
    assert_eq!(
        persist_runtime_delivery(&state, queue(8), Digest { raw: raw(208) }),
        Ok(materialized(8))
    );
    assert_eq!(
        persist_runtime_delivery(&state, queue(8), Digest { raw: raw(0) }),
        Err(OutboxError::MaterializationChanged)
    );
    assert_eq!(
        persist_runtime_delivery(&state, queue(9), Digest { raw: raw(0) }),
        Err(OutboxError::MaterializationDisappeared)
    );
    let mut lost = state;
    lost.contacts = Vec::new();
    assert_eq!(
        prepare_runtime_delivery(&lost, queue(8)),
        Err(OutboxError::ContactDisappeared)
    );
}

#[test]
fn append_only_records_are_never_overwritten() {
    assert_eq!(persist_runtime_record(b"ab", None, 2), Ok(RecordWrite::Write));
    assert_eq!(
        persist_runtime_record(b"ab", Some(b"ab"), 2),
        Ok(RecordWrite::AlreadyPresent)
    );
    assert_eq!(
        persist_runtime_record(b"ab", Some(b"ac"), 2),
        Err(OutboxError::RecordConflict)
    );
    assert_eq!(
        persist_runtime_record(b"abc", None, 2),
        Err(OutboxError::RecordTooLarge)
    );
}

#[test]
fn contacts_are_synchronized_once_for_each_interval() {
    let contacts = vec![contact()];
    let mut attempts: Vec<SyncAttempt> = Vec::new();
    assert_eq!(
        attempt_runtime_contact_sync(&contacts, &mut attempts, 100, 30),
        Some(contact())
    );
    assert_eq!(
        attempt_runtime_contact_sync(&contacts, &mut attempts, 129, 30),
        None
    );
    assert_eq!(
        attempt_runtime_contact_sync(&contacts, &mut attempts, 130, 30),
        Some(contact())
    );
    assert_eq!(
        attempt_runtime_contact_sync(&contacts, &mut attempts, 131, 30),
        None
    );
}

#[test]
fn text_helpers_follow_the_standard_library() {
    for text in ["", "  a b\u{a0}\n", "\u{2003}x\u{85}", "plain", "\u{200b}zero"] {
        assert_eq!(trim(text), text.trim());
        assert_eq!(trim(&trim(text)), text.trim());
        assert_eq!(text_of(&chars_of(text)), text);
    }
    assert!(starts_with("runtime/x", "runtime/"));
    assert!(!starts_with("run", "runtime"));
    assert!(ends_with("a.queued", ".queued"));
    assert!(!ends_with("queued", ".queued"));
    assert!(contains("a.retry-01", ".retry-"));
    assert!(!contains("a.retry", ".retry-"));
    assert!(same_text("abc", "abc"));
    assert!(!same_text("abc", "abd"));
    let mut out = String::new();
    push_decimal(&mut out, 0);
    push_decimal(&mut out, u64::MAX);
    assert_eq!(out, format!("0{}", u64::MAX));
    let mut out = String::new();
    push_padded_decimal(&mut out, 42, 6);
    push_padded_decimal(&mut out, 1_234_567, 6);
    assert_eq!(out, "0000421234567");
    assert_eq!(encode_hex(&[0, 15, 16, 255]), "000f10ff");
}

#[test]
fn identifiers_are_their_bytes() {
    let mut bytes = [0_u8; 32];
    for (index, byte) in bytes.iter_mut().enumerate() {
        *byte = (index * 7) as u8;
    }
    let id = Id32::from_bytes(&bytes);
    assert_eq!(id.to_bytes(), bytes.to_vec());
    assert_eq!(id.to_text(), encode_hex(&bytes));
    let mut larger = bytes;
    larger[31] += 1;
    assert!(id.precedes(Id32::from_bytes(&larger)));
    assert!(!Id32::from_bytes(&larger).precedes(id));
    let mut much_larger = bytes;
    much_larger[0] += 1;
    assert!(Id32::from_bytes(&larger).precedes(Id32::from_bytes(&much_larger)));
}

#[test]
fn byte_helpers_join_and_compare() {
    assert_eq!(joined(b"ab", b"c"), b"abc".to_vec());
    let mut out = b"x".to_vec();
    append_bytes(&mut out, b"yz");
    assert_eq!(out, b"xyz".to_vec());
    assert!(same_bytes(b"ab", b"ab"));
    assert!(!same_bytes(b"ab", b"a"));
}

#[test]
fn time_spans_never_fall_below_zero() {
    let second = TimeSpan::from_secs(1);
    assert_eq!(second, TimeSpan::from_millis(1_000));
    assert_eq!(
        second.at_most(TimeSpan::from_millis(10)),
        TimeSpan::from_millis(10)
    );
    assert_eq!(
        second.saturating_sub(TimeSpan::from_millis(400)),
        TimeSpan::from_millis(600)
    );
    assert_eq!(
        second.saturating_sub(TimeSpan::from_secs(2)),
        TimeSpan::from_secs(0)
    );
}
