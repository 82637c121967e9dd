use kilogram_cli::ids::{Digest, Id32};
use kilogram_cli::recovery_plan::{
    RecoveryExecutionPolicy, RecoveryNetworkClass, RecoveryPowerSource,
};
use kilogram_cli::scheduler::{
    cancel_history_recovery_plan, finalize_expired_recovery_attempt,
    finalize_interrupted_recovery_worker_attempt, finalize_recovery_scheduler_attempt,
    history_recovery_attempt_lease_seconds, load_required_recovery_scheduler_state,
    prepare_history_recovery_scheduler_state, recovery_scheduler_attempt_is_current,
    validate_run_options, wait_for_recovery_scheduler_deadline, DeadlineWait, PolicyStage,
    RecoveryRun, RunEvent, RunOutcome, RunPhase, SchedulerAttemptResult, SchedulerError,
    SchedulerLifecycle, SchedulerReadiness, SchedulerState, SchedulerTransition,
};
use kilogram_cli::time::TimeSpan;
use kilogram_cli::worker::{
    acquire_runtime_state_lock, print_history_recovery_worker_terminal,
    recovery_worker_state_lock_is_busy, recovery_worker_wait_duration,
    retry_recovery_worker_state_operation, AttemptEnd, ErrorCause,
    HistoryRecoveryWorkerWakeReason, LockRetry, RecoveryWorker, WorkerError, WorkerEvent,
    WorkerOptions, WorkerOutcome, WorkerPhase,
};

const WIFI: RecoveryNetworkClass = RecoveryNetworkClass::Wifi;
const MOBILE: RecoveryNetworkClass = RecoveryNetworkClass::Mobile;
const EXTERNAL: RecoveryPowerSource = RecoveryPowerSource::External;

fn digest(low: u128) -> Digest {
    Digest {
        raw: Id32 { high: 0, low },
    }
}

fn policy() -> RecoveryExecutionPolicy {
    match RecoveryExecutionPolicy::new(true, true, false, false, false) {
        Ok(policy) => policy,
        Err(error) => panic!("{error:?}"),
    }
}

fn options() -> WorkerOptions {
    WorkerOptions {
        max_runtime_seconds: 60,
        max_wakeups: 2,
        cancel_poll_seconds: 5,
        discovery_wait_seconds: 5,
        max_pages: 4,
    }
}

#[test]
fn recovery_worker_wait_is_bounded_by_poll_runtime_and_signed_deadline() {
    assert_eq!(
        recovery_worker_wait_duration(
            TimeSpan::from_secs(5),
            TimeSpan::from_secs(20),
            Some((100, 102)),
        ),
        TimeSpan::from_secs(2)
    );
    assert_eq!(
        recovery_worker_wait_duration(
            TimeSpan::from_secs(5),
            TimeSpan::from_secs(3),
            Some((100, 120)),
        ),
        TimeSpan::from_secs(3)
    );
    assert_eq!(
        recovery_worker_wait_duration(TimeSpan::from_secs(5), TimeSpan::from_secs(20), None),
        TimeSpan::from_secs(5)
    );
}

#[test]
fn recovery_worker_recognizes_only_typed_state_lock_contention() {
    assert!(recovery_worker_state_lock_is_busy(&[
        ErrorCause::Other,
        ErrorCause::StateAlreadyLocked
    ]));
    assert!(!recovery_worker_state_lock_is_busy(&[ErrorCause::Other]));
}

#[test]
fn busy_locks_are_retried_for_a_bounded_time() {
    let busy = [ErrorCause::StateAlreadyLocked];
    assert_eq!(
        retry_recovery_worker_state_operation(&busy, TimeSpan::from_millis(1_999)),
        LockRetry::Retry
    );
    assert_eq!(
        retry_recovery_worker_state_operation(&busy, TimeSpan::from_secs(2)),
        LockRetry::GiveUp
    );
    assert_eq!(
        retry_recovery_worker_state_operation(&[], TimeSpan::from_secs(0)),
        LockRetry::Fail
    );
    assert_eq!(
        acquire_runtime_state_lock(true, TimeSpan::from_millis(14_999)),
        LockRetry::Retry
    );
    assert_eq!(
        acquire_runtime_state_lock(true, TimeSpan::from_secs(15)),
        LockRetry::GiveUp
    );
}

#[test]
fn worker_options_are_checked_in_order() {
    assert_eq!(options().validate(), Ok(()));
    let wakeups = WorkerOptions {
        max_wakeups: 1_025,
        ..options()
    };
    assert_eq!(wakeups.validate(), Err(WorkerError::WakeupsOutOfRange));
    let runtime = WorkerOptions {
        max_runtime_seconds: 0,
        ..options()
    };
    assert_eq!(runtime.validate(), Err(WorkerError::RuntimeOutOfRange));
    let poll = WorkerOptions {
        cancel_poll_seconds: 31,
        ..options()
    };
    assert_eq!(poll.validate(), Err(WorkerError::CancelPollOutOfRange));
    let pages = WorkerOptions {
        max_pages: 65,
        ..options()
    };
    assert_eq!(pages.validate(), Err(WorkerError::PagesOutOfRange));
}

#[test]
fn worker_wakes_attempts_waits_and_stops_at_its_bound() {
    let mut worker = match RecoveryWorker::start(options(), policy()) {
        Ok(worker) => worker,
        Err(error) => panic!("{error:?}"),
    };
    assert_eq!(worker.wake_reason, HistoryRecoveryWorkerWakeReason::Initial);
    for wake in 1..=2 {
        worker.watch_history_recovery_plan(WorkerEvent::Observed {
            terminal: None,
            runtime_over: false,
        });
        assert_eq!(worker.wake_count, wake);
        worker.watch_history_recovery_plan(WorkerEvent::Prepared {
            complete: false,
            lifecycle: SchedulerLifecycle::Active,
            readiness: SchedulerReadiness::Ready,
        });
        worker.watch_history_recovery_plan(WorkerEvent::PolicyChecked {
            network: WIFI,
            power: EXTERNAL,
        });
        assert_eq!(worker.phase, WorkerPhase::Attempting);
        worker.watch_history_recovery_plan(WorkerEvent::AttemptEnded {
            end: AttemptEnd::Finished,
        });
        worker.watch_history_recovery_plan(WorkerEvent::Observed {
            terminal: None,
            runtime_over: false,
        });
        worker.watch_history_recovery_plan(WorkerEvent::WaitBegun { state: digest(1) });
        worker.watch_history_recovery_plan(WorkerEvent::Observed {
            terminal: None,
            runtime_over: false,
        });
        worker.watch_history_recovery_plan(WorkerEvent::StateRead {
            state: digest(1),
            readiness: SchedulerReadiness::Deferred {
                not_before_unix_seconds: 500,
            },
            network: WIFI,
            power: EXTERNAL,
        });
        assert_eq!(
            worker.phase,
            WorkerPhase::Sleeping {
                observed: digest(1),
                deadline: Some(500)
            }
        );
        worker.watch_history_recovery_plan(WorkerEvent::PlatformChanged);
        assert_eq!(
            worker.wake_reason,
            HistoryRecoveryWorkerWakeReason::PlatformChange
        );
    }
    worker.watch_history_recovery_plan(WorkerEvent::Observed {
        terminal: None,
        runtime_over: false,
    });
    assert_eq!(
        worker.phase,
        WorkerPhase::Done {
            outcome: WorkerOutcome::WakeupLimit
        }
    );
    worker.watch_history_recovery_plan(WorkerEvent::PlatformChanged);
    assert_eq!(
        worker.phase,
        WorkerPhase::Done {
            outcome: WorkerOutcome::WakeupLimit
        }
    );
}

#[test]
fn worker_never_attempts_against_its_policy_and_stops_on_a_terminal_state() {
    let mut worker = match RecoveryWorker::start(options(), policy()) {
        Ok(worker) => worker,
        Err(error) => panic!("{error:?}"),
    };
    worker.watch_history_recovery_plan(WorkerEvent::Observed {
        terminal: None,
        runtime_over: false,
    });
    worker.watch_history_recovery_plan(WorkerEvent::Prepared {
        complete: false,
        lifecycle: SchedulerLifecycle::Active,
        readiness: SchedulerReadiness::Ready,
    });
    worker.watch_history_recovery_plan(WorkerEvent::PolicyChecked {
        network: MOBILE,
        power: EXTERNAL,
    });
    assert_eq!(worker.phase, WorkerPhase::ObservingAfterWakeup);
    worker.watch_history_recovery_plan(WorkerEvent::Observed {
        terminal: Some(SchedulerLifecycle::Cancelled),
        runtime_over: false,
    });
    assert_eq!(
        worker.phase,
        WorkerPhase::Done {
            outcome: WorkerOutcome::Cancelled
        }
    );
    assert_eq!(
        print_history_recovery_worker_terminal(SchedulerLifecycle::Completed),
        WorkerOutcome::Complete
    );
    assert_eq!(
        print_history_recovery_worker_terminal(SchedulerLifecycle::Active),
        WorkerOutcome::Failed {
            error: WorkerError::NotTerminal
        }
    );
}

#[test]
fn attempt_lease_covers_every_wait_of_an_attempt() {
    assert_eq!(
        history_recovery_attempt_lease_seconds(10, 2, 86_400),
        Ok(10 + 30 + 15 + 30 + 2 * 60 + 60)
    );
    assert_eq!(
        history_recovery_attempt_lease_seconds(10, 2, 264),
        Err(SchedulerError::LeaseTooLong)
    );
    assert_eq!(
        history_recovery_attempt_lease_seconds(u64::MAX, 1, u64::MAX),
        Err(SchedulerError::LeaseOverflow)
    );
    assert_eq!(
        history_recovery_attempt_lease_seconds(1, usize::MAX, u64::MAX),
        Err(SchedulerError::LeasePagesOverflow)
    );
}

#[test]
fn run_options_are_checked_in_order() {
    assert_eq!(validate_run_options(3, 5, 4), Ok(()));
    assert_eq!(
        validate_run_options(9, 0, 0),
        Err(SchedulerError::AttemptsOutOfRange)
    );
    assert_eq!(
        validate_run_options(1, 0, 0),
        Err(SchedulerError::DiscoveryWaitOutOfRange)
    );
    assert_eq!(
        validate_run_options(1, 5, 65),
        Err(SchedulerError::PagesOutOfRange)
    );
}

fn started_run() -> RecoveryRun {
    match RecoveryRun::start(policy(), 2, 5, 4, 86_400) {
        Ok(run) => run,
        Err(error) => panic!("{error:?}"),
    }
}

#[test]
fn runs_start_with_options_in_range() {
    let refused = |attempts: usize, wait: u64, pages: usize| {
        RecoveryRun::start(policy(), attempts, wait, pages, 86_400).err()
    };
    assert_eq!(refused(2, 5, 4), None);
    assert_eq!(refused(0, 5, 4), Some(SchedulerError::AttemptsOutOfRange));
    assert_eq!(
        refused(2, 31, 4),
        Some(SchedulerError::DiscoveryWaitOutOfRange)
    );
    assert_eq!(refused(2, 5, 0), Some(SchedulerError::PagesOutOfRange));
}

fn prepared(network: RecoveryNetworkClass) -> RunEvent {
    RunEvent::Prepared {
        complete: false,
        lifecycle: SchedulerLifecycle::Active,
        readiness: SchedulerReadiness::Ready,
        network,
        power: EXTERNAL,
    }
}

#[test]
fn run_discovers_transfers_and_completes_on_its_checkpoint() {
    let mut run = started_run();
    run.run_history_recovery_plan(prepared(WIFI));
    assert_eq!(run.attempt, 1);
    run.run_history_recovery_plan(RunEvent::AttemptChecked {
        plan_valid: true,
        network: WIFI,
        power: EXTERNAL,
    });
    run.run_history_recovery_plan(RunEvent::AttemptOpened {
        readiness: SchedulerReadiness::Ready,
    });
    assert_eq!(run.phase, RunPhase::Discovering);
    run.run_history_recovery_plan(RunEvent::Scanned {
        candidates: 1,
        candidate_limit_reached: false,
    });
    run.run_history_recovery_plan(RunEvent::LeaseChecked { current: true });
    run.run_history_recovery_plan(RunEvent::ConnectionChecked {
        network: WIFI,
        power: EXTERNAL,
    });
    assert_eq!(run.phase, RunPhase::Transferring);
    run.run_history_recovery_plan(RunEvent::TransferEnded { succeeded: true });
    run.run_history_recovery_plan(RunEvent::CheckpointRead { complete: true });
    assert_eq!(
        run.phase,
        RunPhase::Finalizing {
            result: SchedulerAttemptResult::Completed,
            after_scan_failure: false
        }
    );
    run.run_history_recovery_plan(RunEvent::AttemptFinalized {
        lifecycle: SchedulerLifecycle::Completed,
    });
    assert_eq!(
        run.phase,
        RunPhase::Done {
            outcome: RunOutcome::Complete
        }
    );
}

#[test]
fn run_retries_failed_scans_up_to_its_bound() {
    let mut run = started_run();
    run.run_history_recovery_plan(prepared(WIFI));
    for attempt in 1..=2 {
        assert_eq!(run.attempt, attempt);
        run.run_history_recovery_plan(RunEvent::AttemptChecked {
            plan_valid: true,
            network: WIFI,
            power: EXTERNAL,
        });
        run.run_history_recovery_plan(RunEvent::AttemptOpened {
            readiness: SchedulerReadiness::Ready,
        });
        run.run_history_recovery_plan(RunEvent::Scanned {
            candidates: 2,
            candidate_limit_reached: false,
        });
        run.run_history_recovery_plan(RunEvent::AttemptFinalized {
            lifecycle: SchedulerLifecycle::Active,
        });
        if attempt == 1 {
            assert_eq!(run.phase, RunPhase::Waiting);
            run.run_history_recovery_plan(RunEvent::DeadlineReached);
        }
    }
    assert_eq!(
        run.phase,
        RunPhase::Done {
            outcome: RunOutcome::Scheduled
        }
    );
}

#[test]
fn run_is_blocked_by_its_policy_at_each_stage() {
    let mut initial = started_run();
    initial.run_history_recovery_plan(prepared(MOBILE));
    assert_eq!(
        initial.phase,
        RunPhase::Done {
            outcome: RunOutcome::Failed {
                error: SchedulerError::PolicyBlocked {
                    stage: PolicyStage::Initial
                }
            }
        }
    );
    let mut later = started_run();
    later.run_history_recovery_plan(prepared(WIFI));
    later.run_history_recovery_plan(RunEvent::AttemptChecked {
        plan_valid: true,
        network: MOBILE,
        power: EXTERNAL,
    });
    assert_eq!(
        later.phase,
        RunPhase::Done {
            outcome: RunOutcome::Failed {
                error: SchedulerError::PolicyBlocked {
                    stage: PolicyStage::BeforeDiscovery
                }
            }
        }
    );
    assert_eq!(PolicyStage::BeforeConnect.as_str(), "before-connect");
}

#[test]
fn scheduler_states_change_only_as_their_lifecycle_allows() {
    assert_eq!(
        prepare_history_recovery_scheduler_state(SchedulerLifecycle::Active, true),
        Ok(SchedulerTransition::Complete)
    );
    assert_eq!(
        prepare_history_recovery_scheduler_state(SchedulerLifecycle::Completed, false),
        Err(SchedulerError::CompleteWithoutCheckpoint)
    );
    assert_eq!(
        cancel_history_recovery_plan(SchedulerLifecycle::Cancelled),
        Ok(SchedulerTransition::Keep)
    );
    assert_eq!(
        cancel_history_recovery_plan(SchedulerLifecycle::Attempting),
        Ok(SchedulerTransition::Cancel)
    );
    assert_eq!(
        cancel_history_recovery_plan(SchedulerLifecycle::Completed),
        Err(SchedulerError::AlreadyCompleted)
    );
    assert_eq!(
        finalize_interrupted_recovery_worker_attempt(SchedulerLifecycle::Attempting),
        SchedulerTransition::RecordFailure
    );
    assert_eq!(
        finalize_expired_recovery_attempt(SchedulerReadiness::Ready),
        Err(SchedulerError::LeaseNotExpired)
    );
    assert_eq!(
        load_required_recovery_scheduler_state(None),
        Err(SchedulerError::NotInitialized)
    );
    let attempting = SchedulerState {
        state_id: digest(3),
        lifecycle: SchedulerLifecycle::Attempting,
    };
    assert_eq!(
        recovery_scheduler_attempt_is_current(attempting, digest(3)),
        Ok(true)
    );
    assert_eq!(
        recovery_scheduler_attempt_is_current(attempting, digest(4)),
        Err(SchedulerError::LeaseReplaced)
    );
    assert_eq!(
        finalize_recovery_scheduler_attempt(
            attempting,
            digest(3),
            SchedulerAttemptResult::Progressed
        ),
        Ok(SchedulerTransition::RecordProgress)
    );
}

#[test]
fn scheduler_deadline_is_slept_in_short_steps() {
    assert_eq!(
        wait_for_recovery_scheduler_deadline(SchedulerReadiness::Ready, 100),
        Ok(DeadlineWait::Over)
    );
    assert_eq!(
        wait_for_recovery_scheduler_deadline(
            SchedulerReadiness::Deferred {
                not_before_unix_seconds: 160
            },
            100
        ),
        Ok(DeadlineWait::Sleep {
            remaining_seconds: 60,
            sleep_seconds: 5
        })
    );
    assert_eq!(
        wait_for_recovery_scheduler_deadline(
            SchedulerReadiness::Deferred {
                not_before_unix_seconds: 100
            },
            100
        ),
        Ok(DeadlineWait::Sleep {
            remaining_seconds: 0,
            sleep_seconds: 1
        })
    );
    assert_eq!(
        wait_for_recovery_scheduler_deadline(SchedulerReadiness::AttemptLeaseExpired, 100),
        Err(SchedulerError::LeaseExpiredWhileWaiting)
    );
}
