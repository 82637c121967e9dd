//! Changing the local state: the lock and the vault mirror around an operation, the transaction
//! that commits or rolls back, and the sequence numbers that a transaction gives out.

use crate::recovery_discovery::utf8_text;
use crate::text::{all_digits, chars_of, decimal_value, same_text, trim, trimmed};
use vstd::prelude::*;

verus! {

/// What the result of an operation and of its vault mirror come to.
#[derive(Clone, Copy, Debug, PartialEq, Eq, Structural)]
pub enum CombinedOutcome {
    Succeeded,
    OperationFailed,
    MirrorFailed,
    BothFailed,
}

/// What the result of an operation and of its vault mirror come to.
pub open spec fn combined(operation_succeeded: bool, mirror_succeeded: bool) -> CombinedOutcome {
    if operation_succeeded && mirror_succeeded {
        CombinedOutcome::Succeeded
    } else if mirror_succeeded {
        CombinedOutcome::OperationFailed
    } else if operation_succeeded {
        CombinedOutcome::MirrorFailed
    } else {
        CombinedOutcome::BothFailed
    }
}

/// What the result of an operation and of its vault mirror come to: success only where both
/// succeeded, and an error of the operation is never hidden by one of the mirror.
pub fn combine_operation_and_mirror<T, E>(operation_result: Result<T, E>, mirror_result: Result<
    (),
    E,
>) -> (r: Result<T, (Option<E>, Option<E>)>)
    ensures
        match (operation_result, mirror_result) {
            (Ok(value), Ok(())) => r == Ok::<T, (Option<E>, Option<E>)>(value),
            (Err(error), Ok(())) => r == Err::<T, (Option<E>, Option<E>)>((Some(error), None)),
            (Ok(_), Err(mirror)) => r == Err::<T, (Option<E>, Option<E>)>((None, Some(mirror))),
            (Err(error), Err(mirror)) => r == Err::<T, (Option<E>, Option<E>)>(
                (Some(error), Some(mirror)),
            ),
        },
{
    match (operation_result, mirror_result) {
        (Ok(value), Ok(())) => Ok(value),
        (Err(error), Ok(())) => Err((Some(error), None)),
        (Ok(_), Err(mirror)) => Err((None, Some(mirror))),
        (Err(error), Err(mirror)) => Err((Some(error), Some(mirror))),
    }
}

/// A step of preparing or finishing the vault mirror.
#[derive(Clone, Copy, Debug, PartialEq, Eq, Structural)]
pub enum GuardStep {
    /// Look whether there is a vault.
    Inspect,
    /// Open the vault.
    Open,
    /// Restore the retained files from a committed checkpoint, where there is one.
    RecoverShadow,
    /// Complete an interrupted mirror, where there is one.
    RecoverDualWrite,
    /// Retire the plaintext device identity.
    RetireIdentity,
    /// Record the intent to mirror.
    BeginIntent,
    /// Open the vault after the operation.
    Reopen,
    /// Restore the retained files before the last mirror, where a checkpoint was committed.
    RecoverShadowAgain,
    /// Mirror the changes.
    CommitMirror,
}

/// What an operation on the local state is doing.
#[derive(Clone, Copy, Debug, PartialEq, Eq, Structural)]
pub enum GuardPhase {
    /// Lock the state directory, and recover an interrupted transaction.
    Locking,
    /// Prepare the vault mirror.
    Preparing { step: GuardStep },
    /// Perform the operation.
    Operating { mirrored: bool },
    /// Finish the vault mirror.
    Finishing { step: GuardStep, operation_succeeded: bool },
    /// The operation was performed.
    Done { outcome: CombinedOutcome },
    /// The operation was not performed.
    Refused,
}

/// How a step ended.
#[derive(Clone, Copy, Debug, PartialEq, Eq, Structural)]
pub enum StepResult {
    Succeeded,
    Failed,
    /// There is no vault.
    NoVault,
}

/// An operation on the local state, with its lock and its vault mirror.
#[derive(Clone, Copy, Debug, PartialEq, Eq, Structural)]
pub struct GuardedOperation {
    pub phase: GuardPhase,
}

impl GuardedOperation {
    /// The phase that follows a step of the preparation that went well.
    pub open spec fn prepared(step: GuardStep) -> GuardPhase {
        match step {
            GuardStep::Inspect => GuardPhase::Preparing { step: GuardStep::Open },
            GuardStep::Open => GuardPhase::Preparing { step: GuardStep::RecoverShadow },
            GuardStep::RecoverShadow => GuardPhase::Preparing { step: GuardStep::RecoverDualWrite },
            GuardStep::RecoverDualWrite => GuardPhase::Preparing {
                step: GuardStep::RetireIdentity,
            },
            GuardStep::RetireIdentity => GuardPhase::Preparing { step: GuardStep::BeginIntent },
            _ => GuardPhase::Operating { mirrored: true },
        }
    }

    /// The phase that follows a step of the end that went well.
    pub open spec fn finished(step: GuardStep, operation_succeeded: bool) -> GuardPhase {
        match step {
            GuardStep::Reopen => GuardPhase::Finishing {
                step: GuardStep::RecoverShadowAgain,
                operation_succeeded,
            },
            GuardStep::RecoverShadowAgain => GuardPhase::Finishing {
                step: GuardStep::CommitMirror,
                operation_succeeded,
            },
            _ => GuardPhase::Done { outcome: combined(operation_succeeded, true) },
        }
    }

    /// What follows the end of a step.
    pub open spec fn next(self, result: StepResult) -> GuardedOperation {
        let phase = match self.phase {
            GuardPhase::Done { .. } => self.phase,
            GuardPhase::Refused => self.phase,
            GuardPhase::Locking => if result == StepResult::Succeeded {
                GuardPhase::Preparing { step: GuardStep::Inspect }
            } else {
                GuardPhase::Refused
            },
            GuardPhase::Preparing { step } => if result == StepResult::Succeeded {
                GuardedOperation::prepared(step)
            } else if result == StepResult::NoVault && step == GuardStep::Inspect {
                GuardPhase::Operating { mirrored: false }
            } else {
                GuardPhase::Refused
            },
            GuardPhase::Operating { mirrored } => if mirrored {
                GuardPhase::Finishing {
                    step: GuardStep::Reopen,
                    operation_succeeded: result == StepResult::Succeeded,
                }
            } else {
                GuardPhase::Done { outcome: combined(result == StepResult::Succeeded, true) }
            },
            GuardPhase::Finishing { step, operation_succeeded } => if result
                == StepResult::Succeeded {
                GuardedOperation::finished(step, operation_succeeded)
            } else {
                GuardPhase::Done { outcome: combined(operation_succeeded, false) }
            },
        };
        GuardedOperation { phase }
    }

    /// Starts with the lock.
    pub fn start() -> (r: GuardedOperation)
        ensures
            r.phase == GuardPhase::Locking,
    {
        GuardedOperation { phase: GuardPhase::Locking }
    }

    /// Takes the end of a step.
    pub fn with_locked_state(&mut self, result: StepResult)
        ensures
            *final(self) == old(self).next(result),
    {
        self.phase =
        match self.phase {
            GuardPhase::Done { outcome } => GuardPhase::Done { outcome },
            GuardPhase::Refused => GuardPhase::Refused,
            GuardPhase::Locking => if result == StepResult::Succeeded {
                GuardPhase::Preparing { step: GuardStep::Inspect }
            } else {
                GuardPhase::Refused
            },
            GuardPhase::Preparing { step } => if result == StepResult::Succeeded {
                match step {
                    GuardStep::Inspect => GuardPhase::Preparing { step: GuardStep::Open },
                    GuardStep::Open => GuardPhase::Preparing { step: GuardStep::RecoverShadow },
                    GuardStep::RecoverShadow => GuardPhase::Preparing {
                        step: GuardStep::RecoverDualWrite,
                    },
                    GuardStep::RecoverDualWrite => GuardPhase::Preparing {
                        step: GuardStep::RetireIdentity,
                    },
                    GuardStep::RetireIdentity => GuardPhase::Preparing {
                        step: GuardStep::BeginIntent,
                    },
                    _ => GuardPhase::Operating { mirrored: true },
                }
            } else if result == StepResult::NoVault && step == GuardStep::Inspect {
                GuardPhase::Operating { mirrored: false }
            } else {
                GuardPhase::Refused
            },
            GuardPhase::Operating { mirrored } => if mirrored {
                GuardPhase::Finishing {
                    step: GuardStep::Reopen,
                    operation_succeeded: result == StepResult::Succeeded,
                }
            } else if result == StepResult::Succeeded {
                GuardPhase::Done { outcome: CombinedOutcome::Succeeded }
            } else {
                GuardPhase::Done { outcome: CombinedOutcome::OperationFailed }
            },
            GuardPhase::Finishing { step, operation_succeeded } => if result
                == StepResult::Succeeded {
                match step {
                    GuardStep::Reopen => GuardPhase::Finishing {
                        step: GuardStep::RecoverShadowAgain,
                        operation_succeeded,
                    },
                    GuardStep::RecoverShadowAgain => GuardPhase::Finishing {
                        step: GuardStep::CommitMirror,
                        operation_succeeded,
                    },
                    _ => if operation_succeeded {
                        GuardPhase::Done { outcome: CombinedOutcome::Succeeded }
                    } else {
                        GuardPhase::Done { outcome: CombinedOutcome::OperationFailed }
                    },
                }
            } else if operation_succeeded {
                GuardPhase::Done { outcome: CombinedOutcome::MirrorFailed }
            } else {
                GuardPhase::Done { outcome: CombinedOutcome::BothFailed }
            },
        };
    }
}

/// An operation runs only once the state is locked and, where there is a vault, the intent to
/// mirror is recorded; and it counts as a success only where its mirror was committed.
pub proof fn operation_is_mirrored(guarded: GuardedOperation, result: StepResult)
    requires
        guarded.phase != guarded.next(result).phase,
    ensures
        guarded.next(result).phase == (GuardPhase::Operating { mirrored: true }) ==> result
            == StepResult::Succeeded && guarded.phase is Preparing,
        guarded.next(result).phase == (GuardPhase::Operating { mirrored: false }) ==> guarded.phase
            == (GuardPhase::Preparing { step: GuardStep::Inspect }) && result
            == StepResult::NoVault,
        guarded.next(result).phase == (GuardPhase::Done { outcome: CombinedOutcome::Succeeded })
            ==> result == StepResult::Succeeded && (guarded.phase == (GuardPhase::Operating {
            mirrored: false,
        }) || (guarded.phase matches GuardPhase::Finishing { operation_succeeded, .. }
            && operation_succeeded)),
{
}

/// What a transaction is doing.
#[derive(Clone, Copy, Debug, PartialEq, Eq, Structural)]
pub enum TransactionPhase {
    /// Begin the transaction.
    Beginning,
    /// Perform the operation.
    Operating,
    /// Commit the staged state to the vault, where there is one.
    CommittingPrimary,
    /// Commit the local files.
    CommittingLocal { primary: bool },
    /// Confirm that the retained files follow the vault.
    Confirming,
    /// Roll the local files back.
    RollingBack { primary_failed: bool },
    /// Nothing more.
    Ended { outcome: TransactionOutcome },
}

/// How a transaction ended.
#[derive(Clone, Copy, Debug, PartialEq, Eq, Structural)]
pub enum TransactionOutcome {
    Committed,
    NotBegun,
    OperationFailed { rolled_back: bool },
    PrimaryCommitFailed { rolled_back: bool },
    LocalCommitFailed,
    ConfirmationFailed,
}

/// A transaction on the local state.
#[derive(Clone, Copy, Debug, PartialEq, Eq, Structural)]
pub struct TransactionRun {
    pub phase: TransactionPhase,
}

impl TransactionRun {
    /// What follows the end of a phase.
    pub open spec fn next(self, result: StepResult) -> TransactionRun {
        let succeeded = result == StepResult::Succeeded;
        let phase = match self.phase {
            TransactionPhase::Ended { .. } => self.phase,
            TransactionPhase::Beginning => if succeeded {
                TransactionPhase::Operating
            } else {
                TransactionPhase::Ended { outcome: TransactionOutcome::NotBegun }
            },
            TransactionPhase::Operating => if succeeded {
                TransactionPhase::CommittingPrimary
            } else {
                TransactionPhase::RollingBack { primary_failed: false }
            },
            TransactionPhase::CommittingPrimary => match result {
                StepResult::Succeeded => TransactionPhase::CommittingLocal { primary: true },
                StepResult::NoVault => TransactionPhase::CommittingLocal { primary: false },
                StepResult::Failed => TransactionPhase::RollingBack { primary_failed: true },
            },
            TransactionPhase::CommittingLocal { primary } => if !succeeded {
                TransactionPhase::Ended { outcome: TransactionOutcome::LocalCommitFailed }
            } else if primary {
                TransactionPhase::Confirming
            } else {
                TransactionPhase::Ended { outcome: TransactionOutcome::Committed }
            },
            TransactionPhase::Confirming => TransactionPhase::Ended {
                outcome: if succeeded {
                    TransactionOutcome::Committed
                } else {
                    TransactionOutcome::ConfirmationFailed
                },
            },
            TransactionPhase::RollingBack { primary_failed } => TransactionPhase::Ended {
                outcome: if primary_failed {
                    TransactionOutcome::PrimaryCommitFailed { rolled_back: succeeded }
                } else {
                    TransactionOutcome::OperationFailed { rolled_back: succeeded }
                },
            },
        };
        TransactionRun { phase }
    }

    /// Starts with the beginning.
    pub fn start() -> (r: TransactionRun)
        ensures
            r.phase == TransactionPhase::Beginning,
    {
        TransactionRun { phase: TransactionPhase::Beginning }
    }

    /// Takes the end of a phase.
    pub fn run_state_transaction(&mut self, result: StepResult)
        ensures
            *final(self) == old(self).next(result),
    {
        let succeeded = result == StepResult::Succeeded;
        self.phase =
        match self.phase {
            TransactionPhase::Ended { outcome } => TransactionPhase::Ended { outcome },
            TransactionPhase::Beginning => if succeeded {
                TransactionPhase::Operating
            } else {
                TransactionPhase::Ended { outcome: TransactionOutcome::NotBegun }
            },
            TransactionPhase::Operating => if succeeded {
                TransactionPhase::CommittingPrimary
            } else {
                TransactionPhase::RollingBack { primary_failed: false }
            },
            TransactionPhase::CommittingPrimary => match result {
                StepResult::Succeeded => TransactionPhase::CommittingLocal { primary: true },
                StepResult::NoVault => TransactionPhase::CommittingLocal { primary: false },
                StepResult::Failed => TransactionPhase::RollingBack { primary_failed: true },
            },
            TransactionPhase::CommittingLocal { primary } => if !succeeded {
                TransactionPhase::Ended { outcome: TransactionOutcome::LocalCommitFailed }
            } else if primary {
                TransactionPhase::Confirming
            } else {
                TransactionPhase::Ended { outcome: TransactionOutcome::Committed }
            },
            TransactionPhase::Confirming => if succeeded {
                TransactionPhase::Ended { outcome: TransactionOutcome::Committed }
            } else {
                TransactionPhase::Ended { outcome: TransactionOutcome::ConfirmationFailed }
            },
            TransactionPhase::RollingBack { primary_failed } => if primary_failed {
                TransactionPhase::Ended {
                    outcome: TransactionOutcome::PrimaryCommitFailed { rolled_back: succeeded },
                }
            } else {
                TransactionPhase::Ended {
                    outcome: TransactionOutcome::OperationFailed { rolled_back: succeeded },
                }
            },
        };
    }
}

/// Local files are committed only after the operation succeeded and the vault, where there is
/// one, took the staged state; and an operation or a vault commit that fails is always followed
/// by a rollback.
pub proof fn transaction_commits_vault_first(run: TransactionRun, result: StepResult)
    ensures
        run.phase !is CommittingLocal && run.next(result).phase is CommittingLocal ==> run.phase
            == TransactionPhase::CommittingPrimary && result != StepResult::Failed,
        run.next(result).phase == TransactionPhase::CommittingPrimary ==> run.phase
            == TransactionPhase::Operating && result == StepResult::Succeeded,
        run.phase == TransactionPhase::Operating && result != StepResult::Succeeded ==> run.next(
            result,
        ).phase is RollingBack,
        run.phase == TransactionPhase::CommittingPrimary && result == StepResult::Failed
            ==> run.next(result).phase is RollingBack,
        run.phase is RollingBack ==> (run.next(result).phase matches TransactionPhase::Ended {
            outcome,
        } && outcome != TransactionOutcome::Committed),
{
}

/// Where a transaction stages a repository from before it changes it.
#[derive(Clone, Copy, Debug, PartialEq, Eq, Structural)]
pub enum WorkspaceSource {
    /// It is staged already.
    Staged,
    Vault,
    Filesystem,
}

/// Which repositories a transaction has staged.
#[derive(Clone, Copy, Debug, PartialEq, Eq, Structural)]
pub struct TransactionWorkspaces {
    pub ratchet_prepared: bool,
    pub trust_prepared: bool,
}

/// Where a repository is staged from.
pub open spec fn workspace_source(prepared: bool, has_vault: bool) -> WorkspaceSource {
    if prepared {
        WorkspaceSource::Staged
    } else if has_vault {
        WorkspaceSource::Vault
    } else {
        WorkspaceSource::Filesystem
    }
}

impl TransactionWorkspaces {
    /// Starts with nothing staged.
    pub fn new() -> (r: TransactionWorkspaces)
        ensures
            r == (TransactionWorkspaces { ratchet_prepared: false, trust_prepared: false }),
    {
        TransactionWorkspaces { ratchet_prepared: false, trust_prepared: false }
    }

    /// Where the ratchet state is staged from: once in a transaction, and from the vault where
    /// there is one.
    pub fn load_ratchet_state(&mut self, has_vault: bool) -> (r: WorkspaceSource)
        ensures
            r == workspace_source(old(self).ratchet_prepared, has_vault),
            *final(self) == (TransactionWorkspaces { ratchet_prepared: true, ..*old(self) }),
    {
        if self.ratchet_prepared {
            return WorkspaceSource::Staged;
        }
        self.ratchet_prepared = true;
        if has_vault {
            WorkspaceSource::Vault
        } else {
            WorkspaceSource::Filesystem
        }
    }

    /// Where the trust records are staged from: once in a transaction, and from the vault where
    /// there is one.
    pub fn prepare_trust_workspace(&mut self, has_vault: bool) -> (r: WorkspaceSource)
        ensures
            r == workspace_source(old(self).trust_prepared, has_vault),
            *final(self) == (TransactionWorkspaces { trust_prepared: true, ..*old(self) }),
    {
        if self.trust_prepared {
            return WorkspaceSource::Staged;
        }
        self.trust_prepared = true;
        if has_vault {
            WorkspaceSource::Vault
        } else {
            WorkspaceSource::Filesystem
        }
    }
}

/// Why no sequence number is given out.
#[derive(Clone, Copy, Debug, PartialEq, Eq, Structural)]
pub enum SequenceError {
    SourceUnloaded,
    MoreThanOneRecord,
    UnexpectedRecord,
    NotUtf8,
    NotANumber,
    AllocationFailed,
    Exhausted,
}

/// Where a transaction takes sequence numbers from.
#[derive(Clone, Copy, Debug, PartialEq, Eq, Structural)]
pub enum TransactionSequenceSource {
    Unloaded,
    Filesystem,
    Vault { next: u64 },
}

/// The number that a text stands for in decimal: an optional plus sign and at least one digit,
/// not above the largest 64-bit number.
pub open spec fn parsed_number(text: Seq<char>) -> Option<u64> {
    let digits = if text.len() > 0 && text[0] == '+' {
        text.drop_first()
    } else {
        text
    };
    if digits.len() == 0 || !all_digits(digits) || decimal_value(digits) > u64::MAX {
        None
    } else {
        Some(decimal_value(digits) as u64)
    }
}

proof fn lemma_value_grows(digits: Seq<char>, i: int)
    requires
        0 <= i <= digits.len(),
        all_digits(digits),
    ensures
        decimal_value(digits.take(i)) <= decimal_value(digits),
    decreases digits.len() - i,
{
    if i < digits.len() {
        lemma_value_grows(digits, i + 1);
        assert(digits.take(i + 1).drop_last() =~= digits.take(i));
        assert(digits.take(i + 1).last() == digits[i]);
    } else {
        assert(digits.take(i) =~= digits);
    }
}

fn digits_value(digits: &[char]) -> (r: Option<u64>)
    ensures
        r == if digits@.len() == 0 || !all_digits(digits@) || decimal_value(digits@) > u64::MAX {
            None::<u64>
        } else {
            Some(decimal_value(digits@) as u64)
        },
{
    if digits.len() == 0 {
        return None;
    }
    let mut value: u64 = 0;
    let mut i: usize = 0;
    proof {
        assert(digits@.take(0) =~= Seq::empty());
    }
    while i < digits.len()
        invariant
            i <= digits@.len(),
            all_digits(digits@.take(i as int)),
            value == decimal_value(digits@.take(i as int)),
        decreases digits@.len() - i,
    {
        let c = digits[i];
        if c < '0' || c > '9' {
            proof {
                assert(digits@[i as int] == c);
            }
            return None;
        }
        let digit: u64 = c as u64 - '0' as u64;
        proof {
            let next = digits@.take(i + 1);
            assert(next.drop_last() =~= digits@.take(i as int));
            assert(next.last() == c);
            assert(all_digits(next));
            if all_digits(digits@) {
                lemma_value_grows(digits@, i + 1);
            }
        }
        value =
        match value.checked_mul(10) {
            Some(shifted) => match shifted.checked_add(digit) {
                Some(sum) => sum,
                None => return None,
            },
            None => return None,
        };
        i += 1;
    }
    proof {
        assert(digits@.take(i as int) =~= digits@);
    }
    Some(value)
}

/// The number that a text stands for in decimal.
pub fn parse_number(text: &str) -> (r: Option<u64>)
    ensures
        r == parsed_number(text@),
{
    let chars = chars_of(text);
    if chars.len() > 0 && chars[0] == '+' {
        let mut digits: Vec<char> = Vec::new();
        let mut i: usize = 1;
        while i < chars.len()
            invariant
                1 <= i <= chars@.len(),
                digits@ == chars@.subrange(1, i as int),
            decreases chars@.len() - i,
        {
            digits.push(chars[i]);
            proof {
                assert(chars@.subrange(1, i + 1) =~= chars@.subrange(1, i as int).push(
                    chars@[i as int],
                ));
            }
            i += 1;
        }
        proof {
            assert(chars@.drop_first() =~= chars@.subrange(1, i as int));
        }
        digits_value(digits.as_slice())
    } else {
        digits_value(chars.as_slice())
    }
}

/// A record of the vault's sequence repository.
pub struct SequenceRecord {
    pub is_sequence: bool,
    pub relative_path: String,
    pub content: Vec<u8>,
}

/// The next number that the records of the sequence repository give, or what is wrong with
/// them.
pub open spec fn stored_sequence(records: Seq<SequenceRecord>) -> Result<u64, SequenceError> {
    if records.len() > 1 {
        Err(SequenceError::MoreThanOneRecord)
    } else if records.len() == 0 {
        Ok(0)
    } else if !records[0].is_sequence || records[0].relative_path@ != "next-sequence"@ {
        Err(SequenceError::UnexpectedRecord)
    } else if !vstd::utf8::valid_utf8(records[0].content@) {
        Err(SequenceError::NotUtf8)
    } else {
        match parsed_number(trimmed(vstd::utf8::decode_utf8(records[0].content@))) {
            Some(next) => Ok(next),
            None => Err(SequenceError::NotANumber),
        }
    }
}

impl TransactionSequenceSource {
    /// The source after a number of the vault was given out.
    pub open spec fn advanced(self) -> TransactionSequenceSource {
        match self {
            TransactionSequenceSource::Vault { next } => TransactionSequenceSource::Vault {
                next: (next + 1) as u64,
            },
            _ => self,
        }
    }

    /// The source after some numbers of the vault were given out.
    pub open spec fn advanced_by(self, count: nat) -> TransactionSequenceSource
        decreases count,
    {
        if count == 0 {
            self
        } else {
            self.advanced_by((count - 1) as nat).advanced()
        }
    }

    /// The source that a transaction loads: the retained files where there is no vault, and else
    /// the vault's sequence repository.
    pub fn load_sequence_source(vault_records: Option<&[SequenceRecord]>) -> (r: Result<
        TransactionSequenceSource,
        SequenceError,
    >)
        ensures
            r == match vault_records {
                None => Ok::<TransactionSequenceSource, SequenceError>(
                    TransactionSequenceSource::Filesystem,
                ),
                Some(records) => match stored_sequence(records@) {
                    Ok(next) => Ok(TransactionSequenceSource::Vault { next }),
                    Err(error) => Err(error),
                },
            },
    {
        let records = match vault_records {
            None => return Ok(TransactionSequenceSource::Filesystem),
            Some(records) => records,
        };
        if records.len() > 1 {
            return Err(SequenceError::MoreThanOneRecord);
        }
        if records.len() == 0 {
            return Ok(TransactionSequenceSource::Vault { next: 0 });
        }
        let record = &records[0];
        if !record.is_sequence || !same_text(record.relative_path.as_str(), "next-sequence") {
            return Err(SequenceError::UnexpectedRecord);
        }
        let text = match utf8_text(record.content.as_slice()) {
            Some(text) => text,
            None => return Err(SequenceError::NotUtf8),
        };
        match parse_number(trim(text.as_str()).as_str()) {
            Some(next) => Ok(TransactionSequenceSource::Vault { next }),
            None => Err(SequenceError::NotANumber),
        }
    }

    /// The number that the device state is asked to allocate from, where it comes from the
    /// vault.
    pub fn vault_number(&self) -> (r: Option<u64>)
        ensures
            r == match *self {
                TransactionSequenceSource::Vault { next } => Some(next),
                _ => None,
            },
    {
        match self {
            TransactionSequenceSource::Vault { next } => Some(*next),
            _ => None,
        }
    }

    /// Gives out a sequence number, given what the device state allocated: from the retained
    /// files, the number that it gave; from the vault, the number that it was asked for.
    pub fn allocate_sequence(&mut self, allocated: Option<u64>) -> (r: Result<u64, SequenceError>)
        ensures
            match *old(self) {
                TransactionSequenceSource::Unloaded => r == Err::<u64, SequenceError>(
                    SequenceError::SourceUnloaded,
                ) && *final(self) == *old(self),
                TransactionSequenceSource::Filesystem => *final(self) == *old(self) && r
                    == match allocated {
                    Some(number) => Ok::<u64, SequenceError>(number),
                    None => Err(SequenceError::AllocationFailed),
                },
                TransactionSequenceSource::Vault { next } => if allocated is None {
                    r == Err::<u64, SequenceError>(SequenceError::AllocationFailed) && *final(self)
                        == *old(self)
                } else if next == u64::MAX {
                    r == Err::<u64, SequenceError>(SequenceError::Exhausted) && *final(self)
                        == *old(self)
                } else {
                    r == Ok::<u64, SequenceError>(next) && *final(self) == old(self).advanced()
                },
            },
    {
        match *self {
            TransactionSequenceSource::Unloaded => Err(SequenceError::SourceUnloaded),
            TransactionSequenceSource::Filesystem => match allocated {
                Some(number) => Ok(number),
                None => Err(SequenceError::AllocationFailed),
            },
            TransactionSequenceSource::Vault { next } => {
                if allocated.is_none() {
                    return Err(SequenceError::AllocationFailed);
                }
                match next.checked_add(1) {
                    None => Err(SequenceError::Exhausted),
                    Some(following) => {
                        *self = TransactionSequenceSource::Vault { next: following };
                        Ok(next)
                    },
                }
            },
        }
    }
}

/// The numbers that a transaction gives out of the vault are consecutive: after `count` of them
/// the next one is the first one plus `count`, so none is given out twice.
pub proof fn sequence_numbers_are_consecutive(next: u64, count: nat)
    requires
        next + count <= u64::MAX,
    ensures
        (TransactionSequenceSource::Vault { next }).advanced_by(count) == (
        TransactionSequenceSource::Vault { next: (next + count) as u64 }),
    decreases count,
{
    if count > 0 {
        sequence_numbers_are_consecutive(next, (count - 1) as nat);
    }
}

/// The outcome of an operation and its mirror tells of each whether it succeeded.
pub proof fn outcome_tells_both(operation_succeeded: bool, mirror_succeeded: bool)
    ensures
        ({
            let outcome = combined(operation_succeeded, mirror_succeeded);
            &&& outcome == CombinedOutcome::Succeeded || outcome == CombinedOutcome::MirrorFailed
                <==> operation_succeeded
            &&& outcome == CombinedOutcome::Succeeded || outcome == CombinedOutcome::OperationFailed
                <==> mirror_succeeded
            &&& outcome == CombinedOutcome::BothFailed <==> !operation_succeeded
                && !mirror_succeeded
        }),
{
}

/// A guarded operation is prepared, performed and mirrored step by step, each step exactly after
/// the one before went well. It is refused exactly where a step before the operation fails, and
/// what is reported is how the operation and its mirror went.
pub proof fn guarded_operation_goes_step_by_step(guarded: GuardedOperation, result: StepResult)
    ensures
        ({
            let (before, after) = (guarded.phase, guarded.next(result).phase);
            let well = result == StepResult::Succeeded;
            let at = |step: GuardStep| before == (GuardPhase::Preparing { step });
            let to = |step: GuardStep| after == (GuardPhase::Preparing { step });
            &&& before is Done || before is Refused ==> after == before
            &&& before is Locking || before is Preparing ==> {
                &&& to(GuardStep::Inspect) <==> before is Locking && well
                &&& to(GuardStep::Open) <==> at(GuardStep::Inspect) && well
                &&& to(GuardStep::RecoverShadow) <==> at(GuardStep::Open) && well
                &&& to(GuardStep::RecoverDualWrite) <==> at(GuardStep::RecoverShadow) && well
                &&& to(GuardStep::RetireIdentity) <==> at(GuardStep::RecoverDualWrite) && well
                &&& to(GuardStep::BeginIntent) <==> at(GuardStep::RetireIdentity) && well
                &&& after is Refused <==> !well && !(at(GuardStep::Inspect) && result
                    == StepResult::NoVault)
                &&& at(GuardStep::BeginIntent) && well ==> after == (GuardPhase::Operating {
                    mirrored: true,
                })
                &&& at(GuardStep::Inspect) && result == StepResult::NoVault ==> after == (
                GuardPhase::Operating { mirrored: false })
            }
            &&& before matches GuardPhase::Operating { mirrored } ==> after == if mirrored {
                GuardPhase::Finishing { step: GuardStep::Reopen, operation_succeeded: well }
            } else if well {
                GuardPhase::Done { outcome: CombinedOutcome::Succeeded }
            } else {
                GuardPhase::Done { outcome: CombinedOutcome::OperationFailed }
            }
            &&& before matches GuardPhase::Finishing { step, operation_succeeded } ==> {
                &&& after == (GuardPhase::Finishing {
                    step: GuardStep::RecoverShadowAgain,
                    operation_succeeded,
                }) <==> step == GuardStep::Reopen && well
                &&& after == (GuardPhase::Finishing {
                    step: GuardStep::CommitMirror,
                    operation_succeeded,
                }) <==> step == GuardStep::RecoverShadowAgain && well
                &&& !well ==> after == (GuardPhase::Done {
                    outcome: if operation_succeeded {
                        CombinedOutcome::MirrorFailed
                    } else {
                        CombinedOutcome::BothFailed
                    },
                })
                &&& step == GuardStep::CommitMirror && well ==> after == (GuardPhase::Done {
                    outcome: if operation_succeeded {
                        CombinedOutcome::Succeeded
                    } else {
                        CombinedOutcome::OperationFailed
                    },
                })
            }
        }),
{
}

/// A transaction goes on exactly as its steps ended, and its outcome tells which step failed and
/// whether it was rolled back; it is committed exactly where its last step went well.
pub proof fn transaction_goes_step_by_step(run: TransactionRun, result: StepResult)
    requires
        run.phase !is Ended,
    ensures
        ({
            let (before, after) = (run.phase, run.next(result).phase);
            let well = result == StepResult::Succeeded;
            let ended = |outcome: TransactionOutcome| after
                == (TransactionPhase::Ended { outcome });
            &&& after == TransactionPhase::Operating <==> before == TransactionPhase::Beginning
                && well
            &&& after == TransactionPhase::CommittingPrimary <==> before
                == TransactionPhase::Operating && well
            &&& after == (TransactionPhase::CommittingLocal { primary: true }) <==> before
                == TransactionPhase::CommittingPrimary && well
            &&& after == (TransactionPhase::CommittingLocal { primary: false }) <==> before
                == TransactionPhase::CommittingPrimary && result == StepResult::NoVault
            &&& after == TransactionPhase::Confirming <==> before == (
            TransactionPhase::CommittingLocal { primary: true }) && well
            &&& after == (TransactionPhase::RollingBack { primary_failed: true }) <==> before
                == TransactionPhase::CommittingPrimary && result == StepResult::Failed
            &&& after == (TransactionPhase::RollingBack { primary_failed: false }) <==> before
                == TransactionPhase::Operating && !well
            &&& ended(TransactionOutcome::Committed) <==> well && (before
                == TransactionPhase::Confirming || before == (TransactionPhase::CommittingLocal {
                primary: false,
            }))
            &&& ended(TransactionOutcome::NotBegun) <==> before == TransactionPhase::Beginning
                && !well
            &&& ended(TransactionOutcome::LocalCommitFailed) <==> before is CommittingLocal && !well
            &&& ended(TransactionOutcome::ConfirmationFailed) <==> before
                == TransactionPhase::Confirming && !well
            &&& ended(TransactionOutcome::OperationFailed { rolled_back: well }) <==> before == (
            TransactionPhase::RollingBack { primary_failed: false })
            &&& ended(TransactionOutcome::PrimaryCommitFailed { rolled_back: well }) <==> before
                == (TransactionPhase::RollingBack { primary_failed: true })
            &&& !ended(TransactionOutcome::OperationFailed { rolled_back: !well })
            &&& !ended(TransactionOutcome::PrimaryCommitFailed { rolled_back: !well })
        }),
{
}

/// A transaction that ended stays as it ended.
pub proof fn ended_transaction_stays(run: TransactionRun, result: StepResult)
    requires
        run.phase is Ended,
    ensures
        run.next(result) == run,
{
}

/// A workspace is taken from where it is staged, else from the vault where there is one, and from
/// the files exactly where there is neither.
pub proof fn workspace_comes_from_the_nearest(prepared: bool, has_vault: bool)
    ensures
        workspace_source(prepared, has_vault) == WorkspaceSource::Staged <==> prepared,
        workspace_source(prepared, has_vault) == WorkspaceSource::Vault <==> !prepared && has_vault,
        workspace_source(prepared, has_vault) == WorkspaceSource::Filesystem <==> !prepared
            && !has_vault,
{
}

/// A number is read back from its decimal text, with or without a sign and with zeros in front.
/// What is read as a number is digits, behind a plus sign perhaps.
pub proof fn number_reads_back(n: u64, width: nat, text: Seq<char>)
    ensures
        parsed_number(crate::text::padded_decimal(n as nat, width)) == Some(n),
        parsed_number(seq!['+'] + crate::text::padded_decimal(n as nat, width)) == Some(n),
        text.len() == 0 ==> parsed_number(text) is None,
        text.len() > 0 && text[0] != '+' ==> (parsed_number(text) is Some <==> all_digits(text)
            && decimal_value(text) <= u64::MAX),
        text.len() > 0 && text[0] != '+' && parsed_number(text) is Some ==> parsed_number(text)->0
            == decimal_value(text),
        parsed_number(seq!['+']) is None,
        text.len() > 0 && text[0] == '+' ==> parsed_number(seq!['+'] + text) is None,
{
    let digits = crate::text::padded_decimal(n as nat, width);
    crate::text::padded_decimal_reads_back(n as nat, width);
    crate::text::decimal_reads_back(n as nat);
    assert(digits.len() > 0);
    assert('0' <= digits[0] <= '9');
    assert((seq!['+'] + digits).drop_first() =~= digits);
    assert((seq!['+'] + text).drop_first() =~= text);
    if text.len() > 0 && text[0] == '+' {
        assert(!('0' <= text[0] <= '9'));
    }
}

/// A stored sequence is read exactly where there is no record, and then it is zero, or one record
/// of it at its place whose text is a number. What is wrong names the error.
pub proof fn stored_sequence_is_one_number(records: Seq<SequenceRecord>)
    ensures
        ({
            let found = stored_sequence(records);
            let record = records[0];
            let in_place = record.is_sequence && record.relative_path@ == "next-sequence"@;
            let readable = vstd::utf8::valid_utf8(record.content@);
            let number = parsed_number(trimmed(vstd::utf8::decode_utf8(record.content@)));
            &&& records.len() == 0 ==> found == Ok::<u64, SequenceError>(0)
            &&& found == Err::<u64, SequenceError>(SequenceError::MoreThanOneRecord)
                <==> records.len() > 1
            &&& found == Err::<u64, SequenceError>(SequenceError::UnexpectedRecord)
                <==> records.len() == 1 && !in_place
            &&& found == Err::<u64, SequenceError>(SequenceError::NotUtf8) <==> records.len() == 1
                && in_place && !readable
            &&& found == Err::<u64, SequenceError>(SequenceError::NotANumber) <==> records.len()
                == 1 && in_place && readable && number is None
            &&& records.len() == 1 && in_place && readable && number is Some ==> found == Ok::<
                u64,
                SequenceError,
            >(number->0)
        }),
{
}

/// Only a sequence that the vault keeps is counted on.
pub proof fn other_sequences_stay(count: nat)
    ensures
        TransactionSequenceSource::Unloaded.advanced_by(count)
            == TransactionSequenceSource::Unloaded,
        TransactionSequenceSource::Filesystem.advanced_by(count)
            == TransactionSequenceSource::Filesystem,
    decreases count,
{
    if count > 0 {
        other_sequences_stay((count - 1) as nat);
    }
}

} // verus!
