//! Reading the vault's repositories: the trust records, the immutable history, and the
//! passphrase that protects an exported key.

use crate::identity::{AuthoritySnapshot, DeviceCertificate};
use crate::ids::{ConversationId, DeviceId, Digest};
use crate::text::{
    beginnings_and_endings, begins_with, chars_of, hex, same_text, starts_with, text_of,
};
use vstd::prelude::*;

verus! {

/// The most bytes that a passphrase file may have.
pub const MAX_RECOVERY_PASSPHRASE_FILE_BYTES: u64 = 4_098;

/// Why a vault repository or a passphrase file is refused.
#[derive(Clone, Copy, Debug, PartialEq, Eq, Structural)]
pub enum VaultError {
    PassphraseIsSymlink,
    PassphraseNotAFile,
    PassphraseTooLarge,
    NotATrustRecord { index: usize },
    DuplicateTrustRecord { index: usize },
    TrustRecordMissing,
    CertificateOfAnotherDevice,
    CertificateWithAnotherKey,
    AuthorityUnverified,
    CertificateOutsideAuthority,
    MembershipOfAnotherConversation,
    PrefixMissing,
    UnexpectedRecord { index: usize },
}

/// Tests a passphrase file before it is read.
pub fn check_passphrase_file(is_symlink: bool, is_file: bool, bytes: u64) -> (r: Result<
    (),
    VaultError,
>)
    ensures
        r == if is_symlink {
            Err(VaultError::PassphraseIsSymlink)
        } else if !is_file {
            Err(VaultError::PassphraseNotAFile)
        } else if bytes > MAX_RECOVERY_PASSPHRASE_FILE_BYTES {
            Err(VaultError::PassphraseTooLarge)
        } else {
            Ok::<(), VaultError>(())
        },
{
    if is_symlink {
        return Err(VaultError::PassphraseIsSymlink);
    }
    if !is_file {
        return Err(VaultError::PassphraseNotAFile);
    }
    if bytes > MAX_RECOVERY_PASSPHRASE_FILE_BYTES {
        return Err(VaultError::PassphraseTooLarge);
    }
    Ok(())
}

/// The passphrase of a file's bytes: all of them but one line ending at the end.
pub open spec fn passphrase(bytes: Seq<u8>) -> Seq<u8> {
    let n = bytes.len() as int;
    if n >= 2 && bytes[n - 2] == 13 && bytes[n - 1] == 10 {
        bytes.take(n - 2)
    } else if n >= 1 && bytes[n - 1] == 10 {
        bytes.take(n - 1)
    } else {
        bytes
    }
}

/// How many of a passphrase file's bytes are the passphrase.
pub fn read_recovery_passphrase(bytes: &[u8]) -> (r: usize)
    ensures
        r <= bytes@.len(),
        bytes@.take(r as int) == passphrase(bytes@),
{
    let n: usize = bytes.len();
    let length: usize = if n >= 2 && bytes[n - 2] == 13 && bytes[n - 1] == 10 {
        n - 2
    } else if n >= 1 && bytes[n - 1] == 10 {
        n - 1
    } else {
        n
    };
    proof {
        assert(bytes@.take(n as int) =~= bytes@);
    }
    length
}

/// A record that was read from the vault.
pub struct VaultRecord {
    pub kind: VaultRecordKind,
    pub relative_path: String,
    pub content: Vec<u8>,
}

/// The kinds of records that are told apart.
#[derive(Clone, Copy, Debug, PartialEq, Eq, Structural)]
pub enum VaultRecordKind {
    Trust,
    Event,
    LocalProjection,
    Other,
}

/// The trust records of a command: those of the retained files are read one by one, those of
/// the vault are held.
pub enum TrustReadSource {
    Filesystem,
    Vault { records: Vec<VaultRecord> },
}

/// The first reason for which some records are not the vault's trust repository: record by
/// record, one of another kind or one whose path occurred before.
pub open spec fn trust_fault(records: Seq<VaultRecord>) -> Option<VaultError>
    decreases records.len(),
{
    if records.len() == 0 {
        None
    } else {
        let last = records.len() - 1;
        match trust_fault(records.drop_last()) {
            Some(error) => Some(error),
            None => if records[last].kind != VaultRecordKind::Trust {
                Some(VaultError::NotATrustRecord { index: last as usize })
            } else if path_occurs(records, records[last].relative_path@, last) {
                Some(VaultError::DuplicateTrustRecord { index: last as usize })
            } else {
                None
            },
        }
    }
}

/// A path occurs among the first `before` records.
pub open spec fn path_occurs(records: Seq<VaultRecord>, path: Seq<char>, before: int) -> bool {
    exists|i: int| 0 <= i < before && (#[trigger] records[i]).relative_path@ == path
}

proof fn lemma_trust_fault_of_prefix(records: Seq<VaultRecord>, n: int)
    requires
        0 <= n <= records.len(),
        trust_fault(records.take(n)) is Some,
    ensures
        trust_fault(records) == trust_fault(records.take(n)),
    decreases records.len() - n,
{
    if n == records.len() {
        assert(records.take(n) =~= records);
    } else {
        assert(records.take(n + 1).drop_last() =~= records.take(n));
        lemma_trust_fault_of_prefix(records, n + 1);
    }
}

fn occurs_before(records: &Vec<VaultRecord>, path: &str, before: usize) -> (r: bool)
    requires
        before <= records@.len(),
    ensures
        r == path_occurs(records@, path@, before as int),
{
    let mut i: usize = 0;
    while i < before
        invariant
            i <= before <= records@.len(),
            forall|j: int| 0 <= j < i ==> (#[trigger] records@[j]).relative_path@ != path@,
        decreases before - i,
    {
        if same_text(records[i].relative_path.as_str(), path) {
            return true;
        }
        i += 1;
    }
    false
}

impl TrustReadSource {
    /// What the source keeps: the records of the vault are trust records, each at a path of its
    /// own.
    pub open spec fn wf(self) -> bool {
        match self {
            TrustReadSource::Filesystem => true,
            TrustReadSource::Vault { records } => trust_fault(records@) is None,
        }
    }

    /// Opens the trust repository: the retained files where there is no vault.
    pub fn open(vault_records: Option<Vec<VaultRecord>>) -> (r: Result<TrustReadSource, VaultError>)
        ensures
            match vault_records {
                None => r == Ok::<TrustReadSource, VaultError>(TrustReadSource::Filesystem),
                Some(records) => match trust_fault(records@) {
                    Some(error) => r == Err::<TrustReadSource, VaultError>(error),
                    None => r == Ok::<TrustReadSource, VaultError>(
                        TrustReadSource::Vault { records },
                    ) && r->Ok_0.wf(),
                },
            },
    {
        let records = match vault_records {
            None => return Ok(TrustReadSource::Filesystem),
            Some(records) => records,
        };
        let mut i: usize = 0;
        proof {
            assert(records@.take(0) =~= Seq::empty());
        }
        while i < records.len()
            invariant
                vault_records == Some(records),
                i <= records@.len(),
                trust_fault(records@.take(i as int)) is None,
            decreases records@.len() - i,
        {
            proof {
                let next = records@.take(i + 1);
                assert(next.drop_last() =~= records@.take(i as int));
                assert(next[i as int] == records@[i as int]);
                let path = records@[i as int].relative_path@;
                assert(path_occurs(records@, path, i as int) ==> path_occurs(
                    next,
                    path,
                    i as int,
                )) by {
                    if path_occurs(records@, path, i as int) {
                        let j = choose|j: int|
                            0 <= j < i && (#[trigger] records@[j]).relative_path@ == path;
                        assert(next[j].relative_path@ == path);
                    }
                }
                assert(path_occurs(next, path, i as int) ==> path_occurs(
                    records@,
                    path,
                    i as int,
                )) by {
                    if path_occurs(next, path, i as int) {
                        let j = choose|j: int|
                            0 <= j < i && (#[trigger] next[j]).relative_path@ == path;
                        assert(records@[j].relative_path@ == path);
                    }
                }
                if trust_fault(next) is Some {
                    lemma_trust_fault_of_prefix(records@, i + 1);
                }
            }
            if records[i].kind != VaultRecordKind::Trust {
                return Err(VaultError::NotATrustRecord { index: i });
            }
            if occurs_before(&records, records[i].relative_path.as_str(), i) {
                return Err(VaultError::DuplicateTrustRecord { index: i });
            }
            i += 1;
        }
        proof {
            assert(records@.take(i as int) =~= records@);
        }
        Ok(TrustReadSource::Vault { records })
    }

    /// The index of the record at a path: none where the retained files are read, and an error
    /// where the vault lacks it.
    pub fn vault_record(&self, relative_path: &str) -> (r: Result<Option<usize>, VaultError>)
        ensures
            match *self {
                TrustReadSource::Filesystem => r == Ok::<Option<usize>, VaultError>(None),
                TrustReadSource::Vault { records } => match r {
                    Ok(Some(index)) => index < records@.len() && records@[index as int].relative_path@
                        == relative_path@,
                    Ok(None) => false,
                    Err(error) => error == VaultError::TrustRecordMissing && !path_occurs(
                        records@,
                        relative_path@,
                        records@.len() as int,
                    ),
                },
            },
    {
        match self {
            TrustReadSource::Filesystem => Ok(None),
            TrustReadSource::Vault { records } => {
                let mut i: usize = 0;
                while i < records.len()
                    invariant
                        *self == (TrustReadSource::Vault { records: *records }),
                        i <= records@.len(),
                        forall|j: int|
                            0 <= j < i ==> (#[trigger] records@[j]).relative_path@
                                != relative_path@,
                    decreases records@.len() - i,
                {
                    if same_text(records[i].relative_path.as_str(), relative_path) {
                        return Ok(Some(i));
                    }
                    i += 1;
                }
                Err(VaultError::TrustRecordMissing)
            },
        }
    }
}

/// A trust repository never gives two records for one path.
pub proof fn trust_paths_are_distinct(records: Seq<VaultRecord>, i: int, j: int)
    requires
        trust_fault(records) is None,
        0 <= i < j < records.len(),
    ensures
        records[i].relative_path@ != records[j].relative_path@,
        records[i].kind == VaultRecordKind::Trust,
    decreases records.len(),
{
    let last = records.len() - 1;
    if j == last {
        assert(!path_occurs(records, records[last].relative_path@, last));
        assert(records[i].relative_path@ != records[last].relative_path@);
        lemma_trust_kind(records, i);
    } else {
        trust_paths_are_distinct(records.drop_last(), i, j);
        assert(records.drop_last()[i] == records[i]);
        assert(records.drop_last()[j] == records[j]);
    }
}

proof fn lemma_trust_kind(records: Seq<VaultRecord>, i: int)
    requires
        trust_fault(records) is None,
        0 <= i < records.len(),
    ensures
        records[i].kind == VaultRecordKind::Trust,
    decreases records.len(),
{
    if i < records.len() - 1 {
        lemma_trust_kind(records.drop_last(), i);
        assert(records.drop_last()[i] == records[i]);
    }
}

/// Tests the certificate of the vault: it is this device's, with this device's key.
pub fn load_certificate(
    certificate: &DeviceCertificate,
    certificate_key: Digest,
    device_id: DeviceId,
    device_key: Digest,
) -> (r: Result<(), VaultError>)
    ensures
        r == if certificate.device_id != device_id {
            Err(VaultError::CertificateOfAnotherDevice)
        } else if certificate_key != device_key {
            Err(VaultError::CertificateWithAnotherKey)
        } else {
            Ok::<(), VaultError>(())
        },
{
    if certificate.device_id != device_id {
        return Err(VaultError::CertificateOfAnotherDevice);
    }
    if certificate_key != device_key {
        return Err(VaultError::CertificateWithAnotherKey);
    }
    Ok(())
}

/// Tests the authority snapshot of the vault: it is verified for the certificate's account, and
/// the certificate was issued before its revision.
pub fn load_own_authority_snapshot(
    certificate: &DeviceCertificate,
    certificate_sequence: u64,
    snapshot: &AuthoritySnapshot,
    snapshot_verified: bool,
) -> (r: Result<(), VaultError>)
    ensures
        r == if !snapshot_verified || snapshot.account_id != certificate.account_id {
            Err(VaultError::AuthorityUnverified)
        } else if certificate_sequence >= snapshot.revision {
            Err(VaultError::CertificateOutsideAuthority)
        } else {
            Ok::<(), VaultError>(())
        },
{
    if !snapshot_verified || snapshot.account_id != certificate.account_id {
        return Err(VaultError::AuthorityUnverified);
    }
    if certificate_sequence >= snapshot.revision {
        return Err(VaultError::CertificateOutsideAuthority);
    }
    Ok(())
}

/// The path of a conversation's membership among the trust records.
pub fn membership_relative_path(conversation_id: ConversationId) -> (r: String)
    ensures
        r@ == "conversation-memberships/"@ + hex(conversation_id.raw.bytes()) + ".membership"@,
{
    let mut path = String::from_str("conversation-memberships/");
    path.append(conversation_id.raw.to_text().as_str());
    path.append(".membership");
    path
}

/// Tests the membership of the vault: it is of the conversation that was asked for.
pub fn load_conversation_membership(found: ConversationId, asked: ConversationId) -> (r: Result<
    (),
    VaultError,
>)
    ensures
        r == if found != asked {
            Err(VaultError::MembershipOfAnotherConversation)
        } else {
            Ok::<(), VaultError>(())
        },
{
    if found != asked {
        return Err(VaultError::MembershipOfAnotherConversation);
    }
    Ok(())
}

/// What follows a prefix in a path, where something does.
pub open spec fn stripped(path: Seq<char>, prefix: Seq<char>) -> Option<Seq<char>> {
    if begins_with(path, prefix) && path.len() > prefix.len() {
        Some(path.subrange(prefix.len() as int, path.len() as int))
    } else {
        None
    }
}

/// What follows a prefix in the path of a record: the prefix is required, and something after
/// it.
pub fn strip_vault_record_prefix(relative_path: &str, prefix: &str) -> (r: Result<
    String,
    VaultError,
>)
    ensures
        match r {
            Ok(rest) => stripped(relative_path@, prefix@) == Some(rest@),
            Err(error) => error == VaultError::PrefixMissing && stripped(relative_path@, prefix@)
                is None,
        },
{
    if !starts_with(relative_path, prefix) {
        return Err(VaultError::PrefixMissing);
    }
    let path = chars_of(relative_path);
    let start: usize = chars_of(prefix).len();
    if path.len() <= start {
        return Err(VaultError::PrefixMissing);
    }
    let mut rest: Vec<char> = Vec::new();
    let mut i: usize = start;
    while i < path.len()
        invariant
            start <= i <= path@.len(),
            rest@ == path@.subrange(start as int, i as int),
        decreases path@.len() - i,
    {
        rest.push(path[i]);
        proof {
            assert(path@.subrange(start as int, i + 1) =~= path@.subrange(
                start as int,
                i as int,
            ).push(path@[i as int]));
        }
        i += 1;
    }
    Ok(text_of(rest.as_slice()))
}

/// A record of the immutable history: its path below its store, and its content.
pub struct HistoryRecord {
    pub path: String,
    pub content: Vec<u8>,
}

impl View for HistoryRecord {
    type V = (Seq<char>, Seq<u8>);

    open spec fn view(&self) -> (Seq<char>, Seq<u8>) {
        (self.path@, self.content@)
    }
}

/// The immutable history of the vault.
pub struct ImmutableHistory {
    pub events: Vec<HistoryRecord>,
    pub local_projections: Vec<HistoryRecord>,
}

/// The prefix that the paths of a kind of record have.
pub open spec fn history_prefix(kind: VaultRecordKind) -> Seq<char> {
    if kind == VaultRecordKind::Event {
        "events/"@
    } else {
        "local-messages/"@
    }
}

/// The first reason for which a record does not belong to the immutable history.
pub open spec fn history_record_fault(record: VaultRecord, index: int) -> Option<VaultError> {
    if record.kind != VaultRecordKind::Event && record.kind != VaultRecordKind::LocalProjection {
        Some(VaultError::UnexpectedRecord { index: index as usize })
    } else if stripped(record.relative_path@, history_prefix(record.kind)) is None {
        Some(VaultError::PrefixMissing)
    } else {
        None
    }
}

/// The first fault of some records.
pub open spec fn history_fault(records: Seq<VaultRecord>) -> Option<VaultError>
    decreases records.len(),
{
    if records.len() == 0 {
        None
    } else {
        match history_fault(records.drop_last()) {
            Some(error) => Some(error),
            None => history_record_fault(records.last(), records.len() - 1),
        }
    }
}

/// The records of one kind, in order, with their paths below their store.
pub open spec fn history_of(records: Seq<VaultRecord>, kind: VaultRecordKind) -> Seq<
    (Seq<char>, Seq<u8>),
>
    decreases records.len(),
{
    if records.len() == 0 {
        Seq::empty()
    } else {
        let before = history_of(records.drop_last(), kind);
        let last = records.last();
        match stripped(last.relative_path@, history_prefix(kind)) {
            Some(path) => if last.kind == kind {
                before.push((path, last.content@))
            } else {
                before
            },
            None => before,
        }
    }
}

/// What some history records hold.
pub open spec fn held(records: Seq<HistoryRecord>) -> Seq<(Seq<char>, Seq<u8>)> {
    records.map_values(|record: HistoryRecord| record@)
}

proof fn lemma_history_fault_of_prefix(records: Seq<VaultRecord>, n: int)
    requires
        0 <= n <= records.len(),
        history_fault(records.take(n)) is Some,
    ensures
        history_fault(records) == history_fault(records.take(n)),
    decreases records.len() - n,
{
    if n == records.len() {
        assert(records.take(n) =~= records);
    } else {
        assert(records.take(n + 1).drop_last() =~= records.take(n));
        lemma_history_fault_of_prefix(records, n + 1);
    }
}

/// Parts the records of the immutable history into events and local projections, each with its
/// path below its store. Any other record, and any path outside its store, is refused.
pub fn open_immutable_read_repositories(records: &[VaultRecord]) -> (r: Result<
    ImmutableHistory,
    VaultError,
>)
    ensures
        match r {
            Ok(history) => {
                &&& history_fault(records@) is None
                &&& held(history.events@) == history_of(records@, VaultRecordKind::Event)
                &&& held(history.local_projections@) == history_of(
                    records@,
                    VaultRecordKind::LocalProjection,
                )
            },
            Err(error) => history_fault(records@) == Some(error),
        },
{
    let mut events: Vec<HistoryRecord> = Vec::new();
    let mut local_projections: Vec<HistoryRecord> = Vec::new();
    let mut i: usize = 0;
    proof {
        assert(records@.take(0) =~= Seq::empty());
        assert(held(events@) =~= Seq::empty());
    }
    while i < records.len()
        invariant
            i <= records@.len(),
            history_fault(records@.take(i as int)) is None,
            held(events@) == history_of(records@.take(i as int), VaultRecordKind::Event),
            held(local_projections@) == history_of(
                records@.take(i as int),
                VaultRecordKind::LocalProjection,
            ),
        decreases records@.len() - i,
    {
        let record = &records[i];
        let ghost next = records@.take(i + 1);
        proof {
            assert(next.drop_last() =~= records@.take(i as int));
            assert(next.last() == *record);
            if history_fault(next) is Some {
                lemma_history_fault_of_prefix(records@, i + 1);
            }
        }
        match record.kind {
            VaultRecordKind::Event => {
                match strip_vault_record_prefix(record.relative_path.as_str(), "events/") {
                    Ok(path) => {
                        let content = record.content.clone();
                        let ghost before = events@;
                        events.push(HistoryRecord { path, content });
                        proof {
                            assert(content@ =~= record.content@);
                            assert(held(events@) =~= held(before).push(events@.last()@));
                        }
                    },
                    Err(error) => return Err(error),
                }
            },
            VaultRecordKind::LocalProjection => {
                match strip_vault_record_prefix(record.relative_path.as_str(), "local-messages/") {
                    Ok(path) => {
                        let content = record.content.clone();
                        let ghost before = local_projections@;
                        local_projections.push(HistoryRecord { path, content });
                        proof {
                            assert(content@ =~= record.content@);
                            assert(held(local_projections@) =~= held(before).push(
                                local_projections@.last()@,
                            ));
                        }
                    },
                    Err(error) => return Err(error),
                }
            },
            _ => return Err(VaultError::UnexpectedRecord { index: i }),
        }
        i += 1;
    }
    proof {
        assert(records@.take(i as int) =~= records@);
    }
    Ok(ImmutableHistory { events, local_projections })
}

/// No record of the immutable history is lost: the events and the local projections together
/// are as many as the records.
pub proof fn history_is_parted_completely(records: Seq<VaultRecord>)
    requires
        history_fault(records) is None,
    ensures
        history_of(records, VaultRecordKind::Event).len() + history_of(
            records,
            VaultRecordKind::LocalProjection,
        ).len() == records.len(),
    decreases records.len(),
{
    if records.len() > 0 {
        history_is_parted_completely(records.drop_last());
    }
}

/// Where the immutable history was read from.
#[derive(Clone, Copy, Debug, PartialEq, Eq, Structural)]
pub enum HistorySource {
    /// The vault, at a generation, with the retained files compared.
    Vault { generation: u64, event_records: u64, local_projection_records: u64 },
    /// The retained files, where there is no vault.
    Filesystem,
}

impl HistorySource {
    /// The name of the repository that was read.
    pub fn primary(self) -> (r: &'static str)
        ensures
            r@ == match self {
                HistorySource::Vault { .. } => "encrypted-vault"@,
                HistorySource::Filesystem => "legacy-filesystem"@,
            },
    {
        match self {
            HistorySource::Vault { .. } => "encrypted-vault",
            HistorySource::Filesystem => "legacy-filesystem",
        }
    }

    /// What is said of the repository that was compared.
    pub fn shadow(self) -> (r: &'static str)
        ensures
            r@ == match self {
                HistorySource::Vault { .. } => "legacy-verified"@,
                HistorySource::Filesystem => "not-enabled"@,
            },
    {
        match self {
            HistorySource::Vault { .. } => "legacy-verified",
            HistorySource::Filesystem => "not-enabled",
        }
    }
}

/// One line end is taken off a passphrase, and nothing else: a passphrase without one stays, and
/// one with a line end gives back what stands before it.
pub proof fn passphrase_loses_one_line_end(bytes: Seq<u8>)
    ensures
        passphrase(bytes + seq![13u8, 10u8]) == bytes,
        bytes.len() == 0 || bytes.last() != 13 ==> passphrase(bytes + seq![10u8]) == bytes,
        bytes.len() == 0 || bytes.last() != 10 ==> passphrase(bytes) == bytes,
{
    assert(passphrase(bytes + seq![13u8, 10u8]) =~= bytes);
    if bytes.len() == 0 || bytes.last() != 13 {
        assert(passphrase(bytes + seq![10u8]) =~= bytes);
    }
}

/// The record may stand in a trust store behind those before it: it is a trust record at a path of
/// its own.
pub open spec fn trustworthy(records: Seq<VaultRecord>, at: int) -> bool {
    &&& records[at].kind == VaultRecordKind::Trust
    &&& forall|i: int|
        0 <= i < at ==> (#[trigger] records[i]).relative_path@ != records[at].relative_path@
}

/// A trust store is loaded exactly where every record is a trust record at a path of its own. The
/// first that is not names the error: it is of another kind, or it is there twice.
pub proof fn trust_store_is_loaded_whole(records: Seq<VaultRecord>, at: int)
    requires
        records.len() <= usize::MAX,
    ensures
        (forall|i: int| 0 <= i < records.len() ==> #[trigger] trustworthy(records, i))
            ==> trust_fault(records) is None,
        trust_fault(records) is None && 0 <= at < records.len() ==> trustworthy(records, at),
        0 <= at < records.len() && !trustworthy(records, at) && (forall|i: int|
            0 <= i < at ==> #[trigger] trustworthy(records, i)) ==> trust_fault(records) == Some(
            if records[at].kind != VaultRecordKind::Trust {
                VaultError::NotATrustRecord { index: at as usize }
            } else {
                VaultError::DuplicateTrustRecord { index: at as usize }
            },
        ),
    decreases records.len(),
{
    if records.len() > 0 {
        let rest = records.drop_last();
        let last = records.len() - 1;
        trust_store_is_loaded_whole(rest, at);
        assert(forall|i: int| 0 <= i < rest.len() ==> #[trigger] rest[i] == records[i]);
        assert forall|i: int| 0 <= i < rest.len() implies #[trigger] trustworthy(rest, i)
            == trustworthy(records, i) by {
            assert(rest[i] == records[i]);
            if trustworthy(rest, i) {
                assert forall|j: int| 0 <= j < i implies (#[trigger] records[j]).relative_path@
                    != records[i].relative_path@ by {
                    assert(rest[j].relative_path@ != rest[i].relative_path@);
                }
            }
            if trustworthy(records, i) {
                assert forall|j: int| 0 <= j < i implies (#[trigger] rest[j]).relative_path@
                    != rest[i].relative_path@ by {
                    assert(records[j].relative_path@ != records[i].relative_path@);
                }
            }
        }
        assert(path_occurs(records, records[last].relative_path@, last) <==> exists|i: int|
            0 <= i < last
                && (#[trigger] records[i]).relative_path@ == records[last].relative_path@);
        if trust_fault(rest) is None {
            assert forall|i: int| 0 <= i < rest.len() implies #[trigger] trustworthy(
                rest,
                i,
            ) by {
                trust_store_is_loaded_whole(rest, i);
            }
        }
        if forall|i: int| 0 <= i < records.len() ==> #[trigger] trustworthy(records, i) {
            assert forall|i: int| 0 <= i < rest.len() implies #[trigger] trustworthy(
                rest,
                i,
            ) by {
                assert(trustworthy(records, i));
            }
            assert(trustworthy(records, last));
        }
        if 0 <= at < records.len() && !trustworthy(records, at) && (forall|i: int|
            0 <= i < at ==> #[trigger] trustworthy(records, i)) {
            assert forall|i: int| 0 <= i < at && i < rest.len() implies #[trigger] trustworthy(
                rest,
                i,
            ) by {
                assert(trustworthy(records, i));
            }
            if at < last {
                assert(!trustworthy(rest, at));
            }
        }
    }
}

/// What is left of a path behind a prefix is what stood there; a path that is the prefix alone, or
/// does not begin with it, leaves nothing.
pub proof fn stripping_takes_the_prefix(path: Seq<char>, prefix: Seq<char>, rest: Seq<char>)
    ensures
        rest.len() > 0 ==> stripped(prefix + rest, prefix) == Some(rest),
        stripped(prefix, prefix) is None,
        stripped(path, prefix) matches Some(left) ==> path == prefix + left && left.len() > 0,
{
    beginnings_and_endings(path, prefix, rest);
    assert((prefix + rest).subrange(prefix.len() as int, (prefix + rest).len() as int) =~= rest);
    if stripped(path, prefix) is Some {
        assert(stripped(path, prefix)->0 =~= path.skip(prefix.len() as int));
    }
}

/// A record is one of the history exactly where it is an event behind `events/` or a local copy
/// behind `local-messages/`.
pub proof fn history_record_meets_every_condition(record: VaultRecord, index: int)
    ensures
        ({
            let fault = history_record_fault(record, index);
            let event = record.kind == VaultRecordKind::Event;
            let copy = record.kind == VaultRecordKind::LocalProjection;
            &&& fault == Some(VaultError::UnexpectedRecord { index: index as usize }) <==> !event
                && !copy
            &&& fault is None <==> {
                ||| event && stripped(record.relative_path@, "events/"@) is Some
                ||| copy && stripped(record.relative_path@, "local-messages/"@) is Some
            }
            &&& fault is Some && (event || copy) ==> fault == Some(VaultError::PrefixMissing)
        }),
{
}

/// A history is loaded exactly where every record of it is one of the history; the first that is
/// not names the error.
pub proof fn history_is_loaded_whole(records: Seq<VaultRecord>, at: int)
    ensures
        (forall|i: int|
            0 <= i < records.len() ==> history_record_fault(#[trigger] records[i], i) is None)
            ==> history_fault(records) is None,
        history_fault(records) is None && 0 <= at < records.len() ==> history_record_fault(
            records[at],
            at,
        ) is None,
        0 <= at < records.len() && history_record_fault(records[at], at) is Some && (forall|i: int|
            0 <= i < at ==> history_record_fault(#[trigger] records[i], i) is None)
            ==> history_fault(records) == history_record_fault(records[at], at),
    decreases records.len(),
{
    if records.len() > 0 {
        let rest = records.drop_last();
        history_is_loaded_whole(rest, at);
        assert(forall|i: int| 0 <= i < rest.len() ==> #[trigger] rest[i] == records[i]);
    }
}

/// What is held of a kind is what each record of that kind holds, in order, and nothing of the
/// records of another.
pub proof fn history_holds_each_record(
    records: Seq<VaultRecord>,
    record: VaultRecord,
    kind: VaultRecordKind,
)
    ensures
        history_of(Seq::empty(), kind) == Seq::<(Seq<char>, Seq<u8>)>::empty(),
        history_of(records.push(record), kind) == match stripped(
            record.relative_path@,
            if kind == VaultRecordKind::Event {
                "events/"@
            } else {
                "local-messages/"@
            },
        ) {
            Some(path) if record.kind == kind => history_of(records, kind).push(
                (path, record.content@),
            ),
            _ => history_of(records, kind),
        },
{
    assert(records.push(record).drop_last() =~= records);
}

} // verus!
