//! The local, readable copies of received and authored texts: when one is kept, made or
//! refused, in which order a batch is gone through, and when a command's reads show what it
//! wrote.

use crate::ids::{AccountId, DeviceId, EventId};
use crate::text::same_text;
use vstd::prelude::*;

verus! {

/// Why the local copy of a text is refused.
#[derive(Clone, Copy, Debug, PartialEq, Eq, Structural)]
pub enum ProjectionError {
    PlaintextConflict,
    CannotBeOpened,
    CannotBeRead,
    AuthoredTextMissing,
    RecipientAccountMismatch { expected: AccountId, actual: AccountId },
    DeviceNotParticipant { device_id: DeviceId },
}

/// What a store holds for a text.
pub enum StoredProjection {
    Missing,
    Opened { body: String },
    CannotBeOpened,
    CannotBeRead,
}

/// What is done with the local copy of a text.
#[derive(Clone, Copy, Debug, PartialEq, Eq, Structural)]
pub enum ProjectionWrite {
    /// The stored copy stays.
    Keep,
    /// A copy is sealed and stored.
    Seal,
}

/// What is done with the local copy of a text whose body is known.
pub open spec fn projection_write(stored: StoredProjection, body: Seq<char>) -> Result<
    ProjectionWrite,
    ProjectionError,
> {
    match stored {
        StoredProjection::Missing => Ok(ProjectionWrite::Seal),
        StoredProjection::Opened { body: stored_body } => if stored_body@ == body {
            Ok(ProjectionWrite::Keep)
        } else {
            Err(ProjectionError::PlaintextConflict)
        },
        StoredProjection::CannotBeOpened => Err(ProjectionError::CannotBeOpened),
        StoredProjection::CannotBeRead => Err(ProjectionError::CannotBeRead),
    }
}

/// Decides on the local copy of a text that this device wrote: a stored one stays where it says
/// the same, and is never replaced.
pub fn ensure_authored_local_text_projection(stored: &StoredProjection, body: &str) -> (r: Result<
    ProjectionWrite,
    ProjectionError,
>)
    ensures
        r == projection_write(*stored, body@),
{
    match stored {
        StoredProjection::Missing => Ok(ProjectionWrite::Seal),
        StoredProjection::Opened { body: stored_body } => {
            if same_text(stored_body.as_str(), body) {
                Ok(ProjectionWrite::Keep)
            } else {
                Err(ProjectionError::PlaintextConflict)
            }
        },
        StoredProjection::CannotBeOpened => Err(ProjectionError::CannotBeOpened),
        StoredProjection::CannotBeRead => Err(ProjectionError::CannotBeRead),
    }
}

/// Decides on the local copy of a text that was received and decrypted.
pub fn ensure_received_local_text_projection(stored: &StoredProjection, decrypted: &str) -> (r:
    Result<ProjectionWrite, ProjectionError>)
    ensures
        r == projection_write(*stored, decrypted@),
{
    ensure_authored_local_text_projection(stored, decrypted)
}

/// The stored text, where there is one.
pub fn open_local_text_projection_if_present(stored: StoredProjection) -> (r: Result<
    Option<String>,
    ProjectionError,
>)
    ensures
        match stored {
            StoredProjection::Missing => r == Ok::<Option<String>, ProjectionError>(None),
            StoredProjection::Opened { body } => r == Ok::<Option<String>, ProjectionError>(
                Some(body),
            ),
            StoredProjection::CannotBeOpened => r == Err::<Option<String>, ProjectionError>(
                ProjectionError::CannotBeOpened,
            ),
            StoredProjection::CannotBeRead => r == Err::<Option<String>, ProjectionError>(
                ProjectionError::CannotBeRead,
            ),
        },
{
    match stored {
        StoredProjection::Missing => Ok(None),
        StoredProjection::Opened { body } => Ok(Some(body)),
        StoredProjection::CannotBeOpened => Err(ProjectionError::CannotBeOpened),
        StoredProjection::CannotBeRead => Err(ProjectionError::CannotBeRead),
    }
}

/// What the reads of a command hold for a text of a batch.
#[derive(Clone, Copy, Debug, PartialEq, Eq, Structural)]
pub enum ReadProjection {
    Missing,
    Opens,
    CannotBeOpened,
    CannotBeRead,
}

/// An event of a batch, with what the command's reads hold for it.
#[derive(Clone, Copy, Debug, PartialEq, Eq, Structural)]
pub struct BatchEvent {
    pub event_id: EventId,
    pub author_device_id: DeviceId,
    pub author_sequence: u64,
    pub is_text: bool,
    pub recipient_account_id: AccountId,
    /// The event holds a message for the local device.
    pub has_local_box: bool,
    pub stored: ReadProjection,
}

/// What is done for a text of a batch.
pub open spec fn local_projection(
    event: BatchEvent,
    local_device_id: DeviceId,
    local_account_id: AccountId,
) -> Result<ProjectionWrite, ProjectionError> {
    match event.stored {
        ReadProjection::Opens => Ok(ProjectionWrite::Keep),
        ReadProjection::CannotBeOpened => Err(ProjectionError::CannotBeOpened),
        ReadProjection::CannotBeRead => Err(ProjectionError::CannotBeRead),
        ReadProjection::Missing => if event.author_device_id == local_device_id {
            Err(ProjectionError::AuthoredTextMissing)
        } else if event.recipient_account_id != local_account_id {
            Err(
                ProjectionError::RecipientAccountMismatch {
                    expected: local_account_id,
                    actual: event.recipient_account_id,
                },
            )
        } else if !event.has_local_box {
            Err(ProjectionError::DeviceNotParticipant { device_id: local_device_id })
        } else {
            Ok(ProjectionWrite::Seal)
        },
    }
}

/// Decides on the local copy of a text of a batch: one that is there stays, one that another
/// device wrote for this device is decrypted and sealed, and any other is refused.
pub fn ensure_local_projection(
    event: &BatchEvent,
    local_device_id: DeviceId,
    local_account_id: AccountId,
) -> (r: Result<ProjectionWrite, ProjectionError>)
    ensures
        r == local_projection(*event, local_device_id, local_account_id),
{
    match event.stored {
        ReadProjection::Opens => Ok(ProjectionWrite::Keep),
        ReadProjection::CannotBeOpened => Err(ProjectionError::CannotBeOpened),
        ReadProjection::CannotBeRead => Err(ProjectionError::CannotBeRead),
        ReadProjection::Missing => {
            if event.author_device_id == local_device_id {
                return Err(ProjectionError::AuthoredTextMissing);
            }
            if event.recipient_account_id != local_account_id {
                return Err(
                    ProjectionError::RecipientAccountMismatch {
                        expected: local_account_id,
                        actual: event.recipient_account_id,
                    },
                );
            }
            if !event.has_local_box {
                return Err(ProjectionError::DeviceNotParticipant { device_id: local_device_id });
            }
            Ok(ProjectionWrite::Seal)
        },
    }
}

/// `a` is gone through before `b`: by author, then by the author's sequence, then by place.
pub open spec fn goes_before(events: Seq<BatchEvent>, a: usize, b: usize) -> bool {
    let x = events[a as int];
    let y = events[b as int];
    ||| x.author_device_id.raw.before(y.author_device_id.raw)
    ||| x.author_device_id == y.author_device_id && x.author_sequence < y.author_sequence
    ||| x.author_device_id == y.author_device_id && x.author_sequence == y.author_sequence && a < b
}

/// An order of the texts among the first `n` events: each once, and one after another.
pub open spec fn text_order(events: Seq<BatchEvent>, n: int, order: Seq<usize>) -> bool {
    &&& forall|i: int|
        0 <= i < order.len() ==> (#[trigger] order[i]) < n && events[order[i] as int].is_text
    &&& forall|i: int, j: int|
        0 <= i < j < order.len() ==> goes_before(events, #[trigger] order[i], #[trigger] order[j])
    &&& forall|k: usize| k < n && (#[trigger] events[k as int]).is_text ==> order.contains(k)
}

fn is_before(events: &[BatchEvent], a: usize, b: usize) -> (r: bool)
    requires
        a < events@.len(),
        b < events@.len(),
    ensures
        r == goes_before(events@, a, b),
{
    let x = &events[a];
    let y = &events[b];
    if x.author_device_id.raw.precedes(y.author_device_id.raw) {
        return true;
    }
    x.author_device_id == y.author_device_id && (x.author_sequence < y.author_sequence
        || x.author_sequence == y.author_sequence && a < b)
}

proof fn lemma_goes_before_is_total(events: Seq<BatchEvent>, a: usize, b: usize, c: usize)
    ensures
        goes_before(events, a, b) && goes_before(events, b, c) ==> goes_before(events, a, c),
        a != b && !goes_before(events, a, b) ==> goes_before(events, b, a),
        !goes_before(events, a, a),
{
}

fn insert_text(events: &[BatchEvent], order: &mut Vec<usize>, n: usize)
    requires
        n < events@.len(),
        events@[n as int].is_text,
        text_order(events@, n as int, old(order)@),
    ensures
        text_order(events@, n + 1, final(order)@),
{
    let ghost before = order@;
    let mut at: usize = order.len();
    while at > 0 && is_before(events, n, order[at - 1])
        invariant
            at <= order@.len(),
            order@ == before,
            n < events@.len(),
            text_order(events@, n as int, before),
            forall|i: int|
                at <= i < order@.len() ==> goes_before(events@, n, #[trigger] order@[i]),
        decreases at,
    {
        at -= 1;
    }
    proof {
        assert forall|i: int| 0 <= i < at implies goes_before(events@, #[trigger] before[i], n) by {
            lemma_goes_before_is_total(events@, before[at - 1], n, n);
            if i < at - 1 {
                assert(goes_before(events@, before[i], before[at - 1]));
                lemma_goes_before_is_total(events@, before[i], before[at - 1], n);
            }
        }
    }
    order.insert(at, n);
    proof {
        let after = order@;
        assert(after == before.insert(at as int, n));
        assert(after[at as int] == n);
        assert forall|i: int| 0 <= i < after.len() implies (#[trigger] after[i]) < n + 1
            && events@[after[i] as int].is_text by {
            if i < at {
                assert(after[i] == before[i]);
            } else if i > at {
                assert(after[i] == before[i - 1]);
            }
        }
        assert forall|i: int, j: int| 0 <= i < j < after.len() implies goes_before(
            events@,
            #[trigger] after[i],
            #[trigger] after[j],
        ) by {
            if i < at {
                assert(after[i] == before[i]);
            } else if i > at {
                assert(after[i] == before[i - 1]);
            }
            if j < at {
                assert(after[j] == before[j]);
            } else if j > at {
                assert(after[j] == before[j - 1]);
            }
        }
        assert forall|k: usize| k < n + 1 && (#[trigger] events@[k as int]).is_text implies after.contains(
            k,
        ) by {
            if k < n {
                assert(before.contains(k));
                let i = choose|i: int| 0 <= i < before.len() && before[i] == k;
                if i < at {
                    assert(after[i] == k);
                } else {
                    assert(after[i + 1] == k);
                }
            } else {
                assert(after[at as int] == k);
            }
        }
    }
}

/// The order in which the texts of a batch are gone through, so that an author's messages are
/// decrypted as they were written.
pub fn order_text_events(events: &[BatchEvent]) -> (r: Vec<usize>)
    ensures
        text_order(events@, events@.len() as int, r@),
{
    let mut order: Vec<usize> = Vec::new();
    let mut n: usize = 0;
    while n < events.len()
        invariant
            n <= events@.len(),
            text_order(events@, n as int, order@),
        decreases events@.len() - n,
    {
        if events[n].is_text {
            insert_text(events, &mut order, n);
        } else {
            proof {
                assert forall|k: usize| k < n + 1 && (#[trigger] events@[k as int]).is_text implies
                    order@.contains(k) by {
                    assert(k != n);
                }
            }
        }
        n += 1;
    }
    order
}

/// A batch that is refused: the place of the text, and the reason.
#[derive(Clone, Copy, Debug, PartialEq, Eq, Structural)]
pub struct BatchFault {
    pub index: usize,
    pub error: ProjectionError,
}

/// The first text, in the given order, whose local copy is refused.
pub open spec fn batch_fault(
    events: Seq<BatchEvent>,
    order: Seq<usize>,
    local_device_id: DeviceId,
    local_account_id: AccountId,
) -> Option<BatchFault>
    decreases order.len(),
{
    if order.len() == 0 {
        None
    } else {
        match batch_fault(events, order.drop_last(), local_device_id, local_account_id) {
            Some(fault) => Some(fault),
            None => match local_projection(
                events[order.last() as int],
                local_device_id,
                local_account_id,
            ) {
                Err(error) => Some(BatchFault { index: order.last(), error }),
                Ok(_) => None,
            },
        }
    }
}

/// The texts, in the given order, whose local copy is made.
pub open spec fn sealed(
    events: Seq<BatchEvent>,
    order: Seq<usize>,
    local_device_id: DeviceId,
    local_account_id: AccountId,
) -> Seq<usize> {
    order.filter(
        |index: usize|
            local_projection(events[index as int], local_device_id, local_account_id) == Ok::<
                ProjectionWrite,
                ProjectionError,
            >(ProjectionWrite::Seal),
    )
}

/// Decides on the local copies of a batch: which texts are decrypted and sealed, one after
/// another, or the first that is refused, for which the whole batch is refused.
pub fn ensure_local_projections(
    events: &[BatchEvent],
    local_device_id: DeviceId,
    local_account_id: AccountId,
) -> (r: Result<Vec<usize>, BatchFault>)
    ensures
        exists|order: Seq<usize>| #[trigger]
            text_order(events@, events@.len() as int, order) && match r {
                Ok(created) => batch_fault(events@, order, local_device_id, local_account_id)
                    is None && created@ == sealed(
                    events@,
                    order,
                    local_device_id,
                    local_account_id,
                ),
                Err(fault) => batch_fault(events@, order, local_device_id, local_account_id)
                    == Some(fault),
            },
{
    let order = order_text_events(events);
    go_through(events, order, local_device_id, local_account_id)
}

proof fn lemma_batch_fault_of_prefix(
    events: Seq<BatchEvent>,
    order: Seq<usize>,
    n: int,
    local_device_id: DeviceId,
    local_account_id: AccountId,
)
    requires
        0 <= n <= order.len(),
        batch_fault(events, order.take(n), local_device_id, local_account_id) is Some,
    ensures
        batch_fault(events, order, local_device_id, local_account_id) == batch_fault(
            events,
            order.take(n),
            local_device_id,
            local_account_id,
        ),
    decreases order.len() - n,
{
    if n == order.len() {
        assert(order.take(n) =~= order);
    } else {
        assert(order.take(n + 1).drop_last() =~= order.take(n));
        lemma_batch_fault_of_prefix(events, order, n + 1, local_device_id, local_account_id);
    }
}

fn go_through(
    events: &[BatchEvent],
    order: Vec<usize>,
    local_device_id: DeviceId,
    local_account_id: AccountId,
) -> (r: Result<Vec<usize>, BatchFault>)
    requires
        text_order(events@, events@.len() as int, order@),
    ensures
        match r {
            Ok(created) => batch_fault(events@, order@, local_device_id, local_account_id) is None
                && created@ == sealed(events@, order@, local_device_id, local_account_id),
            Err(fault) => batch_fault(events@, order@, local_device_id, local_account_id) == Some(
                fault,
            ),
        },
{
    let mut created: Vec<usize> = Vec::new();
    let mut i: usize = 0;
    proof {
        reveal(Seq::filter);
        assert(order@.take(0) =~= Seq::empty());
    }
    while i < order.len()
        invariant
            i <= order@.len(),
            text_order(events@, events@.len() as int, order@),
            batch_fault(events@, order@.take(i as int), local_device_id, local_account_id) is None,
            created@ == sealed(
                events@,
                order@.take(i as int),
                local_device_id,
                local_account_id,
            ),
        decreases order@.len() - i,
    {
        let index: usize = order[i];
        let ghost next = order@.take(i + 1);
        proof {
            reveal(Seq::filter);
            assert(next.drop_last() =~= order@.take(i as int));
            assert(next.last() == index);
        }
        match ensure_local_projection(&events[index], local_device_id, local_account_id) {
            Err(error) => {
                proof {
                    lemma_batch_fault_of_prefix(
                        events@,
                        order@,
                        i + 1,
                        local_device_id,
                        local_account_id,
                    );
                }
                return Err(BatchFault { index, error });
            },
            Ok(ProjectionWrite::Seal) => created.push(index),
            Ok(ProjectionWrite::Keep) => {},
        }
        i += 1;
    }
    proof {
        assert(order@.take(i as int) =~= order@);
    }
    Ok(created)
}

proof fn lemma_order_first(events: Seq<BatchEvent>, n: int, a: Seq<usize>, b: Seq<usize>, i: int)
    requires
        text_order(events, n, a),
        text_order(events, n, b),
        0 <= n <= usize::MAX,
        0 <= i < a.len(),
        i <= b.len(),
        forall|j: int| 0 <= j < i ==> a[j] == b[j],
    ensures
        i < b.len(),
        a[i] == b[i],
{
    let x = a[i];
    assert(events[x as int].is_text);
    assert(b.contains(x));
    let p = choose|p: int| 0 <= p < b.len() && b[p] == x;
    if p < i {
        assert(a[p] == x);
        lemma_goes_before_is_total(events, x, x, x);
        assert(goes_before(events, a[p], a[i]));
    }
    if p > i {
        let y = b[i];
        assert(goes_before(events, b[i], b[p]));
        assert(events[y as int].is_text);
        assert(a.contains(y));
        let q = choose|q: int| 0 <= q < a.len() && a[q] == y;
        lemma_goes_before_is_total(events, x, y, x);
        if q < i {
            assert(b[q] == y);
            lemma_goes_before_is_total(events, y, y, y);
            assert(goes_before(events, b[q], b[i]));
        } else if q > i {
            assert(goes_before(events, a[i], a[q]));
        }
    }
}

/// There is one order only in which the texts of a batch are gone through.
pub proof fn text_order_is_unique(events: Seq<BatchEvent>, a: Seq<usize>, b: Seq<usize>)
    requires
        events.len() <= usize::MAX,
        text_order(events, events.len() as int, a),
        text_order(events, events.len() as int, b),
    ensures
        a == b,
{
    lemma_orders_agree(events, a, b, a.len() as int);
    lemma_orders_agree(events, b, a, b.len() as int);
    assert(a =~= b);
}

proof fn lemma_orders_agree(events: Seq<BatchEvent>, a: Seq<usize>, b: Seq<usize>, n: int)
    requires
        events.len() <= usize::MAX,
        text_order(events, events.len() as int, a),
        text_order(events, events.len() as int, b),
        0 <= n <= a.len(),
    ensures
        n <= b.len(),
        forall|j: int| 0 <= j < n ==> a[j] == b[j],
    decreases n,
{
    if n > 0 {
        lemma_orders_agree(events, a, b, n - 1);
        lemma_order_first(events, events.len() as int, a, b, n - 1);
    }
}

/// A stored copy of a text is never replaced: it stays, or the write is refused.
pub proof fn stored_text_is_never_replaced(stored: StoredProjection, body: Seq<char>)
    requires
        stored !is Missing,
    ensures
        projection_write(stored, body) != Ok::<ProjectionWrite, ProjectionError>(
            ProjectionWrite::Seal,
        ),
{
}

/// What a store of a session is doing with a batch that it writes.
#[derive(Clone, Copy, Debug, PartialEq, Eq, Structural)]
pub enum BatchWritePhase {
    /// Stage the events for the command's reads.
    StagingEvents,
    /// In a transaction, verify the events, make the local copies and write both.
    Writing,
    /// Show the local copies in the command's reads.
    ShowingProjections,
    /// Show the events in the command's reads.
    ShowingEvents,
    /// Nothing more.
    Done,
    /// The batch was refused.
    Failed,
}

/// A batch that a session writes.
#[derive(Clone, Copy, Debug, PartialEq, Eq, Structural)]
pub struct BatchWrite {
    pub phase: BatchWritePhase,
}

impl BatchWrite {
    /// What follows the end of a phase.
    pub open spec fn next(self, succeeded: bool) -> BatchWrite {
        let phase = match self.phase {
            BatchWritePhase::Done => BatchWritePhase::Done,
            BatchWritePhase::Failed => BatchWritePhase::Failed,
            _ => if !succeeded {
                BatchWritePhase::Failed
            } else {
                match self.phase {
                    BatchWritePhase::StagingEvents => BatchWritePhase::Writing,
                    BatchWritePhase::Writing => BatchWritePhase::ShowingProjections,
                    BatchWritePhase::ShowingProjections => BatchWritePhase::ShowingEvents,
                    _ => BatchWritePhase::Done,
                }
            },
        };
        BatchWrite { phase }
    }

    /// Starts by staging the events.
    pub fn start() -> (r: BatchWrite)
        ensures
            r.phase == BatchWritePhase::StagingEvents,
    {
        BatchWrite { phase: BatchWritePhase::StagingEvents }
    }

    /// Takes the end of a phase.
    pub fn put_events(&mut self, succeeded: bool)
        ensures
            *final(self) == old(self).next(succeeded),
    {
        self.phase =
        match self.phase {
            BatchWritePhase::Done => BatchWritePhase::Done,
            BatchWritePhase::Failed => BatchWritePhase::Failed,
            BatchWritePhase::StagingEvents => if succeeded {
                BatchWritePhase::Writing
            } else {
                BatchWritePhase::Failed
            },
            BatchWritePhase::Writing => if succeeded {
                BatchWritePhase::ShowingProjections
            } else {
                BatchWritePhase::Failed
            },
            BatchWritePhase::ShowingProjections => if succeeded {
                BatchWritePhase::ShowingEvents
            } else {
                BatchWritePhase::Failed
            },
            BatchWritePhase::ShowingEvents => if succeeded {
                BatchWritePhase::Done
            } else {
                BatchWritePhase::Failed
            },
        };
    }
}

/// A command's reads show nothing of a batch before the batch was written.
pub proof fn reads_show_only_written_batches(write: BatchWrite, succeeded: bool)
    requires
        write.phase != write.next(succeeded).phase,
    ensures
        write.next(succeeded).phase == BatchWritePhase::ShowingProjections ==> write.phase
            == BatchWritePhase::Writing && succeeded,
        write.next(succeeded).phase == BatchWritePhase::ShowingEvents ==> write.phase
            == BatchWritePhase::ShowingProjections && succeeded,
{
}

/// A copy is sealed exactly where none is stored, and a stored one is kept exactly where it opens
/// to the same text; one that opens to another is a conflict, and one that does not open is the
/// error that it gives.
pub proof fn stored_copy_decides_the_write(stored: StoredProjection, body: Seq<char>)
    ensures
        ({
            let write = projection_write(stored, body);
            let same = stored is Opened && stored->body@ == body;
            &&& write == Ok::<ProjectionWrite, ProjectionError>(ProjectionWrite::Seal) <==> stored
                is Missing
            &&& write == Ok::<ProjectionWrite, ProjectionError>(ProjectionWrite::Keep) <==> same
            &&& write == Err::<ProjectionWrite, ProjectionError>(ProjectionError::PlaintextConflict)
                <==> stored is Opened && !same
            &&& write == Err::<ProjectionWrite, ProjectionError>(ProjectionError::CannotBeOpened)
                <==> stored is CannotBeOpened
            &&& write == Err::<ProjectionWrite, ProjectionError>(ProjectionError::CannotBeRead)
                <==> stored is CannotBeRead
        }),
{
}

/// The text of an event is kept where its copy opens, and sealed exactly where there is none and
/// another device wrote it to this account and this device.
pub proof fn local_copy_is_made_of_what_is_ours(
    event: BatchEvent,
    local_device_id: DeviceId,
    local_account_id: AccountId,
)
    ensures
        ({
            let missing = event.stored == ReadProjection::Missing;
            let fault = local_projection(event, local_device_id, local_account_id);
            let by_another = event.author_device_id != local_device_id;
            let for_account = local_account_id == event.recipient_account_id;
            let for_device = event.has_local_box;
            &&& missing ==> (fault == Err::<ProjectionWrite, ProjectionError>(
                ProjectionError::AuthoredTextMissing,
            ) <==> !by_another)
            &&& missing ==> (fault == Err::<ProjectionWrite, ProjectionError>(
                ProjectionError::RecipientAccountMismatch {
                    expected: local_account_id,
                    actual: event.recipient_account_id,
                },
            ) <==> by_another && !for_account)
            &&& missing ==> (fault == Err::<ProjectionWrite, ProjectionError>(
                ProjectionError::DeviceNotParticipant { device_id: local_device_id },
            ) <==> by_another && for_account && !for_device)
            &&& missing ==> (fault == Ok::<ProjectionWrite, ProjectionError>(
                ProjectionWrite::Seal,
            ) <==> by_another && for_account && for_device)
            &&& fault == Ok::<ProjectionWrite, ProjectionError>(ProjectionWrite::Keep)
                <==> event.stored == ReadProjection::Opens
            &&& fault == Err::<ProjectionWrite, ProjectionError>(ProjectionError::CannotBeOpened)
                <==> event.stored == ReadProjection::CannotBeOpened
            &&& fault == Err::<ProjectionWrite, ProjectionError>(ProjectionError::CannotBeRead)
                <==> event.stored == ReadProjection::CannotBeRead
        }),
{
}

/// Of two events of a batch exactly one goes before the other: by the bytes of the device, then by
/// the device's own sequence, then by their places.
pub proof fn batch_is_ordered_by_device_and_sequence(events: Seq<BatchEvent>, a: usize, b: usize)
    requires
        a != b,
    ensures
        ({
            let (x, y) = (events[a as int], events[b as int]);
            &&& goes_before(events, a, b) != goes_before(events, b, a)
            &&& x.author_device_id == y.author_device_id && x.author_sequence < y.author_sequence
                ==> goes_before(events, a, b)
            &&& x.author_device_id == y.author_device_id && x.author_sequence == y.author_sequence
                ==> (goes_before(events, a, b) <==> a < b)
            &&& x.author_device_id != y.author_device_id ==> (goes_before(events, a, b)
                <==> crate::ids::be_value(x.author_device_id.raw.bytes()) < crate::ids::be_value(
                y.author_device_id.raw.bytes(),
            ))
        }),
{
    let (x, y) = (events[a as int], events[b as int]);
    crate::ids::identifiers_sort_by_their_bytes(x.author_device_id.raw, y.author_device_id.raw);
    crate::ids::identifiers_sort_by_their_bytes(y.author_device_id.raw, x.author_device_id.raw);
}

/// A batch fails at the first event, in its order, whose copy cannot be made, with its error, and
/// does not fail exactly where every copy can be.
pub proof fn batch_fails_at_its_first_fault(
    events: Seq<BatchEvent>,
    order: Seq<usize>,
    local_device_id: DeviceId,
    local_account_id: AccountId,
)
    ensures
        match batch_fault(events, order, local_device_id, local_account_id) {
            None => forall|i: int|
                0 <= i < order.len() ==> local_projection(
                    events[#[trigger] order[i] as int],
                    local_device_id,
                    local_account_id,
                ) is Ok,
            Some(fault) => exists|i: int|
                {
                    &&& 0 <= i < order.len()
                    &&& #[trigger] order[i] == fault.index
                    &&& local_projection(
                        events[fault.index as int],
                        local_device_id,
                        local_account_id,
                    ) == Err::<ProjectionWrite, ProjectionError>(fault.error)
                    &&& forall|j: int|
                        0 <= j < i ==> local_projection(
                            events[#[trigger] order[j] as int],
                            local_device_id,
                            local_account_id,
                        ) is Ok
                },
        },
    decreases order.len(),
{
    if order.len() > 0 {
        let rest = order.drop_last();
        batch_fails_at_its_first_fault(events, rest, local_device_id, local_account_id);
        assert(forall|j: int| 0 <= j < rest.len() ==> #[trigger] order[j] == rest[j]);
        match batch_fault(events, rest, local_device_id, local_account_id) {
            None => {
                assert(order[order.len() - 1] == order.last());
            },
            Some(fault) => {
                let i = choose|i: int|
                    {
                        &&& 0 <= i < rest.len()
                        &&& #[trigger] rest[i] == fault.index
                        &&& local_projection(
                            events[fault.index as int],
                            local_device_id,
                            local_account_id,
                        ) == Err::<ProjectionWrite, ProjectionError>(fault.error)
                        &&& forall|j: int|
                            0 <= j < i ==> local_projection(
                                events[#[trigger] rest[j] as int],
                                local_device_id,
                                local_account_id,
                            ) is Ok
                    };
                assert(order[i] == fault.index);
            },
        }
    }
}

/// The copies that a batch seals are exactly those that are missing and can be made.
pub proof fn batch_seals_what_is_missing(
    events: Seq<BatchEvent>,
    order: Seq<usize>,
    local_device_id: DeviceId,
    local_account_id: AccountId,
    index: usize,
)
    ensures
        sealed(events, order, local_device_id, local_account_id).contains(index)
            <==> order.contains(index) && local_projection(
            events[index as int],
            local_device_id,
            local_account_id,
        ) == Ok::<ProjectionWrite, ProjectionError>(ProjectionWrite::Seal),
{
    broadcast use vstd::seq_lib::group_filter_ensures;

    let keep = |index: usize|
        local_projection(events[index as int], local_device_id, local_account_id) == Ok::<
            ProjectionWrite,
            ProjectionError,
        >(ProjectionWrite::Seal);
    let kept = order.filter(keep);
    if order.contains(index) && keep(index) {
        let i = choose|i: int| 0 <= i < order.len() && order[i] == index;
        assert(kept.contains(order[i]));
    }
    if kept.contains(index) {
        order.lemma_filter_contains_rev(keep, index);
        let i = choose|i: int| 0 <= i < kept.len() && kept[i] == index;
        assert(keep(order.filter(keep)[i]));
    }
}

/// A batch is written step by step, each exactly after the one before went well, and fails exactly
/// where a step does not.
pub proof fn batch_is_written_step_by_step(write: BatchWrite, succeeded: bool)
    ensures
        ({
            let (before, after) = (write.phase, write.next(succeeded).phase);
            let ended = before == BatchWritePhase::Done || before == BatchWritePhase::Failed;
            &&& ended ==> after == before
            &&& !ended ==> {
                &&& after == BatchWritePhase::Failed <==> !succeeded
                &&& after == BatchWritePhase::Writing <==> succeeded && before
                    == BatchWritePhase::StagingEvents
                &&& after == BatchWritePhase::ShowingProjections <==> succeeded && before
                    == BatchWritePhase::Writing
                &&& after == BatchWritePhase::ShowingEvents <==> succeeded && before
                    == BatchWritePhase::ShowingProjections
                &&& after == BatchWritePhase::Done <==> succeeded && before
                    == BatchWritePhase::ShowingEvents
            }
        }),
{
}

/// The order of a batch holds the events that carry text, all of them and no other.
pub proof fn batch_order_holds_every_text(
    events: Seq<BatchEvent>,
    n: int,
    order: Seq<usize>,
    k: usize,
)
    requires
        text_order(events, n, order),
    ensures
        order.contains(k) <==> k < n && events[k as int].is_text,
{
    if order.contains(k) {
        let i = choose|i: int| 0 <= i < order.len() && order[i] == k;
        assert(order[i] == k);
    }
}

} // verus!
