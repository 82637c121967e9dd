//! Synchronizing a conversation in rounds, on the side that asks and on the side that answers.

use crate::ids::ConversationId;
use vstd::prelude::*;

verus! {

/// Why synchronization is refused or ends with an error.
#[derive(Clone, Copy, Debug, PartialEq, Eq, Structural)]
pub enum SyncError {
    RoundsOutOfRange,
    RejectionOfAnotherConversation,
    RejectedByListener,
    ExpectedDiff,
    ExpectedCompletion,
    ExpectedPaused,
    PauseOfAnotherConversation,
    ExpectedBatch,
    ExpectedInventory,
    RoundLimit,
    OutsideFailure,
}

/// What a round moved.
#[derive(Clone, Copy, Debug, PartialEq, Eq, Structural)]
pub struct RoundStats {
    pub sent_events: u32,
    pub received_events: u32,
    pub more_available: bool,
}

/// How synchronization ended.
#[derive(Clone, Copy, Debug, PartialEq, Eq, Structural)]
pub enum SyncOutcome {
    Synchronized,
    Paused,
    Rejected,
    Failed { error: SyncError },
}

/// What the side that asks is doing.
#[derive(Clone, Copy, Debug, PartialEq, Eq, Structural)]
pub enum ClientRoundPhase {
    /// Send an inventory and read the answer.
    SendingInventory,
    /// Send the events that the listener lacks and read the answer.
    SendingBatch,
    /// Ask for a pause and read the answer.
    Pausing,
    /// Nothing more.
    Done { outcome: SyncOutcome },
}

/// What the listener answered.
#[derive(Clone, Copy, Debug, PartialEq, Eq, Structural)]
pub enum SyncReply {
    Diff,
    Rejected { conversation_id: ConversationId },
    Complete { stats: RoundStats },
    Paused { conversation_id: ConversationId },
    Other,
    OutsideFailure,
}

/// The side that asks.
#[derive(Clone, Copy, Debug, PartialEq, Eq, Structural)]
pub struct SyncClientRun {
    pub conversation_id: ConversationId,
    pub max_rounds: usize,
    pub round: usize,
    pub sent_events: u64,
    pub received_events: u64,
    pub phase: ClientRoundPhase,
}

impl SyncClientRun {
    /// What the run keeps: rounds within the limit, a pause only at the last of them, and totals
    /// that every round can add to.
    pub open spec fn wf(self) -> bool {
        &&& 1 <= self.round <= self.max_rounds
        &&& self.max_rounds <= u32::MAX
        &&& self.phase == ClientRoundPhase::Pausing ==> self.round == self.max_rounds
        &&& self.phase == (ClientRoundPhase::Done { outcome: SyncOutcome::Paused }) ==> self.round
            == self.max_rounds
        &&& self.sent_events <= (self.round - (if self.phase == ClientRoundPhase::SendingInventory
            || self.phase == ClientRoundPhase::SendingBatch {
            1int
        } else {
            0
        })) * u32::MAX
        &&& self.received_events <= (self.round - (if self.phase
            == ClientRoundPhase::SendingInventory || self.phase == ClientRoundPhase::SendingBatch {
            1int
        } else {
            0
        })) * u32::MAX
    }

    /// The same run, ended.
    pub open spec fn ended(self, outcome: SyncOutcome) -> SyncClientRun {
        SyncClientRun { phase: ClientRoundPhase::Done { outcome }, ..self }
    }

    /// The same run, ended by an error.
    pub open spec fn failed(self, error: SyncError) -> SyncClientRun {
        self.ended(SyncOutcome::Failed { error })
    }

    /// What follows a round that was completed.
    pub open spec fn after_round(self, stats: RoundStats) -> SyncClientRun {
        let counted = SyncClientRun {
            sent_events: (self.sent_events + stats.sent_events) as u64,
            received_events: (self.received_events + stats.received_events) as u64,
            ..self
        };
        if !stats.more_available {
            counted.ended(SyncOutcome::Synchronized)
        } else if self.round == self.max_rounds {
            SyncClientRun { phase: ClientRoundPhase::Pausing, ..counted }
        } else {
            SyncClientRun {
                round: (self.round + 1) as usize,
                phase: ClientRoundPhase::SendingInventory,
                ..counted
            }
        }
    }

    /// What follows an answer.
    pub open spec fn next(self, reply: SyncReply) -> SyncClientRun {
        match (self.phase, reply) {
            (ClientRoundPhase::Done { .. }, _) => self,
            (_, SyncReply::OutsideFailure) => self.failed(SyncError::OutsideFailure),
            (ClientRoundPhase::SendingInventory, SyncReply::Diff) => SyncClientRun {
                phase: ClientRoundPhase::SendingBatch,
                ..self
            },
            (
                ClientRoundPhase::SendingInventory,
                SyncReply::Rejected { conversation_id },
            ) => if conversation_id == self.conversation_id {
                self.failed(SyncError::RejectedByListener)
            } else {
                self.failed(SyncError::RejectionOfAnotherConversation)
            },
            (ClientRoundPhase::SendingInventory, _) => self.failed(SyncError::ExpectedDiff),
            (ClientRoundPhase::SendingBatch, SyncReply::Complete { stats }) => self.after_round(
                stats,
            ),
            (ClientRoundPhase::SendingBatch, _) => self.failed(SyncError::ExpectedCompletion),
            (ClientRoundPhase::Pausing, SyncReply::Paused { conversation_id }) => if conversation_id
                == self.conversation_id {
                self.ended(SyncOutcome::Paused)
            } else {
                self.failed(SyncError::PauseOfAnotherConversation)
            },
            (ClientRoundPhase::Pausing, _) => self.failed(SyncError::ExpectedPaused),
        }
    }

    /// Starts with the number of rounds that the user asked for, which `limit` bounds.
    pub fn start(conversation_id: ConversationId, max_rounds: usize, limit: u32) -> (r: Result<
        SyncClientRun,
        SyncError,
    >)
        ensures
            match r {
                Ok(run) => {
                    &&& 1 <= max_rounds <= limit
                    &&& run.wf()
                    &&& run == (SyncClientRun {
                        conversation_id,
                        max_rounds,
                        round: 1,
                        sent_events: 0,
                        received_events: 0,
                        phase: ClientRoundPhase::SendingInventory,
                    })
                },
                Err(error) => error == SyncError::RoundsOutOfRange && !(1 <= max_rounds <= limit),
            },
    {
        if max_rounds < 1 || max_rounds > limit as usize {
            return Err(SyncError::RoundsOutOfRange);
        }
        Ok(
            SyncClientRun {
                conversation_id,
                max_rounds,
                round: 1,
                sent_events: 0,
                received_events: 0,
                phase: ClientRoundPhase::SendingInventory,
            },
        )
    }

    fn fail(&mut self, error: SyncError)
        ensures
            *final(self) == old(self).failed(error),
    {
        self.phase = ClientRoundPhase::Done { outcome: SyncOutcome::Failed { error } };
    }

    fn round_completed(&mut self, stats: RoundStats)
        requires
            old(self).wf(),
            old(self).phase == ClientRoundPhase::SendingBatch,
        ensures
            *final(self) == old(self).after_round(stats),
            final(self).wf(),
    {
        proof {
            lemma_totals_fit(self.round as int, self.max_rounds as int);
            assert((self.round - 1) * u32::MAX + u32::MAX == self.round * u32::MAX)
                by (nonlinear_arith);
            assert(((self.round + 1) - 1) * u32::MAX == self.round * u32::MAX);
        }
        self.sent_events = self.sent_events + stats.sent_events as u64;
        self.received_events = self.received_events + stats.received_events as u64;
        if !stats.more_available {
            self.phase = ClientRoundPhase::Done { outcome: SyncOutcome::Synchronized };
        } else if self.round == self.max_rounds {
            self.phase = ClientRoundPhase::Pausing;
        } else {
            self.round = self.round + 1;
            self.phase = ClientRoundPhase::SendingInventory;
        }
    }

    /// Takes the listener's answer.
    pub fn sync(&mut self, reply: SyncReply)
        requires
            old(self).wf(),
        ensures
            final(self).wf(),
            *final(self) == old(self).next(reply),
    {
        proof {
            assert((self.round - 1) * u32::MAX <= self.round * u32::MAX) by (nonlinear_arith);
        }
        match (self.phase, reply) {
            (ClientRoundPhase::Done { .. }, _) => {},
            (_, SyncReply::OutsideFailure) => self.fail(SyncError::OutsideFailure),
            (ClientRoundPhase::SendingInventory, SyncReply::Diff) => {
                self.phase = ClientRoundPhase::SendingBatch;
            },
            (
                ClientRoundPhase::SendingInventory,
                SyncReply::Rejected { conversation_id },
            ) => {
                if conversation_id == self.conversation_id {
                    self.fail(SyncError::RejectedByListener);
                } else {
                    self.fail(SyncError::RejectionOfAnotherConversation);
                }
            },
            (ClientRoundPhase::SendingInventory, _) => self.fail(SyncError::ExpectedDiff),
            (ClientRoundPhase::SendingBatch, SyncReply::Complete { stats }) => self.round_completed(
                stats,
            ),
            (ClientRoundPhase::SendingBatch, _) => self.fail(SyncError::ExpectedCompletion),
            (ClientRoundPhase::Pausing, SyncReply::Paused { conversation_id }) => {
                if conversation_id == self.conversation_id {
                    self.phase = ClientRoundPhase::Done { outcome: SyncOutcome::Paused };
                } else {
                    self.fail(SyncError::PauseOfAnotherConversation);
                }
            },
            (ClientRoundPhase::Pausing, _) => self.fail(SyncError::ExpectedPaused),
        }
    }
}

proof fn lemma_totals_fit(round: int, max_rounds: int)
    requires
        1 <= round <= max_rounds <= u32::MAX,
    ensures
        (round - 1) * u32::MAX + u32::MAX <= u64::MAX,
{
    assert((round - 1) * u32::MAX + u32::MAX <= u32::MAX * u32::MAX) by (nonlinear_arith)
        requires
            1 <= round <= u32::MAX,
    ;
}

/// What the side that answers is doing.
#[derive(Clone, Copy, Debug, PartialEq, Eq, Structural)]
pub enum ServerRoundPhase {
    /// Judge the inventory that came and answer it.
    AnsweringInventory,
    /// Read the events that the client sends, store them and answer.
    AwaitingBatch,
    /// Read the next request.
    AwaitingNext,
    /// Nothing more.
    Done { outcome: SyncOutcome },
}

/// What happened on the side that answers.
#[derive(Clone, Copy, Debug, PartialEq, Eq, Structural)]
pub enum SyncRequest {
    InventoryJudged { accepted: bool },
    BatchStored { stats: RoundStats },
    InventoryCame { conversation_id: ConversationId },
    PauseCame { conversation_id: ConversationId },
    OtherCame,
    OutsideFailure,
}

/// The side that answers.
#[derive(Clone, Copy, Debug, PartialEq, Eq, Structural)]
pub struct SyncServerRun {
    pub conversation_id: ConversationId,
    pub max_rounds: usize,
    pub round: usize,
    pub rounds_completed: usize,
    pub sent_events: u64,
    pub received_events: u64,
    pub phase: ServerRoundPhase,
}

impl SyncServerRun {
    /// What the run keeps.
    pub open spec fn wf(self) -> bool {
        &&& 1 <= self.round <= self.max_rounds
        &&& self.max_rounds <= u32::MAX
        &&& self.rounds_completed <= self.round
        &&& (self.phase == ServerRoundPhase::AnsweringInventory || self.phase
            == ServerRoundPhase::AwaitingBatch) ==> self.rounds_completed + 1 == self.round
        &&& self.sent_events <= self.rounds_completed * u32::MAX
        &&& self.received_events <= self.rounds_completed * u32::MAX
    }

    /// The same run, ended.
    pub open spec fn ended(self, outcome: SyncOutcome) -> SyncServerRun {
        SyncServerRun { phase: ServerRoundPhase::Done { outcome }, ..self }
    }

    /// The same run, ended by an error.
    pub open spec fn failed(self, error: SyncError) -> SyncServerRun {
        self.ended(SyncOutcome::Failed { error })
    }

    /// What follows a round that was completed.
    pub open spec fn after_round(self, stats: RoundStats) -> SyncServerRun {
        SyncServerRun {
            rounds_completed: self.round,
            sent_events: (self.sent_events + stats.sent_events) as u64,
            received_events: (self.received_events + stats.received_events) as u64,
            phase: if stats.more_available {
                ServerRoundPhase::AwaitingNext
            } else {
                ServerRoundPhase::Done { outcome: SyncOutcome::Synchronized }
            },
            ..self
        }
    }

    /// What follows an event.
    pub open spec fn next(self, event: SyncRequest) -> SyncServerRun {
        match (self.phase, event) {
            (ServerRoundPhase::Done { .. }, _) => self,
            (_, SyncRequest::OutsideFailure) => self.failed(SyncError::OutsideFailure),
            (
                ServerRoundPhase::AnsweringInventory,
                SyncRequest::InventoryJudged { accepted },
            ) => if accepted {
                SyncServerRun { phase: ServerRoundPhase::AwaitingBatch, ..self }
            } else {
                self.ended(SyncOutcome::Rejected)
            },
            (ServerRoundPhase::AwaitingBatch, SyncRequest::BatchStored { stats }) => self.after_round(
                stats,
            ),
            (ServerRoundPhase::AwaitingBatch, _) => self.failed(SyncError::ExpectedBatch),
            (
                ServerRoundPhase::AwaitingNext,
                SyncRequest::InventoryCame { conversation_id },
            ) => if self.round == self.max_rounds {
                self.failed(SyncError::RoundLimit)
            } else {
                SyncServerRun {
                    conversation_id,
                    round: (self.round + 1) as usize,
                    phase: ServerRoundPhase::AnsweringInventory,
                    ..self
                }
            },
            (ServerRoundPhase::AwaitingNext, SyncRequest::PauseCame { conversation_id }) => if
            conversation_id == self.conversation_id {
                self.ended(SyncOutcome::Paused)
            } else {
                self.failed(SyncError::PauseOfAnotherConversation)
            },
            (_, _) => self.failed(SyncError::ExpectedInventory),
        }
    }

    /// Starts with the first inventory that a client sent.
    pub fn start(conversation_id: ConversationId, limit: u32) -> (r: SyncServerRun)
        requires
            limit > 0,
        ensures
            r.wf(),
            r == (SyncServerRun {
                conversation_id,
                max_rounds: limit as usize,
                round: 1,
                rounds_completed: 0,
                sent_events: 0,
                received_events: 0,
                phase: ServerRoundPhase::AnsweringInventory,
            }),
    {
        SyncServerRun {
            conversation_id,
            max_rounds: limit as usize,
            round: 1,
            rounds_completed: 0,
            sent_events: 0,
            received_events: 0,
            phase: ServerRoundPhase::AnsweringInventory,
        }
    }

    fn fail(&mut self, error: SyncError)
        ensures
            *final(self) == old(self).failed(error),
    {
        self.phase = ServerRoundPhase::Done { outcome: SyncOutcome::Failed { error } };
    }

    fn batch_stored(&mut self, stats: RoundStats)
        requires
            old(self).wf(),
            old(self).phase == ServerRoundPhase::AwaitingBatch,
        ensures
            *final(self) == old(self).after_round(stats),
            final(self).wf(),
    {
        proof {
            lemma_totals_fit(self.round as int, self.max_rounds as int);
            assert((self.round - 1) * u32::MAX + u32::MAX == self.round * u32::MAX)
                by (nonlinear_arith);
        }
        self.rounds_completed = self.round;
        self.sent_events = self.sent_events + stats.sent_events as u64;
        self.received_events = self.received_events + stats.received_events as u64;
        if stats.more_available {
            self.phase = ServerRoundPhase::AwaitingNext;
        } else {
            self.phase = ServerRoundPhase::Done { outcome: SyncOutcome::Synchronized };
        }
    }

    /// Takes an event.
    pub fn handle_sync_request(&mut self, event: SyncRequest)
        requires
            old(self).wf(),
            old(self).phase == ServerRoundPhase::AwaitingNext ==> old(self).rounds_completed
                == old(self).round,
        ensures
            final(self).wf(),
            final(self).phase == ServerRoundPhase::AwaitingNext ==> final(self).rounds_completed
                == final(self).round,
            *final(self) == old(self).next(event),
    {
        match (self.phase, event) {
            (ServerRoundPhase::Done { .. }, _) => {},
            (_, SyncRequest::OutsideFailure) => self.fail(SyncError::OutsideFailure),
            (
                ServerRoundPhase::AnsweringInventory,
                SyncRequest::InventoryJudged { accepted },
            ) => {
                if accepted {
                    self.phase = ServerRoundPhase::AwaitingBatch;
                } else {
                    self.phase = ServerRoundPhase::Done { outcome: SyncOutcome::Rejected };
                }
            },
            (ServerRoundPhase::AwaitingBatch, SyncRequest::BatchStored { stats }) => self.batch_stored(
                stats,
            ),
            (ServerRoundPhase::AwaitingBatch, _) => self.fail(SyncError::ExpectedBatch),
            (
                ServerRoundPhase::AwaitingNext,
                SyncRequest::InventoryCame { conversation_id },
            ) => {
                if self.round == self.max_rounds {
                    self.fail(SyncError::RoundLimit);
                } else {
                    self.conversation_id = conversation_id;
                    self.round = self.round + 1;
                    self.phase = ServerRoundPhase::AnsweringInventory;
                }
            },
            (ServerRoundPhase::AwaitingNext, SyncRequest::PauseCame { conversation_id }) => {
                if conversation_id == self.conversation_id {
                    self.phase = ServerRoundPhase::Done { outcome: SyncOutcome::Paused };
                } else {
                    self.fail(SyncError::PauseOfAnotherConversation);
                }
            },
            (_, _) => self.fail(SyncError::ExpectedInventory),
        }
    }
}

/// A client that reports a synchronized conversation was told by its last round that nothing
/// more is available, and one that reports a pause went through all the rounds that it was
/// asked for and was told of the pause for its own conversation.
pub proof fn client_outcome_is_truthful(run: SyncClientRun, reply: SyncReply)
    requires
        run.wf(),
        run.phase !is Done,
        run.phase == ClientRoundPhase::Pausing ==> run.round == run.max_rounds,
    ensures
        run.next(reply).phase == ClientRoundPhase::Pausing ==> run.next(reply).round
            == run.max_rounds,
        run.next(reply).phase == (ClientRoundPhase::Done { outcome: SyncOutcome::Synchronized })
            ==> (reply matches SyncReply::Complete { stats } && !stats.more_available),
        run.next(reply).phase == (ClientRoundPhase::Done { outcome: SyncOutcome::Paused }) ==> reply
            == (SyncReply::Paused { conversation_id: run.conversation_id }) && run.round
            == run.max_rounds,
        run.next(reply).round <= run.max_rounds,
{
}

/// Where the listener allows as many rounds as the client may ask for, it never reaches its
/// round limit: the client asks for a pause, or is done, before that.
pub proof fn client_pauses_before_listener_limit(client: SyncClientRun, limit: usize, stats: RoundStats)
    requires
        client.wf(),
        client.max_rounds <= limit,
        client.phase == ClientRoundPhase::SendingBatch,
    ensures
        client.next(SyncReply::Complete { stats }).phase == ClientRoundPhase::SendingInventory
            ==> client.next(SyncReply::Complete { stats }).round <= limit && client.round < limit,
{
}

/// A client goes on exactly as its listener's answers say: to sending events after a diff, and
/// after a completed round to the end where nothing more is available, to a pause where its rounds
/// are used up, and else to the next round. Each round adds what it moved to the totals.
pub proof fn client_follows_its_listener(run: SyncClientRun, reply: SyncReply)
    requires
        run.wf(),
        run.phase !is Done,
    ensures
        ({
            let after = run.next(reply);
            let round_ended = run.phase == ClientRoundPhase::SendingBatch && reply is Complete;
            let more = reply->stats.more_available;
            &&& after.phase == ClientRoundPhase::SendingBatch <==> run.phase
                == ClientRoundPhase::SendingInventory && reply == SyncReply::Diff
            &&& after.phase == (ClientRoundPhase::Done { outcome: SyncOutcome::Synchronized })
                <==> round_ended && !more
            &&& after.phase == ClientRoundPhase::Pausing <==> round_ended && more && run.round
                == run.max_rounds
            &&& after.phase == ClientRoundPhase::SendingInventory <==> round_ended && more
                && run.round < run.max_rounds
            &&& after.phase == (ClientRoundPhase::Done { outcome: SyncOutcome::Paused })
                <==> run.phase == ClientRoundPhase::Pausing && reply == (
            SyncReply::Paused { conversation_id: run.conversation_id })
            &&& after.phase != (ClientRoundPhase::Done { outcome: SyncOutcome::Rejected })
            &&& after.round == run.round + (if round_ended && more && run.round < run.max_rounds {
                1int
            } else {
                0
            })
            &&& after.sent_events == run.sent_events + (if round_ended {
                reply->stats.sent_events as int
            } else {
                0
            })
            &&& after.received_events == run.received_events + (if round_ended {
                reply->stats.received_events as int
            } else {
                0
            })
            &&& after.conversation_id == run.conversation_id
            &&& after.max_rounds == run.max_rounds
        }),
{
    lemma_totals_fit(run.round as int, run.max_rounds as int);
}

/// A client fails for the reason that there is: a rejection of its own conversation, an answer
/// about another one, an answer that does not belong where it stands, or a failure outside.
pub proof fn client_fails_for_its_reason(run: SyncClientRun, reply: SyncReply)
    requires
        run.phase !is Done,
    ensures
        ({
            let failed = |error: SyncError|
                run.next(reply).phase == (ClientRoundPhase::Done {
                    outcome: SyncOutcome::Failed { error },
                });
            let inside = reply != SyncReply::OutsideFailure;
            &&& failed(SyncError::OutsideFailure) <==> !inside
            &&& failed(SyncError::RejectedByListener) <==> run.phase
                == ClientRoundPhase::SendingInventory && reply == (
            SyncReply::Rejected { conversation_id: run.conversation_id })
            &&& failed(SyncError::RejectionOfAnotherConversation) <==> run.phase
                == ClientRoundPhase::SendingInventory && (reply matches SyncReply::Rejected {
                conversation_id,
            } && conversation_id != run.conversation_id)
            &&& failed(SyncError::ExpectedDiff) <==> inside && run.phase
                == ClientRoundPhase::SendingInventory && reply !is Diff && reply !is Rejected
            &&& failed(SyncError::ExpectedCompletion) <==> inside && run.phase
                == ClientRoundPhase::SendingBatch && reply !is Complete
            &&& failed(SyncError::PauseOfAnotherConversation) <==> run.phase
                == ClientRoundPhase::Pausing && (reply matches SyncReply::Paused {
                conversation_id,
            } && conversation_id != run.conversation_id)
            &&& failed(SyncError::ExpectedPaused) <==> inside && run.phase
                == ClientRoundPhase::Pausing && reply !is Paused
        }),
{
}

/// A listener is done as synchronized exactly where it stored a batch after which nothing more is
/// available, and waits for the next request exactly where more is. It takes another inventory
/// exactly where a round is left, and a pause exactly for the conversation that it serves.
pub proof fn listener_follows_its_client(run: SyncServerRun, event: SyncRequest)
    requires
        run.wf(),
        run.phase !is Done,
    ensures
        ({
            let after = run.next(event);
            let round_ended = run.phase == ServerRoundPhase::AwaitingBatch && event is BatchStored;
            let another = run.phase == ServerRoundPhase::AwaitingNext && event is InventoryCame
                && run.round < run.max_rounds;
            let more = event->stats.more_available;
            &&& after.phase == (ServerRoundPhase::Done { outcome: SyncOutcome::Synchronized })
                <==> round_ended && !more
            &&& after.phase == ServerRoundPhase::AwaitingNext <==> round_ended && more
            &&& after.phase == ServerRoundPhase::AwaitingBatch <==> run.phase
                == ServerRoundPhase::AnsweringInventory && event == (
            SyncRequest::InventoryJudged { accepted: true })
            &&& after.phase == (ServerRoundPhase::Done { outcome: SyncOutcome::Rejected })
                <==> run.phase == ServerRoundPhase::AnsweringInventory && event == (
            SyncRequest::InventoryJudged { accepted: false })
            &&& after.phase == ServerRoundPhase::AnsweringInventory <==> another
            &&& after.phase == (ServerRoundPhase::Done { outcome: SyncOutcome::Paused })
                <==> run.phase == ServerRoundPhase::AwaitingNext && event == (
            SyncRequest::PauseCame { conversation_id: run.conversation_id })
            &&& after.conversation_id == if another {
                event->InventoryCame_conversation_id
            } else {
                run.conversation_id
            }
            &&& after.round == run.round + (if another {
                1int
            } else {
                0
            })
            &&& after.rounds_completed == if round_ended {
                run.round
            } else {
                run.rounds_completed
            }
            &&& after.sent_events == run.sent_events + (if round_ended {
                event->stats.sent_events as int
            } else {
                0
            })
            &&& after.received_events == run.received_events + (if round_ended {
                event->stats.received_events as int
            } else {
                0
            })
            &&& after.max_rounds == run.max_rounds
        }),
{
    lemma_totals_fit(run.round as int, run.max_rounds as int);
    assert(run.rounds_completed * u32::MAX <= run.round * u32::MAX) by (nonlinear_arith)
        requires
            run.rounds_completed <= run.round,
    ;
}

/// A listener fails for the reason that there is: its round limit, a pause of another
/// conversation, a request that does not belong where it stands, or a failure outside.
pub proof fn listener_fails_for_its_reason(run: SyncServerRun, event: SyncRequest)
    requires
        run.wf(),
        run.phase !is Done,
    ensures
        ({
            let failed = |error: SyncError|
                run.next(event).phase == (ServerRoundPhase::Done {
                    outcome: SyncOutcome::Failed { error },
                });
            let inside = event != SyncRequest::OutsideFailure;
            &&& failed(SyncError::OutsideFailure) <==> !inside
            &&& failed(SyncError::RoundLimit) <==> run.phase == ServerRoundPhase::AwaitingNext
                && event is InventoryCame && run.round == run.max_rounds
            &&& failed(SyncError::PauseOfAnotherConversation) <==> run.phase
                == ServerRoundPhase::AwaitingNext && (event matches SyncRequest::PauseCame {
                conversation_id,
            } && conversation_id != run.conversation_id)
            &&& failed(SyncError::ExpectedBatch) <==> inside && run.phase
                == ServerRoundPhase::AwaitingBatch && event !is BatchStored
            &&& failed(SyncError::ExpectedInventory) <==> inside && {
                ||| run.phase == ServerRoundPhase::AnsweringInventory && event !is InventoryJudged
                ||| run.phase == ServerRoundPhase::AwaitingNext && event !is InventoryCame
                    && event !is PauseCame
            }
        }),
{
}

/// The two sides of a round agree on whether there is more to do: the listener is done exactly
/// where the client is, and waits exactly where the client goes on to another round or to a
/// pause, which the listener then grants and the client takes.
pub proof fn both_sides_end_together(
    client: SyncClientRun,
    listener: SyncServerRun,
    stats: RoundStats,
)
    requires
        client.wf(),
        listener.wf(),
        client.phase == ClientRoundPhase::SendingBatch,
        listener.phase == ServerRoundPhase::AwaitingBatch,
        client.conversation_id == listener.conversation_id,
    ensures
        ({
            let asked = client.next(SyncReply::Complete { stats });
            let answered = listener.next(SyncRequest::BatchStored { stats });
            &&& asked.phase == (ClientRoundPhase::Done { outcome: SyncOutcome::Synchronized })
                <==> answered.phase == (ServerRoundPhase::Done {
                outcome: SyncOutcome::Synchronized,
            })
            &&& asked.phase == ClientRoundPhase::Pausing || asked.phase
                == ClientRoundPhase::SendingInventory <==> answered.phase
                == ServerRoundPhase::AwaitingNext
            &&& asked.phase == ClientRoundPhase::Pausing ==> {
                &&& answered.next(
                    SyncRequest::PauseCame { conversation_id: asked.conversation_id },
                ).phase == (ServerRoundPhase::Done { outcome: SyncOutcome::Paused })
                &&& asked.next(
                    SyncReply::Paused { conversation_id: answered.conversation_id },
                ).phase == (ClientRoundPhase::Done { outcome: SyncOutcome::Paused })
            }
            &&& asked.phase == ClientRoundPhase::SendingInventory && listener.round
                < listener.max_rounds ==> answered.next(
                SyncRequest::InventoryCame { conversation_id: asked.conversation_id },
            ).phase == ServerRoundPhase::AnsweringInventory
        }),
{
}

} // verus!
