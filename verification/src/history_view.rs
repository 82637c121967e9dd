//! What the history command shows of a conversation.

use crate::account::{comma_joined, event_texts, format_event_ids};
use crate::delivery::holds_account;
use crate::ids::{AccountId, ConversationId, DeviceId, EventId};
use crate::projection::StoredProjection;
use crate::recovery_platform::{said, ReportLine};
use crate::text::{decimal, hex, push_decimal};
use vstd::prelude::*;

verus! {

/// Why a history is not shown.
#[derive(Clone, Copy, Debug, PartialEq, Eq, Structural)]
pub enum HistoryError {
    NotAMember,
    TextMissing,
    TextCannotBeOpened,
    TextCannotBeRead,
}

/// What is shown of a conversation before its events.
pub struct HistorySummary {
    pub conversation_id: ConversationId,
    pub membership_revision: u64,
    pub event_count: usize,
    pub frontier: Vec<EventId>,
}

impl HistorySummary {
    /// The lines of the summary.
    pub open spec fn lines(self) -> Seq<(Seq<char>, Seq<char>)> {
        seq![
            ("conversation_id"@, hex(self.conversation_id.raw.bytes())),
            ("membership_revision"@, decimal(self.membership_revision as nat)),
            ("event_count"@, decimal(self.event_count as nat)),
            ("frontier_count"@, decimal(self.frontier@.len())),
            ("frontier"@, comma_joined(event_texts(self.frontier@))),
        ]
    }
}

fn decimal_text(n: u64) -> (r: String)
    ensures
        r@ == decimal(n as nat),
{
    let mut text = String::from_str("");
    proof {
        reveal_strlit("");
    }
    push_decimal(&mut text, n);
    proof {
        assert(text@ =~= decimal(n as nat));
    }
    text
}

/// What is shown of a conversation before its events, to a device whose account is a member.
pub fn show_history(summary: &HistorySummary, members: &[AccountId], account_id: AccountId) -> (r:
    Result<Vec<ReportLine>, HistoryError>)
    ensures
        match r {
            Ok(lines) => members@.contains(account_id) && said(lines@) == summary.lines(),
            Err(error) => error == HistoryError::NotAMember && !members@.contains(account_id),
        },
{
    if !holds_account(members, account_id) {
        return Err(HistoryError::NotAMember);
    }
    let mut lines: Vec<ReportLine> = Vec::new();
    lines.push(
        ReportLine { name: "conversation_id", value: summary.conversation_id.raw.to_text() },
    );
    lines.push(
        ReportLine {
            name: "membership_revision",
            value: decimal_text(summary.membership_revision),
        },
    );
    lines.push(
        ReportLine { name: "event_count", value: decimal_text(summary.event_count as u64) },
    );
    lines.push(
        ReportLine { name: "frontier_count", value: decimal_text(summary.frontier.len() as u64) },
    );
    lines.push(
        ReportLine { name: "frontier", value: format_event_ids(summary.frontier.as_slice()) },
    );
    proof {
        assert(said(lines@) =~= summary.lines());
    }
    Ok(lines)
}

/// What an event carries.
pub enum HistoryPayload {
    Text { stored: StoredProjection },
    Acknowledgement { acknowledged_event_id: EventId },
}

/// An event of a conversation.
pub struct HistoryEvent {
    pub event_id: EventId,
    pub author_account_id: AccountId,
    pub author_device_id: DeviceId,
    pub author_sequence: u64,
    pub parents: Vec<EventId>,
    pub payload: HistoryPayload,
}

/// The line of an event. The body of a text follows it.
pub struct HistoryLine {
    pub text: String,
    pub body: Option<String>,
}

impl HistoryEvent {
    /// What is shown of any event.
    pub open spec fn heading(self) -> Seq<char> {
        "event_id="@ + hex(self.event_id.raw.bytes()) + " author_account_id="@ + hex(
            self.author_account_id.raw.bytes(),
        ) + " author_device_id="@ + hex(self.author_device_id.raw.bytes()) + " author_sequence="@
            + decimal(self.author_sequence as nat) + " parents=["@ + comma_joined(
            event_texts(self.parents@),
        ) + "] payload="@
    }

    fn heading_text(&self) -> (r: String)
        ensures
            r@ == self.heading(),
    {
        let mut text = String::from_str("event_id=");
        text.append(self.event_id.raw.to_text().as_str());
        text.append(" author_account_id=");
        text.append(self.author_account_id.raw.to_text().as_str());
        text.append(" author_device_id=");
        text.append(self.author_device_id.raw.to_text().as_str());
        text.append(" author_sequence=");
        push_decimal(&mut text, self.author_sequence);
        text.append(" parents=[");
        text.append(format_event_ids(self.parents.as_slice()).as_str());
        text.append("] payload=");
        text
    }

    /// What is shown of the event: a text only where its local copy can be opened.
    pub fn history_line(self) -> (r: Result<HistoryLine, HistoryError>)
        ensures
            match self.payload {
                HistoryPayload::Acknowledgement { acknowledged_event_id } => r is Ok
                    && r->Ok_0.body is None && r->Ok_0.text@ == self.heading()
                    + "acknowledgement acknowledged_event_id="@ + hex(
                    acknowledged_event_id.raw.bytes(),
                ),
                HistoryPayload::Text { stored } => match stored {
                    StoredProjection::Opened { body } => r is Ok && r->Ok_0.body == Some(body)
                        && r->Ok_0.text@ == self.heading() + "ratchet-text"@,
                    StoredProjection::Missing => r == Err::<HistoryLine, HistoryError>(
                        HistoryError::TextMissing,
                    ),
                    StoredProjection::CannotBeOpened => r == Err::<HistoryLine, HistoryError>(
                        HistoryError::TextCannotBeOpened,
                    ),
                    StoredProjection::CannotBeRead => r == Err::<HistoryLine, HistoryError>(
                        HistoryError::TextCannotBeRead,
                    ),
                },
            },
    {
        let mut text = self.heading_text();
        match self.payload {
            HistoryPayload::Acknowledgement { acknowledged_event_id } => {
                text.append("acknowledgement acknowledged_event_id=");
                text.append(acknowledged_event_id.raw.to_text().as_str());
                Ok(HistoryLine { text, body: None })
            },
            HistoryPayload::Text { stored } => match stored {
                StoredProjection::Opened { body } => {
                    text.append("ratchet-text");
                    Ok(HistoryLine { text, body: Some(body) })
                },
                StoredProjection::Missing => Err(HistoryError::TextMissing),
                StoredProjection::CannotBeOpened => Err(HistoryError::TextCannotBeOpened),
                StoredProjection::CannotBeRead => Err(HistoryError::TextCannotBeRead),
            },
        }
    }
}

/// The summary tells the conversation, its revision, and how many events and heads there are: two
/// summaries with the same lines agree on each of them.
pub proof fn summary_tells_its_numbers(summary: HistorySummary)
    ensures
        summary.lines().len() == 5,
        summary.lines()[0].1 == hex(summary.conversation_id.raw.bytes()),
        crate::text::decimal_value(summary.lines()[1].1) == summary.membership_revision,
        crate::text::decimal_value(summary.lines()[2].1) == summary.event_count,
        crate::text::decimal_value(summary.lines()[3].1) == summary.frontier@.len(),
        summary.lines()[4].1 == comma_joined(event_texts(summary.frontier@)),
        forall|i: int, j: int|
            0 <= i < j < 5 ==> (#[trigger] summary.lines()[i]).0.len() != (
            #[trigger] summary.lines()[j]).0.len(),
{
    crate::text::decimal_reads_back(summary.membership_revision as nat);
    crate::text::decimal_reads_back(summary.event_count as nat);
    crate::text::decimal_reads_back(summary.frontier@.len());
    reveal_strlit("conversation_id");
    reveal_strlit("membership_revision");
    reveal_strlit("event_count");
    reveal_strlit("frontier_count");
    reveal_strlit("frontier");
}

/// The heading of an event tells its identifier, its author's account and device, and its
/// sequence, each at its place, and then its parents.
pub proof fn heading_tells_who_wrote_what(event: HistoryEvent)
    ensures
        ({
            let heading = event.heading();
            let sequence = decimal(event.author_sequence as nat);
            let parents = comma_joined(event_texts(event.parents@));
            let from = 265 + sequence.len() as int;
            &&& heading.subrange(9, 73) == hex(event.event_id.raw.bytes())
            &&& heading.subrange(92, 156) == hex(event.author_account_id.raw.bytes())
            &&& heading.subrange(174, 238) == hex(event.author_device_id.raw.bytes())
            &&& heading.subrange(255, 255 + sequence.len() as int) == sequence
            &&& heading.subrange(from, from + parents.len()) == parents
        }),
{
    reveal_strlit("event_id=");
    reveal_strlit(" author_account_id=");
    reveal_strlit(" author_device_id=");
    reveal_strlit(" author_sequence=");
    reveal_strlit(" parents=[");
    reveal_strlit("] payload=");
    crate::ids::identifiers_are_their_bytes(event.event_id.raw, event.event_id.raw);
    crate::ids::identifiers_are_their_bytes(
        event.author_account_id.raw,
        event.author_account_id.raw,
    );
    crate::ids::identifiers_are_their_bytes(event.author_device_id.raw, event.author_device_id.raw);
    let heading = event.heading();
    let sequence = decimal(event.author_sequence as nat);
    let parents = comma_joined(event_texts(event.parents@));
    let from = 265 + sequence.len() as int;
    assert(heading.subrange(9, 73) =~= hex(event.event_id.raw.bytes()));
    assert(heading.subrange(92, 156) =~= hex(event.author_account_id.raw.bytes()));
    assert(heading.subrange(174, 238) =~= hex(event.author_device_id.raw.bytes()));
    assert(heading.subrange(255, 255 + sequence.len() as int) =~= sequence);
    assert(heading.subrange(from, from + parents.len()) =~= parents);
}

} // verus!
