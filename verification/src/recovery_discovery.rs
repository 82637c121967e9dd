//! Discovery of history recovery links on the local network.

use crate::identity::{AuthoritySnapshot, DeviceCertificate, ProtocolLimits};
use crate::ids::{ConversationId, DeviceId};
use crate::recovery_link::{
    SignedHistoryRecoveryLink, HISTORY_RECOVERY_LINK_PREFIX, MAX_HISTORY_RECOVERY_LINK_TEXT_BYTES,
};
use crate::recovery_plan::{PlanError, SignedHistoryRecoveryPlan};
use crate::text::{
    begins_with, chars_of, comes_before, lemma_text_order, starts_with, text_before, trim, trimmed,
    trimming_is_idempotent,
};
use crate::time::TimeSpan;
use vstd::prelude::*;
use vstd::string::StringExecFnsIsAscii;

verus! {

pub const DISCOVERY_PORT: u16 = 45_371;

pub const MAX_DISCOVERY_DATAGRAM_BYTES: usize = 4_096;

pub const MAX_DISCOVERY_DATAGRAMS: usize = 512;

pub const DEFAULT_DISCOVERY_WAIT_SECONDS: u64 = 3;

pub const MAX_DISCOVERY_WAIT_SECONDS: u64 = 30;

pub const DEFAULT_DISCOVERY_CANDIDATES: usize = 8;

pub const MAX_DISCOVERY_CANDIDATES: usize = 16;

/// Why discovery is refused, or finds nothing that can be used.
#[derive(Clone, Copy, Debug, PartialEq, Eq, Structural)]
pub enum DiscoveryError {
    EmptyPayload,
    PayloadTooLong,
    PayloadNotAscii,
    UnsupportedPrefix,
    NothingPublished,
    WaitOutOfRange,
    CandidateLimitOutOfRange,
    NoCandidate,
    Ambiguous,
}

/// An address and a port of the discovery protocol.
#[derive(Clone, Copy, Debug, PartialEq, Eq)]
pub struct DiscoveryTarget {
    pub octets: (u8, u8, u8, u8),
    pub port: u16,
}

/// Where links are published to the local network.
pub fn multicast_target() -> (r: DiscoveryTarget)
    ensures
        r.octets == (239u8, 255u8, 75u8, 71u8),
        r.port == DISCOVERY_PORT,
{
    DiscoveryTarget { octets: (239, 255, 75, 71), port: DISCOVERY_PORT }
}

/// Where links are published to the same machine.
pub fn loopback_target() -> (r: DiscoveryTarget)
    ensures
        r.octets == (127u8, 0u8, 0u8, 1u8),
        r.port == DISCOVERY_PORT,
{
    DiscoveryTarget { octets: (127, 0, 0, 1), port: DISCOVERY_PORT }
}

/// The time between two publications of a link.
pub fn publication_interval() -> (r: TimeSpan)
    ensures
        r.nanos == 750_000_000,
{
    TimeSpan::from_millis(750)
}

/// Calls `std::str::from_utf8`: the text of valid UTF-8, and nothing else.
#[verifier::external_body]
pub(crate) fn utf8_text(bytes: &[u8]) -> (r: Option<String>)
    ensures
        match r {
            Some(text) => vstd::utf8::valid_utf8(bytes@) && text@ == vstd::utf8::decode_utf8(
                bytes@,
            ),
            None => !vstd::utf8::valid_utf8(bytes@),
        },
{
    std::str::from_utf8(bytes).ok().map(str::to_owned)
}

/// The first rule of a published payload that a text breaks.
pub open spec fn payload_fault(text: Seq<char>) -> Option<DiscoveryError> {
    let payload = trimmed(text);
    if payload.len() == 0 {
        Some(DiscoveryError::EmptyPayload)
    } else if vstd::utf8::encode_utf8(payload).len() > MAX_HISTORY_RECOVERY_LINK_TEXT_BYTES {
        Some(DiscoveryError::PayloadTooLong)
    } else if !vstd::utf8::is_ascii_chars(payload) {
        Some(DiscoveryError::PayloadNotAscii)
    } else if !begins_with(payload, HISTORY_RECOVERY_LINK_PREFIX@) {
        Some(DiscoveryError::UnsupportedPrefix)
    } else {
        None
    }
}

/// Tests that a text, but for the white space around it, can be a published link.
pub fn validate_payload_shape(payload: &str) -> (r: Result<(), DiscoveryError>)
    ensures
        match payload_fault(payload@) {
            None => r is Ok,
            Some(error) => r == Err::<(), DiscoveryError>(error),
        },
{
    let payload = trim(payload);
    if payload.as_str().is_empty() {
        return Err(DiscoveryError::EmptyPayload);
    }
    if payload.as_str().as_bytes().len() > MAX_HISTORY_RECOVERY_LINK_TEXT_BYTES {
        return Err(DiscoveryError::PayloadTooLong);
    }
    if !payload.is_ascii() {
        return Err(DiscoveryError::PayloadNotAscii);
    }
    if !starts_with(payload.as_str(), HISTORY_RECOVERY_LINK_PREFIX) {
        return Err(DiscoveryError::UnsupportedPrefix);
    }
    Ok(())
}

/// Tests that the first publication of a link went out at least one way.
pub fn publication_started(multicast_initial_sent: bool, loopback_initial_sent: bool) -> (r:
    Result<(), DiscoveryError>)
    ensures
        r == if multicast_initial_sent || loopback_initial_sent {
            Ok::<(), DiscoveryError>(())
        } else {
            Err(DiscoveryError::NothingPublished)
        },
{
    if multicast_initial_sent || loopback_initial_sent {
        Ok(())
    } else {
        Err(DiscoveryError::NothingPublished)
    }
}

/// A scan of the local network. `awaiting` is the payload of the last datagram while it waits to
/// be judged.
#[derive(Debug)]
pub struct RecoveryDiscoveryScan {
    pub candidates: Vec<String>,
    pub max_candidates: usize,
    pub datagrams_received: usize,
    pub datagrams_rejected: usize,
    pub duplicate_candidates: usize,
    pub candidate_limit_reached: bool,
    pub awaiting: Option<String>,
}

/// The texts of the candidates.
pub open spec fn texts(candidates: Seq<String>) -> Seq<Seq<char>> {
    candidates.map_values(|s: String| s@)
}

/// Texts in order, none of them twice.
pub open spec fn ordered_texts(s: Seq<Seq<char>>) -> bool {
    forall|i: int, j: int| 0 <= i < j < s.len() ==> text_before(#[trigger] s[i], #[trigger] s[j])
}

/// `after` is `before` with one more text, somewhere.
pub open spec fn inserted(before: Seq<Seq<char>>, text: Seq<char>, after: Seq<Seq<char>>) -> bool {
    exists|at: int| 0 <= at <= before.len() && after == #[trigger] before.insert(at, text)
}

/// A text without white space around it that can be a published link.
pub open spec fn sound_payload(text: Seq<char>) -> bool {
    trimmed(text) == text && payload_fault(text) is None
}

impl RecoveryDiscoveryScan {
    /// What every scan keeps: candidates in order and distinct, each of them a payload that can
    /// be a link, within the limits, and every datagram counted once.
    pub open spec fn wf(self) -> bool {
        &&& ordered_texts(texts(self.candidates@))
        &&& forall|i: int|
            0 <= i < self.candidates@.len() ==> sound_payload(#[trigger] texts(self.candidates@)[i])
        &&& self.awaiting matches Some(payload) ==> sound_payload(payload@)
        &&& 1 <= self.max_candidates <= MAX_DISCOVERY_CANDIDATES
        &&& self.candidates@.len() <= self.max_candidates
        &&& self.datagrams_received <= MAX_DISCOVERY_DATAGRAMS
        &&& self.candidate_limit_reached ==> self.candidates@.len() == self.max_candidates
            && self.awaiting is None
        &&& self.datagrams_received == self.datagrams_rejected + self.duplicate_candidates
            + self.candidates@.len() + (if self.candidate_limit_reached {
            1int
        } else {
            0
        }) + (if self.awaiting is Some {
            1int
        } else {
            0
        })
    }

    /// The scan can take another datagram.
    pub open spec fn open(self) -> bool {
        &&& self.datagrams_received < MAX_DISCOVERY_DATAGRAMS
        &&& !self.candidate_limit_reached
        &&& self.awaiting is None
    }

    /// Starts a scan.
    pub fn start(wait: TimeSpan, max_candidates: usize) -> (r: Result<
        RecoveryDiscoveryScan,
        DiscoveryError,
    >)
        ensures
            match r {
                Ok(scan) => {
                    &&& 0 < wait.nanos <= 30_000_000_000
                    &&& 1 <= max_candidates <= MAX_DISCOVERY_CANDIDATES
                    &&& scan.wf()
                    &&& scan.max_candidates == max_candidates
                    &&& scan.candidates@.len() == 0
                    &&& scan.datagrams_received == 0
                    &&& scan.open()
                },
                Err(DiscoveryError::WaitOutOfRange) => !(0 < wait.nanos <= 30_000_000_000),
                Err(error) => {
                    &&& error == DiscoveryError::CandidateLimitOutOfRange
                    &&& 0 < wait.nanos <= 30_000_000_000
                    &&& !(1 <= max_candidates <= MAX_DISCOVERY_CANDIDATES)
                },
            },
    {
        if wait.nanos == 0 || wait.nanos > TimeSpan::from_secs(MAX_DISCOVERY_WAIT_SECONDS).nanos {
            return Err(DiscoveryError::WaitOutOfRange);
        }
        if !(1 <= max_candidates && max_candidates <= MAX_DISCOVERY_CANDIDATES) {
            return Err(DiscoveryError::CandidateLimitOutOfRange);
        }
        Ok(
            RecoveryDiscoveryScan {
                candidates: Vec::new(),
                max_candidates,
                datagrams_received: 0,
                datagrams_rejected: 0,
                duplicate_candidates: 0,
                candidate_limit_reached: false,
                awaiting: None,
            },
        )
    }

    /// Whether the scan can take another datagram.
    pub fn wants_datagram(&self) -> (r: bool)
        ensures
            r == self.open(),
    {
        self.datagrams_received < MAX_DISCOVERY_DATAGRAMS && !self.candidate_limit_reached
            && self.awaiting.is_none()
    }

    /// Whether the scan stopped taking datagrams because it took as many as it may.
    pub fn datagram_limit_reached(&self) -> (r: bool)
        ensures
            r == (self.datagrams_received == MAX_DISCOVERY_DATAGRAMS),
    {
        self.datagrams_received == MAX_DISCOVERY_DATAGRAMS
    }

    /// Takes a datagram. Its trimmed payload waits to be judged, and `true` is returned, unless it
    /// cannot be a link.
    pub fn receive(&mut self, datagram: &[u8]) -> (r: bool)
        requires
            old(self).wf(),
            old(self).open(),
        ensures
            final(self).wf(),
            final(self).datagrams_received == old(self).datagrams_received + 1,
            final(self).candidates@ == old(self).candidates@,
            final(self).max_candidates == old(self).max_candidates,
            final(self).duplicate_candidates == old(self).duplicate_candidates,
            final(self).candidate_limit_reached == old(self).candidate_limit_reached,
            r == (vstd::utf8::valid_utf8(datagram@) && payload_fault(
                vstd::utf8::decode_utf8(datagram@),
            ) is None),
            final(self).awaiting is Some == r,
            final(self).awaiting matches Some(payload) ==> {
                &&& payload@ == trimmed(vstd::utf8::decode_utf8(datagram@))
                &&& final(self).datagrams_rejected == old(self).datagrams_rejected
            },
            !r ==> final(self).datagrams_rejected == old(self).datagrams_rejected + 1,
    {
        self.datagrams_received = self.datagrams_received + 1;
        if let Some(text) = utf8_text(datagram) {
            if validate_payload_shape(text.as_str()).is_ok() {
                proof {
                    trimming_is_idempotent(text@);
                }
                self.awaiting = Some(trim(text.as_str()));
                return true;
            }
        }
        self.datagrams_rejected = self.datagrams_rejected + 1;
        false
    }

    /// Judges the payload of the last datagram: a payload that is not accepted is rejected, one
    /// that is known is a duplicate, one too many ends the scan, and any other becomes a
    /// candidate in its place.
    pub fn judge(&mut self, accepted: bool)
        requires
            old(self).wf(),
            old(self).awaiting is Some,
        ensures
            final(self).wf(),
            final(self).awaiting is None,
            final(self).max_candidates == old(self).max_candidates,
            final(self).datagrams_received == old(self).datagrams_received,
            ({
                let payload = old(self).awaiting->0;
                let before = texts(old(self).candidates@);
                let after = texts(final(self).candidates@);
                if !accepted {
                    &&& final(self).datagrams_rejected == old(self).datagrams_rejected + 1
                    &&& final(self).duplicate_candidates == old(self).duplicate_candidates
                    &&& !final(self).candidate_limit_reached
                    &&& after == before
                } else if before.contains(payload@) {
                    &&& final(self).datagrams_rejected == old(self).datagrams_rejected
                    &&& final(self).duplicate_candidates == old(self).duplicate_candidates + 1
                    &&& !final(self).candidate_limit_reached
                    &&& after == before
                } else if before.len() == old(self).max_candidates {
                    &&& final(self).datagrams_rejected == old(self).datagrams_rejected
                    &&& final(self).duplicate_candidates == old(self).duplicate_candidates
                    &&& final(self).candidate_limit_reached
                    &&& after == before
                } else {
                    &&& final(self).datagrams_rejected == old(self).datagrams_rejected
                    &&& final(self).duplicate_candidates == old(self).duplicate_candidates
                    &&& !final(self).candidate_limit_reached
                    &&& inserted(before, payload@, after)
                }
            }),
    {
        let payload = match self.awaiting.take() {
            Some(payload) => payload,
            None => return,
        };
        if !accepted {
            self.datagrams_rejected = self.datagrams_rejected + 1;
            return;
        }
        let ghost before = texts(self.candidates@);
        let chars = chars_of(payload.as_str());
        let mut at: usize = 0;
        while at < self.candidates.len() && comes_before(
            &chars_of(self.candidates[at].as_str()),
            &chars,
        )
            invariant
                at <= self.candidates.len(),
                before == texts(self.candidates@),
                chars@ == payload@,
                forall|i: int| 0 <= i < at ==> text_before(#[trigger] before[i], payload@),
            decreases self.candidates.len() - at,
        {
            assert(before[at as int] == self.candidates@[at as int]@);
            at += 1;
        }
        if at < self.candidates.len() && self.candidates[at] == payload {
            assert(before[at as int] == payload@);
            self.duplicate_candidates = self.duplicate_candidates + 1;
            return;
        }
        proof {
            assert forall|i: int| at <= i < before.len() implies text_before(
                payload@,
                #[trigger] before[i],
            ) by {
                assert(before[at as int] == self.candidates@[at as int]@);
                lemma_text_order(before[at as int], payload@, before[i]);
                lemma_text_order(payload@, before[at as int], before[i]);
            }
            assert(!before.contains(payload@)) by {
                if before.contains(payload@) {
                    let k = choose|k: int| 0 <= k < before.len() && before[k] == payload@;
                    lemma_text_order(payload@, payload@, payload@);
                    if k < at {
                        assert(text_before(before[k], payload@));
                    } else {
                        assert(text_before(payload@, before[k]));
                    }
                }
            }
        }
        if self.candidates.len() == self.max_candidates {
            self.candidate_limit_reached = true;
            return;
        }
        let ghost text = payload@;
        self.candidates.insert(at, payload);
        proof {
            let after = texts(self.candidates@);
            assert(after =~= before.insert(at as int, text));
            assert forall|i: int| 0 <= i < after.len() implies sound_payload(#[trigger] after[i]) by {
                if i < at {
                    assert(after[i] == before[i]);
                } else if i > at {
                    assert(after[i] == before[i - 1]);
                }
            }
            assert forall|i: int, j: int| 0 <= i < j < after.len() implies text_before(
                #[trigger] after[i],
                #[trigger] after[j],
            ) by {
                if j < at {
                    assert(text_before(before[i], before[j]));
                } else if i < at && j > at {
                    assert(text_before(before[i], before[j - 1]));
                } else if i > at {
                    assert(text_before(before[i - 1], before[j - 1]));
                } else if i == at {
                    assert(text_before(text, before[j - 1]));
                } else {
                    assert(text_before(before[i], text));
                }
            }
        }
    }

    /// The one link that a scan found.
    pub fn selected_candidate(&self) -> (r: Result<&String, DiscoveryError>)
        ensures
            match r {
                Ok(link) => {
                    &&& self.candidates@.len() == 1
                    &&& !self.candidate_limit_reached
                    &&& link@ == self.candidates@[0]@
                },
                Err(error) => if self.candidates@.len() == 0 {
                    error == DiscoveryError::NoCandidate
                } else {
                    &&& error == DiscoveryError::Ambiguous
                    &&& self.candidates@.len() > 1 || self.candidate_limit_reached
                },
            },
    {
        if self.candidates.len() == 0 {
            return Err(DiscoveryError::NoCandidate);
        }
        if self.candidates.len() != 1 || self.candidate_limit_reached {
            return Err(DiscoveryError::Ambiguous);
        }
        Ok(&self.candidates[0])
    }
}

/// Tests the options of a discovery command.
pub fn validate_discovery_options(wait_seconds: u64, max_candidates: usize) -> (r: Result<
    (),
    DiscoveryError,
>)
    ensures
        r == if !(1 <= wait_seconds <= MAX_DISCOVERY_WAIT_SECONDS) {
            Err(DiscoveryError::WaitOutOfRange)
        } else if !(1 <= max_candidates <= MAX_DISCOVERY_CANDIDATES) {
            Err(DiscoveryError::CandidateLimitOutOfRange)
        } else {
            Ok(())
        },
{
    if !(1 <= wait_seconds && wait_seconds <= MAX_DISCOVERY_WAIT_SECONDS) {
        return Err(DiscoveryError::WaitOutOfRange);
    }
    if !(1 <= max_candidates && max_candidates <= MAX_DISCOVERY_CANDIDATES) {
        return Err(DiscoveryError::CandidateLimitOutOfRange);
    }
    Ok(())
}

/// A device may use a discovered link for a conversation.
pub open spec fn acceptable_discovery(
    link: SignedHistoryRecoveryLink,
    limits: ProtocolLimits,
    now: u64,
    recipient: DeviceCertificate,
    conversation_id: ConversationId,
    expected_source: Option<DeviceId>,
    local_authority: AuthoritySnapshot,
) -> bool {
    let remote = link.content.account_device_list.authority;
    &&& link.fault_for(limits, now, recipient) is None
    &&& link.content.conversation_id == conversation_id
    &&& expected_source matches Some(source) ==> link.content.source_certificate.device_id == source
    &&& remote.revision > local_authority.revision || remote == local_authority
}

/// Whether a device may use a discovered link for a conversation: it is valid for the device,
/// comes from the expected source, and its authority is not older than the local one.
pub fn accepts_discovered_link(
    link: &SignedHistoryRecoveryLink,
    now_unix_seconds: u64,
    recipient_certificate: DeviceCertificate,
    conversation_id: ConversationId,
    expected_source: Option<DeviceId>,
    local_authority: AuthoritySnapshot,
    limits: ProtocolLimits,
) -> (r: bool)
    ensures
        r == acceptable_discovery(
            *link,
            limits,
            now_unix_seconds,
            recipient_certificate,
            conversation_id,
            expected_source,
            local_authority,
        ),
{
    if link.verify_for_recipient(now_unix_seconds, recipient_certificate, limits).is_err() {
        return false;
    }
    if link.content.conversation_id != conversation_id {
        return false;
    }
    if let Some(source) = expected_source {
        if link.content.source_certificate.device_id != source {
            return false;
        }
    }
    let remote = link.content.account_device_list.authority;
    remote.revision > local_authority.revision || (remote.revision == local_authority.revision
        && remote == local_authority)
}

/// What a device that looks for a link goes by.
#[derive(Clone, Copy, Debug)]
pub struct DiscoveryRequest {
    pub now_unix_seconds: u64,
    pub recipient_certificate: DeviceCertificate,
    pub conversation_id: ConversationId,
    pub expected_source: Option<DeviceId>,
    pub local_authority: AuthoritySnapshot,
    pub limits: ProtocolLimits,
}

/// A datagram and the link that its text encodes, if it encodes one.
#[derive(Debug)]
pub struct HeardDatagram {
    pub bytes: Vec<u8>,
    pub link: Option<SignedHistoryRecoveryLink>,
}

impl HeardDatagram {
    /// The payload, where it offers a link that the device may use.
    pub open spec fn offer(self, request: DiscoveryRequest) -> Option<Seq<char>> {
        let text = vstd::utf8::decode_utf8(self.bytes@);
        if vstd::utf8::valid_utf8(self.bytes@) && payload_fault(text) is None && self.link is Some
            && acceptable_discovery(
            self.link->0,
            request.limits,
            request.now_unix_seconds,
            request.recipient_certificate,
            request.conversation_id,
            request.expected_source,
            request.local_authority,
        ) {
            Some(trimmed(text))
        } else {
            None
        }
    }
}

/// One of the first `count` datagrams offers this payload.
pub open spec fn offered(
    heard: Seq<HeardDatagram>,
    request: DiscoveryRequest,
    count: int,
    payload: Seq<char>,
) -> bool {
    exists|i: int| 0 <= i < count && (#[trigger] heard[i]).offer(request) == Some(payload)
}

/// Two different payloads are offered by the first `count` datagrams.
pub open spec fn offers_differ(
    heard: Seq<HeardDatagram>,
    request: DiscoveryRequest,
    count: int,
) -> bool {
    exists|i: int, j: int|
        0 <= i < count && 0 <= j < count && (#[trigger] heard[i]).offer(request) is Some && (
        #[trigger] heard[j]).offer(request) is Some && heard[i].offer(request) != heard[j].offer(
            request,
        )
}

/// The number of datagrams that a discovery looks at.
pub open spec fn looked_at(heard: Seq<HeardDatagram>) -> int {
    if heard.len() <= MAX_DISCOVERY_DATAGRAMS {
        heard.len() as int
    } else {
        MAX_DISCOVERY_DATAGRAMS as int
    }
}

/// The one link that the datagrams offer to a device. Where none is offered, or more than one,
/// none is chosen.
pub fn discover_history_recovery_links(
    wait_seconds: u64,
    max_candidates: usize,
    heard: &[HeardDatagram],
    request: DiscoveryRequest,
) -> (r: Result<String, DiscoveryError>)
    ensures
        ({
            let count = looked_at(heard@);
            match r {
                Ok(link) => {
                    &&& 1 <= wait_seconds <= MAX_DISCOVERY_WAIT_SECONDS
                    &&& 1 <= max_candidates <= MAX_DISCOVERY_CANDIDATES
                    &&& offered(heard@, request, count, link@)
                    &&& !offers_differ(heard@, request, count)
                },
                Err(DiscoveryError::WaitOutOfRange) => !(1 <= wait_seconds
                    <= MAX_DISCOVERY_WAIT_SECONDS),
                Err(DiscoveryError::CandidateLimitOutOfRange) => {
                    &&& 1 <= wait_seconds <= MAX_DISCOVERY_WAIT_SECONDS
                    &&& !(1 <= max_candidates <= MAX_DISCOVERY_CANDIDATES)
                },
                Err(DiscoveryError::NoCandidate) => {
                    &&& 1 <= wait_seconds <= MAX_DISCOVERY_WAIT_SECONDS
                    &&& 1 <= max_candidates <= MAX_DISCOVERY_CANDIDATES
                    &&& forall|i: int|
                        0 <= i < count ==> (#[trigger] heard@[i]).offer(request) is None
                },
                Err(error) => {
                    &&& error == DiscoveryError::Ambiguous
                    &&& 1 <= wait_seconds <= MAX_DISCOVERY_WAIT_SECONDS
                    &&& 1 <= max_candidates <= MAX_DISCOVERY_CANDIDATES
                    &&& offers_differ(heard@, request, count)
                },
            }
        }),
{
    if let Err(error) = validate_discovery_options(wait_seconds, max_candidates) {
        return Err(error);
    }
    let mut scan = match RecoveryDiscoveryScan::start(
        TimeSpan::from_secs(wait_seconds),
        max_candidates,
    ) {
        Ok(scan) => scan,
        Err(error) => return Err(error),
    };
    let mut at: usize = 0;
    while at < heard.len() && scan.wants_datagram()
        invariant
            at <= heard.len(),
            scan.wf(),
            scan.awaiting is None,
            scan.max_candidates == max_candidates,
            scan.datagrams_received == at,
            forall|k: int|
                0 <= k < scan.candidates@.len() ==> offered(
                    heard@,
                    request,
                    at as int,
                    #[trigger] texts(scan.candidates@)[k],
                ),
            scan.candidate_limit_reached ==> offers_differ(heard@, request, at as int),
            !scan.candidate_limit_reached ==> forall|i: int|
                0 <= i < at && (#[trigger] heard@[i]).offer(request) is Some ==> texts(
                    scan.candidates@,
                ).contains(heard@[i].offer(request)->0),
        decreases heard.len() - at,
    {
        let ghost before = texts(scan.candidates@);
        let ghost offer = heard@[at as int].offer(request);
        let datagram = &heard[at];
        let awaiting: bool = scan.receive(datagram.bytes.as_slice());
        if awaiting {
            let accepted: bool = match &datagram.link {
                Some(link) => accepts_discovered_link(
                    link,
                    request.now_unix_seconds,
                    request.recipient_certificate,
                    request.conversation_id,
                    request.expected_source,
                    request.local_authority,
                    request.limits,
                ),
                None => false,
            };
            let ghost payload = scan.awaiting->0@;
            assert(texts(scan.candidates@) == before);
            assert(accepted ==> offer == Some(payload));
            scan.judge(accepted);
        }
        proof {
            let after = texts(scan.candidates@);
            lemma_scan_step(heard@, request, at as int, before, after);
            if offer is Some && !before.contains(offer->0) && before.len() == max_candidates {
                let first = choose|i: int|
                    0 <= i < at && (#[trigger] heard@[i]).offer(request) == Some(before[0]);
                assert(heard@[first].offer(request) != heard@[at as int].offer(request));
            }
        }
        at += 1;
    }
    proof {
        let found = texts(scan.candidates@);
        if found.len() > 1 {
            let i = choose|i: int|
                0 <= i < at && (#[trigger] heard@[i]).offer(request) == Some(found[0]);
            let j = choose|j: int|
                0 <= j < at && (#[trigger] heard@[j]).offer(request) == Some(found[1]);
            lemma_text_order(found[0], found[0], found[0]);
            assert(text_before(found[0], found[1]));
            assert(heard@[i].offer(request) != heard@[j].offer(request));
        }
    }
    match scan.selected_candidate() {
        Ok(link) => Ok(link.clone()),
        Err(error) => Err(error),
    }
}

/// A step of a scan keeps its candidates among what was offered.
proof fn lemma_scan_step(
    heard: Seq<HeardDatagram>,
    request: DiscoveryRequest,
    at: int,
    before: Seq<Seq<char>>,
    after: Seq<Seq<char>>,
)
    requires
        0 <= at < heard.len(),
        forall|k: int| 0 <= k < before.len() ==> offered(heard, request, at, #[trigger] before[k]),
        after == before || heard[at].offer(request) is Some && inserted(
            before,
            heard[at].offer(request)->0,
            after,
        ),
    ensures
        forall|k: int| 0 <= k < after.len() ==> offered(heard, request, at + 1, #[trigger] after[k]),
        forall|text: Seq<char>| before.contains(text) ==> #[trigger] after.contains(text),
        after != before ==> after.contains(heard[at].offer(request)->0),
{
    if after == before {
        assert forall|k: int| 0 <= k < after.len() implies offered(
            heard,
            request,
            at + 1,
            #[trigger] after[k],
        ) by {
            assert(offered(heard, request, at, before[k]));
        }
    } else {
        let offer = heard[at].offer(request)->0;
        let place = choose|k: int|
            0 <= k <= before.len() && after == #[trigger] before.insert(k, offer);
        assert(after[place] == offer);
        assert forall|k: int| 0 <= k < after.len() implies offered(
            heard,
            request,
            at + 1,
            #[trigger] after[k],
        ) by {
            if k < place {
                assert(offered(heard, request, at, before[k]));
            } else if k > place {
                assert(offered(heard, request, at, before[k - 1]));
            } else {
                assert(heard[at].offer(request) == Some(after[k]));
            }
        }
        assert forall|text: Seq<char>| before.contains(text) implies #[trigger] after.contains(
            text,
        ) by {
            let k = choose|k: int| 0 <= k < before.len() && before[k] == text;
            if k < place {
                assert(after[k] == text);
            } else {
                assert(after[k + 1] == text);
            }
        }
    }
}

/// Whether a discovered link offers what a plan agreed to, to this device and at this time.
pub fn accepts_planned_link(
    plan: &SignedHistoryRecoveryPlan,
    link: &SignedHistoryRecoveryLink,
    now_unix_seconds: u64,
    recipient_certificate: DeviceCertificate,
    limits: ProtocolLimits,
) -> (r: bool)
    ensures
        r == (link.fault_for(limits, now_unix_seconds, recipient_certificate) is None
            && plan.comparison(*link, limits) == Ok::<bool, PlanError>(true)),
{
    if link.verify_for_recipient(now_unix_seconds, recipient_certificate, limits).is_err() {
        return false;
    }
    match plan.matches_link(link, limits) {
        Ok(same) => same,
        Err(_) => false,
    }
}

/// A payload is sound exactly where, white space around it aside, it is not empty, fits in one QR
/// code, is ASCII and begins with the prefix of a link. The first of these that fails names the
/// error.
pub proof fn sound_payload_meets_every_condition(text: Seq<char>)
    ensures
        ({
            let fault = payload_fault(text);
            let some = trimmed(text).len() > 0;
            let fits = vstd::utf8::encode_utf8(trimmed(text)).len() <= 2_953;
            let ascii = vstd::utf8::is_ascii_chars(trimmed(text));
            let prefixed = begins_with(trimmed(text), HISTORY_RECOVERY_LINK_PREFIX@);
            &&& fault == Some(DiscoveryError::EmptyPayload) <==> !some
            &&& fault == Some(DiscoveryError::PayloadTooLong) <==> some && !fits
            &&& fault == Some(DiscoveryError::PayloadNotAscii) <==> some && fits && !ascii
            &&& fault == Some(DiscoveryError::UnsupportedPrefix) <==> some && fits && ascii
                && !prefixed
            &&& fault is None <==> some && fits && ascii && prefixed
        }),
{
}

/// A discovered link is acceptable exactly where it is one for this recipient and now, is for the
/// conversation, comes from the expected source if one is expected, and rests on an authority that
/// is newer than the local one or the same.
pub proof fn acceptable_discovery_meets_every_condition(
    link: SignedHistoryRecoveryLink,
    limits: ProtocolLimits,
    now: u64,
    recipient: DeviceCertificate,
    conversation_id: ConversationId,
    expected_source: Option<DeviceId>,
    local_authority: AuthoritySnapshot,
)
    ensures
        acceptable_discovery(
            link,
            limits,
            now,
            recipient,
            conversation_id,
            expected_source,
            local_authority,
        ) <==> {
            let listed = link.content.account_device_list.authority;
            let source = link.content.source_certificate.device_id;
            &&& link.fault_for(limits, now, recipient) is None
            &&& conversation_id == link.content.conversation_id
            &&& expected_source is None || expected_source == Some(source)
            &&& local_authority.revision < listed.revision || local_authority == listed
        },
{
}

/// A datagram offers its text, white space around it aside, exactly where it is UTF-8 and a sound
/// payload, and holds a link that is acceptable to the request.
pub proof fn offer_is_an_acceptable_link(heard: HeardDatagram, request: DiscoveryRequest)
    ensures
        ({
            let text = vstd::utf8::decode_utf8(heard.bytes@);
            &&& heard.offer(request) is Some <==> {
                &&& vstd::utf8::valid_utf8(heard.bytes@)
                &&& payload_fault(text) is None
                &&& heard.link is Some
                &&& acceptable_discovery(
                    heard.link->0,
                    request.limits,
                    request.now_unix_seconds,
                    request.recipient_certificate,
                    request.conversation_id,
                    request.expected_source,
                    request.local_authority,
                )
            }
            &&& heard.offer(request) matches Some(payload) ==> payload == trimmed(text)
        }),
{
}

/// A scan takes more exactly while it has heard fewer than five hundred and twelve datagrams, has
/// not met its limit and has none to judge; it looks at no more than those.
pub proof fn scan_is_bounded(scan: RecoveryDiscoveryScan, heard: Seq<HeardDatagram>)
    ensures
        scan.open() <==> scan.datagrams_received < 512 && scan.awaiting is None
            && !scan.candidate_limit_reached,
        looked_at(heard) <= 512,
        looked_at(heard) <= heard.len(),
        looked_at(heard) == 512 || looked_at(heard) == heard.len(),
        scan.wf() ==> scan.candidates@.len() <= 16,
{
}

/// Each candidate of a scan is a sound payload without white space around it, no two are the same,
/// and they are in the order of their texts; so is what waits to be judged.
pub proof fn candidates_are_sound_and_in_order(scan: RecoveryDiscoveryScan, i: int, j: int)
    requires
        scan.wf(),
    ensures
        0 <= i < scan.candidates@.len() ==> trimmed(scan.candidates@[i]@) == scan.candidates@[i]@
            && payload_fault(scan.candidates@[i]@) is None,
        0 <= i < j < scan.candidates@.len() ==> text_before(
            scan.candidates@[i]@,
            scan.candidates@[j]@,
        ),
        scan.awaiting matches Some(payload) ==> trimmed(payload@) == payload@ && payload_fault(
            payload@,
        ) is None,
        scan.candidates@.len() <= scan.max_candidates,
        scan.datagrams_received <= 512,
{
    let all = texts(scan.candidates@);
    if 0 <= i < scan.candidates@.len() {
        assert(all[i] == scan.candidates@[i]@);
        assert(sound_payload(all[i]));
    }
    if 0 <= i < j < scan.candidates@.len() {
        assert(all[j] == scan.candidates@[j]@);
        assert(text_before(all[i], all[j]));
    }
}

/// Inserting a text adds that text and no other, at some place, and leaves the others in order.
pub proof fn insertion_adds_one_text(
    before: Seq<Seq<char>>,
    text: Seq<char>,
    after: Seq<Seq<char>>,
    at: int,
)
    ensures
        inserted(before, text, before.push(text)),
        0 <= at <= before.len() ==> inserted(before, text, before.insert(at, text)),
        inserted(before, text, after) ==> after.len() == before.len() + 1 && after.contains(text)
            && exists|place: int| 0 <= place < after.len() && #[trigger] after.remove(place)
            == before && after[place] == text,
{
    let end = before.len() as int;
    assert(before.push(text) =~= before.insert(end, text));
    assert(inserted(before, text, before.insert(end, text)));
    if 0 <= at <= before.len() {
        assert(inserted(before, text, before.insert(at, text)));
    }
    if inserted(before, text, after) {
        let place = choose|place: int|
            0 <= place <= before.len() && after == #[trigger] before.insert(place, text);
        assert(after[place] == text);
        assert(after.remove(place) =~= before);
    }
}

} // verus!
