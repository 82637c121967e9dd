//! Reconciling what several source devices claim about the history of a conversation.

use crate::history_recovery::RewrapManifest;
use crate::identity::{certificate_of, DeviceCertificate};
use crate::ids::{
    be_value, identifiers_sort_by_their_bytes, ConversationId, DeviceId, Digest, EventId,
};
use vstd::prelude::*;

verus! {

/// Why stored bundles cannot be reconciled.
#[derive(Clone, Copy, Debug, PartialEq, Eq, Structural)]
pub enum ReconcileError {
    OtherAccount { bundle: usize },
    OtherRecipient { bundle: usize },
    RecipientCertificateDiffers { bundle: usize },
}

/// A stored bundle, as far as reconciliation reads it.
#[derive(Debug)]
pub struct StoredRewrap {
    pub manifest: RewrapManifest,
    pub source_device_id: DeviceId,
    pub inventory_event_count: u64,
    pub inventory_digest: Digest,
    pub range_start: u64,
    pub range_end: u64,
    pub event_ids: Vec<EventId>,
}

/// What a source claims its inventory to be.
#[derive(Clone, Copy, Debug, PartialEq, Eq, Structural)]
pub struct ClaimKey {
    pub source: DeviceId,
    pub count: u64,
    pub digest: Digest,
}

impl ClaimKey {
    /// `self` comes before `other`: by source, then by count, then by digest.
    pub open spec fn before(self, other: ClaimKey) -> bool {
        self.source.raw.before(other.source.raw) || (self.source == other.source && (self.count
            < other.count || (self.count == other.count && self.digest.raw.before(
            other.digest.raw,
        ))))
    }

    /// Whether `self` comes before `other`.
    pub fn precedes(self, other: ClaimKey) -> (r: bool)
        ensures
            r == self.before(other),
    {
        self.source.raw.precedes(other.source.raw) || (self.source == other.source && (self.count
            < other.count || (self.count == other.count && self.digest.raw.precedes(
            other.digest.raw,
        ))))
    }
}

/// A claim, with the ranges of the bundles that make it, in order.
#[derive(Debug)]
pub struct Claim {
    pub key: ClaimKey,
    pub ranges: Vec<(u64, u64)>,
    pub complete: bool,
}

/// `a` comes before `b` or is the same range.
pub open spec fn range_not_after(a: (u64, u64), b: (u64, u64)) -> bool {
    a.0 < b.0 || (a.0 == b.0 && a.1 <= b.1)
}

/// Ranges in order.
pub open spec fn ranges_in_order(s: Seq<(u64, u64)>) -> bool {
    forall|i: int, j: int| 0 <= i < j < s.len() ==> range_not_after(#[trigger] s[i], #[trigger] s[j])
}

/// `s` with `x` behind every range that does not come after it.
pub open spec fn insert_range(s: Seq<(u64, u64)>, x: (u64, u64)) -> Seq<(u64, u64)>
    decreases s.len(),
{
    if s.len() == 0 || range_not_after(s.last(), x) {
        s.push(x)
    } else {
        insert_range(s.drop_last(), x).push(s.last())
    }
}

proof fn lemma_insert_range(s: Seq<(u64, u64)>, x: (u64, u64))
    requires
        ranges_in_order(s),
    ensures
        ranges_in_order(insert_range(s, x)),
        insert_range(s, x).len() == s.len() + 1,
        forall|y: (u64, u64)| #[trigger]
            insert_range(s, x).contains(y) <==> s.contains(y) || y == x,
    decreases s.len(),
{
    let r = insert_range(s, x);
    if s.len() == 0 || range_not_after(s.last(), x) {
        assert forall|y: (u64, u64)| #[trigger] r.contains(y) <==> s.contains(y) || y == x by {
            if s.contains(y) {
                let i = choose|i: int| 0 <= i < s.len() && s[i] == y;
                assert(r[i] == y);
            }
            assert(r[s.len() as int] == x);
        }
    } else {
        let head = s.drop_last();
        lemma_insert_range(head, x);
        let rest = insert_range(head, x);
        assert forall|y: (u64, u64)| #[trigger] r.contains(y) <==> s.contains(y) || y == x by {
            if rest.contains(y) {
                let i = choose|i: int| 0 <= i < rest.len() && rest[i] == y;
                assert(r[i] == y);
            }
            if s.contains(y) {
                let i = choose|i: int| 0 <= i < s.len() && s[i] == y;
                if i < head.len() {
                    assert(head[i] == y);
                } else {
                    assert(r[rest.len() as int] == y);
                }
            }
            if head.contains(y) {
                let i = choose|i: int| 0 <= i < head.len() && head[i] == y;
                assert(s[i] == y);
            }
            if r.contains(y) {
                let i = choose|i: int| 0 <= i < r.len() && r[i] == y;
                if i < rest.len() {
                    assert(rest[i] == y);
                } else {
                    assert(s[s.len() - 1] == y);
                }
            }
        }
        assert forall|i: int, j: int| 0 <= i < j < r.len() implies range_not_after(
            #[trigger] r[i],
            #[trigger] r[j],
        ) by {
            if j == rest.len() {
                assert(rest.contains(rest[i]));
                if head.contains(rest[i]) {
                    let k = choose|k: int| 0 <= k < head.len() && head[k] == rest[i];
                    assert(s[k] == rest[i]);
                }
            }
        }
    }
}

fn push_range(ranges: &mut Vec<(u64, u64)>, x: (u64, u64))
    ensures
        final(ranges)@ == insert_range(old(ranges)@, x),
{
    let mut at: usize = ranges.len();
    while at > 0 && (x.0 < ranges[at - 1].0 || (x.0 == ranges[at - 1].0 && x.1 < ranges[at - 1].1))
        invariant
            at <= ranges.len(),
            forall|i: int| at <= i < ranges.len() ==> !range_not_after(#[trigger] ranges@[i], x),
        decreases at,
    {
        at -= 1;
    }
    proof {
        lemma_range_insertion_point(ranges@, x, at as int);
    }
    ranges.insert(at, x);
}

proof fn lemma_range_insertion_point(s: Seq<(u64, u64)>, x: (u64, u64), at: int)
    requires
        0 <= at <= s.len(),
        at > 0 ==> range_not_after(s[at - 1], x),
        forall|i: int| at <= i < s.len() ==> !range_not_after(#[trigger] s[i], x),
    ensures
        insert_range(s, x) == s.insert(at, x),
    decreases s.len(),
{
    if at == s.len() {
        assert(s.insert(at, x) == s.push(x));
    } else {
        assert(!range_not_after(s[s.len() - 1], x));
        lemma_range_insertion_point(s.drop_last(), x, at);
        assert(s.drop_last().insert(at, x).push(s.last()) == s.insert(at, x));
    }
}

/// Going through `ranges` in turn from `covered` events, the whole inventory is covered before a
/// gap is met.
pub open spec fn covers_from(ranges: Seq<(u64, u64)>, covered: u64, inventory_event_count: u64) -> bool
    decreases ranges.len(),
{
    if ranges.len() == 0 || ranges[0].0 > covered {
        false
    } else {
        let reached = if ranges[0].1 > covered {
            ranges[0].1
        } else {
            covered
        };
        reached >= inventory_event_count || covers_from(
            ranges.drop_first(),
            reached,
            inventory_event_count,
        )
    }
}

/// The ranges, taken in turn, cover an inventory that is not empty.
pub open spec fn covers_inventory(ranges: Seq<(u64, u64)>, inventory_event_count: u64) -> bool {
    inventory_event_count > 0 && covers_from(ranges, 0, inventory_event_count)
}

/// Whether the ranges, taken in turn, cover the whole inventory without a gap. An empty
/// inventory is never covered.
pub fn ranges_cover_inventory(ranges: &[(u64, u64)], inventory_event_count: u64) -> (r: bool)
    ensures
        r == covers_inventory(ranges@, inventory_event_count),
{
    if inventory_event_count == 0 {
        return false;
    }
    let mut covered_until: u64 = 0;
    let mut i: usize = 0;
    assert(ranges@.skip(0) == ranges@);
    while i < ranges.len()
        invariant
            i <= ranges.len(),
            inventory_event_count > 0,
            covers_from(ranges@, 0, inventory_event_count) == covers_from(
                ranges@.skip(i as int),
                covered_until,
                inventory_event_count,
            ),
        decreases ranges.len() - i,
    {
        let start: u64 = ranges[i].0;
        let end: u64 = ranges[i].1;
        assert(ranges@.skip(i as int).drop_first() == ranges@.skip(i + 1));
        if start > covered_until {
            return false;
        }
        if end > covered_until {
            covered_until = end;
        }
        if covered_until >= inventory_event_count {
            return true;
        }
        i += 1;
    }
    false
}

/// Some range holds the event at position `event`.
pub open spec fn in_some_range(ranges: Seq<(u64, u64)>, event: int) -> bool {
    exists|i: int| 0 <= i < ranges.len() && (#[trigger] ranges[i]).0 <= event < ranges[i].1
}

/// Ranges in the order of where they start.
pub open spec fn starts_in_order(s: Seq<(u64, u64)>) -> bool {
    forall|i: int, j: int| 0 <= i < j < s.len() ==> (#[trigger] s[i]).0 <= (#[trigger] s[j]).0
}

/// Ranges in the order of where they start cover an inventory exactly where every event of it
/// lies in some range.
pub proof fn coverage_means_every_event(ranges: Seq<(u64, u64)>, inventory_event_count: u64)
    requires
        starts_in_order(ranges),
        inventory_event_count > 0,
    ensures
        covers_inventory(ranges, inventory_event_count) <==> forall|event: int|
            0 <= event < inventory_event_count ==> #[trigger] in_some_range(ranges, event),
{
    lemma_coverage(ranges, 0, inventory_event_count);
}

proof fn lemma_coverage(ranges: Seq<(u64, u64)>, covered: u64, count: u64)
    requires
        starts_in_order(ranges),
        covered < count,
    ensures
        covers_from(ranges, covered, count) <==> forall|event: int|
            covered <= event < count ==> #[trigger] in_some_range(ranges, event),
    decreases ranges.len(),
{
    if ranges.len() == 0 {
        assert(!in_some_range(ranges, covered as int));
    } else {
        let first = ranges[0];
        let rest = ranges.drop_first();
        assert(starts_in_order(rest)) by {
            assert forall|i: int, j: int| 0 <= i < j < rest.len() implies (#[trigger] rest[i]).0 <= (
            #[trigger] rest[j]).0 by {
                assert(ranges[i + 1].0 <= ranges[j + 1].0);
            }
        }
        if first.0 > covered {
            assert(!in_some_range(ranges, covered as int)) by {
                if in_some_range(ranges, covered as int) {
                    let i = choose|i: int|
                        0 <= i < ranges.len() && (#[trigger] ranges[i]).0 <= covered < ranges[i].1;
                    if i > 0 {
                        assert(ranges[0].0 <= ranges[i].0);
                    }
                }
            }
        } else {
            let reached = if first.1 > covered {
                first.1
            } else {
                covered
            };
            assert forall|event: int| covered <= event < reached implies in_some_range(
                ranges,
                event,
            ) by {
                assert(ranges[0].0 <= event < ranges[0].1);
            }
            assert forall|event: int| reached <= event implies (in_some_range(ranges, event)
                <==> in_some_range(rest, event)) by {
                if in_some_range(ranges, event) {
                    let i = choose|i: int|
                        0 <= i < ranges.len() && (#[trigger] ranges[i]).0 <= event < ranges[i].1;
                    assert(i > 0);
                    assert(rest[i - 1].0 <= event < rest[i - 1].1);
                }
                if in_some_range(rest, event) {
                    let i = choose|i: int|
                        0 <= i < rest.len() && (#[trigger] rest[i]).0 <= event < rest[i].1;
                    assert(ranges[i + 1].0 <= event < ranges[i + 1].1);
                }
            }
            if reached < count {
                lemma_coverage(rest, reached, count);
                if covers_from(ranges, covered, count) {
                    assert forall|event: int| covered <= event < count implies #[trigger] in_some_range(
                        ranges,
                        event,
                    ) by {
                        if event >= reached {
                            assert(in_some_range(rest, event));
                        }
                    }
                } else {
                    let missing = choose|event: int|
                        reached <= event < count && !#[trigger] in_some_range(rest, event);
                    assert(!in_some_range(ranges, missing));
                }
            }
        }
    }
}

/// How far the complete claims agree.
#[derive(Clone, Copy, Debug, PartialEq, Eq, Structural)]
pub enum RewrapAgreement {
    Incomplete,
    Divergent,
    SingleSource,
    Agreed,
}

impl RewrapAgreement {
    /// The name of the agreement.
    pub fn as_str(self) -> (r: &'static str)
        ensures
            r@ == self.text(),
    {
        match self {
            RewrapAgreement::Incomplete => "incomplete",
            RewrapAgreement::Divergent => "divergent",
            RewrapAgreement::SingleSource => "single-source",
            RewrapAgreement::Agreed => "agreed",
        }
    }

    /// The name of the agreement.
    pub open spec fn text(self) -> Seq<char> {
        match self {
            RewrapAgreement::Incomplete => "incomplete"@,
            RewrapAgreement::Divergent => "divergent"@,
            RewrapAgreement::SingleSource => "single-source"@,
            RewrapAgreement::Agreed => "agreed"@,
        }
    }
}

/// All claims name the same inventory.
pub open spec fn one_inventory(claims: Seq<ClaimKey>) -> bool {
    forall|i: int, j: int|
        0 <= i < claims.len() && 0 <= j < claims.len() ==> (#[trigger] claims[i]).count == (
        #[trigger] claims[j]).count && claims[i].digest == claims[j].digest
}

/// All claims come from the same source.
pub open spec fn one_source(claims: Seq<ClaimKey>) -> bool {
    forall|i: int, j: int|
        0 <= i < claims.len() && 0 <= j < claims.len() ==> (#[trigger] claims[i]).source == (
        #[trigger] claims[j]).source
}

/// How far complete claims agree: nothing without one, divergent where two inventories were
/// claimed or a source contradicted itself, and agreed only where several sources claim the
/// same inventory.
pub open spec fn agreement_of(complete_claims: Seq<ClaimKey>, equivocation_count: usize) -> RewrapAgreement {
    if complete_claims.len() == 0 {
        RewrapAgreement::Incomplete
    } else if !one_inventory(complete_claims) || equivocation_count > 0 {
        RewrapAgreement::Divergent
    } else if one_source(complete_claims) {
        RewrapAgreement::SingleSource
    } else {
        RewrapAgreement::Agreed
    }
}

/// How far complete claims agree.
pub fn rewrap_agreement(complete_claims: &[ClaimKey], equivocation_count: usize) -> (r:
    RewrapAgreement)
    ensures
        r == agreement_of(complete_claims@, equivocation_count),
{
    if complete_claims.len() == 0 {
        return RewrapAgreement::Incomplete;
    }
    let first = complete_claims[0];
    let mut same_inventory = true;
    let mut same_source = true;
    let mut i: usize = 0;
    while i < complete_claims.len()
        invariant
            i <= complete_claims.len(),
            complete_claims.len() > 0,
            first == complete_claims@[0],
            same_inventory == (forall|j: int|
                0 <= j < i ==> (#[trigger] complete_claims@[j]).count == first.count
                    && complete_claims@[j].digest == first.digest),
            same_source == (forall|j: int|
                0 <= j < i ==> (#[trigger] complete_claims@[j]).source == first.source),
        decreases complete_claims.len() - i,
    {
        let claim = complete_claims[i];
        same_inventory = same_inventory && claim.count == first.count && claim.digest
            == first.digest;
        same_source = same_source && claim.source == first.source;
        i += 1;
    }
    assert(same_inventory == one_inventory(complete_claims@));
    assert(same_source == one_source(complete_claims@));
    if !same_inventory || equivocation_count > 0 {
        RewrapAgreement::Divergent
    } else if same_source {
        RewrapAgreement::SingleSource
    } else {
        RewrapAgreement::Agreed
    }
}

/// The name of how far complete claims agree.
pub fn classify_history_rewrap_agreement(
    complete_claims: &[ClaimKey],
    equivocation_count: usize,
) -> (r: &'static str)
    ensures
        r@ == agreement_of(complete_claims@, equivocation_count).text(),
{
    rewrap_agreement(complete_claims, equivocation_count).as_str()
}

/// The claim that a bundle makes.
pub open spec fn claim_of(bundle: StoredRewrap) -> ClaimKey {
    ClaimKey {
        source: bundle.source_device_id,
        count: bundle.inventory_event_count,
        digest: bundle.inventory_digest,
    }
}

/// The ranges, in order, of the bundles of a conversation that make a claim.
pub open spec fn claim_ranges(
    stored: Seq<StoredRewrap>,
    count: nat,
    conversation_id: ConversationId,
    key: ClaimKey,
) -> Seq<(u64, u64)>
    decreases count,
{
    if count == 0 {
        Seq::empty()
    } else {
        let before = claim_ranges(stored, (count - 1) as nat, conversation_id, key);
        let bundle = stored[count - 1];
        if bundle.manifest.conversation_id == conversation_id && claim_of(bundle) == key {
            insert_range(before, (bundle.range_start, bundle.range_end))
        } else {
            before
        }
    }
}

/// The events that the bundles of a conversation carry.
pub open spec fn covered_events(
    stored: Seq<StoredRewrap>,
    count: nat,
    conversation_id: ConversationId,
) -> Set<EventId>
    decreases count,
{
    if count == 0 {
        Set::empty()
    } else {
        let before = covered_events(stored, (count - 1) as nat, conversation_id);
        if stored[count - 1].manifest.conversation_id == conversation_id {
            before.union(stored[count - 1].event_ids@.to_set())
        } else {
            before
        }
    }
}

/// The number of bundles of a conversation.
pub open spec fn matched_bundles(
    stored: Seq<StoredRewrap>,
    count: nat,
    conversation_id: ConversationId,
) -> nat
    decreases count,
{
    if count == 0 {
        0
    } else {
        let before = matched_bundles(stored, (count - 1) as nat, conversation_id);
        if stored[count - 1].manifest.conversation_id == conversation_id {
            before + 1
        } else {
            before
        }
    }
}

/// Why a bundle of the conversation is not for this device.
pub open spec fn bundle_fault(bundle: StoredRewrap, at: usize, recipient: DeviceCertificate) -> Option<
    ReconcileError,
> {
    if bundle.manifest.account_id != recipient.account_id {
        Some(ReconcileError::OtherAccount { bundle: at })
    } else if bundle.manifest.recipient_device_id != recipient.device_id {
        Some(ReconcileError::OtherRecipient { bundle: at })
    } else if certificate_of(
        bundle.manifest.account_device_list.certificates@,
        recipient.device_id,
    ) != Some(recipient) {
        Some(ReconcileError::RecipientCertificateDiffers { bundle: at })
    } else {
        None
    }
}

/// The fault of the first bundle of the conversation that is not for this device.
pub open spec fn first_bundle_fault(
    stored: Seq<StoredRewrap>,
    count: nat,
    conversation_id: ConversationId,
    recipient: DeviceCertificate,
) -> Option<ReconcileError>
    decreases count,
{
    if count == 0 {
        None
    } else {
        match first_bundle_fault(stored, (count - 1) as nat, conversation_id, recipient) {
            Some(error) => Some(error),
            None => if stored[count - 1].manifest.conversation_id == conversation_id {
                bundle_fault(stored[count - 1], (count - 1) as usize, recipient)
            } else {
                None
            },
        }
    }
}

/// Claims in key order, none of them twice.
pub open spec fn claims_in_order(claims: Seq<Claim>) -> bool {
    forall|i: int, j: int| 0 <= i < j < claims.len() ==> (#[trigger] claims[i]).key.before(
        (#[trigger] claims[j]).key,
    )
}

/// Some claim has the key.
pub open spec fn has_claim(claims: Seq<Claim>, key: ClaimKey) -> bool {
    exists|i: int| 0 <= i < claims.len() && (#[trigger] claims[i]).key == key
}

/// The claims are exactly those of the first `count` bundles, each with all of its ranges.
pub open spec fn claims_match(
    claims: Seq<Claim>,
    stored: Seq<StoredRewrap>,
    count: nat,
    conversation_id: ConversationId,
) -> bool {
    &&& claims_in_order(claims)
    &&& forall|i: int|
        0 <= i < claims.len() ==> (#[trigger] claims[i]).ranges@ == claim_ranges(
            stored,
            count,
            conversation_id,
            claims[i].key,
        ) && claims[i].ranges@.len() > 0
    &&& forall|m: int|
        0 <= m < count && (#[trigger] stored[m]).manifest.conversation_id == conversation_id
            ==> has_claim(claims, claim_of(stored[m]))
}

proof fn lemma_no_ranges(
    stored: Seq<StoredRewrap>,
    count: nat,
    conversation_id: ConversationId,
    key: ClaimKey,
)
    requires
        forall|m: int|
            0 <= m < count && (#[trigger] stored[m]).manifest.conversation_id == conversation_id
                ==> claim_of(stored[m]) != key,
    ensures
        claim_ranges(stored, count, conversation_id, key).len() == 0,
    decreases count,
{
    if count > 0 {
        lemma_no_ranges(stored, (count - 1) as nat, conversation_id, key);
    }
}

/// The ranges of a claim are in order, and are those of the bundles that make it.
pub proof fn claim_ranges_are_those_of_its_bundles(
    stored: Seq<StoredRewrap>,
    count: nat,
    conversation_id: ConversationId,
    key: ClaimKey,
)
    requires
        count <= stored.len(),
    ensures
        ranges_in_order(claim_ranges(stored, count, conversation_id, key)),
        forall|x: (u64, u64)| #[trigger]
            claim_ranges(stored, count, conversation_id, key).contains(x) <==> exists|m: int|
                0 <= m < count && (#[trigger] stored[m]).manifest.conversation_id
                    == conversation_id && claim_of(stored[m]) == key && x == (
                stored[m].range_start,
                stored[m].range_end,
                ),
    decreases count,
{
    if count > 0 {
        let fewer = (count - 1) as nat;
        claim_ranges_are_those_of_its_bundles(stored, fewer, conversation_id, key);
        let before = claim_ranges(stored, fewer, conversation_id, key);
        let bundle = stored[count - 1];
        lemma_insert_range(before, (bundle.range_start, bundle.range_end));
        assert forall|x: (u64, u64)| #[trigger]
            claim_ranges(stored, count, conversation_id, key).contains(x) <==> exists|m: int|
                0 <= m < count && (#[trigger] stored[m]).manifest.conversation_id
                    == conversation_id && claim_of(stored[m]) == key && x == (
                stored[m].range_start,
                stored[m].range_end,
                ) by {
            assert(before.contains(x) <==> exists|m: int|
                0 <= m < fewer && (#[trigger] stored[m]).manifest.conversation_id
                    == conversation_id && claim_of(stored[m]) == key && x == (
                stored[m].range_start,
                stored[m].range_end,
                ));
            if exists|m: int|
                0 <= m < count && (#[trigger] stored[m]).manifest.conversation_id
                    == conversation_id && claim_of(stored[m]) == key && x == (
                stored[m].range_start,
                stored[m].range_end,
                ) {
                let m = choose|m: int|
                    0 <= m < count && (#[trigger] stored[m]).manifest.conversation_id
                        == conversation_id && claim_of(stored[m]) == key && x == (
                    stored[m].range_start,
                    stored[m].range_end,
                    );
                if m < fewer {
                    assert(before.contains(x));
                } else {
                    assert(m == count - 1);
                }
            }
            if claim_ranges(stored, count, conversation_id, key).contains(x) && !before.contains(
                x,
            ) {
                assert(stored[count - 1].manifest.conversation_id == conversation_id);
            }
        }
    } else {
        assert(claim_ranges(stored, 0, conversation_id, key) =~= Seq::<(u64, u64)>::empty());
    }
}

/// The place of `key` among the claims, and whether it is taken.
fn claim_place(claims: &Vec<Claim>, key: ClaimKey) -> (r: (usize, bool))
    requires
        claims_in_order(claims@),
    ensures
        r.0 <= claims@.len(),
        forall|i: int| 0 <= i < r.0 ==> (#[trigger] claims@[i]).key.before(key),
        r.1 ==> r.0 < claims@.len() && claims@[r.0 as int].key == key,
        !r.1 ==> forall|i: int| r.0 <= i < claims@.len() ==> key.before((#[trigger] claims@[i]).key),
        r.1 == has_claim(claims@, key),
{
    let mut at: usize = 0;
    while at < claims.len() && claims[at].key.precedes(key)
        invariant
            at <= claims.len(),
            forall|i: int| 0 <= i < at ==> (#[trigger] claims@[i]).key.before(key),
        decreases claims.len() - at,
    {
        at += 1;
    }
    if at < claims.len() && claims[at].key == key {
        (at, true)
    } else {
        proof {
            assert forall|i: int| at <= i < claims@.len() implies key.before(
                (#[trigger] claims@[i]).key,
            ) by {
                if i > at {
                    assert(claims@[at as int].key.before(claims@[i].key));
                }
            }
        }
        (at, false)
    }
}

fn add_claim(
    claims: &mut Vec<Claim>,
    stored: &Vec<StoredRewrap>,
    at: usize,
    conversation_id: ConversationId,
)
    requires
        at < stored@.len(),
        stored@[at as int].manifest.conversation_id == conversation_id,
        claims_match(old(claims)@, stored@, at as nat, conversation_id),
    ensures
        claims_match(final(claims)@, stored@, (at + 1) as nat, conversation_id),
{
    let bundle = &stored[at];
    let key = ClaimKey {
        source: bundle.source_device_id,
        count: bundle.inventory_event_count,
        digest: bundle.inventory_digest,
    };
    let range = (bundle.range_start, bundle.range_end);
    let (place, taken) = claim_place(claims, key);
    let ghost before = claims@;
    if taken {
        let mut claim = claims.remove(place);
        push_range(&mut claim.ranges, range);
        proof {
            lemma_insert_range_len(before[place as int].ranges@, range);
        }
        claims.insert(place, claim);
        proof {
            let after = claims@;
            assert(after.len() == before.len());
            assert forall|i: int| 0 <= i < after.len() implies (#[trigger] after[i]).key
                == before[i].key by {}
            assert forall|i: int| 0 <= i < after.len() implies (#[trigger] after[i]).ranges@
                == claim_ranges(stored@, (at + 1) as nat, conversation_id, after[i].key)
                && after[i].ranges@.len() > 0 by {
                if i != place {
                    assert(after[i] == before[i]);
                    if i < place {
                        assert(before[i].key.before(before[place as int].key));
                    } else {
                        assert(before[place as int].key.before(before[i].key));
                    }
                }
            }
            assert forall|m: int|
                0 <= m < at + 1 && (#[trigger] stored@[m]).manifest.conversation_id
                    == conversation_id implies has_claim(after, claim_of(stored@[m])) by {
                if m < at {
                    assert(has_claim(before, claim_of(stored@[m])));
                    let i = choose|i: int|
                        0 <= i < before.len() && (#[trigger] before[i]).key == claim_of(stored@[m]);
                    assert(after[i].key == claim_of(stored@[m]));
                } else {
                    assert(after[place as int].key == key);
                }
            }
        }
    } else {
        proof {
            assert forall|m: int|
                0 <= m < at && (#[trigger] stored@[m]).manifest.conversation_id
                    == conversation_id implies claim_of(stored@[m]) != key by {
                assert(has_claim(before, claim_of(stored@[m])));
            }
            lemma_no_ranges(stored@, at as nat, conversation_id, key);
        }
        let mut ranges: Vec<(u64, u64)> = Vec::new();
        push_range(&mut ranges, range);
        proof {
            assert(claim_ranges(stored@, at as nat, conversation_id, key)
                =~= Seq::<(u64, u64)>::empty());
            lemma_insert_range_len(Seq::<(u64, u64)>::empty(), range);
        }
        claims.insert(place, Claim { key, ranges, complete: false });
        proof {
            let after = claims@;
            assert forall|i: int| 0 <= i < after.len() implies (#[trigger] after[i]).ranges@
                == claim_ranges(stored@, (at + 1) as nat, conversation_id, after[i].key)
                && after[i].ranges@.len() > 0 by {
                if i < place {
                    assert(after[i] == before[i]);
                } else if i > place {
                    assert(after[i] == before[i - 1]);
                }
            }
            assert forall|i: int, j: int| 0 <= i < j < after.len() implies (
            #[trigger] after[i]).key.before((#[trigger] after[j]).key) by {
                if j < place {
                    assert(before[i].key.before(before[j].key));
                } else if i > place {
                    assert(before[i - 1].key.before(before[j - 1].key));
                } else if i < place && j > place {
                    assert(before[i].key.before(before[j - 1].key));
                } else if i == place {
                    assert(key.before(before[j - 1].key));
                } else {
                    assert(before[i].key.before(key));
                }
            }
            assert forall|m: int|
                0 <= m < at + 1 && (#[trigger] stored@[m]).manifest.conversation_id
                    == conversation_id implies has_claim(after, claim_of(stored@[m])) by {
                if m < at {
                    assert(has_claim(before, claim_of(stored@[m])));
                    let i = choose|i: int|
                        0 <= i < before.len() && (#[trigger] before[i]).key == claim_of(stored@[m]);
                    if i < place {
                        assert(after[i].key == claim_of(stored@[m]));
                    } else {
                        assert(after[i + 1].key == claim_of(stored@[m]));
                    }
                } else {
                    assert(after[place as int].key == key);
                }
            }
        }
    }
}

proof fn lemma_insert_range_len(s: Seq<(u64, u64)>, x: (u64, u64))
    ensures
        insert_range(s, x).len() == s.len() + 1,
    decreases s.len(),
{
    if s.len() > 0 && !range_not_after(s.last(), x) {
        lemma_insert_range_len(s.drop_last(), x);
    }
}

fn lists_event(events: &Vec<EventId>, event: EventId) -> (r: bool)
    ensures
        r == events@.contains(event),
{
    let mut i: usize = 0;
    while i < events.len()
        invariant
            i <= events.len(),
            forall|j: int| 0 <= j < i ==> events@[j] != event,
        decreases events.len() - i,
    {
        if events[i] == event {
            assert(events@[i as int] == event);
            return true;
        }
        i += 1;
    }
    false
}

fn add_events(covered: &mut Vec<EventId>, events: &Vec<EventId>)
    requires
        old(covered)@.no_duplicates(),
    ensures
        final(covered)@.no_duplicates(),
        final(covered)@.to_set() == old(covered)@.to_set().union(events@.to_set()),
{
    let ghost start = covered@.to_set();
    let mut i: usize = 0;
    assert(start.union(events@.take(0).to_set()) =~= start);
    while i < events.len()
        invariant
            i <= events.len(),
            covered@.no_duplicates(),
            covered@.to_set() == start.union(events@.take(i as int).to_set()),
        decreases events.len() - i,
    {
        let id = events[i];
        let known = lists_event(covered, id);
        let ghost before = covered@;
        assert(events@.take(i + 1) == events@.take(i as int).push(id));
        proof {
            assert forall|e: EventId| #[trigger] events@.take(i + 1).contains(e) <==> events@.take(
                i as int,
            ).contains(e) || e == id by {
                if events@.take(i as int).contains(e) {
                    let k = choose|k: int|
                        0 <= k < events@.take(i as int).len() && events@.take(i as int)[k] == e;
                    assert(events@.take(i + 1)[k] == e);
                }
                assert(events@.take(i + 1)[i as int] == id);
            }
        }
        if !known {
            covered.push(id);
            proof {
                assert forall|e: EventId| #[trigger] covered@.contains(e) <==> before.contains(e)
                    || e == id by {
                    if before.contains(e) {
                        let k = choose|k: int| 0 <= k < before.len() && before[k] == e;
                        assert(covered@[k] == e);
                    }
                    assert(covered@[before.len() as int] == id);
                }
            }
        }
        proof {
            assert forall|e: EventId| #[trigger] covered@.contains(e) <==> start.contains(e)
                || events@.take(i + 1).contains(e) by {
                assert(before.to_set().contains(e) <==> before.contains(e));
                assert(before.to_set().contains(e) <==> start.contains(e) || events@.take(
                    i as int,
                ).contains(e));
            }
            assert(covered@.to_set() =~= start.union(events@.take(i + 1).to_set()));
        }
        i += 1;
    }
    assert(events@.take(events@.len() as int) == events@);
}

fn lists_device(devices: &Vec<DeviceId>, device: DeviceId) -> (r: bool)
    ensures
        r == devices@.contains(device),
{
    let mut i: usize = 0;
    while i < devices.len()
        invariant
            i <= devices.len(),
            forall|j: int| 0 <= j < i ==> devices@[j] != device,
        decreases devices.len() - i,
    {
        if devices[i] == device {
            assert(devices@[i as int] == device);
            return true;
        }
        i += 1;
    }
    false
}

/// The sources of claims.
pub open spec fn sources(keys: Seq<ClaimKey>) -> Set<DeviceId> {
    Set::new(|s: DeviceId| exists|i: int| 0 <= i < keys.len() && (#[trigger] keys[i]).source == s)
}

/// The sources that make two claims or more.
pub open spec fn equivocators(keys: Seq<ClaimKey>) -> Set<DeviceId> {
    Set::new(
        |s: DeviceId|
            exists|i: int, j: int|
                0 <= i < j < keys.len() && (#[trigger] keys[i]).source == s && (
                #[trigger] keys[j]).source == s,
    )
}

/// The number of sources of claims, and the number of those that make two claims or more.
fn count_sources(keys: &Vec<ClaimKey>) -> (r: (usize, usize))
    ensures
        r.0 == sources(keys@).len(),
        r.1 == equivocators(keys@).len(),
        sources(keys@).finite(),
        equivocators(keys@).finite(),
{
    let mut once: Vec<DeviceId> = Vec::new();
    let mut twice: Vec<DeviceId> = Vec::new();
    let mut i: usize = 0;
    assert(once@.to_set() =~= sources(keys@.take(0)));
    assert(twice@.to_set() =~= equivocators(keys@.take(0)));
    while i < keys.len()
        invariant
            i <= keys.len(),
            once@.no_duplicates(),
            twice@.no_duplicates(),
            once@.to_set() == sources(keys@.take(i as int)),
            twice@.to_set() == equivocators(keys@.take(i as int)),
        decreases keys.len() - i,
    {
        let source = keys[i].source;
        let ghost old_once = once@;
        let ghost old_twice = twice@;
        let ghost head = keys@.take(i as int);
        let ghost longer = keys@.take(i + 1);
        let seen = lists_device(&once, source);
        let seen_twice = lists_device(&twice, source);
        proof {
            assert(old_once.to_set().contains(source) == old_once.contains(source));
            assert forall|s: DeviceId| sources(longer).contains(s) <==> sources(head).contains(s)
                || s == source by {
                if sources(head).contains(s) {
                    let k = choose|k: int| 0 <= k < head.len() && (#[trigger] head[k]).source == s;
                    assert(longer[k].source == s);
                }
                assert(longer[i as int].source == source);
                if sources(longer).contains(s) {
                    let k = choose|k: int|
                        0 <= k < longer.len() && (#[trigger] longer[k]).source == s;
                    if k < i {
                        assert(head[k].source == s);
                    }
                }
            }
            assert forall|s: DeviceId| equivocators(longer).contains(s) <==> equivocators(
                head,
            ).contains(s) || (s == source && sources(head).contains(source)) by {
                if equivocators(head).contains(s) {
                    let (a, b) = choose|a: int, b: int|
                        0 <= a < b < head.len() && (#[trigger] head[a]).source == s && (
                        #[trigger] head[b]).source == s;
                    assert(longer[a].source == s && longer[b].source == s);
                }
                if s == source && sources(head).contains(source) {
                    let k = choose|k: int| 0 <= k < head.len() && (#[trigger] head[k]).source == s;
                    assert(longer[k].source == s && longer[i as int].source == s);
                }
                if equivocators(longer).contains(s) {
                    let (a, b) = choose|a: int, b: int|
                        0 <= a < b < longer.len() && (#[trigger] longer[a]).source == s && (
                        #[trigger] longer[b]).source == s;
                    assert(head[a].source == s);
                    if b < i {
                        assert(head[b].source == s);
                    }
                }
            }
        }
        if seen && !seen_twice {
            twice.push(source);
            proof {
                lemma_push_to_set(old_twice, source);
            }
        }
        if !seen {
            once.push(source);
            proof {
                lemma_push_to_set(old_once, source);
            }
        }
        assert(once@.to_set() =~= sources(longer));
        assert(twice@.to_set() =~= equivocators(longer)) by {
            assert(old_twice.to_set().contains(source) == old_twice.contains(source));
        }
        i += 1;
    }
    assert(keys@.take(keys@.len() as int) == keys@);
    proof {
        once@.unique_seq_to_set();
        twice@.unique_seq_to_set();
        vstd::seq_lib::seq_to_set_is_finite(once@);
        vstd::seq_lib::seq_to_set_is_finite(twice@);
    }
    (once.len(), twice.len())
}

proof fn lemma_push_to_set(s: Seq<DeviceId>, x: DeviceId)
    ensures
        s.push(x).to_set() == s.to_set().insert(x),
{
    assert forall|y: DeviceId| #[trigger] s.push(x).contains(y) <==> s.contains(y) || y == x by {
        if s.contains(y) {
            let k = choose|k: int| 0 <= k < s.len() && s[k] == y;
            assert(s.push(x)[k] == y);
        }
        assert(s.push(x)[s.len() as int] == x);
    }
    assert(s.push(x).to_set() =~= s.to_set().insert(x));
}

/// What reconciling the stored bundles of a conversation shows.
#[derive(Debug)]
pub struct Reconciliation {
    pub matched_bundle_count: usize,
    pub claims: Vec<Claim>,
    pub source_device_count: usize,
    pub complete_source_count: usize,
    pub equivocation_count: usize,
    pub covered_event_count: usize,
    pub agreement: RewrapAgreement,
    pub selected_inventory: Option<ClaimKey>,
}

/// The keys of the claims.
pub open spec fn claim_keys(claims: Seq<Claim>) -> Seq<ClaimKey> {
    claims.map_values(|c: Claim| c.key)
}

/// The keys of the claims that are complete.
pub open spec fn complete_keys(claims: Seq<Claim>, count: nat) -> Seq<ClaimKey>
    decreases count,
{
    if count == 0 {
        Seq::empty()
    } else {
        let before = complete_keys(claims, (count - 1) as nat);
        if claims[count - 1].complete {
            before.push(claims[count - 1].key)
        } else {
            before
        }
    }
}

impl Reconciliation {
    /// The reconciliation tells the truth about the stored bundles.
    pub open spec fn describes(self, stored: Seq<StoredRewrap>, conversation_id: ConversationId) -> bool {
        let complete = complete_keys(self.claims@, self.claims@.len());
        &&& self.matched_bundle_count == matched_bundles(stored, stored.len(), conversation_id)
        &&& claims_match(self.claims@, stored, stored.len(), conversation_id)
        &&& forall|i: int|
            0 <= i < self.claims@.len() ==> (#[trigger] self.claims@[i]).complete
                == covers_inventory(self.claims@[i].ranges@, self.claims@[i].key.count)
        &&& self.source_device_count == sources(claim_keys(self.claims@)).len()
        &&& self.complete_source_count == sources(complete).len()
        &&& self.equivocation_count == equivocators(claim_keys(self.claims@)).len()
        &&& self.covered_event_count == covered_events(stored, stored.len(), conversation_id).len()
        &&& self.agreement == agreement_of(complete, self.equivocation_count)
        &&& self.selected_inventory == if self.agreement == RewrapAgreement::Agreed {
            Some(complete[0])
        } else {
            None
        }
    }
}

fn bundle_is_foreign(bundle: &StoredRewrap, at: usize, recipient: DeviceCertificate) -> (r: Option<
    ReconcileError,
>)
    ensures
        r == bundle_fault(*bundle, at, recipient),
{
    if bundle.manifest.account_id != recipient.account_id {
        return Some(ReconcileError::OtherAccount { bundle: at });
    }
    if bundle.manifest.recipient_device_id != recipient.device_id {
        return Some(ReconcileError::OtherRecipient { bundle: at });
    }
    match bundle.manifest.account_device_list.certificate_for(recipient.device_id) {
        None => Some(ReconcileError::RecipientCertificateDiffers { bundle: at }),
        Some(certificate) => if certificate == recipient {
            None
        } else {
            Some(ReconcileError::RecipientCertificateDiffers { bundle: at })
        },
    }
}

proof fn lemma_bundle_fault_stays(
    stored: Seq<StoredRewrap>,
    count: nat,
    more: nat,
    conversation_id: ConversationId,
    recipient: DeviceCertificate,
)
    requires
        count <= more,
        first_bundle_fault(stored, count, conversation_id, recipient) is Some,
    ensures
        first_bundle_fault(stored, more, conversation_id, recipient) == first_bundle_fault(
            stored,
            count,
            conversation_id,
            recipient,
        ),
    decreases more,
{
    if count < more {
        lemma_bundle_fault_stays(stored, count, (more - 1) as nat, conversation_id, recipient);
    }
}

/// Marks the claims that their ranges cover, and lists the keys of all and of the complete ones.
fn mark_complete(claims: &mut Vec<Claim>) -> (r: (Vec<ClaimKey>, Vec<ClaimKey>))
    ensures
        final(claims)@.len() == old(claims)@.len(),
        forall|i: int|
            0 <= i < final(claims)@.len() ==> (#[trigger] final(claims)@[i]).key
                == old(claims)@[i].key && final(claims)@[i].ranges == old(claims)@[i].ranges
                && final(claims)@[i].complete == covers_inventory(
                old(claims)@[i].ranges@,
                old(claims)@[i].key.count,
            ),
        r.0@ == claim_keys(final(claims)@),
        r.1@ == complete_keys(final(claims)@, final(claims)@.len()),
{
    let ghost before = claims@;
    let mut keys: Vec<ClaimKey> = Vec::new();
    let mut complete: Vec<ClaimKey> = Vec::new();
    let mut i: usize = 0;
    while i < claims.len()
        invariant
            i <= claims.len(),
            claims@.len() == before.len(),
            forall|j: int| i <= j < claims@.len() ==> #[trigger] claims@[j] == before[j],
            forall|j: int|
                0 <= j < i ==> (#[trigger] claims@[j]).key == before[j].key && claims@[j].ranges
                    == before[j].ranges && claims@[j].complete == covers_inventory(
                    before[j].ranges@,
                    before[j].key.count,
                ),
            keys@.len() == i,
            forall|j: int| 0 <= j < i ==> #[trigger] keys@[j] == claims@[j].key,
            complete@ == complete_keys(claims@, i as nat),
        decreases claims.len() - i,
    {
        let ghost earlier = claims@;
        let mut claim = claims.remove(i);
        let covered = ranges_cover_inventory(claim.ranges.as_slice(), claim.key.count);
        claim.complete = covered;
        keys.push(claim.key);
        if covered {
            complete.push(claim.key);
        }
        claims.insert(i, claim);
        proof {
            let now = claims@;
            assert forall|j: int| 0 <= j < i implies #[trigger] now[j] == earlier[j] by {}
            assert forall|j: int| i < j < now.len() implies #[trigger] now[j] == earlier[j] by {}
            lemma_complete_keys_prefix(earlier, now, i as nat);
        }
        i += 1;
    }
    assert(keys@ =~= claim_keys(claims@));
    (keys, complete)
}

proof fn lemma_complete_keys_prefix(a: Seq<Claim>, b: Seq<Claim>, count: nat)
    requires
        count <= a.len(),
        count <= b.len(),
        forall|j: int| 0 <= j < count ==> #[trigger] a[j] == b[j],
    ensures
        complete_keys(a, count) == complete_keys(b, count),
    decreases count,
{
    if count > 0 {
        lemma_complete_keys_prefix(a, b, (count - 1) as nat);
        assert(a[count - 1] == b[count - 1]);
    }
}

/// Reconciles the stored bundles of a conversation. A bundle of the conversation that is not
/// for this device is refused.
pub fn reconcile_history_rewrap(
    stored: &Vec<StoredRewrap>,
    conversation_id: ConversationId,
    recipient_certificate: DeviceCertificate,
) -> (r: Result<Reconciliation, ReconcileError>)
    ensures
        match r {
            Err(error) => first_bundle_fault(
                stored@,
                stored@.len(),
                conversation_id,
                recipient_certificate,
            ) == Some(error),
            Ok(reconciliation) => {
                &&& first_bundle_fault(
                    stored@,
                    stored@.len(),
                    conversation_id,
                    recipient_certificate,
                ) is None
                &&& reconciliation.describes(stored@, conversation_id)
            },
        },
{
    let mut claims: Vec<Claim> = Vec::new();
    let mut covered: Vec<EventId> = Vec::new();
    let mut matched_bundle_count: usize = 0;
    let mut i: usize = 0;
    assert(covered@.to_set() =~= Set::<EventId>::empty());
    while i < stored.len()
        invariant
            i <= stored.len(),
            matched_bundle_count <= i,
            matched_bundle_count == matched_bundles(stored@, i as nat, conversation_id),
            first_bundle_fault(
                stored@,
                i as nat,
                conversation_id,
                recipient_certificate,
            ) is None,
            claims_match(claims@, stored@, i as nat, conversation_id),
            covered@.no_duplicates(),
            covered@.to_set() == covered_events(stored@, i as nat, conversation_id),
        decreases stored.len() - i,
    {
        let bundle = &stored[i];
        if bundle.manifest.conversation_id == conversation_id {
            if let Some(error) = bundle_is_foreign(bundle, i, recipient_certificate) {
                proof {
                    assert(first_bundle_fault(
                        stored@,
                        (i + 1) as nat,
                        conversation_id,
                        recipient_certificate,
                    ) == Some(error));
                    lemma_bundle_fault_stays(
                        stored@,
                        (i + 1) as nat,
                        stored@.len(),
                        conversation_id,
                        recipient_certificate,
                    );
                }
                return Err(error);
            }
            matched_bundle_count += 1;
            add_claim(&mut claims, stored, i, conversation_id);
            add_events(&mut covered, &bundle.event_ids);
        }
        i += 1;
    }
    proof {
        covered@.unique_seq_to_set();
    }
    let ghost gathered = claims@;
    let (keys, complete) = mark_complete(&mut claims);
    proof {
        let marked = claims@;
        assert forall|m: int|
            0 <= m < stored@.len() && (#[trigger] stored@[m]).manifest.conversation_id
                == conversation_id implies has_claim(marked, claim_of(stored@[m])) by {
            assert(has_claim(gathered, claim_of(stored@[m])));
            let k = choose|k: int|
                0 <= k < gathered.len() && (#[trigger] gathered[k]).key == claim_of(stored@[m]);
            assert(marked[k].key == claim_of(stored@[m]));
        }
        assert forall|a: int, b: int| 0 <= a < b < marked.len() implies (
        #[trigger] marked[a]).key.before((#[trigger] marked[b]).key) by {
            assert(gathered[a].key.before(gathered[b].key));
        }
        assert(claims_match(marked, stored@, stored@.len(), conversation_id));
    }
    let (source_device_count, equivocation_count) = count_sources(&keys);
    let (complete_source_count, _) = count_sources(&complete);
    let agreement = rewrap_agreement(complete.as_slice(), equivocation_count);
    let selected_inventory = if agreement == RewrapAgreement::Agreed {
        Some(complete[0])
    } else {
        None
    };
    Ok(
        Reconciliation {
            matched_bundle_count,
            claims,
            source_device_count,
            complete_source_count,
            equivocation_count,
            covered_event_count: covered.len(),
            agreement,
            selected_inventory,
        },
    )
}

/// An inventory is selected only where at least two different sources completely cover it, all
/// complete claims name it, and no source claims two inventories.
pub proof fn selection_needs_agreement(
    reconciliation: Reconciliation,
    stored: Seq<StoredRewrap>,
    conversation_id: ConversationId,
)
    requires
        reconciliation.describes(stored, conversation_id),
        reconciliation.selected_inventory is Some,
    ensures
        ({
            let complete = complete_keys(
                reconciliation.claims@,
                reconciliation.claims@.len(),
            );
            let selected = reconciliation.selected_inventory->0;
            &&& reconciliation.equivocation_count == 0
            &&& forall|i: int|
                0 <= i < complete.len() ==> (#[trigger] complete[i]).count == selected.count
                    && complete[i].digest == selected.digest
            &&& exists|i: int, j: int|
                0 <= i < complete.len() && 0 <= j < complete.len() && (
                #[trigger] complete[i]).source != (#[trigger] complete[j]).source
        }),
{
}

/// A bundle belongs to the conversation, and its source claims the inventory of `key` in it.
pub open spec fn makes_claim(
    bundle: StoredRewrap,
    conversation_id: ConversationId,
    key: ClaimKey,
) -> bool {
    &&& bundle.manifest.conversation_id == conversation_id
    &&& bundle.source_device_id == key.source
    &&& bundle.inventory_event_count == key.count
    &&& bundle.inventory_digest == key.digest
}

/// Some stored bundle of the conversation makes the claim.
pub open spec fn was_claimed(
    stored: Seq<StoredRewrap>,
    conversation_id: ConversationId,
    key: ClaimKey,
) -> bool {
    exists|m: int| 0 <= m < stored.len() && makes_claim(#[trigger] stored[m], conversation_id, key)
}

/// Some stored bundle that makes the claim carries the event at this position of the inventory.
pub open spec fn event_was_received(
    stored: Seq<StoredRewrap>,
    conversation_id: ConversationId,
    key: ClaimKey,
    event: int,
) -> bool {
    exists|m: int|
        0 <= m < stored.len() && makes_claim(#[trigger] stored[m], conversation_id, key)
            && stored[m].range_start <= event < stored[m].range_end
}

/// Every event of the claimed inventory, which has at least one, came in a bundle that makes the
/// claim.
pub open spec fn received_whole(
    stored: Seq<StoredRewrap>,
    conversation_id: ConversationId,
    key: ClaimKey,
) -> bool {
    &&& key.count > 0
    &&& forall|event: int|
        0 <= event < key.count ==> #[trigger] event_was_received(
            stored,
            conversation_id,
            key,
            event,
        )
}

/// A source claims two inventories of the conversation.
pub open spec fn contradicts_itself(
    stored: Seq<StoredRewrap>,
    conversation_id: ConversationId,
    source: DeviceId,
) -> bool {
    exists|one: ClaimKey, other: ClaimKey|
        one.source == source && other.source == source && one != other && #[trigger] was_claimed(
            stored,
            conversation_id,
            one,
        ) && #[trigger] was_claimed(stored, conversation_id, other)
}

/// Two inventories that differ were each received whole.
pub open spec fn whole_inventories_differ(
    stored: Seq<StoredRewrap>,
    conversation_id: ConversationId,
) -> bool {
    exists|one: ClaimKey, other: ClaimKey|
        (one.count != other.count || one.digest != other.digest) && #[trigger] received_whole(
            stored,
            conversation_id,
            one,
        ) && #[trigger] received_whole(stored, conversation_id, other)
}

/// Two sources each gave a whole inventory.
pub open spec fn two_sources_are_whole(
    stored: Seq<StoredRewrap>,
    conversation_id: ConversationId,
) -> bool {
    exists|one: ClaimKey, other: ClaimKey|
        one.source != other.source && #[trigger] received_whole(stored, conversation_id, one)
            && #[trigger] received_whole(stored, conversation_id, other)
}

/// A claim is there exactly for what some bundle claims.
proof fn lemma_claims_are_those_made(
    claims: Seq<Claim>,
    stored: Seq<StoredRewrap>,
    conversation_id: ConversationId,
)
    requires
        claims_match(claims, stored, stored.len(), conversation_id),
    ensures
        forall|key: ClaimKey| #[trigger]
            has_claim(claims, key) <==> was_claimed(stored, conversation_id, key),
{
    assert forall|key: ClaimKey| #[trigger]
        has_claim(claims, key) <==> was_claimed(stored, conversation_id, key) by {
        if has_claim(claims, key) {
            let i = choose|i: int| 0 <= i < claims.len() && (#[trigger] claims[i]).key == key;
            claim_ranges_are_those_of_its_bundles(stored, stored.len(), conversation_id, key);
            let ranges = claim_ranges(stored, stored.len(), conversation_id, key);
            assert(claims[i].ranges@ == ranges);
            assert(ranges.contains(ranges[0]));
            let m = choose|m: int|
                0 <= m < stored.len() && (#[trigger] stored[m]).manifest.conversation_id
                    == conversation_id && claim_of(stored[m]) == key && ranges[0] == (
                stored[m].range_start,
                stored[m].range_end,
                );
            assert(makes_claim(stored[m], conversation_id, key));
        }
        if was_claimed(stored, conversation_id, key) {
            let m = choose|m: int|
                0 <= m < stored.len() && makes_claim(#[trigger] stored[m], conversation_id, key);
            assert(claim_of(stored[m]) == key);
            assert(has_claim(claims, claim_of(stored[m])));
        }
    }
}

/// The ranges of a claim cover its inventory exactly where all of it was received.
proof fn lemma_coverage_is_reception(
    stored: Seq<StoredRewrap>,
    conversation_id: ConversationId,
    key: ClaimKey,
)
    ensures
        covers_inventory(claim_ranges(stored, stored.len(), conversation_id, key), key.count)
            <==> received_whole(stored, conversation_id, key),
{
    let ranges = claim_ranges(stored, stored.len(), conversation_id, key);
    claim_ranges_are_those_of_its_bundles(stored, stored.len(), conversation_id, key);
    assert(starts_in_order(ranges)) by {
        assert forall|i: int, j: int| 0 <= i < j < ranges.len() implies (#[trigger] ranges[i]).0
            <= (
        #[trigger] ranges[j]).0 by {
            assert(range_not_after(ranges[i], ranges[j]));
        }
    }
    if key.count > 0 {
        coverage_means_every_event(ranges, key.count);
        assert forall|event: int| #[trigger]
            in_some_range(ranges, event) <==> event_was_received(
                stored,
                conversation_id,
                key,
                event,
            ) by {
            if in_some_range(ranges, event) {
                let i = choose|i: int|
                    0 <= i < ranges.len() && (#[trigger] ranges[i]).0 <= event < ranges[i].1;
                assert(ranges.contains(ranges[i]));
                let m = choose|m: int|
                    0 <= m < stored.len() && (#[trigger] stored[m]).manifest.conversation_id
                        == conversation_id && claim_of(stored[m]) == key && ranges[i] == (
                    stored[m].range_start,
                    stored[m].range_end,
                    );
                assert(makes_claim(stored[m], conversation_id, key));
            }
            if event_was_received(stored, conversation_id, key, event) {
                let m = choose|m: int|
                    0 <= m < stored.len() && makes_claim(
                        #[trigger] stored[m],
                        conversation_id,
                        key,
                    ) && stored[m].range_start <= event < stored[m].range_end;
                let x = (stored[m].range_start, stored[m].range_end);
                assert(claim_of(stored[m]) == key);
                assert(ranges.contains(x));
                let i = choose|i: int| 0 <= i < ranges.len() && ranges[i] == x;
                assert(ranges[i].0 <= event < ranges[i].1);
            }
        }
        if covers_inventory(ranges, key.count) {
            assert forall|event: int| 0 <= event < key.count implies #[trigger] event_was_received(
                stored,
                conversation_id,
                key,
                event,
            ) by {
                assert(in_some_range(ranges, event));
            }
        }
        if received_whole(stored, conversation_id, key) {
            assert forall|event: int| 0 <= event < key.count implies #[trigger] in_some_range(
                ranges,
                event,
            ) by {
                assert(event_was_received(stored, conversation_id, key, event));
            }
        }
    }
}

proof fn lemma_complete_keys_are_marked(claims: Seq<Claim>, count: nat, key: ClaimKey)
    requires
        count <= claims.len(),
    ensures
        complete_keys(claims, count).contains(key) <==> exists|i: int|
            0 <= i < count && (#[trigger] claims[i]).key == key && claims[i].complete,
    decreases count,
{
    if count > 0 {
        let fewer = (count - 1) as nat;
        let before = complete_keys(claims, fewer);
        lemma_complete_keys_are_marked(claims, fewer, key);
        let last = claims[count - 1];
        if last.complete {
            assert(complete_keys(claims, count) == before.push(last.key));
            if before.contains(key) {
                let k = choose|k: int| 0 <= k < before.len() && before[k] == key;
                assert(before.push(last.key)[k] == key);
            }
            assert(before.push(last.key)[before.len() as int] == last.key);
        }
        if exists|i: int| 0 <= i < count && (#[trigger] claims[i]).key == key
            && claims[i].complete {
            let i = choose|i: int|
                0 <= i < count && (#[trigger] claims[i]).key == key && claims[i].complete;
            if i < fewer {
                assert(before.contains(key));
            }
        }
    }
}

/// The keys that the agreement is computed from are exactly those of inventories that were
/// received whole.
pub proof fn complete_claims_were_received_whole(
    reconciliation: Reconciliation,
    stored: Seq<StoredRewrap>,
    conversation_id: ConversationId,
)
    requires
        reconciliation.describes(stored, conversation_id),
    ensures
        forall|key: ClaimKey| #[trigger]
            complete_keys(reconciliation.claims@, reconciliation.claims@.len()).contains(key)
                <==> received_whole(stored, conversation_id, key),
        forall|i: int|
            0 <= i < reconciliation.claims@.len() ==> (
            #[trigger] reconciliation.claims@[i]).complete == received_whole(
                stored,
                conversation_id,
                reconciliation.claims@[i].key,
            ),
        forall|key: ClaimKey| #[trigger]
            has_claim(reconciliation.claims@, key) <==> was_claimed(stored, conversation_id, key),
{
    let claims = reconciliation.claims@;
    lemma_claims_are_those_made(claims, stored, conversation_id);
    assert forall|i: int| 0 <= i < claims.len() implies (#[trigger] claims[i]).complete
        == received_whole(stored, conversation_id, claims[i].key) by {
        lemma_coverage_is_reception(stored, conversation_id, claims[i].key);
    }
    assert forall|key: ClaimKey| #[trigger]
        complete_keys(claims, claims.len()).contains(key) <==> received_whole(
            stored,
            conversation_id,
            key,
        ) by {
        lemma_complete_keys_are_marked(claims, claims.len(), key);
        if received_whole(stored, conversation_id, key) {
            assert(event_was_received(stored, conversation_id, key, 0));
            let m = choose|m: int|
                0 <= m < stored.len() && makes_claim(#[trigger] stored[m], conversation_id, key)
                    && stored[m].range_start <= 0 < stored[m].range_end;
            assert(was_claimed(stored, conversation_id, key));
            assert(has_claim(claims, key));
            let i = choose|i: int| 0 <= i < claims.len() && (#[trigger] claims[i]).key == key;
            assert(claims[i].complete);
        }
    }
}

/// What a reconciliation shows follows from what was received. Without a whole inventory nothing
/// is complete. Where whole inventories differ, or a source contradicts itself, they diverge.
/// Otherwise they agree where two sources or more gave the inventory whole, and only then is it
/// selected.
pub proof fn agreement_follows_from_what_was_received(
    reconciliation: Reconciliation,
    stored: Seq<StoredRewrap>,
    conversation_id: ConversationId,
)
    requires
        reconciliation.describes(stored, conversation_id),
    ensures
        ({
            let nothing_whole = forall|key: ClaimKey| !#[trigger] received_whole(
                stored,
                conversation_id,
                key,
            );
            let contradicted = exists|source: DeviceId| #[trigger] contradicts_itself(
                stored,
                conversation_id,
                source,
            );
            let differ = whole_inventories_differ(stored, conversation_id);
            let several = two_sources_are_whole(stored, conversation_id);
            &&& reconciliation.agreement == RewrapAgreement::Incomplete <==> nothing_whole
            &&& reconciliation.agreement == RewrapAgreement::Divergent <==> !nothing_whole
                && (differ
                || contradicted)
            &&& reconciliation.agreement == RewrapAgreement::SingleSource <==> !nothing_whole
                && !differ && !contradicted && !several
            &&& reconciliation.agreement == RewrapAgreement::Agreed <==> !differ && !contradicted
                && several
            &&& reconciliation.selected_inventory is Some <==> !differ && !contradicted && several
        }),
        reconciliation.selected_inventory matches Some(selected) ==> {
            &&& received_whole(stored, conversation_id, selected)
            &&& exists|other: ClaimKey|
                other.source != selected.source && other.count == selected.count && other.digest
                    == selected.digest && #[trigger] received_whole(stored, conversation_id, other)
        },
{
    let claims = reconciliation.claims@;
    let complete = complete_keys(claims, claims.len());
    let keys = claim_keys(claims);
    complete_claims_were_received_whole(reconciliation, stored, conversation_id);
    lemma_equivocation_is_contradiction(claims, stored, conversation_id);
    assert forall|i: int| 0 <= i < complete.len() implies received_whole(
        stored,
        conversation_id,
        #[trigger] complete[i],
    ) by {
        assert(complete.contains(complete[i]));
    }
    lemma_equivocators_are_finite(keys);
    if equivocators(keys).len() == 0 {
        assert forall|source: DeviceId| !#[trigger] contradicts_itself(
            stored,
            conversation_id,
            source,
        ) by {
            assert(!equivocators(keys).contains(source));
        }
    } else {
        let source = equivocators(keys).choose();
        assert(equivocators(keys).contains(source)) by {
            if equivocators(keys) =~= Set::<DeviceId>::empty() {
                assert(equivocators(keys).len() == 0);
            }
        }
        assert(contradicts_itself(stored, conversation_id, source));
    }
    if complete.len() == 0 {
        assert forall|key: ClaimKey| !#[trigger] received_whole(stored, conversation_id, key) by {
            assert(!complete.contains(key));
        }
    } else {
        assert(received_whole(stored, conversation_id, complete[0]));
    }
    if !one_inventory(complete) {
        let (i, j) = choose|i: int, j: int|
            0 <= i < complete.len() && 0 <= j < complete.len() && !((#[trigger] complete[i]).count
                == (#[trigger] complete[j]).count && complete[i].digest == complete[j].digest);
        assert(received_whole(stored, conversation_id, complete[i]));
        assert(received_whole(stored, conversation_id, complete[j]));
        assert(whole_inventories_differ(stored, conversation_id));
    }
    if whole_inventories_differ(stored, conversation_id) {
        let (one, other) = choose|one: ClaimKey, other: ClaimKey|
            (one.count != other.count || one.digest != other.digest) && #[trigger] received_whole(
                stored,
                conversation_id,
                one,
            ) && #[trigger] received_whole(stored, conversation_id, other);
        assert(complete.contains(one) && complete.contains(other));
        let i = choose|i: int| 0 <= i < complete.len() && complete[i] == one;
        let j = choose|j: int| 0 <= j < complete.len() && complete[j] == other;
        assert(complete[i].count != complete[j].count || complete[i].digest != complete[j].digest);
        assert(!one_inventory(complete));
    }
    if !one_source(complete) {
        let (i, j) = choose|i: int, j: int|
            0 <= i < complete.len() && 0 <= j < complete.len() && (#[trigger] complete[i]).source
                != (#[trigger] complete[j]).source;
        assert(received_whole(stored, conversation_id, complete[i]));
        assert(received_whole(stored, conversation_id, complete[j]));
        assert(two_sources_are_whole(stored, conversation_id));
        if one_inventory(complete) {
            let other = if complete[i].source != complete[0].source {
                complete[i]
            } else {
                complete[j]
            };
            assert(other.count == complete[0].count && other.digest == complete[0].digest);
            assert(received_whole(stored, conversation_id, other));
        }
    }
    if two_sources_are_whole(stored, conversation_id) {
        let (one, other) = choose|one: ClaimKey, other: ClaimKey|
            one.source != other.source && #[trigger] received_whole(stored, conversation_id, one)
                && #[trigger] received_whole(stored, conversation_id, other);
        assert(complete.contains(one) && complete.contains(other));
        let i = choose|i: int| 0 <= i < complete.len() && complete[i] == one;
        let j = choose|j: int| 0 <= j < complete.len() && complete[j] == other;
        assert(complete[i].source != complete[j].source);
        assert(!one_source(complete));
    }
}

proof fn lemma_equivocators_are_finite(keys: Seq<ClaimKey>)
    ensures
        equivocators(keys).finite(),
        sources(keys).finite(),
{
    let listed = keys.map_values(|key: ClaimKey| key.source);
    vstd::seq_lib::seq_to_set_is_finite(listed);
    assert(sources(keys) =~= listed.to_set()) by {
        assert forall|source: DeviceId| sources(keys).contains(source)
            <==> listed.to_set().contains(
            source,
        ) by {
            if sources(keys).contains(source) {
                let i = choose|i: int| 0 <= i < keys.len() && (#[trigger] keys[i]).source == source;
                assert(listed[i] == source);
            }
            if listed.contains(source) {
                let i = choose|i: int| 0 <= i < listed.len() && listed[i] == source;
                assert(keys[i].source == source);
            }
        }
    }
    vstd::set_lib::lemma_len_subset(equivocators(keys).intersect(sources(keys)), sources(keys));
    assert(equivocators(keys).subset_of(sources(keys))) by {
        assert forall|source: DeviceId| equivocators(keys).contains(source) implies sources(
            keys,
        ).contains(source) by {
            let (i, j) = choose|i: int, j: int|
                0 <= i < j < keys.len() && (#[trigger] keys[i]).source == source && (
                #[trigger] keys[j]).source == source;
            assert(keys[i].source == source);
        }
    }
    assert(equivocators(keys) =~= equivocators(keys).intersect(sources(keys)));
}

proof fn lemma_equivocation_is_contradiction(
    claims: Seq<Claim>,
    stored: Seq<StoredRewrap>,
    conversation_id: ConversationId,
)
    requires
        claims_match(claims, stored, stored.len(), conversation_id),
    ensures
        forall|source: DeviceId| #[trigger]
            equivocators(claim_keys(claims)).contains(source) <==> contradicts_itself(
                stored,
                conversation_id,
                source,
            ),
{
    let keys = claim_keys(claims);
    lemma_claims_are_those_made(claims, stored, conversation_id);
    assert forall|source: DeviceId| #[trigger]
        equivocators(keys).contains(source) <==> contradicts_itself(
            stored,
            conversation_id,
            source,
        ) by {
        if equivocators(keys).contains(source) {
            let (i, j) = choose|i: int, j: int|
                0 <= i < j < keys.len() && (#[trigger] keys[i]).source == source && (
                #[trigger] keys[j]).source == source;
            assert(claims[i].key.before(claims[j].key));
            assert(keys[i] != keys[j]);
            assert(has_claim(claims, keys[i])) by {
                assert(claims[i].key == keys[i]);
            }
            assert(has_claim(claims, keys[j])) by {
                assert(claims[j].key == keys[j]);
            }
            assert(was_claimed(stored, conversation_id, keys[i]));
            assert(was_claimed(stored, conversation_id, keys[j]));
        }
        if contradicts_itself(stored, conversation_id, source) {
            let (one, other) = choose|one: ClaimKey, other: ClaimKey|
                one.source == source && other.source == source && one != other
                    && #[trigger] was_claimed(stored, conversation_id, one)
                    && #[trigger] was_claimed(stored, conversation_id, other);
            assert(has_claim(claims, one) && has_claim(claims, other));
            let i = choose|i: int| 0 <= i < claims.len() && (#[trigger] claims[i]).key == one;
            let j = choose|j: int| 0 <= j < claims.len() && (#[trigger] claims[j]).key == other;
            assert(keys[i] == one && keys[j] == other);
            if i < j {
                assert(keys[i].source == source && keys[j].source == source);
            } else {
                assert(j < i);
                assert(keys[j].source == source && keys[i].source == source);
            }
        }
    }
}

/// The counts of a reconciliation are those of what was stored for the conversation: its bundles,
/// the sources that claim something, those that gave a whole inventory, those that contradict
/// themselves, and the events that its bundles carry.
pub proof fn reconciliation_counts_what_was_stored(
    reconciliation: Reconciliation,
    stored: Seq<StoredRewrap>,
    conversation_id: ConversationId,
)
    requires
        reconciliation.describes(stored, conversation_id),
    ensures
        reconciliation.matched_bundle_count == Set::new(
            |m: int| 0 <= m < stored.len() && stored[m].manifest.conversation_id == conversation_id,
        ).len(),
        reconciliation.source_device_count == Set::new(
            |source: DeviceId|
                exists|key: ClaimKey|
                    key.source == source && #[trigger] was_claimed(stored, conversation_id, key),
        ).len(),
        reconciliation.complete_source_count == Set::new(
            |source: DeviceId|
                exists|key: ClaimKey|
                    key.source == source && #[trigger] received_whole(stored, conversation_id, key),
        ).len(),
        reconciliation.equivocation_count == Set::new(
            |source: DeviceId| contradicts_itself(stored, conversation_id, source),
        ).len(),
        reconciliation.covered_event_count == Set::new(
            |event: EventId|
                exists|m: int|
                    0 <= m < stored.len() && (#[trigger] stored[m]).manifest.conversation_id
                        == conversation_id && stored[m].event_ids@.contains(event),
        ).len(),
{
    let claims = reconciliation.claims@;
    let keys = claim_keys(claims);
    let complete = complete_keys(claims, claims.len());
    complete_claims_were_received_whole(reconciliation, stored, conversation_id);
    lemma_equivocation_is_contradiction(claims, stored, conversation_id);
    lemma_matched_bundles(stored, stored.len(), conversation_id);
    lemma_covered_events(stored, stored.len(), conversation_id);
    assert(equivocators(keys) =~= Set::new(
        |source: DeviceId| contradicts_itself(stored, conversation_id, source),
    ));
    let claimants = Set::new(
        |source: DeviceId|
            exists|key: ClaimKey|
                key.source == source && #[trigger] was_claimed(stored, conversation_id, key),
    );
    assert forall|source: DeviceId| sources(keys).contains(source)
        <==> claimants.contains(source) by {
        if sources(keys).contains(source) {
            let i = choose|i: int| 0 <= i < keys.len() && (#[trigger] keys[i]).source == source;
            assert(claims[i].key == keys[i]);
            assert(has_claim(claims, keys[i]));
            assert(was_claimed(stored, conversation_id, keys[i]));
        }
        if claimants.contains(source) {
            let key = choose|key: ClaimKey|
                key.source == source && #[trigger] was_claimed(stored, conversation_id, key);
            assert(has_claim(claims, key));
            let i = choose|i: int| 0 <= i < claims.len() && (#[trigger] claims[i]).key == key;
            assert(keys[i].source == source);
        }
    }
    assert(sources(keys) =~= claimants);
    let whole = Set::new(
        |source: DeviceId|
            exists|key: ClaimKey|
                key.source == source && #[trigger] received_whole(stored, conversation_id, key),
    );
    assert forall|source: DeviceId| sources(complete).contains(source)
        <==> whole.contains(source) by {
        if sources(complete).contains(source) {
            let i = choose|i: int|
                0 <= i < complete.len() && (#[trigger] complete[i]).source == source;
            assert(complete.contains(complete[i]));
            assert(received_whole(stored, conversation_id, complete[i]));
        }
        if whole.contains(source) {
            let key = choose|key: ClaimKey|
                key.source == source && #[trigger] received_whole(stored, conversation_id, key);
            assert(complete.contains(key));
            let i = choose|i: int| 0 <= i < complete.len() && complete[i] == key;
            assert(complete[i].source == source);
        }
    }
    assert(sources(complete) =~= whole);
}

proof fn lemma_matched_bundles(
    stored: Seq<StoredRewrap>,
    count: nat,
    conversation_id: ConversationId,
)
    requires
        count <= stored.len(),
    ensures
        ({
            let matched = Set::new(
                |m: int| 0 <= m < count && stored[m].manifest.conversation_id == conversation_id,
            );
            matched.finite() && matched.len() == matched_bundles(stored, count, conversation_id)
        }),
    decreases count,
{
    let matched = Set::new(
        |m: int| 0 <= m < count && stored[m].manifest.conversation_id == conversation_id,
    );
    if count == 0 {
        assert(matched =~= Set::<int>::empty());
    } else {
        let fewer = (count - 1) as nat;
        lemma_matched_bundles(stored, fewer, conversation_id);
        let before = Set::new(
            |m: int| 0 <= m < fewer && stored[m].manifest.conversation_id == conversation_id,
        );
        if stored[fewer as int].manifest.conversation_id == conversation_id {
            assert(matched =~= before.insert(fewer as int));
        } else {
            assert(matched =~= before);
        }
    }
}

proof fn lemma_covered_events(
    stored: Seq<StoredRewrap>,
    count: nat,
    conversation_id: ConversationId,
)
    requires
        count <= stored.len(),
    ensures
        covered_events(stored, count, conversation_id) == Set::new(
            |event: EventId|
                exists|m: int|
                    0 <= m < count && (#[trigger] stored[m]).manifest.conversation_id
                        == conversation_id && stored[m].event_ids@.contains(event),
        ),
    decreases count,
{
    let carried = Set::new(
        |event: EventId|
            exists|m: int|
                0 <= m < count && (#[trigger] stored[m]).manifest.conversation_id
                    == conversation_id && stored[m].event_ids@.contains(event),
    );
    if count == 0 {
        assert(carried =~= Set::<EventId>::empty());
    } else {
        let fewer = (count - 1) as nat;
        lemma_covered_events(stored, fewer, conversation_id);
        let before = covered_events(stored, fewer, conversation_id);
        let last = stored[fewer as int];
        assert forall|event: EventId| carried.contains(event) <==> covered_events(
            stored,
            count,
            conversation_id,
        ).contains(event) by {
            if carried.contains(event) {
                let m = choose|m: int|
                    0 <= m < count && (#[trigger] stored[m]).manifest.conversation_id
                        == conversation_id && stored[m].event_ids@.contains(event);
                if m < fewer {
                    assert(before.contains(event));
                }
            }
            if before.contains(event) {
                let m = choose|m: int|
                    0 <= m < fewer && (#[trigger] stored[m]).manifest.conversation_id
                        == conversation_id && stored[m].event_ids@.contains(event);
                assert(stored[m].event_ids@.contains(event));
            }
            if last.manifest.conversation_id == conversation_id && last.event_ids@.contains(event) {
                assert(stored[fewer as int].event_ids@.contains(event));
            }
        }
        assert(carried =~= covered_events(stored, count, conversation_id));
    }
}

/// A bundle of the conversation is addressed to this device: to its account, to itself, and with
/// a device list that holds exactly its certificate for it.
pub open spec fn addressed_to(bundle: StoredRewrap, recipient: DeviceCertificate) -> bool {
    &&& bundle.manifest.account_id == recipient.account_id
    &&& bundle.manifest.recipient_device_id == recipient.device_id
    &&& certificate_of(
        bundle.manifest.account_device_list.certificates@,
        recipient.device_id,
    ) == Some(recipient)
}

/// Reconciling succeeds exactly where every bundle of the conversation is addressed to this
/// device. Otherwise the first one that is not is reported, with what is wrong about it.
pub proof fn foreign_bundles_are_reported(
    stored: Seq<StoredRewrap>,
    conversation_id: ConversationId,
    recipient: DeviceCertificate,
)
    requires
        stored.len() <= usize::MAX,
    ensures
        first_bundle_fault(stored, stored.len(), conversation_id, recipient) is None <==> forall|
            m: int,
        |
            0 <= m < stored.len() && (#[trigger] stored[m]).manifest.conversation_id
                == conversation_id ==> addressed_to(stored[m], recipient),
        first_bundle_fault(stored, stored.len(), conversation_id, recipient) matches Some(error)
            ==> {
            let at = match error {
                ReconcileError::OtherAccount { bundle } => bundle,
                ReconcileError::OtherRecipient { bundle } => bundle,
                ReconcileError::RecipientCertificateDiffers { bundle } => bundle,
            };
            &&& at < stored.len()
            &&& stored[at as int].manifest.conversation_id == conversation_id
            &&& forall|m: int|
                0 <= m < at && (#[trigger] stored[m]).manifest.conversation_id == conversation_id
                    ==> addressed_to(stored[m], recipient)
            &&& error is OtherAccount <==> stored[at as int].manifest.account_id
                != recipient.account_id
            &&& error is OtherRecipient ==> stored[at as int].manifest.recipient_device_id
                != recipient.device_id
            &&& error is RecipientCertificateDiffers
                ==> stored[at as int].manifest.recipient_device_id
                == recipient.device_id && !addressed_to(stored[at as int], recipient)
        },
{
    lemma_first_bundle_fault(stored, stored.len(), conversation_id, recipient);
}

proof fn lemma_first_bundle_fault(
    stored: Seq<StoredRewrap>,
    count: nat,
    conversation_id: ConversationId,
    recipient: DeviceCertificate,
)
    requires
        count <= stored.len() <= usize::MAX,
    ensures
        match first_bundle_fault(stored, count, conversation_id, recipient) {
            None => forall|m: int|
                0 <= m < count && (#[trigger] stored[m]).manifest.conversation_id
                    == conversation_id ==> addressed_to(stored[m], recipient),
            Some(error) => exists|at: int|
                0 <= at < count && (#[trigger] stored[at]).manifest.conversation_id
                    == conversation_id && !addressed_to(stored[at], recipient) && bundle_fault(
                    stored[at],
                    at as usize,
                    recipient,
                ) == Some(error) && forall|m: int|
                    0 <= m < at && (#[trigger] stored[m]).manifest.conversation_id
                        == conversation_id ==> addressed_to(stored[m], recipient),
        },
    decreases count,
{
    if count > 0 {
        let fewer = (count - 1) as nat;
        lemma_first_bundle_fault(stored, fewer, conversation_id, recipient);
        match first_bundle_fault(stored, fewer, conversation_id, recipient) {
            Some(error) => {
                let at = choose|at: int|
                    0 <= at < fewer && (#[trigger] stored[at]).manifest.conversation_id
                        == conversation_id && !addressed_to(stored[at], recipient) && bundle_fault(
                        stored[at],
                        at as usize,
                        recipient,
                    ) == Some(error) && forall|m: int|
                        0 <= m < at && (#[trigger] stored[m]).manifest.conversation_id
                            == conversation_id ==> addressed_to(stored[m], recipient);
                assert(stored[at].manifest.conversation_id == conversation_id);
            },
            None => {
                let last = stored[fewer as int];
                if last.manifest.conversation_id == conversation_id && !addressed_to(
                    last,
                    recipient,
                ) {
                    assert(bundle_fault(last, fewer as usize, recipient) is Some);
                }
            },
        }
    }
}

/// Each text of an agreement names one agreement and no other.
pub proof fn agreement_texts_are_distinct(agreement: RewrapAgreement)
    ensures
        agreement.text() == "incomplete"@ <==> agreement is Incomplete,
        agreement.text() == "divergent"@ <==> agreement is Divergent,
        agreement.text() == "single-source"@ <==> agreement is SingleSource,
        agreement.text() == "agreed"@ <==> agreement is Agreed,
{
    reveal_strlit("incomplete");
    reveal_strlit("divergent");
    reveal_strlit("single-source");
    reveal_strlit("agreed");
    assert("incomplete"@.len() != "divergent"@.len());
    assert("incomplete"@.len() != "single-source"@.len());
    assert("incomplete"@.len() != "agreed"@.len());
    assert("divergent"@.len() != "single-source"@.len());
    assert("divergent"@.len() != "agreed"@.len());
    assert("single-source"@.len() != "agreed"@.len());
}

/// Of two claims exactly one comes before the other: by the bytes of the source, then by the number
/// of events, then by the bytes of the digest.
pub proof fn claims_sort_by_source_and_inventory(a: ClaimKey, b: ClaimKey)
    ensures
        a != b ==> a.before(b) != b.before(a),
        !a.before(a),
        a.source != b.source ==> (a.before(b) <==> be_value(a.source.raw.bytes()) < be_value(
            b.source.raw.bytes(),
        )),
        a.source == b.source && a.count != b.count ==> (a.before(b) <==> a.count < b.count),
        a.source == b.source && a.count == b.count && a.digest != b.digest ==> (a.before(b)
            <==> be_value(a.digest.raw.bytes()) < be_value(b.digest.raw.bytes())),
{
    identifiers_sort_by_their_bytes(a.source.raw, b.source.raw);
    identifiers_sort_by_their_bytes(b.source.raw, a.source.raw);
    identifiers_sort_by_their_bytes(a.digest.raw, b.digest.raw);
    identifiers_sort_by_their_bytes(b.digest.raw, a.digest.raw);
}

proof fn lemma_complete_keys_in_order(claims: Seq<Claim>, count: nat)
    requires
        claims_in_order(claims),
        count <= claims.len(),
    ensures
        forall|i: int, j: int|
            0 <= i < j < complete_keys(claims, count).len() ==> (#[trigger] complete_keys(
                claims,
                count,
            )[i]).before(#[trigger] complete_keys(claims, count)[j]),
    decreases count,
{
    if count > 0 {
        let fewer = (count - 1) as nat;
        let earlier = complete_keys(claims, fewer);
        lemma_complete_keys_in_order(claims, fewer);
        assert forall|i: int| 0 <= i < earlier.len() implies (#[trigger] earlier[i]).before(
            claims[count - 1].key,
        ) by {
            assert(earlier.contains(earlier[i]));
            lemma_complete_keys_are_marked(claims, fewer, earlier[i]);
            let k = choose|k: int|
                0 <= k < fewer && (#[trigger] claims[k]).key == earlier[i] && claims[k].complete;
            assert(claims[k].key.before(claims[count - 1].key));
        }
    }
}

/// The claims of a reconciliation are in order, and the inventory that is selected is the first of
/// those that were received whole.
pub proof fn selected_inventory_is_the_first(
    reconciliation: Reconciliation,
    stored: Seq<StoredRewrap>,
    conversation_id: ConversationId,
    key: ClaimKey,
)
    requires
        reconciliation.describes(stored, conversation_id),
    ensures
        forall|i: int, j: int|
            0 <= i < j < reconciliation.claims@.len() ==> (
            #[trigger] reconciliation.claims@[i]).key.before(
                (#[trigger] reconciliation.claims@[j]).key,
            ),
        reconciliation.selected_inventory matches Some(selected) ==> received_whole(
            stored,
            conversation_id,
            key,
        ) ==> key == selected || selected.before(key),
{
    let claims = reconciliation.claims@;
    let complete = complete_keys(claims, claims.len());
    lemma_complete_keys_in_order(claims, claims.len());
    complete_claims_were_received_whole(reconciliation, stored, conversation_id);
    if reconciliation.selected_inventory is Some && received_whole(stored, conversation_id, key) {
        assert(complete.contains(key));
        let i = choose|i: int| 0 <= i < complete.len() && complete[i] == key;
        if i > 0 {
            assert(complete[0].before(complete[i]));
        }
    }
}

/// Ranges are ordered by where they start, and among those that start alike by where they end.
pub proof fn ranges_sort_by_start_and_end(a: (u64, u64), b: (u64, u64))
    ensures
        a.0 != b.0 ==> (range_not_after(a, b) <==> a.0 < b.0),
        a.0 == b.0 ==> (range_not_after(a, b) <==> a.1 <= b.1),
{
}

/// A claim has one range for each bundle that makes it.
pub proof fn claim_has_a_range_for_each_bundle(
    stored: Seq<StoredRewrap>,
    count: nat,
    conversation_id: ConversationId,
    key: ClaimKey,
)
    requires
        count <= stored.len(),
    ensures
        ({
            let bundles = Set::new(
                |m: int| 0 <= m < count && makes_claim(stored[m], conversation_id, key),
            );
            bundles.finite() && bundles.len() == claim_ranges(
                stored,
                count,
                conversation_id,
                key,
            ).len()
        }),
    decreases count,
{
    let bundles = Set::new(|m: int| 0 <= m < count && makes_claim(stored[m], conversation_id, key));
    if count == 0 {
        assert(bundles =~= Set::<int>::empty());
    } else {
        let fewer = (count - 1) as nat;
        claim_has_a_range_for_each_bundle(stored, fewer, conversation_id, key);
        let earlier = Set::new(
            |m: int| 0 <= m < fewer && makes_claim(stored[m], conversation_id, key),
        );
        let last = stored[fewer as int];
        if makes_claim(last, conversation_id, key) {
            assert(bundles =~= earlier.insert(fewer as int));
            lemma_insert_range_len(
                claim_ranges(stored, fewer, conversation_id, key),
                (last.range_start, last.range_end),
            );
        } else {
            assert(bundles =~= earlier);
        }
    }
}

} // verus!
