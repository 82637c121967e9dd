//! Records that are kept in key order.

use crate::ids::Id32;
use vstd::prelude::*;

verus! {

/// The order of a record among the records of its kind.
#[derive(Clone, Copy, Debug, PartialEq, Eq, Structural)]
pub struct RecordKey {
    pub id: Id32,
    pub generation: u64,
}

impl RecordKey {
    /// `self` comes before `other`.
    pub open spec fn before(self, other: RecordKey) -> bool {
        self.id.before(other.id) || (self.id == other.id && self.generation < other.generation)
    }

    /// Whether `self` comes before `other`.
    pub fn precedes(self, other: RecordKey) -> (r: bool)
        ensures
            r == self.before(other),
    {
        self.id.precedes(other.id) || (self.id == other.id && self.generation < other.generation)
    }
}

/// A record that is kept in key order.
pub trait Keyed: Sized {
    /// The key of the record.
    spec fn key(&self) -> RecordKey;

    /// The key of the record.
    fn record_key(&self) -> (r: RecordKey)
        ensures
            r == self.key(),
    ;
}

/// No record comes before an earlier one.
pub open spec fn in_order<T: Keyed>(s: Seq<T>) -> bool {
    forall|i: int, j: int| 0 <= i < j < s.len() ==> !(#[trigger] s[j]).key().before(
        (#[trigger] s[i]).key(),
    )
}

/// The records are in key order and no key occurs twice.
pub open spec fn strictly_ordered<T: Keyed>(s: Seq<T>) -> bool {
    forall|i: int, j: int| 0 <= i < j < s.len() ==> (#[trigger] s[i]).key().before(
        (#[trigger] s[j]).key(),
    )
}

/// Some record of `s` has the key `key`.
pub open spec fn holds_key<T: Keyed>(s: Seq<T>, key: RecordKey) -> bool {
    exists|i: int| 0 <= i < s.len() && (#[trigger] s[i]).key() == key
}

/// `s` with `x` behind every record that does not come after it.
pub open spec fn insert_sorted<T: Keyed>(s: Seq<T>, x: T) -> Seq<T>
    decreases s.len(),
{
    if s.len() == 0 || !x.key().before(s.last().key()) {
        s.push(x)
    } else {
        insert_sorted(s.drop_last(), x).push(s.last())
    }
}

/// Inserting into records in order keeps them in order, adds exactly the new record, and keeps
/// keys distinct where the new key is not there yet.
pub proof fn insertion_keeps_order<T: Keyed>(s: Seq<T>, x: T)
    requires
        in_order(s),
    ensures
        in_order(insert_sorted(s, x)),
        insert_sorted(s, x).len() == s.len() + 1,
        forall|y: T| #[trigger]
            insert_sorted(s, x).contains(y) <==> s.contains(y) || y == x,
        strictly_ordered(s) && !holds_key(s, x.key()) ==> strictly_ordered(insert_sorted(s, x)),
    decreases s.len(),
{
    let r = insert_sorted(s, x);
    if s.len() == 0 || !x.key().before(s.last().key()) {
        assert forall|y: T| #[trigger] r.contains(y) <==> s.contains(y) || y == x by {
            if s.contains(y) {
                let i = choose|i: int| 0 <= i < s.len() && s[i] == y;
                assert(r[i] == y);
            }
            assert(r[s.len() as int] == x);
        }
        if strictly_ordered(s) && !holds_key(s, x.key()) {
            assert forall|i: int, j: int| 0 <= i < j < r.len() implies (#[trigger] r[i]).key().before(
                (#[trigger] r[j]).key(),
            ) by {
                if j == s.len() {
                    assert(s.last().key() != x.key());
                    assert(s.last().key().before(x.key()));
                    assert(i == s.len() - 1 || s[i].key().before(s.last().key()));
                }
            }
        }
    } else {
        let head = s.drop_last();
        insertion_keeps_order(head, x);
        let rest = insert_sorted(head, x);
        assert forall|y: T| #[trigger] r.contains(y) <==> s.contains(y) || y == x by {
            if rest.contains(y) {
                let i = choose|i: int| 0 <= i < rest.len() && rest[i] == y;
                assert(r[i] == y);
            }
            if s.contains(y) {
                let i = choose|i: int| 0 <= i < s.len() && s[i] == y;
                if i < head.len() {
                    assert(head[i] == y);
                } else {
                    assert(r[rest.len() as int] == y);
                }
            }
            if head.contains(y) {
                let i = choose|i: int| 0 <= i < head.len() && head[i] == y;
                assert(s[i] == y);
            }
            if r.contains(y) {
                let i = choose|i: int| 0 <= i < r.len() && r[i] == y;
                if i < rest.len() {
                    assert(rest[i] == y);
                } else {
                    assert(s[s.len() - 1] == y);
                }
            }
        }
        assert forall|i: int, j: int| 0 <= i < j < r.len() implies !(#[trigger] r[j]).key().before(
            (#[trigger] r[i]).key(),
        ) by {
            if j == rest.len() {
                assert(rest.contains(rest[i]));
                assert(head.contains(rest[i]) || rest[i] == x);
                if head.contains(rest[i]) {
                    let k = choose|k: int| 0 <= k < head.len() && head[k] == rest[i];
                    assert(s[k] == rest[i]);
                }
            }
        }
        if strictly_ordered(s) && !holds_key(s, x.key()) {
            assert(!holds_key(head, x.key())) by {
                if holds_key(head, x.key()) {
                    let k = choose|k: int|
                        0 <= k < head.len() && (#[trigger] head[k]).key() == x.key();
                    assert(s[k].key() == x.key());
                }
            }
            assert forall|i: int, j: int| 0 <= i < j < r.len() implies (#[trigger] r[i]).key().before(
                (#[trigger] r[j]).key(),
            ) by {
                if j == rest.len() {
                    assert(rest.contains(rest[i]));
                    if head.contains(rest[i]) {
                        let k = choose|k: int| 0 <= k < head.len() && head[k] == rest[i];
                        assert(s[k] == rest[i]);
                    }
                }
            }
        }
    }
}

proof fn lemma_insertion_point<T: Keyed>(s: Seq<T>, x: T, at: int)
    requires
        0 <= at <= s.len(),
        at > 0 ==> !x.key().before(s[at - 1].key()),
        forall|i: int| at <= i < s.len() ==> x.key().before((#[trigger] s[i]).key()),
    ensures
        insert_sorted(s, x) == s.insert(at, x),
    decreases s.len(),
{
    if at == s.len() {
        assert(s.insert(at, x) == s.push(x));
    } else {
        assert(x.key().before(s[s.len() - 1].key()));
        lemma_insertion_point(s.drop_last(), x, at);
        assert(s.drop_last().insert(at, x).push(s.last()) == s.insert(at, x));
    }
}

/// Inserts `x` behind every record that does not come after it.
pub fn insert_record<T: Keyed>(records: &mut Vec<T>, x: T)
    ensures
        final(records)@ == insert_sorted(old(records)@, x),
{
    let key = x.record_key();
    let mut at: usize = records.len();
    while at > 0 && key.precedes(records[at - 1].record_key())
        invariant
            at <= records.len(),
            key == x.key(),
            forall|i: int| at <= i < records.len() ==> key.before((#[trigger] records[i]).key()),
        decreases at,
    {
        at -= 1;
    }
    proof {
        lemma_insertion_point(records@, x, at as int);
    }
    records.insert(at, x);
}

/// The first record of `s` with the key `key`.
pub open spec fn lookup<T: Keyed>(s: Seq<T>, key: RecordKey) -> Option<T>
    decreases s.len(),
{
    if s.len() == 0 {
        None
    } else if s[0].key() == key {
        Some(s[0])
    } else {
        lookup(s.drop_first(), key)
    }
}

/// Looking up a key finds a record of `s` with that key, if and only if there is one.
pub proof fn lookup_finds<T: Keyed>(s: Seq<T>, key: RecordKey)
    ensures
        lookup(s, key) is Some <==> holds_key(s, key),
        lookup(s, key) matches Some(x) ==> x.key() == key && s.contains(x),
    decreases s.len(),
{
    if s.len() > 0 {
        let rest = s.drop_first();
        lookup_finds(rest, key);
        if s[0].key() == key {
            assert(s.contains(s[0]));
        } else {
            if holds_key(s, key) {
                let i = choose|i: int| 0 <= i < s.len() && (#[trigger] s[i]).key() == key;
                assert(rest[i - 1].key() == key);
            }
            if holds_key(rest, key) {
                let i = choose|i: int| 0 <= i < rest.len() && (#[trigger] rest[i]).key() == key;
                assert(s[i + 1].key() == key);
            }
            if let Some(x) = lookup(rest, key) {
                let i = choose|i: int| 0 <= i < rest.len() && rest[i] == x;
                assert(s[i + 1] == x);
            }
        }
    }
}

/// The first record with the key `key`.
pub fn find_record<T: Keyed + Copy>(records: &Vec<T>, key: RecordKey) -> (r: Option<T>)
    ensures
        r == lookup(records@, key),
{
    let mut i: usize = 0;
    assert(records@.skip(0) == records@);
    while i < records.len()
        invariant
            i <= records.len(),
            lookup(records@, key) == lookup(records@.skip(i as int), key),
        decreases records.len() - i,
    {
        if records[i].record_key() == key {
            return Some(records[i]);
        }
        assert(records@.skip(i as int).drop_first() == records@.skip(i + 1));
        i += 1;
    }
    None
}

/// The key of the only record that `id` names.
pub open spec fn plain_key(id: Id32) -> RecordKey {
    RecordKey { id, generation: 0 }
}

/// The key of the only record that `id` names.
pub fn plain_record_key(id: Id32) -> (r: RecordKey)
    ensures
        r == plain_key(id),
{
    RecordKey { id, generation: 0 }
}

/// Among records with distinct keys, looking up the key of a record gives that record.
pub proof fn lookup_gives_the_record<T: Keyed>(s: Seq<T>, at: int)
    requires
        strictly_ordered(s),
        0 <= at < s.len(),
    ensures
        lookup(s, s[at].key()) == Some(s[at]),
{
    let key = s[at].key();
    lookup_finds(s, key);
    assert(holds_key(s, key));
    let found = lookup(s, key)->0;
    let i = choose|i: int| 0 <= i < s.len() && s[i] == found;
    if i < at {
        assert(s[i].key().before(s[at].key()));
    } else if at < i {
        assert(s[at].key().before(s[i].key()));
    }
}

/// Keys are ordered by identifier first, and by generation among those of one identifier; two
/// different keys are never in both orders or in neither.
pub proof fn keys_sort_by_identifier(a: RecordKey, b: RecordKey)
    ensures
        a.id.before(b.id) ==> a.before(b),
        a.id == b.id ==> (a.before(b) <==> a.generation < b.generation),
        a != b ==> a.before(b) != b.before(a),
        !a.before(a),
{
}

/// The record that looking up a key gives stands before every other record with that key.
pub proof fn lookup_gives_the_first<T: Keyed>(s: Seq<T>, key: RecordKey, at: int)
    requires
        0 <= at < s.len(),
        s[at].key() == key,
        forall|i: int| 0 <= i < at ==> (#[trigger] s[i]).key() != key,
    ensures
        lookup(s, key) == Some(s[at]),
    decreases s.len(),
{
    if at > 0 {
        assert(s[0].key() != key);
        let rest = s.drop_first();
        assert forall|i: int| 0 <= i < at - 1 implies (#[trigger] rest[i]).key() != key by {
            assert(s[i + 1].key() != key);
        }
        lookup_gives_the_first(rest, key, at - 1);
    }
}

} // verus!
