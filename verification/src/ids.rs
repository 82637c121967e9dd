//! Identifiers and digests.

use crate::text::{encode_hex, hex};
use vstd::prelude::*;

verus! {

/// The number that `bytes` stand for, most significant byte first.
pub open spec fn be_value(bytes: Seq<u8>) -> nat
    decreases bytes.len(),
{
    if bytes.len() == 0 {
        0
    } else {
        be_value(bytes.drop_last()) * 256 + bytes.last() as nat
    }
}

/// The `count` bytes of `value`, most significant byte first.
pub open spec fn be_bytes(value: nat, count: nat) -> Seq<u8>
    decreases count,
{
    if count == 0 {
        Seq::empty()
    } else {
        be_bytes(value / 256, (count - 1) as nat).push((value % 256) as u8)
    }
}

proof fn lemma_be_bytes_of_value(bytes: Seq<u8>)
    ensures
        be_bytes(be_value(bytes), bytes.len()) == bytes,
    decreases bytes.len(),
{
    if bytes.len() > 0 {
        lemma_be_bytes_of_value(bytes.drop_last());
        let v = be_value(bytes.drop_last());
        let b = bytes.last() as nat;
        assert((v * 256 + b) / 256 == v && (v * 256 + b) % 256 == b);
        assert(bytes.drop_last().push(bytes.last()) == bytes);
    } else {
        assert(be_bytes(0, 0) == bytes);
    }
}

/// Thirty-two bytes, held as two big-endian halves, so that ordering by the halves is ordering
/// by the bytes.
#[derive(Clone, Copy, Debug, PartialEq, Eq, PartialOrd, Ord, Hash, Structural)]
pub struct Id32 {
    pub high: u128,
    pub low: u128,
}

impl Id32 {
    /// The bytes of the identifier.
    pub open spec fn bytes(self) -> Seq<u8> {
        be_bytes(self.high as nat, 16) + be_bytes(self.low as nat, 16)
    }

    /// `self` comes before `other` in byte order.
    pub open spec fn before(self, other: Id32) -> bool {
        self.high < other.high || (self.high == other.high && self.low < other.low)
    }

    /// Whether `self` comes before `other`.
    pub fn precedes(self, other: Id32) -> (r: bool)
        ensures
            r == self.before(other),
    {
        self.high < other.high || (self.high == other.high && self.low < other.low)
    }

    /// The identifier with these bytes.
    pub fn from_bytes(bytes: &[u8; 32]) -> (r: Id32)
        ensures
            r.bytes() == bytes@,
    {
        let r = Id32 { high: be_half(bytes, 0), low: be_half(bytes, 16) };
        proof {
            lemma_be_bytes_of_value(bytes@.subrange(0, 16));
            lemma_be_bytes_of_value(bytes@.subrange(16, 32));
            assert(bytes@.subrange(0, 16) + bytes@.subrange(16, 32) == bytes@);
        }
        r
    }

    /// The thirty-two bytes of the identifier.
    pub fn to_bytes(self) -> (r: Vec<u8>)
        ensures
            r@ == self.bytes(),
            r@.len() == 32,
    {
        let mut out: Vec<u8> = Vec::new();
        push_half(&mut out, self.high, 16);
        push_half(&mut out, self.low, 16);
        out
    }

    /// The lower-case hexadecimal text of the identifier.
    pub fn to_text(self) -> (r: String)
        ensures
            r@ == hex(self.bytes()),
    {
        encode_hex(&self.to_bytes())
    }
}

proof fn lemma_be_value_bound(bytes: Seq<u8>)
    ensures
        be_value(bytes) < vstd::arithmetic::power::pow(256, bytes.len()),
    decreases bytes.len(),
{
    reveal(vstd::arithmetic::power::pow);
    if bytes.len() > 0 {
        lemma_be_value_bound(bytes.drop_last());
    }
}

fn be_half(bytes: &[u8; 32], from: usize) -> (r: u128)
    requires
        from == 0 || from == 16,
    ensures
        r as nat == be_value(bytes@.subrange(from as int, from + 16)),
{
    let mut value: u128 = 0;
    let mut i: usize = 0;
    assert(bytes@.subrange(from as int, from as int) == Seq::<u8>::empty());
    while i < 16
        invariant
            i <= 16,
            from == 0 || from == 16,
            value as nat == be_value(bytes@.subrange(from as int, from + i)),
        decreases 16 - i,
    {
        proof {
            let part = bytes@.subrange(from as int, from + i);
            lemma_be_value_bound(part);
            assert(value < 0x1_000000_000000_000000_000000_000000) by {
                reveal_with_fuel(vstd::arithmetic::power::pow, 17);
                vstd::arithmetic::power::lemma_pow_increases(256, i as nat, 15);
            }
            assert(bytes@.subrange(from as int, from + i + 1).drop_last() == part);
        }
        value = value * 256 + bytes[from + i] as u128;
        i += 1;
    }
    value
}

fn push_half(out: &mut Vec<u8>, value: u128, count: usize)
    ensures
        final(out)@ == old(out)@ + be_bytes(value as nat, count as nat),
        be_bytes(value as nat, count as nat).len() == count,
    decreases count,
{
    if count > 0 {
        push_half(out, value / 256, count - 1);
        out.push((value % 256) as u8);
    }
}

proof fn lemma_be_value_of_bytes(value: nat, count: nat)
    requires
        value < vstd::arithmetic::power::pow(256, count),
    ensures
        be_value(be_bytes(value, count)) == value,
        be_bytes(value, count).len() == count,
    decreases count,
{
    reveal(vstd::arithmetic::power::pow);
    if count > 0 {
        assert(value / 256 < vstd::arithmetic::power::pow(256, (count - 1) as nat));
        lemma_be_value_of_bytes(value / 256, (count - 1) as nat);
        assert(be_bytes(value, count).drop_last() == be_bytes(value / 256, (count - 1) as nat));
    }
}

/// Two identifiers with the same bytes, or with the same text, are the same identifier.
pub proof fn identifiers_are_their_bytes(a: Id32, b: Id32)
    ensures
        a.bytes().len() == 32,
        a.bytes() == b.bytes() <==> a == b,
        hex(a.bytes()) == hex(b.bytes()) <==> a == b,
{
    assert(vstd::arithmetic::power::pow(256, 16) == 0x1_00000000_00000000_00000000_00000000) by {
        reveal_with_fuel(vstd::arithmetic::power::pow, 17);
    }
    lemma_be_value_of_bytes(a.high as nat, 16);
    lemma_be_value_of_bytes(a.low as nat, 16);
    lemma_be_value_of_bytes(b.high as nat, 16);
    lemma_be_value_of_bytes(b.low as nat, 16);
    crate::text::hex_is_injective(a.bytes(), b.bytes());
    if a.bytes() == b.bytes() {
        assert(a.bytes().subrange(0, 16) == be_bytes(a.high as nat, 16));
        assert(b.bytes().subrange(0, 16) == be_bytes(b.high as nat, 16));
        assert(a.bytes().subrange(16, 32) == be_bytes(a.low as nat, 16));
        assert(b.bytes().subrange(16, 32) == be_bytes(b.low as nat, 16));
    }
}

/// An account, named by its root key.
#[derive(Clone, Copy, Debug, PartialEq, Eq, PartialOrd, Ord, Hash, Structural)]
pub struct AccountId {
    pub raw: Id32,
}

/// A device, named by its signing key.
#[derive(Clone, Copy, Debug, PartialEq, Eq, PartialOrd, Ord, Hash, Structural)]
pub struct DeviceId {
    pub raw: Id32,
}

/// A conversation.
#[derive(Clone, Copy, Debug, PartialEq, Eq, PartialOrd, Ord, Hash, Structural)]
pub struct ConversationId {
    pub raw: Id32,
}

/// A signed event.
#[derive(Clone, Copy, Debug, PartialEq, Eq, PartialOrd, Ord, Hash, Structural)]
pub struct EventId {
    pub raw: Id32,
}

/// A transport endpoint.
#[derive(Clone, Copy, Debug, PartialEq, Eq, PartialOrd, Ord, Hash, Structural)]
pub struct EndpointId {
    pub raw: Id32,
}

/// A contact of the runtime.
#[derive(Clone, Copy, Debug, PartialEq, Eq, PartialOrd, Ord, Hash, Structural)]
pub struct RuntimeContactId {
    pub raw: Id32,
}

/// A message in the runtime outbox.
#[derive(Clone, Copy, Debug, PartialEq, Eq, PartialOrd, Ord, Hash, Structural)]
pub struct RuntimeQueueId {
    pub raw: Id32,
}

/// A content digest.
#[derive(Clone, Copy, Debug, PartialEq, Eq, PartialOrd, Ord, Hash, Structural)]
pub struct Digest {
    pub raw: Id32,
}

proof fn lemma_be_value_of_both(a: Seq<u8>, b: Seq<u8>)
    ensures
        be_value(a + b) == be_value(a) * vstd::arithmetic::power::pow(256, b.len()) + be_value(b),
    decreases b.len(),
{
    reveal(vstd::arithmetic::power::pow);
    if b.len() == 0 {
        assert(a + b =~= a);
    } else {
        lemma_be_value_of_both(a, b.drop_last());
        assert((a + b).drop_last() =~= a + b.drop_last());
        let power = vstd::arithmetic::power::pow(256, (b.len() - 1) as nat);
        assert((be_value(a) * power + be_value(b.drop_last())) * 256 == be_value(a) * (256 * power)
            + be_value(b.drop_last()) * 256) by (nonlinear_arith);
    }
}

/// Identifiers are ordered as the numbers that their bytes stand for, most significant first.
pub proof fn identifiers_sort_by_their_bytes(a: Id32, b: Id32)
    ensures
        a.before(b) <==> be_value(a.bytes()) < be_value(b.bytes()),
        a.before(b) || b.before(a) || a == b,
{
    let base = vstd::arithmetic::power::pow(256, 16);
    assert(base == 0x1_00000000_00000000_00000000_00000000) by {
        reveal_with_fuel(vstd::arithmetic::power::pow, 17);
    }
    lemma_be_value_of_bytes(a.high as nat, 16);
    lemma_be_value_of_bytes(a.low as nat, 16);
    lemma_be_value_of_bytes(b.high as nat, 16);
    lemma_be_value_of_bytes(b.low as nat, 16);
    lemma_be_value_of_both(be_bytes(a.high as nat, 16), be_bytes(a.low as nat, 16));
    lemma_be_value_of_both(be_bytes(b.high as nat, 16), be_bytes(b.low as nat, 16));
    assert(a.high < b.high ==> a.high * base + a.low < b.high * base + b.low) by (nonlinear_arith)
        requires
            base == 0x1_00000000_00000000_00000000_00000000,
            a.low < base,
    ;
    assert(b.high < a.high ==> b.high * base + b.low < a.high * base + a.low) by (nonlinear_arith)
        requires
            base == 0x1_00000000_00000000_00000000_00000000,
            b.low < base,
    ;
}

} // verus!
