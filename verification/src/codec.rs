//! Digests and text encodings that come from outside crates.

use base64::Engine;
use vstd::prelude::*;

verus! {

/// Names the digest that `blake3::hash` computes.
pub uninterp spec fn blake3_hash(bytes: Seq<u8>) -> Seq<u8>;

/// Calls `blake3::hash`: its result is a function of the input bytes alone. The incremental
/// hasher of that crate gives the same digest for the same bytes, however they are split.
#[verifier::external_body]
pub(crate) fn blake3_digest(bytes: &[u8]) -> (r: [u8; 32])
    ensures
        r@ == blake3_hash(bytes@),
{
    *blake3::hash(bytes).as_bytes()
}

/// The character of the URL-safe base64 alphabet for six bits.
pub open spec fn base64url_digit(n: int) -> char {
    if n < 26 {
        ('A' as u32 + n) as char
    } else if n < 52 {
        ('a' as u32 + n - 26) as char
    } else if n < 62 {
        ('0' as u32 + n - 52) as char
    } else if n == 62 {
        '-'
    } else {
        '_'
    }
}

/// The URL-safe base64 text of bytes, without padding: four characters for each three bytes, and
/// the bits that the last character has left over are zero.
pub open spec fn base64url_text(bytes: Seq<u8>) -> Seq<char>
    decreases bytes.len(),
{
    let (a, b, c) = (bytes[0] as int, bytes[1] as int, bytes[2] as int);
    let first = base64url_digit(a / 4);
    if bytes.len() == 0 {
        Seq::empty()
    } else if bytes.len() == 1 {
        seq![first, base64url_digit(a % 4 * 16)]
    } else {
        let second = base64url_digit(a % 4 * 16 + b / 16);
        if bytes.len() == 2 {
            seq![first, second, base64url_digit(b % 16 * 4)]
        } else {
            seq![
                first,
                second,
                base64url_digit(b % 16 * 4 + c / 64),
                base64url_digit(c % 64),
            ] + base64url_text(bytes.skip(3))
        }
    }
}

/// The bytes of which a text is the URL-safe base64 text, if there are any.
pub open spec fn base64url_bytes(text: Seq<char>) -> Option<Seq<u8>> {
    if exists|bytes: Seq<u8>| #[trigger] base64url_text(bytes) == text {
        Some(choose|bytes: Seq<u8>| #[trigger] base64url_text(bytes) == text)
    } else {
        None
    }
}

/// A character of the URL-safe base64 alphabet.
pub open spec fn base64url_char(c: char) -> bool {
    ||| 'A' <= c <= 'Z'
    ||| 'a' <= c <= 'z'
    ||| '0' <= c <= '9'
    ||| c == '-'
    ||| c == '_'
}

/// Different bytes have different texts, so that the bytes of a text are the only ones, and a
/// text holds characters of the URL-safe alphabet only.
pub proof fn base64url_reads_back(bytes: Seq<u8>)
    ensures
        base64url_bytes(base64url_text(bytes)) == Some(bytes),
        forall|i: int|
            0 <= i < base64url_text(bytes).len() ==> base64url_char(
                #[trigger] base64url_text(bytes)[i],
            ),
{
    let text = base64url_text(bytes);
    assert(exists|other: Seq<u8>| #[trigger] base64url_text(other) == text);
    let other = choose|other: Seq<u8>| #[trigger] base64url_text(other) == text;
    lemma_text_is_injective(bytes, other);
    lemma_text_characters(bytes);
}

proof fn lemma_text_characters(bytes: Seq<u8>)
    ensures
        forall|i: int|
            0 <= i < base64url_text(bytes).len() ==> base64url_char(
                #[trigger] base64url_text(bytes)[i],
            ),
    decreases bytes.len(),
{
    assert forall|n: int| 0 <= n < 64 implies base64url_char(#[trigger] base64url_digit(n)) by {}
    if bytes.len() >= 3 {
        let rest = base64url_text(bytes.skip(3));
        lemma_text_characters(bytes.skip(3));
        assert forall|i: int| 0 <= i < base64url_text(bytes).len() implies base64url_char(
            #[trigger] base64url_text(bytes)[i],
        ) by {
            if i >= 4 {
                assert(base64url_text(bytes)[i] == rest[i - 4]);
            }
        }
    }
}

proof fn lemma_text_is_injective(one: Seq<u8>, other: Seq<u8>)
    requires
        base64url_text(one) == base64url_text(other),
    ensures
        one == other,
    decreases one.len(),
{
    assert forall|m: int, n: int|
        0 <= m < 64 && 0 <= n < 64 && #[trigger] base64url_digit(m) == #[trigger] base64url_digit(
            n,
        ) implies m == n by {}
    let x = base64url_text(one);
    let y = base64url_text(other);
    assert(x.len() == y.len());
    if one.len() > 0 && other.len() > 0 {
        assert(x[0] == y[0]);
        assert(x[1] == y[1]);
        if one.len() == 2 && other.len() == 2 {
            assert(x[2] == y[2]);
        }
        if one.len() >= 3 && other.len() >= 3 {
            assert(x[2] == y[2]);
            assert(x[3] == y[3]);
            assert(x.skip(4) =~= base64url_text(one.skip(3)));
            assert(y.skip(4) =~= base64url_text(other.skip(3)));
            lemma_text_is_injective(one.skip(3), other.skip(3));
            assert(one.len() == other.len());
            assert forall|i: int| 0 <= i < one.len() implies one[i] == other[i] by {
                if i >= 3 {
                    assert(one.skip(3)[i - 3] == other.skip(3)[i - 3]);
                }
            }
        }
    }
    assert(one =~= other);
}

/// The longest input whose encoding is sure to fit in one allocation.
pub open spec fn base64url_capacity() -> nat {
    (usize::MAX / 4) as nat
}

/// Calls `encode` of base64's `URL_SAFE_NO_PAD` engine: it gives the URL-safe base64 text without
/// padding. The size is bounded because the encoder panics where the length of its buffer
/// overflows.
#[verifier::external_body]
fn encode_base64(bytes: &[u8]) -> (r: String)
    requires
        bytes@.len() <= base64url_capacity(),
    ensures
        r@ == base64url_text(bytes@),
{
    base64::engine::general_purpose::URL_SAFE_NO_PAD.encode(bytes)
}

/// Calls `decode` of base64's `URL_SAFE_NO_PAD` engine: it accepts exactly what that engine
/// encodes. Padding, other characters, a last group of one character and bits left over that are
/// not zero are errors.
#[verifier::external_body]
fn decode_base64(text: &str) -> (r: Result<Vec<u8>, base64::DecodeError>)
    ensures
        match r {
            Ok(bytes) => base64url_text(bytes@) == text@,
            Err(_) => !exists|bytes: Seq<u8>| #[trigger] base64url_text(bytes) == text@,
        },
{
    base64::engine::general_purpose::URL_SAFE_NO_PAD.decode(text)
}

/// The URL-safe base64 text of bytes.
pub(crate) fn base64url_encode(bytes: &[u8]) -> (r: String)
    requires
        bytes@.len() <= base64url_capacity(),
    ensures
        r@ == base64url_text(bytes@),
        base64url_bytes(r@) == Some(bytes@),
        forall|i: int| 0 <= i < r@.len() ==> base64url_char(#[trigger] r@[i]),
{
    proof {
        base64url_reads_back(bytes@);
    }
    encode_base64(bytes)
}

/// The bytes of a URL-safe base64 text.
pub(crate) fn base64url_decode(text: &str) -> (r: Option<Vec<u8>>)
    ensures
        match r {
            Some(bytes) => base64url_bytes(text@) == Some(bytes@),
            None => base64url_bytes(text@) is None,
        },
{
    match decode_base64(text) {
        Ok(bytes) => {
            proof {
                base64url_reads_back(bytes@);
            }
            Some(bytes)
        },
        Err(_) => None,
    }
}

/// The reason for which base64 text was refused.
#[verifier::external_type_specification]
#[verifier::external_body]
pub struct ExDecodeError(base64::DecodeError);

/// The concatenation of two byte strings.
pub fn joined(first: &[u8], second: &[u8]) -> (r: Vec<u8>)
    ensures
        r@ == first@ + second@,
{
    let mut out: Vec<u8> = Vec::new();
    append_bytes(&mut out, first);
    append_bytes(&mut out, second);
    out
}

/// Appends bytes.
pub fn append_bytes(out: &mut Vec<u8>, more: &[u8])
    ensures
        final(out)@ == old(out)@ + more@,
{
    let ghost start = out@;
    let mut i: usize = 0;
    assert(start == start + more@.take(0));
    while i < more.len()
        invariant
            i <= more.len(),
            out@ == start + more@.take(i as int),
        decreases more.len() - i,
    {
        out.push(more[i]);
        i += 1;
        assert(out@ == start + more@.take(i as int));
    }
    assert(more@.take(more@.len() as int) == more@);
}

/// Whether two byte strings are the same.
pub fn same_bytes(a: &[u8], b: &[u8]) -> (r: bool)
    ensures
        r == (a@ == b@),
{
    if a.len() != b.len() {
        return false;
    }
    let mut i: usize = 0;
    while i < a.len()
        invariant
            i <= a.len(),
            a.len() == b.len(),
            forall|j: int| 0 <= j < i ==> a@[j] == b@[j],
        decreases a.len() - i,
    {
        if a[i] != b[i] {
            return false;
        }
        i += 1;
    }
    assert(a@ == b@);
    true
}

/// An ASCII text that is closed by a zero character is encoded as the text, closed by a zero byte.
pub proof fn closed_text_ends_in_zero(text: Seq<char>, closed: Seq<char>)
    requires
        vstd::utf8::is_ascii_chars(closed),
        closed == text.push('\0'),
    ensures
        vstd::utf8::encode_utf8(closed) == vstd::utf8::encode_utf8(text).push(0u8),
        vstd::utf8::encode_utf8(text).len() == text.len(),
        forall|i: int|
            0 <= i < text.len() ==> #[trigger] vstd::utf8::encode_utf8(closed)[i] == text[i] as u8,
{
    assert forall|i: int| 0 <= i < text.len() implies '\0' <= #[trigger] text[i] <= '\u{7f}' by {
        assert(closed[i] == text[i]);
    }
    vstd::utf8::is_ascii_chars_encode_utf8(text);
    vstd::utf8::is_ascii_chars_encode_utf8(closed);
    let (whole, part) = (vstd::utf8::encode_utf8(closed), vstd::utf8::encode_utf8(text));
    assert forall|i: int| 0 <= i < text.len() implies #[trigger] whole[i] == part[i] && whole[i]
        == text[i] as u8 by {
        assert(closed[i] as u8 == whole[i]);
        assert(text[i] as u8 == part[i]);
    }
    assert(closed[text.len() as int] as u8 == whole[text.len() as int]);
    assert(whole =~= part.push(0u8));
}

} // verus!
