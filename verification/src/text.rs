//! Text building blocks: characters, decimal and hexadecimal numbers, trimming and searching.

use vstd::arithmetic::power::pow;
use vstd::prelude::*;

verus! {

/// `String::push` appends one character.
pub assume_specification[ String::push ](s: &mut String, c: char)
    ensures
        final(s)@ == old(s)@.push(c),
;

/// The characters of a text, in order.
pub fn chars_of(text: &str) -> (r: Vec<char>)
    ensures
        r@ == text@,
{
    let mut out: Vec<char> = Vec::new();
    for c in it: text.chars()
        invariant
            it.seq() == text@,
            out@ == text@.take(it.index() as int),
    {
        out.push(c);
        assert(text@.take(it.index() as int + 1) == text@.take(it.index() as int).push(c));
    }
    assert(text@.take(text@.len() as int) == text@);
    out
}

/// The text made of the given characters, in order.
pub fn text_of(chars: &[char]) -> (r: String)
    ensures
        r@ == chars@,
{
    let mut out: String = String::new();
    let mut i: usize = 0;
    while i < chars.len()
        invariant
            i <= chars.len(),
            out@ == chars@.take(i as int),
        decreases chars.len() - i,
    {
        out.push(chars[i]);
        assert(chars@.take(i as int + 1) == chars@.take(i as int).push(chars@[i as int]));
        i += 1;
    }
    assert(chars@.take(chars@.len() as int) == chars@);
    out
}

/// `part` stands in `whole` at position `at`.
pub open spec fn occurs_at(whole: Seq<char>, part: Seq<char>, at: int) -> bool {
    &&& 0 <= at
    &&& at + part.len() <= whole.len()
    &&& whole.subrange(at, at + part.len()) == part
}

/// `whole` begins with `part`.
pub open spec fn begins_with(whole: Seq<char>, part: Seq<char>) -> bool {
    occurs_at(whole, part, 0)
}

/// `whole` ends with `part`.
pub open spec fn finishes_with(whole: Seq<char>, part: Seq<char>) -> bool {
    occurs_at(whole, part, whole.len() - part.len())
}

/// `part` stands somewhere in `whole`.
pub open spec fn occurs_in(whole: Seq<char>, part: Seq<char>) -> bool {
    exists|at: int| occurs_at(whole, part, at)
}

fn stands_at(whole: &[char], part: &[char], at: usize) -> (r: bool)
    requires
        at + part.len() <= whole.len(),
    ensures
        r == occurs_at(whole@, part@, at as int),
{
    let mut i: usize = 0;
    while i < part.len()
        invariant
            i <= part.len(),
            at + part.len() <= whole.len(),
            forall|j: int| 0 <= j < i ==> whole@[at + j] == part@[j],
        decreases part.len() - i,
    {
        if whole[at + i] != part[i] {
            assert(whole@.subrange(at as int, at + part@.len())[i as int] != part@[i as int]);
            return false;
        }
        i += 1;
    }
    assert(whole@.subrange(at as int, at + part@.len()) == part@);
    true
}

/// Whether `whole` begins with `part`.
pub fn starts_with(whole: &str, part: &str) -> (r: bool)
    ensures
        r == begins_with(whole@, part@),
{
    let w = chars_of(whole);
    let p = chars_of(part);
    if p.len() > w.len() {
        false
    } else {
        stands_at(&w, &p, 0)
    }
}

/// Whether two texts are the same.
pub fn same_text(a: &str, b: &str) -> (r: bool)
    ensures
        r == (a@ == b@),
{
    let same = starts_with(a, b) && starts_with(b, a);
    proof {
        assert(a@.subrange(0, a@.len() as int) =~= a@);
        assert(b@.subrange(0, b@.len() as int) =~= b@);
        if same {
            assert(a@ =~= b@);
        }
    }
    same
}

/// Whether `whole` ends with `part`.
pub fn ends_with(whole: &str, part: &str) -> (r: bool)
    ensures
        r == finishes_with(whole@, part@),
{
    let w = chars_of(whole);
    let p = chars_of(part);
    if p.len() > w.len() {
        false
    } else {
        stands_at(&w, &p, w.len() - p.len())
    }
}

/// Whether `part` stands somewhere in `whole`.
pub fn contains(whole: &str, part: &str) -> (r: bool)
    ensures
        r == occurs_in(whole@, part@),
{
    let w = chars_of(whole);
    let p = chars_of(part);
    let mut at: usize = 0;
    while at < w.len() && p.len() <= w.len() - at
        invariant
            at <= w.len(),
            w@ == whole@,
            p@ == part@,
            forall|j: int| 0 <= j < at ==> !occurs_at(whole@, part@, j),
        decreases w.len() - at,
    {
        if stands_at(&w, &p, at) {
            return true;
        }
        at += 1;
    }
    if p.len() == 0 {
        assert(occurs_at(whole@, part@, 0)) by {
            assert(whole@.subrange(0, 0) == part@);
        }
        return true;
    }
    false
}

/// Unicode white space.
pub open spec fn white_space(c: char) -> bool {
    let n = c as u32;
    ||| 0x9 <= n <= 0xd
    ||| n == 0x20
    ||| n == 0x85
    ||| n == 0xa0
    ||| n == 0x1680
    ||| 0x2000 <= n <= 0x200a
    ||| n == 0x2028
    ||| n == 0x2029
    ||| n == 0x202f
    ||| n == 0x205f
    ||| n == 0x3000
}

/// Whether `c` is Unicode white space.
pub fn is_white_space(c: char) -> (r: bool)
    ensures
        r == white_space(c),
{
    let n: u32 = c as u32;
    (n >= 0x9 && n <= 0xd) || n == 0x20 || n == 0x85 || n == 0xa0 || n == 0x1680 || (n >= 0x2000
        && n <= 0x200a) || n == 0x2028 || n == 0x2029 || n == 0x202f || n == 0x205f || n == 0x3000
}

/// The number of white-space characters at the front of `s`.
pub open spec fn leading_white_space(s: Seq<char>) -> nat
    decreases s.len(),
{
    if s.len() == 0 || !white_space(s[0]) {
        0
    } else {
        1 + leading_white_space(s.drop_first())
    }
}

/// `s` without the white space at its end.
pub open spec fn trimmed_end(s: Seq<char>) -> Seq<char>
    decreases s.len(),
{
    if s.len() == 0 || !white_space(s.last()) {
        s
    } else {
        trimmed_end(s.drop_last())
    }
}

/// `s` without the white space at its front and end.
pub open spec fn trimmed(s: Seq<char>) -> Seq<char> {
    trimmed_end(s.skip(leading_white_space(s) as int))
}

/// What is left after trimming neither begins nor ends with white space, and trimming it again
/// changes nothing.
pub proof fn trimming_is_idempotent(s: Seq<char>)
    ensures
        trimmed(s).len() > 0 ==> !white_space(trimmed(s)[0]) && !white_space(trimmed(s).last()),
        trimmed(trimmed(s)) == trimmed(s),
{
    lemma_leading(s);
    let rest = s.skip(leading_white_space(s) as int);
    lemma_trimmed_end(rest);
    let t = trimmed(s);
    assert(t.skip(0) == t);
    if t.len() > 0 {
        assert(t[0] == rest[0]);
        assert(rest[0] == s[leading_white_space(s) as int]);
    }
    assert(leading_white_space(t) == 0);
    assert(trimmed_end(t) == t);
}

proof fn lemma_leading(s: Seq<char>)
    ensures
        leading_white_space(s) <= s.len(),
        leading_white_space(s) < s.len() ==> !white_space(s[leading_white_space(s) as int]),
    decreases s.len(),
{
    if s.len() > 0 && white_space(s[0]) {
        lemma_leading(s.drop_first());
    }
}

proof fn lemma_trimmed_end(s: Seq<char>)
    ensures
        trimmed_end(s).len() <= s.len(),
        trimmed_end(s) == s.take(trimmed_end(s).len() as int),
        trimmed_end(s).len() > 0 ==> !white_space(trimmed_end(s).last()),
    decreases s.len(),
{
    if s.len() > 0 && white_space(s.last()) {
        lemma_trimmed_end(s.drop_last());
        assert(s.drop_last().take(trimmed_end(s).len() as int) == s.take(
            trimmed_end(s).len() as int,
        ));
    } else {
        assert(s.take(s.len() as int) == s);
    }
}

fn leading_count(chars: &[char]) -> (r: usize)
    ensures
        r == leading_white_space(chars@),
        r <= chars@.len(),
{
    let mut from: usize = 0;
    assert(chars@.skip(0) == chars@);
    while from < chars.len() && is_white_space(chars[from])
        invariant
            from <= chars.len(),
            leading_white_space(chars@) == from + leading_white_space(chars@.skip(from as int)),
        decreases chars.len() - from,
    {
        assert(chars@.skip(from as int).drop_first() == chars@.skip(from as int + 1));
        from += 1;
    }
    from
}

fn trimmed_end_len(chars: &[char]) -> (r: usize)
    ensures
        r <= chars@.len(),
        chars@.take(r as int) == trimmed_end(chars@),
{
    let mut to: usize = chars.len();
    assert(chars@.take(to as int) == chars@);
    while to > 0 && is_white_space(chars[to - 1])
        invariant
            to <= chars.len(),
            trimmed_end(chars@) == trimmed_end(chars@.take(to as int)),
        decreases to,
    {
        assert(chars@.take(to as int).drop_last() == chars@.take(to as int - 1));
        to -= 1;
    }
    to
}

/// `text` without the white space at its front and end.
pub fn trim(text: &str) -> (r: String)
    ensures
        r@ == trimmed(text@),
{
    let chars = chars_of(text);
    let from: usize = leading_count(&chars);
    let rest = vstd::slice::slice_subrange(chars.as_slice(), from, chars.len());
    assert(rest@ == text@.skip(from as int));
    let to: usize = trimmed_end_len(rest);
    let kept = vstd::slice::slice_subrange(rest, 0, to);
    assert(kept@ == rest@.take(to as int));
    text_of(kept)
}

/// `a` comes before `b` in the order of their characters.
pub open spec fn text_before(a: Seq<char>, b: Seq<char>) -> bool
    decreases a.len(),
{
    if b.len() == 0 {
        false
    } else if a.len() == 0 {
        true
    } else if a[0] != b[0] {
        a[0] < b[0]
    } else {
        text_before(a.drop_first(), b.drop_first())
    }
}

pub(crate) proof fn lemma_text_order(a: Seq<char>, b: Seq<char>, c: Seq<char>)
    ensures
        !text_before(a, a),
        text_before(a, b) || text_before(b, a) || a == b,
        text_before(a, b) && text_before(b, c) ==> text_before(a, c),
    decreases a.len() + b.len() + c.len(),
{
    if a.len() > 0 && b.len() > 0 && c.len() > 0 {
        lemma_text_order(a.drop_first(), b.drop_first(), c.drop_first());
    } else if a.len() > 0 && b.len() > 0 {
        lemma_text_order(a.drop_first(), b.drop_first(), c);
    } else if a.len() > 0 {
        lemma_text_order(a.drop_first(), b, c);
    }
    if a.len() > 0 && b.len() > 0 && a[0] == b[0] && a.drop_first() == b.drop_first() {
        assert(a =~= b) by {
            assert forall|i: int| 0 <= i < a.len() implies a[i] == b[i] by {
                if i > 0 {
                    assert(a.drop_first()[i - 1] == b.drop_first()[i - 1]);
                }
            }
        }
    }
    if a.len() == 0 && b.len() == 0 {
        assert(a =~= b);
    }
}

pub(crate) fn comes_before(a: &[char], b: &[char]) -> (r: bool)
    ensures
        r == text_before(a@, b@),
{
    let mut i: usize = 0;
    assert(a@.skip(0) == a@);
    assert(b@.skip(0) == b@);
    while i < a.len() && i < b.len()
        invariant
            i <= a.len(),
            i <= b.len(),
            text_before(a@, b@) == text_before(a@.skip(i as int), b@.skip(i as int)),
        decreases a.len() - i,
    {
        if a[i] != b[i] {
            return a[i] < b[i];
        }
        assert(a@.skip(i as int).drop_first() == a@.skip(i + 1));
        assert(b@.skip(i as int).drop_first() == b@.skip(i + 1));
        i += 1;
    }
    i < b.len()
}

/// The decimal digit `n`.
pub open spec fn decimal_digit(n: int) -> char {
    ('0' as u32 + n) as char
}

/// The decimal digits of `n`, without leading zeros.
pub open spec fn decimal(n: nat) -> Seq<char>
    decreases n,
{
    if n < 10 {
        seq![decimal_digit(n as int)]
    } else {
        decimal(n / 10).push(decimal_digit((n % 10) as int))
    }
}

/// The number of decimal digits of `n`.
pub open spec fn decimal_len(n: nat) -> nat {
    decimal(n).len()
}

/// The decimal digits of `n`, with leading zeros up to `width` digits.
pub open spec fn padded_decimal(n: nat, width: nat) -> Seq<char> {
    if decimal_len(n) < width {
        Seq::new((width - decimal_len(n)) as nat, |i: int| '0') + decimal(n)
    } else {
        decimal(n)
    }
}

/// The number that a sequence of decimal digits stands for.
pub open spec fn decimal_value(digits: Seq<char>) -> nat
    decreases digits.len(),
{
    if digits.len() == 0 {
        0
    } else {
        (decimal_value(digits.drop_last()) * 10 + (digits.last() as u32 - '0' as u32)) as nat
    }
}

/// Every character of `s` is a decimal digit.
pub open spec fn all_digits(s: Seq<char>) -> bool {
    forall|i: int| 0 <= i < s.len() ==> '0' <= #[trigger] s[i] <= '9'
}

/// Reading back the decimal digits of `n` gives `n`.
pub proof fn decimal_reads_back(n: nat)
    ensures
        decimal_value(decimal(n)) == n,
        all_digits(decimal(n)),
        decimal(n).len() > 0,
    decreases n,
{
    if n < 10 {
        let s = decimal(n);
        assert(s.drop_last() == Seq::<char>::empty());
        assert(decimal_value(s.drop_last()) == 0);
    } else {
        decimal_reads_back(n / 10);
        assert(decimal(n).drop_last() == decimal(n / 10));
    }
}

/// Leading zeros do not change the number that is read back, so padded numbers are distinct
/// where the numbers are.
pub proof fn padded_decimal_reads_back(n: nat, width: nat)
    ensures
        decimal_value(padded_decimal(n, width)) == n,
        all_digits(padded_decimal(n, width)),
        padded_decimal(n, width).len() >= width,
{
    decimal_reads_back(n);
    if decimal_len(n) < width {
        lemma_leading_zeros((width - decimal_len(n)) as nat, decimal(n));
    }
}

proof fn lemma_leading_zeros(count: nat, digits: Seq<char>)
    ensures
        decimal_value(Seq::new(count, |i: int| '0') + digits) == decimal_value(digits),
    decreases count + digits.len(),
{
    let zeros = Seq::new(count, |i: int| '0');
    let all = zeros + digits;
    if digits.len() > 0 {
        lemma_leading_zeros(count, digits.drop_last());
        assert(all.drop_last() == zeros + digits.drop_last());
    } else if count > 0 {
        lemma_leading_zeros((count - 1) as nat, digits);
        assert(all.drop_last() == Seq::new((count - 1) as nat, |i: int| '0') + digits);
        assert(all.last() == '0');
    } else {
        assert(all == digits);
    }
}

/// Among numbers of as many digits, the order of their texts is the order of the numbers.
pub proof fn digits_sort_by_value(a: Seq<char>, b: Seq<char>)
    requires
        all_digits(a),
        all_digits(b),
        a.len() == b.len(),
    ensures
        text_before(a, b) <==> decimal_value(a) < decimal_value(b),
        a == b <==> decimal_value(a) == decimal_value(b),
    decreases a.len(),
{
    if a.len() == 0 {
        assert(a =~= b);
    } else {
        let x = a.drop_last();
        let y = b.drop_last();
        assert forall|i: int| 0 <= i < x.len() implies '0' <= #[trigger] x[i] <= '9' by {
            assert(x[i] == a[i]);
        }
        assert forall|i: int| 0 <= i < y.len() implies '0' <= #[trigger] y[i] <= '9' by {
            assert(y[i] == b[i]);
        }
        digits_sort_by_value(x, y);
        assert(a =~= x.push(a.last()));
        assert(b =~= y.push(b.last()));
        lemma_last_decides(x, y, a.last(), b.last());
        assert('0' <= a[a.len() - 1] <= '9');
        assert('0' <= b[b.len() - 1] <= '9');
        if a == b {
            assert(x == y);
        } else if x == y {
            assert(a.last() != b.last());
        }
    }
}

proof fn lemma_last_decides(a: Seq<char>, b: Seq<char>, x: char, y: char)
    requires
        a.len() == b.len(),
    ensures
        text_before(a.push(x), b.push(y)) <==> text_before(a, b) || (a == b && x < y),
    decreases a.len(),
{
    lemma_text_order(a, a, a);
    if a.len() == 0 {
        assert(a =~= b);
        assert(a.push(x).drop_first() =~= Seq::<char>::empty());
        assert(b.push(y).drop_first() =~= Seq::<char>::empty());
        assert(!text_before(a.push(x).drop_first(), b.push(y).drop_first()));
    } else {
        assert(a.push(x).drop_first() =~= a.drop_first().push(x));
        assert(b.push(y).drop_first() =~= b.drop_first().push(y));
        lemma_last_decides(a.drop_first(), b.drop_first(), x, y);
        if a[0] == b[0] && a.drop_first() == b.drop_first() {
            assert(a =~= seq![a[0]] + a.drop_first());
            assert(b =~= seq![b[0]] + b.drop_first());
        }
    }
}

/// A common beginning does not change the order of two texts.
pub proof fn common_beginning_keeps_order(beginning: Seq<char>, a: Seq<char>, b: Seq<char>)
    ensures
        text_before(beginning + a, beginning + b) <==> text_before(a, b),
    decreases beginning.len(),
{
    if beginning.len() == 0 {
        assert(beginning + a =~= a);
        assert(beginning + b =~= b);
    } else {
        common_beginning_keeps_order(beginning.drop_first(), a, b);
        assert((beginning + a).drop_first() =~= beginning.drop_first() + a);
        assert((beginning + b).drop_first() =~= beginning.drop_first() + b);
    }
}

/// A number below the power of ten has no more digits than the power has zeros.
pub proof fn decimal_is_short(n: nat, digits: nat)
    requires
        digits >= 1,
        n < pow(10, digits),
    ensures
        decimal_len(n) <= digits,
    decreases digits,
{
    reveal(pow);
    if n >= 10 {
        assert(digits >= 2) by {
            reveal_with_fuel(pow, 2);
        }
        decimal_is_short(n / 10, (digits - 1) as nat);
    }
}

/// Numbers that are padded to one width sort as texts as they do as numbers.
pub proof fn padded_decimals_sort_by_value(a: nat, b: nat, width: nat)
    requires
        width >= 1,
        a < pow(10, width),
        b < pow(10, width),
    ensures
        text_before(padded_decimal(a, width), padded_decimal(b, width)) <==> a < b,
{
    decimal_is_short(a, width);
    decimal_is_short(b, width);
    padded_decimal_reads_back(a, width);
    padded_decimal_reads_back(b, width);
    digits_sort_by_value(padded_decimal(a, width), padded_decimal(b, width));
}

fn digit_char(n: u8) -> (r: char)
    requires
        n < 10,
    ensures
        r == decimal_digit(n as int),
{
    (48u8 + n) as char
}

/// The decimal digits of `n`.
pub fn decimal_chars(n: u64) -> (r: Vec<char>)
    ensures
        r@ == decimal(n as nat),
    decreases n,
{
    if n < 10 {
        let mut out: Vec<char> = Vec::new();
        out.push(digit_char(n as u8));
        assert(out@ == decimal(n as nat));
        out
    } else {
        let mut out = decimal_chars(n / 10);
        out.push(digit_char((n % 10) as u8));
        out
    }
}

/// Appends the decimal digits of `n`.
pub fn push_decimal(out: &mut String, n: u64)
    ensures
        final(out)@ == old(out)@ + decimal(n as nat),
{
    push_padded_decimal(out, n, 0);
}

/// Appends the decimal digits of `n`, with leading zeros up to `width` digits.
pub fn push_padded_decimal(out: &mut String, n: u64, width: usize)
    ensures
        final(out)@ == old(out)@ + padded_decimal(n as nat, width as nat),
{
    let digits = decimal_chars(n);
    let ghost start = out@;
    let mut zeros: usize = digits.len();
    let ghost pad = |k: int| Seq::new(k as nat, |i: int| '0');
    assert(start == start + pad(0));
    while zeros < width
        invariant
            digits@.len() <= zeros,
            zeros <= width || zeros == digits@.len(),
            out@ == start + Seq::new((zeros - digits@.len()) as nat, |i: int| '0'),
        decreases width - zeros,
    {
        out.push('0');
        zeros += 1;
        assert(out@ == start + Seq::new((zeros - digits@.len()) as nat, |i: int| '0'));
    }
    let ghost padded = out@;
    let mut i: usize = 0;
    assert(padded == padded + digits@.take(0));
    while i < digits.len()
        invariant
            i <= digits.len(),
            out@ == padded + digits@.take(i as int),
        decreases digits.len() - i,
    {
        out.push(digits[i]);
        assert(digits@.take(i as int + 1) == digits@.take(i as int).push(digits@[i as int]));
        i += 1;
        assert(out@ == padded + digits@.take(i as int));
    }
    assert(digits@.take(digits@.len() as int) == digits@);
    assert(out@ == start + padded_decimal(n as nat, width as nat));
}

/// The lower-case hexadecimal digit `n`.
pub open spec fn hex_digit(n: int) -> char {
    if n < 10 {
        ('0' as u32 + n) as char
    } else {
        ('a' as u32 + (n - 10)) as char
    }
}

/// Two lower-case hexadecimal digits for each byte.
pub open spec fn hex(bytes: Seq<u8>) -> Seq<char> {
    Seq::new(
        bytes.len() * 2,
        |i: int|
            if i % 2 == 0 {
                hex_digit(bytes[i / 2] as int / 16)
            } else {
                hex_digit(bytes[i / 2] as int % 16)
            },
    )
}

fn hex_char(n: u8) -> (r: char)
    requires
        n < 16,
    ensures
        r == hex_digit(n as int),
{
    if n < 10 {
        (48u8 + n) as char
    } else {
        (97u8 + (n - 10)) as char
    }
}

/// Writes each byte as two lower-case hexadecimal digits.
pub fn encode_hex(bytes: &[u8]) -> (r: String)
    ensures
        r@ == hex(bytes@),
{
    let mut encoded: String = String::new();
    let mut i: usize = 0;
    while i < bytes.len()
        invariant
            i <= bytes.len(),
            encoded@ == hex(bytes@.take(i as int)),
        decreases bytes.len() - i,
    {
        let byte: u8 = bytes[i];
        encoded.push(hex_char(byte / 16));
        encoded.push(hex_char(byte % 16));
        i += 1;
        assert(encoded@ == hex(bytes@.take(i as int)));
    }
    assert(bytes@.take(bytes@.len() as int) == bytes@);
    encoded
}

/// Hexadecimal text has two characters for each byte, and different bytes give different text.
pub proof fn hex_is_injective(a: Seq<u8>, b: Seq<u8>)
    ensures
        hex(a).len() == 2 * a.len(),
        hex(a) == hex(b) ==> a == b,
{
    if hex(a) == hex(b) {
        assert(hex(a).len() == a.len() * 2);
        assert(hex(b).len() == b.len() * 2);
        assert(a.len() == b.len());
        assert forall|i: int| 0 <= i < a.len() implies a[i] == b[i] by {
            assert(hex(a)[2 * i] == hex(b)[2 * i]);
            assert(hex(a)[2 * i + 1] == hex(b)[2 * i + 1]);
            assert((2 * i) / 2 == i && (2 * i + 1) / 2 == i);
        }
        assert(a =~= b);
    }
}

/// Every character is white space.
pub open spec fn all_white_space(s: Seq<char>) -> bool {
    forall|i: int| 0 <= i < s.len() ==> white_space(#[trigger] s[i])
}

proof fn lemma_leading_white_space(s: Seq<char>)
    ensures
        leading_white_space(s) <= s.len(),
        all_white_space(s.take(leading_white_space(s) as int)),
    decreases s.len(),
{
    if s.len() > 0 && white_space(s[0]) {
        let rest = s.drop_first();
        lemma_leading_white_space(rest);
        let n = leading_white_space(s) as int;
        assert forall|i: int| 0 <= i < n implies white_space(#[trigger] s.take(n)[i]) by {
            if i > 0 {
                assert(rest.take(n - 1)[i - 1] == s[i]);
            }
        }
    }
}

proof fn lemma_trailing_white_space(s: Seq<char>)
    ensures
        trimmed_end(s).len() <= s.len(),
        s.take(trimmed_end(s).len() as int) == trimmed_end(s),
        all_white_space(s.skip(trimmed_end(s).len() as int)),
    decreases s.len(),
{
    if s.len() > 0 && white_space(s.last()) {
        let rest = s.drop_last();
        lemma_trailing_white_space(rest);
        let n = trimmed_end(s).len() as int;
        assert(s.take(n) =~= rest.take(n));
        assert forall|i: int| 0 <= i < s.len() - n implies white_space(
            #[trigger] s.skip(n)[i],
        ) by {
            if n + i < rest.len() {
                assert(rest.skip(n)[i] == s[n + i]);
            }
        }
    } else {
        assert(s.take(s.len() as int) =~= s);
    }
}

/// Trimming takes away white space alone, and only from the two ends.
pub proof fn trimming_removes_white_space_only(s: Seq<char>)
    ensures
        exists|before: Seq<char>, after: Seq<char>|
            #![trigger all_white_space(before), all_white_space(after)]
            {
                &&& all_white_space(before)
                &&& all_white_space(after)
                &&& s == before + trimmed(s) + after
            },
{
    let n = leading_white_space(s) as int;
    lemma_leading_white_space(s);
    let rest = s.skip(n);
    lemma_trailing_white_space(rest);
    let m = trimmed(s).len() as int;
    let before = s.take(n);
    let after = rest.skip(m);
    assert(all_white_space(before) && all_white_space(after));
    assert(rest =~= trimmed(s) + after) by {
        assert(rest.take(m) == trimmed(s));
    }
    assert(s =~= before + trimmed(s) + after);
}

/// A text begins with another exactly where it is that text and some rest, and finishes with it
/// exactly where it is something and that text.
pub proof fn beginnings_and_endings(whole: Seq<char>, part: Seq<char>, rest: Seq<char>)
    ensures
        begins_with(part + rest, part),
        begins_with(whole, part) ==> part.len() <= whole.len() && whole == part + whole.skip(
            part.len() as int,
        ),
        finishes_with(rest + part, part),
        finishes_with(whole, part) ==> part.len() <= whole.len() && whole == whole.take(
            whole.len() - part.len(),
        ) + part,
{
    assert((part + rest).subrange(0, part.len() as int) =~= part);
    assert((rest + part).subrange(rest.len() as int, (rest + part).len() as int) =~= part);
    if begins_with(whole, part) {
        assert(whole.subrange(0, part.len() as int) == part);
        assert(whole =~= part + whole.skip(part.len() as int));
    }
    if finishes_with(whole, part) {
        let at = whole.len() - part.len();
        assert(whole.subrange(at, whole.len() as int) == part);
        assert(whole =~= whole.take(at) + part);
    }
}

/// The texts have the same first `at` characters, and `a` has the lower one there or ends.
pub open spec fn first_differs(a: Seq<char>, b: Seq<char>, at: int) -> bool {
    &&& 0 <= at <= a.len()
    &&& at < b.len()
    &&& forall|i: int| 0 <= i < at ==> #[trigger] a[i] == b[i]
    &&& at < a.len() ==> a[at] < b[at]
}

/// One text comes before another exactly where it is lower at the first character in which they
/// differ, or is the beginning of the other and shorter.
pub proof fn texts_sort_by_their_first_difference(a: Seq<char>, b: Seq<char>)
    ensures
        text_before(a, b) <==> exists|at: int| #[trigger] first_differs(a, b, at),
    decreases a.len(),
{
    if b.len() > 0 {
        if a.len() == 0 || a[0] < b[0] {
            assert(first_differs(a, b, 0));
        }
        if a.len() > 0 {
            let (x, y) = (a.drop_first(), b.drop_first());
            texts_sort_by_their_first_difference(x, y);
            if a[0] == b[0] {
                if text_before(x, y) {
                    let at = choose|at: int| #[trigger] first_differs(x, y, at);
                    assert forall|i: int| 0 <= i < at + 1 implies #[trigger] a[i] == b[i] by {
                        if i > 0 {
                            assert(x[i - 1] == y[i - 1]);
                        }
                    }
                    assert(first_differs(a, b, at + 1));
                }
                if exists|at: int| #[trigger] first_differs(a, b, at) {
                    let at = choose|at: int| #[trigger] first_differs(a, b, at);
                    assert forall|i: int| 0 <= i < at - 1 implies #[trigger] x[i] == y[i] by {
                        assert(a[i + 1] == b[i + 1]);
                    }
                    assert(first_differs(x, y, at - 1));
                }
            } else if exists|at: int| #[trigger] first_differs(a, b, at) {
                let at = choose|at: int| #[trigger] first_differs(a, b, at);
                if at > 0 {
                    assert(a[0] == b[0]);
                }
            }
        }
    }
}

/// A decimal number is written without a needless zero in front, and with zeros up to the width
/// where one is asked.
pub proof fn decimal_has_no_needless_zero(n: nat, width: nat)
    ensures
        n > 0 ==> decimal(n)[0] != '0',
        n == 0 ==> decimal(n) == seq!['0'],
        decimal(n).len() <= width ==> padded_decimal(n, width).len() == width,
        decimal(n).len() >= width ==> padded_decimal(n, width) == decimal(n),
    decreases n,
{
    if n >= 10 {
        decimal_has_no_needless_zero(n / 10, 0);
        decimal_reads_back(n / 10);
        assert(decimal(n)[0] == decimal(n / 10)[0]);
    }
}

/// The number that a lower-case hexadecimal digit stands for.
pub open spec fn hex_digit_value(c: char) -> int {
    if '0' <= c <= '9' {
        c as int - '0' as int
    } else {
        c as int - 'a' as int + 10
    }
}

/// Each byte is written as two lower-case hexadecimal digits, the upper half first.
pub proof fn hex_gives_back_each_byte(bytes: Seq<u8>, at: int)
    requires
        0 <= at < bytes.len(),
    ensures
        ({
            let (upper, lower) = (hex(bytes)[2 * at], hex(bytes)[2 * at + 1]);
            &&& '0' <= upper <= '9' || 'a' <= upper <= 'f'
            &&& '0' <= lower <= '9' || 'a' <= lower <= 'f'
            &&& bytes[at] == 16 * hex_digit_value(upper) + hex_digit_value(lower)
        }),
{
    assert((2 * at) / 2 == at && (2 * at) % 2 == 0);
    assert((2 * at + 1) / 2 == at && (2 * at + 1) % 2 == 1);
}

/// White space is the twenty-five characters with that property.
pub proof fn white_space_is_twenty_five_characters(c: char)
    ensures
        white_space(c) <==> {
            ||| c as u32 == 0x9
            ||| c as u32 == 0xa
            ||| c as u32 == 0xb
            ||| c as u32 == 0xc
            ||| c as u32 == 0xd
            ||| c as u32 == 0x20
            ||| c as u32 == 0x85
            ||| c as u32 == 0xa0
            ||| c as u32 == 0x1680
            ||| c as u32 == 0x2000
            ||| c as u32 == 0x2001
            ||| c as u32 == 0x2002
            ||| c as u32 == 0x2003
            ||| c as u32 == 0x2004
            ||| c as u32 == 0x2005
            ||| c as u32 == 0x2006
            ||| c as u32 == 0x2007
            ||| c as u32 == 0x2008
            ||| c as u32 == 0x2009
            ||| c as u32 == 0x200a
            ||| c as u32 == 0x2028
            ||| c as u32 == 0x2029
            ||| c as u32 == 0x202f
            ||| c as u32 == 0x205f
            ||| c as u32 == 0x3000
        },
{
}

/// A text occurs in another exactly where it stands between what comes before it and after it.
pub proof fn occurrence_splits_the_text(
    whole: Seq<char>,
    before: Seq<char>,
    part: Seq<char>,
    after: Seq<char>,
    at: int,
)
    ensures
        occurs_at(before + part + after, part, before.len() as int),
        occurs_in(before + part + after, part),
        occurs_at(whole, part, at) ==> 0 <= at && at + part.len() <= whole.len() && whole
            == whole.take(at) + part + whole.skip(at + part.len()),
        occurs_in(whole, part) ==> exists|from: int| #[trigger] occurs_at(whole, part, from),
{
    let from = before.len() as int;
    assert((before + part + after).subrange(from, from + part.len()) =~= part);
    assert(occurs_at(before + part + after, part, from));
    if occurs_at(whole, part, at) {
        assert(whole.subrange(at, at + part.len()) == part);
        assert(whole =~= whole.take(at) + part + whole.skip(at + part.len()));
    }
}

} // verus!
