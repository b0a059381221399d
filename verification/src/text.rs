//! Text rendering and decoding shared by the probes: decimal and grouped
//! numbers, hexadecimal dumps, NUL-terminated buffers and lossy decoders.

use num_format::{Locale, ToFormattedString};
use vstd::prelude::*;

verus! {

// ---------------------------------------------------------------------------
// Characters and strings
// ---------------------------------------------------------------------------

/// Appends one character to a string. Wraps `String::push`, which std documents
/// as appending the given `char` to the end of the string.
#[verifier::external_body]
pub(crate) fn push_char(s: &mut String, c: char)
    ensures
        final(s)@ == old(s)@.push(c),
{
    s.push(c)
}

/// The characters of a string, in order.
pub fn chars_of(s: &str) -> (out: Vec<char>)
    ensures
        out@ == s@,
{
    let mut out: Vec<char> = Vec::new();
    for c in it: s.chars()
        invariant
            out@ == it.seq().take(it.index() as int),
            it.seq() == s@,
    {
        out.push(c);
    }
    out
}

/// The string made of `chars[from..to]`.
pub fn string_of(chars: &Vec<char>, from: usize, to: usize) -> (s: String)
    requires
        from <= to <= chars.len(),
    ensures
        s@ == chars@.subrange(from as int, to as int),
{
    let mut s = String::new();
    let mut i: usize = from;
    while i < to
        invariant
            from <= i <= to <= chars.len(),
            s@ == chars@.subrange(from as int, i as int),
        decreases to - i,
    {
        push_char(&mut s, chars[i]);
        i += 1;
    }
    s
}

// ---------------------------------------------------------------------------
// Trimming, splitting, filtering
// ---------------------------------------------------------------------------

/// Whether `char::is_whitespace` holds of a character.
pub uninterp spec fn is_whitespace(c: char) -> bool;

/// Tells whether a character is white space. Wraps `char::is_whitespace`,
/// which goes by the Unicode property `White_Space`.
#[verifier::external_body]
pub(crate) fn char_is_whitespace(c: char) -> (b: bool)
    ensures
        b == is_whitespace(c),
{
    c.is_whitespace()
}

/// The number of white-space characters at the front of a text.
pub open spec fn leading_whitespace(s: Seq<char>) -> int
    decreases s.len(),
{
    if s.len() > 0 && is_whitespace(s[0]) {
        1 + leading_whitespace(s.drop_first())
    } else {
        0
    }
}

/// The number of white-space characters at the end of a text.
pub open spec fn trailing_whitespace(s: Seq<char>) -> int
    decreases s.len(),
{
    if s.len() > 0 && is_whitespace(s.last()) {
        1 + trailing_whitespace(s.drop_last())
    } else {
        0
    }
}

/// A text without the white space at its front and at its end.
pub open spec fn trimmed(s: Seq<char>) -> Seq<char> {
    let front = s.skip(leading_whitespace(s));
    front.take(front.len() - trailing_whitespace(front))
}

/// `k` white-space characters followed by another one, or by the end, are
/// the leading white space.
pub proof fn lemma_leading_whitespace(s: Seq<char>, k: int)
    requires
        0 <= k <= s.len(),
        forall|j: int| 0 <= j < k ==> is_whitespace(s[j]),
        k < s.len() ==> !is_whitespace(s[k]),
    ensures
        leading_whitespace(s) == k,
    decreases k,
{
    if k > 0 {
        lemma_leading_whitespace(s.drop_first(), k - 1);
    }
}

/// `k` white-space characters preceded by another one, or by the start, are
/// the trailing white space.
pub proof fn lemma_trailing_whitespace(s: Seq<char>, k: int)
    requires
        0 <= k <= s.len(),
        forall|j: int| s.len() - k <= j < s.len() ==> is_whitespace(s[j]),
        k < s.len() ==> !is_whitespace(s[s.len() - k - 1]),
    ensures
        trailing_whitespace(s) == k,
    decreases k,
{
    if k > 0 {
        lemma_trailing_whitespace(s.drop_last(), k - 1);
    }
}

/// Removes the white space at the front and at the end of a text.
pub fn trim(s: &str) -> (out: String)
    ensures
        out@ == trimmed(s@),
{
    let chars = chars_of(s);
    let mut start: usize = 0;
    while start < chars.len() && char_is_whitespace(chars[start])
        invariant
            0 <= start <= chars.len(),
            forall|j: int| 0 <= j < start ==> is_whitespace(chars@[j]),
        decreases chars.len() - start,
    {
        start += 1;
    }
    let mut end: usize = chars.len();
    while end > start && char_is_whitespace(chars[end - 1])
        invariant
            start <= end <= chars.len(),
            forall|j: int| end <= j < chars.len() ==> is_whitespace(chars@[j]),
        decreases end,
    {
        end -= 1;
    }
    proof {
        lemma_leading_whitespace(chars@, start as int);
        lemma_trailing_whitespace(chars@.skip(start as int), chars.len() - end);
    }
    string_of(&chars, start, end)
}

/// The position of the last occurrence of a character, or -1.
pub open spec fn last_index_of(s: Seq<char>, sep: char) -> int
    decreases s.len(),
{
    if s.len() == 0 {
        -1
    } else if s.last() == sep {
        s.len() - 1
    } else {
        last_index_of(s.drop_last(), sep)
    }
}

/// What follows the last occurrence of a separator; the whole text where
/// the separator does not occur.
pub open spec fn after_last(s: Seq<char>, sep: char) -> Seq<char> {
    s.skip(last_index_of(s, sep) + 1)
}

/// A position that holds the separator and has none after it is the last.
pub proof fn lemma_last_index_of(s: Seq<char>, sep: char, k: int)
    requires
        -1 <= k < s.len(),
        k >= 0 ==> s[k] == sep,
        forall|j: int| k < j < s.len() ==> s[j] != sep,
    ensures
        last_index_of(s, sep) == k,
    decreases s.len(),
{
    if s.len() > 0 && s.last() != sep {
        lemma_last_index_of(s.drop_last(), sep, k);
    }
}

/// What follows the last occurrence of a separator in a text.
pub fn last_segment(s: &str, sep: char) -> (out: String)
    ensures
        out@ == after_last(s@, sep),
{
    let chars = chars_of(s);
    let mut start: usize = chars.len();
    while start > 0 && chars[start - 1] != sep
        invariant
            0 <= start <= chars.len(),
            forall|j: int| start <= j < chars.len() ==> chars@[j] != sep,
        decreases start,
    {
        start -= 1;
    }
    proof {
        lemma_last_index_of(chars@, sep, start as int - 1);
    }
    string_of(&chars, start, chars.len())
}

/// The test that a character is not `c`.
pub open spec fn is_not(c: char) -> spec_fn(char) -> bool {
    |x: char| x != c
}

/// A text without the occurrences of one character.
pub open spec fn without_char(s: Seq<char>, c: char) -> Seq<char> {
    s.filter(is_not(c))
}

/// Removes every occurrence of a character from a text.
pub fn remove_char(s: &str, c: char) -> (out: String)
    ensures
        out@ == without_char(s@, c),
{
    let chars = chars_of(s);
    let mut out = String::new();
    let mut i: usize = 0;
    proof {
        reveal(Seq::filter);
    }
    while i < chars.len()
        invariant
            0 <= i <= chars.len(),
            out@ =~= chars@.take(i as int).filter(is_not(c)),
        decreases chars.len() - i,
    {
        proof {
            let before = chars@.take(i as int);
            let now = chars@.take(i + 1);
            assert(now.drop_last() =~= before);
            reveal(Seq::filter);
            assert(now.filter(is_not(c)) == if is_not(c)(now.last()) {
                before.filter(is_not(c)).push(now.last())
            } else {
                before.filter(is_not(c))
            });
        }
        if chars[i] != c {
            push_char(&mut out, chars[i]);
        }
        i += 1;
    }
    assert(chars@.take(chars@.len() as int) =~= chars@);
    out
}

// ---------------------------------------------------------------------------
// Decimal numbers
// ---------------------------------------------------------------------------

/// The character for one decimal digit.
pub open spec fn digit_char(d: nat) -> char
    recommends
        d < 10,
{
    (48 + d) as u8 as char
}

/// The decimal notation of a natural number, without leading zeros.
pub open spec fn decimal(n: nat) -> Seq<char>
    decreases n,
{
    if n < 10 {
        seq![digit_char(n)]
    } else {
        decimal(n / 10).push(digit_char(n % 10))
    }
}

/// The decimal notation of an integer, with a leading `-` when negative.
pub open spec fn signed_decimal(i: int) -> Seq<char> {
    if i < 0 {
        seq!['-'] + decimal((-i) as nat)
    } else {
        decimal(i as nat)
    }
}

/// Appends the decimal notation of `n` to `s`.
pub fn push_decimal(s: &mut String, n: u64)
    ensures
        final(s)@ == old(s)@ + decimal(n as nat),
    decreases n,
{
    if n >= 10 {
        push_decimal(s, n / 10);
    }
    let d: u8 = (n % 10) as u8;
    push_char(s, (48 + d) as char);
}

/// The decimal notation of `n` as a string.
pub fn decimal_string(n: u64) -> (s: String)
    ensures
        s@ == decimal(n as nat),
{
    let mut s = String::new();
    push_decimal(&mut s, n);
    s
}

/// Appends the decimal notation of a signed number to `s`.
pub fn push_signed_decimal(s: &mut String, i: i64)
    ensures
        final(s)@ == old(s)@ + signed_decimal(i as int),
{
    if i < 0 {
        push_char(s, '-');
        // -(i + 1) fits even for the smallest value
        let magnitude: u64 = (-(i + 1)) as u64 + 1;
        push_decimal(s, magnitude);
    } else {
        push_decimal(s, i as u64);
    }
}

// ---------------------------------------------------------------------------
// Grouped numbers
// ---------------------------------------------------------------------------

/// Three decimal digits of a number below one thousand, zero-padded.
pub open spec fn three_digits(r: nat) -> Seq<char>
    recommends
        r < 1000,
{
    seq![digit_char(r / 100), digit_char((r / 10) % 10), digit_char(r % 10)]
}

/// Decimal notation with a comma between groups of three digits, counted
/// from the right: `1234567` reads `1,234,567`.
pub open spec fn grouped_decimal(n: nat) -> Seq<char>
    decreases n,
{
    if n < 1000 {
        decimal(n)
    } else {
        grouped_decimal(n / 1000) + seq![','] + three_digits(n % 1000)
    }
}

/// Formats a number for the English locale. Wraps
/// `num_format::ToFormattedString::to_formatted_string` with `Locale::en`,
/// whose separator is `,` and whose grouping is in threes: the contract says
/// that the digits come out in decimal with that separator between groups.
#[verifier::external_body]
pub(crate) fn grouped_string(n: u64) -> (s: String)
    ensures
        s@ == grouped_decimal(n as nat),
{
    n.to_formatted_string(&Locale::en)
}

// ---------------------------------------------------------------------------
// Hexadecimal
// ---------------------------------------------------------------------------

/// The lower-case character for one hexadecimal digit.
pub open spec fn hex_digit(d: nat) -> char
    recommends
        d < 16,
{
    if d < 10 {
        (48 + d) as u8 as char
    } else {
        (87 + d) as u8 as char
    }
}

/// Two lower-case hexadecimal digits per byte, high nibble first.
pub open spec fn hex_lower(bytes: Seq<u8>) -> Seq<char> {
    Seq::new(
        2 * bytes.len(),
        |i: int|
            if i % 2 == 0 {
                hex_digit((bytes[i / 2] / 16) as nat)
            } else {
                hex_digit((bytes[i / 2] % 16) as nat)
            },
    )
}

/// Renders bytes in hexadecimal. Wraps `hex::encode`, documented to encode
/// each byte with two lower-case hex digits, so that the string is twice as
/// long as the data.
#[verifier::external_body]
pub(crate) fn hex_string(bytes: &[u8]) -> (s: String)
    ensures
        s@ == hex_lower(bytes@),
{
    hex::encode(bytes)
}

// ---------------------------------------------------------------------------
// NUL-terminated buffers
// ---------------------------------------------------------------------------

/// Position of the first NUL byte, or the length where there is none.
pub open spec fn nul_index(buf: Seq<u8>) -> int
    decreases buf.len(),
{
    if buf.len() == 0 || buf[0] == 0 {
        0
    } else {
        1 + nul_index(buf.drop_first())
    }
}

/// Whether a buffer holds a terminating NUL byte.
pub open spec fn has_nul(buf: Seq<u8>) -> bool {
    nul_index(buf) < buf.len()
}

/// The bytes in front of the first NUL byte.
pub open spec fn c_str_bytes(buf: Seq<u8>) -> Seq<u8> {
    buf.take(nul_index(buf))
}

/// `nul_index` is the least position that holds a NUL byte.
pub proof fn lemma_nul_index(buf: Seq<u8>)
    ensures
        0 <= nul_index(buf) <= buf.len(),
        forall|j: int| 0 <= j < nul_index(buf) ==> buf[j] != 0,
        nul_index(buf) < buf.len() ==> buf[nul_index(buf)] == 0,
    decreases buf.len(),
{
    if buf.len() > 0 && buf[0] != 0 {
        let rest = buf.drop_first();
        lemma_nul_index(rest);
        assert forall|j: int| 0 <= j < nul_index(buf) implies buf[j] != 0 by {
            if j > 0 {
                assert(buf[j] == rest[j - 1]);
            }
        }
    }
}

/// A position that holds a NUL byte after NUL-free bytes is `nul_index`.
pub proof fn lemma_nul_index_is(buf: Seq<u8>, k: int)
    requires
        0 <= k <= buf.len(),
        forall|j: int| 0 <= j < k ==> buf[j] != 0,
        k < buf.len() ==> buf[k] == 0,
    ensures
        nul_index(buf) == k,
{
    lemma_nul_index(buf);
}

/// The bytes in front of the first NUL byte of a buffer; all of them where
/// it holds none.
pub fn c_str_prefix(buf: &Vec<u8>) -> (out: Vec<u8>)
    ensures
        out@ == c_str_bytes(buf@),
{
    let mut out: Vec<u8> = Vec::new();
    let mut i: usize = 0;
    while i < buf.len() && buf[i] != 0
        invariant
            0 <= i <= buf.len(),
            out@ == buf@.take(i as int),
            forall|j: int| 0 <= j < i ==> buf@[j] != 0,
        decreases buf.len() - i,
    {
        out.push(buf[i]);
        i += 1;
    }
    proof {
        lemma_nul_index_is(buf@, i as int);
    }
    out
}

/// Cuts a fixed-size buffer at its first NUL byte; `None` where it holds none.
pub fn until_nul(buf: &Vec<u8>) -> (r: Option<Vec<u8>>)
    ensures
        r is Some <==> has_nul(buf@),
        r matches Some(bytes) ==> bytes@ == c_str_bytes(buf@),
{
    let prefix = c_str_prefix(buf);
    proof {
        lemma_nul_index(buf@);
    }
    if prefix.len() < buf.len() {
        Some(prefix)
    } else {
        None
    }
}

// ---------------------------------------------------------------------------
// Lossy decoders
// ---------------------------------------------------------------------------

/// What `String::from_utf8_lossy` makes of a byte sequence.
pub uninterp spec fn utf8_lossy(bytes: Seq<u8>) -> Seq<char>;

/// What `String::from_utf16_lossy` makes of a sequence of code units.
pub uninterp spec fn utf16_lossy(units: Seq<u16>) -> Seq<char>;

/// Decodes bytes as UTF-8, replacing what is invalid. Wraps
/// `String::from_utf8_lossy`, which turns each invalid sequence into U+FFFD;
/// the contract only names what it returns.
#[verifier::external_body]
pub(crate) fn decode_utf8_lossy(bytes: &[u8]) -> (s: String)
    ensures
        s@ == utf8_lossy(bytes@),
{
    String::from_utf8_lossy(bytes).into_owned()
}

/// Decodes code units as UTF-16, replacing what is invalid. Wraps
/// `String::from_utf16_lossy`, which turns each unpaired surrogate into
/// U+FFFD; the contract only names what it returns.
#[verifier::external_body]
pub(crate) fn decode_utf16_lossy(units: &[u16]) -> (s: String)
    ensures
        s@ == utf16_lossy(units@),
{
    String::from_utf16_lossy(units)
}

} // verus!
