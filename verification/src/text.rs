//! Text helpers shared by the tokenizer, the builders and the parsers:
//! ASCII conversion, comparison of string slices, decimal integers and
//! joining of messages.

use vstd::prelude::*;
use vstd::string::StringExecFns;
use vstd::string::StringSliceAdditionalSpecFns;

verus! {

/// The characters that a sequence of bytes stands for when every byte is read
/// as one character.
pub open spec fn ascii_text(bytes: Seq<u8>) -> Seq<char> {
    Seq::new(bytes.len(), |i: int| bytes[i] as char)
}

/// Appends one character to a string.
///
/// Trusted: this is `String::push` of the standard library, which adds the
/// given character at the end of the string and changes nothing else.
#[verifier::external_body]
pub(crate) fn push_char(text: &mut String, c: char)
    ensures
        final(text)@ == old(text)@.push(c),
{
    text.push(c);
}

/// Whether two string slices hold the same characters.
pub fn str_eq(a: &str, b: &str) -> (same: bool)
    ensures
        same == (a@ == b@),
{
    let x = a.as_bytes();
    let y = b.as_bytes();
    proof {
        vstd::utf8::encode_utf8_decode_utf8(a@);
        vstd::utf8::encode_utf8_decode_utf8(b@);
    }
    if x.len() != y.len() {
        return false;
    }
    let mut i: usize = 0;
    while i < x.len()
        invariant
            i <= x.len(),
            x.len() == y.len(),
            x@ == a.spec_bytes(),
            y@ == b.spec_bytes(),
            a@ == vstd::utf8::decode_utf8(a.spec_bytes()),
            b@ == vstd::utf8::decode_utf8(b.spec_bytes()),
            forall|k: int| 0 <= k < i ==> x@[k] == y@[k],
        decreases x.len() - i,
    {
        if x[i] != y[i] {
            return false;
        }
        i += 1;
    }
    assert(x@ =~= y@);
    true
}

/// Whether a character is one of the ten decimal digits.
pub open spec fn is_digit(c: char) -> bool {
    '0' <= c && c <= '9'
}

/// The number that a decimal digit stands for.
pub open spec fn digit_value(c: char) -> int {
    c as int - 48
}

/// Whether every character of a text is a decimal digit.
pub open spec fn all_digits(text: Seq<char>) -> bool {
    forall|i: int| 0 <= i < text.len() ==> is_digit(#[trigger] text[i])
}

/// The number written by a run of decimal digits, most significant first.
/// The empty run stands for zero.
pub open spec fn decimal_value(digits: Seq<char>) -> int
    decreases digits.len(),
{
    if digits.len() == 0 {
        0
    } else {
        decimal_value(digits.drop_last()) * 10 + digit_value(digits.last())
    }
}

/// The digits of a text that may open with a sign.
pub open spec fn unsigned_part(text: Seq<char>) -> Seq<char> {
    if text.len() > 0 && (text[0] == '-' || text[0] == '+') {
        text.skip(1)
    } else {
        text
    }
}

/// The integer that a text writes: an optional `+` or `-`, then one or more
/// decimal digits and nothing else. `None` for any other text.
pub open spec fn integer_of_text(text: Seq<char>) -> Option<int> {
    let digits = unsigned_part(text);
    if digits.len() > 0 && all_digits(digits) {
        if text[0] == '-' {
            Some(-decimal_value(digits))
        } else {
            Some(decimal_value(digits))
        }
    } else {
        None
    }
}

/// The 64-bit integer that a text writes, if it writes an integer and that
/// integer fits.
pub open spec fn i64_of_text(text: Seq<char>) -> Option<i64> {
    match integer_of_text(text) {
        Some(v) => if i64::MIN <= v <= i64::MAX {
            Some(v as i64)
        } else {
            None
        },
        None => None,
    }
}

/// A run of digits is worth at least as much as any of its prefixes, and
/// never less than zero.
pub proof fn lemma_decimal_value_grows(digits: Seq<char>, n: int)
    requires
        all_digits(digits),
        0 <= n <= digits.len(),
    ensures
        0 <= decimal_value(digits.take(n)) <= decimal_value(digits),
    decreases digits.len() - n,
{
    if n == digits.len() {
        assert(digits.take(n) =~= digits);
        lemma_decimal_value_nonnegative(digits);
    } else {
        lemma_decimal_value_grows(digits, n + 1);
        let longer = digits.take(n + 1);
        assert(longer.drop_last() =~= digits.take(n));
    }
}

proof fn lemma_decimal_value_nonnegative(digits: Seq<char>)
    requires
        all_digits(digits),
    ensures
        0 <= decimal_value(digits),
    decreases digits.len(),
{
    if digits.len() > 0 {
        lemma_decimal_value_nonnegative(digits.drop_last());
    }
}

/// The number that a run of digits writes, if it is one or more decimal
/// digits and nothing else and worth no more than `limit`.
pub open spec fn magnitude_of_text(digits: Seq<char>, limit: int) -> Option<int> {
    if digits.len() > 0 && all_digits(digits) && decimal_value(digits) <= limit {
        Some(decimal_value(digits))
    } else {
        None
    }
}

/// The unsigned 64-bit integer that a text writes: an optional `+`, then
/// decimal digits only, worth no more than the type holds.
pub open spec fn u64_of_text(text: Seq<char>) -> Option<u64> {
    if text.len() > 0 && text[0] == '-' {
        None
    } else {
        match magnitude_of_text(unsigned_part(text), u64::MAX as int) {
            Some(v) => Some(v as u64),
            None => None,
        }
    }
}

/// Reads the digits of an ASCII text from `start` on, as a number of at most
/// `limit`.
fn parse_magnitude(text: &str, start: usize, limit: u64) -> (value: Option<u64>)
    requires
        text.is_ascii(),
        start <= text@.len(),
    ensures
        match value {
            Some(v) => magnitude_of_text(text@.skip(start as int), limit as int) == Some(v as int),
            None => magnitude_of_text(text@.skip(start as int), limit as int) is None,
        },
{
    let bytes = text.as_bytes();
    let n = bytes.len();
    let ghost digits = text@.skip(start as int);
    if start == n {
        return None;
    }
    let mut acc: u128 = 0;
    let mut i: usize = start;
    while i < n
        invariant
            start <= i <= n,
            n == bytes@.len(),
            n == text@.len(),
            digits == text@.skip(start as int),
            forall|k: int|
                0 <= k < n ==> #[trigger] bytes@[k] == text@[k] as u8 && '\0' <= text@[k]
                    <= '\u{7f}',
            all_digits(digits.take(i - start)),
            acc == decimal_value(digits.take(i - start)),
            0 <= acc <= limit,
        decreases n - i,
    {
        let b = bytes[i];
        if b < 48 || b > 57 {
            assert(!is_digit(digits[i - start]));
            return None;
        }
        let ghost before = digits.take(i - start);
        let ghost after = digits.take(i - start + 1);
        assert(after.drop_last() =~= before);
        assert(all_digits(after)) by {
            assert forall|k: int| 0 <= k < after.len() implies is_digit(#[trigger] after[k]) by {}
        }
        acc = acc * 10 + (b - 48) as u128;
        if acc > limit as u128 {
            proof {
                if all_digits(digits) {
                    lemma_decimal_value_grows(digits, i - start + 1);
                }
            }
            return None;
        }
        i += 1;
    }
    assert(digits.take(n - start) =~= digits);
    Some(acc as u64)
}

/// Why a text with a character outside ASCII writes no number.
proof fn lemma_digits_are_ascii(text: Seq<char>)
    requires
        !vstd::utf8::is_ascii_chars(text),
    ensures
        !(unsigned_part(text).len() > 0 && all_digits(unsigned_part(text))),
{
    let c = choose|i: int| 0 <= i < text.len() && !('\0' <= #[trigger] text[i] <= '\u{7f}');
    if c >= 1 || !(text[0] == '-' || text[0] == '+') {
        let digits = unsigned_part(text);
        let at = if digits.len() == text.len() {
            c
        } else {
            c - 1
        };
        assert(!is_digit(digits[at]));
    }
}

/// Reads a 64-bit integer from a text, as `str::parse::<i64>` does: an
/// optional sign, then decimal digits only.
pub fn parse_i64(text: &str) -> (value: Option<i64>)
    ensures
        value == i64_of_text(text@),
{
    if !text.is_ascii() {
        proof {
            lemma_digits_are_ascii(text@);
        }
        return None;
    }
    let bytes = text.as_bytes();
    if bytes.len() == 0 {
        return None;
    }
    let negative = bytes[0] == 45;
    let start: usize = if negative || bytes[0] == 43 {
        1
    } else {
        0
    };
    assert(unsigned_part(text@) =~= text@.skip(start as int));
    if negative {
        match parse_magnitude(text, start, 0x8000_0000_0000_0000) {
            Some(magnitude) => Some((-(magnitude as i128)) as i64),
            None => None,
        }
    } else {
        match parse_magnitude(text, start, 0x7fff_ffff_ffff_ffff) {
            Some(magnitude) => Some(magnitude as i64),
            None => None,
        }
    }
}

/// Reads an unsigned 64-bit integer from a text, as `str::parse::<u64>`
/// does: an optional `+`, then decimal digits only.
pub fn parse_u64(text: &str) -> (value: Option<u64>)
    ensures
        value == u64_of_text(text@),
{
    if !text.is_ascii() {
        proof {
            lemma_digits_are_ascii(text@);
        }
        return None;
    }
    let bytes = text.as_bytes();
    if bytes.len() == 0 {
        return None;
    }
    if bytes[0] == 45 {
        return None;
    }
    let start: usize = if bytes[0] == 43 {
        1
    } else {
        0
    };
    assert(unsigned_part(text@) =~= text@.skip(start as int));
    parse_magnitude(text, start, 0xffff_ffff_ffff_ffff)
}

/// The character of a decimal digit.
pub open spec fn digit_char(d: int) -> char {
    (d + 48) as char
}

/// The decimal digits of a natural number, most significant first, without
/// leading zeros; zero is written `0`.
pub open spec fn decimal_digits(n: nat) -> Seq<char>
    decreases n,
{
    if n < 10 {
        seq![digit_char(n as int)]
    } else {
        decimal_digits(n / 10).push(digit_char((n % 10) as int))
    }
}

/// An integer in decimal, with a leading `-` when it is negative.
pub open spec fn decimal_text(v: int) -> Seq<char> {
    if v < 0 {
        seq!['-'] + decimal_digits((-v) as nat)
    } else {
        decimal_digits(v as nat)
    }
}

/// Writes an integer in decimal.
pub fn decimal_string(v: i64) -> (text: String)
    ensures
        text@ == decimal_text(v as int),
{
    let magnitude: i128 = if v < 0 {
        -(v as i128)
    } else {
        v as i128
    };
    let mut low: Vec<u8> = Vec::new();
    let mut rest: i128 = magnitude;
    let ghost mut tail: Seq<char> = Seq::empty();
    while rest >= 10
        invariant
            0 <= rest <= magnitude,
            decimal_digits(magnitude as nat) == decimal_digits(rest as nat) + tail,
            tail.len() == low@.len(),
            forall|k: int|
                0 <= k < tail.len() ==> #[trigger] tail[k] == digit_char(
                    low@[low@.len() - 1 - k] as int,
                ),
            forall|k: int| 0 <= k < low@.len() ==> #[trigger] low@[k] < 10,
        decreases rest,
    {
        let d = (rest % 10) as u8;
        proof {
            tail = seq![digit_char(d as int)] + tail;
        }
        low.push(d);
        rest = rest / 10;
    }
    let mut text = String::new();
    if v < 0 {
        push_char(&mut text, '-');
    }
    let ghost head = text@;
    push_char(&mut text, ((rest as u8) + 48) as char);
    let mut i: usize = low.len();
    while i > 0
        invariant
            i <= low@.len(),
            tail.len() == low@.len(),
            forall|k: int|
                0 <= k < tail.len() ==> #[trigger] tail[k] == digit_char(
                    low@[low@.len() - 1 - k] as int,
                ),
            forall|k: int| 0 <= k < low@.len() ==> #[trigger] low@[k] < 10,
            text@ == head + decimal_digits(rest as nat) + tail.take(low@.len() - i),
            0 <= rest < 10,
        decreases i,
    {
        i -= 1;
        push_char(&mut text, (low[i] + 48) as char);
    }
    text
}

/// A message that names a value: the opening words, the value in decimal,
/// and the closing words.
pub fn message_with_value(opening: &str, value: i64, closing: &str) -> (text: String)
    ensures
        text@ == opening@ + decimal_text(value as int) + closing@,
{
    let mut text = String::from_str(opening);
    let number = decimal_string(value);
    text.append(number.as_str());
    text.append(closing);
    text
}

/// A message that names a text: the opening words, the text, and the closing
/// words.
pub fn message_with_text(opening: &str, named: &str, closing: &str) -> (text: String)
    ensures
        text@ == opening@ + named@ + closing@,
{
    let mut text = String::from_str(opening);
    text.append(named);
    text.append(closing);
    text
}

/// The texts of a sequence of strings.
pub open spec fn texts(parts: Seq<String>) -> Seq<Seq<char>> {
    parts.map_values(|part: String| part@)
}

/// The parts written one after another with the separator between each two.
pub open spec fn joined(parts: Seq<Seq<char>>, separator: Seq<char>) -> Seq<char>
    decreases parts.len(),
{
    if parts.len() == 0 {
        Seq::empty()
    } else if parts.len() == 1 {
        parts[0]
    } else {
        joined(parts.drop_last(), separator) + separator + parts.last()
    }
}

/// Joins the parts with the separator between each two of them.
pub fn join(parts: &Vec<String>, separator: &str) -> (text: String)
    ensures
        text@ == joined(texts(parts@), separator@),
{
    let mut text = String::new();
    let mut i: usize = 0;
    while i < parts.len()
        invariant
            i <= parts@.len(),
            text@ == joined(texts(parts@).take(i as int), separator@),
        decreases parts@.len() - i,
    {
        let ghost before = texts(parts@).take(i as int);
        let ghost after = texts(parts@).take(i + 1);
        assert(after.drop_last() =~= before);
        if i > 0 {
            text.append(separator);
        }
        text.append(parts[i].as_str());
        i += 1;
    }
    assert(texts(parts@).take(parts@.len() as int) =~= texts(parts@));
    text
}

} // verus!
