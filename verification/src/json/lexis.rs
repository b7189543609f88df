//! The lexical grammar, as functions on sequences of bytes.
//!
//! `lex` says which token stands at the head of an input and what is left
//! behind it; `token_stream` says what the whole input lexes to.

use vstd::prelude::*;
use crate::json::token::{LexError, TokenView};
use crate::text::{ascii_text, i64_of_text, is_digit};

verus! {

/// Blank characters: space, tab, line feed, vertical tab, form feed and
/// carriage return.
pub open spec fn is_whitespace(b: u8) -> bool {
    b == 0x20 || (0x09 <= b && b <= 0x0d)
}

/// The kinds of bytes of which the lexer passes over whole runs.
pub enum ByteClass {
    /// Blanks.
    Whitespace,
    /// What may stand between two tokens: blanks and commas.
    Separator,
    /// What a number goes on with: digits and the decimal point.
    Number,
    /// What a string goes on with: any ASCII character but the quote.
    StringBody,
}

impl ByteClass {
    /// Whether a byte is of this kind.
    pub open spec fn holds(self, b: u8) -> bool {
        match self {
            ByteClass::Whitespace => is_whitespace(b),
            ByteClass::Separator => is_whitespace(b) || b as char == ',',
            ByteClass::Number => is_digit(b as char) || b as char == '.',
            ByteClass::StringBody => b < 0x80 && b as char != '"',
        }
    }
}

/// The length of the longest prefix of `s` whose bytes are all of one kind.
pub open spec fn run_len(s: Seq<u8>, class: ByteClass) -> nat
    decreases s.len(),
{
    if s.len() > 0 && class.holds(s[0]) {
        1 + run_len(s.skip(1), class)
    } else {
        0
    }
}

/// How many decimal points a text holds.
pub open spec fn dot_count(s: Seq<u8>) -> nat
    decreases s.len(),
{
    if s.len() == 0 {
        0
    } else {
        dot_count(s.drop_last()) + if s.last() as char == '.' {
            1nat
        } else {
            0nat
        }
    }
}

/// Whether a text holds a decimal digit.
pub open spec fn has_digit(s: Seq<u8>) -> bool {
    exists|i: int| 0 <= i < s.len() && is_digit(#[trigger] s[i] as char)
}

/// What the lexer finds at the head of an input.
pub enum Lexed {
    /// Nothing but separators was left.
    End,
    /// A token, and the input behind it.
    Token { token: TokenView, rest: Seq<u8> },
    /// The input is not lexically sound here.
    Error { error: LexError },
}

/// How a word fails to stand at the head of `s`, if it does.
pub open spec fn word_mismatch(s: Seq<u8>, word: Seq<char>) -> Option<LexError>
    decreases word.len(),
{
    if word.len() == 0 {
        None
    } else if s.len() == 0 {
        Some(LexError::MalformedLiteral)
    } else if s[0] >= 0x80 {
        Some(LexError::NonAscii)
    } else if s[0] as char != word[0] {
        Some(LexError::MalformedLiteral)
    } else {
        word_mismatch(s.skip(1), word.skip(1))
    }
}

/// A keyword whose first letter has been read: the remaining letters must
/// follow at once.
pub open spec fn lex_word(after: Seq<u8>, word: Seq<char>, token: TokenView) -> Lexed {
    match word_mismatch(after, word) {
        Some(error) => Lexed::Error { error },
        None => Lexed::Token { token, rest: after.skip(word.len() as int) },
    }
}

/// A number that starts at the head of `s`, with a digit or a minus sign.
///
/// The literal goes on as long as digits and decimal points follow. With one
/// decimal point it is a `Float` and needs a digit; with none it is an
/// `Integer` and must fit in 64 bits.
pub open spec fn lex_number(s: Seq<u8>) -> Lexed {
    let length = 1 + run_len(s.skip(1), ByteClass::Number);
    let literal = s.take(length as int);
    let rest = s.skip(length as int);
    if dot_count(literal) >= 2 {
        Lexed::Error { error: LexError::MalformedNumber }
    } else if rest.len() > 0 && rest[0] >= 0x80 {
        Lexed::Error { error: LexError::NonAscii }
    } else if dot_count(literal) == 1 {
        if has_digit(literal) {
            Lexed::Token { token: TokenView::Float(ascii_text(literal)), rest }
        } else {
            Lexed::Error { error: LexError::MalformedNumber }
        }
    } else {
        match i64_of_text(ascii_text(literal)) {
            Some(value) => Lexed::Token { token: TokenView::Integer(value), rest },
            None => Lexed::Error { error: LexError::MalformedNumber },
        }
    }
}

/// A string whose opening quote has been read.
///
/// The text runs up to the next quote, taken as it stands. Behind the
/// closing quote blanks are passed over; a colon there makes the string an
/// `Identifier` and belongs to the token.
pub open spec fn lex_string(after: Seq<u8>) -> Lexed {
    let length = run_len(after, ByteClass::StringBody);
    if length >= after.len() {
        Lexed::Error { error: LexError::UnterminatedString }
    } else if after[length as int] >= 0x80 {
        Lexed::Error { error: LexError::NonAscii }
    } else {
        let text = ascii_text(after.take(length as int));
        let behind = after.skip(length as int + 1);
        let next = behind.skip(run_len(behind, ByteClass::Whitespace) as int);
        if next.len() > 0 && next[0] >= 0x80 {
            Lexed::Error { error: LexError::NonAscii }
        } else if next.len() > 0 && next[0] as char == ':' {
            Lexed::Token { token: TokenView::Identifier(text), rest: next.skip(1) }
        } else {
            Lexed::Token { token: TokenView::String(text), rest: next }
        }
    }
}

/// The token that starts with the first byte of `s`, which is an ASCII
/// character and no separator.
pub open spec fn lex_token(s: Seq<u8>) -> Lexed {
    let c = s[0] as char;
    let after = s.skip(1);
    if c == '{' {
        Lexed::Token { token: TokenView::ObjectStart, rest: after }
    } else if c == '}' {
        Lexed::Token { token: TokenView::ObjectEnd, rest: after }
    } else if c == '[' {
        Lexed::Token { token: TokenView::ArrayStart, rest: after }
    } else if c == ']' {
        Lexed::Token { token: TokenView::ArrayEnd, rest: after }
    } else if is_digit(c) || c == '-' {
        lex_number(s)
    } else if c == 't' {
        lex_word(after, seq!['r', 'u', 'e'], TokenView::Bool(true))
    } else if c == 'f' {
        lex_word(after, seq!['a', 'l', 's', 'e'], TokenView::Bool(false))
    } else if c == 'n' {
        lex_word(after, seq!['u', 'l', 'l'], TokenView::Null)
    } else if c == '"' {
        lex_string(after)
    } else {
        Lexed::Error { error: LexError::UnexpectedCharacter(s[0]) }
    }
}

/// What stands at the head of an input: separators are passed over, then
/// comes the end, a token, or a failure.
pub open spec fn lex(input: Seq<u8>) -> Lexed {
    let s = input.skip(run_len(input, ByteClass::Separator) as int);
    if s.len() == 0 {
        Lexed::End
    } else if s[0] >= 0x80 {
        Lexed::Error { error: LexError::NonAscii }
    } else {
        lex_token(s)
    }
}

/// What an input lexes to: its tokens in order, and how the sequence ends.
#[verifier::ext_equal]
pub struct TokenStream {
    /// The tokens still to come.
    pub tokens: Seq<TokenView>,
    /// `None` where the input ends behind the last token, else the failure
    /// that cuts the sequence short.
    pub end: Option<LexError>,
}

impl TokenStream {
    /// The stream of an exhausted input.
    pub open spec fn ended() -> TokenStream {
        TokenStream { tokens: Seq::empty(), end: None }
    }

    /// The stream of an input that fails at once.
    pub open spec fn failed(error: LexError) -> TokenStream {
        TokenStream { tokens: Seq::empty(), end: Some(error) }
    }

    /// This stream behind a further first token.
    pub open spec fn after(self, token: TokenView) -> TokenStream {
        TokenStream { tokens: seq![token] + self.tokens, end: self.end }
    }

    /// This stream without its first `count` tokens.
    pub open spec fn skip(self, count: int) -> TokenStream {
        TokenStream { tokens: self.tokens.skip(count), end: self.end }
    }
}

/// Whether `rest` is what is left of `s` when `count` or more tokens were
/// taken from its front.
pub open spec fn behind(s: TokenStream, rest: TokenStream, count: int) -> bool {
    exists|n: int| count <= n <= s.tokens.len() && rest == #[trigger] s.skip(n)
}

/// Taking tokens twice takes as many as both takings together.
pub proof fn lemma_behind_chain(
    s: TokenStream,
    middle: TokenStream,
    rest: TokenStream,
    first: int,
    second: int,
)
    requires
        0 <= first,
        0 <= second,
        behind(s, middle, first),
        behind(middle, rest, second),
    ensures
        behind(s, rest, first + second),
{
    let n = choose|n: int| first <= n <= s.tokens.len() && middle == #[trigger] s.skip(n);
    let m = choose|m: int| second <= m <= middle.tokens.len() && rest == #[trigger] middle.skip(m);
    assert(s.skip(n).skip(m) =~= s.skip(n + m));
}

/// The tokens of an input, in order, up to its end or its first failure.
pub open spec fn token_stream(input: Seq<u8>) -> TokenStream
    decreases input.len(),
    via token_stream_terminates
{
    match lex(input) {
        Lexed::End => TokenStream::ended(),
        Lexed::Error { error } => TokenStream::failed(error),
        Lexed::Token { token, rest } => token_stream(rest).after(token),
    }
}

#[via_fn]
proof fn token_stream_terminates(input: Seq<u8>) {
    lemma_lex_consumes(input);
}

/// The run is as long as a prefix of that kind which is followed by the end
/// or by a byte of another kind.
pub proof fn lemma_run_len(s: Seq<u8>, class: ByteClass, n: int)
    requires
        0 <= n <= s.len(),
        forall|i: int| 0 <= i < n ==> class.holds(#[trigger] s[i]),
        n < s.len() ==> !class.holds(s[n]),
    ensures
        run_len(s, class) == n,
    decreases n,
{
    if n > 0 {
        let t = s.skip(1);
        assert forall|i: int| 0 <= i < n - 1 implies class.holds(#[trigger] t[i]) by {}
        lemma_run_len(t, class, n - 1);
    }
}

/// A run is at least as long as any prefix of that kind.
pub proof fn lemma_run_len_at_least(s: Seq<u8>, class: ByteClass, n: int)
    requires
        0 <= n <= s.len(),
        forall|i: int| 0 <= i < n ==> class.holds(#[trigger] s[i]),
    ensures
        run_len(s, class) >= n,
        run_len(s, class) <= s.len(),
    decreases s.len(),
{
    if s.len() > 0 && class.holds(s[0]) {
        let t = s.skip(1);
        if n > 0 {
            assert forall|i: int| 0 <= i < n - 1 implies class.holds(#[trigger] t[i]) by {}
            lemma_run_len_at_least(t, class, n - 1);
        } else {
            lemma_run_len_at_least(t, class, 0);
        }
    }
}

/// A text holds at least as many decimal points as any of its prefixes.
pub proof fn lemma_dot_count_grows(s: Seq<u8>, n: int)
    requires
        0 <= n <= s.len(),
    ensures
        dot_count(s.take(n)) <= dot_count(s),
    decreases s.len() - n,
{
    if n == s.len() {
        assert(s.take(n) =~= s);
    } else {
        lemma_dot_count_grows(s, n + 1);
        assert(s.take(n + 1).drop_last() =~= s.take(n));
    }
}

/// A word stands at the head of `s` where its first letter does and the
/// rest of it follows.
pub proof fn lemma_word_unfolds(s: Seq<u8>, word: Seq<char>)
    requires
        word.len() > 0,
    ensures
        word_mismatch(s, word) == match word_mismatch(s, seq![word[0]]) {
            Some(error) => Some(error),
            None => word_mismatch(s.skip(1), word.skip(1)),
        },
{
    reveal_with_fuel(word_mismatch, 2);
}

/// A word that stands at the head of `s` is shorter than `s` or as long.
pub proof fn lemma_word_fits(s: Seq<u8>, word: Seq<char>)
    requires
        word_mismatch(s, word) is None,
    ensures
        word.len() <= s.len(),
    decreases word.len(),
{
    if word.len() > 0 {
        lemma_word_fits(s.skip(1), word.skip(1));
    }
}

/// A token takes at least one byte, and what is left behind it is a suffix
/// of the input.
pub proof fn lemma_lex_consumes(input: Seq<u8>)
    ensures
        match lex(input) {
            Lexed::Token { token, rest } => exists|n: int|
                0 < n <= input.len() && rest == #[trigger] input.skip(n),
            _ => true,
        },
{
    let lead = run_len(input, ByteClass::Separator) as int;
    lemma_run_len_at_least(input, ByteClass::Separator, 0);
    let s = input.skip(lead);
    if s.len() > 0 && s[0] < 0x80 {
        let after = s.skip(1);
        match lex_token(s) {
            Lexed::Token { token, rest } => {
                let c = s[0] as char;
                if c == '{' || c == '}' || c == '[' || c == ']' {
                    assert(rest == input.skip(lead + 1));
                } else if is_digit(c) || c == '-' {
                    let run = run_len(after, ByteClass::Number) as int;
                    lemma_run_len_at_least(after, ByteClass::Number, 0);
                    assert(rest =~= input.skip(lead + 1 + run));
                } else if c == 't' || c == 'f' || c == 'n' {
                    let word = if c == 't' {
                        seq!['r', 'u', 'e']
                    } else if c == 'f' {
                        seq!['a', 'l', 's', 'e']
                    } else {
                        seq!['u', 'l', 'l']
                    };
                    lemma_word_fits(after, word);
                    assert(rest =~= input.skip(lead + 1 + word.len()));
                } else {
                    let length = run_len(after, ByteClass::StringBody) as int;
                    let behind = after.skip(length as int + 1);
                    let blanks = run_len(behind, ByteClass::Whitespace) as int;
                    lemma_run_len_at_least(behind, ByteClass::Whitespace, 0);
                    let next = behind.skip(blanks);
                    assert(next =~= input.skip(lead + 1 + length + 1 + blanks));
                    if next.len() > 0 && next[0] as char == ':' {
                        assert(rest =~= input.skip(lead + 1 + length + 1 + blanks + 1));
                    }
                }
            },
            _ => {},
        }
    }
}

/// Blanks and commas are separators and nothing else: whatever stands in
/// front of an input in the way of them, the input lexes to the same
/// tokens.
pub proof fn lemma_separators_are_passed_over(separators: Seq<u8>, input: Seq<u8>)
    requires
        forall|i: int| 0 <= i < separators.len() ==> ByteClass::Separator.holds(
            #[trigger] separators[i],
        ),
    ensures
        lex(separators + input) == lex(input),
        token_stream(separators + input) == token_stream(input),
    decreases separators.len(),
{
    if separators.len() > 0 {
        let whole = separators + input;
        let shorter = separators.skip(1);
        assert(whole.skip(1) =~= shorter + input);
        lemma_separators_are_passed_over(shorter, input);
        let run = run_len(shorter + input, ByteClass::Separator) as int;
        lemma_run_len_at_least(shorter + input, ByteClass::Separator, 0);
        assert(whole.skip(1 + run) =~= (shorter + input).skip(run));
    }
}

} // verus!
