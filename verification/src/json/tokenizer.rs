//! The tokenizer: lexes straight from a buffer of 512 bytes that is filled
//! again from the source whenever it runs empty.

use vstd::prelude::*;
use crate::json::lexis::{
    dot_count, has_digit, lemma_dot_count_grows, lemma_run_len, lemma_run_len_at_least,
    lemma_word_unfolds, lex, lex_number, lex_string, lex_token,
    lex_word, run_len, token_stream, word_mismatch, ByteClass, Lexed, TokenStream,
};
use crate::json::source::ByteSource;
use crate::json::token::{LexError, Token, TokenView};
use crate::text::{ascii_text, is_digit, parse_i64, push_char};

verus! {

/// A lazy, one-pass sequence of tokens over a source of bytes.
///
/// The tokenizer stands for the stream of tokens that is still to come,
/// `stream()`. Each call of `next_token` hands out the first of them and
/// asks that the input be lexically sound there; `try_next_token` asks
/// nothing and reports a lexical failure, which ends the sequence for good:
/// from then on every call reports that failure.
pub struct JsonTokenizer<T: ByteSource> {
    source: T,
    buf: [u8; 512],
    window: Window,
    failure: Option<LexError>,
}

/// The part of the buffer that holds bytes which were read from the source
/// and not lexed yet: from `idx` up to `avail`.
struct Window {
    idx: usize,
    avail: usize,
}

impl Window {
    #[verifier::type_invariant]
    spec fn within_buffer(&self) -> bool {
        self.idx <= self.avail <= 512
    }
}

impl<T: ByteSource> JsonTokenizer<T> {
    /// The bytes that have not been lexed yet: the unread part of the
    /// buffer, then what the source still holds.
    pub closed spec fn remaining(&self) -> Seq<u8> {
        self.buf@.subrange(self.window.idx as int, self.window.avail as int)
            + self.source.remaining()
    }

    /// The failure that ended the sequence, if one did.
    pub closed spec fn failure(&self) -> Option<LexError> {
        self.failure
    }

    /// The tokens still to come, and how the sequence ends.
    pub open spec fn stream(&self) -> TokenStream {
        match self.failure() {
            Some(error) => TokenStream::failed(error),
            None => token_stream(self.remaining()),
        }
    }

    spec fn buffered(&self) -> bool {
        self.window.idx < self.window.avail
    }

    /// A tokenizer at the start of `source`.
    pub fn new(source: T) -> (tokenizer: JsonTokenizer<T>)
        ensures
            tokenizer.remaining() == source.remaining(),
            tokenizer.failure() is None,
            tokenizer.stream() == token_stream(source.remaining()),
    {
        let tokenizer = JsonTokenizer {
            source,
            buf: [0u8; 512],
            window: Window { idx: 0, avail: 0 },
            failure: None,
        };
        tokenizer
    }

    /// The next token of the sequence, or `None` where the input has ended.
    ///
    /// The input must be lexically sound at its head: where it may not be,
    /// `try_next_token` is the function to call.
    pub fn next_token(&mut self) -> (token: Option<Token>)
        requires
            old(self).stream().tokens.len() > 0 || old(self).stream().end is None,
        ensures
            match token {
                Some(found) => {
                    &&& old(self).stream().tokens.len() > 0
                    &&& found@ == old(self).stream().tokens[0]
                    &&& final(self).stream() == old(self).stream().skip(1)
                },
                None => {
                    &&& old(self).stream() == TokenStream::ended()
                    &&& final(self).stream() == TokenStream::ended()
                },
            },
    {
        self.consume_whitespaces();
        let ghost s = self.remaining();
        match self.get_char() {
            Some(t) => {
                self.advance();
                assert(s =~= seq![t as u8] + self.remaining());
                Some(self.map_token(t))
            },
            None => None,
        }
    }

    /// The token that starts with the character `t`, which has been read
    /// and starts a token that is sound.
    fn map_token(&mut self, t: char) -> (token: Token)
        requires
            old(self).failure() is None,
            t <= '\u{7f}',
            lex_token(seq![t as u8] + old(self).remaining()) is Token,
        ensures
            final(self).failure() is None,
            lex_token(seq![t as u8] + old(self).remaining()) == (Lexed::Token {
                token: token@,
                rest: final(self).remaining(),
            }),
    {
        let ghost s = seq![t as u8] + self.remaining();
        assert(s.skip(1) =~= self.remaining());
        match t {
            '{' => Token::ObjectStart,
            '}' => Token::ObjectEnd,
            '[' => Token::ArrayStart,
            ']' => Token::ArrayEnd,
            '0'..='9' | '-' => self.consume_number(t),
            't' | 'f' => self.consume_bool(t),
            'n' => self.consume_null(t),
            '"' => self.consume_string(t),
            _ => vstd::pervasive::unreached(),
        }
    }

    /// Passes over blanks and commas, behind which the input ends or goes
    /// on with an ASCII character.
    fn consume_whitespaces(&mut self)
        requires
            old(self).failure() is None,
            ({
                let behind = old(self).remaining().skip(
                    run_len(old(self).remaining(), ByteClass::Separator) as int,
                );
                behind.len() > 0 ==> behind[0] < 0x80
            }),
        ensures
            final(self).failure() is None,
            final(self).remaining() == old(self).remaining().skip(
                run_len(old(self).remaining(), ByteClass::Separator) as int,
            ),
    {
        match self.try_consume_whitespaces() {
            Ok(()) => {},
            Err(_) => vstd::pervasive::unreached(),
        }
    }

    /// The number that starts with `first`, which has been read; the
    /// literal is well formed.
    fn consume_number(&mut self, first: char) -> (token: Token)
        requires
            old(self).failure() is None,
            is_digit(first) || first == '-',
            lex_number(seq![first as u8] + old(self).remaining()) is Token,
        ensures
            final(self).failure() is None,
            lex_number(seq![first as u8] + old(self).remaining()) == (Lexed::Token {
                token: token@,
                rest: final(self).remaining(),
            }),
    {
        match self.try_consume_number(first) {
            Ok(token) => token,
            Err(_) => vstd::pervasive::unreached(),
        }
    }

    /// `true` or `false`, of which the first letter has been read and the
    /// other letters follow.
    fn consume_bool(&mut self, first: char) -> (token: Token)
        requires
            old(self).failure() is None,
            first == 't' || first == 'f',
            word_mismatch(
                old(self).remaining(),
                if first == 't' {
                    seq!['r', 'u', 'e']
                } else {
                    seq!['a', 'l', 's', 'e']
                },
            ) is None,
        ensures
            final(self).failure() is None,
            token@ == TokenView::Bool(first == 't'),
            final(self).remaining() == old(self).remaining().skip(
                if first == 't' {
                    3int
                } else {
                    4int
                },
            ),
    {
        match self.try_consume_bool(first) {
            Ok(token) => token,
            Err(_) => vstd::pervasive::unreached(),
        }
    }

    /// `null`, of which the first letter has been read and the other
    /// letters follow.
    fn consume_null(&mut self, first: char) -> (token: Token)
        requires
            old(self).failure() is None,
            word_mismatch(old(self).remaining(), seq!['u', 'l', 'l']) is None,
        ensures
            final(self).failure() is None,
            token@ == TokenView::Null,
            final(self).remaining() == old(self).remaining().skip(3),
    {
        match self.try_consume_null(first) {
            Ok(token) => token,
            Err(_) => vstd::pervasive::unreached(),
        }
    }

    /// The string of which the opening quote has been read; it is closed
    /// and in ASCII, and so is what stands behind it.
    fn consume_string(&mut self, first: char) -> (token: Token)
        requires
            old(self).failure() is None,
            lex_string(old(self).remaining()) is Token,
        ensures
            final(self).failure() is None,
            lex_string(old(self).remaining()) == (Lexed::Token {
                token: token@,
                rest: final(self).remaining(),
            }),
    {
        match self.try_consume_string(first) {
            Ok(token) => token,
            Err(_) => vstd::pervasive::unreached(),
        }
    }

    /// The character at the head of the remaining input, which is in ASCII
    /// and stays where it is; `None` where nothing remains. Fills the
    /// buffer from the source where it has run empty.
    fn get_char(&mut self) -> (c: Option<char>)
        requires
            old(self).remaining().len() > 0 ==> old(self).remaining()[0] < 0x80,
        ensures
            final(self).remaining() == old(self).remaining(),
            final(self).failure() == old(self).failure(),
            match c {
                None => old(self).remaining().len() == 0,
                Some(found) => {
                    &&& old(self).remaining().len() > 0
                    &&& found == old(self).remaining()[0] as char
                    &&& final(self).buffered()
                },
            },
    {
        match self.try_get_char() {
            Ok(c) => c,
            Err(_) => vstd::pervasive::unreached(),
        }
    }

    /// The next token of the sequence, whatever the input holds.
    ///
    /// `Ok(None)` says that the input has ended, `Err` that it is not
    /// lexically sound; both are final.
    pub fn try_next_token(&mut self) -> (result: Result<Option<Token>, LexError>)
        ensures
            match result {
                Ok(Some(token)) => {
                    &&& old(self).stream().tokens.len() > 0
                    &&& token@ == old(self).stream().tokens[0]
                    &&& final(self).stream() == old(self).stream().skip(1)
                },
                Ok(None) => {
                    &&& old(self).stream() == TokenStream::ended()
                    &&& final(self).stream() == TokenStream::ended()
                },
                Err(error) => {
                    &&& old(self).stream() == TokenStream::failed(error)
                    &&& final(self).stream() == TokenStream::failed(error)
                },
            },
    {
        if let Some(error) = self.failure {
            return Err(error);
        }
        match self.scan() {
            Ok(Some(token)) => Ok(Some(token)),
            Ok(None) => Ok(None),
            Err(error) => {
                self.failure = Some(error);
                Err(error)
            },
        }
    }

    /// Lexes the token at the head of the remaining input.
    fn scan(&mut self) -> (result: Result<Option<Token>, LexError>)
        requires
            old(self).failure() is None,
        ensures
            final(self).failure() is None,
            match lex(old(self).remaining()) {
                Lexed::End => result == Ok::<Option<Token>, LexError>(None) && lex(
                    final(self).remaining(),
                ) == Lexed::End,
                Lexed::Token { token, rest } => {
                    &&& result matches Ok(Some(found))
                    &&& found@ == token
                    &&& final(self).remaining() == rest
                },
                Lexed::Error { error } => result == Err::<Option<Token>, LexError>(error),
            },
    {
        match self.try_consume_whitespaces() {
            Err(error) => {
                return Err(error);
            },
            Ok(()) => {},
        }
        let ghost s = self.remaining();
        match self.try_get_char() {
            Err(error) => Err(error),
            Ok(None) => Ok(None),
            Ok(Some(t)) => {
                self.advance();
                assert(s =~= seq![t as u8] + self.remaining());
                match self.try_map_token(t) {
                    Ok(token) => Ok(Some(token)),
                    Err(error) => Err(error),
                }
            },
        }
    }

    /// The token that starts with the character `t`, which has been read.
    fn try_map_token(&mut self, t: char) -> (result: Result<Token, LexError>)
        requires
            old(self).failure() is None,
            t <= '\u{7f}',
        ensures
            final(self).failure() is None,
            match lex_token(seq![t as u8] + old(self).remaining()) {
                Lexed::Token { token, rest } => {
                    &&& result matches Ok(found)
                    &&& found@ == token
                    &&& final(self).remaining() == rest
                },
                Lexed::Error { error } => result == Err::<Token, LexError>(error),
                Lexed::End => false,
            },
    {
        let ghost s = seq![t as u8] + self.remaining();
        assert(s.skip(1) =~= self.remaining());
        match t {
            '{' => Ok(Token::ObjectStart),
            '}' => Ok(Token::ObjectEnd),
            '[' => Ok(Token::ArrayStart),
            ']' => Ok(Token::ArrayEnd),
            '0'..='9' | '-' => self.try_consume_number(t),
            't' | 'f' => self.try_consume_bool(t),
            'n' => self.try_consume_null(t),
            '"' => self.try_consume_string(t),
            _ => Err(LexError::UnexpectedCharacter(t as u8)),
        }
    }

    /// Passes over blanks and commas.
    fn try_consume_whitespaces(&mut self) -> (result: Result<(), LexError>)
        requires
            old(self).failure() is None,
        ensures
            final(self).failure() is None,
            final(self).passed_over(ByteClass::Separator, old(self).remaining(), result),
    {
        self.consume_run(true)
    }

    /// What holds when a run of bytes of one kind has been passed over.
    spec fn passed_over(
        &self,
        class: ByteClass,
        input: Seq<u8>,
        result: Result<(), LexError>,
    ) -> bool {
        let behind = input.skip(run_len(input, class) as int);
        match result {
            Ok(()) => self.remaining() == behind && (behind.len() > 0 ==> behind[0] < 0x80),
            Err(error) => error == LexError::NonAscii && behind.len() > 0 && behind[0] >= 0x80,
        }
    }

    /// Passes over blanks, and over commas too where `commas` says so.
    fn consume_run(&mut self, commas: bool) -> (result: Result<(), LexError>)
        requires
            old(self).failure() is None,
        ensures
            final(self).failure() is None,
            final(self).passed_over(
                if commas {
                    ByteClass::Separator
                } else {
                    ByteClass::Whitespace
                },
                old(self).remaining(),
                result,
            ),
    {
        let ghost input = self.remaining();
        let ghost class = if commas {
            ByteClass::Separator
        } else {
            ByteClass::Whitespace
        };
        let ghost mut passed: int = 0;
        loop
            invariant
                self.failure() is None,
                input == old(self).remaining(),
                0 <= passed <= input.len(),
                self.remaining() == input.skip(passed),
                forall|i: int| 0 <= i < passed ==> class.holds(#[trigger] input[i]),
                class == if commas {
                    ByteClass::Separator
                } else {
                    ByteClass::Whitespace
                },
            ensures
                self.failure() is None,
                self.passed_over(class, input, Ok(())),
            decreases input.len() - passed,
        {
            match self.try_get_char() {
                Err(error) => {
                    proof {
                        lemma_run_len(input, class, passed);
                    }
                    return Err(error);
                },
                Ok(None) => {
                    proof {
                        lemma_run_len(input, class, passed);
                    }
                    break ;
                },
                Ok(Some(c)) => {
                    if c == ' ' || ('\t' <= c && c <= '\r') || (commas && c == ',') {
                        self.advance();
                        proof {
                            passed = passed + 1;
                        }
                    } else {
                        proof {
                            lemma_run_len(input, class, passed);
                        }
                        break ;
                    }
                },
            }
        }
        Ok(())
    }

    /// Reads the character `expected`, which must come next.
    fn expect_char(&mut self, expected: char) -> (result: Result<(), LexError>)
        requires
            old(self).failure() is None,
        ensures
            final(self).failure() is None,
            match result {
                Ok(()) => {
                    &&& word_mismatch(old(self).remaining(), seq![expected]) is None
                    &&& final(self).remaining() == old(self).remaining().skip(1)
                },
                Err(error) => word_mismatch(old(self).remaining(), seq![expected]) == Some(error),
            },
    {
        proof {
            reveal_with_fuel(word_mismatch, 2);
        }
        match self.try_get_char() {
            Err(error) => Err(error),
            Ok(None) => Err(LexError::MalformedLiteral),
            Ok(Some(c)) => {
                if c == expected {
                    self.advance();
                    Ok(())
                } else {
                    Err(LexError::MalformedLiteral)
                }
            },
        }
    }

    /// The number that starts with `first`, which has been read.
    fn try_consume_number(&mut self, first: char) -> (result: Result<Token, LexError>)
        requires
            old(self).failure() is None,
            is_digit(first) || first == '-',
        ensures
            final(self).failure() is None,
            match lex_number(seq![first as u8] + old(self).remaining()) {
                Lexed::Token { token, rest } => {
                    &&& result matches Ok(found)
                    &&& found@ == token
                    &&& final(self).remaining() == rest
                },
                Lexed::Error { error } => result == Err::<Token, LexError>(error),
                Lexed::End => false,
            },
    {
        let ghost input = self.remaining();
        let ghost s = seq![first as u8] + input;
        let mut number_str = String::new();
        let mut is_float = false;
        let mut digit_seen = '0' <= first && first <= '9';
        push_char(&mut number_str, first);
        let ghost mut taken: int = 0;
        proof {
            reveal_with_fuel(dot_count, 2);
            if digit_seen {
                assert(is_digit(s.take(1)[0] as char));
            }
        }
        loop
            invariant
                self.failure() is None,
                input == old(self).remaining(),
                s == seq![first as u8] + input,
                0 <= taken <= input.len(),
                self.remaining() == input.skip(taken),
                forall|i: int| 0 <= i < taken ==> ByteClass::Number.holds(#[trigger] input[i]),
                number_str@ == ascii_text(s.take(1 + taken)),
                dot_count(s.take(1 + taken)) == if is_float {
                    1nat
                } else {
                    0nat
                },
                digit_seen == has_digit(s.take(1 + taken)),
            ensures
                self.failure() is None,
                input == old(self).remaining(),
                s == seq![first as u8] + input,
                0 <= taken <= input.len(),
                run_len(input, ByteClass::Number) == taken,
                self.remaining() == input.skip(taken),
                taken < input.len() ==> input[taken] < 0x80,
                number_str@ == ascii_text(s.take(1 + taken)),
                dot_count(s.take(1 + taken)) == if is_float {
                    1nat
                } else {
                    0nat
                },
                digit_seen == has_digit(s.take(1 + taken)),
            decreases input.len() - taken,
        {
            match self.try_get_char() {
                Err(error) => {
                    proof {
                        lemma_run_len(input, ByteClass::Number, taken);
                        assert(s.skip(1) =~= input);
                    }
                    return Err(error);
                },
                Ok(None) => {
                    proof {
                        lemma_run_len(input, ByteClass::Number, taken);
                    }
                    break ;
                },
                Ok(Some(ch)) => {
                    if !(('0' <= ch && ch <= '9') || ch == '.') {
                        proof {
                            lemma_run_len(input, ByteClass::Number, taken);
                        }
                        break ;
                    }
                    proof {
                        let longer = s.take(1 + taken + 1);
                        assert(longer.drop_last() =~= s.take(1 + taken));
                        if is_digit(ch) {
                            assert(is_digit(longer[1 + taken] as char));
                        }
                    }
                    if ch == '.' {
                        if is_float {
                            proof {
                                assert(s.skip(1) =~= input);
                                assert forall|i: int|
                                    0 <= i < taken + 1 implies ByteClass::Number.holds(
                                    #[trigger] input[i],
                                ) by {}
                                lemma_run_len_at_least(input, ByteClass::Number, taken + 1);
                                let run = run_len(input, ByteClass::Number) as int;
                                let literal = s.take(1 + run);
                                lemma_dot_count_grows(literal, 1 + taken + 1);
                                assert(literal.take(1 + taken + 1) =~= s.take(1 + taken + 1));
                            }
                            return Err(LexError::MalformedNumber);
                        } else {
                            is_float = true;
                        }
                    } else {
                        digit_seen = true;
                    }
                    push_char(&mut number_str, ch);
                    self.advance();
                    proof {
                        taken = taken + 1;
                    }
                },
            }
        }
        proof {
            assert(s.skip(1) =~= input);
        }
        if is_float {
            if digit_seen {
                Ok(Token::Float(number_str))
            } else {
                Err(LexError::MalformedNumber)
            }
        } else {
            match parse_i64(number_str.as_str()) {
                Some(value) => Ok(Token::Integer(value)),
                None => Err(LexError::MalformedNumber),
            }
        }
    }

    /// `true` or `false`, of which the first letter has been read.
    fn try_consume_bool(&mut self, first: char) -> (result: Result<Token, LexError>)
        requires
            old(self).failure() is None,
            first == 't' || first == 'f',
        ensures
            final(self).failure() is None,
            match if first == 't' {
                lex_word(old(self).remaining(), seq!['r', 'u', 'e'], TokenView::Bool(true))
            } else {
                lex_word(old(self).remaining(), seq!['a', 'l', 's', 'e'], TokenView::Bool(false))
            } {
                Lexed::Token { token, rest } => {
                    &&& result matches Ok(found)
                    &&& found@ == token
                    &&& final(self).remaining() == rest
                },
                Lexed::Error { error } => result == Err::<Token, LexError>(error),
                Lexed::End => false,
            },
    {
        if first == 't' {
            self.expect_word(['r', 'u', 'e'], Token::Bool(true))
        } else {
            self.expect_word(['a', 'l', 's', 'e'], Token::Bool(false))
        }
    }

    /// `null`, of which the first letter has been read.
    fn try_consume_null(&mut self, _first: char) -> (result: Result<Token, LexError>)
        requires
            old(self).failure() is None,
        ensures
            final(self).failure() is None,
            match lex_word(old(self).remaining(), seq!['u', 'l', 'l'], TokenView::Null) {
                Lexed::Token { token, rest } => {
                    &&& result matches Ok(found)
                    &&& found@ == token
                    &&& final(self).remaining() == rest
                },
                Lexed::Error { error } => result == Err::<Token, LexError>(error),
                Lexed::End => false,
            },
    {
        self.expect_word(['u', 'l', 'l'], Token::Null)
    }

    /// Reads the letters of `word`, which must come next one by one, and
    /// hands back `token`.
    fn expect_word<const N: usize>(&mut self, word: [char; N], token: Token) -> (result: Result<
        Token,
        LexError,
    >)
        requires
            old(self).failure() is None,
        ensures
            final(self).failure() is None,
            match lex_word(old(self).remaining(), word@, token@) {
                Lexed::Token { token, rest } => {
                    &&& result matches Ok(found)
                    &&& found@ == token
                    &&& final(self).remaining() == rest
                },
                Lexed::Error { error } => result == Err::<Token, LexError>(error),
                Lexed::End => false,
            },
    {
        let ghost input = self.remaining();
        let mut i: usize = 0;
        assert(word@.skip(0) =~= word@);
        while i < N
            invariant
                self.failure() is None,
                input == old(self).remaining(),
                i <= N,
                N == word@.len(),
                i <= input.len(),
                self.remaining() == input.skip(i as int),
                word_mismatch(input, word@) == word_mismatch(
                    self.remaining(),
                    word@.skip(i as int),
                ),
            decreases N - i,
        {
            proof {
                lemma_word_unfolds(self.remaining(), word@.skip(i as int));
                assert(word@.skip(i as int).skip(1) =~= word@.skip(i + 1));
            }
            match self.expect_char(word[i]) {
                Err(error) => {
                    return Err(error);
                },
                Ok(()) => {},
            }
            i += 1;
        }
        Ok(token)
    }

    /// The string of which the opening quote has been read.
    fn try_consume_string(&mut self, _first: char) -> (result: Result<Token, LexError>)
        requires
            old(self).failure() is None,
        ensures
            final(self).failure() is None,
            match lex_string(old(self).remaining()) {
                Lexed::Token { token, rest } => {
                    &&& result matches Ok(found)
                    &&& found@ == token
                    &&& final(self).remaining() == rest
                },
                Lexed::Error { error } => result == Err::<Token, LexError>(error),
                Lexed::End => false,
            },
    {
        let ghost input = self.remaining();
        let mut string = String::new();
        let ghost mut taken: int = 0;
        loop
            invariant
                self.failure() is None,
                input == old(self).remaining(),
                0 <= taken <= input.len(),
                self.remaining() == input.skip(taken),
                forall|i: int| 0 <= i < taken ==> ByteClass::StringBody.holds(#[trigger] input[i]),
                string@ == ascii_text(input.take(taken)),
            ensures
                self.failure() is None,
                input == old(self).remaining(),
                0 <= taken < input.len(),
                run_len(input, ByteClass::StringBody) == taken,
                input[taken] < 0x80,
                self.remaining() == input.skip(taken),
                self.buffered(),
                string@ == ascii_text(input.take(taken)),
            decreases input.len() - taken,
        {
            match self.try_get_char() {
                Err(error) => {
                    proof {
                        lemma_run_len(input, ByteClass::StringBody, taken);
                    }
                    return Err(error);
                },
                Ok(None) => {
                    proof {
                        lemma_run_len(input, ByteClass::StringBody, taken);
                    }
                    return Err(LexError::UnterminatedString);
                },
                Ok(Some(ch)) => {
                    if ch == '"' {
                        proof {
                            lemma_run_len(input, ByteClass::StringBody, taken);
                        }
                        break ;
                    }
                    push_char(&mut string, ch);
                    self.advance();
                    proof {
                        taken = taken + 1;
                    }
                },
            }
        }
        self.advance();
        let ghost behind = input.skip(taken + 1);
        assert(self.remaining() =~= behind);
        match self.consume_run(false) {
            Err(error) => {
                return Err(error);
            },
            Ok(()) => {},
        }
        match self.try_get_char() {
            Err(error) => Err(error),
            Ok(Some(':')) => {
                self.advance();
                Ok(Token::Identifier(string))
            },
            Ok(_) => Ok(Token::String(string)),
        }
    }

    /// The character at the head of the remaining input, which stays where
    /// it is. Fills the buffer from the source where it has run empty.
    fn try_get_char(&mut self) -> (result: Result<Option<char>, LexError>)
        ensures
            final(self).remaining() == old(self).remaining(),
            final(self).failure() == old(self).failure(),
            match result {
                Ok(None) => old(self).remaining().len() == 0,
                Ok(Some(c)) => {
                    &&& old(self).remaining().len() > 0
                    &&& old(self).remaining()[0] < 0x80
                    &&& c == old(self).remaining()[0] as char
                    &&& final(self).buffered()
                },
                Err(error) => {
                    &&& error == LexError::NonAscii
                    &&& old(self).remaining().len() > 0
                    &&& old(self).remaining()[0] >= 0x80
                },
            },
    {
        proof {
            use_type_invariant(&self.window);
        }
        if self.window.idx == self.window.avail {
            // Buffer consumed, load more data
            let ghost before = self.source.remaining();
            let count = self.source.read(&mut self.buf);
            self.window = Window { idx: 0, avail: count };
            assert(self.remaining() =~= before);
        }
        if self.window.avail == 0 {
            // Source completely consumed
            return Ok(None);
        }
        proof {
            use_type_invariant(&self.window);
        }
        let byte = self.buf[self.window.idx];
        if byte < 0x80 {
            // Single byte character
            Ok(Some(byte as char))
        } else {
            Err(LexError::NonAscii)
        }
    }

    /// Steps over the character that `try_get_char` has shown.
    fn advance(&mut self)
        requires
            old(self).buffered(),
        ensures
            final(self).remaining() == old(self).remaining().skip(1),
            final(self).failure() == old(self).failure(),
    {
        proof {
            use_type_invariant(&self.window);
        }
        self.window.idx += 1;
    }
}

} // verus!
