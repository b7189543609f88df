use location_history::json::{JsonTokenizer, LexError, Token};

fn float_value(token: Option<Token>) -> f64 {
    match token {
        Some(Token::Float(text)) => text.parse().unwrap(),
        other => panic!("not a float: {:?}", other),
    }
}

#[test]
fn empty_array() {
    let source = "  \r\n [ ] \t   ".as_bytes();
    let mut tokenizer = JsonTokenizer::new(source);

    assert_eq!(tokenizer.next_token(), Some(Token::ArrayStart));
    assert_eq!(tokenizer.next_token(), Some(Token::ArrayEnd));
    assert_eq!(tokenizer.next_token(), None);
}

#[test]
fn array_primitives() {
    let source = "[ \t 123, 13.37, true , \r\nfalse\r\n, null, \"string\"]".as_bytes();
    let mut tokenizer = JsonTokenizer::new(source);

    assert_eq!(tokenizer.next_token(), Some(Token::ArrayStart));
    assert_eq!(tokenizer.next_token(), Some(Token::Integer(123)));
    assert_eq!(float_value(tokenizer.next_token()), 13.37);
    assert_eq!(tokenizer.next_token(), Some(Token::Bool(true)));
    assert_eq!(tokenizer.next_token(), Some(Token::Bool(false)));
    assert_eq!(tokenizer.next_token(), Some(Token::Null));
    assert_eq!(tokenizer.next_token(), Some(Token::String("string".into())));
    assert_eq!(tokenizer.next_token(), Some(Token::ArrayEnd));
    assert_eq!(tokenizer.next_token(), None);
}

#[test]
fn numbers() {
    let source = "[ 0,1.0 ,0.1\t,\n9.00003, 0123, -1,-0.01 ]".as_bytes();
    let mut tokenizer = JsonTokenizer::new(source);

    assert_eq!(tokenizer.next_token(), Some(Token::ArrayStart));
    assert_eq!(tokenizer.next_token(), Some(Token::Integer(0)));
    assert_eq!(float_value(tokenizer.next_token()), 1.0);
    assert_eq!(float_value(tokenizer.next_token()), 0.1);
    assert_eq!(float_value(tokenizer.next_token()), 9.00003);
    assert_eq!(tokenizer.next_token(), Some(Token::Integer(123)));
    assert_eq!(tokenizer.next_token(), Some(Token::Integer(-1)));
    assert_eq!(float_value(tokenizer.next_token()), -0.01);
    assert_eq!(tokenizer.next_token(), Some(Token::ArrayEnd));
    assert_eq!(tokenizer.next_token(), None);
}

#[test]
fn empty_object() {
    let source = "  { \r\n\t  }   ".as_bytes();
    let mut tokenizer = JsonTokenizer::new(source);

    assert_eq!(tokenizer.next_token(), Some(Token::ObjectStart));
    assert_eq!(tokenizer.next_token(), Some(Token::ObjectEnd));
    assert_eq!(tokenizer.next_token(), None);
}

#[test]
fn object_primitives() {
    let source = r#"  {"key":"value"  , "num"  : 754,"null":null}   "#.as_bytes();
    let mut tokenizer = JsonTokenizer::new(source);

    assert_eq!(tokenizer.next_token(), Some(Token::ObjectStart));

    assert_eq!(
        tokenizer.next_token(),
        Some(Token::Identifier("key".into()))
    );
    assert_eq!(tokenizer.next_token(), Some(Token::String("value".into())));

    assert_eq!(
        tokenizer.next_token(),
        Some(Token::Identifier("num".into()))
    );
    assert_eq!(tokenizer.next_token(), Some(Token::Integer(754)));

    assert_eq!(
        tokenizer.next_token(),
        Some(Token::Identifier("null".into()))
    );
    assert_eq!(tokenizer.next_token(), Some(Token::Null));

    assert_eq!(tokenizer.next_token(), Some(Token::ObjectEnd));
    assert_eq!(tokenizer.next_token(), None);
}

fn tokens_of(source: &str) -> (Vec<Token>, Option<LexError>) {
    let mut tokenizer = JsonTokenizer::new(source.as_bytes());
    let mut tokens = Vec::new();
    loop {
        match tokenizer.try_next_token() {
            Ok(Some(token)) => tokens.push(token),
            Ok(None) => return (tokens, None),
            Err(error) => return (tokens, Some(error)),
        }
    }
}

#[test]
fn fixture_yields_exact_token_sequence() {
    let (tokens, end) = tokens_of(r#"{"a":1,"b":[true,false,null,"x"]}"#);
    assert_eq!(
        tokens,
        vec![
            Token::ObjectStart,
            Token::Identifier("a".into()),
            Token::Integer(1),
            Token::Identifier("b".into()),
            Token::ArrayStart,
            Token::Bool(true),
            Token::Bool(false),
            Token::Null,
            Token::String("x".into()),
            Token::ArrayEnd,
            Token::ObjectEnd,
        ]
    );
    assert_eq!(end, None);
}

#[test]
fn empty_array_yields_start_and_end() {
    assert_eq!(tokens_of("[]"), (vec![Token::ArrayStart, Token::ArrayEnd], None));
}

#[test]
fn object_with_one_string_field() {
    assert_eq!(
        tokens_of(r#"{"k":"v"}"#),
        (
            vec![
                Token::ObjectStart,
                Token::Identifier("k".into()),
                Token::String("v".into()),
                Token::ObjectEnd,
            ],
            None
        )
    );
}

#[test]
fn numeric_lexing() {
    assert_eq!(tokens_of("0"), (vec![Token::Integer(0)], None));
    assert_eq!(tokens_of("0123"), (vec![Token::Integer(123)], None));
    assert_eq!(tokens_of("1.0"), (vec![Token::Float("1.0".into())], None));
    assert_eq!(tokens_of("-0.01"), (vec![Token::Float("-0.01".into())], None));
    assert_eq!(float_value(JsonTokenizer::new("1.0".as_bytes()).next_token()), 1.0);
    assert_eq!(float_value(JsonTokenizer::new("-0.01".as_bytes()).next_token()), -0.01);
    assert_eq!(float_value(JsonTokenizer::new("5.".as_bytes()).next_token()), 5.0);
    assert_eq!(float_value(JsonTokenizer::new("-.5".as_bytes()).next_token()), -0.5);
    assert_eq!(
        tokens_of("-9223372036854775808 9223372036854775807"),
        (vec![Token::Integer(i64::MIN), Token::Integer(i64::MAX)], None)
    );
}

#[test]
fn malformed_numbers_end_the_sequence() {
    assert_eq!(tokens_of("[1.2.3]"), (vec![Token::ArrayStart], Some(LexError::MalformedNumber)));
    assert_eq!(tokens_of("-"), (vec![], Some(LexError::MalformedNumber)));
    assert_eq!(tokens_of("-."), (vec![], Some(LexError::MalformedNumber)));
    assert_eq!(tokens_of("9223372036854775808"), (vec![], Some(LexError::MalformedNumber)));
    assert_eq!(tokens_of("1..", ), (vec![], Some(LexError::MalformedNumber)));
}

#[test]
fn malformed_literals_end_the_sequence() {
    assert_eq!(tokens_of("tru"), (vec![], Some(LexError::MalformedLiteral)));
    assert_eq!(tokens_of("trux"), (vec![], Some(LexError::MalformedLiteral)));
    assert_eq!(tokens_of("[falsy]"), (vec![Token::ArrayStart], Some(LexError::MalformedLiteral)));
    assert_eq!(tokens_of("nul"), (vec![], Some(LexError::MalformedLiteral)));
    assert_eq!(tokens_of("n\u{e9}"), (vec![], Some(LexError::NonAscii)));
}

#[test]
fn unexpected_characters_end_the_sequence() {
    assert_eq!(tokens_of(":"), (vec![], Some(LexError::UnexpectedCharacter(b':'))));
    assert_eq!(
        tokens_of("[ x ]"),
        (vec![Token::ArrayStart], Some(LexError::UnexpectedCharacter(b'x')))
    );
    assert_eq!(tokens_of("\u{0}"), (vec![], Some(LexError::UnexpectedCharacter(0))));
}

#[test]
fn non_ascii_bytes_end_the_sequence() {
    assert_eq!(tokens_of("\u{e9}"), (vec![], Some(LexError::NonAscii)));
    assert_eq!(tokens_of("\"na\u{ef}ve\""), (vec![], Some(LexError::NonAscii)));
    assert_eq!(tokens_of("12\u{e9}"), (vec![], Some(LexError::NonAscii)));
    assert_eq!(tokens_of("\"a\" \u{e9}"), (vec![], Some(LexError::NonAscii)));
    assert_eq!(tokens_of("[ , \u{e9}"), (vec![Token::ArrayStart], Some(LexError::NonAscii)));
}

#[test]
fn unterminated_string_ends_the_sequence() {
    assert_eq!(tokens_of("\"abc"), (vec![], Some(LexError::UnterminatedString)));
    assert_eq!(tokens_of("\""), (vec![], Some(LexError::UnterminatedString)));
}

#[test]
fn a_failure_is_final() {
    let mut tokenizer = JsonTokenizer::new("[ tru ]".as_bytes());
    assert_eq!(tokenizer.try_next_token(), Ok(Some(Token::ArrayStart)));
    assert_eq!(tokenizer.try_next_token(), Err(LexError::MalformedLiteral));
    assert_eq!(tokenizer.try_next_token(), Err(LexError::MalformedLiteral));
    assert_eq!(tokenizer.try_next_token(), Err(LexError::MalformedLiteral));
}

#[test]
fn the_end_is_final() {
    let mut tokenizer = JsonTokenizer::new(" [ ".as_bytes());
    assert_eq!(tokenizer.try_next_token(), Ok(Some(Token::ArrayStart)));
    assert_eq!(tokenizer.try_next_token(), Ok(None));
    assert_eq!(tokenizer.try_next_token(), Ok(None));
}

#[test]
fn strings_are_taken_verbatim() {
    assert_eq!(
        tokens_of(r#""a\nb" "{[,:]}" """#),
        (
            vec![
                Token::String("a\\nb".into()),
                Token::String("{[,:]}".into()),
                Token::String("".into()),
            ],
            None
        )
    );
    // an escaped quote ends the string: the backslash stays, the rest is lexed on
    assert_eq!(
        tokens_of(r#""a\"1"#),
        (vec![Token::String("a\\".into()), Token::Integer(1)], None)
    );
    assert_eq!(
        tokens_of(r#""a\"1""#),
        (vec![Token::String("a\\".into()), Token::Integer(1)], Some(LexError::UnterminatedString))
    );
}

#[test]
fn a_colon_behind_blanks_makes_an_identifier() {
    assert_eq!(
        tokens_of("\"key\" \t\r\n :1"),
        (vec![Token::Identifier("key".into()), Token::Integer(1)], None)
    );
    // a comma is no blank: the string stays a value and the colon stands alone
    assert_eq!(
        tokens_of("\"key\" , :1"),
        (vec![Token::String("key".into())], Some(LexError::UnexpectedCharacter(b':')))
    );
}

#[test]
fn separators_are_passed_over() {
    assert_eq!(
        tokens_of(",,[,\u{b}1\u{c},,2 , ],"),
        (
            vec![Token::ArrayStart, Token::Integer(1), Token::Integer(2), Token::ArrayEnd],
            None
        )
    );
}

#[test]
fn tokens_may_span_buffer_refills() {
    let mut source = String::new();
    let mut expected = Vec::new();
    source.push('[');
    expected.push(Token::ArrayStart);
    for i in 0..400 {
        source.push_str(&format!("{{\"identifier{}\" : \"value {}\", \"n\": -{}.5, \"t\":true}},  ", i, i, i));
        expected.push(Token::ObjectStart);
        expected.push(Token::Identifier(format!("identifier{}", i)));
        expected.push(Token::String(format!("value {}", i)));
        expected.push(Token::Identifier("n".into()));
        expected.push(Token::Float(format!("-{}.5", i)));
        expected.push(Token::Identifier("t".into()));
        expected.push(Token::Bool(true));
        expected.push(Token::ObjectEnd);
    }
    source.push(']');
    expected.push(Token::ArrayEnd);
    assert!(source.len() > 10 * 512);
    assert_eq!(tokens_of(&source), (expected, None));
}

#[test]
fn a_token_that_ends_with_the_buffer() {
    for padding in 500..520 {
        let mut source = " ".repeat(padding);
        source.push_str("12345 \"abc\" : null");
        assert_eq!(
            tokens_of(&source),
            (
                vec![Token::Integer(12345), Token::Identifier("abc".into()), Token::Null],
                None
            ),
            "padding {}",
            padding
        );
    }
}
