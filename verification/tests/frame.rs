use std::collections::HashMap;

use location_history::json::parser::{ExpectArray, ExpectObject, LazyParser, ParseFn};
use location_history::json::{JsonTokenizer, Token};

fn tokenizer(source: &str) -> JsonTokenizer<&[u8]> {
    JsonTokenizer::new(source.as_bytes())
}

fn object_rule<'a>() -> ExpectObject<u8, &'a [u8]> {
    ExpectObject { rules: HashMap::new() }
}

#[test]
fn expect_object_accepts_the_empty_object() {
    let mut cursor = tokenizer("{ } 1");
    assert_eq!(object_rule().next(&mut cursor), None);
    assert_eq!(cursor.try_next_token(), Ok(Some(Token::Integer(1))));
}

#[test]
fn expect_object_fails_on_anything_else() {
    assert_eq!(object_rule().next(&mut tokenizer("[ ]")), Some(Err(())));
    assert_eq!(object_rule().next(&mut tokenizer("{ 1 }")), Some(Err(())));
    assert_eq!(object_rule().next(&mut tokenizer("{")), Some(Err(())));
    assert_eq!(object_rule().next(&mut tokenizer("")), Some(Err(())));
    assert_eq!(object_rule().next(&mut tokenizer("{ tru")), Some(Err(())));
}

#[test]
fn expect_array_accepts_the_empty_array() {
    let mut rule: ExpectArray<u8, &[u8]> = ExpectArray { rule: Box::new(object_rule()) };
    let mut cursor = tokenizer("[ ] { }");
    assert_eq!(rule.next(&mut cursor), None);
    assert_eq!(cursor.try_next_token(), Ok(Some(Token::ObjectStart)));
    assert_eq!(rule.next(&mut tokenizer("[ 1 ]")), Some(Err(())));
    assert_eq!(rule.next(&mut tokenizer("{ }")), Some(Err(())));
}

#[test]
fn lazy_parser_runs_its_rule() {
    let mut parser: LazyParser<u8, &[u8]> = LazyParser::new(tokenizer("{}{} x"), Box::new(object_rule()));
    assert_eq!(parser.next(), None);
    assert_eq!(parser.next(), None);
    assert_eq!(parser.next(), Some(Err(())));
}
