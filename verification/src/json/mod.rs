//! A narrow JSON lexer for a fixed schema: ASCII only, no escape sequences,
//! integers of 64 bits.

pub mod lexis;
pub mod parser;
pub mod source;
pub mod token;
pub mod tokenizer;

pub use source::ByteSource;
pub use token::{LexError, Token, TokenView};
pub use tokenizer::JsonTokenizer;
