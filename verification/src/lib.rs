//! A minimal expression language: a lexical scanner and an LL(1)
//! recursive-descent parser, both verified against a mathematical model
//! of the scanning rules and of the grammar.
//!
//! The scanner turns a source string into a stream of classified tokens,
//! skipping whitespace and comments; the parser drives the scanner with a
//! single token of lookahead and builds a typed syntax tree.

pub mod ast;
pub mod grammar;
pub mod parser;
pub mod scan;
pub mod tokenizer;
