use minilang::ast::Literal;
use minilang::ast::LiteralType;
use minilang::ast::LiteralValue;
use minilang::ast::ParseError;
use minilang::parser::Parser;

#[test]
fn test_missing_semicolon() {
    let mut parser = Parser::new();

    let result = parser.parse(String::from("42"));

    assert_eq!(
        result,
        Err(ParseError::SyntaxError { found: None, expected: LiteralType::Semicolon })
    );
}

#[test]
fn test_lexical_error_at_start() {
    let mut parser = Parser::new();

    let result = parser.parse(String::from("@;"));

    assert_eq!(result, Err(ParseError::LexicalError { position: 0 }));
}

#[test]
fn test_lexical_error_past_tokens() {
    let mut parser = Parser::new();

    let result = parser.parse(String::from("42; @"));

    assert_eq!(result, Err(ParseError::LexicalError { position: 4 }));
}

#[test]
fn test_unterminated_string() {
    let mut parser = Parser::new();

    let result = parser.parse(String::from("\"abc"));

    assert_eq!(result, Err(ParseError::LexicalError { position: 0 }));
}

#[test]
fn test_dispatch_error() {
    let mut parser = Parser::new();

    let result = parser.parse(String::from(";"));

    assert_eq!(result, Err(ParseError::GrammarDispatchError));
}

#[test]
fn test_unterminated_block_comment() {
    // Without a closer the comment rule fails, `/` scans as a
    // multiplicative operator, and the literal rule meets it.
    let mut parser = Parser::new();

    let result = parser.parse(String::from("/* x"));

    assert_eq!(result, Err(ParseError::GrammarDispatchError));
}

#[test]
fn test_syntax_error_names_found_token() {
    let mut parser = Parser::new();

    let result = parser.parse(String::from("2 2;"));

    assert_eq!(
        result,
        Err(ParseError::SyntaxError {
            found: Some(Literal {
                literal_type: LiteralType::Number,
                value: LiteralValue::Value(String::from("2")),
            }),
            expected: LiteralType::Semicolon,
        })
    );
}

#[test]
fn test_empty_source() {
    let mut parser = Parser::new();

    let result = parser.parse(String::from(""));

    assert_eq!(
        result,
        Err(ParseError::SyntaxError { found: None, expected: LiteralType::Number })
    );
}

#[test]
fn test_comments_only() {
    let mut parser = Parser::new();

    let result = parser.parse(String::from("  // only air\n"));

    assert_eq!(
        result,
        Err(ParseError::SyntaxError { found: None, expected: LiteralType::Number })
    );
}

#[test]
fn test_unclosed_block() {
    let mut parser = Parser::new();

    let result = parser.parse(String::from("{ 42;"));

    assert_eq!(
        result,
        Err(ParseError::SyntaxError { found: None, expected: LiteralType::CloseBrace })
    );
}

#[test]
fn test_missing_close_paren() {
    let mut parser = Parser::new();

    let result = parser.parse(String::from("(2 + 2;"));

    assert_eq!(
        result,
        Err(ParseError::SyntaxError {
            found: Some(Literal {
                literal_type: LiteralType::Semicolon,
                value: LiteralValue::Value(String::from(";")),
            }),
            expected: LiteralType::CloseParen,
        })
    );
}
