use minilang::ast::Literal;
use minilang::ast::LiteralType;
use minilang::ast::LiteralValue;
use minilang::ast::ParseError;
use minilang::tokenizer::Tokenizer;

fn token(kind: LiteralType, text: &str) -> Result<Option<Literal>, ParseError> {
    Ok(Some(Literal { literal_type: kind, value: LiteralValue::Value(String::from(text)) }))
}

#[test]
fn test_token_sequence() {
    let mut tokenizer = Tokenizer::new(String::from("12 + (3 * 4); \"ab\""));

    assert!(tokenizer.has_more_tokens());
    assert_eq!(tokenizer.get_next_token(), token(LiteralType::Number, "12"));
    assert_eq!(tokenizer.get_next_token(), token(LiteralType::AdditiveOperator, "+"));
    assert_eq!(tokenizer.get_next_token(), token(LiteralType::OpenParen, "("));
    assert_eq!(tokenizer.get_next_token(), token(LiteralType::Number, "3"));
    assert_eq!(tokenizer.get_next_token(), token(LiteralType::MultiplicativeOperator, "*"));
    assert_eq!(tokenizer.get_next_token(), token(LiteralType::Number, "4"));
    assert_eq!(tokenizer.get_next_token(), token(LiteralType::CloseParen, ")"));
    assert_eq!(tokenizer.get_next_token(), token(LiteralType::Semicolon, ";"));
    assert_eq!(tokenizer.get_next_token(), token(LiteralType::Str, "\"ab\""));
    assert_eq!(tokenizer.get_next_token(), Ok(None));
    assert!(!tokenizer.has_more_tokens());
}

#[test]
fn test_braces_and_subtraction() {
    let mut tokenizer = Tokenizer::new(String::from("{9-8;}"));

    assert_eq!(tokenizer.get_next_token(), token(LiteralType::OpenBrace, "{"));
    assert_eq!(tokenizer.get_next_token(), token(LiteralType::Number, "9"));
    assert_eq!(tokenizer.get_next_token(), token(LiteralType::AdditiveOperator, "-"));
    assert_eq!(tokenizer.get_next_token(), token(LiteralType::Number, "8"));
    assert_eq!(tokenizer.get_next_token(), token(LiteralType::Semicolon, ";"));
    assert_eq!(tokenizer.get_next_token(), token(LiteralType::CloseBrace, "}"));
    assert_eq!(tokenizer.get_next_token(), Ok(None));
}

#[test]
fn test_skips_whitespace_and_comments() {
    let mut tokenizer = Tokenizer::new(String::from("  // one\n\t/* two */ 7 "));

    assert_eq!(tokenizer.get_next_token(), token(LiteralType::Number, "7"));
    assert_eq!(tokenizer.get_next_token(), Ok(None));
}

#[test]
fn test_block_comment_is_shortest_match() {
    // The block comment ends at the first `*/`: the second closer is
    // scanned as ordinary tokens.
    let mut tokenizer = Tokenizer::new(String::from("/* a */ 5 */"));

    assert_eq!(tokenizer.get_next_token(), token(LiteralType::Number, "5"));
    assert_eq!(tokenizer.get_next_token(), token(LiteralType::MultiplicativeOperator, "*"));
    assert_eq!(tokenizer.get_next_token(), token(LiteralType::MultiplicativeOperator, "/"));
    assert_eq!(tokenizer.get_next_token(), Ok(None));
}

#[test]
fn test_greedy_number() {
    let mut tokenizer = Tokenizer::new(String::from("1234567890;"));

    assert_eq!(tokenizer.get_next_token(), token(LiteralType::Number, "1234567890"));
    assert_eq!(tokenizer.get_next_token(), token(LiteralType::Semicolon, ";"));
}

#[test]
fn test_string_keeps_quotes() {
    let mut tokenizer = Tokenizer::new(String::from("\"a b ; { } c\""));

    assert_eq!(tokenizer.get_next_token(), token(LiteralType::Str, "\"a b ; { } c\""));
    assert_eq!(tokenizer.get_next_token(), Ok(None));
}

#[test]
fn test_unexpected_character() {
    let mut tokenizer = Tokenizer::new(String::from("  @"));

    assert_eq!(
        tokenizer.get_next_token(),
        Err(ParseError::LexicalError { position: 2 })
    );
}
