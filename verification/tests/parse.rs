use minilang::ast::Literal;
use minilang::ast::LiteralType;
use minilang::ast::LiteralValue;
use minilang::parser::Parser;

fn num(text: &str) -> Literal {
    Literal {
        literal_type: LiteralType::NumericLiteral,
        value: LiteralValue::Value(String::from(text)),
    }
}

fn strlit(text: &str) -> Literal {
    Literal {
        literal_type: LiteralType::StringLiteral,
        value: LiteralValue::Value(String::from(text)),
    }
}

fn expr_statement(expression: Literal) -> Literal {
    Literal {
        literal_type: LiteralType::ExpressionStatement,
        value: LiteralValue::NestedValue(Box::new(expression)),
    }
}

fn binary(operator: &str, left: Literal, right: Literal) -> Literal {
    Literal {
        literal_type: LiteralType::BinaryExpression,
        value: LiteralValue::BinaryValue {
            left: Box::new(left),
            operator: String::from(operator),
            right: Box::new(right),
        },
    }
}

fn block(body: Vec<Literal>) -> Literal {
    Literal {
        literal_type: LiteralType::BlockStatement,
        value: LiteralValue::NestedValueList(body),
    }
}

fn program(body: Vec<Literal>) -> Literal {
    Literal { literal_type: LiteralType::Program, value: LiteralValue::NestedValueList(body) }
}

#[test]
fn test_statement_lists() {
    let mut parser = Parser::new();

    let source: String = String::from(
        r#"
            // Program
            /*
                Multiline comments...
            */
            "hello";
            42;
            "#,
    );

    let ast = parser.parse(source);

    assert_eq!(
        ast,
        Ok(program(vec![
            expr_statement(strlit("\"hello\"")),
            expr_statement(num("42")),
        ]))
    );
}

#[test]
fn test_string_literals() {
    let mut parser = Parser::new();

    let source: String = String::from(
        r#"
            "hello";
            "#,
    );

    let ast = parser.parse(source);

    assert_eq!(ast, Ok(program(vec![expr_statement(strlit("\"hello\""))])));
}

#[test]
fn test_numeric_literals() {
    let mut parser = Parser::new();

    let source: String = String::from(
        r#"
            42;
            "#,
    );

    let ast = parser.parse(source);

    assert_eq!(ast, Ok(program(vec![expr_statement(num("42"))])));
}

#[test]
fn test_blocks() {
    let mut parser = Parser::new();

    let source: String = String::from(
        r#"
            {
              42;
              "hello";
            }
            "#,
    );

    let ast = parser.parse(source);

    assert_eq!(
        ast,
        Ok(program(vec![block(vec![
            expr_statement(num("42")),
            expr_statement(strlit("\"hello\"")),
        ])]))
    );
}

#[test]
fn test_empty_block() {
    let mut parser = Parser::new();

    let source: String = String::from(
        r#"
            {
              // ...
            }
            "#,
    );

    let ast = parser.parse(source);

    assert_eq!(ast, Ok(program(vec![block(vec![])])));
}

#[test]
fn test_nested_blocks() {
    let mut parser = Parser::new();

    let source: String = String::from(
        r#"
            {
              42;
              {
                "hello";
              }
            }
            "#,
    );

    let ast = parser.parse(source);

    assert_eq!(
        ast,
        Ok(program(vec![block(vec![
            expr_statement(num("42")),
            block(vec![expr_statement(strlit("\"hello\""))]),
        ])]))
    );
}

#[test]
fn test_math() {
    let mut parser = Parser::new();

    let source: String = String::from(
        r#"
            2 + 2 * 2;
            "#,
    );

    let ast = parser.parse(source);

    assert_eq!(
        ast,
        Ok(program(vec![expr_statement(binary(
            "+",
            num("2"),
            binary("*", num("2"), num("2")),
        ))]))
    );
}

#[test]
fn test_op_precedence() {
    let mut parser = Parser::new();

    let source: String = String::from(
        r#"
            (2 + 2) * 2;
            "#,
    );

    let ast = parser.parse(source);

    assert_eq!(
        ast,
        Ok(program(vec![expr_statement(binary(
            "*",
            binary("+", num("2"), num("2")),
            num("2"),
        ))]))
    );
}

#[test]
fn test_left_associativity() {
    let mut parser = Parser::new();

    let ast = parser.parse(String::from("2 - 2 - 2;"));

    assert_eq!(
        ast,
        Ok(program(vec![expr_statement(binary(
            "-",
            binary("-", num("2"), num("2")),
            num("2"),
        ))]))
    );
}

#[test]
fn test_multiplicative_left_associativity() {
    let mut parser = Parser::new();

    let ast = parser.parse(String::from("8 / 2 / 2;"));

    assert_eq!(
        ast,
        Ok(program(vec![expr_statement(binary(
            "/",
            binary("/", num("8"), num("2")),
            num("2"),
        ))]))
    );
}

#[test]
fn test_mixed_precedence() {
    let mut parser = Parser::new();

    let ast = parser.parse(String::from("2 * 3 + 4;"));

    assert_eq!(
        ast,
        Ok(program(vec![expr_statement(binary(
            "+",
            binary("*", num("2"), num("3")),
            num("4"),
        ))]))
    );
}

#[test]
fn test_nested_parentheses() {
    let mut parser = Parser::new();

    let ast = parser.parse(String::from("((2));"));

    assert_eq!(ast, Ok(program(vec![expr_statement(num("2"))])));
}

#[test]
fn test_empty_block_with_spaces() {
    let mut parser = Parser::new();

    let ast = parser.parse(String::from("{ }"));

    assert_eq!(ast, Ok(program(vec![block(vec![])])));
}

#[test]
fn test_comment_transparency() {
    let mut commented = Parser::new();
    let mut plain = Parser::new();

    let with_comments = commented.parse(String::from(
        "// leading\n/* block */ \"hello\"; 42;",
    ));
    let without_comments = plain.parse(String::from("\"hello\"; 42;"));

    assert_eq!(with_comments, without_comments);
    assert_eq!(
        with_comments,
        Ok(program(vec![
            expr_statement(strlit("\"hello\"")),
            expr_statement(num("42")),
        ]))
    );
}

#[test]
fn test_parser_reuse() {
    let mut parser = Parser::new();

    let first = parser.parse(String::from("1;"));
    let second = parser.parse(String::from("2;"));

    assert_eq!(first, Ok(program(vec![expr_statement(num("1"))])));
    assert_eq!(second, Ok(program(vec![expr_statement(num("2"))])));
}
