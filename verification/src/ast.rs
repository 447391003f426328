//! The data carried between the scanner, the parser and the caller:
//! tokens and syntax-tree nodes, the error taxonomy, and the ghost tree
//! that the contracts speak of.

use vstd::prelude::*;

verus! {

/// The closed set of tags. The first nine classify tokens as the scanner
/// hands them to the parser; the last six classify the nodes of the tree
/// that the parser returns.
#[derive(Debug, Clone, Copy, PartialEq, Eq, Structural)]
pub enum LiteralType {
    /// A run of decimal digits.
    Number,
    /// A double-quoted string, quotes included.
    Str,
    /// The statement terminator `;`.
    Semicolon,
    /// `{`
    OpenBrace,
    /// `}`
    CloseBrace,
    /// `(`
    OpenParen,
    /// `)`
    CloseParen,
    /// `+` or `-`.
    AdditiveOperator,
    /// `*` or `/`.
    MultiplicativeOperator,
    /// The root node: a list of statements.
    Program,
    /// `{ ... }`: a list of statements.
    BlockStatement,
    /// An expression followed by `;`.
    ExpressionStatement,
    /// Left operand, operator text, right operand.
    BinaryExpression,
    /// A numeric literal; its text is the digit string.
    NumericLiteral,
    /// A string literal; its text keeps the quotes.
    StringLiteral,
}

/// A token or a node of the tree: a tag plus the payload the tag calls for.
#[derive(Debug, PartialEq)]
pub struct Literal {
    pub literal_type: LiteralType,
    pub value: LiteralValue,
}

/// The payload of a [`Literal`].
#[derive(Debug, PartialEq)]
pub enum LiteralValue {
    /// The matched text of a token or of a leaf node.
    Value(String),
    /// The single child of an expression statement.
    NestedValue(Box<Literal>),
    /// The ordered children of a program or of a block.
    NestedValueList(Vec<Literal>),
    /// The three parts of a binary expression.
    BinaryValue { left: Box<Literal>, operator: String, right: Box<Literal> },
}

/// Why a parse failed. Any of the three aborts the whole parse; no
/// partial tree is returned.
#[derive(Debug, PartialEq)]
pub enum ParseError {
    /// No scanning rule matched the source at this character position.
    LexicalError { position: usize },
    /// A token of the expected kind was owed, but `found` stood in its
    /// place (`None`: the input ended).
    SyntaxError { found: Option<Literal>, expected: LiteralType },
    /// The literal rule was entered on a token that is neither a number
    /// nor a string: a violation of the parser's own dispatch, not of the
    /// input.
    GrammarDispatchError,
}

/// A token as the model sees it: its tag and its matched text.
#[verifier::ext_equal]
pub struct SpecToken {
    pub kind: LiteralType,
    pub text: Seq<char>,
}

/// The tree as the model sees it, one variant per grammar production.
pub enum Ast {
    Program { body: Seq<Ast> },
    Block { body: Seq<Ast> },
    Stmt { expr: Box<Ast> },
    Binary { op: Seq<char>, left: Box<Ast>, right: Box<Ast> },
    Num { text: Seq<char> },
    StrLit { text: Seq<char> },
}

/// `l` is the token `t`: same tag, and its payload is exactly the
/// matched text.
pub open spec fn is_token(l: Literal, t: SpecToken) -> bool {
    &&& l.literal_type == t.kind
    &&& match l.value {
        LiteralValue::Value(s) => s@ == t.text,
        _ => false,
    }
}

/// `l` is the executable rendering of the ghost tree `a`: tags, texts
/// and children all agree, in order.
pub open spec fn represents(l: Literal, a: Ast) -> bool
    decreases a,
{
    match a {
        Ast::Program { body } => {
            &&& l.literal_type == LiteralType::Program
            &&& match l.value {
                LiteralValue::NestedValueList(v) => represents_all(v@, body),
                _ => false,
            }
        },
        Ast::Block { body } => {
            &&& l.literal_type == LiteralType::BlockStatement
            &&& match l.value {
                LiteralValue::NestedValueList(v) => represents_all(v@, body),
                _ => false,
            }
        },
        Ast::Stmt { expr } => {
            &&& l.literal_type == LiteralType::ExpressionStatement
            &&& match l.value {
                LiteralValue::NestedValue(child) => represents(*child, *expr),
                _ => false,
            }
        },
        Ast::Binary { op, left, right } => {
            &&& l.literal_type == LiteralType::BinaryExpression
            &&& match l.value {
                LiteralValue::BinaryValue { left: el, operator, right: er } => {
                    &&& operator@ == op
                    &&& represents(*el, *left)
                    &&& represents(*er, *right)
                },
                _ => false,
            }
        },
        Ast::Num { text } => {
            &&& l.literal_type == LiteralType::NumericLiteral
            &&& match l.value {
                LiteralValue::Value(s) => s@ == text,
                _ => false,
            }
        },
        Ast::StrLit { text } => {
            &&& l.literal_type == LiteralType::StringLiteral
            &&& match l.value {
                LiteralValue::Value(s) => s@ == text,
                _ => false,
            }
        },
    }
}

/// Each of the executable children renders the ghost child at the same
/// position, and there are exactly as many.
pub open spec fn represents_all(v: Seq<Literal>, b: Seq<Ast>) -> bool
    decreases b,
{
    &&& v.len() == b.len()
    &&& forall|i: int| #![trigger v[i]] #![trigger b[i]] 0 <= i < b.len() ==> represents(v[i], b[i])
}

/// A failure as the model sees it, mirroring [`ParseError`].
pub enum SpecErr {
    Lex { pos: nat },
    Syntax { found: Option<SpecToken>, expected: LiteralType },
    Dispatch,
}

/// The executable error `e` reports exactly the model failure `s`.
pub open spec fn matches_err(e: ParseError, s: SpecErr) -> bool {
    match s {
        SpecErr::Lex { pos } => match e {
            ParseError::LexicalError { position } => position == pos,
            _ => false,
        },
        SpecErr::Syntax { found, expected } => match e {
            ParseError::SyntaxError { found: f, expected: x } => {
                &&& x == expected
                &&& match (f, found) {
                    (Option::None, Option::None) => true,
                    (Option::Some(l), Option::Some(t)) => is_token(l, t),
                    _ => false,
                }
            },
            _ => false,
        },
        SpecErr::Dispatch => e is GrammarDispatchError,
    }
}

} // verus!
