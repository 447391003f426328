//! The model of the parser: one function per grammar rule, each mapping
//! a token stream and a position in it to the tree that the rule yields
//! there, or to the failure it meets.
//!
//! The grammar, with one token of lookahead deciding every production:
//!
//! ```text
//! Program                  := StatementList(end = input)
//! StatementList(end)       := Statement { Statement }
//! Statement                := BlockStatement | ExpressionStatement
//! BlockStatement           := '{' [ StatementList(end = '}') ] '}'
//! ExpressionStatement      := Expression ';'
//! Expression               := AdditiveExpression
//! AdditiveExpression       := MultiplicativeExpression { ('+'|'-') MultiplicativeExpression }
//! MultiplicativeExpression := PrimaryExpression { ('*'|'/') PrimaryExpression }
//! PrimaryExpression        := '(' Expression ')' | Literal
//! Literal                  := NumericLiteral | StringLiteral
//! ```
//!
//! Both binary rules are left-associative: the rule folds its operands
//! from the left, so earlier operations nest deeper on the left.
//!
//! Every rule strictly advances its position in the stream. The
//! termination checker cannot assume that of a rule's result, so the
//! recursions that continue from a sub-rule's result stand behind a
//! guard on the returned position; the guards always hold, and their
//! `arbitrary()` branches are never reached.

use vstd::prelude::*;

use crate::ast::Ast;
use crate::ast::LiteralType;
use crate::ast::SpecErr;
use crate::ast::SpecToken;
use crate::scan::Pull;
use crate::scan::TokenStream;
use crate::scan::pull;
use crate::scan::stream;

verus! {

/// What a rule yields: a tree and the position just past what it
/// consumed, or a failure.
pub enum POut {
    Node { a: Ast, next: nat },
    Fail { e: SpecErr },
}

/// What a statement list yields: the trees of its statements, in source
/// order, and the position just past them, or a failure.
pub enum LOut {
    List { l: Seq<Ast>, next: nat },
    Fail { e: SpecErr },
}

/// What consuming one expected token yields.
pub enum EOut {
    Tok { t: SpecToken, next: nat },
    Fail { e: SpecErr },
}

/// How many tokens of the stream lie at or after position `k`: the
/// measure by which every rule terminates.
pub open spec fn rem(ts: TokenStream, k: nat) -> nat {
    if k <= ts.toks.len() {
        (ts.toks.len() - k) as nat
    } else {
        0
    }
}

/// Consuming the token at `k`, which must be of the given kind. On a
/// match the lookahead moves to `k + 1`; meeting the scanner's failure
/// there fails the parse at once, as the parser refills its lookahead
/// eagerly after every consumed token.
pub open spec fn spec_eat(ts: TokenStream, k: nat, kind: LiteralType) -> EOut {
    match pull(ts, k) {
        Pull::Tok { t } => {
            if t.kind == kind {
                match pull(ts, (k + 1) as nat) {
                    Pull::Bad { pos } => EOut::Fail { e: SpecErr::Lex { pos } },
                    _ => EOut::Tok { t, next: (k + 1) as nat },
                }
            } else {
                EOut::Fail { e: SpecErr::Syntax { found: Some(t), expected: kind } }
            }
        },
        Pull::End => EOut::Fail { e: SpecErr::Syntax { found: None, expected: kind } },
        Pull::Bad { pos } => EOut::Fail { e: SpecErr::Lex { pos } },
    }
}

/// NumericLiteral := NUMBER
pub open spec fn spec_numeric(ts: TokenStream, k: nat) -> POut {
    match spec_eat(ts, k, LiteralType::Number) {
        EOut::Tok { t, next } => POut::Node { a: Ast::Num { text: t.text }, next },
        EOut::Fail { e } => POut::Fail { e },
    }
}

/// StringLiteral := STRING
pub open spec fn spec_string(ts: TokenStream, k: nat) -> POut {
    match spec_eat(ts, k, LiteralType::Str) {
        EOut::Tok { t, next } => POut::Node { a: Ast::StrLit { text: t.text }, next },
        EOut::Fail { e } => POut::Fail { e },
    }
}

/// Literal := NumericLiteral | StringLiteral. A lookahead of any other
/// kind is a violation of the parser's own dispatch; an absent lookahead
/// is the ordinary end-of-input failure of the number rule.
pub open spec fn spec_literal(ts: TokenStream, k: nat) -> POut {
    match pull(ts, k) {
        Pull::Tok { t } => {
            if t.kind == LiteralType::Number {
                spec_numeric(ts, k)
            } else if t.kind == LiteralType::Str {
                spec_string(ts, k)
            } else {
                POut::Fail { e: SpecErr::Dispatch }
            }
        },
        Pull::End => spec_numeric(ts, k),
        Pull::Bad { pos } => POut::Fail { e: SpecErr::Lex { pos } },
    }
}

/// ParenthesisedExpression := '(' Expression ')'. The parentheses leave
/// no node: the inner tree is the whole yield.
pub open spec fn spec_paren(ts: TokenStream, k: nat) -> POut
    decreases rem(ts, k), 0int,
{
    match spec_eat(ts, k, LiteralType::OpenParen) {
        EOut::Fail { e } => POut::Fail { e },
        EOut::Tok { t: _, next } => match spec_expression(ts, next) {
            POut::Fail { e } => POut::Fail { e },
            POut::Node { a, next: k2 } => match spec_eat(ts, k2, LiteralType::CloseParen) {
                EOut::Fail { e } => POut::Fail { e },
                EOut::Tok { t: _, next: k3 } => POut::Node { a, next: k3 },
            },
        },
    }
}

/// PrimaryExpression := ParenthesisedExpression | Literal
pub open spec fn spec_primary(ts: TokenStream, k: nat) -> POut
    decreases rem(ts, k), 1int,
{
    match pull(ts, k) {
        Pull::Tok { t } => {
            if t.kind == LiteralType::OpenParen {
                spec_paren(ts, k)
            } else {
                spec_literal(ts, k)
            }
        },
        Pull::End => spec_literal(ts, k),
        Pull::Bad { pos } => POut::Fail { e: SpecErr::Lex { pos } },
    }
}

/// The operand rule of a binary level: the next tighter level.
pub open spec fn spec_operand(ts: TokenStream, k: nat, op: LiteralType) -> POut
    decreases rem(ts, k), (if op == LiteralType::AdditiveOperator { 5int } else { 2int }),
{
    if op == LiteralType::AdditiveOperator {
        spec_binary(ts, k, LiteralType::MultiplicativeOperator)
    } else {
        spec_primary(ts, k)
    }
}

/// The left fold of a binary level: while the lookahead is an operator
/// of this level, consume it and its operand, and wrap the running left
/// tree in a new node. Earlier operators therefore nest deeper on the
/// left.
pub open spec fn spec_binary_tail(ts: TokenStream, left: Ast, k: nat, op: LiteralType) -> POut
    decreases rem(ts, k), (if op == LiteralType::AdditiveOperator { 6int } else { 3int }),
{
    match pull(ts, k) {
        Pull::Tok { t } => {
            if t.kind == op {
                match spec_eat(ts, k, op) {
                    EOut::Fail { e } => POut::Fail { e },
                    EOut::Tok { t: opt, next } => match spec_operand(ts, next, op) {
                        POut::Fail { e } => POut::Fail { e },
                        POut::Node { a: right, next: k2 } => {
                            if k2 > k {
                                spec_binary_tail(
                                    ts,
                                    Ast::Binary {
                                        op: opt.text,
                                        left: Box::new(left),
                                        right: Box::new(right),
                                    },
                                    k2,
                                    op,
                                )
                            } else {
                                arbitrary()
                            }
                        },
                    },
                }
            } else {
                POut::Node { a: left, next: k }
            }
        },
        _ => POut::Node { a: left, next: k },
    }
}

/// A binary level: one operand, then the left fold of this level's
/// operators. `AdditiveOperator` gives AdditiveExpression, whose
/// operands are multiplicative; `MultiplicativeOperator` gives
/// MultiplicativeExpression, whose operands are primary.
pub open spec fn spec_binary(ts: TokenStream, k: nat, op: LiteralType) -> POut
    decreases rem(ts, k), (if op == LiteralType::AdditiveOperator { 7int } else { 4int }),
{
    match spec_operand(ts, k, op) {
        POut::Fail { e } => POut::Fail { e },
        POut::Node { a, next } => {
            if next >= k {
                spec_binary_tail(ts, a, next, op)
            } else {
                arbitrary()
            }
        },
    }
}

/// Expression := AdditiveExpression
pub open spec fn spec_expression(ts: TokenStream, k: nat) -> POut
    decreases rem(ts, k), 8int,
{
    spec_binary(ts, k, LiteralType::AdditiveOperator)
}

/// ExpressionStatement := Expression ';'
pub open spec fn spec_expression_statement(ts: TokenStream, k: nat) -> POut
    decreases rem(ts, k), 9int,
{
    match spec_expression(ts, k) {
        POut::Fail { e } => POut::Fail { e },
        POut::Node { a, next } => match spec_eat(ts, next, LiteralType::Semicolon) {
            EOut::Fail { e } => POut::Fail { e },
            EOut::Tok { t: _, next: k2 } => POut::Node {
                a: Ast::Stmt { expr: Box::new(a) },
                next: k2,
            },
        },
    }
}

/// BlockStatement := '{' [ StatementList(end = '}') ] '}'. The list is
/// absent when `}` follows at once or the input ends: an empty block is
/// no failure.
pub open spec fn spec_block(ts: TokenStream, k: nat) -> POut
    decreases rem(ts, k), 9int,
{
    match spec_eat(ts, k, LiteralType::OpenBrace) {
        EOut::Fail { e } => POut::Fail { e },
        EOut::Tok { t: _, next: k1 } => {
            let body = match pull(ts, k1) {
                Pull::Tok { t } => {
                    if t.kind != LiteralType::CloseBrace {
                        spec_statement_list(ts, k1, Some(LiteralType::CloseBrace))
                    } else {
                        LOut::List { l: Seq::empty(), next: k1 }
                    }
                },
                _ => LOut::List { l: Seq::empty(), next: k1 },
            };
            match body {
                LOut::Fail { e } => POut::Fail { e },
                LOut::List { l, next: k2 } => match spec_eat(ts, k2, LiteralType::CloseBrace) {
                    EOut::Fail { e } => POut::Fail { e },
                    EOut::Tok { t: _, next: k3 } => POut::Node {
                        a: Ast::Block { body: l },
                        next: k3,
                    },
                },
            }
        },
    }
}

/// Statement := BlockStatement | ExpressionStatement, decided by whether
/// the lookahead is `{`.
pub open spec fn spec_statement(ts: TokenStream, k: nat) -> POut
    decreases rem(ts, k), 10int,
{
    match pull(ts, k) {
        Pull::Tok { t } => {
            if t.kind == LiteralType::OpenBrace {
                spec_block(ts, k)
            } else {
                spec_expression_statement(ts, k)
            }
        },
        Pull::End => spec_expression_statement(ts, k),
        Pull::Bad { pos } => POut::Fail { e: SpecErr::Lex { pos } },
    }
}

/// The repetition of StatementList after its first statement: while a
/// lookahead remains and is not the stopping kind, parse one more
/// statement.
pub open spec fn spec_statement_tail(
    ts: TokenStream,
    acc: Seq<Ast>,
    k: nat,
    stop: Option<LiteralType>,
) -> LOut
    decreases rem(ts, k), 11int,
{
    match pull(ts, k) {
        Pull::Tok { t } => {
            if stop is Some && t.kind == stop.unwrap() {
                LOut::List { l: acc, next: k }
            } else {
                match spec_statement(ts, k) {
                    POut::Fail { e } => LOut::Fail { e },
                    POut::Node { a, next } => {
                        if next > k {
                            spec_statement_tail(ts, acc.push(a), next, stop)
                        } else {
                            arbitrary()
                        }
                    },
                }
            }
        },
        Pull::End => LOut::List { l: acc, next: k },
        Pull::Bad { pos } => LOut::Fail { e: SpecErr::Lex { pos } },
    }
}

/// StatementList(end) := Statement { Statement }: at least one
/// statement, then the repetition until the input or the stopping kind.
pub open spec fn spec_statement_list(ts: TokenStream, k: nat, stop: Option<LiteralType>) -> LOut
    decreases rem(ts, k), 12int,
{
    match spec_statement(ts, k) {
        POut::Fail { e } => LOut::Fail { e },
        POut::Node { a, next } => {
            if next >= k {
                spec_statement_tail(ts, seq![a], next, stop)
            } else {
                arbitrary()
            }
        },
    }
}

/// Program := StatementList to the end of the input.
pub open spec fn spec_program(ts: TokenStream, k: nat) -> POut {
    match spec_statement_list(ts, k, None) {
        LOut::Fail { e } => POut::Fail { e },
        LOut::List { l, next } => POut::Node { a: Ast::Program { body: l }, next },
    }
}

/// The whole parse of a source: scan it into its token stream, fail at
/// once if even the first lookahead cannot be scanned, and otherwise
/// parse a Program.
pub open spec fn spec_parse(s: Seq<char>) -> Result<Ast, SpecErr> {
    let ts = stream(s, 0);
    match pull(ts, 0) {
        Pull::Bad { pos } => Err(SpecErr::Lex { pos }),
        _ => match spec_program(ts, 0) {
            POut::Fail { e } => Err(e),
            POut::Node { a, next: _ } => Ok(a),
        },
    }
}

/// The token stream determines the parse: two sources that scan to the
/// same stream parse to the same result. Together with the transparency
/// lemmas of the scanner, this is why comments and whitespace cannot
/// change what is parsed.
pub proof fn lemma_stream_determines_parse(s1: Seq<char>, s2: Seq<char>)
    requires
        stream(s1, 0) == stream(s2, 0),
    ensures
        spec_parse(s1) == spec_parse(s2),
{
}

} // verus!