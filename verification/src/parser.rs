//! The recursive-descent parser: one method per grammar rule, each
//! proved to return exactly the tree or the failure that the grammar
//! model of [`crate::grammar`] assigns to the token stream it stands on.
//!
//! The parser owns a scanner and one token of lookahead. Each rule
//! inspects the lookahead to pick its production, consumes tokens of the
//! expected kinds through [`Parser::eat`] — which refills the lookahead
//! from the scanner — and recurses into its sub-rules. No backtracking
//! ever happens: one token of lookahead decides everything.

use vstd::prelude::*;

use crate::ast::Ast;
use crate::ast::Literal;
use crate::ast::LiteralType;
use crate::ast::LiteralValue;
use crate::ast::ParseError;
use crate::ast::SpecToken;
use crate::ast::is_token;
use crate::ast::matches_err;
use crate::ast::represents;
use crate::ast::represents_all;
use crate::grammar::EOut;
use crate::grammar::LOut;
use crate::grammar::POut;
use crate::grammar::rem;
use crate::grammar::spec_binary;
use crate::grammar::spec_binary_tail;
use crate::grammar::spec_block;
use crate::grammar::spec_eat;
use crate::grammar::spec_expression;
use crate::grammar::spec_expression_statement;
use crate::grammar::spec_literal;
use crate::grammar::spec_numeric;
use crate::grammar::spec_operand;
use crate::grammar::spec_paren;
use crate::grammar::spec_parse;
use crate::grammar::spec_primary;
use crate::grammar::spec_program;
use crate::grammar::spec_statement;
use crate::grammar::spec_statement_list;
use crate::grammar::spec_statement_tail;
use crate::grammar::spec_string;
use crate::scan::TokenStream;
use crate::scan::lemma_stream_step;
use crate::scan::next_token;
use crate::scan::stream;
use crate::tokenizer::Tokenizer;

verus! {

/// The parser: a scanner, the current lookahead pulled from it, and the
/// ghost position of that lookahead in the source's token stream.
pub struct Parser {
    pub tokenizer: Tokenizer,
    pub lookahead: Option<Literal>,
    pub consumed: Ghost<nat>,
}

impl Parser {
    /// The source currently loaded.
    pub open spec fn src(self) -> Seq<char> {
        self.tokenizer.string@
    }

    /// The token stream of that source.
    pub open spec fn toks(self) -> TokenStream {
        stream(self.src(), 0)
    }

    /// The stream position of the current lookahead.
    pub open spec fn at(self) -> nat {
        self.consumed@
    }

    /// The parser's invariant: the lookahead is the token of the stream
    /// at [`Parser::at`], and the scanner's cursor stands just past it,
    /// so that scanning on from the cursor yields the rest of the
    /// stream. An absent lookahead means the whole stream was consumed
    /// and the scanner met no failure.
    pub open spec fn wf(self) -> bool {
        &&& self.tokenizer.wf()
        &&& match self.lookahead {
            Some(l) => {
                &&& self.at() < self.toks().toks.len()
                &&& is_token(l, self.toks().toks[self.at() as int])
                &&& stream(self.src(), self.tokenizer.cursor as nat) == (TokenStream {
                    toks: self.toks().toks.skip(self.at() as int + 1),
                    bad: self.toks().bad,
                })
            },
            None => {
                &&& self.at() == self.toks().toks.len()
                &&& self.toks().bad is None
            },
        }
    }

    /// A fresh parser over an empty source.
    pub fn new() -> (p: Parser)
        ensures
            p.wf(),
    {
        let p = Parser {
            tokenizer: Tokenizer::new(String::new()),
            lookahead: None,
            consumed: Ghost(0),
        };
        proof {
            assert(p.toks() == (TokenStream { toks: Seq::<SpecToken>::empty(), bad: None }));
        }
        p
    }

    /// Parses a whole source into its tree, or into the first failure
    /// met: exactly what the grammar model assigns to the source.
    pub fn parse(&mut self, string: String) -> (r: Result<Literal, ParseError>)
        ensures
            match spec_parse(string@) {
                Ok(a) => match r {
                    Ok(l) => represents(l, a),
                    _ => false,
                },
                Err(e) => match r {
                    Err(err) => matches_err(err, e),
                    _ => false,
                },
            },
    {
        self.tokenizer = Tokenizer::new(string);
        self.lookahead = None;
        self.consumed = Ghost(0);
        let ghost s = self.src();
        let ghost ts = stream(s, 0);
        proof {
            lemma_stream_step(s, 0);
        }
        // Prime the lookahead with the first token, so that every rule
        // can decide its production by inspecting it.
        match self.tokenizer.get_next_token() {
            Err(e) => Err(e),
            Ok(la) => {
                self.lookahead = la;
                proof {
                    if next_token(s, 0) is Tok {
                        assert(ts.toks.skip(1) =~= ts.toks.skip(0int + 1));
                    }
                }
                self.program()
            },
        }
    }

    /// Program := StatementList to the end of the input.
    pub fn program(&mut self) -> (r: Result<Literal, ParseError>)
        requires
            old(self).wf(),
        ensures
            final(self).src() == old(self).src(),
            match spec_program(old(self).toks(), old(self).at()) {
                POut::Node { a, next } => {
                    &&& final(self).wf()
                    &&& final(self).at() == next
                    &&& match r {
                        Ok(l) => represents(l, a),
                        _ => false,
                    }
                },
                POut::Fail { e } => match r {
                    Err(err) => matches_err(err, e),
                    _ => false,
                },
            },
    {
        match self.statement_list(None) {
            Ok(list) => Ok(
                Literal {
                    literal_type: LiteralType::Program,
                    value: LiteralValue::NestedValueList(list),
                },
            ),
            Err(e) => Err(e),
        }
    }

    /// StatementList := Statement { Statement }: one statement, then
    /// more while a lookahead remains and is not the stopping kind.
    pub fn statement_list(&mut self, stop_lookahead: Option<LiteralType>) -> (r: Result<
        Vec<Literal>,
        ParseError,
    >)
        requires
            old(self).wf(),
        ensures
            final(self).src() == old(self).src(),
            match spec_statement_list(old(self).toks(), old(self).at(), stop_lookahead) {
                LOut::List { l, next } => {
                    &&& final(self).wf()
                    &&& final(self).at() == next
                    &&& next > old(self).at()
                    &&& match r {
                        Ok(v) => represents_all(v@, l),
                        _ => false,
                    }
                },
                LOut::Fail { e } => match r {
                    Err(err) => matches_err(err, e),
                    _ => false,
                },
            },
        decreases rem(old(self).toks(), old(self).at()), 12int,
    {
        let ghost ts = self.toks();
        let ghost k0 = self.at();
        let first = match self.statement() {
            Ok(st) => st,
            Err(e) => return Err(e),
        };
        let ghost first_ast = match spec_statement(ts, k0) {
            POut::Node { a, next: _ } => a,
            _ => arbitrary(),
        };
        let mut list: Vec<Literal> = Vec::new();
        list.push(first);
        let ghost mut acc: Seq<Ast> = seq![first_ast];
        proof {
            assert(list@ =~= seq![list@[0]]);
            assert(represents_all(list@, acc));
        }
        loop
            invariant
                self.wf(),
                self.src() == old(self).src(),
                ts == self.toks(),
                k0 == old(self).at(),
                self.at() > k0,
                self.at() <= ts.toks.len(),
                represents_all(list@, acc),
                spec_statement_tail(ts, acc, self.at(), stop_lookahead) == spec_statement_list(
                    ts,
                    k0,
                    stop_lookahead,
                ),
            decreases ts.toks.len() - self.at(),
        {
            let ghost kk = self.at();
            let more = match (&self.lookahead, stop_lookahead) {
                (None, _) => false,
                (Some(l), Some(kind)) => l.literal_type != kind,
                (Some(_), None) => true,
            };
            if !more {
                return Ok(list);
            }
            match self.statement() {
                Err(e) => return Err(e),
                Ok(st) => {
                    let ghost st_ast = match spec_statement(ts, kk) {
                        POut::Node { a, next: _ } => a,
                        _ => arbitrary(),
                    };
                    let ghost plist = list@;
                    let ghost pacc = acc;
                    list.push(st);
                    proof {
                        acc = acc.push(st_ast);
                        assert forall|i: int| 0 <= i < acc.len() implies #[trigger] represents(
                            list@[i],
                            acc[i],
                        ) by {
                            if 0 <= i < pacc.len() {
                                assert(represents(plist[i], pacc[i]));
                            }
                        };
                    }
                },
            }
        }
    }

    /// Statement := BlockStatement | ExpressionStatement, decided by
    /// whether the lookahead is `{`.
    pub fn statement(&mut self) -> (r: Result<Literal, ParseError>)
        requires
            old(self).wf(),
        ensures
            final(self).src() == old(self).src(),
            match spec_statement(old(self).toks(), old(self).at()) {
                POut::Node { a, next } => {
                    &&& final(self).wf()
                    &&& final(self).at() == next
                    &&& next > old(self).at()
                    &&& match r {
                        Ok(l) => represents(l, a),
                        _ => false,
                    }
                },
                POut::Fail { e } => match r {
                    Err(err) => matches_err(err, e),
                    _ => false,
                },
            },
        decreases rem(old(self).toks(), old(self).at()), 11int,
    {
        let is_block = match &self.lookahead {
            Some(l) => l.literal_type == LiteralType::OpenBrace,
            None => false,
        };
        if is_block {
            self.block_statement()
        } else {
            self.expression_statement()
        }
    }

    /// BlockStatement := '{' [ StatementList(end = '}') ] '}'. The list
    /// is parsed only when the lookahead after `{` exists and is not
    /// `}`: an empty block, or one holding only comments, is no failure.
    pub fn block_statement(&mut self) -> (r: Result<Literal, ParseError>)
        requires
            old(self).wf(),
        ensures
            final(self).src() == old(self).src(),
            match spec_block(old(self).toks(), old(self).at()) {
                POut::Node { a, next } => {
                    &&& final(self).wf()
                    &&& final(self).at() == next
                    &&& next > old(self).at()
                    &&& match r {
                        Ok(l) => represents(l, a),
                        _ => false,
                    }
                },
                POut::Fail { e } => match r {
                    Err(err) => matches_err(err, e),
                    _ => false,
                },
            },
        decreases rem(old(self).toks(), old(self).at()), 10int,
    {
        let ghost ts = self.toks();
        let ghost k0 = self.at();
        match self.eat(LiteralType::OpenBrace) {
            Err(e) => return Err(e),
            Ok(_) => {},
        }
        let non_empty = match &self.lookahead {
            Some(l) => l.literal_type != LiteralType::CloseBrace,
            None => false,
        };
        let body = if non_empty {
            match self.statement_list(Some(LiteralType::CloseBrace)) {
                Ok(v) => v,
                Err(e) => return Err(e),
            }
        } else {
            Vec::new()
        };
        proof {
            if !non_empty {
                assert(represents_all(body@, Seq::<Ast>::empty()));
            }
        }
        match self.eat(LiteralType::CloseBrace) {
            Err(e) => Err(e),
            Ok(_) => Ok(
                Literal {
                    literal_type: LiteralType::BlockStatement,
                    value: LiteralValue::NestedValueList(body),
                },
            ),
        }
    }

    /// ExpressionStatement := Expression ';'
    pub fn expression_statement(&mut self) -> (r: Result<Literal, ParseError>)
        requires
            old(self).wf(),
        ensures
            final(self).src() == old(self).src(),
            match spec_expression_statement(old(self).toks(), old(self).at()) {
                POut::Node { a, next } => {
                    &&& final(self).wf()
                    &&& final(self).at() == next
                    &&& next > old(self).at()
                    &&& match r {
                        Ok(l) => represents(l, a),
                        _ => false,
                    }
                },
                POut::Fail { e } => match r {
                    Err(err) => matches_err(err, e),
                    _ => false,
                },
            },
        decreases rem(old(self).toks(), old(self).at()), 10int,
    {
        let expression = match self.expression() {
            Ok(node) => node,
            Err(e) => return Err(e),
        };
        match self.eat(LiteralType::Semicolon) {
            Err(e) => Err(e),
            Ok(_) => Ok(
                Literal {
                    literal_type: LiteralType::ExpressionStatement,
                    value: LiteralValue::NestedValue(Box::new(expression)),
                },
            ),
        }
    }

    /// Expression := AdditiveExpression
    pub fn expression(&mut self) -> (r: Result<Literal, ParseError>)
        requires
            old(self).wf(),
        ensures
            final(self).src() == old(self).src(),
            match spec_expression(old(self).toks(), old(self).at()) {
                POut::Node { a, next } => {
                    &&& final(self).wf()
                    &&& final(self).at() == next
                    &&& next > old(self).at()
                    &&& match r {
                        Ok(l) => represents(l, a),
                        _ => false,
                    }
                },
                POut::Fail { e } => match r {
                    Err(err) => matches_err(err, e),
                    _ => false,
                },
            },
        decreases rem(old(self).toks(), old(self).at()), 9int,
    {
        self.additive_expression()
    }

    /// AdditiveExpression := MultiplicativeExpression { ('+'|'-')
    /// MultiplicativeExpression }, folded from the left.
    pub fn additive_expression(&mut self) -> (r: Result<Literal, ParseError>)
        requires
            old(self).wf(),
        ensures
            final(self).src() == old(self).src(),
            match spec_binary(old(self).toks(), old(self).at(), LiteralType::AdditiveOperator) {
                POut::Node { a, next } => {
                    &&& final(self).wf()
                    &&& final(self).at() == next
                    &&& next > old(self).at()
                    &&& match r {
                        Ok(l) => represents(l, a),
                        _ => false,
                    }
                },
                POut::Fail { e } => match r {
                    Err(err) => matches_err(err, e),
                    _ => false,
                },
            },
        decreases rem(old(self).toks(), old(self).at()), 8int,
    {
        self.binary_expression(LiteralType::AdditiveOperator)
    }

    /// MultiplicativeExpression := PrimaryExpression { ('*'|'/')
    /// PrimaryExpression }, folded from the left.
    pub fn multiplicative_expression(&mut self) -> (r: Result<Literal, ParseError>)
        requires
            old(self).wf(),
        ensures
            final(self).src() == old(self).src(),
            match spec_binary(
                old(self).toks(),
                old(self).at(),
                LiteralType::MultiplicativeOperator,
            ) {
                POut::Node { a, next } => {
                    &&& final(self).wf()
                    &&& final(self).at() == next
                    &&& next > old(self).at()
                    &&& match r {
                        Ok(l) => represents(l, a),
                        _ => false,
                    }
                },
                POut::Fail { e } => match r {
                    Err(err) => matches_err(err, e),
                    _ => false,
                },
            },
        decreases rem(old(self).toks(), old(self).at()), 5int,
    {
        self.binary_expression(LiteralType::MultiplicativeOperator)
    }

    /// The shared shape of the two binary levels: one operand of the
    /// next tighter level, then an iterative left fold that wraps the
    /// running left tree while the lookahead is an operator of this
    /// level. The fold, not recursion, is what makes both levels
    /// left-associative.
    pub fn binary_expression(&mut self, operator_token: LiteralType) -> (r: Result<
        Literal,
        ParseError,
    >)
        requires
            old(self).wf(),
            operator_token == LiteralType::AdditiveOperator || operator_token
                == LiteralType::MultiplicativeOperator,
        ensures
            final(self).src() == old(self).src(),
            match spec_binary(old(self).toks(), old(self).at(), operator_token) {
                POut::Node { a, next } => {
                    &&& final(self).wf()
                    &&& final(self).at() == next
                    &&& next > old(self).at()
                    &&& match r {
                        Ok(l) => represents(l, a),
                        _ => false,
                    }
                },
                POut::Fail { e } => match r {
                    Err(err) => matches_err(err, e),
                    _ => false,
                },
            },
        decreases rem(old(self).toks(), old(self).at()), (if operator_token
            == LiteralType::AdditiveOperator {
            7int
        } else {
            4int
        }),
    {
        let ghost ts = self.toks();
        let ghost k0 = self.at();
        let left0 = if operator_token == LiteralType::AdditiveOperator {
            self.multiplicative_expression()
        } else {
            self.primary_expression()
        };
        let mut left = match left0 {
            Ok(node) => node,
            Err(e) => return Err(e),
        };
        let ghost mut cur: Ast = match spec_operand(ts, k0, operator_token) {
            POut::Node { a, next: _ } => a,
            _ => arbitrary(),
        };
        loop
            invariant
                self.wf(),
                self.src() == old(self).src(),
                ts == self.toks(),
                k0 == old(self).at(),
                self.at() > k0,
                self.at() <= ts.toks.len(),
                operator_token == LiteralType::AdditiveOperator || operator_token
                    == LiteralType::MultiplicativeOperator,
                represents(left, cur),
                spec_binary_tail(ts, cur, self.at(), operator_token) == spec_binary(
                    ts,
                    k0,
                    operator_token,
                ),
            decreases ts.toks.len() - self.at(),
        {
            let ghost kk = self.at();
            let fold_on = match &self.lookahead {
                Some(l) => l.literal_type == operator_token,
                None => false,
            };
            if !fold_on {
                return Ok(left);
            }
            let operator = match self.eat(operator_token) {
                Ok(token) => token,
                Err(e) => return Err(e),
            };
            let right0 = if operator_token == LiteralType::AdditiveOperator {
                self.multiplicative_expression()
            } else {
                self.primary_expression()
            };
            let right = match right0 {
                Ok(node) => node,
                Err(e) => return Err(e),
            };
            let ghost right_ast = match spec_operand(ts, (kk + 1) as nat, operator_token) {
                POut::Node { a, next: _ } => a,
                _ => arbitrary(),
            };
            let operator_text = match operator.value {
                LiteralValue::Value(s) => s,
                _ => unreached(),
            };
            left = Literal {
                literal_type: LiteralType::BinaryExpression,
                value: LiteralValue::BinaryValue {
                    left: Box::new(left),
                    operator: operator_text,
                    right: Box::new(right),
                },
            };
            proof {
                cur = Ast::Binary {
                    op: ts.toks[kk as int].text,
                    left: Box::new(cur),
                    right: Box::new(right_ast),
                };
            }
        }
    }

    /// PrimaryExpression := ParenthesisedExpression | Literal, decided
    /// by whether the lookahead is `(`.
    pub fn primary_expression(&mut self) -> (r: Result<Literal, ParseError>)
        requires
            old(self).wf(),
        ensures
            final(self).src() == old(self).src(),
            match spec_primary(old(self).toks(), old(self).at()) {
                POut::Node { a, next } => {
                    &&& final(self).wf()
                    &&& final(self).at() == next
                    &&& next > old(self).at()
                    &&& match r {
                        Ok(l) => represents(l, a),
                        _ => false,
                    }
                },
                POut::Fail { e } => match r {
                    Err(err) => matches_err(err, e),
                    _ => false,
                },
            },
        decreases rem(old(self).toks(), old(self).at()), 1int,
    {
        let is_paren = match &self.lookahead {
            Some(l) => l.literal_type == LiteralType::OpenParen,
            None => false,
        };
        if is_paren {
            self.parenthesised_expression()
        } else {
            self.literal()
        }
    }

    /// ParenthesisedExpression := '(' Expression ')'. The parentheses
    /// leave no node of their own: the inner tree is returned whole,
    /// which is how parenthesisation overrides precedence.
    pub fn parenthesised_expression(&mut self) -> (r: Result<Literal, ParseError>)
        requires
            old(self).wf(),
        ensures
            final(self).src() == old(self).src(),
            match spec_paren(old(self).toks(), old(self).at()) {
                POut::Node { a, next } => {
                    &&& final(self).wf()
                    &&& final(self).at() == next
                    &&& next > old(self).at()
                    &&& match r {
                        Ok(l) => represents(l, a),
                        _ => false,
                    }
                },
                POut::Fail { e } => match r {
                    Err(err) => matches_err(err, e),
                    _ => false,
                },
            },
        decreases rem(old(self).toks(), old(self).at()), 0int,
    {
        match self.eat(LiteralType::OpenParen) {
            Err(e) => return Err(e),
            Ok(_) => {},
        }
        let expression = match self.expression() {
            Ok(node) => node,
            Err(e) => return Err(e),
        };
        match self.eat(LiteralType::CloseParen) {
            Err(e) => Err(e),
            Ok(_) => Ok(expression),
        }
    }

    /// Literal := NumericLiteral | StringLiteral. A lookahead of any
    /// other kind is the parser's own dispatch gone wrong — every valid
    /// caller filters it first — and is reported apart from ordinary
    /// syntax errors; an absent lookahead is the number rule's ordinary
    /// end-of-input failure.
    pub fn literal(&mut self) -> (r: Result<Literal, ParseError>)
        requires
            old(self).wf(),
        ensures
            final(self).src() == old(self).src(),
            match spec_literal(old(self).toks(), old(self).at()) {
                POut::Node { a, next } => {
                    &&& final(self).wf()
                    &&& final(self).at() == next
                    &&& next > old(self).at()
                    &&& match r {
                        Ok(l) => represents(l, a),
                        _ => false,
                    }
                },
                POut::Fail { e } => match r {
                    Err(err) => matches_err(err, e),
                    _ => false,
                },
            },
    {
        let kind = match &self.lookahead {
            Some(l) => Some(l.literal_type),
            None => None,
        };
        match kind {
            Some(LiteralType::Number) => self.numeric_literal(),
            Some(LiteralType::Str) => self.string_literal(),
            None => self.numeric_literal(),
            Some(_) => Err(ParseError::GrammarDispatchError),
        }
    }

    /// NumericLiteral := NUMBER; the node keeps the digit string as
    /// matched, not a parsed value.
    pub fn numeric_literal(&mut self) -> (r: Result<Literal, ParseError>)
        requires
            old(self).wf(),
        ensures
            final(self).src() == old(self).src(),
            match spec_numeric(old(self).toks(), old(self).at()) {
                POut::Node { a, next } => {
                    &&& final(self).wf()
                    &&& final(self).at() == next
                    &&& next > old(self).at()
                    &&& match r {
                        Ok(l) => represents(l, a),
                        _ => false,
                    }
                },
                POut::Fail { e } => match r {
                    Err(err) => matches_err(err, e),
                    _ => false,
                },
            },
    {
        match self.eat(LiteralType::Number) {
            Ok(token) => Ok(
                Literal { literal_type: LiteralType::NumericLiteral, value: token.value },
            ),
            Err(e) => Err(e),
        }
    }

    /// StringLiteral := STRING; the node keeps the quotes as part of the
    /// stored text.
    pub fn string_literal(&mut self) -> (r: Result<Literal, ParseError>)
        requires
            old(self).wf(),
        ensures
            final(self).src() == old(self).src(),
            match spec_string(old(self).toks(), old(self).at()) {
                POut::Node { a, next } => {
                    &&& final(self).wf()
                    &&& final(self).at() == next
                    &&& next > old(self).at()
                    &&& match r {
                        Ok(l) => represents(l, a),
                        _ => false,
                    }
                },
                POut::Fail { e } => match r {
                    Err(err) => matches_err(err, e),
                    _ => false,
                },
            },
    {
        match self.eat(LiteralType::Str) {
            Ok(token) => Ok(
                Literal { literal_type: LiteralType::StringLiteral, value: token.value },
            ),
            Err(e) => Err(e),
        }
    }

    /// Consumes the lookahead, which must be of the expected kind, and
    /// refills it from the scanner. A mismatch, a missing lookahead, or
    /// a scanning failure on the refill each abort with the matching
    /// error; the consumed token is returned on success.
    pub fn eat(&mut self, token_type: LiteralType) -> (r: Result<Literal, ParseError>)
        requires
            old(self).wf(),
        ensures
            final(self).src() == old(self).src(),
            match spec_eat(old(self).toks(), old(self).at(), token_type) {
                EOut::Tok { t, next } => {
                    &&& final(self).wf()
                    &&& final(self).at() == next
                    &&& match r {
                        Ok(l) => is_token(l, t),
                        _ => false,
                    }
                },
                EOut::Fail { e } => match r {
                    Err(err) => matches_err(err, e),
                    _ => false,
                },
            },
    {
        let ghost ts = self.toks();
        let ghost k = self.at();
        let ghost s = self.src();
        let la = self.lookahead.take();
        match la {
            None => Err(ParseError::SyntaxError { found: None, expected: token_type }),
            Some(token) => {
                if token.literal_type != token_type {
                    Err(ParseError::SyntaxError { found: Some(token), expected: token_type })
                } else {
                    let ghost cur = self.tokenizer.cursor as nat;
                    proof {
                        lemma_stream_step(s, cur);
                    }
                    // Advance to the next token.
                    match self.tokenizer.get_next_token() {
                        Err(e) => Err(e),
                        Ok(refill) => {
                            self.lookahead = refill;
                            self.consumed = Ghost((k + 1) as nat);
                            proof {
                                if next_token(s, cur) is Tok {
                                    assert(ts.toks.skip(k as int + 1)[0] == ts.toks[k as int + 1]);
                                    assert(ts.toks.skip(k as int + 1).skip(1) =~= ts.toks.skip(
                                        k as int + 2,
                                    ));
                                }
                            }
                            Ok(token)
                        },
                    }
                }
            },
        }
    }
}

} // verus!
