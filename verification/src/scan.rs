//! The model of the scanner: what the next token of a source is, from a
//! given cursor, and the full token stream that follows from it.
//!
//! Scanning tries a fixed list of rules at the cursor, in priority
//! order: whitespace, a line comment `//...`, a block comment
//! `/* ... */` to its first closer, the single-character tokens, the
//! additive and multiplicative operators, a maximal run of digits, and a
//! double-quoted string. Whitespace and comments are skipped and
//! scanning retries after them; when no rule matches before the end of
//! the input, scanning fails at that position.

use vstd::prelude::*;

use crate::ast::LiteralType;
use crate::ast::SpecToken;

verus! {

/// The characters skipped as whitespace.
pub open spec fn is_space(c: char) -> bool {
    c == ' ' || c == '\t' || c == '\n' || c == '\r' || c == '\u{b}' || c == '\u{c}'
}

/// A decimal digit.
pub open spec fn is_digit(c: char) -> bool {
    48 <= c as u32 && c as u32 <= 57
}

/// What one scanning step yields: the end of the input, a failure at a
/// position, or a token together with the cursor just past it.
pub enum Scan {
    End,
    Bad { pos: nat },
    Tok { kind: LiteralType, text: Seq<char>, next: nat },
}

/// The position of the first newline at or after `i`, or the length of
/// the source: where a line comment starting before `i` ends.
pub open spec fn line_end(s: Seq<char>, i: nat) -> nat
    decreases s.len() - i,
{
    if i >= s.len() {
        i
    } else if s[i as int] == '\n' {
        i
    } else {
        line_end(s, (i + 1) as nat)
    }
}

pub proof fn lemma_line_end(s: Seq<char>, i: nat)
    ensures
        i <= line_end(s, i),
        i <= s.len() ==> line_end(s, i) <= s.len(),
    decreases s.len() - i,
{
    if i < s.len() && s[i as int] != '\n' {
        lemma_line_end(s, (i + 1) as nat);
    }
}

/// The position of the `*` of the first `*/` at or after `i`, if any:
/// where a block comment starting before `i` closes.
pub open spec fn find_close(s: Seq<char>, i: nat) -> Option<nat>
    decreases s.len() - i,
{
    if i + 1 >= s.len() {
        None
    } else if s[i as int] == '*' && s[i as int + 1] == '/' {
        Some(i)
    } else {
        find_close(s, (i + 1) as nat)
    }
}

pub proof fn lemma_find_close(s: Seq<char>, i: nat)
    ensures
        match find_close(s, i) {
            Some(j) => i <= j && j + 2 <= s.len(),
            None => true,
        },
    decreases s.len() - i,
{
    if i + 1 < s.len() && !(s[i as int] == '*' && s[i as int + 1] == '/') {
        lemma_find_close(s, (i + 1) as nat);
    }
}

/// The position of the first `"` at or after `i`, if any: where a string
/// literal opened before `i` closes.
pub open spec fn find_quote(s: Seq<char>, i: nat) -> Option<nat>
    decreases s.len() - i,
{
    if i >= s.len() {
        None
    } else if s[i as int] == '"' {
        Some(i)
    } else {
        find_quote(s, (i + 1) as nat)
    }
}

pub proof fn lemma_find_quote(s: Seq<char>, i: nat)
    ensures
        match find_quote(s, i) {
            Some(j) => i <= j && j < s.len() && s[j as int] == '"',
            None => true,
        },
    decreases s.len() - i,
{
    if i < s.len() && s[i as int] != '"' {
        lemma_find_quote(s, (i + 1) as nat);
    }
}

/// The end of the maximal run of digits starting at `i`.
pub open spec fn digits_end(s: Seq<char>, i: nat) -> nat
    decreases s.len() - i,
{
    if i >= s.len() {
        i
    } else if is_digit(s[i as int]) {
        digits_end(s, (i + 1) as nat)
    } else {
        i
    }
}

pub proof fn lemma_digits_end(s: Seq<char>, i: nat)
    ensures
        i <= digits_end(s, i),
        i <= s.len() ==> digits_end(s, i) <= s.len(),
    decreases s.len() - i,
{
    if i < s.len() && is_digit(s[i as int]) {
        lemma_digits_end(s, (i + 1) as nat);
    }
}

/// The next token of `s` from cursor `i`: the scanning rules, in their
/// priority order.
pub open spec fn next_token(s: Seq<char>, i: nat) -> Scan
    decreases s.len() - i,
        via next_token_decreases
{
    if i >= s.len() {
        Scan::End
    } else {
        let c = s[i as int];
        if is_space(c) {
            next_token(s, (i + 1) as nat)
        } else if c == '/' && i + 1 < s.len() && s[i as int + 1] == '/' {
            next_token(s, line_end(s, (i + 2) as nat))
        } else if c == '/' && i + 1 < s.len() && s[i as int + 1] == '*' && find_close(
            s,
            (i + 2) as nat,
        ) is Some {
            next_token(s, (find_close(s, (i + 2) as nat).unwrap() + 2) as nat)
        } else if c == ';' {
            Scan::Tok { kind: LiteralType::Semicolon, text: seq![c], next: (i + 1) as nat }
        } else if c == '{' {
            Scan::Tok { kind: LiteralType::OpenBrace, text: seq![c], next: (i + 1) as nat }
        } else if c == '}' {
            Scan::Tok { kind: LiteralType::CloseBrace, text: seq![c], next: (i + 1) as nat }
        } else if c == '(' {
            Scan::Tok { kind: LiteralType::OpenParen, text: seq![c], next: (i + 1) as nat }
        } else if c == ')' {
            Scan::Tok { kind: LiteralType::CloseParen, text: seq![c], next: (i + 1) as nat }
        } else if c == '+' || c == '-' {
            Scan::Tok { kind: LiteralType::AdditiveOperator, text: seq![c], next: (i + 1) as nat }
        } else if c == '*' || c == '/' {
            Scan::Tok {
                kind: LiteralType::MultiplicativeOperator,
                text: seq![c],
                next: (i + 1) as nat,
            }
        } else if is_digit(c) {
            Scan::Tok {
                kind: LiteralType::Number,
                text: s.subrange(i as int, digits_end(s, i) as int),
                next: digits_end(s, i),
            }
        } else if c == '"' {
            match find_quote(s, (i + 1) as nat) {
                Some(q) => Scan::Tok {
                    kind: LiteralType::Str,
                    text: s.subrange(i as int, q as int + 1),
                    next: (q + 1) as nat,
                },
                None => Scan::Bad { pos: i },
            }
        } else {
            Scan::Bad { pos: i }
        }
    }
}

#[via_fn]
proof fn next_token_decreases(s: Seq<char>, i: nat) {
    lemma_line_end(s, (i + 2) as nat);
    lemma_find_close(s, (i + 2) as nat);
}

/// A scanning step never stands still: a token starts at or after the
/// cursor, its text is that non-empty stretch of the source, and the
/// cursor moves past it; a failure lies at or after the cursor.
pub proof fn lemma_next_token(s: Seq<char>, i: nat)
    requires
        i <= s.len(),
    ensures
        match next_token(s, i) {
            Scan::End => true,
            Scan::Bad { pos } => i <= pos < s.len(),
            Scan::Tok { kind, text, next } => {
                &&& i < next <= s.len()
                &&& text.len() > 0
                &&& i + text.len() <= next
                &&& text =~= s.subrange(next - text.len(), next as int)
            },
        },
    decreases s.len() - i,
{
    if i < s.len() {
        let c = s[i as int];
        if is_space(c) {
            lemma_next_token(s, (i + 1) as nat);
        } else if c == '/' && i + 1 < s.len() && s[i as int + 1] == '/' {
            lemma_line_end(s, (i + 2) as nat);
            lemma_next_token(s, line_end(s, (i + 2) as nat));
        } else if c == '/' && i + 1 < s.len() && s[i as int + 1] == '*' && find_close(
            s,
            (i + 2) as nat,
        ) is Some {
            lemma_find_close(s, (i + 2) as nat);
            lemma_next_token(s, (find_close(s, (i + 2) as nat).unwrap() + 2) as nat);
        } else if c == ';' || c == '{' || c == '}' || c == '(' || c == ')' || c == '+' || c == '-'
            || c == '*' || c == '/' {
            assert(seq![c] =~= s.subrange(i as int, i as int + 1));
        } else if is_digit(c) {
            lemma_digits_end(s, (i + 1) as nat);
            assert(digits_end(s, i) == digits_end(s, (i + 1) as nat));
        } else if c == '"' {
            lemma_find_quote(s, (i + 1) as nat);
        }
    }
}

/// The whole token stream of a source from a cursor: every token up to
/// the end of the input or to the first failure, and that failure's
/// position if there is one.
#[verifier::ext_equal]
pub struct TokenStream {
    pub toks: Seq<SpecToken>,
    pub bad: Option<nat>,
}

pub open spec fn stream(s: Seq<char>, i: nat) -> TokenStream
    decreases s.len() - i,
        via stream_decreases
{
    match next_token(s, i) {
        Scan::End => TokenStream { toks: Seq::empty(), bad: None },
        Scan::Bad { pos } => TokenStream { toks: Seq::empty(), bad: Some(pos) },
        Scan::Tok { kind, text, next } => {
            let rest = stream(s, next);
            TokenStream { toks: seq![SpecToken { kind, text }] + rest.toks, bad: rest.bad }
        },
    }
}

#[via_fn]
proof fn stream_decreases(s: Seq<char>, i: nat) {
    if i <= s.len() {
        lemma_next_token(s, i);
    }
}

/// What the parser can meet at position `k` of a stream: a token, the
/// end of the input, or the scanner's failure.
pub enum Pull {
    Tok { t: SpecToken },
    End,
    Bad { pos: nat },
}

/// The lookahead at position `k` of the stream. A failure is met only
/// once every token before it has been consumed: this is how lazily the
/// parser pulls from the scanner.
pub open spec fn pull(ts: TokenStream, k: nat) -> Pull {
    if k < ts.toks.len() {
        Pull::Tok { t: ts.toks[k as int] }
    } else {
        match ts.bad {
            Some(p) => Pull::Bad { pos: p },
            None => Pull::End,
        }
    }
}

/// One scanning step, read on the stream: the stream at a cursor starts
/// with the token scanned there, and the stream past that token is the
/// rest of it.
pub proof fn lemma_stream_step(s: Seq<char>, i: nat)
    requires
        i <= s.len(),
    ensures
        match next_token(s, i) {
            Scan::End => stream(s, i) == (TokenStream { toks: Seq::<SpecToken>::empty(), bad: None }),
            Scan::Bad { pos } => stream(s, i) == (TokenStream {
                toks: Seq::<SpecToken>::empty(),
                bad: Some(pos),
            }),
            Scan::Tok { kind, text, next } => {
                &&& stream(s, i).toks.len() > 0
                &&& stream(s, i).toks[0] == (SpecToken { kind, text })
                &&& next <= s.len()
                &&& stream(s, next) == (TokenStream {
                    toks: stream(s, i).toks.skip(1),
                    bad: stream(s, i).bad,
                })
            },
        },
{
    lemma_next_token(s, i);
    match next_token(s, i) {
        Scan::Tok { kind, text, next } => {
            let rest = stream(s, next);
            assert(stream(s, i).toks =~= seq![SpecToken { kind, text }] + rest.toks);
            assert(rest.toks =~= stream(s, i).toks.skip(1));
            assert(stream(s, next) =~= (TokenStream {
                toks: stream(s, i).toks.skip(1),
                bad: stream(s, i).bad,
            }));
        },
        _ => {},
    }
}

/// Whitespace is transparent: skipping one whitespace character leaves
/// the token stream unchanged.
pub proof fn lemma_space_transparent(s: Seq<char>, i: nat)
    requires
        i < s.len(),
        is_space(s[i as int]),
    ensures
        stream(s, i) == stream(s, (i + 1) as nat),
{
    assert(next_token(s, i) == next_token(s, (i + 1) as nat));
    assert(stream(s, i) =~= stream(s, (i + 1) as nat));
}

/// A line comment is transparent: the token stream from its `//` is the
/// token stream from the end of its line.
pub proof fn lemma_line_comment_transparent(s: Seq<char>, i: nat)
    requires
        i + 1 < s.len(),
        s[i as int] == '/',
        s[i as int + 1] == '/',
    ensures
        stream(s, i) == stream(s, line_end(s, (i + 2) as nat)),
{
    assert(next_token(s, i) == next_token(s, line_end(s, (i + 2) as nat)));
    assert(stream(s, i) =~= stream(s, line_end(s, (i + 2) as nat)));
}

/// A closed block comment is transparent: the token stream from its `/*`
/// is the token stream from just past its first `*/`.
pub proof fn lemma_block_comment_transparent(s: Seq<char>, i: nat)
    requires
        i + 1 < s.len(),
        s[i as int] == '/',
        s[i as int + 1] == '*',
        find_close(s, (i + 2) as nat) is Some,
    ensures
        stream(s, i) == stream(s, (find_close(s, (i + 2) as nat).unwrap() + 2) as nat),
{
    assert(next_token(s, i) == next_token(
        s,
        (find_close(s, (i + 2) as nat).unwrap() + 2) as nat,
    ));
    assert(stream(s, i) =~= stream(s, (find_close(s, (i + 2) as nat).unwrap() + 2) as nat));
}

} // verus!
