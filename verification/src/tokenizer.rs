//! The scanner: lazily pulls one token at a time from a source string,
//! proved to yield exactly what the scanning model of [`crate::scan`]
//! says.

use vstd::prelude::*;

use crate::ast::Literal;
use crate::ast::LiteralType;
use crate::ast::LiteralValue;
use crate::ast::ParseError;
use crate::ast::SpecToken;
use crate::ast::is_token;
use crate::scan::Scan;
use crate::scan::digits_end;
use crate::scan::find_close;
use crate::scan::find_quote;
use crate::scan::is_digit;
use crate::scan::is_space;
use crate::scan::lemma_digits_end;
use crate::scan::lemma_find_close;
use crate::scan::lemma_find_quote;
use crate::scan::lemma_line_end;
use crate::scan::line_end;
use crate::scan::next_token;

verus! {

/// A decimal digit, decided as the model decides it.
fn digit(c: char) -> (b: bool)
    ensures
        b == is_digit(c),
{
    let u = c as u32;
    48 <= u && u <= 57
}

/// The characters of `s` from `from` to `to`, as an owned string.
fn text_of(s: &str, from: usize, to: usize) -> (t: String)
    requires
        from <= to <= s@.len(),
    ensures
        t@ == s@.subrange(from as int, to as int),
{
    String::from_str(s.substring_char(from, to))
}

/// The first newline at or after `from`, or the end of `s`.
fn scan_line_end(s: &str, from: usize) -> (j: usize)
    requires
        from <= s@.len(),
    ensures
        j == line_end(s@, from as nat),
{
    let n = s.unicode_len();
    let mut j = from;
    loop
        invariant
            from <= j <= n,
            n == s@.len(),
            line_end(s@, from as nat) == line_end(s@, j as nat),
        decreases n - j,
    {
        if j >= n {
            return j;
        }
        if s.get_char(j) == '\n' {
            return j;
        }
        j = j + 1;
    }
}

/// The `*` of the first `*/` at or after `from`, if any.
fn scan_close(s: &str, from: usize) -> (r: Option<usize>)
    requires
        from <= s@.len(),
    ensures
        match find_close(s@, from as nat) {
            Some(j) => r == Some(j as usize),
            None => r is None,
        },
{
    let n = s.unicode_len();
    let mut j = from;
    loop
        invariant
            from <= j <= n,
            n == s@.len(),
            find_close(s@, from as nat) == find_close(s@, j as nat),
        decreases n - j,
    {
        if j >= n {
            return None;
        }
        if j + 1 >= n {
            return None;
        }
        if s.get_char(j) == '*' && s.get_char(j + 1) == '/' {
            return Some(j);
        }
        j = j + 1;
    }
}

/// The first `"` at or after `from`, if any.
fn scan_quote(s: &str, from: usize) -> (r: Option<usize>)
    requires
        from <= s@.len(),
    ensures
        match find_quote(s@, from as nat) {
            Some(j) => r == Some(j as usize),
            None => r is None,
        },
{
    let n = s.unicode_len();
    let mut j = from;
    loop
        invariant
            from <= j <= n,
            n == s@.len(),
            find_quote(s@, from as nat) == find_quote(s@, j as nat),
        decreases n - j,
    {
        if j >= n {
            return None;
        }
        if s.get_char(j) == '"' {
            return Some(j);
        }
        j = j + 1;
    }
}

/// The end of the run of digits at or after `from`.
fn scan_digits(s: &str, from: usize) -> (j: usize)
    requires
        from <= s@.len(),
    ensures
        j == digits_end(s@, from as nat),
{
    let n = s.unicode_len();
    let mut j = from;
    loop
        invariant
            from <= j <= n,
            n == s@.len(),
            digits_end(s@, from as nat) == digits_end(s@, j as nat),
        decreases n - j,
    {
        if j >= n {
            return j;
        }
        if !digit(s.get_char(j)) {
            return j;
        }
        j = j + 1;
    }
}

/// The scanner: the source and a cursor that only ever moves forward
/// over it.
pub struct Tokenizer {
    pub string: String,
    pub cursor: usize,
}

impl Tokenizer {
    /// The cursor is a character position inside the source, never past
    /// its end.
    pub open spec fn wf(self) -> bool {
        self.cursor <= self.string@.len()
    }

    /// A fresh scanner over `string`, with the cursor at its start.
    pub fn new(string: String) -> (t: Tokenizer)
        ensures
            t.wf(),
            t.string@ == string@,
            t.cursor == 0,
    {
        Tokenizer { string, cursor: 0 }
    }

    /// Whether the cursor has reached the end of the source. Text that
    /// remains may still be all whitespace and comments: scanning it
    /// yields no further token.
    pub fn has_more_tokens(&self) -> (b: bool)
        ensures
            b == (self.cursor < self.string@.len()),
    {
        self.cursor < self.string.as_str().unicode_len()
    }

    /// The next token of the source, skipping whitespace and comments:
    /// exactly what the scanning model yields at the cursor. `Ok(None)`
    /// is the end of the input; the error is the position where no
    /// scanning rule matched.
    pub fn get_next_token(&mut self) -> (r: Result<Option<Literal>, ParseError>)
        requires
            old(self).wf(),
        ensures
            final(self).wf(),
            final(self).string == old(self).string,
            match next_token(old(self).string@, old(self).cursor as nat) {
                Scan::End => r == Ok::<Option<Literal>, ParseError>(None),
                Scan::Bad { pos } => match r {
                    Err(ParseError::LexicalError { position }) => position == pos,
                    _ => false,
                },
                Scan::Tok { kind, text, next } => {
                    &&& final(self).cursor == next
                    &&& match r {
                        Ok(Some(l)) => is_token(l, SpecToken { kind, text }),
                        _ => false,
                    }
                },
            },
    {
        loop
            invariant
                self.wf(),
                self.string == old(self).string,
                self.cursor >= old(self).cursor,
                next_token(self.string@, self.cursor as nat) == next_token(
                    old(self).string@,
                    old(self).cursor as nat,
                ),
            decreases self.string@.len() - self.cursor,
        {
            let n = self.string.as_str().unicode_len();
            if self.cursor >= n {
                return Ok(None);
            }
            let start = self.cursor;
            let c = self.string.as_str().get_char(start);
            if c == ' ' || c == '\t' || c == '\n' || c == '\r' || c == '\u{b}' || c == '\u{c}' {
                self.cursor = start + 1;
            } else if c == '/' && start + 1 < n && self.string.as_str().get_char(start + 1)
                == '/' {
                let j = scan_line_end(self.string.as_str(), start + 2);
                proof {
                    lemma_line_end(self.string@, (start + 2) as nat);
                }
                self.cursor = j;
            } else if c == '/' && start + 1 < n && self.string.as_str().get_char(start + 1)
                == '*' {
                match scan_close(self.string.as_str(), start + 2) {
                    Some(j) => {
                        proof {
                            lemma_find_close(self.string@, (start + 2) as nat);
                        }
                        self.cursor = j + 2;
                    },
                    None => {
                        // No closer anywhere ahead: the comment rule fails
                        // and `/` scans as a multiplicative operator.
                        let text = text_of(self.string.as_str(), start, start + 1);
                        proof {
                            assert(self.string@.subrange(start as int, start as int + 1)
                                =~= seq![c]);
                        }
                        self.cursor = start + 1;
                        return Ok(
                            Some(
                                Literal {
                                    literal_type: LiteralType::MultiplicativeOperator,
                                    value: LiteralValue::Value(text),
                                },
                            ),
                        );
                    },
                }
            } else {
                let single: Option<LiteralType> = if c == ';' {
                    Some(LiteralType::Semicolon)
                } else if c == '{' {
                    Some(LiteralType::OpenBrace)
                } else if c == '}' {
                    Some(LiteralType::CloseBrace)
                } else if c == '(' {
                    Some(LiteralType::OpenParen)
                } else if c == ')' {
                    Some(LiteralType::CloseParen)
                } else if c == '+' || c == '-' {
                    Some(LiteralType::AdditiveOperator)
                } else if c == '*' || c == '/' {
                    Some(LiteralType::MultiplicativeOperator)
                } else {
                    None
                };
                match single {
                    Some(kind) => {
                        let text = text_of(self.string.as_str(), start, start + 1);
                        proof {
                            assert(self.string@.subrange(start as int, start as int + 1)
                                =~= seq![c]);
                        }
                        self.cursor = start + 1;
                        return Ok(
                            Some(Literal { literal_type: kind, value: LiteralValue::Value(text) }),
                        );
                    },
                    None => {
                        if digit(c) {
                            let j = scan_digits(self.string.as_str(), start + 1);
                            proof {
                                lemma_digits_end(self.string@, (start + 1) as nat);
                                assert(digits_end(self.string@, start as nat) == digits_end(
                                    self.string@,
                                    (start + 1) as nat,
                                ));
                            }
                            let text = text_of(self.string.as_str(), start, j);
                            self.cursor = j;
                            return Ok(
                                Some(
                                    Literal {
                                        literal_type: LiteralType::Number,
                                        value: LiteralValue::Value(text),
                                    },
                                ),
                            );
                        } else if c == '"' {
                            match scan_quote(self.string.as_str(), start + 1) {
                                Some(q) => {
                                    proof {
                                        lemma_find_quote(self.string@, (start + 1) as nat);
                                    }
                                    let text = text_of(self.string.as_str(), start, q + 1);
                                    self.cursor = q + 1;
                                    return Ok(
                                        Some(
                                            Literal {
                                                literal_type: LiteralType::Str,
                                                value: LiteralValue::Value(text),
                                            },
                                        ),
                                    );
                                },
                                None => {
                                    return Err(ParseError::LexicalError { position: start });
                                },
                            }
                        } else {
                            return Err(ParseError::LexicalError { position: start });
                        }
                    },
                }
            }
        }
    }
}

} // verus!
