//! The lexer: source characters to tokens.
//!
//! A `Lexer` holds the source as characters and a cursor. Spans are derived
//! from the cursor: byte offset (UTF-8), 1-based line and 1-based column
//! (counted in characters).
use vstd::prelude::*;

use crate::diagnostics::Diagnostic;
use crate::lexer::token::{Span, Token, TokenKind};
use crate::text::{len_utf8, utf8_len};

pub mod escape;
pub mod format_specs;
pub mod grammar;
pub mod ops;
pub mod regex;
pub mod token;
pub mod tokens;

verus! {

/// The UTF-8 byte offset of character position `i`.
pub open spec fn byte_offset(s: Seq<char>, i: int) -> nat
    decreases i,
{
    if i <= 0 {
        0
    } else {
        byte_offset(s, i - 1) + utf8_len(s[i - 1])
    }
}

/// The 1-based line of character position `i`.
pub open spec fn line_at(s: Seq<char>, i: int) -> nat
    decreases i,
{
    if i <= 0 {
        1
    } else {
        line_at(s, i - 1) + if s[i - 1] == '\n' { 1nat } else { 0nat }
    }
}

/// The 1-based column of character position `i`.
pub open spec fn column_at(s: Seq<char>, i: int) -> nat
    decreases i,
{
    if i <= 0 {
        1
    } else if s[i - 1] == '\n' {
        1
    } else {
        column_at(s, i - 1) + 1
    }
}

/// The span of the characters `a..b`.
pub open spec fn span_between(s: Seq<char>, a: int, b: int) -> Span {
    Span {
        start: byte_offset(s, a) as usize,
        end: byte_offset(s, b) as usize,
        line: line_at(s, a) as u32,
        column: column_at(s, a) as u32,
    }
}

pub proof fn lemma_position_bounds(s: Seq<char>, i: int)
    requires
        0 <= i,
    ensures
        byte_offset(s, i) <= 4 * i,
        line_at(s, i) <= i + 1,
        column_at(s, i) <= i + 1,
        1 <= line_at(s, i),
        1 <= column_at(s, i),
    decreases i,
{
    if i > 0 {
        lemma_position_bounds(s, i - 1);
    }
}

/// The lexer state.
pub struct Lexer {
    /// The source, as characters.
    pub chars: Vec<char>,
    /// The cursor: the index of the next character.
    pub pos: usize,
    /// The byte offset of the cursor.
    pub byte_pos: usize,
    /// The line of the cursor.
    pub line: u32,
    /// The column of the cursor.
    pub column: u32,
    /// The tokens emitted so far.
    pub tokens: Vec<Token>,
    /// The diagnostics reported so far.
    pub diagnostics: Vec<Diagnostic>,
}

/// `new` is `old` with one more token at the end.
pub open spec fn one_more_token(old: Seq<Token>, new: Seq<Token>) -> bool {
    new.len() == old.len() + 1 && new.take(old.len() as int) == old
}

/// `new` is `old` with one more diagnostic at the end.
pub open spec fn one_more_diag(old: Seq<Diagnostic>, new: Seq<Diagnostic>) -> bool {
    new.len() == old.len() + 1 && new.take(old.len() as int) == old
}

/// Two lexer states over the same source, with the same tokens and diagnostics.
pub open spec fn same_output(a: Lexer, b: Lexer) -> bool {
    a.chars@ == b.chars@ && a.tokens@ == b.tokens@ && a.diagnostics@ == b.diagnostics@
}

impl Lexer {
    /// The cursor's position fields agree with the cursor, and the source is
    /// small enough for them to be represented.
    pub open spec fn wf(&self) -> bool {
        &&& self.chars@.len() < u32::MAX
        &&& 4 * self.chars@.len() <= usize::MAX
        &&& self.pos <= self.chars@.len()
        &&& self.byte_pos == byte_offset(self.chars@, self.pos as int)
        &&& self.line == line_at(self.chars@, self.pos as int)
        &&& self.column == column_at(self.chars@, self.pos as int)
    }

    /// A lexer at the start of `source`.
    pub fn new(source: &str) -> (l: Lexer)
        requires
            source@.len() < u32::MAX,
            4 * source@.len() <= usize::MAX,
        ensures
            l.wf(),
            l.chars@ == source@,
            l.pos == 0,
            l.tokens@.len() == 0,
            l.diagnostics@.len() == 0,
    {
        let n = source.unicode_len();
        let mut chars: Vec<char> = Vec::new();
        let mut i: usize = 0;
        while i < n
            invariant
                n == source@.len(),
                i <= n,
                chars@ == source@.subrange(0, i as int),
            decreases n - i,
        {
            chars.push(source.get_char(i));
            i = i + 1;
            assert(chars@ =~= source@.subrange(0, i as int));
        }
        assert(chars@ =~= source@);
        Lexer {
            chars,
            pos: 0,
            byte_pos: 0,
            line: 1,
            column: 1,
            tokens: Vec::new(),
            diagnostics: Vec::new(),
        }
    }

    /// The cursor is at the end of the source.
    pub fn is_at_end(&self) -> (r: bool)
        requires
            self.wf(),
        ensures
            r == (self.pos >= self.chars@.len()),
    {
        self.pos >= self.chars.len()
    }

    /// The character at the cursor.
    pub fn current(&self) -> (c: char)
        requires
            self.wf(),
            self.pos < self.chars@.len(),
        ensures
            c == self.chars@[self.pos as int],
    {
        self.chars[self.pos]
    }

    /// The character `n` places after the cursor, if any.
    pub fn peek_at(&self, n: usize) -> (r: Option<char>)
        requires
            self.wf(),
        ensures
            r == (if self.pos + n < self.chars@.len() {
                Some(self.chars@[self.pos + n])
            } else {
                None
            }),
    {
        if n < self.chars.len() - self.pos {
            Some(self.chars[self.pos + n])
        } else {
            None
        }
    }

    /// Consume the character at the cursor and return it.
    pub fn advance(&mut self) -> (c: char)
        requires
            old(self).wf(),
            old(self).pos < old(self).chars@.len(),
        ensures
            final(self).wf(),
            same_output(*old(self), *final(self)),
            final(self).pos == old(self).pos + 1,
            c == old(self).chars@[old(self).pos as int],
    {
        let c = self.chars[self.pos];
        proof {
            lemma_position_bounds(self.chars@, self.pos + 1);
        }
        self.pos = self.pos + 1;
        self.byte_pos = self.byte_pos + len_utf8(c);
        if c == '\n' {
            self.line = self.line + 1;
            self.column = 1;
        } else {
            self.column = self.column + 1;
        }
        c
    }

    /// The span from the given start to the cursor.
    pub fn make_span(&self, start_byte: usize, start_line: u32, start_col: u32) -> (s: Span)
        requires
            self.wf(),
        ensures
            s == (Span { start: start_byte, end: self.byte_pos, line: start_line, column: start_col }),
    {
        Span { start: start_byte, end: self.byte_pos, line: start_line, column: start_col }
    }

    /// Emit a token spanning from the given start to the cursor.
    pub fn emit(&mut self, kind: TokenKind, start_byte: usize, start_line: u32, start_col: u32)
        requires
            old(self).wf(),
        ensures
            final(self).wf(),
            final(self).chars@ == old(self).chars@,
            final(self).pos == old(self).pos,
            final(self).diagnostics@ == old(self).diagnostics@,
            final(self).tokens@ == old(self).tokens@.push(
                Token {
                    kind,
                    span: Span {
                        start: start_byte,
                        end: old(self).byte_pos,
                        line: start_line,
                        column: start_col,
                    },
                },
            ),
            one_more_token(old(self).tokens@, final(self).tokens@),
    {
        let span = self.make_span(start_byte, start_line, start_col);
        self.tokens.push(Token::new(kind, span));
        assert(self.tokens@.take(old(self).tokens@.len() as int) =~= old(self).tokens@);
    }

    /// Report a diagnostic.
    pub fn report(&mut self, d: Diagnostic)
        requires
            old(self).wf(),
        ensures
            final(self).wf(),
            final(self).chars@ == old(self).chars@,
            final(self).pos == old(self).pos,
            final(self).tokens@ == old(self).tokens@,
            final(self).diagnostics@ == old(self).diagnostics@.push(d),
            one_more_diag(old(self).diagnostics@, final(self).diagnostics@),
    {
        self.diagnostics.push(d);
        assert(self.diagnostics@.take(old(self).diagnostics@.len() as int) =~= old(self).diagnostics@);
    }
}

} // verus!
