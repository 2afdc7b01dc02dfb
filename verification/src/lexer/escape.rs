//! Escape sequences (`\n`, `\u{1F600}`, ...) in character literals.
use vstd::prelude::*;

use crate::diagnostics::{diag_is, Diagnostic};
use crate::lexer::grammar::{digit_value, digits_value, lemma_scan_while_bounds, scan_while};
use crate::lexer::token::{Span, Token, TokenKind};
use crate::lexer::{byte_offset, one_more_diag, one_more_token, span_between, Lexer};
use crate::text::{char_from_u32, is_ascii_hexdigit, spec_is_ascii_hexdigit};

verus! {

/// The code point a one-letter escape `\c` stands for.
pub open spec fn simple_escape(c: char) -> Option<u32> {
    if c == 'n' {
        Some(10)
    } else if c == 't' {
        Some(9)
    } else if c == 'r' {
        Some(13)
    } else if c == '0' {
        Some(0)
    } else if c == '\\' || c == '\'' || c == '"' || c == '#' {
        Some(c as u32)
    } else {
        None
    }
}

pub open spec fn hex_pred() -> spec_fn(char) -> bool {
    |c: char| spec_is_ascii_hexdigit(c)
}

/// `16^n`.
pub open spec fn pow16(n: nat) -> nat
    decreases n,
{
    if n == 0 {
        1
    } else {
        16 * pow16((n - 1) as nat)
    }
}

/// Decoding the escape whose backslash is at `i`: its code point and the
/// position after it, or `None` when it is not a valid escape. Valid are
/// `\n`, `\t`, `\r`, `\0`, `\\`, `\'`, `\"`, `\#` and `\u{H}` with one to
/// six hex digits `H` naming a Unicode scalar value.
pub open spec fn escape_at(s: Seq<char>, i: int) -> Option<(u32, int)> {
    if i + 1 < s.len() && simple_escape(s[i + 1]) is Some {
        Some((simple_escape(s[i + 1])->0, i + 2))
    } else if i + 2 < s.len() && s[i + 1] == 'u' && s[i + 2] == '{' {
        let h = scan_while(s, i + 3, hex_pred());
        let v = digits_value(s.subrange(i + 3, h), 16);
        if 1 <= h - (i + 3) <= 6 && h < s.len() && s[h] == '}' && v <= 0x10FFFF && !(0xD800 <= v
            <= 0xDFFF) {
            Some((v as u32, h + 1))
        } else {
            None
        }
    } else {
        None
    }
}

/// Where an invalid escape whose backslash is at `i` ends: after the
/// backslash and the character after it, if any.
pub open spec fn invalid_escape_end(s: Seq<char>, i: int) -> int {
    if i + 1 < s.len() {
        i + 2
    } else {
        i + 1
    }
}

/// `new` has one more token than `tokens`, spanning from the given start to
/// position `e` of `s` where the cursor now is, and no diagnostic beyond
/// `diags`.
pub open spec fn token_through(
    s: Seq<char>,
    tokens: Seq<Token>,
    diags: Seq<Diagnostic>,
    new: Lexer,
    e: int,
    start_byte: usize,
    start_line: u32,
    start_col: u32,
) -> bool {
    &&& new.pos == e
    &&& new.diagnostics@ == diags
    &&& one_more_token(tokens, new.tokens@)
    &&& new.tokens@.last().span == (Span {
        start: start_byte,
        end: byte_offset(s, e) as usize,
        line: start_line,
        column: start_col,
    })
}

/// The effect of lexing, from source `s`, a `?c` / `?\escape` character
/// literal whose character (or backslash) is at `p`, when the lexer had
/// emitted `tokens` and reported `diags`; `new` is the lexer afterwards.
pub open spec fn question_char_effect_from(
    s: Seq<char>,
    p: int,
    tokens: Seq<Token>,
    diags: Seq<Diagnostic>,
    new: Lexer,
    start_byte: usize,
    start_line: u32,
    start_col: u32,
) -> bool {
    &&& new.wf()
    &&& new.chars@ == s
    &&& if s[p] != '\\' {
        &&& token_through(s, tokens, diags, new, p + 1, start_byte, start_line, start_col)
        &&& new.tokens@.last().kind == TokenKind::CharLiteral(s[p])
    } else {
        match escape_at(s, p) {
            Some((code, e)) => {
                &&& token_through(s, tokens, diags, new, e, start_byte, start_line, start_col)
                &&& new.tokens@.last().kind matches TokenKind::CharLiteral(c) && c as u32 == code
            },
            None => {
                &&& new.pos == invalid_escape_end(s, p)
                &&& new.tokens@ == tokens
                &&& one_more_diag(diags, new.diagnostics@)
                &&& diag_is(
                    new.diagnostics@.last(),
                    "invalid escape sequence"@,
                    "E0003"@,
                    span_between(s, p, invalid_escape_end(s, p)),
                )
            },
        }
    }
}

/// The effect of lexing a character literal from `old`, whose cursor is on
/// the character after the `?`.
pub open spec fn question_char_effect(old: Lexer, new: Lexer, start_byte: usize, start_line: u32, start_col: u32) -> bool {
    question_char_effect_from(old.chars@, old.pos as int, old.tokens@, old.diagnostics@, new, start_byte, start_line, start_col)
}

/// `c` itself. Passed through a call, a character taken out of a `Result`
/// is known to the verifier as a valid `char` again.
fn same_char(c: char) -> (r: char)
    ensures
        r == c,
{
    c
}

/// The value of hex digit `c`.
fn hex_digit_value(c: char) -> (r: u32)
    requires
        spec_is_ascii_hexdigit(c),
    ensures
        r == digit_value(c),
        r < 16,
{
    if '0' <= c && c <= '9' {
        (c as u32) - ('0' as u32)
    } else if 'a' <= c && c <= 'f' {
        (c as u32) - ('a' as u32) + 10
    } else {
        (c as u32) - ('A' as u32) + 10
    }
}

impl Lexer {
    /// Decode the escape sequence at the cursor (its backslash). On an
    /// invalid escape, report it (`E0003`), consume the backslash and the
    /// character after it, and give `Err`.
    pub fn lex_escape_sequence(&mut self) -> (r: Result<char, ()>)
        requires
            old(self).wf(),
            old(self).pos < old(self).chars@.len(),
            old(self).chars@[old(self).pos as int] == '\\',
        ensures
            final(self).wf(),
            final(self).chars@ == old(self).chars@,
            final(self).tokens@ == old(self).tokens@,
            match escape_at(old(self).chars@, old(self).pos as int) {
                Some((code, e)) => {
                    &&& r matches Ok(c) && c as u32 == code
                    &&& final(self).pos == e
                    &&& final(self).diagnostics@ == old(self).diagnostics@
                },
                None => {
                    let e = invalid_escape_end(old(self).chars@, old(self).pos as int);
                    &&& r is Err
                    &&& final(self).pos == e
                    &&& one_more_diag(old(self).diagnostics@, final(self).diagnostics@)
                    &&& diag_is(
                        final(self).diagnostics@.last(),
                        "invalid escape sequence"@,
                        "E0003"@,
                        span_between(old(self).chars@, old(self).pos as int, e),
                    )
                },
            },
    {
        let ghost s = self.chars@;
        let ghost p = self.pos as int;
        let start_byte = self.byte_pos;
        let start_line = self.line;
        let start_col = self.column;
        proof {
            reveal_strlit("invalid escape sequence");
        }
        self.advance();
        if !self.is_at_end() {
            let c = self.current();
            let simple: Option<char> = if c == 'n' {
                Some('\n')
            } else if c == 't' {
                Some('\t')
            } else if c == 'r' {
                Some('\r')
            } else if c == '0' {
                Some('\0')
            } else if c == '\\' || c == '\'' || c == '"' || c == '#' {
                Some(c)
            } else {
                None
            };
            match simple {
                Some(v) => {
                    self.advance();
                    return Ok(v);
                },
                None => {},
            }
            if c == 'u' && self.peek_at(1) == Some('{') {
                match self.lex_unicode_escape() {
                    Some(v) => {
                        return Ok(v);
                    },
                    None => {},
                }
            }
            self.advance();
        }
        let span = self.make_span(start_byte, start_line, start_col);
        self.report(Diagnostic::error_with_code(String::from_str("invalid escape sequence"), span, "E0003"));
        Err(())
    }

    /// With the cursor on the `u` of `\u{...}`: decode the escape and move
    /// past its `}` when it is valid; leave the cursor unchanged when not.
    fn lex_unicode_escape(&mut self) -> (r: Option<char>)
        requires
            old(self).wf(),
            2 <= old(self).pos + 1 < old(self).chars@.len(),
            old(self).chars@[old(self).pos - 1] == '\\',
            old(self).chars@[old(self).pos as int] == 'u',
            old(self).chars@[old(self).pos + 1] == '{',
        ensures
            final(self).wf(),
            final(self).chars@ == old(self).chars@,
            final(self).tokens@ == old(self).tokens@,
            final(self).diagnostics@ == old(self).diagnostics@,
            match escape_at(old(self).chars@, old(self).pos - 1) {
                Some((code, e)) => r matches Some(c) && c as u32 == code && final(self).pos == e,
                None => r is None && final(self).pos == old(self).pos,
            },
    {
        let ghost s = self.chars@;
        let ghost i = self.pos - 1;
        let d0 = self.pos + 2;
        let n = self.chars.len();
        proof {
            lemma_scan_while_bounds(s, d0 as int, hex_pred());
        }
        let mut h = d0;
        while h < n && is_ascii_hexdigit(self.chars[h])
            invariant
                n == s.len(),
                self.chars@ == s,
                d0 <= h <= n,
                scan_while(s, h as int, hex_pred()) == scan_while(s, d0 as int, hex_pred()),
            decreases n - h,
        {
            h = h + 1;
        }
        if h == d0 || h - d0 > 6 || h >= n || self.chars[h] != '}' {
            return None;
        }
        let mut v: u32 = 0;
        let mut k = d0;
        while k < h
            invariant
                self.chars@ == s,
                d0 <= k <= h,
                h - d0 <= 6,
                h < s.len(),
                forall|j: int| d0 <= j < h ==> spec_is_ascii_hexdigit(#[trigger] s[j]),
                v == digits_value(s.subrange(d0 as int, k as int), 16),
                v < pow16((k - d0) as nat),
                pow16((k - d0) as nat) <= pow16(6) || k == d0,
            decreases h - k,
        {
            let dv = hex_digit_value(self.chars[k]);
            assert(s.subrange(d0 as int, k + 1).drop_last() =~= s.subrange(d0 as int, k as int));
            assert(pow16(6) == 16777216) by {
                reveal_with_fuel(pow16, 7);
            }
            proof {
                let pk = pow16((k - d0) as nat);
                assert(pow16((k + 1 - d0) as nat) == 16 * pk);
                assert(pk <= 1048576) by {
                    reveal_with_fuel(pow16, 7);
                    if k - d0 == 0 {
                    } else if k - d0 == 1 {
                    } else if k - d0 == 2 {
                    } else if k - d0 == 3 {
                    } else if k - d0 == 4 {
                    } else {
                        assert(k - d0 == 5);
                    }
                }
                assert(v * 16 + dv < 16 * pk) by (nonlinear_arith)
                    requires
                        v < pk,
                        dv < 16,
                ;
            }
            v = v * 16 + dv;
            k = k + 1;
        }
        match char_from_u32(v) {
            Some(c) => {
                while self.pos <= h
                    invariant
                        self.wf(),
                        self.chars@ == s,
                        self.tokens@ == old(self).tokens@,
                        self.diagnostics@ == old(self).diagnostics@,
                        old(self).pos <= self.pos <= h + 1,
                        h < s.len(),
                    decreases h + 1 - self.pos,
                {
                    self.advance();
                }
                Some(c)
            },
            None => None,
        }
    }

    /// The escape branch of `lex_question_char`.
    fn lex_escaped_char(&mut self, start_byte: usize, start_line: u32, start_col: u32)
        requires
            old(self).wf(),
            old(self).pos < old(self).chars@.len(),
            old(self).chars@[old(self).pos as int] == '\\',
        ensures
            question_char_effect(*old(self), *final(self), start_byte, start_line, start_col),
    {
        match self.lex_escape_sequence() {
            Ok(c) => {
                let ch = same_char(c);
                self.emit(TokenKind::CharLiteral(ch), start_byte, start_line, start_col);
            },
            Err(()) => {},
        }
    }

    /// Lex a `?a` / `?\n` character literal; the `?` (which started at the
    /// given position) has been consumed and the cursor is on the character
    /// or on the backslash of an escape. An invalid escape emits no token.
    pub fn lex_question_char(&mut self, start_byte: usize, start_line: u32, start_col: u32)
        requires
            old(self).wf(),
            old(self).pos < old(self).chars@.len(),
        ensures
            question_char_effect(*old(self), *final(self), start_byte, start_line, start_col),
    {
        if self.current() == '\\' {
            self.lex_escaped_char(start_byte, start_line, start_col);
        } else {
            let ch = self.advance();
            self.emit(TokenKind::CharLiteral(ch), start_byte, start_line, start_col);
        }
    }
}

} // verus!
