//! Operators and punctuation.
use vstd::prelude::*;

use crate::diagnostics::{diag_is, Diagnostic};
use crate::lexer::escape::question_char_effect_from;
use crate::lexer::regex::regex_effect_from;
use crate::lexer::token::{Span, Token, TokenKind};
use crate::lexer::{byte_offset, column_at, line_at, one_more_diag, one_more_token, span_between, Lexer};
use crate::text::{is_ascii_alphanumeric, push_char, spec_is_ascii_alphanumeric};

verus! {

/// After this token (or at the start of the source, `None`) an expression
/// may begin, so a `/` opens a regex literal and `?a` is a character literal.
pub open spec fn spec_starts_expr_context(prev: Option<TokenKind>) -> bool {
    match prev {
        None => true,
        Some(t) => {
            ||| t is Eof
            ||| t is Newline
            ||| t is LParen
            ||| t is LBracket
            ||| t is LBrace
            ||| t is Comma
            ||| t is Semicolon
            ||| t is Colon
            ||| t is FatArrow
            ||| t is Arrow
            ||| t is Eq
            ||| t is EqEq
            ||| t is NotEq
            ||| t is Lt
            ||| t is Gt
            ||| t is LtEq
            ||| t is GtEq
            ||| t is Plus
            ||| t is Minus
            ||| t is Star
            ||| t is SlashEq
            ||| t is Percent
            ||| t is AmpAmp
            ||| t is PipePipe
            ||| t is Bang
            ||| t is TildeEq
            ||| t is If
            ||| t is While
            ||| t is Match
            ||| t is Return
            ||| t is When
            ||| t is Else
            ||| t is Elsif
            ||| t is In
            ||| t is Do
            ||| t is Unless
        },
    }
}

/// Is the previous token (`None` at the start of the source) one after
/// which an expression may begin?
pub fn prev_token_starts_expr_context(prev: Option<&TokenKind>) -> (r: bool)
    ensures
        r == spec_starts_expr_context(match prev {
            Some(t) => Some(*t),
            None => None,
        }),
{
    match prev {
        None => true,
        Some(t) => match t {
            TokenKind::Eof | TokenKind::Newline | TokenKind::LParen | TokenKind::LBracket
            | TokenKind::LBrace | TokenKind::Comma | TokenKind::Semicolon | TokenKind::Colon
            | TokenKind::FatArrow | TokenKind::Arrow | TokenKind::Eq | TokenKind::EqEq
            | TokenKind::NotEq | TokenKind::Lt | TokenKind::Gt | TokenKind::LtEq | TokenKind::GtEq
            | TokenKind::Plus | TokenKind::Minus | TokenKind::Star | TokenKind::SlashEq
            | TokenKind::Percent | TokenKind::AmpAmp | TokenKind::PipePipe | TokenKind::Bang
            | TokenKind::TildeEq | TokenKind::If | TokenKind::While | TokenKind::Match
            | TokenKind::Return | TokenKind::When | TokenKind::Else | TokenKind::Elsif
            | TokenKind::In | TokenKind::Do | TokenKind::Unless => true,
            _ => false,
        },
    }
}

/// What lexing an operator or punctuation character does.
pub enum OpOutcome {
    /// Emit this token, spanning to position `end`.
    Emit(TokenKind, int),
    /// `..=`: report `E0009` and emit `..`, both spanning to `end`.
    RetiredInclusiveRange(int),
    /// The `/` opens a regex literal.
    Regex,
    /// The `?` opens a character literal.
    CharLiteral,
    /// A `\` before a newline: consume both, emit nothing.
    Continuation(int),
    /// Report `E0006` for the unexpected character `c`, spanning to `end`.
    Unexpected(char, int),
}

/// Position `i` of `s` holds `c`.
pub open spec fn char_at(s: Seq<char>, i: int, c: char) -> bool {
    0 <= i < s.len() && s[i] == c
}

/// One character, or two when the second is `second`.
pub open spec fn one_or_two(s: Seq<char>, p0: int, second: char, two: TokenKind, one: TokenKind) -> OpOutcome {
    if char_at(s, p0 + 1, second) {
        OpOutcome::Emit(two, p0 + 2)
    } else {
        OpOutcome::Emit(one, p0 + 1)
    }
}

/// One character, or two when the second is `a` (preferred) or `b`.
pub open spec fn one_or_two_of(
    s: Seq<char>,
    p0: int,
    a: char,
    two_a: TokenKind,
    b: char,
    two_b: TokenKind,
    one: TokenKind,
) -> OpOutcome {
    if char_at(s, p0 + 1, a) {
        OpOutcome::Emit(two_a, p0 + 2)
    } else if char_at(s, p0 + 1, b) {
        OpOutcome::Emit(two_b, p0 + 2)
    } else {
        OpOutcome::Emit(one, p0 + 1)
    }
}

/// `&var` as a whole word starts at `p0`.
pub open spec fn amp_var_at(s: Seq<char>, p0: int) -> bool {
    &&& char_at(s, p0 + 1, 'v')
    &&& char_at(s, p0 + 2, 'a')
    &&& char_at(s, p0 + 3, 'r')
    &&& !(p0 + 4 < s.len() && (spec_is_ascii_alphanumeric(s[p0 + 4]) || s[p0 + 4] == '_'))
}

/// Lexing the operator or punctuation character at `p0`; `expr_ctx` tells
/// whether an expression may begin there.
pub open spec fn op_outcome(s: Seq<char>, p0: int, expr_ctx: bool) -> OpOutcome {
    let c = s[p0];
    if c == '+' {
        one_or_two(s, p0, '=', TokenKind::PlusEq, TokenKind::Plus)
    } else if c == '-' {
        one_or_two_of(s, p0, '>', TokenKind::Arrow, '=', TokenKind::MinusEq, TokenKind::Minus)
    } else if c == '*' {
        one_or_two(s, p0, '=', TokenKind::StarEq, TokenKind::Star)
    } else if c == '/' {
        if expr_ctx {
            OpOutcome::Regex
        } else {
            one_or_two(s, p0, '=', TokenKind::SlashEq, TokenKind::Slash)
        }
    } else if c == '%' {
        one_or_two(s, p0, '=', TokenKind::PercentEq, TokenKind::Percent)
    } else if c == '=' {
        one_or_two_of(s, p0, '=', TokenKind::EqEq, '>', TokenKind::FatArrow, TokenKind::Eq)
    } else if c == '!' {
        one_or_two(s, p0, '=', TokenKind::NotEq, TokenKind::Bang)
    } else if c == '<' {
        one_or_two_of(s, p0, '=', TokenKind::LtEq, '<', TokenKind::Shl, TokenKind::Lt)
    } else if c == '>' {
        one_or_two_of(s, p0, '=', TokenKind::GtEq, '>', TokenKind::Shr, TokenKind::Gt)
    } else if c == '&' {
        if char_at(s, p0 + 1, '&') {
            OpOutcome::Emit(TokenKind::AmpAmp, p0 + 2)
        } else if char_at(s, p0 + 1, '.') {
            OpOutcome::Emit(TokenKind::AmpDot, p0 + 2)
        } else if amp_var_at(s, p0) {
            OpOutcome::Emit(TokenKind::AmpMut, p0 + 4)
        } else {
            OpOutcome::Emit(TokenKind::Amp, p0 + 1)
        }
    } else if c == '|' {
        one_or_two(s, p0, '|', TokenKind::PipePipe, TokenKind::Pipe)
    } else if c == '^' {
        OpOutcome::Emit(TokenKind::Caret, p0 + 1)
    } else if c == '.' {
        if char_at(s, p0 + 1, '.') {
            if char_at(s, p0 + 2, '.') {
                OpOutcome::Emit(TokenKind::DotDotDot, p0 + 3)
            } else if char_at(s, p0 + 2, '=') {
                OpOutcome::RetiredInclusiveRange(p0 + 3)
            } else {
                OpOutcome::Emit(TokenKind::DotDot, p0 + 2)
            }
        } else {
            OpOutcome::Emit(TokenKind::Dot, p0 + 1)
        }
    } else if c == '?' {
        if char_at(s, p0 + 1, '.') {
            OpOutcome::Emit(TokenKind::QuestionDot, p0 + 2)
        } else if p0 + 1 < s.len() && expr_ctx && (s[p0 + 1] == '\\' || spec_is_ascii_alphanumeric(
            s[p0 + 1],
        ) || s[p0 + 1] == '_') {
            OpOutcome::CharLiteral
        } else {
            OpOutcome::Emit(TokenKind::Question, p0 + 1)
        }
    } else if c == '@' {
        OpOutcome::Emit(TokenKind::At, p0 + 1)
    } else if c == ':' {
        one_or_two(s, p0, ':', TokenKind::ColonColon, TokenKind::Colon)
    } else if c == ';' {
        OpOutcome::Emit(TokenKind::Semicolon, p0 + 1)
    } else if c == ',' {
        OpOutcome::Emit(TokenKind::Comma, p0 + 1)
    } else if c == '(' {
        OpOutcome::Emit(TokenKind::LParen, p0 + 1)
    } else if c == ')' {
        OpOutcome::Emit(TokenKind::RParen, p0 + 1)
    } else if c == '[' {
        OpOutcome::Emit(TokenKind::LBracket, p0 + 1)
    } else if c == ']' {
        OpOutcome::Emit(TokenKind::RBracket, p0 + 1)
    } else if c == '{' {
        OpOutcome::Emit(TokenKind::LBrace, p0 + 1)
    } else if c == '}' {
        OpOutcome::Emit(TokenKind::RBrace, p0 + 1)
    } else if c == '~' {
        if char_at(s, p0 + 1, '=') {
            OpOutcome::Emit(TokenKind::TildeEq, p0 + 2)
        } else {
            OpOutcome::Unexpected(c, p0 + 1)
        }
    } else if c == '\\' {
        if char_at(s, p0 + 1, '\n') {
            OpOutcome::Continuation(p0 + 2)
        } else {
            OpOutcome::Unexpected(c, p0 + 1)
        }
    } else {
        OpOutcome::Unexpected(c, p0 + 1)
    }
}

pub open spec fn retired_range_message() -> Seq<char> {
    "`..=` is not valid Ruxen syntax — ranges are Ruby-shaped: `..` is inclusive, `...` is exclusive (use `..` here)"@
}

pub open spec fn unexpected_message(c: char) -> Seq<char> {
    "unexpected character: '"@ + seq![c] + "'"@
}

/// The previous token's kind, `None` when there is none.
pub open spec fn last_kind(tokens: Seq<Token>) -> Option<TokenKind> {
    if tokens.len() > 0 {
        Some(tokens.last().kind)
    } else {
        None
    }
}

/// The effect of lexing the operator or punctuation character at the cursor
/// of `old`; `new` is the lexer afterwards.
pub open spec fn op_effect(old: Lexer, new: Lexer) -> bool {
    let s = old.chars@;
    let p0 = old.pos as int;
    let sb = byte_offset(s, p0) as usize;
    let sl = line_at(s, p0) as u32;
    let sc = column_at(s, p0) as u32;
    &&& new.wf()
    &&& new.chars@ == s
    &&& match op_outcome(s, p0, spec_starts_expr_context(last_kind(old.tokens@))) {
        OpOutcome::Emit(k, end) => {
            &&& new.pos == end
            &&& new.diagnostics@ == old.diagnostics@
            &&& new.tokens@ == old.tokens@.push(Token { kind: k, span: span_between(s, p0, end) })
        },
        OpOutcome::RetiredInclusiveRange(end) => {
            &&& new.pos == end
            &&& new.diagnostics@.len() == old.diagnostics@.len() + 1
            &&& new.diagnostics@.take(old.diagnostics@.len() as int) == old.diagnostics@
            &&& diag_is(new.diagnostics@.last(), retired_range_message(), "E0009"@, span_between(s, p0, end))
            &&& new.tokens@ == old.tokens@.push(
                Token { kind: TokenKind::DotDot, span: span_between(s, p0, end) },
            )
        },
        OpOutcome::Regex => regex_effect_from(s, p0 + 1, old.tokens@, old.diagnostics@, new, sb, sl, sc),
        OpOutcome::CharLiteral => question_char_effect_from(
            s,
            p0 + 1,
            old.tokens@,
            old.diagnostics@,
            new,
            sb,
            sl,
            sc,
        ),
        OpOutcome::Continuation(end) => {
            &&& new.pos == end
            &&& new.tokens@ == old.tokens@
            &&& new.diagnostics@ == old.diagnostics@
        },
        OpOutcome::Unexpected(c, end) => {
            &&& new.pos == end
            &&& new.tokens@ == old.tokens@
            &&& new.diagnostics@.len() == old.diagnostics@.len() + 1
            &&& new.diagnostics@.take(old.diagnostics@.len() as int) == old.diagnostics@
            &&& diag_is(new.diagnostics@.last(), unexpected_message(c), "E0006"@, span_between(s, p0, end))
        },
    }
}


/// The lexer has consumed exactly the character at `p0`, whose span starts
/// at the given position.
pub open spec fn just_past(l: Lexer, p0: int, sb: usize, sl: u32, sc: u32) -> bool {
    &&& l.wf()
    &&& l.pos == p0 + 1
    &&& 0 <= p0
    &&& sb == byte_offset(l.chars@, p0)
    &&& sl == line_at(l.chars@, p0)
    &&& sc == column_at(l.chars@, p0)
}

/// `new` is `old` with the token `k` emitted over `p0..end` and the cursor
/// at `end`.
pub open spec fn emitted(old: Lexer, new: Lexer, p0: int, k: TokenKind, end: int) -> bool {
    &&& new.wf()
    &&& new.chars@ == old.chars@
    &&& new.pos == end
    &&& new.diagnostics@ == old.diagnostics@
    &&& new.tokens@ == old.tokens@.push(Token { kind: k, span: span_between(old.chars@, p0, end) })
}

impl Lexer {
    /// Having consumed the first character (at `p0`) of a one- or
    /// two-character operator, emit `two` when the next character is
    /// `second` (consuming it) and `one` otherwise.
    fn finish_one_or_two(
        &mut self,
        second: char,
        two: TokenKind,
        one: TokenKind,
        sb: usize,
        sl: u32,
        sc: u32,
        Ghost(p0): Ghost<int>,
    )
        requires
            just_past(*old(self), p0, sb, sl, sc),
        ensures
            one_or_two(old(self).chars@, p0, second, two, one) matches OpOutcome::Emit(k, end) && emitted(
                *old(self),
                *final(self),
                p0,
                k,
                end,
            ),
    {
        if !self.is_at_end() && self.current() == second {
            self.advance();
            self.emit(two, sb, sl, sc);
        } else {
            self.emit(one, sb, sl, sc);
        }
    }

    /// Like `finish_one_or_two`, with two candidate second characters, `a`
    /// tried first.
    fn finish_one_or_two_of(
        &mut self,
        a: char,
        two_a: TokenKind,
        b: char,
        two_b: TokenKind,
        one: TokenKind,
        sb: usize,
        sl: u32,
        sc: u32,
        Ghost(p0): Ghost<int>,
    )
        requires
            just_past(*old(self), p0, sb, sl, sc),
        ensures
            one_or_two_of(old(self).chars@, p0, a, two_a, b, two_b, one) matches OpOutcome::Emit(k, end)
                && emitted(*old(self), *final(self), p0, k, end),
    {
        if !self.is_at_end() && self.current() == a {
            self.advance();
            self.emit(two_a, sb, sl, sc);
        } else if !self.is_at_end() && self.current() == b {
            self.advance();
            self.emit(two_b, sb, sl, sc);
        } else {
            self.emit(one, sb, sl, sc);
        }
    }

    /// Emit a single-character token.
    fn finish_single(&mut self, k: TokenKind, sb: usize, sl: u32, sc: u32, Ghost(p0): Ghost<int>)
        requires
            just_past(*old(self), p0, sb, sl, sc),
        ensures
            emitted(*old(self), *final(self), p0, k, p0 + 1),
    {
        self.emit(k, sb, sl, sc);
    }

    /// Report the unexpected character `c` (already consumed).
    fn report_unexpected(&mut self, c: char, sb: usize, sl: u32, sc: u32, Ghost(p0): Ghost<int>)
        requires
            just_past(*old(self), p0, sb, sl, sc),
        ensures
            final(self).wf(),
            final(self).chars@ == old(self).chars@,
            final(self).pos == old(self).pos,
            final(self).tokens@ == old(self).tokens@,
            final(self).diagnostics@.len() == old(self).diagnostics@.len() + 1,
            final(self).diagnostics@.take(old(self).diagnostics@.len() as int) == old(self).diagnostics@,
            diag_is(
                final(self).diagnostics@.last(),
                unexpected_message(c),
                "E0006"@,
                span_between(old(self).chars@, p0, p0 + 1),
            ),
    {
        let span = self.make_span(sb, sl, sc);
        let mut msg = String::from_str("unexpected character: '");
        push_char(&mut msg, c);
        let msg = msg.concat("'");
        assert(msg@ =~= unexpected_message(c));
        self.report(Diagnostic::error_with_code(msg, span, "E0006"));
    }
}


impl Lexer {
    /// Lex the operator or punctuation character at the cursor (with what
    /// follows it when that makes a longer token). A `/` where an expression
    /// may begin opens a regex literal, and so does `?` followed by a letter,
    /// digit, `_` or `\` open a character literal; `..=` is reported
    /// (`E0009`) and lexed as `..`; a `\` before a newline continues the
    /// line; any other character is reported as unexpected (`E0006`).
    pub fn lex_operator_or_punct(&mut self)
        requires
            old(self).wf(),
            old(self).pos < old(self).chars@.len(),
        ensures
            op_effect(*old(self), *final(self)),
    {
        let ghost s = self.chars@;
        let ghost p0 = self.pos as int;
        let start_byte = self.byte_pos;
        let start_line = self.line;
        let start_col = self.column;
        let n = self.tokens.len();
        let prev_ctx = prev_token_starts_expr_context(
            if n > 0 {
                Some(&self.tokens[n - 1].kind)
            } else {
                None
            },
        );
        assert(prev_ctx == spec_starts_expr_context(last_kind(old(self).tokens@)));
        let ch = self.advance();
        let g = Ghost(p0);
        match ch {
            '+' => self.finish_one_or_two('=', TokenKind::PlusEq, TokenKind::Plus, start_byte, start_line, start_col, g),
            '-' => self.finish_one_or_two_of('>', TokenKind::Arrow, '=', TokenKind::MinusEq, TokenKind::Minus, start_byte, start_line, start_col, g),
            '*' => self.finish_one_or_two('=', TokenKind::StarEq, TokenKind::Star, start_byte, start_line, start_col, g),
            '/' => {
                if prev_ctx {
                    self.lex_regex_literal(start_byte, start_line, start_col);
                } else {
                    self.finish_one_or_two('=', TokenKind::SlashEq, TokenKind::Slash, start_byte, start_line, start_col, g);
                }
            },
            '%' => self.finish_one_or_two('=', TokenKind::PercentEq, TokenKind::Percent, start_byte, start_line, start_col, g),
            '=' => self.finish_one_or_two_of('=', TokenKind::EqEq, '>', TokenKind::FatArrow, TokenKind::Eq, start_byte, start_line, start_col, g),
            '!' => self.finish_one_or_two('=', TokenKind::NotEq, TokenKind::Bang, start_byte, start_line, start_col, g),
            '<' => self.finish_one_or_two_of('=', TokenKind::LtEq, '<', TokenKind::Shl, TokenKind::Lt, start_byte, start_line, start_col, g),
            '>' => self.finish_one_or_two_of('=', TokenKind::GtEq, '>', TokenKind::Shr, TokenKind::Gt, start_byte, start_line, start_col, g),
            '&' => self.finish_amp(start_byte, start_line, start_col, g),
            '|' => self.finish_one_or_two('|', TokenKind::PipePipe, TokenKind::Pipe, start_byte, start_line, start_col, g),
            '^' => self.finish_single(TokenKind::Caret, start_byte, start_line, start_col, g),
            '.' => self.finish_dot(start_byte, start_line, start_col, g),
            '?' => {
                if !self.is_at_end() && self.current() == '.' {
                    self.finish_one_or_two('.', TokenKind::QuestionDot, TokenKind::Question, start_byte, start_line, start_col, g);
                } else if !self.is_at_end() && prev_ctx && (self.current() == '\\' || is_ascii_alphanumeric(self.current())
                    || self.current() == '_') {
                    self.lex_question_char(start_byte, start_line, start_col);
                } else {
                    self.finish_single(TokenKind::Question, start_byte, start_line, start_col, g);
                }
            },
            '@' => self.finish_single(TokenKind::At, start_byte, start_line, start_col, g),
            ':' => self.finish_one_or_two(':', TokenKind::ColonColon, TokenKind::Colon, start_byte, start_line, start_col, g),
            ';' => self.finish_single(TokenKind::Semicolon, start_byte, start_line, start_col, g),
            ',' => self.finish_single(TokenKind::Comma, start_byte, start_line, start_col, g),
            '(' => self.finish_single(TokenKind::LParen, start_byte, start_line, start_col, g),
            ')' => self.finish_single(TokenKind::RParen, start_byte, start_line, start_col, g),
            '[' => self.finish_single(TokenKind::LBracket, start_byte, start_line, start_col, g),
            ']' => self.finish_single(TokenKind::RBracket, start_byte, start_line, start_col, g),
            '{' => self.finish_single(TokenKind::LBrace, start_byte, start_line, start_col, g),
            '}' => self.finish_single(TokenKind::RBrace, start_byte, start_line, start_col, g),
            '~' => {
                if !self.is_at_end() && self.current() == '=' {
                    self.advance();
                    self.emit(TokenKind::TildeEq, start_byte, start_line, start_col);
                } else {
                    self.report_unexpected(ch, start_byte, start_line, start_col, g);
                }
            },
            '\\' => {
                if !self.is_at_end() && self.current() == '\n' {
                    self.advance();
                } else {
                    self.report_unexpected(ch, start_byte, start_line, start_col, g);
                }
            },
            _ => self.report_unexpected(ch, start_byte, start_line, start_col, g),
        }
    }

    /// The rest of an operator starting with `&`: `&&`, `&.`, `&var` (a
    /// whole word) or `&`.
    fn finish_amp(&mut self, sb: usize, sl: u32, sc: u32, Ghost(p0): Ghost<int>)
        requires
            just_past(*old(self), p0, sb, sl, sc),
            old(self).chars@[p0] == '&',
        ensures
            op_outcome(old(self).chars@, p0, false) matches OpOutcome::Emit(k, end) && emitted(
                *old(self),
                *final(self),
                p0,
                k,
                end,
            ),
    {
        if !self.is_at_end() && self.current() == '&' {
            self.advance();
            self.emit(TokenKind::AmpAmp, sb, sl, sc);
        } else if !self.is_at_end() && self.current() == '.' {
            self.advance();
            self.emit(TokenKind::AmpDot, sb, sl, sc);
        } else if !self.is_at_end() && self.current() == 'v' {
            if self.peek_at(1) == Some('a') && self.peek_at(2) == Some('r') {
                let after_var = self.peek_at(3);
                let whole_word = match after_var {
                    None => true,
                    Some(c) => !is_ascii_alphanumeric(c) && c != '_',
                };
                if whole_word {
                    self.advance();
                    self.advance();
                    self.advance();
                    self.emit(TokenKind::AmpMut, sb, sl, sc);
                    return;
                }
            }
            self.emit(TokenKind::Amp, sb, sl, sc);
        } else {
            self.emit(TokenKind::Amp, sb, sl, sc);
        }
    }

    /// The rest of an operator starting with `.`: `...`, `..=` (reported,
    /// lexed as `..`), `..` or `.`.
    fn finish_dot(&mut self, sb: usize, sl: u32, sc: u32, Ghost(p0): Ghost<int>)
        requires
            just_past(*old(self), p0, sb, sl, sc),
            old(self).chars@[p0] == '.',
        ensures
            final(self).wf(),
            final(self).chars@ == old(self).chars@,
            match op_outcome(old(self).chars@, p0, false) {
                OpOutcome::Emit(k, end) => emitted(*old(self), *final(self), p0, k, end),
                OpOutcome::RetiredInclusiveRange(end) => {
                    let s = old(self).chars@;
                    &&& final(self).pos == end
                    &&& final(self).diagnostics@.len() == old(self).diagnostics@.len() + 1
                    &&& final(self).diagnostics@.take(old(self).diagnostics@.len() as int) == old(self).diagnostics@
                    &&& diag_is(final(self).diagnostics@.last(), retired_range_message(), "E0009"@, span_between(s, p0, end))
                    &&& final(self).tokens@ == old(self).tokens@.push(
                        Token { kind: TokenKind::DotDot, span: span_between(s, p0, end) },
                    )
                },
                _ => false,
            },
    {
        if !self.is_at_end() && self.current() == '.' {
            self.advance();
            if !self.is_at_end() && self.current() == '.' {
                self.advance();
                self.emit(TokenKind::DotDotDot, sb, sl, sc);
            } else if !self.is_at_end() && self.current() == '=' {
                self.advance();
                let span = self.make_span(sb, sl, sc);
                proof {
                    reveal_strlit("`..=` is not valid Ruxen syntax — ranges are Ruby-shaped: `..` is inclusive, `...` is exclusive (use `..` here)");
                }
                self.report(Diagnostic::error_with_code(
                    String::from_str("`..=` is not valid Ruxen syntax — ranges are Ruby-shaped: `..` is inclusive, `...` is exclusive (use `..` here)"),
                    span,
                    "E0009",
                ));
                self.emit(TokenKind::DotDot, sb, sl, sc);
            } else {
                self.emit(TokenKind::DotDot, sb, sl, sc);
            }
        } else {
            self.emit(TokenKind::Dot, sb, sl, sc);
        }
    }
}

/// Lexing an operator always moves past its first character, and never
/// past the end of the source: a token (or a diagnostic, or a line
/// continuation) always covers at least the character at the cursor.
pub proof fn law_operator_advances(s: Seq<char>, p0: int, expr_ctx: bool)
    requires
        0 <= p0 < s.len(),
    ensures
        match op_outcome(s, p0, expr_ctx) {
            OpOutcome::Emit(_, end) => p0 < end <= s.len(),
            OpOutcome::RetiredInclusiveRange(end) => p0 < end <= s.len(),
            OpOutcome::Continuation(end) => p0 < end <= s.len(),
            OpOutcome::Unexpected(_, end) => p0 < end <= s.len(),
            _ => true,
        },
{
}

} // verus!
