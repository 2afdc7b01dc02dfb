//! Lexing identifiers, keywords, numbers, raw strings and operators.
use vstd::prelude::*;

use crate::diagnostics::{diag_is, Diagnostic};
use crate::lexer::grammar::{
    decimal_int_outcome, float_outcome,
    all_radix_digits, decimal_pred, digit_value, digits_value, float_digits_end, float_text_ok,
    ident_kind_ok, ident_lex_end, ident_pred, ident_word_end, is_radix_digit,
    lemma_digits_value_mono, lemma_digits_value_nonneg, lemma_scan_while_bounds,
    lemma_suffix_entries, none_rejected_message, number_kind_ok, number_outcome,
    numeric_suffix_at, opt_suffix_len, prefixed_int_outcome, radix_pred, scan_while,
    spec_parse_radix, suffix_allowed, suffix_entries, suffix_search, suffix_spelled_at,
    suffix_text_len, type_ident_kind_ok, type_ident_lex_end, NumberOutcome,
};
use crate::lexer::token::{lookup_keyword, NumericSuffix, Span, Token, TokenKind};
use crate::lexer::{byte_offset, column_at, line_at, one_more_diag, one_more_token, span_between, Lexer};
use crate::text::{
    char_is_alphanumeric, chars_match_at, has_prefix, is_ascii_alphanumeric, is_ascii_digit,
    is_ascii_hexdigit, lemma_without_underscores_tail, push_char, spec_is_ascii_digit, str_eq,
    string_of, string_of_without_underscores, without_underscores,
};

verus! {

impl Lexer {
    /// Consume the rest of an identifier word (`[a-zA-Z0-9_]*`).
    fn skip_ident_continue(&mut self)
        requires
            old(self).wf(),
        ensures
            final(self).wf(),
            final(self).chars@ == old(self).chars@,
            final(self).tokens@ == old(self).tokens@,
            final(self).diagnostics@ == old(self).diagnostics@,
            final(self).pos == scan_while(old(self).chars@, old(self).pos as int, ident_pred()),
    {
        let ghost s = self.chars@;
        let ghost start = self.pos as int;
        proof {
            lemma_scan_while_bounds(s, start, ident_pred());
        }
        while !self.is_at_end() && (is_ascii_alphanumeric(self.current()) || self.current() == '_')
            invariant
                self.wf(),
                self.chars@ == s,
                self.tokens@ == old(self).tokens@,
                self.diagnostics@ == old(self).diagnostics@,
                start <= self.pos,
                scan_while(s, self.pos as int, ident_pred()) == scan_while(s, start, ident_pred()),
            decreases s.len() - self.pos,
        {
            self.advance();
        }
    }

    /// Lex a lowercase identifier or keyword starting at the cursor.
    ///
    /// A trailing `!` (bang method) is part of the identifier; otherwise a
    /// keyword spelling gives the keyword token. A trailing `?` is left for
    /// the operator lexer (the try operator, or `?.`).
    pub fn lex_identifier_or_keyword(&mut self)
        requires
            old(self).wf(),
            old(self).pos < old(self).chars@.len(),
        ensures
            final(self).wf(),
            final(self).chars@ == old(self).chars@,
            final(self).pos == ident_lex_end(old(self).chars@, old(self).pos as int),
            final(self).diagnostics@ == old(self).diagnostics@,
            one_more_token(old(self).tokens@, final(self).tokens@),
            final(self).tokens@.last().span == span_between(
                old(self).chars@,
                old(self).pos as int,
                final(self).pos as int,
            ),
            ident_kind_ok(final(self).tokens@.last().kind, old(self).chars@, old(self).pos as int),
    {
        let ghost s = self.chars@;
        let start_byte = self.byte_pos;
        let start_line = self.line;
        let start_col = self.column;
        let start_pos = self.pos;

        self.advance();
        self.skip_ident_continue();
        proof {
            lemma_scan_while_bounds(s, start_pos + 1, ident_pred());
        }
        let mut ident = string_of(&self.chars, start_pos, self.pos);

        if !self.is_at_end() && self.current() == '!' {
            let suffix = self.advance();
            push_char(&mut ident, suffix);
            self.emit(TokenKind::Identifier(ident), start_byte, start_line, start_col);
            return;
        }
        match lookup_keyword(ident.as_str()) {
            Some(kw) => self.emit(kw, start_byte, start_line, start_col),
            None => self.emit(TokenKind::Identifier(ident), start_byte, start_line, start_col),
        }
    }

    /// Lex an uppercase identifier or keyword starting at the cursor.
    ///
    /// The spelling `None` is rejected (`E0008`: the empty literal is `nil`)
    /// but still emitted as a type identifier. A trailing `!` is part of the
    /// name; a trailing `?` is not (so `T?` stays an optional type).
    pub fn lex_type_identifier_or_keyword(&mut self)
        requires
            old(self).wf(),
            old(self).pos < old(self).chars@.len(),
        ensures
            final(self).wf(),
            final(self).chars@ == old(self).chars@,
            final(self).pos == type_ident_lex_end(old(self).chars@, old(self).pos as int),
            one_more_token(old(self).tokens@, final(self).tokens@),
            final(self).tokens@.last().span == span_between(
                old(self).chars@,
                old(self).pos as int,
                final(self).pos as int,
            ),
            type_ident_kind_ok(final(self).tokens@.last().kind, old(self).chars@, old(self).pos as int),
            old(self).chars@.subrange(
                old(self).pos as int,
                ident_word_end(old(self).chars@, old(self).pos as int),
            ) == "None"@ ==> one_more_diag(old(self).diagnostics@, final(self).diagnostics@)
                && diag_is(
                final(self).diagnostics@.last(),
                none_rejected_message(),
                "E0008"@,
                span_between(old(self).chars@, old(self).pos as int, final(self).pos as int),
            ),
            old(self).chars@.subrange(
                old(self).pos as int,
                ident_word_end(old(self).chars@, old(self).pos as int),
            ) != "None"@ ==> final(self).diagnostics@ == old(self).diagnostics@,
    {
        let ghost s = self.chars@;
        let start_byte = self.byte_pos;
        let start_line = self.line;
        let start_col = self.column;
        let start_pos = self.pos;

        self.advance();
        self.skip_ident_continue();
        proof {
            lemma_scan_while_bounds(s, start_pos + 1, ident_pred());
        }
        let mut ident = string_of(&self.chars, start_pos, self.pos);

        if str_eq(ident.as_str(), "None") {
            let span = self.make_span(start_byte, start_line, start_col);
            self.report(
                Diagnostic::error_with_code(
                    String::from_str(
                        "`None` is not valid in Ruxen — use `nil` instead (the single empty literal: Option::None, null, and unit)",
                    ),
                    span,
                    "E0008",
                ),
            );
            self.emit(TokenKind::TypeIdentifier(ident), start_byte, start_line, start_col);
            return;
        }
        if !self.is_at_end() && self.current() == '!' {
            let suffix = self.advance();
            push_char(&mut ident, suffix);
            self.emit(TokenKind::TypeIdentifier(ident), start_byte, start_line, start_col);
            return;
        }
        match lookup_keyword(ident.as_str()) {
            Some(kw) => self.emit(kw, start_byte, start_line, start_col),
            None => self.emit(TokenKind::TypeIdentifier(ident), start_byte, start_line, start_col),
        }
    }
}

/// The effect of lexing a number from `p0` to `o.1` with outcome `o.0`: a
/// literal token spanning the number, or (with no token) an `E0004`
/// diagnostic spanning it.
pub open spec fn number_effect(old: Lexer, new: Lexer, span: Span, o: (NumberOutcome, int)) -> bool {
    &&& new.wf()
    &&& new.chars@ == old.chars@
    &&& new.pos == o.1
    &&& match o.0 {
        NumberOutcome::Invalid(msg) => {
            &&& new.tokens@ == old.tokens@
            &&& one_more_diag(old.diagnostics@, new.diagnostics@)
            &&& diag_is(new.diagnostics@.last(), msg, "E0004"@, span)
        },
        _ => {
            &&& new.diagnostics@ == old.diagnostics@
            &&& one_more_token(old.tokens@, new.tokens@)
            &&& new.tokens@.last().span == span
            &&& number_kind_ok(new.tokens@.last().kind, o.0)
        },
    }
}

/// The suffix spellings, as a table.
fn suffix_table() -> (t: Vec<(&'static str, NumericSuffix, bool)>)
    ensures
        t@ == suffix_entries(),
{
    vec![
        ("isize", NumericSuffix::ISize, true),
        ("usize", NumericSuffix::USize, true),
        ("i64", NumericSuffix::I64, true),
        ("i32", NumericSuffix::I32, true),
        ("i16", NumericSuffix::I16, true),
        ("i8", NumericSuffix::I8, true),
        ("u64", NumericSuffix::U64, true),
        ("u32", NumericSuffix::U32, true),
        ("u16", NumericSuffix::U16, true),
        ("u8", NumericSuffix::U8, true),
        ("f64", NumericSuffix::F64, false),
        ("f32", NumericSuffix::F32, false),
        ("u", NumericSuffix::U, true),
    ]
}

/// The length of a suffix's spelling.
pub fn suffix_len(suffix: &Option<NumericSuffix>) -> (r: usize)
    ensures
        r == opt_suffix_len(*suffix),
{
    match suffix {
        None => 0,
        Some(s) => match s {
            NumericSuffix::I8 | NumericSuffix::U8 => 2,
            NumericSuffix::I16 | NumericSuffix::U16 | NumericSuffix::I32 | NumericSuffix::U32
            | NumericSuffix::I64 | NumericSuffix::U64 | NumericSuffix::F32
            | NumericSuffix::F64 => 3,
            NumericSuffix::U => 1,
            NumericSuffix::ISize => 5,
            NumericSuffix::USize => 5,
        },
    }
}

/// Strip a numeric suffix's spelling from the end of a raw number string.
pub fn strip_suffix_str(raw: &str, suffix: &Option<NumericSuffix>) -> (r: String)
    requires
        raw@.len() >= opt_suffix_len(*suffix),
    ensures
        r@ == raw@.take(raw@.len() - opt_suffix_len(*suffix)),
{
    let n = raw.unicode_len();
    let k = suffix_len(suffix);
    let r = crate::text::substring(raw, 0, n - k);
    assert(r@ =~= raw@.take(raw@.len() - opt_suffix_len(*suffix)));
    r
}

/// The value of a digit character.
fn digit_val(c: char) -> (r: i64)
    ensures
        r == digit_value(c),
        0 <= r < 16,
{
    if '0' <= c && c <= '9' {
        (c as u32 - '0' as u32) as i64
    } else if 'a' <= c && c <= 'f' {
        (c as u32 - 'a' as u32 + 10) as i64
    } else if 'A' <= c && c <= 'F' {
        (c as u32 - 'A' as u32 + 10) as i64
    } else {
        0
    }
}

/// Parse a digit string in `radix` (2, 8, 10 or 16) as an `i64`, as
/// `i64::from_str_radix` does for unsigned digit strings.
pub fn parse_radix(t: &str, radix: u32) -> (r: Option<i64>)
    requires
        radix == 2 || radix == 8 || radix == 10 || radix == 16,
    ensures
        r == spec_parse_radix(t@, radix),
{
    let n = t.unicode_len();
    if n == 0 {
        return None;
    }
    let r64 = radix as i64;
    let mut v: i64 = 0;
    let mut i: usize = 0;
    assert(t@.take(0) =~= Seq::<char>::empty());
    while i < n
        invariant
            n == t@.len(),
            0 <= i <= n,
            r64 == radix as i64,
            radix == 2 || radix == 8 || radix == 10 || radix == 16,
            v == digits_value(t@.take(i as int), radix as int),
            0 <= v,
            all_radix_digits(t@.take(i as int), radix),
        decreases n - i,
    {
        let c = t.get_char(i);
        let ok = if radix == 10 {
            is_ascii_digit(c)
        } else if radix == 2 {
            c == '0' || c == '1'
        } else if radix == 8 {
            '0' <= c && c <= '7'
        } else {
            is_ascii_hexdigit(c)
        };
        if !ok {
            assert(!all_radix_digits(t@, radix)) by {
                assert(t@[i as int] == c);
            }
            return None;
        }
        let d = digit_val(c);
        assert(t@.take(i + 1).drop_last() =~= t@.take(i as int));
        if v > (i64::MAX - d) / r64 {
            proof {
                assert(v * r64 + d > i64::MAX) by (nonlinear_arith)
                    requires
                        v > (i64::MAX - d) / (r64 as int),
                        r64 >= 2,
                        0 <= d < 16,
                ;
                lemma_digits_value_mono(t@, i + 1, n as int, radix as int);
                assert(t@.take(n as int) =~= t@);
            }
            return None;
        }
        assert(v * r64 + d <= i64::MAX) by (nonlinear_arith)
            requires
                v <= (i64::MAX - d) / (r64 as int),
                r64 >= 2,
                0 <= d < 16,
                v >= 0,
        ;
        assert(v * r64 >= 0) by (nonlinear_arith)
            requires
                v >= 0,
                r64 >= 2,
        ;
        v = v * r64 + d;
        i = i + 1;
        assert(all_radix_digits(t@.take(i as int), radix)) by {
            assert forall|k: int| 0 <= k < i implies (if radix == 10 {
                spec_is_ascii_digit(#[trigger] t@.take(i as int)[k])
            } else {
                is_radix_digit(radix, t@.take(i as int)[k])
            }) by {
                if k < i - 1 {
                    assert(t@.take(i as int)[k] == t@.take(i - 1)[k]);
                }
            }
        }
    }
    assert(t@.take(n as int) =~= t@);
    Some(v)
}

impl Lexer {
    /// Consume a numeric suffix at the cursor, if one is spelled there.
    pub fn try_numeric_suffix(&mut self, is_int: bool) -> (r: Option<NumericSuffix>)
        requires
            old(self).wf(),
        ensures
            final(self).wf(),
            final(self).chars@ == old(self).chars@,
            final(self).tokens@ == old(self).tokens@,
            final(self).diagnostics@ == old(self).diagnostics@,
            r == numeric_suffix_at(old(self).chars@, old(self).pos as int, is_int),
            final(self).pos == old(self).pos + opt_suffix_len(r),
            forall|j: int| old(self).pos <= j < final(self).pos ==> old(self).chars@[j] != '_',
    {
        let ghost s = self.chars@;
        let ghost p = self.pos as int;
        if self.is_at_end() {
            return None;
        }
        proof {
            lemma_suffix_entries();
        }
        let table = suffix_table();
        let mut k: usize = 0;
        while k < table.len()
            invariant
                self.wf(),
                self == old(self),
                s == self.chars@,
                p == self.pos,
                p < s.len(),
                table@ == suffix_entries(),
                k <= 13,
                suffix_search(s, p, is_int, 0) == suffix_search(s, p, is_int, k as int),
            decreases 13 - k,
        {
            proof {
                lemma_suffix_entries();
            }
            let (text, suffix, int_only) = table[k];
            assert(text == suffix_entries()[k as int].0 && suffix == suffix_entries()[k as int].1);
            let allowed = !(!is_int && int_only) && !(is_int && !int_only);
            assert(allowed == suffix_allowed(suffix_entries()[k as int], is_int));
            if allowed && chars_match_at(&self.chars, self.pos, text) {
                let tl = text.unicode_len();
                let after = self.peek_at(tl);
                let ok = match after {
                    None => true,
                    Some(c) => !char_is_alphanumeric(c) && c != '_',
                };
                if ok {
                    assert(suffix_spelled_at(s, p, suffix_entries()[k as int].0@));
                    let mut j: usize = 0;
                    while j < tl
                        invariant
                            self.wf(),
                            s == self.chars@,
                            self.tokens@ == old(self).tokens@,
                            self.diagnostics@ == old(self).diagnostics@,
                            j <= tl,
                            tl == text@.len(),
                            tl == suffix_text_len(suffix),
                            p + tl <= s.len(),
                            0 <= p,
                            has_prefix(s.skip(p), text@),
                            self.pos == p + j,
                            forall|q: int| 0 <= q < text@.len() ==> text@[q] != '_',
                            forall|q: int| p <= q < self.pos ==> s[q] != '_',
                        decreases tl - j,
                    {
                        assert(s.skip(p).subrange(0, text@.len() as int) == text@);
                        assert(s.skip(p).subrange(0, text@.len() as int)[j as int] == s.skip(p)[j as int]);
                        assert(s.skip(p)[j as int] == s[p + j]);
                        assert(s[self.pos as int] == text@[j as int]);
                        self.advance();
                        j = j + 1;
                    }
                    return Some(suffix);
                }
            }
            k = k + 1;
        }
        None
    }

    pub fn try_int_suffix(&mut self) -> (r: Option<NumericSuffix>)
        requires
            old(self).wf(),
        ensures
            final(self).wf(),
            final(self).chars@ == old(self).chars@,
            final(self).tokens@ == old(self).tokens@,
            final(self).diagnostics@ == old(self).diagnostics@,
            r == numeric_suffix_at(old(self).chars@, old(self).pos as int, true),
            final(self).pos == old(self).pos + opt_suffix_len(r),
            forall|j: int| old(self).pos <= j < final(self).pos ==> old(self).chars@[j] != '_',
    {
        self.try_numeric_suffix(true)
    }

    pub fn try_float_suffix(&mut self) -> (r: Option<NumericSuffix>)
        requires
            old(self).wf(),
        ensures
            final(self).wf(),
            final(self).chars@ == old(self).chars@,
            final(self).tokens@ == old(self).tokens@,
            final(self).diagnostics@ == old(self).diagnostics@,
            r == numeric_suffix_at(old(self).chars@, old(self).pos as int, false),
            final(self).pos == old(self).pos + opt_suffix_len(r),
            forall|j: int| old(self).pos <= j < final(self).pos ==> old(self).chars@[j] != '_',
    {
        self.try_numeric_suffix(false)
    }
}

/// The previous token is a `.`.
pub open spec fn last_is_dot(t: Seq<Token>) -> bool {
    t.len() > 0 && t.last().kind is Dot
}

/// Is `c` a digit of `radix` (2, 8 or 16)?
fn radix_digit(radix: u32, c: char) -> (r: bool)
    ensures
        r == is_radix_digit(radix, c),
{
    if radix == 2 {
        c == '0' || c == '1'
    } else if radix == 8 {
        '0' <= c && c <= '7'
    } else if radix == 16 {
        is_ascii_hexdigit(c)
    } else {
        false
    }
}

/// The float text ends in a digit.
fn float_text_valid(t: &str) -> (r: bool)
    ensures
        r == float_text_ok(t@),
{
    let n = t.unicode_len();
    n > 0 && is_ascii_digit(t.get_char(n - 1))
}

impl Lexer {
    /// Consume decimal digits and underscores.
    fn skip_decimal(&mut self)
        requires
            old(self).wf(),
        ensures
            final(self).wf(),
            final(self).chars@ == old(self).chars@,
            final(self).tokens@ == old(self).tokens@,
            final(self).diagnostics@ == old(self).diagnostics@,
            final(self).pos == scan_while(old(self).chars@, old(self).pos as int, decimal_pred()),
    {
        let ghost s = self.chars@;
        let ghost start = self.pos as int;
        proof {
            lemma_scan_while_bounds(s, start, decimal_pred());
        }
        while !self.is_at_end() && (is_ascii_digit(self.current()) || self.current() == '_')
            invariant
                self.wf(),
                self.chars@ == s,
                self.tokens@ == old(self).tokens@,
                self.diagnostics@ == old(self).diagnostics@,
                start <= self.pos,
                scan_while(s, self.pos as int, decimal_pred()) == scan_while(s, start, decimal_pred()),
            decreases s.len() - self.pos,
        {
            self.advance();
        }
    }

    /// Lex the digits (and optional suffix) of a `0x` / `0b` / `0o` literal
    /// whose prefix has been consumed; `name` names the radix in messages.
    pub fn lex_prefixed_int(
        &mut self,
        start_byte: usize,
        start_line: u32,
        start_col: u32,
        radix: u32,
        name: &str,
    )
        requires
            old(self).wf(),
            radix == 2 || radix == 8 || radix == 16,
        ensures
            number_effect(
                *old(self),
                *final(self),
                Span {
                    start: start_byte,
                    end: byte_offset(
                        old(self).chars@,
                        prefixed_int_outcome(old(self).chars@, old(self).pos as int, radix, name@).1,
                    ) as usize,
                    line: start_line,
                    column: start_col,
                },
                prefixed_int_outcome(old(self).chars@, old(self).pos as int, radix, name@),
            ),
    {
        let ghost s = self.chars@;
        let ghost d0 = self.pos as int;
        let digit_start = self.pos;
        proof {
            lemma_scan_while_bounds(s, d0, radix_pred(radix));
        }
        while !self.is_at_end() && (radix_digit(radix, self.current()) || self.current() == '_')
            invariant
                self.wf(),
                self.chars@ == s,
                self.tokens@ == old(self).tokens@,
                self.diagnostics@ == old(self).diagnostics@,
                d0 <= self.pos,
                d0 == digit_start,
                scan_while(s, self.pos as int, radix_pred(radix)) == scan_while(s, d0, radix_pred(radix)),
            decreases s.len() - self.pos,
        {
            self.advance();
        }
        if self.pos == digit_start {
            let span = self.make_span(start_byte, start_line, start_col);
            let msg = String::from_str("invalid ").concat(name).concat(" literal: no digits after prefix");
            self.report(Diagnostic::error_with_code(msg, span, "E0004"));
            return;
        }
        let ghost i1 = self.pos as int;
        let suffix = self.try_int_suffix();
        let digits = string_of_without_underscores(&self.chars, digit_start, self.pos);
        proof {
            lemma_without_underscores_tail(s, d0, i1, self.pos as int);
        }
        let digit_str = strip_suffix_str(digits.as_str(), &suffix);
        assert(digit_str@ =~= without_underscores(s.subrange(d0, i1)));
        match parse_radix(digit_str.as_str(), radix) {
            Some(val) => self.emit(TokenKind::IntLiteral(val, suffix), start_byte, start_line, start_col),
            None => {
                let span = self.make_span(start_byte, start_line, start_col);
                let msg = String::from_str("invalid ").concat(name).concat(" literal");
                self.report(Diagnostic::error_with_code(msg, span, "E0004"));
            },
        }
    }

    /// Finish a float literal whose integer digits start at `start_pos`; the
    /// cursor is on its `.`.
    fn lex_float_tail(&mut self, start_byte: usize, start_line: u32, start_col: u32, start_pos: usize)
        requires
            old(self).wf(),
            start_pos < old(self).pos < old(self).chars@.len(),
            old(self).chars@[old(self).pos as int] == '.',
        ensures
            number_effect(
                *old(self),
                *final(self),
                Span {
                    start: start_byte,
                    end: byte_offset(
                        old(self).chars@,
                        float_outcome(old(self).chars@, start_pos as int, old(self).pos as int).1,
                    ) as usize,
                    line: start_line,
                    column: start_col,
                },
                float_outcome(old(self).chars@, start_pos as int, old(self).pos as int),
            ),
    {
        let ghost s = self.chars@;
        let ghost p0 = start_pos as int;
        let ghost i1 = self.pos as int;
        self.advance();
        self.skip_decimal();
        proof {
            lemma_scan_while_bounds(s, i1 + 1, decimal_pred());
        }
        if !self.is_at_end() && (self.current() == 'e' || self.current() == 'E') {
            self.advance();
            if !self.is_at_end() && (self.current() == '+' || self.current() == '-') {
                self.advance();
            }
            proof {
                lemma_scan_while_bounds(s, self.pos as int, decimal_pred());
            }
            self.skip_decimal();
        }
        assert(self.pos == float_digits_end(s, i1));
        let ghost i4 = self.pos as int;
        let suffix = self.try_float_suffix();
        let raw = string_of_without_underscores(&self.chars, start_pos, self.pos);
        proof {
            lemma_without_underscores_tail(s, p0, i4, self.pos as int);
        }
        let num_str = strip_suffix_str(raw.as_str(), &suffix);
        assert(num_str@ =~= without_underscores(s.subrange(p0, i4)));
        if float_text_valid(num_str.as_str()) {
            self.emit(TokenKind::FloatLiteral(num_str, suffix), start_byte, start_line, start_col);
        } else {
            let span = self.make_span(start_byte, start_line, start_col);
            let msg = String::from_str("invalid float literal: ").concat(num_str.as_str());
            self.report(Diagnostic::error_with_code(msg, span, "E0004"));
        }
    }

    /// Finish a decimal integer literal whose digits span `start_pos` to the
    /// cursor.
    fn lex_decimal_int_tail(&mut self, start_byte: usize, start_line: u32, start_col: u32, start_pos: usize)
        requires
            old(self).wf(),
            start_pos < old(self).pos,
        ensures
            number_effect(
                *old(self),
                *final(self),
                Span {
                    start: start_byte,
                    end: byte_offset(
                        old(self).chars@,
                        decimal_int_outcome(old(self).chars@, start_pos as int, old(self).pos as int).1,
                    ) as usize,
                    line: start_line,
                    column: start_col,
                },
                decimal_int_outcome(old(self).chars@, start_pos as int, old(self).pos as int),
            ),
    {
        let ghost s = self.chars@;
        let ghost p0 = start_pos as int;
        let ghost i1 = self.pos as int;
        let suffix = self.try_int_suffix();
        let raw = string_of_without_underscores(&self.chars, start_pos, self.pos);
        proof {
            lemma_without_underscores_tail(s, p0, i1, self.pos as int);
        }
        let num_str = strip_suffix_str(raw.as_str(), &suffix);
        assert(num_str@ =~= without_underscores(s.subrange(p0, i1)));
        match parse_radix(num_str.as_str(), 10) {
            Some(val) => self.emit(TokenKind::IntLiteral(val, suffix), start_byte, start_line, start_col),
            None => {
                let span = self.make_span(start_byte, start_line, start_col);
                let msg = String::from_str("invalid integer literal: ").concat(num_str.as_str());
                self.report(Diagnostic::error_with_code(msg, span, "E0004"));
            },
        }
    }

    /// Lex a number starting at the cursor: a prefixed (`0x`, `0b`, `0o`)
    /// integer, a decimal integer, or a float. A `.` followed by a digit makes
    /// a float unless the previous token is a `.` (so `t.0.10` stays a chain
    /// of tuple-field accesses).
    pub fn lex_number(&mut self)
        requires
            old(self).wf(),
            old(self).pos < old(self).chars@.len(),
        ensures
            number_effect(
                *old(self),
                *final(self),
                span_between(
                    old(self).chars@,
                    old(self).pos as int,
                    number_outcome(old(self).chars@, old(self).pos as int, last_is_dot(old(self).tokens@)).1,
                ),
                number_outcome(old(self).chars@, old(self).pos as int, last_is_dot(old(self).tokens@)),
            ),
    {
        let ghost s = self.chars@;
        let ghost p0 = self.pos as int;
        let start_byte = self.byte_pos;
        let start_line = self.line;
        let start_col = self.column;
        let start_pos = self.pos;
        let prev_was_dot = self.tokens.len() > 0 && match self.tokens[self.tokens.len() - 1].kind {
            TokenKind::Dot => true,
            _ => false,
        };
        assert(prev_was_dot == last_is_dot(old(self).tokens@));

        let first = self.advance();

        if first == '0' && !self.is_at_end() {
            let c = self.current();
            if c == 'x' || c == 'X' {
                self.advance();
                self.lex_prefixed_int(start_byte, start_line, start_col, 16, "hex");
                return;
            }
            if c == 'b' && match self.peek_at(1) {
                Some(d) => d == '0' || d == '1' || d == '_',
                None => false,
            } {
                self.advance();
                self.lex_prefixed_int(start_byte, start_line, start_col, 2, "binary");
                return;
            }
            if c == 'o' || c == 'O' {
                self.advance();
                self.lex_prefixed_int(start_byte, start_line, start_col, 8, "octal");
                return;
            }
        }

        self.skip_decimal();
        proof {
            lemma_scan_while_bounds(s, p0 + 1, decimal_pred());
        }
        let ghost i1 = self.pos as int;
        let is_float = !prev_was_dot && !self.is_at_end() && self.current() == '.' && match self.peek_at(1) {
            Some(d) => is_ascii_digit(d),
            None => false,
        };

        if is_float {
            self.lex_float_tail(start_byte, start_line, start_col, start_pos);
        } else {
            self.lex_decimal_int_tail(start_byte, start_line, start_col, start_pos);
        }
    }
}


/// Characters that continue a raw string: anything but `'` and a newline.
pub open spec fn raw_pred() -> spec_fn(char) -> bool {
    |c: char| c != '\'' && c != '\n'
}

pub open spec fn unterminated_raw_message() -> Seq<char> {
    "unterminated raw string literal (single quotes are raw strings; lifetimes use a bare lowercase name in `[...]`, no `'` sigil)"@
}

/// The effect of lexing a single-quoted raw string whose opening `'` is at
/// the cursor of `old`: the content runs to the next `'` or newline; a
/// closing `'` on the same line ends it, else it is reported (`E0002`) and
/// emitted as scanned.
pub open spec fn single_quote_effect(old: Lexer, new: Lexer) -> bool {
    let s = old.chars@;
    let p0 = old.pos as int;
    let e = scan_while(s, p0 + 1, raw_pred());
    let closed = e < s.len() && s[e] == '\'';
    let end = if closed {
        e + 1
    } else {
        e
    };
    &&& new.wf()
    &&& new.chars@ == s
    &&& new.pos == end
    &&& one_more_token(old.tokens@, new.tokens@)
    &&& new.tokens@.last().kind matches TokenKind::StringLiteral(c) && c@ == s.subrange(p0 + 1, e)
    &&& new.tokens@.last().span == span_between(s, p0, end)
    &&& if closed {
        new.diagnostics@ == old.diagnostics@
    } else {
        &&& one_more_diag(old.diagnostics@, new.diagnostics@)
        &&& diag_is(new.diagnostics@.last(), unterminated_raw_message(), "E0002"@, span_between(s, p0, e))
    }
}

impl Lexer {
    /// Lex a single-quoted raw string: the content is verbatim (no escapes,
    /// no interpolation) and must close on the same line.
    pub fn lex_single_quote(&mut self)
        requires
            old(self).wf(),
            old(self).pos < old(self).chars@.len(),
        ensures
            single_quote_effect(*old(self), *final(self)),
    {
        let ghost s = self.chars@;
        let ghost p0 = self.pos as int;
        let start_byte = self.byte_pos;
        let start_line = self.line;
        let start_col = self.column;
        self.advance();
        let content_start = self.pos;
        proof {
            lemma_scan_while_bounds(s, content_start as int, raw_pred());
        }
        while !self.is_at_end() && self.current() != '\'' && self.current() != '\n'
            invariant
                self.wf(),
                self.chars@ == s,
                self.tokens@ == old(self).tokens@,
                self.diagnostics@ == old(self).diagnostics@,
                content_start <= self.pos,
                content_start == p0 + 1,
                scan_while(s, self.pos as int, raw_pred()) == scan_while(s, content_start as int, raw_pred()),
            decreases s.len() - self.pos,
        {
            self.advance();
        }
        if self.is_at_end() || self.current() != '\'' {
            let span = self.make_span(start_byte, start_line, start_col);
            proof {
                reveal_strlit("unterminated raw string literal (single quotes are raw strings; lifetimes use a bare lowercase name in `[...]`, no `'` sigil)");
            }
            self.report(Diagnostic::error_with_code(
                String::from_str("unterminated raw string literal (single quotes are raw strings; lifetimes use a bare lowercase name in `[...]`, no `'` sigil)"),
                span,
                "E0002",
            ));
            let content = string_of(&self.chars, content_start, self.pos);
            self.emit(TokenKind::StringLiteral(content), start_byte, start_line, start_col);
            return;
        }
        let content = string_of(&self.chars, content_start, self.pos);
        self.advance();
        self.emit(TokenKind::StringLiteral(content), start_byte, start_line, start_col);
    }
}

} // verus!
