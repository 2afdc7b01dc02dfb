//! The lexical grammar, as spec functions over the source characters.
//!
//! Each `*_end` function gives the position where a lexing step stops, and
//! each outcome function what the step emits.
use vstd::prelude::*;

use crate::lexer::token::{spec_lookup_keyword, NumericSuffix, TokenKind};
use crate::mir::nodes::decimal_text;
use crate::text::{
    has_prefix, spec_is_ascii_alphabetic, spec_is_ascii_alphanumeric, spec_is_ascii_digit,
    spec_is_ascii_hexdigit, unicode_alphanumeric, without_underscores,
};

verus! {

/// The first position at or after `i` whose character fails `p` (or the end).
pub open spec fn scan_while(s: Seq<char>, i: int, p: spec_fn(char) -> bool) -> int
    decreases s.len() - i,
{
    if i < 0 || i >= s.len() || !p(s[i]) {
        i
    } else {
        scan_while(s, i + 1, p)
    }
}

pub proof fn lemma_scan_while_bounds(s: Seq<char>, i: int, p: spec_fn(char) -> bool)
    requires
        0 <= i <= s.len(),
    ensures
        i <= scan_while(s, i, p) <= s.len(),
        forall|k: int| i <= k < scan_while(s, i, p) ==> p(#[trigger] s[k]),
        scan_while(s, i, p) < s.len() ==> !p(s[scan_while(s, i, p)]),
    decreases s.len() - i,
{
    if i < s.len() && p(s[i]) {
        lemma_scan_while_bounds(s, i + 1, p);
    }
}

/// A character that continues an identifier: `[a-zA-Z0-9_]`.
pub open spec fn is_ident_continue(c: char) -> bool {
    spec_is_ascii_alphanumeric(c) || c == '_'
}

/// A decimal digit or `_`.
pub open spec fn is_decimal_or_underscore(c: char) -> bool {
    spec_is_ascii_digit(c) || c == '_'
}

/// A digit of `radix` (2, 8 or 16; none for any other radix).
pub open spec fn is_radix_digit(radix: u32, c: char) -> bool {
    if radix == 2 {
        c == '0' || c == '1'
    } else if radix == 8 {
        '0' <= c && c <= '7'
    } else if radix == 16 {
        spec_is_ascii_hexdigit(c)
    } else {
        false
    }
}

/// The identifier-continue predicate, as a value.
pub open spec fn ident_pred() -> spec_fn(char) -> bool {
    |c: char| is_ident_continue(c)
}

/// The decimal-or-underscore predicate, as a value.
pub open spec fn decimal_pred() -> spec_fn(char) -> bool {
    |c: char| is_decimal_or_underscore(c)
}

/// The digit-of-`radix`-or-underscore predicate, as a value.
pub open spec fn radix_pred(radix: u32) -> spec_fn(char) -> bool {
    |c: char| is_radix_digit(radix, c) || c == '_'
}

/// The end of the identifier word starting at `p0` (whose first character is
/// taken whatever it is).
pub open spec fn ident_word_end(s: Seq<char>, p0: int) -> int {
    scan_while(s, p0 + 1, ident_pred())
}

/// Where lexing a lowercase identifier or keyword at `p0` stops: after the
/// word, and after a trailing `!` or `?` when there is one.
pub open spec fn ident_lex_end(s: Seq<char>, p0: int) -> int {
    let e = ident_word_end(s, p0);
    if e < s.len() && s[e] == '!' {
        e + 1
    } else {
        e
    }
}

/// The token a lowercase identifier or keyword at `p0` lexes to: a word
/// with a `!` suffix is a (bang) method name; otherwise a keyword when the
/// word is one, else an identifier. A `?` after the word is not part of it.
pub open spec fn ident_kind_ok(k: TokenKind, s: Seq<char>, p0: int) -> bool {
    let e = ident_word_end(s, p0);
    let w = s.subrange(p0, e);
    if e < s.len() && s[e] == '!' {
        k matches TokenKind::Identifier(n) && n@ == w.push(s[e])
    } else {
        match spec_lookup_keyword(w) {
            Some(kw) => k == kw,
            None => k matches TokenKind::Identifier(n) && n@ == w,
        }
    }
}

/// Where lexing an uppercase identifier or keyword at `p0` stops: after the
/// word, and after a trailing `!` (but never `?`, so `T?` stays an optional
/// type) unless the word is the rejected `None`.
pub open spec fn type_ident_lex_end(s: Seq<char>, p0: int) -> int {
    let e = ident_word_end(s, p0);
    if s.subrange(p0, e) != "None"@ && e < s.len() && s[e] == '!' {
        e + 1
    } else {
        e
    }
}

/// The token an uppercase identifier or keyword at `p0` lexes to.
pub open spec fn type_ident_kind_ok(k: TokenKind, s: Seq<char>, p0: int) -> bool {
    let e = ident_word_end(s, p0);
    let w = s.subrange(p0, e);
    if w == "None"@ {
        k matches TokenKind::TypeIdentifier(n) && n@ == w
    } else if e < s.len() && s[e] == '!' {
        k matches TokenKind::TypeIdentifier(n) && n@ == w.push('!')
    } else {
        match spec_lookup_keyword(w) {
            Some(kw) => k == kw,
            None => k matches TokenKind::TypeIdentifier(n) && n@ == w,
        }
    }
}

/// The diagnostic for the rejected spelling `None`.
pub open spec fn none_rejected_message() -> Seq<char> {
    "`None` is not valid in Ruxen — use `nil` instead (the single empty literal: Option::None, null, and unit)"@
}

// ---------------------------------------------------------------------------
// Numeric suffixes.
// ---------------------------------------------------------------------------

/// The suffix spellings, longest first: (text, suffix, integer-only).
pub open spec fn suffix_entries() -> Seq<(&'static str, NumericSuffix, bool)> {
    seq![
        ("isize", NumericSuffix::ISize, true),
        ("usize", NumericSuffix::USize, true),
        ("i64", NumericSuffix::I64, true),
        ("i32", NumericSuffix::I32, true),
        ("i16", NumericSuffix::I16, true),
        ("i8", NumericSuffix::I8, true),
        ("u64", NumericSuffix::U64, true),
        ("u32", NumericSuffix::U32, true),
        ("u16", NumericSuffix::U16, true),
        ("u8", NumericSuffix::U8, true),
        ("f64", NumericSuffix::F64, false),
        ("f32", NumericSuffix::F32, false),
        ("u", NumericSuffix::U, true),
    ]
}

/// Each suffix spelling has its suffix's length and no `_`.
pub proof fn lemma_suffix_entries()
    ensures
        forall|k: int|
            0 <= k < 13 ==> (#[trigger] suffix_entries()[k]).0@.len() == suffix_text_len(
                suffix_entries()[k].1,
            ) && forall|j: int| 0 <= j < suffix_entries()[k].0@.len() ==> suffix_entries()[k].0@[j] != '_',
{
    reveal_strlit("isize");
    reveal_strlit("usize");
    reveal_strlit("i64");
    reveal_strlit("i32");
    reveal_strlit("i16");
    reveal_strlit("i8");
    reveal_strlit("u64");
    reveal_strlit("u32");
    reveal_strlit("u16");
    reveal_strlit("u8");
    reveal_strlit("f64");
    reveal_strlit("f32");
    reveal_strlit("u");
    assert forall|k: int| 0 <= k < 13 implies (#[trigger] suffix_entries()[k]).0@.len() == suffix_text_len(
        suffix_entries()[k].1,
    ) && forall|j: int| 0 <= j < suffix_entries()[k].0@.len() ==> suffix_entries()[k].0@[j] != '_' by {
        if k == 0 {
        }
    }
}

/// The letter a numeric suffix starts with: `i` for the signed integers,
/// `u` for the unsigned ones and `f` for the floats.
pub open spec fn suffix_letter(x: NumericSuffix) -> char {
    match x {
        NumericSuffix::I8 | NumericSuffix::I16 | NumericSuffix::I32 | NumericSuffix::I64
        | NumericSuffix::ISize => 'i',
        NumericSuffix::F32 | NumericSuffix::F64 => 'f',
        _ => 'u',
    }
}

/// The width in bits that a sized suffix names (none for `u`, `isize` and
/// `usize`).
pub open spec fn suffix_width(x: NumericSuffix) -> Option<nat> {
    match x {
        NumericSuffix::I8 | NumericSuffix::U8 => Some(8),
        NumericSuffix::I16 | NumericSuffix::U16 => Some(16),
        NumericSuffix::I32 | NumericSuffix::U32 | NumericSuffix::F32 => Some(32),
        NumericSuffix::I64 | NumericSuffix::U64 | NumericSuffix::F64 => Some(64),
        _ => None,
    }
}

/// How a suffix is written: its letter, then its width in decimal, or
/// `size` for the pointer-sized ones; the bare unsigned suffix is `u`.
pub open spec fn suffix_spelling(x: NumericSuffix) -> Seq<char> {
    match suffix_width(x) {
        Some(w) => seq![suffix_letter(x)] + decimal_text(w),
        None => if x is U {
            seq!['u']
        } else {
            seq![suffix_letter(x)] + "size"@
        },
    }
}

/// The suffix belongs on an integer literal (every suffix but `f32`, `f64`).
pub open spec fn suffix_is_integer(x: NumericSuffix) -> bool {
    !(x is F32 || x is F64)
}

/// The place of each suffix in the suffix table.
pub open spec fn suffix_entry_index(x: NumericSuffix) -> int {
    match x {
        NumericSuffix::ISize => 0,
        NumericSuffix::USize => 1,
        NumericSuffix::I64 => 2,
        NumericSuffix::I32 => 3,
        NumericSuffix::I16 => 4,
        NumericSuffix::I8 => 5,
        NumericSuffix::U64 => 6,
        NumericSuffix::U32 => 7,
        NumericSuffix::U16 => 8,
        NumericSuffix::U8 => 9,
        NumericSuffix::F64 => 10,
        NumericSuffix::F32 => 11,
        NumericSuffix::U => 12,
    }
}

/// Each table entry spells its suffix (letter and width) and is marked
/// integer-only exactly for the integer suffixes; every suffix has an entry.
pub proof fn lemma_suffix_entries_spell_their_suffix()
    ensures
        forall|k: int|
            0 <= k < 13 ==> (#[trigger] suffix_entries()[k]).0@ == suffix_spelling(
                suffix_entries()[k].1,
            ) && suffix_entries()[k].2 == suffix_is_integer(suffix_entries()[k].1),
        forall|x: NumericSuffix|
            0 <= #[trigger] suffix_entry_index(x) < 13 && suffix_entries()[suffix_entry_index(x)].1
                == x,
{
    reveal_strlit("isize");
    reveal_strlit("usize");
    reveal_strlit("i64");
    reveal_strlit("i32");
    reveal_strlit("i16");
    reveal_strlit("i8");
    reveal_strlit("u64");
    reveal_strlit("u32");
    reveal_strlit("u16");
    reveal_strlit("u8");
    reveal_strlit("f64");
    reveal_strlit("f32");
    reveal_strlit("u");
    reveal_strlit("size");
    reveal_with_fuel(decimal_text, 3);
    assert(decimal_text(8) =~= seq!['8']);
    assert(decimal_text(16) =~= seq!['1', '6']);
    assert(decimal_text(32) =~= seq!['3', '2']);
    assert(decimal_text(64) =~= seq!['6', '4']);
    assert forall|k: int| 0 <= k < 13 implies (#[trigger] suffix_entries()[k]).0@ == suffix_spelling(
        suffix_entries()[k].1,
    ) && suffix_entries()[k].2 == suffix_is_integer(suffix_entries()[k].1) by {
        let x = suffix_entries()[k].1;
        assert(suffix_entries()[k].0@ =~= suffix_spelling(x));
    }
}

/// The length of a suffix's spelling.
pub open spec fn suffix_text_len(x: NumericSuffix) -> nat {
    match x {
        NumericSuffix::I8 | NumericSuffix::U8 => 2,
        NumericSuffix::I16 | NumericSuffix::U16 | NumericSuffix::I32 | NumericSuffix::U32
        | NumericSuffix::I64 | NumericSuffix::U64 | NumericSuffix::F32 | NumericSuffix::F64 => 3,
        NumericSuffix::U => 1,
        NumericSuffix::ISize | NumericSuffix::USize => 5,
    }
}

/// The length of an optional suffix's spelling.
pub open spec fn opt_suffix_len(x: Option<NumericSuffix>) -> nat {
    match x {
        Some(y) => suffix_text_len(y),
        None => 0,
    }
}

/// A suffix entry applies to an integer (`is_int`) or float literal: integer
/// literals take the integer suffixes (including `u`); float literals take
/// only `f32` and `f64`.
pub open spec fn suffix_allowed(e: (&'static str, NumericSuffix, bool), is_int: bool) -> bool {
    !(!is_int && e.2) && !(is_int && !e.2)
}

/// `text` is spelled at `i` and not followed by an identifier character
/// (Unicode alphanumeric or `_`).
pub open spec fn suffix_spelled_at(s: Seq<char>, i: int, text: Seq<char>) -> bool {
    &&& has_prefix(s.skip(i), text)
    &&& (i + text.len() >= s.len() || !(unicode_alphanumeric(s[i + text.len()]) || s[i
        + text.len()] == '_'))
}

/// The first applicable suffix entry from index `k` on that is spelled at `i`.
pub open spec fn suffix_search(s: Seq<char>, i: int, is_int: bool, k: int) -> Option<
    NumericSuffix,
>
    decreases 13 - k,
{
    if k < 0 || k >= 13 {
        None
    } else if suffix_allowed(suffix_entries()[k], is_int) && suffix_spelled_at(
        s,
        i,
        suffix_entries()[k].0@,
    ) {
        Some(suffix_entries()[k].1)
    } else {
        suffix_search(s, i, is_int, k + 1)
    }
}

/// The numeric suffix spelled at `i`, if any.
pub open spec fn numeric_suffix_at(s: Seq<char>, i: int, is_int: bool) -> Option<NumericSuffix> {
    if i >= s.len() {
        None
    } else {
        suffix_search(s, i, is_int, 0)
    }
}

/// What the table search from entry `k` on finds is a suffix of the right
/// kind whose spelling is written at `i`, and it finds one whenever such a
/// suffix has its entry at `k` or later.
proof fn lemma_suffix_search_spelled(s: Seq<char>, i: int, is_int: bool, k: int)
    requires
        0 <= k <= 13,
    ensures
        suffix_search(s, i, is_int, k) matches Some(x) ==> suffix_is_integer(x) == is_int
            && suffix_spelled_at(s, i, suffix_spelling(x)),
        forall|y: NumericSuffix|
            k <= #[trigger] suffix_entry_index(y) && suffix_is_integer(y) == is_int
                && suffix_spelled_at(s, i, suffix_spelling(y)) ==> suffix_search(
                s,
                i,
                is_int,
                k,
            ) is Some,
    decreases 13 - k,
{
    lemma_suffix_entries_spell_their_suffix();
    if k < 13 {
        lemma_suffix_search_spelled(s, i, is_int, k + 1);
        let e = suffix_entries()[k];
        assert(e.0@ == suffix_spelling(e.1) && e.2 == suffix_is_integer(e.1));
        assert forall|y: NumericSuffix|
            k <= #[trigger] suffix_entry_index(y) && suffix_is_integer(y) == is_int
                && suffix_spelled_at(s, i, suffix_spelling(y)) implies suffix_search(
                s,
                i,
                is_int,
                k,
            ) is Some by {
            if suffix_entry_index(y) == k {
                assert(suffix_entries()[suffix_entry_index(y)].1 == y);
            }
        }
    } else {
        assert forall|y: NumericSuffix|
            k <= #[trigger] suffix_entry_index(y) && suffix_is_integer(y) == is_int
                && suffix_spelled_at(s, i, suffix_spelling(y)) implies suffix_search(
                s,
                i,
                is_int,
                k,
            ) is Some by {
            assert(suffix_entry_index(y) < 13);
        }
    }
}

/// A numeric suffix lexes to the suffix whose spelling (its letter and
/// width) is written there and that fits the literal (integer suffixes on
/// integers, `f32`/`f64` on floats); and a suffix is found whenever one
/// that fits is written there. So `i32` gives `I32` and `i64` gives `I64`.
pub proof fn law_numeric_suffix_is_its_spelling(s: Seq<char>, i: int, is_int: bool, y: NumericSuffix)
    requires
        0 <= i,
    ensures
        numeric_suffix_at(s, i, is_int) matches Some(x) ==> suffix_is_integer(x) == is_int
            && suffix_spelled_at(s, i, suffix_spelling(x)),
        i < s.len() && suffix_is_integer(y) == is_int && suffix_spelled_at(s, i, suffix_spelling(y))
            ==> numeric_suffix_at(s, i, is_int) is Some,
{
    lemma_suffix_entries_spell_their_suffix();
    lemma_suffix_search_spelled(s, i, is_int, 0);
    assert(0 <= suffix_entry_index(y));
}

// ---------------------------------------------------------------------------
// Numbers.
// ---------------------------------------------------------------------------

/// The value of a digit character (0 for a non-digit).
pub open spec fn digit_value(c: char) -> int {
    if '0' <= c && c <= '9' {
        (c as int) - ('0' as int)
    } else if 'a' <= c && c <= 'f' {
        (c as int) - ('a' as int) + 10
    } else if 'A' <= c && c <= 'F' {
        (c as int) - ('A' as int) + 10
    } else {
        0
    }
}

/// The value of a digit string in `radix`.
pub open spec fn digits_value(t: Seq<char>, radix: int) -> int
    decreases t.len(),
{
    if t.len() == 0 {
        0
    } else {
        digits_value(t.drop_last(), radix) * radix + digit_value(t.last())
    }
}

/// Every character of `t` is a digit of `radix` (decimal for 10).
pub open spec fn all_radix_digits(t: Seq<char>, radix: u32) -> bool {
    forall|k: int|
        0 <= k < t.len() ==> (if radix == 10 {
            spec_is_ascii_digit(#[trigger] t[k])
        } else {
            is_radix_digit(radix, t[k])
        })
}

/// The `i64` a nonempty digit string denotes in `radix`, if it fits.
pub open spec fn spec_parse_radix(t: Seq<char>, radix: u32) -> Option<i64> {
    if t.len() > 0 && all_radix_digits(t, radix) && digits_value(t, radix as int) <= i64::MAX {
        Some(digits_value(t, radix as int) as i64)
    } else {
        None
    }
}

/// A float literal's text (`D+ '.' D+ ([eE] [+-]? D*)?`, underscores removed)
/// is a valid decimal number exactly when it ends in a digit, that is, when
/// an exponent marker is followed by at least one digit.
pub open spec fn float_text_ok(t: Seq<char>) -> bool {
    t.len() > 0 && spec_is_ascii_digit(t.last())
}

/// What lexing a number emits.
pub enum NumberOutcome {
    /// An integer literal token.
    Int(i64, Option<NumericSuffix>),
    /// A float literal token, by its text.
    Float(Seq<char>, Option<NumericSuffix>),
    /// No token; an `E0004` diagnostic with this message.
    Invalid(Seq<char>),
}

/// Lexing a `0x` / `0b` / `0o` literal whose digits start at `d0`.
pub open spec fn prefixed_int_outcome(s: Seq<char>, d0: int, radix: u32, name: Seq<char>) -> (
    NumberOutcome,
    int,
) {
    let i1 = scan_while(s, d0, radix_pred(radix));
    if i1 == d0 {
        (NumberOutcome::Invalid("invalid "@ + name + " literal: no digits after prefix"@), i1)
    } else {
        let suf = numeric_suffix_at(s, i1, true);
        let i5 = i1 + opt_suffix_len(suf);
        let t = without_underscores(s.subrange(d0, i1));
        match spec_parse_radix(t, radix) {
            Some(v) => (NumberOutcome::Int(v, suf), i5),
            None => (NumberOutcome::Invalid("invalid "@ + name + " literal"@), i5),
        }
    }
}

/// Where a float's digits (fraction and optional exponent) end, given the
/// position `i1` of its `.`.
pub open spec fn float_digits_end(s: Seq<char>, i1: int) -> int {
    let i2 = scan_while(s, i1 + 1, decimal_pred());
    if i2 < s.len() && (s[i2] == 'e' || s[i2] == 'E') {
        let i3 = if i2 + 1 < s.len() && (s[i2 + 1] == '+' || s[i2 + 1] == '-') {
            i2 + 2
        } else {
            i2 + 1
        };
        scan_while(s, i3, decimal_pred())
    } else {
        i2
    }
}

/// Lexing a float whose integer part spans `p0..i1` and whose `.` is at `i1`.
pub open spec fn float_outcome(s: Seq<char>, p0: int, i1: int) -> (NumberOutcome, int) {
    let i4 = float_digits_end(s, i1);
    let suf = numeric_suffix_at(s, i4, false);
    let i5 = i4 + opt_suffix_len(suf);
    let t = without_underscores(s.subrange(p0, i4));
    if float_text_ok(t) {
        (NumberOutcome::Float(t, suf), i5)
    } else {
        (NumberOutcome::Invalid("invalid float literal: "@ + t), i5)
    }
}

/// Lexing a decimal integer whose digits span `p0..i1`.
pub open spec fn decimal_int_outcome(s: Seq<char>, p0: int, i1: int) -> (NumberOutcome, int) {
    let suf = numeric_suffix_at(s, i1, true);
    let i5 = i1 + opt_suffix_len(suf);
    let t = without_underscores(s.subrange(p0, i1));
    match spec_parse_radix(t, 10) {
        Some(v) => (NumberOutcome::Int(v, suf), i5),
        None => (NumberOutcome::Invalid("invalid integer literal: "@ + t), i5),
    }
}

/// Lexing a number starting at `p0`; `prev_dot` tells whether the previous
/// token is a `.` (then `t.0.10` stays a tuple-field chain: no float fusion).
pub open spec fn number_outcome(s: Seq<char>, p0: int, prev_dot: bool) -> (NumberOutcome, int) {
    if s[p0] == '0' && p0 + 1 < s.len() && (s[p0 + 1] == 'x' || s[p0 + 1] == 'X') {
        prefixed_int_outcome(s, p0 + 2, 16, "hex"@)
    } else if s[p0] == '0' && p0 + 1 < s.len() && s[p0 + 1] == 'b' && p0 + 2 < s.len() && (s[p0
        + 2] == '0' || s[p0 + 2] == '1' || s[p0 + 2] == '_') {
        prefixed_int_outcome(s, p0 + 2, 2, "binary"@)
    } else if s[p0] == '0' && p0 + 1 < s.len() && (s[p0 + 1] == 'o' || s[p0 + 1] == 'O') {
        prefixed_int_outcome(s, p0 + 2, 8, "octal"@)
    } else {
        let i1 = scan_while(s, p0 + 1, decimal_pred());
        let is_float = !prev_dot && i1 < s.len() && s[i1] == '.' && i1 + 1 < s.len()
            && spec_is_ascii_digit(s[i1 + 1]);
        if is_float {
            float_outcome(s, p0, i1)
        } else {
            decimal_int_outcome(s, p0, i1)
        }
    }
}

/// The token kind `k` is what `o` emits.
pub open spec fn number_kind_ok(k: TokenKind, o: NumberOutcome) -> bool {
    match o {
        NumberOutcome::Int(v, suf) => k == TokenKind::IntLiteral(v, suf),
        NumberOutcome::Float(t, suf) => k matches TokenKind::FloatLiteral(n, x) && n@ == t && x
            == suf,
        NumberOutcome::Invalid(_) => false,
    }
}

pub proof fn lemma_digits_value_nonneg(t: Seq<char>, radix: int)
    requires
        radix >= 1,
    ensures
        digits_value(t, radix) >= 0,
    decreases t.len(),
{
    if t.len() > 0 {
        lemma_digits_value_nonneg(t.drop_last(), radix);
        let v = digits_value(t.drop_last(), radix);
        assert(v * radix >= 0) by (nonlinear_arith)
            requires
                v >= 0,
                radix >= 1,
        ;
    }
}

/// A longer prefix of a digit string has at least the value of a shorter one.
pub proof fn lemma_digits_value_mono(t: Seq<char>, i: int, j: int, radix: int)
    requires
        radix >= 1,
        0 <= i <= j <= t.len(),
    ensures
        digits_value(t.take(i), radix) <= digits_value(t.take(j), radix),
    decreases j - i,
{
    if j > i {
        lemma_digits_value_mono(t, i, j - 1, radix);
        assert(t.take(j).drop_last() =~= t.take(j - 1));
        lemma_digits_value_nonneg(t.take(j - 1), radix);
        let v = digits_value(t.take(j - 1), radix);
        assert(v * radix >= v) by (nonlinear_arith)
            requires
                v >= 0,
                radix >= 1,
        ;
    }
}

} // verus!
