//! Format specifications of interpolations: the `spec` in `"#{x:spec}"`.
use vstd::prelude::*;

use crate::diagnostics::{diag_is, Diagnostic};
use crate::lexer::grammar::{digits_value, lemma_digits_value_mono, lemma_digits_value_nonneg, lemma_scan_while_bounds, scan_while};
use crate::lexer::token::{FormatSpec, Span};
use crate::lexer::{byte_offset, column_at, line_at, same_output, span_between, Lexer};
use crate::text::{char_is_whitespace, is_ascii_digit, spec_is_ascii_digit, unicode_whitespace};

verus! {

pub open spec fn is_align(c: char) -> bool {
    c == '<' || c == '>' || c == '^'
}

pub open spec fn digit_pred() -> spec_fn(char) -> bool {
    |c: char| spec_is_ascii_digit(c)
}

/// A decimal digit string as a `usize`; `None` when it does not fit.
pub open spec fn parse_usize(t: Seq<char>) -> Option<usize> {
    if digits_value(t, 10) <= usize::MAX {
        Some(digits_value(t, 10) as usize)
    } else {
        None
    }
}

/// Scanning what follows the spec proper from `i`, up to and through the
/// closing `}` (or to the end of the source): the runs of stray characters
/// (neither whitespace nor `}`), by start and end position, and where the
/// scan stops. `stray` is the start of the run in progress, which ends at
/// `stray_end`.
pub open spec fn spec_tail(s: Seq<char>, i: int, stray: Option<int>, stray_end: int) -> (Seq<(int, int)>, int)
    decreases s.len() - i,
{
    let flushed = match stray {
        Some(st) => seq![(st, stray_end)],
        None => Seq::empty(),
    };
    if i < 0 || i >= s.len() {
        (flushed, i)
    } else if s[i] == '}' {
        (flushed, i + 1)
    } else if unicode_whitespace(s[i]) {
        let r = spec_tail(s, i + 1, None, stray_end);
        (flushed + r.0, r.1)
    } else {
        let st = match stray {
            Some(st) => st,
            None => i,
        };
        spec_tail(s, i + 1, Some(st), i + 1)
    }
}

/// What lexing a format spec starting at `p` gives: the spec, the
/// diagnostics (message and the positions their span runs between), and
/// where the cursor ends (past the closing `}`).
pub struct SpecScan {
    pub spec: FormatSpec,
    pub diags: Seq<(Seq<char>, int, int)>,
    pub end: int,
}

pub open spec fn dot_message() -> Seq<char> {
    "malformed format spec: `.` must be followed by precision digits"@
}

pub open spec fn stray_message() -> Seq<char> {
    "malformed format spec: unexpected character(s)"@
}

/// The optional `fill align` (or bare `align`) at `p`: the fill, the
/// alignment, and where they end. A fill is any character followed by an
/// alignment `<`, `>` or `^`.
pub open spec fn fill_align(s: Seq<char>, p: int) -> (Option<char>, Option<char>, int) {
    if p + 1 < s.len() && is_align(s[p + 1]) {
        (Some(s[p]), Some(s[p + 1]), p + 2)
    } else if 0 <= p < s.len() && is_align(s[p]) {
        (None, Some(s[p]), p + 1)
    } else {
        (None, None, p)
    }
}

/// The optional `.precision` at `q2`: the precision, the diagnostics (a
/// `.` without digits), and where it ends.
pub open spec fn precision_part(s: Seq<char>, q2: int) -> (Option<usize>, Seq<(Seq<char>, int, int)>, int) {
    if q2 < s.len() && s[q2] == '.' {
        let q3 = scan_while(s, q2 + 1, digit_pred());
        if q3 > q2 + 1 {
            (parse_usize(s.subrange(q2 + 1, q3)), Seq::empty(), q3)
        } else {
            (None, seq![(dot_message(), q2, q3)], q3)
        }
    } else {
        (None, Seq::empty(), q2)
    }
}

/// The spec proper at `p` (`[fill align] [width] ['.' precision] ['?']`):
/// the spec, its diagnostics, and where it ends.
pub open spec fn spec_prefix(s: Seq<char>, p: int) -> (FormatSpec, Seq<(Seq<char>, int, int)>, int) {
    let fa = fill_align(s, p);
    let q1 = fa.2;
    let q2 = scan_while(s, q1, digit_pred());
    let width = if q2 > q1 {
        parse_usize(s.subrange(q1, q2))
    } else {
        None
    };
    let pr = precision_part(s, q2);
    let q3 = pr.2;
    let debug = q3 < s.len() && s[q3] == '?';
    let q4 = if debug {
        q3 + 1
    } else {
        q3
    };
    (FormatSpec { debug, width, precision: pr.0, align: fa.1, fill: fa.0 }, pr.1, q4)
}

/// Lexing a format spec at `p`, through its closing `}`; then only
/// whitespace may stand before the `}`, and each run of other characters
/// is reported.
pub open spec fn format_spec_scan(s: Seq<char>, p: int) -> SpecScan {
    let pre = spec_prefix(s, p);
    let t = spec_tail(s, pre.2, None, pre.2);
    SpecScan { spec: pre.0, diags: pre.1 + stray_diags(t.0), end: t.1 }
}

/// `new` is `old` followed by one `E0007` diagnostic per item (message and
/// the positions its span runs between).
pub open spec fn spec_diags_added(s: Seq<char>, old: Seq<Diagnostic>, new: Seq<Diagnostic>, items: Seq<(Seq<char>, int, int)>) -> bool {
    &&& new.len() == old.len() + items.len()
    &&& new.take(old.len() as int) == old
    &&& forall|k: int|
        0 <= k < items.len() ==> diag_is(
            #[trigger] new[old.len() + k],
            items[k].0,
            "E0007"@,
            span_between(s, items[k].1, items[k].2),
        )
}

/// Parse the decimal digits `v[from..to]` as a `usize`.
fn parse_usize_digits(v: &Vec<char>, from: usize, to: usize) -> (r: Option<usize>)
    requires
        from <= to <= v@.len(),
        forall|k: int| from <= k < to ==> spec_is_ascii_digit(#[trigger] v@[k]),
    ensures
        r == parse_usize(v@.subrange(from as int, to as int)),
{
    let ghost t = v@.subrange(from as int, to as int);
    let mut acc: usize = 0;
    let mut i = from;
    assert(t.take(0) =~= Seq::<char>::empty());
    while i < to
        invariant
            from <= i <= to,
            to <= v@.len(),
            t == v@.subrange(from as int, to as int),
            forall|k: int| from <= k < to ==> spec_is_ascii_digit(#[trigger] v@[k]),
            acc == digits_value(t.take(i - from), 10),
        decreases to - i,
    {
        let c = v[i];
        assert(c == t[i - from]);
        let d = (c as u32 - '0' as u32) as usize;
        assert(t.take(i + 1 - from).drop_last() =~= t.take(i - from));
        assert(d == crate::lexer::grammar::digit_value(c));
        if acc > (usize::MAX - d) / 10 {
            proof {
                assert(acc * 10 + d > usize::MAX) by (nonlinear_arith)
                    requires
                        acc > (usize::MAX - d) / 10,
                        0 <= d < 10,
                ;
                lemma_digits_value_mono(t, i + 1 - from, t.len() as int, 10);
                assert(t.take(t.len() as int) =~= t);
            }
            return None;
        }
        assert(acc * 10 + d <= usize::MAX) by (nonlinear_arith)
            requires
                acc <= (usize::MAX - d) / 10,
                0 <= d < 10,
        ;
        acc = acc * 10 + d;
        i = i + 1;
    }
    assert(t.take(to - from) =~= t);
    Some(acc)
}

impl Lexer {
    /// Consume decimal digits at the cursor.
    fn skip_digits(&mut self)
        requires
            old(self).wf(),
        ensures
            final(self).wf(),
            final(self).chars@ == old(self).chars@,
            final(self).tokens@ == old(self).tokens@,
            final(self).diagnostics@ == old(self).diagnostics@,
            final(self).pos == scan_while(old(self).chars@, old(self).pos as int, digit_pred()),
    {
        let ghost s = self.chars@;
        proof {
            lemma_scan_while_bounds(s, self.pos as int, digit_pred());
        }
        while !self.is_at_end() && is_ascii_digit(self.current())
            invariant
                self.wf(),
                self.chars@ == s,
                self.tokens@ == old(self).tokens@,
                self.diagnostics@ == old(self).diagnostics@,
                old(self).pos <= self.pos,
                scan_while(s, self.pos as int, digit_pred()) == scan_while(s, old(self).pos as int, digit_pred()),
            decreases s.len() - self.pos,
        {
            self.advance();
        }
    }
}


/// The stray runs as `E0007` diagnostics.
pub open spec fn stray_diags(runs: Seq<(int, int)>) -> Seq<(Seq<char>, int, int)> {
    runs.map_values(|r: (int, int)| (stray_message(), r.0, r.1))
}

impl Lexer {
    /// Report a stray run between positions `st` and `en`.
    fn report_stray(&mut self, sb: usize, sl: u32, sc: u32, en: usize, Ghost(st): Ghost<int>, Ghost(e): Ghost<int>)
        requires
            old(self).wf(),
            0 <= st <= e <= old(self).chars@.len(),
            sb == byte_offset(old(self).chars@, st) as usize,
            sl == line_at(old(self).chars@, st) as u32,
            sc == column_at(old(self).chars@, st) as u32,
            en == byte_offset(old(self).chars@, e),
        ensures
            final(self).wf(),
            final(self).chars@ == old(self).chars@,
            final(self).pos == old(self).pos,
            final(self).tokens@ == old(self).tokens@,
            final(self).diagnostics@ == old(self).diagnostics@.push(final(self).diagnostics@.last()),
            diag_is(final(self).diagnostics@.last(), stray_message(), "E0007"@, span_between(old(self).chars@, st, e)),
    {
        proof {
            reveal_strlit("malformed format spec: unexpected character(s)");
        }
        let span = Span::new(sb, en, sl, sc);
        self.report(Diagnostic::error_with_code(
            String::from_str("malformed format spec: unexpected character(s)"),
            span,
            "E0007",
        ));
    }

    /// Consume what follows a format spec up to and through its closing `}`,
    /// reporting each run of characters other than whitespace.
    fn lex_spec_tail(&mut self)
        requires
            old(self).wf(),
        ensures
            final(self).wf(),
            final(self).chars@ == old(self).chars@,
            final(self).tokens@ == old(self).tokens@,
            ({
                let t = spec_tail(old(self).chars@, old(self).pos as int, None, old(self).pos as int);
                &&& final(self).pos == t.1
                &&& spec_diags_added(old(self).chars@, old(self).diagnostics@, final(self).diagnostics@, stray_diags(t.0))
            }),
    {
        let ghost s = self.chars@;
        let ghost q = self.pos as int;
        let ghost all = spec_tail(s, q, None, q);
        let ghost base = self.diagnostics@;
        let ghost mut done: Seq<(int, int)> = Seq::empty();
        let ghost mut gst: Option<int> = None;
        let ghost mut gend: int = q;
        let mut stray_start: Option<(usize, u32, u32)> = None;
        let mut stray_end: usize = self.byte_pos;
        let mut closed = false;
        assert(self.diagnostics@.take(base.len() as int) =~= base);
        assert(done + all.0 =~= all.0);
        while !closed && !self.is_at_end()
            invariant
                self.wf(),
                self.chars@ == s,
                self.tokens@ == old(self).tokens@,
                0 <= q <= self.pos <= s.len(),
                all == spec_tail(s, q, None, q),
                !closed ==> done + spec_tail(s, self.pos as int, gst, gend).0 == all.0,
                !closed ==> spec_tail(s, self.pos as int, gst, gend).1 == all.1,
                closed ==> done + pending(gst, gend) == all.0 && self.pos == all.1,
                spec_diags_added(s, base, self.diagnostics@, stray_diags(done)),
                match gst {
                    Some(st) => {
                        &&& 0 <= st < gend <= self.pos
                        &&& stray_start == Some((byte_offset(s, st) as usize, line_at(s, st) as u32, column_at(s, st) as u32))
                        &&& stray_end == byte_offset(s, gend)
                    },
                    None => stray_start is None,
                },
            decreases s.len() - self.pos + (if closed { 0int } else { 1int }),
        {
            let c = self.current();
            let ghost i = self.pos as int;
            let ghost before = self.diagnostics@;
            let ghost old_done = done;
            if c == '}' {
                self.advance();
                closed = true;
            } else if char_is_whitespace(c) {
                match stray_start {
                    Some((sb, sl, sc)) => {
                        self.report_stray(sb, sl, sc, stray_end, Ghost(gst->0), Ghost(gend));
                        proof {
                            done = done.push((gst->0, gend));
                            lemma_stray_pushed(s, base, before, self.diagnostics@, old_done, done);
                        }
                    },
                    None => {},
                }
                stray_start = None;
                proof {
                    gst = None;
                }
                self.advance();
            } else {
                if stray_start.is_none() {
                    stray_start = Some((self.byte_pos, self.line, self.column));
                    proof {
                        gst = Some(i);
                    }
                }
                self.advance();
                stray_end = self.byte_pos;
                proof {
                    gend = i + 1;
                }
            }
            proof {
                if !closed {
                    assert(done + spec_tail(s, self.pos as int, gst, gend).0 =~= all.0);
                } else {
                    assert(done + pending(gst, gend) =~= all.0);
                }
            }
        }
        proof {
            if !closed {
                assert(done + pending(gst, gend) =~= all.0);
            }
        }
        let ghost before = self.diagnostics@;
        let ghost old_done = done;
        match stray_start {
            Some((sb, sl, sc)) => {
                self.report_stray(sb, sl, sc, stray_end, Ghost(gst->0), Ghost(gend));
                proof {
                    done = done.push((gst->0, gend));
                    lemma_stray_pushed(s, base, before, self.diagnostics@, old_done, done);
                }
            },
            None => {},
        }
        proof {
            assert(done =~= all.0);
        }
    }
}

/// The runs of `gst` in progress, if any, ending at `gend`.
pub open spec fn pending(gst: Option<int>, gend: int) -> Seq<(int, int)> {
    match gst {
        Some(st) => seq![(st, gend)],
        None => Seq::empty(),
    }
}

/// Reporting one more stray run keeps the diagnostics in step with the runs.
proof fn lemma_stray_pushed(
    s: Seq<char>,
    base: Seq<Diagnostic>,
    before: Seq<Diagnostic>,
    after: Seq<Diagnostic>,
    old_done: Seq<(int, int)>,
    done: Seq<(int, int)>,
)
    requires
        spec_diags_added(s, base, before, stray_diags(old_done)),
        after == before.push(after.last()),
        done.len() == old_done.len() + 1,
        done == old_done.push(done.last()),
        diag_is(after.last(), stray_message(), "E0007"@, span_between(s, done.last().0, done.last().1)),
    ensures
        spec_diags_added(s, base, after, stray_diags(done)),
{
    assert(stray_diags(done) =~= stray_diags(old_done).push((stray_message(), done.last().0, done.last().1)));
    assert forall|k: int| 0 <= k < stray_diags(done).len() implies diag_is(
        #[trigger] after[base.len() + k],
        stray_diags(done)[k].0,
        "E0007"@,
        span_between(s, stray_diags(done)[k].1, stray_diags(done)[k].2),
    ) by {
        if k < old_done.len() {
            assert(after[base.len() + k] == before[base.len() + k]);
            assert(done[k] == old_done[k]);
        }
    }
    assert(after.take(base.len() as int) =~= base) by {
        assert(before.take(base.len() as int) == base);
    }
}


impl Lexer {
    /// Lex the optional `fill align` (or bare `align`) of a format spec.
    fn lex_fill_align(&mut self) -> (r: (Option<char>, Option<char>))
        requires
            old(self).wf(),
        ensures
            final(self).wf(),
            same_output(*old(self), *final(self)),
            (r.0, r.1, final(self).pos as int) == fill_align(old(self).chars@, old(self).pos as int),
    {
        let mut fill: Option<char> = None;
        let mut align: Option<char> = None;
        match (self.peek_at(0), self.peek_at(1)) {
            (Some(_c1), Some(c2)) => {
                if c2 == '<' || c2 == '>' || c2 == '^' {
                    fill = self.peek_at(0);
                    self.advance();
                    align = self.peek_at(0);
                    self.advance();
                }
            },
            _ => {},
        }
        if align.is_none() {
            match self.peek_at(0) {
                Some(c) => {
                    if c == '<' || c == '>' || c == '^' {
                        align = Some(c);
                        self.advance();
                    }
                },
                None => {},
            }
        }
        (fill, align)
    }

    /// Lex the optional `.precision` of a format spec, reporting a `.`
    /// without digits.
    fn lex_precision(&mut self) -> (r: Option<usize>)
        requires
            old(self).wf(),
        ensures
            final(self).wf(),
            final(self).chars@ == old(self).chars@,
            final(self).tokens@ == old(self).tokens@,
            r == precision_part(old(self).chars@, old(self).pos as int).0,
            final(self).pos == precision_part(old(self).chars@, old(self).pos as int).2,
            spec_diags_added(
                old(self).chars@,
                old(self).diagnostics@,
                final(self).diagnostics@,
                precision_part(old(self).chars@, old(self).pos as int).1,
            ),
    {
        let ghost s = self.chars@;
        let ghost base = self.diagnostics@;
        let mut precision: Option<usize> = None;
        if self.peek_at(0) == Some('.') {
            let dot_byte = self.byte_pos;
            let dot_line = self.line;
            let dot_col = self.column;
            let ghost q2 = self.pos as int;
            self.advance();
            let d1 = self.pos;
            proof {
                lemma_scan_while_bounds(s, d1 as int, digit_pred());
            }
            self.skip_digits();
            if self.pos > d1 {
                precision = parse_usize_digits(&self.chars, d1, self.pos);
                assert(self.diagnostics@.take(base.len() as int) =~= base);
            } else {
                proof {
                    reveal_strlit("malformed format spec: `.` must be followed by precision digits");
                }
                let span = Span::new(dot_byte, self.byte_pos, dot_line, dot_col);
                self.report(Diagnostic::error_with_code(
                    String::from_str("malformed format spec: `.` must be followed by precision digits"),
                    span,
                    "E0007",
                ));
                assert(self.diagnostics@[base.len() as int] == self.diagnostics@.last());
            }
        } else {
            assert(self.diagnostics@.take(base.len() as int) =~= base);
        }
        precision
    }

    /// Lex the spec proper: `[fill align] [width] ['.' precision] ['?']`.
    fn lex_spec_prefix(&mut self) -> (spec: FormatSpec)
        requires
            old(self).wf(),
        ensures
            final(self).wf(),
            final(self).chars@ == old(self).chars@,
            final(self).tokens@ == old(self).tokens@,
            spec == spec_prefix(old(self).chars@, old(self).pos as int).0,
            final(self).pos == spec_prefix(old(self).chars@, old(self).pos as int).2,
            spec_diags_added(
                old(self).chars@,
                old(self).diagnostics@,
                final(self).diagnostics@,
                spec_prefix(old(self).chars@, old(self).pos as int).1,
            ),
    {
        let ghost s = self.chars@;
        let (fill, align) = self.lex_fill_align();
        let q1 = self.pos;
        proof {
            lemma_scan_while_bounds(s, q1 as int, digit_pred());
        }
        self.skip_digits();
        let width = if self.pos > q1 {
            parse_usize_digits(&self.chars, q1, self.pos)
        } else {
            None
        };
        let precision = self.lex_precision();
        let mut debug = false;
        if self.peek_at(0) == Some('?') {
            debug = true;
            self.advance();
        }
        FormatSpec { debug, width, precision, align, fill }
    }

    /// Lex the format spec between the `:` and the closing `}` of an
    /// interpolation (`[fill align] [width] ['.' precision] ['?']`),
    /// through the `}`. A `.` without precision digits, and each run of
    /// characters other than whitespace before the `}`, is reported
    /// (`E0007`); the scan still goes on to the `}`.
    pub fn lex_format_spec(&mut self) -> (spec: FormatSpec)
        requires
            old(self).wf(),
        ensures
            final(self).wf(),
            final(self).chars@ == old(self).chars@,
            final(self).tokens@ == old(self).tokens@,
            spec == format_spec_scan(old(self).chars@, old(self).pos as int).spec,
            final(self).pos == format_spec_scan(old(self).chars@, old(self).pos as int).end,
            spec_diags_added(
                old(self).chars@,
                old(self).diagnostics@,
                final(self).diagnostics@,
                format_spec_scan(old(self).chars@, old(self).pos as int).diags,
            ),
    {
        let ghost s = self.chars@;
        let ghost p = self.pos as int;
        let ghost base = self.diagnostics@;
        let spec = self.lex_spec_prefix();
        let ghost mid = self.diagnostics@;
        let ghost pre = spec_prefix(s, p);
        self.lex_spec_tail();
        proof {
            let t = spec_tail(s, pre.2, None, pre.2);
            lemma_diags_chain(s, base, mid, self.diagnostics@, pre.1, stray_diags(t.0));
        }
        spec
    }
}

/// Two runs of added diagnostics make one.
proof fn lemma_diags_chain(
    s: Seq<char>,
    a: Seq<Diagnostic>,
    b: Seq<Diagnostic>,
    c: Seq<Diagnostic>,
    x: Seq<(Seq<char>, int, int)>,
    y: Seq<(Seq<char>, int, int)>,
)
    requires
        spec_diags_added(s, a, b, x),
        spec_diags_added(s, b, c, y),
    ensures
        spec_diags_added(s, a, c, x + y),
{
    assert forall|k: int| 0 <= k < (x + y).len() implies diag_is(
        #[trigger] c[a.len() + k],
        (x + y)[k].0,
        "E0007"@,
        span_between(s, (x + y)[k].1, (x + y)[k].2),
    ) by {
        if k < x.len() {
            assert(c[a.len() + k] == b[a.len() + k]) by {
                assert(c.take(b.len() as int)[a.len() + k] == c[a.len() + k]);
            }
        } else {
            assert(c[a.len() + k] == c[b.len() + (k - x.len())]);
        }
    }
    assert(c.take(a.len() as int) =~= a) by {
        assert(c.take(b.len() as int) == b);
        assert(b.take(a.len() as int) == a);
    }
}

// ---------------------------------------------------------------------------
// Laws.
// ---------------------------------------------------------------------------

/// Just past the first `}` at or after `i`, or the end of `s` when there is
/// none.
pub open spec fn past_first_brace(s: Seq<char>, i: int) -> int
    decreases s.len() - i,
{
    if i < 0 || i >= s.len() {
        i
    } else if s[i] == '}' {
        i + 1
    } else {
        past_first_brace(s, i + 1)
    }
}

proof fn lemma_tail_ends_past_brace(s: Seq<char>, i: int, stray: Option<int>, stray_end: int)
    requires
        0 <= i <= s.len(),
    ensures
        spec_tail(s, i, stray, stray_end).1 == past_first_brace(s, i),
    decreases s.len() - i,
{
    if i < s.len() && s[i] != '}' {
        let st = match stray {
            Some(st) => st,
            None => i,
        };
        lemma_tail_ends_past_brace(s, i + 1, None, stray_end);
        lemma_tail_ends_past_brace(s, i + 1, Some(st), i + 1);
    }
}

proof fn lemma_skip_no_brace(s: Seq<char>, a: int, b: int)
    requires
        0 <= a <= b <= s.len(),
        forall|k: int| a <= k < b ==> s[k] != '}',
    ensures
        past_first_brace(s, a) == past_first_brace(s, b),
    decreases b - a,
{
    if a < b {
        lemma_skip_no_brace(s, a + 1, b);
    }
}

/// Lexing a format spec consumes exactly through the first `}` after the
/// `:` (or to the end of the source when there is none), unless that `}`
/// is the fill character of a `fill align` prefix.
pub proof fn law_format_spec_ends_after_brace(s: Seq<char>, p: int)
    requires
        0 <= p <= s.len(),
        !(p + 1 < s.len() && s[p] == '}' && is_align(s[p + 1])),
    ensures
        format_spec_scan(s, p).end == past_first_brace(s, p),
{
    let fa = fill_align(s, p);
    let q1 = fa.2;
    let q2 = scan_while(s, q1, digit_pred());
    lemma_scan_while_bounds(s, q1, digit_pred());
    let pr = precision_part(s, q2);
    let q3 = pr.2;
    if q2 < s.len() && s[q2] == '.' {
        lemma_scan_while_bounds(s, q2 + 1, digit_pred());
    }
    let pre = spec_prefix(s, p);
    let q4 = pre.2;
    assert forall|k: int| p <= k < q4 implies s[k] != '}' by {
        if k < q1 {
        } else if k < q2 {
            assert(digit_pred()(s[k]));
        } else if k == q2 && q2 < s.len() && s[q2] == '.' {
        } else if k < q3 {
            assert(digit_pred()(s[k]));
        }
    }
    lemma_skip_no_brace(s, p, q4);
    lemma_tail_ends_past_brace(s, q4, None, q4);
}

} // verus!
