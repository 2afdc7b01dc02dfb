//! Regex literals `/pattern/flags`.
use vstd::prelude::*;

use crate::diagnostics::{diag_is, Diagnostic};
use crate::lexer::token::{Span, Token, TokenKind};
use crate::lexer::{byte_offset, one_more_token, Lexer};
use crate::text::{find_char, first_index, is_ascii_alphabetic, push_char, spec_is_ascii_alphabetic};

verus! {

/// Where scanning a regex body from `i` stops, and whether it stopped on the
/// closing `/`. `depth` counts the open character classes and `esc` tells
/// whether the previous character escapes this one. A `/` closes the body
/// only unescaped and outside any class; the end of the source or of the
/// line leaves it unterminated.
pub open spec fn regex_body_end(s: Seq<char>, i: int, depth: nat, esc: bool) -> (bool, int)
    decreases s.len() - i,
{
    if i < 0 || i >= s.len() || s[i] == '\n' {
        (false, i)
    } else {
        let d: nat = if esc {
            depth
        } else if s[i] == '[' {
            depth + 1
        } else if s[i] == ']' && depth > 0 {
            (depth - 1) as nat
        } else {
            depth
        };
        if s[i] == '/' && !esc && d == 0 {
            (true, i)
        } else {
            regex_body_end(s, i + 1, d, s[i] == '\\' && !esc)
        }
    }
}

/// The regex flags.
pub open spec fn is_regex_flag(c: char) -> bool {
    c == 'i' || c == 'm' || c == 's' || c == 'g' || c == 'x'
}

pub open spec fn duplicate_flag_message(c: char) -> Seq<char> {
    "regex flag '"@ + seq![c] + "' specified more than once"@
}

pub open spec fn unknown_flag_message(c: char) -> Seq<char> {
    "unrecognised regex flag '"@ + seq![c] + "'"@
}

/// Scanning the letters after a regex from `j`, with `flags` accepted so
/// far: the accepted flags, the message and position of each letter that is
/// refused (a repeated flag or a letter that is no flag), and where the
/// letters end.
pub open spec fn regex_flags(s: Seq<char>, j: int, flags: Seq<char>) -> (Seq<char>, Seq<(Seq<char>, int)>, int)
    decreases s.len() - j,
{
    if j < 0 || j >= s.len() || !spec_is_ascii_alphabetic(s[j]) {
        (flags, Seq::empty(), j)
    } else if is_regex_flag(s[j]) && !flags.contains(s[j]) {
        regex_flags(s, j + 1, flags.push(s[j]))
    } else {
        let r = regex_flags(s, j + 1, flags);
        let msg = if is_regex_flag(s[j]) {
            duplicate_flag_message(s[j])
        } else {
            unknown_flag_message(s[j])
        };
        (r.0, seq![(msg, j)] + r.1, r.2)
    }
}

/// What lexing a regex literal whose opening `/` precedes position `p1`
/// gives: its pattern and flags, the diagnostics (message, code, and the
/// position their span ends at), and where the cursor ends.
pub struct RegexOutcome {
    pub pattern: Seq<char>,
    pub flags: Seq<char>,
    pub diags: Seq<(Seq<char>, Seq<char>, int)>,
    pub end: int,
}

/// The flag diagnostics as (message, code, position).
pub open spec fn flag_diags(items: Seq<(Seq<char>, int)>) -> Seq<(Seq<char>, Seq<char>, int)> {
    items.map_values(|it: (Seq<char>, int)| (it.0, "E1700"@, it.1))
}

pub open spec fn regex_outcome(s: Seq<char>, p1: int) -> RegexOutcome {
    if p1 < s.len() && s[p1] == '/' {
        let f = regex_flags(s, p1 + 1, Seq::empty());
        RegexOutcome {
            pattern: Seq::empty(),
            flags: f.0,
            diags: seq![("empty regex pattern"@, "E1703"@, p1)] + flag_diags(f.1),
            end: f.2,
        }
    } else {
        let b = regex_body_end(s, p1, 0, false);
        if !b.0 {
            RegexOutcome {
                pattern: s.subrange(p1, b.1),
                flags: Seq::empty(),
                diags: seq![("unterminated regex literal"@, "E1701"@, b.1)],
                end: b.1,
            }
        } else {
            let f = regex_flags(s, b.1 + 1, Seq::empty());
            RegexOutcome {
                pattern: s.subrange(p1, b.1),
                flags: f.0,
                diags: flag_diags(f.1),
                end: f.2,
            }
        }
    }
}

/// `new` is `old` followed by one diagnostic per item (message, code, and
/// the position its span, from the given start, ends at).
pub open spec fn diags_added(
    s: Seq<char>,
    old: Seq<Diagnostic>,
    new: Seq<Diagnostic>,
    items: Seq<(Seq<char>, Seq<char>, int)>,
    start_byte: usize,
    start_line: u32,
    start_col: u32,
) -> bool {
    &&& new.len() == old.len() + items.len()
    &&& new.take(old.len() as int) == old
    &&& forall|k: int|
        0 <= k < items.len() ==> diag_is(
            #[trigger] new[old.len() + k],
            items[k].0,
            items[k].1,
            Span {
                start: start_byte,
                end: byte_offset(s, items[k].2) as usize,
                line: start_line,
                column: start_col,
            },
        )
}

/// The effect of lexing, from source `s`, a regex literal whose opening `/`
/// precedes position `p1`, when the lexer had emitted `tokens` and reported
/// `diags`; `new` is the lexer afterwards.
pub open spec fn regex_effect_from(
    s: Seq<char>,
    p1: int,
    tokens: Seq<Token>,
    diags: Seq<Diagnostic>,
    new: Lexer,
    start_byte: usize,
    start_line: u32,
    start_col: u32,
) -> bool {
    let o = regex_outcome(s, p1);
    &&& new.wf()
    &&& new.chars@ == s
    &&& new.pos == o.end
    &&& diags_added(s, diags, new.diagnostics@, o.diags, start_byte, start_line, start_col)
    &&& one_more_token(tokens, new.tokens@)
    &&& new.tokens@.last().kind matches TokenKind::RegexLiteral { pattern, flags } && pattern@ == o.pattern
        && flags@ == o.flags
    &&& new.tokens@.last().span == (Span {
        start: start_byte,
        end: byte_offset(s, o.end) as usize,
        line: start_line,
        column: start_col,
    })
}

/// The effect of lexing a regex literal from `old` (its cursor just past the
/// opening `/`) to `new`.
pub open spec fn regex_effect(old: Lexer, new: Lexer, start_byte: usize, start_line: u32, start_col: u32) -> bool {
    regex_effect_from(old.chars@, old.pos as int, old.tokens@, old.diagnostics@, new, start_byte, start_line, start_col)
}

/// Does `s` hold the character `c`?
fn str_has_char(s: &str, c: char) -> (r: bool)
    ensures
        r == s@.contains(c),
{
    let n = s.unicode_len();
    let mut i: usize = 0;
    while i < n
        invariant
            n == s@.len(),
            i <= n,
            forall|k: int| 0 <= k < i ==> s@[k] != c,
        decreases n - i,
    {
        if s.get_char(i) == c {
            assert(s@[i as int] == c);
            return true;
        }
        i = i + 1;
    }
    false
}

/// Where a regex body scan stops lies between its start and the end of the
/// source, and a closed body stops on a `/`.
pub proof fn lemma_regex_body_end(s: Seq<char>, i: int, depth: nat, esc: bool)
    requires
        0 <= i <= s.len(),
    ensures
        i <= regex_body_end(s, i, depth, esc).1 <= s.len(),
        regex_body_end(s, i, depth, esc).0 ==> regex_body_end(s, i, depth, esc).1 < s.len()
            && s[regex_body_end(s, i, depth, esc).1] == '/',
    decreases s.len() - i,
{
    if i < s.len() && s[i] != '\n' {
        let d: nat = if esc {
            depth
        } else if s[i] == '[' {
            depth + 1
        } else if s[i] == ']' && depth > 0 {
            (depth - 1) as nat
        } else {
            depth
        };
        if !(s[i] == '/' && !esc && d == 0) {
            lemma_regex_body_end(s, i + 1, d, s[i] == '\\' && !esc);
        }
    }
}

impl Lexer {
    /// Scan a regex body from the cursor, up to (not past) its closing `/`
    /// or to where it is left unterminated; returns the body and whether it
    /// was closed.
    fn scan_regex_body(&mut self) -> (r: (String, bool))
        requires
            old(self).wf(),
        ensures
            final(self).wf(),
            final(self).chars@ == old(self).chars@,
            final(self).tokens@ == old(self).tokens@,
            final(self).diagnostics@ == old(self).diagnostics@,
            (r.1, final(self).pos as int) == regex_body_end(old(self).chars@, old(self).pos as int, 0, false),
            r.0@ == old(self).chars@.subrange(old(self).pos as int, final(self).pos as int),
    {
        let ghost s = self.chars@;
        let ghost p1 = self.pos as int;
        let mut pattern = String::new();
        let mut depth: usize = 0;
        let mut esc = false;
        let mut closed = false;
        let mut stop = false;
        while !stop
            invariant
                self.wf(),
                self.chars@ == s,
                self.tokens@ == old(self).tokens@,
                self.diagnostics@ == old(self).diagnostics@,
                0 <= p1 <= self.pos <= s.len(),
                depth <= self.pos - p1,
                pattern@ == s.subrange(p1, self.pos as int),
                !stop ==> !closed && regex_body_end(s, self.pos as int, depth as nat, esc) == regex_body_end(s, p1, 0, false),
                stop ==> (closed, self.pos as int) == regex_body_end(s, p1, 0, false),
            decreases s.len() - self.pos + (if stop { 0int } else { 1int }),
        {
            if self.is_at_end() || self.current() == '\n' {
                stop = true;
            } else {
                let c = self.current();
                let mut d = depth;
                if !esc {
                    if c == '[' {
                        d = depth + 1;
                    } else if c == ']' && depth > 0 {
                        d = depth - 1;
                    }
                }
                if c == '/' && !esc && d == 0 {
                    closed = true;
                    stop = true;
                } else {
                    esc = c == '\\' && !esc;
                    depth = d;
                    let ghost pos0 = self.pos as int;
                    assert(s[pos0] == c);
                    push_char(&mut pattern, c);
                    self.advance();
                    assert(pattern@ =~= s.subrange(p1, self.pos as int));
                }
            }
        }
        (pattern, closed)
    }

    /// Scan the letters after a regex as its flags, reporting each refused
    /// letter with `E1700`; returns the accepted flags.
    fn scan_regex_flags(&mut self, start_byte: usize, start_line: u32, start_col: u32) -> (r: String)
        requires
            old(self).wf(),
        ensures
            final(self).wf(),
            final(self).chars@ == old(self).chars@,
            final(self).tokens@ == old(self).tokens@,
            ({
                let f = regex_flags(old(self).chars@, old(self).pos as int, Seq::empty());
                &&& r@ == f.0
                &&& final(self).pos == f.2
                &&& diags_added(
                    old(self).chars@,
                    old(self).diagnostics@,
                    final(self).diagnostics@,
                    flag_diags(f.1),
                    start_byte,
                    start_line,
                    start_col,
                )
            }),
    {
        let ghost s = self.chars@;
        let ghost q = self.pos as int;
        let ghost base = self.diagnostics@;
        let ghost all = regex_flags(s, q, Seq::empty());
        let ghost mut done: Seq<(Seq<char>, int)> = Seq::empty();
        let mut flags = String::new();
        assert(flag_diags(done) =~= Seq::<(Seq<char>, Seq<char>, int)>::empty());
        assert(self.diagnostics@.take(base.len() as int) =~= base);
        assert(done + all.1 =~= all.1);
        while !self.is_at_end() && is_ascii_alphabetic(self.current())
            invariant
                self.wf(),
                self.chars@ == s,
                self.tokens@ == old(self).tokens@,
                q <= self.pos <= s.len(),
                all == regex_flags(s, q, Seq::empty()),
                regex_flags(s, self.pos as int, flags@).0 == all.0,
                regex_flags(s, self.pos as int, flags@).2 == all.2,
                done + regex_flags(s, self.pos as int, flags@).1 == all.1,
                diags_added(s, base, self.diagnostics@, flag_diags(done), start_byte, start_line, start_col),
            decreases s.len() - self.pos,
        {
            let c = self.current();
            let ghost j = self.pos as int;
            let ghost before = self.diagnostics@;
            if (c == 'i' || c == 'm' || c == 's' || c == 'g' || c == 'x') && !str_has_char(flags.as_str(), c) {
                push_char(&mut flags, c);
                self.advance();
            } else {
                let span = self.make_span(start_byte, start_line, start_col);
                let mut msg = if c == 'i' || c == 'm' || c == 's' || c == 'g' || c == 'x' {
                    String::from_str("regex flag '")
                } else {
                    String::from_str("unrecognised regex flag '")
                };
                push_char(&mut msg, c);
                let msg = if c == 'i' || c == 'm' || c == 's' || c == 'g' || c == 'x' {
                    msg.concat("' specified more than once")
                } else {
                    msg.concat("'")
                };
                let ghost item = (msg@, j);
                assert(msg@ =~= (if is_regex_flag(c) {
                    duplicate_flag_message(c)
                } else {
                    unknown_flag_message(c)
                }));
                self.report(Diagnostic::error_with_code(msg, span, "E1700"));
                self.advance();
                proof {
                    let old_done = done;
                    done = done.push(item);
                    assert(flag_diags(done) =~= flag_diags(old_done).push((item.0, "E1700"@, item.1)));
                    assert(done + regex_flags(s, self.pos as int, flags@).1 =~= all.1) by {
                        assert(seq![item] + regex_flags(s, self.pos as int, flags@).1 == regex_flags(s, j, flags@).1);
                        assert(old_done + regex_flags(s, j, flags@).1 == all.1);
                        assert(old_done + (seq![item] + regex_flags(s, self.pos as int, flags@).1) =~= done + regex_flags(s, self.pos as int, flags@).1);
                    }
                    assert forall|k: int| 0 <= k < flag_diags(done).len() implies diag_is(
                        #[trigger] self.diagnostics@[base.len() + k],
                        flag_diags(done)[k].0,
                        flag_diags(done)[k].1,
                        Span {
                            start: start_byte,
                            end: byte_offset(s, flag_diags(done)[k].2) as usize,
                            line: start_line,
                            column: start_col,
                        },
                    ) by {
                        if k < old_done.len() {
                            assert(self.diagnostics@[base.len() + k] == before[base.len() + k]);
                        }
                    }
                    assert(self.diagnostics@.take(base.len() as int) =~= base) by {
                        assert(before.take(base.len() as int) == base);
                    }
                }
            }
        }
        proof {
            assert(regex_flags(s, self.pos as int, flags@).1 =~= Seq::<(Seq<char>, int)>::empty());
            assert(done =~= all.1);
        }
        flags
    }

    /// Lex a `/pattern/flags` regex literal; the opening `/` (which started
    /// at the given position) has been consumed. An empty pattern `//` is
    /// reported (`E1703`) and lexed with its flags; a body that reaches the
    /// end of the line or source is reported as unterminated (`E1701`) and
    /// lexed as it stands; each refused flag letter is reported (`E1700`).
    /// A token is always emitted.
    pub fn lex_regex_literal(&mut self, start_byte: usize, start_line: u32, start_col: u32)
        requires
            old(self).wf(),
        ensures
            regex_effect(*old(self), *final(self), start_byte, start_line, start_col),
    {
        let ghost s = self.chars@;
        let ghost p1 = self.pos as int;
        let ghost base = self.diagnostics@;
        let ghost o = regex_outcome(s, p1);
        proof {
            reveal_strlit("empty regex pattern");
            reveal_strlit("unterminated regex literal");
        }
        if !self.is_at_end() && self.current() == '/' {
            let span = self.make_span(start_byte, start_line, start_col);
            self.report(Diagnostic::error_with_code(String::from_str("empty regex pattern"), span, "E1703"));
            let ghost mid = self.diagnostics@;
            self.advance();
            let flags = self.scan_regex_flags(start_byte, start_line, start_col);
            proof {
                let f = regex_flags(s, p1 + 1, Seq::empty());
                assert(o.diags == seq![("empty regex pattern"@, "E1703"@, p1)] + flag_diags(f.1));
                assert forall|k: int| 0 <= k < o.diags.len() implies diag_is(
                    #[trigger] self.diagnostics@[base.len() + k],
                    o.diags[k].0,
                    o.diags[k].1,
                    Span { start: start_byte, end: byte_offset(s, o.diags[k].2) as usize, line: start_line, column: start_col },
                ) by {
                    if k == 0 {
                        assert(self.diagnostics@[base.len() as int] == mid[base.len() as int]);
                    } else {
                        assert(self.diagnostics@[base.len() + k] == self.diagnostics@[mid.len() + (k - 1)]);
                    }
                }
                assert(self.diagnostics@.take(base.len() as int) =~= base) by {
                    assert(self.diagnostics@.take(mid.len() as int) == mid);
                    assert(mid.take(base.len() as int) == base);
                }
            }
            self.emit(TokenKind::RegexLiteral { pattern: String::new(), flags }, start_byte, start_line, start_col);
            return;
        }
        proof {
            lemma_regex_body_end(s, p1, 0, false);
        }
        let (pattern, closed) = self.scan_regex_body();
        if !closed {
            let span = self.make_span(start_byte, start_line, start_col);
            self.report(Diagnostic::error_with_code(String::from_str("unterminated regex literal"), span, "E1701"));
            self.emit(TokenKind::RegexLiteral { pattern, flags: String::new() }, start_byte, start_line, start_col);
            proof {
                assert(self.diagnostics@.take(base.len() as int) =~= base);
            }
            return;
        }
        self.advance();
        let flags = self.scan_regex_flags(start_byte, start_line, start_col);
        self.emit(TokenKind::RegexLiteral { pattern, flags }, start_byte, start_line, start_col);
    }
}

} // verus!
