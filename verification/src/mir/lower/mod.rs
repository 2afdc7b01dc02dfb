//! Lowering to MIR: the pieces of the lowering that classify names and
//! types, and the passes over lowered MIR.
use vstd::prelude::*;

use crate::text::{find_char, first_index, substring};

pub mod calls;
pub mod captures;
pub mod closure_inline;
pub mod drops;
pub mod match_arms;
pub mod expr;
pub mod monomorphize;
pub mod runtime_abi;
pub mod trait_default;
pub mod util;

verus! {

/// Scanning from `i` with `depth` open brackets: the position of the `]`
/// that brings the depth back to zero, if any.
pub open spec fn closing_bracket(s: Seq<char>, i: int, depth: int) -> Option<int>
    decreases s.len() - i,
{
    if i < 0 || i >= s.len() {
        None
    } else {
        let d = if s[i] == '[' {
            depth + 1
        } else if s[i] == ']' {
            depth - 1
        } else {
            depth
        };
        if s[i] == ']' && d == 0 {
            Some(i)
        } else {
            closing_bracket(s, i + 1, d)
        }
    }
}

/// A mangled callee with its first balanced `[...]` generic suffix removed
/// (`Array[Int]_map` becomes `Array_map`); `None` without a `[`, or when
/// the brackets never balance.
pub open spec fn spec_strip_generic_suffix(s: Seq<char>) -> Option<Seq<char>> {
    match first_index(s, '[') {
        None => None,
        Some(b) => match closing_bracket(s, b, 0) {
            Some(i) => Some(s.take(b) + s.skip(i + 1)),
            None => None,
        },
    }
}

pub proof fn lemma_closing_bracket_bounds(s: Seq<char>, i: int, depth: int)
    requires
        0 <= i,
    ensures
        closing_bracket(s, i, depth) matches Some(j) ==> i <= j < s.len(),
    decreases s.len() - i,
{
    if i < s.len() {
        let d = if s[i] == '[' {
            depth + 1
        } else if s[i] == ']' {
            depth - 1
        } else {
            depth
        };
        if !(s[i] == ']' && d == 0) {
            lemma_closing_bracket_bounds(s, i + 1, d);
        }
    }
}

pub fn strip_generic_suffix(mangled: &str) -> (r: Option<String>)
    ensures
        match r {
            Some(t) => spec_strip_generic_suffix(mangled@) == Some(t@),
            None => spec_strip_generic_suffix(mangled@) is None,
        },
{
    let bracket_pos = match find_char(mangled, '[') {
        Some(b) => b,
        None => {
            return None;
        },
    };
    let ghost s = mangled@;
    let n = mangled.unicode_len();
    // The bracket depth is `opens - closes`, kept as two counts that never
    // exceed the number of characters scanned.
    let mut opens: usize = 0;
    let mut closes: usize = 0;
    let mut i = bracket_pos;
    proof {
        crate::text::lemma_first_index_unique(s, '[', bracket_pos as int);
        lemma_closing_bracket_bounds(s, bracket_pos as int, 0);
    }
    while i < n
        invariant
            s == mangled@,
            first_index(s, '[') == Some(bracket_pos as int),
            n == s.len(),
            bracket_pos <= i <= n,
            opens + closes <= i - bracket_pos,
            closing_bracket(s, i as int, opens - closes) == closing_bracket(s, bracket_pos as int, 0),
        decreases n - i,
    {
        let c = mangled.get_char(i);
        let ghost d0 = opens - closes;
        if c == '[' {
            opens = opens + 1;
        } else if c == ']' {
            closes = closes + 1;
            if opens == closes {
                let head = substring(mangled, 0, bracket_pos);
                let tail = substring(mangled, i + 1, n);
                let r = head.concat(tail.as_str());
                assert(r@ =~= s.take(bracket_pos as int) + s.skip(i + 1));
                assert(closing_bracket(s, i as int, d0) == Some(i as int));
                assert(first_index(s, '[') == Some(bracket_pos as int));
                return Some(r);
            }
        }
        i = i + 1;
    }
    None
}

} // verus!
