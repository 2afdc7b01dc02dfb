use vstd::prelude::*;

pub mod text;
pub mod diagnostics;
pub mod hir;
pub mod lexer;
pub mod mir;
pub mod no_std;
pub mod parser;
pub mod resolve;

verus! {
} // verus!
