//! Inline expansion of calls that take a closure argument.
pub mod sort_by;
