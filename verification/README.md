# ruxen_core

The core of the Ruxen compiler, verified with Verus: the token lexers, the
typed HIR and MIR data model, and the MIR lowering passes that classify names
and types, specialize generic bodies, collect closure captures, and place and
prune scope-exit drops.

Layout:

- `src/text.rs`: string and character helpers the rest builds on.
- `src/lexer/`: the lexer state and its token lexers (identifiers, numbers,
  operators, raw strings, `?c` characters, escapes, regex literals,
  interpolation format specs), each specified by the exact token,
  diagnostics and cursor it produces.
- `src/hir/`, `src/parser/`, `src/resolve/`: the typed HIR, the operators
  it uses, and the symbol table entries the lowering consults.
- `src/mir/nodes.rs`: the MIR data model and its builders.
- `src/mir/lower/`: lowering helpers and passes: runtime ownership tables,
  generic-class monomorphization (symbols, unification, type walks),
  trait-default and generic specialization (type substitution over whole
  bodies), closure captures, drop elaboration (`drops.rs` and
  `drops/scope_exit.rs`), and the MIR that expressions lower to once their
  operands are lowered: binary operations and comparisons (`expr/binops.rs`),
  assignments to variables, fields and elements (`expr/assign.rs`), constructed values
  (`expr/constructors.rs`), `for` loops (`expr/for_loop.rs`), closure
  capture records and cells (`expr/closure.rs`), the tag switch of an enum
  `match` (`match_arms.rs`) and the inline expansion of `sort_by`
  (`closure_inline/sort_by.rs`), with the binding of match patterns and the
  end of each arm. Each is specified by the exact instructions, blocks and
  locals it adds to the function being built.
- `src/no_std.rs`: the `no_std` allocation check.
- `tests/`: tests of the library; `app/`: the floating-point conversions of
  float constants, which stay outside the verified code.

The library does not hold the lowering driver: there is no `Lowerer` type
and no function that lowers a whole program. The pieces above take the
function being built, the current block and the lowering tables as
arguments, and the caller lowers sub-expressions (operands, bodies,
comparators, guards) between them.
