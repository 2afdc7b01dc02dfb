//! Small classifications of types, operators and method names used while
//! lowering to MIR.
use vstd::prelude::*;

use crate::hir::types::{ty_same, MixinBound, Ty};
use crate::lexer::token::{align_char_meaning, Alignment, FormatSpec};
use crate::mir::lower::runtime_abi::{is_static_constructor, spec_is_static_constructor, base_ty_name};
use crate::mir::nodes::{CmpOp, LocalId, MirValue};
use crate::parser::ast::BinOp;
use crate::text::{find_char, has_prefix, starts_with, str_eq, substring, table_contains, table_has};

verus! {

/// `t` with one reference layer (`&T`, `&var T`, with or without a
/// lifetime) peeled off; other types stay as they are.
pub open spec fn referent(t: Ty) -> Ty {
    match t {
        Ty::Ref(inner) => *inner,
        Ty::RefMut(inner) => *inner,
        Ty::RefLifetime(_, inner) => *inner,
        Ty::RefMutLifetime(_, inner) => *inner,
        _ => t,
    }
}

/// Through any references, an `Option`, or a class whose name starts with
/// `Option`.
pub open spec fn spec_is_option_type(t: Ty) -> bool
    decreases t,
{
    match t {
        Ty::Option(_) => true,
        Ty::Ref(inner) => spec_is_option_type(*inner),
        Ty::RefMut(inner) => spec_is_option_type(*inner),
        Ty::RefLifetime(_, inner) => spec_is_option_type(*inner),
        Ty::RefMutLifetime(_, inner) => spec_is_option_type(*inner),
        Ty::Class { name, .. } => has_prefix(name@, "Option"@),
        _ => false,
    }
}

/// Through any references, a `Result`, or a class whose name starts with
/// `Result`.
pub open spec fn spec_is_result_type(t: Ty) -> bool
    decreases t,
{
    match t {
        Ty::Result(_, _) => true,
        Ty::Ref(inner) => spec_is_result_type(*inner),
        Ty::RefMut(inner) => spec_is_result_type(*inner),
        Ty::RefLifetime(_, inner) => spec_is_result_type(*inner),
        Ty::RefMutLifetime(_, inner) => spec_is_result_type(*inner),
        Ty::Class { name, .. } => has_prefix(name@, "Result"@),
        _ => false,
    }
}

pub fn is_option_type(ty: &Ty) -> (r: bool)
    ensures
        r == spec_is_option_type(*ty),
    decreases ty,
{
    match ty {
        Ty::Option(_) => true,
        Ty::Ref(inner) | Ty::RefMut(inner) | Ty::RefLifetime(_, inner) | Ty::RefMutLifetime(
            _,
            inner,
        ) => is_option_type(inner),
        Ty::Class { name, .. } => starts_with(name.as_str(), "Option"),
        _ => false,
    }
}

pub fn is_result_type(ty: &Ty) -> (r: bool)
    ensures
        r == spec_is_result_type(*ty),
    decreases ty,
{
    match ty {
        Ty::Result(_, _) => true,
        Ty::Ref(inner) | Ty::RefMut(inner) | Ty::RefLifetime(_, inner) | Ty::RefMutLifetime(
            _,
            inner,
        ) => is_result_type(inner),
        Ty::Class { name, .. } => starts_with(name.as_str(), "Result"),
        _ => false,
    }
}

/// The collection operations that take a closure and can be inlined over
/// the class's underlying `Vec` (its first field).
pub open spec fn collection_methods() -> Seq<&'static str> {
    seq![
        "each",
        "each_with_index",
        "filter",
        "where_matching",
        "find",
        "position",
        "map",
        "partition",
        "into_filtered",
        "display_all",
    ]
}

fn collection_methods_table() -> (t: Vec<&'static str>)
    ensures
        t@ == collection_methods(),
{
    let t = vec![
        "each",
        "each_with_index",
        "filter",
        "where_matching",
        "find",
        "position",
        "map",
        "partition",
        "into_filtered",
        "display_all",
    ];
    assert(t@ =~= collection_methods());
    t
}

/// Is `method_name` a closure-taking collection operation that can be
/// inlined?
pub fn is_collection_method(method_name: &str) -> (r: bool)
    ensures
        r == table_contains(collection_methods(), method_name@),
{
    table_has(&collection_methods_table(), method_name)
}

/// Through references, an `Array`, or a class whose base name (before any
/// `[`) is `Vec` or `Array`.
pub open spec fn spec_is_vec_or_iterator_type(t: Ty) -> bool
    decreases t,
{
    match t {
        Ty::Array(_) => true,
        Ty::Ref(inner) => spec_is_vec_or_iterator_type(*inner),
        Ty::RefMut(inner) => spec_is_vec_or_iterator_type(*inner),
        Ty::RefLifetime(_, inner) => spec_is_vec_or_iterator_type(*inner),
        Ty::RefMutLifetime(_, inner) => spec_is_vec_or_iterator_type(*inner),
        Ty::Class { name, .. } => base_ty_name(name@) == "Vec"@ || base_ty_name(name@) == "Array"@,
        _ => false,
    }
}

/// The base of a type name (before the first `[`), as an owned string.
fn base_name(name: &str) -> (r: String)
    ensures
        r@ == base_ty_name(name@),
{
    match find_char(name, '[') {
        Some(pos) => {
            let r = substring(name, 0, pos);
            assert(r@ =~= base_ty_name(name@));
            r
        },
        None => {
            let r = substring(name, 0, name.unicode_len());
            assert(r@ =~= base_ty_name(name@));
            r
        },
    }
}

/// Is `ty` a `Vec`-backed collection whose closure combinators can be
/// inlined (as opposed to a user class wrapping one)?
pub fn is_vec_or_iterator_type(ty: &Ty) -> (r: bool)
    ensures
        r == spec_is_vec_or_iterator_type(*ty),
    decreases ty,
{
    match ty {
        Ty::Array(_) => true,
        Ty::Ref(inner) | Ty::RefMut(inner) | Ty::RefLifetime(_, inner) | Ty::RefMutLifetime(
            _,
            inner,
        ) => is_vec_or_iterator_type(inner),
        Ty::Class { name, .. } => {
            let base = base_name(name.as_str());
            str_eq(base.as_str(), "Vec") || str_eq(base.as_str(), "Array")
        },
        _ => false,
    }
}

/// Is `type_name.method_name` a static (no-`self`) method of a built-in type?
pub fn is_builtin_static_method(ty_name: &str, method_name: &str) -> (r: bool)
    ensures
        r == spec_is_static_constructor(ty_name@, method_name@),
{
    is_static_constructor(ty_name, method_name)
}

/// One of the names of the callable mixins.
pub open spec fn is_callable_mixin_name(n: Seq<char>) -> bool {
    n == "Fn"@ || n == "FnMut"@ || n == "FnOnce"@
}

/// After peeling one reference layer, a function type or a `some`/`any`
/// mixin with a `Fn`, `FnMut` or `FnOnce` bound.
pub open spec fn spec_ty_is_callable(t: Ty) -> bool {
    match referent(t) {
        Ty::Fn { .. } | Ty::FnMut { .. } | Ty::FnOnce { .. } => true,
        Ty::SomeMixin(bs) => exists|i: int|
            0 <= i < bs@.len() && is_callable_mixin_name(#[trigger] bs@[i].name@),
        Ty::AnyMixin(bs) => exists|i: int|
            0 <= i < bs@.len() && is_callable_mixin_name(#[trigger] bs@[i].name@),
        _ => false,
    }
}

/// Is one of `bounds` a callable mixin?
fn any_callable_bound(bounds: &Vec<MixinBound>) -> (r: bool)
    ensures
        r == exists|i: int| 0 <= i < bounds@.len() && is_callable_mixin_name(#[trigger] bounds@[i].name@),
{
    let mut i: usize = 0;
    while i < bounds.len()
        invariant
            i <= bounds@.len(),
            forall|k: int| 0 <= k < i ==> !is_callable_mixin_name(#[trigger] bounds@[k].name@),
        decreases bounds@.len() - i,
    {
        let n = bounds[i].name.as_str();
        if str_eq(n, "Fn") || str_eq(n, "FnMut") || str_eq(n, "FnOnce") {
            assert(is_callable_mixin_name(bounds@[i as int].name@));
            return true;
        }
        i = i + 1;
    }
    false
}

/// Is `ty` a callable shape (a closure type, or `some`/`any Fn[...]`)?
pub fn ty_is_callable(ty: &Ty) -> (r: bool)
    ensures
        r == spec_ty_is_callable(*ty),
{
    let peeled = match ty {
        Ty::Ref(inner) | Ty::RefMut(inner) | Ty::RefLifetime(_, inner) | Ty::RefMutLifetime(
            _,
            inner,
        ) => &**inner,
        other => other,
    };
    assert(*peeled == referent(*ty));
    match peeled {
        Ty::Fn { .. } | Ty::FnMut { .. } | Ty::FnOnce { .. } => true,
        Ty::SomeMixin(bounds) | Ty::AnyMixin(bounds) => any_callable_bound(bounds),
        _ => false,
    }
}

/// The element type of a collection type: `T` for `Array[T]`, through
/// references; `Int` for anything else.
pub open spec fn spec_element_type_of(t: Ty) -> Ty
    decreases t,
{
    match t {
        Ty::Array(inner) => *inner,
        Ty::Ref(inner) => spec_element_type_of(*inner),
        Ty::RefMut(inner) => spec_element_type_of(*inner),
        Ty::RefLifetime(_, inner) => spec_element_type_of(*inner),
        Ty::RefMutLifetime(_, inner) => spec_element_type_of(*inner),
        _ => Ty::Int,
    }
}

pub fn element_type_of(ty: &Ty) -> (r: Ty)
    ensures
        ty_same(r, spec_element_type_of(*ty)),
    decreases ty,
{
    match ty {
        Ty::Array(inner) => (**inner).clone(),
        Ty::Ref(inner) | Ty::RefMut(inner) | Ty::RefLifetime(_, inner) | Ty::RefMutLifetime(
            _,
            inner,
        ) => element_type_of(inner),
        _ => Ty::Int,
    }
}

/// The four integers a format specification is passed to the runtime as:
/// width (0 when unset), precision (-1 when unset), alignment (0 default,
/// 1 `<`, 2 `^`, 3 `>`) and fill character code (-1 when unset).
pub open spec fn spec_encode_format_spec(spec: FormatSpec) -> (i64, i64, i64, i64) {
    (
        match spec.width {
            Some(w) => w as i64,
            None => 0i64,
        },
        match spec.precision {
            Some(p) => p as i64,
            None => -1i64,
        },
        match spec.align {
            Some(c) => if c == '<' {
                1i64
            } else if c == '^' {
                2i64
            } else if c == '>' {
                3i64
            } else {
                0i64
            },
            None => 0i64,
        },
        match spec.fill {
            Some(c) => (c as u32) as i64,
            None => -1i64,
        },
    )
}

pub fn encode_format_spec(spec: &FormatSpec) -> (r: (i64, i64, i64, i64))
    ensures
        r == spec_encode_format_spec(*spec),
{
    let width: i64 = match spec.width {
        Some(w) => #[verifier::truncate] (w as i64),
        None => 0,
    };
    let precision: i64 = match spec.precision {
        Some(p) => #[verifier::truncate] (p as i64),
        None => -1,
    };
    let align: i64 = match spec.align {
        Some(c) => if c == '<' {
            1
        } else if c == '^' {
            2
        } else if c == '>' {
            3
        } else {
            0
        },
        None => 0,
    };
    let fill: i64 = match spec.fill {
        Some(c) => (c as u32) as i64,
        None => -1,
    };
    (width, precision, align, fill)
}

/// The alignment the runtime's formatter gives to an alignment code
/// (`ruxen_fmt_formatter_new_with_spec`): 1 left, 2 center, 3 right; any
/// other code keeps the default.
pub open spec fn runtime_alignment(code: i64) -> Option<Alignment> {
    if code == 1 {
        Some(Alignment::Left)
    } else if code == 2 {
        Some(Alignment::Center)
    } else if code == 3 {
        Some(Alignment::Right)
    } else {
        None
    }
}

/// The alignment code handed to the runtime asks for the alignment that the
/// spec's `align` character means (`<` left, `^` center, `>` right), and for
/// the default when there is none; so distinct alignments get distinct codes.
pub proof fn law_format_align_code_keeps_alignment(spec: FormatSpec)
    ensures
        runtime_alignment(spec_encode_format_spec(spec).2) == (match spec.align {
            Some(c) => align_char_meaning(c),
            None => None,
        }),
{
}

/// Two specs whose alignments differ are encoded with different alignment codes.
pub proof fn law_format_align_codes_distinct(a: FormatSpec, b: FormatSpec)
    requires
        a.align is Some,
        b.align is Some,
        align_char_meaning(a.align->0) is Some,
        align_char_meaning(a.align->0) != align_char_meaning(b.align->0),
    ensures
        spec_encode_format_spec(a).2 != spec_encode_format_spec(b).2,
{
    law_format_align_code_keeps_alignment(a);
    law_format_align_code_keeps_alignment(b);
}

/// A local as an operand; unit when there is none.
pub fn local_to_value(local: Option<LocalId>) -> (v: MirValue)
    ensures
        v == (match local {
            Some(id) => MirValue::Use(id),
            None => MirValue::Unit,
        }),
{
    match local {
        Some(id) => MirValue::Use(id),
        None => MirValue::Unit,
    }
}

/// The comparison operators.
pub open spec fn spec_is_comparison(op: BinOp) -> bool {
    op is Eq || op is NotEq || op is Lt || op is Gt || op is LtEq || op is GtEq
}

pub fn is_comparison(op: BinOp) -> (r: bool)
    ensures
        r == spec_is_comparison(op),
{
    match op {
        BinOp::Eq | BinOp::NotEq | BinOp::Lt | BinOp::Gt | BinOp::LtEq | BinOp::GtEq => true,
        _ => false,
    }
}

/// What a source comparison operator asserts of its two operands.
pub open spec fn binop_relation(op: BinOp, a: int, b: int) -> bool {
    match op {
        BinOp::Eq => a == b,
        BinOp::NotEq => a != b,
        BinOp::Lt => a < b,
        BinOp::Gt => a > b,
        BinOp::LtEq => a <= b,
        BinOp::GtEq => a >= b,
        _ => false,
    }
}

/// What a comparison instruction computes of its two operands.
pub open spec fn compare_instruction_holds(c: CmpOp, a: int, b: int) -> bool {
    match c {
        CmpOp::Eq => a == b,
        CmpOp::NotEq => a != b,
        CmpOp::Lt => a < b,
        CmpOp::LtEq => a <= b,
        CmpOp::Gt => a > b,
        CmpOp::GtEq => a >= b,
    }
}

/// A comparison operator is lowered to the instruction with the same
/// relation: on every pair of operands the instruction holds exactly when
/// the source comparison does.
pub proof fn law_comparison_lowering_keeps_relation(op: BinOp, a: int, b: int)
    requires
        spec_is_comparison(op),
    ensures
        compare_instruction_holds(spec_binop_to_cmpop(op), a, b) == binop_relation(op, a, b),
{
}

/// The comparison instruction operator of a comparison operator.
pub open spec fn spec_binop_to_cmpop(op: BinOp) -> CmpOp {
    match op {
        BinOp::Eq => CmpOp::Eq,
        BinOp::NotEq => CmpOp::NotEq,
        BinOp::Lt => CmpOp::Lt,
        BinOp::Gt => CmpOp::Gt,
        BinOp::LtEq => CmpOp::LtEq,
        _ => CmpOp::GtEq,
    }
}

pub fn binop_to_cmpop(op: BinOp) -> (c: CmpOp)
    requires
        spec_is_comparison(op),
    ensures
        c == spec_binop_to_cmpop(op),
        forall|a: int, b: int| #[trigger] compare_instruction_holds(c, a, b) == binop_relation(op, a, b),
{
    match op {
        BinOp::Eq => CmpOp::Eq,
        BinOp::NotEq => CmpOp::NotEq,
        BinOp::Lt => CmpOp::Lt,
        BinOp::Gt => CmpOp::Gt,
        BinOp::LtEq => CmpOp::LtEq,
        _ => CmpOp::GtEq,
    }
}

} // verus!
