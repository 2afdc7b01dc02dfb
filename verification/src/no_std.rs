//! `no_std` validation: a `no_std` unit has no allocator, so every
//! construction of a heap value (`String`, `Array`, `Map`, `Set`) is
//! rejected with `E1400`. Borrows, reads and pass-throughs of heap values
//! are allowed: what is flagged is the construction, or a call whose result
//! is a freshly produced heap value.
use vstd::prelude::*;

use crate::diagnostics::{diag_is, Diagnostic};
use crate::hir::nodes::{
    HirFuncDef, HirExpr, HirExprKind, HirImplBlock, HirImplItem, HirInterpolationPart, HirItem, HirMatchArm,
    HirMixinItem, HirProgram,
    HirStatement,
};
use crate::hir::types::Ty;
use crate::lexer::token::Span;

verus! {

/// A heap-allocated collection or string type.
pub open spec fn spec_is_heap_alloc_ty(t: Ty) -> bool {
    t is String || t is Array || t is Mapping || t is SetOf
}

/// Is `ty` a heap collection or string, whose construction needs the
/// allocator?
pub fn is_heap_alloc_ty(ty: &Ty) -> (r: bool)
    ensures
        r == spec_is_heap_alloc_ty(*ty),
{
    match ty {
        Ty::String | Ty::Array(_) | Ty::Mapping(_, _) | Ty::SetOf(_) => true,
        _ => false,
    }
}

/// The message of an `E1400` for a construction described as `what`.
pub open spec fn heap_message(what: Seq<char>) -> Seq<char> {
    "heap allocation ("@ + what
        + ") is not allowed in a no_std unit: there is no global allocator in a no_std build. Provide one (staged) or move this code behind a hosted build."@
}

/// A flag for `e` described as `what`, when `cond` holds.
pub open spec fn flag_if(cond: bool, what: Seq<char>, e: HirExpr) -> Seq<(Seq<char>, Span)> {
    if cond {
        seq![(what, e.span)]
    } else {
        Seq::empty()
    }
}

/// The heap-allocating constructions in `e`, in the order the walk meets
/// them (a node before its sub-expressions): what each is, and its span.
pub open spec fn heap_flags(e: HirExpr) -> Seq<(Seq<char>, Span)>
    decreases e, 1nat,
{
    match e.kind {
        HirExprKind::StringLiteral(_) => flag_if(true, "string literal"@, e),
        HirExprKind::Interpolation { parts } => flag_if(true, "string interpolation"@, e) + parts_flags(parts@),
        HirExprKind::ArrayLiteral(es) => flag_if(true, "array literal"@, e) + list_flags(es@),
        HirExprKind::ArrayFill { value, .. } => flag_if(true, "array fill"@, e) + heap_flags(*value),
        HirExprKind::MapLiteral(pairs) => flag_if(true, "map literal"@, e) + pairs_flags(pairs@),
        HirExprKind::MethodCall { object, args, block, .. } => flag_if(
            spec_is_heap_alloc_ty(e.ty),
            "heap-typed method result"@,
            e,
        ) + heap_flags(*object) + list_flags(args@) + opt_flags(block),
        HirExprKind::FnCall { args, .. } => flag_if(spec_is_heap_alloc_ty(e.ty), "heap-typed call result"@, e)
            + list_flags(args@),
        HirExprKind::MacroCall { args, .. } => flag_if(spec_is_heap_alloc_ty(e.ty), "collection macro"@, e)
            + list_flags(args@),
        HirExprKind::FieldAccess { object, .. } => heap_flags(*object),
        HirExprKind::BinaryOp { left, right, .. } => heap_flags(*left) + heap_flags(*right),
        HirExprKind::UnaryOp { operand, .. } => heap_flags(*operand),
        HirExprKind::Borrow { expr, .. } => heap_flags(*expr),
        HirExprKind::Block(stmts, tail) => stmts_flags(stmts@) + opt_flags(tail),
        HirExprKind::UnsafeBlock(stmts, tail) => stmts_flags(stmts@) + opt_flags(tail),
        HirExprKind::If { cond, then_branch, else_branch } => heap_flags(*cond) + heap_flags(*then_branch)
            + opt_flags(else_branch),
        HirExprKind::Match { scrutinee, arms } => heap_flags(*scrutinee) + arms_flags(arms@),
        HirExprKind::Loop { body } => heap_flags(*body),
        HirExprKind::While { condition, body } => heap_flags(*condition) + heap_flags(*body),
        HirExprKind::For { iterable, body, .. } => heap_flags(*iterable) + heap_flags(*body),
        HirExprKind::Assign { target, value } => heap_flags(*target) + heap_flags(*value),
        HirExprKind::CompoundAssign { target, value, .. } => heap_flags(*target) + heap_flags(*value),
        HirExprKind::Return(r) => opt_flags(r),
        HirExprKind::Break(r) => opt_flags(r),
        HirExprKind::Closure { body, .. } => heap_flags(*body),
        HirExprKind::Construct { fields, .. } => fields_flags(fields@),
        HirExprKind::EnumVariant { fields, .. } => fields_flags(fields@),
        HirExprKind::Tuple(es) => list_flags(es@),
        HirExprKind::Index { object, index } => heap_flags(*object) + heap_flags(*index),
        HirExprKind::Cast { expr, .. } => heap_flags(*expr),
        HirExprKind::Range { start, end, .. } => opt_flags(start) + opt_flags(end),
        _ => Seq::empty(),
    }
}

pub open spec fn opt_flags(o: Option<Box<HirExpr>>) -> Seq<(Seq<char>, Span)>
    decreases o, 0nat,
{
    match o {
        Some(b) => heap_flags(*b),
        None => Seq::empty(),
    }
}

pub open spec fn list_flags(es: Seq<HirExpr>) -> Seq<(Seq<char>, Span)>
    decreases es, 0nat,
{
    if es.len() == 0 {
        Seq::empty()
    } else {
        list_flags(es.drop_last()) + heap_flags(es.last())
    }
}

pub open spec fn pairs_flags(ps: Seq<(HirExpr, HirExpr)>) -> Seq<(Seq<char>, Span)>
    decreases ps, 0nat,
{
    if ps.len() == 0 {
        Seq::empty()
    } else {
        pairs_flags(ps.drop_last()) + heap_flags(ps.last().0) + heap_flags(ps.last().1)
    }
}

pub open spec fn fields_flags(fs: Seq<(String, HirExpr)>) -> Seq<(Seq<char>, Span)>
    decreases fs, 0nat,
{
    if fs.len() == 0 {
        Seq::empty()
    } else {
        fields_flags(fs.drop_last()) + heap_flags(fs.last().1)
    }
}

pub open spec fn parts_flags(ps: Seq<HirInterpolationPart>) -> Seq<(Seq<char>, Span)>
    decreases ps, 0nat,
{
    if ps.len() == 0 {
        Seq::empty()
    } else {
        parts_flags(ps.drop_last()) + match ps.last() {
            HirInterpolationPart::Expr { expr, .. } => heap_flags(expr),
            _ => Seq::empty(),
        }
    }
}

/// The flags of a match arm: its guard's, then its body's.
pub open spec fn arm_flags(arm: HirMatchArm) -> Seq<(Seq<char>, Span)>
    decreases arm, 0nat,
{
    (match arm.guard {
        Some(g) => heap_flags(g),
        None => Seq::empty(),
    }) + heap_flags(arm.body)
}

pub open spec fn arms_flags(arms: Seq<HirMatchArm>) -> Seq<(Seq<char>, Span)>
    decreases arms, 1nat,
{
    if arms.len() == 0 {
        Seq::empty()
    } else {
        arms_flags(arms.drop_last()) + arm_flags(arms.last())
    }
}

pub open spec fn stmts_flags(ss: Seq<HirStatement>) -> Seq<(Seq<char>, Span)>
    decreases ss, 0nat,
{
    if ss.len() == 0 {
        Seq::empty()
    } else {
        stmts_flags(ss.drop_last()) + stmt_flags(ss.last())
    }
}

/// `new` is `old` followed by one `E1400` per flag, in order.
pub open spec fn flags_reported(old: Seq<Diagnostic>, new: Seq<Diagnostic>, flags: Seq<(Seq<char>, Span)>) -> bool {
    &&& new.len() == old.len() + flags.len()
    &&& new.take(old.len() as int) == old
    &&& forall|k: int|
        0 <= k < flags.len() ==> diag_is(#[trigger] new[old.len() + k], heap_message(flags[k].0), "E1400"@, flags[k].1)
}

/// Two runs of reports make one.
pub proof fn lemma_flags_chain(
    a: Seq<Diagnostic>,
    b: Seq<Diagnostic>,
    c: Seq<Diagnostic>,
    x: Seq<(Seq<char>, Span)>,
    y: Seq<(Seq<char>, Span)>,
)
    requires
        flags_reported(a, b, x),
        flags_reported(b, c, y),
    ensures
        flags_reported(a, c, x + y),
{
    assert forall|k: int| 0 <= k < (x + y).len() implies diag_is(
        #[trigger] c[a.len() + k],
        heap_message((x + y)[k].0),
        "E1400"@,
        (x + y)[k].1,
    ) by {
        if k < x.len() {
            assert(c.take(b.len() as int)[a.len() + k] == c[a.len() + k]);
        } else {
            assert(c[a.len() + k] == c[b.len() + (k - x.len())]);
        }
    }
    assert(c.take(a.len() as int) =~= a) by {
        assert(c.take(b.len() as int) == b);
        assert(b.take(a.len() as int) == a);
    }
}

/// Nothing reported.
pub proof fn lemma_flags_none(a: Seq<Diagnostic>)
    ensures
        flags_reported(a, a, Seq::empty()),
{
    assert(a.take(a.len() as int) =~= a);
}


/// Report an `E1400` for the construction `expr` described as `what`.
fn flag(expr: &HirExpr, what: &str, diags: &mut Vec<Diagnostic>)
    ensures
        flags_reported(old(diags)@, final(diags)@, seq![(what@, expr.span)]),
{
    let msg = String::from_str("heap allocation (").concat(what).concat(
        ") is not allowed in a no_std unit: there is no global allocator in a no_std build. Provide one (staged) or move this code behind a hosted build.",
    );
    proof {
        reveal_strlit("heap allocation (");
        reveal_strlit(
            ") is not allowed in a no_std unit: there is no global allocator in a no_std build. Provide one (staged) or move this code behind a hosted build.",
        );
    }
    assert(msg@ =~= heap_message(what@));
    let ghost d0 = diags@;
    diags.push(Diagnostic::error_with_code(msg, expr.span, "E1400"));
    assert(diags@.take(d0.len() as int) =~= d0);
    assert(diags@[d0.len() as int] == diags@.last());
}

/// Report an `E1400` for `expr` when it produces a heap value.
fn flag_if_heap(expr: &HirExpr, what: &str, diags: &mut Vec<Diagnostic>)
    ensures
        flags_reported(old(diags)@, final(diags)@, flag_if(spec_is_heap_alloc_ty(expr.ty), what@, *expr)),
{
    if is_heap_alloc_ty(&expr.ty) {
        flag(expr, what, diags);
    } else {
        proof {
            lemma_flags_none(diags@);
        }
    }
}

fn validate_opt(o: &Option<Box<HirExpr>>, diags: &mut Vec<Diagnostic>)
    ensures
        flags_reported(old(diags)@, final(diags)@, opt_flags(*o)),
    decreases *o, 0nat,
{
    match o {
        Some(b) => validate_expr(b, diags),
        None => {
            proof {
                lemma_flags_none(diags@);
            }
        },
    }
}

fn validate_exprs(es: &Vec<HirExpr>, diags: &mut Vec<Diagnostic>)
    ensures
        flags_reported(old(diags)@, final(diags)@, list_flags(es@)),
    decreases es@, 0nat,
{
    let ghost d0 = diags@;
    let mut i: usize = 0;
    proof {
        lemma_flags_none(d0);
        assert(es@.take(0) =~= Seq::<HirExpr>::empty());
    }
    while i < es.len()
        invariant
            i <= es@.len(),
            flags_reported(d0, diags@, list_flags(es@.take(i as int))),
        decreases es@.len() - i,
    {
        let ghost d1 = diags@;
        assert(decreases_to!(es@ => es@[i as int]));
        validate_expr(&es[i], diags);
        proof {
            assert(es@.take(i + 1).drop_last() =~= es@.take(i as int));
            lemma_flags_chain(d0, d1, diags@, list_flags(es@.take(i as int)), heap_flags(es@[i as int]));
        }
        i = i + 1;
    }
    assert(es@.take(es@.len() as int) =~= es@);
}

fn validate_pairs(ps: &Vec<(HirExpr, HirExpr)>, diags: &mut Vec<Diagnostic>)
    ensures
        flags_reported(old(diags)@, final(diags)@, pairs_flags(ps@)),
    decreases ps@, 0nat,
{
    let ghost d0 = diags@;
    let mut i: usize = 0;
    proof {
        lemma_flags_none(d0);
        assert(ps@.take(0) =~= Seq::<(HirExpr, HirExpr)>::empty());
    }
    while i < ps.len()
        invariant
            i <= ps@.len(),
            flags_reported(d0, diags@, pairs_flags(ps@.take(i as int))),
        decreases ps@.len() - i,
    {
        let ghost d1 = diags@;
        assert(decreases_to!(ps@ => ps@[i as int]));
        validate_expr(&ps[i].0, diags);
        let ghost d2 = diags@;
        validate_expr(&ps[i].1, diags);
        proof {
            assert(ps@.take(i + 1).drop_last() =~= ps@.take(i as int));
            lemma_flags_chain(d0, d1, d2, pairs_flags(ps@.take(i as int)), heap_flags(ps@[i as int].0));
            lemma_flags_chain(
                d0,
                d2,
                diags@,
                pairs_flags(ps@.take(i as int)) + heap_flags(ps@[i as int].0),
                heap_flags(ps@[i as int].1),
            );
        }
        i = i + 1;
    }
    assert(ps@.take(ps@.len() as int) =~= ps@);
}

fn validate_fields(fs: &Vec<(String, HirExpr)>, diags: &mut Vec<Diagnostic>)
    ensures
        flags_reported(old(diags)@, final(diags)@, fields_flags(fs@)),
    decreases fs@, 0nat,
{
    let ghost d0 = diags@;
    let mut i: usize = 0;
    proof {
        lemma_flags_none(d0);
        assert(fs@.take(0) =~= Seq::<(String, HirExpr)>::empty());
    }
    while i < fs.len()
        invariant
            i <= fs@.len(),
            flags_reported(d0, diags@, fields_flags(fs@.take(i as int))),
        decreases fs@.len() - i,
    {
        let ghost d1 = diags@;
        assert(decreases_to!(fs@ => fs@[i as int]));
        validate_expr(&fs[i].1, diags);
        proof {
            assert(fs@.take(i + 1).drop_last() =~= fs@.take(i as int));
            lemma_flags_chain(d0, d1, diags@, fields_flags(fs@.take(i as int)), heap_flags(fs@[i as int].1));
        }
        i = i + 1;
    }
    assert(fs@.take(fs@.len() as int) =~= fs@);
}

fn validate_parts(ps: &Vec<HirInterpolationPart>, diags: &mut Vec<Diagnostic>)
    ensures
        flags_reported(old(diags)@, final(diags)@, parts_flags(ps@)),
    decreases ps@, 0nat,
{
    let ghost d0 = diags@;
    let mut i: usize = 0;
    proof {
        lemma_flags_none(d0);
        assert(ps@.take(0) =~= Seq::<HirInterpolationPart>::empty());
    }
    while i < ps.len()
        invariant
            i <= ps@.len(),
            flags_reported(d0, diags@, parts_flags(ps@.take(i as int))),
        decreases ps@.len() - i,
    {
        let ghost d1 = diags@;
        assert(decreases_to!(ps@ => ps@[i as int]));
        match &ps[i] {
            HirInterpolationPart::Expr { expr: e, .. } => validate_expr(e, diags),
            _ => {
                proof {
                    lemma_flags_none(diags@);
                }
            },
        }
        proof {
            assert(ps@.take(i + 1).drop_last() =~= ps@.take(i as int));
            let part = match ps@[i as int] {
                HirInterpolationPart::Expr { expr, .. } => heap_flags(expr),
                _ => Seq::empty(),
            };
            lemma_flags_chain(d0, d1, diags@, parts_flags(ps@.take(i as int)), part);
        }
        i = i + 1;
    }
    assert(ps@.take(ps@.len() as int) =~= ps@);
}

fn validate_arms(arms: &Vec<HirMatchArm>, diags: &mut Vec<Diagnostic>)
    ensures
        flags_reported(old(diags)@, final(diags)@, arms_flags(arms@)),
    decreases arms@, 1nat,
{
    let ghost d0 = diags@;
    let mut i: usize = 0;
    proof {
        lemma_flags_none(d0);
        assert(arms@.take(0) =~= Seq::<HirMatchArm>::empty());
    }
    while i < arms.len()
        invariant
            i <= arms@.len(),
            flags_reported(d0, diags@, arms_flags(arms@.take(i as int))),
        decreases arms@.len() - i,
    {
        let ghost d1 = diags@;
        assert(decreases_to!(arms@ => arms@[i as int]));
        let arm = &arms[i];
        match &arm.guard {
            Some(g) => validate_expr(g, diags),
            None => {
                proof {
                    lemma_flags_none(diags@);
                }
            },
        }
        let ghost d2 = diags@;
        validate_expr(&arm.body, diags);
        proof {
            let a = arms@[i as int];
            let gf = match a.guard {
                Some(g) => heap_flags(g),
                None => Seq::empty(),
            };
            lemma_flags_chain(d1, d2, diags@, gf, heap_flags(a.body));
            assert(arms@.take(i + 1).drop_last() =~= arms@.take(i as int));
            lemma_flags_chain(d0, d1, diags@, arms_flags(arms@.take(i as int)), arm_flags(a));
        }
        i = i + 1;
    }
    assert(arms@.take(arms@.len() as int) =~= arms@);
}

fn validate_stmts(ss: &Vec<HirStatement>, diags: &mut Vec<Diagnostic>)
    ensures
        flags_reported(old(diags)@, final(diags)@, stmts_flags(ss@)),
    decreases ss@, 0nat,
{
    let ghost d0 = diags@;
    let mut i: usize = 0;
    proof {
        lemma_flags_none(d0);
        assert(ss@.take(0) =~= Seq::<HirStatement>::empty());
    }
    while i < ss.len()
        invariant
            i <= ss@.len(),
            flags_reported(d0, diags@, stmts_flags(ss@.take(i as int))),
        decreases ss@.len() - i,
    {
        let ghost d1 = diags@;
        assert(decreases_to!(ss@ => ss@[i as int]));
        validate_stmt(&ss[i], diags);
        proof {
            assert(ss@.take(i + 1).drop_last() =~= ss@.take(i as int));
            lemma_flags_chain(d0, d1, diags@, stmts_flags(ss@.take(i as int)), stmt_flags(ss@[i as int]));
        }
        i = i + 1;
    }
    assert(ss@.take(ss@.len() as int) =~= ss@);
}

/// The flags of one statement.
pub open spec fn stmt_flags(s: HirStatement) -> Seq<(Seq<char>, Span)>
    decreases s, 0nat,
{
    match s {
        HirStatement::Let { value: Some(v), .. } => heap_flags(v),
        HirStatement::Let { value: None, .. } => Seq::empty(),
        HirStatement::Expr(x) => heap_flags(x),
    }
}

fn validate_stmt(stmt: &HirStatement, diags: &mut Vec<Diagnostic>)
    ensures
        flags_reported(old(diags)@, final(diags)@, stmt_flags(*stmt)),
    decreases *stmt, 0nat,
{
    match stmt {
        HirStatement::Let { value: Some(v), .. } => validate_expr(v, diags),
        HirStatement::Let { value: None, .. } => {
            proof {
                lemma_flags_none(diags@);
            }
        },
        HirStatement::Expr(e) => validate_expr(e, diags),
    }
}


/// Walk `expr`, reporting each heap-allocating construction, and descend
/// into every sub-expression.
fn validate_expr(expr: &HirExpr, diags: &mut Vec<Diagnostic>)
    ensures
        flags_reported(old(diags)@, final(diags)@, heap_flags(*expr)),
    decreases *expr, 1nat,
{
    let ghost d0 = diags@;
    match &expr.kind {
        HirExprKind::StringLiteral(_) => flag(expr, "string literal", diags),
        HirExprKind::Interpolation { parts } => {
            flag(expr, "string interpolation", diags);
            let ghost d1 = diags@;
            validate_parts(parts, diags);
            proof {
                lemma_flags_chain(d0, d1, diags@, flag_if(true, "string interpolation"@, *expr), parts_flags(parts@));
            }
        },
        HirExprKind::ArrayLiteral(elems) => {
            flag(expr, "array literal", diags);
            let ghost d1 = diags@;
            validate_exprs(elems, diags);
            proof {
                lemma_flags_chain(d0, d1, diags@, flag_if(true, "array literal"@, *expr), list_flags(elems@));
            }
        },
        HirExprKind::ArrayFill { value, .. } => {
            flag(expr, "array fill", diags);
            let ghost d1 = diags@;
            validate_expr(value, diags);
            proof {
                lemma_flags_chain(d0, d1, diags@, flag_if(true, "array fill"@, *expr), heap_flags(**value));
            }
        },
        HirExprKind::MapLiteral(pairs) => {
            flag(expr, "map literal", diags);
            let ghost d1 = diags@;
            validate_pairs(pairs, diags);
            proof {
                lemma_flags_chain(d0, d1, diags@, flag_if(true, "map literal"@, *expr), pairs_flags(pairs@));
            }
        },
        HirExprKind::MethodCall { object, args, block, .. } => {
            flag_if_heap(expr, "heap-typed method result", diags);
            let ghost f0 = flag_if(spec_is_heap_alloc_ty(expr.ty), "heap-typed method result"@, *expr);
            let ghost d1 = diags@;
            validate_expr(object, diags);
            let ghost d2 = diags@;
            validate_exprs(args, diags);
            let ghost d3 = diags@;
            validate_opt(block, diags);
            proof {
                lemma_flags_chain(d0, d1, d2, f0, heap_flags(**object));
                lemma_flags_chain(d0, d2, d3, f0 + heap_flags(**object), list_flags(args@));
                lemma_flags_chain(d0, d3, diags@, f0 + heap_flags(**object) + list_flags(args@), opt_flags(*block));
            }
        },
        HirExprKind::FnCall { args, .. } => {
            flag_if_heap(expr, "heap-typed call result", diags);
            let ghost d1 = diags@;
            validate_exprs(args, diags);
            proof {
                lemma_flags_chain(
                    d0,
                    d1,
                    diags@,
                    flag_if(spec_is_heap_alloc_ty(expr.ty), "heap-typed call result"@, *expr),
                    list_flags(args@),
                );
            }
        },
        HirExprKind::MacroCall { args, .. } => {
            flag_if_heap(expr, "collection macro", diags);
            let ghost d1 = diags@;
            validate_exprs(args, diags);
            proof {
                lemma_flags_chain(
                    d0,
                    d1,
                    diags@,
                    flag_if(spec_is_heap_alloc_ty(expr.ty), "collection macro"@, *expr),
                    list_flags(args@),
                );
            }
        },
        HirExprKind::FieldAccess { object, .. } => validate_expr(object, diags),
        HirExprKind::BinaryOp { left, right, .. } => {
            validate_expr(left, diags);
            let ghost d1 = diags@;
            validate_expr(right, diags);
            proof {
                lemma_flags_chain(d0, d1, diags@, heap_flags(**left), heap_flags(**right));
            }
        },
        HirExprKind::UnaryOp { operand, .. } => validate_expr(operand, diags),
        HirExprKind::Borrow { expr: e, .. } => validate_expr(e, diags),
        HirExprKind::Block(stmts, tail) | HirExprKind::UnsafeBlock(stmts, tail) => {
            validate_stmts(stmts, diags);
            let ghost d1 = diags@;
            validate_opt(tail, diags);
            proof {
                lemma_flags_chain(d0, d1, diags@, stmts_flags(stmts@), opt_flags(*tail));
            }
        },
        HirExprKind::If { cond, then_branch, else_branch } => {
            validate_expr(cond, diags);
            let ghost d1 = diags@;
            validate_expr(then_branch, diags);
            let ghost d2 = diags@;
            validate_opt(else_branch, diags);
            proof {
                lemma_flags_chain(d0, d1, d2, heap_flags(**cond), heap_flags(**then_branch));
                lemma_flags_chain(
                    d0,
                    d2,
                    diags@,
                    heap_flags(**cond) + heap_flags(**then_branch),
                    opt_flags(*else_branch),
                );
            }
        },
        HirExprKind::Match { scrutinee, arms } => {
            validate_expr(scrutinee, diags);
            let ghost d1 = diags@;
            validate_arms(arms, diags);
            proof {
                lemma_flags_chain(d0, d1, diags@, heap_flags(**scrutinee), arms_flags(arms@));
            }
        },
        HirExprKind::Loop { body } => validate_expr(body, diags),
        HirExprKind::While { condition, body } => {
            validate_expr(condition, diags);
            let ghost d1 = diags@;
            validate_expr(body, diags);
            proof {
                lemma_flags_chain(d0, d1, diags@, heap_flags(**condition), heap_flags(**body));
            }
        },
        HirExprKind::For { iterable, body, .. } => {
            validate_expr(iterable, diags);
            let ghost d1 = diags@;
            validate_expr(body, diags);
            proof {
                lemma_flags_chain(d0, d1, diags@, heap_flags(**iterable), heap_flags(**body));
            }
        },
        HirExprKind::Assign { target, value } | HirExprKind::CompoundAssign { target, value, .. } => {
            validate_expr(target, diags);
            let ghost d1 = diags@;
            validate_expr(value, diags);
            proof {
                lemma_flags_chain(d0, d1, diags@, heap_flags(**target), heap_flags(**value));
            }
        },
        HirExprKind::Return(r) | HirExprKind::Break(r) => validate_opt(r, diags),
        HirExprKind::Closure { body, .. } => validate_expr(body, diags),
        HirExprKind::Construct { fields, .. } | HirExprKind::EnumVariant { fields, .. } => validate_fields(
            fields,
            diags,
        ),
        HirExprKind::Tuple(elems) => validate_exprs(elems, diags),
        HirExprKind::Index { object, index } => {
            validate_expr(object, diags);
            let ghost d1 = diags@;
            validate_expr(index, diags);
            proof {
                lemma_flags_chain(d0, d1, diags@, heap_flags(**object), heap_flags(**index));
            }
        },
        HirExprKind::Cast { expr: e, .. } => validate_expr(e, diags),
        HirExprKind::Range { start, end, .. } => {
            validate_opt(start, diags);
            let ghost d1 = diags@;
            validate_opt(end, diags);
            proof {
                lemma_flags_chain(d0, d1, diags@, opt_flags(*start), opt_flags(*end));
            }
        },
        HirExprKind::IntLiteral(_) | HirExprKind::FloatLiteral(_) | HirExprKind::BoolLiteral(_)
        | HirExprKind::CharLiteral(_) | HirExprKind::UnitLiteral | HirExprKind::RegexLiteral { .. }
        | HirExprKind::VarRef(_) | HirExprKind::Continue | HirExprKind::NullLiteral
        | HirExprKind::Error => {
            proof {
                lemma_flags_none(d0);
            }
        },
    }
}


/// The flags of the method bodies `ms`.
pub open spec fn methods_flags(ms: Seq<HirFuncDef>) -> Seq<(Seq<char>, Span)>
    decreases ms.len(),
{
    if ms.len() == 0 {
        Seq::empty()
    } else {
        methods_flags(ms.drop_last()) + heap_flags(*ms.last().body)
    }
}

/// The flags of the method bodies of an implementation block.
pub open spec fn impl_flags(its: Seq<HirImplItem>) -> Seq<(Seq<char>, Span)>
    decreases its.len(),
{
    if its.len() == 0 {
        Seq::empty()
    } else {
        impl_flags(its.drop_last()) + match its.last() {
            HirImplItem::Method(m) => heap_flags(*m.body),
            _ => Seq::empty(),
        }
    }
}

/// The flags of the method bodies of a list of implementation blocks.
pub open spec fn blocks_flags(bs: Seq<HirImplBlock>) -> Seq<(Seq<char>, Span)>
    decreases bs.len(),
{
    if bs.len() == 0 {
        Seq::empty()
    } else {
        blocks_flags(bs.drop_last()) + impl_flags(bs.last().items@)
    }
}

/// The flags of the default method bodies of a mixin.
pub open spec fn mixin_flags(its: Seq<HirMixinItem>) -> Seq<(Seq<char>, Span)>
    decreases its.len(),
{
    if its.len() == 0 {
        Seq::empty()
    } else {
        mixin_flags(its.drop_last()) + match its.last() {
            HirMixinItem::DefaultMethod(m) => heap_flags(*m.body),
            _ => Seq::empty(),
        }
    }
}

/// The flags of an item: a function's body; a class's method bodies, then
/// those of its `include` blocks; the method bodies of a struct, an enum or
/// an implementation block; a mixin's default method bodies; the items of a
/// module. Constant initializers, aliases and newtypes are not looked into.
pub open spec fn item_flags(item: HirItem) -> Seq<(Seq<char>, Span)>
    decreases item, 1nat,
{
    match item {
        HirItem::Function(f) => heap_flags(*f.body),
        HirItem::Class(c) => methods_flags(c.methods@) + blocks_flags(c.impl_blocks@),
        HirItem::Struct(st) => methods_flags(st.methods@),
        HirItem::Enum(en) => methods_flags(en.methods@),
        HirItem::Impl(b) => impl_flags(b.items@),
        HirItem::Mixin(mx) => mixin_flags(mx.items@),
        HirItem::Module(m) => items_flags(m.items@),
        _ => Seq::empty(),
    }
}

pub open spec fn items_flags(its: Seq<HirItem>) -> Seq<(Seq<char>, Span)>
    decreases its, 0nat,
{
    if its.len() == 0 {
        Seq::empty()
    } else {
        items_flags(its.drop_last()) + item_flags(its.last())
    }
}

fn validate_methods(ms: &Vec<HirFuncDef>, diags: &mut Vec<Diagnostic>)
    ensures
        flags_reported(old(diags)@, final(diags)@, methods_flags(ms@)),
{
    let ghost d0 = diags@;
    let mut i: usize = 0;
    proof {
        lemma_flags_none(d0);
        assert(ms@.take(0) =~= Seq::<HirFuncDef>::empty());
    }
    while i < ms.len()
        invariant
            i <= ms@.len(),
            flags_reported(d0, diags@, methods_flags(ms@.take(i as int))),
        decreases ms@.len() - i,
    {
        let ghost d1 = diags@;
        validate_expr(&ms[i].body, diags);
        proof {
            assert(ms@.take(i + 1).drop_last() =~= ms@.take(i as int));
            lemma_flags_chain(d0, d1, diags@, methods_flags(ms@.take(i as int)), heap_flags(*ms@[i as int].body));
        }
        i = i + 1;
    }
    assert(ms@.take(ms@.len() as int) =~= ms@);
}

fn validate_impl_items(its: &Vec<HirImplItem>, diags: &mut Vec<Diagnostic>)
    ensures
        flags_reported(old(diags)@, final(diags)@, impl_flags(its@)),
{
    let ghost d0 = diags@;
    let mut i: usize = 0;
    proof {
        lemma_flags_none(d0);
        assert(its@.take(0) =~= Seq::<HirImplItem>::empty());
    }
    while i < its.len()
        invariant
            i <= its@.len(),
            flags_reported(d0, diags@, impl_flags(its@.take(i as int))),
        decreases its@.len() - i,
    {
        let ghost d1 = diags@;
        match &its[i] {
            HirImplItem::Method(m) => validate_expr(&m.body, diags),
            _ => {
                proof {
                    lemma_flags_none(diags@);
                }
            },
        }
        proof {
            assert(its@.take(i + 1).drop_last() =~= its@.take(i as int));
            let one = match its@[i as int] {
                HirImplItem::Method(m) => heap_flags(*m.body),
                _ => Seq::empty(),
            };
            lemma_flags_chain(d0, d1, diags@, impl_flags(its@.take(i as int)), one);
        }
        i = i + 1;
    }
    assert(its@.take(its@.len() as int) =~= its@);
}

fn validate_blocks(bs: &Vec<HirImplBlock>, diags: &mut Vec<Diagnostic>)
    ensures
        flags_reported(old(diags)@, final(diags)@, blocks_flags(bs@)),
{
    let ghost d0 = diags@;
    let mut i: usize = 0;
    proof {
        lemma_flags_none(d0);
        assert(bs@.take(0) =~= Seq::<HirImplBlock>::empty());
    }
    while i < bs.len()
        invariant
            i <= bs@.len(),
            flags_reported(d0, diags@, blocks_flags(bs@.take(i as int))),
        decreases bs@.len() - i,
    {
        let ghost d1 = diags@;
        validate_impl_items(&bs[i].items, diags);
        proof {
            assert(bs@.take(i + 1).drop_last() =~= bs@.take(i as int));
            lemma_flags_chain(d0, d1, diags@, blocks_flags(bs@.take(i as int)), impl_flags(bs@[i as int].items@));
        }
        i = i + 1;
    }
    assert(bs@.take(bs@.len() as int) =~= bs@);
}

fn validate_mixin_items(its: &Vec<HirMixinItem>, diags: &mut Vec<Diagnostic>)
    ensures
        flags_reported(old(diags)@, final(diags)@, mixin_flags(its@)),
{
    let ghost d0 = diags@;
    let mut i: usize = 0;
    proof {
        lemma_flags_none(d0);
        assert(its@.take(0) =~= Seq::<HirMixinItem>::empty());
    }
    while i < its.len()
        invariant
            i <= its@.len(),
            flags_reported(d0, diags@, mixin_flags(its@.take(i as int))),
        decreases its@.len() - i,
    {
        let ghost d1 = diags@;
        match &its[i] {
            HirMixinItem::DefaultMethod(m) => validate_expr(&m.body, diags),
            _ => {
                proof {
                    lemma_flags_none(diags@);
                }
            },
        }
        proof {
            assert(its@.take(i + 1).drop_last() =~= its@.take(i as int));
            let one = match its@[i as int] {
                HirMixinItem::DefaultMethod(m) => heap_flags(*m.body),
                _ => Seq::empty(),
            };
            lemma_flags_chain(d0, d1, diags@, mixin_flags(its@.take(i as int)), one);
        }
        i = i + 1;
    }
    assert(its@.take(its@.len() as int) =~= its@);
}

fn validate_item(item: &HirItem, diags: &mut Vec<Diagnostic>)
    ensures
        flags_reported(old(diags)@, final(diags)@, item_flags(*item)),
    decreases *item, 1nat,
{
    match item {
        HirItem::Function(f) => validate_expr(&f.body, diags),
        HirItem::Class(c) => {
            let ghost d0 = diags@;
            validate_methods(&c.methods, diags);
            let ghost d1 = diags@;
            validate_blocks(&c.impl_blocks, diags);
            proof {
                lemma_flags_chain(d0, d1, diags@, methods_flags(c.methods@), blocks_flags(c.impl_blocks@));
            }
        },
        HirItem::Struct(st) => validate_methods(&st.methods, diags),
        HirItem::Enum(en) => validate_methods(&en.methods, diags),
        HirItem::Mixin(mx) => validate_mixin_items(&mx.items, diags),
        HirItem::Impl(b) => validate_impl_items(&b.items, diags),
        HirItem::Module(m) => validate_items(&m.items, diags),
        _ => {
            proof {
                lemma_flags_none(diags@);
            }
        },
    }
}

fn validate_items(its: &Vec<HirItem>, diags: &mut Vec<Diagnostic>)
    ensures
        flags_reported(old(diags)@, final(diags)@, items_flags(its@)),
    decreases its@, 0nat,
{
    let ghost d0 = diags@;
    let mut i: usize = 0;
    proof {
        lemma_flags_none(d0);
        assert(its@.take(0) =~= Seq::<HirItem>::empty());
    }
    while i < its.len()
        invariant
            i <= its@.len(),
            flags_reported(d0, diags@, items_flags(its@.take(i as int))),
        decreases its@.len() - i,
    {
        let ghost d1 = diags@;
        assert(decreases_to!(its@ => its@[i as int]));
        validate_item(&its[i], diags);
        proof {
            assert(its@.take(i + 1).drop_last() =~= its@.take(i as int));
            lemma_flags_chain(d0, d1, diags@, items_flags(its@.take(i as int)), item_flags(its@[i as int]));
        }
        i = i + 1;
    }
    assert(its@.take(its@.len() as int) =~= its@);
}

/// Validate a typed program under `no_std` rules: one `E1400` per
/// heap-allocating construction in its function and method bodies (those of
/// classes, their `include` blocks, structs, enums, implementation blocks
/// and mixin defaults, through modules), in program order.
pub fn validate(program: &HirProgram) -> (diags: Vec<Diagnostic>)
    ensures
        flags_reported(Seq::empty(), diags@, items_flags(program.items@)),
{
    let mut diags: Vec<Diagnostic> = Vec::new();
    validate_items(&program.items, &mut diags);
    diags
}

} // verus!
