//! Free-function calls in function bodies: where generic free functions are
//! called, and from which bodies.
use vstd::prelude::*;

use crate::hir::nodes::{
    HirExpr, HirExprKind, HirFuncDef, HirImplItem, HirInterpolationPart, HirItem, HirMatchArm,
    HirMixinItem, HirProgram, HirStatement,
};

verus! {

/// The free-function calls of `e` in walk order: a call comes before the
/// calls in its arguments, and sub-expressions are visited left to right.
pub open spec fn calls_in(e: HirExpr) -> Seq<HirExpr>
    decreases e, 1nat,
{
    match e.kind {
        HirExprKind::FnCall { args, .. } => seq![e] + calls_in_list(args@),
        HirExprKind::FieldAccess { object, .. } => calls_in(*object),
        HirExprKind::MethodCall { object, args, block, .. } => calls_in(*object) + calls_in_list(args@) + calls_in_opt(block),
        HirExprKind::BinaryOp { left, right, .. } => calls_in(*left) + calls_in(*right),
        HirExprKind::UnaryOp { operand, .. } => calls_in(*operand),
        HirExprKind::Borrow { expr, .. } => calls_in(*expr),
        HirExprKind::Block(stmts, tail) => calls_in_stmts(stmts@) + calls_in_opt(tail),
        HirExprKind::UnsafeBlock(stmts, tail) => calls_in_stmts(stmts@) + calls_in_opt(tail),
        HirExprKind::If { cond, then_branch, else_branch } => calls_in(*cond) + calls_in(*then_branch) + calls_in_opt(else_branch),
        HirExprKind::Match { scrutinee, arms } => calls_in(*scrutinee) + calls_in_arms(arms@),
        HirExprKind::Loop { body } => calls_in(*body),
        HirExprKind::While { condition, body } => calls_in(*condition) + calls_in(*body),
        HirExprKind::For { iterable, body, .. } => calls_in(*iterable) + calls_in(*body),
        HirExprKind::Assign { target, value } => calls_in(*target) + calls_in(*value),
        HirExprKind::CompoundAssign { target, value, .. } => calls_in(*target) + calls_in(*value),
        HirExprKind::Return(r) => calls_in_opt(r),
        HirExprKind::Break(r) => calls_in_opt(r),
        HirExprKind::Closure { body, .. } => calls_in(*body),
        HirExprKind::Construct { fields, .. } => calls_in_fields(fields@),
        HirExprKind::EnumVariant { fields, .. } => calls_in_fields(fields@),
        HirExprKind::Tuple(es) => calls_in_list(es@),
        HirExprKind::ArrayLiteral(es) => calls_in_list(es@),
        HirExprKind::Index { object, index } => calls_in(*object) + calls_in(*index),
        HirExprKind::Cast { expr, .. } => calls_in(*expr),
        HirExprKind::ArrayFill { value, .. } => calls_in(*value),
        HirExprKind::Range { start, end, .. } => calls_in_opt(start) + calls_in_opt(end),
        HirExprKind::Interpolation { parts } => calls_in_parts(parts@),
        HirExprKind::MacroCall { args, .. } => calls_in_list(args@),
        HirExprKind::MapLiteral(pairs) => calls_in_pairs(pairs@),
        _ => Seq::empty(),
    }
}

pub open spec fn calls_in_opt(o: Option<Box<HirExpr>>) -> Seq<HirExpr>
    decreases o, 0nat,
{
    match o {
        Some(b) => calls_in(*b),
        None => Seq::empty(),
    }
}

pub open spec fn calls_in_list(es: Seq<HirExpr>) -> Seq<HirExpr>
    decreases es, 0nat,
{
    if es.len() == 0 {
        Seq::empty()
    } else {
        calls_in_list(es.drop_last()) + calls_in(es.last())
    }
}

pub open spec fn calls_in_fields(fs: Seq<(String, HirExpr)>) -> Seq<HirExpr>
    decreases fs, 0nat,
{
    if fs.len() == 0 {
        Seq::empty()
    } else {
        calls_in_fields(fs.drop_last()) + calls_in(fs.last().1)
    }
}

pub open spec fn calls_in_pairs(ps: Seq<(HirExpr, HirExpr)>) -> Seq<HirExpr>
    decreases ps, 0nat,
{
    if ps.len() == 0 {
        Seq::empty()
    } else {
        calls_in_pairs(ps.drop_last()) + calls_in(ps.last().0) + calls_in(ps.last().1)
    }
}

pub open spec fn calls_in_part(p: HirInterpolationPart) -> Seq<HirExpr>
    decreases p, 0nat,
{
    match p {
        HirInterpolationPart::Expr { expr, .. } => calls_in(expr),
        _ => Seq::empty(),
    }
}

pub open spec fn calls_in_parts(ps: Seq<HirInterpolationPart>) -> Seq<HirExpr>
    decreases ps, 1nat,
{
    if ps.len() == 0 {
        Seq::empty()
    } else {
        calls_in_parts(ps.drop_last()) + calls_in_part(ps.last())
    }
}

pub open spec fn calls_in_arm(arm: HirMatchArm) -> Seq<HirExpr>
    decreases arm, 0nat,
{
    (match arm.guard {
        Some(g) => calls_in(g),
        None => Seq::empty(),
    }) + calls_in(arm.body)
}

pub open spec fn calls_in_arms(arms: Seq<HirMatchArm>) -> Seq<HirExpr>
    decreases arms, 1nat,
{
    if arms.len() == 0 {
        Seq::empty()
    } else {
        calls_in_arms(arms.drop_last()) + calls_in_arm(arms.last())
    }
}

pub open spec fn calls_in_stmt(s: HirStatement) -> Seq<HirExpr>
    decreases s, 0nat,
{
    match s {
        HirStatement::Let { value: Some(v), .. } => calls_in(v),
        HirStatement::Let { value: None, .. } => Seq::empty(),
        HirStatement::Expr(x) => calls_in(x),
    }
}

pub open spec fn calls_in_stmts(ss: Seq<HirStatement>) -> Seq<HirExpr>
    decreases ss, 1nat,
{
    if ss.len() == 0 {
        Seq::empty()
    } else {
        calls_in_stmts(ss.drop_last()) + calls_in_stmt(ss.last())
    }
}

/// The expressions referred to by a list of references.
pub open spec fn deref_exprs(v: Seq<&HirExpr>) -> Seq<HirExpr> {
    v.map_values(|r: &HirExpr| *r)
}

/// `new` is `old` followed by references to the expressions `es`.
pub open spec fn exprs_pushed(old: Seq<&HirExpr>, new: Seq<&HirExpr>, es: Seq<HirExpr>) -> bool {
    deref_exprs(new) == deref_exprs(old) + es
}

proof fn lemma_chain(a: Seq<&HirExpr>, b: Seq<&HirExpr>, c: Seq<&HirExpr>, x: Seq<HirExpr>, y: Seq<HirExpr>)
    requires
        exprs_pushed(a, b, x),
        exprs_pushed(b, c, y),
    ensures
        exprs_pushed(a, c, x + y),
{
    assert(deref_exprs(c) =~= deref_exprs(a) + (x + y));
}

proof fn lemma_none(a: Seq<&HirExpr>)
    ensures
        exprs_pushed(a, a, Seq::empty()),
{
    assert(deref_exprs(a) =~= deref_exprs(a) + Seq::<HirExpr>::empty());
}

fn walk_calls_in_opt<'a>(o: &'a Option<Box<HirExpr>>, out: &mut Vec<&'a HirExpr>)
    ensures
        exprs_pushed(old(out)@, final(out)@, calls_in_opt(*o)),
    decreases *o, 0nat,
{
    match o {
        Some(b) => walk_calls_in_expr(b, out),
        None => {
            proof {
                lemma_none(out@);
            }
        },
    }
}

fn walk_calls_in_list<'a>(es: &'a Vec<HirExpr>, out: &mut Vec<&'a HirExpr>)
    ensures
        exprs_pushed(old(out)@, final(out)@, calls_in_list(es@)),
    decreases es@, 0nat,
{
    let ghost o0 = out@;
    let mut i: usize = 0;
    proof {
        lemma_none(o0);
        assert(es@.take(0) =~= Seq::<HirExpr>::empty());
    }
    while i < es.len()
        invariant
            i <= es@.len(),
            exprs_pushed(o0, out@, calls_in_list(es@.take(i as int))),
        decreases es@.len() - i,
    {
        let ghost o1 = out@;
        assert(decreases_to!(es@ => es@[i as int]));
        walk_calls_in_expr(&es[i], out);
        proof {
            assert(es@.take(i + 1).drop_last() =~= es@.take(i as int));
            lemma_chain(o0, o1, out@, calls_in_list(es@.take(i as int)), calls_in(es@[i as int]));
        }
        i = i + 1;
    }
    assert(es@.take(es@.len() as int) =~= es@);
}

fn walk_calls_in_fields<'a>(fs: &'a Vec<(String, HirExpr)>, out: &mut Vec<&'a HirExpr>)
    ensures
        exprs_pushed(old(out)@, final(out)@, calls_in_fields(fs@)),
    decreases fs@, 0nat,
{
    let ghost o0 = out@;
    let mut i: usize = 0;
    proof {
        lemma_none(o0);
        assert(fs@.take(0) =~= Seq::<(String, HirExpr)>::empty());
    }
    while i < fs.len()
        invariant
            i <= fs@.len(),
            exprs_pushed(o0, out@, calls_in_fields(fs@.take(i as int))),
        decreases fs@.len() - i,
    {
        let ghost o1 = out@;
        assert(decreases_to!(fs@ => fs@[i as int]));
        walk_calls_in_expr(&fs[i].1, out);
        proof {
            assert(fs@.take(i + 1).drop_last() =~= fs@.take(i as int));
            lemma_chain(o0, o1, out@, calls_in_fields(fs@.take(i as int)), calls_in(fs@[i as int].1));
        }
        i = i + 1;
    }
    assert(fs@.take(fs@.len() as int) =~= fs@);
}

fn walk_calls_in_pairs<'a>(ps: &'a Vec<(HirExpr, HirExpr)>, out: &mut Vec<&'a HirExpr>)
    ensures
        exprs_pushed(old(out)@, final(out)@, calls_in_pairs(ps@)),
    decreases ps@, 0nat,
{
    let ghost o0 = out@;
    let mut i: usize = 0;
    proof {
        lemma_none(o0);
        assert(ps@.take(0) =~= Seq::<(HirExpr, HirExpr)>::empty());
    }
    while i < ps.len()
        invariant
            i <= ps@.len(),
            exprs_pushed(o0, out@, calls_in_pairs(ps@.take(i as int))),
        decreases ps@.len() - i,
    {
        let ghost o1 = out@;
        assert(decreases_to!(ps@ => ps@[i as int]));
        walk_calls_in_expr(&ps[i].0, out);
        let ghost o2 = out@;
        walk_calls_in_expr(&ps[i].1, out);
        proof {
            assert(ps@.take(i + 1).drop_last() =~= ps@.take(i as int));
            lemma_chain(o0, o1, o2, calls_in_pairs(ps@.take(i as int)), calls_in(ps@[i as int].0));
            lemma_chain(o0, o2, out@, calls_in_pairs(ps@.take(i as int)) + calls_in(ps@[i as int].0), calls_in(ps@[i as int].1));
        }
        i = i + 1;
    }
    assert(ps@.take(ps@.len() as int) =~= ps@);
}

fn walk_calls_in_parts<'a>(ps: &'a Vec<HirInterpolationPart>, out: &mut Vec<&'a HirExpr>)
    ensures
        exprs_pushed(old(out)@, final(out)@, calls_in_parts(ps@)),
    decreases ps@, 1nat,
{
    let ghost o0 = out@;
    let mut i: usize = 0;
    proof {
        lemma_none(o0);
        assert(ps@.take(0) =~= Seq::<HirInterpolationPart>::empty());
    }
    while i < ps.len()
        invariant
            i <= ps@.len(),
            exprs_pushed(o0, out@, calls_in_parts(ps@.take(i as int))),
        decreases ps@.len() - i,
    {
        let ghost o1 = out@;
        assert(decreases_to!(ps@ => ps@[i as int]));
        match &ps[i] {
            HirInterpolationPart::Expr { expr: e, .. } => walk_calls_in_expr(e, out),
            _ => {
                proof {
                    lemma_none(out@);
                }
            },
        }
        proof {
            assert(ps@.take(i + 1).drop_last() =~= ps@.take(i as int));
            lemma_chain(o0, o1, out@, calls_in_parts(ps@.take(i as int)), calls_in_part(ps@[i as int]));
        }
        i = i + 1;
    }
    assert(ps@.take(ps@.len() as int) =~= ps@);
}

fn walk_calls_in_arms<'a>(arms: &'a Vec<HirMatchArm>, out: &mut Vec<&'a HirExpr>)
    ensures
        exprs_pushed(old(out)@, final(out)@, calls_in_arms(arms@)),
    decreases arms@, 1nat,
{
    let ghost o0 = out@;
    let mut i: usize = 0;
    proof {
        lemma_none(o0);
        assert(arms@.take(0) =~= Seq::<HirMatchArm>::empty());
    }
    while i < arms.len()
        invariant
            i <= arms@.len(),
            exprs_pushed(o0, out@, calls_in_arms(arms@.take(i as int))),
        decreases arms@.len() - i,
    {
        let ghost o1 = out@;
        assert(decreases_to!(arms@ => arms@[i as int]));
        let arm = &arms[i];
        match &arm.guard {
            Some(g) => walk_calls_in_expr(g, out),
            None => {
                proof {
                    lemma_none(out@);
                }
            },
        }
        let ghost o2 = out@;
        walk_calls_in_expr(&arm.body, out);
        proof {
            let a = arms@[i as int];
            let rg = match a.guard {
                Some(g) => calls_in(g),
                None => Seq::empty(),
            };
            lemma_chain(o1, o2, out@, rg, calls_in(a.body));
            assert(arms@.take(i + 1).drop_last() =~= arms@.take(i as int));
            lemma_chain(o0, o1, out@, calls_in_arms(arms@.take(i as int)), calls_in_arm(a));
        }
        i = i + 1;
    }
    assert(arms@.take(arms@.len() as int) =~= arms@);
}

fn walk_calls_in_stmts<'a>(ss: &'a Vec<HirStatement>, out: &mut Vec<&'a HirExpr>)
    ensures
        exprs_pushed(old(out)@, final(out)@, calls_in_stmts(ss@)),
    decreases ss@, 1nat,
{
    let ghost o0 = out@;
    let mut i: usize = 0;
    proof {
        lemma_none(o0);
        assert(ss@.take(0) =~= Seq::<HirStatement>::empty());
    }
    while i < ss.len()
        invariant
            i <= ss@.len(),
            exprs_pushed(o0, out@, calls_in_stmts(ss@.take(i as int))),
        decreases ss@.len() - i,
    {
        let ghost o1 = out@;
        assert(decreases_to!(ss@ => ss@[i as int]));
        walk_calls_in_stmt(&ss[i], out);
        proof {
            assert(ss@.take(i + 1).drop_last() =~= ss@.take(i as int));
            lemma_chain(o0, o1, out@, calls_in_stmts(ss@.take(i as int)), calls_in_stmt(ss@[i as int]));
        }
        i = i + 1;
    }
    assert(ss@.take(ss@.len() as int) =~= ss@);
}

/// Push every free-function call of a statement, in walk order.
pub fn walk_calls_in_stmt<'a>(stmt: &'a HirStatement, out: &mut Vec<&'a HirExpr>)
    ensures
        exprs_pushed(old(out)@, final(out)@, calls_in_stmt(*stmt)),
    decreases *stmt, 0nat,
{
    match stmt {
        HirStatement::Let { value, .. } => match value {
            Some(v) => walk_calls_in_expr(v, out),
            None => {
                proof {
                    lemma_none(out@);
                }
            },
        },
        HirStatement::Expr(e) => walk_calls_in_expr(e, out),
    }
}

/// Push every free-function call of `expr` (each `FnCall` node, before the
/// calls inside its arguments), in walk order.
pub fn walk_calls_in_expr<'a>(expr: &'a HirExpr, out: &mut Vec<&'a HirExpr>)
    ensures
        exprs_pushed(old(out)@, final(out)@, calls_in(*expr)),
    decreases *expr, 1nat,
{
    let ghost o1 = out@;
    match &expr.kind {
        HirExprKind::FnCall { args, .. } => {
            out.push(expr);
            proof {
                assert(deref_exprs(out@) =~= deref_exprs(o1) + seq![*expr]);
            }
            let ghost o2 = out@;
            walk_calls_in_list(args, out);
            proof {
                lemma_chain(o1, o2, out@, seq![*expr], calls_in_list(args@));
            }
        },
        HirExprKind::FieldAccess { object, .. } => walk_calls_in_expr(object, out),
        HirExprKind::MethodCall { object, args, block, .. } => {
            walk_calls_in_expr(object, out);
            let ghost o2 = out@;
            walk_calls_in_list(args, out);
            let ghost o3 = out@;
            walk_calls_in_opt(block, out);
            proof {
                lemma_chain(o1, o2, o3, calls_in(**object), calls_in_list(args@));
                lemma_chain(o1, o3, out@, calls_in(**object) + calls_in_list(args@), calls_in_opt(*block));
            }
        },
        HirExprKind::MacroCall { args, .. } => walk_calls_in_list(args, out),
        HirExprKind::BinaryOp { left, right, .. } => {
            walk_calls_in_expr(left, out);
            let ghost o2 = out@;
            walk_calls_in_expr(right, out);
            proof {
                lemma_chain(o1, o2, out@, calls_in(**left), calls_in(**right));
            }
        },
        HirExprKind::UnaryOp { operand, .. } => walk_calls_in_expr(operand, out),
        HirExprKind::Borrow { expr: inner, .. } => walk_calls_in_expr(inner, out),
        HirExprKind::Block(stmts, tail) | HirExprKind::UnsafeBlock(stmts, tail) => {
            walk_calls_in_stmts(stmts, out);
            let ghost o2 = out@;
            walk_calls_in_opt(tail, out);
            proof {
                lemma_chain(o1, o2, out@, calls_in_stmts(stmts@), calls_in_opt(*tail));
            }
        },
        HirExprKind::If { cond, then_branch, else_branch } => {
            walk_calls_in_expr(cond, out);
            let ghost o2 = out@;
            walk_calls_in_expr(then_branch, out);
            let ghost o3 = out@;
            walk_calls_in_opt(else_branch, out);
            proof {
                lemma_chain(o1, o2, o3, calls_in(**cond), calls_in(**then_branch));
                lemma_chain(o1, o3, out@, calls_in(**cond) + calls_in(**then_branch), calls_in_opt(*else_branch));
            }
        },
        HirExprKind::Match { scrutinee, arms } => {
            walk_calls_in_expr(scrutinee, out);
            let ghost o2 = out@;
            walk_calls_in_arms(arms, out);
            proof {
                lemma_chain(o1, o2, out@, calls_in(**scrutinee), calls_in_arms(arms@));
            }
        },
        HirExprKind::Loop { body } => walk_calls_in_expr(body, out),
        HirExprKind::While { condition, body } => {
            walk_calls_in_expr(condition, out);
            let ghost o2 = out@;
            walk_calls_in_expr(body, out);
            proof {
                lemma_chain(o1, o2, out@, calls_in(**condition), calls_in(**body));
            }
        },
        HirExprKind::For { iterable, body, .. } => {
            walk_calls_in_expr(iterable, out);
            let ghost o2 = out@;
            walk_calls_in_expr(body, out);
            proof {
                lemma_chain(o1, o2, out@, calls_in(**iterable), calls_in(**body));
            }
        },
        HirExprKind::Assign { target, value } | HirExprKind::CompoundAssign { target, value, .. } => {
            walk_calls_in_expr(target, out);
            let ghost o2 = out@;
            walk_calls_in_expr(value, out);
            proof {
                lemma_chain(o1, o2, out@, calls_in(**target), calls_in(**value));
            }
        },
        HirExprKind::Return(r) | HirExprKind::Break(r) => walk_calls_in_opt(r, out),
        HirExprKind::Closure { body, .. } => walk_calls_in_expr(body, out),
        HirExprKind::Construct { fields, .. } | HirExprKind::EnumVariant { fields, .. } => walk_calls_in_fields(
            fields,
            out,
        ),
        HirExprKind::Tuple(elems) | HirExprKind::ArrayLiteral(elems) => walk_calls_in_list(elems, out),
        HirExprKind::Index { object, index } => {
            walk_calls_in_expr(object, out);
            let ghost o2 = out@;
            walk_calls_in_expr(index, out);
            proof {
                lemma_chain(o1, o2, out@, calls_in(**object), calls_in(**index));
            }
        },
        HirExprKind::Cast { expr: inner, .. } => walk_calls_in_expr(inner, out),
        HirExprKind::ArrayFill { value, .. } => walk_calls_in_expr(value, out),
        HirExprKind::Range { start, end, .. } => {
            walk_calls_in_opt(start, out);
            let ghost o2 = out@;
            walk_calls_in_opt(end, out);
            proof {
                lemma_chain(o1, o2, out@, calls_in_opt(*start), calls_in_opt(*end));
            }
        },
        HirExprKind::Interpolation { parts } => walk_calls_in_parts(parts, out),
        HirExprKind::MapLiteral(pairs) => walk_calls_in_pairs(pairs, out),
        HirExprKind::IntLiteral(_) | HirExprKind::FloatLiteral(_) | HirExprKind::StringLiteral(_)
        | HirExprKind::BoolLiteral(_) | HirExprKind::CharLiteral(_) | HirExprKind::UnitLiteral
        | HirExprKind::RegexLiteral { .. } | HirExprKind::VarRef(_) | HirExprKind::Continue
        | HirExprKind::NullLiteral | HirExprKind::Error => {
            proof {
                lemma_none(out@);
            }
        },
    }
}

// ---------------------------------------------------------------------------
// Function bodies and whether their function is generic.
// ---------------------------------------------------------------------------

/// A function's body, paired with whether the function declares generic
/// parameters.
pub open spec fn body_of(f: HirFuncDef) -> (HirExpr, bool) {
    (*f.body, f.generic_params@.len() > 0)
}

pub open spec fn bodies_in_funcs(ms: Seq<HirFuncDef>) -> Seq<(HirExpr, bool)>
    decreases ms.len(),
{
    if ms.len() == 0 {
        Seq::empty()
    } else {
        bodies_in_funcs(ms.drop_last()) + seq![body_of(ms.last())]
    }
}

pub open spec fn bodies_in_impl_items(its: Seq<HirImplItem>) -> Seq<(HirExpr, bool)>
    decreases its.len(),
{
    if its.len() == 0 {
        Seq::empty()
    } else {
        bodies_in_impl_items(its.drop_last()) + match its.last() {
            HirImplItem::Method(m) => seq![body_of(m)],
            _ => Seq::empty(),
        }
    }
}

pub open spec fn bodies_in_blocks(bs: Seq<crate::hir::nodes::HirImplBlock>) -> Seq<(HirExpr, bool)>
    decreases bs.len(),
{
    if bs.len() == 0 {
        Seq::empty()
    } else {
        bodies_in_blocks(bs.drop_last()) + bodies_in_impl_items(bs.last().items@)
    }
}

pub open spec fn bodies_in_mixin_items(its: Seq<HirMixinItem>) -> Seq<(HirExpr, bool)>
    decreases its.len(),
{
    if its.len() == 0 {
        Seq::empty()
    } else {
        bodies_in_mixin_items(its.drop_last()) + match its.last() {
            HirMixinItem::DefaultMethod(f) => seq![body_of(f)],
            _ => Seq::empty(),
        }
    }
}

/// The bodies of an item, each with whether its function is generic: a
/// function's, a class's methods then those of its `include` blocks, the
/// methods of a struct, an enum or an impl block, a module's items in order,
/// a constant's initializer (never generic), a mixin's default methods.
pub open spec fn bodies_in_item(item: HirItem) -> Seq<(HirExpr, bool)>
    decreases item, 1nat,
{
    match item {
        HirItem::Function(f) => seq![body_of(f)],
        HirItem::Class(c) => bodies_in_funcs(c.methods@) + bodies_in_blocks(c.impl_blocks@),
        HirItem::Struct(s) => bodies_in_funcs(s.methods@),
        HirItem::Enum(e) => bodies_in_funcs(e.methods@),
        HirItem::Impl(b) => bodies_in_impl_items(b.items@),
        HirItem::Module(m) => bodies_in_items(m.items@),
        HirItem::Const(c) => seq![(c.value, false)],
        HirItem::Mixin(m) => bodies_in_mixin_items(m.items@),
        HirItem::TypeAlias(_) | HirItem::Newtype(_) => Seq::empty(),
    }
}

pub open spec fn bodies_in_items(its: Seq<HirItem>) -> Seq<(HirExpr, bool)>
    decreases its, 0nat,
{
    if its.len() == 0 {
        Seq::empty()
    } else {
        bodies_in_items(its.drop_last()) + bodies_in_item(its.last())
    }
}

/// The bodies and flags referred to by a list of pairs.
pub open spec fn deref_bodies(v: Seq<(&HirExpr, bool)>) -> Seq<(HirExpr, bool)> {
    v.map_values(|p: (&HirExpr, bool)| (*p.0, p.1))
}

/// `new` is `old` followed by the bodies `bs`.
pub open spec fn bodies_pushed(old: Seq<(&HirExpr, bool)>, new: Seq<(&HirExpr, bool)>, bs: Seq<(HirExpr, bool)>) -> bool {
    deref_bodies(new) == deref_bodies(old) + bs
}

proof fn lemma_bodies_chain(
    a: Seq<(&HirExpr, bool)>,
    b: Seq<(&HirExpr, bool)>,
    c: Seq<(&HirExpr, bool)>,
    x: Seq<(HirExpr, bool)>,
    y: Seq<(HirExpr, bool)>,
)
    requires
        bodies_pushed(a, b, x),
        bodies_pushed(b, c, y),
    ensures
        bodies_pushed(a, c, x + y),
{
    assert(deref_bodies(c) =~= deref_bodies(a) + (x + y));
}

proof fn lemma_bodies_none(a: Seq<(&HirExpr, bool)>)
    ensures
        bodies_pushed(a, a, Seq::empty()),
{
    assert(deref_bodies(a) =~= deref_bodies(a) + Seq::<(HirExpr, bool)>::empty());
}

fn push_body<'a>(f: &'a HirFuncDef, out: &mut Vec<(&'a HirExpr, bool)>)
    ensures
        bodies_pushed(old(out)@, final(out)@, seq![body_of(*f)]),
{
    let generic = f.generic_params.len() > 0;
    out.push((&*f.body, generic));
    assert(deref_bodies(out@) =~= deref_bodies(old(out)@) + seq![body_of(*f)]);
}

fn bodies_of_funcs<'a>(ms: &'a Vec<HirFuncDef>, out: &mut Vec<(&'a HirExpr, bool)>)
    ensures
        bodies_pushed(old(out)@, final(out)@, bodies_in_funcs(ms@)),
{
    let ghost o0 = out@;
    let mut i: usize = 0;
    proof {
        lemma_bodies_none(o0);
        assert(ms@.take(0) =~= Seq::<HirFuncDef>::empty());
    }
    while i < ms.len()
        invariant
            i <= ms@.len(),
            bodies_pushed(o0, out@, bodies_in_funcs(ms@.take(i as int))),
        decreases ms@.len() - i,
    {
        let ghost o1 = out@;
        push_body(&ms[i], out);
        proof {
            assert(ms@.take(i + 1).drop_last() =~= ms@.take(i as int));
            lemma_bodies_chain(o0, o1, out@, bodies_in_funcs(ms@.take(i as int)), seq![body_of(ms@[i as int])]);
        }
        i = i + 1;
    }
    assert(ms@.take(ms@.len() as int) =~= ms@);
}

fn bodies_of_impl_items<'a>(its: &'a Vec<HirImplItem>, out: &mut Vec<(&'a HirExpr, bool)>)
    ensures
        bodies_pushed(old(out)@, final(out)@, bodies_in_impl_items(its@)),
{
    let ghost o0 = out@;
    let mut i: usize = 0;
    proof {
        lemma_bodies_none(o0);
        assert(its@.take(0) =~= Seq::<HirImplItem>::empty());
    }
    while i < its.len()
        invariant
            i <= its@.len(),
            bodies_pushed(o0, out@, bodies_in_impl_items(its@.take(i as int))),
        decreases its@.len() - i,
    {
        let ghost o1 = out@;
        match &its[i] {
            HirImplItem::Method(m) => push_body(m, out),
            _ => {
                proof {
                    lemma_bodies_none(out@);
                }
            },
        }
        proof {
            assert(its@.take(i + 1).drop_last() =~= its@.take(i as int));
            let one = match its@[i as int] {
                HirImplItem::Method(m) => seq![body_of(m)],
                _ => Seq::empty(),
            };
            lemma_bodies_chain(o0, o1, out@, bodies_in_impl_items(its@.take(i as int)), one);
        }
        i = i + 1;
    }
    assert(its@.take(its@.len() as int) =~= its@);
}

fn bodies_of_blocks<'a>(bs: &'a Vec<crate::hir::nodes::HirImplBlock>, out: &mut Vec<(&'a HirExpr, bool)>)
    ensures
        bodies_pushed(old(out)@, final(out)@, bodies_in_blocks(bs@)),
{
    let ghost o0 = out@;
    let mut i: usize = 0;
    proof {
        lemma_bodies_none(o0);
        assert(bs@.take(0) =~= Seq::<crate::hir::nodes::HirImplBlock>::empty());
    }
    while i < bs.len()
        invariant
            i <= bs@.len(),
            bodies_pushed(o0, out@, bodies_in_blocks(bs@.take(i as int))),
        decreases bs@.len() - i,
    {
        let ghost o1 = out@;
        bodies_of_impl_items(&bs[i].items, out);
        proof {
            assert(bs@.take(i + 1).drop_last() =~= bs@.take(i as int));
            lemma_bodies_chain(o0, o1, out@, bodies_in_blocks(bs@.take(i as int)), bodies_in_impl_items(bs@[i as int].items@));
        }
        i = i + 1;
    }
    assert(bs@.take(bs@.len() as int) =~= bs@);
}

fn bodies_of_mixin_items<'a>(its: &'a Vec<HirMixinItem>, out: &mut Vec<(&'a HirExpr, bool)>)
    ensures
        bodies_pushed(old(out)@, final(out)@, bodies_in_mixin_items(its@)),
{
    let ghost o0 = out@;
    let mut i: usize = 0;
    proof {
        lemma_bodies_none(o0);
        assert(its@.take(0) =~= Seq::<HirMixinItem>::empty());
    }
    while i < its.len()
        invariant
            i <= its@.len(),
            bodies_pushed(o0, out@, bodies_in_mixin_items(its@.take(i as int))),
        decreases its@.len() - i,
    {
        let ghost o1 = out@;
        match &its[i] {
            HirMixinItem::DefaultMethod(f) => push_body(f, out),
            _ => {
                proof {
                    lemma_bodies_none(out@);
                }
            },
        }
        proof {
            assert(its@.take(i + 1).drop_last() =~= its@.take(i as int));
            let one = match its@[i as int] {
                HirMixinItem::DefaultMethod(f) => seq![body_of(f)],
                _ => Seq::empty(),
            };
            lemma_bodies_chain(o0, o1, out@, bodies_in_mixin_items(its@.take(i as int)), one);
        }
        i = i + 1;
    }
    assert(its@.take(its@.len() as int) =~= its@);
}

fn bodies_of_item<'a>(item: &'a HirItem, out: &mut Vec<(&'a HirExpr, bool)>)
    ensures
        bodies_pushed(old(out)@, final(out)@, bodies_in_item(*item)),
    decreases *item, 1nat,
{
    let ghost o0 = out@;
    match item {
        HirItem::Function(func) => push_body(func, out),
        HirItem::Class(c) => {
            bodies_of_funcs(&c.methods, out);
            let ghost o1 = out@;
            bodies_of_blocks(&c.impl_blocks, out);
            proof {
                lemma_bodies_chain(o0, o1, out@, bodies_in_funcs(c.methods@), bodies_in_blocks(c.impl_blocks@));
            }
        },
        HirItem::Struct(s) => bodies_of_funcs(&s.methods, out),
        HirItem::Enum(e) => bodies_of_funcs(&e.methods, out),
        HirItem::Impl(b) => bodies_of_impl_items(&b.items, out),
        HirItem::Module(m) => bodies_of_items(&m.items, out),
        HirItem::Const(c) => {
            out.push((&c.value, false));
            assert(deref_bodies(out@) =~= deref_bodies(o0) + seq![(c.value, false)]);
        },
        HirItem::Mixin(m) => bodies_of_mixin_items(&m.items, out),
        HirItem::TypeAlias(_) | HirItem::Newtype(_) => {
            proof {
                lemma_bodies_none(out@);
            }
        },
    }
}

fn bodies_of_items<'a>(its: &'a Vec<HirItem>, out: &mut Vec<(&'a HirExpr, bool)>)
    ensures
        bodies_pushed(old(out)@, final(out)@, bodies_in_items(its@)),
    decreases its@, 0nat,
{
    let ghost o0 = out@;
    let mut i: usize = 0;
    proof {
        lemma_bodies_none(o0);
        assert(its@.take(0) =~= Seq::<HirItem>::empty());
    }
    while i < its.len()
        invariant
            i <= its@.len(),
            bodies_pushed(o0, out@, bodies_in_items(its@.take(i as int))),
        decreases its@.len() - i,
    {
        let ghost o1 = out@;
        assert(decreases_to!(its@ => its@[i as int]));
        bodies_of_item(&its[i], out);
        proof {
            assert(its@.take(i + 1).drop_last() =~= its@.take(i as int));
            lemma_bodies_chain(o0, o1, out@, bodies_in_items(its@.take(i as int)), bodies_in_item(its@[i as int]));
        }
        i = i + 1;
    }
    assert(its@.take(its@.len() as int) =~= its@);
}

/// Every function and method body of the program (and every constant
/// initializer), in item order, each paired with whether its function
/// declares generic parameters.
pub fn for_each_fn_body<'a>(program: &'a HirProgram) -> (r: Vec<(&'a HirExpr, bool)>)
    ensures
        deref_bodies(r@) == bodies_in_items(program.items@),
{
    let mut out: Vec<(&'a HirExpr, bool)> = Vec::new();
    bodies_of_items(&program.items, &mut out);
    assert(deref_bodies(Seq::<(&HirExpr, bool)>::empty()) =~= Seq::<(HirExpr, bool)>::empty());
    assert(deref_bodies(out@) =~= bodies_in_items(program.items@));
    out
}

} // verus!
