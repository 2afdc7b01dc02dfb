//! Closure captures: which variables of the enclosing frame a closure body
//! uses, and whether it assigns to one.
use vstd::prelude::*;

use std::collections::HashSet;

use crate::hir::nodes::{
    DefId, HirClosureParam, HirExpr, HirExprKind, HirInterpolationPart, HirMatchArm, HirStatement,
};

verus! {

broadcast use vstd::std_specs::hash::group_hash_axioms;

// ---------------------------------------------------------------------------
// Does a body assign to a variable?
// ---------------------------------------------------------------------------

/// `e` assigns (with `=` or a compound assignment) directly to the variable
/// `d` somewhere, closures and map-literal entries included.
pub open spec fn mutates(e: HirExpr, d: DefId) -> bool
    decreases e, 1nat,
{
    match e.kind {
        HirExprKind::Assign { target, value } => (target.kind matches HirExprKind::VarRef(t) && t == d)
            || mutates(*target, d) || mutates(*value, d),
        HirExprKind::CompoundAssign { target, value, .. } => (target.kind matches HirExprKind::VarRef(t)
            && t == d) || mutates(*target, d) || mutates(*value, d),
        HirExprKind::FieldAccess { object, .. } => mutates(*object, d),
        HirExprKind::MethodCall { object, args, block, .. } => mutates(*object, d) || any_mutates(args@, d)
            || opt_mutates(block, d),
        HirExprKind::FnCall { args, .. } => any_mutates(args@, d),
        HirExprKind::BinaryOp { left, right, .. } => mutates(*left, d) || mutates(*right, d),
        HirExprKind::UnaryOp { operand, .. } => mutates(*operand, d),
        HirExprKind::Borrow { expr, .. } => mutates(*expr, d),
        HirExprKind::Block(stmts, tail) => stmts_mutate(stmts@, d) || opt_mutates(tail, d),
        HirExprKind::UnsafeBlock(stmts, tail) => stmts_mutate(stmts@, d) || opt_mutates(tail, d),
        HirExprKind::If { cond, then_branch, else_branch } => mutates(*cond, d) || mutates(*then_branch, d)
            || opt_mutates(else_branch, d),
        HirExprKind::Match { scrutinee, arms } => mutates(*scrutinee, d) || arms_mutate(arms@, d),
        HirExprKind::While { condition, body } => mutates(*condition, d) || mutates(*body, d),
        HirExprKind::Loop { body } => mutates(*body, d),
        HirExprKind::For { iterable, body, .. } => mutates(*iterable, d) || mutates(*body, d),
        HirExprKind::Tuple(es) => any_mutates(es@, d),
        HirExprKind::ArrayLiteral(es) => any_mutates(es@, d),
        HirExprKind::Index { object, index } => mutates(*object, d) || mutates(*index, d),
        HirExprKind::Construct { fields, .. } => fields_mutate(fields@, d),
        HirExprKind::EnumVariant { fields, .. } => fields_mutate(fields@, d),
        HirExprKind::Interpolation { parts } => parts_mutate(parts@, d),
        HirExprKind::MacroCall { args, .. } => any_mutates(args@, d),
        HirExprKind::Range { start, end, .. } => opt_mutates(start, d) || opt_mutates(end, d),
        HirExprKind::ArrayFill { value, .. } => mutates(*value, d),
        HirExprKind::Return(r) => opt_mutates(r, d),
        HirExprKind::Break(r) => opt_mutates(r, d),
        HirExprKind::Closure { body, .. } => mutates(*body, d),
        HirExprKind::Cast { expr, .. } => mutates(*expr, d),
        HirExprKind::MapLiteral(pairs) => pairs_mutate(pairs@, d),
        _ => false,
    }
}

pub open spec fn pairs_mutate(ps: Seq<(HirExpr, HirExpr)>, d: DefId) -> bool
    decreases ps, 0nat,
{
    exists|i: int| 0 <= i < ps.len() && (mutates((#[trigger] ps[i]).0, d) || mutates(ps[i].1, d))
}

pub open spec fn opt_mutates(o: Option<Box<HirExpr>>, d: DefId) -> bool
    decreases o, 0nat,
{
    match o {
        Some(b) => mutates(*b, d),
        None => false,
    }
}

pub open spec fn any_mutates(es: Seq<HirExpr>, d: DefId) -> bool
    decreases es, 0nat,
{
    exists|i: int| 0 <= i < es.len() && mutates(#[trigger] es[i], d)
}

pub open spec fn fields_mutate(fs: Seq<(String, HirExpr)>, d: DefId) -> bool
    decreases fs, 0nat,
{
    exists|i: int| 0 <= i < fs.len() && mutates((#[trigger] fs[i]).1, d)
}

pub open spec fn parts_mutate(ps: Seq<HirInterpolationPart>, d: DefId) -> bool
    decreases ps, 0nat,
{
    exists|i: int|
        0 <= i < ps.len() && match #[trigger] ps[i] {
            HirInterpolationPart::Expr { expr, .. } => mutates(expr, d),
            _ => false,
        }
}

pub open spec fn arm_mutates(arm: HirMatchArm, d: DefId) -> bool
    decreases arm, 0nat,
{
    (match arm.guard {
        Some(g) => mutates(g, d),
        None => false,
    }) || mutates(arm.body, d)
}

pub open spec fn arms_mutate(arms: Seq<HirMatchArm>, d: DefId) -> bool
    decreases arms, 1nat,
{
    exists|i: int| 0 <= i < arms.len() && arm_mutates(#[trigger] arms[i], d)
}

pub open spec fn spec_stmt_mutates(s: HirStatement, d: DefId) -> bool
    decreases s, 0nat,
{
    match s {
        HirStatement::Let { value: Some(v), .. } => mutates(v, d),
        HirStatement::Let { .. } => false,
        HirStatement::Expr(x) => mutates(x, d),
    }
}

pub open spec fn stmts_mutate(ss: Seq<HirStatement>, d: DefId) -> bool
    decreases ss, 1nat,
{
    exists|i: int| 0 <= i < ss.len() && spec_stmt_mutates(#[trigger] ss[i], d)
}


fn opt_body_mutates(o: &Option<Box<HirExpr>>, def_id: DefId) -> (r: bool)
    ensures
        r == opt_mutates(*o, def_id),
    decreases *o, 0nat,
{
    match o {
        Some(b) => closure_body_mutates(b, def_id),
        None => false,
    }
}

fn any_body_mutates(es: &Vec<HirExpr>, def_id: DefId) -> (r: bool)
    ensures
        r == any_mutates(es@, def_id),
    decreases es@, 0nat,
{
    let mut i: usize = 0;
    while i < es.len()
        invariant
            i <= es@.len(),
            forall|k: int| 0 <= k < i ==> !mutates(#[trigger] es@[k], def_id),
        decreases es@.len() - i,
    {
        assert(decreases_to!(es@ => es@[i as int]));
        if closure_body_mutates(&es[i], def_id) {
            return true;
        }
        i = i + 1;
    }
    false
}

fn fields_body_mutate(fs: &Vec<(String, HirExpr)>, def_id: DefId) -> (r: bool)
    ensures
        r == fields_mutate(fs@, def_id),
    decreases fs@, 0nat,
{
    let mut i: usize = 0;
    while i < fs.len()
        invariant
            i <= fs@.len(),
            forall|k: int| 0 <= k < i ==> !mutates((#[trigger] fs@[k]).1, def_id),
        decreases fs@.len() - i,
    {
        assert(decreases_to!(fs@ => fs@[i as int]));
        if closure_body_mutates(&fs[i].1, def_id) {
            return true;
        }
        i = i + 1;
    }
    false
}

fn pairs_body_mutate(ps: &Vec<(HirExpr, HirExpr)>, def_id: DefId) -> (r: bool)
    ensures
        r == pairs_mutate(ps@, def_id),
    decreases ps@, 0nat,
{
    let mut i: usize = 0;
    while i < ps.len()
        invariant
            i <= ps@.len(),
            forall|k: int| 0 <= k < i ==> !(mutates((#[trigger] ps@[k]).0, def_id) || mutates(ps@[k].1, def_id)),
        decreases ps@.len() - i,
    {
        assert(decreases_to!(ps@ => ps@[i as int]));
        if closure_body_mutates(&ps[i].0, def_id) || closure_body_mutates(&ps[i].1, def_id) {
            return true;
        }
        i = i + 1;
    }
    false
}

fn parts_body_mutate(ps: &Vec<HirInterpolationPart>, def_id: DefId) -> (r: bool)
    ensures
        r == parts_mutate(ps@, def_id),
    decreases ps@, 0nat,
{
    let mut i: usize = 0;
    while i < ps.len()
        invariant
            i <= ps@.len(),
            forall|k: int|
                0 <= k < i ==> !(match #[trigger] ps@[k] {
                    HirInterpolationPart::Expr { expr, .. } => mutates(expr, def_id),
                    _ => false,
                }),
        decreases ps@.len() - i,
    {
        assert(decreases_to!(ps@ => ps@[i as int]));
        let hit = match &ps[i] {
            HirInterpolationPart::Expr { expr: e, .. } => closure_body_mutates(e, def_id),
            _ => false,
        };
        if hit {
            return true;
        }
        i = i + 1;
    }
    false
}

fn arms_body_mutate(arms: &Vec<HirMatchArm>, def_id: DefId) -> (r: bool)
    ensures
        r == arms_mutate(arms@, def_id),
    decreases arms@, 1nat,
{
    let mut i: usize = 0;
    while i < arms.len()
        invariant
            i <= arms@.len(),
            forall|k: int| 0 <= k < i ==> !arm_mutates(#[trigger] arms@[k], def_id),
        decreases arms@.len() - i,
    {
        assert(decreases_to!(arms@ => arms@[i as int]));
        let arm = &arms[i];
        let g = match &arm.guard {
            Some(g) => closure_body_mutates(g, def_id),
            None => false,
        };
        if g || closure_body_mutates(&arm.body, def_id) {
            return true;
        }
        i = i + 1;
    }
    false
}

fn stmts_body_mutate(ss: &Vec<HirStatement>, def_id: DefId) -> (r: bool)
    ensures
        r == stmts_mutate(ss@, def_id),
    decreases ss@, 1nat,
{
    let mut i: usize = 0;
    while i < ss.len()
        invariant
            i <= ss@.len(),
            forall|k: int| 0 <= k < i ==> !spec_stmt_mutates(#[trigger] ss@[k], def_id),
        decreases ss@.len() - i,
    {
        assert(decreases_to!(ss@ => ss@[i as int]));
        if stmt_mutates(&ss[i], def_id) {
            return true;
        }
        i = i + 1;
    }
    false
}

/// Does the closure body `body` assign to the variable `def_id` of the
/// enclosing frame? (Then it is captured by reference, else by value.)
pub fn closure_body_mutates(body: &HirExpr, def_id: DefId) -> (r: bool)
    ensures
        r == mutates(*body, def_id),
    decreases *body, 1nat,
{
    match &body.kind {
        HirExprKind::Assign { target, value } | HirExprKind::CompoundAssign { target, value, .. } => {
            match &target.kind {
                HirExprKind::VarRef(d) => {
                    if *d == def_id {
                        return true;
                    }
                },
                _ => {},
            }
            closure_body_mutates(target, def_id) || closure_body_mutates(value, def_id)
        },
        HirExprKind::FieldAccess { object, .. } => closure_body_mutates(object, def_id),
        HirExprKind::MethodCall { object, args, block, .. } => closure_body_mutates(object, def_id)
            || any_body_mutates(args, def_id) || opt_body_mutates(block, def_id),
        HirExprKind::FnCall { args, .. } => any_body_mutates(args, def_id),
        HirExprKind::BinaryOp { left, right, .. } => closure_body_mutates(left, def_id)
            || closure_body_mutates(right, def_id),
        HirExprKind::UnaryOp { operand, .. } => closure_body_mutates(operand, def_id),
        HirExprKind::Borrow { expr, .. } => closure_body_mutates(expr, def_id),
        HirExprKind::Block(stmts, tail) | HirExprKind::UnsafeBlock(stmts, tail) => stmts_body_mutate(
            stmts,
            def_id,
        ) || opt_body_mutates(tail, def_id),
        HirExprKind::If { cond, then_branch, else_branch } => closure_body_mutates(cond, def_id)
            || closure_body_mutates(then_branch, def_id) || opt_body_mutates(else_branch, def_id),
        HirExprKind::Match { scrutinee, arms } => {
            if closure_body_mutates(scrutinee, def_id) {
                return true;
            }
            arms_body_mutate(arms, def_id)
        },
        HirExprKind::While { condition, body } => closure_body_mutates(condition, def_id)
            || closure_body_mutates(body, def_id),
        HirExprKind::Loop { body } => closure_body_mutates(body, def_id),
        HirExprKind::For { iterable, body, .. } => closure_body_mutates(iterable, def_id)
            || closure_body_mutates(body, def_id),
        HirExprKind::Tuple(elems) | HirExprKind::ArrayLiteral(elems) => any_body_mutates(elems, def_id),
        HirExprKind::Index { object, index } => closure_body_mutates(object, def_id)
            || closure_body_mutates(index, def_id),
        HirExprKind::Construct { fields, .. } | HirExprKind::EnumVariant { fields, .. } =>
            fields_body_mutate(fields, def_id),
        HirExprKind::Interpolation { parts } => parts_body_mutate(parts, def_id),
        HirExprKind::MacroCall { args, .. } => any_body_mutates(args, def_id),
        HirExprKind::Range { start, end, .. } => opt_body_mutates(start, def_id) || opt_body_mutates(
            end,
            def_id,
        ),
        HirExprKind::ArrayFill { value, .. } => closure_body_mutates(value, def_id),
        HirExprKind::Return(r) | HirExprKind::Break(r) => opt_body_mutates(r, def_id),
        HirExprKind::Closure { body: nested, .. } => closure_body_mutates(nested, def_id),
        HirExprKind::Cast { expr, .. } => closure_body_mutates(expr, def_id),
        HirExprKind::MapLiteral(pairs) => pairs_body_mutate(pairs, def_id),
        _ => false,
    }
}

/// Does the statement assign to the variable `def_id`?
pub fn stmt_mutates(stmt: &HirStatement, def_id: DefId) -> (r: bool)
    ensures
        r == spec_stmt_mutates(*stmt, def_id),
    decreases *stmt, 0nat,
{
    match stmt {
        HirStatement::Let { value: Some(v), .. } => closure_body_mutates(v, def_id),
        HirStatement::Let { .. } => false,
        HirStatement::Expr(e) => closure_body_mutates(e, def_id),
    }
}


// ---------------------------------------------------------------------------
// Which outer variables does a closure body capture?
// ---------------------------------------------------------------------------

/// `seen` after the captures `r` were recorded.
pub open spec fn seen_after(seen: Set<DefId>, r: Seq<DefId>) -> Set<DefId> {
    seen.union(r.to_set())
}

/// A use of `d` is a new capture: not a parameter of the closure (or of a
/// closure nested in it), not bound inside the body, a variable of the
/// enclosing frame, and not captured already.
pub open spec fn fresh_capture(d: DefId, params: Set<DefId>, outer: Set<DefId>, bound: Set<DefId>, seen: Set<DefId>) -> bool {
    !params.contains(d) && !bound.contains(d) && outer.contains(d) && !seen.contains(d)
}

/// The new captures of `e`, in the order of first use: `params` are the
/// closure's parameters, `outer` the enclosing frame's variables, `bound`
/// the variables bound inside the body so far, `seen` the captures already
/// recorded. Sub-expressions are walked left to right, each seeing the
/// captures of those before it; a block's `let`s bind for the rest of the
/// block, a `for` binds its variables in its body, and a nested closure's
/// parameters count as parameters in its body. Map literals are not looked
/// into.
pub open spec fn caps(e: HirExpr, params: Set<DefId>, outer: Set<DefId>, bound: Set<DefId>, seen: Set<DefId>) -> Seq<DefId>
    decreases e, 2nat,
{
    match e.kind {
        HirExprKind::VarRef(d) => if fresh_capture(d, params, outer, bound, seen) {
            seq![d]
        } else {
            Seq::empty()
        },
        HirExprKind::FieldAccess { object, .. } => caps(*object, params, outer, bound, seen),
        HirExprKind::MethodCall { object, args, block, .. } => {
            let r1 = caps(*object, params, outer, bound, seen);
            let s1 = seen_after(seen, r1);
            let r2 = caps_list(args@, params, outer, bound, s1);
            r1 + r2 + caps_opt(block, params, outer, bound, seen_after(s1, r2))
        },
        HirExprKind::FnCall { args, .. } => caps_list(args@, params, outer, bound, seen),
        HirExprKind::BinaryOp { left, right, .. } => {
            let r = caps(*left, params, outer, bound, seen);
            r + caps(*right, params, outer, bound, seen_after(seen, r))
        },
        HirExprKind::UnaryOp { operand, .. } => caps(*operand, params, outer, bound, seen),
        HirExprKind::Borrow { expr, .. } => caps(*expr, params, outer, bound, seen),
        HirExprKind::Block(stmts, tail) => {
            let r = caps_stmts(stmts@, params, outer, bound, seen);
            r + caps_opt(tail, params, outer, stmts_bound(stmts@, bound), seen_after(seen, r))
        },
        HirExprKind::UnsafeBlock(stmts, tail) => {
            let r = caps_stmts(stmts@, params, outer, bound, seen);
            r + caps_opt(tail, params, outer, stmts_bound(stmts@, bound), seen_after(seen, r))
        },
        HirExprKind::If { cond, then_branch, else_branch } => {
            let r1 = caps(*cond, params, outer, bound, seen);
            let s1 = seen_after(seen, r1);
            let r2 = caps(*then_branch, params, outer, bound, s1);
            r1 + r2 + caps_opt(else_branch, params, outer, bound, seen_after(s1, r2))
        },
        HirExprKind::Match { scrutinee, arms } => {
            let r = caps(*scrutinee, params, outer, bound, seen);
            r + caps_arms(arms@, params, outer, bound, seen_after(seen, r))
        },
        HirExprKind::While { condition, body } => {
            let r = caps(*condition, params, outer, bound, seen);
            r + caps(*body, params, outer, bound, seen_after(seen, r))
        },
        HirExprKind::Loop { body } => caps(*body, params, outer, bound, seen),
        HirExprKind::For { iterable, body, binding, tuple_bindings, .. } => {
            let r = caps(*iterable, params, outer, bound, seen);
            let inner = bound.insert(binding).union(tuple_bindings@.map_values(|t: (DefId, String)| t.0).to_set());
            r + caps(*body, params, outer, inner, seen_after(seen, r))
        },
        HirExprKind::Assign { target, value } => {
            let r = caps(*target, params, outer, bound, seen);
            r + caps(*value, params, outer, bound, seen_after(seen, r))
        },
        HirExprKind::CompoundAssign { target, value, .. } => {
            let r = caps(*target, params, outer, bound, seen);
            r + caps(*value, params, outer, bound, seen_after(seen, r))
        },
        HirExprKind::Return(r) => caps_opt(r, params, outer, bound, seen),
        HirExprKind::Break(r) => caps_opt(r, params, outer, bound, seen),
        HirExprKind::Tuple(es) => caps_list(es@, params, outer, bound, seen),
        HirExprKind::ArrayLiteral(es) => caps_list(es@, params, outer, bound, seen),
        HirExprKind::Index { object, index } => {
            let r = caps(*object, params, outer, bound, seen);
            r + caps(*index, params, outer, bound, seen_after(seen, r))
        },
        HirExprKind::Construct { fields, .. } => caps_fields(fields@, params, outer, bound, seen),
        HirExprKind::EnumVariant { fields, .. } => caps_fields(fields@, params, outer, bound, seen),
        HirExprKind::Interpolation { parts } => caps_parts(parts@, params, outer, bound, seen),
        HirExprKind::MacroCall { args, .. } => caps_list(args@, params, outer, bound, seen),
        HirExprKind::Range { start, end, .. } => {
            let r = caps_opt(start, params, outer, bound, seen);
            r + caps_opt(end, params, outer, bound, seen_after(seen, r))
        },
        HirExprKind::ArrayFill { value, .. } => caps(*value, params, outer, bound, seen),
        HirExprKind::Closure { body, params: nested, .. } => caps(
            *body,
            params.union(nested@.map_values(|p: HirClosureParam| p.def_id).to_set()),
            outer,
            bound,
            seen,
        ),
        HirExprKind::Cast { expr, .. } => caps(*expr, params, outer, bound, seen),
        _ => Seq::empty(),
    }
}

pub open spec fn caps_opt(o: Option<Box<HirExpr>>, params: Set<DefId>, outer: Set<DefId>, bound: Set<DefId>, seen: Set<DefId>) -> Seq<DefId>
    decreases o, 0nat,
{
    match o {
        Some(b) => caps(*b, params, outer, bound, seen),
        None => Seq::empty(),
    }
}

pub open spec fn caps_list(es: Seq<HirExpr>, params: Set<DefId>, outer: Set<DefId>, bound: Set<DefId>, seen: Set<DefId>) -> Seq<DefId>
    decreases es, 0nat,
{
    if es.len() == 0 {
        Seq::empty()
    } else {
        let r = caps_list(es.drop_last(), params, outer, bound, seen);
        r + caps(es.last(), params, outer, bound, seen_after(seen, r))
    }
}

pub open spec fn caps_fields(fs: Seq<(String, HirExpr)>, params: Set<DefId>, outer: Set<DefId>, bound: Set<DefId>, seen: Set<DefId>) -> Seq<DefId>
    decreases fs, 0nat,
{
    if fs.len() == 0 {
        Seq::empty()
    } else {
        let r = caps_fields(fs.drop_last(), params, outer, bound, seen);
        r + caps(fs.last().1, params, outer, bound, seen_after(seen, r))
    }
}

pub open spec fn part_caps(p: HirInterpolationPart, params: Set<DefId>, outer: Set<DefId>, bound: Set<DefId>, seen: Set<DefId>) -> Seq<DefId>
    decreases p, 0nat,
{
    match p {
        HirInterpolationPart::Expr { expr, .. } => caps(expr, params, outer, bound, seen),
        _ => Seq::empty(),
    }
}

pub open spec fn caps_parts(ps: Seq<HirInterpolationPart>, params: Set<DefId>, outer: Set<DefId>, bound: Set<DefId>, seen: Set<DefId>) -> Seq<DefId>
    decreases ps, 1nat,
{
    if ps.len() == 0 {
        Seq::empty()
    } else {
        let r = caps_parts(ps.drop_last(), params, outer, bound, seen);
        r + part_caps(ps.last(), params, outer, bound, seen_after(seen, r))
    }
}

/// The captures of a match arm: its guard, then its body.
pub open spec fn arm_caps(arm: HirMatchArm, params: Set<DefId>, outer: Set<DefId>, bound: Set<DefId>, seen: Set<DefId>) -> Seq<DefId>
    decreases arm, 0nat,
{
    let r = match arm.guard {
        Some(g) => caps(g, params, outer, bound, seen),
        None => Seq::empty(),
    };
    r + caps(arm.body, params, outer, bound, seen_after(seen, r))
}

pub open spec fn caps_arms(arms: Seq<HirMatchArm>, params: Set<DefId>, outer: Set<DefId>, bound: Set<DefId>, seen: Set<DefId>) -> Seq<DefId>
    decreases arms, 1nat,
{
    if arms.len() == 0 {
        Seq::empty()
    } else {
        let r = caps_arms(arms.drop_last(), params, outer, bound, seen);
        r + arm_caps(arms.last(), params, outer, bound, seen_after(seen, r))
    }
}

/// The captures of a statement.
pub open spec fn stmt_caps(s: HirStatement, params: Set<DefId>, outer: Set<DefId>, bound: Set<DefId>, seen: Set<DefId>) -> Seq<DefId>
    decreases s, 0nat,
{
    match s {
        HirStatement::Let { value: Some(v), .. } => caps(v, params, outer, bound, seen),
        HirStatement::Let { value: None, .. } => Seq::empty(),
        HirStatement::Expr(x) => caps(x, params, outer, bound, seen),
    }
}

/// The variables bound after a statement: a `let` binds its variable.
pub open spec fn stmt_bound(s: HirStatement, bound: Set<DefId>) -> Set<DefId> {
    match s {
        HirStatement::Let { def_id, .. } => bound.insert(def_id),
        HirStatement::Expr(_) => bound,
    }
}

pub open spec fn stmts_bound(ss: Seq<HirStatement>, bound: Set<DefId>) -> Set<DefId>
    decreases ss.len(),
{
    if ss.len() == 0 {
        bound
    } else {
        stmt_bound(ss.last(), stmts_bound(ss.drop_last(), bound))
    }
}

pub open spec fn caps_stmts(ss: Seq<HirStatement>, params: Set<DefId>, outer: Set<DefId>, bound: Set<DefId>, seen: Set<DefId>) -> Seq<DefId>
    decreases ss, 1nat,
{
    if ss.len() == 0 {
        Seq::empty()
    } else {
        let r = caps_stmts(ss.drop_last(), params, outer, bound, seen);
        r + stmt_caps(ss.last(), params, outer, stmts_bound(ss.drop_last(), bound), seen_after(seen, r))
    }
}


/// `o1`, `s1` are `o0`, `s0` after recording the captures `r`.
pub open spec fn caps_done(o0: Seq<DefId>, o1: Seq<DefId>, s0: Set<DefId>, s1: Set<DefId>, r: Seq<DefId>) -> bool {
    o1 == o0 + r && s1 == seen_after(s0, r)
}

proof fn lemma_caps_chain(
    o0: Seq<DefId>,
    o1: Seq<DefId>,
    o2: Seq<DefId>,
    s0: Set<DefId>,
    s1: Set<DefId>,
    s2: Set<DefId>,
    a: Seq<DefId>,
    b: Seq<DefId>,
)
    requires
        caps_done(o0, o1, s0, s1, a),
        caps_done(o1, o2, s1, s2, b),
    ensures
        caps_done(o0, o2, s0, s2, a + b),
{
    assert(o2 =~= o0 + (a + b));
    vstd::seq_lib::seq_to_set_distributes_over_add(a, b);
    assert(s2 =~= seen_after(s0, a + b));
}

proof fn lemma_caps_none(o: Seq<DefId>, s: Set<DefId>)
    ensures
        caps_done(o, o, s, s, Seq::empty()),
{
    assert(o =~= o + Seq::<DefId>::empty());
    assert(s =~= seen_after(s, Seq::<DefId>::empty()));
}

/// A set with the same elements as `s`.
pub(crate) fn clone_def_set(s: &HashSet<DefId>) -> (r: HashSet<DefId>)
    ensures
        r@ == s@,
{
    let mut r: HashSet<DefId> = HashSet::new();
    for x in it: s.iter()
        invariant
            it.seq().unref().to_set() == s@,
            r@ == it.seq().take(it.index() as int).unref().to_set(),
            it.index() == it.seq().len() ==> r@ == s@,
    {
        proof {
            assert(it.seq().take(it.index() + 1).unref() =~= it.seq().take(it.index() as int).unref().push(*x));
            it.seq().take(it.index() as int).unref().lemma_push_to_set_commute(*x);
        }
        r.insert(*x);
        assert(it.seq().take(it.seq().len() as int) =~= it.seq());
    }
    r
}

fn caps_of_opt(
    o: &Option<Box<HirExpr>>,
    closure_params: &HashSet<DefId>,
    outer_defs: &HashSet<DefId>,
    locally_bound: &mut HashSet<DefId>,
    out: &mut Vec<DefId>,
    seen: &mut HashSet<DefId>,
)
    ensures
        caps_done(old(out)@, final(out)@, old(seen)@, final(seen)@, caps_opt(*o, closure_params@, outer_defs@, old(locally_bound)@, old(seen)@)),
        final(locally_bound)@ == old(locally_bound)@,
    decreases *o, 0nat,
{
    match o {
        Some(b) => collect_captures_inner(b, closure_params, outer_defs, locally_bound, out, seen),
        None => {
            proof {
                lemma_caps_none(out@, seen@);
            }
        },
    }
}

fn caps_of_list(
    es: &Vec<HirExpr>,
    closure_params: &HashSet<DefId>,
    outer_defs: &HashSet<DefId>,
    locally_bound: &mut HashSet<DefId>,
    out: &mut Vec<DefId>,
    seen: &mut HashSet<DefId>,
)
    ensures
        caps_done(old(out)@, final(out)@, old(seen)@, final(seen)@, caps_list(es@, closure_params@, outer_defs@, old(locally_bound)@, old(seen)@)),
        final(locally_bound)@ == old(locally_bound)@,
    decreases es@, 0nat,
{
    let ghost o0 = out@;
    let ghost s0 = seen@;
    let ghost b0 = locally_bound@;
    let mut i: usize = 0;
    proof {
        lemma_caps_none(o0, s0);
        assert(es@.take(0) =~= Seq::<HirExpr>::empty());
    }
    while i < es.len()
        invariant
            i <= es@.len(),
            locally_bound@ == b0,
            caps_done(o0, out@, s0, seen@, caps_list(es@.take(i as int), closure_params@, outer_defs@, b0, s0)),
        decreases es@.len() - i,
    {
        let ghost o1 = out@;
        let ghost s1 = seen@;
        assert(decreases_to!(es@ => es@[i as int]));
        collect_captures_inner(&es[i], closure_params, outer_defs, locally_bound, out, seen);
        proof {
            assert(es@.take(i + 1).drop_last() =~= es@.take(i as int));
            lemma_caps_chain(
                o0,
                o1,
                out@,
                s0,
                s1,
                seen@,
                caps_list(es@.take(i as int), closure_params@, outer_defs@, b0, s0),
                caps(es@[i as int], closure_params@, outer_defs@, b0, s1),
            );
        }
        i = i + 1;
    }
    assert(es@.take(es@.len() as int) =~= es@);
}

fn caps_of_fields(
    fs: &Vec<(String, HirExpr)>,
    closure_params: &HashSet<DefId>,
    outer_defs: &HashSet<DefId>,
    locally_bound: &mut HashSet<DefId>,
    out: &mut Vec<DefId>,
    seen: &mut HashSet<DefId>,
)
    ensures
        caps_done(old(out)@, final(out)@, old(seen)@, final(seen)@, caps_fields(fs@, closure_params@, outer_defs@, old(locally_bound)@, old(seen)@)),
        final(locally_bound)@ == old(locally_bound)@,
    decreases fs@, 0nat,
{
    let ghost o0 = out@;
    let ghost s0 = seen@;
    let ghost b0 = locally_bound@;
    let mut i: usize = 0;
    proof {
        lemma_caps_none(o0, s0);
        assert(fs@.take(0) =~= Seq::<(String, HirExpr)>::empty());
    }
    while i < fs.len()
        invariant
            i <= fs@.len(),
            locally_bound@ == b0,
            caps_done(o0, out@, s0, seen@, caps_fields(fs@.take(i as int), closure_params@, outer_defs@, b0, s0)),
        decreases fs@.len() - i,
    {
        let ghost o1 = out@;
        let ghost s1 = seen@;
        assert(decreases_to!(fs@ => fs@[i as int]));
        collect_captures_inner(&fs[i].1, closure_params, outer_defs, locally_bound, out, seen);
        proof {
            assert(fs@.take(i + 1).drop_last() =~= fs@.take(i as int));
            lemma_caps_chain(
                o0,
                o1,
                out@,
                s0,
                s1,
                seen@,
                caps_fields(fs@.take(i as int), closure_params@, outer_defs@, b0, s0),
                caps(fs@[i as int].1, closure_params@, outer_defs@, b0, s1),
            );
        }
        i = i + 1;
    }
    assert(fs@.take(fs@.len() as int) =~= fs@);
}

fn caps_of_parts(
    ps: &Vec<HirInterpolationPart>,
    closure_params: &HashSet<DefId>,
    outer_defs: &HashSet<DefId>,
    locally_bound: &mut HashSet<DefId>,
    out: &mut Vec<DefId>,
    seen: &mut HashSet<DefId>,
)
    ensures
        caps_done(old(out)@, final(out)@, old(seen)@, final(seen)@, caps_parts(ps@, closure_params@, outer_defs@, old(locally_bound)@, old(seen)@)),
        final(locally_bound)@ == old(locally_bound)@,
    decreases ps@, 1nat,
{
    let ghost o0 = out@;
    let ghost s0 = seen@;
    let ghost b0 = locally_bound@;
    let mut i: usize = 0;
    proof {
        lemma_caps_none(o0, s0);
        assert(ps@.take(0) =~= Seq::<HirInterpolationPart>::empty());
    }
    while i < ps.len()
        invariant
            i <= ps@.len(),
            locally_bound@ == b0,
            caps_done(o0, out@, s0, seen@, caps_parts(ps@.take(i as int), closure_params@, outer_defs@, b0, s0)),
        decreases ps@.len() - i,
    {
        let ghost o1 = out@;
        let ghost s1 = seen@;
        assert(decreases_to!(ps@ => ps@[i as int]));
        match &ps[i] {
            HirInterpolationPart::Expr { expr: e, .. } => collect_captures_inner(
                e,
                closure_params,
                outer_defs,
                locally_bound,
                out,
                seen,
            ),
            _ => {
                proof {
                    lemma_caps_none(out@, seen@);
                }
            },
        }
        proof {
            assert(ps@.take(i + 1).drop_last() =~= ps@.take(i as int));
            lemma_caps_chain(
                o0,
                o1,
                out@,
                s0,
                s1,
                seen@,
                caps_parts(ps@.take(i as int), closure_params@, outer_defs@, b0, s0),
                part_caps(ps@[i as int], closure_params@, outer_defs@, b0, s1),
            );
        }
        i = i + 1;
    }
    assert(ps@.take(ps@.len() as int) =~= ps@);
}

fn caps_of_arms(
    arms: &Vec<HirMatchArm>,
    closure_params: &HashSet<DefId>,
    outer_defs: &HashSet<DefId>,
    locally_bound: &mut HashSet<DefId>,
    out: &mut Vec<DefId>,
    seen: &mut HashSet<DefId>,
)
    ensures
        caps_done(old(out)@, final(out)@, old(seen)@, final(seen)@, caps_arms(arms@, closure_params@, outer_defs@, old(locally_bound)@, old(seen)@)),
        final(locally_bound)@ == old(locally_bound)@,
    decreases arms@, 1nat,
{
    let ghost o0 = out@;
    let ghost s0 = seen@;
    let ghost b0 = locally_bound@;
    let mut i: usize = 0;
    proof {
        lemma_caps_none(o0, s0);
        assert(arms@.take(0) =~= Seq::<HirMatchArm>::empty());
    }
    while i < arms.len()
        invariant
            i <= arms@.len(),
            locally_bound@ == b0,
            caps_done(o0, out@, s0, seen@, caps_arms(arms@.take(i as int), closure_params@, outer_defs@, b0, s0)),
        decreases arms@.len() - i,
    {
        let ghost o1 = out@;
        let ghost s1 = seen@;
        assert(decreases_to!(arms@ => arms@[i as int]));
        let arm = &arms[i];
        assert(decreases_to!(arms@[i as int] => arm.body));
        match &arm.guard {
            Some(g) => {
                assert(decreases_to!(arms@[i as int] => arm.guard));
                collect_captures_inner(g, closure_params, outer_defs, locally_bound, out, seen);
            },
            None => {
                proof {
                    lemma_caps_none(out@, seen@);
                }
            },
        }
        let ghost o2 = out@;
        let ghost s2 = seen@;
        collect_captures_inner(&arm.body, closure_params, outer_defs, locally_bound, out, seen);
        proof {
            let a = arms@[i as int];
            let rg = match a.guard {
                Some(g) => caps(g, closure_params@, outer_defs@, b0, s1),
                None => Seq::empty(),
            };
            lemma_caps_chain(o1, o2, out@, s1, s2, seen@, rg, caps(a.body, closure_params@, outer_defs@, b0, s2));
            assert(arms@.take(i + 1).drop_last() =~= arms@.take(i as int));
            lemma_caps_chain(
                o0,
                o1,
                out@,
                s0,
                s1,
                seen@,
                caps_arms(arms@.take(i as int), closure_params@, outer_defs@, b0, s0),
                arm_caps(arms@[i as int], closure_params@, outer_defs@, b0, s1),
            );
        }
        i = i + 1;
    }
    assert(arms@.take(arms@.len() as int) =~= arms@);
}

fn caps_of_stmts(
    ss: &Vec<HirStatement>,
    closure_params: &HashSet<DefId>,
    outer_defs: &HashSet<DefId>,
    locally_bound: &mut HashSet<DefId>,
    out: &mut Vec<DefId>,
    seen: &mut HashSet<DefId>,
)
    ensures
        caps_done(old(out)@, final(out)@, old(seen)@, final(seen)@, caps_stmts(ss@, closure_params@, outer_defs@, old(locally_bound)@, old(seen)@)),
        final(locally_bound)@ == stmts_bound(ss@, old(locally_bound)@),
    decreases ss@, 1nat,
{
    let ghost o0 = out@;
    let ghost s0 = seen@;
    let ghost b0 = locally_bound@;
    let mut i: usize = 0;
    proof {
        lemma_caps_none(o0, s0);
        assert(ss@.take(0) =~= Seq::<HirStatement>::empty());
    }
    while i < ss.len()
        invariant
            i <= ss@.len(),
            locally_bound@ == stmts_bound(ss@.take(i as int), b0),
            caps_done(o0, out@, s0, seen@, caps_stmts(ss@.take(i as int), closure_params@, outer_defs@, b0, s0)),
        decreases ss@.len() - i,
    {
        let ghost o1 = out@;
        let ghost s1 = seen@;
        let ghost bi = locally_bound@;
        assert(decreases_to!(ss@ => ss@[i as int]));
        collect_captures_in_stmt(&ss[i], closure_params, outer_defs, locally_bound, out, seen);
        proof {
            assert(ss@.take(i + 1).drop_last() =~= ss@.take(i as int));
            assert(ss@.take(i + 1).last() == ss@[i as int]);
            lemma_caps_chain(
                o0,
                o1,
                out@,
                s0,
                s1,
                seen@,
                caps_stmts(ss@.take(i as int), closure_params@, outer_defs@, b0, s0),
                stmt_caps(ss@[i as int], closure_params@, outer_defs@, bi, s1),
            );
        }
        i = i + 1;
    }
    assert(ss@.take(ss@.len() as int) =~= ss@);
}

/// Record the captures of `expr`, a closure body: each use of a variable of
/// the enclosing frame (`outer_defs`) that is neither a closure parameter
/// nor bound inside the body is pushed to `out` on its first use
/// (`seen` holds the captures recorded so far).
pub fn collect_captures(
    expr: &HirExpr,
    closure_params: &HashSet<DefId>,
    outer_defs: &HashSet<DefId>,
    out: &mut Vec<DefId>,
    seen: &mut HashSet<DefId>,
)
    ensures
        caps_done(old(out)@, final(out)@, old(seen)@, final(seen)@, caps(*expr, closure_params@, outer_defs@, Set::empty(), old(seen)@)),
{
    let mut locally_bound: HashSet<DefId> = HashSet::new();
    collect_captures_inner(expr, closure_params, outer_defs, &mut locally_bound, out, seen);
}

/// Record the captures of a statement; a `let` then binds its variable.
pub fn collect_captures_in_stmt(
    stmt: &HirStatement,
    closure_params: &HashSet<DefId>,
    outer_defs: &HashSet<DefId>,
    locally_bound: &mut HashSet<DefId>,
    out: &mut Vec<DefId>,
    seen: &mut HashSet<DefId>,
)
    ensures
        caps_done(old(out)@, final(out)@, old(seen)@, final(seen)@, stmt_caps(*stmt, closure_params@, outer_defs@, old(locally_bound)@, old(seen)@)),
        final(locally_bound)@ == stmt_bound(*stmt, old(locally_bound)@),
    decreases *stmt, 0nat,
{
    match stmt {
        HirStatement::Let { def_id, value, .. } => {
            match value {
                Some(v) => collect_captures_inner(v, closure_params, outer_defs, locally_bound, out, seen),
                None => {
                    proof {
                        lemma_caps_none(out@, seen@);
                    }
                },
            }
            locally_bound.insert(*def_id);
        },
        HirStatement::Expr(e) => collect_captures_inner(e, closure_params, outer_defs, locally_bound, out, seen),
    }
}


/// Record the captures of `expr` given the variables bound inside the body
/// so far (`locally_bound`, unchanged on return).
pub fn collect_captures_inner(
    expr: &HirExpr,
    closure_params: &HashSet<DefId>,
    outer_defs: &HashSet<DefId>,
    locally_bound: &mut HashSet<DefId>,
    out: &mut Vec<DefId>,
    seen: &mut HashSet<DefId>,
)
    ensures
        caps_done(old(out)@, final(out)@, old(seen)@, final(seen)@, caps(*expr, closure_params@, outer_defs@, old(locally_bound)@, old(seen)@)),
        final(locally_bound)@ == old(locally_bound)@,
    decreases *expr, 2nat,
{
    let ghost o0 = out@;
    let ghost s0 = seen@;
    let ghost b0 = locally_bound@;
    let ghost p = closure_params@;
    let ghost od = outer_defs@;
    match &expr.kind {
        HirExprKind::VarRef(def_id) => {
            if !closure_params.contains(def_id) && !locally_bound.contains(def_id) && outer_defs.contains(def_id)
                && !seen.contains(def_id) {
                out.push(*def_id);
                seen.insert(*def_id);
                proof {
                    assert(seq![*def_id].to_set() =~= Set::empty().insert(*def_id)) by {
                        assert(seq![*def_id][0] == *def_id);
                    }
                    assert(seen@ =~= seen_after(s0, seq![*def_id]));
                    assert(out@ =~= o0 + seq![*def_id]);
                }
            } else {
                proof {
                    lemma_caps_none(o0, s0);
                }
            }
        },
        HirExprKind::FieldAccess { object, .. } => {
            collect_captures_inner(object, closure_params, outer_defs, locally_bound, out, seen);
        },
        HirExprKind::MethodCall { object, args, block, .. } => {
            collect_captures_inner(object, closure_params, outer_defs, locally_bound, out, seen);
            let ghost o1 = out@;
            let ghost s1 = seen@;
            caps_of_list(args, closure_params, outer_defs, locally_bound, out, seen);
            let ghost o2 = out@;
            let ghost s2 = seen@;
            caps_of_opt(block, closure_params, outer_defs, locally_bound, out, seen);
            proof {
                let r1 = caps(**object, p, od, b0, s0);
                let r2 = caps_list(args@, p, od, b0, s1);
                lemma_caps_chain(o0, o1, o2, s0, s1, s2, r1, r2);
                lemma_caps_chain(o0, o2, out@, s0, s2, seen@, r1 + r2, caps_opt(*block, p, od, b0, s2));
            }
        },
        HirExprKind::FnCall { args, .. } => {
            caps_of_list(args, closure_params, outer_defs, locally_bound, out, seen);
        },
        HirExprKind::BinaryOp { left, right, .. } => {
            collect_captures_inner(left, closure_params, outer_defs, locally_bound, out, seen);
            let ghost o1 = out@;
            let ghost s1 = seen@;
            collect_captures_inner(right, closure_params, outer_defs, locally_bound, out, seen);
            proof {
                lemma_caps_chain(o0, o1, out@, s0, s1, seen@, caps(**left, p, od, b0, s0), caps(**right, p, od, b0, s1));
            }
        },
        HirExprKind::UnaryOp { operand, .. } => {
            collect_captures_inner(operand, closure_params, outer_defs, locally_bound, out, seen);
        },
        HirExprKind::Borrow { expr: inner, .. } => {
            collect_captures_inner(inner, closure_params, outer_defs, locally_bound, out, seen);
        },
        HirExprKind::Block(stmts, tail) | HirExprKind::UnsafeBlock(stmts, tail) => {
            let saved_bound = clone_def_set(locally_bound);
            caps_of_stmts(stmts, closure_params, outer_defs, locally_bound, out, seen);
            let ghost o1 = out@;
            let ghost s1 = seen@;
            caps_of_opt(tail, closure_params, outer_defs, locally_bound, out, seen);
            *locally_bound = saved_bound;
            proof {
                lemma_caps_chain(
                    o0,
                    o1,
                    out@,
                    s0,
                    s1,
                    seen@,
                    caps_stmts(stmts@, p, od, b0, s0),
                    caps_opt(*tail, p, od, stmts_bound(stmts@, b0), s1),
                );
            }
        },
        HirExprKind::If { cond, then_branch, else_branch } => {
            collect_captures_inner(cond, closure_params, outer_defs, locally_bound, out, seen);
            let ghost o1 = out@;
            let ghost s1 = seen@;
            collect_captures_inner(then_branch, closure_params, outer_defs, locally_bound, out, seen);
            let ghost o2 = out@;
            let ghost s2 = seen@;
            caps_of_opt(else_branch, closure_params, outer_defs, locally_bound, out, seen);
            proof {
                let r1 = caps(**cond, p, od, b0, s0);
                let r2 = caps(**then_branch, p, od, b0, s1);
                lemma_caps_chain(o0, o1, o2, s0, s1, s2, r1, r2);
                lemma_caps_chain(o0, o2, out@, s0, s2, seen@, r1 + r2, caps_opt(*else_branch, p, od, b0, s2));
            }
        },
        HirExprKind::Match { scrutinee, arms } => {
            collect_captures_inner(scrutinee, closure_params, outer_defs, locally_bound, out, seen);
            let ghost o1 = out@;
            let ghost s1 = seen@;
            caps_of_arms(arms, closure_params, outer_defs, locally_bound, out, seen);
            proof {
                lemma_caps_chain(o0, o1, out@, s0, s1, seen@, caps(**scrutinee, p, od, b0, s0), caps_arms(arms@, p, od, b0, s1));
            }
        },
        HirExprKind::While { condition, body } => {
            collect_captures_inner(condition, closure_params, outer_defs, locally_bound, out, seen);
            let ghost o1 = out@;
            let ghost s1 = seen@;
            collect_captures_inner(body, closure_params, outer_defs, locally_bound, out, seen);
            proof {
                lemma_caps_chain(o0, o1, out@, s0, s1, seen@, caps(**condition, p, od, b0, s0), caps(**body, p, od, b0, s1));
            }
        },
        HirExprKind::Loop { body } => {
            collect_captures_inner(body, closure_params, outer_defs, locally_bound, out, seen);
        },
        HirExprKind::For { iterable, body, binding, tuple_bindings, .. } => {
            collect_captures_inner(iterable, closure_params, outer_defs, locally_bound, out, seen);
            let ghost o1 = out@;
            let ghost s1 = seen@;
            let saved_bound = clone_def_set(locally_bound);
            locally_bound.insert(*binding);
            let mut k: usize = 0;
            let ghost ids = tuple_bindings@.map_values(|t: (DefId, String)| t.0);
            assert(ids.take(0).to_set() =~= Set::<DefId>::empty());
            while k < tuple_bindings.len()
                invariant
                    k <= tuple_bindings@.len(),
                    ids == tuple_bindings@.map_values(|t: (DefId, String)| t.0),
                    locally_bound@ == b0.insert(*binding).union(ids.take(k as int).to_set()),
                decreases tuple_bindings@.len() - k,
            {
                locally_bound.insert(tuple_bindings[k].0);
                proof {
                    assert(ids.take(k + 1) =~= ids.take(k as int).push(tuple_bindings@[k as int].0));
                    ids.take(k as int).lemma_push_to_set_commute(tuple_bindings@[k as int].0);
                    assert(locally_bound@ =~= b0.insert(*binding).union(ids.take(k + 1).to_set()));
                }
                k = k + 1;
            }
            assert(ids.take(tuple_bindings@.len() as int) =~= ids);
            collect_captures_inner(body, closure_params, outer_defs, locally_bound, out, seen);
            *locally_bound = saved_bound;
            proof {
                lemma_caps_chain(
                    o0,
                    o1,
                    out@,
                    s0,
                    s1,
                    seen@,
                    caps(**iterable, p, od, b0, s0),
                    caps(**body, p, od, b0.insert(*binding).union(ids.to_set()), s1),
                );
            }
        },
        HirExprKind::Assign { target, value } | HirExprKind::CompoundAssign { target, value, .. } => {
            collect_captures_inner(target, closure_params, outer_defs, locally_bound, out, seen);
            let ghost o1 = out@;
            let ghost s1 = seen@;
            collect_captures_inner(value, closure_params, outer_defs, locally_bound, out, seen);
            proof {
                lemma_caps_chain(o0, o1, out@, s0, s1, seen@, caps(**target, p, od, b0, s0), caps(**value, p, od, b0, s1));
            }
        },
        HirExprKind::Return(r) | HirExprKind::Break(r) => {
            caps_of_opt(r, closure_params, outer_defs, locally_bound, out, seen);
        },
        HirExprKind::Tuple(elems) | HirExprKind::ArrayLiteral(elems) => {
            caps_of_list(elems, closure_params, outer_defs, locally_bound, out, seen);
        },
        HirExprKind::Index { object, index } => {
            collect_captures_inner(object, closure_params, outer_defs, locally_bound, out, seen);
            let ghost o1 = out@;
            let ghost s1 = seen@;
            collect_captures_inner(index, closure_params, outer_defs, locally_bound, out, seen);
            proof {
                lemma_caps_chain(o0, o1, out@, s0, s1, seen@, caps(**object, p, od, b0, s0), caps(**index, p, od, b0, s1));
            }
        },
        HirExprKind::Construct { fields, .. } | HirExprKind::EnumVariant { fields, .. } => {
            caps_of_fields(fields, closure_params, outer_defs, locally_bound, out, seen);
        },
        HirExprKind::Interpolation { parts } => {
            caps_of_parts(parts, closure_params, outer_defs, locally_bound, out, seen);
        },
        HirExprKind::MacroCall { args, .. } => {
            caps_of_list(args, closure_params, outer_defs, locally_bound, out, seen);
        },
        HirExprKind::Range { start, end, .. } => {
            caps_of_opt(start, closure_params, outer_defs, locally_bound, out, seen);
            let ghost o1 = out@;
            let ghost s1 = seen@;
            caps_of_opt(end, closure_params, outer_defs, locally_bound, out, seen);
            proof {
                lemma_caps_chain(o0, o1, out@, s0, s1, seen@, caps_opt(*start, p, od, b0, s0), caps_opt(*end, p, od, b0, s1));
            }
        },
        HirExprKind::ArrayFill { value, .. } => {
            collect_captures_inner(value, closure_params, outer_defs, locally_bound, out, seen);
        },
        HirExprKind::Closure { body: nested, params: nested_params, .. } => {
            let mut merged = clone_def_set(closure_params);
            let mut k: usize = 0;
            let ghost ids = nested_params@.map_values(|q: HirClosureParam| q.def_id);
            assert(ids.take(0).to_set() =~= Set::<DefId>::empty());
            assert(merged@ =~= p.union(ids.take(0).to_set()));
            while k < nested_params.len()
                invariant
                    k <= nested_params@.len(),
                    ids == nested_params@.map_values(|q: HirClosureParam| q.def_id),
                    merged@ == p.union(ids.take(k as int).to_set()),
                decreases nested_params@.len() - k,
            {
                merged.insert(nested_params[k].def_id);
                proof {
                    assert(ids.take(k + 1) =~= ids.take(k as int).push(nested_params@[k as int].def_id));
                    ids.take(k as int).lemma_push_to_set_commute(nested_params@[k as int].def_id);
                    assert(merged@ =~= p.union(ids.take(k + 1).to_set()));
                }
                k = k + 1;
            }
            assert(ids.take(nested_params@.len() as int) =~= ids);
            let saved_bound = clone_def_set(locally_bound);
            collect_captures_inner(nested, &merged, outer_defs, locally_bound, out, seen);
            *locally_bound = saved_bound;
        },
        HirExprKind::Cast { expr: inner, .. } => {
            collect_captures_inner(inner, closure_params, outer_defs, locally_bound, out, seen);
        },
        _ => {
            proof {
                lemma_caps_none(o0, s0);
            }
        },
    }
}

// ---------------------------------------------------------------------------
// Laws.
// ---------------------------------------------------------------------------

/// Each of `r` is a variable of the enclosing frame `outer`, is not one of
/// `params` nor of the variables `bound` in the body, was not among the
/// captures `seen` before, and none is recorded twice.
pub open spec fn fresh_captures(r: Seq<DefId>, params: Set<DefId>, outer: Set<DefId>, bound: Set<DefId>, seen: Set<DefId>) -> bool {
    &&& r.no_duplicates()
    &&& forall|i: int|
        0 <= i < r.len() ==> outer.contains(#[trigger] r[i]) && !params.contains(r[i]) && !bound.contains(r[i])
            && !seen.contains(r[i])
}

proof fn lemma_fresh_cat(r1: Seq<DefId>, r2: Seq<DefId>, params: Set<DefId>, outer: Set<DefId>, bound: Set<DefId>, seen: Set<DefId>)
    requires
        fresh_captures(r1, params, outer, bound, seen),
        fresh_captures(r2, params, outer, bound, seen_after(seen, r1)),
    ensures
        fresh_captures(r1 + r2, params, outer, bound, seen),
{
    let r = r1 + r2;
    assert forall|i: int| 0 <= i < r.len() implies outer.contains(#[trigger] r[i]) && !params.contains(r[i])
        && !bound.contains(r[i]) && !seen.contains(r[i]) by {
        if i >= r1.len() {
            assert(r[i] == r2[i - r1.len()]);
        }
    }
    assert forall|i: int, j: int| 0 <= i < r.len() && 0 <= j < r.len() && i != j implies r[i] != r[j] by {
        if i < r1.len() && j >= r1.len() {
            assert(r1.contains(r1[i]));
            assert(!seen_after(seen, r1).contains(r2[j - r1.len()]));
        } else if j < r1.len() && i >= r1.len() {
            assert(r1.contains(r1[j]));
            assert(!seen_after(seen, r1).contains(r2[i - r1.len()]));
        } else if i >= r1.len() && j >= r1.len() {
            assert(r[i] == r2[i - r1.len()] && r[j] == r2[j - r1.len()]);
        }
    }
}

proof fn lemma_fresh_weaken(
    r: Seq<DefId>,
    params: Set<DefId>,
    big_params: Set<DefId>,
    bound: Set<DefId>,
    big_bound: Set<DefId>,
    outer: Set<DefId>,
    seen: Set<DefId>,
)
    requires
        fresh_captures(r, big_params, outer, big_bound, seen),
        params.subset_of(big_params),
        bound.subset_of(big_bound),
    ensures
        fresh_captures(r, params, outer, bound, seen),
{
}

proof fn lemma_stmts_bound_grows(ss: Seq<HirStatement>, bound: Set<DefId>)
    ensures
        bound.subset_of(stmts_bound(ss, bound)),
    decreases ss.len(),
{
    if ss.len() > 0 {
        lemma_stmts_bound_grows(ss.drop_last(), bound);
    }
}

/// The captures a closure body records are fresh: each is a variable of the
/// enclosing frame, none is a parameter of the closure, none is bound in
/// the body (in `bound` or by a `let` or `for` before its use), none was
/// captured before, and none is recorded twice.
pub proof fn law_captures_fresh(e: HirExpr, params: Set<DefId>, outer: Set<DefId>, bound: Set<DefId>, seen: Set<DefId>)
    ensures
        fresh_captures(caps(e, params, outer, bound, seen), params, outer, bound, seen),
    decreases e, 2nat,
{
    let r = caps(e, params, outer, bound, seen);
    match e.kind {
        HirExprKind::VarRef(d) => {},
        HirExprKind::FieldAccess { object, .. } => law_captures_fresh(*object, params, outer, bound, seen),
        HirExprKind::MethodCall { object, args, block, .. } => {
            let r1 = caps(*object, params, outer, bound, seen);
            let s1 = seen_after(seen, r1);
            let r2 = caps_list(args@, params, outer, bound, s1);
            law_captures_fresh(*object, params, outer, bound, seen);
            lemma_caps_list_fresh(args@, params, outer, bound, s1);
            lemma_fresh_cat(r1, r2, params, outer, bound, seen);
            vstd::seq_lib::seq_to_set_distributes_over_add(r1, r2);
            assert(seen_after(s1, r2) =~= seen_after(seen, r1 + r2));
            lemma_caps_opt_fresh(block, params, outer, bound, seen_after(s1, r2));
            lemma_fresh_cat(r1 + r2, caps_opt(block, params, outer, bound, seen_after(s1, r2)), params, outer, bound, seen);
        },
        HirExprKind::FnCall { args, .. } => lemma_caps_list_fresh(args@, params, outer, bound, seen),
        HirExprKind::MacroCall { args, .. } => lemma_caps_list_fresh(args@, params, outer, bound, seen),
        HirExprKind::BinaryOp { left, right, .. } => {
            let r1 = caps(*left, params, outer, bound, seen);
            law_captures_fresh(*left, params, outer, bound, seen);
            law_captures_fresh(*right, params, outer, bound, seen_after(seen, r1));
            lemma_fresh_cat(r1, caps(*right, params, outer, bound, seen_after(seen, r1)), params, outer, bound, seen);
        },
        HirExprKind::UnaryOp { operand, .. } => law_captures_fresh(*operand, params, outer, bound, seen),
        HirExprKind::Borrow { expr, .. } => law_captures_fresh(*expr, params, outer, bound, seen),
        HirExprKind::Block(stmts, tail) => {
            let r1 = caps_stmts(stmts@, params, outer, bound, seen);
            lemma_caps_stmts_fresh(stmts@, params, outer, bound, seen);
            lemma_caps_opt_fresh(tail, params, outer, stmts_bound(stmts@, bound), seen_after(seen, r1));
            lemma_stmts_bound_grows(stmts@, bound);
            lemma_fresh_weaken(
                caps_opt(tail, params, outer, stmts_bound(stmts@, bound), seen_after(seen, r1)),
                params,
                params,
                bound,
                stmts_bound(stmts@, bound),
                outer,
                seen_after(seen, r1),
            );
            lemma_fresh_cat(r1, caps_opt(tail, params, outer, stmts_bound(stmts@, bound), seen_after(seen, r1)), params, outer, bound, seen);
        },
        HirExprKind::UnsafeBlock(stmts, tail) => {
            let r1 = caps_stmts(stmts@, params, outer, bound, seen);
            lemma_caps_stmts_fresh(stmts@, params, outer, bound, seen);
            lemma_caps_opt_fresh(tail, params, outer, stmts_bound(stmts@, bound), seen_after(seen, r1));
            lemma_stmts_bound_grows(stmts@, bound);
            lemma_fresh_weaken(
                caps_opt(tail, params, outer, stmts_bound(stmts@, bound), seen_after(seen, r1)),
                params,
                params,
                bound,
                stmts_bound(stmts@, bound),
                outer,
                seen_after(seen, r1),
            );
            lemma_fresh_cat(r1, caps_opt(tail, params, outer, stmts_bound(stmts@, bound), seen_after(seen, r1)), params, outer, bound, seen);
        },
        HirExprKind::If { cond, then_branch, else_branch } => {
            let r1 = caps(*cond, params, outer, bound, seen);
            let s1 = seen_after(seen, r1);
            let r2 = caps(*then_branch, params, outer, bound, s1);
            law_captures_fresh(*cond, params, outer, bound, seen);
            law_captures_fresh(*then_branch, params, outer, bound, s1);
            lemma_fresh_cat(r1, r2, params, outer, bound, seen);
            vstd::seq_lib::seq_to_set_distributes_over_add(r1, r2);
            assert(seen_after(s1, r2) =~= seen_after(seen, r1 + r2));
            lemma_caps_opt_fresh(else_branch, params, outer, bound, seen_after(s1, r2));
            lemma_fresh_cat(r1 + r2, caps_opt(else_branch, params, outer, bound, seen_after(s1, r2)), params, outer, bound, seen);
        },
        HirExprKind::Match { scrutinee, arms } => {
            let r1 = caps(*scrutinee, params, outer, bound, seen);
            law_captures_fresh(*scrutinee, params, outer, bound, seen);
            lemma_caps_arms_fresh(arms@, params, outer, bound, seen_after(seen, r1));
            lemma_fresh_cat(r1, caps_arms(arms@, params, outer, bound, seen_after(seen, r1)), params, outer, bound, seen);
        },
        HirExprKind::While { condition, body } => {
            let r1 = caps(*condition, params, outer, bound, seen);
            law_captures_fresh(*condition, params, outer, bound, seen);
            law_captures_fresh(*body, params, outer, bound, seen_after(seen, r1));
            lemma_fresh_cat(r1, caps(*body, params, outer, bound, seen_after(seen, r1)), params, outer, bound, seen);
        },
        HirExprKind::Loop { body } => law_captures_fresh(*body, params, outer, bound, seen),
        HirExprKind::For { iterable, body, binding, tuple_bindings, .. } => {
            let r1 = caps(*iterable, params, outer, bound, seen);
            let inner = bound.insert(binding).union(tuple_bindings@.map_values(|t: (DefId, String)| t.0).to_set());
            law_captures_fresh(*iterable, params, outer, bound, seen);
            law_captures_fresh(*body, params, outer, inner, seen_after(seen, r1));
            lemma_fresh_weaken(caps(*body, params, outer, inner, seen_after(seen, r1)), params, params, bound, inner, outer, seen_after(seen, r1));
            lemma_fresh_cat(r1, caps(*body, params, outer, inner, seen_after(seen, r1)), params, outer, bound, seen);
        },
        HirExprKind::Assign { target, value } => {
            let r1 = caps(*target, params, outer, bound, seen);
            law_captures_fresh(*target, params, outer, bound, seen);
            law_captures_fresh(*value, params, outer, bound, seen_after(seen, r1));
            lemma_fresh_cat(r1, caps(*value, params, outer, bound, seen_after(seen, r1)), params, outer, bound, seen);
        },
        HirExprKind::CompoundAssign { target, value, .. } => {
            let r1 = caps(*target, params, outer, bound, seen);
            law_captures_fresh(*target, params, outer, bound, seen);
            law_captures_fresh(*value, params, outer, bound, seen_after(seen, r1));
            lemma_fresh_cat(r1, caps(*value, params, outer, bound, seen_after(seen, r1)), params, outer, bound, seen);
        },
        HirExprKind::Return(x) => lemma_caps_opt_fresh(x, params, outer, bound, seen),
        HirExprKind::Break(x) => lemma_caps_opt_fresh(x, params, outer, bound, seen),
        HirExprKind::Tuple(es) => lemma_caps_list_fresh(es@, params, outer, bound, seen),
        HirExprKind::ArrayLiteral(es) => lemma_caps_list_fresh(es@, params, outer, bound, seen),
        HirExprKind::Index { object, index } => {
            let r1 = caps(*object, params, outer, bound, seen);
            law_captures_fresh(*object, params, outer, bound, seen);
            law_captures_fresh(*index, params, outer, bound, seen_after(seen, r1));
            lemma_fresh_cat(r1, caps(*index, params, outer, bound, seen_after(seen, r1)), params, outer, bound, seen);
        },
        HirExprKind::Construct { fields, .. } => lemma_caps_fields_fresh(fields@, params, outer, bound, seen),
        HirExprKind::EnumVariant { fields, .. } => lemma_caps_fields_fresh(fields@, params, outer, bound, seen),
        HirExprKind::Interpolation { parts } => lemma_caps_parts_fresh(parts@, params, outer, bound, seen),
        HirExprKind::Range { start, end, .. } => {
            let r1 = caps_opt(start, params, outer, bound, seen);
            lemma_caps_opt_fresh(start, params, outer, bound, seen);
            lemma_caps_opt_fresh(end, params, outer, bound, seen_after(seen, r1));
            lemma_fresh_cat(r1, caps_opt(end, params, outer, bound, seen_after(seen, r1)), params, outer, bound, seen);
        },
        HirExprKind::ArrayFill { value, .. } => law_captures_fresh(*value, params, outer, bound, seen),
        HirExprKind::Closure { body, params: nested, .. } => {
            let big = params.union(nested@.map_values(|p: HirClosureParam| p.def_id).to_set());
            law_captures_fresh(*body, big, outer, bound, seen);
            lemma_fresh_weaken(r, params, big, bound, bound, outer, seen);
        },
        HirExprKind::Cast { expr, .. } => law_captures_fresh(*expr, params, outer, bound, seen),
        _ => {},
    }
}

proof fn lemma_caps_opt_fresh(o: Option<Box<HirExpr>>, params: Set<DefId>, outer: Set<DefId>, bound: Set<DefId>, seen: Set<DefId>)
    ensures
        fresh_captures(caps_opt(o, params, outer, bound, seen), params, outer, bound, seen),
    decreases o, 0nat,
{
    match o {
        Some(b) => law_captures_fresh(*b, params, outer, bound, seen),
        None => {},
    }
}

proof fn lemma_caps_list_fresh(es: Seq<HirExpr>, params: Set<DefId>, outer: Set<DefId>, bound: Set<DefId>, seen: Set<DefId>)
    ensures
        fresh_captures(caps_list(es, params, outer, bound, seen), params, outer, bound, seen),
    decreases es, 0nat,
{
    if es.len() > 0 {
        let r1 = caps_list(es.drop_last(), params, outer, bound, seen);
        lemma_caps_list_fresh(es.drop_last(), params, outer, bound, seen);
        law_captures_fresh(es.last(), params, outer, bound, seen_after(seen, r1));
        lemma_fresh_cat(r1, caps(es.last(), params, outer, bound, seen_after(seen, r1)), params, outer, bound, seen);
    }
}

proof fn lemma_caps_fields_fresh(fs: Seq<(String, HirExpr)>, params: Set<DefId>, outer: Set<DefId>, bound: Set<DefId>, seen: Set<DefId>)
    ensures
        fresh_captures(caps_fields(fs, params, outer, bound, seen), params, outer, bound, seen),
    decreases fs, 0nat,
{
    if fs.len() > 0 {
        let r1 = caps_fields(fs.drop_last(), params, outer, bound, seen);
        lemma_caps_fields_fresh(fs.drop_last(), params, outer, bound, seen);
        law_captures_fresh(fs.last().1, params, outer, bound, seen_after(seen, r1));
        lemma_fresh_cat(r1, caps(fs.last().1, params, outer, bound, seen_after(seen, r1)), params, outer, bound, seen);
    }
}

proof fn lemma_part_fresh(p: HirInterpolationPart, params: Set<DefId>, outer: Set<DefId>, bound: Set<DefId>, seen: Set<DefId>)
    ensures
        fresh_captures(part_caps(p, params, outer, bound, seen), params, outer, bound, seen),
    decreases p, 0nat,
{
    match p {
        HirInterpolationPart::Expr { expr, .. } => law_captures_fresh(expr, params, outer, bound, seen),
        _ => {},
    }
}

proof fn lemma_caps_parts_fresh(ps: Seq<HirInterpolationPart>, params: Set<DefId>, outer: Set<DefId>, bound: Set<DefId>, seen: Set<DefId>)
    ensures
        fresh_captures(caps_parts(ps, params, outer, bound, seen), params, outer, bound, seen),
    decreases ps, 1nat,
{
    if ps.len() > 0 {
        let r1 = caps_parts(ps.drop_last(), params, outer, bound, seen);
        lemma_caps_parts_fresh(ps.drop_last(), params, outer, bound, seen);
        lemma_part_fresh(ps.last(), params, outer, bound, seen_after(seen, r1));
        lemma_fresh_cat(r1, part_caps(ps.last(), params, outer, bound, seen_after(seen, r1)), params, outer, bound, seen);
    }
}

proof fn lemma_arm_fresh(arm: HirMatchArm, params: Set<DefId>, outer: Set<DefId>, bound: Set<DefId>, seen: Set<DefId>)
    ensures
        fresh_captures(arm_caps(arm, params, outer, bound, seen), params, outer, bound, seen),
    decreases arm, 0nat,
{
    let r1 = match arm.guard {
        Some(g) => caps(g, params, outer, bound, seen),
        None => Seq::empty(),
    };
    match arm.guard {
        Some(g) => law_captures_fresh(g, params, outer, bound, seen),
        None => {},
    }
    law_captures_fresh(arm.body, params, outer, bound, seen_after(seen, r1));
    lemma_fresh_cat(r1, caps(arm.body, params, outer, bound, seen_after(seen, r1)), params, outer, bound, seen);
}

proof fn lemma_caps_arms_fresh(arms: Seq<HirMatchArm>, params: Set<DefId>, outer: Set<DefId>, bound: Set<DefId>, seen: Set<DefId>)
    ensures
        fresh_captures(caps_arms(arms, params, outer, bound, seen), params, outer, bound, seen),
    decreases arms, 1nat,
{
    if arms.len() > 0 {
        let r1 = caps_arms(arms.drop_last(), params, outer, bound, seen);
        lemma_caps_arms_fresh(arms.drop_last(), params, outer, bound, seen);
        lemma_arm_fresh(arms.last(), params, outer, bound, seen_after(seen, r1));
        lemma_fresh_cat(r1, arm_caps(arms.last(), params, outer, bound, seen_after(seen, r1)), params, outer, bound, seen);
    }
}

proof fn lemma_stmt_fresh(st: HirStatement, params: Set<DefId>, outer: Set<DefId>, bound: Set<DefId>, seen: Set<DefId>)
    ensures
        fresh_captures(stmt_caps(st, params, outer, bound, seen), params, outer, bound, seen),
    decreases st, 0nat,
{
    match st {
        HirStatement::Let { value: Some(v), .. } => law_captures_fresh(v, params, outer, bound, seen),
        HirStatement::Let { value: None, .. } => {},
        HirStatement::Expr(x) => law_captures_fresh(x, params, outer, bound, seen),
    }
}

proof fn lemma_caps_stmts_fresh(ss: Seq<HirStatement>, params: Set<DefId>, outer: Set<DefId>, bound: Set<DefId>, seen: Set<DefId>)
    ensures
        fresh_captures(caps_stmts(ss, params, outer, bound, seen), params, outer, bound, seen),
    decreases ss, 1nat,
{
    if ss.len() > 0 {
        let r1 = caps_stmts(ss.drop_last(), params, outer, bound, seen);
        let b1 = stmts_bound(ss.drop_last(), bound);
        lemma_caps_stmts_fresh(ss.drop_last(), params, outer, bound, seen);
        lemma_stmt_fresh(ss.last(), params, outer, b1, seen_after(seen, r1));
        lemma_stmts_bound_grows(ss.drop_last(), bound);
        lemma_fresh_weaken(stmt_caps(ss.last(), params, outer, b1, seen_after(seen, r1)), params, params, bound, b1, outer, seen_after(seen, r1));
        lemma_fresh_cat(r1, stmt_caps(ss.last(), params, outer, b1, seen_after(seen, r1)), params, outer, bound, seen);
    }
}

} // verus!
