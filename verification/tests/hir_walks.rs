use ruxen_core::hir::nodes::{
    HirConst, HirExpr, HirExprKind, HirFuncDef, HirItem, HirModule, HirParam, HirProgram,
    HirStatement, HirPattern,
};
use ruxen_core::hir::types::{MixinBound, Ty};
use ruxen_core::lexer::token::Span;
use ruxen_core::mir::lower::calls::{for_each_fn_body, walk_calls_in_expr};
use ruxen_core::mir::lower::monomorphize::{
    is_fully_concrete, mono_arg_token, mono_base, strip_mono_suffix, unify_collect_type_params,
    walk_tys_in_expr, walk_tys_in_program,
};
use ruxen_core::mir::lower::trait_default::{
    lookup_binding, rewrite_self_in_expr, rewrite_self_in_func, rewrite_self_in_ty,
    subst_type_params_in_expr, subst_type_params_in_func, subst_type_params_in_ty,
};
use ruxen_core::parser::ast::{BinOp, Visibility};

fn span() -> Span {
    Span::new(0, 0, 1, 1)
}

fn expr(kind: HirExprKind, ty: Ty) -> HirExpr {
    HirExpr { kind, ty, span: span() }
}

fn tp(name: &str) -> Ty {
    Ty::TypeParam { name: name.to_string(), bounds: vec![] }
}

fn class(name: &str, args: Vec<Ty>) -> Ty {
    Ty::Class { name: name.to_string(), generic_args: args }
}

fn dbg<T: std::fmt::Debug>(t: &T) -> String {
    format!("{:?}", t)
}

fn call(name: &str, args: Vec<HirExpr>) -> HirExpr {
    expr(HirExprKind::FnCall { callee: 0, callee_name: name.to_string(), args }, Ty::Unit)
}

fn func(name: &str, generic: Vec<&str>, params: Vec<HirParam>, ret: Ty, body: HirExpr) -> HirFuncDef {
    HirFuncDef {
        def_id: 0,
        name: name.to_string(),
        visibility: Visibility::Public,
        is_async: false,
        self_mode: None,
        is_class_method: false,
        generic_params: generic.into_iter().map(|s| s.to_string()).collect(),
        params,
        return_ty: ret,
        body: Box::new(body),
        doc_comments: vec![],
        span: span(),
    }
}

fn param(name: &str, ty: Ty) -> HirParam {
    HirParam { def_id: 1, name: name.to_string(), ty, auto_assign: false, default: None, span: span() }
}

#[test]
fn fully_concrete_types() {
    assert!(is_fully_concrete(&Ty::Int));
    assert!(is_fully_concrete(&class("Box", vec![Ty::String])));
    assert!(!is_fully_concrete(&class("Box", vec![tp("T")])));
    assert!(!is_fully_concrete(&Ty::Ref(Box::new(Ty::Infer(3)))));
    assert!(!is_fully_concrete(&Ty::Tuple(vec![Ty::Int, tp("U")])));
    assert!(is_fully_concrete(&Ty::Mapping(Box::new(Ty::String), Box::new(Ty::Int))));
}

#[test]
fn mono_symbols() {
    assert_eq!(mono_arg_token("Array[Int]"), "Array_Int_");
    assert_eq!(mono_base("Box", &vec!["String".to_string()]), "Box__mono__String");
    assert_eq!(
        mono_base("std.Pair", &vec!["Int".to_string(), "String".to_string()]),
        "std_Pair__mono__Int__String"
    );
    assert_eq!(strip_mono_suffix("Box__mono__String_eq"), Some("Box"));
    assert_eq!(strip_mono_suffix("Box_eq"), None);
}

#[test]
fn strip_mono_suffix_undoes_mono_base() {
    let base = mono_base("geo.Point", &vec!["Float".to_string()]);
    let method = format!("{}_norm", base);
    assert_eq!(strip_mono_suffix(&method), Some("geo_Point"));
}

#[test]
fn unify_binds_type_params_to_concrete_args() {
    let decl = class("Pair", vec![tp("A"), tp("B")]);
    let actual = Ty::Ref(Box::new(class("Pair", vec![Ty::Int, Ty::String])));
    let mut out: Vec<(String, Ty)> = Vec::new();
    unify_collect_type_params(&decl, &actual, &mut out);
    assert_eq!(out.len(), 2);
    assert_eq!(out[0].0, "A");
    assert!(matches!(out[0].1, Ty::Int));
    assert_eq!(out[1].0, "B");
    assert!(matches!(out[1].1, Ty::String));
}

#[test]
fn unify_keeps_first_binding_and_skips_unresolved() {
    let decl = Ty::Tuple(vec![tp("T"), tp("T"), tp("U")]);
    let actual = Ty::Tuple(vec![Ty::Int, Ty::String, tp("V")]);
    let mut out: Vec<(String, Ty)> = Vec::new();
    unify_collect_type_params(&decl, &actual, &mut out);
    assert_eq!(out.len(), 1);
    assert_eq!(out[0].0, "T");
    assert!(matches!(out[0].1, Ty::Int));
    // A shape mismatch binds nothing.
    let mut none: Vec<(String, Ty)> = Vec::new();
    unify_collect_type_params(&Ty::Array(Box::new(tp("T"))), &Ty::Int, &mut none);
    assert!(none.is_empty());
}

#[test]
fn subst_in_type() {
    let subst = vec![("T".to_string(), Ty::String), ("T".to_string(), Ty::Int)];
    assert!(matches!(lookup_binding(&subst, &"T".to_string()), Some(Ty::String)));
    assert!(lookup_binding(&subst, &"U".to_string()).is_none());
    let mut t = Ty::Result(Box::new(class("Box", vec![tp("T")])), Box::new(tp("U")));
    subst_type_params_in_ty(&mut t, &subst);
    assert_eq!(dbg(&t), dbg(&Ty::Result(Box::new(class("Box", vec![Ty::String])), Box::new(tp("U")))));
    assert!(!is_fully_concrete(&t));
    let mut u = Ty::Array(Box::new(tp("T")));
    subst_type_params_in_ty(&mut u, &subst);
    assert!(is_fully_concrete(&u));
}

#[test]
fn subst_with_no_bindings_changes_nothing() {
    let mut t = Ty::Tuple(vec![tp("T"), Ty::Int]);
    let before = dbg(&t);
    subst_type_params_in_ty(&mut t, &vec![]);
    assert_eq!(dbg(&t), before);
}

#[test]
fn rewrite_self_in_type() {
    let concrete = class("Point", vec![]);
    let mut t = Ty::Option(Box::new(Ty::Ref(Box::new(tp("Self")))));
    rewrite_self_in_ty(&mut t, &concrete);
    assert_eq!(dbg(&t), dbg(&Ty::Option(Box::new(Ty::Ref(Box::new(class("Point", vec![])))))));
    // Array elements, map keys and values and generic arguments are rewritten too.
    let mut a = Ty::Array(Box::new(tp("Self")));
    rewrite_self_in_ty(&mut a, &concrete);
    assert_eq!(dbg(&a), dbg(&Ty::Array(Box::new(class("Point", vec![])))));
    let mut m = Ty::Mapping(Box::new(Ty::Str), Box::new(class("Box", vec![tp("Self")])));
    rewrite_self_in_ty(&mut m, &concrete);
    assert_eq!(dbg(&m), dbg(&Ty::Mapping(Box::new(Ty::Str), Box::new(class("Box", vec![class("Point", vec![])])))));
    let mut u = Ty::SetOf(Box::new(tp("U")));
    rewrite_self_in_ty(&mut u, &concrete);
    assert_eq!(dbg(&u), dbg(&Ty::SetOf(Box::new(tp("U")))));
}

fn sample_body() -> HirExpr {
    let cast = expr(
        HirExprKind::Cast { expr: Box::new(expr(HirExprKind::VarRef(1), tp("T"))), target: tp("T") },
        tp("T"),
    );
    let let_stmt = HirStatement::Let {
        def_id: 2,
        pattern: HirPattern::Wildcard,
        ty: tp("T"),
        value: Some(cast),
        mutable: false,
        span: span(),
    };
    let map = expr(
        HirExprKind::MapLiteral(vec![(expr(HirExprKind::IntLiteral(1), tp("T")), expr(HirExprKind::IntLiteral(2), Ty::Int))]),
        tp("T"),
    );
    expr(HirExprKind::Block(vec![let_stmt], Some(Box::new(map))), tp("T"))
}

#[test]
fn subst_in_body_rewrites_every_visited_type() {
    let mut body = sample_body();
    subst_type_params_in_expr(&mut body, &vec![("T".to_string(), Ty::Int)]);
    let mut tys: Vec<&Ty> = Vec::new();
    walk_tys_in_expr(&body, &mut tys);
    let seen: Vec<String> = tys.iter().map(|t| dbg(*t)).collect();
    // Block, let, cast, var, cast target, the map literal and its entries
    // are all rewritten.
    assert_eq!(seen.len(), 8);
    for t in &seen {
        assert_eq!(t, "Int");
    }
}

#[test]
fn subst_and_rewrite_functions() {
    let body = expr(HirExprKind::VarRef(1), tp("T"));
    let mut f = func("id", vec!["T"], vec![param("x", tp("T"))], tp("T"), body);
    subst_type_params_in_func(&mut f, &vec![("T".to_string(), Ty::Bool)]);
    assert!(matches!(f.return_ty, Ty::Bool));
    assert!(matches!(f.params[0].ty, Ty::Bool));
    assert!(matches!(f.body.ty, Ty::Bool));
    assert_eq!(f.generic_params, vec!["T".to_string()]);
    assert_eq!(f.name, "id");

    let body = expr(HirExprKind::VarRef(1), tp("Self"));
    let mut g = func("me", vec![], vec![param("self", Ty::Ref(Box::new(tp("Self"))))], tp("Self"), body);
    rewrite_self_in_func(&mut g, &class("Point", vec![]));
    assert_eq!(dbg(&g.return_ty), dbg(&class("Point", vec![])));
    assert_eq!(dbg(&g.params[0].ty), dbg(&Ty::Ref(Box::new(class("Point", vec![])))));
    let mut e = expr(HirExprKind::VarRef(1), tp("Self"));
    rewrite_self_in_expr(&mut e, &Ty::Int);
    assert!(matches!(e.ty, Ty::Int));
}

#[test]
fn calls_are_walked_in_preorder() {
    let inner = call("g", vec![]);
    let outer = call("f", vec![inner, expr(HirExprKind::IntLiteral(3), Ty::Int)]);
    let bin = expr(
        HirExprKind::BinaryOp {
            op: BinOp::Add,
            left: Box::new(outer),
            right: Box::new(call("h", vec![])),
        },
        Ty::Int,
    );
    let mut out: Vec<&HirExpr> = Vec::new();
    walk_calls_in_expr(&bin, &mut out);
    let names: Vec<String> = out
        .iter()
        .map(|e| match &e.kind {
            HirExprKind::FnCall { callee_name, .. } => callee_name.clone(),
            _ => String::new(),
        })
        .collect();
    assert_eq!(names, vec!["f", "g", "h"]);
}

#[test]
fn fn_bodies_with_generic_flags() {
    let f = func("f", vec!["T"], vec![], Ty::Unit, call("a", vec![]));
    let g = func("g", vec![], vec![], Ty::Unit, call("b", vec![]));
    let c = HirConst { def_id: 9, name: "K".to_string(), ty: Ty::Int, value: call("c", vec![]), span: span() };
    let program = HirProgram {
        items: vec![
            HirItem::Function(f),
            HirItem::Module(HirModule { name: "m".to_string(), items: vec![HirItem::Function(g)], span: span() }),
            HirItem::Const(c),
        ],
        span: span(),
        prelude_item_count: 0,
    };
    let bodies = for_each_fn_body(&program);
    let seen: Vec<(String, bool)> = bodies
        .iter()
        .map(|(b, generic)| match &b.kind {
            HirExprKind::FnCall { callee_name, .. } => (callee_name.clone(), *generic),
            _ => (String::new(), *generic),
        })
        .collect();
    assert_eq!(
        seen,
        vec![("a".to_string(), true), ("b".to_string(), false), ("c".to_string(), false)]
    );
    let mut tys: Vec<&Ty> = Vec::new();
    walk_tys_in_program(&program, &mut tys);
    // f: return type, body; g: return type, body; const: type, value.
    assert_eq!(tys.len(), 6);
}

#[test]
fn subst_reaches_function_pointer_newtype_alias_and_bound_types() {
    let subst = vec![("T".to_string(), Ty::Int)];
    let mut f = Ty::Fn { params: vec![tp("T")], ret: Box::new(Ty::Option(Box::new(tp("T")))) };
    subst_type_params_in_ty(&mut f, &subst);
    assert_eq!(dbg(&f), dbg(&Ty::Fn { params: vec![Ty::Int], ret: Box::new(Ty::Option(Box::new(Ty::Int))) }));
    let mut g = Ty::FnOnce { params: vec![], ret: Box::new(Ty::RawPtr(Box::new(tp("T")))) };
    subst_type_params_in_ty(&mut g, &subst);
    assert_eq!(dbg(&g), dbg(&Ty::FnOnce { params: vec![], ret: Box::new(Ty::RawPtr(Box::new(Ty::Int))) }));
    let mut n = Ty::Newtype { name: "Id".to_string(), inner: Box::new(tp("T")) };
    subst_type_params_in_ty(&mut n, &subst);
    assert_eq!(dbg(&n), dbg(&Ty::Newtype { name: "Id".to_string(), inner: Box::new(Ty::Int) }));
    let mut a = Ty::Alias { name: "A".to_string(), target: Box::new(tp("T")) };
    subst_type_params_in_ty(&mut a, &subst);
    assert_eq!(dbg(&a), dbg(&Ty::Alias { name: "A".to_string(), target: Box::new(Ty::Int) }));
    let bound = |t: Ty| MixinBound { name: "Into".to_string(), generic_args: vec![t] };
    let mut s = Ty::SomeMixin(vec![bound(tp("T"))]);
    subst_type_params_in_ty(&mut s, &subst);
    assert_eq!(dbg(&s), dbg(&Ty::SomeMixin(vec![bound(Ty::Int)])));
    // An unbound type parameter keeps its name; its bounds are substituted.
    let mut u = Ty::TypeParam { name: "U".to_string(), bounds: vec![bound(tp("T"))] };
    subst_type_params_in_ty(&mut u, &subst);
    assert_eq!(dbg(&u), dbg(&Ty::TypeParam { name: "U".to_string(), bounds: vec![bound(Ty::Int)] }));
}

#[test]
fn self_rewrite_reaches_function_types_and_bounds() {
    let concrete = class("Point", vec![]);
    let mut f = Ty::FnMut { params: vec![tp("Self")], ret: Box::new(Ty::Unit) };
    rewrite_self_in_ty(&mut f, &concrete);
    assert_eq!(dbg(&f), dbg(&Ty::FnMut { params: vec![class("Point", vec![])], ret: Box::new(Ty::Unit) }));
    let mut u = Ty::AnyMixin(vec![MixinBound { name: "Eq".to_string(), generic_args: vec![tp("Self")] }]);
    rewrite_self_in_ty(&mut u, &concrete);
    assert_eq!(
        dbg(&u),
        dbg(&Ty::AnyMixin(vec![MixinBound { name: "Eq".to_string(), generic_args: vec![class("Point", vec![])] }]))
    );
}
