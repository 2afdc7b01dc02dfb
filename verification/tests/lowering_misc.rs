use std::collections::{HashMap, HashSet};

use ruxen_core::hir::nodes::{
    HirClass, HirClosureParam, HirExpr, HirExprKind, HirFuncDef, HirImplBlock, HirImplItem, HirItem, HirMatchArm,
    HirPattern, HirProgram, HirStatement,
};
use ruxen_core::hir::types::{MixinBound, Ty};
use ruxen_core::lexer::token::{FormatSpec, Span};
use ruxen_core::mir::lower::captures::{closure_body_mutates, collect_captures};
use ruxen_core::mir::lower::closure_inline::sort_by::{inline_sort_by_enter, inline_sort_by_finish};
use ruxen_core::mir::lower::drops::elide_returns_self_realloc;
use ruxen_core::mir::lower::expr::assign::{
    assign_to_field, assign_to_variable, compound_assign_to_field, compound_assign_to_variable,
    emit_index_store, index_assign_is_method_call, index_store, IndexStore,
};
use ruxen_core::mir::lower::match_arms::{
    bind_payload_field, bind_whole_scrutinee, cascade_arm_blocks, cascade_literal_test, builtin_variant_field, emit_enum_switch, enum_match_tag,
    finish_arm, guard_branch, is_enum_match, load_payload, match_result_local, plan_enum_match,
};
use ruxen_core::mir::lower::expr::closure::{
    begin_captures_record, closure_function, closure_name, fill_capture_slot, plan_capture_slots,
    promote_captured_cells, CaptureError, CaptureKind, CaptureSlot, CaptureSource,
};
use ruxen_core::mir::lower::expr::binops::{coerce_compare_operands, lower_binop_values, numeric_kind, NumKind};
use ruxen_core::mir::lower::expr::constructors::{
    begin_enum_variant, coerce_to_field_ty, store_field, tuple_slot_types,
};
use ruxen_core::mir::lower::expr::for_loop::{for_each_enter, for_loop_finish, for_range_enter};
use ruxen_core::mir::lower::expr::index::is_indexable_vec_ty;
use ruxen_core::mir::lower::runtime_abi::strip_call_suffixes;
use ruxen_core::mir::lower::strip_generic_suffix;
use ruxen_core::mir::lower::util::{
    binop_to_cmpop, element_type_of, encode_format_spec, is_collection_method, is_comparison,
    is_option_type, is_result_type, is_vec_or_iterator_type, local_to_value, ty_is_callable,
};
use ruxen_core::mir::nodes::{
    BasicBlock, CmpOp, Literal, MirFunction, MirInst, MirProgram, MirValue, Terminator,
};
use ruxen_core::no_std::validate;
use ruxen_core::parser::ast::{BinOp, Visibility};

fn span() -> Span {
    Span::new(3, 9, 2, 4)
}

fn expr(kind: HirExprKind, ty: Ty) -> HirExpr {
    HirExpr { kind, ty, span: span() }
}

fn var(d: u32) -> HirExpr {
    expr(HirExprKind::VarRef(d), Ty::Int)
}

fn class(name: &str) -> Ty {
    Ty::Class { name: name.to_string(), generic_args: vec![] }
}

#[test]
fn option_result_and_collection_types() {
    assert!(is_option_type(&Ty::Ref(Box::new(Ty::Option(Box::new(Ty::Int))))));
    assert!(is_option_type(&class("Option[Int]")));
    assert!(!is_option_type(&Ty::Int));
    assert!(is_result_type(&class("Result")));
    assert!(is_result_type(&Ty::Result(Box::new(Ty::Int), Box::new(Ty::String))));
    assert!(!is_result_type(&class("Res")));
    assert!(is_vec_or_iterator_type(&class("Vec[Int]")));
    assert!(is_vec_or_iterator_type(&Ty::RefMut(Box::new(class("Array")))));
    assert!(!is_vec_or_iterator_type(&class("TaskList")));
    assert!(is_collection_method("each_with_index"));
    assert!(!is_collection_method("each_slice"));
    assert!(is_indexable_vec_ty(&Ty::Ref(Box::new(Ty::Array(Box::new(Ty::Int))))));
    assert!(is_indexable_vec_ty(&Ty::RefLifetime("a".to_string(), Box::new(Ty::Array(Box::new(Ty::Int))))));
}

#[test]
fn callable_and_element_types() {
    let f = Ty::Fn { params: vec![Ty::Int], ret: Box::new(Ty::Unit) };
    assert!(ty_is_callable(&Ty::Ref(Box::new(f))));
    let bound = MixinBound { name: "FnMut".to_string(), generic_args: vec![] };
    assert!(ty_is_callable(&Ty::AnyMixin(vec![bound])));
    assert!(!ty_is_callable(&Ty::String));
    assert!(matches!(element_type_of(&Ty::Ref(Box::new(Ty::Array(Box::new(Ty::String))))), Ty::String));
    assert!(matches!(element_type_of(&Ty::Bool), Ty::Int));
}

#[test]
fn format_spec_encoding() {
    let unset = FormatSpec { debug: false, width: None, precision: None, align: None, fill: None };
    assert_eq!(encode_format_spec(&unset), (0, -1, 0, -1));
    let full = FormatSpec { debug: true, width: Some(8), precision: Some(2), align: Some('^'), fill: Some('*') };
    assert_eq!(encode_format_spec(&full), (8, 2, 2, 42));
    let right = FormatSpec { debug: false, width: None, precision: None, align: Some('>'), fill: None };
    assert_eq!(encode_format_spec(&right).2, 3);
}

#[test]
fn comparisons_and_values() {
    assert!(is_comparison(BinOp::LtEq));
    assert!(!is_comparison(BinOp::Add));
    assert_eq!(binop_to_cmpop(BinOp::GtEq), CmpOp::GtEq);
    assert_eq!(binop_to_cmpop(BinOp::NotEq), CmpOp::NotEq);
    assert!(matches!(local_to_value(Some(4)), MirValue::Use(4)));
    assert!(matches!(local_to_value(None), MirValue::Unit));
    assert_eq!(numeric_kind(&Ty::Float32), Some(NumKind::Float));
    assert_eq!(numeric_kind(&Ty::ISize), Some(NumKind::SignedInt));
    assert_eq!(numeric_kind(&Ty::UInt8), Some(NumKind::UnsignedInt));
    assert_eq!(numeric_kind(&Ty::Bool), None);
}

#[test]
fn generic_suffix_and_call_suffixes() {
    assert_eq!(strip_generic_suffix("Array[Int]_map"), Some("Array_map".to_string()));
    assert_eq!(strip_generic_suffix("Map[String, Array[Int]]_get"), Some("Map_get".to_string()));
    assert_eq!(strip_generic_suffix("Array_map"), None);
    assert_eq!(strip_generic_suffix("Array[Int_map"), None);
    assert_eq!(strip_call_suffixes("Box__mono__String_eq"), "Box");
    assert_eq!(strip_call_suffixes("print__overload2"), "print");
    assert_eq!(strip_call_suffixes("plain"), "plain");
}

fn func_with_body(body: HirExpr) -> HirFuncDef {
    HirFuncDef {
        def_id: 0,
        name: "main".to_string(),
        visibility: Visibility::Public,
        is_async: false,
        self_mode: None,
        is_class_method: false,
        generic_params: vec![],
        params: vec![],
        return_ty: Ty::Unit,
        body: Box::new(body),
        doc_comments: vec![],
        span: span(),
    }
}

#[test]
fn no_std_flags_heap_constructions() {
    let lit = expr(HirExprKind::StringLiteral("hi".to_string()), Ty::String);
    let arr = expr(HirExprKind::ArrayLiteral(vec![var(1)]), Ty::Array(Box::new(Ty::Int)));
    let borrow = expr(HirExprKind::Borrow { expr: Box::new(var(2)), mutable: false }, Ty::Ref(Box::new(Ty::String)));
    let call = expr(
        HirExprKind::FnCall { callee: 0, callee_name: "make".to_string(), args: vec![lit] },
        Ty::String,
    );
    let body = expr(
        HirExprKind::Block(
            vec![HirStatement::Expr(arr), HirStatement::Expr(borrow)],
            Some(Box::new(call)),
        ),
        Ty::Unit,
    );
    let program = HirProgram { items: vec![HirItem::Function(func_with_body(body))], span: span(), prelude_item_count: 0 };
    let diags = validate(&program);
    assert_eq!(diags.len(), 3);
    assert_eq!(
        diags[0].message,
        "heap allocation (array literal) is not allowed in a no_std unit: there is no global allocator in a no_std build. Provide one (staged) or move this code behind a hosted build."
    );
    assert!(diags[1].message.starts_with("heap allocation (heap-typed call result)"));
    assert!(diags[2].message.starts_with("heap allocation (string literal)"));
    assert_eq!(diags[0].code.as_deref(), Some("E1400"));
    assert_eq!(diags[0].span, span());
}

#[test]
fn no_std_accepts_code_without_allocation() {
    let body = expr(
        HirExprKind::BinaryOp { op: BinOp::Add, left: Box::new(var(1)), right: Box::new(var(2)) },
        Ty::Int,
    );
    let program = HirProgram { items: vec![HirItem::Function(func_with_body(body))], span: span(), prelude_item_count: 0 };
    assert!(validate(&program).is_empty());
}

#[test]
fn no_std_flags_allocation_in_match_guard() {
    let guard_span = Span::new(40, 44, 7, 1);
    let guard = HirExpr {
        kind: HirExprKind::StringLiteral("g".to_string()),
        ty: Ty::Bool,
        span: guard_span,
    };
    let arm = HirMatchArm { pattern: HirPattern::Wildcard, guard: Some(guard), body: var(2), span: span() };
    let body = expr(HirExprKind::Match { scrutinee: Box::new(var(1)), arms: vec![arm] }, Ty::Int);
    let program = HirProgram { items: vec![HirItem::Function(func_with_body(body))], span: span(), prelude_item_count: 0 };
    let diags = validate(&program);
    assert_eq!(diags.len(), 1);
    assert_eq!(diags[0].code.as_deref(), Some("E1400"));
    assert_eq!(diags[0].span, guard_span);
    assert!(diags[0].message.starts_with("heap allocation (string literal)"));
}

#[test]
fn no_std_flags_allocation_in_class_include_block() {
    let lit = expr(HirExprKind::StringLiteral("hi".to_string()), Ty::String);
    let class_item = HirClass {
        def_id: 1,
        name: "Point".to_string(),
        fields: vec![],
        methods: vec![],
        impl_blocks: vec![HirImplBlock { items: vec![HirImplItem::Method(func_with_body(lit))], span: span() }],
        span: span(),
    };
    let program = HirProgram { items: vec![HirItem::Class(class_item)], span: span(), prelude_item_count: 0 };
    let diags = validate(&program);
    assert_eq!(diags.len(), 1);
    assert_eq!(diags[0].code.as_deref(), Some("E1400"));
    assert!(diags[0].message.starts_with("heap allocation (string literal)"));
}

#[test]
fn captures_are_outer_variables_in_first_use_order() {
    // { let x = a; x + b + p + a }
    let let_x = HirStatement::Let {
        def_id: 10,
        pattern: HirPattern::Wildcard,
        ty: Ty::Int,
        value: Some(var(1)),
        mutable: false,
        span: span(),
    };
    let sum = expr(
        HirExprKind::BinaryOp {
            op: BinOp::Add,
            left: Box::new(expr(
                HirExprKind::BinaryOp {
                    op: BinOp::Add,
                    left: Box::new(var(10)),
                    right: Box::new(var(2)),
                },
                Ty::Int,
            )),
            right: Box::new(expr(
                HirExprKind::BinaryOp { op: BinOp::Add, left: Box::new(var(3)), right: Box::new(var(1)) },
                Ty::Int,
            )),
        },
        Ty::Int,
    );
    let body = expr(HirExprKind::Block(vec![let_x], Some(Box::new(sum))), Ty::Int);
    let params: HashSet<u32> = [3].into_iter().collect();
    let outer: HashSet<u32> = [1, 2, 3, 10].into_iter().collect();
    let mut out = Vec::new();
    let mut seen = HashSet::new();
    collect_captures(&body, &params, &outer, &mut out, &mut seen);
    assert_eq!(out, vec![1, 2]);
    assert_eq!(seen, [1, 2].into_iter().collect::<HashSet<u32>>());

    // Captures already seen are not recorded again.
    let mut out2 = Vec::new();
    let mut seen2: HashSet<u32> = [2].into_iter().collect();
    collect_captures(&body, &params, &outer, &mut out2, &mut seen2);
    assert_eq!(out2, vec![1]);
}

#[test]
fn closure_body_assignment_is_detected() {
    let assign = expr(HirExprKind::Assign { target: Box::new(var(5)), value: Box::new(var(6)) }, Ty::Unit);
    assert!(closure_body_mutates(&assign, 5));
    assert!(!closure_body_mutates(&assign, 6));
    // An assignment inside a map literal's entry counts too.
    let assign2 = expr(HirExprKind::Assign { target: Box::new(var(7)), value: Box::new(var(6)) }, Ty::Unit);
    let map = expr(HirExprKind::MapLiteral(vec![(var(1), assign2)]), Ty::Unit);
    assert!(closure_body_mutates(&map, 7));
    assert!(!closure_body_mutates(&map, 1));
}

fn returns_self_fn() -> MirFunction {
    MirFunction::with_parts(
        "Resp_with_status".to_string(),
        vec![0],
        class("Resp"),
        vec![],
        vec![BasicBlock {
            id: 0,
            instructions: vec![],
            terminator: Terminator::Return(Some(MirValue::Use(0))),
        }],
        0,
    )
}

fn caller(callee: &str) -> MirFunction {
    MirFunction::with_parts(
        "main".to_string(),
        vec![],
        Ty::Unit,
        vec![],
        vec![BasicBlock {
            id: 0,
            instructions: vec![
                MirInst::Call { dest: Some(5), callee: callee.to_string(), args: vec![MirValue::Use(1)] },
                MirInst::Call { dest: None, callee: "ruxen_dealloc".to_string(), args: vec![MirValue::Use(1)] },
                MirInst::Assign { dest: 1, value: MirValue::Use(5) },
            ],
            terminator: Terminator::Return(None),
        }],
        0,
    )
}

#[test]
fn realloc_of_self_returning_call_is_elided() {
    let mut mir = MirProgram::new();
    mir.functions.push(returns_self_fn());
    mir.functions.push(caller("Resp_with_status"));
    elide_returns_self_realloc(&mut mir);
    let insts = &mir.functions[1].blocks[0].instructions;
    assert_eq!(insts.len(), 2);
    assert!(matches!(insts[0], MirInst::Call { .. }));
    assert!(matches!(insts[1], MirInst::Assign { dest: 1, .. }));
}

#[test]
fn realloc_of_other_call_is_kept() {
    let mut mir = MirProgram::new();
    mir.functions.push(returns_self_fn());
    mir.functions.push(caller("Resp_copy"));
    elide_returns_self_realloc(&mut mir);
    assert_eq!(mir.functions[1].blocks[0].instructions.len(), 3);
}

#[test]
fn compare_operands_meet_at_a_common_type() {
    let mut f = MirFunction::new("f", Ty::Unit);
    let x = f.new_local("x", Ty::Float32, false);
    let y = f.new_local("y", Ty::Int, false);
    let z = f.new_local("z", Ty::Float64, false);
    let u = f.new_local("u", Ty::UInt8, false);
    // An integer operand is converted to the float side.
    assert_eq!(coerce_compare_operands(&mut f, 0, Some(x), Some(y)), (Some(x), Some(4)));
    assert!(matches!(f.locals[4].ty, Ty::Float32));
    assert!(matches!(
        f.blocks[0].instructions[0],
        MirInst::Assign { dest: 4, value: MirValue::Use(1) }
    ));
    // The narrower float is converted to the wider one.
    assert_eq!(coerce_compare_operands(&mut f, 0, Some(x), Some(z)), (Some(5), Some(z)));
    assert!(matches!(f.locals[5].ty, Ty::Float64));
    assert!(matches!(
        f.blocks[0].instructions[1],
        MirInst::Assign { dest: 5, value: MirValue::Use(0) }
    ));
    // Integer pairs, equal types and absent operands are left alone.
    assert_eq!(coerce_compare_operands(&mut f, 0, Some(y), Some(u)), (Some(y), Some(u)));
    assert_eq!(coerce_compare_operands(&mut f, 0, Some(x), Some(x)), (Some(x), Some(x)));
    assert_eq!(coerce_compare_operands(&mut f, 0, None, Some(y)), (None, Some(y)));
    assert_eq!(f.locals.len(), 6);
    assert_eq!(f.blocks[0].instructions.len(), 2);
}

#[test]
fn field_values_are_brought_to_the_field_width() {
    let mut f = MirFunction::new("f", Ty::Unit);
    let x = f.new_local("x", Ty::Float, false);
    let s = f.new_local("s", Ty::String, false);
    assert_eq!(coerce_to_field_ty(&mut f, 0, Some(x), &Ty::Float32), Some(2));
    assert!(matches!(f.locals[2].ty, Ty::Float32));
    assert!(matches!(
        f.blocks[0].instructions[0],
        MirInst::Assign { dest: 2, value: MirValue::Use(0) }
    ));
    assert_eq!(coerce_to_field_ty(&mut f, 0, Some(x), &Ty::Float), Some(x));
    assert_eq!(coerce_to_field_ty(&mut f, 0, Some(s), &Ty::Int), Some(s));
    assert_eq!(coerce_to_field_ty(&mut f, 0, None, &Ty::Int), None);
    assert_eq!(coerce_to_field_ty(&mut f, 0, Some(9), &Ty::Int), Some(9));
    assert_eq!(f.locals.len(), 3);
}

#[test]
fn sort_by_expands_to_an_exchange_sort() {
    let mut f = MirFunction::new("f", Ty::Unit);
    let v = f.new_local("v", Ty::Array(Box::new(Ty::Int)), false);
    let params = vec![HirClosureParam { def_id: 70, name: "a".to_string(), ty: Ty::Int }];
    let mut def_to_local: HashMap<u32, u32> = HashMap::new();
    let s = inline_sort_by_enter(&mut f, 0, &mut def_to_local, v, &params);
    assert_eq!((s.i_idx, s.len, s.j_idx), (1, 2, 4));
    assert_eq!((s.outer_header, s.inner_body, s.swap_block, s.exit_block), (1, 4, 5, 8));
    assert_eq!(f.blocks.len(), 9);
    assert_eq!(f.locals.len(), 9);
    assert_eq!(def_to_local.get(&70), Some(&7));
    assert_eq!(f.locals[7].name, "a");
    assert_eq!(f.locals[8].name, "_t6");
    assert!(matches!(f.locals[8].ty, Ty::Int));
    assert!(matches!(f.blocks[0].instructions[0], MirInst::Assign { dest: 1, value: MirValue::Literal(Literal::Int(0)) }));
    assert!(matches!(&f.blocks[0].instructions[1], MirInst::Call { dest: Some(2), callee, .. } if callee == "ruxen_vec_len"));
    assert!(matches!(f.blocks[0].terminator, Terminator::Goto(1)));
    assert!(matches!(
        f.blocks[1].terminator,
        Terminator::Branch { cond: MirValue::Use(3), then_block: 2, else_block: 8 }
    ));
    assert!(matches!(f.blocks[3].terminator, Terminator::Branch { then_block: 4, else_block: 7, .. }));
    assert_eq!(f.blocks[4].instructions.len(), 2);

    // The closure body's result, lowered by the caller into `inner_body`.
    let result = f.new_temp(Ty::Int);
    let next = inline_sort_by_finish(&mut f, &s, s.inner_body, Some(result));
    assert_eq!(next, 8);
    assert!(matches!(
        f.blocks[4].instructions[2],
        MirInst::Compare { dest: 10, op: CmpOp::Gt, lhs: MirValue::Use(9), rhs: MirValue::Literal(Literal::Int(0)) }
    ));
    assert!(matches!(
        f.blocks[4].terminator,
        Terminator::Branch { cond: MirValue::Use(10), then_block: 5, else_block: 6 }
    ));
    assert!(matches!(&f.blocks[5].instructions[0], MirInst::Call { dest: None, callee, args } if callee == "ruxen_vec_swap" && args.len() == 3));
    assert!(matches!(f.blocks[5].terminator, Terminator::Goto(6)));
    assert!(matches!(f.blocks[6].instructions[1], MirInst::Assign { dest: 4, value: MirValue::Use(11) }));
    assert!(matches!(f.blocks[6].terminator, Terminator::Goto(3)));
    assert!(matches!(f.blocks[7].instructions[1], MirInst::Assign { dest: 1, value: MirValue::Use(12) }));
    assert!(matches!(f.blocks[7].terminator, Terminator::Goto(1)));
}

#[test]
fn for_over_a_range_counts_its_binding() {
    let mut f = MirFunction::new("f", Ty::Unit);
    let mut def_to_local: HashMap<u32, u32> = HashMap::new();
    let lp = for_range_enter(
        &mut f,
        0,
        &mut def_to_local,
        5,
        &"i".to_string(),
        MirValue::Literal(Literal::Int(0)),
        MirValue::Literal(Literal::Int(3)),
        true,
    );
    assert_eq!((lp.counter, lp.header, lp.body, lp.step, lp.exit), (1, 1, 2, 3, 4));
    assert_eq!(def_to_local.get(&5), Some(&1));
    assert_eq!(f.locals[1].name, "i");
    assert!(f.locals[1].mutable);
    assert!(matches!(f.blocks[0].instructions[0], MirInst::Assign { dest: 0, value: MirValue::Literal(Literal::Int(3)) }));
    assert!(matches!(f.blocks[0].instructions[1], MirInst::Assign { dest: 1, value: MirValue::Literal(Literal::Int(0)) }));
    assert!(matches!(
        f.blocks[1].instructions[0],
        MirInst::Compare { dest: 2, op: CmpOp::LtEq, lhs: MirValue::Use(1), rhs: MirValue::Use(0) }
    ));
    assert!(matches!(f.blocks[1].terminator, Terminator::Branch { then_block: 2, else_block: 4, .. }));
    let next = for_loop_finish(&mut f, &lp, lp.body);
    assert_eq!(next, 4);
    assert!(matches!(f.blocks[2].terminator, Terminator::Goto(3)));
    assert!(matches!(
        f.blocks[3].instructions[0],
        MirInst::BinOp { dest: 3, op: BinOp::Add, lhs: MirValue::Use(1), rhs: MirValue::Literal(Literal::Int(1)) }
    ));
    assert!(matches!(f.blocks[3].instructions[1], MirInst::Assign { dest: 1, value: MirValue::Use(3) }));
    assert!(matches!(f.blocks[3].terminator, Terminator::Goto(1)));
    // A body that already ends (say in a `return`) keeps its terminator.
    let mut g = MirFunction::new("g", Ty::Unit);
    let lp = for_range_enter(&mut g, 0, &mut def_to_local, 6, &"j".to_string(), MirValue::Unit, MirValue::Unit, false);
    g.blocks[lp.body].terminator = Terminator::Return(None);
    for_loop_finish(&mut g, &lp, lp.body);
    assert!(matches!(g.blocks[lp.body].terminator, Terminator::Return(None)));
    assert!(matches!(g.blocks[1].instructions[0], MirInst::Compare { op: CmpOp::Lt, .. }));
}

#[test]
fn for_over_a_vector_walks_an_index() {
    let mut f = MirFunction::new("f", Ty::Unit);
    let v = f.new_local("v", Ty::Array(Box::new(Ty::Int)), false);
    let mut def_to_local: HashMap<u32, u32> = HashMap::new();
    let parts = vec![(7, "k".to_string()), (8, "val".to_string())];
    let lp = for_each_enter(
        &mut f,
        0,
        &mut def_to_local,
        6,
        &"x".to_string(),
        &Ty::Array(Box::new(Ty::Int)),
        Some(v),
        &parts,
    );
    assert_eq!((lp.counter, lp.header, lp.body, lp.step, lp.exit), (1, 1, 2, 3, 4));
    assert_eq!(f.locals.len(), 7);
    assert_eq!(f.locals[4].name, "x");
    assert!(matches!(f.locals[4].ty, Ty::Int));
    assert_eq!(f.locals[5].name, "k");
    assert_eq!(f.locals[6].name, "val");
    assert_eq!(def_to_local.get(&6), Some(&4));
    assert_eq!(def_to_local.get(&7), Some(&5));
    assert_eq!(def_to_local.get(&8), Some(&6));
    assert!(matches!(&f.blocks[0].instructions[1], MirInst::Call { dest: Some(2), callee, .. } if callee == "ruxen_vec_len"));
    assert!(matches!(&f.blocks[2].instructions[0], MirInst::Call { dest: Some(4), callee, .. } if callee == "ruxen_vec_get"));
    assert!(matches!(f.blocks[2].instructions[1], MirInst::Assign { dest: 5, value: MirValue::Use(1) }));
    assert!(matches!(f.blocks[2].instructions[2], MirInst::Assign { dest: 6, value: MirValue::Use(4) }));
    assert_eq!(for_loop_finish(&mut f, &lp, lp.body), 4);
    assert!(matches!(f.blocks[3].instructions[1], MirInst::Assign { dest: 1, value: MirValue::Use(7) }));

    // An iterable with no value walks a fresh temporary.
    let mut g = MirFunction::new("g", Ty::Unit);
    let lp = for_each_enter(&mut g, 0, &mut def_to_local, 9, &"y".to_string(), &Ty::Int, None, &vec![]);
    assert_eq!(lp.counter, 1);
    assert!(matches!(&g.blocks[0].instructions[1], MirInst::Call { args, .. } if matches!(args[0], MirValue::Use(0))));
}

#[test]
fn binary_operations_on_lowered_operands() {
    let mut f = MirFunction::new("f", Ty::Unit);
    let s1 = f.new_local("s1", Ty::String, false);
    let s2 = f.new_local("s2", Ty::Str, false);
    let v1 = f.new_local("v1", Ty::Array(Box::new(Ty::Int)), false);
    let x = f.new_local("x", Ty::Float32, false);
    let y = f.new_local("y", Ty::Int, false);
    // String + String concatenates at run time.
    let d = lower_binop_values(&mut f, 0, BinOp::Add, &Ty::String, &Ty::Str, &Ty::String, Some(s1), Some(s2));
    assert_eq!(d, 5);
    assert!(matches!(&f.blocks[0].instructions[0], MirInst::Call { dest: Some(5), callee, .. } if callee == "ruxen_string_concat"));
    // Vec != Vec: the runtime equality, negated.
    let arr = Ty::Array(Box::new(Ty::Int));
    let d = lower_binop_values(&mut f, 0, BinOp::NotEq, &arr, &arr, &Ty::Bool, Some(v1), Some(v1));
    assert_eq!(d, 7);
    assert!(matches!(&f.blocks[0].instructions[1], MirInst::Call { dest: Some(6), callee, .. } if callee == "ruxen_vec_eq"));
    assert!(matches!(f.blocks[0].instructions[2], MirInst::Not { dest: 7, operand: MirValue::Use(6) }));
    // `=~` calls the regex matcher with the regex first.
    let d = lower_binop_values(&mut f, 0, BinOp::MatchOp, &Ty::String, &Ty::Int, &Ty::Bool, Some(s1), Some(y));
    assert_eq!(d, 8);
    assert!(matches!(
        &f.blocks[0].instructions[3],
        MirInst::Call { callee, args, .. } if callee == "ruxen_regex_is_match" && matches!(args[0], MirValue::Use(4)) && matches!(args[1], MirValue::Use(0))
    ));
    // A mixed comparison converts the integer side first.
    let d = lower_binop_values(&mut f, 0, BinOp::Lt, &Ty::Float32, &Ty::Int, &Ty::Bool, Some(x), Some(y));
    assert_eq!(d, 9);
    assert!(matches!(f.blocks[0].instructions[4], MirInst::Assign { dest: 10, value: MirValue::Use(4) }));
    assert!(matches!(
        f.blocks[0].instructions[5],
        MirInst::Compare { dest: 9, op: CmpOp::Lt, lhs: MirValue::Use(3), rhs: MirValue::Use(10) }
    ));
    // Anything else is a plain BinOp.
    let d = lower_binop_values(&mut f, 0, BinOp::Mul, &Ty::Int, &Ty::Int, &Ty::Int, Some(y), Some(y));
    assert_eq!(d, 11);
    assert!(matches!(
        f.blocks[0].instructions[6],
        MirInst::BinOp { dest: 11, op: BinOp::Mul, lhs: MirValue::Use(4), rhs: MirValue::Use(4) }
    ));
    assert_eq!(f.blocks[0].instructions.len(), 7);
}

#[test]
fn assignments_to_variables() {
    let mut f = MirFunction::new("f", Ty::Unit);
    let p = f.new_local("p", class("Point"), true);
    let n = f.new_local("n", Ty::Int, true);
    let cell = f.new_local("c", Ty::Int, true);
    let caps = f.new_local("caps", Ty::Int, false);
    let mut def_to_local: HashMap<u32, u32> = HashMap::new();
    def_to_local.insert(10, p);
    def_to_local.insert(11, n);
    def_to_local.insert(12, cell);
    let promoted: HashSet<u32> = [12].into_iter().collect();
    let mut heap: HashSet<u32> = HashSet::new();
    let one = || MirValue::Literal(Literal::Int(1));

    // A class local: assigned, then counted as holding a heap value.
    assign_to_variable(&mut f, 0, 10, MirValue::Use(n), None, None, &def_to_local, &promoted, &mut heap);
    assert!(matches!(f.blocks[0].instructions[0], MirInst::Assign { dest: 0, value: MirValue::Use(1) }));
    assert!(heap.contains(&p));
    // Assigned again: the old value is freed first.
    assign_to_variable(&mut f, 0, 10, MirValue::Use(n), None, None, &def_to_local, &promoted, &mut heap);
    assert!(matches!(&f.blocks[0].instructions[1], MirInst::Call { dest: None, callee, .. } if callee == "ruxen_dealloc"));
    assert!(matches!(f.blocks[0].instructions[2], MirInst::Assign { dest: 0, .. }));
    // An Int local is not a heap value.
    assign_to_variable(&mut f, 0, 11, one(), None, None, &def_to_local, &promoted, &mut heap);
    assert!(!heap.contains(&n));
    // A promoted variable is written through its cell.
    assign_to_variable(&mut f, 0, 12, one(), None, None, &def_to_local, &promoted, &mut heap);
    assert!(matches!(f.blocks[0].instructions[4], MirInst::SetField { base: 2, field_index: 0, .. }));
    // A captured variable is written through the captures record.
    assign_to_variable(&mut f, 0, 11, one(), Some(3), Some(caps), &def_to_local, &promoted, &mut heap);
    assert!(matches!(f.blocks[0].instructions[5], MirInst::GetField { dest: 4, base: 3, field_index: 3 }));
    assert!(matches!(f.blocks[0].instructions[6], MirInst::SetField { base: 4, field_index: 0, .. }));
    // A variable with no local is left alone.
    assign_to_variable(&mut f, 0, 99, one(), None, None, &def_to_local, &promoted, &mut heap);
    assert_eq!(f.blocks[0].instructions.len(), 7);
}

#[test]
fn constructed_values_store_fields_at_slot_width() {
    let mut f = MirFunction::new("f", Ty::Unit);
    let x = f.new_local("x", Ty::Float, false);
    let t = Ty::Tuple(vec![Ty::Float32, Ty::Int]);
    let base = f.new_local("t", t.clone(), false);
    let slots = tuple_slot_types(&t);
    assert_eq!(slots.len(), 2);
    assert!(tuple_slot_types(&Ty::Int).is_empty());
    // An f64 value into an f32 slot is narrowed first.
    store_field(&mut f, 0, base, 0, Some(x), Some(&slots[0]));
    assert!(matches!(f.blocks[0].instructions[0], MirInst::Assign { dest: 2, value: MirValue::Use(0) }));
    assert!(matches!(f.blocks[0].instructions[1], MirInst::SetField { base: 1, field_index: 0, value: MirValue::Use(2) }));
    // A unit value into a slot of unknown type is stored as it is.
    store_field(&mut f, 0, base, 5, None, None);
    assert!(matches!(f.blocks[0].instructions[2], MirInst::SetField { base: 1, field_index: 5, value: MirValue::Unit }));
    assert_eq!(f.locals.len(), 3);

    let e = Ty::Enum { name: "Shape".to_string(), generic_args: vec![] };
    let (dest, payload) = begin_enum_variant(&mut f, 0, &e, 24, 2, true);
    assert_eq!((dest, payload), (3, Some(4)));
    assert!(matches!(f.blocks[0].instructions[3], MirInst::Alloc { dest: 3, size: 24, .. }));
    assert!(matches!(f.blocks[0].instructions[4], MirInst::SetTag { dest: 3, tag: 2 }));
    assert!(matches!(f.blocks[0].instructions[5], MirInst::GetPayload { dest: 4, src: 3, .. }));
    let (dest, payload) = begin_enum_variant(&mut f, 0, &e, 8, 0, false);
    assert_eq!((dest, payload), (5, None));
    assert_eq!(f.blocks[0].instructions.len(), 8);
}

fn variant_arm(idx: usize) -> HirMatchArm {
    HirMatchArm {
        pattern: HirPattern::Enum {
            type_def: 1,
            ty_name: "Shape".to_string(),
            variant_name: format!("V{}", idx),
            variant_idx: idx,
            fields: vec![],
        },
        guard: None,
        body: var(1),
        span: span(),
    }
}

fn wildcard_arm() -> HirMatchArm {
    HirMatchArm { pattern: HirPattern::Wildcard, guard: None, body: var(1), span: span() }
}

#[test]
fn enum_match_arms_chain_and_switch() {
    let mut f = MirFunction::new("f", Ty::Unit);
    let arms = vec![variant_arm(0), variant_arm(1), wildcard_arm(), variant_arm(0), wildcard_arm()];
    let plan = plan_enum_match(&mut f, &arms);
    assert_eq!(plan.otherwise, 1);
    assert_eq!(f.blocks.len(), 6);
    assert_eq!(plan.entries, vec![2, 3, 1, 4, 5]);
    assert_eq!(plan.fallthroughs, vec![1, 1, 5, 5, 1]);
    assert_eq!(plan.targets, vec![(0, 2), (1, 3)]);

    // Without a wildcard, every arm has a block of its own.
    let mut g = MirFunction::new("g", Ty::Unit);
    let plan = plan_enum_match(&mut g, &vec![variant_arm(2), variant_arm(2)]);
    assert_eq!(plan.entries, vec![2, 3]);
    assert_eq!(plan.fallthroughs, vec![3, 1]);
    assert_eq!(plan.targets, vec![(2, 2)]);
    assert_eq!(g.blocks.len(), 4);
}

#[test]
fn capture_slots_by_value_and_by_reference() {
    // The body assigns variable 5 and reads 6 and 7.
    let body = expr(HirExprKind::Assign { target: Box::new(var(5)), value: Box::new(var(6)) }, Ty::Unit);
    let mut def_to_local: HashMap<u32, u32> = HashMap::new();
    def_to_local.insert(5, 0);
    def_to_local.insert(6, 1);
    let mut capture_map: HashMap<u32, CaptureSlot> = HashMap::new();
    capture_map.insert(7, CaptureSlot { slot_index: 2, kind: CaptureKind::ByValue });
    let slots = plan_capture_slots(&body, &vec![5, 6, 7], false, &def_to_local, &capture_map).unwrap();
    assert_eq!(
        slots,
        vec![
            (5, CaptureSource::Local(0), CaptureKind::ByRef),
            (6, CaptureSource::Local(1), CaptureKind::ByValue),
            (7, CaptureSource::Recapture(CaptureSlot { slot_index: 2, kind: CaptureKind::ByValue }), CaptureKind::ByValue),
        ]
    );
    // A `move` closure takes everything by value.
    let slots = plan_capture_slots(&body, &vec![5], true, &def_to_local, &capture_map).unwrap();
    assert_eq!(slots[0].2, CaptureKind::ByValue);
    // A variable of no enclosing frame cannot be captured.
    assert_eq!(
        plan_capture_slots(&body, &vec![6, 8], false, &def_to_local, &capture_map),
        Err(CaptureError::Unresolvable(8))
    );
    // Assigning a by-value re-capture has no cell to share.
    let assign7 = expr(HirExprKind::Assign { target: Box::new(var(7)), value: Box::new(var(6)) }, Ty::Unit);
    assert_eq!(
        plan_capture_slots(&assign7, &vec![7], false, &def_to_local, &capture_map),
        Err(CaptureError::MutatedByValueRecapture(7))
    );
    capture_map.insert(7, CaptureSlot { slot_index: 2, kind: CaptureKind::ByRef });
    let slots = plan_capture_slots(&assign7, &vec![7], false, &def_to_local, &capture_map).unwrap();
    assert_eq!(slots[0].2, CaptureKind::ByRef);
}

#[test]
fn captured_mutable_locals_move_into_cells() {
    let mut f = MirFunction::new("f", Ty::Unit);
    let a = f.new_local("a", Ty::Bool, true);
    let b = f.new_local("b", Ty::Int, false);
    let c = f.new_local("c", Ty::Int, true);
    let enclosing = CaptureSlot { slot_index: 0, kind: CaptureKind::ByRef };
    let slots = vec![
        (5, CaptureSource::Local(a), CaptureKind::ByRef),
        (6, CaptureSource::Local(b), CaptureKind::ByValue),
        (7, CaptureSource::Recapture(enclosing), CaptureKind::ByRef),
        (8, CaptureSource::Local(c), CaptureKind::ByRef),
    ];
    let mut promoted: HashSet<u32> = [8].into_iter().collect();
    promote_captured_cells(&mut f, 0, &slots, &mut promoted);
    assert_eq!(promoted, [5, 8].into_iter().collect::<HashSet<u32>>());
    assert_eq!(f.locals.len(), 4);
    assert!(matches!(f.locals[0].ty, Ty::Int));
    assert!(matches!(f.locals[1].ty, Ty::Int));
    assert!(matches!(f.locals[3].ty, Ty::Int));
    assert_eq!(f.blocks[0].instructions.len(), 3);
    assert!(matches!(f.blocks[0].instructions[0], MirInst::Alloc { dest: 3, ty: Ty::Int, size: 8 }));
    assert!(matches!(f.blocks[0].instructions[1], MirInst::SetField { base: 3, field_index: 0, value: MirValue::Use(0) }));
    assert!(matches!(f.blocks[0].instructions[2], MirInst::Assign { dest: 0, value: MirValue::Use(3) }));
    // A second closure over the same variable reuses the cell.
    promote_captured_cells(&mut f, 0, &slots, &mut promoted);
    assert_eq!(f.blocks[0].instructions.len(), 3);
}

#[test]
fn captures_record_and_closure_function() {
    assert_eq!(closure_name(3), "__closure_3");
    assert_eq!(closure_name(12), "__closure_12");
    let mut f = MirFunction::new("f", Ty::Unit);
    let a = f.new_local("a", Ty::Int, true);
    let outer_caps = f.new_local("outer", Ty::Int, false);
    assert_eq!(begin_captures_record(&mut f, 0, 0), None);
    let cap = begin_captures_record(&mut f, 0, 3).unwrap();
    assert_eq!(cap, 2);
    assert!(matches!(f.blocks[0].instructions[0], MirInst::Alloc { dest: 2, size: 24, .. }));
    let promoted: HashSet<u32> = [5].into_iter().collect();
    // A by-value capture of a promoted local is read out of its cell.
    fill_capture_slot(&mut f, 0, cap, 0, 5, CaptureSource::Local(a), CaptureKind::ByValue, &promoted, None);
    assert!(matches!(f.blocks[0].instructions[1], MirInst::GetField { dest: 3, base: 0, field_index: 0 }));
    assert!(matches!(f.blocks[0].instructions[2], MirInst::SetField { base: 2, field_index: 0, value: MirValue::Use(3) }));
    // A by-reference capture passes the cell pointer itself.
    fill_capture_slot(&mut f, 0, cap, 1, 5, CaptureSource::Local(a), CaptureKind::ByRef, &promoted, None);
    assert!(matches!(f.blocks[0].instructions[3], MirInst::SetField { base: 2, field_index: 1, value: MirValue::Use(0) }));
    // A by-value re-capture of a by-reference slot reads through the cell.
    let e = CaptureSlot { slot_index: 4, kind: CaptureKind::ByRef };
    fill_capture_slot(&mut f, 0, cap, 2, 6, CaptureSource::Recapture(e), CaptureKind::ByValue, &promoted, Some(outer_caps));
    assert!(matches!(f.blocks[0].instructions[4], MirInst::GetField { dest: 4, base: 1, field_index: 4 }));
    assert!(matches!(f.blocks[0].instructions[5], MirInst::GetField { dest: 5, base: 4, field_index: 0 }));
    assert!(matches!(f.blocks[0].instructions[6], MirInst::SetField { base: 2, field_index: 2, value: MirValue::Use(5) }));
    assert_eq!(f.locals.len(), 6);

    let params = vec![HirClosureParam { def_id: 1, name: "x".to_string(), ty: Ty::Int }];
    let (g, ids) = closure_function("__closure_0", Ty::Bool, &params);
    assert_eq!(g.name, "__closure_0");
    assert_eq!(g.params, vec![0, 1]);
    assert_eq!(ids, vec![1]);
    assert_eq!(g.locals[0].name, "__captures");
    assert_eq!(g.locals[1].name, "x");
    assert!(matches!(g.return_ty, Ty::Bool));
}

#[test]
fn enum_match_reads_the_tag_and_switches() {
    let arms = vec![variant_arm(0), wildcard_arm()];
    assert!(is_enum_match(&Ty::Int, &arms));
    assert!(is_enum_match(&Ty::Option(Box::new(Ty::Int)), &vec![wildcard_arm()]));
    assert!(!is_enum_match(&Ty::Int, &vec![wildcard_arm()]));

    let mut f = MirFunction::new("f", Ty::Unit);
    let s = f.new_local("s", Ty::Option(Box::new(Ty::Int)), false);
    assert_eq!(enum_match_tag(&mut f, 0, Some(s), &Ty::Int), (0, 1));
    assert!(matches!(f.locals[1].ty, Ty::Int32));
    assert!(matches!(f.blocks[0].instructions[0], MirInst::GetTag { dest: 1, src: 0 }));
    // A scrutinee with no value reads the tag of a zero.
    assert_eq!(enum_match_tag(&mut f, 0, None, &Ty::Int), (2, 3));
    assert!(matches!(f.blocks[0].instructions[1], MirInst::Assign { dest: 2, value: MirValue::Literal(Literal::Int(0)) }));
    assert!(matches!(f.blocks[0].instructions[2], MirInst::GetTag { dest: 3, src: 2 }));

    let plan = plan_enum_match(&mut f, &arms);
    emit_enum_switch(&mut f, 0, 1, plan);
    assert!(matches!(
        &f.blocks[0].terminator,
        Terminator::Switch { value: MirValue::Use(1), targets, otherwise: 1 } if targets == &vec![(0, 2)]
    ));

    let r = Ty::Result(Box::new(Ty::Int), Box::new(Ty::String));
    assert!(matches!(builtin_variant_field(&r, 1), Some(Ty::String)));
    assert!(matches!(builtin_variant_field(&r, 0), Some(Ty::Int)));
    assert!(matches!(builtin_variant_field(&Ty::Option(Box::new(Ty::Bool)), 1), Some(Ty::Bool)));
    assert!(builtin_variant_field(&Ty::Option(Box::new(Ty::Bool)), 0).is_none());
    assert!(builtin_variant_field(&Ty::Int, 0).is_none());
}

#[test]
fn compound_assignments_to_variables() {
    let mut f = MirFunction::new("f", Ty::Unit);
    let s = f.new_local("s", Ty::String, true);
    let n = f.new_local("n", Ty::Int, true);
    let c = f.new_local("c", Ty::Int, true);
    let caps = f.new_local("caps", Ty::Int, false);
    let mut def_to_local: HashMap<u32, u32> = HashMap::new();
    def_to_local.insert(10, s);
    def_to_local.insert(11, n);
    def_to_local.insert(12, c);
    let promoted: HashSet<u32> = [12].into_iter().collect();
    let two = || MirValue::Literal(Literal::Int(2));

    // s += t on strings pushes onto the buffer and rebinds.
    compound_assign_to_variable(&mut f, 0, 10, BinOp::Add, &Ty::String, &Ty::Str, MirValue::Use(n), None, None, &def_to_local, &promoted);
    assert!(matches!(&f.blocks[0].instructions[0], MirInst::Call { dest: Some(4), callee, .. } if callee == "String_push_str"));
    assert!(matches!(f.blocks[0].instructions[1], MirInst::Assign { dest: 0, value: MirValue::Use(4) }));
    // n *= 2 on a plain local.
    compound_assign_to_variable(&mut f, 0, 11, BinOp::Mul, &Ty::Int, &Ty::Int, two(), None, None, &def_to_local, &promoted);
    assert!(matches!(f.blocks[0].instructions[2], MirInst::BinOp { dest: 5, op: BinOp::Mul, lhs: MirValue::Use(1), .. }));
    assert!(matches!(f.blocks[0].instructions[3], MirInst::Assign { dest: 1, value: MirValue::Use(5) }));
    // c -= 2 on a variable in a cell.
    compound_assign_to_variable(&mut f, 0, 12, BinOp::Sub, &Ty::Int, &Ty::Int, two(), None, None, &def_to_local, &promoted);
    assert!(matches!(f.blocks[0].instructions[4], MirInst::GetField { dest: 6, base: 2, field_index: 0 }));
    assert!(matches!(f.blocks[0].instructions[5], MirInst::BinOp { dest: 7, op: BinOp::Sub, lhs: MirValue::Use(6), .. }));
    assert!(matches!(f.blocks[0].instructions[6], MirInst::SetField { base: 2, field_index: 0, value: MirValue::Use(7) }));
    // A captured variable goes through the captures record.
    compound_assign_to_variable(&mut f, 0, 11, BinOp::Add, &Ty::Int, &Ty::Int, two(), Some(1), Some(caps), &def_to_local, &promoted);
    assert!(matches!(f.blocks[0].instructions[7], MirInst::GetField { dest: 8, base: 3, field_index: 1 }));
    assert!(matches!(f.blocks[0].instructions[8], MirInst::GetField { dest: 9, base: 8, field_index: 0 }));
    assert!(matches!(f.blocks[0].instructions[9], MirInst::BinOp { dest: 10, op: BinOp::Add, lhs: MirValue::Use(9), .. }));
    assert!(matches!(f.blocks[0].instructions[10], MirInst::SetField { base: 8, field_index: 0, value: MirValue::Use(10) }));
    // A variable with no local is left alone.
    compound_assign_to_variable(&mut f, 0, 99, BinOp::Add, &Ty::Int, &Ty::Int, two(), None, None, &def_to_local, &promoted);
    assert_eq!(f.blocks[0].instructions.len(), 11);
    assert_eq!(f.locals.len(), 11);
}

#[test]
fn index_assignments_store_slots_or_call_vec_set() {
    let fixed = Ty::FixedArray(Box::new(Ty::Int), 4);
    let vec_ty = Ty::Array(Box::new(Ty::Int));
    assert_eq!(index_store(&fixed, Some(2)), IndexStore::FixedSlot(2));
    assert_eq!(index_store(&vec_ty, Some(2)), IndexStore::VecSet);
    assert_eq!(index_store(&Ty::Ref(Box::new(vec_ty.clone())), None), IndexStore::VecSet);
    assert_eq!(index_store(&Ty::Int, Some(0)), IndexStore::Skip);
    let mut f = MirFunction::new("f", Ty::Unit);
    let a = f.new_local("a", fixed, false);
    let i = f.new_local("i", Ty::Int, false);
    emit_index_store(&mut f, 0, IndexStore::FixedSlot(2), Some(a), None, MirValue::Use(i));
    assert!(matches!(f.blocks[0].instructions[0], MirInst::SetField { base: 0, field_index: 2, value: MirValue::Use(1) }));
    emit_index_store(&mut f, 0, IndexStore::VecSet, Some(a), Some(i), MirValue::Unit);
    assert!(matches!(&f.blocks[0].instructions[1], MirInst::Call { dest: None, callee, args } if callee == "ruxen_vec_set" && args.len() == 3));
    emit_index_store(&mut f, 0, IndexStore::VecSet, Some(a), None, MirValue::Unit);
    emit_index_store(&mut f, 0, IndexStore::Skip, Some(a), Some(i), MirValue::Unit);
    assert_eq!(f.blocks[0].instructions.len(), 2);
}

#[test]
fn field_assignments_skip_the_header_slots() {
    assert!(index_assign_is_method_call(&Ty::Ref(Box::new(class("Grid")))));
    assert!(!index_assign_is_method_call(&Ty::Array(Box::new(Ty::Int))));
    let mut f = MirFunction::new("f", Ty::Unit);
    let o = f.new_local("o", class("Point"), false);
    assign_to_field(&mut f, 0, Some(o), 1, 1, MirValue::Literal(Literal::Int(5)));
    assert!(matches!(f.blocks[0].instructions[0], MirInst::SetField { base: 0, field_index: 2, .. }));
    assign_to_field(&mut f, 0, None, 1, 1, MirValue::Unit);
    compound_assign_to_field(&mut f, 0, Some(o), 0, 0, BinOp::Add, &Ty::Int, MirValue::Literal(Literal::Int(1)));
    assert!(matches!(f.blocks[0].instructions[1], MirInst::GetField { dest: 1, base: 0, field_index: 0 }));
    assert!(matches!(f.blocks[0].instructions[2], MirInst::BinOp { dest: 2, op: BinOp::Add, lhs: MirValue::Use(1), .. }));
    assert!(matches!(f.blocks[0].instructions[3], MirInst::SetField { base: 0, field_index: 0, value: MirValue::Use(2) }));
    compound_assign_to_field(&mut f, 0, None, 0, 0, BinOp::Add, &Ty::Int, MirValue::Unit);
    assert_eq!(f.blocks[0].instructions.len(), 4);
}

#[test]
fn match_arms_bind_payload_fields() {
    let mut f = MirFunction::new("f", Ty::Unit);
    let opt = Ty::Option(Box::new(Ty::String));
    let s = f.new_local("s", opt.clone(), false);
    let mut def_to_local: HashMap<u32, u32> = HashMap::new();
    let p = load_payload(&mut f, 0, s, &opt);
    assert_eq!(p, 1);
    assert!(matches!(f.blocks[0].instructions[0], MirInst::GetPayload { dest: 1, src: 0, .. }));
    // `Some(x)`: x is bound to the payload field.
    let x = HirPattern::Binding { def_id: 40, name: "x".to_string(), mutable: false, span: span() };
    assert_eq!(bind_payload_field(&mut f, 0, &mut def_to_local, p, 0, &x, Some(&Ty::String), true), None);
    assert_eq!(def_to_local.get(&40), Some(&2));
    assert_eq!(f.locals[2].name, "x");
    assert!(matches!(f.blocks[0].instructions[1], MirInst::GetField { dest: 2, base: 1, field_index: 0 }));
    // `Some(_)` of a String: loaded so that it is dropped; of an Int: nothing.
    bind_payload_field(&mut f, 0, &mut def_to_local, p, 0, &HirPattern::Wildcard, Some(&Ty::String), true);
    assert!(matches!(f.blocks[0].instructions[2], MirInst::GetField { dest: 3, base: 1, field_index: 0 }));
    bind_payload_field(&mut f, 0, &mut def_to_local, p, 0, &HirPattern::Wildcard, None, true);
    assert_eq!(f.blocks[0].instructions.len(), 3);
    // A nested variant pattern: its value is loaded and handed back.
    let inner = variant_arm(1).pattern;
    assert_eq!(bind_payload_field(&mut f, 0, &mut def_to_local, p, 0, &inner, None, true), Some(4));
    assert_eq!(bind_payload_field(&mut f, 0, &mut def_to_local, p, 0, &inner, None, false), None);
    // A binding arm binds the whole scrutinee.
    let y = HirPattern::Binding { def_id: 41, name: "y".to_string(), mutable: true, span: span() };
    bind_whole_scrutinee(&mut f, 0, &mut def_to_local, &y, s, &opt);
    assert!(matches!(f.blocks[0].instructions[4], MirInst::Assign { dest: 5, value: MirValue::Use(0) }));
    assert!(f.locals[5].mutable);
    // The result local, a guard and the end of an arm.
    assert_eq!(match_result_local(&mut f, &Ty::Unit), None);
    assert_eq!(match_result_local(&mut f, &Ty::Int), Some(6));
    let body = guard_branch(&mut f, 0, MirValue::Use(2), 7);
    assert_eq!(body, 1);
    assert!(matches!(f.blocks[0].terminator, Terminator::Branch { then_block: 1, else_block: 7, .. }));
    let merge = f.new_block();
    finish_arm(&mut f, body, Some(6), Some(2), merge);
    assert!(matches!(f.blocks[1].instructions[0], MirInst::Assign { dest: 6, value: MirValue::Use(2) }));
    assert!(matches!(f.blocks[1].terminator, Terminator::Goto(2)));
    // An arm that already ended is left alone.
    finish_arm(&mut f, 0, Some(6), None, merge);
    assert!(matches!(f.blocks[0].terminator, Terminator::Branch { .. }));
}

#[test]
fn cascading_match_arms_test_literals() {
    let mut f = MirFunction::new("f", Ty::Unit);
    let x = f.new_local("x", Ty::Int, false);
    let lit = f.new_local("lit", Ty::Int, false);
    let merge = f.new_block();
    let a = cascade_arm_blocks(&mut f, false, true, merge);
    assert_eq!((a.body, a.next, a.target), (2, 3, 4));
    let last = cascade_arm_blocks(&mut f, true, false, merge);
    assert_eq!((last.body, last.next, last.target), (5, 1, 5));
    assert_eq!(f.blocks.len(), 6);
    cascade_literal_test(&mut f, 0, Some(x), Some(lit), a.target, a.next);
    assert!(matches!(
        f.blocks[0].instructions[0],
        MirInst::Compare { dest: 2, op: CmpOp::Eq, lhs: MirValue::Use(0), rhs: MirValue::Use(1) }
    ));
    assert!(matches!(f.blocks[0].terminator, Terminator::Branch { cond: MirValue::Use(2), then_block: 4, else_block: 3 }));
    cascade_literal_test(&mut f, 3, None, Some(lit), 5, 1);
    assert!(matches!(f.blocks[3].terminator, Terminator::Goto(5)));
}
