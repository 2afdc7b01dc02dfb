use std::collections::HashSet;

use ruxen_core::hir::types::Ty;
use ruxen_core::mir::lower::drops::scope_exit::{
    compute_dealloc_safe_locals, compute_return_alias_chain, insert_drops,
};
use ruxen_core::mir::nodes::{BasicBlock, MirFunction, MirInst, MirLocal, MirValue, Terminator};

fn local(id: u32, name: &str, ty: Ty) -> MirLocal {
    MirLocal { id, name: name.to_string(), ty, mutable: false }
}

fn block(id: usize, instructions: Vec<MirInst>, terminator: Terminator) -> BasicBlock {
    BasicBlock { id, instructions, terminator }
}

fn call(dest: Option<u32>, callee: &str, args: Vec<u32>) -> MirInst {
    MirInst::Call {
        dest,
        callee: callee.to_string(),
        args: args.into_iter().map(MirValue::Use).collect(),
    }
}

fn class(name: &str) -> Ty {
    Ty::Class { name: name.to_string(), generic_args: vec![] }
}

fn set(ids: &[u32]) -> HashSet<u32> {
    ids.iter().copied().collect()
}

fn sorted(s: &HashSet<u32>) -> Vec<u32> {
    let mut v: Vec<u32> = s.iter().copied().collect();
    v.sort();
    v
}

fn tail(b: &BasicBlock, from: usize) -> Vec<String> {
    b.instructions[from..].iter().map(|i| format!("{:?}", i)).collect()
}

fn func(params: Vec<u32>, locals: Vec<MirLocal>, blocks: Vec<BasicBlock>) -> MirFunction {
    MirFunction::with_parts("f".to_string(), params, Ty::Unit, locals, blocks, 0)
}

#[test]
fn fresh_allocations_are_dealloc_safe() {
    let f = func(
        vec![],
        vec![local(1, "a", class("A")), local(2, "s", Ty::String), local(3, "n", Ty::Int)],
        vec![block(
            0,
            vec![
                MirInst::Alloc { dest: 1, ty: class("A"), size: 0 },
                call(Some(2), "ruxen_string_from", vec![]),
                call(Some(3), "compute", vec![]),
            ],
            Terminator::Return(None),
        )],
    );
    assert_eq!(sorted(&compute_dealloc_safe_locals(&f)), vec![1, 2]);
}

#[test]
fn copy_hands_ownership_to_destination() {
    let f = func(
        vec![],
        vec![local(1, "a", class("A")), local(2, "b", class("A"))],
        vec![block(
            0,
            vec![
                MirInst::Alloc { dest: 1, ty: class("A"), size: 0 },
                MirInst::Assign { dest: 2, value: MirValue::Use(1) },
            ],
            Terminator::Return(None),
        )],
    );
    assert_eq!(sorted(&compute_dealloc_safe_locals(&f)), vec![2]);
}

#[test]
fn passing_to_unknown_callee_taints() {
    let f = func(
        vec![],
        vec![local(1, "a", class("A"))],
        vec![block(
            0,
            vec![
                MirInst::Alloc { dest: 1, ty: class("A"), size: 0 },
                call(None, "consume_it", vec![1]),
            ],
            Terminator::Return(None),
        )],
    );
    assert!(compute_dealloc_safe_locals(&f).is_empty());
}

#[test]
fn tainted_local_is_not_rerooted_by_alloc() {
    let f = func(
        vec![],
        vec![local(1, "a", class("A"))],
        vec![block(
            0,
            vec![
                MirInst::Alloc { dest: 1, ty: class("A"), size: 0 },
                MirInst::SetField { base: 1, field_index: 0, value: MirValue::Use(1) },
                MirInst::Alloc { dest: 1, ty: class("A"), size: 0 },
            ],
            Terminator::Return(None),
        )],
    );
    assert!(compute_dealloc_safe_locals(&f).is_empty());
}

#[test]
fn payload_field_of_result_is_owned() {
    let result_ty = Ty::Result(Box::new(Ty::String), Box::new(Ty::String));
    let f = func(
        vec![],
        vec![local(5, "r", result_ty), local(6, "_t0", Ty::Int), local(7, "s", Ty::String)],
        vec![block(
            0,
            vec![
                MirInst::GetPayload { dest: 6, src: 5, ty: Ty::String },
                MirInst::GetField { dest: 7, base: 6, field_index: 0 },
            ],
            Terminator::Return(None),
        )],
    );
    assert_eq!(sorted(&compute_dealloc_safe_locals(&f)), vec![7]);
}

#[test]
fn field_of_plain_object_is_borrowed() {
    let f = func(
        vec![],
        vec![local(1, "a", class("A")), local(2, "s", Ty::String)],
        vec![block(
            0,
            vec![
                MirInst::Alloc { dest: 1, ty: class("A"), size: 0 },
                MirInst::GetField { dest: 2, base: 1, field_index: 0 },
            ],
            Terminator::Return(None),
        )],
    );
    assert_eq!(sorted(&compute_dealloc_safe_locals(&f)), vec![1]);
}

#[test]
fn return_alias_chain_follows_copies_backwards() {
    let f = func(
        vec![],
        vec![],
        vec![
            block(0, vec![MirInst::Assign { dest: 1, value: MirValue::Use(2) }], Terminator::Goto(1)),
            block(1, vec![MirInst::Copy { dest: 2, src: 3 }, MirInst::Move { dest: 9, src: 8 }], Terminator::Return(None)),
        ],
    );
    assert_eq!(sorted(&compute_return_alias_chain(&f, &set(&[1]))), vec![1, 2, 3]);
}

#[test]
fn return_alias_chain_reaches_a_fixpoint_across_block_order() {
    // The copy into 2 comes before the copy that puts 2 in the chain.
    let f = func(
        vec![],
        vec![],
        vec![
            block(0, vec![MirInst::Copy { dest: 2, src: 3 }], Terminator::Goto(1)),
            block(1, vec![MirInst::Assign { dest: 1, value: MirValue::Use(2) }], Terminator::Return(None)),
        ],
    );
    assert_eq!(sorted(&compute_return_alias_chain(&f, &set(&[1]))), vec![1, 2, 3]);
    assert_eq!(sorted(&compute_return_alias_chain(&f, &set(&[]))), Vec::<u32>::new());
}

fn string_function() -> MirFunction {
    func(
        vec![0],
        vec![
            local(0, "self", class("Foo")),
            local(1, "s", Ty::String),
            local(2, "_t0", Ty::String),
            local(3, "n", Ty::Int),
        ],
        vec![
            block(
                0,
                vec![
                    call(Some(1), "ruxen_string_from", vec![]),
                    call(Some(2), "ruxen_string_from", vec![]),
                ],
                Terminator::Goto(1),
            ),
            block(1, vec![MirInst::Nop], Terminator::Return(None)),
        ],
    )
}

#[test]
fn drops_inserted_in_reverse_declaration_order() {
    let mut f = string_function();
    insert_drops(&mut f, &set(&[]), &set(&[3]), &vec![], &vec![]);
    // The block that does not return is untouched.
    assert_eq!(f.blocks[0].instructions.len(), 2);
    assert_eq!(
        tail(&f.blocks[1], 1),
        vec![
            "Call { dest: None, callee: \"ruxen_string_free\", args: [Use(2)] }",
            "Drop { local: 2 }",
            "Call { dest: None, callee: \"ruxen_string_free\", args: [Use(1)] }",
            "Drop { local: 1 }",
        ]
    );
    assert!(matches!(f.blocks[1].instructions[0], MirInst::Nop));
}

#[test]
fn returned_local_is_not_dropped() {
    let mut f = string_function();
    f.blocks[1].terminator = Terminator::Return(Some(MirValue::Use(1)));
    insert_drops(&mut f, &set(&[1]), &set(&[3]), &vec![], &vec![]);
    assert_eq!(
        tail(&f.blocks[1], 1),
        vec![
            "Call { dest: None, callee: \"ruxen_string_free\", args: [Use(2)] }",
            "Drop { local: 2 }",
        ]
    );
}

#[test]
fn local_moved_to_ffi_is_not_dropped() {
    let mut f = string_function();
    f.blocks[1].instructions.push(call(None, "ruxen_executor_spawn", vec![1]));
    insert_drops(&mut f, &set(&[]), &set(&[3]), &vec![], &vec![]);
    assert_eq!(
        tail(&f.blocks[1], 2),
        vec![
            "Call { dest: None, callee: \"ruxen_string_free\", args: [Use(2)] }",
            "Drop { local: 2 }",
        ]
    );
}

#[test]
fn nothing_to_drop_changes_nothing() {
    let mut f = func(
        vec![],
        vec![local(3, "n", Ty::Int)],
        vec![block(0, vec![MirInst::Nop], Terminator::Return(None))],
    );
    insert_drops(&mut f, &set(&[]), &set(&[3]), &vec![], &vec![]);
    assert_eq!(f.blocks[0].instructions.len(), 1);
}

#[test]
fn user_drop_runs_before_dealloc() {
    let mut f = func(
        vec![],
        vec![local(4, "h", class("Holder"))],
        vec![block(
            0,
            vec![MirInst::Alloc { dest: 4, ty: class("Holder"), size: 0 }],
            Terminator::Return(None),
        )],
    );
    let classes = vec!["Holder".to_string()];
    let aliases = vec![("Holder_drop".to_string(), "ruxen_holder_release".to_string())];
    insert_drops(&mut f, &set(&[]), &set(&[]), &classes, &aliases);
    assert_eq!(
        tail(&f.blocks[0], 1),
        vec![
            "Call { dest: None, callee: \"ruxen_holder_release\", args: [Use(4)] }",
            "Call { dest: None, callee: \"ruxen_dealloc\", args: [Use(4)] }",
            "Drop { local: 4 }",
        ]
    );
}

#[test]
fn qualified_user_drop_class_matches_and_unaliased_name_is_kept() {
    let mut f = func(
        vec![],
        vec![local(4, "h", class("Holder"))],
        vec![block(
            0,
            vec![MirInst::Alloc { dest: 4, ty: class("Holder"), size: 0 }],
            Terminator::Return(None),
        )],
    );
    let classes = vec!["std.io.Holder".to_string()];
    insert_drops(&mut f, &set(&[]), &set(&[]), &classes, &vec![]);
    assert_eq!(
        tail(&f.blocks[0], 1)[0],
        "Call { dest: None, callee: \"Holder_drop\", args: [Use(4)] }"
    );
}

#[test]
fn no_user_drop_inside_the_drop_method_itself() {
    let mut f = func(
        vec![],
        vec![local(4, "h", class("Holder"))],
        vec![block(
            0,
            vec![MirInst::Alloc { dest: 4, ty: class("Holder"), size: 0 }],
            Terminator::Return(None),
        )],
    );
    f.name = "Holder_drop".to_string();
    let classes = vec!["Holder".to_string()];
    insert_drops(&mut f, &set(&[]), &set(&[]), &classes, &vec![]);
    assert_eq!(
        tail(&f.blocks[0], 1),
        vec![
            "Call { dest: None, callee: \"ruxen_dealloc\", args: [Use(4)] }",
            "Drop { local: 4 }",
        ]
    );
}

#[test]
fn user_aggregate_that_does_not_own_is_not_dropped() {
    let mut f = func(
        vec![],
        vec![local(4, "h", class("Holder"))],
        vec![block(0, vec![call(Some(4), "make_holder", vec![])], Terminator::Return(None))],
    );
    insert_drops(&mut f, &set(&[]), &set(&[]), &vec![], &vec![]);
    assert_eq!(f.blocks[0].instructions.len(), 1);
}

#[test]
fn element_aware_free_helpers() {
    let vec_of_string = Ty::Array(Box::new(Ty::String));
    let vec_of_vec = Ty::Array(Box::new(Ty::Array(Box::new(Ty::Int))));
    let map_ss = Ty::Mapping(Box::new(Ty::String), Box::new(Ty::String));
    let map_iv = Ty::Mapping(Box::new(Ty::Int), Box::new(Ty::Array(Box::new(Ty::Int))));
    let set_s = Ty::SetOf(Box::new(Ty::String));
    let set_i = Ty::SetOf(Box::new(Ty::Int));
    let locals = vec![
        local(1, "a", vec_of_string),
        local(2, "b", vec_of_vec),
        local(3, "c", map_ss),
        local(4, "d", map_iv),
        local(5, "e", set_s),
        local(6, "g", set_i),
    ];
    let insts = (1..=6).map(|i| call(Some(i), "Vec_new", vec![])).collect();
    let mut f = func(vec![], locals, vec![block(0, insts, Terminator::Return(None))]);
    insert_drops(&mut f, &set(&[]), &set(&[]), &vec![], &vec![]);
    let frees: Vec<String> = tail(&f.blocks[0], 6).into_iter().filter(|s| s.starts_with("Call")).collect();
    assert_eq!(
        frees,
        vec![
            "Call { dest: None, callee: \"ruxen_set_free\", args: [Use(6)] }",
            "Call { dest: None, callee: \"ruxen_set_drop_string\", args: [Use(5)] }",
            "Call { dest: None, callee: \"ruxen_hash_drop_v_vec\", args: [Use(4)] }",
            "Call { dest: None, callee: \"ruxen_hash_drop_string_string\", args: [Use(3)] }",
            "Call { dest: None, callee: \"ruxen_vec_drop_vec\", args: [Use(2)] }",
            "Call { dest: None, callee: \"ruxen_vec_drop_string\", args: [Use(1)] }",
        ]
    );
}

#[test]
fn repeated_local_ids_take_the_first_local() {
    // Two locals share id 1: the drop of the String one is planned from the
    // first local with that id, the Int one.
    let mut f = func(
        vec![],
        vec![local(1, "n", Ty::Int), local(1, "s", Ty::String)],
        vec![block(0, vec![call(Some(1), "ruxen_string_from", vec![])], Terminator::Return(None))],
    );
    insert_drops(&mut f, &set(&[]), &set(&[]), &vec![], &vec![]);
    assert_eq!(
        tail(&f.blocks[0], 1),
        vec!["Call { dest: None, callee: \"ruxen_dealloc\", args: [Use(1)] }", "Drop { local: 1 }"]
    );
    assert_eq!(f.locals.len(), 2);
}
