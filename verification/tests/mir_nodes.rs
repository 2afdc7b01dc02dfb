use ruxen_core::hir::types::Ty;
use ruxen_core::mir::nodes::{decimal_string, MirFunction, MirProgram};

#[test]
fn mir_function_creates_entry_block() {
    let func = MirFunction::new("test_fn", Ty::Unit);
    // A freshly created function must have exactly one block.
    assert_eq!(
        func.blocks.len(),
        1,
        "expected exactly 1 block (the entry block)"
    );
    assert_eq!(func.entry_block, 0, "entry_block should be index 0");
}

#[test]
fn new_local_returns_sequential_ids() {
    let mut func = MirFunction::new("test_fn", Ty::Unit);
    let id0 = func.new_local("a", Ty::Int, false);
    let id1 = func.new_local("b", Ty::Bool, true);
    let id2 = func.new_local("c", Ty::Float, false);

    assert_eq!(id0, 0, "first local should have id 0");
    assert_eq!(id1, 1, "second local should have id 1");
    assert_eq!(id2, 2, "third local should have id 2");
}

#[test]
fn new_block_returns_sequential_ids() {
    let mut func = MirFunction::new("test_fn", Ty::Unit);
    // Block 0 is the entry block, created automatically.
    let b1 = func.new_block();
    let b2 = func.new_block();
    let b3 = func.new_block();

    assert_eq!(b1, 1, "first added block should have id 1");
    assert_eq!(b2, 2);
    assert_eq!(b3, 3);
    assert_eq!(func.blocks.len(), 4, "4 blocks total (entry + 3 added)");
}

#[test]
fn new_temp_generates_names() {
    let mut func = MirFunction::new("test_fn", Ty::Unit);
    let t0 = func.new_temp(Ty::Int);
    let t1 = func.new_temp(Ty::Bool);
    let t2 = func.new_temp(Ty::Float);

    assert_eq!(func.locals[t0 as usize].name, "_t0");
    assert_eq!(func.locals[t1 as usize].name, "_t1");
    assert_eq!(func.locals[t2 as usize].name, "_t2");
}

#[test]
fn new_local_keeps_name_type_and_mutability() {
    let mut func = MirFunction::new("f", Ty::Unit);
    func.new_local("x", Ty::String, true);
    assert_eq!(func.locals[0].name, "x");
    assert!(matches!(func.locals[0].ty, Ty::String));
    assert!(func.locals[0].mutable);
    assert_eq!(func.name, "f");
}

#[test]
fn new_temp_counts_past_ten() {
    let mut func = MirFunction::new("f", Ty::Unit);
    let mut last = 0;
    for _ in 0..12 {
        last = func.new_temp(Ty::Int);
    }
    assert_eq!(func.locals[last as usize].name, "_t11");
    assert_eq!(func.next_temp, 12);
    assert!(!func.locals[last as usize].mutable);
}

#[test]
fn decimal_string_spells_numbers() {
    assert_eq!(decimal_string(0), "0");
    assert_eq!(decimal_string(7), "7");
    assert_eq!(decimal_string(1234), "1234");
    assert_eq!(decimal_string(u32::MAX), "4294967295");
}

#[test]
fn mir_program_starts_empty() {
    let p = MirProgram::new();
    assert!(p.functions.is_empty());
    assert!(p.entry.is_none());
    assert!(p.ffi_libs.is_empty());
    assert!(p.vtables.is_empty());
    assert!(p.class_infos.is_empty());
}
