//! Assignments.
use vstd::prelude::*;

use std::collections::{HashMap, HashSet};

use crate::hir::nodes::DefId;
use crate::hir::types::{copy_ty, ty_same, Ty};
use crate::mir::lower::expr::binops::{compare_op_of, is_text_ty};
use crate::mir::lower::expr::index::{is_indexable_vec_ty, spec_is_indexable_vec_ty};
use crate::mir::lower::util::{binop_to_cmpop, is_comparison, spec_is_comparison};
use crate::mir::nodes::{call_is, BlockId, LocalId, MirFunction, MirInst, MirLocal, MirValue};
use crate::parser::ast::BinOp;

verus! {

broadcast use vstd::std_specs::hash::group_hash_axioms;

/// The type of the first local of `ls` whose id is `id`.
pub open spec fn find_local_ty(ls: Seq<MirLocal>, id: LocalId) -> Option<Ty>
    decreases ls.len(),
{
    if ls.len() == 0 {
        None
    } else if ls[0].id == id {
        Some(ls[0].ty)
    } else {
        find_local_ty(ls.drop_first(), id)
    }
}

/// A class, struct or enum: a value that owns a heap allocation.
pub open spec fn is_nominal_ty(t: Ty) -> bool {
    t is Class || t is Struct || t is Enum
}

/// The type of the local `id` of `f`, found by its id.
fn local_ty_by_id(locals: &Vec<MirLocal>, id: LocalId) -> (r: Option<&Ty>)
    ensures
        match find_local_ty(locals@, id) {
            Some(t) => r matches Some(x) && *x == t,
            None => r is None,
        },
{
    let mut i: usize = 0;
    assert(locals@.skip(0) =~= locals@);
    while i < locals.len()
        invariant
            i <= locals@.len(),
            find_local_ty(locals@, id) == find_local_ty(locals@.skip(i as int), id),
        decreases locals@.len() - i,
    {
        assert(locals@.skip(i as int).drop_first() =~= locals@.skip(i + 1));
        if locals[i].id == id {
            return Some(&locals[i].ty);
        }
        i = i + 1;
    }
    None
}

/// How an assignment `x = value` to the variable `def_id` is lowered into
/// block `b`:
/// - a variable captured by the closure being lowered (`capture_slot`, its
///   slot in the captures record `captures_ptr`) is written through its
///   shared cell: the cell pointer is loaded into a fresh `Int` temporary,
///   then its field 0 is set;
/// - a variable promoted to a cell is written through the cell, its field 0;
/// - any other variable with a local: where that local holds an initialized
///   heap value, the old value is freed (`ruxen_dealloc`) first; then the
///   value is assigned, and a local of a class, struct or enum type counts
///   as initialized from then on;
/// - a variable with no local is left alone.
pub open spec fn variable_assigned(
    f0: MirFunction,
    f1: MirFunction,
    b: int,
    def_id: DefId,
    value: MirValue,
    capture_slot: Option<usize>,
    captures_ptr: Option<LocalId>,
    def_to_local: Map<DefId, LocalId>,
    cell_promoted: Set<DefId>,
    heap0: Set<LocalId>,
    heap1: Set<LocalId>,
) -> bool {
    let i0 = f0.blocks@[b].instructions@;
    let ins = f1.blocks@[b].instructions@;
    let n = f0.locals@.len() as int;
    &&& f1.blocks@.len() == f0.blocks@.len()
    &&& forall|k: int| 0 <= k < f0.blocks@.len() && k != b ==> #[trigger] f1.blocks@[k] == f0.blocks@[k]
    &&& f1.blocks@[b].id == f0.blocks@[b].id
    &&& f1.blocks@[b].terminator == f0.blocks@[b].terminator
    &&& f1.name == f0.name
    &&& f1.params == f0.params
    &&& f1.return_ty == f0.return_ty
    &&& f1.entry_block == f0.entry_block
    &&& match capture_slot {
        Some(slot) => {
            &&& f1.locals@.len() == n + 1
            &&& f1.locals@.take(n) == f0.locals@
            &&& f1.locals@[n].id == n && f1.locals@[n].ty == Ty::Int && !f1.locals@[n].mutable
            &&& ins == i0 + seq![
                MirInst::GetField { dest: n as u32, base: captures_ptr->0, field_index: slot },
                MirInst::SetField { base: n as u32, field_index: 0, value },
            ]
            &&& heap1 == heap0
        },
        None => {
            &&& f1.locals == f0.locals
            &&& f1.next_temp == f0.next_temp
            &&& if !def_to_local.contains_key(def_id) {
                ins == i0 && heap1 == heap0
            } else if cell_promoted.contains(def_id) {
                ins == i0.push(MirInst::SetField { base: def_to_local[def_id], field_index: 0, value })
                    && heap1 == heap0
            } else {
                let dest = def_to_local[def_id];
                let assign = MirInst::Assign { dest, value };
                &&& if heap0.contains(dest) {
                    &&& ins.len() == i0.len() + 2
                    &&& ins.take(i0.len() as int) == i0
                    &&& call_is(ins[i0.len() as int], None, "ruxen_dealloc"@, seq![MirValue::Use(dest)])
                    &&& ins.last() == assign
                } else {
                    ins == i0.push(assign)
                }
                &&& heap1 == (if find_local_ty(f0.locals@, dest) matches Some(t) && is_nominal_ty(t) {
                    heap0.insert(dest)
                } else {
                    heap0
                })
            }
        },
    }
}

/// Lower the assignment of `value` (already lowered) to the variable
/// `def_id` into block `b` of `f` (see `variable_assigned`).
/// `capture_slot` is the variable's slot where the closure being lowered
/// captures it, `captures_ptr` the local of the captures record;
/// `initialized_heap_locals` tracks the locals that hold a heap value.
pub fn assign_to_variable(
    f: &mut MirFunction,
    b: BlockId,
    def_id: DefId,
    value: MirValue,
    capture_slot: Option<usize>,
    captures_ptr: Option<LocalId>,
    def_to_local: &HashMap<DefId, LocalId>,
    cell_promoted: &HashSet<DefId>,
    initialized_heap_locals: &mut HashSet<LocalId>,
)
    requires
        b < old(f).blocks@.len(),
        capture_slot is Some ==> captures_ptr is Some,
        old(f).locals@.len() < u32::MAX,
        old(f).next_temp < u32::MAX,
    ensures
        variable_assigned(
            *old(f),
            *final(f),
            b as int,
            def_id,
            value,
            capture_slot,
            captures_ptr,
            def_to_local@,
            cell_promoted@,
            old(initialized_heap_locals)@,
            final(initialized_heap_locals)@,
        ),
{
    let ghost f0 = *f;
    let ghost i0 = f.blocks@[b as int].instructions@;
    let ghost v = value;
    match capture_slot {
        Some(slot) => {
            let cap_ptr = match captures_ptr {
                Some(p) => p,
                None => return,
            };
            let cell_ptr = f.new_temp(Ty::Int);
            f.blocks[b].instructions.push(MirInst::GetField { dest: cell_ptr, base: cap_ptr, field_index: slot });
            f.blocks[b].instructions.push(MirInst::SetField { base: cell_ptr, field_index: 0, value });
            proof {
                assert(f.blocks@[b as int].instructions@ =~= i0 + seq![
                    MirInst::GetField { dest: cell_ptr, base: cap_ptr, field_index: slot },
                    MirInst::SetField { base: cell_ptr, field_index: 0, value: v },
                ]);
            }
            return;
        },
        None => {},
    }
    let dest = match def_to_local.get(&def_id) {
        Some(d) => *d,
        None => return,
    };
    if cell_promoted.contains(&def_id) {
        f.blocks[b].instructions.push(MirInst::SetField { base: dest, field_index: 0, value });
        return;
    }
    if initialized_heap_locals.contains(&dest) {
        f.blocks[b].instructions.push(
            MirInst::Call {
                dest: None,
                callee: String::from_str("ruxen_dealloc"),
                args: vec![MirValue::Use(dest)],
            },
        );
        proof {
            let ins = f.blocks@[b as int].instructions@;
            assert(ins.last() matches MirInst::Call { args, .. } && args@ =~= seq![MirValue::Use(dest)]);
        }
    }
    let ghost i1 = f.blocks@[b as int].instructions@;
    f.blocks[b].instructions.push(MirInst::Assign { dest, value });
    proof {
        let ins = f.blocks@[b as int].instructions@;
        assert(ins.take(i0.len() as int) =~= i0) by {
            assert(ins.take(i1.len() as int) =~= i1);
        }
    }
    let nominal = match local_ty_by_id(&f.locals, dest) {
        Some(t) => matches!(t, Ty::Class { .. } | Ty::Struct { .. } | Ty::Enum { .. }),
        None => false,
    };
    if nominal {
        initialized_heap_locals.insert(dest);
    }
}

/// The instruction that applies `op` to `lhs` and `rhs` into `dest`: a
/// `Compare` for a comparison, else a `BinOp`.
pub open spec fn op_inst(op: BinOp, dest: LocalId, lhs: MirValue, rhs: MirValue) -> MirInst {
    if spec_is_comparison(op) {
        MirInst::Compare { dest, op: compare_op_of(op), lhs, rhs }
    } else {
        MirInst::BinOp { dest, op, lhs, rhs }
    }
}

fn apply_op(op: BinOp, dest: LocalId, lhs: MirValue, rhs: MirValue) -> (i: MirInst)
    ensures
        i == op_inst(op, dest, lhs, rhs),
{
    if is_comparison(op) {
        MirInst::Compare { dest, op: binop_to_cmpop(op), lhs, rhs }
    } else {
        MirInst::BinOp { dest, op, lhs, rhs }
    }
}

/// How a compound assignment `x op= rhs` to the variable `def_id` (of type
/// `target_ty`, the right side of type `value_ty`, already lowered to
/// `rhs`) is lowered into block `b`, the fresh temporaries numbered from
/// `n` (see `compound_assign_to_variable`).
pub open spec fn compound_assign_insts(
    def_id: DefId,
    op: BinOp,
    target_ty: Ty,
    value_ty: Ty,
    rhs: MirValue,
    capture_slot: Option<usize>,
    captures_ptr: Option<LocalId>,
    def_to_local: Map<DefId, LocalId>,
    cell_promoted: Set<DefId>,
    n: int,
) -> Seq<MirInst> {
    let t0 = n as u32;
    let t1 = (n + 1) as u32;
    let t2 = (n + 2) as u32;
    if op is Add && is_text_ty(target_ty) && is_text_ty(value_ty) && def_to_local.contains_key(def_id) {
        seq![MirInst::Assign { dest: def_to_local[def_id], value: MirValue::Use(t0) }]
    } else if capture_slot is Some {
        seq![
            MirInst::GetField { dest: t0, base: captures_ptr->0, field_index: capture_slot->0 },
            MirInst::GetField { dest: t1, base: t0, field_index: 0 },
            op_inst(op, t2, MirValue::Use(t1), rhs),
            MirInst::SetField { base: t0, field_index: 0, value: MirValue::Use(t2) },
        ]
    } else if !def_to_local.contains_key(def_id) {
        Seq::empty()
    } else if cell_promoted.contains(def_id) {
        let dest = def_to_local[def_id];
        seq![
            MirInst::GetField { dest: t0, base: dest, field_index: 0 },
            op_inst(op, t1, MirValue::Use(t0), rhs),
            MirInst::SetField { base: dest, field_index: 0, value: MirValue::Use(t1) },
        ]
    } else {
        let dest = def_to_local[def_id];
        seq![op_inst(op, t0, MirValue::Use(dest), rhs), MirInst::Assign { dest, value: MirValue::Use(t0) }]
    }
}

/// Lower the compound assignment `x op= rhs` to the variable `def_id` into
/// block `b` of `f`, the right side already lowered to `rhs`:
/// - `+=` of a string onto a string variable calls `String_push_str` (its
///   result, a fresh `String` temporary, is the first instruction, not
///   listed by `compound_assign_insts`) and rebinds the variable to it;
/// - a captured variable is read, combined and written back through its
///   cell (`capture_slot` in the captures record `captures_ptr`);
/// - a variable in a cell likewise through the cell;
/// - any other variable with a local is combined into a fresh temporary and
///   reassigned;
/// - a variable with no local is left alone.
/// The fresh temporaries are the cell pointer (`Int`), then the current
/// value and the result (both of `target_ty`), as the case needs them.
pub fn compound_assign_to_variable(
    f: &mut MirFunction,
    b: BlockId,
    def_id: DefId,
    op: BinOp,
    target_ty: &Ty,
    value_ty: &Ty,
    rhs: MirValue,
    capture_slot: Option<usize>,
    captures_ptr: Option<LocalId>,
    def_to_local: &HashMap<DefId, LocalId>,
    cell_promoted: &HashSet<DefId>,
)
    requires
        b < old(f).blocks@.len(),
        capture_slot is Some ==> captures_ptr is Some,
        old(f).locals@.len() + 3 <= u32::MAX,
        old(f).next_temp + 3 < u32::MAX,
    ensures
        ({
            let f0 = *old(f);
            let n = f0.locals@.len() as int;
            let i0 = f0.blocks@[b as int].instructions@;
            let ins = final(f).blocks@[b as int].instructions@;
            let rest = compound_assign_insts(
                def_id,
                op,
                *target_ty,
                *value_ty,
                rhs,
                capture_slot,
                captures_ptr,
                def_to_local@,
                cell_promoted@,
                n,
            );
            let push_str = op is Add && is_text_ty(*target_ty) && is_text_ty(*value_ty)
                && def_to_local@.contains_key(def_id);
            &&& final(f).locals@.take(n) == f0.locals@
            &&& if push_str {
                &&& ins.len() == i0.len() + 2
                &&& ins.take(i0.len() as int) == i0
                &&& call_is(
                    ins[i0.len() as int],
                    Some(n as u32),
                    "String_push_str"@,
                    seq![MirValue::Use(def_to_local@[def_id]), rhs],
                )
                &&& ins.last() == rest[0]
                &&& final(f).locals@.len() == n + 1
                &&& final(f).locals@[n].ty == Ty::String
            } else {
                &&& ins == i0 + rest
                &&& final(f).locals@.len() == n + (if capture_slot is Some {
                    3int
                } else if !def_to_local@.contains_key(def_id) {
                    0int
                } else if cell_promoted@.contains(def_id) {
                    2int
                } else {
                    1int
                })
                &&& capture_slot is Some ==> final(f).locals@[n].ty == Ty::Int && ty_same(
                    final(f).locals@[n + 1].ty,
                    *target_ty,
                ) && ty_same(final(f).locals@[n + 2].ty, *target_ty)
                &&& capture_slot is None && def_to_local@.contains_key(def_id) ==> forall|k: int|
                    n <= k < final(f).locals@.len() ==> ty_same(#[trigger] final(f).locals@[k].ty, *target_ty)
            }
        }),
        final(f).blocks@.len() == old(f).blocks@.len(),
        forall|k: int| 0 <= k < old(f).blocks@.len() && k != b ==> #[trigger] final(f).blocks@[k] == old(f).blocks@[k],
        final(f).blocks@[b as int].id == old(f).blocks@[b as int].id,
        final(f).blocks@[b as int].terminator == old(f).blocks@[b as int].terminator,
{
    let ghost f0 = *f;
    let ghost i0 = f.blocks@[b as int].instructions@;
    let ghost n = f.locals@.len() as int;
    let ghost r = rhs;
    let is_text = |t: &Ty| -> (x: bool)
        ensures
            x == is_text_ty(*t),
        { matches!(t, Ty::String | Ty::Str) };
    if matches!(op, BinOp::Add) && is_text(target_ty) && is_text(value_ty) {
        if let Some(dest) = def_to_local.get(&def_id) {
            let dest = *dest;
            let new_buf = f.new_temp(Ty::String);
            f.blocks[b].instructions.push(
                MirInst::Call {
                    dest: Some(new_buf),
                    callee: String::from_str("String_push_str"),
                    args: vec![MirValue::Use(dest), rhs],
                },
            );
            f.blocks[b].instructions.push(MirInst::Assign { dest, value: MirValue::Use(new_buf) });
            proof {
                assert(f.blocks@[b as int].instructions@.take(i0.len() as int) =~= i0);
            }
            return;
        }
    }
    match capture_slot {
        Some(slot) => {
            let cap_ptr = match captures_ptr {
                Some(p) => p,
                None => return,
            };
            let cell_ptr = f.new_temp(Ty::Int);
            let cur = f.new_temp(copy_ty(target_ty));
            let tmp = f.new_temp(copy_ty(target_ty));
            f.blocks[b].instructions.push(MirInst::GetField { dest: cell_ptr, base: cap_ptr, field_index: slot });
            f.blocks[b].instructions.push(MirInst::GetField { dest: cur, base: cell_ptr, field_index: 0 });
            f.blocks[b].instructions.push(apply_op(op, tmp, MirValue::Use(cur), rhs));
            f.blocks[b].instructions.push(MirInst::SetField { base: cell_ptr, field_index: 0, value: MirValue::Use(tmp) });
            proof {
                assert(f.blocks@[b as int].instructions@ =~= i0 + compound_assign_insts(
                    def_id,
                    op,
                    *target_ty,
                    *value_ty,
                    r,
                    capture_slot,
                    captures_ptr,
                    def_to_local@,
                    cell_promoted@,
                    n,
                ));
                assert(f.locals@.take(n) =~= f0.locals@);
            }
            return;
        },
        None => {},
    }
    let dest = match def_to_local.get(&def_id) {
        Some(d) => *d,
        None => {
            proof {
                assert(f.blocks@[b as int].instructions@ =~= i0 + Seq::<MirInst>::empty());
                assert(f.locals@.take(n) =~= f0.locals@);
            }
            return;
        },
    };
    if cell_promoted.contains(&def_id) {
        let cur = f.new_temp(copy_ty(target_ty));
        let tmp = f.new_temp(copy_ty(target_ty));
        f.blocks[b].instructions.push(MirInst::GetField { dest: cur, base: dest, field_index: 0 });
        f.blocks[b].instructions.push(apply_op(op, tmp, MirValue::Use(cur), rhs));
        f.blocks[b].instructions.push(MirInst::SetField { base: dest, field_index: 0, value: MirValue::Use(tmp) });
        proof {
            assert(f.blocks@[b as int].instructions@ =~= i0 + compound_assign_insts(
                def_id,
                op,
                *target_ty,
                *value_ty,
                r,
                capture_slot,
                captures_ptr,
                def_to_local@,
                cell_promoted@,
                n,
            ));
            assert(f.locals@.take(n) =~= f0.locals@);
        }
        return;
    }
    let tmp = f.new_temp(copy_ty(target_ty));
    f.blocks[b].instructions.push(apply_op(op, tmp, MirValue::Use(dest), rhs));
    f.blocks[b].instructions.push(MirInst::Assign { dest, value: MirValue::Use(tmp) });
    proof {
        assert(f.blocks@[b as int].instructions@ =~= i0 + compound_assign_insts(
            def_id,
            op,
            *target_ty,
            *value_ty,
            r,
            capture_slot,
            captures_ptr,
            def_to_local@,
            cell_promoted@,
            n,
        ));
    }
}

/// How an assignment `xs[i] = v` stores its value.
#[derive(Debug, Clone, Copy, PartialEq, Eq, Structural)]
pub enum IndexStore {
    /// A fixed array indexed by a literal: the slot is set directly (only
    /// the array is lowered).
    FixedSlot(usize),
    /// A vector: the bounds-checked `ruxen_vec_set` (the array and the
    /// index are lowered).
    VecSet,
    /// Anything else: nothing is stored (nothing is lowered).
    Skip,
}

/// The store of `xs[i] = v` for an indexed value of type `object_ty`,
/// `literal` being the index where it is an integer literal.
pub open spec fn spec_index_store(object_ty: Ty, literal: Option<i64>) -> IndexStore {
    if object_ty is FixedArray && literal is Some {
        IndexStore::FixedSlot(literal->0 as usize)
    } else if spec_is_indexable_vec_ty(object_ty) {
        IndexStore::VecSet
    } else {
        IndexStore::Skip
    }
}

/// How `xs[i] = v` stores its value (see `spec_index_store`).
pub fn index_store(object_ty: &Ty, literal: Option<i64>) -> (r: IndexStore)
    ensures
        r == spec_index_store(*object_ty, literal),
{
    if matches!(object_ty, Ty::FixedArray(_, _)) {
        if let Some(n) = literal {
            return IndexStore::FixedSlot(n as usize);
        }
    }
    if is_indexable_vec_ty(object_ty) {
        IndexStore::VecSet
    } else {
        IndexStore::Skip
    }
}

/// Emit the store `store` of `val` into block `b` of `f`, the array (and,
/// for a vector, the index) lowered to `base` and `idx`: the slot is set,
/// or `ruxen_vec_set(base, idx, val)` is called; nothing where a needed
/// operand has no value.
pub fn emit_index_store(
    f: &mut MirFunction,
    b: BlockId,
    store: IndexStore,
    base: Option<LocalId>,
    idx: Option<LocalId>,
    val: MirValue,
)
    requires
        b < old(f).blocks@.len(),
    ensures
        ({
            let i0 = old(f).blocks@[b as int].instructions@;
            let ins = final(f).blocks@[b as int].instructions@;
            match (store, base, idx) {
                (IndexStore::FixedSlot(k), Some(x), _) => ins == i0.push(
                    MirInst::SetField { base: x, field_index: k, value: val },
                ),
                (IndexStore::VecSet, Some(x), Some(i)) => ins.len() == i0.len() + 1 && ins.drop_last() == i0
                    && call_is(ins.last(), None, "ruxen_vec_set"@, seq![MirValue::Use(x), MirValue::Use(i), val]),
                _ => ins == i0,
            }
        }),
        final(f).locals == old(f).locals,
        final(f).blocks@.len() == old(f).blocks@.len(),
        forall|k: int| 0 <= k < old(f).blocks@.len() && k != b ==> #[trigger] final(f).blocks@[k] == old(f).blocks@[k],
        final(f).blocks@[b as int].id == old(f).blocks@[b as int].id,
        final(f).blocks@[b as int].terminator == old(f).blocks@[b as int].terminator,
{
    let ghost i0 = f.blocks@[b as int].instructions@;
    match (store, base, idx) {
        (IndexStore::FixedSlot(k), Some(x), _) => {
            f.blocks[b].instructions.push(MirInst::SetField { base: x, field_index: k, value: val });
        },
        (IndexStore::VecSet, Some(x), Some(i)) => {
            let ghost v = val;
            let args = vec![MirValue::Use(x), MirValue::Use(i), val];
            f.blocks[b].instructions.push(
                MirInst::Call { dest: None, callee: String::from_str("ruxen_vec_set"), args },
            );
            proof {
                assert(f.blocks@[b as int].instructions@.drop_last() =~= i0);
            }
        },
        _ => {},
    }
}

/// `t` with every layer of reference (`&T`, `&var T`, with or without a
/// lifetime) peeled off.
pub open spec fn peel_refs(t: Ty) -> Ty
    decreases t,
{
    match t {
        Ty::Ref(inner) => peel_refs(*inner),
        Ty::RefMut(inner) => peel_refs(*inner),
        Ty::RefLifetime(_, inner) => peel_refs(*inner),
        Ty::RefMutLifetime(_, inner) => peel_refs(*inner),
        _ => t,
    }
}

/// Whether `xs[i] = v` on an indexed value of type `object_ty` is the
/// method call `xs.[]=(i, v)`: the receiver, under any references, is a
/// class, struct or enum (which defines `[]=`).
pub fn index_assign_is_method_call(object_ty: &Ty) -> (r: bool)
    ensures
        r == is_nominal_ty(peel_refs(*object_ty)),
    decreases object_ty,
{
    match object_ty {
        Ty::Ref(inner) | Ty::RefMut(inner) | Ty::RefLifetime(_, inner) | Ty::RefMutLifetime(_, inner) => {
            index_assign_is_method_call(inner)
        },
        Ty::Class { .. } | Ty::Struct { .. } | Ty::Enum { .. } => true,
        _ => false,
    }
}

/// Lower `obj.field = val` into block `b` of `f`, the object lowered to
/// `base`: its field `field_index`, past the `shift` header slots of its
/// class, is set. An object with no value stores nothing.
pub fn assign_to_field(f: &mut MirFunction, b: BlockId, base: Option<LocalId>, field_index: usize, shift: usize, val: MirValue)
    requires
        b < old(f).blocks@.len(),
        field_index + shift <= usize::MAX,
    ensures
        final(f).locals == old(f).locals,
        final(f).blocks@.len() == old(f).blocks@.len(),
        forall|k: int| 0 <= k < old(f).blocks@.len() && k != b ==> #[trigger] final(f).blocks@[k] == old(f).blocks@[k],
        final(f).blocks@[b as int].id == old(f).blocks@[b as int].id,
        final(f).blocks@[b as int].terminator == old(f).blocks@[b as int].terminator,
        final(f).blocks@[b as int].instructions@ == match base {
            Some(x) => old(f).blocks@[b as int].instructions@.push(
                MirInst::SetField { base: x, field_index: (field_index + shift) as usize, value: val },
            ),
            None => old(f).blocks@[b as int].instructions@,
        },
{
    if let Some(x) = base {
        f.blocks[b].instructions.push(MirInst::SetField { base: x, field_index: field_index + shift, value: val });
    }
}

/// Lower `obj.field op= rhs` into block `b` of `f`, the object lowered to
/// `base` and the right side to `rhs`: the field (`field_index` past the
/// `shift` header slots) is loaded into a fresh temporary of the field's
/// type `target_ty`, combined with `rhs` into a second one (see `op_inst`),
/// and stored back. An object with no value does nothing.
pub fn compound_assign_to_field(
    f: &mut MirFunction,
    b: BlockId,
    base: Option<LocalId>,
    field_index: usize,
    shift: usize,
    op: BinOp,
    target_ty: &Ty,
    rhs: MirValue,
)
    requires
        b < old(f).blocks@.len(),
        field_index + shift <= usize::MAX,
        old(f).locals@.len() + 2 <= u32::MAX,
        old(f).next_temp + 2 < u32::MAX,
    ensures
        final(f).blocks@.len() == old(f).blocks@.len(),
        forall|k: int| 0 <= k < old(f).blocks@.len() && k != b ==> #[trigger] final(f).blocks@[k] == old(f).blocks@[k],
        final(f).blocks@[b as int].id == old(f).blocks@[b as int].id,
        final(f).blocks@[b as int].terminator == old(f).blocks@[b as int].terminator,
        match base {
            Some(x) => {
                let n = old(f).locals@.len() as int;
                let slot = (field_index + shift) as usize;
                &&& final(f).locals@.len() == n + 2
                &&& final(f).locals@.take(n) == old(f).locals@
                &&& ty_same(final(f).locals@[n].ty, *target_ty) && ty_same(final(f).locals@[n + 1].ty, *target_ty)
                &&& final(f).blocks@[b as int].instructions@ == old(f).blocks@[b as int].instructions@ + seq![
                    MirInst::GetField { dest: n as u32, base: x, field_index: slot },
                    op_inst(op, (n + 1) as u32, MirValue::Use(n as u32), rhs),
                    MirInst::SetField { base: x, field_index: slot, value: MirValue::Use((n + 1) as u32) },
                ]
            },
            None => *final(f) == *old(f),
        },
{
    let ghost i0 = f.blocks@[b as int].instructions@;
    let ghost n = f.locals@.len() as int;
    let ghost f0 = *f;
    let ghost r = rhs;
    let x = match base {
        Some(x) => x,
        None => return,
    };
    let slot = field_index + shift;
    let cur = f.new_temp(copy_ty(target_ty));
    let tmp = f.new_temp(copy_ty(target_ty));
    f.blocks[b].instructions.push(MirInst::GetField { dest: cur, base: x, field_index: slot });
    f.blocks[b].instructions.push(apply_op(op, tmp, MirValue::Use(cur), rhs));
    f.blocks[b].instructions.push(MirInst::SetField { base: x, field_index: slot, value: MirValue::Use(tmp) });
    proof {
        assert(f.blocks@[b as int].instructions@ =~= i0 + seq![
            MirInst::GetField { dest: n as u32, base: x, field_index: slot },
            op_inst(op, (n + 1) as u32, MirValue::Use(n as u32), r),
            MirInst::SetField { base: x, field_index: slot, value: MirValue::Use((n + 1) as u32) },
        ]);
        assert(f.locals@.take(n) =~= f0.locals@);
    }
}

} // verus!
