//! Closures: how each captured variable is stored in the closure's
//! captures record.
//!
//! A slot holds the value itself (`ByValue`) or a pointer to a one-slot
//! heap cell shared with the enclosing frame (`ByRef`). A non-`move`
//! closure that assigns a captured variable shares it through a cell.
//! A capture is read from an enclosing-frame local, or, for a closure
//! nested in another closure's body, from a capture of the enclosing
//! closure (a re-capture).
use vstd::prelude::*;

use std::collections::{HashMap, HashSet};

use crate::hir::nodes::{DefId, HirClosureParam, HirExpr};
use crate::hir::types::{copy_ty, ty_same, Ty};
use crate::mir::lower::captures::{closure_body_mutates, mutates};
use crate::mir::nodes::{decimal_string, decimal_text, BlockId, LocalId, MirFunction, MirInst, MirLocal, MirValue};

verus! {

broadcast use vstd::std_specs::hash::group_hash_axioms;

/// How a capture slot holds its variable.
#[derive(Debug, Clone, Copy, PartialEq, Eq, Structural)]
pub enum CaptureKind {
    /// The value itself (moved, or copied).
    ByValue,
    /// A pointer to a one-slot heap cell shared with the enclosing frame.
    ByRef,
}

/// A slot of a closure's captures record.
#[derive(Debug, Clone, Copy, PartialEq, Eq, Structural)]
pub struct CaptureSlot {
    /// The slot's index (it is at byte offset `8 * slot_index`).
    pub slot_index: usize,
    pub kind: CaptureKind,
}

/// Where a capture is read from in the enclosing frame.
#[derive(Debug, Clone, Copy, PartialEq, Eq, Structural)]
pub enum CaptureSource {
    /// An enclosing-frame local.
    Local(LocalId),
    /// A capture of the enclosing closure.
    Recapture(CaptureSlot),
}

/// Why a closure's captures cannot be laid out.
#[derive(Debug, Clone, Copy, PartialEq, Eq, Structural)]
pub enum CaptureError {
    /// A closure nested in another closure assigns a variable that the
    /// enclosing closure captures by value: there is no cell to share.
    MutatedByValueRecapture(DefId),
    /// The captured variable is neither a local nor a capture of the
    /// enclosing frame.
    Unresolvable(DefId),
}

/// The source and kind of the capture of `d` by a closure with body `body`
/// (`is_move` for a `move` closure), where `locals` maps the enclosing
/// frame's variables to their locals and `enclosing` the enclosing
/// closure's captures to their slots.
pub open spec fn capture_plan(
    body: HirExpr,
    d: DefId,
    is_move: bool,
    locals: Map<DefId, LocalId>,
    enclosing: Map<DefId, CaptureSlot>,
) -> Result<(CaptureSource, CaptureKind), CaptureError> {
    let by_ref = !is_move && mutates(body, d);
    if locals.contains_key(d) {
        Ok((CaptureSource::Local(locals[d]), if by_ref { CaptureKind::ByRef } else { CaptureKind::ByValue }))
    } else if enclosing.contains_key(d) {
        let e = enclosing[d];
        if !by_ref {
            Ok((CaptureSource::Recapture(e), CaptureKind::ByValue))
        } else if e.kind == CaptureKind::ByRef {
            Ok((CaptureSource::Recapture(e), CaptureKind::ByRef))
        } else {
            Err(CaptureError::MutatedByValueRecapture(d))
        }
    } else {
        Err(CaptureError::Unresolvable(d))
    }
}

/// The plans of the captures `ds`, in order, or the first one that fails.
pub open spec fn capture_plans(
    body: HirExpr,
    ds: Seq<DefId>,
    is_move: bool,
    locals: Map<DefId, LocalId>,
    enclosing: Map<DefId, CaptureSlot>,
) -> Result<Seq<(DefId, CaptureSource, CaptureKind)>, CaptureError>
    decreases ds.len(),
{
    if ds.len() == 0 {
        Ok(Seq::empty())
    } else {
        match capture_plans(body, ds.drop_last(), is_move, locals, enclosing) {
            Err(e) => Err(e),
            Ok(ps) => match capture_plan(body, ds.last(), is_move, locals, enclosing) {
                Err(e) => Err(e),
                Ok((s, k)) => Ok(ps.push((ds.last(), s, k))),
            },
        }
    }
}

/// Decide where each capture `captured` of a closure with body `body` is
/// read from and how its slot holds it (see `capture_plan`), in order; the
/// first capture that cannot be laid out is the error.
pub fn plan_capture_slots(
    body: &HirExpr,
    captured: &Vec<DefId>,
    is_move: bool,
    def_to_local: &HashMap<DefId, LocalId>,
    capture_map: &HashMap<DefId, CaptureSlot>,
) -> (r: Result<Vec<(DefId, CaptureSource, CaptureKind)>, CaptureError>)
    ensures
        match capture_plans(*body, captured@, is_move, def_to_local@, capture_map@) {
            Ok(ps) => r matches Ok(v) && v@ == ps,
            Err(e) => r == Err::<Vec<(DefId, CaptureSource, CaptureKind)>, CaptureError>(e),
        },
{
    let mut slots: Vec<(DefId, CaptureSource, CaptureKind)> = Vec::new();
    let mut i: usize = 0;
    while i < captured.len()
        invariant
            i <= captured@.len(),
            capture_plans(*body, captured@.take(i as int), is_move, def_to_local@, capture_map@) == Ok::<
                Seq<(DefId, CaptureSource, CaptureKind)>,
                CaptureError,
            >(slots@),
        decreases captured@.len() - i,
    {
        let d = captured[i];
        proof {
            assert(captured@.take(i + 1).drop_last() =~= captured@.take(i as int));
            assert(captured@.take(i + 1).last() == d);
        }
        let by_ref = !is_move && closure_body_mutates(body, d);
        let planned: Result<(CaptureSource, CaptureKind), CaptureError> = match def_to_local.get(&d) {
            Some(local) => Ok(
                (CaptureSource::Local(*local), if by_ref {
                    CaptureKind::ByRef
                } else {
                    CaptureKind::ByValue
                }),
            ),
            None => match capture_map.get(&d) {
                Some(e) => {
                    if !by_ref {
                        Ok((CaptureSource::Recapture(*e), CaptureKind::ByValue))
                    } else if matches!(e.kind, CaptureKind::ByRef) {
                        Ok((CaptureSource::Recapture(*e), CaptureKind::ByRef))
                    } else {
                        Err(CaptureError::MutatedByValueRecapture(d))
                    }
                },
                None => Err(CaptureError::Unresolvable(d)),
            },
        };
        match planned {
            Ok((s, k)) => slots.push((d, s, k)),
            Err(e) => {
                proof {
                    lemma_plans_stop(*body, captured@, i as int + 1, is_move, def_to_local@, capture_map@);
                }
                return Err(e);
            },
        }
        i = i + 1;
    }
    proof {
        assert(captured@.take(i as int) =~= captured@);
    }
    Ok(slots)
}

/// Once a capture fails, the plans of any longer prefix fail with the same
/// error.
proof fn lemma_plans_stop(
    body: HirExpr,
    ds: Seq<DefId>,
    i: int,
    is_move: bool,
    locals: Map<DefId, LocalId>,
    enclosing: Map<DefId, CaptureSlot>,
)
    requires
        0 <= i <= ds.len(),
        capture_plans(body, ds.take(i), is_move, locals, enclosing) is Err,
    ensures
        capture_plans(body, ds, is_move, locals, enclosing) == capture_plans(body, ds.take(i), is_move, locals, enclosing),
    decreases ds.len() - i,
{
    if i < ds.len() {
        assert(ds.take(i + 1).drop_last() =~= ds.take(i));
        lemma_plans_stop(body, ds, i + 1, is_move, locals, enclosing);
    } else {
        assert(ds.take(i) =~= ds);
    }
}

/// The captures of `slots` whose enclosing-frame local is turned into a
/// shared cell, as (variable, local) pairs in order, and the variables in
/// cells afterwards: a by-reference capture of a local whose variable is
/// not in a cell yet (`promoted`).
pub open spec fn cell_promotions(
    slots: Seq<(DefId, CaptureSource, CaptureKind)>,
    promoted: Set<DefId>,
) -> (Seq<(DefId, LocalId)>, Set<DefId>)
    decreases slots.len(),
{
    if slots.len() == 0 {
        (Seq::empty(), promoted)
    } else {
        let (ps, now) = cell_promotions(slots.drop_last(), promoted);
        let (d, s, k) = slots.last();
        match s {
            CaptureSource::Local(l) => if k == CaptureKind::ByRef && !now.contains(d) {
                (ps.push((d, l)), now.insert(d))
            } else {
                (ps, now)
            },
            CaptureSource::Recapture(_) => (ps, now),
        }
    }
}

/// The instructions that turn the locals of `ps` into cells, the cell of
/// the one at `k` being local `n + k`: the cell is allocated (one 8-byte
/// slot), gets the local's value, and the local then holds the cell.
pub open spec fn promotion_insts(ps: Seq<(DefId, LocalId)>, n: int) -> Seq<MirInst>
    decreases ps.len(),
{
    if ps.len() == 0 {
        Seq::empty()
    } else {
        let cell = (n + ps.len() - 1) as u32;
        let l = ps.last().1;
        promotion_insts(ps.drop_last(), n) + seq![
            MirInst::Alloc { dest: cell, ty: Ty::Int, size: 8 },
            MirInst::SetField { base: cell, field_index: 0, value: MirValue::Use(l) },
            MirInst::Assign { dest: l, value: MirValue::Use(cell) },
        ]
    }
}

/// `l1` is `l0`, retyped to `Int` (a cell pointer) where `to_cell`.
pub open spec fn maybe_retyped(l0: MirLocal, l1: MirLocal, to_cell: bool) -> bool {
    &&& l1.id == l0.id
    &&& l1.name == l0.name
    &&& l1.mutable == l0.mutable
    &&& l1.ty == (if to_cell { Ty::Int } else { l0.ty })
}

/// Turn into shared cells, in block `b` of `f`, the enclosing-frame locals
/// that the closure's `slots` capture by reference and that are not cells
/// yet (`cell_promoted`, which records them): see `cell_promotions` and
/// `promotion_insts`. Each such local is retyped to `Int`, the type of the
/// cell pointer it now holds.
pub fn promote_captured_cells(
    f: &mut MirFunction,
    b: BlockId,
    slots: &Vec<(DefId, CaptureSource, CaptureKind)>,
    cell_promoted: &mut HashSet<DefId>,
)
    requires
        b < old(f).blocks@.len(),
        forall|i: int| 0 <= i < slots@.len() ==> ((#[trigger] slots@[i]).1 matches CaptureSource::Local(l) ==> l
            < old(f).locals@.len()),
        old(f).locals@.len() + slots@.len() <= u32::MAX,
        old(f).next_temp + slots@.len() < u32::MAX,
    ensures
        ({
            let f0 = *old(f);
            let n = f0.locals@.len() as int;
            let (ps, now) = cell_promotions(slots@, old(cell_promoted)@);
            &&& final(cell_promoted)@ == now
            &&& final(f).blocks@.len() == f0.blocks@.len()
            &&& forall|k: int| 0 <= k < f0.blocks@.len() && k != b ==> #[trigger] final(f).blocks@[k] == f0.blocks@[k]
            &&& final(f).blocks@[b as int].id == f0.blocks@[b as int].id
            &&& final(f).blocks@[b as int].terminator == f0.blocks@[b as int].terminator
            &&& final(f).blocks@[b as int].instructions@ == f0.blocks@[b as int].instructions@ + promotion_insts(ps, n)
            &&& final(f).locals@.len() == n + ps.len()
            &&& forall|k: int| 0 <= k < n ==> maybe_retyped(
                f0.locals@[k],
                #[trigger] final(f).locals@[k],
                exists|j: int| 0 <= j < ps.len() && ps[j].1 == k,
            )
            &&& forall|k: int| n <= k < n + ps.len() ==> (#[trigger] final(f).locals@[k]).id == k
                && final(f).locals@[k].ty == Ty::Int && !final(f).locals@[k].mutable
            &&& final(f).next_temp == f0.next_temp + ps.len()
            &&& final(f).name == f0.name
            &&& final(f).params == f0.params
            &&& final(f).return_ty == f0.return_ty
            &&& final(f).entry_block == f0.entry_block
        }),
{
    let ghost f0 = *f;
    let ghost p0 = cell_promoted@;
    let ghost n = f.locals@.len() as int;
    let ghost i0 = f.blocks@[b as int].instructions@;
    let mut i: usize = 0;
    while i < slots.len()
        invariant
            i <= slots@.len(),
            n == f0.locals@.len(),
            b < f0.blocks@.len(),
            forall|j: int| 0 <= j < slots@.len() ==> ((#[trigger] slots@[j]).1 matches CaptureSource::Local(l) ==> l
                < n),
            n + slots@.len() <= u32::MAX,
            f0.next_temp + slots@.len() < u32::MAX,
            ({
                let (ps, now) = cell_promotions(slots@.take(i as int), p0);
                &&& cell_promoted@ == now
                &&& ps.len() <= i
                &&& f.blocks@.len() == f0.blocks@.len()
                &&& forall|k: int| 0 <= k < f0.blocks@.len() && k != b ==> #[trigger] f.blocks@[k] == f0.blocks@[k]
                &&& f.blocks@[b as int].id == f0.blocks@[b as int].id
                &&& f.blocks@[b as int].terminator == f0.blocks@[b as int].terminator
                &&& f.blocks@[b as int].instructions@ == i0 + promotion_insts(ps, n)
                &&& f.locals@.len() == n + ps.len()
                &&& forall|k: int| 0 <= k < n ==> maybe_retyped(
                    f0.locals@[k],
                    #[trigger] f.locals@[k],
                    exists|j: int| 0 <= j < ps.len() && ps[j].1 == k,
                )
                &&& forall|k: int| n <= k < n + ps.len() ==> (#[trigger] f.locals@[k]).id == k
                    && f.locals@[k].ty == Ty::Int && !f.locals@[k].mutable
                &&& f.next_temp == f0.next_temp + ps.len()
            }),
            f.name == f0.name,
            f.params == f0.params,
            f.return_ty == f0.return_ty,
            f.entry_block == f0.entry_block,
        decreases slots@.len() - i,
    {
        let ghost pre = cell_promotions(slots@.take(i as int), p0);
        proof {
            assert(slots@.take(i + 1).drop_last() =~= slots@.take(i as int));
        }
        let (d, source, kind) = slots[i];
        match source {
            CaptureSource::Local(outer) => {
                if matches!(kind, CaptureKind::ByRef) && !cell_promoted.contains(&d) {
                    let ghost fb = *f;
                    let ghost ib = f.blocks@[b as int].instructions@;
                    let cell = f.new_temp(Ty::Int);
                    f.blocks[b].instructions.push(MirInst::Alloc { dest: cell, ty: Ty::Int, size: 8 });
                    f.blocks[b].instructions.push(
                        MirInst::SetField { base: cell, field_index: 0, value: MirValue::Use(outer) },
                    );
                    f.blocks[b].instructions.push(MirInst::Assign { dest: outer, value: MirValue::Use(cell) });
                    let ghost fr = *f;
                    f.locals[outer as usize].ty = Ty::Int;
                    cell_promoted.insert(d);
                    proof {
                        let ps1 = pre.0.push((d, outer));
                        assert(ps1.drop_last() =~= pre.0);
                        assert(f.blocks@[b as int].instructions@ =~= i0 + promotion_insts(ps1, n));
                        assert forall|k: int| 0 <= k < n implies maybe_retyped(
                            f0.locals@[k],
                            #[trigger] f.locals@[k],
                            exists|j: int| 0 <= j < ps1.len() && ps1[j].1 == k,
                        ) by {
                            assert(fr.locals@[k] == fb.locals@[k]);
                            if k == outer {
                                assert(ps1[ps1.len() - 1].1 == k);
                            } else {
                                if exists|j: int| 0 <= j < ps1.len() && ps1[j].1 == k {
                                    let j = choose|j: int| 0 <= j < ps1.len() && ps1[j].1 == k;
                                    assert(j < pre.0.len());
                                    assert(pre.0[j] == ps1[j]);
                                }
                                if exists|j: int| 0 <= j < pre.0.len() && pre.0[j].1 == k {
                                    let j = choose|j: int| 0 <= j < pre.0.len() && pre.0[j].1 == k;
                                    assert(ps1[j] == pre.0[j]);
                                }
                            }
                        }
                        assert forall|k: int| n <= k < n + ps1.len() implies (#[trigger] f.locals@[k]).id == k
                            && f.locals@[k].ty == Ty::Int && !f.locals@[k].mutable by {
                            if k < n + pre.0.len() {
                                assert(fr.locals@[k] == fb.locals@[k]);
                            }
                        }
                    }
                }
            },
            CaptureSource::Recapture(_) => {},
        }
        i = i + 1;
    }
    proof {
        assert(slots@.take(i as int) =~= slots@);
    }
}

/// The name of the function synthesized for the closure numbered `k`.
pub fn closure_name(k: u32) -> (r: String)
    ensures
        r@ == "__closure_"@ + decimal_text(k as nat),
{
    String::from_str("__closure_").concat(decimal_string(k).as_str())
}

/// Allocate the captures record of a closure with `count` captures in
/// block `b` of `f`: a fresh `Int` temporary pointing at `count` 8-byte
/// slots (at least one). A closure without captures has no record.
pub fn begin_captures_record(f: &mut MirFunction, b: BlockId, count: usize) -> (r: Option<LocalId>)
    requires
        b < old(f).blocks@.len(),
        old(f).next_temp < u32::MAX,
        count * 8 <= usize::MAX,
    ensures
        count == 0 ==> r is None && *final(f) == *old(f),
        count > 0 ==> {
            let n = old(f).locals@.len();
            &&& r == Some(n as u32)
            &&& final(f).locals@.len() == n + 1
            &&& final(f).locals@.take(n as int) == old(f).locals@
            &&& final(f).locals@[n as int].ty == Ty::Int
            &&& final(f).blocks@.len() == old(f).blocks@.len()
            &&& forall|k: int| 0 <= k < old(f).blocks@.len() && k != b ==> #[trigger] final(f).blocks@[k]
                == old(f).blocks@[k]
            &&& final(f).blocks@[b as int].instructions@ == old(f).blocks@[b as int].instructions@.push(
                MirInst::Alloc { dest: n as u32, ty: Ty::Int, size: if count * 8 > 8 { (count * 8) as usize } else { 8 } },
            )
            &&& final(f).blocks@[b as int].id == old(f).blocks@[b as int].id
            &&& final(f).blocks@[b as int].terminator == old(f).blocks@[b as int].terminator
        },
{
    if count == 0 {
        return None;
    }
    let cap = f.new_temp(Ty::Int);
    let size = if count * 8 > 8 {
        count * 8
    } else {
        8
    };
    f.blocks[b].instructions.push(MirInst::Alloc { dest: cap, ty: Ty::Int, size });
    Some(cap)
}

/// The instructions that store the capture of one slot, and the value
/// stored, where the slot's source is `source`, its kind `kind`, `promoted`
/// tells whether the variable is already in a cell, `encl` is the
/// enclosing closure's captures record and `n` the next local's id:
/// - a by-value capture of a local: its value, read out of its cell where
///   it is in one;
/// - a by-reference capture of a local: the local, which holds the cell;
/// - a re-capture: the enclosing slot's word (a value, or a cell pointer
///   passed on to a by-reference capture), read through the cell for a
///   by-value capture of a by-reference enclosing slot.
pub open spec fn slot_load(
    source: CaptureSource,
    kind: CaptureKind,
    promoted: bool,
    encl: LocalId,
    n: int,
) -> (Seq<MirInst>, MirValue) {
    let t0 = n as u32;
    let t1 = (n + 1) as u32;
    match source {
        CaptureSource::Local(l) => if kind == CaptureKind::ByValue && promoted {
            (seq![MirInst::GetField { dest: t0, base: l, field_index: 0 }], MirValue::Use(t0))
        } else {
            (Seq::empty(), MirValue::Use(l))
        },
        CaptureSource::Recapture(e) => if e.kind == CaptureKind::ByRef && kind == CaptureKind::ByValue {
            (
                seq![
                    MirInst::GetField { dest: t0, base: encl, field_index: e.slot_index },
                    MirInst::GetField { dest: t1, base: t0, field_index: 0 },
                ],
                MirValue::Use(t1),
            )
        } else {
            (seq![MirInst::GetField { dest: t0, base: encl, field_index: e.slot_index }], MirValue::Use(t0))
        },
    }
}

/// Store the capture of variable `d` into slot `slot_idx` of the captures
/// record `cap` in block `b` of `f` (see `slot_load`): the loads it needs,
/// each into a fresh `Int` temporary, then the `SetField`.
/// `captures_ptr` is the enclosing closure's record, which a re-capture
/// reads.
pub fn fill_capture_slot(
    f: &mut MirFunction,
    b: BlockId,
    cap: LocalId,
    slot_idx: usize,
    d: DefId,
    source: CaptureSource,
    kind: CaptureKind,
    cell_promoted: &HashSet<DefId>,
    captures_ptr: Option<LocalId>,
)
    requires
        b < old(f).blocks@.len(),
        source is Recapture ==> captures_ptr is Some,
        old(f).next_temp + 2 < u32::MAX,
        old(f).locals@.len() + 2 <= u32::MAX,
    ensures
        ({
            let f0 = *old(f);
            let n = f0.locals@.len() as int;
            let encl = match captures_ptr {
                Some(p) => p,
                None => 0,
            };
            let (loads, v) = slot_load(source, kind, cell_promoted@.contains(d), encl, n);
            &&& final(f).blocks@[b as int].instructions@ == f0.blocks@[b as int].instructions@ + loads.push(
                MirInst::SetField { base: cap, field_index: slot_idx, value: v },
            )
            &&& final(f).locals@.len() == n + loads.len()
            &&& final(f).locals@.take(n) == f0.locals@
            &&& forall|k: int| n <= k < n + loads.len() ==> (#[trigger] final(f).locals@[k]).ty == Ty::Int
            &&& final(f).blocks@.len() == f0.blocks@.len()
            &&& forall|k: int| 0 <= k < f0.blocks@.len() && k != b ==> #[trigger] final(f).blocks@[k] == f0.blocks@[k]
            &&& final(f).blocks@[b as int].id == f0.blocks@[b as int].id
            &&& final(f).blocks@[b as int].terminator == f0.blocks@[b as int].terminator
        }),
{
    let ghost f0 = *f;
    let ghost i0 = f.blocks@[b as int].instructions@;
    let ghost n = f.locals@.len() as int;
    let value = match source {
        CaptureSource::Local(l) => {
            if matches!(kind, CaptureKind::ByValue) && cell_promoted.contains(&d) {
                let tmp = f.new_temp(Ty::Int);
                f.blocks[b].instructions.push(MirInst::GetField { dest: tmp, base: l, field_index: 0 });
                MirValue::Use(tmp)
            } else {
                MirValue::Use(l)
            }
        },
        CaptureSource::Recapture(e) => {
            let encl = match captures_ptr {
                Some(p) => p,
                None => 0,
            };
            let word = f.new_temp(Ty::Int);
            f.blocks[b].instructions.push(MirInst::GetField { dest: word, base: encl, field_index: e.slot_index });
            if matches!(e.kind, CaptureKind::ByRef) && matches!(kind, CaptureKind::ByValue) {
                let ghost f1 = *f;
                let tmp = f.new_temp(Ty::Int);
                f.blocks[b].instructions.push(MirInst::GetField { dest: tmp, base: word, field_index: 0 });
                proof {
                    assert(f.locals@.take(n) =~= f0.locals@) by {
                        assert(f.locals@.take(n) =~= f.locals@.take(f1.locals@.len() as int).take(n));
                    }
                    assert(f.locals@[n] == f1.locals@[n]);
                }
                MirValue::Use(tmp)
            } else {
                MirValue::Use(word)
            }
        },
    };
    f.blocks[b].instructions.push(MirInst::SetField { base: cap, field_index: slot_idx, value });
    proof {
        let encl = match captures_ptr {
            Some(p) => p,
            None => 0,
        };
        let (loads, v) = slot_load(source, kind, cell_promoted@.contains(d), encl, n);
        assert(f.blocks@[b as int].instructions@ =~= i0 + loads.push(
            MirInst::SetField { base: cap, field_index: slot_idx, value: v },
        ));
    }
}

/// A fresh function for a closure named `name` returning `ret_ty`: its
/// first parameter is the captures record (`__captures`, an `Int`), then
/// come the closure's parameters `params`, each a local of its name and
/// type. Returns the function and the locals of `params`.
pub fn closure_function(name: &str, ret_ty: Ty, params: &Vec<HirClosureParam>) -> (r: (MirFunction, Vec<LocalId>))
    requires
        params@.len() + 1 <= u32::MAX,
    ensures
        r.0.name@ == name@,
        r.0.return_ty == ret_ty,
        r.0.blocks@.len() == 1,
        r.0.entry_block == 0,
        r.0.locals@.len() == params@.len() + 1,
        r.0.params@.len() == params@.len() + 1,
        forall|k: int| 0 <= k <= params@.len() ==> #[trigger] r.0.params@[k] == k && r.0.locals@[k].id == k,
        r.0.locals@[0].name@ == "__captures"@,
        r.0.locals@[0].ty == Ty::Int,
        forall|k: int|
            0 <= k < params@.len() ==> r.1@[k] == k + 1 && (#[trigger] r.0.locals@[k + 1]).name@ == params@[k].name@
                && ty_same(r.0.locals@[k + 1].ty, params@[k].ty) && !r.0.locals@[k + 1].mutable,
        r.1@.len() == params@.len(),
{
    let mut f = MirFunction::new(name, ret_ty);
    let cap_param = f.new_local("__captures", Ty::Int, false);
    f.params.push(cap_param);
    let mut ids: Vec<LocalId> = Vec::new();
    let mut i: usize = 0;
    while i < params.len()
        invariant
            i <= params@.len(),
            params@.len() + 1 <= u32::MAX,
            f.name@ == name@,
            f.return_ty == ret_ty,
            f.blocks@.len() == 1,
            f.entry_block == 0,
            f.locals@.len() == i + 1,
            f.params@.len() == i + 1,
            forall|k: int| 0 <= k <= i ==> #[trigger] f.params@[k] == k && f.locals@[k].id == k,
            f.locals@[0].name@ == "__captures"@,
            f.locals@[0].ty == Ty::Int,
            ids@.len() == i,
            forall|k: int|
                0 <= k < i ==> ids@[k] == k + 1 && (#[trigger] f.locals@[k + 1]).name@ == params@[k].name@
                    && ty_same(f.locals@[k + 1].ty, params@[k].ty) && !f.locals@[k + 1].mutable,
        decreases params@.len() - i,
    {
        let p = &params[i];
        let ghost before = f.locals@;
        let id = f.new_local(p.name.as_str(), copy_ty(&p.ty), false);
        f.params.push(id);
        ids.push(id);
        proof {
            assert forall|k: int| 0 <= k <= i + 1 implies #[trigger] f.params@[k] == k && f.locals@[k].id == k by {
                if k <= i {
                    assert(f.locals@[k] == f.locals@.take(before.len() as int)[k]);
                }
            }
            assert forall|k: int| 0 <= k < i + 1 implies ids@[k] == k + 1 && (#[trigger] f.locals@[k + 1]).name@
                == params@[k].name@ && ty_same(f.locals@[k + 1].ty, params@[k].ty) && !f.locals@[k + 1].mutable by {
                if k < i {
                    assert(f.locals@[k + 1] == f.locals@.take(before.len() as int)[k + 1]);
                }
            }
            assert(f.locals@[0] == f.locals@.take(before.len() as int)[0]);
        }
        i = i + 1;
    }
    (f, ids)
}

} // verus!
