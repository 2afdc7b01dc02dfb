//! `for` loops, expanded into a header, a body, a step and an exit block.
//!
//! Over a range `start..end` (or `start..=end`) the binding is a counter:
//!
//! ```text
//! end_tmp = <end>; i = <start>; goto header
//! header: if i < end_tmp (i <= end_tmp) goto body else exit
//! body:   <the loop body, lowered by the caller>; goto step
//! step:   i = i + 1; goto header
//! exit:
//! ```
//!
//! Over a vector (any other iterable) a hidden index walks it:
//!
//! ```text
//! idx = 0; len = ruxen_vec_len(vec); goto header
//! header: if idx < len goto body else exit
//! body:   x = ruxen_vec_get(vec, idx); <tuple parts>; <the loop body>; goto step
//! step:   idx = idx + 1; goto header
//! exit:
//! ```
//!
//! The caller lowers the bounds or the iterable before `for_range_enter` or
//! `for_each_enter`, and the body (with `continue` going to the step block
//! and `break` to the exit block) between that call and `for_loop_finish`.
use vstd::prelude::*;

use std::collections::HashMap;

use crate::hir::nodes::DefId;
use crate::hir::types::{ty_same, Ty};
use crate::mir::lower::util::{element_type_of, spec_element_type_of};
use crate::mir::nodes::{
    block_is, call_is, int_lit, BasicBlock, BlockId, CmpOp, Literal, LocalId, MirFunction, MirInst, MirValue,
    Terminator,
};
use crate::parser::ast::BinOp;

verus! {

broadcast use vstd::std_specs::hash::group_hash_axioms;

/// The counter and blocks of an expanded `for` loop.
#[derive(Debug, Clone, Copy)]
pub struct ForLoop {
    /// The local that the step block increments: the binding of a range
    /// loop, the hidden index of a loop over a vector.
    pub counter: LocalId,
    pub header: BlockId,
    pub body: BlockId,
    pub step: BlockId,
    pub exit: BlockId,
}

/// The blocks `f0` had are kept but `cur`; four empty blocks follow them, a
/// header at `m` with the instructions `header_insts` and the body, step and
/// exit blocks after it, the header branching on `cond` to the body or the
/// exit; `cur` gets `cur_insts` appended and jumps to the header.
pub open spec fn loop_blocks_made(
    f0: MirFunction,
    f1: MirFunction,
    cur: int,
    cur_insts: Seq<MirInst>,
    header_insts: Seq<MirInst>,
    cond: LocalId,
) -> bool {
    let m = f0.blocks@.len() as int;
    let b = f1.blocks@;
    &&& b.len() == m + 4
    &&& forall|k: int| 0 <= k < m && k != cur ==> #[trigger] b[k] == f0.blocks@[k]
    &&& block_is(b[cur], f0.blocks@[cur].id as int, f0.blocks@[cur].instructions@ + cur_insts, Terminator::Goto(m as usize))
    &&& block_is(
        b[m],
        m,
        header_insts,
        Terminator::Branch { cond: MirValue::Use(cond), then_block: (m + 1) as usize, else_block: (m + 3) as usize },
    )
    &&& forall|k: int| m + 1 <= k < m + 4 ==> block_is(#[trigger] b[k], k, Seq::empty(), Terminator::Unreachable)
    &&& f1.name == f0.name
    &&& f1.params == f0.params
    &&& f1.return_ty == f0.return_ty
    &&& f1.entry_block == f0.entry_block
}

/// `f1` is `f0` with a range loop entered from block `cur`: the bound values
/// `start` and `end` (already lowered), a hidden `end_tmp` (local `n`), the
/// binding `binding_name` (local `n + 1`, a mutable `Int`), the condition
/// (local `n + 2`), and the four blocks (see the module's documentation).
pub open spec fn for_range_entered(
    f0: MirFunction,
    f1: MirFunction,
    cur: int,
    binding_name: Seq<char>,
    start: MirValue,
    end: MirValue,
    inclusive: bool,
    lp: ForLoop,
) -> bool {
    let n = f0.locals@.len() as int;
    let m = f0.blocks@.len() as int;
    let end_tmp = n as u32;
    let binding = (n + 1) as u32;
    let cond = (n + 2) as u32;
    &&& lp == ForLoop {
        counter: binding,
        header: m as usize,
        body: (m + 1) as usize,
        step: (m + 2) as usize,
        exit: (m + 3) as usize,
    }
    &&& loop_blocks_made(
        f0,
        f1,
        cur,
        seq![MirInst::Assign { dest: end_tmp, value: end }, MirInst::Assign { dest: binding, value: start }],
        seq![
            MirInst::Compare {
                dest: cond,
                op: if inclusive { CmpOp::LtEq } else { CmpOp::Lt },
                lhs: MirValue::Use(binding),
                rhs: MirValue::Use(end_tmp),
            },
        ],
        cond,
    )
    &&& f1.locals@.len() == n + 3
    &&& f1.locals@.take(n) == f0.locals@
    &&& forall|k: int| n <= k < n + 3 ==> (#[trigger] f1.locals@[k]).id == k
    &&& f1.locals@[n].ty == Ty::Int && !f1.locals@[n].mutable
    &&& f1.locals@[n + 1].name@ == binding_name && f1.locals@[n + 1].ty == Ty::Int && f1.locals@[n + 1].mutable
    &&& f1.locals@[n + 2].ty == Ty::Bool && !f1.locals@[n + 2].mutable
    &&& f1.next_temp == f0.next_temp + 2
}

/// Enter a loop `for binding in start..end` (`..=` where `inclusive`) from
/// block `cur` of `f`, the bounds already lowered to `start` and `end`
/// (see `for_range_entered`); `binding` is recorded in `def_to_local`.
/// The body is to be lowered next, into the returned loop's body block.
pub fn for_range_enter(
    f: &mut MirFunction,
    cur: BlockId,
    def_to_local: &mut HashMap<DefId, LocalId>,
    binding: DefId,
    binding_name: &String,
    start: MirValue,
    end: MirValue,
    inclusive: bool,
) -> (lp: ForLoop)
    requires
        cur < old(f).blocks@.len(),
        old(f).locals@.len() + 3 <= u32::MAX,
        old(f).blocks@.len() + 4 <= usize::MAX,
        old(f).next_temp + 2 < u32::MAX,
    ensures
        for_range_entered(*old(f), *final(f), cur as int, binding_name@, start, end, inclusive, lp),
        final(def_to_local)@ == old(def_to_local)@.insert(binding, (old(f).locals@.len() + 1) as u32),
{
    let ghost f0 = *f;
    let ghost end_v = end;
    let ghost start_v = start;
    let m = f.blocks.len();
    let end_tmp = f.new_temp(Ty::Int);
    let binding_local = f.new_local(binding_name.as_str(), Ty::Int, true);
    def_to_local.insert(binding, binding_local);
    let cond = f.new_temp(Ty::Bool);
    let ghost f3 = *f;
    f.blocks[cur].instructions.push(MirInst::Assign { dest: end_tmp, value: end });
    f.blocks[cur].instructions.push(MirInst::Assign { dest: binding_local, value: start });
    f.blocks[cur].terminator = Terminator::Goto(m);
    let op = if inclusive {
        CmpOp::LtEq
    } else {
        CmpOp::Lt
    };
    f.blocks.push(
        BasicBlock {
            id: m,
            instructions: vec![
                MirInst::Compare { dest: cond, op, lhs: MirValue::Use(binding_local), rhs: MirValue::Use(end_tmp) },
            ],
            terminator: Terminator::Branch { cond: MirValue::Use(cond), then_block: m + 1, else_block: m + 3 },
        },
    );
    f.blocks.push(BasicBlock::new(m + 1));
    f.blocks.push(BasicBlock::new(m + 2));
    f.blocks.push(BasicBlock::new(m + 3));
    proof {
        let b = f.blocks@;
        let mm = m as int;
        assert forall|k: int| 0 <= k < mm && k != cur implies #[trigger] b[k] == f0.blocks@[k] by {
            assert(b[k] == f3.blocks@[k]);
        }
        assert(b[cur as int].instructions@ =~= f0.blocks@[cur as int].instructions@ + seq![
            MirInst::Assign { dest: end_tmp, value: end_v },
            MirInst::Assign { dest: binding_local, value: start_v },
        ]);
        assert(b[mm].instructions@ =~= seq![
            MirInst::Compare { dest: cond, op, lhs: MirValue::Use(binding_local), rhs: MirValue::Use(end_tmp) },
        ]);
        assert forall|k: int| mm + 1 <= k < mm + 4 implies block_is(#[trigger] b[k], k, Seq::empty(), Terminator::Unreachable) by {
            assert(b[k].instructions@ =~= Seq::<MirInst>::empty());
        }
        assert(f.locals@.take(f0.locals@.len() as int) =~= f0.locals@) by {
            assert(f.locals@.take(f0.locals@.len() as int) =~= f3.locals@.take(f0.locals@.len() as int));
        }
    }
    ForLoop { counter: binding_local, header: m, body: m + 1, step: m + 2, exit: m + 3 }
}

/// The assignments that give each tuple part its value in the body of a
/// loop over a vector: the first part is the index `idx`, every later one
/// the element `elem`; the part at `t` is local `first + t`.
pub open spec fn tuple_part_assigns(count: nat, first: int, idx: LocalId, elem: LocalId) -> Seq<MirInst> {
    Seq::new(
        count,
        |t: int|
            MirInst::Assign {
                dest: (first + t) as u32,
                value: MirValue::Use(if t == 0 { idx } else { elem }),
            },
    )
}

/// `d` with each tuple part of `tbs` bound to its local, `first + t` for
/// the part at `t`, later parts winning.
pub open spec fn bind_tuple_parts(d: Map<DefId, LocalId>, tbs: Seq<(DefId, String)>, first: int) -> Map<DefId, LocalId>
    decreases tbs.len(),
{
    if tbs.len() == 0 {
        d
    } else {
        bind_tuple_parts(d, tbs.drop_last(), first).insert(tbs.last().0, (first + tbs.len() - 1) as u32)
    }
}

/// `f1` is `f0` with a loop over a vector entered from block `cur`: the
/// vector is `iter` (a fresh `Int` temporary, local `n`, where the iterable
/// gave no value), then come the index, the length, the condition, the
/// binding `binding_name` of the element type of `iterable_ty`, and the
/// tuple parts `tbs`, each an `Int` local of its name (see the module's
/// documentation).
pub open spec fn for_each_entered(
    f0: MirFunction,
    f1: MirFunction,
    cur: int,
    binding_name: Seq<char>,
    iterable_ty: Ty,
    iter: Option<LocalId>,
    tbs: Seq<(DefId, String)>,
    lp: ForLoop,
) -> bool {
    let n = f0.locals@.len() as int;
    let m = f0.blocks@.len() as int;
    let p: int = if iter is None { 1 } else { 0 };
    let vec_id = match iter {
        Some(v) => v,
        None => n as u32,
    };
    let idx = (n + p) as u32;
    let len = (n + p + 1) as u32;
    let cond = (n + p + 2) as u32;
    let binding = (n + p + 3) as u32;
    let b = f1.blocks@;
    let c0 = f0.blocks@[cur].instructions@;
    &&& lp == ForLoop {
        counter: idx,
        header: m as usize,
        body: (m + 1) as usize,
        step: (m + 2) as usize,
        exit: (m + 3) as usize,
    }
    // The blocks.
    &&& b.len() == m + 4
    &&& forall|k: int| 0 <= k < m && k != cur ==> #[trigger] b[k] == f0.blocks@[k]
    &&& b[cur].id == f0.blocks@[cur].id
    &&& b[cur].instructions@.len() == c0.len() + 2
    &&& b[cur].instructions@.take(c0.len() as int) == c0
    &&& b[cur].instructions@[c0.len() as int] == MirInst::Assign { dest: idx, value: int_lit(0) }
    &&& call_is(b[cur].instructions@[c0.len() as int + 1], Some(len), "ruxen_vec_len"@, seq![MirValue::Use(vec_id)])
    &&& b[cur].terminator == Terminator::Goto(m as usize)
    &&& block_is(
        b[m],
        m,
        seq![MirInst::Compare { dest: cond, op: CmpOp::Lt, lhs: MirValue::Use(idx), rhs: MirValue::Use(len) }],
        Terminator::Branch { cond: MirValue::Use(cond), then_block: (m + 1) as usize, else_block: (m + 3) as usize },
    )
    &&& b[m + 1].id == m + 1
    &&& b[m + 1].terminator is Unreachable
    &&& b[m + 1].instructions@.len() == 1 + tbs.len()
    &&& call_is(
        b[m + 1].instructions@[0],
        Some(binding),
        "ruxen_vec_get"@,
        seq![MirValue::Use(vec_id), MirValue::Use(idx)],
    )
    &&& b[m + 1].instructions@.skip(1) == tuple_part_assigns(tbs.len(), n + p + 4, idx, binding)
    &&& forall|k: int| m + 2 <= k < m + 4 ==> block_is(#[trigger] b[k], k, Seq::empty(), Terminator::Unreachable)
    // The locals.
    &&& f1.locals@.len() == n + p + 4 + tbs.len()
    &&& f1.locals@.take(n) == f0.locals@
    &&& forall|k: int| n <= k < f1.locals@.len() ==> (#[trigger] f1.locals@[k]).id == k && !f1.locals@[k].mutable
    &&& iter is None ==> f1.locals@[n].ty == Ty::Int
    &&& f1.locals@[n + p].ty == Ty::Int && f1.locals@[n + p + 1].ty == Ty::Int
    &&& f1.locals@[n + p + 2].ty == Ty::Bool
    &&& f1.locals@[n + p + 3].name@ == binding_name
    &&& ty_same(f1.locals@[n + p + 3].ty, spec_element_type_of(iterable_ty))
    &&& forall|t: int|
        0 <= t < tbs.len() ==> (#[trigger] f1.locals@[n + p + 4 + t]).name@ == tbs[t].1@ && f1.locals@[n + p + 4
            + t].ty == Ty::Int
    &&& f1.next_temp == f0.next_temp + p + 3
    // Nothing else changes.
    &&& f1.name == f0.name
    &&& f1.params == f0.params
    &&& f1.return_ty == f0.return_ty
    &&& f1.entry_block == f0.entry_block
}

/// Enter a loop `for binding in iterable` over a vector from block `cur` of
/// `f`, the iterable already lowered to `iter` (see `for_each_entered`); the
/// binding and then the tuple parts `tuple_bindings` are recorded in
/// `def_to_local`. The body is to be lowered next, into the returned loop's
/// body block.
pub fn for_each_enter(
    f: &mut MirFunction,
    cur: BlockId,
    def_to_local: &mut HashMap<DefId, LocalId>,
    binding: DefId,
    binding_name: &String,
    iterable_ty: &Ty,
    iter: Option<LocalId>,
    tuple_bindings: &Vec<(DefId, String)>,
) -> (lp: ForLoop)
    requires
        cur < old(f).blocks@.len(),
        old(f).locals@.len() + 6 + tuple_bindings@.len() <= u32::MAX,
        old(f).blocks@.len() + 4 <= usize::MAX,
        old(f).next_temp + 4 < u32::MAX,
    ensures
        for_each_entered(*old(f), *final(f), cur as int, binding_name@, *iterable_ty, iter, tuple_bindings@, lp),
        final(def_to_local)@ == bind_tuple_parts(
            old(def_to_local)@.insert(
                binding,
                (old(f).locals@.len() + (if iter is None { 1int } else { 0int }) + 3) as u32,
            ),
            tuple_bindings@,
            old(f).locals@.len() + (if iter is None { 1int } else { 0int }) + 4,
        ),
{
    let ghost f0 = *f;
    let ghost d0 = def_to_local@;
    let ghost n = f.locals@.len() as int;
    let m = f.blocks.len();
    let vec_id = match iter {
        Some(v) => v,
        None => f.new_temp(Ty::Int),
    };
    let ghost p: int = if iter is None { 1 } else { 0 };
    let idx = f.new_temp(Ty::Int);
    let len = f.new_temp(Ty::Int);
    let cond = f.new_temp(Ty::Bool);
    let binding_local = f.new_local(binding_name.as_str(), element_type_of(iterable_ty), false);
    def_to_local.insert(binding, binding_local);
    let ghost d1 = def_to_local@;
    let ghost f4 = *f;
    assert(f4.locals@.take(n) =~= f0.locals@) by {
        assert(f4.locals@.take(n) =~= f4.locals@.take(n + p + 3).take(n));
    }

    // The body block: the element, then the tuple parts.
    let mut body_insts: Vec<MirInst> = Vec::new();
    body_insts.push(
        MirInst::Call {
            dest: Some(binding_local),
            callee: String::from_str("ruxen_vec_get"),
            args: vec![MirValue::Use(vec_id), MirValue::Use(idx)],
        },
    );
    let mut t: usize = 0;
    while t < tuple_bindings.len()
        invariant
            t <= tuple_bindings@.len(),
            n == f0.locals@.len(),
            p == (if iter is None { 1int } else { 0int }),
            idx == (n + p) as u32,
            binding_local == (n + p + 3) as u32,
            f.locals@.len() == n + p + 4 + t,
            f.locals@.take(n + p + 4) == f4.locals@,
            forall|k: int| n + p + 4 <= k < f.locals@.len() ==> (#[trigger] f.locals@[k]).id == k && !f.locals@[k].mutable,
            forall|s: int|
                0 <= s < t ==> (#[trigger] f.locals@[n + p + 4 + s]).name@ == tuple_bindings@[s].1@ && f.locals@[n + p
                    + 4 + s].ty == Ty::Int,
            f.blocks == f4.blocks,
            f.next_temp == f4.next_temp,
            f.name == f4.name,
            f.params == f4.params,
            f.return_ty == f4.return_ty,
            f.entry_block == f4.entry_block,
            body_insts@.len() == 1 + t,
            call_is(body_insts@[0], Some(binding_local), "ruxen_vec_get"@, seq![MirValue::Use(vec_id), MirValue::Use(idx)]),
            body_insts@.skip(1) == tuple_part_assigns(t as nat, n + p + 4, idx, binding_local),
            def_to_local@ == bind_tuple_parts(d1, tuple_bindings@.take(t as int), n + p + 4),
            n + p + 4 + tuple_bindings@.len() <= u32::MAX,
        decreases tuple_bindings@.len() - t,
    {
        let (tb_def_id, tb_name) = (tuple_bindings[t].0, &tuple_bindings[t].1);
        let ghost before = f.locals@;
        let ghost insts0 = body_insts@;
        let tb_local = f.new_local(tb_name.as_str(), Ty::Int, false);
        def_to_local.insert(tb_def_id, tb_local);
        let value = if t == 0 {
            MirValue::Use(idx)
        } else {
            MirValue::Use(binding_local)
        };
        body_insts.push(MirInst::Assign { dest: tb_local, value });
        proof {
            assert(f.locals@.take(n + p + 4) =~= f.locals@.take(before.len() as int).take(n + p + 4));
            assert(before.take(n + p + 4) =~= f4.locals@);
            assert forall|k: int| n + p + 4 <= k < f.locals@.len() implies (#[trigger] f.locals@[k]).id == k
                && !f.locals@[k].mutable by {
                if k < before.len() {
                    assert(f.locals@[k] == f.locals@.take(before.len() as int)[k]);
                }
            }
            assert forall|s: int| 0 <= s < t + 1 implies (#[trigger] f.locals@[n + p + 4 + s]).name@
                == tuple_bindings@[s].1@ && f.locals@[n + p + 4 + s].ty == Ty::Int by {
                if s < t {
                    assert(f.locals@[n + p + 4 + s] == f.locals@.take(before.len() as int)[n + p + 4 + s]);
                }
            }
            assert(tuple_bindings@.take(t + 1).drop_last() =~= tuple_bindings@.take(t as int));
            assert(body_insts@.skip(1) =~= insts0.skip(1).push(MirInst::Assign { dest: tb_local, value }));
            assert(tuple_part_assigns((t + 1) as nat, n + p + 4, idx, binding_local) =~= tuple_part_assigns(
                t as nat,
                n + p + 4,
                idx,
                binding_local,
            ).push(MirInst::Assign { dest: tb_local, value }));
        }
        t = t + 1;
    }
    proof {
        assert(tuple_bindings@.take(t as int) =~= tuple_bindings@);
    }
    let ghost f5 = *f;

    // Block `cur`: idx = 0; len = ruxen_vec_len(vec); goto header.
    f.blocks[cur].instructions.push(MirInst::Assign { dest: idx, value: MirValue::Literal(Literal::Int(0)) });
    let len_args = vec![MirValue::Use(vec_id)];
    assert(len_args@ =~= seq![MirValue::Use(vec_id)]);
    f.blocks[cur].instructions.push(
        MirInst::Call { dest: Some(len), callee: String::from_str("ruxen_vec_len"), args: len_args },
    );
    f.blocks[cur].terminator = Terminator::Goto(m);
    f.blocks.push(
        BasicBlock {
            id: m,
            instructions: vec![MirInst::Compare { dest: cond, op: CmpOp::Lt, lhs: MirValue::Use(idx), rhs: MirValue::Use(len) }],
            terminator: Terminator::Branch { cond: MirValue::Use(cond), then_block: m + 1, else_block: m + 3 },
        },
    );
    f.blocks.push(BasicBlock { id: m + 1, instructions: body_insts, terminator: Terminator::Unreachable });
    f.blocks.push(BasicBlock::new(m + 2));
    f.blocks.push(BasicBlock::new(m + 3));
    proof {
        let b = f.blocks@;
        let mm = m as int;
        assert forall|k: int| 0 <= k < mm && k != cur implies #[trigger] b[k] == f0.blocks@[k] by {
            assert(b[k] == f5.blocks@[k]);
        }
        assert(b[cur as int].instructions@.take(f0.blocks@[cur as int].instructions@.len() as int)
            =~= f0.blocks@[cur as int].instructions@);
        assert(b[mm].instructions@ =~= seq![
            MirInst::Compare { dest: cond, op: CmpOp::Lt, lhs: MirValue::Use(idx), rhs: MirValue::Use(len) },
        ]);
        assert forall|k: int| mm + 2 <= k < mm + 4 implies block_is(#[trigger] b[k], k, Seq::empty(), Terminator::Unreachable) by {
            assert(b[k].instructions@ =~= Seq::<MirInst>::empty());
        }
        assert(f.locals@.take(n) =~= f0.locals@) by {
            assert(f.locals@.take(n) =~= f.locals@.take(n + p + 4).take(n));
        }
        assert forall|k: int| n <= k < f.locals@.len() implies (#[trigger] f.locals@[k]).id == k && !f.locals@[k].mutable by {
            if k < n + p + 4 {
                assert(f.locals@[k] == f4.locals@[k]);
            }
        }
        assert(f.locals@[n + p] == f4.locals@[n + p]);
        assert(f.locals@[n + p + 1] == f4.locals@[n + p + 1]);
        assert(f.locals@[n + p + 2] == f4.locals@[n + p + 2]);
        assert(f.locals@[n + p + 3] == f4.locals@[n + p + 3]);
        if iter is None {
            assert(f.locals@[n] == f4.locals@[n]);
        }
    }
    ForLoop { counter: idx, header: m, body: m + 1, step: m + 2, exit: m + 3 }
}

/// `f1` is `f0` with the loop `lp` closed once its body was lowered, ending
/// in block `body_end`: that block jumps to the step where it has no
/// terminator yet (`Unreachable`), and the step increments the counter into
/// a fresh `Int` temporary (local `n`) and jumps back to the header.
pub open spec fn for_loop_finished(f0: MirFunction, f1: MirFunction, lp: ForLoop, body_end: int) -> bool {
    let n = f0.locals@.len() as int;
    let b0 = f0.blocks@;
    let b = f1.blocks@;
    let next = n as u32;
    &&& b.len() == b0.len()
    &&& forall|k: int| 0 <= k < b0.len() && k != body_end && k != lp.step ==> #[trigger] b[k] == b0[k]
    &&& b[body_end].id == b0[body_end].id
    &&& b[body_end].instructions == b0[body_end].instructions
    &&& b[body_end].terminator == (if b0[body_end].terminator is Unreachable {
        Terminator::Goto(lp.step)
    } else {
        b0[body_end].terminator
    })
    &&& block_is(
        b[lp.step as int],
        b0[lp.step as int].id as int,
        b0[lp.step as int].instructions@ + seq![
            MirInst::BinOp { dest: next, op: BinOp::Add, lhs: MirValue::Use(lp.counter), rhs: int_lit(1) },
            MirInst::Assign { dest: lp.counter, value: MirValue::Use(next) },
        ],
        Terminator::Goto(lp.header),
    )
    &&& f1.locals@.len() == n + 1
    &&& f1.locals@.take(n) == f0.locals@
    &&& f1.locals@[n].id == n && f1.locals@[n].ty == Ty::Int && !f1.locals@[n].mutable
    &&& f1.next_temp == f0.next_temp + 1
    &&& f1.name == f0.name
    &&& f1.params == f0.params
    &&& f1.return_ty == f0.return_ty
    &&& f1.entry_block == f0.entry_block
}

/// Close the loop `lp` once its body has been lowered, ending in block
/// `body_end` (see `for_loop_finished`). Lowering goes on in the loop's
/// exit block, which is returned.
pub fn for_loop_finish(f: &mut MirFunction, lp: &ForLoop, body_end: BlockId) -> (next: BlockId)
    requires
        body_end < old(f).blocks@.len(),
        lp.step < old(f).blocks@.len(),
        body_end != lp.step,
        old(f).locals@.len() + 1 <= u32::MAX,
        old(f).next_temp + 1 < u32::MAX,
    ensures
        next == lp.exit,
        for_loop_finished(*old(f), *final(f), *lp, body_end as int),
{
    let ghost f0 = *f;
    if matches!(f.blocks[body_end].terminator, Terminator::Unreachable) {
        f.blocks[body_end].terminator = Terminator::Goto(lp.step);
    }
    let next = f.new_temp(Ty::Int);
    f.blocks[lp.step].instructions.push(
        MirInst::BinOp {
            dest: next,
            op: BinOp::Add,
            lhs: MirValue::Use(lp.counter),
            rhs: MirValue::Literal(Literal::Int(1)),
        },
    );
    f.blocks[lp.step].instructions.push(MirInst::Assign { dest: lp.counter, value: MirValue::Use(next) });
    f.blocks[lp.step].terminator = Terminator::Goto(lp.header);
    proof {
        assert(f.blocks@[lp.step as int].instructions@ =~= f0.blocks@[lp.step as int].instructions@ + seq![
            MirInst::BinOp { dest: next, op: BinOp::Add, lhs: MirValue::Use(lp.counter), rhs: int_lit(1) },
            MirInst::Assign { dest: lp.counter, value: MirValue::Use(next) },
        ]);
    }
    lp.exit
}

} // verus!
