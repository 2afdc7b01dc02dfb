//! `vec.sort_by(|a, b| ...)` expanded in place into an exchange sort:
//!
//! ```text
//! i = 0; len = ruxen_vec_len(vec)
//! outer_header: if i < len goto outer_body else exit
//! outer_body:   j = i + 1; goto inner_header
//! inner_header: if j < len goto inner_body else outer_inc
//! inner_body:   a = ruxen_vec_get(vec, i); b = ruxen_vec_get(vec, j)
//!               <the closure body, lowered by the caller>
//!               if result > 0 goto swap else inner_inc
//! swap:         ruxen_vec_swap(vec, i, j); goto inner_inc
//! inner_inc:    j = j + 1; goto inner_header
//! outer_inc:    i = i + 1; goto outer_header
//! exit:
//! ```
//!
//! The caller lowers the closure body between `inline_sort_by_enter`, which
//! builds everything up to the bound closure parameters, and
//! `inline_sort_by_finish`, which compares its result and closes the loops.
use vstd::prelude::*;

use std::collections::HashMap;

use crate::hir::nodes::{DefId, HirClosureParam};
use crate::hir::types::{copy_ty, ty_same, Ty};
use crate::mir::lower::util::{element_type_of, local_to_value, spec_element_type_of};
use crate::mir::nodes::{
    block_is, call_is, int_lit, BasicBlock, BlockId, CmpOp, Literal, LocalId, MirFunction, MirInst, MirLocal,
    MirValue, Terminator,
};
use crate::parser::ast::BinOp;

verus! {

broadcast use vstd::std_specs::hash::group_hash_axioms;

/// The locals and blocks of an expanded `sort_by` loop.
#[derive(Debug, Clone, Copy)]
pub struct SortByLoop {
    /// The vector being sorted.
    pub vec_id: LocalId,
    /// The outer index.
    pub i_idx: LocalId,
    /// The inner index.
    pub j_idx: LocalId,
    /// The vector's length.
    pub len: LocalId,
    pub outer_header: BlockId,
    pub outer_body: BlockId,
    pub inner_header: BlockId,
    pub inner_body: BlockId,
    pub swap_block: BlockId,
    pub inner_inc: BlockId,
    pub outer_inc: BlockId,
    pub exit_block: BlockId,
}

/// The local made for the closure parameter at `k` of `ps`: a local with the
/// parameter's name and type, or, where the closure declares fewer
/// parameters, a temporary of the vector's element type `elem`.
pub open spec fn sort_param_local(l: MirLocal, ps: Seq<HirClosureParam>, k: int, elem: Ty) -> bool {
    &&& !l.mutable
    &&& if k < ps.len() {
        l.name@ == ps[k].name@ && ty_same(l.ty, ps[k].ty)
    } else {
        ty_same(l.ty, elem)
    }
}

/// How many temporaries `inline_sort_by_enter` makes for closure parameters
/// `ps`: one for each of the two that the closure does not declare.
pub open spec fn sort_param_temps(ps: Seq<HirClosureParam>) -> int {
    (if ps.len() < 1 { 1int } else { 0int }) + (if ps.len() < 2 { 1int } else { 0int })
}

/// `d` with the closure parameters that are declared bound to the locals
/// `first` and `first + 1`.
pub open spec fn bind_sort_params(d: Map<DefId, LocalId>, ps: Seq<HirClosureParam>, first: nat) -> Map<DefId, LocalId> {
    let d1 = if ps.len() >= 1 {
        d.insert(ps[0].def_id, first as u32)
    } else {
        d
    };
    if ps.len() >= 2 {
        d1.insert(ps[1].def_id, (first + 1) as u32)
    } else {
        d1
    }
}

/// `f1` is `f0` with a `sort_by` loop over `vec_id` entered from block `cur`
/// (see the module's documentation): its eight blocks appended, its eight
/// locals made, block `cur` extended to jump into it, and the closure
/// parameters `ps` bound in `inner_body`, which is where the closure body
/// goes next.
pub open spec fn sort_by_entered(
    f0: MirFunction,
    f1: MirFunction,
    cur: int,
    vec_id: LocalId,
    ps: Seq<HirClosureParam>,
    s: SortByLoop,
) -> bool {
    let n = f0.locals@.len() as int;
    let m = f0.blocks@.len() as int;
    let b = f1.blocks@;
    let c0 = f0.blocks@[cur].instructions@;
    let i = n as u32;
    let len = (n + 1) as u32;
    let outer_cond = (n + 2) as u32;
    let j = (n + 3) as u32;
    let i_plus_1 = (n + 4) as u32;
    let inner_cond = (n + 5) as u32;
    &&& s == SortByLoop {
        vec_id,
        i_idx: i,
        j_idx: j,
        len,
        outer_header: m as usize,
        outer_body: (m + 1) as usize,
        inner_header: (m + 2) as usize,
        inner_body: (m + 3) as usize,
        swap_block: (m + 4) as usize,
        inner_inc: (m + 5) as usize,
        outer_inc: (m + 6) as usize,
        exit_block: (m + 7) as usize,
    }
    // The blocks.
    &&& b.len() == m + 8
    &&& forall|k: int| 0 <= k < m && k != cur ==> #[trigger] b[k] == f0.blocks@[k]
    &&& b[cur].id == f0.blocks@[cur].id
    &&& b[cur].instructions@.len() == c0.len() + 2
    &&& b[cur].instructions@.take(c0.len() as int) == c0
    &&& b[cur].instructions@[c0.len() as int] == MirInst::Assign { dest: i, value: int_lit(0) }
    &&& call_is(b[cur].instructions@[c0.len() as int + 1], Some(len), "ruxen_vec_len"@, seq![MirValue::Use(vec_id)])
    &&& b[cur].terminator == Terminator::Goto(m as usize)
    &&& block_is(
        b[m as int],
        m as int,
        seq![MirInst::Compare { dest: outer_cond, op: CmpOp::Lt, lhs: MirValue::Use(i), rhs: MirValue::Use(len) }],
        Terminator::Branch { cond: MirValue::Use(outer_cond), then_block: (m + 1) as usize, else_block: (m + 7) as usize },
    )
    &&& block_is(
        b[m + 1],
        m + 1,
        seq![
            MirInst::BinOp { dest: i_plus_1, op: BinOp::Add, lhs: MirValue::Use(i), rhs: int_lit(1) },
            MirInst::Assign { dest: j, value: MirValue::Use(i_plus_1) },
        ],
        Terminator::Goto((m + 2) as usize),
    )
    &&& block_is(
        b[m + 2],
        m + 2,
        seq![MirInst::Compare { dest: inner_cond, op: CmpOp::Lt, lhs: MirValue::Use(j), rhs: MirValue::Use(len) }],
        Terminator::Branch { cond: MirValue::Use(inner_cond), then_block: (m + 3) as usize, else_block: (m + 6) as usize },
    )
    &&& b[m + 3].id == m + 3
    &&& b[m + 3].terminator is Unreachable
    &&& b[m + 3].instructions@.len() == 2
    &&& call_is(
        b[m + 3].instructions@[0],
        Some((n + 6) as u32),
        "ruxen_vec_get"@,
        seq![MirValue::Use(vec_id), MirValue::Use(i)],
    )
    &&& call_is(
        b[m + 3].instructions@[1],
        Some((n + 7) as u32),
        "ruxen_vec_get"@,
        seq![MirValue::Use(vec_id), MirValue::Use(j)],
    )
    &&& forall|k: int| m + 4 <= k < m + 8 ==> block_is(#[trigger] b[k], k, Seq::empty(), Terminator::Unreachable)
    // The locals.
    &&& f1.locals@.len() == n + 8
    &&& f1.locals@.take(n as int) == f0.locals@
    &&& forall|k: int| n <= k < n + 8 ==> (#[trigger] f1.locals@[k]).id == k
    &&& f1.locals@[n as int].ty == Ty::Int && f1.locals@[n + 1].ty == Ty::Int
    &&& f1.locals@[n + 2].ty == Ty::Bool && f1.locals@[n + 3].ty == Ty::Int
    &&& f1.locals@[n + 4].ty == Ty::Int && f1.locals@[n + 5].ty == Ty::Bool
    &&& forall|k: int| n <= k < n + 6 ==> !(#[trigger] f1.locals@[k]).mutable
    &&& sort_param_local(f1.locals@[n + 6], ps, 0, spec_element_type_of(f0.locals@[vec_id as int].ty))
    &&& sort_param_local(f1.locals@[n + 7], ps, 1, spec_element_type_of(f0.locals@[vec_id as int].ty))
    &&& f1.next_temp == f0.next_temp + 6 + sort_param_temps(ps)
    // Nothing else changes.
    &&& f1.name == f0.name
    &&& f1.params == f0.params
    &&& f1.return_ty == f0.return_ty
    &&& f1.entry_block == f0.entry_block
}

/// The local for the closure parameter at `k`: a named local for a declared
/// parameter (recorded in `def_to_local`), else a temporary of type `elem`.
fn sort_param(
    f: &mut MirFunction,
    def_to_local: &mut HashMap<DefId, LocalId>,
    ps: &Vec<HirClosureParam>,
    k: usize,
    elem: Ty,
) -> (l: LocalId)
    requires
        old(f).next_temp < u32::MAX,
    ensures
        l == old(f).locals@.len() as u32,
        final(f).locals@.len() == old(f).locals@.len() + 1,
        final(f).locals@.take(old(f).locals@.len() as int) == old(f).locals@,
        final(f).locals@.last().id == l,
        !final(f).locals@.last().mutable,
        k < ps@.len() ==> final(f).locals@.last().name@ == ps@[k as int].name@ && ty_same(
            final(f).locals@.last().ty,
            ps@[k as int].ty,
        ),
        k >= ps@.len() ==> final(f).locals@.last().ty == elem,
        final(f).next_temp == old(f).next_temp + (if k < ps@.len() { 0int } else { 1int }),
        final(f).blocks == old(f).blocks,
        final(f).name == old(f).name,
        final(f).params == old(f).params,
        final(f).return_ty == old(f).return_ty,
        final(f).entry_block == old(f).entry_block,
        final(def_to_local)@ == (if k < ps@.len() {
            old(def_to_local)@.insert(ps@[k as int].def_id, l)
        } else {
            old(def_to_local)@
        }),
{
    if k < ps.len() {
        let p = &ps[k];
        let l = f.new_local(p.name.as_str(), copy_ty(&p.ty), false);
        def_to_local.insert(p.def_id, l);
        l
    } else {
        f.new_temp(elem)
    }
}

/// A block with id `id`, the instructions `insts` and the terminator `t`.
fn make_block(id: BlockId, insts: Vec<MirInst>, t: Terminator) -> (b: BasicBlock)
    ensures
        b.id == id,
        b.instructions == insts,
        b.terminator == t,
{
    BasicBlock { id, instructions: insts, terminator: t }
}

/// Begin the expansion of `vec.sort_by(|a, b| ...)` for the vector in local
/// `vec_id`, emitting from block `cur` of `f`: everything up to the closure's
/// parameters bound to the two elements compared (see `sort_by_entered`).
/// The closure body is to be lowered next, into `inner_body`.
pub fn inline_sort_by_enter(
    f: &mut MirFunction,
    cur: BlockId,
    def_to_local: &mut HashMap<DefId, LocalId>,
    vec_id: LocalId,
    closure_params: &Vec<HirClosureParam>,
) -> (s: SortByLoop)
    requires
        cur < old(f).blocks@.len(),
        vec_id < old(f).locals@.len(),
        old(f).locals@.len() + 8 <= u32::MAX,
        old(f).blocks@.len() + 8 <= usize::MAX,
        old(f).next_temp + 8 < u32::MAX,
    ensures
        sort_by_entered(*old(f), *final(f), cur as int, vec_id, closure_params@, s),
        final(def_to_local)@ == bind_sort_params(
            old(def_to_local)@,
            closure_params@,
            (old(f).locals@.len() + 6) as nat,
        ),
{
    let ghost f0 = *f;
    let n = f.locals.len();
    let m = f.blocks.len();
    // The element type, for a closure parameter that is not declared.
    let elem_a = element_type_of(&f.locals[vec_id as usize].ty);
    let elem_b = element_type_of(&f.locals[vec_id as usize].ty);
    let i_idx = f.new_temp(Ty::Int);
    let len = f.new_temp(Ty::Int);
    let outer_cond = f.new_temp(Ty::Bool);
    let j_idx = f.new_temp(Ty::Int);
    let i_plus_1 = f.new_temp(Ty::Int);
    let inner_cond = f.new_temp(Ty::Bool);
    let ghost f6 = *f;
    let a_local = sort_param(f, def_to_local, closure_params, 0, elem_a);
    let b_local = sort_param(f, def_to_local, closure_params, 1, elem_b);
    let ghost f8 = *f;
    proof {
        assert(f8.locals@.take(n as int) =~= f0.locals@) by {
            assert(f8.locals@.take(n as int) =~= f6.locals@.take(n as int));
        }
        assert forall|k: int| n <= k < n + 8 implies (#[trigger] f8.locals@[k]).id == k by {
            if k < n + 6 {
                assert(f8.locals@[k] == f6.locals@[k]);
            }
        }
    }

    // Block `cur`: i = 0; len = ruxen_vec_len(vec); goto outer_header.
    f.blocks[cur].instructions.push(MirInst::Assign { dest: i_idx, value: MirValue::Literal(Literal::Int(0)) });
    let len_args = vec![MirValue::Use(vec_id)];
    assert(len_args@ =~= seq![MirValue::Use(vec_id)]);
    f.blocks[cur].instructions.push(
        MirInst::Call { dest: Some(len), callee: String::from_str("ruxen_vec_len"), args: len_args },
    );
    f.blocks[cur].terminator = Terminator::Goto(m);

    let outer_header = m;
    let outer_body = m + 1;
    let inner_header = m + 2;
    let inner_body = m + 3;
    let swap_block = m + 4;
    let inner_inc = m + 5;
    let outer_inc = m + 6;
    let exit_block = m + 7;

    // outer_header: if i < len goto outer_body else exit.
    f.blocks.push(
        make_block(
            outer_header,
            vec![MirInst::Compare { dest: outer_cond, op: CmpOp::Lt, lhs: MirValue::Use(i_idx), rhs: MirValue::Use(len) }],
            Terminator::Branch { cond: MirValue::Use(outer_cond), then_block: outer_body, else_block: exit_block },
        ),
    );
    // outer_body: j = i + 1; goto inner_header.
    f.blocks.push(
        make_block(
            outer_body,
            vec![
                MirInst::BinOp {
                    dest: i_plus_1,
                    op: BinOp::Add,
                    lhs: MirValue::Use(i_idx),
                    rhs: MirValue::Literal(Literal::Int(1)),
                },
                MirInst::Assign { dest: j_idx, value: MirValue::Use(i_plus_1) },
            ],
            Terminator::Goto(inner_header),
        ),
    );
    // inner_header: if j < len goto inner_body else outer_inc.
    f.blocks.push(
        make_block(
            inner_header,
            vec![MirInst::Compare { dest: inner_cond, op: CmpOp::Lt, lhs: MirValue::Use(j_idx), rhs: MirValue::Use(len) }],
            Terminator::Branch { cond: MirValue::Use(inner_cond), then_block: inner_body, else_block: outer_inc },
        ),
    );
    // inner_body: a = ruxen_vec_get(vec, i); b = ruxen_vec_get(vec, j).
    f.blocks.push(
        make_block(
            inner_body,
            vec![
                MirInst::Call {
                    dest: Some(a_local),
                    callee: String::from_str("ruxen_vec_get"),
                    args: vec![MirValue::Use(vec_id), MirValue::Use(i_idx)],
                },
                MirInst::Call {
                    dest: Some(b_local),
                    callee: String::from_str("ruxen_vec_get"),
                    args: vec![MirValue::Use(vec_id), MirValue::Use(j_idx)],
                },
            ],
            Terminator::Unreachable,
        ),
    );
    f.blocks.push(BasicBlock::new(swap_block));
    f.blocks.push(BasicBlock::new(inner_inc));
    f.blocks.push(BasicBlock::new(outer_inc));
    f.blocks.push(BasicBlock::new(exit_block));
    let s = SortByLoop {
        vec_id,
        i_idx,
        j_idx,
        len,
        outer_header,
        outer_body,
        inner_header,
        inner_body,
        swap_block,
        inner_inc,
        outer_inc,
        exit_block,
    };
    proof {
        let b = f.blocks@;
        assert forall|k: int| 0 <= k < m && k != cur implies #[trigger] b[k] == f0.blocks@[k] by {
            assert(b[k] == f8.blocks@[k]);
        }
        assert(b[cur as int].instructions@.take(f0.blocks@[cur as int].instructions@.len() as int)
            =~= f0.blocks@[cur as int].instructions@);
        assert forall|k: int| m + 4 <= k < m + 8 implies block_is(#[trigger] b[k], k, Seq::empty(), Terminator::Unreachable) by {
            assert(b[k].instructions@ =~= Seq::<MirInst>::empty());
        }
        assert(b[m + 1].instructions@ =~= seq![
            MirInst::BinOp { dest: i_plus_1, op: BinOp::Add, lhs: MirValue::Use(i_idx), rhs: int_lit(1) },
            MirInst::Assign { dest: j_idx, value: MirValue::Use(i_plus_1) },
        ]);
        assert(b[m as int].instructions@ =~= seq![
            MirInst::Compare { dest: outer_cond, op: CmpOp::Lt, lhs: MirValue::Use(i_idx), rhs: MirValue::Use(len) },
        ]);
        assert(b[m + 2].instructions@ =~= seq![
            MirInst::Compare { dest: inner_cond, op: CmpOp::Lt, lhs: MirValue::Use(j_idx), rhs: MirValue::Use(len) },
        ]);
    }
    s
}

/// `f1` is `f0` with the `sort_by` loop `s` closed (see the module's
/// documentation): block `body_end` (where the closure body's lowering ended,
/// with its result `result`) compares the result with 0 and goes to the
/// swap or to the inner increment; the swap, inner increment and outer
/// increment blocks are filled in.
pub open spec fn sort_by_finished(
    f0: MirFunction,
    f1: MirFunction,
    s: SortByLoop,
    body_end: int,
    result: Option<LocalId>,
) -> bool {
    let n = f0.locals@.len() as int;
    let b0 = f0.blocks@;
    let b = f1.blocks@;
    let need_swap = n as u32;
    let next_j = (n + 1) as u32;
    let next_i = (n + 2) as u32;
    let result_value = match result {
        Some(id) => MirValue::Use(id),
        None => MirValue::Unit,
    };
    &&& b.len() == b0.len()
    &&& forall|k: int|
        0 <= k < b0.len() && k != body_end && k != s.swap_block && k != s.inner_inc && k != s.outer_inc
            ==> #[trigger] b[k] == b0[k]
    &&& block_is(
        b[body_end],
        b0[body_end].id as int,
        b0[body_end].instructions@.push(MirInst::Compare { dest: need_swap, op: CmpOp::Gt, lhs: result_value, rhs: int_lit(0) }),
        Terminator::Branch { cond: MirValue::Use(need_swap), then_block: s.swap_block, else_block: s.inner_inc },
    )
    &&& b[s.swap_block as int].id == b0[s.swap_block as int].id
    &&& b[s.swap_block as int].instructions@.len() == b0[s.swap_block as int].instructions@.len() + 1
    &&& b[s.swap_block as int].instructions@.drop_last() == b0[s.swap_block as int].instructions@
    &&& call_is(
        b[s.swap_block as int].instructions@.last(),
        None,
        "ruxen_vec_swap"@,
        seq![MirValue::Use(s.vec_id), MirValue::Use(s.i_idx), MirValue::Use(s.j_idx)],
    )
    &&& b[s.swap_block as int].terminator == Terminator::Goto(s.inner_inc)
    &&& block_is(
        b[s.inner_inc as int],
        b0[s.inner_inc as int].id as int,
        b0[s.inner_inc as int].instructions@ + seq![
            MirInst::BinOp { dest: next_j, op: BinOp::Add, lhs: MirValue::Use(s.j_idx), rhs: int_lit(1) },
            MirInst::Assign { dest: s.j_idx, value: MirValue::Use(next_j) },
        ],
        Terminator::Goto(s.inner_header),
    )
    &&& block_is(
        b[s.outer_inc as int],
        b0[s.outer_inc as int].id as int,
        b0[s.outer_inc as int].instructions@ + seq![
            MirInst::BinOp { dest: next_i, op: BinOp::Add, lhs: MirValue::Use(s.i_idx), rhs: int_lit(1) },
            MirInst::Assign { dest: s.i_idx, value: MirValue::Use(next_i) },
        ],
        Terminator::Goto(s.outer_header),
    )
    &&& f1.locals@.len() == n + 3
    &&& f1.locals@.take(n as int) == f0.locals@
    &&& f1.locals@[n as int].ty == Ty::Bool && f1.locals@[n + 1].ty == Ty::Int && f1.locals@[n + 2].ty == Ty::Int
    &&& forall|k: int| n <= k < n + 3 ==> (#[trigger] f1.locals@[k]).id == k && !f1.locals@[k].mutable
    &&& f1.next_temp == f0.next_temp + 3
    &&& f1.name == f0.name
    &&& f1.params == f0.params
    &&& f1.return_ty == f0.return_ty
    &&& f1.entry_block == f0.entry_block
}

/// Finish the expansion of a `sort_by` loop `s` once the closure body has
/// been lowered, ending in block `body_end` with the result `result`
/// (see `sort_by_finished`). Lowering goes on in the loop's exit block,
/// which is returned.
pub fn inline_sort_by_finish(
    f: &mut MirFunction,
    s: &SortByLoop,
    body_end: BlockId,
    result: Option<LocalId>,
) -> (next: BlockId)
    requires
        body_end < old(f).blocks@.len(),
        s.swap_block < old(f).blocks@.len(),
        s.inner_inc < old(f).blocks@.len(),
        s.outer_inc < old(f).blocks@.len(),
        body_end != s.swap_block,
        body_end != s.inner_inc,
        body_end != s.outer_inc,
        s.swap_block != s.inner_inc,
        s.swap_block != s.outer_inc,
        s.inner_inc != s.outer_inc,
        old(f).locals@.len() + 3 <= u32::MAX,
        old(f).next_temp + 3 < u32::MAX,
    ensures
        next == s.exit_block,
        sort_by_finished(*old(f), *final(f), *s, body_end as int, result),
{
    let ghost f0 = *f;
    let n = f.locals.len();
    let need_swap = f.new_temp(Ty::Bool);
    let next_j = f.new_temp(Ty::Int);
    let next_i = f.new_temp(Ty::Int);
    let ghost f3 = *f;

    // body_end: need_swap = result > 0; if need_swap goto swap else inner_inc.
    f.blocks[body_end].instructions.push(
        MirInst::Compare {
            dest: need_swap,
            op: CmpOp::Gt,
            lhs: local_to_value(result),
            rhs: MirValue::Literal(Literal::Int(0)),
        },
    );
    f.blocks[body_end].terminator = Terminator::Branch {
        cond: MirValue::Use(need_swap),
        then_block: s.swap_block,
        else_block: s.inner_inc,
    };
    // swap: ruxen_vec_swap(vec, i, j); goto inner_inc.
    f.blocks[s.swap_block].instructions.push(
        MirInst::Call {
            dest: None,
            callee: String::from_str("ruxen_vec_swap"),
            args: vec![MirValue::Use(s.vec_id), MirValue::Use(s.i_idx), MirValue::Use(s.j_idx)],
        },
    );
    f.blocks[s.swap_block].terminator = Terminator::Goto(s.inner_inc);
    // inner_inc: j = j + 1; goto inner_header.
    f.blocks[s.inner_inc].instructions.push(
        MirInst::BinOp {
            dest: next_j,
            op: BinOp::Add,
            lhs: MirValue::Use(s.j_idx),
            rhs: MirValue::Literal(Literal::Int(1)),
        },
    );
    f.blocks[s.inner_inc].instructions.push(MirInst::Assign { dest: s.j_idx, value: MirValue::Use(next_j) });
    f.blocks[s.inner_inc].terminator = Terminator::Goto(s.inner_header);
    // outer_inc: i = i + 1; goto outer_header.
    f.blocks[s.outer_inc].instructions.push(
        MirInst::BinOp {
            dest: next_i,
            op: BinOp::Add,
            lhs: MirValue::Use(s.i_idx),
            rhs: MirValue::Literal(Literal::Int(1)),
        },
    );
    f.blocks[s.outer_inc].instructions.push(MirInst::Assign { dest: s.i_idx, value: MirValue::Use(next_i) });
    f.blocks[s.outer_inc].terminator = Terminator::Goto(s.outer_header);
    proof {
        let b = f.blocks@;
        assert(b[s.inner_inc as int].instructions@ =~= f0.blocks@[s.inner_inc as int].instructions@ + seq![
            MirInst::BinOp { dest: next_j, op: BinOp::Add, lhs: MirValue::Use(s.j_idx), rhs: int_lit(1) },
            MirInst::Assign { dest: s.j_idx, value: MirValue::Use(next_j) },
        ]);
        assert(b[s.outer_inc as int].instructions@ =~= f0.blocks@[s.outer_inc as int].instructions@ + seq![
            MirInst::BinOp { dest: next_i, op: BinOp::Add, lhs: MirValue::Use(s.i_idx), rhs: int_lit(1) },
            MirInst::Assign { dest: s.i_idx, value: MirValue::Use(next_i) },
        ]);
        assert(b[s.swap_block as int].instructions@.drop_last() =~= f0.blocks@[s.swap_block as int].instructions@);
        assert(f3.locals@.take(n as int) =~= f0.locals@);
    }
    s.exit_block
}

} // verus!
