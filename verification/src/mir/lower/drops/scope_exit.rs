//! Scope-exit drops: which locals own a fresh allocation, which alias a
//! returned value, and the drop calls placed before each `return`.
use vstd::prelude::*;

use std::collections::HashSet;

use crate::mir::lower::captures::clone_def_set;
use crate::hir::types::Ty;
use crate::mir::lower::runtime_abi::{
    callee_ownership, is_move_by_ffi, move_by_ffi_callees, spec_args_are_borrowed, spec_arg_transfer_bits, spec_borrows_first_arg,
    spec_result_fresh, transfers_arg, ResultOwnership,
};
use crate::mir::nodes::{BasicBlock, LocalId, MirFunction, MirInst, MirLocal, MirValue, Terminator};
use crate::text::{ends_with, has_prefix, has_suffix, push_char, starts_with, str_eq, substring, table_contains};

verus! {

broadcast use vstd::std_specs::hash::group_hash_axioms;

/// The instructions of `blocks`, block after block.
pub open spec fn all_insts(blocks: Seq<BasicBlock>) -> Seq<MirInst>
    decreases blocks.len(),
{
    if blocks.len() == 0 {
        Seq::empty()
    } else {
        all_insts(blocks.drop_last()) + blocks.last().instructions@
    }
}

proof fn lemma_all_insts_step(blocks: Seq<BasicBlock>, b: int)
    requires
        0 <= b < blocks.len(),
    ensures
        all_insts(blocks.take(b + 1)) == all_insts(blocks.take(b)) + blocks[b].instructions@,
{
    assert(blocks.take(b + 1).drop_last() =~= blocks.take(b));
}

// ---------------------------------------------------------------------------
// Locals that alias a returned value.
// ---------------------------------------------------------------------------

/// If `inst` copies a local into another (`d = s` with a local `s`, or a
/// copy or move), the pair `(d, s)`.
pub open spec fn alias_edge(inst: MirInst) -> Option<(LocalId, LocalId)> {
    match inst {
        MirInst::Assign { dest, value: MirValue::Use(src) } => Some((dest, src)),
        MirInst::Copy { dest, src } => Some((dest, src)),
        MirInst::Move { dest, src } => Some((dest, src)),
        _ => None,
    }
}

/// Following `inst` backwards from a local of `from` leads into `to`.
pub open spec fn edge_closed(inst: MirInst, from: Set<LocalId>, to: Set<LocalId>) -> bool {
    match alias_edge(inst) {
        Some((d, s)) => from.contains(d) ==> to.contains(s),
        None => true,
    }
}

/// `set` is closed under following the copies of `insts` backwards: the
/// source of a copy into a local of `set` is in `set`.
pub open spec fn alias_closed(insts: Seq<MirInst>, set: Set<LocalId>) -> bool {
    forall|k: int| 0 <= k < insts.len() ==> edge_closed(#[trigger] insts[k], set, set)
}

/// The local that `inst` copies from, if it is a copy.
pub open spec fn alias_source(inst: MirInst) -> Option<LocalId> {
    match alias_edge(inst) {
        Some(p) => Some(p.1),
        None => None,
    }
}

/// The sources of all the copies of `insts`.
pub open spec fn alias_sources(insts: Seq<MirInst>) -> Set<LocalId> {
    Set::new(|s: LocalId| exists|k: int| 0 <= k < insts.len() && #[trigger] alias_source(insts[k]) == Some(s))
}

proof fn lemma_alias_sources_finite(insts: Seq<MirInst>)
    ensures
        alias_sources(insts).finite(),
    decreases insts.len(),
{
    if insts.len() == 0 {
        assert(alias_sources(insts) =~= Set::<LocalId>::empty());
    } else {
        let init = insts.drop_last();
        lemma_alias_sources_finite(init);
        let last = match alias_edge(insts.last()) {
            Some(p) => set![p.1],
            None => Set::<LocalId>::empty(),
        };
        assert forall|s: LocalId| alias_sources(insts).contains(s) implies alias_sources(init).union(last).contains(s) by {
            let k = choose|k: int| 0 <= k < insts.len() && #[trigger] alias_source(insts[k]) == Some(s);
            if k < init.len() {
                assert(init[k] == insts[k]);
            }
        }
        assert(alias_sources(insts).subset_of(alias_sources(init).union(last)));
        vstd::set_lib::lemma_set_subset_finite(alias_sources(init).union(last), alias_sources(insts));
    }
}

/// One pass over `insts`, which stand in `full` after the instructions
/// `before`: every copy into a local of the chain adds its source (visited
/// in order, so a source added early counts later on). Returns whether the
/// chain grew.
fn alias_pass(
    insts: &Vec<MirInst>,
    chain: &mut HashSet<LocalId>,
    Ghost(seeds): Ghost<Set<LocalId>>,
    Ghost(start): Ghost<Set<LocalId>>,
    Ghost(full): Ghost<Seq<MirInst>>,
    Ghost(before): Ghost<Seq<MirInst>>,
) -> (grew: bool)
    requires
        before + insts@ == full.take((before.len() + insts@.len()) as int),
        before.len() + insts@.len() <= full.len(),
        start.subset_of(old(chain)@),
        forall|k: int| 0 <= k < before.len() ==> edge_closed(#[trigger] before[k], start, old(chain)@),
        forall|s: Set<LocalId>|
            #[trigger] alias_closed(full, s) && seeds.subset_of(s) ==> old(chain)@.subset_of(s),
    ensures
        old(chain)@.subset_of(final(chain)@),
        final(chain)@.subset_of(old(chain)@.union(alias_sources(full))),
        grew ==> exists|x: LocalId| final(chain)@.contains(x) && !old(chain)@.contains(x),
        !grew ==> final(chain)@ == old(chain)@,
        forall|k: int|
            0 <= k < (before + insts@).len() ==> edge_closed(#[trigger] (before + insts@)[k], start, final(chain)@),
        forall|s: Set<LocalId>|
            #[trigger] alias_closed(full, s) && seeds.subset_of(s) ==> final(chain)@.subset_of(s),
{
    let ghost whole = before + insts@;
    let ghost c0 = chain@;
    let mut grew = false;
    let mut i: usize = 0;
    while i < insts.len()
        invariant
            i <= insts@.len(),
            whole == before + insts@,
            whole == full.take(whole.len() as int),
            whole.len() <= full.len(),
            start.subset_of(c0),
            c0.subset_of(chain@),
            chain@.subset_of(c0.union(alias_sources(full))),
            grew ==> exists|x: LocalId| chain@.contains(x) && !c0.contains(x),
            !grew ==> chain@ == c0,
            forall|k: int| 0 <= k < before.len() + i ==> edge_closed(#[trigger] whole[k], start, chain@),
            forall|s: Set<LocalId>|
                #[trigger] alias_closed(full, s) && seeds.subset_of(s) ==> chain@.subset_of(s),
        decreases insts@.len() - i,
    {
        let ghost c1 = chain@;
        let ghost j = before.len() + i;
        assert(whole[j] == insts@[i as int]);
        assert(full[j] == whole[j]);
        let mut added = false;
        match &insts[i] {
            MirInst::Assign { dest, value: MirValue::Use(src) } => {
                if chain.contains(dest) {
                    added = chain.insert(*src);
                }
            },
            MirInst::Copy { dest, src } => {
                if chain.contains(dest) {
                    added = chain.insert(*src);
                }
            },
            MirInst::Move { dest, src } => {
                if chain.contains(dest) {
                    added = chain.insert(*src);
                }
            },
            _ => {},
        }
        proof {
            match alias_edge(insts@[i as int]) {
                Some(p) => {
                    assert(alias_source(full[j]) == Some(p.1));
                    assert(alias_sources(full).contains(p.1));
                    assert forall|s: Set<LocalId>|
                        #[trigger] alias_closed(full, s) && seeds.subset_of(s) implies chain@.subset_of(s) by {
                        assert(c1.subset_of(s));
                        assert(edge_closed(full[j], s, s));
                    }
                },
                None => {},
            }
            if !added {
                assert(chain@ =~= c1);
            } else {
                assert(!c0.contains((alias_edge(insts@[i as int])->0).1));
            }
            assert forall|k: int| 0 <= k < before.len() + i + 1 implies edge_closed(#[trigger] whole[k], start, chain@) by {
                if k < before.len() + i {
                    assert(edge_closed(whole[k], start, c1));
                }
            }
        }
        grew = grew || added;
        i = i + 1;
    }
    grew
}

proof fn lemma_take_all_insts(blocks: Seq<BasicBlock>, b: int)
    requires
        0 <= b <= blocks.len(),
    ensures
        all_insts(blocks.take(b)) == all_insts(blocks).take(all_insts(blocks.take(b)).len() as int),
        all_insts(blocks.take(b)).len() <= all_insts(blocks).len(),
    decreases blocks.len() - b,
{
    if b < blocks.len() {
        lemma_take_all_insts(blocks, b + 1);
        lemma_all_insts_step(blocks, b);
        let x = all_insts(blocks.take(b));
        let y = all_insts(blocks.take(b + 1));
        assert(y.take(x.len() as int) =~= x);
    } else {
        assert(blocks.take(b) =~= blocks);
    }
}

/// The sources of copies in `all` not yet in `chain`.
spec fn missing_sources(all: Seq<MirInst>, chain: Set<LocalId>) -> Set<LocalId> {
    alias_sources(all).difference(chain)
}

/// The least set holding `seeds` and closed under following the copies of
/// `insts` backwards.
pub open spec fn return_alias_set(insts: Seq<MirInst>, seeds: Set<LocalId>) -> Set<LocalId> {
    Set::new(|l: LocalId| forall|s: Set<LocalId>| #[trigger] alias_closed(insts, s) && seeds.subset_of(s) ==> s.contains(l))
}

/// The locals whose value may flow into a returned value: the least set
/// that holds `seed_locals` and, with any local, the source of every copy
/// into it (`d = s`, copies and moves, anywhere in the function). Computed
/// by repeated passes until a pass adds nothing.
pub fn compute_return_alias_chain(func: &MirFunction, seed_locals: &HashSet<LocalId>) -> (r: HashSet<LocalId>)
    ensures
        seed_locals@.subset_of(r@),
        alias_closed(all_insts(func.blocks@), r@),
        forall|s: Set<LocalId>|
            #[trigger] alias_closed(all_insts(func.blocks@), s) && seed_locals@.subset_of(s) ==> r@.subset_of(s),
        r@ == return_alias_set(all_insts(func.blocks@), seed_locals@),
{
    let ghost all = all_insts(func.blocks@);
    let ghost seeds = seed_locals@;
    proof {
        lemma_alias_sources_finite(all);
    }
    let mut chain = clone_def_set(seed_locals);
    let mut changed = true;
    while changed
        invariant
            all == all_insts(func.blocks@),
            seeds == seed_locals@,
            alias_sources(all).finite(),
            seeds.subset_of(chain@),
            !changed ==> alias_closed(all, chain@),
            forall|s: Set<LocalId>|
                #[trigger] alias_closed(all, s) && seeds.subset_of(s) ==> chain@.subset_of(s),
        decreases missing_sources(all, chain@).len() + (if changed { 1int } else { 0int }),
    {
        let ghost start = chain@;
        let mut grew = false;
        let mut b: usize = 0;
        proof {
            assert(func.blocks@.take(0) =~= Seq::<BasicBlock>::empty());
            assert(all_insts(func.blocks@.take(0)) =~= Seq::<MirInst>::empty());
        }
        while b < func.blocks.len()
            invariant
                b <= func.blocks@.len(),
                all == all_insts(func.blocks@),
                start.subset_of(chain@),
                chain@.subset_of(start.union(alias_sources(all))),
                grew ==> exists|x: LocalId| chain@.contains(x) && !start.contains(x),
                !grew ==> chain@ == start,
                forall|k: int|
                    0 <= k < all_insts(func.blocks@.take(b as int)).len() ==> edge_closed(
                        #[trigger] all_insts(func.blocks@.take(b as int))[k],
                        start,
                        chain@,
                    ),
                forall|s: Set<LocalId>|
                    #[trigger] alias_closed(all, s) && seeds.subset_of(s) ==> chain@.subset_of(s),
                seeds.subset_of(start),
            decreases func.blocks@.len() - b,
        {
            proof {
                lemma_all_insts_step(func.blocks@, b as int);
                lemma_take_all_insts(func.blocks@, b + 1);
            }
            let ghost pre = all_insts(func.blocks@.take(b as int));
            let g = alias_pass(&func.blocks[b].instructions, &mut chain, Ghost(seeds), Ghost(start), Ghost(all), Ghost(pre));
            grew = grew || g;
            b = b + 1;
        }
        proof {
            assert(func.blocks@.take(func.blocks@.len() as int) =~= func.blocks@);
            if !grew {
                assert forall|k: int| 0 <= k < all.len() implies edge_closed(#[trigger] all[k], chain@, chain@) by {
                    assert(edge_closed(all[k], start, chain@));
                }
            } else {
                let x = choose|x: LocalId| chain@.contains(x) && !start.contains(x);
                let d0 = missing_sources(all, start);
                let d1 = missing_sources(all, chain@);
                assert(d0.contains(x));
                assert(d1.subset_of(d0.remove(x)));
                vstd::set_lib::lemma_len_subset(d0, alias_sources(all));
                vstd::set_lib::lemma_len_subset(d1, d0.remove(x));
            }
        }
        changed = grew;
    }
    proof {
        assert(chain@ =~= return_alias_set(all, seeds));
    }
    chain
}

// ---------------------------------------------------------------------------
// Locals that own a fresh allocation.
// ---------------------------------------------------------------------------

/// The ownership analysis state: the locals rooted in a fresh allocation
/// that the frame owns, the locals tainted for good, and the payload
/// pointers read out of a `Result` or an `Option`.
pub type OwnState = (Set<LocalId>, Set<LocalId>, Set<LocalId>);

/// `l` is tainted for good and loses any rooting.
pub open spec fn taint(st: OwnState, l: LocalId) -> OwnState {
    (st.0.remove(l), st.1.insert(l), st.2)
}

/// `l` becomes rooted.
pub open spec fn root(st: OwnState, l: LocalId) -> OwnState {
    (st.0.insert(l), st.1, st.2)
}

/// The type of the first local of `locals` with id `id`.
pub open spec fn local_ty_of(locals: Seq<MirLocal>, id: LocalId) -> Option<Ty>
    decreases locals.len(),
{
    if locals.len() == 0 {
        None
    } else if locals[0].id == id {
        Some(locals[0].ty)
    } else {
        local_ty_of(locals.drop_first(), id)
    }
}

/// A `Result` or an `Option`.
pub open spec fn is_sum_ty(t: Option<Ty>) -> bool {
    match t {
        Some(Ty::Result(_, _)) => true,
        Some(Ty::Option(_)) => true,
        _ => false,
    }
}

/// A type whose value owns heap memory when read out of a payload: a
/// class, a struct, a string, an array, a map or a set.
pub open spec fn owns_heap_ty(t: Option<Ty>) -> bool {
    match t {
        Some(Ty::Class { .. }) => true,
        Some(Ty::Struct { .. }) => true,
        Some(Ty::String) => true,
        Some(Ty::Array(_)) => true,
        Some(Ty::Mapping(_, _)) => true,
        Some(Ty::SetOf(_)) => true,
        _ => false,
    }
}

/// `dest = src` between locals: a rooted `src` hands its allocation to a
/// `dest` that is not tainted (and is tainted itself); otherwise `dest` is.
pub open spec fn copy_step(st: OwnState, dest: LocalId, src: LocalId) -> OwnState {
    if st.0.contains(src) && !st.1.contains(dest) {
        (st.0.remove(src).insert(dest), st.1.insert(src), st.2)
    } else {
        taint(st, dest)
    }
}

/// Argument `idx` of a call of `callee`: a local argument is tainted unless
/// the callee borrows it (its first argument, or all arguments that it does
/// not take over).
pub open spec fn call_arg_step(st: OwnState, callee: Seq<char>, idx: int, arg: MirValue) -> OwnState {
    match arg {
        MirValue::Use(l) => if spec_borrows_first_arg(callee) && idx == 0 {
            st
        } else if transfers_arg(spec_arg_transfer_bits(callee), idx) {
            taint(st, l)
        } else if spec_args_are_borrowed(callee) {
            st
        } else {
            taint(st, l)
        },
        _ => st,
    }
}

/// The arguments of a call of `callee`, in order.
pub open spec fn call_args_run(st: OwnState, callee: Seq<char>, args: Seq<MirValue>) -> OwnState
    decreases args.len(),
{
    if args.len() == 0 {
        st
    } else {
        call_arg_step(call_args_run(st, callee, args.drop_last()), callee, args.len() - 1, args.last())
    }
}

/// The arguments of an indirect call: every local argument is tainted.
pub open spec fn indirect_args_run(st: OwnState, args: Seq<MirValue>) -> OwnState
    decreases args.len(),
{
    if args.len() == 0 {
        st
    } else {
        let s1 = indirect_args_run(st, args.drop_last());
        match args.last() {
            MirValue::Use(l) => taint(s1, l),
            _ => s1,
        }
    }
}

/// The analysis of one instruction.
pub open spec fn own_step(locals: Seq<MirLocal>, st: OwnState, inst: MirInst) -> OwnState {
    match inst {
        MirInst::Alloc { dest, .. } => if st.1.contains(dest) { st } else { root(st, dest) },
        MirInst::StackAlloc { dest, .. } => if st.1.contains(dest) { st } else { root(st, dest) },
        MirInst::Assign { dest, value } => match value {
            MirValue::Use(src) => copy_step(st, dest, src),
            _ => taint(st, dest),
        },
        MirInst::Copy { dest, src } => copy_step(st, dest, src),
        MirInst::Move { dest, src } => copy_step(st, dest, src),
        MirInst::GetPayload { dest, src, .. } => {
            let s1 = if is_sum_ty(local_ty_of(locals, src)) { (st.0, st.1, st.2.insert(dest)) } else { st };
            taint(s1, dest)
        },
        MirInst::GetField { dest, base, .. } => if st.2.contains(base) && owns_heap_ty(local_ty_of(locals, dest))
            && !st.1.contains(dest) {
            root(st, dest)
        } else {
            taint(st, dest)
        },
        MirInst::BinOp { dest, .. } => taint(st, dest),
        MirInst::Negate { dest, .. } => taint(st, dest),
        MirInst::Not { dest, .. } => taint(st, dest),
        MirInst::Compare { dest, .. } => taint(st, dest),
        MirInst::GetTag { dest, .. } => taint(st, dest),
        MirInst::Ref { dest, .. } => taint(st, dest),
        MirInst::RefMut { dest, .. } => taint(st, dest),
        MirInst::StringLiteral { dest, .. } => taint(st, dest),
        MirInst::FuncAddr { dest, .. } => taint(st, dest),
        MirInst::DataAddr { dest, .. } => taint(st, dest),
        MirInst::Call { dest, callee, args } => {
            let s1 = match dest {
                Some(d) => if spec_result_fresh(callee@) && !st.1.contains(d) { root(st, d) } else { taint(st, d) },
                None => st,
            };
            call_args_run(s1, callee@, args@)
        },
        MirInst::CallIndirect { dest, args, .. } => {
            let s1 = match dest {
                Some(d) => taint(st, d),
                None => st,
            };
            indirect_args_run(s1, args@)
        },
        MirInst::SetField { value, .. } => match value {
            MirValue::Use(l) => taint(st, l),
            _ => st,
        },
        _ => st,
    }
}

/// The analysis of `insts` in order, from nothing rooted or tainted.
pub open spec fn own_run(locals: Seq<MirLocal>, insts: Seq<MirInst>) -> OwnState
    decreases insts.len(),
{
    if insts.len() == 0 {
        (Set::empty(), Set::empty(), Set::empty())
    } else {
        own_step(locals, own_run(locals, insts.drop_last()), insts.last())
    }
}

/// The type of the first local with id `id`.
fn find_local_ty<'a>(locals: &'a Vec<MirLocal>, id: LocalId) -> (r: Option<&'a Ty>)
    ensures
        match r {
            Some(t) => local_ty_of(locals@, id) == Some(*t),
            None => local_ty_of(locals@, id) is None,
        },
{
    let mut i: usize = 0;
    assert(locals@.skip(0) =~= locals@);
    while i < locals.len()
        invariant
            i <= locals@.len(),
            local_ty_of(locals@.skip(i as int), id) == local_ty_of(locals@, id),
        decreases locals@.len() - i,
    {
        assert(locals@.skip(i as int)[0] == locals@[i as int]);
        assert(locals@.skip(i as int).drop_first() =~= locals@.skip(i + 1));
        if locals[i].id == id {
            return Some(&locals[i].ty);
        }
        i = i + 1;
    }
    None
}

fn taint_local(rooted: &mut HashSet<LocalId>, tainted: &mut HashSet<LocalId>, l: LocalId)
    ensures
        final(rooted)@ == old(rooted)@.remove(l),
        final(tainted)@ == old(tainted)@.insert(l),
{
    tainted.insert(l);
    rooted.remove(&l);
}

fn copy_local(rooted: &mut HashSet<LocalId>, tainted: &mut HashSet<LocalId>, dest: LocalId, src: LocalId)
    ensures
        (final(rooted)@, final(tainted)@) == {
            let s = copy_step((old(rooted)@, old(tainted)@, Set::empty()), dest, src);
            (s.0, s.1)
        },
{
    if rooted.contains(&src) && !tainted.contains(&dest) {
        tainted.insert(src);
        rooted.remove(&src);
        rooted.insert(dest);
    } else {
        taint_local(rooted, tainted, dest);
    }
}

fn own_call(
    rooted: &mut HashSet<LocalId>,
    tainted: &mut HashSet<LocalId>,
    dest: &Option<LocalId>,
    callee: &String,
    args: &Vec<MirValue>,
    Ghost(payload): Ghost<Set<LocalId>>,
)
    ensures
        (final(rooted)@, final(tainted)@, payload) == call_args_run(
            match *dest {
                Some(d) => if spec_result_fresh(callee@) && !old(tainted)@.contains(d) {
                    root((old(rooted)@, old(tainted)@, payload), d)
                } else {
                    taint((old(rooted)@, old(tainted)@, payload), d)
                },
                None => (old(rooted)@, old(tainted)@, payload),
            },
            callee@,
            args@,
        ),
{
    let abi = callee_ownership(callee.as_str());
    match dest {
        Some(d) => {
            if abi.result == ResultOwnership::Fresh && !tainted.contains(d) {
                rooted.insert(*d);
            } else {
                taint_local(rooted, tainted, *d);
            }
        },
        None => {},
    }
    let ghost s0: OwnState = (rooted@, tainted@, payload);
    let mut idx: usize = 0;
    assert(args@.take(0) =~= Seq::<MirValue>::empty());
    while idx < args.len()
        invariant
            idx <= args@.len(),
            abi.borrows_first_arg == spec_borrows_first_arg(callee@),
            abi.arg_transfer.bits() == spec_arg_transfer_bits(callee@),
            abi.args_are_borrowed == spec_args_are_borrowed(callee@),
            (rooted@, tainted@, payload) == call_args_run(s0, callee@, args@.take(idx as int)),
        decreases args@.len() - idx,
    {
        assert(args@.take(idx + 1).drop_last() =~= args@.take(idx as int));
        match &args[idx] {
            MirValue::Use(l) => {
                if abi.borrows_first_arg && idx == 0 {
                } else if idx < 8 && abi.arg_transfer.contains(idx) {
                    taint_local(rooted, tainted, *l);
                } else if abi.args_are_borrowed {
                } else {
                    taint_local(rooted, tainted, *l);
                }
            },
            _ => {},
        }
        idx = idx + 1;
    }
    assert(args@.take(args@.len() as int) =~= args@);
}

fn own_indirect(
    rooted: &mut HashSet<LocalId>,
    tainted: &mut HashSet<LocalId>,
    dest: &Option<LocalId>,
    args: &Vec<MirValue>,
    Ghost(payload): Ghost<Set<LocalId>>,
)
    ensures
        (final(rooted)@, final(tainted)@, payload) == indirect_args_run(
            match *dest {
                Some(d) => taint((old(rooted)@, old(tainted)@, payload), d),
                None => (old(rooted)@, old(tainted)@, payload),
            },
            args@,
        ),
{
    match dest {
        Some(d) => taint_local(rooted, tainted, *d),
        None => {},
    }
    let ghost s0: OwnState = (rooted@, tainted@, payload);
    let mut idx: usize = 0;
    assert(args@.take(0) =~= Seq::<MirValue>::empty());
    while idx < args.len()
        invariant
            idx <= args@.len(),
            (rooted@, tainted@, payload) == indirect_args_run(s0, args@.take(idx as int)),
        decreases args@.len() - idx,
    {
        assert(args@.take(idx + 1).drop_last() =~= args@.take(idx as int));
        match &args[idx] {
            MirValue::Use(l) => taint_local(rooted, tainted, *l),
            _ => {},
        }
        idx = idx + 1;
    }
    assert(args@.take(args@.len() as int) =~= args@);
}

fn own_inst(
    locals: &Vec<MirLocal>,
    inst: &MirInst,
    rooted: &mut HashSet<LocalId>,
    tainted: &mut HashSet<LocalId>,
    payload: &mut HashSet<LocalId>,
)
    ensures
        (final(rooted)@, final(tainted)@, final(payload)@) == own_step(
            locals@,
            (old(rooted)@, old(tainted)@, old(payload)@),
            *inst,
        ),
{
    match inst {
        MirInst::Alloc { dest, .. } => {
            if !tainted.contains(dest) {
                rooted.insert(*dest);
            }
        },
        MirInst::StackAlloc { dest, .. } => {
            if !tainted.contains(dest) {
                rooted.insert(*dest);
            }
        },
        MirInst::Assign { dest, value } => match value {
            MirValue::Use(src) => copy_local(rooted, tainted, *dest, *src),
            _ => taint_local(rooted, tainted, *dest),
        },
        MirInst::Copy { dest, src } => copy_local(rooted, tainted, *dest, *src),
        MirInst::Move { dest, src } => copy_local(rooted, tainted, *dest, *src),
        MirInst::GetPayload { dest, src, .. } => {
            let sum = match find_local_ty(locals, *src) {
                Some(Ty::Result(_, _)) => true,
                Some(Ty::Option(_)) => true,
                _ => false,
            };
            if sum {
                payload.insert(*dest);
            }
            taint_local(rooted, tainted, *dest);
        },
        MirInst::GetField { dest, base, .. } => {
            let owns_heap = match find_local_ty(locals, *dest) {
                Some(Ty::Class { .. }) => true,
                Some(Ty::Struct { .. }) => true,
                Some(Ty::String) => true,
                Some(Ty::Array(_)) => true,
                Some(Ty::Mapping(_, _)) => true,
                Some(Ty::SetOf(_)) => true,
                _ => false,
            };
            if payload.contains(base) && owns_heap && !tainted.contains(dest) {
                rooted.insert(*dest);
            } else {
                taint_local(rooted, tainted, *dest);
            }
        },
        MirInst::BinOp { dest, .. } => taint_local(rooted, tainted, *dest),
        MirInst::Negate { dest, .. } => taint_local(rooted, tainted, *dest),
        MirInst::Not { dest, .. } => taint_local(rooted, tainted, *dest),
        MirInst::Compare { dest, .. } => taint_local(rooted, tainted, *dest),
        MirInst::GetTag { dest, .. } => taint_local(rooted, tainted, *dest),
        MirInst::Ref { dest, .. } => taint_local(rooted, tainted, *dest),
        MirInst::RefMut { dest, .. } => taint_local(rooted, tainted, *dest),
        MirInst::StringLiteral { dest, .. } => taint_local(rooted, tainted, *dest),
        MirInst::FuncAddr { dest, .. } => taint_local(rooted, tainted, *dest),
        MirInst::DataAddr { dest, .. } => taint_local(rooted, tainted, *dest),
        MirInst::Call { dest, callee, args } => own_call(rooted, tainted, dest, callee, args, Ghost(payload@)),
        MirInst::CallIndirect { dest, args, .. } => own_indirect(rooted, tainted, dest, args, Ghost(payload@)),
        MirInst::SetField { value, .. } => match value {
            MirValue::Use(l) => taint_local(rooted, tainted, *l),
            _ => {},
        },
        MirInst::SetTag { .. } | MirInst::Drop { .. } | MirInst::Nop => {},
    }
}

/// The locals that own a fresh allocation exclusively at the end of the
/// function, by one forward pass over its instructions in block order (see
/// `own_step`): an allocation, a call that returns a fresh allocation, or
/// an owned payload field roots its destination; a copy hands the
/// allocation on; passing a local to a callee that takes it, storing it in
/// an aggregate, or defining it any other way taints it for good.
pub fn compute_dealloc_safe_locals(func: &MirFunction) -> (r: HashSet<LocalId>)
    ensures
        r@ == own_run(func.locals@, all_insts(func.blocks@)).0,
{
    let mut rooted: HashSet<LocalId> = HashSet::new();
    let mut tainted: HashSet<LocalId> = HashSet::new();
    let mut payload: HashSet<LocalId> = HashSet::new();
    let mut b: usize = 0;
    proof {
        assert(func.blocks@.take(0) =~= Seq::<BasicBlock>::empty());
        assert(all_insts(func.blocks@.take(0)) =~= Seq::<MirInst>::empty());
    }
    while b < func.blocks.len()
        invariant
            b <= func.blocks@.len(),
            (rooted@, tainted@, payload@) == own_run(func.locals@, all_insts(func.blocks@.take(b as int))),
        decreases func.blocks@.len() - b,
    {
        let insts = &func.blocks[b].instructions;
        let ghost pre = all_insts(func.blocks@.take(b as int));
        proof {
            lemma_all_insts_step(func.blocks@, b as int);
            assert(pre + insts@.take(0) =~= pre);
        }
        let mut i: usize = 0;
        while i < insts.len()
            invariant
                i <= insts@.len(),
                (rooted@, tainted@, payload@) == own_run(func.locals@, pre + insts@.take(i as int)),
            decreases insts@.len() - i,
        {
            proof {
                assert((pre + insts@.take(i + 1)).drop_last() =~= pre + insts@.take(i as int));
                assert((pre + insts@.take(i + 1)).last() == insts@[i as int]);
            }
            own_inst(&func.locals, &insts[i], &mut rooted, &mut tainted, &mut payload);
            i = i + 1;
        }
        proof {
            assert(insts@.take(insts@.len() as int) =~= insts@);
        }
        b = b + 1;
    }
    proof {
        assert(func.blocks@.take(func.blocks@.len() as int) =~= func.blocks@);
    }
    rooted
}

// ---------------------------------------------------------------------------
// Drops at scope exit.
// ---------------------------------------------------------------------------

/// The locals among `args`.
pub open spec fn arg_locals(args: Seq<MirValue>) -> Set<LocalId>
    decreases args.len(),
{
    if args.len() == 0 {
        Set::empty()
    } else {
        arg_locals(args.drop_last()).union(
            match args.last() {
                MirValue::Use(l) => set![l],
                _ => Set::empty(),
            },
        )
    }
}

/// The locals that `inst` moves into a runtime-owned structure: the local
/// arguments of a call of a move-by-FFI callee.
pub open spec fn moved_by(inst: MirInst) -> Set<LocalId> {
    match inst {
        MirInst::Call { callee, args, .. } => if table_contains(move_by_ffi_callees(), callee@) {
            arg_locals(args@)
        } else {
            Set::empty()
        },
        _ => Set::empty(),
    }
}

/// The locals that the instructions of `insts` move into runtime-owned
/// structures.
pub open spec fn moved_in(insts: Seq<MirInst>) -> Set<LocalId>
    decreases insts.len(),
{
    if insts.len() == 0 {
        Set::empty()
    } else {
        moved_in(insts.drop_last()).union(moved_by(insts.last()))
    }
}

/// A class, struct or enum: heap-allocated by the code generator.
pub open spec fn is_user_aggregate(t: Ty) -> bool {
    t is Class || t is Struct || t is Enum
}

/// A string, array, map or set: heap-allocated by its built-in constructor.
pub open spec fn is_builtin_heap(t: Ty) -> bool {
    t is String || t is Array || t is Mapping || t is SetOf
}

/// The class `name` has a user `drop`: `classes` lists it, bare or
/// qualified by a module (`mod.name`).
pub open spec fn user_drop_match(classes: Seq<String>, name: Seq<char>) -> bool {
    exists|i: int| 0 <= i < classes.len() && (#[trigger] classes[i]@ == name || has_suffix(classes[i]@, seq!['.'] + name))
}

/// A function named `name` is the user `drop` method of one of `classes`
/// (`<Class>_drop`).
pub open spec fn in_user_drop_method(name: Seq<char>, classes: Seq<String>) -> bool {
    has_suffix(name, "_drop"@) && exists|i: int|
        0 <= i < classes.len() && #[trigger] classes[i]@ == name.take(name.len() - 5)
}

/// The locals of `f` that own a fresh allocation at the end.
pub open spec fn safe_locals(f: MirFunction) -> Set<LocalId> {
    own_run(f.locals@, all_insts(f.blocks@)).0
}

/// Local `l` of `f` gets a drop at scope exit: its type owns heap memory
/// (a user aggregate, or a built-in heap type the type checker does not
/// find effectively `Copy`, as `copy` lists), it is no parameter, does not
/// alias a returned value, was not moved into a runtime structure; a
/// compiler temporary (`_t…`) only when it owns a fresh allocation and is a
/// built-in heap value or an instance of a class with a user `drop`; a
/// user aggregate only when it owns a fresh allocation.
pub open spec fn drop_eligible(f: MirFunction, l: MirLocal, ret: Set<LocalId>, copy: Set<LocalId>, classes: Seq<String>) -> bool {
    let safe = safe_locals(f);
    if !is_user_aggregate(l.ty) && copy.contains(l.id) {
        false
    } else if f.params@.contains(l.id) {
        false
    } else if ret.contains(l.id) || return_alias_set(all_insts(f.blocks@), ret).contains(l.id) {
        false
    } else if moved_in(all_insts(f.blocks@)).contains(l.id) {
        false
    } else if !(is_user_aggregate(l.ty) || is_builtin_heap(l.ty)) {
        false
    } else if has_prefix(l.name@, "_t"@) {
        (is_builtin_heap(l.ty) && safe.contains(l.id)) || (match l.ty {
            Ty::Class { name, .. } => user_drop_match(classes, name@) && safe.contains(l.id),
            _ => false,
        })
    } else if is_user_aggregate(l.ty) {
        safe.contains(l.id)
    } else {
        true
    }
}

/// The ids of the locals of `ls` that get a drop, in declaration order.
pub open spec fn drop_ids(f: MirFunction, ls: Seq<MirLocal>, ret: Set<LocalId>, copy: Set<LocalId>, classes: Seq<String>) -> Seq<LocalId>
    decreases ls.len(),
{
    if ls.len() == 0 {
        Seq::empty()
    } else {
        drop_ids(f, ls.drop_last(), ret, copy, classes) + if drop_eligible(f, ls.last(), ret, copy, classes) {
            seq![ls.last().id]
        } else {
            Seq::empty()
        }
    }
}

/// The runtime function that frees a value of type `t`: an element-aware
/// helper for vectors, maps and sets whose elements own strings or vectors,
/// else the spine-only one; `ruxen_dealloc` for classes, structs and enums.
pub open spec fn free_callee(t: Ty) -> Seq<char> {
    match t {
        Ty::String => "ruxen_string_free"@,
        Ty::Array(e) => match *e {
            Ty::String => "ruxen_vec_drop_string"@,
            Ty::Array(_) => "ruxen_vec_drop_vec"@,
            _ => "ruxen_vec_free"@,
        },
        Ty::Mapping(k, v) => if *k is String {
            if *v is String {
                "ruxen_hash_drop_string_string"@
            } else {
                "ruxen_hash_drop_string_v"@
            }
        } else if *v is String {
            "ruxen_hash_drop_v_string"@
        } else if *v is Array {
            "ruxen_hash_drop_v_vec"@
        } else {
            "ruxen_hash_free"@
        },
        Ty::SetOf(e) => if *e is String {
            "ruxen_set_drop_string"@
        } else {
            "ruxen_set_free"@
        },
        _ => "ruxen_dealloc"@,
    }
}

/// What a runtime free helper releases besides the container's own storage.
/// The map helpers are `ruxen_hash_drop_<keys>_<values>`, where `string`
/// frees each key or value as a string and `v`/`vec` says which part is
/// left or freed as a vector; the vector and set helpers name their element.
pub open spec fn helper_frees_string_keys(h: Seq<char>) -> bool {
    h == "ruxen_hash_drop_string_string"@ || h == "ruxen_hash_drop_string_v"@
}

/// The helper frees each value (map value, vector or set element) as a string.
pub open spec fn helper_frees_string_values(h: Seq<char>) -> bool {
    ||| h == "ruxen_hash_drop_string_string"@
    ||| h == "ruxen_hash_drop_v_string"@
    ||| h == "ruxen_vec_drop_string"@
    ||| h == "ruxen_set_drop_string"@
}

/// The helper frees each value (map value or vector element) as a vector.
pub open spec fn helper_frees_vec_values(h: Seq<char>) -> bool {
    h == "ruxen_vec_drop_vec"@ || h == "ruxen_hash_drop_v_vec"@
}

/// The kind of storage a runtime free helper releases.
#[derive(Debug, Clone, Copy, PartialEq, Eq, Structural)]
pub enum FreedStorage {
    Text,
    Vector,
    HashMap,
    HashSet,
    Object,
}

/// The storage each runtime free helper releases.
pub open spec fn helper_storage(h: Seq<char>) -> Option<FreedStorage> {
    if h == "ruxen_string_free"@ {
        Some(FreedStorage::Text)
    } else if h == "ruxen_vec_free"@ || h == "ruxen_vec_drop_string"@ || h == "ruxen_vec_drop_vec"@ {
        Some(FreedStorage::Vector)
    } else if h == "ruxen_hash_free"@ || h == "ruxen_hash_drop_string_string"@ || h
        == "ruxen_hash_drop_string_v"@ || h == "ruxen_hash_drop_v_string"@ || h
        == "ruxen_hash_drop_v_vec"@ {
        Some(FreedStorage::HashMap)
    } else if h == "ruxen_set_free"@ || h == "ruxen_set_drop_string"@ {
        Some(FreedStorage::HashSet)
    } else if h == "ruxen_dealloc"@ {
        Some(FreedStorage::Object)
    } else {
        None
    }
}

/// The storage a value of type `t` lives in.
pub open spec fn storage_of(t: Ty) -> FreedStorage {
    match t {
        Ty::String => FreedStorage::Text,
        Ty::Array(_) => FreedStorage::Vector,
        Ty::Mapping(_, _) => FreedStorage::HashMap,
        Ty::SetOf(_) => FreedStorage::HashSet,
        _ => FreedStorage::Object,
    }
}

/// The keys of a value of type `t` are strings it owns.
pub open spec fn owns_string_keys(t: Ty) -> bool {
    match t {
        Ty::Mapping(k, _) => *k is String,
        _ => false,
    }
}

/// The values (map values, vector or set elements) of `t` are strings.
pub open spec fn owns_string_values(t: Ty) -> bool {
    match t {
        Ty::Array(e) => *e is String,
        Ty::Mapping(_, v) => *v is String,
        Ty::SetOf(e) => *e is String,
        _ => false,
    }
}

/// The values (map values or vector elements) of `t` are vectors.
pub open spec fn owns_vec_values(t: Ty) -> bool {
    match t {
        Ty::Array(e) => *e is Array,
        Ty::Mapping(_, v) => *v is Array,
        _ => false,
    }
}

/// The helper that frees a value releases the storage the value lives in,
/// frees its string keys exactly when they are strings, its values as
/// strings exactly when they are strings, and its values as vectors exactly
/// when they are vectors, except for a map with string keys, whose helpers
/// free keys and string values only.
pub proof fn law_free_helper_matches_owned_parts(t: Ty)
    ensures
        helper_storage(free_callee(t)) == Some(storage_of(t)),
        helper_frees_string_keys(free_callee(t)) == owns_string_keys(t),
        helper_frees_string_values(free_callee(t)) == owns_string_values(t),
        helper_frees_vec_values(free_callee(t)) == (owns_vec_values(t) && !owns_string_keys(t)),
{
    reveal_strlit("ruxen_string_free");
    reveal_strlit("ruxen_vec_free");
    reveal_strlit("ruxen_vec_drop_string");
    reveal_strlit("ruxen_vec_drop_vec");
    reveal_strlit("ruxen_hash_free");
    reveal_strlit("ruxen_hash_drop_string_string");
    reveal_strlit("ruxen_hash_drop_string_v");
    reveal_strlit("ruxen_hash_drop_v_string");
    reveal_strlit("ruxen_hash_drop_v_vec");
    reveal_strlit("ruxen_set_free");
    reveal_strlit("ruxen_set_drop_string");
    reveal_strlit("ruxen_dealloc");
    assert("ruxen_vec_drop_string"@[6] != "ruxen_hash_drop_v_vec"@[6]);
    assert("ruxen_vec_drop_string"@[6] != "ruxen_set_drop_string"@[6]);
    assert("ruxen_hash_drop_v_vec"@[6] != "ruxen_set_drop_string"@[6]);
    assert("ruxen_vec_free"@[6] != "ruxen_set_free"@[6]);
    assert("ruxen_hash_drop_string_v"@[16] != "ruxen_hash_drop_v_string"@[16]);
    assert("ruxen_string_free"@.len() == 17);
    assert("ruxen_vec_free"@.len() == 14);
    assert("ruxen_vec_drop_string"@.len() == 21);
    assert("ruxen_vec_drop_vec"@.len() == 18);
    assert("ruxen_hash_free"@.len() == 15);
    assert("ruxen_hash_drop_string_string"@.len() == 29);
    assert("ruxen_hash_drop_string_v"@.len() == 24);
    assert("ruxen_hash_drop_v_string"@.len() == 24);
    assert("ruxen_hash_drop_v_vec"@.len() == 21);
    assert("ruxen_set_free"@.len() == 14);
    assert("ruxen_set_drop_string"@.len() == 21);
    assert("ruxen_dealloc"@.len() == 13);
    match t {
        Ty::String => {},
        Ty::Array(e) => {},
        Ty::Mapping(k, v) => {},
        Ty::SetOf(e) => {},
        _ => {},
    }
}

/// The resolved symbol of `mangled`: the target of its first alias, else
/// itself.
pub open spec fn resolve_alias(aliases: Seq<(String, String)>, mangled: Seq<char>) -> Seq<char>
    decreases aliases.len(),
{
    if aliases.len() == 0 {
        mangled
    } else if aliases[0].0@ == mangled {
        aliases[0].1@
    } else {
        resolve_alias(aliases.drop_first(), mangled)
    }
}

/// The first local of `locals` with id `id`.
pub open spec fn local_of(locals: Seq<MirLocal>, id: LocalId) -> Option<MirLocal>
    decreases locals.len(),
{
    if locals.len() == 0 {
        None
    } else if locals[0].id == id {
        Some(locals[0])
    } else {
        local_of(locals.drop_first(), id)
    }
}

/// A planned drop instruction: a call of the named function on the local,
/// or (no name) the `Drop` of the local.
pub type DropStep = (Option<Seq<char>>, LocalId);

/// `inst` is the planned instruction `d`.
pub open spec fn inst_is(inst: MirInst, d: DropStep) -> bool {
    match d.0 {
        Some(c) => inst matches MirInst::Call { dest: None, callee, args } && callee@ == c && args@ == seq![
            MirValue::Use(d.1),
        ],
        None => inst == MirInst::Drop { local: d.1 },
    }
}

/// The call of the user `drop` of the class of local `l`, when it has one,
/// owns a fresh allocation, and this is not such a `drop` method itself.
pub open spec fn user_drop_step(l: MirLocal, in_drop: bool, safe: Set<LocalId>, classes: Seq<String>, aliases: Seq<(String, String)>) -> Seq<DropStep> {
    match l.ty {
        Ty::Class { name, .. } => if !in_drop && safe.contains(l.id) && user_drop_match(classes, name@) {
            seq![(Some(resolve_alias(aliases, name@ + "_drop"@)), l.id)]
        } else {
            Seq::empty()
        },
        _ => Seq::empty(),
    }
}

/// The free of the memory of local `l`, when it owns a fresh allocation.
pub open spec fn free_step(l: MirLocal, safe: Set<LocalId>) -> Seq<DropStep> {
    if safe.contains(l.id) {
        seq![(Some(free_callee(l.ty)), l.id)]
    } else {
        Seq::empty()
    }
}

/// The drop instructions of local `l`: its class's user `drop` first (not
/// inside such a `drop` method itself), then the free of its memory, both
/// only when it owns a fresh allocation; then its `Drop`.
pub open spec fn steps_for(l: MirLocal, in_drop: bool, safe: Set<LocalId>, classes: Seq<String>, aliases: Seq<(String, String)>) -> Seq<DropStep> {
    user_drop_step(l, in_drop, safe, classes, aliases) + free_step(l, safe) + seq![(None, l.id)]
}

/// The drop instructions of the locals `ids`, last declared first.
pub open spec fn steps_rev(f: MirFunction, ids: Seq<LocalId>, in_drop: bool, classes: Seq<String>, aliases: Seq<(String, String)>) -> Seq<DropStep>
    decreases ids.len(),
{
    if ids.len() == 0 {
        Seq::empty()
    } else {
        steps_for(local_of(f.locals@, ids.last())->0, in_drop, safe_locals(f), classes, aliases) + steps_rev(
            f,
            ids.drop_last(),
            in_drop,
            classes,
            aliases,
        )
    }
}

/// `insts` is `orig` followed by the planned instructions `steps`.
pub open spec fn appended(orig: Seq<MirInst>, insts: Seq<MirInst>, steps: Seq<DropStep>) -> bool {
    &&& insts.len() == orig.len() + steps.len()
    &&& insts.take(orig.len() as int) == orig
    &&& forall|k: int| 0 <= k < steps.len() ==> inst_is(#[trigger] insts[orig.len() + k], steps[k])
}

fn is_user_drop_method(name: &String, classes: &Vec<String>) -> (r: bool)
    ensures
        r == in_user_drop_method(name@, classes@),
{
    proof {
        reveal_strlit("_drop");
    }
    if !ends_with(name.as_str(), "_drop") {
        return false;
    }
    let n = name.unicode_len();
    let prefix = substring(name.as_str(), 0, n - 5);
    let mut i: usize = 0;
    while i < classes.len()
        invariant
            i <= classes@.len(),
            n == name@.len(),
            n >= 5,
            has_suffix(name@, "_drop"@),
            prefix@ == name@.take(n - 5),
            forall|k: int| 0 <= k < i ==> classes@[k]@ != prefix@,
        decreases classes@.len() - i,
    {
        if str_eq(classes[i].as_str(), prefix.as_str()) {
            assert(classes@[i as int]@ == name@.take(name@.len() - 5));
            return true;
        }
        i = i + 1;
    }
    false
}

fn user_drop_matches(classes: &Vec<String>, name: &String) -> (r: bool)
    ensures
        r == user_drop_match(classes@, name@),
{
    let mut suffix = String::new();
    push_char(&mut suffix, '.');
    let suffix = suffix.concat(name.as_str());
    assert(suffix@ =~= seq!['.'] + name@);
    let mut i: usize = 0;
    while i < classes.len()
        invariant
            i <= classes@.len(),
            suffix@ == seq!['.'] + name@,
            forall|k: int| 0 <= k < i ==> !(#[trigger] classes@[k]@ == name@ || has_suffix(classes@[k]@, seq!['.'] + name@)),
        decreases classes@.len() - i,
    {
        if str_eq(classes[i].as_str(), name.as_str()) || ends_with(classes[i].as_str(), suffix.as_str()) {
            return true;
        }
        i = i + 1;
    }
    false
}

/// The locals moved into runtime-owned structures by move-by-FFI calls.
fn moved_to_ffi(func: &MirFunction) -> (r: HashSet<LocalId>)
    ensures
        r@ == moved_in(all_insts(func.blocks@)),
{
    let mut moved: HashSet<LocalId> = HashSet::new();
    let mut b: usize = 0;
    proof {
        assert(func.blocks@.take(0) =~= Seq::<BasicBlock>::empty());
        assert(all_insts(func.blocks@.take(0)) =~= Seq::<MirInst>::empty());
        assert(moved@ =~= moved_in(Seq::<MirInst>::empty()));
    }
    while b < func.blocks.len()
        invariant
            b <= func.blocks@.len(),
            moved@ == moved_in(all_insts(func.blocks@.take(b as int))),
        decreases func.blocks@.len() - b,
    {
        let insts = &func.blocks[b].instructions;
        let ghost pre = all_insts(func.blocks@.take(b as int));
        proof {
            lemma_all_insts_step(func.blocks@, b as int);
            assert(pre + insts@.take(0) =~= pre);
        }
        let mut i: usize = 0;
        while i < insts.len()
            invariant
                i <= insts@.len(),
                moved@ == moved_in(pre + insts@.take(i as int)),
            decreases insts@.len() - i,
        {
            let ghost m0 = moved@;
            proof {
                assert((pre + insts@.take(i + 1)).drop_last() =~= pre + insts@.take(i as int));
                assert((pre + insts@.take(i + 1)).last() == insts@[i as int]);
            }
            match &insts[i] {
                MirInst::Call { callee, args, .. } => {
                    if is_move_by_ffi(callee.as_str()) {
                        let mut j: usize = 0;
                        assert(args@.take(0) =~= Seq::<MirValue>::empty());
                        assert(m0 =~= m0.union(arg_locals(args@.take(0))));
                        while j < args.len()
                            invariant
                                j <= args@.len(),
                                moved@ == m0.union(arg_locals(args@.take(j as int))),
                            decreases args@.len() - j,
                        {
                            assert(args@.take(j + 1).drop_last() =~= args@.take(j as int));
                            match &args[j] {
                                MirValue::Use(l) => {
                                    moved.insert(*l);
                                },
                                _ => {},
                            }
                            j = j + 1;
                            assert(moved@ =~= m0.union(arg_locals(args@.take(j as int))));
                        }
                        assert(args@.take(args@.len() as int) =~= args@);
                    } else {
                        assert(moved@ =~= m0.union(Set::<LocalId>::empty()));
                    }
                },
                _ => {
                    assert(moved@ =~= m0.union(Set::<LocalId>::empty()));
                },
            }
            i = i + 1;
        }
        proof {
            assert(insts@.take(insts@.len() as int) =~= insts@);
        }
        b = b + 1;
    }
    proof {
        assert(func.blocks@.take(func.blocks@.len() as int) =~= func.blocks@);
    }
    moved
}

/// Does local `l` get a drop (see `drop_eligible`)?
fn is_drop_eligible(
    func: &MirFunction,
    l: &MirLocal,
    return_locals: &HashSet<LocalId>,
    chain: &HashSet<LocalId>,
    moved: &HashSet<LocalId>,
    safe: &HashSet<LocalId>,
    copy_locals: &HashSet<LocalId>,
    classes: &Vec<String>,
) -> (r: bool)
    requires
        chain@ == return_alias_set(all_insts(func.blocks@), return_locals@),
        moved@ == moved_in(all_insts(func.blocks@)),
        safe@ == safe_locals(*func),
    ensures
        r == drop_eligible(*func, *l, return_locals@, copy_locals@, classes@),
{
    let user_aggregate = match &l.ty {
        Ty::Class { .. } | Ty::Struct { .. } | Ty::Enum { .. } => true,
        _ => false,
    };
    let builtin_heap = match &l.ty {
        Ty::String | Ty::Array(_) | Ty::Mapping(_, _) | Ty::SetOf(_) => true,
        _ => false,
    };
    if !user_aggregate && copy_locals.contains(&l.id) {
        return false;
    }
    let mut k: usize = 0;
    while k < func.params.len()
        invariant
            k <= func.params@.len(),
            forall|q: int| 0 <= q < k ==> func.params@[q] != l.id,
        decreases func.params@.len() - k,
    {
        if func.params[k] == l.id {
            assert(func.params@.contains(l.id));
            return false;
        }
        k = k + 1;
    }
    if return_locals.contains(&l.id) || chain.contains(&l.id) {
        return false;
    }
    if moved.contains(&l.id) {
        return false;
    }
    if !(user_aggregate || builtin_heap) {
        return false;
    }
    proof {
        reveal_strlit("_t");
    }
    if starts_with(l.name.as_str(), "_t") {
        if builtin_heap && safe.contains(&l.id) {
            return true;
        }
        match &l.ty {
            Ty::Class { name, .. } => {
                return user_drop_matches(classes, name) && safe.contains(&l.id);
            },
            _ => {},
        }
        return false;
    }
    if user_aggregate {
        return safe.contains(&l.id);
    }
    true
}

/// The ids of the locals that get a drop, in declaration order.
fn select_drop_locals(
    func: &MirFunction,
    return_locals: &HashSet<LocalId>,
    chain: &HashSet<LocalId>,
    moved: &HashSet<LocalId>,
    safe: &HashSet<LocalId>,
    copy_locals: &HashSet<LocalId>,
    classes: &Vec<String>,
) -> (r: Vec<LocalId>)
    requires
        chain@ == return_alias_set(all_insts(func.blocks@), return_locals@),
        moved@ == moved_in(all_insts(func.blocks@)),
        safe@ == safe_locals(*func),
    ensures
        r@ == drop_ids(*func, func.locals@, return_locals@, copy_locals@, classes@),
        forall|k: int| 0 <= k < r@.len() ==> exists|m: int| 0 <= m < func.locals@.len() && func.locals@[m].id == #[trigger] r@[k],
{
    let mut r: Vec<LocalId> = Vec::new();
    let mut i: usize = 0;
    assert(func.locals@.take(0) =~= Seq::<MirLocal>::empty());
    while i < func.locals.len()
        invariant
            i <= func.locals@.len(),
            chain@ == return_alias_set(all_insts(func.blocks@), return_locals@),
            moved@ == moved_in(all_insts(func.blocks@)),
            safe@ == safe_locals(*func),
            r@ == drop_ids(*func, func.locals@.take(i as int), return_locals@, copy_locals@, classes@),
            forall|k: int| 0 <= k < r@.len() ==> exists|m: int| 0 <= m < i && func.locals@[m].id == #[trigger] r@[k],
        decreases func.locals@.len() - i,
    {
        let ghost r0 = r@;
        assert(func.locals@.take(i + 1).drop_last() =~= func.locals@.take(i as int));
        assert(func.locals@.take(i + 1).last() == func.locals@[i as int]);
        if is_drop_eligible(func, &func.locals[i], return_locals, chain, moved, safe, copy_locals, classes) {
            r.push(func.locals[i].id);
            assert forall|k: int| 0 <= k < r@.len() implies exists|m: int| 0 <= m < i + 1 && func.locals@[m].id == #[trigger] r@[k] by {
                if k < r0.len() {
                    assert(r@[k] == r0[k]);
                } else {
                    assert(func.locals@[i as int].id == r@[k]);
                }
            }
        } else {
            assert(r@ =~= r0 + Seq::<LocalId>::empty());
        }
        i = i + 1;
    }
    assert(func.locals@.take(func.locals@.len() as int) =~= func.locals@);
    r
}

fn find_local<'a>(locals: &'a Vec<MirLocal>, id: LocalId) -> (r: Option<&'a MirLocal>)
    ensures
        match r {
            Some(l) => local_of(locals@, id) == Some(*l),
            None => local_of(locals@, id) is None,
        },
{
    let mut i: usize = 0;
    assert(locals@.skip(0) =~= locals@);
    while i < locals.len()
        invariant
            i <= locals@.len(),
            local_of(locals@.skip(i as int), id) == local_of(locals@, id),
        decreases locals@.len() - i,
    {
        assert(locals@.skip(i as int)[0] == locals@[i as int]);
        assert(locals@.skip(i as int).drop_first() =~= locals@.skip(i + 1));
        if locals[i].id == id {
            return Some(&locals[i]);
        }
        i = i + 1;
    }
    None
}

proof fn lemma_local_of_some(locals: Seq<MirLocal>, id: LocalId, m: int)
    requires
        0 <= m < locals.len(),
        locals[m].id == id,
    ensures
        local_of(locals, id) is Some,
    decreases locals.len(),
{
    if locals[0].id != id {
        assert(locals.drop_first()[m - 1] == locals[m]);
        lemma_local_of_some(locals.drop_first(), id, m - 1);
    }
}

proof fn lemma_local_of_id(locals: Seq<MirLocal>, id: LocalId)
    requires
        local_of(locals, id) is Some,
    ensures
        (local_of(locals, id)->0).id == id,
    decreases locals.len(),
{
    if locals[0].id != id {
        lemma_local_of_id(locals.drop_first(), id);
    }
}

fn resolve_drop_alias(aliases: &Vec<(String, String)>, mangled: String) -> (r: String)
    ensures
        r@ == resolve_alias(aliases@, mangled@),
{
    let mut i: usize = 0;
    assert(aliases@.skip(0) =~= aliases@);
    while i < aliases.len()
        invariant
            i <= aliases@.len(),
            resolve_alias(aliases@.skip(i as int), mangled@) == resolve_alias(aliases@, mangled@),
        decreases aliases@.len() - i,
    {
        assert(aliases@.skip(i as int)[0] == aliases@[i as int]);
        assert(aliases@.skip(i as int).drop_first() =~= aliases@.skip(i + 1));
        if str_eq(aliases[i].0.as_str(), mangled.as_str()) {
            return aliases[i].1.clone();
        }
        i = i + 1;
    }
    mangled
}

fn free_callee_of(t: &Ty) -> (r: &'static str)
    ensures
        r@ == free_callee(*t),
{
    match t {
        Ty::String => "ruxen_string_free",
        Ty::Array(e) => match &**e {
            Ty::String => "ruxen_vec_drop_string",
            Ty::Array(_) => "ruxen_vec_drop_vec",
            _ => "ruxen_vec_free",
        },
        Ty::Mapping(k, v) => {
            let k_string = match &**k {
                Ty::String => true,
                _ => false,
            };
            let v_string = match &**v {
                Ty::String => true,
                _ => false,
            };
            let v_vec = match &**v {
                Ty::Array(_) => true,
                _ => false,
            };
            if k_string && v_string {
                "ruxen_hash_drop_string_string"
            } else if k_string {
                "ruxen_hash_drop_string_v"
            } else if v_string {
                "ruxen_hash_drop_v_string"
            } else if v_vec {
                "ruxen_hash_drop_v_vec"
            } else {
                "ruxen_hash_free"
            }
        },
        Ty::SetOf(e) => match &**e {
            Ty::String => "ruxen_set_drop_string",
            _ => "ruxen_set_free",
        },
        _ => "ruxen_dealloc",
    }
}

/// An executable planned step, by its view.
pub open spec fn step_view(p: (Option<String>, LocalId)) -> DropStep {
    (
        match p.0 {
            Some(s) => Some(s@),
            None => None,
        },
        p.1,
    )
}

/// The steps of `plan`, by their views.
pub open spec fn plan_view(plan: Seq<(Option<String>, LocalId)>) -> Seq<DropStep> {
    plan.map_values(|p: (Option<String>, LocalId)| step_view(p))
}

fn push_step(plan: &mut Vec<(Option<String>, LocalId)>, callee: Option<String>, id: LocalId)
    ensures
        plan_view(final(plan)@) == plan_view(old(plan)@) + seq![step_view((callee, id))],
{
    plan.push((callee, id));
    assert(plan_view(plan@) =~= plan_view(old(plan)@) + seq![step_view((callee, id))]);
}

/// The drop instructions of the locals `ids`, last declared first.
fn plan_drops(
    func: &MirFunction,
    ids: &Vec<LocalId>,
    in_drop: bool,
    safe: &HashSet<LocalId>,
    classes: &Vec<String>,
    aliases: &Vec<(String, String)>,
) -> (plan: Vec<(Option<String>, LocalId)>)
    requires
        safe@ == safe_locals(*func),
        forall|k: int| 0 <= k < ids@.len() ==> exists|m: int| 0 <= m < func.locals@.len() && func.locals@[m].id == #[trigger] ids@[k],
    ensures
        plan_view(plan@) == steps_rev(*func, ids@, in_drop, classes@, aliases@),
{
    let mut plan: Vec<(Option<String>, LocalId)> = Vec::new();
    let mut j: usize = ids.len();
    assert(ids@.take(ids@.len() as int) =~= ids@);
    assert(plan_view(plan@) =~= Seq::<DropStep>::empty());
    while j > 0
        invariant
            j <= ids@.len(),
            safe@ == safe_locals(*func),
            forall|k: int| 0 <= k < ids@.len() ==> exists|m: int| 0 <= m < func.locals@.len() && func.locals@[m].id == #[trigger] ids@[k],
            plan_view(plan@) + steps_rev(*func, ids@.take(j as int), in_drop, classes@, aliases@) == steps_rev(
                *func,
                ids@,
                in_drop,
                classes@,
                aliases@,
            ),
        decreases j,
    {
        j = j - 1;
        let id = ids[j];
        let ghost p0 = plan_view(plan@);
        proof {
            let m = choose|m: int| 0 <= m < func.locals@.len() && func.locals@[m].id == ids@[j as int];
            lemma_local_of_some(func.locals@, id, m);
            assert(ids@.take(j + 1).drop_last() =~= ids@.take(j as int));
            assert(ids@.take(j + 1).last() == id);
        }
        let l = match find_local(&func.locals, id) {
            Some(l) => l,
            None => {
                proof {
                    assert(false);
                }
                return plan;
            },
        };
        proof {
            lemma_local_of_id(func.locals@, id);
        }
        let owned = safe.contains(&id);
        let ghost user_part = user_drop_step(*l, in_drop, safe@, classes@, aliases@);
        match &l.ty {
            Ty::Class { name, .. } => {
                if !in_drop && owned && user_drop_matches(classes, name) {
                    let mangled = name.clone().concat("_drop");
                    let callee = resolve_drop_alias(aliases, mangled);
                    push_step(&mut plan, Some(callee), id);
                } else {
                    assert(plan_view(plan@) =~= p0 + user_part);
                }
            },
            _ => {
                assert(plan_view(plan@) =~= p0 + user_part);
            },
        }
        assert(plan_view(plan@) == p0 + user_part);
        let ghost p1 = plan_view(plan@);
        let ghost free_part = free_step(*l, safe@);
        if owned {
            let free = free_callee_of(&l.ty);
            push_step(&mut plan, Some(String::from_str(free)), id);
        } else {
            assert(plan_view(plan@) =~= p1 + free_part);
        }
        assert(plan_view(plan@) == p1 + free_part);
        push_step(&mut plan, None, id);
        proof {
            let sf = steps_for(*l, in_drop, safe@, classes@, aliases@);
            assert(sf == user_part + free_part + seq![(None::<Seq<char>>, id)]);
            assert(plan_view(plan@) =~= p0 + sf);
            assert(steps_rev(*func, ids@.take(j + 1), in_drop, classes@, aliases@) == sf + steps_rev(*func, ids@.take(j as int), in_drop, classes@, aliases@));
            assert(p0 + sf + steps_rev(*func, ids@.take(j as int), in_drop, classes@, aliases@) =~= p0 + (sf + steps_rev(*func, ids@.take(j as int), in_drop, classes@, aliases@)));
        }
    }
    assert(ids@.take(0) =~= Seq::<LocalId>::empty());
    assert(plan_view(plan@) + Seq::<DropStep>::empty() =~= plan_view(plan@));
    plan
}

/// Append the planned instructions to `insts`.
fn append_plan(insts: &mut Vec<MirInst>, plan: &Vec<(Option<String>, LocalId)>)
    ensures
        appended(old(insts)@, final(insts)@, plan_view(plan@)),
{
    let ghost orig = insts@;
    let mut k: usize = 0;
    assert(insts@.take(orig.len() as int) =~= orig);
    while k < plan.len()
        invariant
            k <= plan@.len(),
            orig == old(insts)@,
            insts@.len() == orig.len() + k,
            insts@.take(orig.len() as int) == orig,
            forall|q: int| 0 <= q < k ==> inst_is(#[trigger] insts@[orig.len() + q], step_view(plan@[q])),
        decreases plan@.len() - k,
    {
        let id = plan[k].1;
        match &plan[k].0 {
            Some(c) => {
                let mut args: Vec<MirValue> = Vec::new();
                args.push(MirValue::Use(id));
                assert(args@ =~= seq![MirValue::Use(id)]);
                insts.push(MirInst::Call { dest: None, callee: c.clone(), args });
            },
            None => {
                insts.push(MirInst::Drop { local: id });
            },
        }
        assert(insts@.take(orig.len() as int) =~= orig);
        k = k + 1;
    }
    assert forall|q: int| 0 <= q < plan_view(plan@).len() implies inst_is(#[trigger] insts@[orig.len() + q], plan_view(plan@)[q]) by {
        assert(plan_view(plan@)[q] == step_view(plan@[q]));
    }
}

/// Insert scope-exit drops before every `return` of `func`.
///
/// The locals that get one (see `drop_eligible`) are found from the
/// ownership analysis (`compute_dealloc_safe_locals`), the locals whose
/// value may be returned (`return_locals` and their aliases), the locals
/// moved into runtime-owned structures, the locals whose type the type
/// checker finds effectively `Copy` (`copy_locals`) and the classes with a
/// user `drop` (`user_drop_classes`, bare or module-qualified). Before each
/// `return`, for each such local in reverse declaration order: the user
/// `drop` of its class (`<Class>_drop`, resolved through `drop_aliases`;
/// not inside such a `drop` method), then the free of its memory, both
/// only when it owns a fresh allocation, then its `Drop`. Each such local
/// is found again by its id to pick its drop instructions: where two locals
/// share an id, the first of them decides (see `steps_rev`). Nothing else
/// changes.
pub fn insert_drops(
    func: &mut MirFunction,
    return_locals: &HashSet<LocalId>,
    copy_locals: &HashSet<LocalId>,
    user_drop_classes: &Vec<String>,
    drop_aliases: &Vec<(String, String)>,
)
    ensures
        final(func).name == old(func).name,
        final(func).params == old(func).params,
        final(func).return_ty == old(func).return_ty,
        final(func).locals == old(func).locals,
        final(func).entry_block == old(func).entry_block,
        final(func).next_temp == old(func).next_temp,
        final(func).blocks@.len() == old(func).blocks@.len(),
        forall|b: int|
            #![trigger final(func).blocks@[b]]
            0 <= b < old(func).blocks@.len() ==> {
                &&& final(func).blocks@[b].id == old(func).blocks@[b].id
                &&& final(func).blocks@[b].terminator == old(func).blocks@[b].terminator
                &&& if old(func).blocks@[b].terminator is Return {
                    appended(
                        old(func).blocks@[b].instructions@,
                        final(func).blocks@[b].instructions@,
                        steps_rev(
                            *old(func),
                            drop_ids(*old(func), old(func).locals@, return_locals@, copy_locals@, user_drop_classes@),
                            in_user_drop_method(old(func).name@, user_drop_classes@),
                            user_drop_classes@,
                            drop_aliases@,
                        ),
                    )
                } else {
                    final(func).blocks@[b].instructions@ == old(func).blocks@[b].instructions@
                }
            },
{
    let ghost f0 = *func;
    let in_drop = is_user_drop_method(&func.name, user_drop_classes);
    let safe = compute_dealloc_safe_locals(func);
    let moved = moved_to_ffi(func);
    let chain = compute_return_alias_chain(func, return_locals);
    let ids = select_drop_locals(func, return_locals, &chain, &moved, &safe, copy_locals, user_drop_classes);
    let plan = plan_drops(func, &ids, in_drop, &safe, user_drop_classes, drop_aliases);
    let ghost steps = steps_rev(f0, ids@, in_drop, user_drop_classes@, drop_aliases@);
    let mut b: usize = 0;
    while b < func.blocks.len()
        invariant
            b <= func.blocks@.len(),
            func.blocks@.len() == f0.blocks@.len(),
            func.name == f0.name,
            func.params == f0.params,
            func.return_ty == f0.return_ty,
            func.locals == f0.locals,
            func.entry_block == f0.entry_block,
            func.next_temp == f0.next_temp,
            plan_view(plan@) == steps,
            forall|c: int|
                #![trigger func.blocks@[c]]
                0 <= c < b ==> {
                    &&& func.blocks@[c].id == f0.blocks@[c].id
                    &&& func.blocks@[c].terminator == f0.blocks@[c].terminator
                    &&& if f0.blocks@[c].terminator is Return {
                        appended(f0.blocks@[c].instructions@, func.blocks@[c].instructions@, steps)
                    } else {
                        func.blocks@[c].instructions@ == f0.blocks@[c].instructions@
                    }
                },
            forall|c: int| #![trigger func.blocks@[c]] b <= c < func.blocks@.len() ==> func.blocks@[c] == f0.blocks@[c],
        decreases func.blocks@.len() - b,
    {
        let is_return = match &func.blocks[b].terminator {
            Terminator::Return(_) => true,
            _ => false,
        };
        if is_return {
            append_plan(&mut func.blocks[b].instructions, &plan);
        }
        b = b + 1;
    }
}

// ---------------------------------------------------------------------------
// Laws.
// ---------------------------------------------------------------------------

/// `id` is the id of a local of `ls` that gets a drop.
spec fn id_eligible(f: MirFunction, ls: Seq<MirLocal>, id: LocalId, ret: Set<LocalId>, copy: Set<LocalId>, classes: Seq<String>) -> bool {
    exists|m: int| 0 <= m < ls.len() && ls[m].id == id && #[trigger] drop_eligible(f, ls[m], ret, copy, classes)
}

proof fn lemma_drop_ids_eligible(f: MirFunction, ls: Seq<MirLocal>, ret: Set<LocalId>, copy: Set<LocalId>, classes: Seq<String>)
    ensures
        forall|k: int|
            0 <= k < drop_ids(f, ls, ret, copy, classes).len() ==> id_eligible(
                f,
                ls,
                #[trigger] drop_ids(f, ls, ret, copy, classes)[k],
                ret,
                copy,
                classes,
            ),
    decreases ls.len(),
{
    if ls.len() > 0 {
        let init = ls.drop_last();
        lemma_drop_ids_eligible(f, init, ret, copy, classes);
        let ids = drop_ids(f, ls, ret, copy, classes);
        let i0 = drop_ids(f, init, ret, copy, classes);
        assert forall|k: int| 0 <= k < ids.len() implies id_eligible(f, ls, #[trigger] ids[k], ret, copy, classes) by {
            if k < i0.len() {
                assert(ids[k] == i0[k]);
                assert(id_eligible(f, init, i0[k], ret, copy, classes));
                let m = choose|m: int| 0 <= m < init.len() && init[m].id == i0[k] && #[trigger] drop_eligible(f, init[m], ret, copy, classes);
                assert(ls[m] == init[m]);
            } else {
                assert(drop_eligible(f, ls.last(), ret, copy, classes));
                assert(ids[k] == ls.last().id);
                assert(ls[ls.len() - 1] == ls.last());
            }
        }
    }
}

proof fn lemma_steps_ids(f: MirFunction, ids: Seq<LocalId>, in_drop: bool, classes: Seq<String>, aliases: Seq<(String, String)>)
    requires
        forall|k: int| 0 <= k < ids.len() ==> local_of(f.locals@, #[trigger] ids[k]) is Some,
    ensures
        forall|k: int|
            0 <= k < steps_rev(f, ids, in_drop, classes, aliases).len() ==> exists|j: int|
                0 <= j < ids.len() && ids[j] == (#[trigger] steps_rev(f, ids, in_drop, classes, aliases)[k]).1,
        forall|k: int|
            0 <= k < steps_rev(f, ids, in_drop, classes, aliases).len() && (#[trigger] steps_rev(
                f,
                ids,
                in_drop,
                classes,
                aliases,
            )[k]).0 is Some ==> safe_locals(f).contains(steps_rev(f, ids, in_drop, classes, aliases)[k].1),
    decreases ids.len(),
{
    if ids.len() > 0 {
        let init = ids.drop_last();
        assert forall|k: int| 0 <= k < init.len() implies local_of(f.locals@, #[trigger] init[k]) is Some by {
            assert(init[k] == ids[k]);
        }
        lemma_steps_ids(f, init, in_drop, classes, aliases);
        let id = ids.last();
        assert(local_of(f.locals@, ids[ids.len() - 1]) is Some);
        lemma_local_of_id(f.locals@, id);
        let sf = steps_for(local_of(f.locals@, id)->0, in_drop, safe_locals(f), classes, aliases);
        let rest = steps_rev(f, init, in_drop, classes, aliases);
        let all = steps_rev(f, ids, in_drop, classes, aliases);
        assert(all == sf + rest);
        assert forall|k: int| 0 <= k < all.len() implies exists|j: int| 0 <= j < ids.len() && ids[j] == (#[trigger] all[k]).1 by {
            if k < sf.len() {
                assert(all[k] == sf[k]);
                assert(sf[k].1 == id);
                assert(ids[ids.len() - 1] == id);
            } else {
                assert(all[k] == rest[k - sf.len()]);
                let j = choose|j: int| 0 <= j < init.len() && init[j] == rest[k - sf.len()].1;
                assert(ids[j] == init[j]);
            }
        }
        assert forall|k: int| 0 <= k < all.len() && (#[trigger] all[k]).0 is Some implies safe_locals(f).contains(all[k].1) by {
            if k < sf.len() {
                assert(all[k] == sf[k]);
            } else {
                assert(all[k] == rest[k - sf.len()]);
            }
        }
    }
}

/// Scope-exit drops never touch a parameter, a returned local or a local
/// whose value may flow into a returned one, or a local moved into a
/// runtime-owned structure: no instruction that `insert_drops` adds names
/// one of them. And a user `drop` or a free is only ever called on a local
/// that owns a fresh allocation (see `compute_dealloc_safe_locals`).
pub proof fn law_scope_exit_drops_are_safe(
    f: MirFunction,
    ret: Set<LocalId>,
    copy: Set<LocalId>,
    classes: Seq<String>,
    aliases: Seq<(String, String)>,
)
    ensures
        forall|k: int|
            #![trigger steps_rev(f, drop_ids(f, f.locals@, ret, copy, classes), in_user_drop_method(f.name@, classes), classes, aliases)[k]]
            0 <= k < steps_rev(f, drop_ids(f, f.locals@, ret, copy, classes), in_user_drop_method(f.name@, classes), classes, aliases).len() ==> {
                let id = steps_rev(f, drop_ids(f, f.locals@, ret, copy, classes), in_user_drop_method(f.name@, classes), classes, aliases)[k].1;
                &&& !f.params@.contains(id)
                &&& !ret.contains(id)
                &&& !return_alias_set(all_insts(f.blocks@), ret).contains(id)
                &&& !moved_in(all_insts(f.blocks@)).contains(id)
                &&& steps_rev(f, drop_ids(f, f.locals@, ret, copy, classes), in_user_drop_method(f.name@, classes), classes, aliases)[k].0 is Some
                    ==> safe_locals(f).contains(id)
            },
{
    let ids = drop_ids(f, f.locals@, ret, copy, classes);
    let in_drop = in_user_drop_method(f.name@, classes);
    lemma_drop_ids_eligible(f, f.locals@, ret, copy, classes);
    assert forall|k: int| 0 <= k < ids.len() implies local_of(f.locals@, #[trigger] ids[k]) is Some by {
        assert(id_eligible(f, f.locals@, ids[k], ret, copy, classes));
        let m = choose|m: int| 0 <= m < f.locals@.len() && f.locals@[m].id == ids[k] && #[trigger] drop_eligible(f, f.locals@[m], ret, copy, classes);
        lemma_local_of_some(f.locals@, ids[k], m);
    }
    lemma_steps_ids(f, ids, in_drop, classes, aliases);
    let steps = steps_rev(f, ids, in_drop, classes, aliases);
    assert forall|k: int| #![trigger steps[k]] 0 <= k < steps.len() implies {
        let id = steps[k].1;
        &&& !f.params@.contains(id)
        &&& !ret.contains(id)
        &&& !return_alias_set(all_insts(f.blocks@), ret).contains(id)
        &&& !moved_in(all_insts(f.blocks@)).contains(id)
        &&& steps[k].0 is Some ==> safe_locals(f).contains(id)
    } by {
        let j = choose|j: int| 0 <= j < ids.len() && ids[j] == steps[k].1;
        assert(id_eligible(f, f.locals@, ids[j], ret, copy, classes));
        let m = choose|m: int| 0 <= m < f.locals@.len() && f.locals@[m].id == ids[j] && #[trigger] drop_eligible(f, f.locals@[m], ret, copy, classes);
        assert(drop_eligible(f, f.locals@[m], ret, copy, classes));
    }
}

/// `l` is tainted and not rooted in `st`.
pub open spec fn tainted_out(st: OwnState, l: LocalId) -> bool {
    st.1.contains(l) && !st.0.contains(l)
}

proof fn lemma_args_keep_taint(st: OwnState, callee: Seq<char>, args: Seq<MirValue>, l: LocalId)
    requires
        tainted_out(st, l),
    ensures
        tainted_out(call_args_run(st, callee, args), l),
        tainted_out(indirect_args_run(st, args), l),
    decreases args.len(),
{
    if args.len() > 0 {
        lemma_args_keep_taint(st, callee, args.drop_last(), l);
    }
}

proof fn lemma_step_keeps_taint(locals: Seq<MirLocal>, st: OwnState, inst: MirInst, l: LocalId)
    requires
        tainted_out(st, l),
    ensures
        tainted_out(own_step(locals, st, inst), l),
{
    match inst {
        MirInst::Call { dest, callee, args } => {
            let s1 = match dest {
                Some(d) => if spec_result_fresh(callee@) && !st.1.contains(d) { root(st, d) } else { taint(st, d) },
                None => st,
            };
            lemma_args_keep_taint(s1, callee@, args@, l);
        },
        MirInst::CallIndirect { dest, args, .. } => {
            let s1 = match dest {
                Some(d) => taint(st, d),
                None => st,
            };
            lemma_args_keep_taint(s1, Seq::empty(), args@, l);
        },
        _ => {},
    }
}

/// Once the ownership analysis taints a local that it does not root, the
/// local stays tainted and unrooted for the rest of the pass: a local
/// passed to a callee that takes it, stored into an aggregate or copied
/// away never becomes dealloc-safe again, not even by a new allocation into
/// it.
pub proof fn law_taint_is_permanent(locals: Seq<MirLocal>, insts: Seq<MirInst>, i: int, j: int, l: LocalId)
    requires
        0 <= i <= j <= insts.len(),
        tainted_out(own_run(locals, insts.take(i)), l),
    ensures
        tainted_out(own_run(locals, insts.take(j)), l),
        j == insts.len() ==> !own_run(locals, insts).0.contains(l),
    decreases j - i,
{
    if i < j {
        law_taint_is_permanent(locals, insts, i, j - 1, l);
        let pre = insts.take(j - 1);
        assert(insts.take(j).drop_last() =~= pre);
        assert(insts.take(j).last() == insts[j - 1]);
        lemma_step_keeps_taint(locals, own_run(locals, pre), insts[j - 1], l);
    }
    if j == insts.len() {
        assert(insts.take(j) =~= insts);
    }
}

} // verus!
