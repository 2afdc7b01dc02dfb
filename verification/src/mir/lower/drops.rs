//! Drop elaboration fix-ups on lowered MIR.
use vstd::prelude::*;

use std::collections::HashMap;

use crate::mir::nodes::{BasicBlock, LocalId, MirFunction, MirInst, MirProgram, MirValue, Terminator};
use crate::text::str_eq;

pub mod scope_exit;

verus! {

broadcast use vstd::std_specs::hash::group_hash_axioms;

/// The local that block `b` returns, when it ends in `return <local>`.
pub open spec fn returned_local(b: BasicBlock) -> Option<LocalId> {
    match b.terminator {
        Terminator::Return(Some(MirValue::Use(l))) => Some(l),
        _ => None,
    }
}

/// `f` returns its `self` argument: it has a first parameter, some block
/// returns a local, and every block that returns a local returns that
/// parameter.
pub open spec fn returns_self(f: MirFunction) -> bool {
    &&& f.params@.len() > 0
    &&& exists|b: int| 0 <= b < f.blocks@.len() && (#[trigger] returned_local(f.blocks@[b])) is Some
    &&& forall|b: int|
        0 <= b < f.blocks@.len() && (#[trigger] returned_local(f.blocks@[b])) is Some
            ==> returned_local(f.blocks@[b]) == Some(f.params@[0])
}

/// The names of the functions of `fns` that return their `self` argument.
pub open spec fn self_returning_names(fns: Seq<MirFunction>) -> Set<Seq<char>> {
    Set::new(|s: Seq<char>| exists|k: int| 0 <= k < fns.len() && returns_self(fns[k]) && #[trigger] fns[k].name@ == s)
}

/// Some function of `fns` returns its `self` argument.
pub open spec fn some_returns_self(fns: Seq<MirFunction>) -> bool {
    exists|k: int| 0 <= k < fns.len() && #[trigger] returns_self(fns[k])
}

/// Which instruction last produced each local of a block, after its first
/// `n` instructions: a named or indirect call with a destination records
/// itself, and `dest = src` passes on what `src` had.
pub open spec fn provenance(insts: Seq<MirInst>, n: int) -> Map<LocalId, usize>
    decreases n,
{
    if n <= 0 {
        Map::empty()
    } else {
        let m = provenance(insts, n - 1);
        match insts[n - 1] {
            MirInst::Call { dest: Some(d), .. } => m.insert(d, (n - 1) as usize),
            MirInst::CallIndirect { dest: Some(d), .. } => m.insert(d, (n - 1) as usize),
            MirInst::Assign { dest, value: MirValue::Use(src) } => if m.contains_key(src) {
                m.insert(dest, m[src])
            } else {
                m
            },
            _ => m,
        }
    }
}

/// The callee name a call records: its name, or `<indirect>` for a call
/// through a closure or function pointer.
pub open spec fn record_name(inst: MirInst) -> Seq<char> {
    match inst {
        MirInst::Call { callee, .. } => callee@,
        MirInst::CallIndirect { .. } => "<indirect>"@,
        _ => Seq::empty(),
    }
}

/// `r` is among the arguments a call's result may alias: any local argument
/// of a named call, or of an indirect call but its leading captures pointer.
pub open spec fn record_aliases(inst: MirInst, r: LocalId) -> bool {
    match inst {
        MirInst::Call { args, .. } => exists|k: int|
            0 <= k < args@.len() && (#[trigger] args@[k]) == MirValue::Use(r),
        MirInst::CallIndirect { args, .. } => exists|k: int|
            1 <= k < args@.len() && (#[trigger] args@[k]) == MirValue::Use(r),
        _ => false,
    }
}

/// Instruction `i` is a `ruxen_dealloc(R)` directly followed by `R = X`,
/// where `X` last came from a call that may return `R`: a call that takes
/// `R` and is named in `listed` or is indirect.
pub open spec fn elided_at(listed: Set<Seq<char>>, insts: Seq<MirInst>, i: int) -> bool {
    match insts[i] {
        MirInst::Call { callee, args, .. } => callee@ == "ruxen_dealloc"@ && args@.len() == 1
            && match args@[0] {
            MirValue::Use(r) => i + 1 < insts.len() && match insts[i + 1] {
                MirInst::Assign { dest, value: MirValue::Use(x) } => {
                    let prov = provenance(insts, i + 1);
                    &&& dest == r
                    &&& prov.contains_key(x)
                    &&& record_aliases(insts[prov[x] as int], r)
                    &&& (listed.contains(record_name(insts[prov[x] as int]))
                        || record_name(insts[prov[x] as int]) == "<indirect>"@)
                },
                _ => false,
            },
            _ => false,
        },
        _ => false,
    }
}

/// The instructions from index `i` on that are kept.
pub open spec fn kept_from(listed: Set<Seq<char>>, insts: Seq<MirInst>, i: int) -> Seq<MirInst>
    decreases insts.len() - i,
{
    if i >= insts.len() || i < 0 {
        Seq::empty()
    } else if elided_at(listed, insts, i) {
        kept_from(listed, insts, i + 1)
    } else {
        seq![insts[i]] + kept_from(listed, insts, i + 1)
    }
}

/// A block's instructions after the fix-up over program `fns`: nothing
/// changes when no function returns `self`.
pub open spec fn elide_block(fns: Seq<MirFunction>, insts: Seq<MirInst>) -> Seq<MirInst> {
    if some_returns_self(fns) {
        kept_from(self_returning_names(fns), insts, 0)
    } else {
        insts
    }
}

/// `g` is `f` with the instructions of every block fixed up.
pub open spec fn elided_function(fns: Seq<MirFunction>, f: MirFunction, g: MirFunction) -> bool {
    &&& g.name == f.name
    &&& g.params == f.params
    &&& g.return_ty == f.return_ty
    &&& g.locals == f.locals
    &&& g.entry_block == f.entry_block
    &&& g.next_temp == f.next_temp
    &&& g.blocks@.len() == f.blocks@.len()
    &&& forall|b: int|
        #![trigger g.blocks@[b]]
        0 <= b < f.blocks@.len() ==> {
            &&& g.blocks@[b].id == f.blocks@[b].id
            &&& g.blocks@[b].terminator == f.blocks@[b].terminator
            &&& g.blocks@[b].instructions@ == elide_block(fns, f.blocks@[b].instructions@)
        }
}

/// `s` is one of `names`.
pub open spec fn names_has(names: Seq<String>, s: Seq<char>) -> bool {
    exists|j: int| 0 <= j < names.len() && #[trigger] names[j]@ == s
}

/// `s` names one of the first `k` functions of `fns` that return `self`.
pub open spec fn named_self_returning(fns: Seq<MirFunction>, k: int, s: Seq<char>) -> bool {
    exists|m: int| 0 <= m < k && returns_self(fns[m]) && #[trigger] fns[m].name@ == s
}

/// `names` lists exactly the strings of `listed`.
pub open spec fn names_are(names: Seq<String>, listed: Set<Seq<char>>) -> bool {
    forall|s: Seq<char>| #[trigger] listed.contains(s) <==> names_has(names, s)
}

/// Does `f` return its `self` argument?
fn function_returns_self(f: &MirFunction) -> (r: bool)
    ensures
        r == returns_self(*f),
{
    if f.params.len() == 0 {
        return false;
    }
    let self_id = f.params[0];
    let mut saw_return = false;
    let mut all_return_self = true;
    let mut b: usize = 0;
    while b < f.blocks.len() && all_return_self
        invariant
            b <= f.blocks@.len(),
            f.params@.len() > 0,
            self_id == f.params@[0],
            saw_return <==> exists|j: int| 0 <= j < b && (#[trigger] returned_local(f.blocks@[j])) is Some,
            all_return_self <==> forall|j: int|
                0 <= j < b && (#[trigger] returned_local(f.blocks@[j])) is Some
                    ==> returned_local(f.blocks@[j]) == Some(self_id),
        decreases f.blocks@.len() - b,
    {
        match &f.blocks[b].terminator {
            Terminator::Return(Some(MirValue::Use(local))) => {
                assert(returned_local(f.blocks@[b as int]) == Some(*local));
                saw_return = true;
                if *local != self_id {
                    all_return_self = false;
                }
            },
            _ => {
                assert(returned_local(f.blocks@[b as int]) is None);
            },
        }
        b = b + 1;
    }
    saw_return && all_return_self
}

/// Is `s` one of `names`?
fn listed_name(names: &Vec<String>, s: &str) -> (r: bool)
    ensures
        r == exists|j: int| 0 <= j < names@.len() && #[trigger] names@[j]@ == s@,
{
    let mut j: usize = 0;
    while j < names.len()
        invariant
            j <= names@.len(),
            forall|k: int| 0 <= k < j ==> (#[trigger] names@[k])@ != s@,
        decreases names@.len() - j,
    {
        if str_eq(names[j].as_str(), s) {
            return true;
        }
        j = j + 1;
    }
    false
}

/// Does the call `inst` take `r` among the arguments its result may alias?
fn call_aliases(inst: &MirInst, r: LocalId) -> (a: bool)
    ensures
        a == record_aliases(*inst, r),
{
    let (args, first) = match inst {
        MirInst::Call { args, .. } => (args, 0),
        MirInst::CallIndirect { args, .. } => (args, 1),
        _ => {
            return false;
        },
    };
    let mut k: usize = first;
    while k < args.len()
        invariant
            first == 0 || first == 1,
            inst is Call ==> first == 0 && *inst == (MirInst::Call { dest: inst->Call_dest, callee: inst->Call_callee, args: *args }),
            inst is CallIndirect ==> first == 1 && *inst == (MirInst::CallIndirect { dest: inst->CallIndirect_dest, callee: inst->CallIndirect_callee, args: *args }),
            inst is Call || inst is CallIndirect,
            first <= k,
            forall|m: int| first <= m < k ==> (#[trigger] args@[m]) != MirValue::Use(r),
        decreases args@.len() - k,
    {
        match &args[k] {
            MirValue::Use(l) => {
                if *l == r {
                    return true;
                }
            },
            _ => {},
        }
        k = k + 1;
    }
    false
}

/// May the call `inst` return its argument: is it named in `names`, or
/// indirect?
fn call_may_return_self(inst: &MirInst, names: &Vec<String>, Ghost(listed): Ghost<Set<Seq<char>>>) -> (c: bool)
    requires
        names_are(names@, listed),
    ensures
        c == (listed.contains(record_name(*inst)) || record_name(*inst) == "<indirect>"@),
{
    proof {
        reveal_strlit("<indirect>");
    }
    match inst {
        MirInst::Call { callee, .. } => {
            let l = listed_name(names, callee.as_str());
            let ind = str_eq(callee.as_str(), "<indirect>");
            assert(listed.contains(callee@) == l);
            l || ind
        },
        MirInst::CallIndirect { .. } => true,
        _ => {
            proof {
                reveal_strlit("");
            }
            assert(record_name(*inst) =~= ""@);
            let l = listed_name(names, "");
            assert(listed.contains(""@) == l);
            l
        },
    }
}


/// Remove from one block's instructions each `ruxen_dealloc` that
/// `elided_at` picks, keeping the others in order.
fn elide_in_block(insts: &mut Vec<MirInst>, names: &Vec<String>, Ghost(listed): Ghost<Set<Seq<char>>>)
    requires
        names_are(names@, listed),
    ensures
        final(insts)@ == kept_from(listed, old(insts)@, 0),
{
    let ghost s = insts@;
    let n = insts.len();
    let mut last_call: HashMap<LocalId, usize> = HashMap::new();
    let mut flags: Vec<bool> = Vec::new();
    let mut i: usize = 0;
    assert(last_call@ =~= provenance(s, 0));
    while i < n
        invariant
            names_are(names@, listed),
            insts@ == s,
            n == s.len(),
            i <= n,
            flags@.len() == i,
            forall|j: int| 0 <= j < i ==> flags@[j] == elided_at(listed, s, j),
            last_call@ == provenance(s, i as int),
            forall|l: LocalId| #[trigger] last_call@.contains_key(l) ==> last_call@[l] < i,
        decreases n - i,
    {
        let mut remove = false;
        proof {
            reveal_strlit("ruxen_dealloc");
        }
        match &insts[i] {
            MirInst::Call { dest, callee, args } => {
                match dest {
                    Some(d) => {
                        last_call.insert(*d, i);
                    },
                    None => {},
                }
                assert(last_call@ == provenance(s, i + 1));
                if str_eq(callee.as_str(), "ruxen_dealloc") && args.len() == 1 {
                    match &args[0] {
                        MirValue::Use(r) => {
                            if i + 1 < n {
                                match &insts[i + 1] {
                                    MirInst::Assign { dest: a_dest, value: MirValue::Use(x) } => {
                                        if *a_dest == *r {
                                            match last_call.get(x) {
                                                Some(j) => {
                                                    let src = &insts[*j];
                                                    let aliases = call_aliases(src, *r);
                                                    let could = call_may_return_self(src, names, Ghost(listed));
                                                    remove = aliases && could;
                                                },
                                                None => {},
                                            }
                                        }
                                    },
                                    _ => {},
                                }
                            }
                        },
                        _ => {},
                    }
                }
            },
            MirInst::CallIndirect { dest: Some(d), .. } => {
                last_call.insert(*d, i);
            },
            MirInst::Assign { dest, value: MirValue::Use(src) } => {
                match last_call.get(src) {
                    Some(e) => {
                        let e = *e;
                        last_call.insert(*dest, e);
                    },
                    None => {},
                }
            },
            _ => {},
        }
        assert(remove == elided_at(listed, s, i as int));
        flags.push(remove);
        i = i + 1;
    }
    let mut i: usize = n;
    assert(insts@ =~= s.take(n as int) + kept_from(listed, s, n as int));
    while i > 0
        invariant
            flags@.len() == n,
            n == s.len(),
            i <= n,
            forall|j: int| 0 <= j < n ==> flags@[j] == elided_at(listed, s, j),
            insts@ == s.take(i as int) + kept_from(listed, s, i as int),
        decreases i,
    {
        i = i - 1;
        let ghost before = insts@;
        if flags[i] {
            insts.remove(i);
            assert(insts@ =~= s.take(i as int) + kept_from(listed, s, i as int));
        } else {
            assert(before =~= s.take(i as int) + kept_from(listed, s, i as int));
        }
    }
    assert(insts@ =~= kept_from(listed, s, 0));
}


/// Fix up every block of `f`.
fn elide_in_function(f: &mut MirFunction, names: &Vec<String>, Ghost(fns): Ghost<Seq<MirFunction>>)
    requires
        some_returns_self(fns),
        names_are(names@, self_returning_names(fns)),
    ensures
        elided_function(fns, *old(f), *final(f)),
{
    let ghost listed = self_returning_names(fns);
    let ghost f0 = *f;
    let mut b: usize = 0;
    while b < f.blocks.len()
        invariant
            names_are(names@, listed),
            listed == self_returning_names(fns),
            some_returns_self(fns),
            b <= f.blocks@.len(),
            f.blocks@.len() == f0.blocks@.len(),
            f.name == f0.name,
            f.params == f0.params,
            f.return_ty == f0.return_ty,
            f.locals == f0.locals,
            f.entry_block == f0.entry_block,
            f.next_temp == f0.next_temp,
            forall|c: int|
                #![trigger f.blocks@[c]]
                0 <= c < b ==> {
                    &&& f.blocks@[c].id == f0.blocks@[c].id
                    &&& f.blocks@[c].terminator == f0.blocks@[c].terminator
                    &&& f.blocks@[c].instructions@ == elide_block(fns, f0.blocks@[c].instructions@)
                },
            forall|c: int| #![trigger f.blocks@[c]] b <= c < f.blocks@.len() ==> f.blocks@[c] == f0.blocks@[c],
        decreases f.blocks@.len() - b,
    {
        elide_in_block(&mut f.blocks[b].instructions, names, Ghost(listed));
        b = b + 1;
    }
}

/// Undo the use-after-free that rebinding a variable to the result of a
/// method returning `self` would cause.
///
/// Reassigning `r = r.with_status(201)` lowers to
///
/// ```text
///   Call { dest: Some(X), callee: F, args: [Use(R), ...] }
///   Call { dest: None,    callee: "ruxen_dealloc", args: [Use(R)] }
///   Assign { dest: R, value: Use(X) }
/// ```
///
/// and when `F` returns its `self` argument, `X` is `R`: freeing `R` frees
/// the object the assignment keeps. Once every function is lowered it is
/// known which ones return `self` (a first parameter that every block ending
/// in `return <local>` returns, with at least one such block); this pass
/// then removes each `ruxen_dealloc(R)` directly followed by `R = X` where
/// `X` last came (directly or through plain copies) from a call that takes
/// `R` and either is named after such a function or is indirect (through a
/// closure or function pointer, whose leading captures argument is not
/// counted). When no function returns `self`, nothing changes.
pub fn elide_returns_self_realloc(mir: &mut MirProgram)
    ensures
        final(mir).entry == old(mir).entry,
        final(mir).ffi_libs == old(mir).ffi_libs,
        final(mir).vtables == old(mir).vtables,
        final(mir).class_infos == old(mir).class_infos,
        final(mir).functions@.len() == old(mir).functions@.len(),
        forall|k: int|
            #![trigger final(mir).functions@[k]]
            0 <= k < old(mir).functions@.len() ==> elided_function(
                old(mir).functions@,
                old(mir).functions@[k],
                final(mir).functions@[k],
            ),
{
    let ghost fns = mir.functions@;
    let ghost listed = self_returning_names(fns);
    let mut names: Vec<String> = Vec::new();
    let mut k: usize = 0;
    while k < mir.functions.len()
        invariant
            mir.functions@ == fns,
            k <= fns.len(),
            forall|s: Seq<char>| #[trigger] names_has(names@, s) <==> named_self_returning(fns, k as int, s),
            names@.len() == 0 <==> forall|m: int| 0 <= m < k ==> !(#[trigger] returns_self(fns[m])),
        decreases fns.len() - k,
    {
        let ghost before = names@;
        if function_returns_self(&mir.functions[k]) {
            names.push(mir.functions[k].name.clone());
            assert forall|s: Seq<char>| #[trigger] names_has(names@, s) <==> named_self_returning(fns, k + 1, s) by {
                if names_has(names@, s) {
                    let j = choose|j: int| 0 <= j < names@.len() && #[trigger] names@[j]@ == s;
                    if j < before.len() {
                        assert(before[j]@ == s);
                        assert(names_has(before, s));
                    }
                }
                if named_self_returning(fns, k + 1, s) {
                    let m = choose|m: int| 0 <= m < k + 1 && returns_self(fns[m]) && #[trigger] fns[m].name@ == s;
                    if m < k {
                        assert(named_self_returning(fns, k as int, s));
                        assert(names_has(before, s));
                        let j = choose|j: int| 0 <= j < before.len() && #[trigger] before[j]@ == s;
                        assert(names@[j]@ == s);
                    } else {
                        assert(names@[before.len() as int]@ == s);
                    }
                }
            }
        } else {
            assert forall|s: Seq<char>| #[trigger] names_has(names@, s) <==> named_self_returning(fns, k + 1, s) by {
                if named_self_returning(fns, k + 1, s) {
                    let m = choose|m: int| 0 <= m < k + 1 && returns_self(fns[m]) && #[trigger] fns[m].name@ == s;
                    assert(m < k);
                    assert(named_self_returning(fns, k as int, s));
                }
            }
        }
        k = k + 1;
    }
    assert(names_are(names@, listed)) by {
        assert forall|s: Seq<char>| #[trigger] listed.contains(s) <==> names_has(names@, s) by {
            assert(listed.contains(s) <==> named_self_returning(fns, fns.len() as int, s));
        }
    }
    if names.len() == 0 {
        assert(!some_returns_self(fns));
        assert forall|k: int| #![trigger mir.functions@[k]] 0 <= k < fns.len() implies elided_function(fns, fns[k], mir.functions@[k]) by {
            assert forall|b: int| #![trigger fns[k].blocks@[b]] 0 <= b < fns[k].blocks@.len() implies fns[k].blocks@[b].instructions@ == elide_block(fns, fns[k].blocks@[b].instructions@) by {}
        }
        return;
    }
    assert(some_returns_self(fns));
    let mut k: usize = 0;
    while k < mir.functions.len()
        invariant
            mir.functions@.len() == fns.len(),
            k <= fns.len(),
            names_are(names@, listed),
            listed == self_returning_names(fns),
            some_returns_self(fns),
            mir.entry == old(mir).entry,
            mir.ffi_libs == old(mir).ffi_libs,
            mir.vtables == old(mir).vtables,
            mir.class_infos == old(mir).class_infos,
            fns == old(mir).functions@,
            forall|m: int| #![trigger mir.functions@[m]] 0 <= m < k ==> elided_function(fns, fns[m], mir.functions@[m]),
            forall|m: int| #![trigger mir.functions@[m]] k <= m < fns.len() ==> mir.functions@[m] == fns[m],
        decreases fns.len() - k,
    {
        elide_in_function(&mut mir.functions[k], &names, Ghost(fns));
        k = k + 1;
    }
}

// ---------------------------------------------------------------------------
// Laws.
// ---------------------------------------------------------------------------

/// `inst` is a call of `ruxen_dealloc`.
pub open spec fn is_dealloc_call(inst: MirInst) -> bool {
    inst matches MirInst::Call { callee, .. } && callee@ == "ruxen_dealloc"@
}

/// The instructions of `s` other than `ruxen_dealloc` calls, in order.
pub open spec fn without_deallocs(s: Seq<MirInst>) -> Seq<MirInst>
    decreases s.len(),
{
    if s.len() == 0 {
        Seq::empty()
    } else {
        (if is_dealloc_call(s[0]) {
            Seq::empty()
        } else {
            seq![s[0]]
        }) + without_deallocs(s.drop_first())
    }
}

proof fn lemma_kept_without_deallocs(listed: Set<Seq<char>>, insts: Seq<MirInst>, i: int)
    requires
        0 <= i <= insts.len(),
    ensures
        without_deallocs(kept_from(listed, insts, i)) == without_deallocs(insts.skip(i)),
        kept_from(listed, insts, i).len() <= insts.len() - i,
    decreases insts.len() - i,
{
    if i < insts.len() {
        lemma_kept_without_deallocs(listed, insts, i + 1);
        assert(insts.skip(i).drop_first() =~= insts.skip(i + 1));
        assert(insts.skip(i)[0] == insts[i]);
        if !elided_at(listed, insts, i) {
            let k = kept_from(listed, insts, i);
            assert(k[0] == insts[i]);
            assert(k.drop_first() =~= kept_from(listed, insts, i + 1));
        }
    } else {
        assert(insts.skip(i) =~= Seq::<MirInst>::empty());
    }
}

/// The fix-up removes nothing but `ruxen_dealloc` calls: in every block,
/// the other instructions stay, all of them and in their order.
pub proof fn law_elision_removes_only_deallocs(fns: Seq<MirFunction>, f: MirFunction, g: MirFunction)
    requires
        elided_function(fns, f, g),
    ensures
        forall|b: int|
            #![trigger g.blocks@[b]]
            0 <= b < f.blocks@.len() ==> {
                &&& without_deallocs(g.blocks@[b].instructions@) == without_deallocs(f.blocks@[b].instructions@)
                &&& g.blocks@[b].instructions@.len() <= f.blocks@[b].instructions@.len()
            },
{
    assert forall|b: int|
        #![trigger g.blocks@[b]]
        0 <= b < f.blocks@.len() implies {
            &&& without_deallocs(g.blocks@[b].instructions@) == without_deallocs(f.blocks@[b].instructions@)
            &&& g.blocks@[b].instructions@.len() <= f.blocks@[b].instructions@.len()
        } by {
        let insts = f.blocks@[b].instructions@;
        if some_returns_self(fns) {
            lemma_kept_without_deallocs(self_returning_names(fns), insts, 0);
            assert(insts.skip(0) =~= insts);
        }
    }
}

} // verus!
