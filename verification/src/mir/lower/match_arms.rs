//! `match` on an enum-like scrutinee: the switch on its tag and the chain
//! of arms.
//!
//! Every arm gets an entry block, except that the first wildcard or binding
//! arm lives in the switch's fallback block. An arm whose pattern or guard
//! fails falls through to the next arm that could still match the same
//! variant (one of that variant or a wildcard), else to the fallback. The
//! switch sends each variant to the first arm naming it.
use vstd::prelude::*;

use std::collections::HashMap;

use crate::hir::nodes::{DefId, HirMatchArm, HirPattern};
use crate::hir::types::{copy_ty, ty_same, Ty};
use crate::mir::lower::util::local_to_value;
use crate::mir::nodes::{int_lit, BasicBlock, BlockId, CmpOp, Literal, LocalId, MirFunction, MirInst, MirValue, Terminator};

verus! {

broadcast use vstd::std_specs::hash::group_hash_axioms;

/// The variant an arm's pattern names, or `None` for a pattern that
/// matches any variant (a wildcard or a binding).
pub open spec fn arm_variant(arm: HirMatchArm) -> Option<i64> {
    match arm.pattern {
        HirPattern::Enum { variant_idx, .. } => Some(variant_idx as i64),
        _ => None,
    }
}

/// Some arm before `i` matches any variant.
pub open spec fn wild_before(ks: Seq<Option<i64>>, i: int) -> bool {
    exists|k: int| 0 <= k < i && ks[k] is None
}

/// The entry block of arm `i`: the fallback `otherwise` for the first arm
/// that matches any variant, else the next of the fresh blocks numbered
/// from `base`, in the order of the arms.
pub open spec fn arm_entry(ks: Seq<Option<i64>>, i: int, otherwise: int, base: int) -> int {
    if ks[i] is None && !wild_before(ks, i) {
        otherwise
    } else {
        base + i - (if wild_before(ks, i) { 1int } else { 0int })
    }
}

/// Arm `j` can still match where arm `i` failed: it matches any variant,
/// or the same one.
pub open spec fn catches(ks: Seq<Option<i64>>, i: int, j: int) -> bool {
    ks[j] is None || ks[j] == ks[i]
}

/// Where arm `i` goes when its pattern or guard fails: the entry of the
/// first later arm that can still match, else `otherwise`.
pub open spec fn arm_fallthrough(ks: Seq<Option<i64>>, i: int, otherwise: int, base: int) -> int {
    if exists|j: int| i < j < ks.len() && catches(ks, i, j) {
        let j = choose|j: int| i < j < ks.len() && catches(ks, i, j) && forall|k: int| i < k < j ==> !catches(ks, i, k);
        arm_entry(ks, j, otherwise, base)
    } else {
        otherwise
    }
}

/// The switch targets over the first `i` arms: each variant, in the order
/// of its first arm, to that arm's entry.
pub open spec fn switch_targets(ks: Seq<Option<i64>>, i: int, otherwise: int, base: int) -> Seq<(i64, int)>
    decreases i,
{
    if i <= 0 {
        Seq::empty()
    } else {
        let t = switch_targets(ks, i - 1, otherwise, base);
        match ks[i - 1] {
            Some(v) => if exists|k: int| 0 <= k < i - 1 && ks[k] == Some(v) {
                t
            } else {
                t.push((v, arm_entry(ks, i - 1, otherwise, base)))
            },
            None => t,
        }
    }
}

/// `st` has a target for the variant `v`.
pub open spec fn has_target(st: Seq<(i64, int)>, v: i64) -> bool {
    exists|t: int| 0 <= t < st.len() && #[trigger] st[t].0 == v
}

/// One of the first `i` arms names the variant `v`.
pub open spec fn named_before(ks: Seq<Option<i64>>, i: int, v: i64) -> bool {
    exists|k: int| 0 <= k < i && #[trigger] ks[k] == Some(v)
}

/// A variant has a switch target over the first `i` arms exactly when one
/// of them names it.
proof fn lemma_targets_variants(ks: Seq<Option<i64>>, i: int, otherwise: int, base: int)
    requires
        0 <= i <= ks.len(),
    ensures
        forall|v: i64| #[trigger] has_target(switch_targets(ks, i, otherwise, base), v) == named_before(ks, i, v),
    decreases i,
{
    if i > 0 {
        lemma_targets_variants(ks, i - 1, otherwise, base);
        let prev = switch_targets(ks, i - 1, otherwise, base);
        let cur = switch_targets(ks, i, otherwise, base);
        assert forall|v: i64| #[trigger] has_target(cur, v) == named_before(ks, i, v) by {
            assert(has_target(prev, v) == named_before(ks, i - 1, v));
            if has_target(cur, v) {
                let t = choose|t: int| 0 <= t < cur.len() && #[trigger] cur[t].0 == v;
                if t < prev.len() {
                    assert(prev[t] == cur[t]);
                    assert(has_target(prev, v));
                    let k = choose|k: int| 0 <= k < i - 1 && #[trigger] ks[k] == Some(v);
                    assert(0 <= k < i && ks[k] == Some(v));
                } else {
                    assert(ks[i - 1] == Some(v));
                }
            }
            if named_before(ks, i, v) {
                let k = choose|k: int| 0 <= k < i && #[trigger] ks[k] == Some(v);
                if named_before(ks, i - 1, v) {
                    let t = choose|t: int| 0 <= t < prev.len() && #[trigger] prev[t].0 == v;
                    assert(cur[t] == prev[t]);
                } else {
                    assert(k == i - 1);
                    assert(!(exists|k2: int| 0 <= k2 < i - 1 && ks[k2] == Some(v))) by {
                        if exists|k2: int| 0 <= k2 < i - 1 && ks[k2] == Some(v) {
                            let k2 = choose|k2: int| 0 <= k2 < i - 1 && ks[k2] == Some(v);
                            assert(named_before(ks, i - 1, v));
                        }
                    }
                    assert(cur[prev.len() as int].0 == v);
                }
            }
        }
    }
}

/// The switch of an enum `match` sends each variant to one block: no
/// variant has two targets.
pub proof fn law_switch_targets_distinct(ks: Seq<Option<i64>>, i: int, otherwise: int, base: int)
    requires
        0 <= i <= ks.len(),
    ensures
        forall|t1: int, t2: int|
            0 <= t1 < t2 < switch_targets(ks, i, otherwise, base).len() ==> (#[trigger] switch_targets(
                ks,
                i,
                otherwise,
                base,
            )[t1]).0 != (#[trigger] switch_targets(ks, i, otherwise, base)[t2]).0,
    decreases i,
{
    if i > 0 {
        law_switch_targets_distinct(ks, i - 1, otherwise, base);
        lemma_targets_variants(ks, i - 1, otherwise, base);
        let prev = switch_targets(ks, i - 1, otherwise, base);
        let cur = switch_targets(ks, i, otherwise, base);
        assert forall|t1: int, t2: int| 0 <= t1 < t2 < cur.len() implies (#[trigger] cur[t1]).0 != (#[trigger] cur[t2]).0 by {
            if t2 < prev.len() {
                assert(cur[t1] == prev[t1] && cur[t2] == prev[t2]);
            } else {
                let v = cur[t2].0;
                assert(cur[t1] == prev[t1]);
                if prev[t1].0 == v {
                    assert(has_target(prev, v));
                    assert(named_before(ks, i - 1, v));
                    let k = choose|k: int| 0 <= k < i - 1 && #[trigger] ks[k] == Some(v);
                    assert(exists|k2: int| 0 <= k2 < i - 1 && ks[k2] == Some(v));
                }
            }
        }
    }
}

/// The blocks of an enum `match` and how its arms are reached.
pub struct EnumMatchPlan {
    /// The switch's fallback.
    pub otherwise: BlockId,
    /// Each arm's entry block.
    pub entries: Vec<BlockId>,
    /// Where each arm goes when its pattern or guard fails.
    pub fallthroughs: Vec<BlockId>,
    /// The switch targets: a variant and the block it goes to.
    pub targets: Vec<(i64, BlockId)>,
}

/// The variants the arms name, in order.
pub open spec fn arm_variants(arms: Seq<HirMatchArm>) -> Seq<Option<i64>> {
    arms.map_values(|a: HirMatchArm| arm_variant(a))
}

/// A fresh empty block is appended to `f` for the fallback and for every
/// arm entry but the first wildcard's: `f1` is `f0` with them.
pub open spec fn plan_blocks_made(f0: MirFunction, f1: MirFunction, count: int) -> bool {
    let m = f0.blocks@.len() as int;
    &&& f1.blocks@.len() == m + count
    &&& f1.blocks@.take(m) == f0.blocks@
    &&& forall|k: int| m <= k < m + count ==> (#[trigger] f1.blocks@[k]).id == k
        && f1.blocks@[k].instructions@.len() == 0 && f1.blocks@[k].terminator is Unreachable
    &&& f1.locals == f0.locals
    &&& f1.next_temp == f0.next_temp
    &&& f1.name == f0.name
    &&& f1.params == f0.params
    &&& f1.return_ty == f0.return_ty
    &&& f1.entry_block == f0.entry_block
}

/// Lay out the dispatch of an enum `match` with the arms `arms` in `f`:
/// the fallback block, then one block for each arm but the first wildcard
/// (see the module's documentation, `arm_entry`, `arm_fallthrough` and
/// `switch_targets`).
pub fn plan_enum_match(f: &mut MirFunction, arms: &Vec<HirMatchArm>) -> (p: EnumMatchPlan)
    requires
        old(f).blocks@.len() + arms@.len() + 1 <= usize::MAX,
    ensures
        ({
            let ks = arm_variants(arms@);
            let m = old(f).blocks@.len() as int;
            let fresh = arms@.len() - (if exists|k: int| 0 <= k < ks.len() && ks[k] is None { 1int } else { 0int });
            &&& p.otherwise == m
            &&& plan_blocks_made(*old(f), *final(f), 1 + fresh)
            &&& p.entries@.len() == arms@.len()
            &&& p.fallthroughs@.len() == arms@.len()
            &&& forall|i: int| 0 <= i < arms@.len() ==> #[trigger] p.entries@[i] == arm_entry(ks, i, m, m + 1)
            &&& forall|i: int| 0 <= i < arms@.len() ==> #[trigger] p.fallthroughs@[i] == arm_fallthrough(ks, i, m, m + 1)
            &&& p.targets@.len() == switch_targets(ks, arms@.len() as int, m, m + 1).len()
            &&& forall|t: int| 0 <= t < p.targets@.len() ==> {
                let e = #[trigger] p.targets@[t];
                let s = switch_targets(ks, arms@.len() as int, m, m + 1)[t];
                e.0 == s.0 && e.1 == s.1
            }
        }),
{
    let ghost ks = arm_variants(arms@);
    let ghost f0 = *f;
    let m = f.blocks.len();
    let otherwise = f.new_block();
    // Entry blocks.
    let mut entries: Vec<BlockId> = Vec::new();
    let mut wild_placed = false;
    let mut i: usize = 0;
    while i < arms.len()
        invariant
            ks == arm_variants(arms@),
            i <= arms@.len(),
            m == f0.blocks@.len(),
            otherwise == m,
            m + arms@.len() + 1 <= usize::MAX,
            wild_placed == wild_before(ks, i as int),
            entries@.len() == i,
            forall|k: int| 0 <= k < i ==> #[trigger] entries@[k] == arm_entry(ks, k, m as int, m + 1),
            plan_blocks_made(f0, *f, 1 + i - (if wild_placed { 1int } else { 0int })),
        decreases arms@.len() - i,
    {
        let is_wild = !matches!(arms[i].pattern, HirPattern::Enum { .. });
        assert(is_wild == (ks[i as int] is None));
        let block = if is_wild && !wild_placed {
            wild_placed = true;
            otherwise
        } else {
            let ghost fb = *f;
            let nb = f.new_block();
            proof {
                assert(f.blocks@.take(m as int) =~= fb.blocks@.take(m as int));
                assert forall|k: int| m <= k < f.blocks@.len() implies (#[trigger] f.blocks@[k]).id == k
                    && f.blocks@[k].instructions@.len() == 0 && f.blocks@[k].terminator is Unreachable by {
                    if k < fb.blocks@.len() {
                        assert(f.blocks@[k] == fb.blocks@[k]);
                    }
                }
            }
            nb
        };
        entries.push(block);
        proof {
            assert(wild_before(ks, i + 1) == (wild_before(ks, i as int) || ks[i as int] is None)) by {
                if ks[i as int] is None {
                    assert(0 <= i < i + 1 && ks[i as int] is None);
                }
                if wild_before(ks, i as int) {
                    let k = choose|k: int| 0 <= k < i && ks[k] is None;
                    assert(0 <= k < i + 1 && ks[k] is None);
                }
            }
        }
        i = i + 1;
    }
    proof {
        assert(wild_placed == exists|k: int| 0 <= k < ks.len() && ks[k] is None);
    }
    // Fallthroughs.
    let mut fallthroughs: Vec<BlockId> = Vec::new();
    let mut i: usize = 0;
    while i < arms.len()
        invariant
            ks == arm_variants(arms@),
            i <= arms@.len(),
            entries@.len() == arms@.len(),
            forall|k: int| 0 <= k < arms@.len() ==> #[trigger] entries@[k] == arm_entry(ks, k, m as int, m + 1),
            otherwise == m,
            fallthroughs@.len() == i,
            forall|k: int| 0 <= k < i ==> #[trigger] fallthroughs@[k] == arm_fallthrough(ks, k, m as int, m + 1),
        decreases arms@.len() - i,
    {
        let this_variant = arm_variant_of(&arms[i]);
        let mut target = otherwise;
        let mut j: usize = i + 1;
        let mut found = false;
        while j < arms.len() && !found
            invariant
                ks == arm_variants(arms@),
                i < j <= arms@.len(),
                this_variant == ks[i as int],
                found ==> j < arms@.len() && catches(ks, i as int, j as int),
                forall|k: int| i < k < j ==> !catches(ks, i as int, k),
            decreases arms@.len() - j, (if found { 0int } else { 1int }),
        {
            let other = arm_variant_of(&arms[j]);
            let caught = match other {
                None => true,
                Some(v) => match this_variant {
                    Some(w) => v == w,
                    None => false,
                },
            };
            if caught {
                found = true;
            } else {
                j = j + 1;
            }
        }
        if found {
            target = entries[j];
            proof {
                let jj = choose|jj: int| i < jj < ks.len() && catches(ks, i as int, jj) && forall|k: int|
                    i < k < jj ==> !catches(ks, i as int, k);
                assert(i < j < ks.len() && catches(ks, i as int, j as int) && forall|k: int|
                    i < k < j ==> !catches(ks, i as int, k));
                assert(jj == j) by {
                    if jj < j {
                        assert(!catches(ks, i as int, jj));
                    } else if jj > j {
                        assert(i < j < jj);
                        assert(!catches(ks, i as int, j as int));
                    }
                }
                assert(target == arm_fallthrough(ks, i as int, m as int, m + 1));
            }
        } else {
            proof {
                assert(!(exists|jj: int| i < jj < ks.len() && catches(ks, i as int, jj)));
                assert(target == arm_fallthrough(ks, i as int, m as int, m + 1));
            }
        }
        fallthroughs.push(target);
        i = i + 1;
    }
    // Switch targets: each variant, first arm first.
    let mut targets: Vec<(i64, BlockId)> = Vec::new();
    let mut i: usize = 0;
    while i < arms.len()
        invariant
            ks == arm_variants(arms@),
            i <= arms@.len(),
            entries@.len() == arms@.len(),
            forall|k: int| 0 <= k < arms@.len() ==> #[trigger] entries@[k] == arm_entry(ks, k, m as int, m + 1),
            targets@.len() == switch_targets(ks, i as int, m as int, m + 1).len(),
            forall|t: int| 0 <= t < targets@.len() ==> {
                let e = #[trigger] targets@[t];
                let s = switch_targets(ks, i as int, m as int, m + 1)[t];
                e.0 == s.0 && e.1 == s.1
            },
        decreases arms@.len() - i,
    {
        let ghost st = switch_targets(ks, i as int, m as int, m + 1);
        match arm_variant_of(&arms[i]) {
            Some(v) => {
                let mut seen = false;
                let mut t: usize = 0;
                while t < targets.len()
                    invariant
                        t <= targets@.len(),
                        seen == exists|u: int| 0 <= u < t && targets@[u].0 == v,
                    decreases targets@.len() - t,
                {
                    if targets[t].0 == v {
                        seen = true;
                    }
                    t = t + 1;
                }
                proof {
                    lemma_targets_variants(ks, i as int, m as int, m + 1);
                    if seen {
                        let u = choose|u: int| 0 <= u < targets@.len() && targets@[u].0 == v;
                        assert(st[u].0 == v);
                        assert(has_target(st, v));
                        assert(named_before(ks, i as int, v));
                    } else {
                        assert forall|u: int| 0 <= u < st.len() implies st[u].0 != v by {
                            assert(targets@[u].0 == st[u].0);
                        }
                        assert(!has_target(st, v));
                        assert(!named_before(ks, i as int, v));
                    }
                }
                if !seen {
                    targets.push((v, entries[i]));
                }
            },
            None => {},
        }
        i = i + 1;
    }
    EnumMatchPlan { otherwise, entries, fallthroughs, targets }
}

/// The variant an arm's pattern names (see `arm_variant`).
fn arm_variant_of(arm: &HirMatchArm) -> (r: Option<i64>)
    ensures
        r == arm_variant(*arm),
{
    match &arm.pattern {
        HirPattern::Enum { variant_idx, .. } => Some(*variant_idx as i64),
        _ => None,
    }
}

/// A `match` dispatches on the scrutinee's tag: the scrutinee is an enum,
/// a `Result` or an `Option`, or some arm names a variant.
pub open spec fn spec_is_enum_match(scrutinee_ty: Ty, arms: Seq<HirMatchArm>) -> bool {
    scrutinee_ty is Enum || scrutinee_ty is Result || scrutinee_ty is Option || exists|i: int|
        0 <= i < arms.len() && (#[trigger] arms[i]).pattern is Enum
}

/// Whether a `match` on a scrutinee of type `scrutinee_ty` with the arms
/// `arms` dispatches on the tag (see `spec_is_enum_match`).
pub fn is_enum_match(scrutinee_ty: &Ty, arms: &Vec<HirMatchArm>) -> (r: bool)
    ensures
        r == spec_is_enum_match(*scrutinee_ty, arms@),
{
    if matches!(scrutinee_ty, Ty::Enum { .. } | Ty::Result(_, _) | Ty::Option(_)) {
        return true;
    }
    let mut i: usize = 0;
    while i < arms.len()
        invariant
            i <= arms@.len(),
            forall|k: int| 0 <= k < i ==> !((#[trigger] arms@[k]).pattern is Enum),
        decreases arms@.len() - i,
    {
        if matches!(arms[i].pattern, HirPattern::Enum { .. }) {
            return true;
        }
        i = i + 1;
    }
    false
}

/// Read the tag of the scrutinee `scrut` (already lowered) in block `b` of
/// `f` into a fresh `Int32` temporary. A scrutinee with no value is first
/// given one: a fresh temporary of its type `scrutinee_ty` set to 0.
/// Returns the scrutinee's local and the tag's.
pub fn enum_match_tag(f: &mut MirFunction, b: BlockId, scrut: Option<LocalId>, scrutinee_ty: &Ty) -> (r: (
    LocalId,
    LocalId,
))
    requires
        b < old(f).blocks@.len(),
        old(f).next_temp + 2 < u32::MAX,
        old(f).locals@.len() + 2 <= u32::MAX,
    ensures
        ({
            let f0 = *old(f);
            let n = f0.locals@.len() as int;
            let i0 = f0.blocks@[b as int].instructions@;
            let ins = final(f).blocks@[b as int].instructions@;
            match scrut {
                Some(s) => {
                    &&& r == (s, n as u32)
                    &&& final(f).locals@.len() == n + 1
                    &&& final(f).locals@[n].ty == Ty::Int32
                    &&& ins == i0.push(MirInst::GetTag { dest: n as u32, src: s })
                },
                None => {
                    &&& r == (n as u32, (n + 1) as u32)
                    &&& final(f).locals@.len() == n + 2
                    &&& ty_same(final(f).locals@[n].ty, *scrutinee_ty)
                    &&& final(f).locals@[n + 1].ty == Ty::Int32
                    &&& ins == i0 + seq![
                        MirInst::Assign { dest: n as u32, value: int_lit(0) },
                        MirInst::GetTag { dest: (n + 1) as u32, src: n as u32 },
                    ]
                },
            }
        }),
        final(f).locals@.take(old(f).locals@.len() as int) == old(f).locals@,
        final(f).blocks@.len() == old(f).blocks@.len(),
        forall|k: int| 0 <= k < old(f).blocks@.len() && k != b ==> #[trigger] final(f).blocks@[k] == old(f).blocks@[k],
        final(f).blocks@[b as int].id == old(f).blocks@[b as int].id,
        final(f).blocks@[b as int].terminator == old(f).blocks@[b as int].terminator,
{
    let ghost f0 = *f;
    let ghost i0 = f.blocks@[b as int].instructions@;
    let s = match scrut {
        Some(s) => s,
        None => {
            let tmp = f.new_temp(copy_ty(scrutinee_ty));
            f.blocks[b].instructions.push(MirInst::Assign { dest: tmp, value: MirValue::Literal(Literal::Int(0)) });
            tmp
        },
    };
    let ghost f1 = *f;
    let tag = f.new_temp(Ty::Int32);
    f.blocks[b].instructions.push(MirInst::GetTag { dest: tag, src: s });
    proof {
        let n = f0.locals@.len() as int;
        assert(f.locals@.take(n) =~= f0.locals@) by {
            assert(f.locals@.take(n) =~= f.locals@.take(f1.locals@.len() as int).take(n));
        }
        if scrut is None {
            assert(f.locals@[n] == f1.locals@[n]);
            assert(f.blocks@[b as int].instructions@ =~= i0 + seq![
                MirInst::Assign { dest: n as u32, value: int_lit(0) },
                MirInst::GetTag { dest: (n + 1) as u32, src: n as u32 },
            ]);
        }
    }
    (s, tag)
}

/// End block `b` of `f` with the switch of a `match` on the tag `tag`,
/// laid out by `plan` (see `plan_enum_match`).
pub fn emit_enum_switch(f: &mut MirFunction, b: BlockId, tag: LocalId, plan: EnumMatchPlan)
    requires
        b < old(f).blocks@.len(),
    ensures
        final(f).blocks@.len() == old(f).blocks@.len(),
        forall|k: int| 0 <= k < old(f).blocks@.len() && k != b ==> #[trigger] final(f).blocks@[k] == old(f).blocks@[k],
        final(f).blocks@[b as int].id == old(f).blocks@[b as int].id,
        final(f).blocks@[b as int].instructions == old(f).blocks@[b as int].instructions,
        final(f).blocks@[b as int].terminator == (Terminator::Switch {
            value: MirValue::Use(tag),
            targets: plan.targets,
            otherwise: plan.otherwise,
        }),
        final(f).locals == old(f).locals,
{
    f.blocks[b].terminator = Terminator::Switch {
        value: MirValue::Use(tag),
        targets: plan.targets,
        otherwise: plan.otherwise,
    };
}

/// The payload field types of a variant of `Option` or `Result` read off
/// the scrutinee's type `t`: `Some` (index 1) holds the option's type,
/// `Ok` (0) and `Err` (1) the result's. `None` for every other variant and
/// type, whose field types the enum's definition gives.
pub open spec fn builtin_variant_fields(t: Ty, variant_idx: usize) -> Option<Ty> {
    match t {
        Ty::Option(inner) => if variant_idx == 1 {
            Some(*inner)
        } else {
            None
        },
        Ty::Result(ok, err) => if variant_idx == 0 {
            Some(*ok)
        } else if variant_idx == 1 {
            Some(*err)
        } else {
            None
        },
        _ => None,
    }
}

/// The single payload field type of an `Option` or `Result` variant (see
/// `builtin_variant_fields`).
pub fn builtin_variant_field(t: &Ty, variant_idx: usize) -> (r: Option<Ty>)
    ensures
        match builtin_variant_fields(*t, variant_idx) {
            Some(x) => r matches Some(y) && ty_same(y, x),
            None => r is None,
        },
{
    match t {
        Ty::Option(inner) => if variant_idx == 1 {
            Some(copy_ty(inner))
        } else {
            None
        },
        Ty::Result(ok, err) => if variant_idx == 0 {
            Some(copy_ty(ok))
        } else if variant_idx == 1 {
            Some(copy_ty(err))
        } else {
            None
        },
        _ => None,
    }
}

/// A payload type whose value owns heap memory that only a drop frees.
pub open spec fn owns_heap(t: Ty) -> bool {
    t is Class || t is Struct || t is String || t is Array || t is Mapping || t is SetOf
}

/// The type of a payload field: the one known, else `Int`.
pub open spec fn field_ty_or_int(t: Option<Ty>) -> Ty {
    match t {
        Some(x) => x,
        None => Ty::Int,
    }
}

/// `f1` is `f0` with `extra` fresh locals and the instructions `insts`
/// appended to block `b`; nothing else changes.
pub open spec fn block_extended(f0: MirFunction, f1: MirFunction, b: int, extra: int, insts: Seq<MirInst>) -> bool {
    &&& f1.locals@.len() == f0.locals@.len() + extra
    &&& f1.locals@.take(f0.locals@.len() as int) == f0.locals@
    &&& forall|k: int| f0.locals@.len() <= k < f1.locals@.len() ==> (#[trigger] f1.locals@[k]).id == k
    &&& f1.blocks@.len() == f0.blocks@.len()
    &&& forall|k: int| 0 <= k < f0.blocks@.len() && k != b ==> #[trigger] f1.blocks@[k] == f0.blocks@[k]
    &&& f1.blocks@[b].id == f0.blocks@[b].id
    &&& f1.blocks@[b].terminator == f0.blocks@[b].terminator
    &&& f1.blocks@[b].instructions@ == f0.blocks@[b].instructions@ + insts
    &&& f1.name == f0.name
    &&& f1.params == f0.params
    &&& f1.return_ty == f0.return_ty
    &&& f1.entry_block == f0.entry_block
}

/// Load the payload pointer of the enum value `src` (of type `ty`) into a
/// fresh temporary of that type in block `b` of `f`.
pub fn load_payload(f: &mut MirFunction, b: BlockId, src: LocalId, ty: &Ty) -> (p: LocalId)
    requires
        b < old(f).blocks@.len(),
        old(f).next_temp < u32::MAX,
        old(f).locals@.len() < u32::MAX,
    ensures
        p == old(f).locals@.len(),
        ty_same(final(f).locals@[p as int].ty, *ty),
        !final(f).locals@[p as int].mutable,
        block_extended(*old(f), *final(f), b as int, 1, seq![final(f).blocks@[b as int].instructions@.last()]),
        final(f).blocks@[b as int].instructions@.last() matches MirInst::GetPayload { dest, src: s2, ty: t } && dest == p
            && s2 == src && ty_same(t, *ty),
{
    let ghost i0 = f.blocks@[b as int].instructions@;
    let p = f.new_temp(copy_ty(ty));
    f.blocks[b].instructions.push(MirInst::GetPayload { dest: p, src, ty: copy_ty(ty) });
    proof {
        assert(f.blocks@[b as int].instructions@ =~= i0 + seq![f.blocks@[b as int].instructions@.last()]);
    }
    p
}

/// Bind the payload field `idx` (of type `field_ty`, `Int` where unknown)
/// of the enum whose payload pointer is `payload`, as the field pattern
/// `pat` asks, in block `b` of `f`:
/// - a binding (`x`, `var x`, `ref x`): a local of the binding's name, type
///   and mutability, recorded in `def_to_local`, loaded from the field;
/// - at the outer level (`outer`), a discarded field (`_`) whose type owns
///   heap memory: a fresh temporary loaded from the field, so that a drop
///   at scope exit frees it;
/// - at the outer level, a nested variant pattern: the field (the inner
///   enum value) is loaded into a fresh temporary, which is returned for
///   the inner fields to be bound from;
/// - anything else: nothing.
pub fn bind_payload_field(
    f: &mut MirFunction,
    b: BlockId,
    def_to_local: &mut HashMap<DefId, LocalId>,
    payload: LocalId,
    idx: usize,
    pat: &HirPattern,
    field_ty: Option<&Ty>,
    outer: bool,
) -> (r: Option<LocalId>)
    requires
        b < old(f).blocks@.len(),
        old(f).next_temp < u32::MAX,
        old(f).locals@.len() < u32::MAX,
    ensures
        ({
            let f0 = *old(f);
            let n = f0.locals@.len() as int;
            let t = field_ty_or_int(
                match field_ty {
                    Some(x) => Some(*x),
                    None => None,
                },
            );
            let load = seq![MirInst::GetField { dest: n as u32, base: payload, field_index: idx }];
            match *pat {
                HirPattern::Binding { def_id, name, mutable, .. } => {
                    &&& block_extended(f0, *final(f), b as int, 1, load)
                    &&& final(f).locals@[n].name@ == name@ && ty_same(final(f).locals@[n].ty, t)
                        && final(f).locals@[n].mutable == mutable
                    &&& final(def_to_local)@ == old(def_to_local)@.insert(def_id, n as u32)
                    &&& r is None
                },
                HirPattern::Ref { def_id, name, mutable, .. } => {
                    &&& block_extended(f0, *final(f), b as int, 1, load)
                    &&& final(f).locals@[n].name@ == name@ && ty_same(final(f).locals@[n].ty, t)
                        && final(f).locals@[n].mutable == mutable
                    &&& final(def_to_local)@ == old(def_to_local)@.insert(def_id, n as u32)
                    &&& r is None
                },
                HirPattern::Wildcard => {
                    &&& final(def_to_local)@ == old(def_to_local)@
                    &&& r is None
                    &&& if outer && owns_heap(t) {
                        block_extended(f0, *final(f), b as int, 1, load) && ty_same(final(f).locals@[n].ty, t)
                            && !final(f).locals@[n].mutable
                    } else {
                        *final(f) == f0
                    }
                },
                HirPattern::Enum { .. } => {
                    &&& final(def_to_local)@ == old(def_to_local)@
                    &&& if outer {
                        &&& block_extended(f0, *final(f), b as int, 1, load)
                        &&& ty_same(final(f).locals@[n].ty, t) && !final(f).locals@[n].mutable
                        &&& r == Some(n as u32)
                    } else {
                        *final(f) == f0 && r is None
                    }
                },
                _ => *final(f) == f0 && final(def_to_local)@ == old(def_to_local)@ && r is None,
            }
        }),
{
    let ghost f0 = *f;
    let ghost i0 = f.blocks@[b as int].instructions@;
    let ty = match field_ty {
        Some(t) => copy_ty(t),
        None => Ty::Int,
    };
    match pat {
        HirPattern::Binding { def_id, name, mutable, .. } | HirPattern::Ref { def_id, name, mutable, .. } => {
            let local = f.new_local(name.as_str(), ty, *mutable);
            def_to_local.insert(*def_id, local);
            f.blocks[b].instructions.push(MirInst::GetField { dest: local, base: payload, field_index: idx });
            proof {
                assert(f.blocks@[b as int].instructions@ =~= i0 + seq![
                    MirInst::GetField { dest: local, base: payload, field_index: idx },
                ]);
            }
            None
        },
        HirPattern::Wildcard => {
            let heap = matches!(
                ty,
                Ty::Class { .. } | Ty::Struct { .. } | Ty::String | Ty::Array(_) | Ty::Mapping(_, _) | Ty::SetOf(_)
            );
            if outer && heap {
                let tmp = f.new_temp(ty);
                f.blocks[b].instructions.push(MirInst::GetField { dest: tmp, base: payload, field_index: idx });
                proof {
                    assert(f.blocks@[b as int].instructions@ =~= i0 + seq![
                        MirInst::GetField { dest: tmp, base: payload, field_index: idx },
                    ]);
                }
            }
            None
        },
        HirPattern::Enum { .. } => {
            if !outer {
                return None;
            }
            let inner = f.new_temp(ty);
            f.blocks[b].instructions.push(MirInst::GetField { dest: inner, base: payload, field_index: idx });
            proof {
                assert(f.blocks@[b as int].instructions@ =~= i0 + seq![
                    MirInst::GetField { dest: inner, base: payload, field_index: idx },
                ]);
            }
            Some(inner)
        },
        _ => None,
    }
}

/// For an arm whose whole pattern is a binding, bind the scrutinee `scrut`
/// (of type `scrutinee_ty`) to it in block `b` of `f`: a local of the
/// binding's name, the scrutinee's type and the binding's mutability,
/// recorded in `def_to_local` and assigned the scrutinee. Any other pattern
/// binds nothing here.
pub fn bind_whole_scrutinee(
    f: &mut MirFunction,
    b: BlockId,
    def_to_local: &mut HashMap<DefId, LocalId>,
    pat: &HirPattern,
    scrut: LocalId,
    scrutinee_ty: &Ty,
)
    requires
        b < old(f).blocks@.len(),
        old(f).locals@.len() < u32::MAX,
    ensures
        ({
            let f0 = *old(f);
            let n = f0.locals@.len() as int;
            match *pat {
                HirPattern::Binding { def_id, name, mutable, .. } => {
                    &&& block_extended(
                        f0,
                        *final(f),
                        b as int,
                        1,
                        seq![MirInst::Assign { dest: n as u32, value: MirValue::Use(scrut) }],
                    )
                    &&& final(f).locals@[n].name@ == name@ && ty_same(final(f).locals@[n].ty, *scrutinee_ty)
                        && final(f).locals@[n].mutable == mutable
                    &&& final(def_to_local)@ == old(def_to_local)@.insert(def_id, n as u32)
                },
                _ => *final(f) == f0 && final(def_to_local)@ == old(def_to_local)@,
            }
        }),
{
    let ghost i0 = f.blocks@[b as int].instructions@;
    match pat {
        HirPattern::Binding { def_id, name, mutable, .. } => {
            let local = f.new_local(name.as_str(), copy_ty(scrutinee_ty), *mutable);
            def_to_local.insert(*def_id, local);
            f.blocks[b].instructions.push(MirInst::Assign { dest: local, value: MirValue::Use(scrut) });
            proof {
                assert(f.blocks@[b as int].instructions@ =~= i0 + seq![
                    MirInst::Assign { dest: local, value: MirValue::Use(scrut) },
                ]);
            }
        },
        _ => {},
    }
}

/// The local that holds the value of a `match` of type `ty`: a fresh
/// temporary, except that a `match` of type unit or never has none.
pub fn match_result_local(f: &mut MirFunction, ty: &Ty) -> (r: Option<LocalId>)
    requires
        old(f).next_temp < u32::MAX,
    ensures
        if *ty is Unit || *ty is Never {
            r is None && *final(f) == *old(f)
        } else {
            &&& r == Some(old(f).locals@.len() as u32)
            &&& final(f).locals@.len() == old(f).locals@.len() + 1
            &&& final(f).locals@.take(old(f).locals@.len() as int) == old(f).locals@
            &&& ty_same(final(f).locals@.last().ty, *ty)
            &&& final(f).blocks == old(f).blocks
        },
{
    match ty {
        Ty::Unit | Ty::Never => None,
        _ => Some(f.new_temp(copy_ty(ty))),
    }
}

/// End block `b` of `f`, where an arm's pattern bindings were emitted, with
/// the test of its guard `guard`: a fresh block (returned) for the body
/// when it holds, `fallthrough` when it does not.
pub fn guard_branch(f: &mut MirFunction, b: BlockId, guard: MirValue, fallthrough: BlockId) -> (body: BlockId)
    requires
        b < old(f).blocks@.len(),
    ensures
        body == old(f).blocks@.len(),
        final(f).blocks@.len() == old(f).blocks@.len() + 1,
        forall|k: int| 0 <= k < old(f).blocks@.len() && k != b ==> #[trigger] final(f).blocks@[k] == old(f).blocks@[k],
        final(f).blocks@[b as int].id == old(f).blocks@[b as int].id,
        final(f).blocks@[b as int].instructions == old(f).blocks@[b as int].instructions,
        final(f).blocks@[b as int].terminator == (Terminator::Branch { cond: guard, then_block: body, else_block: fallthrough }),
        final(f).blocks@[body as int].id == body && final(f).blocks@[body as int].instructions@.len() == 0
            && final(f).blocks@[body as int].terminator is Unreachable,
        final(f).locals == old(f).locals,
{
    let ghost g = guard;
    let body = f.new_block();
    f.blocks[b].terminator = Terminator::Branch { cond: guard, then_block: body, else_block: fallthrough };
    body
}

/// Close an arm whose body was lowered, ending in block `b` with the value
/// `body_result`: where the block has no terminator yet, the value is
/// assigned to the match's result local (if it has one) and the block goes
/// to `merge`. A block that already ends (in a `return` or `break`) is
/// left as it is.
pub fn finish_arm(f: &mut MirFunction, b: BlockId, result: Option<LocalId>, body_result: Option<LocalId>, merge: BlockId)
    requires
        b < old(f).blocks@.len(),
    ensures
        final(f).locals == old(f).locals,
        final(f).blocks@.len() == old(f).blocks@.len(),
        forall|k: int| 0 <= k < old(f).blocks@.len() && k != b ==> #[trigger] final(f).blocks@[k] == old(f).blocks@[k],
        final(f).blocks@[b as int].id == old(f).blocks@[b as int].id,
        if old(f).blocks@[b as int].terminator is Unreachable {
            &&& final(f).blocks@[b as int].terminator == Terminator::Goto(merge)
            &&& final(f).blocks@[b as int].instructions@ == match result {
                Some(d) => old(f).blocks@[b as int].instructions@.push(
                    MirInst::Assign {
                        dest: d,
                        value: match body_result {
                            Some(id) => MirValue::Use(id),
                            None => MirValue::Unit,
                        },
                    },
                ),
                None => old(f).blocks@[b as int].instructions@,
            }
        } else {
            final(f).blocks@[b as int] == old(f).blocks@[b as int]
        },
{
    if matches!(f.blocks[b].terminator, Terminator::Unreachable) {
        if let Some(d) = result {
            f.blocks[b].instructions.push(MirInst::Assign { dest: d, value: local_to_value(body_result) });
        }
        f.blocks[b].terminator = Terminator::Goto(merge);
    }
}

/// The blocks of one arm of a `match` on a value that is not enum-like,
/// tested arm after arm: the body block, the block of the next test (the
/// merge block after the last arm) and the block the pattern test goes to
/// when it matches (the body, or a block that tests the guard first).
#[derive(Debug, Clone, Copy)]
pub struct CascadeArm {
    pub body: BlockId,
    pub next: BlockId,
    pub target: BlockId,
}

/// Lay out the blocks of one arm of a cascading `match` in `f` (see
/// `CascadeArm`): the body block, then the next test's block unless this is
/// the last arm, then the guard's block if the arm has a guard, each fresh
/// and empty.
pub fn cascade_arm_blocks(f: &mut MirFunction, is_last: bool, has_guard: bool, merge: BlockId) -> (a: CascadeArm)
    requires
        old(f).blocks@.len() + 3 <= usize::MAX,
    ensures
        ({
            let m = old(f).blocks@.len() as int;
            let fresh = 1 + (if is_last { 0int } else { 1int }) + (if has_guard { 1int } else { 0int });
            &&& plan_blocks_made(*old(f), *final(f), fresh)
            &&& a.body == m
            &&& a.next == (if is_last { merge as int } else { m + 1 })
            &&& a.target == (if has_guard { m + fresh - 1 } else { m })
        }),
{
    let ghost f0 = *f;
    let body = f.new_block();
    let ghost f1 = *f;
    let next = if is_last {
        merge
    } else {
        f.new_block()
    };
    let ghost f2 = *f;
    let target = if has_guard {
        f.new_block()
    } else {
        body
    };
    proof {
        let m = f0.blocks@.len() as int;
        assert(f.blocks@.take(m) =~= f0.blocks@) by {
            assert(f.blocks@.take(m) =~= f2.blocks@.take(f2.blocks@.len() as int).take(m));
            assert(f2.blocks@.take(m) =~= f1.blocks@.take(f1.blocks@.len() as int).take(m));
        }
        assert forall|k: int| m <= k < f.blocks@.len() implies (#[trigger] f.blocks@[k]).id == k
            && f.blocks@[k].instructions@.len() == 0 && f.blocks@[k].terminator is Unreachable by {
            if k < f2.blocks@.len() {
                assert(f.blocks@[k] == f2.blocks@[k]);
                if k < f1.blocks@.len() {
                    assert(f2.blocks@[k] == f1.blocks@[k]);
                }
            }
        }
    }
    CascadeArm { body, next, target }
}

/// The pattern test of a cascading `match` arm whose pattern is a literal,
/// in block `b` of `f`: the scrutinee `scrut` is compared with the literal
/// (already lowered to `lit`) into a fresh `Bool` temporary, and the block
/// goes to `target` when they are equal, else to `next`. With no scrutinee
/// value the arm is taken.
pub fn cascade_literal_test(
    f: &mut MirFunction,
    b: BlockId,
    scrut: Option<LocalId>,
    lit: Option<LocalId>,
    target: BlockId,
    next: BlockId,
)
    requires
        b < old(f).blocks@.len(),
        old(f).next_temp < u32::MAX,
        old(f).locals@.len() < u32::MAX,
    ensures
        final(f).blocks@.len() == old(f).blocks@.len(),
        forall|k: int| 0 <= k < old(f).blocks@.len() && k != b ==> #[trigger] final(f).blocks@[k] == old(f).blocks@[k],
        final(f).blocks@[b as int].id == old(f).blocks@[b as int].id,
        match scrut {
            Some(s) => {
                let n = old(f).locals@.len() as int;
                &&& final(f).locals@.len() == n + 1
                &&& final(f).locals@.take(n) == old(f).locals@
                &&& final(f).locals@[n].ty == Ty::Bool
                &&& final(f).blocks@[b as int].instructions@ == old(f).blocks@[b as int].instructions@.push(
                    MirInst::Compare {
                        dest: n as u32,
                        op: CmpOp::Eq,
                        lhs: MirValue::Use(s),
                        rhs: match lit {
                            Some(l) => MirValue::Use(l),
                            None => MirValue::Unit,
                        },
                    },
                )
                &&& final(f).blocks@[b as int].terminator == (Terminator::Branch {
                    cond: MirValue::Use(n as u32),
                    then_block: target,
                    else_block: next,
                })
            },
            None => {
                &&& final(f).locals == old(f).locals
                &&& final(f).blocks@[b as int].instructions == old(f).blocks@[b as int].instructions
                &&& final(f).blocks@[b as int].terminator == Terminator::Goto(target)
            },
        },
{
    match scrut {
        Some(s) => {
            let eq = f.new_temp(Ty::Bool);
            f.blocks[b].instructions.push(
                MirInst::Compare { dest: eq, op: CmpOp::Eq, lhs: MirValue::Use(s), rhs: local_to_value(lit) },
            );
            f.blocks[b].terminator = Terminator::Branch { cond: MirValue::Use(eq), then_block: target, else_block: next };
        },
        None => {
            f.blocks[b].terminator = Terminator::Goto(target);
        },
    }
}

} // verus!
