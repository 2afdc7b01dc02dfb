//! Constructing values of classes, structs and enums.
use vstd::prelude::*;

use crate::hir::types::{copy_ty, copy_tys, ty_same, tys_same, Ty};
use crate::mir::lower::expr::binops::{emitted_assign, local_value, numeric_kind, spec_numeric_kind};
use crate::mir::lower::util::local_to_value;
use crate::mir::nodes::{BlockId, LocalId, MirFunction, MirInst, MirValue};

verus! {

/// Whether a value of type `v` stored into a field of type `t` has to be
/// re-materialized at the field's type first: both are numeric and differ.
pub open spec fn needs_field_coercion(v: Ty, t: Ty) -> bool {
    spec_numeric_kind(v) is Some && spec_numeric_kind(t) is Some && v != t
}

/// Two numeric types are the same type.
fn same_numeric(a: &Ty, b: &Ty) -> (r: bool)
    requires
        spec_numeric_kind(*a) is Some,
        spec_numeric_kind(*b) is Some,
    ensures
        r == (*a == *b),
{
    match (a, b) {
        (Ty::Int, Ty::Int) | (Ty::Int8, Ty::Int8) | (Ty::Int16, Ty::Int16) | (Ty::Int32, Ty::Int32)
        | (Ty::Int64, Ty::Int64) | (Ty::ISize, Ty::ISize) | (Ty::UInt, Ty::UInt) | (Ty::UInt8, Ty::UInt8)
        | (Ty::UInt16, Ty::UInt16) | (Ty::UInt32, Ty::UInt32) | (Ty::UInt64, Ty::UInt64)
        | (Ty::USize, Ty::USize) | (Ty::Float, Ty::Float) | (Ty::Float32, Ty::Float32)
        | (Ty::Float64, Ty::Float64) => true,
        _ => false,
    }
}

/// Bring the value `val` that is stored into a field of type `field_ty` to
/// the field's width in block `b` of `f`: where the value's local and the
/// field are numeric types that differ, a fresh temporary of the field's
/// type is assigned from it and returned. Otherwise (no value, a value id
/// outside `f`'s locals, equal or non-numeric types) nothing is emitted
/// and `val` is returned.
pub fn coerce_to_field_ty(f: &mut MirFunction, b: BlockId, val: Option<LocalId>, field_ty: &Ty) -> (r: Option<
    LocalId,
>)
    requires
        b < old(f).blocks@.len(),
        old(f).next_temp < u32::MAX,
    ensures
        ({
            let f0 = *old(f);
            let n = f0.locals@.len();
            match val {
                Some(v) if v < n && needs_field_coercion(f0.locals@[v as int].ty, *field_ty) => {
                    &&& r == Some(n as u32)
                    &&& final(f).locals@.len() == n + 1
                    &&& final(f).locals@.take(n as int) == f0.locals@
                    &&& ty_same(final(f).locals@[n as int].ty, *field_ty)
                    &&& emitted_assign(f0, *final(f), b as int, n as u32, v)
                },
                _ => r == val && *final(f) == f0,
            }
        }),
{
    let v = match val {
        Some(v) => v,
        None => return None,
    };
    if v as usize >= f.locals.len() {
        return Some(v);
    }
    let numeric = numeric_kind(&f.locals[v as usize].ty).is_some() && numeric_kind(field_ty).is_some();
    if !numeric || same_numeric(&f.locals[v as usize].ty, field_ty) {
        return Some(v);
    }
    let dest = f.new_temp(copy_ty(field_ty));
    f.blocks[b].instructions.push(MirInst::Assign { dest, value: MirValue::Use(v) });
    Some(dest)
}

/// Store the value `val` (already lowered) into field `index` of `base` in
/// block `b` of `f`, first brought to the slot's type `slot_ty` where one
/// is known (see `coerce_to_field_ty`).
pub fn store_field(
    f: &mut MirFunction,
    b: BlockId,
    base: LocalId,
    index: usize,
    val: Option<LocalId>,
    slot_ty: Option<&Ty>,
)
    requires
        b < old(f).blocks@.len(),
        old(f).next_temp < u32::MAX,
    ensures
        ({
            let f0 = *old(f);
            let n = f0.locals@.len();
            let i0 = f0.blocks@[b as int].instructions@;
            let converted = slot_ty matches Some(t) && val matches Some(v) && v < n && needs_field_coercion(
                f0.locals@[v as int].ty,
                *t,
            );
            let set = MirInst::SetField {
                base,
                field_index: index,
                value: if converted { MirValue::Use(n as u32) } else { local_value(val) },
            };
            if converted {
                &&& final(f).locals@.len() == n + 1
                &&& final(f).locals@.take(n as int) == f0.locals@
                &&& ty_same(final(f).locals@[n as int].ty, *slot_ty->0)
                &&& final(f).blocks@.len() == f0.blocks@.len()
                &&& final(f).blocks@[b as int].instructions@ == i0 + seq![
                    MirInst::Assign { dest: n as u32, value: MirValue::Use(val->0) },
                    set,
                ]
            } else {
                &&& final(f).locals == f0.locals
                &&& final(f).blocks@.len() == f0.blocks@.len()
                &&& final(f).blocks@[b as int].instructions@ == i0.push(set)
            }
        }),
        forall|k: int| 0 <= k < old(f).blocks@.len() && k != b ==> #[trigger] final(f).blocks@[k] == old(f).blocks@[k],
        final(f).blocks@[b as int].id == old(f).blocks@[b as int].id,
        final(f).blocks@[b as int].terminator == old(f).blocks@[b as int].terminator,
{
    let ghost f0 = *f;
    let ghost i0 = f.blocks@[b as int].instructions@;
    let v = match slot_ty {
        Some(t) => coerce_to_field_ty(f, b, val, t),
        None => val,
    };
    f.blocks[b].instructions.push(MirInst::SetField { base, field_index: index, value: local_to_value(v) });
    proof {
        if f.locals@.len() > f0.locals@.len() {
            assert(f.blocks@[b as int].instructions@ =~= i0 + seq![
                MirInst::Assign { dest: f0.locals@.len() as u32, value: MirValue::Use(val->0) },
                MirInst::SetField { base, field_index: index, value: MirValue::Use(f0.locals@.len() as u32) },
            ]);
        }
    }
}

/// The slot types of a tuple type, in order; none for any other type.
pub fn tuple_slot_types(t: &Ty) -> (r: Vec<Ty>)
    ensures
        match *t {
            Ty::Tuple(ts) => tys_same(r@, ts@),
            _ => r@.len() == 0,
        },
{
    match t {
        Ty::Tuple(ts) => copy_tys(ts),
        _ => Vec::new(),
    }
}

/// Begin the value of an enum variant of type `ty` (`size` bytes, as the
/// allocator lays it out) in block `b` of `f`: a fresh temporary is
/// allocated and tagged with the variant's index; for a variant with
/// fields, a second temporary points at its payload, where the fields go.
/// Returns the two temporaries.
pub fn begin_enum_variant(
    f: &mut MirFunction,
    b: BlockId,
    ty: &Ty,
    size: usize,
    variant_idx: usize,
    has_fields: bool,
) -> (r: (LocalId, Option<LocalId>))
    requires
        b < old(f).blocks@.len(),
        old(f).next_temp + 2 < u32::MAX,
        old(f).locals@.len() + 2 <= u32::MAX,
    ensures
        ({
            let f0 = *old(f);
            let n = f0.locals@.len() as int;
            let i0 = f0.blocks@[b as int].instructions@;
            let ins = final(f).blocks@[b as int].instructions@;
            &&& r.0 == n
            &&& ty_same(final(f).locals@[n].ty, *ty)
            &&& final(f).locals@.take(n) == f0.locals@
            &&& ins.len() == i0.len() + (if has_fields { 3int } else { 2int })
            &&& ins.take(i0.len() as int) == i0
            &&& ins[i0.len() as int] matches MirInst::Alloc { dest, ty: t, size: s } && dest == n && ty_same(t, *ty) && s == size
            &&& ins[i0.len() as int + 1] == MirInst::SetTag { dest: n as u32, tag: variant_idx as u32 }
            &&& if has_fields {
                &&& r.1 == Some((n + 1) as u32)
                &&& final(f).locals@.len() == n + 2
                &&& ty_same(final(f).locals@[n + 1].ty, *ty)
                &&& ins[i0.len() as int + 2] matches MirInst::GetPayload { dest: p, src, ty: t } && p == n + 1 && src == n
                    && ty_same(t, *ty)
            } else {
                r.1 is None && final(f).locals@.len() == n + 1
            }
        }),
        final(f).blocks@.len() == old(f).blocks@.len(),
        forall|k: int| 0 <= k < old(f).blocks@.len() && k != b ==> #[trigger] final(f).blocks@[k] == old(f).blocks@[k],
        final(f).blocks@[b as int].id == old(f).blocks@[b as int].id,
        final(f).blocks@[b as int].terminator == old(f).blocks@[b as int].terminator,
{
    let ghost f0 = *f;
    let ghost i0 = f.blocks@[b as int].instructions@;
    let dest = f.new_temp(copy_ty(ty));
    f.blocks[b].instructions.push(MirInst::Alloc { dest, ty: copy_ty(ty), size });
    f.blocks[b].instructions.push(MirInst::SetTag { dest, tag: variant_idx as u32 });
    if !has_fields {
        proof {
            assert(f.blocks@[b as int].instructions@.take(i0.len() as int) =~= i0);
        }
        return (dest, None);
    }
    let ghost f1 = *f;
    let payload = f.new_temp(copy_ty(ty));
    f.blocks[b].instructions.push(MirInst::GetPayload { dest: payload, src: dest, ty: copy_ty(ty) });
    proof {
        assert(f.blocks@[b as int].instructions@.take(i0.len() as int) =~= i0);
        assert(f.locals@.take(f0.locals@.len() as int) =~= f0.locals@) by {
            assert(f.locals@.take(f0.locals@.len() as int) =~= f.locals@.take(f1.locals@.len() as int).take(
                f0.locals@.len() as int,
            ));
        }
        assert(f.locals@[f0.locals@.len() as int] == f1.locals@[f0.locals@.len() as int]);
    }
    (dest, Some(payload))
}

} // verus!
