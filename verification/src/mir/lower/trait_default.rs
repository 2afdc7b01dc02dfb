//! Specializing generic bodies: type parameters replaced by concrete types.
use vstd::prelude::*;

use crate::hir::nodes::{
    HirExpr, HirExprKind, HirFuncDef, HirInterpolationPart, HirMatchArm, HirParam, HirStatement,
};
use crate::hir::types::{lemma_ty_same_refl, ty_same, MixinBound, Ty};
use crate::mir::lower::monomorphize::{all_fully_concrete, lemma_ty_same_concrete, spec_is_fully_concrete};
use crate::text::str_eq;

verus! {

/// The type bound to `name` by the substitution `m`: its first binding.
pub open spec fn subst_lookup(m: Seq<(String, Ty)>, name: Seq<char>) -> Option<Ty>
    decreases m.len(),
{
    if m.len() == 0 {
        None
    } else if m[0].0@ == name {
        Some(m[0].1)
    } else {
        subst_lookup(m.drop_first(), name)
    }
}

/// The type bound to `name` by `subst`, if any.
pub fn lookup_binding<'a>(subst: &'a Vec<(String, Ty)>, name: &String) -> (r: Option<&'a Ty>)
    ensures
        match r {
            Some(t) => subst_lookup(subst@, name@) == Some(*t),
            None => subst_lookup(subst@, name@) is None,
        },
{
    let mut i: usize = 0;
    assert(subst@.skip(0) =~= subst@);
    while i < subst.len()
        invariant
            i <= subst@.len(),
            subst_lookup(subst@.skip(i as int), name@) == subst_lookup(subst@, name@),
        decreases subst@.len() - i,
    {
        assert(subst@.skip(i as int)[0] == subst@[i as int]);
        assert(subst@.skip(i as int).drop_first() =~= subst@.skip(i + 1));
        if subst[i].0 == *name {
            return Some(&subst[i].1);
        }
        i = i + 1;
    }
    None
}

/// `b` is `a` with each type parameter bound by `m` replaced by (a type the
/// same as) its binding, looking through every component type: references,
/// raw pointers, tuples, fixed arrays, options, arrays, sets, maps, results,
/// the parameter and result types of function types, the inner type of a
/// newtype and the target of an alias, the generic arguments of classes,
/// structs and enums, and the generic arguments of mixin bounds (those of
/// `some` / `any` types and of an unbound type parameter's bounds).
/// Everything else is kept as it is.
pub open spec fn subst_rel(a: Ty, b: Ty, m: Seq<(String, Ty)>) -> bool
    decreases a, 0nat,
{
    match a {
        Ty::TypeParam { name, bounds } => match subst_lookup(m, name@) {
            Some(c) => ty_same(b, c),
            None => b matches Ty::TypeParam { name: n2, bounds: b2 } && n2 == name && subst_bounds_rel(
                bounds@,
                b2@,
                m,
            ),
        },
        Ty::Ref(x) => b matches Ty::Ref(y) && subst_rel(*x, *y, m),
        Ty::RefMut(x) => b matches Ty::RefMut(y) && subst_rel(*x, *y, m),
        Ty::RefLifetime(l, x) => b matches Ty::RefLifetime(l2, y) && l2 == l && subst_rel(*x, *y, m),
        Ty::RefMutLifetime(l, x) => b matches Ty::RefMutLifetime(l2, y) && l2 == l && subst_rel(*x, *y, m),
        Ty::RawPtr(x) => b matches Ty::RawPtr(y) && subst_rel(*x, *y, m),
        Ty::Tuple(xs) => b matches Ty::Tuple(ys) && subst_rel_all(xs@, ys@, m),
        Ty::FixedArray(x, n) => b matches Ty::FixedArray(y, n2) && n2 == n && subst_rel(*x, *y, m),
        Ty::Option(x) => b matches Ty::Option(y) && subst_rel(*x, *y, m),
        Ty::Array(x) => b matches Ty::Array(y) && subst_rel(*x, *y, m),
        Ty::SetOf(x) => b matches Ty::SetOf(y) && subst_rel(*x, *y, m),
        Ty::Mapping(k, v) => b matches Ty::Mapping(k2, v2) && subst_rel(*k, *k2, m) && subst_rel(*v, *v2, m),
        Ty::Result(o, e) => b matches Ty::Result(o2, e2) && subst_rel(*o, *o2, m) && subst_rel(*e, *e2, m),
        Ty::Class { name, generic_args } => b matches Ty::Class { name: n2, generic_args: g2 } && n2 == name
            && subst_rel_all(generic_args@, g2@, m),
        Ty::Struct { name, generic_args } => b matches Ty::Struct { name: n2, generic_args: g2 } && n2
            == name && subst_rel_all(generic_args@, g2@, m),
        Ty::Enum { name, generic_args } => b matches Ty::Enum { name: n2, generic_args: g2 } && n2 == name
            && subst_rel_all(generic_args@, g2@, m),
        Ty::Fn { params, ret } => b matches Ty::Fn { params: p2, ret: r2 } && subst_rel_all(params@, p2@, m)
            && subst_rel(*ret, *r2, m),
        Ty::FnMut { params, ret } => b matches Ty::FnMut { params: p2, ret: r2 } && subst_rel_all(
            params@,
            p2@,
            m,
        ) && subst_rel(*ret, *r2, m),
        Ty::FnOnce { params, ret } => b matches Ty::FnOnce { params: p2, ret: r2 } && subst_rel_all(
            params@,
            p2@,
            m,
        ) && subst_rel(*ret, *r2, m),
        Ty::SomeMixin(bs) => b matches Ty::SomeMixin(b2) && subst_bounds_rel(bs@, b2@, m),
        Ty::AnyMixin(bs) => b matches Ty::AnyMixin(b2) && subst_bounds_rel(bs@, b2@, m),
        Ty::Newtype { name, inner } => b matches Ty::Newtype { name: n2, inner: y } && n2 == name && subst_rel(
            *inner,
            *y,
            m,
        ),
        Ty::Alias { name, target } => b matches Ty::Alias { name: n2, target: y } && n2 == name && subst_rel(
            *target,
            *y,
            m,
        ),
        _ => b == a,
    }
}

/// `subst_rel` element by element.
pub open spec fn subst_rel_all(xs: Seq<Ty>, ys: Seq<Ty>, m: Seq<(String, Ty)>) -> bool
    decreases xs, 1nat,
{
    xs.len() == ys.len() && forall|i: int| 0 <= i < xs.len() ==> subst_rel(#[trigger] xs[i], ys[i], m)
}

/// `subst_rel` on the generic arguments of mixin bounds, bound by bound;
/// the bounds' names are kept.
pub open spec fn subst_bounds_rel(xs: Seq<MixinBound>, ys: Seq<MixinBound>, m: Seq<(String, Ty)>) -> bool
    decreases xs, 1nat,
{
    xs.len() == ys.len() && forall|i: int|
        0 <= i < xs.len() ==> ys[i].name == (#[trigger] xs[i]).name && subst_rel_all(
            xs[i].generic_args@,
            ys[i].generic_args@,
            m,
        )
}

/// Wherever concreteness is judged in `t` (see `spec_is_fully_concrete`),
/// every type parameter is bound by `m` to a fully concrete type and there
/// is no inference variable.
pub open spec fn bound_concretely(t: Ty, m: Seq<(String, Ty)>) -> bool
    decreases t, 0nat,
{
    match t {
        Ty::TypeParam { name, .. } => match subst_lookup(m, name@) {
            Some(c) => spec_is_fully_concrete(c),
            None => false,
        },
        Ty::Infer(_) => false,
        Ty::Ref(x) => bound_concretely(*x, m),
        Ty::RefMut(x) => bound_concretely(*x, m),
        Ty::RefLifetime(_, x) => bound_concretely(*x, m),
        Ty::RefMutLifetime(_, x) => bound_concretely(*x, m),
        Ty::FixedArray(x, _) => bound_concretely(*x, m),
        Ty::Option(x) => bound_concretely(*x, m),
        Ty::Array(x) => bound_concretely(*x, m),
        Ty::SetOf(x) => bound_concretely(*x, m),
        Ty::Mapping(k, v) => bound_concretely(*k, m) && bound_concretely(*v, m),
        Ty::Result(o, e) => bound_concretely(*o, m) && bound_concretely(*e, m),
        Ty::Tuple(xs) => all_bound_concretely(xs@, m),
        Ty::Class { generic_args, .. } => all_bound_concretely(generic_args@, m),
        Ty::Struct { generic_args, .. } => all_bound_concretely(generic_args@, m),
        Ty::Enum { generic_args, .. } => all_bound_concretely(generic_args@, m),
        _ => true,
    }
}

/// `bound_concretely` for each type of `ts`.
pub open spec fn all_bound_concretely(ts: Seq<Ty>, m: Seq<(String, Ty)>) -> bool
    decreases ts, 1nat,
{
    forall|i: int| 0 <= i < ts.len() ==> bound_concretely(#[trigger] ts[i], m)
}

/// Substituting fully concrete types for every type parameter that a type
/// mentions (and that has no inference variable) leaves a fully concrete
/// type: a specialized signature is never half substituted.
pub proof fn law_subst_makes_concrete(a: Ty, b: Ty, m: Seq<(String, Ty)>)
    requires
        bound_concretely(a, m),
        subst_rel(a, b, m),
    ensures
        spec_is_fully_concrete(b),
    decreases a, 2nat,
{
    match a {
        Ty::TypeParam { name, .. } => {
            let c = subst_lookup(m, name@)->0;
            lemma_ty_same_concrete(b, c);
        },
        Ty::Ref(x) => law_subst_makes_concrete(*x, *(b->Ref_0), m),
        Ty::RefMut(x) => law_subst_makes_concrete(*x, *(b->RefMut_0), m),
        Ty::RefLifetime(_, x) => law_subst_makes_concrete(*x, *(b->RefLifetime_1), m),
        Ty::RefMutLifetime(_, x) => law_subst_makes_concrete(*x, *(b->RefMutLifetime_1), m),
        Ty::FixedArray(x, _) => law_subst_makes_concrete(*x, *(b->FixedArray_0), m),
        Ty::Option(x) => law_subst_makes_concrete(*x, *(b->Option_0), m),
        Ty::Array(x) => law_subst_makes_concrete(*x, *(b->Array_0), m),
        Ty::SetOf(x) => law_subst_makes_concrete(*x, *(b->SetOf_0), m),
        Ty::Mapping(k, v) => {
            law_subst_makes_concrete(*k, *(b->Mapping_0), m);
            law_subst_makes_concrete(*v, *(b->Mapping_1), m);
        },
        Ty::Result(o, e) => {
            law_subst_makes_concrete(*o, *(b->Result_0), m);
            law_subst_makes_concrete(*e, *(b->Result_1), m);
        },
        Ty::Tuple(xs) => lemma_all_subst_concrete(xs@, (b->Tuple_0)@, m),
        Ty::Class { generic_args, .. } => lemma_all_subst_concrete(generic_args@, (b->Class_generic_args)@, m),
        Ty::Struct { generic_args, .. } => lemma_all_subst_concrete(generic_args@, (b->Struct_generic_args)@, m),
        Ty::Enum { generic_args, .. } => lemma_all_subst_concrete(generic_args@, (b->Enum_generic_args)@, m),
        _ => {},
    }
}

proof fn lemma_all_subst_concrete(xs: Seq<Ty>, ys: Seq<Ty>, m: Seq<(String, Ty)>)
    requires
        all_bound_concretely(xs, m),
        subst_rel_all(xs, ys, m),
    ensures
        all_fully_concrete(ys),
    decreases xs, 1nat,
{
    assert forall|i: int| 0 <= i < ys.len() implies spec_is_fully_concrete(#[trigger] ys[i]) by {
        assert(decreases_to!(xs => xs[i]));
        assert(bound_concretely(xs[i], m));
        law_subst_makes_concrete(xs[i], ys[i], m);
    }
}

/// Substituting with no bindings leaves a type as it is (up to sameness).
pub proof fn law_subst_nothing_bound(a: Ty, b: Ty)
    requires
        subst_rel(a, b, Seq::empty()),
    ensures
        ty_same(b, a),
    decreases a, 2nat,
{
    match a {
        Ty::TypeParam { bounds, .. } => {
            assert(subst_lookup(Seq::empty(), a->TypeParam_name@) is None);
            lemma_bounds_subst_nothing(bounds@, (b->TypeParam_bounds)@);
        },
        Ty::Ref(x) => law_subst_nothing_bound(*x, *(b->Ref_0)),
        Ty::RefMut(x) => law_subst_nothing_bound(*x, *(b->RefMut_0)),
        Ty::RefLifetime(_, x) => law_subst_nothing_bound(*x, *(b->RefLifetime_1)),
        Ty::RefMutLifetime(_, x) => law_subst_nothing_bound(*x, *(b->RefMutLifetime_1)),
        Ty::RawPtr(x) => law_subst_nothing_bound(*x, *(b->RawPtr_0)),
        Ty::FixedArray(x, _) => law_subst_nothing_bound(*x, *(b->FixedArray_0)),
        Ty::Option(x) => law_subst_nothing_bound(*x, *(b->Option_0)),
        Ty::Array(x) => law_subst_nothing_bound(*x, *(b->Array_0)),
        Ty::SetOf(x) => law_subst_nothing_bound(*x, *(b->SetOf_0)),
        Ty::Mapping(k, v) => {
            law_subst_nothing_bound(*k, *(b->Mapping_0));
            law_subst_nothing_bound(*v, *(b->Mapping_1));
        },
        Ty::Result(o, e) => {
            law_subst_nothing_bound(*o, *(b->Result_0));
            law_subst_nothing_bound(*e, *(b->Result_1));
        },
        Ty::Tuple(xs) => lemma_all_subst_nothing(xs@, (b->Tuple_0)@),
        Ty::Class { generic_args, .. } => lemma_all_subst_nothing(generic_args@, (b->Class_generic_args)@),
        Ty::Struct { generic_args, .. } => lemma_all_subst_nothing(generic_args@, (b->Struct_generic_args)@),
        Ty::Enum { generic_args, .. } => lemma_all_subst_nothing(generic_args@, (b->Enum_generic_args)@),
        Ty::Fn { params, ret } => {
            lemma_all_subst_nothing(params@, (b->Fn_params)@);
            law_subst_nothing_bound(*ret, *(b->Fn_ret));
        },
        Ty::FnMut { params, ret } => {
            lemma_all_subst_nothing(params@, (b->FnMut_params)@);
            law_subst_nothing_bound(*ret, *(b->FnMut_ret));
        },
        Ty::FnOnce { params, ret } => {
            lemma_all_subst_nothing(params@, (b->FnOnce_params)@);
            law_subst_nothing_bound(*ret, *(b->FnOnce_ret));
        },
        Ty::SomeMixin(bs) => lemma_bounds_subst_nothing(bs@, (b->SomeMixin_0)@),
        Ty::AnyMixin(bs) => lemma_bounds_subst_nothing(bs@, (b->AnyMixin_0)@),
        Ty::Newtype { inner, .. } => law_subst_nothing_bound(*inner, *(b->Newtype_inner)),
        Ty::Alias { target, .. } => law_subst_nothing_bound(*target, *(b->Alias_target)),
        _ => lemma_ty_same_refl(a),
    }
}

proof fn lemma_all_subst_nothing(xs: Seq<Ty>, ys: Seq<Ty>)
    requires
        subst_rel_all(xs, ys, Seq::empty()),
    ensures
        crate::hir::types::tys_same(ys, xs),
    decreases xs, 1nat,
{
    assert forall|i: int| 0 <= i < ys.len() implies ty_same(#[trigger] ys[i], xs[i]) by {
        assert(decreases_to!(xs => xs[i]));
        law_subst_nothing_bound(xs[i], ys[i]);
    }
}

proof fn lemma_bounds_subst_nothing(xs: Seq<MixinBound>, ys: Seq<MixinBound>)
    requires
        subst_bounds_rel(xs, ys, Seq::empty()),
    ensures
        crate::hir::types::bounds_same(ys, xs),
    decreases xs, 1nat,
{
    assert forall|i: int| 0 <= i < ys.len() implies (#[trigger] ys[i]).name@ == xs[i].name@
        && crate::hir::types::tys_same(ys[i].generic_args@, xs[i].generic_args@) by {
        assert(decreases_to!(xs => xs[i]));
        assert(decreases_to!(xs[i] => xs[i].generic_args));
        assert(decreases_to!(xs[i].generic_args => xs[i].generic_args@));
        lemma_all_subst_nothing(xs[i].generic_args@, ys[i].generic_args@);
    }
}

/// The replacement for `ty` when it is a type parameter bound by `subst`.
fn bound_replacement(ty: &Ty, subst: &Vec<(String, Ty)>) -> (r: Option<Ty>)
    ensures
        match *ty {
            Ty::TypeParam { name, .. } => match subst_lookup(subst@, name@) {
                Some(c) => r matches Some(t) && ty_same(t, c),
                None => r is None,
            },
            _ => r is None,
        },
{
    match ty {
        Ty::TypeParam { name, .. } => match lookup_binding(subst, name) {
            Some(c) => Some(c.clone()),
            None => None,
        },
        _ => None,
    }
}

/// Substitute in place each type parameter of `ty` bound by `subst`.
pub fn subst_type_params_in_ty(ty: &mut Ty, subst: &Vec<(String, Ty)>)
    ensures
        subst_rel(*old(ty), *final(ty), subst@),
    decreases *old(ty), 1nat,
{
    match bound_replacement(ty, subst) {
        Some(c) => {
            *ty = c;
            return;
        },
        None => {},
    }
    match ty {
        Ty::TypeParam { bounds, .. } => subst_type_params_in_bounds(bounds, subst),
        Ty::Ref(inner) => subst_type_params_in_ty(&mut **inner, subst),
        Ty::RefMut(inner) => subst_type_params_in_ty(&mut **inner, subst),
        Ty::RefLifetime(_, inner) => subst_type_params_in_ty(&mut **inner, subst),
        Ty::RefMutLifetime(_, inner) => subst_type_params_in_ty(&mut **inner, subst),
        Ty::RawPtr(inner) => subst_type_params_in_ty(&mut **inner, subst),
        Ty::FixedArray(inner, _) => subst_type_params_in_ty(&mut **inner, subst),
        Ty::Option(inner) => subst_type_params_in_ty(&mut **inner, subst),
        Ty::Array(inner) => subst_type_params_in_ty(&mut **inner, subst),
        Ty::SetOf(inner) => subst_type_params_in_ty(&mut **inner, subst),
        Ty::Mapping(k, v) => {
            subst_type_params_in_ty(&mut **k, subst);
            subst_type_params_in_ty(&mut **v, subst);
        },
        Ty::Result(k, v) => {
            subst_type_params_in_ty(&mut **k, subst);
            subst_type_params_in_ty(&mut **v, subst);
        },
        Ty::Tuple(elems) => subst_type_params_in_tys(elems, subst),
        Ty::Class { generic_args, .. } => subst_type_params_in_tys(generic_args, subst),
        Ty::Struct { generic_args, .. } => subst_type_params_in_tys(generic_args, subst),
        Ty::Enum { generic_args, .. } => subst_type_params_in_tys(generic_args, subst),
        Ty::Fn { params, ret } => {
            subst_type_params_in_tys(params, subst);
            subst_type_params_in_ty(&mut **ret, subst);
        },
        Ty::FnMut { params, ret } => {
            subst_type_params_in_tys(params, subst);
            subst_type_params_in_ty(&mut **ret, subst);
        },
        Ty::FnOnce { params, ret } => {
            subst_type_params_in_tys(params, subst);
            subst_type_params_in_ty(&mut **ret, subst);
        },
        Ty::SomeMixin(bs) => subst_type_params_in_bounds(bs, subst),
        Ty::AnyMixin(bs) => subst_type_params_in_bounds(bs, subst),
        Ty::Newtype { inner, .. } => subst_type_params_in_ty(&mut **inner, subst),
        Ty::Alias { target, .. } => subst_type_params_in_ty(&mut **target, subst),
        _ => {},
    }
}

/// Substitute in place in each type of `tys`.
fn subst_type_params_in_tys(tys: &mut Vec<Ty>, subst: &Vec<(String, Ty)>)
    ensures
        subst_rel_all(old(tys)@, final(tys)@, subst@),
    decreases old(tys)@, 0nat,
{
    let ghost orig = tys@;
    let mut i: usize = 0;
    while i < tys.len()
        invariant
            orig == old(tys)@,
            tys@.len() == orig.len(),
            i <= orig.len(),
            forall|k: int| 0 <= k < i ==> subst_rel(#[trigger] orig[k], tys@[k], subst@),
            forall|k: int| i <= k < orig.len() ==> #[trigger] tys@[k] == orig[k],
        decreases orig.len() - i,
    {
        assert(decreases_to!(orig => orig[i as int]));
        subst_type_params_in_ty(&mut tys[i], subst);
        i = i + 1;
    }
}

/// Substitute in place in the generic arguments of each bound of `bs`.
fn subst_type_params_in_bounds(bs: &mut Vec<MixinBound>, subst: &Vec<(String, Ty)>)
    ensures
        subst_bounds_rel(old(bs)@, final(bs)@, subst@),
    decreases old(bs)@, 0nat,
{
    let ghost orig = bs@;
    let mut i: usize = 0;
    while i < bs.len()
        invariant
            orig == old(bs)@,
            bs@.len() == orig.len(),
            i <= orig.len(),
            forall|k: int|
                0 <= k < i ==> bs@[k].name == (#[trigger] orig[k]).name && subst_rel_all(
                    orig[k].generic_args@,
                    bs@[k].generic_args@,
                    subst@,
                ),
            forall|k: int| i <= k < orig.len() ==> #[trigger] bs@[k] == orig[k],
        decreases orig.len() - i,
    {
        assert(decreases_to!(orig => orig[i as int]));
        assert(decreases_to!(orig[i as int] => orig[i as int].generic_args));
        subst_type_params_in_tys(&mut bs[i].generic_args, subst);
        i = i + 1;
    }
}

/// `b` is `a` with each `Self` type parameter replaced by (a type the same
/// as) `concrete`, looking through every component type as `subst_rel`
/// does. Everything else is kept as it is.
pub open spec fn self_rel(a: Ty, b: Ty, concrete: Ty) -> bool
    decreases a, 0nat,
{
    match a {
        Ty::TypeParam { name, bounds } => if name@ == "Self"@ {
            ty_same(b, concrete)
        } else {
            b matches Ty::TypeParam { name: n2, bounds: b2 } && n2 == name && self_bounds_rel(bounds@, b2@, concrete)
        },
        Ty::Ref(x) => b matches Ty::Ref(y) && self_rel(*x, *y, concrete),
        Ty::RefMut(x) => b matches Ty::RefMut(y) && self_rel(*x, *y, concrete),
        Ty::RefLifetime(l, x) => b matches Ty::RefLifetime(l2, y) && l2 == l && self_rel(*x, *y, concrete),
        Ty::RefMutLifetime(l, x) => b matches Ty::RefMutLifetime(l2, y) && l2 == l && self_rel(*x, *y, concrete),
        Ty::RawPtr(x) => b matches Ty::RawPtr(y) && self_rel(*x, *y, concrete),
        Ty::Tuple(xs) => b matches Ty::Tuple(ys) && self_rel_all(xs@, ys@, concrete),
        Ty::FixedArray(x, n) => b matches Ty::FixedArray(y, n2) && n2 == n && self_rel(*x, *y, concrete),
        Ty::Option(x) => b matches Ty::Option(y) && self_rel(*x, *y, concrete),
        Ty::Array(x) => b matches Ty::Array(y) && self_rel(*x, *y, concrete),
        Ty::SetOf(x) => b matches Ty::SetOf(y) && self_rel(*x, *y, concrete),
        Ty::Mapping(k, v) => b matches Ty::Mapping(k2, v2) && self_rel(*k, *k2, concrete) && self_rel(
            *v,
            *v2,
            concrete,
        ),
        Ty::Result(o, e) => b matches Ty::Result(o2, e2) && self_rel(*o, *o2, concrete) && self_rel(
            *e,
            *e2,
            concrete,
        ),
        Ty::Class { name, generic_args } => b matches Ty::Class { name: n2, generic_args: g2 } && n2 == name
            && self_rel_all(generic_args@, g2@, concrete),
        Ty::Struct { name, generic_args } => b matches Ty::Struct { name: n2, generic_args: g2 } && n2
            == name && self_rel_all(generic_args@, g2@, concrete),
        Ty::Enum { name, generic_args } => b matches Ty::Enum { name: n2, generic_args: g2 } && n2 == name
            && self_rel_all(generic_args@, g2@, concrete),
        Ty::Fn { params, ret } => b matches Ty::Fn { params: p2, ret: r2 } && self_rel_all(params@, p2@, concrete)
            && self_rel(*ret, *r2, concrete),
        Ty::FnMut { params, ret } => b matches Ty::FnMut { params: p2, ret: r2 } && self_rel_all(
            params@,
            p2@,
            concrete,
        ) && self_rel(*ret, *r2, concrete),
        Ty::FnOnce { params, ret } => b matches Ty::FnOnce { params: p2, ret: r2 } && self_rel_all(
            params@,
            p2@,
            concrete,
        ) && self_rel(*ret, *r2, concrete),
        Ty::SomeMixin(bs) => b matches Ty::SomeMixin(b2) && self_bounds_rel(bs@, b2@, concrete),
        Ty::AnyMixin(bs) => b matches Ty::AnyMixin(b2) && self_bounds_rel(bs@, b2@, concrete),
        Ty::Newtype { name, inner } => b matches Ty::Newtype { name: n2, inner: y } && n2 == name && self_rel(
            *inner,
            *y,
            concrete,
        ),
        Ty::Alias { name, target } => b matches Ty::Alias { name: n2, target: y } && n2 == name && self_rel(
            *target,
            *y,
            concrete,
        ),
        _ => b == a,
    }
}

/// `self_rel` element by element.
pub open spec fn self_rel_all(xs: Seq<Ty>, ys: Seq<Ty>, concrete: Ty) -> bool
    decreases xs, 1nat,
{
    xs.len() == ys.len() && forall|i: int| 0 <= i < xs.len() ==> self_rel(#[trigger] xs[i], ys[i], concrete)
}

/// `self_rel` on the generic arguments of mixin bounds, bound by bound; the
/// bounds' names are kept.
pub open spec fn self_bounds_rel(xs: Seq<MixinBound>, ys: Seq<MixinBound>, concrete: Ty) -> bool
    decreases xs, 1nat,
{
    xs.len() == ys.len() && forall|i: int|
        0 <= i < xs.len() ==> ys[i].name == (#[trigger] xs[i]).name && self_rel_all(
            xs[i].generic_args@,
            ys[i].generic_args@,
            concrete,
        )
}

/// `t` mentions the type parameter `Self` where the `Self` rewrite looks
/// (see `self_rel`).
pub open spec fn mentions_self(t: Ty) -> bool
    decreases t, 0nat,
{
    match t {
        Ty::TypeParam { name, bounds } => name@ == "Self"@ || bounds_mention_self(bounds@),
        Ty::Ref(x) => mentions_self(*x),
        Ty::RefMut(x) => mentions_self(*x),
        Ty::RefLifetime(_, x) => mentions_self(*x),
        Ty::RefMutLifetime(_, x) => mentions_self(*x),
        Ty::RawPtr(x) => mentions_self(*x),
        Ty::Tuple(xs) => any_mentions_self(xs@),
        Ty::FixedArray(x, _) => mentions_self(*x),
        Ty::Option(x) => mentions_self(*x),
        Ty::Array(x) => mentions_self(*x),
        Ty::SetOf(x) => mentions_self(*x),
        Ty::Mapping(k, v) => mentions_self(*k) || mentions_self(*v),
        Ty::Result(o, e) => mentions_self(*o) || mentions_self(*e),
        Ty::Class { generic_args, .. } => any_mentions_self(generic_args@),
        Ty::Struct { generic_args, .. } => any_mentions_self(generic_args@),
        Ty::Enum { generic_args, .. } => any_mentions_self(generic_args@),
        Ty::Fn { params, ret } => any_mentions_self(params@) || mentions_self(*ret),
        Ty::FnMut { params, ret } => any_mentions_self(params@) || mentions_self(*ret),
        Ty::FnOnce { params, ret } => any_mentions_self(params@) || mentions_self(*ret),
        Ty::SomeMixin(bs) => bounds_mention_self(bs@),
        Ty::AnyMixin(bs) => bounds_mention_self(bs@),
        Ty::Newtype { inner, .. } => mentions_self(*inner),
        Ty::Alias { target, .. } => mentions_self(*target),
        _ => false,
    }
}

/// Some type of `xs` mentions `Self`.
pub open spec fn any_mentions_self(xs: Seq<Ty>) -> bool
    decreases xs, 1nat,
{
    exists|i: int| 0 <= i < xs.len() && mentions_self(#[trigger] xs[i])
}

/// Some generic argument of a bound of `bs` mentions `Self`.
pub open spec fn bounds_mention_self(bs: Seq<MixinBound>) -> bool
    decreases bs, 1nat,
{
    exists|i: int| 0 <= i < bs.len() && any_mentions_self((#[trigger] bs[i]).generic_args@)
}

/// Types that are the same alike mention `Self` or not.
proof fn lemma_ty_same_self(a: Ty, b: Ty)
    requires
        ty_same(a, b),
    ensures
        mentions_self(a) == mentions_self(b),
    decreases a, 2nat,
{
    match (a, b) {
        (Ty::TypeParam { bounds: x, .. }, Ty::TypeParam { bounds: y, .. }) => lemma_bounds_same_self(x@, y@),
        (Ty::Ref(x), Ty::Ref(y)) => lemma_ty_same_self(*x, *y),
        (Ty::RefMut(x), Ty::RefMut(y)) => lemma_ty_same_self(*x, *y),
        (Ty::RefLifetime(_, x), Ty::RefLifetime(_, y)) => lemma_ty_same_self(*x, *y),
        (Ty::RefMutLifetime(_, x), Ty::RefMutLifetime(_, y)) => lemma_ty_same_self(*x, *y),
        (Ty::RawPtr(x), Ty::RawPtr(y)) => lemma_ty_same_self(*x, *y),
        (Ty::FixedArray(x, _), Ty::FixedArray(y, _)) => lemma_ty_same_self(*x, *y),
        (Ty::Option(x), Ty::Option(y)) => lemma_ty_same_self(*x, *y),
        (Ty::Array(x), Ty::Array(y)) => lemma_ty_same_self(*x, *y),
        (Ty::SetOf(x), Ty::SetOf(y)) => lemma_ty_same_self(*x, *y),
        (Ty::Mapping(x1, x2), Ty::Mapping(y1, y2)) => {
            lemma_ty_same_self(*x1, *y1);
            lemma_ty_same_self(*x2, *y2);
        },
        (Ty::Result(x1, x2), Ty::Result(y1, y2)) => {
            lemma_ty_same_self(*x1, *y1);
            lemma_ty_same_self(*x2, *y2);
        },
        (Ty::Tuple(xs), Ty::Tuple(ys)) => lemma_tys_same_self(xs@, ys@),
        (Ty::Class { generic_args: xs, .. }, Ty::Class { generic_args: ys, .. }) => lemma_tys_same_self(xs@, ys@),
        (Ty::Struct { generic_args: xs, .. }, Ty::Struct { generic_args: ys, .. }) => lemma_tys_same_self(xs@, ys@),
        (Ty::Enum { generic_args: xs, .. }, Ty::Enum { generic_args: ys, .. }) => lemma_tys_same_self(xs@, ys@),
        (Ty::Fn { params: xs, ret: x }, Ty::Fn { params: ys, ret: y }) => {
            lemma_tys_same_self(xs@, ys@);
            lemma_ty_same_self(*x, *y);
        },
        (Ty::FnMut { params: xs, ret: x }, Ty::FnMut { params: ys, ret: y }) => {
            lemma_tys_same_self(xs@, ys@);
            lemma_ty_same_self(*x, *y);
        },
        (Ty::FnOnce { params: xs, ret: x }, Ty::FnOnce { params: ys, ret: y }) => {
            lemma_tys_same_self(xs@, ys@);
            lemma_ty_same_self(*x, *y);
        },
        (Ty::SomeMixin(x), Ty::SomeMixin(y)) => lemma_bounds_same_self(x@, y@),
        (Ty::AnyMixin(x), Ty::AnyMixin(y)) => lemma_bounds_same_self(x@, y@),
        (Ty::Newtype { inner: x, .. }, Ty::Newtype { inner: y, .. }) => lemma_ty_same_self(*x, *y),
        (Ty::Alias { target: x, .. }, Ty::Alias { target: y, .. }) => lemma_ty_same_self(*x, *y),
        _ => {},
    }
}

/// Lists of types that are the same alike mention `Self` or not.
proof fn lemma_tys_same_self(xs: Seq<Ty>, ys: Seq<Ty>)
    requires
        crate::hir::types::tys_same(xs, ys),
    ensures
        any_mentions_self(xs) == any_mentions_self(ys),
    decreases xs, 1nat,
{
    assert forall|i: int| 0 <= i < xs.len() implies mentions_self(#[trigger] xs[i]) == mentions_self(ys[i]) by {
        assert(decreases_to!(xs => xs[i]));
        lemma_ty_same_self(xs[i], ys[i]);
    }
    if any_mentions_self(xs) {
        let i = choose|i: int| 0 <= i < xs.len() && mentions_self(#[trigger] xs[i]);
        assert(mentions_self(ys[i]));
    }
    if any_mentions_self(ys) {
        let i = choose|i: int| 0 <= i < ys.len() && mentions_self(#[trigger] ys[i]);
        assert(mentions_self(xs[i]));
    }
}

/// Lists of bounds that are the same alike mention `Self` or not.
proof fn lemma_bounds_same_self(xs: Seq<MixinBound>, ys: Seq<MixinBound>)
    requires
        crate::hir::types::bounds_same(xs, ys),
    ensures
        bounds_mention_self(xs) == bounds_mention_self(ys),
    decreases xs, 1nat,
{
    assert forall|i: int| 0 <= i < xs.len() implies any_mentions_self((#[trigger] xs[i]).generic_args@)
        == any_mentions_self(ys[i].generic_args@) by {
        assert(decreases_to!(xs => xs[i]));
        assert(decreases_to!(xs[i] => xs[i].generic_args));
        assert(decreases_to!(xs[i].generic_args => xs[i].generic_args@));
        lemma_tys_same_self(xs[i].generic_args@, ys[i].generic_args@);
    }
    if bounds_mention_self(xs) {
        let i = choose|i: int| 0 <= i < xs.len() && any_mentions_self((#[trigger] xs[i]).generic_args@);
        assert(any_mentions_self(ys[i].generic_args@));
    }
    if bounds_mention_self(ys) {
        let i = choose|i: int| 0 <= i < ys.len() && any_mentions_self((#[trigger] ys[i]).generic_args@);
        assert(any_mentions_self(xs[i].generic_args@));
    }
}

/// Rewriting `Self` to a type that does not itself mention `Self` leaves no
/// `Self` where the rewrite looks: each implementor's copy of a default
/// method is fully specialized to it.
pub proof fn law_rewrite_self_leaves_no_self(a: Ty, b: Ty, concrete: Ty)
    requires
        self_rel(a, b, concrete),
        !mentions_self(concrete),
    ensures
        !mentions_self(b),
    decreases a, 2nat,
{
    match a {
        Ty::TypeParam { name, bounds } => {
            if name@ == "Self"@ {
                lemma_ty_same_self(b, concrete);
            } else {
                lemma_bounds_no_self(bounds@, (b->TypeParam_bounds)@, concrete);
                assert((b->TypeParam_name)@ != "Self"@);
            }
        },
        Ty::Ref(x) => law_rewrite_self_leaves_no_self(*x, *(b->Ref_0), concrete),
        Ty::RefMut(x) => law_rewrite_self_leaves_no_self(*x, *(b->RefMut_0), concrete),
        Ty::RefLifetime(_, x) => law_rewrite_self_leaves_no_self(*x, *(b->RefLifetime_1), concrete),
        Ty::RefMutLifetime(_, x) => law_rewrite_self_leaves_no_self(*x, *(b->RefMutLifetime_1), concrete),
        Ty::RawPtr(x) => law_rewrite_self_leaves_no_self(*x, *(b->RawPtr_0), concrete),
        Ty::FixedArray(x, _) => law_rewrite_self_leaves_no_self(*x, *(b->FixedArray_0), concrete),
        Ty::Option(x) => law_rewrite_self_leaves_no_self(*x, *(b->Option_0), concrete),
        Ty::Array(x) => law_rewrite_self_leaves_no_self(*x, *(b->Array_0), concrete),
        Ty::SetOf(x) => law_rewrite_self_leaves_no_self(*x, *(b->SetOf_0), concrete),
        Ty::Mapping(k, v) => {
            law_rewrite_self_leaves_no_self(*k, *(b->Mapping_0), concrete);
            law_rewrite_self_leaves_no_self(*v, *(b->Mapping_1), concrete);
        },
        Ty::Result(o, e) => {
            law_rewrite_self_leaves_no_self(*o, *(b->Result_0), concrete);
            law_rewrite_self_leaves_no_self(*e, *(b->Result_1), concrete);
        },
        Ty::Tuple(xs) => lemma_all_no_self(xs@, (b->Tuple_0)@, concrete),
        Ty::Class { generic_args, .. } => lemma_all_no_self(generic_args@, (b->Class_generic_args)@, concrete),
        Ty::Struct { generic_args, .. } => lemma_all_no_self(generic_args@, (b->Struct_generic_args)@, concrete),
        Ty::Enum { generic_args, .. } => lemma_all_no_self(generic_args@, (b->Enum_generic_args)@, concrete),
        Ty::Fn { params, ret } => {
            lemma_all_no_self(params@, (b->Fn_params)@, concrete);
            law_rewrite_self_leaves_no_self(*ret, *(b->Fn_ret), concrete);
        },
        Ty::FnMut { params, ret } => {
            lemma_all_no_self(params@, (b->FnMut_params)@, concrete);
            law_rewrite_self_leaves_no_self(*ret, *(b->FnMut_ret), concrete);
        },
        Ty::FnOnce { params, ret } => {
            lemma_all_no_self(params@, (b->FnOnce_params)@, concrete);
            law_rewrite_self_leaves_no_self(*ret, *(b->FnOnce_ret), concrete);
        },
        Ty::SomeMixin(bs) => lemma_bounds_no_self(bs@, (b->SomeMixin_0)@, concrete),
        Ty::AnyMixin(bs) => lemma_bounds_no_self(bs@, (b->AnyMixin_0)@, concrete),
        Ty::Newtype { inner, .. } => law_rewrite_self_leaves_no_self(*inner, *(b->Newtype_inner), concrete),
        Ty::Alias { target, .. } => law_rewrite_self_leaves_no_self(*target, *(b->Alias_target), concrete),
        _ => {},
    }
}

proof fn lemma_all_no_self(xs: Seq<Ty>, ys: Seq<Ty>, concrete: Ty)
    requires
        self_rel_all(xs, ys, concrete),
        !mentions_self(concrete),
    ensures
        !any_mentions_self(ys),
    decreases xs, 1nat,
{
    assert forall|i: int| 0 <= i < ys.len() implies !mentions_self(#[trigger] ys[i]) by {
        assert(decreases_to!(xs => xs[i]));
        law_rewrite_self_leaves_no_self(xs[i], ys[i], concrete);
    }
}

proof fn lemma_bounds_no_self(xs: Seq<MixinBound>, ys: Seq<MixinBound>, concrete: Ty)
    requires
        self_bounds_rel(xs, ys, concrete),
        !mentions_self(concrete),
    ensures
        !bounds_mention_self(ys),
    decreases xs, 1nat,
{
    assert forall|i: int| 0 <= i < ys.len() implies !any_mentions_self((#[trigger] ys[i]).generic_args@) by {
        assert(decreases_to!(xs => xs[i]));
        assert(decreases_to!(xs[i] => xs[i].generic_args));
        assert(decreases_to!(xs[i].generic_args => xs[i].generic_args@));
        lemma_all_no_self(xs[i].generic_args@, ys[i].generic_args@, concrete);
    }
}

/// Replace in place each `Self` type parameter of `ty` with `concrete`, to
/// specialize a mixin's default method for one implementor.
pub fn rewrite_self_in_ty(ty: &mut Ty, concrete: &Ty)
    ensures
        self_rel(*old(ty), *final(ty), *concrete),
    decreases *old(ty), 1nat,
{
    let is_self = match &*ty {
        Ty::TypeParam { name, .. } => str_eq(name.as_str(), "Self"),
        _ => false,
    };
    if is_self {
        *ty = concrete.clone();
        return;
    }
    match ty {
        Ty::TypeParam { bounds, .. } => rewrite_self_in_bounds(bounds, concrete),
        Ty::Ref(inner) => rewrite_self_in_ty(&mut **inner, concrete),
        Ty::RefMut(inner) => rewrite_self_in_ty(&mut **inner, concrete),
        Ty::RefLifetime(_, inner) => rewrite_self_in_ty(&mut **inner, concrete),
        Ty::RefMutLifetime(_, inner) => rewrite_self_in_ty(&mut **inner, concrete),
        Ty::RawPtr(inner) => rewrite_self_in_ty(&mut **inner, concrete),
        Ty::Tuple(elems) => rewrite_self_in_tys(elems, concrete),
        Ty::FixedArray(inner, _) => rewrite_self_in_ty(&mut **inner, concrete),
        Ty::Option(inner) => rewrite_self_in_ty(&mut **inner, concrete),
        Ty::Array(inner) => rewrite_self_in_ty(&mut **inner, concrete),
        Ty::SetOf(inner) => rewrite_self_in_ty(&mut **inner, concrete),
        Ty::Mapping(k, v) => {
            rewrite_self_in_ty(&mut **k, concrete);
            rewrite_self_in_ty(&mut **v, concrete);
        },
        Ty::Result(ok, err) => {
            rewrite_self_in_ty(&mut **ok, concrete);
            rewrite_self_in_ty(&mut **err, concrete);
        },
        Ty::Class { generic_args, .. } => rewrite_self_in_tys(generic_args, concrete),
        Ty::Struct { generic_args, .. } => rewrite_self_in_tys(generic_args, concrete),
        Ty::Enum { generic_args, .. } => rewrite_self_in_tys(generic_args, concrete),
        Ty::Fn { params, ret } => {
            rewrite_self_in_tys(params, concrete);
            rewrite_self_in_ty(&mut **ret, concrete);
        },
        Ty::FnMut { params, ret } => {
            rewrite_self_in_tys(params, concrete);
            rewrite_self_in_ty(&mut **ret, concrete);
        },
        Ty::FnOnce { params, ret } => {
            rewrite_self_in_tys(params, concrete);
            rewrite_self_in_ty(&mut **ret, concrete);
        },
        Ty::SomeMixin(bs) => rewrite_self_in_bounds(bs, concrete),
        Ty::AnyMixin(bs) => rewrite_self_in_bounds(bs, concrete),
        Ty::Newtype { inner, .. } => rewrite_self_in_ty(&mut **inner, concrete),
        Ty::Alias { target, .. } => rewrite_self_in_ty(&mut **target, concrete),
        _ => {},
    }
}

/// Replace `Self` in place in each type of `tys`.
fn rewrite_self_in_tys(tys: &mut Vec<Ty>, concrete: &Ty)
    ensures
        self_rel_all(old(tys)@, final(tys)@, *concrete),
    decreases old(tys)@, 0nat,
{
    let ghost orig = tys@;
    let mut i: usize = 0;
    while i < tys.len()
        invariant
            orig == old(tys)@,
            tys@.len() == orig.len(),
            i <= orig.len(),
            forall|k: int| 0 <= k < i ==> self_rel(#[trigger] orig[k], tys@[k], *concrete),
            forall|k: int| i <= k < orig.len() ==> #[trigger] tys@[k] == orig[k],
        decreases orig.len() - i,
    {
        assert(decreases_to!(orig => orig[i as int]));
        rewrite_self_in_ty(&mut tys[i], concrete);
        i = i + 1;
    }
}

/// Replace `Self` in place in the generic arguments of each bound of `bs`.
fn rewrite_self_in_bounds(bs: &mut Vec<MixinBound>, concrete: &Ty)
    ensures
        self_bounds_rel(old(bs)@, final(bs)@, *concrete),
    decreases old(bs)@, 0nat,
{
    let ghost orig = bs@;
    let mut i: usize = 0;
    while i < bs.len()
        invariant
            orig == old(bs)@,
            bs@.len() == orig.len(),
            i <= orig.len(),
            forall|k: int|
                0 <= k < i ==> bs@[k].name == (#[trigger] orig[k]).name && self_rel_all(
                    orig[k].generic_args@,
                    bs@[k].generic_args@,
                    *concrete,
                ),
            forall|k: int| i <= k < orig.len() ==> #[trigger] bs@[k] == orig[k],
        decreases orig.len() - i,
    {
        assert(decreases_to!(orig => orig[i as int]));
        assert(decreases_to!(orig[i as int] => orig[i as int].generic_args));
        rewrite_self_in_tys(&mut bs[i].generic_args, concrete);
        i = i + 1;
    }
}

// ---------------------------------------------------------------------------
// Rewriting the types of a body.
// ---------------------------------------------------------------------------

/// Substitution by `m`, as a relation between a type and its rewrite.
pub open spec fn subst_step(m: Seq<(String, Ty)>) -> spec_fn(Ty, Ty) -> bool {
    |a: Ty, b: Ty| subst_rel(a, b, m)
}

/// Replacing `Self` by `concrete`, as a relation between a type and its
/// rewrite.
pub open spec fn self_step(concrete: Ty) -> spec_fn(Ty, Ty) -> bool {
    |a: Ty, b: Ty| self_rel(a, b, concrete)
}

/// `b` is `a` with the types that the body walk visits rewritten by `r`:
/// every expression's type, a cast's target and a `let`'s declared type.
/// It leaves closure parameters, patterns and every other field as they
/// are.
pub open spec fn expr_rel(a: HirExpr, b: HirExpr, r: spec_fn(Ty, Ty) -> bool) -> bool
    decreases a, 1nat,
{
    &&& b.span == a.span
    &&& r(a.ty, b.ty)
    &&& kind_rel(a, b, r)
}

/// `expr_rel` on the kinds of `a` and `b`.
pub open spec fn kind_rel(a: HirExpr, b: HirExpr, r: spec_fn(Ty, Ty) -> bool) -> bool
    decreases a, 0nat,
{
    match a.kind {
        HirExprKind::Interpolation { parts } => b.kind matches HirExprKind::Interpolation { parts: p2 }
            && parts_rel(parts@, p2@, r),
        HirExprKind::FieldAccess { object, field, field_idx } => b.kind matches HirExprKind::FieldAccess {
            object: o2,
            field: f2,
            field_idx: i2,
        } && f2 == field && i2 == field_idx && expr_rel(*object, *o2, r),
        HirExprKind::MethodCall { object, method, method_name, args, block } => b.kind
            matches HirExprKind::MethodCall { object: o2, method: m2, method_name: n2, args: a2, block: b2 }
            && m2 == method && n2 == method_name && expr_rel(*object, *o2, r) && list_rel(args@, a2@, r)
            && opt_rel(block, b2, r),
        HirExprKind::FnCall { callee, callee_name, args } => b.kind matches HirExprKind::FnCall {
            callee: c2,
            callee_name: n2,
            args: a2,
        } && c2 == callee && n2 == callee_name && list_rel(args@, a2@, r),
        HirExprKind::MacroCall { name, args } => b.kind matches HirExprKind::MacroCall { name: n2, args: a2 }
            && n2 == name && list_rel(args@, a2@, r),
        HirExprKind::BinaryOp { op, left, right } => b.kind matches HirExprKind::BinaryOp {
            op: op2,
            left: l2,
            right: r2,
        } && op2 == op && expr_rel(*left, *l2, r) && expr_rel(*right, *r2, r),
        HirExprKind::UnaryOp { op, operand } => b.kind matches HirExprKind::UnaryOp { op: op2, operand: x2 }
            && op2 == op && expr_rel(*operand, *x2, r),
        HirExprKind::Borrow { expr, mutable } => b.kind matches HirExprKind::Borrow { expr: x2, mutable: m2 }
            && m2 == mutable && expr_rel(*expr, *x2, r),
        HirExprKind::Block(stmts, tail) => b.kind matches HirExprKind::Block(s2, t2) && stmts_rel(
            stmts@,
            s2@,
            r,
        ) && opt_rel(tail, t2, r),
        HirExprKind::UnsafeBlock(stmts, tail) => b.kind matches HirExprKind::UnsafeBlock(s2, t2)
            && stmts_rel(stmts@, s2@, r) && opt_rel(tail, t2, r),
        HirExprKind::If { cond, then_branch, else_branch } => b.kind matches HirExprKind::If {
            cond: c2,
            then_branch: t2,
            else_branch: e2,
        } && expr_rel(*cond, *c2, r) && expr_rel(*then_branch, *t2, r) && opt_rel(else_branch, e2, r),
        HirExprKind::Match { scrutinee, arms } => b.kind matches HirExprKind::Match {
            scrutinee: s2,
            arms: a2,
        } && expr_rel(*scrutinee, *s2, r) && arms_rel(arms@, a2@, r),
        HirExprKind::Loop { body } => b.kind matches HirExprKind::Loop { body: b2 } && expr_rel(
            *body,
            *b2,
            r,
        ),
        HirExprKind::While { condition, body } => b.kind matches HirExprKind::While {
            condition: c2,
            body: b2,
        } && expr_rel(*condition, *c2, r) && expr_rel(*body, *b2, r),
        HirExprKind::For { binding, binding_name, tuple_bindings, iterable, body } => b.kind
            matches HirExprKind::For {
            binding: x2,
            binding_name: n2,
            tuple_bindings: t2,
            iterable: i2,
            body: b2,
        } && x2 == binding && n2 == binding_name && t2 == tuple_bindings && expr_rel(*iterable, *i2, r)
            && expr_rel(*body, *b2, r),
        HirExprKind::Assign { target, value } => b.kind matches HirExprKind::Assign {
            target: t2,
            value: v2,
        } && expr_rel(*target, *t2, r) && expr_rel(*value, *v2, r),
        HirExprKind::CompoundAssign { target, op, value } => b.kind matches HirExprKind::CompoundAssign {
            target: t2,
            op: op2,
            value: v2,
        } && op2 == op && expr_rel(*target, *t2, r) && expr_rel(*value, *v2, r),
        HirExprKind::Return(x) => b.kind matches HirExprKind::Return(x2) && opt_rel(x, x2, r),
        HirExprKind::Break(x) => b.kind matches HirExprKind::Break(x2) && opt_rel(x, x2, r),
        HirExprKind::Closure { params, body, is_move } => b.kind matches HirExprKind::Closure {
            params: p2,
            body: b2,
            is_move: m2,
        } && p2 == params && m2 == is_move && expr_rel(*body, *b2, r),
        HirExprKind::Construct { type_def, ty_name, fields } => b.kind matches HirExprKind::Construct {
            type_def: d2,
            ty_name: n2,
            fields: f2,
        } && d2 == type_def && n2 == ty_name && fields_rel(fields@, f2@, r),
        HirExprKind::EnumVariant { type_def, ty_name, variant_name, variant_idx, fields } => b.kind
            matches HirExprKind::EnumVariant {
            type_def: d2,
            ty_name: n2,
            variant_name: v2,
            variant_idx: i2,
            fields: f2,
        } && d2 == type_def && n2 == ty_name && v2 == variant_name && i2 == variant_idx && fields_rel(
            fields@,
            f2@,
            r,
        ),
        HirExprKind::Tuple(es) => b.kind matches HirExprKind::Tuple(e2) && list_rel(es@, e2@, r),
        HirExprKind::ArrayLiteral(es) => b.kind matches HirExprKind::ArrayLiteral(e2) && list_rel(
            es@,
            e2@,
            r,
        ),
        HirExprKind::ArrayFill { value, count } => b.kind matches HirExprKind::ArrayFill {
            value: v2,
            count: c2,
        } && c2 == count && expr_rel(*value, *v2, r),
        HirExprKind::Index { object, index } => b.kind matches HirExprKind::Index {
            object: o2,
            index: i2,
        } && expr_rel(*object, *o2, r) && expr_rel(*index, *i2, r),
        HirExprKind::Cast { expr, target } => b.kind matches HirExprKind::Cast { expr: x2, target: t2 }
            && r(target, t2) && expr_rel(*expr, *x2, r),
        HirExprKind::Range { start, end, inclusive } => b.kind matches HirExprKind::Range {
            start: s2,
            end: e2,
            inclusive: i2,
        } && i2 == inclusive && opt_rel(start, s2, r) && opt_rel(end, e2, r),
        HirExprKind::MapLiteral(ps) => b.kind matches HirExprKind::MapLiteral(p2) && pairs_rel(ps@, p2@, r),
        _ => b.kind == a.kind,
    }
}

pub open spec fn opt_rel(a: Option<Box<HirExpr>>, b: Option<Box<HirExpr>>, r: spec_fn(Ty, Ty) -> bool) -> bool
    decreases a, 0nat,
{
    match a {
        Some(x) => b matches Some(y) && expr_rel(*x, *y, r),
        None => b is None,
    }
}

pub open spec fn opt_expr_rel(a: Option<HirExpr>, b: Option<HirExpr>, r: spec_fn(Ty, Ty) -> bool) -> bool
    decreases a, 0nat,
{
    match a {
        Some(x) => b matches Some(y) && expr_rel(x, y, r),
        None => b is None,
    }
}

pub open spec fn list_rel(xs: Seq<HirExpr>, ys: Seq<HirExpr>, r: spec_fn(Ty, Ty) -> bool) -> bool
    decreases xs, 0nat,
{
    xs.len() == ys.len() && forall|i: int| 0 <= i < xs.len() ==> expr_rel(#[trigger] xs[i], ys[i], r)
}

pub open spec fn fields_rel(xs: Seq<(String, HirExpr)>, ys: Seq<(String, HirExpr)>, r: spec_fn(Ty, Ty) -> bool) -> bool
    decreases xs, 0nat,
{
    xs.len() == ys.len() && forall|i: int|
        0 <= i < xs.len() ==> ys[i].0 == (#[trigger] xs[i]).0 && expr_rel(xs[i].1, ys[i].1, r)
}

pub open spec fn pairs_rel(
    xs: Seq<(HirExpr, HirExpr)>,
    ys: Seq<(HirExpr, HirExpr)>,
    r: spec_fn(Ty, Ty) -> bool,
) -> bool
    decreases xs, 0nat,
{
    xs.len() == ys.len() && forall|i: int|
        0 <= i < xs.len() ==> expr_rel((#[trigger] xs[i]).0, ys[i].0, r) && expr_rel(xs[i].1, ys[i].1, r)
}

pub open spec fn part_rel(a: HirInterpolationPart, b: HirInterpolationPart, r: spec_fn(Ty, Ty) -> bool) -> bool
    decreases a, 0nat,
{
    match a {
        HirInterpolationPart::Expr { expr, spec } => b matches HirInterpolationPart::Expr {
            expr: e2,
            spec: s2,
        } && s2 == spec && expr_rel(expr, e2, r),
        _ => b == a,
    }
}

pub open spec fn parts_rel(
    xs: Seq<HirInterpolationPart>,
    ys: Seq<HirInterpolationPart>,
    r: spec_fn(Ty, Ty) -> bool,
) -> bool
    decreases xs, 1nat,
{
    xs.len() == ys.len() && forall|i: int| 0 <= i < xs.len() ==> part_rel(#[trigger] xs[i], ys[i], r)
}

pub open spec fn arm_rel(a: HirMatchArm, b: HirMatchArm, r: spec_fn(Ty, Ty) -> bool) -> bool
    decreases a, 0nat,
{
    &&& b.pattern == a.pattern
    &&& b.span == a.span
    &&& opt_expr_rel(a.guard, b.guard, r)
    &&& expr_rel(a.body, b.body, r)
}

pub open spec fn arms_rel(xs: Seq<HirMatchArm>, ys: Seq<HirMatchArm>, r: spec_fn(Ty, Ty) -> bool) -> bool
    decreases xs, 1nat,
{
    xs.len() == ys.len() && forall|i: int| 0 <= i < xs.len() ==> arm_rel(#[trigger] xs[i], ys[i], r)
}

pub open spec fn stmt_rel(a: HirStatement, b: HirStatement, r: spec_fn(Ty, Ty) -> bool) -> bool
    decreases a, 0nat,
{
    match a {
        HirStatement::Let { def_id, pattern, ty, value, mutable, span } => b matches HirStatement::Let {
            def_id: d2,
            pattern: p2,
            ty: t2,
            value: v2,
            mutable: m2,
            span: s2,
        } && d2 == def_id && p2 == pattern && m2 == mutable && s2 == span && r(ty, t2) && opt_expr_rel(
            value,
            v2,
            r,
        ),
        HirStatement::Expr(x) => b matches HirStatement::Expr(y) && expr_rel(x, y, r),
    }
}

pub open spec fn stmts_rel(xs: Seq<HirStatement>, ys: Seq<HirStatement>, r: spec_fn(Ty, Ty) -> bool) -> bool
    decreases xs, 1nat,
{
    xs.len() == ys.len() && forall|i: int| 0 <= i < xs.len() ==> stmt_rel(#[trigger] xs[i], ys[i], r)
}

/// `b` is the function `a` with its return type, its parameters' types and
/// the types of its body rewritten by `r`; nothing else changes.
pub open spec fn func_rel(a: HirFuncDef, b: HirFuncDef, r: spec_fn(Ty, Ty) -> bool) -> bool {
    &&& b.def_id == a.def_id
    &&& b.name == a.name
    &&& b.visibility == a.visibility
    &&& b.is_async == a.is_async
    &&& b.self_mode == a.self_mode
    &&& b.is_class_method == a.is_class_method
    &&& b.generic_params == a.generic_params
    &&& b.doc_comments == a.doc_comments
    &&& b.span == a.span
    &&& r(a.return_ty, b.return_ty)
    &&& b.params@.len() == a.params@.len()
    &&& forall|i: int|
        0 <= i < a.params@.len() ==> {
            let (p, q) = (#[trigger] a.params@[i], b.params@[i]);
            &&& q.def_id == p.def_id
            &&& q.name == p.name
            &&& q.auto_assign == p.auto_assign
            &&& q.default == p.default
            &&& q.span == p.span
            &&& r(p.ty, q.ty)
        }
    &&& expr_rel(*a.body, *b.body, r)
}

fn subst_type_params_in_opt(o: &mut Option<Box<HirExpr>>, subst: &Vec<(String, Ty)>)
    ensures
        opt_rel(*old(o), *final(o), subst_step(subst@)),
    decreases *old(o), 0nat,
{
    match o {
        Some(b) => subst_type_params_in_expr(&mut **b, subst),
        None => {},
    }
}

fn subst_type_params_in_opt_expr(o: &mut Option<HirExpr>, subst: &Vec<(String, Ty)>)
    ensures
        opt_expr_rel(*old(o), *final(o), subst_step(subst@)),
    decreases *old(o), 0nat,
{
    match o {
        Some(e) => subst_type_params_in_expr(e, subst),
        None => {},
    }
}

fn subst_type_params_in_list(es: &mut Vec<HirExpr>, subst: &Vec<(String, Ty)>)
    ensures
        list_rel(old(es)@, final(es)@, subst_step(subst@)),
    decreases old(es)@, 0nat,
{
    let ghost orig = es@;
    let mut i: usize = 0;
    while i < es.len()
        invariant
            orig == old(es)@,
            es@.len() == orig.len(),
            i <= orig.len(),
            forall|k: int| 0 <= k < i ==> expr_rel(#[trigger] orig[k], es@[k], subst_step(subst@)),
            forall|k: int| i <= k < orig.len() ==> #[trigger] es@[k] == orig[k],
        decreases orig.len() - i,
    {
        assert(decreases_to!(orig => orig[i as int]));
        subst_type_params_in_expr(&mut es[i], subst);
        i = i + 1;
    }
}

fn subst_type_params_in_fields(fs: &mut Vec<(String, HirExpr)>, subst: &Vec<(String, Ty)>)
    ensures
        fields_rel(old(fs)@, final(fs)@, subst_step(subst@)),
    decreases old(fs)@, 0nat,
{
    let ghost orig = fs@;
    let mut i: usize = 0;
    while i < fs.len()
        invariant
            orig == old(fs)@,
            fs@.len() == orig.len(),
            i <= orig.len(),
            forall|k: int|
                0 <= k < i ==> fs@[k].0 == (#[trigger] orig[k]).0 && expr_rel(orig[k].1, fs@[k].1, subst_step(subst@)),
            forall|k: int| i <= k < orig.len() ==> #[trigger] fs@[k] == orig[k],
        decreases orig.len() - i,
    {
        assert(decreases_to!(orig => orig[i as int]));
        subst_type_params_in_expr(&mut fs[i].1, subst);
        i = i + 1;
    }
}

fn subst_type_params_in_pairs(ps: &mut Vec<(HirExpr, HirExpr)>, subst: &Vec<(String, Ty)>)
    ensures
        pairs_rel(old(ps)@, final(ps)@, subst_step(subst@)),
    decreases old(ps)@, 0nat,
{
    let ghost orig = ps@;
    let mut i: usize = 0;
    while i < ps.len()
        invariant
            orig == old(ps)@,
            ps@.len() == orig.len(),
            i <= orig.len(),
            forall|k: int|
                0 <= k < i ==> expr_rel((#[trigger] orig[k]).0, ps@[k].0, subst_step(subst@)) && expr_rel(
                    orig[k].1,
                    ps@[k].1,
                    subst_step(subst@),
                ),
            forall|k: int| i <= k < orig.len() ==> #[trigger] ps@[k] == orig[k],
        decreases orig.len() - i,
    {
        assert(decreases_to!(orig => orig[i as int]));
        subst_type_params_in_expr(&mut ps[i].0, subst);
        subst_type_params_in_expr(&mut ps[i].1, subst);
        i = i + 1;
    }
}

fn subst_type_params_in_parts(ps: &mut Vec<HirInterpolationPart>, subst: &Vec<(String, Ty)>)
    ensures
        parts_rel(old(ps)@, final(ps)@, subst_step(subst@)),
    decreases old(ps)@, 1nat,
{
    let ghost orig = ps@;
    let mut i: usize = 0;
    while i < ps.len()
        invariant
            orig == old(ps)@,
            ps@.len() == orig.len(),
            i <= orig.len(),
            forall|k: int| 0 <= k < i ==> part_rel(#[trigger] orig[k], ps@[k], subst_step(subst@)),
            forall|k: int| i <= k < orig.len() ==> #[trigger] ps@[k] == orig[k],
        decreases orig.len() - i,
    {
        assert(decreases_to!(orig => orig[i as int]));
        match &mut ps[i] {
            HirInterpolationPart::Expr { expr: e, .. } => subst_type_params_in_expr(e, subst),
            _ => {},
        }
        i = i + 1;
    }
}

fn subst_type_params_in_arms(arms: &mut Vec<HirMatchArm>, subst: &Vec<(String, Ty)>)
    ensures
        arms_rel(old(arms)@, final(arms)@, subst_step(subst@)),
    decreases old(arms)@, 1nat,
{
    let ghost orig = arms@;
    let mut i: usize = 0;
    while i < arms.len()
        invariant
            orig == old(arms)@,
            arms@.len() == orig.len(),
            i <= orig.len(),
            forall|k: int| 0 <= k < i ==> arm_rel(#[trigger] orig[k], arms@[k], subst_step(subst@)),
            forall|k: int| i <= k < orig.len() ==> #[trigger] arms@[k] == orig[k],
        decreases orig.len() - i,
    {
        assert(decreases_to!(orig => orig[i as int]));
        let arm = &mut arms[i];
        subst_type_params_in_opt_expr(&mut arm.guard, subst);
        subst_type_params_in_expr(&mut arm.body, subst);
        i = i + 1;
    }
}

fn subst_type_params_in_stmts(ss: &mut Vec<HirStatement>, subst: &Vec<(String, Ty)>)
    ensures
        stmts_rel(old(ss)@, final(ss)@, subst_step(subst@)),
    decreases old(ss)@, 1nat,
{
    let ghost orig = ss@;
    let mut i: usize = 0;
    while i < ss.len()
        invariant
            orig == old(ss)@,
            ss@.len() == orig.len(),
            i <= orig.len(),
            forall|k: int| 0 <= k < i ==> stmt_rel(#[trigger] orig[k], ss@[k], subst_step(subst@)),
            forall|k: int| i <= k < orig.len() ==> #[trigger] ss@[k] == orig[k],
        decreases orig.len() - i,
    {
        assert(decreases_to!(orig => orig[i as int]));
        subst_type_params_in_stmt(&mut ss[i], subst);
        i = i + 1;
    }
}

/// Substitute in place each bound type parameter in the types of a
/// statement (a `let`'s declared type and its initializer).
pub fn subst_type_params_in_stmt(stmt: &mut HirStatement, subst: &Vec<(String, Ty)>)
    ensures
        stmt_rel(*old(stmt), *final(stmt), subst_step(subst@)),
    decreases *old(stmt), 0nat,
{
    match stmt {
        HirStatement::Let { ty, value, .. } => {
            subst_type_params_in_ty(ty, subst);
            subst_type_params_in_opt_expr(value, subst);
        },
        HirStatement::Expr(e) => subst_type_params_in_expr(e, subst),
    }
}

/// Substitute in place each bound type parameter in the types of `expr`
/// and of its sub-expressions (see `expr_rel`).
pub fn subst_type_params_in_expr(expr: &mut HirExpr, subst: &Vec<(String, Ty)>)
    ensures
        expr_rel(*old(expr), *final(expr), subst_step(subst@)),
    decreases *old(expr), 1nat,
{
    subst_type_params_in_ty(&mut expr.ty, subst);
    match &mut expr.kind {
        HirExprKind::FieldAccess { object, .. } => subst_type_params_in_expr(&mut **object, subst),
        HirExprKind::MethodCall { object, args, block, .. } => {
            subst_type_params_in_expr(&mut **object, subst);
            subst_type_params_in_list(args, subst);
            subst_type_params_in_opt(block, subst);
        },
        HirExprKind::FnCall { args, .. } => subst_type_params_in_list(args, subst),
        HirExprKind::MacroCall { args, .. } => subst_type_params_in_list(args, subst),
        HirExprKind::BinaryOp { left, right, .. } => {
            subst_type_params_in_expr(&mut **left, subst);
            subst_type_params_in_expr(&mut **right, subst);
        },
        HirExprKind::UnaryOp { operand, .. } => subst_type_params_in_expr(&mut **operand, subst),
        HirExprKind::Borrow { expr: inner, .. } => subst_type_params_in_expr(&mut **inner, subst),
        HirExprKind::Block(stmts, tail) => {
            subst_type_params_in_stmts(stmts, subst);
            subst_type_params_in_opt(tail, subst);
        },
        HirExprKind::UnsafeBlock(stmts, tail) => {
            subst_type_params_in_stmts(stmts, subst);
            subst_type_params_in_opt(tail, subst);
        },
        HirExprKind::If { cond, then_branch, else_branch } => {
            subst_type_params_in_expr(&mut **cond, subst);
            subst_type_params_in_expr(&mut **then_branch, subst);
            subst_type_params_in_opt(else_branch, subst);
        },
        HirExprKind::Match { scrutinee, arms } => {
            subst_type_params_in_expr(&mut **scrutinee, subst);
            subst_type_params_in_arms(arms, subst);
        },
        HirExprKind::Loop { body } => subst_type_params_in_expr(&mut **body, subst),
        HirExprKind::While { condition, body } => {
            subst_type_params_in_expr(&mut **condition, subst);
            subst_type_params_in_expr(&mut **body, subst);
        },
        HirExprKind::For { iterable, body, .. } => {
            subst_type_params_in_expr(&mut **iterable, subst);
            subst_type_params_in_expr(&mut **body, subst);
        },
        HirExprKind::Assign { target, value } => {
            subst_type_params_in_expr(&mut **target, subst);
            subst_type_params_in_expr(&mut **value, subst);
        },
        HirExprKind::CompoundAssign { target, value, .. } => {
            subst_type_params_in_expr(&mut **target, subst);
            subst_type_params_in_expr(&mut **value, subst);
        },
        HirExprKind::Return(x) => subst_type_params_in_opt(x, subst),
        HirExprKind::Break(x) => subst_type_params_in_opt(x, subst),
        HirExprKind::Closure { body, .. } => subst_type_params_in_expr(&mut **body, subst),
        HirExprKind::Construct { fields, .. } => subst_type_params_in_fields(fields, subst),
        HirExprKind::EnumVariant { fields, .. } => subst_type_params_in_fields(fields, subst),
        HirExprKind::Tuple(elems) => subst_type_params_in_list(elems, subst),
        HirExprKind::ArrayLiteral(elems) => subst_type_params_in_list(elems, subst),
        HirExprKind::Index { object, index } => {
            subst_type_params_in_expr(&mut **object, subst);
            subst_type_params_in_expr(&mut **index, subst);
        },
        HirExprKind::Cast { expr: inner, target } => {
            subst_type_params_in_expr(&mut **inner, subst);
            subst_type_params_in_ty(target, subst);
        },
        HirExprKind::ArrayFill { value, .. } => subst_type_params_in_expr(&mut **value, subst),
        HirExprKind::Range { start, end, .. } => {
            subst_type_params_in_opt(start, subst);
            subst_type_params_in_opt(end, subst);
        },
        HirExprKind::Interpolation { parts } => subst_type_params_in_parts(parts, subst),
        HirExprKind::MapLiteral(pairs) => subst_type_params_in_pairs(pairs, subst),
        _ => {},
    }
}

fn subst_type_params_in_params(ps: &mut Vec<HirParam>, subst: &Vec<(String, Ty)>)
    ensures
        final(ps)@.len() == old(ps)@.len(),
        forall|i: int|
            0 <= i < old(ps)@.len() ==> {
                let (p, q) = (#[trigger] old(ps)@[i], final(ps)@[i]);
                &&& q.def_id == p.def_id
                &&& q.name == p.name
                &&& q.auto_assign == p.auto_assign
                &&& q.default == p.default
                &&& q.span == p.span
                &&& (subst_step(subst@))(p.ty, q.ty)
            },
{
    let ghost orig = ps@;
    let mut i: usize = 0;
    while i < ps.len()
        invariant
            orig == old(ps)@,
            ps@.len() == orig.len(),
            i <= orig.len(),
            forall|k: int|
                0 <= k < i ==> {
                    let (p, q) = (#[trigger] orig[k], ps@[k]);
                    &&& q.def_id == p.def_id
                    &&& q.name == p.name
                    &&& q.auto_assign == p.auto_assign
                    &&& q.default == p.default
                    &&& q.span == p.span
                    &&& (subst_step(subst@))(p.ty, q.ty)
                },
            forall|k: int| i <= k < orig.len() ==> #[trigger] ps@[k] == orig[k],
        decreases orig.len() - i,
    {
        subst_type_params_in_ty(&mut ps[i].ty, subst);
        i = i + 1;
    }
}

/// Specialize a generic function for one binding of its type parameters:
/// substitute in place, by `subst`, the type parameters of its return type,
/// of its parameters' types and of the types of its body (see `func_rel`).
pub fn subst_type_params_in_func(func: &mut HirFuncDef, subst: &Vec<(String, Ty)>)
    ensures
        func_rel(*old(func), *final(func), subst_step(subst@)),
{
    subst_type_params_in_ty(&mut func.return_ty, subst);
    subst_type_params_in_params(&mut func.params, subst);
    subst_type_params_in_expr(&mut *func.body, subst);
}

fn rewrite_self_in_opt(o: &mut Option<Box<HirExpr>>, concrete: &Ty)
    ensures
        opt_rel(*old(o), *final(o), self_step(*concrete)),
    decreases *old(o), 0nat,
{
    match o {
        Some(b) => rewrite_self_in_expr(&mut **b, concrete),
        None => {},
    }
}

fn rewrite_self_in_opt_expr(o: &mut Option<HirExpr>, concrete: &Ty)
    ensures
        opt_expr_rel(*old(o), *final(o), self_step(*concrete)),
    decreases *old(o), 0nat,
{
    match o {
        Some(e) => rewrite_self_in_expr(e, concrete),
        None => {},
    }
}

fn rewrite_self_in_list(es: &mut Vec<HirExpr>, concrete: &Ty)
    ensures
        list_rel(old(es)@, final(es)@, self_step(*concrete)),
    decreases old(es)@, 0nat,
{
    let ghost orig = es@;
    let mut i: usize = 0;
    while i < es.len()
        invariant
            orig == old(es)@,
            es@.len() == orig.len(),
            i <= orig.len(),
            forall|k: int| 0 <= k < i ==> expr_rel(#[trigger] orig[k], es@[k], self_step(*concrete)),
            forall|k: int| i <= k < orig.len() ==> #[trigger] es@[k] == orig[k],
        decreases orig.len() - i,
    {
        assert(decreases_to!(orig => orig[i as int]));
        rewrite_self_in_expr(&mut es[i], concrete);
        i = i + 1;
    }
}

fn rewrite_self_in_fields(fs: &mut Vec<(String, HirExpr)>, concrete: &Ty)
    ensures
        fields_rel(old(fs)@, final(fs)@, self_step(*concrete)),
    decreases old(fs)@, 0nat,
{
    let ghost orig = fs@;
    let mut i: usize = 0;
    while i < fs.len()
        invariant
            orig == old(fs)@,
            fs@.len() == orig.len(),
            i <= orig.len(),
            forall|k: int|
                0 <= k < i ==> fs@[k].0 == (#[trigger] orig[k]).0 && expr_rel(orig[k].1, fs@[k].1, self_step(*concrete)),
            forall|k: int| i <= k < orig.len() ==> #[trigger] fs@[k] == orig[k],
        decreases orig.len() - i,
    {
        assert(decreases_to!(orig => orig[i as int]));
        rewrite_self_in_expr(&mut fs[i].1, concrete);
        i = i + 1;
    }
}

fn rewrite_self_in_pairs(ps: &mut Vec<(HirExpr, HirExpr)>, concrete: &Ty)
    ensures
        pairs_rel(old(ps)@, final(ps)@, self_step(*concrete)),
    decreases old(ps)@, 0nat,
{
    let ghost orig = ps@;
    let mut i: usize = 0;
    while i < ps.len()
        invariant
            orig == old(ps)@,
            ps@.len() == orig.len(),
            i <= orig.len(),
            forall|k: int|
                0 <= k < i ==> expr_rel((#[trigger] orig[k]).0, ps@[k].0, self_step(*concrete)) && expr_rel(
                    orig[k].1,
                    ps@[k].1,
                    self_step(*concrete),
                ),
            forall|k: int| i <= k < orig.len() ==> #[trigger] ps@[k] == orig[k],
        decreases orig.len() - i,
    {
        assert(decreases_to!(orig => orig[i as int]));
        rewrite_self_in_expr(&mut ps[i].0, concrete);
        rewrite_self_in_expr(&mut ps[i].1, concrete);
        i = i + 1;
    }
}

fn rewrite_self_in_parts(ps: &mut Vec<HirInterpolationPart>, concrete: &Ty)
    ensures
        parts_rel(old(ps)@, final(ps)@, self_step(*concrete)),
    decreases old(ps)@, 1nat,
{
    let ghost orig = ps@;
    let mut i: usize = 0;
    while i < ps.len()
        invariant
            orig == old(ps)@,
            ps@.len() == orig.len(),
            i <= orig.len(),
            forall|k: int| 0 <= k < i ==> part_rel(#[trigger] orig[k], ps@[k], self_step(*concrete)),
            forall|k: int| i <= k < orig.len() ==> #[trigger] ps@[k] == orig[k],
        decreases orig.len() - i,
    {
        assert(decreases_to!(orig => orig[i as int]));
        match &mut ps[i] {
            HirInterpolationPart::Expr { expr: e, .. } => rewrite_self_in_expr(e, concrete),
            _ => {},
        }
        i = i + 1;
    }
}

fn rewrite_self_in_arms(arms: &mut Vec<HirMatchArm>, concrete: &Ty)
    ensures
        arms_rel(old(arms)@, final(arms)@, self_step(*concrete)),
    decreases old(arms)@, 1nat,
{
    let ghost orig = arms@;
    let mut i: usize = 0;
    while i < arms.len()
        invariant
            orig == old(arms)@,
            arms@.len() == orig.len(),
            i <= orig.len(),
            forall|k: int| 0 <= k < i ==> arm_rel(#[trigger] orig[k], arms@[k], self_step(*concrete)),
            forall|k: int| i <= k < orig.len() ==> #[trigger] arms@[k] == orig[k],
        decreases orig.len() - i,
    {
        assert(decreases_to!(orig => orig[i as int]));
        let arm = &mut arms[i];
        rewrite_self_in_opt_expr(&mut arm.guard, concrete);
        rewrite_self_in_expr(&mut arm.body, concrete);
        i = i + 1;
    }
}

fn rewrite_self_in_stmts(ss: &mut Vec<HirStatement>, concrete: &Ty)
    ensures
        stmts_rel(old(ss)@, final(ss)@, self_step(*concrete)),
    decreases old(ss)@, 1nat,
{
    let ghost orig = ss@;
    let mut i: usize = 0;
    while i < ss.len()
        invariant
            orig == old(ss)@,
            ss@.len() == orig.len(),
            i <= orig.len(),
            forall|k: int| 0 <= k < i ==> stmt_rel(#[trigger] orig[k], ss@[k], self_step(*concrete)),
            forall|k: int| i <= k < orig.len() ==> #[trigger] ss@[k] == orig[k],
        decreases orig.len() - i,
    {
        assert(decreases_to!(orig => orig[i as int]));
        rewrite_self_in_stmt(&mut ss[i], concrete);
        i = i + 1;
    }
}

/// Replace `Self` in place in the types of a statement (a `let`'s declared
/// type and its initializer).
pub fn rewrite_self_in_stmt(stmt: &mut HirStatement, concrete: &Ty)
    ensures
        stmt_rel(*old(stmt), *final(stmt), self_step(*concrete)),
    decreases *old(stmt), 0nat,
{
    match stmt {
        HirStatement::Let { ty, value, .. } => {
            rewrite_self_in_ty(ty, concrete);
            rewrite_self_in_opt_expr(value, concrete);
        },
        HirStatement::Expr(e) => rewrite_self_in_expr(e, concrete),
    }
}

/// Replace `Self` in place in the types of `expr` and of its
/// sub-expressions (see `expr_rel`).
pub fn rewrite_self_in_expr(expr: &mut HirExpr, concrete: &Ty)
    ensures
        expr_rel(*old(expr), *final(expr), self_step(*concrete)),
    decreases *old(expr), 1nat,
{
    rewrite_self_in_ty(&mut expr.ty, concrete);
    match &mut expr.kind {
        HirExprKind::FieldAccess { object, .. } => rewrite_self_in_expr(&mut **object, concrete),
        HirExprKind::MethodCall { object, args, block, .. } => {
            rewrite_self_in_expr(&mut **object, concrete);
            rewrite_self_in_list(args, concrete);
            rewrite_self_in_opt(block, concrete);
        },
        HirExprKind::FnCall { args, .. } => rewrite_self_in_list(args, concrete),
        HirExprKind::MacroCall { args, .. } => rewrite_self_in_list(args, concrete),
        HirExprKind::BinaryOp { left, right, .. } => {
            rewrite_self_in_expr(&mut **left, concrete);
            rewrite_self_in_expr(&mut **right, concrete);
        },
        HirExprKind::UnaryOp { operand, .. } => rewrite_self_in_expr(&mut **operand, concrete),
        HirExprKind::Borrow { expr: inner, .. } => rewrite_self_in_expr(&mut **inner, concrete),
        HirExprKind::Block(stmts, tail) => {
            rewrite_self_in_stmts(stmts, concrete);
            rewrite_self_in_opt(tail, concrete);
        },
        HirExprKind::UnsafeBlock(stmts, tail) => {
            rewrite_self_in_stmts(stmts, concrete);
            rewrite_self_in_opt(tail, concrete);
        },
        HirExprKind::If { cond, then_branch, else_branch } => {
            rewrite_self_in_expr(&mut **cond, concrete);
            rewrite_self_in_expr(&mut **then_branch, concrete);
            rewrite_self_in_opt(else_branch, concrete);
        },
        HirExprKind::Match { scrutinee, arms } => {
            rewrite_self_in_expr(&mut **scrutinee, concrete);
            rewrite_self_in_arms(arms, concrete);
        },
        HirExprKind::Loop { body } => rewrite_self_in_expr(&mut **body, concrete),
        HirExprKind::While { condition, body } => {
            rewrite_self_in_expr(&mut **condition, concrete);
            rewrite_self_in_expr(&mut **body, concrete);
        },
        HirExprKind::For { iterable, body, .. } => {
            rewrite_self_in_expr(&mut **iterable, concrete);
            rewrite_self_in_expr(&mut **body, concrete);
        },
        HirExprKind::Assign { target, value } => {
            rewrite_self_in_expr(&mut **target, concrete);
            rewrite_self_in_expr(&mut **value, concrete);
        },
        HirExprKind::CompoundAssign { target, value, .. } => {
            rewrite_self_in_expr(&mut **target, concrete);
            rewrite_self_in_expr(&mut **value, concrete);
        },
        HirExprKind::Return(x) => rewrite_self_in_opt(x, concrete),
        HirExprKind::Break(x) => rewrite_self_in_opt(x, concrete),
        HirExprKind::Closure { body, .. } => rewrite_self_in_expr(&mut **body, concrete),
        HirExprKind::Construct { fields, .. } => rewrite_self_in_fields(fields, concrete),
        HirExprKind::EnumVariant { fields, .. } => rewrite_self_in_fields(fields, concrete),
        HirExprKind::Tuple(elems) => rewrite_self_in_list(elems, concrete),
        HirExprKind::ArrayLiteral(elems) => rewrite_self_in_list(elems, concrete),
        HirExprKind::Index { object, index } => {
            rewrite_self_in_expr(&mut **object, concrete);
            rewrite_self_in_expr(&mut **index, concrete);
        },
        HirExprKind::Cast { expr: inner, target } => {
            rewrite_self_in_expr(&mut **inner, concrete);
            rewrite_self_in_ty(target, concrete);
        },
        HirExprKind::ArrayFill { value, .. } => rewrite_self_in_expr(&mut **value, concrete),
        HirExprKind::Range { start, end, .. } => {
            rewrite_self_in_opt(start, concrete);
            rewrite_self_in_opt(end, concrete);
        },
        HirExprKind::Interpolation { parts } => rewrite_self_in_parts(parts, concrete),
        HirExprKind::MapLiteral(pairs) => rewrite_self_in_pairs(pairs, concrete),
        _ => {},
    }
}

fn rewrite_self_in_params(ps: &mut Vec<HirParam>, concrete: &Ty)
    ensures
        final(ps)@.len() == old(ps)@.len(),
        forall|i: int|
            0 <= i < old(ps)@.len() ==> {
                let (p, q) = (#[trigger] old(ps)@[i], final(ps)@[i]);
                &&& q.def_id == p.def_id
                &&& q.name == p.name
                &&& q.auto_assign == p.auto_assign
                &&& q.default == p.default
                &&& q.span == p.span
                &&& (self_step(*concrete))(p.ty, q.ty)
            },
{
    let ghost orig = ps@;
    let mut i: usize = 0;
    while i < ps.len()
        invariant
            orig == old(ps)@,
            ps@.len() == orig.len(),
            i <= orig.len(),
            forall|k: int|
                0 <= k < i ==> {
                    let (p, q) = (#[trigger] orig[k], ps@[k]);
                    &&& q.def_id == p.def_id
                    &&& q.name == p.name
                    &&& q.auto_assign == p.auto_assign
                    &&& q.default == p.default
                    &&& q.span == p.span
                    &&& (self_step(*concrete))(p.ty, q.ty)
                },
            forall|k: int| i <= k < orig.len() ==> #[trigger] ps@[k] == orig[k],
        decreases orig.len() - i,
    {
        rewrite_self_in_ty(&mut ps[i].ty, concrete);
        i = i + 1;
    }
}

/// Specialize a mixin's default method for one implementor: replace `Self`
/// by `concrete` in place in its return type, its parameters' types and the
/// types of its body (see `func_rel`).
pub fn rewrite_self_in_func(func: &mut HirFuncDef, concrete: &Ty)
    ensures
        func_rel(*old(func), *final(func), self_step(*concrete)),
{
    rewrite_self_in_ty(&mut func.return_ty, concrete);
    rewrite_self_in_params(&mut func.params, concrete);
    rewrite_self_in_expr(&mut *func.body, concrete);
}

} // verus!
