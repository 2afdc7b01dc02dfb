//! Generic-class monomorphization: which instantiations are concrete, how
//! their symbols are spelled, and which concrete types a call binds to a
//! generic declaration's type parameters.
use vstd::prelude::*;

use crate::hir::nodes::{
    HirExpr, HirExprKind, HirField, HirFuncDef, HirImplBlock, HirImplItem, HirInterpolationPart,
    HirItem, HirMatchArm, HirMixinItem, HirParam, HirProgram, HirStatement,
};
use crate::hir::types::{ty_same, Ty};
use crate::mir::lower::runtime_abi::dots_as_underscores;
use crate::text::{
    find_seq, find_str, has_prefix, is_ascii_alphanumeric, is_first_match, lemma_first_match_unique, push_char,
    spec_is_ascii_alphanumeric,
};

verus! {

/// Every leaf of `t` is concrete: no type parameter and no inference
/// variable, looking through references, fixed arrays, options, arrays,
/// sets, maps, results, tuples and the generic arguments of classes,
/// structs and enums (other types count as concrete as they stand).
pub open spec fn spec_is_fully_concrete(t: Ty) -> bool
    decreases t, 0nat,
{
    match t {
        Ty::TypeParam { .. } | Ty::Infer(_) => false,
        Ty::Ref(x) => spec_is_fully_concrete(*x),
        Ty::RefMut(x) => spec_is_fully_concrete(*x),
        Ty::RefLifetime(_, x) => spec_is_fully_concrete(*x),
        Ty::RefMutLifetime(_, x) => spec_is_fully_concrete(*x),
        Ty::FixedArray(x, _) => spec_is_fully_concrete(*x),
        Ty::Option(x) => spec_is_fully_concrete(*x),
        Ty::Array(x) => spec_is_fully_concrete(*x),
        Ty::SetOf(x) => spec_is_fully_concrete(*x),
        Ty::Mapping(k, v) => spec_is_fully_concrete(*k) && spec_is_fully_concrete(*v),
        Ty::Result(a, b) => spec_is_fully_concrete(*a) && spec_is_fully_concrete(*b),
        Ty::Tuple(xs) => all_fully_concrete(xs@),
        Ty::Class { generic_args, .. } => all_fully_concrete(generic_args@),
        Ty::Struct { generic_args, .. } => all_fully_concrete(generic_args@),
        Ty::Enum { generic_args, .. } => all_fully_concrete(generic_args@),
        _ => true,
    }
}

/// Every type of `ts` is fully concrete.
pub open spec fn all_fully_concrete(ts: Seq<Ty>) -> bool
    decreases ts, 1nat,
{
    forall|i: int| 0 <= i < ts.len() ==> spec_is_fully_concrete(#[trigger] ts[i])
}

/// Types that are the same are alike fully concrete or not.
pub proof fn lemma_ty_same_concrete(a: Ty, b: Ty)
    requires
        ty_same(a, b),
    ensures
        spec_is_fully_concrete(a) == spec_is_fully_concrete(b),
    decreases a, 2nat,
{
    match (a, b) {
        (Ty::Array(x), Ty::Array(y)) => lemma_ty_same_concrete(*x, *y),
        (Ty::FixedArray(x, _), Ty::FixedArray(y, _)) => lemma_ty_same_concrete(*x, *y),
        (Ty::Mapping(k1, v1), Ty::Mapping(k2, v2)) => {
            lemma_ty_same_concrete(*k1, *k2);
            lemma_ty_same_concrete(*v1, *v2);
        },
        (Ty::SetOf(x), Ty::SetOf(y)) => lemma_ty_same_concrete(*x, *y),
        (Ty::Option(x), Ty::Option(y)) => lemma_ty_same_concrete(*x, *y),
        (Ty::Result(x1, x2), Ty::Result(y1, y2)) => {
            lemma_ty_same_concrete(*x1, *y1);
            lemma_ty_same_concrete(*x2, *y2);
        },
        (Ty::Tuple(xs), Ty::Tuple(ys)) => lemma_tys_same_concrete(xs@, ys@),
        (Ty::Ref(x), Ty::Ref(y)) => lemma_ty_same_concrete(*x, *y),
        (Ty::RefMut(x), Ty::RefMut(y)) => lemma_ty_same_concrete(*x, *y),
        (Ty::RefLifetime(_, x), Ty::RefLifetime(_, y)) => lemma_ty_same_concrete(*x, *y),
        (Ty::RefMutLifetime(_, x), Ty::RefMutLifetime(_, y)) => lemma_ty_same_concrete(*x, *y),
        (Ty::Class { generic_args: a1, .. }, Ty::Class { generic_args: a2, .. }) => lemma_tys_same_concrete(a1@, a2@),
        (Ty::Struct { generic_args: a1, .. }, Ty::Struct { generic_args: a2, .. }) => lemma_tys_same_concrete(a1@, a2@),
        (Ty::Enum { generic_args: a1, .. }, Ty::Enum { generic_args: a2, .. }) => lemma_tys_same_concrete(a1@, a2@),
        _ => {},
    }
}

/// Lists of types that are element-wise the same are alike fully concrete
/// or not.
pub proof fn lemma_tys_same_concrete(xs: Seq<Ty>, ys: Seq<Ty>)
    requires
        crate::hir::types::tys_same(xs, ys),
    ensures
        all_fully_concrete(xs) == all_fully_concrete(ys),
    decreases xs, 1nat,
{
    assert forall|i: int| 0 <= i < xs.len() implies spec_is_fully_concrete(#[trigger] xs[i])
        == spec_is_fully_concrete(ys[i]) by {
        assert(decreases_to!(xs => xs[i]));
        lemma_ty_same_concrete(xs[i], ys[i]);
    }
    if !all_fully_concrete(xs) {
        let i = choose|i: int| 0 <= i < xs.len() && !spec_is_fully_concrete(#[trigger] xs[i]);
        assert(!spec_is_fully_concrete(ys[i]));
    }
    if !all_fully_concrete(ys) {
        let i = choose|i: int| 0 <= i < ys.len() && !spec_is_fully_concrete(#[trigger] ys[i]);
        assert(!spec_is_fully_concrete(xs[i]));
    }
}

fn all_concrete(ts: &Vec<Ty>) -> (r: bool)
    ensures
        r == all_fully_concrete(ts@),
    decreases ts@, 1nat,
{
    let mut i: usize = 0;
    while i < ts.len()
        invariant
            i <= ts@.len(),
            forall|k: int| 0 <= k < i ==> spec_is_fully_concrete(#[trigger] ts@[k]),
        decreases ts@.len() - i,
    {
        assert(decreases_to!(ts@ => ts@[i as int]));
        if !is_fully_concrete(&ts[i]) {
            return false;
        }
        i = i + 1;
    }
    true
}

/// Is `ty` fully concrete (no type parameter or inference variable left)?
/// Only such instantiations are safe to specialize.
pub fn is_fully_concrete(ty: &Ty) -> (r: bool)
    ensures
        r == spec_is_fully_concrete(*ty),
    decreases ty, 2nat,
{
    match ty {
        Ty::TypeParam { .. } | Ty::Infer(_) => false,
        Ty::Ref(inner) | Ty::RefMut(inner) | Ty::RefLifetime(_, inner) | Ty::RefMutLifetime(
            _,
            inner,
        ) | Ty::FixedArray(inner, _) | Ty::Option(inner) | Ty::Array(inner) | Ty::SetOf(inner) =>
            is_fully_concrete(inner),
        Ty::Mapping(k, v) => is_fully_concrete(k) && is_fully_concrete(v),
        Ty::Result(a, b) => is_fully_concrete(a) && is_fully_concrete(b),
        Ty::Tuple(elems) => all_concrete(elems),
        Ty::Class { generic_args, .. } | Ty::Struct { generic_args, .. } | Ty::Enum {
            generic_args,
            ..
        } => all_concrete(generic_args),
        _ => true,
    }
}

/// The separator between a class name and its concrete generic arguments in
/// a monomorphized symbol: `Box[String]` method `eq` becomes
/// `Box__mono__String_eq`.
pub open spec fn mono_sep() -> Seq<char> {
    "__mono__"@
}

/// If `mangled` is a monomorphized name (`Base__mono__Args_method`), the
/// base class name before the separator.
pub open spec fn spec_strip_mono_suffix(mangled: Seq<char>) -> Option<Seq<char>> {
    match find_seq(mangled, mono_sep()) {
        Some(i) => Some(mangled.take(i)),
        None => None,
    }
}

pub fn strip_mono_suffix(mangled: &str) -> (r: Option<&str>)
    ensures
        match r {
            Some(b) => spec_strip_mono_suffix(mangled@) == Some(b@),
            None => spec_strip_mono_suffix(mangled@) is None,
        },
{
    match find_str(mangled, "__mono__") {
        Some(idx) => {
            assert(crate::text::is_first_match(mangled@, "__mono__"@, idx as int));
            let b = mangled.substring_char(0, idx);
            assert(b@ =~= mangled@.take(idx as int));
            Some(b)
        },
        None => None,
    }
}

/// A type's display name as a symbol fragment: every character that is not
/// an ASCII letter or digit becomes `_`.
pub open spec fn symbol_token(raw: Seq<char>) -> Seq<char> {
    raw.map_values(|c: char| if spec_is_ascii_alphanumeric(c) { c } else { '_' })
}

/// The symbol fragment of a generic argument whose display name is `raw`.
pub fn mono_arg_token(raw: &str) -> (r: String)
    ensures
        r@ == symbol_token(raw@),
{
    let n = raw.unicode_len();
    let mut r = String::new();
    let mut i: usize = 0;
    while i < n
        invariant
            n == raw@.len(),
            i <= n,
            r@ == symbol_token(raw@.take(i as int)),
        decreases n - i,
    {
        let c = raw.get_char(i);
        if is_ascii_alphanumeric(c) {
            push_char(&mut r, c);
        } else {
            push_char(&mut r, '_');
        }
        i = i + 1;
        assert(r@ =~= symbol_token(raw@.take(i as int)));
    }
    assert(raw@.take(n as int) =~= raw@);
    r
}

/// The argument tokens of `names`, each after a `__` but the first.
pub open spec fn joined_tokens(names: Seq<Seq<char>>) -> Seq<char>
    decreases names.len(),
{
    if names.len() == 0 {
        Seq::empty()
    } else if names.len() == 1 {
        symbol_token(names[0])
    } else {
        joined_tokens(names.drop_last()) + "__"@ + symbol_token(names.last())
    }
}

/// The symbol base of an instantiation of `class` whose generic arguments
/// have the display names `args`: `Box__mono__String`,
/// `Pair__mono__Int__String`. Methods are then `<base>_<method>`.
pub open spec fn spec_mono_base(class: Seq<char>, args: Seq<Seq<char>>) -> Seq<char> {
    dots_as_underscores(class) + mono_sep() + joined_tokens(args)
}

pub fn mono_base(class: &str, arg_type_names: &Vec<String>) -> (r: String)
    ensures
        r@ == spec_mono_base(class@, arg_type_names@.map_values(|s: String| s@)),
{
    let ghost names = arg_type_names@.map_values(|s: String| s@);
    let n = class.unicode_len();
    let mut s = String::new();
    let mut i: usize = 0;
    while i < n
        invariant
            n == class@.len(),
            i <= n,
            s@ == dots_as_underscores(class@.take(i as int)),
        decreases n - i,
    {
        let c = class.get_char(i);
        if c == '.' {
            push_char(&mut s, '_');
        } else {
            push_char(&mut s, c);
        }
        i = i + 1;
        assert(s@ =~= dots_as_underscores(class@.take(i as int)));
    }
    assert(class@.take(n as int) =~= class@);
    let mut s = s.concat("__mono__");
    let ghost head = s@;
    let mut k: usize = 0;
    assert(names.take(0) =~= Seq::<Seq<char>>::empty());
    assert(head + joined_tokens(names.take(0)) =~= head);
    while k < arg_type_names.len()
        invariant
            k <= arg_type_names@.len(),
            names == arg_type_names@.map_values(|s: String| s@),
            s@ == head + joined_tokens(names.take(k as int)),
        decreases arg_type_names@.len() - k,
    {
        if k > 0 {
            s = s.concat("__");
        }
        let tok = mono_arg_token(arg_type_names[k].as_str());
        s = s.concat(tok.as_str());
        k = k + 1;
        assert(names.take(k as int).drop_last() =~= names.take(k - 1));
        assert(s@ =~= head + joined_tokens(names.take(k as int)));
    }
    assert(names.take(arg_type_names@.len() as int) =~= names);
    s
}


/// A monomorphized method symbol `<base>_<method>`, whose `base` is the one
/// `mono_base` spells for `class` and the display names `args`, gives back
/// the class name (dots read as underscores) under `strip_mono_suffix`,
/// provided that no occurrence of the separator starts inside the class
/// name.
pub proof fn law_strip_mono_suffix_of_mono_base(class: Seq<char>, args: Seq<Seq<char>>, method: Seq<char>)
    requires
        forall|k: int|
            0 <= k < dots_as_underscores(class).len() ==> !has_prefix(
                #[trigger] (dots_as_underscores(class) + mono_sep()).skip(k),
                mono_sep(),
            ),
    ensures
        spec_strip_mono_suffix(spec_mono_base(class, args) + "_"@ + method) == Some(
            dots_as_underscores(class),
        ),
{
    reveal_strlit("__mono__");
    let b = dots_as_underscores(class);
    let bs = b + mono_sep();
    let m = spec_mono_base(class, args) + "_"@ + method;
    let n = b.len() as int;
    assert(m =~= bs + (joined_tokens(args) + "_"@ + method));
    assert(m.skip(n).subrange(0, 8) =~= mono_sep());
    assert forall|k: int| 0 <= k < n implies !has_prefix(#[trigger] m.skip(k), mono_sep()) by {
        assert(m.skip(k).subrange(0, 8) =~= bs.skip(k).subrange(0, 8));
    }
    assert(is_first_match(m, mono_sep(), n));
    lemma_first_match_unique(m, mono_sep(), n);
    assert(m.take(n) =~= b);
}

/// The names of a list of bindings.
pub open spec fn binding_names(m: Seq<(Seq<char>, Ty)>) -> Seq<Seq<char>> {
    m.map_values(|e: (Seq<char>, Ty)| e.0)
}

/// The names bound by a substitution.
pub open spec fn subst_names(v: Seq<(String, Ty)>) -> Seq<Seq<char>> {
    v.map_values(|e: (String, Ty)| e.0@)
}

/// `v` holds the bindings `m`: the same names, in order, bound to the same
/// types.
pub open spec fn binds_like(v: Seq<(String, Ty)>, m: Seq<(Seq<char>, Ty)>) -> bool {
    &&& v.len() == m.len()
    &&& forall|k: int| 0 <= k < v.len() ==> (#[trigger] v[k]).0@ == m[k].0 && ty_same(v[k].1, m[k].1)
}

/// The bindings that unifying the declared type `decl` with the actual type
/// `actual` adds, given the names `keys` already bound: a type parameter of
/// `decl` (through references on either side) facing a fully concrete type
/// binds to it unless its name is bound already; arrays, sets, options,
/// fixed arrays, maps, results, and tuples and classes, structs and enums
/// with as many arguments on both sides, are unified component by component,
/// left to right. Anything else binds nothing.
pub open spec fn unify_bindings(decl: Ty, actual: Ty, keys: Seq<Seq<char>>) -> Seq<(Seq<char>, Ty)>
    decreases decl, actual,
{
    match decl {
        Ty::Ref(x) => unify_bindings(*x, actual, keys),
        Ty::RefMut(x) => unify_bindings(*x, actual, keys),
        Ty::RefLifetime(_, x) => unify_bindings(*x, actual, keys),
        Ty::RefMutLifetime(_, x) => unify_bindings(*x, actual, keys),
        _ => match actual {
            Ty::Ref(y) => unify_bindings(decl, *y, keys),
            Ty::RefMut(y) => unify_bindings(decl, *y, keys),
            Ty::RefLifetime(_, y) => unify_bindings(decl, *y, keys),
            Ty::RefMutLifetime(_, y) => unify_bindings(decl, *y, keys),
            _ => match (decl, actual) {
                (Ty::TypeParam { name, .. }, c) => if spec_is_fully_concrete(c) && !keys.contains(name@) {
                    seq![(name@, c)]
                } else {
                    Seq::empty()
                },
                (Ty::Array(d), Ty::Array(a)) => unify_bindings(*d, *a, keys),
                (Ty::SetOf(d), Ty::SetOf(a)) => unify_bindings(*d, *a, keys),
                (Ty::Option(d), Ty::Option(a)) => unify_bindings(*d, *a, keys),
                (Ty::FixedArray(d, _), Ty::FixedArray(a, _)) => unify_bindings(*d, *a, keys),
                (Ty::Mapping(dk, dv), Ty::Mapping(ak, av)) => {
                    let r1 = unify_bindings(*dk, *ak, keys);
                    r1 + unify_bindings(*dv, *av, keys + binding_names(r1))
                },
                (Ty::Result(da, db), Ty::Result(aa, ab)) => {
                    let r1 = unify_bindings(*da, *aa, keys);
                    r1 + unify_bindings(*db, *ab, keys + binding_names(r1))
                },
                (Ty::Tuple(de), Ty::Tuple(ae)) => if de@.len() == ae@.len() {
                    unify_list_bindings(de@, ae@, keys)
                } else {
                    Seq::empty()
                },
                (Ty::Class { generic_args: dd, .. }, Ty::Class { generic_args: aa, .. }) => if dd@.len()
                    == aa@.len() {
                    unify_list_bindings(dd@, aa@, keys)
                } else {
                    Seq::empty()
                },
                (Ty::Struct { generic_args: dd, .. }, Ty::Struct { generic_args: aa, .. }) => if dd@.len()
                    == aa@.len() {
                    unify_list_bindings(dd@, aa@, keys)
                } else {
                    Seq::empty()
                },
                (Ty::Enum { generic_args: dd, .. }, Ty::Enum { generic_args: aa, .. }) => if dd@.len()
                    == aa@.len() {
                    unify_list_bindings(dd@, aa@, keys)
                } else {
                    Seq::empty()
                },
                _ => Seq::empty(),
            },
        },
    }
}

/// Unifying two lists of types of the same length pairwise, left to right.
pub open spec fn unify_list_bindings(ds: Seq<Ty>, as_: Seq<Ty>, keys: Seq<Seq<char>>) -> Seq<(Seq<char>, Ty)>
    decreases ds, as_,
{
    if ds.len() == 0 || as_.len() == 0 {
        Seq::empty()
    } else {
        let r1 = unify_bindings(ds[0], as_[0], keys);
        r1 + unify_list_bindings(ds.drop_first(), as_.drop_first(), keys + binding_names(r1))
    }
}

/// Names of a substitution's bindings are those of the bindings it holds.
proof fn lemma_binds_like_names(v: Seq<(String, Ty)>, m: Seq<(Seq<char>, Ty)>)
    requires
        binds_like(v, m),
    ensures
        subst_names(v) == binding_names(m),
{
    assert(subst_names(v) =~= binding_names(m));
}

/// Is `name` bound in `out`?
fn has_binding(out: &Vec<(String, Ty)>, name: &String) -> (r: bool)
    ensures
        r == subst_names(out@).contains(name@),
{
    let mut i: usize = 0;
    while i < out.len()
        invariant
            i <= out@.len(),
            forall|k: int| 0 <= k < i ==> (#[trigger] out@[k]).0@ != name@,
        decreases out@.len() - i,
    {
        if out[i].0 == *name {
            assert(subst_names(out@)[i as int] == name@);
            return true;
        }
        i = i + 1;
    }
    assert(!subst_names(out@).contains(name@)) by {
        if subst_names(out@).contains(name@) {
            let k = choose|k: int| 0 <= k < subst_names(out@).len() && subst_names(out@)[k] == name@;
            assert(out@[k].0@ == name@);
        }
    }
    false
}

/// Unifying one step more extends the substitution as the bindings say.
proof fn lemma_extend(
    v0: Seq<(String, Ty)>,
    v1: Seq<(String, Ty)>,
    v2: Seq<(String, Ty)>,
    m1: Seq<(Seq<char>, Ty)>,
    m2: Seq<(Seq<char>, Ty)>,
)
    requires
        v1.take(v0.len() as int) == v0,
        v1.len() >= v0.len(),
        binds_like(v1.skip(v0.len() as int), m1),
        v2.take(v1.len() as int) == v1,
        v2.len() >= v1.len(),
        binds_like(v2.skip(v1.len() as int), m2),
    ensures
        v2.take(v0.len() as int) == v0,
        binds_like(v2.skip(v0.len() as int), m1 + m2),
        subst_names(v1) == subst_names(v0) + binding_names(m1),
{
    assert(v2.take(v0.len() as int) =~= v0) by {
        assert(v2.take(v1.len() as int).take(v0.len() as int) =~= v2.take(v0.len() as int));
    }
    assert forall|k: int| 0 <= k < v2.skip(v0.len() as int).len() implies (#[trigger] v2.skip(
        v0.len() as int,
    )[k]).0@ == (m1 + m2)[k].0 && ty_same(v2.skip(v0.len() as int)[k].1, (m1 + m2)[k].1) by {
        if k < m1.len() {
            assert(v2.skip(v0.len() as int)[k] == v2[v0.len() + k]);
            assert(v2[v0.len() + k] == v1[v0.len() + k]) by {
                assert(v2.take(v1.len() as int)[v0.len() + k] == v2[v0.len() + k]);
            }
            assert(v1.skip(v0.len() as int)[k] == v1[v0.len() + k]);
        } else {
            assert(v2.skip(v0.len() as int)[k] == v2.skip(v1.len() as int)[k - m1.len()]);
        }
    }
    lemma_binds_like_names(v1.skip(v0.len() as int), m1);
    assert(v1 =~= v0 + v1.skip(v0.len() as int));
    assert(subst_names(v1) =~= subst_names(v0) + subst_names(v1.skip(v0.len() as int)));
}

/// Collect into `out` the bindings of the type parameters of the declared
/// type `decl` to the concrete types facing them in `actual`. A name bound
/// already keeps its binding; a parameter facing a type that is not fully
/// concrete, or a shape mismatch, binds nothing (callers then see the
/// parameter unbound).
pub fn unify_collect_type_params(decl: &Ty, actual: &Ty, out: &mut Vec<(String, Ty)>)
    ensures
        final(out)@.len() >= old(out)@.len(),
        final(out)@.take(old(out)@.len() as int) == old(out)@,
        binds_like(
            final(out)@.skip(old(out)@.len() as int),
            unify_bindings(*decl, *actual, subst_names(old(out)@)),
        ),
    decreases decl, actual,
{
    match decl {
        Ty::Ref(x) | Ty::RefMut(x) | Ty::RefLifetime(_, x) | Ty::RefMutLifetime(_, x) => {
            unify_collect_type_params(x, actual, out);
            return;
        },
        _ => {},
    }
    match actual {
        Ty::Ref(y) | Ty::RefMut(y) | Ty::RefLifetime(_, y) | Ty::RefMutLifetime(_, y) => {
            unify_collect_type_params(decl, y, out);
            return;
        },
        _ => {},
    }
    let ghost v0 = out@;
    match (decl, actual) {
        (Ty::TypeParam { name, .. }, concrete) => {
            if is_fully_concrete(concrete) && !has_binding(out, name) {
                let c = concrete.clone();
                out.push((name.clone(), c));
                assert(out@.skip(v0.len() as int) =~= seq![out@.last()]);
            } else {
                assert(out@.skip(v0.len() as int) =~= Seq::<(String, Ty)>::empty());
            }
            assert(out@.take(v0.len() as int) =~= v0);
        },
        (Ty::Array(d), Ty::Array(a)) | (Ty::SetOf(d), Ty::SetOf(a)) | (Ty::Option(d), Ty::Option(a))
        | (Ty::FixedArray(d, _), Ty::FixedArray(a, _)) => {
            unify_collect_type_params(d, a, out);
        },
        (Ty::Mapping(dk, dv), Ty::Mapping(ak, av)) | (Ty::Result(dk, dv), Ty::Result(ak, av)) => {
            unify_collect_type_params(dk, ak, out);
            let ghost v1 = out@;
            unify_collect_type_params(dv, av, out);
            proof {
                lemma_extend(
                    v0,
                    v1,
                    out@,
                    unify_bindings(**dk, **ak, subst_names(v0)),
                    unify_bindings(**dv, **av, subst_names(v1)),
                );
            }
        },
        (Ty::Tuple(de), Ty::Tuple(ae)) | (Ty::Class { generic_args: de, .. }, Ty::Class {
            generic_args: ae,
            ..
        }) | (Ty::Struct { generic_args: de, .. }, Ty::Struct { generic_args: ae, .. }) | (
            Ty::Enum { generic_args: de, .. },
            Ty::Enum { generic_args: ae, .. },
        ) => {
            if de.len() == ae.len() {
                unify_collect_list(de, ae, out);
            } else {
                assert(out@.skip(v0.len() as int) =~= Seq::<(String, Ty)>::empty());
                assert(out@.take(v0.len() as int) =~= v0);
            }
        },
        _ => {
            assert(out@.skip(v0.len() as int) =~= Seq::<(String, Ty)>::empty());
            assert(out@.take(v0.len() as int) =~= v0);
        },
    }
}

/// Unify two lists of types of the same length pairwise, left to right.
fn unify_collect_list(ds: &Vec<Ty>, as_: &Vec<Ty>, out: &mut Vec<(String, Ty)>)
    requires
        ds@.len() == as_@.len(),
    ensures
        final(out)@.len() >= old(out)@.len(),
        final(out)@.take(old(out)@.len() as int) == old(out)@,
        binds_like(
            final(out)@.skip(old(out)@.len() as int),
            unify_list_bindings(ds@, as_@, subst_names(old(out)@)),
        ),
    decreases ds@, as_@,
{
    let ghost v0 = out@;
    let ghost keys0 = subst_names(v0);
    let ghost mut acc: Seq<(Seq<char>, Ty)> = Seq::empty();
    let mut i: usize = 0;
    assert(out@.take(v0.len() as int) =~= v0);
    assert(out@.skip(v0.len() as int) =~= Seq::<(String, Ty)>::empty());
    assert(ds@.skip(0) =~= ds@);
    assert(as_@.skip(0) =~= as_@);
    assert(keys0 + binding_names(acc) =~= keys0);
    assert(acc + unify_list_bindings(ds@, as_@, keys0) =~= unify_list_bindings(ds@, as_@, keys0));
    while i < ds.len()
        invariant
            ds@.len() == as_@.len(),
            i <= ds@.len(),
            out@.len() >= v0.len(),
            out@.take(v0.len() as int) == v0,
            keys0 == subst_names(v0),
            binds_like(out@.skip(v0.len() as int), acc),
            subst_names(out@) == keys0 + binding_names(acc),
            acc + unify_list_bindings(ds@.skip(i as int), as_@.skip(i as int), keys0 + binding_names(acc))
                == unify_list_bindings(ds@, as_@, keys0),
        decreases ds@.len() - i,
    {
        let ghost v1 = out@;
        assert(decreases_to!(ds@ => ds@[i as int]));
        unify_collect_type_params(&ds[i], &as_[i], out);
        proof {
            let r1 = unify_bindings(ds@[i as int], as_@[i as int], subst_names(v1));
            let v2 = out@;
            assert(v1 =~= v0 + v1.skip(v0.len() as int));
            lemma_extend(v0, v1, v2, acc, r1);
            let rest = ds@.skip(i as int);
            let rest_a = as_@.skip(i as int);
            assert(rest[0] == ds@[i as int]);
            assert(rest_a[0] == as_@[i as int]);
            assert(rest.drop_first() =~= ds@.skip(i + 1));
            assert(rest_a.drop_first() =~= as_@.skip(i + 1));
            assert(binding_names(acc + r1) =~= binding_names(acc) + binding_names(r1));
            assert(keys0 + binding_names(acc) + binding_names(r1) =~= keys0 + binding_names(acc + r1));
            assert((acc + r1) + unify_list_bindings(ds@.skip(i + 1), as_@.skip(i + 1), keys0 + binding_names(acc + r1))
                =~= acc + unify_list_bindings(rest, rest_a, keys0 + binding_names(acc)));
            acc = acc + r1;
            assert(subst_names(v2) =~= keys0 + binding_names(acc)) by {
                assert(v2 =~= v0 + v2.skip(v0.len() as int));
                assert(subst_names(v2) =~= subst_names(v0) + subst_names(v2.skip(v0.len() as int)));
                lemma_binds_like_names(v2.skip(v0.len() as int), acc);
            }
        }
        i = i + 1;
    }
    proof {
        assert(ds@.skip(i as int) =~= Seq::<Ty>::empty());
        assert(acc + Seq::empty() =~= acc);
    }
}



// ---------------------------------------------------------------------------
// Every type a program mentions.
// ---------------------------------------------------------------------------

/// The types of `e` in walk order: the node's own type, then those of its
/// sub-expressions left to right (a cast adds its target type after its
/// operand; a `let` adds its declared type before its value).
pub open spec fn tys_in(e: HirExpr) -> Seq<Ty>
    decreases e, 1nat,
{
    seq![e.ty] + tys_in_kind(e)
}

/// The types of the sub-expressions of `e`, in walk order.
pub open spec fn tys_in_kind(e: HirExpr) -> Seq<Ty>
    decreases e, 0nat,
{
    match e.kind {
        HirExprKind::FieldAccess { object, .. } => tys_in(*object),
        HirExprKind::MethodCall { object, args, block, .. } => tys_in(*object) + tys_in_list(args@) + tys_in_opt(block),
        HirExprKind::FnCall { args, .. } => tys_in_list(args@),
        HirExprKind::BinaryOp { left, right, .. } => tys_in(*left) + tys_in(*right),
        HirExprKind::UnaryOp { operand, .. } => tys_in(*operand),
        HirExprKind::Borrow { expr, .. } => tys_in(*expr),
        HirExprKind::Block(stmts, tail) => tys_in_stmts(stmts@) + tys_in_opt(tail),
        HirExprKind::UnsafeBlock(stmts, tail) => tys_in_stmts(stmts@) + tys_in_opt(tail),
        HirExprKind::If { cond, then_branch, else_branch } => tys_in(*cond) + tys_in(*then_branch) + tys_in_opt(else_branch),
        HirExprKind::Match { scrutinee, arms } => tys_in(*scrutinee) + tys_in_arms(arms@),
        HirExprKind::Loop { body } => tys_in(*body),
        HirExprKind::While { condition, body } => tys_in(*condition) + tys_in(*body),
        HirExprKind::For { iterable, body, .. } => tys_in(*iterable) + tys_in(*body),
        HirExprKind::Assign { target, value } => tys_in(*target) + tys_in(*value),
        HirExprKind::CompoundAssign { target, value, .. } => tys_in(*target) + tys_in(*value),
        HirExprKind::Return(r) => tys_in_opt(r),
        HirExprKind::Break(r) => tys_in_opt(r),
        HirExprKind::Closure { body, .. } => tys_in(*body),
        HirExprKind::Construct { fields, .. } => tys_in_fields(fields@),
        HirExprKind::EnumVariant { fields, .. } => tys_in_fields(fields@),
        HirExprKind::Tuple(es) => tys_in_list(es@),
        HirExprKind::ArrayLiteral(es) => tys_in_list(es@),
        HirExprKind::Index { object, index } => tys_in(*object) + tys_in(*index),
        HirExprKind::Cast { expr, target } => tys_in(*expr) + seq![target],
        HirExprKind::ArrayFill { value, .. } => tys_in(*value),
        HirExprKind::Range { start, end, .. } => tys_in_opt(start) + tys_in_opt(end),
        HirExprKind::Interpolation { parts } => tys_in_parts(parts@),
        HirExprKind::MacroCall { args, .. } => tys_in_list(args@),
        HirExprKind::MapLiteral(pairs) => tys_in_pairs(pairs@),
        _ => Seq::empty(),
    }
}

pub open spec fn tys_in_opt(o: Option<Box<HirExpr>>) -> Seq<Ty>
    decreases o, 0nat,
{
    match o {
        Some(b) => tys_in(*b),
        None => Seq::empty(),
    }
}

pub open spec fn tys_in_list(es: Seq<HirExpr>) -> Seq<Ty>
    decreases es, 0nat,
{
    if es.len() == 0 {
        Seq::empty()
    } else {
        tys_in_list(es.drop_last()) + tys_in(es.last())
    }
}

pub open spec fn tys_in_fields(fs: Seq<(String, HirExpr)>) -> Seq<Ty>
    decreases fs, 0nat,
{
    if fs.len() == 0 {
        Seq::empty()
    } else {
        tys_in_fields(fs.drop_last()) + tys_in(fs.last().1)
    }
}

pub open spec fn tys_in_pairs(ps: Seq<(HirExpr, HirExpr)>) -> Seq<Ty>
    decreases ps, 0nat,
{
    if ps.len() == 0 {
        Seq::empty()
    } else {
        tys_in_pairs(ps.drop_last()) + tys_in(ps.last().0) + tys_in(ps.last().1)
    }
}

pub open spec fn tys_in_part(p: HirInterpolationPart) -> Seq<Ty>
    decreases p, 0nat,
{
    match p {
        HirInterpolationPart::Expr { expr, .. } => tys_in(expr),
        _ => Seq::empty(),
    }
}

pub open spec fn tys_in_parts(ps: Seq<HirInterpolationPart>) -> Seq<Ty>
    decreases ps, 1nat,
{
    if ps.len() == 0 {
        Seq::empty()
    } else {
        tys_in_parts(ps.drop_last()) + tys_in_part(ps.last())
    }
}

pub open spec fn tys_in_arm(arm: HirMatchArm) -> Seq<Ty>
    decreases arm, 0nat,
{
    (match arm.guard {
        Some(g) => tys_in(g),
        None => Seq::empty(),
    }) + tys_in(arm.body)
}

pub open spec fn tys_in_arms(arms: Seq<HirMatchArm>) -> Seq<Ty>
    decreases arms, 1nat,
{
    if arms.len() == 0 {
        Seq::empty()
    } else {
        tys_in_arms(arms.drop_last()) + tys_in_arm(arms.last())
    }
}

pub open spec fn tys_in_stmt(s: HirStatement) -> Seq<Ty>
    decreases s, 0nat,
{
    match s {
        HirStatement::Let { ty, value: Some(v), .. } => seq![ty] + tys_in(v),
        HirStatement::Let { ty, value: None, .. } => seq![ty],
        HirStatement::Expr(x) => tys_in(x),
    }
}

pub open spec fn tys_in_stmts(ss: Seq<HirStatement>) -> Seq<Ty>
    decreases ss, 1nat,
{
    if ss.len() == 0 {
        Seq::empty()
    } else {
        tys_in_stmts(ss.drop_last()) + tys_in_stmt(ss.last())
    }
}

/// The types referred to by a list of references.
pub open spec fn deref_tys(v: Seq<&Ty>) -> Seq<Ty> {
    v.map_values(|r: &Ty| *r)
}

/// `new` is `old` followed by references to the types `tys`.
pub open spec fn tys_pushed(old: Seq<&Ty>, new: Seq<&Ty>, tys: Seq<Ty>) -> bool {
    deref_tys(new) == deref_tys(old) + tys
}

proof fn lemma_tys_chain(a: Seq<&Ty>, b: Seq<&Ty>, c: Seq<&Ty>, x: Seq<Ty>, y: Seq<Ty>)
    requires
        tys_pushed(a, b, x),
        tys_pushed(b, c, y),
    ensures
        tys_pushed(a, c, x + y),
{
    assert(deref_tys(c) =~= deref_tys(a) + (x + y));
}

proof fn lemma_tys_none(a: Seq<&Ty>)
    ensures
        tys_pushed(a, a, Seq::empty()),
{
    assert(deref_tys(a) =~= deref_tys(a) + Seq::<Ty>::empty());
}

fn push_ty<'a>(t: &'a Ty, out: &mut Vec<&'a Ty>)
    ensures
        tys_pushed(old(out)@, final(out)@, seq![*t]),
{
    out.push(t);
    assert(deref_tys(out@) =~= deref_tys(old(out)@) + seq![*t]);
}

fn walk_tys_in_opt<'a>(o: &'a Option<Box<HirExpr>>, out: &mut Vec<&'a Ty>)
    ensures
        tys_pushed(old(out)@, final(out)@, tys_in_opt(*o)),
    decreases *o, 0nat,
{
    match o {
        Some(b) => walk_tys_in_expr(b, out),
        None => {
            proof {
                lemma_tys_none(out@);
            }
        },
    }
}

fn walk_tys_in_list<'a>(es: &'a Vec<HirExpr>, out: &mut Vec<&'a Ty>)
    ensures
        tys_pushed(old(out)@, final(out)@, tys_in_list(es@)),
    decreases es@, 0nat,
{
    let ghost o0 = out@;
    let mut i: usize = 0;
    proof {
        lemma_tys_none(o0);
        assert(es@.take(0) =~= Seq::<HirExpr>::empty());
    }
    while i < es.len()
        invariant
            i <= es@.len(),
            tys_pushed(o0, out@, tys_in_list(es@.take(i as int))),
        decreases es@.len() - i,
    {
        let ghost o1 = out@;
        assert(decreases_to!(es@ => es@[i as int]));
        walk_tys_in_expr(&es[i], out);
        proof {
            assert(es@.take(i + 1).drop_last() =~= es@.take(i as int));
            lemma_tys_chain(o0, o1, out@, tys_in_list(es@.take(i as int)), tys_in(es@[i as int]));
        }
        i = i + 1;
    }
    assert(es@.take(es@.len() as int) =~= es@);
}

fn walk_tys_in_fields<'a>(fs: &'a Vec<(String, HirExpr)>, out: &mut Vec<&'a Ty>)
    ensures
        tys_pushed(old(out)@, final(out)@, tys_in_fields(fs@)),
    decreases fs@, 0nat,
{
    let ghost o0 = out@;
    let mut i: usize = 0;
    proof {
        lemma_tys_none(o0);
        assert(fs@.take(0) =~= Seq::<(String, HirExpr)>::empty());
    }
    while i < fs.len()
        invariant
            i <= fs@.len(),
            tys_pushed(o0, out@, tys_in_fields(fs@.take(i as int))),
        decreases fs@.len() - i,
    {
        let ghost o1 = out@;
        assert(decreases_to!(fs@ => fs@[i as int]));
        walk_tys_in_expr(&fs[i].1, out);
        proof {
            assert(fs@.take(i + 1).drop_last() =~= fs@.take(i as int));
            lemma_tys_chain(o0, o1, out@, tys_in_fields(fs@.take(i as int)), tys_in(fs@[i as int].1));
        }
        i = i + 1;
    }
    assert(fs@.take(fs@.len() as int) =~= fs@);
}

fn walk_tys_in_pairs<'a>(ps: &'a Vec<(HirExpr, HirExpr)>, out: &mut Vec<&'a Ty>)
    ensures
        tys_pushed(old(out)@, final(out)@, tys_in_pairs(ps@)),
    decreases ps@, 0nat,
{
    let ghost o0 = out@;
    let mut i: usize = 0;
    proof {
        lemma_tys_none(o0);
        assert(ps@.take(0) =~= Seq::<(HirExpr, HirExpr)>::empty());
    }
    while i < ps.len()
        invariant
            i <= ps@.len(),
            tys_pushed(o0, out@, tys_in_pairs(ps@.take(i as int))),
        decreases ps@.len() - i,
    {
        let ghost o1 = out@;
        assert(decreases_to!(ps@ => ps@[i as int]));
        walk_tys_in_expr(&ps[i].0, out);
        let ghost o2 = out@;
        walk_tys_in_expr(&ps[i].1, out);
        proof {
            assert(ps@.take(i + 1).drop_last() =~= ps@.take(i as int));
            lemma_tys_chain(o0, o1, o2, tys_in_pairs(ps@.take(i as int)), tys_in(ps@[i as int].0));
            lemma_tys_chain(o0, o2, out@, tys_in_pairs(ps@.take(i as int)) + tys_in(ps@[i as int].0), tys_in(ps@[i as int].1));
        }
        i = i + 1;
    }
    assert(ps@.take(ps@.len() as int) =~= ps@);
}

fn walk_tys_in_parts<'a>(ps: &'a Vec<HirInterpolationPart>, out: &mut Vec<&'a Ty>)
    ensures
        tys_pushed(old(out)@, final(out)@, tys_in_parts(ps@)),
    decreases ps@, 1nat,
{
    let ghost o0 = out@;
    let mut i: usize = 0;
    proof {
        lemma_tys_none(o0);
        assert(ps@.take(0) =~= Seq::<HirInterpolationPart>::empty());
    }
    while i < ps.len()
        invariant
            i <= ps@.len(),
            tys_pushed(o0, out@, tys_in_parts(ps@.take(i as int))),
        decreases ps@.len() - i,
    {
        let ghost o1 = out@;
        assert(decreases_to!(ps@ => ps@[i as int]));
        match &ps[i] {
            HirInterpolationPart::Expr { expr: e, .. } => walk_tys_in_expr(e, out),
            _ => {
                proof {
                    lemma_tys_none(out@);
                }
            },
        }
        proof {
            assert(ps@.take(i + 1).drop_last() =~= ps@.take(i as int));
            lemma_tys_chain(o0, o1, out@, tys_in_parts(ps@.take(i as int)), tys_in_part(ps@[i as int]));
        }
        i = i + 1;
    }
    assert(ps@.take(ps@.len() as int) =~= ps@);
}

fn walk_tys_in_arms<'a>(arms: &'a Vec<HirMatchArm>, out: &mut Vec<&'a Ty>)
    ensures
        tys_pushed(old(out)@, final(out)@, tys_in_arms(arms@)),
    decreases arms@, 1nat,
{
    let ghost o0 = out@;
    let mut i: usize = 0;
    proof {
        lemma_tys_none(o0);
        assert(arms@.take(0) =~= Seq::<HirMatchArm>::empty());
    }
    while i < arms.len()
        invariant
            i <= arms@.len(),
            tys_pushed(o0, out@, tys_in_arms(arms@.take(i as int))),
        decreases arms@.len() - i,
    {
        let ghost o1 = out@;
        assert(decreases_to!(arms@ => arms@[i as int]));
        let arm = &arms[i];
        match &arm.guard {
            Some(g) => walk_tys_in_expr(g, out),
            None => {
                proof {
                    lemma_tys_none(out@);
                }
            },
        }
        let ghost o2 = out@;
        walk_tys_in_expr(&arm.body, out);
        proof {
            let a = arms@[i as int];
            let rg = match a.guard {
                Some(g) => tys_in(g),
                None => Seq::empty(),
            };
            lemma_tys_chain(o1, o2, out@, rg, tys_in(a.body));
            assert(arms@.take(i + 1).drop_last() =~= arms@.take(i as int));
            lemma_tys_chain(o0, o1, out@, tys_in_arms(arms@.take(i as int)), tys_in_arm(a));
        }
        i = i + 1;
    }
    assert(arms@.take(arms@.len() as int) =~= arms@);
}

fn walk_tys_in_stmts<'a>(ss: &'a Vec<HirStatement>, out: &mut Vec<&'a Ty>)
    ensures
        tys_pushed(old(out)@, final(out)@, tys_in_stmts(ss@)),
    decreases ss@, 1nat,
{
    let ghost o0 = out@;
    let mut i: usize = 0;
    proof {
        lemma_tys_none(o0);
        assert(ss@.take(0) =~= Seq::<HirStatement>::empty());
    }
    while i < ss.len()
        invariant
            i <= ss@.len(),
            tys_pushed(o0, out@, tys_in_stmts(ss@.take(i as int))),
        decreases ss@.len() - i,
    {
        let ghost o1 = out@;
        assert(decreases_to!(ss@ => ss@[i as int]));
        walk_tys_in_stmt(&ss[i], out);
        proof {
            assert(ss@.take(i + 1).drop_last() =~= ss@.take(i as int));
            lemma_tys_chain(o0, o1, out@, tys_in_stmts(ss@.take(i as int)), tys_in_stmt(ss@[i as int]));
        }
        i = i + 1;
    }
    assert(ss@.take(ss@.len() as int) =~= ss@);
}

/// Push every type of a statement, in walk order.
pub fn walk_tys_in_stmt<'a>(stmt: &'a HirStatement, out: &mut Vec<&'a Ty>)
    ensures
        tys_pushed(old(out)@, final(out)@, tys_in_stmt(*stmt)),
    decreases *stmt, 0nat,
{
    match stmt {
        HirStatement::Let { ty, value, .. } => {
            let ghost o0 = out@;
            push_ty(ty, out);
            match value {
                Some(v) => {
                    let ghost o1 = out@;
                    walk_tys_in_expr(v, out);
                    proof {
                        lemma_tys_chain(o0, o1, out@, seq![*ty], tys_in(*v));
                    }
                },
                None => {},
            }
        },
        HirStatement::Expr(e) => walk_tys_in_expr(e, out),
    }
}

/// Push every type of `expr` (its own, then those of its sub-expressions,
/// in walk order).
pub fn walk_tys_in_expr<'a>(expr: &'a HirExpr, out: &mut Vec<&'a Ty>)
    ensures
        tys_pushed(old(out)@, final(out)@, tys_in(*expr)),
    decreases *expr, 1nat,
{
    let ghost o0 = out@;
    push_ty(&expr.ty, out);
    let ghost o1 = out@;
    let ghost head: Seq<Ty> = seq![expr.ty];
    match &expr.kind {
        HirExprKind::FieldAccess { object, .. } => walk_tys_in_expr(object, out),
        HirExprKind::MethodCall { object, args, block, .. } => {
            walk_tys_in_expr(object, out);
            let ghost o2 = out@;
            walk_tys_in_list(args, out);
            let ghost o3 = out@;
            walk_tys_in_opt(block, out);
            proof {
                lemma_tys_chain(o1, o2, o3, tys_in(**object), tys_in_list(args@));
                lemma_tys_chain(o1, o3, out@, tys_in(**object) + tys_in_list(args@), tys_in_opt(*block));
            }
        },
        HirExprKind::FnCall { args, .. } | HirExprKind::MacroCall { args, .. } => walk_tys_in_list(args, out),
        HirExprKind::BinaryOp { left, right, .. } => {
            walk_tys_in_expr(left, out);
            let ghost o2 = out@;
            walk_tys_in_expr(right, out);
            proof {
                lemma_tys_chain(o1, o2, out@, tys_in(**left), tys_in(**right));
            }
        },
        HirExprKind::UnaryOp { operand, .. } => walk_tys_in_expr(operand, out),
        HirExprKind::Borrow { expr: inner, .. } => walk_tys_in_expr(inner, out),
        HirExprKind::Block(stmts, tail) | HirExprKind::UnsafeBlock(stmts, tail) => {
            walk_tys_in_stmts(stmts, out);
            let ghost o2 = out@;
            walk_tys_in_opt(tail, out);
            proof {
                lemma_tys_chain(o1, o2, out@, tys_in_stmts(stmts@), tys_in_opt(*tail));
            }
        },
        HirExprKind::If { cond, then_branch, else_branch } => {
            walk_tys_in_expr(cond, out);
            let ghost o2 = out@;
            walk_tys_in_expr(then_branch, out);
            let ghost o3 = out@;
            walk_tys_in_opt(else_branch, out);
            proof {
                lemma_tys_chain(o1, o2, o3, tys_in(**cond), tys_in(**then_branch));
                lemma_tys_chain(o1, o3, out@, tys_in(**cond) + tys_in(**then_branch), tys_in_opt(*else_branch));
            }
        },
        HirExprKind::Match { scrutinee, arms } => {
            walk_tys_in_expr(scrutinee, out);
            let ghost o2 = out@;
            walk_tys_in_arms(arms, out);
            proof {
                lemma_tys_chain(o1, o2, out@, tys_in(**scrutinee), tys_in_arms(arms@));
            }
        },
        HirExprKind::Loop { body } => walk_tys_in_expr(body, out),
        HirExprKind::While { condition, body } => {
            walk_tys_in_expr(condition, out);
            let ghost o2 = out@;
            walk_tys_in_expr(body, out);
            proof {
                lemma_tys_chain(o1, o2, out@, tys_in(**condition), tys_in(**body));
            }
        },
        HirExprKind::For { iterable, body, .. } => {
            walk_tys_in_expr(iterable, out);
            let ghost o2 = out@;
            walk_tys_in_expr(body, out);
            proof {
                lemma_tys_chain(o1, o2, out@, tys_in(**iterable), tys_in(**body));
            }
        },
        HirExprKind::Assign { target, value } | HirExprKind::CompoundAssign { target, value, .. } => {
            walk_tys_in_expr(target, out);
            let ghost o2 = out@;
            walk_tys_in_expr(value, out);
            proof {
                lemma_tys_chain(o1, o2, out@, tys_in(**target), tys_in(**value));
            }
        },
        HirExprKind::Return(r) | HirExprKind::Break(r) => walk_tys_in_opt(r, out),
        HirExprKind::Closure { body, .. } => walk_tys_in_expr(body, out),
        HirExprKind::Construct { fields, .. } | HirExprKind::EnumVariant { fields, .. } => walk_tys_in_fields(
            fields,
            out,
        ),
        HirExprKind::Tuple(elems) | HirExprKind::ArrayLiteral(elems) => walk_tys_in_list(elems, out),
        HirExprKind::Index { object, index } => {
            walk_tys_in_expr(object, out);
            let ghost o2 = out@;
            walk_tys_in_expr(index, out);
            proof {
                lemma_tys_chain(o1, o2, out@, tys_in(**object), tys_in(**index));
            }
        },
        HirExprKind::Cast { expr: inner, target } => {
            walk_tys_in_expr(inner, out);
            let ghost o2 = out@;
            push_ty(target, out);
            proof {
                lemma_tys_chain(o1, o2, out@, tys_in(**inner), seq![*target]);
            }
        },
        HirExprKind::ArrayFill { value, .. } => walk_tys_in_expr(value, out),
        HirExprKind::Range { start, end, .. } => {
            walk_tys_in_opt(start, out);
            let ghost o2 = out@;
            walk_tys_in_opt(end, out);
            proof {
                lemma_tys_chain(o1, o2, out@, tys_in_opt(*start), tys_in_opt(*end));
            }
        },
        HirExprKind::Interpolation { parts } => walk_tys_in_parts(parts, out),
        HirExprKind::MapLiteral(pairs) => walk_tys_in_pairs(pairs, out),
        HirExprKind::IntLiteral(_) | HirExprKind::FloatLiteral(_) | HirExprKind::StringLiteral(_)
        | HirExprKind::BoolLiteral(_) | HirExprKind::CharLiteral(_) | HirExprKind::UnitLiteral
        | HirExprKind::RegexLiteral { .. } | HirExprKind::VarRef(_) | HirExprKind::Continue
        | HirExprKind::NullLiteral | HirExprKind::Error => {
            proof {
                lemma_tys_none(out@);
            }
        },
    }
    proof {
        lemma_tys_chain(o0, o1, out@, head, tys_in_kind(*expr));
    }
}

/// The types of a function: its parameters', its return type, its body's.
pub open spec fn tys_in_func(f: HirFuncDef) -> Seq<Ty> {
    f.params@.map_values(|p: HirParam| p.ty) + seq![f.return_ty] + tys_in(*f.body)
}

pub open spec fn tys_in_funcs(ms: Seq<HirFuncDef>) -> Seq<Ty>
    decreases ms.len(),
{
    if ms.len() == 0 {
        Seq::empty()
    } else {
        tys_in_funcs(ms.drop_last()) + tys_in_func(ms.last())
    }
}

pub open spec fn tys_in_impl_items(its: Seq<HirImplItem>) -> Seq<Ty>
    decreases its.len(),
{
    if its.len() == 0 {
        Seq::empty()
    } else {
        tys_in_impl_items(its.drop_last()) + match its.last() {
            HirImplItem::Method(m) => tys_in_func(m),
            _ => Seq::empty(),
        }
    }
}

pub open spec fn tys_in_blocks(bs: Seq<HirImplBlock>) -> Seq<Ty>
    decreases bs.len(),
{
    if bs.len() == 0 {
        Seq::empty()
    } else {
        tys_in_blocks(bs.drop_last()) + tys_in_impl_items(bs.last().items@)
    }
}

pub open spec fn tys_in_mixin_items(its: Seq<HirMixinItem>) -> Seq<Ty>
    decreases its.len(),
{
    if its.len() == 0 {
        Seq::empty()
    } else {
        tys_in_mixin_items(its.drop_last()) + match its.last() {
            HirMixinItem::DefaultMethod(f) => tys_in_func(f),
            _ => Seq::empty(),
        }
    }
}

/// The types of an item: fields, then methods (with those of a class's
/// `include` blocks), a constant's type and initializer, a mixin's default
/// methods, a module's items. Aliases and newtypes add none.
pub open spec fn tys_in_item(item: HirItem) -> Seq<Ty>
    decreases item, 1nat,
{
    match item {
        HirItem::Function(f) => tys_in_func(f),
        HirItem::Class(c) => c.fields@.map_values(|f: HirField| f.ty) + tys_in_funcs(c.methods@) + tys_in_blocks(
            c.impl_blocks@,
        ),
        HirItem::Struct(s) => s.fields@.map_values(|f: HirField| f.ty) + tys_in_funcs(s.methods@),
        HirItem::Enum(e) => tys_in_funcs(e.methods@),
        HirItem::Impl(b) => tys_in_impl_items(b.items@),
        HirItem::Module(m) => tys_in_items(m.items@),
        HirItem::Const(c) => seq![c.ty] + tys_in(c.value),
        HirItem::Mixin(m) => tys_in_mixin_items(m.items@),
        HirItem::TypeAlias(_) | HirItem::Newtype(_) => Seq::empty(),
    }
}

pub open spec fn tys_in_items(its: Seq<HirItem>) -> Seq<Ty>
    decreases its, 0nat,
{
    if its.len() == 0 {
        Seq::empty()
    } else {
        tys_in_items(its.drop_last()) + tys_in_item(its.last())
    }
}

fn walk_tys_in_params<'a>(ps: &'a Vec<HirParam>, out: &mut Vec<&'a Ty>)
    ensures
        tys_pushed(old(out)@, final(out)@, ps@.map_values(|p: HirParam| p.ty)),
{
    let ghost o0 = out@;
    let mut i: usize = 0;
    proof {
        lemma_tys_none(o0);
    }
    while i < ps.len()
        invariant
            i <= ps@.len(),
            tys_pushed(o0, out@, ps@.take(i as int).map_values(|p: HirParam| p.ty)),
        decreases ps@.len() - i,
    {
        let ghost o1 = out@;
        push_ty(&ps[i].ty, out);
        proof {
            assert(ps@.take(i + 1).map_values(|p: HirParam| p.ty) =~= ps@.take(i as int).map_values(|p: HirParam| p.ty)
                + seq![ps@[i as int].ty]);
            lemma_tys_chain(o0, o1, out@, ps@.take(i as int).map_values(|p: HirParam| p.ty), seq![ps@[i as int].ty]);
        }
        i = i + 1;
    }
    assert(ps@.take(ps@.len() as int) =~= ps@);
}

fn walk_tys_in_field_decls<'a>(fs: &'a Vec<HirField>, out: &mut Vec<&'a Ty>)
    ensures
        tys_pushed(old(out)@, final(out)@, fs@.map_values(|f: HirField| f.ty)),
{
    let ghost o0 = out@;
    let mut i: usize = 0;
    proof {
        lemma_tys_none(o0);
    }
    while i < fs.len()
        invariant
            i <= fs@.len(),
            tys_pushed(o0, out@, fs@.take(i as int).map_values(|f: HirField| f.ty)),
        decreases fs@.len() - i,
    {
        let ghost o1 = out@;
        push_ty(&fs[i].ty, out);
        proof {
            assert(fs@.take(i + 1).map_values(|f: HirField| f.ty) =~= fs@.take(i as int).map_values(|f: HirField| f.ty)
                + seq![fs@[i as int].ty]);
            lemma_tys_chain(o0, o1, out@, fs@.take(i as int).map_values(|f: HirField| f.ty), seq![fs@[i as int].ty]);
        }
        i = i + 1;
    }
    assert(fs@.take(fs@.len() as int) =~= fs@);
}

/// Push every type of a function: its parameters', its return type, then
/// its body's.
pub fn walk_tys_in_func<'a>(func: &'a HirFuncDef, out: &mut Vec<&'a Ty>)
    ensures
        tys_pushed(old(out)@, final(out)@, tys_in_func(*func)),
{
    let ghost o0 = out@;
    walk_tys_in_params(&func.params, out);
    let ghost o1 = out@;
    push_ty(&func.return_ty, out);
    let ghost o2 = out@;
    walk_tys_in_expr(&func.body, out);
    proof {
        let pt = func.params@.map_values(|p: HirParam| p.ty);
        lemma_tys_chain(o0, o1, o2, pt, seq![func.return_ty]);
        lemma_tys_chain(o0, o2, out@, pt + seq![func.return_ty], tys_in(*func.body));
    }
}

fn walk_tys_in_funcs<'a>(ms: &'a Vec<HirFuncDef>, out: &mut Vec<&'a Ty>)
    ensures
        tys_pushed(old(out)@, final(out)@, tys_in_funcs(ms@)),
{
    let ghost o0 = out@;
    let mut i: usize = 0;
    proof {
        lemma_tys_none(o0);
        assert(ms@.take(0) =~= Seq::<HirFuncDef>::empty());
    }
    while i < ms.len()
        invariant
            i <= ms@.len(),
            tys_pushed(o0, out@, tys_in_funcs(ms@.take(i as int))),
        decreases ms@.len() - i,
    {
        let ghost o1 = out@;
        walk_tys_in_func(&ms[i], out);
        proof {
            assert(ms@.take(i + 1).drop_last() =~= ms@.take(i as int));
            lemma_tys_chain(o0, o1, out@, tys_in_funcs(ms@.take(i as int)), tys_in_func(ms@[i as int]));
        }
        i = i + 1;
    }
    assert(ms@.take(ms@.len() as int) =~= ms@);
}

fn walk_tys_in_impl_items<'a>(its: &'a Vec<HirImplItem>, out: &mut Vec<&'a Ty>)
    ensures
        tys_pushed(old(out)@, final(out)@, tys_in_impl_items(its@)),
{
    let ghost o0 = out@;
    let mut i: usize = 0;
    proof {
        lemma_tys_none(o0);
        assert(its@.take(0) =~= Seq::<HirImplItem>::empty());
    }
    while i < its.len()
        invariant
            i <= its@.len(),
            tys_pushed(o0, out@, tys_in_impl_items(its@.take(i as int))),
        decreases its@.len() - i,
    {
        let ghost o1 = out@;
        match &its[i] {
            HirImplItem::Method(m) => walk_tys_in_func(m, out),
            _ => {
                proof {
                    lemma_tys_none(out@);
                }
            },
        }
        proof {
            assert(its@.take(i + 1).drop_last() =~= its@.take(i as int));
            let one = match its@[i as int] {
                HirImplItem::Method(m) => tys_in_func(m),
                _ => Seq::empty(),
            };
            lemma_tys_chain(o0, o1, out@, tys_in_impl_items(its@.take(i as int)), one);
        }
        i = i + 1;
    }
    assert(its@.take(its@.len() as int) =~= its@);
}

fn walk_tys_in_blocks<'a>(bs: &'a Vec<HirImplBlock>, out: &mut Vec<&'a Ty>)
    ensures
        tys_pushed(old(out)@, final(out)@, tys_in_blocks(bs@)),
{
    let ghost o0 = out@;
    let mut i: usize = 0;
    proof {
        lemma_tys_none(o0);
        assert(bs@.take(0) =~= Seq::<HirImplBlock>::empty());
    }
    while i < bs.len()
        invariant
            i <= bs@.len(),
            tys_pushed(o0, out@, tys_in_blocks(bs@.take(i as int))),
        decreases bs@.len() - i,
    {
        let ghost o1 = out@;
        walk_tys_in_impl_items(&bs[i].items, out);
        proof {
            assert(bs@.take(i + 1).drop_last() =~= bs@.take(i as int));
            lemma_tys_chain(o0, o1, out@, tys_in_blocks(bs@.take(i as int)), tys_in_impl_items(bs@[i as int].items@));
        }
        i = i + 1;
    }
    assert(bs@.take(bs@.len() as int) =~= bs@);
}

fn walk_tys_in_mixin_items<'a>(its: &'a Vec<HirMixinItem>, out: &mut Vec<&'a Ty>)
    ensures
        tys_pushed(old(out)@, final(out)@, tys_in_mixin_items(its@)),
{
    let ghost o0 = out@;
    let mut i: usize = 0;
    proof {
        lemma_tys_none(o0);
        assert(its@.take(0) =~= Seq::<HirMixinItem>::empty());
    }
    while i < its.len()
        invariant
            i <= its@.len(),
            tys_pushed(o0, out@, tys_in_mixin_items(its@.take(i as int))),
        decreases its@.len() - i,
    {
        let ghost o1 = out@;
        match &its[i] {
            HirMixinItem::DefaultMethod(f) => walk_tys_in_func(f, out),
            _ => {
                proof {
                    lemma_tys_none(out@);
                }
            },
        }
        proof {
            assert(its@.take(i + 1).drop_last() =~= its@.take(i as int));
            let one = match its@[i as int] {
                HirMixinItem::DefaultMethod(f) => tys_in_func(f),
                _ => Seq::empty(),
            };
            lemma_tys_chain(o0, o1, out@, tys_in_mixin_items(its@.take(i as int)), one);
        }
        i = i + 1;
    }
    assert(its@.take(its@.len() as int) =~= its@);
}

/// Push every type of an item (see `tys_in_item`).
pub fn walk_tys_in_item<'a>(item: &'a HirItem, out: &mut Vec<&'a Ty>)
    ensures
        tys_pushed(old(out)@, final(out)@, tys_in_item(*item)),
    decreases *item, 1nat,
{
    let ghost o0 = out@;
    match item {
        HirItem::Function(func) => walk_tys_in_func(func, out),
        HirItem::Class(c) => {
            walk_tys_in_field_decls(&c.fields, out);
            let ghost o1 = out@;
            walk_tys_in_funcs(&c.methods, out);
            let ghost o2 = out@;
            walk_tys_in_blocks(&c.impl_blocks, out);
            proof {
                let ft = c.fields@.map_values(|f: HirField| f.ty);
                lemma_tys_chain(o0, o1, o2, ft, tys_in_funcs(c.methods@));
                lemma_tys_chain(o0, o2, out@, ft + tys_in_funcs(c.methods@), tys_in_blocks(c.impl_blocks@));
            }
        },
        HirItem::Struct(s) => {
            walk_tys_in_field_decls(&s.fields, out);
            let ghost o1 = out@;
            walk_tys_in_funcs(&s.methods, out);
            proof {
                lemma_tys_chain(o0, o1, out@, s.fields@.map_values(|f: HirField| f.ty), tys_in_funcs(s.methods@));
            }
        },
        HirItem::Enum(e) => walk_tys_in_funcs(&e.methods, out),
        HirItem::Impl(b) => walk_tys_in_impl_items(&b.items, out),
        HirItem::Module(m) => walk_tys_in_items(&m.items, out),
        HirItem::Const(c) => {
            push_ty(&c.ty, out);
            let ghost o1 = out@;
            walk_tys_in_expr(&c.value, out);
            proof {
                lemma_tys_chain(o0, o1, out@, seq![c.ty], tys_in(c.value));
            }
        },
        HirItem::Mixin(m) => walk_tys_in_mixin_items(&m.items, out),
        HirItem::TypeAlias(_) | HirItem::Newtype(_) => {
            proof {
                lemma_tys_none(out@);
            }
        },
    }
}

fn walk_tys_in_items<'a>(its: &'a Vec<HirItem>, out: &mut Vec<&'a Ty>)
    ensures
        tys_pushed(old(out)@, final(out)@, tys_in_items(its@)),
    decreases its@, 0nat,
{
    let ghost o0 = out@;
    let mut i: usize = 0;
    proof {
        lemma_tys_none(o0);
        assert(its@.take(0) =~= Seq::<HirItem>::empty());
    }
    while i < its.len()
        invariant
            i <= its@.len(),
            tys_pushed(o0, out@, tys_in_items(its@.take(i as int))),
        decreases its@.len() - i,
    {
        let ghost o1 = out@;
        assert(decreases_to!(its@ => its@[i as int]));
        walk_tys_in_item(&its[i], out);
        proof {
            assert(its@.take(i + 1).drop_last() =~= its@.take(i as int));
            lemma_tys_chain(o0, o1, out@, tys_in_items(its@.take(i as int)), tys_in_item(its@[i as int]));
        }
        i = i + 1;
    }
    assert(its@.take(its@.len() as int) =~= its@);
}

/// Push every type the program mentions: expression, binding, parameter,
/// return, field and constant types, item by item.
pub fn walk_tys_in_program<'a>(program: &'a HirProgram, out: &mut Vec<&'a Ty>)
    ensures
        tys_pushed(old(out)@, final(out)@, tys_in_items(program.items@)),
{
    walk_tys_in_items(&program.items, out);
}

// ---------------------------------------------------------------------------
// Laws.
// ---------------------------------------------------------------------------

/// Each binding of `r` binds a name not among `keys` to a fully concrete
/// type, and no name is bound twice.
pub open spec fn fresh_concrete_bindings(r: Seq<(Seq<char>, Ty)>, keys: Seq<Seq<char>>) -> bool {
    &&& binding_names(r).no_duplicates()
    &&& forall|k: int| 0 <= k < r.len() ==> spec_is_fully_concrete((#[trigger] r[k]).1) && !keys.contains(r[k].0)
}

proof fn lemma_fresh_bindings_cat(r1: Seq<(Seq<char>, Ty)>, r2: Seq<(Seq<char>, Ty)>, keys: Seq<Seq<char>>)
    requires
        fresh_concrete_bindings(r1, keys),
        fresh_concrete_bindings(r2, keys + binding_names(r1)),
    ensures
        fresh_concrete_bindings(r1 + r2, keys),
{
    let r = r1 + r2;
    let n1 = binding_names(r1);
    assert(binding_names(r) =~= n1 + binding_names(r2));
    assert forall|k: int| 0 <= k < r.len() implies spec_is_fully_concrete((#[trigger] r[k]).1) && !keys.contains(r[k].0) by {
        if k >= r1.len() {
            assert(r[k] == r2[k - r1.len()]);
            if keys.contains(r[k].0) {
                let j = choose|j: int| 0 <= j < keys.len() && keys[j] == r[k].0;
                assert((keys + n1)[j] == keys[j]);
            }
        }
    }
    assert forall|i: int, j: int| 0 <= i < binding_names(r).len() && 0 <= j < binding_names(r).len() && i != j implies binding_names(r)[i] != binding_names(r)[j] by {
        let nr = binding_names(r);
        if i < r1.len() && j >= r1.len() {
            assert(nr[i] == n1[i]);
            assert(nr[j] == r2[j - r1.len()].0);
            assert((keys + n1)[keys.len() + i] == n1[i]);
            assert(!(keys + n1).contains(r2[j - r1.len()].0));
        } else if j < r1.len() && i >= r1.len() {
            assert(nr[j] == n1[j]);
            assert(nr[i] == r2[i - r1.len()].0);
            assert((keys + n1)[keys.len() + j] == n1[j]);
            assert(!(keys + n1).contains(r2[i - r1.len()].0));
        } else if i >= r1.len() && j >= r1.len() {
            assert(nr[i] == binding_names(r2)[i - r1.len()]);
            assert(nr[j] == binding_names(r2)[j - r1.len()]);
        } else {
            assert(nr[i] == n1[i] && nr[j] == n1[j]);
        }
    }
}

/// Unification only ever binds a type parameter not bound yet, to a fully
/// concrete type, and never the same name twice: the substitution it builds
/// binds each name once, and never to an unresolved type.
pub proof fn law_unify_binds_fresh_concrete(decl: Ty, actual: Ty, keys: Seq<Seq<char>>)
    ensures
        fresh_concrete_bindings(unify_bindings(decl, actual, keys), keys),
    decreases decl, actual,
{
    match decl {
        Ty::Ref(x) => law_unify_binds_fresh_concrete(*x, actual, keys),
        Ty::RefMut(x) => law_unify_binds_fresh_concrete(*x, actual, keys),
        Ty::RefLifetime(_, x) => law_unify_binds_fresh_concrete(*x, actual, keys),
        Ty::RefMutLifetime(_, x) => law_unify_binds_fresh_concrete(*x, actual, keys),
        _ => match actual {
            Ty::Ref(y) => law_unify_binds_fresh_concrete(decl, *y, keys),
            Ty::RefMut(y) => law_unify_binds_fresh_concrete(decl, *y, keys),
            Ty::RefLifetime(_, y) => law_unify_binds_fresh_concrete(decl, *y, keys),
            Ty::RefMutLifetime(_, y) => law_unify_binds_fresh_concrete(decl, *y, keys),
            _ => match (decl, actual) {
                (Ty::TypeParam { name, .. }, c) => {
                    let r = unify_bindings(decl, actual, keys);
                    assert(binding_names(r).len() <= 1);
                },
                (Ty::Array(d), Ty::Array(a)) => law_unify_binds_fresh_concrete(*d, *a, keys),
                (Ty::SetOf(d), Ty::SetOf(a)) => law_unify_binds_fresh_concrete(*d, *a, keys),
                (Ty::Option(d), Ty::Option(a)) => law_unify_binds_fresh_concrete(*d, *a, keys),
                (Ty::FixedArray(d, _), Ty::FixedArray(a, _)) => law_unify_binds_fresh_concrete(*d, *a, keys),
                (Ty::Mapping(dk, dv), Ty::Mapping(ak, av)) => {
                    let r1 = unify_bindings(*dk, *ak, keys);
                    law_unify_binds_fresh_concrete(*dk, *ak, keys);
                    law_unify_binds_fresh_concrete(*dv, *av, keys + binding_names(r1));
                    lemma_fresh_bindings_cat(r1, unify_bindings(*dv, *av, keys + binding_names(r1)), keys);
                },
                (Ty::Result(da, db), Ty::Result(aa, ab)) => {
                    let r1 = unify_bindings(*da, *aa, keys);
                    law_unify_binds_fresh_concrete(*da, *aa, keys);
                    law_unify_binds_fresh_concrete(*db, *ab, keys + binding_names(r1));
                    lemma_fresh_bindings_cat(r1, unify_bindings(*db, *ab, keys + binding_names(r1)), keys);
                },
                (Ty::Tuple(de), Ty::Tuple(ae)) => if de@.len() == ae@.len() {
                    lemma_unify_list_fresh(de@, ae@, keys);
                },
                (Ty::Class { generic_args: dd, .. }, Ty::Class { generic_args: aa, .. }) => if dd@.len() == aa@.len() {
                    lemma_unify_list_fresh(dd@, aa@, keys);
                },
                (Ty::Struct { generic_args: dd, .. }, Ty::Struct { generic_args: aa, .. }) => if dd@.len() == aa@.len() {
                    lemma_unify_list_fresh(dd@, aa@, keys);
                },
                (Ty::Enum { generic_args: dd, .. }, Ty::Enum { generic_args: aa, .. }) => if dd@.len() == aa@.len() {
                    lemma_unify_list_fresh(dd@, aa@, keys);
                },
                _ => {},
            },
        },
    }
}

proof fn lemma_unify_list_fresh(ds: Seq<Ty>, as_: Seq<Ty>, keys: Seq<Seq<char>>)
    ensures
        fresh_concrete_bindings(unify_list_bindings(ds, as_, keys), keys),
    decreases ds, as_,
{
    if ds.len() > 0 && as_.len() > 0 {
        let r1 = unify_bindings(ds[0], as_[0], keys);
        law_unify_binds_fresh_concrete(ds[0], as_[0], keys);
        lemma_unify_list_fresh(ds.drop_first(), as_.drop_first(), keys + binding_names(r1));
        lemma_fresh_bindings_cat(r1, unify_list_bindings(ds.drop_first(), as_.drop_first(), keys + binding_names(r1)), keys);
    }
}

} // verus!
