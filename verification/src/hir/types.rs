//! The semantic type of a HIR expression, binding or parameter.
use vstd::prelude::*;

verus! {

/// A mixin bound such as `Display` or `Fn[Int]` in `some Display` / `any Fn[Int]`.
#[derive(Debug, PartialEq)]
pub struct MixinBound {
    pub name: String,
    pub generic_args: Vec<Ty>,
}

/// A resolved Ruxen type.
#[derive(Debug, PartialEq)]
pub enum Ty {
    Int,
    Int8,
    Int16,
    Int32,
    Int64,
    ISize,
    UInt,
    UInt8,
    UInt16,
    UInt32,
    UInt64,
    USize,
    Float,
    Float32,
    Float64,
    Bool,
    Char,
    /// The borrowed string slice `&str`.
    Str,
    /// The owned heap string `String`.
    String,
    Unit,
    Never,
    /// `Array[T]`.
    Array(Box<Ty>),
    /// `[T; N]`.
    FixedArray(Box<Ty>, usize),
    /// `Map[K, V]`.
    Mapping(Box<Ty>, Box<Ty>),
    /// `Set[T]`.
    SetOf(Box<Ty>),
    Option(Box<Ty>),
    Result(Box<Ty>, Box<Ty>),
    Tuple(Vec<Ty>),
    /// `&T`.
    Ref(Box<Ty>),
    /// `&var T`.
    RefMut(Box<Ty>),
    /// `&'a T` with an explicit lifetime name.
    RefLifetime(String, Box<Ty>),
    /// `&'a var T` with an explicit lifetime name.
    RefMutLifetime(String, Box<Ty>),
    RawPtr(Box<Ty>),
    Class { name: String, generic_args: Vec<Ty> },
    Struct { name: String, generic_args: Vec<Ty> },
    Enum { name: String, generic_args: Vec<Ty> },
    /// A generic parameter of the enclosing item, e.g. `T` or `Self`.
    TypeParam { name: String, bounds: Vec<MixinBound> },
    /// An inference variable not yet resolved.
    Infer(u32),
    Fn { params: Vec<Ty>, ret: Box<Ty> },
    FnMut { params: Vec<Ty>, ret: Box<Ty> },
    FnOnce { params: Vec<Ty>, ret: Box<Ty> },
    /// `some Mixin`.
    SomeMixin(Vec<MixinBound>),
    /// `any Mixin`.
    AnyMixin(Vec<MixinBound>),
    Newtype { name: String, inner: Box<Ty> },
    Alias { name: String, target: Box<Ty> },
}


/// Two types are the same type: equal variants, equal names, and the same
/// component types (lists compared element by element).
pub open spec fn ty_same(a: Ty, b: Ty) -> bool
    decreases a, 0nat,
{
    match (a, b) {
        (Ty::Array(x), Ty::Array(y)) => ty_same(*x, *y),
        (Ty::FixedArray(x, n), Ty::FixedArray(y, m)) => n == m && ty_same(*x, *y),
        (Ty::Mapping(k1, v1), Ty::Mapping(k2, v2)) => ty_same(*k1, *k2) && ty_same(*v1, *v2),
        (Ty::SetOf(x), Ty::SetOf(y)) => ty_same(*x, *y),
        (Ty::Option(x), Ty::Option(y)) => ty_same(*x, *y),
        (Ty::Result(x1, x2), Ty::Result(y1, y2)) => ty_same(*x1, *y1) && ty_same(*x2, *y2),
        (Ty::Tuple(xs), Ty::Tuple(ys)) => tys_same(xs@, ys@),
        (Ty::Ref(x), Ty::Ref(y)) => ty_same(*x, *y),
        (Ty::RefMut(x), Ty::RefMut(y)) => ty_same(*x, *y),
        (Ty::RefLifetime(l1, x), Ty::RefLifetime(l2, y)) => l1@ == l2@ && ty_same(*x, *y),
        (Ty::RefMutLifetime(l1, x), Ty::RefMutLifetime(l2, y)) => l1@ == l2@ && ty_same(*x, *y),
        (Ty::RawPtr(x), Ty::RawPtr(y)) => ty_same(*x, *y),
        (Ty::Class { name: n1, generic_args: a1 }, Ty::Class { name: n2, generic_args: a2 }) =>
            n1@ == n2@ && tys_same(a1@, a2@),
        (Ty::Struct { name: n1, generic_args: a1 }, Ty::Struct { name: n2, generic_args: a2 }) =>
            n1@ == n2@ && tys_same(a1@, a2@),
        (Ty::Enum { name: n1, generic_args: a1 }, Ty::Enum { name: n2, generic_args: a2 }) =>
            n1@ == n2@ && tys_same(a1@, a2@),
        (Ty::TypeParam { name: n1, bounds: b1 }, Ty::TypeParam { name: n2, bounds: b2 }) =>
            n1@ == n2@ && bounds_same(b1@, b2@),
        (Ty::Infer(x), Ty::Infer(y)) => x == y,
        (Ty::Fn { params: p1, ret: r1 }, Ty::Fn { params: p2, ret: r2 }) =>
            tys_same(p1@, p2@) && ty_same(*r1, *r2),
        (Ty::FnMut { params: p1, ret: r1 }, Ty::FnMut { params: p2, ret: r2 }) =>
            tys_same(p1@, p2@) && ty_same(*r1, *r2),
        (Ty::FnOnce { params: p1, ret: r1 }, Ty::FnOnce { params: p2, ret: r2 }) =>
            tys_same(p1@, p2@) && ty_same(*r1, *r2),
        (Ty::SomeMixin(b1), Ty::SomeMixin(b2)) => bounds_same(b1@, b2@),
        (Ty::AnyMixin(b1), Ty::AnyMixin(b2)) => bounds_same(b1@, b2@),
        (Ty::Newtype { name: n1, inner: x }, Ty::Newtype { name: n2, inner: y }) =>
            n1@ == n2@ && ty_same(*x, *y),
        (Ty::Alias { name: n1, target: x }, Ty::Alias { name: n2, target: y }) =>
            n1@ == n2@ && ty_same(*x, *y),
        _ => a == b && is_leaf_ty(a),
    }
}

/// A type with no component types and no name.
pub open spec fn is_leaf_ty(t: Ty) -> bool {
    match t {
        Ty::Int | Ty::Int8 | Ty::Int16 | Ty::Int32 | Ty::Int64 | Ty::ISize | Ty::UInt
        | Ty::UInt8 | Ty::UInt16 | Ty::UInt32 | Ty::UInt64 | Ty::USize | Ty::Float
        | Ty::Float32 | Ty::Float64 | Ty::Bool | Ty::Char | Ty::Str | Ty::String | Ty::Unit
        | Ty::Never => true,
        _ => false,
    }
}

/// Element-wise `ty_same` on two lists of types.
pub open spec fn tys_same(a: Seq<Ty>, b: Seq<Ty>) -> bool
    decreases a, 1nat,
{
    a.len() == b.len() && forall|i: int| 0 <= i < a.len() ==> ty_same(#[trigger] a[i], b[i])
}

/// Element-wise sameness of two lists of mixin bounds.
pub open spec fn bounds_same(a: Seq<MixinBound>, b: Seq<MixinBound>) -> bool
    decreases a, 1nat,
{
    a.len() == b.len() && forall|i: int|
        0 <= i < a.len() ==> (#[trigger] a[i]).name@ == b[i].name@ && tys_same(
            a[i].generic_args@,
            b[i].generic_args@,
        )
}

/// A copy of a list of types.
pub fn copy_tys(ts: &Vec<Ty>) -> (r: Vec<Ty>)
    ensures
        tys_same(r@, ts@),
    decreases ts@, 2nat,
{
    let mut r: Vec<Ty> = Vec::new();
    let mut i: usize = 0;
    while i < ts.len()
        invariant
            i <= ts@.len(),
            r@.len() == i,
            forall|k: int| 0 <= k < i ==> ty_same(#[trigger] r@[k], ts@[k]),
        decreases ts@.len() - i,
    {
        assert(decreases_to!(ts@ => ts@[i as int]));
        let t = copy_ty(&ts[i]);
        r.push(t);
        i = i + 1;
    }
    r
}

/// A copy of a list of mixin bounds.
pub fn copy_bounds(bs: &Vec<MixinBound>) -> (r: Vec<MixinBound>)
    ensures
        bounds_same(r@, bs@),
    decreases bs@, 2nat,
{
    let mut r: Vec<MixinBound> = Vec::new();
    let mut i: usize = 0;
    while i < bs.len()
        invariant
            i <= bs@.len(),
            r@.len() == i,
            forall|k: int|
                0 <= k < i ==> (#[trigger] r@[k]).name@ == bs@[k].name@ && tys_same(
                    r@[k].generic_args@,
                    bs@[k].generic_args@,
                ),
        decreases bs@.len() - i,
    {
        assert(decreases_to!(bs@ => bs@[i as int]));
        assert(decreases_to!(bs@[i as int] => bs@[i as int].generic_args));
        let b = MixinBound { name: bs[i].name.clone(), generic_args: copy_tys(&bs[i].generic_args) };
        r.push(b);
        i = i + 1;
    }
    r
}

/// A copy of a type.
pub fn copy_ty(t: &Ty) -> (r: Ty)
    ensures
        ty_same(r, *t),
    decreases t, 3nat,
{
    match t {
        Ty::Int => Ty::Int,
        Ty::Int8 => Ty::Int8,
        Ty::Int16 => Ty::Int16,
        Ty::Int32 => Ty::Int32,
        Ty::Int64 => Ty::Int64,
        Ty::ISize => Ty::ISize,
        Ty::UInt => Ty::UInt,
        Ty::UInt8 => Ty::UInt8,
        Ty::UInt16 => Ty::UInt16,
        Ty::UInt32 => Ty::UInt32,
        Ty::UInt64 => Ty::UInt64,
        Ty::USize => Ty::USize,
        Ty::Float => Ty::Float,
        Ty::Float32 => Ty::Float32,
        Ty::Float64 => Ty::Float64,
        Ty::Bool => Ty::Bool,
        Ty::Char => Ty::Char,
        Ty::Str => Ty::Str,
        Ty::String => Ty::String,
        Ty::Unit => Ty::Unit,
        Ty::Never => Ty::Never,
        Ty::Array(x) => Ty::Array(Box::new(copy_ty(x))),
        Ty::FixedArray(x, n) => Ty::FixedArray(Box::new(copy_ty(x)), *n),
        Ty::Mapping(k, v) => Ty::Mapping(Box::new(copy_ty(k)), Box::new(copy_ty(v))),
        Ty::SetOf(x) => Ty::SetOf(Box::new(copy_ty(x))),
        Ty::Option(x) => Ty::Option(Box::new(copy_ty(x))),
        Ty::Result(x, y) => Ty::Result(Box::new(copy_ty(x)), Box::new(copy_ty(y))),
        Ty::Tuple(xs) => Ty::Tuple(copy_tys(xs)),
        Ty::Ref(x) => Ty::Ref(Box::new(copy_ty(x))),
        Ty::RefMut(x) => Ty::RefMut(Box::new(copy_ty(x))),
        Ty::RefLifetime(l, x) => Ty::RefLifetime(l.clone(), Box::new(copy_ty(x))),
        Ty::RefMutLifetime(l, x) => Ty::RefMutLifetime(l.clone(), Box::new(copy_ty(x))),
        Ty::RawPtr(x) => Ty::RawPtr(Box::new(copy_ty(x))),
        Ty::Class { name, generic_args } => Ty::Class {
            name: name.clone(),
            generic_args: copy_tys(generic_args),
        },
        Ty::Struct { name, generic_args } => Ty::Struct {
            name: name.clone(),
            generic_args: copy_tys(generic_args),
        },
        Ty::Enum { name, generic_args } => Ty::Enum {
            name: name.clone(),
            generic_args: copy_tys(generic_args),
        },
        Ty::TypeParam { name, bounds } => Ty::TypeParam {
            name: name.clone(),
            bounds: copy_bounds(bounds),
        },
        Ty::Infer(v) => Ty::Infer(*v),
        Ty::Fn { params, ret } => Ty::Fn { params: copy_tys(params), ret: Box::new(copy_ty(ret)) },
        Ty::FnMut { params, ret } => Ty::FnMut {
            params: copy_tys(params),
            ret: Box::new(copy_ty(ret)),
        },
        Ty::FnOnce { params, ret } => Ty::FnOnce {
            params: copy_tys(params),
            ret: Box::new(copy_ty(ret)),
        },
        Ty::SomeMixin(bs) => Ty::SomeMixin(copy_bounds(bs)),
        Ty::AnyMixin(bs) => Ty::AnyMixin(copy_bounds(bs)),
        Ty::Newtype { name, inner } => Ty::Newtype {
            name: name.clone(),
            inner: Box::new(copy_ty(inner)),
        },
        Ty::Alias { name, target } => Ty::Alias {
            name: name.clone(),
            target: Box::new(copy_ty(target)),
        },
    }
}

impl Clone for Ty {
    fn clone(&self) -> (r: Self)
        ensures
            ty_same(r, *self),
    {
        copy_ty(self)
    }
}

impl Clone for MixinBound {
    fn clone(&self) -> (r: Self)
        ensures
            r.name@ == self.name@,
            tys_same(r.generic_args@, self.generic_args@),
    {
        MixinBound { name: self.name.clone(), generic_args: copy_tys(&self.generic_args) }
    }
}


/// Every type is the same type as itself.
pub proof fn lemma_ty_same_refl(t: Ty)
    ensures
        ty_same(t, t),
    decreases t, 2nat,
{
    match t {
        Ty::Array(x) => lemma_ty_same_refl(*x),
        Ty::FixedArray(x, _) => lemma_ty_same_refl(*x),
        Ty::Mapping(k, v) => {
            lemma_ty_same_refl(*k);
            lemma_ty_same_refl(*v);
        },
        Ty::SetOf(x) => lemma_ty_same_refl(*x),
        Ty::Option(x) => lemma_ty_same_refl(*x),
        Ty::Result(x, y) => {
            lemma_ty_same_refl(*x);
            lemma_ty_same_refl(*y);
        },
        Ty::Tuple(xs) => lemma_tys_same_refl(xs@),
        Ty::Ref(x) => lemma_ty_same_refl(*x),
        Ty::RefMut(x) => lemma_ty_same_refl(*x),
        Ty::RefLifetime(_, x) => lemma_ty_same_refl(*x),
        Ty::RefMutLifetime(_, x) => lemma_ty_same_refl(*x),
        Ty::RawPtr(x) => lemma_ty_same_refl(*x),
        Ty::Class { generic_args, .. } => lemma_tys_same_refl(generic_args@),
        Ty::Struct { generic_args, .. } => lemma_tys_same_refl(generic_args@),
        Ty::Enum { generic_args, .. } => lemma_tys_same_refl(generic_args@),
        Ty::TypeParam { bounds, .. } => lemma_bounds_same_refl(bounds@),
        Ty::Fn { params, ret } => {
            lemma_tys_same_refl(params@);
            lemma_ty_same_refl(*ret);
        },
        Ty::FnMut { params, ret } => {
            lemma_tys_same_refl(params@);
            lemma_ty_same_refl(*ret);
        },
        Ty::FnOnce { params, ret } => {
            lemma_tys_same_refl(params@);
            lemma_ty_same_refl(*ret);
        },
        Ty::SomeMixin(bs) => lemma_bounds_same_refl(bs@),
        Ty::AnyMixin(bs) => lemma_bounds_same_refl(bs@),
        Ty::Newtype { inner, .. } => lemma_ty_same_refl(*inner),
        Ty::Alias { target, .. } => lemma_ty_same_refl(*target),
        _ => {},
    }
}

/// Every list of types is element-wise the same as itself.
pub proof fn lemma_tys_same_refl(ts: Seq<Ty>)
    ensures
        tys_same(ts, ts),
    decreases ts, 1nat,
{
    assert forall|i: int| 0 <= i < ts.len() implies ty_same(#[trigger] ts[i], ts[i]) by {
        assert(decreases_to!(ts => ts[i]));
        lemma_ty_same_refl(ts[i]);
    }
}

/// Every list of bounds is element-wise the same as itself.
pub proof fn lemma_bounds_same_refl(bs: Seq<MixinBound>)
    ensures
        bounds_same(bs, bs),
    decreases bs, 1nat,
{
    assert forall|i: int| 0 <= i < bs.len() implies (#[trigger] bs[i]).name@ == bs[i].name@ && tys_same(
        bs[i].generic_args@,
        bs[i].generic_args@,
    ) by {
        assert(decreases_to!(bs => bs[i]));
        assert(decreases_to!(bs[i] => bs[i].generic_args));
        lemma_tys_same_refl(bs[i].generic_args@);
    }
}

} // verus!
