//! Indexing.
use vstd::prelude::*;

use crate::hir::types::Ty;
use crate::mir::lower::runtime_abi::base_ty_name;
use crate::text::{find_char, str_eq, substring};

verus! {

/// Through references (with or without lifetimes), an `Array`, or a class whose
/// base name (before any `[`) is `Vec` or `Array`: a receiver whose indexing
/// reads the backing vector directly.
pub open spec fn spec_is_indexable_vec_ty(t: Ty) -> bool
    decreases t,
{
    match t {
        Ty::Array(_) => true,
        Ty::Ref(inner) => spec_is_indexable_vec_ty(*inner),
        Ty::RefMut(inner) => spec_is_indexable_vec_ty(*inner),
        Ty::RefLifetime(_, inner) => spec_is_indexable_vec_ty(*inner),
        Ty::RefMutLifetime(_, inner) => spec_is_indexable_vec_ty(*inner),
        Ty::Class { name, .. } => base_ty_name(name@) == "Vec"@ || base_ty_name(name@) == "Array"@,
        _ => false,
    }
}

pub fn is_indexable_vec_ty(ty: &Ty) -> (r: bool)
    ensures
        r == spec_is_indexable_vec_ty(*ty),
    decreases ty,
{
    match ty {
        Ty::Array(_) => true,
        Ty::Ref(inner) | Ty::RefMut(inner) => is_indexable_vec_ty(inner),
        Ty::RefLifetime(_, inner) | Ty::RefMutLifetime(_, inner) => is_indexable_vec_ty(inner),
        Ty::Class { name, .. } => {
            let base = match find_char(name.as_str(), '[') {
                Some(pos) => substring(name.as_str(), 0, pos),
                None => substring(name.as_str(), 0, name.as_str().unicode_len()),
            };
            assert(base@ =~= base_ty_name(name@));
            str_eq(base.as_str(), "Vec") || str_eq(base.as_str(), "Array")
        },
        _ => false,
    }
}

} // verus!
