//! The resolver's symbol table: every named definition with its kind.
use vstd::prelude::*;

use crate::hir::nodes::{DefId, HirSelfMode};
use crate::hir::types::Ty;

verus! {

/// One declared parameter of a function signature.
#[derive(Debug)]
pub struct ParamInfo {
    pub name: String,
    pub ty: Ty,
}

/// The signature of a function or method.
#[derive(Debug)]
pub struct FnSignature {
    /// `None` for a free function or static method.
    pub self_mode: Option<HirSelfMode>,
    /// The declared parameters, not counting `self`.
    pub params: Vec<ParamInfo>,
    pub return_ty: Ty,
}

/// What a definition is.
#[derive(Debug)]
pub enum DefKind {
    Function { signature: FnSignature },
    Method { parent: DefId, signature: FnSignature },
    Class,
    Struct,
    Enum,
    Variable { mutable: bool, ty: Ty },
    Param { ty: Ty },
}

/// A named definition.
#[derive(Debug)]
pub struct Definition {
    pub id: DefId,
    pub name: String,
    pub kind: DefKind,
}

/// All definitions, in declaration order; a definition's `DefId` is its index.
pub struct SymbolTable {
    defs: Vec<Definition>,
}

impl View for SymbolTable {
    type V = Seq<Definition>;

    closed spec fn view(&self) -> Seq<Definition> {
        self.defs@
    }
}

impl SymbolTable {
    /// Every definition's id is its index.
    pub closed spec fn wf(&self) -> bool {
        forall|i: int| 0 <= i < self.defs@.len() ==> (#[trigger] self.defs@[i]).id == i as u32
    }

    /// An empty table.
    pub fn new() -> (t: SymbolTable)
        ensures
            t@ == Seq::<Definition>::empty(),
            t.wf(),
    {
        SymbolTable { defs: Vec::new() }
    }

    /// Add a definition; its id is the number of definitions before it.
    pub fn define(&mut self, name: String, kind: DefKind) -> (id: DefId)
        requires
            old(self).wf(),
            old(self)@.len() < u32::MAX,
        ensures
            id == old(self)@.len() as u32,
            final(self)@ == old(self)@.push(Definition { id, name, kind }),
            final(self).wf(),
    {
        let id: DefId = self.defs.len() as u32;
        self.defs.push(Definition { id, name, kind });
        id
    }

    /// The definitions, in declaration order.
    pub fn defs(&self) -> (r: &Vec<Definition>)
        ensures
            r@ == self@,
    {
        &self.defs
    }
}

} // verus!
