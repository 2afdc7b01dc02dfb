//! HIR (high-level intermediate representation): the resolved and typed
//! program the MIR lowering works on.
use vstd::prelude::*;

use crate::hir::types::Ty;
use crate::lexer::token::{FormatSpec, Span};
use crate::parser::ast::{BinOp, UnaryOp, Visibility};

verus! {

/// The identity of a resolved definition: its index in the symbol table.
pub type DefId = u32;

/// How a method takes its receiver.
#[derive(Debug, Clone, Copy, PartialEq, Eq, Structural)]
pub enum HirSelfMode {
    /// `&self`
    Ref,
    /// `var self`
    RefMut,
    /// `consume self`
    Consuming,
}

/// A whole program.
#[derive(Debug)]
pub struct HirProgram {
    pub items: Vec<HirItem>,
    pub span: Span,
    /// How many of the leading items come from the prelude.
    pub prelude_item_count: usize,
}

/// A top-level (or module-level) item.
#[derive(Debug)]
pub enum HirItem {
    Function(HirFuncDef),
    Class(HirClass),
    Struct(HirStruct),
    Enum(HirEnum),
    Impl(HirImplBlock),
    Module(HirModule),
    Const(HirConst),
    Mixin(HirMixin),
    TypeAlias(HirTypeAlias),
    Newtype(HirNewtype),
}

/// A function or method definition.
#[derive(Debug)]
pub struct HirFuncDef {
    pub def_id: DefId,
    pub name: String,
    pub visibility: Visibility,
    pub is_async: bool,
    /// The receiver mode of a method; `None` for a free function or a class
    /// method.
    pub self_mode: Option<HirSelfMode>,
    pub is_class_method: bool,
    /// The names of the generic parameters.
    pub generic_params: Vec<String>,
    pub params: Vec<HirParam>,
    pub return_ty: Ty,
    pub body: Box<HirExpr>,
    pub doc_comments: Vec<String>,
    pub span: Span,
}

/// A function parameter.
#[derive(Debug)]
pub struct HirParam {
    pub def_id: DefId,
    pub name: String,
    pub ty: Ty,
    /// `init(@x)`: the parameter is assigned to the field of the same name.
    pub auto_assign: bool,
    pub default: Option<HirExpr>,
    pub span: Span,
}

/// A field of a class or struct.
#[derive(Debug)]
pub struct HirField {
    pub name: String,
    pub ty: Ty,
    pub span: Span,
}

#[derive(Debug)]
pub struct HirClass {
    pub def_id: DefId,
    pub name: String,
    pub fields: Vec<HirField>,
    pub methods: Vec<HirFuncDef>,
    /// `include` blocks written inside the class.
    pub impl_blocks: Vec<HirImplBlock>,
    pub span: Span,
}

#[derive(Debug)]
pub struct HirStruct {
    pub def_id: DefId,
    pub name: String,
    pub fields: Vec<HirField>,
    pub methods: Vec<HirFuncDef>,
    pub span: Span,
}

#[derive(Debug)]
pub struct HirEnum {
    pub def_id: DefId,
    pub name: String,
    pub methods: Vec<HirFuncDef>,
    pub span: Span,
}

/// An `include` (implementation) block.
#[derive(Debug)]
pub struct HirImplBlock {
    pub items: Vec<HirImplItem>,
    pub span: Span,
}

#[derive(Debug)]
pub enum HirImplItem {
    Method(HirFuncDef),
    /// An associated type.
    AssocType { name: String, ty: Ty },
}

#[derive(Debug)]
pub struct HirModule {
    pub name: String,
    pub items: Vec<HirItem>,
    pub span: Span,
}

#[derive(Debug)]
pub struct HirConst {
    pub def_id: DefId,
    pub name: String,
    pub ty: Ty,
    pub value: HirExpr,
    pub span: Span,
}

/// A mixin (trait) declaration.
#[derive(Debug)]
pub struct HirMixin {
    pub def_id: DefId,
    pub name: String,
    pub items: Vec<HirMixinItem>,
    pub span: Span,
}

#[derive(Debug)]
pub enum HirMixinItem {
    /// A method every includer must define.
    RequiredMethod { name: String, params: Vec<HirParam>, return_ty: Ty },
    /// A method with a default body.
    DefaultMethod(HirFuncDef),
}

#[derive(Debug)]
pub struct HirTypeAlias {
    pub name: String,
    pub target: Ty,
    pub span: Span,
}

#[derive(Debug)]
pub struct HirNewtype {
    pub name: String,
    pub inner: Ty,
    pub span: Span,
}

/// A statement of a block.
#[derive(Debug)]
pub enum HirStatement {
    Let { def_id: DefId, pattern: HirPattern, ty: Ty, value: Option<HirExpr>, mutable: bool, span: Span },
    Expr(HirExpr),
}

/// A pattern of a `let` or of a match arm.
#[derive(Debug)]
pub enum HirPattern {
    Wildcard,
    Binding { def_id: DefId, name: String, mutable: bool, span: Span },
    /// `ref x`: binds a reference.
    Ref { def_id: DefId, name: String, mutable: bool, span: Span },
    Literal(Box<HirExpr>),
    Enum { type_def: DefId, ty_name: String, variant_name: String, variant_idx: usize, fields: Vec<HirPattern> },
    Tuple(Vec<HirPattern>),
    Or(Vec<HirPattern>),
}

/// An arm of a `match`.
#[derive(Debug)]
pub struct HirMatchArm {
    pub pattern: HirPattern,
    pub guard: Option<HirExpr>,
    pub body: HirExpr,
    pub span: Span,
}

/// A parameter of a closure.
#[derive(Debug)]
pub struct HirClosureParam {
    pub def_id: DefId,
    pub name: String,
    pub ty: Ty,
}

/// A part of an interpolated string.
#[derive(Debug)]
pub enum HirInterpolationPart {
    Literal(String),
    Expr { expr: HirExpr, spec: FormatSpec },
}

/// A typed expression.
#[derive(Debug)]
pub struct HirExpr {
    pub kind: HirExprKind,
    pub ty: Ty,
    pub span: Span,
}

#[derive(Debug)]
pub enum HirExprKind {
    IntLiteral(i64),
    /// A float constant, by the bits of its IEEE 754 double.
    FloatLiteral(u64),
    StringLiteral(String),
    BoolLiteral(bool),
    CharLiteral(char),
    UnitLiteral,
    /// `nil`.
    NullLiteral,
    RegexLiteral { pattern: String, flags: String },
    Interpolation { parts: Vec<HirInterpolationPart> },
    VarRef(DefId),
    FieldAccess { object: Box<HirExpr>, field: String, field_idx: usize },
    MethodCall {
        object: Box<HirExpr>,
        method: DefId,
        method_name: String,
        args: Vec<HirExpr>,
        /// A trailing block argument.
        block: Option<Box<HirExpr>>,
    },
    FnCall { callee: DefId, callee_name: String, args: Vec<HirExpr> },
    MacroCall { name: String, args: Vec<HirExpr> },
    BinaryOp { op: BinOp, left: Box<HirExpr>, right: Box<HirExpr> },
    UnaryOp { op: UnaryOp, operand: Box<HirExpr> },
    Borrow { expr: Box<HirExpr>, mutable: bool },
    Block(Vec<HirStatement>, Option<Box<HirExpr>>),
    UnsafeBlock(Vec<HirStatement>, Option<Box<HirExpr>>),
    If { cond: Box<HirExpr>, then_branch: Box<HirExpr>, else_branch: Option<Box<HirExpr>> },
    Match { scrutinee: Box<HirExpr>, arms: Vec<HirMatchArm> },
    Loop { body: Box<HirExpr> },
    While { condition: Box<HirExpr>, body: Box<HirExpr> },
    For {
        binding: DefId,
        binding_name: String,
        /// `for (a, b) in ...`: the bound names.
        tuple_bindings: Vec<(DefId, String)>,
        iterable: Box<HirExpr>,
        body: Box<HirExpr>,
    },
    Assign { target: Box<HirExpr>, value: Box<HirExpr> },
    CompoundAssign { target: Box<HirExpr>, op: BinOp, value: Box<HirExpr> },
    Return(Option<Box<HirExpr>>),
    Break(Option<Box<HirExpr>>),
    Continue,
    Closure { params: Vec<HirClosureParam>, body: Box<HirExpr>, is_move: bool },
    Construct { type_def: DefId, ty_name: String, fields: Vec<(String, HirExpr)> },
    EnumVariant {
        type_def: DefId,
        ty_name: String,
        variant_name: String,
        variant_idx: usize,
        fields: Vec<(String, HirExpr)>,
    },
    Tuple(Vec<HirExpr>),
    ArrayLiteral(Vec<HirExpr>),
    /// `[value; count]`.
    ArrayFill { value: Box<HirExpr>, count: usize },
    MapLiteral(Vec<(HirExpr, HirExpr)>),
    Index { object: Box<HirExpr>, index: Box<HirExpr> },
    Cast { expr: Box<HirExpr>, target: Ty },
    Range { start: Option<Box<HirExpr>>, end: Option<Box<HirExpr>>, inclusive: bool },
    /// A node that failed to type check.
    Error,
}

} // verus!
