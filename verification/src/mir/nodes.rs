//! MIR (mid-level intermediate representation): a control-flow graph of
//! basic blocks per function. Instructions inside a block are three-address
//! code; each block ends in a terminator.
use vstd::prelude::*;

use crate::hir::types::Ty;
use crate::parser::ast::BinOp;
use crate::text::push_char;

verus! {

/// A local variable identifier (index into `MirFunction::locals`).
pub type LocalId = u32;

/// A basic block identifier (index into `MirFunction::blocks`).
pub type BlockId = usize;

/// A whole program in MIR form.
#[derive(Debug)]
pub struct MirProgram {
    pub functions: Vec<MirFunction>,
    /// Name of the entry-point function, if any.
    pub entry: Option<String>,
    /// FFI library declarations collected from `lib` and `extern "C"` blocks.
    pub ffi_libs: Vec<FfiLib>,
    /// One static vtable per `(class, mixin)` pair where the class includes
    /// a `dispatch runtime` mixin.
    pub vtables: Vec<MirVtable>,
    /// One class-info record per class that includes any runtime-dispatch
    /// mixin, listing its vtable symbols in inclusion order.
    pub class_infos: Vec<MirClassInfo>,
}

/// The static vtable for one `(class, mixin)` pair.
#[derive(Debug)]
pub struct MirVtable {
    /// Name of the runtime-dispatch mixin (e.g. `Future`).
    pub mixin_name: String,
    /// Name of the implementing class (e.g. `TimeSleepFuture`).
    pub class_name: String,
    /// The `<ClassName>_<method>` symbols of the mixin's required methods,
    /// in declaration order.
    pub method_symbols: Vec<String>,
}

impl MirVtable {
    /// The static symbol name exported for this vtable:
    /// `__rx_vtable_<MixinName>_for_<ClassName>`.
    pub fn symbol(&self) -> (r: String)
        ensures
            r@ == "__rx_vtable_"@ + self.mixin_name@ + "_for_"@ + self.class_name@,
    {
        String::from_str("__rx_vtable_").concat(self.mixin_name.as_str()).concat("_for_").concat(
            self.class_name.as_str(),
        )
    }
}

/// The class-info record of a class with runtime-dispatch mixins.
#[derive(Debug)]
pub struct MirClassInfo {
    /// Name of the implementing class.
    pub class_name: String,
    /// One vtable symbol per runtime-dispatch mixin the class includes, in
    /// inclusion order; each is `MirVtable::symbol()` of the matching pair.
    pub vtable_symbols: Vec<String>,
}

impl MirClassInfo {
    /// The static symbol name exported for this class-info:
    /// `__rx_classinfo_<ClassName>`.
    pub fn symbol(&self) -> (r: String)
        ensures
            r@ == "__rx_classinfo_"@ + self.class_name@,
    {
        String::from_str("__rx_classinfo_").concat(self.class_name.as_str())
    }
}

/// An FFI library declaration.
#[derive(Debug)]
pub struct FfiLib {
    /// Library name (e.g. `LibM`), empty for an anonymous `lib` block.
    pub name: String,
    /// Linker flags (e.g. `-lm`).
    pub link_flags: Vec<String>,
    /// Declared functions.
    pub functions: Vec<FfiFuncDecl>,
}

/// One FFI function declaration.
#[derive(Debug)]
pub struct FfiFuncDecl {
    /// The C symbol the linker resolves (the alias of `def NAME as "sym"`,
    /// else the Ruxen name).
    pub name: String,
    /// The Ruxen-side identifier that call sites spell.
    pub ruxen_name: String,
    /// Parameter types.
    pub param_types: Vec<Ty>,
    /// Return type (`None` for void).
    pub return_type: Option<Ty>,
    /// Whether the function is variadic.
    pub is_variadic: bool,
}

impl MirProgram {
    /// An empty program.
    pub fn new() -> (p: Self)
        ensures
            p.functions@.len() == 0,
            p.entry is None,
            p.ffi_libs@.len() == 0,
            p.vtables@.len() == 0,
            p.class_infos@.len() == 0,
    {
        MirProgram {
            functions: Vec::new(),
            entry: None,
            ffi_libs: Vec::new(),
            vtables: Vec::new(),
            class_infos: Vec::new(),
        }
    }
}

impl Default for MirProgram {
    fn default() -> (p: Self)
        ensures
            p.functions@.len() == 0,
            p.entry is None,
            p.ffi_libs@.len() == 0,
            p.vtables@.len() == 0,
            p.class_infos@.len() == 0,
    {
        Self::new()
    }
}

/// A local variable (parameter or binding) of a MIR function.
#[derive(Debug)]
pub struct MirLocal {
    pub id: LocalId,
    pub name: String,
    pub ty: Ty,
    pub mutable: bool,
}

/// A single function in MIR form.
#[derive(Debug)]
pub struct MirFunction {
    pub name: String,
    /// Parameter locals (a subset of `locals`, in order).
    pub params: Vec<LocalId>,
    pub return_ty: Ty,
    pub locals: Vec<MirLocal>,
    pub blocks: Vec<BasicBlock>,
    pub entry_block: BlockId,
    /// Counter behind `new_temp` names.
    pub next_temp: u32,
}

/// The decimal digit character of `d < 10`.
pub open spec fn digit_char(d: nat) -> char {
    if d < 10 {
        ((d + 48) as u8) as char
    } else {
        '0'
    }
}

/// The decimal text of `n`, without leading zeros (`"0"` for zero).
pub open spec fn decimal_text(n: nat) -> Seq<char>
    decreases n,
{
    if n < 10 {
        seq![digit_char(n)]
    } else {
        decimal_text(n / 10).push(digit_char(n % 10))
    }
}

/// The decimal text of `n`.
pub fn decimal_string(n: u32) -> (r: String)
    ensures
        r@ == decimal_text(n as nat),
    decreases n,
{
    let d = n % 10;
    let c = ((d as u8) + 48) as char;
    if n < 10 {
        let mut s = String::new();
        push_char(&mut s, c);
        assert(s@ =~= decimal_text(n as nat));
        s
    } else {
        let mut s = decimal_string(n / 10);
        push_char(&mut s, c);
        s
    }
}

impl MirFunction {
    /// A new function with a single (empty) entry block 0.
    pub fn new(name: &str, return_ty: Ty) -> (f: Self)
        ensures
            f.name@ == name@,
            f.params@.len() == 0,
            f.return_ty == return_ty,
            f.locals@.len() == 0,
            f.blocks@.len() == 1,
            f.blocks@[0].id == 0,
            f.blocks@[0].instructions@.len() == 0,
            f.blocks@[0].terminator is Unreachable,
            f.entry_block == 0,
            f.next_temp == 0,
    {
        let entry_block = BasicBlock::new(0);
        MirFunction {
            name: String::from_str(name),
            params: Vec::new(),
            return_ty,
            locals: Vec::new(),
            blocks: vec![entry_block],
            entry_block: 0,
            next_temp: 0,
        }
    }

    /// A function from pre-built parts.
    pub fn with_parts(
        name: String,
        params: Vec<LocalId>,
        return_ty: Ty,
        locals: Vec<MirLocal>,
        blocks: Vec<BasicBlock>,
        entry_block: BlockId,
    ) -> (f: Self)
        ensures
            f.name == name,
            f.params == params,
            f.return_ty == return_ty,
            f.locals == locals,
            f.blocks == blocks,
            f.entry_block == entry_block,
            f.next_temp == 0,
    {
        MirFunction { name, params, return_ty, locals, blocks, entry_block, next_temp: 0 }
    }

    /// Allocate a new local; its id is the previous number of locals.
    pub fn new_local(&mut self, name: &str, ty: Ty, mutable: bool) -> (id: LocalId)
        ensures
            id == old(self).locals@.len() as u32,
            final(self).locals@.len() == old(self).locals@.len() + 1,
            final(self).locals@.take(old(self).locals@.len() as int) == old(self).locals@,
            final(self).locals@.last().id == id,
            final(self).locals@.last().name@ == name@,
            final(self).locals@.last().ty == ty,
            final(self).locals@.last().mutable == mutable,
            final(self).name == old(self).name,
            final(self).params == old(self).params,
            final(self).return_ty == old(self).return_ty,
            final(self).blocks == old(self).blocks,
            final(self).entry_block == old(self).entry_block,
            final(self).next_temp == old(self).next_temp,
    {
        let id = self.locals.len() as LocalId;
        self.locals.push(MirLocal { id, name: String::from_str(name), ty, mutable });
        assert(self.locals@.take(old(self).locals@.len() as int) =~= old(self).locals@);
        id
    }

    /// Allocate a fresh immutable temporary named `_t<k>`, where `k` counts
    /// the temporaries made so far.
    pub fn new_temp(&mut self, ty: Ty) -> (id: LocalId)
        requires
            old(self).next_temp < u32::MAX,
        ensures
            id == old(self).locals@.len() as u32,
            final(self).locals@.len() == old(self).locals@.len() + 1,
            final(self).locals@.take(old(self).locals@.len() as int) == old(self).locals@,
            final(self).locals@.last().id == id,
            final(self).locals@.last().name@ == "_t"@ + decimal_text(old(self).next_temp as nat),
            final(self).locals@.last().ty == ty,
            !final(self).locals@.last().mutable,
            final(self).next_temp == old(self).next_temp + 1,
            final(self).name == old(self).name,
            final(self).params == old(self).params,
            final(self).return_ty == old(self).return_ty,
            final(self).blocks == old(self).blocks,
            final(self).entry_block == old(self).entry_block,
    {
        let idx = self.next_temp;
        self.next_temp = self.next_temp + 1;
        let name = String::from_str("_t").concat(decimal_string(idx).as_str());
        let id = self.new_local(name.as_str(), ty, false);
        id
    }

    /// Append a new empty block; its id is the previous number of blocks.
    pub fn new_block(&mut self) -> (id: BlockId)
        ensures
            id == old(self).blocks@.len(),
            final(self).blocks@.len() == old(self).blocks@.len() + 1,
            final(self).blocks@.take(old(self).blocks@.len() as int) == old(self).blocks@,
            final(self).blocks@.last().id == id,
            final(self).blocks@.last().instructions@.len() == 0,
            final(self).blocks@.last().terminator is Unreachable,
            final(self).name == old(self).name,
            final(self).params == old(self).params,
            final(self).return_ty == old(self).return_ty,
            final(self).locals == old(self).locals,
            final(self).entry_block == old(self).entry_block,
            final(self).next_temp == old(self).next_temp,
    {
        let id = self.blocks.len();
        self.blocks.push(BasicBlock::new(id));
        assert(self.blocks@.take(old(self).blocks@.len() as int) =~= old(self).blocks@);
        id
    }
}

/// A straight-line sequence of instructions ending in a terminator.
#[derive(Debug)]
pub struct BasicBlock {
    pub id: BlockId,
    pub instructions: Vec<MirInst>,
    pub terminator: Terminator,
}

impl BasicBlock {
    /// An empty block ending in `Unreachable`.
    pub fn new(id: BlockId) -> (b: Self)
        ensures
            b.id == id,
            b.instructions@.len() == 0,
            b.terminator is Unreachable,
    {
        BasicBlock { id, instructions: Vec::new(), terminator: Terminator::Unreachable }
    }
}

/// A single MIR instruction (three-address code).
#[derive(Debug)]
pub enum MirInst {
    /// `dest = value`
    Assign { dest: LocalId, value: MirValue },
    /// `dest = lhs op rhs`
    BinOp { dest: LocalId, op: BinOp, lhs: MirValue, rhs: MirValue },
    /// `dest = -operand`
    Negate { dest: LocalId, operand: MirValue },
    /// `dest = !operand`
    Not { dest: LocalId, operand: MirValue },
    /// `dest = lhs cmp rhs` (a `Bool`)
    Compare { dest: LocalId, op: CmpOp, lhs: MirValue, rhs: MirValue },
    /// `dest = callee(args...)`
    Call { dest: Option<LocalId>, callee: String, args: Vec<MirValue> },
    /// `dest = alloc(ty)`: a heap allocation of `size` bytes (0: the code
    /// generator computes the size).
    Alloc { dest: LocalId, ty: Ty, size: usize },
    /// `dest = stack_alloc(ty)`
    StackAlloc { dest: LocalId, ty: Ty },
    /// `dest = base.field_index`
    GetField { dest: LocalId, base: LocalId, field_index: usize },
    /// `base.field_index = value`
    SetField { base: LocalId, field_index: usize, value: MirValue },
    /// Write the discriminant tag of an enum local.
    SetTag { dest: LocalId, tag: u32 },
    /// `dest = enum_local.tag`
    GetTag { dest: LocalId, src: LocalId },
    /// `dest = enum_local.payload` as `ty`
    GetPayload { dest: LocalId, src: LocalId, ty: Ty },
    /// `dest = &src`
    Ref { dest: LocalId, src: LocalId },
    /// `dest = &mut src`
    RefMut { dest: LocalId, src: LocalId },
    /// `dest = copy src`
    Copy { dest: LocalId, src: LocalId },
    /// `dest = move src` (src is invalidated)
    Move { dest: LocalId, src: LocalId },
    /// Run the destructor of `local`.
    Drop { local: LocalId },
    /// `dest = "string_data"`
    StringLiteral { dest: LocalId, value: String },
    /// `dest = &func_name`: the address of a named function.
    FuncAddr { dest: LocalId, func_name: String },
    /// `dest = &data_sym`: the address of a static read-only data section.
    DataAddr { dest: LocalId, data_sym: String },
    /// `dest = call_indirect(callee_ptr, args...)`
    CallIndirect { dest: Option<LocalId>, callee: LocalId, args: Vec<MirValue> },
    /// No operation.
    Nop,
}

/// Comparison operators of `MirInst::Compare`.
#[derive(Debug, Clone, Copy, PartialEq, Eq, Structural)]
pub enum CmpOp {
    Eq,
    NotEq,
    Lt,
    LtEq,
    Gt,
    GtEq,
}

/// The last instruction of a basic block.
#[derive(Debug)]
pub enum Terminator {
    /// Return the value (unit when omitted).
    Return(Option<MirValue>),
    /// Jump to a block.
    Goto(BlockId),
    /// Go to `then_block` when `cond` holds, else to `else_block`.
    Branch { cond: MirValue, then_block: BlockId, else_block: BlockId },
    /// Jump table on `value`, falling back to `otherwise`.
    Switch { value: MirValue, targets: Vec<(i64, BlockId)>, otherwise: BlockId },
    /// Statically unreachable.
    Unreachable,
}

/// An operand of instructions and terminators.
#[derive(Debug)]
pub enum MirValue {
    /// A compile-time constant.
    Literal(Literal),
    /// Read a local.
    Use(LocalId),
    /// The unit value `()`.
    Unit,
}

/// A compile-time constant.
#[derive(Debug)]
pub enum Literal {
    Int(i64),
    /// A float constant, by the bits of its IEEE 754 double.
    Float(u64),
    Bool(bool),
    Char(char),
    String(String),
}

/// `i` is the call `dest = callee(args)`.
pub open spec fn call_is(i: MirInst, dest: Option<LocalId>, callee: Seq<char>, args: Seq<MirValue>) -> bool {
    i matches MirInst::Call { dest: d, callee: c, args: a } && d == dest && c@ == callee && a@ == args
}

/// The integer constant `v`.
pub open spec fn int_lit(v: i64) -> MirValue {
    MirValue::Literal(Literal::Int(v))
}

/// `b` has id `k`, the instructions `insts` and the terminator `t`.
pub open spec fn block_is(b: BasicBlock, k: int, insts: Seq<MirInst>, t: Terminator) -> bool {
    b.id == k && b.instructions@ == insts && b.terminator == t
}

} // verus!
