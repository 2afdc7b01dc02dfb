//! Binary operators.
use vstd::prelude::*;

use crate::hir::types::{copy_ty, ty_same, Ty};
use crate::mir::lower::util::{binop_to_cmpop, is_comparison, local_to_value, spec_binop_to_cmpop, spec_is_comparison};
use crate::mir::nodes::{call_is, BlockId, CmpOp, LocalId, MirFunction, MirInst, MirLocal, MirValue};
use crate::parser::ast::BinOp;

verus! {

/// The numeric classes of types, as comparison operands are re-materialized.
#[derive(Debug, Clone, Copy, PartialEq, Eq, Structural)]
pub enum NumKind {
    Float,
    SignedInt,
    UnsignedInt,
}

pub open spec fn spec_numeric_kind(t: Ty) -> Option<NumKind> {
    match t {
        Ty::Float | Ty::Float32 | Ty::Float64 => Some(NumKind::Float),
        Ty::Int | Ty::Int8 | Ty::Int16 | Ty::Int32 | Ty::Int64 | Ty::ISize => Some(NumKind::SignedInt),
        Ty::UInt | Ty::UInt8 | Ty::UInt16 | Ty::UInt32 | Ty::UInt64 | Ty::USize => Some(
            NumKind::UnsignedInt,
        ),
        _ => None,
    }
}

/// The numeric class of `ty`, if it is a numeric type.
pub fn numeric_kind(ty: &Ty) -> (r: Option<NumKind>)
    ensures
        r == spec_numeric_kind(*ty),
{
    match ty {
        Ty::Float | Ty::Float32 | Ty::Float64 => Some(NumKind::Float),
        Ty::Int | Ty::Int8 | Ty::Int16 | Ty::Int32 | Ty::Int64 | Ty::ISize => Some(NumKind::SignedInt),
        Ty::UInt | Ty::UInt8 | Ty::UInt16 | Ty::UInt32 | Ty::UInt64 | Ty::USize => Some(
            NumKind::UnsignedInt,
        ),
        _ => None,
    }
}

/// The rank of a float type by width (`Float` is 64 bits wide); 0 for any
/// other type.
pub open spec fn float_rank(t: Ty) -> int {
    match t {
        Ty::Float | Ty::Float64 => 2,
        Ty::Float32 => 1,
        _ => 0,
    }
}

/// The common type at which a comparison of a `l` operand with an `r`
/// operand happens, where one of them has to be converted: a float side
/// dominates an integer side, and of two floats of different widths the
/// wider one wins (the left one on a tie). `None` leaves both operands as
/// they are: equal types, integer-only pairs and non-numeric types.
pub open spec fn compare_common_type(l: Ty, r: Ty) -> Option<Ty> {
    match (spec_numeric_kind(l), spec_numeric_kind(r)) {
        (Some(lk), Some(rk)) => if l == r {
            None
        } else {
            match (lk, rk) {
                (NumKind::Float, NumKind::Float) => if float_rank(l) >= float_rank(r) {
                    Some(l)
                } else {
                    Some(r)
                },
                (NumKind::Float, _) => Some(l),
                (_, NumKind::Float) => Some(r),
                _ => None,
            }
        },
        _ => None,
    }
}

/// A number that tells the numeric types apart.
spec fn numeric_code(t: Ty) -> int {
    match t {
        Ty::Float => 1,
        Ty::Float32 => 2,
        Ty::Float64 => 3,
        Ty::Int => 4,
        Ty::Int8 => 5,
        Ty::Int16 => 6,
        Ty::Int32 => 7,
        Ty::Int64 => 8,
        Ty::ISize => 9,
        Ty::UInt => 10,
        Ty::UInt8 => 11,
        Ty::UInt16 => 12,
        Ty::UInt32 => 13,
        Ty::UInt64 => 14,
        Ty::USize => 15,
        _ => 0,
    }
}

fn numeric_code_of(t: &Ty) -> (r: u8)
    ensures
        r == numeric_code(*t),
{
    match t {
        Ty::Float => 1,
        Ty::Float32 => 2,
        Ty::Float64 => 3,
        Ty::Int => 4,
        Ty::Int8 => 5,
        Ty::Int16 => 6,
        Ty::Int32 => 7,
        Ty::Int64 => 8,
        Ty::ISize => 9,
        Ty::UInt => 10,
        Ty::UInt8 => 11,
        Ty::UInt16 => 12,
        Ty::UInt32 => 13,
        Ty::UInt64 => 14,
        Ty::USize => 15,
        _ => 0,
    }
}

fn float_rank_of(t: &Ty) -> (r: u8)
    ensures
        r == float_rank(*t),
{
    match t {
        Ty::Float | Ty::Float64 => 2,
        Ty::Float32 => 1,
        _ => 0,
    }
}

/// Whether the common comparison type of two numeric types is the left one
/// (`Some(true)`), the right one (`Some(false)`), or neither needs a
/// conversion (`None`).
fn common_side(l: &Ty, r: &Ty) -> (side: Option<bool>)
    ensures
        match compare_common_type(*l, *r) {
            None => side is None,
            Some(c) => side matches Some(left) && c == (if left { *l } else { *r }) && *l != *r,
        },
{
    let (lk, rk) = match (numeric_kind(l), numeric_kind(r)) {
        (Some(lk), Some(rk)) => (lk, rk),
        _ => return None,
    };
    if numeric_code_of(l) == numeric_code_of(r) {
        return None;
    }
    match (lk, rk) {
        (NumKind::Float, NumKind::Float) => Some(float_rank_of(l) >= float_rank_of(r)),
        (NumKind::Float, _) => Some(true),
        (_, NumKind::Float) => Some(false),
        _ => None,
    }
}

/// `f` with `Assign { dest, value: Use(src) }` appended to block `b`.
pub open spec fn emitted_assign(f0: MirFunction, f1: MirFunction, b: int, dest: LocalId, src: LocalId) -> bool {
    &&& f1.blocks@.len() == f0.blocks@.len()
    &&& forall|k: int| 0 <= k < f0.blocks@.len() && k != b ==> #[trigger] f1.blocks@[k] == f0.blocks@[k]
    &&& f1.blocks@[b].id == f0.blocks@[b].id
    &&& f1.blocks@[b].terminator == f0.blocks@[b].terminator
    &&& f1.blocks@[b].instructions@ == f0.blocks@[b].instructions@.push(
        MirInst::Assign { dest, value: MirValue::Use(src) },
    )
}

/// Bring the operand `src` to type `common` in block `b` of `f`: a fresh
/// temporary of that type, assigned from `src`.
fn convert_operand(f: &mut MirFunction, b: BlockId, src: LocalId, common: &Ty) -> (d: LocalId)
    requires
        b < old(f).blocks@.len(),
        old(f).next_temp < u32::MAX,
    ensures
        d == old(f).locals@.len() as u32,
        final(f).locals@.len() == old(f).locals@.len() + 1,
        final(f).locals@.take(old(f).locals@.len() as int) == old(f).locals@,
        final(f).locals@.last().id == d,
        !final(f).locals@.last().mutable,
        crate::hir::types::ty_same(final(f).locals@.last().ty, *common),
        final(f).next_temp == old(f).next_temp + 1,
        emitted_assign(*old(f), *final(f), b as int, d, src),
        final(f).name == old(f).name,
        final(f).params == old(f).params,
        final(f).return_ty == old(f).return_ty,
        final(f).entry_block == old(f).entry_block,
{
    let d = f.new_temp(copy_ty(common));
    f.blocks[b].instructions.push(MirInst::Assign { dest: d, value: MirValue::Use(src) });
    d
}

/// Re-materialize a mismatched numeric operand pair of a comparison in block
/// `b` of `f`, so that both reach the comparison at one common type (see
/// `compare_common_type`): the operand not already of that type is assigned
/// to a fresh temporary of it, left operand first. An absent operand, an id
/// outside `f`'s locals or a pair with no common type leaves everything as
/// it is.
pub fn coerce_compare_operands(
    f: &mut MirFunction,
    b: BlockId,
    lhs: Option<LocalId>,
    rhs: Option<LocalId>,
) -> (r: (Option<LocalId>, Option<LocalId>))
    requires
        b < old(f).blocks@.len(),
        old(f).next_temp < u32::MAX,
        old(f).locals@.len() < u32::MAX,
    ensures
        ({
            let f0 = *old(f);
            let n = f0.locals@.len();
            match (lhs, rhs) {
                (Some(l), Some(rr)) if l < n && rr < n => match compare_common_type(
                    f0.locals@[l as int].ty,
                    f0.locals@[rr as int].ty,
                ) {
                    Some(c) => if c == f0.locals@[l as int].ty {
                        &&& r == (Some(l), Some(n as u32))
                        &&& final(f).locals@.len() == n + 1
                        &&& final(f).locals@.take(n as int) == f0.locals@
                        &&& crate::hir::types::ty_same(final(f).locals@[n as int].ty, c)
                        &&& final(f).locals@[n as int].id == n && !final(f).locals@[n as int].mutable
                        &&& emitted_assign(f0, *final(f), b as int, n as u32, rr)
                    } else {
                        &&& r == (Some(n as u32), Some(rr))
                        &&& final(f).locals@.len() == n + 1
                        &&& final(f).locals@.take(n as int) == f0.locals@
                        &&& crate::hir::types::ty_same(final(f).locals@[n as int].ty, c)
                        &&& final(f).locals@[n as int].id == n && !final(f).locals@[n as int].mutable
                        &&& emitted_assign(f0, *final(f), b as int, n as u32, l)
                    },
                    None => r == (lhs, rhs) && *final(f) == f0,
                },
                _ => r == (lhs, rhs) && *final(f) == f0,
            }
        }),
        final(f).name == old(f).name,
        final(f).params == old(f).params,
        final(f).return_ty == old(f).return_ty,
        final(f).entry_block == old(f).entry_block,
{
    let (l, rr) = match (lhs, rhs) {
        (Some(l), Some(rr)) => (l, rr),
        _ => return (lhs, rhs),
    };
    if l as usize >= f.locals.len() || rr as usize >= f.locals.len() {
        return (lhs, rhs);
    }
    let side = common_side(&f.locals[l as usize].ty, &f.locals[rr as usize].ty);
    match side {
        None => (lhs, rhs),
        Some(true) => {
            let common = copy_ty(&f.locals[l as usize].ty);
            let d = convert_operand(f, b, rr, &common);
            (Some(l), Some(d))
        },
        Some(false) => {
            let common = copy_ty(&f.locals[rr as usize].ty);
            let d = convert_operand(f, b, l, &common);
            (Some(d), Some(rr))
        },
    }
}

/// The operand value of a lowered sub-expression: its local, or unit.
pub open spec fn local_value(l: Option<LocalId>) -> MirValue {
    match l {
        Some(id) => MirValue::Use(id),
        None => MirValue::Unit,
    }
}

/// A string type, owned or borrowed.
pub open spec fn is_text_ty(t: Ty) -> bool {
    t is String || t is Str
}

/// The runtime function that tells two collections of one family equal:
/// two vectors, two maps or two sets.
pub open spec fn collection_eq_callee(l: Ty, r: Ty) -> Option<Seq<char>> {
    if l is Array && r is Array {
        Some("ruxen_vec_eq"@)
    } else if l is Mapping && r is Mapping {
        Some("ruxen_hash_eq"@)
    } else if l is SetOf && r is SetOf {
        Some("ruxen_set_eq"@)
    } else {
        None
    }
}

fn collection_eq_call(l: &Ty, r: &Ty) -> (c: Option<String>)
    ensures
        match collection_eq_callee(*l, *r) {
            Some(name) => c matches Some(s) && s@ == name,
            None => c is None,
        },
{
    match (l, r) {
        (Ty::Array(_), Ty::Array(_)) => Some(String::from_str("ruxen_vec_eq")),
        (Ty::Mapping(_, _), Ty::Mapping(_, _)) => Some(String::from_str("ruxen_hash_eq")),
        (Ty::SetOf(_), Ty::SetOf(_)) => Some(String::from_str("ruxen_set_eq")),
        _ => None,
    }
}

/// The comparison operator of a comparing binary operator.
pub open spec fn compare_op_of(op: BinOp) -> CmpOp {
    spec_binop_to_cmpop(op)
}

fn compare_op(op: BinOp) -> (c: CmpOp)
    requires
        spec_is_comparison(op),
    ensures
        c == compare_op_of(op),
{
    binop_to_cmpop(op)
}

/// The instructions a comparison `lhs op rhs` into `dest` appends, where
/// `locals` are the function's locals and `fresh` the id of the next one:
/// the conversion of one operand to the pair's common type (see
/// `compare_common_type`) into `fresh`, then the `Compare`.
pub open spec fn comparison_insts(
    locals: Seq<MirLocal>,
    op: BinOp,
    dest: LocalId,
    lhs: Option<LocalId>,
    rhs: Option<LocalId>,
    fresh: LocalId,
) -> Seq<MirInst> {
    let c = compare_op_of(op);
    match (lhs, rhs) {
        (Some(l), Some(r)) => match compare_common_type(locals[l as int].ty, locals[r as int].ty) {
            Some(t) => if t == locals[l as int].ty {
                seq![
                    MirInst::Assign { dest: fresh, value: MirValue::Use(r) },
                    MirInst::Compare { dest, op: c, lhs: MirValue::Use(l), rhs: MirValue::Use(fresh) },
                ]
            } else {
                seq![
                    MirInst::Assign { dest: fresh, value: MirValue::Use(l) },
                    MirInst::Compare { dest, op: c, lhs: MirValue::Use(fresh), rhs: MirValue::Use(r) },
                ]
            },
            None => seq![MirInst::Compare { dest, op: c, lhs: MirValue::Use(l), rhs: MirValue::Use(r) }],
        },
        _ => seq![MirInst::Compare { dest, op: c, lhs: local_value(lhs), rhs: local_value(rhs) }],
    }
}

/// The common type one operand of a comparison is converted to, if any.
pub open spec fn comparison_conversion(locals: Seq<MirLocal>, lhs: Option<LocalId>, rhs: Option<LocalId>) -> Option<Ty> {
    match (lhs, rhs) {
        (Some(l), Some(r)) => compare_common_type(locals[l as int].ty, locals[r as int].ty),
        _ => None,
    }
}

/// `f1` is `f0` with the binary operation `lhs op rhs` appended to block `b`,
/// its operands (of types `lt` and `rt`) already lowered, its result in
/// `dest` (of type `rty` where no runtime call decides it):
/// - `+` on two strings calls `ruxen_string_concat`;
/// - `==` / `!=` on two vectors, maps or sets calls the family's runtime
///   equality, negated for `!=`;
/// - `=~` calls `ruxen_regex_is_match` with the regex (the right operand)
///   first;
/// - any other comparison compares the operands at their common type;
/// - any other operator is a `BinOp`.
pub open spec fn binop_lowered(
    f0: MirFunction,
    f1: MirFunction,
    b: int,
    op: BinOp,
    lt: Ty,
    rt: Ty,
    rty: Ty,
    lhs: Option<LocalId>,
    rhs: Option<LocalId>,
    dest: LocalId,
) -> bool {
    let n = f0.locals@.len() as int;
    let i0 = f0.blocks@[b].instructions@;
    let ins = f1.blocks@[b].instructions@;
    let lv = local_value(lhs);
    let rv = local_value(rhs);
    &&& f1.blocks@.len() == f0.blocks@.len()
    &&& forall|k: int| 0 <= k < f0.blocks@.len() && k != b ==> #[trigger] f1.blocks@[k] == f0.blocks@[k]
    &&& f1.blocks@[b].id == f0.blocks@[b].id
    &&& f1.blocks@[b].terminator == f0.blocks@[b].terminator
    &&& ins.take(i0.len() as int) == i0
    &&& f1.locals@.take(n) == f0.locals@
    &&& forall|k: int| n <= k < f1.locals@.len() ==> (#[trigger] f1.locals@[k]).id == k && !f1.locals@[k].mutable
    &&& f1.name == f0.name
    &&& f1.params == f0.params
    &&& f1.return_ty == f0.return_ty
    &&& f1.entry_block == f0.entry_block
    &&& if op is Add && is_text_ty(lt) && is_text_ty(rt) {
        &&& dest == n
        &&& f1.locals@.len() == n + 1
        &&& f1.locals@[n].ty == Ty::String
        &&& ins.len() == i0.len() + 1
        &&& call_is(ins.last(), Some(n as u32), "ruxen_string_concat"@, seq![lv, rv])
    } else if (op is Eq || op is NotEq) && collection_eq_callee(lt, rt) is Some {
        &&& f1.locals@[n].ty == Ty::Bool
        &&& call_is(ins[i0.len() as int], Some(n as u32), collection_eq_callee(lt, rt)->0, seq![lv, rv])
        &&& if op is Eq {
            dest == n && f1.locals@.len() == n + 1 && ins.len() == i0.len() + 1
        } else {
            &&& dest == n + 1
            &&& f1.locals@.len() == n + 2
            &&& f1.locals@[n + 1].ty == Ty::Bool
            &&& ins.len() == i0.len() + 2
            &&& ins[i0.len() as int + 1] == MirInst::Not { dest: (n + 1) as u32, operand: MirValue::Use(n as u32) }
        }
    } else if op is MatchOp {
        &&& dest == n
        &&& f1.locals@.len() == n + 1
        &&& f1.locals@[n].ty == Ty::Bool
        &&& ins.len() == i0.len() + 1
        &&& call_is(ins.last(), Some(n as u32), "ruxen_regex_is_match"@, seq![rv, lv])
    } else if spec_is_comparison(op) {
        &&& dest == n
        &&& ty_same(f1.locals@[n].ty, rty)
        &&& ins.skip(i0.len() as int) == comparison_insts(f0.locals@, op, n as u32, lhs, rhs, (n + 1) as u32)
        &&& match comparison_conversion(f0.locals@, lhs, rhs) {
            Some(t) => f1.locals@.len() == n + 2 && ty_same(f1.locals@[n + 1].ty, t),
            None => f1.locals@.len() == n + 1,
        }
    } else {
        &&& dest == n
        &&& f1.locals@.len() == n + 1
        &&& ty_same(f1.locals@[n].ty, rty)
        &&& ins == i0.push(MirInst::BinOp { dest: n as u32, op, lhs: lv, rhs: rv })
    }
}

/// Lower the binary operation `lhs op rhs` in block `b` of `f`, its operands
/// (of types `left_ty` and `right_ty`) already lowered to the locals `lhs`
/// and `rhs`, the operation's own type being `result_ty` (see
/// `binop_lowered`). Returns the local that holds the result.
pub fn lower_binop_values(
    f: &mut MirFunction,
    b: BlockId,
    op: BinOp,
    left_ty: &Ty,
    right_ty: &Ty,
    result_ty: &Ty,
    lhs: Option<LocalId>,
    rhs: Option<LocalId>,
) -> (dest: LocalId)
    requires
        b < old(f).blocks@.len(),
        old(f).locals@.len() + 2 <= u32::MAX,
        old(f).next_temp + 2 < u32::MAX,
        lhs matches Some(l) ==> l < old(f).locals@.len(),
        rhs matches Some(r) ==> r < old(f).locals@.len(),
    ensures
        binop_lowered(*old(f), *final(f), b as int, op, *left_ty, *right_ty, *result_ty, lhs, rhs, dest),
{
    let ghost f0 = *f;
    let ghost i0 = f.blocks@[b as int].instructions@;
    let lhs_val = local_to_value(lhs);
    let rhs_val = local_to_value(rhs);
    let is_text = |t: &Ty| -> (r: bool)
        ensures
            r == is_text_ty(*t),
        { matches!(t, Ty::String | Ty::Str) };
    if matches!(op, BinOp::Add) && is_text(left_ty) && is_text(right_ty) {
        let dest = f.new_temp(Ty::String);
        let args = vec![lhs_val, rhs_val];
        f.blocks[b].instructions.push(
            MirInst::Call { dest: Some(dest), callee: String::from_str("ruxen_string_concat"), args },
        );
        proof {
            assert(f.blocks@[b as int].instructions@.take(i0.len() as int) =~= i0);
        }
        return dest;
    }
    if matches!(op, BinOp::Eq | BinOp::NotEq) {
        if let Some(callee) = collection_eq_call(left_ty, right_ty) {
            let eq = f.new_temp(Ty::Bool);
            f.blocks[b].instructions.push(MirInst::Call { dest: Some(eq), callee, args: vec![lhs_val, rhs_val] });
            if matches!(op, BinOp::Eq) {
                proof {
                    assert(f.blocks@[b as int].instructions@.take(i0.len() as int) =~= i0);
                }
                return eq;
            }
            let ghost f1 = *f;
            let dest = f.new_temp(Ty::Bool);
            f.blocks[b].instructions.push(MirInst::Not { dest, operand: MirValue::Use(eq) });
            proof {
                assert(f.blocks@[b as int].instructions@.take(i0.len() as int) =~= i0);
                assert(f.locals@.take(f0.locals@.len() as int) =~= f0.locals@) by {
                    assert(f.locals@.take(f0.locals@.len() as int) =~= f1.locals@.take(f0.locals@.len() as int));
                }
                assert(f.locals@[f0.locals@.len() as int] == f1.locals@[f0.locals@.len() as int]);
            }
            return dest;
        }
    }
    if matches!(op, BinOp::MatchOp) {
        let dest = f.new_temp(Ty::Bool);
        let args = vec![rhs_val, lhs_val];
        f.blocks[b].instructions.push(
            MirInst::Call { dest: Some(dest), callee: String::from_str("ruxen_regex_is_match"), args },
        );
        proof {
            assert(f.blocks@[b as int].instructions@.take(i0.len() as int) =~= i0);
        }
        return dest;
    }
    let dest = f.new_temp(copy_ty(result_ty));
    let ghost f1 = *f;
    if is_comparison(op) {
        let (l2, r2) = coerce_compare_operands(f, b, lhs, rhs);
        let c = compare_op(op);
        f.blocks[b].instructions.push(
            MirInst::Compare { dest, op: c, lhs: local_to_value(l2), rhs: local_to_value(r2) },
        );
        proof {
            let n = f0.locals@.len() as int;
            assert(f.blocks@[b as int].instructions@.take(i0.len() as int) =~= i0);
            assert(f.blocks@[b as int].instructions@.skip(i0.len() as int) =~= comparison_insts(
                f0.locals@,
                op,
                n as u32,
                lhs,
                rhs,
                (n + 1) as u32,
            ));
            assert(f.locals@.take(n) =~= f0.locals@) by {
                assert(f.locals@.take(n) =~= f.locals@.take(f1.locals@.len() as int).take(n));
            }
            assert(f.locals@[n] == f1.locals@[n]);
        }
    } else {
        f.blocks[b].instructions.push(MirInst::BinOp { dest, op, lhs: lhs_val, rhs: rhs_val });
        proof {
            assert(f.blocks@[b as int].instructions@.take(i0.len() as int) =~= i0);
        }
    }
    dest
}

} // verus!
