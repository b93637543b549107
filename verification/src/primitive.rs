//! The primitives of the backend, and the operator that each one emits code for.

use crate::operator::{DropRange, Operator};
use crate::types::{Signedness, SignfulInt, Size, Type, Value};
use vstd::prelude::*;

verus! {

/// One primitive of the backend: what it emits code for, with the immediates
/// that it takes. Each stands for the backend operation of the same name.
#[allow(inconsistent_fields)]
#[derive(Debug, Copy, Clone, PartialEq, Eq)]
pub enum Primitive {
    Swap(u32),
    Pick(u32),
    I32Eq,
    I32Eqz,
    I32Neq,
    I32LtS,
    I32LeS,
    I32GtS,
    I32GeS,
    I32LtU,
    I32LeU,
    I32GtU,
    I32GeU,
    I32Add,
    I32Sub,
    I32And,
    I32Or,
    I32Xor,
    I32Mul,
    I32DivU,
    I32DivS,
    I32RemS,
    I32RemU,
    I32Shl,
    I32ShrS,
    I32ShrU,
    I32Rotl,
    I32Rotr,
    I32Clz,
    I32Ctz,
    I32Popcnt,
    I64Eq,
    I64Eqz,
    I64Neq,
    I64LtS,
    I64LeS,
    I64GtS,
    I64GeS,
    I64LtU,
    I64LeU,
    I64GtU,
    I64GeU,
    I64Add,
    I64Sub,
    I64And,
    I64Or,
    I64Xor,
    I64Mul,
    I64DivU,
    I64DivS,
    I64RemS,
    I64RemU,
    I64Shl,
    I64ShrS,
    I64ShrU,
    I64Rotl,
    I64Rotr,
    I64Clz,
    I64Ctz,
    I64Popcnt,
    F32Add,
    F32Mul,
    F32Sub,
    F32Div,
    F32Min,
    F32Max,
    F32Copysign,
    F32Sqrt,
    F32Neg,
    F32Abs,
    F32Floor,
    F32Ceil,
    F32Nearest,
    F32Trunc,
    F32Eq,
    F32Ne,
    F32Gt,
    F32Ge,
    F32Lt,
    F32Le,
    F64Add,
    F64Mul,
    F64Sub,
    F64Div,
    F64Min,
    F64Max,
    F64Copysign,
    F64Sqrt,
    F64Neg,
    F64Abs,
    F64Floor,
    F64Ceil,
    F64Nearest,
    F64Trunc,
    F64Eq,
    F64Ne,
    F64Gt,
    F64Ge,
    F64Lt,
    F64Le,
    Drop(DropRange),
    Const(Value),
    I32WrapFromI64,
    I32ReinterpretFromF32,
    I64ReinterpretFromF64,
    F32ReinterpretFromI32,
    F64ReinterpretFromI64,
    I32TruncateF32S,
    I32TruncateF32U,
    I32TruncateF64S,
    I32TruncateF64U,
    I64TruncateF32S,
    I64TruncateF32U,
    I64TruncateF64S,
    I64TruncateF64U,
    I32ConvertFromI8,
    I32ConvertFromI16,
    I64ConvertFromI8,
    I64ConvertFromI16,
    U64ConvertFromU32,
    I64ConvertFromI32,
    F32ConvertFromI32S,
    F64ConvertFromI32S,
    F32ConvertFromI64S,
    F64ConvertFromI64S,
    F32ConvertFromI32U,
    F64ConvertFromI32U,
    F32ConvertFromI64U,
    F64ConvertFromI64U,
    F64FromF32,
    F32FromF64,
    I32Load8U { offset: u32 },
    I32Load16U { offset: u32 },
    I32Load8S { offset: u32 },
    I32Load16S { offset: u32 },
    I64Load8U { offset: u32 },
    I64Load16U { offset: u32 },
    I64Load8S { offset: u32 },
    I64Load16S { offset: u32 },
    I64Load32U { offset: u32 },
    I64Load32S { offset: u32 },
    I32Load { offset: u32 },
    F32Load { offset: u32 },
    I64Load { offset: u32 },
    F64Load { offset: u32 },
    Store8 { offset: u32 },
    Store16 { offset: u32 },
    Store32 { offset: u32 },
    Store64 { offset: u32 },
    GetGlobal(u32),
    SetGlobal(u32),
    Select,
    MemorySize,
    MemoryGrow,
}

/// The primitive that emits the code of an operator; `None` for control flow
/// and for calls, which are more than one primitive. A store of 32 bits is the
/// same primitive whatever the type of the value, and so is one of 64 bits; a
/// narrow store does not ask for the size of the integer it takes the bits of.
pub open spec fn spec_primitive<L>(op: Operator<L>) -> Option<Primitive> {
    match op {
        Operator::Swap(depth) => Some(Primitive::Swap(depth)),
        Operator::Pick(depth) => Some(Primitive::Pick(depth)),
        Operator::Eq(ty) => Some(
            match ty {
                Type::Int(Size::_32) => Primitive::I32Eq,
                Type::Int(Size::_64) => Primitive::I64Eq,
                Type::Float(Size::_32) => Primitive::F32Eq,
                Type::Float(Size::_64) => Primitive::F64Eq,
            },
        ),
        Operator::Eqz(ty) => Some(
            match ty {
                Size::_32 => Primitive::I32Eqz,
                Size::_64 => Primitive::I64Eqz,
            },
        ),
        Operator::Ne(ty) => Some(
            match ty {
                Type::Int(Size::_32) => Primitive::I32Neq,
                Type::Int(Size::_64) => Primitive::I64Neq,
                Type::Float(Size::_32) => Primitive::F32Ne,
                Type::Float(Size::_64) => Primitive::F64Ne,
            },
        ),
        Operator::Lt(ty) => Some(
            match ty {
                Type::Int(SignfulInt(Signedness::Signed, Size::_32)) => Primitive::I32LtS,
                Type::Int(SignfulInt(Signedness::Unsigned, Size::_32)) => Primitive::I32LtU,
                Type::Int(SignfulInt(Signedness::Signed, Size::_64)) => Primitive::I64LtS,
                Type::Int(SignfulInt(Signedness::Unsigned, Size::_64)) => Primitive::I64LtU,
                Type::Float(Size::_32) => Primitive::F32Lt,
                Type::Float(Size::_64) => Primitive::F64Lt,
            },
        ),
        Operator::Le(ty) => Some(
            match ty {
                Type::Int(SignfulInt(Signedness::Signed, Size::_32)) => Primitive::I32LeS,
                Type::Int(SignfulInt(Signedness::Unsigned, Size::_32)) => Primitive::I32LeU,
                Type::Int(SignfulInt(Signedness::Signed, Size::_64)) => Primitive::I64LeS,
                Type::Int(SignfulInt(Signedness::Unsigned, Size::_64)) => Primitive::I64LeU,
                Type::Float(Size::_32) => Primitive::F32Le,
                Type::Float(Size::_64) => Primitive::F64Le,
            },
        ),
        Operator::Gt(ty) => Some(
            match ty {
                Type::Int(SignfulInt(Signedness::Signed, Size::_32)) => Primitive::I32GtS,
                Type::Int(SignfulInt(Signedness::Unsigned, Size::_32)) => Primitive::I32GtU,
                Type::Int(SignfulInt(Signedness::Signed, Size::_64)) => Primitive::I64GtS,
                Type::Int(SignfulInt(Signedness::Unsigned, Size::_64)) => Primitive::I64GtU,
                Type::Float(Size::_32) => Primitive::F32Gt,
                Type::Float(Size::_64) => Primitive::F64Gt,
            },
        ),
        Operator::Ge(ty) => Some(
            match ty {
                Type::Int(SignfulInt(Signedness::Signed, Size::_32)) => Primitive::I32GeS,
                Type::Int(SignfulInt(Signedness::Unsigned, Size::_32)) => Primitive::I32GeU,
                Type::Int(SignfulInt(Signedness::Signed, Size::_64)) => Primitive::I64GeS,
                Type::Int(SignfulInt(Signedness::Unsigned, Size::_64)) => Primitive::I64GeU,
                Type::Float(Size::_32) => Primitive::F32Ge,
                Type::Float(Size::_64) => Primitive::F64Ge,
            },
        ),
        Operator::Add(ty) => Some(
            match ty {
                Type::Int(Size::_32) => Primitive::I32Add,
                Type::Int(Size::_64) => Primitive::I64Add,
                Type::Float(Size::_32) => Primitive::F32Add,
                Type::Float(Size::_64) => Primitive::F64Add,
            },
        ),
        Operator::Sub(ty) => Some(
            match ty {
                Type::Int(Size::_32) => Primitive::I32Sub,
                Type::Int(Size::_64) => Primitive::I64Sub,
                Type::Float(Size::_32) => Primitive::F32Sub,
                Type::Float(Size::_64) => Primitive::F64Sub,
            },
        ),
        Operator::And(ty) => Some(
            match ty {
                Size::_32 => Primitive::I32And,
                Size::_64 => Primitive::I64And,
            },
        ),
        Operator::Or(ty) => Some(
            match ty {
                Size::_32 => Primitive::I32Or,
                Size::_64 => Primitive::I64Or,
            },
        ),
        Operator::Xor(ty) => Some(
            match ty {
                Size::_32 => Primitive::I32Xor,
                Size::_64 => Primitive::I64Xor,
            },
        ),
        Operator::Mul(ty) => Some(
            match ty {
                Type::Int(Size::_32) => Primitive::I32Mul,
                Type::Int(Size::_64) => Primitive::I64Mul,
                Type::Float(Size::_32) => Primitive::F32Mul,
                Type::Float(Size::_64) => Primitive::F64Mul,
            },
        ),
        Operator::Div(ty) => Some(
            match ty {
                Type::Int(SignfulInt(Signedness::Unsigned, Size::_32)) => Primitive::I32DivU,
                Type::Int(SignfulInt(Signedness::Signed, Size::_32)) => Primitive::I32DivS,
                Type::Int(SignfulInt(Signedness::Unsigned, Size::_64)) => Primitive::I64DivU,
                Type::Int(SignfulInt(Signedness::Signed, Size::_64)) => Primitive::I64DivS,
                Type::Float(Size::_32) => Primitive::F32Div,
                Type::Float(Size::_64) => Primitive::F64Div,
            },
        ),
        Operator::Rem(ty) => Some(
            match ty {
                SignfulInt(Signedness::Signed, Size::_32) => Primitive::I32RemS,
                SignfulInt(Signedness::Unsigned, Size::_32) => Primitive::I32RemU,
                SignfulInt(Signedness::Signed, Size::_64) => Primitive::I64RemS,
                SignfulInt(Signedness::Unsigned, Size::_64) => Primitive::I64RemU,
            },
        ),
        Operator::Shl(ty) => Some(
            match ty {
                Size::_32 => Primitive::I32Shl,
                Size::_64 => Primitive::I64Shl,
            },
        ),
        Operator::Shr(ty) => Some(
            match ty {
                SignfulInt(Signedness::Signed, Size::_32) => Primitive::I32ShrS,
                SignfulInt(Signedness::Unsigned, Size::_32) => Primitive::I32ShrU,
                SignfulInt(Signedness::Signed, Size::_64) => Primitive::I64ShrS,
                SignfulInt(Signedness::Unsigned, Size::_64) => Primitive::I64ShrU,
            },
        ),
        Operator::Rotl(ty) => Some(
            match ty {
                Size::_32 => Primitive::I32Rotl,
                Size::_64 => Primitive::I64Rotl,
            },
        ),
        Operator::Rotr(ty) => Some(
            match ty {
                Size::_32 => Primitive::I32Rotr,
                Size::_64 => Primitive::I64Rotr,
            },
        ),
        Operator::Clz(ty) => Some(
            match ty {
                Size::_32 => Primitive::I32Clz,
                Size::_64 => Primitive::I64Clz,
            },
        ),
        Operator::Ctz(ty) => Some(
            match ty {
                Size::_32 => Primitive::I32Ctz,
                Size::_64 => Primitive::I64Ctz,
            },
        ),
        Operator::Popcnt(ty) => Some(
            match ty {
                Size::_32 => Primitive::I32Popcnt,
                Size::_64 => Primitive::I64Popcnt,
            },
        ),
        Operator::Min(ty) => Some(
            match ty {
                Size::_32 => Primitive::F32Min,
                Size::_64 => Primitive::F64Min,
            },
        ),
        Operator::Max(ty) => Some(
            match ty {
                Size::_32 => Primitive::F32Max,
                Size::_64 => Primitive::F64Max,
            },
        ),
        Operator::Copysign(ty) => Some(
            match ty {
                Size::_32 => Primitive::F32Copysign,
                Size::_64 => Primitive::F64Copysign,
            },
        ),
        Operator::Sqrt(ty) => Some(
            match ty {
                Size::_32 => Primitive::F32Sqrt,
                Size::_64 => Primitive::F64Sqrt,
            },
        ),
        Operator::Neg(ty) => Some(
            match ty {
                Size::_32 => Primitive::F32Neg,
                Size::_64 => Primitive::F64Neg,
            },
        ),
        Operator::Abs(ty) => Some(
            match ty {
                Size::_32 => Primitive::F32Abs,
                Size::_64 => Primitive::F64Abs,
            },
        ),
        Operator::Floor(ty) => Some(
            match ty {
                Size::_32 => Primitive::F32Floor,
                Size::_64 => Primitive::F64Floor,
            },
        ),
        Operator::Ceil(ty) => Some(
            match ty {
                Size::_32 => Primitive::F32Ceil,
                Size::_64 => Primitive::F64Ceil,
            },
        ),
        Operator::Nearest(ty) => Some(
            match ty {
                Size::_32 => Primitive::F32Nearest,
                Size::_64 => Primitive::F64Nearest,
            },
        ),
        Operator::Trunc(ty) => Some(
            match ty {
                Size::_32 => Primitive::F32Trunc,
                Size::_64 => Primitive::F64Trunc,
            },
        ),
        Operator::Drop(range) => Some(Primitive::Drop(range)),
        Operator::Const(val) => Some(Primitive::Const(val)),
        Operator::I32WrapFromI64 => Some(Primitive::I32WrapFromI64),
        Operator::I32ReinterpretFromF32 => Some(Primitive::I32ReinterpretFromF32),
        Operator::I64ReinterpretFromF64 => Some(Primitive::I64ReinterpretFromF64),
        Operator::F32ReinterpretFromI32 => Some(Primitive::F32ReinterpretFromI32),
        Operator::F64ReinterpretFromI64 => Some(Primitive::F64ReinterpretFromI64),
        Operator::ITruncFromF { input_ty, output_ty } => Some(
            match (input_ty, output_ty) {
                (Size::_32, SignfulInt(Signedness::Signed, Size::_32)) => Primitive::I32TruncateF32S,
                (Size::_32, SignfulInt(Signedness::Unsigned, Size::_32)) => Primitive::I32TruncateF32U,
                (Size::_64, SignfulInt(Signedness::Signed, Size::_32)) => Primitive::I32TruncateF64S,
                (Size::_64, SignfulInt(Signedness::Unsigned, Size::_32)) => Primitive::I32TruncateF64U,
                (Size::_32, SignfulInt(Signedness::Signed, Size::_64)) => Primitive::I64TruncateF32S,
                (Size::_32, SignfulInt(Signedness::Unsigned, Size::_64)) => Primitive::I64TruncateF32U,
                (Size::_64, SignfulInt(Signedness::Signed, Size::_64)) => Primitive::I64TruncateF64S,
                (Size::_64, SignfulInt(Signedness::Unsigned, Size::_64)) => Primitive::I64TruncateF64U,
            },
        ),
        Operator::Extend8 { size } => Some(
            match size {
                Size::_32 => Primitive::I32ConvertFromI8,
                Size::_64 => Primitive::I64ConvertFromI8,
            },
        ),
        Operator::Extend16 { size } => Some(
            match size {
                Size::_32 => Primitive::I32ConvertFromI16,
                Size::_64 => Primitive::I64ConvertFromI16,
            },
        ),
        Operator::Extend32 { sign } => Some(
            match sign {
                Signedness::Unsigned => Primitive::U64ConvertFromU32,
                Signedness::Signed => Primitive::I64ConvertFromI32,
            },
        ),
        Operator::FConvertFromI { input_ty, output_ty } => Some(
            match (input_ty, output_ty) {
                (SignfulInt(Signedness::Signed, Size::_32), Size::_32) => Primitive::F32ConvertFromI32S,
                (SignfulInt(Signedness::Signed, Size::_32), Size::_64) => Primitive::F64ConvertFromI32S,
                (SignfulInt(Signedness::Signed, Size::_64), Size::_32) => Primitive::F32ConvertFromI64S,
                (SignfulInt(Signedness::Signed, Size::_64), Size::_64) => Primitive::F64ConvertFromI64S,
                (SignfulInt(Signedness::Unsigned, Size::_32), Size::_32) => Primitive::F32ConvertFromI32U,
                (SignfulInt(Signedness::Unsigned, Size::_32), Size::_64) => Primitive::F64ConvertFromI32U,
                (SignfulInt(Signedness::Unsigned, Size::_64), Size::_32) => Primitive::F32ConvertFromI64U,
                (SignfulInt(Signedness::Unsigned, Size::_64), Size::_64) => Primitive::F64ConvertFromI64U,
            },
        ),
        Operator::F64PromoteFromF32 => Some(Primitive::F64FromF32),
        Operator::F32DemoteFromF64 => Some(Primitive::F32FromF64),
        Operator::Load8 { ty, memarg } => Some(
            match ty {
                SignfulInt(Signedness::Unsigned, Size::_32) => Primitive::I32Load8U { offset: memarg.offset },
                SignfulInt(Signedness::Signed, Size::_32) => Primitive::I32Load8S { offset: memarg.offset },
                SignfulInt(Signedness::Unsigned, Size::_64) => Primitive::I64Load8U { offset: memarg.offset },
                SignfulInt(Signedness::Signed, Size::_64) => Primitive::I64Load8S { offset: memarg.offset },
            },
        ),
        Operator::Load16 { ty, memarg } => Some(
            match ty {
                SignfulInt(Signedness::Unsigned, Size::_32) => Primitive::I32Load16U { offset: memarg.offset },
                SignfulInt(Signedness::Signed, Size::_32) => Primitive::I32Load16S { offset: memarg.offset },
                SignfulInt(Signedness::Unsigned, Size::_64) => Primitive::I64Load16U { offset: memarg.offset },
                SignfulInt(Signedness::Signed, Size::_64) => Primitive::I64Load16S { offset: memarg.offset },
            },
        ),
        Operator::Load32 { sign, memarg } => Some(
            match sign {
                Signedness::Unsigned => Primitive::I64Load32U { offset: memarg.offset },
                Signedness::Signed => Primitive::I64Load32S { offset: memarg.offset },
            },
        ),
        Operator::Load { ty, memarg } => Some(
            match ty {
                Type::Int(Size::_32) => Primitive::I32Load { offset: memarg.offset },
                Type::Float(Size::_32) => Primitive::F32Load { offset: memarg.offset },
                Type::Int(Size::_64) => Primitive::I64Load { offset: memarg.offset },
                Type::Float(Size::_64) => Primitive::F64Load { offset: memarg.offset },
            },
        ),
        Operator::Store8 { memarg, .. } => Some(Primitive::Store8 { offset: memarg.offset }),
        Operator::Store16 { memarg, .. } => Some(Primitive::Store16 { offset: memarg.offset }),
        Operator::Store32 { memarg } => Some(Primitive::Store32 { offset: memarg.offset }),
        Operator::Store { ty, memarg } => Some(
            match ty {
                Type::Int(Size::_32) | Type::Float(Size::_32) => Primitive::Store32 { offset: memarg.offset },
                Type::Int(Size::_64) | Type::Float(Size::_64) => Primitive::Store64 { offset: memarg.offset },
            },
        ),
        Operator::GlobalGet(idx) => Some(Primitive::GetGlobal(idx)),
        Operator::GlobalSet(idx) => Some(Primitive::SetGlobal(idx)),
        Operator::Select => Some(Primitive::Select),
        Operator::MemorySize { .. } => Some(Primitive::MemorySize),
        Operator::MemoryGrow { .. } => Some(Primitive::MemoryGrow),
        Operator::Unreachable
        | Operator::Declare { .. }
        | Operator::Start(_)
        | Operator::End(_)
        | Operator::Call { .. }
        | Operator::CallIndirect { .. } => None,
    }
}

/// The primitive that emits the code of `op`.
pub fn primitive<L>(op: &Operator<L>) -> (r: Option<Primitive>)
    ensures
        r == spec_primitive(*op),
{
    match op {
        Operator::Swap(depth) => Some(Primitive::Swap(*depth)),
        Operator::Pick(depth) => Some(Primitive::Pick(*depth)),
        Operator::Eq(ty) => Some(
            match *ty {
                Type::Int(Size::_32) => Primitive::I32Eq,
                Type::Int(Size::_64) => Primitive::I64Eq,
                Type::Float(Size::_32) => Primitive::F32Eq,
                Type::Float(Size::_64) => Primitive::F64Eq,
            },
        ),
        Operator::Eqz(ty) => Some(
            match *ty {
                Size::_32 => Primitive::I32Eqz,
                Size::_64 => Primitive::I64Eqz,
            },
        ),
        Operator::Ne(ty) => Some(
            match *ty {
                Type::Int(Size::_32) => Primitive::I32Neq,
                Type::Int(Size::_64) => Primitive::I64Neq,
                Type::Float(Size::_32) => Primitive::F32Ne,
                Type::Float(Size::_64) => Primitive::F64Ne,
            },
        ),
        Operator::Lt(ty) => Some(
            match *ty {
                Type::Int(SignfulInt(Signedness::Signed, Size::_32)) => Primitive::I32LtS,
                Type::Int(SignfulInt(Signedness::Unsigned, Size::_32)) => Primitive::I32LtU,
                Type::Int(SignfulInt(Signedness::Signed, Size::_64)) => Primitive::I64LtS,
                Type::Int(SignfulInt(Signedness::Unsigned, Size::_64)) => Primitive::I64LtU,
                Type::Float(Size::_32) => Primitive::F32Lt,
                Type::Float(Size::_64) => Primitive::F64Lt,
            },
        ),
        Operator::Le(ty) => Some(
            match *ty {
                Type::Int(SignfulInt(Signedness::Signed, Size::_32)) => Primitive::I32LeS,
                Type::Int(SignfulInt(Signedness::Unsigned, Size::_32)) => Primitive::I32LeU,
                Type::Int(SignfulInt(Signedness::Signed, Size::_64)) => Primitive::I64LeS,
                Type::Int(SignfulInt(Signedness::Unsigned, Size::_64)) => Primitive::I64LeU,
                Type::Float(Size::_32) => Primitive::F32Le,
                Type::Float(Size::_64) => Primitive::F64Le,
            },
        ),
        Operator::Gt(ty) => Some(
            match *ty {
                Type::Int(SignfulInt(Signedness::Signed, Size::_32)) => Primitive::I32GtS,
                Type::Int(SignfulInt(Signedness::Unsigned, Size::_32)) => Primitive::I32GtU,
                Type::Int(SignfulInt(Signedness::Signed, Size::_64)) => Primitive::I64GtS,
                Type::Int(SignfulInt(Signedness::Unsigned, Size::_64)) => Primitive::I64GtU,
                Type::Float(Size::_32) => Primitive::F32Gt,
                Type::Float(Size::_64) => Primitive::F64Gt,
            },
        ),
        Operator::Ge(ty) => Some(
            match *ty {
                Type::Int(SignfulInt(Signedness::Signed, Size::_32)) => Primitive::I32GeS,
                Type::Int(SignfulInt(Signedness::Unsigned, Size::_32)) => Primitive::I32GeU,
                Type::Int(SignfulInt(Signedness::Signed, Size::_64)) => Primitive::I64GeS,
                Type::Int(SignfulInt(Signedness::Unsigned, Size::_64)) => Primitive::I64GeU,
                Type::Float(Size::_32) => Primitive::F32Ge,
                Type::Float(Size::_64) => Primitive::F64Ge,
            },
        ),
        Operator::Add(ty) => Some(
            match *ty {
                Type::Int(Size::_32) => Primitive::I32Add,
                Type::Int(Size::_64) => Primitive::I64Add,
                Type::Float(Size::_32) => Primitive::F32Add,
                Type::Float(Size::_64) => Primitive::F64Add,
            },
        ),
        Operator::Sub(ty) => Some(
            match *ty {
                Type::Int(Size::_32) => Primitive::I32Sub,
                Type::Int(Size::_64) => Primitive::I64Sub,
                Type::Float(Size::_32) => Primitive::F32Sub,
                Type::Float(Size::_64) => Primitive::F64Sub,
            },
        ),
        Operator::And(ty) => Some(
            match *ty {
                Size::_32 => Primitive::I32And,
                Size::_64 => Primitive::I64And,
            },
        ),
        Operator::Or(ty) => Some(
            match *ty {
                Size::_32 => Primitive::I32Or,
                Size::_64 => Primitive::I64Or,
            },
        ),
        Operator::Xor(ty) => Some(
            match *ty {
                Size::_32 => Primitive::I32Xor,
                Size::_64 => Primitive::I64Xor,
            },
        ),
        Operator::Mul(ty) => Some(
            match *ty {
                Type::Int(Size::_32) => Primitive::I32Mul,
                Type::Int(Size::_64) => Primitive::I64Mul,
                Type::Float(Size::_32) => Primitive::F32Mul,
                Type::Float(Size::_64) => Primitive::F64Mul,
            },
        ),
        Operator::Div(ty) => Some(
            match *ty {
                Type::Int(SignfulInt(Signedness::Unsigned, Size::_32)) => Primitive::I32DivU,
                Type::Int(SignfulInt(Signedness::Signed, Size::_32)) => Primitive::I32DivS,
                Type::Int(SignfulInt(Signedness::Unsigned, Size::_64)) => Primitive::I64DivU,
                Type::Int(SignfulInt(Signedness::Signed, Size::_64)) => Primitive::I64DivS,
                Type::Float(Size::_32) => Primitive::F32Div,
                Type::Float(Size::_64) => Primitive::F64Div,
            },
        ),
        Operator::Rem(ty) => Some(
            match *ty {
                SignfulInt(Signedness::Signed, Size::_32) => Primitive::I32RemS,
                SignfulInt(Signedness::Unsigned, Size::_32) => Primitive::I32RemU,
                SignfulInt(Signedness::Signed, Size::_64) => Primitive::I64RemS,
                SignfulInt(Signedness::Unsigned, Size::_64) => Primitive::I64RemU,
            },
        ),
        Operator::Shl(ty) => Some(
            match *ty {
                Size::_32 => Primitive::I32Shl,
                Size::_64 => Primitive::I64Shl,
            },
        ),
        Operator::Shr(ty) => Some(
            match *ty {
                SignfulInt(Signedness::Signed, Size::_32) => Primitive::I32ShrS,
                SignfulInt(Signedness::Unsigned, Size::_32) => Primitive::I32ShrU,
                SignfulInt(Signedness::Signed, Size::_64) => Primitive::I64ShrS,
                SignfulInt(Signedness::Unsigned, Size::_64) => Primitive::I64ShrU,
            },
        ),
        Operator::Rotl(ty) => Some(
            match *ty {
                Size::_32 => Primitive::I32Rotl,
                Size::_64 => Primitive::I64Rotl,
            },
        ),
        Operator::Rotr(ty) => Some(
            match *ty {
                Size::_32 => Primitive::I32Rotr,
                Size::_64 => Primitive::I64Rotr,
            },
        ),
        Operator::Clz(ty) => Some(
            match *ty {
                Size::_32 => Primitive::I32Clz,
                Size::_64 => Primitive::I64Clz,
            },
        ),
        Operator::Ctz(ty) => Some(
            match *ty {
                Size::_32 => Primitive::I32Ctz,
                Size::_64 => Primitive::I64Ctz,
            },
        ),
        Operator::Popcnt(ty) => Some(
            match *ty {
                Size::_32 => Primitive::I32Popcnt,
                Size::_64 => Primitive::I64Popcnt,
            },
        ),
        Operator::Min(ty) => Some(
            match *ty {
                Size::_32 => Primitive::F32Min,
                Size::_64 => Primitive::F64Min,
            },
        ),
        Operator::Max(ty) => Some(
            match *ty {
                Size::_32 => Primitive::F32Max,
                Size::_64 => Primitive::F64Max,
            },
        ),
        Operator::Copysign(ty) => Some(
            match *ty {
                Size::_32 => Primitive::F32Copysign,
                Size::_64 => Primitive::F64Copysign,
            },
        ),
        Operator::Sqrt(ty) => Some(
            match *ty {
                Size::_32 => Primitive::F32Sqrt,
                Size::_64 => Primitive::F64Sqrt,
            },
        ),
        Operator::Neg(ty) => Some(
            match *ty {
                Size::_32 => Primitive::F32Neg,
                Size::_64 => Primitive::F64Neg,
            },
        ),
        Operator::Abs(ty) => Some(
            match *ty {
                Size::_32 => Primitive::F32Abs,
                Size::_64 => Primitive::F64Abs,
            },
        ),
        Operator::Floor(ty) => Some(
            match *ty {
                Size::_32 => Primitive::F32Floor,
                Size::_64 => Primitive::F64Floor,
            },
        ),
        Operator::Ceil(ty) => Some(
            match *ty {
                Size::_32 => Primitive::F32Ceil,
                Size::_64 => Primitive::F64Ceil,
            },
        ),
        Operator::Nearest(ty) => Some(
            match *ty {
                Size::_32 => Primitive::F32Nearest,
                Size::_64 => Primitive::F64Nearest,
            },
        ),
        Operator::Trunc(ty) => Some(
            match *ty {
                Size::_32 => Primitive::F32Trunc,
                Size::_64 => Primitive::F64Trunc,
            },
        ),
        Operator::Drop(range) => Some(Primitive::Drop(*range)),
        Operator::Const(val) => Some(Primitive::Const(*val)),
        Operator::I32WrapFromI64 => Some(Primitive::I32WrapFromI64),
        Operator::I32ReinterpretFromF32 => Some(Primitive::I32ReinterpretFromF32),
        Operator::I64ReinterpretFromF64 => Some(Primitive::I64ReinterpretFromF64),
        Operator::F32ReinterpretFromI32 => Some(Primitive::F32ReinterpretFromI32),
        Operator::F64ReinterpretFromI64 => Some(Primitive::F64ReinterpretFromI64),
        Operator::ITruncFromF { input_ty, output_ty } => Some(
            match (*input_ty, *output_ty) {
                (Size::_32, SignfulInt(Signedness::Signed, Size::_32)) => Primitive::I32TruncateF32S,
                (Size::_32, SignfulInt(Signedness::Unsigned, Size::_32)) => Primitive::I32TruncateF32U,
                (Size::_64, SignfulInt(Signedness::Signed, Size::_32)) => Primitive::I32TruncateF64S,
                (Size::_64, SignfulInt(Signedness::Unsigned, Size::_32)) => Primitive::I32TruncateF64U,
                (Size::_32, SignfulInt(Signedness::Signed, Size::_64)) => Primitive::I64TruncateF32S,
                (Size::_32, SignfulInt(Signedness::Unsigned, Size::_64)) => Primitive::I64TruncateF32U,
                (Size::_64, SignfulInt(Signedness::Signed, Size::_64)) => Primitive::I64TruncateF64S,
                (Size::_64, SignfulInt(Signedness::Unsigned, Size::_64)) => Primitive::I64TruncateF64U,
            },
        ),
        Operator::Extend8 { size } => Some(
            match *size {
                Size::_32 => Primitive::I32ConvertFromI8,
                Size::_64 => Primitive::I64ConvertFromI8,
            },
        ),
        Operator::Extend16 { size } => Some(
            match *size {
                Size::_32 => Primitive::I32ConvertFromI16,
                Size::_64 => Primitive::I64ConvertFromI16,
            },
        ),
        Operator::Extend32 { sign } => Some(
            match *sign {
                Signedness::Unsigned => Primitive::U64ConvertFromU32,
                Signedness::Signed => Primitive::I64ConvertFromI32,
            },
        ),
        Operator::FConvertFromI { input_ty, output_ty } => Some(
            match (*input_ty, *output_ty) {
                (SignfulInt(Signedness::Signed, Size::_32), Size::_32) => Primitive::F32ConvertFromI32S,
                (SignfulInt(Signedness::Signed, Size::_32), Size::_64) => Primitive::F64ConvertFromI32S,
                (SignfulInt(Signedness::Signed, Size::_64), Size::_32) => Primitive::F32ConvertFromI64S,
                (SignfulInt(Signedness::Signed, Size::_64), Size::_64) => Primitive::F64ConvertFromI64S,
                (SignfulInt(Signedness::Unsigned, Size::_32), Size::_32) => Primitive::F32ConvertFromI32U,
                (SignfulInt(Signedness::Unsigned, Size::_32), Size::_64) => Primitive::F64ConvertFromI32U,
                (SignfulInt(Signedness::Unsigned, Size::_64), Size::_32) => Primitive::F32ConvertFromI64U,
                (SignfulInt(Signedness::Unsigned, Size::_64), Size::_64) => Primitive::F64ConvertFromI64U,
            },
        ),
        Operator::F64PromoteFromF32 => Some(Primitive::F64FromF32),
        Operator::F32DemoteFromF64 => Some(Primitive::F32FromF64),
        Operator::Load8 { ty, memarg } => Some(
            match *ty {
                SignfulInt(Signedness::Unsigned, Size::_32) => Primitive::I32Load8U { offset: memarg.offset },
                SignfulInt(Signedness::Signed, Size::_32) => Primitive::I32Load8S { offset: memarg.offset },
                SignfulInt(Signedness::Unsigned, Size::_64) => Primitive::I64Load8U { offset: memarg.offset },
                SignfulInt(Signedness::Signed, Size::_64) => Primitive::I64Load8S { offset: memarg.offset },
            },
        ),
        Operator::Load16 { ty, memarg } => Some(
            match *ty {
                SignfulInt(Signedness::Unsigned, Size::_32) => Primitive::I32Load16U { offset: memarg.offset },
                SignfulInt(Signedness::Signed, Size::_32) => Primitive::I32Load16S { offset: memarg.offset },
                SignfulInt(Signedness::Unsigned, Size::_64) => Primitive::I64Load16U { offset: memarg.offset },
                SignfulInt(Signedness::Signed, Size::_64) => Primitive::I64Load16S { offset: memarg.offset },
            },
        ),
        Operator::Load32 { sign, memarg } => Some(
            match *sign {
                Signedness::Unsigned => Primitive::I64Load32U { offset: memarg.offset },
                Signedness::Signed => Primitive::I64Load32S { offset: memarg.offset },
            },
        ),
        Operator::Load { ty, memarg } => Some(
            match *ty {
                Type::Int(Size::_32) => Primitive::I32Load { offset: memarg.offset },
                Type::Float(Size::_32) => Primitive::F32Load { offset: memarg.offset },
                Type::Int(Size::_64) => Primitive::I64Load { offset: memarg.offset },
                Type::Float(Size::_64) => Primitive::F64Load { offset: memarg.offset },
            },
        ),
        Operator::Store8 { memarg, .. } => Some(Primitive::Store8 { offset: memarg.offset }),
        Operator::Store16 { memarg, .. } => Some(Primitive::Store16 { offset: memarg.offset }),
        Operator::Store32 { memarg } => Some(Primitive::Store32 { offset: memarg.offset }),
        Operator::Store { ty, memarg } => Some(
            match *ty {
                Type::Int(Size::_32) | Type::Float(Size::_32) => Primitive::Store32 { offset: memarg.offset },
                Type::Int(Size::_64) | Type::Float(Size::_64) => Primitive::Store64 { offset: memarg.offset },
            },
        ),
        Operator::GlobalGet(idx) => Some(Primitive::GetGlobal(*idx)),
        Operator::GlobalSet(idx) => Some(Primitive::SetGlobal(*idx)),
        Operator::Select => Some(Primitive::Select),
        Operator::MemorySize { .. } => Some(Primitive::MemorySize),
        Operator::MemoryGrow { .. } => Some(Primitive::MemoryGrow),
        Operator::Unreachable
        | Operator::Declare { .. }
        | Operator::Start(_)
        | Operator::End(_)
        | Operator::Call { .. }
        | Operator::CallIndirect { .. } => None,
    }
}

} // verus!
