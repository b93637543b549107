//! The operators that lower to exactly one operator of the flat form.

use crate::operator::{DropRange, Operator, WasmLabel};
use crate::types::{Signedness, SignfulInt, Size, Type, Value};
use crate::wasm::WasmOperator;
use vstd::prelude::*;

verus! {

/// The operator of the flat form that a Wasm operator lowers to, where it
/// lowers to exactly one and leaves the state of lowering alone; `None` for
/// control flow, for access to locals and for what lowering does not take.
pub open spec fn spec_plain(op: WasmOperator) -> Option<Operator<WasmLabel>> {
    match op {
        WasmOperator::Call { function_index } => Some(Operator::Call { function_index }),
        WasmOperator::CallIndirect { index, table_index } => Some(
            Operator::CallIndirect { type_index: index, table_index },
        ),
        WasmOperator::GlobalGet { global_index } => Some(Operator::GlobalGet(global_index)),
        WasmOperator::GlobalSet { global_index } => Some(Operator::GlobalSet(global_index)),
        WasmOperator::Drop => Some(Operator::Drop(DropRange { start: 0, end: 0 })),
        WasmOperator::Select => Some(Operator::Select),
        WasmOperator::I32Load { memarg } => Some(
            Operator::Load { ty: Type::Int(Size::_32), memarg },
        ),
        WasmOperator::I64Load { memarg } => Some(
            Operator::Load { ty: Type::Int(Size::_64), memarg },
        ),
        WasmOperator::F32Load { memarg } => Some(
            Operator::Load { ty: Type::Float(Size::_32), memarg },
        ),
        WasmOperator::F64Load { memarg } => Some(
            Operator::Load { ty: Type::Float(Size::_64), memarg },
        ),
        WasmOperator::I32Load8S { memarg } => Some(
            Operator::Load8 { ty: SignfulInt(Signedness::Signed, Size::_32), memarg },
        ),
        WasmOperator::I32Load8U { memarg } => Some(
            Operator::Load8 { ty: SignfulInt(Signedness::Unsigned, Size::_32), memarg },
        ),
        WasmOperator::I32Load16S { memarg } => Some(
            Operator::Load16 { ty: SignfulInt(Signedness::Signed, Size::_32), memarg },
        ),
        WasmOperator::I32Load16U { memarg } => Some(
            Operator::Load16 { ty: SignfulInt(Signedness::Unsigned, Size::_32), memarg },
        ),
        WasmOperator::I64Load8S { memarg } => Some(
            Operator::Load8 { ty: SignfulInt(Signedness::Signed, Size::_64), memarg },
        ),
        WasmOperator::I64Load8U { memarg } => Some(
            Operator::Load8 { ty: SignfulInt(Signedness::Unsigned, Size::_64), memarg },
        ),
        WasmOperator::I64Load16S { memarg } => Some(
            Operator::Load16 { ty: SignfulInt(Signedness::Signed, Size::_64), memarg },
        ),
        WasmOperator::I64Load16U { memarg } => Some(
            Operator::Load16 { ty: SignfulInt(Signedness::Unsigned, Size::_64), memarg },
        ),
        WasmOperator::I64Load32S { memarg } => Some(
            Operator::Load32 { sign: Signedness::Signed, memarg },
        ),
        WasmOperator::I64Load32U { memarg } => Some(
            Operator::Load32 { sign: Signedness::Unsigned, memarg },
        ),
        WasmOperator::I32Store { memarg } => Some(
            Operator::Store { ty: Type::Int(Size::_32), memarg },
        ),
        WasmOperator::I64Store { memarg } => Some(
            Operator::Store { ty: Type::Int(Size::_64), memarg },
        ),
        WasmOperator::F32Store { memarg } => Some(
            Operator::Store { ty: Type::Float(Size::_32), memarg },
        ),
        WasmOperator::F64Store { memarg } => Some(
            Operator::Store { ty: Type::Float(Size::_64), memarg },
        ),
        WasmOperator::I32Store8 { memarg } => Some(
            Operator::Store8 { ty: Size::_32, memarg },
        ),
        WasmOperator::I32Store16 { memarg } => Some(
            Operator::Store16 { ty: Size::_32, memarg },
        ),
        WasmOperator::I64Store8 { memarg } => Some(
            Operator::Store8 { ty: Size::_64, memarg },
        ),
        WasmOperator::I64Store16 { memarg } => Some(
            Operator::Store16 { ty: Size::_64, memarg },
        ),
        WasmOperator::I64Store32 { memarg } => Some(Operator::Store32 { memarg }),
        WasmOperator::MemorySize { reserved } => Some(Operator::MemorySize { reserved }),
        WasmOperator::MemoryGrow { reserved } => Some(Operator::MemoryGrow { reserved }),
        WasmOperator::I32Const { value } => Some(Operator::Const(Value::I32(value))),
        WasmOperator::I64Const { value } => Some(Operator::Const(Value::I64(value))),
        WasmOperator::F32Const { value } => Some(Operator::Const(Value::F32(value))),
        WasmOperator::F64Const { value } => Some(Operator::Const(Value::F64(value))),
        WasmOperator::I32Eqz => Some(Operator::Eqz(Size::_32)),
        WasmOperator::I32Eq => Some(Operator::Eq(Type::Int(Size::_32))),
        WasmOperator::I32Ne => Some(Operator::Ne(Type::Int(Size::_32))),
        WasmOperator::I32LtS => Some(
            Operator::Lt(Type::Int(SignfulInt(Signedness::Signed, Size::_32))),
        ),
        WasmOperator::I32LtU => Some(
            Operator::Lt(Type::Int(SignfulInt(Signedness::Unsigned, Size::_32))),
        ),
        WasmOperator::I32GtS => Some(
            Operator::Gt(Type::Int(SignfulInt(Signedness::Signed, Size::_32))),
        ),
        WasmOperator::I32GtU => Some(
            Operator::Gt(Type::Int(SignfulInt(Signedness::Unsigned, Size::_32))),
        ),
        WasmOperator::I32LeS => Some(
            Operator::Le(Type::Int(SignfulInt(Signedness::Signed, Size::_32))),
        ),
        WasmOperator::I32LeU => Some(
            Operator::Le(Type::Int(SignfulInt(Signedness::Unsigned, Size::_32))),
        ),
        WasmOperator::I32GeS => Some(
            Operator::Ge(Type::Int(SignfulInt(Signedness::Signed, Size::_32))),
        ),
        WasmOperator::I32GeU => Some(
            Operator::Ge(Type::Int(SignfulInt(Signedness::Unsigned, Size::_32))),
        ),
        WasmOperator::I64Eqz => Some(Operator::Eqz(Size::_64)),
        WasmOperator::I64Eq => Some(Operator::Eq(Type::Int(Size::_64))),
        WasmOperator::I64Ne => Some(Operator::Ne(Type::Int(Size::_64))),
        WasmOperator::I64LtS => Some(
            Operator::Lt(Type::Int(SignfulInt(Signedness::Signed, Size::_64))),
        ),
        WasmOperator::I64LtU => Some(
            Operator::Lt(Type::Int(SignfulInt(Signedness::Unsigned, Size::_64))),
        ),
        WasmOperator::I64GtS => Some(
            Operator::Gt(Type::Int(SignfulInt(Signedness::Signed, Size::_64))),
        ),
        WasmOperator::I64GtU => Some(
            Operator::Gt(Type::Int(SignfulInt(Signedness::Unsigned, Size::_64))),
        ),
        WasmOperator::I64LeS => Some(
            Operator::Le(Type::Int(SignfulInt(Signedness::Signed, Size::_64))),
        ),
        WasmOperator::I64LeU => Some(
            Operator::Le(Type::Int(SignfulInt(Signedness::Unsigned, Size::_64))),
        ),
        WasmOperator::I64GeS => Some(
            Operator::Ge(Type::Int(SignfulInt(Signedness::Signed, Size::_64))),
        ),
        WasmOperator::I64GeU => Some(
            Operator::Ge(Type::Int(SignfulInt(Signedness::Unsigned, Size::_64))),
        ),
        WasmOperator::F32Eq => Some(Operator::Eq(Type::Float(Size::_32))),
        WasmOperator::F32Ne => Some(Operator::Ne(Type::Float(Size::_32))),
        WasmOperator::F32Lt => Some(Operator::Lt(Type::Float(Size::_32))),
        WasmOperator::F32Gt => Some(Operator::Gt(Type::Float(Size::_32))),
        WasmOperator::F32Le => Some(Operator::Le(Type::Float(Size::_32))),
        WasmOperator::F32Ge => Some(Operator::Ge(Type::Float(Size::_32))),
        WasmOperator::F64Eq => Some(Operator::Eq(Type::Float(Size::_64))),
        WasmOperator::F64Ne => Some(Operator::Ne(Type::Float(Size::_64))),
        WasmOperator::F64Lt => Some(Operator::Lt(Type::Float(Size::_64))),
        WasmOperator::F64Gt => Some(Operator::Gt(Type::Float(Size::_64))),
        WasmOperator::F64Le => Some(Operator::Le(Type::Float(Size::_64))),
        WasmOperator::F64Ge => Some(Operator::Ge(Type::Float(Size::_64))),
        WasmOperator::I32Clz => Some(Operator::Clz(Size::_32)),
        WasmOperator::I32Ctz => Some(Operator::Ctz(Size::_32)),
        WasmOperator::I32Popcnt => Some(Operator::Popcnt(Size::_32)),
        WasmOperator::I32Add => Some(Operator::Add(Type::Int(Size::_32))),
        WasmOperator::I32Sub => Some(Operator::Sub(Type::Int(Size::_32))),
        WasmOperator::I32Mul => Some(Operator::Mul(Type::Int(Size::_32))),
        WasmOperator::I32DivS => Some(
            Operator::Div(Type::Int(SignfulInt(Signedness::Signed, Size::_32))),
        ),
        WasmOperator::I32DivU => Some(
            Operator::Div(Type::Int(SignfulInt(Signedness::Unsigned, Size::_32))),
        ),
        WasmOperator::I32RemS => Some(Operator::Rem(SignfulInt(Signedness::Signed, Size::_32))),
        WasmOperator::I32RemU => Some(Operator::Rem(SignfulInt(Signedness::Unsigned, Size::_32))),
        WasmOperator::I32And => Some(Operator::And(Size::_32)),
        WasmOperator::I32Or => Some(Operator::Or(Size::_32)),
        WasmOperator::I32Xor => Some(Operator::Xor(Size::_32)),
        WasmOperator::I32Shl => Some(Operator::Shl(Size::_32)),
        WasmOperator::I32ShrS => Some(Operator::Shr(SignfulInt(Signedness::Signed, Size::_32))),
        WasmOperator::I32ShrU => Some(Operator::Shr(SignfulInt(Signedness::Unsigned, Size::_32))),
        WasmOperator::I32Rotl => Some(Operator::Rotl(Size::_32)),
        WasmOperator::I32Rotr => Some(Operator::Rotr(Size::_32)),
        WasmOperator::I64Clz => Some(Operator::Clz(Size::_64)),
        WasmOperator::I64Ctz => Some(Operator::Ctz(Size::_64)),
        WasmOperator::I64Popcnt => Some(Operator::Popcnt(Size::_64)),
        WasmOperator::I64Add => Some(Operator::Add(Type::Int(Size::_64))),
        WasmOperator::I64Sub => Some(Operator::Sub(Type::Int(Size::_64))),
        WasmOperator::I64Mul => Some(Operator::Mul(Type::Int(Size::_64))),
        WasmOperator::I64DivS => Some(
            Operator::Div(Type::Int(SignfulInt(Signedness::Signed, Size::_64))),
        ),
        WasmOperator::I64DivU => Some(
            Operator::Div(Type::Int(SignfulInt(Signedness::Unsigned, Size::_64))),
        ),
        WasmOperator::I64RemS => Some(Operator::Rem(SignfulInt(Signedness::Signed, Size::_64))),
        WasmOperator::I64RemU => Some(Operator::Rem(SignfulInt(Signedness::Unsigned, Size::_64))),
        WasmOperator::I64And => Some(Operator::And(Size::_64)),
        WasmOperator::I64Or => Some(Operator::Or(Size::_64)),
        WasmOperator::I64Xor => Some(Operator::Xor(Size::_64)),
        WasmOperator::I64Shl => Some(Operator::Shl(Size::_64)),
        WasmOperator::I64ShrS => Some(Operator::Shr(SignfulInt(Signedness::Signed, Size::_64))),
        WasmOperator::I64ShrU => Some(Operator::Shr(SignfulInt(Signedness::Unsigned, Size::_64))),
        WasmOperator::I64Rotl => Some(Operator::Rotl(Size::_64)),
        WasmOperator::I64Rotr => Some(Operator::Rotr(Size::_64)),
        WasmOperator::F32Abs => Some(Operator::Abs(Size::_32)),
        WasmOperator::F32Neg => Some(Operator::Neg(Size::_32)),
        WasmOperator::F32Ceil => Some(Operator::Ceil(Size::_32)),
        WasmOperator::F32Floor => Some(Operator::Floor(Size::_32)),
        WasmOperator::F32Trunc => Some(Operator::Trunc(Size::_32)),
        WasmOperator::F32Nearest => Some(Operator::Nearest(Size::_32)),
        WasmOperator::F32Sqrt => Some(Operator::Sqrt(Size::_32)),
        WasmOperator::F32Add => Some(Operator::Add(Type::Float(Size::_32))),
        WasmOperator::F32Sub => Some(Operator::Sub(Type::Float(Size::_32))),
        WasmOperator::F32Mul => Some(Operator::Mul(Type::Float(Size::_32))),
        WasmOperator::F32Div => Some(Operator::Div(Type::Float(Size::_32))),
        WasmOperator::F32Min => Some(Operator::Min(Size::_32)),
        WasmOperator::F32Max => Some(Operator::Max(Size::_32)),
        WasmOperator::F32Copysign => Some(Operator::Copysign(Size::_32)),
        WasmOperator::F64Abs => Some(Operator::Abs(Size::_64)),
        WasmOperator::F64Neg => Some(Operator::Neg(Size::_64)),
        WasmOperator::F64Ceil => Some(Operator::Ceil(Size::_64)),
        WasmOperator::F64Floor => Some(Operator::Floor(Size::_64)),
        WasmOperator::F64Trunc => Some(Operator::Trunc(Size::_64)),
        WasmOperator::F64Nearest => Some(Operator::Nearest(Size::_64)),
        WasmOperator::F64Sqrt => Some(Operator::Sqrt(Size::_64)),
        WasmOperator::F64Add => Some(Operator::Add(Type::Float(Size::_64))),
        WasmOperator::F64Sub => Some(Operator::Sub(Type::Float(Size::_64))),
        WasmOperator::F64Mul => Some(Operator::Mul(Type::Float(Size::_64))),
        WasmOperator::F64Div => Some(Operator::Div(Type::Float(Size::_64))),
        WasmOperator::F64Min => Some(Operator::Min(Size::_64)),
        WasmOperator::F64Max => Some(Operator::Max(Size::_64)),
        WasmOperator::F64Copysign => Some(Operator::Copysign(Size::_64)),
        WasmOperator::I32WrapI64 => Some(Operator::I32WrapFromI64),
        WasmOperator::I32TruncF32S => Some(
            Operator::ITruncFromF { input_ty: Size::_32, output_ty: SignfulInt(Signedness::Signed, Size::_32) },
        ),
        WasmOperator::I32TruncF32U => Some(
            Operator::ITruncFromF { input_ty: Size::_32, output_ty: SignfulInt(Signedness::Unsigned, Size::_32) },
        ),
        WasmOperator::I32TruncF64S => Some(
            Operator::ITruncFromF { input_ty: Size::_64, output_ty: SignfulInt(Signedness::Signed, Size::_32) },
        ),
        WasmOperator::I32TruncF64U => Some(
            Operator::ITruncFromF { input_ty: Size::_64, output_ty: SignfulInt(Signedness::Unsigned, Size::_32) },
        ),
        WasmOperator::I64ExtendI32S => Some(Operator::Extend32 { sign: Signedness::Signed }),
        WasmOperator::I64ExtendI32U => Some(Operator::Extend32 { sign: Signedness::Unsigned }),
        WasmOperator::I64TruncF32S => Some(
            Operator::ITruncFromF { input_ty: Size::_32, output_ty: SignfulInt(Signedness::Signed, Size::_64) },
        ),
        WasmOperator::I64TruncF32U => Some(
            Operator::ITruncFromF { input_ty: Size::_32, output_ty: SignfulInt(Signedness::Unsigned, Size::_64) },
        ),
        WasmOperator::I64TruncF64S => Some(
            Operator::ITruncFromF { input_ty: Size::_64, output_ty: SignfulInt(Signedness::Signed, Size::_64) },
        ),
        WasmOperator::I64TruncF64U => Some(
            Operator::ITruncFromF { input_ty: Size::_64, output_ty: SignfulInt(Signedness::Unsigned, Size::_64) },
        ),
        WasmOperator::F32ConvertI32S => Some(
            Operator::FConvertFromI { input_ty: SignfulInt(Signedness::Signed, Size::_32), output_ty: Size::_32 },
        ),
        WasmOperator::F32ConvertI32U => Some(
            Operator::FConvertFromI { input_ty: SignfulInt(Signedness::Unsigned, Size::_32), output_ty: Size::_32 },
        ),
        WasmOperator::F32ConvertI64S => Some(
            Operator::FConvertFromI { input_ty: SignfulInt(Signedness::Signed, Size::_64), output_ty: Size::_32 },
        ),
        WasmOperator::F32ConvertI64U => Some(
            Operator::FConvertFromI { input_ty: SignfulInt(Signedness::Unsigned, Size::_64), output_ty: Size::_32 },
        ),
        WasmOperator::F32DemoteF64 => Some(Operator::F32DemoteFromF64),
        WasmOperator::F64ConvertI32S => Some(
            Operator::FConvertFromI { input_ty: SignfulInt(Signedness::Signed, Size::_32), output_ty: Size::_64 },
        ),
        WasmOperator::F64ConvertI32U => Some(
            Operator::FConvertFromI { input_ty: SignfulInt(Signedness::Unsigned, Size::_32), output_ty: Size::_64 },
        ),
        WasmOperator::F64ConvertI64S => Some(
            Operator::FConvertFromI { input_ty: SignfulInt(Signedness::Signed, Size::_64), output_ty: Size::_64 },
        ),
        WasmOperator::F64ConvertI64U => Some(
            Operator::FConvertFromI { input_ty: SignfulInt(Signedness::Unsigned, Size::_64), output_ty: Size::_64 },
        ),
        WasmOperator::F64PromoteF32 => Some(Operator::F64PromoteFromF32),
        WasmOperator::I32ReinterpretF32 => Some(Operator::I32ReinterpretFromF32),
        WasmOperator::I64ReinterpretF64 => Some(Operator::I64ReinterpretFromF64),
        WasmOperator::F32ReinterpretI32 => Some(Operator::F32ReinterpretFromI32),
        WasmOperator::F64ReinterpretI64 => Some(Operator::F64ReinterpretFromI64),
        WasmOperator::I32Extend8S => Some(Operator::Extend8 { size: Size::_32 }),
        WasmOperator::I32Extend16S => Some(Operator::Extend16 { size: Size::_32 }),
        WasmOperator::I64Extend8S => Some(Operator::Extend8 { size: Size::_64 }),
        WasmOperator::I64Extend16S => Some(Operator::Extend16 { size: Size::_64 }),
        WasmOperator::I64Extend32S => Some(Operator::Extend32 { sign: Signedness::Signed }),
        _ => None,
    }
}

/// The operator of the flat form that `op` lowers to, where it lowers to
/// exactly one.
pub fn plain(op: &WasmOperator) -> (r: Option<Operator<WasmLabel>>)
    ensures
        r == spec_plain(*op),
{
    match op {
        WasmOperator::Call { function_index } => Some(Operator::Call { function_index: *function_index }),
        WasmOperator::CallIndirect { index, table_index } => Some(
            Operator::CallIndirect { type_index: *index, table_index: *table_index },
        ),
        WasmOperator::GlobalGet { global_index } => Some(Operator::GlobalGet(*global_index)),
        WasmOperator::GlobalSet { global_index } => Some(Operator::GlobalSet(*global_index)),
        WasmOperator::Drop => Some(Operator::Drop(DropRange { start: 0, end: 0 })),
        WasmOperator::Select => Some(Operator::Select),
        WasmOperator::I32Load { memarg } => Some(
            Operator::Load { ty: Type::Int(Size::_32), memarg: *memarg },
        ),
        WasmOperator::I64Load { memarg } => Some(
            Operator::Load { ty: Type::Int(Size::_64), memarg: *memarg },
        ),
        WasmOperator::F32Load { memarg } => Some(
            Operator::Load { ty: Type::Float(Size::_32), memarg: *memarg },
        ),
        WasmOperator::F64Load { memarg } => Some(
            Operator::Load { ty: Type::Float(Size::_64), memarg: *memarg },
        ),
        WasmOperator::I32Load8S { memarg } => Some(
            Operator::Load8 { ty: SignfulInt(Signedness::Signed, Size::_32), memarg: *memarg },
        ),
        WasmOperator::I32Load8U { memarg } => Some(
            Operator::Load8 { ty: SignfulInt(Signedness::Unsigned, Size::_32), memarg: *memarg },
        ),
        WasmOperator::I32Load16S { memarg } => Some(
            Operator::Load16 { ty: SignfulInt(Signedness::Signed, Size::_32), memarg: *memarg },
        ),
        WasmOperator::I32Load16U { memarg } => Some(
            Operator::Load16 { ty: SignfulInt(Signedness::Unsigned, Size::_32), memarg: *memarg },
        ),
        WasmOperator::I64Load8S { memarg } => Some(
            Operator::Load8 { ty: SignfulInt(Signedness::Signed, Size::_64), memarg: *memarg },
        ),
        WasmOperator::I64Load8U { memarg } => Some(
            Operator::Load8 { ty: SignfulInt(Signedness::Unsigned, Size::_64), memarg: *memarg },
        ),
        WasmOperator::I64Load16S { memarg } => Some(
            Operator::Load16 { ty: SignfulInt(Signedness::Signed, Size::_64), memarg: *memarg },
        ),
        WasmOperator::I64Load16U { memarg } => Some(
            Operator::Load16 { ty: SignfulInt(Signedness::Unsigned, Size::_64), memarg: *memarg },
        ),
        WasmOperator::I64Load32S { memarg } => Some(
            Operator::Load32 { sign: Signedness::Signed, memarg: *memarg },
        ),
        WasmOperator::I64Load32U { memarg } => Some(
            Operator::Load32 { sign: Signedness::Unsigned, memarg: *memarg },
        ),
        WasmOperator::I32Store { memarg } => Some(
            Operator::Store { ty: Type::Int(Size::_32), memarg: *memarg },
        ),
        WasmOperator::I64Store { memarg } => Some(
            Operator::Store { ty: Type::Int(Size::_64), memarg: *memarg },
        ),
        WasmOperator::F32Store { memarg } => Some(
            Operator::Store { ty: Type::Float(Size::_32), memarg: *memarg },
        ),
        WasmOperator::F64Store { memarg } => Some(
            Operator::Store { ty: Type::Float(Size::_64), memarg: *memarg },
        ),
        WasmOperator::I32Store8 { memarg } => Some(
            Operator::Store8 { ty: Size::_32, memarg: *memarg },
        ),
        WasmOperator::I32Store16 { memarg } => Some(
            Operator::Store16 { ty: Size::_32, memarg: *memarg },
        ),
        WasmOperator::I64Store8 { memarg } => Some(
            Operator::Store8 { ty: Size::_64, memarg: *memarg },
        ),
        WasmOperator::I64Store16 { memarg } => Some(
            Operator::Store16 { ty: Size::_64, memarg: *memarg },
        ),
        WasmOperator::I64Store32 { memarg } => Some(Operator::Store32 { memarg: *memarg }),
        WasmOperator::MemorySize { reserved } => Some(Operator::MemorySize { reserved: *reserved }),
        WasmOperator::MemoryGrow { reserved } => Some(Operator::MemoryGrow { reserved: *reserved }),
        WasmOperator::I32Const { value } => Some(Operator::Const(Value::I32(*value))),
        WasmOperator::I64Const { value } => Some(Operator::Const(Value::I64(*value))),
        WasmOperator::F32Const { value } => Some(Operator::Const(Value::F32(*value))),
        WasmOperator::F64Const { value } => Some(Operator::Const(Value::F64(*value))),
        WasmOperator::I32Eqz => Some(Operator::Eqz(Size::_32)),
        WasmOperator::I32Eq => Some(Operator::Eq(Type::Int(Size::_32))),
        WasmOperator::I32Ne => Some(Operator::Ne(Type::Int(Size::_32))),
        WasmOperator::I32LtS => Some(
            Operator::Lt(Type::Int(SignfulInt(Signedness::Signed, Size::_32))),
        ),
        WasmOperator::I32LtU => Some(
            Operator::Lt(Type::Int(SignfulInt(Signedness::Unsigned, Size::_32))),
        ),
        WasmOperator::I32GtS => Some(
            Operator::Gt(Type::Int(SignfulInt(Signedness::Signed, Size::_32))),
        ),
        WasmOperator::I32GtU => Some(
            Operator::Gt(Type::Int(SignfulInt(Signedness::Unsigned, Size::_32))),
        ),
        WasmOperator::I32LeS => Some(
            Operator::Le(Type::Int(SignfulInt(Signedness::Signed, Size::_32))),
        ),
        WasmOperator::I32LeU => Some(
            Operator::Le(Type::Int(SignfulInt(Signedness::Unsigned, Size::_32))),
        ),
        WasmOperator::I32GeS => Some(
            Operator::Ge(Type::Int(SignfulInt(Signedness::Signed, Size::_32))),
        ),
        WasmOperator::I32GeU => Some(
            Operator::Ge(Type::Int(SignfulInt(Signedness::Unsigned, Size::_32))),
        ),
        WasmOperator::I64Eqz => Some(Operator::Eqz(Size::_64)),
        WasmOperator::I64Eq => Some(Operator::Eq(Type::Int(Size::_64))),
        WasmOperator::I64Ne => Some(Operator::Ne(Type::Int(Size::_64))),
        WasmOperator::I64LtS => Some(
            Operator::Lt(Type::Int(SignfulInt(Signedness::Signed, Size::_64))),
        ),
        WasmOperator::I64LtU => Some(
            Operator::Lt(Type::Int(SignfulInt(Signedness::Unsigned, Size::_64))),
        ),
        WasmOperator::I64GtS => Some(
            Operator::Gt(Type::Int(SignfulInt(Signedness::Signed, Size::_64))),
        ),
        WasmOperator::I64GtU => Some(
            Operator::Gt(Type::Int(SignfulInt(Signedness::Unsigned, Size::_64))),
        ),
        WasmOperator::I64LeS => Some(
            Operator::Le(Type::Int(SignfulInt(Signedness::Signed, Size::_64))),
        ),
        WasmOperator::I64LeU => Some(
            Operator::Le(Type::Int(SignfulInt(Signedness::Unsigned, Size::_64))),
        ),
        WasmOperator::I64GeS => Some(
            Operator::Ge(Type::Int(SignfulInt(Signedness::Signed, Size::_64))),
        ),
        WasmOperator::I64GeU => Some(
            Operator::Ge(Type::Int(SignfulInt(Signedness::Unsigned, Size::_64))),
        ),
        WasmOperator::F32Eq => Some(Operator::Eq(Type::Float(Size::_32))),
        WasmOperator::F32Ne => Some(Operator::Ne(Type::Float(Size::_32))),
        WasmOperator::F32Lt => Some(Operator::Lt(Type::Float(Size::_32))),
        WasmOperator::F32Gt => Some(Operator::Gt(Type::Float(Size::_32))),
        WasmOperator::F32Le => Some(Operator::Le(Type::Float(Size::_32))),
        WasmOperator::F32Ge => Some(Operator::Ge(Type::Float(Size::_32))),
        WasmOperator::F64Eq => Some(Operator::Eq(Type::Float(Size::_64))),
        WasmOperator::F64Ne => Some(Operator::Ne(Type::Float(Size::_64))),
        WasmOperator::F64Lt => Some(Operator::Lt(Type::Float(Size::_64))),
        WasmOperator::F64Gt => Some(Operator::Gt(Type::Float(Size::_64))),
        WasmOperator::F64Le => Some(Operator::Le(Type::Float(Size::_64))),
        WasmOperator::F64Ge => Some(Operator::Ge(Type::Float(Size::_64))),
        WasmOperator::I32Clz => Some(Operator::Clz(Size::_32)),
        WasmOperator::I32Ctz => Some(Operator::Ctz(Size::_32)),
        WasmOperator::I32Popcnt => Some(Operator::Popcnt(Size::_32)),
        WasmOperator::I32Add => Some(Operator::Add(Type::Int(Size::_32))),
        WasmOperator::I32Sub => Some(Operator::Sub(Type::Int(Size::_32))),
        WasmOperator::I32Mul => Some(Operator::Mul(Type::Int(Size::_32))),
        WasmOperator::I32DivS => Some(
            Operator::Div(Type::Int(SignfulInt(Signedness::Signed, Size::_32))),
        ),
        WasmOperator::I32DivU => Some(
            Operator::Div(Type::Int(SignfulInt(Signedness::Unsigned, Size::_32))),
        ),
        WasmOperator::I32RemS => Some(Operator::Rem(SignfulInt(Signedness::Signed, Size::_32))),
        WasmOperator::I32RemU => Some(Operator::Rem(SignfulInt(Signedness::Unsigned, Size::_32))),
        WasmOperator::I32And => Some(Operator::And(Size::_32)),
        WasmOperator::I32Or => Some(Operator::Or(Size::_32)),
        WasmOperator::I32Xor => Some(Operator::Xor(Size::_32)),
        WasmOperator::I32Shl => Some(Operator::Shl(Size::_32)),
        WasmOperator::I32ShrS => Some(Operator::Shr(SignfulInt(Signedness::Signed, Size::_32))),
        WasmOperator::I32ShrU => Some(Operator::Shr(SignfulInt(Signedness::Unsigned, Size::_32))),
        WasmOperator::I32Rotl => Some(Operator::Rotl(Size::_32)),
        WasmOperator::I32Rotr => Some(Operator::Rotr(Size::_32)),
        WasmOperator::I64Clz => Some(Operator::Clz(Size::_64)),
        WasmOperator::I64Ctz => Some(Operator::Ctz(Size::_64)),
        WasmOperator::I64Popcnt => Some(Operator::Popcnt(Size::_64)),
        WasmOperator::I64Add => Some(Operator::Add(Type::Int(Size::_64))),
        WasmOperator::I64Sub => Some(Operator::Sub(Type::Int(Size::_64))),
        WasmOperator::I64Mul => Some(Operator::Mul(Type::Int(Size::_64))),
        WasmOperator::I64DivS => Some(
            Operator::Div(Type::Int(SignfulInt(Signedness::Signed, Size::_64))),
        ),
        WasmOperator::I64DivU => Some(
            Operator::Div(Type::Int(SignfulInt(Signedness::Unsigned, Size::_64))),
        ),
        WasmOperator::I64RemS => Some(Operator::Rem(SignfulInt(Signedness::Signed, Size::_64))),
        WasmOperator::I64RemU => Some(Operator::Rem(SignfulInt(Signedness::Unsigned, Size::_64))),
        WasmOperator::I64And => Some(Operator::And(Size::_64)),
        WasmOperator::I64Or => Some(Operator::Or(Size::_64)),
        WasmOperator::I64Xor => Some(Operator::Xor(Size::_64)),
        WasmOperator::I64Shl => Some(Operator::Shl(Size::_64)),
        WasmOperator::I64ShrS => Some(Operator::Shr(SignfulInt(Signedness::Signed, Size::_64))),
        WasmOperator::I64ShrU => Some(Operator::Shr(SignfulInt(Signedness::Unsigned, Size::_64))),
        WasmOperator::I64Rotl => Some(Operator::Rotl(Size::_64)),
        WasmOperator::I64Rotr => Some(Operator::Rotr(Size::_64)),
        WasmOperator::F32Abs => Some(Operator::Abs(Size::_32)),
        WasmOperator::F32Neg => Some(Operator::Neg(Size::_32)),
        WasmOperator::F32Ceil => Some(Operator::Ceil(Size::_32)),
        WasmOperator::F32Floor => Some(Operator::Floor(Size::_32)),
        WasmOperator::F32Trunc => Some(Operator::Trunc(Size::_32)),
        WasmOperator::F32Nearest => Some(Operator::Nearest(Size::_32)),
        WasmOperator::F32Sqrt => Some(Operator::Sqrt(Size::_32)),
        WasmOperator::F32Add => Some(Operator::Add(Type::Float(Size::_32))),
        WasmOperator::F32Sub => Some(Operator::Sub(Type::Float(Size::_32))),
        WasmOperator::F32Mul => Some(Operator::Mul(Type::Float(Size::_32))),
        WasmOperator::F32Div => Some(Operator::Div(Type::Float(Size::_32))),
        WasmOperator::F32Min => Some(Operator::Min(Size::_32)),
        WasmOperator::F32Max => Some(Operator::Max(Size::_32)),
        WasmOperator::F32Copysign => Some(Operator::Copysign(Size::_32)),
        WasmOperator::F64Abs => Some(Operator::Abs(Size::_64)),
        WasmOperator::F64Neg => Some(Operator::Neg(Size::_64)),
        WasmOperator::F64Ceil => Some(Operator::Ceil(Size::_64)),
        WasmOperator::F64Floor => Some(Operator::Floor(Size::_64)),
        WasmOperator::F64Trunc => Some(Operator::Trunc(Size::_64)),
        WasmOperator::F64Nearest => Some(Operator::Nearest(Size::_64)),
        WasmOperator::F64Sqrt => Some(Operator::Sqrt(Size::_64)),
        WasmOperator::F64Add => Some(Operator::Add(Type::Float(Size::_64))),
        WasmOperator::F64Sub => Some(Operator::Sub(Type::Float(Size::_64))),
        WasmOperator::F64Mul => Some(Operator::Mul(Type::Float(Size::_64))),
        WasmOperator::F64Div => Some(Operator::Div(Type::Float(Size::_64))),
        WasmOperator::F64Min => Some(Operator::Min(Size::_64)),
        WasmOperator::F64Max => Some(Operator::Max(Size::_64)),
        WasmOperator::F64Copysign => Some(Operator::Copysign(Size::_64)),
        WasmOperator::I32WrapI64 => Some(Operator::I32WrapFromI64),
        WasmOperator::I32TruncF32S => Some(
            Operator::ITruncFromF { input_ty: Size::_32, output_ty: SignfulInt(Signedness::Signed, Size::_32) },
        ),
        WasmOperator::I32TruncF32U => Some(
            Operator::ITruncFromF { input_ty: Size::_32, output_ty: SignfulInt(Signedness::Unsigned, Size::_32) },
        ),
        WasmOperator::I32TruncF64S => Some(
            Operator::ITruncFromF { input_ty: Size::_64, output_ty: SignfulInt(Signedness::Signed, Size::_32) },
        ),
        WasmOperator::I32TruncF64U => Some(
            Operator::ITruncFromF { input_ty: Size::_64, output_ty: SignfulInt(Signedness::Unsigned, Size::_32) },
        ),
        WasmOperator::I64ExtendI32S => Some(Operator::Extend32 { sign: Signedness::Signed }),
        WasmOperator::I64ExtendI32U => Some(Operator::Extend32 { sign: Signedness::Unsigned }),
        WasmOperator::I64TruncF32S => Some(
            Operator::ITruncFromF { input_ty: Size::_32, output_ty: SignfulInt(Signedness::Signed, Size::_64) },
        ),
        WasmOperator::I64TruncF32U => Some(
            Operator::ITruncFromF { input_ty: Size::_32, output_ty: SignfulInt(Signedness::Unsigned, Size::_64) },
        ),
        WasmOperator::I64TruncF64S => Some(
            Operator::ITruncFromF { input_ty: Size::_64, output_ty: SignfulInt(Signedness::Signed, Size::_64) },
        ),
        WasmOperator::I64TruncF64U => Some(
            Operator::ITruncFromF { input_ty: Size::_64, output_ty: SignfulInt(Signedness::Unsigned, Size::_64) },
        ),
        WasmOperator::F32ConvertI32S => Some(
            Operator::FConvertFromI { input_ty: SignfulInt(Signedness::Signed, Size::_32), output_ty: Size::_32 },
        ),
        WasmOperator::F32ConvertI32U => Some(
            Operator::FConvertFromI { input_ty: SignfulInt(Signedness::Unsigned, Size::_32), output_ty: Size::_32 },
        ),
        WasmOperator::F32ConvertI64S => Some(
            Operator::FConvertFromI { input_ty: SignfulInt(Signedness::Signed, Size::_64), output_ty: Size::_32 },
        ),
        WasmOperator::F32ConvertI64U => Some(
            Operator::FConvertFromI { input_ty: SignfulInt(Signedness::Unsigned, Size::_64), output_ty: Size::_32 },
        ),
        WasmOperator::F32DemoteF64 => Some(Operator::F32DemoteFromF64),
        WasmOperator::F64ConvertI32S => Some(
            Operator::FConvertFromI { input_ty: SignfulInt(Signedness::Signed, Size::_32), output_ty: Size::_64 },
        ),
        WasmOperator::F64ConvertI32U => Some(
            Operator::FConvertFromI { input_ty: SignfulInt(Signedness::Unsigned, Size::_32), output_ty: Size::_64 },
        ),
        WasmOperator::F64ConvertI64S => Some(
            Operator::FConvertFromI { input_ty: SignfulInt(Signedness::Signed, Size::_64), output_ty: Size::_64 },
        ),
        WasmOperator::F64ConvertI64U => Some(
            Operator::FConvertFromI { input_ty: SignfulInt(Signedness::Unsigned, Size::_64), output_ty: Size::_64 },
        ),
        WasmOperator::F64PromoteF32 => Some(Operator::F64PromoteFromF32),
        WasmOperator::I32ReinterpretF32 => Some(Operator::I32ReinterpretFromF32),
        WasmOperator::I64ReinterpretF64 => Some(Operator::I64ReinterpretFromF64),
        WasmOperator::F32ReinterpretI32 => Some(Operator::F32ReinterpretFromI32),
        WasmOperator::F64ReinterpretI64 => Some(Operator::F64ReinterpretFromI64),
        WasmOperator::I32Extend8S => Some(Operator::Extend8 { size: Size::_32 }),
        WasmOperator::I32Extend16S => Some(Operator::Extend16 { size: Size::_32 }),
        WasmOperator::I64Extend8S => Some(Operator::Extend8 { size: Size::_64 }),
        WasmOperator::I64Extend16S => Some(Operator::Extend16 { size: Size::_64 }),
        WasmOperator::I64Extend32S => Some(Operator::Extend32 { sign: Signedness::Signed }),
        _ => None,
    }
}

} // verus!
