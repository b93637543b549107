//! Wasm operators and types as plain values, as lowering reads them.

use crate::error::{Error, ErrorKind};
use crate::operator::{MemoryImmediate, WithLoc};
use crate::types::{Ieee32, Ieee64, SignlessType, Size, Type};
use vstd::prelude::*;

verus! {

/// A type as the Wasm binary format names it.
#[derive(Debug, Copy, Clone, PartialEq, Eq, Structural)]
pub enum WasmType {
    I32,
    I64,
    F32,
    F64,
    V128,
    FuncRef,
    ExternRef,
    Func,
    EmptyBlockType,
}

/// The type of a structured block: at most one result, or a function type of the module.
#[derive(Debug, Copy, Clone, PartialEq, Eq, Structural)]
pub enum TypeOrFuncType {
    Type(WasmType),
    FuncType(u32),
}

impl Type<Size> {
    /// The result type of a block: `None` for the empty block type.
    pub open spec fn spec_from_wasm_block(other: WasmType) -> Option<Option<SignlessType>> {
        match other {
            WasmType::I32 => Some(Some(Type::Int(Size::_32))),
            WasmType::I64 => Some(Some(Type::Int(Size::_64))),
            WasmType::F32 => Some(Some(Type::Float(Size::_32))),
            WasmType::F64 => Some(Some(Type::Float(Size::_64))),
            WasmType::EmptyBlockType => Some(None),
            _ => None,
        }
    }

    /// The ground type that a Wasm value type names.
    pub open spec fn spec_from_wasm(other: WasmType) -> Option<SignlessType> {
        match Self::spec_from_wasm_block(other) {
            Some(Some(v)) => Some(v),
            _ => None,
        }
    }

    /// The result type of a block of type `other`; an error of kind `Input`
    /// for a type that is neither a number type nor the empty block type.
    pub fn from_wasm_block(other: WasmType) -> (r: Result<Option<Self>, Error>)
        ensures
            match Self::spec_from_wasm_block(other) {
                Some(ty) => r == Ok::<Option<Self>, Error>(ty),
                None => r matches Err(e) && e.spec_kind() == ErrorKind::Input && e.spec_message()
                    == "Invalid type"@,
            },
    {
        match other {
            WasmType::I32 => Ok(Some(Type::Int(Size::_32))),
            WasmType::I64 => Ok(Some(Type::Int(Size::_64))),
            WasmType::F32 => Ok(Some(Type::Float(Size::_32))),
            WasmType::F64 => Ok(Some(Type::Float(Size::_64))),
            WasmType::EmptyBlockType => Ok(None),
            _ => Err(Error::input("Invalid type")),
        }
    }

    /// The ground type that `other` names; an error of kind `Input` for
    /// anything but the four number types.
    pub fn from_wasm(other: WasmType) -> (r: Result<Self, Error>)
        ensures
            match Self::spec_from_wasm(other) {
                Some(ty) => r == Ok::<Self, Error>(ty),
                None => r matches Err(e) && e.spec_kind() == ErrorKind::Input && e.spec_message()
                    == "Invalid type"@,
            },
    {
        match Self::from_wasm_block(other) {
            Ok(Some(v)) => Ok(v),
            Ok(None) => Err(Error::input("Invalid type")),
            Err(e) => Err(e),
        }
    }
}

/// The targets of a `br_table`, as relative depths.
#[derive(Debug, Clone, PartialEq, Eq)]
pub struct BrTable {
    pub targets: Vec<u32>,
    pub default: u32,
    /// Why the table could not be read, if it could not; the targets then
    /// count for nothing.
    pub error: Option<Error>,
}

/// One Wasm operator with its immediates.
#[allow(inconsistent_fields)]
#[derive(Debug, Clone, PartialEq, Eq)]
pub enum WasmOperator {
    Unreachable,
    Nop,
    Block { ty: TypeOrFuncType },
    Loop { ty: TypeOrFuncType },
    If { ty: TypeOrFuncType },
    Else,
    End,
    Br { relative_depth: u32 },
    BrIf { relative_depth: u32 },
    BrTable { table: BrTable },
    Return,
    Call { function_index: u32 },
    CallIndirect { index: u32, table_index: u32 },
    Drop,
    Select,
    LocalGet { local_index: u32 },
    LocalSet { local_index: u32 },
    LocalTee { local_index: u32 },
    GlobalGet { global_index: u32 },
    GlobalSet { global_index: u32 },
    I32Load { memarg: MemoryImmediate },
    I64Load { memarg: MemoryImmediate },
    F32Load { memarg: MemoryImmediate },
    F64Load { memarg: MemoryImmediate },
    I32Load8S { memarg: MemoryImmediate },
    I32Load8U { memarg: MemoryImmediate },
    I32Load16S { memarg: MemoryImmediate },
    I32Load16U { memarg: MemoryImmediate },
    I64Load8S { memarg: MemoryImmediate },
    I64Load8U { memarg: MemoryImmediate },
    I64Load16S { memarg: MemoryImmediate },
    I64Load16U { memarg: MemoryImmediate },
    I64Load32S { memarg: MemoryImmediate },
    I64Load32U { memarg: MemoryImmediate },
    I32Store { memarg: MemoryImmediate },
    I64Store { memarg: MemoryImmediate },
    F32Store { memarg: MemoryImmediate },
    F64Store { memarg: MemoryImmediate },
    I32Store8 { memarg: MemoryImmediate },
    I32Store16 { memarg: MemoryImmediate },
    I64Store8 { memarg: MemoryImmediate },
    I64Store16 { memarg: MemoryImmediate },
    I64Store32 { memarg: MemoryImmediate },
    MemorySize { reserved: u32 },
    MemoryGrow { reserved: u32 },
    I32Const { value: i32 },
    I64Const { value: i64 },
    F32Const { value: Ieee32 },
    F64Const { value: Ieee64 },
    I32Eqz,
    I32Eq,
    I32Ne,
    I32LtS,
    I32LtU,
    I32GtS,
    I32GtU,
    I32LeS,
    I32LeU,
    I32GeS,
    I32GeU,
    I64Eqz,
    I64Eq,
    I64Ne,
    I64LtS,
    I64LtU,
    I64GtS,
    I64GtU,
    I64LeS,
    I64LeU,
    I64GeS,
    I64GeU,
    F32Eq,
    F32Ne,
    F32Lt,
    F32Gt,
    F32Le,
    F32Ge,
    F64Eq,
    F64Ne,
    F64Lt,
    F64Gt,
    F64Le,
    F64Ge,
    I32Clz,
    I32Ctz,
    I32Popcnt,
    I32Add,
    I32Sub,
    I32Mul,
    I32DivS,
    I32DivU,
    I32RemS,
    I32RemU,
    I32And,
    I32Or,
    I32Xor,
    I32Shl,
    I32ShrS,
    I32ShrU,
    I32Rotl,
    I32Rotr,
    I64Clz,
    I64Ctz,
    I64Popcnt,
    I64Add,
    I64Sub,
    I64Mul,
    I64DivS,
    I64DivU,
    I64RemS,
    I64RemU,
    I64And,
    I64Or,
    I64Xor,
    I64Shl,
    I64ShrS,
    I64ShrU,
    I64Rotl,
    I64Rotr,
    F32Abs,
    F32Neg,
    F32Ceil,
    F32Floor,
    F32Trunc,
    F32Nearest,
    F32Sqrt,
    F32Add,
    F32Sub,
    F32Mul,
    F32Div,
    F32Min,
    F32Max,
    F32Copysign,
    F64Abs,
    F64Neg,
    F64Ceil,
    F64Floor,
    F64Trunc,
    F64Nearest,
    F64Sqrt,
    F64Add,
    F64Sub,
    F64Mul,
    F64Div,
    F64Min,
    F64Max,
    F64Copysign,
    I32WrapI64,
    I32TruncF32S,
    I32TruncF32U,
    I32TruncF64S,
    I32TruncF64U,
    I64ExtendI32S,
    I64ExtendI32U,
    I64TruncF32S,
    I64TruncF32U,
    I64TruncF64S,
    I64TruncF64U,
    F32ConvertI32S,
    F32ConvertI32U,
    F32ConvertI64S,
    F32ConvertI64U,
    F32DemoteF64,
    F64ConvertI32S,
    F64ConvertI32U,
    F64ConvertI64S,
    F64ConvertI64U,
    F64PromoteF32,
    I32ReinterpretF32,
    I64ReinterpretF64,
    F32ReinterpretI32,
    F64ReinterpretI64,
    I32Extend8S,
    I32Extend16S,
    I64Extend8S,
    I64Extend16S,
    I64Extend32S,
    /// Any operator that lowering does not take, with its name for the error message.
    Unsupported(String),
}

/// The body of one function: its local declarations and its operators, read
/// as far as they could be read.
#[derive(Debug, Clone, PartialEq, Eq)]
pub struct FunctionBody {
    /// The local declarations, each a count and a type, up to the first that
    /// could not be read.
    pub locals: Vec<(u32, WasmType)>,
    /// Why the declaration after `locals` could not be read, if one could not:
    /// lowering fails with the message of this error.
    pub locals_error: Option<Error>,
    /// The operators up to the first that could not be read, each with its
    /// offset in the module.
    pub operators: Vec<WithLoc<WasmOperator>>,
    /// What reading the operator after `operators` gave: the end of the body
    /// is such an error too.
    pub operators_error: Error,
}

} // verus!
