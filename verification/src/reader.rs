//! Reading the body of a function with `wasmparser`, into the plain values
//! that lowering works on.
//!
//! The library hands `wasmparser` the bytes of the body and a position in
//! them, and takes back plain values: what was read there, and where reading
//! ended. What `wasmparser` reads is not described here. Each of its readings
//! has a name, and the contracts of this module say over those names what
//! the library makes of them.

use crate::error::{Error, Failure};
use crate::operator::{MemoryImmediate, SourceLoc, WithLoc};
use crate::text::{decimal, decimal_text};
use crate::types::{Ieee32, Ieee64};
use crate::wasm::{BrTable, FunctionBody, TypeOrFuncType, WasmOperator, WasmType};
use vstd::prelude::*;
use vstd::slice::slice_subrange;
use vstd::string::StringExecFns;
use wasmparser::{
    BinaryReader, FunctionBody as ParsedBody, Operator as ParsedOperator, Type as ParsedType,
    TypeOrFuncType as ParsedBlockType,
};

verus! {

/// Why a reading failed: the offset in the module at which it failed, and the
/// reason in words.
pub type Fault = (usize, Seq<char>);

/// The reading `r`, with the words of its failure as a sequence of characters.
pub open spec fn reading<T>(r: Result<T, (usize, String)>) -> Result<T, Fault> {
    match r {
        Ok(v) => Ok(v),
        Err((offset, why)) => Err((offset, why@)),
    }
}

/// How many local declarations the body `data` has, which stands at `offset`
/// in its module, and the offset in the module at which the first of them
/// stands; a name for what the wrapper `locals_start` returns.
pub uninterp spec fn parsed_locals_start(offset: usize, data: Seq<u8>) -> Result<(u32, usize), Fault>;

/// How many local declarations the body `data` has, and the offset at which
/// the first stands: `FunctionBody::get_locals_reader` of `wasmparser`, then
/// `LocalsReader::get_count` and `LocalsReader::original_position`; or the
/// offset and the message of the reader's error. The reader adds positions in
/// the body to `offset`, so the end of the body has to be an offset too. The
/// result is a function of the arguments, and has the name
/// `parsed_locals_start`. The offset that is returned lies in the body: the
/// reader's position never passes the end of its bytes.
#[verifier::external_body]
fn locals_start(offset: usize, data: &[u8]) -> (r: Result<(u32, usize), (usize, String)>)
    requires
        offset + data@.len() <= usize::MAX,
    ensures
        reading(r) == parsed_locals_start(offset, data@),
        r matches Ok((_, at)) ==> offset <= at <= offset + data@.len(),
{
    match ParsedBody::new(offset, data).get_locals_reader() {
        Ok(reader) => Ok((reader.get_count(), reader.original_position())),
        Err(e) => Err((e.offset(), e.message().to_string())),
    }
}

/// The offset in the module at which the operators of the body `data` begin,
/// which stands at `offset` in its module; a name for what the wrapper
/// `operators_start` returns.
pub uninterp spec fn parsed_operators_start(offset: usize, data: Seq<u8>) -> Result<usize, Fault>;

/// Where the operators of the body `data` begin:
/// `FunctionBody::get_operators_reader` of `wasmparser`, which skips the local
/// declarations, then `OperatorsReader::original_position`; or the offset and
/// the message of the reader's error. The result is a function of the
/// arguments, and has the name `parsed_operators_start`. The offset that is
/// returned lies in the body: the reader is made of the bytes from there on.
#[verifier::external_body]
fn operators_start(offset: usize, data: &[u8]) -> (r: Result<usize, (usize, String)>)
    requires
        offset + data@.len() <= usize::MAX,
    ensures
        reading(r) == parsed_operators_start(offset, data@),
        r matches Ok(at) ==> offset <= at <= offset + data@.len(),
{
    match ParsedBody::new(offset, data).get_operators_reader() {
        Ok(reader) => Ok(reader.original_position()),
        Err(e) => Err((e.offset(), e.message().to_string())),
    }
}

/// The local declaration that stands at `position` in `data`: how many
/// locals it declares, their type, and the position at which it ends; a name
/// for what the wrappers `local` and `local_type` return of it.
pub uninterp spec fn parsed_local(offset: usize, data: Seq<u8>, position: usize) -> Result<
    (u32, WasmType, usize),
    Fault,
>;

/// The local declaration at `position` in `data`, as `LocalsReader::read` of
/// `wasmparser` reads it, with `BinaryReader::read_var_u32` and then
/// `BinaryReader::read_type`: how many locals it declares and the position at
/// which it ends, or the offset and the message of the first error. The result
/// is that part of `parsed_local`. The declaration ends after `position` and
/// in `data`: the count takes a byte at least, and the reader's position never
/// passes the end of its bytes.
#[verifier::external_body]
fn local(offset: usize, data: &[u8], position: usize) -> (r: Result<(u32, usize), (usize, String)>)
    requires
        offset + data@.len() <= usize::MAX,
        position <= data@.len(),
    ensures
        reading(r) == match parsed_local(offset, data@, position) {
            Ok((count, _, end)) => Ok((count, end)),
            Err(fault) => Err(fault),
        },
        r matches Ok((_, end)) ==> position < end <= data@.len(),
{
    let mut reader = BinaryReader::new_with_offset(data, offset);
    let count = reader.skip_bytes(position).and(reader.read_var_u32());
    match (count, reader.read_type()) {
        (Ok(count), Ok(_)) => Ok((count, reader.current_position())),
        (Err(e), _) | (_, Err(e)) => Err((e.offset(), e.message().to_string())),
    }
}

/// The type of the local declaration at `position` in `data`, read as in
/// `local`: each variant of `wasmparser::Type` goes to the variant of the same
/// name; `None` where the declaration cannot be read. The result is that part
/// of `parsed_local`.
#[verifier::external_body]
fn local_type(offset: usize, data: &[u8], position: usize) -> (r: Option<WasmType>)
    requires
        offset + data@.len() <= usize::MAX,
        position <= data@.len(),
    ensures
        r == match parsed_local(offset, data@, position) {
            Ok((_, ty, _)) => Some(ty),
            Err(_) => None,
        },
{
    let mut reader = BinaryReader::new_with_offset(data, offset);
    let count = reader.skip_bytes(position).and(reader.read_var_u32());
    match count.and(reader.read_type()) {
        Ok(ParsedType::I32) => Some(WasmType::I32),
        Ok(ParsedType::I64) => Some(WasmType::I64),
        Ok(ParsedType::F32) => Some(WasmType::F32),
        Ok(ParsedType::F64) => Some(WasmType::F64),
        Ok(ParsedType::V128) => Some(WasmType::V128),
        Ok(ParsedType::FuncRef) => Some(WasmType::FuncRef),
        Ok(ParsedType::ExternRef) => Some(WasmType::ExternRef),
        Ok(ParsedType::Func) => Some(WasmType::Func),
        Ok(ParsedType::EmptyBlockType) => Some(WasmType::EmptyBlockType),
        Err(_) => None,
    }
}

/// The position at which the operator ends that stands at `position` in
/// `data`; a name for what the wrapper `operator_end` returns.
pub uninterp spec fn parsed_operator_end(offset: usize, data: Seq<u8>, position: usize) -> Result<
    usize,
    Fault,
>;

/// Where the operator ends that `BinaryReader::read_operator` of `wasmparser`
/// reads at `position` in `data`: `BinaryReader::current_position` after it, or
/// the offset and the message of the reader's error. The result is a function
/// of the arguments, and has the name `parsed_operator_end`. The operator ends
/// after `position` and in `data`: its code takes a byte, and the reader's
/// position never passes the end of its bytes.
#[verifier::external_body]
fn operator_end(offset: usize, data: &[u8], position: usize) -> (r: Result<usize, (usize, String)>)
    requires
        offset + data@.len() <= usize::MAX,
        position <= data@.len(),
    ensures
        reading(r) == parsed_operator_end(offset, data@, position),
        r matches Ok(end) ==> position < end <= data@.len(),
{
    let mut reader = BinaryReader::new_with_offset(data, offset);
    match reader.skip_bytes(position).and(reader.read_operator()) {
        Ok(_) => Ok(reader.current_position()),
        Err(e) => Err((e.offset(), e.message().to_string())),
    }
}

/// What `wasmparser` calls the operator that stands at `position` in `data`;
/// a name for what the wrapper `operator_text` returns.
pub uninterp spec fn parsed_operator_text(offset: usize, data: Seq<u8>, position: usize) -> Seq<char>;

/// What `wasmparser` calls the operator that `BinaryReader::read_operator`
/// reads at `position` in `data`, as the derived `Debug` of
/// `wasmparser::Operator` writes it; the empty text where no operator can be
/// read there. The result is a function of the arguments, and has the name
/// `parsed_operator_text`.
#[verifier::external_body]
fn operator_text(offset: usize, data: &[u8], position: usize) -> (text: String)
    requires
        offset + data@.len() <= usize::MAX,
        position <= data@.len(),
    ensures
        text@ == parsed_operator_text(offset, data@, position),
{
    let mut reader = BinaryReader::new_with_offset(data, offset);
    match reader.skip_bytes(position).and(reader.read_operator()) {
        Ok(op) => format!("{:?}", op),
        Err(_) => String::new(),
    }
}

/// Which structured block an operator opens.
#[derive(Clone, Copy, Debug, PartialEq, Eq, Structural)]
pub enum Structured {
    Block,
    Loop,
    If,
}

/// Which structured block the operator opens that stands at `position` in
/// `data`, if it opens one; a name for what the wrapper `structured` returns.
pub uninterp spec fn parsed_structured(offset: usize, data: Seq<u8>, position: usize) -> Option<
    Structured,
>;

/// Which structured block the operator opens that `BinaryReader::read_operator`
/// of `wasmparser` reads at `position` in `data`: `Block`, `Loop` and `If` of
/// `wasmparser::Operator`; `None` for any other operator. The result is a
/// function of the arguments, and has the name `parsed_structured`.
#[verifier::external_body]
fn structured(offset: usize, data: &[u8], position: usize) -> (r: Option<Structured>)
    requires
        offset + data@.len() <= usize::MAX,
        position <= data@.len(),
    ensures
        r == parsed_structured(offset, data@, position),
{
    let mut reader = BinaryReader::new_with_offset(data, offset);
    match reader.skip_bytes(position).and(reader.read_operator()) {
        Ok(ParsedOperator::Block { .. }) => Some(Structured::Block),
        Ok(ParsedOperator::Loop { .. }) => Some(Structured::Loop),
        Ok(ParsedOperator::If { .. }) => Some(Structured::If),
        _ => None,
    }
}

/// The index of the function type that is the block type of the operator at
/// `position` in `data`, if that operator opens a structured block and its
/// block type is a function type; a name for what the wrapper `block_index`
/// returns.
pub uninterp spec fn parsed_block_index(offset: usize, data: Seq<u8>, position: usize) -> Option<u32>;

/// The index in the block type of the operator that
/// `BinaryReader::read_operator` of `wasmparser` reads at `position` in `data`:
/// the field of `TypeOrFuncType::FuncType` in a `Block`, a `Loop` or an `If`;
/// `None` for any other operator and any other block type. The result is a
/// function of the arguments, and has the name `parsed_block_index`.
#[verifier::external_body]
fn block_index(offset: usize, data: &[u8], position: usize) -> (r: Option<u32>)
    requires
        offset + data@.len() <= usize::MAX,
        position <= data@.len(),
    ensures
        r == parsed_block_index(offset, data@, position),
{
    let mut reader = BinaryReader::new_with_offset(data, offset);
    match reader.skip_bytes(position).and(reader.read_operator()) {
        Ok(ParsedOperator::Block { ty: ParsedBlockType::FuncType(index) }) => Some(index),
        Ok(ParsedOperator::Loop { ty: ParsedBlockType::FuncType(index) }) => Some(index),
        Ok(ParsedOperator::If { ty: ParsedBlockType::FuncType(index) }) => Some(index),
        _ => None,
    }
}

/// The value type that is the block type of the operator at `position` in
/// `data`, if that operator opens a structured block and its block type is a
/// value type; a name for what the wrapper `block_value_type` returns.
pub uninterp spec fn parsed_block_value_type(offset: usize, data: Seq<u8>, position: usize) -> Option<
    WasmType,
>;

/// The type in the block type of the operator that
/// `BinaryReader::read_operator` of `wasmparser` reads at `position` in `data`:
/// the field of `TypeOrFuncType::Type` in a `Block`, a `Loop` or an `If`, each
/// variant of `wasmparser::Type` going to the variant of the same name; `None`
/// for any other operator and any other block type. The result is a function
/// of the arguments, and has the name `parsed_block_value_type`.
#[verifier::external_body]
fn block_value_type(offset: usize, data: &[u8], position: usize) -> (r: Option<WasmType>)
    requires
        offset + data@.len() <= usize::MAX,
        position <= data@.len(),
    ensures
        r == parsed_block_value_type(offset, data@, position),
{
    let mut reader = BinaryReader::new_with_offset(data, offset);
    let read = reader.skip_bytes(position).and(reader.read_operator());
    let Ok(ParsedOperator::Block { ty: ParsedBlockType::Type(ty) } | ParsedOperator::Loop { ty: ParsedBlockType::Type(ty) } | ParsedOperator::If { ty: ParsedBlockType::Type(ty) }) = read else { return None };
    Some(match ty {
        ParsedType::I32 => WasmType::I32,
        ParsedType::I64 => WasmType::I64,
        ParsedType::F32 => WasmType::F32,
        ParsedType::F64 => WasmType::F64,
        ParsedType::V128 => WasmType::V128,
        ParsedType::FuncRef => WasmType::FuncRef,
        ParsedType::ExternRef => WasmType::ExternRef,
        ParsedType::Func => WasmType::Func,
        ParsedType::EmptyBlockType => WasmType::EmptyBlockType,
    })
}

/// The table of the operator that stands at `position` in `data`, if it is a
/// `br_table`: the targets and the default, or why they cannot be read; a name
/// for what the wrapper `br_table` returns.
pub uninterp spec fn parsed_table(offset: usize, data: Seq<u8>, position: usize) -> Option<
    Result<(Seq<u32>, u32), Fault>,
>;

/// The table that was read, with its targets and the words of its failure as
/// sequences.
pub open spec fn table_reading(r: Option<Result<(Vec<u32>, u32), (usize, String)>>) -> Option<
    Result<(Seq<u32>, u32), Fault>,
> {
    match r {
        Some(Ok((targets, default))) => Some(Ok((targets@, default))),
        Some(Err((offset, why))) => Some(Err((offset, why@))),
        None => None,
    }
}

/// The table of the operator that `BinaryReader::read_operator` of
/// `wasmparser` reads at `position` in `data`, if it is a `br_table`, as
/// `BrTable::read_table` reads it: the targets and the default, or the offset
/// and the message of the error of reading them. The result is a function of
/// the arguments, and has the name `parsed_table`.
#[verifier::external_body]
fn br_table(offset: usize, data: &[u8], position: usize) -> (r: Option<
    Result<(Vec<u32>, u32), (usize, String)>,
>)
    requires
        offset + data@.len() <= usize::MAX,
        position <= data@.len(),
    ensures
        table_reading(r) == parsed_table(offset, data@, position),
{
    let mut reader = BinaryReader::new_with_offset(data, offset);
    match reader.skip_bytes(position).and(reader.read_operator()) {
        Ok(ParsedOperator::BrTable { table }) => Some(match table.read_table() {
            Ok((targets, default)) => Ok((targets.into_vec(), default)),
            Err(e) => Err((e.offset(), e.message().to_string())),
        }),
        _ => None,
    }
}

/// The operator that stands at `position` in `data`, if it is one of the
/// control operators without a block type and without a table, `drop` or
/// `select`; a name for what the wrapper `control` returns.
pub uninterp spec fn parsed_control(offset: usize, data: Seq<u8>, position: usize) -> Option<WasmOperator>;

/// The operator that `BinaryReader::read_operator` of `wasmparser` reads at
/// `position` in `data`, which stands at `offset` in its module, if it is one
/// of the control operators without a block type and without a table, `drop`
/// or `select`: each variant of `wasmparser::Operator` that is named goes to
/// the variant of the same name, with its field. The result is a function of
/// the arguments, and has the name `parsed_control`.
#[verifier::external_body]
fn control(offset: usize, data: &[u8], position: usize) -> (r: Option<WasmOperator>)
    requires
        offset + data@.len() <= usize::MAX,
        position <= data@.len(),
    ensures
        r == parsed_control(offset, data@, position),
{
    let mut reader = BinaryReader::new_with_offset(data, offset);
    match reader.skip_bytes(position).and(reader.read_operator()) {
        Ok(ParsedOperator::Unreachable) => Some(WasmOperator::Unreachable),
        Ok(ParsedOperator::Nop) => Some(WasmOperator::Nop),
        Ok(ParsedOperator::Else) => Some(WasmOperator::Else),
        Ok(ParsedOperator::End) => Some(WasmOperator::End),
        Ok(ParsedOperator::Return) => Some(WasmOperator::Return),
        Ok(ParsedOperator::Drop) => Some(WasmOperator::Drop),
        Ok(ParsedOperator::Select) => Some(WasmOperator::Select),
        Ok(ParsedOperator::Br { relative_depth }) => Some(WasmOperator::Br { relative_depth }),
        Ok(ParsedOperator::BrIf { relative_depth }) => Some(WasmOperator::BrIf { relative_depth }),
        _ => None,
    }
}

/// The operator that stands at `position` in `data`, if it is a call or an
/// access to a local or a global; a name for what the wrapper
/// `call_or_variable` returns.
pub uninterp spec fn parsed_call_or_variable(offset: usize, data: Seq<u8>, position: usize) -> Option<WasmOperator>;

/// The operator that `BinaryReader::read_operator` of `wasmparser` reads at
/// `position` in `data`, which stands at `offset` in its module, if it is a
/// call or an access to a local or a global: each variant of
/// `wasmparser::Operator` that is named goes to the variant of the same name,
/// with its fields. The result is a function of the arguments, and has the
/// name `parsed_call_or_variable`.
#[verifier::external_body]
fn call_or_variable(offset: usize, data: &[u8], position: usize) -> (r: Option<WasmOperator>)
    requires
        offset + data@.len() <= usize::MAX,
        position <= data@.len(),
    ensures
        r == parsed_call_or_variable(offset, data@, position),
{
    let mut reader = BinaryReader::new_with_offset(data, offset);
    match reader.skip_bytes(position).and(reader.read_operator()) {
        Ok(ParsedOperator::Call { function_index }) => Some(WasmOperator::Call { function_index }),
        Ok(ParsedOperator::CallIndirect { index, table_index }) => Some(WasmOperator::CallIndirect { index, table_index }),
        Ok(ParsedOperator::LocalGet { local_index }) => Some(WasmOperator::LocalGet { local_index }),
        Ok(ParsedOperator::LocalSet { local_index }) => Some(WasmOperator::LocalSet { local_index }),
        Ok(ParsedOperator::LocalTee { local_index }) => Some(WasmOperator::LocalTee { local_index }),
        Ok(ParsedOperator::GlobalGet { global_index }) => Some(WasmOperator::GlobalGet { global_index }),
        Ok(ParsedOperator::GlobalSet { global_index }) => Some(WasmOperator::GlobalSet { global_index }),
        _ => None,
    }
}

/// The operator that stands at `position` in `data`, if it is a constant or
/// asks for the size of the memory; a name for what the wrapper
/// `constant_or_memory_size` returns.
pub uninterp spec fn parsed_constant_or_memory_size(offset: usize, data: Seq<u8>, position: usize) -> Option<WasmOperator>;

/// The operator that `BinaryReader::read_operator` of `wasmparser` reads at
/// `position` in `data`, which stands at `offset` in its module, if it is a
/// constant or asks for the size of the memory: each variant of
/// `wasmparser::Operator` that is named goes to the variant of the same name,
/// with its field; of a float constant the bits are taken, with `Ieee32::bits`
/// and `Ieee64::bits`. The result is a function of the arguments, and has the
/// name `parsed_constant_or_memory_size`.
#[verifier::external_body]
fn constant_or_memory_size(offset: usize, data: &[u8], position: usize) -> (r: Option<WasmOperator>)
    requires
        offset + data@.len() <= usize::MAX,
        position <= data@.len(),
    ensures
        r == parsed_constant_or_memory_size(offset, data@, position),
{
    let mut reader = BinaryReader::new_with_offset(data, offset);
    match reader.skip_bytes(position).and(reader.read_operator()) {
        Ok(ParsedOperator::MemorySize { reserved }) => Some(WasmOperator::MemorySize { reserved }),
        Ok(ParsedOperator::MemoryGrow { reserved }) => Some(WasmOperator::MemoryGrow { reserved }),
        Ok(ParsedOperator::I32Const { value }) => Some(WasmOperator::I32Const { value }),
        Ok(ParsedOperator::I64Const { value }) => Some(WasmOperator::I64Const { value }),
        Ok(ParsedOperator::F32Const { value }) => Some(WasmOperator::F32Const { value: Ieee32(value.bits()) }),
        Ok(ParsedOperator::F64Const { value }) => Some(WasmOperator::F64Const { value: Ieee64(value.bits()) }),
        _ => None,
    }
}

/// The operator that stands at `position` in `data`, if it is a load of all
/// the bits of a number; a name for what the wrapper `full_load` returns.
pub uninterp spec fn parsed_full_load(offset: usize, data: Seq<u8>, position: usize) -> Option<WasmOperator>;

/// The operator that `BinaryReader::read_operator` of `wasmparser` reads at
/// `position` in `data`, which stands at `offset` in its module, if it is a
/// load of all the bits of a number: each variant of `wasmparser::Operator`
/// that is named goes to the variant of the same name, with the flags and the
/// offset of its immediate. The result is a function of the arguments, and has
/// the name `parsed_full_load`.
#[verifier::external_body]
fn full_load(offset: usize, data: &[u8], position: usize) -> (r: Option<WasmOperator>)
    requires
        offset + data@.len() <= usize::MAX,
        position <= data@.len(),
    ensures
        r == parsed_full_load(offset, data@, position),
{
    let mut reader = BinaryReader::new_with_offset(data, offset);
    match reader.skip_bytes(position).and(reader.read_operator()) {
        Ok(ParsedOperator::I32Load { memarg }) => Some(WasmOperator::I32Load { memarg: MemoryImmediate { flags: memarg.flags, offset: memarg.offset } }),
        Ok(ParsedOperator::I64Load { memarg }) => Some(WasmOperator::I64Load { memarg: MemoryImmediate { flags: memarg.flags, offset: memarg.offset } }),
        Ok(ParsedOperator::F32Load { memarg }) => Some(WasmOperator::F32Load { memarg: MemoryImmediate { flags: memarg.flags, offset: memarg.offset } }),
        Ok(ParsedOperator::F64Load { memarg }) => Some(WasmOperator::F64Load { memarg: MemoryImmediate { flags: memarg.flags, offset: memarg.offset } }),
        _ => None,
    }
}

/// The operator that stands at `position` in `data`, if it is a load of a
/// 32-bit integer from 8 or 16 bits; a name for what the wrapper
/// `i32_narrow_load` returns.
pub uninterp spec fn parsed_i32_narrow_load(offset: usize, data: Seq<u8>, position: usize) -> Option<WasmOperator>;

/// The operator that `BinaryReader::read_operator` of `wasmparser` reads at
/// `position` in `data`, which stands at `offset` in its module, if it is a
/// load of a 32-bit integer from 8 or 16 bits: each variant of
/// `wasmparser::Operator` that is named goes to the variant of the same name,
/// with the flags and the offset of its immediate. The result is a function of
/// the arguments, and has the name `parsed_i32_narrow_load`.
#[verifier::external_body]
fn i32_narrow_load(offset: usize, data: &[u8], position: usize) -> (r: Option<WasmOperator>)
    requires
        offset + data@.len() <= usize::MAX,
        position <= data@.len(),
    ensures
        r == parsed_i32_narrow_load(offset, data@, position),
{
    let mut reader = BinaryReader::new_with_offset(data, offset);
    match reader.skip_bytes(position).and(reader.read_operator()) {
        Ok(ParsedOperator::I32Load8S { memarg }) => Some(WasmOperator::I32Load8S { memarg: MemoryImmediate { flags: memarg.flags, offset: memarg.offset } }),
        Ok(ParsedOperator::I32Load8U { memarg }) => Some(WasmOperator::I32Load8U { memarg: MemoryImmediate { flags: memarg.flags, offset: memarg.offset } }),
        Ok(ParsedOperator::I32Load16S { memarg }) => Some(WasmOperator::I32Load16S { memarg: MemoryImmediate { flags: memarg.flags, offset: memarg.offset } }),
        Ok(ParsedOperator::I32Load16U { memarg }) => Some(WasmOperator::I32Load16U { memarg: MemoryImmediate { flags: memarg.flags, offset: memarg.offset } }),
        _ => None,
    }
}

/// The operator that stands at `position` in `data`, if it is a load of a
/// 64-bit integer from 8 or 16 bits; a name for what the wrapper
/// `i64_narrow_load` returns.
pub uninterp spec fn parsed_i64_narrow_load(offset: usize, data: Seq<u8>, position: usize) -> Option<WasmOperator>;

/// The operator that `BinaryReader::read_operator` of `wasmparser` reads at
/// `position` in `data`, which stands at `offset` in its module, if it is a
/// load of a 64-bit integer from 8 or 16 bits: each variant of
/// `wasmparser::Operator` that is named goes to the variant of the same name,
/// with the flags and the offset of its immediate. The result is a function of
/// the arguments, and has the name `parsed_i64_narrow_load`.
#[verifier::external_body]
fn i64_narrow_load(offset: usize, data: &[u8], position: usize) -> (r: Option<WasmOperator>)
    requires
        offset + data@.len() <= usize::MAX,
        position <= data@.len(),
    ensures
        r == parsed_i64_narrow_load(offset, data@, position),
{
    let mut reader = BinaryReader::new_with_offset(data, offset);
    match reader.skip_bytes(position).and(reader.read_operator()) {
        Ok(ParsedOperator::I64Load8S { memarg }) => Some(WasmOperator::I64Load8S { memarg: MemoryImmediate { flags: memarg.flags, offset: memarg.offset } }),
        Ok(ParsedOperator::I64Load8U { memarg }) => Some(WasmOperator::I64Load8U { memarg: MemoryImmediate { flags: memarg.flags, offset: memarg.offset } }),
        Ok(ParsedOperator::I64Load16S { memarg }) => Some(WasmOperator::I64Load16S { memarg: MemoryImmediate { flags: memarg.flags, offset: memarg.offset } }),
        Ok(ParsedOperator::I64Load16U { memarg }) => Some(WasmOperator::I64Load16U { memarg: MemoryImmediate { flags: memarg.flags, offset: memarg.offset } }),
        _ => None,
    }
}

/// The operator that stands at `position` in `data`, if it is a load of a
/// 64-bit integer from 32 bits; a name for what the wrapper `i64_load32`
/// returns.
pub uninterp spec fn parsed_i64_load32(offset: usize, data: Seq<u8>, position: usize) -> Option<WasmOperator>;

/// The operator that `BinaryReader::read_operator` of `wasmparser` reads at
/// `position` in `data`, which stands at `offset` in its module, if it is a
/// load of a 64-bit integer from 32 bits: each variant of
/// `wasmparser::Operator` that is named goes to the variant of the same name,
/// with the flags and the offset of its immediate. The result is a function of
/// the arguments, and has the name `parsed_i64_load32`.
#[verifier::external_body]
fn i64_load32(offset: usize, data: &[u8], position: usize) -> (r: Option<WasmOperator>)
    requires
        offset + data@.len() <= usize::MAX,
        position <= data@.len(),
    ensures
        r == parsed_i64_load32(offset, data@, position),
{
    let mut reader = BinaryReader::new_with_offset(data, offset);
    match reader.skip_bytes(position).and(reader.read_operator()) {
        Ok(ParsedOperator::I64Load32S { memarg }) => Some(WasmOperator::I64Load32S { memarg: MemoryImmediate { flags: memarg.flags, offset: memarg.offset } }),
        Ok(ParsedOperator::I64Load32U { memarg }) => Some(WasmOperator::I64Load32U { memarg: MemoryImmediate { flags: memarg.flags, offset: memarg.offset } }),
        _ => None,
    }
}

/// The operator that stands at `position` in `data`, if it is a store of all
/// the bits of a number; a name for what the wrapper `full_store` returns.
pub uninterp spec fn parsed_full_store(offset: usize, data: Seq<u8>, position: usize) -> Option<WasmOperator>;

/// The operator that `BinaryReader::read_operator` of `wasmparser` reads at
/// `position` in `data`, which stands at `offset` in its module, if it is a
/// store of all the bits of a number: each variant of `wasmparser::Operator`
/// that is named goes to the variant of the same name, with the flags and the
/// offset of its immediate. The result is a function of the arguments, and has
/// the name `parsed_full_store`.
#[verifier::external_body]
fn full_store(offset: usize, data: &[u8], position: usize) -> (r: Option<WasmOperator>)
    requires
        offset + data@.len() <= usize::MAX,
        position <= data@.len(),
    ensures
        r == parsed_full_store(offset, data@, position),
{
    let mut reader = BinaryReader::new_with_offset(data, offset);
    match reader.skip_bytes(position).and(reader.read_operator()) {
        Ok(ParsedOperator::I32Store { memarg }) => Some(WasmOperator::I32Store { memarg: MemoryImmediate { flags: memarg.flags, offset: memarg.offset } }),
        Ok(ParsedOperator::I64Store { memarg }) => Some(WasmOperator::I64Store { memarg: MemoryImmediate { flags: memarg.flags, offset: memarg.offset } }),
        Ok(ParsedOperator::F32Store { memarg }) => Some(WasmOperator::F32Store { memarg: MemoryImmediate { flags: memarg.flags, offset: memarg.offset } }),
        Ok(ParsedOperator::F64Store { memarg }) => Some(WasmOperator::F64Store { memarg: MemoryImmediate { flags: memarg.flags, offset: memarg.offset } }),
        _ => None,
    }
}

/// The operator that stands at `position` in `data`, if it is a store of 8 or
/// 16 bits of a 32-bit integer; a name for what the wrapper `i32_narrow_store`
/// returns.
pub uninterp spec fn parsed_i32_narrow_store(offset: usize, data: Seq<u8>, position: usize) -> Option<WasmOperator>;

/// The operator that `BinaryReader::read_operator` of `wasmparser` reads at
/// `position` in `data`, which stands at `offset` in its module, if it is a
/// store of 8 or 16 bits of a 32-bit integer: each variant of
/// `wasmparser::Operator` that is named goes to the variant of the same name,
/// with the flags and the offset of its immediate. The result is a function of
/// the arguments, and has the name `parsed_i32_narrow_store`.
#[verifier::external_body]
fn i32_narrow_store(offset: usize, data: &[u8], position: usize) -> (r: Option<WasmOperator>)
    requires
        offset + data@.len() <= usize::MAX,
        position <= data@.len(),
    ensures
        r == parsed_i32_narrow_store(offset, data@, position),
{
    let mut reader = BinaryReader::new_with_offset(data, offset);
    match reader.skip_bytes(position).and(reader.read_operator()) {
        Ok(ParsedOperator::I32Store8 { memarg }) => Some(WasmOperator::I32Store8 { memarg: MemoryImmediate { flags: memarg.flags, offset: memarg.offset } }),
        Ok(ParsedOperator::I32Store16 { memarg }) => Some(WasmOperator::I32Store16 { memarg: MemoryImmediate { flags: memarg.flags, offset: memarg.offset } }),
        _ => None,
    }
}

/// The operator that stands at `position` in `data`, if it is a store of 8, 16
/// or 32 bits of a 64-bit integer; a name for what the wrapper
/// `i64_narrow_store` returns.
pub uninterp spec fn parsed_i64_narrow_store(offset: usize, data: Seq<u8>, position: usize) -> Option<WasmOperator>;

/// The operator that `BinaryReader::read_operator` of `wasmparser` reads at
/// `position` in `data`, which stands at `offset` in its module, if it is a
/// store of 8, 16 or 32 bits of a 64-bit integer: each variant of
/// `wasmparser::Operator` that is named goes to the variant of the same name,
/// with the flags and the offset of its immediate. The result is a function of
/// the arguments, and has the name `parsed_i64_narrow_store`.
#[verifier::external_body]
fn i64_narrow_store(offset: usize, data: &[u8], position: usize) -> (r: Option<WasmOperator>)
    requires
        offset + data@.len() <= usize::MAX,
        position <= data@.len(),
    ensures
        r == parsed_i64_narrow_store(offset, data@, position),
{
    let mut reader = BinaryReader::new_with_offset(data, offset);
    match reader.skip_bytes(position).and(reader.read_operator()) {
        Ok(ParsedOperator::I64Store8 { memarg }) => Some(WasmOperator::I64Store8 { memarg: MemoryImmediate { flags: memarg.flags, offset: memarg.offset } }),
        Ok(ParsedOperator::I64Store16 { memarg }) => Some(WasmOperator::I64Store16 { memarg: MemoryImmediate { flags: memarg.flags, offset: memarg.offset } }),
        Ok(ParsedOperator::I64Store32 { memarg }) => Some(WasmOperator::I64Store32 { memarg: MemoryImmediate { flags: memarg.flags, offset: memarg.offset } }),
        _ => None,
    }
}

/// The operator that stands at `position` in `data`, if it is a test or
/// comparison of 32-bit integers; a name for what the wrapper `i32_comparison`
/// returns.
pub uninterp spec fn parsed_i32_comparison(offset: usize, data: Seq<u8>, position: usize) -> Option<WasmOperator>;

/// The operator that `BinaryReader::read_operator` of `wasmparser` reads at
/// `position` in `data`, which stands at `offset` in its module, if it is a
/// test or comparison of 32-bit integers: each variant of
/// `wasmparser::Operator` that is named goes to the variant of the same name.
/// The result is a function of the arguments, and has the name
/// `parsed_i32_comparison`.
#[verifier::external_body]
fn i32_comparison(offset: usize, data: &[u8], position: usize) -> (r: Option<WasmOperator>)
    requires
        offset + data@.len() <= usize::MAX,
        position <= data@.len(),
    ensures
        r == parsed_i32_comparison(offset, data@, position),
{
    let mut reader = BinaryReader::new_with_offset(data, offset);
    match reader.skip_bytes(position).and(reader.read_operator()) {
        Ok(ParsedOperator::I32Eqz) => Some(WasmOperator::I32Eqz),
        Ok(ParsedOperator::I32Eq) => Some(WasmOperator::I32Eq),
        Ok(ParsedOperator::I32Ne) => Some(WasmOperator::I32Ne),
        Ok(ParsedOperator::I32LtS) => Some(WasmOperator::I32LtS),
        Ok(ParsedOperator::I32LtU) => Some(WasmOperator::I32LtU),
        Ok(ParsedOperator::I32GtS) => Some(WasmOperator::I32GtS),
        Ok(ParsedOperator::I32GtU) => Some(WasmOperator::I32GtU),
        Ok(ParsedOperator::I32LeS) => Some(WasmOperator::I32LeS),
        Ok(ParsedOperator::I32LeU) => Some(WasmOperator::I32LeU),
        Ok(ParsedOperator::I32GeS) => Some(WasmOperator::I32GeS),
        Ok(ParsedOperator::I32GeU) => Some(WasmOperator::I32GeU),
        _ => None,
    }
}

/// The operator that stands at `position` in `data`, if it is a test or
/// comparison of 64-bit integers; a name for what the wrapper `i64_comparison`
/// returns.
pub uninterp spec fn parsed_i64_comparison(offset: usize, data: Seq<u8>, position: usize) -> Option<WasmOperator>;

/// The operator that `BinaryReader::read_operator` of `wasmparser` reads at
/// `position` in `data`, which stands at `offset` in its module, if it is a
/// test or comparison of 64-bit integers: each variant of
/// `wasmparser::Operator` that is named goes to the variant of the same name.
/// The result is a function of the arguments, and has the name
/// `parsed_i64_comparison`.
#[verifier::external_body]
fn i64_comparison(offset: usize, data: &[u8], position: usize) -> (r: Option<WasmOperator>)
    requires
        offset + data@.len() <= usize::MAX,
        position <= data@.len(),
    ensures
        r == parsed_i64_comparison(offset, data@, position),
{
    let mut reader = BinaryReader::new_with_offset(data, offset);
    match reader.skip_bytes(position).and(reader.read_operator()) {
        Ok(ParsedOperator::I64Eqz) => Some(WasmOperator::I64Eqz),
        Ok(ParsedOperator::I64Eq) => Some(WasmOperator::I64Eq),
        Ok(ParsedOperator::I64Ne) => Some(WasmOperator::I64Ne),
        Ok(ParsedOperator::I64LtS) => Some(WasmOperator::I64LtS),
        Ok(ParsedOperator::I64LtU) => Some(WasmOperator::I64LtU),
        Ok(ParsedOperator::I64GtS) => Some(WasmOperator::I64GtS),
        Ok(ParsedOperator::I64GtU) => Some(WasmOperator::I64GtU),
        Ok(ParsedOperator::I64LeS) => Some(WasmOperator::I64LeS),
        Ok(ParsedOperator::I64LeU) => Some(WasmOperator::I64LeU),
        Ok(ParsedOperator::I64GeS) => Some(WasmOperator::I64GeS),
        Ok(ParsedOperator::I64GeU) => Some(WasmOperator::I64GeU),
        _ => None,
    }
}

/// The operator that stands at `position` in `data`, if it is a comparison of
/// 32-bit floats; a name for what the wrapper `f32_comparison` returns.
pub uninterp spec fn parsed_f32_comparison(offset: usize, data: Seq<u8>, position: usize) -> Option<WasmOperator>;

/// The operator that `BinaryReader::read_operator` of `wasmparser` reads at
/// `position` in `data`, which stands at `offset` in its module, if it is a
/// comparison of 32-bit floats: each variant of `wasmparser::Operator` that is
/// named goes to the variant of the same name. The result is a function of the
/// arguments, and has the name `parsed_f32_comparison`.
#[verifier::external_body]
fn f32_comparison(offset: usize, data: &[u8], position: usize) -> (r: Option<WasmOperator>)
    requires
        offset + data@.len() <= usize::MAX,
        position <= data@.len(),
    ensures
        r == parsed_f32_comparison(offset, data@, position),
{
    let mut reader = BinaryReader::new_with_offset(data, offset);
    match reader.skip_bytes(position).and(reader.read_operator()) {
        Ok(ParsedOperator::F32Eq) => Some(WasmOperator::F32Eq),
        Ok(ParsedOperator::F32Ne) => Some(WasmOperator::F32Ne),
        Ok(ParsedOperator::F32Lt) => Some(WasmOperator::F32Lt),
        Ok(ParsedOperator::F32Gt) => Some(WasmOperator::F32Gt),
        Ok(ParsedOperator::F32Le) => Some(WasmOperator::F32Le),
        Ok(ParsedOperator::F32Ge) => Some(WasmOperator::F32Ge),
        _ => None,
    }
}

/// The operator that stands at `position` in `data`, if it is a comparison of
/// 64-bit floats; a name for what the wrapper `f64_comparison` returns.
pub uninterp spec fn parsed_f64_comparison(offset: usize, data: Seq<u8>, position: usize) -> Option<WasmOperator>;

/// The operator that `BinaryReader::read_operator` of `wasmparser` reads at
/// `position` in `data`, which stands at `offset` in its module, if it is a
/// comparison of 64-bit floats: each variant of `wasmparser::Operator` that is
/// named goes to the variant of the same name. The result is a function of the
/// arguments, and has the name `parsed_f64_comparison`.
#[verifier::external_body]
fn f64_comparison(offset: usize, data: &[u8], position: usize) -> (r: Option<WasmOperator>)
    requires
        offset + data@.len() <= usize::MAX,
        position <= data@.len(),
    ensures
        r == parsed_f64_comparison(offset, data@, position),
{
    let mut reader = BinaryReader::new_with_offset(data, offset);
    match reader.skip_bytes(position).and(reader.read_operator()) {
        Ok(ParsedOperator::F64Eq) => Some(WasmOperator::F64Eq),
        Ok(ParsedOperator::F64Ne) => Some(WasmOperator::F64Ne),
        Ok(ParsedOperator::F64Lt) => Some(WasmOperator::F64Lt),
        Ok(ParsedOperator::F64Gt) => Some(WasmOperator::F64Gt),
        Ok(ParsedOperator::F64Le) => Some(WasmOperator::F64Le),
        Ok(ParsedOperator::F64Ge) => Some(WasmOperator::F64Ge),
        _ => None,
    }
}

/// The operator that stands at `position` in `data`, if it is a count or an
/// arithmetic operation on 32-bit integers; a name for what the wrapper
/// `i32_arithmetic` returns.
pub uninterp spec fn parsed_i32_arithmetic(offset: usize, data: Seq<u8>, position: usize) -> Option<WasmOperator>;

/// The operator that `BinaryReader::read_operator` of `wasmparser` reads at
/// `position` in `data`, which stands at `offset` in its module, if it is a
/// count or an arithmetic operation on 32-bit integers: each variant of
/// `wasmparser::Operator` that is named goes to the variant of the same name.
/// The result is a function of the arguments, and has the name
/// `parsed_i32_arithmetic`.
#[verifier::external_body]
fn i32_arithmetic(offset: usize, data: &[u8], position: usize) -> (r: Option<WasmOperator>)
    requires
        offset + data@.len() <= usize::MAX,
        position <= data@.len(),
    ensures
        r == parsed_i32_arithmetic(offset, data@, position),
{
    let mut reader = BinaryReader::new_with_offset(data, offset);
    match reader.skip_bytes(position).and(reader.read_operator()) {
        Ok(ParsedOperator::I32Clz) => Some(WasmOperator::I32Clz),
        Ok(ParsedOperator::I32Ctz) => Some(WasmOperator::I32Ctz),
        Ok(ParsedOperator::I32Popcnt) => Some(WasmOperator::I32Popcnt),
        Ok(ParsedOperator::I32Add) => Some(WasmOperator::I32Add),
        Ok(ParsedOperator::I32Sub) => Some(WasmOperator::I32Sub),
        Ok(ParsedOperator::I32Mul) => Some(WasmOperator::I32Mul),
        Ok(ParsedOperator::I32DivS) => Some(WasmOperator::I32DivS),
        Ok(ParsedOperator::I32DivU) => Some(WasmOperator::I32DivU),
        Ok(ParsedOperator::I32RemS) => Some(WasmOperator::I32RemS),
        Ok(ParsedOperator::I32RemU) => Some(WasmOperator::I32RemU),
        _ => None,
    }
}

/// The operator that stands at `position` in `data`, if it is a bitwise
/// operation, shift or rotation on 32-bit integers; a name for what the
/// wrapper `i32_bitwise` returns.
pub uninterp spec fn parsed_i32_bitwise(offset: usize, data: Seq<u8>, position: usize) -> Option<WasmOperator>;

/// The operator that `BinaryReader::read_operator` of `wasmparser` reads at
/// `position` in `data`, which stands at `offset` in its module, if it is a
/// bitwise operation, shift or rotation on 32-bit integers: each variant of
/// `wasmparser::Operator` that is named goes to the variant of the same name.
/// The result is a function of the arguments, and has the name
/// `parsed_i32_bitwise`.
#[verifier::external_body]
fn i32_bitwise(offset: usize, data: &[u8], position: usize) -> (r: Option<WasmOperator>)
    requires
        offset + data@.len() <= usize::MAX,
        position <= data@.len(),
    ensures
        r == parsed_i32_bitwise(offset, data@, position),
{
    let mut reader = BinaryReader::new_with_offset(data, offset);
    match reader.skip_bytes(position).and(reader.read_operator()) {
        Ok(ParsedOperator::I32And) => Some(WasmOperator::I32And),
        Ok(ParsedOperator::I32Or) => Some(WasmOperator::I32Or),
        Ok(ParsedOperator::I32Xor) => Some(WasmOperator::I32Xor),
        Ok(ParsedOperator::I32Shl) => Some(WasmOperator::I32Shl),
        Ok(ParsedOperator::I32ShrS) => Some(WasmOperator::I32ShrS),
        Ok(ParsedOperator::I32ShrU) => Some(WasmOperator::I32ShrU),
        Ok(ParsedOperator::I32Rotl) => Some(WasmOperator::I32Rotl),
        Ok(ParsedOperator::I32Rotr) => Some(WasmOperator::I32Rotr),
        _ => None,
    }
}

/// The operator that stands at `position` in `data`, if it is a count or an
/// arithmetic operation on 64-bit integers; a name for what the wrapper
/// `i64_arithmetic` returns.
pub uninterp spec fn parsed_i64_arithmetic(offset: usize, data: Seq<u8>, position: usize) -> Option<WasmOperator>;

/// The operator that `BinaryReader::read_operator` of `wasmparser` reads at
/// `position` in `data`, which stands at `offset` in its module, if it is a
/// count or an arithmetic operation on 64-bit integers: each variant of
/// `wasmparser::Operator` that is named goes to the variant of the same name.
/// The result is a function of the arguments, and has the name
/// `parsed_i64_arithmetic`.
#[verifier::external_body]
fn i64_arithmetic(offset: usize, data: &[u8], position: usize) -> (r: Option<WasmOperator>)
    requires
        offset + data@.len() <= usize::MAX,
        position <= data@.len(),
    ensures
        r == parsed_i64_arithmetic(offset, data@, position),
{
    let mut reader = BinaryReader::new_with_offset(data, offset);
    match reader.skip_bytes(position).and(reader.read_operator()) {
        Ok(ParsedOperator::I64Clz) => Some(WasmOperator::I64Clz),
        Ok(ParsedOperator::I64Ctz) => Some(WasmOperator::I64Ctz),
        Ok(ParsedOperator::I64Popcnt) => Some(WasmOperator::I64Popcnt),
        Ok(ParsedOperator::I64Add) => Some(WasmOperator::I64Add),
        Ok(ParsedOperator::I64Sub) => Some(WasmOperator::I64Sub),
        Ok(ParsedOperator::I64Mul) => Some(WasmOperator::I64Mul),
        Ok(ParsedOperator::I64DivS) => Some(WasmOperator::I64DivS),
        Ok(ParsedOperator::I64DivU) => Some(WasmOperator::I64DivU),
        Ok(ParsedOperator::I64RemS) => Some(WasmOperator::I64RemS),
        Ok(ParsedOperator::I64RemU) => Some(WasmOperator::I64RemU),
        _ => None,
    }
}

/// The operator that stands at `position` in `data`, if it is a bitwise
/// operation, shift or rotation on 64-bit integers; a name for what the
/// wrapper `i64_bitwise` returns.
pub uninterp spec fn parsed_i64_bitwise(offset: usize, data: Seq<u8>, position: usize) -> Option<WasmOperator>;

/// The operator that `BinaryReader::read_operator` of `wasmparser` reads at
/// `position` in `data`, which stands at `offset` in its module, if it is a
/// bitwise operation, shift or rotation on 64-bit integers: each variant of
/// `wasmparser::Operator` that is named goes to the variant of the same name.
/// The result is a function of the arguments, and has the name
/// `parsed_i64_bitwise`.
#[verifier::external_body]
fn i64_bitwise(offset: usize, data: &[u8], position: usize) -> (r: Option<WasmOperator>)
    requires
        offset + data@.len() <= usize::MAX,
        position <= data@.len(),
    ensures
        r == parsed_i64_bitwise(offset, data@, position),
{
    let mut reader = BinaryReader::new_with_offset(data, offset);
    match reader.skip_bytes(position).and(reader.read_operator()) {
        Ok(ParsedOperator::I64And) => Some(WasmOperator::I64And),
        Ok(ParsedOperator::I64Or) => Some(WasmOperator::I64Or),
        Ok(ParsedOperator::I64Xor) => Some(WasmOperator::I64Xor),
        Ok(ParsedOperator::I64Shl) => Some(WasmOperator::I64Shl),
        Ok(ParsedOperator::I64ShrS) => Some(WasmOperator::I64ShrS),
        Ok(ParsedOperator::I64ShrU) => Some(WasmOperator::I64ShrU),
        Ok(ParsedOperator::I64Rotl) => Some(WasmOperator::I64Rotl),
        Ok(ParsedOperator::I64Rotr) => Some(WasmOperator::I64Rotr),
        _ => None,
    }
}

/// The operator that stands at `position` in `data`, if it is an operation on
/// one 32-bit float; a name for what the wrapper `f32_unary` returns.
pub uninterp spec fn parsed_f32_unary(offset: usize, data: Seq<u8>, position: usize) -> Option<WasmOperator>;

/// The operator that `BinaryReader::read_operator` of `wasmparser` reads at
/// `position` in `data`, which stands at `offset` in its module, if it is an
/// operation on one 32-bit float: each variant of `wasmparser::Operator` that
/// is named goes to the variant of the same name. The result is a function of
/// the arguments, and has the name `parsed_f32_unary`.
#[verifier::external_body]
fn f32_unary(offset: usize, data: &[u8], position: usize) -> (r: Option<WasmOperator>)
    requires
        offset + data@.len() <= usize::MAX,
        position <= data@.len(),
    ensures
        r == parsed_f32_unary(offset, data@, position),
{
    let mut reader = BinaryReader::new_with_offset(data, offset);
    match reader.skip_bytes(position).and(reader.read_operator()) {
        Ok(ParsedOperator::F32Abs) => Some(WasmOperator::F32Abs),
        Ok(ParsedOperator::F32Neg) => Some(WasmOperator::F32Neg),
        Ok(ParsedOperator::F32Ceil) => Some(WasmOperator::F32Ceil),
        Ok(ParsedOperator::F32Floor) => Some(WasmOperator::F32Floor),
        Ok(ParsedOperator::F32Trunc) => Some(WasmOperator::F32Trunc),
        Ok(ParsedOperator::F32Nearest) => Some(WasmOperator::F32Nearest),
        Ok(ParsedOperator::F32Sqrt) => Some(WasmOperator::F32Sqrt),
        _ => None,
    }
}

/// The operator that stands at `position` in `data`, if it is an operation on
/// two 32-bit floats; a name for what the wrapper `f32_binary` returns.
pub uninterp spec fn parsed_f32_binary(offset: usize, data: Seq<u8>, position: usize) -> Option<WasmOperator>;

/// The operator that `BinaryReader::read_operator` of `wasmparser` reads at
/// `position` in `data`, which stands at `offset` in its module, if it is an
/// operation on two 32-bit floats: each variant of `wasmparser::Operator` that
/// is named goes to the variant of the same name. The result is a function of
/// the arguments, and has the name `parsed_f32_binary`.
#[verifier::external_body]
fn f32_binary(offset: usize, data: &[u8], position: usize) -> (r: Option<WasmOperator>)
    requires
        offset + data@.len() <= usize::MAX,
        position <= data@.len(),
    ensures
        r == parsed_f32_binary(offset, data@, position),
{
    let mut reader = BinaryReader::new_with_offset(data, offset);
    match reader.skip_bytes(position).and(reader.read_operator()) {
        Ok(ParsedOperator::F32Add) => Some(WasmOperator::F32Add),
        Ok(ParsedOperator::F32Sub) => Some(WasmOperator::F32Sub),
        Ok(ParsedOperator::F32Mul) => Some(WasmOperator::F32Mul),
        Ok(ParsedOperator::F32Div) => Some(WasmOperator::F32Div),
        Ok(ParsedOperator::F32Min) => Some(WasmOperator::F32Min),
        Ok(ParsedOperator::F32Max) => Some(WasmOperator::F32Max),
        Ok(ParsedOperator::F32Copysign) => Some(WasmOperator::F32Copysign),
        _ => None,
    }
}

/// The operator that stands at `position` in `data`, if it is an operation on
/// one 64-bit float; a name for what the wrapper `f64_unary` returns.
pub uninterp spec fn parsed_f64_unary(offset: usize, data: Seq<u8>, position: usize) -> Option<WasmOperator>;

/// The operator that `BinaryReader::read_operator` of `wasmparser` reads at
/// `position` in `data`, which stands at `offset` in its module, if it is an
/// operation on one 64-bit float: each variant of `wasmparser::Operator` that
/// is named goes to the variant of the same name. The result is a function of
/// the arguments, and has the name `parsed_f64_unary`.
#[verifier::external_body]
fn f64_unary(offset: usize, data: &[u8], position: usize) -> (r: Option<WasmOperator>)
    requires
        offset + data@.len() <= usize::MAX,
        position <= data@.len(),
    ensures
        r == parsed_f64_unary(offset, data@, position),
{
    let mut reader = BinaryReader::new_with_offset(data, offset);
    match reader.skip_bytes(position).and(reader.read_operator()) {
        Ok(ParsedOperator::F64Abs) => Some(WasmOperator::F64Abs),
        Ok(ParsedOperator::F64Neg) => Some(WasmOperator::F64Neg),
        Ok(ParsedOperator::F64Ceil) => Some(WasmOperator::F64Ceil),
        Ok(ParsedOperator::F64Floor) => Some(WasmOperator::F64Floor),
        Ok(ParsedOperator::F64Trunc) => Some(WasmOperator::F64Trunc),
        Ok(ParsedOperator::F64Nearest) => Some(WasmOperator::F64Nearest),
        Ok(ParsedOperator::F64Sqrt) => Some(WasmOperator::F64Sqrt),
        _ => None,
    }
}

/// The operator that stands at `position` in `data`, if it is an operation on
/// two 64-bit floats; a name for what the wrapper `f64_binary` returns.
pub uninterp spec fn parsed_f64_binary(offset: usize, data: Seq<u8>, position: usize) -> Option<WasmOperator>;

/// The operator that `BinaryReader::read_operator` of `wasmparser` reads at
/// `position` in `data`, which stands at `offset` in its module, if it is an
/// operation on two 64-bit floats: each variant of `wasmparser::Operator` that
/// is named goes to the variant of the same name. The result is a function of
/// the arguments, and has the name `parsed_f64_binary`.
#[verifier::external_body]
fn f64_binary(offset: usize, data: &[u8], position: usize) -> (r: Option<WasmOperator>)
    requires
        offset + data@.len() <= usize::MAX,
        position <= data@.len(),
    ensures
        r == parsed_f64_binary(offset, data@, position),
{
    let mut reader = BinaryReader::new_with_offset(data, offset);
    match reader.skip_bytes(position).and(reader.read_operator()) {
        Ok(ParsedOperator::F64Add) => Some(WasmOperator::F64Add),
        Ok(ParsedOperator::F64Sub) => Some(WasmOperator::F64Sub),
        Ok(ParsedOperator::F64Mul) => Some(WasmOperator::F64Mul),
        Ok(ParsedOperator::F64Div) => Some(WasmOperator::F64Div),
        Ok(ParsedOperator::F64Min) => Some(WasmOperator::F64Min),
        Ok(ParsedOperator::F64Max) => Some(WasmOperator::F64Max),
        Ok(ParsedOperator::F64Copysign) => Some(WasmOperator::F64Copysign),
        _ => None,
    }
}

/// The operator that stands at `position` in `data`, if it is a conversion to
/// an integer; a name for what the wrapper `to_integer` returns.
pub uninterp spec fn parsed_to_integer(offset: usize, data: Seq<u8>, position: usize) -> Option<WasmOperator>;

/// The operator that `BinaryReader::read_operator` of `wasmparser` reads at
/// `position` in `data`, which stands at `offset` in its module, if it is a
/// conversion to an integer: each variant of `wasmparser::Operator` that is
/// named goes to the variant of the same name. The result is a function of the
/// arguments, and has the name `parsed_to_integer`.
#[verifier::external_body]
fn to_integer(offset: usize, data: &[u8], position: usize) -> (r: Option<WasmOperator>)
    requires
        offset + data@.len() <= usize::MAX,
        position <= data@.len(),
    ensures
        r == parsed_to_integer(offset, data@, position),
{
    let mut reader = BinaryReader::new_with_offset(data, offset);
    match reader.skip_bytes(position).and(reader.read_operator()) {
        Ok(ParsedOperator::I32WrapI64) => Some(WasmOperator::I32WrapI64),
        Ok(ParsedOperator::I32TruncF32S) => Some(WasmOperator::I32TruncF32S),
        Ok(ParsedOperator::I32TruncF32U) => Some(WasmOperator::I32TruncF32U),
        Ok(ParsedOperator::I32TruncF64S) => Some(WasmOperator::I32TruncF64S),
        Ok(ParsedOperator::I32TruncF64U) => Some(WasmOperator::I32TruncF64U),
        Ok(ParsedOperator::I64ExtendI32S) => Some(WasmOperator::I64ExtendI32S),
        Ok(ParsedOperator::I64ExtendI32U) => Some(WasmOperator::I64ExtendI32U),
        Ok(ParsedOperator::I64TruncF32S) => Some(WasmOperator::I64TruncF32S),
        Ok(ParsedOperator::I64TruncF32U) => Some(WasmOperator::I64TruncF32U),
        Ok(ParsedOperator::I64TruncF64S) => Some(WasmOperator::I64TruncF64S),
        Ok(ParsedOperator::I64TruncF64U) => Some(WasmOperator::I64TruncF64U),
        _ => None,
    }
}

/// The operator that stands at `position` in `data`, if it is a conversion to
/// a float; a name for what the wrapper `to_float` returns.
pub uninterp spec fn parsed_to_float(offset: usize, data: Seq<u8>, position: usize) -> Option<WasmOperator>;

/// The operator that `BinaryReader::read_operator` of `wasmparser` reads at
/// `position` in `data`, which stands at `offset` in its module, if it is a
/// conversion to a float: each variant of `wasmparser::Operator` that is named
/// goes to the variant of the same name. The result is a function of the
/// arguments, and has the name `parsed_to_float`.
#[verifier::external_body]
fn to_float(offset: usize, data: &[u8], position: usize) -> (r: Option<WasmOperator>)
    requires
        offset + data@.len() <= usize::MAX,
        position <= data@.len(),
    ensures
        r == parsed_to_float(offset, data@, position),
{
    let mut reader = BinaryReader::new_with_offset(data, offset);
    match reader.skip_bytes(position).and(reader.read_operator()) {
        Ok(ParsedOperator::F32ConvertI32S) => Some(WasmOperator::F32ConvertI32S),
        Ok(ParsedOperator::F32ConvertI32U) => Some(WasmOperator::F32ConvertI32U),
        Ok(ParsedOperator::F32ConvertI64S) => Some(WasmOperator::F32ConvertI64S),
        Ok(ParsedOperator::F32ConvertI64U) => Some(WasmOperator::F32ConvertI64U),
        Ok(ParsedOperator::F32DemoteF64) => Some(WasmOperator::F32DemoteF64),
        Ok(ParsedOperator::F64ConvertI32S) => Some(WasmOperator::F64ConvertI32S),
        Ok(ParsedOperator::F64ConvertI32U) => Some(WasmOperator::F64ConvertI32U),
        Ok(ParsedOperator::F64ConvertI64S) => Some(WasmOperator::F64ConvertI64S),
        Ok(ParsedOperator::F64ConvertI64U) => Some(WasmOperator::F64ConvertI64U),
        Ok(ParsedOperator::F64PromoteF32) => Some(WasmOperator::F64PromoteF32),
        _ => None,
    }
}

/// The operator that stands at `position` in `data`, if it is a
/// reinterpretation of bits or a sign extension; a name for what the wrapper
/// `reinterpretation` returns.
pub uninterp spec fn parsed_reinterpretation(offset: usize, data: Seq<u8>, position: usize) -> Option<WasmOperator>;

/// The operator that `BinaryReader::read_operator` of `wasmparser` reads at
/// `position` in `data`, which stands at `offset` in its module, if it is a
/// reinterpretation of bits or a sign extension: each variant of
/// `wasmparser::Operator` that is named goes to the variant of the same name.
/// The result is a function of the arguments, and has the name
/// `parsed_reinterpretation`.
#[verifier::external_body]
fn reinterpretation(offset: usize, data: &[u8], position: usize) -> (r: Option<WasmOperator>)
    requires
        offset + data@.len() <= usize::MAX,
        position <= data@.len(),
    ensures
        r == parsed_reinterpretation(offset, data@, position),
{
    let mut reader = BinaryReader::new_with_offset(data, offset);
    match reader.skip_bytes(position).and(reader.read_operator()) {
        Ok(ParsedOperator::I32ReinterpretF32) => Some(WasmOperator::I32ReinterpretF32),
        Ok(ParsedOperator::I64ReinterpretF64) => Some(WasmOperator::I64ReinterpretF64),
        Ok(ParsedOperator::F32ReinterpretI32) => Some(WasmOperator::F32ReinterpretI32),
        Ok(ParsedOperator::F64ReinterpretI64) => Some(WasmOperator::F64ReinterpretI64),
        Ok(ParsedOperator::I32Extend8S) => Some(WasmOperator::I32Extend8S),
        Ok(ParsedOperator::I32Extend16S) => Some(WasmOperator::I32Extend16S),
        Ok(ParsedOperator::I64Extend8S) => Some(WasmOperator::I64Extend8S),
        Ok(ParsedOperator::I64Extend16S) => Some(WasmOperator::I64Extend16S),
        Ok(ParsedOperator::I64Extend32S) => Some(WasmOperator::I64Extend32S),
        _ => None,
    }
}

/// The message of the error for reading that failed at `offset` in the
/// module, for the reason `why`.
pub open spec fn input_message(offset: usize, why: Seq<char>) -> Seq<char> {
    "At wasm offset "@ + decimal(offset as int) + ": "@ + why
}

/// The text that says of reading why it failed, and then where.
pub open spec fn located(offset: usize, why: Seq<char>) -> Seq<char> {
    why + " (at offset "@ + decimal(offset as int) + ")"@
}

/// The failure that a reader's failure becomes where it ends a reading.
pub open spec fn input_failure(fault: Fault) -> Failure {
    Failure::input(input_message(fault.0, fault.1))
}

/// The failure that a reader's failure becomes where a local declaration
/// cannot be read.
pub open spec fn local_failure(fault: Fault) -> Failure {
    Failure::microwasm("Getting local failed: "@ + located(fault.0, fault.1))
}

/// The error that a reader's error becomes: an `Input` error that says where
/// in the module reading failed, and why.
fn input_error(offset: usize, why: &str) -> (r: Error)
    ensures
        r.spec_failure() == input_failure((offset, why@)),
{
    let mut message = String::from_str("At wasm offset ");
    message.append(decimal_text(offset as i128).as_str());
    message.append(": ");
    message.append(why);
    Error::Input(message)
}

/// What a reader's error says: why reading failed, and where.
fn error_text(offset: usize, why: String) -> (text: String)
    ensures
        text@ == located(offset, why@),
{
    let mut text = why;
    text.append(" (at offset ");
    text.append(decimal_text(offset as i128).as_str());
    text.append(")");
    text
}

/// The error of a local declaration that cannot be read.
fn local_error(offset: usize, why: String) -> (r: Error)
    ensures
        r.spec_failure() == local_failure((offset, why@)),
{
    let mut message = String::from_str("Getting local failed: ");
    message.append(error_text(offset, why).as_str());
    Error::Microwasm(message)
}

/// The block type of the operator that stands at `position` in `data`, if
/// that operator opens a structured block: the index of a function type, or a
/// value type.
pub open spec fn parsed_block_type(offset: usize, data: Seq<u8>, position: usize) -> Option<
    TypeOrFuncType,
> {
    match parsed_block_index(offset, data, position) {
        Some(index) => Some(TypeOrFuncType::FuncType(index)),
        None => match parsed_block_value_type(offset, data, position) {
            Some(ty) => Some(TypeOrFuncType::Type(ty)),
            None => None,
        },
    }
}

/// The block type of the operator at `position` in `data`, as the library
/// reads it.
fn block_type(offset: usize, data: &[u8], position: usize) -> (r: Option<TypeOrFuncType>)
    requires
        offset + data@.len() <= usize::MAX,
        position <= data@.len(),
    ensures
        r == parsed_block_type(offset, data@, position),
{
    match block_index(offset, data, position) {
        Some(index) => Some(TypeOrFuncType::FuncType(index)),
        None => match block_value_type(offset, data, position) {
            Some(ty) => Some(TypeOrFuncType::Type(ty)),
            None => None,
        },
    }
}

/// The first of two readings of an operator that is one.
pub open spec fn first(a: Option<WasmOperator>, b: Option<WasmOperator>) -> Option<WasmOperator> {
    if a is Some {
        a
    } else {
        b
    }
}

/// The operator at `position` in `data`, if it is a number operator: a
/// comparison, arithmetic, a conversion.
pub open spec fn parsed_numeric(offset: usize, data: Seq<u8>, position: usize) -> Option<
    WasmOperator,
> {
    let integer = first(
        first(
            first(
                parsed_i32_comparison(offset, data, position),
                parsed_i64_comparison(offset, data, position),
            ),
            first(
                parsed_i32_arithmetic(offset, data, position),
                parsed_i32_bitwise(offset, data, position),
            ),
        ),
        first(
            parsed_i64_arithmetic(offset, data, position),
            parsed_i64_bitwise(offset, data, position),
        ),
    );
    let float = first(
        first(
            first(
                parsed_f32_comparison(offset, data, position),
                parsed_f64_comparison(offset, data, position),
            ),
            first(parsed_f32_unary(offset, data, position), parsed_f32_binary(offset, data, position)),
        ),
        first(parsed_f64_unary(offset, data, position), parsed_f64_binary(offset, data, position)),
    );
    first(
        first(integer, float),
        first(
            first(parsed_to_integer(offset, data, position), parsed_to_float(offset, data, position)),
            parsed_reinterpretation(offset, data, position),
        ),
    )
}

/// The operator at `position` in `data` as the library reads it, if it is a
/// number operator.
fn numeric(offset: usize, data: &[u8], position: usize) -> (r: Option<WasmOperator>)
    requires
        offset + data@.len() <= usize::MAX,
        position <= data@.len(),
    ensures
        r == parsed_numeric(offset, data@, position),
{
    if let Some(op) = i32_comparison(offset, data, position) {
        return Some(op);
    }
    if let Some(op) = i64_comparison(offset, data, position) {
        return Some(op);
    }
    if let Some(op) = i32_arithmetic(offset, data, position) {
        return Some(op);
    }
    if let Some(op) = i32_bitwise(offset, data, position) {
        return Some(op);
    }
    if let Some(op) = i64_arithmetic(offset, data, position) {
        return Some(op);
    }
    if let Some(op) = i64_bitwise(offset, data, position) {
        return Some(op);
    }
    if let Some(op) = f32_comparison(offset, data, position) {
        return Some(op);
    }
    if let Some(op) = f64_comparison(offset, data, position) {
        return Some(op);
    }
    if let Some(op) = f32_unary(offset, data, position) {
        return Some(op);
    }
    if let Some(op) = f32_binary(offset, data, position) {
        return Some(op);
    }
    if let Some(op) = f64_unary(offset, data, position) {
        return Some(op);
    }
    if let Some(op) = f64_binary(offset, data, position) {
        return Some(op);
    }
    if let Some(op) = to_integer(offset, data, position) {
        return Some(op);
    }
    if let Some(op) = to_float(offset, data, position) {
        return Some(op);
    }
    reinterpretation(offset, data, position)
}

/// The operator at `position` in `data`, if it reads or writes memory.
pub open spec fn parsed_memory(offset: usize, data: Seq<u8>, position: usize) -> Option<
    WasmOperator,
> {
    let load = first(
        first(
            parsed_full_load(offset, data, position),
            parsed_i32_narrow_load(offset, data, position),
        ),
        first(
            parsed_i64_narrow_load(offset, data, position),
            parsed_i64_load32(offset, data, position),
        ),
    );
    let store = first(
        parsed_full_store(offset, data, position),
        first(
            parsed_i32_narrow_store(offset, data, position),
            parsed_i64_narrow_store(offset, data, position),
        ),
    );
    first(load, store)
}

/// The operator at `position` in `data` as the library reads it, if it reads
/// or writes memory.
fn memory(offset: usize, data: &[u8], position: usize) -> (r: Option<WasmOperator>)
    requires
        offset + data@.len() <= usize::MAX,
        position <= data@.len(),
    ensures
        r == parsed_memory(offset, data@, position),
{
    if let Some(op) = full_load(offset, data, position) {
        return Some(op);
    }
    if let Some(op) = i32_narrow_load(offset, data, position) {
        return Some(op);
    }
    if let Some(op) = i64_narrow_load(offset, data, position) {
        return Some(op);
    }
    if let Some(op) = i64_load32(offset, data, position) {
        return Some(op);
    }
    if let Some(op) = full_store(offset, data, position) {
        return Some(op);
    }
    if let Some(op) = i32_narrow_store(offset, data, position) {
        return Some(op);
    }
    i64_narrow_store(offset, data, position)
}

/// The operator at `position` in `data`, if it is one that carries neither a
/// block type nor a table and that the library has a variant for.
pub open spec fn parsed_plain(offset: usize, data: Seq<u8>, position: usize) -> Option<
    WasmOperator,
> {
    first(
        first(
            parsed_control(offset, data, position),
            parsed_call_or_variable(offset, data, position),
        ),
        first(
            parsed_constant_or_memory_size(offset, data, position),
            first(parsed_memory(offset, data, position), parsed_numeric(offset, data, position)),
        ),
    )
}

/// The operator at `position` in `data` as the library reads it, if it is
/// one that carries neither a block type nor a table and that the library has
/// a variant for.
fn plain(offset: usize, data: &[u8], position: usize) -> (r: Option<WasmOperator>)
    requires
        offset + data@.len() <= usize::MAX,
        position <= data@.len(),
    ensures
        r == parsed_plain(offset, data@, position),
{
    if let Some(op) = control(offset, data, position) {
        return Some(op);
    }
    if let Some(op) = call_or_variable(offset, data, position) {
        return Some(op);
    }
    if let Some(op) = constant_or_memory_size(offset, data, position) {
        return Some(op);
    }
    if let Some(op) = memory(offset, data, position) {
        return Some(op);
    }
    numeric(offset, data, position)
}

/// The operator that opens a structured block of the kind `kind`, with the
/// block type `ty`.
pub open spec fn spec_opening(kind: Structured, ty: TypeOrFuncType) -> WasmOperator {
    match kind {
        Structured::Block => WasmOperator::Block { ty },
        Structured::Loop => WasmOperator::Loop { ty },
        Structured::If => WasmOperator::If { ty },
    }
}

/// The operator that opens a structured block of the kind `kind`, with the
/// block type `ty`.
fn opening(kind: Structured, ty: TypeOrFuncType) -> (op: WasmOperator)
    ensures
        op == spec_opening(kind, ty),
{
    match kind {
        Structured::Block => WasmOperator::Block { ty },
        Structured::Loop => WasmOperator::Loop { ty },
        Structured::If => WasmOperator::If { ty },
    }
}

/// Whether `op` is the `br_table` whose table was read as `table`: with the
/// targets and the default that were read, or with no targets and the `Input`
/// error of reading them.
pub open spec fn is_table(op: WasmOperator, table: Result<(Seq<u32>, u32), Fault>) -> bool {
    op matches WasmOperator::BrTable { table: held } && match table {
        Ok((targets, default)) => held.targets@ == targets && held.default == default
            && held.error is None,
        Err(fault) => held.targets@ == Seq::<u32>::empty() && held.default == 0 && (
        held.error matches Some(e) && e.spec_failure() == input_failure(fault)),
    }
}

/// The `br_table` whose table was read as `table`.
fn table_operator(table: Result<(Vec<u32>, u32), (usize, String)>) -> (op: WasmOperator)
    ensures
        is_table(op, table_reading(Some(table))->Some_0),
{
    match table {
        Ok((targets, default)) => WasmOperator::BrTable {
            table: BrTable { targets, default, error: None },
        },
        Err((offset, why)) => WasmOperator::BrTable {
            table: BrTable {
                targets: Vec::new(),
                default: 0,
                error: Some(input_error(offset, why.as_str())),
            },
        },
    }
}

/// Whether `op` is the operator that stands at `position` in `data`, as the
/// library reads it: the opening of a structured block with its block type, a
/// `br_table` with its table, an operator that the library has a variant for,
/// or else an operator that lowering does not take, which keeps its name for
/// the error message.
pub open spec fn converted(op: WasmOperator, offset: usize, data: Seq<u8>, position: usize) -> bool {
    match (parsed_structured(offset, data, position), parsed_block_type(offset, data, position)) {
        (Some(kind), Some(ty)) => op == spec_opening(kind, ty),
        _ => match parsed_table(offset, data, position) {
            Some(table) => is_table(op, table),
            None => match parsed_plain(offset, data, position) {
                Some(known) => op == known,
                None => op matches WasmOperator::Unsupported(name) && name@
                    == parsed_operator_text(offset, data, position),
            },
        },
    }
}

/// The operator at `position` in `data` as the library reads it. An operator
/// that lowering does not take keeps its name, for the error message.
fn convert(offset: usize, data: &[u8], position: usize) -> (op: WasmOperator)
    requires
        offset + data@.len() <= usize::MAX,
        position <= data@.len(),
    ensures
        converted(op, offset, data@, position),
{
    if let Some(kind) = structured(offset, data, position) {
        if let Some(ty) = block_type(offset, data, position) {
            return opening(kind, ty);
        }
    }
    if let Some(table) = br_table(offset, data, position) {
        return table_operator(table);
    }
    match plain(offset, data, position) {
        Some(op) => op,
        None => WasmOperator::Unsupported(operator_text(offset, data, position)),
    }
}

/// Why the body `data`, which stands at `offset` in its module, cannot be
/// read at all, if it cannot: its end is past the largest offset, the number
/// of its local declarations cannot be read, or the start of its operators
/// cannot be found.
pub open spec fn read_failure(offset: usize, data: Seq<u8>) -> Option<Failure> {
    if offset + data.len() > usize::MAX {
        Some(Failure::input("Wasm module size overflowed"@))
    } else {
        match parsed_locals_start(offset, data) {
            Err(fault) => Some(input_failure(fault)),
            Ok(_) => match parsed_operators_start(offset, data) {
                Err(fault) => Some(input_failure(fault)),
                Ok(_) => None,
            },
        }
    }
}

/// The next `left` local declarations of `data` from `position` on, up to the
/// first that cannot be read, and why that one cannot be read.
pub open spec fn locals_from(offset: usize, data: Seq<u8>, position: usize, left: nat) -> (
    Seq<(u32, WasmType)>,
    Option<Failure>,
)
    decreases left,
{
    if left == 0 {
        (Seq::empty(), None)
    } else {
        match parsed_local(offset, data, position) {
            Err(fault) => (Seq::empty(), Some(local_failure(fault))),
            Ok((count, ty, end)) => {
                let more = locals_from(offset, data, end, (left - 1) as nat);
                (seq![(count, ty)] + more.0, more.1)
            },
        }
    }
}

/// The positions in `code` of the operators from `position` on, up to the
/// first that cannot be read or that stands past the largest 32-bit offset,
/// and the failure that ends them. The bytes `code` stand at `at` in the
/// module. The end of the bytes ends the operators too, with the failure that
/// the reader has for it. The reader ends no operator where it began or past
/// the bytes; such an end would end the operators like the end of the bytes.
pub open spec fn operators_from(at: usize, code: Seq<u8>, position: usize) -> (Seq<usize>, Failure)
    decreases code.len() - position,
{
    match parsed_operator_end(at, code, position) {
        Err(fault) => (Seq::empty(), input_failure(fault)),
        Ok(end) => if at + position > u32::MAX {
            (Seq::empty(), Failure::input("Wasm module size overflowed `u32`"@))
        } else if position < end <= code.len() {
            let more = operators_from(at, code, end);
            (seq![position] + more.0, more.1)
        } else {
            (Seq::empty(), Failure::input("Unexpected EOF"@))
        },
    }
}

/// Whether `read` holds the operators that stand at the positions `starts` in
/// `code`, each as the library reads it and with its offset in the module.
pub open spec fn operators_at(
    read: Seq<WithLoc<WasmOperator>>,
    at: usize,
    code: Seq<u8>,
    starts: Seq<usize>,
) -> bool {
    &&& read.len() == starts.len()
    &&& forall|i: int|
        0 <= i < read.len() ==> converted((#[trigger] read[i]).op, at, code, starts[i])
            && read[i].offset.0 == at + starts[i]
}

/// Whether `body` is what reading the bytes `data` gives, which stand at
/// `offset` in their module and can be read: the local declarations up to the
/// first that cannot be read, with the error of that one; and, where all of
/// them can be read, the operators up to the failure that ends them.
pub open spec fn is_read(body: FunctionBody, offset: usize, data: Seq<u8>) -> bool {
    let (count, first_local) = parsed_locals_start(offset, data)->Ok_0;
    let locals = locals_from(offset, data, (first_local - offset) as usize, count as nat);
    let at = parsed_operators_start(offset, data)->Ok_0;
    let operators = operators_from(at, data.skip(at - offset), 0);
    &&& body.locals@ == locals.0
    &&& match locals.1 {
        Some(failure) => {
            &&& body.locals_error matches Some(e) && e.spec_failure() == failure
            &&& body.operators@.len() == 0
            &&& body.operators_error.spec_failure() == Failure::input("Unexpected EOF"@)
        },
        None => {
            &&& body.locals_error is None
            &&& operators_at(body.operators@, at, data.skip(at - offset), operators.0)
            &&& body.operators_error.spec_failure() == operators.1
        },
    }
}

/// Taking the first declaration off the front of `left` declarations leaves
/// what `locals_from` reads after it.
proof fn lemma_locals_step(offset: usize, data: Seq<u8>, position: usize, left: nat)
    requires
        left > 0,
        parsed_local(offset, data, position) is Ok,
    ensures
        ({
            let (count, ty, end) = parsed_local(offset, data, position)->Ok_0;
            let more = locals_from(offset, data, end, (left - 1) as nat);
            locals_from(offset, data, position, left) == (seq![(count, ty)] + more.0, more.1)
        }),
{
}

/// Whatever the reader finds, a local declaration that cannot be read is
/// kept as the failure that begins `Getting local failed: ` and then says why
/// reading failed, and where.
pub proof fn lemma_locals_fault(offset: usize, data: Seq<u8>, position: usize, left: nat)
    ensures
        locals_from(offset, data, position, left).1 matches Some(failure) ==> exists|fault: Fault|
            failure == local_failure(fault),
    decreases left,
{
    if left > 0 {
        match parsed_local(offset, data, position) {
            Err(fault) => {
                assert(locals_from(offset, data, position, left).1 == Some(local_failure(fault)));
            },
            Ok((_, _, end)) => {
                lemma_locals_fault(offset, data, end, (left - 1) as nat);
            },
        }
    }
}

impl FunctionBody {
    /// Reads the body `data` of a function, which stands at `offset` in its
    /// module: its local declarations and its operators, each as far as they
    /// can be read.
    ///
    /// Fails with an `Input` error where the end of the body is past the
    /// largest offset, and where not even the number of the local declarations
    /// or the start of the operators can be read. Else the body holds the
    /// declarations up to the first that cannot be read, whose error is a
    /// `Microwasm` error that begins `Getting local failed: `; and, where all
    /// can be read, the operators up to the failure that ends them, an `Input`
    /// error. What the reader finds in the bytes is not described: the
    /// contract speaks of it by the names of its readings.
    pub fn read(offset: usize, data: &[u8]) -> (r: Result<FunctionBody, Error>)
        ensures
            match read_failure(offset, data@) {
                Some(failure) => r matches Err(e) && e.spec_failure() == failure,
                None => r matches Ok(body) && is_read(body, offset, data@),
            },
    {
        if offset > usize::MAX - data.len() {
            return Err(Error::input("Wasm module size overflowed"));
        }
        let (count, first_local) = match locals_start(offset, data) {
            Ok(start) => start,
            Err((at, why)) => {
                return Err(input_error(at, why.as_str()));
            },
        };
        let at = match operators_start(offset, data) {
            Ok(at) => at,
            Err((at, why)) => {
                return Err(input_error(at, why.as_str()));
            },
        };
        let mut body = FunctionBody {
            locals: Vec::new(),
            locals_error: None,
            operators: Vec::new(),
            operators_error: Error::input("Unexpected EOF"),
        };
        let ghost all_locals = locals_from(
            offset,
            data@,
            (first_local - offset) as usize,
            count as nat,
        );
        let mut position: usize = first_local - offset;
        let mut i: u32 = 0;
        while i < count
            invariant
                offset + data@.len() <= usize::MAX,
                position <= data@.len(),
                i <= count,
                offset <= first_local,
                read_failure(offset, data@) is None,
                parsed_locals_start(offset, data@) == Ok::<(u32, usize), Fault>(
                    (count, first_local),
                ),
                parsed_operators_start(offset, data@) == Ok::<usize, Fault>(at),
                all_locals == locals_from(
                    offset,
                    data@,
                    (first_local - offset) as usize,
                    count as nat,
                ),
                body.locals_error is None,
                body.operators@.len() == 0,
                body.operators_error.spec_failure() == Failure::input("Unexpected EOF"@),
                all_locals == (
                    body.locals@ + locals_from(offset, data@, position, (count - i) as nat).0,
                    locals_from(offset, data@, position, (count - i) as nat).1,
                ),
            decreases count - i,
        {
            let ghost before = body.locals@;
            match local(offset, data, position) {
                Ok((n, end)) => {
                    // A declaration that was read has a type.
                    let ty = match local_type(offset, data, position) {
                        Some(ty) => ty,
                        None => {
                            return Ok(body);
                        },
                    };
                    proof {
                        lemma_locals_step(offset, data@, position, (count - i) as nat);
                        let more = locals_from(offset, data@, end, (count - i - 1) as nat);
                        assert(before.push((n, ty)) + more.0 =~= before + (seq![(n, ty)] + more.0));
                    }
                    body.locals.push((n, ty));
                    position = end;
                },
                Err((at, why)) => {
                    proof {
                        assert(body.locals@ + Seq::<(u32, WasmType)>::empty() =~= body.locals@);
                    }
                    body.locals_error = Some(local_error(at, why));
                    return Ok(body);
                },
            }
            i += 1;
        }
        proof {
            assert(body.locals@ + Seq::<(u32, WasmType)>::empty() =~= body.locals@);
        }
        let start: usize = at - offset;
        let code = slice_subrange(data, start, data.len());
        let ghost all = operators_from(at, code@, 0);
        let ghost mut starts: Seq<usize> = Seq::empty();
        let mut position: usize = 0;
        loop
            invariant
                at + code@.len() <= usize::MAX,
                position <= code@.len(),
                code@ == data@.skip(at - offset),
                offset <= first_local,
                read_failure(offset, data@) is None,
                parsed_locals_start(offset, data@) == Ok::<(u32, usize), Fault>(
                    (count, first_local),
                ),
                parsed_operators_start(offset, data@) == Ok::<usize, Fault>(at),
                all_locals == locals_from(
                    offset,
                    data@,
                    (first_local - offset) as usize,
                    count as nat,
                ),
                all == operators_from(at, code@, 0),
                body.locals@ == all_locals.0,
                all_locals.1 is None,
                body.locals_error is None,
                operators_at(body.operators@, at, code@, starts),
                all == (
                    starts + operators_from(at, code@, position).0,
                    operators_from(at, code@, position).1,
                ),
            decreases code@.len() - position,
        {
            match operator_end(at, code, position) {
                Ok(end) => {
                    if at + position > u32::MAX as usize {
                        proof {
                            assert(starts + Seq::<usize>::empty() =~= starts);
                        }
                        body.operators_error = Error::input("Wasm module size overflowed `u32`");
                        return Ok(body);
                    }
                    let op = convert(at, code, position);
                    let ghost before = body.operators@;
                    body.operators.push(
                        WithLoc { op, offset: SourceLoc::new((at + position) as u32) },
                    );
                    proof {
                        let more = operators_from(at, code@, end);
                        assert(starts.push(position) + more.0 =~= starts + (seq![position]
                            + more.0));
                        assert forall|i: int| 0 <= i < body.operators@.len() implies converted(
                            (#[trigger] body.operators@[i]).op,
                            at,
                            code@,
                            starts.push(position)[i],
                        ) && body.operators@[i].offset.0 == at + starts.push(position)[i] by {
                            if i < before.len() {
                                assert(body.operators@[i] == before[i]);
                            }
                        }
                        starts = starts.push(position);
                    }
                    position = end;
                },
                Err((failed, why)) => {
                    proof {
                        assert(starts + Seq::<usize>::empty() =~= starts);
                    }
                    body.operators_error = input_error(failed, why.as_str());
                    return Ok(body);
                },
            }
        }
    }
}

} // verus!
