use lightbeam::{
    BrTable, BrTarget, BrTargetDrop, Error, ErrorKind, FunctionBody, MemoryImmediate,
    MicrowasmConv, ModuleContext, Operator, SignlessType, Size, SourceLoc, Targets, Type,
    TypeOrFuncType, Value, WasmLabel, WasmOperator, WasmType, WithLoc,
};

const I32: SignlessType = Type::Int(Size::_32);

fn ops(body: &FunctionBody) -> Vec<WasmOperator> {
    body.operators.iter().map(|op| op.op.clone()).collect()
}

#[test]
fn body_of_constant_function_is_read_and_lowered() {
    let data = [0x00, 0x41, 0x07, 0x0b];
    let body = FunctionBody::read(100, &data).unwrap();
    assert!(body.locals.is_empty());
    assert_eq!(body.locals_error, None);
    assert_eq!(
        body.operators,
        vec![
            WithLoc { op: WasmOperator::I32Const { value: 7 }, offset: SourceLoc::new(101) },
            WithLoc { op: WasmOperator::End, offset: SourceLoc::new(103) },
        ]
    );
    assert_eq!(body.operators_error.kind(), ErrorKind::Input);
    assert_eq!(body.operators_error, Error::Input("At wasm offset 104: Unexpected EOF".to_string()));

    let module = ModuleContext { signatures: vec![], functions: vec![], globals: vec![] };
    let mut conv = MicrowasmConv::new(&module, vec![], vec![I32], body, I32).unwrap();
    let mut lowered: Vec<Operator<WasmLabel>> = Vec::new();
    while let Some(batch) = conv.next().unwrap() {
        lowered.extend(batch.into_iter().map(|op| op.op));
    }
    assert_eq!(
        lowered,
        vec![
            Operator::Const(Value::I32(7)),
            Operator::Const(Value::I32(0)),
            Operator::End(Targets {
                targets: vec![],
                default: BrTargetDrop { target: BrTarget::Return, to_drop: None }
            }),
        ]
    );
}

#[test]
fn local_declarations_are_read_with_their_types() {
    let data = [0x03, 0x02, 0x7f, 0x01, 0x7e, 0x04, 0x7c, 0x0b];
    let body = FunctionBody::read(0, &data).unwrap();
    assert_eq!(body.locals, vec![(2, WasmType::I32), (1, WasmType::I64), (4, WasmType::F64)]);
    assert_eq!(ops(&body), vec![WasmOperator::End]);
}

#[test]
fn local_declaration_that_cannot_be_read_is_kept_as_an_error() {
    // Two declarations are announced; the second names no type.
    let data = [0x02, 0x01, 0x7f, 0x01, 0x00, 0x0b];
    let body = FunctionBody::read(0, &data).unwrap();
    assert_eq!(body.locals, vec![(1, WasmType::I32)]);
    let error = body.locals_error.clone().unwrap();
    assert_eq!(error.kind(), ErrorKind::Microwasm);
    assert_eq!(error.message(), "Getting local failed: Invalid type (at offset 4)");
    let module = ModuleContext { signatures: vec![], functions: vec![], globals: vec![] };
    let r = MicrowasmConv::new(&module, vec![], vec![], body, I32);
    assert_eq!(r.err(), Some(error));
}

#[test]
fn body_without_local_count_is_an_input_error() {
    let r = FunctionBody::read(8, &[]);
    assert_eq!(r, Err(Error::Input("At wasm offset 8: Unexpected EOF".to_string())));
}

#[test]
fn structured_blocks_keep_their_block_types() {
    let data = [0x00, 0x02, 0x40, 0x03, 0x7f, 0x04, 0x05, 0x05, 0x0b, 0x0b, 0x0b, 0x0b];
    let body = FunctionBody::read(0, &data).unwrap();
    assert_eq!(
        ops(&body),
        vec![
            WasmOperator::Block { ty: TypeOrFuncType::Type(WasmType::EmptyBlockType) },
            WasmOperator::Loop { ty: TypeOrFuncType::Type(WasmType::I32) },
            WasmOperator::If { ty: TypeOrFuncType::FuncType(5) },
            WasmOperator::Else,
            WasmOperator::End,
            WasmOperator::End,
            WasmOperator::End,
            WasmOperator::End,
        ]
    );
}

#[test]
fn operators_with_immediates_keep_them() {
    let data = [
        0x00, // no locals
        0x0c, 0x01, // br 1
        0x0d, 0x02, // br_if 2
        0x0e, 0x02, 0x00, 0x01, 0x03, // br_table 0 1, default 3
        0x10, 0x07, // call 7
        0x11, 0x03, 0x00, // call_indirect type 3 table 0
        0x20, 0x01, 0x21, 0x02, 0x22, 0x03, // local.get 1, local.set 2, local.tee 3
        0x23, 0x04, 0x24, 0x05, // global.get 4, global.set 5
        0x28, 0x02, 0x10, // i32.load align 2 offset 16
        0x37, 0x03, 0x08, // i64.store align 3 offset 8
        0x3e, 0x02, 0x00, // i64.store32
        0x3f, 0x00, 0x40, 0x00, // memory.size, memory.grow
        0x42, 0x7f, // i64.const -1
        0x43, 0x00, 0x00, 0x80, 0x3f, // f32.const 1.0
        0x44, 0x00, 0x00, 0x00, 0x00, 0x00, 0x00, 0xf0, 0x3f, // f64.const 1.0
        0x1a, 0x1b, 0x0f, 0x00, 0x01, // drop select return unreachable nop
        0x0b,
    ];
    let body = FunctionBody::read(0, &data).unwrap();
    assert_eq!(
        ops(&body),
        vec![
            WasmOperator::Br { relative_depth: 1 },
            WasmOperator::BrIf { relative_depth: 2 },
            WasmOperator::BrTable {
                table: BrTable { targets: vec![0, 1], default: 3, error: None }
            },
            WasmOperator::Call { function_index: 7 },
            WasmOperator::CallIndirect { index: 3, table_index: 0 },
            WasmOperator::LocalGet { local_index: 1 },
            WasmOperator::LocalSet { local_index: 2 },
            WasmOperator::LocalTee { local_index: 3 },
            WasmOperator::GlobalGet { global_index: 4 },
            WasmOperator::GlobalSet { global_index: 5 },
            WasmOperator::I32Load { memarg: MemoryImmediate { flags: 2, offset: 16 } },
            WasmOperator::I64Store { memarg: MemoryImmediate { flags: 3, offset: 8 } },
            WasmOperator::I64Store32 { memarg: MemoryImmediate { flags: 2, offset: 0 } },
            WasmOperator::MemorySize { reserved: 0 },
            WasmOperator::MemoryGrow { reserved: 0 },
            WasmOperator::I64Const { value: -1 },
            WasmOperator::F32Const { value: lightbeam::Ieee32::from_bits(0x3f80_0000) },
            WasmOperator::F64Const { value: lightbeam::Ieee64::from_bits(0x3ff0_0000_0000_0000) },
            WasmOperator::Drop,
            WasmOperator::Select,
            WasmOperator::Return,
            WasmOperator::Unreachable,
            WasmOperator::Nop,
            WasmOperator::End,
        ]
    );
}

#[test]
fn every_memory_operator_goes_to_its_namesake() {
    for opcode in 0x28u8..=0x3e {
        let data = [0x00, opcode, 0x01, 0x20];
        let body = FunctionBody::read(0, &data).unwrap();
        let mut reader = wasmparser::BinaryReader::new(&data[1..]);
        let parsed = reader.read_operator().unwrap();
        let expected = format!("{:?}", parsed);
        assert_eq!(body.operators.len(), 1, "opcode {:#x}", opcode);
        assert_eq!(format!("{:?}", body.operators[0].op), expected, "opcode {:#x}", opcode);
    }
}

#[test]
fn every_number_operator_goes_to_its_namesake() {
    for opcode in 0x45u8..=0xc4 {
        let data = [0x00, opcode];
        let body = FunctionBody::read(0, &data).unwrap();
        let mut reader = wasmparser::BinaryReader::new(&data[1..]);
        let parsed = reader.read_operator().unwrap();
        assert_eq!(body.operators.len(), 1, "opcode {:#x}", opcode);
        let read = format!("{:?}", body.operators[0].op);
        assert_eq!(read, format!("{:?}", parsed), "opcode {:#x}", opcode);
        assert!(!read.starts_with("Unsupported"), "opcode {:#x}", opcode);
    }
}

#[test]
fn operator_that_is_not_taken_keeps_its_name() {
    let data = [0x00, 0xfc, 0x00, 0xd1, 0x0b];
    let body = FunctionBody::read(0, &data).unwrap();
    assert_eq!(
        ops(&body),
        vec![
            WasmOperator::Unsupported("I32TruncSatF32S".to_string()),
            WasmOperator::Unsupported("RefIsNull".to_string()),
            WasmOperator::End,
        ]
    );
    let module = ModuleContext { signatures: vec![], functions: vec![], globals: vec![] };
    let mut conv = MicrowasmConv::new(&module, vec![], vec![], body, I32).unwrap();
    assert_eq!(conv.next().unwrap(), Some(vec![]));
    let failed = conv.next().unwrap_err();
    assert_eq!(failed.kind(), ErrorKind::Microwasm);
}

#[test]
fn operator_that_cannot_be_read_ends_the_body_with_its_error() {
    let data = [0x00, 0x41, 0x07, 0xff, 0x0b];
    let body = FunctionBody::read(0, &data).unwrap();
    assert_eq!(ops(&body), vec![WasmOperator::I32Const { value: 7 }]);
    assert_eq!(body.operators_error.kind(), ErrorKind::Input);
    assert!(body.operators_error.message().starts_with("At wasm offset 3: "));
}

#[test]
fn body_whose_end_is_no_offset_is_an_input_error() {
    let r = FunctionBody::read(usize::MAX, &[0x00, 0x0b]);
    assert_eq!(r, Err(Error::Input("Wasm module size overflowed".to_string())));
    // The end of the body may be the largest offset.
    assert!(FunctionBody::read(usize::MAX - 2, &[0x00, 0x0b]).is_ok());
}

#[test]
fn operator_past_the_largest_short_offset_ends_the_body() {
    let data = [0x00, 0x01, 0x01, 0x0b];
    // The first operator stands at the largest 32-bit offset, the second past it.
    let body = FunctionBody::read(u32::MAX as usize - 1, &data).unwrap();
    assert_eq!(
        body.operators,
        vec![WithLoc { op: WasmOperator::Nop, offset: SourceLoc::new(u32::MAX) }]
    );
    assert_eq!(
        body.operators_error,
        Error::Input("Wasm module size overflowed `u32`".to_string())
    );
}

#[test]
fn br_table_that_cannot_be_read_keeps_its_error() {
    // One target is announced; its fifth byte has bits that a 32-bit number lacks.
    let data = [0x00, 0x0e, 0x01, 0x80, 0x80, 0x80, 0x80, 0x70, 0x00, 0x0b];
    let body = FunctionBody::read(0, &data).unwrap();
    assert_eq!(
        ops(&body),
        vec![
            WasmOperator::BrTable {
                table: BrTable {
                    targets: vec![],
                    default: 0,
                    error: Some(Error::Input("At wasm offset 4: Invalid var_u32".to_string())),
                }
            },
            WasmOperator::End,
        ]
    );
}

#[test]
fn operators_after_locals_have_their_offsets_in_the_module() {
    // Two declarations, then `local.get 2`, `drop`, `end`.
    let data = [0x02, 0x02, 0x7f, 0x01, 0x7e, 0x20, 0x02, 0x1a, 0x0b];
    let body = FunctionBody::read(50, &data).unwrap();
    assert_eq!(body.locals, vec![(2, WasmType::I32), (1, WasmType::I64)]);
    assert_eq!(body.locals_error, None);
    assert_eq!(
        body.operators,
        vec![
            WithLoc { op: WasmOperator::LocalGet { local_index: 2 }, offset: SourceLoc::new(55) },
            WithLoc { op: WasmOperator::Drop, offset: SourceLoc::new(57) },
            WithLoc { op: WasmOperator::End, offset: SourceLoc::new(58) },
        ]
    );
    assert_eq!(body.operators_error, Error::Input("At wasm offset 59: Unexpected EOF".to_string()));
}
