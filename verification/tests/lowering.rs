use lightbeam::{
    BrTable, BrTarget, BrTargetDrop, DropRange, Error, ErrorKind, Function, FunctionBody,
    MicrowasmConv, ModuleContext, NameTag, NumCallers, Operator, Params, Signature, SignlessType,
    Size, SourceLoc, Targets, Type, TypeOrFuncType, Value, WasmLabel, WasmOperator, WasmType,
    WithLoc,
};

const I32: SignlessType = Type::Int(Size::_32);
const I64: SignlessType = Type::Int(Size::_64);
const F64: SignlessType = Type::Float(Size::_64);

fn no_module() -> ModuleContext {
    ModuleContext { signatures: vec![], functions: vec![], globals: vec![] }
}

fn end_of_body() -> Error {
    Error::Input("Unexpected EOF".to_string())
}

fn body(locals: Vec<(u32, WasmType)>, ops: Vec<WasmOperator>) -> FunctionBody {
    FunctionBody {
        locals,
        locals_error: None,
        operators: ops
            .into_iter()
            .enumerate()
            .map(|(i, op)| WithLoc { op, offset: SourceLoc::new(10 + i as u32) })
            .collect(),
        operators_error: end_of_body(),
    }
}

fn lower_with(
    module: &ModuleContext,
    params: Vec<SignlessType>,
    results: Vec<SignlessType>,
    func_body: FunctionBody,
) -> Result<Vec<Operator<WasmLabel>>, Error> {
    let mut conv = MicrowasmConv::new(module, params, results, func_body, I32)?;
    let mut out = Vec::new();
    while let Some(batch) = conv.next()? {
        out.extend(batch.into_iter().map(|op| op.op));
    }
    Ok(out)
}

fn lower(
    params: Vec<SignlessType>,
    results: Vec<SignlessType>,
    ops: Vec<WasmOperator>,
) -> Result<Vec<Operator<WasmLabel>>, Error> {
    lower_with(&no_module(), params, results, body(vec![], ops))
}

fn zero() -> Operator<WasmLabel> {
    Operator::Const(Value::I32(0))
}

fn jump(target: BrTarget<WasmLabel>) -> Operator<WasmLabel> {
    Operator::End(Targets { targets: vec![], default: BrTargetDrop { target, to_drop: None } })
}

fn declare(
    label: WasmLabel,
    params: Vec<SignlessType>,
    has_backwards_callers: bool,
    num_callers: NumCallers,
) -> Operator<WasmLabel> {
    Operator::Declare { label, params: Params::new(params), has_backwards_callers, num_callers }
}

fn empty_block() -> TypeOrFuncType {
    TypeOrFuncType::Type(WasmType::EmptyBlockType)
}

#[test]
fn constant_function_lowers_to_constant_and_return() {
    let ops = lower(
        vec![],
        vec![I32],
        vec![WasmOperator::I32Const { value: 7 }, WasmOperator::End],
    )
    .unwrap();
    assert_eq!(ops, vec![Operator::Const(Value::I32(7)), zero(), jump(BrTarget::Return)]);
}

#[test]
fn first_batch_holds_the_zeroes_of_the_locals() {
    let module = no_module();
    let func_body = body(
        vec![(2, WasmType::I64), (1, WasmType::F64)],
        vec![WasmOperator::End],
    );
    let mut conv = MicrowasmConv::new(&module, vec![I32], vec![], func_body, I32).unwrap();
    let first = conv.next().unwrap().unwrap();
    assert_eq!(
        first,
        vec![
            WithLoc { op: Operator::Const(Value::I64(0)), offset: SourceLoc::default() },
            WithLoc { op: Operator::Const(Value::I64(0)), offset: SourceLoc::default() },
            WithLoc {
                op: Operator::Const(Value::F64(lightbeam::Ieee64::from_bits(0))),
                offset: SourceLoc::default()
            },
        ]
    );
    let last = conv.next().unwrap().unwrap();
    assert_eq!(
        last,
        vec![
            WithLoc { op: zero(), offset: SourceLoc::new(10) },
            WithLoc { op: jump(BrTarget::Return), offset: SourceLoc::new(10) },
        ]
    );
    assert!(conv.is_done());
    assert_eq!(conv.next().unwrap(), None);
    assert_eq!(conv.next().unwrap(), None);
}

#[test]
fn local_get_of_parameter_picks_it() {
    let ops = lower(
        vec![I32],
        vec![],
        vec![WasmOperator::LocalGet { local_index: 0 }, WasmOperator::End],
    )
    .unwrap();
    assert_eq!(ops, vec![Operator::Pick(0), zero(), jump(BrTarget::Return)]);
}

#[test]
fn branch_out_of_block_with_result() {
    let ops = lower(
        vec![],
        vec![],
        vec![
            WasmOperator::Block { ty: TypeOrFuncType::Type(WasmType::I32) },
            WasmOperator::I32Const { value: 1 },
            WasmOperator::Br { relative_depth: 0 },
            WasmOperator::End,
            WasmOperator::Drop,
            WasmOperator::End,
        ],
    )
    .unwrap();
    let end = (0, NameTag::End);
    assert_eq!(
        ops,
        vec![
            declare(end, vec![I32], false, NumCallers::Many),
            Operator::Const(Value::I32(1)),
            zero(),
            jump(BrTarget::Label(end)),
            Operator::Start(end),
            Operator::Drop(DropRange::new(0, 0)),
            zero(),
            jump(BrTarget::Return),
        ]
    );
}

#[test]
fn loop_branches_back_to_its_header() {
    let ops = lower(
        vec![],
        vec![],
        vec![
            WasmOperator::Loop { ty: empty_block() },
            WasmOperator::Br { relative_depth: 0 },
            WasmOperator::End,
            WasmOperator::End,
        ],
    )
    .unwrap();
    let header = (0, NameTag::Header);
    let end = (0, NameTag::End);
    assert_eq!(
        ops,
        vec![
            declare(header, vec![], true, NumCallers::Many),
            declare(end, vec![], false, NumCallers::Many),
            zero(),
            jump(BrTarget::Label(header)),
            Operator::Start(header),
            zero(),
            jump(BrTarget::Label(header)),
            Operator::Start(end),
            zero(),
            jump(BrTarget::Return),
        ]
    );
}

#[test]
fn if_with_else_and_result() {
    let ops = lower(
        vec![],
        vec![I32],
        vec![
            WasmOperator::I32Const { value: 1 },
            WasmOperator::If { ty: TypeOrFuncType::Type(WasmType::I32) },
            WasmOperator::I32Const { value: 2 },
            WasmOperator::Else,
            WasmOperator::I32Const { value: 3 },
            WasmOperator::End,
            WasmOperator::End,
        ],
    )
    .unwrap();
    let header = (0, NameTag::Header);
    let else_ = (0, NameTag::Else);
    let end = (0, NameTag::End);
    assert_eq!(
        ops,
        vec![
            Operator::Const(Value::I32(1)),
            declare(header, vec![], false, NumCallers::One),
            declare(else_, vec![], false, NumCallers::One),
            declare(end, vec![I32], false, NumCallers::Many),
            Operator::End(Targets {
                targets: vec![BrTargetDrop { target: BrTarget::Label(else_), to_drop: None }],
                default: BrTargetDrop { target: BrTarget::Label(header), to_drop: None },
            }),
            Operator::Start(header),
            Operator::Const(Value::I32(2)),
            zero(),
            jump(BrTarget::Label(end)),
            Operator::Start(else_),
            Operator::Const(Value::I32(3)),
            zero(),
            jump(BrTarget::Label(end)),
            Operator::Start(end),
            zero(),
            jump(BrTarget::Return),
        ]
    );
}

#[test]
fn if_without_else_gets_an_else_that_jumps_to_the_end() {
    let ops = lower(
        vec![I32],
        vec![],
        vec![
            WasmOperator::LocalGet { local_index: 0 },
            WasmOperator::If { ty: empty_block() },
            WasmOperator::Nop,
            WasmOperator::End,
            WasmOperator::End,
        ],
    )
    .unwrap();
    let header = (0, NameTag::Header);
    let else_ = (0, NameTag::Else);
    let end = (0, NameTag::End);
    assert_eq!(
        ops,
        vec![
            Operator::Pick(0),
            declare(header, vec![I32], false, NumCallers::One),
            declare(else_, vec![I32], false, NumCallers::One),
            declare(end, vec![I32], false, NumCallers::Many),
            Operator::End(Targets {
                targets: vec![BrTargetDrop { target: BrTarget::Label(else_), to_drop: None }],
                default: BrTargetDrop { target: BrTarget::Label(header), to_drop: None },
            }),
            Operator::Start(header),
            zero(),
            jump(BrTarget::Label(end)),
            Operator::Start(else_),
            zero(),
            jump(BrTarget::Label(end)),
            Operator::Start(end),
            zero(),
            jump(BrTarget::Return),
        ]
    );
}

#[test]
fn br_if_wraps_the_branch_in_a_fresh_block() {
    let ops = lower(
        vec![I32],
        vec![],
        vec![
            WasmOperator::Block { ty: empty_block() },
            WasmOperator::I64Const { value: 5 },
            WasmOperator::LocalGet { local_index: 0 },
            WasmOperator::BrIf { relative_depth: 0 },
            WasmOperator::Drop,
            WasmOperator::End,
            WasmOperator::End,
        ],
    )
    .unwrap();
    let end = (0, NameTag::End);
    let skip = (1, NameTag::Header);
    assert_eq!(
        ops,
        vec![
            declare(end, vec![I32], false, NumCallers::Many),
            Operator::Const(Value::I64(5)),
            Operator::Pick(1),
            declare(skip, vec![I32, I64], false, NumCallers::One),
            Operator::End(Targets {
                targets: vec![BrTargetDrop { target: BrTarget::Label(skip), to_drop: None }],
                default: BrTargetDrop {
                    target: BrTarget::Label(end),
                    to_drop: Some(DropRange::new(0, 0)),
                },
            }),
            Operator::Start(skip),
            Operator::Drop(DropRange::new(0, 0)),
            zero(),
            jump(BrTarget::Label(end)),
            Operator::Start(end),
            zero(),
            jump(BrTarget::Return),
        ]
    );
}

#[test]
fn br_table_names_every_target_with_its_drop() {
    let ops = lower(
        vec![I32],
        vec![],
        vec![
            WasmOperator::Block { ty: empty_block() },
            WasmOperator::Loop { ty: empty_block() },
            WasmOperator::I64Const { value: 9 },
            WasmOperator::LocalGet { local_index: 0 },
            WasmOperator::BrTable {
                table: BrTable { targets: vec![0, 1], default: 2, error: None },
            },
            WasmOperator::End,
            WasmOperator::End,
            WasmOperator::End,
        ],
    )
    .unwrap();
    let block_end = (0, NameTag::End);
    let header = (1, NameTag::Header);
    let loop_end = (1, NameTag::End);
    assert_eq!(
        ops,
        vec![
            declare(block_end, vec![I32], false, NumCallers::Many),
            declare(header, vec![I32], true, NumCallers::Many),
            declare(loop_end, vec![I32], false, NumCallers::Many),
            zero(),
            jump(BrTarget::Label(header)),
            Operator::Start(header),
            Operator::Const(Value::I64(9)),
            Operator::Pick(1),
            Operator::End(Targets {
                targets: vec![
                    BrTargetDrop {
                        target: BrTarget::Label(header),
                        to_drop: Some(DropRange::new(0, 0)),
                    },
                    BrTargetDrop {
                        target: BrTarget::Label(block_end),
                        to_drop: Some(DropRange::new(0, 0)),
                    },
                ],
                default: BrTargetDrop {
                    target: BrTarget::Return,
                    to_drop: Some(DropRange::new(0, 1)),
                },
            }),
            Operator::Start(loop_end),
            zero(),
            jump(BrTarget::Label(block_end)),
            Operator::Start(block_end),
            zero(),
            jump(BrTarget::Return),
        ]
    );
}

#[test]
fn unreachable_code_is_skipped_up_to_the_end_of_its_block() {
    let ops = lower(
        vec![],
        vec![],
        vec![
            WasmOperator::Block { ty: empty_block() },
            WasmOperator::Unreachable,
            WasmOperator::I32Const { value: 1 },
            WasmOperator::Block { ty: empty_block() },
            WasmOperator::I32Add,
            WasmOperator::End,
            WasmOperator::End,
            WasmOperator::End,
        ],
    )
    .unwrap();
    let end = (0, NameTag::End);
    assert_eq!(
        ops,
        vec![
            declare(end, vec![], false, NumCallers::Many),
            Operator::Unreachable,
            Operator::Start(end),
            zero(),
            jump(BrTarget::Return),
        ]
    );
}

#[test]
fn return_drops_everything_under_the_results() {
    let ops = lower(
        vec![I32, I64],
        vec![I64],
        vec![
            WasmOperator::LocalGet { local_index: 1 },
            WasmOperator::Return,
            WasmOperator::End,
        ],
    )
    .unwrap();
    assert_eq!(
        ops,
        vec![
            Operator::Pick(0),
            Operator::Drop(DropRange::new(1, 2)),
            zero(),
            jump(BrTarget::Return),
        ]
    );
}

#[test]
fn local_set_and_tee_swap_into_the_local() {
    let ops = lower(
        vec![I32, I32],
        vec![],
        vec![
            WasmOperator::I32Const { value: 4 },
            WasmOperator::LocalTee { local_index: 0 },
            WasmOperator::LocalSet { local_index: 1 },
            WasmOperator::End,
        ],
    )
    .unwrap();
    assert_eq!(
        ops,
        vec![
            Operator::Const(Value::I32(4)),
            Operator::Pick(0),
            Operator::Swap(3),
            Operator::Drop(DropRange::new(0, 0)),
            Operator::Swap(1),
            Operator::Drop(DropRange::new(0, 0)),
            zero(),
            jump(BrTarget::Return),
        ]
    );
}

#[test]
fn call_takes_its_signature_from_the_module() {
    let module = ModuleContext {
        signatures: vec![Signature { params: vec![I32, I64], returns: vec![F64] }],
        functions: vec![Function { type_index: 0, defined_index: Some(0) }],
        globals: vec![I64],
    };
    let ops = lower_with(
        &module,
        vec![],
        vec![F64],
        body(
            vec![],
            vec![
                WasmOperator::I32Const { value: 1 },
                WasmOperator::GlobalGet { global_index: 0 },
                WasmOperator::Call { function_index: 0 },
                WasmOperator::End,
            ],
        ),
    )
    .unwrap();
    assert_eq!(
        ops,
        vec![
            Operator::Const(Value::I32(1)),
            Operator::GlobalGet(0),
            Operator::Call { function_index: 0 },
            zero(),
            jump(BrTarget::Return),
        ]
    );
    let wrong = lower_with(
        &module,
        vec![],
        vec![F64],
        body(
            vec![],
            vec![
                WasmOperator::GlobalGet { global_index: 0 },
                WasmOperator::I32Const { value: 1 },
                WasmOperator::Call { function_index: 0 },
                WasmOperator::End,
            ],
        ),
    );
    assert_eq!(wrong.unwrap_err().kind(), ErrorKind::Microwasm);
    let missing = lower_with(
        &module,
        vec![],
        vec![],
        body(vec![], vec![WasmOperator::Call { function_index: 3 }, WasmOperator::End]),
    );
    assert_eq!(missing.unwrap_err().kind(), ErrorKind::Input);
}

#[test]
fn type_mismatch_is_a_microwasm_error() {
    let r = lower(
        vec![],
        vec![],
        vec![
            WasmOperator::I64Const { value: 1 },
            WasmOperator::I32Const { value: 1 },
            WasmOperator::I32Add,
            WasmOperator::End,
        ],
    );
    assert_eq!(r.unwrap_err().kind(), ErrorKind::Microwasm);
}

#[test]
fn empty_stack_is_a_microwasm_error() {
    let r = lower(vec![], vec![], vec![WasmOperator::Drop, WasmOperator::End]);
    assert_eq!(r, Err(Error::Microwasm("Stack is empty".to_string())));
}

#[test]
fn unsupported_operator_is_a_microwasm_error() {
    let r = lower(
        vec![],
        vec![],
        vec![WasmOperator::Unsupported("MemoryCopy".to_string()), WasmOperator::End],
    );
    assert_eq!(r.unwrap_err().kind(), ErrorKind::Microwasm);
}

#[test]
fn invalid_block_type_is_an_input_error() {
    let r = lower(
        vec![],
        vec![],
        vec![
            WasmOperator::Block { ty: TypeOrFuncType::Type(WasmType::V128) },
            WasmOperator::End,
            WasmOperator::End,
        ],
    );
    assert_eq!(r, Err(Error::Input("Invalid type".to_string())));
}

#[test]
fn local_out_of_range_is_a_microwasm_error() {
    let r = lower(
        vec![I32],
        vec![],
        vec![WasmOperator::LocalGet { local_index: 1 }, WasmOperator::End],
    );
    assert_eq!(r, Err(Error::Microwasm("LocalGet - Local out of range".to_string())));
}

#[test]
fn operand_is_not_a_local() {
    // With no parameters and no locals, the constant on the stack is an
    // operand: index 0 names no local.
    let get = lower(
        vec![],
        vec![],
        vec![WasmOperator::I32Const { value: 1 }, WasmOperator::LocalGet { local_index: 0 }, WasmOperator::End],
    );
    assert_eq!(get, Err(Error::Microwasm("LocalGet - Local out of range".to_string())));
    let set = lower(
        vec![I32],
        vec![],
        vec![
            WasmOperator::I32Const { value: 1 },
            WasmOperator::I32Const { value: 2 },
            WasmOperator::LocalSet { local_index: 1 },
            WasmOperator::End,
        ],
    );
    assert_eq!(set, Err(Error::Microwasm("LocalSet - Local out of range".to_string())));
    let tee = lower(
        vec![],
        vec![],
        vec![
            WasmOperator::I32Const { value: 1 },
            WasmOperator::I32Const { value: 2 },
            WasmOperator::LocalTee { local_index: 0 },
            WasmOperator::End,
        ],
    );
    assert_eq!(tee, Err(Error::Microwasm("LocalTee - Local out of range".to_string())));
}

#[test]
fn branch_past_the_function_is_a_microwasm_error() {
    let r = lower(vec![], vec![], vec![WasmOperator::Br { relative_depth: 1 }, WasmOperator::End]);
    assert_eq!(r.unwrap_err().kind(), ErrorKind::Microwasm);
}

#[test]
fn invalid_local_type_is_a_microwasm_error() {
    let module = no_module();
    let r = MicrowasmConv::new(
        &module,
        vec![],
        vec![],
        body(vec![(1, WasmType::FuncRef)], vec![WasmOperator::End]),
        I32,
    );
    assert_eq!(r.err(), Some(Error::Microwasm("Invalid local type".to_string())));
}

#[test]
fn reading_past_the_body_gives_the_error_of_the_body() {
    let r = lower(vec![], vec![], vec![WasmOperator::Nop]);
    assert_eq!(r, Err(end_of_body()));
}

#[test]
fn nothing_is_read_after_the_end_of_the_function() {
    let ops = lower(
        vec![],
        vec![],
        vec![WasmOperator::End, WasmOperator::Unsupported("junk".to_string())],
    )
    .unwrap();
    assert_eq!(ops, vec![zero(), jump(BrTarget::Return)]);
}

#[test]
fn every_start_follows_exactly_one_declaration() {
    let ops = lower(
        vec![I32],
        vec![I32],
        vec![
            WasmOperator::Block { ty: TypeOrFuncType::Type(WasmType::I32) },
            WasmOperator::LocalGet { local_index: 0 },
            WasmOperator::If { ty: TypeOrFuncType::Type(WasmType::I32) },
            WasmOperator::Loop { ty: empty_block() },
            WasmOperator::LocalGet { local_index: 0 },
            WasmOperator::BrIf { relative_depth: 0 },
            WasmOperator::LocalGet { local_index: 0 },
            WasmOperator::BrTable { table: BrTable { targets: vec![0, 1], default: 2, error: None } },
            WasmOperator::End,
            WasmOperator::I32Const { value: 1 },
            WasmOperator::Else,
            WasmOperator::I32Const { value: 2 },
            WasmOperator::Return,
            WasmOperator::End,
            WasmOperator::End,
            WasmOperator::If { ty: empty_block() },
            WasmOperator::Unreachable,
            WasmOperator::End,
            WasmOperator::I32Const { value: 3 },
            WasmOperator::End,
        ],
    )
    .unwrap();
    let mut starts = 0;
    for (j, op) in ops.iter().enumerate() {
        if let Operator::Start(label) = op {
            starts += 1;
            let declared_before = ops[..j]
                .iter()
                .filter(|op| matches!(op, Operator::Declare { label: l, .. } if l == label))
                .count();
            let declared = ops
                .iter()
                .filter(|op| matches!(op, Operator::Declare { label: l, .. } if l == label))
                .count();
            let started = ops.iter().filter(|op| matches!(op, Operator::Start(l) if l == label)).count();
            assert_eq!((declared_before, declared, started), (1, 1, 1), "label {:?}", label);
        }
    }
    assert_eq!(starts, 10);
}
