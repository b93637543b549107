use dynasmrt::components::LabelRegistry;
use dynasmrt::AssemblyOffset;
use lightbeam::{
    Action, BrAction, BrTarget, BrTargetDrop, CCLoc, CallingConvention, Driver, DropRange, Error,
    ErrorKind, Event, Function, Label, Listing, Locs, MaybeCCLoc, MemoryImmediate, ModuleContext,
    NameTag, NumCallers, Operator, Params, Primitive, Signature, Signedness, SignfulInt,
    SignlessType, Size, SourceLoc, StackDepth, Target, Targets, TrapReason, Type, Value,
    ValueLocation, WasmLabel, WithLoc, GPR,
};

const I32: SignlessType = Type::Int(Size::_32);

fn module() -> ModuleContext {
    ModuleContext {
        signatures: vec![
            Signature { params: vec![], returns: vec![] },
            Signature { params: vec![I32], returns: vec![I32] },
            Signature { params: vec![], returns: vec![I32, I32] },
        ],
        functions: vec![
            Function { type_index: 1, defined_index: None },
            Function { type_index: 0, defined_index: Some(0) },
            Function { type_index: 1, defined_index: Some(1) },
            Function { type_index: 2, defined_index: Some(2) },
        ],
        globals: vec![],
    }
}

fn reg(n: u8) -> ValueLocation {
    ValueLocation::Reg(GPR::Rq(n))
}

fn convention(locs: Vec<ValueLocation>, depth: Option<u32>) -> CallingConvention {
    CallingConvention {
        arguments: Locs { locs, max_depth: StackDepth(2) },
        depth: depth.map(StackDepth),
    }
}

struct Harness<'a> {
    driver: Driver<'a, WasmLabel>,
    labels: LabelRegistry,
    offset: usize,
}

impl<'a> Harness<'a> {
    fn new(module: &'a ModuleContext) -> Self {
        let mut listing = Vec::new();
        let (mut driver, action) = Driver::new(module, 0, &mut listing, AssemblyOffset(0)).unwrap();
        assert!(listing.is_empty());
        assert!(matches!(
            action,
            Action::StartFunction { ref params, ref results } if params.is_empty() && results.is_empty()
        ));
        let next = driver.on(Event::Convention(convention(vec![], None))).unwrap();
        assert!(matches!(next, Action::Next));
        Harness { driver, labels: LabelRegistry::new(), offset: 0 }
    }

    fn op(
        &mut self,
        op: Operator<WasmLabel>,
        next_start: Option<WasmLabel>,
    ) -> Result<Action, Error> {
        self.offset += 4;
        self.driver.on(Event::Operator {
            op,
            offset: SourceLoc::new(7),
            next_start,
            machine_offset: AssemblyOffset(self.offset),
        })
    }

    fn declare(&mut self, label: WasmLabel, params: usize, num_callers: NumCallers) -> Label {
        let action = self
            .op(
                Operator::Declare {
                    label,
                    params: Params::new(vec![I32; params]),
                    has_backwards_callers: false,
                    num_callers,
                },
                None,
            )
            .unwrap();
        assert!(matches!(action, Action::CreateLabel));
        let machine_label = Label(self.labels.new_dynamic_label());
        let next = self.driver.on(Event::Label(machine_label)).unwrap();
        assert!(matches!(next, Action::Next));
        machine_label
    }

    fn jump_to(&mut self, label: WasmLabel, place: ValueLocation) {
        let action = self.op(Operator::End(Targets::to(BrTarget::Label(label))), None).unwrap();
        match action {
            Action::SerializeBlockArgs { locs, depth } => {
                assert_eq!(locs, vec![MaybeCCLoc::Serialize, MaybeCCLoc::NoSerialize]);
                assert_eq!(depth, None);
            }
            other => panic!("unexpected action {:?}", other),
        }
        let done = self.driver.on(Event::Convention(convention(vec![place, reg(9)], None))).unwrap();
        assert!(matches!(done, Action::EndBlock { .. }));
    }
}

const A: WasmLabel = (0, NameTag::End);
const B: WasmLabel = (1, NameTag::End);

#[test]
fn disagreeing_target_gets_one_adaptor() {
    let module = module();
    let mut h = Harness::new(&module);
    let la = h.declare(A, 1, NumCallers::Many);
    let _lb = h.declare(B, 1, NumCallers::Many);
    h.jump_to(A, reg(0));
    h.jump_to(B, reg(1));

    let branch = Operator::End(Targets {
        targets: vec![BrTargetDrop { target: BrTarget::Label(B), to_drop: None }],
        default: BrTargetDrop { target: BrTarget::Label(A), to_drop: None },
    });
    let action = h.op(branch, None).unwrap();
    assert!(matches!(action, Action::CreateLabel));
    let adaptor_label = Label(h.labels.new_dynamic_label());
    let action = h.driver.on(Event::Label(adaptor_label)).unwrap();
    match action {
        Action::SerializeBlockArgs { locs, depth } => {
            assert_eq!(
                locs,
                vec![MaybeCCLoc::Concrete(CCLoc::Reg(GPR::Rq(0))), MaybeCCLoc::NoSerialize]
            );
            assert_eq!(depth, None);
        }
        other => panic!("unexpected action {:?}", other),
    }
    let action = h.driver.on(Event::Convention(convention(vec![reg(0), reg(7)], None))).unwrap();
    match action {
        Action::EndBlock { targets, default, depth, selector } => {
            assert_eq!(
                targets,
                vec![Target { target: BrTarget::Label(adaptor_label), action: BrAction::Jump }]
            );
            assert_eq!(default, Target { target: BrTarget::Label(la), action: BrAction::Jump });
            assert_eq!(depth, None);
            assert_eq!(selector, reg(7));
        }
        other => panic!("unexpected action {:?}", other),
    }

    let internal = (0, NameTag::Internal);
    let first = h.driver.next_adaptor().unwrap();
    assert_eq!(first, WithLoc { op: Operator::Start(internal), offset: SourceLoc::new(7) });
    let second = h.driver.next_adaptor().unwrap();
    assert_eq!(second.op, Operator::Const(Value::I32(0)));
    let third = h.driver.next_adaptor().unwrap();
    assert_eq!(third.op, Operator::End(Targets::to(BrTarget::Label(B))));
    assert!(h.driver.next_adaptor().is_none());
}

#[test]
fn agreeing_targets_get_no_adaptor() {
    let module = module();
    let mut h = Harness::new(&module);
    let la = h.declare(A, 1, NumCallers::Many);
    let lb = h.declare(B, 1, NumCallers::Many);
    h.jump_to(A, reg(3));
    h.jump_to(B, reg(3));
    let branch = Operator::End(Targets {
        targets: vec![BrTargetDrop { target: BrTarget::Label(B), to_drop: None }],
        default: BrTargetDrop { target: BrTarget::Label(A), to_drop: None },
    });
    let action = h.op(branch, None).unwrap();
    assert!(matches!(action, Action::SerializeBlockArgs { .. }));
    let action = h.driver.on(Event::Convention(convention(vec![reg(3), reg(7)], None))).unwrap();
    match action {
        Action::EndBlock { targets, default, .. } => {
            assert_eq!(targets, vec![Target { target: BrTarget::Label(lb), action: BrAction::Jump }]);
            assert_eq!(default, Target { target: BrTarget::Label(la), action: BrAction::Jump });
        }
        other => panic!("unexpected action {:?}", other),
    }
    assert!(h.driver.next_adaptor().is_none());
}

#[test]
fn branch_to_the_block_that_starts_next_falls_through() {
    let module = module();
    let mut h = Harness::new(&module);
    let la = h.declare(A, 0, NumCallers::One);
    let action = h.op(Operator::End(Targets::to(BrTarget::Label(A))), Some(A)).unwrap();
    assert!(matches!(action, Action::PopSelector));
    let action = h
        .driver
        .on(Event::Selector { selector: reg(2), convention: convention(vec![], Some(1)) })
        .unwrap();
    match action {
        Action::EndBlock { targets, default, depth, selector } => {
            assert!(targets.is_empty());
            assert_eq!(default, Target { target: BrTarget::Label(la), action: BrAction::Continue });
            assert_eq!(depth, Some(StackDepth(1)));
            assert_eq!(selector, reg(2));
        }
        other => panic!("unexpected action {:?}", other),
    }
    let action = h.op(Operator::Start(A), None).unwrap();
    match action {
        Action::Start { label, convention: cc } => {
            assert_eq!(label, la);
            assert_eq!(cc, convention(vec![], Some(1)));
        }
        other => panic!("unexpected action {:?}", other),
    }
    let again = h.op(Operator::Start(A), None);
    assert_eq!(again.unwrap_err().kind(), ErrorKind::Assembler);
}

#[test]
fn block_without_callers_is_skipped_and_leaves_no_lines() {
    let module = module();
    let mut h = Harness::new(&module);
    h.declare(A, 0, NumCallers::Many);
    let action = h.op(Operator::Unreachable, Some(A)).unwrap();
    match action {
        Action::Trap(reason) => assert_eq!(reason, TrapReason::UnreachableCodeReached),
        other => panic!("unexpected action {:?}", other),
    }
    let action = h.op(Operator::Start(A), None).unwrap();
    assert!(matches!(action, Action::Skip));
    assert!(!h.driver.wants_operator());
    let action = h.driver.on(Event::Skipped(Some(Operator::Const(Value::I32(1))))).unwrap();
    assert!(matches!(action, Action::Skip));
    let action = h
        .driver
        .on(Event::Skipped(Some(Operator::Declare {
            label: B,
            params: Params::new(vec![]),
            has_backwards_callers: false,
            num_callers: NumCallers::One,
        })))
        .unwrap();
    assert!(matches!(action, Action::CreateLabel));
    let lb = Label(h.labels.new_dynamic_label());
    let action = h.driver.on(Event::Label(lb)).unwrap();
    assert!(matches!(action, Action::Skip));
    let action = h
        .driver
        .on(Event::Skipped(Some(Operator::End(Targets::to(BrTarget::Label(B))))))
        .unwrap();
    assert!(matches!(action, Action::Next));
    assert!(h.driver.wants_operator());

    let action = h.op(Operator::Start(B), None).unwrap();
    assert!(matches!(action, Action::Skip));
    let action = h.driver.on(Event::Skipped(None)).unwrap();
    assert!(matches!(action, Action::Next));

    let listing = h.driver.op_offset_map();
    let lines: Vec<String> = listing
        .iter()
        .map(|(offset, line)| match line {
            Listing::Function(index) => format!("{} fn {}", offset.0, index),
            Listing::Op(op) => format!("{} {:?}", offset.0, op.op),
        })
        .collect();
    assert_eq!(
        lines,
        vec![
            "0 fn 0".to_string(),
            format!("4 {:?}", Operator::<WasmLabel>::Declare {
                label: A,
                params: Params::new(vec![]),
                has_backwards_callers: false,
                num_callers: NumCallers::Many
            }),
            format!("8 {:?}", Operator::<WasmLabel>::Unreachable),
            format!("12 {:?}", Operator::<WasmLabel>::Start(A)),
            format!("16 {:?}", Operator::<WasmLabel>::Start(B)),
        ]
    );
}

#[test]
fn start_inside_a_skipped_block_is_an_error() {
    let module = module();
    let mut h = Harness::new(&module);
    h.declare(A, 0, NumCallers::Many);
    h.op(Operator::Unreachable, None).unwrap();
    let action = h.op(Operator::Start(A), None).unwrap();
    assert!(matches!(action, Action::Skip));
    let r = h.driver.on(Event::Skipped(Some(Operator::Start(B))));
    assert_eq!(
        r.unwrap_err(),
        Error::Assembler("New block started without previous block ending".to_string())
    );
}

#[test]
fn start_of_an_undeclared_block_is_an_error() {
    let module = module();
    let mut h = Harness::new(&module);
    h.op(Operator::Unreachable, None).unwrap();
    let r = h.op(Operator::Start(A), None);
    assert_eq!(
        r.unwrap_err(),
        Error::Assembler("Label defined before being declared".to_string())
    );
    let mut h = Harness::new(&module);
    let r = h.op(Operator::Const(Value::I32(1)), Some(A));
    assert_eq!(r.unwrap_err().kind(), ErrorKind::Assembler);
}

#[test]
fn branch_to_an_undeclared_block_is_an_error() {
    let module = module();
    let mut h = Harness::new(&module);
    let r = h.op(Operator::End(Targets::to(BrTarget::Label(A))), None);
    assert_eq!(r.unwrap_err().kind(), ErrorKind::Assembler);
    // The listing is kept: the line of the function and that of the branch.
    assert_eq!(h.driver.op_offset_map().len(), 2);
}

#[test]
fn targets_with_different_fixed_depths_are_an_error() {
    let module = module();
    // Blocks that have backward callers stay in the table once started.
    let mut h = Harness::new(&module);
    for (label, depth) in [(A, 1), (B, 2)] {
        let action = h
            .op(
                Operator::Declare {
                    label,
                    params: Params::new(vec![]),
                    has_backwards_callers: true,
                    num_callers: NumCallers::One,
                },
                None,
            )
            .unwrap();
        assert!(matches!(action, Action::CreateLabel));
        let l = Label(h.labels.new_dynamic_label());
        h.driver.on(Event::Label(l)).unwrap();
        let action = h.op(Operator::End(Targets::to(BrTarget::Label(label))), None).unwrap();
        assert!(matches!(action, Action::PopSelector));
        h.driver
            .on(Event::Selector { selector: reg(2), convention: convention(vec![], Some(depth)) })
            .unwrap();
        let action = h.op(Operator::Start(label), None).unwrap();
        assert!(matches!(action, Action::Start { .. }));
        h.op(Operator::Unreachable, None).unwrap();
    }
    let branch = Operator::End(Targets {
        targets: vec![BrTargetDrop { target: BrTarget::Label(B), to_drop: None }],
        default: BrTargetDrop { target: BrTarget::Label(A), to_drop: None },
    });
    let r = h.op(branch, None);
    assert_eq!(r.unwrap_err().kind(), ErrorKind::Assembler);
}

#[test]
fn calls_are_told_apart_by_the_module() {
    let module = module();
    let mut h = Harness::new(&module);
    let own = h.op(Operator::Call { function_index: 1 }, None).unwrap();
    assert!(matches!(own, Action::CallDirectSelf { ref params, ref results } if params.is_empty() && results.is_empty()));
    let other = h.op(Operator::Call { function_index: 2 }, None).unwrap();
    assert!(matches!(
        other,
        Action::CallDirect { function_index: 2, ref params, ref results } if params == &vec![I32] && results == &vec![I32]
    ));
    let imported = h.op(Operator::Call { function_index: 0 }, None).unwrap();
    assert!(matches!(imported, Action::CallDirectImported { function_index: 0, .. }));
    let missing = h.op(Operator::Call { function_index: 9 }, None);
    assert_eq!(missing.unwrap_err().kind(), ErrorKind::Input);
    let indirect = h.op(Operator::CallIndirect { type_index: 1, table_index: 0 }, None).unwrap();
    assert!(matches!(indirect, Action::CallIndirect { type_index: 1, .. }));
    let table = h.op(Operator::CallIndirect { type_index: 1, table_index: 1 }, None);
    assert_eq!(table.unwrap_err(), Error::Input("table_index not equal to 0".to_string()));
}

#[test]
fn plain_operator_is_handed_to_the_backend() {
    let module = module();
    let mut h = Harness::new(&module);
    let action = h.op(Operator::Add(I32), None).unwrap();
    assert!(matches!(action, Action::Emit(Primitive::I32Add)));
    let action = h.op(Operator::Drop(DropRange::new(0, 1)), None).unwrap();
    assert!(matches!(action, Action::Emit(Primitive::Drop(range)) if range == DropRange::new(0, 1)));
    let memarg = MemoryImmediate { flags: 2, offset: 24 };
    let stores = [
        (Operator::Store { ty: I32, memarg }, Primitive::Store32 { offset: 24 }),
        (Operator::Store { ty: Type::Float(Size::_32), memarg }, Primitive::Store32 { offset: 24 }),
        (Operator::Store32 { memarg }, Primitive::Store32 { offset: 24 }),
        (Operator::Store { ty: Type::Float(Size::_64), memarg }, Primitive::Store64 { offset: 24 }),
        (Operator::Store8 { ty: Size::_64, memarg }, Primitive::Store8 { offset: 24 }),
        (
            Operator::Load8 { ty: SignfulInt(Signedness::Unsigned, Size::_64), memarg },
            Primitive::I64Load8U { offset: 24 },
        ),
        (Operator::Extend32 { sign: Signedness::Unsigned }, Primitive::U64ConvertFromU32),
        (
            Operator::ITruncFromF {
                input_ty: Size::_64,
                output_ty: SignfulInt(Signedness::Unsigned, Size::_32),
            },
            Primitive::I32TruncateF64U,
        ),
        (Operator::Const(Value::I64(-3)), Primitive::Const(Value::I64(-3))),
        (Operator::GlobalSet(4), Primitive::SetGlobal(4)),
    ];
    for (op, expected) in stores {
        match h.op(op, None).unwrap() {
            Action::Emit(primitive) => assert_eq!(primitive, expected),
            other => panic!("unexpected action {:?}", other),
        }
    }
}

#[test]
fn function_with_two_results_is_refused() {
    let module = module();
    let mut listing = Vec::new();
    let r = Driver::<WasmLabel>::new(&module, 2, &mut listing, AssemblyOffset(12));
    assert_eq!(r.err(), Some(Error::Input("invalid result arity".to_string())));
    assert!(matches!(listing[..], [(AssemblyOffset(12), Listing::Function(2))]));
    let r = Driver::<WasmLabel>::new(&module, 5, &mut listing, AssemblyOffset(0));
    assert_eq!(r.err().map(|e| e.kind()), Some(ErrorKind::Input));
    assert_eq!(listing.len(), 1);
}

#[test]
fn event_out_of_turn_is_an_error() {
    let module = module();
    let mut h = Harness::new(&module);
    let r = h.driver.on(Event::Label(Label(LabelRegistry::new().new_dynamic_label())));
    assert_eq!(r.unwrap_err().kind(), ErrorKind::Assembler);
    let mut h = Harness::new(&module);
    let r = h.driver.on(Event::Skipped(None));
    assert_eq!(r.unwrap_err().kind(), ErrorKind::Assembler);
}

#[test]
fn dropped_slots_leave_the_layout_of_the_target() {
    let module = module();
    let mut h = Harness::new(&module);
    h.declare(A, 1, NumCallers::Many);
    let branch = Operator::End(Targets {
        targets: vec![],
        default: BrTargetDrop { target: BrTarget::Label(A), to_drop: Some(DropRange::new(1, 2)) },
    });
    let action = h.op(branch, None).unwrap();
    match action {
        Action::SerializeBlockArgs { locs, depth } => {
            assert_eq!(
                locs,
                vec![
                    MaybeCCLoc::Serialize,
                    MaybeCCLoc::Serialize,
                    MaybeCCLoc::Serialize,
                    MaybeCCLoc::NoSerialize
                ]
            );
            assert_eq!(depth, None);
        }
        other => panic!("unexpected action {:?}", other),
    }
    let placed = convention(
        vec![
            ValueLocation::Stack(0),
            ValueLocation::Stack(8),
            reg(4),
            ValueLocation::Immediate(Value::I32(0)),
        ],
        None,
    );
    h.driver.on(Event::Convention(placed)).unwrap();
    // The block now expects its one value where the branch left the top of the stack.
    let again = Operator::End(Targets::to(BrTarget::Label(A)));
    let action = h.op(again, None).unwrap();
    match action {
        Action::SerializeBlockArgs { locs, .. } => {
            assert_eq!(
                locs,
                vec![MaybeCCLoc::Concrete(CCLoc::Reg(GPR::Rq(4))), MaybeCCLoc::NoSerialize]
            );
        }
        other => panic!("unexpected action {:?}", other),
    }
}

#[test]
fn layout_with_too_few_places_is_an_error() {
    let module = module();
    let mut h = Harness::new(&module);
    h.declare(A, 2, NumCallers::Many);
    let action = h.op(Operator::End(Targets::to(BrTarget::Label(A))), None).unwrap();
    assert!(matches!(action, Action::SerializeBlockArgs { .. }));
    let r = h.driver.on(Event::Convention(convention(vec![reg(0), reg(1)], None)));
    assert_eq!(
        r.unwrap_err(),
        Error::Assembler("Stack has too few elements for branch".to_string())
    );
    let mut h = Harness::new(&module);
    h.declare(B, 1, NumCallers::One);
    let action = h.op(Operator::End(Targets::to(BrTarget::Label(B))), None).unwrap();
    assert!(matches!(action, Action::PopSelector));
    let r = h.driver.on(Event::Selector { selector: reg(0), convention: convention(vec![], None) });
    assert_eq!(r.unwrap_err().kind(), ErrorKind::Assembler);
}
