use dynasmrt::components::LabelRegistry;
use dynasmrt::AssemblyOffset;
use lightbeam::{
    Action, BrAction, BrTarget, CCLoc, CallingConvention, Driver, Error, Event, Function,
    FunctionBody, Label, Listing, Locs, MakeInternalLabel, MaybeCCLoc, MicrowasmConv,
    ModuleContext, Operator, Primitive, Signature, SignlessType, Size, StackDepth, Target, Type,
    ValueLocation, WasmLabel, WithLoc,
};

const I32: SignlessType = Type::Int(Size::_32);

/// A backend that keeps the places of the values and writes down what it is asked to emit.
struct Recorder {
    stack: Vec<ValueLocation>,
    labels: LabelRegistry,
    code: Vec<String>,
}

impl Recorder {
    fn layout(&self) -> CallingConvention {
        CallingConvention {
            arguments: Locs {
                locs: self.stack.clone(),
                max_depth: StackDepth(self.stack.len() as u32),
            },
            depth: Some(StackDepth(self.stack.len() as u32)),
        }
    }

    fn emit(&mut self, primitive: Primitive) {
        match primitive {
            Primitive::Const(value) => self.stack.push(ValueLocation::Immediate(value)),
            Primitive::Pick(depth) => {
                let picked = self.stack[self.stack.len() - 1 - depth as usize];
                self.stack.push(picked);
            }
            Primitive::Swap(depth) => {
                let top = self.stack.len() - 1;
                self.stack.swap(top, top - depth as usize);
            }
            Primitive::Drop(range) => {
                let len = self.stack.len();
                self.stack.drain(len - 1 - range.end as usize..len - range.start as usize);
            }
            Primitive::I32Add => {
                self.stack.pop();
            }
            other => panic!("not part of this test: {:?}", other),
        }
        self.code.push(format!("{:?}", primitive));
    }

    fn serialize(&mut self, locs: Vec<MaybeCCLoc>, depth: Option<StackDepth>) -> CallingConvention {
        let base = self.stack.len() - locs.len();
        for (i, loc) in locs.iter().enumerate() {
            self.stack[base + i] = match loc {
                MaybeCCLoc::Concrete(CCLoc::Reg(reg)) => ValueLocation::Reg(*reg),
                MaybeCCLoc::Concrete(CCLoc::Stack(offset)) => ValueLocation::Stack(*offset),
                MaybeCCLoc::Serialize => ValueLocation::Stack(8 * (base + i) as i32),
                MaybeCCLoc::NoSerialize => self.stack[base + i],
            };
        }
        let placed = self.stack.split_off(base);
        CallingConvention {
            arguments: Locs { locs: placed, max_depth: StackDepth(locs.len() as u32) },
            depth,
        }
    }
}

fn target(t: &Target) -> String {
    let action = match t.action {
        BrAction::Jump => "jump",
        BrAction::Continue => "continue",
    };
    match t.target {
        BrTarget::Return => format!("{} return", action),
        BrTarget::Label(label) => format!("{} L{}", action, label.0.get_id()),
    }
}

/// Drives the translation of `body` to its end and gives what the backend was asked to emit.
fn translate(
    module: &ModuleContext,
    params: Vec<SignlessType>,
    results: Vec<SignlessType>,
    data: &[u8],
) -> Result<(Vec<String>, Vec<(AssemblyOffset, Listing<WasmLabel>)>), Error> {
    let body = FunctionBody::read(0, data)?;
    let mut conv = MicrowasmConv::new(module, params.clone(), results, body, I32)?;
    let mut stream: Vec<WithLoc<Operator<WasmLabel>>> = Vec::new();
    while let Some(batch) = conv.next()? {
        stream.extend(batch);
    }
    let mut body = stream.into_iter().peekable();

    let mut ctx = Recorder { stack: Vec::new(), labels: LabelRegistry::new(), code: Vec::new() };
    let mut listing = Vec::new();
    let (mut driver, mut action) = Driver::new(module, 0, &mut listing, AssemblyOffset(0))?;
    loop {
        action = match action {
            Action::Next => {
                let next = match driver.next_adaptor() {
                    Some(op) => op,
                    None => match body.next() {
                        Some(op) => op,
                        None => break,
                    },
                };
                let next_start = match body.peek() {
                    Some(WithLoc { op: Operator::Start(label), .. }) => Some(label.duplicate()),
                    _ => None,
                };
                driver.on(Event::Operator {
                    op: next.op,
                    offset: next.offset,
                    next_start,
                    machine_offset: AssemblyOffset(ctx.code.len()),
                })?
            }
            Action::Skip => driver.on(Event::Skipped(body.next().map(|op| op.op)))?,
            Action::CreateLabel => {
                driver.on(Event::Label(Label(ctx.labels.new_dynamic_label())))?
            }
            Action::StartFunction { params, results } => {
                ctx.stack = (0..params.len()).map(|i| ValueLocation::Stack(8 * i as i32)).collect();
                let returns = CallingConvention {
                    arguments: Locs {
                        locs: results
                            .iter()
                            .map(|_| ValueLocation::Reg(lightbeam::GPR::Rq(0)))
                            .collect(),
                        max_depth: StackDepth(0),
                    },
                    depth: Some(StackDepth(0)),
                };
                driver.on(Event::Convention(returns))?
            }
            Action::Trap(reason) => {
                ctx.code.push(format!("trap {:?}", reason));
                Action::Next
            }
            Action::Start { label, convention } => {
                ctx.code.push(format!("L{}:", label.0.get_id()));
                ctx.stack = convention.arguments.locs;
                Action::Next
            }
            Action::SerializeBlockArgs { locs, depth } => {
                let placed = ctx.serialize(locs, depth);
                driver.on(Event::Convention(placed))?
            }
            Action::PopSelector => {
                let selector = ctx.stack.pop().unwrap();
                driver.on(Event::Selector { selector, convention: ctx.layout() })?
            }
            Action::EndBlock { targets, default, .. } => {
                let table: Vec<String> = targets.iter().map(target).collect();
                ctx.code.push(format!("branch [{}] {}", table.join(", "), target(&default)));
                Action::Next
            }
            Action::Emit(primitive) => {
                ctx.emit(primitive);
                Action::Next
            }
            other => panic!("not part of this test: {:?}", other),
        };
    }
    Ok((ctx.code, driver.op_offset_map()))
}

fn small_module() -> ModuleContext {
    ModuleContext {
        signatures: vec![
            Signature { params: vec![], returns: vec![I32] },
            Signature { params: vec![I32], returns: vec![I32] },
        ],
        functions: vec![Function { type_index: 0, defined_index: Some(0) }],
        globals: vec![],
    }
}

#[test]
fn constant_function_is_translated_to_one_branch() {
    let (code, listing) = translate(&small_module(), vec![], vec![I32], &[0x00, 0x41, 0x07, 0x0b]).unwrap();
    assert_eq!(code, vec!["Const(I32(7))", "Const(I32(0))", "branch [] jump return"]);
    // The line of the function, then one for each operator.
    assert_eq!(listing.len(), 4);
    assert!(matches!(listing[0].1, Listing::Function(0)));
}

#[test]
fn block_falls_through_to_its_end() {
    // block (result i32) i32.const 1 br 0 end
    let data = [0x00, 0x02, 0x7f, 0x41, 0x01, 0x0c, 0x00, 0x0b, 0x0b];
    let (code, _) = translate(&small_module(), vec![], vec![I32], &data).unwrap();
    assert_eq!(
        code,
        vec![
            "Const(I32(1))",
            "Const(I32(0))",
            "branch [] continue L0",
            "L0:",
            "Const(I32(0))",
            "branch [] jump return",
        ]
    );
}

#[test]
fn loop_header_is_reached_from_both_sides() {
    // loop br 0 end i32.const 5
    let data = [0x00, 0x03, 0x40, 0x0c, 0x00, 0x0b, 0x41, 0x05, 0x0b];
    let (code, listing) = translate(&small_module(), vec![], vec![I32], &data).unwrap();
    assert_eq!(
        code,
        vec![
            "Const(I32(0))",
            "branch [] continue L0",
            "L0:",
            "Const(I32(0))",
            "branch [] jump L0",
        ]
    );
    // What follows the loop cannot be reached: it is skipped and leaves no line
    // but that of the start of its block.
    let lines: Vec<String> = listing
        .iter()
        .map(|(_, line)| match line {
            Listing::Function(index) => format!("fn {}", index),
            Listing::Op(op) => format!("{:?}", op.op).split(|c| c == '(' || c == ' ').next().unwrap().to_string(),
        })
        .collect();
    assert_eq!(
        lines,
        vec!["fn 0", "Declare", "Declare", "Const", "End", "Start", "Const", "End", "Start"]
    );
}

#[test]
fn both_arms_of_an_if_reach_its_end() {
    // local.get 0 if (result i32) i32.const 2 else i32.const 3 end
    let data = [0x00, 0x20, 0x00, 0x04, 0x7f, 0x41, 0x02, 0x05, 0x41, 0x03, 0x0b, 0x0b];
    let mut module = small_module();
    module.functions[0].type_index = 1;
    let (code, _) = translate(&module, vec![I32], vec![I32], &data).unwrap();
    assert_eq!(
        code,
        vec![
            "Pick(0)",
            "branch [jump L1] continue L0",
            "L0:",
            "Const(I32(2))",
            "Const(I32(0))",
            "branch [] jump L2",
            "L1:",
            "Const(I32(3))",
            "Const(I32(0))",
            "branch [] continue L2",
            "L2:",
            "Const(I32(0))",
            "branch [] jump return",
        ]
    );
}

#[test]
fn error_of_the_body_ends_the_translation() {
    let r = translate(&small_module(), vec![], vec![I32], &[0x00, 0x41, 0x07]);
    assert_eq!(r.err().map(|e| e.kind()), Some(lightbeam::ErrorKind::Input));
    let r = translate(&small_module(), vec![], vec![I32], &[0x00, 0x6a, 0x0b]);
    assert_eq!(r.err(), Some(Error::Microwasm("Stack is empty".to_string())));
}
