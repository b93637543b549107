//! What lowering does: a function from the state of lowering and one Wasm
//! operator to the next state and the operators of the flat form that come out.

use crate::error::Failure;
use crate::frames::{frame_at, with_frame_at, ControlFrameKind, ControlFrameView};
use crate::module::ModuleContext;
use crate::operator::{
    BrTarget, BrTargetDrop, DropRange, NameTag, Operator, OperatorView, SourceLoc, TargetsView,
    WasmLabel, WithLoc,
};
use crate::plain::spec_plain;
use crate::sig::{
    call_indirect_sig, call_sig, concrete, pass_sig, sig_0_0, sig_0_1, sig_1_0, sig_1_1, spec_apply,
    spec_plain_sig, OpSigView, SigT,
};
use crate::types::{SignlessType, Size, Type, Value};
use crate::wasm::{TypeOrFuncType, WasmOperator};
use vstd::prelude::*;

verus! {

/// The state of lowering one function.
pub struct ConvState {
    /// Whether the end of the function has been lowered.
    pub is_done: bool,
    /// The zeroes of the declared locals, until they have been emitted.
    pub consts_to_emit: Option<Seq<Value>>,
    /// The type stack: the locals at the bottom, the operands above them.
    pub stack: Seq<SignlessType>,
    /// How many operators of the body have been read.
    pub position: nat,
    /// The number that the next structured block gets.
    pub current_id: u32,
    /// The open structured blocks, the innermost last.
    pub frames: Seq<ControlFrameView>,
    /// Whether the code that follows cannot be reached.
    pub unreachable: bool,
}

/// A state of lowering and the operators that were emitted on the way to it.
pub struct Lowered {
    pub state: ConvState,
    pub ops: Seq<OperatorView<WasmLabel>>,
}

/// The parameters and the results of a block of type `ty`; an `Input` error
/// for a type that is no block type and for a function type that the module
/// lacks.
pub open spec fn block_sig(module: ModuleContext, ty: TypeOrFuncType) -> Result<
    (Seq<SignlessType>, Seq<SignlessType>),
    Failure,
> {
    match ty {
        TypeOrFuncType::Type(t) => match Type::<Size>::spec_from_wasm_block(t) {
            Some(Some(r)) => Ok((seq![], seq![r])),
            Some(None) => Ok((seq![], seq![])),
            None => Err(Failure::input("Invalid type"@)),
        },
        TypeOrFuncType::FuncType(index) => match module.spec_signature(index) {
            Some(sig) => Ok((sig.params@, sig.returns@)),
            None => Err(Failure::input("Unknown type index"@)),
        },
    }
}

/// How many locals the function has, parameters included: the height at which
/// the frame of the function was entered.
pub open spec fn locals_count(frames: Seq<ControlFrameView>) -> nat {
    if frames.len() > 0 {
        frames[0].arguments as nat
    } else {
        0
    }
}

/// The type of the local with index `local_index`: the locals are the bottom
/// of the type stack, and what lies above them is no local.
pub open spec fn local_type(s: ConvState, local_index: u32) -> Option<SignlessType> {
    if local_index < locals_count(s.frames) && local_index < s.stack.len() {
        Some(s.stack[local_index as int])
    } else {
        None
    }
}

/// The signature of `op` in state `s`.
pub open spec fn op_sig(
    module: ModuleContext,
    pointer_type: SignlessType,
    s: ConvState,
    op: WasmOperator,
) -> Result<OpSigView, Failure> {
    let i32_ = SigT::Concrete(Type::Int(Size::_32));
    match op {
        WasmOperator::Unreachable | WasmOperator::Nop | WasmOperator::Br { .. } | WasmOperator::Return => Ok(
            sig_0_0(),
        ),
        WasmOperator::Block { ty } | WasmOperator::Loop { ty } => match block_sig(module, ty) {
            Ok((params, _)) => Ok(pass_sig(params)),
            Err(k) => Err(k),
        },
        WasmOperator::If { ty } => match block_sig(module, ty) {
            Ok((params, _)) => Ok(
                OpSigView { input: concrete(params).push(i32_), output: concrete(params) },
            ),
            Err(k) => Err(k),
        },
        WasmOperator::Else | WasmOperator::End => match frame_at(s.frames, 0) {
            Some(frame) => Ok(pass_sig(frame.returns)),
            None => Err(Failure::microwasm("Missing control frame"@)),
        },
        WasmOperator::BrIf { .. } | WasmOperator::BrTable { .. } => Ok(sig_1_0(i32_)),
        WasmOperator::Call { function_index } => match module.spec_func_type(function_index) {
            Some(sig) => Ok(call_sig(sig)),
            None => Err(Failure::input("Unknown function index"@)),
        },
        WasmOperator::CallIndirect { index, .. } => match module.spec_signature(index) {
            Some(sig) => Ok(call_indirect_sig(sig)),
            None => Err(Failure::input("Unknown type index"@)),
        },
        WasmOperator::LocalGet { local_index } => match local_type(s, local_index) {
            Some(ty) => Ok(sig_0_1(SigT::Concrete(ty))),
            None => Err(Failure::microwasm("LocalGet - Local out of range"@)),
        },
        WasmOperator::LocalSet { local_index } => match local_type(s, local_index) {
            Some(ty) => Ok(sig_1_0(SigT::Concrete(ty))),
            None => Err(Failure::microwasm("LocalSet - Local out of range"@)),
        },
        WasmOperator::LocalTee { local_index } => match local_type(s, local_index) {
            Some(ty) => Ok(sig_1_1(SigT::Concrete(ty), SigT::Concrete(ty))),
            None => Err(Failure::microwasm("LocalTee - Local out of range"@)),
        },
        WasmOperator::GlobalGet { global_index } => match module.spec_global_type(global_index) {
            Some(ty) => Ok(sig_0_1(SigT::Concrete(ty))),
            None => Err(Failure::input("Unknown global index"@)),
        },
        WasmOperator::GlobalSet { global_index } => match module.spec_global_type(global_index) {
            Some(ty) => Ok(sig_1_0(SigT::Concrete(ty))),
            None => Err(Failure::input("Unknown global index"@)),
        },
        _ => match spec_plain_sig(op, pointer_type) {
            Some(sig) => Ok(sig),
            None => Err(unimplemented(op)),
        },
    }
}

/// The error for an operator that lowering does not take: it names the
/// operator where the operator has kept its name.
pub open spec fn unimplemented(op: WasmOperator) -> Failure {
    match op {
        WasmOperator::Unsupported(name) => Failure::microwasm("Opcode unimplemented: "@ + name@),
        _ => Failure::microwasm("Opcode unimplemented"@),
    }
}

/// The error for a branch to a block that is not open.
pub open spec fn not_open() -> Failure {
    Failure::microwasm("Branch to a block that is not open"@)
}

/// The operator that discards `to_drop`, if there is anything to discard.
pub open spec fn drops(to_drop: Option<DropRange>) -> Seq<OperatorView<WasmLabel>> {
    match to_drop {
        Some(range) => seq![OperatorView::drop(range)],
        None => seq![],
    }
}

/// The jump to `target`: the selector `0i32` and the branch.
pub open spec fn jump(target: BrTarget<WasmLabel>) -> Seq<OperatorView<WasmLabel>> {
    seq![OperatorView::zero(), OperatorView::end_to(target)]
}

/// A type stack cut back to the height `arguments`, if it is higher.
pub open spec fn truncated(stack: Seq<SignlessType>, arguments: u32) -> Seq<SignlessType> {
    if arguments < stack.len() {
        stack.take(arguments as int)
    } else {
        stack
    }
}

/// The branch target for the frame at relative depth `depth`, on a type stack
/// of height `stack_len`.
pub open spec fn target_at(frames: Seq<ControlFrameView>, depth: u32, stack_len: nat) -> BrTargetDrop<
    WasmLabel,
>
    recommends
        depth < frames.len(),
{
    let frame = frame_at(frames, depth as nat).unwrap();
    BrTargetDrop { target: frame.br_target(), to_drop: frame.to_drop(stack_len) }
}

/// The frames after each frame that one of `depths` names was branched to.
pub open spec fn marked(frames: Seq<ControlFrameView>, depths: Seq<u32>) -> Seq<ControlFrameView>
    decreases depths.len(),
{
    if depths.len() == 0 {
        frames
    } else {
        let before = marked(frames, depths.drop_last());
        match frame_at(before, depths.last() as nat) {
            Some(frame) => with_frame_at(before, depths.last() as nat, frame.branched_to()),
            None => before,
        }
    }
}

/// The state with a new number drawn for a structured block; `None` once the
/// numbers have run out.
pub open spec fn next_id(s: ConvState) -> Option<(u32, ConvState)> {
    if s.current_id < u32::MAX {
        Some((s.current_id, ConvState { current_id: (s.current_id + 1) as u32, ..s }))
    } else {
        None
    }
}

/// Entering a `block`, a `loop` or an `if` of type `ty`: the state with the
/// new frame on it, the number of the block, and the types that the block
/// after the structured block expects.
pub open spec fn enter(
    module: ModuleContext,
    s: ConvState,
    ty: TypeOrFuncType,
    kind: ControlFrameKind,
) -> Result<(ConvState, u32, Seq<SignlessType>), Failure> {
    match next_id(s) {
        None => Err(Failure::microwasm("Too many blocks"@)),
        Some((id, s)) => match block_sig(module, ty) {
            Err(k) => Err(k),
            Ok((params, results)) => {
                if params.len() <= s.stack.len() {
                    let frame = ControlFrameView {
                        id,
                        arguments: s.stack.len() as u32,
                        returns: results,
                        kind,
                    };
                    Ok(
                        (
                            ConvState { frames: s.frames.push(frame), ..s },
                            id,
                            s.stack.take(s.stack.len() - params.len()) + results,
                        ),
                    )
                } else {
                    Err(Failure::microwasm("Stack is empty"@))
                }
            },
        },
    }
}

/// What `else` does in a reachable place.
pub open spec fn lower_else(s: ConvState) -> Result<Lowered, Failure> {
    match frame_at(s.frames, 0) {
        None => Err(Failure::microwasm("Block else Failed"@)),
        Some(block) => Ok(
            Lowered {
                state: ConvState {
                    frames: with_frame_at(s.frames, 0, block.with_else()),
                    stack: truncated(s.stack, block.arguments),
                    ..s
                },
                ops: drops(block.to_drop(s.stack.len())) + jump(
                    BrTarget::Label((block.id, NameTag::End)),
                ).push(OperatorView::start((block.id, NameTag::Else))),
            },
        ),
    }
}

/// What `end` does in a reachable place.
pub open spec fn lower_end(s: ConvState) -> Result<Lowered, Failure> {
    match frame_at(s.frames, 0) {
        None => Err(Failure::microwasm("Block End Failed"@)),
        Some(block) => {
            let stack = truncated(s.stack, block.arguments) + block.returns;
            let frames = s.frames.drop_last();
            let dropped = drops(block.to_drop(s.stack.len()));
            let else_ = (block.id, NameTag::Else);
            let end = (block.id, NameTag::End);
            if stack.len() > u32::MAX {
                Err(Failure::microwasm("Type stack too deep"@))
            } else if block.kind == (ControlFrameKind::If { has_else: false }) {
                Ok(
                    Lowered {
                        state: ConvState { stack, frames, ..s },
                        ops: dropped + jump(BrTarget::Label(end)).push(OperatorView::start(else_))
                            + jump(BrTarget::Label(end)).push(OperatorView::start(end)),
                    },
                )
            } else if frames.len() == 0 {
                Ok(
                    Lowered {
                        state: ConvState { stack, frames, is_done: true, ..s },
                        ops: jump(BrTarget::Return),
                    },
                )
            } else if block.needs_end_label() {
                Ok(
                    Lowered {
                        state: ConvState { stack, frames, ..s },
                        ops: dropped + jump(BrTarget::Label(end)).push(OperatorView::start(end)),
                    },
                )
            } else {
                Ok(Lowered { state: ConvState { stack, frames, ..s }, ops: dropped })
            }
        },
    }
}

/// What `br_table` does.
pub open spec fn lower_br_table(s: ConvState, targets: Seq<u32>, default: u32) -> Result<
    Lowered,
    Failure,
> {
    if default < s.frames.len() && (forall|i: int|
        0 <= i < targets.len() ==> (#[trigger] targets[i]) < s.frames.len()) {
        Ok(
            Lowered {
                state: ConvState {
                    unreachable: true,
                    frames: marked(s.frames, targets.push(default)),
                    ..s
                },
                ops: seq![
                    OperatorView::End(
                        TargetsView {
                            targets: Seq::new(
                                targets.len(),
                                |i: int| target_at(s.frames, targets[i], s.stack.len()),
                            ),
                            default: target_at(s.frames, default, s.stack.len()),
                        },
                    ),
                ],
            },
        )
    } else {
        Err(not_open())
    }
}

/// What a Wasm operator does in a reachable place, once its signature has been
/// applied to the type stack: `s` is the state with the stack after that.
pub open spec fn lower(module: ModuleContext, s: ConvState, op: WasmOperator) -> Result<
    Lowered,
    Failure,
> {
    match op {
        WasmOperator::Unreachable => Ok(
            Lowered {
                state: ConvState { unreachable: true, ..s },
                ops: seq![OperatorView::Plain(Operator::Unreachable)],
            },
        ),
        WasmOperator::Nop => Ok(Lowered { state: s, ops: seq![] }),
        WasmOperator::Block { ty } => match enter(
            module,
            s,
            ty,
            ControlFrameKind::Block { needs_end_label: false },
        ) {
            Err(k) => Err(k),
            Ok((state, id, after)) => Ok(
                Lowered { state, ops: seq![OperatorView::end_wasm_block(after, (id, NameTag::End))] },
            ),
        },
        WasmOperator::Loop { ty } => match enter(module, s, ty, ControlFrameKind::Loop) {
            Err(k) => Err(k),
            Ok((state, id, after)) => Ok(
                Lowered {
                    state,
                    ops: seq![
                        OperatorView::loop_(state.stack, (id, NameTag::Header)),
                        OperatorView::end_wasm_block(after, (id, NameTag::End)),
                        OperatorView::zero(),
                        OperatorView::end_to(BrTarget::Label((id, NameTag::Header))),
                        OperatorView::start((id, NameTag::Header)),
                    ],
                },
            ),
        },
        WasmOperator::If { ty } => match enter(
            module,
            s,
            ty,
            ControlFrameKind::If { has_else: false },
        ) {
            Err(k) => Err(k),
            Ok((state, id, after)) => Ok(
                Lowered {
                    state,
                    ops: seq![
                        OperatorView::block(state.stack, (id, NameTag::Header)),
                        OperatorView::block(state.stack, (id, NameTag::Else)),
                        OperatorView::end_wasm_block(after, (id, NameTag::End)),
                        OperatorView::End(
                            TargetsView {
                                targets: seq![
                                    BrTargetDrop {
                                        target: BrTarget::Label((id, NameTag::Else)),
                                        to_drop: None,
                                    },
                                ],
                                default: BrTargetDrop {
                                    target: BrTarget::Label((id, NameTag::Header)),
                                    to_drop: None,
                                },
                            },
                        ),
                        OperatorView::start((id, NameTag::Header)),
                    ],
                },
            ),
        },
        WasmOperator::Else => lower_else(s),
        WasmOperator::End => lower_end(s),
        WasmOperator::Br { relative_depth } => match frame_at(s.frames, relative_depth as nat) {
            None => Err(not_open()),
            Some(frame) => Ok(
                Lowered {
                    state: ConvState {
                        unreachable: true,
                        frames: with_frame_at(s.frames, relative_depth as nat, frame.branched_to()),
                        ..s
                    },
                    ops: drops(frame.to_drop(s.stack.len())) + jump(frame.br_target()),
                },
            ),
        },
        WasmOperator::BrIf { relative_depth } => match frame_at(s.frames, relative_depth as nat) {
            None => Err(not_open()),
            Some(frame) => match next_id(s) {
                None => Err(Failure::microwasm("Too many blocks"@)),
                Some((id, state)) => Ok(
                    Lowered {
                        state: ConvState {
                            frames: with_frame_at(
                                s.frames,
                                relative_depth as nat,
                                frame.branched_to(),
                            ),
                            ..state
                        },
                        ops: seq![
                            OperatorView::block(s.stack, (id, NameTag::Header)),
                            OperatorView::End(
                                TargetsView {
                                    targets: seq![
                                        BrTargetDrop {
                                            target: BrTarget::Label((id, NameTag::Header)),
                                            to_drop: None,
                                        },
                                    ],
                                    default: target_at(s.frames, relative_depth, s.stack.len()),
                                },
                            ),
                            OperatorView::start((id, NameTag::Header)),
                        ],
                    },
                ),
            },
        },
        WasmOperator::BrTable { table } => match table.error {
            Some(e) => Err(e.spec_failure()),
            None => lower_br_table(s, table.targets@, table.default),
        },
        WasmOperator::Return => if s.frames.len() == 0 {
            Err(Failure::microwasm("Return outside of a function"@))
        } else {
            Ok(
                Lowered {
                    state: ConvState { unreachable: true, ..s },
                    ops: drops(s.frames[0].to_drop(s.stack.len())) + jump(s.frames[0].br_target()),
                },
            )
        },
        WasmOperator::LocalGet { local_index } => {
            if local_index + 2 <= s.stack.len() {
                Ok(
                    Lowered {
                        state: s,
                        ops: seq![
                            OperatorView::Plain(
                                Operator::Pick((s.stack.len() - 2 - local_index) as u32),
                            ),
                        ],
                    },
                )
            } else {
                Err(Failure::microwasm("LocalGet - Local out of range"@))
            }
        },
        WasmOperator::LocalSet { local_index } => {
            if local_index <= s.stack.len() {
                Ok(
                    Lowered {
                        state: s,
                        ops: seq![
                            OperatorView::Plain(Operator::Swap((s.stack.len() - local_index) as u32)),
                            OperatorView::Plain(Operator::Drop(DropRange { start: 0, end: 0 })),
                        ],
                    },
                )
            } else {
                Err(Failure::microwasm("LocalSet - Local out of range"@))
            }
        },
        WasmOperator::LocalTee { local_index } => {
            if local_index <= s.stack.len() {
                Ok(
                    Lowered {
                        state: s,
                        ops: seq![
                            OperatorView::Plain(Operator::Pick(0)),
                            OperatorView::Plain(Operator::Swap((s.stack.len() - local_index) as u32)),
                            OperatorView::Plain(Operator::Drop(DropRange { start: 0, end: 0 })),
                        ],
                    },
                )
            } else {
                Err(Failure::microwasm("LocalTee - Local out of range"@))
            }
        },
        _ => match spec_plain(op) {
            Some(lowered) => Ok(Lowered { state: s, ops: seq![OperatorView::Plain(lowered)] }),
            None => Err(Failure::microwasm("Opcode unimplemented"@)),
        },
    }
}

/// What a Wasm operator does in a reachable place: its signature is found and
/// applied to the type stack, then the operator is lowered.
pub open spec fn step(
    module: ModuleContext,
    pointer_type: SignlessType,
    s: ConvState,
    op: WasmOperator,
) -> Result<Lowered, Failure> {
    match op_sig(module, pointer_type, s, op) {
        Err(k) => Err(k),
        Ok(sig) => match spec_apply(sig, s.stack) {
            Err(failure) => Err(failure),
            Ok(stack) => lower(module, ConvState { stack, ..s }, op),
        },
    }
}

/// What skipping does with one operator of an unreachable region.
pub enum Skipped {
    /// The operator is skipped; the nesting depth is now this.
    Deeper(nat),
    /// The region has ended: lowering goes on from this state with these
    /// operators.
    Resumed(Lowered),
    /// Skipping failed.
    Failed(Failure),
}

/// What one operator does while an unreachable region is skipped, `depth`
/// structured blocks deep inside the region.
pub open spec fn skip_one(s: ConvState, depth: nat, op: WasmOperator) -> Skipped {
    match op {
        WasmOperator::Block { .. } | WasmOperator::Loop { .. } | WasmOperator::If { .. } => Skipped::Deeper(
            depth + 1,
        ),
        WasmOperator::Else => if depth > 0 {
            Skipped::Deeper(depth)
        } else {
            match frame_at(s.frames, 0) {
                None => Skipped::Failed(Failure::microwasm("unreachable Block else Failed"@)),
                Some(block) => Skipped::Resumed(
                    Lowered {
                        state: ConvState {
                            stack: truncated(s.stack, block.arguments),
                            frames: with_frame_at(s.frames, 0, block.with_else()),
                            ..s
                        },
                        ops: seq![OperatorView::start((block.id, NameTag::Else))],
                    },
                ),
            }
        },
        WasmOperator::End => if depth > 0 {
            Skipped::Deeper((depth - 1) as nat)
        } else {
            match frame_at(s.frames, 0) {
                None => Skipped::Failed(Failure::microwasm("unreachable Block end Failed"@)),
                Some(block) => {
                    let frames = s.frames.drop_last();
                    let stack = truncated(s.stack, block.arguments) + block.returns;
                    let else_ = (block.id, NameTag::Else);
                    let end = (block.id, NameTag::End);
                    if frames.len() == 0 {
                        Skipped::Resumed(
                            Lowered { state: ConvState { frames, is_done: true, ..s }, ops: seq![] },
                        )
                    } else if stack.len() > u32::MAX {
                        Skipped::Failed(Failure::microwasm("Type stack too deep"@))
                    } else if block.kind == (ControlFrameKind::If { has_else: false }) {
                        Skipped::Resumed(
                            Lowered {
                                state: ConvState { frames, stack, ..s },
                                ops: seq![OperatorView::start(else_)] + jump(
                                    BrTarget::Label(end),
                                ).push(OperatorView::start(end)),
                            },
                        )
                    } else {
                        Skipped::Resumed(
                            Lowered {
                                state: ConvState { frames, stack, ..s },
                                ops: seq![OperatorView::start(end)],
                            },
                        )
                    }
                },
            }
        },
        _ => Skipped::Deeper(depth),
    }
}

/// One batch of operators of the flat form, with the source position that
/// they share.
pub struct Batch {
    pub ops: Seq<OperatorView<WasmLabel>>,
    pub offset: SourceLoc,
}

/// Skipping an unreachable region: operators are read and skipped until the
/// region ends. Reading past the last operator gives the error `end`.
pub open spec fn skip(
    operators: Seq<WithLoc<WasmOperator>>,
    end: Failure,
    s: ConvState,
    depth: nat,
) -> Result<(ConvState, Option<Batch>), Failure>
    decreases operators.len() - s.position,
{
    if s.is_done {
        Ok((s, None))
    } else if s.position >= operators.len() {
        Err(end)
    } else {
        let read = operators[s.position as int];
        let s = ConvState { position: s.position + 1, ..s };
        match skip_one(s, depth, read.op) {
            Skipped::Deeper(depth) => skip(operators, end, s, depth),
            Skipped::Resumed(lowered) => Ok(
                (lowered.state, Some(Batch { ops: lowered.ops, offset: read.offset })),
            ),
            Skipped::Failed(k) => Err(k),
        }
    }
}

/// The operators that push the constants `consts`, in their order.
pub open spec fn const_ops(consts: Seq<Value>) -> Seq<OperatorView<WasmLabel>> {
    consts.map_values(|v: Value| OperatorView::Plain(Operator::Const(v)))
}

/// The next batch of operators that lowering gives, and the state after it;
/// `None` for the batch once the function has been lowered to its end.
pub open spec fn next(
    module: ModuleContext,
    pointer_type: SignlessType,
    operators: Seq<WithLoc<WasmOperator>>,
    end: Failure,
    s: ConvState,
) -> Result<(ConvState, Option<Batch>), Failure> {
    if let Some(consts) = s.consts_to_emit {
        Ok(
            (
                ConvState { consts_to_emit: None, ..s },
                Some(
                    Batch { ops: const_ops(consts), offset: SourceLoc(u32::MAX) },
                ),
            ),
        )
    } else if s.unreachable {
        skip(operators, end, ConvState { unreachable: false, ..s }, 0)
    } else if s.is_done {
        Ok((s, None))
    } else if s.position >= operators.len() {
        Err(end)
    } else {
        let read = operators[s.position as int];
        match step(module, pointer_type, ConvState { position: s.position + 1, ..s }, read.op) {
            Err(k) => Err(k),
            Ok(lowered) => Ok((lowered.state, Some(Batch { ops: lowered.ops, offset: read.offset }))),
        }
    }
}

} // verus!
