//! Laws of lowering and of the translation driver.

use crate::blocks::BlockView;
use crate::backend::{BrAction, ConventionView, Label, ValueLocation};
use crate::error::Failure;
use crate::conv::{locals_failure, new_failure};
use crate::lower::{
    locals_count, next, op_sig, skip, skip_one, step, ConvState, Lowered, Skipped,
};
use crate::module::ModuleContext;
use crate::operator::{
    drop_count, BrTarget, BrTargetDrop, DropRange, Operator, OperatorView, SourceLoc, WasmLabel,
    WithLoc,
};
use crate::plain::spec_plain;
use crate::reader::{
    is_read, lemma_locals_fault, local_failure, parsed_locals_start, read_failure, Fault,
};
use crate::reconcile::{agree, dropped, param_locs};
use crate::sig::{lemma_apply_len, lemma_unify_len, spec_apply, unify, OpSigView};
use crate::translate::{
    adaptor_ops, begin, edge, end, finish, install, label, mark_next, names, on, reconcile,
    reconcile_one,
    request, skipped, start, ActionView, BranchView, Candidate, DriverView, EventView,
    ListingView, PendingView, Reconciled,
};
use crate::types::SignlessType;
use crate::wasm::{FunctionBody, WasmOperator};
use dynasmrt::AssemblyOffset;
use vstd::prelude::*;

verus! {

/// What lies above the locals on the type stack is no local: an access to a
/// local whose index is not below the number of the function's locals fails,
/// however high the type stack is.
pub proof fn lemma_operand_is_no_local(
    module: ModuleContext,
    pointer_type: SignlessType,
    s: ConvState,
    local_index: u32,
)
    requires
        local_index >= locals_count(s.frames),
    ensures
        step(module, pointer_type, s, WasmOperator::LocalGet { local_index }) == Err::<Lowered, Failure>(Failure::microwasm("LocalGet - Local out of range"@)),
        step(module, pointer_type, s, WasmOperator::LocalSet { local_index }) == Err::<Lowered, Failure>(Failure::microwasm("LocalSet - Local out of range"@)),
        step(module, pointer_type, s, WasmOperator::LocalTee { local_index }) == Err::<Lowered, Failure>(Failure::microwasm("LocalTee - Local out of range"@)),
{
}

/// A body with a local declaration that cannot be read is not lowered: where
/// the declarations before it can be taken, lowering fails at its start with
/// the `Microwasm` error that begins `Getting local failed: ` and then says
/// why reading failed, and where.
pub proof fn lemma_unread_local_stops_lowering(
    body: FunctionBody,
    offset: usize,
    data: Seq<u8>,
    params: Seq<SignlessType>,
)
    requires
        read_failure(offset, data) is None,
        is_read(body, offset, data),
        body.locals_error is Some,
        locals_failure(params.len(), body.locals@) is None,
    ensures
        exists|fault: Fault|
            new_failure(params, body.locals@, body.locals_error) == Some(local_failure(fault)),
{
    let (count, first_local) = parsed_locals_start(offset, data)->Ok_0;
    lemma_locals_fault(offset, data, (first_local - offset) as usize, count as nat);
    let failure = body.locals_error->Some_0.spec_failure();
    let fault = choose|fault: Fault| failure == local_failure(fault);
    assert(new_failure(params, body.locals@, body.locals_error) == Some(local_failure(fault)));
}

/// An operator whose inputs all lie above the height at which the innermost
/// block was entered leaves what is below that height as it was: lowering
/// pops nothing but the inputs of the operator.
pub proof fn lemma_apply_keeps_below(sig: OpSigView, stack: Seq<SignlessType>, arguments: nat)
    requires
        spec_apply(sig, stack) is Ok,
        arguments + sig.input.len() <= stack.len(),
    ensures
        spec_apply(sig, stack)->Ok_0.len() >= arguments,
        spec_apply(sig, stack)->Ok_0.take(arguments as int) == stack.take(arguments as int),
{
    lemma_apply_len(sig, stack);
    assert(spec_apply(sig, stack)->Ok_0.take(arguments as int) =~= stack.take(arguments as int));
}

/// The inputs of an operator are never more than the type stack holds: where
/// the stack has fewer values than the operator pops, lowering fails and pops
/// nothing.
pub proof fn lemma_apply_needs_inputs(sig: OpSigView, stack: Seq<SignlessType>)
    requires
        stack.len() < sig.input.len(),
    ensures
        spec_apply(sig, stack) is Err,
{
    if unify(sig.input, stack, None) is Ok {
        lemma_unify_len(sig.input, stack, None);
    }
}

/// Skipping reads no operator past the last of the body.
pub proof fn lemma_skip_within_body(
    operators: Seq<WithLoc<WasmOperator>>,
    end: Failure,
    s: ConvState,
    depth: nat,
)
    requires
        s.position <= operators.len(),
        skip(operators, end, s, depth) is Ok,
    ensures
        s.position <= skip(operators, end, s, depth)->Ok_0.0.position <= operators.len(),
    decreases operators.len() - s.position,
{
    if !s.is_done && s.position < operators.len() {
        let read = operators[s.position as int];
        let t = ConvState { position: s.position + 1, ..s };
        match skip_one(t, depth, read.op) {
            Skipped::Deeper(d) => {
                lemma_skip_within_body(operators, end, t, d);
            },
            _ => {},
        }
    }
}

/// Lowering an operator leaves the count of the operators read alone.
pub proof fn lemma_step_position(
    module: ModuleContext,
    pointer_type: SignlessType,
    s: ConvState,
    op: WasmOperator,
)
    requires
        step(module, pointer_type, s, op) is Ok,
    ensures
        step(module, pointer_type, s, op)->Ok_0.state.position == s.position,
        step(module, pointer_type, s, op)->Ok_0.state.consts_to_emit == s.consts_to_emit,
{
}

/// Lowering never reads past the operators of the body: each batch is made
/// from operators that the body holds. Once the end of the function has been
/// lowered, nothing more is read and no batch is given.
pub proof fn lemma_next_within_body(
    module: ModuleContext,
    pointer_type: SignlessType,
    operators: Seq<WithLoc<WasmOperator>>,
    end: Failure,
    s: ConvState,
)
    requires
        s.position <= operators.len(),
    ensures
        next(module, pointer_type, operators, end, s) matches Ok((after, _)) ==> s.position
            <= after.position <= operators.len(),
        s.is_done && s.consts_to_emit is None ==> (next(module, pointer_type, operators, end, s)
            matches Ok((after, batch)) && batch is None && after.position == s.position),
{
    if s.consts_to_emit is None {
        if s.unreachable {
            let t = ConvState { unreachable: false, ..s };
            if skip(operators, end, t, 0) is Ok {
                lemma_skip_within_body(operators, end, t, 0);
            }
        } else if !s.is_done && s.position < operators.len() {
            let t = ConvState { position: s.position + 1, ..s };
            let read = operators[s.position as int];
            if step(module, pointer_type, t, read.op) is Ok {
                lemma_step_position(module, pointer_type, t, read.op);
            }
        }
    }
}

/// An operator that lowers to exactly one operator of the flat form changes
/// the height of the type stack by the number of its outputs less the number
/// of its inputs, and changes nothing else.
pub proof fn lemma_step_conserves(
    module: ModuleContext,
    pointer_type: SignlessType,
    s: ConvState,
    op: WasmOperator,
)
    requires
        spec_plain(op) is Some,
        step(module, pointer_type, s, op) is Ok,
    ensures
        op_sig(module, pointer_type, s, op) is Ok,
        ({
            let sig = op_sig(module, pointer_type, s, op)->Ok_0;
            let after = step(module, pointer_type, s, op)->Ok_0;
            &&& after.ops == seq![OperatorView::Plain(spec_plain(op).unwrap())]
            &&& after.state.stack.len() == s.stack.len() - sig.input.len() + sig.output.len()
            &&& after.state == (ConvState { stack: after.state.stack, ..s })
        }),
{
    let sig = op_sig(module, pointer_type, s, op)->Ok_0;
    lemma_apply_len(sig, s.stack);
}

/// How many values the operator `op` of the flat form pops, and how many it
/// pushes; `None` for the operators that direct the flow, and for a call of
/// what the module lacks.
pub open spec fn arity(module: ModuleContext, op: Operator<WasmLabel>) -> Option<(nat, nat)> {
    match op {
        Operator::Unreachable | Operator::Declare { .. } | Operator::Start(_) | Operator::End(_) => None,
        Operator::Call { function_index } => match module.spec_func_type(function_index) {
            Some(sig) => Some((sig.params@.len(), sig.returns@.len())),
            None => None,
        },
        Operator::CallIndirect { type_index, .. } => match module.spec_signature(type_index) {
            Some(sig) => Some((sig.params@.len() + 1, sig.returns@.len())),
            None => None,
        },
        Operator::Drop(range) => if range.start <= range.end {
            Some(((range.end - range.start + 1) as nat, 0))
        } else {
            Some((0, 0))
        },
        Operator::Swap(_) => Some((0, 0)),
        Operator::Pick(_) | Operator::GlobalGet(_) | Operator::MemorySize { .. } | Operator::Const(_) => Some(
            (0, 1),
        ),
        Operator::GlobalSet(_) => Some((1, 0)),
        Operator::Store { .. } | Operator::Store8 { .. } | Operator::Store16 { .. } | Operator::Store32 { .. } => Some(
            (2, 0),
        ),
        Operator::Select => Some((3, 1)),
        Operator::Eq(_)
        | Operator::Ne(_)
        | Operator::Lt(_)
        | Operator::Gt(_)
        | Operator::Le(_)
        | Operator::Ge(_)
        | Operator::Add(_)
        | Operator::Sub(_)
        | Operator::Mul(_)
        | Operator::Div(_)
        | Operator::Rem(_)
        | Operator::And(_)
        | Operator::Or(_)
        | Operator::Xor(_)
        | Operator::Shl(_)
        | Operator::Shr(_)
        | Operator::Rotl(_)
        | Operator::Rotr(_)
        | Operator::Min(_)
        | Operator::Max(_)
        | Operator::Copysign(_) => Some((2, 1)),
        _ => Some((1, 1)),
    }
}

/// By how much the operator `op` of the flat form changes the number of
/// values: what it pushes less what it pops.
pub open spec fn effect(module: ModuleContext, op: OperatorView<WasmLabel>) -> int {
    match op {
        OperatorView::Plain(op) => match arity(module, op) {
            Some((pops, pushes)) => pushes - pops,
            None => 0,
        },
        _ => 0,
    }
}

/// By how much the operators `ops` change the number of values, one after
/// the other.
pub open spec fn effects(module: ModuleContext, ops: Seq<OperatorView<WasmLabel>>) -> int
    decreases ops.len(),
{
    if ops.len() == 0 {
        0
    } else {
        effects(module, ops.drop_last()) + effect(module, ops.last())
    }
}

/// Whether `op` directs the flow: it opens or closes a block, branches, or
/// ends what can be reached.
pub open spec fn directs_flow(op: WasmOperator) -> bool {
    op is Unreachable || op is Block || op is Loop || op is If || op is Else || op is End
        || op is Br || op is BrIf || op is BrTable || op is Return
}

/// An operator that is lowered to one operator of the flat form has the
/// signature of that operator: it pops and pushes as many values.
proof fn lemma_plain_arity(
    module: ModuleContext,
    pointer_type: SignlessType,
    s: ConvState,
    op: WasmOperator,
)
    requires
        spec_plain(op) is Some,
        op_sig(module, pointer_type, s, op) is Ok,
    ensures
        arity(module, spec_plain(op)->Some_0) == Some(
            (
                op_sig(module, pointer_type, s, op)->Ok_0.input.len(),
                op_sig(module, pointer_type, s, op)->Ok_0.output.len(),
            ),
        ),
{
}

/// Operand conservation. An operator that does not direct the flow changes
/// the height of the type stack by the number of its outputs less the number
/// of its inputs, and the operators of the flat form that it is lowered to
/// push and pop, taken together, as many values as that: the one operator of
/// most, `Swap` and `Drop` of `local.set`, `Pick`, `Swap` and `Drop` of
/// `local.tee`, and none of `nop`.
pub proof fn lemma_operands_conserved(
    module: ModuleContext,
    pointer_type: SignlessType,
    s: ConvState,
    op: WasmOperator,
)
    requires
        !directs_flow(op),
        step(module, pointer_type, s, op) is Ok,
    ensures
        op_sig(module, pointer_type, s, op) is Ok,
        ({
            let sig = op_sig(module, pointer_type, s, op)->Ok_0;
            let after = step(module, pointer_type, s, op)->Ok_0;
            &&& after.state.stack.len() - s.stack.len() == sig.output.len() - sig.input.len()
            &&& effects(module, after.ops) == sig.output.len() - sig.input.len()
        }),
{
    let sig = op_sig(module, pointer_type, s, op)->Ok_0;
    let after = step(module, pointer_type, s, op)->Ok_0;
    lemma_apply_len(sig, s.stack);
    match op {
        WasmOperator::LocalGet { .. } => {
            assert(after.ops.drop_last() =~= Seq::empty());
            assert(effects(module, after.ops.drop_last()) == 0);
        },
        WasmOperator::LocalSet { .. } => {
            let one = after.ops.drop_last();
            assert(one.drop_last() =~= Seq::empty());
            assert(effects(module, one.drop_last()) == 0);
            assert(effects(module, one) == 0);
        },
        WasmOperator::LocalTee { .. } => {
            let two = after.ops.drop_last();
            let one = two.drop_last();
            assert(one.drop_last() =~= Seq::empty());
            assert(effects(module, one.drop_last()) == 0);
            assert(effects(module, one) == 1);
            assert(effects(module, two) == 1);
        },
        WasmOperator::Nop => {},
        _ => {
            lemma_plain_arity(module, pointer_type, s, op);
            assert(after.ops.drop_last() =~= Seq::empty());
            assert(effects(module, after.ops.drop_last()) == 0);
        },
    }
}

/// The layout that a target without one takes from a branch whose values
/// the backend placed as `cc` says: the places of `cc` less those of the
/// slots that the branch drops on the way to the target, and the stack depth
/// of `cc` unless many branches may reach the block.
pub open spec fn projected<L>(block: BlockView, cc: ConventionView, t: BrTargetDrop<L>) -> BlockView {
    BlockView {
        calling_convention: Some(
            ConventionView {
                locs: dropped(cc.locs, t.to_drop),
                max_depth: cc.max_depth,
                depth: if block.tmp_num_callers() == crate::operator::NumCallers::Many {
                    None
                } else {
                    cc.depth
                },
            },
        ),
        ..block
    }
}

/// Giving the targets of a branch a layout touches no other block, keeps the
/// layout of a target that had one, and gives a target that had none the
/// layout of the branch, seen through what the branch drops on the way.
pub proof fn lemma_install_propagates<L>(
    blocks: Map<BrTarget<L>, BlockView>,
    cc: ConventionView,
    all: Seq<BrTargetDrop<L>>,
    k: BrTarget<L>,
)
    requires
        install(blocks, cc, all) is Ok,
    ensures
        install(blocks, cc, all)->Ok_0.contains_key(k) == blocks.contains_key(k),
        names(all, k) ==> blocks.contains_key(k) && install(
            blocks,
            cc,
            all,
        )->Ok_0[k].calling_convention is Some,
        !names(all, k) || blocks[k].calling_convention is Some ==> install(blocks, cc, all)->Ok_0[k]
            == blocks[k],
        names(all, k) && blocks[k].calling_convention is None ==> exists|j: int|
            0 <= j < all.len() && (#[trigger] all[j]).target == k && install(blocks, cc, all)->Ok_0[k]
                == projected(blocks[k], cc, all[j]),
    decreases all.len(),
{
    if all.len() > 0 {
        let shorter = all.drop_last();
        let before = install(blocks, cc, shorter)->Ok_0;
        let after = install(blocks, cc, all)->Ok_0;
        lemma_install_propagates(blocks, cc, shorter, k);
        lemma_install_propagates(blocks, cc, shorter, all.last().target);
        if names(shorter, k) {
            let j = choose|j: int| 0 <= j < shorter.len() && (#[trigger] shorter[j]).target == k;
            assert(all[j] == shorter[j]);
        }
        if names(all, k) {
            let j = choose|j: int| 0 <= j < all.len() && (#[trigger] all[j]).target == k;
            if j < all.len() - 1 {
                assert(shorter[j] == all[j]);
            }
        }
        if all.last().target == k {
            assert(all[all.len() - 1].target == k);
        }
        if names(all, k) && blocks[k].calling_convention is None {
            if names(shorter, k) {
                let j = choose|j: int|
                    0 <= j < shorter.len() && (#[trigger] shorter[j]).target == k && before[k]
                        == projected(blocks[k], cc, shorter[j]);
                assert(all[j] == shorter[j]);
                assert(after[k] == projected(blocks[k], cc, all[j]));
            } else {
                let j = all.len() - 1;
                assert(all[j].target == k);
                assert(after[k] == projected(blocks[k], cc, all[j]));
            }
        }
    }
}

/// After a branch has been translated, every target that it names has a
/// layout: the one it had before, or else the layout that the backend gave
/// the values of the branch, seen through what the branch drops on the way
/// to the target. An adaptor is such a target: it had no layout before.
pub proof fn lemma_finish_propagates<L: crate::operator::MakeInternalLabel>(
    s: DriverView<L>,
    branch: BranchView<L>,
    cc: ConventionView,
    place: ValueLocation,
    i: int,
)
    requires
        finish(s, branch, cc, place) is Ok,
        0 <= i < branch.targets.push(branch.default).len(),
    ensures
        ({
            let all = branch.targets.push(branch.default);
            let after = finish(s, branch, cc, place)->Ok_0.0.blocks;
            let k = all[i].target;
            &&& s.blocks.contains_key(k)
            &&& after.contains_key(k)
            &&& after[k].calling_convention is Some
            &&& s.blocks[k].calling_convention is Some ==> after[k].calling_convention
                == s.blocks[k].calling_convention
            &&& s.blocks[k].calling_convention is None ==> exists|j: int|
                0 <= j < all.len() && (#[trigger] all[j]).target == k && after[k].calling_convention
                    == projected(s.blocks[k], cc, all[j]).calling_convention
        }),
{
    let all = branch.targets.push(branch.default);
    let k = all[i].target;
    lemma_install_propagates(s.blocks, cc, all, k);
}

/// Whether the layout `locs` places just the parameters of a block with
/// `params` parameters and the slots that a branch drops on the way to it,
/// and the dropped slots lie in it.
pub open spec fn covers(locs: Seq<ValueLocation>, params: u32, to_drop: Option<DropRange>) -> bool {
    &&& locs.len() == params + drop_count(to_drop)
    &&& to_drop matches Some(range) ==> range.end < locs.len()
}

/// The layout that a target takes from a branch has a place for each of its
/// parameters, where the layout of the branch places just those and what the
/// branch drops on the way.
pub proof fn lemma_projected_len<L>(block: BlockView, cc: ConventionView, t: BrTargetDrop<L>)
    requires
        covers(cc.locs, block.params, t.to_drop),
    ensures
        projected(block, cc, t).calling_convention->Some_0.locs.len() == block.params,
{
}

/// After a branch has been translated, a target that had no layout has one
/// with a place for each of its parameters, where the layout that the backend
/// gave the values of the branch places just those and what the branch drops
/// on the way to the target.
pub proof fn lemma_finish_layout_len<L: crate::operator::MakeInternalLabel>(
    s: DriverView<L>,
    branch: BranchView<L>,
    cc: ConventionView,
    place: ValueLocation,
    i: int,
)
    requires
        finish(s, branch, cc, place) is Ok,
        0 <= i < branch.targets.push(branch.default).len(),
        ({
            let all = branch.targets.push(branch.default);
            let k = all[i].target;
            &&& s.blocks[k].calling_convention is None
            &&& forall|j: int|
                0 <= j < all.len() && (#[trigger] all[j]).target == k ==> covers(
                    cc.locs,
                    s.blocks[k].params,
                    all[j].to_drop,
                )
        }),
    ensures
        ({
            let all = branch.targets.push(branch.default);
            let after = finish(s, branch, cc, place)->Ok_0.0.blocks;
            let k = all[i].target;
            &&& after[k].calling_convention is Some
            &&& after[k].calling_convention->Some_0.locs.len() == s.blocks[k].params
            &&& after[k].params == s.blocks[k].params
        }),
{
    let all = branch.targets.push(branch.default);
    let k = all[i].target;
    let after = finish(s, branch, cc, place)->Ok_0.0.blocks;
    lemma_finish_propagates(s, branch, cc, place, i);
    let j = choose|j: int|
        0 <= j < all.len() && (#[trigger] all[j]).target == k && after[k].calling_convention
            == projected(s.blocks[k], cc, all[j]).calling_convention;
    lemma_projected_len(s.blocks[k], cc, all[j]);
    lemma_install_propagates(s.blocks, cc, all, k);
}

/// Whether the layout of the target `t` cannot be brought together with the
/// layout that the branch has come to so far: both have one, and a slot of
/// the branch has a place in each that is not the same.
pub open spec fn disagrees<L: crate::operator::MakeInternalLabel>(
    r: Reconciled<L>,
    params: u32,
    t: BrTargetDrop<L>,
) -> bool {
    r.blocks[t.target].calling_convention matches Some(block_cc) && r.candidate matches Some(
        candidate,
    ) && !agree(
        param_locs(params, block_cc.locs, t.to_drop).unwrap(),
        param_locs(params, candidate.cc.locs, candidate.to_drop).unwrap(),
    )
}

/// One adaptor for each edge that cannot agree, and none for any other. A
/// table entry whose target disagrees with the layout of the branch is
/// replaced by an entry for a fresh adaptor, which is queued as the start of
/// the adaptor, the constant zero and the branch to the target; the target
/// keeps its places. Any other entry stays as it is, and nothing is queued.
pub proof fn lemma_adaptor_where_layouts_disagree<L: crate::operator::MakeInternalLabel>(
    r: Reconciled<L>,
    params: u32,
    t: BrTargetDrop<L>,
)
    requires
        reconcile_one(r, params, t) is Ok,
    ensures
        ({
            let after = reconcile_one(r, params, t)->Ok_0;
            if disagrees(r, params, t) {
                &&& L::spec_new_internal(r.internal_block_id) is Some
                &&& ({
                    let (label, next_id) = L::spec_new_internal(r.internal_block_id)->Some_0;
                    &&& after.targets == r.targets.push(
                        BrTargetDrop { target: BrTarget::Label(label), to_drop: t.to_drop },
                    )
                    &&& after.adaptor_keys == r.adaptor_keys.push(BrTarget::Label(label))
                    &&& after.adaptors == r.adaptors + adaptor_ops(label, t.target)
                    &&& after.internal_block_id == next_id
                    &&& BrTarget::Label(label) != t.target ==> (
                    after.blocks[t.target].calling_convention is Some
                        && after.blocks[t.target].calling_convention->Some_0.locs
                        == r.blocks[t.target].calling_convention->Some_0.locs)
                })
            } else {
                &&& after.targets == r.targets.push(t)
                &&& after.adaptor_keys == r.adaptor_keys
                &&& after.adaptors == r.adaptors
                &&& after.internal_block_id == r.internal_block_id
            }
        }),
{
}

/// The default edge of a branch gets no adaptor: the branch is laid out with
/// the default target that it came with, and with at most one adaptor for
/// each entry of its table.
pub proof fn lemma_default_gets_no_adaptor<L: crate::operator::MakeInternalLabel>(
    module: ModuleContext,
    func_idx: u32,
    s: DriverView<L>,
    targets: crate::operator::TargetsView<L>,
    offset: SourceLoc,
    next_start: Option<L>,
    machine_offset: AssemblyOffset,
)
    requires
        begin(module, func_idx, s, OperatorView::End(targets), offset, next_start, machine_offset)
            is Ok,
    ensures
        ({
            let after = begin(
                module,
                func_idx,
                s,
                OperatorView::End(targets),
                offset,
                next_start,
                machine_offset,
            )->Ok_0.0;
            &&& pending_branch(after.pending) matches Some(branch) && {
                &&& branch.default == targets.default
                &&& branch.targets.len() == targets.targets.len()
                &&& branch.adaptor_keys.len() <= targets.targets.len()
            }
        }),
{
    let marked = mark_next(s.blocks, next_start)->Ok_0;
    let default = targets.default;
    let block = marked[default.target];
    let candidate = match block.calling_convention {
        Some(cc) => Some(Candidate { cc, to_drop: default.to_drop }),
        None => None,
    };
    let params = (block.params + drop_count(default.to_drop)) as u32;
    let r0 = Reconciled {
        blocks: marked,
        candidate,
        max_num_callers: block.tmp_num_callers(),
        targets: seq![],
        adaptors: seq![],
        adaptor_keys: seq![],
        internal_block_id: s.internal_block_id,
    };
    lemma_reconcile_counts(r0, params, targets.targets);
}

/// Taking entries in adds one target for each, and at most one adaptor.
proof fn lemma_reconcile_counts<L: crate::operator::MakeInternalLabel>(
    r: Reconciled<L>,
    params: u32,
    targets: Seq<BrTargetDrop<L>>,
)
    requires
        reconcile(r, params, targets) is Ok,
    ensures
        reconcile(r, params, targets)->Ok_0.targets.len() == r.targets.len() + targets.len(),
        reconcile(r, params, targets)->Ok_0.adaptor_keys.len() <= r.adaptor_keys.len()
            + targets.len(),
    decreases targets.len(),
{
    if targets.len() > 0 {
        lemma_reconcile_counts(r, params, targets.drop_last());
        let before = reconcile(r, params, targets.drop_last())->Ok_0;
        lemma_adaptor_where_layouts_disagree(before, params, targets.last());
    }
}

/// The branch of an adaptor agrees with its target. A branch that has no
/// table and whose one target has a layout gets no adaptor of its own: the
/// layout of the target is what the backend is asked to place the values in,
/// and the target keeps it.
pub proof fn lemma_adaptor_branch_agrees<L: crate::operator::MakeInternalLabel>(
    module: ModuleContext,
    func_idx: u32,
    s: DriverView<L>,
    target: BrTarget<L>,
    offset: SourceLoc,
    next_start: Option<L>,
    machine_offset: AssemblyOffset,
)
    requires
        s.blocks.contains_key(target),
        s.blocks[target].calling_convention is Some,
        begin(
            module,
            func_idx,
            s,
            OperatorView::end_to(target),
            offset,
            next_start,
            machine_offset,
        ) is Ok,
    ensures
        ({
            let (after, asked) = begin(
                module,
                func_idx,
                s,
                OperatorView::end_to(target),
                offset,
                next_start,
                machine_offset,
            )->Ok_0;
            let cc = s.blocks[target].calling_convention->Some_0;
            &&& after.pending matches PendingView::Convention(branch) && {
                &&& branch.targets.len() == 0
                &&& branch.adaptor_keys.len() == 0
                &&& branch.default == (BrTargetDrop { target, to_drop: None })
                &&& branch.candidate == Some(Candidate { cc, to_drop: None })
                &&& Ok::<ActionView, Failure>(asked) == request(branch)
            }
            &&& after.adaptors == s.adaptors
            &&& after.internal_block_id == s.internal_block_id
            &&& after.blocks.contains_key(target)
            &&& after.blocks[target].calling_convention == Some(cc)
            &&& asked matches ActionView::SerializeBlockArgs { depth, .. } && depth == cc.depth
        }),
{
    let marked = mark_next(s.blocks, next_start)->Ok_0;
    assert(marked.contains_key(target));
    assert(marked[target].calling_convention == s.blocks[target].calling_convention);
}

/// The branch that ends a block falls through to the block that starts next:
/// where the block of the default target is marked as starting next when the
/// backend has placed the values, the edge to it is emitted as a fall-through.
pub proof fn lemma_finish_falls_through<L: crate::operator::MakeInternalLabel>(
    s: DriverView<L>,
    branch: BranchView<L>,
    cc: ConventionView,
    place: ValueLocation,
)
    requires
        finish(s, branch, cc, place) is Ok,
        s.blocks.contains_key(branch.default.target),
        s.blocks[branch.default.target].is_next,
    ensures
        finish(s, branch, cc, place)->Ok_0.1 matches ActionView::EndBlock { default, .. }
            && default.action == BrAction::Continue,
{
    let all = branch.targets.push(branch.default);
    lemma_install_propagates(s.blocks, cc, all, branch.default.target);
    let installed = install(s.blocks, cc, all)->Ok_0;
    if names(all, branch.default.target) && s.blocks[branch.default.target].calling_convention is None {
        let j = choose|j: int|
            0 <= j < all.len() && (#[trigger] all[j]).target == branch.default.target
                && installed[branch.default.target] == projected(
                s.blocks[branch.default.target],
                cc,
                all[j],
            );
    }
    assert(all[all.len() - 1].target == branch.default.target);
}

/// Taking the targets of a branch in leaves the marks of the blocks that
/// start next alone, but for a block whose name an adaptor took.
pub proof fn lemma_reconcile_keeps_next<L: crate::operator::MakeInternalLabel>(
    r: Reconciled<L>,
    params: u32,
    targets: Seq<BrTargetDrop<L>>,
    k: BrTarget<L>,
)
    requires
        reconcile(r, params, targets) is Ok,
        r.blocks.contains_key(k),
        forall|i: int|
            0 <= i < reconcile(r, params, targets)->Ok_0.adaptor_keys.len() ==> reconcile(
                r,
                params,
                targets,
            )->Ok_0.adaptor_keys[i] != k,
    ensures
        reconcile(r, params, targets)->Ok_0.blocks.contains_key(k),
        reconcile(r, params, targets)->Ok_0.blocks[k].is_next == r.blocks[k].is_next,
        r.adaptor_keys.len() <= reconcile(r, params, targets)->Ok_0.adaptor_keys.len(),
        forall|i: int|
            0 <= i < r.adaptor_keys.len() ==> reconcile(r, params, targets)->Ok_0.adaptor_keys[i]
                == r.adaptor_keys[i],
    decreases targets.len(),
{
    if targets.len() > 0 {
        let before = reconcile(r, params, targets.drop_last())->Ok_0;
        let after = reconcile_one(before, params, targets.last())->Ok_0;
        assert(before.adaptor_keys.len() <= after.adaptor_keys.len());
        assert forall|i: int| 0 <= i < before.adaptor_keys.len() implies after.adaptor_keys[i]
            == before.adaptor_keys[i] by {}
        assert forall|i: int| 0 <= i < before.adaptor_keys.len() implies before.adaptor_keys[i]
            != k by {
            assert(after.adaptor_keys[i] == before.adaptor_keys[i]);
        }
        lemma_reconcile_keeps_next(r, params, targets.drop_last(), k);
        if after.adaptor_keys.len() > before.adaptor_keys.len() {
            assert(after.adaptor_keys[before.adaptor_keys.len() as int] != k);
        }
    }
}

/// The branch that the driver is laying out, if it is laying one out.
pub open spec fn pending_branch<L>(pending: PendingView<L>) -> Option<BranchView<L>> {
    match pending {
        PendingView::Adaptors(branch, _) => Some(branch),
        PendingView::Convention(branch) => Some(branch),
        _ => None,
    }
}

/// A branch to the block that starts right after it: once the branch has
/// been handed over, its default target is marked as starting next, and the
/// mark stays while the driver waits for labels and for the layout. Together
/// with `lemma_finish_falls_through` this says that the edge is emitted as a
/// fall-through. Left out is a block whose name an adaptor of the same
/// branch took.
pub proof fn lemma_begin_marks_next<L: crate::operator::MakeInternalLabel>(
    module: ModuleContext,
    func_idx: u32,
    s: DriverView<L>,
    targets: crate::operator::TargetsView<L>,
    offset: SourceLoc,
    next: L,
    machine_offset: AssemblyOffset,
)
    requires
        targets.default.target == BrTarget::Label(next),
        begin(module, func_idx, s, OperatorView::End(targets), offset, Some(next), machine_offset)
            is Ok,
        ({
            let after = begin(
                module,
                func_idx,
                s,
                OperatorView::End(targets),
                offset,
                Some(next),
                machine_offset,
            )->Ok_0.0;
            forall|i: int|
                0 <= i < pending_branch(after.pending).unwrap().adaptor_keys.len()
                    ==> pending_branch(after.pending).unwrap().adaptor_keys[i]
                    != targets.default.target
        }),
    ensures
        ({
            let after = begin(
                module,
                func_idx,
                s,
                OperatorView::End(targets),
                offset,
                Some(next),
                machine_offset,
            )->Ok_0.0;
            &&& pending_branch(after.pending) is Some
            &&& pending_branch(after.pending).unwrap().default == targets.default
            &&& after.blocks.contains_key(targets.default.target)
            &&& after.blocks[targets.default.target].is_next
        }),
{
    let key = BrTarget::Label(next);
    let marked = mark_next(s.blocks, Some(next))->Ok_0;
    let s1 = DriverView {
        blocks: marked,
        listing: s.listing.push(
            (machine_offset, ListingView::Op(OperatorView::End(targets), offset)),
        ),
        ..s
    };
    let outcome = begin(
        module,
        func_idx,
        s,
        OperatorView::End(targets),
        offset,
        Some(next),
        machine_offset,
    );
    assert(outcome == end(s1, targets, offset));
    assert(marked.contains_key(key));
    let block = marked[key];
    let candidate = match block.calling_convention {
        Some(cc) => Some(Candidate { cc, to_drop: targets.default.to_drop }),
        None => None,
    };
    assert(block.params + crate::operator::drop_count(targets.default.to_drop) <= u32::MAX);
    let params = (block.params + crate::operator::drop_count(targets.default.to_drop)) as u32;
    let r0 = Reconciled {
        blocks: marked,
        candidate,
        max_num_callers: block.tmp_num_callers(),
        targets: seq![],
        adaptors: seq![],
        adaptor_keys: seq![],
        internal_block_id: s.internal_block_id,
    };
    assert(reconcile(r0, params, targets.targets) is Ok);
    let r = reconcile(r0, params, targets.targets)->Ok_0;
    let branch = BranchView {
        targets: r.targets,
        default: targets.default,
        candidate: r.candidate,
        max_num_callers: r.max_num_callers,
        params,
        adaptor_keys: r.adaptor_keys,
    };
    let after = outcome->Ok_0.0;
    assert(after.blocks == r.blocks);
    assert(pending_branch(after.pending) == Some(branch));
    assert forall|i: int| 0 <= i < r.adaptor_keys.len() implies r.adaptor_keys[i] != key by {
        assert(pending_branch(after.pending).unwrap().adaptor_keys[i] != targets.default.target);
    }
    lemma_reconcile_keeps_next(r0, params, targets.targets, key);
}

/// A fresh machine label leaves the marks of the blocks that start next alone.
pub proof fn lemma_label_keeps_next<L: crate::operator::MakeInternalLabel>(
    s: DriverView<L>,
    machine_label: Label,
    k: BrTarget<L>,
)
    requires
        label(s, machine_label) is Ok,
        s.pending is Adaptors,
        s.blocks.contains_key(k),
    ensures
        label(s, machine_label)->Ok_0.0.blocks.contains_key(k),
        label(s, machine_label)->Ok_0.0.blocks[k].is_next == s.blocks[k].is_next,
        pending_branch(label(s, machine_label)->Ok_0.0.pending) == pending_branch(s.pending),
{
}

/// What is read while a block is skipped leaves no line in the listing, and
/// takes none away.
pub proof fn lemma_skip_lists_nothing<L: crate::operator::MakeInternalLabel>(
    module: ModuleContext,
    func_idx: u32,
    s: DriverView<L>,
    event: EventView<L>,
)
    requires
        on(module, func_idx, s, event) is Ok,
        !(event is Operator),
    ensures
        on(module, func_idx, s, event)->Ok_0.0.listing == s.listing,
{
}

/// An operator that is translated adds its one line to the listing, after
/// the lines that were there.
pub proof fn lemma_operator_lists_one<L: crate::operator::MakeInternalLabel>(
    module: ModuleContext,
    func_idx: u32,
    s: DriverView<L>,
    op: OperatorView<L>,
    offset: SourceLoc,
    next_start: Option<L>,
    machine_offset: AssemblyOffset,
)
    requires
        begin(module, func_idx, s, op, offset, next_start, machine_offset) is Ok,
    ensures
        begin(module, func_idx, s, op, offset, next_start, machine_offset)->Ok_0.0.listing
            == s.listing.push((machine_offset, ListingView::Op(op, offset))),
{
}

/// What the driver has come to after the events `events`, from the state
/// `s` in which it asked for `action`; an error where one of them failed.
pub open spec fn after_events<L: crate::operator::MakeInternalLabel>(
    module: ModuleContext,
    func_idx: u32,
    s: DriverView<L>,
    action: ActionView,
    events: Seq<EventView<L>>,
) -> Result<(DriverView<L>, ActionView), Failure>
    decreases events.len(),
{
    if events.len() == 0 {
        Ok((s, action))
    } else {
        match after_events(module, func_idx, s, action, events.drop_last()) {
            Err(kind) => Err(kind),
            Ok((before, _)) => on(module, func_idx, before, events.last()),
        }
    }
}

/// Fall-through. A branch whose default target is the block that starts
/// right after it in the stream is emitted with a fall-through to that target,
/// whatever labels and whatever layout the backend hands over on the way.
/// Left out is a default target whose name an adaptor of the same branch
/// takes: the adaptor then stands in the table in place of the block.
pub proof fn lemma_fall_through<L: crate::operator::MakeInternalLabel>(
    module: ModuleContext,
    func_idx: u32,
    s: DriverView<L>,
    targets: crate::operator::TargetsView<L>,
    offset: SourceLoc,
    next: L,
    machine_offset: AssemblyOffset,
    responses: Seq<EventView<L>>,
)
    requires
        s.pending is Operator,
        targets.default.target == BrTarget::Label(next),
        forall|i: int| 0 <= i < responses.len() ==> !(#[trigger] responses[i] is Operator),
        begin(module, func_idx, s, OperatorView::End(targets), offset, Some(next), machine_offset)
            is Ok,
        ({
            let (first, asked) = begin(
                module,
                func_idx,
                s,
                OperatorView::End(targets),
                offset,
                Some(next),
                machine_offset,
            )->Ok_0;
            &&& forall|i: int|
                0 <= i < pending_branch(first.pending).unwrap().adaptor_keys.len()
                    ==> pending_branch(first.pending).unwrap().adaptor_keys[i]
                    != targets.default.target
            &&& after_events(module, func_idx, first, asked, responses) matches Ok((_, last))
                && last is EndBlock
        }),
    ensures
        ({
            let (first, asked) = begin(
                module,
                func_idx,
                s,
                OperatorView::End(targets),
                offset,
                Some(next),
                machine_offset,
            )->Ok_0;
            after_events(module, func_idx, first, asked, responses)->Ok_0.1 matches ActionView::EndBlock {
                default,
                ..
            } && default.action == BrAction::Continue
        }),
{
    let (first, asked) = begin(
        module,
        func_idx,
        s,
        OperatorView::End(targets),
        offset,
        Some(next),
        machine_offset,
    )->Ok_0;
    lemma_begin_marks_next(module, func_idx, s, targets, offset, next, machine_offset);
    assert(!(asked is EndBlock));
    lemma_branch_falls_through(module, func_idx, first, asked, responses, targets.default);
}

/// While a branch is laid out, the mark of the block that starts next stays;
/// the event that ends the branch emits the edge to a marked default target
/// as a fall-through.
proof fn lemma_branch_falls_through<L: crate::operator::MakeInternalLabel>(
    module: ModuleContext,
    func_idx: u32,
    first: DriverView<L>,
    asked: ActionView,
    responses: Seq<EventView<L>>,
    default: BrTargetDrop<L>,
)
    requires
        pending_branch(first.pending) is Some,
        pending_branch(first.pending).unwrap().default == default,
        first.blocks.contains_key(default.target),
        first.blocks[default.target].is_next,
        !(asked is EndBlock),
        forall|i: int| 0 <= i < responses.len() ==> !(#[trigger] responses[i] is Operator),
        after_events(module, func_idx, first, asked, responses) is Ok,
    ensures
        ({
            let (last, action) = after_events(module, func_idx, first, asked, responses)->Ok_0;
            if action is EndBlock {
                action matches ActionView::EndBlock { default: edge, .. } && edge.action
                    == BrAction::Continue
            } else {
                &&& pending_branch(last.pending) == pending_branch(first.pending)
                &&& last.blocks.contains_key(default.target)
                &&& last.blocks[default.target].is_next
            }
        }),
    decreases responses.len(),
{
    if responses.len() > 0 {
        let shorter = responses.drop_last();
        assert forall|i: int| 0 <= i < shorter.len() implies !(#[trigger] shorter[i] is Operator) by {
            assert(shorter[i] == responses[i]);
        }
        lemma_branch_falls_through(module, func_idx, first, asked, shorter, default);
        let (before, previous) = after_events(module, func_idx, first, asked, shorter)->Ok_0;
        let event = responses.last();
        assert(!(responses[responses.len() - 1] is Operator));
        if previous is EndBlock {
            // The branch has ended: the driver waits for an operator, and
            // takes nothing else.
            assert(before.pending is Operator) by {
                lemma_end_block_waits(module, func_idx, first, asked, shorter);
            }
            assert(on(module, func_idx, before, event) is Err);
        } else {
            let branch = pending_branch(before.pending).unwrap();
            match event {
                EventView::Label(machine_label) => {
                    if before.pending is Adaptors {
                        lemma_label_keeps_next(before, machine_label, default.target);
                    }
                },
                EventView::Convention(cc) => {
                    if before.pending is Convention {
                        lemma_finish_falls_through(
                            before,
                            branch,
                            ConventionView {
                                locs: cc.locs.drop_last(),
                                max_depth: cc.max_depth,
                                depth: if branch.candidate is None {
                                    Some(cc.max_depth)
                                } else {
                                    cc.depth
                                },
                            },
                            cc.locs.last(),
                        );
                    }
                },
                EventView::Selector { selector: place, convention: cc } => {
                    if before.pending is Convention {
                        lemma_finish_falls_through(before, branch, cc, place);
                    }
                },
                _ => {},
            }
        }
    }
}

/// Whether no block of `blocks` is marked as starting next, but the block
/// `but` if there is one.
pub open spec fn unmarked_but<L>(blocks: Map<BrTarget<L>, BlockView>, but: Option<BrTarget<L>>) -> bool {
    forall|k: BrTarget<L>| #[trigger] blocks.contains_key(k) && blocks[k].is_next ==> but == Some(k)
}

/// Whether `action` emits the branch `branch` with a jump on every edge but
/// those to the block `but`.
pub open spec fn jumps_but<L>(branch: BranchView<L>, action: ActionView, but: Option<BrTarget<L>>) -> bool {
    action matches ActionView::EndBlock { targets, default, .. } && {
        &&& targets.len() == branch.targets.len()
        &&& forall|i: int|
            0 <= i < targets.len() && Some(branch.targets[i].target) != but ==> (
            #[trigger] targets[i]).action == BrAction::Jump
        &&& Some(branch.default.target) != but ==> default.action == BrAction::Jump
    }
}

/// Taking the targets of a branch in marks no block as starting next.
proof fn lemma_reconcile_keeps_unmarked<L: crate::operator::MakeInternalLabel>(
    r: Reconciled<L>,
    params: u32,
    targets: Seq<BrTargetDrop<L>>,
    but: Option<BrTarget<L>>,
)
    requires
        reconcile(r, params, targets) is Ok,
        unmarked_but(r.blocks, but),
    ensures
        unmarked_but(reconcile(r, params, targets)->Ok_0.blocks, but),
    decreases targets.len(),
{
    if targets.len() > 0 {
        lemma_reconcile_keeps_unmarked(r, params, targets.drop_last(), but);
        let before = reconcile(r, params, targets.drop_last())->Ok_0;
        let after = reconcile_one(before, params, targets.last())->Ok_0;
        assert forall|k: BrTarget<L>| #[trigger]
            after.blocks.contains_key(k) && after.blocks[k].is_next implies but == Some(k) by {
            assert(before.blocks.contains_key(k) && before.blocks[k].is_next);
        }
    }
}

/// Giving the targets of a branch a layout marks no block as starting next.
proof fn lemma_install_keeps_unmarked<L>(
    blocks: Map<BrTarget<L>, BlockView>,
    cc: ConventionView,
    all: Seq<BrTargetDrop<L>>,
    but: Option<BrTarget<L>>,
)
    requires
        install(blocks, cc, all) is Ok,
        unmarked_but(blocks, but),
    ensures
        unmarked_but(install(blocks, cc, all)->Ok_0, but),
    decreases all.len(),
{
    if all.len() > 0 {
        lemma_install_keeps_unmarked(blocks, cc, all.drop_last(), but);
        let before = install(blocks, cc, all.drop_last())->Ok_0;
        let after = install(blocks, cc, all)->Ok_0;
        assert forall|k: BrTarget<L>| #[trigger]
            after.contains_key(k) && after[k].is_next implies but == Some(k) by {
            assert(before.contains_key(k) && before[k].is_next);
        }
    }
}

/// Where no block but `but` is marked as starting next when the backend has
/// placed the values of a branch, every edge of the branch but those to `but`
/// is emitted as a jump.
pub proof fn lemma_finish_jumps<L: crate::operator::MakeInternalLabel>(
    s: DriverView<L>,
    branch: BranchView<L>,
    cc: ConventionView,
    place: ValueLocation,
    but: Option<BrTarget<L>>,
)
    requires
        finish(s, branch, cc, place) is Ok,
        unmarked_but(s.blocks, but),
    ensures
        jumps_but(branch, finish(s, branch, cc, place)->Ok_0.1, but),
        unmarked_but(finish(s, branch, cc, place)->Ok_0.0.blocks, but),
{
    let all = branch.targets.push(branch.default);
    let installed = install(s.blocks, cc, all)->Ok_0;
    lemma_install_keeps_unmarked(s.blocks, cc, all, but);
    let after = finish(s, branch, cc, place)->Ok_0.0.blocks;
    assert forall|k: BrTarget<L>| #[trigger] after.contains_key(k) && after[k].is_next implies but
        == Some(k) by {
        assert(installed.contains_key(k) && installed[k].is_next);
    }
    assert forall|i: int| 0 <= i < all.len() implies after.contains_key(
        (#[trigger] all[i]).target,
    ) by {
        lemma_install_propagates(s.blocks, cc, all, all[i].target);
    }
    assert forall|i: int|
        0 <= i < branch.targets.len() && Some(branch.targets[i].target) != but implies edge(
        after,
        #[trigger] branch.targets[i],
    ).action == BrAction::Jump by {
        assert(all[i] == branch.targets[i]);
    }
    assert(all[all.len() - 1] == branch.default);
}

/// A branch that arrives while no block is marked but `but`, the one that
/// starts next, leaves it so, while the driver waits for labels and for the
/// layout.
proof fn lemma_begin_keeps_unmarked<L: crate::operator::MakeInternalLabel>(
    module: ModuleContext,
    func_idx: u32,
    s: DriverView<L>,
    targets: crate::operator::TargetsView<L>,
    offset: SourceLoc,
    next_start: Option<L>,
    machine_offset: AssemblyOffset,
    but: Option<BrTarget<L>>,
)
    requires
        unmarked_but(s.blocks, but),
        next_start is None || next_block(next_start) == but,
        begin(module, func_idx, s, OperatorView::End(targets), offset, next_start, machine_offset)
            is Ok,
    ensures
        ({
            let (after, asked) = begin(
                module,
                func_idx,
                s,
                OperatorView::End(targets),
                offset,
                next_start,
                machine_offset,
            )->Ok_0;
            &&& pending_branch(after.pending) is Some
            &&& !(asked is EndBlock)
            &&& unmarked_but(after.blocks, but)
        }),
{
    let marked = mark_next(s.blocks, next_start)->Ok_0;
    assert forall|k: BrTarget<L>| #[trigger] marked.contains_key(k) && marked[k].is_next implies but
        == Some(k) by {
        if but != Some(k) {
            assert(s.blocks.contains_key(k) && s.blocks[k].is_next);
        }
    }
    let default = targets.default;
    let block = marked[default.target];
    let candidate = match block.calling_convention {
        Some(cc) => Some(Candidate { cc, to_drop: default.to_drop }),
        None => None,
    };
    let params = (block.params + drop_count(default.to_drop)) as u32;
    let r0 = Reconciled {
        blocks: marked,
        candidate,
        max_num_callers: block.tmp_num_callers(),
        targets: seq![],
        adaptors: seq![],
        adaptor_keys: seq![],
        internal_block_id: s.internal_block_id,
    };
    lemma_reconcile_keeps_unmarked(r0, params, targets.targets, but);
}

/// The block that starts next, if one does.
pub open spec fn next_block<L>(next_start: Option<L>) -> Option<BrTarget<L>> {
    match next_start {
        Some(label) => Some(BrTarget::Label(label)),
        None => None,
    }
}

/// While a branch is laid out no block is marked anew; the event that ends
/// the branch emits every edge but those to the marked block as a jump.
proof fn lemma_branch_jumps<L: crate::operator::MakeInternalLabel>(
    module: ModuleContext,
    func_idx: u32,
    first: DriverView<L>,
    asked: ActionView,
    responses: Seq<EventView<L>>,
    but: Option<BrTarget<L>>,
)
    requires
        pending_branch(first.pending) is Some,
        unmarked_but(first.blocks, but),
        !(asked is EndBlock),
        forall|i: int| 0 <= i < responses.len() ==> !(#[trigger] responses[i] is Operator),
        after_events(module, func_idx, first, asked, responses) is Ok,
    ensures
        ({
            let (last, action) = after_events(module, func_idx, first, asked, responses)->Ok_0;
            if action is EndBlock {
                jumps_but(pending_branch(first.pending).unwrap(), action, but)
            } else {
                &&& pending_branch(last.pending) == pending_branch(first.pending)
                &&& unmarked_but(last.blocks, but)
            }
        }),
    decreases responses.len(),
{
    if responses.len() > 0 {
        let shorter = responses.drop_last();
        assert forall|i: int| 0 <= i < shorter.len() implies !(#[trigger] shorter[i] is Operator) by {
            assert(shorter[i] == responses[i]);
        }
        lemma_branch_jumps(module, func_idx, first, asked, shorter, but);
        let (before, previous) = after_events(module, func_idx, first, asked, shorter)->Ok_0;
        let event = responses.last();
        assert(!(responses[responses.len() - 1] is Operator));
        if previous is EndBlock {
            assert(before.pending is Operator) by {
                lemma_end_block_waits(module, func_idx, first, asked, shorter);
            }
            assert(on(module, func_idx, before, event) is Err);
        } else {
            let branch = pending_branch(before.pending).unwrap();
            let (last, action) = on(module, func_idx, before, event)->Ok_0;
            match event {
                EventView::Label(machine_label) => {
                    if before.pending is Adaptors {
                        assert forall|k: BrTarget<L>| #[trigger]
                            last.blocks.contains_key(k) && last.blocks[k].is_next implies but
                            == Some(k) by {
                            assert(before.blocks.contains_key(k) && before.blocks[k].is_next);
                        }
                    }
                },
                EventView::Convention(cc) => {
                    if before.pending is Convention {
                        lemma_finish_jumps(
                            before,
                            branch,
                            ConventionView {
                                locs: cc.locs.drop_last(),
                                max_depth: cc.max_depth,
                                depth: if branch.candidate is None {
                                    Some(cc.max_depth)
                                } else {
                                    cc.depth
                                },
                            },
                            cc.locs.last(),
                            but,
                        );
                    }
                },
                EventView::Selector { selector: place, convention: cc } => {
                    if before.pending is Convention {
                        lemma_finish_jumps(before, branch, cc, place, but);
                    }
                },
                _ => {},
            }
        }
    }
}

/// Every other edge is a jump. A branch that arrives while no block is
/// marked but the one that starts next in the stream is emitted with a jump on
/// every edge but those to that block, whatever labels and whatever layout
/// the backend hands over on the way. The edges are those of the branch as
/// the driver laid it out: an edge that got an adaptor goes to the adaptor.
/// That the marks are such when a branch arrives is what
/// `lemma_on_keeps_unmarked` and `lemma_start_unmarks` say.
pub proof fn lemma_other_edges_jump<L: crate::operator::MakeInternalLabel>(
    module: ModuleContext,
    func_idx: u32,
    s: DriverView<L>,
    targets: crate::operator::TargetsView<L>,
    offset: SourceLoc,
    next_start: Option<L>,
    machine_offset: AssemblyOffset,
    responses: Seq<EventView<L>>,
)
    requires
        s.pending is Operator,
        unmarked_but(s.blocks, next_block(next_start)),
        forall|i: int| 0 <= i < responses.len() ==> !(#[trigger] responses[i] is Operator),
        begin(module, func_idx, s, OperatorView::End(targets), offset, next_start, machine_offset)
            is Ok,
        ({
            let (first, asked) = begin(
                module,
                func_idx,
                s,
                OperatorView::End(targets),
                offset,
                next_start,
                machine_offset,
            )->Ok_0;
            after_events(module, func_idx, first, asked, responses) matches Ok((_, last))
                && last is EndBlock
        }),
    ensures
        ({
            let (first, asked) = begin(
                module,
                func_idx,
                s,
                OperatorView::End(targets),
                offset,
                next_start,
                machine_offset,
            )->Ok_0;
            jumps_but(
                pending_branch(first.pending).unwrap(),
                after_events(module, func_idx, first, asked, responses)->Ok_0.1,
                next_block(next_start),
            )
        }),
{
    let (first, asked) = begin(
        module,
        func_idx,
        s,
        OperatorView::End(targets),
        offset,
        next_start,
        machine_offset,
    )->Ok_0;
    lemma_begin_keeps_unmarked(
        module,
        func_idx,
        s,
        targets,
        offset,
        next_start,
        machine_offset,
        next_block(next_start),
    );
    lemma_branch_jumps(module, func_idx, first, asked, responses, next_block(next_start));
}

/// The marks name only the block that starts next. Where no block is marked
/// but `but`, no event marks another: an operator marks the block that starts
/// after it in the stream, and whatever else the driver does to the blocks, it
/// marks none.
pub proof fn lemma_on_keeps_unmarked<L: crate::operator::MakeInternalLabel>(
    module: ModuleContext,
    func_idx: u32,
    s: DriverView<L>,
    event: EventView<L>,
    but: Option<BrTarget<L>>,
)
    requires
        unmarked_but(s.blocks, but),
        on(module, func_idx, s, event) is Ok,
        event matches EventView::Operator { next_start, .. } ==> next_start is None || next_block(
            next_start,
        ) == but,
    ensures
        unmarked_but(on(module, func_idx, s, event)->Ok_0.0.blocks, but),
{
    let after = on(module, func_idx, s, event)->Ok_0.0.blocks;
    match event {
        EventView::Operator { op, offset, next_start, machine_offset } => {
            let marked = mark_next(s.blocks, next_start)->Ok_0;
            assert(unmarked_but(marked, but)) by {
                assert forall|k: BrTarget<L>| #[trigger]
                    marked.contains_key(k) && marked[k].is_next implies but == Some(k) by {
                    if but != Some(k) {
                        assert(s.blocks.contains_key(k) && s.blocks[k].is_next);
                    }
                }
            }
            match op {
                OperatorView::End(targets) => {
                    lemma_begin_keeps_unmarked(
                        module,
                        func_idx,
                        s,
                        targets,
                        offset,
                        next_start,
                        machine_offset,
                        but,
                    );
                },
                _ => {
                    assert forall|k: BrTarget<L>| #[trigger]
                        after.contains_key(k) && after[k].is_next implies but == Some(k) by {
                        assert(marked.contains_key(k) && marked[k].is_next);
                    }
                },
            }
        },
        EventView::Convention(cc) => {
            match s.pending {
                PendingView::Convention(branch) => {
                    lemma_finish_jumps(
                        s,
                        branch,
                        ConventionView {
                            locs: cc.locs.drop_last(),
                            max_depth: cc.max_depth,
                            depth: if branch.candidate is None {
                                Some(cc.max_depth)
                            } else {
                                cc.depth
                            },
                        },
                        cc.locs.last(),
                        but,
                    );
                },
                _ => {
                    assert forall|k: BrTarget<L>| #[trigger]
                        after.contains_key(k) && after[k].is_next implies but == Some(k) by {
                        assert(s.blocks.contains_key(k) && s.blocks[k].is_next);
                    }
                },
            }
        },
        EventView::Selector { selector: place, convention: cc } => {
            match s.pending {
                PendingView::Convention(branch) => {
                    lemma_finish_jumps(s, branch, cc, place, but);
                },
                _ => {},
            }
        },
        _ => {
            assert forall|k: BrTarget<L>| #[trigger]
                after.contains_key(k) && after[k].is_next implies but == Some(k) by {
                assert(s.blocks.contains_key(k) && s.blocks[k].is_next);
            }
        },
    }
}

/// The start of the block that is marked as starting next takes the mark
/// away: where no other block was marked, none is marked after it.
pub proof fn lemma_start_unmarks<L: crate::operator::MakeInternalLabel>(s: DriverView<L>, label: L)
    requires
        start(s, label) is Ok,
        unmarked_but(s.blocks, Some(BrTarget::Label(label))),
    ensures
        unmarked_but(start(s, label)->Ok_0.0.blocks, None),
{
    let after = start(s, label)->Ok_0.0.blocks;
    assert forall|k: BrTarget<L>| #[trigger] after.contains_key(k) && after[k].is_next implies false by {
        if k != BrTarget::Label(label) {
            assert(s.blocks.contains_key(k) && s.blocks[k].is_next);
        }
    }
}

/// Once the branch has been emitted the driver waits for the next operator.
proof fn lemma_end_block_waits<L: crate::operator::MakeInternalLabel>(
    module: ModuleContext,
    func_idx: u32,
    first: DriverView<L>,
    asked: ActionView,
    events: Seq<EventView<L>>,
)
    requires
        !(asked is EndBlock),
        after_events(module, func_idx, first, asked, events) matches Ok((_, action)) && action
            is EndBlock,
    ensures
        after_events(module, func_idx, first, asked, events)->Ok_0.0.pending is Operator,
{
    let before = after_events(module, func_idx, first, asked, events.drop_last())->Ok_0.0;
    let event = events.last();
    assert(on(module, func_idx, before, event) is Ok);
}

} // verus!
