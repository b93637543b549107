//! What the translation driver does: a function from the state of the driver
//! and what the backend or the operator stream hands it to the next state and
//! what the backend is asked to do.

use crate::backend::{
    BrAction, CCLoc, ConventionView, Label, MaybeCCLoc, StackDepth, Target, TrapReason,
    ValueLocation,
};
use crate::blocks::BlockView;
use crate::error::Failure;
use crate::module::ModuleContext;
use crate::operator::{
    drop_count, BrTarget, BrTargetDrop, DropRange, MakeInternalLabel, NumCallers, Operator,
    OperatorView, SourceLoc, TargetsView,
};
use crate::primitive::{spec_primitive, Primitive};
use crate::reconcile::{agree, concrete_count, dropped, param_locs};
use crate::types::SignlessType;
use dynasmrt::AssemblyOffset;
use vstd::prelude::*;

verus! {

/// One line of the listing of a function.
pub enum ListingView<L> {
    /// The start of the function with this index.
    Function(u32),
    /// An operator and the source position it came from.
    Op(OperatorView<L>, SourceLoc),
}

/// The layout that the targets seen so far agree on, with the slots that the
/// branch to the target it was taken from drops.
pub struct Candidate {
    pub cc: ConventionView,
    pub to_drop: Option<DropRange>,
}

/// A branch that is being laid out.
pub struct BranchView<L> {
    /// The entries of the table, those that disagreed now naming their adaptors.
    pub targets: Seq<BrTargetDrop<L>>,
    pub default: BrTargetDrop<L>,
    pub candidate: Option<Candidate>,
    /// The largest number of branches that any target counts on.
    pub max_num_callers: NumCallers,
    /// How many values the branch holds under the selector.
    pub params: u32,
    /// The adaptors that were made for the branch, in their order.
    pub adaptor_keys: Seq<BrTarget<L>>,
}

/// What the driver waits for.
pub enum PendingView<L> {
    /// The layout in which the function returns its results.
    Prologue { results: u32 },
    /// The next operator.
    Operator,
    /// The machine label for a block that was declared.
    Declare { label: L, params: u32, has_backwards_callers: bool, num_callers: NumCallers, skipping: bool },
    /// The next operator of a block that cannot be reached.
    Skipping,
    /// The machine label for the adaptor with this index.
    Adaptors(BranchView<L>, nat),
    /// The layout that the backend gave the values of the branch.
    Convention(BranchView<L>),
}

/// The state of the driver.
#[verifier::reject_recursive_types(L)]
pub struct DriverView<L: MakeInternalLabel> {
    /// The declared blocks.
    pub blocks: Map<BrTarget<L>, BlockView>,
    /// The operators of adaptors that wait to be translated.
    pub adaptors: Seq<OperatorView<L>>,
    /// The source position that the waiting operators have.
    pub adaptors_offset: SourceLoc,
    /// The id of the next adaptor.
    pub internal_block_id: L::Id,
    /// Whether a block is open.
    pub in_block: bool,
    /// The listing so far.
    pub listing: Seq<(AssemblyOffset, ListingView<L>)>,
    pub pending: PendingView<L>,
}

/// What is handed to the driver.
pub enum EventView<L> {
    /// The next operator: the first of the waiting operators of adaptors, or
    /// else the next of the stream. With it come the machine offset at which
    /// its code will start, and the label of the operator that follows it in
    /// the stream if that operator starts a block.
    Operator { op: OperatorView<L>, offset: SourceLoc, next_start: Option<L>, machine_offset: AssemblyOffset },
    /// An operator of the stream, read while a block is skipped; `None` at the
    /// end of the stream.
    Skipped(Option<OperatorView<L>>),
    /// A fresh machine label.
    Label(Label),
    /// The layout that the backend gave: of the function's results, or of the
    /// values of a branch, the selector last.
    Convention(ConventionView),
    /// The place of the selector that the backend popped, and the layout of
    /// the values under it.
    Selector { selector: ValueLocation, convention: ConventionView },
}

/// What the backend is asked to do.
pub enum ActionView {
    /// Nothing: hand over the next operator.
    Next,
    /// Read the next operator of the stream and hand it over as skipped.
    Skip,
    /// Make a machine label and hand it over.
    CreateLabel,
    /// Start the function, then hand over the layout of its results.
    StartFunction { params: Seq<SignlessType>, results: Seq<SignlessType> },
    /// Emit a trap for this reason.
    Trap(TrapReason),
    /// Define the label here and take over the layout.
    Start { label: Label, convention: ConventionView },
    /// Move the values of the branch to these places, the selector last, and
    /// hand over the layout that results.
    SerializeBlockArgs { locs: Seq<MaybeCCLoc>, depth: Option<StackDepth> },
    /// Pop the selector and hand over its place and the layout of the rest.
    PopSelector,
    /// Emit the branch.
    EndBlock { targets: Seq<Target>, default: Target, depth: Option<StackDepth>, selector: ValueLocation },
    /// Emit a call of the function that is being translated.
    CallDirectSelf { params: Seq<SignlessType>, results: Seq<SignlessType> },
    /// Emit a call of another function that the module defines.
    CallDirect { function_index: u32, params: Seq<SignlessType>, results: Seq<SignlessType> },
    /// Emit a call of a function that the module imports.
    CallDirectImported { function_index: u32, params: Seq<SignlessType>, results: Seq<SignlessType> },
    /// Emit a call through the table.
    CallIndirect { type_index: u32, params: Seq<SignlessType>, results: Seq<SignlessType> },
    /// Emit the code of an operator that is neither control flow nor a call,
    /// with the primitive that stands for it.
    Emit(Primitive),
}

/// The outcome of one step of the driver.
pub type Outcome<L> = Result<(DriverView<L>, ActionView), Failure>;

/// The error for a block that is named before it was declared.
pub open spec fn undeclared() -> Failure {
    Failure::assembler("Label defined before being declared"@)
}

/// The error for a block that starts while another is open.
pub open spec fn not_ended() -> Failure {
    Failure::assembler("New block started without previous block ending"@)
}

/// The error for a layout that covers more values than the branch holds.
pub open spec fn too_many_values() -> Failure {
    Failure::assembler("Branch target expects more values than the branch holds"@)
}

/// The error for a layout with fewer places than the branch has values.
pub open spec fn too_few_places() -> Failure {
    Failure::assembler("Stack has too few elements for branch"@)
}

/// The error for a block that would expect more values than 32 bits count.
pub open spec fn too_many_params() -> Failure {
    Failure::assembler("Too many values for a block"@)
}

/// The blocks once the block that starts next, if any, is marked as that; an
/// error where that block was not declared.
pub open spec fn mark_next<L>(blocks: Map<BrTarget<L>, BlockView>, next_start: Option<L>) -> Result<
    Map<BrTarget<L>, BlockView>,
    Failure,
> {
    match next_start {
        None => Ok(blocks),
        Some(label) => if blocks.contains_key(BrTarget::Label(label)) {
            Ok(
                blocks.insert(
                    BrTarget::Label(label),
                    BlockView { is_next: true, ..blocks[BrTarget::Label(label)] },
                ),
            )
        } else {
            Err(undeclared())
        },
    }
}

/// What the start of the block `label` does. A block that no branch has
/// reached is skipped; any other takes over the layout that its branches
/// agreed on, and leaves the table unless branches may still come.
pub open spec fn start<L: MakeInternalLabel>(s: DriverView<L>, label: L) -> Outcome<L> {
    let key = BrTarget::Label(label);
    if s.in_block {
        Err(not_ended())
    } else if !s.blocks.contains_key(key) {
        Err(undeclared())
    } else {
        let block = BlockView { is_next: false, ..s.blocks[key] };
        if block.actual_num_callers == NumCallers::Zero {
            if block.calling_convention is Some {
                Err(
                    Failure::assembler(
                        "Block marked unreachable but has been jumped to before"@,
                    ),
                )
            } else {
                Ok(
                    (
                        DriverView {
                            blocks: s.blocks.insert(key, block),
                            in_block: true,
                            pending: PendingView::Skipping,
                            ..s
                        },
                        ActionView::Skip,
                    ),
                )
            }
        } else {
            match (block.calling_convention, block.label) {
                (Some(convention), BrTarget::Label(machine_label)) => Ok(
                    (
                        DriverView {
                            blocks: if block.has_backwards_callers {
                                s.blocks.insert(key, BlockView { already_emitted: true, ..block })
                            } else {
                                s.blocks.remove(key)
                            },
                            in_block: true,
                            ..s
                        },
                        ActionView::Start { label: machine_label, convention },
                    ),
                ),
                (None, _) => Err(Failure::assembler("No calling convention to apply"@)),
                (Some(_), BrTarget::Return) => Err(Failure::assembler("Block without a label"@)),
            }
        }
    }
}

/// What an operator does that is read while a block is skipped: the block
/// ends with the operator that closes it, or with the stream; a declaration
/// inside it still counts; the start of another block is an error.
pub open spec fn skipped<L: MakeInternalLabel>(s: DriverView<L>, op: Option<OperatorView<L>>) -> Outcome<
    L,
> {
    match op {
        None => Ok((DriverView { pending: PendingView::Operator, ..s }, ActionView::Next)),
        Some(OperatorView::End(_)) | Some(OperatorView::Plain(Operator::Unreachable)) => Ok(
            (
                DriverView { pending: PendingView::Operator, in_block: false, ..s },
                ActionView::Next,
            ),
        ),
        Some(OperatorView::Plain(Operator::Start(_))) => Err(not_ended()),
        Some(OperatorView::Declare { label, params, has_backwards_callers, num_callers }) => Ok(
            (
                DriverView {
                    pending: PendingView::Declare {
                        label,
                        params: params.len() as u32,
                        has_backwards_callers,
                        num_callers,
                        skipping: true,
                    },
                    ..s
                },
                ActionView::CreateLabel,
            ),
        ),
        Some(_) => Ok((s, ActionView::Skip)),
    }
}

/// The state of laying out a branch, target by target.
#[verifier::reject_recursive_types(L)]
pub struct Reconciled<L: MakeInternalLabel> {
    pub blocks: Map<BrTarget<L>, BlockView>,
    pub candidate: Option<Candidate>,
    pub max_num_callers: NumCallers,
    pub targets: Seq<BrTargetDrop<L>>,
    pub adaptors: Seq<OperatorView<L>>,
    pub adaptor_keys: Seq<BrTarget<L>>,
    pub internal_block_id: L::Id,
}

/// Whether a target that fixes the stack depth `block`, and whose start has
/// been translated if `already_emitted`, cannot be a target of a branch whose
/// other targets ask for `candidate`: a depth that is already in the code
/// cannot give way.
pub open spec fn depth_conflict(
    candidate: Option<StackDepth>,
    block: Option<StackDepth>,
    already_emitted: bool,
) -> bool {
    block is Some && candidate != block && already_emitted
}

/// The stack depth that a target keeps once it is a target of a branch whose
/// other targets ask for `candidate`: its own where the two ask for the same,
/// none where they differ.
pub open spec fn settled_depth(candidate: Option<StackDepth>, block: Option<StackDepth>) -> Option<
    StackDepth,
> {
    if candidate == block {
        block
    } else {
        None
    }
}

/// The depth `a`, or else the depth `b`.
pub open spec fn depth_or(a: Option<StackDepth>, b: Option<StackDepth>) -> Option<StackDepth> {
    if a is Some {
        a
    } else {
        b
    }
}

/// The operators of the adaptor `label`, which does nothing but branch on
/// to `target`.
pub open spec fn adaptor_ops<L>(label: L, target: BrTarget<L>) -> Seq<OperatorView<L>> {
    seq![OperatorView::start(label), OperatorView::zero(), OperatorView::end_to(target)]
}

/// A block as it is made for an adaptor: one branch reaches it, from before
/// it. Its machine label comes later.
pub open spec fn adaptor_block(params: u32) -> BlockView {
    BlockView {
        label: BrTarget::Return,
        calling_convention: None,
        params,
        is_next: false,
        already_emitted: false,
        num_callers: NumCallers::One,
        actual_num_callers: NumCallers::Zero,
        has_backwards_callers: false,
    }
}

/// The state after the target `t` was taken in, as it now stands in the branch.
pub open spec fn taken<L: MakeInternalLabel>(r: Reconciled<L>, t: BrTargetDrop<L>) -> Result<
    Reconciled<L>,
    Failure,
> {
    if r.blocks.contains_key(t.target) {
        Ok(
            Reconciled {
                max_num_callers: r.max_num_callers.spec_max(r.blocks[t.target].tmp_num_callers()),
                targets: r.targets.push(t),
                ..r
            },
        )
    } else {
        Err(undeclared())
    }
}

/// Takes one entry of the table of a branch that holds `params` values into
/// the layout of the branch. A target without a layout asks for nothing. The
/// first target with a layout makes it the candidate. A later one agrees with
/// the candidate where no slot has a different place in the two; the
/// candidate is then the one of the two that places more slots. A target that
/// disagrees gets an adaptor, a block of its own that the branch names in its
/// place and that branches on to the target.
pub open spec fn reconcile_one<L: MakeInternalLabel>(
    r: Reconciled<L>,
    params: u32,
    t: BrTargetDrop<L>,
) -> Result<Reconciled<L>, Failure> {
    if !r.blocks.contains_key(t.target) {
        Err(undeclared())
    } else {
        let block = r.blocks[t.target];
        match (block.calling_convention, r.candidate) {
            (None, _) => taken(r, t),
            (Some(block_cc), None) => taken(
                Reconciled { candidate: Some(Candidate { cc: block_cc, to_drop: t.to_drop }), ..r },
                t,
            ),
            (Some(block_cc), Some(candidate)) => {
                let depth = settled_depth(candidate.cc.depth, block_cc.depth);
                let blocks = r.blocks.insert(
                    t.target,
                    BlockView {
                        calling_convention: Some(ConventionView { depth, ..block_cc }),
                        ..block
                    },
                );
                let row = param_locs(params, block_cc.locs, t.to_drop);
                let candidate_row = param_locs(params, candidate.cc.locs, candidate.to_drop);
                if depth_conflict(candidate.cc.depth, block_cc.depth, block.already_emitted) {
                    Err(
                        Failure::assembler(
                            "Tried to do a conditional jump with targets that require different values for `rsp`"@,
                        ),
                    )
                } else if row is None || candidate_row is None {
                    Err(too_many_values())
                } else if agree(row.unwrap(), candidate_row.unwrap()) {
                    let wider = concrete_count(row.unwrap()) > concrete_count(
                        candidate_row.unwrap(),
                    );
                    taken(
                        Reconciled {
                            blocks,
                            candidate: Some(
                                Candidate {
                                    cc: ConventionView {
                                        locs: if wider {
                                            block_cc.locs
                                        } else {
                                            candidate.cc.locs
                                        },
                                        max_depth: if wider {
                                            block_cc.max_depth
                                        } else {
                                            candidate.cc.max_depth
                                        },
                                        depth: depth_or(candidate.cc.depth, depth),
                                    },
                                    to_drop: if wider {
                                        t.to_drop
                                    } else {
                                        candidate.to_drop
                                    },
                                },
                            ),
                            ..r
                        },
                        t,
                    )
                } else {
                    match L::spec_new_internal(r.internal_block_id) {
                        None => Err(Failure::assembler("Too many adaptor blocks"@)),
                        Some((label, next_id)) => if block.params + drop_count(t.to_drop)
                            <= u32::MAX {
                            taken(
                                Reconciled {
                                    blocks: blocks.insert(
                                        BrTarget::Label(label),
                                        adaptor_block((block.params + drop_count(t.to_drop)) as u32),
                                    ),
                                    adaptors: r.adaptors + adaptor_ops(label, t.target),
                                    adaptor_keys: r.adaptor_keys.push(BrTarget::Label(label)),
                                    internal_block_id: next_id,
                                    ..r
                                },
                                BrTargetDrop { target: BrTarget::Label(label), to_drop: t.to_drop },
                            )
                        } else {
                            Err(too_many_params())
                        },
                    }
                }
            },
        }
    }
}

/// Takes the entries `targets` of the table of a branch into its layout, one
/// after the other.
pub open spec fn reconcile<L: MakeInternalLabel>(
    r: Reconciled<L>,
    params: u32,
    targets: Seq<BrTargetDrop<L>>,
) -> Result<Reconciled<L>, Failure>
    decreases targets.len(),
{
    if targets.len() == 0 {
        Ok(r)
    } else {
        match reconcile(r, params, targets.drop_last()) {
            Err(kind) => Err(kind),
            Ok(r) => reconcile_one(r, params, targets.last()),
        }
    }
}

/// What the backend is asked to do with one slot of a branch: a slot with a
/// place that a value can be moved to goes there, any other is treated as
/// `other` says.
pub open spec fn slot_request(slot: Option<ValueLocation>, other: MaybeCCLoc) -> MaybeCCLoc {
    match slot {
        Some(loc) => match CCLoc::spec_try_from(loc) {
            Some(place) => MaybeCCLoc::Concrete(place),
            None => other,
        },
        None => other,
    }
}

/// What the backend is asked to do with the values of a branch, once its
/// targets have been taken in.
pub open spec fn request<L>(branch: BranchView<L>) -> Result<ActionView, Failure> {
    match branch.candidate {
        Some(candidate) => match param_locs(branch.params, candidate.cc.locs, candidate.to_drop) {
            Some(row) => {
                let other = if branch.max_num_callers == NumCallers::Zero {
                    MaybeCCLoc::Serialize
                } else {
                    MaybeCCLoc::NoSerialize
                };
                Ok(
                    ActionView::SerializeBlockArgs {
                        locs: Seq::new(row.len(), |i: int| slot_request(row[i], other)),
                        depth: candidate.cc.depth,
                    },
                )
            },
            None => Err(too_many_values()),
        },
        None => if branch.max_num_callers == NumCallers::Many {
            Ok(
                ActionView::SerializeBlockArgs {
                    locs: Seq::new(branch.params as nat, |i: int| MaybeCCLoc::Serialize).push(
                        MaybeCCLoc::NoSerialize,
                    ),
                    depth: None,
                },
            )
        } else {
            Ok(ActionView::PopSelector)
        },
    }
}

/// The state once the targets of a branch have been taken in: the driver
/// waits for the labels of the adaptors if there are any, and asks the
/// backend to place the values if not.
pub open spec fn after_reconcile<L: MakeInternalLabel>(s: DriverView<L>, branch: BranchView<L>) -> Outcome<
    L,
> {
    if branch.adaptor_keys.len() > 0 {
        Ok((DriverView { pending: PendingView::Adaptors(branch, 0), ..s }, ActionView::CreateLabel))
    } else {
        match request(branch) {
            Ok(action) => Ok((DriverView { pending: PendingView::Convention(branch), ..s }, action)),
            Err(kind) => Err(kind),
        }
    }
}

/// What a branch with the targets `targets` does when it is handed over at
/// source position `offset`.
pub open spec fn end<L: MakeInternalLabel>(s: DriverView<L>, targets: TargetsView<L>, offset: SourceLoc) -> Outcome<
    L,
> {
    let default = targets.default;
    if !s.blocks.contains_key(default.target) {
        Err(undeclared())
    } else {
        let block = s.blocks[default.target];
        let candidate = match block.calling_convention {
            Some(cc) => Some(Candidate { cc, to_drop: default.to_drop }),
            None => None,
        };
        if block.params + drop_count(default.to_drop) > u32::MAX {
            Err(too_many_params())
        } else {
            let params = (block.params + drop_count(default.to_drop)) as u32;
            match reconcile(
                Reconciled {
                    blocks: s.blocks,
                    candidate,
                    max_num_callers: block.tmp_num_callers(),
                    targets: seq![],
                    adaptors: seq![],
                    adaptor_keys: seq![],
                    internal_block_id: s.internal_block_id,
                },
                params,
                targets.targets,
            ) {
                Err(kind) => Err(kind),
                Ok(r) => after_reconcile(
                    DriverView {
                        blocks: r.blocks,
                        in_block: false,
                        internal_block_id: r.internal_block_id,
                        adaptors: if r.adaptors.len() > 0 {
                            r.adaptors
                        } else {
                            s.adaptors
                        },
                        adaptors_offset: if r.adaptors.len() > 0 {
                            offset
                        } else {
                            s.adaptors_offset
                        },
                        ..s
                    },
                    BranchView {
                        targets: r.targets,
                        default,
                        candidate: r.candidate,
                        max_num_callers: r.max_num_callers,
                        params,
                        adaptor_keys: r.adaptor_keys,
                    },
                ),
            }
        }
    }
}

/// What a call of the function `function_index` does, while the function
/// with the defined index `func_idx` is translated.
pub open spec fn call<L: MakeInternalLabel>(
    module: ModuleContext,
    func_idx: u32,
    s: DriverView<L>,
    function_index: u32,
) -> Outcome<L> {
    match module.spec_func_type(function_index) {
        None => Err(Failure::input("Unknown function index"@)),
        Some(ty) => Ok(
            (
                s,
                match module.spec_defined_func_index(function_index) {
                    Some(defined) => if defined == func_idx {
                        ActionView::CallDirectSelf { params: ty.params@, results: ty.returns@ }
                    } else {
                        ActionView::CallDirect {
                            function_index,
                            params: ty.params@,
                            results: ty.returns@,
                        }
                    },
                    None => ActionView::CallDirectImported {
                        function_index,
                        params: ty.params@,
                        results: ty.returns@,
                    },
                },
            ),
        ),
    }
}

/// What a call through the table does: only the table 0 can be called
/// through, and a call through another is an error of the input.
pub open spec fn call_indirect<L: MakeInternalLabel>(
    module: ModuleContext,
    s: DriverView<L>,
    type_index: u32,
    table_index: u32,
) -> Outcome<L> {
    if table_index != 0 {
        Err(Failure::input("table_index not equal to 0"@))
    } else {
        match module.spec_signature(type_index) {
            None => Err(Failure::input("Unknown type index"@)),
            Some(ty) => Ok(
                (s, ActionView::CallIndirect { type_index, params: ty.params@, results: ty.returns@ }),
            ),
        }
    }
}

/// What the next operator does.
pub open spec fn begin<L: MakeInternalLabel>(
    module: ModuleContext,
    func_idx: u32,
    s: DriverView<L>,
    op: OperatorView<L>,
    offset: SourceLoc,
    next_start: Option<L>,
    machine_offset: AssemblyOffset,
) -> Outcome<L> {
    match mark_next(s.blocks, next_start) {
        Err(kind) => Err(kind),
        Ok(blocks) => {
            let s = DriverView {
                blocks,
                listing: s.listing.push((machine_offset, ListingView::Op(op, offset))),
                ..s
            };
            match op {
                OperatorView::Declare { label, params, has_backwards_callers, num_callers } => Ok(
                    (
                        DriverView {
                            pending: PendingView::Declare {
                                label,
                                params: params.len() as u32,
                                has_backwards_callers,
                                num_callers,
                                skipping: false,
                            },
                            ..s
                        },
                        ActionView::CreateLabel,
                    ),
                ),
                OperatorView::End(targets) => end(s, targets, offset),
                OperatorView::Plain(Operator::Unreachable) => Ok(
                    (
                        DriverView { in_block: false, ..s },
                        ActionView::Trap(TrapReason::UnreachableCodeReached),
                    ),
                ),
                OperatorView::Plain(Operator::Start(label)) => start(s, label),
                OperatorView::Plain(Operator::Call { function_index }) => call(
                    module,
                    func_idx,
                    s,
                    function_index,
                ),
                OperatorView::Plain(Operator::CallIndirect { type_index, table_index }) => call_indirect(
                    module,
                    s,
                    type_index,
                    table_index,
                ),
                OperatorView::Plain(plain) => match spec_primitive(plain) {
                    Some(primitive) => Ok((s, ActionView::Emit(primitive))),
                    None => Err(Failure::assembler("Operator without a primitive"@)),
                },
            }
        },
    }
}

/// What a fresh machine label does: it goes to the block that was declared,
/// or to the next adaptor that waits for one.
pub open spec fn label<L: MakeInternalLabel>(s: DriverView<L>, machine_label: Label) -> Outcome<L> {
    match s.pending {
        PendingView::Declare { label, params, has_backwards_callers, num_callers, skipping } => Ok(
            (
                DriverView {
                    blocks: s.blocks.insert(
                        BrTarget::Label(label),
                        BlockView::declared(machine_label, params, has_backwards_callers, num_callers),
                    ),
                    pending: if skipping {
                        PendingView::Skipping
                    } else {
                        PendingView::Operator
                    },
                    ..s
                },
                if skipping {
                    ActionView::Skip
                } else {
                    ActionView::Next
                },
            ),
        ),
        PendingView::Adaptors(branch, i) => if i >= branch.adaptor_keys.len() {
            Err(Failure::assembler("No adaptor waits for a label"@))
        } else if !s.blocks.contains_key(branch.adaptor_keys[i as int]) {
            Err(undeclared())
        } else {
            let key = branch.adaptor_keys[i as int];
            let s = DriverView {
                blocks: s.blocks.insert(
                    key,
                    BlockView { label: BrTarget::Label(machine_label), ..s.blocks[key] },
                ),
                ..s
            };
            if i + 1 < branch.adaptor_keys.len() {
                Ok(
                    (
                        DriverView { pending: PendingView::Adaptors(branch, i + 1), ..s },
                        ActionView::CreateLabel,
                    ),
                )
            } else {
                match request(branch) {
                    Ok(action) => Ok(
                        (DriverView { pending: PendingView::Convention(branch), ..s }, action),
                    ),
                    Err(kind) => Err(kind),
                }
            }
        },
        _ => Err(Failure::assembler("No block waits for a label"@)),
    }
}

/// Gives one target of a branch the layout `cc` that the backend produced. A
/// target that has a layout keeps it, and must not fix another stack depth; a
/// target without one takes `cc` less the slots that the branch drops on the
/// way, and fixes no depth if many branches may reach it.
pub open spec fn install_one<L>(
    blocks: Map<BrTarget<L>, BlockView>,
    cc: ConventionView,
    t: BrTargetDrop<L>,
) -> Result<Map<BrTarget<L>, BlockView>, Failure> {
    if !blocks.contains_key(t.target) {
        Err(undeclared())
    } else {
        let block = blocks[t.target];
        match block.calling_convention {
            Some(block_cc) => if block_cc.depth is None || block_cc.depth == cc.depth {
                Ok(blocks)
            } else {
                Err(
                    Failure::assembler(
                        "Programmer error: Tried to conditionally jump to targets that require different values for `rsp`"@,
                    ),
                )
            },
            None => Ok(
                blocks.insert(
                    t.target,
                    BlockView {
                        calling_convention: Some(
                            ConventionView {
                                locs: dropped(cc.locs, t.to_drop),
                                max_depth: cc.max_depth,
                                depth: if block.tmp_num_callers() == NumCallers::Many {
                                    None
                                } else {
                                    cc.depth
                                },
                            },
                        ),
                        ..block
                    },
                ),
            ),
        }
    }
}

/// Gives the targets `all` of a branch the layout `cc`, one after the other.
pub open spec fn install<L>(
    blocks: Map<BrTarget<L>, BlockView>,
    cc: ConventionView,
    all: Seq<BrTargetDrop<L>>,
) -> Result<Map<BrTarget<L>, BlockView>, Failure>
    decreases all.len(),
{
    if all.len() == 0 {
        Ok(blocks)
    } else {
        match install(blocks, cc, all.drop_last()) {
            Err(kind) => Err(kind),
            Ok(blocks) => install_one(blocks, cc, all.last()),
        }
    }
}

/// Whether one of `all` names the target `target`.
pub open spec fn names<L>(all: Seq<BrTargetDrop<L>>, target: BrTarget<L>) -> bool {
    exists|i: int| 0 <= i < all.len() && (#[trigger] all[i]).target == target
}

/// Counts one more branch for each block that one of `all` names: once for a
/// block, however often the branch names it.
pub open spec fn count_callers<L>(blocks: Map<BrTarget<L>, BlockView>, all: Seq<BrTargetDrop<L>>) -> Map<
    BrTarget<L>,
    BlockView,
> {
    Map::new(
        |k: BrTarget<L>| blocks.contains_key(k),
        |k: BrTarget<L>|
            if names(all, k) {
                BlockView {
                    actual_num_callers: blocks[k].actual_num_callers.spec_incremented(),
                    ..blocks[k]
                }
            } else {
                blocks[k]
            },
    )
}

/// The edge to the target `t` as the backend emits it: the machine label of
/// its block, fallen through to if the block starts next.
pub open spec fn edge<L>(blocks: Map<BrTarget<L>, BlockView>, t: BrTargetDrop<L>) -> Target {
    Target {
        target: blocks[t.target].label,
        action: if blocks[t.target].is_next {
            BrAction::Continue
        } else {
            BrAction::Jump
        },
    }
}

/// Ends a branch whose values the backend has placed as `cc` says, with the
/// selector at `selector`.
pub open spec fn finish<L: MakeInternalLabel>(
    s: DriverView<L>,
    branch: BranchView<L>,
    cc: ConventionView,
    selector: ValueLocation,
) -> Outcome<L> {
    let all = branch.targets.push(branch.default);
    match install(s.blocks, cc, all) {
        Err(kind) => Err(kind),
        Ok(blocks) => {
            let blocks = count_callers(blocks, all);
            Ok(
                (
                    DriverView { blocks, pending: PendingView::Operator, ..s },
                    ActionView::EndBlock {
                        targets: Seq::new(branch.targets.len(), |i: int| edge(blocks, branch.targets[i])),
                        default: edge(blocks, branch.default),
                        depth: cc.depth,
                        selector,
                    },
                ),
            )
        },
    }
}

/// What a layout from the backend does: before the first operator it is the
/// layout of the function's results; later it holds the values of a branch
/// and, last, the selector. A layout with fewer places than the branch has
/// values is an error.
pub open spec fn convention<L: MakeInternalLabel>(s: DriverView<L>, cc: ConventionView) -> Outcome<L> {
    match s.pending {
        PendingView::Prologue { results } => Ok(
            (
                DriverView {
                    blocks: s.blocks.insert(
                        BrTarget::Return,
                        BlockView {
                            label: BrTarget::Return,
                            calling_convention: Some(cc),
                            params: results,
                            is_next: false,
                            already_emitted: true,
                            num_callers: NumCallers::Many,
                            actual_num_callers: NumCallers::Zero,
                            has_backwards_callers: false,
                        },
                    ),
                    pending: PendingView::Operator,
                    ..s
                },
                ActionView::Next,
            ),
        ),
        PendingView::Convention(branch) => if branch.candidate is None && branch.max_num_callers
            != NumCallers::Many {
            Err(Failure::assembler("The selector was to be popped"@))
        } else if cc.locs.len() < branch.params + 1 {
            Err(too_few_places())
        } else {
            finish(
                s,
                branch,
                ConventionView {
                    locs: cc.locs.drop_last(),
                    max_depth: cc.max_depth,
                    depth: if branch.candidate is None {
                        Some(cc.max_depth)
                    } else {
                        cc.depth
                    },
                },
                cc.locs.last(),
            )
        },
        _ => Err(Failure::assembler("No branch waits for a layout"@)),
    }
}

/// What the place of a popped selector does: the branch ends with the layout
/// that the values under the selector have. A layout with fewer places than
/// the branch has values is an error.
pub open spec fn selector<L: MakeInternalLabel>(
    s: DriverView<L>,
    place: ValueLocation,
    cc: ConventionView,
) -> Outcome<L> {
    match s.pending {
        PendingView::Convention(branch) => if !(branch.candidate is None
            && branch.max_num_callers != NumCallers::Many) {
            Err(Failure::assembler("The values of the branch were to be placed"@))
        } else if cc.locs.len() < branch.params {
            Err(too_few_places())
        } else {
            finish(s, branch, cc, place)
        },
        _ => Err(Failure::assembler("No branch waits for a selector"@)),
    }
}

/// One step of the driver. An event that the driver does not wait for is an error.
pub open spec fn on<L: MakeInternalLabel>(
    module: ModuleContext,
    func_idx: u32,
    s: DriverView<L>,
    event: EventView<L>,
) -> Outcome<L> {
    match event {
        EventView::Operator { op, offset, next_start, machine_offset } => if s.pending is Operator {
            begin(module, func_idx, s, op, offset, next_start, machine_offset)
        } else {
            Err(Failure::assembler("No operator is waited for"@))
        },
        EventView::Skipped(op) => if s.pending is Skipping {
            skipped(s, op)
        } else {
            Err(Failure::assembler("No block is being skipped"@))
        },
        EventView::Label(machine_label) => label(s, machine_label),
        EventView::Convention(cc) => convention(s, cc),
        EventView::Selector { selector: place, convention: cc } => selector(s, place, cc),
    }
}

} // verus!
