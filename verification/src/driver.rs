//! The translation driver: it takes the operators of the flat form in their
//! order, keeps the table of declared blocks, and says for each operator what
//! the backend has to do.

use crate::backend::{
    BrAction, CCLoc, CallingConvention, ConventionView, Label, Locs, MaybeCCLoc, StackDepth,
    Target, TrapReason, ValueLocation,
};
use crate::blocks::{Block, BlockTable, BlockView};
use crate::conv::copy_types;
use crate::error::{error, Error, Failure};
use crate::module::ModuleContext;
use crate::operator::{
    drop_count, ops_view, BrTarget, BrTargetDrop, DropRange, MakeInternalLabel, NumCallers,
    Operator, OperatorView, SourceLoc, Targets, WithLoc,
};
use crate::primitive::{primitive, Primitive};
use crate::reconcile::{cc_to_param_locs, compare_rows, drop_elements};
use crate::translate::{
    too_many_params, adaptor_block, adaptor_ops, after_reconcile, begin, call, call_indirect, convention,
    count_callers, edge, end, finish, install, install_one, label, mark_next, names, on, reconcile,
    reconcile_one, request, selector, skipped, slot_request, start, taken, ActionView, BranchView,
    Candidate, DriverView, EventView, ListingView, Outcome, PendingView, Reconciled,
};
use crate::types::{SignlessType, Value};
use dynasmrt::AssemblyOffset;
use vstd::prelude::*;

verus! {

/// One line of the listing of a function.
#[derive(Debug)]
pub enum Listing<L> {
    /// The start of the function with this index.
    Function(u32),
    /// An operator and the source position it came from.
    Op(WithLoc<Operator<L>>),
}

impl<L> View for Listing<L> {
    type V = ListingView<L>;

    open spec fn view(&self) -> ListingView<L> {
        match *self {
            Listing::Function(index) => ListingView::Function(index),
            Listing::Op(op) => ListingView::Op(op.op@, op.offset),
        }
    }
}

/// The lines of a listing, each with the machine offset it stands at.
pub open spec fn listing_view<L>(listing: Seq<(AssemblyOffset, Listing<L>)>) -> Seq<
    (AssemblyOffset, ListingView<L>),
> {
    listing.map_values(|line: (AssemblyOffset, Listing<L>)| (line.0, line.1@))
}

/// What is handed to the driver.
#[derive(Debug)]
pub enum Event<L> {
    /// The next operator: the first of the waiting operators of adaptors, or
    /// else the next of the stream. With it come the machine offset at which
    /// its code will start, and the label of the operator that follows it in
    /// the stream if that operator starts a block.
    Operator { op: Operator<L>, offset: SourceLoc, next_start: Option<L>, machine_offset: AssemblyOffset },
    /// An operator of the stream, read while a block is skipped; `None` at the
    /// end of the stream.
    Skipped(Option<Operator<L>>),
    /// A fresh machine label.
    Label(Label),
    /// The layout that the backend gave: of the function's results, or of the
    /// values of a branch, the selector last.
    Convention(CallingConvention),
    /// The place of the selector that the backend popped, and the layout of
    /// the values under it.
    Selector { selector: ValueLocation, convention: CallingConvention },
}

impl<L> View for Event<L> {
    type V = EventView<L>;

    open spec fn view(&self) -> EventView<L> {
        match *self {
            Event::Operator { op, offset, next_start, machine_offset } => EventView::Operator {
                op: op@,
                offset,
                next_start,
                machine_offset,
            },
            Event::Skipped(op) => EventView::Skipped(
                match op {
                    Some(op) => Some(op@),
                    None => None,
                },
            ),
            Event::Label(machine_label) => EventView::Label(machine_label),
            Event::Convention(cc) => EventView::Convention(cc@),
            Event::Selector { selector, convention } => EventView::Selector {
                selector,
                convention: convention@,
            },
        }
    }
}

/// What the backend is asked to do.
#[derive(Debug)]
pub enum Action {
    /// Nothing: hand over the next operator.
    Next,
    /// Read the next operator of the stream and hand it over as skipped.
    Skip,
    /// Make a machine label and hand it over.
    CreateLabel,
    /// Start the function, then hand over the layout of its results.
    StartFunction { params: Vec<SignlessType>, results: Vec<SignlessType> },
    /// Emit a trap for this reason.
    Trap(TrapReason),
    /// Define the label here and take over the layout.
    Start { label: Label, convention: CallingConvention },
    /// Move the values of the branch to these places, the selector last, and
    /// hand over the layout that results.
    SerializeBlockArgs { locs: Vec<MaybeCCLoc>, depth: Option<StackDepth> },
    /// Pop the selector and hand over its place and the layout of the rest.
    PopSelector,
    /// Emit the branch.
    EndBlock { targets: Vec<Target>, default: Target, depth: Option<StackDepth>, selector: ValueLocation },
    /// Emit a call of the function that is being translated.
    CallDirectSelf { params: Vec<SignlessType>, results: Vec<SignlessType> },
    /// Emit a call of another function that the module defines.
    CallDirect { function_index: u32, params: Vec<SignlessType>, results: Vec<SignlessType> },
    /// Emit a call of a function that the module imports.
    CallDirectImported { function_index: u32, params: Vec<SignlessType>, results: Vec<SignlessType> },
    /// Emit a call through the table.
    CallIndirect { type_index: u32, params: Vec<SignlessType>, results: Vec<SignlessType> },
    /// Emit the code of an operator that is neither control flow nor a call,
    /// with the primitive that stands for it.
    Emit(Primitive),
}

impl View for Action {
    type V = ActionView;

    open spec fn view(&self) -> ActionView {
        match *self {
            Action::Next => ActionView::Next,
            Action::Skip => ActionView::Skip,
            Action::CreateLabel => ActionView::CreateLabel,
            Action::StartFunction { params, results } => ActionView::StartFunction {
                params: params@,
                results: results@,
            },
            Action::Trap(reason) => ActionView::Trap(reason),
            Action::Start { label, convention } => ActionView::Start {
                label,
                convention: convention@,
            },
            Action::SerializeBlockArgs { locs, depth } => ActionView::SerializeBlockArgs {
                locs: locs@,
                depth,
            },
            Action::PopSelector => ActionView::PopSelector,
            Action::EndBlock { targets, default, depth, selector } => ActionView::EndBlock {
                targets: targets@,
                default,
                depth,
                selector,
            },
            Action::CallDirectSelf { params, results } => ActionView::CallDirectSelf {
                params: params@,
                results: results@,
            },
            Action::CallDirect { function_index, params, results } => ActionView::CallDirect {
                function_index,
                params: params@,
                results: results@,
            },
            Action::CallDirectImported {
                function_index,
                params,
                results,
            } => ActionView::CallDirectImported { function_index, params: params@, results: results@ },
            Action::CallIndirect { type_index, params, results } => ActionView::CallIndirect {
                type_index,
                params: params@,
                results: results@,
            },
            Action::Emit(op) => ActionView::Emit(op),
        }
    }
}

/// The layout that the targets seen so far agree on.
pub open spec fn candidate_view(candidate: Option<(CallingConvention, Option<DropRange>)>) -> Option<
    Candidate,
> {
    match candidate {
        Some((cc, to_drop)) => Some(Candidate { cc: cc@, to_drop }),
        None => None,
    }
}

/// A branch that is being laid out.
struct Branch<L> {
    targets: Vec<BrTargetDrop<L>>,
    default: BrTargetDrop<L>,
    candidate: Option<(CallingConvention, Option<DropRange>)>,
    max_num_callers: NumCallers,
    params: u32,
    adaptor_keys: Vec<BrTarget<L>>,
}

impl<L> View for Branch<L> {
    type V = BranchView<L>;

    closed spec fn view(&self) -> BranchView<L> {
        BranchView {
            targets: self.targets@,
            default: self.default,
            candidate: candidate_view(self.candidate),
            max_num_callers: self.max_num_callers,
            params: self.params,
            adaptor_keys: self.adaptor_keys@,
        }
    }
}

/// What the driver waits for.
enum Pending<L> {
    Prologue { results: u32 },
    Operator,
    Declare { label: L, params: u32, has_backwards_callers: bool, num_callers: NumCallers, skipping: bool },
    Skipping,
    Adaptors(Branch<L>, usize),
    Convention(Branch<L>),
}

impl<L> View for Pending<L> {
    type V = PendingView<L>;

    closed spec fn view(&self) -> PendingView<L> {
        match *self {
            Pending::Prologue { results } => PendingView::Prologue { results },
            Pending::Operator => PendingView::Operator,
            Pending::Declare {
                label,
                params,
                has_backwards_callers,
                num_callers,
                skipping,
            } => PendingView::Declare { label, params, has_backwards_callers, num_callers, skipping },
            Pending::Skipping => PendingView::Skipping,
            Pending::Adaptors(branch, i) => PendingView::Adaptors(branch@, i as nat),
            Pending::Convention(branch) => PendingView::Convention(branch@),
        }
    }
}

/// The driver of the translation of one function.
pub struct Driver<'a, L: MakeInternalLabel> {
    module: &'a ModuleContext,
    func_idx: u32,
    blocks: BlockTable<L>,
    adaptors: Vec<Operator<L>>,
    adaptors_offset: SourceLoc,
    internal_block_id: L::Id,
    in_block: bool,
    op_offset_map: Vec<(AssemblyOffset, Listing<L>)>,
    pending: Pending<L>,
}

impl<'a, L: MakeInternalLabel> View for Driver<'a, L> {
    type V = DriverView<L>;

    closed spec fn view(&self) -> DriverView<L> {
        DriverView {
            blocks: self.blocks@,
            adaptors: ops_view(self.adaptors@),
            adaptors_offset: self.adaptors_offset,
            internal_block_id: self.internal_block_id,
            in_block: self.in_block,
            listing: listing_view(self.op_offset_map@),
            pending: self.pending@,
        }
    }
}

/// The listing after an event, whether the step fails or not: an operator that
/// is waited for, and that is not followed by the start of a block that was
/// never declared, adds its line; nothing else changes the listing.
pub open spec fn listing_after<L: MakeInternalLabel>(s: DriverView<L>, event: EventView<L>) -> Seq<
    (AssemblyOffset, ListingView<L>),
> {
    match event {
        EventView::Operator { op, offset, next_start, machine_offset } => if s.pending is Operator
            && mark_next(s.blocks, next_start) is Ok {
            s.listing.push((machine_offset, ListingView::Op(op, offset)))
        } else {
            s.listing
        },
        _ => s.listing,
    }
}

/// Whether the outcome `r` of a step, with the state `state` after it, is
/// what the model `expected` says: the same action and the same state, or the
/// same error.
pub open spec fn outcome_as<L: MakeInternalLabel>(
    r: Result<Action, Error>,
    state: DriverView<L>,
    expected: Outcome<L>,
) -> bool {
    match expected {
        Ok((s, action)) => r matches Ok(a) && a@ == action && state == s,
        Err(failure) => r matches Err(e) && e.spec_failure() == failure,
    }
}

impl<'a, L: MakeInternalLabel> Driver<'a, L> {
    /// The module that the function belongs to.
    pub closed spec fn module(&self) -> ModuleContext {
        *self.module
    }

    /// The defined index of the function.
    pub closed spec fn func_idx(&self) -> u32 {
        self.func_idx
    }

    /// No target is in the table of blocks twice.
    pub closed spec fn wf(&self) -> bool {
        self.blocks.wf()
    }

    /// Whether `other` translates the same function.
    pub open spec fn same_function(&self, other: &Self) -> bool {
        self.module() == other.module() && self.func_idx() == other.func_idx()
    }

    /// Starts the translation of the function with the defined index
    /// `func_idx`. The listing `op_offset_map` gets a line for the start of
    /// the function, at `machine_offset`, and goes to the driver until the
    /// translation is over. The backend is asked to start the function; the
    /// driver then waits for the layout of the results.
    ///
    /// Fails with an `Input` error where the module lacks the function or its
    /// type, and where the function has more than one result. The listing
    /// stays with the caller then.
    pub fn new(
        module: &'a ModuleContext,
        func_idx: u32,
        op_offset_map: &mut Vec<(AssemblyOffset, Listing<L>)>,
        machine_offset: AssemblyOffset,
    ) -> (r: Result<(Self, Action), Error>)
        ensures
            match module.spec_defined_func_type(func_idx) {
                None => r matches Err(e) && e.spec_failure() == Failure::input("Unknown function"@)
                    && final(op_offset_map)@ == old(op_offset_map)@,
                Some(ty) => if ty.returns@.len() > 1 {
                    r matches Err(e) && e.spec_failure() == Failure::input(
                        "invalid result arity"@,
                    ) && listing_view(
                        final(op_offset_map)@,
                    ) == listing_view(old(op_offset_map)@).push(
                        (machine_offset, ListingView::Function(func_idx)),
                    )
                } else {
                    r matches Ok((driver, action)) && driver.wf() && driver.module() == *module
                        && driver.func_idx() == func_idx && driver@ == Self::initial(
                        listing_view(old(op_offset_map)@),
                        machine_offset,
                        func_idx,
                        ty.returns@.len() as u32,
                    ) && action@ == (ActionView::StartFunction {
                        params: ty.params@,
                        results: ty.returns@,
                    }) && final(op_offset_map)@.len() == 0
                },
            },
    {
        let ty = match module.defined_func_type(func_idx) {
            Some(ty) => ty,
            None => {
                return Err(Error::input("Unknown function"));
            },
        };
        let ghost before = op_offset_map@;
        op_offset_map.push((machine_offset, Listing::Function(func_idx)));
        proof {
            assert(listing_view(op_offset_map@) =~= listing_view(before).push(
                (machine_offset, ListingView::Function(func_idx)),
            ));
        }
        if ty.returns.len() > 1 {
            return Err(Error::input("invalid result arity"));
        }
        let mut listing: Vec<(AssemblyOffset, Listing<L>)> = Vec::new();
        core::mem::swap(op_offset_map, &mut listing);
        let adaptors: Vec<Operator<L>> = Vec::new();
        proof {
            assert(ops_view(adaptors@) =~= Seq::<OperatorView<L>>::empty());
        }
        let driver = Driver {
            module,
            func_idx,
            blocks: BlockTable::new(),
            adaptors,
            adaptors_offset: SourceLoc(u32::MAX),
            internal_block_id: L::first_id(),
            in_block: true,
            op_offset_map: listing,
            pending: Pending::Prologue { results: ty.returns.len() as u32 },
        };
        Ok(
            (
                driver,
                Action::StartFunction {
                    params: copy_types(&ty.params),
                    results: copy_types(&ty.returns),
                },
            ),
        )
    }

    /// The state in which the translation of a function starts.
    pub open spec fn initial(
        listing: Seq<(AssemblyOffset, ListingView<L>)>,
        machine_offset: AssemblyOffset,
        func_idx: u32,
        results: u32,
    ) -> DriverView<L> {
        DriverView {
            blocks: Map::empty(),
            adaptors: Seq::empty(),
            adaptors_offset: SourceLoc(u32::MAX),
            internal_block_id: L::spec_first_id(),
            in_block: true,
            listing: listing.push((machine_offset, ListingView::Function(func_idx))),
            pending: PendingView::Prologue { results },
        }
    }

    /// The listing: a line for the start of the function and one for each
    /// operator that was translated.
    pub fn op_offset_map(self) -> (listing: Vec<(AssemblyOffset, Listing<L>)>)
        ensures
            listing_view(listing@) == self@.listing,
    {
        self.op_offset_map
    }

    /// The first of the operators of adaptors that wait to be translated. The
    /// stream is read only when none waits.
    pub fn next_adaptor(&mut self) -> (r: Option<WithLoc<Operator<L>>>)
        requires
            old(self).wf(),
        ensures
            final(self).wf(),
            final(self).same_function(old(self)),
            match r {
                Some(op) => old(self)@.adaptors.len() > 0 && op.op@ == old(self)@.adaptors[0]
                    && op.offset == old(self)@.adaptors_offset && final(self)@ == (DriverView {
                    adaptors: old(self)@.adaptors.skip(1),
                    ..old(self)@
                }),
                None => old(self)@.adaptors.len() == 0 && final(self)@ == old(self)@,
            },
    {
        if self.adaptors.len() > 0 {
            let op = self.adaptors.remove(0);
            proof {
                assert(ops_view(self.adaptors@) =~= ops_view(old(self).adaptors@).skip(1));
            }
            Some(WithLoc { op, offset: self.adaptors_offset })
        } else {
            None
        }
    }
}

impl<'a, L: MakeInternalLabel> Driver<'a, L> {
    /// Marks the block that starts next, if any.
    fn mark_next(&mut self, next_start: &Option<L>) -> (r: Result<(), Error>)
        requires
            old(self).wf(),
        ensures
            final(self)@.listing == old(self)@.listing,
            final(self).wf(),
            final(self).same_function(old(self)),
            match mark_next(old(self)@.blocks, *next_start) {
                Ok(blocks) => r is Ok && final(self)@ == (DriverView { blocks, ..old(self)@ }),
                Err(failure) => r matches Err(e) && e.spec_failure() == failure,
            },
    {
        match next_start {
            None => Ok(()),
            Some(label) => {
                let key = BrTarget::Label(label.duplicate());
                match self.blocks.remove(&key) {
                    Some(block) => {
                        let mut block = block;
                        block.is_next = true;
                        self.blocks.insert(key, block);
                        proof {
                            assert(self.blocks@ =~= old(self).blocks@.insert(
                                key,
                                BlockView { is_next: true, ..old(self).blocks@[key] },
                            ));
                        }
                        Ok(())
                    },
                    None => Err(error("Label defined before being declared")),
                }
            },
        }
    }

    /// Adds the line for an operator to the listing.
    fn list(&mut self, machine_offset: AssemblyOffset, op: &Operator<L>, offset: SourceLoc)
        ensures
            final(self).wf() == old(self).wf(),
            final(self).same_function(old(self)),
            final(self)@ == (DriverView {
                listing: old(self)@.listing.push((machine_offset, ListingView::Op(op@, offset))),
                ..old(self)@
            }),
    {
        let ghost before = self.op_offset_map@;
        let line = Listing::Op(WithLoc { op: op.duplicate(), offset });
        self.op_offset_map.push((machine_offset, line));
        proof {
            assert(listing_view(self.op_offset_map@) =~= listing_view(before).push(
                (machine_offset, ListingView::Op(op@, offset)),
            ));
        }
    }

    fn start(&mut self, label: L) -> (r: Result<Action, Error>)
        requires
            old(self).wf(),
        ensures
            final(self)@.listing == old(self)@.listing,
            final(self).wf(),
            final(self).same_function(old(self)),
            outcome_as(r, final(self)@, start(old(self)@, label)),
    {
        if self.in_block {
            return Err(error("New block started without previous block ending"));
        }
        let key = BrTarget::Label(label);
        let mut block = match self.blocks.remove(&key) {
            Some(block) => block,
            None => {
                return Err(error("Label defined before being declared"));
            },
        };
        block.is_next = false;
        self.in_block = true;
        if block.actual_num_callers.is_zero() {
            if block.calling_convention.is_some() {
                return Err(error("Block marked unreachable but has been jumped to before"));
            }
            let ghost skipped_block = block@;
            self.blocks.insert(key, block);
            self.pending = Pending::Skipping;
            proof {
                assert(self.blocks@ =~= old(self).blocks@.insert(key, skipped_block));
            }
            Ok(Action::Skip)
        } else {
            let convention = match &block.calling_convention {
                Some(cc) => cc.duplicate(),
                None => {
                    return Err(error("No calling convention to apply"));
                },
            };
            let machine_label = match block.label {
                BrTarget::Label(l) => l,
                BrTarget::Return => {
                    return Err(error("Block without a label"));
                },
            };
            if block.has_backwards_callers {
                block.already_emitted = true;
                let ghost emitted = block@;
                self.blocks.insert(key, block);
                proof {
                    assert(self.blocks@ =~= old(self).blocks@.insert(key, emitted));
                }
            }
            Ok(Action::Start { label: machine_label, convention })
        }
    }

    fn skipped(&mut self, op: Option<Operator<L>>) -> (r: Result<Action, Error>)
        requires
            old(self).wf(),
        ensures
            final(self)@.listing == old(self)@.listing,
            final(self).wf(),
            final(self).same_function(old(self)),
            outcome_as(
                r,
                final(self)@,
                skipped(
                    old(self)@,
                    match op {
                        Some(op) => Some(op@),
                        None => None,
                    },
                ),
            ),
    {
        match op {
            None => {
                self.pending = Pending::Operator;
                Ok(Action::Next)
            },
            Some(Operator::End(_)) | Some(Operator::Unreachable) => {
                self.pending = Pending::Operator;
                self.in_block = false;
                Ok(Action::Next)
            },
            Some(Operator::Start(_)) => Err(error("New block started without previous block ending")),
            Some(Operator::Declare { label, params, has_backwards_callers, num_callers }) => {
                self.pending = Pending::Declare {
                    label,
                    params: params.len(),
                    has_backwards_callers,
                    num_callers,
                    skipping: true,
                };
                Ok(Action::CreateLabel)
            },
            Some(_) => Ok(Action::Skip),
        }
    }

    fn call(&mut self, function_index: u32) -> (r: Result<Action, Error>)
        ensures
            *final(self) == *old(self),
            outcome_as(
                r,
                final(self)@,
                call(old(self).module(), old(self).func_idx(), old(self)@, function_index),
            ),
    {
        let ty = match self.module.func_type(function_index) {
            Some(ty) => ty,
            None => {
                return Err(Error::input("Unknown function index"));
            },
        };
        let params = copy_types(&ty.params);
        let results = copy_types(&ty.returns);
        match self.module.defined_func_index(function_index) {
            Some(defined) => {
                if defined == self.func_idx {
                    Ok(Action::CallDirectSelf { params, results })
                } else {
                    Ok(Action::CallDirect { function_index, params, results })
                }
            },
            None => Ok(Action::CallDirectImported { function_index, params, results }),
        }
    }

    fn call_indirect(&mut self, type_index: u32, table_index: u32) -> (r: Result<Action, Error>)
        ensures
            *final(self) == *old(self),
            outcome_as(
                r,
                final(self)@,
                call_indirect(old(self).module(), old(self)@, type_index, table_index),
            ),
    {
        if table_index != 0 {
            return Err(Error::input("table_index not equal to 0"));
        }
        match self.module.signature(type_index) {
            Some(ty) => Ok(
                Action::CallIndirect {
                    type_index,
                    params: copy_types(&ty.params),
                    results: copy_types(&ty.returns),
                },
            ),
            None => Err(Error::input("Unknown type index")),
        }
    }
}

/// Whether two stack depths that may not be there are the same.
fn same_depth(a: Option<StackDepth>, b: Option<StackDepth>) -> (r: bool)
    ensures
        r == (a == b),
{
    match (a, b) {
        (Some(x), Some(y)) => x.0 == y.0,
        (None, None) => true,
        _ => false,
    }
}

/// The targets of a branch as they have been taken in so far.
struct Reconcile<L> {
    candidate: Option<(CallingConvention, Option<DropRange>)>,
    max_num_callers: NumCallers,
    targets: Vec<BrTargetDrop<L>>,
    adaptors: Vec<Operator<L>>,
    adaptor_keys: Vec<BrTarget<L>>,
}

impl<'a, L: MakeInternalLabel> Driver<'a, L> {
    /// The state of laying out a branch of which `rec` holds what the table
    /// of blocks does not.
    closed spec fn reconciled(&self, rec: &Reconcile<L>) -> Reconciled<L> {
        Reconciled {
            blocks: self.blocks@,
            candidate: candidate_view(rec.candidate),
            max_num_callers: rec.max_num_callers,
            targets: rec.targets@,
            adaptors: ops_view(rec.adaptors@),
            adaptor_keys: rec.adaptor_keys@,
            internal_block_id: self.internal_block_id,
        }
    }

    /// Whether only the table of blocks and the id of the next adaptor differ
    /// between the driver and `other`.
    closed spec fn same_but_blocks(&self, other: &Self) -> bool {
        &&& self.same_function(other)
        &&& self@ == (DriverView {
            blocks: self.blocks@,
            internal_block_id: self.internal_block_id,
            ..other@
        })
    }

    fn taken(&self, rec: &mut Reconcile<L>, t: BrTargetDrop<L>) -> (r: Result<(), Error>)
        requires
            self.wf(),
        ensures
            match taken(self.reconciled(old(rec)), t) {
                Ok(expected) => r is Ok && self.reconciled(final(rec)) == expected,
                Err(failure) => r matches Err(e) && e.spec_failure() == failure,
            },
    {
        match self.blocks.get(&t.target) {
            Some(block) => {
                rec.max_num_callers = rec.max_num_callers.max(block.tmp_num_callers());
                rec.targets.push(t);
                Ok(())
            },
            None => Err(error("Label defined before being declared")),
        }
    }

    fn reconcile_one(&mut self, rec: &mut Reconcile<L>, params: u32, t: BrTargetDrop<L>) -> (r:
        Result<(), Error>)
        requires
            old(self).wf(),
        ensures
            final(self).wf(),
            final(self).same_but_blocks(old(self)),
            match reconcile_one(old(self).reconciled(old(rec)), params, t) {
                Ok(expected) => r is Ok && final(self).reconciled(final(rec)) == expected,
                Err(failure) => r matches Err(e) && e.spec_failure() == failure,
            },
    {
        let (block_cc, already_emitted, block_params) = match self.blocks.get(&t.target) {
            Some(block) => match &block.calling_convention {
                Some(cc) => (cc.duplicate(), block.already_emitted, block.params),
                None => {
                    return self.taken(rec, t);
                },
            },
            None => {
                return Err(error("Label defined before being declared"));
            },
        };
        let (candidate, to_drop) = match rec.candidate.take() {
            Some(candidate) => candidate,
            None => {
                rec.candidate = Some((block_cc, t.to_drop));
                return self.taken(rec, t);
            },
        };
        let ghost old_blocks = self.blocks@;
        let ghost old_block = old_blocks[t.target];
        if block_cc.depth.is_some() && !same_depth(candidate.depth, block_cc.depth)
            && already_emitted {
            return Err(
                error(
                    "Tried to do a conditional jump with targets that require different values for `rsp`",
                ),
            );
        }
        let depth = if same_depth(candidate.depth, block_cc.depth) {
            block_cc.depth
        } else {
            None
        };
        match self.blocks.remove(&t.target) {
            Some(block) => {
                let mut block = block;
                block.calling_convention = Some(
                    CallingConvention {
                        arguments: Locs {
                            locs: crate::backend::copy_locs(&block_cc.arguments.locs),
                            max_depth: block_cc.arguments.max_depth,
                        },
                        depth,
                    },
                );
                self.blocks.insert(t.target.duplicate(), block);
            },
            None => {},
        }
        let ghost settled = old_blocks.insert(
            t.target,
            BlockView {
                calling_convention: Some(ConventionView { depth, ..block_cc@ }),
                ..old_block
            },
        );
        proof {
            assert(self.blocks@ =~= settled);
        }
        let row = match cc_to_param_locs(params, &block_cc.arguments.locs, t.to_drop) {
            Some(row) => row,
            None => {
                return Err(error("Branch target expects more values than the branch holds"));
            },
        };
        let candidate_row = match cc_to_param_locs(params, &candidate.arguments.locs, to_drop) {
            Some(row) => row,
            None => {
                return Err(error("Branch target expects more values than the branch holds"));
            },
        };
        let (equal, block_count, candidate_count) = compare_rows(&row, &candidate_row);
        if equal {
            let merged_depth = if candidate.depth.is_some() {
                candidate.depth
            } else {
                depth
            };
            if block_count > candidate_count {
                rec.candidate = Some(
                    (
                        CallingConvention { arguments: block_cc.arguments, depth: merged_depth },
                        t.to_drop,
                    ),
                );
            } else {
                rec.candidate = Some(
                    (
                        CallingConvention { arguments: candidate.arguments, depth: merged_depth },
                        to_drop,
                    ),
                );
            }
            self.taken(rec, t)
        } else {
            rec.candidate = Some((candidate, to_drop));
            self.adaptor(rec, t, block_params)
        }
    }
}

impl<'a, L: MakeInternalLabel> Driver<'a, L> {
    /// Makes an adaptor for the target `t`, whose block expects
    /// `block_params` values, and takes the adaptor in in its place.
    fn adaptor(&mut self, rec: &mut Reconcile<L>, t: BrTargetDrop<L>, block_params: u32) -> (r:
        Result<(), Error>)
        requires
            old(self).wf(),
        ensures
            final(self).wf(),
            final(self).same_but_blocks(old(self)),
            match L::spec_new_internal(old(self).internal_block_id) {
                None => r matches Err(e) && e.spec_failure() == Failure::assembler(
                    "Too many adaptor blocks"@,
                ),
                Some((label, next_id)) => if block_params + drop_count(t.to_drop) <= u32::MAX {
                    match taken(
                        Reconciled {
                            blocks: old(self).blocks@.insert(
                                BrTarget::Label(label),
                                adaptor_block((block_params + drop_count(t.to_drop)) as u32),
                            ),
                            adaptors: ops_view(old(rec).adaptors@) + adaptor_ops(label, t.target),
                            adaptor_keys: old(rec).adaptor_keys@.push(BrTarget::Label(label)),
                            internal_block_id: next_id,
                            ..old(self).reconciled(old(rec))
                        },
                        BrTargetDrop { target: BrTarget::Label(label), to_drop: t.to_drop },
                    ) {
                        Ok(expected) => r is Ok && final(self).reconciled(final(rec)) == expected,
                        Err(failure) => r matches Err(e) && e.spec_failure() == failure,
                    }
                } else {
                    r matches Err(e) && e.spec_failure() == too_many_params()
                },
            },
    {
            let (new_label, next_id) = match L::new_internal(self.internal_block_id) {
                Some(fresh) => fresh,
                None => {
                    return Err(error("Too many adaptor blocks"));
                },
            };
            let count = match t.to_drop {
                Some(range) => range.count(),
                None => 0,
            };
            if block_params as u64 + count > u32::MAX as u64 {
                return Err(error("Too many values for a block"));
            }
            let adaptor_params = (block_params as u64 + count) as u32;
            self.internal_block_id = next_id;
            self.blocks.insert(
                BrTarget::Label(new_label.duplicate()),
                Block {
                    label: BrTarget::Return,
                    params: adaptor_params,
                    calling_convention: None,
                    is_next: false,
                    already_emitted: false,
                    has_backwards_callers: false,
                    actual_num_callers: NumCallers::Zero,
                    num_callers: NumCallers::One,
                },
            );
            let ghost before = ops_view(rec.adaptors@);
            proof {
                assert(ops_view(rec.adaptors@.push(Operator::Start(new_label))) =~= before.push(
                    OperatorView::start(new_label),
                ));
            }
            rec.adaptors.push(Operator::Start(new_label.duplicate()));
            let ghost one = rec.adaptors@;
            proof {
                assert(ops_view(one.push(Operator::Const(Value::I32(0)))) =~= ops_view(one).push(
                    OperatorView::zero(),
                ));
            }
            rec.adaptors.push(Operator::Const(Value::I32(0)));
            let ghost two = rec.adaptors@;
            let jump = Operator::End(Targets::to(t.target.duplicate()));
            proof {
                assert(ops_view(two.push(jump)) =~= ops_view(two).push(
                    OperatorView::end_to(t.target),
                ));
            }
            rec.adaptors.push(jump);
            proof {
                assert(ops_view(rec.adaptors@) =~= before + adaptor_ops(new_label, t.target));
            }
            rec.adaptor_keys.push(BrTarget::Label(new_label.duplicate()));
            self.taken(rec, BrTargetDrop { target: BrTarget::Label(new_label), to_drop: t.to_drop })
    }
}

/// What the backend is asked to do with the values of `branch`.
fn request_for<L: MakeInternalLabel>(branch: &Branch<L>) -> (r: Result<Action, Error>)
    ensures
        match request(branch@) {
            Ok(action) => r matches Ok(a) && a@ == action,
            Err(failure) => r matches Err(e) && e.spec_failure() == failure,
        },
{
    match &branch.candidate {
        Some((cc, to_drop)) => {
            let row = match cc_to_param_locs(branch.params, &cc.arguments.locs, *to_drop) {
                Some(row) => row,
                None => {
                    return Err(error("Branch target expects more values than the branch holds"));
                },
            };
            let other = if branch.max_num_callers.is_zero() {
                MaybeCCLoc::Serialize
            } else {
                MaybeCCLoc::NoSerialize
            };
            let mut locs: Vec<MaybeCCLoc> = Vec::new();
            let mut i: usize = 0;
            while i < row.len()
                invariant
                    i <= row.len(),
                    locs@.len() == i,
                    forall|j: int| 0 <= j < i ==> locs@[j] == slot_request(row@[j], other),
                decreases row.len() - i,
            {
                let slot = match row[i] {
                    Some(loc) => match CCLoc::try_from(loc) {
                        Some(place) => MaybeCCLoc::Concrete(place),
                        None => other,
                    },
                    None => other,
                };
                locs.push(slot);
                i += 1;
            }
            proof {
                assert(locs@ =~= Seq::new(row@.len(), |i: int| slot_request(row@[i], other)));
            }
            Ok(Action::SerializeBlockArgs { locs, depth: cc.depth })
        },
        None => {
            if branch.max_num_callers.is_many() {
                let mut locs: Vec<MaybeCCLoc> = Vec::new();
                let mut i: u32 = 0;
                while i < branch.params
                    invariant
                        i <= branch.params,
                        locs@ == Seq::new(i as nat, |j: int| MaybeCCLoc::Serialize),
                    decreases branch.params - i,
                {
                    locs.push(MaybeCCLoc::Serialize);
                    proof {
                        assert(locs@ =~= Seq::new((i + 1) as nat, |j: int| MaybeCCLoc::Serialize));
                    }
                    i += 1;
                }
                locs.push(MaybeCCLoc::NoSerialize);
                Ok(Action::SerializeBlockArgs { locs, depth: None })
            } else {
                Ok(Action::PopSelector)
            }
        },
    }
}

impl<'a, L: MakeInternalLabel> Driver<'a, L> {
    /// Goes on once the targets of `branch` have been taken in.
    fn after_reconcile(&mut self, branch: Branch<L>) -> (r: Result<Action, Error>)
        requires
            old(self).wf(),
        ensures
            final(self)@.listing == old(self)@.listing,
            final(self).wf(),
            final(self).same_function(old(self)),
            outcome_as(r, final(self)@, after_reconcile(old(self)@, branch@)),
    {
        if branch.adaptor_keys.len() > 0 {
            self.pending = Pending::Adaptors(branch, 0);
            Ok(Action::CreateLabel)
        } else {
            match request_for(&branch) {
                Ok(action) => {
                    self.pending = Pending::Convention(branch);
                    Ok(action)
                },
                Err(e) => Err(e),
            }
        }
    }

    fn end(&mut self, targets: Targets<L>, offset: SourceLoc) -> (r: Result<Action, Error>)
        requires
            old(self).wf(),
        ensures
            final(self)@.listing == old(self)@.listing,
            final(self).wf(),
            final(self).same_function(old(self)),
            outcome_as(r, final(self)@, end(old(self)@, targets@, offset)),
    {
        let ghost expected = end(old(self)@, targets@, offset);
        let ghost all = targets@;
        let Targets { targets: table, default } = targets;
        let (candidate, max_num_callers, block_params) = match self.blocks.get(&default.target) {
            Some(block) => (
                match &block.calling_convention {
                    Some(cc) => Some((cc.duplicate(), default.to_drop)),
                    None => None,
                },
                block.tmp_num_callers(),
                block.params,
            ),
            None => {
                return Err(error("Label defined before being declared"));
            },
        };
        let count = match default.to_drop {
            Some(range) => range.count(),
            None => 0,
        };
        if block_params as u64 + count > u32::MAX as u64 {
            return Err(error("Too many values for a block"));
        }
        let params = (block_params as u64 + count) as u32;
        let mut rec = Reconcile {
            candidate,
            max_num_callers,
            targets: Vec::new(),
            adaptors: Vec::new(),
            adaptor_keys: Vec::new(),
        };
        let ghost start = self.reconciled(&rec);
        proof {
            assert(start.targets =~= seq![]);
            assert(start.adaptors =~= seq![]);
            assert(start.adaptor_keys =~= seq![]);
        }
        let ghost s = old(self)@;
        proof {
            assert(expected == end_with(s, start, params, table@, default, offset));
        }
        let mut i: usize = 0;
        while i < table.len()
            invariant
                i <= table.len(),
                self.wf(),
                self.same_but_blocks(old(self)),
                s == old(self)@,
                expected == end(s, all, offset),
                all == targets@,
                expected == end_with(s, start, params, table@, default, offset),
                reconcile(start, params, table@.take(i as int)) == Ok::<Reconciled<L>, Failure>(
                    self.reconciled(&rec),
                ),
            decreases table.len() - i,
        {
            proof {
                assert(table@.take(i as int + 1).drop_last() == table@.take(i as int));
            }
            let ghost before = self.reconciled(&rec);
            let ghost longer = table@.take(i as int + 1);
            proof {
                assert(longer.last() == table@[i as int]);
                assert(reconcile(start, params, longer) == reconcile_one(
                    before,
                    params,
                    table@[i as int],
                ));
            }
            match self.reconcile_one(&mut rec, params, table[i].duplicate()) {
                Ok(()) => {},
                Err(e) => {
                    proof {
                        lemma_reconcile_fails(start, params, table@, i as int + 1);
                    }
                    return Err(e);
                },
            }
            i += 1;
        }
        proof {
            assert(table@.take(i as int) == table@);
        }
        self.in_block = false;
        if rec.adaptors.len() > 0 {
            self.adaptors = rec.adaptors;
            self.adaptors_offset = offset;
        }
        self.after_reconcile(
            Branch {
                targets: rec.targets,
                default,
                candidate: rec.candidate,
                max_num_callers: rec.max_num_callers,
                params,
                adaptor_keys: rec.adaptor_keys,
            },
        )
    }
}

/// The outcome of a branch once the block of its default target has been
/// looked at: the targets of the table are taken in, starting from `start`.
pub open spec fn end_with<L: MakeInternalLabel>(
    s: DriverView<L>,
    start: Reconciled<L>,
    params: u32,
    targets: Seq<BrTargetDrop<L>>,
    default: BrTargetDrop<L>,
    offset: SourceLoc,
) -> Outcome<L> {
    match reconcile(start, params, targets) {
        Err(kind) => Err(kind),
        Ok(r) => after_reconcile(
            DriverView {
                blocks: r.blocks,
                in_block: false,
                internal_block_id: r.internal_block_id,
                adaptors: if r.adaptors.len() > 0 {
                    r.adaptors
                } else {
                    s.adaptors
                },
                adaptors_offset: if r.adaptors.len() > 0 {
                    offset
                } else {
                    s.adaptors_offset
                },
                ..s
            },
            BranchView {
                targets: r.targets,
                default,
                candidate: r.candidate,
                max_num_callers: r.max_num_callers,
                params,
                adaptor_keys: r.adaptor_keys,
            },
        ),
    }
}

/// Where the targets up to some point cannot be taken in, none of the table
/// can.
pub proof fn lemma_reconcile_fails<L: MakeInternalLabel>(
    r: Reconciled<L>,
    params: u32,
    targets: Seq<BrTargetDrop<L>>,
    n: int,
)
    requires
        0 <= n <= targets.len(),
        reconcile(r, params, targets.take(n)) is Err,
    ensures
        reconcile(r, params, targets) matches Err(kind) && reconcile(r, params, targets.take(n))
            == Err::<Reconciled<L>, Failure>(kind),
    decreases targets.len(),
{
    if n == targets.len() {
        assert(targets.take(n) == targets);
    } else {
        assert(targets.drop_last().take(n) == targets.take(n));
        lemma_reconcile_fails(r, params, targets.drop_last(), n);
    }
}

/// Every target that was given a layout is in the table, and so is every
/// block that was there before.
pub proof fn lemma_install_keeps<L>(
    blocks: Map<BrTarget<L>, BlockView>,
    cc: ConventionView,
    all: Seq<BrTargetDrop<L>>,
)
    requires
        install(blocks, cc, all) is Ok,
    ensures
        forall|k: BrTarget<L>| #[trigger]
            blocks.contains_key(k) ==> install(blocks, cc, all)->Ok_0.contains_key(k),
        forall|i: int|
            0 <= i < all.len() ==> install(blocks, cc, all)->Ok_0.contains_key(
                (#[trigger] all[i]).target,
            ),
        forall|k: BrTarget<L>| #[trigger]
            blocks.contains_key(k) ==> install(blocks, cc, all)->Ok_0[k].is_next
                == blocks[k].is_next,
    decreases all.len(),
{
    if all.len() > 0 {
        lemma_install_keeps(blocks, cc, all.drop_last());
        let before = install(blocks, cc, all.drop_last())->Ok_0;
        assert forall|i: int| 0 <= i < all.len() implies install(
            blocks,
            cc,
            all,
        )->Ok_0.contains_key((#[trigger] all[i]).target) by {
            if i < all.len() - 1 {
                assert(all.drop_last()[i] == all[i]);
            }
        }
    }
}

/// What is left of a list of targets to give a layout to fails if its first
/// part fails.
pub proof fn lemma_install_fails<L>(
    blocks: Map<BrTarget<L>, BlockView>,
    cc: ConventionView,
    all: Seq<BrTargetDrop<L>>,
    n: int,
)
    requires
        0 <= n <= all.len(),
        install(blocks, cc, all.take(n)) is Err,
    ensures
        install(blocks, cc, all) == install(blocks, cc, all.take(n)),
    decreases all.len(),
{
    if n == all.len() {
        assert(all.take(n) == all);
    } else {
        assert(all.drop_last().take(n) == all.take(n));
        lemma_install_fails(blocks, cc, all.drop_last(), n);
    }
}

impl<'a, L: MakeInternalLabel> Driver<'a, L> {
    fn install_one(&mut self, cc: &CallingConvention, t: &BrTargetDrop<L>) -> (r: Result<(), Error>)
        requires
            old(self).wf(),
        ensures
            final(self).wf(),
            final(self).same_but_blocks(old(self)),
            final(self).internal_block_id == old(self).internal_block_id,
            match install_one(old(self).blocks@, cc@, *t) {
                Ok(blocks) => r is Ok && final(self).blocks@ == blocks,
                Err(failure) => r matches Err(e) && e.spec_failure() == failure,
            },
    {
        let many = match self.blocks.get(&t.target) {
            Some(block) => match &block.calling_convention {
                Some(block_cc) => {
                    if block_cc.depth.is_none() || same_depth(block_cc.depth, cc.depth) {
                        return Ok(());
                    } else {
                        return Err(
                            error(
                                "Programmer error: Tried to conditionally jump to targets that require different values for `rsp`",
                            ),
                        );
                    }
                },
                None => block.tmp_num_callers().is_many(),
            },
            None => {
                return Err(error("Label defined before being declared"));
            },
        };
        let mut locs = crate::backend::copy_locs(&cc.arguments.locs);
        drop_elements(&mut locs, t.to_drop);
        let convention = CallingConvention {
            arguments: Locs { locs, max_depth: cc.arguments.max_depth },
            depth: if many {
                None
            } else {
                cc.depth
            },
        };
        match self.blocks.remove(&t.target) {
            Some(block) => {
                let mut block = block;
                let ghost before = block@;
                block.calling_convention = Some(convention);
                let ghost after = block@;
                self.blocks.insert(t.target.duplicate(), block);
                proof {
                    assert(self.blocks@ =~= old(self).blocks@.insert(t.target, after));
                }
            },
            None => {},
        }
        Ok(())
    }

    /// Counts one more branch for each block that one of `all` names.
    fn count_callers(&mut self, all: &Vec<BrTargetDrop<L>>)
        requires
            old(self).wf(),
        ensures
            final(self).wf(),
            final(self).same_but_blocks(old(self)),
            final(self).internal_block_id == old(self).internal_block_id,
            final(self).blocks@ == count_callers(old(self).blocks@, all@),
    {
        let ghost start = self.blocks@;
        proof {
            assert(self.blocks@ =~= count_callers(start, all@.take(0)));
        }
        let mut i: usize = 0;
        while i < all.len()
            invariant
                i <= all.len(),
                self.wf(),
                self.same_but_blocks(old(self)),
                self.internal_block_id == old(self).internal_block_id,
                self.blocks@ == count_callers(start, all@.take(i as int)),
            decreases all.len() - i,
        {
            let ghost prefix = all@.take(i as int);
            let ghost longer = all@.take(i as int + 1);
            let mut seen = false;
            let mut j: usize = 0;
            while j < i
                invariant
                    j <= i < all.len(),
                    seen == names(all@.take(j as int), all@[i as int].target),
                decreases i - j,
            {
                let ghost shorter = all@.take(j as int);
                let ghost next = all@.take(j as int + 1);
                let hit = all[j].target.same(&all[i].target);
                proof {
                    if hit {
                        assert(next[j as int].target == all@[i as int].target);
                    } else if names(next, all@[i as int].target) {
                        let k = choose|k: int|
                            0 <= k < next.len() && (#[trigger] next[k]).target == all@[i as int].target;
                        assert(shorter[k] == next[k]);
                    }
                    if seen {
                        let k = choose|k: int|
                            0 <= k < shorter.len() && (#[trigger] shorter[k]).target
                                == all@[i as int].target;
                        assert(next[k] == shorter[k]);
                    }
                }
                seen = seen || hit;
                j += 1;
            }
            let ghost before = self.blocks@;
            if !seen {
                match self.blocks.remove(&all[i].target) {
                    Some(block) => {
                        let mut block = block;
                        block.actual_num_callers.inc();
                        self.blocks.insert(all[i].target.duplicate(), block);
                    },
                    None => {},
                }
            }
            proof {
                let t = all@[i as int].target;
                assert forall|k: BrTarget<L>| names(longer, k) == (names(prefix, k) || k == t) by {
                    if names(prefix, k) {
                        let m = choose|m: int|
                            0 <= m < prefix.len() && (#[trigger] prefix[m]).target == k;
                        assert(longer[m] == prefix[m]);
                    }
                    if k == t {
                        assert(longer[i as int].target == k);
                    }
                    if names(longer, k) {
                        let m = choose|m: int|
                            0 <= m < longer.len() && (#[trigger] longer[m]).target == k;
                        if m < i {
                            assert(prefix[m] == longer[m]);
                        }
                    }
                }
                assert(self.blocks@ =~= count_callers(start, longer));
            }
            i += 1;
        }
        proof {
            assert(all@.take(i as int) == all@);
        }
    }

    /// The edge to the target `t` as the backend emits it.
    fn edge(&self, t: &BrTargetDrop<L>) -> (r: Option<Target>)
        requires
            self.wf(),
        ensures
            match r {
                Some(target) => self.blocks@.contains_key(t.target) && target == edge(self.blocks@, *t),
                None => !self.blocks@.contains_key(t.target),
            },
    {
        match self.blocks.get(&t.target) {
            Some(block) => Some(
                Target {
                    target: block.label,
                    action: if block.is_next {
                        BrAction::Continue
                    } else {
                        BrAction::Jump
                    },
                },
            ),
            None => None,
        }
    }

    /// Ends a branch whose values the backend has placed as `cc` says.
    fn finish(&mut self, branch: Branch<L>, cc: CallingConvention, selector: ValueLocation) -> (r:
        Result<Action, Error>)
        requires
            old(self).wf(),
        ensures
            final(self)@.listing == old(self)@.listing,
            final(self).wf(),
            final(self).same_function(old(self)),
            outcome_as(r, final(self)@, finish(old(self)@, branch@, cc@, selector)),
    {
        let mut all = crate::operator::copy_targets(&branch.targets);
        all.push(branch.default.duplicate());
        let ghost start = self.blocks@;
        let mut i: usize = 0;
        while i < all.len()
            invariant
                i <= all.len(),
                self.wf(),
                self.same_but_blocks(old(self)),
                self.internal_block_id == old(self).internal_block_id,
                start == old(self)@.blocks,
                all@ == branch@.targets.push(branch@.default),
                install(start, cc@, all@.take(i as int)) == Ok::<Map<BrTarget<L>, BlockView>, Failure>(
                    self.blocks@,
                ),
            decreases all.len() - i,
        {
            proof {
                let longer = all@.take(i as int + 1);
                assert(longer.drop_last() == all@.take(i as int));
                assert(longer.last() == all@[i as int]);
                assert(install(start, cc@, longer) == install_one(self.blocks@, cc@, all@[i as int]));
            }
            match self.install_one(&cc, &all[i]) {
                Ok(()) => {},
                Err(e) => {
                    proof {
                        lemma_install_fails(start, cc@, all@, i as int + 1);
                    }
                    return Err(e);
                },
            }
            i += 1;
        }
        proof {
            assert(all@.take(i as int) == all@);
            lemma_install_keeps(start, cc@, all@);
        }
        let ghost installed = self.blocks@;
        self.count_callers(&all);
        let mut targets: Vec<Target> = Vec::new();
        let mut i: usize = 0;
        while i < branch.targets.len()
            invariant
                i <= branch.targets.len(),
                self.wf(),
                all@ == branch.targets@.push(branch.default),
                self.blocks@ == count_callers(installed, all@),
                forall|j: int| 0 <= j < all@.len() ==> installed.contains_key((#[trigger] all@[j]).target),
                targets@.len() == i,
                forall|j: int|
                    0 <= j < i ==> (#[trigger] targets@[j]) == edge(self.blocks@, branch.targets@[j]),
            decreases branch.targets.len() - i,
        {
            proof {
                assert(all@[i as int] == branch.targets@[i as int]);
            }
            match self.edge(&branch.targets[i]) {
                Some(target) => {
                    targets.push(target);
                },
                None => {},
            }
            i += 1;
        }
        proof {
            assert(all@[branch.targets@.len() as int] == branch.default);
        }
        let default = match self.edge(&branch.default) {
            Some(target) => target,
            None => {
                return Err(error("Label defined before being declared"));
            },
        };
        proof {
            assert(targets@ =~= Seq::new(
                branch.targets@.len(),
                |i: int| edge(self.blocks@, branch.targets@[i]),
            ));
        }
        self.pending = Pending::Operator;
        Ok(Action::EndBlock { targets, default, depth: cc.depth, selector })
    }
}

impl<'a, L: MakeInternalLabel> Driver<'a, L> {
    /// Takes what the driver waits for, and leaves it waiting for an operator.
    fn take_pending(&mut self) -> (pending: Pending<L>)
        ensures
            final(self).wf() == old(self).wf(),
            final(self).same_function(old(self)),
            pending@ == old(self)@.pending,
            final(self)@ == (DriverView { pending: PendingView::Operator, ..old(self)@ }),
    {
        let mut pending = Pending::Operator;
        core::mem::swap(&mut self.pending, &mut pending);
        pending
    }

    fn on_label(&mut self, machine_label: Label) -> (r: Result<Action, Error>)
        requires
            old(self).wf(),
        ensures
            final(self)@.listing == old(self)@.listing,
            final(self).wf(),
            final(self).same_function(old(self)),
            outcome_as(r, final(self)@, label(old(self)@, machine_label)),
    {
        match self.take_pending() {
            Pending::Declare { label, params, has_backwards_callers, num_callers, skipping } => {
                self.blocks.insert(
                    BrTarget::Label(label),
                    Block::declared(machine_label, params, has_backwards_callers, num_callers),
                );
                if skipping {
                    self.pending = Pending::Skipping;
                    Ok(Action::Skip)
                } else {
                    Ok(Action::Next)
                }
            },
            Pending::Adaptors(branch, i) => {
                if i >= branch.adaptor_keys.len() {
                    return Err(error("No adaptor waits for a label"));
                }
                match self.blocks.remove(&branch.adaptor_keys[i]) {
                    Some(block) => {
                        let mut block = block;
                        block.label = BrTarget::Label(machine_label);
                        let ghost labelled = block@;
                        self.blocks.insert(branch.adaptor_keys[i].duplicate(), block);
                        proof {
                            assert(self.blocks@ =~= old(self).blocks@.insert(
                                branch.adaptor_keys@[i as int],
                                labelled,
                            ));
                        }
                    },
                    None => {
                        return Err(error("Label defined before being declared"));
                    },
                }
                if i + 1 < branch.adaptor_keys.len() {
                    self.pending = Pending::Adaptors(branch, i + 1);
                    Ok(Action::CreateLabel)
                } else {
                    match request_for(&branch) {
                        Ok(action) => {
                            self.pending = Pending::Convention(branch);
                            Ok(action)
                        },
                        Err(e) => Err(e),
                    }
                }
            },
            _ => Err(error("No block waits for a label")),
        }
    }

    fn on_convention(&mut self, cc: CallingConvention) -> (r: Result<Action, Error>)
        requires
            old(self).wf(),
        ensures
            final(self)@.listing == old(self)@.listing,
            final(self).wf(),
            final(self).same_function(old(self)),
            outcome_as(r, final(self)@, convention(old(self)@, cc@)),
    {
        match self.take_pending() {
            Pending::Prologue { results } => {
                self.blocks.insert(
                    BrTarget::Return,
                    Block {
                        label: BrTarget::Return,
                        params: results,
                        calling_convention: Some(cc),
                        is_next: false,
                        already_emitted: true,
                        has_backwards_callers: false,
                        actual_num_callers: NumCallers::Zero,
                        num_callers: NumCallers::Many,
                    },
                );
                Ok(Action::Next)
            },
            Pending::Convention(branch) => {
                let mut cc = cc;
                let unconstrained = branch.candidate.is_none();
                if unconstrained && !branch.max_num_callers.is_many() {
                    return Err(error("The selector was to be popped"));
                }
                if cc.arguments.locs.len() <= branch.params as usize {
                    return Err(error("Stack has too few elements for branch"));
                }
                let selector = match cc.arguments.locs.pop() {
                    Some(selector) => selector,
                    None => {
                        return Err(error("Stack has too few elements for branch"));
                    },
                };
                if unconstrained {
                    cc.depth = Some(cc.arguments.max_depth);
                }
                self.finish(branch, cc, selector)
            },
            _ => Err(error("No branch waits for a layout")),
        }
    }

    fn on_selector(&mut self, place: ValueLocation, cc: CallingConvention) -> (r: Result<
        Action,
        Error,
    >)
        requires
            old(self).wf(),
        ensures
            final(self)@.listing == old(self)@.listing,
            final(self).wf(),
            final(self).same_function(old(self)),
            outcome_as(r, final(self)@, selector(old(self)@, place, cc@)),
    {
        match self.take_pending() {
            Pending::Convention(branch) => {
                if !(branch.candidate.is_none() && !branch.max_num_callers.is_many()) {
                    Err(error("The values of the branch were to be placed"))
                } else if cc.arguments.locs.len() < branch.params as usize {
                    Err(error("Stack has too few elements for branch"))
                } else {
                    self.finish(branch, cc, place)
                }
            },
            _ => Err(error("No branch waits for a selector")),
        }
    }

    fn begin(
        &mut self,
        op: Operator<L>,
        offset: SourceLoc,
        next_start: Option<L>,
        machine_offset: AssemblyOffset,
    ) -> (r: Result<Action, Error>)
        requires
            old(self).wf(),
            old(self)@.pending is Operator,
        ensures
            final(self)@.listing == listing_after(
                old(self)@,
                EventView::Operator { op: op@, offset, next_start, machine_offset },
            ),
            final(self).wf(),
            final(self).same_function(old(self)),
            outcome_as(
                r,
                final(self)@,
                begin(
                    old(self).module(),
                    old(self).func_idx(),
                    old(self)@,
                    op@,
                    offset,
                    next_start,
                    machine_offset,
                ),
            ),
    {
        match self.mark_next(&next_start) {
            Ok(()) => {},
            Err(e) => {
                return Err(e);
            },
        }
        self.list(machine_offset, &op, offset);
        match op {
            Operator::Unreachable => {
                self.in_block = false;
                Ok(Action::Trap(TrapReason::UnreachableCodeReached))
            },
            Operator::Start(label) => self.start(label),
            Operator::Declare { label, params, has_backwards_callers, num_callers } => {
                self.pending = Pending::Declare {
                    label,
                    params: params.len(),
                    has_backwards_callers,
                    num_callers,
                    skipping: false,
                };
                Ok(Action::CreateLabel)
            },
            Operator::End(targets) => self.end(targets, offset),
            Operator::Call { function_index } => self.call(function_index),
            Operator::CallIndirect { type_index, table_index } => self.call_indirect(
                type_index,
                table_index,
            ),
            other => match primitive(&other) {
                Some(primitive) => Ok(Action::Emit(primitive)),
                None => Err(error("Operator without a primitive")),
            },
        }
    }

    /// Whether the driver waits for the next operator.
    pub fn wants_operator(&self) -> (b: bool)
        ensures
            b == (self@.pending is Operator),
    {
        match self.pending {
            Pending::Operator => true,
            _ => false,
        }
    }

    /// One step of the translation: takes what the backend or the operator
    /// stream hands over, and says what the backend has to do next. An event
    /// that the driver does not wait for is an `Assembler` error. After an
    /// error nothing is promised of the state but that it is well-formed and
    /// that its listing is kept.
    pub fn on(&mut self, event: Event<L>) -> (r: Result<Action, Error>)
        requires
            old(self).wf(),
        ensures
            final(self)@.listing == listing_after(old(self)@, event@),
            final(self).wf(),
            final(self).same_function(old(self)),
            outcome_as(
                r,
                final(self)@,
                on(old(self).module(), old(self).func_idx(), old(self)@, event@),
            ),
    {
        match event {
            Event::Operator { op, offset, next_start, machine_offset } => {
                if self.wants_operator() {
                    self.begin(op, offset, next_start, machine_offset)
                } else {
                    Err(error("No operator is waited for"))
                }
            },
            Event::Skipped(op) => {
                let skipping = match self.pending {
                    Pending::Skipping => true,
                    _ => false,
                };
                if skipping {
                    self.skipped(op)
                } else {
                    Err(error("No block is being skipped"))
                }
            },
            Event::Label(machine_label) => self.on_label(machine_label),
            Event::Convention(cc) => self.on_convention(cc),
            Event::Selector { selector, convention } => self.on_selector(selector, convention),
        }
    }
}

} // verus!
