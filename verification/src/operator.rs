//! The operators of the flat intermediate form, their labels and branch targets.

use crate::types::{Signedness, SignfulInt, SignfulType, SignlessType, Size, Value};
use vstd::prelude::*;

verus! {

/// Which of the labels of one structured block a label is.
#[derive(Debug, Copy, Clone, Hash, PartialEq, Eq, Structural)]
pub enum NameTag {
    Header,
    Else,
    End,
    Internal,
}

/// The labels that lowering structured control flow produces: the number of the
/// structured block and the place in it.
pub type WasmLabel = (u32, NameTag);

/// A label type from which fresh labels for synthetic blocks can be drawn, and
/// whose values can be told apart.
pub trait MakeInternalLabel: Sized {
    type Id: Copy;

    spec fn spec_first_id() -> Self::Id;

    /// The label for `id` and the id after it; `None` once the ids have run out.
    spec fn spec_new_internal(id: Self::Id) -> Option<(Self, Self::Id)>;

    fn first_id() -> (id: Self::Id)
        ensures
            id == Self::spec_first_id(),
    ;

    fn new_internal(id: Self::Id) -> (r: Option<(Self, Self::Id)>)
        ensures
            r == Self::spec_new_internal(id),
    ;

    fn same(&self, other: &Self) -> (b: bool)
        ensures
            b == (*self == *other),
    ;

    fn duplicate(&self) -> (l: Self)
        ensures
            l == *self,
    ;
}

impl MakeInternalLabel for WasmLabel {
    type Id = u32;

    open spec fn spec_first_id() -> u32 {
        0
    }

    open spec fn spec_new_internal(id: u32) -> Option<(WasmLabel, u32)> {
        if id < u32::MAX {
            Some(((id, NameTag::Internal), (id + 1) as u32))
        } else {
            None
        }
    }

    fn first_id() -> u32 {
        0
    }

    fn new_internal(id: u32) -> Option<(WasmLabel, u32)> {
        if id < u32::MAX {
            Some(((id, NameTag::Internal), id + 1))
        } else {
            None
        }
    }

    fn same(&self, other: &Self) -> bool {
        self.0 == other.0 && self.1 == other.1
    }

    fn duplicate(&self) -> WasmLabel {
        (self.0, self.1)
    }
}

/// Where a branch goes: out of the function, or to a label.
#[derive(Debug, Clone, Copy, Hash, PartialEq, Eq)]
pub enum BrTarget<L> {
    Return,
    Label(L),
}

impl<L> BrTarget<L> {
    /// The label that the target names; `None` for the return.
    pub fn label(&self) -> (l: Option<&L>)
        ensures
            l == match *self {
                BrTarget::Return => None::<&L>,
                BrTarget::Label(l) => Some(&l),
            },
    {
        match self {
            BrTarget::Return => None,
            BrTarget::Label(l) => Some(l),
        }
    }
}

impl<L: MakeInternalLabel> BrTarget<L> {
    /// Whether two targets are the same target.
    pub fn same(&self, other: &Self) -> (b: bool)
        ensures
            b == (*self == *other),
    {
        match (self, other) {
            (BrTarget::Return, BrTarget::Return) => true,
            (BrTarget::Label(a), BrTarget::Label(b)) => a.same(b),
            _ => false,
        }
    }

    /// A copy of the target.
    pub fn duplicate(&self) -> (t: Self)
        ensures
            t == *self,
    {
        match self {
            BrTarget::Return => BrTarget::Return,
            BrTarget::Label(l) => BrTarget::Label(l.duplicate()),
        }
    }
}

impl<L> From<L> for BrTarget<L> {
    fn from(other: L) -> (t: Self) {
        BrTarget::Label(other)
    }
}

impl<L> vstd::std_specs::convert::FromSpecImpl<L> for BrTarget<L> {
    open spec fn obeys_from_spec() -> bool {
        true
    }

    open spec fn from_spec(other: L) -> Self {
        BrTarget::Label(other)
    }
}

/// An inclusive range of stack depths, counted from the top of the stack; it is
/// empty where `start` is above `end`.
#[derive(Debug, Copy, Clone, Hash, PartialEq, Eq, Structural)]
pub struct DropRange {
    pub start: u32,
    pub end: u32,
}

impl DropRange {
    /// How many depths the range holds.
    pub open spec fn spec_count(self) -> nat {
        if self.start <= self.end {
            (self.end - self.start + 1) as nat
        } else {
            0
        }
    }

    /// The range of the depths from `start` to `end`, both included.
    pub fn new(start: u32, end: u32) -> (r: Self)
        ensures
            r == (DropRange { start, end }),
    {
        DropRange { start, end }
    }

    /// How many depths the range holds.
    pub fn count(&self) -> (n: u64)
        ensures
            n == self.spec_count(),
    {
        if self.start <= self.end {
            (self.end - self.start) as u64 + 1
        } else {
            0
        }
    }
}

/// How many depths an optional range holds: none where there is no range.
pub open spec fn drop_count(to_drop: Option<DropRange>) -> nat {
    match to_drop {
        Some(r) => r.spec_count(),
        None => 0,
    }
}

/// A branch target together with the stack slots to discard on the way there.
#[derive(Debug, Copy, Clone, Hash, PartialEq, Eq)]
pub struct BrTargetDrop<L> {
    pub target: BrTarget<L>,
    pub to_drop: Option<DropRange>,
}

impl<L: MakeInternalLabel> BrTargetDrop<L> {
    /// A copy of the target and of what is dropped on the way.
    pub fn duplicate(&self) -> (t: Self)
        ensures
            t == *self,
    {
        BrTargetDrop { target: self.target.duplicate(), to_drop: self.to_drop }
    }
}

impl<L> From<BrTarget<L>> for BrTargetDrop<L> {
    fn from(other: BrTarget<L>) -> (t: Self) {
        BrTargetDrop { target: other, to_drop: None }
    }
}

impl<L> vstd::std_specs::convert::FromSpecImpl<BrTarget<L>> for BrTargetDrop<L> {
    open spec fn obeys_from_spec() -> bool {
        true
    }

    open spec fn from_spec(other: BrTarget<L>) -> Self {
        BrTargetDrop { target: other, to_drop: None }
    }
}

/// The targets of a multi-way branch: a selector `i` picks `targets[i]`, and any
/// selector past the table picks `default`.
#[derive(Debug, Clone, PartialEq, Eq)]
pub struct Targets<L> {
    pub targets: Vec<BrTargetDrop<L>>,
    pub default: BrTargetDrop<L>,
}

/// The targets of a branch, with the table as a sequence.
pub struct TargetsView<L> {
    pub targets: Seq<BrTargetDrop<L>>,
    pub default: BrTargetDrop<L>,
}

impl<L> View for Targets<L> {
    type V = TargetsView<L>;

    open spec fn view(&self) -> TargetsView<L> {
        TargetsView { targets: self.targets@, default: self.default }
    }
}

impl<L> TargetsView<L> {
    /// The branch that goes to `target` whatever the selector, dropping nothing.
    pub open spec fn to(target: BrTarget<L>) -> Self {
        TargetsView { targets: Seq::empty(), default: BrTargetDrop { target, to_drop: None } }
    }

    /// Every target of the branch, the default last.
    pub open spec fn all(self) -> Seq<BrTargetDrop<L>> {
        self.targets.push(self.default)
    }
}

impl<L> Targets<L> {
    /// The branch that goes to `other` whatever the selector.
    pub fn from(other: BrTargetDrop<L>) -> (t: Self)
        ensures
            t@ == (TargetsView { targets: Seq::empty(), default: other }),
    {
        Targets { targets: Vec::new(), default: other }
    }

    /// The branch that goes to `target` whatever the selector, dropping nothing.
    pub fn to(target: BrTarget<L>) -> (t: Self)
        ensures
            t@ == TargetsView::to(target),
    {
        Targets { targets: Vec::new(), default: BrTargetDrop { target, to_drop: None } }
    }
}

/// The immediate of a memory access.
#[derive(Debug, Copy, Clone, Hash, PartialEq, Eq, Structural)]
pub struct MemoryImmediate {
    pub flags: u32,
    pub offset: u32,
}

/// The types of the values that a block expects on the stack when it starts.
#[derive(Debug, Clone, PartialEq, Eq)]
pub struct Params {
    pub inner: Vec<SignlessType>,
}

impl View for Params {
    type V = Seq<SignlessType>;

    open spec fn view(&self) -> Seq<SignlessType> {
        self.inner@
    }
}

impl Params {
    /// The parameters with the types of `types`, in their order.
    pub fn new(types: Vec<SignlessType>) -> (p: Self)
        ensures
            p@ == types@,
    {
        Params { inner: types }
    }

    /// How many values the block expects, cut to 32 bits.
    pub fn len(&self) -> (n: u32)
        ensures
            n == self@.len() as u32,
            self@.len() <= u32::MAX ==> n == self@.len(),
    {
        #[verifier::truncate]
        let n = self.inner.len() as u32;
        n
    }
}

/// How many branches reach a block: none, one, or more than one.
#[derive(PartialEq, Eq, PartialOrd, Ord, Copy, Clone, Hash, Debug, Structural)]
pub enum NumCallers {
    Zero,
    One,
    Many,
}

impl Default for NumCallers {
    fn default() -> (n: Self)
        ensures
            n == NumCallers::Zero,
    {
        NumCallers::Zero
    }
}

impl NumCallers {
    /// The count after one more caller; `Many` stays `Many`.
    pub open spec fn spec_incremented(self) -> NumCallers {
        match self {
            NumCallers::Zero => NumCallers::One,
            NumCallers::One | NumCallers::Many => NumCallers::Many,
        }
    }

    /// The place of the count in the order `Zero < One < Many`.
    pub open spec fn rank(self) -> nat {
        match self {
            NumCallers::Zero => 0,
            NumCallers::One => 1,
            NumCallers::Many => 2,
        }
    }

    /// The larger of two counts.
    pub open spec fn spec_max(self, other: NumCallers) -> NumCallers {
        if self.rank() >= other.rank() {
            self
        } else {
            other
        }
    }

    /// Whether the count is none.
    pub fn is_zero(&self) -> (b: bool)
        ensures
            b == (*self == NumCallers::Zero),
    {
        *self == NumCallers::Zero
    }

    /// Whether the count is more than one.
    pub fn is_many(&self) -> (b: bool)
        ensures
            b == (*self == NumCallers::Many),
    {
        *self == NumCallers::Many
    }

    /// Counts one more caller; more than one stays more than one.
    pub fn inc(&mut self)
        ensures
            *final(self) == old(self).spec_incremented(),
    {
        *self = match *self {
            NumCallers::Zero => NumCallers::One,
            NumCallers::One | NumCallers::Many => NumCallers::Many,
        }
    }

    /// The count after one more caller.
    pub fn incremented(&self) -> (n: Self)
        ensures
            n == self.spec_incremented(),
    {
        let mut out = *self;
        out.inc();
        out
    }

    /// The larger of two counts.
    pub fn max(self, other: Self) -> (n: Self)
        ensures
            n == self.spec_max(other),
    {
        match (self, other) {
            (NumCallers::Many, _) => NumCallers::Many,
            (NumCallers::One, NumCallers::Many) => NumCallers::Many,
            (NumCallers::One, _) => NumCallers::One,
            (NumCallers::Zero, _) => other,
        }
    }
}

/// A position in the source. The all-ones pattern is the default, for what has
/// no position of its own.
#[derive(Clone, Copy, Debug, PartialEq, Eq, Structural)]
pub struct SourceLoc(pub u32);

impl SourceLoc {
    /// The position with the bits `bits`.
    pub fn new(bits: u32) -> (loc: Self)
        ensures
            loc == SourceLoc(bits),
    {
        SourceLoc(bits)
    }

    /// Whether this is the position of what has no position.
    pub fn is_default(self) -> (b: bool)
        ensures
            b == (self.0 == u32::MAX),
    {
        self.0 == u32::MAX
    }

    /// The bits of the position.
    pub fn bits(self) -> (bits: u32)
        ensures
            bits == self.0,
    {
        self.0
    }
}

impl Default for SourceLoc {
    fn default() -> (loc: Self)
        ensures
            loc == SourceLoc(u32::MAX),
    {
        SourceLoc(u32::MAX)
    }
}

/// A value together with the source position it came from.
#[derive(Debug, Clone, PartialEq, Eq)]
pub struct WithLoc<T> {
    pub op: T,
    pub offset: SourceLoc,
}

/// One operator of the flat intermediate form.
#[allow(inconsistent_fields)]
#[derive(Debug, Clone, PartialEq, Eq)]
pub enum Operator<Label> {
    /// Explicit trap instruction.
    Unreachable,
    /// Metadata of a block: its label, the values it expects, whether branches
    /// reach it from later in the stream, and how many branches to expect. A
    /// block is declared before anything branches to it.
    Declare { label: Label, params: Params, has_backwards_callers: bool, num_callers: NumCallers },
    /// Start a block. The block before it has ended.
    Start(Label),
    /// Pop the selector and branch to the target it picks.
    End(Targets<Label>),
    /// Call a function.
    Call { function_index: u32 },
    /// Pop an index into the table and call the function found there.
    CallIndirect { type_index: u32, table_index: u32 },
    /// Discard the stack elements at the depths of the range.
    Drop(DropRange),
    /// Pop a condition and two values, push back one of the two.
    Select,
    /// Duplicate the element at `depth` to the top of the stack.
    Pick(u32),
    /// Swap the top element of the stack with the element at `depth`.
    Swap(u32),
    GlobalGet(u32),
    GlobalSet(u32),
    Load { ty: SignlessType, memarg: MemoryImmediate },
    Load8 { ty: SignfulInt, memarg: MemoryImmediate },
    Load16 { ty: SignfulInt, memarg: MemoryImmediate },
    /// Only for 64-bit integers.
    Load32 { sign: Signedness, memarg: MemoryImmediate },
    Store { ty: SignlessType, memarg: MemoryImmediate },
    Store8 { ty: Size, memarg: MemoryImmediate },
    Store16 { ty: Size, memarg: MemoryImmediate },
    /// Only for 64-bit integers.
    Store32 { memarg: MemoryImmediate },
    MemorySize { reserved: u32 },
    MemoryGrow { reserved: u32 },
    Const(Value),
    Eq(SignlessType),
    Ne(SignlessType),
    Eqz(Size),
    Lt(SignfulType),
    Gt(SignfulType),
    Le(SignfulType),
    Ge(SignfulType),
    Add(SignlessType),
    Sub(SignlessType),
    Mul(SignlessType),
    Clz(Size),
    Ctz(Size),
    Popcnt(Size),
    Div(SignfulType),
    Rem(SignfulInt),
    And(Size),
    Or(Size),
    Xor(Size),
    Shl(Size),
    Shr(SignfulInt),
    Rotl(Size),
    Rotr(Size),
    Abs(Size),
    Neg(Size),
    Ceil(Size),
    Floor(Size),
    Trunc(Size),
    Nearest(Size),
    Sqrt(Size),
    Min(Size),
    Max(Size),
    Copysign(Size),
    I32WrapFromI64,
    ITruncFromF { input_ty: Size, output_ty: SignfulInt },
    FConvertFromI { input_ty: SignfulInt, output_ty: Size },
    F32DemoteFromF64,
    F64PromoteFromF32,
    I32ReinterpretFromF32,
    I64ReinterpretFromF64,
    F32ReinterpretFromI32,
    F64ReinterpretFromI64,
    Extend8 { size: Size },
    Extend16 { size: Size },
    Extend32 { sign: Signedness },
}

/// What an operator is, with the sequences it holds taken by their contents.
pub enum OperatorView<L> {
    Declare { label: L, params: Seq<SignlessType>, has_backwards_callers: bool, num_callers: NumCallers },
    End(TargetsView<L>),
    /// Any operator but `Declare` and `End`.
    Plain(Operator<L>),
}

impl<L> View for Operator<L> {
    type V = OperatorView<L>;

    open spec fn view(&self) -> OperatorView<L> {
        match *self {
            Operator::Declare { label, params, has_backwards_callers, num_callers } => {
                OperatorView::Declare { label, params: params@, has_backwards_callers, num_callers }
            },
            Operator::End(targets) => OperatorView::End(targets@),
            _ => OperatorView::Plain(*self),
        }
    }
}

/// The views of a sequence of operators.
pub open spec fn ops_view<L>(ops: Seq<Operator<L>>) -> Seq<OperatorView<L>> {
    ops.map_values(|op: Operator<L>| op@)
}

impl<L> OperatorView<L> {
    /// The constant `0i32`: the selector of a branch that has one target.
    pub open spec fn zero() -> Self {
        OperatorView::Plain(Operator::Const(Value::I32(0)))
    }

    /// The branch that goes to `target` whatever the selector.
    pub open spec fn end_to(target: BrTarget<L>) -> Self {
        OperatorView::End(TargetsView::to(target))
    }

    /// The start of the block `label`.
    pub open spec fn start(label: L) -> Self {
        OperatorView::Plain(Operator::Start(label))
    }

    /// The operator that drops the depths of `range`.
    pub open spec fn drop(range: DropRange) -> Self {
        OperatorView::Plain(Operator::Drop(range))
    }

    /// The declaration that `Operator::end_wasm_block` makes.
    pub open spec fn end_wasm_block(params: Seq<SignlessType>, label: L) -> Self {
        OperatorView::Declare {
            label,
            params,
            has_backwards_callers: false,
            num_callers: NumCallers::Many,
        }
    }

    /// The declaration that `Operator::block` makes.
    pub open spec fn block(params: Seq<SignlessType>, label: L) -> Self {
        OperatorView::Declare {
            label,
            params,
            has_backwards_callers: false,
            num_callers: NumCallers::One,
        }
    }

    /// The declaration that `Operator::loop_` makes.
    pub open spec fn loop_(params: Seq<SignlessType>, label: L) -> Self {
        OperatorView::Declare {
            label,
            params,
            has_backwards_callers: true,
            num_callers: NumCallers::Many,
        }
    }
}

impl<L> Operator<L> {
    /// Whether the operator starts a block.
    pub fn is_label(&self) -> (b: bool)
        ensures
            b == (*self is Start),
    {
        match self {
            Operator::Start(..) => true,
            _ => false,
        }
    }

    /// Whether the operator declares a block.
    pub fn is_block(&self) -> (b: bool)
        ensures
            b == (*self is Declare),
    {
        match self {
            Operator::Declare { .. } => true,
            _ => false,
        }
    }

    /// The declaration of the block that follows a structured block: branches
    /// reach it only from before it, and any number of them may.
    pub fn end_wasm_block(params: Params, label: L) -> (op: Self)
        ensures
            op@ == OperatorView::end_wasm_block(params@, label),
    {
        Operator::Declare {
            params,
            label,
            has_backwards_callers: false,
            num_callers: NumCallers::Many,
        }
    }

    /// The declaration of a block that one branch reaches, from before it.
    pub fn block(params: Params, label: L) -> (op: Self)
        ensures
            op@ == OperatorView::block(params@, label),
    {
        Operator::Declare {
            params,
            label,
            has_backwards_callers: false,
            num_callers: NumCallers::One,
        }
    }

    /// The declaration of a loop header, which branches reach from after it too.
    pub fn loop_(params: Params, label: L) -> (op: Self)
        ensures
            op@ == OperatorView::loop_(params@, label),
    {
        Operator::Declare {
            params,
            label,
            has_backwards_callers: true,
            num_callers: NumCallers::Many,
        }
    }
}

/// A copy of `targets`.
pub fn copy_targets<L: MakeInternalLabel>(targets: &Vec<BrTargetDrop<L>>) -> (out: Vec<BrTargetDrop<L>>)
    ensures
        out@ == targets@,
{
    let mut out: Vec<BrTargetDrop<L>> = Vec::new();
    let mut i: usize = 0;
    while i < targets.len()
        invariant
            i <= targets.len(),
            out@ == targets@.take(i as int),
        decreases targets.len() - i,
    {
        out.push(targets[i].duplicate());
        proof {
            assert(out@ =~= targets@.take(i as int + 1));
        }
        i += 1;
    }
    proof {
        assert(targets@.take(i as int) == targets@);
    }
    out
}

impl Params {
    /// A copy of the types.
    pub fn duplicate(&self) -> (p: Self)
        ensures
            p@ == self@,
    {
        let mut inner: Vec<SignlessType> = Vec::new();
        let mut i: usize = 0;
        while i < self.inner.len()
            invariant
                i <= self.inner.len(),
                inner@ == self.inner@.take(i as int),
            decreases self.inner.len() - i,
        {
            inner.push(self.inner[i]);
            proof {
                assert(inner@ =~= self.inner@.take(i as int + 1));
            }
            i += 1;
        }
        proof {
            assert(self.inner@.take(i as int) == self.inner@);
        }
        Params { inner }
    }
}

impl<L: MakeInternalLabel> Targets<L> {
    /// A copy of the targets.
    pub fn duplicate(&self) -> (t: Self)
        ensures
            t@ == self@,
    {
        Targets { targets: copy_targets(&self.targets), default: self.default.duplicate() }
    }
}

impl<L: MakeInternalLabel> Operator<L> {
    /// A copy of the operator.
    pub fn duplicate(&self) -> (op: Self)
        ensures
            op@ == self@,
    {
        match self {
            Operator::Declare { label, params, has_backwards_callers, num_callers } => Operator::Declare {
                label: label.duplicate(),
                params: params.duplicate(),
                has_backwards_callers: *has_backwards_callers,
                num_callers: *num_callers,
            },
            Operator::Start(label) => Operator::Start(label.duplicate()),
            Operator::End(targets) => Operator::End(targets.duplicate()),
            Operator::Unreachable => Operator::Unreachable,
            Operator::Call { function_index } => Operator::Call { function_index: *function_index },
            Operator::CallIndirect { type_index, table_index } => Operator::CallIndirect { type_index: *type_index, table_index: *table_index },
            Operator::Drop(x) => Operator::Drop(*x),
            Operator::Select => Operator::Select,
            Operator::Pick(x) => Operator::Pick(*x),
            Operator::Swap(x) => Operator::Swap(*x),
            Operator::GlobalGet(x) => Operator::GlobalGet(*x),
            Operator::GlobalSet(x) => Operator::GlobalSet(*x),
            Operator::Load { ty, memarg } => Operator::Load { ty: *ty, memarg: *memarg },
            Operator::Load8 { ty, memarg } => Operator::Load8 { ty: *ty, memarg: *memarg },
            Operator::Load16 { ty, memarg } => Operator::Load16 { ty: *ty, memarg: *memarg },
            Operator::Load32 { sign, memarg } => Operator::Load32 { sign: *sign, memarg: *memarg },
            Operator::Store { ty, memarg } => Operator::Store { ty: *ty, memarg: *memarg },
            Operator::Store8 { ty, memarg } => Operator::Store8 { ty: *ty, memarg: *memarg },
            Operator::Store16 { ty, memarg } => Operator::Store16 { ty: *ty, memarg: *memarg },
            Operator::Store32 { memarg } => Operator::Store32 { memarg: *memarg },
            Operator::MemorySize { reserved } => Operator::MemorySize { reserved: *reserved },
            Operator::MemoryGrow { reserved } => Operator::MemoryGrow { reserved: *reserved },
            Operator::Const(x) => Operator::Const(*x),
            Operator::Eq(x) => Operator::Eq(*x),
            Operator::Ne(x) => Operator::Ne(*x),
            Operator::Eqz(x) => Operator::Eqz(*x),
            Operator::Lt(x) => Operator::Lt(*x),
            Operator::Gt(x) => Operator::Gt(*x),
            Operator::Le(x) => Operator::Le(*x),
            Operator::Ge(x) => Operator::Ge(*x),
            Operator::Add(x) => Operator::Add(*x),
            Operator::Sub(x) => Operator::Sub(*x),
            Operator::Mul(x) => Operator::Mul(*x),
            Operator::Clz(x) => Operator::Clz(*x),
            Operator::Ctz(x) => Operator::Ctz(*x),
            Operator::Popcnt(x) => Operator::Popcnt(*x),
            Operator::Div(x) => Operator::Div(*x),
            Operator::Rem(x) => Operator::Rem(*x),
            Operator::And(x) => Operator::And(*x),
            Operator::Or(x) => Operator::Or(*x),
            Operator::Xor(x) => Operator::Xor(*x),
            Operator::Shl(x) => Operator::Shl(*x),
            Operator::Shr(x) => Operator::Shr(*x),
            Operator::Rotl(x) => Operator::Rotl(*x),
            Operator::Rotr(x) => Operator::Rotr(*x),
            Operator::Abs(x) => Operator::Abs(*x),
            Operator::Neg(x) => Operator::Neg(*x),
            Operator::Ceil(x) => Operator::Ceil(*x),
            Operator::Floor(x) => Operator::Floor(*x),
            Operator::Trunc(x) => Operator::Trunc(*x),
            Operator::Nearest(x) => Operator::Nearest(*x),
            Operator::Sqrt(x) => Operator::Sqrt(*x),
            Operator::Min(x) => Operator::Min(*x),
            Operator::Max(x) => Operator::Max(*x),
            Operator::Copysign(x) => Operator::Copysign(*x),
            Operator::I32WrapFromI64 => Operator::I32WrapFromI64,
            Operator::ITruncFromF { input_ty, output_ty } => Operator::ITruncFromF { input_ty: *input_ty, output_ty: *output_ty },
            Operator::FConvertFromI { input_ty, output_ty } => Operator::FConvertFromI { input_ty: *input_ty, output_ty: *output_ty },
            Operator::F32DemoteFromF64 => Operator::F32DemoteFromF64,
            Operator::F64PromoteFromF32 => Operator::F64PromoteFromF32,
            Operator::I32ReinterpretFromF32 => Operator::I32ReinterpretFromF32,
            Operator::I64ReinterpretFromF64 => Operator::I64ReinterpretFromF64,
            Operator::F32ReinterpretFromI32 => Operator::F32ReinterpretFromI32,
            Operator::F64ReinterpretFromI64 => Operator::F64ReinterpretFromI64,
            Operator::Extend8 { size } => Operator::Extend8 { size: *size },
            Operator::Extend16 { size } => Operator::Extend16 { size: *size },
            Operator::Extend32 { sign } => Operator::Extend32 { sign: *sign },
        }
    }
}

} // verus!
