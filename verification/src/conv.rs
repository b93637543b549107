//! Lowering of one function body to the flat form, one batch of operators at
//! a time.

use crate::error::{Error, Failure};
use crate::frames::{ControlFrame, ControlFrameKind, ControlFrameView, ControlFrames};
use crate::lower::{
    block_sig, const_ops, drops, enter, jump, local_type, lower, lower_br_table, lower_else,
    lower_end, marked, next, next_id, op_sig, skip, skip_one, step, target_at, truncated, Batch,
    ConvState, Lowered, Skipped,
};
use crate::module::ModuleContext;
use crate::operator::{
    ops_view, BrTarget, BrTargetDrop, DropRange, NameTag, Operator, OperatorView, Params,
    SourceLoc, Targets, TargetsView, WasmLabel, WithLoc,
};
use crate::plain::plain;
use crate::sig::{apply, lemma_apply_len, spec_apply, OpSig, SigT};
use crate::types::{SignlessType, Size, Type, Value};
use crate::wasm::{BrTable, FunctionBody, TypeOrFuncType, WasmOperator, WasmType};
use vstd::prelude::*;
use vstd::string::StringExecFns;

verus! {

/// The types of the locals that `locals` declares, in their order: each
/// declaration stands for `count` locals of one type.
pub open spec fn local_types(locals: Seq<(u32, WasmType)>) -> Seq<SignlessType>
    decreases locals.len(),
{
    if locals.len() == 0 {
        seq![]
    } else {
        local_types(locals.drop_last()) + Seq::new(
            locals.last().0 as nat,
            |i: int| Type::<Size>::spec_from_wasm(locals.last().1).unwrap(),
        )
    }
}

/// Why the locals that `locals` declares cannot be taken, if they cannot: the
/// first declaration that names a type that is no number type, or with which
/// parameters and locals are more than a 32-bit depth can address.
pub open spec fn locals_failure(params: nat, locals: Seq<(u32, WasmType)>) -> Option<Failure>
    decreases locals.len(),
{
    if locals.len() == 0 {
        if params > u32::MAX {
            Some(Failure::microwasm("Too many locals"@))
        } else {
            None
        }
    } else {
        match locals_failure(params, locals.drop_last()) {
            Some(failure) => Some(failure),
            None => if Type::<Size>::spec_from_wasm(locals.last().1) is None {
                Some(Failure::microwasm("Invalid local type"@))
            } else if params + local_types(locals).len() > u32::MAX {
                Some(Failure::microwasm("Too many locals"@))
            } else {
                None
            },
        }
    }
}

/// Why lowering of a function cannot start, if it cannot: its locals cannot
/// be taken, or a declaration of locals could not be read.
pub open spec fn new_failure(
    params: Seq<SignlessType>,
    locals: Seq<(u32, WasmType)>,
    locals_error: Option<Error>,
) -> Option<Failure> {
    match locals_failure(params.len(), locals) {
        Some(failure) => Some(failure),
        None => match locals_error {
            Some(e) => Some(Failure::microwasm(e.spec_message())),
            None => None,
        },
    }
}

/// The state in which lowering of a function starts: the type stack holds the
/// parameters and the locals, the zeroes of the locals wait to be emitted, and
/// the one open frame is that of the function. Structured blocks are numbered
/// from 0; the frame of the function carries the one number that no block gets.
pub open spec fn initial_state(
    params: Seq<SignlessType>,
    results: Seq<SignlessType>,
    locals: Seq<(u32, WasmType)>,
) -> ConvState {
    let stack = params + local_types(locals);
    ConvState {
        is_done: false,
        consts_to_emit: Some(
            local_types(locals).map_values(|ty: SignlessType| Value::spec_default_for_type(ty)),
        ),
        stack,
        position: 0,
        current_id: 0,
        frames: seq![
            ControlFrameView {
                id: u32::MAX,
                arguments: stack.len() as u32,
                returns: results,
                kind: ControlFrameKind::Function,
            },
        ],
        unreachable: false,
    }
}

/// Whether `batch` is the batch `expected`: the same operators, each with the
/// source position of the batch.
pub open spec fn is_batch(batch: Seq<WithLoc<Operator<WasmLabel>>>, expected: Batch) -> bool {
    &&& batch.len() == expected.ops.len()
    &&& forall|i: int|
        0 <= i < batch.len() ==> (#[trigger] batch[i]).op@ == expected.ops[i] && batch[i].offset
            == expected.offset
}

/// A copy of `types`.
pub fn copy_types(types: &Vec<SignlessType>) -> (out: Vec<SignlessType>)
    ensures
        out@ == types@,
{
    let mut out: Vec<SignlessType> = Vec::new();
    let mut i: usize = 0;
    while i < types.len()
        invariant
            i <= types.len(),
            out@ == types@.take(i as int),
        decreases types.len() - i,
    {
        out.push(types[i]);
        proof {
            assert(out@ =~= types@.take(i as int + 1));
        }
        i += 1;
    }
    proof {
        assert(types@.take(i as int) == types@);
    }
    out
}

/// Cuts `stack` back to the height `arguments`, if it is higher.
fn truncate_to(stack: &mut Vec<SignlessType>, arguments: u32)
    ensures
        final(stack)@ == truncated(old(stack)@, arguments),
{
    if (arguments as usize) < stack.len() {
        stack.truncate(arguments as usize);
    }
}

proof fn lemma_ops_view_push(ops: Seq<Operator<WasmLabel>>, op: Operator<WasmLabel>)
    ensures
        ops_view(ops.push(op)) == ops_view(ops).push(op@),
{
    assert(ops_view(ops.push(op)) =~= ops_view(ops).push(op@));
}

fn push_op(ops: &mut Vec<Operator<WasmLabel>>, op: Operator<WasmLabel>)
    ensures
        ops_view(final(ops)@) == ops_view(old(ops)@).push(op@),
{
    proof {
        lemma_ops_view_push(ops@, op);
    }
    ops.push(op);
}

fn push_plain(ops: &mut Vec<Operator<WasmLabel>>, op: Operator<WasmLabel>)
    requires
        !(op is Declare),
        !(op is End),
    ensures
        ops_view(final(ops)@) == ops_view(old(ops)@).push(OperatorView::Plain(op)),
{
    push_op(ops, op);
}

fn push_drops(ops: &mut Vec<Operator<WasmLabel>>, to_drop: Option<DropRange>)
    ensures
        ops_view(final(ops)@) == ops_view(old(ops)@) + drops(to_drop),
{
    match to_drop {
        Some(range) => {
            push_plain(ops, Operator::Drop(range));
            proof {
                assert(ops_view(ops@) =~= ops_view(old(ops)@) + drops(to_drop));
            }
        },
        None => {
            proof {
                assert(ops_view(ops@) =~= ops_view(old(ops)@) + drops(to_drop));
            }
        },
    }
}

fn push_jump(ops: &mut Vec<Operator<WasmLabel>>, target: BrTarget<WasmLabel>)
    ensures
        ops_view(final(ops)@) == ops_view(old(ops)@) + jump(target),
{
    push_plain(ops, Operator::Const(Value::I32(0)));
    push_op(ops, Operator::End(Targets::to(target)));
    proof {
        assert(ops_view(ops@) =~= ops_view(old(ops)@) + jump(target));
    }
}

fn push_start(ops: &mut Vec<Operator<WasmLabel>>, label: WasmLabel)
    ensures
        ops_view(final(ops)@) == ops_view(old(ops)@).push(OperatorView::start(label)),
{
    push_plain(ops, Operator::Start(label));
}

fn no_ops() -> (ops: Vec<Operator<WasmLabel>>)
    ensures
        ops_view(ops@) == Seq::<OperatorView<WasmLabel>>::empty(),
{
    let ops: Vec<Operator<WasmLabel>> = Vec::new();
    proof {
        assert(ops_view(ops@) =~= Seq::<OperatorView<WasmLabel>>::empty());
    }
    ops
}

/// The branch with the one table entry `else_` and the default `then`.
fn end_if(then: BrTargetDrop<WasmLabel>, else_: BrTargetDrop<WasmLabel>) -> (op: Operator<WasmLabel>)
    ensures
        op@ == OperatorView::End(TargetsView { targets: seq![else_], default: then }),
{
    let mut targets: Vec<BrTargetDrop<WasmLabel>> = Vec::new();
    targets.push(else_);
    let op = Operator::End(Targets { targets, default: then });
    proof {
        assert(targets@ =~= seq![else_]);
    }
    op
}

/// Lowers the body of one function to the flat form.
pub struct MicrowasmConv<'a> {
    is_done: bool,
    consts_to_emit: Option<Vec<Value>>,
    stack: Vec<SignlessType>,
    operators: Vec<WithLoc<WasmOperator>>,
    operators_error: Error,
    position: usize,
    module: &'a ModuleContext,
    current_id: u32,
    pointer_type: SignlessType,
    control_frames: ControlFrames,
    unreachable: bool,
}

impl<'a> View for MicrowasmConv<'a> {
    type V = ConvState;

    closed spec fn view(&self) -> ConvState {
        ConvState {
            is_done: self.is_done,
            consts_to_emit: match self.consts_to_emit {
                Some(consts) => Some(consts@),
                None => None,
            },
            stack: self.stack@,
            position: self.position as nat,
            current_id: self.current_id,
            frames: self.control_frames@,
            unreachable: self.unreachable,
        }
    }
}

impl<'a> MicrowasmConv<'a> {
    /// The module that the function belongs to.
    pub closed spec fn module(&self) -> ModuleContext {
        *self.module
    }

    /// The type of a pointer into linear memory.
    pub closed spec fn pointer_type(&self) -> SignlessType {
        self.pointer_type
    }

    /// The operators of the body.
    pub closed spec fn operators(&self) -> Seq<WithLoc<WasmOperator>> {
        self.operators@
    }

    /// The error that reading past the last operator gives.
    pub closed spec fn end(&self) -> Failure {
        self.operators_error.spec_failure()
    }

    /// The type stack stays within what a 32-bit depth can address.
    pub closed spec fn wf(&self) -> bool {
        self.stack@.len() <= u32::MAX
    }

    /// Whether `other` lowers the same body in the same module.
    pub open spec fn same_function(&self, other: &Self) -> bool {
        &&& self.module() == other.module()
        &&& self.pointer_type() == other.pointer_type()
        &&& self.operators() == other.operators()
        &&& self.end() == other.end()
    }
}

/// Where the first declarations of locals cannot be taken, the declarations
/// cannot be taken, for the same reason.
pub proof fn lemma_locals_failure_prefix(params: nat, locals: Seq<(u32, WasmType)>, n: int)
    requires
        0 <= n <= locals.len(),
        locals_failure(params, locals.take(n)) is Some,
    ensures
        locals_failure(params, locals) == locals_failure(params, locals.take(n)),
    decreases locals.len(),
{
    if n == locals.len() {
        assert(locals.take(n) == locals);
    } else {
        assert(locals.drop_last().take(n) == locals.take(n));
        lemma_locals_failure_prefix(params, locals.drop_last(), n);
    }
}

impl<'a> MicrowasmConv<'a> {
    /// Starts lowering the function with parameters `params`, results
    /// `results` and body `func_body` in the module `context`.
    ///
    /// Fails with a `Microwasm` error where a local declaration names a type
    /// that is no number type, where parameters and locals together are more
    /// than a 32-bit depth can address, and where a local declaration could
    /// not be read.
    pub fn new(
        context: &'a ModuleContext,
        params: Vec<SignlessType>,
        results: Vec<SignlessType>,
        func_body: FunctionBody,
        pointer_type: SignlessType,
    ) -> (r: Result<Self, Error>)
        ensures
            match new_failure(params@, func_body.locals@, func_body.locals_error) {
                Some(failure) => r matches Err(e) && e.spec_failure() == failure,
                None => r matches Ok(conv) && {
                    &&& conv@ == initial_state(params@, results@, func_body.locals@)
                    &&& conv.wf()
                    &&& conv.module() == *context
                    &&& conv.pointer_type() == pointer_type
                    &&& conv.operators() == func_body.operators@
                    &&& conv.end() == func_body.operators_error.spec_failure()
                },
            },
    {
        let FunctionBody { locals, locals_error, operators, operators_error } = func_body;
        let mut stack = params;
        let mut consts: Vec<Value> = Vec::new();
        if stack.len() > u32::MAX as usize {
            proof {
                lemma_locals_failure_prefix(params@.len(), locals@, 0);
            }
            return Err(Error::microwasm("Too many locals"));
        }
        let mut i: usize = 0;
        while i < locals.len()
            invariant
                i <= locals.len(),
                locals@ == func_body.locals@,
                locals_failure(params@.len(), locals@.take(i as int)) is None,
                stack@ == params@ + local_types(locals@.take(i as int)),
                stack@.len() <= u32::MAX,
                consts@ == local_types(locals@.take(i as int)).map_values(
                    |ty: SignlessType| Value::spec_default_for_type(ty),
                ),
            decreases locals.len() - i,
        {
            let (count, ty) = locals[i];
            let ghost prefix = locals@.take(i as int);
            let ghost longer = locals@.take(i as int + 1);
            proof {
                assert(longer.drop_last() == prefix);
                assert(longer.last() == locals@[i as int]);
                assert(local_types(longer).len() == local_types(prefix).len() + count);
            }
            let ty = match Type::from_wasm(ty) {
                Ok(ty) => ty,
                Err(_) => {
                    proof {
                        lemma_locals_failure_prefix(params@.len(), locals@, i as int + 1);
                    }
                    return Err(Error::microwasm("Invalid local type"));
                },
            };
            if count as usize > u32::MAX as usize - stack.len() {
                proof {
                    lemma_locals_failure_prefix(params@.len(), locals@, i as int + 1);
                }
                return Err(Error::microwasm("Too many locals"));
            }
            let mut k: u32 = 0;
            while k < count
                invariant
                    k <= count,
                    stack@.len() + (count - k) <= u32::MAX,
                    stack@ == params@ + local_types(prefix) + Seq::new(k as nat, |j: int| ty),
                    consts@ == (local_types(prefix) + Seq::new(k as nat, |j: int| ty)).map_values(
                        |ty: SignlessType| Value::spec_default_for_type(ty),
                    ),
                decreases count - k,
            {
                stack.push(ty);
                consts.push(Value::default_for_type(ty));
                proof {
                    assert(Seq::new(k as nat, |j: int| ty).push(ty) =~= Seq::new(
                        (k + 1) as nat,
                        |j: int| ty,
                    ));
                    assert(stack@ =~= params@ + local_types(prefix) + Seq::new(
                        (k + 1) as nat,
                        |j: int| ty,
                    ));
                    assert(consts@ =~= (local_types(prefix) + Seq::new(
                        (k + 1) as nat,
                        |j: int| ty,
                    )).map_values(|ty: SignlessType| Value::spec_default_for_type(ty)));
                }
                k += 1;
            }
            proof {
                assert(Seq::new(count as nat, |j: int| ty) =~= Seq::new(
                    longer.last().0 as nat,
                    |j: int| Type::<Size>::spec_from_wasm(longer.last().1).unwrap(),
                ));
                assert(stack@ =~= params@ + local_types(longer));
            }
            i += 1;
        }
        proof {
            assert(locals@.take(i as int) == locals@);
        }
        if let Some(e) = locals_error {
            return Err(Error::microwasm(e.message()));
        }
        let num_locals = stack.len() as u32;
        let mut control_frames = ControlFrames::new();
        control_frames.push(
            ControlFrame {
                id: u32::MAX,
                arguments: num_locals,
                returns: results,
                kind: ControlFrameKind::Function,
            },
        );
        let out = MicrowasmConv {
            is_done: false,
            stack,
            module: context,
            consts_to_emit: Some(consts),
            operators,
            operators_error,
            position: 0,
            current_id: 0,
            control_frames,
            pointer_type,
            unreachable: false,
        };
        proof {
            assert(out@.frames =~= initial_state(params@, results@, func_body.locals@).frames);
        }
        Ok(out)
    }
}

/// Whether the outcome `r`, with the state `state` after it, is what the
/// model `expected` says: the same operators and the same state, or the same
/// error.
pub open spec fn lowered_as(
    r: Result<Vec<Operator<WasmLabel>>, Error>,
    state: ConvState,
    expected: Result<Lowered, Failure>,
) -> bool {
    match expected {
        Ok(lowered) => r matches Ok(ops) && ops_view(ops@) == lowered.ops && state == lowered.state,
        Err(failure) => r matches Err(e) && e.spec_failure() == failure,
    }
}

/// Whether the outcome `r` of asking for the next batch, with the state
/// `state` after it, is what the model `expected` says.
pub open spec fn next_as(
    r: Result<Option<Vec<WithLoc<Operator<WasmLabel>>>>, Error>,
    state: ConvState,
    expected: Result<(ConvState, Option<Batch>), Failure>,
) -> bool {
    match expected {
        Ok((s, Some(batch))) => r matches Ok(Some(ops)) && is_batch(ops@, batch) && state == s,
        Ok((s, None)) => r matches Ok(None) && state == s,
        Err(failure) => r matches Err(e) && e.spec_failure() == failure,
    }
}

/// The operators `ops`, each with the source position `offset`.
fn with_loc(ops: Vec<Operator<WasmLabel>>, offset: SourceLoc) -> (out: Vec<
    WithLoc<Operator<WasmLabel>>,
>)
    ensures
        is_batch(out@, Batch { ops: ops_view(ops@), offset }),
{
    let mut ops = ops;
    let ghost all = ops@;
    let mut rev: Vec<WithLoc<Operator<WasmLabel>>> = Vec::new();
    while ops.len() > 0
        invariant
            ops@.len() + rev@.len() == all.len(),
            ops@ == all.take(ops@.len() as int),
            forall|i: int|
                0 <= i < rev@.len() ==> (#[trigger] rev@[i]).op == all[all.len() - 1 - i]
                    && rev@[i].offset == offset,
        decreases ops.len(),
    {
        let op = ops.pop().unwrap();
        rev.push(WithLoc { op, offset });
        proof {
            assert(ops@ =~= all.take(ops@.len() as int));
        }
    }
    let ghost reversed = rev@;
    let mut out: Vec<WithLoc<Operator<WasmLabel>>> = Vec::new();
    while rev.len() > 0
        invariant
            reversed.len() == all.len(),
            rev@.len() + out@.len() == reversed.len(),
            rev@ == reversed.take(rev@.len() as int),
            forall|i: int|
                0 <= i < reversed.len() ==> (#[trigger] reversed[i]).op == all[all.len() - 1 - i]
                    && reversed[i].offset == offset,
            forall|i: int|
                0 <= i < out@.len() ==> (#[trigger] out@[i]).op == all[i] && out@[i].offset
                    == offset,
        decreases rev.len(),
    {
        let ghost k = rev@.len() - 1;
        let item = rev.pop().unwrap();
        proof {
            assert(item == reversed[k]);
        }
        out.push(item);
        proof {
            assert(rev@ =~= reversed.take(rev@.len() as int));
        }
    }
    out
}

impl<'a> MicrowasmConv<'a> {
    /// Whether lowering has reached the end of the function.
    pub fn is_done(&self) -> (b: bool)
        ensures
            b == self@.is_done,
    {
        self.is_done
    }

    /// The parameters and the results of a block of type `ty`.
    fn type_or_func_type_to_sig(&self, ty: TypeOrFuncType) -> (r: Result<
        (Vec<SignlessType>, Vec<SignlessType>),
        Error,
    >)
        ensures
            match block_sig(self.module(), ty) {
                Ok((params, results)) => r matches Ok(v) && v.0@ == params && v.1@ == results,
                Err(failure) => r matches Err(e) && e.spec_failure() == failure,
            },
    {
        match ty {
            TypeOrFuncType::Type(t) => match Type::from_wasm_block(t) {
                Ok(result) => {
                    let params: Vec<SignlessType> = Vec::new();
                    let mut results: Vec<SignlessType> = Vec::new();
                    if let Some(r) = result {
                        results.push(r);
                    }
                    proof {
                        assert(params@ =~= seq![]);
                        match result {
                            Some(r) => assert(results@ =~= seq![r]),
                            None => assert(results@ =~= seq![]),
                        }
                    }
                    Ok((params, results))
                },
                Err(e) => Err(e),
            },
            TypeOrFuncType::FuncType(index) => match self.module.signature(index) {
                Some(sig) => Ok((copy_types(&sig.params), copy_types(&sig.returns))),
                None => Err(Error::input("Unknown type index")),
            },
        }
    }

    /// The signature of `op` in the present state.
    pub fn op_sig(&self, op: &WasmOperator) -> (r: Result<OpSig, Error>)
        ensures
            match op_sig(self.module(), self.pointer_type(), self@, *op) {
                Ok(sig) => r matches Ok(v) && v@ == sig,
                Err(failure) => r matches Err(e) && e.spec_failure() == failure,
            },
    {
        let i32_ = SigT::Concrete(Type::Int(Size::_32));
        match op {
            WasmOperator::Unreachable
            | WasmOperator::Nop
            | WasmOperator::Br { .. }
            | WasmOperator::Return => Ok(OpSig::none()),
            WasmOperator::Block { ty } | WasmOperator::Loop { ty } => {
                match self.type_or_func_type_to_sig(*ty) {
                    Ok((params, _)) => Ok(OpSig::pass(&params)),
                    Err(e) => Err(e),
                }
            },
            WasmOperator::If { ty } => match self.type_or_func_type_to_sig(*ty) {
                Ok((params, _)) => {
                    let mut sig = OpSig::pass(&params);
                    sig.input.push(i32_);
                    Ok(sig)
                },
                Err(e) => Err(e),
            },
            WasmOperator::Else | WasmOperator::End => match self.control_frames.top() {
                Some(frame) => Ok(OpSig::pass(&frame.returns)),
                None => Err(Error::microwasm("Missing control frame")),
            },
            WasmOperator::BrIf { .. } | WasmOperator::BrTable { .. } => {
                let mut input: Vec<SigT> = Vec::new();
                input.push(i32_);
                let sig = OpSig::new(input, Vec::new());
                proof {
                    assert(sig@.input =~= seq![i32_]);
                    assert(sig@.output =~= seq![]);
                }
                Ok(sig)
            },
            WasmOperator::Call { function_index } => match self.module.func_type(*function_index) {
                Some(sig) => Ok(OpSig::call(sig)),
                None => Err(Error::input("Unknown function index")),
            },
            WasmOperator::CallIndirect { index, .. } => match self.module.signature(*index) {
                Some(sig) => Ok(OpSig::call_indirect(sig)),
                None => Err(Error::input("Unknown type index")),
            },
            WasmOperator::LocalGet { local_index } => match self.local_type(*local_index) {
                Some(ty) => {
                    let mut output: Vec<SigT> = Vec::new();
                    output.push(SigT::Concrete(ty));
                    let sig = OpSig::new(Vec::new(), output);
                    proof {
                        assert(sig@.input =~= seq![]);
                        assert(sig@.output =~= seq![SigT::Concrete(ty)]);
                    }
                    Ok(sig)
                },
                None => Err(Error::microwasm("LocalGet - Local out of range")),
            },
            WasmOperator::LocalSet { local_index } => match self.local_type(*local_index) {
                Some(ty) => {
                    let mut input: Vec<SigT> = Vec::new();
                    input.push(SigT::Concrete(ty));
                    let sig = OpSig::new(input, Vec::new());
                    proof {
                        assert(sig@.input =~= seq![SigT::Concrete(ty)]);
                        assert(sig@.output =~= seq![]);
                    }
                    Ok(sig)
                },
                None => Err(Error::microwasm("LocalSet - Local out of range")),
            },
            WasmOperator::LocalTee { local_index } => match self.local_type(*local_index) {
                Some(ty) => {
                    let mut input: Vec<SigT> = Vec::new();
                    input.push(SigT::Concrete(ty));
                    let mut output: Vec<SigT> = Vec::new();
                    output.push(SigT::Concrete(ty));
                    let sig = OpSig::new(input, output);
                    proof {
                        assert(sig@.input =~= seq![SigT::Concrete(ty)]);
                        assert(sig@.output =~= seq![SigT::Concrete(ty)]);
                    }
                    Ok(sig)
                },
                None => Err(Error::microwasm("LocalTee - Local out of range")),
            },
            WasmOperator::GlobalGet { global_index } => match self.module.global_type(
                *global_index,
            ) {
                Some(ty) => {
                    let mut output: Vec<SigT> = Vec::new();
                    output.push(SigT::Concrete(ty));
                    let sig = OpSig::new(Vec::new(), output);
                    proof {
                        assert(sig@.input =~= seq![]);
                        assert(sig@.output =~= seq![SigT::Concrete(ty)]);
                    }
                    Ok(sig)
                },
                None => Err(Error::input("Unknown global index")),
            },
            WasmOperator::GlobalSet { global_index } => match self.module.global_type(
                *global_index,
            ) {
                Some(ty) => {
                    let mut input: Vec<SigT> = Vec::new();
                    input.push(SigT::Concrete(ty));
                    let sig = OpSig::new(input, Vec::new());
                    proof {
                        assert(sig@.input =~= seq![SigT::Concrete(ty)]);
                        assert(sig@.output =~= seq![]);
                    }
                    Ok(sig)
                },
                None => Err(Error::input("Unknown global index")),
            },
            WasmOperator::Unsupported(name) => Err(
                Error::Microwasm(String::from_str("Opcode unimplemented: ").concat(name.as_str())),
            ),
            _ => match OpSig::plain(op, self.pointer_type) {
                Some(sig) => Ok(sig),
                None => {
                    proof {
                        assert(!(*op is Unsupported));
                    }
                    Err(Error::microwasm("Opcode unimplemented"))
                },
            },
        }
    }

    /// The type of the local with index `local_index`.
    fn local_type(&self, local_index: u32) -> (ty: Option<SignlessType>)
        ensures
            ty == local_type(self@, local_index),
    {
        if self.control_frames.is_empty() {
            return None;
        }
        let locals = self.control_frames.function_block().arguments;
        if local_index < locals && (local_index as usize) < self.stack.len() {
            Some(self.stack[local_index as usize])
        } else {
            None
        }
    }

    /// Draws the number for a new structured block.
    fn next_id(&mut self) -> (id: Option<u32>)
        ensures
            final(self).same_function(old(self)),
            final(self).wf() == old(self).wf(),
            match next_id(old(self)@) {
                Some((n, s)) => id == Some(n) && final(self)@ == s,
                None => id is None && final(self)@ == old(self)@,
            },
    {
        if self.current_id < u32::MAX {
            let id = self.current_id;
            self.current_id += 1;
            Some(id)
        } else {
            None
        }
    }

    /// Applies the signature `sig` to the type stack. On an error the stack
    /// is left as it was.
    pub fn apply_op(&mut self, sig: &OpSig) -> (r: Result<(), Error>)
        requires
            old(self).wf(),
        ensures
            final(self).same_function(old(self)),
            final(self).wf(),
            match spec_apply(sig@, old(self)@.stack) {
                Ok(stack) => r is Ok && final(self)@ == (ConvState { stack, ..old(self)@ }),
                Err(failure) => r matches Err(e) && e.spec_failure() == failure && final(self)@
                    == old(self)@,
            },
    {
        proof {
            if spec_apply(sig@, self@.stack) is Ok {
                lemma_apply_len(sig@, self@.stack);
            }
        }
        apply(&mut self.stack, sig)
    }

    /// The types on the type stack, as the parameters of a block.
    fn block_params(&self) -> (p: Params)
        ensures
            p@ == self@.stack,
    {
        Params::new(copy_types(&self.stack))
    }
}

impl<'a> MicrowasmConv<'a> {
    /// Enters a structured block of type `ty`: draws its number and opens its
    /// frame. Gives the number and the types that the block after the
    /// structured block expects.
    fn enter(&mut self, ty: TypeOrFuncType, kind: ControlFrameKind) -> (r: Result<
        (u32, Vec<SignlessType>),
        Error,
    >)
        requires
            old(self).wf(),
        ensures
            final(self).same_function(old(self)),
            final(self).wf(),
            match enter(old(self).module(), old(self)@, ty, kind) {
                Ok((s, id, after)) => r matches Ok(v) && v.0 == id && v.1@ == after && final(self)@
                    == s,
                Err(failure) => r matches Err(e) && e.spec_failure() == failure,
            },
    {
        let id = match self.next_id() {
            Some(id) => id,
            None => {
                return Err(Error::microwasm("Too many blocks"));
            },
        };
        let (params, results) = match self.type_or_func_type_to_sig(ty) {
            Ok(sig) => sig,
            Err(e) => {
                return Err(e);
            },
        };
        if params.len() > self.stack.len() {
            return Err(Error::microwasm("Stack is empty"));
        }
        let keep = self.stack.len() - params.len();
        let mut after: Vec<SignlessType> = Vec::new();
        let mut i: usize = 0;
        while i < keep
            invariant
                i <= keep <= self.stack@.len(),
                after@ == self.stack@.take(i as int),
            decreases keep - i,
        {
            after.push(self.stack[i]);
            proof {
                assert(after@ =~= self.stack@.take(i as int + 1));
            }
            i += 1;
        }
        let mut j: usize = 0;
        while j < results.len()
            invariant
                j <= results.len(),
                after@ == self.stack@.take(keep as int) + results@.take(j as int),
            decreases results.len() - j,
        {
            after.push(results[j]);
            proof {
                assert(after@ =~= self.stack@.take(keep as int) + results@.take(j as int + 1));
            }
            j += 1;
        }
        proof {
            assert(results@.take(j as int) == results@);
        }
        let arguments = self.stack.len() as u32;
        self.control_frames.push(ControlFrame { id, arguments, returns: results, kind });
        Ok((id, after))
    }

    fn lower_else(&mut self) -> (r: Result<Vec<Operator<WasmLabel>>, Error>)
        requires
            old(self).wf(),
        ensures
            final(self).same_function(old(self)),
            final(self).wf(),
            lowered_as(r, final(self)@, lower_else(old(self)@)),
    {
        let (id, arguments, to_drop) = match self.control_frames.top() {
            Some(block) => (block.id, block.arguments, block.to_drop(self.stack.len())),
            None => {
                return Err(Error::microwasm("Block else Failed"));
            },
        };
        self.control_frames.mark_else();
        truncate_to(&mut self.stack, arguments);
        let mut ops = no_ops();
        push_drops(&mut ops, to_drop);
        push_jump(&mut ops, BrTarget::Label((id, NameTag::End)));
        push_start(&mut ops, (id, NameTag::Else));
        proof {
            assert(ops_view(ops@) =~= lower_else(old(self)@)->Ok_0.ops);
        }
        Ok(ops)
    }

    fn lower_end(&mut self) -> (r: Result<Vec<Operator<WasmLabel>>, Error>)
        requires
            old(self).wf(),
        ensures
            final(self).same_function(old(self)),
            final(self).wf(),
            lowered_as(r, final(self)@, lower_end(old(self)@)),
    {
        let block = match self.control_frames.pop() {
            Some(block) => block,
            None => {
                return Err(Error::microwasm("Block End Failed"));
            },
        };
        let to_drop = block.to_drop(self.stack.len());
        truncate_to(&mut self.stack, block.arguments);
        if block.returns.len() > u32::MAX as usize - self.stack.len() {
            return Err(Error::microwasm("Type stack too deep"));
        }
        let ghost cut = self.stack@;
        let mut i: usize = 0;
        while i < block.returns.len()
            invariant
                i <= block.returns.len(),
                cut.len() + block.returns@.len() <= u32::MAX,
                self.stack@ == cut + block.returns@.take(i as int),
                self.same_function(old(self)),
                self.control_frames@ == old(self)@.frames.drop_last(),
                self@ == (ConvState { stack: self.stack@, frames: self.control_frames@, ..old(self)@ }),
            decreases block.returns.len() - i,
        {
            self.stack.push(block.returns[i]);
            proof {
                assert(self.stack@ =~= cut + block.returns@.take(i as int + 1));
            }
            i += 1;
        }
        proof {
            assert(block.returns@.take(i as int) == block.returns@);
        }
        let else_ = (block.id, NameTag::Else);
        let end = (block.id, NameTag::End);
        let mut ops = no_ops();
        if block.kind == (ControlFrameKind::If { has_else: false }) {
            push_drops(&mut ops, to_drop);
            push_jump(&mut ops, BrTarget::Label(end));
            push_start(&mut ops, else_);
            push_jump(&mut ops, BrTarget::Label(end));
            push_start(&mut ops, end);
            proof {
                assert(ops_view(ops@) =~= drops(to_drop) + jump(BrTarget::Label(end)).push(
                    OperatorView::start(else_),
                ) + jump(BrTarget::Label(end)).push(OperatorView::start(end)));
            }
        } else if self.control_frames.is_empty() {
            self.is_done = true;
            push_jump(&mut ops, BrTarget::Return);
            proof {
                assert(ops_view(ops@) =~= lower_end(old(self)@)->Ok_0.ops);
            }
        } else if block.needs_end_label() {
            push_drops(&mut ops, to_drop);
            push_jump(&mut ops, BrTarget::Label(end));
            push_start(&mut ops, end);
            proof {
                assert(ops_view(ops@) =~= drops(to_drop) + jump(BrTarget::Label(end)).push(
                    OperatorView::start(end),
                ));
            }
        } else {
            push_drops(&mut ops, to_drop);
            proof {
                assert(ops_view(ops@) =~= lower_end(old(self)@)->Ok_0.ops);
            }
        }
        Ok(ops)
    }

    fn lower_br(&mut self, relative_depth: u32) -> (r: Result<Vec<Operator<WasmLabel>>, Error>)
        requires
            old(self).wf(),
        ensures
            final(self).same_function(old(self)),
            final(self).wf(),
            lowered_as(
                r,
                final(self)@,
                lower(old(self).module(), old(self)@, WasmOperator::Br { relative_depth }),
            ),
    {
        let (target, to_drop) = match self.control_frames.get(relative_depth as usize) {
            Some(frame) => (frame.br_target(), frame.to_drop(self.stack.len())),
            None => {
                return Err(Error::microwasm("Branch to a block that is not open"));
            },
        };
        self.unreachable = true;
        self.control_frames.mark_branched_to(relative_depth as usize);
        let mut ops = no_ops();
        push_drops(&mut ops, to_drop);
        push_jump(&mut ops, target);
        proof {
            assert(ops_view(ops@) =~= drops(to_drop) + jump(target));
        }
        Ok(ops)
    }

    fn lower_br_if(&mut self, relative_depth: u32) -> (r: Result<Vec<Operator<WasmLabel>>, Error>)
        requires
            old(self).wf(),
        ensures
            final(self).same_function(old(self)),
            final(self).wf(),
            lowered_as(
                r,
                final(self)@,
                lower(old(self).module(), old(self)@, WasmOperator::BrIf { relative_depth }),
            ),
    {
        let then = match self.control_frames.get(relative_depth as usize) {
            Some(frame) => BrTargetDrop {
                target: frame.br_target(),
                to_drop: frame.to_drop(self.stack.len()),
            },
            None => {
                return Err(Error::microwasm("Branch to a block that is not open"));
            },
        };
        let label = match self.next_id() {
            Some(id) => (id, NameTag::Header),
            None => {
                return Err(Error::microwasm("Too many blocks"));
            },
        };
        let params = self.block_params();
        self.control_frames.mark_branched_to(relative_depth as usize);
        let mut ops = no_ops();
        push_op(&mut ops, Operator::block(params, label));
        push_op(
            &mut ops,
            end_if(then, BrTargetDrop { target: BrTarget::Label(label), to_drop: None }),
        );
        push_start(&mut ops, label);
        proof {
            assert(ops_view(ops@) =~= lower(
                old(self).module(),
                old(self)@,
                WasmOperator::BrIf { relative_depth },
            )->Ok_0.ops);
        }
        Ok(ops)
    }

    fn lower_return(&mut self) -> (r: Result<Vec<Operator<WasmLabel>>, Error>)
        requires
            old(self).wf(),
        ensures
            final(self).same_function(old(self)),
            final(self).wf(),
            lowered_as(r, final(self)@, lower(old(self).module(), old(self)@, WasmOperator::Return)),
    {
        if self.control_frames.is_empty() {
            return Err(Error::microwasm("Return outside of a function"));
        }
        let block = self.control_frames.function_block();
        let target = block.br_target();
        let to_drop = block.to_drop(self.stack.len());
        self.unreachable = true;
        let mut ops = no_ops();
        push_drops(&mut ops, to_drop);
        push_jump(&mut ops, target);
        proof {
            assert(ops_view(ops@) =~= drops(to_drop) + jump(target));
        }
        Ok(ops)
    }
}

impl<'a> MicrowasmConv<'a> {
    fn lower_br_table(&mut self, table: &BrTable) -> (r: Result<Vec<Operator<WasmLabel>>, Error>)
        requires
            old(self).wf(),
            table.error is None,
        ensures
            final(self).same_function(old(self)),
            final(self).wf(),
            lowered_as(r, final(self)@, lower_br_table(old(self)@, table.targets@, table.default)),
    {
        let depth = self.control_frames.len();
        let len = self.stack.len();
        let n = table.targets.len();
        if table.default as usize >= depth {
            return Err(Error::microwasm("Branch to a block that is not open"));
        }
        let mut i: usize = 0;
        while i < n
            invariant
                i <= n,
                n == table.targets@.len(),
                depth == self.control_frames@.len(),
                self.wf(),
                self.same_function(old(self)),
                forall|j: int| 0 <= j < i ==> (#[trigger] table.targets@[j]) < depth,
            decreases n - i,
        {
            if table.targets[i] as usize >= depth {
                return Err(Error::microwasm("Branch to a block that is not open"));
            }
            i += 1;
        }
        let mut targets: Vec<BrTargetDrop<WasmLabel>> = Vec::new();
        let mut i: usize = 0;
        while i < n
            invariant
                i <= n,
                n == table.targets@.len(),
                len == self.stack@.len(),
                len <= u32::MAX,
                depth == self.control_frames@.len(),
                forall|j: int| 0 <= j < n ==> (#[trigger] table.targets@[j]) < depth,
                targets@.len() == i,
                forall|j: int|
                    0 <= j < i ==> (#[trigger] targets@[j]) == target_at(
                        self.control_frames@,
                        table.targets@[j],
                        len as nat,
                    ),
            decreases n - i,
        {
            match self.control_frames.get(table.targets[i] as usize) {
                Some(frame) => {
                    targets.push(
                        BrTargetDrop { target: frame.br_target(), to_drop: frame.to_drop(len) },
                    );
                },
                None => {},
            }
            i += 1;
        }
        let default = match self.control_frames.get(table.default as usize) {
            Some(frame) => BrTargetDrop { target: frame.br_target(), to_drop: frame.to_drop(len) },
            None => {
                return Err(Error::microwasm("Branch to a block that is not open"));
            },
        };
        let mut i: usize = 0;
        while i < n
            invariant
                i <= n,
                n == table.targets@.len(),
                depth == self.control_frames@.len(),
                depth == old(self)@.frames.len(),
                forall|j: int| 0 <= j < n ==> (#[trigger] table.targets@[j]) < depth,
                self.control_frames@ == marked(old(self)@.frames, table.targets@.take(i as int)),
                self.same_function(old(self)),
                self.wf(),
                self@ == (ConvState { frames: self.control_frames@, ..old(self)@ }),
            decreases n - i,
        {
            proof {
                assert(table.targets@.take(i as int + 1).drop_last() == table.targets@.take(i as int));
            }
            self.control_frames.mark_branched_to(table.targets[i] as usize);
            i += 1;
        }
        proof {
            assert(table.targets@.take(n as int) == table.targets@);
            assert(table.targets@.push(table.default).drop_last() == table.targets@);
        }
        self.control_frames.mark_branched_to(table.default as usize);
        self.unreachable = true;
        let mut ops = no_ops();
        let ghost expected = TargetsView {
            targets: Seq::new(
                table.targets@.len(),
                |i: int| target_at(old(self)@.frames, table.targets@[i], old(self)@.stack.len()),
            ),
            default: target_at(old(self)@.frames, table.default, old(self)@.stack.len()),
        };
        proof {
            assert(targets@ =~= expected.targets);
        }
        push_op(&mut ops, Operator::End(Targets { targets, default }));
        proof {
            assert(ops_view(ops@) =~= seq![OperatorView::End(expected)]);
        }
        Ok(ops)
    }

    /// Lowers `op` in a reachable place, once its signature has been applied
    /// to the type stack.
    fn lower(&mut self, op: &WasmOperator) -> (r: Result<Vec<Operator<WasmLabel>>, Error>)
        requires
            old(self).wf(),
        ensures
            final(self).same_function(old(self)),
            final(self).wf(),
            lowered_as(r, final(self)@, lower(old(self).module(), old(self)@, *op)),
    {
        match op {
            WasmOperator::Unreachable => {
                self.unreachable = true;
                let mut ops = no_ops();
                push_plain(&mut ops, Operator::Unreachable);
                proof {
                    assert(ops_view(ops@) =~= seq![OperatorView::Plain(Operator::Unreachable)]);
                }
                Ok(ops)
            },
            WasmOperator::Nop => {
                let ops = no_ops();
                proof {
                    assert(ops_view(ops@) =~= seq![]);
                }
                Ok(ops)
            },
            WasmOperator::Block { ty } => {
                let (id, after) = match self.enter(
                    *ty,
                    ControlFrameKind::Block { needs_end_label: false },
                ) {
                    Ok(entered) => entered,
                    Err(e) => {
                        return Err(e);
                    },
                };
                let mut ops = no_ops();
                push_op(&mut ops, Operator::end_wasm_block(Params::new(after), (id, NameTag::End)));
                proof {
                    assert(ops_view(ops@) =~= seq![
                        OperatorView::end_wasm_block(after@, (id, NameTag::End)),
                    ]);
                }
                Ok(ops)
            },
            WasmOperator::Loop { ty } => {
                let (id, after) = match self.enter(*ty, ControlFrameKind::Loop) {
                    Ok(entered) => entered,
                    Err(e) => {
                        return Err(e);
                    },
                };
                let label = (id, NameTag::Header);
                let mut ops = no_ops();
                push_op(&mut ops, Operator::loop_(self.block_params(), label));
                push_op(&mut ops, Operator::end_wasm_block(Params::new(after), (id, NameTag::End)));
                push_jump(&mut ops, BrTarget::Label(label));
                push_start(&mut ops, label);
                proof {
                    assert(ops_view(ops@) =~= seq![
                        OperatorView::loop_(self@.stack, label),
                        OperatorView::end_wasm_block(after@, (id, NameTag::End)),
                        OperatorView::zero(),
                        OperatorView::end_to(BrTarget::Label(label)),
                        OperatorView::start(label),
                    ]);
                }
                Ok(ops)
            },
            WasmOperator::If { ty } => {
                let (id, after) = match self.enter(*ty, ControlFrameKind::If { has_else: false }) {
                    Ok(entered) => entered,
                    Err(e) => {
                        return Err(e);
                    },
                };
                let then = (id, NameTag::Header);
                let else_ = (id, NameTag::Else);
                let end = (id, NameTag::End);
                let mut ops = no_ops();
                push_op(&mut ops, Operator::block(self.block_params(), then));
                push_op(&mut ops, Operator::block(self.block_params(), else_));
                push_op(&mut ops, Operator::end_wasm_block(Params::new(after), end));
                let branch = end_if(
                    BrTargetDrop { target: BrTarget::Label(then), to_drop: None },
                    BrTargetDrop { target: BrTarget::Label(else_), to_drop: None },
                );
                let ghost branch_view = branch@;
                push_op(&mut ops, branch);
                push_start(&mut ops, then);
                proof {
                    assert(ops_view(ops@) =~= seq![
                        OperatorView::block(self@.stack, then),
                        OperatorView::block(self@.stack, else_),
                        OperatorView::end_wasm_block(after@, end),
                        branch_view,
                        OperatorView::start(then),
                    ]);
                }
                Ok(ops)
            },
            WasmOperator::Else => self.lower_else(),
            WasmOperator::End => self.lower_end(),
            WasmOperator::Br { relative_depth } => self.lower_br(*relative_depth),
            WasmOperator::BrIf { relative_depth } => self.lower_br_if(*relative_depth),
            WasmOperator::BrTable { table } => match &table.error {
                Some(e) => Err(e.duplicate()),
                None => self.lower_br_table(table),
            },
            WasmOperator::Return => self.lower_return(),
            WasmOperator::LocalGet { local_index } => {
                let len = self.stack.len();
                if len < 2 || *local_index as usize > len - 2 {
                    return Err(Error::microwasm("LocalGet - Local out of range"));
                }
                let depth = (len - 2 - *local_index as usize) as u32;
                let mut ops = no_ops();
                push_plain(&mut ops, Operator::Pick(depth));
                proof {
                    assert(ops_view(ops@) =~= seq![OperatorView::Plain(Operator::Pick(depth))]);
                }
                Ok(ops)
            },
            WasmOperator::LocalSet { local_index } => {
                let len = self.stack.len();
                if *local_index as usize > len {
                    return Err(Error::microwasm("LocalSet - Local out of range"));
                }
                let depth = (len - *local_index as usize) as u32;
                let mut ops = no_ops();
                push_plain(&mut ops, Operator::Swap(depth));
                push_plain(&mut ops, Operator::Drop(DropRange { start: 0, end: 0 }));
                proof {
                    assert(ops_view(ops@) =~= seq![
                        OperatorView::Plain(Operator::Swap(depth)),
                        OperatorView::Plain(Operator::Drop(DropRange { start: 0, end: 0 })),
                    ]);
                }
                Ok(ops)
            },
            WasmOperator::LocalTee { local_index } => {
                let len = self.stack.len();
                if *local_index as usize > len {
                    return Err(Error::microwasm("LocalTee - Local out of range"));
                }
                let depth = (len - *local_index as usize) as u32;
                let mut ops = no_ops();
                push_plain(&mut ops, Operator::Pick(0));
                push_plain(&mut ops, Operator::Swap(depth));
                push_plain(&mut ops, Operator::Drop(DropRange { start: 0, end: 0 }));
                proof {
                    assert(ops_view(ops@) =~= seq![
                        OperatorView::Plain(Operator::Pick(0)),
                        OperatorView::Plain(Operator::Swap(depth)),
                        OperatorView::Plain(Operator::Drop(DropRange { start: 0, end: 0 })),
                    ]);
                }
                Ok(ops)
            },
            _ => match plain(op) {
                Some(lowered) => {
                    let mut ops = no_ops();
                    let ghost lowered_op = lowered;
                    push_plain(&mut ops, lowered);
                    proof {
                        assert(ops_view(ops@) =~= seq![OperatorView::Plain(lowered_op)]);
                    }
                    Ok(ops)
                },
                None => Err(Error::microwasm("Opcode unimplemented")),
            },
        }
    }

    /// Lowers one Wasm operator in a reachable place: finds its signature,
    /// applies it to the type stack and emits the operators of the flat form
    /// that stand for it. After an error nothing is promised of the state but
    /// that it is well-formed.
    pub fn step(&mut self, op: &WasmOperator) -> (r: Result<Vec<Operator<WasmLabel>>, Error>)
        requires
            old(self).wf(),
        ensures
            final(self).same_function(old(self)),
            final(self).wf(),
            lowered_as(
                r,
                final(self)@,
                step(old(self).module(), old(self).pointer_type(), old(self)@, *op),
            ),
    {
        let sig = match self.op_sig(op) {
            Ok(sig) => sig,
            Err(e) => {
                return Err(e);
            },
        };
        match self.apply_op(&sig) {
            Ok(()) => {},
            Err(e) => {
                return Err(e);
            },
        }
        self.lower(op)
    }
}

/// What skipping did with one operator.
enum Skip {
    /// The operator was skipped; the nesting depth is now this.
    Deeper(usize),
    /// The unreachable region has ended with these operators.
    Resumed(Vec<Operator<WasmLabel>>),
}

impl<'a> MicrowasmConv<'a> {
    /// Takes one operator of an unreachable region, `depth` structured blocks
    /// deep inside the region.
    fn skip_one(&mut self, depth: usize, op: &WasmOperator) -> (r: Result<Skip, Error>)
        requires
            old(self).wf(),
            depth < usize::MAX,
        ensures
            final(self).same_function(old(self)),
            final(self).wf(),
            match skip_one(old(self)@, depth as nat, *op) {
                Skipped::Deeper(d) => r matches Ok(Skip::Deeper(n)) && n == d && final(self)@ == old(
                    self,
                )@,
                Skipped::Resumed(lowered) => r matches Ok(Skip::Resumed(ops)) && ops_view(ops@)
                    == lowered.ops && final(self)@ == lowered.state,
                Skipped::Failed(failure) => r matches Err(e) && e.spec_failure() == failure,
            },
    {
        match op {
            WasmOperator::Block { .. } | WasmOperator::Loop { .. } | WasmOperator::If { .. } => Ok(
                Skip::Deeper(depth + 1),
            ),
            WasmOperator::Else => {
                if depth > 0 {
                    return Ok(Skip::Deeper(depth));
                }
                let (id, arguments) = match self.control_frames.top() {
                    Some(block) => (block.id, block.arguments),
                    None => {
                        return Err(Error::microwasm("unreachable Block else Failed"));
                    },
                };
                truncate_to(&mut self.stack, arguments);
                self.control_frames.mark_else();
                let mut ops = no_ops();
                push_start(&mut ops, (id, NameTag::Else));
                proof {
                    assert(ops_view(ops@) =~= seq![OperatorView::start((id, NameTag::Else))]);
                }
                Ok(Skip::Resumed(ops))
            },
            WasmOperator::End => {
                if depth > 0 {
                    return Ok(Skip::Deeper(depth - 1));
                }
                let block = match self.control_frames.pop() {
                    Some(block) => block,
                    None => {
                        return Err(Error::microwasm("unreachable Block end Failed"));
                    },
                };
                if self.control_frames.is_empty() {
                    self.is_done = true;
                    let ops = no_ops();
                    proof {
                        assert(ops_view(ops@) =~= seq![]);
                    }
                    return Ok(Skip::Resumed(ops));
                }
                truncate_to(&mut self.stack, block.arguments);
                if block.returns.len() > u32::MAX as usize - self.stack.len() {
                    return Err(Error::microwasm("Type stack too deep"));
                }
                let ghost cut = self.stack@;
                let mut i: usize = 0;
                while i < block.returns.len()
                    invariant
                        i <= block.returns.len(),
                        cut.len() + block.returns@.len() <= u32::MAX,
                        self.stack@ == cut + block.returns@.take(i as int),
                        self.same_function(old(self)),
                        self.control_frames@ == old(self)@.frames.drop_last(),
                        self@ == (ConvState {
                            stack: self.stack@,
                            frames: self.control_frames@,
                            ..old(self)@
                        }),
                    decreases block.returns.len() - i,
                {
                    self.stack.push(block.returns[i]);
                    proof {
                        assert(self.stack@ =~= cut + block.returns@.take(i as int + 1));
                    }
                    i += 1;
                }
                proof {
                    assert(block.returns@.take(i as int) == block.returns@);
                }
                let else_ = (block.id, NameTag::Else);
                let end = (block.id, NameTag::End);
                let mut ops = no_ops();
                if block.kind == (ControlFrameKind::If { has_else: false }) {
                    push_start(&mut ops, else_);
                    push_jump(&mut ops, BrTarget::Label(end));
                    push_start(&mut ops, end);
                    proof {
                        assert(ops_view(ops@) =~= seq![OperatorView::start(else_)] + jump(
                            BrTarget::Label(end),
                        ).push(OperatorView::start(end)));
                    }
                } else {
                    push_start(&mut ops, end);
                    proof {
                        assert(ops_view(ops@) =~= seq![OperatorView::start(end)]);
                    }
                }
                Ok(Skip::Resumed(ops))
            },
            _ => Ok(Skip::Deeper(depth)),
        }
    }
}

impl<'a> MicrowasmConv<'a> {
    /// Skips an unreachable region of `operators`, from the present position.
    fn skip(&mut self, operators: &Vec<WithLoc<WasmOperator>>) -> (r: Result<
        Option<Vec<WithLoc<Operator<WasmLabel>>>>,
        Error,
    >)
        requires
            old(self).wf(),
        ensures
            final(self).same_function(old(self)),
            final(self).wf(),
            next_as(r, final(self)@, skip(operators@, old(self).end(), old(self)@, 0)),
    {
        let mut depth: usize = 0;
        loop
            invariant
                self.wf(),
                self.same_function(old(self)),
                depth <= self.position,
                skip(operators@, old(self).end(), old(self)@, 0) == skip(
                    operators@,
                    old(self).end(),
                    self@,
                    depth as nat,
                ),
            decreases operators.len() - self.position,
        {
            if self.is_done {
                return Ok(None);
            }
            if self.position >= operators.len() {
                return Err(self.operators_error.duplicate());
            }
            let read = &operators[self.position];
            self.position += 1;
            match self.skip_one(depth, &read.op) {
                Ok(Skip::Deeper(d)) => {
                    depth = d;
                },
                Ok(Skip::Resumed(ops)) => {
                    return Ok(Some(with_loc(ops, read.offset)));
                },
                Err(e) => {
                    return Err(e);
                },
            }
        }
    }

    /// The next batch of operators of the flat form: first the zeroes of the
    /// declared locals, then what each Wasm operator lowers to, and `None`
    /// once the function has been lowered to its end. Operators that cannot
    /// be reached are skipped. After an error nothing is promised of the
    /// state but that it is well-formed.
    pub fn next(&mut self) -> (r: Result<Option<Vec<WithLoc<Operator<WasmLabel>>>>, Error>)
        requires
            old(self).wf(),
        ensures
            final(self).same_function(old(self)),
            final(self).wf(),
            next_as(
                r,
                final(self)@,
                next(
                    old(self).module(),
                    old(self).pointer_type(),
                    old(self).operators(),
                    old(self).end(),
                    old(self)@,
                ),
            ),
    {
        if let Some(consts) = self.consts_to_emit.take() {
            let mut ops = no_ops();
            let mut i: usize = 0;
            while i < consts.len()
                invariant
                    i <= consts.len(),
                    ops_view(ops@) == const_ops(consts@.take(i as int)),
                decreases consts.len() - i,
            {
                let ghost before = ops_view(ops@);
                push_plain(&mut ops, Operator::Const(consts[i]));
                proof {
                    assert(ops_view(ops@) =~= const_ops(consts@.take(i as int + 1)));
                }
                i += 1;
            }
            proof {
                assert(consts@.take(i as int) == consts@);
            }
            return Ok(Some(with_loc(ops, SourceLoc(u32::MAX))));
        }
        if self.unreachable {
            self.unreachable = false;
            let mut operators: Vec<WithLoc<WasmOperator>> = Vec::new();
            core::mem::swap(&mut self.operators, &mut operators);
            let r = self.skip(&operators);
            core::mem::swap(&mut self.operators, &mut operators);
            return r;
        }
        if self.is_done {
            return Ok(None);
        }
        if self.position >= self.operators.len() {
            return Err(self.operators_error.duplicate());
        }
        let mut operators: Vec<WithLoc<WasmOperator>> = Vec::new();
        core::mem::swap(&mut self.operators, &mut operators);
        let read = &operators[self.position];
        self.position += 1;
        let r = self.step(&read.op);
        let offset = read.offset;
        core::mem::swap(&mut self.operators, &mut operators);
        match r {
            Ok(ops) => Ok(Some(with_loc(ops, offset))),
            Err(e) => Err(e),
        }
    }
}

} // verus!
