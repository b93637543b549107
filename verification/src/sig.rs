//! The type signatures of operators, and how a signature acts on the type stack.

use crate::error::{Error, Failure};
use crate::module::Signature;
use crate::types::{SignlessType, Size, Type};
use crate::wasm::WasmOperator;
use vstd::prelude::*;
use vstd::string::StringExecFns;

verus! {

/// One place of a signature: the type variable, or a ground type.
#[derive(Debug, Copy, Clone, PartialEq, Eq, Structural)]
pub enum SigT {
    T,
    Concrete(SignlessType),
}

impl From<SignlessType> for SigT {
    fn from(other: SignlessType) -> (s: SigT) {
        SigT::Concrete(other)
    }
}

impl vstd::std_specs::convert::FromSpecImpl<SignlessType> for SigT {
    open spec fn obeys_from_spec() -> bool {
        true
    }

    open spec fn from_spec(other: SignlessType) -> Self {
        SigT::Concrete(other)
    }
}

/// What an operator pops and what it pushes. The last input is the top of the
/// stack; the first output ends up on top.
#[derive(Debug)]
pub struct OpSig {
    pub input: Vec<SigT>,
    pub output: Vec<SigT>,
}

/// A signature with its places as sequences.
pub struct OpSigView {
    pub input: Seq<SigT>,
    pub output: Seq<SigT>,
}

impl View for OpSig {
    type V = OpSigView;

    open spec fn view(&self) -> OpSigView {
        OpSigView { input: self.input@, output: self.output@ }
    }
}

/// Ground types as places of a signature.
pub open spec fn concrete(types: Seq<SignlessType>) -> Seq<SigT> {
    types.map_values(|t: SignlessType| SigT::Concrete(t))
}

/// The signature that pops nothing and pushes nothing.
pub open spec fn sig_0_0() -> OpSigView {
    OpSigView { input: seq![], output: seq![] }
}

/// The signature that pushes `o`.
pub open spec fn sig_0_1(o: SigT) -> OpSigView {
    OpSigView { input: seq![], output: seq![o] }
}

/// The signature that pops `a`.
pub open spec fn sig_1_0(a: SigT) -> OpSigView {
    OpSigView { input: seq![a], output: seq![] }
}

/// The signature that pops `a` and pushes `o`.
pub open spec fn sig_1_1(a: SigT, o: SigT) -> OpSigView {
    OpSigView { input: seq![a], output: seq![o] }
}

/// The signature that pops `a` and `b`, `b` from the top.
pub open spec fn sig_2_0(a: SigT, b: SigT) -> OpSigView {
    OpSigView { input: seq![a, b], output: seq![] }
}

/// The signature that pops `a` and `b`, `b` from the top, and pushes `o`.
pub open spec fn sig_2_1(a: SigT, b: SigT, o: SigT) -> OpSigView {
    OpSigView { input: seq![a, b], output: seq![o] }
}

/// The signature that pops `a`, `b` and `c`, `c` from the top, and pushes `o`.
pub open spec fn sig_3_1(a: SigT, b: SigT, c: SigT, o: SigT) -> OpSigView {
    OpSigView { input: seq![a, b, c], output: seq![o] }
}

/// The signature of a call of a function of type `sig`: the parameters in
/// their order, and the results with the last on top.
pub open spec fn call_sig(sig: Signature) -> OpSigView {
    OpSigView { input: concrete(sig.params@), output: concrete(sig.returns@).reverse() }
}

/// The signature of an indirect call: that of a call, with the table index on top.
pub open spec fn call_indirect_sig(sig: Signature) -> OpSigView {
    OpSigView {
        input: concrete(sig.params@).push(SigT::Concrete(Type::Int(Size::_32))),
        output: concrete(sig.returns@).reverse(),
    }
}

/// The signature that passes `types` through unchanged.
pub open spec fn pass_sig(types: Seq<SignlessType>) -> OpSigView {
    OpSigView { input: concrete(types), output: concrete(types) }
}

/// The signature of an operator whose signature depends on nothing but the
/// pointer type `pointer_type`; `None` for every other operator.
pub open spec fn spec_plain_sig(op: WasmOperator, pointer_type: SignlessType) -> Option<OpSigView> {
    let i32_ = SigT::Concrete(Type::Int(Size::_32));
    let i64_ = SigT::Concrete(Type::Int(Size::_64));
    let f32_ = SigT::Concrete(Type::Float(Size::_32));
    let f64_ = SigT::Concrete(Type::Float(Size::_64));
    let ptr = SigT::Concrete(pointer_type);
    match op {
        WasmOperator::Drop => Some(sig_1_0(SigT::T)),
        WasmOperator::Select => Some(sig_3_1(SigT::T, SigT::T, i32_, SigT::T)),
        WasmOperator::I32Load { .. }
        | WasmOperator::I32Load8S { .. }
        | WasmOperator::I32Load8U { .. }
        | WasmOperator::I32Load16S { .. }
        | WasmOperator::I32Load16U { .. } => Some(sig_1_1(ptr, i32_)),
        WasmOperator::I64Load { .. }
        | WasmOperator::I64Load8S { .. }
        | WasmOperator::I64Load8U { .. }
        | WasmOperator::I64Load16S { .. }
        | WasmOperator::I64Load16U { .. }
        | WasmOperator::I64Load32S { .. }
        | WasmOperator::I64Load32U { .. } => Some(sig_1_1(ptr, i64_)),
        WasmOperator::F32Load { .. } => Some(sig_1_1(ptr, f32_)),
        WasmOperator::F64Load { .. } => Some(sig_1_1(ptr, f64_)),
        WasmOperator::I32Store { .. }
        | WasmOperator::I32Store8 { .. }
        | WasmOperator::I32Store16 { .. } => Some(sig_2_0(ptr, i32_)),
        WasmOperator::I64Store { .. }
        | WasmOperator::I64Store8 { .. }
        | WasmOperator::I64Store16 { .. }
        | WasmOperator::I64Store32 { .. } => Some(sig_2_0(ptr, i64_)),
        WasmOperator::F32Store { .. } => Some(sig_2_0(ptr, f32_)),
        WasmOperator::F64Store { .. } => Some(sig_2_0(ptr, f64_)),
        WasmOperator::MemorySize { .. } => Some(sig_0_1(ptr)),
        WasmOperator::MemoryGrow { .. } => Some(sig_1_1(ptr, ptr)),
        WasmOperator::I32Const { .. } => Some(sig_0_1(i32_)),
        WasmOperator::I64Const { .. } => Some(sig_0_1(i64_)),
        WasmOperator::F32Const { .. } => Some(sig_0_1(f32_)),
        WasmOperator::F64Const { .. } => Some(sig_0_1(f64_)),
        WasmOperator::I32Eqz
        | WasmOperator::I32Clz
        | WasmOperator::I32Ctz
        | WasmOperator::I32Popcnt
        | WasmOperator::I32Extend8S
        | WasmOperator::I32Extend16S => Some(sig_1_1(i32_, i32_)),
        WasmOperator::I32Eq
        | WasmOperator::I32Ne
        | WasmOperator::I32LtS
        | WasmOperator::I32LtU
        | WasmOperator::I32GtS
        | WasmOperator::I32GtU
        | WasmOperator::I32LeS
        | WasmOperator::I32LeU
        | WasmOperator::I32GeS
        | WasmOperator::I32GeU
        | WasmOperator::I32Add
        | WasmOperator::I32Sub
        | WasmOperator::I32Mul
        | WasmOperator::I32DivS
        | WasmOperator::I32DivU
        | WasmOperator::I32RemS
        | WasmOperator::I32RemU
        | WasmOperator::I32And
        | WasmOperator::I32Or
        | WasmOperator::I32Xor
        | WasmOperator::I32Shl
        | WasmOperator::I32ShrS
        | WasmOperator::I32ShrU
        | WasmOperator::I32Rotl
        | WasmOperator::I32Rotr => Some(sig_2_1(i32_, i32_, i32_)),
        WasmOperator::I64Eqz
        | WasmOperator::I32WrapI64 => Some(sig_1_1(i64_, i32_)),
        WasmOperator::I64Eq
        | WasmOperator::I64Ne
        | WasmOperator::I64LtS
        | WasmOperator::I64LtU
        | WasmOperator::I64GtS
        | WasmOperator::I64GtU
        | WasmOperator::I64LeS
        | WasmOperator::I64LeU
        | WasmOperator::I64GeS
        | WasmOperator::I64GeU => Some(sig_2_1(i64_, i64_, i32_)),
        WasmOperator::F32Eq
        | WasmOperator::F32Ne
        | WasmOperator::F32Lt
        | WasmOperator::F32Gt
        | WasmOperator::F32Le
        | WasmOperator::F32Ge => Some(sig_2_1(f32_, f32_, i32_)),
        WasmOperator::F64Eq
        | WasmOperator::F64Ne
        | WasmOperator::F64Lt
        | WasmOperator::F64Gt
        | WasmOperator::F64Le
        | WasmOperator::F64Ge => Some(sig_2_1(f64_, f64_, i32_)),
        WasmOperator::I64Clz
        | WasmOperator::I64Ctz
        | WasmOperator::I64Popcnt
        | WasmOperator::I64Extend8S
        | WasmOperator::I64Extend16S
        | WasmOperator::I64Extend32S => Some(sig_1_1(i64_, i64_)),
        WasmOperator::I64Add
        | WasmOperator::I64Sub
        | WasmOperator::I64Mul
        | WasmOperator::I64DivS
        | WasmOperator::I64DivU
        | WasmOperator::I64RemS
        | WasmOperator::I64RemU
        | WasmOperator::I64And
        | WasmOperator::I64Or
        | WasmOperator::I64Xor
        | WasmOperator::I64Shl
        | WasmOperator::I64ShrS
        | WasmOperator::I64ShrU
        | WasmOperator::I64Rotl
        | WasmOperator::I64Rotr => Some(sig_2_1(i64_, i64_, i64_)),
        WasmOperator::F32Abs
        | WasmOperator::F32Neg
        | WasmOperator::F32Ceil
        | WasmOperator::F32Floor
        | WasmOperator::F32Trunc
        | WasmOperator::F32Nearest
        | WasmOperator::F32Sqrt => Some(sig_1_1(f32_, f32_)),
        WasmOperator::F32Add
        | WasmOperator::F32Sub
        | WasmOperator::F32Mul
        | WasmOperator::F32Div
        | WasmOperator::F32Min
        | WasmOperator::F32Max
        | WasmOperator::F32Copysign => Some(sig_2_1(f32_, f32_, f32_)),
        WasmOperator::F64Abs
        | WasmOperator::F64Neg
        | WasmOperator::F64Ceil
        | WasmOperator::F64Floor
        | WasmOperator::F64Trunc
        | WasmOperator::F64Nearest
        | WasmOperator::F64Sqrt => Some(sig_1_1(f64_, f64_)),
        WasmOperator::F64Add
        | WasmOperator::F64Sub
        | WasmOperator::F64Mul
        | WasmOperator::F64Div
        | WasmOperator::F64Min
        | WasmOperator::F64Max
        | WasmOperator::F64Copysign => Some(sig_2_1(f64_, f64_, f64_)),
        WasmOperator::I32TruncF32S
        | WasmOperator::I32TruncF32U
        | WasmOperator::I32ReinterpretF32 => Some(sig_1_1(f32_, i32_)),
        WasmOperator::I32TruncF64S
        | WasmOperator::I32TruncF64U => Some(sig_1_1(f64_, i32_)),
        WasmOperator::I64ExtendI32S
        | WasmOperator::I64ExtendI32U => Some(sig_1_1(i32_, i64_)),
        WasmOperator::I64TruncF32S
        | WasmOperator::I64TruncF32U => Some(sig_1_1(f32_, i64_)),
        WasmOperator::I64TruncF64S
        | WasmOperator::I64TruncF64U
        | WasmOperator::I64ReinterpretF64 => Some(sig_1_1(f64_, i64_)),
        WasmOperator::F32ConvertI32S
        | WasmOperator::F32ConvertI32U
        | WasmOperator::F32ReinterpretI32 => Some(sig_1_1(i32_, f32_)),
        WasmOperator::F32ConvertI64S
        | WasmOperator::F32ConvertI64U => Some(sig_1_1(i64_, f32_)),
        WasmOperator::F32DemoteF64 => Some(sig_1_1(f64_, f32_)),
        WasmOperator::F64ConvertI32S
        | WasmOperator::F64ConvertI32U => Some(sig_1_1(i32_, f64_)),
        WasmOperator::F64ConvertI64S
        | WasmOperator::F64ConvertI64U
        | WasmOperator::F64ReinterpretI64 => Some(sig_1_1(i64_, f64_)),
        WasmOperator::F64PromoteF32 => Some(sig_1_1(f32_, f64_)),
        _ => None,
    }
}

/// Ground types as places of a signature.
pub fn concrete_of(types: &Vec<SignlessType>) -> (out: Vec<SigT>)
    ensures
        out@ == concrete(types@),
{
    let mut out: Vec<SigT> = Vec::new();
    let mut i: usize = 0;
    while i < types.len()
        invariant
            i <= types.len(),
            out@ == concrete(types@.take(i as int)),
        decreases types.len() - i,
    {
        out.push(SigT::Concrete(types[i]));
        proof {
            assert(types@.take(i as int + 1) == types@.take(i as int).push(types@[i as int]));
            assert(out@ =~= concrete(types@.take(i as int + 1)));
        }
        i += 1;
    }
    proof {
        assert(types@.take(i as int) == types@);
    }
    out
}

/// The places of `places` in the opposite order.
pub fn reversed(places: &Vec<SigT>) -> (out: Vec<SigT>)
    ensures
        out@ == places@.reverse(),
{
    let mut out: Vec<SigT> = Vec::new();
    let n = places.len();
    let mut i: usize = 0;
    while i < n
        invariant
            n == places.len(),
            i <= n,
            out@.len() == i,
            forall|j: int| 0 <= j < i ==> out@[j] == places@[n - 1 - j],
        decreases n - i,
    {
        out.push(places[n - 1 - i]);
        i += 1;
    }
    proof {
        assert(out@ =~= places@.reverse());
    }
    out
}

impl OpSig {
    /// The signature with these inputs and outputs.
    pub fn new(input: Vec<SigT>, output: Vec<SigT>) -> (sig: Self)
        ensures
            sig@ == (OpSigView { input: input@, output: output@ }),
    {
        OpSig { input, output }
    }

    /// The signature that pops nothing and pushes nothing.
    pub fn none() -> (sig: Self)
        ensures
            sig@ == sig_0_0(),
    {
        let sig = OpSig { input: Vec::new(), output: Vec::new() };
        proof {
            assert(sig@.input =~= seq![]);
            assert(sig@.output =~= seq![]);
        }
        sig
    }

    /// The signature with the parameters of `other` as inputs and its results
    /// as outputs, both in their order.
    pub fn from(other: &Signature) -> (sig: Self)
        ensures
            sig@ == (OpSigView { input: concrete(other.params@), output: concrete(other.returns@) }),
    {
        OpSig { input: concrete_of(&other.params), output: concrete_of(&other.returns) }
    }

    /// The signature of a call of a function of type `other`.
    pub fn call(other: &Signature) -> (sig: Self)
        ensures
            sig@ == call_sig(*other),
    {
        let outputs = concrete_of(&other.returns);
        OpSig { input: concrete_of(&other.params), output: reversed(&outputs) }
    }

    /// The signature of an indirect call of a function of type `other`.
    pub fn call_indirect(other: &Signature) -> (sig: Self)
        ensures
            sig@ == call_indirect_sig(*other),
    {
        let outputs = concrete_of(&other.returns);
        let mut input = concrete_of(&other.params);
        input.push(SigT::Concrete(Type::Int(Size::_32)));
        OpSig { input, output: reversed(&outputs) }
    }

    /// The signature that passes `types` through unchanged.
    pub fn pass(types: &Vec<SignlessType>) -> (sig: Self)
        ensures
            sig@ == pass_sig(types@),
    {
        OpSig { input: concrete_of(types), output: concrete_of(types) }
    }

    fn of_0_1(o: SigT) -> (sig: Self)
        ensures
            sig@ == sig_0_1(o),
    {
        let mut output: Vec<SigT> = Vec::new();
        output.push(o);
        let sig = OpSig { input: Vec::new(), output };
        proof {
            assert(sig@.input =~= seq![]);
            assert(sig@.output =~= seq![o]);
        }
        sig
    }

    fn of_1_0(a: SigT) -> (sig: Self)
        ensures
            sig@ == sig_1_0(a),
    {
        let mut input: Vec<SigT> = Vec::new();
        input.push(a);
        let sig = OpSig { input, output: Vec::new() };
        proof {
            assert(sig@.input =~= seq![a]);
            assert(sig@.output =~= seq![]);
        }
        sig
    }

    fn of_1_1(a: SigT, o: SigT) -> (sig: Self)
        ensures
            sig@ == sig_1_1(a, o),
    {
        let mut input: Vec<SigT> = Vec::new();
        input.push(a);
        let mut output: Vec<SigT> = Vec::new();
        output.push(o);
        let sig = OpSig { input, output };
        proof {
            assert(sig@.input =~= seq![a]);
            assert(sig@.output =~= seq![o]);
        }
        sig
    }

    fn of_2_0(a: SigT, b: SigT) -> (sig: Self)
        ensures
            sig@ == sig_2_0(a, b),
    {
        let mut input: Vec<SigT> = Vec::new();
        input.push(a);
        input.push(b);
        let sig = OpSig { input, output: Vec::new() };
        proof {
            assert(sig@.input =~= seq![a, b]);
            assert(sig@.output =~= seq![]);
        }
        sig
    }

    fn of_2_1(a: SigT, b: SigT, o: SigT) -> (sig: Self)
        ensures
            sig@ == sig_2_1(a, b, o),
    {
        let mut input: Vec<SigT> = Vec::new();
        input.push(a);
        input.push(b);
        let mut output: Vec<SigT> = Vec::new();
        output.push(o);
        let sig = OpSig { input, output };
        proof {
            assert(sig@.input =~= seq![a, b]);
            assert(sig@.output =~= seq![o]);
        }
        sig
    }

    fn of_3_1(a: SigT, b: SigT, c: SigT, o: SigT) -> (sig: Self)
        ensures
            sig@ == sig_3_1(a, b, c, o),
    {
        let mut input: Vec<SigT> = Vec::new();
        input.push(a);
        input.push(b);
        input.push(c);
        let mut output: Vec<SigT> = Vec::new();
        output.push(o);
        let sig = OpSig { input, output };
        proof {
            assert(sig@.input =~= seq![a, b, c]);
            assert(sig@.output =~= seq![o]);
        }
        sig
    }

    /// The signature of an operator whose signature depends on nothing but
    /// the pointer type; `None` for every other operator.
    pub fn plain(op: &WasmOperator, pointer_type: SignlessType) -> (sig: Option<Self>)
        ensures
            match spec_plain_sig(*op, pointer_type) {
                Some(s) => sig matches Some(r) && r@ == s,
                None => sig is None,
            },
    {
        let i32_ = SigT::Concrete(Type::Int(Size::_32));
        let i64_ = SigT::Concrete(Type::Int(Size::_64));
        let f32_ = SigT::Concrete(Type::Float(Size::_32));
        let f64_ = SigT::Concrete(Type::Float(Size::_64));
        let ptr = SigT::Concrete(pointer_type);
        match op {
            WasmOperator::Drop => Some(OpSig::of_1_0(SigT::T)),
            WasmOperator::Select => Some(OpSig::of_3_1(SigT::T, SigT::T, i32_, SigT::T)),
            WasmOperator::I32Load { .. }
            | WasmOperator::I32Load8S { .. }
            | WasmOperator::I32Load8U { .. }
            | WasmOperator::I32Load16S { .. }
            | WasmOperator::I32Load16U { .. } => Some(OpSig::of_1_1(ptr, i32_)),
            WasmOperator::I64Load { .. }
            | WasmOperator::I64Load8S { .. }
            | WasmOperator::I64Load8U { .. }
            | WasmOperator::I64Load16S { .. }
            | WasmOperator::I64Load16U { .. }
            | WasmOperator::I64Load32S { .. }
            | WasmOperator::I64Load32U { .. } => Some(OpSig::of_1_1(ptr, i64_)),
            WasmOperator::F32Load { .. } => Some(OpSig::of_1_1(ptr, f32_)),
            WasmOperator::F64Load { .. } => Some(OpSig::of_1_1(ptr, f64_)),
            WasmOperator::I32Store { .. }
            | WasmOperator::I32Store8 { .. }
            | WasmOperator::I32Store16 { .. } => Some(OpSig::of_2_0(ptr, i32_)),
            WasmOperator::I64Store { .. }
            | WasmOperator::I64Store8 { .. }
            | WasmOperator::I64Store16 { .. }
            | WasmOperator::I64Store32 { .. } => Some(OpSig::of_2_0(ptr, i64_)),
            WasmOperator::F32Store { .. } => Some(OpSig::of_2_0(ptr, f32_)),
            WasmOperator::F64Store { .. } => Some(OpSig::of_2_0(ptr, f64_)),
            WasmOperator::MemorySize { .. } => Some(OpSig::of_0_1(ptr)),
            WasmOperator::MemoryGrow { .. } => Some(OpSig::of_1_1(ptr, ptr)),
            WasmOperator::I32Const { .. } => Some(OpSig::of_0_1(i32_)),
            WasmOperator::I64Const { .. } => Some(OpSig::of_0_1(i64_)),
            WasmOperator::F32Const { .. } => Some(OpSig::of_0_1(f32_)),
            WasmOperator::F64Const { .. } => Some(OpSig::of_0_1(f64_)),
            WasmOperator::I32Eqz
            | WasmOperator::I32Clz
            | WasmOperator::I32Ctz
            | WasmOperator::I32Popcnt
            | WasmOperator::I32Extend8S
            | WasmOperator::I32Extend16S => Some(OpSig::of_1_1(i32_, i32_)),
            WasmOperator::I32Eq
            | WasmOperator::I32Ne
            | WasmOperator::I32LtS
            | WasmOperator::I32LtU
            | WasmOperator::I32GtS
            | WasmOperator::I32GtU
            | WasmOperator::I32LeS
            | WasmOperator::I32LeU
            | WasmOperator::I32GeS
            | WasmOperator::I32GeU
            | WasmOperator::I32Add
            | WasmOperator::I32Sub
            | WasmOperator::I32Mul
            | WasmOperator::I32DivS
            | WasmOperator::I32DivU
            | WasmOperator::I32RemS
            | WasmOperator::I32RemU
            | WasmOperator::I32And
            | WasmOperator::I32Or
            | WasmOperator::I32Xor
            | WasmOperator::I32Shl
            | WasmOperator::I32ShrS
            | WasmOperator::I32ShrU
            | WasmOperator::I32Rotl
            | WasmOperator::I32Rotr => Some(OpSig::of_2_1(i32_, i32_, i32_)),
            WasmOperator::I64Eqz
            | WasmOperator::I32WrapI64 => Some(OpSig::of_1_1(i64_, i32_)),
            WasmOperator::I64Eq
            | WasmOperator::I64Ne
            | WasmOperator::I64LtS
            | WasmOperator::I64LtU
            | WasmOperator::I64GtS
            | WasmOperator::I64GtU
            | WasmOperator::I64LeS
            | WasmOperator::I64LeU
            | WasmOperator::I64GeS
            | WasmOperator::I64GeU => Some(OpSig::of_2_1(i64_, i64_, i32_)),
            WasmOperator::F32Eq
            | WasmOperator::F32Ne
            | WasmOperator::F32Lt
            | WasmOperator::F32Gt
            | WasmOperator::F32Le
            | WasmOperator::F32Ge => Some(OpSig::of_2_1(f32_, f32_, i32_)),
            WasmOperator::F64Eq
            | WasmOperator::F64Ne
            | WasmOperator::F64Lt
            | WasmOperator::F64Gt
            | WasmOperator::F64Le
            | WasmOperator::F64Ge => Some(OpSig::of_2_1(f64_, f64_, i32_)),
            WasmOperator::I64Clz
            | WasmOperator::I64Ctz
            | WasmOperator::I64Popcnt
            | WasmOperator::I64Extend8S
            | WasmOperator::I64Extend16S
            | WasmOperator::I64Extend32S => Some(OpSig::of_1_1(i64_, i64_)),
            WasmOperator::I64Add
            | WasmOperator::I64Sub
            | WasmOperator::I64Mul
            | WasmOperator::I64DivS
            | WasmOperator::I64DivU
            | WasmOperator::I64RemS
            | WasmOperator::I64RemU
            | WasmOperator::I64And
            | WasmOperator::I64Or
            | WasmOperator::I64Xor
            | WasmOperator::I64Shl
            | WasmOperator::I64ShrS
            | WasmOperator::I64ShrU
            | WasmOperator::I64Rotl
            | WasmOperator::I64Rotr => Some(OpSig::of_2_1(i64_, i64_, i64_)),
            WasmOperator::F32Abs
            | WasmOperator::F32Neg
            | WasmOperator::F32Ceil
            | WasmOperator::F32Floor
            | WasmOperator::F32Trunc
            | WasmOperator::F32Nearest
            | WasmOperator::F32Sqrt => Some(OpSig::of_1_1(f32_, f32_)),
            WasmOperator::F32Add
            | WasmOperator::F32Sub
            | WasmOperator::F32Mul
            | WasmOperator::F32Div
            | WasmOperator::F32Min
            | WasmOperator::F32Max
            | WasmOperator::F32Copysign => Some(OpSig::of_2_1(f32_, f32_, f32_)),
            WasmOperator::F64Abs
            | WasmOperator::F64Neg
            | WasmOperator::F64Ceil
            | WasmOperator::F64Floor
            | WasmOperator::F64Trunc
            | WasmOperator::F64Nearest
            | WasmOperator::F64Sqrt => Some(OpSig::of_1_1(f64_, f64_)),
            WasmOperator::F64Add
            | WasmOperator::F64Sub
            | WasmOperator::F64Mul
            | WasmOperator::F64Div
            | WasmOperator::F64Min
            | WasmOperator::F64Max
            | WasmOperator::F64Copysign => Some(OpSig::of_2_1(f64_, f64_, f64_)),
            WasmOperator::I32TruncF32S
            | WasmOperator::I32TruncF32U
            | WasmOperator::I32ReinterpretF32 => Some(OpSig::of_1_1(f32_, i32_)),
            WasmOperator::I32TruncF64S
            | WasmOperator::I32TruncF64U => Some(OpSig::of_1_1(f64_, i32_)),
            WasmOperator::I64ExtendI32S
            | WasmOperator::I64ExtendI32U => Some(OpSig::of_1_1(i32_, i64_)),
            WasmOperator::I64TruncF32S
            | WasmOperator::I64TruncF32U => Some(OpSig::of_1_1(f32_, i64_)),
            WasmOperator::I64TruncF64S
            | WasmOperator::I64TruncF64U
            | WasmOperator::I64ReinterpretF64 => Some(OpSig::of_1_1(f64_, i64_)),
            WasmOperator::F32ConvertI32S
            | WasmOperator::F32ConvertI32U
            | WasmOperator::F32ReinterpretI32 => Some(OpSig::of_1_1(i32_, f32_)),
            WasmOperator::F32ConvertI64S
            | WasmOperator::F32ConvertI64U => Some(OpSig::of_1_1(i64_, f32_)),
            WasmOperator::F32DemoteF64 => Some(OpSig::of_1_1(f64_, f32_)),
            WasmOperator::F64ConvertI32S
            | WasmOperator::F64ConvertI32U => Some(OpSig::of_1_1(i32_, f64_)),
            WasmOperator::F64ConvertI64S
            | WasmOperator::F64ConvertI64U
            | WasmOperator::F64ReinterpretI64 => Some(OpSig::of_1_1(i64_, f64_)),
            WasmOperator::F64PromoteF32 => Some(OpSig::of_1_1(f32_, f64_)),
            _ => None,
        }
    }
}

/// What a place of a signature stands for, once the type variable stands for
/// `ty_param`.
pub open spec fn resolve(p: SigT, ty_param: Option<SignlessType>) -> Option<SignlessType> {
    match p {
        SigT::T => ty_param,
        SigT::Concrete(t) => Some(t),
    }
}

/// Why the inputs of a signature do not match a stack.
pub enum Mismatch {
    /// The stack holds fewer values than the signature has inputs.
    Empty,
    /// An input should have the type `expected`; the stack holds `found` there.
    Differs { expected: SignlessType, found: SignlessType },
}

/// Matches the inputs of a signature against a stack, from the last input and
/// the top of the stack down. The first place with the type variable binds it
/// to the type found there; every later one must find the same type. Gives what
/// the type variable stands for at the end, or why the inputs do not match: the
/// first place, from the top, where the stack has run out or holds another type.
pub open spec fn unify(
    input: Seq<SigT>,
    stack: Seq<SignlessType>,
    ty_param: Option<SignlessType>,
) -> Result<Option<SignlessType>, Mismatch>
    decreases input.len(),
{
    if input.len() == 0 {
        Ok(ty_param)
    } else if stack.len() == 0 {
        Err(Mismatch::Empty)
    } else {
        let top = stack.last();
        let bound = if input.last() is T && ty_param is None {
            Some(top)
        } else {
            ty_param
        };
        let expected = match resolve(input.last(), bound) {
            Some(ty) => ty,
            None => top,
        };
        if expected != top {
            Err(Mismatch::Differs { expected, found: top })
        } else {
            unify(input.drop_last(), stack.drop_last(), bound)
        }
    }
}

/// Whether every output has a type once the type variable stands for `ty_param`.
pub open spec fn outputs_resolve(output: Seq<SigT>, ty_param: Option<SignlessType>) -> bool {
    forall|i: int| 0 <= i < output.len() ==> (#[trigger] resolve(output[i], ty_param)) is Some
}

/// The types of the outputs in the order in which they are pushed: the last
/// output first, so that the first ends up on top.
pub open spec fn pushed(output: Seq<SigT>, ty_param: Option<SignlessType>) -> Seq<SignlessType> {
    Seq::new(output.len(), |i: int| resolve(output[output.len() - 1 - i], ty_param).unwrap())
}

/// What the error says when an input of `sig` should have the type `expected`
/// and the stack holds `found` there.
pub open spec fn mismatch_text(sig: OpSigView, expected: SignlessType, found: SignlessType) -> Seq<
    char,
> {
    "Error in params (sig "@ + crate::text::opsig_text(sig) + "): expected "@
        + crate::text::signless_text(expected) + ", found "@ + crate::text::signless_text(found)
}

/// The stack after an operator of signature `sig`: the inputs popped, the
/// outputs pushed. A `Microwasm` error where the inputs do not match the
/// stack, an output is the type variable and no input bound it, or the stack
/// would grow past what a 32-bit depth can address.
pub open spec fn spec_apply(sig: OpSigView, stack: Seq<SignlessType>) -> Result<
    Seq<SignlessType>,
    Failure,
> {
    match unify(sig.input, stack, None) {
        Err(Mismatch::Empty) => Err(Failure::microwasm("Stack is empty"@)),
        Err(Mismatch::Differs { expected, found }) => Err(
            Failure::microwasm(mismatch_text(sig, expected, found)),
        ),
        Ok(ty_param) => {
            if !outputs_resolve(sig.output, ty_param) {
                Err(Failure::microwasm("Type parameter was not set"@))
            } else if stack.len() - sig.input.len() + sig.output.len() > u32::MAX {
                Err(Failure::microwasm("Type stack too deep"@))
            } else {
                Ok(stack.take(stack.len() - sig.input.len()) + pushed(sig.output, ty_param))
            }
        },
    }
}

/// Inputs that match a stack are no more than the stack holds.
pub proof fn lemma_unify_len(
    input: Seq<SigT>,
    stack: Seq<SignlessType>,
    ty_param: Option<SignlessType>,
)
    requires
        unify(input, stack, ty_param) is Ok,
    ensures
        input.len() <= stack.len(),
    decreases input.len(),
{
    if input.len() > 0 {
        let top = stack.last();
        let bound = if input.last() is T && ty_param is None {
            Some(top)
        } else {
            ty_param
        };
        lemma_unify_len(input.drop_last(), stack.drop_last(), bound);
    }
}

/// An operator changes the height of the type stack by the number of its
/// outputs less the number of its inputs.
pub proof fn lemma_apply_len(sig: OpSigView, stack: Seq<SignlessType>)
    requires
        spec_apply(sig, stack) is Ok,
    ensures
        sig.input.len() <= stack.len(),
        spec_apply(sig, stack)->Ok_0.len() == stack.len() - sig.input.len() + sig.output.len(),
        spec_apply(sig, stack)->Ok_0.len() <= u32::MAX,
{
    lemma_unify_len(sig.input, stack, None);
}

/// The error for an input of the signature `sig` that should have the type
/// `expected` and has the type `found`.
fn mismatch(sig: &OpSig, expected: SignlessType, found: SignlessType) -> (e: Error)
    ensures
        e.spec_failure() == Failure::microwasm(mismatch_text(sig@, expected, found)),
{
    let mut message = String::from_str("Error in params (sig ");
    message.append(sig.text().as_str());
    message.append("): expected ");
    message.append(crate::text::signless_name(expected));
    message.append(", found ");
    message.append(crate::text::signless_name(found));
    Error::Microwasm(message)
}

/// Applies a signature to a type stack: pops the inputs, pushes the outputs.
/// On a mismatch the stack is left as it was.
pub fn apply(stack: &mut Vec<SignlessType>, sig: &OpSig) -> (r: Result<(), Error>)
    ensures
        match spec_apply(sig@, old(stack)@) {
            Ok(s) => r is Ok && final(stack)@ == s,
            Err(failure) => r matches Err(e) && e.spec_failure() == failure && final(stack)@
                == old(stack)@,
        },
{
    let n = sig.input.len();
    let m = sig.output.len();
    let len = stack.len();
    let mut ty_param: Option<SignlessType> = None;
    let mut i: usize = n;
    proof {
        assert(sig.input@.take(n as int) == sig.input@);
        assert(stack@.take(len as int) == stack@);
    }
    while i > 0
        invariant
            n == sig.input@.len(),
            len == stack@.len(),
            stack@ == old(stack)@,
            i <= n,
            n - i <= len,
            unify(sig.input@, stack@, None) == unify(
                sig.input@.take(i as int),
                stack@.take(len - (n - i)),
                ty_param,
            ),
        decreases i,
    {
        let ghost rest_in = sig.input@.take(i as int);
        let ghost rest_stack = stack@.take(len - (n - i));
        if len - (n - i) == 0 {
            return Err(Error::microwasm("Stack is empty"));
        }
        let top = stack[len - (n - i) - 1];
        let bound = match (sig.input[i - 1], ty_param) {
            (SigT::T, None) => Some(top),
            _ => ty_param,
        };
        let expected = match sig.input[i - 1] {
            SigT::T => match bound {
                Some(t) => t,
                None => top,
            },
            SigT::Concrete(t) => t,
        };
        proof {
            assert(rest_in.last() == sig.input@[i - 1]);
            assert(rest_stack.last() == top);
            assert(rest_in.drop_last() == sig.input@.take(i - 1));
            assert(rest_stack.drop_last() == stack@.take(len - (n - i) - 1));
        }
        if expected != top {
            return Err(mismatch(sig, expected, top));
        }
        ty_param = bound;
        i -= 1;
    }
    proof {
        assert(sig.input@.take(0).len() == 0);
        lemma_unify_len(sig.input@, stack@, None);
    }
    let mut j: usize = 0;
    while j < m
        invariant
            m == sig.output@.len(),
            j <= m,
            stack@ == old(stack)@,
            unify(sig.input@, stack@, None) == Ok::<Option<SignlessType>, Mismatch>(ty_param),
            forall|k: int| 0 <= k < j ==> (#[trigger] resolve(sig.output@[k], ty_param)) is Some,
        decreases m - j,
    {
        match (sig.output[j], ty_param) {
            (SigT::T, None) => {
                assert(!(resolve(sig.output@[j as int], ty_param) is Some));
                return Err(Error::microwasm("Type parameter was not set"));
            },
            _ => {},
        }
        j += 1;
    }
    if m > u32::MAX as usize || len - n > u32::MAX as usize - m {
        return Err(Error::microwasm("Type stack too deep"));
    }
    stack.truncate(len - n);
    let mut k: usize = m;
    while k > 0
        invariant
            m == sig.output@.len(),
            k <= m,
            n <= len,
            len - n + m <= u32::MAX,
            outputs_resolve(sig.output@, ty_param),
            stack@.len() == len - n + (m - k),
            stack@.take(len - n) == old(stack)@.take(len - n),
            forall|q: int|
                0 <= q < m - k ==> stack@[len - n + q] == (#[trigger] pushed(
                    sig.output@,
                    ty_param,
                )[q]),
        decreases k,
    {
        let ty = match sig.output[k - 1] {
            SigT::T => {
                assert(resolve(sig.output@[k - 1], ty_param) is Some);
                match ty_param {
                    Some(t) => t,
                    None => Type::Int(Size::_32),
                }
            },
            SigT::Concrete(t) => t,
        };
        let ghost before = stack@;
        stack.push(ty);
        proof {
            assert(stack@.take(len - n) == before.take(len - n));
        }
        k -= 1;
    }
    proof {
        assert(stack@ =~= old(stack)@.take(len - n) + pushed(sig.output@, ty_param));
    }
    Ok(())
}

} // verus!
