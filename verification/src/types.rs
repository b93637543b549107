//! Ground types and constant values of the flat intermediate form.

use vstd::prelude::*;

verus! {

/// An IEEE binary32 value stored as its bit pattern, so that NaN payloads survive.
#[derive(Copy, Clone, Debug, Hash, PartialEq, Eq, Structural)]
pub struct Ieee32(pub u32);

/// An IEEE binary64 value stored as its bit pattern, so that NaN payloads survive.
#[derive(Copy, Clone, Debug, Hash, PartialEq, Eq, Structural)]
pub struct Ieee64(pub u64);

impl Ieee32 {
    /// The bit pattern of the float.
    pub fn to_bits(self) -> (bits: u32)
        ensures
            bits == self.0,
    {
        self.0
    }

    /// The float with the bit pattern `other`.
    pub fn from_bits(other: u32) -> (v: Self)
        ensures
            v == Ieee32(other),
    {
        Ieee32(other)
    }
}

impl Ieee64 {
    /// The bit pattern of the float.
    pub fn to_bits(self) -> (bits: u64)
        ensures
            bits == self.0,
    {
        self.0
    }

    /// The float with the bit pattern `other`.
    pub fn from_bits(other: u64) -> (v: Self)
        ensures
            v == Ieee64(other),
    {
        Ieee64(other)
    }
}

/// Whether to interpret an integer as signed or unsigned.
#[derive(Debug, Copy, Clone, PartialEq, Eq, Structural)]
pub enum Signedness {
    Signed,
    Unsigned,
}

/// Width of an integer or of a float.
#[derive(Debug, Copy, Clone, PartialEq, Eq, Structural)]
pub enum Size {
    _32,
    _64,
}

/// An integer width together with the way its bits are read.
#[derive(Debug, Copy, Clone, PartialEq, Eq, Structural)]
pub struct SignfulInt(pub Signedness, pub Size);

/// A ground type; `I` says how much is known of an integer.
#[derive(Debug, Copy, Clone, PartialEq, Eq, Structural)]
pub enum Type<I> {
    Int(I),
    Float(Size),
}

/// A ground type that does not say how its integers are read.
pub type SignlessType = Type<Size>;

/// A ground type that says how its integers are read.
pub type SignfulType = Type<SignfulInt>;

/// A Rust type that stands for one ground type.
pub trait IntoType<T> {
    spec fn type_of() -> T;

    fn into_type() -> (t: T)
        ensures
            t == Self::type_of(),
    ;
}

impl IntoType<SignlessType> for i32 {
    open spec fn type_of() -> SignlessType {
        Type::Int(Size::_32)
    }

    fn into_type() -> SignlessType {
        Type::Int(Size::_32)
    }
}

impl IntoType<SignlessType> for i64 {
    open spec fn type_of() -> SignlessType {
        Type::Int(Size::_64)
    }

    fn into_type() -> SignlessType {
        Type::Int(Size::_64)
    }
}

impl IntoType<SignlessType> for u32 {
    open spec fn type_of() -> SignlessType {
        Type::Int(Size::_32)
    }

    fn into_type() -> SignlessType {
        Type::Int(Size::_32)
    }
}

impl IntoType<SignlessType> for u64 {
    open spec fn type_of() -> SignlessType {
        Type::Int(Size::_64)
    }

    fn into_type() -> SignlessType {
        Type::Int(Size::_64)
    }
}

impl IntoType<SignlessType> for Ieee32 {
    open spec fn type_of() -> SignlessType {
        Type::Float(Size::_32)
    }

    fn into_type() -> SignlessType {
        Type::Float(Size::_32)
    }
}

impl IntoType<SignlessType> for Ieee64 {
    open spec fn type_of() -> SignlessType {
        Type::Float(Size::_64)
    }

    fn into_type() -> SignlessType {
        Type::Float(Size::_64)
    }
}

impl<I> Type<I> {
    /// The ground type that the Rust type `T` stands for.
    pub fn for_<T: IntoType<Self>>() -> (t: Self)
        ensures
            t == T::type_of(),
    {
        T::into_type()
    }
}

/// A constant embedded in the instruction stream.
#[derive(Debug, Copy, Clone, PartialEq, Eq, Structural)]
pub enum Value {
    I32(i32),
    I64(i64),
    F32(Ieee32),
    F64(Ieee64),
}

impl Value {
    /// The raw bits of the constant, widened to 64 bits: an `I32` is sign-extended,
    /// an `F32` zero-extended, and the 64 bits of an `F64` are read as signed.
    pub open spec fn spec_as_bytes(self) -> i64 {
        match self {
            Value::I32(val) => val as i64,
            Value::I64(val) => val,
            Value::F32(val) => val.0 as i64,
            Value::F64(val) => val.0 as i64,
        }
    }

    /// The type of the constant.
    pub open spec fn spec_type(self) -> SignlessType {
        match self {
            Value::I32(_) => Type::Int(Size::_32),
            Value::I64(_) => Type::Int(Size::_64),
            Value::F32(_) => Type::Float(Size::_32),
            Value::F64(_) => Type::Float(Size::_64),
        }
    }

    /// The zero of each ground type.
    pub open spec fn spec_default_for_type(ty: SignlessType) -> Value {
        match ty {
            Type::Int(Size::_32) => Value::I32(0),
            Type::Int(Size::_64) => Value::I64(0),
            Type::Float(Size::_32) => Value::F32(Ieee32(0)),
            Type::Float(Size::_64) => Value::F64(Ieee64(0)),
        }
    }

    /// The integer that the constant holds, if it is an integer.
    pub fn as_int(self) -> (r: Option<i64>)
        ensures
            r == match self {
                Value::I32(val) => Some(val as i64),
                Value::I64(val) => Some(val),
                _ => None::<i64>,
            },
    {
        match self {
            Value::I64(val) => Some(val),
            Value::I32(val) => Some(val as i64),
            _ => None,
        }
    }

    /// The raw bits of the constant, widened to 64 bits.
    pub fn as_bytes(self) -> (r: i64)
        ensures
            r == self.spec_as_bytes(),
    {
        match self {
            Value::I32(val) => val as i64,
            Value::I64(val) => val,
            Value::F32(val) => val.0 as i64,
            Value::F64(val) => {
                #[verifier::truncate]
                let bits = val.0 as i64;
                bits
            },
        }
    }

    /// The constant, if it is a 32-bit integer.
    pub fn as_i32(self) -> (r: Option<i32>)
        ensures
            r == match self {
                Value::I32(val) => Some(val),
                _ => None::<i32>,
            },
    {
        match self {
            Value::I32(val) => Some(val),
            _ => None,
        }
    }

    /// The constant, if it is a 64-bit integer.
    pub fn as_i64(self) -> (r: Option<i64>)
        ensures
            r == match self {
                Value::I64(val) => Some(val),
                _ => None::<i64>,
            },
    {
        match self {
            Value::I64(val) => Some(val),
            _ => None,
        }
    }

    /// The constant, if it is a 32-bit float.
    pub fn as_f32(self) -> (r: Option<Ieee32>)
        ensures
            r == match self {
                Value::F32(val) => Some(val),
                _ => None::<Ieee32>,
            },
    {
        match self {
            Value::F32(val) => Some(val),
            _ => None,
        }
    }

    /// The constant, if it is a 64-bit float.
    pub fn as_f64(self) -> (r: Option<Ieee64>)
        ensures
            r == match self {
                Value::F64(val) => Some(val),
                _ => None::<Ieee64>,
            },
    {
        match self {
            Value::F64(val) => Some(val),
            _ => None,
        }
    }

    /// The type of the constant.
    pub fn type_(&self) -> (ty: SignlessType)
        ensures
            ty == self.spec_type(),
    {
        match self {
            Value::I32(_) => Type::Int(Size::_32),
            Value::I64(_) => Type::Int(Size::_64),
            Value::F32(_) => Type::Float(Size::_32),
            Value::F64(_) => Type::Float(Size::_64),
        }
    }

    /// The zero of the type `ty`.
    pub fn default_for_type(ty: SignlessType) -> (v: Self)
        ensures
            v == Self::spec_default_for_type(ty),
            v.spec_type() == ty,
            v.spec_as_bytes() == 0,
    {
        match ty {
            Type::Int(Size::_32) => Value::I32(0),
            Type::Int(Size::_64) => Value::I64(0),
            Type::Float(Size::_32) => Value::F32(Ieee32(0)),
            Type::Float(Size::_64) => Value::F64(Ieee64(0)),
        }
    }
}

/// The 64 raw bits of an `F64` whose top bit is clear are the number itself;
/// with the top bit set they are the number less 2^64.
pub proof fn lemma_f64_bits_as_bytes(bits: u64)
    ensures
        bits <= 0x7fff_ffff_ffff_ffff ==> Value::F64(Ieee64(bits)).spec_as_bytes() == bits,
        bits > 0x7fff_ffff_ffff_ffff ==> Value::F64(Ieee64(bits)).spec_as_bytes() == bits
            - 0x1_0000_0000_0000_0000,
{
    assert(bits <= 0x7fff_ffff_ffff_ffffu64 ==> (bits as i64) == bits) by (bit_vector);
    assert(bits > 0x7fff_ffff_ffff_ffffu64 ==> (bits as i64) == bits - 0x1_0000_0000_0000_0000)
        by (bit_vector);
}

impl From<i32> for Value {
    fn from(other: i32) -> (v: Self) {
        Value::I32(other)
    }
}

impl vstd::std_specs::convert::FromSpecImpl<i32> for Value {
    open spec fn obeys_from_spec() -> bool {
        true
    }

    open spec fn from_spec(other: i32) -> Self {
        Value::I32(other)
    }
}

impl From<i64> for Value {
    fn from(other: i64) -> (v: Self) {
        Value::I64(other)
    }
}

impl vstd::std_specs::convert::FromSpecImpl<i64> for Value {
    open spec fn obeys_from_spec() -> bool {
        true
    }

    open spec fn from_spec(other: i64) -> Self {
        Value::I64(other)
    }
}

impl From<u32> for Value {
    fn from(other: u32) -> (v: Self) {
        #[verifier::truncate]
        let bits = other as i32;
        Value::I32(bits)
    }
}

impl vstd::std_specs::convert::FromSpecImpl<u32> for Value {
    open spec fn obeys_from_spec() -> bool {
        true
    }

    open spec fn from_spec(other: u32) -> Self {
        Value::I32(other as i32)
    }
}

impl From<u64> for Value {
    fn from(other: u64) -> (v: Self) {
        #[verifier::truncate]
        let bits = other as i64;
        Value::I64(bits)
    }
}

impl vstd::std_specs::convert::FromSpecImpl<u64> for Value {
    open spec fn obeys_from_spec() -> bool {
        true
    }

    open spec fn from_spec(other: u64) -> Self {
        Value::I64(other as i64)
    }
}

impl From<Ieee32> for Value {
    fn from(other: Ieee32) -> (v: Self) {
        Value::F32(other)
    }
}

impl vstd::std_specs::convert::FromSpecImpl<Ieee32> for Value {
    open spec fn obeys_from_spec() -> bool {
        true
    }

    open spec fn from_spec(other: Ieee32) -> Self {
        Value::F32(other)
    }
}

impl From<Ieee64> for Value {
    fn from(other: Ieee64) -> (v: Self) {
        Value::F64(other)
    }
}

impl vstd::std_specs::convert::FromSpecImpl<Ieee64> for Value {
    open spec fn obeys_from_spec() -> bool {
        true
    }

    open spec fn from_spec(other: Ieee64) -> Self {
        Value::F64(other)
    }
}

} // verus!
