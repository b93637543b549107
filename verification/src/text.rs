//! The text of types, labels and operators, for listings.

use crate::driver::Listing;
use crate::operator::{
    BrTarget, BrTargetDrop, DropRange, NameTag, NumCallers, Operator, Params, SourceLoc, Targets,
    WasmLabel,
};
use crate::sig::{OpSig, SigT};
use crate::types::{Signedness, SignfulInt, SignfulType, SignlessType, Size, Type, Value};
use vstd::prelude::*;
use vstd::string::{StrSliceExecFns, StringExecFns};

verus! {

/// The character of the digit `d`.
pub open spec fn digit(d: int) -> char {
    ('0' as int + d) as char
}

/// The digits of `n` in base ten, without leading zeroes.
pub open spec fn digits(n: nat) -> Seq<char>
    decreases n,
{
    if n < 10 {
        seq![digit(n as int)]
    } else {
        digits(n / 10).push(digit((n % 10) as int))
    }
}

/// The number `n` in base ten, with a minus sign before a negative one.
pub open spec fn decimal(n: int) -> Seq<char> {
    if n < 0 {
        seq!['-'] + digits((-n) as nat)
    } else {
        digits(n as nat)
    }
}

/// The text of the digit `d`.
fn digit_text(d: u8) -> (text: &'static str)
    requires
        d < 10,
    ensures
        text@ == seq![digit(d as int)],
{
    proof {
        reveal_strlit("0");
        reveal_strlit("1");
        reveal_strlit("2");
        reveal_strlit("3");
        reveal_strlit("4");
        reveal_strlit("5");
        reveal_strlit("6");
        reveal_strlit("7");
        reveal_strlit("8");
        reveal_strlit("9");
    }
    let text = match d {
        0 => "0",
        1 => "1",
        2 => "2",
        3 => "3",
        4 => "4",
        5 => "5",
        6 => "6",
        7 => "7",
        8 => "8",
        _ => "9",
    };
    proof {
        assert(text@ =~= seq![digit(d as int)]);
    }
    text
}

/// The digits of `n` in base ten, without leading zeroes.
fn digits_text(n: u128) -> (text: String)
    ensures
        text@ == digits(n as nat),
    decreases n,
{
    if n < 10 {
        String::from_str(digit_text(n as u8))
    } else {
        let mut text = digits_text(n / 10);
        text.append(digit_text((n % 10) as u8));
        proof {
            assert(text@ =~= digits(n as nat));
        }
        text
    }
}

/// The number `n` in base ten, with a minus sign before a negative one and
/// without leading zeroes.
pub(crate) fn decimal_text(n: i128) -> (text: String)
    ensures
        text@ == decimal(n as int),
{
    if n < 0 {
        let magnitude: u128 = (-(n + 1)) as u128 + 1;
        let text = String::from_str("-").concat(digits_text(magnitude).as_str());
        proof {
            reveal_strlit("-");
            assert(text@ =~= decimal(n as int));
        }
        text
    } else {
        digits_text(n as u128)
    }
}

/// The character of the hexadecimal digit `d`, in lower case.
pub open spec fn hex_digit(d: int) -> char {
    if d < 10 {
        ('0' as int + d) as char
    } else {
        ('a' as int + d - 10) as char
    }
}

/// The digits of `n` in base sixteen, without leading zeroes.
pub open spec fn hex_digits(n: nat) -> Seq<char>
    decreases n,
{
    if n < 16 {
        seq![hex_digit(n as int)]
    } else {
        hex_digits(n / 16).push(hex_digit((n % 16) as int))
    }
}

/// The number `n` in base sixteen, with zeroes before it where it has fewer
/// than four digits.
pub open spec fn hex4(n: nat) -> Seq<char> {
    if hex_digits(n).len() >= 4 {
        hex_digits(n)
    } else {
        Seq::new((4 - hex_digits(n).len()) as nat, |i: int| '0') + hex_digits(n)
    }
}

/// The text of the hexadecimal digit `d`, in lower case.
fn hex_digit_text(d: u8) -> (text: &'static str)
    requires
        d < 16,
    ensures
        text@ == seq![hex_digit(d as int)],
{
    if d < 10 {
        digit_text(d)
    } else {
        proof {
            reveal_strlit("a");
            reveal_strlit("b");
            reveal_strlit("c");
            reveal_strlit("d");
            reveal_strlit("e");
            reveal_strlit("f");
        }
        let text = match d {
            10 => "a",
            11 => "b",
            12 => "c",
            13 => "d",
            14 => "e",
            _ => "f",
        };
        proof {
            assert(text@ =~= seq![hex_digit(d as int)]);
        }
        text
    }
}

/// The digits of `n` in base sixteen, without leading zeroes.
fn hex_digits_text(n: u32) -> (text: String)
    ensures
        text@ == hex_digits(n as nat),
    decreases n,
{
    if n < 16 {
        String::from_str(hex_digit_text(n as u8))
    } else {
        let mut text = hex_digits_text(n / 16);
        text.append(hex_digit_text((n % 16) as u8));
        proof {
            assert(text@ =~= hex_digits(n as nat));
        }
        text
    }
}

/// The number `n` in base sixteen and lower case, with zeroes before it where
/// it has fewer than four digits.
pub(crate) fn hex4_text(n: u32) -> (text: String)
    ensures
        text@ == hex4(n as nat),
{
    let digits = hex_digits_text(n);
    let len: usize = digits.as_str().unicode_len();
    if len >= 4 {
        digits
    } else {
        proof {
            reveal_strlit("0");
            reveal_strlit("00");
            reveal_strlit("000");
            reveal_strlit("0000");
        }
        let zeroes = match len {
            3 => "0",
            2 => "00",
            1 => "000",
            _ => "0000",
        };
        let text = String::from_str(zeroes).concat(digits.as_str());
        proof {
            assert(hex_digits(n as nat).len() >= 1);
            assert(zeroes@ =~= Seq::new((4 - len) as nat, |i: int| '0'));
            assert(text@ =~= hex4(n as nat));
        }
        text
    }
}

/// The name of a type without signedness.
pub open spec fn signless_text(ty: SignlessType) -> Seq<char> {
    match ty {
        Type::Int(Size::_32) => "i32"@,
        Type::Int(Size::_64) => "i64"@,
        Type::Float(Size::_32) => "f32"@,
        Type::Float(Size::_64) => "f64"@,
    }
}

/// The name of the float type of the size `size`.
pub open spec fn float_text(size: Size) -> Seq<char> {
    signless_text(Type::Float(size))
}

/// The name of an integer type with its signedness.
pub open spec fn signful_int_text(ty: SignfulInt) -> Seq<char> {
    match ty {
        SignfulInt(Signedness::Signed, Size::_32) => "i32"@,
        SignfulInt(Signedness::Unsigned, Size::_32) => "u32"@,
        SignfulInt(Signedness::Signed, Size::_64) => "i64"@,
        SignfulInt(Signedness::Unsigned, Size::_64) => "u64"@,
    }
}

/// The name of a type with the signedness of its integers.
pub open spec fn signful_text(ty: SignfulType) -> Seq<char> {
    match ty {
        Type::Int(i) => signful_int_text(i),
        Type::Float(size) => float_text(size),
    }
}

/// The name of a type without signedness.
pub fn signless_name(ty: SignlessType) -> (name: &'static str)
    ensures
        name@ == signless_text(ty),
{
    match ty {
        Type::Int(Size::_32) => "i32",
        Type::Int(Size::_64) => "i64",
        Type::Float(Size::_32) => "f32",
        Type::Float(Size::_64) => "f64",
    }
}

/// The name of a float type of the size `size`.
pub fn float_name(size: Size) -> (name: &'static str)
    ensures
        name@ == float_text(size),
{
    signless_name(Type::Float(size))
}

/// The name of an integer type with its signedness.
pub fn signful_int_name(ty: SignfulInt) -> (name: &'static str)
    ensures
        name@ == signful_int_text(ty),
{
    match ty {
        SignfulInt(Signedness::Signed, Size::_32) => "i32",
        SignfulInt(Signedness::Unsigned, Size::_32) => "u32",
        SignfulInt(Signedness::Signed, Size::_64) => "i64",
        SignfulInt(Signedness::Unsigned, Size::_64) => "u64",
    }
}

/// The name of a type with the signedness of its integers.
pub fn signful_name(ty: SignfulType) -> (name: &'static str)
    ensures
        name@ == signful_text(ty),
{
    match ty {
        Type::Int(i) => signful_int_name(i),
        Type::Float(size) => float_name(size),
    }
}

impl NumCallers {
    /// The count as listings show it: `??` for more than one.
    pub open spec fn spec_text(self) -> Seq<char> {
        match self {
            NumCallers::Zero => "0"@,
            NumCallers::One => "1"@,
            NumCallers::Many => "??"@,
        }
    }

    /// The count as listings show it: `??` for more than one.
    pub fn text(&self) -> (text: &'static str)
        ensures
            text@ == self.spec_text(),
    {
        match self {
            NumCallers::Zero => "0",
            NumCallers::One => "1",
            NumCallers::Many => "??",
        }
    }
}

impl Value {
    /// The text of a constant: its digits and its type. The digits of a float
    /// are `float`; those of an integer are the integer in base ten.
    pub open spec fn spec_text(self, float: Seq<char>) -> Seq<char> {
        match self {
            Value::I32(v) => decimal(v as int) + "i32"@,
            Value::I64(v) => decimal(v as int) + "i64"@,
            Value::F32(_) => float + "f32"@,
            Value::F64(_) => float + "f64"@,
        }
    }

    /// The text of the constant. This library does not write the digits of
    /// floats: where the constant is a float, `float` holds them.
    pub fn text(&self, float: &str) -> (text: String)
        ensures
            text@ == self.spec_text(float@),
    {
        match self {
            Value::I32(v) => decimal_text(*v as i128).concat("i32"),
            Value::I64(v) => decimal_text(*v as i128).concat("i64"),
            Value::F32(_) => String::from_str(float).concat("f32"),
            Value::F64(_) => String::from_str(float).concat("f64"),
        }
    }
}

/// A label that listings can show.
pub trait LabelText: Sized {
    spec fn spec_text(&self) -> Seq<char>;

    /// The text of the label, without the point before it.
    fn text(&self) -> (text: String)
        ensures
            text@ == self.spec_text(),
    ;
}

impl LabelText for WasmLabel {
    open spec fn spec_text(&self) -> Seq<char> {
        match self.1 {
            NameTag::Header => "L"@ + decimal(self.0 as int),
            NameTag::Else => "L"@ + decimal(self.0 as int) + "_else"@,
            NameTag::End => "L"@ + decimal(self.0 as int) + "_end"@,
            NameTag::Internal => "INTERNAL"@ + decimal(self.0 as int),
        }
    }

    fn text(&self) -> String {
        let number = decimal_text(self.0 as i128);
        match self.1 {
            NameTag::Header => String::from_str("L").concat(number.as_str()),
            NameTag::Else => String::from_str("L").concat(number.as_str()).concat("_else"),
            NameTag::End => String::from_str("L").concat(number.as_str()).concat("_end"),
            NameTag::Internal => String::from_str("INTERNAL").concat(number.as_str()),
        }
    }
}

impl<'a> LabelText for &'a str {
    open spec fn spec_text(&self) -> Seq<char> {
        "L"@ + (*self)@
    }

    fn text(&self) -> String {
        String::from_str("L").concat(*self)
    }
}

/// The text of the target that the label `label` names.
fn label_target_text<L: LabelText>(label: &L) -> (text: String)
    ensures
        text@ == BrTarget::Label(*label).spec_text(),
{
    String::from_str(".").concat(label.text().as_str())
}

impl<L: LabelText> BrTarget<L> {
    /// The text of the target: `.return`, or a point and the label.
    pub open spec fn spec_text(self) -> Seq<char> {
        match self {
            BrTarget::Return => ".return"@,
            BrTarget::Label(label) => "."@ + label.spec_text(),
        }
    }

    /// The text of the target: `.return`, or a point and the label.
    pub fn text(&self) -> (text: String)
        ensures
            text@ == self.spec_text(),
    {
        match self {
            BrTarget::Return => String::from_str(".return"),
            BrTarget::Label(label) => String::from_str(".").concat(label.text().as_str()),
        }
    }
}

impl DropRange {
    /// The range as `start..=end`.
    pub open spec fn spec_text(self) -> Seq<char> {
        decimal(self.start as int) + "..="@ + decimal(self.end as int)
    }

    /// The range as `start..=end`.
    pub fn text(&self) -> (text: String)
        ensures
            text@ == self.spec_text(),
    {
        decimal_text(self.start as i128).concat("..=").concat(decimal_text(self.end as i128).as_str())
    }
}

impl<L: LabelText> BrTargetDrop<L> {
    /// The text of the target, with what is dropped on the way if anything is.
    pub open spec fn spec_text(self) -> Seq<char> {
        match self.to_drop {
            Some(range) => "("@ + self.target.spec_text() + ", drop "@ + range.spec_text() + ")"@,
            None => self.target.spec_text(),
        }
    }

    /// The text of the target, with what is dropped on the way if anything is.
    pub fn text(&self) -> (text: String)
        ensures
            text@ == self.spec_text(),
    {
        match self.to_drop {
            Some(range) => {
                let mut text = String::from_str("(");
                text.append(self.target.text().as_str());
                text.append(", drop ");
                text.append(range.text().as_str());
                text.append(")");
                text
            },
            None => self.target.text(),
        }
    }
}

/// The texts of `items`, each after the first with `, ` before it.
pub open spec fn listed<T>(items: Seq<T>, text: spec_fn(T) -> Seq<char>) -> Seq<char>
    decreases items.len(),
{
    if items.len() == 0 {
        seq![]
    } else if items.len() == 1 {
        text(items[0])
    } else {
        listed(items.drop_last(), text) + ", "@ + text(items.last())
    }
}

impl Params {
    /// The types in brackets.
    pub open spec fn spec_text(self) -> Seq<char> {
        "["@ + listed(self@, |ty: SignlessType| signless_text(ty)) + "]"@
    }

    /// The types in brackets.
    pub fn text(&self) -> (text: String)
        ensures
            text@ == self.spec_text(),
    {
        let mut text = String::from_str("[");
        let ghost each = |ty: SignlessType| signless_text(ty);
        let mut i: usize = 0;
        while i < self.inner.len()
            invariant
                i <= self.inner@.len(),
                each == |ty: SignlessType| signless_text(ty),
                text@ == "["@ + listed(self.inner@.take(i as int), each),
            decreases self.inner.len() - i,
        {
            let ghost shorter = self.inner@.take(i as int);
            let ghost longer = self.inner@.take(i as int + 1);
            proof {
                assert(longer.drop_last() == shorter);
                assert(longer.last() == self.inner@[i as int]);
            }
            if i > 0 {
                text.append(", ");
            }
            text.append(signless_name(self.inner[i]));
            proof {
                assert(text@ =~= "["@ + listed(longer, each));
            }
            i += 1;
        }
        proof {
            assert(self.inner@.take(i as int) == self.inner@);
        }
        text.append("]");
        text
    }
}

impl SigT {
    /// The place as signatures show it: `{any}` for the type variable.
    pub open spec fn spec_text(self) -> Seq<char> {
        match self {
            SigT::T => "{any}"@,
            SigT::Concrete(ty) => signless_text(ty),
        }
    }

    /// The place as signatures show it: `{any}` for the type variable.
    pub fn text(&self) -> (text: &'static str)
        ensures
            text@ == self.spec_text(),
    {
        match self {
            SigT::T => "{any}",
            SigT::Concrete(ty) => signless_name(*ty),
        }
    }
}

/// The places of `places`, each after the first with `, ` before it.
fn places_text(places: &Vec<SigT>) -> (text: String)
    ensures
        text@ == listed(places@, |p: SigT| p.spec_text()),
{
    let mut text = String::from_str("");
    let ghost each = |p: SigT| p.spec_text();
    proof {
        reveal_strlit("");
        assert(text@ =~= listed(places@.take(0), each));
    }
    let mut i: usize = 0;
    while i < places.len()
        invariant
            i <= places@.len(),
            each == |p: SigT| p.spec_text(),
            text@ == listed(places@.take(i as int), each),
        decreases places.len() - i,
    {
        let ghost shorter = places@.take(i as int);
        let ghost longer = places@.take(i as int + 1);
        proof {
            assert(longer.drop_last() == shorter);
            assert(longer.last() == places@[i as int]);
        }
        if i > 0 {
            text.append(", ");
        }
        text.append(places[i].text());
        proof {
            assert(text@ =~= listed(longer, each));
        }
        i += 1;
    }
    proof {
        assert(places@.take(i as int) == places@);
    }
    text
}

/// A signature as `(inputs) -> (outputs)`.
pub open spec fn opsig_text(sig: crate::sig::OpSigView) -> Seq<char> {
    "("@ + listed(sig.input, |p: SigT| p.spec_text()) + ") -> ("@ + listed(
        sig.output,
        |p: SigT| p.spec_text(),
    ) + ")"@
}

impl OpSig {
    /// The signature as `(inputs) -> (outputs)`.
    pub fn text(&self) -> (text: String)
        ensures
            text@ == opsig_text(self@),
    {
        let mut text = String::from_str("(");
        text.append(places_text(&self.input).as_str());
        text.append(") -> (");
        text.append(places_text(&self.output).as_str());
        text.append(")");
        text
    }
}

impl<L: LabelText> Targets<L> {
    /// The targets of a branch: the table in brackets if it has entries, then
    /// the default.
    pub open spec fn spec_text(self) -> Seq<char> {
        if self.targets@.len() == 0 {
            self.default.spec_text()
        } else {
            "["@ + listed(self.targets@, |t: BrTargetDrop<L>| t.spec_text()) + "], "@
                + self.default.spec_text()
        }
    }

    /// The targets of a branch: the table in brackets if it has entries, then
    /// the default.
    pub fn text(&self) -> (text: String)
        ensures
            text@ == self.spec_text(),
    {
        if self.targets.len() == 0 {
            return self.default.text();
        }
        let mut text = String::from_str("[");
        let ghost each = |t: BrTargetDrop<L>| t.spec_text();
        let mut i: usize = 0;
        while i < self.targets.len()
            invariant
                i <= self.targets@.len(),
                each == |t: BrTargetDrop<L>| t.spec_text(),
                text@ == "["@ + listed(self.targets@.take(i as int), each),
            decreases self.targets.len() - i,
        {
            let ghost shorter = self.targets@.take(i as int);
            let ghost longer = self.targets@.take(i as int + 1);
            proof {
                assert(longer.drop_last() == shorter);
                assert(longer.last() == self.targets@[i as int]);
            }
            if i > 0 {
                text.append(", ");
            }
            text.append(self.targets[i].text().as_str());
            proof {
                assert(text@ =~= "["@ + listed(longer, each));
            }
            i += 1;
        }
        proof {
            assert(self.targets@.take(i as int) == self.targets@);
        }
        text.append("], ");
        text.append(self.default.text().as_str());
        text
    }
}

/// A type and what follows it.
fn typed(name: &str, suffix: &str) -> (text: String)
    ensures
        text@ == name@ + suffix@,
{
    String::from_str(name).concat(suffix)
}

/// A word and the number after it.
fn numbered(prefix: &str, n: u32) -> (text: String)
    ensures
        text@ == prefix@ + decimal(n as int),
{
    String::from_str(prefix).concat(decimal_text(n as i128).as_str())
}

/// An access to memory: the flags and the offset of its immediate.
fn plain_access(prefix: &str, memarg: crate::operator::MemoryImmediate) -> (text: String)
    ensures
        text@ == prefix@ + decimal(memarg.flags as int) + ", "@ + decimal(memarg.offset as int),
{
    let mut text = String::from_str(prefix);
    text.append(decimal_text(memarg.flags as i128).as_str());
    text.append(", ");
    text.append(decimal_text(memarg.offset as i128).as_str());
    text
}

/// An access to memory of a type.
fn access(name: &str, suffix: &str, memarg: crate::operator::MemoryImmediate) -> (text: String)
    ensures
        text@ == name@ + suffix@ + decimal(memarg.flags as int) + ", "@ + decimal(
            memarg.offset as int,
        ),
{
    let mut text = String::from_str(name);
    text.append(suffix);
    text.append(decimal_text(memarg.flags as i128).as_str());
    text.append(", ");
    text.append(decimal_text(memarg.offset as i128).as_str());
    text
}

/// Two types and what stands between them.
fn between(first: &str, middle: &str, second: &str) -> (text: String)
    ensures
        text@ == first@ + middle@ + second@,
{
    let mut text = String::from_str(first);
    text.append(middle);
    text.append(second);
    text
}

/// The text of the operator that drops the depths of `range`: the range is
/// left out where it is the top of the stack alone, and one depth is written
/// alone.
pub open spec fn drop_text(range: DropRange) -> Seq<char> {
    if range.start == 0 && range.end == 0 {
        "drop"@
    } else if range.start == range.end {
        "drop "@ + decimal(range.start as int)
    } else {
        "drop "@ + range.spec_text()
    }
}

/// The text of the declaration of a block.
pub open spec fn declare_text<L: LabelText>(
    label: L,
    params: Params,
    has_backwards_callers: bool,
    num_callers: NumCallers,
) -> Seq<char> {
    "def "@ + BrTarget::Label(label).spec_text() + " :: "@ + params.spec_text() + (
    if has_backwards_callers {
        " has_backwards_callers"@
    } else {
        ""@
    }) + " num_callers="@ + num_callers.spec_text()
}

/// The text of the declaration of a block.
fn declared<L: LabelText>(
    label: &L,
    params: &Params,
    has_backwards_callers: bool,
    num_callers: NumCallers,
) -> (text: String)
    ensures
        text@ == declare_text(*label, *params, has_backwards_callers, num_callers),
{
    let mut text = String::from_str("def ");
    text.append(label_target_text(label).as_str());
    text.append(" :: ");
    text.append(params.text().as_str());
    if has_backwards_callers {
        text.append(" has_backwards_callers");
    } else {
        text.append("");
    }
    text.append(" num_callers=");
    text.append(num_callers.text());
    text
}

/// The text of the start of a block.
fn started<L: LabelText>(label: &L) -> (text: String)
    ensures
        text@ == "start "@ + BrTarget::Label(*label).spec_text() + ":"@,
{
    let mut text = String::from_str("start ");
    text.append(label_target_text(label).as_str());
    text.append(":");
    text
}

/// The text of the operator that drops the depths of `range`.
fn dropped_text(range: DropRange) -> (text: String)
    ensures
        text@ == drop_text(range),
{
    if range.start == 0 && range.end == 0 {
        String::from_str("drop")
    } else if range.start == range.end {
        String::from_str("drop ").concat(decimal_text(range.start as i128).as_str())
    } else {
        String::from_str("drop ").concat(range.text().as_str())
    }
}

impl<L: LabelText> Operator<L> {
    /// The text of the operator. Where the operator is a float constant,
    /// `float` holds the digits of the float.
    pub open spec fn spec_text(self, float: Seq<char>) -> Seq<char> {
        match self {
            Operator::Declare { label, params, has_backwards_callers, num_callers } => declare_text(
                label,
                params,
                has_backwards_callers,
                num_callers,
            ),
            Operator::Start(label) => "start "@ + BrTarget::Label(label).spec_text() + ":"@,
            Operator::End(targets) => "end "@ + targets.spec_text(),
            Operator::Drop(range) => drop_text(range),
            Operator::Const(value) => "const "@ + value.spec_text(float),
            Operator::Unreachable => "unreachable"@,
            Operator::Call { function_index } => "call "@ + decimal(function_index as int),
            Operator::CallIndirect { .. } => "call_indirect"@,
            Operator::Select => "select"@,
            Operator::Pick(depth) => "pick "@ + decimal(depth as int),
            Operator::Swap(depth) => "swap "@ + decimal(depth as int),
            Operator::GlobalGet(index) => "global.get "@ + decimal(index as int),
            Operator::GlobalSet(index) => "global.set "@ + decimal(index as int),
            Operator::Load { ty, memarg } => signless_text(ty) + ".load "@ + decimal(memarg.flags as int) + ", "@ + decimal(memarg.offset as int),
            Operator::Load8 { ty, memarg } => signful_int_text(ty) + ".load8 "@ + decimal(memarg.flags as int) + ", "@ + decimal(memarg.offset as int),
            Operator::Load16 { ty, memarg } => signful_int_text(ty) + ".load16 "@ + decimal(memarg.flags as int) + ", "@ + decimal(memarg.offset as int),
            Operator::Load32 { sign, memarg } => signful_int_text(SignfulInt(sign, Size::_64)) + ".load32 "@ + decimal(memarg.flags as int) + ", "@ + decimal(memarg.offset as int),
            Operator::Store { ty, memarg } => signless_text(ty) + ".store "@ + decimal(memarg.flags as int) + ", "@ + decimal(memarg.offset as int),
            Operator::Store8 { ty, memarg } => signful_int_text(SignfulInt(Signedness::Unsigned, ty)) + ".store8 "@ + decimal(memarg.flags as int) + ", "@ + decimal(memarg.offset as int),
            Operator::Store16 { ty, memarg } => signful_int_text(SignfulInt(Signedness::Unsigned, ty)) + ".store16 "@ + decimal(memarg.flags as int) + ", "@ + decimal(memarg.offset as int),
            Operator::Store32 { memarg } => "u64.store32 "@ + decimal(memarg.flags as int) + ", "@ + decimal(memarg.offset as int),
            Operator::MemorySize { .. } => "memory.size"@,
            Operator::MemoryGrow { .. } => "memory.grow"@,
            Operator::Eq(ty) => signless_text(ty) + ".eq"@,
            Operator::Ne(ty) => signless_text(ty) + ".ne"@,
            Operator::Eqz(ty) => signful_int_text(SignfulInt(Signedness::Unsigned, ty)) + ".eqz"@,
            Operator::Lt(ty) => signful_text(ty) + ".lt"@,
            Operator::Gt(ty) => signful_text(ty) + ".gt"@,
            Operator::Le(ty) => signful_text(ty) + ".le"@,
            Operator::Ge(ty) => signful_text(ty) + ".ge"@,
            Operator::Add(ty) => signless_text(ty) + ".add"@,
            Operator::Sub(ty) => signless_text(ty) + ".sub"@,
            Operator::Mul(ty) => signless_text(ty) + ".mul"@,
            Operator::Clz(ty) => signful_int_text(SignfulInt(Signedness::Unsigned, ty)) + ".clz"@,
            Operator::Ctz(ty) => signful_int_text(SignfulInt(Signedness::Unsigned, ty)) + ".ctz"@,
            Operator::Popcnt(ty) => signful_int_text(SignfulInt(Signedness::Unsigned, ty)) + ".popcnt"@,
            Operator::Div(ty) => signful_text(ty) + ".div"@,
            Operator::Rem(ty) => signful_int_text(ty) + ".rem"@,
            Operator::And(ty) => signful_int_text(SignfulInt(Signedness::Unsigned, ty)) + ".and"@,
            Operator::Or(ty) => signful_int_text(SignfulInt(Signedness::Unsigned, ty)) + ".or"@,
            Operator::Xor(ty) => signful_int_text(SignfulInt(Signedness::Unsigned, ty)) + ".xor"@,
            Operator::Shl(ty) => signful_int_text(SignfulInt(Signedness::Unsigned, ty)) + ".shl"@,
            Operator::Shr(ty) => signful_int_text(ty) + ".shr"@,
            Operator::Rotl(ty) => signful_int_text(SignfulInt(Signedness::Unsigned, ty)) + ".rotl"@,
            Operator::Rotr(ty) => signful_int_text(SignfulInt(Signedness::Unsigned, ty)) + ".rotr"@,
            Operator::Abs(ty) => float_text(ty) + ".abs"@,
            Operator::Neg(ty) => float_text(ty) + ".neg"@,
            Operator::Ceil(ty) => float_text(ty) + ".ceil"@,
            Operator::Floor(ty) => float_text(ty) + ".floor"@,
            Operator::Trunc(ty) => float_text(ty) + ".trunc"@,
            Operator::Nearest(ty) => float_text(ty) + ".nearest"@,
            Operator::Sqrt(ty) => float_text(ty) + ".sqrt"@,
            Operator::Min(ty) => float_text(ty) + ".min"@,
            Operator::Max(ty) => float_text(ty) + ".max"@,
            Operator::Copysign(ty) => float_text(ty) + ".copysign"@,
            Operator::I32WrapFromI64 => "i32.wrap_from.i64"@,
            Operator::ITruncFromF { input_ty, output_ty } => signful_int_text(output_ty) + ".truncate_from."@ + float_text(input_ty),
            Operator::FConvertFromI { input_ty, output_ty } => float_text(output_ty) + ".convert_from."@ + signful_int_text(input_ty),
            Operator::F32DemoteFromF64 => "f32.demote_from.f64"@,
            Operator::F64PromoteFromF32 => "f64.promote_from.f32"@,
            Operator::I32ReinterpretFromF32 => "i32.reinterpret_from.f32"@,
            Operator::I64ReinterpretFromF64 => "i64.reinterpret_from.f64"@,
            Operator::F32ReinterpretFromI32 => "f32.reinterpret_from.i32"@,
            Operator::F64ReinterpretFromI64 => "f64.reinterpret_from.i64"@,
            Operator::Extend8 { size } => signful_int_text(SignfulInt(Signedness::Signed, size)) + ".extend_from.i8"@,
            Operator::Extend16 { size } => signful_int_text(SignfulInt(Signedness::Signed, size)) + ".extend_from.i16"@,
            Operator::Extend32 { sign } => signful_int_text(SignfulInt(sign, Size::_64)) + ".extend_from."@ + signful_int_text(SignfulInt(sign, Size::_32)),
        }
    }

    /// The text of the operator, which is an access to memory or to its size.
    fn memory_text(&self, float: &str) -> (text: String)
        requires
            *self is Load || *self is Load8 || *self is Load16 || *self is Load32 || *self is Store || *self is Store8 || *self is Store16 || *self is Store32 || *self is MemorySize || *self is MemoryGrow,
        ensures
            text@ == self.spec_text(float@),
    {
        match self {
            Operator::Load { ty, memarg } => access(signless_name(*ty), ".load ", *memarg),
            Operator::Load8 { ty, memarg } => access(signful_int_name(*ty), ".load8 ", *memarg),
            Operator::Load16 { ty, memarg } => access(signful_int_name(*ty), ".load16 ", *memarg),
            Operator::Load32 { sign, memarg } => access(signful_int_name(SignfulInt(*sign, Size::_64)), ".load32 ", *memarg),
            Operator::Store { ty, memarg } => access(signless_name(*ty), ".store ", *memarg),
            Operator::Store8 { ty, memarg } => access(signful_int_name(SignfulInt(Signedness::Unsigned, *ty)), ".store8 ", *memarg),
            Operator::Store16 { ty, memarg } => access(signful_int_name(SignfulInt(Signedness::Unsigned, *ty)), ".store16 ", *memarg),
            Operator::Store32 { memarg } => plain_access("u64.store32 ", *memarg),
            Operator::MemorySize { .. } => String::from_str("memory.size"),
            Operator::MemoryGrow { .. } => String::from_str("memory.grow"),
            _ => String::from_str(""),
        }
    }

    /// The text of the operator, which is a test or a comparison.
    fn comparison_text(&self, float: &str) -> (text: String)
        requires
            *self is Eq || *self is Ne || *self is Eqz || *self is Lt || *self is Gt || *self is Le || *self is Ge,
        ensures
            text@ == self.spec_text(float@),
    {
        match self {
            Operator::Eq(ty) => typed(signless_name(*ty), ".eq"),
            Operator::Ne(ty) => typed(signless_name(*ty), ".ne"),
            Operator::Eqz(ty) => typed(signful_int_name(SignfulInt(Signedness::Unsigned, *ty)), ".eqz"),
            Operator::Lt(ty) => typed(signful_name(*ty), ".lt"),
            Operator::Gt(ty) => typed(signful_name(*ty), ".gt"),
            Operator::Le(ty) => typed(signful_name(*ty), ".le"),
            Operator::Ge(ty) => typed(signful_name(*ty), ".ge"),
            _ => String::from_str(""),
        }
    }

    /// The text of the operator, which is an arithmetic or bitwise operation.
    fn integer_text(&self, float: &str) -> (text: String)
        requires
            *self is Add || *self is Sub || *self is Mul || *self is Clz || *self is Ctz || *self is Popcnt || *self is Div || *self is Rem || *self is And || *self is Or || *self is Xor || *self is Shl || *self is Shr || *self is Rotl || *self is Rotr,
        ensures
            text@ == self.spec_text(float@),
    {
        match self {
            Operator::Add(ty) => typed(signless_name(*ty), ".add"),
            Operator::Sub(ty) => typed(signless_name(*ty), ".sub"),
            Operator::Mul(ty) => typed(signless_name(*ty), ".mul"),
            Operator::Clz(ty) => typed(signful_int_name(SignfulInt(Signedness::Unsigned, *ty)), ".clz"),
            Operator::Ctz(ty) => typed(signful_int_name(SignfulInt(Signedness::Unsigned, *ty)), ".ctz"),
            Operator::Popcnt(ty) => typed(signful_int_name(SignfulInt(Signedness::Unsigned, *ty)), ".popcnt"),
            Operator::Div(ty) => typed(signful_name(*ty), ".div"),
            Operator::Rem(ty) => typed(signful_int_name(*ty), ".rem"),
            Operator::And(ty) => typed(signful_int_name(SignfulInt(Signedness::Unsigned, *ty)), ".and"),
            Operator::Or(ty) => typed(signful_int_name(SignfulInt(Signedness::Unsigned, *ty)), ".or"),
            Operator::Xor(ty) => typed(signful_int_name(SignfulInt(Signedness::Unsigned, *ty)), ".xor"),
            Operator::Shl(ty) => typed(signful_int_name(SignfulInt(Signedness::Unsigned, *ty)), ".shl"),
            Operator::Shr(ty) => typed(signful_int_name(*ty), ".shr"),
            Operator::Rotl(ty) => typed(signful_int_name(SignfulInt(Signedness::Unsigned, *ty)), ".rotl"),
            Operator::Rotr(ty) => typed(signful_int_name(SignfulInt(Signedness::Unsigned, *ty)), ".rotr"),
            _ => String::from_str(""),
        }
    }

    /// The text of the operator, which is an operation on floats alone.
    fn float_op_text(&self, float: &str) -> (text: String)
        requires
            *self is Abs || *self is Neg || *self is Ceil || *self is Floor || *self is Trunc || *self is Nearest || *self is Sqrt || *self is Min || *self is Max || *self is Copysign,
        ensures
            text@ == self.spec_text(float@),
    {
        match self {
            Operator::Abs(ty) => typed(float_name(*ty), ".abs"),
            Operator::Neg(ty) => typed(float_name(*ty), ".neg"),
            Operator::Ceil(ty) => typed(float_name(*ty), ".ceil"),
            Operator::Floor(ty) => typed(float_name(*ty), ".floor"),
            Operator::Trunc(ty) => typed(float_name(*ty), ".trunc"),
            Operator::Nearest(ty) => typed(float_name(*ty), ".nearest"),
            Operator::Sqrt(ty) => typed(float_name(*ty), ".sqrt"),
            Operator::Min(ty) => typed(float_name(*ty), ".min"),
            Operator::Max(ty) => typed(float_name(*ty), ".max"),
            Operator::Copysign(ty) => typed(float_name(*ty), ".copysign"),
            _ => String::from_str(""),
        }
    }

    /// The text of the operator, which is a conversion.
    fn conversion_text(&self, float: &str) -> (text: String)
        requires
            *self is I32WrapFromI64 || *self is ITruncFromF || *self is FConvertFromI || *self is F32DemoteFromF64 || *self is F64PromoteFromF32 || *self is I32ReinterpretFromF32 || *self is I64ReinterpretFromF64 || *self is F32ReinterpretFromI32 || *self is F64ReinterpretFromI64 || *self is Extend8 || *self is Extend16 || *self is Extend32,
        ensures
            text@ == self.spec_text(float@),
    {
        match self {
            Operator::I32WrapFromI64 => String::from_str("i32.wrap_from.i64"),
            Operator::ITruncFromF { input_ty, output_ty } => between(signful_int_name(*output_ty), ".truncate_from.", float_name(*input_ty)),
            Operator::FConvertFromI { input_ty, output_ty } => between(float_name(*output_ty), ".convert_from.", signful_int_name(*input_ty)),
            Operator::F32DemoteFromF64 => String::from_str("f32.demote_from.f64"),
            Operator::F64PromoteFromF32 => String::from_str("f64.promote_from.f32"),
            Operator::I32ReinterpretFromF32 => String::from_str("i32.reinterpret_from.f32"),
            Operator::I64ReinterpretFromF64 => String::from_str("i64.reinterpret_from.f64"),
            Operator::F32ReinterpretFromI32 => String::from_str("f32.reinterpret_from.i32"),
            Operator::F64ReinterpretFromI64 => String::from_str("f64.reinterpret_from.i64"),
            Operator::Extend8 { size } => typed(signful_int_name(SignfulInt(Signedness::Signed, *size)), ".extend_from.i8"),
            Operator::Extend16 { size } => typed(signful_int_name(SignfulInt(Signedness::Signed, *size)), ".extend_from.i16"),
            Operator::Extend32 { sign } => between(signful_int_name(SignfulInt(*sign, Size::_64)), ".extend_from.", signful_int_name(SignfulInt(*sign, Size::_32))),
            _ => String::from_str(""),
        }
    }

    /// The text of the operator, as listings show it. This library does not
    /// write the digits of floats: where the operator is a float constant,
    /// `float` holds them; for every other operator `float` counts for nothing.
    pub fn text(&self, float: &str) -> (text: String)
        ensures
            text@ == self.spec_text(float@),
    {
        match self {
            Operator::Declare { label, params, has_backwards_callers, num_callers } => declared(
                label,
                params,
                *has_backwards_callers,
                *num_callers,
            ),
            Operator::Start(label) => started(label),
            Operator::End(targets) => String::from_str("end ").concat(targets.text().as_str()),
            Operator::Drop(range) => dropped_text(*range),
            Operator::Const(value) => String::from_str("const ").concat(
                value.text(float).as_str(),
            ),
            Operator::Unreachable => String::from_str("unreachable"),
            Operator::Call { function_index } => numbered("call ", *function_index),
            Operator::CallIndirect { .. } => String::from_str("call_indirect"),
            Operator::Select => String::from_str("select"),
            Operator::Pick(depth) => numbered("pick ", *depth),
            Operator::Swap(depth) => numbered("swap ", *depth),
            Operator::GlobalGet(index) => numbered("global.get ", *index),
            Operator::GlobalSet(index) => numbered("global.set ", *index),
            Operator::Load { .. } | Operator::Load8 { .. } | Operator::Load16 { .. } | Operator::Load32 { .. } | Operator::Store { .. } | Operator::Store8 { .. } | Operator::Store16 { .. } | Operator::Store32 { .. } | Operator::MemorySize { .. } | Operator::MemoryGrow { .. } => self.memory_text(float),
            Operator::Eq(..) | Operator::Ne(..) | Operator::Eqz(..) | Operator::Lt(..) | Operator::Gt(..) | Operator::Le(..) | Operator::Ge(..) => self.comparison_text(float),
            Operator::Add(..) | Operator::Sub(..) | Operator::Mul(..) | Operator::Clz(..) | Operator::Ctz(..) | Operator::Popcnt(..) | Operator::Div(..) | Operator::Rem(..) | Operator::And(..) | Operator::Or(..) | Operator::Xor(..) | Operator::Shl(..) | Operator::Shr(..) | Operator::Rotl(..) | Operator::Rotr(..) => self.integer_text(float),
            Operator::Abs(..) | Operator::Neg(..) | Operator::Ceil(..) | Operator::Floor(..) | Operator::Trunc(..) | Operator::Nearest(..) | Operator::Sqrt(..) | Operator::Min(..) | Operator::Max(..) | Operator::Copysign(..) => self.float_op_text(float),
            Operator::I32WrapFromI64 | Operator::ITruncFromF { .. } | Operator::FConvertFromI { .. } | Operator::F32DemoteFromF64 | Operator::F64PromoteFromF32 | Operator::I32ReinterpretFromF32 | Operator::I64ReinterpretFromF64 | Operator::F32ReinterpretFromI32 | Operator::F64ReinterpretFromI64 | Operator::Extend8 { .. } | Operator::Extend16 { .. } | Operator::Extend32 { .. } => self.conversion_text(float),
        }
    }
}

impl SourceLoc {
    /// The position as listings show it: `@-` for what has no position, else
    /// `@` and the bits in base sixteen.
    pub open spec fn spec_text(self) -> Seq<char> {
        if self.0 == u32::MAX {
            "@-"@
        } else {
            "@"@ + hex4(self.0 as nat)
        }
    }

    /// The position as listings show it.
    pub fn text(&self) -> (text: String)
        ensures
            text@ == self.spec_text(),
    {
        if self.is_default() {
            String::from_str("@-")
        } else {
            String::from_str("@").concat(hex4_text(self.0).as_str())
        }
    }
}

/// The line of a listing for the operator `op` that came from the source
/// position `offset`: the start of a block stands at the left edge, a
/// declaration after a tab, any other operator after its position, a tab and
/// two spaces; five spaces stand for the position where there is none.
pub open spec fn op_line<L: LabelText>(op: Operator<L>, offset: SourceLoc, float: Seq<char>) -> Seq<
    char,
> {
    if op is Start {
        op.spec_text(float)
    } else if op is Declare {
        "     \t"@ + op.spec_text(float)
    } else if offset.0 == u32::MAX {
        "     \t  "@ + op.spec_text(float)
    } else {
        offset.spec_text() + "\t  "@ + op.spec_text(float)
    }
}

impl<L: LabelText> Listing<L> {
    /// The line as listings show it. Where the line is that of a float
    /// constant, `float` holds the digits of the float.
    pub open spec fn spec_text(self, float: Seq<char>) -> Seq<char> {
        match self {
            Listing::Function(index) => "start .Fn"@ + decimal(index as int) + ":"@,
            Listing::Op(op) => op_line(op.op, op.offset, float),
        }
    }

    /// The line as listings show it. This library does not write the digits
    /// of floats: where the line is that of a float constant, `float` holds
    /// them.
    pub fn text(&self, float: &str) -> (text: String)
        ensures
            text@ == self.spec_text(float@),
    {
        match self {
            Listing::Function(index) => {
                let mut text = String::from_str("start .Fn");
                text.append(decimal_text(*index as i128).as_str());
                text.append(":");
                text
            },
            Listing::Op(op) => {
                let line = op.op.text(float);
                if op.op.is_label() {
                    line
                } else if op.op.is_block() {
                    String::from_str("     \t").concat(line.as_str())
                } else if op.offset.is_default() {
                    String::from_str("     \t  ").concat(line.as_str())
                } else {
                    let mut text = op.offset.text();
                    text.append("\t  ");
                    text.append(line.as_str());
                    text
                }
            },
        }
    }
}

/// The listing of the operators `microwasm` of the function `function_name`:
/// a line with the name, then a line for each operator, indented unless the
/// operator declares or starts a block.
pub open spec fn dis_text<L: LabelText>(
    function_name: Seq<char>,
    microwasm: Seq<Operator<L>>,
    floats: Seq<String>,
) -> Seq<char>
    decreases microwasm.len(),
{
    if microwasm.len() == 0 {
        ".fn_"@ + function_name + ":\n"@
    } else {
        let op = microwasm.last();
        let float = if microwasm.len() <= floats.len() {
            floats[microwasm.len() - 1]@
        } else {
            ""@
        };
        dis_text(function_name, microwasm.drop_last(), floats) + (if op is Start || op is Declare {
            ""@
        } else {
            "      "@
        }) + op.spec_text(float) + "\n"@
    }
}

/// The listing of the operators `microwasm` of the function `function_name`.
/// This library does not write the digits of floats: `floats` holds, for each
/// operator that is a float constant, the digits of the float, at the index of
/// the operator.
pub fn dis<L: LabelText>(function_name: &str, microwasm: &Vec<Operator<L>>, floats: &Vec<String>) -> (out:
    String)
    ensures
        out@ == dis_text(function_name@, microwasm@, floats@),
{
    let mut out = String::from_str(".fn_");
    out.append(function_name);
    out.append(":\n");
    let mut i: usize = 0;
    while i < microwasm.len()
        invariant
            i <= microwasm@.len(),
            out@ == dis_text(function_name@, microwasm@.take(i as int), floats@),
        decreases microwasm.len() - i,
    {
        let ghost longer = microwasm@.take(i as int + 1);
        proof {
            assert(longer.drop_last() == microwasm@.take(i as int));
            assert(longer.last() == microwasm@[i as int]);
            reveal_strlit("");
        }
        let op = &microwasm[i];
        if !(op.is_label() || op.is_block()) {
            out.append("      ");
        }
        if i < floats.len() {
            out.append(op.text(floats[i].as_str()).as_str());
        } else {
            out.append(op.text("").as_str());
        }
        out.append("\n");
        proof {
            assert(out@ =~= dis_text(function_name@, longer, floats@));
        }
        i += 1;
    }
    proof {
        assert(microwasm@.take(i as int) == microwasm@);
    }
    out
}

} // verus!
