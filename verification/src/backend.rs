//! The values that the driver and the backend hand to each other.

use crate::operator::BrTarget;
use crate::types::Value;
use dynasmrt::{AssemblyOffset, DynamicLabel};
use vstd::prelude::*;

verus! {

/// A label of the assembler, as `dynasmrt` hands it out. The driver stores
/// labels and hands them back; it never looks inside one.
#[verifier::external_type_specification]
#[verifier::external_body]
pub struct ExDynamicLabel(DynamicLabel);

/// An offset into the code that the assembler has emitted, as `dynasmrt`
/// reports it. The driver stores offsets and hands them back.
#[verifier::external_type_specification]
#[verifier::external_body]
pub struct ExAssemblyOffset(AssemblyOffset);

/// Why emitted code traps. The backend knows the trap code that stands for
/// each reason; the driver only names the reason.
#[derive(Debug, Copy, Clone, PartialEq, Eq, Structural)]
pub enum TrapReason {
    /// Code was reached though it cannot be.
    UnreachableCodeReached,
}

/// A machine label of the backend.
#[derive(Debug, Copy, Clone, PartialEq, Eq)]
pub struct Label(pub DynamicLabel);

/// A register of the machine: general-purpose or floating-point.
#[derive(Debug, Copy, Clone, PartialEq, Eq, Hash, Structural)]
pub enum GPR {
    Rq(u8),
    Rx(u8),
}

/// Where the backend holds a value.
#[derive(Debug, Copy, Clone, PartialEq, Eq, Structural)]
pub enum ValueLocation {
    /// A slot of the machine stack, by its offset.
    Stack(i32),
    Reg(GPR),
    /// The flags of the last comparison, by condition code.
    Cond(u8),
    /// A constant that has not been materialised.
    Immediate(Value),
}

/// A place where a value can be when a block is entered.
#[derive(Debug, Copy, Clone, PartialEq, Eq, Structural)]
pub enum CCLoc {
    Reg(GPR),
    Stack(i32),
}

impl CCLoc {
    /// The place of a value that sits in a register or on the stack; `None`
    /// for a value that has no place of its own.
    pub open spec fn spec_try_from(loc: ValueLocation) -> Option<CCLoc> {
        match loc {
            ValueLocation::Reg(reg) => Some(CCLoc::Reg(reg)),
            ValueLocation::Stack(offset) => Some(CCLoc::Stack(offset)),
            _ => None,
        }
    }

    /// The place of `loc` as a place for a value of a block; `None` for a value
    /// that sits in the flags or is a constant.
    pub fn try_from(loc: ValueLocation) -> (r: Option<CCLoc>)
        ensures
            r == Self::spec_try_from(loc),
    {
        match loc {
            ValueLocation::Reg(reg) => Some(CCLoc::Reg(reg)),
            ValueLocation::Stack(offset) => Some(CCLoc::Stack(offset)),
            _ => None,
        }
    }
}

/// What the backend is asked to do with one value before a branch.
#[derive(Debug, Copy, Clone, PartialEq, Eq, Structural)]
pub enum MaybeCCLoc {
    /// Move it to this place.
    Concrete(CCLoc),
    /// Move it to a place of the backend's choice that survives the branch.
    Serialize,
    /// Leave it where it is.
    NoSerialize,
}

/// How far the machine stack has grown, in slots.
#[derive(Debug, Copy, Clone, PartialEq, Eq, Structural)]
pub struct StackDepth(pub u32);

/// The places of the values on the value stack, the top of the stack last.
#[derive(Debug, Clone, PartialEq, Eq)]
pub struct Locs {
    pub locs: Vec<ValueLocation>,
    pub max_depth: StackDepth,
}

/// The layout that every branch into a block has to produce: the place of
/// each value, and the depth of the machine stack if the block fixes one.
#[derive(Debug, Clone, PartialEq, Eq)]
pub struct CallingConvention {
    pub arguments: Locs,
    pub depth: Option<StackDepth>,
}

/// A layout with its places as a sequence.
pub struct ConventionView {
    pub locs: Seq<ValueLocation>,
    pub max_depth: StackDepth,
    pub depth: Option<StackDepth>,
}

impl View for CallingConvention {
    type V = ConventionView;

    open spec fn view(&self) -> ConventionView {
        ConventionView {
            locs: self.arguments.locs@,
            max_depth: self.arguments.max_depth,
            depth: self.depth,
        }
    }
}

/// The view of a convention that may not be there.
pub open spec fn convention_view(cc: Option<CallingConvention>) -> Option<ConventionView> {
    match cc {
        Some(cc) => Some(cc@),
        None => None,
    }
}

/// A copy of `locs`.
pub fn copy_locs(locs: &Vec<ValueLocation>) -> (out: Vec<ValueLocation>)
    ensures
        out@ == locs@,
{
    let mut out: Vec<ValueLocation> = Vec::new();
    let mut i: usize = 0;
    while i < locs.len()
        invariant
            i <= locs.len(),
            out@ == locs@.take(i as int),
        decreases locs.len() - i,
    {
        out.push(locs[i]);
        proof {
            assert(out@ =~= locs@.take(i as int + 1));
        }
        i += 1;
    }
    proof {
        assert(locs@.take(i as int) == locs@);
    }
    out
}

impl CallingConvention {
    /// A copy of the layout.
    pub fn duplicate(&self) -> (cc: Self)
        ensures
            cc@ == self@,
    {
        CallingConvention {
            arguments: Locs {
                locs: copy_locs(&self.arguments.locs),
                max_depth: self.arguments.max_depth,
            },
            depth: self.depth,
        }
    }
}

/// Whether a branch falls through to its target or jumps there.
#[derive(Debug, Copy, Clone, PartialEq, Eq, Structural)]
pub enum BrAction {
    Jump,
    Continue,
}

/// One edge of a branch, as the backend emits it.
#[derive(Debug, Copy, Clone, PartialEq, Eq)]
pub struct Target {
    pub target: BrTarget<Label>,
    pub action: BrAction,
}

} // verus!
