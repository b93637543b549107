//! The stack of structured blocks that are open while a function is lowered.

use crate::operator::{BrTarget, DropRange, NameTag, WasmLabel};
use crate::types::SignlessType;
use vstd::prelude::*;

verus! {

/// What kind of structured block a control frame stands for.
#[derive(Debug, Copy, Clone, PartialEq, Eq, Structural)]
pub enum ControlFrameKind {
    /// A `block`; `needs_end_label` once something branches to its end.
    Block { needs_end_label: bool },
    /// The function body itself.
    Function,
    /// A `loop`: branches to it go back to its start.
    Loop,
    /// An `if`; `has_else` once its `else` has been seen.
    If { has_else: bool },
}

/// One open structured block.
#[derive(Debug, Clone, PartialEq)]
pub struct ControlFrame {
    /// The number that the labels of the block carry.
    pub id: u32,
    /// The height of the type stack when the block was entered.
    pub arguments: u32,
    /// The types that the block leaves on the stack.
    pub returns: Vec<SignlessType>,
    pub kind: ControlFrameKind,
}

/// One open structured block, with the types it leaves as a sequence.
pub struct ControlFrameView {
    pub id: u32,
    pub arguments: u32,
    pub returns: Seq<SignlessType>,
    pub kind: ControlFrameKind,
}

impl View for ControlFrame {
    type V = ControlFrameView;

    open spec fn view(&self) -> ControlFrameView {
        ControlFrameView {
            id: self.id,
            arguments: self.arguments,
            returns: self.returns@,
            kind: self.kind,
        }
    }
}

impl ControlFrameView {
    /// Whether the end of the block gets a label of its own.
    pub open spec fn needs_end_label(self) -> bool {
        match self.kind {
            ControlFrameKind::Block { needs_end_label } => needs_end_label,
            ControlFrameKind::If { .. } => true,
            ControlFrameKind::Loop | ControlFrameKind::Function => false,
        }
    }

    /// The frame after a branch to it was seen.
    pub open spec fn branched_to(self) -> ControlFrameView {
        match self.kind {
            ControlFrameKind::Block { .. } => ControlFrameView {
                kind: ControlFrameKind::Block { needs_end_label: true },
                ..self
            },
            _ => self,
        }
    }

    /// The frame after its `else` was seen.
    pub open spec fn with_else(self) -> ControlFrameView {
        match self.kind {
            ControlFrameKind::If { .. } => ControlFrameView {
                kind: ControlFrameKind::If { has_else: true },
                ..self
            },
            _ => self,
        }
    }

    /// Where a branch to the block goes: a loop is entered again at its
    /// header, the function is left, any other block is left at its end.
    pub open spec fn br_target(self) -> BrTarget<WasmLabel> {
        match self.kind {
            ControlFrameKind::Loop => BrTarget::Label((self.id, NameTag::Header)),
            ControlFrameKind::Function => BrTarget::Return,
            ControlFrameKind::Block { .. } | ControlFrameKind::If { .. } => BrTarget::Label(
                (self.id, NameTag::End),
            ),
        }
    }

    /// The depths to discard before a branch to the block, on a type stack of
    /// height `stack_len`: from under the values that the block leaves, down
    /// to the last slot that the block's own entry height does not cover (for
    /// the function, down to the bottom of the stack).
    pub open spec fn to_drop(self, stack_len: nat) -> Option<DropRange> {
        let first = self.returns.len();
        let last: int = if self.kind == ControlFrameKind::Function {
            stack_len - 1
        } else {
            stack_len - 1 - self.arguments
        };
        if stack_len >= 1 && first <= last && last <= u32::MAX {
            Some(DropRange { start: first as u32, end: last as u32 })
        } else {
            None
        }
    }
}

impl ControlFrame {
    /// Whether the end of the block gets a label of its own.
    pub fn needs_end_label(&self) -> (b: bool)
        ensures
            b == self@.needs_end_label(),
    {
        match self.kind {
            ControlFrameKind::Block { needs_end_label } => needs_end_label,
            ControlFrameKind::If { .. } => true,
            ControlFrameKind::Loop | ControlFrameKind::Function => false,
        }
    }

    /// Records that something branches to the block.
    pub fn mark_branched_to(&mut self)
        ensures
            final(self)@ == old(self)@.branched_to(),
    {
        match self.kind {
            ControlFrameKind::Block { .. } => {
                self.kind = ControlFrameKind::Block { needs_end_label: true };
            },
            _ => {},
        }
    }

    /// Where a branch to the block goes.
    pub fn br_target(&self) -> (t: BrTarget<WasmLabel>)
        ensures
            t == self@.br_target(),
    {
        match self.kind {
            ControlFrameKind::Loop => BrTarget::Label((self.id, NameTag::Header)),
            ControlFrameKind::Function => BrTarget::Return,
            ControlFrameKind::Block { .. } | ControlFrameKind::If { .. } => {
                BrTarget::Label((self.id, NameTag::End))
            },
        }
    }

    /// The depths to discard before a branch to the block, on a type stack of
    /// height `stack_len`.
    pub fn to_drop(&self, stack_len: usize) -> (r: Option<DropRange>)
        ensures
            r == self@.to_drop(stack_len as nat),
    {
        if stack_len == 0 {
            return None;
        }
        let top = stack_len - 1;
        let last = match self.kind {
            ControlFrameKind::Function => top,
            _ => {
                if top < self.arguments as usize {
                    return None;
                }
                top - self.arguments as usize
            },
        };
        if self.returns.len() <= last && last <= u32::MAX as usize {
            Some(DropRange { start: self.returns.len() as u32, end: last as u32 })
        } else {
            None
        }
    }
}

/// The open structured blocks, the innermost last.
#[derive(Debug, Default)]
pub struct ControlFrames {
    pub inner: Vec<ControlFrame>,
}

impl View for ControlFrames {
    type V = Seq<ControlFrameView>;

    open spec fn view(&self) -> Seq<ControlFrameView> {
        self.inner@.map_values(|f: ControlFrame| f@)
    }
}

/// The frame that a relative depth of `n` names among `frames`: depth 0 is
/// the innermost.
pub open spec fn frame_at(frames: Seq<ControlFrameView>, n: nat) -> Option<ControlFrameView> {
    if n < frames.len() {
        Some(frames[frames.len() - 1 - n])
    } else {
        None
    }
}

/// The frames with the one at relative depth `n` replaced by `frame`.
pub open spec fn with_frame_at(
    frames: Seq<ControlFrameView>,
    n: nat,
    frame: ControlFrameView,
) -> Seq<ControlFrameView>
    recommends
        n < frames.len(),
{
    frames.update(frames.len() - 1 - n, frame)
}

impl ControlFrames {
    /// No open blocks.
    pub fn new() -> (frames: Self)
        ensures
            frames@ == Seq::<ControlFrameView>::empty(),
    {
        let frames = ControlFrames { inner: Vec::new() };
        proof {
            assert(frames@ =~= Seq::<ControlFrameView>::empty());
        }
        frames
    }

    /// The outermost frame: that of the function.
    pub fn function_block(&self) -> (frame: &ControlFrame)
        requires
            self@.len() > 0,
        ensures
            frame@ == self@[0],
    {
        &self.inner[0]
    }

    /// The frame at relative depth `n`.
    pub fn get(&self, n: usize) -> (frame: Option<&ControlFrame>)
        ensures
            match frame_at(self@, n as nat) {
                Some(f) => frame matches Some(r) && r@ == f,
                None => frame is None,
            },
    {
        if n < self.inner.len() {
            Some(&self.inner[self.inner.len() - 1 - n])
        } else {
            None
        }
    }

    /// The innermost frame.
    pub fn top(&self) -> (frame: Option<&ControlFrame>)
        ensures
            match frame_at(self@, 0) {
                Some(f) => frame matches Some(r) && r@ == f,
                None => frame is None,
            },
    {
        self.get(0)
    }

    /// The frame at relative depth `n`, to be changed in place.
    pub fn get_mut(&mut self, n: usize) -> (frame: Option<&mut ControlFrame>)
        ensures
            match frame {
                Some(f) => n < old(self)@.len() && f@ == frame_at(old(self)@, n as nat).unwrap()
                    && final(self)@ == with_frame_at(old(self)@, n as nat, final(f)@),
                None => n >= old(self)@.len() && final(self)@ == old(self)@,
            },
    {
        if n < self.inner.len() {
            let idx = self.inner.len() - 1 - n;
            let frame = &mut self.inner[idx];
            proof {
                assert(old(self).inner@.update(idx as int, *final(frame)).map_values(
                    |f: ControlFrame| f@,
                ) =~= with_frame_at(old(self)@, n as nat, final(frame)@));
            }
            Some(frame)
        } else {
            None
        }
    }

    /// The innermost frame, to be changed in place.
    pub fn top_mut(&mut self) -> (frame: Option<&mut ControlFrame>)
        ensures
            match frame {
                Some(f) => 0 < old(self)@.len() && f@ == old(self)@.last() && final(self)@
                    == with_frame_at(old(self)@, 0, final(f)@),
                None => old(self)@.len() == 0 && final(self)@ == old(self)@,
            },
    {
        self.get_mut(0)
    }

    /// Whether no block is open.
    pub fn is_empty(&self) -> (b: bool)
        ensures
            b == (self@.len() == 0),
    {
        self.inner.is_empty()
    }

    /// How many blocks are open.
    pub fn len(&self) -> (n: usize)
        ensures
            n == self@.len(),
    {
        self.inner.len()
    }

    /// Closes the innermost block and gives its frame.
    pub fn pop(&mut self) -> (frame: Option<ControlFrame>)
        ensures
            match frame {
                Some(f) => old(self)@.len() > 0 && f@ == old(self)@.last() && final(self)@ == old(
                    self,
                )@.drop_last(),
                None => old(self)@.len() == 0 && final(self)@ == old(self)@,
            },
    {
        let frame = self.inner.pop();
        proof {
            if frame is Some {
                assert(self@ =~= old(self)@.drop_last());
            } else {
                assert(self@ =~= old(self)@);
            }
        }
        frame
    }

    /// Opens a block.
    pub fn push(&mut self, val: ControlFrame)
        ensures
            final(self)@ == old(self)@.push(val@),
    {
        self.inner.push(val);
        proof {
            assert(self@ =~= old(self)@.push(val@));
        }
    }

    /// Marks the frame at relative depth `n` as branched to.
    pub fn mark_branched_to(&mut self, n: usize)
        requires
            n < old(self)@.len(),
        ensures
            final(self)@ == with_frame_at(
                old(self)@,
                n as nat,
                frame_at(old(self)@, n as nat).unwrap().branched_to(),
            ),
    {
        let idx = self.inner.len() - 1 - n;
        let ghost before = self@;
        let frame = &mut self.inner[idx];
        frame.mark_branched_to();
        proof {
            assert(self@ =~= with_frame_at(
                before,
                n as nat,
                frame_at(before, n as nat).unwrap().branched_to(),
            ));
        }
    }

    /// Records on the innermost frame that its `else` was seen.
    pub fn mark_else(&mut self)
        requires
            old(self)@.len() > 0,
        ensures
            final(self)@ == with_frame_at(old(self)@, 0, old(self)@.last().with_else()),
    {
        let idx = self.inner.len() - 1;
        let ghost before = self@;
        match self.inner[idx].kind {
            ControlFrameKind::If { .. } => {
                self.inner[idx].kind = ControlFrameKind::If { has_else: true };
            },
            _ => {},
        }
        proof {
            assert(self@ =~= with_frame_at(before, 0, before.last().with_else()));
        }
    }
}

} // verus!
