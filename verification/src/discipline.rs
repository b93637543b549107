//! The discipline of labels in what lowering emits: a block is declared once,
//! before it starts, and starts once.

use crate::conv::initial_state;
use crate::error::Failure;
use crate::frames::{frame_at, with_frame_at, ControlFrameKind, ControlFrameView};
use crate::lower::{
    const_ops, drops, enter, jump, lower, lower_else, lower_end, marked, next, skip, skip_one,
    step, Batch, ConvState, Skipped,
};
use crate::module::ModuleContext;
use crate::operator::{BrTarget, DropRange, NameTag, Operator, OperatorView, WasmLabel, WithLoc};

use crate::types::SignlessType;
use crate::wasm::{WasmOperator, WasmType};
use vstd::prelude::*;

verus! {

/// The labels that a stretch of operators has declared, and those among them
/// whose blocks it has started.
pub struct Labels {
    pub declared: Set<WasmLabel>,
    pub started: Set<WasmLabel>,
}

/// What one operator does to the labels: a declaration must be of a label
/// that was not declared before, a start of a label that was declared and
/// has not started. `None` where the operator breaks that rule.
pub open spec fn scan_one(l: Labels, op: OperatorView<WasmLabel>) -> Option<Labels> {
    match op {
        OperatorView::Declare { label, .. } => if l.declared.contains(label) {
            None
        } else {
            Some(Labels { declared: l.declared.insert(label), ..l })
        },
        OperatorView::Plain(Operator::Start(label)) => if l.declared.contains(label)
            && !l.started.contains(label) {
            Some(Labels { started: l.started.insert(label), ..l })
        } else {
            None
        },
        _ => Some(l),
    }
}

/// What a stretch of operators does to the labels, one operator after the
/// other; `None` where one of them breaks the rule.
pub open spec fn scan(l: Labels, ops: Seq<OperatorView<WasmLabel>>) -> Option<Labels>
    decreases ops.len(),
{
    if ops.len() == 0 {
        Some(l)
    } else {
        match scan(l, ops.drop_last()) {
            None => None,
            Some(l) => scan_one(l, ops.last()),
        }
    }
}

/// Whether an operator neither declares nor starts a block.
pub open spec fn label_free(op: OperatorView<WasmLabel>) -> bool {
    !(op is Declare) && !(op matches OperatorView::Plain(Operator::Start(_)))
}

/// Reading one more operator is reading the operators before it, then that one.
pub proof fn lemma_scan_push(l: Labels, ops: Seq<OperatorView<WasmLabel>>, op: OperatorView<WasmLabel>)
    ensures
        scan(l, ops.push(op)) == match scan(l, ops) {
            None => None,
            Some(l) => scan_one(l, op),
        },
{
    assert(ops.push(op).drop_last() == ops);
}

/// Reading two stretches in a row is reading the first, then the second from
/// where the first left the labels.
pub proof fn lemma_scan_append(
    l: Labels,
    a: Seq<OperatorView<WasmLabel>>,
    b: Seq<OperatorView<WasmLabel>>,
)
    ensures
        scan(l, a + b) == match scan(l, a) {
            None => None,
            Some(l) => scan(l, b),
        },
    decreases b.len(),
{
    if b.len() == 0 {
        assert(a + b == a);
    } else {
        assert((a + b).drop_last() == a + b.drop_last());
        lemma_scan_append(l, a, b.drop_last());
    }
}

/// Operators that neither declare nor start a block leave the labels alone.
pub proof fn lemma_scan_label_free(l: Labels, ops: Seq<OperatorView<WasmLabel>>)
    requires
        forall|i: int| 0 <= i < ops.len() ==> label_free(#[trigger] ops[i]),
    ensures
        scan(l, ops) == Some(l),
    decreases ops.len(),
{
    if ops.len() > 0 {
        assert forall|i: int| 0 <= i < ops.drop_last().len() implies label_free(
            #[trigger] ops.drop_last()[i],
        ) by {
            assert(ops.drop_last()[i] == ops[i]);
        }
        lemma_scan_label_free(l, ops.drop_last());
        assert(label_free(ops[ops.len() - 1]));
    }
}

/// Whether the operator at `i` declares `label`.
pub open spec fn declares(ops: Seq<OperatorView<WasmLabel>>, i: int, label: WasmLabel) -> bool {
    ops[i] matches OperatorView::Declare { label: declared, .. } && declared == label
}

/// What a stretch of operators has declared was declared before it or is
/// declared in it, and what was declared or had started before still is.
pub proof fn lemma_scan_grows(l: Labels, ops: Seq<OperatorView<WasmLabel>>)
    requires
        scan(l, ops) is Some,
    ensures
        l.declared.subset_of(scan(l, ops).unwrap().declared),
        l.started.subset_of(scan(l, ops).unwrap().started),
        forall|label: WasmLabel| #[trigger]
            scan(l, ops).unwrap().declared.contains(label) ==> l.declared.contains(label) || exists|
                i: int,
            |
                0 <= i < ops.len() && #[trigger] declares(ops, i, label),
    decreases ops.len(),
{
    if ops.len() > 0 {
        lemma_scan_grows(l, ops.drop_last());
        let before = scan(l, ops.drop_last()).unwrap();
        let after = scan(l, ops).unwrap();
        assert forall|label: WasmLabel| #[trigger] after.declared.contains(label) implies l.declared.contains(
            label,
        ) || exists|i: int| 0 <= i < ops.len() && #[trigger] declares(ops, i, label) by {
            if !l.declared.contains(label) {
                if before.declared.contains(label) {
                    let i = choose|i: int|
                        0 <= i < ops.drop_last().len() && #[trigger] declares(
                            ops.drop_last(),
                            i,
                            label,
                        );
                    assert(ops[i] == ops.drop_last()[i]);
                    assert(declares(ops, i, label));
                } else {
                    assert(ops[ops.len() - 1] == ops.last());
                    assert(declares(ops, ops.len() - 1, label));
                }
            }
        }
    }
}

/// In a stretch of operators that keeps the rule, from no labels at all,
/// every start of a block comes after exactly one declaration of its label:
/// one stands before it, and no other stands anywhere in the stretch.
pub proof fn lemma_start_has_one_declare(ops: Seq<OperatorView<WasmLabel>>, j: int, label: WasmLabel)
    requires
        scan(Labels { declared: Set::empty(), started: Set::empty() }, ops) is Some,
        0 <= j < ops.len(),
        ops[j] == OperatorView::<WasmLabel>::Plain(Operator::Start(label)),
    ensures
        exists|i: int|
            0 <= i < j && #[trigger] declares(ops, i, label) && forall|k: int|
                0 <= k < ops.len() && #[trigger] declares(ops, k, label) ==> k == i,
{
    let none = Labels { declared: Set::empty(), started: Set::empty() };
    lemma_scan_prefix(none, ops, j + 1);
    lemma_scan_prefix(none, ops, j);
    let upto = scan(none, ops.take(j)).unwrap();
    assert(ops.take(j + 1).drop_last() == ops.take(j));
    assert(ops.take(j + 1).last() == ops[j]);
    assert(upto.declared.contains(label));
    lemma_scan_grows(none, ops.take(j));
    let i = choose|i: int| 0 <= i < ops.take(j).len() && #[trigger] declares(ops.take(j), i, label);
    assert(ops.take(j)[i] == ops[i]);
    assert(declares(ops, i, label));
    assert forall|k: int| 0 <= k < ops.len() && declares(ops, k, label) implies k == i by {
        if k != i {
            let (first, second) = if k < i {
                (k, i)
            } else {
                (i, k)
            };
            lemma_scan_prefix(none, ops, second + 1);
            lemma_scan_prefix(none, ops, second);
            lemma_scan_prefix(none, ops.take(second), first + 1);
            assert(ops.take(second).take(first + 1) == ops.take(first + 1));
            assert(ops.take(first + 1).drop_last() == ops.take(first));
            lemma_scan_prefix(none, ops, first + 1);
            lemma_scan_prefix(none, ops, first);
            let at_first = scan(none, ops.take(first + 1)).unwrap();
            assert(ops.take(first + 1).last() == ops[first]);
            assert(at_first.declared.contains(label));
            lemma_scan_suffix(none, ops.take(second), first + 1);
            lemma_scan_grows(at_first, ops.take(second).skip(first + 1));
            let at_second = scan(none, ops.take(second)).unwrap();
            assert(at_second.declared.contains(label));
            assert(ops.take(second + 1).drop_last() == ops.take(second));
            assert(ops.take(second + 1).last() == ops[second]);
        }
    }
}

/// A stretch that keeps the rule keeps it up to any point.
pub proof fn lemma_scan_prefix(l: Labels, ops: Seq<OperatorView<WasmLabel>>, n: int)
    requires
        scan(l, ops) is Some,
        0 <= n <= ops.len(),
    ensures
        scan(l, ops.take(n)) is Some,
    decreases ops.len(),
{
    if n == ops.len() {
        assert(ops.take(n) == ops);
    } else {
        assert(ops.drop_last().take(n) == ops.take(n));
        lemma_scan_prefix(l, ops.drop_last(), n);
    }
}

/// A stretch read from some point on starts from the labels of what was
/// read up to that point.
pub proof fn lemma_scan_suffix(l: Labels, ops: Seq<OperatorView<WasmLabel>>, n: int)
    requires
        scan(l, ops) is Some,
        0 <= n <= ops.len(),
    ensures
        scan(l, ops.take(n)) is Some,
        scan(scan(l, ops.take(n)).unwrap(), ops.skip(n)) == scan(l, ops),
{
    lemma_scan_prefix(l, ops, n);
    lemma_scan_append(l, ops.take(n), ops.skip(n));
    assert(ops.take(n) + ops.skip(n) == ops);
}

/// The labels after one more operator, if the rule was kept so far.
pub open spec fn then(l: Option<Labels>, op: OperatorView<WasmLabel>) -> Option<Labels> {
    match l {
        None => None,
        Some(l) => scan_one(l, op),
    }
}

proof fn lemma_scan_1(l: Labels, a: OperatorView<WasmLabel>)
    ensures
        scan(l, seq![a]) == scan_one(l, a),
{
    assert(seq![a] =~= Seq::<OperatorView<WasmLabel>>::empty().push(a));
    lemma_scan_push(l, Seq::empty(), a);
}

proof fn lemma_scan_3(
    l: Labels,
    a: OperatorView<WasmLabel>,
    b: OperatorView<WasmLabel>,
    c: OperatorView<WasmLabel>,
)
    ensures
        scan(l, seq![a, b, c]) == then(then(scan_one(l, a), b), c),
{
    lemma_scan_1(l, a);
    assert(seq![a, b] =~= seq![a].push(b));
    lemma_scan_push(l, seq![a], b);
    assert(seq![a, b, c] =~= seq![a, b].push(c));
    lemma_scan_push(l, seq![a, b], c);
}

proof fn lemma_scan_5(
    l: Labels,
    a: OperatorView<WasmLabel>,
    b: OperatorView<WasmLabel>,
    c: OperatorView<WasmLabel>,
    d: OperatorView<WasmLabel>,
    e: OperatorView<WasmLabel>,
)
    ensures
        scan(l, seq![a, b, c, d, e]) == then(then(then(then(scan_one(l, a), b), c), d), e),
{
    lemma_scan_3(l, a, b, c);
    assert(seq![a, b, c, d] =~= seq![a, b, c].push(d));
    lemma_scan_push(l, seq![a, b, c], d);
    assert(seq![a, b, c, d, e] =~= seq![a, b, c, d].push(e));
    lemma_scan_push(l, seq![a, b, c, d], e);
}

/// Dropping slots and jumping leave the labels alone.
proof fn lemma_scan_drops_jump(l: Labels, to_drop: Option<DropRange>, target: BrTarget<WasmLabel>)
    ensures
        scan(l, drops(to_drop)) == Some(l),
        scan(l, jump(target)) == Some(l),
        scan(l, drops(to_drop) + jump(target)) == Some(l),
{
    lemma_scan_label_free(l, drops(to_drop));
    lemma_scan_label_free(l, jump(target));
    lemma_scan_append(l, drops(to_drop), jump(target));
}

/// Whether the frame at `i` has the labels that its kind calls for: the
/// function's frame is the outermost, and every other frame has the label of
/// its end declared and not started, and that of its `else` too while the
/// `else` of an `if` is still to come.
pub open spec fn frame_labelled(s: ConvState, l: Labels, i: int) -> bool {
    let f = s.frames[i];
    if i == 0 {
        f.kind is Function
    } else {
        &&& !(f.kind is Function)
        &&& f.id < s.current_id
        &&& l.declared.contains((f.id, NameTag::End))
        &&& !l.started.contains((f.id, NameTag::End))
        &&& f.kind == (ControlFrameKind::If { has_else: false }) ==> l.declared.contains(
            (f.id, NameTag::Else),
        ) && !l.started.contains((f.id, NameTag::Else))
    }
}

/// Whether the state of lowering fits the labels that have been declared and
/// started: every open block has its labels waiting, no two open blocks share
/// a number, and every label that was declared carries a number that has
/// been drawn.
pub open spec fn labelled(s: ConvState, l: Labels) -> bool {
    &&& forall|i: int| 0 <= i < s.frames.len() ==> frame_labelled(s, l, i)
    &&& forall|i: int, j: int| 1 <= i < j < s.frames.len() ==> s.frames[i].id != s.frames[j].id
    &&& forall|label: WasmLabel| #[trigger] l.declared.contains(label) ==> label.0 < s.current_id
    &&& forall|label: WasmLabel| #[trigger] l.started.contains(label) ==> l.declared.contains(label)
    &&& s.is_done || s.frames.len() > 0
}

/// Whether the innermost open block is an `if` whose `else` is still to come:
/// the one place where an `else` may stand.
pub open spec fn else_may_come(s: ConvState) -> bool {
    frame_at(s.frames, 0) matches Some(frame) && frame.kind == (ControlFrameKind::If {
        has_else: false,
    })
}

/// Marking frames as branched to changes neither their number nor what kind
/// of block they are.
proof fn lemma_marked_same(frames: Seq<ControlFrameView>, depths: Seq<u32>, i: int)
    requires
        0 <= i < frames.len(),
    ensures
        marked(frames, depths).len() == frames.len(),
        marked(frames, depths)[i].id == frames[i].id,
        marked(frames, depths)[i].kind == frames[i].kind || (frames[i].kind is Block && marked(
            frames,
            depths,
        )[i].kind is Block),
    decreases depths.len(),
{
    if depths.len() > 0 {
        lemma_marked_same(frames, depths.drop_last(), i);
    }
}

/// A state fits the same labels after frames were marked as branched to.
proof fn lemma_labelled_marked(s: ConvState, l: Labels, frames: Seq<ControlFrameView>)
    requires
        labelled(s, l),
        frames.len() == s.frames.len(),
        forall|i: int|
            0 <= i < frames.len() ==> (#[trigger] frames[i]).id == s.frames[i].id && (frames[i].kind
                == s.frames[i].kind || (s.frames[i].kind is Block && frames[i].kind is Block)),
    ensures
        labelled(ConvState { frames, ..s }, l),
{
    let t = ConvState { frames, ..s };
    assert forall|i: int| 0 <= i < t.frames.len() implies frame_labelled(t, l, i) by {
        assert(frame_labelled(s, l, i));
        assert(frames[i].id == s.frames[i].id);
    }
    assert forall|i: int, j: int| 1 <= i < j < t.frames.len() implies t.frames[i].id
        != t.frames[j].id by {
        assert(frames[i].id == s.frames[i].id);
        assert(frames[j].id == s.frames[j].id);
    }
}

/// Entering a structured block: the labels that are declared for it are new,
/// and the state fits once they are declared.
proof fn lemma_enter(
    module: ModuleContext,
    s: ConvState,
    l: Labels,
    ty: crate::wasm::TypeOrFuncType,
    kind: ControlFrameKind,
    after: Labels,
)
    requires
        labelled(s, l),
        s.frames.len() > 0,
        enter(module, s, ty, kind) is Ok,
        !(kind is Function),
        l.declared.subset_of(after.declared),
        after.declared.contains((s.current_id, NameTag::End)),
        kind == (ControlFrameKind::If { has_else: false }) ==> after.declared.contains(
            (s.current_id, NameTag::Else),
        ),
        forall|label: WasmLabel| #[trigger]
            after.declared.contains(label) ==> l.declared.contains(label) || label.0 == s.current_id,
        forall|label: WasmLabel| #[trigger]
            after.started.contains(label) ==> l.started.contains(label) || (label == (
                s.current_id,
                NameTag::Header,
            ) && after.declared.contains(label)),
    ensures
        enter(module, s, ty, kind)->Ok_0.1 == s.current_id,
        labelled(enter(module, s, ty, kind)->Ok_0.0, after),
{
    let (state, id, _) = enter(module, s, ty, kind)->Ok_0;
    assert(id == s.current_id);
    assert forall|i: int| 0 <= i < state.frames.len() implies frame_labelled(state, after, i) by {
        if i < s.frames.len() {
            assert(frame_labelled(s, l, i));
            assert(state.frames[i] == s.frames[i]);
            if i > 0 {
                let f = s.frames[i];
                assert(l.declared.contains((f.id, NameTag::End)));
            }
        } else {
            assert(state.frames[i].id == id);
            assert(state.frames[i].kind == kind);
            if after.started.contains((id, NameTag::End)) {
                assert(l.started.contains((id, NameTag::End)));
                assert(l.declared.contains((id, NameTag::End)));
            }
            if after.started.contains((id, NameTag::Else)) {
                assert(l.started.contains((id, NameTag::Else)));
                assert(l.declared.contains((id, NameTag::Else)));
            }
        }
    }
    assert forall|i: int, j: int| 1 <= i < j < state.frames.len() implies state.frames[i].id
        != state.frames[j].id by {
        assert(frame_labelled(s, l, i));
        assert(state.frames[i] == s.frames[i]);
        if j < s.frames.len() {
            assert(state.frames[j] == s.frames[j]);
        }
    }
    assert forall|label: WasmLabel| #[trigger] after.declared.contains(label) implies label.0
        < state.current_id by {
        if l.declared.contains(label) {
        }
    }
    assert forall|label: WasmLabel| #[trigger] after.started.contains(label) implies after.declared.contains(
        label,
    ) by {
        if l.started.contains(label) {
            assert(l.declared.contains(label));
        }
    }
}

/// Whether a state fits the labels depends on its open blocks and on the
/// numbers that have been drawn, and on nothing else.
proof fn lemma_labelled_same(s: ConvState, t: ConvState, l: Labels)
    requires
        labelled(s, l),
        t.frames == s.frames,
        t.current_id == s.current_id,
        t.is_done || t.frames.len() > 0,
    ensures
        labelled(t, l),
{
    assert forall|i: int| 0 <= i < t.frames.len() implies frame_labelled(t, l, i) by {
        assert(frame_labelled(s, l, i));
    }
}

/// A state fits the labels with one more label started, if the label was
/// declared and belongs to no block that is still open.
proof fn lemma_labelled_started(s: ConvState, l: Labels, label: WasmLabel)
    requires
        labelled(s, l),
        l.declared.contains(label),
        forall|i: int|
            1 <= i < s.frames.len() ==> (#[trigger] s.frames[i]).id != label.0 || (label.1
                != NameTag::End && (label.1 != NameTag::Else || s.frames[i].kind
                != ControlFrameKind::If { has_else: false })),
    ensures
        labelled(s, Labels { started: l.started.insert(label), ..l }),
{
    let after = Labels { started: l.started.insert(label), ..l };
    assert forall|i: int| 0 <= i < s.frames.len() implies frame_labelled(s, after, i) by {
        assert(frame_labelled(s, l, i));
        if i > 0 {
            let f = s.frames[i];
            assert(f.id != label.0 || (label.1 != NameTag::End && (label.1 != NameTag::Else || f.kind
                != ControlFrameKind::If { has_else: false })));
        }
    }
}

proof fn lemma_else(s: ConvState, l: Labels)
    requires
        labelled(s, l),
        else_may_come(s),
        lower_else(s) is Ok,
    ensures
        scan(l, lower_else(s)->Ok_0.ops) is Some,
        labelled(lower_else(s)->Ok_0.state, scan(l, lower_else(s)->Ok_0.ops).unwrap()),
{
    let top = s.frames.len() - 1;
    let block = s.frames[top];
    assert(frame_labelled(s, l, 0));
    assert(frame_labelled(s, l, top));
    let lowered = lower_else(s)->Ok_0;
    let quiet = drops(block.to_drop(s.stack.len())) + jump(BrTarget::Label((block.id, NameTag::End)));
    let label = (block.id, NameTag::Else);
    lemma_scan_drops_jump(
        l,
        block.to_drop(s.stack.len()),
        BrTarget::Label((block.id, NameTag::End)),
    );
    assert(lowered.ops =~= quiet.push(OperatorView::start(label)));
    lemma_scan_push(l, quiet, OperatorView::start(label));
    let after = Labels { started: l.started.insert(label), ..l };
    let frames = with_frame_at(s.frames, 0, block.with_else());
    let mid = ConvState { frames, ..s };
    assert forall|i: int| 0 <= i < mid.frames.len() implies frame_labelled(mid, l, i) by {
        assert(frame_labelled(s, l, i));
    }
    assert forall|i: int, j: int| 1 <= i < j < mid.frames.len() implies mid.frames[i].id
        != mid.frames[j].id by {
        assert(s.frames[i].id != s.frames[j].id);
    }
    assert(labelled(mid, l));
    assert forall|i: int| 1 <= i < mid.frames.len() implies (#[trigger] mid.frames[i]).id != label.0
        || (label.1 != NameTag::End && (label.1 != NameTag::Else || mid.frames[i].kind
        != ControlFrameKind::If { has_else: false })) by {
        if i < top {
            assert(s.frames[i].id != s.frames[top].id);
        }
    }
    lemma_labelled_started(mid, l, label);
    lemma_labelled_same(mid, lowered.state, after);
}

proof fn lemma_end(s: ConvState, l: Labels)
    requires
        labelled(s, l),
        lower_end(s) is Ok,
    ensures
        scan(l, lower_end(s)->Ok_0.ops) is Some,
        labelled(lower_end(s)->Ok_0.state, scan(l, lower_end(s)->Ok_0.ops).unwrap()),
{
    let top = s.frames.len() - 1;
    let block = s.frames[top];
    assert(frame_labelled(s, l, 0));
    assert(frame_labelled(s, l, top));
    let lowered = lower_end(s)->Ok_0;
    let to_drop = block.to_drop(s.stack.len());
    let else_ = (block.id, NameTag::Else);
    let end = (block.id, NameTag::End);
    let frames = s.frames.drop_last();
    let mid = ConvState { frames, ..s };
    assert forall|i: int| 0 <= i < mid.frames.len() implies frame_labelled(mid, l, i) by {
        assert(frame_labelled(s, l, i));
    }
    assert forall|i: int, j: int| 1 <= i < j < mid.frames.len() implies mid.frames[i].id
        != mid.frames[j].id by {
        assert(s.frames[i].id != s.frames[j].id);
    }
    assert forall|i: int| 1 <= i < mid.frames.len() implies (#[trigger] mid.frames[i]).id
        != block.id by {
        assert(s.frames[i].id != s.frames[top].id);
    }
    lemma_scan_drops_jump(l, to_drop, BrTarget::Label(end));
    lemma_scan_drops_jump(l, to_drop, BrTarget::Return);
    if block.kind == (ControlFrameKind::If { has_else: false }) {
        assert(labelled(mid, l));
        let first = drops(to_drop) + jump(BrTarget::Label(end));
        let l1 = Labels { started: l.started.insert(else_), ..l };
        let second = jump(BrTarget::Label(end));
        let l2 = Labels { started: l1.started.insert(end), ..l1 };
        lemma_scan_push(l, first, OperatorView::start(else_));
        lemma_scan_label_free(l1, second);
        lemma_scan_push(l1, second, OperatorView::start(end));
        lemma_scan_append(
            l,
            first.push(OperatorView::start(else_)),
            second.push(OperatorView::start(end)),
        );
        assert(lowered.ops =~= first.push(OperatorView::start(else_)) + second.push(
            OperatorView::start(end),
        ));
        lemma_labelled_started(mid, l, else_);
        lemma_labelled_started(mid, l1, end);
        lemma_labelled_same(mid, lowered.state, l2);
    } else if frames.len() == 0 {
        assert(scan(l, lowered.ops) == Some(l));
        assert(labelled(lowered.state, l));
    } else if block.needs_end_label() {
        assert(labelled(mid, l));
        let first = drops(to_drop) + jump(BrTarget::Label(end));
        lemma_scan_push(l, first, OperatorView::start(end));
        assert(lowered.ops =~= first.push(OperatorView::start(end)));
        lemma_labelled_started(mid, l, end);
        lemma_labelled_same(
            mid,
            lowered.state,
            Labels { started: l.started.insert(end), ..l },
        );
    } else {
        assert(labelled(mid, l));
        lemma_labelled_same(mid, lowered.state, l);
    }
}

/// A state fits the labels after a new number was drawn and a block with
/// that number declared and started at once.
proof fn lemma_labelled_fresh(s: ConvState, l: Labels, frames: Seq<ControlFrameView>)
    requires
        labelled(ConvState { frames, ..s }, l),
        s.current_id < u32::MAX,
    ensures
        !l.declared.contains((s.current_id, NameTag::Header)),
        labelled(
            ConvState { frames, current_id: (s.current_id + 1) as u32, ..s },
            Labels {
                declared: l.declared.insert((s.current_id, NameTag::Header)),
                started: l.started.insert((s.current_id, NameTag::Header)),
            },
        ),
{
    let label = (s.current_id, NameTag::Header);
    let before = ConvState { frames, ..s };
    let state = ConvState { frames, current_id: (s.current_id + 1) as u32, ..s };
    let after = Labels { declared: l.declared.insert(label), started: l.started.insert(label) };
    if l.declared.contains(label) {
        assert(label.0 < s.current_id);
    }
    assert forall|i: int| 0 <= i < state.frames.len() implies frame_labelled(state, after, i) by {
        assert(frame_labelled(before, l, i));
    }
    assert forall|other: WasmLabel| #[trigger] after.declared.contains(other) implies other.0
        < state.current_id by {
        if l.declared.contains(other) {
        }
    }
    assert forall|other: WasmLabel| #[trigger] after.started.contains(other) implies after.declared.contains(
        other,
    ) by {
        if l.started.contains(other) {
            assert(l.declared.contains(other));
        }
    }
}

/// What a Wasm operator emits in a reachable place keeps the rule of labels,
/// and the state after it fits the labels as they then are. An `else` is
/// taken only where one may stand.
pub proof fn lemma_lower_labels(module: ModuleContext, s: ConvState, op: WasmOperator, l: Labels)
    requires
        labelled(s, l),
        s.frames.len() > 0,
        lower(module, s, op) is Ok,
        op is Else ==> else_may_come(s),
    ensures
        scan(l, lower(module, s, op)->Ok_0.ops) is Some,
        labelled(
            lower(module, s, op)->Ok_0.state,
            scan(l, lower(module, s, op)->Ok_0.ops).unwrap(),
        ),
{
    let lowered = lower(module, s, op)->Ok_0;
    match op {
        WasmOperator::Block { ty } => {
            let id = s.current_id;
            let after = Labels { declared: l.declared.insert((id, NameTag::End)), ..l };
            if l.declared.contains((id, NameTag::End)) {
                assert((id, NameTag::End).0 < s.current_id);
            }
            lemma_enter(module, s, l, ty, ControlFrameKind::Block { needs_end_label: false }, after);
            lemma_scan_1(l, lowered.ops[0]);
            assert(lowered.ops =~= seq![lowered.ops[0]]);
        },
        WasmOperator::Loop { ty } => {
            let id = s.current_id;
            let header = (id, NameTag::Header);
            let end = (id, NameTag::End);
            let after = Labels {
                declared: l.declared.insert(header).insert(end),
                started: l.started.insert(header),
            };
            if l.declared.contains(header) {
                assert(header.0 < s.current_id);
            }
            if l.declared.contains(end) {
                assert(end.0 < s.current_id);
            }
            lemma_enter(module, s, l, ty, ControlFrameKind::Loop, after);
            lemma_scan_5(
                l,
                lowered.ops[0],
                lowered.ops[1],
                lowered.ops[2],
                lowered.ops[3],
                lowered.ops[4],
            );
            assert(lowered.ops =~= seq![
                lowered.ops[0],
                lowered.ops[1],
                lowered.ops[2],
                lowered.ops[3],
                lowered.ops[4],
            ]);
        },
        WasmOperator::If { ty } => {
            let id = s.current_id;
            let header = (id, NameTag::Header);
            let else_ = (id, NameTag::Else);
            let end = (id, NameTag::End);
            let after = Labels {
                declared: l.declared.insert(header).insert(else_).insert(end),
                started: l.started.insert(header),
            };
            if l.declared.contains(header) {
                assert(header.0 < s.current_id);
            }
            if l.declared.contains(else_) {
                assert(else_.0 < s.current_id);
            }
            if l.declared.contains(end) {
                assert(end.0 < s.current_id);
            }
            lemma_enter(module, s, l, ty, ControlFrameKind::If { has_else: false }, after);
            lemma_scan_5(
                l,
                lowered.ops[0],
                lowered.ops[1],
                lowered.ops[2],
                lowered.ops[3],
                lowered.ops[4],
            );
            assert(lowered.ops =~= seq![
                lowered.ops[0],
                lowered.ops[1],
                lowered.ops[2],
                lowered.ops[3],
                lowered.ops[4],
            ]);
        },
        WasmOperator::Else => {
            lemma_else(s, l);
        },
        WasmOperator::End => {
            lemma_end(s, l);
        },
        WasmOperator::Br { relative_depth } => {
            let frame = frame_at(s.frames, relative_depth as nat).unwrap();
            lemma_scan_drops_jump(l, frame.to_drop(s.stack.len()), frame.br_target());
            lemma_labelled_marked(s, l, lowered.state.frames);
            lemma_labelled_same(ConvState { frames: lowered.state.frames, ..s }, lowered.state, l);
        },
        WasmOperator::BrIf { relative_depth } => {
            let frame = frame_at(s.frames, relative_depth as nat).unwrap();
            let frames = with_frame_at(s.frames, relative_depth as nat, frame.branched_to());
            let header = (s.current_id, NameTag::Header);
            lemma_labelled_marked(s, l, frames);
            lemma_labelled_fresh(s, l, frames);
            lemma_scan_3(l, lowered.ops[0], lowered.ops[1], lowered.ops[2]);
            assert(lowered.ops =~= seq![lowered.ops[0], lowered.ops[1], lowered.ops[2]]);
            lemma_labelled_same(
                ConvState { frames, current_id: (s.current_id + 1) as u32, ..s },
                lowered.state,
                Labels { declared: l.declared.insert(header), started: l.started.insert(header) },
            );
        },
        WasmOperator::BrTable { table } => {
            let depths = table.targets@.push(table.default);
            assert forall|i: int| 0 <= i < s.frames.len() implies (#[trigger] marked(
                s.frames,
                depths,
            )[i]).id == s.frames[i].id && (marked(s.frames, depths)[i].kind == s.frames[i].kind || (
            s.frames[i].kind is Block && marked(s.frames, depths)[i].kind is Block)) by {
                lemma_marked_same(s.frames, depths, i);
            }
            lemma_marked_same(s.frames, depths, 0);
            lemma_labelled_marked(s, l, marked(s.frames, depths));
            lemma_scan_label_free(l, lowered.ops);
            lemma_labelled_same(
                ConvState { frames: marked(s.frames, depths), ..s },
                lowered.state,
                l,
            );
        },
        WasmOperator::Return => {
            lemma_scan_drops_jump(l, s.frames[0].to_drop(s.stack.len()), s.frames[0].br_target());
            lemma_labelled_same(s, lowered.state, l);
        },
        _ => {
            lemma_scan_label_free(l, lowered.ops);
            lemma_labelled_same(s, lowered.state, l);
        },
    }
}

/// What a Wasm operator emits in a reachable place keeps the rule of labels.
pub proof fn lemma_step_labels(
    module: ModuleContext,
    pointer_type: SignlessType,
    s: ConvState,
    op: WasmOperator,
    l: Labels,
)
    requires
        labelled(s, l),
        s.frames.len() > 0,
        step(module, pointer_type, s, op) is Ok,
        op is Else ==> else_may_come(s),
    ensures
        scan(l, step(module, pointer_type, s, op)->Ok_0.ops) is Some,
        labelled(
            step(module, pointer_type, s, op)->Ok_0.state,
            scan(l, step(module, pointer_type, s, op)->Ok_0.ops).unwrap(),
        ),
{
    let sig = crate::lower::op_sig(module, pointer_type, s, op)->Ok_0;
    let stack = crate::sig::spec_apply(sig, s.stack)->Ok_0;
    let t = ConvState { stack, ..s };
    lemma_labelled_same(s, t, l);
    lemma_lower_labels(module, t, op, l);
}

/// What ends the skipping of an unreachable region keeps the rule of labels.
pub proof fn lemma_skip_one_labels(s: ConvState, depth: nat, op: WasmOperator, l: Labels)
    requires
        labelled(s, l),
        s.frames.len() > 0,
        skip_one(s, depth, op) is Resumed,
        op is Else ==> else_may_come(s),
    ensures
        ({
            let lowered = skip_one(s, depth, op)->Resumed_0;
            scan(l, lowered.ops) is Some && labelled(lowered.state, scan(l, lowered.ops).unwrap())
        }),
{
    let lowered = skip_one(s, depth, op)->Resumed_0;
    let top = s.frames.len() - 1;
    let block = s.frames[top];
    assert(frame_labelled(s, l, 0));
    assert(frame_labelled(s, l, top));
    let else_ = (block.id, NameTag::Else);
    let end = (block.id, NameTag::End);
    match op {
        WasmOperator::Else => {
            let frames = with_frame_at(s.frames, 0, block.with_else());
            let mid = ConvState { frames, ..s };
            assert forall|i: int| 0 <= i < mid.frames.len() implies frame_labelled(mid, l, i) by {
                assert(frame_labelled(s, l, i));
            }
            assert forall|i: int, j: int| 1 <= i < j < mid.frames.len() implies mid.frames[i].id
                != mid.frames[j].id by {
                assert(s.frames[i].id != s.frames[j].id);
            }
            assert forall|i: int| 1 <= i < mid.frames.len() implies (#[trigger] mid.frames[i]).id
                != else_.0 || (else_.1 != NameTag::End && (else_.1 != NameTag::Else
                || mid.frames[i].kind != ControlFrameKind::If { has_else: false })) by {
                if i < top {
                    assert(s.frames[i].id != s.frames[top].id);
                }
            }
            lemma_labelled_started(mid, l, else_);
            lemma_scan_1(l, OperatorView::start(else_));
            lemma_labelled_same(
                mid,
                lowered.state,
                Labels { started: l.started.insert(else_), ..l },
            );
        },
        WasmOperator::End => {
            let frames = s.frames.drop_last();
            let mid = ConvState { frames, ..s };
            if frames.len() == 0 {
                assert(lowered.ops =~= seq![]);
                assert(labelled(lowered.state, l));
            } else {
                assert forall|i: int| 0 <= i < mid.frames.len() implies frame_labelled(mid, l, i) by {
                    assert(frame_labelled(s, l, i));
                }
                assert forall|i: int, j: int| 1 <= i < j < mid.frames.len() implies mid.frames[i].id
                    != mid.frames[j].id by {
                    assert(s.frames[i].id != s.frames[j].id);
                }
                assert forall|i: int| 1 <= i < mid.frames.len() implies (#[trigger] mid.frames[i]).id
                    != block.id by {
                    assert(s.frames[i].id != s.frames[top].id);
                }
                assert(labelled(mid, l));
                if block.kind == (ControlFrameKind::If { has_else: false }) {
                    let l1 = Labels { started: l.started.insert(else_), ..l };
                    let l2 = Labels { started: l1.started.insert(end), ..l1 };
                    let second = jump(BrTarget::Label(end));
                    lemma_scan_1(l, OperatorView::start(else_));
                    lemma_scan_label_free(l1, second);
                    lemma_scan_push(l1, second, OperatorView::start(end));
                    lemma_scan_append(
                        l,
                        seq![OperatorView::start(else_)],
                        second.push(OperatorView::start(end)),
                    );
                    lemma_labelled_started(mid, l, else_);
                    lemma_labelled_started(mid, l1, end);
                    lemma_labelled_same(mid, lowered.state, l2);
                } else {
                    lemma_scan_1(l, OperatorView::start(end));
                    lemma_labelled_started(mid, l, end);
                    lemma_labelled_same(
                        mid,
                        lowered.state,
                        Labels { started: l.started.insert(end), ..l },
                    );
                }
            }
        },
        _ => {},
    }
}

/// Whether skipping from the state `s`, `depth` blocks deep, ends at an
/// `else` only where one may stand.
pub open spec fn skip_else_ok(operators: Seq<WithLoc<WasmOperator>>, s: ConvState, depth: nat) -> bool
    decreases operators.len() - s.position,
{
    if s.is_done || s.position >= operators.len() {
        true
    } else {
        let read = operators[s.position as int];
        let t = ConvState { position: s.position + 1, ..s };
        match skip_one(t, depth, read.op) {
            Skipped::Deeper(d) => skip_else_ok(operators, t, d),
            Skipped::Resumed(_) => read.op is Else ==> else_may_come(t),
            Skipped::Failed(_) => true,
        }
    }
}

/// Whether the next batch is made from an `else` only where one may stand:
/// with an `if` as the innermost open block, and no `else` of it seen yet.
pub open spec fn else_ok(operators: Seq<WithLoc<WasmOperator>>, s: ConvState) -> bool {
    if s.consts_to_emit is Some {
        true
    } else if s.unreachable {
        skip_else_ok(operators, ConvState { unreachable: false, ..s }, 0)
    } else if s.is_done || s.position >= operators.len() {
        true
    } else {
        operators[s.position as int].op is Else ==> else_may_come(s)
    }
}

/// The operators of a batch that may not be there.
pub open spec fn batch_ops(batch: Option<Batch>) -> Seq<OperatorView<WasmLabel>> {
    match batch {
        Some(batch) => batch.ops,
        None => seq![],
    }
}

proof fn lemma_skip_labels(
    operators: Seq<WithLoc<WasmOperator>>,
    end: Failure,
    s: ConvState,
    depth: nat,
    l: Labels,
)
    requires
        labelled(s, l),
        skip(operators, end, s, depth) is Ok,
        skip_else_ok(operators, s, depth),
    ensures
        ({
            let (after, batch) = skip(operators, end, s, depth)->Ok_0;
            scan(l, batch_ops(batch)) is Some && labelled(after, scan(l, batch_ops(batch)).unwrap())
        }),
    decreases operators.len() - s.position,
{
    if s.is_done {
    } else {
        let read = operators[s.position as int];
        let t = ConvState { position: s.position + 1, ..s };
        lemma_labelled_same(s, t, l);
        match skip_one(t, depth, read.op) {
            Skipped::Deeper(d) => {
                lemma_skip_labels(operators, end, t, d, l);
            },
            Skipped::Resumed(_) => {
                lemma_skip_one_labels(t, depth, read.op, l);
            },
            Skipped::Failed(_) => {},
        }
    }
}

/// Each batch that lowering gives keeps the rule of labels, from the labels
/// that the batches before it left, and the state after it fits the labels
/// as they then are.
pub proof fn lemma_next_labels(
    module: ModuleContext,
    pointer_type: SignlessType,
    operators: Seq<WithLoc<WasmOperator>>,
    end: Failure,
    s: ConvState,
    l: Labels,
)
    requires
        labelled(s, l),
        else_ok(operators, s),
        next(module, pointer_type, operators, end, s) is Ok,
    ensures
        ({
            let (after, batch) = next(module, pointer_type, operators, end, s)->Ok_0;
            scan(l, batch_ops(batch)) is Some && labelled(after, scan(l, batch_ops(batch)).unwrap())
        }),
{
    if let Some(consts) = s.consts_to_emit {
        lemma_scan_label_free(l, const_ops(consts));
        lemma_labelled_same(s, ConvState { consts_to_emit: None, ..s }, l);
    } else if s.unreachable {
        let t = ConvState { unreachable: false, ..s };
        lemma_labelled_same(s, t, l);
        lemma_skip_labels(operators, end, t, 0, l);
    } else if s.is_done {
    } else {
        let read = operators[s.position as int];
        let t = ConvState { position: s.position + 1, ..s };
        lemma_labelled_same(s, t, l);
        lemma_step_labels(module, pointer_type, t, read.op, l);
    }
}

/// What lowering has emitted after `n` batches from the state `s`, and the
/// state then; `None` where a batch failed.
pub open spec fn run(
    module: ModuleContext,
    pointer_type: SignlessType,
    operators: Seq<WithLoc<WasmOperator>>,
    end: Failure,
    s: ConvState,
    n: nat,
) -> Option<(ConvState, Seq<OperatorView<WasmLabel>>)>
    decreases n,
{
    if n == 0 {
        Some((s, seq![]))
    } else {
        match run(module, pointer_type, operators, end, s, (n - 1) as nat) {
            None => None,
            Some((before, emitted)) => match next(module, pointer_type, operators, end, before) {
                Ok((after, batch)) => Some((after, emitted + batch_ops(batch))),
                Err(_) => None,
            },
        }
    }
}

/// Whether each of the first `n` batches from the state `s` is made from an
/// `else` only where one may stand.
pub open spec fn else_ok_along(
    module: ModuleContext,
    pointer_type: SignlessType,
    operators: Seq<WithLoc<WasmOperator>>,
    end: Failure,
    s: ConvState,
    n: nat,
) -> bool
    decreases n,
{
    n == 0 || (else_ok_along(module, pointer_type, operators, end, s, (n - 1) as nat) && match run(
        module,
        pointer_type,
        operators,
        end,
        s,
        (n - 1) as nat,
    ) {
        Some((before, _)) => else_ok(operators, before),
        None => true,
    })
}

/// No labels at all.
pub open spec fn no_labels() -> Labels {
    Labels { declared: Set::empty(), started: Set::empty() }
}

proof fn lemma_run_labels(
    module: ModuleContext,
    pointer_type: SignlessType,
    operators: Seq<WithLoc<WasmOperator>>,
    end: Failure,
    s: ConvState,
    n: nat,
)
    requires
        labelled(s, no_labels()),
        run(module, pointer_type, operators, end, s, n) is Some,
        else_ok_along(module, pointer_type, operators, end, s, n),
    ensures
        ({
            let (after, emitted) = run(module, pointer_type, operators, end, s, n).unwrap();
            scan(no_labels(), emitted) is Some && labelled(after, scan(no_labels(), emitted).unwrap())
        }),
    decreases n,
{
    if n > 0 {
        lemma_run_labels(module, pointer_type, operators, end, s, (n - 1) as nat);
        let (before, emitted) = run(module, pointer_type, operators, end, s, (n - 1) as nat).unwrap();
        let l = scan(no_labels(), emitted).unwrap();
        lemma_next_labels(module, pointer_type, operators, end, before, l);
        let (after, batch) = next(module, pointer_type, operators, end, before)->Ok_0;
        lemma_scan_append(no_labels(), emitted, batch_ops(batch));
    }
}

/// Label discipline. In everything that lowering emits for a function, from
/// its first batch on, every block is declared before it starts, no label is
/// declared twice, and no block starts twice: every start of a block is
/// preceded by exactly one declaration of its label. This holds of a body in
/// which an `else` stands only in an `if` that has had none; for any other
/// body lowering emits the start of a block that was never declared.
pub proof fn lemma_label_discipline(
    module: ModuleContext,
    pointer_type: SignlessType,
    operators: Seq<WithLoc<WasmOperator>>,
    end: Failure,
    params: Seq<SignlessType>,
    results: Seq<SignlessType>,
    locals: Seq<(u32, WasmType)>,
    n: nat,
    j: int,
    label: WasmLabel,
)
    requires
        run(module, pointer_type, operators, end, initial_state(params, results, locals), n) is Some,
        else_ok_along(
            module,
            pointer_type,
            operators,
            end,
            initial_state(params, results, locals),
            n,
        ),
        ({
            let emitted = run(
                module,
                pointer_type,
                operators,
                end,
                initial_state(params, results, locals),
                n,
            ).unwrap().1;
            0 <= j < emitted.len() && emitted[j] == OperatorView::<WasmLabel>::Plain(
                Operator::Start(label),
            )
        }),
    ensures
        ({
            let emitted = run(
                module,
                pointer_type,
                operators,
                end,
                initial_state(params, results, locals),
                n,
            ).unwrap().1;
            exists|i: int|
                0 <= i < j && #[trigger] declares(emitted, i, label) && forall|k: int|
                    0 <= k < emitted.len() && #[trigger] declares(emitted, k, label) ==> k == i
        }),
{
    let s = initial_state(params, results, locals);
    assert(labelled(s, no_labels())) by {
        assert forall|i: int| 0 <= i < s.frames.len() implies frame_labelled(s, no_labels(), i) by {}
    }
    lemma_run_labels(module, pointer_type, operators, end, s, n);
    let emitted = run(module, pointer_type, operators, end, s, n).unwrap().1;
    lemma_start_has_one_declare(emitted, j, label);
}

} // verus!
