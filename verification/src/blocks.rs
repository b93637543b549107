//! What the driver knows of each declared block, and the table that holds it.

use crate::backend::{convention_view, CallingConvention, ConventionView, Label};
use crate::operator::{BrTarget, MakeInternalLabel, NumCallers};
use vstd::prelude::*;

verus! {

/// What the driver knows of one declared block.
#[derive(Debug, Clone)]
pub struct Block {
    /// The machine label of the block.
    pub label: BrTarget<Label>,
    /// The layout that branches into the block have to produce, once one is fixed.
    pub calling_convention: Option<CallingConvention>,
    /// How many values the block expects on the stack.
    pub params: u32,
    /// Whether the block starts right after the operator that is being translated.
    pub is_next: bool,
    /// Whether the start of the block has been translated.
    pub already_emitted: bool,
    /// How many branches the block was declared to have.
    pub num_callers: NumCallers,
    /// How many branches to the block have been translated.
    pub actual_num_callers: NumCallers,
    /// Whether branches reach the block from after its start.
    pub has_backwards_callers: bool,
}

/// What the driver knows of one block, with the layout as contracts speak of
/// it.
pub struct BlockView {
    pub label: BrTarget<Label>,
    pub calling_convention: Option<ConventionView>,
    pub params: u32,
    pub is_next: bool,
    pub already_emitted: bool,
    pub num_callers: NumCallers,
    pub actual_num_callers: NumCallers,
    pub has_backwards_callers: bool,
}

impl View for Block {
    type V = BlockView;

    open spec fn view(&self) -> BlockView {
        BlockView {
            label: self.label,
            calling_convention: convention_view(self.calling_convention),
            params: self.params,
            is_next: self.is_next,
            already_emitted: self.already_emitted,
            num_callers: self.num_callers,
            actual_num_callers: self.actual_num_callers,
            has_backwards_callers: self.has_backwards_callers,
        }
    }
}

impl BlockView {
    /// A block as its declaration leaves it: not started, no branch seen, no
    /// layout fixed.
    pub open spec fn declared(
        label: Label,
        params: u32,
        has_backwards_callers: bool,
        num_callers: NumCallers,
    ) -> BlockView {
        BlockView {
            label: BrTarget::Label(label),
            calling_convention: None,
            params,
            is_next: false,
            already_emitted: false,
            num_callers,
            actual_num_callers: NumCallers::Zero,
            has_backwards_callers,
        }
    }

    /// How many branches to count on for the block while a branch is laid
    /// out: for a block that starts next and is reached only from before it,
    /// the branches seen and this one; else what its declaration said.
    pub open spec fn tmp_num_callers(self) -> NumCallers {
        if self.is_next && !self.has_backwards_callers {
            self.actual_num_callers.spec_incremented()
        } else {
            self.num_callers
        }
    }
}

impl Block {
    /// A block as its declaration leaves it.
    pub fn declared(
        label: Label,
        params: u32,
        has_backwards_callers: bool,
        num_callers: NumCallers,
    ) -> (b: Block)
        ensures
            b@ == BlockView::declared(label, params, has_backwards_callers, num_callers),
    {
        Block {
            label: BrTarget::Label(label),
            calling_convention: None,
            params,
            is_next: false,
            already_emitted: false,
            has_backwards_callers,
            actual_num_callers: NumCallers::Zero,
            num_callers,
        }
    }

    /// How many branches to count on for the block while a branch is laid out.
    pub fn tmp_num_callers(&self) -> (n: NumCallers)
        ensures
            n == self@.tmp_num_callers(),
    {
        if self.is_next && !self.has_backwards_callers {
            self.actual_num_callers.incremented()
        } else {
            self.num_callers
        }
    }
}

/// The declared blocks, by the target that names them.
pub struct BlockTable<L> {
    entries: Vec<(BrTarget<L>, Block)>,
}

impl<L> View for BlockTable<L> {
    type V = Map<BrTarget<L>, BlockView>;

    closed spec fn view(&self) -> Map<BrTarget<L>, BlockView> {
        Map::new(
            |k: BrTarget<L>| exists|i: int| 0 <= i < self.entries@.len() && self.entries@[i].0 == k,
            |k: BrTarget<L>|
                self.entries@[choose|i: int| 0 <= i < self.entries@.len() && self.entries@[i].0 == k].1@,
        )
    }
}

impl<L> BlockTable<L> {
    /// No target is in the table twice.
    pub closed spec fn wf(&self) -> bool {
        forall|i: int, j: int|
            0 <= i < j < self.entries@.len() ==> self.entries@[i].0 != self.entries@[j].0
    }

    proof fn lemma_entry(&self, i: int)
        requires
            self.wf(),
            0 <= i < self.entries@.len(),
        ensures
            self@.contains_key(self.entries@[i].0),
            self@[self.entries@[i].0] == self.entries@[i].1@,
    {
        let k = self.entries@[i].0;
        let j = choose|j: int| 0 <= j < self.entries@.len() && self.entries@[j].0 == k;
        assert(i == j);
    }

    proof fn lemma_absent(&self, key: BrTarget<L>)
        requires
            forall|i: int| 0 <= i < self.entries@.len() ==> self.entries@[i].0 != key,
        ensures
            !self@.contains_key(key),
    {
    }
}

impl<L: MakeInternalLabel> BlockTable<L> {
    /// The table without blocks.
    pub fn new() -> (table: Self)
        ensures
            table.wf(),
            table@ == Map::<BrTarget<L>, BlockView>::empty(),
    {
        let table = BlockTable { entries: Vec::new() };
        proof {
            assert(table@ =~= Map::<BrTarget<L>, BlockView>::empty());
        }
        table
    }

    fn find(&self, key: &BrTarget<L>) -> (r: Option<usize>)
        ensures
            match r {
                Some(i) => i < self.entries@.len() && self.entries@[i as int].0 == *key,
                None => forall|i: int| 0 <= i < self.entries@.len() ==> self.entries@[i].0 != *key,
            },
    {
        let mut i: usize = 0;
        while i < self.entries.len()
            invariant
                i <= self.entries@.len(),
                forall|j: int| 0 <= j < i ==> self.entries@[j].0 != *key,
            decreases self.entries.len() - i,
        {
            if self.entries[i].0.same(key) {
                return Some(i);
            }
            i += 1;
        }
        None
    }

    /// The block that `key` names, if it has been declared.
    pub fn get(&self, key: &BrTarget<L>) -> (r: Option<&Block>)
        requires
            self.wf(),
        ensures
            match r {
                Some(block) => self@.contains_key(*key) && block@ == self@[*key],
                None => !self@.contains_key(*key),
            },
    {
        match self.find(key) {
            Some(i) => {
                proof {
                    self.lemma_entry(i as int);
                }
                Some(&self.entries[i].1)
            },
            None => {
                proof {
                    self.lemma_absent(*key);
                }
                None
            },
        }
    }

    /// Whether `key` names a block of the table.
    pub fn contains_key(&self, key: &BrTarget<L>) -> (b: bool)
        requires
            self.wf(),
        ensures
            b == self@.contains_key(*key),
    {
        self.get(key).is_some()
    }

    /// Puts `block` under `key`, in place of what was there.
    pub fn insert(&mut self, key: BrTarget<L>, block: Block)
        requires
            old(self).wf(),
        ensures
            final(self).wf(),
            final(self)@ == old(self)@.insert(key, block@),
    {
        let ghost before = *self;
        match self.find(&key) {
            Some(i) => {
                self.entries[i] = (key, block);
                proof {
                    assert forall|k: BrTarget<L>| #[trigger]
                        self@.contains_key(k) == before@.insert(key, block@).contains_key(k) by {
                        if self@.contains_key(k) {
                            let j = choose|j: int|
                                0 <= j < self.entries@.len() && self.entries@[j].0 == k;
                            assert(before.entries@[j].0 == k);
                        }
                        if before@.contains_key(k) {
                            let j = choose|j: int|
                                0 <= j < before.entries@.len() && before.entries@[j].0 == k;
                            assert(self.entries@[j].0 == k);
                        }
                        if k == key {
                            assert(self.entries@[i as int].0 == k);
                        }
                    }
                    assert forall|k: BrTarget<L>| self@.contains_key(k) implies #[trigger] self@[k]
                        == before@.insert(key, block@)[k] by {
                        let j = choose|j: int|
                            0 <= j < self.entries@.len() && self.entries@[j].0 == k;
                        self.lemma_entry(j);
                        if k != key {
                            before.lemma_entry(j);
                        }
                    }
                    assert(self@ =~= before@.insert(key, block@));
                }
            },
            None => {
                self.entries.push((key, block));
                proof {
                    let n = before.entries@.len() as int;
                    assert forall|k: BrTarget<L>| #[trigger]
                        self@.contains_key(k) == before@.insert(key, block@).contains_key(k) by {
                        if self@.contains_key(k) {
                            let j = choose|j: int|
                                0 <= j < self.entries@.len() && self.entries@[j].0 == k;
                            if j < n {
                                assert(before.entries@[j].0 == k);
                            }
                        }
                        if before@.contains_key(k) {
                            let j = choose|j: int|
                                0 <= j < before.entries@.len() && before.entries@[j].0 == k;
                            assert(self.entries@[j].0 == k);
                        }
                        if k == key {
                            assert(self.entries@[n].0 == k);
                        }
                    }
                    assert forall|k: BrTarget<L>| self@.contains_key(k) implies #[trigger] self@[k]
                        == before@.insert(key, block@)[k] by {
                        let j = choose|j: int|
                            0 <= j < self.entries@.len() && self.entries@[j].0 == k;
                        self.lemma_entry(j);
                        if j < n {
                            before.lemma_entry(j);
                        }
                    }
                    assert(self@ =~= before@.insert(key, block@));
                }
            },
        }
    }

    /// Takes the block that `key` names out of the table.
    pub fn remove(&mut self, key: &BrTarget<L>) -> (r: Option<Block>)
        requires
            old(self).wf(),
        ensures
            final(self).wf(),
            final(self)@ == old(self)@.remove(*key),
            match r {
                Some(block) => old(self)@.contains_key(*key) && block@ == old(self)@[*key],
                None => !old(self)@.contains_key(*key),
            },
    {
        let ghost before = *self;
        match self.find(key) {
            Some(i) => {
                proof {
                    before.lemma_entry(i as int);
                }
                let (_, block) = self.entries.remove(i);
                proof {
                    assert forall|k: BrTarget<L>| #[trigger]
                        self@.contains_key(k) == before@.remove(*key).contains_key(k) by {
                        if self@.contains_key(k) {
                            let j = choose|j: int|
                                0 <= j < self.entries@.len() && self.entries@[j].0 == k;
                            if j < i {
                                assert(before.entries@[j].0 == k);
                            } else {
                                assert(before.entries@[j + 1].0 == k);
                            }
                        }
                        if before@.contains_key(k) && k != *key {
                            let j = choose|j: int|
                                0 <= j < before.entries@.len() && before.entries@[j].0 == k;
                            if j < i {
                                assert(self.entries@[j].0 == k);
                            } else {
                                assert(self.entries@[j - 1].0 == k);
                            }
                        }
                    }
                    assert forall|k: BrTarget<L>| self@.contains_key(k) implies #[trigger] self@[k]
                        == before@.remove(*key)[k] by {
                        let j = choose|j: int|
                            0 <= j < self.entries@.len() && self.entries@[j].0 == k;
                        self.lemma_entry(j);
                        if j < i {
                            before.lemma_entry(j);
                        } else {
                            before.lemma_entry(j + 1);
                        }
                    }
                    assert(self@ =~= before@.remove(*key));
                }
                Some(block)
            },
            None => {
                proof {
                    before.lemma_absent(*key);
                    assert(self@ =~= before@.remove(*key));
                }
                None
            },
        }
    }
}

} // verus!
