//! Bringing the layouts of the targets of one branch together.

use crate::backend::ValueLocation;
use crate::operator::{drop_count, DropRange};
use vstd::prelude::*;

verus! {

/// `n` slots of a branch that have no place.
pub open spec fn no_places(n: nat) -> Seq<Option<ValueLocation>> {
    Seq::new(n, |i: int| None::<ValueLocation>)
}

/// Places as slots that have them.
pub open spec fn some_places(locs: Seq<ValueLocation>) -> Seq<Option<ValueLocation>> {
    locs.map_values(|loc: ValueLocation| Some(loc))
}

/// The first depth of a range that may not be there: 0 without a range.
pub open spec fn drop_start(to_drop: Option<DropRange>) -> nat {
    match to_drop {
        Some(range) => range.start as nat,
        None => 0,
    }
}

/// How many of the places of a layout lie under the slots that a branch
/// drops: all but the topmost `drop_start` of them.
pub open spec fn split_at(len: nat, to_drop: Option<DropRange>) -> nat {
    if drop_start(to_drop) <= len {
        (len - drop_start(to_drop)) as nat
    } else {
        0
    }
}

/// The layout `locs` of a block, seen from a branch that holds `params`
/// values and the selector and that drops `to_drop` on the way: a slot for
/// each value of the branch, with the place that the block wants it in, or
/// `None` for a slot that the block does not see. The slots without a place
/// are those that the branch drops, those below what the layout covers, and
/// the selector. `None` where the layout and the dropped slots together are
/// more than the branch holds.
pub open spec fn param_locs(params: u32, locs: Seq<ValueLocation>, to_drop: Option<DropRange>) -> Option<
    Seq<Option<ValueLocation>>,
> {
    let count = drop_count(to_drop);
    let split = split_at(locs.len(), to_drop);
    if locs.len() + count <= params {
        Some(
            no_places((params - (locs.len() + count)) as nat) + some_places(locs.take(split as int))
                + no_places(count) + some_places(locs.skip(split as int)) + no_places(1),
        )
    } else {
        None
    }
}

/// Whether two rows of slots agree: no slot has a place in both that differs.
pub open spec fn agree(a: Seq<Option<ValueLocation>>, b: Seq<Option<ValueLocation>>) -> bool {
    forall|i: int|
        0 <= i < a.len() && i < b.len() ==> (a[i] is Some && b[i] is Some ==> #[trigger] a[i]
            == #[trigger] b[i])
}

/// How many slots of a row have a place.
pub open spec fn concrete_count(a: Seq<Option<ValueLocation>>) -> nat
    decreases a.len(),
{
    if a.len() == 0 {
        0
    } else {
        concrete_count(a.drop_last()) + if a.last() is Some {
            1nat
        } else {
            0nat
        }
    }
}

/// A row of slots has as many slots as the branch has values, and one for
/// the selector.
pub proof fn lemma_param_locs_len(params: u32, locs: Seq<ValueLocation>, to_drop: Option<DropRange>)
    requires
        param_locs(params, locs, to_drop) is Some,
    ensures
        param_locs(params, locs, to_drop).unwrap().len() == params + 1,
{
}

/// What is left of `locs` after the slots at the depths `to_drop` are taken
/// out: depth 0 is the last place. Nothing is taken out where the range is
/// empty or reaches below the first place.
pub open spec fn dropped(locs: Seq<ValueLocation>, to_drop: Option<DropRange>) -> Seq<ValueLocation> {
    match to_drop {
        Some(range) => if range.start <= range.end && range.end < locs.len() {
            locs.take(locs.len() - 1 - range.end) + locs.skip(locs.len() - range.start)
        } else {
            locs
        },
        None => locs,
    }
}

/// The layout `locs` seen from a branch that holds `params` values and drops
/// `to_drop`.
pub fn cc_to_param_locs(params: u32, locs: &Vec<ValueLocation>, to_drop: Option<DropRange>) -> (r:
    Option<Vec<Option<ValueLocation>>>)
    ensures
        match param_locs(params, locs@, to_drop) {
            Some(row) => r matches Some(v) && v@ == row,
            None => r is None,
        },
{
    let (start, count) = match to_drop {
        Some(range) => (range.start as usize, range.count()),
        None => (0, 0),
    };
    let len = locs.len();
    let split = if start <= len {
        len - start
    } else {
        0
    };
    if len as u128 + count as u128 > params as u128 {
        return None;
    }
    let extra = params as usize - (len + count as usize);
    let ghost row = param_locs(params, locs@, to_drop).unwrap();
    let mut out: Vec<Option<ValueLocation>> = Vec::new();
    let mut i: usize = 0;
    while i < extra
        invariant
            i <= extra,
            out@ == no_places(i as nat),
        decreases extra - i,
    {
        out.push(None);
        proof {
            assert(out@ =~= no_places((i + 1) as nat));
        }
        i += 1;
    }
    let mut i: usize = 0;
    while i < split
        invariant
            i <= split <= len,
            len == locs@.len(),
            out@ == no_places(extra as nat) + some_places(locs@.take(i as int)),
        decreases split - i,
    {
        out.push(Some(locs[i]));
        proof {
            assert(out@ =~= no_places(extra as nat) + some_places(locs@.take(i as int + 1)));
        }
        i += 1;
    }
    let mut i: u64 = 0;
    while i < count
        invariant
            i <= count,
            out@ == no_places(extra as nat) + some_places(locs@.take(split as int)) + no_places(
                i as nat,
            ),
        decreases count - i,
    {
        out.push(None);
        proof {
            assert(out@ =~= no_places(extra as nat) + some_places(locs@.take(split as int))
                + no_places((i + 1) as nat));
        }
        i += 1;
    }
    let mut i: usize = split;
    while i < len
        invariant
            split <= i <= len,
            len == locs@.len(),
            out@ == no_places(extra as nat) + some_places(locs@.take(split as int)) + no_places(
                count as nat,
            ) + some_places(locs@.subrange(split as int, i as int)),
        decreases len - i,
    {
        out.push(Some(locs[i]));
        proof {
            assert(out@ =~= no_places(extra as nat) + some_places(locs@.take(split as int))
                + no_places(count as nat) + some_places(locs@.subrange(split as int, i as int + 1)));
        }
        i += 1;
    }
    out.push(None);
    proof {
        assert(locs@.subrange(split as int, len as int) == locs@.skip(split as int));
        assert(out@ =~= row);
    }
    Some(out)
}

/// Whether two rows of slots agree, and how many slots of each have a place.
pub fn compare_rows(a: &Vec<Option<ValueLocation>>, b: &Vec<Option<ValueLocation>>) -> (r: (
    bool,
    usize,
    usize,
))
    ensures
        r.0 == agree(a@, b@),
        r.1 == concrete_count(a@),
        r.2 == concrete_count(b@),
{
    let mut equal = true;
    let mut i: usize = 0;
    while i < a.len() && i < b.len()
        invariant
            i <= a.len(),
            i <= b.len(),
            equal == agree(a@.take(i as int), b@.take(i as int)),
        decreases a.len() - i,
    {
        let ghost before_a = a@.take(i as int);
        let ghost before_b = b@.take(i as int);
        let ghost after_a = a@.take(i as int + 1);
        let ghost after_b = b@.take(i as int + 1);
        let same = match (a[i], b[i]) {
            (Some(x), Some(y)) => x == y,
            _ => true,
        };
        proof {
            if equal && same {
                assert forall|j: int|
                    0 <= j < after_a.len() && j < after_b.len() && after_a[j] is Some
                        && after_b[j] is Some implies #[trigger] after_a[j]
                    == #[trigger] after_b[j] by {
                    if j < i {
                        assert(before_a[j] == after_a[j]);
                        assert(before_b[j] == after_b[j]);
                    }
                }
            } else if !same {
                assert(after_a[i as int] != after_b[i as int]);
            } else {
                let j = choose|j: int|
                    0 <= j < before_a.len() && j < before_b.len() && !(before_a[j] is Some
                        && before_b[j] is Some ==> #[trigger] before_a[j] == #[trigger] before_b[j]);
                assert(after_a[j] == before_a[j]);
                assert(after_b[j] == before_b[j]);
            }
        }
        equal = equal && same;
        i += 1;
    }
    proof {
        assert forall|j: int| 0 <= j < a@.len() && j < b@.len() implies a@[j] == a@.take(i as int)[j]
            && b@[j] == b@.take(i as int)[j] by {}
        if equal {
            assert(agree(a@, b@));
        } else {
            let j = choose|j: int|
                0 <= j < i && !(a@.take(i as int)[j] is Some && b@.take(i as int)[j] is Some
                    ==> #[trigger] a@.take(i as int)[j] == #[trigger] b@.take(i as int)[j]);
            assert(a@[j] == a@.take(i as int)[j]);
            assert(b@[j] == b@.take(i as int)[j]);
        }
    }
    (equal, count_places(a), count_places(b))
}

/// How many slots of a row have a place.
pub fn count_places(a: &Vec<Option<ValueLocation>>) -> (n: usize)
    ensures
        n == concrete_count(a@),
{
    let mut n: usize = 0;
    let mut i: usize = 0;
    while i < a.len()
        invariant
            i <= a.len(),
            n <= i,
            n == concrete_count(a@.take(i as int)),
        decreases a.len() - i,
    {
        proof {
            assert(a@.take(i as int + 1).drop_last() == a@.take(i as int));
        }
        if a[i].is_some() {
            n += 1;
        }
        i += 1;
    }
    proof {
        assert(a@.take(i as int) == a@);
    }
    n
}

/// Takes the slots at the depths `to_drop` out of `locs`.
pub fn drop_elements(locs: &mut Vec<ValueLocation>, to_drop: Option<DropRange>)
    ensures
        final(locs)@ == dropped(old(locs)@, to_drop),
{
    match to_drop {
        Some(range) => {
            let len = locs.len();
            if range.start <= range.end && (range.end as usize) < len {
                let first = len - 1 - range.end as usize;
                let after = len - range.start as usize;
                let mut out: Vec<ValueLocation> = Vec::new();
                let mut i: usize = 0;
                while i < first
                    invariant
                        i <= first <= locs@.len(),
                        out@ == locs@.take(i as int),
                    decreases first - i,
                {
                    out.push(locs[i]);
                    proof {
                        assert(out@ =~= locs@.take(i as int + 1));
                    }
                    i += 1;
                }
                let mut i: usize = after;
                while i < len
                    invariant
                        first <= after <= i <= len,
                        len == locs@.len(),
                        out@ == locs@.take(first as int) + locs@.subrange(after as int, i as int),
                    decreases len - i,
                {
                    out.push(locs[i]);
                    proof {
                        assert(out@ =~= locs@.take(first as int) + locs@.subrange(
                            after as int,
                            i as int + 1,
                        ));
                    }
                    i += 1;
                }
                proof {
                    assert(locs@.subrange(after as int, len as int) == locs@.skip(after as int));
                }
                *locs = out;
            }
        },
        None => {},
    }
}

} // verus!
