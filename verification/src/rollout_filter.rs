//! The rollout persistence pass: the items the persistence policy keeps,
//! in order and unchanged.

use vstd::prelude::*;

verus! {

/// The items whose flag is set, in order.
pub open spec fn kept_items<T>(items: Seq<T>, kept: Seq<bool>) -> Seq<T>
    recommends
        items.len() == kept.len(),
    decreases items.len(),
{
    if items.len() == 0 {
        Seq::empty()
    } else if kept.last() {
        kept_items(items.drop_last(), kept.drop_last()).push(items.last())
    } else {
        kept_items(items.drop_last(), kept.drop_last())
    }
}

/// Applies the persistence policy once: `kept[i]` is the policy's verdict on
/// `items[i]`, and the items it keeps come back in order, unchanged.
pub fn measure_and_filter_rollout_items<T>(items: Vec<T>, kept: &Vec<bool>) -> (persisted: Vec<T>)
    requires
        kept@.len() == items@.len(),
    ensures
        persisted@ == kept_items(items@, kept@),
{
    let ghost all = items@;
    let mut persisted: Vec<T> = Vec::new();
    let n = kept.len();
    let mut i: usize = 0;
    for item in it: items
        invariant
            it.seq() == all,
            n == kept@.len(),
            i == it.index(),
            kept@.len() == all.len(),
            persisted@ == kept_items(all.subrange(0, i as int), kept@.subrange(0, i as int)),
    {
        proof {
            assert(i < n);
            let next = all.subrange(0, i + 1);
            let next_kept = kept@.subrange(0, i + 1);
            assert(next.drop_last() =~= all.subrange(0, i as int));
            assert(next_kept.drop_last() =~= kept@.subrange(0, i as int));
            assert(next.last() == item);
            assert(next_kept.last() == kept@[i as int]);
        }
        if kept[i] {
            persisted.push(item);
        }
        i = i + 1;
    }
    proof {
        assert(all.subrange(0, all.len() as int) =~= all);
        assert(kept@.subrange(0, all.len() as int) =~= kept@);
    }
    persisted
}

} // verus!
