//! Scored epochs as a scorer hands them over, and the order in which a turn
//! considers them: heaviest first, and among equal weights the one that came
//! first.

use vstd::prelude::*;
use crate::deep_domain_rights::{BiophysicalLayer, LifeforceBand};

verus! {

/// The lifeforce signal as its source reports it.
#[derive(Clone, Copy, Debug, PartialEq, Eq, Structural)]
pub struct LifeforceState {
    /// Vitality in millionths of the full scale.
    pub lifeforcescalar01: u32,
    pub band: LifeforceBand,
}

/// A scorer's verdict on one epoch.
#[derive(Clone, Copy, Debug, PartialEq, Eq, Structural)]
pub struct DeepRoutingDecision {
    pub layer: BiophysicalLayer,
    pub eligible_for_excavation: bool,
    /// Priority in millionths; a heavier epoch is considered earlier.
    pub excavation_weight01: u32,
}

/// An epoch offered to a turn: the scorer's verdict and the energy that
/// excavating it costs, in nanojoules.
#[derive(Clone, Copy, Debug, PartialEq, Eq, Structural)]
pub struct ScoredEpoch {
    pub decision: DeepRoutingDecision,
    pub ecoenergynj: u64,
}

/// The weight of the epoch at index `i`.
pub open spec fn weight_of(epochs: Seq<ScoredEpoch>, i: usize) -> u32 {
    epochs[i as int].decision.excavation_weight01
}

/// Whether the epoch at index `a` is considered before the one at `b`: it is
/// heavier, or as heavy and earlier in the list.
pub open spec fn precedes(epochs: Seq<ScoredEpoch>, a: usize, b: usize) -> bool {
    weight_of(epochs, a) > weight_of(epochs, b) || (weight_of(epochs, a) == weight_of(epochs, b)
        && a < b)
}

/// Where an epoch of weight `w` that came after all those in `order` is put:
/// behind the last entry that is at least as heavy, at the front if there is
/// none.
pub open spec fn insertion_point(epochs: Seq<ScoredEpoch>, order: Seq<usize>, w: u32) -> int
    decreases order.len(),
{
    if order.len() == 0 {
        0
    } else if weight_of(epochs, order.last()) >= w {
        order.len() as int
    } else {
        insertion_point(epochs, order.drop_last(), w)
    }
}

/// The first `n` indices of `epochs` in the order of consideration.
pub open spec fn priority_order_of_first(epochs: Seq<ScoredEpoch>, n: nat) -> Seq<usize>
    decreases n,
{
    if n == 0 {
        Seq::empty()
    } else {
        let earlier = priority_order_of_first(epochs, (n - 1) as nat);
        let newest = (n - 1) as usize;
        earlier.insert(insertion_point(epochs, earlier, weight_of(epochs, newest)), newest)
    }
}

/// The indices of `epochs` in the order of consideration.
pub open spec fn spec_priority_order(epochs: Seq<ScoredEpoch>) -> Seq<usize> {
    priority_order_of_first(epochs, epochs.len())
}

/// Whether `order` lists each of the first `n` indices once, every entry
/// before all those that it precedes.
pub open spec fn is_priority_order(epochs: Seq<ScoredEpoch>, n: nat, order: Seq<usize>) -> bool {
    &&& order.len() == n
    &&& forall|k: int| 0 <= k < order.len() ==> (#[trigger] order[k]) < n
    &&& forall|i: int, j: int|
        0 <= i < j < order.len() ==> precedes(epochs, #[trigger] order[i], #[trigger] order[j])
    &&& forall|a: usize| a < n ==> #[trigger] order.contains(a)
}

/// The insertion point lies within the list. The entry just before it is at
/// least as heavy as `w`; every entry from it on is lighter.
pub proof fn lemma_insertion_point(epochs: Seq<ScoredEpoch>, order: Seq<usize>, w: u32)
    ensures
        0 <= insertion_point(epochs, order, w) <= order.len(),
        forall|k: int|
            insertion_point(epochs, order, w) <= k < order.len() ==> weight_of(
                epochs,
                #[trigger] order[k],
            ) < w,
        insertion_point(epochs, order, w) > 0 ==> weight_of(
            epochs,
            order[insertion_point(epochs, order, w) - 1],
        ) >= w,
    decreases order.len(),
{
    if order.len() > 0 && weight_of(epochs, order.last()) < w {
        lemma_insertion_point(epochs, order.drop_last(), w);
        let p = insertion_point(epochs, order.drop_last(), w);
        assert forall|k: int| p <= k < order.len() implies weight_of(epochs, #[trigger] order[k])
            < w by {
            if k < order.len() - 1 {
                assert(order[k] == order.drop_last()[k]);
            }
        }
        if p > 0 {
            assert(order[p - 1] == order.drop_last()[p - 1]);
        }
    }
}

/// The order of consideration of the first `n` epochs lists each of them
/// once, heavier before lighter and, at equal weight, earlier before later.
pub proof fn lemma_priority_order_of_first(epochs: Seq<ScoredEpoch>, n: nat)
    requires
        n <= epochs.len(),
        n <= usize::MAX,
    ensures
        is_priority_order(epochs, n, priority_order_of_first(epochs, n)),
    decreases n,
{
    if n > 0 {
        let earlier = priority_order_of_first(epochs, (n - 1) as nat);
        let newest = (n - 1) as usize;
        let w = weight_of(epochs, newest);
        let p = insertion_point(epochs, earlier, w);
        let order = priority_order_of_first(epochs, n);
        lemma_priority_order_of_first(epochs, (n - 1) as nat);
        lemma_insertion_point(epochs, earlier, w);
        earlier.insert_ensures(p, newest);
        assert(order == earlier.insert(p, newest));
        assert forall|k: int| 0 <= k < order.len() implies (#[trigger] order[k]) < n by {
            if k < p {
                assert(order[k] == earlier[k]);
            } else if k > p {
                assert(order[k] == earlier[k - 1]);
            }
        }
        assert forall|i: int, j: int| 0 <= i < j < order.len() implies precedes(
            epochs,
            #[trigger] order[i],
            #[trigger] order[j],
        ) by {
            if j < p {
                assert(order[i] == earlier[i] && order[j] == earlier[j]);
            } else if j == p {
                assert(order[i] == earlier[i]);
                if i < p - 1 {
                    assert(precedes(epochs, earlier[i], earlier[p - 1]));
                }
                assert(weight_of(epochs, earlier[i]) >= w);
                assert(earlier[i] < newest);
            } else if i < p {
                assert(order[i] == earlier[i] && order[j] == earlier[j - 1]);
            } else if i == p {
                assert(order[j] == earlier[j - 1]);
                assert(weight_of(epochs, earlier[j - 1]) < w);
            } else {
                assert(order[i] == earlier[i - 1] && order[j] == earlier[j - 1]);
            }
        }
        assert forall|a: usize| a < n implies #[trigger] order.contains(a) by {
            if a == newest {
                assert(order[p] == a);
            } else {
                assert(earlier.contains(a));
                let k = choose|k: int| 0 <= k < earlier.len() && earlier[k] == a;
                if k < p {
                    assert(order[k] == a);
                } else {
                    assert(order[k + 1] == a);
                }
            }
        }
    }
}

/// The order of consideration lists every epoch once, heavier before lighter
/// and, at equal weight, in the order in which they were offered.
pub proof fn lemma_priority_order(epochs: Seq<ScoredEpoch>)
    requires
        epochs.len() <= usize::MAX,
    ensures
        is_priority_order(epochs, epochs.len(), spec_priority_order(epochs)),
{
    lemma_priority_order_of_first(epochs, epochs.len());
}

/// Two orders of consideration of the same epochs agree on their first `k`
/// entries.
proof fn lemma_orders_agree(
    epochs: Seq<ScoredEpoch>,
    n: nat,
    first: Seq<usize>,
    second: Seq<usize>,
    k: nat,
)
    requires
        is_priority_order(epochs, n, first),
        is_priority_order(epochs, n, second),
        k <= n,
    ensures
        forall|i: int| 0 <= i < k ==> first[i] == second[i],
    decreases k,
{
    if k > 0 {
        lemma_orders_agree(epochs, n, first, second, (k - 1) as nat);
        let at = k - 1;
        let a = first[at];
        let b = second[at];
        if a != b {
            if precedes(epochs, a, b) {
                assert(second.contains(a));
                let j = choose|j: int| 0 <= j < second.len() && second[j] == a;
                if j < at {
                    assert(precedes(epochs, first[j], first[at]));
                } else {
                    assert(precedes(epochs, second[at], second[j]));
                }
            } else {
                assert(first.contains(b));
                let j = choose|j: int| 0 <= j < first.len() && first[j] == b;
                if j < at {
                    assert(precedes(epochs, second[j], second[at]));
                } else {
                    assert(precedes(epochs, first[at], first[j]));
                }
            }
        }
    }
}

/// Weights and the order of the offer leave no choice: there is one order of
/// consideration, so equal weights can never be taken in another order.
pub proof fn lemma_priority_order_unique(epochs: Seq<ScoredEpoch>, order: Seq<usize>)
    requires
        epochs.len() <= usize::MAX,
        is_priority_order(epochs, epochs.len(), order),
    ensures
        order == spec_priority_order(epochs),
{
    lemma_priority_order(epochs);
    lemma_orders_agree(epochs, epochs.len(), order, spec_priority_order(epochs), epochs.len());
    assert(order =~= spec_priority_order(epochs));
}

/// Orders the indices of `epochs` for consideration: by weight, heaviest
/// first; epochs of equal weight keep the order in which they were offered.
pub fn priority_order(epochs: &[ScoredEpoch]) -> (order: Vec<usize>)
    ensures
        order@ == spec_priority_order(epochs@),
        is_priority_order(epochs@, epochs@.len(), order@),
{
    let mut order: Vec<usize> = Vec::new();
    let mut n: usize = 0;
    while n < epochs.len()
        invariant
            n <= epochs.len(),
            order@ == priority_order_of_first(epochs@, n as nat),
            is_priority_order(epochs@, n as nat, order@),
        decreases epochs.len() - n,
    {
        let w = epochs[n].decision.excavation_weight01;
        let mut p: usize = order.len();
        assert(order@.take(p as int) =~= order@);
        loop
            invariant
                n < epochs.len(),
                w == weight_of(epochs@, n),
                is_priority_order(epochs@, n as nat, order@),
                p <= order.len(),
                insertion_point(epochs@, order@, w) == insertion_point(
                    epochs@,
                    order@.take(p as int),
                    w,
                ),
            ensures
                p == insertion_point(epochs@, order@, w),
            decreases p,
        {
            if p == 0 {
                break ;
            }
            let before = order[p - 1];
            proof {
                assert(order@.take(p as int).last() == before);
                assert(order@.take(p as int).drop_last() =~= order@.take(p - 1));
            }
            if epochs[before].decision.excavation_weight01 >= w {
                break ;
            }
            p -= 1;
        }
        order.insert(p, n);
        n += 1;
        proof {
            lemma_priority_order_of_first(epochs@, n as nat);
        }
    }
    order
}

} // verus!
