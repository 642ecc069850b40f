//! What holds of every turn: which epochs a walk selects, in which order,
//! and how the usage that each epoch is held against comes about.

use vstd::prelude::*;
use crate::deep_domain_rights::BiophysicalLayer;
use crate::deep_excavation_turn::{DailyLayerUsage, ExcavationTurn, WalkState};
use crate::epoch_scoring::{
    DeepRoutingDecision,
    ScoredEpoch,
    is_priority_order,
    lemma_priority_order,
    precedes,
    spec_priority_order,
};

verus! {

/// The entry that the epoch at position `j` of `order` has in a selection.
pub open spec fn entry_at(turn: ExcavationTurn, order: Seq<usize>, j: int) -> (
    usize,
    DeepRoutingDecision,
) {
    (order[j], turn.epochs[order[j] as int].decision)
}

/// Whether the walk admits the epoch at position `j` of `order`: the epoch is
/// eligible and the capability gate allows it against the usage that the walk
/// has reached after the `j` epochs before it.
pub open spec fn admitted_at(turn: ExcavationTurn, order: Seq<usize>, j: int) -> bool {
    turn.admits(turn.walk(order, j as nat).usage, turn.epochs[order[j] as int])
}

/// How many entries of a selection belong to `layer`.
pub open spec fn selected_in_layer(
    selected: Seq<(usize, DeepRoutingDecision)>,
    layer: BiophysicalLayer,
) -> nat
    decreases selected.len(),
{
    if selected.len() == 0 {
        0
    } else {
        selected_in_layer(selected.drop_last(), layer) + if selected.last().1.layer == layer {
            1nat
        } else {
            0nat
        }
    }
}

/// After `m` epochs a walk has selected or skipped each of them, and has
/// selected exactly those that it admitted.
pub proof fn lemma_walk_selects_admitted(turn: ExcavationTurn, order: Seq<usize>, m: nat)
    requires
        m <= order.len(),
    ensures
        turn.walk(order, m).selected.len() + turn.walk(order, m).skipped == m,
        forall|pair: (usize, DeepRoutingDecision)|
            turn.walk(order, m).selected.contains(pair) <==> exists|j: int|
                0 <= j < m && admitted_at(turn, order, j) && pair == #[trigger] entry_at(
                    turn,
                    order,
                    j,
                ),
    decreases m,
{
    if m > 0 {
        let before = turn.walk(order, (m - 1) as nat);
        let after = turn.walk(order, m);
        let last = m - 1;
        lemma_walk_selects_admitted(turn, order, (m - 1) as nat);
        assert forall|pair: (usize, DeepRoutingDecision)|
            after.selected.contains(pair) <==> exists|j: int|
                0 <= j < m && admitted_at(turn, order, j) && pair == #[trigger] entry_at(
                    turn,
                    order,
                    j,
                ) by {
            if after.selected.contains(pair) {
                let a = choose|a: int| 0 <= a < after.selected.len() && after.selected[a] == pair;
                if a < before.selected.len() {
                    assert(before.selected[a] == pair);
                    assert(before.selected.contains(pair));
                    let j = choose|j: int|
                        0 <= j < m - 1 && admitted_at(turn, order, j) && pair == #[trigger] entry_at(
                            turn,
                            order,
                            j,
                        );
                    assert(0 <= j < m && admitted_at(turn, order, j) && pair == entry_at(
                        turn,
                        order,
                        j,
                    ));
                } else {
                    assert(admitted_at(turn, order, last) && pair == entry_at(turn, order, last));
                }
            }
            if exists|j: int|
                0 <= j < m && admitted_at(turn, order, j) && pair == #[trigger] entry_at(
                    turn,
                    order,
                    j,
                ) {
                let j = choose|j: int|
                    0 <= j < m && admitted_at(turn, order, j) && pair == #[trigger] entry_at(
                        turn,
                        order,
                        j,
                    );
                if j < m - 1 {
                    assert(before.selected.contains(pair));
                    let a = choose|a: int|
                        0 <= a < before.selected.len() && before.selected[a] == pair;
                    assert(after.selected[a] == pair);
                } else {
                    assert(after.selected[after.selected.len() - 1] == pair);
                }
            }
        }
    }
}

/// The capability gate decides the selection. In a turn that is walked, the
/// epoch at position `k` of the priority order is among the selected exactly
/// when it is eligible and `can_excavate_epoch`, called with the turn's snapshot, token
/// balances, token flag and intent tag, the epoch's layer and energy, and the
/// count that its layer has reached after the `k` epochs before it, allows
/// it.
pub proof fn lemma_gate_decides_selection(turn: ExcavationTurn, k: int)
    requires
        turn.epochs.len() <= usize::MAX,
        turn.admitted(),
        0 <= k < turn.epochs.len(),
    ensures
        ({
            let order = spec_priority_order(turn.epochs);
            let epoch = turn.epochs[order[k] as int];
            let usage = turn.walk(order, k as nat).usage;
            turn.outcome().selected_epochs.contains((order[k], epoch.decision)) <==> {
                &&& epoch.decision.eligible_for_excavation
                &&& turn.rights.can_excavate_epoch(
                    epoch.decision.layer,
                    turn.lf,
                    epoch.ecoenergynj,
                    turn.brain_tokens_available,
                    turn.draculawave_available,
                    usage.spec_get(epoch.decision.layer),
                    turn.context.irreversible_token_present,
                    turn.context.intent_tag,
                )
            }
        }),
{
    let order = spec_priority_order(turn.epochs);
    let pair = entry_at(turn, order, k);
    lemma_priority_order(turn.epochs);
    lemma_walk_selects_admitted(turn, order, turn.epochs.len());
    if turn.full_walk().selected.contains(pair) {
        let j = choose|j: int|
            0 <= j < turn.epochs.len() && admitted_at(turn, order, j) && pair == #[trigger] entry_at(
                turn,
                order,
                j,
            );
        if j < k {
            assert(precedes(turn.epochs, order[j], order[k]));
        } else if k < j {
            assert(precedes(turn.epochs, order[k], order[j]));
        }
        assert(j == k);
    }
    if admitted_at(turn, order, k) {
        assert(pair == entry_at(turn, order, k));
    }
}

/// A walk selects in priority order: each selected epoch is offered at the
/// index that its entry names, carries the decision that it was offered
/// with, and precedes every epoch selected after it.
pub proof fn lemma_selection_in_priority_order(turn: ExcavationTurn, order: Seq<usize>, m: nat)
    requires
        is_priority_order(turn.epochs, turn.epochs.len(), order),
        m <= order.len(),
    ensures
        forall|a: int|
            0 <= a < turn.walk(order, m).selected.len() ==> {
                let entry = #[trigger] turn.walk(order, m).selected[a];
                entry.0 < turn.epochs.len() && entry.1 == turn.epochs[entry.0 as int].decision
            },
        forall|a: int, b: int|
            0 <= a < b < turn.walk(order, m).selected.len() ==> precedes(
                turn.epochs,
                (#[trigger] turn.walk(order, m).selected[a]).0,
                (#[trigger] turn.walk(order, m).selected[b]).0,
            ),
    decreases m,
{
    if m > 0 {
        let before = turn.walk(order, (m - 1) as nat);
        let after = turn.walk(order, m);
        lemma_selection_in_priority_order(turn, order, (m - 1) as nat);
        lemma_walk_selects_admitted(turn, order, (m - 1) as nat);
        assert forall|a: int, b: int| 0 <= a < b < after.selected.len() implies precedes(
            turn.epochs,
            (#[trigger] after.selected[a]).0,
            (#[trigger] after.selected[b]).0,
        ) by {
            if b < before.selected.len() {
                assert(after.selected[a] == before.selected[a]);
                assert(after.selected[b] == before.selected[b]);
            } else {
                assert(after.selected[a] == before.selected[a]);
                assert(before.selected.contains(before.selected[a]));
                let j = choose|j: int|
                    0 <= j < m - 1 && admitted_at(turn, order, j) && before.selected[a]
                        == #[trigger] entry_at(turn, order, j);
                assert(precedes(turn.epochs, order[j], order[m - 1]));
            }
        }
    }
}

/// An admitted epoch counts against its layer at once. After `m` epochs the
/// count of each layer is the count that the walk began with and the number
/// of epochs of that layer selected so far; and a layer of which the walk has
/// selected an epoch is within its daily cap.
pub proof fn lemma_usage_counts_selection(
    turn: ExcavationTurn,
    order: Seq<usize>,
    m: nat,
    layer: BiophysicalLayer,
)
    requires
        m <= order.len(),
    ensures
        turn.walk(order, m).usage.spec_get(layer) == turn.daily_layer_usage.spec_get(layer)
            + selected_in_layer(turn.walk(order, m).selected, layer),
        selected_in_layer(turn.walk(order, m).selected, layer) > 0 ==> {
            &&& turn.rights.policy(layer) is Some
            &&& turn.walk(order, m).usage.spec_get(layer) <= turn.rights.policy(
                layer,
            ).unwrap().max_daily_epochs
        },
    decreases m,
{
    if m == 0 {
        assert(selected_in_layer(turn.walk(order, 0).selected, layer) == 0);
    } else {
        let before = turn.walk(order, (m - 1) as nat);
        let after = turn.walk(order, m);
        let epoch = turn.epochs[order[m - 1] as int];
        lemma_usage_counts_selection(turn, order, (m - 1) as nat, layer);
        if turn.admits(before.usage, epoch) {
            assert(after.selected.drop_last() =~= before.selected);
            assert(after.selected.last() == (order[m - 1], epoch.decision));
        }
    }
}

} // verus!
