use biophysical_governance::deep_domain_rights::BiophysicalLayer;
use biophysical_governance::epoch_scoring::{priority_order, DeepRoutingDecision, ScoredEpoch};

fn weighted(weights: &[u32]) -> Vec<ScoredEpoch> {
    weights
        .iter()
        .map(|w| ScoredEpoch {
            decision: DeepRoutingDecision {
                layer: BiophysicalLayer::B2Structural,
                eligible_for_excavation: true,
                excavation_weight01: *w,
            },
            ecoenergynj: 0,
        })
        .collect()
}

#[test]
fn heaviest_comes_first() {
    assert_eq!(priority_order(&weighted(&[100_000, 900_000, 500_000])), vec![1, 2, 0]);
}

#[test]
fn descending_offer_keeps_its_order() {
    assert_eq!(priority_order(&weighted(&[900_000, 500_000, 100_000])), vec![0, 1, 2]);
}

#[test]
fn equal_weights_keep_the_order_of_the_offer() {
    assert_eq!(priority_order(&weighted(&[5, 5, 5, 5])), vec![0, 1, 2, 3]);
    assert_eq!(priority_order(&weighted(&[5, 9, 5, 9, 5, 0, 9])), vec![1, 3, 6, 0, 2, 4, 5]);
}

#[test]
fn empty_and_single_offers() {
    assert_eq!(priority_order(&weighted(&[])), Vec::<usize>::new());
    assert_eq!(priority_order(&weighted(&[7])), vec![0]);
}

#[test]
fn extreme_weights() {
    assert_eq!(priority_order(&weighted(&[0, u32::MAX, 1, u32::MAX - 1])), vec![1, 3, 2, 0]);
}

#[test]
fn order_agrees_with_a_stable_sort() {
    let mut weights = Vec::new();
    let mut x: u32 = 12345;
    for _ in 0..200 {
        x = x.wrapping_mul(1_103_515_245).wrapping_add(12_345);
        weights.push((x >> 16) % 7);
    }
    let mut expected: Vec<usize> = (0..weights.len()).collect();
    expected.sort_by(|a, b| weights[*b].cmp(&weights[*a]));
    assert_eq!(priority_order(&weighted(&weights)), expected);
}
