use biophysical_governance::deep_domain_rights::{
    BiophysicalLayer, DeepDomainRightsProfile, LayerPolicies, LayerPolicy, LifeforceBand,
    LifeforceSnapshot,
};
use biophysical_governance::deep_excavation_turn::{
    governed_select_deep_epochs, lifeforce_to_snapshot, whole_turn_denial, DailyLayerUsage,
    EvolutionTurnContext,
};
use biophysical_governance::epoch_scoring::{DeepRoutingDecision, LifeforceState, ScoredEpoch};

fn policy(min_lf: u32, max_eco: u64, max_daily: u32, require_token: bool) -> LayerPolicy {
    LayerPolicy {
        allow_echo: true,
        allow_excavation: true,
        max_daily_epochs: max_daily,
        max_epochs_per_turn: 2,
        min_lf_scalar01: min_lf,
        min_lf_bands: Vec::new(),
        max_ecoenergynj_per_epoch: max_eco,
        require_brain_token_min: 100,
        require_draculawave_min: 50,
        require_irreversible_token: require_token,
        require_intent_tag: None,
    }
}

fn turn_profile(structural_daily_cap: u32) -> DeepDomainRightsProfile {
    let mut layer_policies = LayerPolicies::new();
    layer_policies
        .insert(BiophysicalLayer::B2Structural, policy(300_000, 900, structural_daily_cap, false));
    layer_policies.insert(BiophysicalLayer::B3Deep, policy(500_000, 600, 2, false));
    layer_policies.insert(BiophysicalLayer::B4Rare, policy(700_000, 300, 1, true));
    DeepDomainRightsProfile {
        host_id: "did:host:alpha".to_string(),
        profile_id: "profile-1".to_string(),
        sovereign_owner_did: "did:host:alpha".to_string(),
        allowed_roles: vec!["augmented-citizen".to_string()],
        denied_roles: vec![
            "vendor-generic".to_string(),
            "sandbox".to_string(),
            "pure-machine".to_string(),
        ],
        ai_platforms_may_execute: false,
        layer_policies,
        b2_max_epochs_per_day: 8,
        b3_max_epochs_per_day: 4,
        b4_max_epochs_per_day: 1,
        brain_tokens_daily_budget: 10_000,
        draculawave_daily_budget: 10_000,
        eco_nj_daily_budget: 50_000,
        on_budget_exhaustion_mode: "log-only-no-new-excavation".to_string(),
        require_transcripthash: true,
        require_human_readable_explanation: true,
        irreversible_token_scope_id: "scope-1".to_string(),
        forbid_external_host_routing: true,
    }
}

fn context(role: &str, token: bool) -> EvolutionTurnContext {
    EvolutionTurnContext {
        query_id: "q-1".to_string(),
        intent_kind: "micro-epoch".to_string(),
        intent_tag: None,
        host_role: role.to_string(),
        irreversible_token_present: token,
    }
}

fn epoch(layer: BiophysicalLayer, weight: u32, eco: u64) -> ScoredEpoch {
    ScoredEpoch {
        decision: DeepRoutingDecision {
            layer,
            eligible_for_excavation: true,
            excavation_weight01: weight,
        },
        ecoenergynj: eco,
    }
}

fn lf() -> LifeforceSnapshot {
    LifeforceSnapshot { scalar01: 900_000, band: LifeforceBand::Green }
}

fn indices(selected: &[(usize, DeepRoutingDecision)]) -> Vec<usize> {
    selected.iter().map(|entry| entry.0).collect()
}

#[test]
fn denied_role_selects_nothing_and_skips_all() {
    let profile = turn_profile(4);
    let epochs = vec![
        epoch(BiophysicalLayer::B2Structural, 900_000, 10),
        epoch(BiophysicalLayer::B3Deep, 500_000, 10),
        epoch(BiophysicalLayer::B2Structural, 100_000, 10),
    ];
    let outcome = governed_select_deep_epochs(
        &context("sandbox", true),
        &profile,
        &epochs,
        &lf(),
        1_000,
        1_000,
        &DailyLayerUsage::new(),
    );
    assert!(outcome.selected_epochs.is_empty());
    assert_eq!(outcome.skipped_epochs, 3);
    assert_eq!(
        outcome.reason_summary,
        "Denied: host role 'sandbox' not authorized for deep-domain excavation"
    );
}

#[test]
fn role_in_neither_list_is_denied() {
    let profile = turn_profile(4);
    let epochs = vec![epoch(BiophysicalLayer::B2Structural, 900_000, 10)];
    let outcome = governed_select_deep_epochs(
        &context("observer", true),
        &profile,
        &epochs,
        &lf(),
        1_000,
        1_000,
        &DailyLayerUsage::new(),
    );
    assert!(outcome.selected_epochs.is_empty());
    assert_eq!(outcome.skipped_epochs, 1);
    assert_eq!(
        outcome.reason_summary,
        "Denied: host role 'observer' not authorized for deep-domain excavation"
    );
}

#[test]
fn unsafe_profile_denies_the_turn() {
    let mut profile = turn_profile(4);
    profile.forbid_external_host_routing = false;
    let epochs = vec![
        epoch(BiophysicalLayer::B2Structural, 900_000, 10),
        epoch(BiophysicalLayer::B2Structural, 800_000, 10),
    ];
    let outcome = governed_select_deep_epochs(
        &context("augmented-citizen", true),
        &profile,
        &epochs,
        &lf(),
        1_000,
        1_000,
        &DailyLayerUsage::new(),
    );
    assert!(outcome.selected_epochs.is_empty());
    assert_eq!(outcome.skipped_epochs, 2);
    assert_eq!(outcome.reason_summary, "Denied: rights profile violates deep-domain invariants");
}

#[test]
fn daily_cap_of_one_admits_only_the_heaviest() {
    let profile = turn_profile(1);
    let epochs = vec![
        epoch(BiophysicalLayer::B2Structural, 900_000, 10),
        epoch(BiophysicalLayer::B2Structural, 500_000, 10),
        epoch(BiophysicalLayer::B2Structural, 100_000, 10),
    ];
    let outcome = governed_select_deep_epochs(
        &context("augmented-citizen", false),
        &profile,
        &epochs,
        &lf(),
        1_000,
        1_000,
        &DailyLayerUsage::new(),
    );
    assert_eq!(outcome.selected_epochs.len(), 1);
    assert_eq!(outcome.selected_epochs[0].0, 0);
    assert_eq!(outcome.selected_epochs[0].1, epochs[0].decision);
    assert_eq!(outcome.skipped_epochs, 2);
    assert_eq!(
        outcome.reason_summary,
        "Selected 1 epochs for governed deep excavation; 2 skipped"
    );
}

#[test]
fn daily_cap_of_one_admits_the_heaviest_wherever_it_stands() {
    let profile = turn_profile(1);
    let epochs = vec![
        epoch(BiophysicalLayer::B2Structural, 100_000, 10),
        epoch(BiophysicalLayer::B2Structural, 500_000, 10),
        epoch(BiophysicalLayer::B2Structural, 900_000, 10),
    ];
    let outcome = governed_select_deep_epochs(
        &context("augmented-citizen", false),
        &profile,
        &epochs,
        &lf(),
        1_000,
        1_000,
        &DailyLayerUsage::new(),
    );
    assert_eq!(indices(&outcome.selected_epochs), vec![2]);
    assert_eq!(outcome.skipped_epochs, 2);
}

#[test]
fn tied_weights_keep_the_order_of_the_offer() {
    let profile = turn_profile(2);
    let epochs = vec![
        epoch(BiophysicalLayer::B2Structural, 500_000, 10),
        epoch(BiophysicalLayer::B2Structural, 500_000, 10),
        epoch(BiophysicalLayer::B2Structural, 500_000, 10),
        epoch(BiophysicalLayer::B2Structural, 500_000, 10),
    ];
    let ctx = context("augmented-citizen", false);
    let first = governed_select_deep_epochs(
        &ctx,
        &profile,
        &epochs,
        &lf(),
        1_000,
        1_000,
        &DailyLayerUsage::new(),
    );
    let second = governed_select_deep_epochs(
        &ctx,
        &profile,
        &epochs,
        &lf(),
        1_000,
        1_000,
        &DailyLayerUsage::new(),
    );
    assert_eq!(indices(&first.selected_epochs), vec![0, 1]);
    assert_eq!(first.selected_epochs, second.selected_epochs);
    assert_eq!(first.skipped_epochs, second.skipped_epochs);
    assert_eq!(first.reason_summary, second.reason_summary);
}

#[test]
fn selection_lists_epochs_by_weight_with_ties_in_offer_order() {
    let profile = turn_profile(8);
    let epochs = vec![
        epoch(BiophysicalLayer::B2Structural, 200_000, 10),
        epoch(BiophysicalLayer::B3Deep, 700_000, 10),
        epoch(BiophysicalLayer::B2Structural, 700_000, 10),
        epoch(BiophysicalLayer::B2Structural, 900_000, 10),
        epoch(BiophysicalLayer::B3Deep, 200_000, 10),
    ];
    let outcome = governed_select_deep_epochs(
        &context("augmented-citizen", false),
        &profile,
        &epochs,
        &lf(),
        1_000,
        1_000,
        &DailyLayerUsage::new(),
    );
    assert_eq!(indices(&outcome.selected_epochs), vec![3, 1, 2, 0, 4]);
    assert_eq!(outcome.skipped_epochs, 0);
    assert_eq!(
        outcome.reason_summary,
        "Selected 5 epochs for governed deep excavation; 0 skipped"
    );
}

#[test]
fn rare_epoch_is_skipped_without_the_token_and_selected_with_it() {
    let profile = turn_profile(4);
    let epochs = vec![epoch(BiophysicalLayer::B4Rare, 900_000, 300)];
    let without = governed_select_deep_epochs(
        &context("augmented-citizen", false),
        &profile,
        &epochs,
        &lf(),
        1_000,
        1_000,
        &DailyLayerUsage::new(),
    );
    assert!(without.selected_epochs.is_empty());
    assert_eq!(without.skipped_epochs, 1);
    assert_eq!(
        without.reason_summary,
        "No epochs selected for deep excavation; 1 were skipped by rights/lifeforce/eco gates"
    );
    let with = governed_select_deep_epochs(
        &context("augmented-citizen", true),
        &profile,
        &epochs,
        &lf(),
        1_000,
        1_000,
        &DailyLayerUsage::new(),
    );
    assert_eq!(indices(&with.selected_epochs), vec![0]);
    assert_eq!(with.skipped_epochs, 0);
}

#[test]
fn scalar_at_the_floor_is_admitted_and_one_below_is_not() {
    let profile = turn_profile(4);
    let epochs = vec![epoch(BiophysicalLayer::B3Deep, 900_000, 10)];
    let ctx = context("augmented-citizen", false);
    let at = LifeforceSnapshot { scalar01: 500_000, band: LifeforceBand::Yellow };
    let below = LifeforceSnapshot { scalar01: 499_999, band: LifeforceBand::Yellow };
    let usage = DailyLayerUsage::new();
    let admitted = governed_select_deep_epochs(&ctx, &profile, &epochs, &at, 1_000, 1_000, &usage);
    let refused = governed_select_deep_epochs(&ctx, &profile, &epochs, &below, 1_000, 1_000, &usage);
    assert_eq!(indices(&admitted.selected_epochs), vec![0]);
    assert!(refused.selected_epochs.is_empty());
    assert_eq!(refused.skipped_epochs, 1);
}

#[test]
fn ineligible_surface_and_excluded_epochs_are_skipped() {
    let mut profile = turn_profile(4);
    profile.layer_policies.insert(BiophysicalLayer::B1Surface, policy(0, u64::MAX, 9, false));
    profile.layer_policies.insert(BiophysicalLayer::Excluded, policy(0, u64::MAX, 9, false));
    let mut ineligible = epoch(BiophysicalLayer::B2Structural, 950_000, 10);
    ineligible.decision.eligible_for_excavation = false;
    let epochs = vec![
        ineligible,
        epoch(BiophysicalLayer::B1Surface, 900_000, 10),
        epoch(BiophysicalLayer::Excluded, 800_000, 10),
        epoch(BiophysicalLayer::B2Structural, 100_000, 10),
    ];
    let outcome = governed_select_deep_epochs(
        &context("augmented-citizen", true),
        &profile,
        &epochs,
        &lf(),
        1_000,
        1_000,
        &DailyLayerUsage::new(),
    );
    assert_eq!(indices(&outcome.selected_epochs), vec![3]);
    assert_eq!(outcome.skipped_epochs, 3);
}

#[test]
fn ineligible_epoch_does_not_use_up_quota() {
    let profile = turn_profile(1);
    let mut ineligible = epoch(BiophysicalLayer::B2Structural, 950_000, 10);
    ineligible.decision.eligible_for_excavation = false;
    let epochs = vec![ineligible, epoch(BiophysicalLayer::B2Structural, 100_000, 10)];
    let outcome = governed_select_deep_epochs(
        &context("augmented-citizen", false),
        &profile,
        &epochs,
        &lf(),
        1_000,
        1_000,
        &DailyLayerUsage::new(),
    );
    assert_eq!(indices(&outcome.selected_epochs), vec![1]);
    assert_eq!(outcome.skipped_epochs, 1);
}

#[test]
fn quota_is_kept_per_layer_and_starts_from_the_usage_given() {
    let profile = turn_profile(3);
    let epochs = vec![
        epoch(BiophysicalLayer::B2Structural, 900_000, 10),
        epoch(BiophysicalLayer::B3Deep, 800_000, 10),
        epoch(BiophysicalLayer::B2Structural, 700_000, 10),
        epoch(BiophysicalLayer::B3Deep, 600_000, 10),
        epoch(BiophysicalLayer::B2Structural, 500_000, 10),
    ];
    let mut usage = DailyLayerUsage::new();
    usage.set(BiophysicalLayer::B2Structural, 1);
    usage.set(BiophysicalLayer::B3Deep, 1);
    let before = usage;
    let outcome = governed_select_deep_epochs(
        &context("augmented-citizen", false),
        &profile,
        &epochs,
        &lf(),
        1_000,
        1_000,
        &usage,
    );
    assert_eq!(indices(&outcome.selected_epochs), vec![0, 1, 2]);
    assert_eq!(outcome.skipped_epochs, 2);
    assert_eq!(usage, before);
}

#[test]
fn epoch_that_costs_too_much_is_skipped_and_a_lighter_one_still_admitted() {
    let profile = turn_profile(1);
    let epochs = vec![
        epoch(BiophysicalLayer::B2Structural, 900_000, 901),
        epoch(BiophysicalLayer::B2Structural, 100_000, 900),
    ];
    let outcome = governed_select_deep_epochs(
        &context("augmented-citizen", false),
        &profile,
        &epochs,
        &lf(),
        1_000,
        1_000,
        &DailyLayerUsage::new(),
    );
    assert_eq!(indices(&outcome.selected_epochs), vec![1]);
    assert_eq!(outcome.skipped_epochs, 1);
}

#[test]
fn required_intent_tag_of_the_turn_is_handed_to_the_gate() {
    let mut profile = turn_profile(4);
    profile.layer_policies.b2_structural.as_mut().unwrap().require_intent_tag =
        Some("deep-excavation".to_string());
    let epochs = vec![epoch(BiophysicalLayer::B2Structural, 900_000, 10)];
    let mut ctx = context("augmented-citizen", false);
    let usage = DailyLayerUsage::new();
    let untagged = governed_select_deep_epochs(&ctx, &profile, &epochs, &lf(), 1_000, 1_000, &usage);
    assert!(untagged.selected_epochs.is_empty());
    ctx.intent_tag = Some("deep-excavation".to_string());
    let tagged = governed_select_deep_epochs(&ctx, &profile, &epochs, &lf(), 1_000, 1_000, &usage);
    assert_eq!(indices(&tagged.selected_epochs), vec![0]);
}

#[test]
fn no_epochs_gives_an_empty_outcome() {
    let profile = turn_profile(4);
    let outcome = governed_select_deep_epochs(
        &context("augmented-citizen", false),
        &profile,
        &[],
        &lf(),
        1_000,
        1_000,
        &DailyLayerUsage::new(),
    );
    assert!(outcome.selected_epochs.is_empty());
    assert_eq!(outcome.skipped_epochs, 0);
    assert_eq!(
        outcome.reason_summary,
        "No epochs selected for deep excavation; 0 were skipped by rights/lifeforce/eco gates"
    );
}

#[test]
fn summary_counts_are_written_in_decimal() {
    let profile = turn_profile(12);
    let mut epochs = Vec::new();
    for _ in 0..23 {
        epochs.push(epoch(BiophysicalLayer::B2Structural, 500_000, 10));
    }
    let outcome = governed_select_deep_epochs(
        &context("augmented-citizen", false),
        &profile,
        &epochs,
        &lf(),
        1_000,
        1_000,
        &DailyLayerUsage::new(),
    );
    assert_eq!(indices(&outcome.selected_epochs), (0..12).collect::<Vec<usize>>());
    assert_eq!(
        outcome.reason_summary,
        "Selected 12 epochs for governed deep excavation; 11 skipped"
    );
}

#[test]
fn gate_called_with_the_usage_reached_gives_the_decision_of_the_turn() {
    let profile = turn_profile(2);
    let epochs = vec![
        epoch(BiophysicalLayer::B2Structural, 300_000, 10),
        epoch(BiophysicalLayer::B2Structural, 900_000, 10),
        epoch(BiophysicalLayer::B3Deep, 800_000, 700),
        epoch(BiophysicalLayer::B2Structural, 600_000, 10),
    ];
    let ctx = context("augmented-citizen", false);
    let usage = DailyLayerUsage::new();
    let outcome = governed_select_deep_epochs(&ctx, &profile, &epochs, &lf(), 1_000, 1_000, &usage);
    let selected = indices(&outcome.selected_epochs);
    assert_eq!(selected, vec![1, 3]);
    // Replays the walk: 1, 2, 3, 0 is the order of consideration.
    let mut reached = usage;
    for index in [1usize, 2, 3, 0] {
        let e = epochs[index];
        let allowed = e.decision.eligible_for_excavation
            && profile.can_excavate_epoch(
                e.decision.layer,
                &lf(),
                e.ecoenergynj,
                1_000,
                1_000,
                reached.get(e.decision.layer),
                ctx.irreversible_token_present,
                ctx.intent_tag.as_deref(),
            );
        assert_eq!(allowed, selected.contains(&index));
        if allowed {
            reached.record(e.decision.layer);
        }
    }
    assert_eq!(reached.get(BiophysicalLayer::B2Structural), 2);
    assert_eq!(reached.get(BiophysicalLayer::B3Deep), 0);
}

#[test]
fn usage_counts_by_layer() {
    let mut usage = DailyLayerUsage::new();
    assert_eq!(usage.get(BiophysicalLayer::B4Rare), 0);
    usage.record(BiophysicalLayer::B4Rare);
    usage.record(BiophysicalLayer::B4Rare);
    usage.record(BiophysicalLayer::B2Structural);
    assert_eq!(usage.get(BiophysicalLayer::B4Rare), 2);
    assert_eq!(usage.get(BiophysicalLayer::B2Structural), 1);
    assert_eq!(usage.get(BiophysicalLayer::B3Deep), 0);
    usage.set(BiophysicalLayer::Excluded, u32::MAX);
    usage.record(BiophysicalLayer::Excluded);
    assert_eq!(usage.get(BiophysicalLayer::Excluded), u32::MAX);
    assert_eq!(usage.get(BiophysicalLayer::B1Surface), 0);
}

#[test]
fn snapshot_carries_the_reading() {
    let state = LifeforceState { lifeforcescalar01: 640_000, band: LifeforceBand::Yellow };
    let snapshot = lifeforce_to_snapshot(&state);
    assert_eq!(snapshot, LifeforceSnapshot { scalar01: 640_000, band: LifeforceBand::Yellow });
}

#[test]
fn denied_role_under_an_unsafe_profile_is_told_of_the_role() {
    let mut profile = turn_profile(4);
    profile.forbid_external_host_routing = false;
    profile.ai_platforms_may_execute = true;
    let epochs = vec![
        epoch(BiophysicalLayer::B2Structural, 900_000, 10),
        epoch(BiophysicalLayer::B3Deep, 500_000, 10),
    ];
    let outcome = governed_select_deep_epochs(
        &context("vendor-generic", true),
        &profile,
        &epochs,
        &lf(),
        1_000,
        1_000,
        &DailyLayerUsage::new(),
    );
    assert!(outcome.selected_epochs.is_empty());
    assert_eq!(outcome.skipped_epochs, 2);
    assert_eq!(
        outcome.reason_summary,
        "Denied: host role 'vendor-generic' not authorized for deep-domain excavation"
    );
}

#[test]
fn allowed_role_under_a_safe_profile_is_not_denied_as_a_whole() {
    let profile = turn_profile(4);
    assert!(whole_turn_denial(&context("augmented-citizen", false), &profile, 7).is_none());
}

#[test]
fn whole_turn_denial_for_the_role_counts_every_offered_epoch() {
    let profile = turn_profile(4);
    let denial = whole_turn_denial(&context("sandbox", true), &profile, 7).unwrap();
    assert!(denial.selected_epochs.is_empty());
    assert_eq!(denial.skipped_epochs, 7);
    assert_eq!(
        denial.reason_summary,
        "Denied: host role 'sandbox' not authorized for deep-domain excavation"
    );
    let none_offered = whole_turn_denial(&context("", true), &profile, 0).unwrap();
    assert_eq!(none_offered.skipped_epochs, 0);
    assert_eq!(
        none_offered.reason_summary,
        "Denied: host role '' not authorized for deep-domain excavation"
    );
}

#[test]
fn whole_turn_denial_for_an_unsafe_profile_comes_after_the_role() {
    let mut profile = turn_profile(4);
    profile.eco_nj_daily_budget = 0;
    let allowed = whole_turn_denial(&context("augmented-citizen", true), &profile, 3).unwrap();
    assert!(allowed.selected_epochs.is_empty());
    assert_eq!(allowed.skipped_epochs, 3);
    assert_eq!(allowed.reason_summary, "Denied: rights profile violates deep-domain invariants");
    let denied = whole_turn_denial(&context("pure-machine", true), &profile, 3).unwrap();
    assert_eq!(
        denied.reason_summary,
        "Denied: host role 'pure-machine' not authorized for deep-domain excavation"
    );
}

#[test]
fn role_allowed_by_an_unsafe_profile_is_denied_for_the_profile() {
    let mut profile = turn_profile(4);
    profile.allowed_roles = vec!["augmented-citizen".to_string(), "sandbox".to_string()];
    profile.denied_roles = vec!["vendor-generic".to_string(), "pure-machine".to_string()];
    let epochs = vec![epoch(BiophysicalLayer::B2Structural, 900_000, 10)];
    let outcome = governed_select_deep_epochs(
        &context("sandbox", true),
        &profile,
        &epochs,
        &lf(),
        1_000,
        1_000,
        &DailyLayerUsage::new(),
    );
    assert!(outcome.selected_epochs.is_empty());
    assert_eq!(outcome.skipped_epochs, 1);
    assert_eq!(outcome.reason_summary, "Denied: rights profile violates deep-domain invariants");
}
