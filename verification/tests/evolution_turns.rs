use biophysical_governance::evolution_turns::{
    check_turn_eligibility, compile_template_to_proposal, detect_evolution_intent,
    intent_from_lowercase, require_irreversible_token_if_needed, EvolutionIntent,
    EvolutionIntentKind, EvolutionTemplateId, EvolutionTemplateRequest, TurnEligibility,
    TurnSmartMeta,
};
use biophysical_governance::neuroautomation_pipeline::{
    BiophysicalConstraints, BiophysicalPattern, ChainId, ChatContext, EvolutionCategory,
    EvolutionProposal, Reversibility,
};

fn chat() -> ChatContext {
    ChatContext { chat_id: "chat-7".to_string(), summary: "focus practice".to_string() }
}

fn micro_epoch() -> EvolutionIntent {
    EvolutionIntent {
        kind: EvolutionIntentKind::MicroEpoch,
        domain: Some("BRAIN".to_string()),
        risk_tier: Some("low".to_string()),
    }
}

fn no_intent() -> EvolutionIntent {
    EvolutionIntent { kind: EvolutionIntentKind::NoIntent, domain: None, risk_tier: None }
}

fn pattern(reversibility: Reversibility) -> BiophysicalPattern {
    BiophysicalPattern {
        target: "cortex.visual.v1".to_string(),
        intensity: 100_000,
        duration_secs: 5,
        reversibility,
    }
}

fn proposal(patterns: Vec<BiophysicalPattern>, token: Option<&str>) -> EvolutionProposal {
    EvolutionProposal {
        id: ChainId::new("proposal-1"),
        chat: chat(),
        category: EvolutionCategory::SensoryAugmentation,
        patterns,
        justificationuri: None,
        irreversibletoken: token.map(|t| t.to_string()),
    }
}

#[test]
fn summary_that_names_an_evolution_step_is_a_micro_epoch() {
    assert_eq!(detect_evolution_intent("please run an evolution-step now"), micro_epoch());
    assert_eq!(detect_evolution_intent("cybernetical-evolution"), micro_epoch());
}

#[test]
fn summary_is_read_without_regard_to_case() {
    assert_eq!(detect_evolution_intent("Next: Cybernetical-Evolution, phase 2"), micro_epoch());
    assert_eq!(detect_evolution_intent("EVOLUTION-STEP"), micro_epoch());
}

#[test]
fn other_summaries_carry_no_intent() {
    assert_eq!(detect_evolution_intent(""), no_intent());
    assert_eq!(detect_evolution_intent("evolution step"), no_intent());
    assert_eq!(detect_evolution_intent("cybernetical evolution-ste"), no_intent());
}

#[test]
fn lower_case_summary_is_read_as_it_stands() {
    assert_eq!(intent_from_lowercase("an evolution-step"), micro_epoch());
    assert_eq!(intent_from_lowercase("xcybernetical-evolutionx"), micro_epoch());
    assert_eq!(intent_from_lowercase("an EVOLUTION-STEP"), no_intent());
    assert_eq!(intent_from_lowercase("evolution-ste"), no_intent());
}

#[test]
fn visual_focus_template() {
    let built = compile_template_to_proposal(EvolutionTemplateRequest {
        template: EvolutionTemplateId::MicroEpochVisualFocusV1,
        chat: chat(),
    });
    assert_eq!(
        built,
        EvolutionProposal {
            id: ChainId::new("proposal-microepoch-visual-focus-v1"),
            chat: chat(),
            category: EvolutionCategory::SensoryAugmentation,
            patterns: vec![BiophysicalPattern {
                target: "cortex.visual.v1".to_string(),
                intensity: 250_000,
                duration_secs: 45,
                reversibility: Reversibility::FullyReversible,
            }],
            justificationuri: Some("neuro://pattern/PAT.VisualEdgeEnhanceKernelV1".to_string()),
            irreversibletoken: None,
        }
    );
}

#[test]
fn haptic_guidance_template() {
    let built = compile_template_to_proposal(EvolutionTemplateRequest {
        template: EvolutionTemplateId::MicroEpochHapticGuidanceLeftRightV1,
        chat: chat(),
    });
    assert_eq!(
        built,
        EvolutionProposal {
            id: ChainId::new("proposal-microepoch-haptic-guidance-lr-v1"),
            chat: chat(),
            category: EvolutionCategory::CognitiveScaffolding,
            patterns: vec![
                BiophysicalPattern {
                    target: "peripheral.haptics.leftarm".to_string(),
                    intensity: 200_000,
                    duration_secs: 30,
                    reversibility: Reversibility::FullyReversible,
                },
                BiophysicalPattern {
                    target: "peripheral.haptics.rightarm".to_string(),
                    intensity: 200_000,
                    duration_secs: 30,
                    reversibility: Reversibility::FullyReversible,
                },
            ],
            justificationuri: Some("neuro://pattern/PAT.HapticGuidancePulsePairV1".to_string()),
            irreversibletoken: None,
        }
    );
}

#[test]
fn template_proposals_pass_the_irreversible_guard() {
    let built = compile_template_to_proposal(EvolutionTemplateRequest {
        template: EvolutionTemplateId::MicroEpochHapticGuidanceLeftRightV1,
        chat: chat(),
    });
    let strict = BiophysicalConstraints { requireirreversibleconfirmation: true };
    assert!(require_irreversible_token_if_needed(&strict, &built));
}

#[test]
fn turn_is_eligible_or_logged_only() {
    assert_eq!(check_turn_eligibility(true), TurnEligibility::Eligible);
    assert_eq!(
        check_turn_eligibility(false),
        TurnEligibility::LogOnly(
            "evolution-interval budget or spacing exhausted for today".to_string()
        )
    );
}

#[test]
fn metadata_for_an_epoch() {
    let meta = TurnSmartMeta::default_for_epoch(42, "shard-9");
    assert_eq!(
        meta,
        TurnSmartMeta {
            learning_epoch: 42,
            qpudatashard_id: "shard-9".to_string(),
            entropy_seed_hex: "0xEVO-TURN-SEED-0001".to_string(),
        }
    );
    assert_eq!(TurnSmartMeta::default_for_epoch(u64::MAX, "").learning_epoch, u64::MAX);
}

#[test]
fn guard_is_satisfied_where_no_confirmation_is_asked() {
    let lax = BiophysicalConstraints { requireirreversibleconfirmation: false };
    let p = proposal(vec![pattern(Reversibility::Irreversible)], None);
    assert!(require_irreversible_token_if_needed(&lax, &p));
}

#[test]
fn guard_is_satisfied_where_every_pattern_can_be_undone() {
    let strict = BiophysicalConstraints { requireirreversibleconfirmation: true };
    let p = proposal(
        vec![pattern(Reversibility::FullyReversible), pattern(Reversibility::FullyReversible)],
        None,
    );
    assert!(require_irreversible_token_if_needed(&strict, &p));
    assert!(require_irreversible_token_if_needed(&strict, &proposal(Vec::new(), None)));
}

#[test]
fn guard_asks_for_the_token_where_a_pattern_cannot_be_undone() {
    let strict = BiophysicalConstraints { requireirreversibleconfirmation: true };
    let patterns =
        vec![pattern(Reversibility::FullyReversible), pattern(Reversibility::Irreversible)];
    assert!(!require_irreversible_token_if_needed(&strict, &proposal(patterns.clone(), None)));
    assert!(require_irreversible_token_if_needed(&strict, &proposal(patterns, Some("consent-1"))));
    let first = vec![pattern(Reversibility::Irreversible), pattern(Reversibility::FullyReversible)];
    assert!(!require_irreversible_token_if_needed(&strict, &proposal(first, None)));
}
