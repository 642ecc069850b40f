//! Helpers for one evolution turn: reading the intent out of a chat summary,
//! building a proposal from a fixed template, the eligibility of the turn,
//! its metadata, and the guard on irreversible patterns.

use vstd::prelude::*;
use vstd::string::*;
use crate::neuroautomation_pipeline::{
    BiophysicalConstraints,
    BiophysicalPattern,
    BiophysicalPatternView,
    ChainId,
    ChatContext,
    EvolutionCategory,
    EvolutionProposal,
    Reversibility,
    pattern_views,
};
use crate::text::{contains_text, has_substring, lowercase, lowercase_of};

verus! {

/// What a turn is meant to do.
#[derive(Clone, Copy, Debug, PartialEq, Eq, Structural)]
pub enum EvolutionIntentKind {
    NoIntent,
    MicroEpoch,
    SingleStep,
}

/// The intent read out of a turn.
#[derive(Clone, Debug, PartialEq, Eq)]
pub struct EvolutionIntent {
    pub kind: EvolutionIntentKind,
    /// The domain, such as BRAIN or WAVE, where one was inferred.
    pub domain: Option<String>,
    /// The risk tier chosen by the host, such as "low".
    pub risk_tier: Option<String>,
}

/// An intent with its texts as characters.
pub struct EvolutionIntentView {
    pub kind: EvolutionIntentKind,
    pub domain: Option<Seq<char>>,
    pub risk_tier: Option<Seq<char>>,
}

impl View for EvolutionIntent {
    type V = EvolutionIntentView;

    open spec fn view(&self) -> EvolutionIntentView {
        EvolutionIntentView {
            kind: self.kind,
            domain: match self.domain {
                Some(d) => Some(d@),
                None => None,
            },
            risk_tier: match self.risk_tier {
                Some(r) => Some(r@),
                None => None,
            },
        }
    }
}

/// Whether a lower-case summary speaks of an evolution step.
pub open spec fn names_evolution(lower: Seq<char>) -> bool {
    has_substring(lower, "cybernetical-evolution"@) || has_substring(lower, "evolution-step"@)
}

/// The intent that a lower-case summary expresses: a low-risk micro-epoch in
/// the BRAIN domain where it speaks of an evolution step, none otherwise.
pub open spec fn intent_of_lowercase(lower: Seq<char>) -> EvolutionIntentView {
    if names_evolution(lower) {
        EvolutionIntentView {
            kind: EvolutionIntentKind::MicroEpoch,
            domain: Some("BRAIN"@),
            risk_tier: Some("low"@),
        }
    } else {
        EvolutionIntentView { kind: EvolutionIntentKind::NoIntent, domain: None, risk_tier: None }
    }
}

/// Reads the intent out of a summary that is already in lower case.
pub fn intent_from_lowercase(lower: &str) -> (intent: EvolutionIntent)
    ensures
        intent@ == intent_of_lowercase(lower@),
{
    if contains_text(lower, "cybernetical-evolution") || contains_text(lower, "evolution-step") {
        EvolutionIntent {
            kind: EvolutionIntentKind::MicroEpoch,
            domain: Some(String::from_str("BRAIN")),
            risk_tier: Some(String::from_str("low")),
        }
    } else {
        EvolutionIntent { kind: EvolutionIntentKind::NoIntent, domain: None, risk_tier: None }
    }
}

/// Reads the intent out of a chat summary, whatever its case.
pub fn detect_evolution_intent(summary: &str) -> (intent: EvolutionIntent)
    ensures
        intent@ == intent_of_lowercase(lowercase_of(summary@)),
{
    let lower = lowercase(summary);
    intent_from_lowercase(lower.as_str())
}

/// The fixed templates from which proposals are built.
#[derive(Clone, Copy, Debug, PartialEq, Eq, Structural)]
pub enum EvolutionTemplateId {
    MicroEpochVisualFocusV1,
    MicroEpochHapticGuidanceLeftRightV1,
}

/// A request to build a proposal from a template.
#[derive(Clone, Debug, PartialEq, Eq)]
pub struct EvolutionTemplateRequest {
    pub template: EvolutionTemplateId,
    pub chat: ChatContext,
}

impl EvolutionTemplateId {
    /// The identifier of the proposal built from this template.
    pub open spec fn proposal_id(self) -> Seq<char> {
        match self {
            EvolutionTemplateId::MicroEpochVisualFocusV1 => "proposal-microepoch-visual-focus-v1"@,
            EvolutionTemplateId::MicroEpochHapticGuidanceLeftRightV1 => {
                "proposal-microepoch-haptic-guidance-lr-v1"@
            },
        }
    }

    /// The category of the proposal built from this template.
    pub open spec fn category(self) -> EvolutionCategory {
        match self {
            EvolutionTemplateId::MicroEpochVisualFocusV1 => EvolutionCategory::SensoryAugmentation,
            EvolutionTemplateId::MicroEpochHapticGuidanceLeftRightV1 => {
                EvolutionCategory::CognitiveScaffolding
            },
        }
    }

    /// The patterns of this template: one on the visual cortex at a quarter of
    /// the scale for 45 s, or one on each arm at a fifth for 30 s. All can be
    /// undone.
    pub open spec fn patterns(self) -> Seq<BiophysicalPatternView> {
        match self {
            EvolutionTemplateId::MicroEpochVisualFocusV1 => seq![
                BiophysicalPatternView {
                    target: "cortex.visual.v1"@,
                    intensity: 250_000,
                    duration_secs: 45,
                    reversibility: Reversibility::FullyReversible,
                },
            ],
            EvolutionTemplateId::MicroEpochHapticGuidanceLeftRightV1 => seq![
                BiophysicalPatternView {
                    target: "peripheral.haptics.leftarm"@,
                    intensity: 200_000,
                    duration_secs: 30,
                    reversibility: Reversibility::FullyReversible,
                },
                BiophysicalPatternView {
                    target: "peripheral.haptics.rightarm"@,
                    intensity: 200_000,
                    duration_secs: 30,
                    reversibility: Reversibility::FullyReversible,
                },
            ],
        }
    }

    /// Where the justification of this template's pattern is found.
    pub open spec fn justification(self) -> Seq<char> {
        match self {
            EvolutionTemplateId::MicroEpochVisualFocusV1 => {
                "neuro://pattern/PAT.VisualEdgeEnhanceKernelV1"@
            },
            EvolutionTemplateId::MicroEpochHapticGuidanceLeftRightV1 => {
                "neuro://pattern/PAT.HapticGuidancePulsePairV1"@
            },
        }
    }
}

fn reversible_pattern(target: &str, intensity: u32, duration_secs: u64) -> (pattern:
    BiophysicalPattern)
    ensures
        pattern@ == (BiophysicalPatternView {
            target: target@,
            intensity,
            duration_secs,
            reversibility: Reversibility::FullyReversible,
        }),
{
    BiophysicalPattern {
        target: String::from_str(target),
        intensity,
        duration_secs,
        reversibility: Reversibility::FullyReversible,
    }
}

/// Builds the proposal of a template for the chat of the request. The
/// proposal carries no irreversible token.
pub fn compile_template_to_proposal(req: EvolutionTemplateRequest) -> (proposal: EvolutionProposal)
    ensures
        proposal.id.0@ == req.template.proposal_id(),
        proposal.chat == req.chat,
        proposal.category == req.template.category(),
        pattern_views(proposal.patterns@) == req.template.patterns(),
        proposal.justificationuri matches Some(uri) && uri@ == req.template.justification(),
        proposal.irreversibletoken is None,
{
    match req.template {
        EvolutionTemplateId::MicroEpochVisualFocusV1 => {
            let mut patterns: Vec<BiophysicalPattern> = Vec::new();
            patterns.push(reversible_pattern("cortex.visual.v1", 250_000, 45));
            assert(pattern_views(patterns@) =~= req.template.patterns());
            EvolutionProposal {
                id: ChainId::new("proposal-microepoch-visual-focus-v1"),
                chat: req.chat,
                category: EvolutionCategory::SensoryAugmentation,
                patterns,
                justificationuri: Some(
                    String::from_str("neuro://pattern/PAT.VisualEdgeEnhanceKernelV1"),
                ),
                irreversibletoken: None,
            }
        },
        EvolutionTemplateId::MicroEpochHapticGuidanceLeftRightV1 => {
            let mut patterns: Vec<BiophysicalPattern> = Vec::new();
            patterns.push(reversible_pattern("peripheral.haptics.leftarm", 200_000, 30));
            patterns.push(reversible_pattern("peripheral.haptics.rightarm", 200_000, 30));
            assert(pattern_views(patterns@) =~= req.template.patterns());
            EvolutionProposal {
                id: ChainId::new("proposal-microepoch-haptic-guidance-lr-v1"),
                chat: req.chat,
                category: EvolutionCategory::CognitiveScaffolding,
                patterns,
                justificationuri: Some(
                    String::from_str("neuro://pattern/PAT.HapticGuidancePulsePairV1"),
                ),
                irreversibletoken: None,
            }
        },
    }
}

/// Whether a turn may take an evolution step or is only logged.
#[derive(Clone, Debug, PartialEq, Eq)]
pub enum TurnEligibility {
    Eligible,
    /// The turn is logged and nothing more; the text says why.
    LogOnly(String),
}

/// The eligibility of a turn, given whether the chain's interval budget and
/// spacing allow the validator another evolution step now.
pub fn check_turn_eligibility(can_take_evolution_step: bool) -> (eligibility: TurnEligibility)
    ensures
        can_take_evolution_step ==> eligibility == TurnEligibility::Eligible,
        !can_take_evolution_step ==> (eligibility matches TurnEligibility::LogOnly(reason)
            && reason@ == "evolution-interval budget or spacing exhausted for today"@),
{
    if !can_take_evolution_step {
        return TurnEligibility::LogOnly(
            String::from_str("evolution-interval budget or spacing exhausted for today"),
        );
    }
    TurnEligibility::Eligible
}

/// Metadata that tags a turn with its learning epoch.
#[derive(Clone, Debug, PartialEq, Eq)]
pub struct TurnSmartMeta {
    pub learning_epoch: u64,
    pub qpudatashard_id: String,
    pub entropy_seed_hex: String,
}

impl TurnSmartMeta {
    /// The metadata of an epoch on a shard, with the standard seed.
    pub fn default_for_epoch(epoch: u64, shard: &str) -> (meta: TurnSmartMeta)
        ensures
            meta.learning_epoch == epoch,
            meta.qpudatashard_id@ == shard@,
            meta.entropy_seed_hex@ == "0xEVO-TURN-SEED-0001"@,
    {
        TurnSmartMeta {
            learning_epoch: epoch,
            qpudatashard_id: String::from_str(shard),
            entropy_seed_hex: String::from_str("0xEVO-TURN-SEED-0001"),
        }
    }
}

/// Whether one of the patterns cannot be undone.
pub open spec fn has_irreversible_pattern(patterns: Seq<BiophysicalPattern>) -> bool {
    exists|i: int|
        0 <= i < patterns.len() && (#[trigger] patterns[i]).reversibility
            == Reversibility::Irreversible
}

/// Whether the proposal satisfies the guard on irreversible steps: where the
/// host asks for confirmation and a pattern cannot be undone, the proposal
/// must carry the irreversible token.
pub fn require_irreversible_token_if_needed(
    constraints: &BiophysicalConstraints,
    proposal: &EvolutionProposal,
) -> (satisfied: bool)
    ensures
        satisfied == (constraints.requireirreversibleconfirmation && has_irreversible_pattern(
            proposal.patterns@,
        ) ==> proposal.irreversibletoken is Some),
{
    if !constraints.requireirreversibleconfirmation {
        return true;
    }
    let mut needs_token = false;
    let mut i: usize = 0;
    while i < proposal.patterns.len()
        invariant_except_break
            !needs_token,
            forall|j: int|
                0 <= j < i ==> (#[trigger] proposal.patterns@[j]).reversibility
                    != Reversibility::Irreversible,
        invariant
            i <= proposal.patterns.len(),
        ensures
            needs_token == has_irreversible_pattern(proposal.patterns@),
        decreases proposal.patterns.len() - i,
    {
        if proposal.patterns[i].reversibility == Reversibility::Irreversible {
            needs_token = true;
            assert(proposal.patterns@[i as int].reversibility == Reversibility::Irreversible);
            break ;
        }
        i += 1;
    }
    if !needs_token {
        return true;
    }
    proposal.irreversibletoken.is_some()
}

} // verus!
