//! Evolution proposals and the biophysical patterns that they carry.
//!
//! Intensities are held in millionths of the full scale, durations in whole
//! seconds.

use vstd::prelude::*;
use vstd::string::*;

verus! {

/// Identifier of an item on the chain.
#[derive(Clone, Debug, PartialEq, Eq, Hash)]
pub struct ChainId(pub String);

impl ChainId {
    /// The identifier with the given text.
    pub fn new(id: &str) -> (chain_id: ChainId)
        ensures
            chain_id.0@ == id@,
    {
        ChainId(String::from_str(id))
    }
}

/// The conversation that a proposal arose from.
#[derive(Clone, Debug, PartialEq, Eq)]
pub struct ChatContext {
    pub chat_id: String,
    pub summary: String,
}

/// Whether the effect of a pattern can be undone.
#[derive(Clone, Copy, Debug, PartialEq, Eq, Hash, Structural)]
pub enum Reversibility {
    FullyReversible,
    Irreversible,
}

/// What kind of change a proposal aims at.
#[derive(Clone, Copy, Debug, PartialEq, Eq, Hash, Structural)]
pub enum EvolutionCategory {
    SensoryAugmentation,
    CognitiveScaffolding,
}

/// One stimulation pattern.
#[derive(Clone, Debug, PartialEq, Eq)]
pub struct BiophysicalPattern {
    pub target: String,
    /// Intensity in millionths of the full scale.
    pub intensity: u32,
    pub duration_secs: u64,
    pub reversibility: Reversibility,
}

/// A pattern with its target as characters.
pub struct BiophysicalPatternView {
    pub target: Seq<char>,
    pub intensity: u32,
    pub duration_secs: u64,
    pub reversibility: Reversibility,
}

impl View for BiophysicalPattern {
    type V = BiophysicalPatternView;

    open spec fn view(&self) -> BiophysicalPatternView {
        BiophysicalPatternView {
            target: self.target@,
            intensity: self.intensity,
            duration_secs: self.duration_secs,
            reversibility: self.reversibility,
        }
    }
}

/// The views of a list of patterns.
pub open spec fn pattern_views(patterns: Seq<BiophysicalPattern>) -> Seq<BiophysicalPatternView> {
    patterns.map_values(|p: BiophysicalPattern| p@)
}

/// A proposed evolution step.
#[derive(Clone, Debug, PartialEq, Eq)]
pub struct EvolutionProposal {
    pub id: ChainId,
    pub chat: ChatContext,
    pub category: EvolutionCategory,
    pub patterns: Vec<BiophysicalPattern>,
    pub justificationuri: Option<String>,
    /// Proof of the host's consent to an irreversible step, where given.
    pub irreversibletoken: Option<String>,
}

/// Limits that the host has set for a turn.
#[derive(Clone, Copy, Debug, PartialEq, Eq, Structural)]
pub struct BiophysicalConstraints {
    pub requireirreversibleconfirmation: bool,
}

} // verus!
