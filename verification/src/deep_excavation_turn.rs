//! Selection of the epochs that one turn may excavate.
//!
//! A turn is denied as a whole when the caller's role is not allowed, and,
//! for an allowed role, when the profile is not safe. It is decided in that
//! order, before any epoch is looked at, and the summary names the reason
//! that was found first. Otherwise the offered epochs are considered once, in
//! priority order, and each is admitted or skipped by the capability gate
//! against the daily usage as it stands at that moment: an admitted epoch
//! counts against its layer for the epochs that follow. Nothing is revisited.
//! The caller's usage is not changed.

use vstd::prelude::*;
use vstd::string::*;
use crate::deep_domain_rights::{
    BiophysicalLayer,
    DeepDomainRightsProfile,
    DeepDomainRightsProfileView,
    LifeforceSnapshot,
    tag_view,
};
use crate::epoch_scoring::{
    DeepRoutingDecision,
    LifeforceState,
    ScoredEpoch,
    is_priority_order,
    priority_order,
    spec_priority_order,
};
use crate::text::{contains_name, decimal_digits, decimal_text};

verus! {

/// How many epochs of each layer have been excavated today.
#[derive(Clone, Copy, Debug, PartialEq, Eq, Structural)]
pub struct DailyLayerUsage {
    pub b1_surface: u32,
    pub b2_structural: u32,
    pub b3_deep: u32,
    pub b4_rare: u32,
    pub excluded: u32,
}

impl DailyLayerUsage {
    /// The count of a layer.
    pub open spec fn spec_get(self, layer: BiophysicalLayer) -> u32 {
        match layer {
            BiophysicalLayer::B1Surface => self.b1_surface,
            BiophysicalLayer::B2Structural => self.b2_structural,
            BiophysicalLayer::B3Deep => self.b3_deep,
            BiophysicalLayer::B4Rare => self.b4_rare,
            BiophysicalLayer::Excluded => self.excluded,
        }
    }

    /// The usage with the count of `layer` set to `used`.
    pub open spec fn spec_with(self, layer: BiophysicalLayer, used: u32) -> DailyLayerUsage {
        match layer {
            BiophysicalLayer::B1Surface => DailyLayerUsage { b1_surface: used, ..self },
            BiophysicalLayer::B2Structural => DailyLayerUsage { b2_structural: used, ..self },
            BiophysicalLayer::B3Deep => DailyLayerUsage { b3_deep: used, ..self },
            BiophysicalLayer::B4Rare => DailyLayerUsage { b4_rare: used, ..self },
            BiophysicalLayer::Excluded => DailyLayerUsage { excluded: used, ..self },
        }
    }

    /// The usage after one more epoch of `layer`; a full counter stays full.
    pub open spec fn spec_record(self, layer: BiophysicalLayer) -> DailyLayerUsage {
        let used = self.spec_get(layer);
        if used < u32::MAX {
            self.spec_with(layer, (used + 1) as u32)
        } else {
            self
        }
    }

    /// No epoch of any layer.
    pub fn new() -> (usage: DailyLayerUsage)
        ensures
            forall|layer: BiophysicalLayer| usage.spec_get(layer) == 0,
    {
        DailyLayerUsage { b1_surface: 0, b2_structural: 0, b3_deep: 0, b4_rare: 0, excluded: 0 }
    }

    /// The count of a layer.
    pub fn get(&self, layer: BiophysicalLayer) -> (used: u32)
        ensures
            used == self.spec_get(layer),
    {
        match layer {
            BiophysicalLayer::B1Surface => self.b1_surface,
            BiophysicalLayer::B2Structural => self.b2_structural,
            BiophysicalLayer::B3Deep => self.b3_deep,
            BiophysicalLayer::B4Rare => self.b4_rare,
            BiophysicalLayer::Excluded => self.excluded,
        }
    }

    /// Sets the count of a layer.
    pub fn set(&mut self, layer: BiophysicalLayer, used: u32)
        ensures
            *final(self) == old(self).spec_with(layer, used),
    {
        match layer {
            BiophysicalLayer::B1Surface => self.b1_surface = used,
            BiophysicalLayer::B2Structural => self.b2_structural = used,
            BiophysicalLayer::B3Deep => self.b3_deep = used,
            BiophysicalLayer::B4Rare => self.b4_rare = used,
            BiophysicalLayer::Excluded => self.excluded = used,
        }
    }

    /// Counts one more epoch of `layer`; a full counter stays full.
    pub fn record(&mut self, layer: BiophysicalLayer)
        ensures
            *final(self) == old(self).spec_record(layer),
    {
        let used = self.get(layer);
        if used < u32::MAX {
            self.set(layer, used + 1);
        }
    }
}

/// Who asks for the turn, and with what.
#[derive(Clone, Debug)]
pub struct EvolutionTurnContext {
    pub query_id: String,
    pub intent_kind: String,
    pub intent_tag: Option<String>,
    pub host_role: String,
    pub irreversible_token_present: bool,
}

/// A turn context with its texts as characters.
pub struct EvolutionTurnContextView {
    pub query_id: Seq<char>,
    pub intent_kind: Seq<char>,
    pub intent_tag: Option<Seq<char>>,
    pub host_role: Seq<char>,
    pub irreversible_token_present: bool,
}

impl View for EvolutionTurnContext {
    type V = EvolutionTurnContextView;

    open spec fn view(&self) -> EvolutionTurnContextView {
        EvolutionTurnContextView {
            query_id: self.query_id@,
            intent_kind: self.intent_kind@,
            intent_tag: match self.intent_tag {
                Some(tag) => Some(tag@),
                None => None,
            },
            host_role: self.host_role@,
            irreversible_token_present: self.irreversible_token_present,
        }
    }
}

/// What a turn may excavate.
#[derive(Clone, Debug)]
pub struct GovernedExcavationOutcome {
    /// The admitted epochs in the order of their admission, each with its
    /// index among the offered epochs.
    pub selected_epochs: Vec<(usize, DeepRoutingDecision)>,
    pub skipped_epochs: usize,
    pub reason_summary: String,
}

/// An outcome with its summary as characters.
pub struct GovernedExcavationOutcomeView {
    pub selected_epochs: Seq<(usize, DeepRoutingDecision)>,
    pub skipped_epochs: nat,
    pub reason_summary: Seq<char>,
}

impl View for GovernedExcavationOutcome {
    type V = GovernedExcavationOutcomeView;

    open spec fn view(&self) -> GovernedExcavationOutcomeView {
        GovernedExcavationOutcomeView {
            selected_epochs: self.selected_epochs@,
            skipped_epochs: self.skipped_epochs as nat,
            reason_summary: self.reason_summary@,
        }
    }
}

/// The summary of a turn of an allowed role that is denied because the
/// profile is not safe.
pub open spec fn unsafe_profile_summary() -> Seq<char> {
    "Denied: rights profile violates deep-domain invariants"@
}

/// The summary of a turn that is denied for the caller's role.
pub open spec fn role_denial_summary(role: Seq<char>) -> Seq<char> {
    "Denied: host role '"@ + role + "' not authorized for deep-domain excavation"@
}

/// The summary of a turn that was walked: the two counts and no more.
pub open spec fn selection_summary(selected: nat, skipped: nat) -> Seq<char> {
    if selected == 0 {
        "No epochs selected for deep excavation; "@ + decimal_digits(skipped)
            + " were skipped by rights/lifeforce/eco gates"@
    } else {
        "Selected "@ + decimal_digits(selected) + " epochs for governed deep excavation; "@
            + decimal_digits(skipped) + " skipped"@
    }
}

/// The outcome of a turn that selects nothing: all `offered` epochs count as
/// skipped.
pub open spec fn denied_outcome(offered: nat, reason_summary: Seq<char>)
    -> GovernedExcavationOutcomeView {
    GovernedExcavationOutcomeView {
        selected_epochs: Seq::empty(),
        skipped_epochs: offered,
        reason_summary,
    }
}

/// The denial of a whole turn, if it is denied. The caller's role is tested
/// first: a role that is not allowed is told so, whatever the profile. A turn
/// of an allowed role is denied where the profile is not safe. No epoch is
/// looked at; only their number counts.
pub open spec fn spec_whole_turn_denial(
    context: EvolutionTurnContextView,
    rights: DeepDomainRightsProfileView,
    offered: nat,
) -> Option<GovernedExcavationOutcomeView> {
    if !rights.role_allowed(context.host_role) {
        Some(denied_outcome(offered, role_denial_summary(context.host_role)))
    } else if !rights.rights_safe() {
        Some(denied_outcome(offered, unsafe_profile_summary()))
    } else {
        None
    }
}

/// Where a walk stands: what it has admitted, how many it has skipped, and the
/// usage that the next epoch is held against.
pub struct WalkState {
    pub selected: Seq<(usize, DeepRoutingDecision)>,
    pub skipped: nat,
    pub usage: DailyLayerUsage,
}

/// Everything that one turn is decided on.
pub struct ExcavationTurn {
    pub context: EvolutionTurnContextView,
    pub rights: DeepDomainRightsProfileView,
    pub epochs: Seq<ScoredEpoch>,
    pub lf: LifeforceSnapshot,
    pub brain_tokens_available: u64,
    pub draculawave_available: u64,
    pub daily_layer_usage: DailyLayerUsage,
}

impl ExcavationTurn {
    /// Whether an epoch is admitted against the usage `usage`: it is eligible
    /// and the capability gate allows it, with the count of its layer in
    /// `usage` and the token flag and intent tag of the turn.
    pub open spec fn admits(self, usage: DailyLayerUsage, epoch: ScoredEpoch) -> bool {
        &&& epoch.decision.eligible_for_excavation
        &&& self.rights.can_excavate_epoch(
            epoch.decision.layer,
            self.lf,
            epoch.ecoenergynj,
            self.brain_tokens_available,
            self.draculawave_available,
            usage.spec_get(epoch.decision.layer),
            self.context.irreversible_token_present,
            self.context.intent_tag,
        )
    }

    /// The walk after the first `k` entries of `order`.
    pub open spec fn walk(self, order: Seq<usize>, k: nat) -> WalkState
        decreases k,
    {
        if k == 0 {
            WalkState { selected: Seq::empty(), skipped: 0, usage: self.daily_layer_usage }
        } else {
            let before = self.walk(order, (k - 1) as nat);
            let index = order[k - 1];
            let epoch = self.epochs[index as int];
            if self.admits(before.usage, epoch) {
                WalkState {
                    selected: before.selected.push((index, epoch.decision)),
                    skipped: before.skipped,
                    usage: before.usage.spec_record(epoch.decision.layer),
                }
            } else {
                WalkState { skipped: before.skipped + 1, ..before }
            }
        }
    }

    /// The walk over all epochs in priority order.
    pub open spec fn full_walk(self) -> WalkState {
        self.walk(spec_priority_order(self.epochs), self.epochs.len())
    }

    /// Whether the turn is walked at all: the profile is safe and the
    /// caller's role is allowed.
    pub open spec fn admitted(self) -> bool {
        self.rights.rights_safe() && self.rights.role_allowed(self.context.host_role)
    }

    /// The outcome of the turn: the denial where the turn is denied as a
    /// whole, else what the walk selected and skipped.
    pub open spec fn outcome(self) -> GovernedExcavationOutcomeView {
        match spec_whole_turn_denial(self.context, self.rights, self.epochs.len()) {
            Some(denial) => denial,
            None => {
                let end = self.full_walk();
                GovernedExcavationOutcomeView {
                    selected_epochs: end.selected,
                    skipped_epochs: end.skipped,
                    reason_summary: selection_summary(end.selected.len(), end.skipped),
                }
            },
        }
    }
}

/// The turn that the arguments of `governed_select_deep_epochs` describe.
pub open spec fn turn_of(
    turn_ctx: &EvolutionTurnContext,
    rights: &DeepDomainRightsProfile,
    epochs: &[ScoredEpoch],
    lf: &LifeforceSnapshot,
    brain_tokens_available: u64,
    draculawave_available: u64,
    daily_layer_usage: &DailyLayerUsage,
) -> ExcavationTurn {
    ExcavationTurn {
        context: turn_ctx@,
        rights: rights@,
        epochs: epochs@,
        lf: *lf,
        brain_tokens_available,
        draculawave_available,
        daily_layer_usage: *daily_layer_usage,
    }
}

/// The lifeforce reading in the form that the rights checks take.
pub fn lifeforce_to_snapshot(lf: &LifeforceState) -> (snapshot: LifeforceSnapshot)
    ensures
        snapshot.scalar01 == lf.lifeforcescalar01,
        snapshot.band == lf.band,
{
    LifeforceSnapshot { scalar01: lf.lifeforcescalar01, band: lf.band }
}

fn denied_turn(offered: usize, reason_summary: String) -> (outcome: GovernedExcavationOutcome)
    ensures
        outcome@ == denied_outcome(offered as nat, reason_summary@),
{
    GovernedExcavationOutcome {
        selected_epochs: Vec::new(),
        skipped_epochs: offered,
        reason_summary,
    }
}

/// Decides whether a turn is denied as a whole, from the caller, the profile
/// and the number of epochs on offer alone, so that a denied turn costs no
/// scoring. The role is tested first and the profile is checked only for an
/// allowed role. `None` means that the turn goes on to the walk.
pub fn whole_turn_denial(
    turn_ctx: &EvolutionTurnContext,
    rights: &DeepDomainRightsProfile,
    offered_epochs: usize,
) -> (denial: Option<GovernedExcavationOutcome>)
    ensures
        match denial {
            Some(outcome) => spec_whole_turn_denial(turn_ctx@, rights@, offered_epochs as nat)
                == Some(outcome@),
            None => spec_whole_turn_denial(turn_ctx@, rights@, offered_epochs as nat) is None,
        },
        denial is None <==> rights@.role_allowed(turn_ctx.host_role@) && rights@.rights_safe(),
{
    if !contains_name(&rights.allowed_roles, turn_ctx.host_role.as_str()) {
        let mut reason = String::from_str("Denied: host role '");
        reason.append(turn_ctx.host_role.as_str());
        reason.append("' not authorized for deep-domain excavation");
        return Some(denied_turn(offered_epochs, reason));
    }
    if !rights.verify_rights_safe().is_safe() {
        return Some(
            denied_turn(
                offered_epochs,
                String::from_str("Denied: rights profile violates deep-domain invariants"),
            ),
        );
    }
    None
}

fn summarize(selected: usize, skipped: usize) -> (summary: String)
    ensures
        summary@ == selection_summary(selected as nat, skipped as nat),
{
    if selected == 0 {
        let mut summary = String::from_str("No epochs selected for deep excavation; ");
        summary.append(decimal_text(skipped).as_str());
        summary.append(" were skipped by rights/lifeforce/eco gates");
        summary
    } else {
        let mut summary = String::from_str("Selected ");
        summary.append(decimal_text(selected).as_str());
        summary.append(" epochs for governed deep excavation; ");
        summary.append(decimal_text(skipped).as_str());
        summary.append(" skipped");
        summary
    }
}

/// Chooses the epochs that may be excavated in this turn.
///
/// With a caller whose role is not allowed, or a profile that is not safe,
/// nothing is selected, every epoch counts as skipped, and the summary says
/// which of the two it was, the role first. Otherwise the
/// epochs are considered in priority order and each is admitted exactly when
/// it is eligible and the capability gate allows it against the usage so far,
/// which starts at `daily_layer_usage` and grows with every admission.
pub fn governed_select_deep_epochs(
    turn_ctx: &EvolutionTurnContext,
    rights: &DeepDomainRightsProfile,
    epochs: &[ScoredEpoch],
    lf: &LifeforceSnapshot,
    brain_tokens_available: u64,
    draculawave_available: u64,
    daily_layer_usage: &DailyLayerUsage,
) -> (outcome: GovernedExcavationOutcome)
    ensures
        outcome@ == turn_of(
            turn_ctx,
            rights,
            epochs,
            lf,
            brain_tokens_available,
            draculawave_available,
            daily_layer_usage,
        ).outcome(),
        outcome.selected_epochs@.len() + outcome.skipped_epochs == epochs@.len(),
        !rights@.rights_safe() || !rights@.role_allowed(turn_ctx.host_role@) ==> {
            &&& outcome.selected_epochs@.len() == 0
            &&& outcome.skipped_epochs == epochs@.len()
        },
        !rights@.role_allowed(turn_ctx.host_role@) ==> outcome.reason_summary@
            == role_denial_summary(turn_ctx.host_role@),
{
    let ghost turn = turn_of(
        turn_ctx,
        rights,
        epochs,
        lf,
        brain_tokens_available,
        draculawave_available,
        daily_layer_usage,
    );
    match whole_turn_denial(turn_ctx, rights, epochs.len()) {
        Some(denial) => {
            return denial;
        },
        None => {},
    }
    let intent_tag: Option<&str> = match &turn_ctx.intent_tag {
        Some(tag) => Some(tag.as_str()),
        None => None,
    };
    let order = priority_order(epochs);
    let mut selected: Vec<(usize, DeepRoutingDecision)> = Vec::new();
    let mut skipped: usize = 0;
    let mut local_usage = *daily_layer_usage;
    let mut k: usize = 0;
    while k < order.len()
        invariant
            k <= order.len(),
            order@ == spec_priority_order(epochs@),
            is_priority_order(epochs@, epochs@.len(), order@),
            turn == turn_of(
                turn_ctx,
                rights,
                epochs,
                lf,
                brain_tokens_available,
                draculawave_available,
                daily_layer_usage,
            ),
            tag_view(intent_tag) == turn.context.intent_tag,
            selected@.len() + skipped == k,
            turn.walk(order@, k as nat) == (WalkState {
                selected: selected@,
                skipped: skipped as nat,
                usage: local_usage,
            }),
        decreases order.len() - k,
    {
        let index = order[k];
        let epoch = epochs[index];
        let layer = epoch.decision.layer;
        let allowed = epoch.decision.eligible_for_excavation && layer.excavatable()
            && rights.can_excavate_epoch(
            layer,
            lf,
            epoch.ecoenergynj,
            brain_tokens_available,
            draculawave_available,
            local_usage.get(layer),
            turn_ctx.irreversible_token_present,
            intent_tag,
        );
        if allowed {
            local_usage.record(layer);
            selected.push((index, epoch.decision));
        } else {
            skipped += 1;
        }
        k += 1;
    }
    let reason_summary = summarize(selected.len(), skipped);
    GovernedExcavationOutcome { selected_epochs: selected, skipped_epochs: skipped, reason_summary }
}

} // verus!
