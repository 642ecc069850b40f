//! Deep-domain rights: the layered policy of a host, the check that a profile
//! is internally consistent, and the decision on one epoch.
//!
//! Quantities are unsigned fixed-point integers. A scalar in `[0, 1]` is held
//! in millionths (`0 ..= 1_000_000`), energy in nanojoules, token amounts in
//! thousandths of a token. All comparisons are exact.

use vstd::prelude::*;
use vstd::string::*;
use crate::text::{contains_name, same_text};

verus! {

/// Discrete band of the lifeforce signal.
#[derive(Clone, Copy, Debug, PartialEq, Eq, Hash, Structural)]
pub enum LifeforceBand {
    Green,
    Yellow,
    Red,
}

/// One reading of the lifeforce signal.
#[derive(Clone, Copy, Debug, PartialEq, Eq, Structural)]
pub struct LifeforceSnapshot {
    /// Vitality in millionths of the full scale.
    pub scalar01: u32,
    pub band: LifeforceBand,
}

/// Sensitivity tier of an epoch. `B1Surface` and `Excluded` are never open to
/// excavation.
#[derive(Clone, Copy, Debug, PartialEq, Eq, Hash, Structural)]
pub enum BiophysicalLayer {
    B1Surface,
    B2Structural,
    B3Deep,
    B4Rare,
    Excluded,
}

impl BiophysicalLayer {
    /// Whether epochs of this layer can be excavated at all.
    pub open spec fn spec_excavatable(self) -> bool {
        self == BiophysicalLayer::B2Structural || self == BiophysicalLayer::B3Deep || self
            == BiophysicalLayer::B4Rare
    }

    /// Whether epochs of this layer can be excavated at all.
    pub fn excavatable(&self) -> (open: bool)
        ensures
            open == self.spec_excavatable(),
    {
        match self {
            BiophysicalLayer::B2Structural | BiophysicalLayer::B3Deep | BiophysicalLayer::B4Rare => true,
            BiophysicalLayer::B1Surface | BiophysicalLayer::Excluded => false,
        }
    }
}

/// The rules of one layer.
#[derive(Clone, Debug)]
pub struct LayerPolicy {
    pub allow_echo: bool,
    pub allow_excavation: bool,
    pub max_daily_epochs: u32,
    pub max_epochs_per_turn: u32,
    /// Least lifeforce scalar, in millionths, at which the layer is open.
    pub min_lf_scalar01: u32,
    /// Bands in which the layer is open; an empty list leaves the band free.
    pub min_lf_bands: Vec<LifeforceBand>,
    /// Most energy one epoch may cost, in nanojoules.
    pub max_ecoenergynj_per_epoch: u64,
    pub require_brain_token_min: u64,
    pub require_draculawave_min: u64,
    pub require_irreversible_token: bool,
    pub require_intent_tag: Option<String>,
}

/// What a `LayerPolicy` says, with the band list as a set and the tag as
/// characters.
pub struct LayerPolicyView {
    pub allow_echo: bool,
    pub allow_excavation: bool,
    pub max_daily_epochs: u32,
    pub max_epochs_per_turn: u32,
    pub min_lf_scalar01: u32,
    pub min_lf_bands: Set<LifeforceBand>,
    pub max_ecoenergynj_per_epoch: u64,
    pub require_brain_token_min: u64,
    pub require_draculawave_min: u64,
    pub require_irreversible_token: bool,
    pub require_intent_tag: Option<Seq<char>>,
}

impl View for LayerPolicy {
    type V = LayerPolicyView;

    open spec fn view(&self) -> LayerPolicyView {
        LayerPolicyView {
            allow_echo: self.allow_echo,
            allow_excavation: self.allow_excavation,
            max_daily_epochs: self.max_daily_epochs,
            max_epochs_per_turn: self.max_epochs_per_turn,
            min_lf_scalar01: self.min_lf_scalar01,
            min_lf_bands: self.min_lf_bands@.to_set(),
            max_ecoenergynj_per_epoch: self.max_ecoenergynj_per_epoch,
            require_brain_token_min: self.require_brain_token_min,
            require_draculawave_min: self.require_draculawave_min,
            require_irreversible_token: self.require_irreversible_token,
            require_intent_tag: match self.require_intent_tag {
                Some(tag) => Some(tag@),
                None => None,
            },
        }
    }
}

/// The characters of an optional tag.
pub open spec fn tag_view(tag: Option<&str>) -> Option<Seq<char>> {
    match tag {
        Some(t) => Some(t@),
        None => None,
    }
}

impl LayerPolicyView {
    /// Whether the band is acceptable: any band where the policy names none,
    /// else one of those it names.
    pub open spec fn band_open(self, band: LifeforceBand) -> bool {
        (forall|b: LifeforceBand| !self.min_lf_bands.contains(b)) || self.min_lf_bands.contains(
            band,
        )
    }

    /// Whether the supplied intent tag satisfies the policy: free where the
    /// policy asks for none, else the same characters.
    pub open spec fn intent_matches(self, intent_tag: Option<Seq<char>>) -> bool {
        self.require_intent_tag is Some ==> intent_tag == self.require_intent_tag
    }

    /// Whether this policy admits one epoch. Every condition must hold.
    pub open spec fn admits(
        self,
        lf: LifeforceSnapshot,
        ecoenergynj: u64,
        brain_tokens_available: u64,
        draculawave_available: u64,
        daily_layer_epochs_used: u32,
        has_irreversible_token: bool,
        intent_tag: Option<Seq<char>>,
    ) -> bool {
        &&& self.allow_excavation
        &&& lf.scalar01 >= self.min_lf_scalar01
        &&& self.band_open(lf.band)
        &&& ecoenergynj <= self.max_ecoenergynj_per_epoch
        &&& daily_layer_epochs_used < self.max_daily_epochs
        &&& brain_tokens_available >= self.require_brain_token_min
        &&& draculawave_available >= self.require_draculawave_min
        &&& (self.require_irreversible_token ==> has_irreversible_token)
        &&& self.intent_matches(intent_tag)
    }
}

impl LayerPolicy {
    /// Whether the band is acceptable to this policy.
    pub fn band_open(&self, band: LifeforceBand) -> (open: bool)
        ensures
            open == self@.band_open(band),
    {
        if self.min_lf_bands.len() == 0 {
            return true;
        }
        let mut i: usize = 0;
        while i < self.min_lf_bands.len()
            invariant
                0 < self.min_lf_bands.len(),
                i <= self.min_lf_bands.len(),
                forall|j: int| 0 <= j < i ==> self.min_lf_bands@[j] != band,
            decreases self.min_lf_bands.len() - i,
        {
            if self.min_lf_bands[i] == band {
                return true;
            }
            i += 1;
        }
        proof {
            assert(self.min_lf_bands@.contains(self.min_lf_bands@[0]));
            assert(self@.min_lf_bands.contains(self.min_lf_bands@[0]));
            assert(!self.min_lf_bands@.contains(band));
        }
        false
    }

    /// Whether the supplied intent tag satisfies this policy.
    pub fn intent_matches(&self, intent_tag: Option<&str>) -> (ok: bool)
        ensures
            ok == self@.intent_matches(tag_view(intent_tag)),
    {
        match &self.require_intent_tag {
            None => true,
            Some(required) => match intent_tag {
                None => false,
                Some(tag) => same_text(tag, required.as_str()),
            },
        }
    }
}

/// The policies of a profile, one place per layer. A layer without a policy
/// is closed.
#[derive(Clone, Debug)]
pub struct LayerPolicies {
    pub b1_surface: Option<LayerPolicy>,
    pub b2_structural: Option<LayerPolicy>,
    pub b3_deep: Option<LayerPolicy>,
    pub b4_rare: Option<LayerPolicy>,
    pub excluded: Option<LayerPolicy>,
}

impl LayerPolicies {
    /// The policy held for a layer, if any.
    pub open spec fn spec_get(&self, layer: BiophysicalLayer) -> Option<LayerPolicy> {
        match layer {
            BiophysicalLayer::B1Surface => self.b1_surface,
            BiophysicalLayer::B2Structural => self.b2_structural,
            BiophysicalLayer::B3Deep => self.b3_deep,
            BiophysicalLayer::B4Rare => self.b4_rare,
            BiophysicalLayer::Excluded => self.excluded,
        }
    }

    /// A table without any policy.
    pub fn new() -> (table: LayerPolicies)
        ensures
            table@ == Map::<BiophysicalLayer, LayerPolicyView>::empty(),
    {
        let table = LayerPolicies {
            b1_surface: None,
            b2_structural: None,
            b3_deep: None,
            b4_rare: None,
            excluded: None,
        };
        assert(table@ =~= Map::<BiophysicalLayer, LayerPolicyView>::empty());
        table
    }

    /// Sets the policy of a layer and hands back the one it replaces.
    pub fn insert(&mut self, layer: BiophysicalLayer, policy: LayerPolicy) -> (previous: Option<
        LayerPolicy,
    >)
        ensures
            final(self)@ == old(self)@.insert(layer, policy@),
            previous == old(self).spec_get(layer),
    {
        let place = match layer {
            BiophysicalLayer::B1Surface => &mut self.b1_surface,
            BiophysicalLayer::B2Structural => &mut self.b2_structural,
            BiophysicalLayer::B3Deep => &mut self.b3_deep,
            BiophysicalLayer::B4Rare => &mut self.b4_rare,
            BiophysicalLayer::Excluded => &mut self.excluded,
        };
        let previous = place.take();
        *place = Some(policy);
        assert(self@ =~= old(self)@.insert(layer, policy@));
        previous
    }

    /// The policy of a layer, if one is held.
    pub fn get(&self, layer: &BiophysicalLayer) -> (found: Option<&LayerPolicy>)
        ensures
            self@.contains_key(*layer) == (found is Some),
            found matches Some(policy) ==> policy@ == self@[*layer],
            found matches Some(policy) ==> Some(*policy) == self.spec_get(*layer),
    {
        match layer {
            BiophysicalLayer::B1Surface => self.b1_surface.as_ref(),
            BiophysicalLayer::B2Structural => self.b2_structural.as_ref(),
            BiophysicalLayer::B3Deep => self.b3_deep.as_ref(),
            BiophysicalLayer::B4Rare => self.b4_rare.as_ref(),
            BiophysicalLayer::Excluded => self.excluded.as_ref(),
        }
    }
}

impl View for LayerPolicies {
    type V = Map<BiophysicalLayer, LayerPolicyView>;

    open spec fn view(&self) -> Map<BiophysicalLayer, LayerPolicyView> {
        Map::new(
            |layer: BiophysicalLayer| self.spec_get(layer) is Some,
            |layer: BiophysicalLayer| self.spec_get(layer).unwrap()@,
        )
    }
}

/// A host's deep-domain rights: who may act, under which layer policies, and
/// within which budgets.
#[derive(Clone, Debug)]
pub struct DeepDomainRightsProfile {
    pub host_id: String,
    pub profile_id: String,
    pub sovereign_owner_did: String,
    /// Roles that may act; a role is allowed exactly when it is listed here.
    pub allowed_roles: Vec<String>,
    /// Roles that are named as shut out.
    pub denied_roles: Vec<String>,
    pub ai_platforms_may_execute: bool,
    pub layer_policies: LayerPolicies,
    pub b2_max_epochs_per_day: u32,
    pub b3_max_epochs_per_day: u32,
    pub b4_max_epochs_per_day: u32,
    pub brain_tokens_daily_budget: u64,
    pub draculawave_daily_budget: u64,
    pub eco_nj_daily_budget: u64,
    pub on_budget_exhaustion_mode: String,
    pub require_transcripthash: bool,
    pub require_human_readable_explanation: bool,
    pub irreversible_token_scope_id: String,
    pub forbid_external_host_routing: bool,
}

/// What a profile says: texts as characters, role lists as sets, the policy
/// table as a map.
pub struct DeepDomainRightsProfileView {
    pub host_id: Seq<char>,
    pub profile_id: Seq<char>,
    pub sovereign_owner_did: Seq<char>,
    pub allowed_roles: Set<Seq<char>>,
    pub denied_roles: Set<Seq<char>>,
    pub ai_platforms_may_execute: bool,
    pub layer_policies: Map<BiophysicalLayer, LayerPolicyView>,
    pub b2_max_epochs_per_day: u32,
    pub b3_max_epochs_per_day: u32,
    pub b4_max_epochs_per_day: u32,
    pub brain_tokens_daily_budget: u64,
    pub draculawave_daily_budget: u64,
    pub eco_nj_daily_budget: u64,
    pub on_budget_exhaustion_mode: Seq<char>,
    pub require_transcripthash: bool,
    pub require_human_readable_explanation: bool,
    pub irreversible_token_scope_id: Seq<char>,
    pub forbid_external_host_routing: bool,
}

impl View for DeepDomainRightsProfile {
    type V = DeepDomainRightsProfileView;

    open spec fn view(&self) -> DeepDomainRightsProfileView {
        DeepDomainRightsProfileView {
            host_id: self.host_id@,
            profile_id: self.profile_id@,
            sovereign_owner_did: self.sovereign_owner_did@,
            allowed_roles: self.allowed_roles.deep_view().to_set(),
            denied_roles: self.denied_roles.deep_view().to_set(),
            ai_platforms_may_execute: self.ai_platforms_may_execute,
            layer_policies: self.layer_policies@,
            b2_max_epochs_per_day: self.b2_max_epochs_per_day,
            b3_max_epochs_per_day: self.b3_max_epochs_per_day,
            b4_max_epochs_per_day: self.b4_max_epochs_per_day,
            brain_tokens_daily_budget: self.brain_tokens_daily_budget,
            draculawave_daily_budget: self.draculawave_daily_budget,
            eco_nj_daily_budget: self.eco_nj_daily_budget,
            on_budget_exhaustion_mode: self.on_budget_exhaustion_mode@,
            require_transcripthash: self.require_transcripthash,
            require_human_readable_explanation: self.require_human_readable_explanation,
            irreversible_token_scope_id: self.irreversible_token_scope_id@,
            forbid_external_host_routing: self.forbid_external_host_routing,
        }
    }
}

/// Outcome of checking a profile.
#[derive(Clone, Debug, PartialEq, Eq)]
pub enum DeepDomainRightsStatus {
    RightsSafe,
    /// The profile breaks at least one invariant; one message for each.
    ViolatesInvariant(Vec<String>),
}

/// A status with its messages as characters.
pub enum DeepDomainRightsStatusView {
    RightsSafe,
    ViolatesInvariant(Seq<Seq<char>>),
}

impl View for DeepDomainRightsStatus {
    type V = DeepDomainRightsStatusView;

    open spec fn view(&self) -> DeepDomainRightsStatusView {
        match self {
            DeepDomainRightsStatus::RightsSafe => DeepDomainRightsStatusView::RightsSafe,
            DeepDomainRightsStatus::ViolatesInvariant(messages) => {
                DeepDomainRightsStatusView::ViolatesInvariant(messages.deep_view())
            },
        }
    }
}

impl DeepDomainRightsStatus {
    /// Whether the profile passed.
    pub fn is_safe(&self) -> (safe: bool)
        ensures
            safe == (self@ == DeepDomainRightsStatusView::RightsSafe),
    {
        match self {
            DeepDomainRightsStatus::RightsSafe => true,
            DeepDomainRightsStatus::ViolatesInvariant(_) => false,
        }
    }
}

/// The list of messages after one more check: `message` is added at the end
/// where the check found a violation.
pub open spec fn note(found: Seq<Seq<char>>, violated: bool, message: Seq<char>) -> Seq<
    Seq<char>,
> {
    if violated {
        found.push(message)
    } else {
        found
    }
}

/// The message for a role that ought to be denied and is not.
pub open spec fn denied_role_message(role: Seq<char>) -> Seq<char> {
    "Role '"@ + role + "' must be explicitly denied from deep-domain mutation"@
}

impl DeepDomainRightsProfileView {
    /// The policy of a layer, if the profile holds one.
    pub open spec fn policy(self, layer: BiophysicalLayer) -> Option<LayerPolicyView> {
        if self.layer_policies.contains_key(layer) {
            Some(self.layer_policies[layer])
        } else {
            None
        }
    }

    /// Whether the named role may act.
    pub open spec fn role_allowed(self, role: Seq<char>) -> bool {
        self.allowed_roles.contains(role)
    }

    /// The owner of the profile is the host itself.
    pub open spec fn sovereignty_holds(self) -> bool {
        self.sovereign_owner_did == self.host_id
    }

    /// The augmented citizen may act, the three machine-side roles are
    /// denied by name, and platforms only propose.
    pub open spec fn roles_hold(self) -> bool {
        &&& self.allowed_roles.contains("augmented-citizen"@)
        &&& self.denied_roles.contains("vendor-generic"@)
        &&& self.denied_roles.contains("sandbox"@)
        &&& self.denied_roles.contains("pure-machine"@)
        &&& !self.ai_platforms_may_execute
    }

    /// The structural, deep and rare layers all have a policy, and each is at
    /// least as tight as the one above it: no lower lifeforce floor, no higher
    /// energy cap per epoch, no higher daily count. The rare layer asks for
    /// the irreversible token.
    pub open spec fn layers_tighten(self) -> bool {
        &&& self.policy(BiophysicalLayer::B2Structural) matches Some(b2)
        &&& self.policy(BiophysicalLayer::B3Deep) matches Some(b3)
        &&& self.policy(BiophysicalLayer::B4Rare) matches Some(b4)
        &&& b2.min_lf_scalar01 <= b3.min_lf_scalar01 <= b4.min_lf_scalar01
        &&& b2.max_ecoenergynj_per_epoch >= b3.max_ecoenergynj_per_epoch
            >= b4.max_ecoenergynj_per_epoch
        &&& self.b2_max_epochs_per_day >= self.b3_max_epochs_per_day
            >= self.b4_max_epochs_per_day
        &&& b4.require_irreversible_token
    }

    /// All three daily budgets are positive and exhaustion stops new
    /// excavation while logging goes on.
    pub open spec fn budgets_hold(self) -> bool {
        &&& self.brain_tokens_daily_budget > 0
        &&& self.draculawave_daily_budget > 0
        &&& self.eco_nj_daily_budget > 0
        &&& self.on_budget_exhaustion_mode == "log-only-no-new-excavation"@
    }

    /// Transcript hash and explanation are required and the token scope is
    /// named.
    pub open spec fn audit_holds(self) -> bool {
        &&& self.require_transcripthash
        &&& self.require_human_readable_explanation
        &&& self.irreversible_token_scope_id.len() > 0
    }

    /// Nothing is routed to another host.
    pub open spec fn isolation_holds(self) -> bool {
        self.forbid_external_host_routing
    }

    /// Whether the profile satisfies every invariant.
    pub open spec fn rights_safe(self) -> bool {
        &&& self.sovereignty_holds()
        &&& self.roles_hold()
        &&& self.layers_tighten()
        &&& self.budgets_hold()
        &&& self.audit_holds()
        &&& self.isolation_holds()
    }

    /// `found`, and after it the messages of the checks on owner and roles.
    pub open spec fn note_roles(self, found: Seq<Seq<char>>) -> Seq<Seq<char>> {
        let v = note(
            found,
            self.sovereign_owner_did != self.host_id,
            "sovereign_owner_did must equal host-id; no external owner"@,
        );
        let v = note(
            v,
            !self.allowed_roles.contains("augmented-citizen"@),
            "Role 'augmented-citizen' must be allowed for deep-domain control"@,
        );
        let v = note(
            v,
            !self.denied_roles.contains("vendor-generic"@),
            denied_role_message("vendor-generic"@),
        );
        let v = note(v, !self.denied_roles.contains("sandbox"@), denied_role_message("sandbox"@));
        let v = note(
            v,
            !self.denied_roles.contains("pure-machine"@),
            denied_role_message("pure-machine"@),
        );
        note(
            v,
            self.ai_platforms_may_execute,
            "AI platforms may not execute deep-domain state changes, propose-only"@,
        )
    }

    /// `found`, and after it the messages of the checks of the deep layer
    /// against the structural one.
    pub open spec fn note_deep_layer(self, found: Seq<Seq<char>>) -> Seq<Seq<char>> {
        let b2 = self.policy(BiophysicalLayer::B2Structural);
        let b3 = self.policy(BiophysicalLayer::B3Deep);
        if b2 is Some && b3 is Some {
            let v = note(
                found,
                b3.unwrap().min_lf_scalar01 < b2.unwrap().min_lf_scalar01,
                "B3.min_lifeforce must be >= B2.min_lifeforce"@,
            );
            let v = note(
                v,
                b3.unwrap().max_ecoenergynj_per_epoch > b2.unwrap().max_ecoenergynj_per_epoch,
                "B3.max_ecoenergynj_per_epoch must be <= B2.max_ecoenergynj_per_epoch"@,
            );
            note(
                v,
                self.b3_max_epochs_per_day > self.b2_max_epochs_per_day,
                "b3_max_epochs_per_day must be <= b2_max_epochs_per_day"@,
            )
        } else {
            found.push("Layer policies for B2 and B3 must be defined"@)
        }
    }

    /// `found`, and after it the messages of the checks of the rare layer:
    /// against the deep one where both have a policy, and on the irreversible
    /// token wherever the rare layer has one.
    pub open spec fn note_rare_layer(self, found: Seq<Seq<char>>) -> Seq<Seq<char>> {
        let b3 = self.policy(BiophysicalLayer::B3Deep);
        let b4 = self.policy(BiophysicalLayer::B4Rare);
        if b3 is Some && b4 is Some {
            let v = note(
                found,
                b4.unwrap().min_lf_scalar01 < b3.unwrap().min_lf_scalar01,
                "B4.min_lifeforce must be >= B3.min_lifeforce"@,
            );
            let v = note(
                v,
                b4.unwrap().max_ecoenergynj_per_epoch > b3.unwrap().max_ecoenergynj_per_epoch,
                "B4.max_ecoenergynj_per_epoch must be <= B3.max_ecoenergynj_per_epoch"@,
            );
            let v = note(
                v,
                self.b4_max_epochs_per_day > self.b3_max_epochs_per_day,
                "b4_max_epochs_per_day must be <= b3_max_epochs_per_day"@,
            );
            note(
                v,
                !b4.unwrap().require_irreversible_token,
                "B4 access must require an IrreversibleToken"@,
            )
        } else {
            note(
                found.push("Layer policies for B3 and B4 must be defined"@),
                b4 is Some && !b4.unwrap().require_irreversible_token,
                "B4 access must require an IrreversibleToken"@,
            )
        }
    }

    /// `found`, and after it the messages of the checks on budgets.
    pub open spec fn note_budgets(self, found: Seq<Seq<char>>) -> Seq<Seq<char>> {
        let v = note(
            found,
            self.brain_tokens_daily_budget == 0,
            "brain_tokens_daily_budget must be > 0"@,
        );
        let v = note(
            v,
            self.draculawave_daily_budget == 0,
            "draculawave_daily_budget must be > 0"@,
        );
        let v = note(v, self.eco_nj_daily_budget == 0, "eco_nj_daily_budget must be > 0"@);
        note(
            v,
            self.on_budget_exhaustion_mode != "log-only-no-new-excavation"@,
            "on_budget_exhaustion_mode must be 'log-only-no-new-excavation'"@,
        )
    }

    /// `found`, and after it the messages of the checks on audit and on
    /// routing.
    pub open spec fn note_audit(self, found: Seq<Seq<char>>) -> Seq<Seq<char>> {
        let v = note(
            found,
            !self.require_transcripthash,
            "require_transcripthash must be true for any deep-domain turn"@,
        );
        let v = note(
            v,
            !self.require_human_readable_explanation,
            "require_human_readable_explanation must be true"@,
        );
        let v = note(
            v,
            self.irreversible_token_scope_id.len() == 0,
            "irreversible_token_scope_id must be non-empty"@,
        );
        note(
            v,
            !self.forbid_external_host_routing,
            "forbid_external_host_routing must be true; microspace is sovereign"@,
        )
    }

    /// The messages of all violated invariants, in the order of the checks.
    /// Every check is made, whatever the others found.
    pub open spec fn violations(self) -> Seq<Seq<char>> {
        self.note_audit(
            self.note_budgets(
                self.note_rare_layer(
                    self.note_deep_layer(self.note_roles(Seq::<Seq<char>>::empty())),
                ),
            ),
        )
    }

    /// The status that the check of this profile gives.
    pub open spec fn status(self) -> DeepDomainRightsStatusView {
        if self.violations().len() == 0 {
            DeepDomainRightsStatusView::RightsSafe
        } else {
            DeepDomainRightsStatusView::ViolatesInvariant(self.violations())
        }
    }

    /// Whether the profile lets one epoch be excavated. The layer must be one
    /// that can be excavated and have a policy, and the policy must admit the
    /// epoch.
    pub open spec fn can_excavate_epoch(
        self,
        layer: BiophysicalLayer,
        lf: LifeforceSnapshot,
        ecoenergynj: u64,
        brain_tokens_available: u64,
        draculawave_available: u64,
        daily_layer_epochs_used: u32,
        has_irreversible_token: bool,
        intent_tag: Option<Seq<char>>,
    ) -> bool {
        &&& layer.spec_excavatable()
        &&& self.policy(layer) matches Some(policy)
        &&& policy.admits(
            lf,
            ecoenergynj,
            brain_tokens_available,
            draculawave_available,
            daily_layer_epochs_used,
            has_irreversible_token,
            intent_tag,
        )
    }
}

fn push_message(errors: &mut Vec<String>, message: String)
    ensures
        final(errors).deep_view() == old(errors).deep_view().push(message@),
{
    errors.push(message);
    assert(errors.deep_view() =~= old(errors).deep_view().push(message@));
}

fn note_violation(errors: &mut Vec<String>, violated: bool, message: &str)
    ensures
        final(errors).deep_view() == note(old(errors).deep_view(), violated, message@),
{
    if violated {
        push_message(errors, String::from_str(message));
    }
}

fn note_undenied_role(errors: &mut Vec<String>, denied_roles: &Vec<String>, role: &str)
    ensures
        final(errors).deep_view() == note(
            old(errors).deep_view(),
            !denied_roles.deep_view().to_set().contains(role@),
            denied_role_message(role@),
        ),
{
    if !contains_name(denied_roles, role) {
        let mut message = String::from_str("Role '");
        message.append(role);
        message.append("' must be explicitly denied from deep-domain mutation");
        push_message(errors, message);
    }
}

impl DeepDomainRightsProfile {
    fn check_roles(&self, errors: &mut Vec<String>)
        ensures
            final(errors).deep_view() == self@.note_roles(old(errors).deep_view()),
    {
        note_violation(
            errors,
            !same_text(self.sovereign_owner_did.as_str(), self.host_id.as_str()),
            "sovereign_owner_did must equal host-id; no external owner",
        );
        note_violation(
            errors,
            !contains_name(&self.allowed_roles, "augmented-citizen"),
            "Role 'augmented-citizen' must be allowed for deep-domain control",
        );
        note_undenied_role(errors, &self.denied_roles, "vendor-generic");
        note_undenied_role(errors, &self.denied_roles, "sandbox");
        note_undenied_role(errors, &self.denied_roles, "pure-machine");
        note_violation(
            errors,
            self.ai_platforms_may_execute,
            "AI platforms may not execute deep-domain state changes, propose-only",
        );
    }

    fn check_deep_layer(&self, errors: &mut Vec<String>)
        ensures
            final(errors).deep_view() == self@.note_deep_layer(old(errors).deep_view()),
    {
        let b2 = self.layer_policies.get(&BiophysicalLayer::B2Structural);
        let b3 = self.layer_policies.get(&BiophysicalLayer::B3Deep);
        match (b2, b3) {
            (Some(b2), Some(b3)) => {
                note_violation(
                    errors,
                    b3.min_lf_scalar01 < b2.min_lf_scalar01,
                    "B3.min_lifeforce must be >= B2.min_lifeforce",
                );
                note_violation(
                    errors,
                    b3.max_ecoenergynj_per_epoch > b2.max_ecoenergynj_per_epoch,
                    "B3.max_ecoenergynj_per_epoch must be <= B2.max_ecoenergynj_per_epoch",
                );
                note_violation(
                    errors,
                    self.b3_max_epochs_per_day > self.b2_max_epochs_per_day,
                    "b3_max_epochs_per_day must be <= b2_max_epochs_per_day",
                );
            },
            _ => {
                note_violation(errors, true, "Layer policies for B2 and B3 must be defined");
            },
        }
    }

    fn check_rare_layer(&self, errors: &mut Vec<String>)
        ensures
            final(errors).deep_view() == self@.note_rare_layer(old(errors).deep_view()),
    {
        let b3 = self.layer_policies.get(&BiophysicalLayer::B3Deep);
        let b4 = self.layer_policies.get(&BiophysicalLayer::B4Rare);
        match (b3, b4) {
            (Some(b3), Some(b4)) => {
                note_violation(
                    errors,
                    b4.min_lf_scalar01 < b3.min_lf_scalar01,
                    "B4.min_lifeforce must be >= B3.min_lifeforce",
                );
                note_violation(
                    errors,
                    b4.max_ecoenergynj_per_epoch > b3.max_ecoenergynj_per_epoch,
                    "B4.max_ecoenergynj_per_epoch must be <= B3.max_ecoenergynj_per_epoch",
                );
                note_violation(
                    errors,
                    self.b4_max_epochs_per_day > self.b3_max_epochs_per_day,
                    "b4_max_epochs_per_day must be <= b3_max_epochs_per_day",
                );
                note_violation(
                    errors,
                    !b4.require_irreversible_token,
                    "B4 access must require an IrreversibleToken",
                );
            },
            (_, rare) => {
                note_violation(errors, true, "Layer policies for B3 and B4 must be defined");
                let unguarded = match rare {
                    Some(b4) => !b4.require_irreversible_token,
                    None => false,
                };
                note_violation(errors, unguarded, "B4 access must require an IrreversibleToken");
            },
        }
    }

    fn check_budgets(&self, errors: &mut Vec<String>)
        ensures
            final(errors).deep_view() == self@.note_budgets(old(errors).deep_view()),
    {
        note_violation(
            errors,
            self.brain_tokens_daily_budget == 0,
            "brain_tokens_daily_budget must be > 0",
        );
        note_violation(
            errors,
            self.draculawave_daily_budget == 0,
            "draculawave_daily_budget must be > 0",
        );
        note_violation(errors, self.eco_nj_daily_budget == 0, "eco_nj_daily_budget must be > 0");
        note_violation(
            errors,
            !same_text(self.on_budget_exhaustion_mode.as_str(), "log-only-no-new-excavation"),
            "on_budget_exhaustion_mode must be 'log-only-no-new-excavation'",
        );
    }

    fn check_audit(&self, errors: &mut Vec<String>)
        ensures
            final(errors).deep_view() == self@.note_audit(old(errors).deep_view()),
    {
        note_violation(
            errors,
            !self.require_transcripthash,
            "require_transcripthash must be true for any deep-domain turn",
        );
        note_violation(
            errors,
            !self.require_human_readable_explanation,
            "require_human_readable_explanation must be true",
        );
        note_violation(
            errors,
            self.irreversible_token_scope_id.as_str().is_empty(),
            "irreversible_token_scope_id must be non-empty",
        );
        note_violation(
            errors,
            !self.forbid_external_host_routing,
            "forbid_external_host_routing must be true; microspace is sovereign",
        );
    }

    /// Checks every invariant of the profile and reports all that are
    /// violated, not only the first.
    pub fn verify_rights_safe(&self) -> (status: DeepDomainRightsStatus)
        ensures
            status@ == self@.status(),
            status@ == DeepDomainRightsStatusView::RightsSafe <==> self@.rights_safe(),
    {
        let mut errors: Vec<String> = Vec::new();
        assert(errors.deep_view() =~= Seq::<Seq<char>>::empty());
        self.check_roles(&mut errors);
        self.check_deep_layer(&mut errors);
        self.check_rare_layer(&mut errors);
        self.check_budgets(&mut errors);
        self.check_audit(&mut errors);
        proof {
            lemma_safe_iff_no_violation(self@);
        }
        if errors.len() == 0 {
            DeepDomainRightsStatus::RightsSafe
        } else {
            DeepDomainRightsStatus::ViolatesInvariant(errors)
        }
    }

    /// Decides whether one epoch may be excavated under this profile. All
    /// conditions must hold; the call changes nothing.
    pub fn can_excavate_epoch(
        &self,
        layer: BiophysicalLayer,
        lf: &LifeforceSnapshot,
        ecoenergynj: u64,
        brain_tokens_available: u64,
        draculawave_available: u64,
        daily_layer_epochs_used: u32,
        has_irreversible_token: bool,
        intent_tag: Option<&str>,
    ) -> (allowed: bool)
        ensures
            allowed == self@.can_excavate_epoch(
                layer,
                *lf,
                ecoenergynj,
                brain_tokens_available,
                draculawave_available,
                daily_layer_epochs_used,
                has_irreversible_token,
                tag_view(intent_tag),
            ),
    {
        if !layer.excavatable() {
            return false;
        }
        let policy = match self.layer_policies.get(&layer) {
            Some(p) => p,
            None => {
                return false;
            },
        };
        if !policy.allow_excavation {
            return false;
        }
        if lf.scalar01 < policy.min_lf_scalar01 {
            return false;
        }
        if !policy.band_open(lf.band) {
            return false;
        }
        if ecoenergynj > policy.max_ecoenergynj_per_epoch {
            return false;
        }
        if daily_layer_epochs_used >= policy.max_daily_epochs {
            return false;
        }
        if brain_tokens_available < policy.require_brain_token_min {
            return false;
        }
        if draculawave_available < policy.require_draculawave_min {
            return false;
        }
        if policy.require_irreversible_token && !has_irreversible_token {
            return false;
        }
        policy.intent_matches(intent_tag)
    }
}

/// A profile is safe exactly when the check finds no violation.
pub proof fn lemma_safe_iff_no_violation(profile: DeepDomainRightsProfileView)
    ensures
        profile.rights_safe() <==> profile.violations().len() == 0,
        profile.rights_safe() <==> profile.status() == DeepDomainRightsStatusView::RightsSafe,
{
}

} // verus!
