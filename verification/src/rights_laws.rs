//! What holds of every profile: that the check reports each violated
//! invariant whatever else it found, and where the capability gate draws its
//! lines.

use vstd::prelude::*;
use crate::deep_domain_rights::{
    BiophysicalLayer,
    DeepDomainRightsProfileView,
    DeepDomainRightsStatusView,
    LayerPolicyView,
    LifeforceSnapshot,
    denied_role_message,
    lemma_safe_iff_no_violation,
    note,
};

verus! {

/// One check adds its message where it found a violation and drops nothing
/// that was found before.
pub proof fn lemma_note_keeps(found: Seq<Seq<char>>, violated: bool, message: Seq<char>)
    ensures
        violated ==> note(found, violated, message).contains(message),
        forall|m: Seq<char>|
            found.contains(m) ==> #[trigger] note(found, violated, message).contains(m),
{
    if violated {
        let after = found.push(message);
        assert(after[found.len() as int] == message);
        assert forall|m: Seq<char>| found.contains(m) implies after.contains(m) by {
            let i = choose|i: int| 0 <= i < found.len() && found[i] == m;
            assert(after[i] == m);
        }
    }
}

/// The checks on owner and roles report each violation and keep what was
/// found before.
pub proof fn lemma_roles_reported(profile: DeepDomainRightsProfileView, found: Seq<Seq<char>>)
    ensures
        forall|m: Seq<char>| found.contains(m) ==> #[trigger] profile.note_roles(found).contains(m),
        profile.sovereign_owner_did != profile.host_id ==> profile.note_roles(found).contains(
            "sovereign_owner_did must equal host-id; no external owner"@,
        ),
        !profile.allowed_roles.contains("augmented-citizen"@) ==> profile.note_roles(
            found,
        ).contains("Role 'augmented-citizen' must be allowed for deep-domain control"@),
        !profile.denied_roles.contains("vendor-generic"@) ==> profile.note_roles(found).contains(
            denied_role_message("vendor-generic"@),
        ),
        !profile.denied_roles.contains("sandbox"@) ==> profile.note_roles(found).contains(
            denied_role_message("sandbox"@),
        ),
        !profile.denied_roles.contains("pure-machine"@) ==> profile.note_roles(found).contains(
            denied_role_message("pure-machine"@),
        ),
        profile.ai_platforms_may_execute ==> profile.note_roles(found).contains(
            "AI platforms may not execute deep-domain state changes, propose-only"@,
        ),
{
    let c1 = profile.sovereign_owner_did != profile.host_id;
    let m1 = "sovereign_owner_did must equal host-id; no external owner"@;
    let c2 = !profile.allowed_roles.contains("augmented-citizen"@);
    let m2 = "Role 'augmented-citizen' must be allowed for deep-domain control"@;
    let c3 = !profile.denied_roles.contains("vendor-generic"@);
    let m3 = denied_role_message("vendor-generic"@);
    let c4 = !profile.denied_roles.contains("sandbox"@);
    let m4 = denied_role_message("sandbox"@);
    let c5 = !profile.denied_roles.contains("pure-machine"@);
    let m5 = denied_role_message("pure-machine"@);
    let c6 = profile.ai_platforms_may_execute;
    let m6 = "AI platforms may not execute deep-domain state changes, propose-only"@;
    let v1 = note(found, c1, m1);
    let v2 = note(v1, c2, m2);
    let v3 = note(v2, c3, m3);
    let v4 = note(v3, c4, m4);
    let v5 = note(v4, c5, m5);
    lemma_note_keeps(found, c1, m1);
    lemma_note_keeps(v1, c2, m2);
    lemma_note_keeps(v2, c3, m3);
    lemma_note_keeps(v3, c4, m4);
    lemma_note_keeps(v4, c5, m5);
    lemma_note_keeps(v5, c6, m6);
}

/// The checks of the deep layer against the structural one report each
/// violation and keep what was found before.
pub proof fn lemma_deep_layer_reported(profile: DeepDomainRightsProfileView, found: Seq<Seq<char>>)
    ensures
        forall|m: Seq<char>|
            found.contains(m) ==> #[trigger] profile.note_deep_layer(found).contains(m),
        ({
            let b2 = profile.policy(BiophysicalLayer::B2Structural);
            let b3 = profile.policy(BiophysicalLayer::B3Deep);
            let after = profile.note_deep_layer(found);
            &&& b2 is None || b3 is None ==> after.contains(
                "Layer policies for B2 and B3 must be defined"@,
            )
            &&& b2 is Some && b3 is Some && b3.unwrap().min_lf_scalar01 < b2.unwrap().min_lf_scalar01
                ==> after.contains("B3.min_lifeforce must be >= B2.min_lifeforce"@)
            &&& b2 is Some && b3 is Some && b3.unwrap().max_ecoenergynj_per_epoch
                > b2.unwrap().max_ecoenergynj_per_epoch ==> after.contains(
                "B3.max_ecoenergynj_per_epoch must be <= B2.max_ecoenergynj_per_epoch"@,
            )
            &&& b2 is Some && b3 is Some && profile.b3_max_epochs_per_day
                > profile.b2_max_epochs_per_day ==> after.contains(
                "b3_max_epochs_per_day must be <= b2_max_epochs_per_day"@,
            )
        }),
{
    let b2 = profile.policy(BiophysicalLayer::B2Structural);
    let b3 = profile.policy(BiophysicalLayer::B3Deep);
    if b2 is Some && b3 is Some {
        let c1 = b3.unwrap().min_lf_scalar01 < b2.unwrap().min_lf_scalar01;
        let m1 = "B3.min_lifeforce must be >= B2.min_lifeforce"@;
        let c2 = b3.unwrap().max_ecoenergynj_per_epoch > b2.unwrap().max_ecoenergynj_per_epoch;
        let m2 = "B3.max_ecoenergynj_per_epoch must be <= B2.max_ecoenergynj_per_epoch"@;
        let c3 = profile.b3_max_epochs_per_day > profile.b2_max_epochs_per_day;
        let m3 = "b3_max_epochs_per_day must be <= b2_max_epochs_per_day"@;
        let v1 = note(found, c1, m1);
        let v2 = note(v1, c2, m2);
        lemma_note_keeps(found, c1, m1);
        lemma_note_keeps(v1, c2, m2);
        lemma_note_keeps(v2, c3, m3);
    } else {
        let m = "Layer policies for B2 and B3 must be defined"@;
        assert(profile.note_deep_layer(found) == note(found, true, m));
        lemma_note_keeps(found, true, m);
    }
}

/// The checks of the rare layer report each violation and keep what was
/// found before; the check on the irreversible token is made wherever the
/// rare layer has a policy, whether or not the deep layer has one.
pub proof fn lemma_rare_layer_reported(profile: DeepDomainRightsProfileView, found: Seq<Seq<char>>)
    ensures
        forall|m: Seq<char>|
            found.contains(m) ==> #[trigger] profile.note_rare_layer(found).contains(m),
        ({
            let b3 = profile.policy(BiophysicalLayer::B3Deep);
            let b4 = profile.policy(BiophysicalLayer::B4Rare);
            let after = profile.note_rare_layer(found);
            &&& b3 is None || b4 is None ==> after.contains(
                "Layer policies for B3 and B4 must be defined"@,
            )
            &&& b3 is Some && b4 is Some && b4.unwrap().min_lf_scalar01 < b3.unwrap().min_lf_scalar01
                ==> after.contains("B4.min_lifeforce must be >= B3.min_lifeforce"@)
            &&& b3 is Some && b4 is Some && b4.unwrap().max_ecoenergynj_per_epoch
                > b3.unwrap().max_ecoenergynj_per_epoch ==> after.contains(
                "B4.max_ecoenergynj_per_epoch must be <= B3.max_ecoenergynj_per_epoch"@,
            )
            &&& b3 is Some && b4 is Some && profile.b4_max_epochs_per_day
                > profile.b3_max_epochs_per_day ==> after.contains(
                "b4_max_epochs_per_day must be <= b3_max_epochs_per_day"@,
            )
            &&& b4 is Some && !b4.unwrap().require_irreversible_token ==> after.contains(
                "B4 access must require an IrreversibleToken"@,
            )
        }),
{
    let b3 = profile.policy(BiophysicalLayer::B3Deep);
    let b4 = profile.policy(BiophysicalLayer::B4Rare);
    if b3 is Some && b4 is Some {
        let c1 = b4.unwrap().min_lf_scalar01 < b3.unwrap().min_lf_scalar01;
        let m1 = "B4.min_lifeforce must be >= B3.min_lifeforce"@;
        let c2 = b4.unwrap().max_ecoenergynj_per_epoch > b3.unwrap().max_ecoenergynj_per_epoch;
        let m2 = "B4.max_ecoenergynj_per_epoch must be <= B3.max_ecoenergynj_per_epoch"@;
        let c3 = profile.b4_max_epochs_per_day > profile.b3_max_epochs_per_day;
        let m3 = "b4_max_epochs_per_day must be <= b3_max_epochs_per_day"@;
        let c4 = !b4.unwrap().require_irreversible_token;
        let m4 = "B4 access must require an IrreversibleToken"@;
        let v1 = note(found, c1, m1);
        let v2 = note(v1, c2, m2);
        let v3 = note(v2, c3, m3);
        lemma_note_keeps(found, c1, m1);
        lemma_note_keeps(v1, c2, m2);
        lemma_note_keeps(v2, c3, m3);
        lemma_note_keeps(v3, c4, m4);
    } else {
        let m1 = "Layer policies for B3 and B4 must be defined"@;
        let c2 = b4 is Some && !b4.unwrap().require_irreversible_token;
        let m2 = "B4 access must require an IrreversibleToken"@;
        let v1 = note(found, true, m1);
        assert(profile.note_rare_layer(found) == note(v1, c2, m2));
        lemma_note_keeps(found, true, m1);
        lemma_note_keeps(v1, c2, m2);
    }
}

/// The checks on budgets report each violation and keep what was found
/// before.
pub proof fn lemma_budgets_reported(profile: DeepDomainRightsProfileView, found: Seq<Seq<char>>)
    ensures
        forall|m: Seq<char>|
            found.contains(m) ==> #[trigger] profile.note_budgets(found).contains(m),
        profile.brain_tokens_daily_budget == 0 ==> profile.note_budgets(found).contains(
            "brain_tokens_daily_budget must be > 0"@,
        ),
        profile.draculawave_daily_budget == 0 ==> profile.note_budgets(found).contains(
            "draculawave_daily_budget must be > 0"@,
        ),
        profile.eco_nj_daily_budget == 0 ==> profile.note_budgets(found).contains(
            "eco_nj_daily_budget must be > 0"@,
        ),
        profile.on_budget_exhaustion_mode != "log-only-no-new-excavation"@
            ==> profile.note_budgets(found).contains(
            "on_budget_exhaustion_mode must be 'log-only-no-new-excavation'"@,
        ),
{
    let c1 = profile.brain_tokens_daily_budget == 0;
    let m1 = "brain_tokens_daily_budget must be > 0"@;
    let c2 = profile.draculawave_daily_budget == 0;
    let m2 = "draculawave_daily_budget must be > 0"@;
    let c3 = profile.eco_nj_daily_budget == 0;
    let m3 = "eco_nj_daily_budget must be > 0"@;
    let c4 = profile.on_budget_exhaustion_mode != "log-only-no-new-excavation"@;
    let m4 = "on_budget_exhaustion_mode must be 'log-only-no-new-excavation'"@;
    let v1 = note(found, c1, m1);
    let v2 = note(v1, c2, m2);
    let v3 = note(v2, c3, m3);
    lemma_note_keeps(found, c1, m1);
    lemma_note_keeps(v1, c2, m2);
    lemma_note_keeps(v2, c3, m3);
    lemma_note_keeps(v3, c4, m4);
}

/// The checks on audit and routing report each violation and keep what was
/// found before.
pub proof fn lemma_audit_reported(profile: DeepDomainRightsProfileView, found: Seq<Seq<char>>)
    ensures
        forall|m: Seq<char>| found.contains(m) ==> #[trigger] profile.note_audit(found).contains(m),
        !profile.require_transcripthash ==> profile.note_audit(found).contains(
            "require_transcripthash must be true for any deep-domain turn"@,
        ),
        !profile.require_human_readable_explanation ==> profile.note_audit(found).contains(
            "require_human_readable_explanation must be true"@,
        ),
        profile.irreversible_token_scope_id.len() == 0 ==> profile.note_audit(found).contains(
            "irreversible_token_scope_id must be non-empty"@,
        ),
        !profile.forbid_external_host_routing ==> profile.note_audit(found).contains(
            "forbid_external_host_routing must be true; microspace is sovereign"@,
        ),
{
    let c1 = !profile.require_transcripthash;
    let m1 = "require_transcripthash must be true for any deep-domain turn"@;
    let c2 = !profile.require_human_readable_explanation;
    let m2 = "require_human_readable_explanation must be true"@;
    let c3 = profile.irreversible_token_scope_id.len() == 0;
    let m3 = "irreversible_token_scope_id must be non-empty"@;
    let c4 = !profile.forbid_external_host_routing;
    let m4 = "forbid_external_host_routing must be true; microspace is sovereign"@;
    let v1 = note(found, c1, m1);
    let v2 = note(v1, c2, m2);
    let v3 = note(v2, c3, m3);
    lemma_note_keeps(found, c1, m1);
    lemma_note_keeps(v1, c2, m2);
    lemma_note_keeps(v2, c3, m3);
    lemma_note_keeps(v3, c4, m4);
}

/// Every check is made and none hides another: the list of violations holds
/// the message of each invariant that the profile violates, however many
/// others it violates too.
pub proof fn lemma_every_violation_reported(profile: DeepDomainRightsProfileView)
    ensures
        ({
            let b2 = profile.policy(BiophysicalLayer::B2Structural);
            let b3 = profile.policy(BiophysicalLayer::B3Deep);
            let b4 = profile.policy(BiophysicalLayer::B4Rare);
            let all = profile.violations();
            &&& profile.sovereign_owner_did != profile.host_id ==> all.contains(
                "sovereign_owner_did must equal host-id; no external owner"@,
            )
            &&& !profile.allowed_roles.contains("augmented-citizen"@) ==> all.contains(
                "Role 'augmented-citizen' must be allowed for deep-domain control"@,
            )
            &&& !profile.denied_roles.contains("vendor-generic"@) ==> all.contains(
                denied_role_message("vendor-generic"@),
            )
            &&& !profile.denied_roles.contains("sandbox"@) ==> all.contains(
                denied_role_message("sandbox"@),
            )
            &&& !profile.denied_roles.contains("pure-machine"@) ==> all.contains(
                denied_role_message("pure-machine"@),
            )
            &&& profile.ai_platforms_may_execute ==> all.contains(
                "AI platforms may not execute deep-domain state changes, propose-only"@,
            )
            &&& b2 is None || b3 is None ==> all.contains(
                "Layer policies for B2 and B3 must be defined"@,
            )
            &&& b2 is Some && b3 is Some && b3.unwrap().min_lf_scalar01 < b2.unwrap().min_lf_scalar01
                ==> all.contains("B3.min_lifeforce must be >= B2.min_lifeforce"@)
            &&& b2 is Some && b3 is Some && b3.unwrap().max_ecoenergynj_per_epoch
                > b2.unwrap().max_ecoenergynj_per_epoch ==> all.contains(
                "B3.max_ecoenergynj_per_epoch must be <= B2.max_ecoenergynj_per_epoch"@,
            )
            &&& b2 is Some && b3 is Some && profile.b3_max_epochs_per_day
                > profile.b2_max_epochs_per_day ==> all.contains(
                "b3_max_epochs_per_day must be <= b2_max_epochs_per_day"@,
            )
            &&& b3 is None || b4 is None ==> all.contains(
                "Layer policies for B3 and B4 must be defined"@,
            )
            &&& b3 is Some && b4 is Some && b4.unwrap().min_lf_scalar01 < b3.unwrap().min_lf_scalar01
                ==> all.contains("B4.min_lifeforce must be >= B3.min_lifeforce"@)
            &&& b3 is Some && b4 is Some && b4.unwrap().max_ecoenergynj_per_epoch
                > b3.unwrap().max_ecoenergynj_per_epoch ==> all.contains(
                "B4.max_ecoenergynj_per_epoch must be <= B3.max_ecoenergynj_per_epoch"@,
            )
            &&& b3 is Some && b4 is Some && profile.b4_max_epochs_per_day
                > profile.b3_max_epochs_per_day ==> all.contains(
                "b4_max_epochs_per_day must be <= b3_max_epochs_per_day"@,
            )
            &&& b4 is Some && !b4.unwrap().require_irreversible_token ==> all.contains(
                "B4 access must require an IrreversibleToken"@,
            )
            &&& profile.brain_tokens_daily_budget == 0 ==> all.contains(
                "brain_tokens_daily_budget must be > 0"@,
            )
            &&& profile.draculawave_daily_budget == 0 ==> all.contains(
                "draculawave_daily_budget must be > 0"@,
            )
            &&& profile.eco_nj_daily_budget == 0 ==> all.contains(
                "eco_nj_daily_budget must be > 0"@,
            )
            &&& profile.on_budget_exhaustion_mode != "log-only-no-new-excavation"@ ==> all.contains(
                "on_budget_exhaustion_mode must be 'log-only-no-new-excavation'"@,
            )
            &&& !profile.require_transcripthash ==> all.contains(
                "require_transcripthash must be true for any deep-domain turn"@,
            )
            &&& !profile.require_human_readable_explanation ==> all.contains(
                "require_human_readable_explanation must be true"@,
            )
            &&& profile.irreversible_token_scope_id.len() == 0 ==> all.contains(
                "irreversible_token_scope_id must be non-empty"@,
            )
            &&& !profile.forbid_external_host_routing ==> all.contains(
                "forbid_external_host_routing must be true; microspace is sovereign"@,
            )
        }),
{
    let v0 = Seq::<Seq<char>>::empty();
    let v1 = profile.note_roles(v0);
    let v2 = profile.note_deep_layer(v1);
    let v3 = profile.note_rare_layer(v2);
    let v4 = profile.note_budgets(v3);
    lemma_roles_reported(profile, v0);
    lemma_deep_layer_reported(profile, v1);
    lemma_rare_layer_reported(profile, v2);
    lemma_budgets_reported(profile, v3);
    lemma_audit_reported(profile, v4);
}

/// The profile with the energy cap of its deep layer set to `cap`.
pub open spec fn with_deep_energy_cap(
    profile: DeepDomainRightsProfileView,
    cap: u64,
) -> DeepDomainRightsProfileView
    recommends
        profile.policy(BiophysicalLayer::B3Deep) is Some,
{
    DeepDomainRightsProfileView {
        layer_policies: profile.layer_policies.insert(
            BiophysicalLayer::B3Deep,
            LayerPolicyView {
                max_ecoenergynj_per_epoch: cap,
                ..profile.layer_policies[BiophysicalLayer::B3Deep]
            },
        ),
        ..profile
    }
}

/// A profile whose deep layer may spend more energy per epoch than its
/// structural layer, and which is safe once that one cap is set to `cap`, is
/// reported with the message of that cap and no other.
pub proof fn lemma_deep_energy_cap_alone(profile: DeepDomainRightsProfileView, cap: u64)
    requires
        profile.policy(BiophysicalLayer::B2Structural) is Some,
        profile.policy(BiophysicalLayer::B3Deep) is Some,
        profile.policy(BiophysicalLayer::B3Deep).unwrap().max_ecoenergynj_per_epoch
            > profile.policy(BiophysicalLayer::B2Structural).unwrap().max_ecoenergynj_per_epoch,
        with_deep_energy_cap(profile, cap).rights_safe(),
    ensures
        profile.status() == DeepDomainRightsStatusView::ViolatesInvariant(
            seq!["B3.max_ecoenergynj_per_epoch must be <= B2.max_ecoenergynj_per_epoch"@],
        ),
        with_deep_energy_cap(profile, cap).status() == DeepDomainRightsStatusView::RightsSafe,
{
    let corrected = with_deep_energy_cap(profile, cap);
    lemma_safe_iff_no_violation(corrected);
    assert(corrected.policy(BiophysicalLayer::B2Structural) == profile.policy(
        BiophysicalLayer::B2Structural,
    ));
    assert(corrected.policy(BiophysicalLayer::B4Rare) == profile.policy(BiophysicalLayer::B4Rare));
    assert(profile.violations() =~= seq![
        "B3.max_ecoenergynj_per_epoch must be <= B2.max_ecoenergynj_per_epoch"@,
    ]);
}

/// The lifeforce floor is inclusive. A reading below the floor of the
/// layer's policy is denied whatever else holds; a reading at or above it is
/// decided exactly as a reading at the floor itself.
pub proof fn lemma_lifeforce_floor_inclusive(
    profile: DeepDomainRightsProfileView,
    layer: BiophysicalLayer,
    lf: LifeforceSnapshot,
    ecoenergynj: u64,
    brain_tokens_available: u64,
    draculawave_available: u64,
    daily_layer_epochs_used: u32,
    has_irreversible_token: bool,
    intent_tag: Option<Seq<char>>,
)
    requires
        profile.policy(layer) is Some,
    ensures
        ({
            let floor = profile.policy(layer).unwrap().min_lf_scalar01;
            let allowed = profile.can_excavate_epoch(
                layer,
                lf,
                ecoenergynj,
                brain_tokens_available,
                draculawave_available,
                daily_layer_epochs_used,
                has_irreversible_token,
                intent_tag,
            );
            let allowed_at_floor = profile.can_excavate_epoch(
                layer,
                LifeforceSnapshot { scalar01: floor, band: lf.band },
                ecoenergynj,
                brain_tokens_available,
                draculawave_available,
                daily_layer_epochs_used,
                has_irreversible_token,
                intent_tag,
            );
            &&& lf.scalar01 < floor ==> !allowed
            &&& lf.scalar01 >= floor ==> allowed == allowed_at_floor
        }),
{
}

/// Where the policy of a layer asks for the irreversible token, an epoch is
/// denied without it; where it does not, the token makes no difference.
pub proof fn lemma_irreversible_token_decides(
    profile: DeepDomainRightsProfileView,
    layer: BiophysicalLayer,
    lf: LifeforceSnapshot,
    ecoenergynj: u64,
    brain_tokens_available: u64,
    draculawave_available: u64,
    daily_layer_epochs_used: u32,
    intent_tag: Option<Seq<char>>,
)
    requires
        profile.policy(layer) is Some,
    ensures
        ({
            let without = profile.can_excavate_epoch(
                layer,
                lf,
                ecoenergynj,
                brain_tokens_available,
                draculawave_available,
                daily_layer_epochs_used,
                false,
                intent_tag,
            );
            let with = profile.can_excavate_epoch(
                layer,
                lf,
                ecoenergynj,
                brain_tokens_available,
                draculawave_available,
                daily_layer_epochs_used,
                true,
                intent_tag,
            );
            &&& profile.policy(layer).unwrap().require_irreversible_token ==> !without
            &&& !profile.policy(layer).unwrap().require_irreversible_token ==> without == with
            &&& without ==> with
        }),
{
}

/// Missing policy never opens a layer. The surface and excluded layers, and
/// any layer without a policy, are closed to every epoch under every profile;
/// and the rare layer of a safe profile is closed to every epoch that comes
/// without the irreversible token.
pub proof fn lemma_fail_closed(
    profile: DeepDomainRightsProfileView,
    layer: BiophysicalLayer,
    lf: LifeforceSnapshot,
    ecoenergynj: u64,
    brain_tokens_available: u64,
    draculawave_available: u64,
    daily_layer_epochs_used: u32,
    has_irreversible_token: bool,
    intent_tag: Option<Seq<char>>,
)
    ensures
        ({
            let allowed = profile.can_excavate_epoch(
                layer,
                lf,
                ecoenergynj,
                brain_tokens_available,
                draculawave_available,
                daily_layer_epochs_used,
                has_irreversible_token,
                intent_tag,
            );
            &&& layer == BiophysicalLayer::Excluded || layer == BiophysicalLayer::B1Surface
                ==> !allowed
            &&& profile.policy(layer) is None ==> !allowed
            &&& profile.rights_safe() && layer == BiophysicalLayer::B4Rare
                && !has_irreversible_token ==> !allowed
        }),
{
}

} // verus!
