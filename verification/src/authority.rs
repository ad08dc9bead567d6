//! What the authorities over the controller's access and over the actions on
//! machines bind.
use crate::access::{find_release_targets, release_targets};
use crate::adapter::ObservedMachine;
use crate::bootstrap::{InstanceAction, action_word};
use crate::firewall::{
    FirewallProfile, FirewallRuleSpec, RuleText, firewall_group_description, group_description,
    profile_at,
};
use crate::lists::{
    ascending, law_ascending_orders_and_keeps, law_lining_up_orders_and_keeps, lined_up,
};
use crate::machine::{DesiredState, MachinePlan, PlanDisposition, PlanMaterial};
use crate::provider::{VultrFirewallGroup, VultrFirewallRule, VultrInstance};
use crate::vultr_command::{
    AccessAuthorityMode, AccessPlan, AccessProfiles, acquisition_plan, action_plan, by_rule_id,
    check_observed_identity, granting_ids, instance_action_disposition, plan_access_acquisition,
    plan_access_release, sort_rules,
};
use vstd::prelude::*;
use vstd::string::*;

verus! {

/// What was seen of the firewall through which the controller gets access.
#[derive(Debug, PartialEq, Eq)]
pub struct SupportObservation {
    pub description: String,
    pub group: Option<VultrFirewallGroup>,
    /// In the order of their numbers.
    pub rules: Vec<VultrFirewallRule>,
}

/// Takes the firewall of a profile and its reported rules down. Where there is
/// no such firewall, there are no rules.
pub fn observe_firewall_access_authority(
    environment: &str,
    profile_name: &str,
    group: Option<VultrFirewallGroup>,
    reported: Vec<VultrFirewallRule>,
) -> (r: SupportObservation)
    ensures
        r.description@ == group_description(environment@, profile_name@),
        r.group == group,
        r.rules@ == if group is Some {
            lined_up(reported@, by_rule_id())
        } else {
            Seq::empty()
        },
{
    let rules: Vec<VultrFirewallRule> = match &group {
        Some(_) => sort_rules(reported),
        None => Vec::new(),
    };
    SupportObservation {
        description: firewall_group_description(environment, profile_name),
        group,
        rules,
    }
}

/// What the controller's access to a machine is wanted for.
#[derive(Debug, PartialEq, Eq)]
pub struct AccessDesired<'a> {
    pub desired: &'a DesiredState,
    pub machine_id: &'a str,
    pub operation: &'static str,
    pub controller_ipv4: &'a str,
    /// The registry of profiles, as it was read.
    pub firewall_profiles: &'a str,
}

/// What was seen before the controller's access was changed.
#[derive(Debug, PartialEq, Eq)]
pub enum AccessObserved<'a> {
    Acquire { machine_inventory: &'a Vec<ObservedMachine>, support: SupportObservation },
    Release(SupportObservation),
}

/// What a change of the controller's access follows.
#[derive(Debug, PartialEq, Eq)]
pub enum AccessGrounds<'a> {
    /// The plan for the machine that access is taken to.
    MachinePlan(&'a MachinePlan),
    /// The numbers of the rules that give access.
    MatchingRuleIds(Vec<u64>),
}

/// A plan for the controller's access to a machine.
#[derive(Debug, PartialEq, Eq)]
pub struct AccessChange<'a> {
    pub action: &'static str,
    pub machine_id: &'a str,
    pub firewall_profile: &'a str,
    pub grounds: AccessGrounds<'a>,
}

/// What the authority over the controller's access binds.
pub type AccessMaterial<'a> = PlanMaterial<AccessDesired<'a>, AccessObserved<'a>, AccessChange<'a>>;

/// The machine that access is about, and by what it is judged.
#[derive(Clone, Copy)]
pub struct AccessSubject<'a> {
    pub desired: &'a DesiredState,
    pub machine_id: &'a str,
    pub firewall_profile: &'a str,
    pub registry: &'a str,
    pub profiles: &'a AccessProfiles,
}

/// Whether the authority over the controller's access is bound to that machine
/// and by what it is judged.
pub open spec fn binds_access(
    subject: AccessSubject,
    operation: Seq<char>,
    bound: AccessMaterial,
) -> bool {
    &&& bound.scope@ == "vultr_support_access"@
    &&& *bound.desired.desired == *subject.desired
    &&& bound.desired.machine_id@ == subject.machine_id@
    &&& bound.desired.operation@ == operation
    &&& bound.desired.controller_ipv4@ == subject.profiles.controller_ipv4@
    &&& bound.desired.firewall_profiles@ == subject.registry@
    &&& bound.plan.machine_id@ == subject.machine_id@
    &&& bound.plan.firewall_profile@ == subject.firewall_profile@
}

fn access_desired<'a>(subject: AccessSubject<'a>, mode: AccessAuthorityMode) -> (r: AccessDesired<
    'a,
>)
    ensures
        r.desired == subject.desired,
        r.machine_id == subject.machine_id,
        r.operation@ == match mode {
            AccessAuthorityMode::Acquire => "ACQUIRE"@,
            AccessAuthorityMode::Release => "RELEASE"@,
        },
        r.controller_ipv4@ == subject.profiles.controller_ipv4@,
        r.firewall_profiles == subject.registry,
{
    AccessDesired {
        desired: subject.desired,
        machine_id: subject.machine_id,
        operation: mode.as_str(),
        controller_ipv4: subject.profiles.controller_ipv4.as_str(),
        firewall_profiles: subject.registry,
    }
}

/// What the authority over taking access binds: with the plan for the machine,
/// the machines and the firewall that it was made from.
pub fn acquire_material<'a>(
    subject: AccessSubject<'a>,
    machine_inventory: &'a Vec<ObservedMachine>,
    support: SupportObservation,
    machine_plan: &'a MachinePlan,
) -> (r: AccessMaterial<'a>)
    ensures
        binds_access(subject, "ACQUIRE"@, r),
        r.observed == (AccessObserved::Acquire { machine_inventory, support }),
        r.plan.grounds == AccessGrounds::MachinePlan(machine_plan),
        (r.disposition, r.plan.action@) == acquisition_plan(*machine_plan),
{
    let plan: AccessPlan = plan_access_acquisition(machine_plan);
    PlanMaterial {
        scope: "vultr_support_access",
        desired: access_desired(subject, AccessAuthorityMode::Acquire),
        observed: AccessObserved::Acquire { machine_inventory, support },
        plan: AccessChange {
            action: plan.action,
            machine_id: subject.machine_id,
            firewall_profile: subject.firewall_profile,
            grounds: AccessGrounds::MachinePlan(machine_plan),
        },
        disposition: plan.disposition,
    }
}

/// Whether the authority over giving access back binds those rules.
pub open spec fn binds_release(
    subject: AccessSubject,
    support: SupportObservation,
    ids: Seq<u64>,
    bound: AccessMaterial,
) -> bool {
    &&& binds_access(subject, "RELEASE"@, bound)
    &&& bound.observed == AccessObserved::Release(support)
    &&& bound.plan.grounds matches AccessGrounds::MatchingRuleIds(matching)
    &&& matching@ == ascending(ids)
    &&& if ids.len() == 0 {
        bound.plan.action@ == "NOOP"@ && bound.disposition is Noop
    } else {
        bound.plan.action@ == "RELEASE"@ && bound.disposition is Mutate
    }
}

/// Whether `r` is what the authority over giving access back binds, or the
/// first thing that is wrong: a profile that is not there, access rules that
/// cannot be told, a reported rule that cannot be read.
pub open spec fn release_bound(
    subject: AccessSubject,
    support: SupportObservation,
    r: Result<AccessMaterial, String>,
) -> bool {
    match profile_at(subject.profiles.unresolved@, subject.firewall_profile@) {
        None => r matches Err(e) && e@ == "firewall profile "@ + subject.firewall_profile@
            + " is not defined"@,
        Some(i) => exists|targets: Result<Seq<crate::firewall::RuleText>, Seq<char>>|
            {
                &&& #[trigger] release_targets(
                    subject.profiles.unresolved@[i],
                    subject.profiles.controller_ipv4@,
                    targets,
                )
                &&& match targets {
                    Err(words) => r matches Err(e) && e@ == words,
                    Ok(wanted) => match granting_ids(wanted, support.rules@) {
                        Err(words) => r matches Err(e) && e@ == words,
                        Ok(ids) => r matches Ok(bound) && binds_release(
                            subject,
                            support,
                            ids,
                            bound,
                        ),
                    },
                }
            },
    }
}

/// What the authority over giving access back binds: with the rules that give
/// it, the firewall that they were found in.
pub fn release_material<'a>(subject: AccessSubject<'a>, support: SupportObservation) -> (r: Result<
    AccessMaterial<'a>,
    String,
>)
    ensures
        release_bound(subject, support, r),
{
    let profile: &FirewallProfile = match subject.profiles.unresolved.profile(
        subject.firewall_profile,
    ) {
        Err(e) => return Err(e),
        Ok(profile) => profile,
    };
    let targets: Vec<FirewallRuleSpec> = match find_release_targets(
        profile,
        subject.profiles.controller_ipv4.as_str(),
    ) {
        Err(e) => return Err(e),
        Ok(targets) => targets,
    };
    let plan: AccessPlan = match plan_access_release(&targets, &support.rules) {
        Err(e) => return Err(e),
        Ok(plan) => plan,
    };
    Ok(
        PlanMaterial {
            scope: "vultr_support_access",
            desired: access_desired(subject, AccessAuthorityMode::Release),
            observed: AccessObserved::Release(support),
            plan: AccessChange {
                action: plan.action,
                machine_id: subject.machine_id,
                firewall_profile: subject.firewall_profile,
                grounds: AccessGrounds::MatchingRuleIds(plan.matching_rule_ids),
            },
            disposition: plan.disposition,
        },
    )
}

/// What an action on a machine is wanted for.
#[derive(Debug, PartialEq, Eq)]
pub struct ActionDesired<'a> {
    pub desired: &'a DesiredState,
    pub machine_id: &'a str,
    pub requested_action: &'static str,
}

/// What a machine is doing.
#[derive(Debug, PartialEq, Eq)]
pub struct Operational<'a> {
    pub provider_id: &'a str,
    pub power_status: &'a str,
    pub status: &'a str,
    pub server_status: &'a str,
}

/// What was seen before an action on a machine.
#[derive(Debug, PartialEq, Eq)]
pub struct ActionObserved<'a> {
    pub lifecycle_inventory: &'a Vec<ObservedMachine>,
    pub operational: Operational<'a>,
}

/// A plan for an action on a machine.
#[derive(Debug, PartialEq, Eq)]
pub struct ActionChange<'a> {
    pub machine_id: &'a str,
    pub provider_id: &'a str,
    pub requested_action: &'static str,
    pub action: &'static str,
}

/// What the authority over an action on a machine binds.
pub type ActionMaterial<'a> = PlanMaterial<ActionDesired<'a>, ActionObserved<'a>, ActionChange<'a>>;

/// Whether the authority over an action is bound to that machine, to what it is
/// doing and to the plan that follows.
pub open spec fn binds_action(
    desired: DesiredState,
    machine_id: Seq<char>,
    action: InstanceAction,
    inventory: Seq<ObservedMachine>,
    operational: VultrInstance,
    bound: ActionMaterial,
) -> bool {
    &&& bound.scope@ == "vultr_instance_action"@
    &&& *bound.desired.desired == desired
    &&& bound.desired.machine_id@ == machine_id
    &&& bound.desired.requested_action@ == action_word(action)
    &&& bound.observed.lifecycle_inventory@ == inventory
    &&& bound.observed.operational.provider_id@ == operational.id@
    &&& bound.observed.operational.power_status@ == operational.power_status@
    &&& bound.observed.operational.status@ == operational.status@
    &&& bound.observed.operational.server_status@ == operational.server_status@
    &&& bound.plan.machine_id@ == machine_id
    &&& bound.plan.provider_id@ == operational.id@
    &&& bound.plan.requested_action@ == action_word(action)
    &&& (bound.disposition, bound.plan.action@) == action_plan(action, operational)
}

/// What the authority over an action on a machine binds, where the provider
/// showed the machine that it was asked for.
pub fn build_instance_action_authority<'a>(
    desired: &'a DesiredState,
    machine_id: &'a str,
    action: InstanceAction,
    inventory: &'a Vec<ObservedMachine>,
    provider_id: &'a str,
    operational: &'a VultrInstance,
) -> (r: Result<ActionMaterial<'a>, String>)
    ensures
        match r {
            Ok(bound) => operational.id@ == provider_id@ && binds_action(
                *desired,
                machine_id@,
                action,
                inventory@,
                *operational,
                bound,
            ),
            Err(e) => operational.id@ != provider_id@ && e@
                == "instance action observation returned unexpected provider id "@
                + operational.id@ + " for "@ + provider_id@,
        },
{
    match check_observed_identity(operational, provider_id) {
        Err(e) => return Err(e),
        Ok(()) => {},
    }
    let (disposition, planned): (PlanDisposition, &'static str) = instance_action_disposition(
        action,
        operational,
    );
    Ok(
        PlanMaterial {
            scope: "vultr_instance_action",
            desired: ActionDesired { desired, machine_id, requested_action: action.as_str() },
            observed: ActionObserved {
                lifecycle_inventory: inventory,
                operational: Operational {
                    provider_id: operational.id.as_str(),
                    power_status: operational.power_status.as_str(),
                    status: operational.status.as_str(),
                    server_status: operational.server_status.as_str(),
                },
            },
            plan: ActionChange {
                machine_id,
                provider_id,
                requested_action: action.as_str(),
                action: planned,
            },
            disposition,
        },
    )
}

/// What is authorized is what will be done: taking access is bound to the plan
/// for the machine and amounts to a change only where the firewall is all that
/// differs.
pub proof fn law_taking_access_is_bound_to_its_plan(
    subject: AccessSubject,
    inventory: Vec<ObservedMachine>,
    support: SupportObservation,
    plan: MachinePlan,
    planned: AccessPlan,
    r: AccessMaterial,
)
    requires
        call_ensures(plan_access_acquisition, (&plan,), planned),
        call_ensures(acquire_material, (subject, &inventory, support, &plan), r),
    ensures
        r.disposition == planned.disposition,
        r.plan.action@ == planned.action@,
        r.plan.grounds == AccessGrounds::MachinePlan(&plan),
        r.plan.machine_id@ == subject.machine_id@,
        r.plan.firewall_profile@ == subject.firewall_profile@,
        r.desired.machine_id@ == subject.machine_id@,
        r.desired.operation@ == "ACQUIRE"@,
        *r.desired.desired == *subject.desired,
        r.desired.controller_ipv4@ == subject.profiles.controller_ipv4@,
        r.desired.firewall_profiles@ == subject.registry@,
        r.observed matches AccessObserved::Acquire { machine_inventory, support: s }
            && *machine_inventory == inventory && s == support,
{
}

/// Giving access back is bound to the rules that were seen, and is a change
/// exactly where some of them give access.
pub proof fn law_giving_access_back_is_bound_to_what_was_seen(
    subject: AccessSubject,
    support: SupportObservation,
    r: AccessMaterial,
)
    requires
        call_ensures(release_material, (subject, support), Ok::<AccessMaterial, String>(r)),
    ensures
        r.observed == AccessObserved::Release(support),
        r.desired.operation@ == "RELEASE"@,
        r.desired.machine_id@ == subject.machine_id@,
        r.plan.machine_id@ == subject.machine_id@,
        r.plan.grounds is MatchingRuleIds,
        r.disposition is Noop <==> r.plan.grounds->MatchingRuleIds_0@.len() == 0,
        r.disposition is Mutate <==> r.plan.grounds->MatchingRuleIds_0@.len() > 0,
{
    assert forall|ids: Seq<u64>| #[trigger] ascending(ids).len() == ids.len() by {
        law_ascending_orders_and_keeps(ids);
        ids.to_multiset_ensures();
        ascending(ids).to_multiset_ensures();
    }
}

/// The rules of a firewall are taken down in the order of their numbers, all of
/// them, and none where there is no firewall.
pub proof fn law_rules_are_taken_down_in_order(
    environment: &str,
    profile: &str,
    group: Option<VultrFirewallGroup>,
    reported: Vec<VultrFirewallRule>,
    r: SupportObservation,
)
    requires
        call_ensures(
            observe_firewall_access_authority,
            (environment, profile, group, reported),
            r,
        ),
    ensures
        r.group == group,
        r.description@ == "singbox-"@ + environment@ + "-fw-"@ + profile@,
        group is None ==> r.rules@.len() == 0,
        group is Some ==> r.rules@.to_multiset() == reported@.to_multiset(),
        forall|i: int, j: int|
            0 <= i < j < r.rules@.len() ==> (#[trigger] r.rules@[i]).id <= (
            #[trigger] r.rules@[j]).id,
{
    let le = by_rule_id();
    law_lining_up_orders_and_keeps(reported@, le);
    assert forall|i: int, j: int| 0 <= i < j < r.rules@.len() implies (#[trigger] r.rules@[i]).id
        <= (#[trigger] r.rules@[j]).id by {
        assert(le(r.rules@[i], r.rules@[j]));
    }
}

/// An action is bound to the machine that the provider showed, to what it was
/// doing and to what follows from that, and to no other machine.
pub proof fn law_actions_are_bound_to_the_machine_shown(
    desired: DesiredState,
    machine_id: &str,
    action: InstanceAction,
    inventory: Vec<ObservedMachine>,
    provider_id: &str,
    operational: VultrInstance,
    planned: (PlanDisposition, &'static str),
    r: Result<ActionMaterial, String>,
)
    requires
        call_ensures(instance_action_disposition, (action, &operational), planned),
        call_ensures(
            build_instance_action_authority,
            (&desired, machine_id, action, &inventory, provider_id, &operational),
            r,
        ),
    ensures
        r is Ok <==> operational.id@ == provider_id@,
        r matches Ok(bound) ==> {
            &&& bound.disposition == planned.0
            &&& bound.plan.action@ == planned.1@
            &&& bound.plan.provider_id@ == provider_id@
            &&& bound.plan.machine_id@ == machine_id@
            &&& bound.observed.operational.power_status@ == operational.power_status@
            &&& bound.observed.operational.status@ == operational.status@
            &&& bound.observed.operational.server_status@ == operational.server_status@
            &&& bound.plan.requested_action@ == bound.desired.requested_action@
            &&& *bound.desired.desired == desired
            &&& bound.observed.lifecycle_inventory@ == inventory@
        },
{
}

} // verus!
