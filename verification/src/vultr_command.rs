//! The commands on an environment's machines, and what each of them decides
//! between the looks that it takes and the changes that it makes.
use crate::access::{grants, is_granted};
use crate::bootstrap::{InstanceAction, action_took_effect, action_word};
use crate::firewall::{
    FirewallProfile, FirewallProfileSet, FirewallRuleSpec, ProfileText, RuleText, distinct_names,
    firewall_rule_spec, has_placeholder, is_placeholder, law_profile_is_found_by_name,
    law_resolution_leaves_nothing_open, lemma_resolved_keeps_names, needs_controller, profile_at,
    registry_text, reported_rule, resolution, rule_texts, uses_placeholder,
};
use crate::lifecycle::{
    ApplyAction, ApplyReport, CreatePrerequisites, prerequisites_fault,
    validate_create_prerequisites,
};
use crate::lists::{
    ascending, law_ascending_orders_and_keeps, lemma_placed_at, lined_up, sort_ids,
};
use crate::machine::{
    DesiredState, MachinePlan, MachineSpec, PlanClass, PlanDisposition, class_words,
    firewall_profile_names, lemma_profile_names, profile_names, reasons_words,
};
use crate::provider::{VultrFirewallRule, VultrInstance};
use crate::support::ResolvedFirewallProfile;
use crate::text::{blank, cat10, cat2, cat3, cat4, cat5, cat6, copy_option, is_blank, same, texts};
use vstd::prelude::*;
use vstd::string::*;

verus! {

/// What can be asked of `edge-controller vultr-lifecycle`.
pub const VULTR_USAGE: &'static str =
    "usage:\n  edge-controller vultr-lifecycle doctor <spec-path>\n  edge-controller vultr-lifecycle inventory <spec-path>\n  edge-controller vultr-lifecycle plan <spec-path> [machine-id]\n  edge-controller vultr-lifecycle apply <spec-path> <machine-id> <authorized-plan-sha256>\n  edge-controller vultr-lifecycle acquire-access-plan <spec-path> <machine-id>\n  edge-controller vultr-lifecycle acquire-access <spec-path> <machine-id> <authorized-plan-sha256>\n  edge-controller vultr-lifecycle release-access-plan <spec-path> <machine-id>\n  edge-controller vultr-lifecycle release-access <spec-path> <machine-id> <authorized-plan-sha256>\n  edge-controller vultr-lifecycle action-plan <spec-path> <machine-id> <start|halt|reboot>\n  edge-controller vultr-lifecycle action <spec-path> <machine-id> <start|halt|reboot> <authorized-plan-sha256>\n  edge-controller vultr-lifecycle destroy-plan <spec-path> <machine-id> <source-revision>\n  edge-controller vultr-lifecycle destroy-apply <spec-path> <machine-id> <source-revision> <destroy-digest> <authorized-plan-sha256>\n  edge-controller vultr-lifecycle cleanup-plan <spec-path>\n  edge-controller vultr-lifecycle cleanup <spec-path> <authorized-plan-sha256>";

/// A command of `edge-controller vultr-lifecycle`.
#[derive(Debug, Clone, Copy, PartialEq, Eq, Structural)]
pub enum VultrCommand {
    Doctor,
    Inventory,
    Plan,
    Apply,
    AcquireAccessPlan,
    AcquireAccess,
    ReleaseAccessPlan,
    ReleaseAccess,
    ActionPlan,
    Action,
    DestroyPlan,
    DestroyApply,
    CleanupPlan,
    Cleanup,
}

/// The command that goes by a word.
pub open spec fn vultr_command_named(word: Seq<char>) -> Option<VultrCommand> {
    if word == "doctor"@ {
        Some(VultrCommand::Doctor)
    } else if word == "inventory"@ {
        Some(VultrCommand::Inventory)
    } else if word == "plan"@ {
        Some(VultrCommand::Plan)
    } else if word == "apply"@ {
        Some(VultrCommand::Apply)
    } else if word == "acquire-access-plan"@ {
        Some(VultrCommand::AcquireAccessPlan)
    } else if word == "acquire-access"@ {
        Some(VultrCommand::AcquireAccess)
    } else if word == "release-access-plan"@ {
        Some(VultrCommand::ReleaseAccessPlan)
    } else if word == "release-access"@ {
        Some(VultrCommand::ReleaseAccess)
    } else if word == "action-plan"@ {
        Some(VultrCommand::ActionPlan)
    } else if word == "action"@ {
        Some(VultrCommand::Action)
    } else if word == "destroy-plan"@ {
        Some(VultrCommand::DestroyPlan)
    } else if word == "destroy-apply"@ {
        Some(VultrCommand::DestroyApply)
    } else if word == "cleanup-plan"@ {
        Some(VultrCommand::CleanupPlan)
    } else if word == "cleanup"@ {
        Some(VultrCommand::Cleanup)
    } else {
        None
    }
}

/// How many words may follow a command.
pub open spec fn vultr_command_takes(command: VultrCommand, words: nat) -> bool {
    match command {
        VultrCommand::Doctor => words == 1,
        VultrCommand::Inventory => words == 1,
        VultrCommand::Plan => words == 1 || words == 2,
        VultrCommand::Apply => words == 3,
        VultrCommand::AcquireAccessPlan => words == 2,
        VultrCommand::AcquireAccess => words == 3,
        VultrCommand::ReleaseAccessPlan => words == 2,
        VultrCommand::ReleaseAccess => words == 3,
        VultrCommand::ActionPlan => words == 3,
        VultrCommand::Action => words == 4,
        VultrCommand::DestroyPlan => words == 3,
        VultrCommand::DestroyApply => words == 5,
        VultrCommand::CleanupPlan => words == 1,
        VultrCommand::Cleanup => words == 2,
    }
}

/// The sentence for a command with too few or too many words.
pub open spec fn vultr_command_usage(command: VultrCommand) -> Seq<char> {
    match command {
        VultrCommand::Doctor => "usage: edge-controller vultr-lifecycle doctor <spec-path>"@,
        VultrCommand::Inventory => "usage: edge-controller vultr-lifecycle inventory <spec-path>"@,
        VultrCommand::Plan => "usage: edge-controller vultr-lifecycle plan <spec-path> [machine-id]"@,
        VultrCommand::Apply => "usage: edge-controller vultr-lifecycle apply <spec-path> <machine-id> <authorized-plan-sha256>"@,
        VultrCommand::AcquireAccessPlan => "usage: edge-controller vultr-lifecycle acquire-access-plan <spec-path> <machine-id>"@,
        VultrCommand::AcquireAccess => "usage: edge-controller vultr-lifecycle acquire-access <spec-path> <machine-id> <authorized-plan-sha256>"@,
        VultrCommand::ReleaseAccessPlan => "usage: edge-controller vultr-lifecycle release-access-plan <spec-path> <machine-id>"@,
        VultrCommand::ReleaseAccess => "usage: edge-controller vultr-lifecycle release-access <spec-path> <machine-id> <authorized-plan-sha256>"@,
        VultrCommand::ActionPlan => "usage: edge-controller vultr-lifecycle action-plan <spec-path> <machine-id> <start|halt|reboot>"@,
        VultrCommand::Action => "usage: edge-controller vultr-lifecycle action <spec-path> <machine-id> <start|halt|reboot> <authorized-plan-sha256>"@,
        VultrCommand::DestroyPlan => "usage: edge-controller vultr-lifecycle destroy-plan <spec-path> <machine-id> <source-revision>"@,
        VultrCommand::DestroyApply => "usage: edge-controller vultr-lifecycle destroy-apply <spec-path> <machine-id> <source-revision> <destroy-digest> <authorized-plan-sha256>"@,
        VultrCommand::CleanupPlan => "usage: edge-controller vultr-lifecycle cleanup-plan <spec-path>"@,
        VultrCommand::Cleanup => "usage: edge-controller vultr-lifecycle cleanup <spec-path> <authorized-plan-sha256>"@,
    }
}

fn vultr_command_of(word: &str) -> (r: Option<VultrCommand>)
    ensures
        r == vultr_command_named(word@),
{
    if same(word, "doctor") {
        Some(VultrCommand::Doctor)
    } else if same(word, "inventory") {
        Some(VultrCommand::Inventory)
    } else if same(word, "plan") {
        Some(VultrCommand::Plan)
    } else if same(word, "apply") {
        Some(VultrCommand::Apply)
    } else if same(word, "acquire-access-plan") {
        Some(VultrCommand::AcquireAccessPlan)
    } else if same(word, "acquire-access") {
        Some(VultrCommand::AcquireAccess)
    } else if same(word, "release-access-plan") {
        Some(VultrCommand::ReleaseAccessPlan)
    } else if same(word, "release-access") {
        Some(VultrCommand::ReleaseAccess)
    } else if same(word, "action-plan") {
        Some(VultrCommand::ActionPlan)
    } else if same(word, "action") {
        Some(VultrCommand::Action)
    } else if same(word, "destroy-plan") {
        Some(VultrCommand::DestroyPlan)
    } else if same(word, "destroy-apply") {
        Some(VultrCommand::DestroyApply)
    } else if same(word, "cleanup-plan") {
        Some(VultrCommand::CleanupPlan)
    } else if same(word, "cleanup") {
        Some(VultrCommand::Cleanup)
    } else {
        None
    }
}

fn vultr_command_usage_line(command: VultrCommand) -> (r: &'static str)
    ensures
        r@ == vultr_command_usage(command),
{
    match command {
        VultrCommand::Doctor => "usage: edge-controller vultr-lifecycle doctor <spec-path>",
        VultrCommand::Inventory => "usage: edge-controller vultr-lifecycle inventory <spec-path>",
        VultrCommand::Plan => "usage: edge-controller vultr-lifecycle plan <spec-path> [machine-id]",
        VultrCommand::Apply => "usage: edge-controller vultr-lifecycle apply <spec-path> <machine-id> <authorized-plan-sha256>",
        VultrCommand::AcquireAccessPlan => "usage: edge-controller vultr-lifecycle acquire-access-plan <spec-path> <machine-id>",
        VultrCommand::AcquireAccess => "usage: edge-controller vultr-lifecycle acquire-access <spec-path> <machine-id> <authorized-plan-sha256>",
        VultrCommand::ReleaseAccessPlan => "usage: edge-controller vultr-lifecycle release-access-plan <spec-path> <machine-id>",
        VultrCommand::ReleaseAccess => "usage: edge-controller vultr-lifecycle release-access <spec-path> <machine-id> <authorized-plan-sha256>",
        VultrCommand::ActionPlan => "usage: edge-controller vultr-lifecycle action-plan <spec-path> <machine-id> <start|halt|reboot>",
        VultrCommand::Action => "usage: edge-controller vultr-lifecycle action <spec-path> <machine-id> <start|halt|reboot> <authorized-plan-sha256>",
        VultrCommand::DestroyPlan => "usage: edge-controller vultr-lifecycle destroy-plan <spec-path> <machine-id> <source-revision>",
        VultrCommand::DestroyApply => "usage: edge-controller vultr-lifecycle destroy-apply <spec-path> <machine-id> <source-revision> <destroy-digest> <authorized-plan-sha256>",
        VultrCommand::CleanupPlan => "usage: edge-controller vultr-lifecycle cleanup-plan <spec-path>",
        VultrCommand::Cleanup => "usage: edge-controller vultr-lifecycle cleanup <spec-path> <authorized-plan-sha256>",
    }
}

fn vultr_command_accepts(command: VultrCommand, words: usize) -> (r: bool)
    ensures
        r == vultr_command_takes(command, words as nat),
{
    match command {
        VultrCommand::Doctor => words == 1,
        VultrCommand::Inventory => words == 1,
        VultrCommand::Plan => words == 1 || words == 2,
        VultrCommand::Apply => words == 3,
        VultrCommand::AcquireAccessPlan => words == 2,
        VultrCommand::AcquireAccess => words == 3,
        VultrCommand::ReleaseAccessPlan => words == 2,
        VultrCommand::ReleaseAccess => words == 3,
        VultrCommand::ActionPlan => words == 3,
        VultrCommand::Action => words == 4,
        VultrCommand::DestroyPlan => words == 3,
        VultrCommand::DestroyApply => words == 5,
        VultrCommand::CleanupPlan => words == 1,
        VultrCommand::Cleanup => words == 2,
    }
}

/// Whether `result` is what the words ask for: the command that the first of
/// them names, where it takes as many words as follow, else what is wrong.
pub open spec fn vultr_command_reads(args: Seq<Seq<char>>, result: Result<VultrCommand, Seq<char>>) -> bool {
    if args.len() == 0 {
        result == Err::<VultrCommand, Seq<char>>(VULTR_USAGE@)
    } else {
        match vultr_command_named(args[0]) {
            None => result == Err::<VultrCommand, Seq<char>>(VULTR_USAGE@),
            Some(command) => if vultr_command_takes(command, (args.len() - 1) as nat) {
                result == Ok::<VultrCommand, Seq<char>>(command)
            } else {
                result == Err::<VultrCommand, Seq<char>>(vultr_command_usage(command))
            },
        }
    }
}

/// Reads what is asked for. The words that follow the first are the command's.
pub fn read_vultr_command(args: &Vec<String>) -> (r: Result<VultrCommand, String>)
    ensures
        match r {
            Ok(command) => vultr_command_reads(texts(args@), Ok(command)),
            Err(e) => vultr_command_reads(texts(args@), Err(e@)),
        },
{
    if args.len() == 0 {
        return Err(VULTR_USAGE.to_owned());
    }
    assert(texts(args@)[0] == args@[0]@);
    match vultr_command_of(args[0].as_str()) {
        None => Err(VULTR_USAGE.to_owned()),
        Some(command) => {
            if vultr_command_accepts(command, args.len() - 1) {
                Ok(command)
            } else {
                Err(vultr_command_usage_line(command).to_owned())
            }
        },
    }
}

/// What can be asked of `edge-controller vultr-lifecycle`.
pub fn usage() -> (r: String)
    ensures
        r@ == VULTR_USAGE@,
{
    VULTR_USAGE.to_owned()
}

/// The machine that a plan was drawn up for, or else why there is no plan.
pub fn first_plan<'a>(plans: &'a Vec<MachinePlan>, machine_id: &str) -> (r: Result<
    &'a MachinePlan,
    String,
>)
    ensures
        match r {
            Ok(plan) => plans@.len() > 0 && *plan == plans@[0],
            Err(e) => plans@.len() == 0 && e@ == "no lifecycle plan was produced for "@
                + machine_id@,
        },
{
    if plans.len() == 0 {
        Err(cat2("no lifecycle plan was produced for ", machine_id))
    } else {
        Ok(&plans[0])
    }
}

/// What an apply does once its first plan is authorized.
#[derive(Debug, PartialEq, Eq)]
pub enum ApplyCourse {
    /// Bring the firewall of this profile in line, then plan again.
    EnsureFirewall { profile: String },
    /// Plan again.
    PlanAgain,
}

/// What an authorized first plan leads to. A plan that is blocked or asks for
/// a replacement ends the apply before anything is changed.
pub open spec fn apply_course(
    machine: MachineSpec,
    plan: MachinePlan,
    authority: Result<(), String>,
    profiles: Option<FirewallProfileSet>,
    result: Result<ApplyCourse, String>,
) -> bool {
    match authority {
        Err(words) => result == Err::<ApplyCourse, String>(words),
        Ok(()) => match plan.class {
            PlanClass::BlockedAmbiguous | PlanClass::BlockedDrift | PlanClass::ReplaceRequired =>
            result matches Err(e) && e@ == "machine "@ + machine.id@ + " is "@ + class_words(
                plan.class,
            ) + "; apply refuses before support-resource mutation: "@ + reasons_words(plan),
            PlanClass::Noop => result == Ok::<ApplyCourse, String>(ApplyCourse::PlanAgain),
            PlanClass::Create | PlanClass::UpdateInPlace => match machine.provider.firewall_profile {
                None => result == Ok::<ApplyCourse, String>(ApplyCourse::PlanAgain),
                Some(name) => match profiles {
                    None => result matches Err(e) && e@ == "machine "@ + machine.id@
                        + " references firewall profile "@ + name@
                        + ", but no profile registry is loaded"@,
                    Some(set) => if profile_at(set@, name@) is None {
                        result matches Err(e) && e@ == "firewall profile "@ + name@
                            + " is not defined"@
                    } else {
                        result == Ok::<ApplyCourse, String>(
                            ApplyCourse::EnsureFirewall { profile: name },
                        )
                    },
                },
            },
        },
    }
}

/// Takes the first plan of an apply into account, and whether it is the one
/// that was authorized.
pub fn begin_run_apply(
    machine: &MachineSpec,
    plan: &MachinePlan,
    authority: Result<(), String>,
    profiles: &Option<FirewallProfileSet>,
) -> (r: Result<ApplyCourse, String>)
    ensures
        apply_course(*machine, *plan, authority, *profiles, r),
{
    match authority {
        Err(e) => return Err(e),
        Ok(()) => {},
    }
    match plan.class {
        PlanClass::BlockedAmbiguous | PlanClass::BlockedDrift | PlanClass::ReplaceRequired => {
            return Err(
                cat6(
                    "machine ",
                    machine.id.as_str(),
                    " is ",
                    plan.class.name(),
                    "; apply refuses before support-resource mutation: ",
                    plan.reasons_line().as_str(),
                ),
            );
        },
        PlanClass::Noop => return Ok(ApplyCourse::PlanAgain),
        _ => {},
    }
    match &machine.provider.firewall_profile {
        None => Ok(ApplyCourse::PlanAgain),
        Some(name) => match profiles {
            None => Err(
                cat5(
                    "machine ",
                    machine.id.as_str(),
                    " references firewall profile ",
                    name.as_str(),
                    ", but no profile registry is loaded",
                ),
            ),
            Some(set) => match set.profile(name.as_str()) {
                Err(e) => Err(e),
                Ok(_) => Ok(ApplyCourse::EnsureFirewall { profile: name.clone() }),
            },
        },
    }
}

/// What an apply does once it has planned again.
#[derive(Debug, PartialEq, Eq)]
pub enum SecondCourse {
    /// The firewall was all that had to change.
    Reconciled(ApplyReport),
    /// Check the catalog and gather what the making of the machine needs, then
    /// go on with the plan.
    Prepare,
    /// Go on with the plan.
    Proceed,
}

/// Whether the second plan, too, has to be the one that was authorized: unless
/// the first was an update, after which the second must be that nothing is to
/// be done.
pub open spec fn second_authority_needed(initial: PlanClass) -> bool {
    !(initial is UpdateInPlace)
}

/// What the second plan leads to.
pub open spec fn second_course(
    machine: MachineSpec,
    initial: PlanClass,
    plan: MachinePlan,
    authority: Result<(), String>,
    result: Result<SecondCourse, String>,
) -> bool {
    if initial is UpdateInPlace && !(plan.class is Noop) {
        result matches Err(e) && e@ == "machine "@ + machine.id@
            + " support-resource convergence did not reach NOOP: "@ + class_words(plan.class)
            + ": "@ + reasons_words(plan)
    } else if second_authority_needed(initial) && authority is Err {
        result == Err::<SecondCourse, String>(authority->Err_0)
    } else if initial is UpdateInPlace {
        match plan.provider_id {
            None => result matches Err(e) && e@
                == "converged UPDATE_IN_PLACE plan is missing provider id"@,
            Some(id) => result == Ok::<SecondCourse, String>(
                SecondCourse::Reconciled(
                    ApplyReport {
                        action: ApplyAction::Noop,
                        machine_id: machine.id,
                        provider_id: id,
                        final_plan: plan,
                    },
                ),
            ),
        }
    } else if plan.class is Create {
        result == Ok::<SecondCourse, String>(SecondCourse::Prepare)
    } else {
        result == Ok::<SecondCourse, String>(SecondCourse::Proceed)
    }
}

/// Takes the second plan of an apply into account. `authority` says whether it
/// is the one that was authorized; it counts only where that is needed.
pub fn continue_run_apply(
    machine: &MachineSpec,
    initial: PlanClass,
    plan: MachinePlan,
    authority: Result<(), String>,
) -> (r: Result<SecondCourse, String>)
    ensures
        second_course(*machine, initial, plan, authority, r),
{
    let update: bool = match initial {
        PlanClass::UpdateInPlace => true,
        _ => false,
    };
    let noop: bool = match plan.class {
        PlanClass::Noop => true,
        _ => false,
    };
    if update && !noop {
        return Err(
            cat6(
                "machine ",
                machine.id.as_str(),
                " support-resource convergence did not reach NOOP: ",
                plan.class.name(),
                ": ",
                plan.reasons_line().as_str(),
            ),
        );
    }
    if !update {
        match authority {
            Err(e) => return Err(e),
            Ok(()) => {},
        }
    }
    if update {
        return match copy_option(&plan.provider_id) {
            None => Err("converged UPDATE_IN_PLACE plan is missing provider id".to_owned()),
            Some(id) => Ok(
                SecondCourse::Reconciled(
                    ApplyReport {
                        action: ApplyAction::Noop,
                        machine_id: machine.id.clone(),
                        provider_id: id,
                        final_plan: plan,
                    },
                ),
            ),
        };
    }
    match plan.class {
        PlanClass::Create => Ok(SecondCourse::Prepare),
        _ => Ok(SecondCourse::Proceed),
    }
}

/// Nothing is changed on a plan that is blocked, asks for a replacement or is
/// not the authorized one.
pub proof fn law_apply_changes_nothing_unauthorized(
    machine: MachineSpec,
    plan: MachinePlan,
    authority: Result<(), String>,
    profiles: Option<FirewallProfileSet>,
    profile: String,
)
    requires
        apply_course(
            machine,
            plan,
            authority,
            profiles,
            Ok(ApplyCourse::EnsureFirewall { profile }),
        ),
    ensures
        authority is Ok,
        plan.class is Create || plan.class is UpdateInPlace,
        machine.provider.firewall_profile == Some(profile),
{
}

/// What is left to do on the machine itself once it is accepted.
#[derive(Debug, Clone, Copy, PartialEq, Eq, Structural)]
pub enum Aftercare {
    /// Scrub its user data and renew its host certificate.
    ScrubAndRotate,
    /// Check that both has been done.
    Verify,
}

/// What an apply does on the machine itself: a machine that was just made is
/// taken care of, any other is only checked.
pub fn aftercare(action: ApplyAction) -> (r: Aftercare)
    ensures
        r == match action {
            ApplyAction::Created => Aftercare::ScrubAndRotate,
            ApplyAction::Noop => Aftercare::Verify,
        },
{
    match action {
        ApplyAction::Created => Aftercare::ScrubAndRotate,
        ApplyAction::Noop => Aftercare::Verify,
    }
}

/// What is told of an apply that has been carried out.
#[derive(Debug, PartialEq, Eq)]
pub struct MachineApplyReport {
    pub action: &'static str,
    pub machine_id: String,
    pub provider_id: String,
    pub main_ip: String,
    pub final_plan: MachinePlan,
    pub strict_ssh_acceptance: &'static str,
    pub user_data_scrubbed: bool,
    pub user_data_scrub_changed: bool,
    pub host_certificate_rotated: bool,
    pub support_reconciled: bool,
}

/// Tells of an apply whose machine was accepted and taken care of.
/// `support_reconciled` says that the machine was as it should be once its
/// firewall was; `scrub_changed` and `rotated` say what its care has changed,
/// which is nothing where the machine was only checked.
pub fn report_apply(
    report: ApplyReport,
    main_ip: String,
    support_reconciled: bool,
    scrub_changed: bool,
    rotated: bool,
) -> (r: MachineApplyReport)
    ensures
        r.action@ == match report.action {
            ApplyAction::Created => "CREATED"@,
            ApplyAction::Noop => "NOOP"@,
        },
        r.machine_id == report.machine_id,
        r.provider_id == report.provider_id,
        r.main_ip == main_ip,
        r.final_plan == report.final_plan,
        r.strict_ssh_acceptance@ == "PASS"@,
        r.user_data_scrubbed,
        r.user_data_scrub_changed == (report.action is Created && scrub_changed),
        r.host_certificate_rotated == (report.action is Created && rotated),
        r.support_reconciled == support_reconciled,
{
    let cared: bool = match report.action {
        ApplyAction::Created => true,
        ApplyAction::Noop => false,
    };
    MachineApplyReport {
        action: report.action.as_str(),
        machine_id: report.machine_id,
        provider_id: report.provider_id,
        main_ip,
        final_plan: report.final_plan,
        strict_ssh_acceptance: "PASS",
        user_data_scrubbed: true,
        user_data_scrub_changed: cared && scrub_changed,
        host_certificate_rotated: cared && rotated,
        support_reconciled,
    }
}

/// Why what is at hand does not make a machine, if it does not.
pub open spec fn resolved_fault(
    machine: MachineSpec,
    ssh_key_id: Seq<char>,
    firewall: Option<ResolvedFirewallProfile>,
) -> Option<Seq<char>> {
    if machine.bootstrap_profile@ != "singbox-host-v2"@ {
        Some(unimplemented_profile(machine.bootstrap_profile@))
    } else if blank(ssh_key_id) {
        Some("resolved Vultr SSH key id is empty"@)
    } else {
        match (machine.provider.firewall_profile, firewall) {
            (None, None) => None,
            (Some(expected), Some(resolved)) => if resolved.profile_name@ == expected@ {
                None
            } else {
                Some(
                    "resolved firewall profile "@ + resolved.profile_name@
                        + " does not match desired profile "@ + expected@,
                )
            },
            (Some(expected), None) => Some(
                "machine "@ + machine.id@ + " requires resolved firewall profile "@ + expected@,
            ),
            (None, Some(resolved)) => Some(
                "machine "@ + machine.id@ + " has no firewall profile but resolver supplied "@
                    + resolved.profile_name@,
            ),
        }
    }
}

/// The error for a bootstrap profile that is not known here.
pub open spec fn unimplemented_profile(profile: Seq<char>) -> Seq<char> {
    "bootstrap profile "@ + profile + " is not implemented by the current application layer"@
}

/// Checks that a machine's bootstrap profile is known here.
pub fn check_bootstrap_profile(machine: &MachineSpec) -> (r: Result<(), String>)
    ensures
        match r {
            Ok(()) => machine.bootstrap_profile@ == "singbox-host-v2"@,
            Err(e) => machine.bootstrap_profile@ != "singbox-host-v2"@ && e@
                == unimplemented_profile(machine.bootstrap_profile@),
        },
{
    if same(machine.bootstrap_profile.as_str(), "singbox-host-v2") {
        Ok(())
    } else {
        Err(
            cat3(
                "bootstrap profile ",
                machine.bootstrap_profile.as_str(),
                " is not implemented by the current application layer",
            ),
        )
    }
}

/// Gathers what the making of a machine needs.
pub fn resolve_create_prerequisites(
    machine: &MachineSpec,
    ssh_key_id: &str,
    firewall: &Option<ResolvedFirewallProfile>,
    cloud_init: String,
) -> (r: Result<CreatePrerequisites, String>)
    ensures
        match r {
            Err(e) => resolved_fault(*machine, ssh_key_id@, *firewall) == Some(e@),
            Ok(p) => {
                &&& resolved_fault(*machine, ssh_key_id@, *firewall) is None
                &&& p.bootstrap_profile == machine.bootstrap_profile
                &&& p.ssh_key_id@ == ssh_key_id@
                &&& p.cloud_init == cloud_init
                &&& match *firewall {
                    Some(f) => p.firewall_group_id == Some(f.id) && p.firewall_profile == Some(
                        f.profile_name,
                    ),
                    None => p.firewall_group_id is None && p.firewall_profile is None,
                }
            },
        },
{
    match check_bootstrap_profile(machine) {
        Err(e) => return Err(e),
        Ok(()) => {},
    }
    if is_blank(ssh_key_id) {
        return Err("resolved Vultr SSH key id is empty".to_owned());
    }
    match (&machine.provider.firewall_profile, firewall) {
        (None, None) => {},
        (Some(expected), Some(resolved)) => {
            if !same(resolved.profile_name.as_str(), expected.as_str()) {
                return Err(
                    cat4(
                        "resolved firewall profile ",
                        resolved.profile_name.as_str(),
                        " does not match desired profile ",
                        expected.as_str(),
                    ),
                );
            }
        },
        (Some(expected), None) => {
            return Err(
                cat4(
                    "machine ",
                    machine.id.as_str(),
                    " requires resolved firewall profile ",
                    expected.as_str(),
                ),
            );
        },
        (None, Some(resolved)) => {
            return Err(
                cat4(
                    "machine ",
                    machine.id.as_str(),
                    " has no firewall profile but resolver supplied ",
                    resolved.profile_name.as_str(),
                ),
            );
        },
    }
    let (firewall_group_id, firewall_profile): (Option<String>, Option<String>) = match firewall {
        Some(f) => (Some(f.id.clone()), Some(f.profile_name.clone())),
        None => (None, None),
    };
    Ok(
        CreatePrerequisites {
            bootstrap_profile: machine.bootstrap_profile.clone(),
            ssh_key_id: ssh_key_id.to_owned(),
            cloud_init,
            firewall_group_id,
            firewall_profile,
        },
    )
}

/// What is handed on where no machine is to be made.
pub fn empty_create_prerequisites(machine: &MachineSpec) -> (r: CreatePrerequisites)
    ensures
        r.bootstrap_profile == machine.bootstrap_profile,
        r.ssh_key_id@.len() == 0,
        r.cloud_init@.len() == 0,
        r.firewall_group_id is None,
        r.firewall_profile is None,
{
    CreatePrerequisites {
        bootstrap_profile: machine.bootstrap_profile.clone(),
        ssh_key_id: String::new(),
        cloud_init: String::new(),
        firewall_group_id: None,
        firewall_profile: None,
    }
}

/// What was gathered for a machine is what its making asks for, as long as the
/// firewall has an id and there is a first configuration.
pub proof fn law_gathered_prerequisites_suffice(
    machine: MachineSpec,
    ssh_key_id: Seq<char>,
    firewall: Option<ResolvedFirewallProfile>,
    given: CreatePrerequisites,
)
    requires
        resolved_fault(machine, ssh_key_id, firewall) is None,
        given.bootstrap_profile == machine.bootstrap_profile,
        given.ssh_key_id@ == ssh_key_id,
        !blank(given.cloud_init@),
        match firewall {
            Some(f) => given.firewall_group_id == Some(f.id) && given.firewall_profile == Some(
                f.profile_name,
            ) && !blank(f.id@),
            None => given.firewall_group_id is None && given.firewall_profile is None,
        },
    ensures
        prerequisites_fault(machine, given) is None,
{
}

/// What reconciling the controller's access would change.
#[derive(Debug, Clone, Copy, PartialEq, Eq, Structural)]
pub enum AccessReconcileClass {
    Noop,
    FirewallOnly,
    Blocked,
}

/// The one reason for which access may be reconciled.
pub const FIREWALL_REASON: &'static str = "firewall profile differs or is not provider-verified";

/// Whether a plan is an update for the firewall's sake alone.
pub open spec fn firewall_only(plan: MachinePlan) -> bool {
    &&& plan.class is UpdateInPlace
    &&& plan.reasons@.len() > 0
    &&& forall|i: int|
        0 <= i < plan.reasons@.len() ==> (#[trigger] plan.reasons@[i])@ == FIREWALL_REASON@
}

/// What reconciling the controller's access would change under a plan: nothing
/// where the machine is as wanted, the firewall where that is all that differs.
pub fn access_reconcile_class(plan: &MachinePlan) -> (r: AccessReconcileClass)
    ensures
        r == if plan.class is Noop {
            AccessReconcileClass::Noop
        } else if firewall_only(*plan) {
            AccessReconcileClass::FirewallOnly
        } else {
            AccessReconcileClass::Blocked
        },
{
    match plan.class {
        PlanClass::Noop => AccessReconcileClass::Noop,
        PlanClass::UpdateInPlace => {
            let mut i: usize = 0;
            while i < plan.reasons.len()
                invariant
                    i <= plan.reasons@.len(),
                    plan.class is UpdateInPlace,
                    forall|k: int|
                        0 <= k < i ==> (#[trigger] plan.reasons@[k])@ == FIREWALL_REASON@,
                decreases plan.reasons@.len() - i,
            {
                if !same(plan.reasons[i].as_str(), FIREWALL_REASON) {
                    return AccessReconcileClass::Blocked;
                }
                i = i + 1;
            }
            if plan.reasons.len() == 0 {
                AccessReconcileClass::Blocked
            } else {
                AccessReconcileClass::FirewallOnly
            }
        },
        _ => AccessReconcileClass::Blocked,
    }
}

/// Whether the controller's access is taken or given back.
#[derive(Debug, Clone, Copy, PartialEq, Eq, Structural)]
pub enum AccessAuthorityMode {
    Acquire,
    Release,
}

impl AccessAuthorityMode {
    pub fn as_str(self) -> (r: &'static str)
        ensures
            r@ == match self {
                AccessAuthorityMode::Acquire => "ACQUIRE"@,
                AccessAuthorityMode::Release => "RELEASE"@,
            },
    {
        match self {
            AccessAuthorityMode::Acquire => "ACQUIRE",
            AccessAuthorityMode::Release => "RELEASE",
        }
    }
}

/// What is going to be done to the controller's access.
#[derive(Debug, PartialEq, Eq)]
pub struct AccessPlan {
    pub action: &'static str,
    pub disposition: PlanDisposition,
    /// The rules to remove, where access is given back.
    pub matching_rule_ids: Vec<u64>,
}

/// What the taking of access amounts to, by the plan for the machine.
pub open spec fn acquisition_plan(plan: MachinePlan) -> (PlanDisposition, Seq<char>) {
    if plan.class is Noop {
        (PlanDisposition::Noop, "NOOP"@)
    } else if firewall_only(plan) {
        (PlanDisposition::Mutate, "ACQUIRE"@)
    } else {
        (PlanDisposition::Blocked, "BLOCKED"@)
    }
}

/// Plans the taking of access.
pub fn plan_access_acquisition(plan: &MachinePlan) -> (r: AccessPlan)
    ensures
        r.matching_rule_ids@.len() == 0,
        (r.disposition, r.action@) == acquisition_plan(*plan),
{
    let (action, disposition): (&'static str, PlanDisposition) = match access_reconcile_class(
        plan,
    ) {
        AccessReconcileClass::Noop => ("NOOP", PlanDisposition::Noop),
        AccessReconcileClass::FirewallOnly => ("ACQUIRE", PlanDisposition::Mutate),
        AccessReconcileClass::Blocked => ("BLOCKED", PlanDisposition::Blocked),
    };
    AccessPlan { action, disposition, matching_rule_ids: Vec::new() }
}

/// The numbers of the reported rules that give the controller access, in the
/// order of the report, or else the first rule that cannot be read.
pub open spec fn granting_ids(targets: Seq<RuleText>, observed: Seq<VultrFirewallRule>) -> Result<
    Seq<u64>,
    Seq<char>,
>
    decreases observed.len(),
{
    if observed.len() == 0 {
        Ok(Seq::empty())
    } else {
        match granting_ids(targets, observed.drop_last()) {
            Err(e) => Err(e),
            Ok(ids) => match reported_rule(observed.last()) {
                Err(e) => Err(e),
                Ok(rule) => if grants(targets, rule) {
                    Ok(ids.push(observed.last().id))
                } else {
                    Ok(ids)
                },
            },
        }
    }
}

proof fn lemma_granting_fails(targets: Seq<RuleText>, observed: Seq<VultrFirewallRule>, i: int)
    requires
        0 <= i <= observed.len(),
        granting_ids(targets, observed.take(i)) is Err,
    ensures
        granting_ids(targets, observed) == granting_ids(targets, observed.take(i)),
    decreases observed.len() - i,
{
    if i == observed.len() {
        assert(observed.take(i) =~= observed);
    } else {
        assert(observed.take(i + 1).drop_last() =~= observed.take(i));
        lemma_granting_fails(targets, observed, i + 1);
    }
}

/// The order of reported rules by their numbers.
pub open spec fn by_rule_id() -> spec_fn(VultrFirewallRule, VultrFirewallRule) -> bool {
    |a: VultrFirewallRule, b: VultrFirewallRule| a.id <= b.id
}

/// Puts reported rules in the order of their numbers.
pub fn sort_rules(rules: Vec<VultrFirewallRule>) -> (r: Vec<VultrFirewallRule>)
    ensures
        r@ == lined_up(rules@, by_rule_id()),
{
    let ghost all = rules@;
    let ghost le = by_rule_id();
    let mut left: Vec<VultrFirewallRule> = rules;
    let mut out: Vec<VultrFirewallRule> = Vec::new();
    let ghost mut n: int = 0;
    while left.len() > 0
        invariant
            0 <= n <= all.len(),
            le == by_rule_id(),
            left@ == all.skip(n),
            out@ == lined_up(all.take(n), le),
        decreases left@.len(),
    {
        let rule: VultrFirewallRule = left.remove(0);
        proof {
            assert(rule == all[n]);
            assert(left@ =~= all.skip(n + 1));
            assert(all.take(n + 1).drop_last() =~= all.take(n));
        }
        let ghost before = out@;
        let mut i: usize = out.len();
        while i > 0 && out[i - 1].id > rule.id
            invariant
                i <= out@.len(),
                out@ == before,
                le == by_rule_id(),
                forall|k: int| i <= k < out@.len() ==> !le(#[trigger] before[k], rule),
            decreases i,
        {
            i = i - 1;
        }
        proof {
            lemma_placed_at(before, rule, le, i as int);
            n = n + 1;
        }
        out.insert(i, rule);
    }
    assert(all.take(n) =~= all);
    out
}

/// Whether a plan is to remove those rules.
pub open spec fn release_plan(plan: AccessPlan, ids: Seq<u64>) -> bool {
    &&& plan.matching_rule_ids@ == ascending(ids)
    &&& if ids.len() == 0 {
        plan.action@ == "NOOP"@ && plan.disposition is Noop
    } else {
        plan.action@ == "RELEASE"@ && plan.disposition is Mutate
    }
}

/// Plans the giving back of access: the removal of every rule that gives it.
/// The rules are read in the order they are given in.
pub fn plan_access_release(
    targets: &Vec<FirewallRuleSpec>,
    observed: &Vec<VultrFirewallRule>,
) -> (r: Result<AccessPlan, String>)
    ensures
        match granting_ids(rule_texts(targets@), observed@) {
            Err(words) => r matches Err(e) && e@ == words,
            Ok(ids) => r matches Ok(plan) && release_plan(plan, ids),
        },
{
    let mut ids: Vec<u64> = Vec::new();
    let mut i: usize = 0;
    let ghost wanted = rule_texts(targets@);
    while i < observed.len()
        invariant
            i <= observed@.len(),
            wanted == rule_texts(targets@),
            granting_ids(wanted, observed@.take(i as int)) == Ok::<Seq<u64>, Seq<char>>(ids@),
        decreases observed@.len() - i,
    {
        proof {
            assert(observed@.take(i + 1).drop_last() =~= observed@.take(i as int));
            assert(observed@.take(i + 1).last() == observed@[i as int]);
        }
        match firewall_rule_spec(&observed[i]) {
            Err(e) => {
                proof {
                    lemma_granting_fails(wanted, observed@, i + 1);
                }
                return Err(e);
            },
            Ok(rule) => {
                if is_granted(targets, &rule) {
                    ids.push(observed[i].id);
                }
            },
        }
        i = i + 1;
    }
    assert(observed@.take(i as int) =~= observed@);
    let none: bool = ids.len() == 0;
    Ok(
        AccessPlan {
            action: if none {
                "NOOP"
            } else {
                "RELEASE"
            },
            disposition: if none {
                PlanDisposition::Noop
            } else {
                PlanDisposition::Mutate
            },
            matching_rule_ids: sort_ids(&ids),
        },
    )
}

/// What a machine's firewall profile is asked for.
#[derive(Debug, Clone, Copy, PartialEq, Eq, Structural)]
pub enum AccessPurpose {
    Acquire,
    Release,
    Authority,
}

pub open spec fn purpose_words(purpose: AccessPurpose) -> Seq<char> {
    match purpose {
        AccessPurpose::Acquire =>
        " has no firewall_profile; acquire-access requires provider-owned SSH ingress"@,
        AccessPurpose::Release =>
        " has no firewall_profile; release-access requires provider-owned SSH ingress"@,
        AccessPurpose::Authority =>
        " has no firewall_profile; access authority requires provider-owned SSH ingress"@,
    }
}

/// The firewall profile that a machine has.
pub fn require_firewall_profile(machine: &MachineSpec, purpose: AccessPurpose) -> (r: Result<
    String,
    String,
>)
    ensures
        match machine.provider.firewall_profile {
            Some(name) => r == Ok::<String, String>(name),
            None => r matches Err(e) && e@ == "machine "@ + machine.id@ + purpose_words(purpose),
        },
{
    match &machine.provider.firewall_profile {
        Some(name) => Ok(name.clone()),
        None => Err(
            cat3(
                "machine ",
                machine.id.as_str(),
                match purpose {
                    AccessPurpose::Acquire =>
                    " has no firewall_profile; acquire-access requires provider-owned SSH ingress",
                    AccessPurpose::Release =>
                    " has no firewall_profile; release-access requires provider-owned SSH ingress",
                    AccessPurpose::Authority =>
                    " has no firewall_profile; access authority requires provider-owned SSH ingress",
                },
            ),
        ),
    }
}

/// Whether the profile through which the controller gets access holds its
/// address open.
pub fn check_access_profile(name: &str, raw_profiles: &FirewallProfileSet) -> (r: Result<
    (),
    String,
>)
    ensures
        match closed_profile(raw_profiles@, name@) {
            None => r is Ok,
            Some(words) => r matches Err(e) && e@ == words,
        },
{
    let profile: &FirewallProfile = match raw_profiles.profile(name) {
        Err(e) => return Err(e),
        Ok(profile) => profile,
    };
    if uses_placeholder(&profile.rules) {
        Ok(())
    } else {
        Err(cat3("firewall profile ", name, " has no @controller-ipv4 rule"))
    }
}

/// Whether any machine names a firewall profile.
pub fn needs_profiles(desired: &DesiredState) -> (r: bool)
    ensures
        r == (profile_names(desired.machines@).len() > 0),
{
    firewall_profile_names(desired).len() > 0
}

/// The first of the names that no profile has.
pub open spec fn first_undefined(profiles: Seq<ProfileText>, names: Seq<Seq<char>>) -> Option<
    Seq<char>,
>
    decreases names.len(),
{
    if names.len() == 0 {
        None
    } else if profile_at(profiles, names[0]) is None {
        Some(names[0])
    } else {
        first_undefined(profiles, names.drop_first())
    }
}

/// A registry's profiles for an environment: read, with the controller's
/// address filled in, and with a profile for every name that a machine gives,
/// or else the first thing that is wrong.
pub open spec fn environment_profiles(
    machines: Seq<MachineSpec>,
    raw: Seq<char>,
    controller_ipv4: Option<Seq<char>>,
) -> Result<Seq<ProfileText>, Seq<char>> {
    let names = texts(profile_names(machines));
    match registry_text(raw) {
        Err(e) => Err(e),
        Ok(profiles) => match resolution(profiles, names, controller_ipv4) {
            (_, Some(e)) => Err(e),
            (after, None) => match first_undefined(after, names) {
                Some(name) => Err("firewall profile "@ + name + " is not defined"@),
                None => Ok(after),
            },
        },
    }
}

/// Reads a registry's profiles for an environment.
pub fn load_firewall_profiles(desired: &DesiredState, raw: &str, controller_ipv4: Option<&str>) -> (r:
    Result<FirewallProfileSet, String>)
    ensures
        match r {
            Ok(set) => set.wf() && environment_profiles(
                desired.machines@,
                raw@,
                controller_ipv4.deep_view(),
            ) == Ok::<Seq<ProfileText>, Seq<char>>(set@),
            Err(e) => environment_profiles(
                desired.machines@,
                raw@,
                controller_ipv4.deep_view(),
            ) == Err::<Seq<ProfileText>, Seq<char>>(e@),
        },
{
    let mut set: FirewallProfileSet = match FirewallProfileSet::parse_json(raw) {
        Err(e) => return Err(e),
        Ok(set) => set,
    };
    let names: Vec<String> = firewall_profile_names(desired);
    let ghost all = texts(names@);
    let ghost before = set@;
    match set.resolve_controller_ipv4_for_profiles(&names, controller_ipv4) {
        Err(e) => return Err(e),
        Ok(()) => {},
    }
    let mut i: usize = 0;
    assert(all.skip(0) =~= all);
    while i < names.len()
        invariant
            i <= names@.len(),
            all == texts(names@),
            first_undefined(set@, all) == first_undefined(set@, all.skip(i as int)),
            first_undefined(set@, all) matches Some(name) ==> environment_profiles(
                desired.machines@,
                raw@,
                controller_ipv4.deep_view(),
            ) == Err::<Seq<ProfileText>, Seq<char>>("firewall profile "@ + name + " is not defined"@),
        decreases names@.len() - i,
    {
        assert(all.skip(i as int).drop_first() =~= all.skip(i + 1));
        assert(all.skip(i as int)[0] == names@[i as int]@);
        match set.profile(names[i].as_str()) {
            Err(e) => return Err(e),
            Ok(_) => {},
        }
        i = i + 1;
    }
    Ok(set)
}

/// What is read of a registry to judge the controller's access: the profiles as
/// they stand and as they read with the controller's address in place, or else
/// the first thing that is wrong.
pub open spec fn access_profiles(
    machines: Seq<MachineSpec>,
    raw: Seq<char>,
    controller_ipv4: Option<Seq<char>>,
) -> Result<(Seq<ProfileText>, Seq<ProfileText>), Seq<char>> {
    match (registry_text(raw), controller_ipv4) {
        (Err(e), _) => Err(e),
        (Ok(_), None) => Err("EDGE_CONTROLLER_IPV4 is required for access authority"@),
        (Ok(unresolved), Some(_)) => match environment_profiles(machines, raw, controller_ipv4) {
            Err(e) => Err(e),
            Ok(resolved) => Ok((unresolved, resolved)),
        },
    }
}

/// The profiles by which the controller's access is judged, as they stand and
/// with the controller's address in place, and that address.
pub struct AccessProfiles {
    pub unresolved: FirewallProfileSet,
    pub resolved: FirewallProfileSet,
    pub controller_ipv4: String,
}

/// Whether these are the profiles for that address.
pub open spec fn holds_access_profiles(
    held: AccessProfiles,
    unresolved: Seq<ProfileText>,
    resolved: Seq<ProfileText>,
    controller_ipv4: Option<Seq<char>>,
) -> bool {
    &&& held.unresolved.wf()
    &&& held.unresolved@ == unresolved
    &&& held.resolved.wf()
    &&& held.resolved@ == resolved
    &&& controller_ipv4 == Some(held.controller_ipv4@)
}

/// Reads a registry to judge the controller's access.
pub fn load_access_authority_profiles(
    desired: &DesiredState,
    raw: &str,
    controller_ipv4: &Option<String>,
) -> (r: Result<AccessProfiles, String>)
    ensures
        match access_profiles(desired.machines@, raw@, controller_ipv4.deep_view()) {
            Err(words) => r matches Err(e) && e@ == words,
            Ok((unresolved, resolved)) => r matches Ok(held) && holds_access_profiles(
                held,
                unresolved,
                resolved,
                controller_ipv4.deep_view(),
            ),
        },
{
    let unresolved: FirewallProfileSet = match FirewallProfileSet::parse_json(raw) {
        Err(e) => return Err(e),
        Ok(set) => set,
    };
    let address: String = match controller_ipv4 {
        None => return Err("EDGE_CONTROLLER_IPV4 is required for access authority".to_owned()),
        Some(address) => address.clone(),
    };
    let given: Option<&str> = Some(address.as_str());
    assert(given.deep_view() == controller_ipv4.deep_view());
    match load_firewall_profiles(desired, raw, given) {
        Err(e) => Err(e),
        Ok(resolved) => Ok(AccessProfiles { unresolved, resolved, controller_ipv4: address }),
    }
}

/// Why the profile of that name does not give the controller access, if it does
/// not.
pub open spec fn closed_profile(profiles: Seq<ProfileText>, name: Seq<char>) -> Option<Seq<char>> {
    match profile_at(profiles, name) {
        None => Some("firewall profile "@ + name + " is not defined"@),
        Some(i) => if has_placeholder(profiles[i].rules) {
            None
        } else {
            Some("firewall profile "@ + name + " has no @controller-ipv4 rule"@)
        },
    }
}

/// Begins to judge the controller's access to a machine: finds the machine's
/// profile, reads the registry and checks that the profile gives access at all.
pub fn build_access_authority(
    desired: &DesiredState,
    machine: &MachineSpec,
    raw: &str,
    controller_ipv4: &Option<String>,
) -> (r: Result<(String, AccessProfiles), String>)
    ensures
        match machine.provider.firewall_profile {
            None => r matches Err(e) && e@ == "machine "@ + machine.id@ + purpose_words(
                AccessPurpose::Authority,
            ),
            Some(name) => match access_profiles(
                desired.machines@,
                raw@,
                controller_ipv4.deep_view(),
            ) {
                Err(words) => r matches Err(e) && e@ == words,
                Ok((unresolved, resolved)) => match closed_profile(unresolved, name@) {
                    Some(words) => r matches Err(e) && e@ == words,
                    None => r matches Ok((n, held)) && n == name && holds_access_profiles(
                        held,
                        unresolved,
                        resolved,
                        controller_ipv4.deep_view(),
                    ),
                },
            },
        },
{
    let name: String = match require_firewall_profile(machine, AccessPurpose::Authority) {
        Err(e) => return Err(e),
        Ok(name) => name,
    };
    let held: AccessProfiles = match load_access_authority_profiles(
        desired,
        raw,
        controller_ipv4,
    ) {
        Err(e) => return Err(e),
        Ok(held) => held,
    };
    match check_access_profile(name.as_str(), &held.unresolved) {
        Err(e) => Err(e),
        Ok(()) => Ok((name, held)),
    }
}

/// A command that changes something under an authorized plan.
#[derive(Debug, Clone, Copy, PartialEq, Eq, Structural)]
pub enum GuardedCommand {
    AcquireAccess,
    ReleaseAccess,
    Cleanup,
}

/// What an authorized plan leads to.
#[derive(Debug, PartialEq, Eq)]
pub enum GuardedCourse {
    /// There is nothing to do.
    Stop,
    /// Make the change.
    Go,
    Fail(String),
}

/// The error for a plan that may not be carried out.
pub open spec fn blocked_words(command: GuardedCommand, machine: Seq<char>) -> Seq<char> {
    match command {
        GuardedCommand::AcquireAccess => "acquire-access is blocked for machine "@ + machine
            + " by exact authorized plan"@,
        GuardedCommand::ReleaseAccess => "release-access is blocked for machine "@ + machine
            + " by exact authorized plan"@,
        GuardedCommand::Cleanup => "support-resource cleanup is blocked by exact authorized plan"@,
    }
}

/// The error for a change after which something is still to be done.
pub open spec fn unconverged_words(command: GuardedCommand, machine: Seq<char>) -> Seq<char> {
    match command {
        GuardedCommand::AcquireAccess =>
        "firewall access reconciliation completed but machine "@ + machine
            + " did not converge to NOOP"@,
        GuardedCommand::ReleaseAccess => "controller SSH access cleanup did not converge to NOOP"@,
        GuardedCommand::Cleanup => "support-resource cleanup did not converge to NOOP"@,
    }
}

/// Takes a plan into account, and whether it is the one that was authorized.
/// The change is made only on an authorized plan to make it.
pub fn guard(
    command: GuardedCommand,
    machine_id: &str,
    authority: Result<(), String>,
    disposition: PlanDisposition,
) -> (r: GuardedCourse)
    ensures
        match authority {
            Err(words) => r == GuardedCourse::Fail(words),
            Ok(()) => match disposition {
                PlanDisposition::Noop => r is Stop,
                PlanDisposition::Mutate => r is Go,
                PlanDisposition::Blocked => r matches GuardedCourse::Fail(e) && e@
                    == blocked_words(command, machine_id@),
            },
        },
        r is Go ==> authority is Ok && disposition is Mutate,
{
    match authority {
        Err(e) => return GuardedCourse::Fail(e),
        Ok(()) => {},
    }
    match disposition {
        PlanDisposition::Noop => GuardedCourse::Stop,
        PlanDisposition::Mutate => GuardedCourse::Go,
        PlanDisposition::Blocked => GuardedCourse::Fail(
            match command {
                GuardedCommand::AcquireAccess => cat3(
                    "acquire-access is blocked for machine ",
                    machine_id,
                    " by exact authorized plan",
                ),
                GuardedCommand::ReleaseAccess => cat3(
                    "release-access is blocked for machine ",
                    machine_id,
                    " by exact authorized plan",
                ),
                GuardedCommand::Cleanup =>
                "support-resource cleanup is blocked by exact authorized plan".to_owned(),
            },
        ),
    }
}

/// Checks the plan that is drawn up after the change: nothing may be left to
/// do.
pub fn check_converged(
    command: GuardedCommand,
    machine_id: &str,
    disposition: PlanDisposition,
) -> (r: Result<(), String>)
    ensures
        match r {
            Ok(()) => disposition is Noop,
            Err(e) => !(disposition is Noop) && e@ == unconverged_words(command, machine_id@),
        },
{
    match disposition {
        PlanDisposition::Noop => Ok(()),
        _ => Err(
            match command {
                GuardedCommand::AcquireAccess => cat3(
                    "firewall access reconciliation completed but machine ",
                    machine_id,
                    " did not converge to NOOP",
                ),
                GuardedCommand::ReleaseAccess =>
                "controller SSH access cleanup did not converge to NOOP".to_owned(),
                GuardedCommand::Cleanup =>
                "support-resource cleanup did not converge to NOOP".to_owned(),
            },
        ),
    }
}

/// What an action is going to do to a machine in its present state.
pub open spec fn action_plan(action: InstanceAction, i: VultrInstance) -> (
    PlanDisposition,
    Seq<char>,
) {
    match action {
        InstanceAction::Start => if i.power_status@ == "running"@ {
            (PlanDisposition::Noop, "NOOP"@)
        } else if i.power_status@ == "stopped"@ {
            (PlanDisposition::Mutate, "START"@)
        } else {
            (PlanDisposition::Blocked, "BLOCKED"@)
        },
        InstanceAction::Halt => if i.power_status@ == "stopped"@ {
            (PlanDisposition::Noop, "NOOP"@)
        } else if i.power_status@ == "running"@ {
            (PlanDisposition::Mutate, "HALT"@)
        } else {
            (PlanDisposition::Blocked, "BLOCKED"@)
        },
        InstanceAction::Reboot => if i.power_status@ == "running"@ && i.status@ == "active"@
            && i.server_status@ == "ok"@ {
            (PlanDisposition::Mutate, "REBOOT"@)
        } else {
            (PlanDisposition::Blocked, "BLOCKED"@)
        },
    }
}

/// What an action is going to do to a machine in its present state.
pub fn instance_action_disposition(action: InstanceAction, observed: &VultrInstance) -> (r: (
    PlanDisposition,
    &'static str,
))
    ensures
        (r.0, r.1@) == action_plan(action, *observed),
{
    let power: &str = observed.power_status.as_str();
    match action {
        InstanceAction::Start => {
            if same(power, "running") {
                (PlanDisposition::Noop, "NOOP")
            } else if same(power, "stopped") {
                (PlanDisposition::Mutate, "START")
            } else {
                (PlanDisposition::Blocked, "BLOCKED")
            }
        },
        InstanceAction::Halt => {
            if same(power, "stopped") {
                (PlanDisposition::Noop, "NOOP")
            } else if same(power, "running") {
                (PlanDisposition::Mutate, "HALT")
            } else {
                (PlanDisposition::Blocked, "BLOCKED")
            }
        },
        InstanceAction::Reboot => {
            if same(power, "running") && same(observed.status.as_str(), "active") && same(
                observed.server_status.as_str(),
                "ok",
            ) {
                (PlanDisposition::Mutate, "REBOOT")
            } else {
                (PlanDisposition::Blocked, "BLOCKED")
            }
        },
    }
}

/// Once an action to start or to halt has taken effect, there is nothing left
/// to do.
pub proof fn law_an_effective_action_leaves_nothing_to_do(
    action: InstanceAction,
    reply: crate::once::Reply,
    i: VultrInstance,
)
    requires
        !(action is Reboot),
        action_took_effect(action, reply, i),
    ensures
        action_plan(action, i) == (PlanDisposition::Noop, "NOOP"@),
{
}

/// The machine at the provider that an action is meant for, or else why there
/// is none.
pub open spec fn action_target(machine: Seq<char>, plan: MachinePlan, result: Result<
    String,
    Seq<char>,
>) -> bool {
    if !(plan.class is Noop) {
        result == Err::<String, Seq<char>>(
            "instance action requires exact NOOP provider identity; machine "@ + machine + " is "@
                + class_words(plan.class) + ": "@ + reasons_words(plan),
        )
    } else {
        match plan.provider_id {
            None => result == Err::<String, Seq<char>>("NOOP plan is missing provider id"@),
            Some(id) => result == Ok::<String, Seq<char>>(id),
        }
    }
}

/// The machine at the provider that an action is meant for: one that is there
/// exactly as wanted.
pub fn find_action_target(machine_id: &str, plan: &MachinePlan) -> (r: Result<String, String>)
    ensures
        match r {
            Ok(id) => action_target(machine_id@, *plan, Ok(id)),
            Err(e) => action_target(machine_id@, *plan, Err(e@)),
        },
{
    match plan.class {
        PlanClass::Noop => match copy_option(&plan.provider_id) {
            None => Err("NOOP plan is missing provider id".to_owned()),
            Some(id) => Ok(id),
        },
        _ => Err(
            cat6(
                "instance action requires exact NOOP provider identity; machine ",
                machine_id,
                " is ",
                plan.class.name(),
                ": ",
                plan.reasons_line().as_str(),
            ),
        ),
    }
}

/// Checks that the provider showed the machine that it was asked for.
pub fn check_observed_identity(observed: &VultrInstance, provider_id: &str) -> (r: Result<
    (),
    String,
>)
    ensures
        match r {
            Ok(()) => observed.id@ == provider_id@,
            Err(e) => observed.id@ != provider_id@ && e@
                == "instance action observation returned unexpected provider id "@ + observed.id@
                + " for "@ + provider_id@,
        },
{
    if same(observed.id.as_str(), provider_id) {
        Ok(())
    } else {
        Err(
            cat4(
                "instance action observation returned unexpected provider id ",
                observed.id.as_str(),
                " for ",
                provider_id,
            ),
        )
    }
}

/// Takes the plan of an action into account, and whether it is the one that
/// was authorized.
pub fn guard_action(
    machine_id: &str,
    action: InstanceAction,
    authority: Result<(), String>,
    observed: &VultrInstance,
) -> (r: GuardedCourse)
    ensures
        match authority {
            Err(words) => r == GuardedCourse::Fail(words),
            Ok(()) => match action_plan(action, *observed).0 {
                PlanDisposition::Noop => r is Stop,
                PlanDisposition::Mutate => r is Go,
                PlanDisposition::Blocked => r matches GuardedCourse::Fail(e) && e@ == "instance "@
                    + machine_id@ + " action "@ + action_word(action)
                    + " is blocked by current operational state: power_status="@
                    + observed.power_status@ + " status="@ + observed.status@ + " server_status="@
                    + observed.server_status@,
            },
        },
{
    match authority {
        Err(e) => return GuardedCourse::Fail(e),
        Ok(()) => {},
    }
    match instance_action_disposition(action, observed).0 {
        PlanDisposition::Noop => GuardedCourse::Stop,
        PlanDisposition::Mutate => GuardedCourse::Go,
        PlanDisposition::Blocked => GuardedCourse::Fail(
            cat10(
                "instance ",
                machine_id,
                " action ",
                action.as_str(),
                " is blocked by current operational state: power_status=",
                observed.power_status.as_str(),
                " status=",
                observed.status.as_str(),
                " server_status=",
                observed.server_status.as_str(),
            ),
        ),
    }
}

/// Whether an action is planned again once it is done. A reboot leaves nothing
/// by which a second plan could tell it from the first.
pub fn replans_after(action: InstanceAction) -> (r: bool)
    ensures
        r == !(action is Reboot),
{
    match action {
        InstanceAction::Reboot => false,
        _ => true,
    }
}

/// Checks the plan that is drawn up after an action.
pub fn check_action_converged(action: InstanceAction, disposition: PlanDisposition) -> (r: Result<
    (),
    String,
>)
    ensures
        match r {
            Ok(()) => disposition is Noop,
            Err(e) => !(disposition is Noop) && e@ == "instance action "@ + action_word(action)
                + " completed but did not converge to NOOP"@,
        },
{
    match disposition {
        PlanDisposition::Noop => Ok(()),
        _ => Err(
            cat3(
                "instance action ",
                action.as_str(),
                " completed but did not converge to NOOP",
            ),
        ),
    }
}

/// A firewall is brought in line only under an authorized plan to make or to
/// change the machine, and only that of the machine's own profile; a plan that
/// is blocked, or would replace the machine, never gets so far.
pub proof fn law_an_apply_begins_with_authority(
    machine: MachineSpec,
    plan: MachinePlan,
    authority: Result<(), String>,
    profiles: Option<FirewallProfileSet>,
    r: Result<ApplyCourse, String>,
)
    requires
        call_ensures(begin_run_apply, (&machine, &plan, authority, &profiles), r),
    ensures
        r is Ok ==> authority is Ok,
        authority matches Err(e) ==> r == Err::<ApplyCourse, String>(e),
        plan.class is BlockedDrift || plan.class is BlockedAmbiguous
            || plan.class is ReplaceRequired ==> r is Err,
        authority is Ok && plan.class is Noop ==> r == Ok::<ApplyCourse, String>(
            ApplyCourse::PlanAgain,
        ),
        r matches Ok(ApplyCourse::EnsureFirewall { profile }) ==> (plan.class is Create
            || plan.class is UpdateInPlace) && machine.provider.firewall_profile == Some(profile)
            && profiles is Some,
        authority is Ok && (plan.class is Create || plan.class is UpdateInPlace)
            && machine.provider.firewall_profile is None ==> r == Ok::<ApplyCourse, String>(
            ApplyCourse::PlanAgain,
        ),
        (plan.class is Create || plan.class is UpdateInPlace)
            && machine.provider.firewall_profile is Some && profiles is None ==> r is Err,
{
}

/// A machine is prepared for only where the second plan is to make it, under an
/// authority for that very plan. A change of the firewall alone is done once the
/// second plan has nothing left to do.
pub proof fn law_an_apply_goes_on_with_authority(
    machine: MachineSpec,
    initial: PlanClass,
    plan: MachinePlan,
    authority: Result<(), String>,
    r: Result<SecondCourse, String>,
)
    requires
        call_ensures(continue_run_apply, (&machine, initial, plan, authority), r),
    ensures
        r matches Ok(SecondCourse::Prepare) <==> authority is Ok && plan.class is Create && !(
        initial is UpdateInPlace),
        r matches Ok(SecondCourse::Proceed) ==> authority is Ok && !(plan.class is Create),
        r matches Ok(SecondCourse::Reconciled(report)) ==> initial is UpdateInPlace
            && plan.class is Noop && plan.provider_id == Some(report.provider_id)
            && report.action is Noop && report.machine_id@ == machine.id@ && report.final_plan
            == plan,
        initial is UpdateInPlace && !(plan.class is Noop) ==> r is Err,
        initial is UpdateInPlace && plan.class is Noop ==> (r is Ok <==> plan.provider_id is Some),
        !(initial is UpdateInPlace) ==> (r is Ok <==> authority is Ok),
{
}

/// Only a machine that was just made is scrubbed and gets a new certificate;
/// any other is only looked at. What is told of it is told only of the former.
pub proof fn law_only_new_machines_are_seen_to(
    report: ApplyReport,
    care: Aftercare,
    main_ip: String,
    support_reconciled: bool,
    scrub_changed: bool,
    rotated: bool,
    r: MachineApplyReport,
)
    requires
        call_ensures(aftercare, (report.action,), care),
        call_ensures(
            report_apply,
            (report, main_ip, support_reconciled, scrub_changed, rotated),
            r,
        ),
    ensures
        care is ScrubAndRotate <==> report.action is Created,
        r.user_data_scrub_changed ==> care is ScrubAndRotate && scrub_changed,
        r.host_certificate_rotated ==> care is ScrubAndRotate && rotated,
        care is ScrubAndRotate ==> r.user_data_scrub_changed == scrub_changed
            && r.host_certificate_rotated == rotated,
        r.user_data_scrubbed,
        r.provider_id@ == report.provider_id@,
        r.machine_id@ == report.machine_id@,
        r.main_ip@ == main_ip@,
        r.support_reconciled == support_reconciled,
        r.final_plan == report.final_plan,
{
}

/// What the making of a machine needs is gathered exactly where its start is the
/// one that there is, there is a key, and its firewall is that of its profile.
pub proof fn law_prerequisites_are_those_of_the_machine(
    machine: MachineSpec,
    ssh_key_id: &str,
    firewall: Option<ResolvedFirewallProfile>,
    cloud_init: String,
    r: Result<CreatePrerequisites, String>,
    sound: Result<(), String>,
)
    requires
        call_ensures(
            resolve_create_prerequisites,
            (&machine, ssh_key_id, &firewall, cloud_init),
            r,
        ),
        r matches Ok(p) ==> call_ensures(validate_create_prerequisites, (&machine, &p), sound),
    ensures
        r is Ok <==> {
            &&& machine.bootstrap_profile@ == "singbox-host-v2"@
            &&& !blank(ssh_key_id@)
            &&& machine.provider.firewall_profile is None <==> firewall is None
            &&& firewall matches Some(f) ==> f.profile_name@
                == machine.provider.firewall_profile->Some_0@
        },
        r matches Ok(p) ==> p.ssh_key_id@ == ssh_key_id@ && p.cloud_init@ == cloud_init@ && (
        firewall matches Some(f) ==> p.firewall_group_id == Some(f.id)) && (firewall is None
            ==> p.firewall_group_id is None),
        r is Ok && !blank(cloud_init@) && (firewall is Some ==> !blank(firewall->Some_0.id@))
            ==> sound is Ok,
{
}

/// Access is taken only where the firewall is all that differs from what is
/// wanted; where anything else does, it is blocked.
pub proof fn law_access_is_taken_only_by_the_firewall(
    plan: MachinePlan,
    class: AccessReconcileClass,
    r: AccessPlan,
)
    requires
        call_ensures(access_reconcile_class, (&plan,), class),
        call_ensures(plan_access_acquisition, (&plan,), r),
    ensures
        class is Noop <==> plan.class is Noop,
        class is FirewallOnly <==> plan.class is UpdateInPlace && plan.reasons@.len() > 0
            && forall|i: int|
            0 <= i < plan.reasons@.len() ==> (#[trigger] plan.reasons@[i])@
                == "firewall profile differs or is not provider-verified"@,
        r.disposition is Noop <==> class is Noop,
        r.disposition is Mutate <==> class is FirewallOnly,
        r.disposition is Blocked <==> class is Blocked,
        r.matching_rule_ids@.len() == 0,
{
}

proof fn lemma_granting_members(targets: Seq<RuleText>, observed: Seq<VultrFirewallRule>)
    requires
        granting_ids(targets, observed) is Ok,
    ensures
        forall|id: u64| #[trigger]
            (granting_ids(targets, observed)->Ok_0).contains(id) <==> exists|i: int|
                0 <= i < observed.len() && (#[trigger] observed[i]).id == id && (reported_rule(
                    observed[i],
                ) matches Ok(rule) && grants(targets, rule)),
        forall|i: int| 0 <= i < observed.len() ==> reported_rule(#[trigger] observed[i]) is Ok,
    decreases observed.len(),
{
    if observed.len() > 0 {
        let head = observed.drop_last();
        lemma_granting_members(targets, head);
        let before = granting_ids(targets, head)->Ok_0;
        let out = granting_ids(targets, observed)->Ok_0;
        let n = observed.len() - 1;
        assert(observed[n] == observed.last());
        assert forall|i: int| 0 <= i < observed.len() implies reported_rule(
            #[trigger] observed[i],
        ) is Ok by {
            if i < n {
                assert(head[i] == observed[i]);
            }
        }
        assert forall|id: u64| #[trigger] out.contains(id) <==> exists|i: int|
            0 <= i < observed.len() && (#[trigger] observed[i]).id == id && (reported_rule(
                observed[i],
            ) matches Ok(rule) && grants(targets, rule)) by {
            if out.contains(id) {
                let k = choose|k: int| 0 <= k < out.len() && out[k] == id;
                if k < before.len() {
                    assert(before[k] == id);
                    assert(before.contains(id));
                    let i = choose|i: int|
                        0 <= i < head.len() && (#[trigger] head[i]).id == id && (reported_rule(
                            head[i],
                        ) matches Ok(rule) && grants(targets, rule));
                    assert(observed[i] == head[i]);
                } else {
                    assert(observed[n].id == id);
                }
            }
            if exists|i: int|
                0 <= i < observed.len() && (#[trigger] observed[i]).id == id && (reported_rule(
                    observed[i],
                ) matches Ok(rule) && grants(targets, rule)) {
                let i = choose|i: int|
                    0 <= i < observed.len() && (#[trigger] observed[i]).id == id && (reported_rule(
                        observed[i],
                    ) matches Ok(rule) && grants(targets, rule));
                if i < n {
                    assert(head[i] == observed[i]);
                    assert(before.contains(id));
                    let k = choose|k: int| 0 <= k < before.len() && before[k] == id;
                    assert(out[k] == id);
                } else {
                    assert(out[before.len() as int] == id);
                }
            }
        }
    }
}

/// Giving access back is planned for exactly the rules that give it: the number
/// of every one of them stands in the plan, and no other.
pub proof fn law_all_access_is_planned_to_be_given_back(
    targets: Vec<FirewallRuleSpec>,
    observed: Vec<VultrFirewallRule>,
    r: Result<AccessPlan, String>,
    k: int,
    read: Result<FirewallRuleSpec, String>,
    granted: bool,
)
    requires
        call_ensures(plan_access_release, (&targets, &observed), r),
        0 <= k < observed@.len(),
        call_ensures(firewall_rule_spec, (&observed@[k],), read),
        read matches Ok(rule) ==> call_ensures(is_granted, (&targets, &rule), granted),
    ensures
        read is Err ==> r is Err,
        r matches Ok(plan) ==> {
            &&& granted ==> plan.matching_rule_ids@.contains(observed@[k].id)
            &&& granted ==> plan.disposition is Mutate
            &&& plan.disposition is Noop <==> plan.matching_rule_ids@.len() == 0
            &&& !(plan.disposition is Blocked)
            &&& forall|id: u64|
                plan.matching_rule_ids@.contains(id) ==> exists|i: int|
                    0 <= i < observed@.len() && (#[trigger] observed@[i]).id == id
        },
{
    let wanted = rule_texts(targets@);
    if granting_ids(wanted, observed@) is Ok {
        let ids = granting_ids(wanted, observed@)->Ok_0;
        lemma_granting_members(wanted, observed@);
        law_ascending_orders_and_keeps(ids);
        let shown = ascending(ids);
        ids.to_multiset_ensures();
        shown.to_multiset_ensures();
        assert(reported_rule(observed@[k]) is Ok);
        assert(shown.len() == ids.len());
        if granted {
            assert(ids.contains(observed@[k].id));
            assert(ids.to_multiset().count(observed@[k].id) > 0);
        }
        assert forall|id: u64| shown.contains(id) implies exists|i: int|
            0 <= i < observed@.len() && (#[trigger] observed@[i]).id == id by {
            assert(shown.to_multiset().count(id) > 0);
            assert(ids.contains(id));
        }
    } else {
        assert(r is Err);
    }
}

/// The change is made exactly where the plan is the authorized one and is to
/// make it; nothing is done where there is nothing to do, and everything else
/// fails. Afterwards nothing may be left to do.
pub proof fn law_changes_are_made_under_authority(
    command: GuardedCommand,
    machine_id: &str,
    authority: Result<(), String>,
    disposition: PlanDisposition,
    r: GuardedCourse,
    after: Result<(), String>,
)
    requires
        call_ensures(guard, (command, machine_id, authority, disposition), r),
        call_ensures(check_converged, (command, machine_id, disposition), after),
    ensures
        r is Go <==> authority is Ok && disposition is Mutate,
        r is Stop <==> authority is Ok && disposition is Noop,
        authority matches Err(e) ==> r == GuardedCourse::Fail(e),
        after is Ok <==> disposition is Noop,
{
}

/// A machine is started only where it is stopped, halted only where it runs,
/// and rebooted only where it runs and is well; what is so already is left
/// alone, and what is neither is refused. Each is done under authority only.
pub proof fn law_actions_fit_the_state_of_the_machine(
    machine_id: &str,
    action: InstanceAction,
    authority: Result<(), String>,
    observed: VultrInstance,
    planned: (PlanDisposition, &'static str),
    r: GuardedCourse,
)
    requires
        call_ensures(instance_action_disposition, (action, &observed), planned),
        call_ensures(guard_action, (machine_id, action, authority, &observed), r),
    ensures
        r is Go <==> authority is Ok && planned.0 is Mutate,
        r is Stop <==> authority is Ok && planned.0 is Noop,
        authority matches Err(e) ==> r == GuardedCourse::Fail(e),
        action is Start ==> {
            &&& planned.0 is Mutate <==> observed.power_status@ == "stopped"@
            &&& planned.0 is Noop <==> observed.power_status@ == "running"@
        },
        action is Halt ==> {
            &&& planned.0 is Mutate <==> observed.power_status@ == "running"@
            &&& planned.0 is Noop <==> observed.power_status@ == "stopped"@
        },
        action is Reboot ==> {
            &&& planned.0 is Mutate <==> observed.power_status@ == "running"@ && observed.status@
                == "active"@ && observed.server_status@ == "ok"@
            &&& !(planned.0 is Noop)
        },
        planned.1@ == match planned.0 {
            PlanDisposition::Noop => "NOOP"@,
            PlanDisposition::Blocked => "BLOCKED"@,
            PlanDisposition::Mutate => match action {
                InstanceAction::Start => "START"@,
                InstanceAction::Halt => "HALT"@,
                InstanceAction::Reboot => "REBOOT"@,
            },
        },
{
    reveal_strlit("running");
    reveal_strlit("stopped");
    assert("running"@[0] == 'r');
    assert("stopped"@[0] == 's');
}

/// An action is meant for the machine that is there exactly as wanted, and the
/// provider has to show that very machine.
pub proof fn law_actions_are_for_machines_as_wanted(
    machine_id: &str,
    plan: MachinePlan,
    target: Result<String, String>,
    observed: VultrInstance,
    provider_id: &str,
    shown: Result<(), String>,
)
    requires
        call_ensures(find_action_target, (machine_id, &plan), target),
        call_ensures(check_observed_identity, (&observed, provider_id), shown),
    ensures
        target is Ok <==> plan.class is Noop && plan.provider_id is Some,
        target matches Ok(id) ==> plan.provider_id == Some(id),
        shown is Ok <==> observed.id@ == provider_id@,
{
}

/// An action that can be seen in the plan is planned again afterwards, and must
/// then leave nothing to do; a reboot cannot.
pub proof fn law_actions_are_looked_into_afterwards(
    action: InstanceAction,
    again: bool,
    disposition: PlanDisposition,
    r: Result<(), String>,
)
    requires
        call_ensures(replans_after, (action,), again),
        call_ensures(check_action_converged, (action, disposition), r),
    ensures
        again <==> action is Start || action is Halt,
        r is Ok <==> disposition is Noop,
{
}

/// The commands are told apart by their words, and every one that changes
/// something takes the digest that authorizes it: one word more than the one
/// that only plans it.
pub proof fn law_changing_commands_take_their_authority(plan: Vec<String>, change: Vec<String>, p: VultrCommand, c: VultrCommand)
    requires
        call_ensures(read_vultr_command, (&plan,), Ok::<VultrCommand, String>(p)),
        call_ensures(read_vultr_command, (&change,), Ok::<VultrCommand, String>(c)),
    ensures
        p is AcquireAccessPlan && c is AcquireAccess ==> change@.len() == plan@.len() + 1,
        p is ReleaseAccessPlan && c is ReleaseAccess ==> change@.len() == plan@.len() + 1,
        p is ActionPlan && c is Action ==> change@.len() == plan@.len() + 1,
        p is DestroyPlan && c is DestroyApply ==> change@.len() == plan@.len() + 2,
        p is CleanupPlan && c is Cleanup ==> change@.len() == plan@.len() + 1,
        c is Apply ==> change@.len() == 4,
        c is Apply <==> change@[0]@ == "apply"@,
        c is AcquireAccess <==> change@[0]@ == "acquire-access"@,
        c is ReleaseAccess <==> change@[0]@ == "release-access"@,
        c is Action <==> change@[0]@ == "action"@,
        c is DestroyApply <==> change@[0]@ == "destroy-apply"@,
        c is Cleanup <==> change@[0]@ == "cleanup"@,
{
    reveal_strlit("doctor");
    reveal_strlit("inventory");
    reveal_strlit("plan");
    reveal_strlit("apply");
    reveal_strlit("acquire-access-plan");
    reveal_strlit("acquire-access");
    reveal_strlit("release-access-plan");
    reveal_strlit("release-access");
    reveal_strlit("action-plan");
    reveal_strlit("action");
    reveal_strlit("destroy-plan");
    reveal_strlit("destroy-apply");
    reveal_strlit("cleanup-plan");
    reveal_strlit("cleanup");
    assert("acquire-access"@[0] == 'a' && "release-access"@[0] == 'r');
    assert("acquire-access-plan"@[0] == 'a' && "release-access-plan"@[0] == 'r');
    assert("doctor"@[0] == 'd' && "action"@[0] == 'a');
    assert("destroy-plan"@[0] == 'd' && "cleanup-plan"@[0] == 'c');
    let x = texts(plan@);
    let y = texts(change@);
    assert(x.len() == plan@.len() && y.len() == change@.len());
    if plan@.len() > 0 {
        assert(x[0] == plan@[0]@);
    }
    if change@.len() > 0 {
        assert(y[0] == change@[0]@);
    }
}

/// The registry is read exactly where some machine has a profile.
pub proof fn law_the_registry_is_needed_for_profiles(desired: DesiredState, r: bool)
    requires
        call_ensures(needs_profiles, (&desired,), r),
    ensures
        r <==> exists|i: int|
            0 <= i < desired.machines@.len() && (
            #[trigger] desired.machines@[i]).provider.firewall_profile is Some,
{
    lemma_some_profile(desired.machines@);
}

proof fn lemma_some_profile(machines: Seq<MachineSpec>)
    ensures
        profile_names(machines).len() > 0 <==> exists|i: int|
            0 <= i < machines.len() && (#[trigger] machines[i]).provider.firewall_profile is Some,
    decreases machines.len(),
{
    if machines.len() > 0 {
        let head = machines.drop_last();
        lemma_some_profile(head);
        assert(machines[machines.len() - 1] == machines.last());
        if profile_names(head).len() > 0 {
            let i = choose|i: int|
                0 <= i < head.len() && (#[trigger] head[i]).provider.firewall_profile is Some;
            assert(machines[i] == head[i]);
        }
        if exists|i: int|
            0 <= i < machines.len() && (#[trigger] machines[i]).provider.firewall_profile is Some {
            let i = choose|i: int|
                0 <= i < machines.len() && (
                #[trigger] machines[i]).provider.firewall_profile is Some;
            if i < head.len() {
                assert(head[i] == machines[i]);
            }
        }
    }
}

/// A machine is set up by the one profile there is, and by no other.
pub proof fn law_machines_are_set_up_by_the_known_profile(machine: MachineSpec, r: Result<(), String>)
    requires
        call_ensures(check_bootstrap_profile, (&machine,), r),
    ensures
        r is Ok <==> machine.bootstrap_profile@ == "singbox-host-v2"@,
{
}

/// A machine's firewall is the one that it names.
pub proof fn law_a_machines_firewall_is_the_one_it_names(
    machine: MachineSpec,
    purpose: AccessPurpose,
    r: Result<String, String>,
)
    requires
        call_ensures(require_firewall_profile, (&machine, purpose), r),
    ensures
        machine.provider.firewall_profile is Some <==> r is Ok,
        r matches Ok(name) ==> machine.provider.firewall_profile == Some(name),
{
}

/// Access is asked for only by a profile that is defined and leaves a rule open
/// for the controller.
pub proof fn law_access_needs_a_rule_for_the_controller(
    name: &str,
    profiles: FirewallProfileSet,
    r: Result<(), String>,
)
    requires
        profiles.wf(),
        call_ensures(check_access_profile, (name, &profiles), r),
    ensures
        r is Ok <==> exists|i: int, k: int|
            0 <= i < profiles@.len() && profiles@[i].name == name@ && 0 <= k
                < profiles@[i].rules.len() && (#[trigger] profiles@[i].rules[k]).subnet
                == "@controller-ipv4"@,
{
    law_profile_is_found_by_name(profiles@, name@);
    if r is Ok {
        let i = profile_at(profiles@, name@)->0;
        let k = choose|k: int|
            0 <= k < profiles@[i].rules.len() && is_placeholder(#[trigger] profiles@[i].rules[k]);
        assert(profiles@[i].rules[k].subnet == "@controller-ipv4"@);
    }
    if exists|i: int, k: int|
        0 <= i < profiles@.len() && profiles@[i].name == name@ && 0 <= k < profiles@[i].rules.len()
            && (#[trigger] profiles@[i].rules[k]).subnet == "@controller-ipv4"@ {
        let (i, k) = choose|i: int, k: int|
            0 <= i < profiles@.len() && profiles@[i].name == name@ && 0 <= k
                < profiles@[i].rules.len() && (#[trigger] profiles@[i].rules[k]).subnet
                == "@controller-ipv4"@;
        assert(profile_at(profiles@, name@) == Some(i));
        assert(is_placeholder(profiles@[i].rules[k]));
    }
}

/// The authority for access is for the machine's own profile and the address that
/// was given; without either there is none.
pub proof fn law_authority_for_access_is_for_the_machines_profile(
    desired: DesiredState,
    machine: MachineSpec,
    raw: &str,
    controller_ipv4: Option<String>,
    r: Result<(String, AccessProfiles), String>,
)
    requires
        call_ensures(build_access_authority, (&desired, &machine, raw, &controller_ipv4), r),
    ensures
        machine.provider.firewall_profile is None ==> r is Err,
        controller_ipv4 is None ==> r is Err,
        r matches Ok((name, held)) ==> {
            &&& machine.provider.firewall_profile == Some(name)
            &&& controller_ipv4.deep_view() == Some(held.controller_ipv4@)
            &&& held.unresolved.wf()
            &&& held.resolved.wf()
            &&& exists|i: int, k: int|
                0 <= i < held.unresolved@.len() && held.unresolved@[i].name == name@ && 0 <= k
                    < held.unresolved@[i].rules.len() && (
                #[trigger] held.unresolved@[i].rules[k]).subnet == "@controller-ipv4"@
        },
{
    if let Ok((name, held)) = r {
        let i = profile_at(held.unresolved@, name@)->0;
        law_profile_is_found_by_name(held.unresolved@, name@);
        let k = choose|k: int|
            0 <= k < held.unresolved@[i].rules.len() && is_placeholder(
                #[trigger] held.unresolved@[i].rules[k],
            );
        assert(held.unresolved@[i].rules[k].subnet == "@controller-ipv4"@);
    }
}

proof fn lemma_all_defined(profiles: Seq<ProfileText>, names: Seq<Seq<char>>, k: int)
    requires
        first_undefined(profiles, names) is None,
        0 <= k < names.len(),
    ensures
        profile_at(profiles, names[k]) is Some,
    decreases names.len(),
{
    if k > 0 {
        assert(names.drop_first()[k - 1] == names[k]);
        lemma_all_defined(profiles, names.drop_first(), k - 1);
    }
}

/// Once the profiles are read, every machine has the one that it names, and that
/// one no longer leaves the controller's address open.
pub proof fn law_every_machine_has_its_profile_filled_in(
    desired: DesiredState,
    raw: &str,
    controller_ipv4: Option<&str>,
    r: Result<FirewallProfileSet, String>,
    m: int,
)
    requires
        call_ensures(load_firewall_profiles, (&desired, raw, controller_ipv4), r),
        0 <= m < desired.machines@.len(),
    ensures
        r matches Ok(set) ==> (desired.machines@[m].provider.firewall_profile matches Some(name)
            ==> exists|i: int|
            0 <= i < set@.len() && (#[trigger] set@[i]).name == name@ && forall|k: int|
                0 <= k < set@[i].rules.len() ==> (#[trigger] set@[i].rules[k]).subnet
                    != "@controller-ipv4"@),
{
    if let Ok(set) = r {
        if let Some(name) = desired.machines@[m].provider.firewall_profile {
            let names = texts(profile_names(desired.machines@));
            lemma_profile_names(desired.machines@, name@);
            assert(names.contains(name@));
            let k = choose|k: int| 0 <= k < names.len() && names[k] == name@;
            let profiles = registry_text(raw@)->Ok_0;
            let ipv4 = controller_ipv4.deep_view();
            assert(resolution(profiles, names, ipv4) == (set@, None::<Seq<char>>));
            assert(distinct_names(profiles)) by {
                if needs_controller(profiles, names) {
                    lemma_resolved_keeps_names(profiles, names, ipv4->0);
                    assert forall|i: int, j: int| 0 <= i < j < profiles.len() implies
                        #[trigger] profiles[i].name != #[trigger] profiles[j].name by {
                        assert(set@[i].name == profiles[i].name);
                        assert(set@[j].name == profiles[j].name);
                    }
                }
            }
            law_resolution_leaves_nothing_open(profiles, names, ipv4, k);
            lemma_all_defined(set@, names, k);
            law_profile_is_found_by_name(set@, name@);
            let i = profile_at(set@, name@)->0;
            assert(set@[i].name == name@);
            assert forall|q: int| 0 <= q < set@[i].rules.len() implies (
            #[trigger] set@[i].rules[q]).subnet != "@controller-ipv4"@ by {
                assert(!is_placeholder(set@[i].rules[q]));
            }
        }
    }
}

/// The profiles for access are read only with the controller's address, and then
/// as written beside as filled in.
pub proof fn law_profiles_for_access_need_the_controllers_address(
    desired: DesiredState,
    raw: &str,
    controller_ipv4: Option<String>,
    r: Result<AccessProfiles, String>,
)
    requires
        call_ensures(load_access_authority_profiles, (&desired, raw, &controller_ipv4), r),
    ensures
        controller_ipv4 is None ==> r is Err,
        r matches Ok(held) ==> {
            &&& controller_ipv4.deep_view() == Some(held.controller_ipv4@)
            &&& held.unresolved.wf()
            &&& held.resolved.wf()
            &&& registry_text(raw@) == Ok::<Seq<ProfileText>, Seq<char>>(held.unresolved@)
            &&& held.resolved@.len() == held.unresolved@.len()
            &&& forall|i: int|
                0 <= i < held.resolved@.len() ==> (#[trigger] held.resolved@[i]).name
                    == held.unresolved@[i].name
        },
{
    if let Ok(held) = r {
        let names = texts(profile_names(desired.machines@));
        let ipv4 = controller_ipv4.deep_view();
        if needs_controller(held.unresolved@, names) {
            lemma_resolved_keeps_names(held.unresolved@, names, ipv4->0);
        }
    }
}

/// The plan that is acted on is the first one, where there is one.
pub proof fn law_the_first_plan_is_acted_on(
    plans: &Vec<MachinePlan>,
    machine_id: &str,
    r: Result<&MachinePlan, String>,
)
    requires
        call_ensures(first_plan, (plans, machine_id), r),
    ensures
        r is Ok <==> plans@.len() > 0,
        r matches Ok(plan) ==> *plan == plans@[0],
{
}

/// Where nothing is made, nothing is held ready but the profile that the machine
/// is set up by.
pub proof fn law_nothing_is_held_ready_where_nothing_is_made(
    machine: MachineSpec,
    r: CreatePrerequisites,
)
    requires
        call_ensures(empty_create_prerequisites, (&machine,), r),
    ensures
        r.bootstrap_profile@ == machine.bootstrap_profile@,
        r.ssh_key_id@.len() == 0 && r.cloud_init@.len() == 0,
        r.firewall_group_id is None && r.firewall_profile is None,
{
}

} // verus!
