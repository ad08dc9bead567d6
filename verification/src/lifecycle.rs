//! Making and destroying one machine at the provider.

use crate::machine::{MachinePlan, MachineSpec, PlanClass, class_words, reasons_words};
use crate::once::{
    Ask, Ending, Next, Phase, ProviderFault, Reply, Sight, carries, creation_reply, on_reply,
    read_creation, read_removal, removal_reply,
};
use crate::text::{blank, cat3, cat4, cat5, cat6, copy_option, decimal, is_blank, number, same};
use vstd::prelude::*;
use vstd::string::*;

verus! {

/// How often, and with what pause, the provider is looked at after a request.
#[derive(Debug, Clone, PartialEq, Eq)]
pub struct LifecycleExecutionPolicy {
    pub create_reobserve_attempts: usize,
    pub destroy_reobserve_attempts: usize,
    pub reobserve_delay_secs: u64,
}

impl Default for LifecycleExecutionPolicy {
    fn default() -> (r: LifecycleExecutionPolicy)
        ensures
            r.create_reobserve_attempts == 30,
            r.destroy_reobserve_attempts == 180,
            r.reobserve_delay_secs == 2,
    {
        LifecycleExecutionPolicy {
            create_reobserve_attempts: 30,
            destroy_reobserve_attempts: 180,
            reobserve_delay_secs: 2,
        }
    }
}

/// Checks that both kinds of requests are looked at afterwards.
pub fn validate_policy(policy: &LifecycleExecutionPolicy) -> (r: Result<(), String>)
    ensures
        match r {
            Ok(()) => policy.create_reobserve_attempts > 0 && policy.destroy_reobserve_attempts > 0,
            Err(e) => if policy.create_reobserve_attempts == 0 {
                e@ == "create re-observation attempts must be greater than zero"@
            } else {
                policy.destroy_reobserve_attempts == 0 && e@
                    == "destroy re-observation attempts must be greater than zero"@
            },
        },
{
    if policy.create_reobserve_attempts == 0 {
        return Err("create re-observation attempts must be greater than zero".to_owned());
    }
    if policy.destroy_reobserve_attempts == 0 {
        return Err("destroy re-observation attempts must be greater than zero".to_owned());
    }
    Ok(())
}

/// Access to the machines of a provider account.
pub struct VultrApiProvider {
    api_key: String,
}

impl VultrApiProvider {
    pub closed spec fn key(self) -> String {
        self.api_key
    }

    pub fn new(api_key: String) -> (r: Result<VultrApiProvider, String>)
        ensures
            match r {
                Ok(p) => !blank(api_key@) && p.key() == api_key,
                Err(e) => blank(api_key@) && e@ == "VULTR_API_KEY must be non-empty"@,
            },
    {
        if is_blank(api_key.as_str()) {
            return Err("VULTR_API_KEY must be non-empty".to_owned());
        }
        Ok(VultrApiProvider { api_key })
    }

    pub fn api_key(&self) -> (r: &str)
        ensures
            r@ == self.key()@,
    {
        self.api_key.as_str()
    }
}

/// What the making of a machine needs besides its specification.
#[derive(Debug, Clone, PartialEq, Eq)]
pub struct CreatePrerequisites {
    pub bootstrap_profile: String,
    pub ssh_key_id: String,
    pub cloud_init: String,
    pub firewall_group_id: Option<String>,
    pub firewall_profile: Option<String>,
}

/// A request to make a machine.
#[derive(Debug, Clone, PartialEq, Eq)]
pub struct OwnedCreateRequest {
    pub region: String,
    pub plan: String,
    pub os_id: Option<u32>,
    pub snapshot_id: Option<String>,
    pub label: String,
    pub ssh_key_id: String,
    pub cloud_init: String,
    pub firewall_group_id: Option<String>,
    pub tags: Vec<String>,
    pub enable_ipv6: bool,
}

/// Why a machine cannot be made from what is at hand, if it cannot.
pub open spec fn prerequisites_fault(machine: MachineSpec, given: CreatePrerequisites) -> Option<
    Seq<char>,
> {
    if given.bootstrap_profile@ != machine.bootstrap_profile@ {
        Some(
            "bootstrap prerequisite profile "@ + given.bootstrap_profile@
                + " does not match desired profile "@ + machine.bootstrap_profile@,
        )
    } else if blank(given.ssh_key_id@) {
        Some("CREATE requires a resolved Vultr SSH key object id"@)
    } else if blank(given.cloud_init@) {
        Some("CREATE requires non-empty bootstrap user-data"@)
    } else {
        match machine.provider.firewall_profile {
            Some(expected) => if (given.firewall_profile matches Some(p) && p@ == expected@) && (
            given.firewall_group_id matches Some(id) && !blank(id@)) {
                None
            } else {
                Some(
                    "CREATE for machine "@ + machine.id@
                        + " requires a provider-verified firewall binding for profile "@ + expected@,
                )
            },
            None => if given.firewall_profile is Some || given.firewall_group_id is Some {
                Some(
                    "machine "@ + machine.id@
                        + " does not declare a firewall profile but CREATE prerequisites contain a firewall binding"@,
                )
            } else {
                None
            },
        }
    }
}

/// Checks what is at hand for the making of a machine.
pub fn validate_create_prerequisites(
    machine: &MachineSpec,
    prerequisites: &CreatePrerequisites,
) -> (r: Result<(), String>)
    ensures
        match r {
            Ok(()) => prerequisites_fault(*machine, *prerequisites) is None,
            Err(e) => prerequisites_fault(*machine, *prerequisites) == Some(e@),
        },
{
    if !same(prerequisites.bootstrap_profile.as_str(), machine.bootstrap_profile.as_str()) {
        return Err(
            cat4(
                "bootstrap prerequisite profile ",
                prerequisites.bootstrap_profile.as_str(),
                " does not match desired profile ",
                machine.bootstrap_profile.as_str(),
            ),
        );
    }
    if is_blank(prerequisites.ssh_key_id.as_str()) {
        return Err("CREATE requires a resolved Vultr SSH key object id".to_owned());
    }
    if is_blank(prerequisites.cloud_init.as_str()) {
        return Err("CREATE requires non-empty bootstrap user-data".to_owned());
    }
    match &machine.provider.firewall_profile {
        Some(expected) => {
            let named: bool = match &prerequisites.firewall_profile {
                Some(p) => same(p.as_str(), expected.as_str()),
                None => false,
            };
            let bound: bool = match &prerequisites.firewall_group_id {
                Some(id) => !is_blank(id.as_str()),
                None => false,
            };
            if named && bound {
                Ok(())
            } else {
                Err(
                    cat4(
                        "CREATE for machine ",
                        machine.id.as_str(),
                        " requires a provider-verified firewall binding for profile ",
                        expected.as_str(),
                    ),
                )
            }
        },
        None => {
            if prerequisites.firewall_profile.is_some()
                || prerequisites.firewall_group_id.is_some() {
                Err(
                    cat3(
                        "machine ",
                        machine.id.as_str(),
                        " does not declare a firewall profile but CREATE prerequisites contain a firewall binding",
                    ),
                )
            } else {
                Ok(())
            }
        },
    }
}

/// The request that makes a machine, with the tags that mark it as its
/// environment's.
pub fn create_request(
    machine: &MachineSpec,
    prerequisites: &CreatePrerequisites,
    tags: Vec<String>,
) -> (r: OwnedCreateRequest)
    ensures
        r == (OwnedCreateRequest {
            region: machine.provider.region,
            plan: machine.provider.plan,
            os_id: machine.provider.os_id,
            snapshot_id: machine.provider.snapshot_id,
            label: machine.id,
            ssh_key_id: prerequisites.ssh_key_id,
            cloud_init: prerequisites.cloud_init,
            firewall_group_id: prerequisites.firewall_group_id,
            tags,
            enable_ipv6: machine.provider.enable_ipv6,
        }),
{
    OwnedCreateRequest {
        region: machine.provider.region.clone(),
        plan: machine.provider.plan.clone(),
        os_id: machine.provider.os_id,
        snapshot_id: copy_option(&machine.provider.snapshot_id),
        label: machine.id.clone(),
        ssh_key_id: prerequisites.ssh_key_id.clone(),
        cloud_init: prerequisites.cloud_init.clone(),
        firewall_group_id: copy_option(&prerequisites.firewall_group_id),
        tags,
        enable_ipv6: machine.provider.enable_ipv6,
    }
}

/// What an apply did.
#[derive(Debug, Clone, Copy, PartialEq, Eq, Structural)]
pub enum ApplyAction {
    Noop,
    Created,
}

impl ApplyAction {
    pub fn as_str(self) -> (r: &'static str)
        ensures
            r@ == match self {
                ApplyAction::Noop => "NOOP"@,
                ApplyAction::Created => "CREATED"@,
            },
    {
        match self {
            ApplyAction::Noop => "NOOP",
            ApplyAction::Created => "CREATED",
        }
    }
}

/// What an apply did to which machine, and the plan that holds afterwards.
#[derive(Debug, Clone, PartialEq, Eq)]
pub struct ApplyReport {
    pub action: ApplyAction,
    pub machine_id: String,
    pub provider_id: String,
    pub final_plan: MachinePlan,
}

/// What the first plan for a machine leads to. Only a plan to create leads to
/// a request; all the others end the apply.
pub open spec fn apply_begins(
    machine: MachineSpec,
    given: CreatePrerequisites,
    plan: MachinePlan,
    next: Next<ApplyReport>,
) -> bool {
    match plan.class {
        PlanClass::Noop => match plan.provider_id {
            Some(id) => next == Next::Done(
                Ok::<ApplyReport, String>(
                    ApplyReport {
                        action: ApplyAction::Noop,
                        machine_id: machine.id,
                        provider_id: id,
                        final_plan: plan,
                    },
                ),
            ),
            None => next matches Next::Done(Err(e)) && e@ == "NOOP plan is missing provider id"@,
        },
        PlanClass::Create => match prerequisites_fault(machine, given) {
            Some(words) => next matches Next::Done(Err(e)) && e@ == words,
            None => next is Change,
        },
        PlanClass::UpdateInPlace => next matches Next::Done(Err(e)) && e@ == "machine "@
            + machine.id@
            + " requires UPDATE_IN_PLACE; this slice does not mutate existing instances: "@
            + reasons_words(plan),
        PlanClass::ReplaceRequired => next matches Next::Done(Err(e)) && e@ == "machine "@
            + machine.id@ + " requires replacement; replacement is never implicit: "@
            + reasons_words(plan),
        PlanClass::BlockedDrift | PlanClass::BlockedAmbiguous => next matches Next::Done(Err(e))
            && e@ == "machine "@ + machine.id@ + " is blocked with "@ + class_words(plan.class)
            + ": "@ + reasons_words(plan),
    }
}

/// Takes the first plan for a machine into account.
pub fn apply_machine(
    machine: &MachineSpec,
    prerequisites: &CreatePrerequisites,
    plan: MachinePlan,
) -> (r: Next<ApplyReport>)
    ensures
        apply_begins(*machine, *prerequisites, plan, r),
{
    match plan.class {
        PlanClass::Noop => match copy_option(&plan.provider_id) {
            Some(id) => Next::Done(
                Ok(
                    ApplyReport {
                        action: ApplyAction::Noop,
                        machine_id: machine.id.clone(),
                        provider_id: id,
                        final_plan: plan,
                    },
                ),
            ),
            None => Next::Done(Err("NOOP plan is missing provider id".to_owned())),
        },
        PlanClass::Create => match validate_create_prerequisites(machine, prerequisites) {
            Err(e) => Next::Done(Err(e)),
            Ok(()) => Next::Change,
        },
        PlanClass::UpdateInPlace => Next::Done(
            Err(
                cat4(
                    "machine ",
                    machine.id.as_str(),
                    " requires UPDATE_IN_PLACE; this slice does not mutate existing instances: ",
                    plan.reasons_line().as_str(),
                ),
            ),
        ),
        PlanClass::ReplaceRequired => Next::Done(
            Err(
                cat4(
                    "machine ",
                    machine.id.as_str(),
                    " requires replacement; replacement is never implicit: ",
                    plan.reasons_line().as_str(),
                ),
            ),
        ),
        _ => Next::Done(
            Err(
                cat6(
                    "machine ",
                    machine.id.as_str(),
                    " is blocked with ",
                    plan.class.name(),
                    ": ",
                    plan.reasons_line().as_str(),
                ),
            ),
        ),
    }
}

/// A machine is asked for only where the plan is to create it and everything
/// that it needs is at hand.
pub proof fn law_only_a_create_plan_makes_a_machine(
    machine: MachineSpec,
    given: CreatePrerequisites,
    plan: MachinePlan,
    next: Next<ApplyReport>,
)
    requires
        apply_begins(machine, given, plan, next),
        next is Change,
    ensures
        plan.class is Create,
        prerequisites_fault(machine, given) is None,
{
}

/// The making of one machine.
#[derive(Debug, PartialEq, Eq)]
pub struct MachineCreation {
    pub phase: Phase,
    /// What the provider said, where the outcome is open.
    pub complaint: String,
}

/// The error for a machine that was asked for and not seen.
pub open spec fn creation_unproved(
    machine: Seq<char>,
    reply: Reply,
    complaint: Seq<char>,
    detail: Seq<char>,
) -> Seq<char> {
    match reply {
        Reply::Uncertain => complaint
            + "; CREATE was not replayed and re-observation did not prove convergence: "@ + detail,
        _ => "CREATE was accepted but machine "@ + machine + " did not converge: "@ + detail,
    }
}

/// The detail for a machine that was not there in any look.
pub open spec fn remained_absent(machine: Seq<char>, attempts: usize) -> Seq<char> {
    "machine "@ + machine + " remained absent after "@ + decimal(attempts as nat)
        + " re-observations"@
}

fn unproved_creation(machine: &str, reply: Reply, complaint: &str, detail: &str) -> (r: String)
    ensures
        r@ == creation_unproved(machine@, reply, complaint@, detail@),
{
    match reply {
        Reply::Uncertain => cat3(
            complaint,
            "; CREATE was not replayed and re-observation did not prove convergence: ",
            detail,
        ),
        _ => cat4("CREATE was accepted but machine ", machine, " did not converge: ", detail),
    }
}

/// What a plan drawn up after the request shows: the machine is there and as
/// wanted, is not there yet, or is there and not as wanted.
pub open spec fn plan_sight(plan: Result<MachinePlan, String>) -> Sight {
    match plan {
        Err(_) => Sight::Broken,
        Ok(p) => if p.class is Create {
            Sight::Pending
        } else if p.class is Noop && p.provider_id is Some {
            Sight::Reached
        } else {
            Sight::Broken
        },
    }
}

/// What a plan that decides leads to.
pub open spec fn creation_decided(
    machine: MachineSpec,
    reply: Reply,
    complaint: Seq<char>,
    plan: Result<MachinePlan, String>,
    result: Result<ApplyReport, String>,
) -> bool {
    match plan {
        Err(detail) => result matches Err(e) && e@ == creation_unproved(
            machine.id@,
            reply,
            complaint,
            detail@,
        ),
        Ok(p) => if !(p.class is Noop) {
            result matches Err(e) && e@ == "machine "@ + machine.id@
                + " was created/recovered but did not converge to NOOP: "@ + class_words(p.class)
                + ": "@ + reasons_words(p)
        } else {
            match p.provider_id {
                None => result matches Err(e) && e@
                    == "converged CREATE plan is missing provider id"@,
                Some(id) => result == Ok::<ApplyReport, String>(
                    ApplyReport {
                        action: ApplyAction::Created,
                        machine_id: machine.id,
                        provider_id: id,
                        final_plan: p,
                    },
                ),
            }
        },
    }
}

impl MachineCreation {
    /// Takes the reply to the request into account.
    pub fn replied(machine: &MachineSpec, attempts: usize, fault: &Option<ProviderFault>) -> (r: (
        MachineCreation,
        Next<ApplyReport>,
    ))
        ensures
            ({
                let reply = creation_reply(*fault);
                let (phase, ask) = on_reply(attempts, reply);
                let complaint = match *fault {
                    Some(f) => f.message@,
                    None => Seq::empty(),
                };
                &&& r.0.phase == phase
                &&& r.0.complaint@ == complaint
                &&& carries(ask, r.1)
                &&& r.1 matches Next::Done(result) ==> (result matches Err(e) && e@ == if ask
                    == Ask::Finish(Ending::Refused) {
                    complaint
                } else {
                    creation_unproved(
                        machine.id@,
                        reply,
                        complaint,
                        remained_absent(machine.id@, attempts),
                    )
                })
            }),
    {
        let reply: Reply = read_creation(fault);
        let (phase, ask): (Phase, Ask) = Phase::Asked.reply(attempts, reply);
        let complaint: String = match fault {
            Some(f) => f.message.clone(),
            None => String::new(),
        };
        let next: Next<ApplyReport> = match ask {
            Ask::Change => Next::Change,
            Ask::Look { pause } => Next::Look { pause },
            Ask::Finish(Ending::Refused) => Next::Done(Err(complaint.clone())),
            Ask::Finish(_) => {
                let detail: String = cat5(
                    "machine ",
                    machine.id.as_str(),
                    " remained absent after ",
                    number(attempts as u64).as_str(),
                    " re-observations",
                );
                Next::Done(
                    Err(
                        unproved_creation(
                            machine.id.as_str(),
                            reply,
                            complaint.as_str(),
                            detail.as_str(),
                        ),
                    ),
                )
            },
        };
        (MachineCreation { phase, complaint }, next)
    }

    /// Takes a plan drawn up after the request into account, or why there is
    /// none.
    pub fn reobserve_created_machine(
        self,
        machine: &MachineSpec,
        attempts: usize,
        plan: Result<MachinePlan, String>,
    ) -> (r: (MachineCreation, Next<ApplyReport>))
        requires
            self.phase is Watching,
        ensures
            ({
                let (phase, ask) = self.phase.looked(attempts, plan_sight(plan));
                let reply = self.phase->reply;
                &&& r.0 == (MachineCreation { phase, ..self })
                &&& carries(ask, r.1)
                &&& r.1 matches Next::Done(result) ==> match ask->Finish_0 {
                    Ending::Unproven { .. } => result matches Err(e) && e@ == creation_unproved(
                        machine.id@,
                        reply,
                        self.complaint@,
                        remained_absent(machine.id@, attempts),
                    ),
                    _ => creation_decided(*machine, reply, self.complaint@, plan, result),
                }
            }),
    {
        let reply: Reply = match self.phase {
            Phase::Watching { reply, .. } => reply,
            _ => Reply::Accepted,
        };
        let found: MachinePlan = match plan {
            Err(detail) => {
                let (phase, _): (Phase, Ask) = self.phase.look(attempts, Sight::Broken);
                let e: String = unproved_creation(
                    machine.id.as_str(),
                    reply,
                    self.complaint.as_str(),
                    detail.as_str(),
                );
                return (MachineCreation { phase, ..self }, Next::Done(Err(e)));
            },
            Ok(found) => found,
        };
        match found.class {
            PlanClass::Create => {
                let (phase, ask): (Phase, Ask) = self.phase.look(attempts, Sight::Pending);
                match ask {
                    Ask::Look { pause } => (
                        MachineCreation { phase, ..self },
                        Next::Look { pause },
                    ),
                    _ => {
                        let detail: String = cat5(
                            "machine ",
                            machine.id.as_str(),
                            " remained absent after ",
                            number(attempts as u64).as_str(),
                            " re-observations",
                        );
                        let e: String = unproved_creation(
                            machine.id.as_str(),
                            reply,
                            self.complaint.as_str(),
                            detail.as_str(),
                        );
                        (MachineCreation { phase, ..self }, Next::Done(Err(e)))
                    },
                }
            },
            PlanClass::Noop => match copy_option(&found.provider_id) {
                None => {
                    let (phase, _): (Phase, Ask) = self.phase.look(attempts, Sight::Broken);
                    (
                        MachineCreation { phase, ..self },
                        Next::Done(
                            Err("converged CREATE plan is missing provider id".to_owned()),
                        ),
                    )
                },
                Some(id) => {
                    let (phase, _): (Phase, Ask) = self.phase.look(attempts, Sight::Reached);
                    let report: ApplyReport = ApplyReport {
                        action: ApplyAction::Created,
                        machine_id: machine.id.clone(),
                        provider_id: id,
                        final_plan: found,
                    };
                    (MachineCreation { phase, ..self }, Next::Done(Ok(report)))
                },
            },
            _ => {
                let (phase, _): (Phase, Ask) = self.phase.look(attempts, Sight::Broken);
                let e: String = cat6(
                    "machine ",
                    machine.id.as_str(),
                    " was created/recovered but did not converge to NOOP: ",
                    found.class.name(),
                    ": ",
                    found.reasons_line().as_str(),
                );
                (MachineCreation { phase, ..self }, Next::Done(Err(e)))
            },
        }
    }
}

/// What a destruction did.
#[derive(Debug, Clone, PartialEq, Eq)]
pub struct DestroyApplyReport {
    pub machine_id: String,
    pub provider_id: String,
    pub delete_requested: bool,
    pub absence_verified: bool,
}

/// The destruction of one machine.
#[derive(Debug, PartialEq, Eq)]
pub struct MachineDestruction {
    pub phase: Phase,
    /// What the provider said, where the outcome is open.
    pub complaint: String,
}

/// The error for a machine that was to be destroyed and is still there.
pub open spec fn destruction_unproved(
    provider_id: Seq<char>,
    reply: Reply,
    complaint: Seq<char>,
) -> Seq<char> {
    match reply {
        Reply::Uncertain => complaint + "; exact provider id "@ + provider_id
            + " remained present after bounded re-observation and DELETE was not replayed"@,
        _ => "DELETE for "@ + provider_id
            + " was accepted but exact provider id remained present after bounded re-observation; DELETE was not replayed"@,
    }
}

fn unproved_destruction(provider_id: &str, reply: Reply, complaint: &str) -> (r: String)
    ensures
        r@ == destruction_unproved(provider_id@, reply, complaint@),
{
    match reply {
        Reply::Uncertain => cat4(
            complaint,
            "; exact provider id ",
            provider_id,
            " remained present after bounded re-observation and DELETE was not replayed",
        ),
        _ => cat3(
            "DELETE for ",
            provider_id,
            " was accepted but exact provider id remained present after bounded re-observation; DELETE was not replayed",
        ),
    }
}

/// The report for a machine that is gone.
pub open spec fn destroyed(machine_id: String, provider_id: String) -> DestroyApplyReport {
    DestroyApplyReport { machine_id, provider_id, delete_requested: true, absence_verified: true }
}

impl MachineDestruction {
    /// Takes the reply to the request into account.
    pub fn replied(
        machine_id: &String,
        provider_id: &String,
        attempts: usize,
        fault: &Option<ProviderFault>,
    ) -> (r: (MachineDestruction, Next<DestroyApplyReport>))
        ensures
            ({
                let reply = removal_reply(*fault);
                let (phase, ask) = on_reply(attempts, reply);
                let complaint = match *fault {
                    Some(f) => f.message@,
                    None => Seq::empty(),
                };
                &&& r.0.phase == phase
                &&& r.0.complaint@ == complaint
                &&& carries(ask, r.1)
                &&& r.1 matches Next::Done(result) ==> match ask->Finish_0 {
                    Ending::NothingThere => result == Ok::<DestroyApplyReport, String>(
                        destroyed(*machine_id, *provider_id),
                    ),
                    Ending::Refused => result matches Err(e) && e@ == complaint,
                    _ => result matches Err(e) && e@ == destruction_unproved(
                        provider_id@,
                        reply,
                        complaint,
                    ),
                }
            }),
    {
        let reply: Reply = read_removal(fault);
        let (phase, ask): (Phase, Ask) = Phase::Asked.reply(attempts, reply);
        let complaint: String = match fault {
            Some(f) => f.message.clone(),
            None => String::new(),
        };
        let next: Next<DestroyApplyReport> = match ask {
            Ask::Change => Next::Change,
            Ask::Look { pause } => Next::Look { pause },
            Ask::Finish(Ending::NothingThere) => Next::Done(
                Ok(
                    DestroyApplyReport {
                        machine_id: machine_id.clone(),
                        provider_id: provider_id.clone(),
                        delete_requested: true,
                        absence_verified: true,
                    },
                ),
            ),
            Ask::Finish(Ending::Refused) => Next::Done(Err(complaint.clone())),
            Ask::Finish(_) => Next::Done(
                Err(unproved_destruction(provider_id.as_str(), reply, complaint.as_str())),
            ),
        };
        (MachineDestruction { phase, complaint }, next)
    }

    /// Takes a look for the machine into account: the fault that the provider
    /// answered with, or none where it still showed the machine.
    pub fn destroy_machine(
        self,
        machine_id: &String,
        provider_id: &String,
        attempts: usize,
        fault: &Option<ProviderFault>,
    ) -> (r: (MachineDestruction, Next<DestroyApplyReport>))
        requires
            self.phase is Watching,
        ensures
            ({
                let (phase, ask) = self.phase.looked(attempts, absence_sight(*fault));
                &&& r.0 == (MachineDestruction { phase, ..self })
                &&& carries(ask, r.1)
                &&& r.1 matches Next::Done(result) ==> match *fault {
                    None => result matches Err(e) && e@ == destruction_unproved(
                        provider_id@,
                        self.phase->reply,
                        self.complaint@,
                    ),
                    Some(f) => if f.not_found {
                        result == Ok::<DestroyApplyReport, String>(
                            destroyed(*machine_id, *provider_id),
                        )
                    } else {
                        result matches Err(e) && e@ == f.message@
                    },
                }
            }),
    {
        let reply: Reply = match self.phase {
            Phase::Watching { reply, .. } => reply,
            _ => Reply::Accepted,
        };
        match fault {
            None => {
                let (phase, ask): (Phase, Ask) = self.phase.look(attempts, Sight::Pending);
                match ask {
                    Ask::Look { pause } => (
                        MachineDestruction { phase, ..self },
                        Next::Look { pause },
                    ),
                    _ => {
                        let e: String = unproved_destruction(
                            provider_id.as_str(),
                            reply,
                            self.complaint.as_str(),
                        );
                        (MachineDestruction { phase, ..self }, Next::Done(Err(e)))
                    },
                }
            },
            Some(f) => {
                if f.not_found {
                    let (phase, _): (Phase, Ask) = self.phase.look(attempts, Sight::Reached);
                    let report: DestroyApplyReport = DestroyApplyReport {
                        machine_id: machine_id.clone(),
                        provider_id: provider_id.clone(),
                        delete_requested: true,
                        absence_verified: true,
                    };
                    (MachineDestruction { phase, ..self }, Next::Done(Ok(report)))
                } else {
                    let (phase, _): (Phase, Ask) = self.phase.look(attempts, Sight::Broken);
                    (MachineDestruction { phase, ..self }, Next::Done(Err(f.message.clone())))
                }
            },
        }
    }
}

/// What a look for a machine that is to be gone shows.
pub open spec fn absence_sight(fault: Option<ProviderFault>) -> Sight {
    match fault {
        None => Sight::Pending,
        Some(f) => if f.not_found {
            Sight::Reached
        } else {
            Sight::Broken
        },
    }
}

/// A machine may be made exactly if it gets the wanted start, a key to log in
/// with, something to start from, and the firewall of its profile where it has
/// one, and none where it has none.
pub proof fn law_machines_are_made_with_all_they_need(
    machine: MachineSpec,
    given: CreatePrerequisites,
    r: Result<(), String>,
)
    requires
        call_ensures(validate_create_prerequisites, (&machine, &given), r),
    ensures
        r is Ok <==> {
            &&& given.bootstrap_profile@ == machine.bootstrap_profile@
            &&& !blank(given.ssh_key_id@)
            &&& !blank(given.cloud_init@)
            &&& machine.provider.firewall_profile is None ==> given.firewall_profile is None
                && given.firewall_group_id is None
            &&& machine.provider.firewall_profile matches Some(name) ==> (
            given.firewall_profile matches Some(p) && p@ == name@) && (
            given.firewall_group_id matches Some(id) && !blank(id@))
        },
{
}

/// What is asked for is the machine that is wanted, under its own id, with the
/// key, the start and the firewall that were gathered for it.
pub proof fn law_the_machine_asked_for_is_the_wanted_one(
    machine: MachineSpec,
    given: CreatePrerequisites,
    tags: Vec<String>,
    r: OwnedCreateRequest,
)
    requires
        call_ensures(create_request, (&machine, &given, tags), r),
    ensures
        r.label@ == machine.id@,
        r.region@ == machine.provider.region@,
        r.plan@ == machine.provider.plan@,
        r.os_id == machine.provider.os_id,
        r.snapshot_id == machine.provider.snapshot_id,
        r.enable_ipv6 == machine.provider.enable_ipv6,
        r.ssh_key_id@ == given.ssh_key_id@,
        r.cloud_init@ == given.cloud_init@,
        r.firewall_group_id == given.firewall_group_id,
        r.tags == tags,
{
}

/// A plan leads to a machine being made exactly where it is a plan to make one
/// and all that this needs is there. Nothing that exists is ever changed: every
/// other plan but one without work to do is refused.
pub proof fn law_only_wanted_machines_are_made(
    machine: MachineSpec,
    given: CreatePrerequisites,
    plan: MachinePlan,
    sound: Result<(), String>,
    r: Next<ApplyReport>,
)
    requires
        call_ensures(validate_create_prerequisites, (&machine, &given), sound),
        call_ensures(apply_machine, (&machine, &given, plan), r),
    ensures
        r is Change <==> plan.class is Create && sound is Ok,
        !(r is Look),
        r matches Next::Done(Ok(report)) ==> plan.class is Noop && report.action is Noop
            && plan.provider_id == Some(report.provider_id) && report.machine_id@ == machine.id@
            && report.final_plan == plan,
        plan.class is Noop && plan.provider_id is Some ==> (r matches Next::Done(Ok(_))),
        plan.class is UpdateInPlace || plan.class is ReplaceRequired || plan.class is BlockedDrift
            || plan.class is BlockedAmbiguous ==> (r matches Next::Done(Err(_))),
{
}

/// A machine counts as made only once a plan shows it, complete and under its
/// provider's id; it is never asked for again meanwhile.
pub proof fn law_a_machine_is_made_once_a_plan_shows_it(
    state: MachineCreation,
    machine: MachineSpec,
    attempts: usize,
    plan: Result<MachinePlan, String>,
    r: (MachineCreation, Next<ApplyReport>),
)
    requires
        state.phase is Watching,
        call_ensures(
            MachineCreation::reobserve_created_machine,
            (state, &machine, attempts, plan),
            r,
        ),
    ensures
        !(r.1 is Change),
        r.1 matches Next::Done(Ok(report)) <==> (plan matches Ok(p) && p.class is Noop
            && p.provider_id is Some),
        r.1 matches Next::Done(Ok(report)) ==> report.action is Created && plan
            == Ok::<MachinePlan, String>(report.final_plan) && report.machine_id@ == machine.id@
            && plan->Ok_0.provider_id == Some(report.provider_id),
        r.1 is Look ==> (plan matches Ok(p) && p.class is Create),
        plan is Err ==> (r.1 matches Next::Done(Err(_))),
{
}

/// A reply never proves that a machine was made, and an open one is looked
/// into.
pub proof fn law_a_reply_proves_no_machine(
    machine: MachineSpec,
    attempts: usize,
    fault: Option<ProviderFault>,
    r: (MachineCreation, Next<ApplyReport>),
)
    requires
        call_ensures(MachineCreation::replied, (&machine, attempts, &fault), r),
    ensures
        !(r.1 is Change),
        !(r.1 matches Next::Done(Ok(_))),
        attempts > 0 && (fault is None || fault->Some_0.uncertain) ==> r.1 is Look,
        fault matches Some(f) ==> (!f.uncertain ==> (r.1 matches Next::Done(Err(e)) && e@
            == f.message@)),
{
}

/// A machine counts as removed exactly where the provider said that it is not
/// there, be it to the request or to a later look.
pub proof fn law_a_machine_is_gone_once_it_is_not_there(
    state: MachineDestruction,
    machine_id: String,
    provider_id: String,
    attempts: usize,
    fault: Option<ProviderFault>,
    replied: (MachineDestruction, Next<DestroyApplyReport>),
    looked: (MachineDestruction, Next<DestroyApplyReport>),
)
    requires
        state.phase is Watching,
        call_ensures(
            MachineDestruction::replied,
            (&machine_id, &provider_id, attempts, &fault),
            replied,
        ),
        call_ensures(
            MachineDestruction::destroy_machine,
            (state, &machine_id, &provider_id, attempts, &fault),
            looked,
        ),
    ensures
        !(replied.1 is Change) && !(looked.1 is Change),
        replied.1 matches Next::Done(Ok(_)) <==> (fault matches Some(f) && f.not_found),
        looked.1 matches Next::Done(Ok(_)) <==> (fault matches Some(f) && f.not_found),
        replied.1 matches Next::Done(Ok(report)) ==> report.absence_verified
            && report.delete_requested && report.machine_id@ == machine_id@ && report.provider_id@
            == provider_id@,
        looked.1 matches Next::Done(Ok(report)) ==> report.absence_verified
            && report.machine_id@ == machine_id@ && report.provider_id@ == provider_id@,
        fault matches Some(f) ==> (!f.not_found ==> (looked.1 matches Next::Done(Err(_)))),
{
}

/// A policy is accepted where it looks at least once after each kind of change.
pub proof fn law_changes_are_looked_at_at_least_once(
    policy: LifecycleExecutionPolicy,
    r: Result<(), String>,
)
    requires
        call_ensures(validate_policy, (&policy,), r),
    ensures
        r is Ok <==> policy.create_reobserve_attempts > 0 && policy.destroy_reobserve_attempts > 0,
{
}

} // verus!
