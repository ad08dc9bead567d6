//! The substrate of a host: whether strict SSH accepts it, whether the data it
//! was started with is gone, and how old its host certificate is. One change
//! at a time brings it to where it has to be.
use crate::bootstrap::{is_provider_ready, provider_ready};
use crate::machine::{DesiredState, MachineSpec, PlanDisposition, PlanMaterial};
use crate::once::ProviderFault;
use crate::provider::VultrInstance;
use crate::text::{blank, bool_word, cat2, cat8, is_blank, join, joined, texts, word_of_bool};
use vstd::prelude::*;
use vstd::string::*;

verus! {

/// How often and how patiently a host is observed.
#[derive(Debug, Clone, Copy, PartialEq, Eq)]
pub struct HostSubstrateExecutionPolicy {
    pub ssh_observe_attempts: usize,
    pub ssh_observe_delay_secs: u64,
    pub user_data_reobserve_attempts: usize,
    pub user_data_reobserve_delay_secs: u64,
}

impl Default for HostSubstrateExecutionPolicy {
    fn default() -> (r: HostSubstrateExecutionPolicy)
        ensures
            r == (HostSubstrateExecutionPolicy {
                ssh_observe_attempts: 60,
                ssh_observe_delay_secs: 5,
                user_data_reobserve_attempts: 30,
                user_data_reobserve_delay_secs: 2,
            }),
    {
        HostSubstrateExecutionPolicy {
            ssh_observe_attempts: 60,
            ssh_observe_delay_secs: 5,
            user_data_reobserve_attempts: 30,
            user_data_reobserve_delay_secs: 2,
        }
    }
}

impl HostSubstrateExecutionPolicy {
    /// The same policy, with a single look by SSH.
    pub fn with_single_look(self) -> (r: HostSubstrateExecutionPolicy)
        ensures
            r == (HostSubstrateExecutionPolicy { ssh_observe_attempts: 1, ..self }),
    {
        HostSubstrateExecutionPolicy {
            ssh_observe_attempts: 1,
            ssh_observe_delay_secs: self.ssh_observe_delay_secs,
            user_data_reobserve_attempts: self.user_data_reobserve_attempts,
            user_data_reobserve_delay_secs: self.user_data_reobserve_delay_secs,
        }
    }
}

/// Why strict SSH did not accept a host.
#[derive(Debug, Clone, Copy, PartialEq, Eq, Structural)]
pub enum StrictSshFailureClass {
    Transport,
    HostTrust,
    Authentication,
    RemoteAcceptance,
    OtherSsh,
}

/// Where strict SSH stands with a host.
#[derive(Debug, Clone, Copy, PartialEq, Eq, Structural)]
pub enum StrictSshState {
    Pass,
    Transport,
    HostTrust,
    Authentication,
    RemoteAcceptance,
    OtherSsh,
}

/// The state that a failure of some class stands for.
pub open spec fn failed_state(class: Option<StrictSshFailureClass>) -> StrictSshState {
    match class {
        Some(StrictSshFailureClass::Transport) => StrictSshState::Transport,
        Some(StrictSshFailureClass::HostTrust) => StrictSshState::HostTrust,
        Some(StrictSshFailureClass::Authentication) => StrictSshState::Authentication,
        Some(StrictSshFailureClass::RemoteAcceptance) => StrictSshState::RemoteAcceptance,
        Some(StrictSshFailureClass::OtherSsh) | None => StrictSshState::OtherSsh,
    }
}

/// The state that a failure of some class stands for.
pub fn strict_state(class: StrictSshFailureClass) -> (r: StrictSshState)
    ensures
        r == failed_state(Some(class)),
{
    match class {
        StrictSshFailureClass::Transport => StrictSshState::Transport,
        StrictSshFailureClass::HostTrust => StrictSshState::HostTrust,
        StrictSshFailureClass::Authentication => StrictSshState::Authentication,
        StrictSshFailureClass::RemoteAcceptance => StrictSshState::RemoteAcceptance,
        StrictSshFailureClass::OtherSsh => StrictSshState::OtherSsh,
    }
}

/// A failure never stands for a pass.
pub proof fn law_no_failure_is_a_pass(class: Option<StrictSshFailureClass>)
    ensures
        failed_state(class) != StrictSshState::Pass,
{
}

/// What came of the attempts to reach a host by strict SSH.
#[derive(Debug, PartialEq, Eq)]
pub struct StrictSshSight {
    pub passed: bool,
    pub last_class: Option<StrictSshFailureClass>,
    pub evidence: String,
}

/// What was seen of a host's substrate.
#[derive(Debug, PartialEq, Eq)]
pub struct HostSubstrateObservation {
    pub machine_id: String,
    pub provider_id: String,
    pub main_ip: String,
    pub provider_ready: bool,
    pub strict_ssh_state: StrictSshState,
    pub strict_ssh_evidence: String,
    pub user_data_scrubbed: Option<bool>,
    pub host_certificate_serial: Option<u64>,
}

/// How far the observation of a host has come.
#[derive(Debug, PartialEq, Eq)]
pub enum SubstrateNext {
    /// Try strict SSH at that address.
    TryStrictSsh(String),
    /// Read the start data and the certificate's serial, which complete it.
    ReadHost(HostSubstrateObservation),
    Done(Result<HostSubstrateObservation, String>),
}

/// Checks that an observation looks at the host at all.
pub fn check_substrate_attempts(policy: HostSubstrateExecutionPolicy) -> (r: Result<(), String>)
    ensures
        match r {
            Ok(()) => policy.ssh_observe_attempts > 0,
            Err(e) => policy.ssh_observe_attempts == 0 && e@
                == "host substrate SSH observation attempts must be greater than zero"@,
        },
{
    if policy.ssh_observe_attempts == 0 {
        Err("host substrate SSH observation attempts must be greater than zero".to_owned())
    } else {
        Ok(())
    }
}

/// What stands for a machine that is not up, in place of what SSH says.
pub open spec fn not_ready_evidence(i: VultrInstance) -> Seq<char> {
    "provider_not_ready:status="@ + i.status@ + ";power_status="@ + i.power_status@
        + ";server_status="@ + i.server_status@ + ";main_ip_present="@ + bool_word(
        !blank(i.main_ip@),
    )
}

/// What the provider's answer leads to.
pub open spec fn substrate_first(
    machine: MachineSpec,
    provider_id: Seq<char>,
    look: Result<VultrInstance, ProviderFault>,
    next: SubstrateNext,
) -> bool {
    match look {
        Err(fault) => next matches SubstrateNext::Done(Err(e)) && e@ == fault.message@,
        Ok(i) => if provider_ready(i) {
            next matches SubstrateNext::TryStrictSsh(ip) && ip@ == i.main_ip@
        } else {
            &&& next matches SubstrateNext::Done(Ok(o))
            &&& o.machine_id@ == machine.id@
            &&& o.provider_id@ == provider_id
            &&& o.main_ip == i.main_ip
            &&& !o.provider_ready
            &&& o.strict_ssh_state == StrictSshState::OtherSsh
            &&& o.strict_ssh_evidence@ == not_ready_evidence(i)
            &&& o.user_data_scrubbed is None
            &&& o.host_certificate_serial is None
        },
    }
}

/// Begins the observation of a host with the provider's answer: only a machine
/// that is up is tried by SSH.
pub fn observe_host_substrate(
    machine: &MachineSpec,
    provider_id: &str,
    look: Result<VultrInstance, ProviderFault>,
) -> (r: SubstrateNext)
    ensures
        substrate_first(*machine, provider_id@, look, r),
{
    match look {
        Err(fault) => SubstrateNext::Done(Err(fault.message)),
        Ok(i) => {
            if is_provider_ready(&i) {
                SubstrateNext::TryStrictSsh(i.main_ip)
            } else {
                let evidence: String = cat8(
                    "provider_not_ready:status=",
                    i.status.as_str(),
                    ";power_status=",
                    i.power_status.as_str(),
                    ";server_status=",
                    i.server_status.as_str(),
                    ";main_ip_present=",
                    word_of_bool(!is_blank(i.main_ip.as_str())),
                );
                SubstrateNext::Done(
                    Ok(
                        HostSubstrateObservation {
                            machine_id: machine.id.clone(),
                            provider_id: provider_id.to_owned(),
                            main_ip: i.main_ip,
                            provider_ready: false,
                            strict_ssh_state: StrictSshState::OtherSsh,
                            strict_ssh_evidence: evidence,
                            user_data_scrubbed: None,
                            host_certificate_serial: None,
                        },
                    ),
                )
            }
        },
    }
}

/// What strict SSH makes of a machine that is up.
pub open spec fn substrate_second(
    machine: MachineSpec,
    provider_id: Seq<char>,
    main_ip: String,
    strict: Result<StrictSshSight, String>,
    next: SubstrateNext,
) -> bool {
    match strict {
        Err(e) => next == SubstrateNext::Done(Err::<HostSubstrateObservation, String>(e)),
        Ok(s) => {
            let o = match next {
                SubstrateNext::ReadHost(o) => Some(o),
                SubstrateNext::Done(Ok(o)) => Some(o),
                _ => None,
            };
            &&& (next is ReadHost) == s.passed
            &&& o matches Some(o)
            &&& o.machine_id@ == machine.id@
            &&& o.provider_id@ == provider_id
            &&& o.main_ip == main_ip
            &&& o.provider_ready
            &&& o.strict_ssh_state == if s.passed {
                StrictSshState::Pass
            } else {
                failed_state(s.last_class)
            }
            &&& o.strict_ssh_evidence == s.evidence
            &&& o.user_data_scrubbed is None
            &&& o.host_certificate_serial is None
        },
    }
}

/// Goes on with what came of strict SSH: only a host that it accepts is read.
pub fn strict_ssh_observed(
    machine: &MachineSpec,
    provider_id: &str,
    main_ip: String,
    strict: Result<StrictSshSight, String>,
) -> (r: SubstrateNext)
    ensures
        substrate_second(*machine, provider_id@, main_ip, strict, r),
{
    match strict {
        Err(e) => SubstrateNext::Done(Err(e)),
        Ok(s) => {
            let state: StrictSshState = if s.passed {
                StrictSshState::Pass
            } else {
                match s.last_class {
                    Some(class) => strict_state(class),
                    None => StrictSshState::OtherSsh,
                }
            };
            let observation: HostSubstrateObservation = HostSubstrateObservation {
                machine_id: machine.id.clone(),
                provider_id: provider_id.to_owned(),
                main_ip,
                provider_ready: true,
                strict_ssh_state: state,
                strict_ssh_evidence: s.evidence,
                user_data_scrubbed: None,
                host_certificate_serial: None,
            };
            if s.passed {
                SubstrateNext::ReadHost(observation)
            } else {
                SubstrateNext::Done(Ok(observation))
            }
        },
    }
}

/// Completes an observation with what was read of the host. The certificate
/// is read only where reading the start data worked.
pub fn complete_host_substrate(
    observation: HostSubstrateObservation,
    user_data_scrubbed: Result<bool, String>,
    serial: Result<u64, String>,
) -> (r: Result<HostSubstrateObservation, String>)
    ensures
        match user_data_scrubbed {
            Err(e) => r == Err::<HostSubstrateObservation, String>(e),
            Ok(scrubbed) => match serial {
                Err(e) => r == Err::<HostSubstrateObservation, String>(e),
                Ok(n) => r == Ok::<HostSubstrateObservation, String>(
                    HostSubstrateObservation {
                        user_data_scrubbed: Some(scrubbed),
                        host_certificate_serial: Some(n),
                        ..observation
                    },
                ),
            },
        },
{
    match user_data_scrubbed {
        Err(e) => Err(e),
        Ok(scrubbed) => match serial {
            Err(e) => Err(e),
            Ok(n) => {
                let mut done: HostSubstrateObservation = observation;
                done.user_data_scrubbed = Some(scrubbed);
                done.host_certificate_serial = Some(n);
                Ok(done)
            },
        },
    }
}

/// What a host's substrate asks for.
#[derive(Debug, Clone, Copy, PartialEq, Eq, Structural)]
pub enum HostSubstrateAction {
    Noop,
    ScrubUserData,
    RotateHostCertificate,
    BlockedProvider,
    BlockedStrictSsh,
    BlockedSubstrate,
}

/// The plan for a host's substrate.
#[derive(Debug, PartialEq, Eq)]
pub struct HostSubstratePlan {
    pub action: HostSubstrateAction,
    pub reasons: Vec<String>,
}

/// What authorizing an action allows.
pub open spec fn substrate_disposition(action: HostSubstrateAction) -> PlanDisposition {
    match action {
        HostSubstrateAction::Noop => PlanDisposition::Noop,
        HostSubstrateAction::ScrubUserData
        | HostSubstrateAction::RotateHostCertificate => PlanDisposition::Mutate,
        HostSubstrateAction::BlockedProvider
        | HostSubstrateAction::BlockedStrictSsh
        | HostSubstrateAction::BlockedSubstrate => PlanDisposition::Blocked,
    }
}

/// What a host's substrate is wanted for.
#[derive(Debug, PartialEq, Eq)]
pub struct SubstrateDesired<'a> {
    pub desired: &'a DesiredState,
    pub machine_id: &'a str,
    pub minimum_host_certificate_serial: u64,
}

/// What the authority over a host's substrate binds.
pub type SubstrateMaterial<'a> = PlanMaterial<
    SubstrateDesired<'a>,
    &'a HostSubstrateObservation,
    &'a HostSubstratePlan,
>;

/// What the authority over a host's substrate binds. `plan` is what
/// `minimum_serial` makes of `observed`.
pub fn authorize_host_substrate<'a>(
    desired: &'a DesiredState,
    machine: &'a MachineSpec,
    minimum_serial: u64,
    observed: &'a HostSubstrateObservation,
    plan: &'a HostSubstratePlan,
) -> (r: SubstrateMaterial<'a>)
    ensures
        r.scope@ == "vultr_host_substrate"@,
        r.desired.desired == desired,
        r.desired.machine_id@ == machine.id@,
        r.desired.minimum_host_certificate_serial == minimum_serial,
        r.observed == observed,
        r.plan == plan,
        r.disposition == substrate_disposition(plan.action),
{
    let disposition: PlanDisposition = match plan.action {
        HostSubstrateAction::Noop => PlanDisposition::Noop,
        HostSubstrateAction::ScrubUserData => PlanDisposition::Mutate,
        HostSubstrateAction::RotateHostCertificate => PlanDisposition::Mutate,
        HostSubstrateAction::BlockedProvider => PlanDisposition::Blocked,
        HostSubstrateAction::BlockedStrictSsh => PlanDisposition::Blocked,
        HostSubstrateAction::BlockedSubstrate => PlanDisposition::Blocked,
    };
    PlanMaterial {
        scope: "vultr_host_substrate",
        desired: SubstrateDesired {
            desired,
            machine_id: machine.id.as_str(),
            minimum_host_certificate_serial: minimum_serial,
        },
        observed,
        plan,
        disposition,
    }
}

/// What an apply does to a host before it looks at it once more.
#[derive(Debug, Clone, Copy, PartialEq, Eq, Structural)]
pub enum SubstrateChange {
    Nothing,
    ScrubUserData,
    RotateHostCertificate,
}

/// The change that an authorized plan stands for.
pub open spec fn substrate_change(
    authority: Result<(), String>,
    disposition: PlanDisposition,
    plan: HostSubstratePlan,
) -> Result<SubstrateChange, Seq<char>> {
    match authority {
        Err(e) => Err(e@),
        Ok(()) => match (disposition, plan.action) {
            (PlanDisposition::Noop, _) => Ok(SubstrateChange::Nothing),
            (PlanDisposition::Blocked, _) => Err(
                "host substrate apply is blocked by exact plan: "@ + joined(
                    texts(plan.reasons@),
                    "; "@,
                ),
            ),
            (PlanDisposition::Mutate, HostSubstrateAction::ScrubUserData) => Ok(
                SubstrateChange::ScrubUserData,
            ),
            (PlanDisposition::Mutate, HostSubstrateAction::RotateHostCertificate) => Ok(
                SubstrateChange::RotateHostCertificate,
            ),
            (PlanDisposition::Mutate, _) => Err(
                "host substrate authority did not resolve to exactly one mutation"@,
            ),
        },
    }
}

/// Decides on the one change that an authorized plan stands for. `authority`
/// says whether the plan is the one that was authorized.
pub fn apply_host_substrate_once(
    authority: Result<(), String>,
    disposition: PlanDisposition,
    plan: &HostSubstratePlan,
) -> (r: Result<SubstrateChange, String>)
    ensures
        match r {
            Ok(c) => substrate_change(authority, disposition, *plan) == Ok::<
                SubstrateChange,
                Seq<char>,
            >(c),
            Err(e) => substrate_change(authority, disposition, *plan) == Err::<
                SubstrateChange,
                Seq<char>,
            >(e@),
        },
{
    match authority {
        Err(e) => {
            return Err(e);
        },
        Ok(()) => {},
    }
    match disposition {
        PlanDisposition::Noop => Ok(SubstrateChange::Nothing),
        PlanDisposition::Blocked => {
            Err(
                cat2(
                    "host substrate apply is blocked by exact plan: ",
                    join(&plan.reasons, "; ").as_str(),
                ),
            )
        },
        PlanDisposition::Mutate => match plan.action {
            HostSubstrateAction::ScrubUserData => Ok(SubstrateChange::ScrubUserData),
            HostSubstrateAction::RotateHostCertificate => Ok(SubstrateChange::RotateHostCertificate),
            _ => Err("host substrate authority did not resolve to exactly one mutation".to_owned()),
        },
    }
}

/// What an apply did to a host, and what there is to do now.
#[derive(Debug, PartialEq, Eq)]
pub struct HostSubstrateApplyReport {
    pub performed: HostSubstrateAction,
    pub observation: HostSubstrateObservation,
    pub next_plan: HostSubstratePlan,
}

/// The action that a change carries out.
pub open spec fn change_action(change: SubstrateChange) -> HostSubstrateAction {
    match change {
        SubstrateChange::Nothing => HostSubstrateAction::Noop,
        SubstrateChange::ScrubUserData => HostSubstrateAction::ScrubUserData,
        SubstrateChange::RotateHostCertificate => HostSubstrateAction::RotateHostCertificate,
    }
}

/// Reports a change, with the last look at the host.
pub fn report_host_substrate(
    change: SubstrateChange,
    observation: HostSubstrateObservation,
    next_plan: HostSubstratePlan,
) -> (r: HostSubstrateApplyReport)
    ensures
        r == (HostSubstrateApplyReport {
            performed: change_action(change),
            observation,
            next_plan,
        }),
{
    let performed: HostSubstrateAction = match change {
        SubstrateChange::Nothing => HostSubstrateAction::Noop,
        SubstrateChange::ScrubUserData => HostSubstrateAction::ScrubUserData,
        SubstrateChange::RotateHostCertificate => HostSubstrateAction::RotateHostCertificate,
    };
    HostSubstrateApplyReport { performed, observation, next_plan }
}

/// A host is changed only under the very authority that was given, and then
/// exactly as the plan says: what is performed is the plan's action.
pub proof fn law_substrate_changes_as_authorized(
    authority: Result<(), String>,
    plan: HostSubstratePlan,
)
    ensures
        match substrate_change(authority, substrate_disposition(plan.action), plan) {
            Ok(change) => authority is Ok && change_action(change) == plan.action,
            Err(_) => authority is Err || substrate_disposition(plan.action)
                == PlanDisposition::Blocked,
        },
{
}

/// Strict SSH is tried only on a ready machine, at its own address; of one that
/// is not ready nothing more is asked.
pub proof fn law_only_ready_hosts_are_tried(
    machine: MachineSpec,
    provider_id: &str,
    look: Result<VultrInstance, ProviderFault>,
    r: SubstrateNext,
)
    requires
        call_ensures(observe_host_substrate, (&machine, provider_id, look), r),
    ensures
        look matches Ok(i) ==> (r is TryStrictSsh <==> i.status@ == "active"@ && i.power_status@
            == "running"@ && i.server_status@ == "ok"@ && !blank(i.main_ip@)),
        r matches SubstrateNext::TryStrictSsh(ip) ==> (look matches Ok(i) && ip@ == i.main_ip@),
        r matches SubstrateNext::Done(Ok(o)) ==> !o.provider_ready && !(o.strict_ssh_state is Pass)
            && o.user_data_scrubbed is None && o.host_certificate_serial is None && o.machine_id@
            == machine.id@ && o.provider_id@ == provider_id@,
        look is Err ==> (r matches SubstrateNext::Done(Err(_))),
{
}

/// A host is read further only where strict SSH has passed, and only then is it
/// seen as passed; each failure is seen as what it is.
pub proof fn law_only_strict_logins_pass(
    machine: MachineSpec,
    provider_id: &str,
    main_ip: String,
    sight: StrictSshSight,
    r: SubstrateNext,
)
    requires
        call_ensures(
            strict_ssh_observed,
            (&machine, provider_id, main_ip, Ok::<StrictSshSight, String>(sight)),
            r,
        ),
    ensures
        r is ReadHost <==> sight.passed,
        r matches SubstrateNext::ReadHost(o) ==> o.strict_ssh_state is Pass && o.provider_ready
            && o.main_ip@ == main_ip@ && o.machine_id@ == machine.id@,
        !sight.passed ==> (r matches SubstrateNext::Done(Ok(o)) && !(o.strict_ssh_state is Pass)
            && o.provider_ready && (sight.last_class == Some(StrictSshFailureClass::HostTrust)
            <==> o.strict_ssh_state is HostTrust) && (sight.last_class == Some(
            StrictSshFailureClass::Authentication,
        ) <==> o.strict_ssh_state is Authentication) && (sight.last_class == Some(
            StrictSshFailureClass::Transport,
        ) <==> o.strict_ssh_state is Transport) && (sight.last_class == Some(
            StrictSshFailureClass::RemoteAcceptance,
        ) <==> o.strict_ssh_state is RemoteAcceptance)),
{
}

/// A look at a host is complete only with both readings, which are kept as they
/// are; everything else stays as it was seen.
pub proof fn law_a_complete_look_has_both_readings(
    observation: HostSubstrateObservation,
    scrubbed: Result<bool, String>,
    serial: Result<u64, String>,
    r: Result<HostSubstrateObservation, String>,
)
    requires
        call_ensures(complete_host_substrate, (observation, scrubbed, serial), r),
    ensures
        r is Ok <==> scrubbed is Ok && serial is Ok,
        r matches Ok(o) ==> o.user_data_scrubbed == Some(scrubbed->Ok_0)
            && o.host_certificate_serial == Some(serial->Ok_0) && o.strict_ssh_state
            == observation.strict_ssh_state && o.provider_ready == observation.provider_ready
            && o.machine_id == observation.machine_id && o.main_ip == observation.main_ip,
{
}

/// A plan is authorized for what it is: a change where it scrubs or renews,
/// nothing where there is nothing to do, and blocked in every other case. What
/// is then done is the very action.
pub proof fn law_hosts_are_changed_as_planned(
    desired: DesiredState,
    machine: MachineSpec,
    minimum: u64,
    observed: HostSubstrateObservation,
    plan: HostSubstratePlan,
    bound: SubstrateMaterial,
    authority: Result<(), String>,
    r: Result<SubstrateChange, String>,
)
    requires
        call_ensures(
            authorize_host_substrate,
            (&desired, &machine, minimum, &observed, &plan),
            bound,
        ),
        call_ensures(apply_host_substrate_once, (authority, bound.disposition, &plan), r),
    ensures
        bound.disposition is Mutate <==> plan.action is ScrubUserData
            || plan.action is RotateHostCertificate,
        bound.disposition is Noop <==> plan.action is Noop,
        bound.desired.machine_id@ == machine.id@,
        bound.desired.minimum_host_certificate_serial == minimum,
        *bound.observed == observed && *bound.plan == plan && *bound.desired.desired == desired,
        r is Ok ==> authority is Ok,
        authority is Ok ==> (r is Ok <==> !(bound.disposition is Blocked)),
        r matches Ok(SubstrateChange::ScrubUserData) <==> authority is Ok
            && plan.action is ScrubUserData,
        r matches Ok(SubstrateChange::RotateHostCertificate) <==> authority is Ok
            && plan.action is RotateHostCertificate,
        r matches Ok(SubstrateChange::Nothing) <==> authority is Ok && plan.action is Noop,
{
}

/// What is told of a change is the change that was made.
pub proof fn law_changes_of_hosts_are_told(
    change: SubstrateChange,
    observation: HostSubstrateObservation,
    plan: HostSubstratePlan,
    r: HostSubstrateApplyReport,
)
    requires
        call_ensures(report_host_substrate, (change, observation, plan), r),
    ensures
        r.performed is ScrubUserData <==> change is ScrubUserData,
        r.performed is RotateHostCertificate <==> change is RotateHostCertificate,
        r.performed is Noop <==> change is Nothing,
        r.observation == observation && r.next_plan == plan,
{
}

/// A host is read only where strict SSH accepts it, and nothing is claimed of it
/// before it is read.
pub proof fn law_nothing_is_claimed_of_an_unread_host(
    machine: MachineSpec,
    provider_id: &str,
    main_ip: String,
    strict: Result<StrictSshSight, String>,
    r: SubstrateNext,
)
    requires
        call_ensures(strict_ssh_observed, (&machine, provider_id, main_ip, strict), r),
    ensures
        r is ReadHost <==> (strict matches Ok(s) && s.passed),
        strict is Err ==> (r matches SubstrateNext::Done(Err(_))),
        r matches SubstrateNext::ReadHost(o) ==> {
            &&& o.machine_id@ == machine.id@
            &&& o.provider_id@ == provider_id@
            &&& o.main_ip == main_ip
            &&& o.strict_ssh_state == StrictSshState::Pass
            &&& o.user_data_scrubbed is None
            &&& o.host_certificate_serial is None
        },
        r matches SubstrateNext::Done(Ok(o)) ==> {
            &&& o.machine_id@ == machine.id@
            &&& o.provider_id@ == provider_id@
            &&& o.main_ip == main_ip
            &&& o.strict_ssh_state != StrictSshState::Pass
            &&& o.user_data_scrubbed is None
            &&& o.host_certificate_serial is None
        },
{
    if let Ok(s) = strict {
        law_no_failure_is_a_pass(s.last_class);
    }
}

/// A host is looked at at least once, and where one look is asked for, once.
pub proof fn law_hosts_are_looked_at(
    policy: HostSubstrateExecutionPolicy,
    r: Result<(), String>,
    once: HostSubstrateExecutionPolicy,
)
    requires
        call_ensures(check_substrate_attempts, (policy,), r),
        call_ensures(HostSubstrateExecutionPolicy::with_single_look, (policy,), once),
    ensures
        r is Ok <==> policy.ssh_observe_attempts > 0,
        once.ssh_observe_attempts == 1,
{
}

} // verus!
