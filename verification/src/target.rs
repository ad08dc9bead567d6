//! The machine that a deployment goes to: one that is named, one that is found,
//! or one that is made; and its end.
use crate::bootstrap::{WaitNext, is_provider_ready, provider_ready};
use crate::lifecycle::{OwnedCreateRequest, absence_sight};
use crate::lists::{Found, finds, lemma_filter_members, lemma_filter_start, lemma_filter_step};
use crate::once::{
    Ask, Ending, Next, Phase, ProviderFault, Reply, Sight, carries, on_reply, read_removal,
    removal_reply,
};
use crate::provider::VultrInstance;
use crate::requests::{DeployRequest, Status, StatusCode};
use crate::text::{
    blank, cat2, cat3, cat4, cat5, cat6, cat8, contains, decimal, has_part, is_blank, lowered,
    number, number_value, parse_number, replace_char, replaced_char, same, texts, to_lowercase,
};
use crate::trust::ResolvedDeployTarget;
use vstd::prelude::*;
use vstd::string::*;

verus! {

pub const DEFAULT_REGION: &'static str = "waw";

pub const DEFAULT_PLAN: &'static str = "vc2-1c-1gb";

pub const DEFAULT_VULTR_OS_ID: u32 = 2625;

/// The label of a machine that is only pretended.
pub const MOCK_LABEL: &'static str = "mock-edge";

/// The address of a machine that is only pretended.
pub const MOCK_ADDRESS: &'static str = "203.0.113.10";

/// The tag of every machine that the controller has made.
pub const MANAGED_TAG: &'static str = "managed-by-sing-box";

/// How often a machine is asked for.
pub const VULTR_CREATE_ATTEMPTS: u32 = 3;

/// How often a machine is looked for that may have been made.
pub const VULTR_CREATE_REOBSERVATION_ATTEMPTS: u32 = 30;

/// How often a machine is looked for that may have been removed.
pub const VULTR_DESTROY_REOBSERVATION_ATTEMPTS: usize = 180;

/// How often a machine is looked at until it is up.
pub const READY_ATTEMPTS: u32 = 60;

/// Where the search for a deployment's machine begins.
#[derive(Debug, PartialEq, Eq)]
pub enum TargetStart {
    /// Pretend a machine.
    Mock { label: String, target_ip: String },
    /// Look the named machine up, if the provider can be asked.
    LookUp(String),
    /// Choose without the provider.
    Choose,
}

/// Decides where the search for a deployment's machine begins.
pub fn begin_target(request: &DeployRequest) -> (r: TargetStart)
    ensures
        if request.mock_provider {
            &&& r matches TargetStart::Mock { label, target_ip }
            &&& label@ == match request.label_prefix {
                Some(l) => l@,
                None => MOCK_LABEL@,
            }
            &&& target_ip@ == match request.target_ip {
                Some(ip) => ip@,
                None => MOCK_ADDRESS@,
            }
        } else {
            match request.instance_id {
                Some(id) => r == TargetStart::LookUp(id),
                None => r is Choose,
            }
        },
{
    if request.mock_provider {
        let label: String = match &request.label_prefix {
            Some(l) => l.clone(),
            None => MOCK_LABEL.to_owned(),
        };
        let target_ip: String = match &request.target_ip {
            Some(ip) => ip.clone(),
            None => MOCK_ADDRESS.to_owned(),
        };
        return TargetStart::Mock { label, target_ip };
    }
    match &request.instance_id {
        Some(id) => TargetStart::LookUp(id.clone()),
        None => TargetStart::Choose,
    }
}

/// A machine that is there already.
#[derive(Debug, PartialEq, Eq)]
pub enum TargetChoice {
    Use(ResolvedDeployTarget),
    Create,
}

/// The name of a machine that is known only by its address.
pub open spec fn manual_id(target_ip: Seq<char>) -> Seq<char> {
    "manual-"@ + replaced_char(target_ip, '.', "-"@)
}

/// Whether a machine was looked up and has an address.
pub open spec fn addressed(found: Option<VultrInstance>) -> bool {
    found matches Some(i) && !blank(i.main_ip@)
}

/// The machine that is there already, if there is one.
pub open spec fn present_target(
    request: DeployRequest,
    found: Option<VultrInstance>,
    choice: TargetChoice,
) -> bool {
    if addressed(found) {
        &&& choice matches TargetChoice::Use(t)
        &&& t.instance_id == found->0.id
        &&& t.target_ip == found->0.main_ip
        &&& !t.created_instance
    } else {
        match request.target_ip {
            Some(ip) if !blank(ip@) => {
                &&& choice matches TargetChoice::Use(t)
                &&& t.instance_id@ == match request.instance_id {
                    Some(id) => id@,
                    None => manual_id(ip@),
                }
                &&& t.target_ip == ip
                &&& !t.created_instance
            },
            _ => choice is Create,
        }
    }
}

/// Chooses a machine that is there already: the one that was looked up, if it
/// has an address, or the one at the given address. Otherwise one has to be
/// made.
pub fn resolve_deploy_target(request: &DeployRequest, found: Option<VultrInstance>) -> (r: TargetChoice)
    ensures
        present_target(*request, found, r),
{
    match found {
        Some(i) => {
            if !is_blank(i.main_ip.as_str()) {
                return TargetChoice::Use(
                    ResolvedDeployTarget {
                        instance_id: i.id,
                        target_ip: i.main_ip,
                        created_instance: false,
                    },
                );
            }
        },
        None => {},
    }
    match &request.target_ip {
        Some(ip) => {
            if is_blank(ip.as_str()) {
                return TargetChoice::Create;
            }
            let instance_id: String = match &request.instance_id {
                Some(id) => id.clone(),
                None => cat2("manual-", replace_char(ip.as_str(), '.', "-").as_str()),
            };
            TargetChoice::Use(
                ResolvedDeployTarget { instance_id, target_ip: ip.clone(), created_instance: false },
            )
        },
        None => TargetChoice::Create,
    }
}

/// What a new machine cannot be made without, if it is missing.
pub fn check_creation_secrets(api_key: bool, ssh_key_id: bool) -> (r: Result<(), String>)
    ensures
        match r {
            Ok(()) => api_key && ssh_key_id,
            Err(e) => e@ == if !api_key {
                "deploy requires target_ip, a resolvable instance_id, or a configured Vultr API key secret"@
            } else {
                "deploy requires a configured Vultr SSH key id secret when creating a fresh host"@
            } && !(api_key && ssh_key_id),
        },
{
    if !api_key {
        Err(
            "deploy requires target_ip, a resolvable instance_id, or a configured Vultr API key secret".to_owned(),
        )
    } else if !ssh_key_id {
        Err(
            "deploy requires a configured Vultr SSH key id secret when creating a fresh host".to_owned(),
        )
    } else {
        Ok(())
    }
}

/// What the environment says of new machines.
#[derive(Debug, PartialEq, Eq)]
pub struct MachineSettings {
    pub region: Option<String>,
    pub plan: Option<String>,
    pub os_id: Option<String>,
}

/// The system on a new machine, unless it starts from a stored disk.
pub open spec fn system_of(set: Option<Seq<char>>) -> u32 {
    match set {
        Some(t) => match number_value(t, 0xffff_ffff) {
            Ok(n) => n as u32,
            Err(_) => DEFAULT_VULTR_OS_ID,
        },
        None => DEFAULT_VULTR_OS_ID,
    }
}

/// The request for a deployment's machine.
pub open spec fn machine_request(
    request: DeployRequest,
    settings: MachineSettings,
    label: Seq<char>,
    ssh_key_id: Seq<char>,
    cloud_init: Seq<char>,
    r: OwnedCreateRequest,
) -> bool {
    let from_disk = request.snapshot_id matches Some(s) && !blank(s@);
    &&& r.region@ == match settings.region {
        Some(t) => t@,
        None => DEFAULT_REGION@,
    }
    &&& r.plan@ == match settings.plan {
        Some(t) => t@,
        None => DEFAULT_PLAN@,
    }
    &&& r.os_id == if from_disk {
        None
    } else {
        Some(system_of(settings.os_id.deep_view()))
    }
    &&& r.snapshot_id == if from_disk {
        request.snapshot_id
    } else {
        None
    }
    &&& r.label@ == label
    &&& r.ssh_key_id@ == ssh_key_id
    &&& r.cloud_init@ == cloud_init
    &&& r.firewall_group_id is None
    &&& texts(r.tags@) == seq![MANAGED_TAG@, label]
    &&& r.enable_ipv6
}

/// Puts the request for a deployment's machine together.
pub fn create_deploy_request(
    request: &DeployRequest,
    settings: &MachineSettings,
    deployment_label: &str,
    ssh_key_id: &str,
    cloud_init: &str,
) -> (r: OwnedCreateRequest)
    ensures
        machine_request(*request, *settings, deployment_label@, ssh_key_id@, cloud_init@, r),
{
    let snapshot_id: Option<String> = match &request.snapshot_id {
        Some(s) => {
            if is_blank(s.as_str()) {
                None
            } else {
                Some(s.clone())
            }
        },
        None => None,
    };
    let os_id: Option<u32> = if snapshot_id.is_some() {
        None
    } else {
        match &settings.os_id {
            Some(t) => match parse_number(t.as_str(), 0xffff_ffff) {
                Ok(n) => Some(n as u32),
                Err(_) => Some(DEFAULT_VULTR_OS_ID),
            },
            None => Some(DEFAULT_VULTR_OS_ID),
        }
    };
    let mut tags: Vec<String> = Vec::new();
    tags.push(MANAGED_TAG.to_owned());
    tags.push(deployment_label.to_owned());
    assert(texts(tags@) =~= seq![MANAGED_TAG@, deployment_label@]);
    OwnedCreateRequest {
        region: match &settings.region {
            Some(t) => t.clone(),
            None => DEFAULT_REGION.to_owned(),
        },
        plan: match &settings.plan {
            Some(t) => t.clone(),
            None => DEFAULT_PLAN.to_owned(),
        },
        os_id,
        snapshot_id,
        label: deployment_label.to_owned(),
        ssh_key_id: ssh_key_id.to_owned(),
        cloud_init: cloud_init.to_owned(),
        firewall_group_id: None,
        tags,
        enable_ipv6: true,
    }
}

/// The machine that was made for a deployment, which must have an address.
pub fn created_target(ready: VultrInstance) -> (r: Result<ResolvedDeployTarget, String>)
    ensures
        match r {
            Ok(t) => !blank(ready.main_ip@) && t == (ResolvedDeployTarget {
                instance_id: ready.id,
                target_ip: ready.main_ip,
                created_instance: true,
            }),
            Err(e) => blank(ready.main_ip@) && e@ == "created instance "@ + ready.id@
                + " did not report a main IP after provisioning"@,
        },
{
    if is_blank(ready.main_ip.as_str()) {
        Err(
            cat3(
                "created instance ",
                ready.id.as_str(),
                " did not report a main IP after provisioning",
            ),
        )
    } else {
        Ok(
            ResolvedDeployTarget {
                instance_id: ready.id,
                target_ip: ready.main_ip,
                created_instance: true,
            },
        )
    }
}

/// Decides what follows look number `attempt` (from zero) at a machine that is
/// coming up.
pub fn wait_for_instance_ready(attempt: u32, look: Result<VultrInstance, ProviderFault>) -> (r:
    WaitNext<VultrInstance>)
    ensures
        match look {
            Err(fault) => r matches WaitNext::Done(Err(e)) && e@ == fault.message@,
            Ok(i) => if provider_ready(i) {
                r == WaitNext::Done(Ok::<VultrInstance, String>(i))
            } else if attempt + 1 < READY_ATTEMPTS {
                r is Again
            } else {
                r matches WaitNext::Done(Err(e)) && e@ == "instance "@ + i.id@
                    + " did not become ready in time: status="@ + i.status@ + ", server_status="@
                    + i.server_status@ + ", main_ip="@ + i.main_ip@
            },
        },
{
    match look {
        Err(fault) => WaitNext::Done(Err(fault.message)),
        Ok(i) => {
            if is_provider_ready(&i) {
                WaitNext::Done(Ok(i))
            } else if attempt < READY_ATTEMPTS && attempt + 1 < READY_ATTEMPTS {
                WaitNext::Again
            } else {
                WaitNext::Done(
                    Err(
                        cat8(
                            "instance ",
                            i.id.as_str(),
                            " did not become ready in time: status=",
                            i.status.as_str(),
                            ", server_status=",
                            i.server_status.as_str(),
                            ", main_ip=",
                            i.main_ip.as_str(),
                        ),
                    ),
                )
            }
        },
    }
}

/// Whether a failure to find a machine may pass.
pub open spec fn passing_failure(message: Seq<char>) -> bool {
    let m = lowered(message);
    has_part(m, "transport"@) || has_part(m, "timeout"@) || has_part(m, "http 429"@) || has_part(
        m,
        "http 5"@,
    )
}

/// The refusal for a machine that was not found.
pub fn status_for_target_resolution_error(message: String) -> (r: Status)
    ensures
        r == (Status {
            code: if passing_failure(message@) {
                StatusCode::Unavailable
            } else {
                StatusCode::InvalidArgument
            },
            message,
        }),
{
    let m: String = to_lowercase(message.as_str());
    if contains(m.as_str(), "transport") || contains(m.as_str(), "timeout") || contains(
        m.as_str(),
        "http 429",
    ) || contains(m.as_str(), "http 5") {
        Status { code: StatusCode::Unavailable, message }
    } else {
        Status { code: StatusCode::InvalidArgument, message }
    }
}

/// Whether the machine at that position is the first with the label from
/// `from` on.
pub open spec fn first_labelled(
    instances: Seq<VultrInstance>,
    label: Seq<char>,
    from: int,
    i: int,
) -> bool {
    &&& from <= i < instances.len()
    &&& instances[i].label@ == label
    &&& forall|k: int| from <= k < i ==> (#[trigger] instances[k]).label@ != label
}

/// Whether no machine from `from` on has the label.
pub open spec fn none_labelled(instances: Seq<VultrInstance>, label: Seq<char>, from: int) -> bool {
    forall|k: int| from <= k < instances.len() ==> (#[trigger] instances[k]).label@ != label
}

/// The error for two machines with the same label.
pub open spec fn ambiguous(label: Seq<char>, first: Seq<char>, second: Seq<char>) -> Seq<char> {
    "ambiguous Vultr instance identity for label "@ + label + ": at least "@ + first + " and "@
        + second
}

fn find_labelled(instances: &Vec<VultrInstance>, label: &str, from: usize) -> (r: Option<usize>)
    requires
        from <= instances@.len(),
    ensures
        match r {
            Some(i) => first_labelled(instances@, label@, from as int, i as int),
            None => none_labelled(instances@, label@, from as int),
        },
{
    let mut i: usize = from;
    while i < instances.len()
        invariant
            from <= i <= instances@.len(),
            forall|k: int| from <= k < i ==> (#[trigger] instances@[k]).label@ != label@,
        decreases instances@.len() - i,
    {
        if same(instances[i].label.as_str(), label) {
            return Some(i);
        }
        i = i + 1;
    }
    None
}

/// What a search for the machine with a label finds.
pub open spec fn label_search(
    instances: Seq<VultrInstance>,
    label: Seq<char>,
    r: Result<Option<usize>, String>,
) -> bool {
    match r {
        Ok(None) => none_labelled(instances, label, 0),
        Ok(Some(i)) => only_labelled(instances, label, i as int),
        Err(e) => exists|i: int, j: int|
            first_labelled(instances, label, 0, i) && #[trigger] first_labelled(
                instances,
                label,
                i + 1,
                j,
            ) && e@ == ambiguous(label, instances[i].id@, instances[j].id@),
    }
}

fn find_only(instances: &Vec<VultrInstance>, deployment_label: &str) -> (r: Result<
    Option<usize>,
    String,
>)
    ensures
        label_search(instances@, deployment_label@, r),
{
    let n: usize = instances.len();
    match find_labelled(instances, deployment_label, 0) {
        None => Ok(None),
        Some(i) => match find_labelled(instances, deployment_label, i + 1) {
            None => Ok(Some(i)),
            Some(j) => {
                assert(first_labelled(instances@, deployment_label@, i + 1, j as int));
                Err(
                    cat6(
                        "ambiguous Vultr instance identity for label ",
                        deployment_label,
                        ": at least ",
                        instances[i].id.as_str(),
                        " and ",
                        instances[j].id.as_str(),
                    ),
                )
            },
        },
    }
}

/// Whether the machine at that position is the only one with the label.
pub open spec fn only_labelled(instances: Seq<VultrInstance>, label: Seq<char>, i: int) -> bool {
    first_labelled(instances, label, 0, i) && none_labelled(instances, label, i + 1)
}

/// Finds the only machine with a label. Two are an error.
pub fn select_unique_vultr_instance_by_label<'a>(
    instances: &'a Vec<VultrInstance>,
    deployment_label: &str,
) -> (r: Result<Option<&'a VultrInstance>, String>)
    ensures
        match r {
            Ok(None) => label_search(instances@, deployment_label@, Ok(None)),
            Ok(Some(x)) => exists|i: int|
                #[trigger] only_labelled(instances@, deployment_label@, i) && *x == instances@[i],
            Err(e) => label_search(instances@, deployment_label@, Err(e)),
        },
{
    match find_only(instances, deployment_label) {
        Ok(None) => Ok(None),
        Ok(Some(i)) => {
            assert(only_labelled(instances@, deployment_label@, i as int));
            Ok(Some(&instances[i]))
        },
        Err(e) => Err(e),
    }
}

/// Whether a machine has a tag.
pub open spec fn tagged(i: VultrInstance, tag: Seq<char>) -> bool {
    texts(i.tags@).contains(tag)
}

fn has_tag(tags: &Vec<String>, tag: &str) -> (r: bool)
    ensures
        r == texts(tags@).contains(tag@),
{
    let mut i: usize = 0;
    while i < tags.len()
        invariant
            i <= tags@.len(),
            forall|k: int| 0 <= k < i ==> #[trigger] texts(tags@)[k] != tag@,
        decreases tags@.len() - i,
    {
        if same(tags[i].as_str(), tag) {
            assert(texts(tags@)[i as int] == tag@);
            return true;
        }
        i = i + 1;
    }
    false
}

/// Whether a machine is the one that a request asks for.
pub open spec fn matches_request(i: VultrInstance, request: OwnedCreateRequest) -> bool {
    &&& i.label@ == request.label@
    &&& i.region@ == request.region@
    &&& i.plan@ == request.plan@
    &&& request.os_id matches Some(os) ==> i.os_id == os
    &&& request.firewall_group_id matches Some(g) ==> i.firewall_group_id@ == g@
    &&& forall|k: int| 0 <= k < request.tags@.len() ==> tagged(i, #[trigger] request.tags@[k]@)
}

/// Whether a machine is the one that a request asks for.
pub fn instance_matches_create_request(instance: &VultrInstance, request: &OwnedCreateRequest) -> (r:
    bool)
    ensures
        r == matches_request(*instance, *request),
{
    if !same(instance.label.as_str(), request.label.as_str()) || !same(
        instance.region.as_str(),
        request.region.as_str(),
    ) || !same(instance.plan.as_str(), request.plan.as_str()) {
        return false;
    }
    match request.os_id {
        Some(os) => {
            if instance.os_id != os {
                return false;
            }
        },
        None => {},
    }
    match &request.firewall_group_id {
        Some(g) => {
            if !same(instance.firewall_group_id.as_str(), g.as_str()) {
                return false;
            }
        },
        None => {},
    }
    let mut k: usize = 0;
    while k < request.tags.len()
        invariant
            k <= request.tags@.len(),
            forall|n: int| 0 <= n < k ==> tagged(*instance, #[trigger] request.tags@[n]@),
        decreases request.tags@.len() - k,
    {
        if !has_tag(&instance.tags, request.tags[k].as_str()) {
            assert(!tagged(*instance, request.tags@[k as int]@));
            return false;
        }
        k = k + 1;
    }
    true
}

/// The error for a machine with the label that is not the one asked for.
pub open spec fn conflict(i: VultrInstance, request: OwnedCreateRequest) -> Seq<char> {
    "Vultr instance identity conflict for label "@ + request.label@ + ": id="@ + i.id@
        + " region="@ + i.region@ + " plan="@ + i.plan@ + " os_id="@ + decimal(i.os_id as nat)
        + " firewall_group_id="@ + i.firewall_group_id@
}

/// What a look for the machine that a request asks for shows: it, nothing, or
/// why it cannot be told.
pub open spec fn identity_look(
    listed: Result<Vec<VultrInstance>, String>,
    request: OwnedCreateRequest,
    r: Result<Option<VultrInstance>, String>,
) -> bool {
    match listed {
        Err(e) => r == Err::<Option<VultrInstance>, String>(e),
        Ok(instances) => match r {
            Ok(None) => label_search(instances@, request.label@, Ok(None)),
            Ok(Some(x)) => exists|i: int|
                #[trigger] only_labelled(instances@, request.label@, i) && x == instances@[i]
                    && matches_request(instances@[i], request),
            Err(e) => {
                ||| label_search(instances@, request.label@, Err(e))
                ||| exists|i: int|
                    #[trigger] only_labelled(instances@, request.label@, i) && !matches_request(
                        instances@[i],
                        request,
                    ) && e@ == conflict(instances@[i], request)
            },
        },
    }
}

/// Looks for the machine that a request asks for among all of the provider's. A
/// machine with the label that is not the one asked for is an error.
pub fn observe_vultr_create_identity(
    listed: Result<Vec<VultrInstance>, String>,
    request: &OwnedCreateRequest,
) -> (r: Result<Option<VultrInstance>, String>)
    ensures
        identity_look(listed, *request, r),
{
    let mut instances: Vec<VultrInstance> = match listed {
        Err(e) => {
            return Err(e);
        },
        Ok(instances) => instances,
    };
    let ghost all = instances@;
    match find_only(&instances, request.label.as_str()) {
        Err(e) => Err(e),
        Ok(None) => Ok(None),
        Ok(Some(i)) => {
            assert(only_labelled(all, request.label@, i as int));
            if instance_matches_create_request(&instances[i], request) {
                let seen: VultrInstance = instances.swap_remove(i);
                return Ok(Some(seen));
            }
            let seen: &VultrInstance = &instances[i];
            let head: String = cat8(
                "Vultr instance identity conflict for label ",
                request.label.as_str(),
                ": id=",
                seen.id.as_str(),
                " region=",
                seen.region.as_str(),
                " plan=",
                seen.plan.as_str(),
            );
            Err(
                cat5(
                    head.as_str(),
                    " os_id=",
                    number(seen.os_id as u64).as_str(),
                    " firewall_group_id=",
                    seen.firewall_group_id.as_str(),
                ),
            )
        },
    }
}

/// How far making a machine has come.
#[derive(Debug, PartialEq, Eq)]
pub enum CreatePhase {
    /// Nothing has been asked for.
    Before,
    /// The machine has been asked for so often.
    Asked(u32),
    /// The machine has been asked for so often, and may be there: so many looks
    /// have not shown it. The last answer was that failure.
    Watching { asked: u32, seen: u32, failure: String },
    Over,
}

/// What making a machine does next.
#[derive(Debug, PartialEq, Eq)]
pub enum CreateNext {
    /// Ask for the machine.
    Create,
    /// Look for the machine, after a pause where `pause` holds.
    Look { pause: bool },
    Done(Result<VultrInstance, String>),
}

/// What a look leads to.
pub open spec fn create_looked(
    from: CreatePhase,
    sight: Result<Option<VultrInstance>, String>,
    to: CreatePhase,
    next: CreateNext,
) -> bool {
    match sight {
        Err(e) => to is Over && next == CreateNext::Done(Err::<VultrInstance, String>(e)),
        Ok(Some(i)) => to is Over && next == CreateNext::Done(Ok::<VultrInstance, String>(i)),
        Ok(None) => match from {
            CreatePhase::Watching { asked, seen, failure } => if seen + 1
                < VULTR_CREATE_REOBSERVATION_ATTEMPTS {
                &&& to == (CreatePhase::Watching { asked, seen: (seen + 1) as u32, failure })
                &&& next == (CreateNext::Look { pause: true })
            } else if asked < VULTR_CREATE_ATTEMPTS {
                to == CreatePhase::Asked((asked + 1) as u32) && next is Create
            } else {
                to is Over && next == CreateNext::Done(Err::<VultrInstance, String>(failure))
            },
            _ => to == CreatePhase::Asked(1) && next is Create,
        },
    }
}

/// What the answer to a request for the machine leads to.
pub open spec fn create_replied(
    asked: u32,
    reply: Result<VultrInstance, ProviderFault>,
    to: CreatePhase,
    next: CreateNext,
) -> bool {
    match reply {
        Ok(i) => to is Over && next == CreateNext::Done(Ok::<VultrInstance, String>(i)),
        Err(f) => if f.uncertain {
            &&& to == (CreatePhase::Watching { asked, seen: 0, failure: f.message })
            &&& next == (CreateNext::Look { pause: false })
        } else {
            to is Over && next == CreateNext::Done(Err::<VultrInstance, String>(f.message))
        },
    }
}

/// Checks that a request for a machine is the deployment's.
pub fn check_create_label(request: &OwnedCreateRequest, deployment_label: &str) -> (r: Result<
    (),
    String,
>)
    ensures
        match r {
            Ok(()) => request.label@ == deployment_label@,
            Err(e) => request.label@ != deployment_label@ && e@
                == "Vultr create identity mismatch: request label "@ + request.label@
                + " does not match deployment label "@ + deployment_label@,
        },
{
    if same(request.label.as_str(), deployment_label) {
        Ok(())
    } else {
        Err(
            cat4(
                "Vultr create identity mismatch: request label ",
                request.label.as_str(),
                " does not match deployment label ",
                deployment_label,
            ),
        )
    }
}

impl CreatePhase {
    /// Takes a look for the machine into account. A machine that is there is
    /// taken over; one that may be there is asked for again only after it was
    /// looked for in vain.
    pub fn create_or_adopt_vultr_instance(self, sight: Result<Option<VultrInstance>, String>) -> (r: (
        CreatePhase,
        CreateNext,
    ))
        requires
            self is Before || self is Watching,
        ensures
            create_looked(self, sight, r.0, r.1),
    {
        match sight {
            Err(e) => (CreatePhase::Over, CreateNext::Done(Err(e))),
            Ok(Some(i)) => (CreatePhase::Over, CreateNext::Done(Ok(i))),
            Ok(None) => match self {
                CreatePhase::Watching { asked, seen, failure } => {
                    if seen < VULTR_CREATE_REOBSERVATION_ATTEMPTS && seen + 1
                        < VULTR_CREATE_REOBSERVATION_ATTEMPTS {
                        (
                            CreatePhase::Watching { asked, seen: seen + 1, failure },
                            CreateNext::Look { pause: true },
                        )
                    } else if asked < VULTR_CREATE_ATTEMPTS {
                        (CreatePhase::Asked(asked + 1), CreateNext::Create)
                    } else {
                        (CreatePhase::Over, CreateNext::Done(Err(failure)))
                    }
                },
                _ => (CreatePhase::Asked(1), CreateNext::Create),
            },
        }
    }

    /// Takes the answer to a request for the machine into account.
    pub fn create_replied(self, reply: Result<VultrInstance, ProviderFault>) -> (r: (
        CreatePhase,
        CreateNext,
    ))
        requires
            self is Asked,
        ensures
            self matches CreatePhase::Asked(asked) && create_replied(asked, reply, r.0, r.1),
    {
        let asked: u32 = match self {
            CreatePhase::Asked(asked) => asked,
            _ => 0,
        };
        match reply {
            Ok(i) => (CreatePhase::Over, CreateNext::Done(Ok(i))),
            Err(f) => {
                if f.uncertain {
                    (
                        CreatePhase::Watching { asked, seen: 0, failure: f.message },
                        CreateNext::Look { pause: false },
                    )
                } else {
                    (CreatePhase::Over, CreateNext::Done(Err(f.message)))
                }
            },
        }
    }
}

/// How much is left to do while a machine is made.
pub open spec fn create_budget(phase: CreatePhase) -> int {
    match phase {
        CreatePhase::Before => 128int,
        CreatePhase::Asked(asked) => 32 * (3 - asked) + 31,
        CreatePhase::Watching { asked, seen, failure } => 32 * (3 - asked) + 30 - seen,
        CreatePhase::Over => 0,
    }
}

/// Whether a phase is one that making a machine can come to.
pub open spec fn create_phase_wf(phase: CreatePhase) -> bool {
    match phase {
        CreatePhase::Asked(asked) => 1 <= asked <= VULTR_CREATE_ATTEMPTS,
        CreatePhase::Watching { asked, seen, failure } => 1 <= asked <= VULTR_CREATE_ATTEMPTS
            && seen < VULTR_CREATE_REOBSERVATION_ATTEMPTS,
        _ => true,
    }
}

/// A machine is made or given up after a bounded number of looks and requests,
/// and it is asked for three times at most.
pub proof fn law_making_a_machine_ends(
    from: CreatePhase,
    sight: Result<Option<VultrInstance>, String>,
    reply: Result<VultrInstance, ProviderFault>,
    to: CreatePhase,
    next: CreateNext,
)
    requires
        create_phase_wf(from),
        ((from is Before || from is Watching) && create_looked(from, sight, to, next)) || (
        from matches CreatePhase::Asked(asked) && create_replied(asked, reply, to, next)),
    ensures
        create_phase_wf(to),
        0 <= create_budget(to) < create_budget(from),
        next is Done <==> to is Over,
{
}

/// A machine that may be there is not asked for again before it was looked for
/// as often as allowed, and none of the looks showed it.
pub proof fn law_machine_is_asked_for_again_only_after_looking(
    from: CreatePhase,
    sight: Result<Option<VultrInstance>, String>,
    to: CreatePhase,
    next: CreateNext,
)
    requires
        create_phase_wf(from),
        from is Watching,
        create_looked(from, sight, to, next),
        next is Create,
    ensures
        sight == Ok::<Option<VultrInstance>, String>(None),
        from matches CreatePhase::Watching { asked, seen, failure } && seen + 1
            == VULTR_CREATE_REOBSERVATION_ATTEMPTS && to == CreatePhase::Asked((asked + 1) as u32),
{
}

/// How a machine came to be gone.
#[derive(Debug, Clone, Copy, PartialEq, Eq, Structural)]
pub enum DestroyInstanceOutcome {
    Requested,
    AlreadyAbsent,
}

/// The removal of a machine, as far as it has come.
#[derive(Debug, PartialEq, Eq)]
pub struct InstanceRemoval {
    pub phase: Phase,
    /// What the provider said about the request, where it said anything.
    pub complaint: String,
}

/// The error for a machine that did not go away.
pub open spec fn still_there(instance_id: Seq<char>, reply: Reply, complaint: Seq<char>) -> Seq<
    char,
> {
    match reply {
        Reply::Uncertain => complaint + "; exact instance "@ + instance_id
            + " remained present after bounded re-observation, and DELETE was not replayed blindly"@,
        _ => "Vultr instance "@ + instance_id
            + " remained present after a successful DELETE request; refusing to clear local authority"@,
    }
}

fn still_there_words(instance_id: &str, reply: Reply, complaint: &str) -> (r: String)
    ensures
        r@ == still_there(instance_id@, reply, complaint@),
{
    match reply {
        Reply::Uncertain => cat4(
            complaint,
            "; exact instance ",
            instance_id,
            " remained present after bounded re-observation, and DELETE was not replayed blindly",
        ),
        _ => cat3(
            "Vultr instance ",
            instance_id,
            " remained present after a successful DELETE request; refusing to clear local authority",
        ),
    }
}

impl InstanceRemoval {
    /// Before anything has been done.
    pub fn new() -> (r: InstanceRemoval)
        ensures
            r.phase is Before,
            r.complaint@.len() == 0,
    {
        InstanceRemoval { phase: Phase::Before, complaint: String::new() }
    }

    /// Takes a look for the machine into account: the fault that the provider
    /// answered with, or none where it showed the machine.
    pub fn destroy_vultr_instance_reconciled(
        self,
        instance_id: &str,
        fault: &Option<ProviderFault>,
    ) -> (r: (InstanceRemoval, Next<DestroyInstanceOutcome>))
        requires
            self.phase.wants_look(),
        ensures
            ({
                let (phase, ask) = self.phase.looked(
                    VULTR_DESTROY_REOBSERVATION_ATTEMPTS,
                    absence_sight(*fault),
                );
                &&& r.0 == (InstanceRemoval { phase, ..self })
                &&& carries(ask, r.1)
                &&& r.1 matches Next::Done(result) ==> match *fault {
                    None => result matches Err(e) && e@ == still_there(
                        instance_id@,
                        self.phase->reply,
                        self.complaint@,
                    ),
                    Some(f) => if f.not_found {
                        result == Ok::<DestroyInstanceOutcome, String>(
                            if self.phase is Watching {
                                DestroyInstanceOutcome::Requested
                            } else {
                                DestroyInstanceOutcome::AlreadyAbsent
                            },
                        )
                    } else {
                        result matches Err(e) && e@ == f.message@
                    },
                }
            }),
    {
        let sight: Sight = match fault {
            None => Sight::Pending,
            Some(f) => if f.not_found {
                Sight::Reached
            } else {
                Sight::Broken
            },
        };
        let watching: bool = match self.phase {
            Phase::Watching { .. } => true,
            _ => false,
        };
        let reply: Reply = match self.phase {
            Phase::Watching { seen, reply } => reply,
            _ => Reply::Accepted,
        };
        let (phase, ask): (Phase, Ask) = self.phase.look(
            VULTR_DESTROY_REOBSERVATION_ATTEMPTS,
            sight,
        );
        let next: Next<DestroyInstanceOutcome> = match ask {
            Ask::Change => Next::Change,
            Ask::Look { pause } => Next::Look { pause },
            Ask::Finish(_) => match fault {
                None => Next::Done(
                    Err(still_there_words(instance_id, reply, self.complaint.as_str())),
                ),
                Some(f) => if f.not_found {
                    if watching {
                        Next::Done(Ok(DestroyInstanceOutcome::Requested))
                    } else {
                        Next::Done(Ok(DestroyInstanceOutcome::AlreadyAbsent))
                    }
                } else {
                    Next::Done(Err(f.message.clone()))
                },
            },
        };
        (InstanceRemoval { phase, complaint: self.complaint }, next)
    }

    /// Takes the answer to the request into account.
    pub fn replied(self, instance_id: &str, fault: &Option<ProviderFault>) -> (r: (
        InstanceRemoval,
        Next<DestroyInstanceOutcome>,
    ))
        requires
            self.phase is Asked,
        ensures
            ({
                let reply = removal_reply(*fault);
                let (phase, ask) = on_reply(VULTR_DESTROY_REOBSERVATION_ATTEMPTS, reply);
                let complaint = match *fault {
                    Some(f) => f.message@,
                    None => Seq::empty(),
                };
                &&& r.0.phase == phase
                &&& r.0.complaint@ == complaint
                &&& carries(ask, r.1)
                &&& r.1 matches Next::Done(result) ==> if reply == Reply::NotFound {
                    result == Ok::<DestroyInstanceOutcome, String>(
                        DestroyInstanceOutcome::AlreadyAbsent,
                    )
                } else {
                    result matches Err(e) && e@ == complaint
                }
            }),
    {
        let reply: Reply = read_removal(fault);
        let (phase, ask): (Phase, Ask) = self.phase.reply(
            VULTR_DESTROY_REOBSERVATION_ATTEMPTS,
            reply,
        );
        let complaint: String = match fault {
            Some(f) => f.message.clone(),
            None => String::new(),
        };
        let next: Next<DestroyInstanceOutcome> = match ask {
            Ask::Change => Next::Change,
            Ask::Look { pause } => Next::Look { pause },
            Ask::Finish(Ending::NothingThere) => Next::Done(
                Ok(DestroyInstanceOutcome::AlreadyAbsent),
            ),
            Ask::Finish(_) => Next::Done(Err(complaint.clone())),
        };
        (InstanceRemoval { phase, complaint }, next)
    }
}

/// Whether a machine is fit to be taken for the live one.
pub open spec fn reconcilable(i: VultrInstance) -> bool {
    &&& i.status@ == "active"@
    &&& i.server_status@ == "ok"@
    &&& !blank(i.main_ip@)
    &&& has_part(i.label@, "edge"@)
}

/// How many machines are fit to be taken for the live one.
pub open spec fn reconcilable_count(instances: Seq<VultrInstance>) -> nat {
    instances.filter(|x: VultrInstance| reconcilable(x)).len()
}

/// Whether the machine at that position is the only one that is fit to be taken
/// for the live one.
pub open spec fn only_reconcilable(instances: Seq<VultrInstance>, i: usize) -> bool {
    finds(instances, |x: VultrInstance| reconcilable(x), Found::One(i))
}

fn is_reconcilable(i: &VultrInstance) -> (r: bool)
    ensures
        r == reconcilable(*i),
{
    same(i.status.as_str(), "active") && same(i.server_status.as_str(), "ok") && !is_blank(
        i.main_ip.as_str(),
    ) && contains(i.label.as_str(), "edge")
}

/// Finds the only machine that is fit to be taken for the live one, by its
/// position. Where there are two, none is.
pub fn choose_single_reconcilable_instance(instances: &Vec<VultrInstance>) -> (r: Option<usize>)
    ensures
        match r {
            Some(i) => only_reconcilable(instances@, i),
            None => reconcilable_count(instances@) != 1,
        },
{
    let ghost wanted = |x: VultrInstance| reconcilable(x);
    let mut first: Option<usize> = None;
    let mut i: usize = 0;
    proof {
        lemma_filter_start(instances@, wanted);
    }
    while i < instances.len()
        invariant
            i <= instances@.len(),
            wanted == (|x: VultrInstance| reconcilable(x)),
            match first {
                None => instances@.take(i as int).filter(wanted).len() == 0,
                Some(k) => k < i && instances@.take(i as int).filter(wanted)
                    == seq![instances@[k as int]],
            },
        decreases instances@.len() - i,
    {
        proof {
            lemma_filter_step(instances@, wanted, i as int);
        }
        if is_reconcilable(&instances[i]) {
            match first {
                Some(_) => {
                    proof {
                        lemma_filter_grows(instances@, wanted, i + 1);
                    }
                    return None;
                },
                None => {
                    first = Some(i);
                    assert(instances@.take(i + 1).filter(wanted) =~= seq![instances@[i as int]]);
                },
            }
        }
        i = i + 1;
    }
    assert(instances@.take(i as int) =~= instances@);
    first
}

proof fn lemma_filter_grows(s: Seq<VultrInstance>, wanted: spec_fn(VultrInstance) -> bool, i: int)
    requires
        0 <= i <= s.len(),
    ensures
        s.take(i).filter(wanted).len() <= s.filter(wanted).len(),
    decreases s.len() - i,
{
    if i < s.len() {
        lemma_filter_step(s, wanted, i);
        lemma_filter_grows(s, wanted, i + 1);
    } else {
        assert(s.take(i) =~= s);
    }
}

/// A machine that is there is used, and never taken for one that was made. The
/// one that was looked up comes first, then the one at the given address; one is
/// made exactly where there is neither.
pub proof fn law_a_machine_is_made_only_where_there_is_none(
    request: DeployRequest,
    found: Option<VultrInstance>,
    r: TargetChoice,
)
    requires
        call_ensures(resolve_deploy_target, (&request, found), r),
    ensures
        r matches TargetChoice::Use(t) ==> !t.created_instance && !blank(t.target_ip@),
        found matches Some(i) ==> (!blank(i.main_ip@) ==> (r matches TargetChoice::Use(t)
            && t.instance_id@ == i.id@ && t.target_ip@ == i.main_ip@)),
        (found is None || blank(found->Some_0.main_ip@)) && (request.target_ip is Some && !blank(
            request.target_ip->Some_0@,
        )) ==> (r matches TargetChoice::Use(t) && t.target_ip@ == request.target_ip->Some_0@ && (
        request.instance_id matches Some(id) ==> t.instance_id@ == id@)),
        r is Create <==> (found is None || blank(found->Some_0.main_ip@)) && (
        request.target_ip is None || blank(request.target_ip->Some_0@)),
{
}

/// The provider is asked about a machine only where it is a real one and the
/// request names the machine.
pub proof fn law_named_machines_are_looked_up(request: DeployRequest, r: TargetStart)
    requires
        call_ensures(begin_target, (&request,), r),
    ensures
        r is Mock <==> request.mock_provider,
        r is LookUp <==> !request.mock_provider && request.instance_id is Some,
        r matches TargetStart::LookUp(id) ==> request.instance_id == Some(id),
        r matches TargetStart::Mock { label, target_ip } ==> (request.label_prefix matches Some(l)
            ==> label@ == l@) && (request.target_ip matches Some(ip) ==> target_ip@ == ip@),
{
}

/// A new machine carries the controller's mark and the deployment's label, has
/// the key to log in with, and starts either from a system or from a disk.
pub proof fn law_new_machines_carry_their_label(
    request: DeployRequest,
    settings: MachineSettings,
    label: &str,
    ssh_key_id: &str,
    cloud_init: &str,
    r: OwnedCreateRequest,
    checked: Result<(), String>,
)
    requires
        call_ensures(
            create_deploy_request,
            (&request, &settings, label, ssh_key_id, cloud_init),
            r,
        ),
        call_ensures(check_create_label, (&r, label), checked),
    ensures
        checked is Ok,
        r.label@ == label@,
        texts(r.tags@).contains(label@),
        texts(r.tags@).contains("managed-by-sing-box"@),
        r.ssh_key_id@ == ssh_key_id@,
        r.cloud_init@ == cloud_init@,
        r.os_id is Some <==> r.snapshot_id is None,
        r.snapshot_id is Some <==> request.snapshot_id is Some && !blank(
            request.snapshot_id->Some_0@,
        ),
        r.snapshot_id is Some ==> r.snapshot_id == request.snapshot_id,
        settings.region matches Some(t) ==> r.region@ == t@,
        settings.plan matches Some(t) ==> r.plan@ == t@,
        r.enable_ipv6,
{
    assert(texts(r.tags@)[0] == MANAGED_TAG@);
    assert(texts(r.tags@)[1] == label@);
}

/// A request for a machine is sent only under the label of its deployment.
pub proof fn law_labels_agree(request: OwnedCreateRequest, label: &str, r: Result<(), String>)
    requires
        call_ensures(check_create_label, (&request, label), r),
    ensures
        r is Ok <==> request.label@ == label@,
{
}

/// A machine that was made is waited for until it is up, reachable and well,
/// for at most sixty looks; a failed look ends the wait.
pub proof fn law_machines_are_waited_for_until_they_are_up(
    attempt: u32,
    look: Result<VultrInstance, ProviderFault>,
    r: WaitNext<VultrInstance>,
)
    requires
        call_ensures(wait_for_instance_ready, (attempt, look), r),
    ensures
        r matches WaitNext::Done(Ok(i)) ==> look == Ok::<VultrInstance, ProviderFault>(i)
            && i.status@ == "active"@ && i.power_status@ == "running"@ && i.server_status@ == "ok"@
            && !blank(i.main_ip@),
        look matches Ok(i) ==> (i.status@ == "active"@ && i.power_status@ == "running"@
            && i.server_status@ == "ok"@ && !blank(i.main_ip@) ==> (r matches WaitNext::Done(Ok(
            _,
        )))),
        look is Err ==> (r matches WaitNext::Done(Err(_))),
        r is Again ==> attempt < 59 && look is Ok,
        look is Ok && attempt < 59 ==> r is Again || (r matches WaitNext::Done(Ok(_))),
{
}

/// A machine that was made and has no address is no target.
pub proof fn law_made_machines_are_targets_with_their_address(
    ready: VultrInstance,
    r: Result<ResolvedDeployTarget, String>,
)
    requires
        call_ensures(created_target, (ready,), r),
    ensures
        r is Ok <==> !blank(ready.main_ip@),
        r matches Ok(t) ==> t.created_instance && t.instance_id@ == ready.id@ && t.target_ip@
            == ready.main_ip@,
{
}

/// Making a machine needs both the provider's key and a key to log in with.
pub proof fn law_making_needs_both_keys(api_key: bool, ssh_key_id: bool, r: Result<(), String>)
    requires
        call_ensures(check_creation_secrets, (api_key, ssh_key_id), r),
    ensures
        r is Ok <==> api_key && ssh_key_id,
{
}

/// The machine with a label is found exactly where one alone has it; two such
/// machines are never told apart by luck.
pub proof fn law_a_label_names_one_machine(
    instances: Vec<VultrInstance>,
    label: &str,
    r: Result<Option<&VultrInstance>, String>,
)
    requires
        call_ensures(select_unique_vultr_instance_by_label, (&instances, label), r),
    ensures
        r == Ok::<Option<&VultrInstance>, String>(None) <==> forall|i: int|
            0 <= i < instances@.len() ==> (#[trigger] instances@[i]).label@ != label@,
        r matches Ok(Some(x)) ==> x.label@ == label@ && exists|i: int|
            0 <= i < instances@.len() && *x == #[trigger] instances@[i] && forall|k: int|
                0 <= k < instances@.len() && (#[trigger] instances@[k]).label@ == label@ ==> k == i,
        r is Err <==> exists|i: int, j: int|
            0 <= i < j < instances@.len() && (#[trigger] instances@[i]).label@ == label@ && (
            #[trigger] instances@[j]).label@ == label@,
{
    let all = instances@;
    if r matches Ok(Some(_)) {
        let x = r->Ok_0->Some_0;
        let i = choose|i: int| #[trigger] only_labelled(all, label@, i) && *x == all[i];
        assert(all[i].label@ == label@);
        assert forall|k: int| 0 <= k < all.len() && (#[trigger] all[k]).label@
            == label@ implies k == i by {}
        assert forall|a: int, b: int|
            0 <= a < b < all.len() && (#[trigger] all[a]).label@ == label@ && (
            #[trigger] all[b]).label@ == label@ implies false by {}
    } else if r is Err {
        let (i, j) = choose|i: int, j: int|
            first_labelled(all, label@, 0, i) && #[trigger] first_labelled(all, label@, i + 1, j)
                && r->Err_0@ == ambiguous(label@, all[i].id@, all[j].id@);
        assert(all[i].label@ == label@ && all[j].label@ == label@);
    } else {
        assert(none_labelled(all, label@, 0));
    }
}

/// A machine fits a request exactly if it is what was asked for: under that
/// label, in that place, of that size, with that system and firewall where they
/// were given, and with every tag.
pub proof fn law_a_fitting_machine_is_what_was_asked_for(
    instance: VultrInstance,
    request: OwnedCreateRequest,
    r: bool,
)
    requires
        call_ensures(instance_matches_create_request, (&instance, &request), r),
    ensures
        r <==> {
            &&& instance.label@ == request.label@
            &&& instance.region@ == request.region@
            &&& instance.plan@ == request.plan@
            &&& request.os_id is Some ==> Some(instance.os_id) == request.os_id
            &&& request.firewall_group_id matches Some(g) ==> instance.firewall_group_id@ == g@
            &&& forall|k: int|
                0 <= k < request.tags@.len() ==> texts(instance.tags@).contains(
                    (#[trigger] request.tags@[k])@,
                )
        },
{
}

/// A machine that is there already is taken for the one to be made only where
/// it is the only one with the label and fits the request; one with the label
/// that does not fit is never passed over.
pub proof fn law_only_a_fitting_machine_is_adopted(
    instances: Vec<VultrInstance>,
    request: OwnedCreateRequest,
    r: Result<Option<VultrInstance>, String>,
)
    requires
        call_ensures(
            observe_vultr_create_identity,
            (Ok::<Vec<VultrInstance>, String>(instances), &request),
            r,
        ),
    ensures
        r matches Ok(Some(x)) ==> x.label@ == request.label@ && x.region@ == request.region@
            && x.plan@ == request.plan@ && instances@.contains(x) && forall|k: int|
            0 <= k < instances@.len() && (#[trigger] instances@[k]).label@ == request.label@
                ==> instances@[k] == x,
        r == Ok::<Option<VultrInstance>, String>(None) <==> forall|k: int|
            0 <= k < instances@.len() ==> (#[trigger] instances@[k]).label@ != request.label@,
{
    let all = instances@;
    if r matches Ok(Some(_)) {
        let x = r->Ok_0->Some_0;
        let i = choose|i: int| #[trigger]
            only_labelled(all, request.label@, i) && x == all[i] && matches_request(
                all[i],
                request,
            );
        assert(all.contains(x));
        assert forall|k: int| 0 <= k < all.len() && (#[trigger] all[k]).label@
            == request.label@ implies all[k] == x by {
            assert(k == i);
        }
    } else if r is Err {
        if !label_search(all, request.label@, Err(r->Err_0)) {
            let i = choose|i: int| #[trigger]
                only_labelled(all, request.label@, i) && !matches_request(all[i], request)
                    && r->Err_0@ == conflict(all[i], request);
            assert(all[i].label@ == request.label@);
        } else {
            let (i, j) = choose|i: int, j: int|
                first_labelled(all, request.label@, 0, i) && #[trigger] first_labelled(
                    all,
                    request.label@,
                    i + 1,
                    j,
                ) && r->Err_0@ == ambiguous(request.label@, all[i].id@, all[j].id@);
            assert(all[i].label@ == request.label@);
        }
    } else {
        assert(none_labelled(all, request.label@, 0));
    }
}

/// A machine is asked for only after a look that shows none, at most three
/// times, and one that a look shows is taken.
pub proof fn law_machines_are_asked_for_after_a_look(
    phase: CreatePhase,
    sight: Result<Option<VultrInstance>, String>,
    r: (CreatePhase, CreateNext),
)
    requires
        phase is Before || phase is Watching,
        call_ensures(CreatePhase::create_or_adopt_vultr_instance, (phase, sight), r),
    ensures
        r.1 is Create ==> sight == Ok::<Option<VultrInstance>, String>(None),
        sight matches Ok(Some(i)) ==> r.1 == CreateNext::Done(Ok::<VultrInstance, String>(i)),
        sight matches Err(e) ==> r.1 == CreateNext::Done(Err::<VultrInstance, String>(e)),
        r.1 matches CreateNext::Done(Ok(i)) ==> sight == Ok::<Option<VultrInstance>, String>(
            Some(i),
        ),
        phase is Before && sight == Ok::<Option<VultrInstance>, String>(None) ==> r.1 is Create
            && r.0 == CreatePhase::Asked(1),
        r.1 is Create ==> (r.0 matches CreatePhase::Asked(n) && (
        phase matches CreatePhase::Watching { asked, .. } ==> n == asked + 1 && n <= 3)),
{
}

/// A reply that leaves the outcome open is never followed by a second request
/// without a look, and a refusal ends the matter.
pub proof fn law_open_requests_are_looked_into(
    asked: u32,
    reply: Result<VultrInstance, ProviderFault>,
    r: (CreatePhase, CreateNext),
)
    requires
        call_ensures(CreatePhase::create_replied, (CreatePhase::Asked(asked), reply), r),
    ensures
        !(r.1 is Create),
        reply matches Ok(i) ==> r.1 == CreateNext::Done(Ok::<VultrInstance, String>(i)),
        reply matches Err(f) ==> {
            &&& f.uncertain <==> r.1 is Look
            &&& !f.uncertain ==> r.1 == CreateNext::Done(Err::<VultrInstance, String>(f.message))
            &&& f.uncertain ==> (r.0 matches CreatePhase::Watching { asked: n, seen, .. } && n
                == asked && seen == 0)
        },
{
}

/// A machine counts as gone exactly where the provider says that it is not
/// there. It is asked for once, and one that was gone before is told so.
pub proof fn law_a_removed_machine_is_not_there(
    state: InstanceRemoval,
    instance_id: &str,
    fault: Option<ProviderFault>,
    r: (InstanceRemoval, Next<DestroyInstanceOutcome>),
)
    requires
        state.phase is Before || state.phase is Watching,
        call_ensures(
            InstanceRemoval::destroy_vultr_instance_reconciled,
            (state, instance_id, &fault),
            r,
        ),
    ensures
        r.1 matches Next::Done(Ok(_)) <==> (fault matches Some(f) && f.not_found),
        r.1 matches Next::Done(Ok(outcome)) ==> (outcome is AlreadyAbsent
            <==> state.phase is Before),
        r.1 is Change <==> state.phase is Before && fault is None,
        fault matches Some(f) ==> (!f.not_found ==> (r.1 matches Next::Done(Err(_)))),
{
}

/// The only machine that can be the controller's, if there is just one, is one
/// that is up and well, has an address and is labelled as an edge.
pub proof fn law_a_lone_edge_is_taken_up(
    instances: Vec<VultrInstance>,
    r: Option<usize>,
    k: int,
)
    requires
        call_ensures(choose_single_reconcilable_instance, (&instances,), r),
        0 <= k < instances@.len(),
    ensures
        r matches Some(i) ==> i < instances@.len() && instances@[i as int].status@ == "active"@
            && instances@[i as int].server_status@ == "ok"@ && !blank(
            instances@[i as int].main_ip@,
        ) && has_part(instances@[i as int].label@, "edge"@),
        r matches Some(i) ==> (instances@[k].status@ == "active"@ && instances@[k].server_status@
            == "ok"@ && !blank(instances@[k].main_ip@) && has_part(instances@[k].label@, "edge"@)
            ==> instances@[k] == instances@[i as int]),
        r is None ==> !(reconcilable(instances@[k]) && forall|j: int|
            0 <= j < instances@.len() && j != k ==> !reconcilable(#[trigger] instances@[j])),
{
    let wanted = |x: VultrInstance| reconcilable(x);
    let all = instances@;
    let hits = all.filter(wanted);
    lemma_filter_members(all, wanted);
    if r is Some {
        let i = r->Some_0 as int;
        assert(hits == seq![all[i]]);
        assert(hits[0] == all[i]);
        assert(hits.contains(all[i]));
        assert(wanted(all[i]));
        if reconcilable(all[k]) {
            assert(all.contains(all[k]));
            assert(hits.contains(all[k]));
        }
    } else if reconcilable(all[k]) && forall|j: int|
        0 <= j < all.len() && j != k ==> !reconcilable(#[trigger] all[j]) {
        lemma_one_hit(all, wanted, k);
    }
}

proof fn lemma_one_hit(s: Seq<VultrInstance>, wanted: spec_fn(VultrInstance) -> bool, k: int)
    requires
        0 <= k < s.len(),
        wanted(s[k]),
        forall|j: int| 0 <= j < s.len() && j != k ==> !wanted(#[trigger] s[j]),
    ensures
        s.filter(wanted).len() == 1,
    decreases s.len(),
{
    reveal(Seq::filter);
    let head = s.drop_last();
    if k == s.len() - 1 {
        lemma_filter_members(head, wanted);
        assert forall|i: int| 0 <= i < head.len() implies !wanted(#[trigger] head[i]) by {
            assert(head[i] == s[i]);
        }
    } else {
        assert(!wanted(s[s.len() - 1]));
        assert forall|j: int| 0 <= j < head.len() && j != k implies !wanted(#[trigger] head[j]) by {
            assert(head[j] == s[j]);
        }
        lemma_one_hit(head, wanted, k);
    }
}

/// A failure is told as one that may pass exactly where it speaks of the
/// transport, of time running out, of too many requests or of the provider's own
/// trouble.
pub proof fn law_passing_failures_may_be_tried_again(message: String, r: Status)
    requires
        call_ensures(status_for_target_resolution_error, (message,), r),
    ensures
        r.message@ == message@,
        r.code is Unavailable || r.code is InvalidArgument,
        r.code is Unavailable <==> has_part(lowered(message@), "transport"@) || has_part(
            lowered(message@),
            "timeout"@,
        ) || has_part(lowered(message@), "http 429"@) || has_part(lowered(message@), "http 5"@),
{
}

} // verus!
