//! What is recorded of the deployment that is live, and how the record is
//! brought in line with what is there.
use crate::json::{Json, document, parse_document};
use crate::lists::lemma_filter_members;
use crate::provider::{VultrInstance, copied};
use crate::status::{AppReadinessPhase, DeploymentSummary};
use crate::target::{
    choose_single_reconcilable_instance, first_labelled, label_search, only_labelled,
    only_reconcilable, reconcilable, reconcilable_count, select_unique_vultr_instance_by_label,
};
use crate::text::{
    after_prefix, begins_with, blank, cat2, cat4, copy_option, decimal, has_part, holds_text,
    is_text, same, strip_prefix, texts,
};
use crate::trust::{
    AgentConnectionTarget, DEFAULT_AGENT_NAME, ResolvedDeployTarget, StoredDeployment,
    StoredTrustEntry, persisted_agent_connection_target,
};
use vstd::prelude::*;
use vstd::string::*;

verus! {

/// The name under which a deployment is reached where nothing says otherwise.
pub const DEFAULT_DNS_RECORD: &'static str = "edge.alegria.by";

/// The zone of names where nothing says otherwise.
pub const DEFAULT_CLOUDFLARE_ZONE: &'static str = "alegria.by";

/// What the journal says when a deployment has its label.
pub const LABEL_EVENT: &'static str = "deployment label reserved: ";

/// What is said of an operation that was running when the controller stopped.
pub const INTERRUPTED_EVENT: &'static str =
    "controller restarted while operation was still RUNNING; marked as INTERRUPTED/FAILED";

/// How far a deployment has come.
#[derive(Debug, Clone, Copy, PartialEq, Eq, Structural)]
pub enum DeployPhase {
    Unspecified,
    Requested,
    InstanceAddressAssigned,
    DeploymentPublished,
    TunnelReadyVerified,
    LocalConfigSynced,
    LocalRuntimeStartStarted,
    LocalRuntimeReadyVerified,
    SelectorsVerified,
    AppEgressVerified,
    AppReadyCompleted,
    Completed,
    Failed,
}

/// What is recorded of the deployment that is live.
#[derive(Debug, PartialEq, Eq)]
pub struct StoredControllerState {
    pub active_deployment_label: Option<String>,
    pub active_instance_id: Option<String>,
    pub active_server_ip: Option<String>,
    pub active_tunnel_domain: Option<String>,
    pub active_deployment_state_json: Option<String>,
    pub deploy_phase: DeployPhase,
    pub app_readiness_phase: AppReadinessPhase,
    pub last_error_code: Option<String>,
    pub last_error_message: Option<String>,
}

/// Whether a record names a deployment, a machine or an address.
pub open spec fn names_deployment(record: StoredControllerState) -> bool {
    record.active_deployment_label is Some || record.active_instance_id is Some
        || record.active_server_ip is Some
}

fn is_named(record: &StoredControllerState) -> (r: bool)
    ensures
        r == names_deployment(*record),
{
    record.active_deployment_label.is_some() || record.active_instance_id.is_some()
        || record.active_server_ip.is_some()
}

/// The name of the tunnel in the state of a deployment.
pub open spec fn tunnel_in(state: Json) -> Option<Seq<char>> {
    state.text_within("tunnel"@, "domain"@)
}

/// The name of the tunnel in the state of a deployment.
pub fn tunnel_domain(state: &Json) -> (r: Option<String>)
    ensures
        r.deep_view() == tunnel_in(*state),
{
    state.get_text_within("tunnel", "domain")
}

/// Reads the name of the tunnel off the state of a deployment.
pub fn parse_tunnel_domain_from_state_json(raw: &str) -> (r: Result<Option<String>, String>)
    ensures
        match document(raw@) {
            Ok(state) => r matches Ok(name) && name.deep_view() == tunnel_in(state),
            Err(e) => r matches Err(m) && m@ == "failed to parse deployment state JSON: "@ + e,
        },
{
    match parse_document(raw) {
        Ok(state) => Ok(tunnel_domain(&state)),
        Err(e) => Err(cat2("failed to parse deployment state JSON: ", e.as_str())),
    }
}

/// What is told where no deployment is live.
pub open spec fn no_deployment(s: DeploymentSummary) -> bool {
    &&& !s.live_state_present
    &&& s.source_state_path is None
    &&& s.deployment_label is None
    &&& s.instance_id is None
    &&& s.server_ip is None
    &&& s.tunnel_domain is None
}

/// What is told where no deployment is live.
pub fn missing_summary() -> (r: DeploymentSummary)
    ensures
        no_deployment(r),
{
    DeploymentSummary {
        live_state_present: false,
        source_state_path: None,
        deployment_label: None,
        instance_id: None,
        server_ip: None,
        tunnel_domain: None,
    }
}

/// What is recorded, or what the state says.
pub open spec fn kept_or(kept: Option<String>, found: Option<Seq<char>>) -> Option<Seq<char>> {
    match kept {
        Some(t) => Some(t@),
        None => found,
    }
}

fn keep_or(kept: Option<String>, found: Option<String>) -> (r: Option<String>)
    ensures
        r.deep_view() == kept_or(kept, found.deep_view()),
{
    match kept {
        Some(t) => Some(t),
        None => found,
    }
}

/// Whether the state names a deployment, a machine or an address.
pub open spec fn state_names(state: Json) -> bool {
    state.at("label"@) is Some || state.at("instance_id"@) is Some || state.at("ip"@) is Some
}

/// What is told of a deployment by its record and its state.
pub open spec fn told_by_both(
    record: StoredControllerState,
    state: Json,
    path: Seq<char>,
    s: DeploymentSummary,
) -> bool {
    if names_deployment(record) || state_names(state) {
        &&& s.live_state_present
        &&& s.source_state_path.deep_view() == Some(path)
        &&& s.deployment_label.deep_view() == kept_or(
            record.active_deployment_label,
            state.text_at("label"@),
        )
        &&& s.instance_id.deep_view() == kept_or(
            record.active_instance_id,
            state.text_at("instance_id"@),
        )
        &&& s.server_ip.deep_view() == kept_or(record.active_server_ip, state.text_at("ip"@))
        &&& s.tunnel_domain.deep_view() == kept_or(record.active_tunnel_domain, tunnel_in(state))
    } else {
        no_deployment(s)
    }
}

/// Tells of a deployment by its record, and where the record is silent, by its
/// state.
pub fn summary_with_state(record: StoredControllerState, state: &Json, path: &str) -> (r:
    DeploymentSummary)
    ensures
        told_by_both(record, *state, path@, r),
{
    if is_named(&record) || state.get("label").is_some() || state.get("instance_id").is_some()
        || state.get("ip").is_some() {
        DeploymentSummary {
            live_state_present: true,
            source_state_path: Some(path.to_owned()),
            deployment_label: keep_or(record.active_deployment_label, state.get_text("label")),
            instance_id: keep_or(record.active_instance_id, state.get_text("instance_id")),
            server_ip: keep_or(record.active_server_ip, state.get_text("ip")),
            tunnel_domain: keep_or(record.active_tunnel_domain, tunnel_domain(state)),
        }
    } else {
        missing_summary()
    }
}

/// What is told of a deployment by its record alone.
pub open spec fn told_by_record(
    record: StoredControllerState,
    path: Seq<char>,
    s: DeploymentSummary,
) -> bool {
    if names_deployment(record) {
        &&& s.live_state_present
        &&& s.source_state_path.deep_view() == Some(path)
        &&& s.deployment_label == record.active_deployment_label
        &&& s.instance_id == record.active_instance_id
        &&& s.server_ip == record.active_server_ip
        &&& s.tunnel_domain == record.active_tunnel_domain
    } else {
        no_deployment(s)
    }
}

/// Tells of a deployment by its record.
pub fn summary_of_record(record: StoredControllerState, path: &str) -> (r: DeploymentSummary)
    ensures
        told_by_record(record, path@, r),
{
    if is_named(&record) {
        DeploymentSummary {
            live_state_present: true,
            source_state_path: Some(path.to_owned()),
            deployment_label: record.active_deployment_label,
            instance_id: record.active_instance_id,
            server_ip: record.active_server_ip,
            tunnel_domain: record.active_tunnel_domain,
        }
    } else {
        missing_summary()
    }
}

/// What is told of a deployment by its state alone.
pub open spec fn told_by_state(state: Json, path: Seq<char>, s: DeploymentSummary) -> bool {
    &&& s.live_state_present
    &&& s.source_state_path.deep_view() == Some(path)
    &&& s.deployment_label.deep_view() == state.text_at("label"@)
    &&& s.instance_id.deep_view() == state.text_at("instance_id"@)
    &&& s.server_ip.deep_view() == state.text_at("ip"@)
    &&& s.tunnel_domain.deep_view() == tunnel_in(state)
}

/// Tells of a deployment by its state.
pub fn summary_of_state(state: &Json, path: &str) -> (r: DeploymentSummary)
    ensures
        told_by_state(*state, path@, r),
{
    DeploymentSummary {
        live_state_present: true,
        source_state_path: Some(path.to_owned()),
        deployment_label: state.get_text("label"),
        instance_id: state.get_text("instance_id"),
        server_ip: state.get_text("ip"),
        tunnel_domain: tunnel_domain(state),
    }
}

/// What is told of the deployment that is live.
pub open spec fn told(
    record: Option<StoredControllerState>,
    record_path: Seq<char>,
    artifact: Option<String>,
    artifact_path: Seq<char>,
    r: Result<DeploymentSummary, String>,
) -> bool {
    match record {
        Some(c) => match c.active_deployment_state_json {
            Some(raw) => match document(raw@) {
                Ok(state) => r matches Ok(s) && told_by_both(c, state, record_path, s),
                Err(e) => r matches Err(m) && m@
                    == "failed to parse controller deployment state JSON: "@ + e,
            },
            None => r matches Ok(s) && told_by_record(c, record_path, s),
        },
        None => match artifact {
            None => r matches Ok(s) && no_deployment(s),
            Some(raw) => match document(raw@) {
                Ok(state) => r matches Ok(s) && told_by_state(state, artifact_path, s),
                Err(e) => r matches Err(m) && m@ == "failed to parse "@ + artifact_path + ": "@ + e,
            },
        },
    }
}

/// Tells of the deployment that is live: by its record, if there is one, or
/// else by its state, if that is there.
pub fn read_live_deployment_summary(
    record: Option<StoredControllerState>,
    record_path: &str,
    artifact: &Option<String>,
    artifact_path: &str,
) -> (r: Result<DeploymentSummary, String>)
    ensures
        told(record, record_path@, *artifact, artifact_path@, r),
{
    match record {
        Some(c) => match copy_option(&c.active_deployment_state_json) {
            Some(raw) => match parse_document(raw.as_str()) {
                Ok(state) => Ok(summary_with_state(c, &state, record_path)),
                Err(e) => Err(
                    cat2("failed to parse controller deployment state JSON: ", e.as_str()),
                ),
            },
            None => Ok(summary_of_record(c, record_path)),
        },
        None => match artifact {
            None => Ok(missing_summary()),
            Some(raw) => match parse_document(raw.as_str()) {
                Ok(state) => Ok(summary_of_state(&state, artifact_path)),
                Err(e) => Err(cat4("failed to parse ", artifact_path, ": ", e.as_str())),
            },
        },
    }
}

/// A deployment that is recorded is told as it is recorded: what the record
/// says, the state does not change.
pub proof fn law_the_record_comes_first(
    record: StoredControllerState,
    state: Json,
    path: Seq<char>,
    s: DeploymentSummary,
)
    requires
        told_by_both(record, state, path, s),
        names_deployment(record),
    ensures
        s.live_state_present,
        record.active_deployment_label matches Some(t) ==> s.deployment_label.deep_view() == Some(
            t@,
        ),
        record.active_instance_id matches Some(t) ==> s.instance_id.deep_view() == Some(t@),
        record.active_server_ip matches Some(t) ==> s.server_ip.deep_view() == Some(t@),
        record.active_tunnel_domain matches Some(t) ==> s.tunnel_domain.deep_view() == Some(t@),
{
}

/// Whether a record holds anything of a deployment.
pub open spec fn holds_deployment(record: StoredControllerState) -> bool {
    names_deployment(record) || record.active_deployment_state_json is Some
}

/// The record of a deployment that was found by its state.
pub open spec fn found_record(
    latest: StoredDeployment,
    raw: String,
    domain: Option<Seq<char>>,
    c: StoredControllerState,
) -> bool {
    &&& c.active_deployment_label == Some(latest.deployment_label)
    &&& c.active_instance_id == Some(latest.instance_id)
    &&& c.active_server_ip == Some(latest.server_ip)
    &&& c.active_tunnel_domain.deep_view() == domain
    &&& c.active_deployment_state_json == Some(raw)
    &&& c.deploy_phase == DeployPhase::DeploymentPublished
    &&& c.app_readiness_phase == AppReadinessPhase::ServerRuntimeReady
    &&& c.last_error_code is None
    &&& c.last_error_message is None
}

/// Decides on the record to make of a deployment whose state is there while the
/// record says nothing of one.
pub fn reconcile_active_deployment_state(
    artifact: Option<String>,
    existing: &Option<StoredControllerState>,
    latest: Option<StoredDeployment>,
) -> (r: Result<Option<StoredControllerState>, String>)
    ensures
        match (artifact, latest) {
            (Some(raw), Some(d)) => if *existing matches Some(c) && holds_deployment(c) {
                r == Ok::<Option<StoredControllerState>, String>(None)
            } else {
                match document(raw@) {
                    Ok(state) => r matches Ok(Some(c)) && found_record(
                        d,
                        raw,
                        tunnel_in(state),
                        c,
                    ),
                    Err(e) => r matches Err(m) && m@ == "failed to parse deployment state JSON: "@
                        + e,
                }
            },
            _ => r == Ok::<Option<StoredControllerState>, String>(None),
        },
{
    let raw: String = match artifact {
        Some(raw) => raw,
        None => {
            return Ok(None);
        },
    };
    match existing {
        Some(c) => {
            if is_named(c) || c.active_deployment_state_json.is_some() {
                return Ok(None);
            }
        },
        None => {},
    }
    let latest: StoredDeployment = match latest {
        Some(d) => d,
        None => {
            return Ok(None);
        },
    };
    let domain: Option<String> = match parse_tunnel_domain_from_state_json(raw.as_str()) {
        Ok(domain) => domain,
        Err(e) => {
            return Err(e);
        },
    };
    Ok(
        Some(
            StoredControllerState {
                active_deployment_label: Some(latest.deployment_label),
                active_instance_id: Some(latest.instance_id),
                active_server_ip: Some(latest.server_ip),
                active_tunnel_domain: domain,
                active_deployment_state_json: Some(raw),
                deploy_phase: DeployPhase::DeploymentPublished,
                app_readiness_phase: AppReadinessPhase::ServerRuntimeReady,
                last_error_code: None,
                last_error_message: None,
            },
        ),
    )
}

/// The label in the first of the journal's notes that gives one.
pub open spec fn label_in(events: Seq<Seq<char>>) -> Option<Seq<char>>
    decreases events.len(),
{
    if events.len() == 0 {
        None
    } else {
        match after_prefix(events[0], LABEL_EVENT@) {
            Some(label) => Some(label),
            None => label_in(events.drop_first()),
        }
    }
}

/// The label that the latest deployment was given, by the journal's notes.
pub fn latest_deploy_attempt_label(events: &Vec<String>) -> (r: Option<String>)
    ensures
        r.deep_view() == label_in(texts(events@)),
{
    let mut i: usize = 0;
    let ghost all = texts(events@);
    assert(all.skip(0) =~= all);
    while i < events.len()
        invariant
            i <= events@.len(),
            all == texts(events@),
            label_in(all) == label_in(all.skip(i as int)),
        decreases events@.len() - i,
    {
        assert(all.skip(i as int).drop_first() =~= all.skip(i + 1));
        assert(all.skip(i as int)[0] == events@[i as int]@);
        match strip_prefix(events[i].as_str(), LABEL_EVENT) {
            Some(label) => {
                return Some(label.to_owned());
            },
            None => {},
        }
        i = i + 1;
    }
    None
}

/// Whether the provider has a machine of that id.
pub open spec fn has_machine(instances: Seq<VultrInstance>, id: Seq<char>) -> bool {
    exists|i: int| 0 <= i < instances.len() && (#[trigger] instances[i]).id@ == id
}

fn is_there(instances: &Vec<VultrInstance>, id: &str) -> (r: bool)
    ensures
        r == has_machine(instances@, id@),
{
    let mut i: usize = 0;
    while i < instances.len()
        invariant
            i <= instances@.len(),
            forall|k: int| 0 <= k < i ==> (#[trigger] instances@[k]).id@ != id@,
        decreases instances@.len() - i,
    {
        if same(instances[i].id.as_str(), id) {
            return true;
        }
        i = i + 1;
    }
    false
}

/// The machine with a label, if there is one.
pub open spec fn labelled_machine(
    instances: Seq<VultrInstance>,
    label: Seq<char>,
    machine: VultrInstance,
) -> bool {
    exists|i: int| #[trigger] only_labelled(instances, label, i) && copied(instances[i], machine)
}

/// The machine that may be the live one.
pub open spec fn candidate(
    instances: Seq<VultrInstance>,
    label: Option<Seq<char>>,
    recorded: Option<Seq<char>>,
    r: Result<Option<VultrInstance>, String>,
) -> bool {
    match label {
        Some(l) => match r {
            Ok(None) => label_search(instances, l, Ok(None)),
            Ok(Some(x)) => labelled_machine(instances, l, x),
            Err(e) => label_search(instances, l, Err(e)),
        },
        None => if recorded matches Some(id) && has_machine(instances, id) {
            r == Ok::<Option<VultrInstance>, String>(None)
        } else {
            match r {
                Ok(Some(x)) => exists|i: usize|
                    #[trigger] only_reconcilable(instances, i) && copied(instances[i as int], x),
                Ok(None) => reconcilable_count(instances) != 1,
                Err(_) => false,
            }
        },
    }
}

/// Chooses the machine that may be the live one: the one with the label that
/// was given last, or, where none was given and the recorded one is gone, the
/// only one that is fit.
pub fn choose_candidate(
    instances: &Vec<VultrInstance>,
    label: &Option<String>,
    recorded: &Option<String>,
) -> (r: Result<Option<VultrInstance>, String>)
    ensures
        candidate(instances@, label.deep_view(), recorded.deep_view(), r),
{
    match label {
        Some(l) => match select_unique_vultr_instance_by_label(instances, l.as_str()) {
            Ok(None) => Ok(None),
            Ok(Some(x)) => {
                let machine: VultrInstance = x.copy();
                assert(labelled_machine(instances@, l@, machine));
                Ok(Some(machine))
            },
            Err(e) => Err(e),
        },
        None => {
            let there: bool = match recorded {
                Some(id) => is_there(instances, id.as_str()),
                None => false,
            };
            if there {
                return Ok(None);
            }
            match choose_single_reconcilable_instance(instances) {
                None => Ok(None),
                Some(i) => {
                    assert(only_reconcilable(instances@, i));
                    Ok(Some(instances[i].copy()))
                },
            }
        },
    }
}

/// Whether the record is of that very machine.
pub open spec fn records_machine(record: Option<StoredControllerState>, i: VultrInstance) -> bool {
    &&& record matches Some(c)
    &&& holds_text(c.active_instance_id, i.id@)
    &&& holds_text(c.active_server_ip, i.main_ip@)
    &&& holds_text(c.active_deployment_label, i.label@)
}

/// The state of the deployment that is kept when the record goes over to a
/// machine: what there is, if it is of that machine.
pub open spec fn carried_state(record: Option<StoredControllerState>, i: VultrInstance) -> Option<
    String,
> {
    match record {
        Some(c) => if holds_text(c.active_instance_id, i.id@) {
            c.active_deployment_state_json
        } else {
            None
        },
        None => None,
    }
}

/// The record of a machine that was found at the provider.
pub open spec fn adopted(
    record: Option<StoredControllerState>,
    i: VultrInstance,
    c: StoredControllerState,
) -> bool {
    let state = carried_state(record, i);
    &&& c.active_deployment_label == Some(i.label)
    &&& c.active_instance_id == Some(i.id)
    &&& c.active_server_ip == Some(i.main_ip)
    &&& c.active_tunnel_domain.deep_view() == Some(
        match record {
            Some(old) => match old.active_tunnel_domain {
                Some(domain) => domain@,
                None => DEFAULT_DNS_RECORD@,
            },
            None => DEFAULT_DNS_RECORD@,
        },
    )
    &&& c.active_deployment_state_json == state
    &&& c.deploy_phase == if state is Some {
        DeployPhase::DeploymentPublished
    } else {
        DeployPhase::InstanceAddressAssigned
    }
    &&& c.app_readiness_phase == if state is Some {
        match record {
            Some(old) => old.app_readiness_phase,
            None => AppReadinessPhase::ServerRuntimeReady,
        }
    } else {
        AppReadinessPhase::DeploymentAbsent
    }
    &&& c.last_error_code is None
    &&& c.last_error_message is None
}

/// Decides on the record of a machine that was found at the provider. One that
/// was taken down is left alone, and so is the record where it is right
/// already.
pub fn reconcile_provider_active_deployment_state(
    found: &VultrInstance,
    tombstoned: bool,
    record: &Option<StoredControllerState>,
) -> (r: Option<StoredControllerState>)
    ensures
        match r {
            None => tombstoned || records_machine(*record, *found),
            Some(c) => !tombstoned && !records_machine(*record, *found) && adopted(
                *record,
                *found,
                c,
            ),
        },
{
    if tombstoned {
        return None;
    }
    match record {
        Some(c) => {
            if is_text(&c.active_instance_id, found.id.as_str()) && is_text(
                &c.active_server_ip,
                found.main_ip.as_str(),
            ) && is_text(&c.active_deployment_label, found.label.as_str()) {
                return None;
            }
        },
        None => {},
    }
    let state: Option<String> = match record {
        Some(c) => {
            if is_text(&c.active_instance_id, found.id.as_str()) {
                copy_option(&c.active_deployment_state_json)
            } else {
                None
            }
        },
        None => None,
    };
    let domain: String = match record {
        Some(c) => match &c.active_tunnel_domain {
            Some(domain) => domain.clone(),
            None => DEFAULT_DNS_RECORD.to_owned(),
        },
        None => DEFAULT_DNS_RECORD.to_owned(),
    };
    let (deploy_phase, app_readiness_phase): (DeployPhase, AppReadinessPhase) =
        if state.is_some() {
        let readiness: AppReadinessPhase = match record {
            Some(c) => c.app_readiness_phase,
            None => AppReadinessPhase::ServerRuntimeReady,
        };
        (DeployPhase::DeploymentPublished, readiness)
    } else {
        (DeployPhase::InstanceAddressAssigned, AppReadinessPhase::DeploymentAbsent)
    };
    Some(
        StoredControllerState {
            active_deployment_label: Some(found.label.clone()),
            active_instance_id: Some(found.id.clone()),
            active_server_ip: Some(found.main_ip.clone()),
            active_tunnel_domain: Some(domain),
            active_deployment_state_json: state,
            deploy_phase,
            app_readiness_phase,
            last_error_code: None,
            last_error_message: None,
        },
    )
}

/// A record that was brought in line with the provider stays as it is when it
/// is brought in line again.
pub proof fn law_reconciling_twice_is_reconciling_once(
    record: Option<StoredControllerState>,
    i: VultrInstance,
    c: StoredControllerState,
)
    requires
        adopted(record, i, c),
    ensures
        records_machine(Some(c), i),
{
}

/// The record of a deployment that is published.
pub open spec fn published(
    label: Seq<char>,
    target: ResolvedDeployTarget,
    raw: Seq<char>,
    domain: Option<Seq<char>>,
    c: StoredControllerState,
) -> bool {
    &&& c.active_deployment_label.deep_view() == Some(label)
    &&& c.active_instance_id == Some(target.instance_id)
    &&& c.active_server_ip == Some(target.target_ip)
    &&& c.active_tunnel_domain.deep_view() == domain
    &&& c.active_deployment_state_json.deep_view() == Some(raw)
    &&& c.deploy_phase == DeployPhase::DeploymentPublished
    &&& c.app_readiness_phase == AppReadinessPhase::ServerRuntimeReady
    &&& c.last_error_code is None
    &&& c.last_error_message is None
}

/// The record of a deployment that is published, with its state.
pub fn published_record(label: &str, target: &ResolvedDeployTarget, raw: &str, state: &Json) -> (r:
    StoredControllerState)
    ensures
        published(label@, *target, raw@, tunnel_in(*state), r),
{
    StoredControllerState {
        active_deployment_label: Some(label.to_owned()),
        active_instance_id: Some(target.instance_id.clone()),
        active_server_ip: Some(target.target_ip.clone()),
        active_tunnel_domain: tunnel_domain(state),
        active_deployment_state_json: Some(raw.to_owned()),
        deploy_phase: DeployPhase::DeploymentPublished,
        app_readiness_phase: AppReadinessPhase::ServerRuntimeReady,
        last_error_code: None,
        last_error_message: None,
    }
}

/// Decides on the record of a deployment that is published.
pub fn persist_bundle_locally(label: &str, target: &ResolvedDeployTarget, raw: &str) -> (r: Result<
    StoredControllerState,
    String,
>)
    ensures
        match document(raw@) {
            Ok(state) => r matches Ok(c) && published(label@, *target, raw@, tunnel_in(state), c),
            Err(e) => r matches Err(m) && m@ == "failed to parse rendered current state JSON: "@
                + e,
        },
{
    match parse_document(raw) {
        Ok(state) => Ok(published_record(label, target, raw, &state)),
        Err(e) => Err(cat2("failed to parse rendered current state JSON: ", e.as_str())),
    }
}

/// The certificates that a deployment is made with, by their files.
#[derive(Debug, PartialEq, Eq)]
pub struct LocalTrustMaterial {
    pub ca_cert_path: String,
    pub client_cert_path: String,
    pub client_key_path: String,
}

/// The trust in a deployment that is published.
pub fn published_trust(label: &str, target: &ResolvedDeployTarget, material: LocalTrustMaterial) -> (r:
    StoredTrustEntry)
    ensures
        r.deployment_id@ == label@,
        r.instance_id == target.instance_id,
        r.ip == target.target_ip,
        r.domain_name.deep_view() == Some(DEFAULT_AGENT_NAME@),
        r.ca_cert_path == Some(material.ca_cert_path),
        r.client_cert_path == Some(material.client_cert_path),
        r.client_key_path == Some(material.client_key_path),
{
    StoredTrustEntry {
        deployment_id: label.to_owned(),
        instance_id: target.instance_id.clone(),
        ip: target.target_ip.clone(),
        domain_name: Some(DEFAULT_AGENT_NAME.to_owned()),
        ca_cert_path: Some(material.ca_cert_path),
        client_cert_path: Some(material.client_cert_path),
        client_key_path: Some(material.client_key_path),
    }
}

/// What is done to the file with the state of the live deployment.
#[derive(Debug, PartialEq, Eq)]
pub enum ArtifactChange {
    Write(String),
    Remove,
    Keep,
}

/// The state that a rollback goes back to: the one that was there, or the one
/// in the record that was there.
pub open spec fn previous_state(
    artifact: Option<String>,
    snapshot: Option<StoredControllerState>,
) -> Option<String> {
    match (artifact, snapshot) {
        (Some(raw), _) => Some(raw),
        (None, Some(c)) => c.active_deployment_state_json,
        (None, None) => None,
    }
}

fn earlier_state(artifact: &Option<String>, snapshot: &Option<StoredControllerState>) -> (r: Option<
    String,
>)
    ensures
        r == previous_state(*artifact, *snapshot),
{
    match artifact {
        Some(raw) => Some(raw.clone()),
        None => match snapshot {
            Some(c) => copy_option(&c.active_deployment_state_json),
            None => None,
        },
    }
}

/// What a rollback does to the file with the state.
pub open spec fn rollback_change(
    artifact: Option<String>,
    snapshot: Option<StoredControllerState>,
    is_file: bool,
) -> ArtifactChange {
    match previous_state(artifact, snapshot) {
        Some(raw) => ArtifactChange::Write(raw),
        None => if is_file {
            ArtifactChange::Remove
        } else {
            ArtifactChange::Keep
        },
    }
}

/// What the file holds once it was changed; nothing where it is not there.
pub open spec fn changed_file(change: ArtifactChange, file: Option<String>) -> Option<String> {
    match change {
        ArtifactChange::Write(raw) => Some(raw),
        ArtifactChange::Remove => None,
        ArtifactChange::Keep => file,
    }
}

/// Decides what a rollback does to the file with the state: the earlier state
/// is written back; where there was none, the file is removed.
pub fn rollback_artifact(
    artifact: &Option<String>,
    snapshot: &Option<StoredControllerState>,
    is_file: bool,
) -> (r: ArtifactChange)
    ensures
        r == rollback_change(*artifact, *snapshot, is_file),
{
    match earlier_state(artifact, snapshot) {
        Some(raw) => ArtifactChange::Write(raw),
        None => {
            if is_file {
                ArtifactChange::Remove
            } else {
                ArtifactChange::Keep
            }
        },
    }
}

/// The name of the tunnel in a state, where it can be read.
pub open spec fn readable_tunnel(raw: Option<String>) -> Option<Seq<char>> {
    match raw {
        Some(t) => match document(t@) {
            Ok(state) => tunnel_in(state),
            Err(_) => None,
        },
        None => None,
    }
}

/// The record that was there, completed by the state that was there.
pub open spec fn restored(
    snapshot: StoredControllerState,
    earlier: Option<String>,
    c: StoredControllerState,
) -> bool {
    let state = match snapshot.active_deployment_state_json {
        Some(raw) => Some(raw),
        None => earlier,
    };
    &&& c.active_deployment_label == snapshot.active_deployment_label
    &&& c.active_instance_id == snapshot.active_instance_id
    &&& c.active_server_ip == snapshot.active_server_ip
    &&& c.active_tunnel_domain.deep_view() == kept_or(
        snapshot.active_tunnel_domain,
        readable_tunnel(state),
    )
    &&& c.active_deployment_state_json == state
    &&& c.deploy_phase == snapshot.deploy_phase
    &&& c.app_readiness_phase == snapshot.app_readiness_phase
    &&& c.last_error_code == snapshot.last_error_code
    &&& c.last_error_message == snapshot.last_error_message
}

/// The record made of a state that was there without one.
pub open spec fn rebuilt(raw: String, state: Json, c: StoredControllerState) -> bool {
    &&& c.active_deployment_label.deep_view() == state.text_at("label"@)
    &&& c.active_instance_id.deep_view() == state.text_at("instance_id"@)
    &&& c.active_server_ip.deep_view() == state.text_at("ip"@)
    &&& c.active_tunnel_domain.deep_view() == tunnel_in(state)
    &&& c.active_deployment_state_json == Some(raw)
    &&& c.deploy_phase == DeployPhase::DeploymentPublished
    &&& c.app_readiness_phase == AppReadinessPhase::ServerRuntimeReady
    &&& c.last_error_code is None
    &&& c.last_error_message is None
}

/// The record that says that nothing is live.
pub open spec fn absent(c: StoredControllerState) -> bool {
    &&& c.active_deployment_label is None
    &&& c.active_instance_id is None
    &&& c.active_server_ip is None
    &&& c.active_tunnel_domain is None
    &&& c.active_deployment_state_json is None
    &&& c.deploy_phase == DeployPhase::Unspecified
    &&& c.app_readiness_phase == AppReadinessPhase::DeploymentAbsent
    &&& c.last_error_code is None
    &&& c.last_error_message is None
}

/// The record made of a state that was there without one.
pub fn rebuilt_record(raw: String, state: &Json) -> (r: StoredControllerState)
    ensures
        rebuilt(raw, *state, r),
{
    StoredControllerState {
        active_deployment_label: state.get_text("label"),
        active_instance_id: state.get_text("instance_id"),
        active_server_ip: state.get_text("ip"),
        active_tunnel_domain: tunnel_domain(state),
        active_deployment_state_json: Some(raw),
        deploy_phase: DeployPhase::DeploymentPublished,
        app_readiness_phase: AppReadinessPhase::ServerRuntimeReady,
        last_error_code: None,
        last_error_message: None,
    }
}

/// What a rollback makes of the record.
pub open spec fn rolled_back_record(
    artifact: Option<String>,
    snapshot: Option<StoredControllerState>,
    r: Result<StoredControllerState, String>,
) -> bool {
    let earlier = previous_state(artifact, snapshot);
    match snapshot {
        Some(c) => r matches Ok(new) && restored(c, earlier, new),
        None => match earlier {
            Some(raw) => match document(raw@) {
                Ok(state) => r matches Ok(new) && rebuilt(raw, state, new),
                Err(e) => r matches Err(m) && m@ == "failed to parse rollback current state JSON: "@
                    + e,
            },
            None => r matches Ok(new) && absent(new),
        },
    }
}

/// Decides what a rollback makes of the record: the one that was there, or else
/// one made of the state that was there, or else none.
pub fn rollback_live_deployment_state(
    artifact: &Option<String>,
    snapshot: Option<StoredControllerState>,
) -> (r: Result<StoredControllerState, String>)
    ensures
        rolled_back_record(*artifact, snapshot, r),
{
    let earlier: Option<String> = earlier_state(artifact, &snapshot);
    match snapshot {
        Some(c) => {
            let state: Option<String> = match c.active_deployment_state_json {
                Some(raw) => Some(raw),
                None => earlier,
            };
            let domain: Option<String> = match c.active_tunnel_domain {
                Some(domain) => Some(domain),
                None => match &state {
                    Some(raw) => match parse_tunnel_domain_from_state_json(raw.as_str()) {
                        Ok(domain) => domain,
                        Err(_) => None,
                    },
                    None => None,
                },
            };
            Ok(
                StoredControllerState {
                    active_deployment_label: c.active_deployment_label,
                    active_instance_id: c.active_instance_id,
                    active_server_ip: c.active_server_ip,
                    active_tunnel_domain: domain,
                    active_deployment_state_json: state,
                    deploy_phase: c.deploy_phase,
                    app_readiness_phase: c.app_readiness_phase,
                    last_error_code: c.last_error_code,
                    last_error_message: c.last_error_message,
                },
            )
        },
        None => match earlier {
            Some(raw) => match parse_document(raw.as_str()) {
                Ok(state) => Ok(rebuilt_record(raw, &state)),
                Err(e) => Err(
                    cat2("failed to parse rollback current state JSON: ", e.as_str()),
                ),
            },
            None => Ok(
                StoredControllerState {
                    active_deployment_label: None,
                    active_instance_id: None,
                    active_server_ip: None,
                    active_tunnel_domain: None,
                    active_deployment_state_json: None,
                    deploy_phase: DeployPhase::Unspecified,
                    app_readiness_phase: AppReadinessPhase::DeploymentAbsent,
                    last_error_code: None,
                    last_error_message: None,
                },
            ),
        },
    }
}

/// A rollback brings the record back as it was: whatever the deployment that
/// failed has recorded, nothing of it is left, and what was recorded before is
/// there again.
pub proof fn law_rollback_brings_the_record_back(
    artifact: Option<String>,
    snapshot: StoredControllerState,
    r: Result<StoredControllerState, String>,
)
    requires
        rolled_back_record(artifact, Some(snapshot), r),
    ensures
        r matches Ok(c) && {
            &&& c.active_deployment_label == snapshot.active_deployment_label
            &&& c.active_instance_id == snapshot.active_instance_id
            &&& c.active_server_ip == snapshot.active_server_ip
            &&& c.deploy_phase == snapshot.deploy_phase
            &&& c.app_readiness_phase == snapshot.app_readiness_phase
            &&& c.last_error_code == snapshot.last_error_code
            &&& c.last_error_message == snapshot.last_error_message
            &&& snapshot.active_deployment_state_json is Some
                ==> c.active_deployment_state_json == snapshot.active_deployment_state_json
            &&& snapshot.active_tunnel_domain is Some ==> c.active_tunnel_domain.deep_view()
                == snapshot.active_tunnel_domain.deep_view()
        },
{
}

/// A rollback with nothing to go back to leaves nothing live behind.
pub proof fn law_rollback_to_nothing_leaves_nothing(r: Result<StoredControllerState, String>)
    requires
        rolled_back_record(None, None, r),
    ensures
        r matches Ok(c) && absent(c) && !holds_deployment(c),
{
}

/// Whether two records hold the same.
pub open spec fn same_record(a: StoredControllerState, b: StoredControllerState) -> bool {
    &&& a.active_deployment_label.deep_view() == b.active_deployment_label.deep_view()
    &&& a.active_instance_id.deep_view() == b.active_instance_id.deep_view()
    &&& a.active_server_ip.deep_view() == b.active_server_ip.deep_view()
    &&& a.active_tunnel_domain.deep_view() == b.active_tunnel_domain.deep_view()
    &&& a.active_deployment_state_json.deep_view() == b.active_deployment_state_json.deep_view()
    &&& a.deploy_phase == b.deploy_phase
    &&& a.app_readiness_phase == b.app_readiness_phase
    &&& a.last_error_code.deep_view() == b.last_error_code.deep_view()
    &&& a.last_error_message.deep_view() == b.last_error_message.deep_view()
}

/// Rolling back a second time to the same earlier state changes nothing:
/// neither the record nor the file, whatever the file held at first.
pub proof fn law_rolling_back_again_changes_nothing(
    artifact: Option<String>,
    snapshot: Option<StoredControllerState>,
    file: Option<String>,
    once: StoredControllerState,
    twice: Result<StoredControllerState, String>,
)
    requires
        rolled_back_record(artifact, snapshot, Ok(once)),
        rolled_back_record(artifact, snapshot, twice),
    ensures
        twice matches Ok(c) && same_record(c, once),
        ({
            let left = changed_file(rollback_change(artifact, snapshot, file is Some), file);
            changed_file(rollback_change(artifact, snapshot, left is Some), left) == left
        }),
{
}

/// A record that was restored is restored as it is.
pub proof fn law_a_restored_record_restores_itself(
    artifact: Option<String>,
    snapshot: StoredControllerState,
    once: StoredControllerState,
    twice: StoredControllerState,
)
    requires
        rolled_back_record(artifact, Some(snapshot), Ok(once)),
        rolled_back_record(artifact, Some(once), Ok(twice)),
    ensures
        same_record(twice, once),
{
}

/// Whether going to a phase has to be checked: not where the record is there
/// already.
pub fn needs_transition_check(current: Option<DeployPhase>, next: DeployPhase) -> (r: bool)
    ensures
        r == (current matches Some(c) && c != next),
{
    match current {
        Some(c) => c != next,
        None => false,
    }
}

/// A rollback gives the record and the file back as they were, and where there
/// was no record it makes one of the earlier state, and where there was neither
/// nothing is left.
pub proof fn law_a_rollback_goes_back_to_what_was(
    artifact: Option<String>,
    snapshot: Option<StoredControllerState>,
    is_file: bool,
    change: ArtifactChange,
    r: Result<StoredControllerState, String>,
)
    requires
        call_ensures(rollback_artifact, (&artifact, &snapshot, is_file), change),
        call_ensures(rollback_live_deployment_state, (&artifact, snapshot), r),
    ensures
        artifact matches Some(raw) ==> change == ArtifactChange::Write(raw),
        artifact is None && snapshot is None ==> !(change is Write) && (change is Remove
            <==> is_file),
        artifact is None && snapshot is Some ==> (
        snapshot->Some_0.active_deployment_state_json matches Some(raw) ==> change
            == ArtifactChange::Write(raw)),
        snapshot matches Some(c) ==> (r matches Ok(new) && new.active_deployment_label
            == c.active_deployment_label && new.active_instance_id == c.active_instance_id
            && new.active_server_ip == c.active_server_ip && new.deploy_phase == c.deploy_phase
            && new.app_readiness_phase == c.app_readiness_phase && new.last_error_code
            == c.last_error_code && new.last_error_message == c.last_error_message),
        snapshot is None && artifact is None ==> (r matches Ok(new) && new.active_instance_id is None
            && new.active_deployment_label is None && new.active_server_ip is None
            && new.active_deployment_state_json is None && new.app_readiness_phase
            is DeploymentAbsent),
        snapshot is None && artifact is Some && r is Ok ==> r->Ok_0.active_deployment_state_json
            == artifact,
{
}

/// A deployment that is published is recorded under its label, with its machine
/// and address, and without an error.
pub proof fn law_published_deployments_are_recorded(
    label: &str,
    target: ResolvedDeployTarget,
    raw: &str,
    r: StoredControllerState,
    material: LocalTrustMaterial,
    trust: StoredTrustEntry,
)
    requires
        call_ensures(
            persist_bundle_locally,
            (label, &target, raw),
            Ok::<StoredControllerState, String>(r),
        ),
        call_ensures(published_trust, (label, &target, material), trust),
    ensures
        r.active_deployment_label matches Some(l) && l@ == label@,
        r.active_instance_id matches Some(id) && id@ == target.instance_id@,
        r.active_server_ip matches Some(ip) && ip@ == target.target_ip@,
        r.active_deployment_state_json matches Some(s) && s@ == raw@,
        r.deploy_phase is DeploymentPublished,
        r.app_readiness_phase is ServerRuntimeReady,
        r.last_error_code is None && r.last_error_message is None,
        trust.instance_id@ == target.instance_id@,
        trust.ip@ == target.target_ip@,
        trust.deployment_id@ == label@,
        trust.ca_cert_path == Some(material.ca_cert_path),
        trust.client_cert_path == Some(material.client_cert_path),
        trust.client_key_path == Some(material.client_key_path),
        trust.domain_name matches Some(n) && n@ == "edge-agent"@,
{
}

/// The trust in a published deployment reads back: it leads to the machine that
/// was deployed to, with the material that was made for it.
pub proof fn law_published_trust_reads_back(
    label: &str,
    target: ResolvedDeployTarget,
    material: LocalTrustMaterial,
    trust: StoredTrustEntry,
    deployment: StoredDeployment,
    port: u16,
    r: Result<AgentConnectionTarget, String>,
)
    requires
        call_ensures(published_trust, (label, &target, material), trust),
        deployment.server_ip@ == target.target_ip@,
        call_ensures(persisted_agent_connection_target, (&deployment, &trust, port), r),
    ensures
        r matches Ok(way) && way.endpoint@ == "https://"@ + target.target_ip@ + ":"@ + decimal(
            port as nat,
        ) && (way.tls_paths matches Some(p) && p.ca_cert_path@ == material.ca_cert_path@
            && p.client_cert_path@ == material.client_cert_path@ && p.client_key_path@
            == material.client_key_path@),
{
}

/// What is told of the live deployment comes from the record where there is one,
/// and from the file only where there is none; where neither is there, nothing
/// is live.
pub proof fn law_the_live_deployment_is_the_recorded_one(
    record: Option<StoredControllerState>,
    record_path: &str,
    artifact: Option<String>,
    artifact_path: &str,
    r: Result<DeploymentSummary, String>,
)
    requires
        call_ensures(
            read_live_deployment_summary,
            (record, record_path, &artifact, artifact_path),
            r,
        ),
    ensures
        record is None && artifact is None ==> (r matches Ok(s) && !s.live_state_present
            && s.instance_id is None && s.server_ip is None && s.deployment_label is None),
        record matches Some(c) ==> (r matches Ok(s) ==> {
            &&& c.active_instance_id matches Some(id) ==> (s.instance_id matches Some(t) && t@
                == id@)
            &&& c.active_server_ip matches Some(ip) ==> (s.server_ip matches Some(t) && t@ == ip@)
            &&& c.active_deployment_label matches Some(l) ==> (s.deployment_label matches Some(t)
                && t@ == l@)
            &&& c.active_tunnel_domain is Some && (c.active_instance_id is Some
                || c.active_server_ip is Some || c.active_deployment_label is Some) ==> (
            s.tunnel_domain matches Some(t) && t@ == c.active_tunnel_domain->Some_0@)
            &&& c.active_instance_id is Some || c.active_server_ip is Some
                || c.active_deployment_label is Some ==> s.live_state_present
            &&& s.live_state_present ==> (s.source_state_path matches Some(p) && p@ == record_path@)
        }),
        record matches Some(c) ==> (c.active_deployment_state_json is None ==> r is Ok),
        record matches Some(c) ==> (c.active_deployment_state_json is None && c.active_instance_id
            is None && c.active_server_ip is None && c.active_deployment_label is None ==> (
        r matches Ok(s) && !s.live_state_present)),
        record is None && artifact is Some && r is Ok ==> r->Ok_0.live_state_present,
{
}

/// A record is made of the latest deployment only where the state of one is
/// there and nothing is recorded yet.
pub proof fn law_a_record_is_never_overwritten_by_the_past(
    artifact: Option<String>,
    existing: Option<StoredControllerState>,
    latest: Option<StoredDeployment>,
    r: Result<Option<StoredControllerState>, String>,
)
    requires
        call_ensures(reconcile_active_deployment_state, (artifact, &existing, latest), r),
    ensures
        r matches Ok(Some(c)) ==> artifact is Some && latest is Some && (existing matches Some(e)
            ==> e.active_deployment_label is None && e.active_instance_id is None
            && e.active_server_ip is None && e.active_deployment_state_json is None),
        r matches Ok(Some(c)) ==> c.active_instance_id == Some(latest->Some_0.instance_id)
            && c.active_server_ip == Some(latest->Some_0.server_ip) && c.active_deployment_label
            == Some(latest->Some_0.deployment_label) && c.active_deployment_state_json == artifact,
        artifact is None || latest is None ==> r == Ok::<Option<StoredControllerState>, String>(
            None,
        ),
        artifact is Some && latest is Some && existing is None ==> r is Err || (r matches Ok(Some(
            _,
        ))),
{
}

/// A machine that the provider shows is recorded exactly where it is not
/// recorded already and was not given up; what was known of the very machine is
/// kept, and what was known of another is not carried over to it.
pub proof fn law_found_machines_are_recorded_afresh(
    found: VultrInstance,
    tombstoned: bool,
    record: Option<StoredControllerState>,
    r: Option<StoredControllerState>,
)
    requires
        call_ensures(
            reconcile_provider_active_deployment_state,
            (&found, tombstoned, &record),
            r,
        ),
    ensures
        tombstoned ==> r is None,
        r matches Some(c) ==> {
            &&& c.active_instance_id matches Some(id) && id@ == found.id@
            &&& c.active_server_ip matches Some(ip) && ip@ == found.main_ip@
            &&& c.active_deployment_label matches Some(l) && l@ == found.label@
            &&& c.last_error_code is None
            &&& (record matches Some(old) && (old.active_instance_id matches Some(id) && id@
                == found.id@)) ==> c.active_deployment_state_json
                == record->Some_0.active_deployment_state_json
            &&& !(record matches Some(old) && (old.active_instance_id matches Some(id) && id@
                == found.id@)) ==> c.active_deployment_state_json is None
                && c.app_readiness_phase is DeploymentAbsent && c.deploy_phase
                is InstanceAddressAssigned
        },
        !tombstoned ==> (r is None <==> (record matches Some(old) && (
        old.active_instance_id matches Some(id) && id@ == found.id@) && (
        old.active_server_ip matches Some(ip) && ip@ == found.main_ip@) && (
        old.active_deployment_label matches Some(l) && l@ == found.label@))),
{
}

/// The label of an attempt is that of the first event that names one.
pub proof fn law_an_attempt_is_known_by_its_first_label(events: Vec<String>, r: Option<String>, k: int)
    requires
        call_ensures(latest_deploy_attempt_label, (&events,), r),
        0 <= k < events@.len(),
        begins_with(events@[k]@, "deployment label reserved: "@),
        forall|i: int|
            0 <= i < k ==> !begins_with(
                (#[trigger] events@[i])@,
                "deployment label reserved: "@,
            ),
    ensures
        r matches Some(l) && events@[k]@ == "deployment label reserved: "@ + l@,
{
    let all = texts(events@);
    assert(all.len() == events@.len());
    assert forall|i: int| 0 <= i < all.len() implies all[i] == events@[i]@ by {}
    assert forall|i: int| 0 <= i < k implies !begins_with(#[trigger] all[i], LABEL_EVENT@) by {
        assert(!begins_with(events@[i]@, "deployment label reserved: "@));
    }
    lemma_label_in(all, k);
    let s = events@[k]@;
    let part = LABEL_EVENT@;
    assert(s.subrange(0, part.len() as int) == part);
    assert(s =~= part + s.skip(part.len() as int));
}

proof fn lemma_label_in(events: Seq<Seq<char>>, k: int)
    requires
        0 <= k < events.len(),
        begins_with(events[k], LABEL_EVENT@),
        forall|i: int| 0 <= i < k ==> !begins_with(#[trigger] events[i], LABEL_EVENT@),
    ensures
        label_in(events) == Some(events[k].skip(LABEL_EVENT@.len() as int)),
    decreases k,
{
    if k > 0 {
        assert(!begins_with(events[0], LABEL_EVENT@));
        let rest = events.drop_first();
        assert forall|i: int| 0 <= i < k - 1 implies !begins_with(
            #[trigger] rest[i],
            LABEL_EVENT@,
        ) by {
            assert(rest[i] == events[i + 1]);
        }
        lemma_label_in(rest, k - 1);
    }
}

/// A phase is checked exactly where it differs from the recorded one.
pub proof fn law_only_changes_of_phase_are_checked(
    current: Option<DeployPhase>,
    next: DeployPhase,
    r: bool,
)
    requires
        call_ensures(needs_transition_check, (current, next), r),
    ensures
        r <==> current is Some && current != Some(next),
{
}

/// A record that names a deployment is told as it stands, and one that names none
/// tells of none.
pub proof fn law_a_record_is_told_as_it_stands(
    record: StoredControllerState,
    path: &str,
    r: DeploymentSummary,
)
    requires
        call_ensures(summary_of_record, (record, path), r),
    ensures
        r.live_state_present <==> record.active_deployment_label is Some
            || record.active_instance_id is Some || record.active_server_ip is Some,
        r.live_state_present ==> {
            &&& r.source_state_path.deep_view() == Some(path@)
            &&& r.deployment_label == record.active_deployment_label
            &&& r.instance_id == record.active_instance_id
            &&& r.server_ip == record.active_server_ip
            &&& r.tunnel_domain == record.active_tunnel_domain
        },
        !r.live_state_present ==> r.source_state_path is None && r.deployment_label is None
            && r.instance_id is None && r.server_ip is None && r.tunnel_domain is None,
{
}

/// What the record holds comes before what the state says, part by part, and what
/// the record lacks is taken from the state.
pub proof fn law_the_record_is_told_before_the_state(
    record: StoredControllerState,
    state: Json,
    path: &str,
    r: DeploymentSummary,
)
    requires
        call_ensures(summary_with_state, (record, &state, path), r),
        record.active_deployment_label is Some,
    ensures
        r.live_state_present,
        r.deployment_label.deep_view() == record.active_deployment_label.deep_view(),
        record.active_instance_id matches Some(id) ==> r.instance_id.deep_view() == Some(id@),
        record.active_instance_id is None ==> r.instance_id.deep_view() == state.text_at(
            "instance_id"@,
        ),
        record.active_server_ip matches Some(ip) ==> r.server_ip.deep_view() == Some(ip@),
        record.active_server_ip is None ==> r.server_ip.deep_view() == state.text_at("ip"@),
        record.active_tunnel_domain matches Some(d) ==> r.tunnel_domain.deep_view() == Some(d@),
        record.active_tunnel_domain is None ==> r.tunnel_domain.deep_view() == state.text_within(
            "tunnel"@,
            "domain"@,
        ),
{
}

/// A record that is rebuilt from a state says what the state says, and tells of no
/// failure.
pub proof fn law_a_rebuilt_record_says_what_the_state_says(
    raw: String,
    state: Json,
    r: StoredControllerState,
    told: DeploymentSummary,
    path: &str,
)
    requires
        call_ensures(rebuilt_record, (raw, &state), r),
        call_ensures(summary_of_state, (&state, path), told),
    ensures
        r.active_deployment_label.deep_view() == state.text_at("label"@),
        r.active_instance_id.deep_view() == state.text_at("instance_id"@),
        r.active_server_ip.deep_view() == state.text_at("ip"@),
        r.active_deployment_state_json == Some(raw),
        r.last_error_code is None && r.last_error_message is None,
        told.live_state_present,
        told.deployment_label.deep_view() == r.active_deployment_label.deep_view(),
        told.instance_id.deep_view() == r.active_instance_id.deep_view(),
        told.server_ip.deep_view() == r.active_server_ip.deep_view(),
        told.tunnel_domain.deep_view() == r.active_tunnel_domain.deep_view(),
        told.source_state_path.deep_view() == Some(path@),
{
}

/// Where a label is asked for, the candidate is the one machine that bears it.
/// Two such machines are refused, and without one there is no candidate.
pub proof fn law_the_candidate_bears_the_label(
    instances: Vec<VultrInstance>,
    label: Option<String>,
    recorded: Option<String>,
    r: Result<Option<VultrInstance>, String>,
    i: int,
)
    requires
        call_ensures(choose_candidate, (&instances, &label, &recorded), r),
        label is Some,
    ensures
        r matches Ok(Some(x)) ==> {
            &&& x.label@ == label->Some_0@
            &&& 0 <= i < instances@.len() && instances@[i].label@ == label->Some_0@ ==> x.id
                == instances@[i].id && x.main_ip == instances@[i].main_ip
        },
        r matches Ok(None) ==> (0 <= i < instances@.len() ==> instances@[i].label@
            != label->Some_0@),
        r is Err ==> exists|a: int, b: int|
            0 <= a < b < instances@.len() && (#[trigger] instances@[a]).label@ == label->Some_0@ && (
            #[trigger] instances@[b]).label@ == label->Some_0@,
{
    let l = label->Some_0@;
    match r {
        Ok(Some(x)) => {
            let k = choose|k: int| #[trigger] only_labelled(instances@, l, k) && copied(
                instances@[k],
                x,
            );
            if 0 <= i < instances@.len() && instances@[i].label@ == l {
                assert(i == k);
            }
        },
        Ok(None) => {},
        Err(e) => {
            let (a, b) = choose|a: int, b: int|
                first_labelled(instances@, l, 0, a) && #[trigger] first_labelled(
                    instances@,
                    l,
                    a + 1,
                    b,
                );
            assert(instances@[a].label@ == l && instances@[b].label@ == l);
        },
    }
}

/// Where no label is asked for, a machine on record that is still there leaves no
/// candidate; otherwise the candidate is a machine that is up and well, has an
/// address and is one of the edge.
pub proof fn law_an_unasked_candidate_is_up_and_well(
    instances: Vec<VultrInstance>,
    recorded: Option<String>,
    r: Result<Option<VultrInstance>, String>,
    i: int,
    j: int,
)
    requires
        call_ensures(choose_candidate, (&instances, &None::<String>, &recorded), r),
        0 <= i < instances@.len(),
        0 <= j < instances@.len(),
    ensures
        r is Ok,
        recorded matches Some(id) ==> (instances@[i].id@ == id@ ==> (r matches Ok(None))),
        r matches Ok(Some(x)) ==> {
            &&& x.status@ == "active"@
            &&& x.server_status@ == "ok"@
            &&& !blank(x.main_ip@)
            &&& has_part(x.label@, "edge"@)
            &&& reconcilable(instances@[i]) ==> x.id == instances@[i].id
        },
{
    let wanted = |x: VultrInstance| reconcilable(x);
    lemma_filter_members(instances@, wanted);
    if let Ok(Some(x)) = r {
        let k = choose|k: usize|
            #[trigger] only_reconcilable(instances@, k) && copied(instances@[k as int], x);
        let hits = instances@.filter(wanted);
        assert(hits == seq![instances@[k as int]]);
        assert(hits[0] == instances@[k as int]);
        assert(hits.contains(instances@[k as int]));
        if reconcilable(instances@[i]) {
            assert(instances@.contains(instances@[i]));
            assert(hits.contains(instances@[i]));
        }
    }
}

/// A deployment that is published is on record with its machine and its state, and
/// with no failure.
pub proof fn law_a_published_deployment_is_on_record(
    label: &str,
    target: ResolvedDeployTarget,
    raw: &str,
    state: Json,
    r: StoredControllerState,
)
    requires
        call_ensures(published_record, (label, &target, raw, &state), r),
    ensures
        r.active_deployment_label.deep_view() == Some(label@),
        r.active_instance_id == Some(target.instance_id),
        r.active_server_ip == Some(target.target_ip),
        r.active_tunnel_domain.deep_view() == state.text_within("tunnel"@, "domain"@),
        r.active_deployment_state_json.deep_view() == Some(raw@),
        r.deploy_phase == DeployPhase::DeploymentPublished,
        r.app_readiness_phase == AppReadinessPhase::ServerRuntimeReady,
        r.last_error_code is None && r.last_error_message is None,
{
}

/// Where the record names no deployment, one is told of only where the state names
/// one, and then as the state has it.
pub proof fn law_the_state_is_told_where_the_record_is_empty(
    record: StoredControllerState,
    state: Json,
    path: &str,
    r: DeploymentSummary,
)
    requires
        call_ensures(summary_with_state, (record, &state, path), r),
        record.active_deployment_label is None,
        record.active_instance_id is None,
        record.active_server_ip is None,
    ensures
        r.live_state_present <==> state.at("label"@) is Some || state.at("instance_id"@) is Some
            || state.at("ip"@) is Some,
        r.live_state_present ==> {
            &&& r.deployment_label.deep_view() == state.text_at("label"@)
            &&& r.instance_id.deep_view() == state.text_at("instance_id"@)
            &&& r.server_ip.deep_view() == state.text_at("ip"@)
        },
        !r.live_state_present ==> r.deployment_label is None && r.instance_id is None && r.server_ip
            is None,
{
}

} // verus!
