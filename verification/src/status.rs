//! What the controller tells of the whole: the agent, the proxy and its routes,
//! how ready they are, and what is wrong with them.
use crate::local_runtime::LocalSingboxState;
use crate::selector::{SelectorState, converged, selector_is_converged};
use crate::text::{
    bool_word, cat2, cat3, cat4, cat6, decimal, join, joined, number, push_text, quote_option,
    quoted_option, texts, word_of_bool,
};
use vstd::prelude::*;
use vstd::string::*;

verus! {

/// What an agent says of itself.
#[derive(Debug, PartialEq, Eq)]
pub struct AgentState {
    pub healthy: bool,
    pub ready: bool,
    pub topology_version: String,
    pub active_bundle_id: Option<String>,
    pub degraded_reasons: Vec<String>,
    pub docker_reachable: bool,
    pub compose_file_present: bool,
    pub observed_stack_path: Option<String>,
    pub running_containers: Vec<String>,
    pub missing_containers: Vec<String>,
    pub listening_tcp_ports: Vec<u32>,
    pub listening_udp_ports: Vec<u32>,
}

/// What came of asking an agent.
#[derive(Debug, PartialEq, Eq)]
pub enum AgentAnswers {
    /// It is not known where the agent is.
    NoTarget(String),
    /// The agent did not answer at that endpoint.
    Unreachable(String),
    /// The agent answered at that endpoint, but not on its runtime.
    NoRuntime(String),
    /// The agent answered on its runtime, and as far as given on the rest.
    Answered {
        state: AgentState,
        healthy: Option<bool>,
        ready: Option<bool>,
        version: Option<String>,
    },
}

/// The words for what went wrong, if anything did.
pub open spec fn agent_trouble(answers: AgentAnswers) -> Option<Seq<char>> {
    match answers {
        AgentAnswers::NoTarget(e) => Some(e@),
        AgentAnswers::Unreachable(endpoint) => Some(
            "edge-agent is unreachable at "@ + endpoint@,
        ),
        AgentAnswers::NoRuntime(endpoint) => Some(
            "edge-agent runtime RPC failed at "@ + endpoint@,
        ),
        AgentAnswers::Answered { .. } => None,
    }
}

/// What stands for an agent that says nothing, and why.
pub open spec fn silent_agent(s: AgentState, topology: Seq<char>, reason: Seq<char>) -> bool {
    &&& !s.healthy
    &&& !s.ready
    &&& s.topology_version@ == topology
    &&& s.active_bundle_id is None
    &&& texts(s.degraded_reasons@) == seq![reason]
    &&& !s.docker_reachable
    &&& !s.compose_file_present
    &&& s.observed_stack_path is None
    &&& s.running_containers@.len() == 0
    &&& s.missing_containers@.len() == 0
    &&& s.listening_tcp_ports@.len() == 0
    &&& s.listening_udp_ports@.len() == 0
}

fn silence(topology: &str, reason: String) -> (r: AgentState)
    ensures
        silent_agent(r, topology@, reason@),
{
    let ghost words = reason@;
    let mut degraded_reasons: Vec<String> = Vec::new();
    degraded_reasons.push(reason);
    assert(texts(degraded_reasons@) =~= seq![words]);
    AgentState {
        healthy: false,
        ready: false,
        topology_version: topology.to_owned(),
        active_bundle_id: None,
        degraded_reasons,
        docker_reachable: false,
        compose_file_present: false,
        observed_stack_path: None,
        running_containers: Vec::new(),
        missing_containers: Vec::new(),
        listening_tcp_ports: Vec::new(),
        listening_udp_ports: Vec::new(),
    }
}

/// What is known of an agent from its answers.
pub open spec fn agent_seen(answers: AgentAnswers, seen: AgentState) -> bool {
    match answers {
        AgentAnswers::NoTarget(e) => silent_agent(seen, "agent-target-resolution-failed"@, e@),
        AgentAnswers::Unreachable(endpoint) => silent_agent(
            seen,
            "unreachable"@,
            "edge-agent is unreachable at "@ + endpoint@,
        ),
        AgentAnswers::NoRuntime(endpoint) => silent_agent(
            seen,
            "runtime-rpc-failed"@,
            "edge-agent runtime RPC failed at "@ + endpoint@,
        ),
        AgentAnswers::Answered { state, healthy, ready, version } => {
            &&& seen.healthy == match healthy {
                Some(h) => h,
                None => state.healthy,
            }
            &&& seen.ready == match ready {
                Some(h) => h,
                None => state.ready,
            }
            &&& seen.topology_version@ == match version {
                Some(v) => state.topology_version@ + "@"@ + v@,
                None => state.topology_version@,
            }
            &&& seen.active_bundle_id == state.active_bundle_id
            &&& seen.degraded_reasons == state.degraded_reasons
            &&& seen.docker_reachable == state.docker_reachable
            &&& seen.compose_file_present == state.compose_file_present
            &&& seen.observed_stack_path == state.observed_stack_path
            &&& seen.running_containers == state.running_containers
            &&& seen.missing_containers == state.missing_containers
            &&& seen.listening_tcp_ports == state.listening_tcp_ports
            &&& seen.listening_udp_ports == state.listening_udp_ports
        },
    }
}

/// Puts together what is known of an agent, and says what went wrong, if
/// anything did.
pub fn observe_agent(answers: AgentAnswers) -> (r: (AgentState, Option<String>))
    ensures
        agent_seen(answers, r.0),
        r.1.deep_view() == agent_trouble(answers),
{
    match answers {
        AgentAnswers::NoTarget(e) => {
            let reason: String = e.clone();
            (silence("agent-target-resolution-failed", e), Some(reason))
        },
        AgentAnswers::Unreachable(endpoint) => {
            let reason: String = cat2("edge-agent is unreachable at ", endpoint.as_str());
            (silence("unreachable", reason.clone()), Some(reason))
        },
        AgentAnswers::NoRuntime(endpoint) => {
            let reason: String = cat2("edge-agent runtime RPC failed at ", endpoint.as_str());
            (silence("runtime-rpc-failed", reason.clone()), Some(reason))
        },
        AgentAnswers::Answered { state, healthy, ready, version } => {
            let mut seen: AgentState = state;
            match healthy {
                Some(h) => {
                    seen.healthy = h;
                },
                None => {},
            }
            match ready {
                Some(h) => {
                    seen.ready = h;
                },
                None => {},
            }
            match version {
                Some(v) => {
                    seen.topology_version = cat3(seen.topology_version.as_str(), "@", v.as_str());
                },
                None => {},
            }
            (seen, None)
        },
    }
}

/// An agent that did not answer on its runtime is never taken for ready.
pub proof fn law_silent_agent_is_not_ready(answers: AgentAnswers, seen: AgentState)
    requires
        agent_seen(answers, seen),
        agent_trouble(answers) is Some,
    ensures
        !seen.ready,
        !seen.healthy,
        texts(seen.degraded_reasons@) == seq![agent_trouble(answers)->0],
{
}

/// What is added to the notes on the whole.
pub open spec fn status_words(
    agent_ready: bool,
    agent_reachable: bool,
    recorded: bool,
    artifact_present: bool,
    reconcile_failure: Option<Seq<char>>,
) -> Seq<Seq<char>> {
    let first = if !agent_ready && !recorded {
        seq!["server agent has not reached runtime readiness"@]
    } else {
        Seq::empty()
    };
    let second = if !agent_reachable {
        if recorded {
            seq!["server runtime observation is unavailable; using persisted live deployment state"@]
        } else {
            seq!["server runtime observation is running in degraded fallback mode"@]
        }
    } else {
        Seq::empty()
    };
    let third = if recorded && !artifact_present {
        seq!["local runtime artifact current-edge.json is missing; start-local cannot be trusted"@]
    } else {
        Seq::empty()
    };
    let fourth = match reconcile_failure {
        Some(e) => seq!["authoritative provider reconciliation unavailable: "@ + e],
        None => Seq::empty(),
    };
    first + second + third + fourth
}

/// Notes what is wrong with the whole. `recorded` says whether a deployment is
/// recorded as live, `reconcile_failure` why the record could not be compared
/// with the provider, if it could not.
pub fn note_status(
    notes: Vec<String>,
    agent_ready: bool,
    agent_reachable: bool,
    recorded: bool,
    artifact_present: bool,
    reconcile_failure: &Option<String>,
) -> (r: Vec<String>)
    ensures
        texts(r@) == texts(notes@) + status_words(
            agent_ready,
            agent_reachable,
            recorded,
            artifact_present,
            reconcile_failure.deep_view(),
        ),
{
    let ghost start = texts(notes@);
    let mut notes: Vec<String> = notes;
    if !agent_ready && !recorded {
        push_text(&mut notes, "server agent has not reached runtime readiness".to_owned());
    }
    if !agent_reachable && !recorded {
        push_text(
            &mut notes,
            "server runtime observation is running in degraded fallback mode".to_owned(),
        );
    } else if !agent_reachable && recorded {
        push_text(
            &mut notes,
            "server runtime observation is unavailable; using persisted live deployment state".to_owned(),
        );
    }
    if recorded && !artifact_present {
        push_text(
            &mut notes,
            "local runtime artifact current-edge.json is missing; start-local cannot be trusted".to_owned(),
        );
    }
    match reconcile_failure {
        Some(e) => {
            push_text(
                &mut notes,
                cat2("authoritative provider reconciliation unavailable: ", e.as_str()),
            );
        },
        None => {},
    }
    assert(texts(notes@) =~= start + status_words(
        agent_ready,
        agent_reachable,
        recorded,
        artifact_present,
        reconcile_failure.deep_view(),
    ));
    notes
}

/// How far the application is ready for use.
#[derive(Debug, Clone, Copy, PartialEq, Eq, Structural)]
pub enum AppReadinessPhase {
    Unspecified,
    DeploymentAbsent,
    ServerRuntimeReady,
    LocalRuntimeReady,
    SelectorsReady,
    AppEgressReady,
    AppReady,
    AppReadinessFailed,
}

/// Whether a group is there and takes the route that is wanted.
pub open spec fn group_converged(selector: Option<SelectorState>) -> bool {
    selector matches Some(s) && converged(s)
}

fn is_group_converged(selector: &Option<SelectorState>) -> (r: bool)
    ensures
        r == group_converged(*selector),
{
    match selector {
        Some(s) => selector_is_converged(s),
        None => false,
    }
}

/// How far the application is ready, by what is seen of it.
pub open spec fn observed_readiness(
    deployed: bool,
    local_running: bool,
    desktop: Option<SelectorState>,
    ubuntu: Option<SelectorState>,
) -> AppReadinessPhase {
    if !deployed {
        AppReadinessPhase::DeploymentAbsent
    } else if !local_running {
        AppReadinessPhase::AppReadinessFailed
    } else if !group_converged(desktop) || !group_converged(ubuntu) {
        AppReadinessPhase::LocalRuntimeReady
    } else {
        AppReadinessPhase::AppReady
    }
}

/// How far the application is ready, by what is seen of it.
pub fn refresh_app_readiness_from_observed_status(
    deployed: bool,
    local_running: bool,
    desktop: &Option<SelectorState>,
    ubuntu: &Option<SelectorState>,
) -> (r: AppReadinessPhase)
    ensures
        r == observed_readiness(deployed, local_running, *desktop, *ubuntu),
{
    if !deployed {
        AppReadinessPhase::DeploymentAbsent
    } else if !local_running {
        AppReadinessPhase::AppReadinessFailed
    } else if !is_group_converged(desktop) || !is_group_converged(ubuntu) {
        AppReadinessPhase::LocalRuntimeReady
    } else {
        AppReadinessPhase::AppReady
    }
}

/// The application is called ready only where something is deployed, the proxy
/// runs, and both groups take the routes that are wanted.
pub proof fn law_ready_means_all_is_in_place(
    deployed: bool,
    local_running: bool,
    desktop: Option<SelectorState>,
    ubuntu: Option<SelectorState>,
)
    ensures
        observed_readiness(deployed, local_running, desktop, ubuntu) == AppReadinessPhase::AppReady
            <==> (deployed && local_running && group_converged(desktop) && group_converged(ubuntu)),
{
}

/// How far the application is ready, as it is recorded.
#[derive(Debug, PartialEq, Eq)]
pub enum ReadinessNext {
    /// Look through the proxy first.
    Trace,
    Record {
        phase: AppReadinessPhase,
        error_code: Option<&'static str>,
        error_message: Option<&'static str>,
    },
}

/// Decides how far the application is ready after the proxy was started.
pub fn refresh_app_readiness_phase(
    local_running: bool,
    desktop: &SelectorState,
    ubuntu: &SelectorState,
) -> (r: ReadinessNext)
    ensures
        if !local_running {
            &&& r matches ReadinessNext::Record { phase, error_code, error_message }
            &&& phase == AppReadinessPhase::AppReadinessFailed
            &&& error_code matches Some(c)
            &&& c@ == "local_runtime_not_running"@
            &&& error_message matches Some(m)
            &&& m@ == "local sing-box is not running"@
        } else if !converged(*desktop) || !converged(*ubuntu) {
            r == (ReadinessNext::Record {
                phase: AppReadinessPhase::LocalRuntimeReady,
                error_code: None,
                error_message: None,
            })
        } else {
            r is Trace
        },
{
    if !local_running {
        ReadinessNext::Record {
            phase: AppReadinessPhase::AppReadinessFailed,
            error_code: Some("local_runtime_not_running"),
            error_message: Some("local sing-box is not running"),
        }
    } else if !selector_is_converged(desktop) || !selector_is_converged(ubuntu) {
        ReadinessNext::Record {
            phase: AppReadinessPhase::LocalRuntimeReady,
            error_code: None,
            error_message: None,
        }
    } else {
        ReadinessNext::Trace
    }
}

/// How far the application is ready after a look through the proxy.
pub fn readiness_after_traces(desktop_available: bool, ubuntu_available: bool) -> (r:
    AppReadinessPhase)
    ensures
        r == if desktop_available && ubuntu_available {
            AppReadinessPhase::AppReady
        } else {
            AppReadinessPhase::SelectorsReady
        },
{
    if desktop_available && ubuntu_available {
        AppReadinessPhase::AppReady
    } else {
        AppReadinessPhase::SelectorsReady
    }
}

/// What a look through the proxy showed.
#[derive(Debug, PartialEq, Eq)]
pub struct TraceObservation {
    pub available: bool,
    pub ip: Option<String>,
    pub note: Option<String>,
}

/// What follows a look through the proxy.
#[derive(Debug, PartialEq, Eq)]
pub enum TraceNext {
    Done(TraceObservation),
    /// Look again after a pause.
    Again,
}

/// The note on a wait that was in vain.
pub open spec fn trace_timeout(timeout_secs: u64, note: Option<Seq<char>>) -> Seq<char> {
    let words = "trace did not become available within "@ + decimal(timeout_secs as nat) + "s"@;
    match note {
        Some(n) if n.len() > 0 => words + "; last error: "@ + n,
        _ => words,
    }
}

/// Decides what follows a look through the proxy. `past_deadline` says whether
/// the time is up.
pub fn wait_for_trace_via_proxy(seen: TraceObservation, past_deadline: bool, timeout_secs: u64) -> (r:
    TraceNext)
    ensures
        if seen.available {
            r == TraceNext::Done(seen)
        } else if !past_deadline {
            r is Again
        } else {
            &&& r matches TraceNext::Done(t)
            &&& !t.available
            &&& t.ip == seen.ip
            &&& t.note.deep_view() == Some(trace_timeout(timeout_secs, seen.note.deep_view()))
        },
{
    if seen.available {
        return TraceNext::Done(seen);
    }
    if !past_deadline {
        return TraceNext::Again;
    }
    let words: String = cat3(
        "trace did not become available within ",
        number(timeout_secs).as_str(),
        "s",
    );
    let note: String = match &seen.note {
        Some(n) => {
            if n.as_str().is_empty() {
                words
            } else {
                cat3(words.as_str(), "; last error: ", n.as_str())
            }
        },
        None => words,
    };
    TraceNext::Done(TraceObservation { available: seen.available, ip: seen.ip, note: Some(note) })
}

/// The deployment that is live, as it is recorded.
#[derive(Debug, PartialEq, Eq)]
pub struct DeploymentSummary {
    pub live_state_present: bool,
    pub source_state_path: Option<String>,
    pub deployment_label: Option<String>,
    pub instance_id: Option<String>,
    pub server_ip: Option<String>,
    pub tunnel_domain: Option<String>,
}

/// What is known of the runtime on the host.
#[derive(Debug, PartialEq, Eq)]
pub struct RuntimeObservation {
    pub edge_agent_reachable: bool,
    pub docker_reachable: bool,
    pub compose_file_present: bool,
    pub missing_containers: Vec<String>,
    pub warnings: Vec<String>,
}

/// The way from the Ubuntu side through the proxy.
#[derive(Debug, PartialEq, Eq)]
pub struct UbuntuProxy {
    pub available: bool,
    pub url: Option<String>,
}

/// The whole, as far as the checks look at it.
#[derive(Debug, PartialEq, Eq)]
pub struct ControllerStatus {
    pub deployment: Option<DeploymentSummary>,
    pub runtime: Option<RuntimeObservation>,
    pub local_singbox: Option<LocalSingboxState>,
    pub selector: Option<SelectorState>,
    pub ubuntu_selector: Option<SelectorState>,
    pub ubuntu_proxy: Option<UbuntuProxy>,
}

/// Which further checks are asked for.
#[derive(Debug, Clone, Copy, PartialEq, Eq)]
pub struct DoctorRequest {
    pub require_server_ready: bool,
    pub require_local_runtime: bool,
    pub require_egress_traces: bool,
}

/// One check.
#[derive(Debug, PartialEq, Eq)]
pub struct DoctorCheck {
    pub name: String,
    pub ok: bool,
    pub detail: String,
}

/// What a check says.
pub struct CheckText {
    pub name: Seq<char>,
    pub ok: bool,
    pub detail: Seq<char>,
}

/// What checks say.
pub open spec fn check_texts(checks: Seq<DoctorCheck>) -> Seq<CheckText> {
    checks.map_values(|c: DoctorCheck| CheckText { name: c.name@, ok: c.ok, detail: c.detail@ })
}

/// A text that says something, or another.
pub open spec fn or_else(text: Option<Seq<char>>, other: Seq<char>) -> Seq<char> {
    match text {
        Some(t) => t,
        None => other,
    }
}

/// The warnings in one line, if there are any words in them.
pub open spec fn warning_line(warnings: Seq<String>) -> Option<Seq<char>> {
    let line = joined(texts(warnings), "; "@);
    if line.len() > 0 {
        Some(line)
    } else {
        None
    }
}

/// What the check of a group's route says.
pub open spec fn route_check(
    name: Seq<char>,
    selector: Option<SelectorState>,
    missing: Seq<char>,
) -> CheckText {
    CheckText {
        name,
        ok: group_converged(selector),
        detail: match selector {
            Some(s) => "desired="@ + quoted_option(s.desired_main_route.deep_view())
                + ", observed="@ + quoted_option(s.observed_main_route.deep_view()),
            None => missing,
        },
    }
}

/// What the check of a look through the proxy says.
pub open spec fn trace_check(
    name: Seq<char>,
    trace: Option<TraceObservation>,
    missing: Seq<char>,
) -> CheckText {
    CheckText {
        name,
        ok: trace matches Some(t) && t.available,
        detail: match trace {
            Some(t) => match (t.ip, t.note) {
                (Some(ip), _) => ip@,
                (None, Some(note)) => note@,
                (None, None) => missing,
            },
            None => missing,
        },
    }
}

/// Whether a route is wanted of a group.
pub open spec fn wants_route(selector: Option<SelectorState>) -> bool {
    selector matches Some(s) && s.desired_main_route is Some
}

/// What the checks that are always made say.
pub open spec fn basic_checks(
    status: ControllerStatus,
    artifact_present: bool,
    artifact_path: Seq<char>,
) -> Seq<CheckText> {
    seq![
        CheckText {
            name: "state.active_deployment_present"@,
            ok: status.deployment matches Some(d) && d.live_state_present,
            detail: match status.deployment {
                Some(d) => or_else(d.deployment_label.deep_view(), "no active deployment"@),
                None => "no active deployment"@,
            },
        },
        CheckText {
            name: "state.selector_intents_present"@,
            ok: wants_route(status.selector) && wants_route(status.ubuntu_selector),
            detail: "desktop and ubuntu desired routes must be persisted"@,
        },
        CheckText {
            name: "state.live_state_artifact_present"@,
            ok: artifact_present,
            detail: artifact_path,
        },
        CheckText {
            name: "server.edge_agent_reachable"@,
            ok: status.runtime matches Some(x) && x.edge_agent_reachable,
            detail: match status.runtime {
                Some(x) => or_else(warning_line(x.warnings@), "edge-agent status unavailable"@),
                None => "edge-agent status unavailable"@,
            },
        },
        CheckText {
            name: "local.singbox_running"@,
            ok: status.local_singbox matches Some(x) && x.process_running,
            detail: match status.local_singbox {
                Some(x) => or_else(warning_line(x.warnings@), "local sing-box runtime inspected"@),
                None => "local sing-box runtime inspected"@,
            },
        },
        route_check(
            "selector.desktop_converged"@,
            status.selector,
            "desktop selector state unavailable"@,
        ),
        route_check(
            "selector.ubuntu_converged"@,
            status.ubuntu_selector,
            "ubuntu selector state unavailable"@,
        ),
        CheckText {
            name: "ubuntu.proxy_available"@,
            ok: status.ubuntu_proxy matches Some(p) && p.available,
            detail: match status.ubuntu_proxy {
                Some(p) => or_else(p.url.deep_view(), "ubuntu proxy URL unavailable"@),
                None => "ubuntu proxy URL unavailable"@,
            },
        },
    ]
}

/// Whether everything runs on the host.
pub open spec fn server_ready(runtime: Option<RuntimeObservation>) -> bool {
    &&& runtime matches Some(x)
    &&& x.edge_agent_reachable
    &&& x.docker_reachable
    &&& x.compose_file_present
    &&& x.missing_containers@.len() == 0
}

/// What the check of the host says.
pub open spec fn server_check(runtime: Option<RuntimeObservation>) -> CheckText {
    CheckText {
        name: "server.runtime_ready"@,
        ok: server_ready(runtime),
        detail: match runtime {
            Some(x) => "docker="@ + bool_word(x.docker_reachable) + ", compose="@ + bool_word(
                x.compose_file_present,
            ) + ", missing="@ + joined(texts(x.missing_containers@), ", "@),
            None => "server runtime unavailable"@,
        },
    }
}

/// What the check of the proxy's configuration says.
pub open spec fn local_check(local: Option<LocalSingboxState>) -> CheckText {
    CheckText {
        name: "local.managed_config_active"@,
        ok: local matches Some(x) && x.managed_config,
        detail: match local {
            Some(x) => or_else(
                x.active_config_path.deep_view(),
                "active local config unavailable"@,
            ),
            None => "active local config unavailable"@,
        },
    }
}

/// What all checks say that were asked for.
pub open spec fn all_checks(
    status: ControllerStatus,
    artifact_present: bool,
    artifact_path: Seq<char>,
    desktop_trace: Option<TraceObservation>,
    ubuntu_trace: Option<TraceObservation>,
    request: DoctorRequest,
) -> Seq<CheckText> {
    let basic = basic_checks(status, artifact_present, artifact_path);
    let server = if request.require_server_ready {
        seq![server_check(status.runtime)]
    } else {
        Seq::empty()
    };
    let local = if request.require_local_runtime {
        seq![local_check(status.local_singbox)]
    } else {
        Seq::empty()
    };
    let traces = if request.require_egress_traces {
        seq![
            trace_check(
                "egress.desktop_trace_available"@,
                desktop_trace,
                "desktop trace unavailable"@,
            ),
            trace_check(
                "egress.ubuntu_trace_available"@,
                ubuntu_trace,
                "ubuntu trace unavailable"@,
            ),
        ]
    } else {
        Seq::empty()
    };
    basic + server + local + traces
}

fn push_check(checks: &mut Vec<DoctorCheck>, name: &str, ok: bool, detail: String)
    ensures
        check_texts(final(checks)@) == check_texts(old(checks)@).push(
            CheckText { name: name@, ok, detail: detail@ },
        ),
{
    let ghost before = checks@;
    let ghost text = CheckText { name: name@, ok, detail: detail@ };
    checks.push(DoctorCheck { name: name.to_owned(), ok, detail });
    assert(check_texts(checks@) =~= check_texts(before).push(text));
}

fn text_or(text: &Option<String>, other: &str) -> (r: String)
    ensures
        r@ == or_else(text.deep_view(), other@),
{
    match text {
        Some(t) => t.clone(),
        None => other.to_owned(),
    }
}

fn warnings_or(warnings: &Vec<String>, other: &str) -> (r: String)
    ensures
        r@ == or_else(warning_line(warnings@), other@),
{
    let line: String = join(warnings, "; ");
    if line.as_str().is_empty() {
        other.to_owned()
    } else {
        line
    }
}

fn route_detail(selector: &Option<SelectorState>, missing: &str) -> (r: String)
    ensures
        r@ == route_check(missing@, *selector, missing@).detail,
{
    match selector {
        Some(s) => cat4(
            "desired=",
            quote_option(&s.desired_main_route).as_str(),
            ", observed=",
            quote_option(&s.observed_main_route).as_str(),
        ),
        None => missing.to_owned(),
    }
}

fn trace_detail(trace: &Option<TraceObservation>, missing: &str) -> (r: (bool, String))
    ensures
        r.0 == trace_check(missing@, *trace, missing@).ok,
        r.1@ == trace_check(missing@, *trace, missing@).detail,
{
    match trace {
        Some(t) => {
            let detail: String = match (&t.ip, &t.note) {
                (Some(ip), _) => ip.clone(),
                (None, Some(note)) => note.clone(),
                (None, None) => missing.to_owned(),
            };
            (t.available, detail)
        },
        None => (false, missing.to_owned()),
    }
}

fn has_route(selector: &Option<SelectorState>) -> (r: bool)
    ensures
        r == wants_route(*selector),
{
    match selector {
        Some(s) => s.desired_main_route.is_some(),
        None => false,
    }
}

fn push_basic_checks(
    checks: &mut Vec<DoctorCheck>,
    status: &ControllerStatus,
    artifact_present: bool,
    artifact_path: &str,
)
    requires
        old(checks)@.len() == 0,
    ensures
        check_texts(final(checks)@) == basic_checks(*status, artifact_present, artifact_path@),
{
    let (deployed, label): (bool, String) = match &status.deployment {
        Some(d) => (d.live_state_present, text_or(&d.deployment_label, "no active deployment")),
        None => (false, "no active deployment".to_owned()),
    };
    push_check(checks, "state.active_deployment_present", deployed, label);
    push_check(
        checks,
        "state.selector_intents_present",
        has_route(&status.selector) && has_route(&status.ubuntu_selector),
        "desktop and ubuntu desired routes must be persisted".to_owned(),
    );
    push_check(
        checks,
        "state.live_state_artifact_present",
        artifact_present,
        artifact_path.to_owned(),
    );
    let (reachable, agent): (bool, String) = match &status.runtime {
        Some(x) => (
            x.edge_agent_reachable,
            warnings_or(&x.warnings, "edge-agent status unavailable"),
        ),
        None => (false, "edge-agent status unavailable".to_owned()),
    };
    push_check(checks, "server.edge_agent_reachable", reachable, agent);
    let (running, local): (bool, String) = match &status.local_singbox {
        Some(x) => (x.process_running, warnings_or(&x.warnings, "local sing-box runtime inspected")),
        None => (false, "local sing-box runtime inspected".to_owned()),
    };
    push_check(checks, "local.singbox_running", running, local);
    push_check(
        checks,
        "selector.desktop_converged",
        is_group_converged(&status.selector),
        route_detail(&status.selector, "desktop selector state unavailable"),
    );
    push_check(
        checks,
        "selector.ubuntu_converged",
        is_group_converged(&status.ubuntu_selector),
        route_detail(&status.ubuntu_selector, "ubuntu selector state unavailable"),
    );
    let (available, url): (bool, String) = match &status.ubuntu_proxy {
        Some(p) => (p.available, text_or(&p.url, "ubuntu proxy URL unavailable")),
        None => (false, "ubuntu proxy URL unavailable".to_owned()),
    };
    push_check(checks, "ubuntu.proxy_available", available, url);
    assert(check_texts(checks@) =~= basic_checks(*status, artifact_present, artifact_path@));
}

/// Makes the checks on the whole: those that are always made, and those asked
/// for. `artifact_present` says whether the state of the live deployment is
/// there, at `artifact_path`.
pub fn build_doctor_checks(
    status: &ControllerStatus,
    artifact_present: bool,
    artifact_path: &str,
    desktop_trace: &Option<TraceObservation>,
    ubuntu_trace: &Option<TraceObservation>,
    request: DoctorRequest,
) -> (r: Vec<DoctorCheck>)
    ensures
        check_texts(r@) == all_checks(
            *status,
            artifact_present,
            artifact_path@,
            *desktop_trace,
            *ubuntu_trace,
            request,
        ),
{
    let mut checks: Vec<DoctorCheck> = Vec::new();
    push_basic_checks(&mut checks, status, artifact_present, artifact_path);
    if request.require_server_ready {
        let (ready, detail): (bool, String) = match &status.runtime {
            Some(x) => (
                x.edge_agent_reachable && x.docker_reachable && x.compose_file_present
                    && x.missing_containers.len() == 0,
                cat6(
                    "docker=",
                    word_of_bool(x.docker_reachable),
                    ", compose=",
                    word_of_bool(x.compose_file_present),
                    ", missing=",
                    join(&x.missing_containers, ", ").as_str(),
                ),
            ),
            None => (false, "server runtime unavailable".to_owned()),
        };
        push_check(&mut checks, "server.runtime_ready", ready, detail);
    }
    if request.require_local_runtime {
        let (managed, detail): (bool, String) = match &status.local_singbox {
            Some(x) => (
                x.managed_config,
                text_or(&x.active_config_path, "active local config unavailable"),
            ),
            None => (false, "active local config unavailable".to_owned()),
        };
        push_check(&mut checks, "local.managed_config_active", managed, detail);
    }
    if request.require_egress_traces {
        let (seen, detail): (bool, String) = trace_detail(
            desktop_trace,
            "desktop trace unavailable",
        );
        push_check(&mut checks, "egress.desktop_trace_available", seen, detail);
        let (seen, detail): (bool, String) = trace_detail(ubuntu_trace, "ubuntu trace unavailable");
        push_check(&mut checks, "egress.ubuntu_trace_available", seen, detail);
    }
    assert(check_texts(checks@) =~= all_checks(
        *status,
        artifact_present,
        artifact_path@,
        *desktop_trace,
        *ubuntu_trace,
        request,
    ));
    checks
}

/// Whether all checks passed.
pub open spec fn all_passed(checks: Seq<DoctorCheck>) -> bool {
    forall|i: int| 0 <= i < checks.len() ==> (#[trigger] checks[i]).ok
}

/// The verdict on the checks, and what the journal is told.
pub fn conclude_checks(checks: &Vec<DoctorCheck>) -> (r: (bool, &'static str))
    ensures
        r.0 == all_passed(checks@),
        r.1@ == if r.0 {
            "doctor completed: all checks passed"@
        } else {
            "doctor completed: one or more checks failed"@
        },
{
    let mut i: usize = 0;
    while i < checks.len()
        invariant
            i <= checks@.len(),
            forall|k: int| 0 <= k < i ==> (#[trigger] checks@[k]).ok,
        decreases checks@.len() - i,
    {
        if !checks[i].ok {
            assert(!checks@[i as int].ok);
            return (false, "doctor completed: one or more checks failed");
        }
        i = i + 1;
    }
    (true, "doctor completed: all checks passed")
}

/// Asking for further checks takes none away: the checks that are always made
/// come first, whatever is asked for.
pub proof fn law_basic_checks_are_always_made(
    status: ControllerStatus,
    artifact_present: bool,
    artifact_path: Seq<char>,
    desktop_trace: Option<TraceObservation>,
    ubuntu_trace: Option<TraceObservation>,
    request: DoctorRequest,
)
    ensures
        basic_checks(status, artifact_present, artifact_path).is_prefix_of(
            all_checks(
                status,
                artifact_present,
                artifact_path,
                desktop_trace,
                ubuntu_trace,
                request,
            ),
        ),
{
    let all = all_checks(
        status,
        artifact_present,
        artifact_path,
        desktop_trace,
        ubuntu_trace,
        request,
    );
    let basic = basic_checks(status, artifact_present, artifact_path);
    assert(all.subrange(0, basic.len() as int) =~= basic);
}

/// The doctor finds nothing wrong exactly if everything that it has to look at
/// is in order: the deployment, its state, the agent, the proxy, both routes
/// and the proxy for Ubuntu; and, where it is asked for, that the agent and
/// docker are reachable, the compose file is there and no container is missing,
/// that the proxy runs on the controller's own settings, and that both ways
/// through the proxy are open.
pub proof fn law_the_doctor_passes_only_what_is_whole(
    status: ControllerStatus,
    artifact_present: bool,
    artifact_path: &str,
    desktop_trace: Option<TraceObservation>,
    ubuntu_trace: Option<TraceObservation>,
    request: DoctorRequest,
    checks: Vec<DoctorCheck>,
    r: (bool, &'static str),
)
    requires
        call_ensures(
            build_doctor_checks,
            (
                &status,
                artifact_present,
                artifact_path,
                &desktop_trace,
                &ubuntu_trace,
                request,
            ),
            checks,
        ),
        call_ensures(conclude_checks, (&checks,), r),
    ensures
        r.0 <==> {
            &&& status.deployment matches Some(d) && d.live_state_present
            &&& artifact_present
            &&& status.runtime matches Some(x) && x.edge_agent_reachable
            &&& status.local_singbox matches Some(x) && x.process_running
            &&& status.selector matches Some(s) && s.desired_main_route is Some
                && s.observed_main_route is Some && s.desired_main_route->Some_0@
                == s.observed_main_route->Some_0@ && !s.degraded
            &&& status.ubuntu_selector matches Some(s) && s.desired_main_route is Some
                && s.observed_main_route is Some && s.desired_main_route->Some_0@
                == s.observed_main_route->Some_0@ && !s.degraded
            &&& status.ubuntu_proxy matches Some(p) && p.available
            &&& request.require_server_ready ==> (status.runtime matches Some(x)
                && x.docker_reachable && x.compose_file_present && x.missing_containers@.len() == 0)
            &&& request.require_local_runtime ==> (status.local_singbox matches Some(x)
                && x.managed_config)
            &&& request.require_egress_traces ==> (desktop_trace matches Some(t) && t.available) && (
            ubuntu_trace matches Some(t) && t.available)
        },
        r.1@ == if r.0 {
            "doctor completed: all checks passed"@
        } else {
            "doctor completed: one or more checks failed"@
        },
{
    let all = check_texts(checks@);
    assert(all.len() == checks@.len());
    let a: int = if request.require_server_ready {
        1
    } else {
        0
    };
    let b: int = if request.require_local_runtime {
        1
    } else {
        0
    };
    let c: int = if request.require_egress_traces {
        2
    } else {
        0
    };
    assert(all.len() == 8 + a + b + c);
    assert forall|i: int| 0 <= i < all.len() implies all[i].ok == (#[trigger] checks@[i]).ok by {}
    assert(r.0 <==> forall|i: int| 0 <= i < all.len() ==> (#[trigger] all[i]).ok) by {
        if r.0 {
            assert forall|i: int| 0 <= i < all.len() implies (#[trigger] all[i]).ok by {
                assert(checks@[i].ok);
            }
        }
        if forall|i: int| 0 <= i < all.len() ==> (#[trigger] all[i]).ok {
            assert forall|i: int| 0 <= i < checks@.len() implies (#[trigger] checks@[i]).ok by {
                assert(all[i].ok);
            }
        }
    }
    let basic = basic_checks(status, artifact_present, artifact_path@);
    assert(forall|i: int| 0 <= i < 8 ==> all[i] == #[trigger] basic[i]);
    assert(all[0] == basic[0] && all[1] == basic[1] && all[2] == basic[2] && all[3] == basic[3]);
    assert(all[4] == basic[4] && all[5] == basic[5] && all[6] == basic[6] && all[7] == basic[7]);
    if request.require_server_ready {
        assert(all[8] == server_check(status.runtime));
    }
    if request.require_local_runtime {
        assert(all[8 + a] == local_check(status.local_singbox));
    }
    if request.require_egress_traces {
        assert(all[8 + a + b].ok == (desktop_trace matches Some(t) && t.available));
        assert(all[9 + a + b].ok == (ubuntu_trace matches Some(t) && t.available));
    }
}

/// Each check stands for one thing, under its own name, and the checks that
/// have to be asked for are there exactly where they are.
pub proof fn law_each_check_looks_at_its_own_part(
    status: ControllerStatus,
    artifact_present: bool,
    artifact_path: &str,
    desktop_trace: Option<TraceObservation>,
    ubuntu_trace: Option<TraceObservation>,
    request: DoctorRequest,
    checks: Vec<DoctorCheck>,
    i: int,
)
    requires
        call_ensures(
            build_doctor_checks,
            (
                &status,
                artifact_present,
                artifact_path,
                &desktop_trace,
                &ubuntu_trace,
                request,
            ),
            checks,
        ),
        0 <= i < checks@.len(),
    ensures
        checks@[i].name@ == "server.runtime_ready"@ ==> request.require_server_ready && (
        checks@[i].ok <==> (status.runtime matches Some(x) && x.edge_agent_reachable
            && x.docker_reachable && x.compose_file_present && x.missing_containers@.len() == 0)),
        checks@[i].name@ == "local.managed_config_active"@ ==> request.require_local_runtime && (
        checks@[i].ok <==> (status.local_singbox matches Some(x) && x.managed_config)),
        checks@[i].name@ == "egress.desktop_trace_available"@ ==> request.require_egress_traces && (
        checks@[i].ok <==> (desktop_trace matches Some(t) && t.available)),
        checks@[i].name@ == "egress.ubuntu_trace_available"@ ==> request.require_egress_traces && (
        checks@[i].ok <==> (ubuntu_trace matches Some(t) && t.available)),
        checks@[i].name@ == "state.active_deployment_present"@ ==> (checks@[i].ok <==> (
        status.deployment matches Some(d) && d.live_state_present)),
        checks@[i].name@ == "state.live_state_artifact_present"@ ==> checks@[i].ok
            == artifact_present,
        checks@[i].name@ == "state.selector_intents_present"@ ==> (checks@[i].ok <==> (
        status.selector matches Some(s) && s.desired_main_route is Some) && (
        status.ubuntu_selector matches Some(s) && s.desired_main_route is Some)),
        checks@[i].name@ == "server.edge_agent_reachable"@ ==> (checks@[i].ok <==> (
        status.runtime matches Some(x) && x.edge_agent_reachable)),
        checks@[i].name@ == "local.singbox_running"@ ==> (checks@[i].ok <==> (
        status.local_singbox matches Some(x) && x.process_running)),
        checks@[i].name@ == "ubuntu.proxy_available"@ ==> (checks@[i].ok <==> (
        status.ubuntu_proxy matches Some(p) && p.available)),
        checks@[i].name@ == "selector.desktop_converged"@ ==> (checks@[i].ok <==> (
        status.selector matches Some(s) && converged(s))),
        checks@[i].name@ == "selector.ubuntu_converged"@ ==> (checks@[i].ok <==> (
        status.ubuntu_selector matches Some(s) && converged(s))),
        checks@.len() == 8 + (if request.require_server_ready {
            1int
        } else {
            0
        }) + (if request.require_local_runtime {
            1int
        } else {
            0
        }) + (if request.require_egress_traces {
            2int
        } else {
            0
        }),
{
    let all = check_texts(checks@);
    assert(all.len() == checks@.len());
    assert(all[i].name == checks@[i].name@ && all[i].ok == checks@[i].ok);
    reveal_strlit("server.runtime_ready");
    reveal_strlit("local.managed_config_active");
    reveal_strlit("egress.desktop_trace_available");
    reveal_strlit("egress.ubuntu_trace_available");
    reveal_strlit("state.active_deployment_present");
    reveal_strlit("state.live_state_artifact_present");
    reveal_strlit("state.selector_intents_present");
    reveal_strlit("server.edge_agent_reachable");
    reveal_strlit("local.singbox_running");
    reveal_strlit("ubuntu.proxy_available");
    reveal_strlit("selector.desktop_converged");
    reveal_strlit("selector.ubuntu_converged");
    assert("server.edge_agent_reachable"@[0] == 's');
    assert("local.managed_config_active"@[0] == 'l');
    assert("state.selector_intents_present"@[0] == 's');
    assert("egress.desktop_trace_available"@[0] == 'e');
    let basic = basic_checks(status, artifact_present, artifact_path@);
    if i < 8 {
        assert(all[i] == basic[i]);
    } else {
        let a: int = if request.require_server_ready {
            1
        } else {
            0
        };
        let b: int = if request.require_local_runtime {
            1
        } else {
            0
        };
        if i == 8 && request.require_server_ready {
            assert(all[i] == server_check(status.runtime));
        } else if i == 8 + a && request.require_local_runtime {
            assert(all[i] == local_check(status.local_singbox));
        } else if i == 8 + a + b {
            assert(all[i].name == "egress.desktop_trace_available"@);
        } else {
            assert(all[i].name == "egress.ubuntu_trace_available"@);
        }
    }
}

/// What an agent says of itself now comes before what its runtime said of it,
/// and an agent that does not answer is neither healthy nor ready.
pub proof fn law_the_latest_word_of_an_agent_counts(
    answers: AgentAnswers,
    r: (AgentState, Option<String>),
)
    requires
        call_ensures(observe_agent, (answers,), r),
    ensures
        r.1 is None <==> answers is Answered,
        !(answers is Answered) ==> !r.0.healthy && !r.0.ready && !r.0.docker_reachable
            && !r.0.compose_file_present && r.0.running_containers@.len() == 0
            && r.0.degraded_reasons@.len() == 1 && r.0.degraded_reasons@[0]@ == r.1->Some_0@,
        answers matches AgentAnswers::Answered { state, healthy, ready, version } ==> {
            &&& healthy is Some ==> Some(r.0.healthy) == healthy
            &&& healthy is None ==> r.0.healthy == state.healthy
            &&& ready is Some ==> Some(r.0.ready) == ready
            &&& ready is None ==> r.0.ready == state.ready
            &&& version is None ==> r.0.topology_version@ == state.topology_version@
            &&& r.0.missing_containers == state.missing_containers
            &&& r.0.running_containers == state.running_containers
            &&& r.0.degraded_reasons == state.degraded_reasons
            &&& r.0.docker_reachable == state.docker_reachable
            &&& r.0.compose_file_present == state.compose_file_present
            &&& r.0.active_bundle_id == state.active_bundle_id
        },
{
    if !(answers is Answered) {
        let reasons = texts(r.0.degraded_reasons@);
        assert(reasons.len() == r.0.degraded_reasons@.len());
        assert(reasons[0] == r.0.degraded_reasons@[0]@);
    }
}

/// Something is added to the notes exactly where something is amiss, and no
/// note is lost.
pub proof fn law_what_is_amiss_is_noted(
    notes: Vec<String>,
    agent_ready: bool,
    agent_reachable: bool,
    recorded: bool,
    artifact_present: bool,
    reconcile_failure: Option<String>,
    r: Vec<String>,
)
    requires
        call_ensures(
            note_status,
            (
                notes,
                agent_ready,
                agent_reachable,
                recorded,
                artifact_present,
                &reconcile_failure,
            ),
            r,
        ),
    ensures
        forall|i: int| 0 <= i < notes@.len() ==> (#[trigger] texts(r@)[i]) == notes@[i]@,
        r@.len() == notes@.len() + (if !agent_ready && !recorded {
            1int
        } else {
            0
        }) + (if !agent_reachable {
            1int
        } else {
            0
        }) + (if recorded && !artifact_present {
            1int
        } else {
            0
        }) + (if reconcile_failure is Some {
            1int
        } else {
            0
        }),
        reconcile_failure matches Some(e) ==> texts(r@).last()
            == "authoritative provider reconciliation unavailable: "@ + e@,
{
    assert(texts(r@).len() == r@.len());
    assert(texts(notes@).len() == notes@.len());
}

/// How ready the whole is told to be, by what is in place.
pub proof fn law_readiness_is_told_by_what_is_in_place(
    deployed: bool,
    local_running: bool,
    desktop: Option<SelectorState>,
    ubuntu: Option<SelectorState>,
    r: AppReadinessPhase,
)
    requires
        call_ensures(
            refresh_app_readiness_from_observed_status,
            (deployed, local_running, &desktop, &ubuntu),
            r,
        ),
    ensures
        r is DeploymentAbsent <==> !deployed,
        r is AppReadinessFailed <==> deployed && !local_running,
        r is AppReady || r is LocalRuntimeReady <==> deployed && local_running,
        deployed && local_running ==> (r is AppReady <==> {
            &&& desktop matches Some(s) && s.desired_main_route is Some && s.observed_main_route is Some
                && s.desired_main_route->Some_0@ == s.observed_main_route->Some_0@ && !s.degraded
            &&& ubuntu matches Some(s) && s.desired_main_route is Some && s.observed_main_route is Some
                && s.desired_main_route->Some_0@ == s.observed_main_route->Some_0@ && !s.degraded
        }),
{
}

/// The readiness that is recorded for a proxy that does not run is a failure,
/// that of routes that are not as wanted is none, and the ways through the
/// proxy are looked at only where everything before them is in place.
pub proof fn law_readiness_is_recorded_step_by_step(
    local_running: bool,
    desktop: SelectorState,
    ubuntu: SelectorState,
    next: ReadinessNext,
    desktop_available: bool,
    ubuntu_available: bool,
    phase: AppReadinessPhase,
)
    requires
        call_ensures(refresh_app_readiness_phase, (local_running, &desktop, &ubuntu), next),
        call_ensures(readiness_after_traces, (desktop_available, ubuntu_available), phase),
    ensures
        next is Trace ==> local_running && !desktop.degraded && !ubuntu.degraded
            && desktop.desired_main_route is Some && ubuntu.desired_main_route is Some
            && desktop.desired_main_route.deep_view() == desktop.observed_main_route.deep_view()
            && ubuntu.desired_main_route.deep_view() == ubuntu.observed_main_route.deep_view(),
        !local_running ==> (next matches ReadinessNext::Record { phase, error_code, .. }
            && phase is AppReadinessFailed && error_code is Some),
        local_running && next is Record ==> (next matches ReadinessNext::Record {
            phase,
            error_code,
            error_message,
        } && phase is LocalRuntimeReady && error_code is None && error_message is None),
        phase is AppReady <==> desktop_available && ubuntu_available,
        phase is AppReady || phase is SelectorsReady,
{
}

/// The wait for a way through the proxy ends at once where it is open, and
/// otherwise only when the time is up, and then with the way not open.
pub proof fn law_ways_are_waited_for_until_the_time_is_up(
    seen: TraceObservation,
    past_deadline: bool,
    timeout_secs: u64,
    r: TraceNext,
)
    requires
        call_ensures(wait_for_trace_via_proxy, (seen, past_deadline, timeout_secs), r),
    ensures
        r is Again <==> !seen.available && !past_deadline,
        r matches TraceNext::Done(t) ==> t.available == seen.available && t.ip == seen.ip,
        seen.available ==> r == TraceNext::Done(seen),
        r matches TraceNext::Done(t) ==> (t.available || t.note is Some),
{
}

/// What an agent says of its runtime is passed on as it was said, but for its
/// health and its readiness, of which the later word counts.
pub proof fn law_an_agents_word_is_passed_on(
    state: AgentState,
    healthy: Option<bool>,
    ready: Option<bool>,
    version: Option<String>,
    r: (AgentState, Option<String>),
)
    requires
        call_ensures(
            observe_agent,
            (AgentAnswers::Answered { state, healthy, ready, version },),
            r,
        ),
    ensures
        healthy is None ==> r.0.healthy == state.healthy,
        healthy matches Some(h) ==> r.0.healthy == h,
        ready is None ==> r.0.ready == state.ready,
        ready matches Some(h) ==> r.0.ready == h,
        version is None ==> r.0.topology_version@ == state.topology_version@,
        r.0.active_bundle_id == state.active_bundle_id,
        r.0.degraded_reasons == state.degraded_reasons,
        r.0.docker_reachable == state.docker_reachable,
        r.0.compose_file_present == state.compose_file_present,
        r.0.observed_stack_path == state.observed_stack_path,
        r.0.running_containers == state.running_containers,
        r.0.missing_containers == state.missing_containers,
        r.0.listening_tcp_ports == state.listening_tcp_ports,
        r.0.listening_udp_ports == state.listening_udp_ports,
{
}

} // verus!
