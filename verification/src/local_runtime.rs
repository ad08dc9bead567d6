//! The proxy that runs beside the controller: what is seen of it, and what is
//! answered when it is started, stopped or restarted.
use crate::text::{cat2, cat3, copy_texts, decimal, number, same, texts};
use vstd::prelude::*;
use vstd::string::*;

verus! {

/// Where the proxy's configuration is.
pub const DEFAULT_LOCAL_CONFIG_PATH: &'static str = "win/windows/edge-dns-clean-vultr-dual.json";

/// Where the state of the deployment that is live is.
pub const DEFAULT_LIVE_STATE_PATH: &'static str = "win/vultr-waw/current-edge.json";

/// What is seen of the proxy.
#[derive(Debug, PartialEq, Eq)]
pub struct LocalSingboxState {
    pub process_running: bool,
    pub managed_config: bool,
    pub expected_config_path: String,
    pub active_config_path: Option<String>,
    pub clash_api_port: Option<u32>,
    pub warnings: Vec<String>,
}

/// What is known of the proxy from its configuration and from its process
/// together. The configuration decides on the paths and the port, the process
/// on whether it runs; the warnings of the process come first.
pub fn merge_local_runtime(base: Option<LocalSingboxState>, observed: LocalSingboxState) -> (r:
    LocalSingboxState)
    ensures
        match base {
            None => r == observed,
            Some(b) => {
                &&& r.process_running == observed.process_running
                &&& r.managed_config == (observed.managed_config || b.managed_config)
                &&& r.expected_config_path == b.expected_config_path
                &&& r.active_config_path == match observed.active_config_path {
                    Some(path) => Some(path),
                    None => b.active_config_path,
                }
                &&& r.clash_api_port == match b.clash_api_port {
                    Some(port) => Some(port),
                    None => observed.clash_api_port,
                }
                &&& r.warnings@ == observed.warnings@ + b.warnings@
            },
        },
{
    let base: LocalSingboxState = match base {
        None => {
            return observed;
        },
        Some(base) => base,
    };
    let mut warnings: Vec<String> = observed.warnings;
    let mut more: Vec<String> = base.warnings;
    warnings.append(&mut more);
    LocalSingboxState {
        process_running: observed.process_running,
        managed_config: observed.managed_config || base.managed_config,
        expected_config_path: base.expected_config_path,
        active_config_path: match observed.active_config_path {
            Some(path) => Some(path),
            None => base.active_config_path,
        },
        clash_api_port: match base.clash_api_port {
            Some(port) => Some(port),
            None => observed.clash_api_port,
        },
        warnings,
    }
}

/// Where the proxy is controlled, if it can be.
pub open spec fn controller_url(port: Option<u32>) -> Option<Seq<char>> {
    match port {
        Some(p) => Some("http://127.0.0.1:"@ + decimal(p as nat)),
        None => None,
    }
}

/// Where the proxy is controlled, if it can be.
pub fn clash_controller_url(local: &LocalSingboxState) -> (r: Option<String>)
    ensures
        r.deep_view() == controller_url(local.clash_api_port),
{
    match local.clash_api_port {
        Some(port) => Some(cat2("http://127.0.0.1:", number(port as u64).as_str())),
        None => None,
    }
}

/// How far an operation has come.
#[derive(Debug, Clone, Copy, PartialEq, Eq, Structural)]
pub enum OperationLifecycleStatus {
    Requested,
    Running,
    Succeeded,
    Failed,
}

/// How far the word in the journal says that an operation has come.
pub open spec fn status_of_word(value: Seq<char>) -> OperationLifecycleStatus {
    if value == "RUNNING"@ {
        OperationLifecycleStatus::Running
    } else if value == "SUCCEEDED"@ {
        OperationLifecycleStatus::Succeeded
    } else if value == "FAILED"@ {
        OperationLifecycleStatus::Failed
    } else {
        OperationLifecycleStatus::Requested
    }
}

/// How far the word in the journal says that an operation has come.
pub fn lifecycle_status(value: &str) -> (r: OperationLifecycleStatus)
    ensures
        r == status_of_word(value@),
{
    if same(value, "RUNNING") {
        OperationLifecycleStatus::Running
    } else if same(value, "SUCCEEDED") {
        OperationLifecycleStatus::Succeeded
    } else if same(value, "FAILED") {
        OperationLifecycleStatus::Failed
    } else {
        OperationLifecycleStatus::Requested
    }
}

/// The word for the end of an operation.
pub open spec fn end_word(success: bool) -> Seq<char> {
    if success {
        "SUCCEEDED"@
    } else {
        "FAILED"@
    }
}

/// The word for the end of an operation.
pub fn end_status(success: bool) -> (r: &'static str)
    ensures
        r@ == end_word(success),
{
    if success {
        "SUCCEEDED"
    } else {
        "FAILED"
    }
}

/// The word for the end of an operation reads back as it was meant.
pub proof fn law_ends_read_back(success: bool)
    ensures
        status_of_word(end_word(success)) == if success {
            OperationLifecycleStatus::Succeeded
        } else {
            OperationLifecycleStatus::Failed
        },
{
    reveal_strlit("RUNNING");
    reveal_strlit("SUCCEEDED");
    reveal_strlit("FAILED");
    assert("RUNNING"@.len() == 7);
    assert("SUCCEEDED"@.len() == 9);
    assert("FAILED"@.len() == 6);
}

/// A start or a restart of the proxy.
#[derive(Debug, Clone, Copy, PartialEq, Eq, Structural)]
pub enum RuntimeAction {
    Start,
    Restart,
}

/// The word for a start or a restart.
pub open spec fn runtime_word(action: RuntimeAction) -> Seq<char> {
    match action {
        RuntimeAction::Start => "start"@,
        RuntimeAction::Restart => "restart"@,
    }
}

fn runtime_str(action: RuntimeAction) -> (r: &'static str)
    ensures
        r@ == runtime_word(action),
{
    match action {
        RuntimeAction::Start => "start",
        RuntimeAction::Restart => "restart",
    }
}

/// What came of a start, a restart or a stop that worked.
#[derive(Debug, PartialEq, Eq)]
pub struct RuntimeResult {
    pub pid: Option<u32>,
    pub note: String,
    pub warnings: Vec<String>,
    pub local_singbox: LocalSingboxState,
}

/// What is answered, and what the journal is told.
#[derive(Debug, PartialEq, Eq)]
pub struct LocalRuntimeReport {
    pub event: String,
    pub success: bool,
    pub pid: Option<u32>,
    pub note: String,
    pub warnings: Vec<String>,
    pub local_singbox: LocalSingboxState,
}

/// Whether the proxy may run: the host serves, or is known to.
pub fn may_run_local(agent_ready: bool, backend_ready: bool) -> (r: bool)
    ensures
        r == (agent_ready || backend_ready),
{
    agent_ready || backend_ready
}

/// Whether a host is known to serve: the state of the deployment is there, and
/// the record of it names a machine or an address.
pub fn backend_ready_for_local_runtime(
    artifact_present: bool,
    recorded_instance: &Option<String>,
    recorded_ip: &Option<String>,
) -> (r: bool)
    ensures
        r == (artifact_present && (*recorded_instance is Some || *recorded_ip is Some)),
{
    artifact_present && (recorded_instance.is_some() || recorded_ip.is_some())
}

/// The answer where the proxy may not run.
pub fn refuse_local_runtime(action: RuntimeAction, local_singbox: LocalSingboxState) -> (r:
    LocalRuntimeReport)
    ensures
        r.event@ == "backend is not ready; refusing to "@ + runtime_word(action)
            + " local runtime"@,
        !r.success,
        r.pid is None,
        r.note@ == "backend is not ready; local runtime "@ + runtime_word(action) + " refused"@,
        texts(r.warnings@) == seq!["server runtime is not ready"@],
        r.local_singbox == local_singbox,
{
    let mut warnings: Vec<String> = Vec::new();
    warnings.push("server runtime is not ready".to_owned());
    assert(texts(warnings@) =~= seq!["server runtime is not ready"@]);
    LocalRuntimeReport {
        event: cat3("backend is not ready; refusing to ", runtime_str(action), " local runtime"),
        success: false,
        pid: None,
        note: cat3("backend is not ready; local runtime ", runtime_str(action), " refused"),
        warnings,
        local_singbox,
    }
}

/// What is said of a proxy that did not stay up.
pub open spec fn stopped_early(action: RuntimeAction) -> Seq<char> {
    "local sing-box stopped before "@ + runtime_word(action) + " operation completed"@
}

/// The answer to a start or a restart that worked at first. `seen_after` is the
/// proxy as it is seen at the end: where it does not run any more, the
/// operation failed. `intents` are the warnings from choosing its routes, which
/// are left out where that failed, and `dns` those from putting the name
/// service back, which is done where the proxy does not run.
pub fn finish_local_runtime(
    action: RuntimeAction,
    result: RuntimeResult,
    intents: Result<Vec<String>, String>,
    seen_after: LocalSingboxState,
    dns: Vec<String>,
) -> (r: LocalRuntimeReport)
    ensures
        ({
            let so_far = match intents {
                Ok(more) => result.warnings@ + more@,
                Err(_) => result.warnings@,
            };
            &&& r.pid == result.pid
            &&& r.local_singbox == seen_after
            &&& r.success == seen_after.process_running
            &&& if seen_after.process_running {
                &&& r.event@ == result.note@
                &&& r.note == result.note
                &&& r.warnings@ == so_far
            } else {
                &&& r.event@ == stopped_early(action)
                &&& r.note@ == stopped_early(action)
                &&& texts(r.warnings@) == texts(so_far).push(stopped_early(action)) + texts(
                    seen_after.warnings@,
                ) + texts(dns@)
            }
        }),
{
    let ghost shown = seen_after.warnings@;
    let mut warnings: Vec<String> = result.warnings;
    match intents {
        Ok(more) => {
            let mut more: Vec<String> = more;
            warnings.append(&mut more);
        },
        Err(_) => {},
    }
    if seen_after.process_running {
        LocalRuntimeReport {
            event: result.note.clone(),
            success: true,
            pid: result.pid,
            note: result.note,
            warnings,
            local_singbox: seen_after,
        }
    } else {
        let words: String = cat3(
            "local sing-box stopped before ",
            runtime_str(action),
            " operation completed",
        );
        let ghost so_far = warnings@;
        let mut seen: Vec<String> = copy_texts(&seen_after.warnings);
        let mut dns: Vec<String> = dns;
        let ghost last = dns@;
        warnings.push(words.clone());
        warnings.append(&mut seen);
        warnings.append(&mut dns);
        assert(texts(warnings@) =~= texts(so_far).push(stopped_early(action)) + texts(shown)
            + texts(last));
        LocalRuntimeReport {
            event: words.clone(),
            success: false,
            pid: result.pid,
            note: words,
            warnings,
            local_singbox: seen_after,
        }
    }
}

/// The answer to a stop that worked.
pub fn report_stopped(result: RuntimeResult) -> (r: LocalRuntimeReport)
    ensures
        r.event@ == result.note@,
        r.success,
        r.pid == result.pid,
        r.note == result.note,
        r.warnings == result.warnings,
        r.local_singbox == result.local_singbox,
{
    LocalRuntimeReport {
        event: result.note.clone(),
        success: true,
        pid: result.pid,
        note: result.note,
        warnings: result.warnings,
        local_singbox: result.local_singbox,
    }
}

/// The answer to a start, a restart or a stop that did not work.
pub fn report_failed(failure: String, local_singbox: LocalSingboxState) -> (r: LocalRuntimeReport)
    ensures
        r.event@ == failure@,
        !r.success,
        r.pid is None,
        r.note == failure,
        r.warnings@ == local_singbox.warnings@,
        r.local_singbox == local_singbox,
{
    let warnings: Vec<String> = copy_texts(&local_singbox.warnings);
    LocalRuntimeReport {
        event: failure.clone(),
        success: false,
        pid: None,
        note: failure,
        warnings,
        local_singbox,
    }
}

/// Where the proxy's program, configuration and state are.
#[derive(Debug, PartialEq, Eq)]
pub struct LocalRuntimePaths {
    pub singbox_binary_path: String,
    pub config_path: String,
    pub state_path: String,
    pub runtime_root: String,
}

/// The one that was asked for, or the usual one.
pub open spec fn asked_or(asked: Option<String>, usual: String) -> String {
    match asked {
        Some(path) => path,
        None => usual,
    }
}

/// Chooses where the proxy's parts are: as asked for, or the usual places.
pub fn choose_local_runtime_paths(
    binary: Option<String>,
    config: Option<String>,
    state: Option<String>,
    usual: LocalRuntimePaths,
) -> (r: LocalRuntimePaths)
    ensures
        r.singbox_binary_path == asked_or(binary, usual.singbox_binary_path),
        r.config_path == asked_or(config, usual.config_path),
        r.state_path == asked_or(state, usual.state_path),
        r.runtime_root == usual.runtime_root,
{
    LocalRuntimePaths {
        singbox_binary_path: match binary {
            Some(path) => path,
            None => usual.singbox_binary_path,
        },
        config_path: match config {
            Some(path) => path,
            None => usual.config_path,
        },
        state_path: match state {
            Some(path) => path,
            None => usual.state_path,
        },
        runtime_root: usual.runtime_root,
    }
}

/// The proxy may run where the agent or what stands behind it is ready; what
/// stands behind it is ready where its state is there and a machine is recorded.
pub proof fn law_the_proxy_runs_where_something_answers(
    agent_ready: bool,
    artifact: bool,
    instance: Option<String>,
    ip: Option<String>,
    backend: bool,
    r: bool,
)
    requires
        call_ensures(backend_ready_for_local_runtime, (artifact, &instance, &ip), backend),
        call_ensures(may_run_local, (agent_ready, backend), r),
    ensures
        backend <==> artifact && (instance is Some || ip is Some),
        r <==> agent_ready || backend,
{
}

/// The start of a proxy is a success exactly if the proxy runs afterwards; one
/// that was refused or failed never is, and no warning is lost.
pub proof fn law_a_start_is_a_success_where_the_proxy_runs(
    action: RuntimeAction,
    result: RuntimeResult,
    intents: Result<Vec<String>, String>,
    after: LocalSingboxState,
    dns: Vec<String>,
    r: LocalRuntimeReport,
    refused: LocalRuntimeReport,
    failure: String,
    failed: LocalRuntimeReport,
)
    requires
        call_ensures(finish_local_runtime, (action, result, intents, after, dns), r),
        call_ensures(refuse_local_runtime, (action, after), refused),
        call_ensures(report_failed, (failure, after), failed),
    ensures
        r.success <==> after.process_running,
        r.local_singbox == after,
        r.pid == result.pid,
        r.warnings@.len() == result.warnings@.len() + (if intents is Ok {
            intents->Ok_0@.len() as int
        } else {
            0
        }) + (if after.process_running {
            0int
        } else {
            1int + after.warnings@.len() + dns@.len()
        }),
        !refused.success && refused.pid is None && refused.warnings@.len() == 1,
        !failed.success && failed.pid is None && failed.note@ == failure@,
        refused.local_singbox == after && failed.local_singbox == after,
{
    let so_far = match intents {
        Ok(more) => result.warnings@ + more@,
        Err(_) => result.warnings@,
    };
    assert(texts(r.warnings@).len() == r.warnings@.len());
    assert(texts(so_far).len() == so_far.len());
    assert(texts(after.warnings@).len() == after.warnings@.len());
    assert(texts(dns@).len() == dns@.len());
    assert(texts(refused.warnings@).len() == refused.warnings@.len());
}

/// What is seen of the proxy now comes before what was known of it, except for
/// what it is meant to be; no warning is lost.
pub proof fn law_what_is_seen_of_the_proxy_counts(
    base: Option<LocalSingboxState>,
    seen: LocalSingboxState,
    r: LocalSingboxState,
    url: Option<String>,
)
    requires
        call_ensures(merge_local_runtime, (base, seen), r),
        call_ensures(clash_controller_url, (&r,), url),
    ensures
        r.process_running == seen.process_running,
        seen.managed_config ==> r.managed_config,
        seen.active_config_path is Some ==> r.active_config_path == seen.active_config_path,
        base is None ==> r == seen,
        base matches Some(b) ==> {
            &&& r.managed_config <==> seen.managed_config || b.managed_config
            &&& r.expected_config_path == b.expected_config_path
            &&& r.warnings@.len() == seen.warnings@.len() + b.warnings@.len()
            &&& seen.active_config_path is None ==> r.active_config_path == b.active_config_path
            &&& b.clash_api_port is Some ==> r.clash_api_port == b.clash_api_port
            &&& b.clash_api_port is None ==> r.clash_api_port == seen.clash_api_port
        },
        url is Some <==> r.clash_api_port is Some,
        url matches Some(u) ==> u@ == "http://127.0.0.1:"@ + decimal(
            r.clash_api_port->Some_0 as nat,
        ),
{
}

/// The word in the journal says how far an operation has come, and a word that
/// is not known says that it was only asked for.
pub proof fn law_words_in_the_journal(
    value: &str,
    r: OperationLifecycleStatus,
    success: bool,
    word: &'static str,
)
    requires
        call_ensures(lifecycle_status, (value,), r),
        call_ensures(end_status, (success,), word),
    ensures
        r is Succeeded <==> value@ == "SUCCEEDED"@,
        r is Failed <==> value@ == "FAILED"@,
        r is Running <==> value@ == "RUNNING"@,
        word@ == "SUCCEEDED"@ <==> success,
        word@ == "FAILED"@ <==> !success,
{
    reveal_strlit("RUNNING");
    reveal_strlit("SUCCEEDED");
    reveal_strlit("FAILED");
    assert("RUNNING"@.len() == 7 && "SUCCEEDED"@.len() == 9 && "FAILED"@.len() == 6);
}

/// A path that is asked for is used, and the usual one only where none is.
pub proof fn law_paths_asked_for_are_used(
    binary: Option<String>,
    config: Option<String>,
    state: Option<String>,
    usual: LocalRuntimePaths,
    r: LocalRuntimePaths,
)
    requires
        call_ensures(choose_local_runtime_paths, (binary, config, state, usual), r),
    ensures
        binary matches Some(p) ==> r.singbox_binary_path == p,
        config matches Some(p) ==> r.config_path == p,
        state matches Some(p) ==> r.state_path == p,
        binary is None ==> r.singbox_binary_path == usual.singbox_binary_path,
        config is None ==> r.config_path == usual.config_path,
        state is None ==> r.state_path == usual.state_path,
        r.runtime_root == usual.runtime_root,
{
}

/// A stop that worked is told with all its warnings.
pub proof fn law_a_stop_is_told(result: RuntimeResult, r: LocalRuntimeReport)
    requires
        call_ensures(report_stopped, (result,), r),
    ensures
        r.success,
        r.warnings == result.warnings,
        r.note == result.note,
        r.local_singbox == result.local_singbox,
{
}

} // verus!
