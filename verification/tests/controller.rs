use edge_controller::agent::{
    BOOTSTRAP_RPC_ATTEMPTS, BootstrapFault, BootstrapNext, BootstrapRuntimeResponse,
    bootstrap_runtime_with_tls, bootstrap_runtime_with_tls_resilient, check_bootstrap_request,
    format_bootstrap_failure,
};
use edge_controller::application::BootstrapMode;
use edge_controller::cli::{
    AgentBootstrapArgs, BootstrapModeArg, Cli, Command, ControllerEndpointArgs,
    DEFAULT_AGENT_ENDPOINT, DeployArgs, DestroyArgs, Environment, agent_endpoint,
    controller_endpoint, normalized,
};
use edge_controller::controller_command::{
    ControllerCommand, DEPLOY_ENDPOINT_ARG_INDEX, DESTROY_ENDPOINT_ARG_INDEX, RepoRoot,
    agent_endpoint_from_args, bootstrap_mode_from_args, controller_addr_from_args,
    controller_endpoint_from_args, deploy_request_from_args, destroy_request_from_args,
    endpoint_position, read_controller_command, repo_root_from_args, selector_target, unsuccessful,
};
use edge_controller::destroy::blank_option;
use edge_controller::error::ControllerError;
use edge_controller::local_runtime::{
    LocalSingboxState, OperationLifecycleStatus, RuntimeAction, RuntimeResult,
    backend_ready_for_local_runtime, clash_controller_url, finish_local_runtime, lifecycle_status,
    may_run_local, merge_local_runtime, refuse_local_runtime, report_failed, report_stopped,
};
use edge_controller::requests::{DeployRequest, StatusCode, platform_error_to_status};
use edge_controller::secrets::{
    SECRET_CLOUDFLARE_API_TOKEN, SECRET_SSH_PRIVATE_KEY_PATH, SECRET_VULTR_API_KEY,
    get_or_seed_secret_ref, has_configured_secret_ref, known_secret_names, literal_key_path,
    normalize_key_reference, runtime_secret_names, secret_name_to_env, unresolved_secret,
    validate_secret_name,
};

fn words(list: &[&str]) -> Vec<String> {
    list.iter().map(|w| (*w).to_owned()).collect()
}

fn nothing_set() -> Environment {
    Environment {
        controller_endpoint: None,
        agent_endpoint: None,
        mock_provider: None,
        skip_dns: None,
        delete_dns: None,
        delete_instance: None,
        lifecycle_reason: None,
    }
}

fn local(running: bool, warnings: &[&str]) -> LocalSingboxState {
    LocalSingboxState {
        process_running: running,
        managed_config: true,
        expected_config_path: "config.json".to_owned(),
        active_config_path: None,
        clash_api_port: Some(9090),
        warnings: words(warnings),
    }
}

#[test]
fn generated_bootstrap_mode_names_are_stable() {
    assert_eq!(BootstrapMode::BootstrapBase.as_str_name(), "BOOTSTRAP_BASE");
    assert_eq!(
        BootstrapMode::BootstrapTunnel.as_str_name(),
        "BOOTSTRAP_TUNNEL"
    );
    assert_eq!(BootstrapMode::BootstrapFull.as_str_name(), "BOOTSTRAP_FULL");
}

#[test]
fn formats_bootstrap_failure_message() {
    let message = format_bootstrap_failure(&BootstrapRuntimeResponse {
        success: false,
        mode: BootstrapMode::BootstrapTunnel.to_number(),
        exit_code: 12,
        stdout: String::new(),
        stderr: "container missing".to_owned(),
        warnings: vec!["tunnel container was not ready".to_owned()],
    });
    assert!(message.contains("bootstrap-runtime BOOTSTRAP_TUNNEL failed with exit code 12"));
    assert!(message.contains("container missing"));
    assert!(message.contains("tunnel container was not ready"));
    assert_eq!(
        message,
        "bootstrap-runtime BOOTSTRAP_TUNNEL failed with exit code 12: container missing: warnings: tunnel container was not ready"
    );
}

#[test]
fn formats_unknown_bootstrap_failure_message() {
    let message = format_bootstrap_failure(&BootstrapRuntimeResponse {
        success: false,
        mode: 99,
        exit_code: 8,
        stdout: String::new(),
        stderr: String::new(),
        warnings: vec![],
    });
    assert!(message.contains("UNKNOWN(99)"));
}

#[test]
fn blank_option_normalizes_empty_strings() {
    assert_eq!(blank_option(Some("".to_owned())), None);
    assert_eq!(blank_option(Some("   ".to_owned())), None);
    assert_eq!(
        blank_option(Some("  edge.alegria.by  ".to_owned())),
        Some("edge.alegria.by".to_owned())
    );
}

#[test]
fn command_endpoint_indices_match_positional_contracts() {
    assert_eq!(DEPLOY_ENDPOINT_ARG_INDEX, 10);
    assert_eq!(DESTROY_ENDPOINT_ARG_INDEX, 6);
}

#[test]
fn merges_local_runtime_status() {
    let merged = merge_local_runtime(
        Some(LocalSingboxState {
            process_running: false,
            managed_config: true,
            expected_config_path: "config.json".to_owned(),
            active_config_path: None,
            clash_api_port: Some(9090),
            warnings: vec!["from config".to_owned()],
        }),
        LocalSingboxState {
            process_running: true,
            managed_config: false,
            expected_config_path: "other.json".to_owned(),
            active_config_path: Some("config.json".to_owned()),
            clash_api_port: None,
            warnings: vec!["from process".to_owned()],
        },
    );
    assert!(merged.managed_config);
    assert_eq!(merged.expected_config_path, "config.json");
    assert_eq!(merged.clash_api_port, Some(9090));
    assert_eq!(merged.warnings.len(), 2);
    assert!(merged.process_running);
    assert_eq!(merged.warnings, words(&["from process", "from config"]));
}

#[test]
fn merging_without_a_configuration_keeps_what_was_seen() {
    assert_eq!(
        merge_local_runtime(None, local(true, &["w"])),
        local(true, &["w"])
    );
}

#[test]
fn commands_are_read_by_their_words() {
    assert_eq!(
        read_controller_command(&words(&["edge-controller"])),
        Ok(ControllerCommand::Serve)
    );
    for (word, command) in [
        ("serve", ControllerCommand::Serve),
        ("get-status", ControllerCommand::GetStatus),
        (
            "controller-bootstrap-runtime",
            ControllerCommand::ControllerBootstrapRuntime,
        ),
        ("bootstrap-runtime", ControllerCommand::BootstrapRuntime),
        ("start-local", ControllerCommand::StartLocal),
        ("stop-local", ControllerCommand::StopLocal),
        ("restart-local", ControllerCommand::RestartLocal),
        ("get-selector", ControllerCommand::GetSelector),
        ("set-selector", ControllerCommand::SetSelector),
        ("trace", ControllerCommand::Trace),
        ("deploy", ControllerCommand::Deploy),
        ("destroy", ControllerCommand::Destroy),
    ] {
        assert_eq!(
            read_controller_command(&words(&["edge-controller", word])),
            Ok(command)
        );
    }
    assert_eq!(
        read_controller_command(&words(&["edge-controller", "shell"])),
        Err("unsupported command: shell".to_owned())
    );
}

#[test]
fn endpoints_stand_behind_the_arguments() {
    assert_eq!(endpoint_position(ControllerCommand::GetStatus), 2);
    assert_eq!(endpoint_position(ControllerCommand::SetSelector), 3);
    assert_eq!(endpoint_position(ControllerCommand::Deploy), 10);
    assert_eq!(endpoint_position(ControllerCommand::Destroy), 6);
    assert_eq!(
        unsuccessful(ControllerCommand::Deploy, "note".to_owned()),
        "deploy failed"
    );
    assert_eq!(
        unsuccessful(ControllerCommand::Destroy, "note".to_owned()),
        "destroy failed"
    );
    assert_eq!(
        unsuccessful(ControllerCommand::SetSelector, "note".to_owned()),
        "selector update failed"
    );
    assert_eq!(
        unsuccessful(ControllerCommand::StartLocal, "note".to_owned()),
        "note"
    );
}

#[test]
fn positional_endpoints_fall_back_to_the_environment() {
    let args = words(&["edge-controller", "get-status", "http://given"]);
    let mut env = nothing_set();
    assert_eq!(
        controller_endpoint_from_args(&args, 2, &env),
        "http://given"
    );
    assert_eq!(
        controller_endpoint_from_args(&args, 3, &env),
        "http://127.0.0.1:50051"
    );
    assert_eq!(
        agent_endpoint_from_args(&args, 3, &env),
        DEFAULT_AGENT_ENDPOINT
    );
    assert_eq!(controller_addr_from_args(&args, 3), "127.0.0.1:50051");
    env.controller_endpoint = Some("http://set".to_owned());
    env.agent_endpoint = Some("http://agent".to_owned());
    assert_eq!(controller_endpoint_from_args(&args, 3, &env), "http://set");
    assert_eq!(agent_endpoint_from_args(&args, 3, &env), "http://agent");
}

#[test]
fn bootstrap_modes_are_a_closed_list() {
    let args = |mode: &str| words(&["edge-controller", "bootstrap-runtime", mode]);
    assert_eq!(
        bootstrap_mode_from_args(&args("base"), 2),
        Ok(BootstrapMode::BootstrapBase)
    );
    assert_eq!(
        bootstrap_mode_from_args(&args("tunnel"), 2),
        Ok(BootstrapMode::BootstrapTunnel)
    );
    assert_eq!(
        bootstrap_mode_from_args(&args("full"), 2),
        Ok(BootstrapMode::BootstrapFull)
    );
    assert_eq!(
        bootstrap_mode_from_args(&args("arbitrary"), 2),
        Err("unsupported bootstrap mode: arbitrary".to_owned())
    );
    assert_eq!(
        bootstrap_mode_from_args(&args("base"), 3),
        Err("bootstrap-runtime requires mode: base, tunnel, or full".to_owned())
    );
}

#[test]
fn requests_are_read_by_position() {
    let args = words(&[
        "edge-controller",
        "deploy",
        "waw-edge",
        " ",
        " instance-1 ",
        "edge.example.com",
        "ops@example.com",
        "edge.alegria.by",
        "alegria.by",
        "snapshot-1",
    ]);
    let mut env = nothing_set();
    env.skip_dns = Some("1".to_owned());
    env.mock_provider = Some("true".to_owned());
    let request = deploy_request_from_args(&args, &env);
    assert_eq!(
        request,
        DeployRequest {
            label_prefix: Some("waw-edge".to_owned()),
            target_ip: None,
            instance_id: Some("instance-1".to_owned()),
            tunnel_domain: Some("edge.example.com".to_owned()),
            acme_email: Some("ops@example.com".to_owned()),
            dns_record_name: Some("edge.alegria.by".to_owned()),
            cloudflare_zone_name: Some("alegria.by".to_owned()),
            mock_provider: false,
            skip_dns: true,
            snapshot_id: Some("snapshot-1".to_owned()),
        }
    );
    let destroy = destroy_request_from_args(&args, &env);
    assert_eq!(destroy.instance_id, Some("waw-edge".to_owned()));
    assert!(destroy.delete_dns);
    assert!(destroy.delete_instance);
    env.delete_instance = Some("0".to_owned());
    assert!(!destroy_request_from_args(&args, &env).delete_instance);
    assert_eq!(
        selector_target(&words(&["edge-controller", "set-selector"])),
        Err("set-selector requires a selector target name".to_owned())
    );
    assert_eq!(selector_target(&args), Ok("waw-edge".to_owned()));
}

#[test]
fn the_working_directory_is_found() {
    assert_eq!(repo_root_from_args(true, true, true), RepoRoot::Given);
    assert_eq!(
        repo_root_from_args(false, true, true),
        RepoRoot::CurrentDirectory
    );
    assert_eq!(
        repo_root_from_args(false, false, true),
        RepoRoot::ParentDirectory
    );
    assert_eq!(
        repo_root_from_args(false, false, false),
        RepoRoot::CurrentDirectory
    );
}

#[test]
fn command_names_follow_the_command() {
    assert_eq!(Cli { command: None }.command_name(), "serve");
    let deploy = Command::BootstrapRuntime(AgentBootstrapArgs {
        mode: BootstrapModeArg::Tunnel,
        endpoint: None,
    });
    assert_eq!(deploy.name(), "bootstrap-runtime");
    assert_eq!(
        BootstrapMode::from(BootstrapModeArg::Tunnel),
        BootstrapMode::BootstrapTunnel
    );
}

#[test]
fn endpoints_are_trimmed_and_defaulted() {
    let mut env = nothing_set();
    let given = ControllerEndpointArgs {
        endpoint: Some(" http://host ".to_owned()),
    };
    assert_eq!(given.resolve(&env), "http://host");
    env.controller_endpoint = Some("   ".to_owned());
    assert_eq!(controller_endpoint(None, &env), "http://127.0.0.1:50051");
    env.controller_endpoint = Some(" http://set ".to_owned());
    assert_eq!(
        controller_endpoint(Some(" ".to_owned()), &env),
        "http://set"
    );
    assert_eq!(agent_endpoint(None, &env), "http://127.0.0.1:50061");
}

#[test]
fn arguments_become_requests() {
    let mut env = nothing_set();
    env.mock_provider = Some("1".to_owned());
    env.lifecycle_reason = Some(" upgrade ".to_owned());
    let (deploy, endpoint) = DeployArgs {
        label_prefix: Some(" waw-edge ".to_owned()),
        target_ip: None,
        instance_id: None,
        tunnel_domain: None,
        acme_email: None,
        dns_record_name: Some("".to_owned()),
        cloudflare_zone_name: None,
        snapshot_id: None,
        endpoint: None,
    }
    .into_parts(&env);
    assert_eq!(deploy.label_prefix, Some("waw-edge".to_owned()));
    assert_eq!(deploy.dns_record_name, None);
    assert!(deploy.mock_provider);
    assert_eq!(endpoint, "http://127.0.0.1:50051");
    let (destroy, _) = DestroyArgs {
        instance_id: None,
        target_ip: None,
        dns_record_name: None,
        cloudflare_zone_name: None,
        endpoint: None,
    }
    .into_parts(&env);
    assert!(destroy.delete_dns);
    assert!(!destroy.delete_instance);
    assert_eq!(destroy.lifecycle_reason, Some("upgrade".to_owned()));
}

#[test]
fn normalizing_twice_changes_nothing() {
    let once = normalized(Some("  a b ".to_owned()));
    assert_eq!(once, Some("a b".to_owned()));
    assert_eq!(normalized(once.clone()), once);
}

#[test]
fn errors_have_categories() {
    assert_eq!(ControllerError::from("x".to_owned()).category(), "command");
    assert_eq!(ControllerError::Io("x".to_owned()).category(), "io");
    assert_eq!(
        ControllerError::Runtime("x".to_owned()).category(),
        "runtime"
    );
    assert_eq!(ControllerError::Runtime("x".to_owned()).message(), "x");
}

#[test]
fn only_transport_failures_are_tried_again() {
    let again = bootstrap_runtime_with_tls_resilient(
        BootstrapMode::BootstrapBase,
        1,
        Some("edge-agent bootstrap RPC failed: Transport Error".to_owned()),
    );
    assert_eq!(
        again,
        BootstrapNext::Again {
            note: "edge-agent bootstrap RPC transient failure for BOOTSTRAP_BASE on attempt 1; retrying: edge-agent bootstrap RPC failed: Transport Error".to_owned(),
            delay_secs: 2,
        }
    );
    assert_eq!(
        bootstrap_runtime_with_tls_resilient(
            BootstrapMode::BootstrapBase,
            1,
            Some("permission denied".to_owned())
        ),
        BootstrapNext::Failed("permission denied".to_owned())
    );
    assert_eq!(
        bootstrap_runtime_with_tls_resilient(
            BootstrapMode::BootstrapBase,
            BOOTSTRAP_RPC_ATTEMPTS,
            Some("broken pipe".to_owned())
        ),
        BootstrapNext::Failed("broken pipe".to_owned())
    );
    assert_eq!(
        bootstrap_runtime_with_tls_resilient(BootstrapMode::BootstrapBase, 1, None),
        BootstrapNext::Accepted
    );
}

#[test]
fn bootstrap_failures_have_their_words() {
    assert_eq!(
        bootstrap_runtime_with_tls(BootstrapMode::BootstrapBase, &BootstrapFault::TimedOut),
        "edge-agent bootstrap RPC timed out after 300s for mode BOOTSTRAP_BASE"
    );
    assert_eq!(
        bootstrap_runtime_with_tls(BootstrapMode::BootstrapFull, &BootstrapFault::TimedOut),
        "edge-agent bootstrap RPC timed out after 900s for mode BOOTSTRAP_FULL"
    );
    assert_eq!(
        bootstrap_runtime_with_tls(
            BootstrapMode::BootstrapFull,
            &BootstrapFault::Unreachable("refused".to_owned())
        ),
        "failed to connect to edge-agent: refused"
    );
    assert_eq!(
        bootstrap_runtime_with_tls(
            BootstrapMode::BootstrapFull,
            &BootstrapFault::Failed("status".to_owned())
        ),
        "edge-agent bootstrap RPC failed: status"
    );
}

#[test]
fn bootstrap_requests_need_a_mode() {
    assert_eq!(
        check_bootstrap_request(77).unwrap_err().message,
        "unknown bootstrap mode"
    );
    let refused = check_bootstrap_request(BootstrapMode::Unspecified.to_number()).unwrap_err();
    assert_eq!(refused.message, "bootstrap mode is required");
    assert_eq!(refused.code, StatusCode::InvalidArgument);
    for mode in [
        BootstrapMode::BootstrapBase,
        BootstrapMode::BootstrapTunnel,
        BootstrapMode::BootstrapFull,
    ] {
        assert_eq!(check_bootstrap_request(mode.to_number()), Ok(mode));
    }
}

#[test]
fn lists_seeded_secret_refs() {
    let secrets: Vec<(String, String)> = known_secret_names()
        .into_iter()
        .map(|name| {
            let default_ref = format!("env:{}", secret_name_to_env(name));
            (name.to_owned(), get_or_seed_secret_ref(None, &default_ref).0)
        })
        .collect();
    assert!(
        secrets
            .iter()
            .any(|entry| entry.0 == SECRET_VULTR_API_KEY && entry.1 == "env:VULTR_API_KEY")
    );
    assert!(secrets.iter().any(|entry| {
        entry.0 == SECRET_SSH_PRIVATE_KEY_PATH && entry.1 == "env:EDGE_SSH_PRIVATE_KEY_PATH"
    }));
}

#[test]
fn secret_names_are_a_closed_list() {
    for name in known_secret_names() {
        assert_eq!(validate_secret_name(name), Ok(()));
        assert!(!secret_name_to_env(name).is_empty());
    }
    assert_eq!(
        validate_secret_name(" ").unwrap_err().message,
        "secret name is required"
    );
    assert_eq!(
        validate_secret_name("other").unwrap_err().message,
        "unsupported secret name: other"
    );
    assert_eq!(secret_name_to_env("other"), "");
    assert_eq!(runtime_secret_names().len(), 3);
    assert_eq!(runtime_secret_names()[1], SECRET_CLOUDFLARE_API_TOKEN);
    assert!(has_configured_secret_ref(false, true));
    assert!(!has_configured_secret_ref(false, false));
}

#[test]
fn kept_secret_references_are_not_replaced() {
    assert_eq!(
        get_or_seed_secret_ref(Some("path:/k".to_owned()), "env:K"),
        ("path:/k".to_owned(), false)
    );
    assert_eq!(
        get_or_seed_secret_ref(None, "env:K"),
        ("env:K".to_owned(), true)
    );
    assert_eq!(
        unresolved_secret(false, "n", "env:N", "unset"),
        "failed to resolve secret n via env:N: unset"
    );
}

#[test]
fn literal_key_paths_become_path_references() {
    let stored = Some("literal:/root/.ssh/id".to_owned());
    assert_eq!(literal_key_path(&stored), Some("/root/.ssh/id".to_owned()));
    assert_eq!(
        normalize_key_reference(&stored, true),
        Some("path:/root/.ssh/id".to_owned())
    );
    assert_eq!(normalize_key_reference(&stored, false), None);
    assert_eq!(
        normalize_key_reference(&Some("path:/k".to_owned()), true),
        None
    );
}

#[test]
fn local_runtime_is_refused_without_a_backend() {
    assert!(!may_run_local(false, false));
    assert!(may_run_local(false, true));
    assert!(backend_ready_for_local_runtime(
        true,
        &None,
        &Some("203.0.113.1".to_owned())
    ));
    assert!(!backend_ready_for_local_runtime(
        false,
        &None,
        &Some("203.0.113.1".to_owned())
    ));
    let report = refuse_local_runtime(RuntimeAction::Restart, local(false, &[]));
    assert!(!report.success);
    assert_eq!(
        report.event,
        "backend is not ready; refusing to restart local runtime"
    );
    assert_eq!(
        report.note,
        "backend is not ready; local runtime restart refused"
    );
    assert_eq!(report.warnings, words(&["server runtime is not ready"]));
}

#[test]
fn local_runtime_that_does_not_stay_up_has_failed() {
    let result = || RuntimeResult {
        pid: Some(7),
        note: "started".to_owned(),
        warnings: words(&["first"]),
        local_singbox: local(true, &[]),
    };
    let report = finish_local_runtime(
        RuntimeAction::Start,
        result(),
        Ok(words(&["second"])),
        local(false, &["third"]),
        words(&["fourth"]),
    );
    assert!(!report.success);
    assert_eq!(report.pid, Some(7));
    assert_eq!(
        report.note,
        "local sing-box stopped before start operation completed"
    );
    assert_eq!(
        report.warnings,
        words(&[
            "first",
            "second",
            "local sing-box stopped before start operation completed",
            "third",
            "fourth"
        ])
    );
    let report = finish_local_runtime(
        RuntimeAction::Start,
        result(),
        Err("no store".to_owned()),
        local(true, &["third"]),
        words(&[]),
    );
    assert!(report.success);
    assert_eq!(report.event, "started");
    assert_eq!(report.warnings, words(&["first"]));
    assert_eq!(report_stopped(result()).note, "started");
    let failed = report_failed("no binary".to_owned(), local(false, &["w"]));
    assert!(!failed.success);
    assert_eq!(failed.warnings, words(&["w"]));
}

#[test]
fn operations_read_their_ends_back() {
    assert_eq!(
        lifecycle_status("SUCCEEDED"),
        OperationLifecycleStatus::Succeeded
    );
    assert_eq!(lifecycle_status("FAILED"), OperationLifecycleStatus::Failed);
    assert_eq!(
        lifecycle_status("RUNNING"),
        OperationLifecycleStatus::Running
    );
    assert_eq!(
        lifecycle_status("other"),
        OperationLifecycleStatus::Requested
    );
    assert_eq!(
        clash_controller_url(&local(true, &[])),
        Some("http://127.0.0.1:9090".to_owned())
    );
    assert_eq!(
        platform_error_to_status("E1", "read", "gone").message,
        "E1 [read]: gone"
    );
}
