use edge_controller::ipv4::{parse_ipv4, validate_verified_private_network};
use edge_controller::lists::sort_ids;
use edge_controller::local_runtime::LocalSingboxState;
use edge_controller::order::sort_once;
use edge_controller::requests::{DeployRequest, StatusCode};
use edge_controller::selector::{
    IntentOutcome, SelectorGroup, SelectorState, check_selector_request, groups_without_intent,
    is_allowed_selector_route, normalize_selector_group, observe_selector_state,
    reconcile_selector_intents_for_running_local, seed_route, selector_event,
    selector_is_converged, selector_not_set, selector_without_endpoint, set_selector,
};
use edge_controller::ssh_access::{
    AccessStep, AgentBinary, BootstrapAccessConfig, HostKeyNext, HostKeyWait, SSH_ATTEMPTS,
    TunnelSight, accept_key_args, access_step_after, access_step_event, check_agent_binary,
    check_private_key, choose_ssh_user, collect_edge_agent_diagnostics,
    default_edge_agent_binary_path, ensure_edge_agent_service, exited_badly,
    is_stale_known_host_error, run_command_capture, scp_args, ssh_args, start_ssh_tunnel,
    tunnel_args, wait_for_docker_runtime,
};
use edge_controller::bootstrap::WaitNext;
use edge_controller::status::{
    AgentAnswers, AgentState, AppReadinessPhase, ControllerStatus, DeploymentSummary,
    DoctorRequest, ReadinessNext, RuntimeObservation, TraceNext, TraceObservation, UbuntuProxy,
    build_doctor_checks, conclude_checks, note_status, observe_agent, readiness_after_traces,
    refresh_app_readiness_from_observed_status, refresh_app_readiness_phase,
    wait_for_trace_via_proxy,
};
use edge_controller::text::{join, split_words, to_lowercase, trim};
use edge_controller::trust::{
    ActiveDeployment, AgentClientTlsPaths, AgentConnectionTarget, ResolvedDeployTarget,
    StoredDeployment, StoredTrustEntry, TransportNext, TrustLookup, active_machine,
    agent_remote_port, allows_host_key_refresh, persisted_agent_tls_paths,
    prepare_agent_transport, probed_agent_transport, resolve_agent_connection_target,
    resolve_operation_agent_connection_target, resolve_persisted_agent_connection_target,
    resolve_targeted_agent_connection_target,
    resolve_targeted_agent_connection_target_for_endpoint, should_bootstrap_via_ssh,
    should_fallback_to_ssh_bootstrap, tunnel_target,
};

const DEFAULT_ENDPOINT: &str = "http://127.0.0.1:50061";

fn words(list: &[&str]) -> Vec<String> {
    list.iter().map(|w| (*w).to_owned()).collect()
}

fn trust(deployment: &str, instance: &str, ip: &str, suffix: &str) -> StoredTrustEntry {
    StoredTrustEntry {
        deployment_id: deployment.to_owned(),
        instance_id: instance.to_owned(),
        ip: ip.to_owned(),
        domain_name: Some("edge-agent".to_owned()),
        ca_cert_path: Some(format!("/tmp/ca{suffix}.pem")),
        client_cert_path: Some(format!("/tmp/controller-client{suffix}.pem")),
        client_key_path: Some(format!("/tmp/controller-client{suffix}.key")),
    }
}

#[test]
fn resolves_persisted_agent_target_from_state() {
    let target = resolve_persisted_agent_connection_target(
        TrustLookup::Latest {
            deployment: StoredDeployment {
                deployment_label: "deploy-1".to_owned(),
                instance_id: "instance-1".to_owned(),
                server_ip: "203.0.113.10".to_owned(),
            },
            trust: Some(trust("deploy-1", "instance-1", "203.0.113.10", "")),
        },
        50061,
    )
    .unwrap()
    .unwrap();
    assert_eq!(target.endpoint, "https://203.0.113.10:50061");
    let tls_paths = target.tls_paths.unwrap();
    assert_eq!(tls_paths.client_key_path, "/tmp/controller-client.key");
}

#[test]
fn resolves_persisted_agent_target_from_authoritative_controller_state() {
    let target = resolve_persisted_agent_connection_target(
        TrustLookup::Active {
            label: Some("deploy-auth".to_owned()),
            instance_id: "instance-auth".to_owned(),
            server_ip: "203.0.113.77".to_owned(),
            trust: Some(trust("deploy-auth", "instance-auth", "203.0.113.77", "-auth")),
        },
        50061,
    )
    .unwrap()
    .unwrap();
    assert_eq!(target.endpoint, "https://203.0.113.77:50061");
    assert_eq!(
        target.tls_paths.unwrap().client_key_path,
        "/tmp/controller-client-auth.key"
    );
}

#[test]
fn rejects_active_controller_target_without_persisted_trust() {
    let error = resolve_persisted_agent_connection_target(
        TrustLookup::Active {
            label: Some("deploy-missing".to_owned()),
            instance_id: "instance-missing".to_owned(),
            server_ip: "203.0.113.88".to_owned(),
            trust: None,
        },
        50061,
    )
    .unwrap_err();
    assert!(error.contains("instance-missing"));
    assert!(error.contains("203.0.113.88"));
}

#[test]
fn resolves_targeted_agent_target_for_redeploy() {
    let target = resolve_targeted_agent_connection_target(
        Some(trust("deploy-old", "instance-9", "203.0.113.19", "-old")),
        50061,
    )
    .unwrap()
    .unwrap();
    assert_eq!(target.endpoint, "https://203.0.113.19:50061");
    assert_eq!(
        target.tls_paths.unwrap().client_cert_path,
        "/tmp/controller-client-old.pem"
    );
}

fn machine(id: &str, ip: &str, created: bool) -> ResolvedDeployTarget {
    ResolvedDeployTarget {
        instance_id: id.to_owned(),
        target_ip: ip.to_owned(),
        created_instance: created,
    }
}

#[test]
fn rejects_operation_target_without_persisted_trust_or_override() {
    let target = machine("instance-missing", "203.0.113.99", false);
    let error =
        resolve_operation_agent_connection_target(DEFAULT_ENDPOINT, false, &target, Ok(None))
            .unwrap_err();
    assert!(error.contains("no persisted agent trust"));
    let explicit =
        resolve_operation_agent_connection_target("http://other", false, &target, Ok(None))
            .unwrap();
    assert_eq!(explicit.endpoint, "http://other");
    assert_eq!(explicit.tls_paths, None);
}

fn deploy_request(target_ip: Option<&str>) -> DeployRequest {
    DeployRequest {
        label_prefix: Some("waw-edge".to_owned()),
        target_ip: target_ip.map(|ip| ip.to_owned()),
        instance_id: Some("instance-bootstrap".to_owned()),
        tunnel_domain: None,
        acme_email: None,
        dns_record_name: None,
        cloudflare_zone_name: None,
        mock_provider: false,
        skip_dns: true,
        snapshot_id: None,
    }
}

#[test]
fn bootstraps_existing_instance_via_ssh_when_trust_is_missing() {
    let target = machine("instance-bootstrap", "203.0.113.120", false);
    let request = deploy_request(None);
    assert!(should_bootstrap_via_ssh(&request, &target, &None, true, false));
    assert!(!should_bootstrap_via_ssh(&request, &target, &None, true, true));
    assert!(!should_bootstrap_via_ssh(&request, &target, &None, false, false));
    assert!(should_bootstrap_via_ssh(
        &request,
        &target,
        &Some("TRUE".to_owned()),
        false,
        true
    ));
    assert!(should_bootstrap_via_ssh(
        &deploy_request(Some("203.0.113.120")),
        &target,
        &None,
        true,
        true
    ));
}

#[test]
fn rejects_partial_persisted_tls_material() {
    let entry = StoredTrustEntry {
        deployment_id: "deploy-1".to_owned(),
        instance_id: "instance-1".to_owned(),
        ip: "203.0.113.10".to_owned(),
        domain_name: Some("edge-agent".to_owned()),
        ca_cert_path: Some("/tmp/ca.pem".to_owned()),
        client_cert_path: Some("/tmp/controller-client.pem".to_owned()),
        client_key_path: None,
    };
    let error = persisted_agent_tls_paths(&entry).unwrap_err();
    assert!(error.contains("incomplete client TLS paths"));
}

#[test]
fn endpoints_are_resolved_in_order() {
    let recorded = || AgentConnectionTarget {
        endpoint: "https://203.0.113.10:50061".to_owned(),
        tls_paths: Some(AgentClientTlsPaths {
            ca_cert_path: "a".to_owned(),
            client_cert_path: "b".to_owned(),
            client_key_path: "c".to_owned(),
            domain_name: "d".to_owned(),
        }),
    };
    assert_eq!(
        resolve_agent_connection_target(DEFAULT_ENDPOINT, false, Ok(Some(recorded()))),
        Ok(recorded())
    );
    assert_eq!(
        resolve_agent_connection_target(DEFAULT_ENDPOINT, true, Ok(Some(recorded())))
            .unwrap()
            .tls_paths,
        None
    );
    assert_eq!(
        resolve_agent_connection_target(DEFAULT_ENDPOINT, false, Ok(None))
            .unwrap()
            .endpoint,
        DEFAULT_ENDPOINT
    );
    let through = tunnel_target(4000, &Some(recorded()), true);
    assert_eq!(through.endpoint, "http://127.0.0.1:4000");
    assert!(through.tls_paths.is_some());
    assert!(tunnel_target(4000, &Some(recorded()), false).tls_paths.is_none());
    assert_eq!(agent_remote_port(&Some("6000".to_owned())), 6000);
    assert_eq!(agent_remote_port(&Some("70000".to_owned())), 50061);
    assert_eq!(agent_remote_port(&None), 50061);
    let bare = resolve_targeted_agent_connection_target_for_endpoint(
        &Some(trust("d", "i", "203.0.113.1", "")),
        "http://t",
    )
    .unwrap()
    .unwrap();
    assert_eq!(bare.endpoint, "http://t");
    assert_eq!(
        active_machine(&ActiveDeployment {
            label: None,
            instance_id: Some("i".to_owned()),
            server_ip: None,
        }),
        None
    );
}

#[test]
fn transports_are_chosen() {
    let target = machine("i", "203.0.113.1", false);
    assert!(should_fallback_to_ssh_bootstrap(
        DEFAULT_ENDPOINT,
        false,
        &target,
        true
    ));
    assert!(!should_fallback_to_ssh_bootstrap("http://x", false, &target, true));
    let reached = |endpoint: &str| AgentConnectionTarget {
        endpoint: endpoint.to_owned(),
        tls_paths: None,
    };
    let unknown = || Err("unknown".to_owned());
    assert_eq!(
        prepare_agent_transport(true, true, &None, unknown()),
        Ok(TransportNext::Bootstrap)
    );
    assert_eq!(
        prepare_agent_transport(false, true, &Some(reached("a")), Ok(reached("b"))),
        Ok(TransportNext::Probe(reached("a")))
    );
    assert_eq!(
        prepare_agent_transport(false, false, &None, Ok(reached("b"))),
        Ok(TransportNext::Direct(reached("b")))
    );
    assert_eq!(
        prepare_agent_transport(false, false, &Some(reached("a")), unknown()),
        Err("unknown".to_owned())
    );
    assert_eq!(
        probed_agent_transport(reached("a"), false),
        TransportNext::Bootstrap
    );
    assert_eq!(
        probed_agent_transport(reached("a"), true),
        TransportNext::Direct(reached("a"))
    );
    assert!(allows_host_key_refresh(&target, false));
    assert!(!allows_host_key_refresh(&target, true));
}

fn access() -> BootstrapAccessConfig {
    BootstrapAccessConfig {
        private_key_path: "/key".to_owned(),
        agent_binary_path: "/agent".to_owned(),
        ssh_user: "root".to_owned(),
        remote_port: 50061,
        known_hosts_path: "/known".to_owned(),
    }
}

#[test]
fn ssh_gets_its_arguments() {
    assert_eq!(
        ssh_args(&access(), "203.0.113.1", "true"),
        words(&[
            "-i",
            "/key",
            "-o",
            "BatchMode=yes",
            "-o",
            "StrictHostKeyChecking=yes",
            "-o",
            "UserKnownHostsFile=/known",
            "-o",
            "IdentitiesOnly=yes",
            "root@203.0.113.1",
            "true"
        ])
    );
    assert_eq!(
        scp_args(&access(), "203.0.113.1", "/a", "/b").last().unwrap(),
        "root@203.0.113.1:/b"
    );
    assert!(
        accept_key_args(&access(), "203.0.113.1")
            .contains(&"StrictHostKeyChecking=accept-new".to_owned())
    );
    assert!(
        tunnel_args(&access(), "203.0.113.1", 4000)
            .contains(&"4000:127.0.0.1:50061".to_owned())
    );
}

#[test]
fn known_keys_are_forgotten_once() {
    assert!(is_stale_known_host_error("Host Key Verification Failed."));
    assert!(!is_stale_known_host_error("timed out"));
    let stale = Err("Offending key".to_owned());
    let (wait, next) = HostKeyWait::new().accept_ssh_host_key(true, &stale);
    assert_eq!(next, HostKeyNext::Refresh);
    let (wait, next) = wait.accept_ssh_host_key(true, &stale);
    assert_eq!(next, HostKeyNext::Pause);
    assert_eq!(wait.attempts_done, 2);
    let (_, next) = HostKeyWait::new().accept_ssh_host_key(false, &stale);
    assert_eq!(next, HostKeyNext::Pause);
    let (_, next) = HostKeyWait::new().accept_ssh_host_key(false, &Ok(()));
    assert_eq!(next, HostKeyNext::Accepted);
    let done = HostKeyWait {
        attempts_done: SSH_ATTEMPTS,
        refreshed: false,
    };
    assert_eq!(
        done.check("203.0.113.1"),
        Err("timed out waiting for SSH on 203.0.113.1".to_owned())
    );
}

#[test]
fn machines_are_prepared_step_by_step() {
    assert_eq!(
        access_step_after(AccessStep::AcceptHostKey),
        Some(AccessStep::AwaitDocker)
    );
    assert_eq!(access_step_after(AccessStep::OpenTunnel), None);
    assert_eq!(
        access_step_event(AccessStep::InstallAgent),
        "cloud-init and docker are ready"
    );
    assert_eq!(wait_for_docker_runtime("h", 0, false), WaitNext::Again);
    assert!(matches!(
        wait_for_docker_runtime("h", 89, false),
        WaitNext::Done(Err(_))
    ));
    assert_eq!(
        start_ssh_tunnel(4000, 39, &TunnelSight::Closed),
        WaitNext::Done(Err(
            "timed out waiting for local SSH tunnel on 127.0.0.1:4000".to_owned()
        ))
    );
    assert_eq!(
        start_ssh_tunnel(4000, 0, &TunnelSight::Exited("255".to_owned())),
        WaitNext::Done(Err("SSH tunnel exited early with status 255".to_owned()))
    );
    assert!(ensure_edge_agent_service("/a.exe", &Some("EXE".to_owned())).is_err());
    assert!(ensure_edge_agent_service("/a", &None).is_ok());
    assert!(check_private_key(None, false).is_err());
    assert!(check_private_key(Some("/k".to_owned()), false).is_err());
    assert_eq!(
        check_private_key(Some("/k".to_owned()), true),
        Ok("/k".to_owned())
    );
    let found = |is_file: bool| {
        Some(AgentBinary {
            path: "/a.exe".to_owned(),
            is_file,
            extension: Some("exe".to_owned()),
        })
    };
    assert!(check_agent_binary(None, false).is_err());
    assert!(check_agent_binary(found(false), false).is_err());
    assert!(check_agent_binary(found(true), true).is_err());
    assert!(check_agent_binary(found(true), false).is_ok());
    assert_eq!(default_edge_agent_binary_path(true).len(), 5);
    assert_eq!(default_edge_agent_binary_path(false).len(), 2);
    assert_eq!(choose_ssh_user(None), "root");
    assert_eq!(
        exited_badly("ssh", "exit status: 1", &words(&["a", "b"])),
        "ssh exited with status exit status: 1 (a b)"
    );
    assert_eq!(
        run_command_capture("ssh", true, "0", " out ", "err\n"),
        Ok("out | err".to_owned())
    );
    assert_eq!(
        run_command_capture("ssh", false, "1", "out", "err"),
        Err("ssh exited with status 1: out err".to_owned())
    );
    assert_eq!(collect_edge_agent_diagnostics("a\nb"), "a | b");
}

fn agent(ready: bool) -> AgentState {
    AgentState {
        healthy: true,
        ready,
        topology_version: "v1".to_owned(),
        active_bundle_id: None,
        degraded_reasons: vec![],
        docker_reachable: true,
        compose_file_present: true,
        observed_stack_path: None,
        running_containers: vec![],
        missing_containers: vec![],
        listening_tcp_ports: vec![],
        listening_udp_ports: vec![],
    }
}

#[test]
fn agents_are_seen_as_they_answer() {
    let (seen, trouble) = observe_agent(AgentAnswers::Unreachable("http://a".to_owned()));
    assert!(!seen.ready);
    assert_eq!(seen.topology_version, "unreachable");
    assert_eq!(
        trouble,
        Some("edge-agent is unreachable at http://a".to_owned())
    );
    let (seen, trouble) = observe_agent(AgentAnswers::Answered {
        state: agent(false),
        healthy: Some(false),
        ready: Some(true),
        version: Some("2.0".to_owned()),
    });
    assert!(seen.ready && !seen.healthy);
    assert_eq!(seen.topology_version, "v1@2.0");
    assert_eq!(trouble, None);
    let (seen, _) = observe_agent(AgentAnswers::NoRuntime("http://a".to_owned()));
    assert_eq!(seen.topology_version, "runtime-rpc-failed");
    let (seen, _) = observe_agent(AgentAnswers::NoTarget("none".to_owned()));
    assert_eq!(seen.degraded_reasons, words(&["none"]));
}

#[test]
fn notes_say_what_is_wrong() {
    assert_eq!(
        note_status(
            words(&["base"]),
            false,
            false,
            false,
            true,
            &Some("down".to_owned())
        ),
        words(&[
            "base",
            "server agent has not reached runtime readiness",
            "server runtime observation is running in degraded fallback mode",
            "authoritative provider reconciliation unavailable: down",
        ])
    );
    assert_eq!(
        note_status(vec![], false, false, true, false, &None),
        words(&[
            "server runtime observation is unavailable; using persisted live deployment state",
            "local runtime artifact current-edge.json is missing; start-local cannot be trusted",
        ])
    );
    assert!(note_status(vec![], true, true, true, true, &None).is_empty());
}

fn selector(desired: Option<&str>, observed: Option<&str>) -> SelectorState {
    SelectorState {
        desired_main_route: desired.map(|r| r.to_owned()),
        observed_main_route: observed.map(|r| r.to_owned()),
        degraded: false,
        proxy_groups: vec![],
        warnings: vec![],
    }
}

#[test]
fn readiness_follows_what_is_seen() {
    let good = || Some(selector(Some("a"), Some("a")));
    let bad = || Some(selector(Some("a"), Some("b")));
    assert_eq!(
        refresh_app_readiness_from_observed_status(true, true, &good(), &good()),
        AppReadinessPhase::AppReady
    );
    assert_eq!(
        refresh_app_readiness_from_observed_status(true, true, &good(), &bad()),
        AppReadinessPhase::LocalRuntimeReady
    );
    assert_eq!(
        refresh_app_readiness_from_observed_status(true, false, &good(), &good()),
        AppReadinessPhase::AppReadinessFailed
    );
    assert_eq!(
        refresh_app_readiness_from_observed_status(false, true, &good(), &None),
        AppReadinessPhase::DeploymentAbsent
    );
    assert_eq!(
        refresh_app_readiness_phase(false, &good().unwrap(), &good().unwrap()),
        ReadinessNext::Record {
            phase: AppReadinessPhase::AppReadinessFailed,
            error_code: Some("local_runtime_not_running"),
            error_message: Some("local sing-box is not running"),
        }
    );
    assert_eq!(
        refresh_app_readiness_phase(true, &good().unwrap(), &good().unwrap()),
        ReadinessNext::Trace
    );
    assert_eq!(
        readiness_after_traces(true, false),
        AppReadinessPhase::SelectorsReady
    );
}

#[test]
fn traces_are_waited_for() {
    let seen = |available: bool, note: &str| TraceObservation {
        available,
        ip: None,
        note: Some(note.to_owned()),
    };
    assert_eq!(
        wait_for_trace_via_proxy(seen(false, "x"), false, 60),
        TraceNext::Again
    );
    assert_eq!(
        wait_for_trace_via_proxy(seen(false, "refused"), true, 60),
        TraceNext::Done(seen(
            false,
            "trace did not become available within 60s; last error: refused"
        ))
    );
    assert_eq!(
        wait_for_trace_via_proxy(seen(false, ""), true, 60),
        TraceNext::Done(seen(false, "trace did not become available within 60s"))
    );
    assert_eq!(
        wait_for_trace_via_proxy(seen(true, "x"), true, 60),
        TraceNext::Done(seen(true, "x"))
    );
}

#[test]
fn checks_say_what_they_found() {
    let status = ControllerStatus {
        deployment: Some(DeploymentSummary {
            live_state_present: true,
            source_state_path: None,
            deployment_label: Some("waw-edge-1".to_owned()),
            instance_id: None,
            server_ip: None,
            tunnel_domain: None,
        }),
        runtime: Some(RuntimeObservation {
            edge_agent_reachable: true,
            docker_reachable: true,
            compose_file_present: false,
            missing_containers: words(&["a", "b"]),
            warnings: vec![],
        }),
        local_singbox: Some(LocalSingboxState {
            process_running: true,
            managed_config: true,
            expected_config_path: "c".to_owned(),
            active_config_path: Some("c".to_owned()),
            clash_api_port: None,
            warnings: words(&["w"]),
        }),
        selector: Some(selector(Some("a"), Some("a"))),
        ubuntu_selector: None,
        ubuntu_proxy: Some(UbuntuProxy {
            available: true,
            url: Some("http://u".to_owned()),
        }),
    };
    let basic = DoctorRequest {
        require_server_ready: false,
        require_local_runtime: false,
        require_egress_traces: false,
    };
    let checks = build_doctor_checks(&status, true, "/live.json", &None, &None, basic);
    assert_eq!(checks.len(), 8);
    assert_eq!(checks[0].detail, "waw-edge-1");
    assert!(!checks[1].ok);
    assert_eq!(checks[2].detail, "/live.json");
    assert_eq!(checks[3].detail, "edge-agent status unavailable");
    assert_eq!(checks[4].detail, "w");
    assert!(checks[5].ok);
    assert_eq!(
        checks[5].detail,
        "desired=Some(\"a\"), observed=Some(\"a\")"
    );
    assert_eq!(checks[6].detail, "ubuntu selector state unavailable");
    assert_eq!(
        conclude_checks(&checks),
        (false, "doctor completed: one or more checks failed")
    );
    let all = DoctorRequest {
        require_server_ready: true,
        require_local_runtime: true,
        require_egress_traces: true,
    };
    let checks = build_doctor_checks(&status, true, "/live.json", &None, &None, all);
    assert_eq!(checks.len(), 12);
    assert_eq!(
        checks[8].detail,
        "docker=true, compose=false, missing=a, b"
    );
    assert!(!checks[8].ok);
    assert!(checks[9].ok);
    assert_eq!(checks[11].detail, "ubuntu trace unavailable");
    assert_eq!(
        conclude_checks(&vec![]),
        (true, "doctor completed: all checks passed")
    );
}

#[test]
fn routes_are_asked_for_and_set() {
    assert_eq!(
        normalize_selector_group(&Some("wsl-selector".to_owned())),
        Ok(SelectorGroup::Ubuntu)
    );
    assert_eq!(normalize_selector_group(&None), Ok(SelectorGroup::Desktop));
    assert_eq!(
        normalize_selector_group(&Some(" ".to_owned())),
        Ok(SelectorGroup::Desktop)
    );
    let refused = normalize_selector_group(&Some("other".to_owned())).unwrap_err();
    assert_eq!(refused.code, StatusCode::InvalidArgument);
    assert_eq!(refused.message, "unknown selector group: other");
    assert!(is_allowed_selector_route("hysteria2-warp"));
    assert!(!is_allowed_selector_route("direct"));
    let (status, fails) = check_selector_request("".to_owned(), "direct").unwrap_err();
    assert!(fails);
    assert_eq!(status.message, "unknown selector route: direct");
    assert_eq!(
        check_selector_request("proxy-selector".to_owned(), "hysteria2-warp"),
        Ok(SelectorGroup::Desktop)
    );
    assert_eq!(selector_event("g", "n"), "setting selector g -> n");
    let report = set_selector(
        "hysteria2-warp",
        Some("old".to_owned()),
        selector(None, Some("hysteria2-warp")),
        Ok(()),
    );
    assert!(report.success);
    assert!(selector_is_converged(&report.selector));
    let report = set_selector(
        "hysteria2-warp",
        None,
        selector(None, Some("hysteria2-warp")),
        Err("no store".to_owned()),
    );
    assert!(!report.success);
    assert!(report.selector.degraded);
    let report = selector_not_set(selector(Some("a"), Some("b")), "refused".to_owned());
    assert_eq!(report.current, Some("b".to_owned()));
    assert_eq!(report.warnings, words(&["refused"]));
    let report = selector_without_endpoint(selector(None, None));
    assert_eq!(
        report.warnings,
        words(&["clash API endpoint is not configured"])
    );
}

#[test]
fn routes_are_observed_and_seeded() {
    let seen = observe_selector_state(
        selector(Some("a"), None),
        Some(Ok(selector(None, Some("a")))),
    );
    assert!(selector_is_converged(&seen));
    let seen = observe_selector_state(selector(Some("a"), Some("a")), None);
    assert!(!selector_is_converged(&seen));
    assert_eq!(seed_route(None, None), "auto-direct-tunnel");
    assert_eq!(
        seed_route(None, Some("hysteria2-direct".to_owned())),
        "hysteria2-direct"
    );
    assert_eq!(
        groups_without_intent(true, false),
        vec![SelectorGroup::Ubuntu]
    );
    assert_eq!(
        reconcile_selector_intents_for_running_local(
            true,
            &vec![IntentOutcome {
                group_name: "g".to_owned(),
                desired_route: "r".to_owned(),
                failure: Some("x".to_owned()),
            }]
        ),
        words(&["g -> r reconciliation failed: x"])
    );
    assert_eq!(
        reconcile_selector_intents_for_running_local(false, &vec![]),
        words(&["clash API endpoint is not configured"])
    );
}

#[test]
fn addresses_are_read_exactly() {
    assert!(parse_ipv4("203.0.113.10").is_some());
    assert!(parse_ipv4("203.0.113.010").is_none());
    assert!(parse_ipv4("203.0.113").is_none());
    assert!(parse_ipv4("203.0.113.256").is_none());
    assert!(validate_verified_private_network("10.0.4.0/24", "10.0.4.2").is_ok());
    assert!(validate_verified_private_network("10.0.4.1/24", "10.0.4.2").is_err());
}

#[test]
fn texts_are_taken_apart_and_put_together() {
    assert_eq!(split_words(" a\u{a0}b\tc "), words(&["a", "b", "c"]));
    assert_eq!(join(&words(&["a", "b"]), "; "), "a; b");
    assert_eq!(trim("\u{3000}a \n"), "a");
    assert_eq!(to_lowercase("AbÄ"), "abÄ");
    assert_eq!(
        sort_once(&words(&["b", "a", "b"])),
        words(&["a", "b"])
    );
    assert_eq!(sort_ids(&vec![3, 1, 2, 1]), vec![1, 1, 2, 3]);
}
