use edge_controller::agent::BootstrapRuntimeResponse;
use edge_controller::bootstrap::WaitNext;
use edge_controller::deploy::{
    BundleName, DeployCourse, DeployEffect, DeployNext, DeployRun, DeployStage, MachineRollback, PhaseRecord,
    RollbackOutcome, RollbackPolicy, RuntimeVerdict, StageOutcome, answer_deploy, apply_dns_update,
    apply_failure_rollback, begin_deploy, delete_dns_record, deploy_refusal, dns_names,
    format_rollback_warnings, merge_warnings, missing_dns_token, plan_deploy, plan_rollback,
    provider_observation_from_request, rollback_dns_request, rollback_failed_deploy,
    should_update_dns, target_event, wait_for_agent_runtime_target,
};
use edge_controller::destroy::{
    DestroyNext, DestroyNote, DestroyOutcome, DestroyRefusal, DestroyRun, DestroyStep,
    DestroyTarget, RecordedMachine, check_destroy_target, choose_destroy_target,
    destroy_request_events, destroy_stage_name, destroy_target_event, fail_destroy_operation,
    finish_destroy, instance_removed, normalize_destroy_request, plan_destroy,
    stop_local_runtime_for_destroy, verify_destroy_identity,
};
use edge_controller::lifecycle::OwnedCreateRequest;
use edge_controller::once::{Next, ProviderFault};
use edge_controller::provider::VultrInstance;
use edge_controller::records::DeployPhase;
use edge_controller::requests::{DeployRequest, DestroyRequest, StatusCode};
use edge_controller::selector::SelectorState;
use edge_controller::status::{AppReadinessPhase, DeploymentSummary, TraceObservation};
use edge_controller::target::{
    CreateNext, CreatePhase, DestroyInstanceOutcome, InstanceRemoval, MachineSettings,
    TargetChoice, TargetStart, VULTR_CREATE_ATTEMPTS, VULTR_CREATE_REOBSERVATION_ATTEMPTS,
    VULTR_DESTROY_REOBSERVATION_ATTEMPTS, begin_target, check_create_label,
    check_creation_secrets, create_deploy_request, created_target,
    instance_matches_create_request, observe_vultr_create_identity, resolve_deploy_target,
    select_unique_vultr_instance_by_label, status_for_target_resolution_error,
    wait_for_instance_ready,
};
use edge_controller::trust::ResolvedDeployTarget;

fn words(list: &[&str]) -> Vec<String> {
    list.iter().map(|w| (*w).to_owned()).collect()
}

fn mock_instance(label: &str, region: &str, plan: &str, ip: &str) -> VultrInstance {
    VultrInstance {
        id: format!("mock-{label}"),
        label: label.to_owned(),
        region: region.to_owned(),
        plan: plan.to_owned(),
        status: "active".to_owned(),
        server_status: "ok".to_owned(),
        power_status: "running".to_owned(),
        main_ip: ip.to_owned(),
        v6_main_ip: String::new(),
        firewall_group_id: String::new(),
        date_created: String::new(),
        tags: vec![],
        os_id: 0,
        snapshot_id: None,
        enable_ipv6: true,
    }
}

fn request() -> DeployRequest {
    DeployRequest {
        label_prefix: Some("waw-edge".to_owned()),
        target_ip: None,
        instance_id: None,
        tunnel_domain: Some("edge.example.com".to_owned()),
        acme_email: Some("ops@example.com".to_owned()),
        dns_record_name: Some("edge.alegria.by".to_owned()),
        cloudflare_zone_name: None,
        mock_provider: false,
        skip_dns: false,
        snapshot_id: None,
    }
}

fn target(created: bool) -> ResolvedDeployTarget {
    ResolvedDeployTarget {
        instance_id: "instance-1".to_owned(),
        target_ip: "203.0.113.10".to_owned(),
        created_instance: created,
    }
}

#[test]
fn selects_unique_vultr_instance_and_fails_closed_on_ambiguity() {
    let first = mock_instance("edge-a", "waw", "vc2-1c-1gb", "203.0.113.10");
    let second = VultrInstance {
        id: "mock-second".to_owned(),
        ..first.clone()
    };

    assert!(
        select_unique_vultr_instance_by_label(&vec![], "edge-a")
            .unwrap()
            .is_none()
    );
    assert_eq!(
        select_unique_vultr_instance_by_label(&vec![first.clone()], "edge-a")
            .unwrap()
            .unwrap()
            .id,
        first.id
    );
    let error =
        select_unique_vultr_instance_by_label(&vec![first, second], "edge-a").unwrap_err();
    assert!(error.contains("ambiguous Vultr instance identity"));
}

fn create_request() -> OwnedCreateRequest {
    OwnedCreateRequest {
        region: "waw".to_owned(),
        plan: "vc2-1c-1gb".to_owned(),
        os_id: Some(2625),
        snapshot_id: None,
        label: "edge-a".to_owned(),
        ssh_key_id: "ssh-1".to_owned(),
        cloud_init: "#cloud-config\n".to_owned(),
        firewall_group_id: Some("fw-1".to_owned()),
        tags: vec!["managed-by-sing-box".to_owned(), "edge-a".to_owned()],
        enable_ipv6: true,
    }
}

fn matching_instance() -> VultrInstance {
    let mut instance = mock_instance("edge-a", "waw", "vc2-1c-1gb", "203.0.113.10");
    instance.os_id = 2625;
    instance.firewall_group_id = "fw-1".to_owned();
    instance.tags = vec!["managed-by-sing-box".to_owned(), "edge-a".to_owned()];
    instance
}

#[test]
fn matches_create_request_using_provider_identity_fields() {
    let mut instance = matching_instance();
    let request = create_request();
    assert!(instance_matches_create_request(&instance, &request));

    instance.plan = "vc2-1c-2gb".to_owned();
    assert!(!instance_matches_create_request(&instance, &request));
}

#[test]
fn resolves_mock_deploy_target() {
    let mut mock = request();
    mock.label_prefix = Some("mock-edge".to_owned());
    mock.mock_provider = true;
    let (label, ip) = match begin_target(&mock) {
        TargetStart::Mock { label, target_ip } => (label, target_ip),
        other => panic!("{other:?}"),
    };
    let instance = mock_instance(&label, "waw", "vc2-1c-1gb", &ip);
    assert!(instance.id.starts_with("mock-"));
    assert_eq!(instance.main_ip, "203.0.113.10");
}

#[test]
fn machines_that_are_there_are_used() {
    let mut named = request();
    named.instance_id = Some("instance-9".to_owned());
    assert_eq!(
        begin_target(&named),
        TargetStart::LookUp("instance-9".to_owned())
    );
    let found = mock_instance("edge-a", "waw", "vc2-1c-1gb", "203.0.113.10");
    assert_eq!(
        resolve_deploy_target(&named, Some(found)),
        TargetChoice::Use(ResolvedDeployTarget {
            instance_id: "mock-edge-a".to_owned(),
            target_ip: "203.0.113.10".to_owned(),
            created_instance: false,
        })
    );
    let mut addressed = request();
    addressed.target_ip = Some("203.0.113.77".to_owned());
    assert_eq!(
        resolve_deploy_target(&addressed, None),
        TargetChoice::Use(ResolvedDeployTarget {
            instance_id: "manual-203-0-113-77".to_owned(),
            target_ip: "203.0.113.77".to_owned(),
            created_instance: false,
        })
    );
    assert_eq!(resolve_deploy_target(&request(), None), TargetChoice::Create);
}

#[test]
fn machines_are_requested_by_settings() {
    let settings = MachineSettings {
        region: None,
        plan: Some("vc2-2c-4gb".to_owned()),
        os_id: Some("7".to_owned()),
    };
    let made = create_deploy_request(&request(), &settings, "waw-edge-1", "key", "#cloud-config");
    assert_eq!(made.region, "waw");
    assert_eq!(made.plan, "vc2-2c-4gb");
    assert_eq!(made.os_id, Some(7));
    assert_eq!(made.tags, words(&["managed-by-sing-box", "waw-edge-1"]));
    let mut from_disk = request();
    from_disk.snapshot_id = Some("snapshot-1".to_owned());
    let made = create_deploy_request(&from_disk, &settings, "waw-edge-1", "key", "#cloud-config");
    assert_eq!(made.os_id, None);
    assert_eq!(made.snapshot_id, Some("snapshot-1".to_owned()));
    let unreadable = MachineSettings {
        region: None,
        plan: None,
        os_id: Some("x".to_owned()),
    };
    let made = create_deploy_request(&request(), &unreadable, "l", "key", "");
    assert_eq!(made.os_id, Some(2625));
    assert!(check_create_label(&made, "l").is_ok());
    assert!(check_create_label(&made, "m").is_err());
    assert!(check_creation_secrets(false, true).is_err());
    assert!(check_creation_secrets(true, false).is_err());
    assert!(check_creation_secrets(true, true).is_ok());
    let mut blank = mock_instance("edge-a", "waw", "p", " ");
    assert!(created_target(blank.clone()).is_err());
    blank.main_ip = "203.0.113.10".to_owned();
    assert!(created_target(blank).unwrap().created_instance);
}

fn uncertain() -> ProviderFault {
    ProviderFault {
        not_found: false,
        uncertain: true,
        message: "lost".to_owned(),
    }
}

#[test]
fn machines_that_may_be_there_are_looked_for_before_they_are_asked_for_again() {
    let mut phase = CreatePhase::Before;
    let mut created = 0;
    let mut looks = 0;
    let result = loop {
        looks += 1;
        let sight = observe_vultr_create_identity(Ok(vec![]), &create_request());
        let (after, next) = phase.create_or_adopt_vultr_instance(sight);
        phase = after;
        let next = match next {
            CreateNext::Create => {
                created += 1;
                let (after, next) = phase.create_replied(Err(uncertain()));
                phase = after;
                next
            }
            other => other,
        };
        if let CreateNext::Done(result) = next {
            break result;
        }
    };
    assert_eq!(result, Err("lost".to_owned()));
    assert_eq!(created, VULTR_CREATE_ATTEMPTS);
    assert_eq!(
        looks,
        1 + VULTR_CREATE_ATTEMPTS * VULTR_CREATE_REOBSERVATION_ATTEMPTS
    );
}

#[test]
fn machines_that_are_there_are_adopted() {
    let sight = observe_vultr_create_identity(Ok(vec![matching_instance()]), &create_request());
    let (_, next) = CreatePhase::Before.create_or_adopt_vultr_instance(sight);
    assert_eq!(next, CreateNext::Done(Ok(matching_instance())));
    let mut other = matching_instance();
    other.plan = "other".to_owned();
    let error = observe_vultr_create_identity(Ok(vec![other]), &create_request()).unwrap_err();
    assert_eq!(
        error,
        "Vultr instance identity conflict for label edge-a: id=mock-edge-a region=waw plan=other os_id=2625 firewall_group_id=fw-1"
    );
    assert_eq!(
        observe_vultr_create_identity(Err("down".to_owned()), &create_request()),
        Err("down".to_owned())
    );
    let refused = ProviderFault {
        not_found: false,
        uncertain: false,
        message: "quota".to_owned(),
    };
    let (_, next) = CreatePhase::Asked(1).create_replied(Err(refused));
    assert_eq!(next, CreateNext::Done(Err("quota".to_owned())));
}

fn not_found() -> ProviderFault {
    ProviderFault {
        not_found: true,
        uncertain: false,
        message: "not found".to_owned(),
    }
}

#[test]
fn machines_are_removed_once() {
    let (state, next) = InstanceRemoval::new().destroy_vultr_instance_reconciled("i", &None);
    assert_eq!(next, Next::Change);
    let (mut state, mut next) = state.replied("i", &Some(uncertain()));
    let mut looks = 0;
    let result = loop {
        match next {
            Next::Done(result) => break result,
            Next::Change => panic!("asked for twice"),
            Next::Look { .. } => {
                looks += 1;
                let (s, n) = state.destroy_vultr_instance_reconciled("i", &None);
                state = s;
                next = n;
            }
        }
    };
    assert_eq!(looks, VULTR_DESTROY_REOBSERVATION_ATTEMPTS);
    assert_eq!(
        result,
        Err(
            "lost; exact instance i remained present after bounded re-observation, and DELETE was not replayed blindly"
                .to_owned()
        )
    );
    let (_, next) =
        InstanceRemoval::new().destroy_vultr_instance_reconciled("i", &Some(not_found()));
    assert_eq!(
        next,
        Next::Done(Ok(DestroyInstanceOutcome::AlreadyAbsent))
    );
    let (state, _) = InstanceRemoval::new().destroy_vultr_instance_reconciled("i", &None);
    let (state, _) = state.replied("i", &None);
    let (_, next) = state.destroy_vultr_instance_reconciled("i", &Some(not_found()));
    assert_eq!(next, Next::Done(Ok(DestroyInstanceOutcome::Requested)));
}

#[test]
fn failures_to_find_a_machine_are_told_apart() {
    let status = |m: &str| status_for_target_resolution_error(m.to_owned()).code;
    assert_eq!(status("HTTP 503 from provider"), StatusCode::Unavailable);
    assert_eq!(status("Timeout"), StatusCode::Unavailable);
    assert_eq!(status("http 404"), StatusCode::InvalidArgument);
    assert_eq!(
        wait_for_instance_ready(0, Ok(mock_instance("e", "w", "p", ""))),
        WaitNext::Again
    );
    assert!(matches!(
        wait_for_instance_ready(59, Ok(mock_instance("e", "w", "p", ""))),
        WaitNext::Done(Err(_))
    ));
}

fn worked(stage: DeployStage) -> StageOutcome {
    match stage {
        DeployStage::ApplyBundle => StageOutcome::Wrote(words(&["a", "b"])),
        DeployStage::VerifySelectors => StageOutcome::Routes {
            desktop: selector("a", Some("a")),
            ubuntu: selector("b", Some("b")),
            reconcile_warnings: words(&["w"]),
        },
        DeployStage::VerifyEgress => StageOutcome::Ways {
            desktop_trace: trace(true, None),
            ubuntu_trace: trace(true, None),
            apply_warnings: words(&["applied"]),
            reconcile_warnings: words(&["w"]),
        },
        _ => StageOutcome::Worked("x".to_owned()),
    }
}

fn whole_run(
    request: &DeployRequest,
    key: bool,
) -> (Vec<DeployStage>, Vec<DeployEffect>, DeployRun, DeployNext) {
    let mut run = DeployRun::new(plan_deploy(request));
    let mut stages = vec![run.stage];
    let mut effects = begin_deploy("edge-a");
    loop {
        let (after, next) = run.execute(RollbackPolicy::strict(), key, worked(run.stage));
        match next {
            DeployNext::Go(more) => effects.extend(more),
            other => return (stages, effects, after, other),
        }
        run = after;
        stages.push(run.stage);
    }
}

fn line(text: &str) -> DeployEffect {
    DeployEffect::Note {
        text: text.to_owned(),
        required: true,
    }
}

fn remark(text: &str) -> DeployEffect {
    DeployEffect::Note {
        text: text.to_owned(),
        required: false,
    }
}

fn failed_mark() -> DeployEffect {
    DeployEffect::Mark {
        status: "FAILED",
        required: false,
    }
}

fn reached(deploy_phase: DeployPhase, app_readiness_phase: AppReadinessPhase) -> DeployEffect {
    DeployEffect::Record(PhaseRecord {
        deploy_phase,
        app_readiness_phase,
        error_code: None,
        error_message: None,
        operation_status: None,
    })
}

fn at(stage: DeployStage) -> DeployRun {
    let mut run = DeployRun::new(plan_deploy(&request()));
    while run.stage != stage {
        let (after, next) = run.execute(RollbackPolicy::strict(), true, worked(run.stage));
        assert!(matches!(next, DeployNext::Go(_)));
        run = after;
    }
    run
}

fn failing(stage: DeployStage, outcome: StageOutcome) -> (DeployNext, bool) {
    let run = at(stage);
    let (after, next) = run.execute(RollbackPolicy::strict(), true, outcome);
    (next, after == run)
}

#[test]
fn deployments_go_through_their_stages() {
    assert_eq!(
        plan_deploy(&request()),
        DeployCourse {
            updates_dns: true,
            starts_tunnel: true,
        }
    );
    let (stages, effects, run, end) = whole_run(&request(), true);
    assert_eq!(stages.len(), 17);
    assert!(run.dns_updated);
    assert!(!at(DeployStage::UpdateDns).dns_updated);
    assert!(at(DeployStage::BootstrapTunnel).dns_updated);
    assert_eq!(
        effects,
        vec![
            line("deploy requested"),
            reached(DeployPhase::Requested, AppReadinessPhase::DeploymentAbsent),
            line("deployment label reserved: edge-a"),
            line("x"),
            line("bundle rendered: x"),
            line("local trust and deployment state persisted"),
            line("agent transport ready via x"),
            line("wrote a"),
            line("wrote b"),
            line("base bootstrap completed"),
            line("x"),
            line("tunnel bootstrap completed"),
            line("edge-agent service restarted with deployment TLS env"),
            reached(
                DeployPhase::TunnelReadyVerified,
                AppReadinessPhase::ServerRuntimeReady
            ),
            line("local config synced for instance x"),
            reached(
                DeployPhase::LocalConfigSynced,
                AppReadinessPhase::ServerRuntimeReady
            ),
            reached(
                DeployPhase::LocalRuntimeStartStarted,
                AppReadinessPhase::ServerRuntimeReady
            ),
            line("x"),
            reached(
                DeployPhase::LocalRuntimeReadyVerified,
                AppReadinessPhase::LocalRuntimeReady
            ),
            reached(
                DeployPhase::SelectorsVerified,
                AppReadinessPhase::SelectorsReady
            ),
            remark("waiting for desktop and ubuntu egress trace convergence"),
        ]
    );
    assert_eq!(
        end,
        DeployNext::Answer {
            effects: vec![
                reached(
                    DeployPhase::AppEgressVerified,
                    AppReadinessPhase::AppEgressReady
                ),
                DeployEffect::Record(PhaseRecord {
                    deploy_phase: DeployPhase::AppReadyCompleted,
                    app_readiness_phase: AppReadinessPhase::AppReady,
                    error_code: None,
                    error_message: None,
                    operation_status: Some("SUCCEEDED"),
                }),
                DeployEffect::Mark {
                    status: "SUCCEEDED",
                    required: true,
                },
            ],
            success: true,
            warnings: words(&["applied", "w"]),
        }
    );
}

#[test]
fn stages_that_are_not_asked_for_are_left_out() {
    let mut bare = request();
    bare.skip_dns = true;
    bare.acme_email = Some(" ".to_owned());
    assert!(!should_update_dns(&bare));
    let (stages, _, run, _) = whole_run(&bare, false);
    assert_eq!(stages.len(), 13);
    assert!(!stages.contains(&DeployStage::RestartAgent));
    assert!(!run.dns_updated);
    assert_eq!(plan_rollback(run, &target(true), &bare), (false, true));
}

#[test]
fn failed_stages_are_undone_and_told() {
    let strict = RollbackPolicy::strict();
    assert_eq!(apply_failure_rollback(strict), Ok(()));
    let mut loose = strict;
    loose.clear_new_state_rows = false;
    assert_eq!(
        apply_failure_rollback(loose),
        Err(words(&[
            "rollback policy skipped one or more cleanup dimensions"
        ]))
    );
    let failed = |stage: DeployStage| {
        let (next, stays) = failing(stage, StageOutcome::Failed("e".to_owned()));
        assert!(stays);
        match next {
            DeployNext::Refuse { effects, failure } => {
                assert_eq!(failure, "e");
                effects
            }
            other => panic!("{other:?}"),
        }
    };
    let no_machine = DeployEffect::Record(PhaseRecord {
        deploy_phase: DeployPhase::Failed,
        app_readiness_phase: AppReadinessPhase::AppReadinessFailed,
        error_code: Some("target_resolution_failed"),
        error_message: Some("e".to_owned()),
        operation_status: Some("FAILED"),
    });
    assert_eq!(
        failed(DeployStage::ResolveTarget),
        vec![
            no_machine,
            DeployEffect::RestoreRecord,
            remark("e"),
            failed_mark()
        ]
    );
    assert_eq!(
        failed(DeployStage::BuildBundle),
        vec![remark("e"), failed_mark()]
    );
    assert_eq!(
        failed(DeployStage::UpdateDns),
        vec![DeployEffect::RollBack, remark("e"), failed_mark()]
    );
    assert_eq!(
        failed(DeployStage::RestartAgent),
        vec![DeployEffect::RollBack, failed_mark()]
    );
    assert!(failed(DeployStage::ResolveFinalTarget).is_empty());
    assert_eq!(
        failed(DeployStage::SyncLocalConfig),
        vec![DeployEffect::RollBack, failed_mark()]
    );
}

#[test]
fn runtimes_that_do_not_serve_are_undone_and_told() {
    let unready = |diagnostics: Option<&str>| StageOutcome::NotReady {
        failure: "e".to_owned(),
        diagnostics: diagnostics.map(|words| words.to_owned()),
    };
    assert_eq!(
        failing(DeployStage::VerifyRuntime, unready(Some("d"))).0,
        DeployNext::Refuse {
            effects: vec![
                remark("edge-agent diagnostics: d"),
                remark("e"),
                DeployEffect::RollBack,
                failed_mark(),
            ],
            failure: "e".to_owned(),
        }
    );
    assert_eq!(
        failing(DeployStage::VerifyRuntime, unready(None)).0,
        DeployNext::Refuse {
            effects: vec![remark("e"), DeployEffect::RollBack, failed_mark()],
            failure: "e".to_owned(),
        }
    );
    let response = BootstrapRuntimeResponse {
        success: false,
        mode: 1,
        exit_code: 4,
        stdout: String::new(),
        stderr: String::new(),
        warnings: words(&["w"]),
    };
    assert_eq!(
        failing(DeployStage::BootstrapBase, StageOutcome::NotStarted(response)).0,
        DeployNext::Answer {
            effects: vec![
                DeployEffect::RollBack,
                remark("bootstrap-runtime BOOTSTRAP_BASE failed with exit code 4: warnings: w"),
                failed_mark(),
            ],
            success: false,
            warnings: words(&["w"]),
        }
    );
    let no_proxy = DeployEffect::Record(PhaseRecord {
        deploy_phase: DeployPhase::Failed,
        app_readiness_phase: AppReadinessPhase::AppReadinessFailed,
        error_code: Some("local_runtime_start_failed"),
        error_message: Some("no binary".to_owned()),
        operation_status: Some("FAILED"),
    });
    assert_eq!(
        failing(
            DeployStage::RestartLocalRuntime,
            StageOutcome::Failed("no binary".to_owned())
        )
        .0,
        DeployNext::Answer {
            effects: vec![
                no_proxy,
                remark("local sing-box start failed: no binary"),
                failed_mark(),
            ],
            success: false,
            warnings: words(&["no binary"]),
        }
    );
}

#[test]
fn refusals_name_the_stage_and_the_rollback() {
    let refusal = deploy_refusal(
        DeployStage::PersistBundle,
        "disk full".to_owned(),
        &words(&["a", "b"]),
    );
    assert_eq!(refusal.code, StatusCode::Internal);
    assert_eq!(
        refusal.message,
        "failed to persist deployment state: disk full; rollback warnings: a; b"
    );
    let refusal = deploy_refusal(DeployStage::UpdateDns, "no zone".to_owned(), &vec![]);
    assert_eq!(refusal.message, "no zone");
    let refusal = deploy_refusal(
        DeployStage::ResolveTarget,
        "transport error".to_owned(),
        &vec![],
    );
    assert_eq!(refusal.code, StatusCode::Unavailable);
    assert_eq!(format_rollback_warnings(&vec![]), "");
    assert_eq!(
        target_event(&target(true)),
        "target resolved: instance-1 (203.0.113.10) [created]"
    );
    assert_eq!(
        merge_warnings(words(&["a"]), words(&["b"])),
        words(&["a", "b"])
    );
}

fn selector(desired: &str, observed: Option<&str>) -> SelectorState {
    SelectorState {
        desired_main_route: Some(desired.to_owned()),
        observed_main_route: observed.map(|o| o.to_owned()),
        degraded: false,
        proxy_groups: vec![],
        warnings: vec![],
    }
}

fn trace(available: bool, note: Option<&str>) -> TraceObservation {
    TraceObservation {
        available,
        ip: None,
        note: note.map(|n| n.to_owned()),
    }
}

#[test]
fn degraded_deployments_are_complete_with_warnings() {
    let degraded = |code: &'static str, message: &str| {
        DeployEffect::Record(PhaseRecord {
            deploy_phase: DeployPhase::Completed,
            app_readiness_phase: AppReadinessPhase::AppReadinessFailed,
            error_code: Some(code),
            error_message: Some(message.to_owned()),
            operation_status: Some("SUCCEEDED"),
        })
    };
    let routes = StageOutcome::Routes {
        desktop: selector("a", Some("b")),
        ubuntu: selector("c", None),
        reconcile_warnings: words(&["w"]),
    };
    assert_eq!(
        failing(DeployStage::VerifySelectors, routes).0,
        DeployNext::Answer {
            effects: vec![
                degraded(
                    "selector_reconcile_failed",
                    "one or more selector groups did not converge to persisted intent"
                ),
                remark(
                    "selector verification failed after local runtime start; deployment completed in degraded state"
                ),
            ],
            success: true,
            warnings: words(&[
                "w",
                "desktop desired=Some(\"a\") observed=Some(\"b\"); ubuntu desired=Some(\"c\") observed=None"
            ]),
        }
    );
    let ways = StageOutcome::Ways {
        desktop_trace: trace(false, Some("timeout")),
        ubuntu_trace: trace(true, None),
        apply_warnings: words(&["applied"]),
        reconcile_warnings: words(&["w"]),
    };
    assert_eq!(
        failing(DeployStage::VerifyEgress, ways).0,
        DeployNext::Answer {
            effects: vec![
                degraded("egress_trace_failed", "desktop or ubuntu egress trace failed"),
                remark("egress trace verification failed; deployment completed in degraded state"),
            ],
            success: true,
            warnings: words(&["w", "timeout", "ubuntu trace unavailable"]),
        }
    );
}

#[test]
fn names_are_set_and_removed() {
    assert_eq!(
        dns_names(&None, &Some("n".to_owned())),
        ("alegria.by".to_owned(), "n".to_owned())
    );
    assert_eq!(
        apply_dns_update(false, "n", "203.0.113.1", "z"),
        "DNS updated: n -> 203.0.113.1 (z)"
    );
    assert_eq!(
        apply_dns_update(true, "n", "203.0.113.1", "z"),
        "mock DNS updated: n -> 203.0.113.1 (z)"
    );
    assert_eq!(
        delete_dns_record(true, "n"),
        "mock DNS delete requested for n"
    );
    assert!(missing_dns_token(true).ends_with("to delete DNS record"));
    let mut mock = request();
    mock.mock_provider = true;
    mock.skip_dns = true;
    let seen = provider_observation_from_request(&mock, " ");
    assert!(!seen.configured);
    assert_eq!(seen.warnings.len(), 3);
}

#[test]
fn runtimes_are_waited_for() {
    let verdict = |ready: bool| RuntimeVerdict {
        ready,
        degraded_reasons: words(&["x", "y"]),
    };
    assert_eq!(
        wait_for_agent_runtime_target(19, true, Ok(verdict(false))),
        WaitNext::Done(Err(
            "edge-agent responded but readiness is false: x; y".to_owned()
        ))
    );
    assert_eq!(
        wait_for_agent_runtime_target(0, true, Ok(verdict(false))),
        WaitNext::Again
    );
    assert_eq!(
        wait_for_agent_runtime_target(0, false, Ok(verdict(false))),
        WaitNext::Done(Ok(verdict(false)))
    );
    assert_eq!(
        wait_for_agent_runtime_target(19, true, Err("down".to_owned())),
        WaitNext::Done(Err("down".to_owned()))
    );
}

#[test]
fn rollbacks_are_told_part_by_part() {
    let (events, warnings) = rollback_failed_deploy(&RollbackOutcome {
        dns: Some(Ok("DNS delete requested for n".to_owned())),
        machine: Some(MachineRollback::Removed(DestroyInstanceOutcome::Requested)),
        record: Ok(()),
    });
    assert!(warnings.is_empty());
    assert_eq!(
        events,
        words(&[
            "rollback started",
            "DNS delete requested for n",
            "rollback requested instance destroy",
            "rollback restored local deployment state",
            "rollback completed",
        ])
    );
    let (events, warnings) = rollback_failed_deploy(&RollbackOutcome {
        dns: Some(Err("a".to_owned())),
        machine: Some(MachineRollback::NoKey("b".to_owned())),
        record: Err("c".to_owned()),
    });
    assert_eq!(
        warnings,
        words(&[
            "rollback DNS cleanup failed: a",
            "rollback could not resolve Vultr API key secret: b",
            "rollback state restore failed: c",
        ])
    );
    assert_eq!(events.len(), 2);
    let undo = rollback_dns_request(&request(), &target(true));
    assert!(undo.delete_dns && !undo.delete_instance);
    assert_eq!(undo.lifecycle_reason.as_deref(), Some("deploy_rollback"));
}

fn destroy_request() -> DestroyRequest {
    DestroyRequest {
        instance_id: Some("  ".to_owned()),
        target_ip: None,
        dns_record_name: None,
        cloudflare_zone_name: None,
        mock_provider: false,
        delete_dns: true,
        delete_instance: true,
        lifecycle_reason: Some(" upgrade ".to_owned()),
    }
}

fn recorded() -> DeploymentSummary {
    DeploymentSummary {
        live_state_present: true,
        source_state_path: None,
        deployment_label: Some("waw-edge-1".to_owned()),
        instance_id: Some("instance-1".to_owned()),
        server_ip: Some("203.0.113.10".to_owned()),
        tunnel_domain: None,
    }
}

#[test]
fn only_the_recorded_machine_is_taken_down() {
    let request = normalize_destroy_request(destroy_request());
    assert_eq!(request.instance_id, None);
    assert_eq!(request.lifecycle_reason.as_deref(), Some("upgrade"));
    let aim = choose_destroy_target(&request, &recorded());
    assert_eq!(aim.instance_id, "instance-1");
    assert_eq!(
        destroy_target_event(&aim, &recorded()),
        "destroy target recorded: id=instance-1 label=waw-edge-1 ip=203.0.113.10"
    );
    let mine = check_destroy_target(&aim, &recorded()).unwrap();
    let mut remote = mock_instance("waw-edge-1", "waw", "p", "203.0.113.10");
    remote.id = "instance-1".to_owned();
    assert_eq!(
        verify_destroy_identity(&remote, &mine, &aim),
        Ok("destroy target verified: id=instance-1 label=waw-edge-1 ip=203.0.113.10".to_owned())
    );
    remote.label = "other".to_owned();
    assert_eq!(
        verify_destroy_identity(&remote, &mine, &aim),
        Err(
            "destroy refused: expected id=instance-1 label=waw-edge-1 ip=203.0.113.10; provider returned id=instance-1 label=other ip=203.0.113.10"
                .to_owned()
        )
    );
}

#[test]
fn destroys_are_refused_for_foreign_machines() {
    let refusal = |r: Result<RecordedMachine, DestroyRefusal>| {
        let refused = r.unwrap_err();
        assert_eq!(refused.status.code, StatusCode::FailedPrecondition);
        refused.stage
    };
    let aim = || DestroyTarget {
        instance_id: "instance-1".to_owned(),
        target_ip: "203.0.113.10".to_owned(),
    };
    let mut unlabelled = recorded();
    unlabelled.deployment_label = None;
    assert_eq!(
        refusal(check_destroy_target(&aim(), &unlabelled)),
        "read recorded label"
    );
    let mut nameless = recorded();
    nameless.instance_id = None;
    assert_eq!(
        refusal(check_destroy_target(&aim(), &nameless)),
        "read recorded instance id"
    );
    let mut foreign = recorded();
    foreign.deployment_label = Some("edge-1".to_owned());
    assert_eq!(
        refusal(check_destroy_target(&aim(), &foreign)),
        "target validation"
    );
    let mut other = aim();
    other.instance_id = "instance-2".to_owned();
    assert_eq!(
        refusal(check_destroy_target(&other, &recorded())),
        "target validation"
    );
    assert_eq!(
        fail_destroy_operation("target validation", "no"),
        "destroy failed at target validation: no"
    );
}

fn go(note: Option<(&str, Option<&'static str>)>, warnings: &[&str]) -> DestroyNext {
    DestroyNext::Go {
        note: note.map(|(text, stage)| DestroyNote {
            text: text.to_owned(),
            stage,
        }),
        warnings: words(warnings),
    }
}

fn remote(label: &str) -> VultrInstance {
    let mut remote = mock_instance(label, "waw", "p", "203.0.113.10");
    remote.id = "instance-1".to_owned();
    remote
}

fn begun(request: &DestroyRequest) -> DestroyRun {
    let aim = choose_destroy_target(request, &recorded());
    DestroyRun::new(request, aim, &recorded()).unwrap()
}

#[test]
fn destroys_go_through_their_steps() {
    let request = normalize_destroy_request(destroy_request());
    assert_eq!(
        destroy_request_events(&request),
        words(&["destroy requested", "lifecycle reason: upgrade"])
    );
    let mut run = begun(&request);
    assert_eq!(run.target.kept().0.as_deref(), Some("instance-1"));
    let done = |text: &str| DestroyOutcome::Done(text.to_owned());
    assert_eq!(run.step, DestroyStep::ReadCredential);
    assert_eq!(run.destroy(done("")), go(None, &[]));
    assert_eq!(run.step, DestroyStep::ReadMachine);
    assert_eq!(
        run.destroy(DestroyOutcome::Machine(remote("waw-edge-1"))),
        go(
            Some((
                "destroy target verified: id=instance-1 label=waw-edge-1 ip=203.0.113.10",
                None
            )),
            &[]
        )
    );
    assert_eq!(run.step, DestroyStep::DeleteDns);
    assert_eq!(
        run.destroy(done("gone")),
        go(Some(("gone", Some("record DNS deletion"))), &[])
    );
    assert_eq!(run.step, DestroyStep::ReadCredentialAgain);
    assert_eq!(run.destroy(done("")), go(None, &[]));
    assert_eq!(run.step, DestroyStep::DeleteInstance);
    let absent =
        "Vultr instance instance-1 was already absent; authoritative state was reconciled locally";
    assert_eq!(
        run.destroy(DestroyOutcome::Removed(DestroyInstanceOutcome::AlreadyAbsent)),
        go(Some((absent, None)), &[absent])
    );
    assert_eq!(run.step, DestroyStep::StopLocalRuntime);
    assert_eq!(
        run.destroy(DestroyOutcome::Stopped(Ok((
            "stopped".to_owned(),
            words(&["sing-box process is not running", "slow"]),
        )))),
        go(
            Some((
                "destroy local runtime stop: stopped",
                Some("stop local runtime")
            )),
            &["slow"]
        )
    );
    assert_eq!(run.step, DestroyStep::ClearState);
    assert_eq!(run.destroy(done("")), go(None, &[]));
    assert_eq!(run.step, DestroyStep::Finished);
}

#[test]
fn a_machine_at_another_address_than_the_recorded_one_is_kept() {
    let mut request = normalize_destroy_request(destroy_request());
    request.target_ip = Some("203.0.113.9".to_owned());
    let mut run = begun(&request);
    assert_eq!(run.destroy(DestroyOutcome::Done(String::new())), go(None, &[]));
    let mut moved = remote("waw-edge-1");
    moved.main_ip = "203.0.113.9".to_owned();
    let words = "destroy refused: expected id=instance-1 label=waw-edge-1 ip=203.0.113.10; provider returned id=instance-1 label=waw-edge-1 ip=203.0.113.9";
    match run.destroy(DestroyOutcome::Machine(moved)) {
        DestroyNext::Refuse { note, refusal } => {
            assert_eq!(note.map(|note| note.text).as_deref(), Some(words));
            assert_eq!(refusal.stage, "provider identity verification");
            assert_eq!(refusal.status.code, StatusCode::FailedPrecondition);
            assert_eq!(refusal.status.message, words);
        }
        other => panic!("{other:?}"),
    }
    assert_eq!(run.step, DestroyStep::ReadMachine);
    match run.destroy(DestroyOutcome::Machine(remote("waw-edge-1"))) {
        DestroyNext::Refuse { refusal, .. } => assert_eq!(
            refusal.status.message,
            "destroy refused: expected id=instance-1 label=waw-edge-1 ip=203.0.113.9; provider returned id=instance-1 label=waw-edge-1 ip=203.0.113.10"
        ),
        other => panic!("{other:?}"),
    }
}

#[test]
fn a_given_address_counts_where_none_is_recorded() {
    let mut request = normalize_destroy_request(destroy_request());
    request.target_ip = Some("203.0.113.10".to_owned());
    let mut bare = recorded();
    bare.server_ip = None;
    let aim = choose_destroy_target(&request, &bare);
    let mut run = DestroyRun::new(&request, aim, &bare).unwrap();
    assert_eq!(run.recorded.as_ref().unwrap().server_ip, None);
    run.step = DestroyStep::ReadMachine;
    assert!(matches!(
        run.destroy(DestroyOutcome::Machine(remote("waw-edge-1"))),
        DestroyNext::Go { .. }
    ));
    assert_eq!(run.step, DestroyStep::DeleteDns);
}

#[test]
fn mock_destroys_leave_the_provider_alone() {
    let mut request = normalize_destroy_request(destroy_request());
    request.mock_provider = true;
    let run = begun(&request);
    assert_eq!(run.step, DestroyStep::DeleteDns);
    request.delete_dns = false;
    assert_eq!(begun(&request).step, DestroyStep::StopLocalRuntime);
    let aim = choose_destroy_target(&request, &recorded());
    let course = plan_destroy(&request, &aim);
    assert!(!course.verifies_provider && !course.deletes_dns && !course.deletes_instance);
}

#[test]
fn failed_destroys_name_their_stage() {
    let request = normalize_destroy_request(destroy_request());
    let refused = |run: &mut DestroyRun, outcome: DestroyOutcome| {
        let before = run.step;
        match run.destroy(outcome) {
            DestroyNext::Refuse { note, refusal } => {
                assert_eq!(run.step, before);
                (note, refusal.stage, refusal.status.code, refusal.status.message)
            }
            other => panic!("{other:?}"),
        }
    };
    let failed = || DestroyOutcome::Failed("e".to_owned());
    let mut run = begun(&request);
    assert_eq!(
        refused(&mut run, failed()),
        (
            None,
            "resolve Vultr credential",
            StatusCode::Internal,
            "e".to_owned()
        )
    );
    run.step = DestroyStep::ReadMachine;
    assert_eq!(refused(&mut run, failed()).1, "read VM from Vultr");
    let (note, stage, code, message) =
        refused(&mut run, DestroyOutcome::Machine(remote("waw-edge-2")));
    assert_eq!(stage, "provider identity verification");
    assert_eq!(code, StatusCode::FailedPrecondition);
    assert!(message.starts_with("destroy refused: expected id=instance-1 label=waw-edge-1"));
    assert_eq!(note.map(|note| note.text), Some(message));
    run.step = DestroyStep::ClearState;
    assert_eq!(
        refused(&mut run, failed()),
        (
            None,
            "clear local deployment state",
            StatusCode::Internal,
            "failed to clear deployment state: e".to_owned()
        )
    );
    assert_eq!(
        destroy_stage_name(DestroyStep::ReadCredentialAgain),
        "resolve Vultr credential for deletion"
    );
}

#[test]
fn destroys_are_answered_with_their_warnings() {
    let aim = DestroyTarget {
        instance_id: "instance-1".to_owned(),
        target_ip: " ".to_owned(),
    };
    let (event, warning) = instance_removed("i", DestroyInstanceOutcome::AlreadyAbsent);
    assert_eq!(warning, Some(event));
    let (event, told) = stop_local_runtime_for_destroy(&Err("denied".to_owned()));
    assert_eq!(told, vec![event]);
    let answer = finish_destroy(&aim, recorded(), words(&["w"]));
    assert_eq!(
        answer.warnings,
        words(&["w", "destroy completed without a known target IP"])
    );
    assert_eq!(answer.deployment, Some(recorded()));
}

#[test]
fn answers_tell_how_the_deployment_ended() {
    let bundle = |tunnel_enabled: bool| BundleName {
        label: "edge-a".to_owned(),
        tunnel_enabled,
        tunnel_domain: "edge.example.com".to_owned(),
    };
    let end = |stage: DeployStage, outcome: StageOutcome, undone: &[&str]| {
        let (_, next) = at(stage).execute(RollbackPolicy::strict(), true, outcome);
        match next {
            DeployNext::Answer {
                success, warnings, ..
            } => answer_deploy(
                &request(),
                &target(false),
                bundle(true),
                None,
                success,
                warnings,
                words(undone),
            ),
            other => panic!("{other:?}"),
        }
    };
    let stage = DeployStage::VerifyEgress;
    let done = end(stage, worked(stage), &[]);
    assert!(done.success);
    assert_eq!(done.operation_status, "SUCCEEDED");
    assert_eq!(done.warnings, ["applied", "w"]);
    let told = done.deployment.unwrap();
    assert!(told.live_state_present);
    assert_eq!(told.deployment_label.as_deref(), Some("edge-a"));
    assert_eq!(told.instance_id.as_deref(), Some("instance-1"));
    assert_eq!(told.server_ip.as_deref(), Some("203.0.113.10"));
    assert_eq!(told.tunnel_domain.as_deref(), Some("edge.example.com"));
    assert!(done.provider.unwrap().configured);

    let shut = StageOutcome::Ways {
        desktop_trace: trace(false, Some("no way")),
        ubuntu_trace: trace(true, None),
        apply_warnings: vec![],
        reconcile_warnings: vec![],
    };
    let degraded = end(stage, shut, &[]);
    assert!(degraded.success);
    assert_eq!(degraded.operation_status, "SUCCEEDED");
    assert_eq!(degraded.warnings, ["no way", "ubuntu trace unavailable"]);

    let astray = StageOutcome::Routes {
        desktop: selector("a", Some("b")),
        ubuntu: selector("b", Some("b")),
        reconcile_warnings: vec![],
    };
    let degraded = end(DeployStage::VerifySelectors, astray, &[]);
    assert!(degraded.success && degraded.warnings.len() == 1);

    let failed = end(
        DeployStage::RestartLocalRuntime,
        StageOutcome::Failed("no proxy".to_owned()),
        &[],
    );
    assert!(!failed.success && failed.deployment.is_some());
    assert_eq!(failed.operation_status, "FAILED");
    assert_eq!(failed.warnings, ["no proxy"]);

    let unstarted = StageOutcome::NotStarted(BootstrapRuntimeResponse {
        success: false,
        mode: 1,
        exit_code: 4,
        stdout: String::new(),
        stderr: String::new(),
        warnings: words(&["slow"]),
    });
    let failed = end(DeployStage::BootstrapBase, unstarted, &["name kept"]);
    assert!(!failed.success);
    assert_eq!(failed.operation_status, "FAILED");
    assert_eq!(failed.warnings, ["slow", "name kept"]);
}
