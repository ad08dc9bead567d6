use edge_controller::records::{
    ArtifactChange, DeployPhase, StoredControllerState, choose_candidate,
    latest_deploy_attempt_label, needs_transition_check, parse_tunnel_domain_from_state_json,
    persist_bundle_locally, read_live_deployment_summary, reconcile_active_deployment_state,
    reconcile_provider_active_deployment_state, rollback_artifact, rollback_live_deployment_state,
};
use edge_controller::provider::VultrInstance;
use edge_controller::status::AppReadinessPhase;
use edge_controller::trust::{ResolvedDeployTarget, StoredDeployment};

const OLD_STATE: &str = r#"{"label":"edge-old","instance_id":"instance-old","ip":"203.0.113.50","tunnel":{"domain":"edge.example.com"}}"#;

fn empty_record() -> StoredControllerState {
    StoredControllerState {
        active_deployment_label: None,
        active_instance_id: None,
        active_server_ip: None,
        active_tunnel_domain: None,
        active_deployment_state_json: None,
        deploy_phase: DeployPhase::Unspecified,
        app_readiness_phase: AppReadinessPhase::DeploymentAbsent,
        last_error_code: None,
        last_error_message: None,
    }
}

fn old_record() -> StoredControllerState {
    StoredControllerState {
        active_deployment_label: Some("edge-old".to_owned()),
        active_instance_id: Some("instance-old".to_owned()),
        active_server_ip: Some("203.0.113.50".to_owned()),
        active_tunnel_domain: Some("edge.example.com".to_owned()),
        active_deployment_state_json: Some(OLD_STATE.to_owned()),
        deploy_phase: DeployPhase::DeploymentPublished,
        app_readiness_phase: AppReadinessPhase::ServerRuntimeReady,
        last_error_code: None,
        last_error_message: None,
    }
}

fn machine(id: &str, label: &str, ip: &str) -> VultrInstance {
    VultrInstance {
        id: id.to_owned(),
        label: label.to_owned(),
        region: "waw".to_owned(),
        plan: "vc2-1c-1gb".to_owned(),
        status: "active".to_owned(),
        server_status: "ok".to_owned(),
        power_status: "running".to_owned(),
        main_ip: ip.to_owned(),
        v6_main_ip: String::new(),
        firewall_group_id: String::new(),
        date_created: String::new(),
        tags: vec![],
        os_id: 2625,
        snapshot_id: None,
        enable_ipv6: true,
    }
}

#[test]
fn reads_live_deployment_summary_from_state_file() {
    let raw = r#"{"label":"edge-a","instance_id":"instance-1","ip":"203.0.113.5","tunnel":{"domain":"edge.example.com"}}"#;
    let summary =
        read_live_deployment_summary(None, "db", &Some(raw.to_owned()), "current-edge.json")
            .unwrap();
    assert_eq!(summary.deployment_label.as_deref(), Some("edge-a"));
    assert_eq!(summary.instance_id.as_deref(), Some("instance-1"));
    assert_eq!(summary.server_ip.as_deref(), Some("203.0.113.5"));
    assert_eq!(summary.tunnel_domain.as_deref(), Some("edge.example.com"));
    assert_eq!(
        summary.source_state_path.as_deref(),
        Some("current-edge.json")
    );
}

#[test]
fn the_record_is_told_before_the_state() {
    let mut record = old_record();
    record.active_server_ip = None;
    record.active_deployment_label = Some("edge-recorded".to_owned());
    let summary = read_live_deployment_summary(Some(record), "db", &None, "file").unwrap();
    assert_eq!(summary.deployment_label.as_deref(), Some("edge-recorded"));
    assert_eq!(summary.server_ip.as_deref(), Some("203.0.113.50"));
    assert_eq!(summary.source_state_path.as_deref(), Some("db"));
    let empty = read_live_deployment_summary(
        Some(empty_record()),
        "db",
        &Some(OLD_STATE.to_owned()),
        "file",
    )
    .unwrap();
    assert!(!empty.live_state_present);
    let missing = read_live_deployment_summary(None, "db", &None, "file").unwrap();
    assert!(!missing.live_state_present);
}

#[test]
fn states_that_are_no_documents_are_errors() {
    let error = read_live_deployment_summary(None, "db", &Some("{".to_owned()), "file")
        .unwrap_err();
    assert!(error.starts_with("failed to parse file: "));
    let mut record = empty_record();
    record.active_deployment_state_json = Some("nope".to_owned());
    let error = read_live_deployment_summary(Some(record), "db", &None, "file").unwrap_err();
    assert!(error.starts_with("failed to parse controller deployment state JSON: "));
    let error = parse_tunnel_domain_from_state_json("[").unwrap_err();
    assert!(error.starts_with("failed to parse deployment state JSON: "));
    assert_eq!(
        parse_tunnel_domain_from_state_json(OLD_STATE),
        Ok(Some("edge.example.com".to_owned()))
    );
    assert_eq!(
        parse_tunnel_domain_from_state_json(r#"{"tunnel":"x"}"#),
        Ok(None)
    );
}

#[test]
fn rollback_restores_previous_live_state_and_clears_new_rows() {
    let previous = Some(r#"{"label":"old","instance_id":"instance-1"}"#.to_owned());
    let change = rollback_artifact(&previous, &None, true);
    assert!(matches!(change, ArtifactChange::Write(raw) if raw.contains(r#""label":"old""#)));
    let record = rollback_live_deployment_state(&previous, None).unwrap();
    assert_eq!(record.active_deployment_label.as_deref(), Some("old"));
    assert_eq!(record.active_instance_id.as_deref(), Some("instance-1"));
    assert_eq!(record.deploy_phase, DeployPhase::DeploymentPublished);
}

#[test]
fn rollback_restores_controller_snapshot_when_file_snapshot_is_missing() {
    let change = rollback_artifact(&None, &Some(old_record()), true);
    assert!(matches!(change, ArtifactChange::Write(raw) if raw.contains(r#""label":"edge-old""#)));
    let record = rollback_live_deployment_state(&None, Some(old_record())).unwrap();
    assert_eq!(record.active_deployment_label.as_deref(), Some("edge-old"));
    assert_eq!(record, old_record());
}

#[test]
fn rollback_is_idempotent_for_same_snapshot() {
    let snapshot = old_record;
    let once = rollback_live_deployment_state(&None, Some(snapshot())).unwrap();
    let file = rollback_artifact(&None, &Some(snapshot()), true);
    assert!(matches!(&file, ArtifactChange::Write(raw) if raw.contains(r#""label":"edge-old""#)));
    let twice = rollback_live_deployment_state(&None, Some(snapshot())).unwrap();
    assert_eq!(rollback_artifact(&None, &Some(snapshot()), true), file);
    assert_eq!(twice.active_deployment_label.as_deref(), Some("edge-old"));
    assert_eq!(twice, once);
    assert_eq!(
        rollback_live_deployment_state(&None, Some(twice)).unwrap(),
        old_record()
    );
}

#[test]
fn rollback_to_nothing_leaves_nothing() {
    assert_eq!(rollback_artifact(&None, &None, true), ArtifactChange::Remove);
    assert_eq!(rollback_artifact(&None, &None, false), ArtifactChange::Keep);
    assert_eq!(
        rollback_live_deployment_state(&None, None),
        Ok(empty_record())
    );
    let error = rollback_live_deployment_state(&Some("{".to_owned()), None).unwrap_err();
    assert!(error.starts_with("failed to parse rollback current state JSON: "));
}

#[test]
fn rollback_completes_a_record_by_its_state() {
    let mut record = old_record();
    record.active_tunnel_domain = None;
    record.active_deployment_state_json = None;
    let restored =
        rollback_live_deployment_state(&Some(OLD_STATE.to_owned()), Some(record)).unwrap();
    assert_eq!(
        restored.active_tunnel_domain.as_deref(),
        Some("edge.example.com")
    );
    assert_eq!(
        restored.active_deployment_state_json.as_deref(),
        Some(OLD_STATE)
    );
}

#[test]
fn reconcile_restores_active_deployment_from_latest_deployment() {
    let raw = r#"{"label":"edge-recovered","instance_id":"instance-7","ip":"203.0.113.7","tunnel":{"domain":"edge.example.com"}}"#;
    let record = reconcile_active_deployment_state(
        Some(raw.to_owned()),
        &None,
        Some(StoredDeployment {
            deployment_label: "edge-recovered".to_owned(),
            instance_id: "instance-7".to_owned(),
            server_ip: "203.0.113.7".to_owned(),
        }),
    )
    .unwrap()
    .unwrap();
    assert_eq!(
        record.active_deployment_label.as_deref(),
        Some("edge-recovered")
    );
    assert!(
        record
            .active_deployment_state_json
            .as_deref()
            .is_some_and(|value| value.contains(r#""instance_id":"instance-7""#))
    );
    assert_eq!(
        record.active_tunnel_domain.as_deref(),
        Some("edge.example.com")
    );
}

#[test]
fn reconcile_does_not_restore_authority_without_live_state_artifact() {
    let record = reconcile_active_deployment_state(
        None,
        &Some(empty_record()),
        Some(StoredDeployment {
            deployment_label: "edge-stale".to_owned(),
            instance_id: "instance-stale".to_owned(),
            server_ip: "203.0.113.44".to_owned(),
        }),
    )
    .unwrap();
    assert!(record.is_none());
}

#[test]
fn reconcile_leaves_a_record_alone() {
    let record = reconcile_active_deployment_state(
        Some(OLD_STATE.to_owned()),
        &Some(old_record()),
        Some(StoredDeployment {
            deployment_label: "edge-new".to_owned(),
            instance_id: "instance-new".to_owned(),
            server_ip: "203.0.113.9".to_owned(),
        }),
    );
    assert_eq!(record, Ok(None));
}

#[test]
fn the_latest_label_is_read_off_the_journal() {
    let events = |list: &[&str]| -> Vec<String> { list.iter().map(|e| (*e).to_owned()).collect() };
    assert_eq!(
        latest_deploy_attempt_label(&events(&[
            "deploy requested",
            "deployment label reserved: waw-edge-1",
            "deployment label reserved: waw-edge-2",
        ])),
        Some("waw-edge-1".to_owned())
    );
    assert_eq!(latest_deploy_attempt_label(&events(&["deploy requested"])), None);
}

#[test]
fn candidates_are_found_by_label_or_alone() {
    let one = machine("i-1", "waw-edge-1", "203.0.113.1");
    let two = machine("i-2", "waw-edge-2", "203.0.113.2");
    let both = vec![one.clone(), two.clone()];
    assert_eq!(
        choose_candidate(&both, &Some("waw-edge-2".to_owned()), &None),
        Ok(Some(two.clone()))
    );
    assert_eq!(choose_candidate(&both, &None, &None), Ok(None));
    assert_eq!(
        choose_candidate(&vec![one.clone()], &None, &None),
        Ok(Some(one.clone()))
    );
    assert_eq!(
        choose_candidate(&vec![one.clone()], &None, &Some("i-1".to_owned())),
        Ok(None)
    );
    let error = choose_candidate(
        &vec![one.clone(), one.clone()],
        &Some("waw-edge-1".to_owned()),
        &None,
    )
    .unwrap_err();
    assert!(error.contains("ambiguous Vultr instance identity"));
}

#[test]
fn provider_machines_are_adopted_once() {
    let found = machine("i-1", "waw-edge-1", "203.0.113.1");
    let record = reconcile_provider_active_deployment_state(&found, false, &None).unwrap();
    assert_eq!(record.active_deployment_label.as_deref(), Some("waw-edge-1"));
    assert_eq!(record.active_tunnel_domain.as_deref(), Some("edge.alegria.by"));
    assert_eq!(record.deploy_phase, DeployPhase::InstanceAddressAssigned);
    assert_eq!(
        record.app_readiness_phase,
        AppReadinessPhase::DeploymentAbsent
    );
    assert_eq!(
        reconcile_provider_active_deployment_state(&found, false, &Some(record)),
        None
    );
    assert_eq!(
        reconcile_provider_active_deployment_state(&found, true, &None),
        None
    );
    let mut moved = old_record();
    moved.active_instance_id = Some("i-1".to_owned());
    let record = reconcile_provider_active_deployment_state(&found, false, &Some(moved)).unwrap();
    assert_eq!(record.deploy_phase, DeployPhase::DeploymentPublished);
    assert_eq!(
        record.active_deployment_state_json.as_deref(),
        Some(OLD_STATE)
    );
}

#[test]
fn published_deployments_are_recorded() {
    let target = ResolvedDeployTarget {
        instance_id: "instance-1".to_owned(),
        target_ip: "203.0.113.10".to_owned(),
        created_instance: true,
    };
    let record = persist_bundle_locally("waw-edge-1", &target, OLD_STATE).unwrap();
    assert_eq!(record.active_instance_id.as_deref(), Some("instance-1"));
    assert_eq!(
        record.active_tunnel_domain.as_deref(),
        Some("edge.example.com")
    );
    let error = persist_bundle_locally("waw-edge-1", &target, "{").unwrap_err();
    assert!(error.starts_with("failed to parse rendered current state JSON: "));
    assert!(needs_transition_check(
        Some(DeployPhase::Requested),
        DeployPhase::Failed
    ));
    assert!(!needs_transition_check(
        Some(DeployPhase::Failed),
        DeployPhase::Failed
    ));
    assert!(!needs_transition_check(None, DeployPhase::Failed));
}
