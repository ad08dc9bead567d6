use edge_controller::adapter::{
    DecodedTags, nonempty, normalize_vultr_instance, normalize_vultr_inventory,
    normalize_vultr_inventory_with_firewall_profiles,
};
use edge_controller::access::VerifiedFirewalls;
use edge_controller::bootstrap::InstanceAction;
use edge_controller::cleanup::Ownership;
use edge_controller::doctor::{
    Guardrails, OwnedResourceSelectors, RequiredClientContract, ZeroTrustBoundary,
    assemble_report, env_true, is_warp_application, matching_profiles, report_connectors,
    report_enrollment, report_gateway, report_manual, report_mesh_profile, report_settings,
    validate_guardrails,
};
use edge_controller::machine::{
    DesiredState, MachinePlan, MachineProvider, MachineSpec, PlanClass, PlanDisposition,
    firewall_profile_names, machine_by_id,
};
use edge_controller::mesh;
use edge_controller::mesh::{
    DesiredMeshState, DesiredVpcState, Ipv4AddressObservation, Ipv4LinkObservation,
    Ipv4NetworkObservation, Ipv4RouteObservation, MeshCommand, MeshRouteSpec, MeshRuntimeState,
    MeshRuntimeStep, TargetInstance, VpcReadyReport, check_mesh_runtime,
    compose_verified_vpc_route, validated_vpc_route, evaluate_guest_vpc_network, read_mesh_command,
};
use edge_controller::provider::VultrInstance;
use edge_controller::substrate::{
    HostSubstrateAction, HostSubstrateExecutionPolicy, HostSubstrateObservation, HostSubstratePlan, StrictSshFailureClass,
    StrictSshSight, StrictSshState, SubstrateChange, SubstrateNext, apply_host_substrate_once,
    authorize_host_substrate, check_substrate_attempts, complete_host_substrate,
    observe_host_substrate, report_host_substrate, strict_ssh_observed, strict_state,
};
use edge_controller::support::ResolvedFirewallProfile;
use edge_controller::vpc_command;
use edge_controller::vpc_command::{VpcCommand, read_vpc_command};
use edge_controller::vultr_command;
use edge_controller::vultr_command::{
    AccessPurpose, AccessReconcileClass, GuardedCommand, GuardedCourse, VultrCommand,
    access_reconcile_class, check_bootstrap_profile, check_converged, check_observed_identity,
    find_action_target, first_plan, guard, guard_action, instance_action_disposition,
    load_firewall_profiles, plan_access_acquisition, plan_access_release, read_vultr_command,
    require_firewall_profile, resolve_create_prerequisites,
};
use edge_controller::zero_trust::{
    DeviceProfile, GatewayRule, SplitTunnelEntry, ZeroTrustCommand, read_zero_trust_command,
};

fn words(list: &[&str]) -> Vec<String> {
    list.iter().map(|w| (*w).to_owned()).collect()
}

fn ready_report(cidr: &str, private_ipv4: &str) -> VpcReadyReport {
    VpcReadyReport {
        status: "PASS",
        target: TargetInstance {
            provider_id: "instance-1".to_owned(),
            region: "waw".to_owned(),
        },
        vpc_provider_id: "vpc-1".to_owned(),
        cidr: cidr.to_owned(),
        private_ipv4: private_ipv4.to_owned(),
    }
}

fn mesh_base() -> DesiredMeshState {
    DesiredMeshState {
        schema: 1,
        account_id: "4426df1449e417511bc7697d60b7f62f".to_owned(),
        environment: "application-acceptance".to_owned(),
        node_name: "singbox-line3-application-acceptance".to_owned(),
        routes: Vec::new(),
    }
}

fn vpc_desired() -> DesiredVpcState {
    DesiredVpcState {
        schema: 1,
        environment: "application-acceptance".to_owned(),
        region: "waw".to_owned(),
        machine_id: "application-acceptance-1".to_owned(),
    }
}

fn guest_observation(lower_up: bool, include_route: bool) -> Ipv4NetworkObservation {
    Ipv4NetworkObservation {
        links: vec![Ipv4LinkObservation {
            interface_index: 7,
            name: "ens7".to_owned(),
            up: true,
            lower_up,
            loopback: false,
        }],
        addresses: vec![Ipv4AddressObservation {
            interface_index: 7,
            address: "10.0.4.2".to_owned(),
            prefix_length: 24,
            global_scope: true,
        }],
        routes: if include_route {
            vec![Ipv4RouteObservation {
                destination: "10.0.4.0".to_owned(),
                prefix_length: 24,
                output_interface_index: 7,
                preferred_source: Some("10.0.4.2".to_owned()),
                kernel_protocol: true,
                link_scope: true,
            }]
        } else {
            Vec::new()
        },
    }
}

#[test]
fn guest_vpc_network_requires_exact_up_interface_and_connected_kernel_route() {
    let ready = ready_report("10.0.4.0/24", "10.0.4.2");
    let observation = guest_observation(true, true);

    let report = evaluate_guest_vpc_network(&observation, &ready).unwrap();
    assert_eq!(report.status, "PASS");
    assert_eq!(report.interface, "ens7");

    assert!(evaluate_guest_vpc_network(&guest_observation(true, false), &ready).is_err());
    assert!(evaluate_guest_vpc_network(&guest_observation(false, true), &ready).is_err());
}

#[test]
fn vpc_route_composition_uses_only_verified_private_network() {
    let effective = compose_verified_vpc_route(
        mesh_base(),
        &vpc_desired(),
        ready_report("10.0.4.0/24", "10.0.4.2"),
        |_| Ok(()),
    )
    .unwrap();
    assert_eq!(
        effective.routes,
        vec![MeshRouteSpec {
            network: "10.0.4.0/24".to_owned(),
        }]
    );

    assert!(
        compose_verified_vpc_route(
            mesh_base(),
            &vpc_desired(),
            ready_report("203.0.113.0/24", "203.0.113.2"),
            |_| Ok(())
        )
        .is_err()
    );
    assert!(
        compose_verified_vpc_route(
            mesh_base(),
            &vpc_desired(),
            ready_report("10.0.4.7/24", "10.0.4.8"),
            |_| Ok(())
        )
        .is_err()
    );
}

#[test]
fn vpc_route_composition_rejects_git_routes_and_mismatched_authority() {
    let mut predeclared = mesh_base();
    predeclared.routes.push(MeshRouteSpec {
        network: "10.255.0.0/24".to_owned(),
    });
    assert!(
        compose_verified_vpc_route(
            predeclared,
            &vpc_desired(),
            ready_report("10.0.4.0/24", "10.0.4.2"),
            |_| Ok(())
        )
        .is_err()
    );

    let mut mismatched_vpc = vpc_desired();
    mismatched_vpc.environment = "foreign".to_owned();
    assert!(
        compose_verified_vpc_route(
            mesh_base(),
            &mismatched_vpc,
            ready_report("10.0.4.0/24", "10.0.4.2"),
            |_| Ok(())
        )
        .is_err()
    );

    let mut not_ready = ready_report("10.0.4.0/24", "10.0.4.2");
    not_ready.status = "NOT_READY";
    assert!(compose_verified_vpc_route(mesh_base(), &vpc_desired(), not_ready, |_| Ok(())).is_err());
}

#[test]
fn a_composed_route_stands_only_where_the_state_is_valid() {
    let compose = |ready, valid: &Result<(), String>| {
        compose_verified_vpc_route(mesh_base(), &vpc_desired(), ready, |mesh| {
            assert_eq!(mesh.routes.len(), 1);
            valid.clone()
        })
    };
    let invalid = Err("mesh state is invalid".to_owned());
    let ready = || ready_report("10.0.4.0/24", "10.0.4.2");
    let composed = compose(ready(), &Ok(())).unwrap();
    assert_eq!(
        compose(ready(), &invalid),
        Err("mesh state is invalid".to_owned())
    );
    let outside = compose(ready_report("203.0.113.0/24", "203.0.113.2"), &invalid);
    assert_ne!(outside, Err("mesh state is invalid".to_owned()));
    assert_eq!(
        validated_vpc_route(compose(ready(), &Ok(())).unwrap(), Ok(())),
        Ok(composed)
    );
    assert!(validated_vpc_route(compose(ready(), &Ok(())).unwrap(), invalid).is_err());
}

#[test]
fn usage_is_closed_and_has_no_raw_provider_identity_or_token_surface() {
    let text = mesh::usage();
    assert!(text.contains("line3-mesh plan"));
    assert!(text.contains(
        "line3-mesh vpc-plan <mesh-base-spec-path> <vpc-spec-path> <application-spec-path>"
    ));
    assert!(text.contains(
        "line3-mesh vpc-apply <mesh-base-spec-path> <vpc-spec-path> <application-spec-path>"
    ));
    assert!(text.contains("line3-mesh cleanup-apply"));
    assert!(text.contains("line3-mesh runtime-apply"));
    assert!(text.contains("line3-mesh vpc-runtime-apply"));
    assert!(text.contains("line3-mesh runtime-verify"));
    assert!(text.contains("line3-mesh vpc-runtime-verify"));
    assert!(text.contains("line3-mesh runtime-cleanup"));
    assert!(!text.contains("node-id"));
    assert!(!text.contains("route-id"));
    assert!(!text.contains("token"));
    assert!(!text.contains("account-id"));
    assert!(!text.contains("<cidr>"));
    assert!(!text.contains("vpc-id"));
    assert!(!text.contains("exec"));
    assert!(!text.contains("shell"));
}

#[test]
fn usage_is_closed_and_has_no_raw_provider_identity_surface() {
    let text = vpc_command::usage();
    assert!(text.contains("vultr-vpc attachment-apply"));
    assert!(text.contains("vultr-vpc cleanup-apply"));
    assert!(!text.contains("vpc-id"));
    assert!(!text.contains("instance-id"));
    assert!(!text.contains("subnet"));
    assert!(!text.contains("curl"));
    assert!(!text.contains("shell"));
}

#[test]
fn usage_is_closed_grammar() {
    let text = vultr_command::usage();
    assert!(text.contains("vultr-lifecycle plan"));
    assert!(text.contains("vultr-lifecycle destroy-apply"));
    assert!(text.contains("vultr-lifecycle acquire-access"));
    assert!(text.contains("vultr-lifecycle release-access"));
    assert!(!text.contains("exec"));
    assert!(!text.contains("shell"));
}

#[test]
fn commands_are_read_with_their_arguments() {
    assert_eq!(
        read_mesh_command(&words(&["plan", "spec.json"])),
        Ok(MeshCommand::Plan)
    );
    assert_eq!(
        read_mesh_command(&words(&["plan"])),
        Err("usage: edge-controller line3-mesh plan <spec-path>".to_owned())
    );
    assert_eq!(read_mesh_command(&words(&["shell"])), Err(mesh::usage()));
    assert_eq!(
        read_vpc_command(&words(&["cleanup-apply", "spec.json", "digest"])),
        Ok(VpcCommand::CleanupApply)
    );
    assert_eq!(
        read_vpc_command(&words(&["cleanup-apply", "spec.json"])),
        Err(
            "usage: edge-controller vultr-vpc cleanup-apply <spec-path> <destructive-digest>"
                .to_owned()
        )
    );
    assert_eq!(
        read_vpc_command(&words(&["shell"])),
        Err(vpc_command::usage())
    );
    assert!(matches!(
        read_vultr_command(&words(&["destroy-plan", "spec.json", "edge-1", "rev"])),
        Ok(VultrCommand::DestroyPlan)
    ));
    assert!(read_vultr_command(&words(&[])).is_err());
    assert_eq!(
        read_zero_trust_command(&words(&["plan", "spec.json"])),
        Ok(ZeroTrustCommand::Plan)
    );
    assert!(read_zero_trust_command(&words(&["exec"])).is_err());
}

#[test]
fn mesh_runtime_is_judged_by_what_it_says() {
    let mut state = MeshRuntimeState {
        token_store_present: true,
        container_running: true,
        exact_image_ready: true,
        runtime_ready: true,
        warnings: vec![],
    };
    assert_eq!(check_mesh_runtime(MeshRuntimeStep::Converged, &state), Ok(()));
    state.runtime_ready = false;
    state.warnings = words(&["a", "b"]);
    assert_eq!(
        check_mesh_runtime(MeshRuntimeStep::Converged, &state),
        Err("Mesh runtime convergence completed without READY: a; b".to_owned())
    );
    assert!(check_mesh_runtime(MeshRuntimeStep::Verified, &state).is_err());
    assert!(check_mesh_runtime(MeshRuntimeStep::Cleaned, &state).is_err());
}

fn machine(firewall_profile: Option<&str>) -> MachineSpec {
    MachineSpec {
        id: "edge-1".to_owned(),
        provider: MachineProvider {
            region: "waw".to_owned(),
            plan: "vc2-1c-1gb".to_owned(),
            os_id: Some(2625),
            snapshot_id: None,
            enable_ipv6: false,
            firewall_profile: firewall_profile.map(|p| p.to_owned()),
        },
        bootstrap_profile: "singbox-host-v2".to_owned(),
    }
}

#[test]
fn firewall_binding_must_match_desired_profile() {
    let resolved = ResolvedFirewallProfile {
        id: "fw-1".to_owned(),
        profile_name: "other".to_owned(),
    };
    let error = resolve_create_prerequisites(
        &machine(Some("edge")),
        "ssh-1",
        &Some(resolved),
        "#cloud-config\n".to_owned(),
    )
    .unwrap_err();
    assert!(error.contains("does not match desired profile"));
}

fn firewall_only_plan() -> MachinePlan {
    MachinePlan {
        machine_id: "edge-1".to_owned(),
        class: PlanClass::UpdateInPlace,
        provider_id: Some("provider-1".to_owned()),
        desired_spec_digest: "0".repeat(64),
        reasons: vec!["firewall profile differs or is not provider-verified".to_owned()],
    }
}

#[test]
fn access_reconcile_allows_only_firewall_only_update() {
    let firewall_only = firewall_only_plan();
    assert_eq!(
        access_reconcile_class(&firewall_only),
        AccessReconcileClass::FirewallOnly
    );

    let mut mixed = firewall_only.clone();
    mixed.reasons.push("managed tags differ".to_owned());
    assert_eq!(
        access_reconcile_class(&mixed),
        AccessReconcileClass::Blocked
    );

    let mut create = firewall_only;
    create.class = PlanClass::Create;
    create.reasons = vec!["no exact owned provider resource exists".to_owned()];
    assert_eq!(
        access_reconcile_class(&create),
        AccessReconcileClass::Blocked
    );
}

fn operational_instance(power_status: &str, status: &str, server_status: &str) -> VultrInstance {
    VultrInstance {
        id: "instance-1".to_owned(),
        label: "edge-1".to_owned(),
        region: "waw".to_owned(),
        plan: "vc2-1c-1gb".to_owned(),
        status: status.to_owned(),
        server_status: server_status.to_owned(),
        power_status: power_status.to_owned(),
        main_ip: "203.0.113.10".to_owned(),
        v6_main_ip: String::new(),
        firewall_group_id: "fw-1".to_owned(),
        date_created: "2026-09-20T00:00:00Z".to_owned(),
        tags: Vec::new(),
        os_id: 2625,
        snapshot_id: None,
        enable_ipv6: false,
    }
}

#[test]
fn instance_action_disposition_uses_operational_state() {
    let running = operational_instance("running", "active", "ok");
    assert_eq!(
        instance_action_disposition(InstanceAction::Start, &running),
        (PlanDisposition::Noop, "NOOP")
    );
    assert_eq!(
        instance_action_disposition(InstanceAction::Halt, &running),
        (PlanDisposition::Mutate, "HALT")
    );
    assert_eq!(
        instance_action_disposition(InstanceAction::Reboot, &running),
        (PlanDisposition::Mutate, "REBOOT")
    );

    let stopped = operational_instance("stopped", "active", "ok");
    assert_eq!(
        instance_action_disposition(InstanceAction::Start, &stopped),
        (PlanDisposition::Mutate, "START")
    );
    assert_eq!(
        instance_action_disposition(InstanceAction::Halt, &stopped),
        (PlanDisposition::Noop, "NOOP")
    );
    assert_eq!(
        instance_action_disposition(InstanceAction::Reboot, &stopped),
        (PlanDisposition::Blocked, "BLOCKED")
    );
}

#[test]
fn stale_authority_stops_every_command() {
    let stale = || Err::<(), String>("authority is stale".to_owned());
    for command in [GuardedCommand::AcquireAccess, GuardedCommand::ReleaseAccess] {
        assert_eq!(
            guard(command, "edge-1", stale(), PlanDisposition::Mutate),
            GuardedCourse::Fail("authority is stale".to_owned())
        );
        assert_eq!(
            guard(command, "edge-1", Ok(()), PlanDisposition::Mutate),
            GuardedCourse::Go
        );
        assert_eq!(
            guard(command, "edge-1", Ok(()), PlanDisposition::Noop),
            GuardedCourse::Stop
        );
        assert!(check_converged(command, "edge-1", PlanDisposition::Mutate).is_err());
        assert!(check_converged(command, "edge-1", PlanDisposition::Noop).is_ok());
    }
    let running = operational_instance("running", "active", "ok");
    assert_eq!(
        guard_action("edge-1", InstanceAction::Halt, stale(), &running),
        GuardedCourse::Fail("authority is stale".to_owned())
    );
    assert_eq!(
        guard_action("edge-1", InstanceAction::Halt, Ok(()), &running),
        GuardedCourse::Go
    );
}

#[test]
fn actions_need_a_machine_without_plans() {
    let mut plan = firewall_only_plan();
    assert!(find_action_target("edge-1", &plan).is_err());
    plan.class = PlanClass::Noop;
    assert_eq!(
        find_action_target("edge-1", &plan),
        Ok("provider-1".to_owned())
    );
    plan.provider_id = None;
    assert_eq!(
        find_action_target("edge-1", &plan),
        Err("NOOP plan is missing provider id".to_owned())
    );
    let seen = operational_instance("running", "active", "ok");
    assert!(check_observed_identity(&seen, "instance-1").is_ok());
    assert!(check_observed_identity(&seen, "instance-2").is_err());
    assert_eq!(
        first_plan(&vec![], "edge-1"),
        Err("no lifecycle plan was produced for edge-1".to_owned())
    );
}

#[test]
fn access_is_planned_by_the_machine_plan() {
    let plan = plan_access_acquisition(&firewall_only_plan());
    assert_eq!(plan.action, "ACQUIRE");
    assert_eq!(plan.disposition, PlanDisposition::Mutate);
    let released = plan_access_release(&vec![], &vec![]).unwrap();
    assert_eq!(released.action, "NOOP");
    assert_eq!(
        require_firewall_profile(&machine(Some("edge")), AccessPurpose::Acquire),
        Ok("edge".to_owned())
    );
    assert!(require_firewall_profile(&machine(None), AccessPurpose::Acquire).is_err());
    assert!(check_bootstrap_profile(&machine(None)).is_ok());
    let mut other = machine(None);
    other.bootstrap_profile = "other".to_owned();
    assert!(check_bootstrap_profile(&other).is_err());
}

#[test]
fn environments_load_the_profiles_they_name() {
    let raw = r#"{"schema":1,"profiles":[{"name":"edge","rules":[
        {"ip_type":"v4","protocol":"tcp","subnet":"@controller-ipv4","subnet_size":32,"port":"22"}]}]}"#;
    let desired = DesiredState {
        environment: "production".to_owned(),
        machines: vec![machine(Some("edge"))],
    };
    assert_eq!(firewall_profile_names(&desired), words(&["edge"]));
    let set = load_firewall_profiles(&desired, raw, Some("203.0.113.25"))
        .ok()
        .unwrap();
    assert_eq!(
        set.profile("edge").unwrap().rules[0].subnet,
        "203.0.113.25"
    );
    assert!(load_firewall_profiles(&desired, raw, None).is_err());
    assert!(machine_by_id(Ok(()), &desired, "edge-1").is_ok());
    assert_eq!(
        machine_by_id(Ok(()), &desired, "edge-2").unwrap_err(),
        "machine edge-2 is not present in desired state"
    );
    assert_eq!(
        machine_by_id(Err("bad".to_owned()), &desired, "edge-1").unwrap_err(),
        "bad"
    );
}

fn decoded() -> DecodedTags {
    DecodedTags {
        ownership: Ownership {
            managed_by: Some("sing-box".to_owned()),
            environment: Some("production".to_owned()),
            logical_id: Some("edge-1".to_owned()),
        },
        user_tags: words(&["primary"]),
        spec_digest: Some("0".repeat(64)),
    }
}

#[test]
fn projects_real_provider_shape_into_exact_noop_identity() {
    let instance = operational_instance("running", "active", "ok");
    let inventory = normalize_vultr_inventory(&vec![instance], vec![Ok(decoded())]).unwrap();
    let observed = &inventory[0];
    assert_eq!(observed.ownership.managed_by.as_deref(), Some("sing-box"));
    assert_eq!(
        observed.ownership.environment.as_deref(),
        Some("production")
    );
    assert_eq!(observed.ownership.logical_id.as_deref(), Some("edge-1"));
    assert_eq!(observed.tags, vec!["primary".to_owned()]);
}

#[test]
fn provider_verified_firewall_binding_projects_profile() {
    let instance = operational_instance("running", "active", "ok");
    let mut verified = VerifiedFirewalls::new();
    verified.insert("fw-1".to_owned(), "edge".to_owned());
    let inventory = normalize_vultr_inventory_with_firewall_profiles(
        &vec![instance],
        vec![Ok(decoded())],
        &verified,
    )
    .unwrap();
    assert_eq!(inventory[0].firewall_profile.as_deref(), Some("edge"));
}

#[test]
fn rejects_legacy_partial_managed_identity_instead_of_adopting_it() {
    let instance = operational_instance("running", "active", "ok");
    let error = normalize_vultr_inventory(
        &vec![instance],
        vec![Err("incomplete managed lifecycle identity".to_owned())],
    )
    .unwrap_err();
    assert!(error.contains("incomplete managed lifecycle identity"));
}

#[test]
fn projects_snapshot_origin_even_when_provider_reports_os_id_too() {
    let mut instance = operational_instance("running", "active", "ok");
    instance.snapshot_id = Some("snapshot-1".to_owned());
    let observed = normalize_vultr_instance(&instance, Ok(decoded())).unwrap();
    assert_eq!(observed.snapshot_id.as_deref(), Some("snapshot-1"));
    assert_eq!(observed.firewall_profile, None);
    assert_eq!(nonempty("  "), None);
    assert_eq!(nonempty(" a "), Some("a".to_owned()));
}

fn guardrails() -> Guardrails {
    Guardrails {
        schema: 1,
        account_id: "account".to_owned(),
        owned_resource_selectors: OwnedResourceSelectors {
            mesh_node_name: "singbox-line3-application-acceptance".to_owned(),
        },
        zero_trust_boundary: ZeroTrustBoundary {
            generic_warp_connector_selector:
                "identity.email == \"warp_connector@example.cloudflareaccess.com\"".to_owned(),
            required_client_contract: RequiredClientContract {
                service_mode: "warp".to_owned(),
                tunnel_protocol: "masque".to_owned(),
                mesh_cidr: "100.96.0.0/12".to_owned(),
            },
            project_owned_legacy_warp_connector_names: vec!["vultr".to_owned()],
            manual_prerequisites: vec!["enrolled-device-reachability".to_owned()],
            access_enrollment_required: true,
            gateway_mesh_allow_required: true,
        },
    }
}

#[test]
fn explicit_attestation_is_required() {
    assert!(!env_true(&None));
    assert!(env_true(&Some(" yes ".to_owned())));
    assert!(!env_true(&Some("Yes".to_owned())));
}

#[test]
fn schema_validation_rejects_empty_account() {
    let mut desired = guardrails();
    desired.account_id = String::new();
    assert!(validate_guardrails(&desired).is_err());
}

#[test]
fn guardrails_say_what_is_wrong_with_them() {
    assert_eq!(validate_guardrails(&guardrails()), Ok(()));
    let mut desired = guardrails();
    desired.schema = 3;
    assert_eq!(
        validate_guardrails(&desired),
        Err("unsupported Zero Trust guardrails schema 3".to_owned())
    );
    let mut desired = guardrails();
    desired.zero_trust_boundary.generic_warp_connector_selector = " ".to_owned();
    assert_eq!(
        validate_guardrails(&desired),
        Err("generic WARP Connector selector must be non-empty".to_owned())
    );
    let mut desired = guardrails();
    desired
        .zero_trust_boundary
        .required_client_contract
        .mesh_cidr = String::new();
    assert_eq!(
        validate_guardrails(&desired),
        Err("Mesh CIDR must be non-empty".to_owned())
    );
}

fn gateway_rule(action: &str, precedence: Option<u64>) -> GatewayRule {
    GatewayRule {
        id: "rule".to_owned(),
        name: "rule".to_owned(),
        action: action.to_owned(),
        precedence,
        enabled: Some(true),
        filters: vec![],
        traffic: Some("net.dst.ip in {100.96.0.0/12}".to_owned()),
        identity: None,
        device_posture: None,
    }
}

#[test]
fn readiness_needs_every_part() {
    let desired = guardrails();
    let settings = report_settings(Some(true), Some(true), Some(true));
    let connectors = report_connectors(&desired, &words(&["vultr", "foreign", "vultr"]));
    assert_eq!(connectors.current_names, words(&["foreign", "vultr"]));
    assert_eq!(connectors.unexpected_names, words(&["foreign"]));
    assert!(!connectors.ready);
    let profiles = vec![DeviceProfile {
        id: "p".to_owned(),
        name: "mesh".to_owned(),
        enabled: Some(true),
        precedence: Some(1),
        match_expression: Some(
            "identity.email == \"warp_connector@example.cloudflareaccess.com\"".to_owned(),
        ),
        service_mode: Some("warp".to_owned()),
        tunnel_protocol: Some("masque".to_owned()),
    }];
    let matching = matching_profiles(&desired, &profiles);
    assert_eq!(matching, vec![0]);
    let mesh_profile = report_mesh_profile(
        &desired,
        &profiles,
        &matching,
        &vec![SplitTunnelEntry {
            address: Some("100.96.0.0/12".to_owned()),
            host: None,
            description: None,
        }],
    );
    assert!(mesh_profile.ready);
    assert!(is_warp_application("WARP"));
    let enrollment = report_enrollment(&desired, &vec![0, 2]);
    assert_eq!(enrollment.warp_applications_with_policy, 1);
    let blocked = report_gateway(
        &desired,
        &vec![gateway_rule("block", Some(5)), gateway_rule("Allow", Some(7))],
    );
    assert!(!blocked.ready);
    assert_eq!(blocked.earliest_mesh_block_precedence, Some(5));
    let open = report_gateway(
        &desired,
        &vec![gateway_rule("block", Some(5)), gateway_rule("Allow", Some(3))],
    );
    assert!(open.ready);
    let manual = report_manual(&desired, true);
    let (report, outcome) = assemble_report(
        &desired,
        settings,
        report_connectors(&desired, &words(&["vultr"])),
        mesh_profile,
        enrollment,
        open,
        manual,
    );
    assert_eq!(report.status, "PASS");
    assert_eq!(outcome, Ok(()));
    let (report, outcome) = assemble_report(
        &desired,
        report_settings(Some(true), None, Some(true)),
        connectors,
        report_mesh_profile(&desired, &profiles, &vec![], &vec![]),
        report_enrollment(&desired, &vec![]),
        blocked,
        report_manual(&desired, false),
    );
    assert_eq!(report.status, "BLOCKED");
    assert_eq!(
        outcome,
        Err("Cloudflare Zero Trust readiness is BLOCKED".to_owned())
    );
}

fn substrate_seen() -> HostSubstrateObservation {
    HostSubstrateObservation {
        machine_id: "edge-1".to_owned(),
        provider_id: "instance-1".to_owned(),
        main_ip: "203.0.113.10".to_owned(),
        provider_ready: true,
        strict_ssh_state: StrictSshState::Pass,
        strict_ssh_evidence: "accepted".to_owned(),
        user_data_scrubbed: Some(false),
        host_certificate_serial: Some(1),
    }
}

#[test]
fn action_disposition_allows_only_one_mutation_kind() {
    for action in [
        HostSubstrateAction::ScrubUserData,
        HostSubstrateAction::RotateHostCertificate,
    ] {
        assert!(matches!(
            action,
            HostSubstrateAction::ScrubUserData | HostSubstrateAction::RotateHostCertificate
        ));
        let plan = HostSubstratePlan {
            action,
            reasons: vec!["due".to_owned()],
        };
        let seen = substrate_seen();
        let desired = DesiredState {
            environment: "production".to_owned(),
            machines: vec![machine(None)],
        };
        let spec = machine(None);
        let bound = authorize_host_substrate(&desired, &spec, 2, &seen, &plan);
        assert_eq!(bound.disposition, PlanDisposition::Mutate);
        assert_eq!(bound.scope, "vultr_host_substrate");
        assert_eq!(bound.desired.desired, &desired);
        assert_eq!(bound.desired.machine_id, spec.id);
        assert_eq!(bound.desired.minimum_host_certificate_serial, 2);
        assert_eq!(bound.observed, &seen);
        assert_eq!(bound.plan, &plan);
    }
}

#[test]
fn substrate_is_observed_step_by_step() {
    let policy = HostSubstrateExecutionPolicy::default();
    assert_eq!(policy.ssh_observe_attempts, 60);
    assert_eq!(policy.with_single_look().ssh_observe_attempts, 1);
    assert!(check_substrate_attempts(policy).is_ok());
    let mut never = policy;
    never.ssh_observe_attempts = 0;
    assert!(check_substrate_attempts(never).is_err());
    let spec = machine(None);
    let down = observe_host_substrate(
        &spec,
        "instance-1",
        Ok(operational_instance("stopped", "active", "ok")),
    );
    match down {
        SubstrateNext::Done(Ok(seen)) => {
            assert!(!seen.provider_ready);
            assert_eq!(
                seen.strict_ssh_evidence,
                "provider_not_ready:status=active;power_status=stopped;server_status=ok;main_ip_present=true"
            );
        }
        other => panic!("{other:?}"),
    }
    let up = observe_host_substrate(
        &spec,
        "instance-1",
        Ok(operational_instance("running", "active", "ok")),
    );
    assert_eq!(up, SubstrateNext::TryStrictSsh("203.0.113.10".to_owned()));
    let failed = strict_ssh_observed(
        &spec,
        "instance-1",
        "203.0.113.10".to_owned(),
        Ok(StrictSshSight {
            passed: false,
            last_class: Some(StrictSshFailureClass::HostTrust),
            evidence: "key".to_owned(),
        }),
    );
    assert!(matches!(
        failed,
        SubstrateNext::Done(Ok(o)) if o.strict_ssh_state == StrictSshState::HostTrust
    ));
    let passed = strict_ssh_observed(
        &spec,
        "instance-1",
        "203.0.113.10".to_owned(),
        Ok(StrictSshSight {
            passed: true,
            last_class: None,
            evidence: "ok".to_owned(),
        }),
    );
    let seen = match passed {
        SubstrateNext::ReadHost(o) => o,
        other => panic!("{other:?}"),
    };
    let done = complete_host_substrate(seen, Ok(true), Ok(7)).unwrap();
    assert_eq!(done.host_certificate_serial, Some(7));
    assert_eq!(done.user_data_scrubbed, Some(true));
    assert_eq!(
        strict_state(StrictSshFailureClass::Transport),
        StrictSshState::Transport
    );
    let plan = || HostSubstratePlan {
        action: HostSubstrateAction::ScrubUserData,
        reasons: words(&["user data"]),
    };
    assert_eq!(
        apply_host_substrate_once(Ok(()), PlanDisposition::Mutate, &plan()),
        Ok(SubstrateChange::ScrubUserData)
    );
    assert_eq!(
        apply_host_substrate_once(Err("stale".to_owned()), PlanDisposition::Mutate, &plan()),
        Err("stale".to_owned())
    );
    assert_eq!(
        apply_host_substrate_once(Ok(()), PlanDisposition::Blocked, &plan()),
        Err("host substrate apply is blocked by exact plan: user data".to_owned())
    );
    let report = report_host_substrate(SubstrateChange::ScrubUserData, done, plan());
    assert_eq!(report.performed, HostSubstrateAction::ScrubUserData);
}
