use edge_controller::agent::{bootstrap_timeout_secs, is_retryable_bootstrap_transport_error};
use edge_controller::application::{BootstrapMode, agent_candidate};
use edge_controller::bootstrap::{InstanceAction, prepare_strict_bootstrap};
use edge_controller::cleanup::{
    CleanupAuthority, Ownership, TaggedInstance, build_support_cleanup_authority,
    removable_groups,
};
use edge_controller::cli::{env_flag, non_blank};
use edge_controller::controller_command::{argument_at, optional_arg};
use edge_controller::deploy::bundle_to_proto_summary;
use edge_controller::destroy::{
    DestroyStep, clear_live_deployment_state, destroy_stage_name,
};
use edge_controller::error::ControllerError;
use edge_controller::firewall::{FirewallProfileSet, firewall_rule_spec};
use edge_controller::lifecycle::{ApplyAction, ApplyReport};
use edge_controller::local_runtime::{LocalRuntimePaths, choose_local_runtime_paths, end_status};
use edge_controller::machine::{
    DesiredState, MachinePlan, MachineProvider, MachineSpec, PlanClass, PlanDisposition,
};
use edge_controller::provider::{VultrFirewallGroup, VultrFirewallRule, VultrInstance};
use edge_controller::records::{LocalTrustMaterial, missing_summary, published_trust};
use edge_controller::selector::{SelectorState, merge_selector_state};
use edge_controller::target::choose_single_reconcilable_instance;
use edge_controller::text::{
    parse_number, replace_char, replace_first, same_ignoring_case, signed_number, split_lines,
    split_once, strip_prefix,
};
use edge_controller::trust::{
    AgentClientTlsPaths, AgentConnectionTarget, ResolvedDeployTarget, StoredDeployment,
    has_explicit_endpoint, persisted_agent_connection_target, retarget_agent_connection_target,
};
use edge_controller::vultr_command::{
    build_access_authority, check_access_profile, check_action_converged,
    empty_create_prerequisites, needs_profiles, plan_access_release, replans_after, report_apply,
    sort_rules,
};

const TEMPLATE: &str = "#cloud-config\nwrite_files:\nruncmd:\n";

fn material() -> (String, String, String) {
    (
        "PRIVATE\n".to_owned(),
        "ssh-ed25519 AAAAHost host\n".to_owned(),
        "ssh-ed25519-cert-v01@openssh.com AAAACert host\n".to_owned(),
    )
}

fn target() -> ResolvedDeployTarget {
    ResolvedDeployTarget {
        instance_id: "instance-1".to_owned(),
        target_ip: "203.0.113.10".to_owned(),
        created_instance: true,
    }
}

fn machine(firewall_profile: Option<&str>) -> MachineSpec {
    MachineSpec {
        id: "edge-1".to_owned(),
        provider: MachineProvider {
            region: "waw".to_owned(),
            plan: "vc2-1c-1gb".to_owned(),
            os_id: Some(2625),
            snapshot_id: None,
            enable_ipv6: false,
            firewall_profile: firewall_profile.map(|name| name.to_owned()),
        },
        bootstrap_profile: "singbox-host-v2".to_owned(),
    }
}

fn instance(id: &str, label: &str, status: &str) -> VultrInstance {
    VultrInstance {
        id: id.to_owned(),
        label: label.to_owned(),
        region: "waw".to_owned(),
        plan: "vc2-1c-1gb".to_owned(),
        status: status.to_owned(),
        server_status: "ok".to_owned(),
        power_status: "running".to_owned(),
        main_ip: "203.0.113.10".to_owned(),
        v6_main_ip: String::new(),
        firewall_group_id: String::new(),
        date_created: String::new(),
        tags: Vec::new(),
        os_id: 2625,
        snapshot_id: None,
        enable_ipv6: false,
    }
}

#[test]
fn strict_bootstrap_is_made_of_its_host_key() {
    let made = prepare_strict_bootstrap(
        TEMPLATE,
        "edge-1",
        true,
        "/keys/operator",
        "ssh-ed25519 AAAACanonical comment",
        Ok(material()),
    )
    .unwrap();
    assert!(made.cloud_init.contains("hostname: edge-1"));
    assert!(made.cloud_init.contains("PRIVATE"));
}

#[test]
fn strict_bootstrap_names_what_is_missing() {
    let prepare = |hostname: &str, found: bool, material| {
        prepare_strict_bootstrap(TEMPLATE, hostname, found, "/keys/operator", "k", material)
            .err()
            .unwrap()
    };
    assert_eq!(
        prepare("edge_1", true, Ok(material())),
        "invalid strict SSH logical hostname edge_1"
    );
    assert_eq!(
        prepare("edge-1", false, Ok(material())),
        "SSH operator private key was not found at /keys/operator"
    );
    assert_eq!(prepare("edge-1", true, Err("no key".to_owned())), "no key");
}

#[test]
fn summary_of_a_bundle_names_the_tunnel_only_where_it_is_on() {
    let on = bundle_to_proto_summary("edge-a", &target(), true, "edge.example.com".to_owned());
    assert!(on.live_state_present);
    assert_eq!(on.deployment_label.as_deref(), Some("edge-a"));
    assert_eq!(on.instance_id.as_deref(), Some("instance-1"));
    assert_eq!(on.server_ip.as_deref(), Some("203.0.113.10"));
    assert_eq!(on.source_state_path, None);
    assert_eq!(on.tunnel_domain.as_deref(), Some("edge.example.com"));
    let off = bundle_to_proto_summary("edge-a", &target(), false, "edge.example.com".to_owned());
    assert_eq!(off.tunnel_domain, None);
    assert!(!missing_summary().live_state_present);
}

#[test]
fn steps_of_a_removal_have_their_words() {
    assert_eq!(
        destroy_stage_name(DestroyStep::ReadMachine),
        "read VM from Vultr"
    );
    assert_eq!(destroy_stage_name(DestroyStep::DeleteDns), "delete DNS record");
    assert_eq!(
        destroy_stage_name(DestroyStep::DeleteInstance),
        "delete VM at Vultr"
    );
    assert_eq!(
        destroy_stage_name(DestroyStep::StopLocalRuntime),
        "stop local runtime"
    );
    assert_eq!(
        destroy_stage_name(DestroyStep::ClearState),
        "clear local deployment state"
    );
    assert_eq!(
        clear_live_deployment_state("instance-1"),
        "cleared deployment state for instance-1"
    );
    assert_eq!(end_status(true), "SUCCEEDED");
    assert_eq!(end_status(false), "FAILED");
}

#[test]
fn given_paths_take_the_place_of_the_usual_ones() {
    let usual = || LocalRuntimePaths {
        singbox_binary_path: "/bin/sing-box".to_owned(),
        config_path: "/etc/config.json".to_owned(),
        state_path: "/var/state.json".to_owned(),
        runtime_root: "/run/proxy".to_owned(),
    };
    let chosen = choose_local_runtime_paths(None, Some("/tmp/c.json".to_owned()), None, usual());
    assert_eq!(chosen.singbox_binary_path, "/bin/sing-box");
    assert_eq!(chosen.config_path, "/tmp/c.json");
    assert_eq!(chosen.state_path, "/var/state.json");
    assert_eq!(chosen.runtime_root, "/run/proxy");
}

#[test]
fn published_trust_names_the_agent() {
    let entry = published_trust(
        "edge-a",
        &target(),
        LocalTrustMaterial {
            ca_cert_path: "/tls/ca.pem".to_owned(),
            client_cert_path: "/tls/client.pem".to_owned(),
            client_key_path: "/tls/client.key".to_owned(),
        },
    );
    assert_eq!(entry.deployment_id, "edge-a");
    assert_eq!(entry.instance_id, "instance-1");
    assert_eq!(entry.ip, "203.0.113.10");
    assert_eq!(entry.domain_name.as_deref(), Some("edge-agent"));
    assert_eq!(entry.ca_cert_path.as_deref(), Some("/tls/ca.pem"));
    let deployment = StoredDeployment {
        deployment_label: "edge-a".to_owned(),
        instance_id: "instance-1".to_owned(),
        server_ip: "203.0.113.10".to_owned(),
    };
    let reached = persisted_agent_connection_target(&deployment, &entry, 50061).unwrap();
    assert_eq!(reached.endpoint, "https://203.0.113.10:50061");
    assert_eq!(
        reached.tls_paths.map(|paths| paths.client_key_path),
        Some("/tls/client.key".to_owned())
    );
}

#[test]
fn another_endpoint_keeps_the_trust() {
    let known = AgentConnectionTarget {
        endpoint: "https://203.0.113.10:50061".to_owned(),
        tls_paths: Some(AgentClientTlsPaths {
            ca_cert_path: "/tls/ca.pem".to_owned(),
            client_cert_path: "/tls/client.pem".to_owned(),
            client_key_path: "/tls/client.key".to_owned(),
            domain_name: "edge-agent".to_owned(),
        }),
    };
    let moved = retarget_agent_connection_target(&known, "https://127.0.0.1:4000".to_owned());
    assert_eq!(moved.endpoint, "https://127.0.0.1:4000");
    assert!(moved.tls_paths.is_some());
    assert!(has_explicit_endpoint("http://127.0.0.1:50061", true));
    assert!(!has_explicit_endpoint("http://127.0.0.1:50061", false));
    assert!(has_explicit_endpoint("http://10.0.0.1:50061", false));
}

#[test]
fn nothing_is_gathered_for_a_machine_that_is_there() {
    let given = empty_create_prerequisites(&machine(None));
    assert_eq!(given.bootstrap_profile, "singbox-host-v2");
    assert!(given.ssh_key_id.is_empty());
    assert!(given.cloud_init.is_empty());
    assert!(given.firewall_group_id.is_none());
    assert!(given.firewall_profile.is_none());
}

#[test]
fn access_needs_a_rule_for_the_controller() {
    let set = FirewallProfileSet::parse_json(
        r#"{"schema":1,"profiles":[
            {"name":"open","rules":[{"ip_type":"v4","protocol":"tcp","subnet":"@controller-ipv4","subnet_size":32,"port":"22","source":"","notes":"managed ssh"}]},
            {"name":"closed","rules":[]}
        ]}"#,
    )
    .ok()
    .unwrap();
    assert_eq!(check_access_profile("open", &set), Ok(()));
    assert_eq!(
        check_access_profile("closed", &set),
        Err("firewall profile closed has no @controller-ipv4 rule".to_owned())
    );
    assert_eq!(
        check_access_profile("other", &set),
        Err("firewall profile other is not defined".to_owned())
    );
}

#[test]
fn access_is_judged_by_the_registry() {
    let raw = r#"{"schema":1,"profiles":[
        {"name":"edge","rules":[{"ip_type":"v4","protocol":"tcp","subnet":"@controller-ipv4","subnet_size":32,"port":"22"}]},
        {"name":"closed","rules":[]}
    ]}"#;
    let desired = |profile: Option<&str>| DesiredState {
        environment: "production".to_owned(),
        machines: vec![machine(profile)],
    };
    let address = Some("203.0.113.25".to_owned());
    let (name, held) =
        build_access_authority(&desired(Some("edge")), &machine(Some("edge")), raw, &address)
            .ok()
            .unwrap();
    assert_eq!(name, "edge");
    assert_eq!(held.controller_ipv4, "203.0.113.25");
    assert_eq!(
        held.unresolved.profile("edge").unwrap().rules[0].subnet,
        "@controller-ipv4"
    );
    assert_eq!(
        held.resolved.profile("edge").unwrap().rules[0].subnet,
        "203.0.113.25"
    );
    let refused = |profile: Option<&str>, address: &Option<String>| {
        build_access_authority(&desired(profile), &machine(profile), raw, address)
            .err()
            .unwrap()
    };
    assert_eq!(
        refused(None, &address),
        "machine edge-1 has no firewall_profile; access authority requires provider-owned SSH ingress"
    );
    assert_eq!(
        refused(Some("edge"), &None),
        "EDGE_CONTROLLER_IPV4 is required for access authority"
    );
    assert_eq!(
        refused(Some("closed"), &address),
        "firewall profile closed has no @controller-ipv4 rule"
    );
    assert_eq!(
        refused(Some("other"), &address),
        "firewall profile other is not defined"
    );
}

#[test]
fn rules_are_given_back_in_the_order_of_their_numbers() {
    let rule = |id: u64, ip_type: &str| VultrFirewallRule {
        id,
        ip_type: ip_type.to_owned(),
        protocol: "tcp".to_owned(),
        subnet: "203.0.113.25".to_owned(),
        subnet_size: 32,
        port: "22".to_owned(),
        source: String::new(),
        notes: String::new(),
    };
    let target = firewall_rule_spec(&rule(1, "v4")).unwrap();
    let plan = plan_access_release(&vec![target], &vec![rule(9, "v4"), rule(3, "v4")]).unwrap();
    assert_eq!(plan.action, "RELEASE");
    assert_eq!(plan.matching_rule_ids, vec![3, 9]);
    let plan = plan_access_release(&vec![], &vec![rule(9, "v4")]).unwrap();
    assert_eq!(plan.action, "NOOP");
    assert!(plan.matching_rule_ids.is_empty());
    let sorted = sort_rules(vec![rule(9, "v7"), rule(3, "v5")]);
    let first = plan_access_release(&vec![], &sorted).unwrap_err();
    assert!(first.contains("v5"), "{first}");
}

#[test]
fn cleanups_look_at_the_machines_in_the_order_of_their_ids() {
    let tagged = |id: &str, ownership: Result<Option<&str>, &str>| TaggedInstance {
        id: id.to_owned(),
        firewall_group_id: String::new(),
        tags: Vec::new(),
        ownership: match ownership {
            Ok(environment) => Ok(Ownership {
                managed_by: Some("me".to_owned()),
                environment: environment.map(|name| name.to_owned()),
                logical_id: None,
            }),
            Err(err) => Err(err.to_owned()),
        },
    };
    let desired = DesiredState {
        environment: "production".to_owned(),
        machines: Vec::new(),
    };
    let build = |instances: Vec<TaggedInstance>, key: &str| {
        build_support_cleanup_authority(&desired, instances, "me", key)
    };
    let key = "ssh-ed25519 AAAAB3NzaC1lZDI1 ops";
    assert_eq!(
        build(vec![tagged("b", Err("x")), tagged("a", Err("y"))], key),
        Err(
            "cannot prove support-resource cleanup safety because instance a has invalid lifecycle tags: y"
                .to_owned()
        )
    );
    let used = build(vec![tagged("b", Ok(Some("production")))], key).unwrap();
    match used {
        CleanupAuthority::InUse(bound) => {
            assert!(bound.plan.environment_in_use);
            assert_eq!(bound.plan.action, "NOOP");
        }
        other => panic!("{other:?}"),
    }
    assert!(build(vec![tagged("b", Ok(Some("production")))], "rsa").is_err());
    match build(vec![tagged("b", Ok(Some("staging"))), tagged("a", Ok(None))], key).unwrap() {
        CleanupAuthority::Free { instances, material } => {
            assert_eq!(material, "ssh-ed25519 AAAAB3NzaC1lZDI1");
            assert_eq!(instances[0].id, "a");
            assert_eq!(instances[1].id, "b");
        }
        other => panic!("{other:?}"),
    }
}

#[test]
fn applies_tell_what_their_care_has_changed() {
    let report = |action: ApplyAction| ApplyReport {
        action,
        machine_id: "edge-1".to_owned(),
        provider_id: "instance-1".to_owned(),
        final_plan: MachinePlan {
            machine_id: "edge-1".to_owned(),
            class: PlanClass::Noop,
            provider_id: Some("instance-1".to_owned()),
            desired_spec_digest: String::new(),
            reasons: Vec::new(),
        },
    };
    let ip = || "203.0.113.10".to_owned();
    let made = report_apply(report(ApplyAction::Created), ip(), false, true, false);
    assert_eq!(made.action, "CREATED");
    assert!(made.user_data_scrubbed && made.user_data_scrub_changed);
    assert!(!made.host_certificate_rotated && !made.support_reconciled);
    let kept = report_apply(report(ApplyAction::Noop), ip(), true, true, true);
    assert_eq!(kept.action, "NOOP");
    assert!(!kept.user_data_scrub_changed && !kept.host_certificate_rotated);
    assert!(kept.support_reconciled);
    assert_eq!(kept.strict_ssh_acceptance, "PASS");
}

#[test]
fn profiles_are_needed_where_a_machine_names_one() {
    let desired = |profile: Option<&str>| DesiredState {
        environment: "production".to_owned(),
        machines: vec![machine(profile)],
    };
    assert!(needs_profiles(&desired(Some("edge"))));
    assert!(!needs_profiles(&desired(None)));
}

#[test]
fn a_reboot_leaves_no_plan_to_check() {
    assert!(!replans_after(InstanceAction::Reboot));
    assert!(replans_after(InstanceAction::Start));
    assert!(replans_after(InstanceAction::Halt));
    assert_eq!(
        check_action_converged(InstanceAction::Halt, PlanDisposition::Noop),
        Ok(())
    );
    assert_eq!(
        check_action_converged(InstanceAction::Start, PlanDisposition::Mutate),
        Err("instance action start completed but did not converge to NOOP".to_owned())
    );
}

#[test]
fn one_machine_alone_is_taken_up() {
    let one = instance("a", "waw-edge-1", "active");
    let other = instance("b", "waw-edge-2", "active");
    let pending = instance("c", "waw-edge-3", "pending");
    let foreign = instance("d", "builder", "active");
    assert_eq!(choose_single_reconcilable_instance(&vec![]), None);
    assert_eq!(
        choose_single_reconcilable_instance(&vec![pending.clone(), foreign, one.clone()]),
        Some(2)
    );
    assert_eq!(
        choose_single_reconcilable_instance(&vec![one, pending, other]),
        None
    );
}

#[test]
fn live_selector_keeps_what_is_wanted() {
    let state = |desired: Option<&str>, observed: Option<&str>, warning: &str| SelectorState {
        desired_main_route: desired.map(|route| route.to_owned()),
        observed_main_route: observed.map(|route| route.to_owned()),
        degraded: false,
        proxy_groups: Vec::new(),
        warnings: vec![warning.to_owned()],
    };
    let merged = merge_selector_state(
        state(Some("hysteria2-direct"), None, "from config"),
        state(None, Some("auto-direct-tunnel"), "from proxy"),
    );
    assert_eq!(merged.desired_main_route.as_deref(), Some("hysteria2-direct"));
    assert_eq!(merged.observed_main_route.as_deref(), Some("auto-direct-tunnel"));
    assert_eq!(
        merged.warnings,
        vec!["from config".to_owned(), "from proxy".to_owned()]
    );
}

#[test]
fn starting_the_runtime_is_given_its_time() {
    assert_eq!(bootstrap_timeout_secs(BootstrapMode::BootstrapBase), 300);
    assert_eq!(bootstrap_timeout_secs(BootstrapMode::BootstrapTunnel), 900);
    assert_eq!(bootstrap_timeout_secs(BootstrapMode::BootstrapFull), 900);
    assert_eq!(bootstrap_timeout_secs(BootstrapMode::Unspecified), 900);
    assert!(is_retryable_bootstrap_transport_error("Transport Error: reset"));
    assert!(is_retryable_bootstrap_transport_error("CONNECTION REFUSED"));
    assert!(!is_retryable_bootstrap_transport_error("permission denied"));
    assert_eq!(agent_candidate("abc"), "/tmp/singbox-edge-agent-abc.tmp");
}

#[test]
fn words_of_the_command_line_are_read_by_place() {
    let args = vec!["edge".to_owned(), "deploy".to_owned(), "  ".to_owned(), " x ".to_owned()];
    assert_eq!(argument_at(&args, 1).as_deref(), Some("deploy"));
    assert_eq!(argument_at(&args, 9), None);
    assert_eq!(optional_arg(&args, 2), None);
    assert_eq!(optional_arg(&args, 3).as_deref(), Some("x"));
}

#[test]
fn texts_are_taken_apart() {
    assert_eq!(split_once("a=b=c", '='), Some(("a", "b=c")));
    assert_eq!(split_once("abc", '='), None);
    assert_eq!(replace_first("aXbX", "X", "-"), "a-bX");
    assert_eq!(replace_char("1.2.3", '.', "-"), "1-2-3");
    assert!(same_ignoring_case("AbC", "aBc"));
    assert!(!same_ignoring_case("AbC", "aBd"));
    assert_eq!(signed_number(-17), "-17");
    assert_eq!(signed_number(i32::MIN), "-2147483648");
    assert_eq!(split_lines("a\r\nb\n"), vec!["a".to_owned(), "b".to_owned()]);
    assert!(matches!(parse_number("+65535", 65535), Ok(65535)));
    assert!(parse_number("65536", 65535).is_err());
    assert!(parse_number("", 65535).is_err());
    assert_eq!(strip_prefix("literal:/key", "literal:"), Some("/key"));
    assert_eq!(strip_prefix("path:/key", "literal:"), None);
}

#[test]
fn flags_of_the_environment_are_read() {
    assert!(env_flag(&Some("1".to_owned()), false));
    assert!(!env_flag(&Some("true".to_owned()), true));
    assert!(env_flag(&None, true));
    assert!(!env_flag(&None, false));
    assert_eq!(non_blank(" a ".to_owned()).as_deref(), Some("a"));
    assert_eq!(non_blank("  ".to_owned()), None);
}

#[test]
fn registries_are_refused_for_unknown_fields_at_every_level() {
    let read = |raw: &str| FirewallProfileSet::parse_json(raw).err().unwrap();
    assert_eq!(
        read(r#"{"schema":1,"profiles":[],"extra":1}"#),
        "firewall profiles contains unknown field extra"
    );
    assert_eq!(
        read(r#"{"schema":1,"profiles":[{"name":"edge","rules":[],"extra":1}]}"#),
        "firewall profile contains unknown field extra"
    );
    assert_eq!(
        read(r#"{"schema":1,"profiles":[{"name":"edge","rules":[{"extra":1}]}]}"#),
        "firewall rule contains unknown field extra"
    );
}

#[test]
fn rules_that_were_read_stand_in_order() {
    let set = FirewallProfileSet::parse_json(
        r#"{"schema":1,"profiles":[{"name":"edge","rules":[
            {"ip_type":"v4","protocol":"udp","subnet":"0.0.0.0","subnet_size":0,"port":"443"},
            {"ip_type":"v4","protocol":"tcp","subnet":"0.0.0.0","subnet_size":0,"port":"443"},
            {"ip_type":"v4","protocol":"tcp","subnet":"0.0.0.0","subnet_size":0,"port":"22"}]}]}"#,
    )
    .ok()
    .unwrap();
    let rules = &set.profile("edge").unwrap().rules;
    let seen: Vec<(&str, &str)> = rules
        .iter()
        .map(|rule| (rule.protocol.as_str(), rule.port.as_str()))
        .collect();
    assert_eq!(seen, vec![("tcp", "22"), ("tcp", "443"), ("udp", "443")]);
}

#[test]
fn all_firewalls_of_an_environment_are_picked_in_order() {
    let group = |id: &str, description: &str| VultrFirewallGroup {
        id: id.to_owned(),
        description: description.to_owned(),
    };
    let listing = Ok(vec![
        group("c", "singbox-production-fw-edge"),
        group("b", "singbox-staging-fw-edge"),
        group("a", "singbox-production-fw-inner"),
        group("d", "other"),
    ]);
    let picked = removable_groups(&listing, "production", &vec![]).unwrap();
    let ids: Vec<&str> = picked.iter().map(|group| group.id.as_str()).collect();
    assert_eq!(ids, vec!["a", "c"]);
}

#[test]
fn errors_come_of_texts() {
    let error = ControllerError::from("no such command");
    assert_eq!(error, ControllerError::Command("no such command".to_owned()));
    assert_eq!(error.category(), "command");
}
