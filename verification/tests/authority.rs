use edge_controller::access::VerifiedFirewalls;
use edge_controller::adapter::{
    DecodedTags, ObservedMachine, normalize_vultr_inventory_with_firewall_profiles,
};
use edge_controller::authority::{
    AccessGrounds, AccessObserved, AccessSubject, acquire_material,
    build_instance_action_authority, observe_firewall_access_authority, release_material,
};
use edge_controller::bootstrap::InstanceAction;
use edge_controller::cleanup::{
    CleanupAuthority, CleanupObserved, Ownership, TaggedInstance, build_support_cleanup_authority,
    cleanup_material,
};
use edge_controller::machine::{
    DesiredState, MachinePlan, MachineProvider, MachineSpec, PlanClass, PlanDisposition,
};
use edge_controller::provider::{VultrFirewallGroup, VultrFirewallRule, VultrInstance};
use edge_controller::support::ResolvedSshKey;
use edge_controller::vultr_command::{AccessProfiles, build_access_authority};

const REGISTRY: &str = r#"{"schema":1,"profiles":[{"name":"edge","rules":[
    {"ip_type":"v4","protocol":"tcp","subnet":"@controller-ipv4","subnet_size":32,"port":"22"}]}]}"#;
const KEY: &str = "ssh-ed25519 AAAAB3NzaC1lZDI1 ops";

fn machine() -> MachineSpec {
    MachineSpec {
        id: "edge-1".to_owned(),
        provider: MachineProvider {
            region: "waw".to_owned(),
            plan: "vc2-1c-1gb".to_owned(),
            os_id: Some(2625),
            snapshot_id: None,
            enable_ipv6: false,
            firewall_profile: Some("edge".to_owned()),
        },
        bootstrap_profile: "singbox-host-v1".to_owned(),
    }
}

fn desired() -> DesiredState {
    DesiredState {
        environment: "production".to_owned(),
        machines: vec![machine()],
    }
}

fn held() -> AccessProfiles {
    let address = Some("203.0.113.25".to_owned());
    build_access_authority(&desired(), &machine(), REGISTRY, &address)
        .ok()
        .unwrap()
        .1
}

fn group() -> VultrFirewallGroup {
    VultrFirewallGroup {
        id: "fw-1".to_owned(),
        description: "singbox-production-fw-edge".to_owned(),
    }
}

fn rule(id: u64, subnet: &str) -> VultrFirewallRule {
    VultrFirewallRule {
        id,
        ip_type: "v4".to_owned(),
        protocol: "tcp".to_owned(),
        subnet: subnet.to_owned(),
        subnet_size: 32,
        port: "22".to_owned(),
        source: String::new(),
        notes: String::new(),
    }
}

fn instance(power: &str) -> VultrInstance {
    VultrInstance {
        id: "instance-1".to_owned(),
        label: "edge-1".to_owned(),
        region: "waw".to_owned(),
        plan: "vc2-1c-1gb".to_owned(),
        status: "active".to_owned(),
        server_status: "ok".to_owned(),
        power_status: power.to_owned(),
        main_ip: "203.0.113.10".to_owned(),
        v6_main_ip: String::new(),
        firewall_group_id: "fw-1".to_owned(),
        date_created: String::new(),
        tags: vec![],
        os_id: 2625,
        snapshot_id: None,
        enable_ipv6: false,
    }
}

fn inventory() -> Vec<ObservedMachine> {
    let decoded = DecodedTags {
        ownership: Ownership {
            managed_by: Some("me".to_owned()),
            environment: Some("production".to_owned()),
            logical_id: Some("edge-1".to_owned()),
        },
        user_tags: vec![],
        spec_digest: None,
    };
    normalize_vultr_inventory_with_firewall_profiles(
        &vec![instance("running")],
        vec![Ok(decoded)],
        &VerifiedFirewalls::new(),
    )
    .unwrap()
}

fn plan(class: PlanClass) -> MachinePlan {
    MachinePlan {
        machine_id: "edge-1".to_owned(),
        class,
        provider_id: Some("instance-1".to_owned()),
        desired_spec_digest: String::new(),
        reasons: Vec::new(),
    }
}

#[test]
fn access_taken_is_bound_to_the_machines_and_the_firewall() {
    let (desired, held, seen) = (desired(), held(), inventory());
    let subject = AccessSubject {
        desired: &desired,
        machine_id: "edge-1",
        firewall_profile: "edge",
        registry: REGISTRY,
        profiles: &held,
    };
    let rules = vec![rule(9, "203.0.113.25"), rule(3, "198.51.100.1")];
    let support =
        observe_firewall_access_authority("production", "edge", Some(group()), rules);
    assert_eq!(support.description, "singbox-production-fw-edge");
    assert_eq!(support.group, Some(group()));
    let ids: Vec<u64> = support.rules.iter().map(|rule| rule.id).collect();
    assert_eq!(ids, [3, 9]);

    let noop = plan(PlanClass::Noop);
    let bound = acquire_material(subject, &seen, support, &noop);
    assert_eq!(bound.scope, "vultr_support_access");
    assert_eq!(bound.desired.desired, &desired);
    assert_eq!(bound.desired.machine_id, "edge-1");
    assert_eq!(bound.desired.operation, "ACQUIRE");
    assert_eq!(bound.desired.controller_ipv4, "203.0.113.25");
    assert_eq!(bound.desired.firewall_profiles, REGISTRY);
    match &bound.observed {
        AccessObserved::Acquire {
            machine_inventory,
            support,
        } => {
            assert_eq!(*machine_inventory, &seen);
            assert_eq!(support.rules.len(), 2);
        }
        other => panic!("{other:?}"),
    }
    assert_eq!(bound.plan.action, "NOOP");
    assert_eq!(bound.plan.machine_id, "edge-1");
    assert_eq!(bound.plan.firewall_profile, "edge");
    assert_eq!(bound.plan.grounds, AccessGrounds::MachinePlan(&noop));
    assert_eq!(bound.disposition, PlanDisposition::Noop);

    let nothing = observe_firewall_access_authority("production", "edge", None, vec![]);
    assert_eq!(nothing.group, None);
    let blocked = plan(PlanClass::Create);
    let bound = acquire_material(subject, &seen, nothing, &blocked);
    assert_eq!(bound.plan.action, "BLOCKED");
    assert_eq!(bound.disposition, PlanDisposition::Blocked);
}

#[test]
fn access_given_back_is_bound_to_the_rules_that_give_it() {
    let (desired, held) = (desired(), held());
    let subject = AccessSubject {
        desired: &desired,
        machine_id: "edge-1",
        firewall_profile: "edge",
        registry: REGISTRY,
        profiles: &held,
    };
    let observe = |rules: Vec<VultrFirewallRule>| {
        observe_firewall_access_authority("production", "edge", Some(group()), rules)
    };
    let rules = vec![
        rule(9, "203.0.113.25"),
        rule(5, "198.51.100.1"),
        rule(3, "203.0.113.25"),
    ];
    let bound = release_material(subject, observe(rules)).unwrap();
    assert_eq!(bound.scope, "vultr_support_access");
    assert_eq!(bound.desired.operation, "RELEASE");
    assert_eq!(bound.plan.action, "RELEASE");
    assert_eq!(
        bound.plan.grounds,
        AccessGrounds::MatchingRuleIds(vec![3, 9])
    );
    assert_eq!(bound.disposition, PlanDisposition::Mutate);
    match &bound.observed {
        AccessObserved::Release(support) => assert_eq!(support.rules.len(), 3),
        other => panic!("{other:?}"),
    }

    let bound = release_material(subject, observe(vec![rule(5, "198.51.100.1")])).unwrap();
    assert_eq!(bound.plan.action, "NOOP");
    assert_eq!(bound.plan.grounds, AccessGrounds::MatchingRuleIds(vec![]));
    assert_eq!(bound.disposition, PlanDisposition::Noop);

    let other = AccessSubject {
        firewall_profile: "other",
        ..subject
    };
    assert_eq!(
        release_material(other, observe(vec![])),
        Err("firewall profile other is not defined".to_owned())
    );
    let mut unreadable = rule(1, "203.0.113.25");
    unreadable.ip_type = "v5".to_owned();
    assert!(release_material(subject, observe(vec![unreadable])).is_err());
}

#[test]
fn actions_are_bound_to_what_the_machine_is_doing() {
    let (desired, seen, running) = (desired(), inventory(), instance("running"));
    let build = |action: InstanceAction, id: &'static str| {
        build_instance_action_authority(&desired, "edge-1", action, &seen, id, &running)
    };
    let bound = build(InstanceAction::Halt, "instance-1").unwrap();
    assert_eq!(bound.scope, "vultr_instance_action");
    assert_eq!(bound.desired.desired, &desired);
    assert_eq!(bound.desired.machine_id, "edge-1");
    assert_eq!(
        bound.desired.requested_action,
        bound.plan.requested_action
    );
    assert_eq!(bound.observed.lifecycle_inventory, &seen);
    assert_eq!(bound.observed.operational.provider_id, "instance-1");
    assert_eq!(bound.observed.operational.power_status, "running");
    assert_eq!(bound.observed.operational.status, "active");
    assert_eq!(bound.observed.operational.server_status, "ok");
    assert_eq!(bound.plan.provider_id, "instance-1");
    assert_eq!(bound.plan.machine_id, "edge-1");
    assert_eq!(bound.plan.action, "HALT");
    assert_eq!(bound.disposition, PlanDisposition::Mutate);
    let bound = build(InstanceAction::Start, "instance-1").unwrap();
    assert_eq!(bound.plan.action, "NOOP");
    assert_eq!(bound.disposition, PlanDisposition::Noop);
    assert_eq!(
        build(InstanceAction::Start, "instance-2"),
        Err(
            "instance action observation returned unexpected provider id instance-1 for instance-2"
                .to_owned()
        )
    );
}

fn tagged(id: &str, environment: &str) -> TaggedInstance {
    TaggedInstance {
        id: id.to_owned(),
        firewall_group_id: format!("fw-{id}"),
        tags: vec!["b".to_owned(), "a".to_owned(), "b".to_owned()],
        ownership: Ok(Ownership {
            managed_by: Some("me".to_owned()),
            environment: Some(environment.to_owned()),
            logical_id: None,
        }),
    }
}

#[test]
fn a_cleanup_is_bound_to_all_that_was_seen() {
    let desired = desired();
    let used = vec![tagged("z", "staging"), tagged("c", "production")];
    match build_support_cleanup_authority(&desired, used, "me", KEY).unwrap() {
        CleanupAuthority::InUse(bound) => {
            assert_eq!(bound.scope, "vultr_support_cleanup");
            assert_eq!(bound.desired.desired, &desired);
            assert_eq!(
                bound.desired.canonical_ssh_public_key,
                "ssh-ed25519 AAAAB3NzaC1lZDI1"
            );
            assert_eq!(bound.disposition, PlanDisposition::Noop);
            match bound.observed {
                CleanupObserved::InUse { instances } => {
                    let ids: Vec<&str> = instances.iter().map(|one| one.id.as_str()).collect();
                    assert_eq!(ids, ["c", "z"]);
                    assert_eq!(instances[0].firewall_group_id, "fw-c");
                    assert_eq!(instances[0].tags, ["a", "b", "b"]);
                }
                other => panic!("{other:?}"),
            }
        }
        other => panic!("{other:?}"),
    }

    let free = vec![tagged("z", "staging"), tagged("c", "staging")];
    match build_support_cleanup_authority(&desired, free, "me", KEY).unwrap() {
        CleanupAuthority::Free {
            instances,
            material,
        } => {
            let key = Some(ResolvedSshKey {
                id: "key-1".to_owned(),
                name: "singbox-production-ops".to_owned(),
            });
            let groups = vec![group()];
            let bound = cleanup_material(&desired, &instances, &groups, &key, material);
            assert_eq!(bound.scope, "vultr_support_cleanup");
            assert_eq!(bound.plan.action, "CLEANUP");
            assert_eq!(bound.plan.firewall_group_ids, ["fw-1"]);
            assert_eq!(bound.plan.ssh_key_id.as_deref(), Some("key-1"));
            assert_eq!(bound.disposition, PlanDisposition::Mutate);
            match bound.observed {
                CleanupObserved::Free {
                    instances,
                    firewall_groups,
                    ssh_key,
                } => {
                    assert_eq!(instances.len(), 2);
                    assert_eq!(instances[0].id, "c");
                    assert_eq!(firewall_groups, groups);
                    let key = ssh_key.unwrap();
                    assert_eq!(key.id, "key-1");
                    assert_eq!(key.name, "singbox-production-ops");
                    assert_eq!(key.public_key, "ssh-ed25519 AAAAB3NzaC1lZDI1");
                }
                other => panic!("{other:?}"),
            }
        }
        other => panic!("{other:?}"),
    }
    let none = cleanup_material(&desired, &vec![], &vec![], &None, "m".to_owned());
    assert_eq!(none.plan.action, "NOOP");
    assert_eq!(none.disposition, PlanDisposition::Noop);
}
