use edge_controller::access::{
    BindingAsk, BindingSearch, ControllerAccessReleaseReport, ReleaseAsk, VerifiedFirewalls,
    find_release_targets, finish_release, is_granted, release_controller_ipv4_access,
    release_without_firewall,
};
use edge_controller::catalog::{CatalogNext, CatalogPart, validate_machine_catalog};
use edge_controller::cleanup::{
    CleanupAsk, Ownership, SupportCleanup, SupportCleanupReport, TaggedInstance,
    environment_in_use, plan_for_environment_in_use, plan_support_cleanup, removable_groups,
    removable_key, report_environment_in_use,
};
use edge_controller::firewall::{
    FirewallProfile, FirewallProfileSet, FirewallRuleSpec, arrange, controller_ipv4_access_specs,
    firewall_group_description, firewall_rule_spec, same_firewall_access_semantics,
    uses_placeholder, validate_rule,
};
use edge_controller::json::Json;
use edge_controller::machine::{DesiredState, MachineProvider, MachineSpec, PlanDisposition};
use edge_controller::once::{Next, ProviderFault};
use edge_controller::provider::{
    VultrFirewallGroup, VultrFirewallRule, VultrPlan, VultrSnapshot, VultrSshKey,
};
use edge_controller::reconcile::{
    ReconcileAsk, RuleChange, RuleReconcile, firewall_rules_match, next_rule_change,
    rule_creation_replied, rule_deletion_looked, rule_deletion_replied,
};
use edge_controller::support::{
    KeyResolution, GroupResolution, ResolvedSshKey, Shared, SshKeyObservation,
    VultrSupportApiProvider, lists_group, lists_key, observe_managed_ssh_key, public_key_material,
    removal_looked, removal_replied,
};

const PUBLIC_KEY: &str = "ssh-ed25519 AAAAC3NzaC1lZDI1NTE5AAAAIPSsamKBL5VmXVJM4R1WXVXl3yvvExG5u9SAlZyItrRr canonical";
const ATTEMPTS: usize = 2;
const MANAGED_BY: &str = "sing-box";

fn uncertain(operation: &str) -> ProviderFault {
    ProviderFault {
        not_found: false,
        uncertain: true,
        message: format!("{operation}: simulated response loss"),
    }
}

#[derive(Default)]
struct FakeSupport {
    ssh_keys: Vec<VultrSshKey>,
    ssh_create_error: Option<ProviderFault>,
    ssh_create_commits: bool,
    ssh_create_calls: usize,
    ssh_delete_error: Option<ProviderFault>,
    ssh_delete_commits: bool,
    ssh_delete_calls: usize,
    groups: Vec<VultrFirewallGroup>,
    group_create_calls: usize,
    group_delete_calls: usize,
    rules: Vec<VultrFirewallRule>,
    next_rule_id: u64,
    rule_create_calls: usize,
    rule_delete_calls: usize,
    create_delay: usize,
    delete_delay: usize,
    pending_create: Option<(usize, VultrFirewallRule)>,
    pending_delete: Option<(usize, u64)>,
}

impl FakeSupport {
    fn create_key(&mut self, name: &str, key: &str) -> Option<ProviderFault> {
        self.ssh_create_calls += 1;
        if self.ssh_create_error.is_none() || self.ssh_create_commits {
            self.ssh_keys.push(VultrSshKey {
                id: "ssh-1".to_owned(),
                name: name.to_owned(),
                ssh_key: key.to_owned(),
            });
        }
        self.ssh_create_error.clone()
    }

    fn delete_key(&mut self, id: &str) -> Option<ProviderFault> {
        self.ssh_delete_calls += 1;
        if self.ssh_delete_error.is_none() || self.ssh_delete_commits {
            self.ssh_keys.retain(|key| key.id != id);
        }
        self.ssh_delete_error.clone()
    }

    fn list_rules(&mut self) -> Vec<VultrFirewallRule> {
        if let Some((reads, rule)) = self.pending_create.take() {
            if reads >= self.create_delay {
                self.rules.push(rule);
            } else {
                self.pending_create = Some((reads + 1, rule));
            }
        }
        if let Some((reads, id)) = self.pending_delete.take() {
            if reads >= self.delete_delay {
                self.rules.retain(|rule| rule.id != id);
            } else {
                self.pending_delete = Some((reads + 1, id));
            }
        }
        self.rules.clone()
    }

    fn create_rule(&mut self, rule: &FirewallRuleSpec) -> VultrFirewallRule {
        self.rule_create_calls += 1;
        self.next_rule_id += 1;
        let made = VultrFirewallRule {
            id: self.next_rule_id,
            ip_type: rule.ip_type.clone(),
            protocol: rule.protocol.clone(),
            subnet: rule.subnet.clone(),
            subnet_size: rule.subnet_size,
            port: rule.port.clone(),
            source: rule.source.clone(),
            notes: rule.notes.clone(),
        };
        if self.create_delay == 0 {
            self.rules.push(made.clone());
        } else {
            self.pending_create = Some((0, made.clone()));
        }
        made
    }

    fn delete_rule(&mut self, id: u64) {
        self.rule_delete_calls += 1;
        if self.delete_delay == 0 {
            self.rules.retain(|rule| rule.id != id);
        } else {
            self.pending_delete = Some((0, id));
        }
    }
}

fn resolve_key(provider: &mut FakeSupport) -> Result<ResolvedSshKey, String> {
    let mut state = KeyResolution::new("production", PUBLIC_KEY)?;
    loop {
        let (after, next) = state.resolve_managed_ssh_key(ATTEMPTS, &Ok(provider.ssh_keys.clone()));
        state = after;
        let next = match next {
            Next::Change => {
                let key = state.request();
                let fault = provider.create_key(&key.name, &key.public_key);
                let (after, next) = state.replied(ATTEMPTS, &fault);
                state = after;
                next
            }
            other => other,
        };
        match next {
            Next::Done(result) => return result,
            Next::Look { .. } => {}
            Next::Change => panic!("asked for twice"),
        }
    }
}

fn ensure_group(provider: &mut FakeSupport, profile: &FirewallProfile) -> String {
    let mut state = GroupResolution::new("production", profile);
    loop {
        let (after, next) = state.ensure_firewall_profile(ATTEMPTS, &Ok(provider.groups.clone()));
        state = after;
        let next = match next {
            Next::Change => {
                provider.group_create_calls += 1;
                provider.groups.push(VultrFirewallGroup {
                    id: "fw-1".to_owned(),
                    description: state.description.clone(),
                });
                let (after, next) = state.replied(ATTEMPTS, &None);
                state = after;
                next
            }
            other => other,
        };
        if let Next::Done(result) = next {
            return result.unwrap().id;
        }
    }
}

fn delete_rule(provider: &mut FakeSupport, id: u64) -> Result<(), String> {
    provider.delete_rule(id);
    let (mut phase, mut next) = rule_deletion_replied(ATTEMPTS, id, &None);
    loop {
        match next {
            Next::Done(result) => return result,
            _ => {
                let listing = Ok(provider.list_rules());
                let (p, n) = rule_deletion_looked(phase, ATTEMPTS, id, &listing);
                phase = p;
                next = n;
            }
        }
    }
}

fn create_rule(provider: &mut FakeSupport, rule: &FirewallRuleSpec) -> Result<(), String> {
    let made = provider.create_rule(rule);
    let (mut state, mut next) = rule_creation_replied(ATTEMPTS, rule, &Ok(made));
    loop {
        match next {
            Next::Done(result) => return result,
            _ => {
                let listing = Ok(provider.list_rules());
                let (s, n) = state.create_firewall_rule_and_observe(ATTEMPTS, rule, &listing);
                state = s;
                next = n;
            }
        }
    }
}

fn reconcile(provider: &mut FakeSupport, profile: &FirewallProfile) -> Result<(), String> {
    let mut state = RuleReconcile::new();
    loop {
        let listing = Ok(provider.list_rules());
        let (after, ask) = state.reconcile_firewall_rules(profile, &listing);
        state = after;
        match ask {
            ReconcileAsk::Converged => return Ok(()),
            ReconcileAsk::Delete(id) => delete_rule(provider, id)?,
            ReconcileAsk::Create(rule) => create_rule(provider, &rule)?,
            ReconcileAsk::LastLook => {
                return Err(RuleReconcile::exhausted(profile, &Ok(provider.list_rules())));
            }
            ReconcileAsk::Fail(e) => return Err(e),
        }
    }
}

fn profiles() -> FirewallProfileSet {
    FirewallProfileSet::parse_json(
        r#"{
  "schema": 1,
  "profiles": [
    {
      "name": "ssh-only",
      "rules": [
        {
          "ip_type": "v4",
          "protocol": "tcp",
          "subnet": "203.0.113.10",
          "subnet_size": 32,
          "port": "22",
          "notes": "managed ssh"
        }
      ]
    }
  ]
}"#,
    )
    .unwrap()
}

fn wrong_rule() -> VultrFirewallRule {
    VultrFirewallRule {
        id: 1,
        ip_type: "v4".to_owned(),
        protocol: "tcp".to_owned(),
        subnet: "192.0.2.1".to_owned(),
        subnet_size: 32,
        port: "22".to_owned(),
        source: String::new(),
        notes: "wrong".to_owned(),
    }
}

fn owned_group() -> VultrFirewallGroup {
    VultrFirewallGroup {
        id: "fw-1".to_owned(),
        description: "singbox-production-fw-ssh-only".to_owned(),
    }
}

#[test]
fn provider_derived_cidr_source_is_not_independent_rule_identity() {
    let rule = VultrFirewallRule {
        id: 1,
        ip_type: "v4".to_owned(),
        protocol: "tcp".to_owned(),
        subnet: "203.0.113.10".to_owned(),
        subnet_size: 32,
        port: "22".to_owned(),
        source: "203.0.113.10/32".to_owned(),
        notes: "managed ssh".to_owned(),
    };
    let normalized = firewall_rule_spec(&rule).unwrap();
    assert_eq!(normalized.source, "");
    assert_eq!(normalized.subnet, "203.0.113.10");
    assert_eq!(normalized.subnet_size, 32);
}

#[test]
fn special_firewall_source_remains_significant_identity() {
    let rule = VultrFirewallRule {
        id: 1,
        ip_type: "v4".to_owned(),
        protocol: "tcp".to_owned(),
        subnet: "0.0.0.0".to_owned(),
        subnet_size: 0,
        port: "443".to_owned(),
        source: "cloudflare".to_owned(),
        notes: String::new(),
    };
    let normalized = firewall_rule_spec(&rule).unwrap();
    assert_eq!(normalized.source, "cloudflare");
}

#[test]
fn firewall_profiles_reject_unknown_fields_and_duplicates() {
    let unknown = r#"{"schema":1,"profiles":[],"extra":true}"#;
    assert!(FirewallProfileSet::parse_json(unknown).is_err());

    let duplicate = r#"{
          "schema":1,
          "profiles":[
            {"name":"same","rules":[]},
            {"name":"same","rules":[]}
          ]
        }"#;
    assert!(FirewallProfileSet::parse_json(duplicate).is_err());
}

#[test]
fn public_key_identity_ignores_comment_but_not_material() {
    let first = public_key_material(
        "ssh-ed25519 AAAAC3NzaC1lZDI1NTE5AAAAIPSsamKBL5VmXVJM4R1WXVXl3yvvExG5u9SAlZyItrRr comment-a",
    )
    .unwrap();
    let second = public_key_material(
        "ssh-ed25519 AAAAC3NzaC1lZDI1NTE5AAAAIPSsamKBL5VmXVJM4R1WXVXl3yvvExG5u9SAlZyItrRr comment-b",
    )
    .unwrap();
    assert_eq!(first, second);
}

#[test]
fn resolves_existing_exact_managed_ssh_key_without_mutation() {
    let mut provider = FakeSupport {
        ssh_keys: vec![VultrSshKey {
            id: "ssh-existing".to_owned(),
            name: "singbox-production-ops".to_owned(),
            ssh_key: PUBLIC_KEY.to_owned(),
        }],
        ..FakeSupport::default()
    };
    let resolved = resolve_key(&mut provider).unwrap();
    assert_eq!(resolved.id, "ssh-existing");
    assert_eq!(provider.ssh_create_calls, 0);
}

#[test]
fn uncertain_ssh_create_reobserves_without_replay() {
    let mut provider = FakeSupport {
        ssh_create_error: Some(uncertain("create Vultr SSH key")),
        ssh_create_commits: true,
        ..FakeSupport::default()
    };
    let resolved = resolve_key(&mut provider).unwrap();
    assert_eq!(resolved.id, "ssh-1");
    assert_eq!(provider.ssh_create_calls, 1);
}

#[test]
fn unresolved_ssh_create_is_an_error_after_one_request() {
    let mut provider = FakeSupport {
        ssh_create_error: Some(uncertain("create Vultr SSH key")),
        ..FakeSupport::default()
    };
    assert!(resolve_key(&mut provider).is_err());
    assert_eq!(provider.ssh_create_calls, 1);
}

#[test]
fn managed_ssh_name_with_wrong_material_fails_closed() {
    let mut provider = FakeSupport {
        ssh_keys: vec![VultrSshKey {
            id: "ssh-conflict".to_owned(),
            name: "singbox-production-ops".to_owned(),
            ssh_key: "ssh-ed25519 AAAAwrong conflict".to_owned(),
        }],
        ..FakeSupport::default()
    };
    let error = resolve_key(&mut provider).unwrap_err();
    assert!(error.contains("different public key material"));
    assert_eq!(provider.ssh_create_calls, 0);
}

#[test]
fn firewall_profile_create_and_reconcile_converges_exactly() {
    let profile_set = profiles();
    let profile = profile_set.profile("ssh-only").unwrap();
    let mut provider = FakeSupport::default();
    assert_eq!(ensure_group(&mut provider, profile), "fw-1");
    reconcile(&mut provider, profile).unwrap();
    assert_eq!(provider.group_create_calls, 1);
    assert_eq!(provider.rule_create_calls, 1);
    assert!(firewall_rules_match(profile, &provider.rules).unwrap());
}

#[test]
fn firewall_create_waits_for_visibility_without_duplicate_mutation() {
    let profile_set = profiles();
    let profile = profile_set.profile("ssh-only").unwrap();
    let mut provider = FakeSupport {
        create_delay: 1,
        ..FakeSupport::default()
    };
    reconcile(&mut provider, profile).unwrap();
    assert_eq!(provider.rule_create_calls, 1);
    assert!(firewall_rules_match(profile, &provider.rules).unwrap());
}

#[test]
fn firewall_delete_waits_for_absence_before_next_mutation() {
    let profile_set = profiles();
    let profile = profile_set.profile("ssh-only").unwrap();
    let mut provider = FakeSupport {
        groups: vec![owned_group()],
        rules: vec![wrong_rule()],
        next_rule_id: 1,
        delete_delay: 1,
        ..FakeSupport::default()
    };
    assert_eq!(ensure_group(&mut provider, profile), "fw-1");
    reconcile(&mut provider, profile).unwrap();
    assert_eq!(provider.group_create_calls, 0);
    assert_eq!(provider.rule_delete_calls, 1);
    assert_eq!(provider.rule_create_calls, 1);
    assert!(firewall_rules_match(profile, &provider.rules).unwrap());
}

#[test]
fn firewall_reconcile_removes_unowned_rule_inside_owned_group() {
    let profile_set = profiles();
    let profile = profile_set.profile("ssh-only").unwrap();
    let mut provider = FakeSupport {
        groups: vec![owned_group()],
        rules: vec![wrong_rule()],
        next_rule_id: 1,
        ..FakeSupport::default()
    };
    reconcile(&mut provider, profile).unwrap();
    assert_eq!(provider.rule_delete_calls, 1);
    assert_eq!(provider.rule_create_calls, 1);
    assert!(firewall_rules_match(profile, &provider.rules).unwrap());
}

#[test]
fn rule_that_never_shows_is_not_made_again() {
    let profile_set = profiles();
    let profile = profile_set.profile("ssh-only").unwrap();
    let mut provider = FakeSupport {
        create_delay: 9,
        ..FakeSupport::default()
    };
    assert!(reconcile(&mut provider, profile).is_err());
    assert_eq!(provider.rule_create_calls, 1);
}

#[test]
fn changes_are_named_one_at_a_time() {
    let profile_set = profiles();
    let profile = profile_set.profile("ssh-only").unwrap();
    assert_eq!(
        next_rule_change(profile, &vec![wrong_rule()]),
        Ok(RuleChange::Delete(1))
    );
    assert!(matches!(
        next_rule_change(profile, &vec![]),
        Ok(RuleChange::Create(_))
    ));
    let mut right = wrong_rule();
    right.subnet = "203.0.113.10".to_owned();
    right.notes = "managed ssh".to_owned();
    assert_eq!(
        next_rule_change(profile, &vec![right]),
        Ok(RuleChange::Nothing)
    );
}

fn access_profiles() -> FirewallProfileSet {
    FirewallProfileSet::parse_json(
        r#"{
              "schema":1,
              "profiles":[{
                "name":"edge-access",
                "rules":[
                  {
                    "ip_type":"v4",
                    "protocol":"tcp",
                    "subnet":"@controller-ipv4",
                    "subnet_size":32,
                    "port":"22",
                    "notes":"ephemeral controller SSH"
                  },
                  {
                    "ip_type":"v4",
                    "protocol":"tcp",
                    "subnet":"0.0.0.0",
                    "subnet_size":0,
                    "port":"443",
                    "notes":"public service"
                  }
                ]
              }]
            }"#,
    )
    .unwrap()
}

fn release(
    provider: &mut FakeSupport,
    profile: &FirewallProfile,
) -> Result<ControllerAccessReleaseReport, String> {
    let targets = find_release_targets(profile, "203.0.113.25")?;
    let observed = provider.list_rules();
    let mut removed: Vec<u64> = Vec::new();
    let mut from: usize = 0;
    loop {
        let (at, ask) = release_controller_ipv4_access(&targets, &observed, from);
        match ask {
            ReleaseAsk::Delete(id) => {
                delete_rule(provider, id)?;
                removed.push(id);
                from = at + 1;
            }
            ReleaseAsk::FinalLook => break,
            ReleaseAsk::Fail(e) => return Err(e),
        }
    }
    finish_release(
        &targets,
        &"fw-1".to_owned(),
        &removed,
        &Ok(provider.list_rules()),
    )
}

#[test]
fn controller_access_release_removes_only_exact_dynamic_rule() {
    let profile_set = access_profiles();
    let profile = profile_set.profile("edge-access").unwrap();
    let mut provider = FakeSupport {
        rules: vec![
            VultrFirewallRule {
                id: 11,
                ip_type: "v4".to_owned(),
                protocol: "tcp".to_owned(),
                subnet: "203.0.113.25".to_owned(),
                subnet_size: 32,
                port: "22".to_owned(),
                source: String::new(),
                notes: "provider-side note drift must not keep SSH open".to_owned(),
            },
            VultrFirewallRule {
                id: 12,
                ip_type: "v4".to_owned(),
                protocol: "tcp".to_owned(),
                subnet: "0.0.0.0".to_owned(),
                subnet_size: 0,
                port: "443".to_owned(),
                source: String::new(),
                notes: "public service".to_owned(),
            },
        ],
        ..FakeSupport::default()
    };
    let report = release(&mut provider, profile).unwrap();
    assert!(report.verified_absent);
    assert_eq!(report.removed_rule_ids, vec![11]);
    let remaining = &provider.rules;
    assert_eq!(remaining.len(), 1);
    assert_eq!(remaining[0].id, 12);
    assert_eq!(provider.rule_delete_calls, 1);
}

#[test]
fn access_is_released_where_there_is_no_firewall() {
    let report = release_without_firewall();
    assert_eq!(report.firewall_group_id, None);
    assert!(report.verified_absent);
}

#[test]
fn access_is_what_the_placeholder_grants() {
    let profile_set = access_profiles();
    let profile = profile_set.profile("edge-access").unwrap();
    assert!(uses_placeholder(&profile.rules));
    let specs = controller_ipv4_access_specs(profile, "203.0.113.25").unwrap();
    assert_eq!(specs.len(), 1);
    assert_eq!(specs[0].subnet, "203.0.113.25");
    assert!(is_granted(&specs, &specs[0]));
    let mut other = specs[0].copy();
    other.notes = "drift".to_owned();
    assert!(same_firewall_access_semantics(&specs[0], &other));
    other.port = "23".to_owned();
    assert!(!is_granted(&specs, &other));
    assert!(controller_ipv4_access_specs(profile, "not an address").is_err());
}

#[test]
fn resolves_controller_ipv4_placeholder_exactly() {
    let mut profile_set = FirewallProfileSet::parse_json(
        r#"{
              "schema":1,
              "profiles":[{
                "name":"acceptance-ssh",
                "rules":[{
                  "ip_type":"v4",
                  "protocol":"tcp",
                  "subnet":"@controller-ipv4",
                  "subnet_size":32,
                  "port":"22"
                }]
              }]
            }"#,
    )
    .unwrap();
    profile_set
        .resolve_controller_ipv4_for_profiles(
            &vec!["acceptance-ssh".to_owned()],
            Some("203.0.113.25"),
        )
        .unwrap();
    assert_eq!(
        profile_set.profile("acceptance-ssh").unwrap().rules[0].subnet,
        "203.0.113.25"
    );
}

#[test]
fn profiles_are_found_by_name_or_not_at_all() {
    let set = profiles();
    assert!(set.profile("ssh-only").is_ok());
    assert!(set.profile("other").is_err());
    let mut set = profiles();
    assert_eq!(
        set.resolve_controller_ipv4_for_profiles(&vec!["other".to_owned()], None),
        Ok(())
    );
    let mut access = access_profiles();
    assert_eq!(
        access.resolve_controller_ipv4_for_profiles(&vec!["edge-access".to_owned()], None),
        Err("referenced firewall profiles require EDGE_CONTROLLER_IPV4".to_owned())
    );
    assert_eq!(
        access.resolve_controller_ipv4_for_profiles(
            &vec!["edge-access".to_owned()],
            Some("203.0.113.256")
        ),
        Err("EDGE_CONTROLLER_IPV4 must be a valid IPv4 address".to_owned())
    );
    assert_eq!(
        access.resolve_controller_ipv4_for_profiles(
            &vec!["edge-access".to_owned(), "other".to_owned()],
            Some("203.0.113.25")
        ),
        Err("firewall profile other is not defined".to_owned())
    );
}

#[test]
fn documents_of_another_shape_are_refused() {
    assert!(FirewallProfileSet::from_json(&Json::Null).is_err());
    assert!(FirewallProfileSet::parse_json("{").is_err());
    assert!(FirewallProfileSet::parse_json(r#"{"schema":2,"profiles":[]}"#).is_err());
    assert!(
        FirewallProfileSet::parse_json(r#"{"schema":1,"profiles":[{"name":"","rules":[]}]}"#)
            .is_err()
    );
}

#[test]
fn rules_are_put_in_order_once() {
    let rule = |port: &str| FirewallRuleSpec {
        ip_type: "v4".to_owned(),
        protocol: "tcp".to_owned(),
        subnet: "0.0.0.0".to_owned(),
        subnet_size: 0,
        port: port.to_owned(),
        source: String::new(),
        notes: String::new(),
    };
    let arranged = arrange(&vec![rule("443"), rule("22"), rule("443")]);
    assert_eq!(arranged[0].port, "22");
    assert_eq!(arranged[1].port, "443");
    assert!(validate_rule(&rule("22")).is_ok());
    let mut wrong = rule("22");
    wrong.subnet_size = 33;
    assert_eq!(
        validate_rule(&wrong),
        Err("IPv4 firewall subnet_size must be <= 32".to_owned())
    );
    wrong.ip_type = "v6".to_owned();
    assert_eq!(validate_rule(&wrong), Ok(()));
    wrong.subnet_size = 129;
    assert_eq!(
        validate_rule(&wrong),
        Err("IPv6 firewall subnet_size must be <= 128".to_owned())
    );
    wrong.ip_type = "v5".to_owned();
    assert_eq!(
        validate_rule(&wrong),
        Err("unsupported firewall ip_type v5".to_owned())
    );
    let mut empty = rule("22");
    empty.protocol = String::new();
    assert_eq!(
        validate_rule(&empty),
        Err("firewall protocol and subnet must be non-empty".to_owned())
    );
    assert_eq!(
        firewall_group_description("production", "ssh-only"),
        "singbox-production-fw-ssh-only"
    );
}

fn tagged(environment: &str) -> TaggedInstance {
    TaggedInstance {
        id: "instance-1".to_owned(),
        firewall_group_id: "fw-1".to_owned(),
        tags: Vec::new(),
        ownership: Ok(Ownership {
            managed_by: Some(MANAGED_BY.to_owned()),
            environment: Some(environment.to_owned()),
            logical_id: Some("edge-1".to_owned()),
        }),
    }
}

fn acceptance_group() -> VultrFirewallGroup {
    VultrFirewallGroup {
        id: "fw-1".to_owned(),
        description: "singbox-acceptance-fw-ssh-only".to_owned(),
    }
}

fn acceptance_key() -> VultrSshKey {
    VultrSshKey {
        id: "ssh-1".to_owned(),
        name: "singbox-acceptance-ops".to_owned(),
        ssh_key: PUBLIC_KEY.to_owned(),
    }
}

fn clean_up(
    provider: &mut FakeSupport,
    environment: &str,
    instances: &Vec<TaggedInstance>,
) -> Result<SupportCleanupReport, String> {
    if environment_in_use(instances, MANAGED_BY, environment)? {
        return Ok(report_environment_in_use());
    }
    let material = public_key_material(PUBLIC_KEY)?;
    let groups = removable_groups(&Ok(provider.groups.clone()), environment, instances)?;
    let key = removable_key(&Ok(provider.ssh_keys.clone()), environment, &material)?;
    let mut state = SupportCleanup::new(groups, key);
    loop {
        let (what, id) = match state.cleanup_environment_support_resources() {
            CleanupAsk::Finish(report) => return Ok(report),
            CleanupAsk::RemoveGroup { id } => (Shared::FirewallGroup, id),
            CleanupAsk::RemoveKey { id } => (Shared::SshKey, id),
        };
        let fault = match what {
            Shared::FirewallGroup => {
                provider.group_delete_calls += 1;
                provider.groups.retain(|group| group.id != id);
                None
            }
            Shared::SshKey => provider.delete_key(&id),
        };
        let (mut phase, mut next) = removal_replied(what, &id, ATTEMPTS, &fault);
        loop {
            match next {
                Next::Done(result) => {
                    result?;
                    break;
                }
                _ => {
                    let there = match what {
                        Shared::FirewallGroup => lists_group(&provider.groups, &id),
                        Shared::SshKey => lists_key(&provider.ssh_keys, &id),
                    };
                    let (p, n) = removal_looked(what, &id, phase, ATTEMPTS, &Ok(there));
                    phase = p;
                    next = n;
                }
            }
        }
        state = state.removed();
    }
}

#[test]
fn cleanup_refuses_shared_resources_while_environment_is_in_use() {
    let mut provider = FakeSupport {
        ssh_keys: vec![VultrSshKey {
            id: "ssh-1".to_owned(),
            name: "singbox-production-ops".to_owned(),
            ssh_key: PUBLIC_KEY.to_owned(),
        }],
        ..FakeSupport::default()
    };
    let report = clean_up(&mut provider, "production", &vec![tagged("production")]).unwrap();
    assert!(report.environment_in_use);
    assert_eq!(provider.ssh_delete_calls, 0);
    assert_eq!(provider.group_delete_calls, 0);
    assert_eq!(
        plan_for_environment_in_use().disposition,
        PlanDisposition::Noop
    );
}

#[test]
fn cleanup_removes_owned_resources_once_after_environment_is_absent() {
    let mut provider = FakeSupport {
        ssh_keys: vec![acceptance_key()],
        groups: vec![acceptance_group()],
        ..FakeSupport::default()
    };
    let report = clean_up(&mut provider, "acceptance", &vec![]).unwrap();
    assert!(!report.environment_in_use);
    assert!(report.ssh_key_removed);
    assert_eq!(report.firewall_groups_removed, vec!["fw-1".to_owned()]);
    assert_eq!(provider.ssh_delete_calls, 1);
    assert_eq!(provider.group_delete_calls, 1);
}

#[test]
fn uncertain_cleanup_delete_reobserves_without_replay() {
    let mut provider = FakeSupport {
        ssh_keys: vec![acceptance_key()],
        ssh_delete_error: Some(uncertain("destroy Vultr SSH key")),
        ssh_delete_commits: true,
        ..FakeSupport::default()
    };
    clean_up(&mut provider, "acceptance", &vec![]).unwrap();
    assert_eq!(provider.ssh_delete_calls, 1);
    assert!(provider.ssh_keys.is_empty());
}

#[test]
fn firewalls_of_other_environments_are_left_alone() {
    let listing = Ok(vec![acceptance_group(), owned_group()]);
    let groups = removable_groups(&listing, "acceptance", &vec![]).unwrap();
    assert_eq!(groups.len(), 1);
    assert_eq!(groups[0].description, "singbox-acceptance-fw-ssh-only");
    let plan = plan_support_cleanup(&groups, &None);
    assert_eq!(plan.disposition, PlanDisposition::Mutate);
    assert_eq!(plan.firewall_group_ids, vec!["fw-1".to_owned()]);
    let nothing = plan_support_cleanup(&vec![], &None);
    assert_eq!(nothing.disposition, PlanDisposition::Noop);
}

#[test]
fn keys_are_observed_by_name_and_material() {
    let material = public_key_material(PUBLIC_KEY).unwrap();
    assert_eq!(
        observe_managed_ssh_key(&vec![], "singbox-acceptance-ops", &material),
        Ok(SshKeyObservation::Absent)
    );
    assert!(matches!(
        observe_managed_ssh_key(&vec![acceptance_key()], "singbox-acceptance-ops", &material),
        Ok(SshKeyObservation::Exact(_))
    ));
}

fn machine(os_id: Option<u32>, snapshot_id: Option<&str>) -> MachineSpec {
    MachineSpec {
        id: "edge-1".to_owned(),
        provider: MachineProvider {
            region: "waw".to_owned(),
            plan: "vc2-1c-1gb".to_owned(),
            os_id,
            snapshot_id: snapshot_id.map(|s| s.to_owned()),
            enable_ipv6: false,
            firewall_profile: Some("ssh-only".to_owned()),
        },
        bootstrap_profile: "singbox-host-v1".to_owned(),
    }
}

#[test]
fn catalog_validation_checks_plan_region_and_os() {
    let machine = machine(Some(2625), None);
    let plans = CatalogPart::Plans(Ok(vec![VultrPlan {
        id: "vc2-1c-1gb".to_owned(),
        plan_type: "vc2".to_owned(),
    }]));
    assert_eq!(
        validate_machine_catalog(&machine, &plans),
        CatalogNext::Availability {
            plan_type: "vc2".to_owned()
        }
    );
    let availability = CatalogPart::Availability(Ok(vec!["vc2-1c-1gb".to_owned()]));
    assert_eq!(
        validate_machine_catalog(&machine, &availability),
        CatalogNext::OperatingSystems
    );
    assert_eq!(
        validate_machine_catalog(&machine, &CatalogPart::OperatingSystems(Ok(vec![2625]))),
        CatalogNext::Valid
    );
    assert!(matches!(
        validate_machine_catalog(&machine, &CatalogPart::OperatingSystems(Ok(vec![1]))),
        CatalogNext::Fail(_)
    ));
    assert!(matches!(
        validate_machine_catalog(&machine, &CatalogPart::Plans(Ok(vec![]))),
        CatalogNext::Fail(_)
    ));
    assert!(matches!(
        validate_machine_catalog(&machine, &CatalogPart::Availability(Ok(vec![]))),
        CatalogNext::Fail(_)
    ));
}

#[test]
fn catalog_validation_checks_stored_disks() {
    let machine = machine(None, Some("snapshot-1"));
    assert_eq!(
        validate_machine_catalog(
            &machine,
            &CatalogPart::Availability(Ok(vec!["vc2-1c-1gb".to_owned()]))
        ),
        CatalogNext::Snapshots
    );
    let snapshot = |status: &str| {
        CatalogPart::Snapshots(Ok(vec![VultrSnapshot {
            id: "snapshot-1".to_owned(),
            status: status.to_owned(),
        }]))
    };
    assert_eq!(
        validate_machine_catalog(&machine, &snapshot("complete")),
        CatalogNext::Valid
    );
    assert!(matches!(
        validate_machine_catalog(&machine, &snapshot("pending")),
        CatalogNext::Fail(_)
    ));
}

#[test]
fn bindings_are_verified_by_their_rules() {
    let desired = DesiredState {
        environment: "production".to_owned(),
        machines: vec![machine(Some(2625), None)],
    };
    let set = profiles();
    let groups = vec![owned_group()];
    let search = BindingSearch::new(&desired);
    let (search, ask) = search.observe_verified_firewall_bindings("production", &set, &groups);
    assert_eq!(
        ask,
        BindingAsk::ListRules {
            group_id: "fw-1".to_owned()
        }
    );
    let mut right = wrong_rule();
    right.subnet = "203.0.113.10".to_owned();
    right.notes = "managed ssh".to_owned();
    let (search, outcome) = search.listed(&set, "fw-1", &Ok(vec![right]));
    assert_eq!(outcome, Ok(()));
    let (search, ask) = search.observe_verified_firewall_bindings("production", &set, &groups);
    assert_eq!(ask, BindingAsk::Verified);
    assert_eq!(
        search.verified.profile_of("fw-1"),
        Some("ssh-only".to_owned())
    );
    let mut firewalls = VerifiedFirewalls::new();
    firewalls.insert("fw-2".to_owned(), "a".to_owned());
    firewalls.insert("fw-2".to_owned(), "b".to_owned());
    assert_eq!(firewalls.profile_of("fw-2"), Some("b".to_owned()));
    assert_eq!(firewalls.profile_of("fw-3"), None);
}

#[test]
fn support_provider_needs_a_key() {
    assert!(VultrSupportApiProvider::new("  ".to_owned()).is_err());
    assert_eq!(
        VultrSupportApiProvider::new("key".to_owned())
            .ok()
            .unwrap()
            .api_key(),
        "key"
    );
}

#[test]
fn the_key_that_is_created_is_the_canonical_one_without_white_space_around_it() {
    let raw = format!("\n\t {PUBLIC_KEY} \r\n");
    let request = KeyResolution::new("production", &raw).unwrap().request();
    assert_eq!(request.name, "singbox-production-ops");
    assert_eq!(request.public_key, PUBLIC_KEY);
}
