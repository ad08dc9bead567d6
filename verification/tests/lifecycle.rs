use edge_controller::dns;
use edge_controller::dns::{
    CloudflareDnsApiProvider, CloudflareDnsRecord, DesiredDnsState, DnsChange, DnsExecutionPolicy,
    DnsLook, DnsOperation, DnsRequest, DnsWatch, apply_dns_once, cleanup_dns_once, observe_dns,
};
use edge_controller::lifecycle;
use edge_controller::lifecycle::{
    ApplyAction, ApplyReport, CreatePrerequisites, DestroyApplyReport, LifecycleExecutionPolicy,
    MachineCreation, MachineDestruction, VultrApiProvider, apply_machine, create_request,
    validate_create_prerequisites,
};
use edge_controller::machine::{
    MachinePlan, MachineProvider, MachineSpec, PlanClass, PlanDisposition,
};
use edge_controller::once::{Next, ProviderFault};
use edge_controller::vultr_command::{
    Aftercare, ApplyCourse, aftercare, begin_run_apply, continue_run_apply,
};
use edge_controller::zero_trust;
use edge_controller::zero_trust::{
    CloudflareZeroTrustApiProvider, DesiredZeroTrustState, DeviceProfile, GatewayAllowSpec,
    GatewayRule, MeshProfileSpec, PostureRule, ProfileScan, RuntimeAuthority, ScanAsk, SplitTunnelEntry, ZeroTrustAction,
    ZeroTrustExecutionPolicy, ZeroTrustLook, ZeroTrustRequest, ZeroTrustRuntimeInputs,
    ZeroTrustWatch, runtime_inputs, action_completed, apply_zero_trust_once, authorize_zero_trust_apply,
    expression_sha256, identity_expression, normalize_expression, observed_gateway_rule,
    profile_precedences, validate_identity_email, verify_zero_trust,
};

fn machine() -> MachineSpec {
    MachineSpec {
        id: "edge-1".to_owned(),
        provider: MachineProvider {
            region: "waw".to_owned(),
            plan: "vc2-1c-1gb".to_owned(),
            os_id: Some(2625),
            snapshot_id: None,
            enable_ipv6: false,
            firewall_profile: None,
        },
        bootstrap_profile: "singbox-host-v1".to_owned(),
    }
}

fn prerequisites() -> CreatePrerequisites {
    CreatePrerequisites {
        bootstrap_profile: "singbox-host-v1".to_owned(),
        ssh_key_id: "ssh-key-1".to_owned(),
        cloud_init: "#cloud-config\npackages: []\n".to_owned(),
        firewall_group_id: None,
        firewall_profile: None,
    }
}

fn uncertain_error(operation: &str) -> ProviderFault {
    ProviderFault {
        not_found: false,
        uncertain: true,
        message: format!("{operation}: simulated response loss"),
    }
}

fn not_found_error() -> ProviderFault {
    ProviderFault {
        not_found: true,
        uncertain: false,
        message: "read Vultr instance: not found".to_owned(),
    }
}

#[derive(Default)]
struct FakeProvider {
    instances: Vec<String>,
    create_error: Option<ProviderFault>,
    create_commits: bool,
    delete_error: Option<ProviderFault>,
    delete_commits: bool,
    create_calls: usize,
    delete_calls: usize,
}

impl FakeProvider {
    fn plan(&self) -> MachinePlan {
        let found = self.instances.first().cloned();
        MachinePlan {
            machine_id: "edge-1".to_owned(),
            class: if found.is_some() {
                PlanClass::Noop
            } else {
                PlanClass::Create
            },
            provider_id: found,
            desired_spec_digest: "0".repeat(64),
            reasons: vec![],
        }
    }
}

fn apply(provider: &mut FakeProvider, plan: MachinePlan) -> Result<ApplyReport, String> {
    match apply_machine(&machine(), &prerequisites(), plan) {
        Next::Done(result) => return result,
        Next::Look { .. } => panic!("nothing to look for yet"),
        Next::Change => {}
    }
    provider.create_calls += 1;
    let request = create_request(&machine(), &prerequisites(), vec![]);
    if provider.create_error.is_none() || provider.create_commits {
        provider.instances.push(format!("instance-{}", request.label));
    }
    let (mut state, mut next) = MachineCreation::replied(&machine(), 2, &provider.create_error);
    loop {
        match next {
            Next::Done(result) => return result,
            Next::Change => panic!("asked for twice"),
            Next::Look { .. } => {
                let (s, n) = state.reobserve_created_machine(&machine(), 2, Ok(provider.plan()));
                state = s;
                next = n;
            }
        }
    }
}

fn destroy(provider: &mut FakeProvider, id: &str) -> Result<DestroyApplyReport, String> {
    provider.delete_calls += 1;
    if provider.delete_error.is_none() || provider.delete_commits {
        provider.instances.retain(|instance| instance != id);
    }
    let (machine_id, provider_id) = ("edge-1".to_owned(), id.to_owned());
    let (mut state, mut next) =
        MachineDestruction::replied(&machine_id, &provider_id, 2, &provider.delete_error);
    loop {
        match next {
            Next::Done(result) => return result,
            Next::Change => panic!("asked for twice"),
            Next::Look { .. } => {
                let fault = if provider.instances.contains(&provider_id) {
                    None
                } else {
                    Some(not_found_error())
                };
                let (s, n) = state.destroy_machine(&machine_id, &provider_id, 2, &fault);
                state = s;
                next = n;
            }
        }
    }
}

#[test]
fn apply_create_then_repeat_apply_is_noop() {
    let mut provider = FakeProvider::default();
    let plan = provider.plan();
    let first = apply(&mut provider, plan).unwrap();
    assert_eq!(first.action, ApplyAction::Created);
    assert_eq!(provider.create_calls, 1);

    let plan = provider.plan();
    let second = apply(&mut provider, plan).unwrap();
    assert_eq!(second.action, ApplyAction::Noop);
    assert_eq!(provider.create_calls, 1);
    assert_eq!(second.action.as_str(), "NOOP");
}

#[test]
fn uncertain_create_reobserves_without_replay() {
    let mut provider = FakeProvider {
        create_error: Some(uncertain_error("create Vultr instance")),
        create_commits: true,
        ..FakeProvider::default()
    };
    let plan = provider.plan();
    let report = apply(&mut provider, plan).unwrap();
    assert_eq!(report.action, ApplyAction::Created);
    assert_eq!(provider.create_calls, 1);
}

#[test]
fn unresolved_create_uncertainty_never_replays_mutation() {
    let mut provider = FakeProvider {
        create_error: Some(uncertain_error("create Vultr instance")),
        create_commits: false,
        ..FakeProvider::default()
    };
    let plan = provider.plan();
    let error = apply(&mut provider, plan).unwrap_err();
    assert!(error.contains("CREATE was not replayed"));
    assert_eq!(provider.create_calls, 1);
}

#[test]
fn replace_required_never_mutates() {
    let mut provider = FakeProvider::default();
    let plan = MachinePlan {
        machine_id: "edge-1".to_owned(),
        class: PlanClass::ReplaceRequired,
        provider_id: Some("instance-1".to_owned()),
        desired_spec_digest: "0".repeat(64),
        reasons: vec!["plan differs".to_owned()],
    };
    let error = apply(&mut provider, plan).unwrap_err();
    assert!(error.contains("requires replacement"));
    assert_eq!(provider.create_calls, 0);
}

#[test]
fn authorized_destroy_deletes_exact_uuid_once_and_proves_absence() {
    let mut provider = FakeProvider {
        instances: vec!["instance-1".to_owned()],
        delete_commits: true,
        ..FakeProvider::default()
    };
    let report = destroy(&mut provider, "instance-1").unwrap();
    assert_eq!(report.provider_id, "instance-1");
    assert!(report.absence_verified);
    assert_eq!(provider.delete_calls, 1);
}

#[test]
fn uncertain_delete_accepted_is_reobserved_without_replay() {
    let mut provider = FakeProvider {
        instances: vec!["instance-1".to_owned()],
        delete_error: Some(uncertain_error("destroy Vultr instance")),
        delete_commits: true,
        ..FakeProvider::default()
    };
    let report = destroy(&mut provider, "instance-1").unwrap();
    assert!(report.absence_verified);
    assert_eq!(provider.delete_calls, 1);
}

#[test]
fn machine_that_stays_is_an_error() {
    let mut provider = FakeProvider {
        instances: vec!["instance-1".to_owned()],
        delete_error: Some(uncertain_error("destroy Vultr instance")),
        ..FakeProvider::default()
    };
    let error = destroy(&mut provider, "instance-1").unwrap_err();
    assert!(error.contains("DELETE was not replayed"));
    assert_eq!(provider.delete_calls, 1);
}

#[test]
fn prerequisites_are_checked_before_anything_is_made() {
    assert_eq!(
        validate_create_prerequisites(&machine(), &prerequisites()),
        Ok(())
    );
    let mut other = prerequisites();
    other.bootstrap_profile = "other".to_owned();
    assert!(validate_create_prerequisites(&machine(), &other).is_err());
    let policy = LifecycleExecutionPolicy::default();
    assert!(lifecycle::validate_policy(&policy).is_ok());
    assert!(VultrApiProvider::new(" ".to_owned()).is_err());
    assert_eq!(
        VultrApiProvider::new("key".to_owned()).ok().unwrap().api_key(),
        "key"
    );
}

#[test]
fn applying_needs_the_authority_that_was_given() {
    let plan = FakeProvider::default().plan();
    let refused = begin_run_apply(&machine(), &plan, Err("stale".to_owned()), &None);
    assert_eq!(refused, Err("stale".to_owned()));
    let noop = MachinePlan {
        machine_id: "edge-1".to_owned(),
        class: PlanClass::Noop,
        provider_id: Some("instance-1".to_owned()),
        desired_spec_digest: "0".repeat(64),
        reasons: vec![],
    };
    assert_eq!(
        begin_run_apply(&machine(), &noop, Ok(()), &None),
        Ok(ApplyCourse::PlanAgain)
    );
    assert!(
        continue_run_apply(&machine(), PlanClass::Create, noop, Err("stale".to_owned())).is_err()
    );
    assert_eq!(aftercare(ApplyAction::Created), Aftercare::ScrubAndRotate);
    assert_eq!(aftercare(ApplyAction::Noop), Aftercare::Verify);
}

fn desired_dns() -> DesiredDnsState {
    DesiredDnsState {
        zone_name: "alegria.by".to_owned(),
        record_name: "stage2-acceptance.alegria.by".to_owned(),
    }
}

fn record(ip: &str) -> CloudflareDnsRecord {
    CloudflareDnsRecord {
        id: "dns-1".to_owned(),
        zone_id: "zone-1".to_owned(),
        record_name: "stage2-acceptance.alegria.by".to_owned(),
        ip: ip.to_owned(),
    }
}

#[derive(Default)]
struct FakeDns {
    records: Vec<CloudflareDnsRecord>,
    mutation_error: Option<String>,
    commit_on_error: bool,
    create_calls: usize,
    update_calls: usize,
    delete_calls: usize,
}

impl FakeDns {
    fn reported(&self) -> Vec<CloudflareDnsRecord> {
        self.records
            .iter()
            .map(|record| CloudflareDnsRecord {
                id: record.id.clone(),
                zone_id: record.zone_id.clone(),
                record_name: record.record_name.clone(),
                ip: record.ip.clone(),
            })
            .collect()
    }

    fn plan(&self, ip: &str) -> DnsChange {
        let seen = observe_dns(Ok(()), Ok(self.reported())).unwrap();
        match seen.first() {
            None => DnsChange::Create { ip: ip.to_owned() },
            Some(record) if record.ip == ip => DnsChange::Nothing,
            Some(record) => DnsChange::Update {
                record_id: record.provider_id.clone(),
                to_ip: ip.to_owned(),
            },
        }
    }

    fn send(&mut self, request: DnsRequest) -> Result<(), String> {
        let commits = self.mutation_error.is_none() || self.commit_on_error;
        match request {
            DnsRequest::Create { ip, .. } => {
                self.create_calls += 1;
                if commits {
                    self.records.push(record(&ip));
                }
            }
            DnsRequest::Update { record_id, ip, .. } => {
                self.update_calls += 1;
                if commits {
                    for record in self.records.iter_mut() {
                        if record.id == record_id {
                            record.ip = ip.clone();
                        }
                    }
                }
            }
            DnsRequest::Delete { record_id, .. } => {
                self.delete_calls += 1;
                if commits {
                    self.records.retain(|record| record.id != record_id);
                }
            }
        }
        match self.mutation_error.clone() {
            Some(e) => Err(e),
            None => Ok(()),
        }
    }

    fn watch(
        &self,
        operation: DnsOperation,
        reply: Result<(), String>,
        done: bool,
    ) -> Result<(), String> {
        let mut state = DnsWatch::replied(operation, reply);
        loop {
            let look = Ok(DnsLook {
                nothing_left: done,
                plan_words: "plan".to_owned(),
                observation_words: "seen".to_owned(),
            });
            let (after, next) = state.reobserve_change(2, "change", look);
            state = after;
            if let Next::Done(result) = next {
                return result.map(|proof| assert!(proof.nothing_left));
            }
        }
    }
}

fn apply_dns(provider: &mut FakeDns, ip: &str) -> Result<(), String> {
    let change = provider.plan(ip);
    match apply_dns_once(&desired_dns(), &change) {
        None => Ok(()),
        Some(request) => {
            let reply = provider.send(request);
            let done = provider.plan(ip) == DnsChange::Nothing;
            provider.watch(DnsOperation::Apply, reply, done)
        }
    }
}

#[test]
fn create_is_observed_once_and_converges_to_noop() {
    let mut provider = FakeDns::default();
    apply_dns(&mut provider, "203.0.113.10").unwrap();
    assert_eq!(provider.create_calls, 1);
    assert_eq!(provider.plan("203.0.113.10"), DnsChange::Nothing);
    apply_dns(&mut provider, "203.0.113.10").unwrap();
    assert_eq!(provider.create_calls, 1);
}

#[test]
fn mutation_error_is_accepted_only_when_reobservation_proves_commit() {
    let mut provider = FakeDns {
        mutation_error: Some("transport lost".to_owned()),
        commit_on_error: true,
        ..FakeDns::default()
    };
    apply_dns(&mut provider, "203.0.113.10").unwrap();
    assert_eq!(provider.create_calls, 1);
    assert_eq!(provider.plan("203.0.113.10"), DnsChange::Nothing);
}

#[test]
fn uncertain_mutation_is_not_replayed() {
    let mut provider = FakeDns {
        mutation_error: Some("transport lost".to_owned()),
        commit_on_error: false,
        ..FakeDns::default()
    };
    assert!(apply_dns(&mut provider, "203.0.113.10").is_err());
    assert_eq!(provider.create_calls, 1);
}

#[test]
fn update_uses_observed_record_identity() {
    let mut provider = FakeDns {
        records: vec![record("203.0.113.9")],
        ..FakeDns::default()
    };
    assert!(matches!(
        provider.plan("203.0.113.10"),
        DnsChange::Update { .. }
    ));
    apply_dns(&mut provider, "203.0.113.10").unwrap();
    assert_eq!(provider.update_calls, 1);
    assert_eq!(provider.plan("203.0.113.10"), DnsChange::Nothing);
}

#[test]
fn cleanup_is_digest_bound_and_reobserved() {
    let mut provider = FakeDns {
        records: vec![record("203.0.113.10")],
        ..FakeDns::default()
    };
    let change = DnsChange::Delete {
        record_id: "dns-1".to_owned(),
    };
    assert!(cleanup_dns_once(&desired_dns(), Err("digest is stale".to_owned())).is_err());
    let request = cleanup_dns_once(&desired_dns(), Ok(change)).unwrap();
    let reply = provider.send(request);
    let done = provider.records.is_empty();
    provider
        .watch(DnsOperation::Cleanup, reply, done)
        .unwrap();
    assert_eq!(provider.delete_calls, 1);
    assert!(provider.records.is_empty());
}

#[test]
fn dns_needs_a_token_and_a_look() {
    assert!(CloudflareDnsApiProvider::new(" ".to_owned()).is_err());
    assert_eq!(
        CloudflareDnsApiProvider::new("t".to_owned())
            .ok()
            .unwrap()
            .api_token(),
        "t"
    );
    assert!(
        dns::validate_policy(DnsExecutionPolicy {
            reobserve_attempts: 0,
            reobserve_delay_secs: 0,
        })
        .is_err()
    );
}

fn desired_zero_trust() -> DesiredZeroTrustState {
    DesiredZeroTrustState {
        mesh_profile: MeshProfileSpec {
            name: "mesh".to_owned(),
            description: "mesh nodes".to_owned(),
            match_expression: "identity.email == \"node@example.com\"".to_owned(),
            service_mode: "warp".to_owned(),
            tunnel_protocol: "masque".to_owned(),
            include_cidrs: vec!["100.96.0.0/12".to_owned()],
        },
        gateway_allow: GatewayAllowSpec {
            name: "allow".to_owned(),
            description: "allow mesh".to_owned(),
        },
    }
}

fn runtime() -> ZeroTrustRuntimeInputs {
    ZeroTrustRuntimeInputs::new(
        "android-profile".to_owned(),
        "android@example.com".to_owned(),
    )
    .unwrap()
}

fn change_zero_trust(
    create_calls: &mut usize,
    authority: Result<(), String>,
    reply: Result<(), String>,
    next_action: ZeroTrustAction,
) -> Result<(), String> {
    let action = ZeroTrustAction::CreateMeshProfile { precedence: 11 };
    let request = apply_zero_trust_once(
        &desired_zero_trust(),
        &runtime(),
        authority,
        &action,
        Ok("traffic".to_owned()),
    )?;
    match request {
        Some(ZeroTrustRequest::CreateProfile(write)) => {
            assert_eq!(write.precedence, 11);
            *create_calls += 1;
        }
        _ => panic!("not the planned request"),
    }
    let state = ZeroTrustWatch::replied(reply);
    let look = Ok(ZeroTrustLook {
        action: next_action,
        plan_words: "plan".to_owned(),
        observation_words: "seen".to_owned(),
    });
    match state.reobserve_change(1, &action, "CreateMeshProfile", look).1 {
        Next::Done(result) => result.map(|proof| assert_ne!(proof.action, action)),
        _ => panic!("one look is allowed"),
    }
}

#[test]
fn runtime_inputs_come_from_the_environment() {
    let inputs = |id: Option<&str>, email: Option<&str>| {
        runtime_inputs(
            "PROFILE_ID",
            "IDENTITY_EMAIL",
            id.map(|t| t.to_owned()),
            email.map(|t| t.to_owned()),
        )
    };
    let made = inputs(Some("profile-1"), Some("ops@example.com")).unwrap();
    assert_eq!(made.android_profile_id, "profile-1");
    assert_eq!(made.authority.identity_sha256.len(), 64);
    assert_eq!(
        inputs(None, None),
        Err("PROFILE_ID is required as the external Android profile authority".to_owned())
    );
    assert_eq!(
        inputs(Some("profile-1"), None),
        Err("IDENTITY_EMAIL is required as the external Android identity authority".to_owned())
    );
    assert_eq!(
        inputs(Some(" "), Some("ops@example.com")),
        Err("Cloudflare Android profile runtime authority must be non-empty".to_owned())
    );
    assert_eq!(
        inputs(Some("profile-1"), Some("ops")),
        Err("Cloudflare Android identity email has invalid bounded shape".to_owned())
    );
}

#[test]
fn stale_authority_rejects_before_mutation() {
    let mut create_calls = 0;
    let error = change_zero_trust(
        &mut create_calls,
        Err("authority digest is stale".to_owned()),
        Ok(()),
        ZeroTrustAction::Noop,
    )
    .unwrap_err();
    assert!(error.contains("unexpected") || error.contains("stale"));
    assert_eq!(create_calls, 0);
}

#[test]
fn uncertain_create_is_observed_without_replay() {
    let mut create_calls = 0;
    change_zero_trust(
        &mut create_calls,
        Ok(()),
        Err("transport lost".to_owned()),
        ZeroTrustAction::Noop,
    )
    .unwrap();
    assert_eq!(create_calls, 1);
    let error = change_zero_trust(
        &mut create_calls,
        Ok(()),
        Err("transport lost".to_owned()),
        ZeroTrustAction::CreateMeshProfile { precedence: 11 },
    )
    .unwrap_err();
    assert!(error.contains("transport lost"));
    assert_eq!(create_calls, 2);
}

#[test]
fn expressions_are_compared_without_white_space() {
    assert_eq!(normalize_expression(" a ==\t\"b\" \n"), "a == \"b\"");
    assert_eq!(
        expression_sha256("a == b"),
        expression_sha256(" a  ==\nb ")
    );
    assert_ne!(expression_sha256("a == b"), expression_sha256("a == c"));
    assert_eq!(
        expression_sha256("abc"),
        "ba7816bf8f01cfea414140de5dae2223b00361a396177a9cb410ff61f20015ad"
    );
    assert!(identity_expression("android@example.com").contains("android@example.com"));
    assert!(validate_identity_email("a@b").is_ok());
    assert!(validate_identity_email(" a@b").is_err());
    assert!(validate_identity_email("ab").is_err());
    assert!(validate_identity_email("a\"@b").is_err());
}

#[test]
fn zero_trust_actions_complete_by_a_changed_plan() {
    let create = ZeroTrustAction::CreateMeshProfile { precedence: 1 };
    assert!(action_completed(&create, &ZeroTrustAction::Noop));
    assert!(!action_completed(
        &create,
        &ZeroTrustAction::CreateMeshProfile { precedence: 1 }
    ));
    let desired = desired_zero_trust();
    let runtime = RuntimeAuthority {
        android_profile_id: "android".to_owned(),
        identity_sha256: "0".repeat(64),
    };
    let posture = PostureRule {
        id: "posture".to_owned(),
        rule_type: "warp".to_owned(),
        platforms: vec!["android".to_owned()],
    };
    let names = vec!["edge-1".to_owned()];
    let seen = ProfileScan::new().complete(names, &vec![], vec![posture], vec![]);
    assert_eq!(seen.connector_names, ["edge-1"]);
    assert_eq!(seen.posture_rules.len(), 1);
    assert_eq!(seen.posture_rules[0].provider_id, "posture");
    assert_eq!(seen.posture_rules[0].platforms, ["android"]);
    assert!(seen.profile_precedences.is_empty() && seen.android_profile.is_none());
    for (action, disposition) in [
        (&ZeroTrustAction::Noop, PlanDisposition::Noop),
        (&create, PlanDisposition::Mutate),
    ] {
        let bound = authorize_zero_trust_apply(&desired, &runtime, &seen, action);
        assert_eq!(bound.disposition, disposition);
        assert_eq!(bound.scope, "cloudflare_zero_trust_apply");
        assert_eq!(bound.desired.desired, &desired);
        assert_eq!(bound.desired.runtime_authority, &runtime);
        assert_eq!(bound.observed, &seen);
        assert_eq!(bound.plan, action);
    }
    assert!(verify_zero_trust(&ZeroTrustAction::Noop, "Noop").is_ok());
    assert!(verify_zero_trust(&create, "CreateMeshProfile").is_err());
    assert!(
        zero_trust::validate_policy(ZeroTrustExecutionPolicy {
            reobserve_attempts: 0,
            reobserve_delay_secs: 0,
        })
        .is_err()
    );
    assert!(
        CloudflareZeroTrustApiProvider::new("t".to_owned(), " ".to_owned()).is_err()
    );
}

#[test]
fn zero_trust_profiles_are_scanned_once() {
    let profile = |id: &str, name: &str, precedence: Option<u64>| DeviceProfile {
        id: id.to_owned(),
        name: name.to_owned(),
        enabled: Some(true),
        precedence,
        match_expression: None,
        service_mode: None,
        tunnel_protocol: None,
    };
    let profiles = vec![
        profile("other", "other", Some(5)),
        profile("android-profile", "Android", Some(10)),
    ];
    assert_eq!(profile_precedences(&profiles), vec![5, 10]);
    let entries: Vec<SplitTunnelEntry> = vec![];
    let mut scan = ProfileScan::new();
    let mut read = 0;
    loop {
        let (after, ask) = scan.observe_zero_trust(&desired_zero_trust(), &runtime(), &profiles);
        match ask {
            ScanAsk::Finished => {
                scan = after;
                break;
            }
            ScanAsk::Entries { includes, excludes } => {
                read += 1;
                let at = after.done;
                scan = after
                    .observed(&profiles[at], includes, excludes, &entries, &entries)
                    .unwrap();
            }
        }
    }
    assert_eq!(read, 1);
    assert!(scan.android.is_some());
    assert!(scan.mesh.is_empty());
}

#[test]
fn gateway_identities_are_only_kept_as_digests() {
    let observed = observed_gateway_rule(&GatewayRule {
        id: "g".to_owned(),
        name: "allow".to_owned(),
        action: "allow".to_owned(),
        precedence: Some(1),
        enabled: Some(true),
        filters: vec![],
        traffic: None,
        identity: Some(" abc\n".to_owned()),
        device_posture: None,
    });
    assert_eq!(
        observed.identity_sha256.as_deref(),
        Some("ba7816bf8f01cfea414140de5dae2223b00361a396177a9cb410ff61f20015ad")
    );
}

#[test]
fn records_are_read_only_for_a_valid_state() {
    let no = |text: &str| Err(text.to_owned());
    let record = CloudflareDnsRecord {
        id: "r".to_owned(),
        zone_id: "z".to_owned(),
        record_name: "edge.example.com".to_owned(),
        ip: "203.0.113.1".to_owned(),
    };
    assert_eq!(
        observe_dns(no("state"), Err("listing".to_owned())),
        Err("state".to_owned())
    );
    assert_eq!(
        observe_dns(Ok(()), Err("listing".to_owned())),
        Err("listing".to_owned())
    );
    let seen = observe_dns(Ok(()), Ok(vec![record])).unwrap();
    assert_eq!(seen.len(), 1);
    assert_eq!(seen[0].provider_id, "r");
    assert_eq!(seen[0].ip, "203.0.113.1");
}
