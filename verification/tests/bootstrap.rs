use edge_controller::bootstrap::{
    InstanceAction, RotationNext, RotationStage, SCRUBBED_USER_DATA, Scrub,
    VultrOperationalApiProvider, WaitNext, action_replied, apply_instance_action, ca_known_hosts,
    check_acceptance_attempts, check_action_attempts, check_minimum_serial,
    check_readiness_attempts, cloud_init_file, ensure_host_certificate_rotated,
    first_certificate_args, host_key_args, is_provider_ready, public_key_material,
    read_host_certificate_serial, render_strict_cloud_init, rotate_host_certificate,
    strict_ssh_accept, strict_ssh_args, validate_hostname, verify_host_certificate_rotated,
    verify_operator_key_matches, verify_user_data_scrubbed,
    wait_provider_ready,
};
use edge_controller::once::{Next, ProviderFault};
use edge_controller::provider::VultrInstance;

fn instance(power_status: &str) -> VultrInstance {
    VultrInstance {
        id: "instance-1".to_owned(),
        label: "edge-1".to_owned(),
        region: "waw".to_owned(),
        plan: "vc2-1c-1gb".to_owned(),
        status: "active".to_owned(),
        server_status: "ok".to_owned(),
        power_status: power_status.to_owned(),
        main_ip: "203.0.113.10".to_owned(),
        v6_main_ip: String::new(),
        firewall_group_id: String::new(),
        date_created: String::new(),
        tags: Vec::new(),
        os_id: 2625,
        snapshot_id: None,
        enable_ipv6: false,
    }
}

fn uncertain(operation: &str) -> ProviderFault {
    ProviderFault {
        not_found: false,
        uncertain: true,
        message: format!("{operation}: simulated response loss"),
    }
}

struct FakeOperational {
    instance: VultrInstance,
    user_data: String,
    update_error: Option<ProviderFault>,
    update_commits: bool,
    update_calls: usize,
    action_calls: usize,
}

fn fake(user_data: &str, power_status: &str) -> FakeOperational {
    FakeOperational {
        instance: instance(power_status),
        user_data: user_data.to_owned(),
        update_error: None,
        update_commits: false,
        update_calls: 0,
        action_calls: 0,
    }
}

fn scrub(provider: &mut FakeOperational, attempts: usize) -> Result<bool, String> {
    let mut state = Scrub::new(attempts)?;
    loop {
        let data = Ok(provider.user_data.clone());
        let (after, next) = state.scrub_user_data(attempts, "instance-1", &data);
        state = after;
        let next = match next {
            Next::Change => {
                provider.update_calls += 1;
                if provider.update_error.is_none() || provider.update_commits {
                    provider.user_data = SCRUBBED_USER_DATA.to_owned();
                }
                let (after, next) = state.replied(attempts, &provider.update_error);
                state = after;
                next
            }
            other => other,
        };
        if let Next::Done(result) = next {
            return result;
        }
    }
}

fn act(
    provider: &mut FakeOperational,
    action: InstanceAction,
    fault: Option<ProviderFault>,
) -> Result<VultrInstance, String> {
    provider.action_calls += 1;
    if fault.is_none() {
        match action {
            InstanceAction::Start => provider.instance.power_status = "running".to_owned(),
            InstanceAction::Halt => provider.instance.power_status = "stopped".to_owned(),
            InstanceAction::Reboot => {}
        }
    }
    let (mut phase, mut next) = action_replied(2, &fault);
    loop {
        match next {
            Next::Done(result) => return result,
            _ => {
                let look = Ok(provider.instance.clone());
                let (p, n) = apply_instance_action(phase, 2, action, "instance-1", look);
                phase = p;
                next = n;
            }
        }
    }
}

#[test]
fn user_data_scrub_is_idempotent() {
    let mut provider = fake(SCRUBBED_USER_DATA, "running");
    assert_eq!(scrub(&mut provider, 2), Ok(false));
    assert_eq!(provider.update_calls, 0);
}

#[test]
fn uncertain_user_data_patch_reobserves_without_replay() {
    let mut provider = fake("sensitive bootstrap", "running");
    provider.update_error = Some(uncertain("update Vultr instance user-data"));
    provider.update_commits = true;
    assert_eq!(scrub(&mut provider, 2), Ok(true));
    assert_eq!(provider.update_calls, 1);
    assert_eq!(provider.user_data, SCRUBBED_USER_DATA);
}

#[test]
fn unresolved_user_data_patch_never_replays() {
    let mut provider = fake("sensitive bootstrap", "running");
    provider.update_error = Some(uncertain("update Vultr instance user-data"));
    let error = scrub(&mut provider, 2).unwrap_err();
    assert!(error.contains("PATCH was not replayed"));
    assert_eq!(provider.update_calls, 1);
}

#[test]
fn user_data_scrub_needs_a_look() {
    let mut provider = fake("sensitive bootstrap", "running");
    assert_eq!(
        scrub(&mut provider, 0),
        Err("user-data re-observation attempts must be greater than zero".to_owned())
    );
}

#[test]
fn start_and_halt_are_one_shot_and_observed() {
    let mut provider = fake("", "stopped");
    let started = act(&mut provider, InstanceAction::Start, None).unwrap();
    assert_eq!(started.power_status, "running");
    assert_eq!(provider.action_calls, 1);
    let halted = act(&mut provider, InstanceAction::Halt, None).unwrap();
    assert_eq!(halted.power_status, "stopped");
    assert_eq!(provider.action_calls, 2);
}

#[test]
fn uncertain_reboot_is_not_taken_for_done() {
    let mut provider = fake("", "running");
    assert!(act(&mut provider, InstanceAction::Reboot, Some(uncertain("reboot"))).is_err());
    assert_eq!(provider.action_calls, 1);
}

#[test]
fn strict_cloud_init_contains_host_cert_and_locked_root() {
    let base = "#cloud-config\nwrite_files:\n  - path: /tmp/base\n    content: base\nruncmd:\n  - [true]\n";
    let rendered = render_strict_cloud_init(
        base,
        "edge-1",
        "ssh-ed25519 AAAACanonical comment",
        "PRIVATE\n",
        "ssh-ed25519 AAAAHost host\n",
        "ssh-ed25519-cert-v01@openssh.com AAAACert host\n",
    )
    .unwrap();

    assert!(rendered.contains("HostCertificate /etc/ssh/ssh_host_ed25519_key-cert.pub"));
    assert!(rendered.contains("PermitRootLogin no"));
    assert!(rendered.starts_with("#cloud-config\nhostname: edge-1\nmanage_etc_hosts: true\n"));
    assert!(rendered.contains("name: singbox-ops"));
    assert!(rendered.contains("hostname: edge-1"));
    assert!(!rendered.contains("StrictHostKeyChecking=accept-new"));
}

#[test]
fn templates_of_another_shape_are_refused() {
    assert_eq!(
        render_strict_cloud_init("write_files:\nruncmd:\n", "h", "k", "p", "q", "c"),
        Err("bootstrap template must start with #cloud-config".to_owned())
    );
    assert_eq!(
        render_strict_cloud_init("#cloud-config\nruncmd:\n", "h", "k", "p", "q", "c"),
        Err("bootstrap template must contain write_files and runcmd sections".to_owned())
    );
    assert_eq!(
        render_strict_cloud_init(
            "#cloud-config\nwrite_files:\nruncmd:\n",
            "h",
            "a\nb",
            "p",
            "q",
            "c"
        ),
        Err("canonical SSH public key must be a single line".to_owned())
    );
    assert_eq!(
        cloud_init_file("/a", "0600", "x\ny\n\n"),
        "  - path: /a\n    owner: root:root\n    permissions: '0600'\n    content: |\n      x\n      y\n"
    );
}

#[test]
fn ca_trust_is_exact_hostname_and_ed25519_material() {
    let material =
        public_key_material("ssh-ed25519 AAAACanonical comment that is intentionally ignored")
            .unwrap();
    assert_eq!(material, "ssh-ed25519 AAAACanonical");
    assert_eq!(
        format!("@cert-authority {} {}\n", "edge-1", material),
        "@cert-authority edge-1 ssh-ed25519 AAAACanonical\n"
    );
    assert_eq!(
        ca_known_hosts("edge-1", "ssh-ed25519 AAAACanonical comment"),
        Ok("@cert-authority edge-1 ssh-ed25519 AAAACanonical\n".to_owned())
    );
}

#[test]
fn keys_of_another_kind_are_refused() {
    assert_eq!(
        public_key_material("  "),
        Err("canonical SSH public key is empty".to_owned())
    );
    assert_eq!(
        public_key_material("ssh-ed25519"),
        Err("canonical SSH public key has no key material".to_owned())
    );
    assert_eq!(
        public_key_material("ssh-rsa AAAA"),
        Err("canonical SSH public key must be ssh-ed25519, got ssh-rsa".to_owned())
    );
    assert_eq!(
        validate_hostname("bad host"),
        Err("invalid strict SSH logical hostname bad host".to_owned())
    );
    assert!(validate_hostname(&"a".repeat(253)).is_ok());
    assert!(validate_hostname(&"a".repeat(254)).is_err());
    assert!(ca_known_hosts("", "ssh-ed25519 AAAA").is_err());
}

#[test]
fn operator_keys_are_compared_by_material() {
    let canonical = "ssh-ed25519 AAAACanonical comment";
    assert_eq!(
        verify_operator_key_matches(
            true,
            "/key",
            Ok(b"ssh-ed25519 AAAACanonical other\n".to_vec()),
            canonical
        ),
        Ok(())
    );
    assert_eq!(
        verify_operator_key_matches(true, "/key", Ok(b"ssh-ed25519 AAAAOther\n".to_vec()), canonical),
        Err("SSH operator private key does not match canonical public key".to_owned())
    );
    assert_eq!(
        verify_operator_key_matches(true, "/key", Ok(vec![0xff, 0xfe]), canonical),
        Err("derived SSH public key was not UTF-8".to_owned())
    );
    assert_eq!(
        verify_operator_key_matches(false, "/key", Ok(vec![]), canonical),
        Err("SSH operator private key was not found at /key".to_owned())
    );
}

#[test]
fn actions_read_back() {
    for action in [
        InstanceAction::Start,
        InstanceAction::Halt,
        InstanceAction::Reboot,
    ] {
        assert_eq!(InstanceAction::parse(action.as_str()), Ok(action));
    }
    assert!(InstanceAction::parse("destroy").is_err());
    assert_eq!(InstanceAction::Start.desired_power_status(), Some("running"));
    assert_eq!(InstanceAction::Halt.desired_power_status(), Some("stopped"));
}

#[test]
fn readiness_is_waited_for() {
    assert!(is_provider_ready(&instance("running")));
    assert!(!is_provider_ready(&instance("stopped")));
    assert_eq!(
        wait_provider_ready(2, 0, Ok(instance("stopped"))),
        WaitNext::Again
    );
    assert_eq!(
        wait_provider_ready(2, 1, Ok(instance("stopped"))),
        WaitNext::Done(Err(
            "instance instance-1 did not become provider-ready: status=active power_status=stopped server_status=ok main_ip_present=true".to_owned()
        ))
    );
    assert_eq!(
        wait_provider_ready(2, 0, Ok(instance("running"))),
        WaitNext::Done(Ok(instance("running")))
    );
    assert!(check_readiness_attempts(0).is_err());
    assert!(check_action_attempts(0).is_err());
    assert!(check_acceptance_attempts(0).is_err());
    assert!(check_acceptance_attempts(1).is_ok());
    assert_eq!(
        strict_ssh_accept(2, 0, "edge-1", "203.0.113.10", &Err("refused".to_owned())),
        WaitNext::Again
    );
    assert_eq!(
        strict_ssh_accept(2, 1, "edge-1", "203.0.113.10", &Err("refused".to_owned())),
        WaitNext::Done(Err(
            "strict SSH acceptance failed for edge-1 at 203.0.113.10: refused".to_owned()
        ))
    );
    assert_eq!(
        strict_ssh_accept(2, 1, "edge-1", "203.0.113.10", &Ok(())),
        WaitNext::Done(Ok(()))
    );
}

#[test]
fn certificate_serials_are_read_and_raised() {
    let output = b"host-cert.pub:\n        Type: ssh-ed25519\n        Serial: 42\n".to_vec();
    assert_eq!(read_host_certificate_serial(output), Ok(42));
    assert_eq!(
        read_host_certificate_serial(b"Type: x\n".to_vec()),
        Err("host certificate metadata did not contain Serial".to_owned())
    );
    assert_eq!(
        read_host_certificate_serial(b"Serial: x\n".to_vec()),
        Err("invalid host certificate serial: invalid digit found in string".to_owned())
    );
    assert_eq!(
        read_host_certificate_serial(vec![0xff]),
        Err("host certificate metadata was not UTF-8".to_owned())
    );
    assert!(check_minimum_serial(0).is_err());
    assert_eq!(
        ensure_host_certificate_rotated(RotationStage::First, 2, Ok(1)),
        RotationNext::Rotate { serial: 2 }
    );
    assert_eq!(
        ensure_host_certificate_rotated(RotationStage::First, 2, Ok(2)),
        RotationNext::Done(Ok(false))
    );
    assert_eq!(
        ensure_host_certificate_rotated(RotationStage::Replaced, 2, Ok(2)),
        RotationNext::Done(Ok(true))
    );
    assert_eq!(
        ensure_host_certificate_rotated(RotationStage::Replaced, 2, Ok(1)),
        RotationNext::Done(Err(
            "host certificate rotation did not reach required serial 2: observed 1".to_owned()
        ))
    );
}

#[test]
fn programs_get_their_arguments() {
    let args = strict_ssh_args("203.0.113.10", "edge-1", "/key", "/trust", "true");
    assert_eq!(args[1], "/key");
    assert_eq!(args[15], "HostKeyAlias=edge-1");
    assert_eq!(args[16], "singbox-ops@203.0.113.10");
    assert_eq!(args[17], "true");
    assert!(host_key_args("/host").contains(&"/host".to_owned()));
    assert!(
        first_certificate_args("/key", "edge-1", "/host.pub").contains(&"/host.pub".to_owned())
    );
    let rotated = rotate_host_certificate("/key", "edge-1", 7, "/host.pub").unwrap();
    assert!(rotated.contains(&"edge-1-rotated".to_owned()));
    assert!(rotated.contains(&"7".to_owned()));
    assert_eq!(
        rotate_host_certificate("/key", "edge-1", 0, "/host.pub"),
        Err("host certificate serial must be greater than zero".to_owned())
    );
}

#[test]
fn operational_provider_needs_a_key() {
    assert!(VultrOperationalApiProvider::new(String::new()).is_err());
    assert_eq!(
        VultrOperationalApiProvider::new("key".to_owned())
            .ok()
            .unwrap()
            .api_key(),
        "key"
    );
}

#[test]
fn kept_machines_are_checked_for_their_care() {
    assert_eq!(
        verify_user_data_scrubbed("instance-1", &Ok(SCRUBBED_USER_DATA.to_owned())),
        Ok(())
    );
    assert_eq!(
        verify_user_data_scrubbed("instance-1", &Ok("#cloud-config\n".to_owned())),
        Err("user data of instance instance-1 is not scrubbed".to_owned())
    );
    assert_eq!(
        verify_user_data_scrubbed("instance-1", &Err(uncertain("read"))),
        Err("read: simulated response loss".to_owned())
    );
    assert_eq!(verify_host_certificate_rotated("edge-1", 2, Ok(2)), Ok(()));
    assert_eq!(
        verify_host_certificate_rotated("edge-1", 2, Ok(1)),
        Err("host certificate of edge-1 is below serial 2".to_owned())
    );
    assert_eq!(
        verify_host_certificate_rotated("edge-1", 2, Err("no host".to_owned())),
        Err("no host".to_owned())
    );
}
