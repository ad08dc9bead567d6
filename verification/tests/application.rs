use edge_controller::application::{
    AGENT_DROPIN_CONTENT, ApplicationBootstrapMode, ApplicationControlState,
    ApplicationObservationView, ApplicationPlan, ApplicationPlanClass, ApplicationRuntimePolicy,
    ArtifactFile, BootstrapAnswer, BootstrapMode, ApplyBundleRequest, BundleCall, BundleEntry, BundleFile, BundleListing, BundleNext,
    BundleRoot, EntryKind,
    BundleReleaseView, ConnectNext, DesiredMutationMode, ExecutionNext, ExecutionStep,
    Line1RuntimePolicy, Line2RuntimePolicy, PlannedActions, PublishedApplicationRelease,
    RollbackNext, RollbackStep, begin_execution, bootstrap_once, bundle_observed, bundle_replied,
    check_bundle_root, check_previous_agent, collect_bundle_files, connect_agent,
    ensure_private_agent_service, execute_desired, execute_rollback, file_sha_command,
    finish_execution, finish_rollback, install_agent_command, install_exact_agent,
    is_private_service, needs_agent, observe_application, prepare_application_bundle,
    proto_bootstrap_mode, publish_control_state_once, publish_release_once, read_control_state,
    read_remote_bundle_release, remote_file_sha, render_runtime_policy_environment,
    rollback_agent_once, rolled_back_state, seal_bundle, show_file_command,
    verify_exact_agent_artifact, verify_previous_release_material, verify_runtime_ready,
};
use edge_controller::digest::{sha256_hex, validate_lower_hex};

fn words(list: &[&str]) -> Vec<String> {
    list.iter().map(|w| (*w).to_owned()).collect()
}

fn policy() -> ApplicationRuntimePolicy {
    ApplicationRuntimePolicy {
        line1: None,
        line2: Some(Line2RuntimePolicy {
            proxy_username: "acceptance".to_owned(),
            proxy_cert_cn: "application-acceptance.local".to_owned(),
        }),
    }
}

fn entry(name: &str, kind: EntryKind) -> BundleEntry {
    BundleEntry {
        name: name.as_bytes().to_vec(),
        path: format!("/repo/stack/{name}"),
        kind,
    }
}

fn file(relative: &str, content: &str) -> BundleEntry {
    entry(
        relative,
        EntryKind::File {
            relative: relative.to_owned(),
            normalized: true,
            content: Ok(content.as_bytes().to_vec()),
        },
    )
}

fn root() -> BundleRoot {
    BundleRoot {
        path: "/repo/stack".to_owned(),
        is_dir: true,
        has_runtime_file: false,
        has_policy_file: false,
    }
}

fn prepare(
    root: &BundleRoot,
    entries: Vec<BundleEntry>,
    policy: &ApplicationRuntimePolicy,
) -> Result<ApplyBundleRequest, String> {
    prepare_application_bundle(
        Ok(()),
        Ok(()),
        root,
        BundleListing::Entries(entries),
        policy,
        Ok("bundle-1".to_owned()),
    )
}

fn collect(entries: Vec<BundleEntry>) -> Result<Vec<BundleFile>, String> {
    collect_bundle_files("/repo/stack", BundleListing::Entries(entries))
}

fn release(id: &str, agent: char, bundle: char) -> PublishedApplicationRelease {
    PublishedApplicationRelease {
        release_id: id.to_owned(),
        agent_sha256: agent.to_string().repeat(64),
        bundle_digest: bundle.to_string().repeat(64),
        bootstrap_mode: ApplicationBootstrapMode::Base,
        details: String::new(),
    }
}

fn marker(bundle: char) -> BundleReleaseView {
    BundleReleaseView {
        schema: 1,
        bundle_id: "bundle".to_owned(),
        bundle_digest: bundle.to_string().repeat(64),
    }
}

#[test]
fn bundle_contains_public_runtime_policy_but_no_secret_env() {
    let entries = vec![
        file("docker-compose.yml", "services: {}\n"),
        file("bootstrap.sh", "#!/bin/sh\n"),
    ];
    let request = prepare(&root(), entries, &policy()).unwrap();
    let names: Vec<&str> = request
        .stack_files
        .iter()
        .map(|file| file.relative_path.as_str())
        .collect();
    assert_eq!(
        names,
        ["bootstrap.sh", "docker-compose.yml", ".env.runtime.policy"]
    );
    let policy = request
        .stack_files
        .iter()
        .find(|file| file.relative_path == ".env.runtime.policy")
        .unwrap();
    assert_eq!(
        String::from_utf8(policy.content.clone()).unwrap(),
        "PROXY_USERNAME=acceptance\nPROXY_CERT_CN=application-acceptance.local\n"
    );
    assert!(!policy.sensitive);
    assert!(
        request
            .stack_files
            .iter()
            .all(|file| file.relative_path != ".env.runtime")
    );
    assert!(request.stack_files[0].executable);
    assert!(!request.stack_files[1].executable);
    assert!(request.prune_existing);
    assert_eq!(request.bundle_digest, None);
    let sealed = seal_bundle(request, "b".repeat(64), release("r", 'a', 'b'));
    assert_eq!(sealed.request.bundle_digest, Some("b".repeat(64)));
}

#[test]
fn public_runtime_policy_changes_exact_release_identity() {
    let stack = || vec![file("docker-compose.yml", "services: {}\n")];
    let mut changed = policy();
    changed.line2.as_mut().unwrap().proxy_username = "acceptance-v2".to_owned();

    let a = prepare(&root(), stack(), &policy()).unwrap();
    let b = prepare(&root(), stack(), &changed).unwrap();
    assert_ne!(a, b);
    assert_eq!(a.stack_files[0], b.stack_files[0]);
    assert_ne!(a.stack_files[1], b.stack_files[1]);
    assert_eq!(a, prepare(&root(), stack(), &policy()).unwrap());

    let digest = |request: &ApplyBundleRequest| {
        let parts: Vec<String> = request
            .stack_files
            .iter()
            .map(|file| sha256_hex(&file.content))
            .collect();
        sha256_hex(parts.concat().as_bytes())
    };
    let sealed = |request: ApplyBundleRequest| {
        let digest = digest(&request);
        let mut made = release(&digest, '2', 'b');
        made.bundle_digest = digest.clone();
        seal_bundle(request, digest, made)
    };
    let (a, b) = (sealed(a), sealed(b));
    assert_ne!(a.release.bundle_digest, b.release.bundle_digest);
    assert_ne!(a.request.bundle_digest, b.request.bundle_digest);
    assert_ne!(a.release.release_id, b.release.release_id);
    assert_eq!(a.release.agent_sha256, b.release.agent_sha256);
}

#[test]
fn committed_runtime_env_is_rejected() {
    let mut found = root();
    found.has_runtime_file = true;
    let committed = || vec![file(".env.runtime", "TOKEN=committed\n")];
    let error = prepare(&found, committed(), &policy()).unwrap_err();
    assert!(error.contains("must not contain .env.runtime"));
    let error = prepare(&root(), committed(), &policy()).unwrap_err();
    assert!(error.contains("must not contain .env.runtime"));
}

#[test]
fn committed_runtime_policy_is_rejected() {
    let mut found = root();
    found.has_policy_file = true;
    let committed = vec![file(".env.runtime.policy", "PROXY_USERNAME=second-authority\n")];
    let error = prepare(&found, committed, &policy()).unwrap_err();
    assert!(error.contains("runtime policy is derived only from application desired state"));
}

#[test]
fn an_invalid_state_comes_before_everything_else() {
    let no = |text: &str| Err(text.to_owned());
    let missing = BundleRoot {
        is_dir: false,
        ..root()
    };
    let gone = || BundleListing::Unreadable("gone".to_owned());
    let made = |desired, manifest, root: &BundleRoot, listing| {
        prepare_application_bundle(
            desired,
            manifest,
            root,
            listing,
            &policy(),
            Err("no name".to_owned()),
        )
        .unwrap_err()
    };
    assert_eq!(made(no("state"), no("manifest"), &missing, gone()), "state");
    assert_eq!(made(Ok(()), no("manifest"), &missing, gone()), "manifest");
    assert_eq!(
        made(Ok(()), Ok(()), &missing, gone()),
        "application bundle root is missing: /repo/stack"
    );
    assert_eq!(
        made(Ok(()), Ok(()), &root(), gone()),
        "failed to read application bundle /repo/stack: gone"
    );
    assert_eq!(
        made(Ok(()), Ok(()), &root(), BundleListing::Entries(vec![])),
        "no name"
    );
}

#[test]
fn bundles_hold_plain_files_only() {
    let mut found = root();
    assert_eq!(check_bundle_root(&found), Ok(()));
    found.is_dir = false;
    assert_eq!(
        check_bundle_root(&found),
        Err("application bundle root is missing: /repo/stack".to_owned())
    );
    let error = |kind: EntryKind| {
        let bad = entry("m", kind);
        collect(vec![file("z", "z"), bad, file("a", "a")]).unwrap_err()
    };
    assert_eq!(
        error(EntryKind::Symlink),
        "application bundle symlinks are not allowed: /repo/stack/m"
    );
    assert_eq!(
        error(EntryKind::Unsupported),
        "application bundle contains unsupported filesystem entry: /repo/stack/m"
    );
    assert_eq!(
        error(EntryKind::Unknown("no".to_owned())),
        "failed to inspect bundle path /repo/stack/m: no"
    );
    assert_eq!(
        error(EntryKind::Directory(BundleListing::Unreadable("no".to_owned()))),
        "failed to read application bundle /repo/stack/m: no"
    );
    assert_eq!(
        error(EntryKind::Directory(BundleListing::Broken("no".to_owned()))),
        "failed to enumerate application bundle: no"
    );
    assert_eq!(
        error(EntryKind::File {
            relative: "../p".to_owned(),
            normalized: false,
            content: Ok(vec![]),
        }),
        "application bundle path is not normalized: ../p"
    );
    assert_eq!(
        error(EntryKind::File {
            relative: "m".to_owned(),
            normalized: true,
            content: Err("denied".to_owned()),
        }),
        "failed to read bundle file /repo/stack/m: denied"
    );
    let files = collect(vec![file("a\\b", "x")]).unwrap();
    assert_eq!(files[0].relative_path, "a/b");
}

#[test]
fn bundle_files_come_in_the_order_of_their_names() {
    let tree = |turned: bool| {
        let inner = BundleListing::Entries(vec![file("conf/z", "1"), file("conf/B", "2")]);
        let mut entries = vec![
            file("conf.yml", "3"),
            entry("conf", EntryKind::Directory(inner)),
            file("bootstrap.sh", "4"),
            file("\u{e9}", "5"),
            file("Zed", "6"),
        ];
        if turned {
            entries.reverse();
        }
        collect(entries).unwrap()
    };
    let files = tree(false);
    let names: Vec<&str> = files.iter().map(|f| f.relative_path.as_str()).collect();
    assert_eq!(
        names,
        ["Zed", "bootstrap.sh", "conf/B", "conf/z", "conf.yml", "\u{e9}"]
    );
    assert_eq!(
        files.iter().map(|f| f.executable).collect::<Vec<_>>(),
        [false, true, false, false, false, false]
    );
    assert_eq!(files, tree(true));

    let first = collect(vec![
        entry("b", EntryKind::Unsupported),
        entry("a", EntryKind::Symlink),
    ]);
    assert_eq!(
        first,
        Err("application bundle symlinks are not allowed: /repo/stack/a".to_owned())
    );
}

#[test]
fn settings_of_the_second_line_come_first() {
    let both = ApplicationRuntimePolicy {
        line1: Some(Line1RuntimePolicy {
            reality_server_name: "r".to_owned(),
            tunnel_domain: "t".to_owned(),
            acme_email: "e".to_owned(),
        }),
        line2: policy().line2,
    };
    assert_eq!(
        render_runtime_policy_environment(&both),
        "PROXY_USERNAME=acceptance\nPROXY_CERT_CN=application-acceptance.local\nREALITY_SERVER_NAME=r\nTUNNEL_DOMAIN=t\nACME_EMAIL=e\n"
    );
}

#[test]
fn artifacts_are_known_by_their_digest() {
    let sha = "ba7816bf8f01cfea414140de5dae2223b00361a396177a9cb410ff61f20015ad";
    assert_eq!(sha256_hex(b"abc"), sha);
    assert_eq!(validate_lower_hex("digest", sha, 64), Ok(()));
    assert_eq!(
        validate_lower_hex("digest", "AB", 2),
        Err("digest must be exactly 2 lowercase hexadecimal characters".to_owned())
    );
    let bytes = ArtifactFile::Bytes(b"abc".to_vec());
    assert_eq!(verify_exact_agent_artifact(Ok(()), sha, "/agent", &bytes), Ok(()));
    assert_eq!(
        verify_exact_agent_artifact(Ok(()), "00", "/agent", &bytes),
        Err(format!(
            "edge-agent artifact digest mismatch: manifest=00 observed={sha}"
        ))
    );
    assert_eq!(
        verify_exact_agent_artifact(Ok(()), sha, "/agent", &ArtifactFile::Missing),
        Err("exact edge-agent artifact was not found: /agent".to_owned())
    );
    assert_eq!(
        verify_exact_agent_artifact(
            Ok(()),
            sha,
            "/agent",
            &ArtifactFile::Unreadable("denied".to_owned())
        ),
        Err("failed to read exact edge-agent artifact /agent: denied".to_owned())
    );
    assert_eq!(
        verify_exact_agent_artifact(Err("bad".to_owned()), sha, "/agent", &bytes),
        Err("bad".to_owned())
    );
}

#[test]
fn modes_are_passed_on() {
    assert_eq!(
        proto_bootstrap_mode(ApplicationBootstrapMode::Tunnel),
        BootstrapMode::BootstrapTunnel
    );
    assert_eq!(
        proto_bootstrap_mode(ApplicationBootstrapMode::Full),
        BootstrapMode::BootstrapFull
    );
}

#[test]
fn markers_are_checked() {
    assert_eq!(read_remote_bundle_release(None), Ok(None));
    assert_eq!(
        read_remote_bundle_release(Some(Ok(marker('a')))),
        Ok(Some(marker('a')))
    );
    let mut wrong = marker('a');
    wrong.schema = 2;
    assert_eq!(
        read_remote_bundle_release(Some(Ok(wrong))),
        Err("unsupported remote bundle release marker schema 2".to_owned())
    );
    assert_eq!(
        read_remote_bundle_release(Some(Ok(marker('A')))),
        Err(
            "remote bundle digest must be exactly 64 lowercase hexadecimal characters".to_owned()
        )
    );
    let mut empty = marker('a');
    empty.bundle_id = " ".to_owned();
    assert_eq!(
        read_remote_bundle_release(Some(Ok(empty))),
        Err("remote bundle release marker has empty bundle_id".to_owned())
    );
    assert_eq!(
        read_remote_bundle_release(Some(Err("eof".to_owned()))),
        Err("remote bundle release marker is invalid JSON: eof".to_owned())
    );
    assert_eq!(remote_file_sha(String::new()), Ok(None));
    assert_eq!(
        remote_file_sha("a".repeat(64)),
        Ok(Some("a".repeat(64)))
    );
    assert!(remote_file_sha("no such file".to_owned()).is_err());
    assert_eq!(
        file_sha_command("/f"),
        "if sudo test -f /f; then sudo sha256sum /f | cut -d ' ' -f1; fi"
    );
    assert_eq!(show_file_command("/f"), "sudo cat /f 2>/dev/null || true");
}

fn control(current: PublishedApplicationRelease) -> ApplicationControlState {
    ApplicationControlState {
        schema: 1,
        current,
        previous: None,
    }
}

#[test]
fn control_records_are_checked() {
    assert_eq!(read_control_state(None), Ok(None));
    let mut wrong = control(release("r", 'a', 'b'));
    wrong.schema = 9;
    assert_eq!(
        read_control_state(Some(Ok(wrong))),
        Err("unsupported application release control schema 9".to_owned())
    );
    assert_eq!(
        read_control_state(Some(Err("eof".to_owned()))),
        Err("application release control marker is invalid JSON: eof".to_owned())
    );
}

#[test]
fn applications_are_observed_with_their_releases() {
    let seen = observe_application(
        Some("a".repeat(64)),
        Some(marker('b')),
        Some(control(release("r", 'a', 'b'))),
        &Ok(true),
    );
    assert!(seen.runtime_ready);
    assert_eq!(seen.observed_bundle_digest, Some("b".repeat(64)));
    assert_eq!(seen.current_release, Some(release("r", 'a', 'b')));
    let absent = observe_application(None, None, None, &Ok(true));
    assert!(!absent.runtime_ready);
    let silent = observe_application(Some("a".repeat(64)), None, None, &Err("x".to_owned()));
    assert!(!silent.runtime_ready);
}

fn plan(class: ApplicationPlanClass) -> ApplicationPlan {
    ApplicationPlan {
        class,
        actions: PlannedActions {
            install_agent: true,
            apply_bundle: true,
            bootstrap: true,
            publish_release: true,
        },
        reasons: words(&["one", "two"]),
    }
}

#[test]
fn plans_are_carried_out_in_their_order() {
    let mut step = match begin_execution(
        &plan(ApplicationPlanClass::Apply),
        DesiredMutationMode::Apply,
    ) {
        ExecutionNext::Do(step) => step,
        other => panic!("{other:?}"),
    };
    let mut seen = vec![step];
    while step != ExecutionStep::Observe {
        step = match execute_desired(plan(ApplicationPlanClass::Apply).actions, step, Ok(true)) {
            ExecutionNext::Do(step) => step,
            other => panic!("{other:?}"),
        };
        seen.push(step);
    }
    assert_eq!(
        seen,
        vec![
            ExecutionStep::InstallAgent,
            ExecutionStep::EnsurePrivateService,
            ExecutionStep::ApplyBundle,
            ExecutionStep::Bootstrap,
            ExecutionStep::VerifyRuntime,
            ExecutionStep::PublishRelease,
            ExecutionStep::Observe,
        ]
    );
    assert_eq!(
        execute_desired(
            plan(ApplicationPlanClass::Apply).actions,
            ExecutionStep::VerifyRuntime,
            Ok(false)
        ),
        ExecutionNext::Failed("typed runtime verification did not reach readiness".to_owned())
    );
    assert_eq!(
        execute_desired(
            plan(ApplicationPlanClass::Apply).actions,
            ExecutionStep::InstallAgent,
            Err("scp failed".to_owned())
        ),
        ExecutionNext::Failed("scp failed".to_owned())
    );
}

#[test]
fn plans_are_refused_in_the_wrong_mode() {
    assert_eq!(
        begin_execution(
            &plan(ApplicationPlanClass::Blocked),
            DesiredMutationMode::Apply
        ),
        ExecutionNext::Failed("application mutation is blocked: one; two".to_owned())
    );
    assert_eq!(
        begin_execution(
            &plan(ApplicationPlanClass::Noop),
            DesiredMutationMode::Upgrade
        ),
        ExecutionNext::Unchanged
    );
    assert_eq!(
        begin_execution(
            &plan(ApplicationPlanClass::Apply),
            DesiredMutationMode::Upgrade
        ),
        ExecutionNext::Failed(
            "upgrade requires an existing published application release; use apply".to_owned()
        )
    );
    assert_eq!(
        begin_execution(
            &plan(ApplicationPlanClass::Upgrade),
            DesiredMutationMode::Apply
        ),
        ExecutionNext::Failed(
            "apply refuses to overwrite an existing release; use upgrade".to_owned()
        )
    );
    assert_eq!(DesiredMutationMode::Upgrade.as_str(), "upgrade");
    assert_eq!(finish_execution(&plan(ApplicationPlanClass::Noop)), Ok(()));
    assert_eq!(
        finish_execution(&plan(ApplicationPlanClass::Upgrade)),
        Err(
            "application mutation completed operations but did not converge to NOOP: Upgrade: one; two"
                .to_owned()
        )
    );
}

#[test]
fn rollbacks_follow_their_course() {
    let current = release("new", 'a', 'b');
    let previous = release("old", 'c', 'd');
    let mut step = RollbackStep::VerifyPreviousMaterial;
    let mut seen = vec![step];
    while step != RollbackStep::Observe {
        step = match execute_rollback(&current, &previous, step, Ok(true)) {
            RollbackNext::Do(step) => step,
            other => panic!("{other:?}"),
        };
        seen.push(step);
    }
    assert!(seen.contains(&RollbackStep::RollbackAgent));
    let mut same_agent = release("old", 'a', 'd');
    assert_eq!(
        execute_rollback(&current, &same_agent, RollbackStep::RollbackBundle, Ok(true)),
        RollbackNext::Do(RollbackStep::EnsurePrivateService)
    );
    assert_eq!(
        execute_rollback(&current, &previous, RollbackStep::VerifyRuntime, Ok(false)),
        RollbackNext::Failed("rolled-back runtime did not reach typed readiness".to_owned())
    );
    let once = rolled_back_state(&current, &previous);
    assert_eq!(once.current, previous);
    let twice = rolled_back_state(&once.current, &once.previous.unwrap());
    assert_eq!(twice.current, current);
    assert_eq!(twice.previous, Some(release("old", 'c', 'd')));
    same_agent.details = "changed".to_owned();
    let observed = ApplicationObservationView {
        observed_agent_sha256: Some("c".repeat(64)),
        observed_bundle_digest: Some("d".repeat(64)),
        runtime_ready: true,
        current_release: Some(release("old", 'c', 'd')),
        previous_release: None,
    };
    assert_eq!(finish_rollback(&observed, &previous), Ok(()));
    assert!(finish_rollback(&observed, &same_agent).is_err());
}

#[test]
fn rollbacks_need_what_they_go_back_to() {
    let current = release("new", 'a', 'b');
    let previous = release("old", 'c', 'd');
    assert_eq!(
        verify_previous_release_material(
            &current,
            &previous,
            &Some("c".repeat(64)),
            &Some(marker('d'))
        ),
        Ok(())
    );
    assert!(
        verify_previous_release_material(&current, &previous, &None, &Some(marker('d')))
            .unwrap_err()
            .contains("previous edge-agent artifact")
    );
    assert!(
        verify_previous_release_material(&current, &previous, &Some("c".repeat(64)), &None)
            .unwrap_err()
            .contains("previous application bundle")
    );
    assert!(check_previous_agent(&previous, &None).is_err());
    assert!(check_previous_agent(&previous, &Some("c".repeat(64))).is_ok());
}

#[test]
fn what_is_there_decides_about_a_change() {
    let sha = "a".repeat(64);
    assert!(needs_agent(&None, &sha));
    assert!(!needs_agent(&Some(sha.clone()), &sha));
    assert_eq!(
        install_exact_agent(&sha, &Err("lost".to_owned()), &Some(sha.clone())),
        Ok(())
    );
    assert_eq!(
        install_exact_agent(&sha, &Err("lost".to_owned()), &None),
        Err(
            "edge-agent install outcome is uncertain; mutation was not replayed: lost".to_owned()
        )
    );
    assert_eq!(
        install_exact_agent(&sha, &Ok(()), &None),
        Err(
            "edge-agent install completed but remote digest did not match exact artifact"
                .to_owned()
        )
    );
    let command = install_agent_command(&sha);
    assert!(command.starts_with(&format!(
        "set -eu; expected='{sha}'; candidate='/tmp/singbox-edge-agent-{sha}.tmp'; actual="
    )));
    assert!(is_private_service(&format!("  {AGENT_DROPIN_CONTENT}")));
    assert!(!is_private_service("[Service]\n"));
    assert_eq!(
        ensure_private_agent_service("lost", AGENT_DROPIN_CONTENT),
        Ok(())
    );
    assert!(ensure_private_agent_service("lost", "").is_err());
    let (current, previous) = (release("new", 'a', 'b'), release("old", 'c', 'd'));
    assert_eq!(
        rollback_agent_once(&current, &previous, &Ok(()), &None),
        Err(
            "edge-agent rollback did not reach previous digest; current release remains new"
                .to_owned()
        )
    );
    assert_eq!(
        rollback_agent_once(
            &current,
            &previous,
            &Err("lost".to_owned()),
            &Some("c".repeat(64))
        ),
        Ok(())
    );
}

#[test]
fn bundle_calls_are_not_repeated() {
    let digest = "b".repeat(64);
    assert_eq!(
        bundle_replied(BundleCall::Apply, &digest, Ok(Some(digest.clone()))),
        BundleNext::Done(Ok(()))
    );
    assert_eq!(
        bundle_replied(BundleCall::Apply, &digest, Ok(Some("x\"y".to_owned()))),
        BundleNext::Done(Err(
            "edge-agent ApplyBundle returned unexpected active digest Some(\"x\\\"y\")".to_owned()
        ))
    );
    assert_eq!(
        bundle_replied(BundleCall::Rollback, &digest, Ok(None)),
        BundleNext::Done(Err(
            "edge-agent RollbackBundle returned unexpected active digest None".to_owned()
        ))
    );
    assert_eq!(
        bundle_replied(BundleCall::Apply, &digest, Err("lost".to_owned())),
        BundleNext::LookAtMarker("lost".to_owned())
    );
    assert_eq!(
        bundle_observed(BundleCall::Apply, &digest, "lost", &Some(marker('b'))),
        Ok(())
    );
    assert_eq!(
        bundle_observed(BundleCall::Rollback, &digest, "lost", &None),
        Err(
            "RollbackBundle outcome is uncertain and previous bundle was not observed; RPC was not replayed: lost"
                .to_owned()
        )
    );
}

#[test]
fn agents_answer_or_fail() {
    assert_eq!(
        bootstrap_once(&Ok(BootstrapAnswer {
            success: false,
            exit_code: -3,
            warnings: words(&["a", "b"]),
        })),
        Err("typed BootstrapRuntime failed with exit_code=-3 warnings=a; b".to_owned())
    );
    assert_eq!(
        bootstrap_once(&Err("gone".to_owned())),
        Err("typed BootstrapRuntime RPC failed: gone".to_owned())
    );
    assert_eq!(
        verify_runtime_ready(Err("gone".to_owned())),
        Err("typed VerifyRuntime RPC failed: gone".to_owned())
    );
    assert_eq!(verify_runtime_ready(Ok(false)), Ok(false));
    assert_eq!(connect_agent(0, &Err("no".to_owned())), ConnectNext::Again);
    assert_eq!(
        connect_agent(19, &Err("no".to_owned())),
        ConnectNext::Failed(
            "edge-agent did not become reachable through strict SSH tunnel: no".to_owned()
        )
    );
    assert_eq!(connect_agent(19, &Ok(())), ConnectNext::Connected);
}

#[test]
fn releases_are_published_once() {
    let new = release("new", 'a', 'b');
    let state = publish_release_once(None, &new).unwrap();
    assert_eq!(state.previous, None);
    assert_eq!(publish_release_once(Some(state), &new), None);
    let next = publish_release_once(Some(control(release("old", 'c', 'd'))), &new).unwrap();
    assert_eq!(next.previous, Some(release("old", 'c', 'd')));
    assert_eq!(
        publish_control_state_once(
            &Err("lost".to_owned()),
            &Some(control(release("new", 'a', 'b'))),
            &control(release("new", 'a', 'b'))
        ),
        Ok(())
    );
    assert_eq!(
        publish_control_state_once(&Err("lost".to_owned()), &None, &next),
        Err(
            "release publication outcome is uncertain; publication was not replayed: lost"
                .to_owned()
        )
    );
    assert_eq!(
        publish_control_state_once(&Ok(()), &None, &next),
        Err(
            "release publication completed but exact control state was not observed".to_owned()
        )
    );
}
