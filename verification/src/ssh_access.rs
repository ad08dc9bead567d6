//! Putting the agent on a machine by SSH: the commands, how long each is waited
//! for, and when the known key of a machine is given up.
use crate::bootstrap::WaitNext;
use crate::text::{
    blank, cat2, cat3, cat5, cat6, cat7, contains, decimal, has_part, join, joined,
    lemma_replaced_char, lemma_trimmed_blank, lowered, number, replace_char, replaced_char,
    same_ignoring_case, texts, to_lowercase, trim, trimmed,
};
use vstd::prelude::*;
use vstd::string::*;

verus! {

/// Who logs in on a machine unless the controller is told otherwise.
pub const DEFAULT_SSH_USER: &'static str = "root";

/// Whether a machine has come up far enough to run containers.
pub const DOCKER_READY_COMMAND: &'static str =
    "if command -v cloud-init >/dev/null 2>&1; then cloud-init status --wait >/dev/null 2>&1; fi; command -v docker >/dev/null 2>&1 && docker --version >/dev/null 2>&1";

/// Makes the place for the agent.
pub const AGENT_DIRECTORY_COMMAND: &'static str = "mkdir -p /opt/vultr-edge-stack/bin";

/// Where the agent is put before it takes its place.
pub const AGENT_STAGING_PATH: &'static str = "/opt/vultr-edge-stack/bin/edge-agent.tmp";

/// Puts the agent in its place and starts it.
pub const AGENT_INSTALL_COMMAND: &'static str =
    "install -m 0755 /opt/vultr-edge-stack/bin/edge-agent.tmp /opt/vultr-edge-stack/bin/edge-agent && rm -f /opt/vultr-edge-stack/bin/edge-agent.tmp && systemctl daemon-reload && systemctl enable edge-agent.service && systemctl restart edge-agent.service && systemctl is-active --quiet edge-agent.service";

/// Starts the agent anew.
pub const AGENT_RESTART_COMMAND: &'static str =
    "systemctl daemon-reload && systemctl restart edge-agent.service && systemctl is-active --quiet edge-agent.service";

/// Shows how the agent fares.
pub const AGENT_DIAGNOSTICS_COMMAND: &'static str =
    "systemctl is-active edge-agent.service && journalctl -u edge-agent.service -n 20 --no-pager";

/// How often a machine is tried by SSH.
pub const SSH_ATTEMPTS: u32 = 60;

/// How often a machine is asked whether it can run containers.
pub const DOCKER_ATTEMPTS: u32 = 90;

/// How often a tunnel is tried.
pub const TUNNEL_ATTEMPTS: u32 = 40;

/// What is needed to log in on a machine and put the agent there.
#[derive(Debug, PartialEq, Eq)]
pub struct BootstrapAccessConfig {
    pub private_key_path: String,
    pub agent_binary_path: String,
    pub ssh_user: String,
    pub remote_port: u16,
    pub known_hosts_path: String,
}

/// The arguments of an `ssh` that runs a command on a machine.
pub open spec fn ssh_command_words(access: BootstrapAccessConfig, target_ip: Seq<char>, command: Seq<char>) -> Seq<Seq<char>> {
    seq![
        "-i"@,
        access.private_key_path@,
        "-o"@,
        "BatchMode=yes"@,
        "-o"@,
        "StrictHostKeyChecking=yes"@,
        "-o"@,
        "UserKnownHostsFile="@ + access.known_hosts_path@,
        "-o"@,
        "IdentitiesOnly=yes"@,
        access.ssh_user@ + "@"@ + target_ip,
        command,
    ]
}

/// The arguments of an `ssh` that runs a command on a machine.
pub fn ssh_args(access: &BootstrapAccessConfig, target_ip: &str, command: &str) -> (r: Vec<String>)
    ensures
        texts(r@) == ssh_command_words(*access, target_ip@, command@),
{
    let mut v: Vec<String> = Vec::new();
    v.push("-i".to_owned());
    v.push(access.private_key_path.clone());
    v.push("-o".to_owned());
    v.push("BatchMode=yes".to_owned());
    v.push("-o".to_owned());
    v.push("StrictHostKeyChecking=yes".to_owned());
    v.push("-o".to_owned());
    v.push(cat2("UserKnownHostsFile=", access.known_hosts_path.as_str()));
    v.push("-o".to_owned());
    v.push("IdentitiesOnly=yes".to_owned());
    v.push(cat3(access.ssh_user.as_str(), "@", target_ip));
    v.push(command.to_owned());
    assert(texts(v@) =~= ssh_command_words(*access, target_ip@, command@));
    v
}

/// The arguments of an `scp` that puts a file on a machine.
pub open spec fn scp_words(access: BootstrapAccessConfig, target_ip: Seq<char>, source_path: Seq<char>, remote_path: Seq<char>) -> Seq<Seq<char>> {
    seq![
        "-i"@,
        access.private_key_path@,
        "-o"@,
        "BatchMode=yes"@,
        "-o"@,
        "StrictHostKeyChecking=yes"@,
        "-o"@,
        "UserKnownHostsFile="@ + access.known_hosts_path@,
        "-o"@,
        "IdentitiesOnly=yes"@,
        source_path,
        access.ssh_user@ + "@"@ + target_ip + ":"@ + remote_path,
    ]
}

/// The arguments of an `scp` that puts a file on a machine.
pub fn scp_args(access: &BootstrapAccessConfig, target_ip: &str, source_path: &str, remote_path: &str) -> (r: Vec<String>)
    ensures
        texts(r@) == scp_words(*access, target_ip@, source_path@, remote_path@),
{
    let mut v: Vec<String> = Vec::new();
    v.push("-i".to_owned());
    v.push(access.private_key_path.clone());
    v.push("-o".to_owned());
    v.push("BatchMode=yes".to_owned());
    v.push("-o".to_owned());
    v.push("StrictHostKeyChecking=yes".to_owned());
    v.push("-o".to_owned());
    v.push(cat2("UserKnownHostsFile=", access.known_hosts_path.as_str()));
    v.push("-o".to_owned());
    v.push("IdentitiesOnly=yes".to_owned());
    v.push(source_path.to_owned());
    v.push(cat5(access.ssh_user.as_str(), "@", target_ip, ":", remote_path));
    assert(texts(v@) =~= scp_words(*access, target_ip@, source_path@, remote_path@));
    v
}

/// The arguments of the `ssh` that accepts the key of a machine not known yet.
pub open spec fn accept_key_words(access: BootstrapAccessConfig, target_ip: Seq<char>) -> Seq<Seq<char>> {
    seq![
        "-i"@,
        access.private_key_path@,
        "-o"@,
        "BatchMode=yes"@,
        "-o"@,
        "StrictHostKeyChecking=accept-new"@,
        "-o"@,
        "UserKnownHostsFile="@ + access.known_hosts_path@,
        "-o"@,
        "IdentitiesOnly=yes"@,
        "-o"@,
        "ConnectTimeout=5"@,
        access.ssh_user@ + "@"@ + target_ip,
        "exit"@,
    ]
}

/// The arguments of the `ssh` that accepts the key of a machine not known yet.
pub fn accept_key_args(access: &BootstrapAccessConfig, target_ip: &str) -> (r: Vec<String>)
    ensures
        texts(r@) == accept_key_words(*access, target_ip@),
{
    let mut v: Vec<String> = Vec::new();
    v.push("-i".to_owned());
    v.push(access.private_key_path.clone());
    v.push("-o".to_owned());
    v.push("BatchMode=yes".to_owned());
    v.push("-o".to_owned());
    v.push("StrictHostKeyChecking=accept-new".to_owned());
    v.push("-o".to_owned());
    v.push(cat2("UserKnownHostsFile=", access.known_hosts_path.as_str()));
    v.push("-o".to_owned());
    v.push("IdentitiesOnly=yes".to_owned());
    v.push("-o".to_owned());
    v.push("ConnectTimeout=5".to_owned());
    v.push(cat3(access.ssh_user.as_str(), "@", target_ip));
    v.push("exit".to_owned());
    assert(texts(v@) =~= accept_key_words(*access, target_ip@));
    v
}

/// The arguments of the `ssh` that opens a tunnel to the agent on a machine.
pub open spec fn tunnel_words(
    access: BootstrapAccessConfig,
    target_ip: Seq<char>,
    local_port: u16,
) -> Seq<Seq<char>> {
    seq![
        "-i"@,
        access.private_key_path@,
        "-o"@,
        "BatchMode=yes"@,
        "-o"@,
        "StrictHostKeyChecking=yes"@,
        "-o"@,
        "UserKnownHostsFile="@ + access.known_hosts_path@,
        "-o"@,
        "IdentitiesOnly=yes"@,
        "-o"@,
        "ExitOnForwardFailure=yes"@,
        "-N"@,
        "-L"@,
        decimal(local_port as nat) + ":127.0.0.1:"@ + decimal(access.remote_port as nat),
        access.ssh_user@ + "@"@ + target_ip,
    ]
}

/// The arguments of the `ssh` that opens a tunnel to the agent on a machine.
pub fn tunnel_args(access: &BootstrapAccessConfig, target_ip: &str, local_port: u16) -> (r: Vec<
    String,
>)
    ensures
        texts(r@) == tunnel_words(*access, target_ip@, local_port),
{
    let mut v: Vec<String> = Vec::new();
    v.push("-i".to_owned());
    v.push(access.private_key_path.clone());
    v.push("-o".to_owned());
    v.push("BatchMode=yes".to_owned());
    v.push("-o".to_owned());
    v.push("StrictHostKeyChecking=yes".to_owned());
    v.push("-o".to_owned());
    v.push(cat2("UserKnownHostsFile=", access.known_hosts_path.as_str()));
    v.push("-o".to_owned());
    v.push("IdentitiesOnly=yes".to_owned());
    v.push("-o".to_owned());
    v.push("ExitOnForwardFailure=yes".to_owned());
    v.push("-N".to_owned());
    v.push("-L".to_owned());
    v.push(
        cat3(
            number(local_port as u64).as_str(),
            ":127.0.0.1:",
            number(access.remote_port as u64).as_str(),
        ),
    );
    v.push(cat3(access.ssh_user.as_str(), "@", target_ip));
    assert(texts(v@) =~= tunnel_words(*access, target_ip@, local_port));
    v
}

/// Whether a failure says that the key of a machine is not the one that is
/// known.
pub open spec fn stale_key(message: Seq<char>) -> bool {
    let m = lowered(message);
    has_part(m, "remote host identification has changed"@) || has_part(
        m,
        "host key verification failed"@,
    ) || has_part(m, "offending"@)
}

/// Whether a failure says that the key of a machine is not the one that is
/// known.
pub fn is_stale_known_host_error(message: &str) -> (r: bool)
    ensures
        r == stale_key(message@),
{
    let m: String = to_lowercase(message);
    contains(m.as_str(), "remote host identification has changed") || contains(
        m.as_str(),
        "host key verification failed",
    ) || contains(m.as_str(), "offending")
}

/// How far the attempts to log in have come.
#[derive(Debug, Clone, Copy, PartialEq, Eq)]
pub struct HostKeyWait {
    pub attempts_done: u32,
    pub refreshed: bool,
}

/// What follows an attempt to log in.
#[derive(Debug, Clone, Copy, PartialEq, Eq, Structural)]
pub enum HostKeyNext {
    Accepted,
    /// Forget the known key and wait a second.
    Refresh,
    /// Wait five seconds.
    Pause,
}

/// What an attempt to log in leads to.
pub open spec fn host_key_attempt(
    wait: HostKeyWait,
    allow_refresh: bool,
    outcome: Result<(), String>,
    after: HostKeyWait,
    next: HostKeyNext,
) -> bool {
    &&& after.attempts_done == wait.attempts_done + 1
    &&& match outcome {
        Ok(()) => next == HostKeyNext::Accepted && after.refreshed == wait.refreshed,
        Err(e) => if allow_refresh && !wait.refreshed && stale_key(e@) {
            next == HostKeyNext::Refresh && after.refreshed
        } else {
            next == HostKeyNext::Pause && after.refreshed == wait.refreshed
        },
    }
}

impl HostKeyWait {
    /// Before the first attempt.
    pub fn new() -> (r: HostKeyWait)
        ensures
            r == (HostKeyWait { attempts_done: 0, refreshed: false }),
    {
        HostKeyWait { attempts_done: 0, refreshed: false }
    }

    /// Whether another attempt is made.
    pub fn check(&self, target_ip: &str) -> (r: Result<(), String>)
        ensures
            match r {
                Ok(()) => self.attempts_done < SSH_ATTEMPTS,
                Err(e) => self.attempts_done >= SSH_ATTEMPTS && e@
                    == "timed out waiting for SSH on "@ + target_ip@,
            },
    {
        if self.attempts_done < SSH_ATTEMPTS {
            Ok(())
        } else {
            Err(cat2("timed out waiting for SSH on ", target_ip))
        }
    }

    /// Takes the outcome of an attempt into account. A known key is forgotten
    /// only where that is allowed, and once at most.
    pub fn accept_ssh_host_key(self, allow_refresh: bool, outcome: &Result<(), String>) -> (r: (
        HostKeyWait,
        HostKeyNext,
    ))
        requires
            self.attempts_done < SSH_ATTEMPTS,
        ensures
            host_key_attempt(self, allow_refresh, *outcome, r.0, r.1),
    {
        let attempts_done: u32 = self.attempts_done + 1;
        match outcome {
            Ok(()) => (
                HostKeyWait { attempts_done, refreshed: self.refreshed },
                HostKeyNext::Accepted,
            ),
            Err(e) => {
                if allow_refresh && !self.refreshed && is_stale_known_host_error(e.as_str()) {
                    (HostKeyWait { attempts_done, refreshed: true }, HostKeyNext::Refresh)
                } else {
                    (
                        HostKeyWait { attempts_done, refreshed: self.refreshed },
                        HostKeyNext::Pause,
                    )
                }
            },
        }
    }
}

/// A known key is forgotten once at most: from then on no attempt leads to it
/// again. Where it is not allowed, no attempt leads to it at all.
pub proof fn law_known_key_is_forgotten_once(
    wait: HostKeyWait,
    allow_refresh: bool,
    outcome: Result<(), String>,
    after: HostKeyWait,
    next: HostKeyNext,
)
    requires
        host_key_attempt(wait, allow_refresh, outcome, after, next),
    ensures
        wait.refreshed ==> after.refreshed && next != HostKeyNext::Refresh,
        next == HostKeyNext::Refresh ==> allow_refresh && after.refreshed,
{
}

/// Decides what follows attempt number `attempt` (from zero) to see whether a
/// machine can run containers.
pub fn wait_for_docker_runtime(target_ip: &str, attempt: u32, ready: bool) -> (r: WaitNext<()>)
    ensures
        if ready {
            r == WaitNext::Done(Ok::<(), String>(()))
        } else if attempt + 1 < DOCKER_ATTEMPTS {
            r is Again
        } else {
            r matches WaitNext::Done(Err(e)) && e@ == "docker runtime was not ready on "@
                + target_ip@ + " after waiting for cloud-init"@
        },
{
    if ready {
        WaitNext::Done(Ok(()))
    } else if attempt < DOCKER_ATTEMPTS && attempt + 1 < DOCKER_ATTEMPTS {
        WaitNext::Again
    } else {
        WaitNext::Done(
            Err(
                cat3(
                    "docker runtime was not ready on ",
                    target_ip,
                    " after waiting for cloud-init",
                ),
            ),
        )
    }
}

/// How a tunnel fares.
#[derive(Debug, PartialEq, Eq)]
pub enum TunnelSight {
    /// The program behind it has ended, with that status.
    Exited(String),
    Open,
    /// It does not answer yet.
    Closed,
}

/// Decides what follows look number `attempt` (from zero) at a tunnel.
pub fn start_ssh_tunnel(local_port: u16, attempt: u32, sight: &TunnelSight) -> (r: WaitNext<()>)
    ensures
        match *sight {
            TunnelSight::Exited(status) => r matches WaitNext::Done(Err(e)) && e@
                == "SSH tunnel exited early with status "@ + status@,
            TunnelSight::Open => r == WaitNext::Done(Ok::<(), String>(())),
            TunnelSight::Closed => if attempt + 1 < TUNNEL_ATTEMPTS {
                r is Again
            } else {
                r matches WaitNext::Done(Err(e)) && e@
                    == "timed out waiting for local SSH tunnel on 127.0.0.1:"@ + decimal(
                    local_port as nat,
                )
            },
        },
{
    match sight {
        TunnelSight::Exited(status) => WaitNext::Done(
            Err(cat2("SSH tunnel exited early with status ", status.as_str())),
        ),
        TunnelSight::Open => WaitNext::Done(Ok(())),
        TunnelSight::Closed => {
            if attempt < TUNNEL_ATTEMPTS && attempt + 1 < TUNNEL_ATTEMPTS {
                WaitNext::Again
            } else {
                WaitNext::Done(
                    Err(
                        cat2(
                            "timed out waiting for local SSH tunnel on 127.0.0.1:",
                            number(local_port as u64).as_str(),
                        ),
                    ),
                )
            }
        },
    }
}

/// Whether a program is one of Windows, by the extension of its name.
pub open spec fn windows_program(extension: Option<Seq<char>>) -> bool {
    extension matches Some(x) && lowered(x) == lowered("exe"@)
}

fn is_windows_program(extension: &Option<String>) -> (r: bool)
    ensures
        r == windows_program(extension.deep_view()),
{
    match extension {
        Some(x) => same_ignoring_case(x.as_str(), "exe"),
        None => false,
    }
}

/// Checks the agent before it is put on a machine. `extension` is that of its
/// file's name.
pub fn ensure_edge_agent_service(path: &str, extension: &Option<String>) -> (r: Result<(), String>)
    ensures
        match r {
            Ok(()) => !windows_program(extension.deep_view()),
            Err(e) => windows_program(extension.deep_view()) && e@
                == "refusing to upload non-Linux edge-agent binary: "@ + path@,
        },
{
    if is_windows_program(extension) {
        Err(cat2("refusing to upload non-Linux edge-agent binary: ", path))
    } else {
        Ok(())
    }
}

/// Checks the key to log in with. `path` is where it is, if that is known, and
/// `is_file` says whether it is there.
pub fn check_private_key(path: Option<String>, is_file: bool) -> (r: Result<String, String>)
    ensures
        match path {
            None => r matches Err(e) && e@
                == "a configured SSH private key path secret is required for SSH bootstrap"@,
            Some(p) => if is_file {
                r == Ok::<String, String>(p)
            } else {
                r matches Err(e) && e@ == "SSH private key was not found: "@ + p@
            },
        },
{
    match path {
        None => Err(
            "a configured SSH private key path secret is required for SSH bootstrap".to_owned(),
        ),
        Some(p) => {
            if is_file {
                Ok(p)
            } else {
                Err(cat2("SSH private key was not found: ", p.as_str()))
            }
        },
    }
}

/// An agent's program as it was found.
#[derive(Debug, PartialEq, Eq)]
pub struct AgentBinary {
    pub path: String,
    pub is_file: bool,
    pub extension: Option<String>,
}

/// Checks the agent's program. `windows` says whether the controller runs on
/// Windows, where a program of Windows lies close at hand.
pub fn check_agent_binary(found: Option<AgentBinary>, windows: bool) -> (r: Result<String, String>)
    ensures
        match found {
            None => r matches Err(e) && e@
                == "EDGE_AGENT_BINARY_PATH is required or a Linux edge-agent binary must exist under edge-platform/target"@,
            Some(b) => if !b.is_file {
                r matches Err(e) && e@ == "edge-agent binary was not found: "@ + b.path@
            } else if windows && windows_program(b.extension.deep_view()) {
                r matches Err(e) && e@
                    == "Windows deploy requires a Linux edge-agent binary, but resolved "@ + b.path@
            } else {
                r == Ok::<String, String>(b.path)
            },
        },
{
    match found {
        None => Err(
            "EDGE_AGENT_BINARY_PATH is required or a Linux edge-agent binary must exist under edge-platform/target".to_owned(),
        ),
        Some(b) => {
            if !b.is_file {
                Err(cat2("edge-agent binary was not found: ", b.path.as_str()))
            } else if windows && is_windows_program(&b.extension) {
                Err(
                    cat2(
                        "Windows deploy requires a Linux edge-agent binary, but resolved ",
                        b.path.as_str(),
                    ),
                )
            } else {
                Ok(b.path)
            }
        },
    }
}

/// Where the agent's program is looked for, in order, below the directory that
/// the controller works in.
pub fn default_edge_agent_binary_path(windows: bool) -> (r: Vec<&'static str>)
    ensures
        r@ == if windows {
            seq![
                "edge-platform/target/x86_64-unknown-linux-gnu/debug/edge-agent",
                "edge-platform/target/x86_64-unknown-linux-musl/debug/edge-agent",
                "edge-platform/target/x86_64-unknown-linux-gnu/release/edge-agent",
                "edge-platform/target/x86_64-unknown-linux-musl/release/edge-agent",
                "recovered/vm/vultr-edge-stack/bin/edge-agent",
            ]
        } else {
            seq!["edge-platform/target/debug/edge-agent", "edge-platform/target/release/edge-agent"]
        },
{
    let mut v: Vec<&'static str> = Vec::new();
    if windows {
        v.push("edge-platform/target/x86_64-unknown-linux-gnu/debug/edge-agent");
        v.push("edge-platform/target/x86_64-unknown-linux-musl/debug/edge-agent");
        v.push("edge-platform/target/x86_64-unknown-linux-gnu/release/edge-agent");
        v.push("edge-platform/target/x86_64-unknown-linux-musl/release/edge-agent");
        v.push("recovered/vm/vultr-edge-stack/bin/edge-agent");
        assert(v@ =~= seq![
            "edge-platform/target/x86_64-unknown-linux-gnu/debug/edge-agent",
            "edge-platform/target/x86_64-unknown-linux-musl/debug/edge-agent",
            "edge-platform/target/x86_64-unknown-linux-gnu/release/edge-agent",
            "edge-platform/target/x86_64-unknown-linux-musl/release/edge-agent",
            "recovered/vm/vultr-edge-stack/bin/edge-agent",
        ]);
    } else {
        v.push("edge-platform/target/debug/edge-agent");
        v.push("edge-platform/target/release/edge-agent");
        assert(v@ =~= seq![
            "edge-platform/target/debug/edge-agent",
            "edge-platform/target/release/edge-agent",
        ]);
    }
    v
}

/// Who logs in on a machine, as the environment says or as usual.
pub fn choose_ssh_user(set: Option<String>) -> (r: String)
    ensures
        r@ == match set {
            Some(user) => user@,
            None => DEFAULT_SSH_USER@,
        },
{
    match set {
        Some(user) => user,
        None => DEFAULT_SSH_USER.to_owned(),
    }
}

/// The error for a program that ended otherwise than well.
pub fn exited_badly(program: &str, status: &str, args: &Vec<String>) -> (r: String)
    ensures
        r@ == program@ + " exited with status "@ + status@ + " ("@ + joined(texts(args@), " "@)
            + ")"@,
{
    cat6(program, " exited with status ", status, " (", join(args, " ").as_str(), ")")
}

/// What a program has written, both ways, or the error where it ended otherwise
/// than well.
pub open spec fn captured(
    program: Seq<char>,
    success: bool,
    status: Seq<char>,
    stdout: Seq<char>,
    stderr: Seq<char>,
) -> Result<Seq<char>, Seq<char>> {
    let out = trimmed(stdout);
    let err = trimmed(stderr);
    if !success {
        Err(program + " exited with status "@ + status + ": "@ + out + " "@ + err)
    } else if out.len() == 0 {
        Ok(err)
    } else if err.len() == 0 {
        Ok(out)
    } else {
        Ok(out + " | "@ + err)
    }
}

/// Reads what a program has written.
pub fn run_command_capture(program: &str, success: bool, status: &str, stdout: &str, stderr: &str) -> (r:
    Result<String, String>)
    ensures
        match r {
            Ok(t) => captured(program@, success, status@, stdout@, stderr@) == Ok::<
                Seq<char>,
                Seq<char>,
            >(t@),
            Err(e) => captured(program@, success, status@, stdout@, stderr@) == Err::<
                Seq<char>,
                Seq<char>,
            >(e@),
        },
{
    let out: &str = trim(stdout);
    let err: &str = trim(stderr);
    if !success {
        Err(cat7(program, " exited with status ", status, ": ", out, " ", err))
    } else if out.is_empty() {
        Ok(err.to_owned())
    } else if err.is_empty() {
        Ok(out.to_owned())
    } else {
        Ok(cat3(out, " | ", err))
    }
}

/// What a program has written, in one line.
pub fn collect_edge_agent_diagnostics(output: &str) -> (r: String)
    ensures
        r@ == replaced_char(output@, '\n', " | "@),
{
    replace_char(output, '\n', " | ")
}

/// A step of putting the agent on a machine.
#[derive(Debug, Clone, Copy, PartialEq, Eq, Structural)]
pub enum AccessStep {
    AcceptHostKey,
    AwaitDocker,
    InstallAgent,
    OpenTunnel,
}

/// What the journal is told before a step.
pub fn access_step_event(step: AccessStep) -> (r: &'static str)
    ensures
        r@ == match step {
            AccessStep::AcceptHostKey => "waiting for SSH reachability"@,
            AccessStep::AwaitDocker => "SSH host key pinned"@,
            AccessStep::InstallAgent => "cloud-init and docker are ready"@,
            AccessStep::OpenTunnel => "edge-agent service is running"@,
        },
{
    match step {
        AccessStep::AcceptHostKey => "waiting for SSH reachability",
        AccessStep::AwaitDocker => "SSH host key pinned",
        AccessStep::InstallAgent => "cloud-init and docker are ready",
        AccessStep::OpenTunnel => "edge-agent service is running",
    }
}

/// The step after one that worked, if there is one.
pub fn access_step_after(step: AccessStep) -> (r: Option<AccessStep>)
    ensures
        r == match step {
            AccessStep::AcceptHostKey => Some(AccessStep::AwaitDocker),
            AccessStep::AwaitDocker => Some(AccessStep::InstallAgent),
            AccessStep::InstallAgent => Some(AccessStep::OpenTunnel),
            AccessStep::OpenTunnel => None,
        },
{
    match step {
        AccessStep::AcceptHostKey => Some(AccessStep::AwaitDocker),
        AccessStep::AwaitDocker => Some(AccessStep::InstallAgent),
        AccessStep::InstallAgent => Some(AccessStep::OpenTunnel),
        AccessStep::OpenTunnel => None,
    }
}

/// Every command goes to the machine with the one key, asks nobody, and checks
/// the host against the known ones; only the very first contact may add a host,
/// and it runs nothing.
pub proof fn law_hosts_are_checked(
    access: BootstrapAccessConfig,
    target_ip: &str,
    command: &str,
    ssh: Vec<String>,
    source: &str,
    remote: &str,
    scp: Vec<String>,
    port: u16,
    tunnel: Vec<String>,
    first: Vec<String>,
)
    requires
        call_ensures(ssh_args, (&access, target_ip, command), ssh),
        call_ensures(scp_args, (&access, target_ip, source, remote), scp),
        call_ensures(tunnel_args, (&access, target_ip, port), tunnel),
        call_ensures(accept_key_args, (&access, target_ip), first),
    ensures
        texts(ssh@).contains("StrictHostKeyChecking=yes"@),
        texts(scp@).contains("StrictHostKeyChecking=yes"@),
        texts(tunnel@).contains("StrictHostKeyChecking=yes"@),
        texts(first@).contains("StrictHostKeyChecking=accept-new"@),
        texts(ssh@).contains("UserKnownHostsFile="@ + access.known_hosts_path@),
        texts(first@).contains("UserKnownHostsFile="@ + access.known_hosts_path@),
        texts(ssh@)[1] == access.private_key_path@ && texts(scp@)[1] == access.private_key_path@
            && texts(tunnel@)[1] == access.private_key_path@ && texts(first@)[1]
            == access.private_key_path@,
        texts(ssh@).last() == command@,
        texts(first@).last() == "exit"@,
        texts(ssh@)[ssh@.len() - 2] == access.ssh_user@ + "@"@ + target_ip@,
        texts(scp@).last() == access.ssh_user@ + "@"@ + target_ip@ + ":"@ + remote@,
        texts(scp@)[scp@.len() - 2] == source@,
        texts(tunnel@).contains("ExitOnForwardFailure=yes"@),
        texts(tunnel@)[tunnel@.len() - 2] == decimal(port as nat) + ":127.0.0.1:"@ + decimal(
            access.remote_port as nat,
        ),
{
    assert(texts(ssh@).len() == ssh@.len() && texts(scp@).len() == scp@.len());
    assert(texts(tunnel@).len() == tunnel@.len() && texts(first@).len() == first@.len());
    assert(texts(ssh@)[5] == "StrictHostKeyChecking=yes"@);
    assert(texts(scp@)[5] == "StrictHostKeyChecking=yes"@);
    assert(texts(tunnel@)[5] == "StrictHostKeyChecking=yes"@);
    assert(texts(first@)[5] == "StrictHostKeyChecking=accept-new"@);
    assert(texts(ssh@)[7] == "UserKnownHostsFile="@ + access.known_hosts_path@);
    assert(texts(first@)[7] == "UserKnownHostsFile="@ + access.known_hosts_path@);
    assert(texts(tunnel@)[11] == "ExitOnForwardFailure=yes"@);
}

/// A known key is forgotten only where that is allowed, once, and only where the
/// host was refused for its key; otherwise the wait goes on, for at most sixty
/// tries.
pub proof fn law_a_known_key_is_kept_where_it_may(
    wait: HostKeyWait,
    allow_refresh: bool,
    outcome: Result<(), String>,
    message: &str,
    stale: bool,
    r: (HostKeyWait, HostKeyNext),
    target_ip: &str,
    checked: Result<(), String>,
)
    requires
        wait.attempts_done < 60,
        outcome matches Err(e) ==> e@ == message@,
        call_ensures(is_stale_known_host_error, (message,), stale),
        call_ensures(HostKeyWait::accept_ssh_host_key, (wait, allow_refresh, &outcome), r),
        call_ensures(HostKeyWait::check, (&wait, target_ip), checked),
    ensures
        r.1 is Accepted <==> outcome is Ok,
        r.1 is Refresh <==> outcome is Err && allow_refresh && !wait.refreshed && stale,
        r.0.refreshed <==> wait.refreshed || r.1 is Refresh,
        r.0.attempts_done == wait.attempts_done + 1,
        checked is Ok,
        stale <==> has_part(lowered(message@), "remote host identification has changed"@)
            || has_part(lowered(message@), "host key verification failed"@) || has_part(
            lowered(message@),
            "offending"@,
        ),
{
}

/// Docker is waited for until it is there, for at most ninety looks, and a
/// tunnel until it is open, for at most forty; one whose program has ended is
/// given up at once.
pub proof fn law_waits_on_the_machine_end(
    target_ip: &str,
    attempt: u32,
    ready: bool,
    docker: WaitNext<()>,
    port: u16,
    sight: TunnelSight,
    tunnel: WaitNext<()>,
)
    requires
        call_ensures(wait_for_docker_runtime, (target_ip, attempt, ready), docker),
        call_ensures(start_ssh_tunnel, (port, attempt, &sight), tunnel),
    ensures
        docker matches WaitNext::Done(Ok(_)) <==> ready,
        docker is Again <==> !ready && attempt < 89,
        tunnel matches WaitNext::Done(Ok(_)) <==> sight is Open,
        tunnel is Again <==> sight is Closed && attempt < 39,
        sight is Exited ==> (tunnel matches WaitNext::Done(Err(_))),
{
}

/// Only a program for the machine's own system is put on it, from a file that is
/// there, with a key that is there.
pub proof fn law_only_programs_for_the_machine_are_sent(
    found: AgentBinary,
    windows: bool,
    r: Result<String, String>,
    sent: Result<(), String>,
    path: &str,
    key: Option<String>,
    key_there: bool,
    k: Result<String, String>,
)
    requires
        call_ensures(check_agent_binary, (Some(found), windows), r),
        call_ensures(ensure_edge_agent_service, (path, &found.extension), sent),
        call_ensures(check_private_key, (key, key_there), k),
    ensures
        r is Ok ==> found.is_file,
        found.extension matches Some(x) ==> (x@ == "exe"@ ==> sent is Err && (windows ==> r is Err)),
        found.extension is None ==> sent is Ok && (found.is_file ==> r is Ok),
        r matches Ok(p) ==> p == found.path,
        k is Ok <==> key is Some && key_there,
        k matches Ok(p) ==> key == Some(p),
{
}

/// What a command has printed is told without the white space around it; a
/// failure is told with both.
pub proof fn law_what_a_command_prints_is_told(
    program: &str,
    success: bool,
    status: &str,
    stdout: &str,
    stderr: &str,
    r: Result<String, String>,
)
    requires
        call_ensures(run_command_capture, (program, success, status, stdout, stderr), r),
    ensures
        r is Ok <==> success,
        success && blank(stderr@) ==> r->Ok_0@ == trimmed(stdout@),
        success && blank(stdout@) ==> r->Ok_0@ == trimmed(stderr@),
{
    lemma_trimmed_blank(stdout@);
    lemma_trimmed_blank(stderr@);
    if success && blank(stdout@) && blank(stderr@) {
        assert(trimmed(stdout@) =~= trimmed(stderr@));
    }
}

/// A machine is set up in order: it is reached, docker is there, the agent is
/// put on it, and then the tunnel is opened.
pub proof fn law_machines_are_set_up_in_order(step: AccessStep, r: Option<AccessStep>)
    requires
        call_ensures(access_step_after, (step,), r),
    ensures
        r == Some(AccessStep::AwaitDocker) <==> step is AcceptHostKey,
        r == Some(AccessStep::InstallAgent) <==> step is AwaitDocker,
        r == Some(AccessStep::OpenTunnel) <==> step is InstallAgent,
        r is None <==> step is OpenTunnel,
        r != Some(AccessStep::AcceptHostKey),
{
}

/// Before the first attempt nothing was tried and no key was taken anew.
pub proof fn law_no_key_is_taken_anew_before_an_attempt(r: HostKeyWait)
    requires
        call_ensures(HostKeyWait::new, (), r),
    ensures
        r.attempts_done == 0,
        !r.refreshed,
{
}

/// The user is the one that is set, and the machine's own where none is.
pub proof fn law_the_user_is_the_one_set(set: Option<String>, r: String)
    requires
        call_ensures(choose_ssh_user, (set,), r),
    ensures
        set matches Some(u) ==> r@ == u@,
        set is None ==> r@ == "root"@,
{
}

/// What the host says is told on one line.
pub proof fn law_diagnostics_are_told_on_one_line(output: &str, r: String)
    requires
        call_ensures(collect_edge_agent_diagnostics, (output,), r),
    ensures
        !r@.contains('\n'),
        !output@.contains('\n') ==> r@ == output@,
{
    reveal_strlit(" | ");
    assert(!" | "@.contains('\n'));
    lemma_replaced_char(output@, '\n', " | "@);
}

} // verus!
