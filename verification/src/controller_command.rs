//! The controller's command line by position: the word for the command, and
//! after it what the command is given.
use crate::application::BootstrapMode;
use crate::cli::{
    DEFAULT_AGENT_ENDPOINT, DEFAULT_CONTROLLER_ADDR, Environment, env_flag, flag, nonblank,
    normalized,
};
use crate::requests::{DeployRequest, DestroyRequest};
use crate::text::{blank, cat2, copy_option, law_trimming_keeps_words, same, words};
use vstd::prelude::*;
use vstd::string::*;

verus! {

/// Where `deploy` is given the controller's endpoint.
pub const DEPLOY_ENDPOINT_ARG_INDEX: usize = 10;

/// Where `destroy` is given the controller's endpoint.
pub const DESTROY_ENDPOINT_ARG_INDEX: usize = 6;

/// A command of the controller.
#[derive(Debug, Clone, Copy, PartialEq, Eq, Structural)]
pub enum ControllerCommand {
    Serve,
    GetStatus,
    ControllerBootstrapRuntime,
    BootstrapRuntime,
    StartLocal,
    StopLocal,
    RestartLocal,
    GetSelector,
    SetSelector,
    Trace,
    Deploy,
    Destroy,
}

/// The word for a command.
pub open spec fn controller_word(command: ControllerCommand) -> Seq<char> {
    match command {
        ControllerCommand::Serve => "serve"@,
        ControllerCommand::GetStatus => "get-status"@,
        ControllerCommand::ControllerBootstrapRuntime => "controller-bootstrap-runtime"@,
        ControllerCommand::BootstrapRuntime => "bootstrap-runtime"@,
        ControllerCommand::StartLocal => "start-local"@,
        ControllerCommand::StopLocal => "stop-local"@,
        ControllerCommand::RestartLocal => "restart-local"@,
        ControllerCommand::GetSelector => "get-selector"@,
        ControllerCommand::SetSelector => "set-selector"@,
        ControllerCommand::Trace => "trace"@,
        ControllerCommand::Deploy => "deploy"@,
        ControllerCommand::Destroy => "destroy"@,
    }
}

/// Whether there is a command of that word.
pub open spec fn is_controller_word(word: Seq<char>) -> bool {
    exists|c: ControllerCommand| #[trigger] controller_word(c) == word
}

/// The argument at that position, if so many were given.
pub open spec fn argument(args: Seq<String>, index: int) -> Option<Seq<char>> {
    if 0 <= index < args.len() {
        Some(args[index]@)
    } else {
        None
    }
}

/// The argument at that position, if so many were given.
pub fn argument_at(args: &Vec<String>, index: usize) -> (r: Option<String>)
    ensures
        r.deep_view() == argument(args@, index as int),
{
    if index < args.len() {
        Some(args[index].clone())
    } else {
        None
    }
}

/// Reads the command off the command line: the first word after the program's
/// name, which is to serve where there is none.
pub fn read_controller_command(args: &Vec<String>) -> (r: Result<ControllerCommand, String>)
    ensures
        match r {
            Ok(c) => controller_word(c) == match argument(args@, 1) {
                Some(word) => word,
                None => "serve"@,
            },
            Err(e) => argument(args@, 1) matches Some(word) && !is_controller_word(word) && e@
                == "unsupported command: "@ + word,
        },
{
    let word: String = match argument_at(args, 1) {
        Some(word) => word,
        None => {
            return Ok(ControllerCommand::Serve);
        },
    };
    let w: &str = word.as_str();
    if same(w, "serve") {
        Ok(ControllerCommand::Serve)
    } else if same(w, "get-status") {
        Ok(ControllerCommand::GetStatus)
    } else if same(w, "controller-bootstrap-runtime") {
        Ok(ControllerCommand::ControllerBootstrapRuntime)
    } else if same(w, "bootstrap-runtime") {
        Ok(ControllerCommand::BootstrapRuntime)
    } else if same(w, "start-local") {
        Ok(ControllerCommand::StartLocal)
    } else if same(w, "stop-local") {
        Ok(ControllerCommand::StopLocal)
    } else if same(w, "restart-local") {
        Ok(ControllerCommand::RestartLocal)
    } else if same(w, "get-selector") {
        Ok(ControllerCommand::GetSelector)
    } else if same(w, "set-selector") {
        Ok(ControllerCommand::SetSelector)
    } else if same(w, "trace") {
        Ok(ControllerCommand::Trace)
    } else if same(w, "deploy") {
        Ok(ControllerCommand::Deploy)
    } else if same(w, "destroy") {
        Ok(ControllerCommand::Destroy)
    } else {
        Err(cat2("unsupported command: ", w))
    }
}

/// Where a command is given the endpoint that it talks to.
pub fn endpoint_position(command: ControllerCommand) -> (r: usize)
    ensures
        r == match command {
            ControllerCommand::ControllerBootstrapRuntime
            | ControllerCommand::BootstrapRuntime
            | ControllerCommand::SetSelector
            | ControllerCommand::Serve => 3,
            ControllerCommand::Deploy => DEPLOY_ENDPOINT_ARG_INDEX,
            ControllerCommand::Destroy => DESTROY_ENDPOINT_ARG_INDEX,
            _ => 2,
        },
{
    match command {
        ControllerCommand::ControllerBootstrapRuntime
        | ControllerCommand::BootstrapRuntime
        | ControllerCommand::SetSelector
        | ControllerCommand::Serve => 3,
        ControllerCommand::Deploy => DEPLOY_ENDPOINT_ARG_INDEX,
        ControllerCommand::Destroy => DESTROY_ENDPOINT_ARG_INDEX,
        _ => 2,
    }
}

/// What is shown for a command that the controller answered without success.
/// `note` is what the answer says itself.
pub fn unsuccessful(command: ControllerCommand, note: String) -> (r: String)
    ensures
        r@ == match command {
            ControllerCommand::SetSelector => "selector update failed"@,
            ControllerCommand::Deploy => "deploy failed"@,
            ControllerCommand::Destroy => "destroy failed"@,
            _ => note@,
        },
{
    match command {
        ControllerCommand::SetSelector => "selector update failed".to_owned(),
        ControllerCommand::Deploy => "deploy failed".to_owned(),
        ControllerCommand::Destroy => "destroy failed".to_owned(),
        _ => note,
    }
}

/// The name that `set-selector` is given.
pub fn selector_target(args: &Vec<String>) -> (r: Result<String, String>)
    ensures
        match argument(args@, 2) {
            Some(name) => r matches Ok(n) && n@ == name,
            None => r matches Err(e) && e@ == "set-selector requires a selector target name"@,
        },
{
    match argument_at(args, 2) {
        Some(name) => Ok(name),
        None => Err("set-selector requires a selector target name".to_owned()),
    }
}

/// The first of two texts that is there at all, or a third.
pub open spec fn first_of(
    given: Option<Seq<char>>,
    set: Option<Seq<char>>,
    default: Seq<char>,
) -> Seq<char> {
    match (given, set) {
        (Some(t), _) => t,
        (None, Some(t)) => t,
        (None, None) => default,
    }
}

/// Where the controller listens, as given or where it listens anyway.
pub fn controller_addr_from_args(args: &Vec<String>, index: usize) -> (r: String)
    ensures
        r@ == first_of(argument(args@, index as int), None, DEFAULT_CONTROLLER_ADDR@),
{
    match argument_at(args, index) {
        Some(addr) => addr,
        None => DEFAULT_CONTROLLER_ADDR.to_owned(),
    }
}

/// Where the controller is reached: as given, or as the environment says, or
/// where it listens anyway.
pub fn controller_endpoint_from_args(args: &Vec<String>, index: usize, env: &Environment) -> (r:
    String)
    ensures
        r@ == first_of(
            argument(args@, index as int),
            env.controller_endpoint.deep_view(),
            "http://"@ + DEFAULT_CONTROLLER_ADDR@,
        ),
{
    match argument_at(args, index) {
        Some(endpoint) => endpoint,
        None => match copy_option(&env.controller_endpoint) {
            Some(endpoint) => endpoint,
            None => cat2("http://", DEFAULT_CONTROLLER_ADDR),
        },
    }
}

/// Where the agent is reached: as given, or as the environment says, or where
/// it listens anyway.
pub fn agent_endpoint_from_args(args: &Vec<String>, index: usize, env: &Environment) -> (r: String)
    ensures
        r@ == first_of(
            argument(args@, index as int),
            env.agent_endpoint.deep_view(),
            DEFAULT_AGENT_ENDPOINT@,
        ),
{
    match argument_at(args, index) {
        Some(endpoint) => endpoint,
        None => match copy_option(&env.agent_endpoint) {
            Some(endpoint) => endpoint,
            None => DEFAULT_AGENT_ENDPOINT.to_owned(),
        },
    }
}

/// An argument without white space around it, if it was given and says
/// anything.
pub fn optional_arg(args: &Vec<String>, index: usize) -> (r: Option<String>)
    ensures
        r.deep_view() == nonblank(argument(args@, index as int)),
{
    normalized(argument_at(args, index))
}

/// The mode that a bootstrap is given.
pub open spec fn mode_argument(given: Option<Seq<char>>) -> Result<BootstrapMode, Seq<char>> {
    match given {
        None => Err("bootstrap-runtime requires mode: base, tunnel, or full"@),
        Some(word) => if word == "base"@ {
            Ok(BootstrapMode::BootstrapBase)
        } else if word == "tunnel"@ {
            Ok(BootstrapMode::BootstrapTunnel)
        } else if word == "full"@ {
            Ok(BootstrapMode::BootstrapFull)
        } else {
            Err("unsupported bootstrap mode: "@ + word)
        },
    }
}

/// Reads the mode that a bootstrap is given.
pub fn bootstrap_mode_from_args(args: &Vec<String>, index: usize) -> (r: Result<
    BootstrapMode,
    String,
>)
    ensures
        match r {
            Ok(mode) => mode_argument(argument(args@, index as int)) == Ok::<
                BootstrapMode,
                Seq<char>,
            >(mode),
            Err(e) => mode_argument(argument(args@, index as int)) == Err::<
                BootstrapMode,
                Seq<char>,
            >(e@),
        },
{
    match argument_at(args, index) {
        None => Err("bootstrap-runtime requires mode: base, tunnel, or full".to_owned()),
        Some(word) => {
            let w: &str = word.as_str();
            if same(w, "base") {
                Ok(BootstrapMode::BootstrapBase)
            } else if same(w, "tunnel") {
                Ok(BootstrapMode::BootstrapTunnel)
            } else if same(w, "full") {
                Ok(BootstrapMode::BootstrapFull)
            } else {
                Err(cat2("unsupported bootstrap mode: ", w))
            }
        },
    }
}

/// Reads a request for a deployment off the command line.
pub fn deploy_request_from_args(args: &Vec<String>, env: &Environment) -> (r: DeployRequest)
    ensures
        r.label_prefix.deep_view() == nonblank(argument(args@, 2)),
        r.target_ip.deep_view() == nonblank(argument(args@, 3)),
        r.instance_id.deep_view() == nonblank(argument(args@, 4)),
        r.tunnel_domain.deep_view() == nonblank(argument(args@, 5)),
        r.acme_email.deep_view() == nonblank(argument(args@, 6)),
        r.dns_record_name.deep_view() == nonblank(argument(args@, 7)),
        r.cloudflare_zone_name.deep_view() == nonblank(argument(args@, 8)),
        r.mock_provider == flag(env.mock_provider.deep_view(), false),
        r.skip_dns == flag(env.skip_dns.deep_view(), false),
        r.snapshot_id.deep_view() == nonblank(argument(args@, 9)),
{
    DeployRequest {
        label_prefix: optional_arg(args, 2),
        target_ip: optional_arg(args, 3),
        instance_id: optional_arg(args, 4),
        tunnel_domain: optional_arg(args, 5),
        acme_email: optional_arg(args, 6),
        dns_record_name: optional_arg(args, 7),
        cloudflare_zone_name: optional_arg(args, 8),
        mock_provider: env_flag(&env.mock_provider, false),
        skip_dns: env_flag(&env.skip_dns, false),
        snapshot_id: optional_arg(args, 9),
    }
}

/// Reads a request to take a deployment down off the command line.
pub fn destroy_request_from_args(args: &Vec<String>, env: &Environment) -> (r: DestroyRequest)
    ensures
        r.instance_id.deep_view() == nonblank(argument(args@, 2)),
        r.target_ip.deep_view() == nonblank(argument(args@, 3)),
        r.dns_record_name.deep_view() == nonblank(argument(args@, 4)),
        r.cloudflare_zone_name.deep_view() == nonblank(argument(args@, 5)),
        r.mock_provider == flag(env.mock_provider.deep_view(), false),
        r.delete_dns == flag(env.delete_dns.deep_view(), true),
        r.delete_instance == flag(env.delete_instance.deep_view(), true),
        r.lifecycle_reason == env.lifecycle_reason,
{
    DestroyRequest {
        instance_id: optional_arg(args, 2),
        target_ip: optional_arg(args, 3),
        dns_record_name: optional_arg(args, 4),
        cloudflare_zone_name: optional_arg(args, 5),
        mock_provider: env_flag(&env.mock_provider, false),
        delete_dns: env_flag(&env.delete_dns, true),
        delete_instance: env_flag(&env.delete_instance, true),
        lifecycle_reason: copy_option(&env.lifecycle_reason),
    }
}

/// Which directory the controller works in.
#[derive(Debug, Clone, Copy, PartialEq, Eq, Structural)]
pub enum RepoRoot {
    Given,
    CurrentDirectory,
    ParentDirectory,
}

/// Chooses the directory that the controller works in: the one given, or the
/// first of the current one and its parent that looks like the repository, or
/// else the current one.
pub fn repo_root_from_args(given: bool, current_looks_like: bool, parent_looks_like: bool) -> (r:
    RepoRoot)
    ensures
        r == if given {
            RepoRoot::Given
        } else if current_looks_like {
            RepoRoot::CurrentDirectory
        } else if parent_looks_like {
            RepoRoot::ParentDirectory
        } else {
            RepoRoot::CurrentDirectory
        },
{
    if given {
        RepoRoot::Given
    } else if current_looks_like {
        RepoRoot::CurrentDirectory
    } else if parent_looks_like {
        RepoRoot::ParentDirectory
    } else {
        RepoRoot::CurrentDirectory
    }
}

/// A deployment's request is read from the arguments in their places, a blank
/// one counting as missing; whether it is for real, and whether the name is set,
/// the environment says.
pub proof fn law_deploy_arguments_are_read_in_their_places(
    args: Vec<String>,
    env: Environment,
    r: DeployRequest,
)
    requires
        args@.len() >= 10,
        call_ensures(deploy_request_from_args, (&args, &env), r),
    ensures
        r.label_prefix is Some <==> !blank(args@[2]@),
        r.target_ip is Some <==> !blank(args@[3]@),
        r.instance_id is Some <==> !blank(args@[4]@),
        r.tunnel_domain is Some <==> !blank(args@[5]@),
        r.acme_email is Some <==> !blank(args@[6]@),
        r.dns_record_name is Some <==> !blank(args@[7]@),
        r.cloudflare_zone_name is Some <==> !blank(args@[8]@),
        r.snapshot_id is Some <==> !blank(args@[9]@),
        r.target_ip matches Some(t) ==> words(t@) == words(args@[3]@),
        r.instance_id matches Some(t) ==> words(t@) == words(args@[4]@),
        r.tunnel_domain matches Some(t) ==> words(t@) == words(args@[5]@),
        r.dns_record_name matches Some(t) ==> words(t@) == words(args@[7]@),
        env.mock_provider is None ==> !r.mock_provider,
        env.skip_dns is None ==> !r.skip_dns,
        env.mock_provider matches Some(t) ==> (r.mock_provider <==> t@ == "1"@),
        env.skip_dns matches Some(t) ==> (r.skip_dns <==> t@ == "1"@),
{
    law_trimming_keeps_words(args@[3]@);
    law_trimming_keeps_words(args@[4]@);
    law_trimming_keeps_words(args@[5]@);
    law_trimming_keeps_words(args@[7]@);
}

/// A destroy's request is read from the arguments in their places; unless the
/// environment says otherwise, both the name and the machine are meant, and it
/// is for real.
pub proof fn law_destroy_arguments_are_read_in_their_places(
    args: Vec<String>,
    env: Environment,
    r: DestroyRequest,
)
    requires
        args@.len() >= 6,
        call_ensures(destroy_request_from_args, (&args, &env), r),
    ensures
        r.instance_id is Some <==> !blank(args@[2]@),
        r.target_ip is Some <==> !blank(args@[3]@),
        r.dns_record_name is Some <==> !blank(args@[4]@),
        r.cloudflare_zone_name is Some <==> !blank(args@[5]@),
        r.instance_id matches Some(t) ==> words(t@) == words(args@[2]@),
        r.target_ip matches Some(t) ==> words(t@) == words(args@[3]@),
        env.delete_dns is None ==> r.delete_dns,
        env.delete_instance is None ==> r.delete_instance,
        env.mock_provider is None ==> !r.mock_provider,
        env.delete_dns matches Some(t) ==> (r.delete_dns <==> t@ == "1"@),
        env.delete_instance matches Some(t) ==> (r.delete_instance <==> t@ == "1"@),
        env.mock_provider matches Some(t) ==> (r.mock_provider <==> t@ == "1"@),
        r.lifecycle_reason == env.lifecycle_reason,
{
    law_trimming_keeps_words(args@[2]@);
    law_trimming_keeps_words(args@[3]@);
}

/// What the controller is asked is read from the first word, and is to serve
/// where there is none. A word that is no command is refused.
pub proof fn law_commands_are_read_from_the_first_word(
    args: Vec<String>,
    r: Result<ControllerCommand, String>,
)
    requires
        call_ensures(read_controller_command, (&args,), r),
    ensures
        args@.len() <= 1 ==> r == Ok::<ControllerCommand, String>(ControllerCommand::Serve),
        args@.len() > 1 ==> {
            &&& args@[1]@ == "deploy"@ ==> r == Ok::<ControllerCommand, String>(
                ControllerCommand::Deploy,
            )
            &&& args@[1]@ == "destroy"@ ==> r == Ok::<ControllerCommand, String>(
                ControllerCommand::Destroy,
            )
            &&& args@[1]@ == "get-status"@ ==> r == Ok::<ControllerCommand, String>(
                ControllerCommand::GetStatus,
            )
            &&& args@[1]@ == "stop-local"@ ==> r == Ok::<ControllerCommand, String>(
                ControllerCommand::StopLocal,
            )
            &&& args@[1]@ == "start-local"@ ==> r == Ok::<ControllerCommand, String>(
                ControllerCommand::StartLocal,
            )
            &&& args@[1]@ == "set-selector"@ ==> r == Ok::<ControllerCommand, String>(
                ControllerCommand::SetSelector,
            )
        },
{
    reveal_strlit("serve");
    reveal_strlit("get-status");
    reveal_strlit("controller-bootstrap-runtime");
    reveal_strlit("bootstrap-runtime");
    reveal_strlit("start-local");
    reveal_strlit("stop-local");
    reveal_strlit("restart-local");
    reveal_strlit("get-selector");
    reveal_strlit("set-selector");
    reveal_strlit("trace");
    reveal_strlit("deploy");
    reveal_strlit("destroy");
    assert("serve"@[0] == 's' && "trace"@[0] == 't');
    assert("serve"@.len() == 5 && "trace"@.len() == 5 && "deploy"@.len() == 6);
    assert("destroy"@.len() == 7 && "get-status"@.len() == 10 && "stop-local"@.len() == 10);
    assert("start-local"@.len() == 11 && "restart-local"@.len() == 13);
    assert("get-selector"@.len() == 12 && "set-selector"@.len() == 12);
    assert("bootstrap-runtime"@.len() == 17 && "controller-bootstrap-runtime"@.len() == 28);
    assert("get-status"@[0] == 'g' && "stop-local"@[0] == 's');
    assert("get-selector"@[0] == 'g' && "set-selector"@[0] == 's');
    assert(controller_word(ControllerCommand::Deploy) == "deploy"@);
    assert(controller_word(ControllerCommand::Destroy) == "destroy"@);
    assert(controller_word(ControllerCommand::GetStatus) == "get-status"@);
    assert(controller_word(ControllerCommand::StopLocal) == "stop-local"@);
    assert(controller_word(ControllerCommand::StartLocal) == "start-local"@);
    assert(controller_word(ControllerCommand::SetSelector) == "set-selector"@);
}

/// A mode is read from its word, and must be given.
pub proof fn law_modes_are_read_from_their_words(
    args: Vec<String>,
    index: usize,
    r: Result<BootstrapMode, String>,
)
    requires
        call_ensures(bootstrap_mode_from_args, (&args, index), r),
    ensures
        index >= args@.len() ==> r is Err,
        index < args@.len() ==> {
            &&& r == Ok::<BootstrapMode, String>(BootstrapMode::BootstrapBase) <==> args@[index as int]@
                == "base"@
            &&& r == Ok::<BootstrapMode, String>(BootstrapMode::BootstrapTunnel)
                <==> args@[index as int]@ == "tunnel"@
            &&& r == Ok::<BootstrapMode, String>(BootstrapMode::BootstrapFull)
                <==> args@[index as int]@ == "full"@
            &&& r is Ok <==> args@[index as int]@ == "base"@ || args@[index as int]@ == "tunnel"@
                || args@[index as int]@ == "full"@
        },
{
    reveal_strlit("base");
    reveal_strlit("tunnel");
    reveal_strlit("full");
    assert("base"@.len() == 4 && "tunnel"@.len() == 6 && "full"@.len() == 4);
    assert("base"@[0] == 'b' && "full"@[0] == 'f');
}

/// An endpoint that is given as an argument comes before the one that is set,
/// and both before the usual one.
pub proof fn law_endpoints_are_read_from_their_place(
    args: Vec<String>,
    index: usize,
    env: Environment,
    c: String,
    a: String,
)
    requires
        call_ensures(controller_endpoint_from_args, (&args, index, &env), c),
        call_ensures(agent_endpoint_from_args, (&args, index, &env), a),
    ensures
        index < args@.len() ==> c@ == args@[index as int]@ && a@ == args@[index as int]@,
        index >= args@.len() && env.controller_endpoint is Some ==> c@
            == env.controller_endpoint->Some_0@,
        index >= args@.len() && env.agent_endpoint is Some ==> a@ == env.agent_endpoint->Some_0@,
        index >= args@.len() && env.agent_endpoint is None ==> a@ == "http://127.0.0.1:50061"@,
{
}

/// The root that is given is used; otherwise the one that looks like it, the
/// current directory first.
pub proof fn law_the_given_root_is_used(given: bool, current: bool, parent: bool, r: RepoRoot)
    requires
        call_ensures(repo_root_from_args, (given, current, parent), r),
    ensures
        r is Given <==> given,
        r is ParentDirectory <==> !given && !current && parent,
{
}

/// An argument is the one in its place, and one that is not there is none; a blank
/// one counts as not given where it may be left out.
pub proof fn law_arguments_are_those_in_their_places(
    args: Vec<String>,
    index: usize,
    r: Option<String>,
    may: Option<String>,
    addr: String,
)
    requires
        call_ensures(argument_at, (&args, index), r),
        call_ensures(optional_arg, (&args, index), may),
        call_ensures(controller_addr_from_args, (&args, index), addr),
    ensures
        r is Some <==> index < args@.len(),
        index < args@.len() ==> r.deep_view() == Some(args@[index as int]@) && addr@
            == args@[index as int]@,
        may is Some <==> index < args@.len() && !blank(args@[index as int]@),
        index >= args@.len() ==> addr@ == DEFAULT_CONTROLLER_ADDR@,
{
}

} // verus!
