//! The controller's commands, as they are given on the command line.
use crate::application::BootstrapMode;
use crate::requests::{DeployRequest, DestroyRequest};
use crate::text::{
    blank, cat2, copy_option, is_blank, law_trimming_keeps_words, lemma_trimmed_blank,
    lemma_trimmed_twice, same, trim, trimmed, words,
};
use vstd::prelude::*;
use vstd::string::*;

verus! {

/// Where the controller listens unless it is told otherwise.
pub const DEFAULT_CONTROLLER_ADDR: &'static str = "127.0.0.1:50051";

/// Where the agent is reached unless the controller is told otherwise.
pub const DEFAULT_AGENT_ENDPOINT: &'static str = "http://127.0.0.1:50061";

/// The text without white space around it, unless nothing is left.
pub open spec fn nonblank(value: Option<Seq<char>>) -> Option<Seq<char>> {
    match value {
        Some(t) if !blank(t) => Some(trimmed(t)),
        _ => None,
    }
}

/// The text without white space around it, unless nothing is left.
pub fn non_blank(value: String) -> (r: Option<String>)
    ensures
        r.deep_view() == nonblank(Some(value@)),
{
    if is_blank(value.as_str()) {
        None
    } else {
        Some(trim(value.as_str()).to_owned())
    }
}

/// The text, if there is one, without white space around it, unless nothing is
/// left.
pub fn normalized(value: Option<String>) -> (r: Option<String>)
    ensures
        r.deep_view() == nonblank(value.deep_view()),
{
    match value {
        Some(t) => non_blank(t),
        None => None,
    }
}

/// Normalizing a text twice is normalizing it once.
pub proof fn law_normalizing_twice_is_normalizing_once(value: Option<Seq<char>>)
    ensures
        nonblank(nonblank(value)) == nonblank(value),
{
    if let Some(t) = value {
        if !blank(t) {
            lemma_trimmed_twice(t);
            lemma_trimmed_blank(t);
            lemma_trimmed_blank(trimmed(t));
        }
    }
}

/// Whether a flag is up. `value` is what its variable holds, if it is set.
pub open spec fn flag(value: Option<Seq<char>>, default: bool) -> bool {
    match value {
        Some(t) => t == "1"@,
        None => default,
    }
}

/// Whether a flag is up. `value` is what its variable holds, if it is set.
pub fn env_flag(value: &Option<String>, default: bool) -> (r: bool)
    ensures
        r == flag(value.deep_view(), default),
{
    match value {
        Some(t) => same(t.as_str(), "1"),
        None => default,
    }
}

/// What the environment says, as far as the commands ask for it.
#[derive(Debug, PartialEq, Eq)]
pub struct Environment {
    pub controller_endpoint: Option<String>,
    pub agent_endpoint: Option<String>,
    pub mock_provider: Option<String>,
    pub skip_dns: Option<String>,
    pub delete_dns: Option<String>,
    pub delete_instance: Option<String>,
    pub lifecycle_reason: Option<String>,
}

/// The first of two texts that says anything, or a third.
pub open spec fn chosen(
    given: Option<Seq<char>>,
    set: Option<Seq<char>>,
    default: Seq<char>,
) -> Seq<char> {
    match (nonblank(given), nonblank(set)) {
        (Some(t), _) => t,
        (None, Some(t)) => t,
        (None, None) => default,
    }
}

/// Where the controller is reached.
pub open spec fn controller_endpoint_of(given: Option<Seq<char>>, env: Environment) -> Seq<char> {
    chosen(given, env.controller_endpoint.deep_view(), "http://"@ + DEFAULT_CONTROLLER_ADDR@)
}

/// Where the controller is reached: as given, or as the environment says, or
/// where it listens anyway.
pub fn controller_endpoint(value: Option<String>, env: &Environment) -> (r: String)
    ensures
        r@ == controller_endpoint_of(value.deep_view(), *env),
{
    match normalized(value) {
        Some(t) => t,
        None => match normalized(copy_option(&env.controller_endpoint)) {
            Some(t) => t,
            None => cat2("http://", DEFAULT_CONTROLLER_ADDR),
        },
    }
}

/// Where the agent is reached: as given, or as the environment says, or where
/// it listens anyway.
pub fn agent_endpoint(value: Option<String>, env: &Environment) -> (r: String)
    ensures
        r@ == chosen(value.deep_view(), env.agent_endpoint.deep_view(), DEFAULT_AGENT_ENDPOINT@),
{
    match normalized(value) {
        Some(t) => t,
        None => match normalized(copy_option(&env.agent_endpoint)) {
            Some(t) => t,
            None => DEFAULT_AGENT_ENDPOINT.to_owned(),
        },
    }
}

/// The command line as it was understood.
#[derive(Debug, PartialEq, Eq)]
pub struct Cli {
    pub command: Option<Command>,
}

/// A command with what was given to it.
#[derive(Debug, PartialEq, Eq)]
pub enum Command {
    Serve(ServeArgs),
    GetStatus(ControllerEndpointArgs),
    ControllerBootstrapRuntime(ControllerBootstrapArgs),
    BootstrapRuntime(AgentBootstrapArgs),
    StartLocal(ControllerEndpointArgs),
    StopLocal(ControllerEndpointArgs),
    RestartLocal(ControllerEndpointArgs),
    GetSelector(ControllerEndpointArgs),
    SetSelector(SetSelectorArgs),
    Trace(ControllerEndpointArgs),
    Deploy(DeployArgs),
    Destroy(DestroyArgs),
}

#[derive(Debug, PartialEq, Eq)]
pub struct ServeArgs {
    pub repo_root: Option<String>,
    pub addr: Option<String>,
}

#[derive(Debug, PartialEq, Eq)]
pub struct ControllerEndpointArgs {
    pub endpoint: Option<String>,
}

#[derive(Debug, PartialEq, Eq)]
pub struct SetSelectorArgs {
    pub name: String,
    pub endpoint: Option<String>,
}

/// How much is started, as it is given on the command line.
#[derive(Debug, Clone, Copy, PartialEq, Eq, Structural)]
pub enum BootstrapModeArg {
    Base,
    Tunnel,
    Full,
}

#[derive(Debug, PartialEq, Eq)]
pub struct ControllerBootstrapArgs {
    pub mode: BootstrapModeArg,
    pub endpoint: Option<String>,
}

#[derive(Debug, PartialEq, Eq)]
pub struct AgentBootstrapArgs {
    pub mode: BootstrapModeArg,
    pub endpoint: Option<String>,
}

#[derive(Debug, PartialEq, Eq)]
pub struct DeployArgs {
    pub label_prefix: Option<String>,
    pub target_ip: Option<String>,
    pub instance_id: Option<String>,
    pub tunnel_domain: Option<String>,
    pub acme_email: Option<String>,
    pub dns_record_name: Option<String>,
    pub cloudflare_zone_name: Option<String>,
    pub snapshot_id: Option<String>,
    pub endpoint: Option<String>,
}

#[derive(Debug, PartialEq, Eq)]
pub struct DestroyArgs {
    pub instance_id: Option<String>,
    pub target_ip: Option<String>,
    pub dns_record_name: Option<String>,
    pub cloudflare_zone_name: Option<String>,
    pub endpoint: Option<String>,
}

/// The word for a command.
pub open spec fn command_word(command: Command) -> Seq<char> {
    match command {
        Command::Serve(_) => "serve"@,
        Command::GetStatus(_) => "get-status"@,
        Command::ControllerBootstrapRuntime(_) => "controller-bootstrap-runtime"@,
        Command::BootstrapRuntime(_) => "bootstrap-runtime"@,
        Command::StartLocal(_) => "start-local"@,
        Command::StopLocal(_) => "stop-local"@,
        Command::RestartLocal(_) => "restart-local"@,
        Command::GetSelector(_) => "get-selector"@,
        Command::SetSelector(_) => "set-selector"@,
        Command::Trace(_) => "trace"@,
        Command::Deploy(_) => "deploy"@,
        Command::Destroy(_) => "destroy"@,
    }
}

impl Command {
    /// The word for the command.
    pub fn name(&self) -> (r: &'static str)
        ensures
            r@ == command_word(*self),
    {
        match self {
            Command::Serve(_) => "serve",
            Command::GetStatus(_) => "get-status",
            Command::ControllerBootstrapRuntime(_) => "controller-bootstrap-runtime",
            Command::BootstrapRuntime(_) => "bootstrap-runtime",
            Command::StartLocal(_) => "start-local",
            Command::StopLocal(_) => "stop-local",
            Command::RestartLocal(_) => "restart-local",
            Command::GetSelector(_) => "get-selector",
            Command::SetSelector(_) => "set-selector",
            Command::Trace(_) => "trace",
            Command::Deploy(_) => "deploy",
            Command::Destroy(_) => "destroy",
        }
    }
}

impl Cli {
    /// The word for the command, which is to serve where none was given.
    pub fn command_name(&self) -> (r: &'static str)
        ensures
            r@ == match self.command {
                Some(c) => command_word(c),
                None => "serve"@,
            },
    {
        match &self.command {
            Some(c) => c.name(),
            None => "serve",
        }
    }
}

impl ControllerEndpointArgs {
    /// Where the controller is reached.
    pub fn resolve(self, env: &Environment) -> (r: String)
        ensures
            r@ == controller_endpoint_of(self.endpoint.deep_view(), *env),
    {
        controller_endpoint(self.endpoint, env)
    }
}

impl From<BootstrapModeArg> for BootstrapMode {
    fn from(value: BootstrapModeArg) -> (r: BootstrapMode) {
        match value {
            BootstrapModeArg::Base => BootstrapMode::BootstrapBase,
            BootstrapModeArg::Tunnel => BootstrapMode::BootstrapTunnel,
            BootstrapModeArg::Full => BootstrapMode::BootstrapFull,
        }
    }
}

impl vstd::std_specs::convert::FromSpecImpl<BootstrapModeArg> for BootstrapMode {
    open spec fn obeys_from_spec() -> bool {
        true
    }

    open spec fn from_spec(value: BootstrapModeArg) -> BootstrapMode {
        match value {
            BootstrapModeArg::Base => BootstrapMode::BootstrapBase,
            BootstrapModeArg::Tunnel => BootstrapMode::BootstrapTunnel,
            BootstrapModeArg::Full => BootstrapMode::BootstrapFull,
        }
    }
}

impl DeployArgs {
    /// The request that was given, and where the controller is reached.
    pub fn into_parts(self, env: &Environment) -> (r: (DeployRequest, String))
        ensures
            r.0.label_prefix.deep_view() == nonblank(self.label_prefix.deep_view()),
            r.0.target_ip.deep_view() == nonblank(self.target_ip.deep_view()),
            r.0.instance_id.deep_view() == nonblank(self.instance_id.deep_view()),
            r.0.tunnel_domain.deep_view() == nonblank(self.tunnel_domain.deep_view()),
            r.0.acme_email.deep_view() == nonblank(self.acme_email.deep_view()),
            r.0.dns_record_name.deep_view() == nonblank(self.dns_record_name.deep_view()),
            r.0.cloudflare_zone_name.deep_view() == nonblank(self.cloudflare_zone_name.deep_view()),
            r.0.mock_provider == flag(env.mock_provider.deep_view(), false),
            r.0.skip_dns == flag(env.skip_dns.deep_view(), false),
            r.0.snapshot_id.deep_view() == nonblank(self.snapshot_id.deep_view()),
            r.1@ == controller_endpoint_of(self.endpoint.deep_view(), *env),
    {
        let request: DeployRequest = DeployRequest {
            label_prefix: normalized(self.label_prefix),
            target_ip: normalized(self.target_ip),
            instance_id: normalized(self.instance_id),
            tunnel_domain: normalized(self.tunnel_domain),
            acme_email: normalized(self.acme_email),
            dns_record_name: normalized(self.dns_record_name),
            cloudflare_zone_name: normalized(self.cloudflare_zone_name),
            mock_provider: env_flag(&env.mock_provider, false),
            skip_dns: env_flag(&env.skip_dns, false),
            snapshot_id: normalized(self.snapshot_id),
        };
        (request, controller_endpoint(self.endpoint, env))
    }
}

impl DestroyArgs {
    /// The request that was given, and where the controller is reached. Without
    /// being told so, the machine is not deleted.
    pub fn into_parts(self, env: &Environment) -> (r: (DestroyRequest, String))
        ensures
            r.0.instance_id.deep_view() == nonblank(self.instance_id.deep_view()),
            r.0.target_ip.deep_view() == nonblank(self.target_ip.deep_view()),
            r.0.dns_record_name.deep_view() == nonblank(self.dns_record_name.deep_view()),
            r.0.cloudflare_zone_name.deep_view() == nonblank(self.cloudflare_zone_name.deep_view()),
            r.0.mock_provider == flag(env.mock_provider.deep_view(), false),
            r.0.delete_dns == flag(env.delete_dns.deep_view(), true),
            r.0.delete_instance == flag(env.delete_instance.deep_view(), false),
            r.0.lifecycle_reason.deep_view() == nonblank(env.lifecycle_reason.deep_view()),
            r.1@ == controller_endpoint_of(self.endpoint.deep_view(), *env),
    {
        let request: DestroyRequest = DestroyRequest {
            instance_id: normalized(self.instance_id),
            target_ip: normalized(self.target_ip),
            dns_record_name: normalized(self.dns_record_name),
            cloudflare_zone_name: normalized(self.cloudflare_zone_name),
            mock_provider: env_flag(&env.mock_provider, false),
            delete_dns: env_flag(&env.delete_dns, true),
            delete_instance: env_flag(&env.delete_instance, false),
            lifecycle_reason: normalized(copy_option(&env.lifecycle_reason)),
        };
        (request, controller_endpoint(self.endpoint, env))
    }
}

/// A destroy from the command line removes the name and keeps the machine,
/// unless the environment says otherwise, and is for real unless it says so.
pub proof fn law_a_destroy_keeps_the_machine_unless_told(
    args: DestroyArgs,
    env: Environment,
    r: (DestroyRequest, String),
)
    requires
        call_ensures(DestroyArgs::into_parts, (args, &env), r),
    ensures
        env.delete_dns is None ==> r.0.delete_dns,
        env.delete_instance is None ==> !r.0.delete_instance,
        env.mock_provider is None ==> !r.0.mock_provider,
        env.delete_dns matches Some(t) ==> (r.0.delete_dns <==> t@ == "1"@),
        env.delete_instance matches Some(t) ==> (r.0.delete_instance <==> t@ == "1"@),
        env.mock_provider matches Some(t) ==> (r.0.mock_provider <==> t@ == "1"@),
        args.instance_id is None ==> r.0.instance_id is None,
        r.0.instance_id matches Some(id) ==> args.instance_id is Some && words(id@) == words(
            args.instance_id->Some_0@,
        ),
        r.0.target_ip matches Some(ip) ==> args.target_ip is Some && words(ip@) == words(
            args.target_ip->Some_0@,
        ),
{
    if args.instance_id is Some {
        law_trimming_keeps_words(args.instance_id->Some_0@);
    }
    if args.target_ip is Some {
        law_trimming_keeps_words(args.target_ip->Some_0@);
    }
}

/// A deployment from the command line sets the name and is for real, unless the
/// environment says otherwise, and asks for what was given.
pub proof fn law_a_deploy_is_for_real_unless_told(
    args: DeployArgs,
    env: Environment,
    r: (DeployRequest, String),
)
    requires
        call_ensures(DeployArgs::into_parts, (args, &env), r),
    ensures
        env.mock_provider is None ==> !r.0.mock_provider,
        env.skip_dns is None ==> !r.0.skip_dns,
        env.mock_provider matches Some(t) ==> (r.0.mock_provider <==> t@ == "1"@),
        env.skip_dns matches Some(t) ==> (r.0.skip_dns <==> t@ == "1"@),
        r.0.target_ip is Some <==> args.target_ip is Some && !blank(args.target_ip->Some_0@),
        r.0.instance_id is Some <==> args.instance_id is Some && !blank(
            args.instance_id->Some_0@,
        ),
        r.0.dns_record_name is Some <==> args.dns_record_name is Some && !blank(
            args.dns_record_name->Some_0@,
        ),
        r.0.tunnel_domain is Some <==> args.tunnel_domain is Some && !blank(
            args.tunnel_domain->Some_0@,
        ),
        r.0.acme_email is Some <==> args.acme_email is Some && !blank(args.acme_email->Some_0@),
        r.0.snapshot_id is Some <==> args.snapshot_id is Some && !blank(
            args.snapshot_id->Some_0@,
        ),
        r.0.dns_record_name matches Some(t) ==> words(t@) == words(args.dns_record_name->Some_0@),
        r.0.target_ip matches Some(t) ==> words(t@) == words(args.target_ip->Some_0@),
        r.0.tunnel_domain matches Some(t) ==> words(t@) == words(args.tunnel_domain->Some_0@),
{
    if args.dns_record_name is Some {
        law_trimming_keeps_words(args.dns_record_name->Some_0@);
    }
    if args.target_ip is Some {
        law_trimming_keeps_words(args.target_ip->Some_0@);
    }
    if args.tunnel_domain is Some {
        law_trimming_keeps_words(args.tunnel_domain->Some_0@);
    }
}

/// An endpoint that is given comes before the one that is set, and both before
/// the usual one; blank ones count for nothing.
pub proof fn law_given_endpoints_come_first(
    value: Option<String>,
    env: Environment,
    c: String,
    a: String,
)
    requires
        call_ensures(controller_endpoint, (value, &env), c),
        call_ensures(agent_endpoint, (value, &env), a),
    ensures
        value matches Some(t) ==> (!blank(t@) ==> c@ == trimmed(t@) && a@ == trimmed(t@)),
        value is None && env.controller_endpoint is Some && !blank(
            env.controller_endpoint->Some_0@,
        ) ==> c@ == trimmed(env.controller_endpoint->Some_0@),
        value is None && env.agent_endpoint is Some && !blank(env.agent_endpoint->Some_0@) ==> a@
            == trimmed(env.agent_endpoint->Some_0@),
        value is None && env.controller_endpoint is None ==> c@ == "http://"@
            + "127.0.0.1:50051"@,
        value is None && env.agent_endpoint is None ==> a@ == "http://127.0.0.1:50061"@,
        value matches Some(t) ==> (blank(t@) && env.agent_endpoint is None ==> a@
            == "http://127.0.0.1:50061"@),
{
}

/// A flag is on exactly where it is set to one, and as usual where it is not
/// set.
pub proof fn law_flags_are_on_by_a_one(value: Option<String>, usual: bool, r: bool)
    requires
        call_ensures(env_flag, (&value, usual), r),
    ensures
        value is None ==> r == usual,
        value matches Some(t) ==> (r <==> t@ == "1"@),
{
}

} // verus!
