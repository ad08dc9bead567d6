//! Where the agent on a host is reached, and by which certificates it is
//! trusted.
use crate::cli::DEFAULT_AGENT_ENDPOINT;
use crate::requests::DeployRequest;
use crate::text::{
    blank, cat10, cat2, cat3, cat4, cat5, decimal, is_blank, is_digit, lemma_digits_of_decimal,
    lowered, number, number_value, parse_number, same, same_ignoring_case,
};
use vstd::prelude::*;
use vstd::string::*;

verus! {

/// The port that an agent listens on unless the controller is told otherwise.
pub const DEFAULT_AGENT_REMOTE_PORT: u16 = 50061;

/// The name that an agent's certificate bears where none is kept.
pub const DEFAULT_AGENT_NAME: &'static str = "edge-agent";

/// The certificates for talking to an agent, by their files.
#[derive(Debug, Clone, PartialEq, Eq)]
pub struct AgentClientTlsPaths {
    pub ca_cert_path: String,
    pub client_cert_path: String,
    pub client_key_path: String,
    pub domain_name: String,
}

/// Where an agent is reached, and by which certificates.
#[derive(Debug, PartialEq, Eq)]
pub struct AgentConnectionTarget {
    pub endpoint: String,
    pub tls_paths: Option<AgentClientTlsPaths>,
}

/// A host that the controller trusts.
#[derive(Debug, PartialEq, Eq)]
pub struct StoredTrustEntry {
    pub deployment_id: String,
    pub instance_id: String,
    pub ip: String,
    pub domain_name: Option<String>,
    pub ca_cert_path: Option<String>,
    pub client_cert_path: Option<String>,
    pub client_key_path: Option<String>,
}

/// A deployment as it is recorded.
#[derive(Debug, PartialEq, Eq)]
pub struct StoredDeployment {
    pub deployment_label: String,
    pub instance_id: String,
    pub server_ip: String,
}

/// What a trust entry says of the certificates: all of them, none, or something
/// between, which is an error.
pub open spec fn tls_paths(
    trust: StoredTrustEntry,
    r: Result<Option<AgentClientTlsPaths>, String>,
) -> bool {
    match (trust.ca_cert_path, trust.client_cert_path, trust.client_key_path) {
        (Some(ca), Some(cert), Some(key)) => {
            &&& r matches Ok(Some(p))
            &&& p.ca_cert_path == ca
            &&& p.client_cert_path == cert
            &&& p.client_key_path == key
            &&& p.domain_name@ == match trust.domain_name {
                Some(name) => name@,
                None => DEFAULT_AGENT_NAME@,
            }
        },
        (None, None, None) => r == Ok::<Option<AgentClientTlsPaths>, String>(None),
        _ => r matches Err(e) && e@ == "persisted trust entry for deployment "@
            + trust.deployment_id@ + " has incomplete client TLS paths"@,
    }
}

/// Reads the certificates off a trust entry.
pub fn persisted_agent_tls_paths(trust: &StoredTrustEntry) -> (r: Result<
    Option<AgentClientTlsPaths>,
    String,
>)
    ensures
        tls_paths(*trust, r),
{
    match (&trust.ca_cert_path, &trust.client_cert_path, &trust.client_key_path) {
        (Some(ca), Some(cert), Some(key)) => {
            let domain_name: String = match &trust.domain_name {
                Some(name) => name.clone(),
                None => DEFAULT_AGENT_NAME.to_owned(),
            };
            Ok(
                Some(
                    AgentClientTlsPaths {
                        ca_cert_path: ca.clone(),
                        client_cert_path: cert.clone(),
                        client_key_path: key.clone(),
                        domain_name,
                    },
                ),
            )
        },
        (None, None, None) => Ok(None),
        _ => Err(
            cat3(
                "persisted trust entry for deployment ",
                trust.deployment_id.as_str(),
                " has incomplete client TLS paths",
            ),
        ),
    }
}

/// The port that an agent listens on: as the environment says, if it says a
/// port, or the usual one.
pub open spec fn agent_port(set: Option<Seq<char>>) -> u16 {
    match set {
        Some(t) => match number_value(t, 0xffff) {
            Ok(n) => n as u16,
            Err(_) => DEFAULT_AGENT_REMOTE_PORT,
        },
        None => DEFAULT_AGENT_REMOTE_PORT,
    }
}

/// The port that an agent listens on: as the environment says, if it says a
/// port, or the usual one.
pub fn agent_remote_port(set: &Option<String>) -> (r: u16)
    ensures
        r == agent_port(set.deep_view()),
{
    match set {
        Some(t) => match parse_number(t.as_str(), 0xffff) {
            Ok(n) => n as u16,
            Err(_) => DEFAULT_AGENT_REMOTE_PORT,
        },
        None => DEFAULT_AGENT_REMOTE_PORT,
    }
}

/// Where an agent is reached by its certificates.
pub open spec fn persisted_target(
    instance_id: Seq<char>,
    server_ip: Seq<char>,
    trust: StoredTrustEntry,
    port: u16,
    r: Result<AgentConnectionTarget, String>,
) -> bool {
    match r {
        Ok(target) => {
            &&& target.tls_paths is Some
            &&& tls_paths(trust, Ok(target.tls_paths))
            &&& target.endpoint@ == "https://"@ + server_ip + ":"@ + decimal(port as nat)
        },
        Err(e) => {
            ||| tls_paths(trust, Err(e))
            ||| (tls_paths(trust, Ok(None)) && e@ == "persisted trust entry for "@ + instance_id
                + " is missing client TLS material"@)
        },
    }
}

/// Where the agent of a deployment is reached by its certificates, which must
/// be there.
pub fn persisted_agent_connection_target(
    deployment: &StoredDeployment,
    trust: &StoredTrustEntry,
    port: u16,
) -> (r: Result<AgentConnectionTarget, String>)
    ensures
        persisted_target(deployment.instance_id@, deployment.server_ip@, *trust, port, r),
{
    match persisted_agent_tls_paths(trust) {
        Err(e) => Err(e),
        Ok(None) => Err(
            cat3(
                "persisted trust entry for ",
                deployment.instance_id.as_str(),
                " is missing client TLS material",
            ),
        ),
        Ok(Some(paths)) => Ok(
            AgentConnectionTarget {
                endpoint: cat4(
                    "https://",
                    deployment.server_ip.as_str(),
                    ":",
                    number(port as u64).as_str(),
                ),
                tls_paths: Some(paths),
            },
        ),
    }
}

/// A host with only some of its certificates is never talked to, and one with
/// certificates is never talked to without them.
pub proof fn law_trust_is_all_or_nothing(
    trust: StoredTrustEntry,
    r: Result<Option<AgentClientTlsPaths>, String>,
)
    requires
        tls_paths(trust, r),
    ensures
        r is Err <==> !((trust.ca_cert_path is Some && trust.client_cert_path is Some
            && trust.client_key_path is Some) || (trust.ca_cert_path is None
            && trust.client_cert_path is None && trust.client_key_path is None)),
        r matches Ok(paths) ==> (paths is Some <==> trust.ca_cert_path is Some),
{
}

/// Whether the endpoint is one that somebody has set.
pub open spec fn endpoint_is_set(endpoint: Seq<char>, env_set: bool) -> bool {
    env_set || endpoint != DEFAULT_AGENT_ENDPOINT@
}

/// Whether the endpoint is one that somebody has set, which then is used as it
/// is.
pub fn has_explicit_endpoint(endpoint: &str, env_set: bool) -> (r: bool)
    ensures
        r == endpoint_is_set(endpoint@, env_set),
{
    env_set || !same(endpoint, DEFAULT_AGENT_ENDPOINT)
}

fn plain_target(endpoint: &str) -> (r: AgentConnectionTarget)
    ensures
        r.endpoint@ == endpoint@,
        r.tls_paths is None,
{
    AgentConnectionTarget { endpoint: endpoint.to_owned(), tls_paths: None }
}

/// Whether a target is an endpoint without certificates.
pub open spec fn plain(target: AgentConnectionTarget, endpoint: Seq<char>) -> bool {
    target.endpoint@ == endpoint && target.tls_paths is None
}

/// What the record says of the deployment that is active.
#[derive(Debug, PartialEq, Eq)]
pub struct ActiveDeployment {
    pub label: Option<String>,
    pub instance_id: Option<String>,
    pub server_ip: Option<String>,
}

/// The machine and the address of the active deployment, if both are recorded.
pub fn active_machine(active: &ActiveDeployment) -> (r: Option<(String, String)>)
    ensures
        r == match (active.instance_id, active.server_ip) {
            (Some(id), Some(ip)) => Some((id, ip)),
            _ => None,
        },
{
    match (&active.instance_id, &active.server_ip) {
        (Some(id), Some(ip)) => Some((id.clone(), ip.clone())),
        _ => None,
    }
}

/// What was looked up for the active deployment, or for the latest where none
/// is active.
#[derive(Debug, PartialEq, Eq)]
pub enum TrustLookup {
    /// A deployment is active: its machine and address, and the trust in it.
    Active {
        label: Option<String>,
        instance_id: String,
        server_ip: String,
        trust: Option<StoredTrustEntry>,
    },
    /// None is active: the latest one, and the trust in it.
    Latest { deployment: StoredDeployment, trust: Option<StoredTrustEntry> },
    /// There never was one.
    Nothing,
}

/// The error for an active deployment that is not trusted.
pub open spec fn untrusted(
    label: Option<String>,
    instance_id: Seq<char>,
    server_ip: Seq<char>,
    port: u16,
) -> Seq<char> {
    "no persisted agent trust for active deployment "@ + (match label {
        Some(l) => l@,
        None => "<unknown>"@,
    }) + " ("@ + instance_id + ", "@ + server_ip + "); expected edge-agent target https://"@
        + server_ip + ":"@ + decimal(port as nat)
}

/// Where the recorded agent is reached, if there is one.
pub open spec fn recorded_target(
    lookup: TrustLookup,
    port: u16,
    r: Result<Option<AgentConnectionTarget>, String>,
) -> bool {
    match lookup {
        TrustLookup::Active { label, instance_id, server_ip, trust: Some(t) } => match r {
            Ok(Some(target)) => persisted_target(instance_id@, server_ip@, t, port, Ok(target)),
            Ok(None) => false,
            Err(e) => persisted_target(instance_id@, server_ip@, t, port, Err(e)),
        },
        TrustLookup::Active { label, instance_id, server_ip, trust: None } => r matches Err(e)
            && e@ == untrusted(label, instance_id@, server_ip@, port),
        TrustLookup::Latest { deployment, trust: Some(t) } => match r {
            Ok(Some(target)) => persisted_target(
                deployment.instance_id@,
                deployment.server_ip@,
                t,
                port,
                Ok(target),
            ),
            Ok(None) => false,
            Err(e) => persisted_target(
                deployment.instance_id@,
                deployment.server_ip@,
                t,
                port,
                Err(e),
            ),
        },
        TrustLookup::Latest { deployment, trust: None } => r == Ok::<
            Option<AgentConnectionTarget>,
            String,
        >(None),
        TrustLookup::Nothing => r == Ok::<Option<AgentConnectionTarget>, String>(None),
    }
}

/// Decides where the recorded agent is reached. An active deployment that is
/// not trusted is an error; without one, the latest counts if it is trusted.
pub fn resolve_persisted_agent_connection_target(lookup: TrustLookup, port: u16) -> (r: Result<
    Option<AgentConnectionTarget>,
    String,
>)
    ensures
        recorded_target(lookup, port, r),
{
    match lookup {
        TrustLookup::Active { label, instance_id, server_ip, trust } => match trust {
            Some(t) => {
                let deployment_label: String = match label {
                    Some(l) => l,
                    None => t.deployment_id.clone(),
                };
                let deployment: StoredDeployment = StoredDeployment {
                    deployment_label,
                    instance_id,
                    server_ip,
                };
                match persisted_agent_connection_target(&deployment, &t, port) {
                    Ok(target) => Ok(Some(target)),
                    Err(e) => Err(e),
                }
            },
            None => {
                let name: String = match label {
                    Some(l) => l,
                    None => "<unknown>".to_owned(),
                };
                Err(
                    cat10(
                        "no persisted agent trust for active deployment ",
                        name.as_str(),
                        " (",
                        instance_id.as_str(),
                        ", ",
                        server_ip.as_str(),
                        "); expected edge-agent target https://",
                        server_ip.as_str(),
                        ":",
                        number(port as u64).as_str(),
                    ),
                )
            },
        },
        TrustLookup::Latest { deployment, trust } => match trust {
            Some(t) => match persisted_agent_connection_target(&deployment, &t, port) {
                Ok(target) => Ok(Some(target)),
                Err(e) => Err(e),
            },
            None => Ok(None),
        },
        TrustLookup::Nothing => Ok(None),
    }
}

/// Decides where the agent is reached: at the endpoint that somebody has set,
/// or where the record says, or at the usual endpoint.
pub fn resolve_agent_connection_target(
    endpoint: &str,
    env_set: bool,
    recorded: Result<Option<AgentConnectionTarget>, String>,
) -> (r: Result<AgentConnectionTarget, String>)
    ensures
        if endpoint_is_set(endpoint@, env_set) {
            r matches Ok(target) && plain(target, endpoint@)
        } else {
            match recorded {
                Err(e) => r == Err::<AgentConnectionTarget, String>(e),
                Ok(Some(target)) => r == Ok::<AgentConnectionTarget, String>(target),
                Ok(None) => r matches Ok(target) && plain(target, endpoint@),
            }
        },
{
    if has_explicit_endpoint(endpoint, env_set) {
        return Ok(plain_target(endpoint));
    }
    match recorded {
        Err(e) => Err(e),
        Ok(Some(target)) => Ok(target),
        Ok(None) => Ok(plain_target(endpoint)),
    }
}

/// Where the agent of a trusted host is reached.
pub fn resolve_targeted_agent_connection_target(trust: Option<StoredTrustEntry>, port: u16) -> (r:
    Result<Option<AgentConnectionTarget>, String>)
    ensures
        match trust {
            None => r == Ok::<Option<AgentConnectionTarget>, String>(None),
            Some(t) => match r {
                Ok(Some(target)) => persisted_target(t.instance_id@, t.ip@, t, port, Ok(target)),
                Ok(None) => false,
                Err(e) => persisted_target(t.instance_id@, t.ip@, t, port, Err(e)),
            },
        },
{
    match trust {
        None => Ok(None),
        Some(t) => {
            let deployment: StoredDeployment = StoredDeployment {
                deployment_label: t.deployment_id.clone(),
                instance_id: t.instance_id.clone(),
                server_ip: t.ip.clone(),
            };
            match persisted_agent_connection_target(&deployment, &t, port) {
                Ok(target) => Ok(Some(target)),
                Err(e) => Err(e),
            }
        },
    }
}

/// Where the agent of a trusted host is reached through another endpoint.
pub fn resolve_targeted_agent_connection_target_for_endpoint(
    trust: &Option<StoredTrustEntry>,
    endpoint: &str,
) -> (r: Result<Option<AgentConnectionTarget>, String>)
    ensures
        match *trust {
            None => r == Ok::<Option<AgentConnectionTarget>, String>(None),
            Some(t) => match r {
                Ok(Some(target)) => target.endpoint@ == endpoint@ && tls_paths(
                    t,
                    Ok(target.tls_paths),
                ),
                Ok(None) => false,
                Err(e) => tls_paths(t, Err(e)),
            },
        },
{
    match trust {
        None => Ok(None),
        Some(t) => match persisted_agent_tls_paths(t) {
            Err(e) => Err(e),
            Ok(paths) => Ok(
                Some(AgentConnectionTarget { endpoint: endpoint.to_owned(), tls_paths: paths }),
            ),
        },
    }
}

/// The same agent through another endpoint.
pub fn retarget_agent_connection_target(target: &AgentConnectionTarget, endpoint: String) -> (r:
    AgentConnectionTarget)
    ensures
        r.endpoint == endpoint,
        r.tls_paths == target.tls_paths,
{
    let tls_paths: Option<AgentClientTlsPaths> = match &target.tls_paths {
        Some(p) => Some(
            AgentClientTlsPaths {
                ca_cert_path: p.ca_cert_path.clone(),
                client_cert_path: p.client_cert_path.clone(),
                client_key_path: p.client_key_path.clone(),
                domain_name: p.domain_name.clone(),
            },
        ),
        None => None,
    };
    AgentConnectionTarget { endpoint, tls_paths }
}

/// A machine that a deployment goes to.
#[derive(Debug, PartialEq, Eq)]
pub struct ResolvedDeployTarget {
    pub instance_id: String,
    pub target_ip: String,
    pub created_instance: bool,
}

/// Decides where the agent of a deployment's machine is reached. Without an
/// endpoint that somebody has set, the machine must be trusted.
pub fn resolve_operation_agent_connection_target(
    endpoint: &str,
    env_set: bool,
    target: &ResolvedDeployTarget,
    targeted: Result<Option<AgentConnectionTarget>, String>,
) -> (r: Result<AgentConnectionTarget, String>)
    ensures
        if endpoint_is_set(endpoint@, env_set) {
            r matches Ok(t) && plain(t, endpoint@)
        } else {
            match targeted {
                Err(e) => r == Err::<AgentConnectionTarget, String>(e),
                Ok(Some(t)) => r == Ok::<AgentConnectionTarget, String>(t),
                Ok(None) => r matches Err(e) && e@ == "no persisted agent trust was found for instance "@
                    + target.instance_id@ + " at "@ + target.target_ip@
                    + "; set EDGE_AGENT_ENDPOINT explicitly or bootstrap via SSH"@,
            }
        },
{
    if has_explicit_endpoint(endpoint, env_set) {
        return Ok(plain_target(endpoint));
    }
    match targeted {
        Err(e) => Err(e),
        Ok(Some(t)) => Ok(t),
        Ok(None) => Err(
            cat5(
                "no persisted agent trust was found for instance ",
                target.instance_id.as_str(),
                " at ",
                target.target_ip.as_str(),
                "; set EDGE_AGENT_ENDPOINT explicitly or bootstrap via SSH",
            ),
        ),
    }
}

/// Whether the agent is put on a machine by SSH.
pub open spec fn by_ssh(
    created_instance: bool,
    forced: Option<Seq<char>>,
    target_ip: Option<Seq<char>>,
    key_configured: bool,
    trusted: bool,
) -> bool {
    ||| created_instance
    ||| (forced matches Some(t) && (t == "1"@ || lowered(t) == lowered("true"@)))
    ||| (key_configured && (target_ip matches Some(ip) && !blank(ip)))
    ||| (key_configured && !trusted)
}

/// Whether the agent is put on a machine by SSH: on a new one, where somebody
/// forces it, and where a key is to be had and either the address was given or
/// the machine is not trusted yet.
pub fn should_bootstrap_via_ssh(
    request: &DeployRequest,
    target: &ResolvedDeployTarget,
    forced: &Option<String>,
    key_configured: bool,
    trusted: bool,
) -> (r: bool)
    ensures
        r == by_ssh(
            target.created_instance,
            forced.deep_view(),
            request.target_ip.deep_view(),
            key_configured,
            trusted,
        ),
{
    let forced: bool = match forced {
        Some(t) => same(t.as_str(), "1") || same_ignoring_case(t.as_str(), "true"),
        None => false,
    };
    let addressed: bool = match &request.target_ip {
        Some(ip) => !is_blank(ip.as_str()),
        None => false,
    };
    target.created_instance || forced || (addressed && key_configured) || (!trusted
        && key_configured)
}

/// Whether SSH is tried where the agent does not answer: never where somebody
/// has set the endpoint, on a new machine, or without a key.
pub fn should_fallback_to_ssh_bootstrap(
    endpoint: &str,
    env_set: bool,
    target: &ResolvedDeployTarget,
    key_configured: bool,
) -> (r: bool)
    ensures
        r == (!endpoint_is_set(endpoint@, env_set) && !target.created_instance && key_configured),
{
    !has_explicit_endpoint(endpoint, env_set) && !target.created_instance && key_configured
}

/// What the journal is told where the agent does not answer and is put on the
/// machine again.
pub const FALLBACK_EVENT: &'static str =
    "direct edge-agent transport is unavailable; falling back to SSH bootstrap";

/// How the agent on a machine is reached.
#[derive(Debug, PartialEq, Eq)]
pub enum TransportNext {
    /// See whether the agent answers there.
    Probe(AgentConnectionTarget),
    /// There, without a further look.
    Direct(AgentConnectionTarget),
    /// Put the agent on the machine by SSH, and go through a tunnel.
    Bootstrap,
}

/// Decides how the agent on a machine is reached. `trusted` is how it was
/// reached before, which comes first; `operation` is where it would be looked
/// for otherwise, which has to be known in any case.
pub fn prepare_agent_transport(
    by_ssh: bool,
    fallback: bool,
    trusted: &Option<AgentConnectionTarget>,
    operation: Result<AgentConnectionTarget, String>,
) -> (r: Result<TransportNext, String>)
    ensures
        if by_ssh {
            r == Ok::<TransportNext, String>(TransportNext::Bootstrap)
        } else {
            match operation {
                Err(e) => r == Err::<TransportNext, String>(e),
                Ok(other) => {
                    let target = match *trusted {
                        Some(known) => known,
                        None => other,
                    };
                    r == Ok::<TransportNext, String>(
                        if fallback {
                            TransportNext::Probe(target)
                        } else {
                            TransportNext::Direct(target)
                        },
                    )
                },
            }
        },
{
    if by_ssh {
        return Ok(TransportNext::Bootstrap);
    }
    let other: AgentConnectionTarget = match operation {
        Err(e) => return Err(e),
        Ok(other) => other,
    };
    let target: AgentConnectionTarget = match trusted {
        Some(known) => retarget_agent_connection_target(known, known.endpoint.clone()),
        None => other,
    };
    Ok(
        if fallback {
            TransportNext::Probe(target)
        } else {
            TransportNext::Direct(target)
        },
    )
}

/// Decides how the agent is reached after it was looked for.
pub fn probed_agent_transport(target: AgentConnectionTarget, answered: bool) -> (r: TransportNext)
    ensures
        r == if answered {
            TransportNext::Direct(target)
        } else {
            TransportNext::Bootstrap
        },
{
    if answered {
        TransportNext::Direct(target)
    } else {
        TransportNext::Bootstrap
    }
}

/// Whether the host's key may take the place of one that is known: on a new
/// machine, or on one that is not trusted yet.
pub fn allows_host_key_refresh(target: &ResolvedDeployTarget, trusted: bool) -> (r: bool)
    ensures
        r == (target.created_instance || !trusted),
{
    target.created_instance || !trusted
}

/// Where the agent is reached through a tunnel. `trusted` is how it was reached
/// before, by its certificates, and `answered` says whether it still answers to
/// them.
pub fn tunnel_target(
    local_port: u16,
    trusted: &Option<AgentConnectionTarget>,
    answered: bool,
) -> (r: AgentConnectionTarget)
    ensures
        r.endpoint@ == "http://127.0.0.1:"@ + decimal(local_port as nat),
        r.tls_paths == match *trusted {
            Some(t) if answered => t.tls_paths,
            _ => None,
        },
{
    let endpoint: String = cat2("http://127.0.0.1:", number(local_port as u64).as_str());
    match trusted {
        Some(t) => {
            if answered {
                retarget_agent_connection_target(t, endpoint)
            } else {
                AgentConnectionTarget { endpoint, tls_paths: None }
            }
        },
        None => AgentConnectionTarget { endpoint, tls_paths: None },
    }
}

/// Trust is used only whole: with an authority, a certificate and its key; and
/// then for the very machine, by an encrypted endpoint at its own address.
pub proof fn law_trusted_machines_are_reached_encrypted(
    deployment: StoredDeployment,
    trust: StoredTrustEntry,
    port: u16,
    r: Result<AgentConnectionTarget, String>,
)
    requires
        call_ensures(persisted_agent_connection_target, (&deployment, &trust, port), r),
    ensures
        r is Ok <==> trust.ca_cert_path is Some && trust.client_cert_path is Some
            && trust.client_key_path is Some,
        r matches Ok(target) ==> {
            &&& target.endpoint@ == "https://"@ + deployment.server_ip@ + ":"@ + decimal(
                port as nat,
            )
            &&& target.tls_paths matches Some(p) && p.ca_cert_path@ == trust.ca_cert_path->Some_0@
                && p.client_cert_path@ == trust.client_cert_path->Some_0@ && p.client_key_path@
                == trust.client_key_path->Some_0@
            &&& trust.domain_name matches Some(n) ==> target.tls_paths->Some_0.domain_name@ == n@
            &&& trust.domain_name is None ==> target.tls_paths->Some_0.domain_name@ == "edge-agent"@
        },
{
}

/// An endpoint that is given comes before what is recorded; and an active
/// deployment without trust is never reached in the open.
pub proof fn law_untrusted_deployments_are_not_reached(
    label: Option<String>,
    instance_id: String,
    server_ip: String,
    trust: Option<StoredTrustEntry>,
    port: u16,
    recorded: Result<Option<AgentConnectionTarget>, String>,
    endpoint: &str,
    env_set: bool,
    given: bool,
    r: Result<AgentConnectionTarget, String>,
)
    requires
        call_ensures(
            resolve_persisted_agent_connection_target,
            (TrustLookup::Active { label, instance_id, server_ip, trust }, port),
            recorded,
        ),
        call_ensures(has_explicit_endpoint, (endpoint, env_set), given),
        call_ensures(resolve_agent_connection_target, (endpoint, env_set, recorded), r),
    ensures
        given ==> (r matches Ok(t) && t.endpoint@ == endpoint@ && t.tls_paths is None),
        env_set ==> given,
        trust is None ==> recorded is Err,
        trust is None && !given ==> r is Err,
        recorded matches Ok(t) ==> t is Some && t->Some_0.tls_paths is Some,
        !given && r is Ok ==> r->Ok_0.tls_paths is Some,
{
}

/// Where no deployment is recorded, or none is trusted, nothing is known of an
/// agent.
pub proof fn law_nothing_recorded_is_nothing_known(
    lookup: TrustLookup,
    port: u16,
    r: Result<Option<AgentConnectionTarget>, String>,
)
    requires
        call_ensures(resolve_persisted_agent_connection_target, (lookup, port), r),
    ensures
        lookup is Nothing ==> r == Ok::<Option<AgentConnectionTarget>, String>(None),
        lookup matches TrustLookup::Latest { trust: None, .. } ==> r == Ok::<
            Option<AgentConnectionTarget>,
            String,
        >(None),
        r matches Ok(Some(t)) ==> t.tls_paths is Some,
{
}

/// A target of an operation is reached by the endpoint that is given, or else by
/// the trust in it, and not at all without either.
pub proof fn law_operations_need_an_endpoint_or_trust(
    endpoint: &str,
    env_set: bool,
    target: ResolvedDeployTarget,
    targeted: Result<Option<AgentConnectionTarget>, String>,
    given: bool,
    r: Result<AgentConnectionTarget, String>,
)
    requires
        call_ensures(has_explicit_endpoint, (endpoint, env_set), given),
        call_ensures(
            resolve_operation_agent_connection_target,
            (endpoint, env_set, &target, targeted),
            r,
        ),
    ensures
        given ==> (r matches Ok(t) && t.endpoint@ == endpoint@ && t.tls_paths is None),
        !given ==> (r is Ok <==> (targeted matches Ok(Some(_)))),
        !given && r is Ok ==> targeted == Ok::<Option<AgentConnectionTarget>, String>(
            Some(r->Ok_0),
        ),
{
}

/// A new machine is always set up by SSH. Another one is where that is forced,
/// where an address is given with a key, or where it is not trusted and there is
/// a key; without any of these never.
pub proof fn law_new_machines_are_set_up_by_ssh(
    request: DeployRequest,
    target: ResolvedDeployTarget,
    forced: Option<String>,
    key_configured: bool,
    trusted: bool,
    r: bool,
)
    requires
        call_ensures(
            should_bootstrap_via_ssh,
            (&request, &target, &forced, key_configured, trusted),
            r,
        ),
    ensures
        target.created_instance ==> r,
        forced matches Some(t) ==> (t@ == "1"@ || t@ == "true"@ ==> r),
        key_configured && !trusted ==> r,
        key_configured && (request.target_ip matches Some(ip) && !blank(ip@)) ==> r,
        !target.created_instance && forced is None && !key_configured ==> !r,
        !target.created_instance && forced is None && trusted && (request.target_ip is None
            || blank(request.target_ip->Some_0@)) ==> !r,
{
}

/// SSH is fallen back on only for a machine that was there before, with a key,
/// and never where an endpoint was given. A probe comes only where there is such
/// a way out.
pub proof fn law_the_way_to_an_agent(
    endpoint: &str,
    env_set: bool,
    target: ResolvedDeployTarget,
    key_configured: bool,
    given: bool,
    fallback: bool,
    by_ssh: bool,
    known: Option<AgentConnectionTarget>,
    operation: Result<AgentConnectionTarget, String>,
    r: Result<TransportNext, String>,
)
    requires
        call_ensures(has_explicit_endpoint, (endpoint, env_set), given),
        call_ensures(
            should_fallback_to_ssh_bootstrap,
            (endpoint, env_set, &target, key_configured),
            fallback,
        ),
        call_ensures(prepare_agent_transport, (by_ssh, fallback, &known, operation), r),
    ensures
        fallback <==> !given && !target.created_instance && key_configured,
        by_ssh ==> r == Ok::<TransportNext, String>(TransportNext::Bootstrap),
        !by_ssh && operation is Err ==> r is Err,
        !by_ssh && operation is Ok ==> (r matches Ok(TransportNext::Probe(_)) <==> fallback),
        r matches Ok(TransportNext::Probe(t)) ==> (known matches Some(k) ==> t == k) && (
        known is None ==> operation == Ok::<AgentConnectionTarget, String>(t)),
        r matches Ok(TransportNext::Direct(t)) ==> (known matches Some(k) ==> t == k) && (
        known is None ==> operation == Ok::<AgentConnectionTarget, String>(t)),
        r matches Ok(TransportNext::Bootstrap) ==> by_ssh,
{
}

/// An agent that answers is used directly, and one that does not is set up
/// anew. A tunnel goes to this machine only, and uses the trust only where the
/// agent has answered with it.
pub proof fn law_tunnels_end_here(
    target: AgentConnectionTarget,
    answered: bool,
    next: TransportNext,
    port: u16,
    known: Option<AgentConnectionTarget>,
    tunnel: AgentConnectionTarget,
)
    requires
        call_ensures(probed_agent_transport, (target, answered), next),
        call_ensures(tunnel_target, (port, &known, answered), tunnel),
    ensures
        answered ==> next == TransportNext::Direct(target),
        !answered ==> next is Bootstrap,
        tunnel.endpoint@ == "http://127.0.0.1:"@ + decimal(port as nat),
        !answered ==> tunnel.tls_paths is None,
        answered && known is Some ==> tunnel.tls_paths == known->Some_0.tls_paths,
        known is None ==> tunnel.tls_paths is None,
{
}

/// A known host key is forgotten only for a machine that is new or was never
/// trusted.
pub proof fn law_host_keys_of_trusted_machines_stay(
    target: ResolvedDeployTarget,
    trusted: bool,
    r: bool,
)
    requires
        call_ensures(allows_host_key_refresh, (&target, trusted), r),
    ensures
        r <==> target.created_instance || !trusted,
{
}

/// A deployment is taken for active only where both its machine and its address
/// are recorded.
pub proof fn law_active_deployments_have_a_machine(active: ActiveDeployment, r: Option<(String, String)>)
    requires
        call_ensures(active_machine, (&active,), r),
    ensures
        r is Some <==> active.instance_id is Some && active.server_ip is Some,
        r matches Some((id, ip)) ==> active.instance_id == Some(id) && active.server_ip == Some(ip),
{
}

/// Sending somebody elsewhere keeps the trust.
pub proof fn law_another_endpoint_keeps_the_trust(
    target: AgentConnectionTarget,
    endpoint: String,
    r: AgentConnectionTarget,
)
    requires
        call_ensures(retarget_agent_connection_target, (&target, endpoint), r),
    ensures
        r.endpoint@ == endpoint@,
        r.tls_paths == target.tls_paths,
{
}

/// The files kept for a deployment are used whole, as they are kept: with all
/// three of them the agent is known by the name kept with them, with none there
/// is nothing to use, and with only some of them nothing is made up.
pub proof fn law_kept_files_are_used_whole(
    trust: StoredTrustEntry,
    r: Result<Option<AgentClientTlsPaths>, String>,
)
    requires
        call_ensures(persisted_agent_tls_paths, (&trust,), r),
    ensures
        (r matches Ok(Some(_))) <==> trust.ca_cert_path is Some && trust.client_cert_path is Some
            && trust.client_key_path is Some,
        (r matches Ok(None)) <==> trust.ca_cert_path is None && trust.client_cert_path is None
            && trust.client_key_path is None,
        r matches Ok(Some(p)) ==> {
            &&& trust.ca_cert_path == Some(p.ca_cert_path)
            &&& trust.client_cert_path == Some(p.client_cert_path)
            &&& trust.client_key_path == Some(p.client_key_path)
            &&& trust.domain_name matches Some(n) ==> p.domain_name@ == n@
            &&& trust.domain_name is None ==> p.domain_name@ == "edge-agent"@
        },
{
}

/// The agent of the deployment that is trusted is reached at the address and by
/// the files that are kept for it, and only where all of them are kept.
pub proof fn law_a_trusted_agent_is_reached_where_it_is_kept(
    trust: Option<StoredTrustEntry>,
    port: u16,
    r: Result<Option<AgentConnectionTarget>, String>,
)
    requires
        call_ensures(resolve_targeted_agent_connection_target, (trust, port), r),
    ensures
        (r matches Ok(None)) <==> trust is None,
        (r matches Ok(Some(_))) <==> (trust matches Some(t) && t.ca_cert_path is Some
            && t.client_cert_path is Some && t.client_key_path is Some),
        r matches Ok(Some(target)) ==> ({
            let t = trust->Some_0;
            &&& target.endpoint@ == "https://"@ + t.ip@ + ":"@ + decimal(port as nat)
            &&& target.tls_paths is Some
            &&& t.ca_cert_path == Some(target.tls_paths->Some_0.ca_cert_path)
            &&& t.client_cert_path == Some(target.tls_paths->Some_0.client_cert_path)
            &&& t.client_key_path == Some(target.tls_paths->Some_0.client_key_path)
        }),
{
}

/// The agent's port is the one that is set, where that is a port, and the usual
/// one otherwise.
pub proof fn law_the_agents_port_is_the_one_set(set: Option<String>, n: u16, r: u16)
    requires
        call_ensures(agent_remote_port, (&set,), r),
    ensures
        set is None ==> r == 50061,
        set matches Some(t) ==> {
            &&& t@ == decimal(n as nat) ==> r == n
            &&& t@.len() == 0 ==> r == 50061
        },
{
    lemma_digits_of_decimal(n as nat, 0xffff);
    assert(is_digit(decimal(n as nat)[0]));
}

/// An endpoint that is asked for is reached with the files that are kept for the
/// deployment; nothing kept is nothing known, and files kept in part are refused.
pub proof fn law_an_endpoint_asked_for_is_reached_with_what_is_kept(
    trust: Option<StoredTrustEntry>,
    endpoint: &str,
    r: Result<Option<AgentConnectionTarget>, String>,
)
    requires
        call_ensures(resolve_targeted_agent_connection_target_for_endpoint, (&trust, endpoint), r),
    ensures
        (r matches Ok(None)) <==> trust is None,
        trust matches Some(t) ==> (r is Err <==> !((t.ca_cert_path is Some
            && t.client_cert_path is Some && t.client_key_path is Some) || (t.ca_cert_path is None
            && t.client_cert_path is None && t.client_key_path is None))),
        r matches Ok(Some(target)) ==> {
            &&& target.endpoint@ == endpoint@
            &&& target.tls_paths is Some <==> trust->Some_0.ca_cert_path is Some
            &&& target.tls_paths matches Some(p) ==> trust->Some_0.ca_cert_path == Some(
                p.ca_cert_path,
            ) && trust->Some_0.client_cert_path == Some(p.client_cert_path)
                && trust->Some_0.client_key_path == Some(p.client_key_path)
        },
{
}

/// A deployment on record is reached at its own address and by the files kept for
/// it. An active one without them is refused; nothing on record is nothing known.
pub proof fn law_the_deployment_on_record_is_reached_at_its_address(
    lookup: TrustLookup,
    port: u16,
    r: Result<Option<AgentConnectionTarget>, String>,
)
    requires
        call_ensures(resolve_persisted_agent_connection_target, (lookup, port), r),
    ensures
        lookup is Nothing ==> (r matches Ok(None)),
        lookup matches TrustLookup::Active { label, instance_id, server_ip, trust } ==> {
            &&& !(r matches Ok(None))
            &&& trust is None ==> r is Err
            &&& trust matches Some(t) ==> (r is Ok <==> t.ca_cert_path is Some
                && t.client_cert_path is Some && t.client_key_path is Some)
            &&& r matches Ok(Some(target)) ==> target.endpoint@ == "https://"@ + server_ip@ + ":"@
                + decimal(port as nat) && target.tls_paths is Some
        },
        lookup matches TrustLookup::Latest { deployment, trust } ==> {
            &&& (r matches Ok(None)) <==> trust is None
            &&& r matches Ok(Some(target)) ==> target.endpoint@ == "https://"@
                + deployment.server_ip@ + ":"@ + decimal(port as nat) && target.tls_paths is Some
        },
{
}

} // verus!
