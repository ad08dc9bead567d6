//! Keeping an account's Zero Trust configuration as wanted.
use crate::digest::{DIGEST_INPUT_LIMIT, hex, lower_hex, sha256, sha256_hex};
use crate::doctor::mesh_rule;
use crate::machine::{PlanDisposition, PlanMaterial};
use crate::once::{Ask, Next, Phase, Reply, Sight, carries};
use crate::text::{
    blank, cat2, cat3, cat8, chars_of, copy_option, copy_texts, has_part, is_blank,
    is_white_space, join, joined, lemma_trimmed_same, lower, lowered, same, split_words,
    stands_at, texts, trim, trimmed, words,
};
use vstd::prelude::*;
use vstd::string::*;
use vstd::utf8::*;

verus! {

/// An expression with one space between its words.
pub open spec fn normal_expression(value: Seq<char>) -> Seq<char> {
    joined(words(value), " "@)
}

/// An expression with one space between its words.
pub fn normalize_expression(value: &str) -> (r: String)
    ensures
        r@ == normal_expression(value@),
{
    join(&split_words(value), " ")
}

/// The expression that holds for the owner of an email address.
pub open spec fn identity_words(email: Seq<char>) -> Seq<char> {
    "identity.email == \""@ + email + "\""@
}

/// The expression that holds for the owner of an email address.
pub fn identity_expression(email: &str) -> (r: String)
    ensures
        r@ == identity_words(email@),
{
    cat3("identity.email == \"", email, "\"")
}

/// Whether an expression is short enough to have a digest.
pub open spec fn digestible(value: Seq<char>) -> bool {
    encode_utf8(normal_expression(value)).len() <= DIGEST_INPUT_LIMIT
}

/// The digest by which expressions are compared: white space does not count.
pub open spec fn expression_digest(value: Seq<char>) -> Seq<char> {
    hex(sha256(encode_utf8(normal_expression(value))))
}

/// The digest by which expressions are compared.
pub fn expression_sha256(value: &str) -> (r: String)
    requires
        digestible(value@),
    ensures
        r@ == expression_digest(value@),
        lower_hex(r@, 64),
{
    let normal: String = normalize_expression(value);
    sha256_hex(normal.as_str().as_bytes())
}

/// Expressions with the same words have the same digest.
pub proof fn law_digest_ignores_white_space(a: Seq<char>, b: Seq<char>)
    requires
        words(a) == words(b),
    ensures
        expression_digest(a) == expression_digest(b),
{
}

/// Whether Unicode counts `c` among the control characters.
pub open spec fn is_control(c: char) -> bool {
    let n = c as u32;
    n <= 0x1F || 0x7F <= n <= 0x9F
}

/// Whether `value` may be an email address in an expression: it has an at
/// sign, no white space at its ends and nothing that would end the expression.
pub open spec fn usable_email(value: Seq<char>) -> bool {
    &&& trimmed(value) == value
    &&& value.len() > 0
    &&& value.contains('@')
    &&& forall|i: int|
        0 <= i < value.len() ==> !is_control(#[trigger] value[i]) && value[i] != '"' && value[i]
            != '\\'
}

/// Checks an email address.
pub fn validate_identity_email(value: &str) -> (r: Result<(), String>)
    ensures
        match r {
            Ok(()) => usable_email(value@),
            Err(e) => !usable_email(value@) && e@
                == "Cloudflare Android identity email has invalid bounded shape"@,
        },
{
    let chars: Vec<char> = chars_of(value);
    let mut at: bool = false;
    let mut clean: bool = true;
    let mut i: usize = 0;
    while i < chars.len()
        invariant
            i <= chars@.len(),
            chars@ == value@,
            at <==> exists|k: int| 0 <= k < i && #[trigger] value@[k] == '@',
            clean <==> forall|k: int|
                0 <= k < i ==> !is_control(#[trigger] value@[k]) && value@[k] != '"' && value@[k]
                    != '\\',
        decreases chars@.len() - i,
    {
        let c: char = chars[i];
        assert(value@[i as int] == c);
        if c == '@' {
            at = true;
        }
        let n: u32 = c as u32;
        if n <= 0x1F || (0x7F <= n && n <= 0x9F) || c == '"' || c == '\\' {
            clean = false;
        }
        i = i + 1;
    }
    if same(trim(value), value) && chars.len() > 0 && at && clean {
        Ok(())
    } else {
        Err("Cloudflare Android identity email has invalid bounded shape".to_owned())
    }
}

/// Who the runtime answers to, in a form that may be shown.
#[derive(Debug, Clone, PartialEq, Eq)]
pub struct RuntimeAuthority {
    pub android_profile_id: String,
    pub identity_sha256: String,
}

/// What the configuration needs from outside.
#[derive(Debug, Clone, PartialEq, Eq)]
pub struct ZeroTrustRuntimeInputs {
    pub android_profile_id: String,
    pub identity_email: String,
    pub authority: RuntimeAuthority,
}

/// Whether `result` is what comes of a profile's id and an email address.
pub open spec fn inputs_made(
    android_profile_id: String,
    identity_email: String,
    result: Result<ZeroTrustRuntimeInputs, String>,
) -> bool {
    match result {
        Err(e) => if blank(android_profile_id@) {
            e@ == "Cloudflare Android profile runtime authority must be non-empty"@
        } else {
            !usable_email(identity_email@) && e@
                == "Cloudflare Android identity email has invalid bounded shape"@
        },
        Ok(inputs) => {
            &&& !blank(android_profile_id@)
            &&& usable_email(identity_email@)
            &&& inputs.android_profile_id == android_profile_id
            &&& inputs.identity_email == identity_email
            &&& inputs.authority.android_profile_id == android_profile_id
            &&& inputs.authority.identity_sha256@ == expression_digest(
                identity_words(identity_email@),
            )
        },
    }
}

impl ZeroTrustRuntimeInputs {
    pub fn new(android_profile_id: String, identity_email: String) -> (r: Result<
        ZeroTrustRuntimeInputs,
        String,
    >)
        requires
            digestible(identity_words(identity_email@)),
        ensures
            inputs_made(android_profile_id, identity_email, r),
    {
        if is_blank(android_profile_id.as_str()) {
            return Err(
                "Cloudflare Android profile runtime authority must be non-empty".to_owned(),
            );
        }
        match validate_identity_email(identity_email.as_str()) {
            Err(e) => return Err(e),
            Ok(()) => {},
        }
        let identity: String = identity_expression(identity_email.as_str());
        let authority: RuntimeAuthority = RuntimeAuthority {
            android_profile_id: android_profile_id.clone(),
            identity_sha256: expression_sha256(identity.as_str()),
        };
        Ok(ZeroTrustRuntimeInputs { android_profile_id, identity_email, authority })
    }
}

/// What the configuration needs from outside, by what two variables of the
/// environment hold.
pub fn runtime_inputs(
    profile_id_env: &str,
    identity_email_env: &str,
    profile_id: Option<String>,
    identity_email: Option<String>,
) -> (r: Result<ZeroTrustRuntimeInputs, String>)
    requires
        identity_email matches Some(email) ==> digestible(identity_words(email@)),
    ensures
        match (profile_id, identity_email) {
            (None, _) => r matches Err(e) && e@ == profile_id_env@
                + " is required as the external Android profile authority"@,
            (Some(_), None) => r matches Err(e) && e@ == identity_email_env@
                + " is required as the external Android identity authority"@,
            (Some(id), Some(email)) => inputs_made(id, email, r),
        },
{
    match (profile_id, identity_email) {
        (None, _) => Err(
            cat2(profile_id_env, " is required as the external Android profile authority"),
        ),
        (Some(_), None) => Err(
            cat2(identity_email_env, " is required as the external Android identity authority"),
        ),
        (Some(id), Some(email)) => ZeroTrustRuntimeInputs::new(id, email),
    }
}

/// How often, and with what pause, the configuration is looked at after a
/// request.
#[derive(Debug, Clone, Copy, PartialEq, Eq, Structural)]
pub struct ZeroTrustExecutionPolicy {
    pub reobserve_attempts: usize,
    pub reobserve_delay_secs: u64,
}

impl Default for ZeroTrustExecutionPolicy {
    fn default() -> (r: ZeroTrustExecutionPolicy)
        ensures
            r.reobserve_attempts == 15,
            r.reobserve_delay_secs == 2,
    {
        ZeroTrustExecutionPolicy { reobserve_attempts: 15, reobserve_delay_secs: 2 }
    }
}

/// Checks that requests are looked at afterwards.
pub fn validate_policy(policy: ZeroTrustExecutionPolicy) -> (r: Result<(), String>)
    ensures
        match r {
            Ok(()) => policy.reobserve_attempts > 0,
            Err(e) => policy.reobserve_attempts == 0 && e@
                == "Cloudflare Zero Trust re-observation attempts must be greater than zero"@,
        },
{
    if policy.reobserve_attempts == 0 {
        Err(
            "Cloudflare Zero Trust re-observation attempts must be greater than zero".to_owned(),
        )
    } else {
        Ok(())
    }
}

/// Access to the Zero Trust configuration of an account.
pub struct CloudflareZeroTrustApiProvider {
    api_token: String,
    account_id: String,
}

impl CloudflareZeroTrustApiProvider {
    pub closed spec fn token(self) -> String {
        self.api_token
    }

    pub closed spec fn account(self) -> String {
        self.account_id
    }

    pub fn new(api_token: String, account_id: String) -> (r: Result<
        CloudflareZeroTrustApiProvider,
        String,
    >)
        ensures
            match r {
                Ok(p) => !blank(api_token@) && !blank(account_id@) && p.token() == api_token
                    && p.account() == account_id,
                Err(e) => if blank(api_token@) {
                    e@ == "CLOUDFLARE_API_TOKEN must be non-empty"@
                } else {
                    blank(account_id@) && e@ == "Cloudflare account ID must be non-empty"@
                },
            },
    {
        if is_blank(api_token.as_str()) {
            return Err("CLOUDFLARE_API_TOKEN must be non-empty".to_owned());
        }
        if is_blank(account_id.as_str()) {
            return Err("Cloudflare account ID must be non-empty".to_owned());
        }
        Ok(CloudflareZeroTrustApiProvider { api_token, account_id })
    }

    pub fn api_token(&self) -> (r: &str)
        ensures
            r@ == self.token()@,
    {
        self.api_token.as_str()
    }

    pub fn account_id(&self) -> (r: &str)
        ensures
            r@ == self.account()@,
    {
        self.account_id.as_str()
    }
}

/// What goes into, or stays out of, a device's tunnel.
#[derive(Debug, PartialEq, Eq)]
pub struct SplitTunnelEntry {
    pub address: Option<String>,
    pub host: Option<String>,
    pub description: Option<String>,
}

impl SplitTunnelEntry {
    pub fn copy(&self) -> (r: SplitTunnelEntry)
        ensures
            r == *self,
    {
        SplitTunnelEntry {
            address: copy_option(&self.address),
            host: copy_option(&self.host),
            description: copy_option(&self.description),
        }
    }
}

/// The one thing that a plan is going to change.
#[derive(Debug, PartialEq, Eq)]
pub enum ZeroTrustAction {
    Noop,
    CreateMeshProfile { precedence: u64 },
    UpdateMeshProfile { profile_id: String, precedence: u64 },
    SetMeshIncludes { profile_id: String, entries: Vec<SplitTunnelEntry> },
    SetAndroidExcludes { profile_id: String, entries: Vec<SplitTunnelEntry> },
    CreateGatewayAllow { precedence: u64, posture_rule_id: String },
    UpdateGatewayAllow { rule_id: String, precedence: u64, posture_rule_id: String },
}

/// Whether two actions change the same thing.
pub open spec fn same_target(a: ZeroTrustAction, b: ZeroTrustAction) -> bool {
    match (a, b) {
        (ZeroTrustAction::CreateMeshProfile { .. }, ZeroTrustAction::CreateMeshProfile { .. }) => {
            true
        },
        (
            ZeroTrustAction::UpdateMeshProfile { profile_id: left, .. },
            ZeroTrustAction::UpdateMeshProfile { profile_id: right, .. },
        ) => left@ == right@,
        (
            ZeroTrustAction::SetMeshIncludes { profile_id: left, .. },
            ZeroTrustAction::SetMeshIncludes { profile_id: right, .. },
        ) => left@ == right@,
        (
            ZeroTrustAction::SetAndroidExcludes { profile_id: left, .. },
            ZeroTrustAction::SetAndroidExcludes { profile_id: right, .. },
        ) => left@ == right@,
        (
            ZeroTrustAction::CreateGatewayAllow { .. },
            ZeroTrustAction::CreateGatewayAllow { .. },
        ) => true,
        (
            ZeroTrustAction::UpdateGatewayAllow { rule_id: left, .. },
            ZeroTrustAction::UpdateGatewayAllow { rule_id: right, .. },
        ) => left@ == right@,
        _ => false,
    }
}

/// Whether an action is completed: the next plan no longer asks for a change of
/// the same thing.
pub fn action_completed(performed: &ZeroTrustAction, next: &ZeroTrustAction) -> (r: bool)
    ensures
        r == !same_target(*performed, *next),
{
    match (performed, next) {
        (ZeroTrustAction::CreateMeshProfile { .. }, ZeroTrustAction::CreateMeshProfile { .. }) => {
            false
        },
        (
            ZeroTrustAction::UpdateMeshProfile { profile_id: left, .. },
            ZeroTrustAction::UpdateMeshProfile { profile_id: right, .. },
        ) => !same(left.as_str(), right.as_str()),
        (
            ZeroTrustAction::SetMeshIncludes { profile_id: left, .. },
            ZeroTrustAction::SetMeshIncludes { profile_id: right, .. },
        ) => !same(left.as_str(), right.as_str()),
        (
            ZeroTrustAction::SetAndroidExcludes { profile_id: left, .. },
            ZeroTrustAction::SetAndroidExcludes { profile_id: right, .. },
        ) => !same(left.as_str(), right.as_str()),
        (
            ZeroTrustAction::CreateGatewayAllow { .. },
            ZeroTrustAction::CreateGatewayAllow { .. },
        ) => false,
        (
            ZeroTrustAction::UpdateGatewayAllow { rule_id: left, .. },
            ZeroTrustAction::UpdateGatewayAllow { rule_id: right, .. },
        ) => !same(left.as_str(), right.as_str()),
        _ => true,
    }
}

/// A plan that asks for the same action again shows that it is not completed,
/// and a plan that asks for nothing that every action is.
pub proof fn law_completion_is_a_changed_plan(performed: ZeroTrustAction)
    ensures
        !(performed is Noop) ==> same_target(performed, performed),
        !same_target(performed, ZeroTrustAction::Noop),
{
}

/// What an account's configuration is wanted for.
#[derive(Debug, PartialEq, Eq)]
pub struct ZeroTrustDesired<'a> {
    pub desired: &'a DesiredZeroTrustState,
    pub runtime_authority: &'a RuntimeAuthority,
}

/// What the authority over a change of the configuration binds.
pub type ZeroTrustMaterial<'a> = PlanMaterial<
    ZeroTrustDesired<'a>,
    &'a ZeroTrustObservation,
    &'a ZeroTrustAction,
>;

/// What the authority over a change of the configuration binds.
pub fn authorize_zero_trust_apply<'a>(
    desired: &'a DesiredZeroTrustState,
    runtime: &'a RuntimeAuthority,
    observed: &'a ZeroTrustObservation,
    action: &'a ZeroTrustAction,
) -> (r: ZeroTrustMaterial<'a>)
    ensures
        r.scope@ == "cloudflare_zero_trust_apply"@,
        r.desired.desired == desired,
        r.desired.runtime_authority == runtime,
        r.observed == observed,
        r.plan == action,
        r.disposition == if *action is Noop {
            PlanDisposition::Noop
        } else {
            PlanDisposition::Mutate
        },
{
    let disposition: PlanDisposition = match action {
        ZeroTrustAction::Noop => PlanDisposition::Noop,
        _ => PlanDisposition::Mutate,
    };
    PlanMaterial {
        scope: "cloudflare_zero_trust_apply",
        desired: ZeroTrustDesired { desired, runtime_authority: runtime },
        observed,
        plan: action,
        disposition,
    }
}

/// The device profile that the mesh's nodes are to have.
#[derive(Debug, PartialEq, Eq)]
pub struct MeshProfileSpec {
    pub name: String,
    pub description: String,
    pub match_expression: String,
    pub service_mode: String,
    pub tunnel_protocol: String,
    pub include_cidrs: Vec<String>,
}

/// The gateway rule that lets the Android device in.
#[derive(Debug, PartialEq, Eq)]
pub struct GatewayAllowSpec {
    pub name: String,
    pub description: String,
}

/// What the configuration is to be.
#[derive(Debug, PartialEq, Eq)]
pub struct DesiredZeroTrustState {
    pub mesh_profile: MeshProfileSpec,
    pub gateway_allow: GatewayAllowSpec,
}

/// A device profile as it is written.
#[derive(Debug, PartialEq, Eq)]
pub struct DeviceProfileWrite {
    pub name: String,
    pub description: String,
    pub enabled: bool,
    pub precedence: u64,
    pub match_expression: String,
    pub service_mode: String,
    pub tunnel_protocol: String,
    /// What goes into the tunnel, where the profile is new.
    pub includes: Option<Vec<SplitTunnelEntry>>,
}

/// The addresses of the mesh's own devices.
pub const MESH_DEVICE_CIDR: &'static str = "100.96.0.0/12";

/// The entry that takes an address block into the tunnel.
pub open spec fn mesh_entry(cidr: String, entry: SplitTunnelEntry) -> bool {
    &&& entry.address == Some(cidr)
    &&& entry.host is None
    &&& entry.description matches Some(d)
    &&& d@ == if cidr@ == MESH_DEVICE_CIDR@ {
        "Cloudflare Mesh device IPs"@
    } else {
        "Cloudflare source IPs"@
    }
}

/// Whether `write` is the mesh profile as it is to be written.
pub open spec fn mesh_profile_write(
    desired: MeshProfileSpec,
    precedence: u64,
    on_create: bool,
    write: DeviceProfileWrite,
) -> bool {
    &&& write.name == desired.name
    &&& write.description == desired.description
    &&& write.enabled
    &&& write.precedence == precedence
    &&& write.match_expression == desired.match_expression
    &&& write.service_mode == desired.service_mode
    &&& write.tunnel_protocol == desired.tunnel_protocol
    &&& match write.includes {
        None => !on_create,
        Some(entries) => {
            &&& on_create
            &&& entries@.len() == desired.include_cidrs@.len()
            &&& forall|k: int|
                0 <= k < entries@.len() ==> mesh_entry(
                    desired.include_cidrs@[k],
                    #[trigger] entries@[k],
                )
        },
    }
}

/// The mesh profile as it is to be written.
pub fn mesh_profile_request(
    desired: &DesiredZeroTrustState,
    precedence: u64,
    include_on_create: bool,
) -> (r: DeviceProfileWrite)
    ensures
        mesh_profile_write(desired.mesh_profile, precedence, include_on_create, r),
{
    let profile: &MeshProfileSpec = &desired.mesh_profile;
    let mut entries: Vec<SplitTunnelEntry> = Vec::new();
    let mut i: usize = 0;
    while i < profile.include_cidrs.len()
        invariant
            i <= profile.include_cidrs@.len(),
            entries@.len() == i,
            forall|k: int|
                0 <= k < i ==> mesh_entry(profile.include_cidrs@[k], #[trigger] entries@[k]),
        decreases profile.include_cidrs@.len() - i,
    {
        let description: String = if same(profile.include_cidrs[i].as_str(), MESH_DEVICE_CIDR) {
            "Cloudflare Mesh device IPs".to_owned()
        } else {
            "Cloudflare source IPs".to_owned()
        };
        entries.push(
            SplitTunnelEntry {
                address: Some(profile.include_cidrs[i].clone()),
                host: None,
                description: Some(description),
            },
        );
        i = i + 1;
    }
    DeviceProfileWrite {
        name: profile.name.clone(),
        description: profile.description.clone(),
        enabled: true,
        precedence,
        match_expression: profile.match_expression.clone(),
        service_mode: profile.service_mode.clone(),
        tunnel_protocol: profile.tunnel_protocol.clone(),
        includes: if include_on_create {
            Some(entries)
        } else {
            None
        },
    }
}

/// A gateway rule as it is written.
#[derive(Debug, PartialEq, Eq)]
pub struct GatewayRuleWrite {
    pub name: String,
    pub description: String,
    pub action: String,
    pub enabled: bool,
    pub precedence: u64,
    pub filters: Vec<String>,
    pub traffic: String,
    pub identity: String,
    pub device_posture: String,
}

/// Whether `result` is the gateway rule as it is to be written, or else why it
/// cannot be. `traffic` is the expression for its destinations.
pub open spec fn gateway_write(
    desired: GatewayAllowSpec,
    email: Seq<char>,
    precedence: u64,
    posture_rule_id: Seq<char>,
    traffic: Result<String, String>,
    result: Result<GatewayRuleWrite, String>,
) -> bool {
    if blank(posture_rule_id) {
        result matches Err(e) && e@ == "Cloudflare Android posture rule ID must be non-empty"@
    } else {
        match traffic {
            Err(words) => result == Err::<GatewayRuleWrite, String>(words),
            Ok(t) => {
                &&& result matches Ok(w)
                &&& w.name == desired.name
                &&& w.description == desired.description
                &&& w.action@ == "allow"@
                &&& w.enabled
                &&& w.precedence == precedence
                &&& texts(w.filters@) == seq!["l4"@]
                &&& w.traffic == t
                &&& w.identity@ == identity_words(email)
                &&& w.device_posture@ == "any(device_posture.checks.passed[*] in {\""@
                    + posture_rule_id + "\"})"@
            },
        }
    }
}

/// The gateway rule as it is to be written.
pub fn gateway_request(
    desired: &DesiredZeroTrustState,
    runtime: &ZeroTrustRuntimeInputs,
    precedence: u64,
    posture_rule_id: &str,
    traffic: Result<String, String>,
) -> (r: Result<GatewayRuleWrite, String>)
    ensures
        gateway_write(
            desired.gateway_allow,
            runtime.identity_email@,
            precedence,
            posture_rule_id@,
            traffic,
            r,
        ),
{
    if is_blank(posture_rule_id) {
        return Err("Cloudflare Android posture rule ID must be non-empty".to_owned());
    }
    let traffic: String = match traffic {
        Err(e) => return Err(e),
        Ok(traffic) => traffic,
    };
    let mut filters: Vec<String> = Vec::new();
    filters.push("l4".to_owned());
    assert(texts(filters@) =~= seq!["l4"@]);
    Ok(
        GatewayRuleWrite {
            name: desired.gateway_allow.name.clone(),
            description: desired.gateway_allow.description.clone(),
            action: "allow".to_owned(),
            enabled: true,
            precedence,
            filters,
            traffic,
            identity: identity_expression(runtime.identity_email.as_str()),
            device_posture: cat3(
                "any(device_posture.checks.passed[*] in {\"",
                posture_rule_id,
                "\"})",
            ),
        },
    )
}

/// What is asked of the provider.
#[derive(Debug, PartialEq, Eq)]
pub enum ZeroTrustRequest {
    CreateProfile(DeviceProfileWrite),
    UpdateProfile { profile_id: String, write: DeviceProfileWrite },
    SetIncludes { profile_id: String, entries: Vec<SplitTunnelEntry> },
    SetExcludes { profile_id: String, entries: Vec<SplitTunnelEntry> },
    CreateGateway(GatewayRuleWrite),
    UpdateGateway { rule_id: String, write: GatewayRuleWrite },
}

/// What an authorized plan leads to: the request that carries its one action
/// out, or none where there is nothing to do.
pub open spec fn apply_request(
    desired: DesiredZeroTrustState,
    email: Seq<char>,
    action: ZeroTrustAction,
    traffic: Result<String, String>,
    result: Result<Option<ZeroTrustRequest>, String>,
) -> bool {
    match action {
        ZeroTrustAction::Noop => result matches Ok(None),
        ZeroTrustAction::CreateMeshProfile { precedence } => result matches Ok(
            Some(ZeroTrustRequest::CreateProfile(w)),
        ) && mesh_profile_write(desired.mesh_profile, precedence, true, w),
        ZeroTrustAction::UpdateMeshProfile { profile_id, precedence } => result matches Ok(
            Some(ZeroTrustRequest::UpdateProfile { profile_id: id, write: w }),
        ) && id == profile_id && mesh_profile_write(desired.mesh_profile, precedence, false, w),
        ZeroTrustAction::SetMeshIncludes { profile_id, entries } => result matches Ok(
            Some(ZeroTrustRequest::SetIncludes { profile_id: id, entries: e }),
        ) && id == profile_id && e@ == entries@,
        ZeroTrustAction::SetAndroidExcludes { profile_id, entries } => result matches Ok(
            Some(ZeroTrustRequest::SetExcludes { profile_id: id, entries: e }),
        ) && id == profile_id && e@ == entries@,
        ZeroTrustAction::CreateGatewayAllow { precedence, posture_rule_id } => match result {
            Ok(Some(ZeroTrustRequest::CreateGateway(w))) => gateway_write(
                desired.gateway_allow,
                email,
                precedence,
                posture_rule_id@,
                traffic,
                Ok(w),
            ),
            Ok(_) => false,
            Err(e) => gateway_write(
                desired.gateway_allow,
                email,
                precedence,
                posture_rule_id@,
                traffic,
                Err(e),
            ),
        },
        ZeroTrustAction::UpdateGatewayAllow { rule_id, precedence, posture_rule_id } => match result {
            Ok(Some(ZeroTrustRequest::UpdateGateway { rule_id: id, write: w })) => id == rule_id
                && gateway_write(
                desired.gateway_allow,
                email,
                precedence,
                posture_rule_id@,
                traffic,
                Ok(w),
            ),
            Ok(_) => false,
            Err(e) => gateway_write(
                desired.gateway_allow,
                email,
                precedence,
                posture_rule_id@,
                traffic,
                Err(e),
            ),
        },
    }
}

/// Copies tunnel entries, for the provider.
pub fn provider_entries(entries: &Vec<SplitTunnelEntry>) -> (r: Vec<SplitTunnelEntry>)
    ensures
        r@ == entries@,
{
    let mut out: Vec<SplitTunnelEntry> = Vec::new();
    let mut i: usize = 0;
    while i < entries.len()
        invariant
            i <= entries@.len(),
            out@ == entries@.take(i as int),
        decreases entries@.len() - i,
    {
        out.push(entries[i].copy());
        i = i + 1;
        assert(entries@.take(i as int) =~= entries@.take(i - 1).push(entries@[i - 1]));
    }
    assert(entries@.take(i as int) =~= entries@);
    out
}

/// Takes an authorized plan into account. `authority` says whether the plan is
/// the one that was authorized, `traffic` is the expression for the gateway
/// rule's destinations.
pub fn apply_zero_trust_once(
    desired: &DesiredZeroTrustState,
    runtime: &ZeroTrustRuntimeInputs,
    authority: Result<(), String>,
    action: &ZeroTrustAction,
    traffic: Result<String, String>,
) -> (r: Result<Option<ZeroTrustRequest>, String>)
    ensures
        match authority {
            Err(words) => r == Err::<Option<ZeroTrustRequest>, String>(words),
            Ok(()) => apply_request(*desired, runtime.identity_email@, *action, traffic, r),
        },
{
    match authority {
        Err(e) => return Err(e),
        Ok(()) => {},
    }
    match action {
        ZeroTrustAction::Noop => Ok(None),
        ZeroTrustAction::CreateMeshProfile { precedence } => Ok(
            Some(
                ZeroTrustRequest::CreateProfile(mesh_profile_request(desired, *precedence, true)),
            ),
        ),
        ZeroTrustAction::UpdateMeshProfile { profile_id, precedence } => Ok(
            Some(
                ZeroTrustRequest::UpdateProfile {
                    profile_id: profile_id.clone(),
                    write: mesh_profile_request(desired, *precedence, false),
                },
            ),
        ),
        ZeroTrustAction::SetMeshIncludes { profile_id, entries } => Ok(
            Some(
                ZeroTrustRequest::SetIncludes {
                    profile_id: profile_id.clone(),
                    entries: provider_entries(entries),
                },
            ),
        ),
        ZeroTrustAction::SetAndroidExcludes { profile_id, entries } => Ok(
            Some(
                ZeroTrustRequest::SetExcludes {
                    profile_id: profile_id.clone(),
                    entries: provider_entries(entries),
                },
            ),
        ),
        ZeroTrustAction::CreateGatewayAllow { precedence, posture_rule_id } => {
            match gateway_request(desired, runtime, *precedence, posture_rule_id.as_str(), traffic) {
                Err(e) => Err(e),
                Ok(write) => Ok(Some(ZeroTrustRequest::CreateGateway(write))),
            }
        },
        ZeroTrustAction::UpdateGatewayAllow { rule_id, precedence, posture_rule_id } => {
            match gateway_request(desired, runtime, *precedence, posture_rule_id.as_str(), traffic) {
                Err(e) => Err(e),
                Ok(write) => Ok(
                    Some(ZeroTrustRequest::UpdateGateway { rule_id: rule_id.clone(), write }),
                ),
            }
        },
    }
}

/// A plan drawn up after the request: its action, and how it and what it rests
/// on are rendered in messages.
#[derive(Debug, PartialEq, Eq)]
pub struct ZeroTrustLook {
    pub action: ZeroTrustAction,
    pub plan_words: String,
    pub observation_words: String,
}

/// What a look shows of an action.
pub open spec fn zero_trust_sight(
    performed: ZeroTrustAction,
    look: Result<ZeroTrustLook, String>,
) -> Sight {
    match look {
        Err(_) => Sight::Broken,
        Ok(l) => if same_target(performed, l.action) {
            Sight::Pending
        } else {
            Sight::Reached
        },
    }
}

/// The watch over a change to the configuration.
#[derive(Debug, PartialEq, Eq)]
pub struct ZeroTrustWatch {
    pub phase: Phase,
    /// What the provider said to the request.
    pub detail: String,
}

impl ZeroTrustWatch {
    /// Takes the reply to the request into account. Whatever the provider said,
    /// the configuration is looked at.
    pub fn replied(mutation: Result<(), String>) -> (r: ZeroTrustWatch)
        ensures
            match mutation {
                Ok(()) => r.phase == (Phase::Watching { seen: 0, reply: Reply::Accepted })
                    && r.detail@ == "mutation returned success"@,
                Err(words) => r.phase == (Phase::Watching { seen: 0, reply: Reply::Uncertain })
                    && r.detail == words,
            },
    {
        match mutation {
            Ok(()) => ZeroTrustWatch {
                phase: Phase::Watching { seen: 0, reply: Reply::Accepted },
                detail: "mutation returned success".to_owned(),
            },
            Err(words) => ZeroTrustWatch {
                phase: Phase::Watching { seen: 0, reply: Reply::Uncertain },
                detail: words,
            },
        }
    }

    /// Takes a plan drawn up after the request into account, or why there is
    /// none. The plan that proves the action comes back. `performed_words` is how the action is rendered in messages.
    pub fn reobserve_change(
        self,
        attempts: usize,
        performed: &ZeroTrustAction,
        performed_words: &str,
        look: Result<ZeroTrustLook, String>,
    ) -> (r: (ZeroTrustWatch, Next<ZeroTrustLook>))
        requires
            self.phase is Watching,
        ensures
            ({
                let (phase, ask) = self.phase.looked(attempts, zero_trust_sight(*performed, look));
                &&& r.0 == (ZeroTrustWatch { phase, ..self })
                &&& carries(ask, r.1)
                &&& r.1 matches Next::Done(result) ==> match look {
                    Err(words) => result == Err::<ZeroTrustLook, String>(words),
                    Ok(l) => if same_target(*performed, l.action) {
                        result matches Err(e) && e@
                            == "Cloudflare Zero Trust mutation did not converge after bounded read-only re-observation ("@
                            + self.detail@ + "); mutation was not replayed; performed="@
                            + performed_words@ + "; last_plan="@ + l.plan_words@
                            + "; last_observation="@ + l.observation_words@
                    } else {
                        result == Ok::<ZeroTrustLook, String>(l)
                    },
                }
            }),
    {
        let seen: ZeroTrustLook = match look {
            Err(words) => {
                let (phase, _): (Phase, Ask) = self.phase.look(attempts, Sight::Broken);
                return (ZeroTrustWatch { phase, ..self }, Next::Done(Err(words)));
            },
            Ok(seen) => seen,
        };
        if action_completed(performed, &seen.action) {
            let (phase, _): (Phase, Ask) = self.phase.look(attempts, Sight::Reached);
            return (ZeroTrustWatch { phase, ..self }, Next::Done(Ok(seen)));
        }
        let (phase, ask): (Phase, Ask) = self.phase.look(attempts, Sight::Pending);
        match ask {
            Ask::Look { pause } => (ZeroTrustWatch { phase, ..self }, Next::Look { pause }),
            _ => {
                let e: String = cat8(
                    "Cloudflare Zero Trust mutation did not converge after bounded read-only re-observation (",
                    self.detail.as_str(),
                    "); mutation was not replayed; performed=",
                    performed_words,
                    "; last_plan=",
                    seen.plan_words.as_str(),
                    "; last_observation=",
                    seen.observation_words.as_str(),
                );
                (ZeroTrustWatch { phase, ..self }, Next::Done(Err(e)))
            },
        }
    }
}

/// Checks that a verified configuration leaves nothing to do. `action_words` is
/// how the action is rendered in messages.
pub fn verify_zero_trust(action: &ZeroTrustAction, action_words: &str) -> (r: Result<(), String>)
    ensures
        match r {
            Ok(()) => *action is Noop,
            Err(e) => !(*action is Noop) && e@
                == "Cloudflare Zero Trust verify is BLOCKED; next action is "@ + action_words@,
        },
{
    match action {
        ZeroTrustAction::Noop => Ok(()),
        _ => Err(
            cat2("Cloudflare Zero Trust verify is BLOCKED; next action is ", action_words),
        ),
    }
}

/// A device profile as the provider reports it.
#[derive(Debug, PartialEq, Eq)]
pub struct DeviceProfile {
    pub id: String,
    pub name: String,
    pub enabled: Option<bool>,
    pub precedence: Option<u64>,
    pub match_expression: Option<String>,
    pub service_mode: Option<String>,
    pub tunnel_protocol: Option<String>,
}

/// A device profile as it was observed.
#[derive(Debug, PartialEq, Eq)]
pub struct ObservedDeviceProfile {
    pub provider_id: String,
    pub name: String,
    pub enabled: Option<bool>,
    pub precedence: Option<u64>,
    pub match_expression: Option<String>,
    pub service_mode: Option<String>,
    pub tunnel_protocol: Option<String>,
    pub includes: Vec<SplitTunnelEntry>,
    pub excludes: Vec<SplitTunnelEntry>,
}

/// Whether `o` is the profile with those tunnel entries.
pub open spec fn seen_profile(
    p: DeviceProfile,
    includes: Seq<SplitTunnelEntry>,
    excludes: Seq<SplitTunnelEntry>,
    o: ObservedDeviceProfile,
) -> bool {
    &&& o.provider_id == p.id
    &&& o.name == p.name
    &&& o.enabled == p.enabled
    &&& o.precedence == p.precedence
    &&& o.match_expression == p.match_expression
    &&& o.service_mode == p.service_mode
    &&& o.tunnel_protocol == p.tunnel_protocol
    &&& o.includes@ == includes
    &&& o.excludes@ == excludes
}

/// A profile with its tunnel entries.
pub fn observed_profile(
    profile: &DeviceProfile,
    includes: &Vec<SplitTunnelEntry>,
    excludes: &Vec<SplitTunnelEntry>,
) -> (r: ObservedDeviceProfile)
    ensures
        seen_profile(*profile, includes@, excludes@, r),
{
    ObservedDeviceProfile {
        provider_id: profile.id.clone(),
        name: profile.name.clone(),
        enabled: profile.enabled,
        precedence: profile.precedence,
        match_expression: copy_option(&profile.match_expression),
        service_mode: copy_option(&profile.service_mode),
        tunnel_protocol: copy_option(&profile.tunnel_protocol),
        includes: provider_entries(includes),
        excludes: provider_entries(excludes),
    }
}

/// Whether a profile passes for the mesh's: by its name or by what it matches.
pub open spec fn mesh_match(desired: MeshProfileSpec, p: DeviceProfile) -> bool {
    p.name@ == desired.name@ || (p.match_expression matches Some(m) && m@
        == desired.match_expression@)
}

/// Whether a profile is the Android device's.
pub open spec fn android_match(runtime: ZeroTrustRuntimeInputs, p: DeviceProfile) -> bool {
    p.id@ == runtime.android_profile_id@
}

fn is_mesh_match(desired: &MeshProfileSpec, p: &DeviceProfile) -> (r: bool)
    ensures
        r == mesh_match(*desired, *p),
{
    same(p.name.as_str(), desired.name.as_str()) || match &p.match_expression {
        Some(m) => same(m.as_str(), desired.match_expression.as_str()),
        None => false,
    }
}

/// The going through of the profiles: how many are done, which of them pass
/// for the mesh's, and the Android device's.
#[derive(Debug, PartialEq, Eq)]
pub struct ProfileScan {
    pub done: usize,
    pub mesh: Vec<ObservedDeviceProfile>,
    pub android: Option<ObservedDeviceProfile>,
}

/// What the scan asks for.
#[derive(Debug, Clone, Copy, PartialEq, Eq, Structural)]
pub enum ScanAsk {
    /// Read the tunnel entries of the profile at `done`: what goes in where it
    /// passes for the mesh's, what stays out where it is the Android device's.
    Entries { includes: bool, excludes: bool },
    Finished,
}

/// Where the scan goes from `from`: over the profiles that do not matter to
/// the next that does, or to the end.
pub open spec fn scan_goes(
    desired: MeshProfileSpec,
    runtime: ZeroTrustRuntimeInputs,
    profiles: Seq<DeviceProfile>,
    from: int,
    to: int,
    ask: ScanAsk,
) -> bool {
    &&& from <= to <= profiles.len()
    &&& forall|k: int|
        from <= k < to ==> !mesh_match(desired, #[trigger] profiles[k]) && !android_match(
            runtime,
            profiles[k],
        )
    &&& if to == profiles.len() {
        ask is Finished
    } else {
        let p = profiles[to];
        (mesh_match(desired, p) || android_match(runtime, p)) && ask == (ScanAsk::Entries {
            includes: mesh_match(desired, p),
            excludes: android_match(runtime, p),
        })
    }
}

impl ProfileScan {
    pub fn new() -> (r: ProfileScan)
        ensures
            r.done == 0,
            r.mesh@.len() == 0,
            r.android is None,
    {
        ProfileScan { done: 0, mesh: Vec::new(), android: None }
    }

    /// Goes on to the next profile that matters.
    pub fn observe_zero_trust(
        self,
        desired: &DesiredZeroTrustState,
        runtime: &ZeroTrustRuntimeInputs,
        profiles: &Vec<DeviceProfile>,
    ) -> (r: (ProfileScan, ScanAsk))
        requires
            self.done <= profiles@.len(),
        ensures
            r.0.mesh == self.mesh,
            r.0.android == self.android,
            scan_goes(
                desired.mesh_profile,
                *runtime,
                profiles@,
                self.done as int,
                r.0.done as int,
                r.1,
            ),
    {
        let mut at: usize = self.done;
        while at < profiles.len()
            invariant
                self.done <= at <= profiles@.len(),
                forall|k: int|
                    self.done <= k < at ==> !mesh_match(
                        desired.mesh_profile,
                        #[trigger] profiles@[k],
                    ) && !android_match(*runtime, profiles@[k]),
            decreases profiles@.len() - at,
        {
            let includes: bool = is_mesh_match(&desired.mesh_profile, &profiles[at]);
            let excludes: bool = same(
                profiles[at].id.as_str(),
                runtime.android_profile_id.as_str(),
            );
            if includes || excludes {
                return (
                    ProfileScan { done: at, ..self },
                    ScanAsk::Entries { includes, excludes },
                );
            }
            at = at + 1;
        }
        (ProfileScan { done: at, ..self }, ScanAsk::Finished)
    }

    /// Takes the tunnel entries of a profile into account. The Android device
    /// may have only one profile.
    pub fn observed(
        self,
        profile: &DeviceProfile,
        includes: bool,
        excludes: bool,
        include_entries: &Vec<SplitTunnelEntry>,
        exclude_entries: &Vec<SplitTunnelEntry>,
    ) -> (r: Result<ProfileScan, String>)
        requires
            self.done < usize::MAX,
        ensures
            match r {
                Err(e) => excludes && self.android is Some && e@
                    == "Android profile runtime authority resolved more than once"@,
                Ok(after) => {
                    &&& !(excludes && self.android is Some)
                    &&& after.done == self.done + 1
                    &&& if includes {
                        &&& after.mesh@.len() == self.mesh@.len() + 1
                        &&& after.mesh@.drop_last() == self.mesh@
                        &&& seen_profile(
                            *profile,
                            include_entries@,
                            exclude_entries@,
                            after.mesh@.last(),
                        )
                    } else {
                        after.mesh == self.mesh
                    }
                    &&& if excludes {
                        after.android matches Some(o) && seen_profile(
                            *profile,
                            include_entries@,
                            exclude_entries@,
                            o,
                        )
                    } else {
                        after.android == self.android
                    }
                },
            },
    {
        if excludes && self.android.is_some() {
            return Err("Android profile runtime authority resolved more than once".to_owned());
        }
        let ProfileScan { done, mut mesh, android } = self;
        let ghost before = mesh@;
        if includes {
            mesh.push(observed_profile(profile, include_entries, exclude_entries));
            assert(mesh@.drop_last() =~= before);
        }
        let android: Option<ObservedDeviceProfile> = if excludes {
            Some(observed_profile(profile, include_entries, exclude_entries))
        } else {
            android
        };
        Ok(ProfileScan { done: done + 1, mesh, android })
    }
}

/// The precedences that profiles have, in their order.
pub open spec fn precedences(profiles: Seq<DeviceProfile>) -> Seq<u64>
    decreases profiles.len(),
{
    if profiles.len() == 0 {
        Seq::empty()
    } else {
        match profiles.last().precedence {
            Some(n) => precedences(profiles.drop_last()).push(n),
            None => precedences(profiles.drop_last()),
        }
    }
}

/// The precedences that profiles have.
pub fn profile_precedences(profiles: &Vec<DeviceProfile>) -> (r: Vec<u64>)
    ensures
        r@ == precedences(profiles@),
{
    let mut out: Vec<u64> = Vec::new();
    let mut i: usize = 0;
    while i < profiles.len()
        invariant
            i <= profiles@.len(),
            out@ == precedences(profiles@.take(i as int)),
        decreases profiles@.len() - i,
    {
        assert(profiles@.take(i + 1).drop_last() =~= profiles@.take(i as int));
        match profiles[i].precedence {
            Some(n) => {
                out.push(n);
            },
            None => {},
        }
        i = i + 1;
    }
    assert(profiles@.take(i as int) =~= profiles@);
    out
}

/// A gateway rule as the provider reports it.
#[derive(Debug, PartialEq, Eq)]
pub struct GatewayRule {
    pub id: String,
    pub name: String,
    pub action: String,
    pub precedence: Option<u64>,
    pub enabled: Option<bool>,
    pub filters: Vec<String>,
    pub traffic: Option<String>,
    pub identity: Option<String>,
    pub device_posture: Option<String>,
}

/// A gateway rule as it was observed. Its identity expression is kept only as
/// a digest.
#[derive(Debug, PartialEq, Eq)]
pub struct ObservedGatewayRule {
    pub provider_id: String,
    pub name: String,
    pub action: String,
    pub precedence: Option<u64>,
    pub enabled: Option<bool>,
    pub filters: Vec<String>,
    pub traffic: Option<String>,
    pub identity_sha256: Option<String>,
    pub device_posture: Option<String>,
}

fn normal_option(value: &Option<String>) -> (r: Option<String>)
    ensures
        r.deep_view() == match *value {
            Some(t) => Some(normal_expression(t@)),
            None => None,
        },
{
    match value {
        Some(t) => Some(normalize_expression(t.as_str())),
        None => None,
    }
}

/// A rule on the state of devices, as the provider reports it.
#[derive(Debug, PartialEq, Eq)]
pub struct PostureRule {
    pub id: String,
    pub rule_type: String,
    pub platforms: Vec<String>,
}

/// A rule on the state of devices, as it was observed.
#[derive(Debug, PartialEq, Eq)]
pub struct ObservedPostureRule {
    pub provider_id: String,
    pub rule_type: String,
    pub platforms: Vec<String>,
}

/// What was seen of an account's configuration.
#[derive(Debug, PartialEq, Eq)]
pub struct ZeroTrustObservation {
    pub connector_names: Vec<String>,
    pub mesh_profile_matches: Vec<ObservedDeviceProfile>,
    pub profile_precedences: Vec<u64>,
    pub android_profile: Option<ObservedDeviceProfile>,
    pub posture_rules: Vec<ObservedPostureRule>,
    pub gateway_rules: Vec<ObservedGatewayRule>,
}

/// How a rule on the state of devices is read.
pub open spec fn seen_posture_rule(rule: PostureRule) -> ObservedPostureRule {
    ObservedPostureRule {
        provider_id: rule.id,
        rule_type: rule.rule_type,
        platforms: rule.platforms,
    }
}

impl ProfileScan {
    /// Completes what was seen, once all profiles are gone through.
    pub fn complete(
        self,
        connector_names: Vec<String>,
        profiles: &Vec<DeviceProfile>,
        posture_rules: Vec<PostureRule>,
        gateway_rules: Vec<ObservedGatewayRule>,
    ) -> (r: ZeroTrustObservation)
        ensures
            r.connector_names == connector_names,
            r.mesh_profile_matches == self.mesh,
            r.profile_precedences@ == precedences(profiles@),
            r.android_profile == self.android,
            r.posture_rules@ == posture_rules@.map_values(|x: PostureRule| seen_posture_rule(x)),
            r.gateway_rules == gateway_rules,
    {
        let ghost all = posture_rules@;
        let ghost seen = |x: PostureRule| seen_posture_rule(x);
        let mut left: Vec<PostureRule> = posture_rules;
        let mut out: Vec<ObservedPostureRule> = Vec::new();
        while left.len() > 0
            invariant
                out@.len() <= all.len(),
                left@ == all.skip(out@.len() as int),
                seen == (|x: PostureRule| seen_posture_rule(x)),
                out@ == all.take(out@.len() as int).map_values(seen),
            decreases left@.len(),
        {
            let ghost n = out@.len() as int;
            let rule: PostureRule = left.remove(0);
            assert(rule == all[n]);
            out.push(
                ObservedPostureRule {
                    provider_id: rule.id,
                    rule_type: rule.rule_type,
                    platforms: rule.platforms,
                },
            );
            assert(left@ =~= all.skip(n + 1));
            assert(out@ =~= all.take(n + 1).map_values(seen));
        }
        assert(all.take(out@.len() as int) =~= all);
        ZeroTrustObservation {
            connector_names,
            mesh_profile_matches: self.mesh,
            profile_precedences: profile_precedences(profiles),
            android_profile: self.android,
            posture_rules: out,
            gateway_rules,
        }
    }
}

/// Reads a gateway rule.
pub fn observed_gateway_rule(rule: &GatewayRule) -> (r: ObservedGatewayRule)
    requires
        rule.identity matches Some(t) ==> digestible(t@),
    ensures
        r.provider_id == rule.id,
        r.name == rule.name,
        r.action == rule.action,
        r.precedence == rule.precedence,
        r.enabled == rule.enabled,
        r.filters@ == rule.filters@,
        r.traffic.deep_view() == match rule.traffic {
            Some(t) => Some(normal_expression(t@)),
            None => None,
        },
        r.identity_sha256.deep_view() == match rule.identity {
            Some(t) => Some(expression_digest(t@)),
            None => None,
        },
        r.device_posture.deep_view() == match rule.device_posture {
            Some(t) => Some(normal_expression(t@)),
            None => None,
        },
{
    ObservedGatewayRule {
        provider_id: rule.id.clone(),
        name: rule.name.clone(),
        action: rule.action.clone(),
        precedence: rule.precedence,
        enabled: rule.enabled,
        filters: copy_texts(&rule.filters),
        traffic: normal_option(&rule.traffic),
        identity_sha256: match &rule.identity {
            Some(t) => Some(expression_sha256(t.as_str())),
            None => None,
        },
        device_posture: normal_option(&rule.device_posture),
    }
}

/// What can be asked of `edge-controller cloudflare-zero-trust`.
pub const ZERO_TRUST_USAGE: &'static str =
    "usage:\n  edge-controller cloudflare-zero-trust doctor <guardrails-path>\n  edge-controller cloudflare-zero-trust inventory <spec-path>\n  edge-controller cloudflare-zero-trust plan <spec-path>\n  edge-controller cloudflare-zero-trust apply <spec-path> <authorized-plan-sha256>\n  edge-controller cloudflare-zero-trust verify <spec-path>";

/// A command of `edge-controller cloudflare-zero-trust`.
#[derive(Debug, Clone, Copy, PartialEq, Eq, Structural)]
pub enum ZeroTrustCommand {
    Doctor,
    Inventory,
    Plan,
    Apply,
    Verify,
}

/// The command that goes by a word.
pub open spec fn zero_trust_command_named(word: Seq<char>) -> Option<ZeroTrustCommand> {
    if word == "doctor"@ {
        Some(ZeroTrustCommand::Doctor)
    } else if word == "inventory"@ {
        Some(ZeroTrustCommand::Inventory)
    } else if word == "plan"@ {
        Some(ZeroTrustCommand::Plan)
    } else if word == "apply"@ {
        Some(ZeroTrustCommand::Apply)
    } else if word == "verify"@ {
        Some(ZeroTrustCommand::Verify)
    } else {
        None
    }
}

/// How many words may follow a command.
pub open spec fn zero_trust_command_takes(command: ZeroTrustCommand, words: nat) -> bool {
    match command {
        ZeroTrustCommand::Doctor => words == 1,
        ZeroTrustCommand::Inventory => words == 1,
        ZeroTrustCommand::Plan => words == 1,
        ZeroTrustCommand::Apply => words == 2,
        ZeroTrustCommand::Verify => words == 1,
    }
}

/// The sentence for a command with too few or too many words.
pub open spec fn zero_trust_command_usage(command: ZeroTrustCommand) -> Seq<char> {
    match command {
        ZeroTrustCommand::Doctor => "usage: edge-controller cloudflare-zero-trust doctor <guardrails-path>"@,
        ZeroTrustCommand::Inventory => "usage: edge-controller cloudflare-zero-trust inventory <spec-path>"@,
        ZeroTrustCommand::Plan => "usage: edge-controller cloudflare-zero-trust plan <spec-path>"@,
        ZeroTrustCommand::Apply => "usage: edge-controller cloudflare-zero-trust apply <spec-path> <authorized-plan-sha256>"@,
        ZeroTrustCommand::Verify => "usage: edge-controller cloudflare-zero-trust verify <spec-path>"@,
    }
}

fn zero_trust_command_of(word: &str) -> (r: Option<ZeroTrustCommand>)
    ensures
        r == zero_trust_command_named(word@),
{
    if same(word, "doctor") {
        Some(ZeroTrustCommand::Doctor)
    } else if same(word, "inventory") {
        Some(ZeroTrustCommand::Inventory)
    } else if same(word, "plan") {
        Some(ZeroTrustCommand::Plan)
    } else if same(word, "apply") {
        Some(ZeroTrustCommand::Apply)
    } else if same(word, "verify") {
        Some(ZeroTrustCommand::Verify)
    } else {
        None
    }
}

fn zero_trust_command_usage_line(command: ZeroTrustCommand) -> (r: &'static str)
    ensures
        r@ == zero_trust_command_usage(command),
{
    match command {
        ZeroTrustCommand::Doctor => "usage: edge-controller cloudflare-zero-trust doctor <guardrails-path>",
        ZeroTrustCommand::Inventory => "usage: edge-controller cloudflare-zero-trust inventory <spec-path>",
        ZeroTrustCommand::Plan => "usage: edge-controller cloudflare-zero-trust plan <spec-path>",
        ZeroTrustCommand::Apply => "usage: edge-controller cloudflare-zero-trust apply <spec-path> <authorized-plan-sha256>",
        ZeroTrustCommand::Verify => "usage: edge-controller cloudflare-zero-trust verify <spec-path>",
    }
}

fn zero_trust_command_accepts(command: ZeroTrustCommand, words: usize) -> (r: bool)
    ensures
        r == zero_trust_command_takes(command, words as nat),
{
    match command {
        ZeroTrustCommand::Doctor => words == 1,
        ZeroTrustCommand::Inventory => words == 1,
        ZeroTrustCommand::Plan => words == 1,
        ZeroTrustCommand::Apply => words == 2,
        ZeroTrustCommand::Verify => words == 1,
    }
}

/// Whether `result` is what the words ask for: the command that the first of
/// them names, where it takes as many words as follow, else what is wrong.
pub open spec fn zero_trust_command_reads(args: Seq<Seq<char>>, result: Result<ZeroTrustCommand, Seq<char>>) -> bool {
    if args.len() == 0 {
        result == Err::<ZeroTrustCommand, Seq<char>>(ZERO_TRUST_USAGE@)
    } else {
        match zero_trust_command_named(args[0]) {
            None => result == Err::<ZeroTrustCommand, Seq<char>>(ZERO_TRUST_USAGE@),
            Some(command) => if zero_trust_command_takes(command, (args.len() - 1) as nat) {
                result == Ok::<ZeroTrustCommand, Seq<char>>(command)
            } else {
                result == Err::<ZeroTrustCommand, Seq<char>>(zero_trust_command_usage(command))
            },
        }
    }
}

/// Reads what is asked for. The words that follow the first are the command's.
pub fn read_zero_trust_command(args: &Vec<String>) -> (r: Result<ZeroTrustCommand, String>)
    ensures
        match r {
            Ok(command) => zero_trust_command_reads(texts(args@), Ok(command)),
            Err(e) => zero_trust_command_reads(texts(args@), Err(e@)),
        },
{
    if args.len() == 0 {
        return Err(ZERO_TRUST_USAGE.to_owned());
    }
    assert(texts(args@)[0] == args@[0]@);
    match zero_trust_command_of(args[0].as_str()) {
        None => Err(ZERO_TRUST_USAGE.to_owned()),
        Some(command) => {
            if zero_trust_command_accepts(command, args.len() - 1) {
                Ok(command)
            } else {
                Err(zero_trust_command_usage_line(command).to_owned())
            }
        },
    }
}

/// What can be asked of `edge-controller cloudflare-zero-trust`.
pub fn usage() -> (r: String)
    ensures
        r@ == ZERO_TRUST_USAGE@,
{
    ZERO_TRUST_USAGE.to_owned()
}

/// Whether the provider reports a gateway rule back as it was written.
pub open spec fn reports_gateway(rule: GatewayRule, write: GatewayRuleWrite) -> bool {
    &&& rule.name@ == write.name@
    &&& rule.action@ == write.action@
    &&& rule.precedence == Some(write.precedence)
    &&& rule.enabled == Some(write.enabled)
    &&& texts(rule.filters@) == texts(write.filters@)
    &&& rule.traffic matches Some(t) && t@ == write.traffic@
    &&& rule.identity matches Some(t) && t@ == write.identity@
    &&& rule.device_posture matches Some(t) && t@ == write.device_posture@
}

/// The gateway rule that an authorized plan writes lets the device in: it is
/// enabled and allows. Reported back as it was written, it passes with the
/// doctor as a rule that allows the mesh's traffic, and never as one that blocks
/// it.
pub proof fn law_the_gateway_rule_lets_the_device_in(
    desired: DesiredZeroTrustState,
    runtime: ZeroTrustRuntimeInputs,
    action: ZeroTrustAction,
    traffic: Result<String, String>,
    request: ZeroTrustRequest,
    write: GatewayRuleWrite,
    rule: GatewayRule,
    cidr: Seq<char>,
)
    requires
        action is CreateGatewayAllow || action is UpdateGatewayAllow,
        call_ensures(
            apply_zero_trust_once,
            (&desired, &runtime, Ok::<(), String>(()), &action, traffic),
            Ok::<Option<ZeroTrustRequest>, String>(Some(request)),
        ),
        request == ZeroTrustRequest::CreateGateway(write) || (
        request matches ZeroTrustRequest::UpdateGateway { write: w, .. } && w == write),
        reports_gateway(rule, write),
        has_part(write.traffic@, cidr),
    ensures
        write.enabled,
        write.action@ == "allow"@,
        mesh_rule(rule, "allow"@, cidr),
        !mesh_rule(rule, "block"@, cidr),
        traffic matches Ok(t) && write.traffic@ == t@,
        write.name@ == desired.gateway_allow.name@,
        write.precedence == match action {
            ZeroTrustAction::CreateGatewayAllow { precedence, .. } => precedence,
            ZeroTrustAction::UpdateGatewayAllow { precedence, .. } => precedence,
            _ => 0,
        },
        request is CreateGateway <==> action is CreateGatewayAllow,
{
    reveal_strlit("allow");
    reveal_strlit("block");
    assert(lowered("allow"@).len() == 5);
    assert(lowered("allow"@)[0] == lower('a'));
    assert(lowered("block"@)[0] == lower('b'));
}

/// The rule lets in only the identity that was authorized: what the provider
/// reports of it has the digest that the runtime's authority holds.
pub proof fn law_the_gateway_rule_is_for_the_authorized_identity(
    android_profile_id: String,
    identity_email: String,
    runtime: ZeroTrustRuntimeInputs,
    desired: DesiredZeroTrustState,
    precedence: u64,
    posture_rule_id: &str,
    traffic: Result<String, String>,
    write: GatewayRuleWrite,
    rule: GatewayRule,
    seen: ObservedGatewayRule,
)
    requires
        call_ensures(
            ZeroTrustRuntimeInputs::new,
            (android_profile_id, identity_email),
            Ok::<ZeroTrustRuntimeInputs, String>(runtime),
        ),
        call_ensures(
            gateway_request,
            (&desired, &runtime, precedence, posture_rule_id, traffic),
            Ok::<GatewayRuleWrite, String>(write),
        ),
        reports_gateway(rule, write),
        call_ensures(observed_gateway_rule, (&rule,), seen),
    ensures
        seen.identity_sha256 matches Some(d) && d@ == runtime.authority.identity_sha256@,
        seen.action@ == "allow"@,
        seen.enabled == Some(true),
        seen.precedence == Some(precedence),
        seen.name@ == desired.gateway_allow.name@,
        runtime.identity_email@ == identity_email@,
        has_part(write.identity@, identity_email@),
        has_part(write.device_posture@, posture_rule_id@),
        texts(seen.filters@) == seq!["l4"@],
{
    let head = "identity.email == \""@;
    let email = identity_email@;
    let i = head.len() as int;
    assert(write.identity@.subrange(i, i + email.len()) =~= email);
    assert(stands_at(write.identity@, email, i));
    let front = "any(device_posture.checks.passed[*] in {\""@;
    let id = posture_rule_id@;
    let j = front.len() as int;
    assert(write.device_posture@.subrange(j, j + id.len()) =~= id);
    assert(stands_at(write.device_posture@, id, j));
}

/// Nothing is sent without the authority for it, and nothing where there is
/// nothing to do; otherwise the one request that carries the action out, to the
/// very profile or rule that the action names.
pub proof fn law_one_authorized_request_is_sent(
    desired: DesiredZeroTrustState,
    runtime: ZeroTrustRuntimeInputs,
    authority: Result<(), String>,
    action: ZeroTrustAction,
    traffic: Result<String, String>,
    r: Result<Option<ZeroTrustRequest>, String>,
)
    requires
        call_ensures(
            apply_zero_trust_once,
            (&desired, &runtime, authority, &action, traffic),
            r,
        ),
    ensures
        authority matches Err(e) ==> r == Err::<Option<ZeroTrustRequest>, String>(e),
        r matches Ok(Some(_)) ==> authority is Ok && !(action is Noop),
        authority is Ok && action is Noop ==> r == Ok::<Option<ZeroTrustRequest>, String>(None),
        r matches Ok(Some(request)) ==> match action {
            ZeroTrustAction::Noop => false,
            ZeroTrustAction::CreateMeshProfile { precedence } => request matches
                ZeroTrustRequest::CreateProfile(w) && w.precedence == precedence
                && w.includes is Some,
            ZeroTrustAction::UpdateMeshProfile { profile_id, precedence } => request matches
                ZeroTrustRequest::UpdateProfile { profile_id: id, write: w } && id@ == profile_id@
                && w.precedence == precedence && w.includes is None,
            ZeroTrustAction::SetMeshIncludes { profile_id, entries } => request matches
                ZeroTrustRequest::SetIncludes { profile_id: id, entries: e } && id@ == profile_id@
                && e@ == entries@,
            ZeroTrustAction::SetAndroidExcludes { profile_id, entries } => request matches
                ZeroTrustRequest::SetExcludes { profile_id: id, entries: e } && id@ == profile_id@
                && e@ == entries@,
            ZeroTrustAction::CreateGatewayAllow { .. } => request is CreateGateway,
            ZeroTrustAction::UpdateGatewayAllow { rule_id, .. } => request matches
                ZeroTrustRequest::UpdateGateway { rule_id: id, .. } && id@ == rule_id@,
        },
        authority is Ok && (action is CreateMeshProfile || action is UpdateMeshProfile
            || action is SetMeshIncludes || action is SetAndroidExcludes) ==> (r matches Ok(Some(
            _,
        ))),
        authority is Ok && (action matches ZeroTrustAction::CreateGatewayAllow {
            posture_rule_id,
            ..
        } && !blank(posture_rule_id@)) && traffic is Ok ==> (r matches Ok(Some(_))),
        authority is Ok && (action matches ZeroTrustAction::CreateGatewayAllow {
            posture_rule_id,
            ..
        } && blank(posture_rule_id@)) ==> r is Err,
        authority is Ok && (action is CreateGatewayAllow || action is UpdateGatewayAllow)
            && traffic is Err ==> r is Err,
{
}

/// Whether the provider reports a profile back as it was written.
pub open spec fn reports_profile(profile: DeviceProfile, write: DeviceProfileWrite) -> bool {
    &&& profile.name@ == write.name@
    &&& profile.enabled == Some(write.enabled)
    &&& profile.precedence == Some(write.precedence)
    &&& profile.match_expression matches Some(m) && m@ == write.match_expression@
    &&& profile.service_mode matches Some(m) && m@ == write.service_mode@
    &&& profile.tunnel_protocol matches Some(m) && m@ == write.tunnel_protocol@
}

/// A profile for the mesh that was written, and is reported back so, is found
/// again by the next look, is enabled, has the wanted mode and protocol, and,
/// where it is new, takes every wanted network into the tunnel.
pub proof fn law_a_written_profile_is_found_again(
    desired: DesiredZeroTrustState,
    runtime: ZeroTrustRuntimeInputs,
    precedence: u64,
    include_on_create: bool,
    write: DeviceProfileWrite,
    profile: DeviceProfile,
    profiles: Vec<DeviceProfile>,
    scan: ProfileScan,
    r: (ProfileScan, ScanAsk),
)
    requires
        call_ensures(mesh_profile_request, (&desired, precedence, include_on_create), write),
        reports_profile(profile, write),
        scan.done < profiles@.len(),
        profiles@[scan.done as int] == profile,
        call_ensures(
            ProfileScan::observe_zero_trust,
            (scan, &desired, &runtime, &profiles),
            r,
        ),
    ensures
        r.0.done == scan.done,
        r.1 matches ScanAsk::Entries { includes, .. } && includes,
        write.enabled,
        write.precedence == precedence,
        profile.service_mode matches Some(m) && m@ == desired.mesh_profile.service_mode@,
        profile.tunnel_protocol matches Some(m) && m@ == desired.mesh_profile.tunnel_protocol@,
        write.includes is Some <==> include_on_create,
        write.includes matches Some(entries) ==> entries@.len()
            == desired.mesh_profile.include_cidrs@.len() && forall|k: int|
            0 <= k < entries@.len() ==> ((#[trigger] entries@[k]).address matches Some(a) && a@
                == desired.mesh_profile.include_cidrs@[k]@),
{
    assert(mesh_match(desired.mesh_profile, profiles@[scan.done as int]));
    if write.includes is Some {
        let entries = write.includes->Some_0@;
        assert forall|k: int| 0 <= k < entries.len() implies ((
        #[trigger] entries[k]).address matches Some(a) && a@
            == desired.mesh_profile.include_cidrs@[k]@) by {
            assert(mesh_entry(desired.mesh_profile.include_cidrs@[k], entries[k]));
        }
    }
}

/// The scan stops at exactly the profiles that matter: those with the mesh's
/// name or its expression, and the Android device's.
pub proof fn law_no_profile_that_matters_is_passed_over(
    desired: DesiredZeroTrustState,
    runtime: ZeroTrustRuntimeInputs,
    profiles: Vec<DeviceProfile>,
    scan: ProfileScan,
    r: (ProfileScan, ScanAsk),
    k: int,
)
    requires
        scan.done <= k < profiles@.len(),
        call_ensures(
            ProfileScan::observe_zero_trust,
            (scan, &desired, &runtime, &profiles),
            r,
        ),
    ensures
        profiles@[k].name@ == desired.mesh_profile.name@ ==> r.0.done <= k,
        profiles@[k].match_expression matches Some(m) ==> (m@
            == desired.mesh_profile.match_expression@ ==> r.0.done <= k),
        profiles@[k].id@ == runtime.android_profile_id@ ==> r.0.done <= k,
        r.1 is Finished <==> r.0.done == profiles@.len(),
        k == r.0.done ==> (r.1 matches ScanAsk::Entries { includes, excludes } && (excludes
            <==> profiles@[k].id@ == runtime.android_profile_id@) && (includes
            <==> profiles@[k].name@ == desired.mesh_profile.name@ || (
        profiles@[k].match_expression matches Some(m) && m@
            == desired.mesh_profile.match_expression@))),
{
    if k < r.0.done {
        assert(!mesh_match(desired.mesh_profile, profiles@[k]));
        assert(!android_match(runtime, profiles@[k]));
    }
}

/// A performed action is completed exactly where the next plan no longer asks
/// for the same to the same profile or rule.
pub proof fn law_an_action_is_done_once_the_plan_has_moved_on(
    performed: ZeroTrustAction,
    next: ZeroTrustAction,
    r: bool,
    verified: Result<(), String>,
)
    requires
        call_ensures(action_completed, (&performed, &next), r),
        call_ensures(verify_zero_trust, (&next, ""), verified),
    ensures
        next is Noop ==> r,
        next is Noop <==> verified is Ok,
        match (performed, next) {
            (ZeroTrustAction::UpdateMeshProfile { profile_id: a, .. },
                ZeroTrustAction::UpdateMeshProfile { profile_id: b, .. },
            ) => r <==> a@ != b@,
            (ZeroTrustAction::SetMeshIncludes { profile_id: a, .. },
                ZeroTrustAction::SetMeshIncludes { profile_id: b, .. },
            ) => r <==> a@ != b@,
            (ZeroTrustAction::SetAndroidExcludes { profile_id: a, .. },
                ZeroTrustAction::SetAndroidExcludes { profile_id: b, .. },
            ) => r <==> a@ != b@,
            (ZeroTrustAction::UpdateGatewayAllow { rule_id: a, .. },
                ZeroTrustAction::UpdateGatewayAllow { rule_id: b, .. },
            ) => r <==> a@ != b@,
            (ZeroTrustAction::CreateMeshProfile { .. }, ZeroTrustAction::CreateMeshProfile { .. },
            ) => !r,
            (ZeroTrustAction::CreateGatewayAllow { .. }, ZeroTrustAction::CreateGatewayAllow { .. },
            ) => !r,
            (ZeroTrustAction::CreateMeshProfile { .. }, _) => r,
            (ZeroTrustAction::UpdateMeshProfile { .. }, _) => r,
            (ZeroTrustAction::SetMeshIncludes { .. }, _) => r,
            (ZeroTrustAction::SetAndroidExcludes { .. }, _) => r,
            (ZeroTrustAction::CreateGatewayAllow { .. }, _) => r,
            (ZeroTrustAction::UpdateGatewayAllow { .. }, _) => r,
            _ => r,
        },
{
}

/// An address that is accepted cannot break out of the expression that it is
/// put into: it is not empty, has an at sign, no white space at its ends, and
/// neither quotes nor backslashes nor control characters.
pub proof fn law_accepted_addresses_stay_in_their_quotes(value: &str, r: Result<(), String>, k: int)
    requires
        call_ensures(validate_identity_email, (value,), r),
        0 <= k < value@.len(),
    ensures
        r is Ok ==> value@[k] != '"' && value@[k] != '\\' && value@[k] != '\n' && value@[k]
            != '\t' && value@[k] as u32 >= 0x20 && value@[k] as u32 != 0x7F,
        r is Ok ==> value@.contains('@') && !is_white_space(value@[0]) && !is_white_space(
            value@.last(),
        ),
        (forall|i: int| 0 <= i < value@.len() ==> '!' <= #[trigger] value@[i] <= '~') && (forall|
            i: int,
        |
            0 <= i < value@.len() ==> #[trigger] value@[i] != '"' && value@[i] != '\\')
            && value@.contains('@') ==> r is Ok,
{
    lemma_trimmed_same(value@);
    if r is Ok {
        assert(!is_control(value@[k]));
    }
    if (forall|i: int| 0 <= i < value@.len() ==> '!' <= #[trigger] value@[i] <= '~') && (forall|
        i: int,
    |
        0 <= i < value@.len() ==> #[trigger] value@[i] != '"' && value@[i] != '\\')
        && value@.contains('@') {
        assert('!' <= value@[0] <= '~');
        assert('!' <= value@[value@.len() - 1] <= '~');
        assert forall|i: int| 0 <= i < value@.len() implies !is_control(#[trigger] value@[i])
            && value@[i] != '"' && value@[i] != '\\' by {
            assert('!' <= value@[i] <= '~');
        }
    }
}

/// An Android profile that turns up twice is refused, and a profile that was
/// looked at is kept, with its own name and entries, where it matters.
pub proof fn law_profiles_looked_at_are_kept(
    scan: ProfileScan,
    profile: DeviceProfile,
    includes: bool,
    excludes: bool,
    kept: Vec<SplitTunnelEntry>,
    left_out: Vec<SplitTunnelEntry>,
    r: Result<ProfileScan, String>,
)
    requires
        scan.done < usize::MAX,
        call_ensures(
            ProfileScan::observed,
            (scan, &profile, includes, excludes, &kept, &left_out),
            r,
        ),
    ensures
        r is Err <==> excludes && scan.android is Some,
        r matches Ok(after) ==> {
            &&& after.done == scan.done + 1
            &&& includes ==> after.mesh@.len() == scan.mesh@.len() + 1
                && after.mesh@.last().provider_id@ == profile.id@ && after.mesh@.last().includes@
                == kept@
            &&& !includes ==> after.mesh == scan.mesh
            &&& excludes ==> (after.android matches Some(o) && o.provider_id@ == profile.id@
                && o.excludes@ == left_out@ && o.enabled == profile.enabled)
            &&& !excludes ==> after.android == scan.android
        },
{
}

/// A plan to do nothing is authorized as such, and every other plan as a
/// change.
pub proof fn law_only_doing_nothing_changes_nothing(
    desired: DesiredZeroTrustState,
    runtime: RuntimeAuthority,
    observed: ZeroTrustObservation,
    action: ZeroTrustAction,
    r: ZeroTrustMaterial,
)
    requires
        call_ensures(authorize_zero_trust_apply, (&desired, &runtime, &observed, &action), r),
    ensures
        r.disposition is Noop <==> action is Noop,
        r.disposition is Mutate <==> !(action is Noop),
        *r.plan == action,
        *r.observed == observed,
        *r.desired.desired == desired,
        *r.desired.runtime_authority == runtime,
{
}

/// The commands are told apart by their words, and each takes its arguments and
/// no others: only an apply takes the digest that authorizes it.
pub proof fn law_zero_trust_commands_take_their_arguments(
    args: Vec<String>,
    r: Result<ZeroTrustCommand, String>,
)
    requires
        call_ensures(read_zero_trust_command, (&args,), r),
    ensures
        r matches Ok(command) ==> {
            &&& args@.len() >= 2
            &&& command is Apply <==> args@.len() == 3
            &&& args@.len() <= 3
            &&& command is Apply <==> args@[0]@ == "apply"@
            &&& command is Plan <==> args@[0]@ == "plan"@
            &&& command is Verify <==> args@[0]@ == "verify"@
            &&& command is Doctor <==> args@[0]@ == "doctor"@
            &&& command is Inventory <==> args@[0]@ == "inventory"@
        },
        args@.len() == 3 && args@[0]@ == "apply"@ ==> r is Ok,
        args@.len() == 2 && (args@[0]@ == "plan"@ || args@[0]@ == "verify"@ || args@[0]@
            == "doctor"@ || args@[0]@ == "inventory"@) ==> r is Ok,
{
    reveal_strlit("doctor");
    reveal_strlit("inventory");
    reveal_strlit("plan");
    reveal_strlit("apply");
    reveal_strlit("verify");
    assert("doctor"@[0] == 'd' && "verify"@[0] == 'v');
    let all = texts(args@);
    assert(all.len() == args@.len());
    if args@.len() > 0 {
        assert(all[0] == args@[0]@);
    }
}

proof fn lemma_precedences(profiles: Seq<DeviceProfile>, n: u64)
    ensures
        precedences(profiles).contains(n) <==> exists|i: int|
            0 <= i < profiles.len() && (#[trigger] profiles[i]).precedence == Some(n),
    decreases profiles.len(),
{
    if profiles.len() > 0 {
        let head = profiles.drop_last();
        let last = profiles[profiles.len() - 1];
        lemma_precedences(head, n);
        let before = precedences(head);
        if before.contains(n) {
            let i = choose|i: int|
                0 <= i < head.len() && (#[trigger] head[i]).precedence == Some(n);
            assert(profiles[i].precedence == Some(n));
            let k = choose|k: int| 0 <= k < before.len() && before[k] == n;
            assert(precedences(profiles)[k] == n);
        }
        if let Some(m) = last.precedence {
            let all = before.push(m);
            assert(all[before.len() as int] == m);
            if all.contains(n) && !before.contains(n) {
                let k = choose|k: int| 0 <= k < all.len() && all[k] == n;
                assert(k == before.len()) by {
                    if k < before.len() {
                        assert(before[k] == n);
                    }
                }
                assert(last.precedence == Some(n));
            }
        }
        if exists|i: int|
            0 <= i < profiles.len() && (#[trigger] profiles[i]).precedence == Some(n) {
            let i = choose|i: int|
                0 <= i < profiles.len() && (#[trigger] profiles[i]).precedence == Some(n);
            if i < head.len() {
                assert(head[i] == profiles[i]);
            }
        }
    }
}

/// The precedences that are taken are those of the profiles there are.
pub proof fn law_taken_precedences_are_those_of_the_profiles(
    profiles: Vec<DeviceProfile>,
    r: Vec<u64>,
    n: u64,
)
    requires
        call_ensures(profile_precedences, (&profiles,), r),
    ensures
        r@.contains(n) <==> exists|i: int|
            0 <= i < profiles@.len() && (#[trigger] profiles@[i]).precedence == Some(n),
{
    lemma_precedences(profiles@, n);
}

/// A profile is seen as it is reported, with the networks that were asked for
/// beside it.
pub proof fn law_a_profile_is_seen_as_it_is_reported(
    profile: DeviceProfile,
    includes: Vec<SplitTunnelEntry>,
    excludes: Vec<SplitTunnelEntry>,
    r: ObservedDeviceProfile,
)
    requires
        call_ensures(observed_profile, (&profile, &includes, &excludes), r),
    ensures
        r.provider_id == profile.id,
        r.name == profile.name,
        r.enabled == profile.enabled,
        r.precedence == profile.precedence,
        r.match_expression == profile.match_expression,
        r.service_mode == profile.service_mode,
        r.tunnel_protocol == profile.tunnel_protocol,
        r.includes@ == includes@,
        r.excludes@ == excludes@,
{
}

/// The authority from outside is complete: without a profile or an address of
/// mail, or with either in a form that cannot be used, there is none.
pub proof fn law_outside_authority_is_complete(
    profile_id_env: &str,
    identity_email_env: &str,
    profile_id: Option<String>,
    identity_email: Option<String>,
    r: Result<ZeroTrustRuntimeInputs, String>,
)
    requires
        call_ensures(
            runtime_inputs,
            (profile_id_env, identity_email_env, profile_id, identity_email),
            r,
        ),
    ensures
        profile_id is None ==> r is Err,
        identity_email is None ==> r is Err,
        profile_id matches Some(id) ==> (blank(id@) ==> r is Err),
        identity_email matches Some(m) ==> (!m@.contains('@') || trimmed(m@) != m@ || m@.contains(
            '"',
        ) || m@.contains('\\') ==> r is Err),
        r matches Ok(inputs) ==> {
            &&& profile_id == Some(inputs.android_profile_id)
            &&& identity_email == Some(inputs.identity_email)
            &&& profile_id == Some(inputs.authority.android_profile_id)
        },
{
}

} // verus!
