//! Whether an account's Zero Trust configuration is ready for the mesh.
use crate::lists::{lemma_filter_members, lemma_filter_start, lemma_filter_step};
use crate::order::{law_sorting_once_orders_and_keeps, sort_once, sorted_once};
use crate::text::{
    blank, cat2, contains, copy_option, copy_texts, decimal, has_part, holds_text, is_blank,
    is_text, lowered, number, same, same_ignoring_case, stands_at, texts, trim, trimmed,
};
use crate::zero_trust::{DeviceProfile, GatewayRule, SplitTunnelEntry};
use vstd::prelude::*;
use vstd::string::*;

verus! {

/// What an account's configuration is measured by.
#[derive(Debug, PartialEq, Eq)]
pub struct Guardrails {
    pub schema: u32,
    pub account_id: String,
    pub owned_resource_selectors: OwnedResourceSelectors,
    pub zero_trust_boundary: ZeroTrustBoundary,
}

#[derive(Debug, PartialEq, Eq)]
pub struct OwnedResourceSelectors {
    pub mesh_node_name: String,
}

#[derive(Debug, PartialEq, Eq)]
pub struct ZeroTrustBoundary {
    pub generic_warp_connector_selector: String,
    pub required_client_contract: RequiredClientContract,
    pub project_owned_legacy_warp_connector_names: Vec<String>,
    pub manual_prerequisites: Vec<String>,
    pub access_enrollment_required: bool,
    pub gateway_mesh_allow_required: bool,
}

#[derive(Debug, PartialEq, Eq)]
pub struct RequiredClientContract {
    pub service_mode: String,
    pub tunnel_protocol: String,
    pub mesh_cidr: String,
}

/// Why the guardrails cannot be used, if they cannot.
pub open spec fn guardrails_fault(g: Guardrails) -> Option<Seq<char>> {
    if g.schema != 1 {
        Some("unsupported Zero Trust guardrails schema "@ + decimal(g.schema as nat))
    } else if blank(g.account_id@) {
        Some("Cloudflare account ID must be non-empty"@)
    } else if blank(g.zero_trust_boundary.generic_warp_connector_selector@) {
        Some("generic WARP Connector selector must be non-empty"@)
    } else if blank(g.zero_trust_boundary.required_client_contract.mesh_cidr@) {
        Some("Mesh CIDR must be non-empty"@)
    } else {
        None
    }
}

/// Checks the guardrails.
pub fn validate_guardrails(desired: &Guardrails) -> (r: Result<(), String>)
    ensures
        match r {
            Ok(()) => guardrails_fault(*desired) is None,
            Err(e) => guardrails_fault(*desired) == Some(e@),
        },
{
    if desired.schema != 1 {
        return Err(
            cat2(
                "unsupported Zero Trust guardrails schema ",
                number(desired.schema as u64).as_str(),
            ),
        );
    }
    if is_blank(desired.account_id.as_str()) {
        return Err("Cloudflare account ID must be non-empty".to_owned());
    }
    if is_blank(desired.zero_trust_boundary.generic_warp_connector_selector.as_str()) {
        return Err("generic WARP Connector selector must be non-empty".to_owned());
    }
    if is_blank(desired.zero_trust_boundary.required_client_contract.mesh_cidr.as_str()) {
        return Err("Mesh CIDR must be non-empty".to_owned());
    }
    Ok(())
}

/// Whether a text counts as a yes.
pub open spec fn affirmative(value: Option<Seq<char>>) -> bool {
    value matches Some(t) && ({
        let word = trimmed(t);
        word == "1"@ || word == "true"@ || word == "TRUE"@ || word == "yes"@ || word == "YES"@
    })
}

/// Whether what an environment variable holds, if it is set, counts as a yes.
pub fn env_true(value: &Option<String>) -> (r: bool)
    ensures
        r == affirmative(value.deep_view()),
{
    match value {
        None => false,
        Some(t) => {
            let word: &str = trim(t.as_str());
            same(word, "1") || same(word, "true") || same(word, "TRUE") || same(word, "yes")
                || same(word, "YES")
        },
    }
}

/// How the devices of the account reach the network.
#[derive(Debug, PartialEq, Eq)]
pub struct DeviceSettingsReport {
    pub gateway_proxy_enabled: Option<bool>,
    pub gateway_udp_proxy_enabled: Option<bool>,
    pub use_zt_virtual_ip: Option<bool>,
    pub ready: bool,
}

/// Checks the settings of the account's devices: all three must be on.
pub fn report_settings(
    gateway_proxy_enabled: Option<bool>,
    gateway_udp_proxy_enabled: Option<bool>,
    use_zt_virtual_ip: Option<bool>,
) -> (r: DeviceSettingsReport)
    ensures
        r.gateway_proxy_enabled == gateway_proxy_enabled,
        r.gateway_udp_proxy_enabled == gateway_udp_proxy_enabled,
        r.use_zt_virtual_ip == use_zt_virtual_ip,
        r.ready == (gateway_proxy_enabled == Some(true) && gateway_udp_proxy_enabled == Some(true)
            && use_zt_virtual_ip == Some(true)),
{
    let ready: bool = match (gateway_proxy_enabled, gateway_udp_proxy_enabled, use_zt_virtual_ip) {
        (Some(true), Some(true), Some(true)) => true,
        _ => false,
    };
    DeviceSettingsReport {
        gateway_proxy_enabled,
        gateway_udp_proxy_enabled,
        use_zt_virtual_ip,
        ready,
    }
}

/// The nodes that connect the account's network.
#[derive(Debug, PartialEq, Eq)]
pub struct ConnectorReport {
    pub current_names: Vec<String>,
    pub project_owned_legacy_names: Vec<String>,
    pub desired_acceptance_name: String,
    pub unexpected_names: Vec<String>,
    pub ready: bool,
}

/// Whether a node of that name is expected.
pub open spec fn expected_node(g: Guardrails, name: Seq<char>) -> bool {
    name == g.owned_resource_selectors.mesh_node_name@ || texts(
        g.zero_trust_boundary.project_owned_legacy_warp_connector_names@,
    ).contains(name)
}

fn is_expected_node(g: &Guardrails, name: &str) -> (r: bool)
    ensures
        r == expected_node(*g, name@),
{
    if same(name, g.owned_resource_selectors.mesh_node_name.as_str()) {
        return true;
    }
    let legacy: &Vec<String> =
        &g.zero_trust_boundary.project_owned_legacy_warp_connector_names;
    let mut i: usize = 0;
    while i < legacy.len()
        invariant
            i <= legacy@.len(),
            legacy == g.zero_trust_boundary.project_owned_legacy_warp_connector_names,
            forall|k: int| 0 <= k < i ==> #[trigger] texts(legacy@)[k] != name@,
        decreases legacy@.len() - i,
    {
        if same(legacy[i].as_str(), name) {
            assert(texts(legacy@)[i as int] == name@);
            return true;
        }
        i = i + 1;
    }
    false
}

/// Checks the nodes: none may be there that is not expected.
pub fn report_connectors(desired: &Guardrails, node_names: &Vec<String>) -> (r: ConnectorReport)
    ensures
        texts(r.current_names@) == sorted_once(texts(node_names@)),
        r.project_owned_legacy_names@
            == desired.zero_trust_boundary.project_owned_legacy_warp_connector_names@,
        r.desired_acceptance_name == desired.owned_resource_selectors.mesh_node_name,
        texts(r.unexpected_names@) == sorted_once(texts(node_names@)).filter(
            |n: Seq<char>| !expected_node(*desired, n),
        ),
        r.ready == (r.unexpected_names@.len() == 0),
{
    let current: Vec<String> = sort_once(node_names);
    let ghost all = texts(current@);
    let ghost wanted = |n: Seq<char>| !expected_node(*desired, n);
    let mut unexpected: Vec<String> = Vec::new();
    let mut i: usize = 0;
    proof {
        lemma_filter_start(all, wanted);
        assert(texts(unexpected@) =~= Seq::<Seq<char>>::empty());
    }
    while i < current.len()
        invariant
            i <= current@.len(),
            all == texts(current@),
            wanted == (|n: Seq<char>| !expected_node(*desired, n)),
            texts(unexpected@) == all.take(i as int).filter(wanted),
        decreases current@.len() - i,
    {
        proof {
            lemma_filter_step(all, wanted, i as int);
            assert(all[i as int] == current@[i as int]@);
        }
        if !is_expected_node(desired, current[i].as_str()) {
            let ghost before = unexpected@;
            unexpected.push(current[i].clone());
            assert(texts(unexpected@) =~= texts(before).push(all[i as int]));
        }
        i = i + 1;
    }
    assert(all.take(i as int) =~= all);
    let ready: bool = unexpected.len() == 0;
    ConnectorReport {
        current_names: current,
        project_owned_legacy_names: copy_texts(
            &desired.zero_trust_boundary.project_owned_legacy_warp_connector_names,
        ),
        desired_acceptance_name: desired.owned_resource_selectors.mesh_node_name.clone(),
        unexpected_names: unexpected,
        ready,
    }
}

/// The nodes are reported ready exactly when every one of them is expected.
pub proof fn law_connectors_are_ready_when_all_are_expected(g: Guardrails, names: Seq<Seq<char>>)
    ensures
        sorted_once(names).filter(|n: Seq<char>| !expected_node(g, n)).len() == 0 <==> (forall|
            i: int,
        |
            0 <= i < names.len() ==> expected_node(g, #[trigger] names[i])),
{
    let wanted = |n: Seq<char>| !expected_node(g, n);
    let sorted = sorted_once(names);
    law_sorting_once_orders_and_keeps(names);
    lemma_filter_members(sorted, wanted);
    if sorted.filter(wanted).len() == 0 {
        assert forall|i: int| 0 <= i < names.len() implies expected_node(g, #[trigger] names[i]) by {
            assert(names.contains(names[i]));
            assert(sorted.contains(names[i]));
            let k = choose|k: int| 0 <= k < sorted.len() && sorted[k] == names[i];
            assert(!wanted(sorted[k]));
        }
    }
    if forall|i: int| 0 <= i < names.len() ==> expected_node(g, #[trigger] names[i]) {
        assert forall|k: int| 0 <= k < sorted.len() implies !wanted(#[trigger] sorted[k]) by {
            assert(sorted.contains(sorted[k]));
            assert(names.contains(sorted[k]));
            let i = choose|i: int| 0 <= i < names.len() && names[i] == sorted[k];
            assert(expected_node(g, names[i]));
        }
    }
}

/// The device profile of the mesh's nodes.
#[derive(Debug, PartialEq, Eq)]
pub struct MeshProfileReport {
    pub exact_selector_matches: usize,
    pub matching_profile_names: Vec<String>,
    pub service_mode: Option<String>,
    pub tunnel_protocol: Option<String>,
    pub mesh_cidr_included: bool,
    pub ready: bool,
}

/// Whether a profile matches exactly what the selector matches.
pub open spec fn selected(selector: Seq<char>) -> spec_fn(DeviceProfile) -> bool {
    |p: DeviceProfile| p.match_expression matches Some(m) && m@ == selector
}

/// The positions of the profiles that match exactly what the selector matches.
pub fn matching_profiles(desired: &Guardrails, profiles: &Vec<DeviceProfile>) -> (r: Vec<usize>)
    ensures
        forall|k: int| 0 <= k < r@.len() ==> #[trigger] r@[k] < profiles@.len(),
        Seq::new(r@.len(), |k: int| profiles@[r@[k] as int]) == profiles@.filter(
            selected(desired.zero_trust_boundary.generic_warp_connector_selector@),
        ),
{
    let selector: &str = desired.zero_trust_boundary.generic_warp_connector_selector.as_str();
    let ghost wanted = selected(selector@);
    let mut out: Vec<usize> = Vec::new();
    let mut i: usize = 0;
    proof {
        lemma_filter_start(profiles@, wanted);
        assert(Seq::new(out@.len(), |k: int| profiles@[out@[k] as int]) =~= Seq::<
            DeviceProfile,
        >::empty());
    }
    while i < profiles.len()
        invariant
            i <= profiles@.len(),
            wanted == selected(selector@),
            forall|k: int| 0 <= k < out@.len() ==> #[trigger] out@[k] < i,
            Seq::new(out@.len(), |k: int| profiles@[out@[k] as int]) == profiles@.take(
                i as int,
            ).filter(wanted),
        decreases profiles@.len() - i,
    {
        proof {
            lemma_filter_step(profiles@, wanted, i as int);
        }
        let hit: bool = match &profiles[i].match_expression {
            Some(m) => same(m.as_str(), selector),
            None => false,
        };
        assert(hit == wanted(profiles@[i as int]));
        if hit {
            let ghost before = out@;
            let ghost held = Seq::new(before.len(), |k: int| profiles@[before[k] as int]);
            out.push(i);
            assert(Seq::new(out@.len(), |k: int| profiles@[out@[k] as int]) =~= held.push(
                profiles@[i as int],
            ));
        }
        i = i + 1;
    }
    assert(profiles@.take(i as int) =~= profiles@);
    out
}

/// Whether one of the tunnel entries is the mesh's address block.
pub open spec fn includes_cidr(entries: Seq<SplitTunnelEntry>, cidr: Seq<char>) -> bool {
    exists|i: int|
        0 <= i < entries.len() && ((#[trigger] entries[i]).address matches Some(a) && a@ == cidr)
}

fn holds_cidr(entries: &Vec<SplitTunnelEntry>, cidr: &str) -> (r: bool)
    ensures
        r == includes_cidr(entries@, cidr@),
{
    let mut i: usize = 0;
    while i < entries.len()
        invariant
            i <= entries@.len(),
            forall|k: int|
                0 <= k < i ==> !((#[trigger] entries@[k]).address matches Some(a) && a@ == cidr@),
        decreases entries@.len() - i,
    {
        match &entries[i].address {
            Some(a) => {
                if same(a.as_str(), cidr) {
                    return true;
                }
            },
            None => {},
        }
        i = i + 1;
    }
    false
}

/// Checks the device profile of the mesh's nodes: there must be exactly one,
/// with the required mode and protocol, and the mesh's address block in its
/// tunnel. `matching` are the profiles that match the selector, `includes` the
/// tunnel entries of the only one.
pub fn report_mesh_profile(
    desired: &Guardrails,
    profiles: &Vec<DeviceProfile>,
    matching: &Vec<usize>,
    includes: &Vec<SplitTunnelEntry>,
) -> (r: MeshProfileReport)
    requires
        forall|k: int| 0 <= k < matching@.len() ==> #[trigger] matching@[k] < profiles@.len(),
    ensures
        ({
            let contract = desired.zero_trust_boundary.required_client_contract;
            &&& r.exact_selector_matches == matching@.len()
            &&& r.matching_profile_names@ == Seq::new(
                matching@.len(),
                |k: int| profiles@[matching@[k] as int].name,
            )
            &&& if matching@.len() == 1 {
                let p = profiles@[matching@[0] as int];
                &&& r.service_mode == p.service_mode
                &&& r.tunnel_protocol == p.tunnel_protocol
                &&& r.mesh_cidr_included == includes_cidr(includes@, contract.mesh_cidr@)
                &&& r.ready == (holds_text(p.service_mode, contract.service_mode@) && holds_text(
                    p.tunnel_protocol,
                    contract.tunnel_protocol@,
                ) && r.mesh_cidr_included)
            } else {
                r.service_mode is None && r.tunnel_protocol is None && !r.mesh_cidr_included
                    && !r.ready
            }
        }),
{
    let contract: &RequiredClientContract = &desired.zero_trust_boundary.required_client_contract;
    let mut names: Vec<String> = Vec::new();
    let mut i: usize = 0;
    while i < matching.len()
        invariant
            i <= matching@.len(),
            forall|k: int| 0 <= k < matching@.len() ==> #[trigger] matching@[k] < profiles@.len(),
            names@.len() == i,
            forall|k: int|
                0 <= k < i ==> #[trigger] names@[k] == profiles@[matching@[k] as int].name,
        decreases matching@.len() - i,
    {
        names.push(profiles[matching[i]].name.clone());
        i = i + 1;
    }
    assert(names@ =~= Seq::new(matching@.len(), |k: int| profiles@[matching@[k] as int].name));
    if matching.len() == 1 {
        let p: &DeviceProfile = &profiles[matching[0]];
        let included: bool = holds_cidr(includes, contract.mesh_cidr.as_str());
        let ready: bool = is_text(&p.service_mode, contract.service_mode.as_str())
            && is_text(&p.tunnel_protocol, contract.tunnel_protocol.as_str()) && included;
        MeshProfileReport {
            exact_selector_matches: 1,
            matching_profile_names: names,
            service_mode: copy_option(&p.service_mode),
            tunnel_protocol: copy_option(&p.tunnel_protocol),
            mesh_cidr_included: included,
            ready,
        }
    } else {
        MeshProfileReport {
            exact_selector_matches: matching.len(),
            matching_profile_names: names,
            service_mode: None,
            tunnel_protocol: None,
            mesh_cidr_included: false,
            ready: false,
        }
    }
}

/// How devices enroll.
#[derive(Debug, PartialEq, Eq)]
pub struct EnrollmentReport {
    pub warp_application_count: usize,
    pub warp_applications_with_policy: usize,
    pub required: bool,
    pub ready: bool,
}

/// Whether an application is one through which devices enroll.
pub fn is_warp_application(app_type: &str) -> (r: bool)
    ensures
        r == (lowered(app_type@) == lowered("warp"@)),
{
    same_ignoring_case(app_type, "warp")
}

/// How many of the numbers are not zero.
pub open spec fn nonzero(counts: Seq<usize>) -> nat
    decreases counts.len(),
{
    if counts.len() == 0 {
        0
    } else {
        nonzero(counts.drop_last()) + if counts.last() > 0 {
            1nat
        } else {
            0nat
        }
    }
}

/// Checks the enrollment: where it is required, an application must have a
/// policy. `policy_counts` says how many each application has.
pub fn report_enrollment(desired: &Guardrails, policy_counts: &Vec<usize>) -> (r: EnrollmentReport)
    ensures
        r.warp_application_count == policy_counts@.len(),
        r.warp_applications_with_policy == nonzero(policy_counts@),
        r.required == desired.zero_trust_boundary.access_enrollment_required,
        r.ready == (!r.required || nonzero(policy_counts@) > 0),
{
    let mut n: usize = 0;
    let mut i: usize = 0;
    while i < policy_counts.len()
        invariant
            i <= policy_counts@.len(),
            n <= i,
            n == nonzero(policy_counts@.take(i as int)),
        decreases policy_counts@.len() - i,
    {
        assert(policy_counts@.take(i + 1).drop_last() =~= policy_counts@.take(i as int));
        if policy_counts[i] > 0 {
            n = n + 1;
        }
        i = i + 1;
    }
    assert(policy_counts@.take(i as int) =~= policy_counts@);
    let required: bool = desired.zero_trust_boundary.access_enrollment_required;
    EnrollmentReport {
        warp_application_count: policy_counts.len(),
        warp_applications_with_policy: n,
        required,
        ready: !required || n > 0,
    }
}

/// How the gateway treats the mesh's traffic.
#[derive(Debug, PartialEq, Eq)]
pub struct GatewayReport {
    pub mesh_block_rule_count: usize,
    pub earliest_mesh_block_precedence: Option<u64>,
    pub earlier_mesh_allow_count: usize,
    pub required: bool,
    pub ready: bool,
}

/// Whether a rule is in force, does that, and speaks of the address block.
pub open spec fn mesh_rule(rule: GatewayRule, action: Seq<char>, cidr: Seq<char>) -> bool {
    &&& rule.enabled != Some(false)
    &&& lowered(rule.action@) == lowered(action)
    &&& rule.traffic matches Some(t)
    &&& has_part(t@, cidr)
}

fn is_mesh_rule(rule: &GatewayRule, action: &str, cidr: &str) -> (r: bool)
    ensures
        r == mesh_rule(*rule, action@, cidr@),
{
    let off: bool = match rule.enabled {
        Some(false) => true,
        _ => false,
    };
    if off || !same_ignoring_case(rule.action.as_str(), action) {
        return false;
    }
    match &rule.traffic {
        Some(t) => contains(t.as_str(), cidr),
        None => false,
    }
}

/// How many rules block the mesh's traffic.
pub open spec fn block_count(rules: Seq<GatewayRule>, cidr: Seq<char>) -> nat
    decreases rules.len(),
{
    if rules.len() == 0 {
        0
    } else {
        block_count(rules.drop_last(), cidr) + if mesh_rule(rules.last(), "block"@, cidr) {
            1nat
        } else {
            0nat
        }
    }
}

/// The lower of two numbers that may be missing.
pub open spec fn lower_of(a: Option<u64>, b: Option<u64>) -> Option<u64> {
    match (a, b) {
        (None, _) => b,
        (_, None) => a,
        (Some(x), Some(y)) => if y < x {
            Some(y)
        } else {
            Some(x)
        },
    }
}

/// The lowest precedence of a rule that blocks the mesh's traffic.
pub open spec fn earliest_block(rules: Seq<GatewayRule>, cidr: Seq<char>) -> Option<u64>
    decreases rules.len(),
{
    if rules.len() == 0 {
        None
    } else {
        let head = earliest_block(rules.drop_last(), cidr);
        if mesh_rule(rules.last(), "block"@, cidr) {
            lower_of(head, rules.last().precedence)
        } else {
            head
        }
    }
}

/// Whether a rule lets the mesh's traffic in before it is blocked.
pub open spec fn earlier_allow(rule: GatewayRule, cidr: Seq<char>, block: Option<u64>) -> bool {
    &&& mesh_rule(rule, "allow"@, cidr)
    &&& match (rule.precedence, block) {
        (Some(allow), Some(b)) => allow < b,
        (Some(_), None) => true,
        _ => false,
    }
}

/// How many rules let the mesh's traffic in before it is blocked.
pub open spec fn allow_count(rules: Seq<GatewayRule>, cidr: Seq<char>, block: Option<u64>) -> nat
    decreases rules.len(),
{
    if rules.len() == 0 {
        0
    } else {
        allow_count(rules.drop_last(), cidr, block) + if earlier_allow(rules.last(), cidr, block) {
            1nat
        } else {
            0nat
        }
    }
}

/// Checks the gateway: where the mesh must be let in, no rule blocks its
/// traffic unless one before it lets it in.
pub fn report_gateway(desired: &Guardrails, rules: &Vec<GatewayRule>) -> (r: GatewayReport)
    ensures
        ({
            let cidr = desired.zero_trust_boundary.required_client_contract.mesh_cidr@;
            &&& r.mesh_block_rule_count == block_count(rules@, cidr)
            &&& r.earliest_mesh_block_precedence == earliest_block(rules@, cidr)
            &&& r.earlier_mesh_allow_count == allow_count(
                rules@,
                cidr,
                earliest_block(rules@, cidr),
            )
            &&& r.required == desired.zero_trust_boundary.gateway_mesh_allow_required
            &&& r.ready == (!r.required || block_count(rules@, cidr) == 0 || allow_count(
                rules@,
                cidr,
                earliest_block(rules@, cidr),
            ) > 0)
        }),
{
    let cidr: &str = desired.zero_trust_boundary.required_client_contract.mesh_cidr.as_str();
    let mut blocks: usize = 0;
    let mut earliest: Option<u64> = None;
    let mut i: usize = 0;
    while i < rules.len()
        invariant
            i <= rules@.len(),
            blocks <= i,
            blocks == block_count(rules@.take(i as int), cidr@),
            earliest == earliest_block(rules@.take(i as int), cidr@),
        decreases rules@.len() - i,
    {
        assert(rules@.take(i + 1).drop_last() =~= rules@.take(i as int));
        if is_mesh_rule(&rules[i], "block", cidr) {
            blocks = blocks + 1;
            earliest = match (earliest, rules[i].precedence) {
                (None, b) => b,
                (a, None) => a,
                (Some(x), Some(y)) => if y < x {
                    Some(y)
                } else {
                    Some(x)
                },
            };
        }
        i = i + 1;
    }
    assert(rules@.take(i as int) =~= rules@);
    let mut allows: usize = 0;
    let mut k: usize = 0;
    while k < rules.len()
        invariant
            k <= rules@.len(),
            allows <= k,
            allows == allow_count(rules@.take(k as int), cidr@, earliest),
        decreases rules@.len() - k,
    {
        assert(rules@.take(k + 1).drop_last() =~= rules@.take(k as int));
        let before: bool = match (rules[k].precedence, earliest) {
            (Some(allow), Some(block)) => allow < block,
            (Some(_), None) => true,
            _ => false,
        };
        if before && is_mesh_rule(&rules[k], "allow", cidr) {
            allows = allows + 1;
        }
        k = k + 1;
    }
    assert(rules@.take(k as int) =~= rules@);
    let required: bool = desired.zero_trust_boundary.gateway_mesh_allow_required;
    GatewayReport {
        mesh_block_rule_count: blocks,
        earliest_mesh_block_precedence: earliest,
        earlier_mesh_allow_count: allows,
        required,
        ready: !required || blocks == 0 || allows > 0,
    }
}

/// What somebody has to have seen to.
#[derive(Debug, PartialEq, Eq)]
pub struct ManualPrerequisiteReport {
    pub enrolled_device_reachability_required: bool,
    pub enrolled_device_reachability_confirmed: bool,
    pub ready: bool,
}

/// What stands for the reachability of an enrolled device.
pub const REACHABILITY_PREREQUISITE: &'static str = "enrolled-device-reachability";

/// Checks what somebody has to have seen to: where reachability is required,
/// it must be confirmed.
pub fn report_manual(desired: &Guardrails, confirmed: bool) -> (r: ManualPrerequisiteReport)
    ensures
        r.enrolled_device_reachability_required == texts(
            desired.zero_trust_boundary.manual_prerequisites@,
        ).contains(REACHABILITY_PREREQUISITE@),
        r.enrolled_device_reachability_confirmed == confirmed,
        r.ready == (!r.enrolled_device_reachability_required || confirmed),
{
    let all: &Vec<String> = &desired.zero_trust_boundary.manual_prerequisites;
    let mut required: bool = false;
    let mut i: usize = 0;
    while i < all.len()
        invariant
            i <= all@.len(),
            required <==> exists|k: int|
                0 <= k < i && #[trigger] texts(all@)[k] == REACHABILITY_PREREQUISITE@,
        decreases all@.len() - i,
    {
        assert(texts(all@)[i as int] == all@[i as int]@);
        if same(all[i].as_str(), REACHABILITY_PREREQUISITE) {
            required = true;
        }
        i = i + 1;
    }
    ManualPrerequisiteReport {
        enrolled_device_reachability_required: required,
        enrolled_device_reachability_confirmed: confirmed,
        ready: !required || confirmed,
    }
}

/// What was found out about an account.
#[derive(Debug, PartialEq, Eq)]
pub struct DoctorReport {
    pub status: &'static str,
    pub token_read_authority: &'static str,
    pub account_id: String,
    pub device_settings: DeviceSettingsReport,
    pub connectors: ConnectorReport,
    pub mesh_node_profile: MeshProfileReport,
    pub enrollment: EnrollmentReport,
    pub gateway: GatewayReport,
    pub manual_prerequisites: ManualPrerequisiteReport,
}

/// Whether all parts of a report are ready.
pub open spec fn all_ready(
    device_settings: DeviceSettingsReport,
    connectors: ConnectorReport,
    mesh_node_profile: MeshProfileReport,
    enrollment: EnrollmentReport,
    gateway: GatewayReport,
    manual_prerequisites: ManualPrerequisiteReport,
) -> bool {
    device_settings.ready && connectors.ready && mesh_node_profile.ready && enrollment.ready
        && gateway.ready && manual_prerequisites.ready
}

/// Puts the parts of a report together: it passes exactly when all of them are
/// ready.
pub fn assemble_report(
    desired: &Guardrails,
    device_settings: DeviceSettingsReport,
    connectors: ConnectorReport,
    mesh_node_profile: MeshProfileReport,
    enrollment: EnrollmentReport,
    gateway: GatewayReport,
    manual_prerequisites: ManualPrerequisiteReport,
) -> (r: (DoctorReport, Result<(), String>))
    ensures
        ({
            let ready = all_ready(
                device_settings,
                connectors,
                mesh_node_profile,
                enrollment,
                gateway,
                manual_prerequisites,
            );
            &&& r.0.status@ == if ready {
                "PASS"@
            } else {
                "BLOCKED"@
            }
            &&& r.0.token_read_authority@ == "PASS"@
            &&& r.0.account_id == desired.account_id
            &&& r.0.device_settings == device_settings
            &&& r.0.connectors == connectors
            &&& r.0.mesh_node_profile == mesh_node_profile
            &&& r.0.enrollment == enrollment
            &&& r.0.gateway == gateway
            &&& r.0.manual_prerequisites == manual_prerequisites
            &&& match r.1 {
                Ok(()) => ready,
                Err(e) => !ready && e@ == "Cloudflare Zero Trust readiness is BLOCKED"@,
            }
        }),
{
    let ready: bool = device_settings.ready && connectors.ready && mesh_node_profile.ready
        && enrollment.ready && gateway.ready && manual_prerequisites.ready;
    let report: DoctorReport = DoctorReport {
        status: if ready {
            "PASS"
        } else {
            "BLOCKED"
        },
        token_read_authority: "PASS",
        account_id: desired.account_id.clone(),
        device_settings,
        connectors,
        mesh_node_profile,
        enrollment,
        gateway,
        manual_prerequisites,
    };
    let outcome: Result<(), String> = if ready {
        Ok(())
    } else {
        Err("Cloudflare Zero Trust readiness is BLOCKED".to_owned())
    };
    (report, outcome)
}

/// The settings are ready exactly if all three of them are known to be on.
pub proof fn law_settings_are_ready_when_all_are_on(
    proxy: Option<bool>,
    udp: Option<bool>,
    addresses: Option<bool>,
    r: DeviceSettingsReport,
)
    requires
        call_ensures(report_settings, (proxy, udp, addresses), r),
    ensures
        r.ready <==> proxy == Some(true) && udp == Some(true) && addresses == Some(true),
{
}

/// The connectors are ready exactly if each of them is the wanted one or one of
/// the older ones that are the project's own.
pub proof fn law_unexpected_connectors_are_not_ready(
    desired: Guardrails,
    names: Vec<String>,
    r: ConnectorReport,
)
    requires
        call_ensures(report_connectors, (&desired, &names), r),
    ensures
        r.ready <==> forall|i: int|
            0 <= i < names@.len() ==> (#[trigger] names@[i])@
                == desired.owned_resource_selectors.mesh_node_name@ || texts(
                desired.zero_trust_boundary.project_owned_legacy_warp_connector_names@,
            ).contains(names@[i]@),
        forall|i: int|
            0 <= i < names@.len() ==> texts(r.current_names@).contains((#[trigger] names@[i])@),
{
    let all = texts(names@);
    assert(all.len() == names@.len());
    law_connectors_are_ready_when_all_are_expected(desired, all);
    law_sorting_once_orders_and_keeps(all);
    assert(texts(r.unexpected_names@).len() == r.unexpected_names@.len());
    assert forall|i: int| 0 <= i < names@.len() implies texts(r.current_names@).contains(
        (#[trigger] names@[i])@,
    ) by {
        assert(all[i] == names@[i]@);
        assert(all.contains(all[i]));
    }
    if r.ready {
        assert forall|i: int| 0 <= i < names@.len() implies (#[trigger] names@[i])@
            == desired.owned_resource_selectors.mesh_node_name@ || texts(
            desired.zero_trust_boundary.project_owned_legacy_warp_connector_names@,
        ).contains(names@[i]@) by {
            assert(expected_node(desired, all[i]));
        }
    }
    if forall|i: int|
        0 <= i < names@.len() ==> (#[trigger] names@[i])@
            == desired.owned_resource_selectors.mesh_node_name@ || texts(
            desired.zero_trust_boundary.project_owned_legacy_warp_connector_names@,
        ).contains(names@[i]@) {
        assert forall|i: int| 0 <= i < all.len() implies expected_node(
            desired,
            #[trigger] all[i],
        ) by {
            assert(all[i] == names@[i]@);
        }
    }
}

/// The mesh's profile is ready exactly if one profile alone has its expression,
/// and that one has the required mode and protocol and takes the mesh's network
/// into the tunnel.
pub proof fn law_the_mesh_profile_is_the_only_one_and_complete(
    desired: Guardrails,
    profiles: Vec<DeviceProfile>,
    matching: Vec<usize>,
    includes: Vec<SplitTunnelEntry>,
    r: MeshProfileReport,
)
    requires
        call_ensures(matching_profiles, (&desired, &profiles), matching),
        call_ensures(report_mesh_profile, (&desired, &profiles, &matching, &includes), r),
    ensures
        r.ready ==> matching@.len() == 1,
        r.ready ==> ({
            let p = profiles@[matching@[0] as int];
            let contract = desired.zero_trust_boundary.required_client_contract;
            &&& p.match_expression matches Some(m) && m@
                == desired.zero_trust_boundary.generic_warp_connector_selector@
            &&& p.service_mode matches Some(m) && m@ == contract.service_mode@
            &&& p.tunnel_protocol matches Some(m) && m@ == contract.tunnel_protocol@
            &&& exists|i: int|
                0 <= i < includes@.len() && ((#[trigger] includes@[i]).address matches Some(a) && a@
                    == contract.mesh_cidr@)
        }),
        matching@.len() == 1 && ({
            let p = profiles@[matching@[0] as int];
            let contract = desired.zero_trust_boundary.required_client_contract;
            &&& p.service_mode matches Some(m) && m@ == contract.service_mode@
            &&& p.tunnel_protocol matches Some(m) && m@ == contract.tunnel_protocol@
            &&& exists|i: int|
                0 <= i < includes@.len() && ((#[trigger] includes@[i]).address matches Some(a) && a@
                    == contract.mesh_cidr@)
        }) ==> r.ready,
        r.exact_selector_matches == matching@.len(),
        forall|k: int|
            0 <= k < profiles@.len() && ((#[trigger] profiles@[k]).match_expression matches Some(m)
                && m@ == desired.zero_trust_boundary.generic_warp_connector_selector@)
                ==> matching@.len() > 0,
{
    let wanted = selected(desired.zero_trust_boundary.generic_warp_connector_selector@);
    let hits = profiles@.filter(wanted);
    let shown = Seq::new(matching@.len(), |k: int| profiles@[matching@[k] as int]);
    assert(shown == hits);
    lemma_filter_members(profiles@, wanted);
    if matching@.len() == 1 {
        assert(shown[0] == profiles@[matching@[0] as int]);
        assert(hits.contains(hits[0]));
        assert(wanted(hits[0]));
    }
    assert forall|k: int|
        0 <= k < profiles@.len() && ((#[trigger] profiles@[k]).match_expression matches Some(m)
            && m@
            == desired.zero_trust_boundary.generic_warp_connector_selector@) implies matching@.len()
        > 0 by {
        assert(wanted(profiles@[k]));
        assert(profiles@.contains(profiles@[k]));
        assert(hits.contains(profiles@[k]));
        assert(shown.len() == hits.len());
    }
}

proof fn lemma_nonzero(counts: Seq<usize>)
    ensures
        nonzero(counts) <= counts.len(),
        nonzero(counts) > 0 <==> exists|i: int| 0 <= i < counts.len() && #[trigger] counts[i] > 0,
    decreases counts.len(),
{
    if counts.len() > 0 {
        let head = counts.drop_last();
        lemma_nonzero(head);
        if nonzero(head) > 0 {
            let i = choose|i: int| 0 <= i < head.len() && #[trigger] head[i] > 0;
            assert(counts[i] > 0);
        }
        if counts.last() > 0 {
            assert(counts[counts.len() - 1] > 0);
        }
        if exists|i: int| 0 <= i < counts.len() && #[trigger] counts[i] > 0 {
            let i = choose|i: int| 0 <= i < counts.len() && #[trigger] counts[i] > 0;
            if i < head.len() {
                assert(head[i] > 0);
            }
        }
    }
}

/// Enrollment is ready exactly if it is not required, or some application for
/// it has a policy.
pub proof fn law_enrollment_needs_an_application_with_a_policy(
    desired: Guardrails,
    counts: Vec<usize>,
    r: EnrollmentReport,
)
    requires
        call_ensures(report_enrollment, (&desired, &counts), r),
    ensures
        r.ready <==> !desired.zero_trust_boundary.access_enrollment_required || exists|i: int|
            0 <= i < counts@.len() && #[trigger] counts@[i] > 0,
        r.warp_application_count == counts@.len(),
        r.warp_applications_with_policy <= counts@.len(),
{
    lemma_nonzero(counts@);
}

proof fn lemma_blocks(rules: Seq<GatewayRule>, cidr: Seq<char>)
    ensures
        block_count(rules, cidr) == 0 <==> forall|i: int|
            0 <= i < rules.len() ==> !mesh_rule(#[trigger] rules[i], "block"@, cidr),
        earliest_block(rules, cidr) matches Some(b) ==> exists|i: int|
            0 <= i < rules.len() && mesh_rule(#[trigger] rules[i], "block"@, cidr)
                && rules[i].precedence == Some(b),
        forall|i: int|
            0 <= i < rules.len() && mesh_rule(#[trigger] rules[i], "block"@, cidr)
                && rules[i].precedence is Some ==> (earliest_block(rules, cidr) matches Some(b) && b
                <= rules[i].precedence->Some_0),
    decreases rules.len(),
{
    if rules.len() > 0 {
        let head = rules.drop_last();
        lemma_blocks(head, cidr);
        let n = rules.len() - 1;
        assert(rules[n] == rules.last());
        if block_count(rules, cidr) == 0 {
            assert forall|i: int| 0 <= i < rules.len() implies !mesh_rule(
                #[trigger] rules[i],
                "block"@,
                cidr,
            ) by {
                if i < n {
                    assert(rules[i] == head[i]);
                }
            }
        } else if !mesh_rule(rules.last(), "block"@, cidr) {
            let i = choose|i: int|
                0 <= i < head.len() && mesh_rule(#[trigger] head[i], "block"@, cidr);
            assert(rules[i] == head[i]);
        }
        if earliest_block(rules, cidr) is Some {
            let b = earliest_block(rules, cidr)->Some_0;
            if earliest_block(head, cidr) == Some(b) {
                let i = choose|i: int|
                    0 <= i < head.len() && mesh_rule(#[trigger] head[i], "block"@, cidr)
                        && head[i].precedence == Some(b);
                assert(rules[i] == head[i]);
            } else {
                assert(rules[n].precedence == Some(b));
            }
        }
        assert forall|i: int|
            0 <= i < rules.len() && mesh_rule(#[trigger] rules[i], "block"@, cidr)
                && rules[i].precedence is Some implies (earliest_block(rules, cidr) matches Some(b)
            && b <= rules[i].precedence->Some_0) by {
            if i < n {
                assert(rules[i] == head[i]);
            }
        }
    }
}

proof fn lemma_allows(rules: Seq<GatewayRule>, cidr: Seq<char>, block: Option<u64>)
    ensures
        allow_count(rules, cidr, block) <= rules.len(),
        allow_count(rules, cidr, block) > 0 <==> exists|i: int|
            0 <= i < rules.len() && earlier_allow(#[trigger] rules[i], cidr, block),
    decreases rules.len(),
{
    if rules.len() > 0 {
        let head = rules.drop_last();
        lemma_allows(head, cidr, block);
        let n = rules.len() - 1;
        assert(rules[n] == rules.last());
        if allow_count(head, cidr, block) > 0 {
            let i = choose|i: int|
                0 <= i < head.len() && earlier_allow(#[trigger] head[i], cidr, block);
            assert(rules[i] == head[i]);
        }
        if exists|i: int| 0 <= i < rules.len() && earlier_allow(#[trigger] rules[i], cidr, block) {
            let i = choose|i: int|
                0 <= i < rules.len() && earlier_allow(#[trigger] rules[i], cidr, block);
            if i < n {
                assert(head[i] == rules[i]);
            }
        }
    }
}

/// Whether a rule that is not switched off does that to the network's traffic.
pub open spec fn acts_on(rule: GatewayRule, action: Seq<char>, cidr: Seq<char>) -> bool {
    &&& rule.enabled != Some(false)
    &&& rule.action@.len() == action.len()
    &&& lowered(rule.action@) == lowered(action)
    &&& rule.traffic is Some
    &&& exists|before: Seq<char>, after: Seq<char>|
        rule.traffic->Some_0@ == #[trigger] (before + cidr + after)
}

proof fn lemma_acts_on(rule: GatewayRule, action: Seq<char>, cidr: Seq<char>)
    ensures
        mesh_rule(rule, action, cidr) <==> acts_on(rule, action, cidr),
{
    assert(lowered(rule.action@).len() == rule.action@.len());
    assert(lowered(action).len() == action.len());
    if rule.traffic is Some {
        let t = rule.traffic->Some_0@;
        if has_part(t, cidr) {
            let i = choose|i: int| stands_at(t, cidr, i);
            assert(t.subrange(i, i + cidr.len()) == cidr);
            assert(t =~= t.take(i) + cidr + t.skip(i + cidr.len()));
        }
        if exists|before: Seq<char>, after: Seq<char>| t == #[trigger] (before + cidr + after) {
            let (before, after) = choose|before: Seq<char>, after: Seq<char>|
                t == #[trigger] (before + cidr + after);
            let i = before.len() as int;
            assert(t.subrange(i, i + cidr.len()) =~= cidr);
            assert(stands_at(t, cidr, i));
        }
    }
}

/// The gateway is ready exactly if a rule for the mesh is not required, or
/// nothing blocks the mesh's traffic, or a rule that allows it comes before
/// every one that blocks it. A rule that is switched off counts for nothing.
pub proof fn law_the_gateway_lets_the_mesh_through_before_it_blocks(
    desired: Guardrails,
    rules: Vec<GatewayRule>,
    r: GatewayReport,
)
    requires
        call_ensures(report_gateway, (&desired, &rules), r),
    ensures
        ({
            let cidr = desired.zero_trust_boundary.required_client_contract.mesh_cidr@;
            r.ready <==> {
                ||| !desired.zero_trust_boundary.gateway_mesh_allow_required
                ||| forall|i: int|
                    0 <= i < rules@.len() ==> !acts_on(#[trigger] rules@[i], "block"@, cidr)
                ||| exists|k: int|
                    0 <= k < rules@.len() && acts_on(#[trigger] rules@[k], "allow"@, cidr)
                        && rules@[k].precedence is Some && forall|i: int|
                        0 <= i < rules@.len() && acts_on(#[trigger] rules@[i], "block"@, cidr)
                            && rules@[i].precedence is Some ==> rules@[k].precedence->Some_0
                            < rules@[i].precedence->Some_0
            }
        }),
{
    let cidr = desired.zero_trust_boundary.required_client_contract.mesh_cidr@;
    let all = rules@;
    let block = earliest_block(all, cidr);
    lemma_blocks(all, cidr);
    lemma_allows(all, cidr, block);
    assert forall|i: int| 0 <= i < all.len() implies (mesh_rule(#[trigger] all[i], "block"@, cidr)
        <==> acts_on(all[i], "block"@, cidr)) && (mesh_rule(all[i], "allow"@, cidr) <==> acts_on(
        all[i],
        "allow"@,
        cidr,
    )) by {
        lemma_acts_on(all[i], "block"@, cidr);
        lemma_acts_on(all[i], "allow"@, cidr);
    }
    if allow_count(all, cidr, block) > 0 {
        let k = choose|k: int| 0 <= k < all.len() && earlier_allow(#[trigger] all[k], cidr, block);
        assert(acts_on(all[k], "allow"@, cidr));
        assert forall|i: int|
            0 <= i < all.len() && acts_on(#[trigger] all[i], "block"@, cidr)
                && all[i].precedence is Some implies all[k].precedence->Some_0
            < all[i].precedence->Some_0 by {
            assert(mesh_rule(all[i], "block"@, cidr));
        }
    }
    if exists|k: int|
        0 <= k < all.len() && acts_on(#[trigger] all[k], "allow"@, cidr) && all[k].precedence
            is Some && forall|i: int|
            0 <= i < all.len() && acts_on(#[trigger] all[i], "block"@, cidr)
                && all[i].precedence is Some ==> all[k].precedence->Some_0
                < all[i].precedence->Some_0 {
        let k = choose|k: int|
            0 <= k < all.len() && acts_on(#[trigger] all[k], "allow"@, cidr) && all[k].precedence
                is Some && forall|i: int|
                0 <= i < all.len() && acts_on(#[trigger] all[i], "block"@, cidr)
                    && all[i].precedence is Some ==> all[k].precedence->Some_0
                    < all[i].precedence->Some_0;
        assert(mesh_rule(all[k], "allow"@, cidr));
        if block is Some {
            let i = choose|i: int|
                0 <= i < all.len() && mesh_rule(#[trigger] all[i], "block"@, cidr)
                    && all[i].precedence == Some(block->Some_0);
            assert(acts_on(all[i], "block"@, cidr));
        }
        assert(earlier_allow(all[k], cidr, block));
    }
}

/// What has to be done by hand is ready exactly if it is not required or was
/// confirmed.
pub proof fn law_manual_work_is_confirmed(desired: Guardrails, confirmed: bool, r: ManualPrerequisiteReport)
    requires
        call_ensures(report_manual, (&desired, confirmed), r),
    ensures
        r.ready <==> confirmed || !texts(
            desired.zero_trust_boundary.manual_prerequisites@,
        ).contains("enrolled-device-reachability"@),
{
}

/// The account passes exactly if every part of it is ready, and otherwise it is
/// blocked.
pub proof fn law_the_account_passes_only_as_a_whole(
    desired: Guardrails,
    device_settings: DeviceSettingsReport,
    connectors: ConnectorReport,
    mesh_node_profile: MeshProfileReport,
    enrollment: EnrollmentReport,
    gateway: GatewayReport,
    manual_prerequisites: ManualPrerequisiteReport,
    r: (DoctorReport, Result<(), String>),
)
    requires
        call_ensures(
            assemble_report,
            (
                &desired,
                device_settings,
                connectors,
                mesh_node_profile,
                enrollment,
                gateway,
                manual_prerequisites,
            ),
            r,
        ),
    ensures
        r.1 is Ok <==> device_settings.ready && connectors.ready && mesh_node_profile.ready
            && enrollment.ready && gateway.ready && manual_prerequisites.ready,
        r.0.status@ == if r.1 is Ok {
            "PASS"@
        } else {
            "BLOCKED"@
        },
        r.0.gateway == gateway,
        r.0.connectors == connectors,
{
}

/// Guardrails are accepted exactly if they are of the known kind and name the
/// account, the selector and the mesh's network.
pub proof fn law_guardrails_say_what_they_guard(desired: Guardrails, r: Result<(), String>)
    requires
        call_ensures(validate_guardrails, (&desired,), r),
    ensures
        r is Ok <==> desired.schema == 1 && !blank(desired.account_id@) && !blank(
            desired.zero_trust_boundary.generic_warp_connector_selector@,
        ) && !blank(desired.zero_trust_boundary.required_client_contract.mesh_cidr@),
{
}

/// A switch is on by the words for it, with or without white space round them,
/// and off where it is not set.
pub proof fn law_switches_are_on_by_their_words(value: Option<String>, r: bool)
    requires
        call_ensures(env_true, (&value,), r),
    ensures
        value is None ==> !r,
        value matches Some(v) ==> r == (trimmed(v@) == "1"@ || trimmed(v@) == "true"@ || trimmed(v@)
            == "TRUE"@ || trimmed(v@) == "yes"@ || trimmed(v@) == "YES"@),
{
}

} // verus!
