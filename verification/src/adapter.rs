//! Reading the provider's machines as the machines of an environment.
use crate::access::{VerifiedFirewalls, bound};
use crate::cleanup::Ownership;
use crate::provider::VultrInstance;
use crate::text::{
    blank, cat4, copy_option, is_blank, law_trimming_keeps_words, trim, trimmed, words,
};
use vstd::prelude::*;
use vstd::string::*;

verus! {

/// What the tags of a machine say.
#[derive(Debug, PartialEq, Eq)]
pub struct DecodedTags {
    pub ownership: Ownership,
    pub user_tags: Vec<String>,
    pub spec_digest: Option<String>,
}

/// A machine as it was observed.
#[derive(Debug, PartialEq, Eq)]
pub struct ObservedMachine {
    pub provider_id: String,
    pub label: String,
    pub ownership: Ownership,
    pub region: String,
    pub plan: String,
    pub main_ip: Option<String>,
    pub v6_main_ip: Option<String>,
    pub firewall_group_id: Option<String>,
    pub date_created: Option<String>,
    pub os_id: Option<u32>,
    pub snapshot_id: Option<String>,
    pub enable_ipv6: bool,
    pub firewall_profile: Option<String>,
    pub tags: Vec<String>,
    pub spec_digest: Option<String>,
}

/// A text without white space at its ends, where anything is left of it.
pub open spec fn something(s: Seq<char>) -> Option<Seq<char>> {
    if blank(s) {
        None
    } else {
        Some(trimmed(s))
    }
}

/// A text without white space at its ends, where anything is left of it.
pub fn nonempty(value: &str) -> (r: Option<String>)
    ensures
        r.deep_view() == something(value@),
{
    if is_blank(value) {
        None
    } else {
        Some(trim(value).to_owned())
    }
}

/// What a machine is observed to be, with the profile that its firewall is
/// verified to hold.
pub open spec fn observed(
    i: VultrInstance,
    decoded: DecodedTags,
    verified: Seq<(String, String)>,
    m: ObservedMachine,
) -> bool {
    &&& m.provider_id == i.id
    &&& m.label == i.label
    &&& m.ownership == decoded.ownership
    &&& m.region == i.region
    &&& m.plan == i.plan
    &&& m.main_ip.deep_view() == something(i.main_ip@)
    &&& m.v6_main_ip.deep_view() == something(i.v6_main_ip@)
    &&& m.firewall_group_id.deep_view() == something(i.firewall_group_id@)
    &&& m.date_created.deep_view() == something(i.date_created@)
    &&& m.os_id == if i.os_id == 0 {
        None
    } else {
        Some(i.os_id)
    }
    &&& m.snapshot_id == i.snapshot_id
    &&& m.enable_ipv6 == i.enable_ipv6
    &&& m.firewall_profile == match something(i.firewall_group_id@) {
        Some(id) => bound(verified, id),
        None => None,
    }
    &&& m.tags == decoded.user_tags
    &&& m.spec_digest == decoded.spec_digest
}

/// Reads one machine: what the provider reports, what its tags say or why they
/// cannot be read, and which firewalls are verified.
pub fn normalize_vultr_instance_with_firewall_profiles(
    instance: &VultrInstance,
    decoded: Result<DecodedTags, String>,
    verified_firewall_profiles: &VerifiedFirewalls,
) -> (r: Result<ObservedMachine, String>)
    ensures
        match decoded {
            Err(words) => r matches Err(e) && e@ == "invalid lifecycle identity on Vultr instance "@
                + instance.id@ + ": "@ + words@,
            Ok(tags) => r matches Ok(m) && observed(
                *instance,
                tags,
                verified_firewall_profiles.bindings@,
                m,
            ),
        },
{
    let decoded: DecodedTags = match decoded {
        Err(e) => return Err(
            cat4(
                "invalid lifecycle identity on Vultr instance ",
                instance.id.as_str(),
                ": ",
                e.as_str(),
            ),
        ),
        Ok(decoded) => decoded,
    };
    let firewall_group_id: Option<String> = nonempty(instance.firewall_group_id.as_str());
    let firewall_profile: Option<String> = match &firewall_group_id {
        Some(id) => verified_firewall_profiles.profile_of(id.as_str()),
        None => None,
    };
    Ok(
        ObservedMachine {
            provider_id: instance.id.clone(),
            label: instance.label.clone(),
            ownership: decoded.ownership,
            region: instance.region.clone(),
            plan: instance.plan.clone(),
            main_ip: nonempty(instance.main_ip.as_str()),
            v6_main_ip: nonempty(instance.v6_main_ip.as_str()),
            firewall_group_id,
            date_created: nonempty(instance.date_created.as_str()),
            os_id: if instance.os_id == 0 {
                None
            } else {
                Some(instance.os_id)
            },
            snapshot_id: copy_option(&instance.snapshot_id),
            enable_ipv6: instance.enable_ipv6,
            firewall_profile,
            tags: decoded.user_tags,
            spec_digest: decoded.spec_digest,
        },
    )
}

/// Reads one machine where no firewall is verified.
pub fn normalize_vultr_instance(instance: &VultrInstance, decoded: Result<DecodedTags, String>) -> (r:
    Result<ObservedMachine, String>)
    ensures
        match decoded {
            Err(words) => r matches Err(e) && e@ == "invalid lifecycle identity on Vultr instance "@
                + instance.id@ + ": "@ + words@,
            Ok(tags) => r matches Ok(m) && observed(*instance, tags, Seq::empty(), m)
                && m.firewall_profile is None,
        },
{
    let none: VerifiedFirewalls = VerifiedFirewalls::new();
    assert(none.bindings@ =~= Seq::empty());
    normalize_vultr_instance_with_firewall_profiles(instance, decoded, &none)
}

/// Reads the machines in order, up to the first whose tags cannot be read.
pub fn normalize_vultr_inventory_with_firewall_profiles(
    instances: &Vec<VultrInstance>,
    decoded: Vec<Result<DecodedTags, String>>,
    verified_firewall_profiles: &VerifiedFirewalls,
) -> (r: Result<Vec<ObservedMachine>, String>)
    requires
        decoded@.len() == instances@.len(),
    ensures
        match r {
            Ok(machines) => {
                &&& machines@.len() == instances@.len()
                &&& forall|k: int|
                    0 <= k < instances@.len() ==> (#[trigger] decoded@[k] matches Ok(tags)
                        && observed(
                        instances@[k],
                        tags,
                        verified_firewall_profiles.bindings@,
                        machines@[k],
                    ))
            },
            Err(e) => exists|k: int|
                {
                    &&& 0 <= k < instances@.len()
                    &&& (#[trigger] decoded@[k] matches Err(words) && e@
                        == "invalid lifecycle identity on Vultr instance "@ + instances@[k].id@
                        + ": "@ + words@)
                    &&& forall|j: int| 0 <= j < k ==> #[trigger] decoded@[j] is Ok
                },
        },
{
    let mut machines: Vec<ObservedMachine> = Vec::new();
    let mut rest: Vec<Result<DecodedTags, String>> = decoded;
    let mut i: usize = 0;
    while i < instances.len()
        invariant
            i <= instances@.len() == decoded@.len(),
            rest@ == decoded@.skip(i as int),
            machines@.len() == i,
            forall|k: int|
                0 <= k < i ==> (#[trigger] decoded@[k] matches Ok(tags) && observed(
                    instances@[k],
                    tags,
                    verified_firewall_profiles.bindings@,
                    machines@[k],
                )),
        decreases instances@.len() - i,
    {
        let next: Result<DecodedTags, String> = rest.remove(0);
        assert(next == decoded@[i as int]);
        assert(rest@ =~= decoded@.skip(i + 1));
        match normalize_vultr_instance_with_firewall_profiles(
            &instances[i],
            next,
            verified_firewall_profiles,
        ) {
            Err(e) => {
                assert(decoded@[i as int] is Err);
                return Err(e);
            },
            Ok(machine) => {
                machines.push(machine);
            },
        }
        i = i + 1;
    }
    Ok(machines)
}

/// Reads the machines in order where no firewall is verified.
pub fn normalize_vultr_inventory(
    instances: &Vec<VultrInstance>,
    decoded: Vec<Result<DecodedTags, String>>,
) -> (r: Result<Vec<ObservedMachine>, String>)
    requires
        decoded@.len() == instances@.len(),
    ensures
        match r {
            Ok(machines) => {
                &&& machines@.len() == instances@.len()
                &&& forall|k: int|
                    0 <= k < instances@.len() ==> (#[trigger] decoded@[k] matches Ok(tags)
                        && observed(instances@[k], tags, Seq::empty(), machines@[k]))
            },
            Err(e) => exists|k: int|
                {
                    &&& 0 <= k < instances@.len()
                    &&& (#[trigger] decoded@[k] matches Err(words) && e@
                        == "invalid lifecycle identity on Vultr instance "@ + instances@[k].id@
                        + ": "@ + words@)
                    &&& forall|j: int| 0 <= j < k ==> #[trigger] decoded@[j] is Ok
                },
        },
{
    let none: VerifiedFirewalls = VerifiedFirewalls::new();
    assert(none.bindings@ =~= Seq::empty());
    normalize_vultr_inventory_with_firewall_profiles(instances, decoded, &none)
}

/// A machine is read as the provider shows it; what is blank counts as missing,
/// and a profile is believed only of a firewall that was verified.
pub proof fn law_machines_are_read_as_shown(
    instance: VultrInstance,
    tags: DecodedTags,
    verified: VerifiedFirewalls,
    m: ObservedMachine,
    profile: Option<String>,
    group: &str,
)
    requires
        call_ensures(
            normalize_vultr_instance_with_firewall_profiles,
            (&instance, Ok::<DecodedTags, String>(tags), &verified),
            Ok::<ObservedMachine, String>(m),
        ),
        group@ == trimmed(instance.firewall_group_id@),
        call_ensures(VerifiedFirewalls::profile_of, (&verified, group), profile),
    ensures
        m.provider_id@ == instance.id@,
        m.label@ == instance.label@,
        m.region@ == instance.region@,
        m.plan@ == instance.plan@,
        m.ownership == tags.ownership,
        m.tags == tags.user_tags,
        m.spec_digest == tags.spec_digest,
        m.main_ip is None <==> blank(instance.main_ip@),
        m.main_ip matches Some(ip) ==> words(ip@) == words(instance.main_ip@),
        m.firewall_group_id is None <==> blank(instance.firewall_group_id@),
        blank(instance.firewall_group_id@) ==> m.firewall_profile is None,
        !blank(instance.firewall_group_id@) ==> m.firewall_profile == profile,
        verified.bindings@.len() == 0 ==> m.firewall_profile is None,
        m.os_id is None <==> instance.os_id == 0,
        m.os_id matches Some(n) ==> n == instance.os_id,
        m.enable_ipv6 == instance.enable_ipv6,
        m.snapshot_id == instance.snapshot_id,
{
    law_trimming_keeps_words(instance.main_ip@);
}

/// Machines are read one by one in their places, and all of them or none: one
/// whose tags cannot be read stops the whole.
pub proof fn law_all_machines_are_read_or_none(
    instances: Vec<VultrInstance>,
    decoded: Vec<Result<DecodedTags, String>>,
    verified: VerifiedFirewalls,
    r: Result<Vec<ObservedMachine>, String>,
)
    requires
        decoded@.len() == instances@.len(),
        call_ensures(
            normalize_vultr_inventory_with_firewall_profiles,
            (&instances, decoded, &verified),
            r,
        ),
    ensures
        r is Ok <==> forall|k: int| 0 <= k < decoded@.len() ==> #[trigger] decoded@[k] is Ok,
        r matches Ok(machines) ==> machines@.len() == instances@.len() && forall|k: int|
            0 <= k < machines@.len() ==> (#[trigger] machines@[k]).provider_id@
                == instances@[k].id@,
{
    if r is Ok {
        let machines = r->Ok_0@;
        assert forall|k: int| 0 <= k < decoded@.len() implies #[trigger] decoded@[k] is Ok by {}
        assert forall|k: int| 0 <= k < machines.len() implies (#[trigger] machines[k]).provider_id@
            == instances@[k].id@ by {
            assert(decoded@[k] is Ok);
        }
    }
}

/// A machine read without firewalls has what the provider shows of it and no
/// profile; one whose tags cannot be read is refused by its id.
pub proof fn law_a_machine_read_alone_has_no_profile(
    instance: VultrInstance,
    decoded: Result<DecodedTags, String>,
    r: Result<ObservedMachine, String>,
)
    requires
        call_ensures(normalize_vultr_instance, (&instance, decoded), r),
    ensures
        r is Ok <==> decoded is Ok,
        r matches Ok(m) ==> {
            &&& m.provider_id == instance.id
            &&& m.label == instance.label
            &&& m.region == instance.region
            &&& m.plan == instance.plan
            &&& m.firewall_profile is None
            &&& m.snapshot_id == instance.snapshot_id
            &&& m.enable_ipv6 == instance.enable_ipv6
            &&& m.ownership == decoded->Ok_0.ownership
            &&& m.tags == decoded->Ok_0.user_tags
            &&& m.spec_digest == decoded->Ok_0.spec_digest
            &&& blank(instance.main_ip@) ==> m.main_ip is None
            &&& !blank(instance.main_ip@) ==> m.main_ip.deep_view() == Some(
                trimmed(instance.main_ip@),
            )
            &&& blank(instance.v6_main_ip@) ==> m.v6_main_ip is None
            &&& !blank(instance.v6_main_ip@) ==> m.v6_main_ip.deep_view() == Some(
                trimmed(instance.v6_main_ip@),
            )
            &&& blank(instance.firewall_group_id@) ==> m.firewall_group_id is None
            &&& !blank(instance.firewall_group_id@) ==> m.firewall_group_id.deep_view() == Some(
                trimmed(instance.firewall_group_id@),
            )
            &&& blank(instance.date_created@) ==> m.date_created is None
            &&& !blank(instance.date_created@) ==> m.date_created.deep_view() == Some(
                trimmed(instance.date_created@),
            )
            &&& m.os_id is None <==> instance.os_id == 0
            &&& m.os_id matches Some(n) ==> n == instance.os_id
        },
{
}

/// All machines are read, each in its place, or none: the first whose tags cannot
/// be read ends the reading.
pub proof fn law_machines_read_alone_are_read_in_their_places(
    instances: Vec<VultrInstance>,
    decoded: Vec<Result<DecodedTags, String>>,
    r: Result<Vec<ObservedMachine>, String>,
    k: int,
)
    requires
        decoded@.len() == instances@.len(),
        call_ensures(normalize_vultr_inventory, (&instances, decoded), r),
        0 <= k < instances@.len(),
    ensures
        decoded@[k] is Err ==> r is Err,
        r is Err ==> exists|j: int| 0 <= j < instances@.len() && #[trigger] decoded@[j] is Err,
        r matches Ok(machines) ==> machines@.len() == instances@.len() && machines@[k].provider_id
            == instances@[k].id && machines@[k].label == instances@[k].label
            && machines@[k].ownership == decoded@[k]->Ok_0.ownership,
{
}

} // verus!
