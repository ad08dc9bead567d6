//! Removing an environment's shared resources once no machine needs them.

use crate::lists::{
    in_order, law_lining_up_orders_and_keeps, lemma_filter_members, lemma_filter_start,
    lemma_filter_step, lemma_placed_at, lined_up,
};
use crate::machine::{DesiredState, PlanDisposition, PlanMaterial};
use crate::once::ProviderFault;
use crate::order::{
    Rank, by_text, law_text_order_is_total, law_text_order_is_transitive, rank, sort_texts,
    text_le,
};
use crate::provider::{VultrFirewallGroup, VultrSshKey};
use crate::support::{
    GroupListing, KeyListing, ResolvedSshKey, SshKeyObservation, key_material, key_seen,
    managed_key_name, named, observe_managed_ssh_key, public_key_material,
};
use crate::text::{begins_with, cat2, cat3, cat4, same, starts_with};
use vstd::prelude::*;
use vstd::string::*;

verus! {

/// Whose a machine says it is.
#[derive(Debug, PartialEq, Eq)]
pub struct Ownership {
    pub managed_by: Option<String>,
    pub environment: Option<String>,
    pub logical_id: Option<String>,
}

/// A machine that is still there: its firewall, its tags, and what they say of
/// its owner, or why they say nothing.
#[derive(Debug, PartialEq, Eq)]
pub struct TaggedInstance {
    pub id: String,
    pub firewall_group_id: String,
    pub tags: Vec<String>,
    pub ownership: Result<Ownership, String>,
}

/// Whether a machine belongs to an environment of this controller.
pub open spec fn owned(
    instance: TaggedInstance,
    identity: Seq<char>,
    environment: Seq<char>,
) -> bool {
    &&& instance.ownership matches Ok(o)
    &&& o.managed_by matches Some(m)
    &&& m@ == identity
    &&& o.environment matches Some(e)
    &&& e@ == environment
}

/// The error for a machine whose tags cannot be read.
pub open spec fn unreadable_tags(id: Seq<char>, err: Seq<char>) -> Seq<char> {
    "cannot prove support-resource cleanup safety because instance "@ + id
        + " has invalid lifecycle tags: "@ + err
}

/// Whether a machine of the environment is among those given, or else the
/// error for the first of them whose tags cannot be read.
pub open spec fn in_use(
    instances: Seq<TaggedInstance>,
    identity: Seq<char>,
    environment: Seq<char>,
) -> Result<bool, Seq<char>>
    decreases instances.len(),
{
    if instances.len() == 0 {
        Ok(false)
    } else {
        match in_use(instances.drop_last(), identity, environment) {
            Err(e) => Err(e),
            Ok(before) => match instances.last().ownership {
                Err(e) => Err(unreadable_tags(instances.last().id@, e@)),
                Ok(_) => Ok(before || owned(instances.last(), identity, environment)),
            },
        }
    }
}

proof fn lemma_in_use_fails(
    instances: Seq<TaggedInstance>,
    identity: Seq<char>,
    environment: Seq<char>,
    i: int,
)
    requires
        0 <= i <= instances.len(),
        in_use(instances.take(i), identity, environment) is Err,
    ensures
        in_use(instances, identity, environment) == in_use(
            instances.take(i),
            identity,
            environment,
        ),
    decreases instances.len() - i,
{
    if i == instances.len() {
        assert(instances.take(i) =~= instances);
    } else {
        assert(instances.take(i + 1).drop_last() =~= instances.take(i));
        lemma_in_use_fails(instances, identity, environment, i + 1);
    }
}

fn same_option(a: &Option<String>, b: &str) -> (r: bool)
    ensures
        r == (a matches Some(t) && t@ == b@),
{
    match a {
        Some(t) => same(t.as_str(), b),
        None => false,
    }
}

/// Whether a machine of the environment is among those given. `identity` is
/// what this controller's machines are tagged with.
pub fn environment_in_use(
    instances: &Vec<TaggedInstance>,
    identity: &str,
    environment: &str,
) -> (r: Result<bool, String>)
    ensures
        match r {
            Ok(b) => in_use(instances@, identity@, environment@) == Ok::<bool, Seq<char>>(b),
            Err(e) => in_use(instances@, identity@, environment@) == Err::<bool, Seq<char>>(e@),
        },
{
    let mut used: bool = false;
    let mut i: usize = 0;
    while i < instances.len()
        invariant
            i <= instances@.len(),
            in_use(instances@.take(i as int), identity@, environment@) == Ok::<bool, Seq<char>>(
                used,
            ),
        decreases instances@.len() - i,
    {
        proof {
            assert(instances@.take(i + 1).drop_last() =~= instances@.take(i as int));
            assert(instances@.take(i + 1).last() == instances@[i as int]);
        }
        match &instances[i].ownership {
            Err(e) => {
                proof {
                    lemma_in_use_fails(instances@, identity@, environment@, i + 1);
                }
                return Err(
                    cat4(
                        "cannot prove support-resource cleanup safety because instance ",
                        instances[i].id.as_str(),
                        " has invalid lifecycle tags: ",
                        e.as_str(),
                    ),
                );
            },
            Ok(o) => {
                if same_option(&o.managed_by, identity) && same_option(
                    &o.environment,
                    environment,
                ) {
                    used = true;
                }
            },
        }
        i = i + 1;
    }
    assert(instances@.take(i as int) =~= instances@);
    Ok(used)
}

/// The start of the descriptions of an environment's firewalls.
pub open spec fn firewall_prefix(environment: Seq<char>) -> Seq<char> {
    "singbox-"@ + environment + "-fw-"@
}

/// Whether a firewall is one of the environment's.
pub open spec fn of_environment(environment: Seq<char>) -> spec_fn(VultrFirewallGroup) -> bool {
    |g: VultrFirewallGroup| begins_with(g.description@, firewall_prefix(environment))
}

/// The order of firewalls by their ids.
pub open spec fn by_group_id() -> spec_fn(VultrFirewallGroup, VultrFirewallGroup) -> bool {
    |a: VultrFirewallGroup, b: VultrFirewallGroup| text_le(a.id@, b.id@)
}

/// The environment's firewalls, ordered by id.
pub open spec fn environment_groups(groups: Seq<VultrFirewallGroup>, environment: Seq<char>) -> Seq<
    VultrFirewallGroup,
> {
    lined_up(groups.filter(of_environment(environment)), by_group_id())
}

/// The environment's firewalls are those whose descriptions say so, each of them
/// and none other, and they stand in the order of their ids.
pub proof fn law_environment_groups_are_its_own(
    groups: Seq<VultrFirewallGroup>,
    environment: Seq<char>,
)
    ensures
        forall|g: VultrFirewallGroup| #[trigger]
            environment_groups(groups, environment).contains(g) <==> groups.contains(g)
                && begins_with(g.description@, firewall_prefix(environment)),
        environment_groups(groups, environment).to_multiset() == groups.filter(
            of_environment(environment),
        ).to_multiset(),
        forall|i: int, j: int|
            0 <= i < j < environment_groups(groups, environment).len() ==> text_le(
                (#[trigger] environment_groups(groups, environment)[i]).id@,
                (#[trigger] environment_groups(groups, environment)[j]).id@,
            ),
{
    broadcast use vstd::seq_lib::group_to_multiset_ensures;

    let own = of_environment(environment);
    let le = by_group_id();
    let picked = groups.filter(own);
    let out = environment_groups(groups, environment);
    assert forall|a: VultrFirewallGroup, b: VultrFirewallGroup| #[trigger] le(a, b) || le(b, a) by {
        law_text_order_is_total(a.id@, b.id@);
    }
    assert forall|a: VultrFirewallGroup, b: VultrFirewallGroup, c: VultrFirewallGroup| #[trigger]
        le(a, b) && #[trigger] le(b, c) implies le(a, c) by {
        law_text_order_is_transitive(a.id@, b.id@, c.id@);
    }
    law_lining_up_orders_and_keeps(picked, le);
    lemma_filter_members(groups, own);
    assert forall|g: VultrFirewallGroup| #[trigger] out.contains(g) <==> groups.contains(g)
        && begins_with(g.description@, firewall_prefix(environment)) by {
        assert(out.contains(g) <==> out.to_multiset().count(g) > 0);
        assert(picked.contains(g) <==> picked.to_multiset().count(g) > 0);
        assert(own(g) == begins_with(g.description@, firewall_prefix(environment)));
    }
    assert forall|i: int, j: int| 0 <= i < j < out.len() implies text_le(
        (#[trigger] out[i]).id@,
        (#[trigger] out[j]).id@,
    ) by {
        assert(le(out[i], out[j]));
    }
}

/// Whether a machine still uses the firewall with that id.
pub open spec fn attached(instances: Seq<TaggedInstance>, id: Seq<char>) -> bool {
    exists|i: int| 0 <= i < instances.len() && #[trigger] instances[i].firewall_group_id@ == id
}

fn is_attached(instances: &Vec<TaggedInstance>, id: &str) -> (r: bool)
    ensures
        r == attached(instances@, id@),
{
    let mut i: usize = 0;
    while i < instances.len()
        invariant
            i <= instances@.len(),
            forall|k: int| 0 <= k < i ==> #[trigger] instances@[k].firewall_group_id@ != id@,
        decreases instances@.len() - i,
    {
        if same(instances[i].firewall_group_id.as_str(), id) {
            return true;
        }
        i = i + 1;
    }
    false
}

/// Whether the firewall at `k` repeats the description of an earlier one.
pub open spec fn repeats_description(groups: Seq<VultrFirewallGroup>, k: int) -> bool {
    exists|j: int| 0 <= j < k && #[trigger] groups[j].description@ == groups[k].description@
}

/// Why the firewall at `k` may not be removed, if it may not.
pub open spec fn group_obstacle(
    groups: Seq<VultrFirewallGroup>,
    instances: Seq<TaggedInstance>,
    k: int,
) -> Option<Seq<char>> {
    if repeats_description(groups, k) {
        Some(
            "support-resource cleanup is ambiguous: duplicate managed firewall description "@
                + groups[k].description@,
        )
    } else if attached(instances, groups[k].id@) {
        Some(
            "support-resource cleanup refused: firewall group "@ + groups[k].id@
                + " is still attached to provider instance"@,
        )
    } else {
        None
    }
}

/// Whether `result` is the environment's firewalls, all free to be removed, or
/// else the error for the first that is not.
pub open spec fn removable(
    listing: GroupListing,
    environment: Seq<char>,
    instances: Seq<TaggedInstance>,
    result: Result<Vec<VultrFirewallGroup>, String>,
) -> bool {
    match listing {
        Err(fault) => result matches Err(e) && e@ == fault.message@,
        Ok(all) => {
            let groups = environment_groups(all@, environment);
            match result {
                Ok(picked) => picked@ == groups && forall|k: int|
                    0 <= k < groups.len() ==> #[trigger] group_obstacle(groups, instances, k)
                        is None,
                Err(e) => exists|k: int|
                    0 <= k < groups.len() && #[trigger] group_obstacle(groups, instances, k)
                        == Some(e@) && forall|j: int|
                        0 <= j < k ==> #[trigger] group_obstacle(groups, instances, j) is None,
            }
        },
    }
}

fn repeats(groups: &Vec<VultrFirewallGroup>, k: usize) -> (r: bool)
    requires
        k < groups@.len(),
    ensures
        r == repeats_description(groups@, k as int),
{
    let mut j: usize = 0;
    while j < k
        invariant
            j <= k < groups@.len(),
            forall|i: int|
                0 <= i < j ==> #[trigger] groups@[i].description@ != groups@[k as int].description@,
        decreases k - j,
    {
        if same(groups[j].description.as_str(), groups[k].description.as_str()) {
            return true;
        }
        j = j + 1;
    }
    false
}

/// Picks the environment's firewalls from a listing and checks that each may
/// be removed.
pub fn removable_groups(
    listing: &GroupListing,
    environment: &str,
    instances: &Vec<TaggedInstance>,
) -> (r: Result<Vec<VultrFirewallGroup>, String>)
    ensures
        removable(*listing, environment@, instances@, r),
{
    let all: &Vec<VultrFirewallGroup> = match listing {
        Err(fault) => return Err(fault.message.clone()),
        Ok(all) => all,
    };
    let prefix: String = cat3("singbox-", environment, "-fw-");
    let mut groups: Vec<VultrFirewallGroup> = Vec::new();
    let mut n: usize = 0;
    let ghost own = of_environment(environment@);
    let ghost le = by_group_id();
    proof {
        lemma_filter_start(all@, own);
    }
    while n < all.len()
        invariant
            n <= all@.len(),
            prefix@ == firewall_prefix(environment@),
            own == of_environment(environment@),
            le == by_group_id(),
            groups@ == lined_up(all@.take(n as int).filter(own), le),
        decreases all@.len() - n,
    {
        proof {
            lemma_filter_step(all@, own, n as int);
        }
        if starts_with(all[n].description.as_str(), prefix.as_str()) {
            let group: VultrFirewallGroup = all[n].copy();
            let ghost before = groups@;
            let mut i: usize = groups.len();
            while i > 0
                invariant_except_break
                    i <= groups@.len(),
                    groups@ == before,
                    le == by_group_id(),
                    forall|k: int| i <= k < groups@.len() ==> !le(#[trigger] before[k], group),
                ensures
                    i <= groups@.len(),
                    groups@ == before,
                    forall|k: int| i <= k < groups@.len() ==> !le(#[trigger] before[k], group),
                    i > 0 ==> le(before[i - 1], group),
                decreases i,
            {
                proof {
                    law_text_order_is_total(before[i - 1].id@, group.id@);
                }
                match rank(groups[i - 1].id.as_str(), group.id.as_str()) {
                    Rank::Greater => {},
                    _ => {
                        break;
                    },
                }
                i = i - 1;
            }
            proof {
                lemma_placed_at(before, group, le, i as int);
                let picked = all@.take(n as int).filter(own);
                assert(picked.push(group).drop_last() =~= picked);
            }
            groups.insert(i, group);
        }
        n = n + 1;
    }
    assert(all@.take(n as int) =~= all@);
    let mut k: usize = 0;
    while k < groups.len()
        invariant
            k <= groups@.len(),
            groups@ == environment_groups(all@, environment@),
            *listing == Ok::<Vec<VultrFirewallGroup>, ProviderFault>(*all),
            forall|j: int|
                0 <= j < k ==> #[trigger] group_obstacle(groups@, instances@, j) is None,
        decreases groups@.len() - k,
    {
        if repeats(&groups, k) {
            let e: String = cat2(
                "support-resource cleanup is ambiguous: duplicate managed firewall description ",
                groups[k].description.as_str(),
            );
            assert(group_obstacle(groups@, instances@, k as int) == Some(e@));
            return Err(e);
        }
        if is_attached(instances, groups[k].id.as_str()) {
            let e: String = cat3(
                "support-resource cleanup refused: firewall group ",
                groups[k].id.as_str(),
                " is still attached to provider instance",
            );
            assert(group_obstacle(groups@, instances@, k as int) == Some(e@));
            return Err(e);
        }
        k = k + 1;
    }
    Ok(groups)
}

/// What is left of the environment's key, as far as a listing decides it.
pub open spec fn key_to_remove(
    listing: KeyListing,
    environment: Seq<char>,
    material: Seq<char>,
    result: Result<Option<ResolvedSshKey>, String>,
) -> bool {
    match listing {
        Err(fault) => result matches Err(e) && e@ == fault.message@,
        Ok(keys) => match result {
            Ok(Some(key)) => key_seen(
                keys@,
                managed_key_name(environment),
                material,
                Ok(SshKeyObservation::Exact(key)),
            ),
            Ok(None) => key_seen(
                keys@,
                managed_key_name(environment),
                material,
                Ok(SshKeyObservation::Absent),
            ),
            Err(e) => key_seen(
                keys@,
                managed_key_name(environment),
                material,
                Ok(SshKeyObservation::Conflict(e)),
            ) || key_seen(keys@, managed_key_name(environment), material, Err(e@)),
        },
    }
}

/// Picks the environment's key from a listing.
pub fn removable_key(listing: &KeyListing, environment: &str, material: &str) -> (r: Result<
    Option<ResolvedSshKey>,
    String,
>)
    ensures
        key_to_remove(*listing, environment@, material@, r),
{
    let keys: &Vec<VultrSshKey> = match listing {
        Err(fault) => return Err(fault.message.clone()),
        Ok(keys) => keys,
    };
    let name: String = cat3("singbox-", environment, "-ops");
    match observe_managed_ssh_key(keys, name.as_str(), material) {
        Err(e) => Err(e),
        Ok(SshKeyObservation::Conflict(e)) => Err(e),
        Ok(SshKeyObservation::Exact(key)) => Ok(Some(key)),
        Ok(SshKeyObservation::Absent) => Ok(None),
    }
}

/// What a cleanup has removed.
#[derive(Debug, Clone, PartialEq, Eq)]
pub struct SupportCleanupReport {
    pub environment_in_use: bool,
    pub ssh_key_removed: bool,
    pub firewall_groups_removed: Vec<String>,
}

/// What a cleanup is going to do.
#[derive(Debug, PartialEq, Eq)]
pub struct SupportCleanupPlan {
    pub action: &'static str,
    pub disposition: PlanDisposition,
    pub environment_in_use: bool,
    pub firewall_group_ids: Vec<String>,
    pub ssh_key_id: Option<String>,
}

pub open spec fn group_ids(groups: Seq<VultrFirewallGroup>) -> Seq<String> {
    groups.map_values(|g: VultrFirewallGroup| g.id)
}

fn ids_of_groups(groups: &Vec<VultrFirewallGroup>) -> (r: Vec<String>)
    ensures
        r@ == group_ids(groups@),
{
    let mut out: Vec<String> = Vec::new();
    let mut i: usize = 0;
    while i < groups.len()
        invariant
            i <= groups@.len(),
            out@ == group_ids(groups@.take(i as int)),
        decreases groups@.len() - i,
    {
        out.push(groups[i].id.clone());
        i = i + 1;
        assert(group_ids(groups@.take(i as int)) =~= group_ids(groups@.take(i - 1)).push(
            groups@[i - 1].id,
        ));
    }
    assert(groups@.take(i as int) =~= groups@);
    out
}

/// The plan for an environment that a machine still belongs to: nothing.
pub fn plan_for_environment_in_use() -> (r: SupportCleanupPlan)
    ensures
        in_use_plan(r),
{
    SupportCleanupPlan {
        action: "NOOP",
        disposition: PlanDisposition::Noop,
        environment_in_use: true,
        firewall_group_ids: Vec::new(),
        ssh_key_id: None,
    }
}

fn copy_groups(groups: &Vec<VultrFirewallGroup>) -> (r: Vec<VultrFirewallGroup>)
    ensures
        r@ == groups@,
{
    let mut out: Vec<VultrFirewallGroup> = Vec::new();
    let mut i: usize = 0;
    while i < groups.len()
        invariant
            i <= groups@.len(),
            out@ == groups@.take(i as int),
        decreases groups@.len() - i,
    {
        out.push(
            VultrFirewallGroup {
                id: groups[i].id.clone(),
                description: groups[i].description.clone(),
            },
        );
        i = i + 1;
        assert(groups@.take(i as int) =~= groups@.take(i - 1).push(groups@[i - 1]));
    }
    assert(groups@.take(i as int) =~= groups@);
    out
}

/// Whether a plan is to remove those firewalls and that key, and is none where
/// there is nothing to remove.
pub open spec fn free_plan(
    groups: Seq<VultrFirewallGroup>,
    key: Option<ResolvedSshKey>,
    plan: SupportCleanupPlan,
) -> bool {
    &&& !plan.environment_in_use
    &&& plan.firewall_group_ids@ == group_ids(groups)
    &&& match key {
        Some(k) => plan.ssh_key_id == Some(k.id),
        None => plan.ssh_key_id is None,
    }
    &&& if groups.len() == 0 && key is None {
        plan.disposition is Noop && plan.action@ == "NOOP"@
    } else {
        plan.disposition is Mutate && plan.action@ == "CLEANUP"@
    }
}

/// The plan for an environment that no machine belongs to.
pub fn plan_support_cleanup(groups: &Vec<VultrFirewallGroup>, key: &Option<ResolvedSshKey>) -> (r:
    SupportCleanupPlan)
    ensures
        free_plan(groups@, *key, r),
{
    let nothing: bool = groups.len() == 0 && key.is_none();
    SupportCleanupPlan {
        action: if nothing {
            "NOOP"
        } else {
            "CLEANUP"
        },
        disposition: if nothing {
            PlanDisposition::Noop
        } else {
            PlanDisposition::Mutate
        },
        environment_in_use: false,
        firewall_group_ids: ids_of_groups(groups),
        ssh_key_id: match key {
            Some(k) => Some(k.id.clone()),
            None => None,
        },
    }
}

/// The order of machines by their ids.
pub open spec fn by_instance_id() -> spec_fn(TaggedInstance, TaggedInstance) -> bool {
    |a: TaggedInstance, b: TaggedInstance| text_le(a.id@, b.id@)
}

fn sort_instances(instances: Vec<TaggedInstance>) -> (r: Vec<TaggedInstance>)
    ensures
        r@ == lined_up(instances@, by_instance_id()),
{
    let ghost all = instances@;
    let ghost le = by_instance_id();
    let mut left: Vec<TaggedInstance> = instances;
    let mut out: Vec<TaggedInstance> = Vec::new();
    let ghost mut n: int = 0;
    while left.len() > 0
        invariant
            0 <= n <= all.len(),
            le == by_instance_id(),
            left@ == all.skip(n),
            out@ == lined_up(all.take(n), le),
        decreases left@.len(),
    {
        let instance: TaggedInstance = left.remove(0);
        proof {
            assert(instance == all[n]);
            assert(left@ =~= all.skip(n + 1));
            assert(all.take(n + 1).drop_last() =~= all.take(n));
        }
        let ghost before = out@;
        let mut i: usize = out.len();
        while i > 0
            invariant_except_break
                i <= out@.len(),
                out@ == before,
                le == by_instance_id(),
                forall|k: int| i <= k < out@.len() ==> !le(#[trigger] before[k], instance),
            ensures
                i <= out@.len(),
                out@ == before,
                forall|k: int| i <= k < out@.len() ==> !le(#[trigger] before[k], instance),
                i > 0 ==> le(before[i - 1], instance),
            decreases i,
        {
            proof {
                law_text_order_is_total(before[i - 1].id@, instance.id@);
            }
            match rank(out[i - 1].id.as_str(), instance.id.as_str()) {
                Rank::Greater => {},
                _ => {
                    break;
                },
            }
            i = i - 1;
        }
        proof {
            lemma_placed_at(before, instance, le, i as int);
            n = n + 1;
        }
        out.insert(i, instance);
    }
    assert(all.take(n) =~= all);
    out
}

/// What an authority binds of a machine.
#[derive(Debug, PartialEq, Eq)]
pub struct InstanceMaterial {
    pub id: String,
    pub firewall_group_id: String,
    /// In order.
    pub tags: Vec<String>,
}

/// What an authority binds of a key.
#[derive(Debug, PartialEq, Eq)]
pub struct KeyMaterial {
    pub id: String,
    pub name: String,
    /// The part of the key that identifies it.
    pub public_key: String,
}

/// What a cleanup is wanted for.
#[derive(Debug, PartialEq, Eq)]
pub struct CleanupDesired<'a> {
    pub desired: &'a DesiredState,
    /// The part of the controller's key that identifies it.
    pub canonical_ssh_public_key: String,
}

/// What was seen before a cleanup.
#[derive(Debug, PartialEq, Eq)]
pub enum CleanupObserved {
    /// A machine belongs to the environment: nothing else was looked at.
    InUse { instances: Vec<InstanceMaterial> },
    Free {
        instances: Vec<InstanceMaterial>,
        firewall_groups: Vec<VultrFirewallGroup>,
        ssh_key: Option<KeyMaterial>,
    },
}

/// What the authority over a cleanup binds.
pub type CleanupMaterial<'a> = PlanMaterial<
    CleanupDesired<'a>,
    CleanupObserved,
    SupportCleanupPlan,
>;

/// What a plan for a cleanup turns on, as far as the machines and the
/// controller's key decide it.
#[derive(Debug, PartialEq, Eq)]
pub enum CleanupAuthority<'a> {
    /// A machine still belongs to the environment, and the plan is bound so.
    InUse(CleanupMaterial<'a>),
    /// No machine belongs to the environment: its firewalls and then its key are
    /// to be looked for, with these machines and this key in mind.
    Free { instances: Vec<TaggedInstance>, material: String },
}

/// Whether a plan is to do nothing because a machine still belongs to the
/// environment.
pub open spec fn in_use_plan(plan: SupportCleanupPlan) -> bool {
    &&& plan.action@ == "NOOP"@
    &&& plan.disposition is Noop
    &&& plan.environment_in_use
    &&& plan.firewall_group_ids@.len() == 0
    &&& plan.ssh_key_id is None
}

/// Whether that is what is bound of a machine.
pub open spec fn binds_instance(instance: TaggedInstance, bound: InstanceMaterial) -> bool {
    &&& bound.id == instance.id
    &&& bound.firewall_group_id == instance.firewall_group_id
    &&& bound.tags@ == lined_up(instance.tags@, by_text())
}

/// Whether that is what is bound of machines.
pub open spec fn binds_instances(
    instances: Seq<TaggedInstance>,
    bound: Seq<InstanceMaterial>,
) -> bool {
    &&& bound.len() == instances.len()
    &&& forall|i: int|
        0 <= i < instances.len() ==> binds_instance(#[trigger] instances[i], bound[i])
}

/// Whether that is what is bound of a key which is the controller's.
pub open spec fn binds_key(
    key: Option<ResolvedSshKey>,
    material: Seq<char>,
    bound: Option<KeyMaterial>,
) -> bool {
    match (key, bound) {
        (None, None) => true,
        (Some(k), Some(b)) => b.id == k.id && b.name == k.name && b.public_key@ == material,
        _ => false,
    }
}

/// Whether the authority over a cleanup is bound to that environment and that
/// key, and to a plan that amounts to what it says.
pub open spec fn binds_cleanup(
    desired: DesiredState,
    material: Seq<char>,
    bound: CleanupMaterial,
) -> bool {
    &&& bound.scope@ == "vultr_support_cleanup"@
    &&& *bound.desired.desired == desired
    &&& bound.desired.canonical_ssh_public_key@ == material
    &&& bound.disposition == bound.plan.disposition
}

fn instances_material(instances: &Vec<TaggedInstance>) -> (r: Vec<InstanceMaterial>)
    ensures
        binds_instances(instances@, r@),
{
    let mut out: Vec<InstanceMaterial> = Vec::new();
    let mut i: usize = 0;
    while i < instances.len()
        invariant
            i <= instances@.len(),
            out@.len() == i,
            forall|k: int| 0 <= k < i ==> binds_instance(#[trigger] instances@[k], out@[k]),
        decreases instances@.len() - i,
    {
        out.push(
            InstanceMaterial {
                id: instances[i].id.clone(),
                firewall_group_id: instances[i].firewall_group_id.clone(),
                tags: sort_texts(&instances[i].tags),
            },
        );
        i = i + 1;
    }
    out
}

/// Begins to plan a cleanup from the machines that are left, taken in the order
/// of their ids.
pub fn build_support_cleanup_authority<'a>(
    desired: &'a DesiredState,
    instances: Vec<TaggedInstance>,
    identity: &str,
    canonical_public_key: &str,
) -> (r: Result<CleanupAuthority<'a>, String>)
    ensures
        match in_use(lined_up(instances@, by_instance_id()), identity@, desired.environment@) {
            Err(words) => r matches Err(e) && e@ == words,
            Ok(used) => match key_material(canonical_public_key@) {
                Err(words) => r matches Err(e) && e@ == words,
                Ok(key) => if used {
                    r matches Ok(CleanupAuthority::InUse(bound)) && {
                        &&& binds_cleanup(*desired, key, bound)
                        &&& in_use_plan(bound.plan)
                        &&& bound.observed matches CleanupObserved::InUse { instances: seen }
                        &&& binds_instances(lined_up(instances@, by_instance_id()), seen@)
                    }
                } else {
                    r matches Ok(CleanupAuthority::Free { instances: kept, material })
                        && kept@ == lined_up(instances@, by_instance_id()) && material@ == key
                },
            },
        },
{
    let kept: Vec<TaggedInstance> = sort_instances(instances);
    let used: bool = match environment_in_use(&kept, identity, desired.environment.as_str()) {
        Err(e) => return Err(e),
        Ok(used) => used,
    };
    let material: String = match public_key_material(canonical_public_key) {
        Err(e) => return Err(e),
        Ok(material) => material,
    };
    if used {
        Ok(
            CleanupAuthority::InUse(
                PlanMaterial {
                    scope: "vultr_support_cleanup",
                    desired: CleanupDesired { desired, canonical_ssh_public_key: material },
                    observed: CleanupObserved::InUse { instances: instances_material(&kept) },
                    plan: plan_for_environment_in_use(),
                    disposition: PlanDisposition::Noop,
                },
            ),
        )
    } else {
        Ok(CleanupAuthority::Free { instances: kept, material })
    }
}

/// What the authority over the cleanup of an environment without a machine
/// binds: the machines that are left elsewhere, the environment's firewalls,
/// its key, and the plan to remove both.
pub fn cleanup_material<'a>(
    desired: &'a DesiredState,
    instances: &Vec<TaggedInstance>,
    groups: &Vec<VultrFirewallGroup>,
    key: &Option<ResolvedSshKey>,
    material: String,
) -> (r: CleanupMaterial<'a>)
    ensures
        binds_cleanup(*desired, material@, r),
        r.observed matches CleanupObserved::Free { instances: seen, firewall_groups, ssh_key }
            && binds_instances(instances@, seen@) && firewall_groups@ == groups@ && binds_key(
            *key,
            material@,
            ssh_key,
        ),
        free_plan(groups@, *key, r.plan),
{
    let ssh_key: Option<KeyMaterial> = match key {
        None => None,
        Some(k) => Some(
            KeyMaterial { id: k.id.clone(), name: k.name.clone(), public_key: material.clone() },
        ),
    };
    let plan: SupportCleanupPlan = plan_support_cleanup(groups, key);
    PlanMaterial {
        scope: "vultr_support_cleanup",
        desired: CleanupDesired { desired, canonical_ssh_public_key: material },
        observed: CleanupObserved::Free {
            instances: instances_material(instances),
            firewall_groups: copy_groups(groups),
            ssh_key,
        },
        disposition: plan.disposition,
        plan,
    }
}

/// The removal of an environment's shared resources: the firewalls in order,
/// then the key.
#[derive(Debug, PartialEq, Eq)]
pub struct SupportCleanup {
    pub groups: Vec<VultrFirewallGroup>,
    pub key: Option<ResolvedSshKey>,
    /// How many of the firewalls are removed.
    pub groups_removed: usize,
    pub key_removed: bool,
}

/// What a cleanup asks for.
#[derive(Debug, PartialEq, Eq)]
pub enum CleanupAsk {
    RemoveGroup { id: String },
    RemoveKey { id: String },
    Finish(SupportCleanupReport),
}

/// Whether `ask` is what comes next in a cleanup.
pub open spec fn cleanup_asks(cleanup: SupportCleanup, ask: CleanupAsk) -> bool {
    if cleanup.groups_removed < cleanup.groups@.len() {
        ask == (CleanupAsk::RemoveGroup { id: cleanup.groups@[cleanup.groups_removed as int].id })
    } else if cleanup.key is Some && !cleanup.key_removed {
        ask == (CleanupAsk::RemoveKey { id: cleanup.key->0.id })
    } else {
        ask matches CleanupAsk::Finish(report) && !report.environment_in_use
            && report.ssh_key_removed == cleanup.key is Some && report.firewall_groups_removed@
            == group_ids(cleanup.groups@)
    }
}

impl SupportCleanup {
    pub fn new(groups: Vec<VultrFirewallGroup>, key: Option<ResolvedSshKey>) -> (r: SupportCleanup)
        ensures
            r == (SupportCleanup { groups, key, groups_removed: 0, key_removed: false }),
    {
        SupportCleanup { groups, key, groups_removed: 0, key_removed: false }
    }

    /// What comes next.
    pub fn cleanup_environment_support_resources(&self) -> (r: CleanupAsk)
        ensures
            cleanup_asks(*self, r),
    {
        if self.groups_removed < self.groups.len() {
            return CleanupAsk::RemoveGroup { id: self.groups[self.groups_removed].id.clone() };
        }
        match &self.key {
            Some(key) => {
                if !self.key_removed {
                    return CleanupAsk::RemoveKey { id: key.id.clone() };
                }
            },
            None => {},
        }
        CleanupAsk::Finish(
            SupportCleanupReport {
                environment_in_use: false,
                ssh_key_removed: self.key.is_some(),
                firewall_groups_removed: ids_of_groups(&self.groups),
            },
        )
    }

    /// Counts what was asked for last as removed.
    pub fn removed(self) -> (r: SupportCleanup)
        ensures
            r == if self.groups_removed < self.groups@.len() {
                SupportCleanup { groups_removed: (self.groups_removed + 1) as usize, ..self }
            } else {
                SupportCleanup { key_removed: true, ..self }
            },
    {
        if self.groups_removed < self.groups.len() {
            SupportCleanup { groups_removed: self.groups_removed + 1, ..self }
        } else {
            SupportCleanup { key_removed: true, ..self }
        }
    }
}

/// The report for an environment that a machine still belongs to.
pub fn report_environment_in_use() -> (r: SupportCleanupReport)
    ensures
        r.environment_in_use,
        !r.ssh_key_removed,
        r.firewall_groups_removed@.len() == 0,
{
    SupportCleanupReport {
        environment_in_use: true,
        ssh_key_removed: false,
        firewall_groups_removed: Vec::new(),
    }
}

/// A cleanup asks for the removal of no firewall but the environment's own, and
/// of none that a machine still uses.
pub proof fn law_cleanup_removes_only_free_resources_of_the_environment(
    listing: GroupListing,
    environment: Seq<char>,
    instances: Seq<TaggedInstance>,
    groups: Vec<VultrFirewallGroup>,
    cleanup: SupportCleanup,
    id: String,
)
    requires
        removable(listing, environment, instances, Ok(groups)),
        cleanup.groups == groups,
        cleanup_asks(cleanup, CleanupAsk::RemoveGroup { id }),
    ensures
        !attached(instances, id@),
        listing matches Ok(all) && exists|i: int|
            0 <= i < all@.len() && (#[trigger] all@[i]).id == id && begins_with(
                all@[i].description@,
                firewall_prefix(environment),
            ),
{
    let all = listing->Ok_0@;
    let k = cleanup.groups_removed as int;
    let picked = environment_groups(all, environment);
    law_environment_groups_are_its_own(all, environment);
    assert(group_obstacle(picked, instances, k) is None);
    assert(picked.contains(picked[k]));
    assert(all.contains(picked[k]));
    let i = choose|i: int| 0 <= i < all.len() && all[i] == picked[k];
    assert(all[i].id == id);
}

proof fn lemma_in_use(instances: Seq<TaggedInstance>, identity: Seq<char>, environment: Seq<char>)
    ensures
        in_use(instances, identity, environment) is Ok <==> forall|i: int|
            0 <= i < instances.len() ==> (#[trigger] instances[i]).ownership is Ok,
        in_use(instances, identity, environment) matches Ok(used) ==> (used <==> exists|i: int|
            0 <= i < instances.len() && owned(#[trigger] instances[i], identity, environment)),
    decreases instances.len(),
{
    if instances.len() > 0 {
        let head = instances.drop_last();
        lemma_in_use(head, identity, environment);
        let n = instances.len() - 1;
        assert(instances[n] == instances.last());
        if in_use(instances, identity, environment) is Ok {
            assert forall|i: int| 0 <= i < instances.len() implies (
            #[trigger] instances[i]).ownership is Ok by {
                if i < n {
                    assert(instances[i] == head[i]);
                }
            }
            if in_use(head, identity, environment)->Ok_0 {
                let i = choose|i: int|
                    0 <= i < head.len() && owned(#[trigger] head[i], identity, environment);
                assert(instances[i] == head[i]);
            }
            if exists|i: int|
                0 <= i < instances.len() && owned(#[trigger] instances[i], identity, environment) {
                let i = choose|i: int|
                    0 <= i < instances.len() && owned(
                        #[trigger] instances[i],
                        identity,
                        environment,
                    );
                if i < n {
                    assert(head[i] == instances[i]);
                }
            }
        } else if in_use(head, identity, environment) is Err {
            let i = choose|i: int|
                0 <= i < head.len() && !((#[trigger] head[i]).ownership is Ok);
            assert(instances[i] == head[i]);
        } else {
            assert(!(instances[n].ownership is Ok));
        }
    }
}

/// An environment is in use exactly if some machine carries both the
/// controller's mark and the environment's; and where the tags of any machine
/// cannot be read, nothing is said at all.
pub proof fn law_an_environment_is_in_use_by_its_machines(
    instances: Vec<TaggedInstance>,
    identity: &str,
    environment: &str,
    r: Result<bool, String>,
)
    requires
        call_ensures(environment_in_use, (&instances, identity, environment), r),
    ensures
        r is Err <==> exists|i: int|
            0 <= i < instances@.len() && (#[trigger] instances@[i]).ownership is Err,
        r matches Ok(used) ==> (used <==> exists|i: int|
            0 <= i < instances@.len() && ((#[trigger] instances@[i]).ownership matches Ok(o)
                && o.managed_by is Some && o.managed_by->Some_0@ == identity@ && o.environment
                is Some && o.environment->Some_0@ == environment@)),
{
    let all = instances@;
    lemma_in_use(all, identity@, environment@);
    if r is Ok {
        if r->Ok_0 {
            let i = choose|i: int|
                0 <= i < all.len() && owned(#[trigger] all[i], identity@, environment@);
            assert(all[i].ownership is Ok);
        }
        if exists|i: int|
            0 <= i < all.len() && ((#[trigger] all[i]).ownership matches Ok(o) && o.managed_by
                is Some && o.managed_by->Some_0@ == identity@ && o.environment is Some
                && o.environment->Some_0@ == environment@) {
            let i = choose|i: int|
                0 <= i < all.len() && ((#[trigger] all[i]).ownership matches Ok(o)
                    && o.managed_by is Some && o.managed_by->Some_0@ == identity@
                    && o.environment is Some && o.environment->Some_0@ == environment@);
            assert(owned(all[i], identity@, environment@));
        }
    }
}

proof fn lemma_instances_by_id(instances: Seq<TaggedInstance>)
    ensures
        in_order(lined_up(instances, by_instance_id()), by_instance_id()),
        lined_up(instances, by_instance_id()).to_multiset() == instances.to_multiset(),
{
    let le = by_instance_id();
    assert forall|a: TaggedInstance, b: TaggedInstance| #[trigger] le(a, b) || le(b, a) by {
        law_text_order_is_total(a.id@, b.id@);
    }
    assert forall|a: TaggedInstance, b: TaggedInstance, c: TaggedInstance|
        #[trigger] le(a, b) && #[trigger] le(b, c) implies le(a, c) by {
        law_text_order_is_transitive(a.id@, b.id@, c.id@);
    }
    law_lining_up_orders_and_keeps(instances, le);
}

/// Nothing is removed as long as a machine belongs to the environment, and what
/// is looked for to be removed is looked for with every machine in mind. A
/// machine whose tags cannot be read keeps everything as it is.
pub proof fn law_nothing_is_removed_from_an_environment_in_use(
    desired: DesiredState,
    instances: Vec<TaggedInstance>,
    identity: &str,
    key: &str,
    r: Result<CleanupAuthority, String>,
    k: int,
)
    requires
        call_ensures(build_support_cleanup_authority, (&desired, instances, identity, key), r),
        0 <= k < instances@.len(),
    ensures
        instances@[k].ownership is Err ==> r is Err,
        r is Ok && (instances@[k].ownership matches Ok(o) && o.managed_by is Some
            && o.managed_by->Some_0@ == identity@ && o.environment is Some
            && o.environment->Some_0@ == desired.environment@) ==> (r matches Ok(
            CleanupAuthority::InUse(bound),
        ) && bound.plan.disposition is Noop && bound.disposition is Noop
            && bound.plan.firewall_group_ids@.len() == 0 && bound.plan.ssh_key_id is None
            && bound.plan.environment_in_use),
        r matches Ok(CleanupAuthority::Free { instances: kept, .. }) ==> kept@.to_multiset()
            == instances@.to_multiset(),
{
    let sorted = lined_up(instances@, by_instance_id());
    lemma_instances_by_id(instances@);
    lemma_in_use(sorted, identity@, desired.environment@);
    sorted.to_multiset_ensures();
    instances@.to_multiset_ensures();
    assert(instances@.contains(instances@[k]));
    assert(instances@.to_multiset().count(instances@[k]) > 0);
    assert(sorted.to_multiset().count(instances@[k]) > 0);
    assert(sorted.contains(instances@[k]));
    let i = choose|i: int| 0 <= i < sorted.len() && sorted[i] == instances@[k];
    assert(sorted[i] == instances@[k]);
    if instances@[k].ownership matches Ok(o) && o.managed_by is Some && o.managed_by->Some_0@
        == identity@ && o.environment is Some && o.environment->Some_0@ == desired.environment@ {
        assert(owned(sorted[i], identity@, desired.environment@));
    }
}

/// The firewalls that are removed are exactly those described as the
/// environment's, and they are removed only where no machine uses any of them
/// and no two claim to be the same.
pub proof fn law_only_unused_firewalls_are_removed(
    groups: Vec<VultrFirewallGroup>,
    environment: &str,
    instances: Vec<TaggedInstance>,
    r: Result<Vec<VultrFirewallGroup>, String>,
    g: VultrFirewallGroup,
)
    requires
        call_ensures(
            removable_groups,
            (&Ok::<Vec<VultrFirewallGroup>, ProviderFault>(groups), environment, &instances),
            r,
        ),
    ensures
        r matches Ok(picked) ==> {
            &&& picked@.contains(g) <==> groups@.contains(g) && begins_with(
                g.description@,
                "singbox-"@ + environment@ + "-fw-"@,
            )
            &&& picked@.contains(g) ==> forall|i: int|
                0 <= i < instances@.len() ==> (#[trigger] instances@[i]).firewall_group_id@ != g.id@
            &&& forall|i: int, j: int|
                0 <= i < j < picked@.len() ==> (#[trigger] picked@[i]).description@ != (
                #[trigger] picked@[j]).description@
        },
        r is Err ==> exists|x: VultrFirewallGroup|
            groups@.contains(x) && #[trigger] begins_with(
                x.description@,
                "singbox-"@ + environment@ + "-fw-"@,
            ),
{
    law_environment_groups_are_its_own(groups@, environment@);
    let own = environment_groups(groups@, environment@);
    if r is Ok {
        let picked = r->Ok_0@;
        if picked.contains(g) {
            let k = choose|k: int| 0 <= k < picked.len() && picked[k] == g;
            assert(group_obstacle(own, instances@, k) is None);
            assert forall|i: int| 0 <= i < instances@.len() implies (
            #[trigger] instances@[i]).firewall_group_id@ != g.id@ by {
                assert(!attached(instances@, own[k].id@));
            }
        }
        assert forall|i: int, j: int| 0 <= i < j < picked.len() implies (
        #[trigger] picked[i]).description@ != (#[trigger] picked[j]).description@ by {
            assert(group_obstacle(own, instances@, j) is None);
            assert(!repeats_description(own, j));
        }
    } else {
        let k = choose|k: int|
            0 <= k < own.len() && #[trigger] group_obstacle(own, instances@, k) == Some(r->Err_0@);
        assert(own.contains(own[k]));
        assert(groups@.contains(own[k]));
        assert(begins_with(own[k].description@, firewall_prefix(environment@)));
    }
}

/// A cleanup removes each firewall and then the key, tells exactly what it has
/// removed, and ends.
pub proof fn law_cleanups_remove_all_there_is(
    state: SupportCleanup,
    ask: CleanupAsk,
    after: SupportCleanup,
)
    requires
        call_ensures(SupportCleanup::cleanup_environment_support_resources, (&state,), ask),
        call_ensures(SupportCleanup::removed, (state,), after),
    ensures
        ask is RemoveGroup <==> state.groups_removed < state.groups@.len(),
        ask matches CleanupAsk::RemoveGroup { id } ==> id
            == state.groups@[state.groups_removed as int].id && after.groups_removed
            == state.groups_removed + 1,
        ask matches CleanupAsk::RemoveKey { id } ==> (state.key matches Some(k) && id == k.id)
            && after.key_removed,
        ask is Finish ==> state.groups_removed >= state.groups@.len() && (state.key is None
            || state.key_removed),
        ask matches CleanupAsk::Finish(report) ==> !report.environment_in_use && (
        report.ssh_key_removed <==> state.key is Some) && report.firewall_groups_removed@.len()
            == state.groups@.len(),
        state.groups_removed >= state.groups@.len() && state.key is Some && !state.key_removed
            ==> ask is RemoveKey,
        after.groups == state.groups && after.key == state.key,
{
    assert(state.groups.len() == state.groups@.len());
}

/// A plan for an environment without a machine removes all that was found, and
/// is none exactly where nothing was.
pub proof fn law_a_cleanup_plan_names_all_that_was_found(
    groups: Vec<VultrFirewallGroup>,
    key: Option<ResolvedSshKey>,
    r: SupportCleanupPlan,
)
    requires
        call_ensures(plan_support_cleanup, (&groups, &key), r),
    ensures
        r.disposition is Noop <==> groups@.len() == 0 && key is None,
        r.disposition is Mutate <==> groups@.len() > 0 || key is Some,
        r.firewall_group_ids@.len() == groups@.len(),
        forall|i: int|
            0 <= i < groups@.len() ==> #[trigger] r.firewall_group_ids@[i] == groups@[i].id,
        r.ssh_key_id is Some <==> key is Some,
        key matches Some(k) ==> r.ssh_key_id == Some(k.id),
        !r.environment_in_use,
{
}

/// The key that a cleanup removes is the environment's own: it bears the managed
/// name and holds the operator's material. Another's key under that name, or more
/// than one, ends the cleanup.
pub proof fn law_only_the_environments_own_key_is_removed(
    keys: Vec<VultrSshKey>,
    environment: &str,
    material: &str,
    r: Result<Option<ResolvedSshKey>, String>,
)
    requires
        call_ensures(removable_key, (&Ok::<Vec<VultrSshKey>, ProviderFault>(keys), environment, material), r),
    ensures
        r matches Ok(Some(key)) ==> exists|i: int|
            0 <= i < keys@.len() && (#[trigger] keys@[i]).id == key.id && keys@[i].name@
                == "singbox-"@ + environment@ + "-ops"@ && key_material(keys@[i].ssh_key@) == Ok::<
                Seq<char>,
                Seq<char>,
            >(material@),
        (r matches Ok(None)) <==> forall|i: int|
            0 <= i < keys@.len() ==> (#[trigger] keys@[i]).name@ != "singbox-"@ + environment@
                + "-ops"@,
{
    let name = "singbox-"@ + environment@ + "-ops"@;
    let hits = keys@.filter(named(name));
    lemma_filter_members(keys@, named(name));
    if hits.len() > 0 {
        assert(hits.contains(hits[0]));
        let i = choose|i: int| 0 <= i < keys@.len() && keys@[i] == hits[0];
        assert(keys@[i].name@ == name);
    }
    if exists|i: int| 0 <= i < keys@.len() && (#[trigger] keys@[i]).name@ == name {
        let i = choose|i: int| 0 <= i < keys@.len() && (#[trigger] keys@[i]).name@ == name;
        assert(keys@.contains(keys@[i]));
        assert(hits.contains(keys@[i]));
    }
}

/// A listing that failed removes no key.
pub proof fn law_no_key_is_removed_unseen(
    fault: ProviderFault,
    environment: &str,
    material: &str,
    r: Result<Option<ResolvedSshKey>, String>,
)
    requires
        call_ensures(removable_key, (&Err::<Vec<VultrSshKey>, ProviderFault>(fault), environment, material), r),
    ensures
        r matches Err(e) && e@ == fault.message@,
{
}

/// What a cleanup is authorized by is all that it will remove, as it was found.
pub proof fn law_cleanups_are_authorized_by_what_was_found(
    desired: &DesiredState,
    instances: Vec<TaggedInstance>,
    groups: Vec<VultrFirewallGroup>,
    key: Option<ResolvedSshKey>,
    material: String,
    r: CleanupMaterial,
)
    requires
        call_ensures(cleanup_material, (desired, &instances, &groups, &key, material), r),
    ensures
        r.scope@ == "vultr_support_cleanup"@,
        *r.desired.desired == *desired,
        r.desired.canonical_ssh_public_key@ == material@,
        !r.plan.environment_in_use,
        r.plan.firewall_group_ids@.len() == groups@.len(),
        forall|i: int|
            0 <= i < groups@.len() ==> #[trigger] r.plan.firewall_group_ids@[i] == groups@[i].id,
        key is Some <==> r.plan.ssh_key_id is Some,
        key matches Some(k) ==> r.plan.ssh_key_id == Some(k.id),
        r.plan.disposition is Noop <==> groups@.len() == 0 && key is None,
        r.disposition == r.plan.disposition,
        r.observed matches CleanupObserved::Free { instances: seen, firewall_groups, ssh_key }
            && seen@.len() == instances@.len() && firewall_groups@ == groups@ && (ssh_key is Some
            <==> key is Some),
{
}

/// An environment in use is left as it is: the plan for it removes nothing.
pub proof fn law_the_plan_for_an_environment_in_use_is_empty(plan: SupportCleanupPlan)
    requires
        call_ensures(plan_for_environment_in_use, (), plan),
    ensures
        plan.environment_in_use,
        plan.disposition is Noop,
        plan.action@ == "NOOP"@,
        plan.firewall_group_ids@.len() == 0,
        plan.ssh_key_id is None,
{
}

/// A cleanup begins with nothing removed and all that was found to be removed.
pub proof fn law_a_cleanup_begins_with_nothing_removed(
    groups: Vec<VultrFirewallGroup>,
    key: Option<ResolvedSshKey>,
    r: SupportCleanup,
)
    requires
        call_ensures(SupportCleanup::new, (groups, key), r),
    ensures
        r.groups == groups,
        r.key == key,
        r.groups_removed == 0,
        !r.key_removed,
{
}

} // verus!
