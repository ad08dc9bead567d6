//! The firewalls that hold what their profiles say, and the controller's own
//! access through them.
use crate::firewall::{
    FirewallProfile, FirewallProfileSet, FirewallRuleSpec, ProfileText, RuleText, access_rules,
    controller_ipv4_access_specs, filled, firewall_group_description, firewall_rule_spec,
    group_description, has_misfit, is_misfit, is_placeholder, lemma_access_rules, misfit_words,
    profile_at, reported_rule, rule_texts, same_access, same_firewall_access_semantics,
};
use crate::lists::{
    Found, ascending, law_ascending_orders_and_keeps, lemma_filter_members, lemma_filter_start,
    lemma_filter_step, sort_ids,
};
use crate::machine::{DesiredState, firewall_profile_names, profile_names};
use crate::once::ProviderFault;
use crate::order::{sort_once, sorted_once};
use crate::provider::{VultrFirewallGroup, VultrFirewallRule};
use crate::reconcile::{
    RuleListing, converged, describe_rules, firewall_rules_match, read_rules, reported_rules,
    rules_words,
};
use crate::support::{described, find_group, several_groups};
use crate::text::{cat2, cat3, cat4, same, texts};
use vstd::prelude::*;
use vstd::string::*;

verus! {

/// The profile that a firewall was last bound to.
pub open spec fn bound(bindings: Seq<(String, String)>, id: Seq<char>) -> Option<String>
    decreases bindings.len(),
{
    if bindings.len() == 0 {
        None
    } else if bindings.last().0@ == id {
        Some(bindings.last().1)
    } else {
        bound(bindings.drop_last(), id)
    }
}

/// Which firewalls have been seen to hold exactly the rules of which profile.
#[derive(Debug, PartialEq, Eq)]
pub struct VerifiedFirewalls {
    pub bindings: Vec<(String, String)>,
}

impl VerifiedFirewalls {
    pub fn new() -> (r: VerifiedFirewalls)
        ensures
            r.bindings@.len() == 0,
    {
        VerifiedFirewalls { bindings: Vec::new() }
    }

    /// Binds a firewall to a profile.
    pub fn insert(&mut self, id: String, profile: String)
        ensures
            final(self).bindings@ == old(self).bindings@.push((id, profile)),
    {
        self.bindings.push((id, profile));
    }

    /// The profile that a firewall is bound to.
    pub fn profile_of(&self, id: &str) -> (r: Option<String>)
        ensures
            r == bound(self.bindings@, id@),
    {
        let mut n: usize = self.bindings.len();
        assert(self.bindings@.take(n as int) =~= self.bindings@);
        while n > 0
            invariant
                n <= self.bindings@.len(),
                bound(self.bindings@, id@) == bound(self.bindings@.take(n as int), id@),
            decreases n,
        {
            assert(self.bindings@.take(n as int).drop_last() =~= self.bindings@.take(n - 1));
            if same(self.bindings[n - 1].0.as_str(), id) {
                return Some(self.bindings[n - 1].1.clone());
            }
            n = n - 1;
        }
        None
    }
}

/// A firewall is bound to the profile that it was bound to last; the others
/// keep theirs.
pub proof fn law_binding_is_the_last_one(
    bindings: Seq<(String, String)>,
    id: String,
    profile: String,
    other: Seq<char>,
)
    ensures
        bound(bindings.push((id, profile)), id@) == Some(profile),
        other != id@ ==> bound(bindings.push((id, profile)), other) == bound(bindings, other),
{
    let after = bindings.push((id, profile));
    assert(after.drop_last() =~= bindings);
}

/// What becomes of one profile in the search for verified firewalls.
pub enum BindingFate {
    /// The profile is not defined.
    Undefined,
    /// It has no firewall.
    Absent,
    /// Several firewalls claim to be its.
    Several,
    /// It has this one.
    Firewall(VultrFirewallGroup),
}

pub open spec fn binding_fate(
    name: Seq<char>,
    environment: Seq<char>,
    profiles: Seq<ProfileText>,
    groups: Seq<VultrFirewallGroup>,
) -> BindingFate {
    let hits = groups.filter(described(group_description(environment, name)));
    if profile_at(profiles, name) is None {
        BindingFate::Undefined
    } else if hits.len() == 0 {
        BindingFate::Absent
    } else if hits.len() > 1 {
        BindingFate::Several
    } else {
        BindingFate::Firewall(hits[0])
    }
}

/// The search for the firewalls that hold what their profiles say: the
/// profiles' names in order, how many of them are done, and what was found.
#[derive(Debug, PartialEq, Eq)]
pub struct BindingSearch {
    pub names: Vec<String>,
    pub done: usize,
    pub verified: VerifiedFirewalls,
}

/// What the search asks for.
#[derive(Debug, PartialEq, Eq)]
pub enum BindingAsk {
    /// List the rules of this firewall.
    ListRules { group_id: String },
    /// The search is over.
    Verified,
    Fail(String),
}

/// Where the search goes from `from` done names: over the profiles that have
/// no firewall to the next that has one, that fails, or to the end.
pub open spec fn search_goes(
    names: Seq<Seq<char>>,
    environment: Seq<char>,
    profiles: Seq<ProfileText>,
    groups: Seq<VultrFirewallGroup>,
    from: int,
    to: int,
    ask: BindingAsk,
) -> bool {
    &&& from <= to <= names.len()
    &&& forall|k: int|
        from <= k < to ==> #[trigger] binding_fate(names[k], environment, profiles, groups)
            is Absent
    &&& if to == names.len() {
        ask is Verified
    } else {
        match binding_fate(names[to], environment, profiles, groups) {
            BindingFate::Undefined => ask matches BindingAsk::Fail(e) && e@ == "firewall profile "@
                + names[to] + " is not defined"@,
            BindingFate::Absent => false,
            BindingFate::Several => ask matches BindingAsk::Fail(e) && e@ == several_groups(
                group_description(environment, names[to]),
            ),
            BindingFate::Firewall(group) => ask == (BindingAsk::ListRules { group_id: group.id }),
        }
    }
}

impl BindingSearch {
    /// Begins with the profiles that an environment's machines name.
    pub fn new(desired: &DesiredState) -> (r: BindingSearch)
        ensures
            texts(r.names@) == sorted_once(texts(profile_names(desired.machines@))),
            r.done == 0,
            r.verified.bindings@.len() == 0,
    {
        BindingSearch {
            names: sort_once(&firewall_profile_names(desired)),
            done: 0,
            verified: VerifiedFirewalls::new(),
        }
    }

    /// Goes on to the next firewall whose rules have to be listed.
    pub fn observe_verified_firewall_bindings(
        self,
        environment: &str,
        profiles: &FirewallProfileSet,
        groups: &Vec<VultrFirewallGroup>,
    ) -> (r: (BindingSearch, BindingAsk))
        requires
            self.done <= self.names@.len(),
        ensures
            r.0.names == self.names,
            r.0.verified == self.verified,
            search_goes(
                texts(self.names@),
                environment@,
                profiles@,
                groups@,
                self.done as int,
                r.0.done as int,
                r.1,
            ),
    {
        let mut at: usize = self.done;
        let ghost names = texts(self.names@);
        while at < self.names.len()
            invariant
                self.done <= at <= self.names@.len() == names.len(),
                names == texts(self.names@),
                forall|k: int|
                    self.done <= k < at ==> #[trigger] binding_fate(
                        names[k],
                        environment@,
                        profiles@,
                        groups@,
                    ) is Absent,
            decreases self.names@.len() - at,
        {
            let name: &str = self.names[at].as_str();
            assert(names[at as int] == name@);
            match profiles.profile(name) {
                Err(e) => return (BindingSearch { done: at, ..self }, BindingAsk::Fail(e)),
                Ok(_) => {},
            }
            let description: String = firewall_group_description(environment, name);
            match find_group(groups, description.as_str()) {
                Found::Several => return (
                    BindingSearch { done: at, ..self },
                    BindingAsk::Fail(
                        cat2(
                            "multiple Vultr firewall groups have owned description ",
                            description.as_str(),
                        ),
                    ),
                ),
                Found::One(i) => {
                    let ask: BindingAsk = BindingAsk::ListRules { group_id: groups[i].id.clone() };
                    return (BindingSearch { done: at, ..self }, ask);
                },
                Found::Nothing => {},
            }
            at = at + 1;
        }
        (BindingSearch { done: at, ..self }, BindingAsk::Verified)
    }

    /// Takes the rules of the firewall that was asked for into account: it is
    /// bound to its profile where they are exactly the profile's.
    pub fn listed(
        self,
        profiles: &FirewallProfileSet,
        group_id: &str,
        listing: &RuleListing,
    ) -> (r: (BindingSearch, Result<(), String>))
        requires
            self.done < self.names@.len(),
        ensures
            r.0.names == self.names,
            match *listing {
                Err(fault) => r.1 matches Err(e) && e@ == fault.message@,
                Ok(observed) => match (
                    profile_at(profiles@, self.names@[self.done as int]@),
                    reported_rules(observed@),
                ) {
                    (None, _) => r.1 matches Err(e) && e@ == "firewall profile "@
                        + self.names@[self.done as int]@ + " is not defined"@,
                    (Some(_), Err(words)) => r.1 matches Err(e) && e@ == words,
                    (Some(at), Ok(rules)) => {
                        let name = self.names@[self.done as int];
                        let wanted = profiles@[at].rules;
                        &&& r.1 is Ok
                        &&& r.0.done == self.done + 1
                        &&& if converged(wanted, rules) {
                            &&& r.0.verified.bindings@.len() == self.verified.bindings@.len() + 1
                            &&& r.0.verified.bindings@.drop_last() == self.verified.bindings@
                            &&& r.0.verified.bindings@.last().0@ == group_id@
                            &&& r.0.verified.bindings@.last().1 == name
                        } else {
                            r.0.verified == self.verified
                        }
                    },
                },
            },
    {
        let total: usize = self.names.len();
        assert(self.done < total);
        let observed: &Vec<VultrFirewallRule> = match listing {
            Err(fault) => {
                let e: String = fault.message.clone();
                return (self, Err(e));
            },
            Ok(observed) => observed,
        };
        let profile: &FirewallProfile = match profiles.profile(self.names[self.done].as_str()) {
            Ok(profile) => profile,
            Err(e) => return (self, Err(e)),
        };
        match firewall_rules_match(profile, observed) {
            Err(e) => (self, Err(e)),
            Ok(false) => (BindingSearch { done: self.done + 1, ..self }, Ok(())),
            Ok(true) => {
                let name: String = self.names[self.done].clone();
                let mut verified: VerifiedFirewalls = self.verified;
                let ghost before = verified.bindings@;
                verified.insert(group_id.to_owned(), name);
                assert(verified.bindings@.drop_last() =~= before);
                (BindingSearch { names: self.names, done: self.done + 1, verified }, Ok(()))
            },
        }
    }
}

/// Whether `rule` lets in what one of the targets lets in.
pub open spec fn grants(targets: Seq<RuleText>, rule: RuleText) -> bool {
    exists|t: int| 0 <= t < targets.len() && same_access(rule, #[trigger] targets[t])
}

/// Whether a rule lets in what one of the targets lets in.
pub fn is_granted(targets: &Vec<FirewallRuleSpec>, rule: &FirewallRuleSpec) -> (r: bool)
    ensures
        r == grants(rule_texts(targets@), rule@),
{
    let mut i: usize = 0;
    while i < targets.len()
        invariant
            i <= targets@.len(),
            forall|t: int|
                0 <= t < i ==> !same_access(rule@, #[trigger] rule_texts(targets@)[t]),
        decreases targets@.len() - i,
    {
        if same_firewall_access_semantics(rule, &targets[i]) {
            assert(same_access(rule@, rule_texts(targets@)[i as int]));
            return true;
        }
        i = i + 1;
    }
    false
}

/// What has been said of the controller's access once it was taken back.
#[derive(Debug, Clone, PartialEq, Eq)]
pub struct ControllerAccessReleaseReport {
    pub firewall_group_id: Option<String>,
    pub removed_rule_ids: Vec<u64>,
    pub verified_absent: bool,
}

/// The rules whose removal takes the controller's access back, or else why
/// they cannot be told.
pub open spec fn release_targets(
    profile: ProfileText,
    controller_ipv4: Seq<char>,
    targets: Result<Seq<RuleText>, Seq<char>>,
) -> bool {
    if !crate::ipv4::is_ipv4(controller_ipv4) {
        targets == Err::<Seq<RuleText>, Seq<char>>(
            "EDGE_CONTROLLER_IPV4 must be a valid IPv4 address"@,
        )
    } else if has_misfit(profile.rules) {
        targets == Err::<Seq<RuleText>, Seq<char>>(misfit_words(profile.name))
    } else if access_rules(profile.rules, controller_ipv4).len() == 0 {
        targets == Err::<Seq<RuleText>, Seq<char>>(
            "firewall profile "@ + profile.name + " has no @controller-ipv4 access rule"@,
        )
    } else {
        targets == Ok::<Seq<RuleText>, Seq<char>>(access_rules(profile.rules, controller_ipv4))
    }
}

/// The rules whose removal takes the controller's access back.
pub fn find_release_targets(profile: &FirewallProfile, controller_ipv4: &str) -> (r: Result<
    Vec<FirewallRuleSpec>,
    String,
>)
    ensures
        match r {
            Ok(targets) => targets@.len() > 0 && release_targets(
                profile@,
                controller_ipv4@,
                Ok(rule_texts(targets@)),
            ),
            Err(e) => release_targets(profile@, controller_ipv4@, Err(e@)),
        },
{
    match controller_ipv4_access_specs(profile, controller_ipv4) {
        Err(e) => Err(e),
        Ok(targets) => {
            assert(rule_texts(targets@).len() == targets@.len());
            if targets.len() == 0 {
                Err(
                    cat3(
                        "firewall profile ",
                        profile.name.as_str(),
                        " has no @controller-ipv4 access rule",
                    ),
                )
            } else {
                Ok(targets)
            }
        },
    }
}

/// What the search for rules to remove asks for.
#[derive(Debug, PartialEq, Eq)]
pub enum ReleaseAsk {
    /// Remove the rule with this number.
    Delete(u64),
    /// All listed rules have been gone through: list them once more.
    FinalLook,
    Fail(String),
}

/// Where the search goes from position `from`: over the rules that do not give
/// the controller access to the next that does, that cannot be read, or to the
/// end.
pub open spec fn release_goes(
    targets: Seq<RuleText>,
    observed: Seq<VultrFirewallRule>,
    from: int,
    to: int,
    ask: ReleaseAsk,
) -> bool {
    &&& from <= to <= observed.len()
    &&& forall|k: int|
        from <= k < to ==> (reported_rule(#[trigger] observed[k]) matches Ok(rule) && !grants(
            targets,
            rule,
        ))
    &&& if to == observed.len() {
        ask is FinalLook
    } else {
        match reported_rule(observed[to]) {
            Err(words) => ask matches ReleaseAsk::Fail(e) && e@ == words,
            Ok(rule) => grants(targets, rule) && ask == ReleaseAsk::Delete(observed[to].id),
        }
    }
}

/// Goes on to the next rule whose removal takes the controller's access back.
/// Gives its position, or the number of rules at the end.
pub fn release_controller_ipv4_access(
    targets: &Vec<FirewallRuleSpec>,
    observed: &Vec<VultrFirewallRule>,
    from: usize,
) -> (r: (usize, ReleaseAsk))
    requires
        from <= observed@.len(),
    ensures
        release_goes(rule_texts(targets@), observed@, from as int, r.0 as int, r.1),
{
    let mut at: usize = from;
    while at < observed.len()
        invariant
            from <= at <= observed@.len(),
            forall|k: int|
                from <= k < at ==> (reported_rule(#[trigger] observed@[k]) matches Ok(rule)
                    && !grants(rule_texts(targets@), rule)),
        decreases observed@.len() - at,
    {
        match firewall_rule_spec(&observed[at]) {
            Err(e) => return (at, ReleaseAsk::Fail(e)),
            Ok(rule) => {
                if is_granted(targets, &rule) {
                    return (at, ReleaseAsk::Delete(observed[at].id));
                }
            },
        }
        at = at + 1;
    }
    (at, ReleaseAsk::FinalLook)
}

/// Only a rule that gives the controller access is removed.
pub proof fn law_release_removes_only_controller_access(
    targets: Seq<RuleText>,
    observed: Seq<VultrFirewallRule>,
    from: int,
    to: int,
    id: u64,
)
    requires
        release_goes(targets, observed, from, to, ReleaseAsk::Delete(id)),
    ensures
        from <= to < observed.len(),
        observed[to].id == id,
        reported_rule(observed[to]) matches Ok(rule) && grants(targets, rule),
{
}

/// The rules that still give the controller access.
pub open spec fn remaining_access(targets: Seq<RuleText>, rules: Seq<RuleText>) -> Seq<RuleText> {
    rules.filter(|r: RuleText| grants(targets, r))
}

/// What the last listing leads to: a report where no rule in it gives the
/// controller access, else an error.
pub open spec fn release_ends(
    targets: Seq<RuleText>,
    group_id: String,
    removed: Seq<u64>,
    listing: RuleListing,
    result: Result<ControllerAccessReleaseReport, String>,
) -> bool {
    match listing {
        Err(fault) => result matches Err(e) && e@ == fault.message@,
        Ok(observed) => match reported_rules(observed@) {
            Err(words) => result matches Err(e) && e@ == words,
            Ok(rules) => {
                let left = remaining_access(targets, rules);
                if left.len() > 0 {
                    result matches Err(e) && e@
                        == "controller SSH access cleanup did not prove exact /32 absence in firewall group "@
                        + group_id@ + ": "@ + rules_words(left)
                } else {
                    result matches Ok(report) && report.firewall_group_id == Some(group_id)
                        && report.removed_rule_ids@ == ascending(removed) && report.verified_absent
                }
            },
        },
    }
}

/// Takes the last listing into account.
pub fn finish_release(
    targets: &Vec<FirewallRuleSpec>,
    group_id: &String,
    removed: &Vec<u64>,
    listing: &RuleListing,
) -> (r: Result<ControllerAccessReleaseReport, String>)
    ensures
        release_ends(rule_texts(targets@), *group_id, removed@, *listing, r),
{
    let observed: &Vec<VultrFirewallRule> = match listing {
        Err(fault) => return Err(fault.message.clone()),
        Ok(observed) => observed,
    };
    let rules: Vec<FirewallRuleSpec> = match read_rules(observed) {
        Err(e) => return Err(e),
        Ok(rules) => rules,
    };
    let ghost all = rule_texts(rules@);
    let ghost wanted = |r: RuleText| grants(rule_texts(targets@), r);
    let mut left: Vec<FirewallRuleSpec> = Vec::new();
    let mut i: usize = 0;
    proof {
        lemma_filter_start(all, wanted);
        assert(rule_texts(left@) =~= Seq::<RuleText>::empty());
    }
    while i < rules.len()
        invariant
            i <= rules@.len(),
            all == rule_texts(rules@),
            wanted == (|r: RuleText| grants(rule_texts(targets@), r)),
            rule_texts(left@) == all.take(i as int).filter(wanted),
        decreases rules@.len() - i,
    {
        proof {
            lemma_filter_step(all, wanted, i as int);
            assert(all[i as int] == rules@[i as int]@);
        }
        if is_granted(targets, &rules[i]) {
            let ghost before = left@;
            left.push(rules[i].copy());
            assert(rule_texts(left@) =~= rule_texts(before).push(all[i as int]));
        }
        i = i + 1;
    }
    proof {
        assert(all.take(i as int) =~= all);
        assert(rule_texts(left@).len() == left@.len());
    }
    if left.len() > 0 {
        return Err(
            cat4(
                "controller SSH access cleanup did not prove exact /32 absence in firewall group ",
                group_id.as_str(),
                ": ",
                describe_rules(&left).as_str(),
            ),
        );
    }
    Ok(
        ControllerAccessReleaseReport {
            firewall_group_id: Some(group_id.clone()),
            removed_rule_ids: sort_ids(removed),
            verified_absent: true,
        },
    )
}

/// Where there is no firewall there is no access to take back.
pub fn release_without_firewall() -> (r: ControllerAccessReleaseReport)
    ensures
        r.firewall_group_id is None,
        r.removed_rule_ids@.len() == 0,
        r.verified_absent,
{
    ControllerAccessReleaseReport {
        firewall_group_id: None,
        removed_rule_ids: Vec::new(),
        verified_absent: true,
    }
}

/// A release is reported only on a listing in which no rule gives the
/// controller access.
pub proof fn law_release_proves_absence(
    targets: Seq<RuleText>,
    group_id: String,
    removed: Seq<u64>,
    listing: RuleListing,
    report: ControllerAccessReleaseReport,
)
    requires
        release_ends(targets, group_id, removed, listing, Ok(report)),
    ensures
        listing matches Ok(observed) && reported_rules(observed@) matches Ok(rules) && (forall|
            i: int,
        |
            0 <= i < rules.len() ==> !grants(targets, #[trigger] rules[i])),
{
    let rules = reported_rules(listing->Ok_0@)->Ok_0;
    let wanted = |r: RuleText| grants(targets, r);
    lemma_filter_members(rules, wanted);
    assert forall|i: int| 0 <= i < rules.len() implies !grants(targets, #[trigger] rules[i]) by {
        assert(!wanted(rules[i]));
    }
}

/// A rule lets the controller in exactly if one of the rules written for it
/// says the same, whatever the notes are.
pub proof fn law_access_is_what_a_rule_for_the_controller_gives(
    targets: Vec<FirewallRuleSpec>,
    rule: FirewallRuleSpec,
    r: bool,
)
    requires
        call_ensures(is_granted, (&targets, &rule), r),
    ensures
        r <==> exists|t: int|
            0 <= t < targets@.len() && {
                let x = #[trigger] targets@[t];
                &&& x.ip_type@ == rule.ip_type@
                &&& x.protocol@ == rule.protocol@
                &&& x.subnet@ == rule.subnet@
                &&& x.subnet_size == rule.subnet_size
                &&& x.port@ == rule.port@
                &&& x.source@ == rule.source@
            },
{
    let all = rule_texts(targets@);
    assert(all.len() == targets@.len());
    if r {
        let t = choose|t: int| 0 <= t < all.len() && same_access(rule@, #[trigger] all[t]);
        assert(all[t] == targets@[t]@);
    }
    if exists|t: int|
        0 <= t < targets@.len() && {
            let x = #[trigger] targets@[t];
            &&& x.ip_type@ == rule.ip_type@
            &&& x.protocol@ == rule.protocol@
            &&& x.subnet@ == rule.subnet@
            &&& x.subnet_size == rule.subnet_size
            &&& x.port@ == rule.port@
            &&& x.source@ == rule.source@
        } {
        let t = choose|t: int|
            0 <= t < targets@.len() && {
                let x = #[trigger] targets@[t];
                &&& x.ip_type@ == rule.ip_type@
                &&& x.protocol@ == rule.protocol@
                &&& x.subnet@ == rule.subnet@
                &&& x.subnet_size == rule.subnet_size
                &&& x.port@ == rule.port@
                &&& x.source@ == rule.source@
            };
        assert(all[t] == targets@[t]@);
        assert(same_access(rule@, all[t]));
    }
}

/// Giving access back goes through the reported rules one by one: it passes over
/// a rule only where that rule does not let the controller in, and removes one
/// only where it does.
pub proof fn law_no_access_is_passed_over(
    targets: Vec<FirewallRuleSpec>,
    observed: Vec<VultrFirewallRule>,
    from: usize,
    r: (usize, ReleaseAsk),
    k: int,
    read: FirewallRuleSpec,
    granted: bool,
)
    requires
        from <= observed@.len(),
        call_ensures(release_controller_ipv4_access, (&targets, &observed, from), r),
        from <= k < observed@.len(),
        call_ensures(
            firewall_rule_spec,
            (&observed@[k],),
            Ok::<FirewallRuleSpec, String>(read),
        ),
        call_ensures(is_granted, (&targets, &read), granted),
    ensures
        from <= r.0 <= observed@.len(),
        k < r.0 ==> !granted,
        k == r.0 ==> granted && r.1 == ReleaseAsk::Delete(observed@[k].id),
        r.1 is FinalLook <==> r.0 == observed@.len(),
        r.1 is FinalLook ==> !granted,
{
}

/// Access is told as given back exactly where the last listing can be read and
/// shows no rule that gives it; all numbers that were removed are told.
pub proof fn law_access_is_given_back_once_nothing_gives_it(
    targets: Vec<FirewallRuleSpec>,
    group_id: String,
    removed: Vec<u64>,
    observed: Vec<VultrFirewallRule>,
    rules: Vec<FirewallRuleSpec>,
    r: Result<ControllerAccessReleaseReport, String>,
)
    requires
        call_ensures(read_rules, (&observed,), Ok::<Vec<FirewallRuleSpec>, String>(rules)),
        call_ensures(
            finish_release,
            (
                &targets,
                &group_id,
                &removed,
                &Ok::<Vec<VultrFirewallRule>, ProviderFault>(observed),
            ),
            r,
        ),
    ensures
        r is Ok <==> forall|i: int|
            0 <= i < rules@.len() ==> !grants(rule_texts(targets@), (#[trigger] rules@[i])@),
        r matches Ok(report) ==> report.verified_absent && report.firewall_group_id == Some(
            group_id,
        ) && report.removed_rule_ids@.to_multiset() == removed@.to_multiset(),
{
    let all = rule_texts(rules@);
    let wanted = rule_texts(targets@);
    let granting = |x: RuleText| grants(wanted, x);
    assert(all.len() == rules@.len());
    lemma_filter_members(all, granting);
    law_ascending_orders_and_keeps(removed@);
    assert(remaining_access(wanted, all) == all.filter(granting));
    if r is Ok {
        assert forall|i: int| 0 <= i < rules@.len() implies !grants(
            wanted,
            (#[trigger] rules@[i])@,
        ) by {
            assert(all[i] == rules@[i]@);
            assert(!granting(all[i]));
        }
    }
    if forall|i: int| 0 <= i < rules@.len() ==> !grants(wanted, (#[trigger] rules@[i])@) {
        assert forall|i: int| 0 <= i < all.len() implies !granting(#[trigger] all[i]) by {
            assert(all[i] == rules@[i]@);
        }
    }
}

/// A firewall counts as a profile's only where its rules are exactly the
/// profile's, and then it does, under its own id.
pub proof fn law_firewalls_are_verified_by_their_rules(
    search: BindingSearch,
    profiles: FirewallProfileSet,
    group_id: &str,
    observed: Vec<VultrFirewallRule>,
    profile: FirewallProfile,
    matched: bool,
    r: (BindingSearch, Result<(), String>),
)
    requires
        search.done < search.names@.len(),
        profile_at(profiles@, search.names@[search.done as int]@) matches Some(at) && profile@
            == profiles@[at],
        call_ensures(firewall_rules_match, (&profile, &observed), Ok::<bool, String>(matched)),
        call_ensures(
            BindingSearch::listed,
            (
                search,
                &profiles,
                group_id,
                &Ok::<Vec<VultrFirewallRule>, ProviderFault>(observed),
            ),
            r,
        ),
    ensures
        r.1 is Ok,
        r.0.done == search.done + 1,
        !matched ==> r.0.verified == search.verified,
        matched ==> r.0.verified.bindings@.len() == search.verified.bindings@.len() + 1
            && r.0.verified.bindings@.last().0@ == group_id@ && r.0.verified.bindings@.last().1@
            == search.names@[search.done as int]@,
{
}

/// A profile's rules are looked at only where exactly one firewall is described
/// as the environment's for that profile; where several are, nothing is.
pub proof fn law_only_the_one_firewall_is_looked_at(
    search: BindingSearch,
    environment: &str,
    profiles: FirewallProfileSet,
    groups: Vec<VultrFirewallGroup>,
    r: (BindingSearch, BindingAsk),
)
    requires
        search.done <= search.names@.len(),
        call_ensures(
            BindingSearch::observe_verified_firewall_bindings,
            (search, environment, &profiles, &groups),
            r,
        ),
    ensures
        search.done <= r.0.done <= search.names@.len(),
        r.0.verified == search.verified,
        r.1 is Verified <==> r.0.done == search.names@.len(),
        r.1 matches BindingAsk::ListRules { group_id } ==> exists|i: int|
            0 <= i < groups@.len() && (#[trigger] groups@[i]).id == group_id
                && groups@[i].description@ == "singbox-"@ + environment@ + "-fw-"@
                + search.names@[r.0.done as int]@,
        r.1 matches BindingAsk::ListRules { group_id } ==> forall|i: int|
            0 <= i < groups@.len() && (#[trigger] groups@[i]).description@ == "singbox-"@
                + environment@ + "-fw-"@ + search.names@[r.0.done as int]@ ==> groups@[i].id
                == group_id,
{
    if r.1 is ListRules {
        let name = search.names@[r.0.done as int]@;
        assert(texts(search.names@)[r.0.done as int] == name);
        let wanted = described(group_description(environment@, name));
        let hits = groups@.filter(wanted);
        lemma_filter_members(groups@, wanted);
        assert(hits.contains(hits[0]));
        assert(groups@.contains(hits[0]));
        let k = choose|k: int| 0 <= k < groups@.len() && groups@[k] == hits[0];
        assert(wanted(hits[0]));
        assert(groups@[k].id == r.1->group_id);
        assert forall|i: int| 0 <= i < groups@.len() && (#[trigger] groups@[i]).description@
            == "singbox-"@ + environment@ + "-fw-"@ + name implies groups@[i].id
            == r.1->group_id by {
            assert(groups@.contains(groups@[i]));
            assert(hits.contains(groups@[i]));
        }
    }
}

/// What is given back is every rule that the profile has for the controller, with
/// the controller's address; a profile without one gives nothing back.
pub proof fn law_what_is_given_back_is_all_that_was_for_the_controller(
    profile: FirewallProfile,
    controller_ipv4: &str,
    r: Result<Vec<FirewallRuleSpec>, String>,
    k: int,
)
    requires
        call_ensures(find_release_targets, (&profile, controller_ipv4), r),
        0 <= k < profile@.rules.len(),
    ensures
        r matches Ok(targets) ==> {
            &&& targets@.len() > 0
            &&& profile@.rules[k].subnet == "@controller-ipv4"@ ==> rule_texts(
                targets@,
            ).contains(RuleText { subnet: controller_ipv4@, ..profile@.rules[k] })
            &&& forall|i: int|
                0 <= i < targets@.len() ==> (#[trigger] rule_texts(targets@)[i]).subnet
                    == controller_ipv4@
        },
        !crate::ipv4::is_ipv4(controller_ipv4@) ==> r is Err,
        profile@.rules[k].subnet == "@controller-ipv4"@ && (profile@.rules[k].subnet_size != 32
            || profile@.rules[k].ip_type != "v4"@) ==> r is Err,
        (forall|i: int|
            0 <= i < profile@.rules.len() ==> (#[trigger] profile@.rules[i]).subnet
                != "@controller-ipv4"@) ==> r is Err,
{
    let rules = profile@.rules;
    let given = access_rules(rules, controller_ipv4@);
    lemma_access_rules(rules, controller_ipv4@);
    if let Ok(targets) = r {
        let all = rule_texts(targets@);
        assert(all == given);
        if rules[k].subnet == "@controller-ipv4"@ {
            assert(is_placeholder(rules[k]));
            assert(given.contains(filled(rules[k], controller_ipv4@)));
        }
        assert forall|i: int| 0 <= i < targets@.len() implies (#[trigger] all[i]).subnet
            == controller_ipv4@ by {
            assert(given.contains(all[i]));
        }
        assert(given.contains(all[0]));
        let m = choose|m: int|
            0 <= m < rules.len() && is_placeholder(#[trigger] rules[m]) && all[0] == filled(
                rules[m],
                controller_ipv4@,
            );
        assert(rules[m].subnet == "@controller-ipv4"@);
        assert(!is_misfit(rules[k]));
    }
}

/// Where there is no firewall there is nothing to give back.
pub proof fn law_without_a_firewall_nothing_is_given_back(r: ControllerAccessReleaseReport)
    requires
        call_ensures(release_without_firewall, (), r),
    ensures
        r.firewall_group_id is None,
        r.removed_rule_ids@.len() == 0,
        r.verified_absent,
{
}

} // verus!
