//! Bringing the rules of a firewall to those of a profile, one change at a
//! time.
use crate::firewall::{
    FirewallProfile, FirewallRuleSpec, RuleText, firewall_rule_spec, holds_rule,
    law_rule_order_is_total, law_rule_order_is_transitive, lemma_derived_source_is_trimmed,
    reported_rule, rule_le, rule_texts,
};
use crate::lists::{ascending, sort_ids};
use crate::once::{
    Ask, Ending, Next, Phase, ProviderFault, Reply, Sight, carries, creation_reply, on_reply,
    read_removal, removal_reply,
};
use crate::provider::VultrFirewallRule;
use crate::text::{
    cat3, cat4, cat5, cat6, cat7, decimal, join, joined, number, quote, quoted, texts, trimmed,
};
use vstd::prelude::*;
use vstd::string::*;

verus! {

/// The rules that a provider reports, or else the first of them that is none.
pub open spec fn reported_rules(observed: Seq<VultrFirewallRule>) -> Result<
    Seq<RuleText>,
    Seq<char>,
>
    decreases observed.len(),
{
    if observed.len() == 0 {
        Ok(Seq::empty())
    } else {
        match reported_rules(observed.drop_last()) {
            Err(e) => Err(e),
            Ok(rules) => match reported_rule(observed.last()) {
                Err(e) => Err(e),
                Ok(rule) => Ok(rules.push(rule)),
            },
        }
    }
}

proof fn lemma_reported_fail(observed: Seq<VultrFirewallRule>, i: int)
    requires
        0 <= i <= observed.len(),
        reported_rules(observed.take(i)) is Err,
    ensures
        reported_rules(observed) == reported_rules(observed.take(i)),
    decreases observed.len() - i,
{
    if i == observed.len() {
        assert(observed.take(i) =~= observed);
    } else {
        assert(observed.take(i + 1).drop_last() =~= observed.take(i));
        lemma_reported_fail(observed, i + 1);
    }
}

proof fn lemma_reported_len(observed: Seq<VultrFirewallRule>)
    ensures
        reported_rules(observed) matches Ok(rules) ==> rules.len() == observed.len(),
    decreases observed.len(),
{
    if observed.len() > 0 {
        lemma_reported_len(observed.drop_last());
    }
}

/// Reads the rules that a provider reports.
pub fn read_rules(observed: &Vec<VultrFirewallRule>) -> (r: Result<Vec<FirewallRuleSpec>, String>)
    ensures
        match r {
            Ok(rules) => rules@.len() == observed@.len() && reported_rules(observed@) == Ok::<
                Seq<RuleText>,
                Seq<char>,
            >(rule_texts(rules@)),
            Err(e) => reported_rules(observed@) == Err::<Seq<RuleText>, Seq<char>>(e@),
        },
{
    let mut rules: Vec<FirewallRuleSpec> = Vec::new();
    let mut i: usize = 0;
    assert(rule_texts(rules@) =~= Seq::<RuleText>::empty());
    while i < observed.len()
        invariant
            i <= observed@.len(),
            rules@.len() == i,
            reported_rules(observed@.take(i as int)) == Ok::<Seq<RuleText>, Seq<char>>(
                rule_texts(rules@),
            ),
        decreases observed@.len() - i,
    {
        proof {
            assert(observed@.take(i + 1).drop_last() =~= observed@.take(i as int));
            assert(observed@.take(i + 1).last() == observed@[i as int]);
        }
        match firewall_rule_spec(&observed[i]) {
            Ok(rule) => {
                let ghost before = rules@;
                rules.push(rule);
                assert(rule_texts(rules@) =~= rule_texts(before).push(rule@));
            },
            Err(e) => {
                proof {
                    lemma_reported_fail(observed@, i + 1);
                }
                return Err(e);
            },
        }
        i = i + 1;
    }
    assert(observed@.take(i as int) =~= observed@);
    Ok(rules)
}

/// Whether the rules at `i` and at another position say the same.
pub open spec fn repeated(rules: Seq<RuleText>, i: int) -> bool {
    exists|j: int| 0 <= j < rules.len() && j != i && #[trigger] rules[j] == rules[i]
}

/// Whether the rule at `i` is one too many: unwanted, or there twice.
pub open spec fn surplus(wanted: Seq<RuleText>, rules: Seq<RuleText>, i: int) -> bool {
    0 <= i < rules.len() && (!wanted.contains(rules[i]) || repeated(rules, i))
}

/// Whether the rules are those wanted, each once.
pub open spec fn converged(wanted: Seq<RuleText>, rules: Seq<RuleText>) -> bool {
    &&& forall|i: int| 0 <= i < rules.len() ==> !#[trigger] surplus(wanted, rules, i)
    &&& forall|k: int| 0 <= k < wanted.len() ==> rules.contains(#[trigger] wanted[k])
}

fn is_repeated(rules: &Vec<FirewallRuleSpec>, i: usize) -> (r: bool)
    requires
        i < rules@.len(),
    ensures
        r == repeated(rule_texts(rules@), i as int),
{
    let mut j: usize = 0;
    let ghost all = rule_texts(rules@);
    while j < rules.len()
        invariant
            j <= rules@.len(),
            i < rules@.len(),
            all == rule_texts(rules@),
            forall|k: int| 0 <= k < j && k != i ==> #[trigger] all[k] != all[i as int],
        decreases rules@.len() - j,
    {
        if j != i && rules[j].same_rule(&rules[i]) {
            assert(all[j as int] == all[i as int]);
            return true;
        }
        j = j + 1;
    }
    false
}

fn is_surplus(wanted: &Vec<FirewallRuleSpec>, rules: &Vec<FirewallRuleSpec>, i: usize) -> (r: bool)
    requires
        i < rules@.len(),
    ensures
        r == surplus(rule_texts(wanted@), rule_texts(rules@), i as int),
{
    !holds_rule(wanted, &rules[i]) || is_repeated(rules, i)
}

/// What is to be done to the rules of a firewall next.
#[derive(Debug, PartialEq, Eq)]
pub enum RuleChange {
    /// The rules are those wanted.
    Nothing,
    /// Remove the rule with this number.
    Delete(u64),
    Create(FirewallRuleSpec),
}

/// Whether the rule at `i` is the one to remove: of the surplus rules one of
/// the first in order, and of those that say the same the one with the highest
/// number.
pub open spec fn to_delete(
    wanted: Seq<RuleText>,
    rules: Seq<RuleText>,
    observed: Seq<VultrFirewallRule>,
    i: int,
) -> bool {
    &&& surplus(wanted, rules, i)
    &&& forall|j: int| #[trigger]
        surplus(wanted, rules, j) ==> rule_le(rules[i], rules[j]) && (rules[j] == rules[i]
            ==> observed[j].id <= observed[i].id)
}

/// Whether `rule` is the one to make: of the missing rules the first in order.
pub open spec fn to_create(wanted: Seq<RuleText>, rules: Seq<RuleText>, rule: RuleText) -> bool {
    &&& wanted.contains(rule)
    &&& !rules.contains(rule)
    &&& forall|k: int|
        0 <= k < wanted.len() && !rules.contains(#[trigger] wanted[k]) ==> rule_le(rule, wanted[k])
}

/// Whether `change` is what is to be done next.
pub open spec fn next_change(
    wanted: Seq<RuleText>,
    rules: Seq<RuleText>,
    observed: Seq<VultrFirewallRule>,
    change: RuleChange,
) -> bool {
    match change {
        RuleChange::Nothing => converged(wanted, rules),
        RuleChange::Delete(id) => exists|i: int| #[trigger]
            to_delete(wanted, rules, observed, i) && observed[i].id == id,
        RuleChange::Create(rule) => {
            &&& forall|i: int| 0 <= i < rules.len() ==> !#[trigger] surplus(wanted, rules, i)
            &&& to_create(wanted, rules, rule@)
        },
    }
}

fn find_surplus(
    wanted: &Vec<FirewallRuleSpec>,
    rules: &Vec<FirewallRuleSpec>,
    observed: &Vec<VultrFirewallRule>,
) -> (r: Option<usize>)
    requires
        rules@.len() == observed@.len(),
    ensures
        match r {
            Some(i) => i < rules@.len() && to_delete(
                rule_texts(wanted@),
                rule_texts(rules@),
                observed@,
                i as int,
            ),
            None => forall|i: int|
                0 <= i < rules@.len() ==> !#[trigger] surplus(
                    rule_texts(wanted@),
                    rule_texts(rules@),
                    i,
                ),
        },
{
    let mut best: Option<usize> = None;
    let mut i: usize = 0;
    let ghost w = rule_texts(wanted@);
    let ghost all = rule_texts(rules@);
    while i < rules.len()
        invariant
            i <= rules@.len() == observed@.len(),
            w == rule_texts(wanted@),
            all == rule_texts(rules@),
            match best {
                Some(b) => {
                    &&& b < i
                    &&& surplus(w, all, b as int)
                    &&& forall|j: int|
                        0 <= j < i && #[trigger] surplus(w, all, j) ==> rule_le(all[b as int], all[j])
                            && (all[j] == all[b as int] ==> observed@[j].id
                            <= observed@[b as int].id)
                },
                None => forall|j: int| 0 <= j < i ==> !#[trigger] surplus(w, all, j),
            },
        decreases rules@.len() - i,
    {
        if is_surplus(wanted, rules, i) {
            proof {
                law_rule_order_is_total(all[i as int], all[i as int]);
            }
            match best {
                None => {
                    best = Some(i);
                },
                Some(b) => {
                    proof {
                        law_rule_order_is_total(all[b as int], all[i as int]);
                    }
                    let earlier: bool = rules[i].precedes(&rules[b]);
                    let alike: bool = rules[i].same_rule(&rules[b]);
                    if earlier && (!alike || observed[i].id > observed[b].id) {
                        proof {
                            assert forall|j: int| 0 <= j < i && #[trigger] surplus(w, all, j) implies rule_le(
                                all[i as int],
                                all[j],
                            ) && (all[j] == all[i as int] ==> observed@[j].id
                                <= observed@[i as int].id) by {
                                law_rule_order_is_transitive(
                                    all[i as int],
                                    all[b as int],
                                    all[j],
                                );
                                law_rule_order_is_total(all[b as int], all[j]);
                            }
                        }
                        best = Some(i);
                    }
                },
            }
        }
        i = i + 1;
    }
    best
}

fn find_missing(wanted: &Vec<FirewallRuleSpec>, rules: &Vec<FirewallRuleSpec>) -> (r: Option<usize>)
    ensures
        match r {
            Some(k) => k < wanted@.len() && to_create(
                rule_texts(wanted@),
                rule_texts(rules@),
                wanted@[k as int]@,
            ),
            None => forall|k: int|
                0 <= k < wanted@.len() ==> rule_texts(rules@).contains(
                    #[trigger] rule_texts(wanted@)[k],
                ),
        },
{
    let mut best: Option<usize> = None;
    let mut k: usize = 0;
    let ghost w = rule_texts(wanted@);
    let ghost all = rule_texts(rules@);
    while k < wanted.len()
        invariant
            k <= wanted@.len(),
            w == rule_texts(wanted@),
            all == rule_texts(rules@),
            match best {
                Some(b) => {
                    &&& b < k
                    &&& !all.contains(w[b as int])
                    &&& forall|j: int|
                        0 <= j < k && !all.contains(#[trigger] w[j]) ==> rule_le(w[b as int], w[j])
                },
                None => forall|j: int| 0 <= j < k ==> all.contains(#[trigger] w[j]),
            },
        decreases wanted@.len() - k,
    {
        if !holds_rule(rules, &wanted[k]) {
            proof {
                assert(w[k as int] == wanted@[k as int]@);
                law_rule_order_is_total(w[k as int], w[k as int]);
            }
            match best {
                None => {
                    best = Some(k);
                },
                Some(b) => {
                    proof {
                        law_rule_order_is_total(w[b as int], w[k as int]);
                    }
                    if wanted[k].precedes(&wanted[b]) {
                        proof {
                            assert forall|j: int| 0 <= j < k && !all.contains(#[trigger] w[j]) implies rule_le(
                                w[k as int],
                                w[j],
                            ) by {
                                law_rule_order_is_transitive(w[k as int], w[b as int], w[j]);
                            }
                        }
                        best = Some(k);
                    }
                },
            }
        }
        k = k + 1;
    }
    match best {
        Some(b) => {
            assert(w[b as int] == wanted@[b as int]@);
            assert(w.contains(w[b as int]));
        },
        None => {},
    }
    best
}

/// Decides what is to be done next to the rules that the provider reports.
pub fn next_rule_change(profile: &FirewallProfile, observed: &Vec<VultrFirewallRule>) -> (r: Result<
    RuleChange,
    String,
>)
    ensures
        match r {
            Ok(change) => reported_rules(observed@) matches Ok(rules) && next_change(
                profile@.rules,
                rules,
                observed@,
                change,
            ),
            Err(e) => reported_rules(observed@) == Err::<Seq<RuleText>, Seq<char>>(e@),
        },
{
    let rules: Vec<FirewallRuleSpec> = match read_rules(observed) {
        Ok(rules) => rules,
        Err(e) => return Err(e),
    };
    match find_surplus(&profile.rules, &rules, observed) {
        Some(i) => {
            assert(to_delete(profile@.rules, rule_texts(rules@), observed@, i as int));
            return Ok(RuleChange::Delete(observed[i].id));
        },
        None => {},
    }
    match find_missing(&profile.rules, &rules) {
        Some(k) => Ok(RuleChange::Create(profile.rules[k].copy())),
        None => Ok(RuleChange::Nothing),
    }
}

/// Whether the rules that a provider reports are exactly those of a profile.
pub fn firewall_rules_match(profile: &FirewallProfile, observed: &Vec<VultrFirewallRule>) -> (r:
    Result<bool, String>)
    ensures
        match r {
            Ok(matches) => reported_rules(observed@) matches Ok(rules) && matches == converged(
                profile@.rules,
                rules,
            ),
            Err(e) => reported_rules(observed@) == Err::<Seq<RuleText>, Seq<char>>(e@),
        },
{
    match next_rule_change(profile, observed) {
        Err(e) => Err(e),
        Ok(RuleChange::Nothing) => Ok(true),
        Ok(RuleChange::Delete(_)) => Ok(false),
        Ok(RuleChange::Create(rule)) => {
            proof {
                let k = choose|k: int| 0 <= k < profile@.rules.len() && profile@.rules[k] == rule@;
                assert(!(reported_rules(observed@)->Ok_0).contains(profile@.rules[k]));
            }
            Ok(false)
        },
    }
}

/// How many of the wanted rules are there.
pub open spec fn present(wanted: Seq<RuleText>, rules: Seq<RuleText>) -> nat {
    wanted.to_set().intersect(rules.to_set()).len()
}

/// How many changes the rules are away from those wanted: the rules that are
/// one too many, and the wanted rules that are missing.
pub open spec fn distance(wanted: Seq<RuleText>, rules: Seq<RuleText>) -> int {
    (rules.len() - present(wanted, rules)) + (wanted.to_set().len() - present(wanted, rules))
}

proof fn lemma_present(wanted: Seq<RuleText>, rules: Seq<RuleText>)
    ensures
        present(wanted, rules) <= wanted.to_set().len() <= wanted.len(),
        present(wanted, rules) <= rules.to_set().len() <= rules.len(),
        wanted.to_set().finite(),
        rules.to_set().finite(),
        wanted.to_set().intersect(rules.to_set()).finite(),
{
    vstd::seq_lib::seq_to_set_is_finite(wanted);
    vstd::seq_lib::seq_to_set_is_finite(rules);
    wanted.lemma_cardinality_of_set();
    rules.lemma_cardinality_of_set();
    let both = wanted.to_set().intersect(rules.to_set());
    vstd::set_lib::lemma_len_intersect(wanted.to_set(), rules.to_set());
    vstd::set_lib::lemma_len_intersect(rules.to_set(), wanted.to_set());
    assert(both =~= rules.to_set().intersect(wanted.to_set()));
}

/// The rules are no change away from those wanted exactly when they are those
/// wanted, each once.
pub proof fn law_no_distance_is_convergence(wanted: Seq<RuleText>, rules: Seq<RuleText>)
    ensures
        distance(wanted, rules) >= 0,
        distance(wanted, rules) == 0 <==> converged(wanted, rules),
{
    lemma_present(wanted, rules);
    let w = wanted.to_set();
    let r = rules.to_set();
    let both = w.intersect(r);
    if distance(wanted, rules) == 0 {
        assert(both.subset_of(w));
        vstd::set_lib::lemma_subset_equality(both, w);
        assert(both.subset_of(r));
        vstd::set_lib::lemma_subset_equality(both, r);
        rules.lemma_no_dup_set_cardinality();
        assert forall|i: int| 0 <= i < rules.len() implies !#[trigger] surplus(wanted, rules, i) by {
            assert(r.contains(rules[i]));
            assert(w.contains(rules[i]));
        }
        assert forall|k: int| 0 <= k < wanted.len() implies rules.contains(#[trigger] wanted[k]) by {
            assert(w.contains(wanted[k]));
            assert(r.contains(wanted[k]));
        }
    }
    if converged(wanted, rules) {
        assert forall|i: int, j: int| 0 <= i < rules.len() && 0 <= j < rules.len() && i != j implies rules[i]
            != rules[j] by {
            assert(!surplus(wanted, rules, i));
            if rules[j] == rules[i] {
                assert(repeated(rules, i));
            }
        }
        rules.unique_seq_to_set();
        assert forall|x: RuleText| r.contains(x) implies w.contains(x) by {
            let i = choose|i: int| 0 <= i < rules.len() && rules[i] == x;
            assert(!surplus(wanted, rules, i));
        }
        assert forall|x: RuleText| w.contains(x) implies r.contains(x) by {
            let k = choose|k: int| 0 <= k < wanted.len() && wanted[k] == x;
            assert(rules.contains(wanted[k]));
        }
        assert(both =~= w);
        assert(both =~= r);
    }
}

/// Removing a rule that is one too many brings the rules one change closer.
pub proof fn law_deletion_brings_closer(wanted: Seq<RuleText>, rules: Seq<RuleText>, i: int)
    requires
        surplus(wanted, rules, i),
    ensures
        distance(wanted, rules.remove(i)) == distance(wanted, rules) - 1,
{
    let after = rules.remove(i);
    let w = wanted.to_set();
    assert(after.len() == rules.len() - 1);
    assert(w.intersect(after.to_set()) =~= w.intersect(rules.to_set())) by {
        assert forall|x: RuleText| w.contains(x) implies (after.contains(x) <==> rules.contains(
            x,
        )) by {
            if after.contains(x) {
                let j = choose|j: int| 0 <= j < after.len() && after[j] == x;
                if j < i {
                    assert(rules[j] == x);
                } else {
                    assert(rules[j + 1] == x);
                }
            }
            if rules.contains(x) {
                let j = choose|j: int| 0 <= j < rules.len() && rules[j] == x;
                let k = if j != i {
                    j
                } else {
                    assert(wanted.contains(x));
                    choose|k: int| 0 <= k < rules.len() && k != i && #[trigger] rules[k] == rules[i]
                };
                if k < i {
                    assert(after[k] == x);
                } else {
                    assert(after[k - 1] == x);
                }
            }
        }
    }
}

/// Making a rule that is missing brings the rules one change closer.
pub proof fn law_creation_brings_closer(wanted: Seq<RuleText>, rules: Seq<RuleText>, rule: RuleText)
    requires
        wanted.contains(rule),
        !rules.contains(rule),
    ensures
        distance(wanted, rules.push(rule)) == distance(wanted, rules) - 1,
{
    let after = rules.push(rule);
    let w = wanted.to_set();
    lemma_present(wanted, rules);
    assert forall|x: RuleText| after.contains(x) <==> rules.contains(x) || x == rule by {
        if after.contains(x) {
            let j = choose|j: int| 0 <= j < after.len() && after[j] == x;
            if j < rules.len() {
                assert(rules[j] == x);
            }
        }
        if rules.contains(x) {
            let j = choose|j: int| 0 <= j < rules.len() && rules[j] == x;
            assert(after[j] == x);
        }
        assert(after[rules.len() as int] == rule);
    }
    assert(w.intersect(after.to_set()) =~= w.intersect(rules.to_set()).insert(rule));
}

/// How many changes one reconciliation may make.
pub open spec fn change_limit(rules: nat) -> nat {
    let twice = if 2 * rules > usize::MAX {
        usize::MAX as nat
    } else {
        2 * rules
    };
    if twice + 32 > usize::MAX {
        usize::MAX as nat
    } else {
        twice + 32
    }
}

/// A firewall with at most 32 rules more than the profile has is no more
/// changes away from it than one reconciliation may make.
pub proof fn law_allowed_changes_suffice(wanted: Seq<RuleText>, rules: Seq<RuleText>)
    requires
        rules.len() <= wanted.len() + 32,
        2 * wanted.len() + 32 <= usize::MAX,
    ensures
        distance(wanted, rules) <= change_limit(wanted.len()),
{
    lemma_present(wanted, rules);
}

fn limit_of(rules: usize) -> (r: usize)
    ensures
        r == change_limit(rules as nat),
{
    let twice: usize = if rules > usize::MAX / 2 {
        usize::MAX
    } else {
        rules * 2
    };
    twice.saturating_add(32)
}

/// How a rule is rendered in messages.
pub open spec fn rule_words(rule: RuleText) -> Seq<char> {
    "FirewallRuleSpec { ip_type: "@ + quoted(rule.ip_type) + ", protocol: "@ + quoted(rule.protocol)
        + ", subnet: "@ + quoted(rule.subnet) + ", subnet_size: "@ + decimal(
        rule.subnet_size as nat,
    ) + ", port: "@ + quoted(rule.port) + ", source: "@ + quoted(rule.source) + ", notes: "@
        + quoted(rule.notes) + " }"@
}

/// How rules are rendered in messages.
pub open spec fn rules_words(rules: Seq<RuleText>) -> Seq<char> {
    "["@ + joined(rules.map_values(|r: RuleText| rule_words(r)), ", "@) + "]"@
}

/// How a reported rule is rendered in messages.
pub open spec fn reported_words(rule: VultrFirewallRule) -> Seq<char> {
    "VultrFirewallRule { id: "@ + decimal(rule.id as nat) + ", ip_type: "@ + quoted(rule.ip_type@)
        + ", protocol: "@ + quoted(rule.protocol@) + ", subnet: "@ + quoted(rule.subnet@)
        + ", subnet_size: "@ + decimal(rule.subnet_size as nat) + ", port: "@ + quoted(rule.port@)
        + ", source: "@ + quoted(rule.source@) + ", notes: "@ + quoted(rule.notes@) + " }"@
}

/// How reported rules are rendered in messages.
pub open spec fn all_reported_words(rules: Seq<VultrFirewallRule>) -> Seq<char> {
    "["@ + joined(rules.map_values(|r: VultrFirewallRule| reported_words(r)), ", "@) + "]"@
}

/// Renders a rule for a message.
pub fn describe_rule(rule: &FirewallRuleSpec) -> (r: String)
    ensures
        r@ == rule_words(rule@),
{
    let mut out: String = "FirewallRuleSpec { ip_type: ".to_owned();
    out.append(quote(rule.ip_type.as_str()).as_str());
    out.append(", protocol: ");
    out.append(quote(rule.protocol.as_str()).as_str());
    out.append(", subnet: ");
    out.append(quote(rule.subnet.as_str()).as_str());
    out.append(", subnet_size: ");
    out.append(number(rule.subnet_size as u64).as_str());
    out.append(", port: ");
    out.append(quote(rule.port.as_str()).as_str());
    out.append(", source: ");
    out.append(quote(rule.source.as_str()).as_str());
    out.append(", notes: ");
    out.append(quote(rule.notes.as_str()).as_str());
    out.append(" }");
    out
}

fn describe_reported(rule: &VultrFirewallRule) -> (r: String)
    ensures
        r@ == reported_words(*rule),
{
    let mut out: String = "VultrFirewallRule { id: ".to_owned();
    out.append(number(rule.id).as_str());
    out.append(", ip_type: ");
    out.append(quote(rule.ip_type.as_str()).as_str());
    out.append(", protocol: ");
    out.append(quote(rule.protocol.as_str()).as_str());
    out.append(", subnet: ");
    out.append(quote(rule.subnet.as_str()).as_str());
    out.append(", subnet_size: ");
    out.append(number(rule.subnet_size as u64).as_str());
    out.append(", port: ");
    out.append(quote(rule.port.as_str()).as_str());
    out.append(", source: ");
    out.append(quote(rule.source.as_str()).as_str());
    out.append(", notes: ");
    out.append(quote(rule.notes.as_str()).as_str());
    out.append(" }");
    out
}

/// Renders rules for a message.
pub fn describe_rules(rules: &Vec<FirewallRuleSpec>) -> (r: String)
    ensures
        r@ == rules_words(rule_texts(rules@)),
{
    let mut parts: Vec<String> = Vec::new();
    let mut i: usize = 0;
    while i < rules.len()
        invariant
            i <= rules@.len(),
            parts@.len() == i,
            forall|k: int| 0 <= k < i ==> #[trigger] parts@[k]@ == rule_words(rules@[k]@),
        decreases rules@.len() - i,
    {
        parts.push(describe_rule(&rules[i]));
        i = i + 1;
    }
    assert(texts(parts@) =~= rule_texts(rules@).map_values(|r: RuleText| rule_words(r)));
    cat3("[", join(&parts, ", ").as_str(), "]")
}

/// Renders reported rules for a message.
pub fn describe_all_reported(rules: &Vec<VultrFirewallRule>) -> (r: String)
    ensures
        r@ == all_reported_words(rules@),
{
    let mut parts: Vec<String> = Vec::new();
    let mut i: usize = 0;
    while i < rules.len()
        invariant
            i <= rules@.len(),
            parts@.len() == i,
            forall|k: int| 0 <= k < i ==> #[trigger] parts@[k]@ == reported_words(rules@[k]),
        decreases rules@.len() - i,
    {
        parts.push(describe_reported(&rules[i]));
        i = i + 1;
    }
    assert(texts(parts@) =~= rules@.map_values(|r: VultrFirewallRule| reported_words(r)));
    cat3("[", join(&parts, ", ").as_str(), "]")
}

/// A listing of a firewall's rules, or why there is none.
pub type RuleListing = Result<Vec<VultrFirewallRule>, ProviderFault>;

/// One reconciliation of a firewall's rules, by the changes it has asked for.
#[derive(Debug, Clone, Copy, PartialEq, Eq, Structural)]
pub struct RuleReconcile {
    pub made: usize,
}

/// What a reconciliation asks for.
#[derive(Debug, PartialEq, Eq)]
pub enum ReconcileAsk {
    /// The rules are those of the profile.
    Converged,
    Delete(u64),
    Create(FirewallRuleSpec),
    /// No more changes are allowed: list the rules once more, for the message.
    LastLook,
    Fail(String),
}

/// What a reconciliation asks for on a listing, and how many changes it has
/// asked for then.
pub open spec fn reconciles(
    wanted: Seq<RuleText>,
    made: usize,
    listing: RuleListing,
    after: usize,
    ask: ReconcileAsk,
) -> bool {
    match listing {
        Err(fault) => ask matches ReconcileAsk::Fail(e) && e@ == fault.message@ && after == made,
        Ok(observed) => match reported_rules(observed@) {
            Err(words) => ask matches ReconcileAsk::Fail(e) && e@ == words && after == made,
            Ok(rules) => if converged(wanted, rules) {
                ask is Converged && after == made
            } else if made >= change_limit(wanted.len()) {
                ask is LastLook && after == made
            } else {
                &&& after == made + 1
                &&& match ask {
                    ReconcileAsk::Delete(id) => next_change(
                        wanted,
                        rules,
                        observed@,
                        RuleChange::Delete(id),
                    ),
                    ReconcileAsk::Create(rule) => next_change(
                        wanted,
                        rules,
                        observed@,
                        RuleChange::Create(rule),
                    ),
                    _ => false,
                }
            },
        },
    }
}

impl RuleReconcile {
    pub fn new() -> (r: RuleReconcile)
        ensures
            r.made == 0,
    {
        RuleReconcile { made: 0 }
    }

    /// Takes a listing of the rules into account.
    pub fn reconcile_firewall_rules(self, profile: &FirewallProfile, listing: &RuleListing) -> (r: (
        RuleReconcile,
        ReconcileAsk,
    ))
        ensures
            reconciles(profile@.rules, self.made, *listing, r.0.made, r.1),
    {
        let observed: &Vec<VultrFirewallRule> = match listing {
            Err(fault) => return (self, ReconcileAsk::Fail(fault.message.clone())),
            Ok(observed) => observed,
        };
        let change: RuleChange = match next_rule_change(profile, observed) {
            Err(e) => return (self, ReconcileAsk::Fail(e)),
            Ok(change) => change,
        };
        let limit: usize = limit_of(profile.rules.len());
        match change {
            RuleChange::Nothing => (self, ReconcileAsk::Converged),
            RuleChange::Delete(id) => {
                if self.made >= limit {
                    (self, ReconcileAsk::LastLook)
                } else {
                    (RuleReconcile { made: self.made + 1 }, ReconcileAsk::Delete(id))
                }
            },
            RuleChange::Create(rule) => {
                proof {
                    let w = profile@.rules;
                    let k = choose|k: int| 0 <= k < w.len() && w[k] == rule@;
                    assert(!(reported_rules(observed@)->Ok_0).contains(w[k]));
                }
                if self.made >= limit {
                    (self, ReconcileAsk::LastLook)
                } else {
                    (RuleReconcile { made: self.made + 1 }, ReconcileAsk::Create(rule))
                }
            },
        }
    }

    /// The error for a reconciliation that ran out of changes.
    pub fn exhausted(profile: &FirewallProfile, listing: &RuleListing) -> (r: String)
        ensures
            r@ == match *listing {
                Err(fault) => fault.message@,
                Ok(observed) => "firewall profile "@ + profile@.name
                    + " did not converge after bounded reconciliation; desired="@ + rules_words(
                    profile@.rules,
                ) + " observed="@ + all_reported_words(observed@),
            },
    {
        match listing {
            Err(fault) => fault.message.clone(),
            Ok(observed) => cat6(
                "firewall profile ",
                profile.name.as_str(),
                " did not converge after bounded reconciliation; desired=",
                describe_rules(&profile.rules).as_str(),
                " observed=",
                describe_all_reported(observed).as_str(),
            ),
        }
    }
}

/// A reconciliation never asks for more changes than are allowed, and counts
/// each that it asks for.
pub proof fn law_reconciliation_is_bounded(
    wanted: Seq<RuleText>,
    made: usize,
    listing: RuleListing,
    after: usize,
    ask: ReconcileAsk,
)
    requires
        reconciles(wanted, made, listing, after, ask),
        made <= change_limit(wanted.len()),
    ensures
        after <= change_limit(wanted.len()),
        ask is Delete || ask is Create ==> after == made + 1,
        !(ask is Delete || ask is Create) ==> after == made,
{
}

/// A reconciliation is over only when a listing showed exactly the wanted
/// rules.
pub proof fn law_reconciliation_ends_on_the_wanted_rules(
    wanted: Seq<RuleText>,
    made: usize,
    listing: RuleListing,
    after: usize,
)
    requires
        reconciles(wanted, made, listing, after, ReconcileAsk::Converged),
    ensures
        listing matches Ok(observed) && reported_rules(observed@) matches Ok(rules) && converged(
            wanted,
            rules,
        ) && distance(wanted, rules) == 0,
{
    law_no_distance_is_convergence(wanted, reported_rules(listing->Ok_0@)->Ok_0);
}

/// Whether a rule with that number is among those reported.
pub open spec fn has_id(observed: Seq<VultrFirewallRule>, id: u64) -> bool {
    exists|i: int| 0 <= i < observed.len() && #[trigger] observed[i].id == id
}

fn holds_id(observed: &Vec<VultrFirewallRule>, id: u64) -> (r: bool)
    ensures
        r == has_id(observed@, id),
{
    let mut i: usize = 0;
    while i < observed.len()
        invariant
            i <= observed@.len(),
            forall|k: int| 0 <= k < i ==> #[trigger] observed@[k].id != id,
        decreases observed@.len() - i,
    {
        if observed[i].id == id {
            return true;
        }
        i = i + 1;
    }
    false
}

/// The error for a removal of a rule that no look proved.
pub open spec fn rule_deletion_unproven(rule_id: u64, observed: Seq<VultrFirewallRule>) -> Seq<
    char,
> {
    "firewall-rule DELETE for id="@ + decimal(rule_id as nat)
        + " was not proven absent after bounded re-observation; observed="@ + all_reported_words(
        observed,
    ) + "; mutation was not replayed"@
}

fn deletion_unproven(rule_id: u64, observed: &Vec<VultrFirewallRule>) -> (r: String)
    ensures
        r@ == rule_deletion_unproven(rule_id, observed@),
{
    cat5(
        "firewall-rule DELETE for id=",
        number(rule_id).as_str(),
        " was not proven absent after bounded re-observation; observed=",
        describe_all_reported(observed).as_str(),
        "; mutation was not replayed",
    )
}

/// Takes the reply to the removal of a rule into account.
pub fn rule_deletion_replied(attempts: usize, rule_id: u64, fault: &Option<ProviderFault>) -> (r: (
    Phase,
    Next<()>,
))
    ensures
        ({
            let (phase, ask) = on_reply(attempts, removal_reply(*fault));
            &&& r.0 == phase
            &&& carries(ask, r.1)
            &&& r.1 matches Next::Done(result) ==> match ask->Finish_0 {
                Ending::NothingThere => result is Ok,
                Ending::Refused => result matches Err(e) && e@ == fault->0.message@,
                _ => result matches Err(e) && e@ == rule_deletion_unproven(rule_id, seq![]),
            }
        }),
{
    let (phase, ask): (Phase, Ask) = Phase::Asked.reply(attempts, read_removal(fault));
    let next: Next<()> = match ask {
        Ask::Change => Next::Change,
        Ask::Look { pause } => Next::Look { pause },
        Ask::Finish(Ending::NothingThere) => Next::Done(Ok(())),
        Ask::Finish(Ending::Refused) => match fault {
            Some(f) => Next::Done(Err(f.message.clone())),
            None => Next::Change,
        },
        Ask::Finish(_) => {
            let nothing: Vec<VultrFirewallRule> = Vec::new();
            Next::Done(Err(deletion_unproven(rule_id, &nothing)))
        },
    };
    (phase, next)
}

/// What a listing shows of the removal of a rule.
pub open spec fn deletion_sight(rule_id: u64, listing: RuleListing) -> Sight {
    match listing {
        Err(_) => Sight::Broken,
        Ok(observed) => if has_id(observed@, rule_id) {
            Sight::Pending
        } else {
            Sight::Reached
        },
    }
}

/// Takes a listing after the removal of a rule into account.
pub fn rule_deletion_looked(
    phase: Phase,
    attempts: usize,
    rule_id: u64,
    listing: &RuleListing,
) -> (r: (Phase, Next<()>))
    requires
        phase is Watching,
    ensures
        ({
            let (to, ask) = phase.looked(attempts, deletion_sight(rule_id, *listing));
            &&& r.0 == to
            &&& carries(ask, r.1)
            &&& r.1 matches Next::Done(result) ==> match *listing {
                Err(fault) => result matches Err(e) && e@ == fault.message@,
                Ok(observed) => if has_id(observed@, rule_id) {
                    result matches Err(e) && e@ == rule_deletion_unproven(rule_id, observed@)
                } else {
                    result is Ok
                },
            }
        }),
{
    match listing {
        Err(fault) => {
            let (to, _): (Phase, Ask) = phase.look(attempts, Sight::Broken);
            (to, Next::Done(Err(fault.message.clone())))
        },
        Ok(observed) => {
            if holds_id(observed, rule_id) {
                let (to, ask): (Phase, Ask) = phase.look(attempts, Sight::Pending);
                match ask {
                    Ask::Look { pause } => (to, Next::Look { pause }),
                    _ => (to, Next::Done(Err(deletion_unproven(rule_id, observed)))),
                }
            } else {
                let (to, _): (Phase, Ask) = phase.look(attempts, Sight::Reached);
                (to, Next::Done(Ok(())))
            }
        },
    }
}

/// The numbers of the reported rules that say what `rule` says, in the order
/// of the report.
pub open spec fn matching_ids(
    rule: RuleText,
    rules: Seq<RuleText>,
    observed: Seq<VultrFirewallRule>,
) -> Seq<u64>
    decreases rules.len(),
{
    if rules.len() == 0 {
        Seq::empty()
    } else {
        let head = matching_ids(rule, rules.drop_last(), observed);
        if rules.last() == rule {
            head.push(observed[rules.len() - 1].id)
        } else {
            head
        }
    }
}

fn ids_of(
    rule: &FirewallRuleSpec,
    rules: &Vec<FirewallRuleSpec>,
    observed: &Vec<VultrFirewallRule>,
) -> (r: Vec<u64>)
    requires
        rules@.len() == observed@.len(),
    ensures
        r@ == matching_ids(rule@, rule_texts(rules@), observed@),
{
    let mut out: Vec<u64> = Vec::new();
    let mut i: usize = 0;
    let ghost all = rule_texts(rules@);
    assert(all.take(0) =~= Seq::<RuleText>::empty());
    while i < rules.len()
        invariant
            i <= rules@.len() == observed@.len(),
            all == rule_texts(rules@),
            out@ == matching_ids(rule@, all.take(i as int), observed@),
        decreases rules@.len() - i,
    {
        assert(all.take(i + 1).drop_last() =~= all.take(i as int));
        if rules[i].same_rule(rule) {
            out.push(observed[i].id);
        }
        i = i + 1;
    }
    assert(all.take(i as int) =~= all);
    out
}

/// The making of one rule.
#[derive(Debug, PartialEq, Eq)]
pub struct RuleCreation {
    pub phase: Phase,
    /// The number that the provider gave the rule, where it said so.
    pub given: Option<u64>,
    /// What the provider said, where the outcome is open.
    pub complaint: String,
}

/// The error for a rule that the provider changed in making it.
pub open spec fn normalized_away(desired: RuleText, returned: RuleText) -> Seq<char> {
    "Vultr normalized created firewall rule away from desired state; desired="@ + rule_words(
        desired,
    ) + " returned="@ + rule_words(returned)
}

/// The error for the making of a rule that no look proved.
pub open spec fn rule_creation_unproven(
    desired: RuleText,
    given: Option<u64>,
    complaint: Seq<char>,
    observed: Seq<VultrFirewallRule>,
) -> Seq<char> {
    match given {
        Some(id) => "firewall-rule CREATE returned id="@ + decimal(id as nat)
            + " but that exact rule did not become observable after bounded re-observation; desired="@
            + rule_words(desired) + " observed="@ + all_reported_words(observed)
            + "; mutation was not replayed"@,
        None => complaint
            + "; firewall-rule CREATE outcome was not proven by bounded re-observation; desired="@
            + rule_words(desired) + " observed="@ + all_reported_words(observed)
            + "; mutation was not replayed"@,
    }
}

fn creation_unproven(
    desired: &FirewallRuleSpec,
    given: Option<u64>,
    complaint: &str,
    observed: &Vec<VultrFirewallRule>,
) -> (r: String)
    ensures
        r@ == rule_creation_unproven(desired@, given, complaint@, observed@),
{
    match given {
        Some(id) => cat7(
            "firewall-rule CREATE returned id=",
            number(id).as_str(),
            " but that exact rule did not become observable after bounded re-observation; desired=",
            describe_rule(desired).as_str(),
            " observed=",
            describe_all_reported(observed).as_str(),
            "; mutation was not replayed",
        ),
        None => cat6(
            complaint,
            "; firewall-rule CREATE outcome was not proven by bounded re-observation; desired=",
            describe_rule(desired).as_str(),
            " observed=",
            describe_all_reported(observed).as_str(),
            "; mutation was not replayed",
        ),
    }
}

/// What the reply to the making of a rule leads to.
pub open spec fn creation_replies(
    attempts: usize,
    desired: RuleText,
    reply: Result<VultrFirewallRule, ProviderFault>,
    after: RuleCreation,
    next: Next<()>,
) -> bool {
    match reply {
        Ok(rule) => match reported_rule(rule) {
            Err(words) => next matches Next::Done(Err(e)) && e@ == words && after.phase is Over,
            Ok(returned) => if returned != desired {
                next matches Next::Done(Err(e)) && e@ == normalized_away(desired, returned)
                    && after.phase is Over
            } else {
                let (phase, ask) = on_reply(attempts, Reply::Accepted);
                &&& after.phase == phase
                &&& after.given == Some(rule.id)
                &&& after.complaint@.len() == 0
                &&& carries(ask, next)
                &&& next matches Next::Done(result) ==> (result matches Err(e) && e@
                    == rule_creation_unproven(desired, Some(rule.id), seq![], seq![]))
            },
        },
        Err(fault) => {
            let (phase, ask) = on_reply(attempts, creation_reply(Some(fault)));
            &&& after.phase == phase
            &&& after.given is None
            &&& after.complaint == fault.message
            &&& carries(ask, next)
            &&& next matches Next::Done(result) ==> (result matches Err(e) && e@ == if ask
                == Ask::Finish(Ending::Refused) {
                fault.message@
            } else {
                rule_creation_unproven(desired, None, fault.message@, seq![])
            })
        },
    }
}

/// Takes the reply to the making of a rule into account.
pub fn rule_creation_replied(
    attempts: usize,
    desired: &FirewallRuleSpec,
    reply: &Result<VultrFirewallRule, ProviderFault>,
) -> (r: (RuleCreation, Next<()>))
    ensures
        creation_replies(attempts, desired@, *reply, r.0, r.1),
{
    let nothing: Vec<VultrFirewallRule> = Vec::new();
    match reply {
        Ok(rule) => {
            let returned: FirewallRuleSpec = match firewall_rule_spec(rule) {
                Ok(returned) => returned,
                Err(e) => return (
                    RuleCreation { phase: Phase::Over, given: None, complaint: String::new() },
                    Next::Done(Err(e)),
                ),
            };
            if !returned.same_rule(desired) {
                return (
                    RuleCreation { phase: Phase::Over, given: None, complaint: String::new() },
                    Next::Done(
                        Err(
                            cat4(
                                "Vultr normalized created firewall rule away from desired state; desired=",
                                describe_rule(desired).as_str(),
                                " returned=",
                                describe_rule(&returned).as_str(),
                            ),
                        ),
                    ),
                );
            }
            let (phase, ask): (Phase, Ask) = Phase::Asked.reply(attempts, Reply::Accepted);
            let next: Next<()> = match ask {
                Ask::Look { pause } => Next::Look { pause },
                _ => Next::Done(Err(creation_unproven(desired, Some(rule.id), "", &nothing))),
            };
            proof {
                reveal_strlit("");
                assert(""@ =~= seq![]);
            }
            (RuleCreation { phase, given: Some(rule.id), complaint: String::new() }, next)
        },
        Err(fault) => {
            let reply: Reply = if fault.uncertain {
                Reply::Uncertain
            } else {
                Reply::Refused
            };
            let (phase, ask): (Phase, Ask) = Phase::Asked.reply(attempts, reply);
            let next: Next<()> = match ask {
                Ask::Look { pause } => Next::Look { pause },
                Ask::Finish(Ending::Refused) => Next::Done(Err(fault.message.clone())),
                _ => Next::Done(
                    Err(creation_unproven(desired, None, fault.message.as_str(), &nothing)),
                ),
            };
            (RuleCreation { phase, given: None, complaint: fault.message.clone() }, next)
        },
    }
}

/// What a listing shows of the making of a rule. A rule whose number is known
/// is looked for by its number; where it is not, the one rule that says the
/// same counts, and several of them end the search.
pub open spec fn creation_sight(
    desired: RuleText,
    given: Option<u64>,
    listing: RuleListing,
) -> Sight {
    match listing {
        Err(_) => Sight::Broken,
        Ok(observed) => match reported_rules(observed@) {
            Err(_) => Sight::Broken,
            Ok(rules) => {
                let ids = matching_ids(desired, rules, observed@);
                match given {
                    Some(id) => if ids.contains(id) {
                        Sight::Reached
                    } else {
                        Sight::Pending
                    },
                    None => if ids.len() == 1 {
                        Sight::Reached
                    } else if ids.len() > 1 {
                        Sight::Broken
                    } else {
                        Sight::Pending
                    },
                }
            },
        },
    }
}

/// How numbers are rendered in messages.
pub open spec fn ids_words(ids: Seq<u64>) -> Seq<char> {
    "["@ + joined(ids.map_values(|id: u64| decimal(id as nat)), ", "@) + "]"@
}

fn describe_ids(ids: &Vec<u64>) -> (r: String)
    ensures
        r@ == ids_words(ids@),
{
    let mut parts: Vec<String> = Vec::new();
    let mut i: usize = 0;
    while i < ids.len()
        invariant
            i <= ids@.len(),
            parts@.len() == i,
            forall|k: int| 0 <= k < i ==> #[trigger] parts@[k]@ == decimal(ids@[k] as nat),
        decreases ids@.len() - i,
    {
        parts.push(number(ids[i]));
        i = i + 1;
    }
    assert(texts(parts@) =~= ids@.map_values(|id: u64| decimal(id as nat)));
    cat3("[", join(&parts, ", ").as_str(), "]")
}

/// The error for the making of a rule that a look shows to have failed.
pub open spec fn creation_broken(desired: RuleText, listing: RuleListing) -> Seq<char> {
    match listing {
        Err(fault) => fault.message@,
        Ok(observed) => match reported_rules(observed@) {
            Err(words) => words,
            Ok(rules) => "uncertain firewall-rule CREATE became ambiguous for "@ + rule_words(
                desired,
            ) + ": observed matching ids="@ + ids_words(
                ascending(matching_ids(desired, rules, observed@)),
            ) + "; mutation was not replayed"@,
        },
    }
}

impl RuleCreation {
    /// Takes a listing after the making of a rule into account.
    pub fn create_firewall_rule_and_observe(self, attempts: usize, desired: &FirewallRuleSpec, listing: &RuleListing) -> (r: (
        RuleCreation,
        Next<()>,
    ))
        requires
            self.phase is Watching,
        ensures
            ({
                let sight = creation_sight(desired@, self.given, *listing);
                let (phase, ask) = self.phase.looked(attempts, sight);
                &&& r.0 == (RuleCreation { phase, ..self })
                &&& carries(ask, r.1)
                &&& r.1 matches Next::Done(result) ==> match sight {
                    Sight::Reached => result is Ok,
                    Sight::Broken => result matches Err(e) && e@ == creation_broken(
                        desired@,
                        *listing,
                    ),
                    Sight::Pending => result matches Err(e) && e@ == rule_creation_unproven(
                        desired@,
                        self.given,
                        self.complaint@,
                        listing->Ok_0@,
                    ),
                }
            }),
    {
        let observed: &Vec<VultrFirewallRule> = match listing {
            Err(fault) => {
                let (phase, _): (Phase, Ask) = self.phase.look(attempts, Sight::Broken);
                return (RuleCreation { phase, ..self }, Next::Done(Err(fault.message.clone())));
            },
            Ok(observed) => observed,
        };
        let rules: Vec<FirewallRuleSpec> = match read_rules(observed) {
            Err(e) => {
                let (phase, _): (Phase, Ask) = self.phase.look(attempts, Sight::Broken);
                return (RuleCreation { phase, ..self }, Next::Done(Err(e)));
            },
            Ok(rules) => rules,
        };
        let ids: Vec<u64> = ids_of(desired, &rules, observed);
        let reached: bool = match self.given {
            Some(id) => {
                let mut found: bool = false;
                let mut i: usize = 0;
                while i < ids.len()
                    invariant
                        i <= ids@.len(),
                        found == ids@.take(i as int).contains(id),
                    decreases ids@.len() - i,
                {
                    let ghost t = ids@.take(i + 1);
                    proof {
                        assert(t =~= ids@.take(i as int).push(ids@[i as int]));
                        if ids@.take(i as int).contains(id) {
                            let k = choose|k: int| 0 <= k < i && ids@.take(i as int)[k] == id;
                            assert(t[k] == id);
                        }
                        assert(t[i as int] == ids@[i as int]);
                    }
                    if ids[i] == id {
                        found = true;
                    }
                    i = i + 1;
                }
                assert(ids@.take(i as int) =~= ids@);
                found
            },
            None => ids.len() == 1,
        };
        if reached {
            let (phase, _): (Phase, Ask) = self.phase.look(attempts, Sight::Reached);
            return (RuleCreation { phase, ..self }, Next::Done(Ok(())));
        }
        if self.given.is_none() && ids.len() > 1 {
            let (phase, _): (Phase, Ask) = self.phase.look(attempts, Sight::Broken);
            let words: String = cat5(
                "uncertain firewall-rule CREATE became ambiguous for ",
                describe_rule(desired).as_str(),
                ": observed matching ids=",
                describe_ids(&sort_ids(&ids)).as_str(),
                "; mutation was not replayed",
            );
            return (RuleCreation { phase, ..self }, Next::Done(Err(words)));
        }
        let (phase, ask): (Phase, Ask) = self.phase.look(attempts, Sight::Pending);
        match ask {
            Ask::Look { pause } => (RuleCreation { phase, ..self }, Next::Look { pause }),
            _ => {
                let words: String = creation_unproven(
                    desired,
                    self.given,
                    self.complaint.as_str(),
                    observed,
                );
                (RuleCreation { phase, ..self }, Next::Done(Err(words)))
            },
        }
    }
}

/// Nothing is to be done exactly if the rules are those of the profile, each
/// once. A rule is removed only where the profile has none such, or where one
/// that says the same, and is not younger, stays; and a rule is made only where
/// the profile has it, none that is there says the same, and nothing is left to
/// remove.
pub proof fn law_changes_bring_the_profile_about(
    profile: FirewallProfile,
    observed: Vec<VultrFirewallRule>,
    rules: Vec<FirewallRuleSpec>,
    change: RuleChange,
)
    requires
        call_ensures(read_rules, (&observed,), Ok::<Vec<FirewallRuleSpec>, String>(rules)),
        call_ensures(
            next_rule_change,
            (&profile, &observed),
            Ok::<RuleChange, String>(change),
        ),
    ensures
        change is Nothing <==> rule_texts(rules@).no_duplicates() && forall|x: RuleText| #[trigger]
            rule_texts(rules@).contains(x) <==> profile@.rules.contains(x),
        change matches RuleChange::Delete(id) ==> exists|i: int|
            0 <= i < observed@.len() && (#[trigger] observed@[i]).id == id && (
            !profile@.rules.contains(rules@[i]@) || exists|j: int|
                0 <= j < observed@.len() && j != i && rules@[j]@ == rules@[i]@ && (
                #[trigger] observed@[j]).id <= id),
        change matches RuleChange::Create(rule) ==> {
            &&& profile@.rules.contains(rule@)
            &&& !rule_texts(rules@).contains(rule@)
            &&& rule_texts(rules@).no_duplicates()
            &&& forall|i: int|
                0 <= i < rules@.len() ==> profile@.rules.contains((#[trigger] rules@[i])@)
        },
{
    let wanted = profile@.rules;
    let all = rule_texts(rules@);
    assert(reported_rules(observed@) == Ok::<Seq<RuleText>, Seq<char>>(all));
    assert(all.len() == rules@.len());
    match change {
        RuleChange::Nothing => {
            assert forall|i: int, j: int|
                0 <= i < all.len() && 0 <= j < all.len() && i != j implies all[i] != all[j] by {
                assert(!surplus(wanted, all, i));
                if all[j] == all[i] {
                    assert(repeated(all, i));
                }
            }
            assert forall|x: RuleText| #[trigger] all.contains(x) <==> wanted.contains(x) by {
                if all.contains(x) {
                    let i = choose|i: int| 0 <= i < all.len() && all[i] == x;
                    assert(!surplus(wanted, all, i));
                }
                if wanted.contains(x) {
                    let k = choose|k: int| 0 <= k < wanted.len() && wanted[k] == x;
                    assert(all.contains(wanted[k]));
                }
            }
        },
        RuleChange::Delete(id) => {
            let i = choose|i: int| #[trigger]
                to_delete(wanted, all, observed@, i) && observed@[i].id == id;
            assert(all[i] == rules@[i]@);
            assert(observed@[i].id == id);
            if wanted.contains(all[i]) {
                let j = choose|j: int| 0 <= j < all.len() && j != i && #[trigger] all[j] == all[i];
                assert(repeated(all, j)) by {
                    assert(all[i] == all[j]);
                }
                assert(surplus(wanted, all, j));
                assert(all[j] == rules@[j]@);
                assert(observed@[j].id <= id);
            } else {
                assert(all.contains(all[i]));
            }
        },
        RuleChange::Create(rule) => {
            assert forall|i: int, j: int|
                0 <= i < all.len() && 0 <= j < all.len() && i != j implies all[i] != all[j] by {
                assert(!surplus(wanted, all, i));
                if all[j] == all[i] {
                    assert(repeated(all, i));
                }
            }
            assert forall|i: int| 0 <= i < rules@.len() implies wanted.contains(
                (#[trigger] rules@[i])@,
            ) by {
                assert(!surplus(wanted, all, i));
                assert(all[i] == rules@[i]@);
            }
        },
    }
    if change is Delete && all.no_duplicates() {
        let i = choose|i: int| #[trigger]
            to_delete(wanted, all, observed@, i) && observed@[i].id == change->Delete_0;
        assert(!wanted.contains(all[i]));
        assert(all.contains(all[i]));
    }
}

/// Whether a reported rule is how the provider shows a rule without a source:
/// with its own network for one.
pub open spec fn shows(rule: RuleText, seen: VultrFirewallRule) -> bool {
    &&& rule.source.len() == 0
    &&& seen.ip_type@ == rule.ip_type
    &&& seen.protocol@ == rule.protocol
    &&& seen.subnet@ == rule.subnet
    &&& seen.subnet_size == rule.subnet_size
    &&& seen.port@ == rule.port
    &&& seen.notes@ == rule.notes
    &&& seen.source@ == rule.subnet + "/"@ + decimal(rule.subnet_size as nat)
}

/// A firewall that shows each rule of a profile once, as the provider shows
/// rules without a source, needs no change: it is the profile's.
pub proof fn law_rules_shown_with_their_network_match(
    profile: FirewallProfile,
    observed: Vec<VultrFirewallRule>,
    change: Result<RuleChange, String>,
    matched: Result<bool, String>,
)
    requires
        observed@.len() == profile.rules@.len(),
        forall|i: int, j: int|
            0 <= i < j < profile.rules@.len() ==> (#[trigger] profile.rules@[i])@ != (
            #[trigger] profile.rules@[j])@,
        forall|i: int|
            0 <= i < profile.rules@.len() ==> {
                let rule = (#[trigger] profile.rules@[i])@;
                &&& shows(rule, observed@[i])
                &&& (rule.ip_type == "v4"@ && rule.subnet_size <= 32) || (rule.ip_type == "v6"@
                    && rule.subnet_size <= 128)
                &&& rule.protocol.len() > 0
                &&& rule.subnet.len() > 0
                &&& trimmed(rule.ip_type) == rule.ip_type
                &&& trimmed(rule.protocol) == rule.protocol
                &&& trimmed(rule.subnet) == rule.subnet
                &&& trimmed(rule.port) == rule.port
                &&& trimmed(rule.notes) == rule.notes
            },
        call_ensures(next_rule_change, (&profile, &observed), change),
        call_ensures(firewall_rules_match, (&profile, &observed), matched),
    ensures
        change == Ok::<RuleChange, String>(RuleChange::Nothing),
        matched == Ok::<bool, String>(true),
{
    let wanted = profile@.rules;
    assert(wanted.len() == profile.rules@.len());
    assert forall|i: int| 0 <= i < observed@.len() implies reported_rule(#[trigger] observed@[i])
        == Ok::<RuleText, Seq<char>>(wanted[i]) by {
        assert(wanted[i] == profile.rules@[i]@);
        lemma_shown_rule_is_read(wanted[i], observed@[i]);
    }
    lemma_all_read(observed@, wanted);
    assert forall|i: int| 0 <= i < wanted.len() implies !#[trigger] surplus(wanted, wanted, i) by {
        assert(wanted.contains(wanted[i]));
        if repeated(wanted, i) {
            let j = choose|j: int|
                0 <= j < wanted.len() && j != i && #[trigger] wanted[j] == wanted[i];
            assert(profile.rules@[i]@ == profile.rules@[j]@);
        }
    }
    assert(converged(wanted, wanted));
}

proof fn lemma_shown_rule_is_read(rule: RuleText, seen: VultrFirewallRule)
    requires
        shows(rule, seen),
        (rule.ip_type == "v4"@ && rule.subnet_size <= 32) || (rule.ip_type == "v6"@
            && rule.subnet_size <= 128),
        rule.protocol.len() > 0,
        rule.subnet.len() > 0,
        trimmed(rule.ip_type) == rule.ip_type,
        trimmed(rule.protocol) == rule.protocol,
        trimmed(rule.subnet) == rule.subnet,
        trimmed(rule.port) == rule.port,
        trimmed(rule.notes) == rule.notes,
    ensures
        reported_rule(seen) == Ok::<RuleText, Seq<char>>(rule),
{
    reveal_strlit("v4");
    reveal_strlit("v6");
    assert("v4"@[1] == '4');
    assert("v6"@[1] == '6');
    lemma_derived_source_is_trimmed(rule.subnet, rule.subnet_size);
    assert(rule.source =~= Seq::<char>::empty());
}

proof fn lemma_all_read(observed: Seq<VultrFirewallRule>, rules: Seq<RuleText>)
    requires
        observed.len() == rules.len(),
        forall|i: int|
            0 <= i < observed.len() ==> reported_rule(#[trigger] observed[i]) == Ok::<
                RuleText,
                Seq<char>,
            >(rules[i]),
    ensures
        reported_rules(observed) == Ok::<Seq<RuleText>, Seq<char>>(rules),
    decreases observed.len(),
{
    if observed.len() == 0 {
        assert(rules =~= Seq::<RuleText>::empty());
    } else {
        assert forall|i: int| 0 <= i < observed.drop_last().len() implies reported_rule(
            #[trigger] observed.drop_last()[i],
        ) == Ok::<RuleText, Seq<char>>(rules.drop_last()[i]) by {
            assert(observed.drop_last()[i] == observed[i]);
        }
        lemma_all_read(observed.drop_last(), rules.drop_last());
        assert(observed[observed.len() - 1] == observed.last());
        assert(rules =~= rules.drop_last().push(rules.last()));
    }
}

/// Reconciling ends on the wanted rules only where the listing shows them, and
/// makes one change for each listing that does not, as long as it may.
pub proof fn law_reconciling_makes_the_next_change(
    state: RuleReconcile,
    profile: FirewallProfile,
    observed: Vec<VultrFirewallRule>,
    matched: Result<bool, String>,
    r: (RuleReconcile, ReconcileAsk),
)
    requires
        call_ensures(firewall_rules_match, (&profile, &observed), matched),
        call_ensures(
            RuleReconcile::reconcile_firewall_rules,
            (state, &profile, &Ok::<Vec<VultrFirewallRule>, ProviderFault>(observed)),
            r,
        ),
    ensures
        r.1 is Converged <==> matched == Ok::<bool, String>(true),
        r.1 is Fail <==> matched is Err,
        r.1 is Delete || r.1 is Create ==> r.0.made == state.made + 1,
        !(r.1 is Delete || r.1 is Create) ==> r.0.made == state.made,
        matched == Ok::<bool, String>(false) && state.made < 32 ==> r.1 is Delete || r.1 is Create,
{
}

proof fn lemma_matching_ids(rule: RuleText, rules: Seq<RuleText>, observed: Seq<VultrFirewallRule>)
    requires
        rules.len() <= observed.len(),
    ensures
        forall|id: u64| #[trigger]
            matching_ids(rule, rules, observed).contains(id) <==> exists|i: int|
                0 <= i < rules.len() && #[trigger] rules[i] == rule && observed[i].id == id,
        matching_ids(rule, rules, observed).len() == 0 <==> !rules.contains(rule),
    decreases rules.len(),
{
    if rules.len() > 0 {
        let head = rules.drop_last();
        lemma_matching_ids(rule, head, observed);
        let before = matching_ids(rule, head, observed);
        let out = matching_ids(rule, rules, observed);
        let n = rules.len() - 1;
        assert forall|id: u64| #[trigger] out.contains(id) <==> exists|i: int|
            0 <= i < rules.len() && #[trigger] rules[i] == rule && observed[i].id == id by {
            if out.contains(id) {
                let k = choose|k: int| 0 <= k < out.len() && out[k] == id;
                if k < before.len() {
                    assert(before[k] == id);
                    assert(before.contains(id));
                    let i = choose|i: int|
                        0 <= i < head.len() && #[trigger] head[i] == rule && observed[i].id == id;
                    assert(rules[i] == rule);
                } else {
                    assert(rules[n] == rule);
                }
            }
            if exists|i: int|
                0 <= i < rules.len() && #[trigger] rules[i] == rule && observed[i].id == id {
                let i = choose|i: int|
                    0 <= i < rules.len() && #[trigger] rules[i] == rule && observed[i].id == id;
                if i < n {
                    assert(head[i] == rule);
                    assert(before.contains(id));
                    let k = choose|k: int| 0 <= k < before.len() && before[k] == id;
                    assert(out[k] == id);
                } else {
                    assert(out[before.len() as int] == id);
                }
            }
        }
        if rules.contains(rule) {
            let i = choose|i: int| 0 <= i < rules.len() && rules[i] == rule;
            if i < n {
                assert(head[i] == rule);
            }
        } else {
            if head.contains(rule) {
                let i = choose|i: int| 0 <= i < head.len() && head[i] == rule;
                assert(rules[i] == rule);
            }
            assert(rules[n] != rule);
        }
    }
}

/// A rule counts as made only once a listing shows it: under the number that
/// the provider gave it, or, where none was given, as the one rule that says
/// what was asked for.
pub proof fn law_a_rule_is_made_once_it_is_seen(
    state: RuleCreation,
    attempts: usize,
    desired: FirewallRuleSpec,
    observed: Vec<VultrFirewallRule>,
    rules: Vec<FirewallRuleSpec>,
    r: (RuleCreation, Next<()>),
)
    requires
        state.phase is Watching,
        call_ensures(read_rules, (&observed,), Ok::<Vec<FirewallRuleSpec>, String>(rules)),
        call_ensures(
            RuleCreation::create_firewall_rule_and_observe,
            (
                state,
                attempts,
                &desired,
                &Ok::<Vec<VultrFirewallRule>, ProviderFault>(observed),
            ),
            r,
        ),
    ensures
        r.1 matches Next::Done(Ok(_)) ==> exists|i: int|
            0 <= i < observed@.len() && rules@[i]@ == desired@ && (state.given matches Some(id)
                ==> (#[trigger] observed@[i]).id == id),
        (exists|i: int|
            0 <= i < observed@.len() && rules@[i]@ == desired@ && state.given == Some(
                (#[trigger] observed@[i]).id,
            )) ==> (r.1 matches Next::Done(Ok(_))),
        !(r.1 is Change),
{
    let all = rule_texts(rules@);
    assert(all.len() == rules@.len());
    lemma_matching_ids(desired@, all, observed@);
    let ids = matching_ids(desired@, all, observed@);
    if r.1 matches Next::Done(Ok(_)) {
        let id = if state.given is Some {
            state.given->Some_0
        } else {
            ids[0]
        };
        assert(ids.contains(id));
        let i = choose|i: int|
            0 <= i < all.len() && #[trigger] all[i] == desired@ && observed@[i].id == id;
        assert(rules@[i]@ == all[i]);
        assert(observed@[i].id == id);
    }
    if exists|i: int|
        0 <= i < observed@.len() && rules@[i]@ == desired@ && state.given == Some(
            (#[trigger] observed@[i]).id,
        ) {
        let i = choose|i: int|
            0 <= i < observed@.len() && rules@[i]@ == desired@ && state.given == Some(
                (#[trigger] observed@[i]).id,
            );
        assert(all[i] == desired@);
        assert(ids.contains(observed@[i].id));
    }
}

/// What the provider says of a new rule is no proof of it, and a rule that it
/// has changed on the way is refused at once.
pub proof fn law_a_changed_rule_is_refused(
    attempts: usize,
    desired: FirewallRuleSpec,
    reply: Result<VultrFirewallRule, ProviderFault>,
    returned: Result<FirewallRuleSpec, String>,
    r: (RuleCreation, Next<()>),
)
    requires
        reply matches Ok(rule) ==> call_ensures(firewall_rule_spec, (&rule,), returned),
        call_ensures(rule_creation_replied, (attempts, &desired, &reply), r),
    ensures
        !(r.1 matches Next::Done(Ok(_))),
        !(r.1 is Change),
        reply is Ok && attempts > 0 ==> (r.1 is Look <==> (returned matches Ok(rule) && rule@
            == desired@)),
        reply matches Ok(rule) && r.1 is Look ==> r.0.given == Some(reply->Ok_0.id),
        reply matches Err(f) ==> (!f.uncertain ==> r.1 is Done),
        reply matches Err(f) ==> (f.uncertain && attempts > 0 ==> r.1 is Look),
{
}

/// A rule counts as removed only where the provider said that it is not there,
/// or a listing no longer shows its number.
pub proof fn law_a_rule_is_gone_once_it_is_not_seen(
    phase: Phase,
    attempts: usize,
    id: u64,
    listing: RuleListing,
    looked: (Phase, Next<()>),
    fault: Option<ProviderFault>,
    replied: (Phase, Next<()>),
)
    requires
        phase is Watching,
        call_ensures(rule_deletion_looked, (phase, attempts, id, &listing), looked),
        call_ensures(rule_deletion_replied, (attempts, id, &fault), replied),
    ensures
        looked.1 matches Next::Done(Ok(_)) <==> (listing matches Ok(observed) && forall|i: int|
            0 <= i < observed@.len() ==> (#[trigger] observed@[i]).id != id),
        listing is Err ==> (looked.1 matches Next::Done(Err(_))),
        replied.1 matches Next::Done(Ok(_)) <==> (fault matches Some(f) && f.not_found),
        !(looked.1 is Change) && !(replied.1 is Change),
{
    match listing {
        Ok(observed) => {
            if forall|i: int| 0 <= i < observed@.len() ==> (#[trigger] observed@[i]).id != id {
                assert(!has_id(observed@, id));
            }
        },
        Err(_) => {},
    }
}

} // verus!
