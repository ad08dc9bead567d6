//! Firewall profiles: what rules a machine's firewall is to hold, read from
//! their JSON registry, and the rules that a provider reports.

use crate::ipv4::{Ipv4, is_ipv4, lemma_decimal, parse_ipv4};
use crate::json::{Json, document, field, get_field, parse_document};
use crate::order::{Rank, law_text_order_is_total, law_text_order_is_transitive, rank, text_le};
use crate::provider::VultrFirewallRule;
use crate::text::{
    begins_with, blank, cat2, cat3, cat4, cat5, chars_of, decimal, is_digit, is_white_space,
    lemma_trimmed_blank, lemma_trimmed_same, lemma_trimmed_twice, number, same, texts, trim,
    trimmed,
};
use vstd::prelude::*;
use vstd::string::*;

verus! {

/// Stands for the controller's own address in a profile.
pub const CONTROLLER_PLACEHOLDER: &'static str = "@controller-ipv4";

/// One rule of a firewall.
#[derive(Debug, Clone, PartialEq, Eq, PartialOrd, Ord)]
pub struct FirewallRuleSpec {
    pub ip_type: String,
    pub protocol: String,
    pub subnet: String,
    pub subnet_size: u32,
    pub port: String,
    pub source: String,
    pub notes: String,
}

/// What a rule says.
pub struct RuleText {
    pub ip_type: Seq<char>,
    pub protocol: Seq<char>,
    pub subnet: Seq<char>,
    pub subnet_size: u32,
    pub port: Seq<char>,
    pub source: Seq<char>,
    pub notes: Seq<char>,
}

impl View for FirewallRuleSpec {
    type V = RuleText;

    open spec fn view(&self) -> RuleText {
        RuleText {
            ip_type: self.ip_type@,
            protocol: self.protocol@,
            subnet: self.subnet@,
            subnet_size: self.subnet_size,
            port: self.port@,
            source: self.source@,
            notes: self.notes@,
        }
    }
}

/// What each of the rules says.
pub open spec fn rule_texts(rules: Seq<FirewallRuleSpec>) -> Seq<RuleText> {
    rules.map_values(|r: FirewallRuleSpec| r@)
}

/// The order of rules: the first field in which they differ decides.
pub open spec fn rule_le(a: RuleText, b: RuleText) -> bool {
    if a.ip_type != b.ip_type {
        text_le(a.ip_type, b.ip_type)
    } else if a.protocol != b.protocol {
        text_le(a.protocol, b.protocol)
    } else if a.subnet != b.subnet {
        text_le(a.subnet, b.subnet)
    } else if a.subnet_size != b.subnet_size {
        a.subnet_size < b.subnet_size
    } else if a.port != b.port {
        text_le(a.port, b.port)
    } else if a.source != b.source {
        text_le(a.source, b.source)
    } else {
        text_le(a.notes, b.notes)
    }
}

/// The order of rules is total.
pub proof fn law_rule_order_is_total(a: RuleText, b: RuleText)
    ensures
        rule_le(a, a),
        rule_le(a, b) || rule_le(b, a),
        rule_le(a, b) && rule_le(b, a) ==> a == b,
{
    law_text_order_is_total(a.ip_type, b.ip_type);
    law_text_order_is_total(a.protocol, b.protocol);
    law_text_order_is_total(a.subnet, b.subnet);
    law_text_order_is_total(a.port, b.port);
    law_text_order_is_total(a.source, b.source);
    law_text_order_is_total(a.notes, b.notes);
}

/// The order of rules is transitive.
pub proof fn law_rule_order_is_transitive(a: RuleText, b: RuleText, c: RuleText)
    requires
        rule_le(a, b),
        rule_le(b, c),
    ensures
        rule_le(a, c),
{
    lemma_text_chain(a.ip_type, b.ip_type, c.ip_type);
    lemma_text_chain(a.protocol, b.protocol, c.protocol);
    lemma_text_chain(a.subnet, b.subnet, c.subnet);
    lemma_text_chain(a.port, b.port, c.port);
    lemma_text_chain(a.source, b.source, c.source);
    lemma_text_chain(a.notes, b.notes, c.notes);
}

proof fn lemma_text_chain(a: Seq<char>, b: Seq<char>, c: Seq<char>)
    ensures
        text_le(a, b) && text_le(b, c) ==> text_le(a, c),
        text_le(a, b) && text_le(b, c) && a == c ==> a == b,
{
    if text_le(a, b) && text_le(b, c) {
        law_text_order_is_transitive(a, b, c);
        law_text_order_is_total(a, b);
    }
}

impl FirewallRuleSpec {
    /// Whether two rules say the same.
    pub fn same_rule(&self, other: &FirewallRuleSpec) -> (r: bool)
        ensures
            r == (self@ == other@),
    {
        self.ip_type == other.ip_type && self.protocol == other.protocol && self.subnet
            == other.subnet && self.subnet_size == other.subnet_size && self.port == other.port
            && self.source == other.source && self.notes == other.notes
    }

    /// Whether this rule comes before another or is the same.
    pub fn precedes(&self, other: &FirewallRuleSpec) -> (r: bool)
        ensures
            r == rule_le(self@, other@),
    {
        proof {
            law_text_order_is_total(self.ip_type@, other.ip_type@);
            law_text_order_is_total(self.protocol@, other.protocol@);
            law_text_order_is_total(self.subnet@, other.subnet@);
            law_text_order_is_total(self.port@, other.port@);
            law_text_order_is_total(self.source@, other.source@);
            law_text_order_is_total(self.notes@, other.notes@);
        }
        match rank(self.ip_type.as_str(), other.ip_type.as_str()) {
            Rank::Less => return true,
            Rank::Greater => return false,
            Rank::Equal => {},
        }
        match rank(self.protocol.as_str(), other.protocol.as_str()) {
            Rank::Less => return true,
            Rank::Greater => return false,
            Rank::Equal => {},
        }
        match rank(self.subnet.as_str(), other.subnet.as_str()) {
            Rank::Less => return true,
            Rank::Greater => return false,
            Rank::Equal => {},
        }
        if self.subnet_size != other.subnet_size {
            return self.subnet_size < other.subnet_size;
        }
        match rank(self.port.as_str(), other.port.as_str()) {
            Rank::Less => return true,
            Rank::Greater => return false,
            Rank::Equal => {},
        }
        match rank(self.source.as_str(), other.source.as_str()) {
            Rank::Less => return true,
            Rank::Greater => return false,
            Rank::Equal => {},
        }
        match rank(self.notes.as_str(), other.notes.as_str()) {
            Rank::Less => true,
            Rank::Greater => false,
            Rank::Equal => true,
        }
    }

    /// A copy of the rule.
    pub fn copy(&self) -> (r: FirewallRuleSpec)
        ensures
            r == *self,
    {
        FirewallRuleSpec {
            ip_type: self.ip_type.clone(),
            protocol: self.protocol.clone(),
            subnet: self.subnet.clone(),
            subnet_size: self.subnet_size,
            port: self.port.clone(),
            source: self.source.clone(),
            notes: self.notes.clone(),
        }
    }
}

/// `rule` put in its place among ordered rules, behind those that equal it.
pub open spec fn placed(rules: Seq<RuleText>, rule: RuleText) -> Seq<RuleText>
    decreases rules.len(),
{
    if rules.len() == 0 || rule_le(rules.last(), rule) {
        rules.push(rule)
    } else {
        placed(rules.drop_last(), rule).push(rules.last())
    }
}

/// The rules in order.
pub open spec fn arranged(rules: Seq<RuleText>) -> Seq<RuleText>
    decreases rules.len(),
{
    if rules.len() == 0 {
        Seq::empty()
    } else {
        placed(arranged(rules.drop_last()), rules.last())
    }
}

/// Whether each rule comes before all that follow it.
pub open spec fn in_order(rules: Seq<RuleText>) -> bool {
    forall|i: int, j: int| 0 <= i <= j < rules.len() ==> rule_le(#[trigger] rules[i], #[trigger] rules[j])
}

/// Arranging rules puts them in order and neither adds nor drops one.
pub proof fn law_arranging_orders_and_keeps(rules: Seq<RuleText>)
    ensures
        in_order(arranged(rules)),
        arranged(rules).to_multiset() == rules.to_multiset(),
        arranged(rules).len() == rules.len(),
    decreases rules.len(),
{
    broadcast use vstd::seq_lib::group_to_multiset_ensures;

    if rules.len() > 0 {
        law_arranging_orders_and_keeps(rules.drop_last());
        lemma_placed(arranged(rules.drop_last()), rules.last());
        assert(rules =~= rules.drop_last().push(rules.last()));
    } else {
        assert(arranged(rules) =~= rules);
    }
}

proof fn lemma_placed(rules: Seq<RuleText>, rule: RuleText)
    requires
        in_order(rules),
    ensures
        in_order(placed(rules, rule)),
        placed(rules, rule).len() == rules.len() + 1,
        placed(rules, rule).to_multiset() == rules.to_multiset().insert(rule),
        forall|x: RuleText|
            #[trigger] placed(rules, rule).contains(x) ==> x == rule || rules.contains(x),
    decreases rules.len(),
{
    broadcast use vstd::seq_lib::group_to_multiset_ensures;

    let out = placed(rules, rule);
    if rules.len() == 0 || rule_le(rules.last(), rule) {
        assert forall|i: int, j: int| 0 <= i <= j < out.len() implies rule_le(
            #[trigger] out[i],
            #[trigger] out[j],
        ) by {
            if j == rules.len() {
                if i < rules.len() {
                    assert(rule_le(rules[i], rules.last()));
                    law_rule_order_is_transitive(rules[i], rules.last(), rule);
                } else {
                    law_rule_order_is_total(rule, rule);
                }
            } else {
                assert(rule_le(rules[i], rules[j]));
            }
        }
        assert forall|x: RuleText| out.contains(x) implies x == rule || rules.contains(x) by {
            let i = choose|i: int| 0 <= i < out.len() && out[i] == x;
            if i < rules.len() {
                assert(rules[i] == x);
            }
        }
    } else {
        let head = rules.drop_last();
        let last = rules.last();
        assert forall|i: int, j: int| 0 <= i <= j < head.len() implies rule_le(
            #[trigger] head[i],
            #[trigger] head[j],
        ) by {
            assert(rule_le(rules[i], rules[j]));
        }
        lemma_placed(head, rule);
        let mid = placed(head, rule);
        law_rule_order_is_total(last, rule);
        assert forall|i: int, j: int| 0 <= i <= j < out.len() implies rule_le(
            #[trigger] out[i],
            #[trigger] out[j],
        ) by {
            if j == mid.len() {
                if i < mid.len() {
                    assert(mid.contains(mid[i]));
                    if mid[i] != rule {
                        assert(head.contains(mid[i]));
                        let k = choose|k: int| 0 <= k < head.len() && head[k] == mid[i];
                        assert(rules[k] == mid[i]);
                        assert(rule_le(rules[k], rules[rules.len() - 1]));
                    }
                } else {
                    law_rule_order_is_total(last, last);
                }
            } else {
                assert(rule_le(mid[i], mid[j]));
            }
        }
        assert(rules =~= head.push(last));
        assert(head.to_multiset().insert(rule).insert(last) =~= head.to_multiset().insert(
            last,
        ).insert(rule));
        assert forall|x: RuleText| out.contains(x) implies x == rule || rules.contains(x) by {
            let i = choose|i: int| 0 <= i < out.len() && out[i] == x;
            if i < mid.len() {
                assert(mid.contains(x));
                if x != rule {
                    let k = choose|k: int| 0 <= k < head.len() && head[k] == x;
                    assert(rules[k] == x);
                }
            } else {
                assert(rules[rules.len() - 1] == x);
            }
        }
    }
}

proof fn lemma_placed_at(rules: Seq<RuleText>, rule: RuleText, i: int)
    requires
        0 <= i <= rules.len(),
        forall|k: int| i <= k < rules.len() ==> !rule_le(#[trigger] rules[k], rule),
        i > 0 ==> rule_le(rules[i - 1], rule),
    ensures
        placed(rules, rule) == rules.insert(i, rule),
    decreases rules.len(),
{
    if i == rules.len() {
        assert(rules.insert(i, rule) =~= rules.push(rule));
    } else {
        assert(!rule_le(rules[rules.len() - 1], rule));
        let head = rules.drop_last();
        lemma_placed_at(head, rule, i);
        assert(rules.insert(i, rule) =~= head.insert(i, rule).push(rules.last()));
    }
}

/// Puts a rule in its place among ordered rules.
fn place(rules: &mut Vec<FirewallRuleSpec>, rule: FirewallRuleSpec)
    ensures
        rule_texts(final(rules)@) == placed(rule_texts(old(rules)@), rule@),
{
    let ghost before = rules@;
    let mut i: usize = rules.len();
    while i > 0 && !rules[i - 1].precedes(&rule)
        invariant
            i <= rules@.len(),
            rules@ == before,
            forall|k: int| i <= k < rules@.len() ==> !rule_le(#[trigger] rule_texts(before)[k], rule@),
        decreases i,
    {
        i = i - 1;
    }
    proof {
        lemma_placed_at(rule_texts(before), rule@, i as int);
        assert(rule_texts(before.insert(i as int, rule)) =~= rule_texts(before).insert(
            i as int,
            rule@,
        ));
    }
    rules.insert(i, rule);
}

/// Puts rules in order.
pub fn arrange(rules: &Vec<FirewallRuleSpec>) -> (r: Vec<FirewallRuleSpec>)
    ensures
        rule_texts(r@) == arranged(rule_texts(rules@)),
{
    let mut out: Vec<FirewallRuleSpec> = Vec::new();
    let mut i: usize = 0;
    assert(rule_texts(out@) =~= Seq::<RuleText>::empty());
    while i < rules.len()
        invariant
            i <= rules@.len(),
            rule_texts(out@) == arranged(rule_texts(rules@.take(i as int))),
        decreases rules@.len() - i,
    {
        place(&mut out, rules[i].copy());
        i = i + 1;
        proof {
            let t = rule_texts(rules@.take(i as int));
            assert(t.drop_last() =~= rule_texts(rules@.take(i - 1)));
            assert(t.last() == rules@[i - 1]@);
        }
    }
    assert(rules@.take(i as int) =~= rules@);
    out
}

/// Whether two rules let in the same traffic: everything but the notes counts.
pub open spec fn same_access(a: RuleText, b: RuleText) -> bool {
    a == (RuleText { notes: a.notes, ..b })
}

/// Whether two rules let in the same traffic.
pub fn same_firewall_access_semantics(left: &FirewallRuleSpec, right: &FirewallRuleSpec) -> (r:
    bool)
    ensures
        r == same_access(left@, right@),
{
    left.ip_type == right.ip_type && left.protocol == right.protocol && left.subnet == right.subnet
        && left.subnet_size == right.subnet_size && left.port == right.port && left.source
        == right.source
}

/// Why a rule is refused, if it is.
pub open spec fn rule_fault(rule: RuleText) -> Option<Seq<char>> {
    if rule.ip_type == "v4"@ {
        if rule.subnet_size > 32 {
            Some("IPv4 firewall subnet_size must be <= 32"@)
        } else {
            parts_fault(rule)
        }
    } else if rule.ip_type == "v6"@ {
        if rule.subnet_size > 128 {
            Some("IPv6 firewall subnet_size must be <= 128"@)
        } else {
            parts_fault(rule)
        }
    } else {
        Some("unsupported firewall ip_type "@ + rule.ip_type)
    }
}

/// A rule names a protocol and a subnet.
pub open spec fn parts_fault(rule: RuleText) -> Option<Seq<char>> {
    if rule.protocol.len() == 0 || rule.subnet.len() == 0 {
        Some("firewall protocol and subnet must be non-empty"@)
    } else {
        None
    }
}

proof fn lemma_ip_types()
    ensures
        "v4"@ != "v6"@,
{
    reveal_strlit("v4");
    reveal_strlit("v6");
    assert("v4"@[1] != "v6"@[1]);
}

/// Checks a rule.
pub fn validate_rule(rule: &FirewallRuleSpec) -> (r: Result<(), String>)
    ensures
        match r {
            Ok(()) => rule_fault(rule@) is None,
            Err(e) => rule_fault(rule@) == Some(e@),
        },
{
    proof {
        lemma_ip_types();
    }
    if same(rule.ip_type.as_str(), "v4") {
        if rule.subnet_size > 32 {
            return Err("IPv4 firewall subnet_size must be <= 32".to_owned());
        }
    } else if same(rule.ip_type.as_str(), "v6") {
        if rule.subnet_size > 128 {
            return Err("IPv6 firewall subnet_size must be <= 128".to_owned());
        }
    } else {
        return Err(cat2("unsupported firewall ip_type ", rule.ip_type.as_str()));
    }
    if rule.protocol.as_str().is_empty() || rule.subnet.as_str().is_empty() {
        return Err("firewall protocol and subnet must be non-empty".to_owned());
    }
    Ok(())
}

/// The kinds of objects in the registry.
#[derive(Debug, Clone, Copy, PartialEq, Eq, Structural)]
pub enum Level {
    Registry,
    Profile,
    Rule,
}

/// What objects of a kind are called in messages.
pub open spec fn level_label(level: Level) -> Seq<char> {
    match level {
        Level::Registry => "firewall profiles"@,
        Level::Profile => "firewall profile"@,
        Level::Rule => "firewall rule"@,
    }
}

impl Level {
    fn label(self) -> (r: &'static str)
        ensures
            r@ == level_label(self),
    {
        match self {
            Level::Registry => "firewall profiles",
            Level::Profile => "firewall profile",
            Level::Rule => "firewall rule",
        }
    }
}

/// The fields that an object of a kind may have.
pub open spec fn known_field(level: Level, name: Seq<char>) -> bool {
    match level {
        Level::Registry => name == "schema"@ || name == "profiles"@,
        Level::Profile => name == "name"@ || name == "rules"@,
        Level::Rule => {
            ||| name == "ip_type"@
            ||| name == "protocol"@
            ||| name == "subnet"@
            ||| name == "subnet_size"@
            ||| name == "port"@
            ||| name == "source"@
            ||| name == "notes"@
        },
    }
}

fn is_known_field(level: Level, name: &str) -> (r: bool)
    ensures
        r == known_field(level, name@),
{
    match level {
        Level::Registry => same(name, "schema") || same(name, "profiles"),
        Level::Profile => same(name, "name") || same(name, "rules"),
        Level::Rule => same(name, "ip_type") || same(name, "protocol") || same(name, "subnet")
            || same(name, "subnet_size") || same(name, "port") || same(name, "source") || same(
            name,
            "notes",
        ),
    }
}

/// The first field that an object of a kind may not have.
pub open spec fn unknown_field(fields: Seq<(String, Json)>, level: Level) -> Option<Seq<char>>
    decreases fields.len(),
{
    if fields.len() == 0 {
        None
    } else if !known_field(level, fields[0].0@) {
        Some(fields[0].0@)
    } else {
        unknown_field(fields.drop_first(), level)
    }
}

/// The fields of an object of a kind, all of them known, or else what is wrong.
pub open spec fn object_value(value: Json, level: Level) -> Result<Seq<(String, Json)>, Seq<char>> {
    match value {
        Json::Object(fields) => match unknown_field(fields@, level) {
            Some(name) => Err(level_label(level) + " contains unknown field "@ + name),
            None => Ok(fields@),
        },
        _ => Err(level_label(level) + " must be a JSON object"@),
    }
}

fn reject_unknown_keys(fields: &Vec<(String, Json)>, level: Level) -> (r: Result<(), String>)
    ensures
        match r {
            Ok(()) => unknown_field(fields@, level) is None,
            Err(e) => unknown_field(fields@, level) matches Some(name) && e@ == level_label(level)
                + " contains unknown field "@ + name,
        },
{
    let mut i: usize = 0;
    assert(fields@.skip(0) =~= fields@);
    while i < fields.len()
        invariant
            i <= fields@.len(),
            unknown_field(fields@, level) == unknown_field(fields@.skip(i as int), level),
        decreases fields@.len() - i,
    {
        assert(fields@.skip(i as int).drop_first() =~= fields@.skip(i + 1));
        if !is_known_field(level, fields[i].0.as_str()) {
            return Err(
                cat3(level.label(), " contains unknown field ", fields[i].0.as_str()),
            );
        }
        i = i + 1;
    }
    Ok(())
}

fn expect_object<'a>(value: &'a Json, level: Level) -> (r: Result<&'a Vec<(String, Json)>, String>)
    ensures
        match r {
            Ok(fields) => object_value(*value, level) == Ok::<Seq<(String, Json)>, Seq<char>>(
                fields@,
            ),
            Err(e) => object_value(*value, level) == Err::<Seq<(String, Json)>, Seq<char>>(e@),
        },
{
    match value {
        Json::Object(fields) => match reject_unknown_keys(fields, level) {
            Ok(()) => Ok(fields),
            Err(e) => Err(e),
        },
        _ => Err(cat2(level.label(), " must be a JSON object")),
    }
}

/// A field that must be a text with something in it and no white space at its
/// ends.
pub open spec fn required_text(fields: Seq<(String, Json)>, key: Seq<char>, level: Level) -> Result<
    Seq<char>,
    Seq<char>,
> {
    match field(fields, key) {
        Some(Json::Text(s)) => if s@.len() == 0 || trimmed(s@) != s@ {
            Err(level_label(level) + " field "@ + key + " must be non-empty and trimmed"@)
        } else {
            Ok(s@)
        },
        _ => Err(level_label(level) + " field "@ + key + " must be a string"@),
    }
}

fn required_string(fields: &Vec<(String, Json)>, key: &str, level: Level) -> (r: Result<
    String,
    String,
>)
    ensures
        match r {
            Ok(s) => required_text(fields@, key@, level) == Ok::<Seq<char>, Seq<char>>(s@),
            Err(e) => required_text(fields@, key@, level) == Err::<Seq<char>, Seq<char>>(e@),
        },
{
    match get_field(fields, key) {
        Some(Json::Text(s)) => {
            if s.as_str().is_empty() || !same(trim(s.as_str()), s.as_str()) {
                Err(cat4(level.label(), " field ", key, " must be non-empty and trimmed"))
            } else {
                Ok(s.clone())
            }
        },
        _ => Err(cat4(level.label(), " field ", key, " must be a string")),
    }
}

/// An ASCII letter or digit.
pub open spec fn is_alphanumeric(c: char) -> bool {
    '0' <= c <= '9' || 'a' <= c <= 'z' || 'A' <= c <= 'Z'
}

/// Whether `s` is made of letters, digits, hyphens, underscores and dots.
pub open spec fn identifier(s: Seq<char>) -> bool {
    forall|i: int|
        0 <= i < s.len() ==> is_alphanumeric(#[trigger] s[i]) || s[i] == '-' || s[i] == '_' || s[i]
            == '.'
}

fn is_identifier(s: &str) -> (r: bool)
    ensures
        r == identifier(s@),
{
    let chars: Vec<char> = chars_of(s);
    let mut i: usize = 0;
    while i < chars.len()
        invariant
            i <= chars@.len(),
            chars@ == s@,
            identifier(s@.take(i as int)),
        decreases chars@.len() - i,
    {
        let c: char = chars[i];
        if !(('0' <= c && c <= '9') || ('a' <= c && c <= 'z') || ('A' <= c && c <= 'Z') || c == '-'
            || c == '_' || c == '.') {
            assert(s@[i as int] == c);
            return false;
        }
        i = i + 1;
        assert(s@.take(i as int) =~= s@.take(i - 1).push(c));
    }
    assert(s@.take(i as int) =~= s@);
    true
}

/// A field that must be a name.
pub open spec fn required_name(fields: Seq<(String, Json)>, key: Seq<char>, level: Level) -> Result<
    Seq<char>,
    Seq<char>,
> {
    match required_text(fields, key, level) {
        Err(e) => Err(e),
        Ok(s) => if identifier(s) {
            Ok(s)
        } else {
            Err(level_label(level) + " field "@ + key + " contains unsupported characters"@)
        },
    }
}

fn required_identifier(fields: &Vec<(String, Json)>, key: &str, level: Level) -> (r: Result<
    String,
    String,
>)
    ensures
        match r {
            Ok(s) => required_name(fields@, key@, level) == Ok::<Seq<char>, Seq<char>>(s@),
            Err(e) => required_name(fields@, key@, level) == Err::<Seq<char>, Seq<char>>(e@),
        },
{
    match required_string(fields, key, level) {
        Err(e) => Err(e),
        Ok(s) => if is_identifier(s.as_str()) {
            Ok(s)
        } else {
            Err(cat4(level.label(), " field ", key, " contains unsupported characters"))
        },
    }
}

/// A field that may be missing, and otherwise is a text without white space at
/// its ends.
pub open spec fn optional_text(fields: Seq<(String, Json)>, key: Seq<char>) -> Result<Seq<char>, Seq<char>> {
    match field(fields, key) {
        None => Ok(Seq::empty()),
        Some(Json::Text(s)) => if trimmed(s@) != s@ {
            Err("firewall rule field "@ + key + " must be trimmed"@)
        } else {
            Ok(s@)
        },
        Some(_) => Err("firewall rule field "@ + key + " must be a string"@),
    }
}

fn optional_string(fields: &Vec<(String, Json)>, key: &str) -> (r: Result<String, String>)
    ensures
        match r {
            Ok(s) => optional_text(fields@, key@) == Ok::<Seq<char>, Seq<char>>(s@),
            Err(e) => optional_text(fields@, key@) == Err::<Seq<char>, Seq<char>>(e@),
        },
{
    match get_field(fields, key) {
        None => Ok(String::new()),
        Some(Json::Text(s)) => {
            if !same(trim(s.as_str()), s.as_str()) {
                Err(cat3("firewall rule field ", key, " must be trimmed"))
            } else {
                Ok(s.clone())
            }
        },
        Some(_) => Err(cat3("firewall rule field ", key, " must be a string")),
    }
}

/// The size of a rule's subnet.
pub open spec fn subnet_size_value(fields: Seq<(String, Json)>, profile: Seq<char>) -> Result<
    u32,
    Seq<char>,
> {
    match field(fields, "subnet_size"@) {
        Some(Json::Number(Some(n))) if n <= u32::MAX => Ok(n as u32),
        _ => Err(
            "firewall profile "@ + profile + " rule subnet_size must be an integer"@,
        ),
    }
}

/// The rule that a JSON value in the profile `profile` describes, or else the
/// first thing that is wrong with it.
pub open spec fn rule_value(value: Json, profile: Seq<char>) -> Result<RuleText, Seq<char>> {
    match object_value(value, Level::Rule) {
        Err(e) => Err(e),
        Ok(fields) => match required_name(fields, "ip_type"@, Level::Rule) {
            Err(e) => Err(e),
            Ok(ip_type) => match required_name(fields, "protocol"@, Level::Rule) {
                Err(e) => Err(e),
                Ok(protocol) => match required_text(fields, "subnet"@, Level::Rule) {
                    Err(e) => Err(e),
                    Ok(subnet) => match subnet_size_value(fields, profile) {
                        Err(e) => Err(e),
                        Ok(subnet_size) => match optional_text(fields, "port"@) {
                            Err(e) => Err(e),
                            Ok(port) => match optional_text(fields, "source"@) {
                                Err(e) => Err(e),
                                Ok(source) => match optional_text(fields, "notes"@) {
                                    Err(e) => Err(e),
                                    Ok(notes) => {
                                        let rule = RuleText {
                                            ip_type,
                                            protocol,
                                            subnet,
                                            subnet_size,
                                            port,
                                            source,
                                            notes,
                                        };
                                        match rule_fault(rule) {
                                            Some(e) => Err(e),
                                            None => Ok(rule),
                                        }
                                    },
                                },
                            },
                        },
                    },
                },
            },
        },
    }
}

fn parse_rule(value: &Json, profile_name: &str) -> (r: Result<FirewallRuleSpec, String>)
    ensures
        match r {
            Ok(rule) => rule_value(*value, profile_name@) == Ok::<RuleText, Seq<char>>(rule@),
            Err(e) => rule_value(*value, profile_name@) == Err::<RuleText, Seq<char>>(e@),
        },
{
    let fields: &Vec<(String, Json)> = match expect_object(value, Level::Rule) {
        Ok(fields) => fields,
        Err(e) => return Err(e),
    };
    let ip_type: String = match required_identifier(fields, "ip_type", Level::Rule) {
        Ok(s) => s,
        Err(e) => return Err(e),
    };
    let protocol: String = match required_identifier(fields, "protocol", Level::Rule) {
        Ok(s) => s,
        Err(e) => return Err(e),
    };
    let subnet: String = match required_string(fields, "subnet", Level::Rule) {
        Ok(s) => s,
        Err(e) => return Err(e),
    };
    let subnet_size: u32 = match get_field(fields, "subnet_size") {
        Some(Json::Number(Some(n))) if *n <= u32::MAX as u64 => *n as u32,
        _ => return Err(
            cat3("firewall profile ", profile_name, " rule subnet_size must be an integer"),
        ),
    };
    let port: String = match optional_string(fields, "port") {
        Ok(s) => s,
        Err(e) => return Err(e),
    };
    let source: String = match optional_string(fields, "source") {
        Ok(s) => s,
        Err(e) => return Err(e),
    };
    let notes: String = match optional_string(fields, "notes") {
        Ok(s) => s,
        Err(e) => return Err(e),
    };
    let rule: FirewallRuleSpec = FirewallRuleSpec {
        ip_type,
        protocol,
        subnet,
        subnet_size,
        port,
        source,
        notes,
    };
    match validate_rule(&rule) {
        Ok(()) => Ok(rule),
        Err(e) => Err(e),
    }
}

/// The rules that the values describe, in their order; none may occur twice.
/// Of several faults the first counts.
pub open spec fn rules_value(values: Seq<Json>, profile: Seq<char>) -> Result<
    Seq<RuleText>,
    Seq<char>,
>
    decreases values.len(),
{
    if values.len() == 0 {
        Ok(Seq::empty())
    } else {
        match rules_value(values.drop_last(), profile) {
            Err(e) => Err(e),
            Ok(rules) => match rule_value(values.last(), profile) {
                Err(e) => Err(e),
                Ok(rule) => if rules.contains(rule) {
                    Err("firewall profile "@ + profile + " contains a duplicate rule"@)
                } else {
                    Ok(rules.push(rule))
                },
            },
        }
    }
}

proof fn lemma_rules_fail(values: Seq<Json>, profile: Seq<char>, i: int)
    requires
        0 <= i <= values.len(),
        rules_value(values.take(i), profile) is Err,
    ensures
        rules_value(values, profile) == rules_value(values.take(i), profile),
    decreases values.len() - i,
{
    if i == values.len() {
        assert(values.take(i) =~= values);
    } else {
        assert(values.take(i + 1).drop_last() =~= values.take(i));
        lemma_rules_fail(values, profile, i + 1);
    }
}

/// Whether one of the rules says what `rule` says.
pub fn holds_rule(rules: &Vec<FirewallRuleSpec>, rule: &FirewallRuleSpec) -> (r: bool)
    ensures
        r == rule_texts(rules@).contains(rule@),
{
    let mut i: usize = 0;
    while i < rules.len()
        invariant
            i <= rules@.len(),
            forall|k: int| 0 <= k < i ==> #[trigger] rule_texts(rules@)[k] != rule@,
        decreases rules@.len() - i,
    {
        if rules[i].same_rule(rule) {
            assert(rule_texts(rules@)[i as int] == rule@);
            return true;
        }
        i = i + 1;
    }
    false
}

fn parse_rules(values: &Vec<Json>, profile_name: &str) -> (r: Result<
    Vec<FirewallRuleSpec>,
    String,
>)
    ensures
        match r {
            Ok(rules) => rules_value(values@, profile_name@) == Ok::<Seq<RuleText>, Seq<char>>(
                rule_texts(rules@),
            ),
            Err(e) => rules_value(values@, profile_name@) == Err::<Seq<RuleText>, Seq<char>>(e@),
        },
{
    let mut rules: Vec<FirewallRuleSpec> = Vec::new();
    let mut i: usize = 0;
    assert(rule_texts(rules@) =~= Seq::<RuleText>::empty());
    while i < values.len()
        invariant
            i <= values@.len(),
            rules_value(values@.take(i as int), profile_name@) == Ok::<Seq<RuleText>, Seq<char>>(
                rule_texts(rules@),
            ),
        decreases values@.len() - i,
    {
        let ghost t = values@.take(i + 1);
        proof {
            assert(t.drop_last() =~= values@.take(i as int));
            assert(t.last() == values@[i as int]);
        }
        let rule: FirewallRuleSpec = match parse_rule(&values[i], profile_name) {
            Ok(rule) => rule,
            Err(e) => {
                proof {
                    lemma_rules_fail(values@, profile_name@, i + 1);
                }
                return Err(e);
            },
        };
        if holds_rule(&rules, &rule) {
            proof {
                lemma_rules_fail(values@, profile_name@, i + 1);
            }
            return Err(cat3("firewall profile ", profile_name, " contains a duplicate rule"));
        }
        let ghost before = rules@;
        rules.push(rule);
        assert(rule_texts(rules@) =~= rule_texts(before).push(rule@));
        i = i + 1;
    }
    assert(values@.take(i as int) =~= values@);
    Ok(rules)
}

/// A named set of rules.
#[derive(Debug, Clone, PartialEq, Eq)]
pub struct FirewallProfile {
    pub name: String,
    pub rules: Vec<FirewallRuleSpec>,
}

/// What a profile says.
pub struct ProfileText {
    pub name: Seq<char>,
    pub rules: Seq<RuleText>,
}

impl View for FirewallProfile {
    type V = ProfileText;

    open spec fn view(&self) -> ProfileText {
        ProfileText { name: self.name@, rules: rule_texts(self.rules@) }
    }
}

/// The profile that a JSON value describes, its rules in order, or else the
/// first thing that is wrong with it.
pub open spec fn profile_value(value: Json) -> Result<ProfileText, Seq<char>> {
    match object_value(value, Level::Profile) {
        Err(e) => Err(e),
        Ok(fields) => match required_name(fields, "name"@, Level::Profile) {
            Err(e) => Err(e),
            Ok(name) => match field(fields, "rules"@) {
                Some(Json::Array(values)) => match rules_value(values@, name) {
                    Err(e) => Err(e),
                    Ok(rules) => Ok(ProfileText { name, rules: arranged(rules) }),
                },
                _ => Err("firewall profile "@ + name + " must contain a rules array"@),
            },
        },
    }
}

fn parse_profile(value: &Json) -> (r: Result<FirewallProfile, String>)
    ensures
        match r {
            Ok(profile) => profile_value(*value) == Ok::<ProfileText, Seq<char>>(profile@),
            Err(e) => profile_value(*value) == Err::<ProfileText, Seq<char>>(e@),
        },
{
    let fields: &Vec<(String, Json)> = match expect_object(value, Level::Profile) {
        Ok(fields) => fields,
        Err(e) => return Err(e),
    };
    let name: String = match required_identifier(fields, "name", Level::Profile) {
        Ok(s) => s,
        Err(e) => return Err(e),
    };
    match get_field(fields, "rules") {
        Some(Json::Array(values)) => match parse_rules(values, name.as_str()) {
            Ok(rules) => {
                let rules: Vec<FirewallRuleSpec> = arrange(&rules);
                Ok(FirewallProfile { name, rules })
            },
            Err(e) => Err(e),
        },
        _ => Err(cat3("firewall profile ", name.as_str(), " must contain a rules array")),
    }
}

/// The profiles of a registry.
#[derive(Debug, Clone, PartialEq, Eq)]
pub struct FirewallProfileSet {
    profiles: Vec<FirewallProfile>,
}

/// What each of the profiles says.
pub open spec fn profile_texts(profiles: Seq<FirewallProfile>) -> Seq<ProfileText> {
    profiles.map_values(|p: FirewallProfile| p@)
}

impl View for FirewallProfileSet {
    type V = Seq<ProfileText>;

    closed spec fn view(&self) -> Seq<ProfileText> {
        profile_texts(self.profiles@)
    }
}

/// Where the profile with that name stands.
pub open spec fn profile_at(profiles: Seq<ProfileText>, name: Seq<char>) -> Option<int>
    decreases profiles.len(),
{
    if profiles.len() == 0 {
        None
    } else if profiles.last().name == name {
        Some(profiles.len() - 1)
    } else {
        profile_at(profiles.drop_last(), name)
    }
}

/// Whether no two profiles share a name.
pub open spec fn distinct_names(profiles: Seq<ProfileText>) -> bool {
    forall|i: int, j: int|
        0 <= i < j < profiles.len() ==> #[trigger] profiles[i].name != #[trigger] profiles[j].name
}

/// A profile is found exactly where it stands.
pub proof fn law_profile_is_found_by_name(profiles: Seq<ProfileText>, name: Seq<char>)
    ensures
        match profile_at(profiles, name) {
            Some(i) => 0 <= i < profiles.len() && profiles[i].name == name,
            None => forall|i: int| 0 <= i < profiles.len() ==> #[trigger] profiles[i].name != name,
        },
        distinct_names(profiles) ==> forall|i: int|
            0 <= i < profiles.len() && #[trigger] profiles[i].name == name ==> profile_at(
                profiles,
                name,
            ) == Some(i),
    decreases profiles.len(),
{
    if profiles.len() > 0 {
        let head = profiles.drop_last();
        law_profile_is_found_by_name(head, name);
        assert forall|i: int| 0 <= i < head.len() implies head[i] == profiles[i] by {}
        if profile_at(profiles, name) is None {
            assert forall|i: int| 0 <= i < profiles.len() implies #[trigger] profiles[i].name
                != name by {
                if i < head.len() {
                    assert(head[i].name != name);
                }
            }
        }
        if distinct_names(profiles) {
            assert forall|i: int|
                0 <= i < profiles.len() && #[trigger] profiles[i].name == name implies profile_at(
                profiles,
                name,
            ) == Some(i) by {
                if i < head.len() {
                    assert(profiles[i].name != profiles[profiles.len() - 1].name);
                    assert(head[i].name == name);
                }
            }
        }
    }
}

/// The profiles that the values describe; no name may occur twice. Of several
/// faults the first counts.
pub open spec fn profiles_value(values: Seq<Json>) -> Result<Seq<ProfileText>, Seq<char>>
    decreases values.len(),
{
    if values.len() == 0 {
        Ok(Seq::empty())
    } else {
        match profiles_value(values.drop_last()) {
            Err(e) => Err(e),
            Ok(profiles) => match profile_value(values.last()) {
                Err(e) => Err(e),
                Ok(profile) => if profile_at(profiles, profile.name) is Some {
                    Err("firewall profile names must be unique"@)
                } else {
                    Ok(profiles.push(profile))
                },
            },
        }
    }
}

proof fn lemma_profiles_fail(values: Seq<Json>, i: int)
    requires
        0 <= i <= values.len(),
        profiles_value(values.take(i)) is Err,
    ensures
        profiles_value(values) == profiles_value(values.take(i)),
    decreases values.len() - i,
{
    if i == values.len() {
        assert(values.take(i) =~= values);
    } else {
        assert(values.take(i + 1).drop_last() =~= values.take(i));
        lemma_profiles_fail(values, i + 1);
    }
}

/// What a registry holds: the schema it follows, the profiles, or else the
/// first thing that is wrong with it.
pub open spec fn registry_value(value: Json) -> Result<Seq<ProfileText>, Seq<char>> {
    match object_value(value, Level::Registry) {
        Err(e) => Err(e),
        Ok(fields) => match field(fields, "schema"@) {
            Some(Json::Number(Some(schema))) => if schema != FIREWALL_PROFILE_SCHEMA {
                Err("unsupported firewall profiles schema "@ + decimal(schema as nat))
            } else {
                match field(fields, "profiles"@) {
                    Some(Json::Array(values)) => profiles_value(values@),
                    _ => Err("firewall profiles must contain a profiles array"@),
                }
            },
            _ => Err("firewall profiles schema must be an integer"@),
        },
    }
}

/// Whether a value is an object of a kind with no field but the known ones.
pub open spec fn knows_all_fields(value: Json, level: Level) -> bool {
    value matches Json::Object(fields) && forall|i: int|
        0 <= i < fields@.len() ==> known_field(level, #[trigger] fields@[i].0@)
}

/// Whether a value is an object of a kind with no field but the known ones, and
/// `key` holds a list in it.
pub open spec fn holds_list(value: Json, level: Level, key: Seq<char>) -> bool {
    knows_all_fields(value, level) && value.at(key) matches Some(Json::Array(_))
}

/// The list under a key.
pub open spec fn list_at(value: Json, key: Seq<char>) -> Seq<Json> {
    match value.at(key) {
        Some(Json::Array(values)) => values@,
        _ => Seq::empty(),
    }
}

/// Whether a profile and all rules in it have no field but the known ones.
pub open spec fn profile_knows_all_fields(value: Json) -> bool {
    let rules = list_at(value, "rules"@);
    &&& holds_list(value, Level::Profile, "rules"@)
    &&& forall|j: int|
        0 <= j < rules.len() ==> knows_all_fields(#[trigger] rules[j], Level::Rule)
}

/// Whether a registry, all profiles in it and all their rules have no field but
/// the known ones.
pub open spec fn registry_knows_all_fields(value: Json) -> bool {
    let profiles = list_at(value, "profiles"@);
    &&& holds_list(value, Level::Registry, "profiles"@)
    &&& forall|i: int|
        0 <= i < profiles.len() ==> profile_knows_all_fields(#[trigger] profiles[i])
}

proof fn lemma_known_fields(fields: Seq<(String, Json)>, level: Level)
    requires
        unknown_field(fields, level) is None,
    ensures
        forall|i: int| 0 <= i < fields.len() ==> known_field(level, #[trigger] fields[i].0@),
    decreases fields.len(),
{
    if fields.len() > 0 {
        let rest = fields.drop_first();
        lemma_known_fields(rest, level);
        assert forall|i: int| 0 <= i < fields.len() implies known_field(
            level,
            #[trigger] fields[i].0@,
        ) by {
            if i > 0 {
                assert(rest[i - 1] == fields[i]);
            }
        }
    }
}

proof fn lemma_object(value: Json, level: Level)
    requires
        object_value(value, level) is Ok,
    ensures
        knows_all_fields(value, level),
{
    lemma_known_fields(value->Object_0@, level);
}

proof fn lemma_rules_known(values: Seq<Json>, profile: Seq<char>)
    requires
        rules_value(values, profile) is Ok,
    ensures
        forall|j: int| 0 <= j < values.len() ==> knows_all_fields(#[trigger] values[j], Level::Rule),
    decreases values.len(),
{
    if values.len() > 0 {
        let head = values.drop_last();
        lemma_rules_known(head, profile);
        lemma_object(values.last(), Level::Rule);
        assert forall|j: int| 0 <= j < values.len() implies knows_all_fields(
            #[trigger] values[j],
            Level::Rule,
        ) by {
            if j < head.len() {
                assert(head[j] == values[j]);
            }
        }
    }
}

proof fn lemma_profiles_known(values: Seq<Json>)
    requires
        profiles_value(values) is Ok,
    ensures
        forall|i: int| 0 <= i < values.len() ==> profile_knows_all_fields(#[trigger] values[i]),
    decreases values.len(),
{
    if values.len() > 0 {
        let head = values.drop_last();
        let last = values.last();
        lemma_profiles_known(head);
        lemma_object(last, Level::Profile);
        let name = required_name(last->Object_0@, "name"@, Level::Profile)->Ok_0;
        lemma_rules_known(list_at(last, "rules"@), name);
        assert forall|i: int| 0 <= i < values.len() implies profile_knows_all_fields(
            #[trigger] values[i],
        ) by {
            if i < head.len() {
                assert(head[i] == values[i]);
            }
        }
    }
}

/// A registry is read only where it, every profile in it and every rule of those
/// have no field but the known ones.
pub proof fn law_unknown_fields_are_refused(value: Json)
    requires
        !registry_knows_all_fields(value),
    ensures
        registry_value(value) is Err,
{
    if registry_value(value) is Ok {
        lemma_object(value, Level::Registry);
        lemma_profiles_known(list_at(value, "profiles"@));
    }
}

/// Whether each rule comes before all that follow it, and none occurs twice.
pub open spec fn strictly_in_order(rules: Seq<RuleText>) -> bool {
    forall|i: int, j: int|
        0 <= i < j < rules.len() ==> rule_le(#[trigger] rules[i], #[trigger] rules[j]) && rules[i]
            != rules[j]
}

/// Whether nothing is wrong with the rules.
pub open spec fn faultless(rules: Seq<RuleText>) -> bool {
    forall|i: int| 0 <= i < rules.len() ==> rule_fault(#[trigger] rules[i]) is None
}

proof fn lemma_rules_read(values: Seq<Json>, profile: Seq<char>)
    requires
        rules_value(values, profile) is Ok,
    ensures
        rules_value(values, profile)->Ok_0.no_duplicates(),
        faultless(rules_value(values, profile)->Ok_0),
        rules_value(values, profile)->Ok_0.len() == values.len(),
    decreases values.len(),
{
    if values.len() > 0 {
        lemma_rules_read(values.drop_last(), profile);
    }
}

proof fn lemma_arranged_strictly(rules: Seq<RuleText>)
    requires
        rules.no_duplicates(),
        faultless(rules),
    ensures
        strictly_in_order(arranged(rules)),
        faultless(arranged(rules)),
{
    broadcast use vstd::seq_lib::group_to_multiset_ensures;

    let out = arranged(rules);
    law_arranging_orders_and_keeps(rules);
    rules.lemma_multiset_has_no_duplicates();
    out.lemma_multiset_has_no_duplicates_conv();
    assert forall|i: int| 0 <= i < out.len() implies rule_fault(#[trigger] out[i]) is None by {
        assert(out.to_multiset().count(out[i]) > 0);
        assert(rules.contains(out[i]));
    }
}

proof fn lemma_profiles_read(values: Seq<Json>)
    requires
        profiles_value(values) is Ok,
    ensures
        ({
            let profiles = profiles_value(values)->Ok_0;
            &&& profiles.len() == values.len()
            &&& distinct_names(profiles)
            &&& forall|i: int|
                0 <= i < profiles.len() ==> strictly_in_order((#[trigger] profiles[i]).rules)
                    && faultless(profiles[i].rules)
        }),
    decreases values.len(),
{
    if values.len() > 0 {
        let head = values.drop_last();
        let last = values.last();
        lemma_profiles_read(head);
        let before = profiles_value(head)->Ok_0;
        let profile = profile_value(last)->Ok_0;
        let rules = list_at(last, "rules"@);
        lemma_rules_read(rules, profile.name);
        lemma_arranged_strictly(rules_value(rules, profile.name)->Ok_0);
        law_profile_is_found_by_name(before, profile.name);
    }
}

/// In a registry that was read no two profiles share a name, the rules of each
/// stand in order, none of them occurs twice, and nothing is wrong with any.
pub proof fn law_read_profiles_are_sound(value: Json)
    requires
        registry_value(value) is Ok,
    ensures
        ({
            let profiles = registry_value(value)->Ok_0;
            &&& distinct_names(profiles)
            &&& forall|i: int|
                0 <= i < profiles.len() ==> strictly_in_order((#[trigger] profiles[i]).rules)
                    && faultless(profiles[i].rules)
        }),
{
    lemma_profiles_read(list_at(value, "profiles"@));
}

/// Why the text is no registry, or else the profiles in it.
pub open spec fn registry_text(raw: Seq<char>) -> Result<Seq<ProfileText>, Seq<char>> {
    match document(raw) {
        Ok(value) => registry_value(value),
        Err(e) => Err("invalid firewall profiles JSON: "@ + e),
    }
}

/// Whether `rule` holds the controller's address open.
pub open spec fn is_placeholder(rule: RuleText) -> bool {
    rule.subnet == CONTROLLER_PLACEHOLDER@
}

/// Whether `rule` holds the controller's address open but is not for exactly
/// one IPv4 address.
pub open spec fn is_misfit(rule: RuleText) -> bool {
    is_placeholder(rule) && (rule.ip_type != "v4"@ || rule.subnet_size != 32)
}

/// `rule` with the controller's address filled in.
pub open spec fn filled(rule: RuleText, ipv4: Seq<char>) -> RuleText {
    if is_placeholder(rule) {
        RuleText { subnet: ipv4, ..rule }
    } else {
        rule
    }
}

/// The rules with the controller's address filled in up to the first that does
/// not fit, and whether all fit.
pub open spec fn filled_rules(rules: Seq<RuleText>, ipv4: Seq<char>) -> (Seq<RuleText>, bool)
    decreases rules.len(),
{
    if rules.len() == 0 {
        (Seq::empty(), true)
    } else {
        let (head, ok) = filled_rules(rules.drop_last(), ipv4);
        if !ok || is_misfit(rules.last()) {
            (head.push(rules.last()), false)
        } else {
            (head.push(filled(rules.last(), ipv4)), true)
        }
    }
}

/// Whether one of the rules holds the controller's address open.
pub open spec fn has_placeholder(rules: Seq<RuleText>) -> bool {
    exists|i: int| 0 <= i < rules.len() && is_placeholder(#[trigger] rules[i])
}

/// Whether one of the named profiles holds the controller's address open.
pub open spec fn needs_controller(profiles: Seq<ProfileText>, names: Seq<Seq<char>>) -> bool {
    exists|k: int|
        0 <= k < names.len() && (#[trigger] profile_at(profiles, names[k]) matches Some(i)
            && has_placeholder(profiles[i].rules))
}

/// The profiles after the controller's address has been filled in, name by
/// name, and the error that stopped it, if one did.
pub open spec fn resolved(profiles: Seq<ProfileText>, names: Seq<Seq<char>>, ipv4: Seq<char>) -> (
    Seq<ProfileText>,
    Option<Seq<char>>,
)
    decreases names.len(),
{
    if names.len() == 0 {
        (profiles, None)
    } else {
        let (before, fault) = resolved(profiles, names.drop_last(), ipv4);
        if fault is Some {
            (before, fault)
        } else {
            match profile_at(before, names.last()) {
                None => (
                    before,
                    Some("firewall profile "@ + names.last() + " is not defined"@),
                ),
                Some(i) => {
                    let (rules, ok) = filled_rules(before[i].rules, ipv4);
                    if ok {
                        (before.update(i, ProfileText { rules: arranged(rules), ..before[i] }), None)
                    } else {
                        (
                            before.update(i, ProfileText { rules, ..before[i] }),
                            Some(misfit_words(before[i].name)),
                        )
                    }
                },
            }
        }
    }
}

/// The sentence for a rule that does not fit the controller's address.
pub open spec fn misfit_words(profile: Seq<char>) -> Seq<char> {
    "firewall profile "@ + profile + " uses "@ + CONTROLLER_PLACEHOLDER@
        + " but is not an exact IPv4 /32"@
}

proof fn lemma_resolved_stops(
    profiles: Seq<ProfileText>,
    names: Seq<Seq<char>>,
    ipv4: Seq<char>,
    i: int,
)
    requires
        0 <= i <= names.len(),
        resolved(profiles, names.take(i), ipv4).1 is Some,
    ensures
        resolved(profiles, names, ipv4) == resolved(profiles, names.take(i), ipv4),
    decreases names.len() - i,
{
    if i == names.len() {
        assert(names.take(i) =~= names);
    } else {
        assert(names.take(i + 1).drop_last() =~= names.take(i));
        lemma_resolved_stops(profiles, names, ipv4, i + 1);
    }
}

/// What filling in the controller's address does to the profiles of a set and
/// says: nothing where no named profile asks for it, an error where there is
/// no address.
pub open spec fn resolution(
    profiles: Seq<ProfileText>,
    names: Seq<Seq<char>>,
    controller_ipv4: Option<Seq<char>>,
) -> (Seq<ProfileText>, Option<Seq<char>>) {
    if !needs_controller(profiles, names) {
        (profiles, None)
    } else {
        match controller_ipv4 {
            None => (profiles, Some("referenced firewall profiles require EDGE_CONTROLLER_IPV4"@)),
            Some(ipv4) => if !is_ipv4(ipv4) {
                (profiles, Some("EDGE_CONTROLLER_IPV4 must be a valid IPv4 address"@))
            } else {
                resolved(profiles, names, ipv4)
            },
        }
    }
}

/// The schema that a registry follows.
pub const FIREWALL_PROFILE_SCHEMA: u64 = 1;

/// Whether one of the rules holds the controller's address open.
pub fn uses_placeholder(rules: &Vec<FirewallRuleSpec>) -> (r: bool)
    ensures
        r == has_placeholder(rule_texts(rules@)),
{
    let mut i: usize = 0;
    while i < rules.len()
        invariant
            i <= rules@.len(),
            forall|k: int| 0 <= k < i ==> !is_placeholder(#[trigger] rule_texts(rules@)[k]),
        decreases rules@.len() - i,
    {
        if same(rules[i].subnet.as_str(), CONTROLLER_PLACEHOLDER) {
            assert(is_placeholder(rule_texts(rules@)[i as int]));
            return true;
        }
        i = i + 1;
    }
    false
}

fn fill_rules(rules: &Vec<FirewallRuleSpec>, ipv4: &str) -> (r: (Vec<FirewallRuleSpec>, bool))
    ensures
        (rule_texts(r.0@), r.1) == filled_rules(rule_texts(rules@), ipv4@),
{
    let mut out: Vec<FirewallRuleSpec> = Vec::new();
    let mut ok: bool = true;
    let mut i: usize = 0;
    assert(rule_texts(rules@).take(0) =~= Seq::<RuleText>::empty());
    assert(rule_texts(out@) =~= Seq::<RuleText>::empty());
    while i < rules.len()
        invariant
            i <= rules@.len(),
            (rule_texts(out@), ok) == filled_rules(rule_texts(rules@).take(i as int), ipv4@),
        decreases rules@.len() - i,
    {
        let mut rule: FirewallRuleSpec = rules[i].copy();
        let ghost t = rule_texts(rules@).take(i + 1);
        proof {
            assert(t.drop_last() =~= rule_texts(rules@).take(i as int));
            assert(t.last() == rules@[i as int]@);
        }
        if ok && same(rule.subnet.as_str(), CONTROLLER_PLACEHOLDER) {
            if !same(rule.ip_type.as_str(), "v4") || rule.subnet_size != 32 {
                ok = false;
            } else {
                rule.subnet = ipv4.to_owned();
            }
        }
        let ghost before = out@;
        out.push(rule);
        assert(rule_texts(out@) =~= rule_texts(before).push(rule@));
        i = i + 1;
    }
    assert(rule_texts(rules@).take(i as int) =~= rule_texts(rules@));
    (out, ok)
}

impl FirewallProfileSet {
    /// What holds of every set: no two profiles share a name.
    pub open spec fn wf(self) -> bool {
        distinct_names(self@)
    }

    /// Reads a registry from the JSON value that it is.
    pub fn from_json(value: &Json) -> (r: Result<FirewallProfileSet, String>)
        ensures
            match r {
                Ok(set) => set.wf() && registry_value(*value) == Ok::<Seq<ProfileText>, Seq<char>>(
                    set@,
                ),
                Err(e) => registry_value(*value) == Err::<Seq<ProfileText>, Seq<char>>(e@),
            },
    {
        let fields: &Vec<(String, Json)> = match expect_object(value, Level::Registry) {
            Ok(fields) => fields,
            Err(e) => return Err(e),
        };
        let schema: u64 = match get_field(fields, "schema") {
            Some(Json::Number(Some(n))) => *n,
            _ => return Err("firewall profiles schema must be an integer".to_owned()),
        };
        if schema != FIREWALL_PROFILE_SCHEMA {
            return Err(
                cat2("unsupported firewall profiles schema ", number(schema).as_str()),
            );
        }
        let values: &Vec<Json> = match get_field(fields, "profiles") {
            Some(Json::Array(values)) => values,
            _ => return Err("firewall profiles must contain a profiles array".to_owned()),
        };
        let mut set: FirewallProfileSet = FirewallProfileSet { profiles: Vec::new() };
        let mut i: usize = 0;
        assert(set@ =~= Seq::<ProfileText>::empty());
        while i < values.len()
            invariant
                i <= values@.len(),
                set.wf(),
                profiles_value(values@.take(i as int)) == Ok::<Seq<ProfileText>, Seq<char>>(set@),
                registry_value(*value) == profiles_value(values@),
            decreases values@.len() - i,
        {
            let ghost t = values@.take(i + 1);
            proof {
                assert(t.drop_last() =~= values@.take(i as int));
                assert(t.last() == values@[i as int]);
            }
            let profile: FirewallProfile = match parse_profile(&values[i]) {
                Ok(profile) => profile,
                Err(e) => {
                    proof {
                        lemma_profiles_fail(values@, i + 1);
                    }
                    return Err(e);
                },
            };
            if set.find(profile.name.as_str()).is_some() {
                proof {
                    lemma_profiles_fail(values@, i + 1);
                }
                return Err("firewall profile names must be unique".to_owned());
            }
            let ghost before = set@;
            set.profiles.push(profile);
            proof {
                assert(set@ =~= before.push(profile@));
                law_profile_is_found_by_name(before, profile@.name);
            }
            i = i + 1;
        }
        assert(values@.take(i as int) =~= values@);
        Ok(set)
    }

    /// Reads a registry.
    pub fn parse_json(raw: &str) -> (r: Result<FirewallProfileSet, String>)
        ensures
            match r {
                Ok(set) => set.wf() && registry_text(raw@) == Ok::<Seq<ProfileText>, Seq<char>>(
                    set@,
                ),
                Err(e) => registry_text(raw@) == Err::<Seq<ProfileText>, Seq<char>>(e@),
            },
    {
        match parse_document(raw) {
            Ok(value) => FirewallProfileSet::from_json(&value),
            Err(e) => Err(cat2("invalid firewall profiles JSON: ", e.as_str())),
        }
    }

    fn find(&self, name: &str) -> (r: Option<usize>)
        ensures
            match r {
                Some(i) => i < self.profiles@.len() && profile_at(self@, name@) == Some(i as int),
                None => profile_at(self@, name@) is None,
            },
    {
        let mut n: usize = self.profiles.len();
        assert(self@.take(n as int) =~= self@);
        while n > 0
            invariant
                n <= self.profiles@.len() == self@.len(),
                profile_at(self@, name@) == profile_at(self@.take(n as int), name@),
            decreases n,
        {
            assert(self@.take(n as int).drop_last() =~= self@.take(n - 1));
            if same(self.profiles[n - 1].name.as_str(), name) {
                return Some(n - 1);
            }
            n = n - 1;
        }
        None
    }

    /// The profile with that name.
    pub fn profile(&self, name: &str) -> (r: Result<&FirewallProfile, String>)
        ensures
            match r {
                Ok(p) => profile_at(self@, name@) matches Some(i) && p@ == self@[i],
                Err(e) => profile_at(self@, name@) is None && e@ == "firewall profile "@ + name@
                    + " is not defined"@,
            },
    {
        match self.find(name) {
            Some(i) => {
                let p: &FirewallProfile = &self.profiles[i];
                assert(self@[i as int] == p@);
                Ok(p)
            },
            None => Err(cat3("firewall profile ", name, " is not defined")),
        }
    }

    fn needs_controller_ipv4(&self, profile_names: &Vec<String>) -> (r: bool)
        ensures
            r == needs_controller(self@, texts(profile_names@)),
    {
        let mut k: usize = 0;
        let ghost names = texts(profile_names@);
        while k < profile_names.len()
            invariant
                k <= profile_names@.len(),
                names == texts(profile_names@),
                forall|j: int|
                    0 <= j < k ==> !(#[trigger] profile_at(self@, names[j]) matches Some(i)
                        && has_placeholder(self@[i].rules)),
            decreases profile_names@.len() - k,
        {
            assert(names[k as int] == profile_names@[k as int]@);
            match self.find(profile_names[k].as_str()) {
                Some(i) => {
                    assert(self@[i as int] == self.profiles@[i as int]@);
                    if uses_placeholder(&self.profiles[i].rules) {
                        assert(profile_at(self@, names[k as int]) is Some);
                        return true;
                    }
                },
                None => {},
            }
            k = k + 1;
        }
        false
    }

    /// Fills the controller's address in wherever one of the named profiles
    /// holds it open.
    pub fn resolve_controller_ipv4_for_profiles(
        &mut self,
        profile_names: &Vec<String>,
        controller_ipv4: Option<&str>,
    ) -> (r: Result<(), String>)
        ensures
            final(self)@ == resolution(
                old(self)@,
                texts(profile_names@),
                controller_ipv4.deep_view(),
            ).0,
            match r {
                Ok(()) => resolution(
                    old(self)@,
                    texts(profile_names@),
                    controller_ipv4.deep_view(),
                ).1 is None,
                Err(e) => resolution(
                    old(self)@,
                    texts(profile_names@),
                    controller_ipv4.deep_view(),
                ).1 == Some(e@),
            },
            old(self).wf() ==> final(self).wf(),
    {
        let ghost before = self@;
        let ghost names = texts(profile_names@);
        if !self.needs_controller_ipv4(profile_names) {
            return Ok(());
        }
        let ipv4: &str = match controller_ipv4 {
            Some(raw) => raw,
            None => return Err(
                "referenced firewall profiles require EDGE_CONTROLLER_IPV4".to_owned(),
            ),
        };
        match parse_ipv4(ipv4) {
            Some(_) => {},
            None => return Err("EDGE_CONTROLLER_IPV4 must be a valid IPv4 address".to_owned()),
        }
        let mut k: usize = 0;
        assert(names.take(0) =~= Seq::<Seq<char>>::empty());
        while k < profile_names.len()
            invariant
                k <= profile_names@.len(),
                names == texts(profile_names@),
                before == old(self)@,
                resolved(before, names.take(k as int), ipv4@) == (self@, None::<Seq<char>>),
                resolution(before, names, controller_ipv4.deep_view()) == resolved(
                    before,
                    names,
                    ipv4@,
                ),
                distinct_names(before) ==> distinct_names(self@),
            decreases profile_names@.len() - k,
        {
            let ghost t = names.take(k + 1);
            proof {
                assert(t.drop_last() =~= names.take(k as int));
                assert(t.last() == profile_names@[k as int]@);
            }
            let i: usize = match self.find(profile_names[k].as_str()) {
                Some(i) => i,
                None => {
                    proof {
                        lemma_resolved_stops(before, names, ipv4@, k + 1);
                    }
                    return Err(
                        cat3("firewall profile ", profile_names[k].as_str(), " is not defined"),
                    );
                },
            };
            let ghost mid = self@;
            assert(mid[i as int] == self.profiles@[i as int]@);
            let (rules, ok): (Vec<FirewallRuleSpec>, bool) = fill_rules(
                &self.profiles[i].rules,
                ipv4,
            );
            let name: String = self.profiles[i].name.clone();
            let rules: Vec<FirewallRuleSpec> = if ok {
                arrange(&rules)
            } else {
                rules
            };
            let misfit: String = cat5(
                "firewall profile ",
                name.as_str(),
                " uses ",
                CONTROLLER_PLACEHOLDER,
                " but is not an exact IPv4 /32",
            );
            let changed: FirewallProfile = FirewallProfile { name, rules };
            self.profiles[i] = changed;
            assert(self@ =~= mid.update(i as int, changed@));
            if !ok {
                proof {
                    lemma_resolved_stops(before, names, ipv4@, k + 1);
                }
                return Err(misfit);
            }
            k = k + 1;
        }
        assert(names.take(k as int) =~= names);
        Ok(())
    }
}

/// An address in dotted decimal notation is no placeholder.
proof fn lemma_address_is_no_placeholder(ipv4: Seq<char>)
    requires
        is_ipv4(ipv4),
    ensures
        ipv4 != CONTROLLER_PLACEHOLDER@,
{
    reveal_strlit("@controller-ipv4");
    let ip = choose|ip: Ipv4| #[trigger] ip.dotted() == ipv4;
    lemma_decimal(ip.a as nat);
    assert(ipv4[0] == decimal(ip.a as nat)[0]);
    assert(is_digit(ipv4[0]));
    assert(CONTROLLER_PLACEHOLDER@[0] == '@');
}

proof fn lemma_filled_has_no_placeholder(rules: Seq<RuleText>, ipv4: Seq<char>)
    requires
        ipv4 != CONTROLLER_PLACEHOLDER@,
        filled_rules(rules, ipv4).1,
    ensures
        !has_placeholder(filled_rules(rules, ipv4).0),
    decreases rules.len(),
{
    if rules.len() > 0 {
        lemma_filled_has_no_placeholder(rules.drop_last(), ipv4);
        let (head, ok) = filled_rules(rules.drop_last(), ipv4);
        let out = filled_rules(rules, ipv4).0;
        assert forall|i: int| 0 <= i < out.len() implies !is_placeholder(#[trigger] out[i]) by {
            if i < head.len() {
                assert(!is_placeholder(head[i]));
            }
        }
    }
}

/// After the controller's address has been filled in without an error, none of
/// the named profiles holds it open.
pub proof fn law_resolution_leaves_nothing_open(
    profiles: Seq<ProfileText>,
    names: Seq<Seq<char>>,
    controller_ipv4: Option<Seq<char>>,
    k: int,
)
    requires
        distinct_names(profiles),
        resolution(profiles, names, controller_ipv4).1 is None,
        0 <= k < names.len(),
    ensures
        ({
            let after = resolution(profiles, names, controller_ipv4).0;
            profile_at(after, names[k]) matches Some(i) ==> !has_placeholder(after[i].rules)
        }),
{
    if needs_controller(profiles, names) {
        lemma_address_is_no_placeholder(controller_ipv4->0);
        lemma_resolved_leaves_nothing_open(profiles, names, controller_ipv4->0, k);
    } else {
        assert(!(profile_at(profiles, names[k]) matches Some(i) && has_placeholder(
            profiles[i].rules,
        )));
    }
}

proof fn lemma_arranged_has_no_placeholder(rules: Seq<RuleText>)
    requires
        !has_placeholder(rules),
    ensures
        !has_placeholder(arranged(rules)),
{
    broadcast use vstd::seq_lib::group_to_multiset_ensures;

    law_arranging_orders_and_keeps(rules);
    let out = arranged(rules);
    assert forall|i: int| 0 <= i < out.len() implies !is_placeholder(#[trigger] out[i]) by {
        assert(out.contains(out[i]));
        assert(out.to_multiset().count(out[i]) > 0);
        assert(rules.contains(out[i]));
        let j = choose|j: int| 0 <= j < rules.len() && rules[j] == out[i];
        assert(!is_placeholder(rules[j]));
    }
}

proof fn lemma_resolved_leaves_nothing_open(
    profiles: Seq<ProfileText>,
    names: Seq<Seq<char>>,
    ipv4: Seq<char>,
    k: int,
)
    requires
        distinct_names(profiles),
        resolved(profiles, names, ipv4).1 is None,
        ipv4 != CONTROLLER_PLACEHOLDER@,
        0 <= k < names.len(),
    ensures
        distinct_names(resolved(profiles, names, ipv4).0),
        ({
            let after = resolved(profiles, names, ipv4).0;
            profile_at(after, names[k]) matches Some(i) && !has_placeholder(after[i].rules)
        }),
    decreases names.len(),
{
    let head = names.drop_last();
    let before = resolved(profiles, head, ipv4).0;
    let after = resolved(profiles, names, ipv4).0;
    lemma_resolved_keeps_names(profiles, head, ipv4);
    law_profile_is_found_by_name(before, names.last());
    let i = profile_at(before, names.last())->0;
    let (rules, ok) = filled_rules(before[i].rules, ipv4);
    lemma_filled_has_no_placeholder(before[i].rules, ipv4);
    lemma_arranged_has_no_placeholder(rules);
    assert forall|j: int| 0 <= j < after.len() implies #[trigger] after[j].name
        == before[j].name by {}
    law_profile_is_found_by_name(after, names[k]);
    if k == names.len() - 1 {
        assert(after[i].name == names[k]);
    } else {
        lemma_resolved_leaves_nothing_open(profiles, head, ipv4, k);
        assert(head[k] == names[k]);
        law_profile_is_found_by_name(before, names[k]);
        let j = profile_at(before, names[k])->0;
        assert(after[j].name == names[k]);
    }
}

pub proof fn lemma_resolved_keeps_names(
    profiles: Seq<ProfileText>,
    names: Seq<Seq<char>>,
    ipv4: Seq<char>,
)
    ensures
        resolved(profiles, names, ipv4).0.len() == profiles.len(),
        forall|j: int|
            0 <= j < profiles.len() ==> #[trigger] resolved(profiles, names, ipv4).0[j].name
                == profiles[j].name,
    decreases names.len(),
{
    if names.len() > 0 {
        lemma_resolved_keeps_names(profiles, names.drop_last(), ipv4);
        let before = resolved(profiles, names.drop_last(), ipv4).0;
        law_profile_is_found_by_name(before, names.last());
    }
}

/// The rules that give the controller access, in order and each once.
pub open spec fn access_rules(rules: Seq<RuleText>, ipv4: Seq<char>) -> Seq<RuleText>
    decreases rules.len(),
{
    if rules.len() == 0 {
        Seq::empty()
    } else {
        let head = access_rules(rules.drop_last(), ipv4);
        let rule = filled(rules.last(), ipv4);
        if !is_placeholder(rules.last()) || head.contains(rule) {
            head
        } else {
            placed(head, rule)
        }
    }
}

/// Whether one of the rules holds the controller's address open but does not
/// fit it.
pub open spec fn has_misfit(rules: Seq<RuleText>) -> bool {
    exists|i: int| 0 <= i < rules.len() && is_misfit(#[trigger] rules[i])
}

/// The rules that give the controller access under a profile, with the
/// controller's address in them.
pub fn controller_ipv4_access_specs(
    unresolved_profile: &FirewallProfile,
    controller_ipv4: &str,
) -> (r: Result<Vec<FirewallRuleSpec>, String>)
    ensures
        match r {
            Ok(rules) => {
                &&& is_ipv4(controller_ipv4@)
                &&& !has_misfit(unresolved_profile@.rules)
                &&& rule_texts(rules@) == access_rules(unresolved_profile@.rules, controller_ipv4@)
            },
            Err(e) => if !is_ipv4(controller_ipv4@) {
                e@ == "EDGE_CONTROLLER_IPV4 must be a valid IPv4 address"@
            } else {
                has_misfit(unresolved_profile@.rules) && e@ == misfit_words(
                    unresolved_profile@.name,
                )
            },
        },
{
    match parse_ipv4(controller_ipv4) {
        Some(_) => {},
        None => return Err("EDGE_CONTROLLER_IPV4 must be a valid IPv4 address".to_owned()),
    }
    let mut targets: Vec<FirewallRuleSpec> = Vec::new();
    let mut i: usize = 0;
    let ghost all = unresolved_profile@.rules;
    assert(all.take(0) =~= Seq::<RuleText>::empty());
    assert(rule_texts(targets@) =~= Seq::<RuleText>::empty());
    while i < unresolved_profile.rules.len()
        invariant
            i <= all.len() == unresolved_profile.rules@.len(),
            all == unresolved_profile@.rules,
            is_ipv4(controller_ipv4@),
            forall|k: int| 0 <= k < i ==> !is_misfit(#[trigger] all[k]),
            rule_texts(targets@) == access_rules(all.take(i as int), controller_ipv4@),
        decreases all.len() - i,
    {
        let rule: &FirewallRuleSpec = &unresolved_profile.rules[i];
        proof {
            assert(all.take(i + 1).drop_last() =~= all.take(i as int));
            assert(all[i as int] == rule@);
        }
        if same(rule.subnet.as_str(), CONTROLLER_PLACEHOLDER) {
            if !same(rule.ip_type.as_str(), "v4") || rule.subnet_size != 32 {
                assert(is_misfit(all[i as int]));
                return Err(
                    cat5(
                        "firewall profile ",
                        unresolved_profile.name.as_str(),
                        " uses ",
                        CONTROLLER_PLACEHOLDER,
                        " but is not an exact IPv4 /32",
                    ),
                );
            }
            let mut resolved_rule: FirewallRuleSpec = rule.copy();
            resolved_rule.subnet = controller_ipv4.to_owned();
            if !holds_rule(&targets, &resolved_rule) {
                place(&mut targets, resolved_rule);
            }
        }
        i = i + 1;
    }
    assert(all.take(i as int) =~= all);
    Ok(targets)
}

/// What a rule as the provider reports it says.
pub open spec fn reported(rule: VultrFirewallRule) -> RuleText {
    RuleText {
        ip_type: rule.ip_type@,
        protocol: rule.protocol@,
        subnet: rule.subnet@,
        subnet_size: rule.subnet_size,
        port: rule.port@,
        source: rule.source@,
        notes: rule.notes@,
    }
}

/// A reported rule without white space at the ends of its fields. A source
/// that only repeats the subnet counts as none.
pub open spec fn normalized(rule: RuleText) -> RuleText {
    let subnet = trimmed(rule.subnet);
    let source = trimmed(rule.source);
    RuleText {
        ip_type: trimmed(rule.ip_type),
        protocol: trimmed(rule.protocol),
        subnet,
        subnet_size: rule.subnet_size,
        port: trimmed(rule.port),
        source: if source == subnet + "/"@ + decimal(rule.subnet_size as nat) {
            Seq::empty()
        } else {
            source
        },
        notes: trimmed(rule.notes),
    }
}

/// The rule that a provider reports, or else why it is none.
pub open spec fn reported_rule(rule: VultrFirewallRule) -> Result<RuleText, Seq<char>> {
    match rule_fault(normalized(reported(rule))) {
        Some(e) => Err(e),
        None => Ok(normalized(reported(rule))),
    }
}

/// Reads a rule that a provider reports.
pub fn firewall_rule_spec(rule: &VultrFirewallRule) -> (r: Result<FirewallRuleSpec, String>)
    ensures
        match r {
            Ok(spec) => reported_rule(*rule) == Ok::<RuleText, Seq<char>>(spec@),
            Err(e) => reported_rule(*rule) == Err::<RuleText, Seq<char>>(e@),
        },
{
    let subnet: String = trim(rule.subnet.as_str()).to_owned();
    let raw_source: &str = trim(rule.source.as_str());
    let derived: String = cat3(subnet.as_str(), "/", number(rule.subnet_size as u64).as_str());
    let source: String = if same(raw_source, derived.as_str()) {
        String::new()
    } else {
        raw_source.to_owned()
    };
    let spec: FirewallRuleSpec = FirewallRuleSpec {
        ip_type: trim(rule.ip_type.as_str()).to_owned(),
        protocol: trim(rule.protocol.as_str()).to_owned(),
        subnet,
        subnet_size: rule.subnet_size,
        port: trim(rule.port.as_str()).to_owned(),
        source,
        notes: trim(rule.notes.as_str()).to_owned(),
    };
    assert(spec@ == normalized(reported(*rule)));
    match validate_rule(&spec) {
        Ok(()) => Ok(spec),
        Err(e) => Err(e),
    }
}

/// The description that marks the firewall of a profile as this environment's.
pub open spec fn group_description(environment: Seq<char>, profile: Seq<char>) -> Seq<char> {
    "singbox-"@ + environment + "-fw-"@ + profile
}

/// The description that marks the firewall of a profile as this environment's.
pub fn firewall_group_description(environment: &str, profile_name: &str) -> (r: String)
    ensures
        r@ == group_description(environment@, profile_name@),
{
    cat4("singbox-", environment, "-fw-", profile_name)
}

/// A rule stands if it is of one of the two kinds of network, not longer than
/// that kind's addresses, and says for what and from where; and no other does.
pub proof fn law_sound_rules_are_those_of_a_network(rule: FirewallRuleSpec, r: Result<(), String>)
    requires
        call_ensures(validate_rule, (&rule,), r),
    ensures
        r is Ok <==> {
            &&& rule.protocol@.len() > 0
            &&& rule.subnet@.len() > 0
            &&& (rule.ip_type@ == "v4"@ && rule.subnet_size <= 32) || (rule.ip_type@ == "v6"@
                && rule.subnet_size <= 128)
        },
{
    reveal_strlit("v4");
    reveal_strlit("v6");
    assert("v4"@[1] == '4');
    assert("v6"@[1] == '6');
}

/// The provider reports the source of a rule that has none as the rule's own
/// network. Such a rule is read as the very rule without a source, whatever the
/// size of its network; a source of another kind is kept as it is. White space
/// around the fields does not count.
pub proof fn law_a_source_that_repeats_the_subnet_is_none(
    rule: FirewallRuleSpec,
    seen: VultrFirewallRule,
    r: Result<FirewallRuleSpec, String>,
)
    requires
        (rule.ip_type@ == "v4"@ && rule.subnet_size <= 32) || (rule.ip_type@ == "v6"@
            && rule.subnet_size <= 128),
        rule.protocol@.len() > 0,
        rule.subnet@.len() > 0,
        trimmed(seen.ip_type@) == rule.ip_type@,
        trimmed(seen.protocol@) == rule.protocol@,
        trimmed(seen.subnet@) == rule.subnet@,
        seen.subnet_size == rule.subnet_size,
        trimmed(seen.port@) == rule.port@,
        trimmed(seen.notes@) == rule.notes@,
        call_ensures(firewall_rule_spec, (&seen,), r),
    ensures
        r matches Ok(spec) && (RuleText { source: rule.source@, ..spec@ }) == rule@,
        seen.source@ == rule.subnet@ + "/"@ + decimal(rule.subnet_size as nat)
            ==> r->Ok_0.source@.len() == 0,
        trimmed(seen.source@) != rule.subnet@ + "/"@ + decimal(rule.subnet_size as nat)
            ==> r->Ok_0.source@ == trimmed(seen.source@),
{
    reveal_strlit("v4");
    reveal_strlit("v6");
    assert("v4"@[1] == '4');
    assert("v6"@[1] == '6');
    lemma_derived_source_is_trimmed(seen.subnet@, rule.subnet_size);
}

pub proof fn lemma_derived_source_is_trimmed(subnet: Seq<char>, size: u32)
    requires
        trimmed(subnet).len() > 0,
    ensures
        trimmed(trimmed(subnet) + "/"@ + decimal(size as nat)) == trimmed(subnet) + "/"@ + decimal(
            size as nat,
        ),
{
    let s = trimmed(subnet);
    let whole = s + "/"@ + decimal(size as nat);
    lemma_trimmed_twice(subnet);
    lemma_trimmed_same(s);
    lemma_decimal(size as nat);
    let d = decimal(size as nat);
    assert(whole[0] == s[0]);
    assert(whole.last() == d.last());
    assert(is_digit(d[d.len() - 1]));
    assert(!is_white_space(d.last()));
    lemma_trimmed_same(whole);
}

/// A reported rule is read exactly where what it says, without the white space
/// around it, is a sound rule.
pub proof fn law_unsound_reports_are_refused(
    seen: VultrFirewallRule,
    r: Result<FirewallRuleSpec, String>,
)
    requires
        call_ensures(firewall_rule_spec, (&seen,), r),
    ensures
        r is Ok <==> {
            &&& !blank(seen.protocol@)
            &&& !blank(seen.subnet@)
            &&& (trimmed(seen.ip_type@) == "v4"@ && seen.subnet_size <= 32) || (trimmed(
                seen.ip_type@,
            ) == "v6"@ && seen.subnet_size <= 128)
        },
{
    reveal_strlit("v4");
    reveal_strlit("v6");
    assert("v4"@[1] == '4');
    assert("v6"@[1] == '6');
    lemma_trimmed_blank(seen.protocol@);
    lemma_trimmed_blank(seen.subnet@);
}

/// Rules let the same in exactly if they agree in everything but their notes.
pub proof fn law_notes_let_nothing_in(a: FirewallRuleSpec, b: FirewallRuleSpec, r: bool, same: bool)
    requires
        call_ensures(same_firewall_access_semantics, (&a, &b), r),
        call_ensures(FirewallRuleSpec::same_rule, (&a, &b), same),
    ensures
        r <==> a.ip_type@ == b.ip_type@ && a.protocol@ == b.protocol@ && a.subnet@ == b.subnet@
            && a.subnet_size == b.subnet_size && a.port@ == b.port@ && a.source@ == b.source@,
        same <==> r && a.notes@ == b.notes@,
{
}

/// What is read from a registry's rule is what is written there: each field
/// under its own name, and nothing where an optional one is missing.
pub proof fn law_a_rule_is_read_as_it_is_written(value: Json, profile: Seq<char>)
    requires
        rule_value(value, profile) is Ok,
    ensures
        ({
            let rule = rule_value(value, profile)->Ok_0;
            &&& value.text_at("ip_type"@) == Some(rule.ip_type)
            &&& value.text_at("protocol"@) == Some(rule.protocol)
            &&& value.text_at("subnet"@) == Some(rule.subnet)
            &&& value.at("subnet_size"@) == Some(Json::Number(Some(rule.subnet_size as u64)))
            &&& value.at("port"@) is Some ==> value.text_at("port"@) == Some(rule.port)
            &&& value.at("port"@) is None ==> rule.port.len() == 0
            &&& value.at("source"@) is Some ==> value.text_at("source"@) == Some(rule.source)
            &&& value.at("source"@) is None ==> rule.source.len() == 0
            &&& value.at("notes"@) is Some ==> value.text_at("notes"@) == Some(rule.notes)
            &&& value.at("notes"@) is None ==> rule.notes.len() == 0
            &&& trimmed(rule.subnet) == rule.subnet
            &&& trimmed(rule.port) == rule.port
        }),
{
}

/// A well-written rule is read: one with nothing but the known fields, each of
/// the required ones there and trimmed, that makes a sound rule.
pub proof fn law_a_well_written_rule_is_read(value: Json, profile: Seq<char>)
    requires
        value matches Json::Object(fields) && unknown_field(fields@, Level::Rule) is None,
        value.text_at("ip_type"@) == Some("v4"@) || value.text_at("ip_type"@) == Some("v6"@),
        value.text_at("protocol"@) == Some("tcp"@) || value.text_at("protocol"@) == Some("udp"@),
        value.text_at("subnet"@) matches Some(t) && t.len() > 0 && trimmed(t) == t,
        value.at("subnet_size"@) matches Some(Json::Number(Some(n))) && n <= 32,
        value.at("port"@) is None || (value.text_at("port"@) matches Some(t) && trimmed(t) == t),
        value.at("source"@) is None || (value.text_at("source"@) matches Some(t) && trimmed(t)
            == t),
        value.at("notes"@) is None || (value.text_at("notes"@) matches Some(t) && trimmed(t) == t),
    ensures
        rule_value(value, profile) is Ok,
{
    reveal_strlit("v4");
    reveal_strlit("v6");
    reveal_strlit("tcp");
    reveal_strlit("udp");
    assert("v4"@[0] == 'v' && "v4"@[1] == '4');
    assert("v6"@[0] == 'v' && "v6"@[1] == '6');
    assert("tcp"@[0] == 't' && "tcp"@[1] == 'c' && "tcp"@[2] == 'p');
    assert("udp"@[0] == 'u' && "udp"@[1] == 'd' && "udp"@[2] == 'p');
    lemma_trimmed_same("v4"@);
    lemma_trimmed_same("v6"@);
    lemma_trimmed_same("tcp"@);
    lemma_trimmed_same("udp"@);
}

/// Two descriptions of an environment's firewalls are the same only for the
/// same profile.
pub proof fn law_firewalls_are_told_apart_by_their_profiles(
    environment: &str,
    one: &str,
    other: &str,
    first: String,
    second: String,
)
    requires
        call_ensures(firewall_group_description, (environment, one), first),
        call_ensures(firewall_group_description, (environment, other), second),
    ensures
        first@ == second@ <==> one@ == other@,
        begins_with(first@, "singbox-"@ + environment@ + "-fw-"@),
{
    let head = "singbox-"@ + environment@ + "-fw-"@;
    assert(first@.subrange(0, head.len() as int) =~= head);
    assert(first@.skip(head.len() as int) =~= one@);
    assert(second@.skip(head.len() as int) =~= other@);
}

proof fn lemma_filled_rules(rules: Seq<RuleText>, ipv4: Seq<char>)
    ensures
        ({
            let (filled_in, ok) = filled_rules(rules, ipv4);
            &&& filled_in.len() == rules.len()
            &&& ok ==> forall|i: int|
                0 <= i < rules.len() ==> #[trigger] filled_in[i] == filled(rules[i], ipv4)
                    && !is_misfit(rules[i])
            &&& !ok ==> exists|i: int| 0 <= i < rules.len() && is_misfit(#[trigger] rules[i])
        }),
    decreases rules.len(),
{
    if rules.len() > 0 {
        let head = rules.drop_last();
        lemma_filled_rules(head, ipv4);
        let (filled_in, ok) = filled_rules(rules, ipv4);
        if !ok {
            if is_misfit(rules.last()) {
                assert(is_misfit(rules[rules.len() - 1]));
            } else {
                let i = choose|i: int| 0 <= i < head.len() && is_misfit(#[trigger] head[i]);
                assert(is_misfit(rules[i]));
            }
        } else {
            assert forall|i: int| 0 <= i < rules.len() implies #[trigger] filled_in[i] == filled(
                rules[i],
                ipv4,
            ) && !is_misfit(rules[i]) by {
                if i < head.len() {
                    assert(filled_rules(head, ipv4).0[i] == filled(head[i], ipv4));
                    assert(head[i] == rules[i]);
                }
            }
        }
    }
}

/// The controller's address takes the place of its stand-in and changes nothing
/// else: a rule from elsewhere stays as it is, and of a rule from the controller
/// everything but its network. It is refused for a rule that would let in more
/// than the one address.
pub proof fn law_only_the_stand_in_is_replaced(rules: Seq<RuleText>, ipv4: Seq<char>, i: int)
    requires
        0 <= i < rules.len(),
    ensures
        ({
            let (after, ok) = filled_rules(rules, ipv4);
            &&& after.len() == rules.len()
            &&& ok && rules[i].subnet != "@controller-ipv4"@ ==> after[i] == rules[i]
            &&& ok && rules[i].subnet == "@controller-ipv4"@ ==> after[i] == (RuleText {
                subnet: ipv4,
                ..rules[i]
            })
            &&& rules[i].subnet == "@controller-ipv4"@ && (rules[i].subnet_size != 32
                || rules[i].ip_type != "v4"@) ==> !ok
            &&& !ok ==> exists|k: int|
                0 <= k < rules.len() && (#[trigger] rules[k]).subnet == "@controller-ipv4"@ && (
                rules[k].subnet_size != 32 || rules[k].ip_type != "v4"@)
        }),
{
    lemma_filled_rules(rules, ipv4);
    let (after, ok) = filled_rules(rules, ipv4);
    if ok {
        assert(after[i] == filled(rules[i], ipv4));
    } else {
        let k = choose|k: int| 0 <= k < rules.len() && is_misfit(#[trigger] rules[k]);
        assert(rules[k].subnet == "@controller-ipv4"@);
    }
}

pub proof fn lemma_access_rules(rules: Seq<RuleText>, ipv4: Seq<char>)
    ensures
        forall|x: RuleText| #[trigger]
            access_rules(rules, ipv4).contains(x) <==> exists|i: int|
                0 <= i < rules.len() && is_placeholder(#[trigger] rules[i]) && x == filled(
                    rules[i],
                    ipv4,
                ),
    decreases rules.len(),
{
    if rules.len() > 0 {
        let head = rules.drop_last();
        lemma_access_rules(head, ipv4);
        let before = access_rules(head, ipv4);
        let last = filled(rules.last(), ipv4);
        lemma_placed_members(before, last);
        assert forall|x: RuleText| #[trigger] access_rules(rules, ipv4).contains(x) <==> exists|
            i: int,
        |
            0 <= i < rules.len() && is_placeholder(#[trigger] rules[i]) && x == filled(
                rules[i],
                ipv4,
            ) by {
            if access_rules(rules, ipv4).contains(x) {
                if before.contains(x) {
                    let i = choose|i: int|
                        0 <= i < head.len() && is_placeholder(#[trigger] head[i]) && x == filled(
                            head[i],
                            ipv4,
                        );
                    assert(rules[i] == head[i]);
                } else {
                    assert(rules[rules.len() - 1] == rules.last());
                }
            }
            if exists|i: int|
                0 <= i < rules.len() && is_placeholder(#[trigger] rules[i]) && x == filled(
                    rules[i],
                    ipv4,
                ) {
                let i = choose|i: int|
                    0 <= i < rules.len() && is_placeholder(#[trigger] rules[i]) && x == filled(
                        rules[i],
                        ipv4,
                    );
                if i < head.len() {
                    assert(head[i] == rules[i]);
                    assert(before.contains(x));
                }
            }
        }
    }
}

proof fn lemma_placed_members(rules: Seq<RuleText>, rule: RuleText)
    ensures
        forall|x: RuleText| #[trigger]
            placed(rules, rule).contains(x) <==> rules.contains(x) || x == rule,
    decreases rules.len(),
{
    let out = placed(rules, rule);
    if rules.len() == 0 || rule_le(rules.last(), rule) {
        assert forall|x: RuleText| #[trigger] out.contains(x) <==> rules.contains(x) || x
            == rule by {
            if rules.contains(x) {
                let i = choose|i: int| 0 <= i < rules.len() && rules[i] == x;
                assert(out[i] == x);
            }
            assert(out[rules.len() as int] == rule);
            if out.contains(x) && x != rule {
                let i = choose|i: int| 0 <= i < out.len() && out[i] == x;
                assert(rules[i] == x);
            }
        }
    } else {
        let head = rules.drop_last();
        lemma_placed_members(head, rule);
        let before = placed(head, rule);
        assert forall|x: RuleText| #[trigger] out.contains(x) <==> rules.contains(x) || x
            == rule by {
            if out.contains(x) {
                let i = choose|i: int| 0 <= i < out.len() && out[i] == x;
                if i < before.len() {
                    assert(before[i] == x);
                    assert(before.contains(x));
                    if x != rule {
                        let k = choose|k: int| 0 <= k < head.len() && head[k] == x;
                        assert(rules[k] == x);
                    }
                } else {
                    assert(rules[rules.len() - 1] == x);
                }
            }
            if rules.contains(x) || x == rule {
                if x == rule || head.contains(x) {
                    assert(before.contains(x));
                    let i = choose|i: int| 0 <= i < before.len() && before[i] == x;
                    assert(out[i] == x);
                } else {
                    let k = choose|k: int| 0 <= k < rules.len() && rules[k] == x;
                    if k < head.len() {
                        assert(head[k] == x);
                    }
                    assert(out[before.len() as int] == x);
                }
            }
        }
    }
}

/// The rules that let the controller in are exactly those of a profile that are
/// written for it, each with its address in place. They are told for an exact
/// IPv4 address only, and only where each of them lets in no more than that.
pub proof fn law_controller_rules_are_those_written_for_it(
    profile: FirewallProfile,
    address: &str,
    r: Result<Vec<FirewallRuleSpec>, String>,
)
    requires
        call_ensures(controller_ipv4_access_specs, (&profile, address), r),
    ensures
        r is Ok <==> is_ipv4(address@) && forall|i: int|
            0 <= i < profile@.rules.len() && (#[trigger] profile@.rules[i]).subnet
                == "@controller-ipv4"@ ==> profile@.rules[i].subnet_size == 32
                && profile@.rules[i].ip_type == "v4"@,
        r matches Ok(rules) ==> forall|x: RuleText| #[trigger]
            rule_texts(rules@).contains(x) <==> exists|i: int|
                0 <= i < profile@.rules.len() && (#[trigger] profile@.rules[i]).subnet
                    == "@controller-ipv4"@ && x == (RuleText {
                    subnet: address@,
                    ..profile@.rules[i]
                }),
{
    let rules = profile@.rules;
    if r is Ok {
        lemma_access_rules(rules, address@);
        assert forall|i: int| 0 <= i < rules.len() && (#[trigger] rules[i]).subnet
            == "@controller-ipv4"@ implies rules[i].subnet_size == 32 && rules[i].ip_type == "v4"@ by {
            assert(!is_misfit(rules[i]));
        }
        let found = rule_texts(r->Ok_0@);
        assert forall|x: RuleText| #[trigger] found.contains(x) <==> exists|i: int|
            0 <= i < rules.len() && (#[trigger] rules[i]).subnet == "@controller-ipv4"@ && x == (
            RuleText { subnet: address@, ..rules[i] }) by {
            if found.contains(x) {
                let i = choose|i: int|
                    0 <= i < rules.len() && is_placeholder(#[trigger] rules[i]) && x == filled(
                        rules[i],
                        address@,
                    );
                assert(rules[i].subnet == "@controller-ipv4"@);
            }
            if exists|i: int|
                0 <= i < rules.len() && (#[trigger] rules[i]).subnet == "@controller-ipv4"@ && x
                    == (RuleText { subnet: address@, ..rules[i] }) {
                let i = choose|i: int|
                    0 <= i < rules.len() && (#[trigger] rules[i]).subnet == "@controller-ipv4"@ && x
                        == (RuleText { subnet: address@, ..rules[i] });
                assert(is_placeholder(rules[i]));
            }
        }
    } else if is_ipv4(address@) {
        let i = choose|i: int| 0 <= i < rules.len() && is_misfit(#[trigger] rules[i]);
        assert(rules[i].subnet == "@controller-ipv4"@);
    }
}

proof fn lemma_resolved_of_a_profile(
    profiles: Seq<ProfileText>,
    names: Seq<Seq<char>>,
    ipv4: Seq<char>,
    j: int,
)
    requires
        distinct_names(profiles),
        ipv4 != CONTROLLER_PLACEHOLDER@,
        0 <= j < profiles.len(),
    ensures
        ({
            let (after, fault) = resolved(profiles, names, ipv4);
            &&& after.len() == profiles.len()
            &&& after[j].name == profiles[j].name
            &&& !names.contains(profiles[j].name) ==> after[j] == profiles[j]
            &&& fault is None && names.contains(profiles[j].name) ==> {
                &&& after[j].rules.len() == profiles[j].rules.len()
                &&& forall|x: RuleText| #[trigger]
                    after[j].rules.contains(x) <==> exists|k: int|
                        0 <= k < profiles[j].rules.len() && x == filled(
                            #[trigger] profiles[j].rules[k],
                            ipv4,
                        )
            }
        }),
    decreases names.len(),
{
    broadcast use vstd::seq_lib::group_to_multiset_ensures;

    if names.len() > 0 {
        let head = names.drop_last();
        let last = names.last();
        lemma_resolved_of_a_profile(profiles, head, ipv4, j);
        lemma_resolved_keeps_names(profiles, head, ipv4);
        let (before, fault) = resolved(profiles, head, ipv4);
        let name = profiles[j].name;
        if head.contains(name) {
            let k = choose|k: int| 0 <= k < head.len() && head[k] == name;
            assert(names[k] == name);
        }
        assert(names[names.len() - 1] == last);
        if names.contains(name) && last != name {
            let k = choose|k: int| 0 <= k < names.len() && names[k] == name;
            assert(head[k] == name);
        }
        assert(distinct_names(before));
        law_profile_is_found_by_name(before, last);
        if fault is None && profile_at(before, last) is Some {
            let i = profile_at(before, last)->0;
            let (rules, ok) = filled_rules(before[i].rules, ipv4);
            lemma_filled_rules(before[i].rules, ipv4);
            if ok && i == j {
                let out = arranged(rules);
                law_arranging_orders_and_keeps(rules);
                assert forall|x: RuleText| #[trigger] out.contains(x) <==> exists|k: int|
                    0 <= k < profiles[j].rules.len() && x == filled(
                        #[trigger] profiles[j].rules[k],
                        ipv4,
                    ) by {
                    assert(out.contains(x) <==> out.to_multiset().count(x) > 0);
                    assert(rules.contains(x) <==> rules.to_multiset().count(x) > 0);
                    if rules.contains(x) {
                        let m = choose|m: int| 0 <= m < rules.len() && rules[m] == x;
                        let y = before[j].rules[m];
                        assert(x == filled(y, ipv4));
                        assert(before[j].rules.contains(y));
                        if head.contains(name) {
                            let k = choose|k: int|
                                0 <= k < profiles[j].rules.len() && y == filled(
                                    #[trigger] profiles[j].rules[k],
                                    ipv4,
                                );
                            assert(x == filled(profiles[j].rules[k], ipv4));
                        } else {
                            assert(x == filled(profiles[j].rules[m], ipv4));
                        }
                    }
                    if exists|k: int|
                        0 <= k < profiles[j].rules.len() && x == filled(
                            #[trigger] profiles[j].rules[k],
                            ipv4,
                        ) {
                        let k = choose|k: int|
                            0 <= k < profiles[j].rules.len() && x == filled(
                                #[trigger] profiles[j].rules[k],
                                ipv4,
                            );
                        if head.contains(name) {
                            assert(before[j].rules.contains(x));
                            let m = choose|m: int|
                                0 <= m < before[j].rules.len() && before[j].rules[m] == x;
                            assert(rules[m] == filled(x, ipv4));
                            assert(rules[m] == x);
                        } else {
                            assert(rules[k] == x);
                        }
                        assert(rules.contains(x));
                    }
                }
            }
            if i != j {
                assert(last != name) by {
                    assert(before[i].name == last);
                    assert(before[j].name == name);
                }
            }
        }
    }
}

/// A profile that no one named keeps its rules, whatever becomes of the others.
/// A named one keeps every rule but those for the controller, which then let the
/// controller's address in and are otherwise as they were.
pub proof fn law_only_named_profiles_are_filled_in(
    profiles: Seq<ProfileText>,
    names: Seq<Seq<char>>,
    controller_ipv4: Option<Seq<char>>,
    j: int,
    k: int,
)
    requires
        distinct_names(profiles),
        0 <= j < profiles.len(),
    ensures
        ({
            let (after, fault) = resolution(profiles, names, controller_ipv4);
            &&& after.len() == profiles.len()
            &&& after[j].name == profiles[j].name
            &&& !names.contains(profiles[j].name) ==> after[j] == profiles[j]
            &&& fault is None ==> after[j].rules.len() == profiles[j].rules.len()
            &&& fault is None && 0 <= k < profiles[j].rules.len() ==> {
                &&& profiles[j].rules[k].subnet != "@controller-ipv4"@ ==> after[j].rules.contains(
                    profiles[j].rules[k],
                )
                &&& names.contains(profiles[j].name) && profiles[j].rules[k].subnet
                    == "@controller-ipv4"@ ==> (controller_ipv4 matches Some(ipv4) && is_ipv4(ipv4)
                    && after[j].rules.contains(RuleText { subnet: ipv4, ..profiles[j].rules[k] }))
            }
        }),
{
    let (after, fault) = resolution(profiles, names, controller_ipv4);
    if needs_controller(profiles, names) {
        if let Some(ipv4) = controller_ipv4 {
            if is_ipv4(ipv4) {
                lemma_address_is_no_placeholder(ipv4);
                lemma_resolved_of_a_profile(profiles, names, ipv4, j);
                if fault is None && 0 <= k < profiles[j].rules.len() {
                    if names.contains(profiles[j].name) {
                        assert(after[j].rules.contains(filled(profiles[j].rules[k], ipv4)));
                    } else {
                        assert(after[j].rules.contains(profiles[j].rules[k]));
                    }
                }
            }
        }
    } else {
        if 0 <= k < profiles[j].rules.len() {
            assert(after[j].rules.contains(profiles[j].rules[k]));
            if names.contains(profiles[j].name) {
                let n = choose|n: int| 0 <= n < names.len() && names[n] == profiles[j].name;
                law_profile_is_found_by_name(profiles, names[n]);
                assert(profile_at(profiles, names[n]) == Some(j));
                assert(!has_placeholder(profiles[j].rules));
            }
        }
    }
}

} // verus!
