//! The resources that an environment's machines share at the provider: the
//! operator's public key and the firewalls.
use crate::firewall::{
    FirewallProfile, firewall_group_description, group_description, is_alphanumeric,
};
use crate::lists::{Found, finds, lemma_filter_members, lemma_filter_start, lemma_filter_step};
use crate::once::{
    Ask, Ending, Next, Phase, ProviderFault, Reply, Sight, carries, creation_reply, on_reply,
    read_creation, read_removal, removal_reply,
};
use crate::provider::{VultrFirewallGroup, VultrSshKey};
use crate::text::{
    blank, cat2, cat3, cat5, chars_of, is_blank, law_trimming_keeps_words, same, split_words,
    trim, trimmed, words,
};
use vstd::prelude::*;
use vstd::string::*;

verus! {

/// A character of base64 material.
pub open spec fn is_base64(c: char) -> bool {
    is_alphanumeric(c) || c == '+' || c == '/' || c == '='
}

pub open spec fn base64(s: Seq<char>) -> bool {
    forall|i: int| 0 <= i < s.len() ==> is_base64(#[trigger] s[i])
}

fn is_base64_text(s: &str) -> (r: bool)
    ensures
        r == base64(s@),
{
    let chars: Vec<char> = chars_of(s);
    let mut i: usize = 0;
    while i < chars.len()
        invariant
            i <= chars@.len(),
            chars@ == s@,
            base64(s@.take(i as int)),
        decreases chars@.len() - i,
    {
        let c: char = chars[i];
        if !(('0' <= c && c <= '9') || ('a' <= c && c <= 'z') || ('A' <= c && c <= 'Z') || c == '+'
            || c == '/' || c == '=') {
            assert(s@[i as int] == c);
            return false;
        }
        i = i + 1;
        assert(s@.take(i as int) =~= s@.take(i - 1).push(c));
    }
    assert(s@.take(i as int) =~= s@);
    true
}

/// The part of a public key that identifies it: the algorithm and the key,
/// without the comment.
pub open spec fn key_material(public_key: Seq<char>) -> Result<Seq<char>, Seq<char>> {
    let w = words(public_key);
    if w.len() < 2 {
        Err("SSH public key must contain algorithm and base64 material"@)
    } else if w[0] != "ssh-ed25519"@ {
        Err("canonical operational key must be ssh-ed25519, got "@ + w[0])
    } else if !base64(w[1]) {
        Err("SSH public key base64 material is malformed"@)
    } else {
        Ok(w[0] + " "@ + w[1])
    }
}

/// The part of a public key that identifies it.
pub fn public_key_material(public_key: &str) -> (r: Result<String, String>)
    ensures
        match r {
            Ok(m) => key_material(public_key@) == Ok::<Seq<char>, Seq<char>>(m@),
            Err(e) => key_material(public_key@) == Err::<Seq<char>, Seq<char>>(e@),
        },
{
    let fields: Vec<String> = split_words(public_key);
    let ghost w = words(public_key@);
    assert(w.len() == fields@.len());
    if fields.len() < 2 {
        return Err("SSH public key must contain algorithm and base64 material".to_owned());
    }
    assert(w[0] == fields@[0]@ && w[1] == fields@[1]@);
    if !same(fields[0].as_str(), "ssh-ed25519") {
        return Err(
            cat2("canonical operational key must be ssh-ed25519, got ", fields[0].as_str()),
        );
    }
    if !is_base64_text(fields[1].as_str()) {
        return Err("SSH public key base64 material is malformed".to_owned());
    }
    Ok(cat3(fields[0].as_str(), " ", fields[1].as_str()))
}

/// Keys that agree in their first two words have one material, whatever
/// follows.
pub proof fn law_material_ignores_the_comment(a: Seq<char>, b: Seq<char>)
    requires
        words(a).len() >= 2,
        words(b).len() >= 2,
        words(a)[0] == words(b)[0],
        words(a)[1] == words(b)[1],
    ensures
        key_material(a) == key_material(b),
{
}

/// The name that marks a public key as an environment's.
pub open spec fn managed_key_name(environment: Seq<char>) -> Seq<char> {
    "singbox-"@ + environment + "-ops"@
}

/// A public key that the provider holds for an environment.
#[derive(Debug, Clone, PartialEq, Eq)]
pub struct ResolvedSshKey {
    pub id: String,
    pub name: String,
}

/// What a listing of keys shows of an environment's key.
#[derive(Debug, PartialEq, Eq)]
pub enum SshKeyObservation {
    Absent,
    Exact(ResolvedSshKey),
    /// Something stands in the way; the text says what.
    Conflict(String),
}

pub open spec fn named(name: Seq<char>) -> spec_fn(VultrSshKey) -> bool {
    |k: VultrSshKey| k.name@ == name
}

fn find_key(keys: &Vec<VultrSshKey>, name: &str) -> (r: Found)
    ensures
        finds(keys@, named(name@), r),
{
    let ghost wanted = named(name@);
    let mut found: Found = Found::Nothing;
    let mut i: usize = 0;
    proof {
        lemma_filter_start(keys@, wanted);
    }
    while i < keys.len()
        invariant
            i <= keys@.len(),
            wanted == named(name@),
            finds(keys@.take(i as int), wanted, found),
            found matches Found::One(k) ==> k < i,
        decreases keys@.len() - i,
    {
        proof {
            lemma_filter_step(keys@, wanted, i as int);
        }
        if same(keys[i].name.as_str(), name) {
            assert(wanted(keys@[i as int]));
            found = match found {
                Found::Nothing => Found::One(i),
                _ => Found::Several,
            };
            assert(keys@.take(i + 1)[i as int] == keys@[i as int]);
            assert(found == Found::One(i) ==> keys@.take(i + 1).filter(wanted)
                =~= seq![keys@[i as int]]);
        } else {
            assert(!wanted(keys@[i as int]));
            assert(found matches Found::One(k) ==> keys@.take(i + 1)[k as int] == keys@[k as int]);
        }
        i = i + 1;
    }
    assert(keys@.take(i as int) =~= keys@);
    found
}

/// What a listing shows of the key with that name and material: none, the one
/// key that has both, or what stands in the way. A named key without readable
/// material is an error of its own.
pub open spec fn key_seen(
    keys: Seq<VultrSshKey>,
    name: Seq<char>,
    material: Seq<char>,
    seen: Result<SshKeyObservation, Seq<char>>,
) -> bool {
    let hits = keys.filter(named(name));
    if hits.len() > 1 {
        seen matches Ok(SshKeyObservation::Conflict(words)) && words@
            == "multiple Vultr SSH keys use managed name "@ + name
    } else if hits.len() == 0 {
        seen matches Ok(SshKeyObservation::Absent)
    } else {
        match key_material(hits[0].ssh_key@) {
            Err(e) => seen matches Err(words) && words == e,
            Ok(m) => if m != material {
                seen matches Ok(SshKeyObservation::Conflict(words)) && words@ == "Vultr SSH key "@
                    + hits[0].id@ + " has managed name "@ + name
                    + " but different public key material"@
            } else {
                seen matches Ok(SshKeyObservation::Exact(key)) && key.id == hits[0].id && key.name
                    == hits[0].name
            },
        }
    }
}

/// Reads a listing of keys for the key with that name and material.
pub fn observe_managed_ssh_key(
    keys: &Vec<VultrSshKey>,
    desired_name: &str,
    desired_material: &str,
) -> (r: Result<SshKeyObservation, String>)
    ensures
        match r {
            Ok(seen) => key_seen(keys@, desired_name@, desired_material@, Ok(seen)),
            Err(e) => key_seen(keys@, desired_name@, desired_material@, Err(e@)),
        },
{
    match find_key(keys, desired_name) {
        Found::Several => Ok(
            SshKeyObservation::Conflict(
                cat2("multiple Vultr SSH keys use managed name ", desired_name),
            ),
        ),
        Found::Nothing => Ok(SshKeyObservation::Absent),
        Found::One(i) => {
            let key: &VultrSshKey = &keys[i];
            match public_key_material(key.ssh_key.as_str()) {
                Err(e) => Err(e),
                Ok(material) => {
                    if !same(material.as_str(), desired_material) {
                        Ok(
                            SshKeyObservation::Conflict(
                                cat5(
                                    "Vultr SSH key ",
                                    key.id.as_str(),
                                    " has managed name ",
                                    desired_name,
                                    " but different public key material",
                                ),
                            ),
                        )
                    } else {
                        Ok(
                            SshKeyObservation::Exact(
                                ResolvedSshKey { id: key.id.clone(), name: key.name.clone() },
                            ),
                        )
                    }
                },
            }
        },
    }
}

/// A listing of keys, or why there is none.
pub type KeyListing = Result<Vec<VultrSshKey>, ProviderFault>;

/// A key that the provider is asked to create.
#[derive(Debug, PartialEq, Eq)]
pub struct SshKeyRequest {
    pub name: String,
    pub public_key: String,
}

/// Finding an environment's key at the provider, or putting it there.
#[derive(Debug, PartialEq, Eq)]
pub struct KeyResolution {
    pub name: String,
    /// The whole key, as it is put there.
    pub public_key: String,
    pub material: String,
    pub phase: Phase,
    /// What the provider said, where the outcome of the creation is open.
    pub complaint: String,
}

/// What a listing shows of the key.
pub open spec fn key_sight(listing: KeyListing, name: Seq<char>, material: Seq<char>) -> Sight {
    match listing {
        Err(_) => Sight::Broken,
        Ok(keys) => {
            let hits = keys@.filter(named(name));
            if hits.len() == 0 {
                Sight::Pending
            } else if hits.len() == 1 && key_material(hits[0].ssh_key@) == Ok::<
                Seq<char>,
                Seq<char>,
            >(material) {
                Sight::Reached
            } else {
                Sight::Broken
            }
        },
    }
}

/// Whether `result` is what a listing that decides leads to.
pub open spec fn key_decided(
    listing: KeyListing,
    name: Seq<char>,
    material: Seq<char>,
    result: Result<ResolvedSshKey, String>,
) -> bool {
    match listing {
        Err(fault) => result matches Err(e) && e@ == fault.message@,
        Ok(keys) => match result {
            Ok(key) => key_seen(keys@, name, material, Ok(SshKeyObservation::Exact(key))),
            Err(e) => key_seen(keys@, name, material, Ok(SshKeyObservation::Conflict(e)))
                || key_seen(keys@, name, material, Err(e@)),
        },
    }
}

/// The error for a key whose creation no look proved.
pub open spec fn key_unproven(name: Seq<char>, reply: Reply, complaint: Seq<char>) -> Seq<char> {
    match reply {
        Reply::Uncertain => complaint
            + "; SSH-key CREATE was not replayed and exact re-observation remained absent"@,
        _ => "Vultr SSH key "@ + name + " was created but did not become observable"@,
    }
}

fn unproven_key(name: &str, reply: Reply, complaint: &str) -> (r: String)
    ensures
        r@ == key_unproven(name@, reply, complaint@),
{
    match reply {
        Reply::Uncertain => cat2(
            complaint,
            "; SSH-key CREATE was not replayed and exact re-observation remained absent",
        ),
        _ => cat3("Vultr SSH key ", name, " was created but did not become observable"),
    }
}

impl KeyResolution {
    /// Begins with the key that an environment's machines are to have.
    pub fn new(environment: &str, canonical_public_key: &str) -> (r: Result<KeyResolution, String>)
        ensures
            match r {
                Ok(k) => {
                    &&& key_material(canonical_public_key@) == Ok::<Seq<char>, Seq<char>>(
                        k.material@,
                    )
                    &&& k.name@ == managed_key_name(environment@)
                    &&& k.public_key@ == trimmed(canonical_public_key@)
                    &&& k.phase is Before
                    &&& k.complaint@.len() == 0
                },
                Err(e) => key_material(canonical_public_key@) == Err::<Seq<char>, Seq<char>>(e@),
            },
    {
        match public_key_material(canonical_public_key) {
            Err(e) => Err(e),
            Ok(material) => Ok(
                KeyResolution {
                    name: cat3("singbox-", environment, "-ops"),
                    public_key: trim(canonical_public_key).to_owned(),
                    material,
                    phase: Phase::Before,
                    complaint: String::new(),
                },
            ),
        }
    }

    /// Takes a listing of keys into account.
    pub fn resolve_managed_ssh_key(self, attempts: usize, listing: &KeyListing) -> (r: (
        KeyResolution,
        Next<ResolvedSshKey>,
    ))
        requires
            self.phase.wants_look(),
        ensures
            ({
                let sight = key_sight(*listing, self.name@, self.material@);
                let (phase, ask) = self.phase.looked(attempts, sight);
                &&& r.0 == (KeyResolution { phase, ..self })
                &&& carries(ask, r.1)
                &&& r.1 matches Next::Done(result) ==> match ask->Finish_0 {
                    Ending::Unproven { reply } => result matches Err(e) && e@ == key_unproven(
                        self.name@,
                        reply,
                        self.complaint@,
                    ),
                    _ => key_decided(*listing, self.name@, self.material@, result),
                }
            }),
    {
        let keys: &Vec<VultrSshKey> = match listing {
            Err(fault) => {
                let (phase, _): (Phase, Ask) = self.phase.look(attempts, Sight::Broken);
                return (KeyResolution { phase, ..self }, Next::Done(Err(fault.message.clone())));
            },
            Ok(keys) => keys,
        };
        match observe_managed_ssh_key(keys, self.name.as_str(), self.material.as_str()) {
            Err(e) => {
                let (phase, _): (Phase, Ask) = self.phase.look(attempts, Sight::Broken);
                (KeyResolution { phase, ..self }, Next::Done(Err(e)))
            },
            Ok(SshKeyObservation::Conflict(e)) => {
                let (phase, _): (Phase, Ask) = self.phase.look(attempts, Sight::Broken);
                (KeyResolution { phase, ..self }, Next::Done(Err(e)))
            },
            Ok(SshKeyObservation::Exact(key)) => {
                let (phase, _): (Phase, Ask) = self.phase.look(attempts, Sight::Reached);
                (KeyResolution { phase, ..self }, Next::Done(Ok(key)))
            },
            Ok(SshKeyObservation::Absent) => {
                let (phase, ask): (Phase, Ask) = self.phase.look(attempts, Sight::Pending);
                let next: Next<ResolvedSshKey> = match ask {
                    Ask::Change => Next::Change,
                    Ask::Look { pause } => Next::Look { pause },
                    Ask::Finish(Ending::Unproven { reply }) => Next::Done(
                        Err(unproven_key(self.name.as_str(), reply, self.complaint.as_str())),
                    ),
                    Ask::Finish(_) => Next::Change,
                };
                (KeyResolution { phase, ..self }, next)
            },
        }
    }

    /// Takes the reply to the creation of the key into account.
    pub fn replied(self, attempts: usize, fault: &Option<ProviderFault>) -> (r: (
        KeyResolution,
        Next<ResolvedSshKey>,
    ))
        requires
            self.phase is Asked,
        ensures
            ({
                let reply = creation_reply(*fault);
                let (phase, ask) = on_reply(attempts, reply);
                let complaint = match *fault {
                    Some(f) => f.message@,
                    None => self.complaint@,
                };
                &&& r.0.phase == phase
                &&& r.0.name == self.name
                &&& r.0.public_key == self.public_key
                &&& r.0.material == self.material
                &&& r.0.complaint@ == complaint
                &&& carries(ask, r.1)
                &&& r.1 matches Next::Done(result) ==> (result matches Err(e) && e@ == if ask
                    == Ask::Finish(Ending::Refused) {
                    complaint
                } else {
                    key_unproven(self.name@, reply, complaint)
                })
            }),
    {
        let reply: Reply = read_creation(fault);
        let (phase, ask): (Phase, Ask) = self.phase.reply(attempts, reply);
        let complaint: String = match fault {
            Some(f) => f.message.clone(),
            None => self.complaint,
        };
        let next: Next<ResolvedSshKey> = match ask {
            Ask::Change => Next::Change,
            Ask::Look { pause } => Next::Look { pause },
            Ask::Finish(Ending::Refused) => Next::Done(Err(complaint.clone())),
            Ask::Finish(_) => Next::Done(
                Err(unproven_key(self.name.as_str(), reply, complaint.as_str())),
            ),
        };
        (
            KeyResolution {
                name: self.name,
                public_key: self.public_key,
                material: self.material,
                phase,
                complaint,
            },
            next,
        )
    }

    /// What the provider is asked to create: the whole key under the
    /// environment's name.
    pub fn request(&self) -> (r: SshKeyRequest)
        ensures
            r.name == self.name,
            r.public_key == self.public_key,
    {
        SshKeyRequest { name: self.name.clone(), public_key: self.public_key.clone() }
    }
}

/// The key that is created is the key that is then looked for: once it is
/// listed as it was sent, under the name it was sent with, it is found.
pub proof fn law_created_key_is_the_key_looked_for(
    environment: Seq<char>,
    canonical: Seq<char>,
    keys: Vec<VultrSshKey>,
)
    requires
        key_material(canonical) is Ok,
        keys@.filter(named(managed_key_name(environment))).len() == 1,
        keys@.filter(named(managed_key_name(environment)))[0].ssh_key@ == trimmed(canonical),
    ensures
        key_material(trimmed(canonical)) == key_material(canonical),
        key_sight(
            Ok(keys),
            managed_key_name(environment),
            key_material(canonical)->Ok_0,
        ) is Reached,
{
    law_trimming_keeps_words(canonical);
}

/// A firewall that holds the rules of a profile.
#[derive(Debug, Clone, PartialEq, Eq)]
pub struct ResolvedFirewallProfile {
    pub id: String,
    pub profile_name: String,
}

pub open spec fn described(description: Seq<char>) -> spec_fn(VultrFirewallGroup) -> bool {
    |g: VultrFirewallGroup| g.description@ == description
}

/// Finds the only firewall with a description.
pub fn find_group(groups: &Vec<VultrFirewallGroup>, description: &str) -> (r: Found)
    ensures
        finds(groups@, described(description@), r),
{
    let ghost wanted = described(description@);
    let mut found: Found = Found::Nothing;
    let mut i: usize = 0;
    proof {
        lemma_filter_start(groups@, wanted);
    }
    while i < groups.len()
        invariant
            i <= groups@.len(),
            wanted == described(description@),
            finds(groups@.take(i as int), wanted, found),
            found matches Found::One(k) ==> k < i,
        decreases groups@.len() - i,
    {
        proof {
            lemma_filter_step(groups@, wanted, i as int);
        }
        if same(groups[i].description.as_str(), description) {
            assert(wanted(groups@[i as int]));
            found = match found {
                Found::Nothing => Found::One(i),
                _ => Found::Several,
            };
            assert(found == Found::One(i) ==> groups@.take(i + 1).filter(wanted)
                =~= seq![groups@[i as int]]);
        } else {
            assert(!wanted(groups@[i as int]));
            assert(found matches Found::One(k) ==> groups@.take(i + 1)[k as int]
                == groups@[k as int]);
        }
        i = i + 1;
    }
    assert(groups@.take(i as int) =~= groups@);
    found
}

/// The error for several firewalls with one description.
pub open spec fn several_groups(description: Seq<char>) -> Seq<char> {
    "multiple Vultr firewall groups have owned description "@ + description
}

/// A listing of firewalls, or why there is none.
pub type GroupListing = Result<Vec<VultrFirewallGroup>, ProviderFault>;

/// What a listing shows of the firewall with that description.
pub open spec fn group_seen(
    listing: GroupListing,
    description: Seq<char>,
    seen: Result<Option<VultrFirewallGroup>, String>,
) -> bool {
    match listing {
        Err(fault) => seen matches Err(e) && e@ == fault.message@,
        Ok(groups) => {
            let hits = groups@.filter(described(description));
            if hits.len() > 1 {
                seen matches Err(e) && e@ == several_groups(description)
            } else if hits.len() == 1 {
                seen == Ok::<Option<VultrFirewallGroup>, String>(Some(hits[0]))
            } else {
                seen == Ok::<Option<VultrFirewallGroup>, String>(None)
            }
        },
    }
}

/// Reads a listing for the firewall with that description.
pub fn observe_firewall_group(listing: &GroupListing, description: &str) -> (r: Result<
    Option<VultrFirewallGroup>,
    String,
>)
    ensures
        group_seen(*listing, description@, r),
{
    match listing {
        Err(fault) => Err(fault.message.clone()),
        Ok(groups) => match find_group(groups, description) {
            Found::Several => Err(
                cat2("multiple Vultr firewall groups have owned description ", description),
            ),
            Found::One(i) => Ok(Some(groups[i].copy())),
            Found::Nothing => Ok(None),
        },
    }
}

/// Finding the firewall with a description at the provider, or making it.
#[derive(Debug, PartialEq, Eq)]
pub struct GroupResolution {
    pub description: String,
    pub phase: Phase,
    /// What the provider said, where the outcome of the creation is open.
    pub complaint: String,
}

pub open spec fn group_sight(listing: GroupListing, description: Seq<char>) -> Sight {
    match listing {
        Err(_) => Sight::Broken,
        Ok(groups) => {
            let hits = groups@.filter(described(description));
            if hits.len() > 1 {
                Sight::Broken
            } else if hits.len() == 1 {
                Sight::Reached
            } else {
                Sight::Pending
            }
        },
    }
}

/// The error for a firewall whose creation no look proved.
pub open spec fn group_unproven(description: Seq<char>, reply: Reply, complaint: Seq<char>) -> Seq<
    char,
> {
    match reply {
        Reply::Uncertain => complaint
            + "; firewall-group CREATE was not replayed and exact re-observation remained absent"@,
        _ => "Vultr firewall group "@ + description
            + " was created but did not become observable"@,
    }
}

fn unproven_group(description: &str, reply: Reply, complaint: &str) -> (r: String)
    ensures
        r@ == group_unproven(description@, reply, complaint@),
{
    match reply {
        Reply::Uncertain => cat2(
            complaint,
            "; firewall-group CREATE was not replayed and exact re-observation remained absent",
        ),
        _ => cat3(
            "Vultr firewall group ",
            description,
            " was created but did not become observable",
        ),
    }
}

impl GroupResolution {
    /// Begins with the firewall of a profile.
    pub fn new(environment: &str, profile: &FirewallProfile) -> (r: GroupResolution)
        ensures
            r.description@ == group_description(environment@, profile@.name),
            r.phase is Before,
            r.complaint@.len() == 0,
    {
        GroupResolution {
            description: firewall_group_description(environment, profile.name.as_str()),
            phase: Phase::Before,
            complaint: String::new(),
        }
    }

    /// Takes a listing of firewalls into account.
    pub fn ensure_firewall_profile(self, attempts: usize, listing: &GroupListing) -> (r: (
        GroupResolution,
        Next<VultrFirewallGroup>,
    ))
        requires
            self.phase.wants_look(),
        ensures
            ({
                let (phase, ask) = self.phase.looked(
                    attempts,
                    group_sight(*listing, self.description@),
                );
                &&& r.0 == (GroupResolution { phase, ..self })
                &&& carries(ask, r.1)
                &&& r.1 matches Next::Done(result) ==> match ask->Finish_0 {
                    Ending::Unproven { reply } => result matches Err(e) && e@ == group_unproven(
                        self.description@,
                        reply,
                        self.complaint@,
                    ),
                    _ => match result {
                        Ok(group) => group_seen(*listing, self.description@, Ok(Some(group))),
                        Err(e) => group_seen(*listing, self.description@, Err(e)),
                    },
                }
            }),
    {
        match observe_firewall_group(listing, self.description.as_str()) {
            Err(e) => {
                let (phase, _): (Phase, Ask) = self.phase.look(attempts, Sight::Broken);
                (GroupResolution { phase, ..self }, Next::Done(Err(e)))
            },
            Ok(Some(group)) => {
                let (phase, _): (Phase, Ask) = self.phase.look(attempts, Sight::Reached);
                (GroupResolution { phase, ..self }, Next::Done(Ok(group)))
            },
            Ok(None) => {
                let (phase, ask): (Phase, Ask) = self.phase.look(attempts, Sight::Pending);
                let next: Next<VultrFirewallGroup> = match ask {
                    Ask::Change => Next::Change,
                    Ask::Look { pause } => Next::Look { pause },
                    Ask::Finish(Ending::Unproven { reply }) => Next::Done(
                        Err(
                            unproven_group(
                                self.description.as_str(),
                                reply,
                                self.complaint.as_str(),
                            ),
                        ),
                    ),
                    Ask::Finish(_) => Next::Change,
                };
                (GroupResolution { phase, ..self }, next)
            },
        }
    }

    /// Takes the reply to the creation of the firewall into account.
    pub fn replied(self, attempts: usize, fault: &Option<ProviderFault>) -> (r: (
        GroupResolution,
        Next<VultrFirewallGroup>,
    ))
        requires
            self.phase is Asked,
        ensures
            ({
                let reply = creation_reply(*fault);
                let (phase, ask) = on_reply(attempts, reply);
                let complaint = match *fault {
                    Some(f) => f.message@,
                    None => self.complaint@,
                };
                &&& r.0.phase == phase
                &&& r.0.description == self.description
                &&& r.0.complaint@ == complaint
                &&& carries(ask, r.1)
                &&& r.1 matches Next::Done(result) ==> (result matches Err(e) && e@ == if ask
                    == Ask::Finish(Ending::Refused) {
                    complaint
                } else {
                    group_unproven(self.description@, reply, complaint)
                })
            }),
    {
        let reply: Reply = read_creation(fault);
        let (phase, ask): (Phase, Ask) = self.phase.reply(attempts, reply);
        let complaint: String = match fault {
            Some(f) => f.message.clone(),
            None => self.complaint,
        };
        let next: Next<VultrFirewallGroup> = match ask {
            Ask::Change => Next::Change,
            Ask::Look { pause } => Next::Look { pause },
            Ask::Finish(Ending::Refused) => Next::Done(Err(complaint.clone())),
            Ask::Finish(_) => Next::Done(
                Err(unproven_group(self.description.as_str(), reply, complaint.as_str())),
            ),
        };
        (GroupResolution { description: self.description, phase, complaint }, next)
    }
}

/// What a shared resource is.
#[derive(Debug, Clone, Copy, PartialEq, Eq, Structural)]
pub enum Shared {
    FirewallGroup,
    SshKey,
}

/// The error for a removal that no look proved.
pub open spec fn removal_unproven(what: Shared, id: Seq<char>) -> Seq<char> {
    match what {
        Shared::FirewallGroup => "firewall-group DELETE for "@ + id
            + " was not proven absent and was not replayed"@,
        Shared::SshKey => "SSH-key DELETE for "@ + id
            + " was not proven absent and was not replayed"@,
    }
}

fn unproven_removal(what: Shared, id: &str) -> (r: String)
    ensures
        r@ == removal_unproven(what, id@),
{
    match what {
        Shared::FirewallGroup => cat3(
            "firewall-group DELETE for ",
            id,
            " was not proven absent and was not replayed",
        ),
        Shared::SshKey => cat3(
            "SSH-key DELETE for ",
            id,
            " was not proven absent and was not replayed",
        ),
    }
}

/// Takes the reply to the removal of a shared resource into account.
pub fn removal_replied(what: Shared, id: &str, attempts: usize, fault: &Option<ProviderFault>) -> (r:
    (Phase, Next<()>))
    ensures
        ({
            let (phase, ask) = on_reply(attempts, removal_reply(*fault));
            &&& r.0 == phase
            &&& carries(ask, r.1)
            &&& r.1 matches Next::Done(result) ==> match ask->Finish_0 {
                Ending::NothingThere => result is Ok,
                Ending::Refused => result matches Err(e) && e@ == fault->0.message@,
                _ => result matches Err(e) && e@ == removal_unproven(what, id@),
            }
        }),
{
    let (phase, ask): (Phase, Ask) = Phase::Asked.reply(attempts, read_removal(fault));
    let next: Next<()> = match ask {
        Ask::Change => Next::Change,
        Ask::Look { pause } => Next::Look { pause },
        Ask::Finish(Ending::NothingThere) => Next::Done(Ok(())),
        Ask::Finish(Ending::Refused) => match fault {
            Some(f) => Next::Done(Err(f.message.clone())),
            None => Next::Change,
        },
        Ask::Finish(_) => Next::Done(Err(unproven_removal(what, id))),
    };
    (phase, next)
}

/// Takes a listing after the removal of a shared resource into account:
/// whether the resource is still in it, or why there is no listing.
pub fn removal_looked(
    what: Shared,
    id: &str,
    phase: Phase,
    attempts: usize,
    still_there: &Result<bool, ProviderFault>,
) -> (r: (Phase, Next<()>))
    requires
        phase is Watching,
    ensures
        ({
            let sight = match *still_there {
                Err(_) => Sight::Broken,
                Ok(true) => Sight::Pending,
                Ok(false) => Sight::Reached,
            };
            let (to, ask) = phase.looked(attempts, sight);
            &&& r.0 == to
            &&& carries(ask, r.1)
            &&& r.1 matches Next::Done(result) ==> match *still_there {
                Err(fault) => result matches Err(e) && e@ == fault.message@,
                Ok(false) => result is Ok,
                Ok(true) => result matches Err(e) && e@ == removal_unproven(what, id@),
            }
        }),
{
    match still_there {
        Err(fault) => {
            let (to, _): (Phase, Ask) = phase.look(attempts, Sight::Broken);
            (to, Next::Done(Err(fault.message.clone())))
        },
        Ok(false) => {
            let (to, _): (Phase, Ask) = phase.look(attempts, Sight::Reached);
            (to, Next::Done(Ok(())))
        },
        Ok(true) => {
            let (to, ask): (Phase, Ask) = phase.look(attempts, Sight::Pending);
            match ask {
                Ask::Look { pause } => (to, Next::Look { pause }),
                _ => (to, Next::Done(Err(unproven_removal(what, id)))),
            }
        },
    }
}

/// Whether a firewall with that id is among those listed.
pub open spec fn has_group(groups: Seq<VultrFirewallGroup>, id: Seq<char>) -> bool {
    exists|i: int| 0 <= i < groups.len() && #[trigger] groups[i].id@ == id
}

/// Whether a firewall with that id is among those listed.
pub fn lists_group(groups: &Vec<VultrFirewallGroup>, id: &str) -> (r: bool)
    ensures
        r == has_group(groups@, id@),
{
    let mut i: usize = 0;
    while i < groups.len()
        invariant
            i <= groups@.len(),
            forall|k: int| 0 <= k < i ==> #[trigger] groups@[k].id@ != id@,
        decreases groups@.len() - i,
    {
        if same(groups[i].id.as_str(), id) {
            return true;
        }
        i = i + 1;
    }
    false
}

/// Whether a key with that id is among those listed.
pub open spec fn has_key(keys: Seq<VultrSshKey>, id: Seq<char>) -> bool {
    exists|i: int| 0 <= i < keys.len() && #[trigger] keys[i].id@ == id
}

/// Whether a key with that id is among those listed.
pub fn lists_key(keys: &Vec<VultrSshKey>, id: &str) -> (r: bool)
    ensures
        r == has_key(keys@, id@),
{
    let mut i: usize = 0;
    while i < keys.len()
        invariant
            i <= keys@.len(),
            forall|k: int| 0 <= k < i ==> #[trigger] keys@[k].id@ != id@,
        decreases keys@.len() - i,
    {
        if same(keys[i].id.as_str(), id) {
            return true;
        }
        i = i + 1;
    }
    false
}

/// Access to the keys, firewalls and images of a provider account.
pub struct VultrSupportApiProvider {
    api_key: String,
}

impl VultrSupportApiProvider {
    pub closed spec fn key(self) -> String {
        self.api_key
    }

    pub fn new(api_key: String) -> (r: Result<VultrSupportApiProvider, String>)
        ensures
            match r {
                Ok(p) => !blank(api_key@) && p.key() == api_key,
                Err(e) => blank(api_key@) && e@ == "VULTR_API_KEY must be non-empty"@,
            },
    {
        if is_blank(api_key.as_str()) {
            return Err("VULTR_API_KEY must be non-empty".to_owned());
        }
        Ok(VultrSupportApiProvider { api_key })
    }

    pub fn api_key(&self) -> (r: &str)
        ensures
            r@ == self.key()@,
    {
        self.api_key.as_str()
    }
}

/// The environment's key is found exactly where one key alone has its name, and
/// that one is the controller's; two such keys, or another one under the name,
/// stand in the way.
pub proof fn law_the_managed_key_is_the_only_one_of_its_name(
    keys: Vec<VultrSshKey>,
    name: &str,
    material: &str,
    r: Result<SshKeyObservation, String>,
    k: int,
    read: Result<String, String>,
)
    requires
        call_ensures(observe_managed_ssh_key, (&keys, name, material), r),
        0 <= k < keys@.len(),
        keys@[k].name@ == name@,
        key_material(keys@[k].ssh_key@) == match read {
            Ok(m) => Ok::<Seq<char>, Seq<char>>(m@),
            Err(e) => Err::<Seq<char>, Seq<char>>(e@),
        },
    ensures
        !(r matches Ok(SshKeyObservation::Absent)),
        r matches Ok(SshKeyObservation::Exact(key)) ==> (read matches Ok(m) && m@ == material@)
            && key.id@ == keys@[k].id@ && key.name@ == name@,
        (forall|j: int| 0 <= j < keys@.len() && j != k ==> (#[trigger] keys@[j]).name@ != name@)
            && (read matches Ok(m) && m@ == material@) ==> (r matches Ok(
            SshKeyObservation::Exact(_),
        )),
{
    let wanted = named(name@);
    let hits = keys@.filter(wanted);
    lemma_filter_members(keys@, wanted);
    assert(keys@.contains(keys@[k]));
    assert(hits.contains(keys@[k]));
    if hits.len() == 1 {
        assert(hits[0] == keys@[k]);
    }
    if forall|j: int| 0 <= j < keys@.len() && j != k ==> (#[trigger] keys@[j]).name@ != name@ {
        assert forall|j: int| 0 <= j < keys@.len() && j != k implies !wanted(
            #[trigger] keys@[j],
        ) by {}
        lemma_one_key(keys@, wanted, k);
    }
}

proof fn lemma_one_key(s: Seq<VultrSshKey>, wanted: spec_fn(VultrSshKey) -> bool, k: int)
    requires
        0 <= k < s.len(),
        wanted(s[k]),
        forall|j: int| 0 <= j < s.len() && j != k ==> !wanted(#[trigger] s[j]),
    ensures
        s.filter(wanted).len() == 1,
    decreases s.len(),
{
    reveal(Seq::filter);
    let head = s.drop_last();
    if k == s.len() - 1 {
        lemma_filter_members(head, wanted);
        assert forall|i: int| 0 <= i < head.len() implies !wanted(#[trigger] head[i]) by {
            assert(head[i] == s[i]);
        }
    } else {
        assert(!wanted(s[s.len() - 1]));
        assert forall|j: int| 0 <= j < head.len() && j != k implies !wanted(#[trigger] head[j]) by {
            assert(head[j] == s[j]);
        }
        lemma_one_key(head, wanted, k);
    }
}

/// A key is made only where none has its name, and it counts as made only once
/// a listing shows it.
pub proof fn law_a_key_is_made_only_where_there_is_none(
    state: KeyResolution,
    attempts: usize,
    keys: Vec<VultrSshKey>,
    r: (KeyResolution, Next<ResolvedSshKey>),
)
    requires
        state.phase is Before || state.phase is Watching,
        call_ensures(
            KeyResolution::resolve_managed_ssh_key,
            (state, attempts, &Ok::<Vec<VultrSshKey>, ProviderFault>(keys)),
            r,
        ),
    ensures
        r.1 is Change <==> state.phase is Before && forall|i: int|
            0 <= i < keys@.len() ==> (#[trigger] keys@[i]).name@ != state.name@,
        r.1 matches Next::Done(Ok(key)) ==> exists|i: int|
            0 <= i < keys@.len() && (#[trigger] keys@[i]).id == key.id && keys@[i].name@
                == state.name@,
        r.0.name == state.name && r.0.public_key == state.public_key && r.0.material
            == state.material,
{
    let wanted = named(state.name@);
    let hits = keys@.filter(wanted);
    lemma_filter_members(keys@, wanted);
    if hits.len() == 0 {
        assert forall|i: int| 0 <= i < keys@.len() implies (#[trigger] keys@[i]).name@
            != state.name@ by {
            assert(!wanted(keys@[i]));
        }
    } else {
        assert(hits.contains(hits[0]));
        assert(keys@.contains(hits[0]));
        assert(wanted(hits[0]));
        let i = choose|i: int| 0 <= i < keys@.len() && keys@[i] == hits[0];
        assert(keys@[i].name@ == state.name@);
        assert(keys@[i].id == hits[0].id);
    }
}

/// The key that an environment gets is named for it and for no other, is the
/// whole canonical key, and is known by its material.
pub proof fn law_environments_have_keys_of_their_own(
    one: &str,
    other: &str,
    canonical: &str,
    a: KeyResolution,
    b: KeyResolution,
    request: SshKeyRequest,
)
    requires
        call_ensures(KeyResolution::new, (one, canonical), Ok::<KeyResolution, String>(a)),
        call_ensures(KeyResolution::new, (other, canonical), Ok::<KeyResolution, String>(b)),
        call_ensures(KeyResolution::request, (&a,), request),
    ensures
        a.name@ == b.name@ <==> one@ == other@,
        request.name@ == "singbox-"@ + one@ + "-ops"@,
        words(request.public_key@) == words(canonical@),
        a.material@ == words(canonical@)[0] + " "@ + words(canonical@)[1],
        words(canonical@)[0] == "ssh-ed25519"@,
{
    law_trimming_keeps_words(canonical@);
    let n = "singbox-"@.len() as int;
    let m = "-ops"@.len() as int;
    if a.name@ == b.name@ {
        assert(a.name@.subrange(n, a.name@.len() - m) =~= one@);
        assert(b.name@.subrange(n, b.name@.len() - m) =~= other@);
    }
}

/// A key is read exactly if it is an Ed25519 key whose second word is base64,
/// and what follows that word does not matter.
pub proof fn law_keys_are_known_by_two_words(key: &str, r: Result<String, String>)
    requires
        call_ensures(public_key_material, (key,), r),
    ensures
        r is Ok <==> words(key@).len() >= 2 && words(key@)[0] == "ssh-ed25519"@ && forall|i: int|
            0 <= i < words(key@)[1].len() ==> {
                let c = #[trigger] words(key@)[1][i];
                ('0' <= c <= '9') || ('a' <= c <= 'z') || ('A' <= c <= 'Z') || c == '+' || c == '/'
                    || c == '='
            },
        r matches Ok(m) ==> m@ == words(key@)[0] + " "@ + words(key@)[1],
{
    let w = words(key@);
    if w.len() >= 2 {
        if base64(w[1]) {
            assert forall|i: int| 0 <= i < w[1].len() implies ({
                let c = #[trigger] w[1][i];
                ('0' <= c <= '9') || ('a' <= c <= 'z') || ('A' <= c <= 'Z') || c == '+' || c == '/'
                    || c == '='
            }) by {
                assert(is_base64(w[1][i]));
            }
        } else {
            let i = choose|i: int| 0 <= i < w[1].len() && !is_base64(#[trigger] w[1][i]);
            assert(!is_base64(w[1][i]));
        }
    }
}

/// A profile's firewall is made only where none has its description, counts as
/// there only once a listing shows it, and is never chosen among several.
pub proof fn law_a_firewall_is_made_only_where_there_is_none(
    state: GroupResolution,
    attempts: usize,
    groups: Vec<VultrFirewallGroup>,
    r: (GroupResolution, Next<VultrFirewallGroup>),
)
    requires
        state.phase is Before || state.phase is Watching,
        call_ensures(
            GroupResolution::ensure_firewall_profile,
            (state, attempts, &Ok::<Vec<VultrFirewallGroup>, ProviderFault>(groups)),
            r,
        ),
    ensures
        r.1 is Change <==> state.phase is Before && forall|i: int|
            0 <= i < groups@.len() ==> (#[trigger] groups@[i]).description@ != state.description@,
        r.1 matches Next::Done(Ok(group)) ==> group.description@ == state.description@
            && groups@.contains(group) && forall|i: int|
            0 <= i < groups@.len() && (#[trigger] groups@[i]).description@ == state.description@
                ==> groups@[i] == group,
        r.0.description == state.description,
{
    let wanted = described(state.description@);
    let hits = groups@.filter(wanted);
    lemma_filter_members(groups@, wanted);
    if hits.len() == 0 {
        assert forall|i: int| 0 <= i < groups@.len() implies (#[trigger] groups@[i]).description@
            != state.description@ by {
            assert(!wanted(groups@[i]));
        }
    } else {
        assert(hits.contains(hits[0]));
        assert(groups@.contains(hits[0]));
        assert(wanted(hits[0]));
        let i = choose|i: int| 0 <= i < groups@.len() && groups@[i] == hits[0];
        assert(groups@[i].description@ == state.description@);
        if hits.len() == 1 {
            assert forall|i: int|
                0 <= i < groups@.len() && (#[trigger] groups@[i]).description@
                    == state.description@ implies groups@[i] == hits[0] by {
                assert(wanted(groups@[i]));
                assert(groups@.contains(groups@[i]));
                assert(hits.contains(groups@[i]));
            }
        }
    }
}

/// A shared resource counts as removed exactly where the provider said that it
/// is not there, or a look no longer shows it.
pub proof fn law_shared_resources_are_gone_once_not_seen(
    what: Shared,
    id: &str,
    phase: Phase,
    attempts: usize,
    fault: Option<ProviderFault>,
    still_there: Result<bool, ProviderFault>,
    replied: (Phase, Next<()>),
    looked: (Phase, Next<()>),
)
    requires
        phase is Watching,
        call_ensures(removal_replied, (what, id, attempts, &fault), replied),
        call_ensures(removal_looked, (what, id, phase, attempts, &still_there), looked),
    ensures
        replied.1 matches Next::Done(Ok(_)) <==> (fault matches Some(f) && f.not_found),
        looked.1 matches Next::Done(Ok(_)) <==> still_there == Ok::<bool, ProviderFault>(false),
        !(replied.1 is Change) && !(looked.1 is Change),
        still_there is Err ==> (looked.1 matches Next::Done(Err(_))),
{
}

/// A resource is listed exactly where its id is.
pub proof fn law_resources_are_listed_by_their_ids(
    groups: Vec<VultrFirewallGroup>,
    keys: Vec<VultrSshKey>,
    id: &str,
    group: bool,
    key: bool,
)
    requires
        call_ensures(lists_group, (&groups, id), group),
        call_ensures(lists_key, (&keys, id), key),
    ensures
        group <==> exists|i: int| 0 <= i < groups@.len() && (#[trigger] groups@[i]).id@ == id@,
        key <==> exists|i: int| 0 <= i < keys@.len() && (#[trigger] keys@[i]).id@ == id@,
{
    if group {
        let i = choose|i: int| 0 <= i < groups@.len() && #[trigger] groups@[i].id@ == id@;
        assert(groups@[i].id@ == id@);
    }
    if key {
        let i = choose|i: int| 0 <= i < keys@.len() && #[trigger] keys@[i].id@ == id@;
        assert(keys@[i].id@ == id@);
    }
}

/// The firewall group of a description is the one that bears it; without one there
/// is none.
pub proof fn law_a_group_is_found_by_its_description(
    groups: Vec<VultrFirewallGroup>,
    description: &str,
    r: Result<Option<VultrFirewallGroup>, String>,
    i: int,
)
    requires
        call_ensures(
            observe_firewall_group,
            (&Ok::<Vec<VultrFirewallGroup>, ProviderFault>(groups), description),
            r,
        ),
        0 <= i < groups@.len(),
    ensures
        r matches Ok(Some(g)) ==> groups@.contains(g) && g.description@ == description@,
        groups@[i].description@ == description@ ==> !(r matches Ok(None)),
        r matches Ok(Some(g)) ==> (groups@[i].description@ == description@ ==> g == groups@[i]),
        r is Err ==> exists|a: int|
            0 <= a < groups@.len() && (#[trigger] groups@[a]).description@ == description@,
{
    let wanted = described(description@);
    let hits = groups@.filter(wanted);
    lemma_filter_members(groups@, wanted);
    if hits.len() > 0 {
        assert(hits.contains(hits[0]));
        let a = choose|a: int| 0 <= a < groups@.len() && groups@[a] == hits[0];
        assert(groups@[a].description@ == description@);
    }
    if groups@[i].description@ == description@ {
        assert(groups@.contains(groups@[i]));
        assert(hits.contains(groups@[i]));
    }
}

/// A listing that failed shows no group.
pub proof fn law_no_group_is_found_unseen(
    fault: ProviderFault,
    description: &str,
    r: Result<Option<VultrFirewallGroup>, String>,
)
    requires
        call_ensures(
            observe_firewall_group,
            (&Err::<Vec<VultrFirewallGroup>, ProviderFault>(fault), description),
            r,
        ),
    ensures
        r matches Err(e) && e@ == fault.message@,
{
}

} // verus!
