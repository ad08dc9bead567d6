//! Bringing a new machine under strict SSH trust: its first configuration, the
//! waits for it, and the upkeep of its host certificate.
use crate::once::{
    Ask, Ending, Next, Phase, ProviderFault, Reply, Sight, carries, creation_reply, on_reply,
    read_creation,
};
use crate::provider::VultrInstance;
use crate::text::{
    after_prefix, begins_with, blank, bool_word, cat10, cat2, cat3, cat4, cat5, cat6, cat7,
    chars_of, contains, decimal, fault_words, first_at, has_part, is_blank, is_digit,
    lemma_digits_of_decimal, lemma_first_at_unique, lines, number, number_value, parse_number,
    replace_first, replaced_first, same, split_lines, split_words, stands_at, starts_with,
    strip_prefix, texts, trim, trimmed, word_of_bool, words,
};
use vstd::prelude::*;
use vstd::string::*;
use vstd::utf8::*;

verus! {

/// The user that operates a machine.
pub const DEFAULT_OPS_USER: &'static str = "singbox-ops";

/// What stands in a machine's user data once its secrets are gone.
pub const SCRUBBED_USER_DATA: &'static str =
    "#cloud-config\n# sing-box bootstrap material scrubbed after strict SSH acceptance\n";

/// What runs on the machine to accept it.
pub const ACCEPTANCE_COMMAND: &'static str =
    "test -f /var/lib/singbox-lifecycle/host-bootstrap && sudo sshd -t";

/// What runs on the machine to show its host certificate.
pub const SHOW_CERTIFICATE_COMMAND: &'static str =
    "sudo ssh-keygen -L -f /etc/ssh/ssh_host_ed25519_key-cert.pub";

/// What runs on the machine to show its host key.
pub const SHOW_HOST_KEY_COMMAND: &'static str = "sudo cat /etc/ssh/ssh_host_ed25519_key.pub";

/// What runs on the machine to take a new host certificate from its input.
pub const INSTALL_CERTIFICATE_COMMAND: &'static str =
    "sudo tee /etc/ssh/ssh_host_ed25519_key-cert.pub >/dev/null && sudo chmod 0644 /etc/ssh/ssh_host_ed25519_key-cert.pub && sudo sshd -t && sudo systemctl reload ssh";

/// What runs on the machine to check its host certificate.
pub const CHECK_CERTIFICATE_COMMAND: &'static str =
    "sudo ssh-keygen -L -f /etc/ssh/ssh_host_ed25519_key-cert.pub >/dev/null";

/// The first configuration of a machine.
pub struct StrictBootstrapBundle {
    pub cloud_init: String,
}

/// What can be done to a machine's power.
#[derive(Debug, Clone, Copy, PartialEq, Eq, Structural)]
pub enum InstanceAction {
    Start,
    Halt,
    Reboot,
}

/// The word for an action.
pub open spec fn action_word(action: InstanceAction) -> Seq<char> {
    match action {
        InstanceAction::Start => "start"@,
        InstanceAction::Halt => "halt"@,
        InstanceAction::Reboot => "reboot"@,
    }
}

/// Whether some action goes by that word.
pub open spec fn is_action_word(s: Seq<char>) -> bool {
    s == "start"@ || s == "halt"@ || s == "reboot"@
}

/// The power status that an action aims at, where it aims at one.
pub open spec fn desired_power(action: InstanceAction) -> Option<Seq<char>> {
    match action {
        InstanceAction::Start => Some("running"@),
        InstanceAction::Halt => Some("stopped"@),
        InstanceAction::Reboot => None,
    }
}

impl InstanceAction {
    /// Reads the word for an action.
    pub fn parse(value: &str) -> (r: Result<InstanceAction, String>)
        ensures
            match r {
                Ok(action) => action_word(action) == value@,
                Err(e) => !is_action_word(value@) && e@ == "unsupported instance action "@ + value@
                    + "; expected start, halt, or reboot"@,
            },
    {
        if same(value, "start") {
            Ok(InstanceAction::Start)
        } else if same(value, "halt") {
            Ok(InstanceAction::Halt)
        } else if same(value, "reboot") {
            Ok(InstanceAction::Reboot)
        } else {
            Err(
                cat3(
                    "unsupported instance action ",
                    value,
                    "; expected start, halt, or reboot",
                ),
            )
        }
    }

    /// The word for the action.
    pub fn as_str(self) -> (r: &'static str)
        ensures
            r@ == action_word(self),
    {
        match self {
            InstanceAction::Start => "start",
            InstanceAction::Halt => "halt",
            InstanceAction::Reboot => "reboot",
        }
    }

    /// The power status that the action aims at, where it aims at one.
    pub fn desired_power_status(self) -> (r: Option<&'static str>)
        ensures
            r.deep_view() == desired_power(self),
    {
        match self {
            InstanceAction::Start => Some("running"),
            InstanceAction::Halt => Some("stopped"),
            InstanceAction::Reboot => None,
        }
    }
}

/// The words for the actions differ, so that reading a word gives back the
/// action it was written for.
pub proof fn law_action_words_read_back(a: InstanceAction, b: InstanceAction)
    requires
        action_word(a) == action_word(b),
    ensures
        a == b,
{
    reveal_strlit("start");
    reveal_strlit("halt");
    reveal_strlit("reboot");
    assert("start"@.len() == 5 && "halt"@.len() == 4 && "reboot"@.len() == 6);
}

/// Access to the power and the user data of a provider account's machines.
pub struct VultrOperationalApiProvider {
    api_key: String,
}

impl VultrOperationalApiProvider {
    pub closed spec fn key(self) -> String {
        self.api_key
    }

    pub fn new(api_key: String) -> (r: Result<VultrOperationalApiProvider, String>)
        ensures
            match r {
                Ok(p) => !blank(api_key@) && p.key() == api_key,
                Err(e) => blank(api_key@) && e@ == "VULTR_API_KEY must be non-empty"@,
            },
    {
        if is_blank(api_key.as_str()) {
            return Err("VULTR_API_KEY must be non-empty".to_owned());
        }
        Ok(VultrOperationalApiProvider { api_key })
    }

    pub fn api_key(&self) -> (r: &str)
        ensures
            r@ == self.key()@,
    {
        self.api_key.as_str()
    }
}

/// Whether a machine is up and reachable as far as the provider knows.
pub open spec fn provider_ready(i: VultrInstance) -> bool {
    &&& i.status@ == "active"@
    &&& i.power_status@ == "running"@
    &&& i.server_status@ == "ok"@
    &&& !blank(i.main_ip@)
}

/// Whether a machine is up and reachable as far as the provider knows.
pub fn is_provider_ready(i: &VultrInstance) -> (r: bool)
    ensures
        r == provider_ready(*i),
{
    same(i.status.as_str(), "active") && same(i.power_status.as_str(), "running") && same(
        i.server_status.as_str(),
        "ok",
    ) && !is_blank(i.main_ip.as_str())
}

/// The error for a machine that did not come up.
pub open spec fn not_ready(i: VultrInstance) -> Seq<char> {
    "instance "@ + i.id@ + " did not become provider-ready: status="@ + i.status@
        + " power_status="@ + i.power_status@ + " server_status="@ + i.server_status@
        + " main_ip_present="@ + bool_word(!blank(i.main_ip@))
}

/// What a wait asks for.
#[derive(Debug, PartialEq, Eq)]
pub enum WaitNext<T> {
    /// Look again after a pause.
    Again,
    Done(Result<T, String>),
}

/// What look number `seen` (from zero) of a wait for a machine leads to.
pub open spec fn readiness(
    attempts: usize,
    seen: usize,
    look: Result<VultrInstance, ProviderFault>,
    next: WaitNext<VultrInstance>,
) -> bool {
    match look {
        Err(fault) => next matches WaitNext::Done(Err(e)) && e@ == fault.message@,
        Ok(i) => if provider_ready(i) {
            next == WaitNext::Done(Ok::<VultrInstance, String>(i))
        } else if seen + 1 < attempts {
            next is Again
        } else {
            next matches WaitNext::Done(Err(e)) && e@ == not_ready(i)
        },
    }
}

/// Checks that a wait for a machine looks at it at all.
pub fn check_readiness_attempts(attempts: usize) -> (r: Result<(), String>)
    ensures
        match r {
            Ok(()) => attempts > 0,
            Err(e) => attempts == 0 && e@
                == "provider readiness attempts must be greater than zero"@,
        },
{
    if attempts == 0 {
        Err("provider readiness attempts must be greater than zero".to_owned())
    } else {
        Ok(())
    }
}

/// Takes look number `seen` (from zero) of a wait for a machine into account.
pub fn wait_provider_ready(
    attempts: usize,
    seen: usize,
    look: Result<VultrInstance, ProviderFault>,
) -> (r: WaitNext<VultrInstance>)
    ensures
        readiness(attempts, seen, look, r),
{
    match look {
        Err(fault) => WaitNext::Done(Err(fault.message)),
        Ok(i) => {
            if is_provider_ready(&i) {
                WaitNext::Done(Ok(i))
            } else if seen < attempts && seen + 1 < attempts {
                WaitNext::Again
            } else {
                WaitNext::Done(
                    Err(
                        cat10(
                            "instance ",
                            i.id.as_str(),
                            " did not become provider-ready: status=",
                            i.status.as_str(),
                            " power_status=",
                            i.power_status.as_str(),
                            " server_status=",
                            i.server_status.as_str(),
                            " main_ip_present=",
                            word_of_bool(!is_blank(i.main_ip.as_str())),
                        ),
                    ),
                )
            }
        },
    }
}

/// Whether a machine shows that an action took effect. A reboot leaves a
/// machine running as it was, so that only a reboot that the provider accepted
/// can be told from one that never happened.
pub open spec fn action_took_effect(
    action: InstanceAction,
    reply: Reply,
    i: VultrInstance,
) -> bool {
    match desired_power(action) {
        Some(expected) => i.power_status@ == expected,
        None => reply is Accepted && i.power_status@ == "running"@ && i.status@ == "active"@
            && i.server_status@ == "ok"@,
    }
}

/// What a look shows of an action.
pub open spec fn action_sight(
    action: InstanceAction,
    reply: Reply,
    look: Result<VultrInstance, ProviderFault>,
) -> Sight {
    match look {
        Err(_) => Sight::Broken,
        Ok(i) => if action_took_effect(action, reply, i) {
            Sight::Reached
        } else {
            Sight::Pending
        },
    }
}

/// The error for an action that no look proved.
pub open spec fn action_unproven(
    action: InstanceAction,
    instance_id: Seq<char>,
    reply: Reply,
    i: VultrInstance,
) -> Seq<char> {
    if action is Reboot && !(reply is Accepted) {
        "reboot outcome for instance "@ + instance_id
            + " is uncertain; running state alone cannot prove that reboot occurred, so mutation was not replayed"@
    } else {
        action_word(action) + " for instance "@ + instance_id
            + " did not converge after bounded re-observation: power_status="@ + i.power_status@
            + " status="@ + i.status@ + " server_status="@ + i.server_status@
            + "; mutation was not replayed"@
    }
}

/// Checks that an action is looked at afterwards.
pub fn check_action_attempts(attempts: usize) -> (r: Result<(), String>)
    ensures
        match r {
            Ok(()) => attempts > 0,
            Err(e) => attempts == 0 && e@
                == "instance action re-observation attempts must be greater than zero"@,
        },
{
    if attempts == 0 {
        Err("instance action re-observation attempts must be greater than zero".to_owned())
    } else {
        Ok(())
    }
}

/// Takes the reply to an action into account.
pub fn action_replied(attempts: usize, fault: &Option<ProviderFault>) -> (r: (
    Phase,
    Next<VultrInstance>,
))
    requires
        attempts > 0,
    ensures
        ({
            let (phase, ask) = on_reply(attempts, creation_reply(*fault));
            &&& r.0 == phase
            &&& carries(ask, r.1)
            &&& r.1 matches Next::Done(result) ==> (result matches Err(e) && fault matches Some(f)
                && e@ == f.message@)
        }),
{
    let (phase, ask): (Phase, Ask) = Phase::Asked.reply(attempts, read_creation(fault));
    match ask {
        Ask::Look { pause } => (phase, Next::Look { pause }),
        _ => match fault {
            Some(f) => (phase, Next::Done(Err(f.message.clone()))),
            None => (phase, Next::Change),
        },
    }
}

/// Takes a look after an action into account.
pub fn apply_instance_action(
    phase: Phase,
    attempts: usize,
    action: InstanceAction,
    instance_id: &str,
    look: Result<VultrInstance, ProviderFault>,
) -> (r: (Phase, Next<VultrInstance>))
    requires
        phase is Watching,
    ensures
        ({
            let reply = phase->reply;
            let (to, ask) = phase.looked(attempts, action_sight(action, reply, look));
            &&& r.0 == to
            &&& carries(ask, r.1)
            &&& r.1 matches Next::Done(result) ==> match look {
                Err(fault) => result matches Err(e) && e@ == fault.message@,
                Ok(i) => if action_took_effect(action, reply, i) {
                    result == Ok::<VultrInstance, String>(i)
                } else {
                    result matches Err(e) && e@ == action_unproven(
                        action,
                        instance_id@,
                        reply,
                        i,
                    )
                },
            }
        }),
{
    let reply: Reply = match phase {
        Phase::Watching { reply, .. } => reply,
        _ => Reply::Accepted,
    };
    let accepted: bool = match reply {
        Reply::Accepted => true,
        _ => false,
    };
    let i: VultrInstance = match look {
        Err(fault) => {
            let (to, _): (Phase, Ask) = phase.look(attempts, Sight::Broken);
            return (to, Next::Done(Err(fault.message)));
        },
        Ok(i) => i,
    };
    let done: bool = match action {
        InstanceAction::Start => same(i.power_status.as_str(), "running"),
        InstanceAction::Halt => same(i.power_status.as_str(), "stopped"),
        InstanceAction::Reboot => accepted && same(i.power_status.as_str(), "running") && same(
            i.status.as_str(),
            "active",
        ) && same(i.server_status.as_str(), "ok"),
    };
    if done {
        let (to, _): (Phase, Ask) = phase.look(attempts, Sight::Reached);
        return (to, Next::Done(Ok(i)));
    }
    let (to, ask): (Phase, Ask) = phase.look(attempts, Sight::Pending);
    match ask {
        Ask::Look { pause } => (to, Next::Look { pause }),
        _ => {
            let reboot: bool = match action {
                InstanceAction::Reboot => true,
                _ => false,
            };
            let e: String = if reboot && !accepted {
                cat3(
                    "reboot outcome for instance ",
                    instance_id,
                    " is uncertain; running state alone cannot prove that reboot occurred, so mutation was not replayed",
                )
            } else {
                cat10(
                    action.as_str(),
                    " for instance ",
                    instance_id,
                    " did not converge after bounded re-observation: power_status=",
                    i.power_status.as_str(),
                    " status=",
                    i.status.as_str(),
                    " server_status=",
                    i.server_status.as_str(),
                    "; mutation was not replayed",
                )
            };
            (to, Next::Done(Err(e)))
        },
    }
}

/// A reboot whose outcome is open is never taken for done.
pub proof fn law_uncertain_reboot_is_never_proved(i: VultrInstance)
    ensures
        !action_took_effect(InstanceAction::Reboot, Reply::Uncertain, i),
{
}

/// The scrubbing of a machine's user data.
#[derive(Debug, PartialEq, Eq)]
pub struct Scrub {
    pub phase: Phase,
    /// What the provider said, where the outcome is open.
    pub complaint: String,
}

/// A reading of a machine's user data, or why there is none.
pub type UserData = Result<String, ProviderFault>;

/// What a reading of the user data shows.
pub open spec fn scrub_sight(data: UserData) -> Sight {
    match data {
        Err(_) => Sight::Broken,
        Ok(t) => if t@ == SCRUBBED_USER_DATA@ {
            Sight::Reached
        } else {
            Sight::Pending
        },
    }
}

/// The error for a scrubbing that no reading proved.
pub open spec fn scrub_unproven(instance_id: Seq<char>, reply: Reply, complaint: Seq<char>) -> Seq<
    char,
> {
    match reply {
        Reply::Uncertain => complaint + "; user-data scrub was not observed for instance "@
            + instance_id + " and PATCH was not replayed"@,
        _ => "user-data PATCH for instance "@ + instance_id
            + " was accepted but scrub state was not observed; PATCH was not replayed"@,
    }
}

fn unproven_scrub(instance_id: &str, reply: Reply, complaint: &str) -> (r: String)
    ensures
        r@ == scrub_unproven(instance_id@, reply, complaint@),
{
    match reply {
        Reply::Uncertain => cat4(
            complaint,
            "; user-data scrub was not observed for instance ",
            instance_id,
            " and PATCH was not replayed",
        ),
        _ => cat3(
            "user-data PATCH for instance ",
            instance_id,
            " was accepted but scrub state was not observed; PATCH was not replayed",
        ),
    }
}

impl Scrub {
    /// Begins; the data has to be read afterwards at least once.
    pub fn new(attempts: usize) -> (r: Result<Scrub, String>)
        ensures
            match r {
                Ok(s) => attempts > 0 && s.phase is Before && s.complaint@.len() == 0,
                Err(e) => attempts == 0 && e@
                    == "user-data re-observation attempts must be greater than zero"@,
            },
    {
        if attempts == 0 {
            Err("user-data re-observation attempts must be greater than zero".to_owned())
        } else {
            Ok(Scrub { phase: Phase::Before, complaint: String::new() })
        }
    }

    /// Takes a reading into account. The result says whether the data was
    /// changed.
    pub fn scrub_user_data(self, attempts: usize, instance_id: &str, data: &UserData) -> (r: (
        Scrub,
        Next<bool>,
    ))
        requires
            self.phase.wants_look(),
        ensures
            ({
                let (phase, ask) = self.phase.looked(attempts, scrub_sight(*data));
                &&& r.0 == (Scrub { phase, ..self })
                &&& carries(ask, r.1)
                &&& r.1 matches Next::Done(result) ==> match ask->Finish_0 {
                    Ending::AlreadyThere => result == Ok::<bool, String>(false),
                    Ending::Observed => result == Ok::<bool, String>(true),
                    Ending::Unproven { reply } => result matches Err(e) && e@ == scrub_unproven(
                        instance_id@,
                        reply,
                        self.complaint@,
                    ),
                    _ => result matches Err(e) && data matches Err(fault) && e@ == fault.message@,
                }
            }),
    {
        let text: &String = match data {
            Err(fault) => {
                let (phase, _): (Phase, Ask) = self.phase.look(attempts, Sight::Broken);
                let e: String = fault.message.clone();
                return (Scrub { phase, ..self }, Next::Done(Err(e)));
            },
            Ok(text) => text,
        };
        let sight: Sight = if same(text.as_str(), SCRUBBED_USER_DATA) {
            Sight::Reached
        } else {
            Sight::Pending
        };
        let (phase, ask): (Phase, Ask) = self.phase.look(attempts, sight);
        let next: Next<bool> = match ask {
            Ask::Change => Next::Change,
            Ask::Look { pause } => Next::Look { pause },
            Ask::Finish(Ending::AlreadyThere) => Next::Done(Ok(false)),
            Ask::Finish(Ending::Observed) => Next::Done(Ok(true)),
            Ask::Finish(Ending::Unproven { reply }) => Next::Done(
                Err(unproven_scrub(instance_id, reply, self.complaint.as_str())),
            ),
            Ask::Finish(_) => Next::Change,
        };
        (Scrub { phase, ..self }, next)
    }

    /// Takes the reply to the request into account.
    pub fn replied(self, attempts: usize, fault: &Option<ProviderFault>) -> (r: (
        Scrub,
        Next<bool>,
    ))
        requires
            self.phase is Asked,
            attempts > 0,
        ensures
            ({
                let (phase, ask) = on_reply(attempts, creation_reply(*fault));
                &&& r.0.phase == phase
                &&& r.0.complaint@ == match *fault {
                    Some(f) => f.message@,
                    None => self.complaint@,
                }
                &&& carries(ask, r.1)
                &&& r.1 matches Next::Done(result) ==> (result matches Err(e) && fault matches Some(
                    f,
                ) && e@ == f.message@)
            }),
    {
        let (phase, ask): (Phase, Ask) = self.phase.reply(attempts, read_creation(fault));
        match fault {
            Some(f) => {
                let next: Next<bool> = match ask {
                    Ask::Look { pause } => Next::Look { pause },
                    _ => Next::Done(Err(f.message.clone())),
                };
                (Scrub { phase, complaint: f.message.clone() }, next)
            },
            None => (Scrub { phase, complaint: self.complaint }, Next::Look { pause: false }),
        }
    }
}

/// User data that is already scrubbed is left alone.
pub proof fn law_scrubbed_data_is_not_touched(attempts: usize, text: String)
    requires
        text@ == SCRUBBED_USER_DATA@,
    ensures
        Phase::Before.looked(attempts, scrub_sight(Ok(text))) == (
            Phase::Over,
            Ask::Finish(Ending::AlreadyThere),
        ),
{
}

/// Whether `value` may name a machine in SSH trust.
pub open spec fn strict_hostname(value: Seq<char>) -> bool {
    &&& 0 < value.len() <= 253
    &&& forall|i: int|
        0 <= i < value.len() ==> crate::firewall::is_alphanumeric(#[trigger] value[i]) || value[i]
            == '-' || value[i] == '.'
}

/// The error for a name that may not.
pub open spec fn bad_hostname(value: Seq<char>) -> Seq<char> {
    "invalid strict SSH logical hostname "@ + value
}

/// Checks the name of a machine: letters, digits, hyphens and dots, at most
/// 253 of them.
pub fn validate_hostname(value: &str) -> (r: Result<(), String>)
    ensures
        match r {
            Ok(()) => strict_hostname(value@),
            Err(e) => !strict_hostname(value@) && e@ == bad_hostname(value@),
        },
{
    let chars: Vec<char> = chars_of(value);
    let mut ok: bool = chars.len() > 0 && chars.len() <= 253;
    let mut i: usize = 0;
    while i < chars.len()
        invariant
            i <= chars@.len(),
            chars@ == value@,
            ok <==> 0 < value@.len() <= 253 && forall|k: int|
                0 <= k < i ==> crate::firewall::is_alphanumeric(#[trigger] value@[k]) || value@[k]
                    == '-' || value@[k] == '.',
        decreases chars@.len() - i,
    {
        let c: char = chars[i];
        assert(value@[i as int] == c);
        if !(('0' <= c && c <= '9') || ('a' <= c && c <= 'z') || ('A' <= c && c <= 'Z') || c == '-'
            || c == '.') {
            ok = false;
        }
        i = i + 1;
    }
    if ok {
        Ok(())
    } else {
        Err(cat2("invalid strict SSH logical hostname ", value))
    }
}

/// The part of the operator's public key that trust rests on.
pub open spec fn trust_material(public_key: Seq<char>) -> Result<Seq<char>, Seq<char>> {
    let w = words(public_key);
    if w.len() == 0 {
        Err("canonical SSH public key is empty"@)
    } else if w.len() == 1 {
        Err("canonical SSH public key has no key material"@)
    } else if w[0] != "ssh-ed25519"@ {
        Err("canonical SSH public key must be ssh-ed25519, got "@ + w[0])
    } else {
        Ok(w[0] + " "@ + w[1])
    }
}

/// The part of the operator's public key that trust rests on.
pub fn public_key_material(public_key: &str) -> (r: Result<String, String>)
    ensures
        match r {
            Ok(m) => trust_material(public_key@) == Ok::<Seq<char>, Seq<char>>(m@),
            Err(e) => trust_material(public_key@) == Err::<Seq<char>, Seq<char>>(e@),
        },
{
    let fields: Vec<String> = split_words(public_key);
    let ghost w = words(public_key@);
    assert(w.len() == fields@.len());
    if fields.len() == 0 {
        return Err("canonical SSH public key is empty".to_owned());
    }
    if fields.len() == 1 {
        return Err("canonical SSH public key has no key material".to_owned());
    }
    assert(w[0] == fields@[0]@ && w[1] == fields@[1]@);
    if !same(fields[0].as_str(), "ssh-ed25519") {
        return Err(
            cat2("canonical SSH public key must be ssh-ed25519, got ", fields[0].as_str()),
        );
    }
    Ok(cat3(fields[0].as_str(), " ", fields[1].as_str()))
}

/// The line that makes the operator's key the authority for a machine's host
/// certificate, or else why there is none.
pub open spec fn trust_line(hostname: Seq<char>, public_key: Seq<char>) -> Result<
    Seq<char>,
    Seq<char>,
> {
    if !strict_hostname(hostname) {
        Err(bad_hostname(hostname))
    } else {
        match trust_material(public_key) {
            Err(e) => Err(e),
            Ok(m) => Ok("@cert-authority "@ + hostname + " "@ + m + "\n"@),
        }
    }
}

/// The line that makes the operator's key the authority for a machine's host
/// certificate.
pub fn ca_known_hosts(logical_hostname: &str, canonical_operator_public_key: &str) -> (r: Result<
    String,
    String,
>)
    ensures
        match r {
            Ok(line) => trust_line(logical_hostname@, canonical_operator_public_key@) == Ok::<
                Seq<char>,
                Seq<char>,
            >(line@),
            Err(e) => trust_line(logical_hostname@, canonical_operator_public_key@) == Err::<
                Seq<char>,
                Seq<char>,
            >(e@),
        },
{
    match validate_hostname(logical_hostname) {
        Err(e) => return Err(e),
        Ok(()) => {},
    }
    match public_key_material(canonical_operator_public_key) {
        Err(e) => Err(e),
        Ok(m) => Ok(cat5("@cert-authority ", logical_hostname, " ", m.as_str(), "\n")),
    }
}

/// The text that bytes are in UTF-8, by `String::from_utf8`, which gives back
/// the same bytes as text exactly when they are valid UTF-8.
#[verifier::external_body]
fn utf8_text(bytes: Vec<u8>) -> (r: Option<String>)
    ensures
        match r {
            Some(s) => valid_utf8(bytes@) && encode_utf8(s@) == bytes@,
            None => !valid_utf8(bytes@),
        },
{
    String::from_utf8(bytes).ok()
}

/// Whether the public key that `ssh-keygen` derived from the operator's
/// private key is the canonical one.
pub open spec fn operator_key_check(
    found: bool,
    path: Seq<char>,
    derived: Result<Vec<u8>, String>,
    canonical: Seq<char>,
    result: Result<(), String>,
) -> bool {
    if !found {
        result matches Err(e) && e@ == "SSH operator private key was not found at "@ + path
    } else {
        match derived {
            Err(words) => result == Err::<(), String>(words),
            Ok(bytes) => if !valid_utf8(bytes@) {
                result matches Err(e) && e@ == "derived SSH public key was not UTF-8"@
            } else {
                match (trust_material(canonical), trust_material(decode_utf8(bytes@))) {
                    (Err(words), _) => result matches Err(e) && e@ == words,
                    (Ok(_), Err(words)) => result matches Err(e) && e@ == words,
                    (Ok(expected), Ok(actual)) => if actual != expected {
                        result matches Err(e) && e@
                            == "SSH operator private key does not match canonical public key"@
                    } else {
                        result is Ok
                    },
                }
            },
        }
    }
}

/// Checks that the operator's private key belongs to the canonical public key:
/// whether the file was found at `path`, and what `ssh-keygen -y` printed or
/// why it failed.
pub fn verify_operator_key_matches(
    found: bool,
    path: &str,
    derived: Result<Vec<u8>, String>,
    canonical_operator_public_key: &str,
) -> (r: Result<(), String>)
    ensures
        operator_key_check(found, path@, derived, canonical_operator_public_key@, r),
{
    if !found {
        return Err(cat2("SSH operator private key was not found at ", path));
    }
    let bytes: Vec<u8> = match derived {
        Err(e) => return Err(e),
        Ok(bytes) => bytes,
    };
    let text: String = match utf8_text(bytes) {
        None => return Err("derived SSH public key was not UTF-8".to_owned()),
        Some(text) => text,
    };
    proof {
        encode_utf8_decode_utf8(text@);
    }
    let expected: String = match public_key_material(canonical_operator_public_key) {
        Err(e) => return Err(e),
        Ok(m) => m,
    };
    let actual: String = match public_key_material(text.as_str()) {
        Err(e) => return Err(e),
        Ok(m) => m,
    };
    if !same(actual.as_str(), expected.as_str()) {
        return Err("SSH operator private key does not match canonical public key".to_owned());
    }
    Ok(())
}

/// The arguments of an `ssh` that runs a command on a machine, and accepts the
/// machine only under the name and the authority in the trust file.
pub open spec fn ssh_words(
    target_ip: Seq<char>,
    hostname: Seq<char>,
    key_path: Seq<char>,
    trust_path: Seq<char>,
    command: Seq<char>,
) -> Seq<Seq<char>> {
    seq![
        "-i"@,
        key_path,
        "-o"@,
        "IdentitiesOnly=yes"@,
        "-o"@,
        "BatchMode=yes"@,
        "-o"@,
        "ConnectTimeout=5"@,
        "-o"@,
        "ConnectionAttempts=1"@,
        "-o"@,
        "StrictHostKeyChecking=yes"@,
        "-o"@,
        "UserKnownHostsFile="@ + trust_path,
        "-o"@,
        "HostKeyAlias="@ + hostname,
        DEFAULT_OPS_USER@ + "@"@ + target_ip,
        command,
    ]
}

/// The arguments of an `ssh` that runs a command on a machine.
pub fn strict_ssh_args(
    target_ip: &str,
    logical_hostname: &str,
    operator_private_key_path: &str,
    known_hosts_path: &str,
    remote_command: &str,
) -> (r: Vec<String>)
    ensures
        texts(r@) == ssh_words(
            target_ip@,
            logical_hostname@,
            operator_private_key_path@,
            known_hosts_path@,
            remote_command@,
        ),
{
    let mut v: Vec<String> = Vec::new();
    v.push("-i".to_owned());
    v.push(operator_private_key_path.to_owned());
    v.push("-o".to_owned());
    v.push("IdentitiesOnly=yes".to_owned());
    v.push("-o".to_owned());
    v.push("BatchMode=yes".to_owned());
    v.push("-o".to_owned());
    v.push("ConnectTimeout=5".to_owned());
    v.push("-o".to_owned());
    v.push("ConnectionAttempts=1".to_owned());
    v.push("-o".to_owned());
    v.push("StrictHostKeyChecking=yes".to_owned());
    v.push("-o".to_owned());
    v.push(cat2("UserKnownHostsFile=", known_hosts_path));
    v.push("-o".to_owned());
    v.push(cat2("HostKeyAlias=", logical_hostname));
    v.push(cat3(DEFAULT_OPS_USER, "@", target_ip));
    v.push(remote_command.to_owned());
    assert(texts(v@) =~= ssh_words(
        target_ip@,
        logical_hostname@,
        operator_private_key_path@,
        known_hosts_path@,
        remote_command@,
    ));
    v
}

/// The arguments of the `ssh-keygen` that makes a host key.
pub fn host_key_args(host_key_path: &str) -> (r: Vec<String>)
    ensures
        texts(r@) == seq!["-q"@, "-t"@, "ed25519"@, "-N"@, ""@, "-f"@, host_key_path@],
{
    let mut v: Vec<String> = Vec::new();
    v.push("-q".to_owned());
    v.push("-t".to_owned());
    v.push("ed25519".to_owned());
    v.push("-N".to_owned());
    v.push("".to_owned());
    v.push("-f".to_owned());
    v.push(host_key_path.to_owned());
    assert(texts(v@) =~= seq!["-q"@, "-t"@, "ed25519"@, "-N"@, ""@, "-f"@, host_key_path@]);
    v
}

/// The arguments of the `ssh-keygen` that signs a host key for a machine.
pub open spec fn sign_words(
    key_path: Seq<char>,
    identity: Seq<char>,
    serial: nat,
    hostname: Seq<char>,
    public_key_path: Seq<char>,
) -> Seq<Seq<char>> {
    seq![
        "-q"@,
        "-s"@,
        key_path,
        "-I"@,
        identity,
        "-z"@,
        decimal(serial),
        "-h"@,
        "-n"@,
        hostname,
        "-V"@,
        "-5m:+8760h"@,
        public_key_path,
    ]
}

fn sign_args(
    key_path: &str,
    identity: String,
    serial: u64,
    hostname: &str,
    public_key_path: &str,
) -> (r: Vec<String>)
    ensures
        texts(r@) == sign_words(
            key_path@,
            identity@,
            serial as nat,
            hostname@,
            public_key_path@,
        ),
{
    let ghost words = sign_words(key_path@, identity@, serial as nat, hostname@, public_key_path@);
    let mut v: Vec<String> = Vec::new();
    v.push("-q".to_owned());
    v.push("-s".to_owned());
    v.push(key_path.to_owned());
    v.push("-I".to_owned());
    v.push(identity);
    v.push("-z".to_owned());
    v.push(number(serial));
    v.push("-h".to_owned());
    v.push("-n".to_owned());
    v.push(hostname.to_owned());
    v.push("-V".to_owned());
    v.push("-5m:+8760h".to_owned());
    v.push(public_key_path.to_owned());
    assert(texts(v@) =~= words);
    v
}

/// The arguments of the `ssh-keygen` that signs a new machine's host key.
pub fn first_certificate_args(
    operator_private_key_path: &str,
    logical_hostname: &str,
    host_public_key_path: &str,
) -> (r: Vec<String>)
    ensures
        texts(r@) == sign_words(
            operator_private_key_path@,
            logical_hostname@,
            1,
            logical_hostname@,
            host_public_key_path@,
        ),
{
    sign_args(
        operator_private_key_path,
        logical_hostname.to_owned(),
        1,
        logical_hostname,
        host_public_key_path,
    )
}

/// The arguments of the `ssh-keygen` that signs a machine's host key again.
pub fn rotate_host_certificate(
    operator_private_key_path: &str,
    logical_hostname: &str,
    serial: u64,
    host_public_key_path: &str,
) -> (r: Result<Vec<String>, String>)
    ensures
        match r {
            Ok(args) => serial > 0 && texts(args@) == sign_words(
                operator_private_key_path@,
                logical_hostname@ + "-rotated"@,
                serial as nat,
                logical_hostname@,
                host_public_key_path@,
            ),
            Err(e) => serial == 0 && e@ == "host certificate serial must be greater than zero"@,
        },
{
    if serial == 0 {
        return Err("host certificate serial must be greater than zero".to_owned());
    }
    Ok(
        sign_args(
            operator_private_key_path,
            cat2(logical_hostname, "-rotated"),
            serial,
            logical_hostname,
            host_public_key_path,
        ),
    )
}

/// `s` without the line feeds that it ends with.
pub open spec fn without_line_feeds(s: Seq<char>) -> Seq<char>
    decreases s.len(),
{
    if s.len() > 0 && s.last() == '\n' {
        without_line_feeds(s.drop_last())
    } else {
        s
    }
}

/// The lines, each moved in by six and ended by a line feed.
pub open spec fn moved_in(lines: Seq<Seq<char>>) -> Seq<char>
    decreases lines.len(),
{
    if lines.len() == 0 {
        Seq::empty()
    } else {
        moved_in(lines.drop_last()) + "      "@ + lines.last() + "\n"@
    }
}

/// The entry for a file in a machine's first configuration.
pub open spec fn file_entry(path: Seq<char>, mode: Seq<char>, content: Seq<char>) -> Seq<char> {
    "  - path: "@ + path + "\n    owner: root:root\n    permissions: '"@ + mode
        + "'\n    content: |\n"@ + moved_in(lines(without_line_feeds(content)))
}

fn trim_line_feeds(s: &str) -> (r: &str)
    ensures
        r@ == without_line_feeds(s@),
{
    let chars: Vec<char> = chars_of(s);
    let mut n: usize = chars.len();
    assert(s@.take(n as int) =~= s@);
    while n > 0 && chars[n - 1] == '\n'
        invariant
            n <= chars@.len(),
            chars@ == s@,
            without_line_feeds(s@) == without_line_feeds(s@.take(n as int)),
        decreases n,
    {
        assert(s@.take(n as int).drop_last() =~= s@.take(n - 1));
        n = n - 1;
    }
    assert(s@.subrange(0, n as int) =~= s@.take(n as int));
    s.substring_char(0, n)
}

/// The entry for a file in a machine's first configuration.
pub fn cloud_init_file(path: &str, mode: &str, content: &str) -> (r: String)
    ensures
        r@ == file_entry(path@, mode@, content@),
{
    let all: Vec<String> = split_lines(trim_line_feeds(content));
    let ghost seen = texts(all@);
    let mut indented: String = String::new();
    let mut i: usize = 0;
    assert(seen.take(0) =~= Seq::<Seq<char>>::empty());
    while i < all.len()
        invariant
            i <= all@.len(),
            seen == texts(all@),
            indented@ == moved_in(seen.take(i as int)),
        decreases all@.len() - i,
    {
        assert(seen.take(i + 1).drop_last() =~= seen.take(i as int));
        indented.append("      ");
        indented.append(all[i].as_str());
        indented.append("\n");
        i = i + 1;
    }
    assert(seen.take(i as int) =~= seen);
    cat6(
        "  - path: ",
        path,
        "\n    owner: root:root\n    permissions: '",
        mode,
        "'\n    content: |\n",
        indented.as_str(),
    )
}

/// The start of a machine's first configuration.
pub const CONFIG_ANCHOR: &'static str = "#cloud-config\n";

/// Where the files of a machine's first configuration begin.
pub const FILES_ANCHOR: &'static str = "write_files:\n";

/// Where the commands of a machine's first configuration begin.
pub const COMMANDS_ANCHOR: &'static str = "runcmd:\n";

/// How the SSH server of a machine is configured.
pub const SSHD_CONFIG: &'static str =
    "HostKey /etc/ssh/ssh_host_ed25519_key\nHostCertificate /etc/ssh/ssh_host_ed25519_key-cert.pub\nPasswordAuthentication no\nPermitRootLogin no\n";

/// The commands that every machine runs first.
pub const FIRST_COMMANDS: &'static str =
    "runcmd:\n  - [bash, -lc, \"sshd -t && systemctl restart ssh\"]\n  - [bash, -lc, \"install -d -m 0755 /var/lib/singbox-lifecycle && printf '%s\\n' strict-host-cert-ready > /var/lib/singbox-lifecycle/host-bootstrap\"]\n";

/// The head of a machine's first configuration: its name and the one user, who
/// gets in with the operator's key alone.
pub open spec fn config_head(hostname: Seq<char>, key: Seq<char>) -> Seq<char> {
    "#cloud-config\nhostname: "@ + hostname + "\nmanage_etc_hosts: true\nusers:\n  - name: "@
        + DEFAULT_OPS_USER@
        + "\n    groups: [sudo]\n    sudo: [\"ALL=(ALL) NOPASSWD:ALL\"]\n    shell: /bin/bash\n    lock_passwd: true\n    ssh_authorized_keys:\n      - "@
        + key
        + "\nssh_pwauth: false\ndisable_root: true\nssh_deletekeys: false\nssh_genkeytypes: []\n"@
}

/// The files of a machine's first configuration: its host key, the certificate
/// for it and the configuration of the SSH server.
pub open spec fn config_files(
    host_private_key: Seq<char>,
    host_public_key: Seq<char>,
    host_certificate: Seq<char>,
) -> Seq<char> {
    "write_files:\n"@ + file_entry("/etc/ssh/ssh_host_ed25519_key"@, "0600"@, host_private_key)
        + file_entry("/etc/ssh/ssh_host_ed25519_key.pub"@, "0644"@, host_public_key) + file_entry(
        "/etc/ssh/ssh_host_ed25519_key-cert.pub"@,
        "0644"@,
        host_certificate,
    ) + file_entry(
        "/etc/ssh/sshd_config.d/99-singbox-host-cert.conf"@,
        "0644"@,
        SSHD_CONFIG@,
    )
}

/// A machine's first configuration, made from a template by replacing the
/// first of each anchor, or else what is wrong with the template or the key.
pub open spec fn strict_config(
    base: Seq<char>,
    hostname: Seq<char>,
    operator_key: Seq<char>,
    host_private_key: Seq<char>,
    host_public_key: Seq<char>,
    host_certificate: Seq<char>,
) -> Result<Seq<char>, Seq<char>> {
    if !begins_with(base, CONFIG_ANCHOR@) {
        Err("bootstrap template must start with #cloud-config"@)
    } else if !has_part(base, FILES_ANCHOR@) || !has_part(base, COMMANDS_ANCHOR@) {
        Err("bootstrap template must contain write_files and runcmd sections"@)
    } else if trimmed(operator_key).contains('\n') || trimmed(operator_key).contains('\r') {
        Err("canonical SSH public key must be a single line"@)
    } else {
        let headed = replaced_first(
            base,
            CONFIG_ANCHOR@,
            config_head(hostname, trimmed(operator_key)),
        );
        let filed = replaced_first(
            headed,
            FILES_ANCHOR@,
            config_files(host_private_key, host_public_key, host_certificate),
        );
        Ok(replaced_first(filed, COMMANDS_ANCHOR@, FIRST_COMMANDS@))
    }
}

fn has_char(s: &str, c: char) -> (r: bool)
    ensures
        r == s@.contains(c),
{
    let chars: Vec<char> = chars_of(s);
    let mut i: usize = 0;
    while i < chars.len()
        invariant
            i <= chars@.len(),
            chars@ == s@,
            forall|k: int| 0 <= k < i ==> #[trigger] s@[k] != c,
        decreases chars@.len() - i,
    {
        if chars[i] == c {
            assert(s@[i as int] == c);
            return true;
        }
        i = i + 1;
    }
    false
}

/// Makes a machine's first configuration from a template.
pub fn render_strict_cloud_init(
    base_cloud_init: &str,
    logical_hostname: &str,
    canonical_operator_public_key: &str,
    host_private_key: &str,
    host_public_key: &str,
    host_certificate: &str,
) -> (r: Result<String, String>)
    ensures
        match r {
            Ok(config) => strict_config(
                base_cloud_init@,
                logical_hostname@,
                canonical_operator_public_key@,
                host_private_key@,
                host_public_key@,
                host_certificate@,
            ) == Ok::<Seq<char>, Seq<char>>(config@),
            Err(e) => strict_config(
                base_cloud_init@,
                logical_hostname@,
                canonical_operator_public_key@,
                host_private_key@,
                host_public_key@,
                host_certificate@,
            ) == Err::<Seq<char>, Seq<char>>(e@),
        },
{
    if !starts_with(base_cloud_init, CONFIG_ANCHOR) {
        return Err("bootstrap template must start with #cloud-config".to_owned());
    }
    if !contains(base_cloud_init, FILES_ANCHOR) || !contains(base_cloud_init, COMMANDS_ANCHOR) {
        return Err(
            "bootstrap template must contain write_files and runcmd sections".to_owned(),
        );
    }
    let key: &str = trim(canonical_operator_public_key);
    if has_char(key, '\n') || has_char(key, '\r') {
        return Err("canonical SSH public key must be a single line".to_owned());
    }
    let head: String = cat7(
        "#cloud-config\nhostname: ",
        logical_hostname,
        "\nmanage_etc_hosts: true\nusers:\n  - name: ",
        DEFAULT_OPS_USER,
        "\n    groups: [sudo]\n    sudo: [\"ALL=(ALL) NOPASSWD:ALL\"]\n    shell: /bin/bash\n    lock_passwd: true\n    ssh_authorized_keys:\n      - ",
        key,
        "\nssh_pwauth: false\ndisable_root: true\nssh_deletekeys: false\nssh_genkeytypes: []\n",
    );
    let headed: String = replace_first(base_cloud_init, CONFIG_ANCHOR, head.as_str());
    let files: String = cat5(
        "write_files:\n",
        cloud_init_file("/etc/ssh/ssh_host_ed25519_key", "0600", host_private_key).as_str(),
        cloud_init_file("/etc/ssh/ssh_host_ed25519_key.pub", "0644", host_public_key).as_str(),
        cloud_init_file(
            "/etc/ssh/ssh_host_ed25519_key-cert.pub",
            "0644",
            host_certificate,
        ).as_str(),
        cloud_init_file(
            "/etc/ssh/sshd_config.d/99-singbox-host-cert.conf",
            "0644",
            SSHD_CONFIG,
        ).as_str(),
    );
    let filed: String = replace_first(headed.as_str(), FILES_ANCHOR, files.as_str());
    Ok(replace_first(filed.as_str(), COMMANDS_ANCHOR, FIRST_COMMANDS))
}

proof fn lemma_head_stays(head: Seq<char>, rest: Seq<char>, part: Seq<char>, by: Seq<char>)
    requires
        head.len() > 0,
        head.last() == '\n',
        part.len() > 0,
        forall|k: int| 0 <= k < part.len() - 1 ==> #[trigger] part[k] != '\n',
        !has_part(head, part),
    ensures
        begins_with(replaced_first(head + rest, part, by), head),
{
    let s = head + rest;
    assert forall|p: int| 0 <= p < head.len() implies !stands_at(s, part, p) by {
        if stands_at(s, part, p) {
            if p + part.len() <= head.len() {
                assert(head.subrange(p, p + part.len()) =~= s.subrange(p, p + part.len()));
                assert(stands_at(head, part, p));
            } else {
                let k = head.len() - 1 - p;
                assert(s.subrange(p, p + part.len())[k] == head.last());
                assert(part[k] == '\n');
            }
        }
    }
    if has_part(s, part) {
        let any = choose|i: int| stands_at(s, part, i);
        lemma_first_exists(s, part, any);
        let i = choose|i: int| first_at(s, part, i);
        assert(i >= head.len());
        let out = s.take(i) + by + s.skip(i + part.len());
        assert(out.subrange(0, head.len() as int) =~= head);
    } else {
        assert(s.subrange(0, head.len() as int) =~= head);
    }
}

proof fn lemma_first_exists(s: Seq<char>, part: Seq<char>, i: int)
    requires
        stands_at(s, part, i),
    ensures
        exists|k: int| first_at(s, part, k),
    decreases i,
{
    if first_at(s, part, i) {
    } else {
        let k = choose|k: int| 0 <= k < i && stands_at(s, part, k);
        lemma_first_exists(s, part, k);
    }
}

/// A machine's first configuration begins with its name and the one user, in
/// full, as long as these do not themselves hold a place for the files or the
/// commands.
pub proof fn law_first_configuration_keeps_its_head(
    base: Seq<char>,
    hostname: Seq<char>,
    operator_key: Seq<char>,
    host_private_key: Seq<char>,
    host_public_key: Seq<char>,
    host_certificate: Seq<char>,
)
    requires
        strict_config(
            base,
            hostname,
            operator_key,
            host_private_key,
            host_public_key,
            host_certificate,
        ) is Ok,
        !has_part(config_head(hostname, trimmed(operator_key)), FILES_ANCHOR@),
        !has_part(config_head(hostname, trimmed(operator_key)), COMMANDS_ANCHOR@),
    ensures
        begins_with(
            strict_config(
                base,
                hostname,
                operator_key,
                host_private_key,
                host_public_key,
                host_certificate,
            )->Ok_0,
            config_head(hostname, trimmed(operator_key)),
        ),
{
    let head = config_head(hostname, trimmed(operator_key));
    let files = config_files(host_private_key, host_public_key, host_certificate);
    let headed = replaced_first(base, CONFIG_ANCHOR@, head);
    let filed = replaced_first(headed, FILES_ANCHOR@, files);
    reveal_strlit("#cloud-config\n");
    reveal_strlit("write_files:\n");
    reveal_strlit("runcmd:\n");
    reveal_strlit(
        "\nssh_pwauth: false\ndisable_root: true\nssh_deletekeys: false\nssh_genkeytypes: []\n",
    );
    let n = CONFIG_ANCHOR@.len();
    assert(first_at(base, CONFIG_ANCHOR@, 0));
    let i = choose|i: int| first_at(base, CONFIG_ANCHOR@, i);
    lemma_first_at_unique(base, CONFIG_ANCHOR@, i, 0);
    assert(headed =~= head + base.skip(n as int));
    lemma_head_stays(head, base.skip(n as int), FILES_ANCHOR@, files);
    assert(filed.subrange(0, head.len() as int) == head);
    assert(filed =~= head + filed.skip(head.len() as int));
    lemma_head_stays(head, filed.skip(head.len() as int), COMMANDS_ANCHOR@, FIRST_COMMANDS@);
}

/// What a new machine's host key came to: the key, its public half and the
/// certificate for it, or why one of them is missing.
pub type HostKeyMaterial = Result<(String, String, String), String>;

/// Makes a machine's first configuration once its host key has been made and
/// signed.
pub fn prepare_strict_bootstrap(
    base_cloud_init: &str,
    logical_hostname: &str,
    operator_key_found: bool,
    operator_private_key_path: &str,
    canonical_operator_public_key: &str,
    material: HostKeyMaterial,
) -> (r: Result<StrictBootstrapBundle, String>)
    ensures
        if !strict_hostname(logical_hostname@) {
            r matches Err(e) && e@ == bad_hostname(logical_hostname@)
        } else if !operator_key_found {
            r matches Err(e) && e@ == "SSH operator private key was not found at "@
                + operator_private_key_path@
        } else {
            match material {
                Err(words) => r matches Err(e) && e == words,
                Ok((private_key, public_key, certificate)) => match strict_config(
                    base_cloud_init@,
                    logical_hostname@,
                    canonical_operator_public_key@,
                    private_key@,
                    public_key@,
                    certificate@,
                ) {
                    Ok(config) => r matches Ok(bundle) && bundle.cloud_init@ == config,
                    Err(words) => r matches Err(e) && e@ == words,
                },
            }
        },
{
    match validate_hostname(logical_hostname) {
        Err(e) => return Err(e),
        Ok(()) => {},
    }
    if !operator_key_found {
        return Err(
            cat2("SSH operator private key was not found at ", operator_private_key_path),
        );
    }
    let (private_key, public_key, certificate): (String, String, String) = match material {
        Err(e) => return Err(e),
        Ok(parts) => parts,
    };
    match render_strict_cloud_init(
        base_cloud_init,
        logical_hostname,
        canonical_operator_public_key,
        private_key.as_str(),
        public_key.as_str(),
        certificate.as_str(),
    ) {
        Ok(cloud_init) => Ok(StrictBootstrapBundle { cloud_init }),
        Err(e) => Err(e),
    }
}

/// What try number `tried` (from zero) to accept a machine leads to.
pub open spec fn acceptance(
    attempts: usize,
    tried: usize,
    hostname: Seq<char>,
    target_ip: Seq<char>,
    outcome: Result<(), String>,
    next: WaitNext<()>,
) -> bool {
    match outcome {
        Ok(()) => next == WaitNext::Done(Ok::<(), String>(())),
        Err(words) => if tried + 1 < attempts {
            next is Again
        } else {
            next matches WaitNext::Done(Err(e)) && e@ == "strict SSH acceptance failed for "@
                + hostname + " at "@ + target_ip + ": "@ + words@
        },
    }
}

/// Checks that a machine is tried to be accepted at all.
pub fn check_acceptance_attempts(attempts: usize) -> (r: Result<(), String>)
    ensures
        match r {
            Ok(()) => attempts > 0,
            Err(e) => attempts == 0 && e@ == "strict SSH attempts must be greater than zero"@,
        },
{
    if attempts == 0 {
        Err("strict SSH attempts must be greater than zero".to_owned())
    } else {
        Ok(())
    }
}

/// Takes try number `tried` (from zero) to accept a machine into account.
pub fn strict_ssh_accept(
    attempts: usize,
    tried: usize,
    logical_hostname: &str,
    target_ip: &str,
    outcome: &Result<(), String>,
) -> (r: WaitNext<()>)
    ensures
        acceptance(attempts, tried, logical_hostname@, target_ip@, *outcome, r),
{
    match outcome {
        Ok(()) => WaitNext::Done(Ok(())),
        Err(words) => {
            if tried < attempts && tried + 1 < attempts {
                WaitNext::Again
            } else {
                WaitNext::Done(
                    Err(
                        cat6(
                            "strict SSH acceptance failed for ",
                            logical_hostname,
                            " at ",
                            target_ip,
                            ": ",
                            words.as_str(),
                        ),
                    ),
                )
            }
        },
    }
}

/// What follows `Serial:` in the first line that begins with it, without white
/// space around either.
pub open spec fn serial_text(lines: Seq<Seq<char>>) -> Option<Seq<char>>
    decreases lines.len(),
{
    if lines.len() == 0 {
        None
    } else {
        match after_prefix(trimmed(lines[0]), "Serial:"@) {
            Some(rest) => Some(trimmed(rest)),
            None => serial_text(lines.drop_first()),
        }
    }
}

/// The serial number in what `ssh-keygen -L` prints of a host certificate, or
/// else why there is none.
pub open spec fn certificate_serial(output: Seq<u8>) -> Result<nat, Seq<char>> {
    if !valid_utf8(output) {
        Err("host certificate metadata was not UTF-8"@)
    } else {
        match serial_text(lines(decode_utf8(output))) {
            None => Err("host certificate metadata did not contain Serial"@),
            Some(text) => match number_value(text, u64::MAX as nat) {
                Ok(n) => Ok(n),
                Err(fault) => Err(
                    "invalid host certificate serial: "@ + fault_words(fault),
                ),
            },
        }
    }
}

/// Reads the serial number in what `ssh-keygen -L` prints of a host
/// certificate.
pub fn read_host_certificate_serial(output: Vec<u8>) -> (r: Result<u64, String>)
    ensures
        match r {
            Ok(n) => certificate_serial(output@) == Ok::<nat, Seq<char>>(n as nat),
            Err(e) => certificate_serial(output@) == Err::<nat, Seq<char>>(e@),
        },
{
    let text: String = match utf8_text(output) {
        None => return Err("host certificate metadata was not UTF-8".to_owned()),
        Some(text) => text,
    };
    proof {
        encode_utf8_decode_utf8(text@);
    }
    let all: Vec<String> = split_lines(text.as_str());
    let ghost seen = texts(all@);
    let mut i: usize = 0;
    assert(seen.skip(0) =~= seen);
    while i < all.len()
        invariant
            i <= all@.len(),
            seen == texts(all@),
            seen == lines(decode_utf8(output@)),
            valid_utf8(output@),
            serial_text(seen) == serial_text(seen.skip(i as int)),
        decreases all@.len() - i,
    {
        assert(seen.skip(i as int).drop_first() =~= seen.skip(i + 1));
        assert(seen.skip(i as int)[0] == all@[i as int]@);
        match strip_prefix(trim(all[i].as_str()), "Serial:") {
            Some(rest) => {
                return match parse_number(trim(rest), u64::MAX) {
                    Ok(n) => Ok(n),
                    Err(fault) => Err(
                        cat2("invalid host certificate serial: ", fault.message()),
                    ),
                };
            },
            None => {},
        }
        i = i + 1;
    }
    Err("host certificate metadata did not contain Serial".to_owned())
}

/// Where the upkeep of a host certificate stands.
#[derive(Debug, Clone, Copy, PartialEq, Eq, Structural)]
pub enum RotationStage {
    /// The serial number is read for the first time.
    First,
    /// The certificate has been replaced and the serial number is read again.
    Replaced,
}

/// What the upkeep of a host certificate asks for.
#[derive(Debug, PartialEq, Eq)]
pub enum RotationNext {
    /// Sign the host key again, with this serial number.
    Rotate { serial: u64 },
    /// The result says whether the certificate was replaced.
    Done(Result<bool, String>),
}

/// What a reading of the serial number leads to.
pub open spec fn rotation(
    stage: RotationStage,
    minimum_serial: u64,
    reading: Result<u64, String>,
    next: RotationNext,
) -> bool {
    match reading {
        Err(words) => next == RotationNext::Done(Err(words)),
        Ok(serial) => match stage {
            RotationStage::First => if serial >= minimum_serial {
                next == RotationNext::Done(Ok(false))
            } else {
                next == (RotationNext::Rotate { serial: minimum_serial })
            },
            RotationStage::Replaced => if serial < minimum_serial {
                next matches RotationNext::Done(Err(e)) && e@
                    == "host certificate rotation did not reach required serial "@ + decimal(
                    minimum_serial as nat,
                ) + ": observed "@ + decimal(serial as nat)
            } else {
                next == RotationNext::Done(Ok(true))
            },
        },
    }
}

/// Checks that a host certificate is to have a serial number.
pub fn check_minimum_serial(minimum_serial: u64) -> (r: Result<(), String>)
    ensures
        match r {
            Ok(()) => minimum_serial > 0,
            Err(e) => minimum_serial == 0 && e@
                == "minimum host certificate serial must be greater than zero"@,
        },
{
    if minimum_serial == 0 {
        Err("minimum host certificate serial must be greater than zero".to_owned())
    } else {
        Ok(())
    }
}

/// Takes a reading of the serial number into account: a certificate with too
/// low a number is replaced, once, and has to show a number that is high
/// enough then.
pub fn ensure_host_certificate_rotated(
    stage: RotationStage,
    minimum_serial: u64,
    reading: Result<u64, String>,
) -> (r: RotationNext)
    ensures
        rotation(stage, minimum_serial, reading, r),
{
    let serial: u64 = match reading {
        Err(e) => return RotationNext::Done(Err(e)),
        Ok(serial) => serial,
    };
    match stage {
        RotationStage::First => {
            if serial >= minimum_serial {
                RotationNext::Done(Ok(false))
            } else {
                RotationNext::Rotate { serial: minimum_serial }
            }
        },
        RotationStage::Replaced => {
            if serial < minimum_serial {
                RotationNext::Done(
                    Err(
                        cat4(
                            "host certificate rotation did not reach required serial ",
                            number(minimum_serial).as_str(),
                            ": observed ",
                            number(serial).as_str(),
                        ),
                    ),
                )
            } else {
                RotationNext::Done(Ok(true))
            }
        },
    }
}

/// The upkeep of a host certificate ends well only on a reading of a serial
/// number that is high enough, and never replaces a certificate twice.
pub proof fn law_rotation_reaches_the_minimum(
    stage: RotationStage,
    minimum_serial: u64,
    reading: Result<u64, String>,
    next: RotationNext,
)
    requires
        rotation(stage, minimum_serial, reading, next),
    ensures
        next matches RotationNext::Done(Ok(_)) ==> (reading matches Ok(serial) && serial
            >= minimum_serial),
        next is Rotate ==> stage is First,
{
}

/// Checks that a machine's user data is scrubbed, by a reading of it.
pub fn verify_user_data_scrubbed(instance_id: &str, data: &UserData) -> (r: Result<(), String>)
    ensures
        match *data {
            Err(fault) => r matches Err(e) && e@ == fault.message@,
            Ok(text) => if text@ == SCRUBBED_USER_DATA@ {
                r is Ok
            } else {
                r matches Err(e) && e@ == "user data of instance "@ + instance_id@
                    + " is not scrubbed"@
            },
        },
{
    match data {
        Err(fault) => Err(fault.message.clone()),
        Ok(text) => {
            if same(text.as_str(), SCRUBBED_USER_DATA) {
                Ok(())
            } else {
                Err(cat3("user data of instance ", instance_id, " is not scrubbed"))
            }
        },
    }
}

/// Checks that a machine's host certificate has at least a serial, by a reading
/// of it.
pub fn verify_host_certificate_rotated(
    machine_id: &str,
    minimum_serial: u64,
    serial: Result<u64, String>,
) -> (r: Result<(), String>)
    ensures
        match serial {
            Err(words) => r == Err::<(), String>(words),
            Ok(n) => if n >= minimum_serial {
                r is Ok
            } else {
                r matches Err(e) && e@ == "host certificate of "@ + machine_id@
                    + " is below serial "@ + decimal(minimum_serial as nat)
            },
        },
{
    match serial {
        Err(words) => Err(words),
        Ok(n) => {
            if n >= minimum_serial {
                Ok(())
            } else {
                Err(
                    cat4(
                        "host certificate of ",
                        machine_id,
                        " is below serial ",
                        number(minimum_serial).as_str(),
                    ),
                )
            }
        },
    }
}

/// A machine is ready exactly if it is active, runs, is well and has an address.
pub proof fn law_ready_machines_are_up_and_well(i: VultrInstance, r: bool)
    requires
        call_ensures(is_provider_ready, (&i,), r),
    ensures
        r <==> i.status@ == "active"@ && i.power_status@ == "running"@ && i.server_status@ == "ok"@
            && !blank(i.main_ip@),
{
}

/// The wait for a machine ends well only with a ready one, and goes on only as
/// long as looks are left.
pub proof fn law_the_wait_ends_with_a_ready_machine(
    attempts: usize,
    seen: usize,
    look: Result<VultrInstance, ProviderFault>,
    ready: bool,
    r: WaitNext<VultrInstance>,
)
    requires
        look matches Ok(i) ==> call_ensures(is_provider_ready, (&i,), ready),
        call_ensures(wait_provider_ready, (attempts, seen, look), r),
    ensures
        r matches WaitNext::Done(Ok(i)) ==> look == Ok::<VultrInstance, ProviderFault>(i) && ready,
        look is Ok && ready ==> (r matches WaitNext::Done(Ok(_))),
        look is Err ==> (r matches WaitNext::Done(Err(_))),
        look is Ok && !ready ==> (r is Again <==> seen + 1 < attempts),
{
}

/// A start has taken effect once the machine runs and a halt once it is
/// stopped. That a machine runs proves a reboot only where the provider has
/// accepted it. Nothing is asked for twice.
pub proof fn law_actions_take_effect_where_it_is_seen(
    phase: Phase,
    attempts: usize,
    action: InstanceAction,
    instance_id: &str,
    look: Result<VultrInstance, ProviderFault>,
    r: (Phase, Next<VultrInstance>),
)
    requires
        phase is Watching,
        call_ensures(apply_instance_action, (phase, attempts, action, instance_id, look), r),
    ensures
        !(r.1 is Change),
        r.1 matches Next::Done(Ok(i)) ==> look == Ok::<VultrInstance, ProviderFault>(i),
        look matches Ok(i) ==> match action {
            InstanceAction::Start => (r.1 matches Next::Done(Ok(_))) <==> i.power_status@
                == "running"@,
            InstanceAction::Halt => (r.1 matches Next::Done(Ok(_))) <==> i.power_status@
                == "stopped"@,
            InstanceAction::Reboot => (r.1 matches Next::Done(Ok(_))) <==> (
            phase matches Phase::Watching { reply, .. } && reply is Accepted) && i.power_status@
                == "running"@ && i.status@ == "active"@ && i.server_status@ == "ok"@,
        },
        look is Err ==> (r.1 matches Next::Done(Err(_))),
{
}

/// A word for an action is read as that action, and no other word is.
pub proof fn law_action_words_are_those_three(
    value: &str,
    r: Result<InstanceAction, String>,
    word: &'static str,
)
    requires
        call_ensures(InstanceAction::parse, (value,), r),
        r matches Ok(action) ==> call_ensures(InstanceAction::as_str, (action,), word),
    ensures
        r is Ok <==> value@ == "start"@ || value@ == "halt"@ || value@ == "reboot"@,
        r is Ok ==> word@ == value@,
        value@ == "start"@ ==> r == Ok::<InstanceAction, String>(InstanceAction::Start),
        value@ == "halt"@ ==> r == Ok::<InstanceAction, String>(InstanceAction::Halt),
        value@ == "reboot"@ ==> r == Ok::<InstanceAction, String>(InstanceAction::Reboot),
{
    reveal_strlit("start");
    reveal_strlit("halt");
    reveal_strlit("reboot");
    assert("start"@.len() == 5 && "halt"@.len() == 4 && "reboot"@.len() == 6);
}

/// What a machine was started with is replaced only where it is not scrubbed
/// yet, and counts as scrubbed only once it reads so; whether anything was
/// changed is told.
pub proof fn law_start_data_is_scrubbed_once(
    state: Scrub,
    attempts: usize,
    instance_id: &str,
    data: UserData,
    r: (Scrub, Next<bool>),
    verified: Result<(), String>,
)
    requires
        state.phase is Before || state.phase is Watching,
        call_ensures(Scrub::scrub_user_data, (state, attempts, instance_id, &data), r),
        call_ensures(verify_user_data_scrubbed, (instance_id, &data), verified),
    ensures
        r.1 matches Next::Done(Ok(_)) <==> verified is Ok,
        r.1 matches Next::Done(Ok(changed)) ==> (changed <==> state.phase is Watching),
        r.1 is Change <==> state.phase is Before && data is Ok && verified is Err,
        verified is Ok <==> (data matches Ok(text) && text@
            == "#cloud-config\n# sing-box bootstrap material scrubbed after strict SSH acceptance\n"@),
{
}

/// A host's name may hold nothing but letters, digits, hyphens and dots.
pub proof fn law_host_names_are_plain(value: &str, r: Result<(), String>)
    requires
        call_ensures(validate_hostname, (value,), r),
    ensures
        r is Ok <==> 0 < value@.len() <= 253 && forall|i: int|
            0 <= i < value@.len() ==> {
                let c = #[trigger] value@[i];
                ('0' <= c <= '9') || ('a' <= c <= 'z') || ('A' <= c <= 'Z') || c == '-' || c == '.'
            },
{
    if r is Ok {
        assert forall|i: int| 0 <= i < value@.len() implies ({
            let c = #[trigger] value@[i];
            ('0' <= c <= '9') || ('a' <= c <= 'z') || ('A' <= c <= 'Z') || c == '-' || c == '.'
        }) by {}
    }
    if 0 < value@.len() <= 253 && forall|i: int|
        0 <= i < value@.len() ==> {
            let c = #[trigger] value@[i];
            ('0' <= c <= '9') || ('a' <= c <= 'z') || ('A' <= c <= 'Z') || c == '-' || c == '.'
        } {
        assert(strict_hostname(value@));
    }
}

/// A host is trusted by the operator's authority alone, and only under its own
/// name.
pub proof fn law_hosts_are_trusted_by_the_operators_authority(
    hostname: &str,
    key: &str,
    material: Result<String, String>,
    named: Result<(), String>,
    r: Result<String, String>,
)
    requires
        call_ensures(validate_hostname, (hostname,), named),
        call_ensures(public_key_material, (key,), material),
        call_ensures(ca_known_hosts, (hostname, key), r),
    ensures
        r is Ok <==> named is Ok && material is Ok,
        r matches Ok(line) ==> line@ == "@cert-authority "@ + hostname@ + " "@ + material->Ok_0@
            + "\n"@,
        material is Ok <==> words(key@).len() >= 2 && words(key@)[0] == "ssh-ed25519"@,
        material matches Ok(m) ==> m@ == words(key@)[0] + " "@ + words(key@)[1],
{
}

/// SSH is never lax about whom it talks to: it checks the host against the file
/// that is meant for it and under the host's own name, offers the one key, asks
/// nobody, and runs the very command as the operator's user.
pub proof fn law_ssh_is_strict(
    target_ip: &str,
    hostname: &str,
    key_path: &str,
    trust_path: &str,
    command: &str,
    r: Vec<String>,
)
    requires
        call_ensures(strict_ssh_args, (target_ip, hostname, key_path, trust_path, command), r),
    ensures
        texts(r@).contains("StrictHostKeyChecking=yes"@),
        texts(r@).contains("IdentitiesOnly=yes"@),
        texts(r@).contains("BatchMode=yes"@),
        texts(r@).contains("UserKnownHostsFile="@ + trust_path@),
        texts(r@).contains("HostKeyAlias="@ + hostname@),
        texts(r@)[0] == "-i"@ && texts(r@)[1] == key_path@,
        texts(r@).last() == command@,
        texts(r@)[r@.len() - 2] == "singbox-ops"@ + "@"@ + target_ip@,
{
    let w = texts(r@);
    assert(w.len() == r@.len());
    assert(w[11] == "StrictHostKeyChecking=yes"@);
    assert(w[3] == "IdentitiesOnly=yes"@);
    assert(w[5] == "BatchMode=yes"@);
    assert(w[13] == "UserKnownHostsFile="@ + trust_path@);
    assert(w[15] == "HostKeyAlias="@ + hostname@);
}

/// A certificate is signed for the very host, with the very serial, for a year;
/// and never without a serial.
pub proof fn law_certificates_are_signed_for_their_host(
    key_path: &str,
    hostname: &str,
    serial: u64,
    public_key_path: &str,
    first: Vec<String>,
    r: Result<Vec<String>, String>,
)
    requires
        call_ensures(first_certificate_args, (key_path, hostname, public_key_path), first),
        call_ensures(rotate_host_certificate, (key_path, hostname, serial, public_key_path), r),
    ensures
        r is Ok <==> serial > 0,
        r matches Ok(args) ==> args@.len() == first@.len() && texts(args@)[6] == decimal(
            serial as nat,
        ) && texts(args@)[5] == "-z"@ && texts(args@)[8] == "-n"@ && texts(args@)[9] == hostname@
            && texts(args@)[7] == "-h"@ && texts(args@)[2] == key_path@ && texts(args@)[1] == "-s"@
            && texts(args@).last() == public_key_path@,
        texts(first@)[6] == decimal(1) && texts(first@)[8] == "-n"@ && texts(first@)[9] == hostname@
            && texts(first@)[2] == key_path@,
        r matches Ok(args) ==> texts(args@)[11] == texts(first@)[11] && texts(first@)[11]
            == "-5m:+8760h"@,
{
    assert(texts(first@).len() == first@.len());
    if r is Ok {
        assert(texts(r->Ok_0@).len() == r->Ok_0@.len());
    }
}

/// The operator's own key is accepted exactly if it is there and is the one that
/// the canonical public key belongs to.
pub proof fn law_the_operators_key_is_the_canonical_one(
    found: bool,
    path: &str,
    derived: Vec<u8>,
    canonical: &str,
    r: Result<(), String>,
)
    requires
        call_ensures(
            verify_operator_key_matches,
            (found, path, Ok::<Vec<u8>, String>(derived), canonical),
            r,
        ),
    ensures
        r is Ok ==> found && valid_utf8(derived@),
        r is Ok ==> words(canonical@).len() >= 2 && words(decode_utf8(derived@)).len() >= 2
            && words(canonical@)[0] + " "@ + words(canonical@)[1] == words(
            decode_utf8(derived@),
        )[0] + " "@ + words(decode_utf8(derived@))[1],
        found && valid_utf8(derived@) && words(canonical@) == words(decode_utf8(derived@)) && words(
            canonical@,
        ).len() >= 2 && words(canonical@)[0] == "ssh-ed25519"@ ==> r is Ok,
{
}

/// A machine's start is made exactly where its host has a plain name, the
/// operator's key is there, the host's keys were made and the template can be
/// filled in.
pub proof fn law_a_start_needs_all_its_parts(
    base: &str,
    hostname: &str,
    found: bool,
    path: &str,
    canonical: &str,
    material: HostKeyMaterial,
    named: Result<(), String>,
    r: Result<StrictBootstrapBundle, String>,
)
    requires
        call_ensures(validate_hostname, (hostname,), named),
        call_ensures(
            prepare_strict_bootstrap,
            (base, hostname, found, path, canonical, material),
            r,
        ),
    ensures
        r is Ok ==> named is Ok && found && material is Ok,
        r is Ok ==> begins_with(base@, "#cloud-config\n"@) && has_part(base@, "write_files:\n"@)
            && has_part(base@, "runcmd:\n"@) && !trimmed(canonical@).contains('\n') && !trimmed(
            canonical@,
        ).contains('\r'),
        named is Ok && found && material is Ok && begins_with(base@, "#cloud-config\n"@)
            && has_part(base@, "write_files:\n"@) && has_part(base@, "runcmd:\n"@) && !trimmed(
            canonical@,
        ).contains('\n') && !trimmed(canonical@).contains('\r') ==> r is Ok,
{
}

/// The wait for a strict login ends well exactly where one worked, and goes on
/// only as long as tries are left.
pub proof fn law_strict_logins_are_waited_for(
    attempts: usize,
    tried: usize,
    hostname: &str,
    target_ip: &str,
    outcome: Result<(), String>,
    r: WaitNext<()>,
)
    requires
        call_ensures(strict_ssh_accept, (attempts, tried, hostname, target_ip, &outcome), r),
    ensures
        r matches WaitNext::Done(Ok(_)) <==> outcome is Ok,
        outcome is Err ==> (r is Again <==> tried + 1 < attempts),
{
}

/// A certificate below the wanted serial is replaced once, and in the end the
/// serial is at least the wanted one or the rotation has failed. One that is
/// recent enough stays.
pub proof fn law_certificates_are_renewed_where_they_are_old(
    stage: RotationStage,
    minimum: u64,
    serial: u64,
    machine_id: &str,
    r: RotationNext,
    verified: Result<(), String>,
)
    requires
        call_ensures(
            ensure_host_certificate_rotated,
            (stage, minimum, Ok::<u64, String>(serial)),
            r,
        ),
        call_ensures(
            verify_host_certificate_rotated,
            (machine_id, minimum, Ok::<u64, String>(serial)),
            verified,
        ),
    ensures
        r is Rotate <==> stage is First && serial < minimum,
        r matches RotationNext::Rotate { serial: next } ==> next == minimum,
        r matches RotationNext::Done(Ok(changed)) ==> serial >= minimum && (changed
            <==> stage is Replaced),
        stage is Replaced && serial < minimum ==> (r matches RotationNext::Done(Err(_))),
        verified is Ok <==> serial >= minimum,
{
}

/// Nothing is waited for without a single look.
pub proof fn law_waits_look_at_least_once(
    attempts: usize,
    a: Result<(), String>,
    b: Result<(), String>,
    c: Result<(), String>,
    minimum: u64,
    d: Result<(), String>,
)
    requires
        call_ensures(check_readiness_attempts, (attempts,), a),
        call_ensures(check_action_attempts, (attempts,), b),
        call_ensures(check_acceptance_attempts, (attempts,), c),
        call_ensures(check_minimum_serial, (minimum,), d),
    ensures
        a is Ok <==> attempts > 0,
        b is Ok <==> attempts > 0,
        c is Ok <==> attempts > 0,
        d is Ok <==> minimum > 0,
{
}

proof fn lemma_first_serial(lines: Seq<Seq<char>>, k: int, rest: Seq<char>)
    requires
        0 <= k < lines.len(),
        trimmed(lines[k]) == "Serial:"@ + rest,
        forall|i: int| 0 <= i < k ==> !begins_with(trimmed(#[trigger] lines[i]), "Serial:"@),
    ensures
        serial_text(lines) == Some(trimmed(rest)),
    decreases lines.len(),
{
    if k == 0 {
        let word = "Serial:"@;
        let whole = word + rest;
        assert(whole.take(word.len() as int) =~= word);
        assert(whole.skip(word.len() as int) =~= rest);
        assert(begins_with(whole, word));
    } else {
        assert(!begins_with(trimmed(lines[0]), "Serial:"@));
        let more = lines.drop_first();
        assert(more[k - 1] == lines[k]);
        assert forall|i: int| 0 <= i < k - 1 implies !begins_with(
            trimmed(#[trigger] more[i]),
            "Serial:"@,
        ) by {
            assert(more[i] == lines[i + 1]);
        }
        lemma_first_serial(more, k - 1, rest);
    }
}

proof fn lemma_no_serial(lines: Seq<Seq<char>>)
    requires
        forall|i: int|
            0 <= i < lines.len() ==> !begins_with(trimmed(#[trigger] lines[i]), "Serial:"@),
    ensures
        serial_text(lines) is None,
    decreases lines.len(),
{
    if lines.len() > 0 {
        let more = lines.drop_first();
        assert(!begins_with(trimmed(lines[0]), "Serial:"@));
        assert forall|i: int| 0 <= i < more.len() implies !begins_with(
            trimmed(#[trigger] more[i]),
            "Serial:"@,
        ) by {
            assert(more[i] == lines[i + 1]);
        }
        lemma_no_serial(more);
    }
}

/// The serial of a certificate is the number on the first line that tells it, and
/// without such a line there is none.
pub proof fn law_a_serial_is_read_from_its_line(
    output: Vec<u8>,
    k: int,
    rest: Seq<char>,
    n: u64,
    r: Result<u64, String>,
)
    requires
        call_ensures(read_host_certificate_serial, (output,), r),
    ensures
        ({
            let all = lines(decode_utf8(output@));
            &&& valid_utf8(output@) && 0 <= k < all.len() && trimmed(all[k]) == "Serial:"@ + rest
                && trimmed(rest) == decimal(n as nat) && (forall|i: int|
                0 <= i < k ==> !begins_with(trimmed(#[trigger] all[i]), "Serial:"@)) ==> r == Ok::<
                u64,
                String,
            >(n)
            &&& (forall|i: int|
                0 <= i < all.len() ==> !begins_with(trimmed(#[trigger] all[i]), "Serial:"@))
                ==> r is Err
            &&& !valid_utf8(output@) ==> r is Err
        }),
{
    let all = lines(decode_utf8(output@));
    if valid_utf8(output@) && 0 <= k < all.len() && trimmed(all[k]) == "Serial:"@ + rest && trimmed(
        rest,
    ) == decimal(n as nat) && (forall|i: int|
        0 <= i < k ==> !begins_with(trimmed(#[trigger] all[i]), "Serial:"@)) {
        lemma_first_serial(all, k, rest);
        lemma_digits_of_decimal(n as nat, u64::MAX as nat);
        assert(is_digit(decimal(n as nat)[0]));
    }
    if forall|i: int| 0 <= i < all.len() ==> !begins_with(trimmed(#[trigger] all[i]), "Serial:"@) {
        lemma_no_serial(all);
    }
}

/// A first configuration is made from a template that is one, has its two sections
/// and gets a key of one line, and from nothing else.
pub proof fn law_a_first_configuration_needs_its_template(
    base: &str,
    hostname: &str,
    operator_key: &str,
    private_key: &str,
    public_key: &str,
    certificate: &str,
    r: Result<String, String>,
)
    requires
        call_ensures(
            render_strict_cloud_init,
            (base, hostname, operator_key, private_key, public_key, certificate),
            r,
        ),
    ensures
        r is Ok <==> begins_with(base@, "#cloud-config\n"@) && has_part(base@, "write_files:\n"@)
            && has_part(base@, "runcmd:\n"@) && !trimmed(operator_key@).contains('\n') && !trimmed(
            operator_key@,
        ).contains('\r'),
{
}

/// What a power action brings about is the state of a machine that is started or
/// halted; a reboot brings about none of its own.
pub proof fn law_actions_bring_about_their_state(action: InstanceAction, r: Option<&'static str>)
    requires
        call_ensures(InstanceAction::desired_power_status, (action,), r),
    ensures
        action is Start ==> r.deep_view() == Some("running"@),
        action is Halt ==> r.deep_view() == Some("stopped"@),
        action is Reboot ==> r is None,
{
}

} // verus!
