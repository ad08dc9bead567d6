//! Keeping a DNS record at Cloudflare as wanted.
use crate::once::{Ask, Ending, Next, Phase, Reply, Sight, carries};
use crate::text::{blank, cat8, is_blank};
use vstd::prelude::*;
use vstd::string::*;

verus! {

/// How often, and with what pause, the records are looked at after a request.
#[derive(Debug, Clone, Copy, PartialEq, Eq, Structural)]
pub struct DnsExecutionPolicy {
    pub reobserve_attempts: usize,
    pub reobserve_delay_secs: u64,
}

impl Default for DnsExecutionPolicy {
    fn default() -> (r: DnsExecutionPolicy)
        ensures
            r.reobserve_attempts == 30,
            r.reobserve_delay_secs == 2,
    {
        DnsExecutionPolicy { reobserve_attempts: 30, reobserve_delay_secs: 2 }
    }
}

/// Checks that requests are looked at afterwards.
pub fn validate_policy(policy: DnsExecutionPolicy) -> (r: Result<(), String>)
    ensures
        match r {
            Ok(()) => policy.reobserve_attempts > 0,
            Err(e) => policy.reobserve_attempts == 0 && e@
                == "Cloudflare DNS re-observation attempts must be greater than zero"@,
        },
{
    if policy.reobserve_attempts == 0 {
        Err("Cloudflare DNS re-observation attempts must be greater than zero".to_owned())
    } else {
        Ok(())
    }
}

/// Access to the DNS records of an account.
pub struct CloudflareDnsApiProvider {
    api_token: String,
}

impl CloudflareDnsApiProvider {
    pub closed spec fn token(self) -> String {
        self.api_token
    }

    pub fn new(api_token: String) -> (r: Result<CloudflareDnsApiProvider, String>)
        ensures
            match r {
                Ok(p) => !blank(api_token@) && p.token() == api_token,
                Err(e) => blank(api_token@) && e@ == "CLOUDFLARE_API_TOKEN must be non-empty"@,
            },
    {
        if is_blank(api_token.as_str()) {
            return Err("CLOUDFLARE_API_TOKEN must be non-empty".to_owned());
        }
        Ok(CloudflareDnsApiProvider { api_token })
    }

    pub fn api_token(&self) -> (r: &str)
        ensures
            r@ == self.token()@,
    {
        self.api_token.as_str()
    }
}

/// A record as the provider reports it.
#[derive(Debug, PartialEq, Eq)]
pub struct CloudflareDnsRecord {
    pub id: String,
    pub zone_id: String,
    pub record_name: String,
    pub ip: String,
}

/// A record as it was observed.
#[derive(Debug, PartialEq, Eq)]
pub struct ObservedDnsRecord {
    pub provider_id: String,
    pub record_name: String,
    pub ip: String,
}

pub open spec fn seen_record(record: CloudflareDnsRecord) -> ObservedDnsRecord {
    ObservedDnsRecord {
        provider_id: record.id,
        record_name: record.record_name,
        ip: record.ip,
    }
}

/// Reads the records that the provider reports. `validated` says whether the
/// wanted state is valid: where it is not, the listing counts for nothing.
pub fn observe_dns(
    validated: Result<(), String>,
    listed: Result<Vec<CloudflareDnsRecord>, String>,
) -> (r: Result<Vec<ObservedDnsRecord>, String>)
    ensures
        match (validated, listed) {
            (Err(e), _) => r == Err::<Vec<ObservedDnsRecord>, String>(e),
            (Ok(()), Err(e)) => r == Err::<Vec<ObservedDnsRecord>, String>(e),
            (Ok(()), Ok(records)) => r matches Ok(seen) && seen@ == records@.map_values(
                |x: CloudflareDnsRecord| seen_record(x),
            ),
        },
{
    match validated {
        Err(e) => return Err(e),
        Ok(()) => {},
    }
    let records: Vec<CloudflareDnsRecord> = match listed {
        Err(e) => return Err(e),
        Ok(records) => records,
    };
    let mut out: Vec<ObservedDnsRecord> = Vec::new();
    let mut i: usize = 0;
    while i < records.len()
        invariant
            i <= records@.len(),
            out@.len() == i,
            forall|k: int| 0 <= k < i ==> #[trigger] out@[k] == seen_record(records@[k]),
        decreases records@.len() - i,
    {
        out.push(
            ObservedDnsRecord {
                provider_id: records[i].id.clone(),
                record_name: records[i].record_name.clone(),
                ip: records[i].ip.clone(),
            },
        );
        i = i + 1;
    }
    assert(out@ =~= records@.map_values(|x: CloudflareDnsRecord| seen_record(x)));
    Ok(out)
}

/// What a plan is going to do to the records.
#[derive(Debug, PartialEq, Eq)]
pub enum DnsChange {
    Nothing,
    Create { ip: String },
    Update { record_id: String, to_ip: String },
    Delete { record_id: String },
}

/// What is asked of the provider.
#[derive(Debug, PartialEq, Eq)]
pub enum DnsRequest {
    Create { zone_name: String, record_name: String, ip: String },
    Update { zone_name: String, record_id: String, record_name: String, ip: String },
    Delete { zone_name: String, record_id: String },
}

/// Where the record is to be.
#[derive(Debug, PartialEq, Eq)]
pub struct DesiredDnsState {
    pub zone_name: String,
    pub record_name: String,
}

/// The request that carries a change out.
pub open spec fn request_for(desired: DesiredDnsState, change: DnsChange) -> Option<DnsRequest> {
    match change {
        DnsChange::Nothing => None,
        DnsChange::Create { ip } => Some(
            DnsRequest::Create {
                zone_name: desired.zone_name,
                record_name: desired.record_name,
                ip,
            },
        ),
        DnsChange::Update { record_id, to_ip } => Some(
            DnsRequest::Update {
                zone_name: desired.zone_name,
                record_id,
                record_name: desired.record_name,
                ip: to_ip,
            },
        ),
        DnsChange::Delete { record_id } => Some(
            DnsRequest::Delete { zone_name: desired.zone_name, record_id },
        ),
    }
}

/// The request that carries the plan of an apply out; none where there is
/// nothing to do.
pub fn apply_dns_once(desired: &DesiredDnsState, change: &DnsChange) -> (r: Option<DnsRequest>)
    ensures
        r == request_for(*desired, *change),
{
    match change {
        DnsChange::Nothing => None,
        DnsChange::Create { ip } => Some(
            DnsRequest::Create {
                zone_name: desired.zone_name.clone(),
                record_name: desired.record_name.clone(),
                ip: ip.clone(),
            },
        ),
        DnsChange::Update { record_id, to_ip } => Some(
            DnsRequest::Update {
                zone_name: desired.zone_name.clone(),
                record_id: record_id.clone(),
                record_name: desired.record_name.clone(),
                ip: to_ip.clone(),
            },
        ),
        DnsChange::Delete { record_id } => Some(
            DnsRequest::Delete {
                zone_name: desired.zone_name.clone(),
                record_id: record_id.clone(),
            },
        ),
    }
}

/// The request that carries the plan of a cleanup out, once its digest has
/// been verified; a cleanup with nothing to remove is an error.
pub fn cleanup_dns_once(
    desired: &DesiredDnsState,
    verified: Result<DnsChange, String>,
) -> (r: Result<DnsRequest, String>)
    ensures
        match verified {
            Err(words) => r == Err::<DnsRequest, String>(words),
            Ok(change) => match request_for(*desired, change) {
                None => r matches Err(e) && e@
                    == "Cloudflare DNS cleanup target is already absent"@,
                Some(request) => r == Ok::<DnsRequest, String>(request),
            },
        },
{
    match verified {
        Err(e) => Err(e),
        Ok(change) => match apply_dns_once(desired, &change) {
            None => Err("Cloudflare DNS cleanup target is already absent".to_owned()),
            Some(request) => Ok(request),
        },
    }
}

/// What is being done to the records.
#[derive(Debug, Clone, Copy, PartialEq, Eq, Structural)]
pub enum DnsOperation {
    Apply,
    Cleanup,
}

/// A plan drawn up after the request: whether it leaves anything to do, and
/// how it and what it rests on are rendered in messages.
#[derive(Debug, PartialEq, Eq)]
pub struct DnsLook {
    pub nothing_left: bool,
    pub plan_words: String,
    pub observation_words: String,
}

/// The error for a change that no look proved.
pub open spec fn dns_unproven(
    operation: DnsOperation,
    performed: Seq<char>,
    detail: Seq<char>,
    look: DnsLook,
) -> Seq<char> {
    "Cloudflare DNS "@ + performed + (match operation {
        DnsOperation::Apply => " did not converge after bounded re-observation ("@,
        DnsOperation::Cleanup => " did not become absent after bounded re-observation ("@,
    }) + detail + "); mutation was not replayed; last_plan="@ + look.plan_words@
        + "; last_observation="@ + look.observation_words@
}

/// The watch over a change to the records.
#[derive(Debug, PartialEq, Eq)]
pub struct DnsWatch {
    pub operation: DnsOperation,
    pub phase: Phase,
    /// What the provider said to the request.
    pub detail: String,
}

/// What a look shows.
pub open spec fn dns_sight(look: Result<DnsLook, String>) -> Sight {
    match look {
        Err(_) => Sight::Broken,
        Ok(l) => if l.nothing_left {
            Sight::Reached
        } else {
            Sight::Pending
        },
    }
}

impl DnsWatch {
    /// Takes the reply to the request into account. Whatever the provider said,
    /// the records are looked at.
    pub fn replied(operation: DnsOperation, mutation: Result<(), String>) -> (r: DnsWatch)
        ensures
            r.operation == operation,
            match mutation {
                Ok(()) => r.phase == (Phase::Watching { seen: 0, reply: Reply::Accepted })
                    && r.detail@ == "mutation returned success"@,
                Err(words) => r.phase == (Phase::Watching { seen: 0, reply: Reply::Uncertain })
                    && r.detail == words,
            },
    {
        match mutation {
            Ok(()) => DnsWatch {
                operation,
                phase: Phase::Watching { seen: 0, reply: Reply::Accepted },
                detail: "mutation returned success".to_owned(),
            },
            Err(words) => DnsWatch {
                operation,
                phase: Phase::Watching { seen: 0, reply: Reply::Uncertain },
                detail: words,
            },
        }
    }

    /// Takes a plan drawn up after the request into account, or why there is
    /// none. The plan that proves the change comes back. `performed` is how the
    /// change is rendered in messages.
    pub fn reobserve_change(self, attempts: usize, performed: &str, look: Result<DnsLook, String>) -> (r: (
        DnsWatch,
        Next<DnsLook>,
    ))
        requires
            self.phase is Watching,
        ensures
            ({
                let (phase, ask) = self.phase.looked(attempts, dns_sight(look));
                &&& r.0 == (DnsWatch { phase, ..self })
                &&& carries(ask, r.1)
                &&& r.1 matches Next::Done(result) ==> match look {
                    Err(words) => result == Err::<DnsLook, String>(words),
                    Ok(l) => if l.nothing_left {
                        result == Ok::<DnsLook, String>(l)
                    } else {
                        result matches Err(e) && e@ == dns_unproven(
                            self.operation,
                            performed@,
                            self.detail@,
                            l,
                        )
                    },
                }
            }),
    {
        let seen: DnsLook = match look {
            Err(words) => {
                let (phase, _): (Phase, Ask) = self.phase.look(attempts, Sight::Broken);
                return (DnsWatch { phase, ..self }, Next::Done(Err(words)));
            },
            Ok(seen) => seen,
        };
        if seen.nothing_left {
            let (phase, _): (Phase, Ask) = self.phase.look(attempts, Sight::Reached);
            return (DnsWatch { phase, ..self }, Next::Done(Ok(seen)));
        }
        let (phase, ask): (Phase, Ask) = self.phase.look(attempts, Sight::Pending);
        match ask {
            Ask::Look { pause } => (DnsWatch { phase, ..self }, Next::Look { pause }),
            _ => {
                let e: String = cat8(
                    "Cloudflare DNS ",
                    performed,
                    match self.operation {
                        DnsOperation::Apply => " did not converge after bounded re-observation (",
                        DnsOperation::Cleanup =>
                        " did not become absent after bounded re-observation (",
                    },
                    self.detail.as_str(),
                    "); mutation was not replayed; last_plan=",
                    seen.plan_words.as_str(),
                    "; last_observation=",
                    seen.observation_words.as_str(),
                );
                (DnsWatch { phase, ..self }, Next::Done(Err(e)))
            },
        }
    }
}

/// A watched change succeeds only on a plan with nothing left to do, whatever
/// the provider said to the request.
pub proof fn law_dns_change_is_proved_by_a_look(
    attempts: usize,
    phase: Phase,
    look: Result<DnsLook, String>,
)
    requires
        phase is Watching,
    ensures
        phase.looked(attempts, dns_sight(look)).1 == Ask::Finish(Ending::Observed) ==> (
        look matches Ok(l) && l.nothing_left),
        !(phase.looked(attempts, dns_sight(look)).1 is Change),
{
}

/// What is sent is the change that was planned, to the very name and record it
/// is about, with the address that was planned; and nothing where nothing is to
/// be done.
pub proof fn law_the_planned_change_is_sent(
    desired: DesiredDnsState,
    change: DnsChange,
    r: Option<DnsRequest>,
)
    requires
        call_ensures(apply_dns_once, (&desired, &change), r),
    ensures
        r is None <==> change is Nothing,
        match change {
            DnsChange::Nothing => true,
            DnsChange::Create { ip } => r matches Some(
                DnsRequest::Create { zone_name, record_name, ip: to },
            ) && to@ == ip@ && zone_name@ == desired.zone_name@ && record_name@
                == desired.record_name@,
            DnsChange::Update { record_id, to_ip } => r matches Some(
                DnsRequest::Update { zone_name, record_id: id, record_name, ip: to },
            ) && to@ == to_ip@ && id@ == record_id@ && zone_name@ == desired.zone_name@
                && record_name@ == desired.record_name@,
            DnsChange::Delete { record_id } => r matches Some(
                DnsRequest::Delete { zone_name, record_id: id },
            ) && id@ == record_id@ && zone_name@ == desired.zone_name@,
        },
{
}

/// A name is removed only by the change whose digest was verified; one that is
/// not there is told so, and nothing is sent.
pub proof fn law_only_a_verified_removal_is_sent(
    desired: DesiredDnsState,
    verified: Result<DnsChange, String>,
    r: Result<DnsRequest, String>,
)
    requires
        call_ensures(cleanup_dns_once, (&desired, verified), r),
    ensures
        r is Ok ==> verified is Ok,
        verified matches Err(e) ==> r == Err::<DnsRequest, String>(e),
        verified == Ok::<DnsChange, String>(DnsChange::Nothing) ==> r is Err,
        verified matches Ok(DnsChange::Delete { record_id }) ==> (r matches Ok(
            DnsRequest::Delete { zone_name, record_id: id },
        ) && id@ == record_id@ && zone_name@ == desired.zone_name@),
{
}

/// Each record is read as the provider reports it, in its place, and only for a
/// valid state.
pub proof fn law_records_are_read_as_reported(
    validated: Result<(), String>,
    listed: Result<Vec<CloudflareDnsRecord>, String>,
    r: Result<Vec<ObservedDnsRecord>, String>,
)
    requires
        call_ensures(observe_dns, (validated, listed), r),
    ensures
        r is Ok <==> validated is Ok && listed is Ok,
        validated matches Err(e) ==> r == Err::<Vec<ObservedDnsRecord>, String>(e),
        r matches Ok(seen) ==> seen@.len() == listed->Ok_0@.len() && forall|i: int|
            0 <= i < seen@.len() ==> (#[trigger] seen@[i]).provider_id == listed->Ok_0@[i].id
                && seen@[i].record_name == listed->Ok_0@[i].record_name && seen@[i].ip
                == listed->Ok_0@[i].ip,
{
}

/// A change of a name is done exactly where a look finds nothing left to do, is
/// never sent twice, and is given up after the last look that is allowed.
pub proof fn law_a_name_is_changed_once_a_look_shows_it(
    operation: DnsOperation,
    mutation: Result<(), String>,
    begun: DnsWatch,
    state: DnsWatch,
    attempts: usize,
    performed: &str,
    look: Result<DnsLook, String>,
    r: (DnsWatch, Next<DnsLook>),
)
    requires
        call_ensures(DnsWatch::replied, (operation, mutation), begun),
        state.phase is Watching,
        call_ensures(DnsWatch::reobserve_change, (state, attempts, performed, look), r),
    ensures
        begun.phase is Watching,
        begun.operation == operation,
        !(r.1 is Change),
        r.1 matches Next::Done(Ok(_)) <==> (look matches Ok(l) && l.nothing_left),
        look is Err ==> (r.1 matches Next::Done(Err(_))),
        r.1 is Look ==> (state.phase matches Phase::Watching { seen, .. } && seen + 1 < attempts),
        look matches Ok(l) ==> (!l.nothing_left && (state.phase matches Phase::Watching {
            seen,
            ..
        } && seen + 1 < attempts) ==> r.1 is Look),
{
}

/// At least one look is asked for.
pub proof fn law_names_are_looked_at(policy: DnsExecutionPolicy, r: Result<(), String>)
    requires
        call_ensures(validate_policy, (policy,), r),
    ensures
        r is Ok <==> policy.reobserve_attempts > 0,
{
}

} // verus!
