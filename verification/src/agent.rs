//! Talking to the agent on a host: how long it may take to start the runtime,
//! when a failed attempt is repeated, and how failures are told.
use crate::application::{BootstrapMode, mode_name};
use crate::requests::{Status, StatusCode, says};
use crate::text::{
    blank, cat2, cat3, cat4, cat6, contains, decimal, has_part, is_blank, join, joined, lowered,
    number, signed_decimal, signed_number, stands_at, texts, to_lowercase, trim, trimmed,
};
use vstd::prelude::*;
use vstd::string::*;

verus! {

/// How long, in seconds, starting the base may take.
pub const BASE_BOOTSTRAP_TIMEOUT_SECS: u64 = 300;

/// How long, in seconds, starting anything else may take.
pub const TUNNEL_BOOTSTRAP_TIMEOUT_SECS: u64 = 900;

/// How often the agent is told to start the runtime.
pub const BOOTSTRAP_RPC_ATTEMPTS: u64 = 3;

/// How long, in seconds, an agent may take in some mode.
pub open spec fn timeout_secs(mode: BootstrapMode) -> u64 {
    match mode {
        BootstrapMode::BootstrapBase => BASE_BOOTSTRAP_TIMEOUT_SECS,
        _ => TUNNEL_BOOTSTRAP_TIMEOUT_SECS,
    }
}

/// How long, in seconds, an agent may take in some mode.
pub fn bootstrap_timeout_secs(mode: BootstrapMode) -> (r: u64)
    ensures
        r == timeout_secs(mode),
{
    match mode {
        BootstrapMode::BootstrapBase => BASE_BOOTSTRAP_TIMEOUT_SECS,
        _ => TUNNEL_BOOTSTRAP_TIMEOUT_SECS,
    }
}

/// The number by which a mode is sent.
pub open spec fn mode_number(mode: BootstrapMode) -> i32 {
    match mode {
        BootstrapMode::Unspecified => 0,
        BootstrapMode::BootstrapBase => 1,
        BootstrapMode::BootstrapTunnel => 2,
        BootstrapMode::BootstrapFull => 3,
    }
}

/// Why telling an agent to start the runtime failed.
#[derive(Debug, PartialEq, Eq)]
pub enum BootstrapFault {
    Unreachable(String),
    TimedOut,
    Failed(String),
}

/// The words for a failure.
pub open spec fn bootstrap_fault_words(mode: BootstrapMode, fault: BootstrapFault) -> Seq<char> {
    match fault {
        BootstrapFault::Unreachable(e) => "failed to connect to edge-agent: "@ + e@,
        BootstrapFault::TimedOut => "edge-agent bootstrap RPC timed out after "@ + decimal(
            timeout_secs(mode) as nat,
        ) + "s for mode "@ + mode_name(mode),
        BootstrapFault::Failed(e) => "edge-agent bootstrap RPC failed: "@ + e@,
    }
}

/// The words for a failure to start the runtime.
pub fn bootstrap_runtime_with_tls(mode: BootstrapMode, fault: &BootstrapFault) -> (r: String)
    ensures
        r@ == bootstrap_fault_words(mode, *fault),
{
    match fault {
        BootstrapFault::Unreachable(e) => cat2("failed to connect to edge-agent: ", e.as_str()),
        BootstrapFault::TimedOut => cat4(
            "edge-agent bootstrap RPC timed out after ",
            number(bootstrap_timeout_secs(mode)).as_str(),
            "s for mode ",
            mode.as_str_name(),
        ),
        BootstrapFault::Failed(e) => cat2("edge-agent bootstrap RPC failed: ", e.as_str()),
    }
}

/// Whether a failure is one of the connection, which may pass.
pub open spec fn transport_failure(message: Seq<char>) -> bool {
    let m = lowered(message);
    has_part(m, "transport error"@) || has_part(m, "connection reset"@) || has_part(
        m,
        "broken pipe"@,
    ) || has_part(m, "connection refused"@) || has_part(m, "unavailable"@)
}

/// Whether a failure is one of the connection, which may pass.
pub fn is_retryable_bootstrap_transport_error(message: &str) -> (r: bool)
    ensures
        r == transport_failure(message@),
{
    let m: String = to_lowercase(message);
    contains(m.as_str(), "transport error") || contains(m.as_str(), "connection reset")
        || contains(m.as_str(), "broken pipe") || contains(m.as_str(), "connection refused")
        || contains(m.as_str(), "unavailable")
}

/// What follows an attempt to start the runtime.
#[derive(Debug, PartialEq, Eq)]
pub enum BootstrapNext {
    Accepted,
    /// Note that, wait so many seconds, and try again.
    Again { note: String, delay_secs: u64 },
    Failed(String),
}

/// What attempt number `attempt` (from one) to start the runtime leads to. The
/// outcome is a failure where there was one.
pub open spec fn bootstrap_attempt(
    mode: BootstrapMode,
    attempt: u64,
    outcome: Option<String>,
    next: BootstrapNext,
) -> bool {
    match outcome {
        None => next is Accepted,
        Some(e) => if attempt < BOOTSTRAP_RPC_ATTEMPTS && transport_failure(e@) {
            &&& next matches BootstrapNext::Again { note, delay_secs }
            &&& note@ == "edge-agent bootstrap RPC transient failure for "@ + mode_name(mode)
                + " on attempt "@ + decimal(attempt as nat) + "; retrying: "@ + e@
            &&& delay_secs == attempt * 2
        } else {
            next == BootstrapNext::Failed(e)
        },
    }
}

/// Decides what attempt number `attempt` (from one) to start the runtime leads
/// to. Only a failure of the connection is tried again, and not for ever.
pub fn bootstrap_runtime_with_tls_resilient(
    mode: BootstrapMode,
    attempt: u64,
    outcome: Option<String>,
) -> (r: BootstrapNext)
    ensures
        bootstrap_attempt(mode, attempt, outcome, r),
{
    match outcome {
        None => BootstrapNext::Accepted,
        Some(e) => {
            if attempt < BOOTSTRAP_RPC_ATTEMPTS && is_retryable_bootstrap_transport_error(
                e.as_str(),
            ) {
                let note: String = cat6(
                    "edge-agent bootstrap RPC transient failure for ",
                    mode.as_str_name(),
                    " on attempt ",
                    number(attempt).as_str(),
                    "; retrying: ",
                    e.as_str(),
                );
                BootstrapNext::Again { note, delay_secs: attempt * 2 }
            } else {
                BootstrapNext::Failed(e)
            }
        },
    }
}

/// The runtime is not told to start more often than allowed: after the last
/// attempt nothing is tried again, whatever came of it.
pub proof fn law_bootstrap_attempts_are_bounded(
    mode: BootstrapMode,
    attempt: u64,
    outcome: Option<String>,
    next: BootstrapNext,
)
    requires
        bootstrap_attempt(mode, attempt, outcome, next),
        attempt >= BOOTSTRAP_RPC_ATTEMPTS,
    ensures
        !(next is Again),
        next is Accepted <==> outcome is None,
{
}

/// What came back from starting the runtime.
#[derive(Debug, PartialEq, Eq)]
pub struct BootstrapRuntimeResponse {
    pub success: bool,
    pub mode: i32,
    pub exit_code: i32,
    pub stdout: String,
    pub stderr: String,
    pub warnings: Vec<String>,
}

/// The mode that a number stands for.
pub open spec fn mode_of_number(n: i32) -> Option<BootstrapMode> {
    if n == 0 {
        Some(BootstrapMode::Unspecified)
    } else if n == 1 {
        Some(BootstrapMode::BootstrapBase)
    } else if n == 2 {
        Some(BootstrapMode::BootstrapTunnel)
    } else if n == 3 {
        Some(BootstrapMode::BootstrapFull)
    } else {
        None
    }
}

impl BootstrapMode {
    /// The number by which the mode is sent.
    pub fn to_number(self) -> (r: i32)
        ensures
            r == mode_number(self),
    {
        match self {
            BootstrapMode::Unspecified => 0,
            BootstrapMode::BootstrapBase => 1,
            BootstrapMode::BootstrapTunnel => 2,
            BootstrapMode::BootstrapFull => 3,
        }
    }

    /// The mode that a number stands for.
    pub fn from_number(n: i32) -> (r: Option<BootstrapMode>)
        ensures
            r == mode_of_number(n),
    {
        if n == 0 {
            Some(BootstrapMode::Unspecified)
        } else if n == 1 {
            Some(BootstrapMode::BootstrapBase)
        } else if n == 2 {
            Some(BootstrapMode::BootstrapTunnel)
        } else if n == 3 {
            Some(BootstrapMode::BootstrapFull)
        } else {
            None
        }
    }
}

/// A mode is read back from the number by which it is sent.
pub proof fn law_mode_numbers_read_back(mode: BootstrapMode)
    ensures
        mode_of_number(mode_number(mode)) == Some(mode),
{
}

/// How a mode is told by its number.
pub open spec fn mode_words(n: i32) -> Seq<char> {
    match mode_of_number(n) {
        Some(mode) => mode_name(mode),
        None => "UNKNOWN("@ + signed_decimal(n as int) + ")"@,
    }
}

/// The parts of what is told of a runtime that did not start.
pub open spec fn failure_parts(response: BootstrapRuntimeResponse) -> Seq<Seq<char>> {
    let first = seq![
        "bootstrap-runtime "@ + mode_words(response.mode) + " failed with exit code "@
            + signed_decimal(response.exit_code as int),
    ];
    let second = if blank(response.stderr@) {
        first
    } else {
        first.push(trimmed(response.stderr@))
    };
    if response.warnings@.len() == 0 {
        second
    } else {
        second.push("warnings: "@ + joined(texts(response.warnings@), "; "@))
    }
}

/// Tells of a runtime that did not start.
pub fn format_bootstrap_failure(response: &BootstrapRuntimeResponse) -> (r: String)
    ensures
        r@ == joined(failure_parts(*response), ": "@),
{
    let mode: String = match BootstrapMode::from_number(response.mode) {
        Some(mode) => mode.as_str_name().to_owned(),
        None => cat3("UNKNOWN(", signed_number(response.mode).as_str(), ")"),
    };
    let mut parts: Vec<String> = Vec::new();
    parts.push(
        cat4(
            "bootstrap-runtime ",
            mode.as_str(),
            " failed with exit code ",
            signed_number(response.exit_code).as_str(),
        ),
    );
    assert(texts(parts@) =~= seq![
        "bootstrap-runtime "@ + mode_words(response.mode) + " failed with exit code "@
            + signed_decimal(response.exit_code as int),
    ]);
    if !is_blank(response.stderr.as_str()) {
        let ghost before = parts@;
        parts.push(trim(response.stderr.as_str()).to_owned());
        assert(texts(parts@) =~= texts(before).push(trimmed(response.stderr@)));
    }
    if response.warnings.len() > 0 {
        let ghost before = parts@;
        parts.push(cat2("warnings: ", join(&response.warnings, "; ").as_str()));
        assert(texts(parts@) =~= texts(before).push(
            "warnings: "@ + joined(texts(response.warnings@), "; "@),
        ));
    }
    assert(texts(parts@) =~= failure_parts(*response));
    join(&parts, ": ")
}

/// Reads the mode that the controller is asked to start.
pub fn check_bootstrap_request(mode: i32) -> (r: Result<BootstrapMode, Status>)
    ensures
        match mode_of_number(mode) {
            None => r matches Err(s) && says(
                s,
                StatusCode::InvalidArgument,
                "unknown bootstrap mode"@,
            ),
            Some(BootstrapMode::Unspecified) => r matches Err(s) && says(
                s,
                StatusCode::InvalidArgument,
                "bootstrap mode is required"@,
            ),
            Some(m) => r == Ok::<BootstrapMode, Status>(m),
        },
{
    match BootstrapMode::from_number(mode) {
        None => Err(Status::invalid_argument("unknown bootstrap mode".to_owned())),
        Some(BootstrapMode::Unspecified) => Err(
            Status::invalid_argument("bootstrap mode is required".to_owned()),
        ),
        Some(m) => Ok(m),
    }
}

/// A start is tried again only where the way to the agent broke down, at most
/// three times, and with a longer pause each time; every other failure ends it.
pub proof fn law_starts_are_tried_again_for_the_way_only(
    mode: BootstrapMode,
    attempt: u64,
    outcome: Option<String>,
    message: &str,
    passing: bool,
    r: BootstrapNext,
)
    requires
        outcome matches Some(e) ==> e@ == message@,
        call_ensures(is_retryable_bootstrap_transport_error, (message,), passing),
        call_ensures(bootstrap_runtime_with_tls_resilient, (mode, attempt, outcome), r),
    ensures
        r is Accepted <==> outcome is None,
        r is Again <==> outcome is Some && attempt < 3 && passing,
        r matches BootstrapNext::Again { delay_secs, .. } ==> delay_secs == 2 * attempt,
        r matches BootstrapNext::Failed(e) ==> outcome == Some(e),
        passing <==> has_part(lowered(message@), "transport error"@) || has_part(
            lowered(message@),
            "connection reset"@,
        ) || has_part(lowered(message@), "broken pipe"@) || has_part(
            lowered(message@),
            "connection refused"@,
        ) || has_part(lowered(message@), "unavailable"@),
{
}

/// The base is given less time than the rest.
pub proof fn law_the_base_is_given_less_time(mode: BootstrapMode, r: u64)
    requires
        call_ensures(bootstrap_timeout_secs, (mode,), r),
    ensures
        r == 300 <==> mode is BootstrapBase,
        r == 900 <==> !(mode is BootstrapBase),
{
}

/// A number is read as the mode that has it; and only one of the three real
/// modes may be asked for.
pub proof fn law_modes_are_asked_for_by_number(
    mode: BootstrapMode,
    n: i32,
    r: Result<BootstrapMode, Status>,
    other: i32,
    q: Result<BootstrapMode, Status>,
)
    requires
        call_ensures(BootstrapMode::to_number, (mode,), n),
        call_ensures(check_bootstrap_request, (n,), r),
        call_ensures(check_bootstrap_request, (other,), q),
    ensures
        mode is Unspecified <==> r is Err,
        r matches Ok(m) ==> m == mode,
        q is Ok <==> 1 <= other <= 3,
        q matches Err(s) ==> s.code is InvalidArgument,
{
}

/// A failed start is told with the mode and the code that it ended with, and with
/// what it said and warned of, where it did.
pub proof fn law_a_failed_start_is_told_whole(response: BootstrapRuntimeResponse, r: String)
    requires
        call_ensures(format_bootstrap_failure, (&response,), r),
    ensures
        blank(response.stderr@) && response.warnings@.len() == 0 ==> r@ == "bootstrap-runtime "@
            + mode_words(response.mode) + " failed with exit code "@ + signed_decimal(
            response.exit_code as int,
        ),
        !blank(response.stderr@) ==> has_part(r@, trimmed(response.stderr@)),
        response.warnings@.len() > 0 ==> has_part(r@, joined(texts(response.warnings@), "; "@)),
{
    let head = "bootstrap-runtime "@ + mode_words(response.mode) + " failed with exit code "@
        + signed_decimal(response.exit_code as int);
    let said = trimmed(response.stderr@);
    let warned = joined(texts(response.warnings@), "; "@);
    let parts = failure_parts(response);
    let colon = ": "@;
    let told = "warnings: "@;
    if blank(response.stderr@) && response.warnings@.len() == 0 {
        assert(parts =~= seq![head]);
        reveal_with_fuel(joined, 3);
        assert(joined(parts, colon) =~= head);
    } else {
        reveal_with_fuel(joined, 5);
        let n = head.len() as int;
        if !blank(response.stderr@) && response.warnings@.len() == 0 {
            assert(parts =~= seq![head, said]);
            assert(parts.drop_last() =~= seq![head]);
            assert(r@ =~= head + colon + said);
            assert(r@.subrange(n + colon.len(), n + colon.len() + said.len()) =~= said);
            assert(stands_at(r@, said, n + colon.len()));
        } else if blank(response.stderr@) {
            assert(parts =~= seq![head, told + warned]);
            assert(parts.drop_last() =~= seq![head]);
            assert(r@ =~= head + colon + told + warned);
            let at = n + colon.len() + told.len();
            assert(r@.subrange(at, at + warned.len()) =~= warned);
            assert(stands_at(r@, warned, at));
        } else {
            assert(parts =~= seq![head, said, told + warned]);
            assert(parts.drop_last() =~= seq![head, said]);
            assert(parts.drop_last().drop_last() =~= seq![head]);
            assert(r@ =~= head + colon + said + colon + told + warned);
            assert(r@.subrange(n + colon.len(), n + colon.len() + said.len()) =~= said);
            assert(stands_at(r@, said, n + colon.len()));
            let at = n + colon.len() + said.len() + colon.len() + told.len();
            assert(r@.subrange(at, at + warned.len()) =~= warned);
            assert(stands_at(r@, warned, at));
        }
    }
}

} // verus!
