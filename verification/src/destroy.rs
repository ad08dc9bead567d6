//! Taking a deployment down. A machine is removed only where the provider shows
//! exactly the one that the controller has recorded as its own.
use crate::cli::{nonblank, normalized};
use crate::provider::VultrInstance;
use crate::requests::{DestroyRequest, Status, StatusCode, says};
use crate::status::DeploymentSummary;
use crate::target::DestroyInstanceOutcome;
use crate::text::{
    begins_with, blank, cat12, cat2, cat3, cat4, cat6, copy_option, has_part, is_blank,
    law_trimming_keeps_words, push_text, same, stands_at, starts_with, texts, trimmed, words,
};
use vstd::prelude::*;
use vstd::string::*;

verus! {

/// How the labels of the controller's own machines begin.
pub const MANAGED_LABEL_PREFIX: &'static str = "waw-edge-";

/// The warning of a stop that found nothing to stop.
pub const NOT_RUNNING_WARNING: &'static str = "sing-box process is not running";

/// The text without white space around it, unless nothing is left.
pub fn blank_option(value: Option<String>) -> (r: Option<String>)
    ensures
        r.deep_view() == nonblank(value.deep_view()),
{
    normalized(value)
}

/// Puts a request to take a deployment down in order: no text in it is blank or
/// has white space around it.
pub fn normalize_destroy_request(request: DestroyRequest) -> (r: DestroyRequest)
    ensures
        r.instance_id.deep_view() == nonblank(request.instance_id.deep_view()),
        r.target_ip.deep_view() == nonblank(request.target_ip.deep_view()),
        r.dns_record_name.deep_view() == nonblank(request.dns_record_name.deep_view()),
        r.cloudflare_zone_name.deep_view() == nonblank(request.cloudflare_zone_name.deep_view()),
        r.lifecycle_reason.deep_view() == nonblank(request.lifecycle_reason.deep_view()),
        r.mock_provider == request.mock_provider,
        r.delete_dns == request.delete_dns,
        r.delete_instance == request.delete_instance,
{
    DestroyRequest {
        instance_id: blank_option(request.instance_id),
        target_ip: blank_option(request.target_ip),
        dns_record_name: blank_option(request.dns_record_name),
        cloudflare_zone_name: blank_option(request.cloudflare_zone_name),
        mock_provider: request.mock_provider,
        delete_dns: request.delete_dns,
        delete_instance: request.delete_instance,
        lifecycle_reason: blank_option(request.lifecycle_reason),
    }
}

/// What is to be taken down.
#[derive(Debug, PartialEq, Eq)]
pub struct DestroyTarget {
    pub instance_id: String,
    pub target_ip: String,
}

/// The text that was given, or the one that is recorded, or nothing.
pub open spec fn given_or_recorded(given: Option<String>, recorded: Option<String>) -> Seq<char> {
    match (given, recorded) {
        (Some(t), _) => t@,
        (None, Some(t)) => t@,
        (None, None) => Seq::empty(),
    }
}

fn prefer(given: &Option<String>, recorded: &Option<String>) -> (r: String)
    ensures
        r@ == given_or_recorded(*given, *recorded),
{
    match given {
        Some(t) => t.clone(),
        None => match recorded {
            Some(t) => t.clone(),
            None => String::new(),
        },
    }
}

/// Decides what is to be taken down: what was given, or what is recorded.
pub fn choose_destroy_target(request: &DestroyRequest, existing: &DeploymentSummary) -> (r:
    DestroyTarget)
    ensures
        r.instance_id@ == given_or_recorded(request.instance_id, existing.instance_id),
        r.target_ip@ == given_or_recorded(request.target_ip, existing.server_ip),
{
    DestroyTarget {
        instance_id: prefer(&request.instance_id, &existing.instance_id),
        target_ip: prefer(&request.target_ip, &existing.server_ip),
    }
}

/// What the journal is told of what is to be taken down.
pub fn destroy_target_event(target: &DestroyTarget, existing: &DeploymentSummary) -> (r: String)
    ensures
        r@ == "destroy target recorded: id="@ + target.instance_id@ + " label="@ + (match
        existing.deployment_label {
            Some(l) => l@,
            None => "<missing>"@,
        }) + " ip="@ + target.target_ip@,
{
    let label: &str = match &existing.deployment_label {
        Some(l) => l.as_str(),
        None => "<missing>",
    };
    cat6(
        "destroy target recorded: id=",
        target.instance_id.as_str(),
        " label=",
        label,
        " ip=",
        target.target_ip.as_str(),
    )
}

/// What the journal is told of a request at first: that it came, and why, where
/// a reason is given.
pub fn destroy_request_events(request: &DestroyRequest) -> (r: Vec<String>)
    ensures
        texts(r@) == match request.lifecycle_reason {
            Some(reason) => seq!["destroy requested"@, "lifecycle reason: "@ + reason@],
            None => seq!["destroy requested"@],
        },
{
    let mut events: Vec<String> = Vec::new();
    assert(texts(events@) =~= Seq::<Seq<char>>::empty());
    push_text(&mut events, "destroy requested".to_owned());
    match &request.lifecycle_reason {
        Some(reason) => {
            push_text(&mut events, cat2("lifecycle reason: ", reason.as_str()));
            assert(texts(events@) =~= seq!["destroy requested"@, "lifecycle reason: "@ + reason@]);
        },
        None => {
            assert(texts(events@) =~= seq!["destroy requested"@]);
        },
    }
    events
}

/// A text, unless it is empty.
pub open spec fn unless_empty(text: Seq<char>) -> Option<Seq<char>> {
    if text.len() == 0 {
        None
    } else {
        Some(text)
    }
}

fn when_not_empty(text: &String) -> (r: Option<String>)
    ensures
        r.deep_view() == unless_empty(text@),
{
    proof {
        reveal_strlit("");
    }
    if same(text.as_str(), "") {
        None
    } else {
        assert(text@ != ""@);
        assert(text@.len() == 0 ==> text@ =~= ""@);
        Some(text.clone())
    }
}

impl DestroyTarget {
    /// The machine's name and address as the operation keeps them: none where
    /// there is nothing to keep.
    pub fn kept(&self) -> (r: (Option<String>, Option<String>))
        ensures
            r.0.deep_view() == unless_empty(self.instance_id@),
            r.1.deep_view() == unless_empty(self.target_ip@),
    {
        (when_not_empty(&self.instance_id), when_not_empty(&self.target_ip))
    }
}

/// A step of taking a deployment down.
#[derive(Debug, Clone, Copy, PartialEq, Eq, Structural)]
pub enum DestroyStep {
    /// Get the key to the provider, to see the machine.
    ReadCredential,
    /// See the provider's machine, which has to be the recorded one.
    ReadMachine,
    DeleteDns,
    /// Get the key to the provider, to remove the machine.
    ReadCredentialAgain,
    DeleteInstance,
    StopLocalRuntime,
    ClearState,
    Finished,
}

/// Which of the steps that may be left out are taken.
#[derive(Debug, Clone, Copy, PartialEq, Eq, Structural)]
pub struct DestroyCourse {
    pub verifies_provider: bool,
    pub deletes_dns: bool,
    pub deletes_instance: bool,
}

/// The steps that a request asks for.
pub open spec fn destroy_course(request: DestroyRequest, target: DestroyTarget) -> DestroyCourse {
    DestroyCourse {
        verifies_provider: request.delete_instance && !request.mock_provider,
        deletes_dns: request.delete_dns,
        deletes_instance: request.delete_instance && !blank(target.instance_id@)
            && !request.mock_provider,
    }
}

/// Decides on the steps that a request asks for.
pub fn plan_destroy(request: &DestroyRequest, target: &DestroyTarget) -> (r: DestroyCourse)
    ensures
        r == destroy_course(*request, *target),
{
    DestroyCourse {
        verifies_provider: request.delete_instance && !request.mock_provider,
        deletes_dns: request.delete_dns,
        deletes_instance: request.delete_instance && !is_blank(target.instance_id.as_str())
            && !request.mock_provider,
    }
}

/// Some steps, or none.
pub open spec fn destroy_steps_if(wanted: bool, steps: Seq<DestroyStep>) -> Seq<DestroyStep> {
    if wanted {
        steps
    } else {
        Seq::empty()
    }
}

/// All steps of taking a deployment down, in order.
pub open spec fn destroy_steps(course: DestroyCourse) -> Seq<DestroyStep> {
    destroy_steps_if(
        course.verifies_provider,
        seq![DestroyStep::ReadCredential, DestroyStep::ReadMachine],
    ) + destroy_steps_if(course.deletes_dns, seq![DestroyStep::DeleteDns]) + destroy_steps_if(
        course.deletes_instance,
        seq![DestroyStep::ReadCredentialAgain, DestroyStep::DeleteInstance],
    ) + seq![DestroyStep::StopLocalRuntime, DestroyStep::ClearState, DestroyStep::Finished]
}

/// The first step.
pub open spec fn first_destroy_step(course: DestroyCourse) -> DestroyStep {
    if course.verifies_provider {
        DestroyStep::ReadCredential
    } else {
        destroy_after(course, DestroyStep::ReadMachine)
    }
}

/// The step after one that worked.
pub open spec fn destroy_after(course: DestroyCourse, done: DestroyStep) -> DestroyStep {
    let third = if course.deletes_instance {
        DestroyStep::ReadCredentialAgain
    } else {
        DestroyStep::StopLocalRuntime
    };
    match done {
        DestroyStep::ReadCredential => DestroyStep::ReadMachine,
        DestroyStep::ReadMachine => if course.deletes_dns {
            DestroyStep::DeleteDns
        } else {
            third
        },
        DestroyStep::DeleteDns => third,
        DestroyStep::ReadCredentialAgain => DestroyStep::DeleteInstance,
        DestroyStep::DeleteInstance => DestroyStep::StopLocalRuntime,
        DestroyStep::StopLocalRuntime => DestroyStep::ClearState,
        DestroyStep::ClearState | DestroyStep::Finished => DestroyStep::Finished,
    }
}

fn step_after(course: DestroyCourse, done: DestroyStep) -> (r: DestroyStep)
    ensures
        r == destroy_after(course, done),
{
    let third: DestroyStep = if course.deletes_instance {
        DestroyStep::ReadCredentialAgain
    } else {
        DestroyStep::StopLocalRuntime
    };
    match done {
        DestroyStep::ReadCredential => DestroyStep::ReadMachine,
        DestroyStep::ReadMachine => {
            if course.deletes_dns {
                DestroyStep::DeleteDns
            } else {
                third
            }
        },
        DestroyStep::DeleteDns => third,
        DestroyStep::ReadCredentialAgain => DestroyStep::DeleteInstance,
        DestroyStep::DeleteInstance => DestroyStep::StopLocalRuntime,
        DestroyStep::StopLocalRuntime => DestroyStep::ClearState,
        DestroyStep::ClearState => DestroyStep::Finished,
        DestroyStep::Finished => DestroyStep::Finished,
    }
}

/// As long as its steps work, taking a deployment down goes through all of them
/// from one end to the other.
pub proof fn law_destroy_goes_through_its_steps(course: DestroyCourse)
    ensures
        first_destroy_step(course) == destroy_steps(course).first(),
        destroy_steps(course).last() == DestroyStep::Finished,
        forall|i: int|
            0 <= i < destroy_steps(course).len() - 1 ==> #[trigger] destroy_after(
                course,
                destroy_steps(course)[i],
            ) == destroy_steps(course)[i + 1],
{
}

/// A machine is removed only after the provider's machine was compared with the
/// recorded one, and the record is cleared only after the machine was removed.
pub proof fn law_machine_is_verified_before_it_is_removed(
    request: DestroyRequest,
    target: DestroyTarget,
)
    ensures
        ({
            let course = destroy_course(request, target);
            let steps = destroy_steps(course);
            course.deletes_instance ==> {
                &&& steps[1] == DestroyStep::ReadMachine
                &&& exists|i: int|
                    1 < i < steps.len() - 2 && #[trigger] steps[i] == DestroyStep::DeleteInstance
                &&& steps[steps.len() - 2] == DestroyStep::ClearState
            }
        }),
{
    let course = destroy_course(request, target);
    let steps = destroy_steps(course);
    if course.deletes_instance {
        if course.deletes_dns {
            assert(steps[4] == DestroyStep::DeleteInstance);
        } else {
            assert(steps[3] == DestroyStep::DeleteInstance);
        }
    }
}

/// The machine that is recorded as the controller's own.
#[derive(Debug, PartialEq, Eq)]
pub struct RecordedMachine {
    pub label: String,
    pub instance_id: String,
    /// Its address, where that is recorded.
    pub server_ip: Option<String>,
}

/// Whether this is the machine that a summary records.
pub open spec fn is_record_of(recorded: RecordedMachine, existing: DeploymentSummary) -> bool {
    &&& existing.deployment_label == Some(recorded.label)
    &&& existing.instance_id == Some(recorded.instance_id)
    &&& existing.server_ip == recorded.server_ip
}

/// A refusal to take a deployment down, and the stage it comes at.
#[derive(Debug, PartialEq, Eq)]
pub struct DestroyRefusal {
    pub stage: &'static str,
    pub status: Status,
}

/// Whether a refusal says that at that stage.
pub open spec fn refuses(r: DestroyRefusal, stage: Seq<char>, message: Seq<char>) -> bool {
    r.stage@ == stage && says(r.status, StatusCode::FailedPrecondition, message)
}

/// Whether what is to be taken down is the recorded machine, and one of the
/// controller's own.
pub open spec fn is_recorded_machine(
    target: DestroyTarget,
    label: Seq<char>,
    instance_id: Seq<char>,
) -> bool {
    target.instance_id@ == instance_id && !blank(target.target_ip@) && begins_with(
        label,
        MANAGED_LABEL_PREFIX@,
    )
}

/// Whether what is to be taken down is recorded as the controller's own.
pub open spec fn recorded_as_own(target: DestroyTarget, existing: DeploymentSummary) -> bool {
    existing.deployment_label matches Some(label) && existing.instance_id matches Some(id)
        && is_recorded_machine(target, label@, id@)
}

/// Whether a refusal tells why what is to be taken down is not recorded as the
/// controller's own.
pub open spec fn foreign_refusal(existing: DeploymentSummary, f: DestroyRefusal) -> bool {
    match (existing.deployment_label, existing.instance_id) {
        (None, _) => refuses(
            f,
            "read recorded label"@,
            "refusing destroy: recorded deployment label is absent"@,
        ),
        (Some(_), None) => refuses(
            f,
            "read recorded instance id"@,
            "refusing destroy: recorded instance id is absent"@,
        ),
        (Some(_), Some(_)) => refuses(
            f,
            "target validation"@,
            "refusing destroy: target does not match the recorded managed deployment"@,
        ),
    }
}

/// Checks that what is to be taken down is the recorded machine.
pub fn check_destroy_target(target: &DestroyTarget, existing: &DeploymentSummary) -> (r: Result<
    RecordedMachine,
    DestroyRefusal,
>)
    ensures
        match r {
            Ok(m) => recorded_as_own(*target, *existing) && is_record_of(m, *existing),
            Err(f) => !recorded_as_own(*target, *existing) && foreign_refusal(*existing, f),
        },
{
    let label: String = match &existing.deployment_label {
        Some(label) => label.clone(),
        None => {
            return Err(
                DestroyRefusal {
                    stage: "read recorded label",
                    status: Status::failed_precondition(
                        "refusing destroy: recorded deployment label is absent".to_owned(),
                    ),
                },
            );
        },
    };
    let instance_id: String = match &existing.instance_id {
        Some(id) => id.clone(),
        None => {
            return Err(
                DestroyRefusal {
                    stage: "read recorded instance id",
                    status: Status::failed_precondition(
                        "refusing destroy: recorded instance id is absent".to_owned(),
                    ),
                },
            );
        },
    };
    if !same(target.instance_id.as_str(), instance_id.as_str()) || is_blank(
        target.target_ip.as_str(),
    ) || !starts_with(label.as_str(), MANAGED_LABEL_PREFIX) {
        return Err(
            DestroyRefusal {
                stage: "target validation",
                status: Status::failed_precondition(
                    "refusing destroy: target does not match the recorded managed deployment".to_owned(),
                ),
            },
        );
    }
    Ok(RecordedMachine { label, instance_id, server_ip: copy_option(&existing.server_ip) })
}

/// Whether the provider's machine has the recorded name and label and the
/// address that was asked for.
pub open spec fn is_asked_for(
    remote: VultrInstance,
    recorded: RecordedMachine,
    target: DestroyTarget,
) -> bool {
    &&& remote.id@ == recorded.instance_id@
    &&& remote.label@ == recorded.label@
    &&& begins_with(remote.label@, MANAGED_LABEL_PREFIX@)
    &&& remote.main_ip@ == target.target_ip@
}

/// Whether the provider's machine is the recorded one in its name, its label
/// and its address, and the one that was asked for. An address that is not
/// recorded cannot tell machines apart.
pub open spec fn is_same_machine(
    remote: VultrInstance,
    recorded: RecordedMachine,
    target: DestroyTarget,
) -> bool {
    &&& is_asked_for(remote, recorded, target)
    &&& recorded.server_ip matches Some(ip) ==> remote.main_ip@ == ip@
}

/// What is said of a machine of the provider that is the recorded one.
pub open spec fn verified_words(recorded: RecordedMachine, target: DestroyTarget) -> Seq<char> {
    "destroy target verified: id="@ + target.instance_id@ + " label="@ + recorded.label@ + " ip="@
        + target.target_ip@
}

/// The address that the provider's machine does not have: the one that was asked
/// for, or the recorded one where that alone differs.
pub open spec fn expected_ip(
    remote: VultrInstance,
    recorded: RecordedMachine,
    target: DestroyTarget,
) -> Seq<char> {
    match recorded.server_ip {
        Some(ip) if is_asked_for(remote, recorded, target) => ip@,
        _ => target.target_ip@,
    }
}

/// What is said of a machine of the provider that is not the recorded one.
pub open spec fn other_machine(
    remote: VultrInstance,
    recorded: RecordedMachine,
    target: DestroyTarget,
) -> Seq<char> {
    "destroy refused: expected id="@ + recorded.instance_id@ + " label="@ + recorded.label@
        + " ip="@ + expected_ip(remote, recorded, target) + "; provider returned id="@ + remote.id@
        + " label="@ + remote.label@ + " ip="@ + remote.main_ip@
}

/// Compares the provider's machine with the recorded one. What the journal is
/// told comes back either way.
pub fn verify_destroy_identity(
    remote: &VultrInstance,
    recorded: &RecordedMachine,
    target: &DestroyTarget,
) -> (r: Result<String, String>)
    ensures
        match r {
            Ok(note) => is_same_machine(*remote, *recorded, *target) && note@ == verified_words(
                *recorded,
                *target,
            ),
            Err(note) => !is_same_machine(*remote, *recorded, *target) && note@ == other_machine(
                *remote,
                *recorded,
                *target,
            ),
        },
{
    let asked_for: bool = same(remote.id.as_str(), recorded.instance_id.as_str()) && same(
        remote.label.as_str(),
        recorded.label.as_str(),
    ) && starts_with(remote.label.as_str(), MANAGED_LABEL_PREFIX) && same(
        remote.main_ip.as_str(),
        target.target_ip.as_str(),
    );
    let (at_home, expected): (bool, &str) = match &recorded.server_ip {
        Some(ip) => (
            same(remote.main_ip.as_str(), ip.as_str()),
            if asked_for {
                ip.as_str()
            } else {
                target.target_ip.as_str()
            },
        ),
        None => (true, target.target_ip.as_str()),
    };
    if asked_for && at_home {
        Ok(
            cat6(
                "destroy target verified: id=",
                target.instance_id.as_str(),
                " label=",
                recorded.label.as_str(),
                " ip=",
                target.target_ip.as_str(),
            ),
        )
    } else {
        Err(
            cat12(
                "destroy refused: expected id=",
                recorded.instance_id.as_str(),
                " label=",
                recorded.label.as_str(),
                " ip=",
                expected,
                "; provider returned id=",
                remote.id.as_str(),
                " label=",
                remote.label.as_str(),
                " ip=",
                remote.main_ip.as_str(),
            ),
        )
    }
}

/// What the journal is told of the machine's end.
pub open spec fn removed_words(instance_id: Seq<char>, outcome: DestroyInstanceOutcome) -> Seq<
    char,
> {
    match outcome {
        DestroyInstanceOutcome::Requested => "Vultr instance destroy requested"@,
        DestroyInstanceOutcome::AlreadyAbsent => "Vultr instance "@ + instance_id
            + " was already absent; authoritative state was reconciled locally"@,
    }
}

/// What the journal is told of the machine's end, and the warning where it was
/// gone already.
pub fn instance_removed(instance_id: &str, outcome: DestroyInstanceOutcome) -> (r: (
    String,
    Option<String>,
))
    ensures
        r.0@ == removed_words(instance_id@, outcome),
        r.1.deep_view() == if outcome is AlreadyAbsent {
            Some(r.0@)
        } else {
            None
        },
{
    match outcome {
        DestroyInstanceOutcome::Requested => (
            "Vultr instance destroy requested".to_owned(),
            None,
        ),
        DestroyInstanceOutcome::AlreadyAbsent => {
            let words: String = cat3(
                "Vultr instance ",
                instance_id,
                " was already absent; authoritative state was reconciled locally",
            );
            (words.clone(), Some(words))
        },
    }
}

/// The warnings of a stop that are worth telling.
pub open spec fn worth_telling(warnings: Seq<Seq<char>>) -> Seq<Seq<char>>
    decreases warnings.len(),
{
    if warnings.len() == 0 {
        Seq::empty()
    } else if warnings.last() == NOT_RUNNING_WARNING@ {
        worth_telling(warnings.drop_last())
    } else {
        worth_telling(warnings.drop_last()).push(warnings.last())
    }
}

/// What the journal is told of the proxy's stop.
pub open spec fn stopped_words(outcome: Result<(String, Vec<String>), String>) -> Seq<char> {
    match outcome {
        Ok((note, _)) => "destroy local runtime stop: "@ + note@,
        Err(e) => "destroy local runtime stop failed: "@ + e@,
    }
}

/// The warnings of the proxy's stop.
pub open spec fn stopped_warnings(outcome: Result<(String, Vec<String>), String>) -> Seq<
    Seq<char>,
> {
    match outcome {
        Ok((_, warnings)) => worth_telling(texts(warnings@)),
        Err(e) => seq![stopped_words(outcome)],
    }
}

/// What is told of the proxy's stop: what the journal is told, and the
/// warnings. That nothing ran is not worth a warning, and a stop that failed
/// does not stop the rest.
pub fn stop_local_runtime_for_destroy(outcome: &Result<(String, Vec<String>), String>) -> (r: (
    String,
    Vec<String>,
))
    ensures
        r.0@ == stopped_words(*outcome),
        texts(r.1@) == stopped_warnings(*outcome),
{
    let mut told: Vec<String> = Vec::new();
    assert(texts(told@) =~= Seq::<Seq<char>>::empty());
    match outcome {
        Ok((note, warnings)) => {
            let ghost all = texts(warnings@);
            let mut i: usize = 0;
            assert(all.take(0) =~= Seq::<Seq<char>>::empty());
            while i < warnings.len()
                invariant
                    i <= warnings@.len(),
                    all == texts(warnings@),
                    texts(told@) == worth_telling(all.take(i as int)),
                decreases warnings@.len() - i,
            {
                assert(all.take(i + 1).drop_last() =~= all.take(i as int));
                assert(all.take(i + 1).last() == warnings@[i as int]@);
                if !same(warnings[i].as_str(), NOT_RUNNING_WARNING) {
                    push_text(&mut told, warnings[i].clone());
                }
                i = i + 1;
            }
            assert(all.take(i as int) =~= all);
            (cat2("destroy local runtime stop: ", note.as_str()), told)
        },
        Err(e) => {
            let words: String = cat2("destroy local runtime stop failed: ", e.as_str());
            push_text(&mut told, words.clone());
            assert(texts(told@) =~= seq![words@]);
            (words, told)
        },
    }
}

/// What the journal is told of a failure.
pub fn fail_destroy_operation(stage: &str, message: &str) -> (r: String)
    ensures
        r@ == "destroy failed at "@ + stage@ + ": "@ + message@,
{
    cat4("destroy failed at ", stage, ": ", message)
}

/// What came of a step.
#[derive(Debug, PartialEq, Eq)]
pub enum DestroyOutcome {
    /// It worked; the text is what is to be told of it, where that is open.
    Done(String),
    Failed(String),
    /// The provider showed a machine.
    Machine(VultrInstance),
    Removed(DestroyInstanceOutcome),
    /// The proxy was stopped, with a note and warnings, or not.
    Stopped(Result<(String, Vec<String>), String>),
}

/// Whether a step can come to an outcome.
pub open spec fn destroy_outcome_of(step: DestroyStep, outcome: DestroyOutcome) -> bool {
    match outcome {
        DestroyOutcome::Done(_) => step is ReadCredential || step is DeleteDns
            || step is ReadCredentialAgain || step is ClearState,
        DestroyOutcome::Failed(_) => !(step is StopLocalRuntime || step is Finished),
        DestroyOutcome::Machine(_) => step is ReadMachine,
        DestroyOutcome::Removed(_) => step is DeleteInstance,
        DestroyOutcome::Stopped(_) => step is StopLocalRuntime,
    }
}

/// A line for the journal. Where it cannot be written, the request is refused:
/// at a stage that the journal is told of, or without more ado.
#[derive(Debug, PartialEq, Eq)]
pub struct DestroyNote {
    pub text: String,
    pub stage: Option<&'static str>,
}

/// What follows a step, once the journal is told.
#[derive(Debug, PartialEq, Eq)]
pub enum DestroyNext {
    /// Carry out the step that the run has come to.
    Go { note: Option<DestroyNote>, warnings: Vec<String> },
    Refuse { note: Option<DestroyNote>, refusal: DestroyRefusal },
}

/// What a [`DestroyNext`] holds.
pub enum DestroyText {
    Go { note: Option<(Seq<char>, Option<Seq<char>>)>, warnings: Seq<Seq<char>> },
    Refuse {
        note: Option<(Seq<char>, Option<Seq<char>>)>,
        stage: Seq<char>,
        code: StatusCode,
        message: Seq<char>,
    },
}

/// What a line for the journal holds.
pub open spec fn note_text(note: Option<DestroyNote>) -> Option<(Seq<char>, Option<Seq<char>>)> {
    match note {
        Some(n) => Some(
            (
                n.text@,
                match n.stage {
                    Some(stage) => Some(stage@),
                    None => None,
                },
            ),
        ),
        None => None,
    }
}

impl View for DestroyNext {
    type V = DestroyText;

    open spec fn view(&self) -> DestroyText {
        match *self {
            DestroyNext::Go { note, warnings } => DestroyText::Go {
                note: note_text(note),
                warnings: texts(warnings@),
            },
            DestroyNext::Refuse { note, refusal } => DestroyText::Refuse {
                note: note_text(note),
                stage: refusal.stage@,
                code: refusal.status.code,
                message: refusal.status.message@,
            },
        }
    }
}

/// The stage of a failed step, as the journal names it.
pub open spec fn failed_stage(step: DestroyStep) -> Seq<char> {
    match step {
        DestroyStep::ReadCredential => "resolve Vultr credential"@,
        DestroyStep::ReadMachine => "read VM from Vultr"@,
        DestroyStep::DeleteDns => "delete DNS record"@,
        DestroyStep::ReadCredentialAgain => "resolve Vultr credential for deletion"@,
        DestroyStep::DeleteInstance => "delete VM at Vultr"@,
        DestroyStep::StopLocalRuntime => "stop local runtime"@,
        DestroyStep::ClearState | DestroyStep::Finished => "clear local deployment state"@,
    }
}

/// The stage of a failed step, as the journal names it.
pub fn destroy_stage_name(step: DestroyStep) -> (r: &'static str)
    ensures
        r@ == failed_stage(step),
{
    match step {
        DestroyStep::ReadCredential => "resolve Vultr credential",
        DestroyStep::ReadMachine => "read VM from Vultr",
        DestroyStep::DeleteDns => "delete DNS record",
        DestroyStep::ReadCredentialAgain => "resolve Vultr credential for deletion",
        DestroyStep::DeleteInstance => "delete VM at Vultr",
        DestroyStep::StopLocalRuntime => "stop local runtime",
        DestroyStep::ClearState => "clear local deployment state",
        DestroyStep::Finished => "clear local deployment state",
    }
}

/// Taking a deployment down, as far as it has come.
#[derive(Debug, PartialEq, Eq)]
pub struct DestroyRun {
    pub course: DestroyCourse,
    pub step: DestroyStep,
    pub target: DestroyTarget,
    /// The machine that is recorded, where the provider's is compared with it.
    pub recorded: Option<RecordedMachine>,
}

/// Whether a run that compares machines has one to compare with, which is the
/// one that is to be taken down.
pub open spec fn destroy_run_wf(run: DestroyRun) -> bool {
    &&& run.course.verifies_provider ==> run.recorded is Some
    &&& run.step == DestroyStep::ReadMachine ==> run.course.verifies_provider
    &&& run.step == DestroyStep::ReadCredential ==> run.course.verifies_provider
    &&& run.recorded matches Some(m) ==> is_recorded_machine(
        run.target,
        m.label@,
        m.instance_id@,
    )
}

/// Whether a run begins so.
pub open spec fn destroy_begins(
    request: DestroyRequest,
    target: DestroyTarget,
    existing: DeploymentSummary,
    run: DestroyRun,
) -> bool {
    &&& run.course == destroy_course(request, target)
    &&& run.step == first_destroy_step(run.course)
    &&& run.target == target
    &&& destroy_run_wf(run)
    &&& run.recorded matches Some(m) ==> is_record_of(m, existing)
}

/// What follows a step by what came of it.
pub open spec fn destroy_next(run: DestroyRun, outcome: DestroyOutcome) -> DestroyText {
    match outcome {
        DestroyOutcome::Done(note) => DestroyText::Go {
            note: if run.step == DestroyStep::DeleteDns {
                Some((note@, Some("record DNS deletion"@)))
            } else {
                None
            },
            warnings: Seq::empty(),
        },
        DestroyOutcome::Failed(failure) => DestroyText::Refuse {
            note: None,
            stage: failed_stage(run.step),
            code: StatusCode::Internal,
            message: if run.step == DestroyStep::ClearState {
                "failed to clear deployment state: "@ + failure@
            } else {
                failure@
            },
        },
        DestroyOutcome::Machine(remote) => {
            let recorded = run.recorded->Some_0;
            if is_same_machine(remote, recorded, run.target) {
                DestroyText::Go {
                    note: Some((verified_words(recorded, run.target), None)),
                    warnings: Seq::empty(),
                }
            } else {
                DestroyText::Refuse {
                    note: Some((other_machine(remote, recorded, run.target), None)),
                    stage: "provider identity verification"@,
                    code: StatusCode::FailedPrecondition,
                    message: other_machine(remote, recorded, run.target),
                }
            }
        },
        DestroyOutcome::Removed(removed) => DestroyText::Go {
            note: Some((removed_words(run.target.instance_id@, removed), None)),
            warnings: if removed is AlreadyAbsent {
                seq![removed_words(run.target.instance_id@, removed)]
            } else {
                Seq::empty()
            },
        },
        DestroyOutcome::Stopped(stopped) => DestroyText::Go {
            note: Some((stopped_words(stopped), Some(failed_stage(run.step)))),
            warnings: stopped_warnings(stopped),
        },
    }
}

impl DestroyRun {
    /// Begins to take a deployment down, where a machine is to be removed only
    /// if it is the recorded one.
    pub fn new(
        request: &DestroyRequest,
        target: DestroyTarget,
        existing: &DeploymentSummary,
    ) -> (r: Result<DestroyRun, DestroyRefusal>)
        ensures
            match r {
                Ok(run) => destroy_begins(*request, target, *existing, run),
                Err(f) => destroy_course(*request, target).verifies_provider
                    && !recorded_as_own(target, *existing) && foreign_refusal(*existing, f),
            },
    {
        let course: DestroyCourse = plan_destroy(request, &target);
        if course.verifies_provider {
            match check_destroy_target(&target, existing) {
                Err(refusal) => Err(refusal),
                Ok(machine) => Ok(
                    DestroyRun {
                        course,
                        step: DestroyStep::ReadCredential,
                        target,
                        recorded: Some(machine),
                    },
                ),
            }
        } else {
            Ok(
                DestroyRun {
                    course,
                    step: step_after(course, DestroyStep::ReadMachine),
                    target,
                    recorded: None,
                },
            )
        }
    }

    /// Goes on after a step by what came of it.
    pub fn destroy(&mut self, outcome: DestroyOutcome) -> (r: DestroyNext)
        requires
            destroy_run_wf(*old(self)),
            destroy_outcome_of(old(self).step, outcome),
        ensures
            r@ == destroy_next(*old(self), outcome),
            destroy_run_wf(*final(self)),
            final(self).course == old(self).course,
            final(self).target == old(self).target,
            final(self).recorded == old(self).recorded,
            final(self).step == if r is Go {
                destroy_after(old(self).course, old(self).step)
            } else {
                old(self).step
            },
    {
        let step: DestroyStep = self.step;
        let mut warnings: Vec<String> = Vec::new();
        assert(texts(warnings@) =~= Seq::<Seq<char>>::empty());
        let note: Option<DestroyNote> = match outcome {
            DestroyOutcome::Done(text) => {
                if step == DestroyStep::DeleteDns {
                    Some(DestroyNote { text, stage: Some("record DNS deletion") })
                } else {
                    None
                }
            },
            DestroyOutcome::Failed(failure) => {
                let message: String = if step == DestroyStep::ClearState {
                    cat2("failed to clear deployment state: ", failure.as_str())
                } else {
                    failure
                };
                return DestroyNext::Refuse {
                    note: None,
                    refusal: DestroyRefusal {
                        stage: destroy_stage_name(step),
                        status: Status::internal(message),
                    },
                };
            },
            DestroyOutcome::Machine(remote) => {
                let compared: Result<String, String> = match &self.recorded {
                    Some(machine) => verify_destroy_identity(&remote, machine, &self.target),
                    None => Err(String::new()),
                };
                match compared {
                    Ok(text) => Some(DestroyNote { text, stage: None }),
                    Err(text) => {
                        let status: Status = Status::failed_precondition(text.clone());
                        return DestroyNext::Refuse {
                            note: Some(DestroyNote { text, stage: None }),
                            refusal: DestroyRefusal {
                                stage: "provider identity verification",
                                status,
                            },
                        };
                    },
                }
            },
            DestroyOutcome::Removed(removed) => {
                let (text, warning) = instance_removed(self.target.instance_id.as_str(), removed);
                match warning {
                    Some(words) => {
                        push_text(&mut warnings, words);
                        assert(texts(warnings@) =~= seq![text@]);
                    },
                    None => {},
                }
                Some(DestroyNote { text, stage: None })
            },
            DestroyOutcome::Stopped(stopped) => {
                let (text, told) = stop_local_runtime_for_destroy(&stopped);
                warnings = told;
                Some(DestroyNote { text, stage: Some(destroy_stage_name(step)) })
            },
        };
        self.step = step_after(self.course, step);
        DestroyNext::Go { note, warnings }
    }
}

/// Where a machine is to be removed, the request goes on after a look at the
/// provider's machine only if that is the one which is recorded as the
/// controller's own and which was asked for.
pub proof fn law_only_the_recorded_machine_is_removed(
    request: DestroyRequest,
    target: DestroyTarget,
    existing: DeploymentSummary,
    run: DestroyRun,
    remote: VultrInstance,
)
    requires
        destroy_begins(request, target, existing, run),
        run.course.deletes_instance,
        destroy_next(run, DestroyOutcome::Machine(remote)) is Go,
    ensures
        remote.id@ == target.instance_id@,
        remote.main_ip@ == target.target_ip@,
        !blank(remote.main_ip@),
        begins_with(remote.label@, MANAGED_LABEL_PREFIX@),
        existing.instance_id matches Some(id) && id@ == remote.id@,
        existing.deployment_label matches Some(label) && label@ == remote.label@,
        existing.server_ip matches Some(ip) ==> ip@ == remote.main_ip@,
{
}

/// What the journal is told when the record is cleared.
pub fn clear_live_deployment_state(instance_id: &str) -> (r: String)
    ensures
        r@ == "cleared deployment state for "@ + instance_id@,
{
    cat2("cleared deployment state for ", instance_id)
}

/// The answer to a request to take a deployment down.
#[derive(Debug, PartialEq, Eq)]
pub struct DestroyAnswer {
    pub success: bool,
    pub warnings: Vec<String>,
    pub deployment: Option<DeploymentSummary>,
}

/// Answers a request to take a deployment down when all is done.
pub fn finish_destroy(target: &DestroyTarget, existing: DeploymentSummary, warnings: Vec<String>) -> (r:
    DestroyAnswer)
    ensures
        r.success,
        texts(r.warnings@) == if blank(target.target_ip@) {
            texts(warnings@).push("destroy completed without a known target IP"@)
        } else {
            texts(warnings@)
        },
        r.deployment == if existing.live_state_present {
            Some(existing)
        } else {
            None
        },
{
    let mut warnings: Vec<String> = warnings;
    if is_blank(target.target_ip.as_str()) {
        push_text(&mut warnings, "destroy completed without a known target IP".to_owned());
    }
    DestroyAnswer {
        success: true,
        warnings,
        deployment: if existing.live_state_present {
            Some(existing)
        } else {
            None
        },
    }
}

/// The name is removed exactly where that is asked for, and the machine exactly
/// where that is asked for, it has a name and the provider is a real one.
/// Whatever is asked for, the proxy at home is stopped and the record cleared.
pub proof fn law_what_is_taken_down_is_what_is_asked_for(
    request: DestroyRequest,
    target: DestroyTarget,
    course: DestroyCourse,
)
    requires
        call_ensures(plan_destroy, (&request, &target), course),
    ensures
        destroy_steps(course).contains(DestroyStep::DeleteDns) <==> request.delete_dns,
        destroy_steps(course).contains(DestroyStep::DeleteInstance) <==> request.delete_instance
            && !blank(target.instance_id@) && !request.mock_provider,
        destroy_steps(course).contains(DestroyStep::ReadMachine) <==> request.delete_instance
            && !request.mock_provider,
        destroy_steps(course).contains(DestroyStep::ReadCredential) <==> request.delete_instance
            && !request.mock_provider,
        destroy_steps(course).contains(DestroyStep::ReadCredentialAgain) <==> destroy_steps(
            course,
        ).contains(DestroyStep::DeleteInstance),
        destroy_steps(course).contains(DestroyStep::StopLocalRuntime),
        destroy_steps(course).contains(DestroyStep::ClearState),
        course.deletes_dns == request.delete_dns,
        course.deletes_instance == (request.delete_instance && !blank(target.instance_id@)
            && !request.mock_provider),
{
    let steps = destroy_steps(course);
    let a: int = if course.verifies_provider {
        2
    } else {
        0
    };
    let b: int = if course.deletes_dns {
        1
    } else {
        0
    };
    let c: int = if course.deletes_instance {
        2
    } else {
        0
    };
    assert(steps.len() == a + b + c + 3);
    if course.verifies_provider {
        assert(steps[0] == DestroyStep::ReadCredential);
        assert(steps[1] == DestroyStep::ReadMachine);
    }
    if course.deletes_dns {
        assert(steps[a] == DestroyStep::DeleteDns);
    }
    if course.deletes_instance {
        assert(steps[a + b] == DestroyStep::ReadCredentialAgain);
        assert(steps[a + b + 1] == DestroyStep::DeleteInstance);
    }
    assert(steps[a + b + c] == DestroyStep::StopLocalRuntime);
    assert(steps[a + b + c + 1] == DestroyStep::ClearState);
}

/// Removing the name does not hang on the machine, nor removing the machine on
/// the name.
pub proof fn law_name_and_machine_are_taken_down_apart(
    one: DestroyRequest,
    other: DestroyRequest,
    target: DestroyTarget,
    first: DestroyCourse,
    second: DestroyCourse,
)
    requires
        call_ensures(plan_destroy, (&one, &target), first),
        call_ensures(plan_destroy, (&other, &target), second),
    ensures
        one.delete_dns == other.delete_dns ==> first.deletes_dns == second.deletes_dns,
        one.delete_instance == other.delete_instance && one.mock_provider == other.mock_provider
            ==> first.deletes_instance == second.deletes_instance && first.verifies_provider
            == second.verifies_provider,
{
}

/// A step is come to only by way of what it needs: the machine is removed only
/// once the key was read again for it, the name only once the machine has been
/// seen where that is called for, and the record is cleared only at the very
/// end, after the proxy was stopped.
pub proof fn law_steps_come_after_what_they_need(course: DestroyCourse, done: DestroyStep)
    ensures
        destroy_after(course, done) is DeleteInstance ==> done is ReadCredentialAgain,
        destroy_after(course, done) is ReadCredentialAgain ==> course.deletes_instance && (
        done is DeleteDns || (done is ReadMachine && !course.deletes_dns)),
        destroy_after(course, done) is DeleteDns ==> course.deletes_dns && done is ReadMachine,
        destroy_after(course, done) is ReadMachine ==> done is ReadCredential,
        destroy_after(course, done) is ClearState ==> done is StopLocalRuntime,
        destroy_after(course, done) is StopLocalRuntime ==> done is DeleteInstance || (
        !course.deletes_instance && (done is DeleteDns || (done is ReadMachine
            && !course.deletes_dns))),
        destroy_after(course, done) is Finished ==> done is ClearState || done is Finished,
        first_destroy_step(course) is ReadCredential <==> course.verifies_provider,
        !course.verifies_provider && course.deletes_dns ==> first_destroy_step(course) is DeleteDns,
        !course.verifies_provider && !course.deletes_dns && !course.deletes_instance
            ==> first_destroy_step(course) is StopLocalRuntime,
{
}

/// A failure at any step ends the whole with a refusal that tells it, and
/// nothing more is taken down. The one exception is the proxy at home: what
/// goes wrong there is a warning.
pub proof fn law_a_failed_step_ends_the_taking_down(run: DestroyRun, outcome: DestroyOutcome)
    requires
        destroy_outcome_of(run.step, outcome),
    ensures
        match outcome {
            DestroyOutcome::Failed(failure) => destroy_next(
                run,
                outcome,
            ) matches DestroyText::Refuse { code, message, .. } && code is Internal && has_part(
                message,
                failure@,
            ),
            DestroyOutcome::Done(_) => destroy_next(run, outcome) matches DestroyText::Go {
                warnings,
                ..
            } && warnings.len() == 0,
            DestroyOutcome::Removed(removed) => destroy_next(run, outcome) matches DestroyText::Go {
                warnings,
                ..
            } && (warnings.len() == 1 <==> removed is AlreadyAbsent) && warnings.len() <= 1,
            DestroyOutcome::Stopped(stopped) => destroy_next(run, outcome) matches DestroyText::Go {
                warnings,
                ..
            } && (stopped is Err ==> warnings.len() == 1),
            DestroyOutcome::Machine(_) => true,
        },
{
    match outcome {
        DestroyOutcome::Failed(failure) => {
            let message = destroy_next(run, outcome)->message;
            let at = message.len() - failure@.len();
            assert(message.subrange(at, message.len() as int) =~= failure@);
            assert(stands_at(message, failure@, at));
        },
        _ => {},
    }
}

/// Whatever the provider shows, a machine goes on to be removed only where it is
/// the recorded one, at the recorded address, and carries the controller's own
/// mark.
pub proof fn law_another_machine_is_refused(
    remote: VultrInstance,
    recorded: RecordedMachine,
    target: DestroyTarget,
    r: Result<String, String>,
)
    requires
        call_ensures(verify_destroy_identity, (&remote, &recorded, &target), r),
    ensures
        r is Ok <==> {
            &&& remote.id@ == recorded.instance_id@
            &&& remote.label@ == recorded.label@
            &&& remote.label@.len() >= 9
            &&& remote.label@.take(9) == "waw-edge-"@
            &&& remote.main_ip@ == target.target_ip@
            &&& recorded.server_ip matches Some(ip) ==> remote.main_ip@ == ip@
        },
{
    reveal_strlit("waw-edge-");
    assert(MANAGED_LABEL_PREFIX@ == "waw-edge-"@);
    if remote.label@.len() >= 9 {
        assert(remote.label@.subrange(0, 9) =~= remote.label@.take(9));
    }
}

/// What may be taken down at the provider is what is recorded, and what is
/// recorded as the controller's own: it has the recorded name, an address, and
/// a label that begins as the controller's labels do.
pub proof fn law_only_recorded_machines_are_targets(
    target: DestroyTarget,
    existing: DeploymentSummary,
    r: Result<RecordedMachine, DestroyRefusal>,
)
    requires
        call_ensures(check_destroy_target, (&target, &existing), r),
    ensures
        r is Ok <==> {
            &&& existing.instance_id matches Some(id) && id@ == target.instance_id@
            &&& existing.deployment_label matches Some(label) && label@.len() >= 9 && label@.take(9)
                == "waw-edge-"@
            &&& !blank(target.target_ip@)
        },
        r matches Ok(m) ==> m.instance_id@ == target.instance_id@ && existing.deployment_label
            == Some(m.label) && m.server_ip == existing.server_ip,
        r matches Err(f) ==> f.status.code is FailedPrecondition,
{
    reveal_strlit("waw-edge-");
    assert(MANAGED_LABEL_PREFIX@ == "waw-edge-"@);
    if existing.deployment_label is Some {
        let label = existing.deployment_label->Some_0@;
        if label.len() >= 9 {
            assert(label.subrange(0, 9) =~= label.take(9));
        }
    }
}

/// A request to take down only what is the controller's own to begin with is
/// never turned away; one to remove a real machine is, unless that machine is
/// recorded.
pub proof fn law_taking_down_begins_where_it_may(
    request: DestroyRequest,
    target: DestroyTarget,
    existing: DeploymentSummary,
    checked: Result<RecordedMachine, DestroyRefusal>,
    r: Result<DestroyRun, DestroyRefusal>,
)
    requires
        call_ensures(check_destroy_target, (&target, &existing), checked),
        call_ensures(DestroyRun::new, (&request, target, &existing), r),
    ensures
        !request.delete_instance ==> r is Ok,
        request.mock_provider ==> r is Ok,
        r is Err ==> checked is Err,
        request.delete_instance && !request.mock_provider && r is Ok ==> checked is Ok,
        r matches Ok(run) ==> run.target == target && run.course.deletes_dns == request.delete_dns
            && (run.course.deletes_instance ==> run.recorded is Some && run.step is ReadCredential),
{
}

/// What is given is taken down, and what is recorded only where nothing is
/// given.
pub proof fn law_what_is_given_is_taken_down(
    request: DestroyRequest,
    existing: DeploymentSummary,
    r: DestroyTarget,
)
    requires
        call_ensures(choose_destroy_target, (&request, &existing), r),
    ensures
        request.instance_id matches Some(id) ==> r.instance_id@ == id@,
        request.target_ip matches Some(ip) ==> r.target_ip@ == ip@,
        request.instance_id is None && existing.instance_id is Some ==> r.instance_id@
            == existing.instance_id->Some_0@,
        request.target_ip is None && existing.server_ip is Some ==> r.target_ip@
            == existing.server_ip->Some_0@,
        request.instance_id is None && existing.instance_id is None ==> r.instance_id@.len() == 0,
        request.target_ip is None && existing.server_ip is None ==> r.target_ip@.len() == 0,
{
}

/// Putting a request in order changes no decision in it: what is to be removed
/// stays so, and a text that says something keeps its words.
pub proof fn law_ordering_a_request_keeps_its_meaning(request: DestroyRequest, r: DestroyRequest)
    requires
        call_ensures(normalize_destroy_request, (request,), r),
    ensures
        r.delete_dns == request.delete_dns,
        r.delete_instance == request.delete_instance,
        r.mock_provider == request.mock_provider,
        r.instance_id is Some <==> request.instance_id is Some && !blank(
            request.instance_id->Some_0@,
        ),
        r.instance_id matches Some(id) ==> words(id@) == words(request.instance_id->Some_0@),
        r.target_ip is Some <==> request.target_ip is Some && !blank(request.target_ip->Some_0@),
        r.target_ip matches Some(ip) ==> words(ip@) == words(request.target_ip->Some_0@),
        r.dns_record_name is Some <==> request.dns_record_name is Some && !blank(
            request.dns_record_name->Some_0@,
        ),
        r.dns_record_name matches Some(n) ==> words(n@) == words(
            request.dns_record_name->Some_0@,
        ),
        r.cloudflare_zone_name matches Some(n) ==> words(n@) == words(
            request.cloudflare_zone_name->Some_0@,
        ),
        r.lifecycle_reason matches Some(n) ==> words(n@) == words(
            request.lifecycle_reason->Some_0@,
        ),
{
    if request.instance_id is Some {
        law_trimming_keeps_words(request.instance_id->Some_0@);
    }
    if request.target_ip is Some {
        law_trimming_keeps_words(request.target_ip->Some_0@);
    }
    if request.dns_record_name is Some {
        law_trimming_keeps_words(request.dns_record_name->Some_0@);
    }
    if request.cloudflare_zone_name is Some {
        law_trimming_keeps_words(request.cloudflare_zone_name->Some_0@);
    }
    if request.lifecycle_reason is Some {
        law_trimming_keeps_words(request.lifecycle_reason->Some_0@);
    }
}

/// A proxy that could not be stopped is warned of, one that did not run is not,
/// and every other warning is kept.
pub proof fn law_stopping_warns_of_what_matters(
    outcome: Result<(String, Vec<String>), String>,
    r: (String, Vec<String>),
)
    requires
        call_ensures(stop_local_runtime_for_destroy, (&outcome,), r),
    ensures
        match outcome {
            Err(e) => r.1@.len() == 1 && has_part(r.0@, e@) && texts(r.1@)[0] == r.0@,
            Ok((note, warnings)) => has_part(r.0@, note@) && forall|w: Seq<char>| #[trigger]
                texts(r.1@).contains(w) <==> texts(warnings@).contains(w) && w
                    != "sing-box process is not running"@,
        },
{
    assert(texts(r.1@).len() == r.1@.len());
    match outcome {
        Err(e) => {
            let at = r.0@.len() - e@.len();
            assert(r.0@.subrange(at, r.0@.len() as int) =~= e@);
            assert(stands_at(r.0@, e@, at));
        },
        Ok((note, warnings)) => {
            let at = r.0@.len() - note@.len();
            assert(r.0@.subrange(at, r.0@.len() as int) =~= note@);
            assert(stands_at(r.0@, note@, at));
            lemma_worth_telling(texts(warnings@));
        },
    }
}

proof fn lemma_worth_telling(warnings: Seq<Seq<char>>)
    ensures
        forall|w: Seq<char>| #[trigger]
            worth_telling(warnings).contains(w) <==> warnings.contains(w) && w
                != NOT_RUNNING_WARNING@,
    decreases warnings.len(),
{
    if warnings.len() > 0 {
        let head = warnings.drop_last();
        lemma_worth_telling(head);
        let kept = worth_telling(warnings);
        let before = worth_telling(head);
        assert forall|w: Seq<char>| #[trigger] kept.contains(w) <==> warnings.contains(w) && w
            != NOT_RUNNING_WARNING@ by {
            if kept.contains(w) {
                let i = choose|i: int| 0 <= i < kept.len() && kept[i] == w;
                if i < before.len() {
                    assert(before[i] == w);
                    assert(before.contains(w));
                    let k = choose|k: int| 0 <= k < head.len() && head[k] == w;
                    assert(warnings[k] == w);
                } else {
                    assert(warnings[warnings.len() - 1] == w);
                }
            }
            if warnings.contains(w) && w != NOT_RUNNING_WARNING@ {
                let k = choose|k: int| 0 <= k < warnings.len() && warnings[k] == w;
                if k < head.len() {
                    assert(head[k] == w);
                    assert(before.contains(w));
                    let i = choose|i: int| 0 <= i < before.len() && before[i] == w;
                    assert(kept[i] == w);
                } else {
                    assert(kept[before.len() as int] == w);
                }
            }
        }
    }
}

/// What was taken down is told with every warning there was, and with one more
/// exactly where it was not known at what address it stood.
pub proof fn law_taking_down_tells_every_warning(
    target: DestroyTarget,
    existing: DeploymentSummary,
    warnings: Vec<String>,
    r: DestroyAnswer,
)
    requires
        call_ensures(finish_destroy, (&target, existing, warnings), r),
    ensures
        r.success,
        r.deployment is Some <==> existing.live_state_present,
        r.deployment matches Some(d) ==> d == existing,
        r.warnings@.len() == warnings@.len() + if blank(target.target_ip@) {
            1int
        } else {
            0
        },
        forall|i: int|
            0 <= i < warnings@.len() ==> (#[trigger] texts(r.warnings@)[i]) == warnings@[i]@,
{
    assert(texts(r.warnings@).len() == r.warnings@.len());
    assert(texts(warnings@).len() == warnings@.len());
}

/// A machine that was gone already is warned of, and one that is asked to go is
/// not.
pub proof fn law_a_machine_gone_already_is_warned_of(
    instance_id: &str,
    outcome: DestroyInstanceOutcome,
    r: (String, Option<String>),
)
    requires
        call_ensures(instance_removed, (instance_id, outcome), r),
    ensures
        r.1 is Some <==> outcome is AlreadyAbsent,
        r.1 matches Some(w) ==> w@ == r.0@,
        outcome is Requested ==> r.0@ == "Vultr instance destroy requested"@,
        outcome is AlreadyAbsent ==> r.0@ == "Vultr instance "@ + instance_id@
            + " was already absent; authoritative state was reconciled locally"@,
{
}

/// What is given blank is not given.
pub proof fn law_blank_is_not_given(value: Option<String>, r: Option<String>)
    requires
        call_ensures(blank_option, (value,), r),
    ensures
        value is None ==> r is None,
        value matches Some(v) ==> {
            &&& r is None <==> blank(v@)
            &&& !blank(v@) ==> r.deep_view() == Some(trimmed(v@)) || r.deep_view() == Some(v@)
        },
{
}

/// The reason for taking a deployment down is told where one is given.
pub proof fn law_the_reason_is_told(request: DestroyRequest, r: Vec<String>)
    requires
        call_ensures(destroy_request_events, (&request,), r),
    ensures
        request.lifecycle_reason is None ==> r@.len() == 1,
        request.lifecycle_reason matches Some(reason) ==> r@.len() == 2 && r@[1]@
            == "lifecycle reason: "@ + reason@,
        r@[0]@ == "destroy requested"@,
{
    assert(texts(r@).len() == r@.len());
    assert(texts(r@)[0] == r@[0]@);
    if request.lifecycle_reason is Some {
        assert(texts(r@)[1] == r@[1]@);
    }
}

} // verus!
