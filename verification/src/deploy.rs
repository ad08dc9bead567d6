//! A deployment: the stages it goes through, what each leaves in the record and
//! the journal, and what is undone when one of them fails.
use crate::agent::{BootstrapRuntimeResponse, failure_parts, format_bootstrap_failure};
use crate::bootstrap::WaitNext;
use crate::destroy::{DestroyCourse, DestroyTarget, plan_destroy};
use crate::local_runtime::{
    OperationLifecycleStatus, end_status, end_word, law_ends_read_back, status_of_word,
};
use crate::provider::VultrInstance;
use crate::records::{DEFAULT_CLOUDFLARE_ZONE, DEFAULT_DNS_RECORD, DeployPhase, LABEL_EVENT};
use crate::requests::{DeployRequest, DestroyRequest, Status, StatusCode, says};
use crate::selector::{SelectorState, converged, selector_is_converged};
use crate::status::{AgentState, AppReadinessPhase, DeploymentSummary, TraceObservation};
use crate::target::{
    DestroyInstanceOutcome, TargetChoice, created_target, passing_failure, resolve_deploy_target,
    status_for_target_resolution_error,
};
use crate::text::{
    blank, cat2, cat3, cat6, cat7, cat8, copy_option, has_part, is_blank, join, joined,
    push_text, quote_option, quoted_option, stands_at, texts,
};
use crate::trust::ResolvedDeployTarget;
use vstd::prelude::*;
use vstd::string::*;

verus! {

/// How long, in seconds, a way through the proxy is waited for.
pub const EGRESS_TRACE_TIMEOUT_SECS: u64 = 60;

/// How often an agent is asked whether its runtime is ready.
pub const RUNTIME_ATTEMPTS: u32 = 20;

/// Which of the stages that may be left out a request asks for.
#[derive(Debug, Clone, Copy, PartialEq, Eq, Structural)]
pub struct DeployCourse {
    pub updates_dns: bool,
    pub starts_tunnel: bool,
}

/// A stage of a deployment.
#[derive(Debug, Clone, Copy, PartialEq, Eq, Structural)]
pub enum DeployStage {
    /// Find or make the machine.
    ResolveTarget,
    BuildBundle,
    /// See whether the machine is trusted already.
    ResolvePersistedAgent,
    /// Record the deployment.
    PersistBundle,
    PrepareTransport,
    ApplyBundle,
    BootstrapBase,
    UpdateDns,
    BootstrapTunnel,
    RestartAgent,
    /// See where the agent is reached after its restart.
    ResolveFinalTarget,
    VerifyRuntime,
    SyncLocalConfig,
    RestartLocalRuntime,
    /// Set the routes as they are wanted.
    ReconcileSelectors,
    VerifySelectors,
    VerifyEgress,
}

/// Whether a text is there and says anything.
pub open spec fn says_something(text: Option<String>) -> bool {
    text matches Some(t) && !blank(t@)
}

fn is_something(text: &Option<String>) -> (r: bool)
    ensures
        r == says_something(*text),
{
    match text {
        Some(t) => !is_blank(t.as_str()),
        None => false,
    }
}

/// Whether a deployment sets its name.
pub open spec fn updates_dns(request: DeployRequest) -> bool {
    !request.skip_dns && says_something(request.dns_record_name)
}

/// Whether a deployment sets its name: not where that is skipped, and only
/// where a name is given.
pub fn should_update_dns(request: &DeployRequest) -> (r: bool)
    ensures
        r == updates_dns(*request),
{
    !request.skip_dns && is_something(&request.dns_record_name)
}

/// The stages that a request asks for.
pub open spec fn course_of(request: DeployRequest) -> DeployCourse {
    DeployCourse {
        updates_dns: updates_dns(request),
        starts_tunnel: says_something(request.tunnel_domain) && says_something(request.acme_email),
    }
}

/// Decides on the stages that a request asks for.
pub fn plan_deploy(request: &DeployRequest) -> (r: DeployCourse)
    ensures
        r == course_of(*request),
{
    DeployCourse {
        updates_dns: should_update_dns(request),
        starts_tunnel: is_something(&request.tunnel_domain) && is_something(&request.acme_email),
    }
}

/// Some stages, or none.
pub open spec fn stages_if(wanted: bool, stages: Seq<DeployStage>) -> Seq<DeployStage> {
    if wanted {
        stages
    } else {
        Seq::empty()
    }
}

/// All stages of a deployment, in order. `key` says whether there is a key to
/// log in to the machine with, without which the agent is not restarted.
pub open spec fn deploy_stages(course: DeployCourse, key: bool) -> Seq<DeployStage> {
    seq![
        DeployStage::ResolveTarget,
        DeployStage::BuildBundle,
        DeployStage::ResolvePersistedAgent,
        DeployStage::PersistBundle,
        DeployStage::PrepareTransport,
        DeployStage::ApplyBundle,
        DeployStage::BootstrapBase,
    ] + stages_if(course.updates_dns, seq![DeployStage::UpdateDns]) + stages_if(
        course.starts_tunnel,
        seq![DeployStage::BootstrapTunnel],
    ) + stages_if(key, seq![DeployStage::RestartAgent, DeployStage::ResolveFinalTarget]) + seq![
        DeployStage::VerifyRuntime,
        DeployStage::SyncLocalConfig,
        DeployStage::RestartLocalRuntime,
        DeployStage::ReconcileSelectors,
        DeployStage::VerifySelectors,
        DeployStage::VerifyEgress,
    ]
}

/// The stage after one that worked. The last one has none after it.
pub open spec fn stage_after(course: DeployCourse, key: bool, stage: DeployStage) -> DeployStage {
    let third = if key {
        DeployStage::RestartAgent
    } else {
        DeployStage::VerifyRuntime
    };
    let second = if course.starts_tunnel {
        DeployStage::BootstrapTunnel
    } else {
        third
    };
    match stage {
        DeployStage::ResolveTarget => DeployStage::BuildBundle,
        DeployStage::BuildBundle => DeployStage::ResolvePersistedAgent,
        DeployStage::ResolvePersistedAgent => DeployStage::PersistBundle,
        DeployStage::PersistBundle => DeployStage::PrepareTransport,
        DeployStage::PrepareTransport => DeployStage::ApplyBundle,
        DeployStage::ApplyBundle => DeployStage::BootstrapBase,
        DeployStage::BootstrapBase => if course.updates_dns {
            DeployStage::UpdateDns
        } else {
            second
        },
        DeployStage::UpdateDns => second,
        DeployStage::BootstrapTunnel => third,
        DeployStage::RestartAgent => DeployStage::ResolveFinalTarget,
        DeployStage::ResolveFinalTarget => DeployStage::VerifyRuntime,
        DeployStage::VerifyRuntime => DeployStage::SyncLocalConfig,
        DeployStage::SyncLocalConfig => DeployStage::RestartLocalRuntime,
        DeployStage::RestartLocalRuntime => DeployStage::ReconcileSelectors,
        DeployStage::ReconcileSelectors => DeployStage::VerifySelectors,
        DeployStage::VerifySelectors | DeployStage::VerifyEgress => DeployStage::VerifyEgress,
    }
}

/// As long as its stages work, a deployment goes through all of them from one
/// end to the other.
pub proof fn law_deploy_goes_through_its_stages(course: DeployCourse, key: bool)
    ensures
        deploy_stages(course, key).first() == DeployStage::ResolveTarget,
        deploy_stages(course, key).last() == DeployStage::VerifyEgress,
        forall|i: int|
            0 <= i < deploy_stages(course, key).len() - 1 ==> #[trigger] stage_after(
                course,
                key,
                deploy_stages(course, key)[i],
            ) == deploy_stages(course, key)[i + 1],
{
}

/// How far a stage lies on the way.
pub open spec fn stage_rank(stage: DeployStage) -> nat {
    match stage {
        DeployStage::ResolveTarget => 0,
        DeployStage::BuildBundle => 1,
        DeployStage::ResolvePersistedAgent => 2,
        DeployStage::PersistBundle => 3,
        DeployStage::PrepareTransport => 4,
        DeployStage::ApplyBundle => 5,
        DeployStage::BootstrapBase => 6,
        DeployStage::UpdateDns => 7,
        DeployStage::BootstrapTunnel => 8,
        DeployStage::RestartAgent => 9,
        DeployStage::ResolveFinalTarget => 10,
        DeployStage::VerifyRuntime => 11,
        DeployStage::SyncLocalConfig => 12,
        DeployStage::RestartLocalRuntime => 13,
        DeployStage::ReconcileSelectors => 14,
        DeployStage::VerifySelectors => 15,
        DeployStage::VerifyEgress => 16,
    }
}

/// A deployment as far as it has come.
#[derive(Debug, Clone, Copy, PartialEq, Eq)]
pub struct DeployRun {
    pub course: DeployCourse,
    pub stage: DeployStage,
    /// Whether the name has been set, which a rollback has to undo.
    pub dns_updated: bool,
}

/// Whether the name has been set exactly where that stage lies behind.
pub open spec fn run_wf(run: DeployRun) -> bool {
    &&& run.dns_updated == (run.course.updates_dns && stage_rank(run.stage) > stage_rank(
        DeployStage::UpdateDns,
    ))
    &&& run.stage == DeployStage::UpdateDns ==> run.course.updates_dns
}

/// The run after a stage that worked.
pub open spec fn run_after(run: DeployRun, key: bool) -> DeployRun {
    DeployRun {
        course: run.course,
        stage: stage_after(run.course, key, run.stage),
        dns_updated: run.dns_updated || run.stage == DeployStage::UpdateDns,
    }
}

/// A rollback undoes the name exactly where it was set: the run keeps account
/// of it through every stage.
pub proof fn law_name_is_undone_where_it_was_set(run: DeployRun, key: bool)
    requires
        run_wf(run),
    ensures
        run_wf(run_after(run, key)),
        run_after(run, key).dns_updated == (run.dns_updated || run.stage == DeployStage::UpdateDns),
        run.stage == DeployStage::UpdateDns ==> !run.dns_updated,
{
}

/// What is left to clean up when a deployment fails.
#[derive(Debug, Clone, Copy, PartialEq, Eq)]
pub struct RollbackPolicy {
    pub restore_live_state: bool,
    pub restore_controller_snapshot: bool,
    pub clear_new_state_rows: bool,
}

impl RollbackPolicy {
    /// The policy that leaves nothing behind.
    pub fn strict() -> (r: RollbackPolicy)
        ensures
            r == (RollbackPolicy {
                restore_live_state: true,
                restore_controller_snapshot: true,
                clear_new_state_rows: true,
            }),
            full_rollback(r),
    {
        RollbackPolicy {
            restore_live_state: true,
            restore_controller_snapshot: true,
            clear_new_state_rows: true,
        }
    }
}

/// Whether a policy leaves nothing behind.
pub open spec fn full_rollback(policy: RollbackPolicy) -> bool {
    policy.restore_live_state && policy.restore_controller_snapshot && policy.clear_new_state_rows
}

/// Decides whether a failed deployment is rolled back: only where nothing is to
/// be left behind. Otherwise the warning says so.
pub fn apply_failure_rollback(policy: RollbackPolicy) -> (r: Result<(), Vec<String>>)
    ensures
        match r {
            Ok(()) => full_rollback(policy),
            Err(warnings) => !full_rollback(policy) && texts(warnings@) == seq![
                "rollback policy skipped one or more cleanup dimensions"@,
            ],
        },
{
    if policy.restore_live_state && policy.restore_controller_snapshot
        && policy.clear_new_state_rows {
        Ok(())
    } else {
        let mut warnings: Vec<String> = Vec::new();
        warnings.push("rollback policy skipped one or more cleanup dimensions".to_owned());
        assert(texts(warnings@) =~= seq![
            "rollback policy skipped one or more cleanup dimensions"@,
        ]);
        Err(warnings)
    }
}

/// What is said of the warnings of a rollback.
pub open spec fn rollback_words(warnings: Seq<String>) -> Seq<char> {
    if warnings.len() == 0 {
        Seq::empty()
    } else {
        "; rollback warnings: "@ + joined(texts(warnings), "; "@)
    }
}

/// What is said of the warnings of a rollback.
pub fn format_rollback_warnings(warnings: &Vec<String>) -> (r: String)
    ensures
        r@ == rollback_words(warnings@),
{
    if warnings.len() == 0 {
        String::new()
    } else {
        cat2("; rollback warnings: ", join(warnings, "; ").as_str())
    }
}

/// What is written to the record and the journal together.
#[derive(Debug, PartialEq, Eq)]
pub struct PhaseRecord {
    pub deploy_phase: DeployPhase,
    pub app_readiness_phase: AppReadinessPhase,
    pub error_code: Option<&'static str>,
    pub error_message: Option<String>,
    /// How the operation ended, where this is its end.
    pub operation_status: Option<&'static str>,
}

/// What a [`PhaseRecord`] holds.
pub struct PhaseText {
    pub deploy_phase: DeployPhase,
    pub app_readiness_phase: AppReadinessPhase,
    pub error_code: Option<Seq<char>>,
    pub error_message: Option<Seq<char>>,
    pub operation_status: Option<Seq<char>>,
}

/// A word that may be missing, as a text.
pub open spec fn word_text(word: Option<&'static str>) -> Option<Seq<char>> {
    match word {
        Some(w) => Some(w@),
        None => None,
    }
}

impl View for PhaseRecord {
    type V = PhaseText;

    open spec fn view(&self) -> PhaseText {
        PhaseText {
            deploy_phase: self.deploy_phase,
            app_readiness_phase: self.app_readiness_phase,
            error_code: word_text(self.error_code),
            error_message: self.error_message.deep_view(),
            operation_status: word_text(self.operation_status),
        }
    }
}

/// Something that is done after a stage. Where `required` holds and it cannot be
/// done, the deployment is refused on the spot.
#[derive(Debug, PartialEq, Eq)]
pub enum DeployEffect {
    /// Tell the journal.
    Note { text: String, required: bool },
    Record(PhaseRecord),
    /// Put the record back as it was before the deployment.
    RestoreRecord,
    /// Undo what was done.
    RollBack,
    /// Tell the journal how the operation ended.
    Mark { status: &'static str, required: bool },
}

/// What a [`DeployEffect`] holds.
pub enum EffectText {
    Note { text: Seq<char>, required: bool },
    Record(PhaseText),
    RestoreRecord,
    RollBack,
    Mark { status: Seq<char>, required: bool },
}

impl View for DeployEffect {
    type V = EffectText;

    open spec fn view(&self) -> EffectText {
        match *self {
            DeployEffect::Note { text, required } => EffectText::Note { text: text@, required },
            DeployEffect::Record(record) => EffectText::Record(record@),
            DeployEffect::RestoreRecord => EffectText::RestoreRecord,
            DeployEffect::RollBack => EffectText::RollBack,
            DeployEffect::Mark { status, required } => EffectText::Mark { status: status@, required },
        }
    }
}

/// What a list of effects holds.
pub open spec fn effect_texts(effects: Seq<DeployEffect>) -> Seq<EffectText> {
    effects.map_values(|e: DeployEffect| e@)
}

fn push_effect(effects: &mut Vec<DeployEffect>, effect: DeployEffect)
    ensures
        effect_texts(final(effects)@) == effect_texts(old(effects)@).push(effect@),
{
    let ghost before = effects@;
    let ghost last = effect@;
    effects.push(effect);
    assert(effect_texts(effects@) =~= effect_texts(before).push(last));
}

fn no_effects() -> (r: Vec<DeployEffect>)
    ensures
        effect_texts(r@) == Seq::<EffectText>::empty(),
{
    let effects: Vec<DeployEffect> = Vec::new();
    assert(effect_texts(effects@) =~= Seq::<EffectText>::empty());
    effects
}

/// A line for the journal that has to be written.
pub open spec fn line(text: Seq<char>) -> EffectText {
    EffectText::Note { text, required: true }
}

/// A line for the journal that may be lost.
pub open spec fn remark(text: Seq<char>) -> EffectText {
    EffectText::Note { text, required: false }
}

/// A step of the record without an error.
pub open spec fn reached(phase: DeployPhase, readiness: AppReadinessPhase) -> EffectText {
    EffectText::Record(
        PhaseText {
            deploy_phase: phase,
            app_readiness_phase: readiness,
            error_code: None,
            error_message: None,
            operation_status: None,
        },
    )
}

/// A step of the record that ends the operation with an error.
pub open spec fn ended(
    phase: DeployPhase,
    code: Seq<char>,
    message: Seq<char>,
    status: Seq<char>,
) -> EffectText {
    EffectText::Record(
        PhaseText {
            deploy_phase: phase,
            app_readiness_phase: AppReadinessPhase::AppReadinessFailed,
            error_code: Some(code),
            error_message: Some(message),
            operation_status: Some(status),
        },
    )
}

/// The mark of a failure.
pub open spec fn failed_mark() -> EffectText {
    EffectText::Mark { status: "FAILED"@, required: false }
}

fn push_line(effects: &mut Vec<DeployEffect>, text: String)
    ensures
        effect_texts(final(effects)@) == effect_texts(old(effects)@).push(line(text@)),
{
    push_effect(effects, DeployEffect::Note { text, required: true });
}

fn push_remark(effects: &mut Vec<DeployEffect>, text: String)
    ensures
        effect_texts(final(effects)@) == effect_texts(old(effects)@).push(remark(text@)),
{
    push_effect(effects, DeployEffect::Note { text, required: false });
}

fn push_reached(
    effects: &mut Vec<DeployEffect>,
    deploy_phase: DeployPhase,
    app_readiness_phase: AppReadinessPhase,
)
    ensures
        effect_texts(final(effects)@) == effect_texts(old(effects)@).push(
            reached(deploy_phase, app_readiness_phase),
        ),
{
    push_effect(
        effects,
        DeployEffect::Record(
            PhaseRecord {
                deploy_phase,
                app_readiness_phase,
                error_code: None,
                error_message: None,
                operation_status: None,
            },
        ),
    );
}

fn push_ended(
    effects: &mut Vec<DeployEffect>,
    deploy_phase: DeployPhase,
    code: &'static str,
    message: String,
    status: &'static str,
)
    ensures
        effect_texts(final(effects)@) == effect_texts(old(effects)@).push(
            ended(deploy_phase, code@, message@, status@),
        ),
{
    push_effect(
        effects,
        DeployEffect::Record(
            PhaseRecord {
                deploy_phase,
                app_readiness_phase: AppReadinessPhase::AppReadinessFailed,
                error_code: Some(code),
                error_message: Some(message),
                operation_status: Some(status),
            },
        ),
    );
}

fn push_failed(effects: &mut Vec<DeployEffect>)
    ensures
        effect_texts(final(effects)@) == effect_texts(old(effects)@).push(failed_mark()),
{
    push_effect(effects, DeployEffect::Mark { status: "FAILED", required: false });
}

/// What is done before the first stage.
pub open spec fn first_effects(label: Seq<char>) -> Seq<EffectText> {
    seq![
        line("deploy requested"@),
        reached(DeployPhase::Requested, AppReadinessPhase::DeploymentAbsent),
        line(LABEL_EVENT@ + label),
    ]
}

/// Says what is done before the first stage of a deployment, once it has a
/// label.
pub fn begin_deploy(label: &str) -> (r: Vec<DeployEffect>)
    ensures
        effect_texts(r@) == first_effects(label@),
{
    let mut effects: Vec<DeployEffect> = no_effects();
    push_line(&mut effects, "deploy requested".to_owned());
    push_reached(&mut effects, DeployPhase::Requested, AppReadinessPhase::DeploymentAbsent);
    push_line(&mut effects, cat2(LABEL_EVENT, label));
    assert(effect_texts(effects@) =~= first_effects(label@));
    effects
}

/// What came of a stage.
#[derive(Debug, PartialEq, Eq)]
pub enum StageOutcome {
    /// It worked. What the journal says of it turns on the text: the line for
    /// the machine, the bundle's label, the endpoint, a note.
    Worked(String),
    /// The bundle was applied, and these files were written.
    Wrote(Vec<String>),
    Failed(String),
    /// The agent answered that the runtime did not start.
    NotStarted(BootstrapRuntimeResponse),
    /// The runtime did not become ready. What the agent's own journal says is
    /// there where it could be read.
    NotReady { failure: String, diagnostics: Option<String> },
    /// The routes, and the warnings from setting them.
    Routes { desktop: SelectorState, ubuntu: SelectorState, reconcile_warnings: Vec<String> },
    /// The ways through the proxy, and the warnings from applying the bundle and
    /// from setting the routes.
    Ways {
        desktop_trace: TraceObservation,
        ubuntu_trace: TraceObservation,
        apply_warnings: Vec<String>,
        reconcile_warnings: Vec<String>,
    },
}

/// Whether a stage can come to an outcome.
pub open spec fn outcome_of(stage: DeployStage, outcome: StageOutcome) -> bool {
    match outcome {
        StageOutcome::Worked(_) => !(stage is ApplyBundle || stage is VerifySelectors
            || stage is VerifyEgress),
        StageOutcome::Wrote(_) => stage is ApplyBundle,
        StageOutcome::Failed(_) => !(stage is VerifyRuntime || stage is ReconcileSelectors
            || stage is VerifySelectors || stage is VerifyEgress),
        StageOutcome::NotStarted(_) => stage is BootstrapBase || stage is BootstrapTunnel,
        StageOutcome::NotReady { .. } => stage is VerifyRuntime,
        StageOutcome::Routes { .. } => stage is VerifySelectors,
        StageOutcome::Ways { .. } => stage is VerifyEgress,
    }
}

/// What is done after a stage that worked.
pub open spec fn worked_effects(stage: DeployStage, detail: Seq<char>) -> Seq<EffectText> {
    match stage {
        DeployStage::ResolveTarget | DeployStage::UpdateDns | DeployStage::RestartLocalRuntime => seq![
            line(detail),
        ],
        DeployStage::BuildBundle => seq![line("bundle rendered: "@ + detail)],
        DeployStage::PersistBundle => seq![line("local trust and deployment state persisted"@)],
        DeployStage::PrepareTransport => seq![line("agent transport ready via "@ + detail)],
        DeployStage::BootstrapBase => seq![line("base bootstrap completed"@)],
        DeployStage::BootstrapTunnel => seq![line("tunnel bootstrap completed"@)],
        DeployStage::RestartAgent => seq![
            line("edge-agent service restarted with deployment TLS env"@),
        ],
        DeployStage::VerifyRuntime => seq![
            reached(DeployPhase::TunnelReadyVerified, AppReadinessPhase::ServerRuntimeReady),
        ],
        DeployStage::SyncLocalConfig => seq![
            line("local config synced for instance "@ + detail),
            reached(DeployPhase::LocalConfigSynced, AppReadinessPhase::ServerRuntimeReady),
            reached(DeployPhase::LocalRuntimeStartStarted, AppReadinessPhase::ServerRuntimeReady),
        ],
        DeployStage::ReconcileSelectors => seq![
            reached(DeployPhase::LocalRuntimeReadyVerified, AppReadinessPhase::LocalRuntimeReady),
        ],
        DeployStage::VerifySelectors => seq![
            reached(DeployPhase::SelectorsVerified, AppReadinessPhase::SelectorsReady),
            remark("waiting for desktop and ubuntu egress trace convergence"@),
        ],
        _ => Seq::empty(),
    }
}

fn after_worked(stage: DeployStage, detail: String) -> (r: Vec<DeployEffect>)
    ensures
        effect_texts(r@) == worked_effects(stage, detail@),
{
    let mut effects: Vec<DeployEffect> = no_effects();
    match stage {
        DeployStage::ResolveTarget | DeployStage::UpdateDns | DeployStage::RestartLocalRuntime => {
            push_line(&mut effects, detail);
        },
        DeployStage::BuildBundle => {
            push_line(&mut effects, cat2("bundle rendered: ", detail.as_str()));
        },
        DeployStage::PersistBundle => {
            push_line(&mut effects, "local trust and deployment state persisted".to_owned());
        },
        DeployStage::PrepareTransport => {
            push_line(&mut effects, cat2("agent transport ready via ", detail.as_str()));
        },
        DeployStage::BootstrapBase => {
            push_line(&mut effects, "base bootstrap completed".to_owned());
        },
        DeployStage::BootstrapTunnel => {
            push_line(&mut effects, "tunnel bootstrap completed".to_owned());
        },
        DeployStage::RestartAgent => {
            push_line(
                &mut effects,
                "edge-agent service restarted with deployment TLS env".to_owned(),
            );
        },
        DeployStage::VerifyRuntime => {
            push_reached(
                &mut effects,
                DeployPhase::TunnelReadyVerified,
                AppReadinessPhase::ServerRuntimeReady,
            );
        },
        DeployStage::SyncLocalConfig => {
            push_line(&mut effects, cat2("local config synced for instance ", detail.as_str()));
            push_reached(
                &mut effects,
                DeployPhase::LocalConfigSynced,
                AppReadinessPhase::ServerRuntimeReady,
            );
            push_reached(
                &mut effects,
                DeployPhase::LocalRuntimeStartStarted,
                AppReadinessPhase::ServerRuntimeReady,
            );
        },
        DeployStage::ReconcileSelectors => {
            push_reached(
                &mut effects,
                DeployPhase::LocalRuntimeReadyVerified,
                AppReadinessPhase::LocalRuntimeReady,
            );
        },
        DeployStage::VerifySelectors => {
            push_reached(
                &mut effects,
                DeployPhase::SelectorsVerified,
                AppReadinessPhase::SelectorsReady,
            );
            push_remark(
                &mut effects,
                "waiting for desktop and ubuntu egress trace convergence".to_owned(),
            );
        },
        _ => {},
    }
    assert(effect_texts(effects@) =~= worked_effects(stage, detail@));
    effects
}

/// What is done after files were written.
pub open spec fn wrote_effects(paths: Seq<String>) -> Seq<EffectText> {
    paths.map_values(|p: String| line("wrote "@ + p@))
}

fn after_writing(paths: &Vec<String>) -> (r: Vec<DeployEffect>)
    ensures
        effect_texts(r@) == wrote_effects(paths@),
{
    let mut effects: Vec<DeployEffect> = no_effects();
    let mut i: usize = 0;
    assert(effect_texts(effects@) =~= wrote_effects(paths@.take(0)));
    while i < paths.len()
        invariant
            i <= paths@.len(),
            effect_texts(effects@) == wrote_effects(paths@.take(i as int)),
        decreases paths@.len() - i,
    {
        push_line(&mut effects, cat2("wrote ", paths[i].as_str()));
        assert(wrote_effects(paths@.take(i + 1)) =~= wrote_effects(paths@.take(i as int)).push(
            line("wrote "@ + paths@[i as int]@),
        ));
        i += 1;
    }
    assert(paths@.take(i as int) =~= paths@);
    effects
}

/// What is done after a stage that failed.
pub open spec fn failed_effects(
    stage: DeployStage,
    policy: RollbackPolicy,
    failure: Seq<char>,
) -> Seq<EffectText> {
    match stage {
        DeployStage::ResolveTarget => seq![
            ended(DeployPhase::Failed, "target_resolution_failed"@, failure, "FAILED"@),
        ] + (if policy.restore_controller_snapshot {
            seq![EffectText::RestoreRecord]
        } else {
            Seq::empty()
        }) + seq![remark(failure), failed_mark()],
        DeployStage::BuildBundle | DeployStage::ResolvePersistedAgent => seq![
            remark(failure),
            failed_mark(),
        ],
        DeployStage::PersistBundle
        | DeployStage::PrepareTransport
        | DeployStage::ApplyBundle
        | DeployStage::BootstrapBase
        | DeployStage::UpdateDns
        | DeployStage::BootstrapTunnel => seq![
            EffectText::RollBack,
            remark(failure),
            failed_mark(),
        ],
        DeployStage::RestartAgent | DeployStage::SyncLocalConfig => seq![
            EffectText::RollBack,
            failed_mark(),
        ],
        DeployStage::RestartLocalRuntime => seq![
            ended(DeployPhase::Failed, "local_runtime_start_failed"@, failure, "FAILED"@),
            remark("local sing-box start failed: "@ + failure),
            failed_mark(),
        ],
        _ => Seq::empty(),
    }
}

fn after_failure(stage: DeployStage, policy: RollbackPolicy, failure: &String) -> (r: Vec<
    DeployEffect,
>)
    ensures
        effect_texts(r@) == failed_effects(stage, policy, failure@),
{
    let mut effects: Vec<DeployEffect> = no_effects();
    match stage {
        DeployStage::ResolveTarget => {
            push_ended(
                &mut effects,
                DeployPhase::Failed,
                "target_resolution_failed",
                failure.clone(),
                "FAILED",
            );
            if policy.restore_controller_snapshot {
                push_effect(&mut effects, DeployEffect::RestoreRecord);
            }
            push_remark(&mut effects, failure.clone());
            push_failed(&mut effects);
        },
        DeployStage::BuildBundle | DeployStage::ResolvePersistedAgent => {
            push_remark(&mut effects, failure.clone());
            push_failed(&mut effects);
        },
        DeployStage::PersistBundle
        | DeployStage::PrepareTransport
        | DeployStage::ApplyBundle
        | DeployStage::BootstrapBase
        | DeployStage::UpdateDns
        | DeployStage::BootstrapTunnel => {
            push_effect(&mut effects, DeployEffect::RollBack);
            push_remark(&mut effects, failure.clone());
            push_failed(&mut effects);
        },
        DeployStage::RestartAgent | DeployStage::SyncLocalConfig => {
            push_effect(&mut effects, DeployEffect::RollBack);
            push_failed(&mut effects);
        },
        DeployStage::RestartLocalRuntime => {
            push_ended(
                &mut effects,
                DeployPhase::Failed,
                "local_runtime_start_failed",
                failure.clone(),
                "FAILED",
            );
            push_remark(&mut effects, cat2("local sing-box start failed: ", failure.as_str()));
            push_failed(&mut effects);
        },
        _ => {},
    }
    assert(effect_texts(effects@) =~= failed_effects(stage, policy, failure@));
    effects
}

/// What is done after the agent answered that the runtime did not start.
pub open spec fn unstarted_effects(response: BootstrapRuntimeResponse) -> Seq<EffectText> {
    seq![
        EffectText::RollBack,
        remark(joined(failure_parts(response), ": "@)),
        failed_mark(),
    ]
}

fn after_unstarted(response: &BootstrapRuntimeResponse) -> (r: Vec<DeployEffect>)
    ensures
        effect_texts(r@) == unstarted_effects(*response),
{
    let mut effects: Vec<DeployEffect> = no_effects();
    push_effect(&mut effects, DeployEffect::RollBack);
    push_remark(&mut effects, format_bootstrap_failure(response));
    push_failed(&mut effects);
    assert(effect_texts(effects@) =~= unstarted_effects(*response));
    effects
}

/// What is done after the runtime did not become ready.
pub open spec fn unready_effects(failure: Seq<char>, diagnostics: Option<Seq<char>>) -> Seq<
    EffectText,
> {
    (match diagnostics {
        Some(words) => seq![remark("edge-agent diagnostics: "@ + words)],
        None => Seq::empty(),
    }) + seq![remark(failure), EffectText::RollBack, failed_mark()]
}

fn after_unready(failure: &String, diagnostics: &Option<String>) -> (r: Vec<DeployEffect>)
    ensures
        effect_texts(r@) == unready_effects(failure@, diagnostics.deep_view()),
{
    let mut effects: Vec<DeployEffect> = no_effects();
    match diagnostics {
        Some(words) => {
            push_remark(&mut effects, cat2("edge-agent diagnostics: ", words.as_str()));
        },
        None => {},
    }
    push_remark(&mut effects, failure.clone());
    push_effect(&mut effects, DeployEffect::RollBack);
    push_failed(&mut effects);
    assert(effect_texts(effects@) =~= unready_effects(failure@, diagnostics.deep_view()));
    effects
}

/// What the routes say that are not as they are wanted.
pub open spec fn routes_words(desktop: SelectorState, ubuntu: SelectorState) -> Seq<char> {
    "desktop desired="@ + quoted_option(desktop.desired_main_route.deep_view()) + " observed="@
        + quoted_option(desktop.observed_main_route.deep_view()) + "; ubuntu desired="@
        + quoted_option(ubuntu.desired_main_route.deep_view()) + " observed="@ + quoted_option(
        ubuntu.observed_main_route.deep_view(),
    )
}

/// What is done after routes were found that are not as they are wanted.
pub open spec fn unrouted_effects() -> Seq<EffectText> {
    seq![
        ended(
            DeployPhase::Completed,
            "selector_reconcile_failed"@,
            "one or more selector groups did not converge to persisted intent"@,
            "SUCCEEDED"@,
        ),
        remark(
            "selector verification failed after local runtime start; deployment completed in degraded state"@,
        ),
    ]
}

fn after_unrouted() -> (r: Vec<DeployEffect>)
    ensures
        effect_texts(r@) == unrouted_effects(),
{
    let mut effects: Vec<DeployEffect> = no_effects();
    push_ended(
        &mut effects,
        DeployPhase::Completed,
        "selector_reconcile_failed",
        "one or more selector groups did not converge to persisted intent".to_owned(),
        "SUCCEEDED",
    );
    push_remark(
        &mut effects,
        "selector verification failed after local runtime start; deployment completed in degraded state".to_owned(),
    );
    assert(effect_texts(effects@) =~= unrouted_effects());
    effects
}

/// The note of a look through the proxy, or other words.
pub open spec fn trace_note(trace: TraceObservation, other: Seq<char>) -> Seq<char> {
    match trace.note {
        Some(note) => note@,
        None => other,
    }
}

fn note_of(trace: &TraceObservation, other: &str) -> (r: String)
    ensures
        r@ == trace_note(*trace, other@),
{
    match &trace.note {
        Some(note) => note.clone(),
        None => other.to_owned(),
    }
}

/// What is done after a look through the proxy, both of whose ways were open or
/// not.
pub open spec fn egress_effects(open: bool) -> Seq<EffectText> {
    if open {
        seq![
            reached(DeployPhase::AppEgressVerified, AppReadinessPhase::AppEgressReady),
            EffectText::Record(
                PhaseText {
                    deploy_phase: DeployPhase::AppReadyCompleted,
                    app_readiness_phase: AppReadinessPhase::AppReady,
                    error_code: None,
                    error_message: None,
                    operation_status: Some("SUCCEEDED"@),
                },
            ),
            EffectText::Mark { status: "SUCCEEDED"@, required: true },
        ]
    } else {
        seq![
            ended(
                DeployPhase::Completed,
                "egress_trace_failed"@,
                "desktop or ubuntu egress trace failed"@,
                "SUCCEEDED"@,
            ),
            remark("egress trace verification failed; deployment completed in degraded state"@),
        ]
    }
}

fn after_egress(open: bool) -> (r: Vec<DeployEffect>)
    ensures
        effect_texts(r@) == egress_effects(open),
{
    let mut effects: Vec<DeployEffect> = no_effects();
    if open {
        push_reached(
            &mut effects,
            DeployPhase::AppEgressVerified,
            AppReadinessPhase::AppEgressReady,
        );
        push_effect(
            &mut effects,
            DeployEffect::Record(
                PhaseRecord {
                    deploy_phase: DeployPhase::AppReadyCompleted,
                    app_readiness_phase: AppReadinessPhase::AppReady,
                    error_code: None,
                    error_message: None,
                    operation_status: Some("SUCCEEDED"),
                },
            ),
        );
        push_effect(&mut effects, DeployEffect::Mark { status: "SUCCEEDED", required: true });
    } else {
        push_ended(
            &mut effects,
            DeployPhase::Completed,
            "egress_trace_failed",
            "desktop or ubuntu egress trace failed".to_owned(),
            "SUCCEEDED",
        );
        push_remark(
            &mut effects,
            "egress trace verification failed; deployment completed in degraded state".to_owned(),
        );
    }
    assert(effect_texts(effects@) =~= egress_effects(open));
    effects
}

/// What follows a stage, once the effects are done.
#[derive(Debug, PartialEq, Eq)]
pub enum DeployNext {
    /// Carry out the stage that the run has come to.
    Go(Vec<DeployEffect>),
    /// Refuse the deployment for the failure.
    Refuse { effects: Vec<DeployEffect>, failure: String },
    /// Answer. The warnings of a rollback, where there was one, come after these.
    Answer { effects: Vec<DeployEffect>, success: bool, warnings: Vec<String> },
}

/// What a [`DeployNext`] holds.
pub enum NextText {
    Go(Seq<EffectText>),
    Refuse { effects: Seq<EffectText>, failure: Seq<char> },
    Answer { effects: Seq<EffectText>, success: bool, warnings: Seq<Seq<char>> },
}

impl View for DeployNext {
    type V = NextText;

    open spec fn view(&self) -> NextText {
        match *self {
            DeployNext::Go(effects) => NextText::Go(effect_texts(effects@)),
            DeployNext::Refuse { effects, failure } => NextText::Refuse {
                effects: effect_texts(effects@),
                failure: failure@,
            },
            DeployNext::Answer { effects, success, warnings } => NextText::Answer {
                effects: effect_texts(effects@),
                success,
                warnings: texts(warnings@),
            },
        }
    }
}

/// The effects in what follows a stage.
pub open spec fn effects_of(next: NextText) -> Seq<EffectText> {
    match next {
        NextText::Go(effects) => effects,
        NextText::Refuse { effects, .. } => effects,
        NextText::Answer { effects, .. } => effects,
    }
}

/// What follows a stage by what came of it.
pub open spec fn next_of(run: DeployRun, policy: RollbackPolicy, outcome: StageOutcome) -> NextText {
    match outcome {
        StageOutcome::Worked(detail) => NextText::Go(worked_effects(run.stage, detail@)),
        StageOutcome::Wrote(paths) => NextText::Go(wrote_effects(paths@)),
        StageOutcome::Failed(failure) => if run.stage == DeployStage::RestartLocalRuntime {
            NextText::Answer {
                effects: failed_effects(run.stage, policy, failure@),
                success: false,
                warnings: seq![failure@],
            }
        } else {
            NextText::Refuse {
                effects: failed_effects(run.stage, policy, failure@),
                failure: failure@,
            }
        },
        StageOutcome::NotStarted(response) => NextText::Answer {
            effects: unstarted_effects(response),
            success: false,
            warnings: texts(response.warnings@),
        },
        StageOutcome::NotReady { failure, diagnostics } => NextText::Refuse {
            effects: unready_effects(failure@, diagnostics.deep_view()),
            failure: failure@,
        },
        StageOutcome::Routes { desktop, ubuntu, reconcile_warnings } => if converged(desktop)
            && converged(ubuntu) {
            NextText::Go(worked_effects(DeployStage::VerifySelectors, Seq::empty()))
        } else {
            NextText::Answer {
                effects: unrouted_effects(),
                success: true,
                warnings: texts(reconcile_warnings@).push(routes_words(desktop, ubuntu)),
            }
        },
        StageOutcome::Ways { desktop_trace, ubuntu_trace, apply_warnings, reconcile_warnings } => if
        desktop_trace.available && ubuntu_trace.available {
            NextText::Answer {
                effects: egress_effects(true),
                success: true,
                warnings: texts(apply_warnings@) + texts(reconcile_warnings@),
            }
        } else {
            NextText::Answer {
                effects: egress_effects(false),
                success: true,
                warnings: texts(reconcile_warnings@).push(
                    trace_note(desktop_trace, "desktop trace unavailable"@),
                ).push(trace_note(ubuntu_trace, "ubuntu trace unavailable"@)),
            }
        },
    }
}

/// The run after what came of a stage: further where the deployment goes on,
/// and where it was where the deployment ends.
pub open spec fn run_then(
    run: DeployRun,
    policy: RollbackPolicy,
    key: bool,
    outcome: StageOutcome,
) -> DeployRun {
    if next_of(run, policy, outcome) is Go {
        run_after(run, key)
    } else {
        run
    }
}

impl DeployRun {
    /// Before the first stage.
    pub fn new(course: DeployCourse) -> (r: DeployRun)
        ensures
            r == (DeployRun { course, stage: DeployStage::ResolveTarget, dns_updated: false }),
            run_wf(r),
    {
        DeployRun { course, stage: DeployStage::ResolveTarget, dns_updated: false }
    }

    fn advance(self, key: bool) -> (r: DeployRun)
        requires
            run_wf(self),
        ensures
            r == run_after(self, key),
            run_wf(r),
    {
        let course: DeployCourse = self.course;
        let third: DeployStage = if key {
            DeployStage::RestartAgent
        } else {
            DeployStage::VerifyRuntime
        };
        let second: DeployStage = if course.starts_tunnel {
            DeployStage::BootstrapTunnel
        } else {
            third
        };
        let stage: DeployStage = match self.stage {
            DeployStage::ResolveTarget => DeployStage::BuildBundle,
            DeployStage::BuildBundle => DeployStage::ResolvePersistedAgent,
            DeployStage::ResolvePersistedAgent => DeployStage::PersistBundle,
            DeployStage::PersistBundle => DeployStage::PrepareTransport,
            DeployStage::PrepareTransport => DeployStage::ApplyBundle,
            DeployStage::ApplyBundle => DeployStage::BootstrapBase,
            DeployStage::BootstrapBase => {
                if course.updates_dns {
                    DeployStage::UpdateDns
                } else {
                    second
                }
            },
            DeployStage::UpdateDns => second,
            DeployStage::BootstrapTunnel => third,
            DeployStage::RestartAgent => DeployStage::ResolveFinalTarget,
            DeployStage::ResolveFinalTarget => DeployStage::VerifyRuntime,
            DeployStage::VerifyRuntime => DeployStage::SyncLocalConfig,
            DeployStage::SyncLocalConfig => DeployStage::RestartLocalRuntime,
            DeployStage::RestartLocalRuntime => DeployStage::ReconcileSelectors,
            DeployStage::ReconcileSelectors => DeployStage::VerifySelectors,
            DeployStage::VerifySelectors => DeployStage::VerifyEgress,
            DeployStage::VerifyEgress => DeployStage::VerifyEgress,
        };
        DeployRun {
            course,
            stage,
            dns_updated: self.dns_updated || self.stage == DeployStage::UpdateDns,
        }
    }

    /// Goes on after a stage by what came of it: says what is to be done now and
    /// what follows. `key` says whether there is a key, at this time, to log in
    /// to the machine with.
    pub fn execute(self, policy: RollbackPolicy, key: bool, outcome: StageOutcome) -> (r: (
        DeployRun,
        DeployNext,
    ))
        requires
            run_wf(self),
            outcome_of(self.stage, outcome),
        ensures
            r.0 == run_then(self, policy, key, outcome),
            r.1@ == next_of(self, policy, outcome),
            run_wf(r.0),
    {
        match outcome {
            StageOutcome::Worked(detail) => {
                (self.advance(key), DeployNext::Go(after_worked(self.stage, detail)))
            },
            StageOutcome::Wrote(paths) => {
                (self.advance(key), DeployNext::Go(after_writing(&paths)))
            },
            StageOutcome::Failed(failure) => {
                let effects: Vec<DeployEffect> = after_failure(self.stage, policy, &failure);
                if self.stage == DeployStage::RestartLocalRuntime {
                    let mut warnings: Vec<String> = Vec::new();
                    warnings.push(failure);
                    assert(texts(warnings@) =~= seq![failure@]);
                    (self, DeployNext::Answer { effects, success: false, warnings })
                } else {
                    (self, DeployNext::Refuse { effects, failure })
                }
            },
            StageOutcome::NotStarted(response) => {
                let effects: Vec<DeployEffect> = after_unstarted(&response);
                (self, DeployNext::Answer { effects, success: false, warnings: response.warnings })
            },
            StageOutcome::NotReady { failure, diagnostics } => {
                let effects: Vec<DeployEffect> = after_unready(&failure, &diagnostics);
                (self, DeployNext::Refuse { effects, failure })
            },
            StageOutcome::Routes { desktop, ubuntu, reconcile_warnings } => {
                if selector_is_converged(&desktop) && selector_is_converged(&ubuntu) {
                    proof {
                        reveal_strlit("");
                    }
                    (
                        self.advance(key),
                        DeployNext::Go(after_worked(DeployStage::VerifySelectors, String::new())),
                    )
                } else {
                    let mut warnings: Vec<String> = reconcile_warnings;
                    push_text(
                        &mut warnings,
                        cat8(
                            "desktop desired=",
                            quote_option(&desktop.desired_main_route).as_str(),
                            " observed=",
                            quote_option(&desktop.observed_main_route).as_str(),
                            "; ubuntu desired=",
                            quote_option(&ubuntu.desired_main_route).as_str(),
                            " observed=",
                            quote_option(&ubuntu.observed_main_route).as_str(),
                        ),
                    );
                    (self, DeployNext::Answer { effects: after_unrouted(), success: true, warnings })
                }
            },
            StageOutcome::Ways { desktop_trace, ubuntu_trace, apply_warnings, reconcile_warnings } => {
                if desktop_trace.available && ubuntu_trace.available {
                    let warnings: Vec<String> = merge_warnings(apply_warnings, reconcile_warnings);
                    assert(texts(warnings@) =~= texts(apply_warnings@) + texts(
                        reconcile_warnings@,
                    ));
                    (self, DeployNext::Answer { effects: after_egress(true), success: true, warnings })
                } else {
                    let mut warnings: Vec<String> = reconcile_warnings;
                    push_text(&mut warnings, note_of(&desktop_trace, "desktop trace unavailable"));
                    push_text(&mut warnings, note_of(&ubuntu_trace, "ubuntu trace unavailable"));
                    (
                        self,
                        DeployNext::Answer { effects: after_egress(false), success: true, warnings },
                    )
                }
            },
        }
    }
}

/// A deployment never goes back to a stage: where it goes on it has come
/// further, and after the last stage it does not go on.
pub proof fn law_deploy_goes_forward(
    run: DeployRun,
    policy: RollbackPolicy,
    key: bool,
    outcome: StageOutcome,
)
    requires
        outcome_of(run.stage, outcome),
        next_of(run, policy, outcome) is Go,
    ensures
        stage_rank(run_then(run, policy, key, outcome).stage) > stage_rank(run.stage),
        stage_rank(run.stage) < stage_rank(DeployStage::VerifyEgress),
{
}

/// Where a deployment stands after the outcomes of its stages, as long as it goes
/// on after each of them; `keys` says of each time whether there was a key.
pub open spec fn run_through(
    run: DeployRun,
    policy: RollbackPolicy,
    keys: Seq<bool>,
    outcomes: Seq<StageOutcome>,
) -> Option<DeployRun>
    decreases outcomes.len(),
{
    if outcomes.len() == 0 {
        Some(run)
    } else {
        let before = run_through(run, policy, keys.drop_last(), outcomes.drop_last());
        match before {
            None => None,
            Some(r) => if outcome_of(r.stage, outcomes.last()) && next_of(
                r,
                policy,
                outcomes.last(),
            ) is Go {
                Some(run_then(r, policy, keys.last(), outcomes.last()))
            } else {
                None
            },
        }
    }
}

/// Whatever comes of its stages, a deployment comes to an end: it goes on after
/// at most sixteen of them. All the while it knows whether its name was set.
pub proof fn law_deploy_comes_to_an_end(
    course: DeployCourse,
    policy: RollbackPolicy,
    keys: Seq<bool>,
    outcomes: Seq<StageOutcome>,
)
    requires
        keys.len() == outcomes.len(),
    ensures
        ({
            let start = DeployRun {
                course,
                stage: DeployStage::ResolveTarget,
                dns_updated: false,
            };
            run_through(start, policy, keys, outcomes) matches Some(r) ==> {
                &&& outcomes.len() <= stage_rank(r.stage)
                &&& outcomes.len() <= 16
                &&& r.course == course
                &&& run_wf(r)
            }
        }),
    decreases outcomes.len(),
{
    let start = DeployRun { course, stage: DeployStage::ResolveTarget, dns_updated: false };
    if outcomes.len() > 0 {
        law_deploy_comes_to_an_end(course, policy, keys.drop_last(), outcomes.drop_last());
        let before = run_through(start, policy, keys.drop_last(), outcomes.drop_last());
        if run_through(start, policy, keys, outcomes) is Some {
            law_deploy_goes_forward(before->0, policy, keys.last(), outcomes.last());
            law_name_is_undone_where_it_was_set(before->0, keys.last());
        }
    }
}

/// Whether a stage failed.
pub open spec fn is_failure(outcome: StageOutcome) -> bool {
    outcome is Failed || outcome is NotStarted || outcome is NotReady
}

/// Whether a failure of a stage leaves something of the deployment behind that
/// has to be undone: from the record of it on, until the machine serves. Where
/// the agent is reached in the end changes nothing.
pub open spec fn leaves_something(stage: DeployStage) -> bool {
    match stage {
        DeployStage::PersistBundle
        | DeployStage::PrepareTransport
        | DeployStage::ApplyBundle
        | DeployStage::BootstrapBase
        | DeployStage::UpdateDns
        | DeployStage::BootstrapTunnel
        | DeployStage::RestartAgent
        | DeployStage::VerifyRuntime
        | DeployStage::SyncLocalConfig => true,
        _ => false,
    }
}

/// A deployment that fails after it was recorded and before the machine serves
/// is rolled back, and none is rolled back for any other reason.
pub proof fn law_recorded_failures_are_rolled_back(
    run: DeployRun,
    policy: RollbackPolicy,
    outcome: StageOutcome,
)
    requires
        outcome_of(run.stage, outcome),
    ensures
        effects_of(next_of(run, policy, outcome)).contains(EffectText::RollBack) <==> is_failure(
            outcome,
        ) && leaves_something(run.stage),
{
    let effects = effects_of(next_of(run, policy, outcome));
    if is_failure(outcome) && leaves_something(run.stage) {
        match outcome {
            StageOutcome::NotReady { diagnostics, .. } => {
                assert(effects[effects.len() - 2] == EffectText::RollBack);
            },
            _ => {
                assert(effects[0] == EffectText::RollBack);
            },
        }
    }
}

/// A deployment that ends is marked in the journal: as a success exactly where
/// it is answered as one, and else as a failure. The one exception is a failure
/// to see where the agent is reached after its restart, which leaves the
/// operation open.
pub proof fn law_ended_deployments_are_marked(
    run: DeployRun,
    policy: RollbackPolicy,
    outcome: StageOutcome,
)
    requires
        outcome_of(run.stage, outcome),
        !(run.stage is ResolveFinalTarget),
    ensures
        match next_of(run, policy, outcome) {
            NextText::Go(_) => true,
            NextText::Refuse { effects, .. } => effects.contains(failed_mark()),
            NextText::Answer { effects, success, .. } => if success {
                exists|i: int|
                    0 <= i < effects.len() && (#[trigger] effects[i] matches EffectText::Record(p)
                        && p.operation_status == Some("SUCCEEDED"@))
            } else {
                effects.contains(failed_mark())
            },
        },
{
    let effects = effects_of(next_of(run, policy, outcome));
    match next_of(run, policy, outcome) {
        NextText::Go(_) => {},
        NextText::Refuse { .. } => {
            assert(effects.last() == failed_mark());
        },
        NextText::Answer { success, .. } => {
            if success {
                if outcome is Ways && effects.len() == 3 {
                    assert(effects[1] is Record);
                } else {
                    assert(effects[0] is Record);
                }
            } else {
                assert(effects.last() == failed_mark());
            }
        },
    }
}

/// The words before the failure of a stage.
pub open spec fn failure_prefix(stage: DeployStage) -> Seq<char> {
    match stage {
        DeployStage::BuildBundle => "failed to build deployment bundle: "@,
        DeployStage::ResolvePersistedAgent => "failed to resolve persisted agent target before deploy: "@,
        DeployStage::PersistBundle => "failed to persist deployment state: "@,
        DeployStage::PrepareTransport => "failed to prepare agent transport: "@,
        DeployStage::ApplyBundle => "failed to apply bundle to agent: "@,
        DeployStage::BootstrapBase => "base bootstrap failed: "@,
        DeployStage::BootstrapTunnel => "tunnel bootstrap failed: "@,
        DeployStage::RestartAgent => "failed to restart edge-agent with deployment TLS env: "@,
        DeployStage::ResolveFinalTarget => "failed to resolve final agent target: "@,
        DeployStage::VerifyRuntime => "failed to verify runtime readiness: "@,
        DeployStage::SyncLocalConfig => "failed to sync local config: "@,
        _ => Seq::empty(),
    }
}

fn prefix_of(stage: DeployStage) -> (r: &'static str)
    ensures
        r@ == failure_prefix(stage),
{
    match stage {
        DeployStage::BuildBundle => "failed to build deployment bundle: ",
        DeployStage::ResolvePersistedAgent => "failed to resolve persisted agent target before deploy: ",
        DeployStage::PersistBundle => "failed to persist deployment state: ",
        DeployStage::PrepareTransport => "failed to prepare agent transport: ",
        DeployStage::ApplyBundle => "failed to apply bundle to agent: ",
        DeployStage::BootstrapBase => "base bootstrap failed: ",
        DeployStage::BootstrapTunnel => "tunnel bootstrap failed: ",
        DeployStage::RestartAgent => "failed to restart edge-agent with deployment TLS env: ",
        DeployStage::ResolveFinalTarget => "failed to resolve final agent target: ",
        DeployStage::VerifyRuntime => "failed to verify runtime readiness: ",
        DeployStage::SyncLocalConfig => "failed to sync local config: ",
        _ => {
            proof {
                reveal_strlit("");
                assert(""@ =~= Seq::<char>::empty());
            }
            ""
        },
    }
}

/// The refusal for a deployment whose stage failed. `warnings` are those of the
/// rollback, where there was one.
pub fn deploy_refusal(stage: DeployStage, failure: String, warnings: &Vec<String>) -> (r: Status)
    ensures
        if stage == DeployStage::ResolveTarget {
            r == (Status {
                code: if passing_failure(failure@) {
                    StatusCode::Unavailable
                } else {
                    StatusCode::InvalidArgument
                },
                message: failure,
            })
        } else {
            says(
                r,
                StatusCode::Internal,
                failure_prefix(stage) + failure@ + rollback_words(warnings@),
            )
        },
{
    match stage {
        DeployStage::ResolveTarget => status_for_target_resolution_error(failure),
        _ => Status::internal(
            cat3(
                prefix_of(stage),
                failure.as_str(),
                format_rollback_warnings(warnings).as_str(),
            ),
        ),
    }
}

/// How far a phase lies on the way.
pub open spec fn phase_rank(phase: DeployPhase) -> nat {
    match phase {
        DeployPhase::Unspecified => 0,
        DeployPhase::Requested => 1,
        DeployPhase::InstanceAddressAssigned => 2,
        DeployPhase::DeploymentPublished => 3,
        DeployPhase::TunnelReadyVerified => 4,
        DeployPhase::LocalConfigSynced => 5,
        DeployPhase::LocalRuntimeStartStarted => 6,
        DeployPhase::LocalRuntimeReadyVerified => 7,
        DeployPhase::SelectorsVerified => 8,
        DeployPhase::AppEgressVerified => 9,
        DeployPhase::AppReadyCompleted => 10,
        DeployPhase::Completed => 11,
        DeployPhase::Failed => 12,
    }
}

/// The record of a deployment goes forward with its stages: what a later stage
/// records lies further on than what an earlier one has recorded.
pub proof fn law_recorded_phases_go_forward(
    a: DeployStage,
    first: Seq<char>,
    i: int,
    b: DeployStage,
    second: Seq<char>,
    j: int,
)
    requires
        0 <= i < worked_effects(a, first).len(),
        0 <= j < worked_effects(b, second).len(),
        stage_rank(a) < stage_rank(b) || (a == b && i < j),
    ensures
        match (worked_effects(a, first)[i], worked_effects(b, second)[j]) {
            (EffectText::Record(p), EffectText::Record(q)) => phase_rank(p.deploy_phase)
                < phase_rank(q.deploy_phase),
            _ => true,
        },
{
}

/// What the journal says of a machine that was found.
pub fn target_event(target: &ResolvedDeployTarget) -> (r: String)
    ensures
        r@ == "target resolved: "@ + target.instance_id@ + " ("@ + target.target_ip@ + ")"@ + (if
        target.created_instance {
            " [created]"@
        } else {
            ""@
        }),
{
    cat6(
        "target resolved: ",
        target.instance_id.as_str(),
        " (",
        target.target_ip.as_str(),
        ")",
        if target.created_instance {
            " [created]"
        } else {
            ""
        },
    )
}

/// One list of warnings after the other.
pub fn merge_warnings(primary: Vec<String>, secondary: Vec<String>) -> (r: Vec<String>)
    ensures
        r@ == primary@ + secondary@,
{
    let mut all: Vec<String> = primary;
    let mut more: Vec<String> = secondary;
    all.append(&mut more);
    all
}

/// The zone and the name that a request means.
pub open spec fn dns_target(zone: Option<String>, record: Option<String>) -> (Seq<char>, Seq<char>) {
    (
        match zone {
            Some(z) => z@,
            None => DEFAULT_CLOUDFLARE_ZONE@,
        },
        match record {
            Some(n) => n@,
            None => DEFAULT_DNS_RECORD@,
        },
    )
}

/// The zone and the name that a request means: as given, or the usual ones.
pub fn dns_names(zone: &Option<String>, record: &Option<String>) -> (r: (String, String))
    ensures
        (r.0@, r.1@) == dns_target(*zone, *record),
{
    let zone_name: String = match zone {
        Some(z) => z.clone(),
        None => DEFAULT_CLOUDFLARE_ZONE.to_owned(),
    };
    let record_name: String = match record {
        Some(n) => n.clone(),
        None => DEFAULT_DNS_RECORD.to_owned(),
    };
    (zone_name, record_name)
}

/// What the journal says of a name that was set.
pub fn apply_dns_update(mock: bool, record_name: &str, ip: &str, zone_id: &str) -> (r: String)
    ensures
        r@ == (if mock {
            "mock DNS updated: "@
        } else {
            "DNS updated: "@
        }) + record_name@ + " -> "@ + ip@ + " ("@ + zone_id@ + ")"@,
{
    cat7(
        if mock {
            "mock DNS updated: "
        } else {
            "DNS updated: "
        },
        record_name,
        " -> ",
        ip,
        " (",
        zone_id,
        ")",
    )
}

/// What the journal says of a name that was removed.
pub fn delete_dns_record(mock: bool, record_name: &str) -> (r: String)
    ensures
        r@ == (if mock {
            "mock DNS delete requested for "@
        } else {
            "DNS delete requested for "@
        }) + record_name@,
{
    cat2(
        if mock {
            "mock DNS delete requested for "
        } else {
            "DNS delete requested for "
        },
        record_name,
    )
}

/// The error where a name cannot be changed for want of a token.
pub fn missing_dns_token(deleting: bool) -> (r: &'static str)
    ensures
        r@ == if deleting {
            "a configured Cloudflare API token secret is required to delete DNS record"@
        } else {
            "a configured Cloudflare API token secret is required for DNS cutover"@
        },
{
    if deleting {
        "a configured Cloudflare API token secret is required to delete DNS record"
    } else {
        "a configured Cloudflare API token secret is required for DNS cutover"
    }
}

/// What is told of the providers.
#[derive(Debug, PartialEq, Eq)]
pub struct ProviderObservation {
    pub configured: bool,
    pub compute_provider: String,
    pub dns_provider: String,
    pub warnings: Vec<String>,
}

/// The warnings on the providers.
pub open spec fn provider_warnings(request: DeployRequest, target_ip: Seq<char>) -> Seq<Seq<char>> {
    (if request.mock_provider {
        seq!["provider operations were executed in mock mode"@]
    } else {
        Seq::empty()
    }) + (if request.skip_dns {
        seq!["DNS cutover was skipped for this deployment"@]
    } else {
        Seq::empty()
    }) + (if blank(target_ip) {
        seq!["target IP is empty"@]
    } else {
        Seq::empty()
    })
}

/// Whether that is what a request tells of the providers.
pub open spec fn providers_told(
    request: DeployRequest,
    target_ip: Seq<char>,
    told: ProviderObservation,
) -> bool {
    &&& told.configured == !request.mock_provider
    &&& told.compute_provider@ == "vultr"@
    &&& told.dns_provider@ == "cloudflare"@
    &&& texts(told.warnings@) == provider_warnings(request, target_ip)
}

/// Tells of the providers by the request.
pub fn provider_observation_from_request(request: &DeployRequest, target_ip: &str) -> (r:
    ProviderObservation)
    ensures
        providers_told(*request, target_ip@, r),
{
    let mut warnings: Vec<String> = Vec::new();
    assert(texts(warnings@) =~= Seq::<Seq<char>>::empty());
    if request.mock_provider {
        push_text(&mut warnings, "provider operations were executed in mock mode".to_owned());
    }
    if request.skip_dns {
        push_text(&mut warnings, "DNS cutover was skipped for this deployment".to_owned());
    }
    if is_blank(target_ip) {
        push_text(&mut warnings, "target IP is empty".to_owned());
    }
    assert(texts(warnings@) =~= provider_warnings(*request, target_ip@));
    ProviderObservation {
        configured: !request.mock_provider,
        compute_provider: "vultr".to_owned(),
        dns_provider: "cloudflare".to_owned(),
        warnings,
    }
}

/// Whether that is what is told of a deployment by its bundle.
pub open spec fn deployment_told(
    label: Seq<char>,
    target: ResolvedDeployTarget,
    tunnel_enabled: bool,
    tunnel_domain: Seq<char>,
    told: DeploymentSummary,
) -> bool {
    &&& told.live_state_present
    &&& told.source_state_path is None
    &&& told.deployment_label.deep_view() == Some(label)
    &&& told.instance_id.deep_view() == Some(target.instance_id@)
    &&& told.server_ip.deep_view() == Some(target.target_ip@)
    &&& told.tunnel_domain.deep_view() == if tunnel_enabled {
        Some(tunnel_domain)
    } else {
        None
    }
}

/// Tells of a deployment by its bundle: by the bundle's name, by whether its
/// tunnel is on, and by the tunnel's name.
pub fn bundle_to_proto_summary(
    label: &str,
    target: &ResolvedDeployTarget,
    tunnel_enabled: bool,
    tunnel_domain: String,
) -> (r: DeploymentSummary)
    ensures
        deployment_told(label@, *target, tunnel_enabled, tunnel_domain@, r),
{
    DeploymentSummary {
        live_state_present: true,
        source_state_path: None,
        deployment_label: Some(label.to_owned()),
        instance_id: Some(target.instance_id.clone()),
        server_ip: Some(target.target_ip.clone()),
        tunnel_domain: if tunnel_enabled {
            Some(tunnel_domain)
        } else {
            None
        },
    }
}

/// A bundle by its name, by whether its tunnel is on, and by the tunnel's name.
#[derive(Debug, PartialEq, Eq)]
pub struct BundleName {
    pub label: String,
    pub tunnel_enabled: bool,
    pub tunnel_domain: String,
}

/// The answer to a request for a deployment. Where nothing was seen of the
/// runtime, `runtime` is nothing, and the answer says that it is not started.
#[derive(Debug, PartialEq, Eq)]
pub struct DeployAnswer {
    pub success: bool,
    pub deployment: Option<DeploymentSummary>,
    pub provider: Option<ProviderObservation>,
    pub runtime: Option<AgentState>,
    pub warnings: Vec<String>,
    /// The word for how the operation ended.
    pub operation_status: &'static str,
}

/// Whether that is the answer for a deployment that ended so. `undone` is what
/// could not be undone.
pub open spec fn answered(
    request: DeployRequest,
    target: ResolvedDeployTarget,
    bundle: BundleName,
    runtime: Option<AgentState>,
    success: bool,
    warnings: Seq<Seq<char>>,
    undone: Seq<Seq<char>>,
    answer: DeployAnswer,
) -> bool {
    &&& answer.success == success
    &&& answer.deployment matches Some(told)
    &&& deployment_told(
        bundle.label@,
        target,
        bundle.tunnel_enabled,
        bundle.tunnel_domain@,
        told,
    )
    &&& answer.provider matches Some(providers)
    &&& providers_told(request, target.target_ip@, providers)
    &&& answer.runtime == runtime
    &&& texts(answer.warnings@) == warnings + undone
    &&& answer.operation_status@ == end_word(success)
}

/// Answers a request for a deployment by how the deployment ended: by whether
/// it succeeded, with its warnings and with those of its rollback.
pub fn answer_deploy(
    request: &DeployRequest,
    target: &ResolvedDeployTarget,
    bundle: BundleName,
    runtime: Option<AgentState>,
    success: bool,
    warnings: Vec<String>,
    undone: Vec<String>,
) -> (r: DeployAnswer)
    ensures
        answered(
            *request,
            *target,
            bundle,
            runtime,
            success,
            texts(warnings@),
            texts(undone@),
            r,
        ),
{
    let all: Vec<String> = merge_warnings(warnings, undone);
    assert(texts(all@) =~= texts(warnings@) + texts(undone@));
    DeployAnswer {
        success,
        deployment: Some(
            bundle_to_proto_summary(
                bundle.label.as_str(),
                target,
                bundle.tunnel_enabled,
                bundle.tunnel_domain,
            ),
        ),
        provider: Some(provider_observation_from_request(request, target.target_ip.as_str())),
        runtime,
        warnings: all,
        operation_status: end_status(success),
    }
}

/// Whether a stage shows routes that are not as wanted, or a way through the
/// proxy that is not open.
pub open spec fn is_degraded(outcome: StageOutcome) -> bool {
    match outcome {
        StageOutcome::Routes { desktop, ubuntu, .. } => !converged(desktop) || !converged(ubuntu),
        StageOutcome::Ways { desktop_trace, ubuntu_trace, .. } => !desktop_trace.available
            || !ubuntu_trace.available,
        _ => false,
    }
}

/// An answer agrees with itself and with the journal: it tells of a success
/// exactly where the operation succeeded, of a failure exactly where it failed,
/// and always of the deployment. Once the local runtime was started, no answer
/// tells of a failure: routes that are not as wanted and ways that are not open
/// leave a success with warnings.
pub proof fn law_answers_tell_how_the_deployment_ended(
    run: DeployRun,
    policy: RollbackPolicy,
    outcome: StageOutcome,
    request: DeployRequest,
    target: ResolvedDeployTarget,
    bundle: BundleName,
    runtime: Option<AgentState>,
    undone: Seq<Seq<char>>,
    answer: DeployAnswer,
)
    requires
        outcome_of(run.stage, outcome),
        next_of(run, policy, outcome) matches NextText::Answer { success, warnings, .. }
            && answered(request, target, bundle, runtime, success, warnings, undone, answer),
    ensures
        answer.success <==> status_of_word(answer.operation_status@)
            == OperationLifecycleStatus::Succeeded,
        !answer.success <==> status_of_word(answer.operation_status@)
            == OperationLifecycleStatus::Failed,
        answer.deployment is Some,
        stage_rank(run.stage) > stage_rank(DeployStage::RestartLocalRuntime) ==> answer.success,
        is_degraded(outcome) ==> answer.success && answer.warnings@.len() > 0,
        !answer.success ==> is_failure(outcome),
{
    law_ends_read_back(answer.success);
    assert(texts(answer.warnings@).len() == answer.warnings@.len());
}

/// A deployment that finds its routes not as wanted, or a way through the proxy
/// not open, is at its end.
pub proof fn law_degraded_deployments_are_answered(
    run: DeployRun,
    policy: RollbackPolicy,
    outcome: StageOutcome,
)
    requires
        outcome_of(run.stage, outcome),
        is_degraded(outcome),
    ensures
        next_of(run, policy, outcome) is Answer,
{
}

/// What an agent says of its runtime.
#[derive(Debug, PartialEq, Eq)]
pub struct RuntimeVerdict {
    pub ready: bool,
    pub degraded_reasons: Vec<String>,
}

/// What is left of an attempt that was in vain.
pub open spec fn runtime_complaint(answer: Result<RuntimeVerdict, String>) -> Seq<char> {
    match answer {
        Ok(v) => "edge-agent responded but readiness is false: "@ + joined(
            texts(v.degraded_reasons@),
            "; "@,
        ),
        Err(e) => e@,
    }
}

/// Decides what follows attempt number `attempt` (from zero) to find the
/// runtime ready.
pub fn wait_for_agent_runtime_target(
    attempt: u32,
    require_readiness: bool,
    answer: Result<RuntimeVerdict, String>,
) -> (r: WaitNext<RuntimeVerdict>)
    ensures
        if answer matches Ok(v) && (!require_readiness || v.ready) {
            r == WaitNext::Done(answer)
        } else if attempt + 1 < RUNTIME_ATTEMPTS {
            r is Again
        } else {
            r matches WaitNext::Done(Err(e)) && e@ == runtime_complaint(answer)
        },
{
    match answer {
        Ok(v) => {
            if !require_readiness || v.ready {
                WaitNext::Done(Ok(v))
            } else if attempt < RUNTIME_ATTEMPTS && attempt + 1 < RUNTIME_ATTEMPTS {
                WaitNext::Again
            } else {
                WaitNext::Done(
                    Err(
                        cat2(
                            "edge-agent responded but readiness is false: ",
                            join(&v.degraded_reasons, "; ").as_str(),
                        ),
                    ),
                )
            }
        },
        Err(e) => {
            if attempt < RUNTIME_ATTEMPTS && attempt + 1 < RUNTIME_ATTEMPTS {
                WaitNext::Again
            } else {
                WaitNext::Done(Err(e))
            }
        },
    }
}

/// What a rollback undoes besides the record.
pub open spec fn undoes(run: DeployRun, target: ResolvedDeployTarget, request: DeployRequest) -> (
    bool,
    bool,
) {
    (run.dns_updated, target.created_instance && !request.mock_provider)
}

/// Decides what a rollback undoes besides the record: the name, where it was
/// set, and the machine, where it was made.
pub fn plan_rollback(run: DeployRun, target: &ResolvedDeployTarget, request: &DeployRequest) -> (r: (
    bool,
    bool,
))
    ensures
        r == undoes(run, *target, *request),
{
    (run.dns_updated, target.created_instance && !request.mock_provider)
}

/// The request by which a rollback removes the name.
pub fn rollback_dns_request(request: &DeployRequest, target: &ResolvedDeployTarget) -> (r:
    DestroyRequest)
    ensures
        r.instance_id == Some(target.instance_id),
        r.target_ip == Some(target.target_ip),
        r.dns_record_name == request.dns_record_name,
        r.cloudflare_zone_name == request.cloudflare_zone_name,
        r.mock_provider == request.mock_provider,
        r.delete_dns,
        !r.delete_instance,
        r.lifecycle_reason.deep_view() == Some("deploy_rollback"@),
{
    DestroyRequest {
        instance_id: Some(target.instance_id.clone()),
        target_ip: Some(target.target_ip.clone()),
        dns_record_name: copy_option(&request.dns_record_name),
        cloudflare_zone_name: copy_option(&request.cloudflare_zone_name),
        mock_provider: request.mock_provider,
        delete_dns: true,
        delete_instance: false,
        lifecycle_reason: Some("deploy_rollback".to_owned()),
    }
}

/// What came of removing the machine that a deployment has made.
#[derive(Debug, PartialEq, Eq)]
pub enum MachineRollback {
    /// The provider could not be asked.
    NoKey(String),
    Removed(DestroyInstanceOutcome),
    Failed(String),
}

/// What came of a rollback, part by part; a part that was not called for is
/// missing.
#[derive(Debug, PartialEq, Eq)]
pub struct RollbackOutcome {
    pub dns: Option<Result<String, String>>,
    pub machine: Option<MachineRollback>,
    pub record: Result<(), String>,
}

/// What the journal is told of removing the machine, or else the warning.
pub open spec fn machine_words(m: MachineRollback) -> Result<Seq<char>, Seq<char>> {
    match m {
        MachineRollback::NoKey(e) => Err(
            "rollback could not resolve Vultr API key secret: "@ + e@,
        ),
        MachineRollback::Removed(DestroyInstanceOutcome::Requested) => Ok(
            "rollback requested instance destroy"@,
        ),
        MachineRollback::Removed(DestroyInstanceOutcome::AlreadyAbsent) => Ok(
            "rollback observed instance already absent; local state restore continues"@,
        ),
        MachineRollback::Failed(e) => Err("rollback instance destroy failed: "@ + e@),
    }
}

/// One text, or none.
pub open spec fn text_if(text: Option<Seq<char>>) -> Seq<Seq<char>> {
    match text {
        Some(t) => seq![t],
        None => Seq::empty(),
    }
}

/// The warnings of a rollback.
pub open spec fn rollback_warnings(o: RollbackOutcome) -> Seq<Seq<char>> {
    text_if(
        match o.dns {
            Some(Err(e)) => Some("rollback DNS cleanup failed: "@ + e@),
            _ => None,
        },
    ) + text_if(
        match o.machine {
            Some(m) => match machine_words(m) {
                Err(w) => Some(w),
                Ok(_) => None,
            },
            None => None,
        },
    ) + text_if(
        match o.record {
            Err(e) => Some("rollback state restore failed: "@ + e@),
            Ok(()) => None,
        },
    )
}

/// What the journal is told of a rollback.
pub open spec fn rollback_events(o: RollbackOutcome) -> Seq<Seq<char>> {
    let warnings = rollback_warnings(o);
    seq!["rollback started"@] + text_if(
        match o.dns {
            Some(Ok(note)) => Some(note@),
            _ => None,
        },
    ) + text_if(
        match o.machine {
            Some(m) => match machine_words(m) {
                Ok(w) => Some(w),
                Err(_) => None,
            },
            None => None,
        },
    ) + text_if(
        match o.record {
            Ok(()) => Some("rollback restored local deployment state"@),
            Err(_) => None,
        },
    ) + seq![
        if warnings.len() == 0 {
            "rollback completed"@
        } else {
            "rollback completed with warnings: "@ + joined(warnings, "; "@)
        },
    ]
}

/// Tells of a rollback: what the journal is told, and the warnings.
pub fn rollback_failed_deploy(outcome: &RollbackOutcome) -> (r: (Vec<String>, Vec<String>))
    ensures
        texts(r.0@) == rollback_events(*outcome),
        texts(r.1@) == rollback_warnings(*outcome),
{
    let mut events: Vec<String> = Vec::new();
    let mut warnings: Vec<String> = Vec::new();
    assert(texts(events@) =~= Seq::<Seq<char>>::empty());
    assert(texts(warnings@) =~= Seq::<Seq<char>>::empty());
    push_text(&mut events, "rollback started".to_owned());
    match &outcome.dns {
        Some(Ok(note)) => {
            push_text(&mut events, note.clone());
        },
        Some(Err(e)) => {
            push_text(&mut warnings, cat2("rollback DNS cleanup failed: ", e.as_str()));
        },
        None => {},
    }
    match &outcome.machine {
        Some(MachineRollback::NoKey(e)) => {
            push_text(
                &mut warnings,
                cat2("rollback could not resolve Vultr API key secret: ", e.as_str()),
            );
        },
        Some(MachineRollback::Removed(DestroyInstanceOutcome::Requested)) => {
            push_text(&mut events, "rollback requested instance destroy".to_owned());
        },
        Some(MachineRollback::Removed(DestroyInstanceOutcome::AlreadyAbsent)) => {
            push_text(
                &mut events,
                "rollback observed instance already absent; local state restore continues".to_owned(),
            );
        },
        Some(MachineRollback::Failed(e)) => {
            push_text(&mut warnings, cat2("rollback instance destroy failed: ", e.as_str()));
        },
        None => {},
    }
    match &outcome.record {
        Ok(()) => {
            push_text(&mut events, "rollback restored local deployment state".to_owned());
        },
        Err(e) => {
            push_text(&mut warnings, cat2("rollback state restore failed: ", e.as_str()));
        },
    }
    assert(texts(warnings@) =~= rollback_warnings(*outcome));
    assert(texts(warnings@).len() == warnings@.len());
    if warnings.len() == 0 {
        push_text(&mut events, "rollback completed".to_owned());
    } else {
        push_text(
            &mut events,
            cat2("rollback completed with warnings: ", join(&warnings, "; ").as_str()),
        );
    }
    assert(texts(events@) =~= rollback_events(*outcome));
    (events, warnings)
}

/// A rollback is without warnings exactly where every part of it that was
/// called for has worked.
pub proof fn law_clean_rollback_has_no_warnings(o: RollbackOutcome)
    ensures
        rollback_warnings(o).len() == 0 <==> {
            &&& !(o.dns matches Some(Err(_)))
            &&& (o.machine matches Some(m) ==> m is Removed)
            &&& o.record is Ok
        },
{
}

/// A rollback removes a machine exactly where the deployment itself made it and
/// the provider is a real one, and removes the name exactly where the
/// deployment has set it.
pub proof fn law_rollback_undoes_only_what_was_done(
    run: DeployRun,
    target: ResolvedDeployTarget,
    request: DeployRequest,
    r: (bool, bool),
)
    requires
        call_ensures(plan_rollback, (run, &target, &request), r),
    ensures
        r.0 <==> run.dns_updated,
        r.1 ==> target.created_instance && !request.mock_provider,
        target.created_instance && !request.mock_provider ==> r.1,
{
}

/// A machine that was there before the deployment is never removed by its
/// rollback, whatever has been done in between.
pub proof fn law_machines_taken_over_outlive_a_rollback(
    request: DeployRequest,
    found: Option<VultrInstance>,
    choice: TargetChoice,
    run: DeployRun,
    r: (bool, bool),
)
    requires
        call_ensures(resolve_deploy_target, (&request, found), choice),
        choice matches TargetChoice::Use(target) && call_ensures(
            plan_rollback,
            (run, &target, &request),
            r,
        ),
    ensures
        !r.1,
{
}

/// A machine that was made for the deployment goes with it, unless the provider
/// is a pretended one.
pub proof fn law_machines_made_are_removed_by_a_rollback(
    request: DeployRequest,
    ready: VultrInstance,
    target: ResolvedDeployTarget,
    run: DeployRun,
    r: (bool, bool),
)
    requires
        call_ensures(created_target, (ready,), Ok::<ResolvedDeployTarget, String>(target)),
        call_ensures(plan_rollback, (run, &target, &request), r),
    ensures
        r.1 <==> !request.mock_provider,
        target.instance_id@ == ready.id@,
        target.target_ip@ == ready.main_ip@,
{
}

/// The name that a rollback removes is the one that the deployment has set, and
/// on the way no machine is removed: that is decided apart.
pub proof fn law_rollback_removes_the_name_that_was_set(
    request: DeployRequest,
    target: ResolvedDeployTarget,
    undo: DestroyRequest,
    whole: DestroyTarget,
    course: DestroyCourse,
    set: (String, String),
    removed: (String, String),
)
    requires
        call_ensures(rollback_dns_request, (&request, &target), undo),
        call_ensures(plan_destroy, (&undo, &whole), course),
        call_ensures(dns_names, (&request.cloudflare_zone_name, &request.dns_record_name), set),
        call_ensures(dns_names, (&undo.cloudflare_zone_name, &undo.dns_record_name), removed),
    ensures
        set.0@ == removed.0@,
        set.1@ == removed.1@,
        course.deletes_dns,
        !course.deletes_instance,
        !course.verifies_provider,
        undo.mock_provider == request.mock_provider,
        undo.instance_id matches Some(id) && id@ == target.instance_id@,
        undo.target_ip matches Some(ip) && ip@ == target.target_ip@,
{
}

/// A name and a zone that are given are used; only what is missing is made up
/// for.
pub proof fn law_given_names_are_used(zone: Option<String>, record: Option<String>, r: (String, String))
    requires
        call_ensures(dns_names, (&zone, &record), r),
    ensures
        zone matches Some(z) ==> r.0@ == z@,
        record matches Some(n) ==> r.1@ == n@,
        zone is None ==> r.0@ == DEFAULT_CLOUDFLARE_ZONE@,
        record is None ==> r.1@ == DEFAULT_DNS_RECORD@,
{
}

/// The name is set exactly where that is not to be skipped and a name is given,
/// and the tunnel is started exactly where both its name and an address for its
/// certificates are given. Nothing else in a request matters to that.
pub proof fn law_deployments_do_what_is_asked_for(
    request: DeployRequest,
    course: DeployCourse,
    should: bool,
)
    requires
        call_ensures(plan_deploy, (&request,), course),
        call_ensures(should_update_dns, (&request,), should),
    ensures
        course.updates_dns == should,
        request.skip_dns ==> !course.updates_dns,
        request.dns_record_name is None ==> !course.updates_dns,
        request.dns_record_name matches Some(n) && blank(n@) ==> !course.updates_dns,
        request.dns_record_name matches Some(n) && !blank(n@) && !request.skip_dns
            ==> course.updates_dns,
        request.tunnel_domain is None ==> !course.starts_tunnel,
        request.acme_email is None ==> !course.starts_tunnel,
        request.tunnel_domain matches Some(d) && blank(d@) ==> !course.starts_tunnel,
        request.acme_email matches Some(e) && blank(e@) ==> !course.starts_tunnel,
        match (request.tunnel_domain, request.acme_email) {
            (Some(d), Some(e)) => !blank(d@) && !blank(e@) ==> course.starts_tunnel,
            _ => true,
        },
{
}

/// The stages that may be left out are taken exactly where they are called for.
pub proof fn law_stages_are_those_called_for(course: DeployCourse, key: bool)
    ensures
        deploy_stages(course, key).contains(DeployStage::UpdateDns) <==> course.updates_dns,
        deploy_stages(course, key).contains(DeployStage::BootstrapTunnel) <==> course.starts_tunnel,
        deploy_stages(course, key).contains(DeployStage::RestartAgent) <==> key,
        deploy_stages(course, key).contains(DeployStage::ResolveFinalTarget) <==> key,
        deploy_stages(course, key).contains(DeployStage::PersistBundle),
        deploy_stages(course, key).contains(DeployStage::ApplyBundle),
        deploy_stages(course, key).contains(DeployStage::BootstrapBase),
        deploy_stages(course, key).contains(DeployStage::VerifyRuntime),
        deploy_stages(course, key).contains(DeployStage::SyncLocalConfig),
        deploy_stages(course, key).contains(DeployStage::RestartLocalRuntime),
        deploy_stages(course, key).contains(DeployStage::ReconcileSelectors),
        deploy_stages(course, key).contains(DeployStage::VerifySelectors),
        deploy_stages(course, key).contains(DeployStage::VerifyEgress),
{
    let stages = deploy_stages(course, key);
    let a: int = if course.updates_dns {
        1
    } else {
        0
    };
    let b: int = if course.starts_tunnel {
        1
    } else {
        0
    };
    let c: int = if key {
        2
    } else {
        0
    };
    assert(stages.len() == 13 + a + b + c);
    assert(stages[3] == DeployStage::PersistBundle);
    assert(stages[5] == DeployStage::ApplyBundle);
    assert(stages[6] == DeployStage::BootstrapBase);
    if course.updates_dns {
        assert(stages[7] == DeployStage::UpdateDns);
    }
    if course.starts_tunnel {
        assert(stages[7 + a] == DeployStage::BootstrapTunnel);
    }
    if key {
        assert(stages[7 + a + b] == DeployStage::RestartAgent);
        assert(stages[8 + a + b] == DeployStage::ResolveFinalTarget);
    }
    assert(stages[7 + a + b + c] == DeployStage::VerifyRuntime);
    assert(stages[8 + a + b + c] == DeployStage::SyncLocalConfig);
    assert(stages[9 + a + b + c] == DeployStage::RestartLocalRuntime);
    assert(stages[10 + a + b + c] == DeployStage::ReconcileSelectors);
    assert(stages[11 + a + b + c] == DeployStage::VerifySelectors);
    assert(stages[12 + a + b + c] == DeployStage::VerifyEgress);
}

/// A deployment comes to a stage only by way of what the stage needs: a machine
/// is found before a bundle is made, the deployment is recorded before anything
/// is sent to the machine, the name is set once the base runs there, the tunnel
/// is started once its name is set, the agent is started again only where there
/// is a key to log in with, and nothing is done at home before the machine's
/// runtime is ready.
pub proof fn law_stages_come_after_what_they_need(
    run: DeployRun,
    policy: RollbackPolicy,
    key: bool,
    outcome: StageOutcome,
    r: (DeployRun, DeployNext),
)
    requires
        run_wf(run),
        outcome_of(run.stage, outcome),
        call_ensures(DeployRun::execute, (run, policy, key, outcome), r),
    ensures
        r.0.course == run.course,
        !(r.1 is Go) ==> r.0 == run,
        r.1 is Go ==> match r.0.stage {
            DeployStage::ResolveTarget => false,
            DeployStage::BuildBundle => run.stage is ResolveTarget,
            DeployStage::ResolvePersistedAgent => run.stage is BuildBundle,
            DeployStage::PersistBundle => run.stage is ResolvePersistedAgent,
            DeployStage::PrepareTransport => run.stage is PersistBundle,
            DeployStage::ApplyBundle => run.stage is PrepareTransport,
            DeployStage::BootstrapBase => run.stage is ApplyBundle,
            DeployStage::UpdateDns => run.stage is BootstrapBase && run.course.updates_dns,
            DeployStage::BootstrapTunnel => run.course.starts_tunnel && (run.course.updates_dns
                ==> r.0.dns_updated) && (run.stage is BootstrapBase || run.stage is UpdateDns),
            DeployStage::RestartAgent => key && !(run.stage is BootstrapBase
                && run.course.starts_tunnel) && (run.course.updates_dns ==> r.0.dns_updated),
            DeployStage::ResolveFinalTarget => run.stage is RestartAgent,
            DeployStage::VerifyRuntime => run.stage is ResolveFinalTarget || (!key && (
            run.course.updates_dns ==> r.0.dns_updated) && (run.course.starts_tunnel
                ==> run.stage is BootstrapTunnel)),
            DeployStage::SyncLocalConfig => run.stage is VerifyRuntime,
            DeployStage::RestartLocalRuntime => run.stage is SyncLocalConfig,
            DeployStage::ReconcileSelectors => run.stage is RestartLocalRuntime,
            DeployStage::VerifySelectors => run.stage is ReconcileSelectors,
            DeployStage::VerifyEgress => run.stage is VerifySelectors,
        },
{
}

/// A stage that failed never leads on, and one that worked never ends a
/// deployment. At the end of the routes' and the ways' stages stands what was
/// seen there.
pub proof fn law_failures_end_a_deployment(
    run: DeployRun,
    policy: RollbackPolicy,
    key: bool,
    outcome: StageOutcome,
    r: (DeployRun, DeployNext),
)
    requires
        run_wf(run),
        outcome_of(run.stage, outcome),
        call_ensures(DeployRun::execute, (run, policy, key, outcome), r),
    ensures
        match outcome {
            StageOutcome::Worked(_) | StageOutcome::Wrote(_) => r.1 is Go,
            StageOutcome::Failed(_) => !(r.1 is Go),
            StageOutcome::NotStarted(_) => r.1 matches DeployNext::Answer { success, .. }
                && !success,
            StageOutcome::NotReady { .. } => r.1 is Refuse,
            StageOutcome::Routes { desktop, ubuntu, .. } => r.1 is Go <==> (
            desktop.desired_main_route is Some && ubuntu.desired_main_route is Some
                && desktop.desired_main_route.deep_view() == desktop.observed_main_route.deep_view()
                && ubuntu.desired_main_route.deep_view() == ubuntu.observed_main_route.deep_view()
                && !desktop.degraded && !ubuntu.degraded),
            StageOutcome::Ways { .. } => r.1 matches DeployNext::Answer { success, .. } && success,
        },
{
}

/// The whole is recorded as ready only where both ways through the proxy are
/// open, and then it is. An error is recorded exactly where something is wrong.
pub proof fn law_ready_is_recorded_only_where_it_is_so(
    run: DeployRun,
    policy: RollbackPolicy,
    key: bool,
    outcome: StageOutcome,
    r: (DeployRun, DeployNext),
    i: int,
)
    requires
        run_wf(run),
        outcome_of(run.stage, outcome),
        call_ensures(DeployRun::execute, (run, policy, key, outcome), r),
        0 <= i < effects_of(r.1@).len(),
    ensures
        effects_of(r.1@)[i] matches EffectText::Record(p) ==> {
            &&& p.app_readiness_phase is AppReady ==> (outcome matches StageOutcome::Ways {
                desktop_trace,
                ubuntu_trace,
                ..
            } && desktop_trace.available && ubuntu_trace.available)
            &&& p.app_readiness_phase is AppEgressReady ==> (outcome matches StageOutcome::Ways {
                desktop_trace,
                ubuntu_trace,
                ..
            } && desktop_trace.available && ubuntu_trace.available)
            &&& p.app_readiness_phase is SelectorsReady ==> run.stage is VerifySelectors
                && r.1 is Go
            &&& p.app_readiness_phase is LocalRuntimeReady ==> run.stage is ReconcileSelectors
            &&& p.app_readiness_phase is ServerRuntimeReady ==> (run.stage is VerifyRuntime
                || run.stage is SyncLocalConfig) && r.1 is Go
            &&& p.error_code is Some <==> p.app_readiness_phase is AppReadinessFailed
            &&& p.error_message is Some <==> p.error_code is Some
            &&& p.operation_status is Some ==> !(r.1 is Go)
            &&& p.operation_status matches Some(word) ==> word == match r.1 {
                DeployNext::Answer { success: true, .. } => "SUCCEEDED"@,
                _ => "FAILED"@,
            }
        },
{
}

/// A deployment whose ways are both open ends with the record that the whole is
/// ready, and with the word for success.
pub proof fn law_open_ways_make_the_whole_ready(
    run: DeployRun,
    policy: RollbackPolicy,
    key: bool,
    outcome: StageOutcome,
    r: (DeployRun, DeployNext),
)
    requires
        run_wf(run),
        outcome_of(run.stage, outcome),
        call_ensures(DeployRun::execute, (run, policy, key, outcome), r),
        outcome matches StageOutcome::Ways { desktop_trace, ubuntu_trace, .. }
            && desktop_trace.available && ubuntu_trace.available,
    ensures
        exists|i: int|
            0 <= i < effects_of(r.1@).len() && (#[trigger] effects_of(
                r.1@,
            )[i] matches EffectText::Record(p) && p.app_readiness_phase is AppReady
                && p.operation_status == Some("SUCCEEDED"@) && p.error_code is None),
        exists|i: int|
            0 <= i < effects_of(r.1@).len() && (#[trigger] effects_of(
                r.1@,
            )[i] matches EffectText::Mark { status, required } && status == "SUCCEEDED"@
                && required),
{
    assert(effects_of(r.1@)[1] is Record);
    assert(effects_of(r.1@)[2] is Mark);
}

/// A refusal tells the failure word for word, and the caller is asked to try
/// again only where the machine could not be found for a passing reason.
pub proof fn law_refusals_tell_the_failure(
    stage: DeployStage,
    failure: String,
    warnings: Vec<String>,
    r: Status,
)
    requires
        call_ensures(deploy_refusal, (stage, failure, &warnings), r),
    ensures
        r.code is Unavailable ==> stage is ResolveTarget,
        stage is ResolveTarget ==> r.message@ == failure@ && (r.code is Unavailable
            || r.code is InvalidArgument),
        !(stage is ResolveTarget) ==> r.code is Internal,
        has_part(r.message@, failure@),
        warnings@.len() > 0 && !(stage is ResolveTarget) ==> has_part(
            r.message@,
            joined(texts(warnings@), "; "@),
        ),
{
    let whole = failure_prefix(stage) + failure@ + rollback_words(warnings@);
    if stage is ResolveTarget {
        assert(failure@.subrange(0, failure@.len() as int) =~= failure@);
        assert(stands_at(failure@, failure@, 0));
    } else {
        let at = failure_prefix(stage).len() as int;
        assert(whole.subrange(at, at + failure@.len()) =~= failure@);
        assert(stands_at(whole, failure@, at));
        if warnings@.len() > 0 {
            let list = joined(texts(warnings@), "; "@);
            assert(whole.subrange(whole.len() - list.len(), whole.len() as int) =~= list);
            assert(stands_at(whole, list, whole.len() - list.len()));
        }
    }
}

/// An answer names the machine that was deployed to, says whether the provider
/// was a real one, and leaves out no warning, neither of the deployment nor of
/// its rollback.
pub proof fn law_answers_name_the_machine_and_all_warnings(
    request: DeployRequest,
    target: ResolvedDeployTarget,
    bundle: BundleName,
    runtime: Option<AgentState>,
    success: bool,
    warnings: Vec<String>,
    undone: Vec<String>,
    r: DeployAnswer,
)
    requires
        call_ensures(
            answer_deploy,
            (&request, &target, bundle, runtime, success, warnings, undone),
            r,
        ),
    ensures
        r.success == success,
        r.operation_status@ == if success {
            "SUCCEEDED"@
        } else {
            "FAILED"@
        },
        r.deployment matches Some(d) && d.live_state_present && (d.instance_id matches Some(id)
            && id@ == target.instance_id@) && (d.server_ip matches Some(ip) && ip@
            == target.target_ip@) && (d.deployment_label matches Some(l) && l@ == bundle.label@)
            && (d.tunnel_domain is Some <==> bundle.tunnel_enabled) && (
        d.tunnel_domain matches Some(t) ==> t@ == bundle.tunnel_domain@),
        r.provider matches Some(p) && p.configured != request.mock_provider,
        r.runtime == runtime,
        r.warnings@.len() == warnings@.len() + undone@.len(),
        forall|i: int|
            0 <= i < warnings@.len() ==> texts(r.warnings@).contains(#[trigger] warnings@[i]@),
        forall|i: int|
            0 <= i < undone@.len() ==> texts(r.warnings@).contains(#[trigger] undone@[i]@),
{
    let all = texts(r.warnings@);
    assert(all.len() == r.warnings@.len());
    assert forall|i: int| 0 <= i < warnings@.len() implies all.contains(
        #[trigger] warnings@[i]@,
    ) by {
        assert(all[i] == texts(warnings@)[i]);
    }
    assert forall|i: int| 0 <= i < undone@.len() implies all.contains(#[trigger] undone@[i]@) by {
        assert(all[warnings@.len() + i] == texts(undone@)[i]);
    }
}

/// What is told of the providers warns of all that was not done for real.
pub proof fn law_pretended_work_is_warned_of(
    request: DeployRequest,
    target_ip: &str,
    r: ProviderObservation,
)
    requires
        call_ensures(provider_observation_from_request, (&request, target_ip), r),
    ensures
        r.configured != request.mock_provider,
        r.warnings@.len() == 0 <==> !request.mock_provider && !request.skip_dns && !blank(
            target_ip@,
        ),
        request.mock_provider ==> texts(r.warnings@).contains(
            "provider operations were executed in mock mode"@,
        ),
        request.skip_dns ==> texts(r.warnings@).contains(
            "DNS cutover was skipped for this deployment"@,
        ),
        blank(target_ip@) ==> texts(r.warnings@).contains("target IP is empty"@),
{
    let w = texts(r.warnings@);
    assert(w.len() == r.warnings@.len());
    if request.mock_provider {
        assert(w[0] == "provider operations were executed in mock mode"@);
    }
    if request.skip_dns {
        let i: int = if request.mock_provider {
            1
        } else {
            0
        };
        assert(w[i] == "DNS cutover was skipped for this deployment"@);
    }
    if blank(target_ip@) {
        assert(w.last() == "target IP is empty"@);
    }
}

/// The wait for an agent's runtime ends with an answer only where there is one,
/// and where readiness is asked for only with one that is ready. It looks at
/// most twenty times.
pub proof fn law_runtime_is_waited_for_until_it_is_ready(
    attempt: u32,
    require_readiness: bool,
    answer: Result<RuntimeVerdict, String>,
    r: WaitNext<RuntimeVerdict>,
)
    requires
        call_ensures(wait_for_agent_runtime_target, (attempt, require_readiness, answer), r),
    ensures
        r matches WaitNext::Done(Ok(v)) ==> answer == Ok::<RuntimeVerdict, String>(v) && (
        require_readiness ==> v.ready),
        answer matches Ok(v) && v.ready ==> r is Done,
        answer is Ok && !require_readiness ==> r is Done,
        answer is Err ==> r is Again || (r matches WaitNext::Done(Err(_))),
        r is Again <==> attempt < 19 && !(answer matches Ok(v) && (v.ready || !require_readiness)),
{
}

/// A policy lets a rollback go ahead only where it leaves nothing out.
pub proof fn law_rollbacks_are_whole_or_told(policy: RollbackPolicy, r: Result<(), Vec<String>>)
    requires
        call_ensures(apply_failure_rollback, (policy,), r),
    ensures
        r is Ok <==> policy.restore_live_state && policy.restore_controller_snapshot
            && policy.clear_new_state_rows,
        r matches Err(warnings) ==> warnings@.len() == 1,
{
    if r is Err {
        assert(texts(r->Err_0@).len() == r->Err_0@.len());
    }
}

/// A rollback warns of exactly the parts of it that failed, with what was said
/// of each, and tells of each part that worked.
pub proof fn law_rollbacks_tell_of_every_part(
    outcome: RollbackOutcome,
    r: (Vec<String>, Vec<String>),
)
    requires
        call_ensures(rollback_failed_deploy, (&outcome,), r),
    ensures
        ({
            let dns_failed = outcome.dns matches Some(Err(_));
            let machine_failed = outcome.machine is Some && !(outcome.machine->Some_0 is Removed);
            let record_failed = outcome.record is Err;
            &&& r.1@.len() == (if dns_failed {
                1int
            } else {
                0
            }) + (if machine_failed {
                1int
            } else {
                0
            }) + (if record_failed {
                1int
            } else {
                0
            })
            &&& record_failed ==> texts(r.1@).last() == "rollback state restore failed: "@
                + outcome.record->Err_0@
            &&& dns_failed ==> texts(r.1@).first() == "rollback DNS cleanup failed: "@
                + outcome.dns->Some_0->Err_0@
            &&& outcome.dns matches Some(Ok(note)) ==> texts(r.0@)[1] == note@
            &&& texts(r.0@).first() == "rollback started"@
            &&& texts(r.0@).last() == "rollback completed"@ <==> r.1@.len() == 0
            &&& outcome.record is Ok ==> texts(r.0@)[texts(r.0@).len() - 2]
                == "rollback restored local deployment state"@
        }),
{
    assert(texts(r.1@).len() == r.1@.len());
    assert(texts(r.0@).len() == r.0@.len());
    reveal_strlit("rollback completed");
    reveal_strlit("rollback completed with warnings: ");
    let a = "rollback completed"@;
    let b = "rollback completed with warnings: "@ + joined(rollback_warnings(outcome), "; "@);
    assert(a.len() != b.len());
}

/// What is told of a deployment is the machine that it went to, and the tunnel's
/// name exactly where there is a tunnel.
pub proof fn law_a_deployment_is_told_by_its_machine(
    label: &str,
    target: ResolvedDeployTarget,
    tunnel_enabled: bool,
    tunnel_domain: String,
    r: DeploymentSummary,
)
    requires
        call_ensures(bundle_to_proto_summary, (label, &target, tunnel_enabled, tunnel_domain), r),
    ensures
        r.live_state_present,
        r.deployment_label.deep_view() == Some(label@),
        r.instance_id.deep_view() == Some(target.instance_id@),
        r.server_ip.deep_view() == Some(target.target_ip@),
        r.tunnel_domain is Some <==> tunnel_enabled,
        tunnel_enabled ==> r.tunnel_domain.deep_view() == Some(tunnel_domain@),
        r.source_state_path is None,
{
}

/// What was only pretended is told as pretended, and what was done is not.
pub proof fn law_pretended_names_are_told_as_pretended(
    mock: bool,
    name: &str,
    ip: &str,
    zone: &str,
    updated: String,
    deleted: String,
)
    requires
        call_ensures(apply_dns_update, (mock, name, ip, zone), updated),
        call_ensures(delete_dns_record, (mock, name), deleted),
    ensures
        mock ==> updated@ == "mock DNS updated: "@ + name@ + " -> "@ + ip@ + " ("@ + zone@ + ")"@,
        !mock ==> updated@ == "DNS updated: "@ + name@ + " -> "@ + ip@ + " ("@ + zone@ + ")"@,
        mock ==> deleted@ == "mock DNS delete requested for "@ + name@,
        !mock ==> deleted@ == "DNS delete requested for "@ + name@,
{
}

/// A strict rollback leaves nothing of a deployment on record.
pub proof fn law_a_strict_rollback_restores_everything(r: RollbackPolicy)
    requires
        call_ensures(RollbackPolicy::strict, (), r),
    ensures
        r.restore_live_state && r.restore_controller_snapshot && r.clear_new_state_rows,
{
}

/// No warning is lost, and the earlier ones come first.
pub proof fn law_no_warning_is_lost(primary: Vec<String>, secondary: Vec<String>, r: Vec<String>, i: int)
    requires
        call_ensures(merge_warnings, (primary, secondary), r),
    ensures
        r@.len() == primary@.len() + secondary@.len(),
        0 <= i < primary@.len() ==> r@[i] == primary@[i],
        0 <= i < secondary@.len() ==> r@[primary@.len() + i] == secondary@[i],
{
}

/// A machine that was made is told as made, and one that was there is not.
pub proof fn law_a_machine_that_was_made_is_told_as_made(target: ResolvedDeployTarget, r: String)
    requires
        call_ensures(target_event, (&target,), r),
    ensures
        target.created_instance ==> r@ == "target resolved: "@ + target.instance_id@ + " ("@
            + target.target_ip@ + ")"@ + " [created]"@,
        !target.created_instance ==> r@ == "target resolved: "@ + target.instance_id@ + " ("@
            + target.target_ip@ + ")"@,
{
    reveal_strlit("");
    let told = "target resolved: "@ + target.instance_id@ + " ("@ + target.target_ip@ + ")"@;
    assert(told + ""@ =~= told);
}

} // verus!
