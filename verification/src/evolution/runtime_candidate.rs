//! The runtime candidate manifest: support flags, phases and the release-candidate status.
use vstd::prelude::*;

use crate::contracts::{
    FuturePhaseEntry, FuturePhaseRegistry, GovernanceStatus, PreflightGateV3Report, ProofReport,
    RuntimeValidation, WorkspaceSnapshot,
};
use crate::evolution::runtime_validation::{count_true, labels_where, support_flags};
use crate::text::{
    decimal, flag, has_prefix, owned, push_decimal, push_str, starts_with, str_eq,
    views,
};

verus! {

/// The names of the support flags of a proof report, in their declared order.
pub open spec fn support_flag_names() -> Seq<Seq<char>> {
    seq![
        "local_corpus_ingestion_support"@,
        "read_only_corpus_safety"@,
        "task_suggestion_support"@,
        "campaign_diagnostics_support"@,
        "zero_yield_task_adjustment_support"@,
        "bounded_campaign_loop_support"@,
        "recombination_fallback_support"@,
        "replay_review_support"@,
        "promotion_queue_support"@,
        "supervised_task_support"@,
        "governance_runtime_support"@,
        "release_runtime_support"@,
        "release_health_support"@,
        "artifact_audit_support"@,
        "determinism_audit_support"@,
        "preflight_gate_v2_support"@,
        "release_ledger_support"@,
        "future_phase_registry_support"@,
        "operator_runbook_support"@,
        "operations_runtime_support"@,
        "pr_package_support"@,
        "external_patch_package_support"@,
        "self_review_package_support"@,
        "operator_console_support"@,
        "capability_policy_support"@,
        "trust_decision_support"@,
        "evidence_bundle_support"@,
        "workspace_snapshot_support"@,
        "recovery_manifest_support"@,
        "preflight_gate_v3_support"@,
        "trust_proof_report_support"@,
        "runtime_candidate_support"@,
        "runtime_validation_support"@,
        "runtime_service_metadata_support"@,
        "stable_cli_contract_support"@,
        "final_rc_report_support"@,
    ]
}

fn flag_names() -> (v: Vec<&'static str>)
    ensures
        v@.len() == 36,
        forall|i: int| 0 <= i < 36 ==> (#[trigger] v@[i])@ == support_flag_names()[i],
{
    let v = vec![
        "local_corpus_ingestion_support",
        "read_only_corpus_safety",
        "task_suggestion_support",
        "campaign_diagnostics_support",
        "zero_yield_task_adjustment_support",
        "bounded_campaign_loop_support",
        "recombination_fallback_support",
        "replay_review_support",
        "promotion_queue_support",
        "supervised_task_support",
        "governance_runtime_support",
        "release_runtime_support",
        "release_health_support",
        "artifact_audit_support",
        "determinism_audit_support",
        "preflight_gate_v2_support",
        "release_ledger_support",
        "future_phase_registry_support",
        "operator_runbook_support",
        "operations_runtime_support",
        "pr_package_support",
        "external_patch_package_support",
        "self_review_package_support",
        "operator_console_support",
        "capability_policy_support",
        "trust_decision_support",
        "evidence_bundle_support",
        "workspace_snapshot_support",
        "recovery_manifest_support",
        "preflight_gate_v3_support",
        "trust_proof_report_support",
        "runtime_candidate_support",
        "runtime_validation_support",
        "runtime_service_metadata_support",
        "stable_cli_contract_support",
        "final_rc_report_support",
    ];
    assert(forall|i: int| 0 <= i < 36 ==> (#[trigger] v@[i])@ == support_flag_names()[i]);
    v
}

fn support_flag_values(p: &ProofReport) -> (v: Vec<bool>)
    ensures
        v@ == support_flags(*p),
{
    let v = vec![
        p.local_corpus_ingestion_support, p.read_only_corpus_safety, p.task_suggestion_support,
        p.campaign_diagnostics_support, p.zero_yield_task_adjustment_support,
        p.bounded_campaign_loop_support, p.recombination_fallback_support,
        p.replay_review_support, p.promotion_queue_support, p.supervised_task_support,
        p.governance_runtime_support, p.release_runtime_support, p.release_health_support,
        p.artifact_audit_support, p.determinism_audit_support, p.preflight_gate_v2_support,
        p.release_ledger_support, p.future_phase_registry_support, p.operator_runbook_support,
        p.operations_runtime_support, p.pr_package_support, p.external_patch_package_support,
        p.self_review_package_support, p.operator_console_support, p.capability_policy_support,
        p.trust_decision_support, p.evidence_bundle_support, p.workspace_snapshot_support,
        p.recovery_manifest_support, p.preflight_gate_v3_support, p.trust_proof_report_support,
        p.runtime_candidate_support, p.runtime_validation_support,
        p.runtime_service_metadata_support, p.stable_cli_contract_support,
        p.final_rc_report_support,
    ];
    assert(v@ =~= support_flags(*p));
    v
}

/// The names of the support flags that the proof report sets, in declared order.
pub fn proof_support_flags(proof: &ProofReport) -> (r: Vec<String>)
    ensures
        views(r@) == labels_where(support_flags(*proof), support_flag_names(), true),
{
    let values = support_flag_values(proof);
    let names = flag_names();
    let mut r: Vec<String> = Vec::new();
    let mut i: usize = 0;
    while i < 36
        invariant
            values@ == support_flags(*proof),
            names@.len() == 36,
            forall|k: int| 0 <= k < 36 ==> (#[trigger] names@[k])@ == support_flag_names()[k],
            i <= 36,
            views(r@) == labels_where(values@.take(i as int), support_flag_names(), true),
        decreases 36 - i,
    {
        assert(values@.take(i + 1).drop_last() =~= values@.take(i as int));
        crate::text::push_if(&mut r, values[i], names[i]);
        i = i + 1;
    }
    assert(values@.take(36) =~= values@);
    r
}

/// As many labels are kept as flags equal `want`.
pub proof fn lemma_labels_where_len(flags: Seq<bool>, labels: Seq<Seq<char>>)
    ensures
        labels_where(flags, labels, true).len() == count_true(flags),
    decreases flags.len(),
{
    if flags.len() > 0 {
        lemma_labels_where_len(flags.drop_last(), labels);
    }
}

/// The support flags listed for a proof report are exactly as many as it sets.
pub proof fn lemma_support_flags_counted(proof: ProofReport)
    ensures
        labels_where(support_flags(proof), support_flag_names(), true).len() == count_true(
            support_flags(proof),
        ),
{
    lemma_labels_where_len(support_flags(proof), support_flag_names());
}

/// The release-candidate status: blocked when validation is blocked; a
/// warning without a ready approved candidate or when validation or the v3
/// gate warns; a pass when validation is green; a warning otherwise.
pub open spec fn rc_status_of(validation_status: Seq<char>, ready_approved: nat, gate_v3_status: Seq<char>) -> Seq<char> {
    if validation_status == "blocked"@ {
        "blocked"@
    } else if ready_approved == 0 || validation_status == "warn"@ || gate_v3_status == "warn"@ {
        "warn"@
    } else if validation_status == "green"@ {
        "pass"@
    } else {
        "warn"@
    }
}

/// The release-candidate status.
pub fn release_candidate_status(
    validation_status: &str,
    ready_approved: usize,
    gate_v3_status: &str,
) -> (r: String)
    ensures
        r@ == rc_status_of(validation_status@, ready_approved as nat, gate_v3_status@),
{
    if str_eq(validation_status, "blocked") {
        owned("blocked")
    } else if ready_approved == 0 || str_eq(validation_status, "warn") || str_eq(
        gate_v3_status,
        "warn",
    ) {
        owned("warn")
    } else if str_eq(validation_status, "green") {
        owned("pass")
    } else {
        owned("warn")
    }
}

/// `"<phase> <name>"` for each entry whose status satisfies the selection, in order:
/// the completed phases (`completed` holds) or the planned ones.
pub open spec fn phases_where(entries: Seq<FuturePhaseEntry>, completed: bool) -> Seq<Seq<char>>
    decreases entries.len(),
{
    if entries.len() == 0 {
        Seq::empty()
    } else {
        let e = entries.last();
        let selected = if completed {
            has_prefix(e.status@, "completed_by_"@)
        } else {
            e.status@ == "planned"@
        };
        phases_where(entries.drop_last(), completed) + flag(selected, e.phase@ + " "@ + e.name@)
    }
}

/// The completed or the planned phases of the registry.
pub fn phase_lines(registry: &FuturePhaseRegistry, completed: bool) -> (r: Vec<String>)
    ensures
        views(r@) == phases_where(registry.entries@, completed),
{
    let mut r: Vec<String> = Vec::new();
    let mut i: usize = 0;
    while i < registry.entries.len()
        invariant
            i <= registry.entries.len(),
            views(r@) == phases_where(registry.entries@.take(i as int), completed),
        decreases registry.entries.len() - i,
    {
        let e = &registry.entries[i];
        assert(registry.entries@.take(i + 1).drop_last() =~= registry.entries@.take(i as int));
        assert(registry.entries@.take(i + 1).last() == registry.entries@[i as int]);
        let selected = if completed {
            starts_with(e.status.as_str(), "completed_by_")
        } else {
            str_eq(e.status.as_str(), "planned")
        };
        let ghost before = views(r@);
        if selected {
            let mut line = owned(e.phase.as_str());
            push_str(&mut line, " ");
            push_str(&mut line, e.name.as_str());
            r.push(line);
        }
        assert(views(r@) =~= before + flag(selected, e.phase@ + " "@ + e.name@));
        i = i + 1;
    }
    assert(registry.entries@.take(i as int) =~= registry.entries@);
    r
}

/// What the trust decision said: the decision and its blockers and warnings.
#[derive(Clone, Debug)]
pub struct TrustSummary {
    pub trust_decision: String,
    pub blockers: Vec<String>,
    pub warnings: Vec<String>,
}

/// What the operations report said: the health grade, the preflight status
/// and the next safe operator action.
#[derive(Clone, Debug)]
pub struct OperationsSummary {
    pub release_health_grade: String,
    pub preflight_gate_status: String,
    pub next_safe_operator_action: String,
}

/// Everything the runtime candidate manifest is made of.
#[derive(Clone, Debug)]
pub struct RuntimeCandidateInputs {
    pub proof: ProofReport,
    pub governance: GovernanceStatus,
    pub release_state: String,
    pub trust: TrustSummary,
    pub operations: OperationsSummary,
    pub gate_v3: PreflightGateV3Report,
    pub validation: RuntimeValidation,
    pub snapshot: WorkspaceSnapshot,
    pub future: FuturePhaseRegistry,
    pub generated_at: u64,
    pub git_branch: Option<String>,
    pub git_head: Option<String>,
    pub latest_evidence_bundle_id: Option<String>,
    pub latest_workspace_snapshot_id: Option<String>,
    pub latest_recovery_manifest_id: Option<String>,
    pub latest_proof_snapshot_id: Option<String>,
}

/// The manifest of a runtime release candidate.
#[derive(Clone, Debug)]
pub struct RuntimeCandidateManifest {
    pub candidate_id: String,
    pub generated_at: u64,
    pub git_branch: String,
    pub git_head: String,
    pub completed_phases: Vec<String>,
    pub planned_phases: Vec<String>,
    pub support_flags: Vec<String>,
    pub governance_state: String,
    pub release_state: String,
    pub trust_state: String,
    pub operations_state: String,
    pub preflight_gate_v3_state: String,
    pub auto_promote: bool,
    pub operator_approval_required: bool,
    pub sandbox_leak_count: usize,
    pub release_count: usize,
    pub ready_candidates: usize,
    pub approved_count: usize,
    pub blocked_candidates_count: usize,
    pub latest_evidence_bundle_id: Option<String>,
    pub latest_workspace_snapshot_id: Option<String>,
    pub latest_recovery_manifest_id: Option<String>,
    pub latest_proof_snapshot_id: Option<String>,
    pub latest_bounded_run_id: Option<String>,
    pub latest_supervised_run_id: Option<String>,
    pub rc_status: String,
}

/// The governance line of the manifest.
pub open spec fn governance_state_text(g: GovernanceStatus) -> Seq<char> {
    "approved="@ + decimal(g.approved_count as nat) + " rejected="@ + decimal(
        g.rejected_count as nat,
    ) + " deferred="@ + decimal(g.deferred_count as nat) + " ready_approved="@ + decimal(
        g.promotion_ready_approved_count as nat,
    )
}

/// The trust line of the manifest.
pub open spec fn trust_state_text(t: TrustSummary) -> Seq<char> {
    "decision="@ + t.trust_decision@ + " blockers="@ + decimal(t.blockers.len() as nat)
        + " warnings="@ + decimal(t.warnings.len() as nat)
}

/// The operations line of the manifest.
pub open spec fn operations_state_text(o: OperationsSummary) -> Seq<char> {
    "health="@ + o.release_health_grade@ + " preflight="@ + o.preflight_gate_status@ + " next="@
        + o.next_safe_operator_action@
}

/// The v3 preflight line of the manifest.
pub open spec fn gate_v3_state_text(g: PreflightGateV3Report) -> Seq<char> {
    "status="@ + g.status@ + " blockers="@ + decimal(g.blockers.len() as nat) + " warnings="@
        + decimal(g.warnings.len() as nat)
}

/// A known value, or `unknown`.
pub open spec fn or_unknown(v: Option<String>) -> Seq<char> {
    match v {
        Some(s) => s@,
        None => "unknown"@,
    }
}

fn known_or_unknown(v: Option<String>) -> (r: String)
    ensures
        r@ == or_unknown(v),
{
    match v {
        Some(s) => s,
        None => owned("unknown"),
    }
}

fn usize_line(s: &mut String, label: &str, n: usize)
    ensures
        final(s)@ == old(s)@ + label@ + decimal(n as nat),
{
    push_str(s, label);
    push_decimal(s, n as u64);
}

/// The manifest of the runtime release candidate: it never promotes on its
/// own and always asks for operator approval.
pub fn build_runtime_candidate_manifest(inputs: RuntimeCandidateInputs) -> (m: RuntimeCandidateManifest)
    ensures
        m.candidate_id@ == "runtime-candidate-"@ + decimal(inputs.generated_at as nat),
        m.generated_at == inputs.generated_at,
        m.git_branch@ == or_unknown(inputs.git_branch),
        m.git_head@ == or_unknown(inputs.git_head),
        views(m.completed_phases@) == phases_where(inputs.future.entries@, true),
        views(m.planned_phases@) == phases_where(inputs.future.entries@, false),
        views(m.support_flags@) == labels_where(
            support_flags(inputs.proof),
            support_flag_names(),
            true,
        ),
        m.governance_state@ == governance_state_text(inputs.governance),
        m.release_state == inputs.release_state,
        m.trust_state@ == trust_state_text(inputs.trust),
        m.operations_state@ == operations_state_text(inputs.operations),
        m.preflight_gate_v3_state@ == gate_v3_state_text(inputs.gate_v3),
        !m.auto_promote,
        m.operator_approval_required,
        m.sandbox_leak_count == inputs.snapshot.sandbox_leak_count,
        m.release_count == inputs.proof.release_count,
        m.ready_candidates == inputs.proof.ready_candidates,
        m.approved_count == inputs.governance.approved_count,
        m.blocked_candidates_count == inputs.proof.blocked_candidates,
        m.latest_evidence_bundle_id == inputs.latest_evidence_bundle_id,
        m.latest_workspace_snapshot_id == inputs.latest_workspace_snapshot_id,
        m.latest_recovery_manifest_id == inputs.latest_recovery_manifest_id,
        m.latest_proof_snapshot_id == inputs.latest_proof_snapshot_id,
        m.latest_bounded_run_id == inputs.proof.latest_bounded_run_id,
        m.latest_supervised_run_id == inputs.proof.latest_supervised_run_id,
        m.rc_status@ == rc_status_of(
            inputs.validation.status@,
            inputs.governance.promotion_ready_approved_count as nat,
            inputs.gate_v3.status@,
        ),
{
    let mut candidate_id = owned("runtime-candidate-");
    push_decimal(&mut candidate_id, inputs.generated_at);
    let completed_phases = phase_lines(&inputs.future, true);
    let planned_phases = phase_lines(&inputs.future, false);
    let support = proof_support_flags(&inputs.proof);
    let g = &inputs.governance;
    let mut governance_state = String::new();
    usize_line(&mut governance_state, "approved=", g.approved_count);
    usize_line(&mut governance_state, " rejected=", g.rejected_count);
    usize_line(&mut governance_state, " deferred=", g.deferred_count);
    usize_line(&mut governance_state, " ready_approved=", g.promotion_ready_approved_count);
    let mut trust_state = owned("decision=");
    push_str(&mut trust_state, inputs.trust.trust_decision.as_str());
    usize_line(&mut trust_state, " blockers=", inputs.trust.blockers.len());
    usize_line(&mut trust_state, " warnings=", inputs.trust.warnings.len());
    let mut operations_state = owned("health=");
    push_str(&mut operations_state, inputs.operations.release_health_grade.as_str());
    push_str(&mut operations_state, " preflight=");
    push_str(&mut operations_state, inputs.operations.preflight_gate_status.as_str());
    push_str(&mut operations_state, " next=");
    push_str(&mut operations_state, inputs.operations.next_safe_operator_action.as_str());
    let mut gate_state = owned("status=");
    push_str(&mut gate_state, inputs.gate_v3.status.as_str());
    usize_line(&mut gate_state, " blockers=", inputs.gate_v3.blockers.len());
    usize_line(&mut gate_state, " warnings=", inputs.gate_v3.warnings.len());
    let rc_status = release_candidate_status(
        inputs.validation.status.as_str(),
        inputs.governance.promotion_ready_approved_count,
        inputs.gate_v3.status.as_str(),
    );
    RuntimeCandidateManifest {
        candidate_id,
        generated_at: inputs.generated_at,
        git_branch: known_or_unknown(inputs.git_branch),
        git_head: known_or_unknown(inputs.git_head),
        completed_phases,
        planned_phases,
        support_flags: support,
        governance_state,
        release_state: inputs.release_state,
        trust_state,
        operations_state,
        preflight_gate_v3_state: gate_state,
        auto_promote: false,
        operator_approval_required: true,
        sandbox_leak_count: inputs.snapshot.sandbox_leak_count,
        release_count: inputs.proof.release_count,
        ready_candidates: inputs.proof.ready_candidates,
        approved_count: inputs.governance.approved_count,
        blocked_candidates_count: inputs.proof.blocked_candidates,
        latest_evidence_bundle_id: inputs.latest_evidence_bundle_id,
        latest_workspace_snapshot_id: inputs.latest_workspace_snapshot_id,
        latest_recovery_manifest_id: inputs.latest_recovery_manifest_id,
        latest_proof_snapshot_id: inputs.latest_proof_snapshot_id,
        latest_bounded_run_id: inputs.proof.latest_bounded_run_id,
        latest_supervised_run_id: inputs.proof.latest_supervised_run_id,
        rc_status,
    }
}

} // verus!
