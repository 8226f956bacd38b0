//! The proof report text, the compact operator status and the demo walkthrough.
use vstd::prelude::*;

use crate::contracts::{
    GovernanceStatus, PreflightGateReport, PromotionQueueItem, ProofReport, ReleaseHealthReport,
};
use crate::evolution::release_health::{count_items, is_ready_item};
use crate::text::str_eq;
use crate::text::{bool_text, decimal, or_none, push_bool, push_decimal, push_or_none, push_str};

verus! {

/// A `name=value` line of a flag.
#[verifier::opaque]
pub open spec fn flag_line(name: Seq<char>, b: bool) -> Seq<char> {
    name + "="@ + bool_text(b) + "\n"@
}

/// A `name=value` line of a counter.
pub open spec fn count_line(name: Seq<char>, n: nat) -> Seq<char> {
    name + "="@ + decimal(n) + "\n"@
}

/// A `name=value` line of an optional id.
pub open spec fn id_line(name: Seq<char>, v: Option<String>) -> Seq<char> {
    name + "="@ + or_none(v) + "\n"@
}

fn push_flag_line(s: &mut String, name: &str, b: bool)
    ensures
        final(s)@ == old(s)@ + flag_line(name@, b),
{
    reveal(flag_line);
    push_str(s, name);
    push_str(s, "=");
    push_bool(s, b);
    push_str(s, "\n");
}

fn push_count_line(s: &mut String, name: &str, n: usize)
    ensures
        final(s)@ == old(s)@ + count_line(name@, n as nat),
{
    push_str(s, name);
    push_str(s, "=");
    push_decimal(s, n as u64);
    push_str(s, "\n");
}

fn push_id_line(s: &mut String, name: &str, v: &Option<String>)
    ensures
        final(s)@ == old(s)@ + id_line(name@, *v),
{
    push_str(s, name);
    push_str(s, "=");
    push_or_none(s, v);
    push_str(s, "\n");
}

/// The support flag lines of the proof report.
/// The first support flag lines of the proof report.
pub open spec fn proof_flags_head(p: ProofReport) -> Seq<char> {
    flag_line("local_corpus_ingestion_support"@, p.local_corpus_ingestion_support) + flag_line("read_only_corpus_safety"@, p.read_only_corpus_safety) + flag_line("task_suggestion_support"@, p.task_suggestion_support) + flag_line("campaign_diagnostics_support"@, p.campaign_diagnostics_support) + flag_line("zero_yield_task_adjustment_support"@, p.zero_yield_task_adjustment_support) + flag_line("bounded_campaign_loop_support"@, p.bounded_campaign_loop_support) + flag_line("recombination_fallback_support"@, p.recombination_fallback_support) + flag_line("replay_review_support"@, p.replay_review_support) + flag_line("promotion_queue_support"@, p.promotion_queue_support) + flag_line("supervised_task_support"@, p.supervised_task_support) + flag_line("governance_runtime_support"@, p.governance_runtime_support)
}

/// The remaining support flag lines of the proof report.
pub open spec fn proof_flags_tail(p: ProofReport) -> Seq<char> {
    flag_line("release_runtime_support"@, p.release_runtime_support) + flag_line("release_health_support"@, p.release_health_support) + flag_line("artifact_audit_support"@, p.artifact_audit_support) + flag_line("determinism_audit_support"@, p.determinism_audit_support) + flag_line("preflight_gate_v2_support"@, p.preflight_gate_v2_support) + flag_line("release_ledger_support"@, p.release_ledger_support) + flag_line("future_phase_registry_support"@, p.future_phase_registry_support) + flag_line("operator_runbook_support"@, p.operator_runbook_support) + flag_line("auto_promote"@, p.auto_promote) + flag_line("operator_approval_required"@, p.operator_approval_required) + flag_line("forbidden_target_preservation"@, p.forbidden_target_preservation)
}

/// The support flag lines of the proof report.
pub open spec fn proof_flags_text(p: ProofReport) -> Seq<char> {
    proof_flags_head(p) + proof_flags_tail(p)
}

/// The counter and id lines of the proof report.
pub open spec fn proof_counts_text(p: ProofReport) -> Seq<char> {
    count_line("total_runs"@, p.total_runs as nat) + count_line("candidate_count"@, p.candidate_count as nat) + count_line("replay_passed_candidates"@, p.replay_passed_candidates as nat) + count_line("promoted_candidates"@, p.promoted_candidates as nat) + count_line("ready_candidates"@, p.ready_candidates as nat) + count_line("blocked_candidates"@, p.blocked_candidates as nat) + count_line("approved_count"@, p.approved_count as nat) + count_line("rejected_count"@, p.rejected_count as nat) + count_line("deferred_count"@, p.deferred_count as nat) + count_line("release_count"@, p.release_count as nat) + count_line("release_ledger_count"@, p.release_ledger_count as nat) + id_line("latest_release_id"@, p.latest_release_id) + id_line("latest_bounded_run_id"@, p.latest_bounded_run_id) + id_line("latest_supervised_run_id"@, p.latest_supervised_run_id)
}

/// The Markdown proof report: the support flags, then the counters and the latest ids.
pub open spec fn proof_markdown(p: ProofReport) -> Seq<char> {
    "# EVA Proof Report\n\n"@ + proof_flags_text(p) + "\n"@ + proof_counts_text(p)
}

fn proof_flags_first(proof: &ProofReport) -> (s: String)
    ensures
        s@ == proof_flags_head(*proof),
{
    let mut s = String::new();
    push_flag_line(&mut s, "local_corpus_ingestion_support", proof.local_corpus_ingestion_support);
    push_flag_line(&mut s, "read_only_corpus_safety", proof.read_only_corpus_safety);
    push_flag_line(&mut s, "task_suggestion_support", proof.task_suggestion_support);
    push_flag_line(&mut s, "campaign_diagnostics_support", proof.campaign_diagnostics_support);
    push_flag_line(&mut s, "zero_yield_task_adjustment_support", proof.zero_yield_task_adjustment_support);
    push_flag_line(&mut s, "bounded_campaign_loop_support", proof.bounded_campaign_loop_support);
    push_flag_line(&mut s, "recombination_fallback_support", proof.recombination_fallback_support);
    push_flag_line(&mut s, "replay_review_support", proof.replay_review_support);
    push_flag_line(&mut s, "promotion_queue_support", proof.promotion_queue_support);
    push_flag_line(&mut s, "supervised_task_support", proof.supervised_task_support);
    push_flag_line(&mut s, "governance_runtime_support", proof.governance_runtime_support);
    s
}

fn proof_flags_rest(proof: &ProofReport) -> (s: String)
    ensures
        s@ == proof_flags_tail(*proof),
{
    let mut s = String::new();
    push_flag_line(&mut s, "release_runtime_support", proof.release_runtime_support);
    push_flag_line(&mut s, "release_health_support", proof.release_health_support);
    push_flag_line(&mut s, "artifact_audit_support", proof.artifact_audit_support);
    push_flag_line(&mut s, "determinism_audit_support", proof.determinism_audit_support);
    push_flag_line(&mut s, "preflight_gate_v2_support", proof.preflight_gate_v2_support);
    push_flag_line(&mut s, "release_ledger_support", proof.release_ledger_support);
    push_flag_line(&mut s, "future_phase_registry_support", proof.future_phase_registry_support);
    push_flag_line(&mut s, "operator_runbook_support", proof.operator_runbook_support);
    push_flag_line(&mut s, "auto_promote", proof.auto_promote);
    push_flag_line(&mut s, "operator_approval_required", proof.operator_approval_required);
    push_flag_line(&mut s, "forbidden_target_preservation", proof.forbidden_target_preservation);
    s
}

fn proof_flags(proof: &ProofReport) -> (s: String)
    ensures
        s@ == proof_flags_text(*proof),
{
    let mut s = proof_flags_first(proof);
    push_str(&mut s, proof_flags_rest(proof).as_str());
    s
}

fn proof_counts(proof: &ProofReport) -> (s: String)
    ensures
        s@ == proof_counts_text(*proof),
{
    let mut s = String::new();
    push_count_line(&mut s, "total_runs", proof.total_runs);
    push_count_line(&mut s, "candidate_count", proof.candidate_count);
    push_count_line(&mut s, "replay_passed_candidates", proof.replay_passed_candidates);
    push_count_line(&mut s, "promoted_candidates", proof.promoted_candidates);
    push_count_line(&mut s, "ready_candidates", proof.ready_candidates);
    push_count_line(&mut s, "blocked_candidates", proof.blocked_candidates);
    push_count_line(&mut s, "approved_count", proof.approved_count);
    push_count_line(&mut s, "rejected_count", proof.rejected_count);
    push_count_line(&mut s, "deferred_count", proof.deferred_count);
    push_count_line(&mut s, "release_count", proof.release_count);
    push_count_line(&mut s, "release_ledger_count", proof.release_ledger_count);
    push_id_line(&mut s, "latest_release_id", &proof.latest_release_id);
    push_id_line(&mut s, "latest_bounded_run_id", &proof.latest_bounded_run_id);
    push_id_line(&mut s, "latest_supervised_run_id", &proof.latest_supervised_run_id);
    s
}

/// The Markdown proof report.
pub fn print_proof_report(proof: &ProofReport) -> (s: String)
    ensures
        s@ == proof_markdown(*proof),
{
    let mut s = String::from_str("# EVA Proof Report\n\n");
    push_str(&mut s, proof_flags(proof).as_str());
    push_str(&mut s, "\n");
    push_str(&mut s, proof_counts(proof).as_str());
    s
}

/// The compact operator status line.
pub open spec fn eva_status_line(p: ProofReport, snapshot: Option<String>) -> Seq<char> {
    "eva_status: candidates="@ + decimal(p.candidate_count as nat) + " ready="@ + decimal(p.ready_candidates as nat) + " blocked="@ + decimal(p.blocked_candidates as nat) + " replay_passed="@ + decimal(p.replay_passed_candidates as nat) + " promoted="@ + decimal(p.promoted_candidates as nat) + " approved="@ + decimal(p.approved_count as nat) + " rejected="@ + decimal(p.rejected_count as nat) + " deferred="@ + decimal(p.deferred_count as nat) + " releases="@ + decimal(p.release_count as nat) + " release_latest="@ + or_none(p.latest_release_id) + " bounded_latest="@ + or_none(p.latest_bounded_run_id) + " supervised_latest="@ + or_none(p.latest_supervised_run_id) + " proof_snapshot_latest="@ + or_none(snapshot) + " auto_promote="@ + bool_text(p.auto_promote)
}

/// The compact operator status line of the proof report and the latest proof snapshot.
pub fn print_eva_status(proof: &ProofReport, proof_snapshot_latest: &Option<String>) -> (s: String)
    ensures
        s@ == eva_status_line(*proof, *proof_snapshot_latest),
{
    let p = proof;
    let snapshot = proof_snapshot_latest;
    let mut s = String::new();
    push_str(&mut s, "eva_status: candidates=");
    push_decimal(&mut s, p.candidate_count as u64);
    push_str(&mut s, " ready=");
    push_decimal(&mut s, p.ready_candidates as u64);
    push_str(&mut s, " blocked=");
    push_decimal(&mut s, p.blocked_candidates as u64);
    push_str(&mut s, " replay_passed=");
    push_decimal(&mut s, p.replay_passed_candidates as u64);
    push_str(&mut s, " promoted=");
    push_decimal(&mut s, p.promoted_candidates as u64);
    push_str(&mut s, " approved=");
    push_decimal(&mut s, p.approved_count as u64);
    push_str(&mut s, " rejected=");
    push_decimal(&mut s, p.rejected_count as u64);
    push_str(&mut s, " deferred=");
    push_decimal(&mut s, p.deferred_count as u64);
    push_str(&mut s, " releases=");
    push_decimal(&mut s, p.release_count as u64);
    push_str(&mut s, " release_latest=");
    push_or_none(&mut s, &p.latest_release_id);
    push_str(&mut s, " bounded_latest=");
    push_or_none(&mut s, &p.latest_bounded_run_id);
    push_str(&mut s, " supervised_latest=");
    push_or_none(&mut s, &p.latest_supervised_run_id);
    push_str(&mut s, " proof_snapshot_latest=");
    push_or_none(&mut s, snapshot);
    push_str(&mut s, " auto_promote=");
    push_bool(&mut s, p.auto_promote);
    s
}

/// The demo walkthrough: the status, governance, release state and gate,
/// then the artifact audit, runbook, proof report and proof snapshot.
pub open spec fn demo_text(
    status: Seq<char>,
    g: GovernanceStatus,
    release_status: Seq<char>,
    h: ReleaseHealthReport,
    gate: PreflightGateReport,
    artifact: Seq<char>,
    runbook: Seq<char>,
    report: Seq<char>,
    snapshot: Seq<char>,
) -> Seq<char> {
    status + "\n\ngovernance_status: approved="@ + decimal(g.approved_count as nat) + " rejected="@ + decimal(g.rejected_count as nat) + " deferred="@ + decimal(g.deferred_count as nat) + " ready_approved="@ + decimal(g.promotion_ready_approved_count as nat) + " auto_promote="@ + bool_text(g.auto_promote) + "\n\nrelease_status: "@ + release_status + "\nrelease_health: grade="@ + h.health_grade@ + " score="@ + decimal(h.health_score as nat) + "\npreflight_gate: status="@ + gate.gate_status@ + "\n\n"@ + artifact + "\n\n"@ + runbook + "\n\n"@ + report + "\n\n"@ + snapshot
}

/// The demo walkthrough text.
pub fn run_demo(
    status: &str,
    governance: &GovernanceStatus,
    release_status: &str,
    health: &ReleaseHealthReport,
    gate: &PreflightGateReport,
    artifact: &str,
    runbook: &str,
    report: &str,
    snapshot: &str,
) -> (s: String)
    ensures
        s@ == demo_text(
            status@,
            *governance,
            release_status@,
            *health,
            *gate,
            artifact@,
            runbook@,
            report@,
            snapshot@,
        ),
{
    let g = governance;
    let h = health;
    let mut s = String::new();
    push_str(&mut s, status);
    push_str(&mut s, "\n\ngovernance_status: approved=");
    push_decimal(&mut s, g.approved_count as u64);
    push_str(&mut s, " rejected=");
    push_decimal(&mut s, g.rejected_count as u64);
    push_str(&mut s, " deferred=");
    push_decimal(&mut s, g.deferred_count as u64);
    push_str(&mut s, " ready_approved=");
    push_decimal(&mut s, g.promotion_ready_approved_count as u64);
    push_str(&mut s, " auto_promote=");
    push_bool(&mut s, g.auto_promote);
    push_str(&mut s, "\n\nrelease_status: ");
    push_str(&mut s, release_status);
    push_str(&mut s, "\nrelease_health: grade=");
    push_str(&mut s, h.health_grade.as_str());
    push_str(&mut s, " score=");
    push_decimal(&mut s, h.health_score as u64);
    push_str(&mut s, "\npreflight_gate: status=");
    push_str(&mut s, gate.gate_status.as_str());
    push_str(&mut s, "\n\n");
    push_str(&mut s, artifact);
    push_str(&mut s, "\n\n");
    push_str(&mut s, runbook);
    push_str(&mut s, "\n\n");
    push_str(&mut s, report);
    push_str(&mut s, "\n\n");
    push_str(&mut s, snapshot);
    s
}

/// The item's replay status is `ok`.
pub open spec fn is_replay_ok_item(i: PromotionQueueItem) -> bool {
    i.replay_status@ == "ok"@
}

/// What the proof report counts of the promotion queue.
#[derive(Clone, Debug)]
pub struct QueueProofCounts {
    pub replay_passed_candidates: usize,
    pub ready_candidates: usize,
    pub blocked_candidates: usize,
}

/// The queue counts of the proof report: the items whose replay status is
/// `ok`, the ready ones, and the others, which count as blocked.
pub fn queue_proof_counts(items: &Vec<PromotionQueueItem>) -> (r: QueueProofCounts)
    ensures
        r.replay_passed_candidates == count_items(items@, |i: PromotionQueueItem| is_replay_ok_item(i)),
        r.ready_candidates == count_items(items@, |i: PromotionQueueItem| is_ready_item(i)),
        r.ready_candidates + r.blocked_candidates == items.len(),
{
    let mut ready: usize = 0;
    let mut replay: usize = 0;
    let mut k: usize = 0;
    while k < items.len()
        invariant
            k <= items.len(),
            ready <= k,
            replay <= k,
            ready == count_items(items@.take(k as int), |i: PromotionQueueItem| is_ready_item(i)),
            replay == count_items(items@.take(k as int), |i: PromotionQueueItem| is_replay_ok_item(i)),
        decreases items.len() - k,
    {
        assert(items@.take(k + 1).drop_last() =~= items@.take(k as int));
        let item = &items[k];
        if str_eq(item.lifecycle_state.as_str(), "ready") {
            ready = ready + 1;
        }
        if str_eq(item.replay_status.as_str(), "ok") {
            replay = replay + 1;
        }
        k = k + 1;
    }
    assert(items@.take(items.len() as int) =~= items@);
    QueueProofCounts {
        replay_passed_candidates: replay,
        ready_candidates: ready,
        blocked_candidates: items.len() - ready,
    }
}

} // verus!
