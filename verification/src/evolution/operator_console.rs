//! The operator console: one status line per subsystem and the next commands.
use vstd::prelude::*;

use crate::contracts::{
    ArtifactAuditReport, CapabilityPolicy, DeterminismAuditReport, FuturePhaseEntry,
    FuturePhaseRegistry, GovernanceStatus, PreflightGateReport, PreflightGateV3Report,
    ReleaseHealthReport, WorkspaceSnapshot,
};
use crate::evolution::runtime_candidate::{OperationsSummary, RuntimeCandidateManifest, TrustSummary};
use crate::text::{
    bool_text, dash_lines, dash_list, decimal, join, join_strings, owned, push_bool, push_decimal,
    push_owned, push_str, str_eq, views,
};

verus! {

/// What the operator console shows.
pub struct ConsoleInputs {
    pub eva_status: String,
    pub governance: GovernanceStatus,
    pub release_status: String,
    pub health: ReleaseHealthReport,
    pub gate: PreflightGateReport,
    pub artifact: ArtifactAuditReport,
    pub determinism: DeterminismAuditReport,
    pub operations: OperationsSummary,
    pub future_phases_allowed_now: bool,
    pub policy: CapabilityPolicy,
    pub trust: TrustSummary,
    pub snapshot: WorkspaceSnapshot,
    pub gate_v3: PreflightGateV3Report,
    pub runtime_candidate: RuntimeCandidateManifest,
    pub future: FuturePhaseRegistry,
    pub generated_at: u64,
}

/// The operator console: its status lines and the next commands.
#[derive(Clone, Debug)]
pub struct OperatorConsoleReport {
    pub generated_at: u64,
    pub status_lines: Vec<String>,
    pub next_commands: Vec<String>,
}

fn phase_statuses(r: &FuturePhaseRegistry) -> (s: String)
    ensures
        s@ == join(r.entries@.map_values(|e: FuturePhaseEntry| e.phase@ + "="@ + e.status@), ", "@),
{
    let mut parts: Vec<String> = Vec::new();
    let mut i: usize = 0;
    while i < r.entries.len()
        invariant
            i <= r.entries.len(),
            views(parts@) == r.entries@.take(i as int).map_values(
                |e: FuturePhaseEntry| e.phase@ + "="@ + e.status@,
            ),
        decreases r.entries.len() - i,
    {
        let mut p = owned(r.entries[i].phase.as_str());
        push_str(&mut p, "=");
        push_str(&mut p, r.entries[i].status.as_str());
        let ghost before = views(parts@);
        let ghost pv = p@;
        parts.push(p);
        proof {
            let f = |e: FuturePhaseEntry| e.phase@ + "="@ + e.status@;
            assert(views(parts@) =~= before.push(pv));
            assert(r.entries@.take(i + 1) =~= r.entries@.take(i as int).push(r.entries@[i as int]));
            assert(r.entries@.take(i + 1).map_values(f) =~= r.entries@.take(i as int).map_values(
                f,
            ).push(f(r.entries@[i as int])));
        }
        i = i + 1;
    }
    assert(r.entries@.take(i as int) =~= r.entries@);
    join_strings(&parts, ", ")
}

/// The `eva` line of the operator console.
pub open spec fn console_eva(i: ConsoleInputs) -> Seq<char> {
    i.eva_status@
}

fn console_eva_line(i: &ConsoleInputs) -> (s: String)
    ensures
        s@ == console_eva(*i),
{
    let mut s = String::new();
    push_str(&mut s, i.eva_status.as_str());
    s
}
/// The `governance` line of the operator console.
pub open spec fn console_governance(i: ConsoleInputs) -> Seq<char> {
    "governance_status: approved="@ + decimal(i.governance.approved_count as nat) + " rejected="@ + decimal(i.governance.rejected_count as nat) + " deferred="@ + decimal(i.governance.deferred_count as nat) + " ready_approved="@ + decimal(i.governance.promotion_ready_approved_count as nat) + " auto_promote="@ + bool_text(i.governance.auto_promote)
}

fn console_governance_line(i: &ConsoleInputs) -> (s: String)
    ensures
        s@ == console_governance(*i),
{
    let mut s = String::new();
    push_str(&mut s, "governance_status: approved=");
    push_decimal(&mut s, i.governance.approved_count as u64);
    push_str(&mut s, " rejected=");
    push_decimal(&mut s, i.governance.rejected_count as u64);
    push_str(&mut s, " deferred=");
    push_decimal(&mut s, i.governance.deferred_count as u64);
    push_str(&mut s, " ready_approved=");
    push_decimal(&mut s, i.governance.promotion_ready_approved_count as u64);
    push_str(&mut s, " auto_promote=");
    push_bool(&mut s, i.governance.auto_promote);
    s
}
/// The `release` line of the operator console.
pub open spec fn console_release(i: ConsoleInputs) -> Seq<char> {
    "release_status: "@ + i.release_status@
}

fn console_release_line(i: &ConsoleInputs) -> (s: String)
    ensures
        s@ == console_release(*i),
{
    let mut s = String::new();
    push_str(&mut s, "release_status: ");
    push_str(&mut s, i.release_status.as_str());
    s
}
/// The `health` line of the operator console.
pub open spec fn console_health(i: ConsoleInputs) -> Seq<char> {
    "release_health: grade="@ + i.health.health_grade@ + " score="@ + decimal(i.health.health_score as nat)
}

fn console_health_line(i: &ConsoleInputs) -> (s: String)
    ensures
        s@ == console_health(*i),
{
    let mut s = String::new();
    push_str(&mut s, "release_health: grade=");
    push_str(&mut s, i.health.health_grade.as_str());
    push_str(&mut s, " score=");
    push_decimal(&mut s, i.health.health_score as u64);
    s
}
/// The `gate` line of the operator console.
pub open spec fn console_gate(i: ConsoleInputs) -> Seq<char> {
    "preflight_gate: status="@ + i.gate.gate_status@
}

fn console_gate_line(i: &ConsoleInputs) -> (s: String)
    ensures
        s@ == console_gate(*i),
{
    let mut s = String::new();
    push_str(&mut s, "preflight_gate: status=");
    push_str(&mut s, i.gate.gate_status.as_str());
    s
}
/// The `artifact` line of the operator console.
pub open spec fn console_artifact(i: ConsoleInputs) -> Seq<char> {
    "artifact_audit: status="@ + (if i.artifact.should_fail_release { "fail"@ } else { "pass"@ }) + " sandbox_leaks="@ + decimal(i.artifact.sandbox_leaks.len() as nat)
}

fn console_artifact_line(i: &ConsoleInputs) -> (s: String)
    ensures
        s@ == console_artifact(*i),
{
    let mut s = String::new();
    push_str(&mut s, "artifact_audit: status=");
    push_str(&mut s, if i.artifact.should_fail_release { "fail" } else { "pass" });
    push_str(&mut s, " sandbox_leaks=");
    push_decimal(&mut s, i.artifact.sandbox_leaks.len() as u64);
    s
}
/// The `determinism` line of the operator console.
pub open spec fn console_determinism(i: ConsoleInputs) -> Seq<char> {
    "determinism_audit: status="@ + (if i.determinism.deterministic_enough { "pass"@ } else { "fail"@ })
}

fn console_determinism_line(i: &ConsoleInputs) -> (s: String)
    ensures
        s@ == console_determinism(*i),
{
    let mut s = String::new();
    push_str(&mut s, "determinism_audit: status=");
    push_str(&mut s, if i.determinism.deterministic_enough { "pass" } else { "fail" });
    s
}
/// The `operations` line of the operator console.
pub open spec fn console_operations(i: ConsoleInputs) -> Seq<char> {
    "operations_status: next="@ + i.operations.next_safe_operator_action@ + " future_allowed_now="@ + bool_text(i.future_phases_allowed_now)
}

fn console_operations_line(i: &ConsoleInputs) -> (s: String)
    ensures
        s@ == console_operations(*i),
{
    let mut s = String::new();
    push_str(&mut s, "operations_status: next=");
    push_str(&mut s, i.operations.next_safe_operator_action.as_str());
    push_str(&mut s, " future_allowed_now=");
    push_bool(&mut s, i.future_phases_allowed_now);
    s
}
/// The `policy` line of the operator console.
pub open spec fn console_policy(i: ConsoleInputs) -> Seq<char> {
    "capability_policy: denied="@ + decimal(i.policy.denied_capabilities.len() as nat) + " allowed="@ + decimal(i.policy.allowed_capabilities.len() as nat)
}

fn console_policy_line(i: &ConsoleInputs) -> (s: String)
    ensures
        s@ == console_policy(*i),
{
    let mut s = String::new();
    push_str(&mut s, "capability_policy: denied=");
    push_decimal(&mut s, i.policy.denied_capabilities.len() as u64);
    push_str(&mut s, " allowed=");
    push_decimal(&mut s, i.policy.allowed_capabilities.len() as u64);
    s
}
/// The `trust` line of the operator console.
pub open spec fn console_trust(i: ConsoleInputs) -> Seq<char> {
    "trust_decision: decision="@ + i.trust.trust_decision@ + " blockers="@ + decimal(i.trust.blockers.len() as nat) + " warnings="@ + decimal(i.trust.warnings.len() as nat)
}

fn console_trust_line(i: &ConsoleInputs) -> (s: String)
    ensures
        s@ == console_trust(*i),
{
    let mut s = String::new();
    push_str(&mut s, "trust_decision: decision=");
    push_str(&mut s, i.trust.trust_decision.as_str());
    push_str(&mut s, " blockers=");
    push_decimal(&mut s, i.trust.blockers.len() as u64);
    push_str(&mut s, " warnings=");
    push_decimal(&mut s, i.trust.warnings.len() as u64);
    s
}
/// The `snapshot` line of the operator console.
pub open spec fn console_snapshot(i: ConsoleInputs) -> Seq<char> {
    "workspace_snapshot: id="@ + i.snapshot.snapshot_id@ + " modified="@ + decimal(i.snapshot.modified_count as nat) + " untracked="@ + decimal(i.snapshot.untracked_count as nat)
}

fn console_snapshot_line(i: &ConsoleInputs) -> (s: String)
    ensures
        s@ == console_snapshot(*i),
{
    let mut s = String::new();
    push_str(&mut s, "workspace_snapshot: id=");
    push_str(&mut s, i.snapshot.snapshot_id.as_str());
    push_str(&mut s, " modified=");
    push_decimal(&mut s, i.snapshot.modified_count as u64);
    push_str(&mut s, " untracked=");
    push_decimal(&mut s, i.snapshot.untracked_count as u64);
    s
}
/// The `gate_v3` line of the operator console.
pub open spec fn console_gate_v3(i: ConsoleInputs) -> Seq<char> {
    "preflight_gate_v3: status="@ + i.gate_v3.status@
}

fn console_gate_v3_line(i: &ConsoleInputs) -> (s: String)
    ensures
        s@ == console_gate_v3(*i),
{
    let mut s = String::new();
    push_str(&mut s, "preflight_gate_v3: status=");
    push_str(&mut s, i.gate_v3.status.as_str());
    s
}
/// The `candidate` line of the operator console.
pub open spec fn console_candidate(i: ConsoleInputs) -> Seq<char> {
    "runtime_candidate: status="@ + i.runtime_candidate.rc_status@ + " id="@ + i.runtime_candidate.candidate_id@ + " planned_phases="@ + decimal(i.runtime_candidate.planned_phases.len() as nat)
}

fn console_candidate_line(i: &ConsoleInputs) -> (s: String)
    ensures
        s@ == console_candidate(*i),
{
    let mut s = String::new();
    push_str(&mut s, "runtime_candidate: status=");
    push_str(&mut s, i.runtime_candidate.rc_status.as_str());
    push_str(&mut s, " id=");
    push_str(&mut s, i.runtime_candidate.candidate_id.as_str());
    push_str(&mut s, " planned_phases=");
    push_decimal(&mut s, i.runtime_candidate.planned_phases.len() as u64);
    s
}
/// The `visibility` line of the operator console.
pub open spec fn console_visibility(i: ConsoleInputs) -> Seq<char> {
    "phase15_visibility: tui=true metrics_truth=true candidate_queue_hygiene=true release_candidate_flow=true green_gate=true"@
}

fn console_visibility_line(i: &ConsoleInputs) -> (s: String)
    ensures
        s@ == console_visibility(*i),
{
    let mut s = String::new();
    push_str(&mut s, "phase15_visibility: tui=true metrics_truth=true candidate_queue_hygiene=true release_candidate_flow=true green_gate=true");
    s
}
/// The `future` line of the operator console.
pub open spec fn console_future(i: ConsoleInputs) -> Seq<char> {
    "future_phases: "@ + join(i.future.entries@.map_values(|e: FuturePhaseEntry| e.phase@ + "="@ + e.status@), ", "@)
}

fn console_future_line(i: &ConsoleInputs) -> (s: String)
    ensures
        s@ == console_future(*i),
{
    let mut s = String::new();
    push_str(&mut s, "future_phases: ");
    push_str(&mut s, phase_statuses(&i.future).as_str());
    s
}

/// The status lines of the operator console, in order.
pub open spec fn console_lines(i: ConsoleInputs) -> Seq<Seq<char>> {
    seq![
        console_eva(i),
        console_governance(i),
        console_release(i),
        console_health(i),
        console_gate(i),
        console_artifact(i),
        console_determinism(i),
        console_operations(i),
        console_policy(i),
        console_trust(i),
        console_snapshot(i),
        console_gate_v3(i),
        console_candidate(i),
        console_visibility(i),
        console_future(i),
    ]
}

/// The next commands: the trust proof report when the v3 gate passes, else
/// the next safe operator action; then the fixed operator commands.
pub open spec fn console_commands(i: ConsoleInputs) -> Seq<Seq<char>> {
    seq![
        if i.gate_v3.status@ == "pass"@ {
            "cargo run -- --trust-proof-report"@
        } else {
            i.operations.next_safe_operator_action@
        },
        "cargo run -- --runtime-candidate"@,
        "cargo run -- tui"@,
        "cargo run -- --runtime-validation"@,
        "cargo run -- --final-rc-report"@,
        "cargo run -- --preflight-gate-v3"@,
        "cargo run -- --proof-report"@,
        "cargo run -- --operator-runbook"@,
    ]
}

/// The operator console report.
pub fn build_operator_console_report(inputs: &ConsoleInputs) -> (r: OperatorConsoleReport)
    ensures
        r.generated_at == inputs.generated_at,
        views(r.status_lines@) == console_lines(*inputs),
        views(r.next_commands@) == console_commands(*inputs),
{
    let mut status_lines: Vec<String> = Vec::new();
    status_lines.push(console_eva_line(inputs));
    status_lines.push(console_governance_line(inputs));
    status_lines.push(console_release_line(inputs));
    status_lines.push(console_health_line(inputs));
    status_lines.push(console_gate_line(inputs));
    status_lines.push(console_artifact_line(inputs));
    status_lines.push(console_determinism_line(inputs));
    status_lines.push(console_operations_line(inputs));
    status_lines.push(console_policy_line(inputs));
    status_lines.push(console_trust_line(inputs));
    status_lines.push(console_snapshot_line(inputs));
    status_lines.push(console_gate_v3_line(inputs));
    status_lines.push(console_candidate_line(inputs));
    status_lines.push(console_visibility_line(inputs));
    status_lines.push(console_future_line(inputs));
    assert(views(status_lines@) =~= console_lines(*inputs));
    let mut next_commands: Vec<String> = Vec::new();
    if str_eq(inputs.gate_v3.status.as_str(), "pass") {
        push_owned(&mut next_commands, "cargo run -- --trust-proof-report");
    } else {
        next_commands.push(inputs.operations.next_safe_operator_action.clone());
    }
    push_owned(&mut next_commands, "cargo run -- --runtime-candidate");
    push_owned(&mut next_commands, "cargo run -- tui");
    push_owned(&mut next_commands, "cargo run -- --runtime-validation");
    push_owned(&mut next_commands, "cargo run -- --final-rc-report");
    push_owned(&mut next_commands, "cargo run -- --preflight-gate-v3");
    push_owned(&mut next_commands, "cargo run -- --proof-report");
    push_owned(&mut next_commands, "cargo run -- --operator-runbook");
    assert(views(next_commands@) =~= console_commands(*inputs));
    OperatorConsoleReport { generated_at: inputs.generated_at, status_lines, next_commands }
}

/// The operator console text: the status lines, the next commands and the runbook.
pub open spec fn console_text(r: OperatorConsoleReport, runbook: Seq<char>) -> Seq<char> {
    "# EVA Operator Console\n\n"@ + join(views(r.status_lines@), "\n"@) + "\n\n## Next commands\n"@
        + dash_lines(views(r.next_commands@)) + "\n\n"@ + runbook + "\n"@
}

/// The operator console text.
pub fn print_operator_console(report: &OperatorConsoleReport, runbook: &str) -> (s: String)
    ensures
        s@ == console_text(*report, runbook@),
{
    let mut s = owned("# EVA Operator Console\n\n");
    push_str(&mut s, join_strings(&report.status_lines, "\n").as_str());
    push_str(&mut s, "\n\n## Next commands\n");
    push_str(&mut s, dash_list(&report.next_commands).as_str());
    push_str(&mut s, "\n\n");
    push_str(&mut s, runbook);
    push_str(&mut s, "\n");
    s
}

} // verus!
