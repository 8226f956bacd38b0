//! The records that the runtime reads, decides on and writes.
//!
//! Scores, risks and ratios are floating point in the runtime's stored
//! records; these types hold the fields that the decisions read, and the
//! numeric fields travel beside them in the application layer.
use vstd::prelude::*;

verus! {

/// Metadata of a specimen kept for reference.
#[derive(Clone, Debug)]
pub struct SpecimenMetadata {
    pub specimen_id: String,
    pub kind: String,
    pub path: String,
    pub allowed_use: String,
    pub source_copy_allowed: bool,
    pub notes: Vec<String>,
}

/// Mutation kinds that every task contract must deny.
#[derive(Clone, Copy, Debug, PartialEq, Eq, Structural)]
pub enum DeniedMutationKind {
    DeleteCode,
    RewriteFunction,
    FreeDiff,
    DependencyAdd,
}

/// The bounded mutation templates.
#[derive(Clone, Copy, Debug, PartialEq, Eq, Structural)]
pub enum MutationKind {
    AppendComment,
    ReplaceText,
    ParameterTune,
    AddTestSkeleton,
    AddMetricField,
    AddUnitTest,
    AddReplayAssertion,
    AddLearningSummaryField,
    AddMetricUpdate,
}

/// What a mutation plan aims to improve.
#[derive(Clone, Copy, Debug, PartialEq, Eq, Structural)]
pub enum MutationObjective {
    ImproveTests,
    ImproveValidation,
    ImproveReplayability,
    ImproveGraphMemory,
    ImproveScoring,
    ReduceStorage,
    ImproveReliability,
    ReduceRuntimeCost,
}

/// Outcome status of an evolution run.
#[derive(Clone, Copy, Debug, PartialEq, Eq, Structural)]
pub enum EvolutionStatus {
    Passed,
    Failed,
    Candidate,
    Promoted,
}

/// Lifecycle classification of a stored candidate.
#[derive(Clone, Copy, Debug, PartialEq, Eq, Structural)]
pub enum CandidateState {
    Ready,
    Blocked,
    Quarantined,
    Stale,
    Legacy,
    Duplicate,
    Unreplayable,
    AlreadyPromoted,
    Unknown,
}

/// A planned mutation: the fields that mutation generation reads.
#[derive(Clone, Debug)]
pub struct MutationPlan {
    pub id: String,
    pub objective: MutationObjective,
    pub target_file: String,
    pub mutation_kind: MutationKind,
    pub reason: String,
    pub graph_evidence: Vec<String>,
}

/// A bounded mutation: target, template kind and payload.
#[derive(Clone, Debug)]
pub struct MutationContract {
    pub id: String,
    pub kind: MutationKind,
    pub target_file: String,
    pub search: Option<String>,
    pub replace: Option<String>,
    pub append: Option<String>,
    pub reason: String,
}

/// An operator task: the constraints that campaign decisions read.
#[derive(Clone, Debug)]
pub struct TaskContract {
    pub task_id: String,
    pub title_ru: String,
    pub goal_ru: String,
    pub allowed_targets: Vec<String>,
    pub forbidden_targets: Vec<String>,
    pub preferred_objectives: Vec<MutationObjective>,
    pub allowed_mutation_kinds: Vec<MutationKind>,
    pub denied_mutation_kinds: Vec<DeniedMutationKind>,
    pub cycles: usize,
    pub require_replay: bool,
    pub require_benchmark: bool,
    pub require_russian_report: bool,
    pub auto_promote: bool,
    pub source_corpus_id: Option<String>,
    pub created_at: u64,
}

/// One line of the evolution log: the fields that run classification reads.
#[derive(Clone, Debug)]
pub struct EvolutionLogEntry {
    pub run_id: String,
    pub plan_id: Option<String>,
    pub hypothesis_id: Option<String>,
    pub objective: Option<String>,
    pub selected_strategy: Option<String>,
    pub recombined_source_patterns: Vec<String>,
    pub recombined_avoided_risks: Vec<String>,
    pub recombination_reason_ru: Option<String>,
    pub portfolio_reason_ru: Option<String>,
    pub mutation_id: String,
    pub mutation_class: String,
    pub status: EvolutionStatus,
    pub target_file: String,
    pub mutation_kind: String,
    pub useful_change: bool,
    pub non_candidate_reason: Option<String>,
    pub duplicate_rejected: bool,
    pub cargo_check_ok: bool,
    pub cargo_test_ok: bool,
    pub cargo_run_ok: bool,
    pub retained_in_core: bool,
    pub sandbox_destroyed: bool,
    pub timestamp_unix: u64,
}

/// Dashboard row of the operator terminal view.
#[derive(Clone, Debug)]
pub struct TuiDashboardState {
    pub runtime_status: String,
    pub runtime_validation_status: String,
    pub autonomy_level: u8,
    pub allowed_next_autonomy_level: u8,
    pub campaign_mode_allowed: bool,
    pub latest_run_id: Option<String>,
    pub last_replay_status: String,
    pub candidate_count: u64,
    pub ready_candidates: usize,
    pub blocked_candidates: usize,
    pub quarantined_candidates: usize,
    pub duplicate_candidates: usize,
    pub unreplayable_candidates: usize,
    pub release_status: String,
    pub warnings: Vec<String>,
    pub missing_green_conditions: Vec<String>,
    pub blockers: Vec<String>,
    pub sandbox_leak_count: usize,
}

/// One run in the operator terminal view.
#[derive(Clone, Debug)]
pub struct TuiRunRow {
    pub run_id: String,
    pub status: String,
    pub replay_status: String,
    pub cargo_test_ok: Option<bool>,
    pub cargo_run_ok: Option<bool>,
    pub duplicate_rejected: bool,
    pub candidate: bool,
    pub promoted: bool,
    pub reason: String,
}

/// Release panel of the operator terminal view.
#[derive(Clone, Debug)]
pub struct TuiReleaseState {
    pub approved_release_candidate_exists: bool,
    pub release_bundle_exists: bool,
    pub latest_release_candidate: Option<String>,
    pub operator_approval_state: String,
    pub preflight_gate_status: String,
    pub release_health: String,
    pub green_gate_readiness: String,
    pub warnings: Vec<String>,
    pub missing_green_conditions: Vec<String>,
    pub blockers: Vec<String>,
}

/// Agent panel of the operator terminal view.
#[derive(Clone, Debug)]
pub struct TuiAgentState {
    pub latest_task_id: String,
    pub task_count: usize,
    pub latest_task_goal: String,
    pub latest_task_status: String,
    pub latest_plan_id: String,
    pub latest_proposal_id: String,
    pub latest_validation_id: String,
    pub latest_validation_status: String,
    pub latest_report_id: String,
    pub latest_pr_summary_id: String,
    pub llm_provider: String,
    pub openai_configured: bool,
    pub llm_model: String,
    pub fallback_available: bool,
    pub production_agent_v1_ready: bool,
    pub readiness_blockers: Vec<String>,
}

/// Status of an agent validation run.
#[derive(Clone, Copy, Debug, PartialEq, Eq, Structural)]
pub enum AgentValidationStatus {
    Passed,
    Failed,
    Partial,
    NotRun,
}

/// An agent validation run and its commands.
#[derive(Clone, Debug)]
pub struct ValidationRun {
    pub validation_id: String,
    pub task_id: Option<String>,
    pub proposal_id: Option<String>,
    pub status: AgentValidationStatus,
    pub started_at: u64,
    pub finished_at: u64,
    pub commands: Vec<ValidationCommandResult>,
    pub warnings: Vec<String>,
    pub blockers: Vec<String>,
}

/// One command of a validation run.
#[derive(Clone, Debug)]
pub struct ValidationCommandResult {
    pub command: String,
    pub exit_code: Option<i32>,
    pub success: bool,
    pub stdout_tail: String,
    pub stderr_tail: String,
}

/// What an inspection of a workspace found.
#[derive(Clone, Debug)]
pub struct WorkspaceInspection {
    pub inspection_id: String,
    pub generated_at: u64,
    pub repo_root: String,
    pub git_status: String,
    pub branch: Option<String>,
    pub head: Option<String>,
    pub language: String,
    pub cargo_project: bool,
    pub cargo_toml_exists: bool,
    pub lockfile_exists: bool,
    pub entrypoints: Vec<String>,
    pub source_dirs: Vec<String>,
    pub test_dirs: Vec<String>,
    pub docs_dirs: Vec<String>,
    pub available_commands: Vec<String>,
    pub risk_zones: Vec<String>,
    pub ignored_zones: Vec<String>,
    pub warnings: Vec<String>,
    pub blockers: Vec<String>,
}

/// Governance counters and switches.
#[derive(Clone, Debug)]
pub struct GovernanceStatus {
    pub approved_count: usize,
    pub rejected_count: usize,
    pub deferred_count: usize,
    pub promotion_ready_approved_count: usize,
    pub auto_promote: bool,
    pub operator_approval_required: bool,
}

/// What the runtime is allowed to do.
#[derive(Clone, Debug)]
pub struct CapabilityPolicy {
    pub auto_promote_allowed: bool,
    pub network_push_allowed: bool,
    pub merge_allowed: bool,
    pub external_repo_mutation_allowed: bool,
    pub self_apply_allowed: bool,
    pub source_mutation_without_approval_allowed: bool,
    pub metadata_generation_allowed: bool,
    pub local_read_only_inspection_allowed: bool,
    pub sandboxed_validation_allowed_when_isolated: bool,
    pub denied_capabilities: Vec<String>,
    pub allowed_capabilities: Vec<String>,
}

/// Runtime artifact audit.
#[derive(Clone, Debug)]
pub struct ArtifactAuditReport {
    pub generated_at: u64,
    pub checked_paths: Vec<String>,
    pub tracked_runtime_artifacts: Vec<String>,
    pub untracked_runtime_artifacts: Vec<String>,
    pub ignored_runtime_artifacts: Vec<String>,
    pub sandbox_leaks: Vec<String>,
    pub should_fail_release: bool,
    pub recommendations_ru: Vec<String>,
}

/// Determinism audit of release and proof artifacts.
#[derive(Clone, Debug)]
pub struct DeterminismAuditReport {
    pub generated_at: u64,
    pub checked_documents: Vec<String>,
    pub missing_required_fields: Vec<String>,
    pub unstable_field_warnings: Vec<String>,
    pub full_source_content_warnings: Vec<String>,
    pub deterministic_enough: bool,
    pub recommendations_ru: Vec<String>,
}

/// Trust and recovery preflight gate.
#[derive(Clone, Debug)]
pub struct PreflightGateV3Report {
    pub status: String,
    pub blockers: Vec<String>,
    pub warnings: Vec<String>,
    pub auto_promote: bool,
    pub operator_approval_required: bool,
}

/// Snapshot of the workspace state.
#[derive(Clone, Debug)]
pub struct WorkspaceSnapshot {
    pub snapshot_id: String,
    pub modified_count: usize,
    pub untracked_count: usize,
    pub sandbox_leak_count: usize,
}

/// The proof report: the support flags and the counters.
#[derive(Clone, Debug)]
pub struct ProofReport {
    pub generated_at: u64,
    pub local_corpus_ingestion_support: bool,
    pub read_only_corpus_safety: bool,
    pub task_suggestion_support: bool,
    pub campaign_diagnostics_support: bool,
    pub zero_yield_task_adjustment_support: bool,
    pub bounded_campaign_loop_support: bool,
    pub recombination_fallback_support: bool,
    pub replay_review_support: bool,
    pub promotion_queue_support: bool,
    pub supervised_task_support: bool,
    pub governance_runtime_support: bool,
    pub release_runtime_support: bool,
    pub release_health_support: bool,
    pub artifact_audit_support: bool,
    pub determinism_audit_support: bool,
    pub preflight_gate_v2_support: bool,
    pub release_ledger_support: bool,
    pub future_phase_registry_support: bool,
    pub operator_runbook_support: bool,
    pub operations_runtime_support: bool,
    pub pr_package_support: bool,
    pub external_patch_package_support: bool,
    pub self_review_package_support: bool,
    pub operator_console_support: bool,
    pub capability_policy_support: bool,
    pub trust_decision_support: bool,
    pub evidence_bundle_support: bool,
    pub workspace_snapshot_support: bool,
    pub recovery_manifest_support: bool,
    pub preflight_gate_v3_support: bool,
    pub trust_proof_report_support: bool,
    pub runtime_candidate_support: bool,
    pub runtime_validation_support: bool,
    pub runtime_service_metadata_support: bool,
    pub stable_cli_contract_support: bool,
    pub final_rc_report_support: bool,
    pub auto_promote: bool,
    pub operator_approval_required: bool,
    pub forbidden_target_preservation: bool,
    pub total_runs: usize,
    pub candidate_count: usize,
    pub replay_passed_candidates: usize,
    pub promoted_candidates: usize,
    pub ready_candidates: usize,
    pub blocked_candidates: usize,
    pub approved_count: usize,
    pub rejected_count: usize,
    pub deferred_count: usize,
    pub release_count: usize,
    pub release_ledger_count: usize,
    pub latest_release_id: Option<String>,
    pub latest_bounded_run_id: Option<String>,
    pub latest_supervised_run_id: Option<String>,
}

/// Release health of the runtime.
#[derive(Clone, Debug)]
pub struct ReleaseHealthReport {
    pub generated_at: u64,
    pub release_runtime_support: bool,
    pub latest_release_id: Option<String>,
    pub release_count: usize,
    pub candidate_count: usize,
    pub approved_count: usize,
    pub ready_count: usize,
    pub blocked_count: usize,
    pub replay_passed_candidates: usize,
    pub promoted_candidates: usize,
    pub governance_ready: bool,
    pub proof_ready: bool,
    pub preflight_ready: bool,
    pub sandbox_leaks_detected: bool,
    pub auto_promote: bool,
    pub operator_approval_required: bool,
    pub health_score: u32,
    pub health_grade: String,
    pub blockers: Vec<String>,
    pub recommendations_ru: Vec<String>,
}

/// The release preflight gate.
#[derive(Clone, Debug)]
pub struct PreflightGateReport {
    pub generated_at: u64,
    pub gate_status: String,
    pub release_preflight_status: String,
    pub governance_status: String,
    pub artifact_audit_status: String,
    pub determinism_status: String,
    pub health_grade: String,
    pub auto_promote: bool,
    pub operator_approval_required: bool,
    pub blockers: Vec<String>,
    pub warnings: Vec<String>,
    pub next_actions_ru: Vec<String>,
}

/// A candidate in the promotion queue: the fields that queue decisions read.
#[derive(Clone, Debug)]
pub struct PromotionQueueItem {
    pub run_id: String,
    pub mutation_kind: String,
    pub mutation_class: String,
    pub target_file: String,
    pub replay_status: String,
    pub promotion_state: String,
    pub promotion_allowed: bool,
    pub promotion_blockers: Vec<String>,
    pub report_path: String,
    pub lifecycle_state: String,
    pub candidate_state: CandidateState,
    pub candidate_state_reason: String,
    pub cargo_test_ok: Option<bool>,
    pub cargo_run_ok: Option<bool>,
    pub duplicate_rejected: bool,
    pub promoted: bool,
    pub reason_ru: String,
    pub updated_at: u64,
}

/// Counts of queue items per candidate state.
#[derive(Clone, Debug)]
pub struct CandidateQueueSummary {
    pub candidate_count: usize,
    pub ready_candidates: usize,
    pub blocked_candidates: usize,
    pub quarantined_candidates: usize,
    pub legacy_candidates: usize,
    pub duplicate_candidates: usize,
    pub unreplayable_candidates: usize,
    pub already_promoted_candidates: usize,
    pub unknown_candidates: usize,
}

/// The promotion queue.
#[derive(Clone, Debug)]
pub struct PromotionQueue {
    pub items: Vec<PromotionQueueItem>,
    pub summary: CandidateQueueSummary,
    pub generated_at: u64,
}

/// Runtime validation and its green gate.
#[derive(Clone, Debug)]
pub struct RuntimeValidation {
    pub validation_id: String,
    pub generated_at: u64,
    pub status: String,
    pub blockers: Vec<String>,
    pub warnings: Vec<String>,
    pub checks: Vec<String>,
    pub next_actions: Vec<String>,
    pub green_conditions: Vec<String>,
    pub missing_green_conditions: Vec<String>,
    pub approved_release_candidate: Option<String>,
    pub release_bundle: Option<String>,
    pub metrics_summary: String,
    pub candidate_queue_summary: String,
    pub sandbox_state: String,
    pub auto_promote: bool,
    pub operator_approval_required: bool,
}

/// A planned phase of the runtime roadmap.
#[derive(Clone, Debug)]
pub struct FuturePhaseEntry {
    pub phase: String,
    pub name: String,
    pub status: String,
    pub allowed_now: bool,
    pub reason: String,
}

/// The roadmap of planned phases.
#[derive(Clone, Debug)]
pub struct FuturePhaseRegistry {
    pub generated_at: u64,
    pub entries: Vec<FuturePhaseEntry>,
}

/// One command of the stable command-line contract.
#[derive(Clone, Debug)]
pub struct RuntimeCliCommandContract {
    pub command: String,
    pub purpose: String,
    pub mutates_source: bool,
    pub mutates_external_repo: bool,
    pub requires_operator_approval: bool,
    pub safety_class: String,
}

/// The stable command-line contract.
#[derive(Clone, Debug)]
pub struct RuntimeCliContractReport {
    pub generated_at: u64,
    pub commands: Vec<RuntimeCliCommandContract>,
}

/// Readiness of the evolution core.
#[derive(Clone, Debug)]
pub struct EvolutionCoreReadiness {
    pub runtime_green: bool,
    pub approved_release_candidate: bool,
    pub release_bundle_exists: bool,
    pub tui_hydration_ok: bool,
    pub metrics_truth_ok: bool,
    pub candidate_queue_truth_ok: bool,
    pub phase_16_allowed: bool,
    pub blockers: Vec<String>,
}

/// State of the release candidate flow.
#[derive(Clone, Debug)]
pub struct ReleaseCandidateState {
    pub approved_release_candidate: Option<String>,
    pub approved_count: u64,
    pub release_bundle_exists: bool,
    pub latest_release_bundle: Option<String>,
    pub operator_approval_required: bool,
    pub operator_approved: bool,
    pub preflight_gate_v3: String,
    pub release_health: String,
    pub blockers: Vec<String>,
    pub warnings: Vec<String>,
}

/// What a local corpus ingestion may read, and how much of it.
#[derive(Clone, Debug)]
pub struct CorpusIngestContract {
    pub corpus_id: String,
    pub root_path: String,
    pub allowed_extensions: Vec<String>,
    pub allowed_dirs: Vec<String>,
    pub denied_dirs: Vec<String>,
    pub max_files: usize,
    pub max_file_bytes: usize,
    pub extract_tests: bool,
    pub extract_error_handling: bool,
    pub extract_validation: bool,
    pub extract_cli: bool,
    pub extract_reporting: bool,
    pub created_at: u64,
}

/// One record of the release ledger.
#[derive(Clone, Debug)]
pub struct ReleaseLedgerRecord {
    pub release_id: String,
    pub status: String,
    pub gate_status: String,
    pub health_grade: String,
    pub approved_candidate_count: usize,
    pub generated_at: u64,
}

/// Run counters of the evolution metrics.
#[derive(Clone, Debug)]
pub struct EvolutionMetrics {
    pub total_runs: u64,
    pub passed_runs: u64,
    pub failed_runs: u64,
    pub real_execution_failed_runs: u64,
    pub cargo_gate_failed_runs: u64,
    pub replay_failed_runs: u64,
    pub safety_rejected_runs: u64,
    pub duplicate_rejected_runs: u64,
    pub cosmetic_rejected_runs: u64,
    pub already_promoted_runs: u64,
    pub policy_rejected_runs: u64,
    pub unknown_runs: u64,
    pub candidate_count: u64,
    pub replay_passed: u64,
    pub replay_failed: u64,
    pub promoted_count: u64,
    pub last_run_id: Option<String>,
}

} // verus!
