use eva_runtime::contracts::{EvolutionLogEntry, EvolutionMetrics, EvolutionStatus};
use eva_runtime::evolution::metrics::{
    apply_outcome_counts, classify_run_outcome, refresh_metrics, replay_is_ok,
    update_metrics_after_log, update_metrics_after_replay, EvolutionRunOutcome, ReplayResult,
};

fn entry(run_id: &str, status: EvolutionStatus) -> EvolutionLogEntry {
    EvolutionLogEntry {
        run_id: run_id.to_string(),
        plan_id: None,
        hypothesis_id: None,
        objective: None,
        selected_strategy: None,
        recombined_source_patterns: Vec::new(),
        recombined_avoided_risks: Vec::new(),
        recombination_reason_ru: None,
        portfolio_reason_ru: None,
        mutation_id: "m".to_string(),
        mutation_class: "test".to_string(),
        status,
        target_file: "tests/a.rs".to_string(),
        mutation_kind: "addunittest".to_string(),
        useful_change: true,
        non_candidate_reason: None,
        duplicate_rejected: false,
        cargo_check_ok: true,
        cargo_test_ok: true,
        cargo_run_ok: true,
        retained_in_core: false,
        sandbox_destroyed: true,
        timestamp_unix: 0,
    }
}

fn zero() -> EvolutionMetrics {
    EvolutionMetrics {
        total_runs: 0,
        passed_runs: 0,
        failed_runs: 0,
        real_execution_failed_runs: 0,
        cargo_gate_failed_runs: 0,
        replay_failed_runs: 0,
        safety_rejected_runs: 0,
        duplicate_rejected_runs: 0,
        cosmetic_rejected_runs: 0,
        already_promoted_runs: 0,
        policy_rejected_runs: 0,
        unknown_runs: 0,
        candidate_count: 0,
        replay_passed: 0,
        replay_failed: 0,
        promoted_count: 0,
        last_run_id: None,
    }
}

fn replay(ok: bool) -> ReplayResult {
    ReplayResult {
        run_id: "r".to_string(),
        replay_status: EvolutionStatus::Candidate,
        matches_stored_summary: ok,
        cargo_check_ok: true,
        cargo_test_ok: true,
        cargo_run_ok: true,
        timestamp_unix: 0,
    }
}

#[test]
fn run_outcomes_in_order() {
    let mut dup = entry("a", EvolutionStatus::Failed);
    dup.duplicate_rejected = true;
    assert_eq!(classify_run_outcome(&dup), EvolutionRunOutcome::DuplicateSafetyRejection);
    assert_eq!(classify_run_outcome(&entry("a", EvolutionStatus::Promoted)), EvolutionRunOutcome::AlreadyPromoted);
    assert_eq!(classify_run_outcome(&entry("a", EvolutionStatus::Candidate)), EvolutionRunOutcome::Passed);
    let mut cosmetic = entry("a", EvolutionStatus::Failed);
    cosmetic.mutation_kind = "appendcomment".to_string();
    assert_eq!(classify_run_outcome(&cosmetic), EvolutionRunOutcome::CosmeticRejection);
    let mut policy = entry("a", EvolutionStatus::Failed);
    policy.non_candidate_reason = Some("allowed_kinds_filtered_all".to_string());
    assert_eq!(classify_run_outcome(&policy), EvolutionRunOutcome::PolicyRejection);
    let mut gate = entry("a", EvolutionStatus::Failed);
    gate.cargo_check_ok = false;
    assert_eq!(classify_run_outcome(&gate), EvolutionRunOutcome::CargoGateFailure);
    let mut operator = entry("a", EvolutionStatus::Failed);
    operator.non_candidate_reason = Some("blocked_by_operator".to_string());
    assert_eq!(classify_run_outcome(&operator), EvolutionRunOutcome::BlockedByOperator);
    let mut unknown = entry("a", EvolutionStatus::Failed);
    unknown.non_candidate_reason = Some("unknown".to_string());
    assert_eq!(classify_run_outcome(&unknown), EvolutionRunOutcome::Unknown);
    assert_eq!(classify_run_outcome(&entry("a", EvolutionStatus::Failed)), EvolutionRunOutcome::RealExecutionFailure);
}

#[test]
fn each_outcome_is_counted_once() {
    let mut m = zero();
    apply_outcome_counts(&mut m, EvolutionRunOutcome::CargoGateFailure);
    assert_eq!((m.failed_runs, m.cargo_gate_failed_runs), (1, 1));
    apply_outcome_counts(&mut m, EvolutionRunOutcome::PolicyRejection);
    assert_eq!((m.safety_rejected_runs, m.policy_rejected_runs), (1, 1));
    apply_outcome_counts(&mut m, EvolutionRunOutcome::BlockedByOperator);
    assert_eq!((m.safety_rejected_runs, m.policy_rejected_runs), (1, 2));
    assert_eq!(m.total_runs, 0);
}

#[test]
fn logging_and_replays_update_the_counters() {
    let mut m = zero();
    update_metrics_after_log(&mut m, &entry("r1", EvolutionStatus::Candidate));
    assert_eq!((m.total_runs, m.passed_runs, m.candidate_count), (1, 1, 1));
    assert_eq!(m.last_run_id.as_deref(), Some("r1"));
    let mut promoted = entry("r2", EvolutionStatus::Passed);
    promoted.retained_in_core = true;
    update_metrics_after_log(&mut m, &promoted);
    assert_eq!((m.total_runs, m.already_promoted_runs, m.promoted_count), (2, 1, 1));
    assert!(replay_is_ok(&replay(true)));
    update_metrics_after_replay(&mut m, &replay(true));
    assert_eq!((m.replay_passed, m.failed_runs), (1, 0));
    update_metrics_after_replay(&mut m, &replay(false));
    assert_eq!((m.replay_failed, m.replay_failed_runs, m.failed_runs), (1, 1, 1));
}

#[test]
fn refreshed_metrics_recount_the_whole_log() {
    let mut gate = entry("e2", EvolutionStatus::Failed);
    gate.cargo_test_ok = false;
    let mut dup = entry("e3", EvolutionStatus::Failed);
    dup.duplicate_rejected = true;
    let mut cosmetic = entry("e4", EvolutionStatus::Failed);
    cosmetic.mutation_class = "cosmetic".to_string();
    let mut retained = entry("e5", EvolutionStatus::Passed);
    retained.retained_in_core = true;
    let logs = vec![entry("e1", EvolutionStatus::Candidate), gate, dup, cosmetic, retained];
    let m = refresh_metrics(&logs, 7, &vec![replay(true), replay(false)]);
    assert_eq!(m.total_runs, 5);
    assert_eq!(m.passed_runs, 1);
    assert_eq!(m.failed_runs, 2);
    assert_eq!(m.cargo_gate_failed_runs, 1);
    assert_eq!(m.replay_failed_runs, 1);
    assert_eq!(m.safety_rejected_runs, 2);
    assert_eq!(m.duplicate_rejected_runs, 1);
    assert_eq!(m.cosmetic_rejected_runs, 1);
    assert_eq!(m.already_promoted_runs, 1);
    assert_eq!(m.candidate_count, 7);
    assert_eq!((m.replay_passed, m.replay_failed), (1, 1));
    assert_eq!(m.promoted_count, 1);
    assert_eq!(m.last_run_id.as_deref(), Some("e5"));
    let classified = m.passed_runs + m.real_execution_failed_runs + m.cargo_gate_failed_runs
        + m.replay_failed_runs + m.duplicate_rejected_runs + m.cosmetic_rejected_runs
        + m.already_promoted_runs + m.policy_rejected_runs + m.unknown_runs;
    assert_eq!(classified, 5 + 1);
    let empty = refresh_metrics(&Vec::new(), 0, &Vec::new());
    assert_eq!(empty.last_run_id, None);
}
