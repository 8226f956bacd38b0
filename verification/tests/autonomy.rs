use eva_runtime::contracts::{EvolutionLogEntry, EvolutionMetrics, EvolutionStatus};
use eva_runtime::evolution::autonomy::{
    autonomy_status, count_forbidden_mutations, fallback_recent_gate_summary, forbidden_target,
    recent_gate_summary, AutonomyEvidence, RecentGateSummary,
};

fn run(run_id: &str, target: &str, at: u64, passed: bool) -> EvolutionLogEntry {
    EvolutionLogEntry {
        run_id: run_id.to_string(),
        plan_id: None,
        hypothesis_id: None,
        objective: None,
        selected_strategy: None,
        recombined_source_patterns: Vec::new(),
        recombined_avoided_risks: Vec::new(),
        recombination_reason_ru: None,
        portfolio_reason_ru: None,
        mutation_id: "m".to_string(),
        mutation_class: "useful".to_string(),
        status: EvolutionStatus::Candidate,
        target_file: target.to_string(),
        mutation_kind: "addunittest".to_string(),
        useful_change: true,
        non_candidate_reason: None,
        duplicate_rejected: false,
        cargo_check_ok: passed,
        cargo_test_ok: passed,
        cargo_run_ok: passed,
        retained_in_core: false,
        sandbox_destroyed: true,
        timestamp_unix: at,
    }
}

fn metrics(total: u64, passed: u64, failed: u64, replay_passed: u64, promoted: u64) -> EvolutionMetrics {
    EvolutionMetrics {
        total_runs: total,
        passed_runs: passed,
        failed_runs: failed,
        real_execution_failed_runs: 0,
        cargo_gate_failed_runs: 0,
        replay_failed_runs: 0,
        safety_rejected_runs: 0,
        duplicate_rejected_runs: 0,
        cosmetic_rejected_runs: 0,
        already_promoted_runs: 0,
        policy_rejected_runs: 0,
        unknown_runs: 0,
        candidate_count: 0,
        replay_passed,
        replay_failed: 0,
        promoted_count: promoted,
        last_run_id: None,
    }
}

fn stable() -> RecentGateSummary {
    RecentGateSummary { recent_checked_runs: 10, recent_gate_passed: 10, recent_gate_failed: 0, stable: true }
}

fn evidence(pass_ok: bool, leaks: u64, useful: u64, regression_ok: bool, recent: RecentGateSummary) -> AutonomyEvidence {
    AutonomyEvidence {
        sandbox_leaks: leaks,
        forbidden_mutations: 0,
        useful_candidates: useful,
        pass_ratio_at_least_0_8: pass_ok,
        pass_ratio_text: if pass_ok { "0.90".to_string() } else { "0.50".to_string() },
        regression_rate_at_most_0_3: regression_ok,
        regression_rate_text: "0.10".to_string(),
        recent,
    }
}

#[test]
fn protected_targets_are_counted_only_in_explicit_entries() {
    assert!(forbidden_target("src/core/x.rs"));
    assert!(forbidden_target("Cargo.toml"));
    assert!(!forbidden_target("src/x.rs"));
    let entries = vec![
        run("run-1", "src/core/a.rs", 5, true),
        run("legacy-run-2", "src/main.rs", 5, true),
        run("run-3", "src/lib.rs", 0, true),
        run("run-4", "tests/a.rs", 5, true),
    ];
    assert_eq!(count_forbidden_mutations(&entries), 1);
}

#[test]
fn fallback_gate_summary_is_stable_only_when_clean() {
    let ok = fallback_recent_gate_summary(&metrics(5, 5, 0, 0, 0), 0, 0);
    assert_eq!(ok, RecentGateSummary { recent_checked_runs: 0, recent_gate_passed: 1, recent_gate_failed: 0, stable: true });
    let bad = fallback_recent_gate_summary(&metrics(5, 4, 1, 0, 0), 0, 0);
    assert!(!bad.stable);
    assert_eq!(bad.recent_gate_failed, 1);
}

#[test]
fn recent_gate_summary_reads_the_newest_ten_gate_runs() {
    let mut newest_first = Vec::new();
    for i in 0..12u64 {
        newest_first.push(run(&format!("run-{i}"), "tests/a.rs", 100 - i, i != 3));
    }
    let summary = recent_gate_summary(&newest_first, &metrics(12, 11, 1, 0, 0), 0, 0);
    assert_eq!(summary.recent_checked_runs, 10);
    assert_eq!(summary.recent_gate_passed, 9);
    assert_eq!(summary.recent_gate_failed, 1);
    assert!(summary.stable);
}

#[test]
fn autonomy_levels_climb_with_evidence() {
    let fresh = autonomy_status(&metrics(0, 0, 0, 0, 0), &evidence(false, 0, 0, true, stable()));
    assert_eq!(fresh.current_level, 0);
    assert_eq!(fresh.allowed_next_level, 1);
    assert!(!fresh.campaign_mode_allowed);
    assert_eq!(fresh.max_campaign_cycles, 20);
    assert_eq!(fresh.blockers[0], "нужно не менее 10 запусков");

    let level1 = autonomy_status(&metrics(5, 5, 0, 0, 0), &evidence(true, 0, 0, true, stable()));
    assert_eq!(level1.current_level, 1);

    let level2 = autonomy_status(&metrics(12, 11, 1, 1, 0), &evidence(true, 0, 1, true, stable()));
    assert_eq!(level2.current_level, 2);
    assert!(level2.blockers.contains(&"нужно не менее 3 replay_passed: 1".to_string()));

    let level3 = autonomy_status(&metrics(40, 38, 2, 8, 1), &evidence(true, 0, 1, true, stable()));
    assert_eq!(level3.current_level, 3);
    assert_eq!(level3.allowed_next_level, 3);
    assert!(level3.campaign_mode_allowed);
    assert_eq!(level3.max_campaign_cycles, 50);
    assert_eq!(level3.current_safe_autonomy_level, 3);
    assert_eq!(level3.level4_blockers.len(), 2);

    let leaking = autonomy_status(&metrics(40, 38, 2, 8, 1), &evidence(true, 2, 1, true, stable()));
    assert_eq!(leaking.current_level, 1);
    assert!(leaking.blockers.contains(&"обнаружены утечки sandbox: 2".to_string()));
}
