use eva_runtime::contracts::{EvolutionLogEntry, EvolutionStatus};
use eva_runtime::evolution::benchmark::{
    benchmark_next_step, is_forbidden_benchmark_target, needs_replay, new_benchmark_counts,
    record_benchmark_cycle,
};

fn cycle(status: EvolutionStatus, useful: bool, duplicate: bool, target: &str) -> EvolutionLogEntry {
    EvolutionLogEntry {
        run_id: "run-1".to_string(),
        plan_id: None,
        hypothesis_id: None,
        objective: None,
        selected_strategy: None,
        recombined_source_patterns: Vec::new(),
        recombined_avoided_risks: Vec::new(),
        recombination_reason_ru: None,
        portfolio_reason_ru: None,
        mutation_id: "m".to_string(),
        mutation_class: "useful".to_string(),
        status,
        target_file: target.to_string(),
        mutation_kind: "addunittest".to_string(),
        useful_change: useful,
        non_candidate_reason: None,
        duplicate_rejected: duplicate,
        cargo_check_ok: true,
        cargo_test_ok: true,
        cargo_run_ok: true,
        retained_in_core: false,
        sandbox_destroyed: true,
        timestamp_unix: 1,
    }
}

#[test]
fn manifests_anywhere_are_forbidden_benchmark_targets() {
    assert!(is_forbidden_benchmark_target("tools/x/Cargo.toml"));
    assert!(is_forbidden_benchmark_target("src/core/a.rs"));
    assert!(!is_forbidden_benchmark_target("tests/a.rs"));
}

#[test]
fn cycles_are_counted_by_outcome() {
    let mut c = new_benchmark_counts();
    let useful = cycle(EvolutionStatus::Candidate, true, false, "tests/a.rs");
    assert!(needs_replay(&useful));
    record_benchmark_cycle(&mut c, &useful, 0, true);
    record_benchmark_cycle(&mut c, &cycle(EvolutionStatus::Candidate, true, false, "tests/b.rs"), 1, false);
    let failed = cycle(EvolutionStatus::Failed, false, true, "Cargo.toml");
    assert!(!needs_replay(&failed));
    record_benchmark_cycle(&mut c, &failed, 2, true);
    assert_eq!(c.total_cycles, 3);
    assert_eq!(c.passed_cycles, 2);
    assert_eq!(c.failed_cycles, 1);
    assert_eq!(c.useful_candidates, 2);
    assert_eq!(c.cosmetic_runs, 1);
    assert_eq!(c.duplicate_rejections, 1);
    assert_eq!(c.forbidden_mutations, 1);
    assert_eq!(c.sandbox_leaks, 3);
    assert_eq!(c.replay_attempted, 2);
    assert_eq!(c.replay_passed, 1);
    assert_eq!(c.replay_failed, 1);
}

#[test]
fn next_step_depends_on_passed_replays() {
    assert_eq!(benchmark_next_step(0), "Нужно накопить replay-подтверждённые полезные кандидаты.");
    assert!(benchmark_next_step(2).starts_with("Можно усиливать autonomy gate"));
}
