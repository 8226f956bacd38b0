use eva_runtime::contracts::{EvolutionLogEntry, EvolutionStatus};
use eva_runtime::evolution::strategy_portfolio::{
    count_strategy_runs, infer_strategy, record_strategy_replay, record_strategy_run, strategy_standing,
    StrategyCounts,
};

fn strings(v: &[&str]) -> Vec<String> {
    v.iter().map(|s| s.to_string()).collect()
}

fn log(kind: &str, target: &str, useful: bool, retained: bool, at: u64) -> EvolutionLogEntry {
    EvolutionLogEntry {
        run_id: format!("run-{at}"),
        plan_id: None,
        hypothesis_id: None,
        objective: None,
        selected_strategy: None,
        recombined_source_patterns: Vec::new(),
        recombined_avoided_risks: Vec::new(),
        recombination_reason_ru: None,
        portfolio_reason_ru: None,
        mutation_id: format!("m{at}"),
        mutation_class: "useful".to_string(),
        status: EvolutionStatus::Candidate,
        target_file: target.to_string(),
        mutation_kind: kind.to_string(),
        useful_change: useful,
        non_candidate_reason: None,
        duplicate_rejected: false,
        cargo_check_ok: true,
        cargo_test_ok: true,
        cargo_run_ok: true,
        retained_in_core: retained,
        sandbox_destroyed: true,
        timestamp_unix: at,
    }
}

fn names(v: &[StrategyCounts]) -> Vec<String> {
    v.iter().map(|c| c.strategy.clone()).collect()
}

#[test]
fn strategies_are_inferred_in_priority_order() {
    assert_eq!(infer_strategy(Some("Custom"), None, "addunittest", "tests/a.rs", &Vec::new()), "Custom");
    assert_eq!(infer_strategy(None, None, "addunittest", "src/promotion_queue.rs", &Vec::new()), "CandidateReview");
    assert_eq!(
        infer_strategy(None, None, "addunittest", "tests/a.rs", &strings(&["runtime_to_tests_redirect"])),
        "RegressionAvoidance"
    );
    assert_eq!(infer_strategy(None, Some("ImproveValidation"), "addunittest", "tests/a.rs", &Vec::new()), "ValidationHardening");
    assert_eq!(infer_strategy(None, None, "addreplayassertion", "tests/a.rs", &Vec::new()), "ReplaySafety");
    assert_eq!(infer_strategy(None, None, "addmetricupdate", "src/x.rs", &Vec::new()), "MetricsReporting");
    assert_eq!(infer_strategy(None, None, "appendcomment", "tests/a.rs", &Vec::new()), "TestExpansion");
    assert_eq!(infer_strategy(None, None, "appendcomment", "src/x.rs", &Vec::new()), "CandidateReview");
}

#[test]
fn runs_are_counted_per_strategy_in_name_order() {
    let logs = vec![
        log("addunittest", "tests/a.rs", true, false, 5),
        log("addmetricupdate", "src/x.rs", false, false, 6),
        log("addunittest", "tests/b.rs", true, true, 7),
    ];
    let counts = count_strategy_runs(&logs);
    assert_eq!(names(&counts), strings(&["MetricsReporting", "TestExpansion"]));
    let tests = &counts[1];
    assert_eq!(tests.seen_count, 2);
    assert_eq!(tests.useful_count, 2);
    assert_eq!(tests.promoted_count, 1);
    assert_eq!(tests.replay_passed_count, 0);
    assert_eq!(tests.last_used_at, 7);
    assert_eq!(counts[0].seen_count, 1);
    assert_eq!(counts[0].useful_count, 0);
}

#[test]
fn replays_keep_the_latest_use() {
    let mut portfolio = Vec::new();
    record_strategy_run(&mut portfolio, "ReplaySafety", true, false, 10);
    record_strategy_replay(&mut portfolio, "ReplaySafety", 4);
    record_strategy_replay(&mut portfolio, "CandidateReview", 12);
    assert_eq!(names(&portfolio), strings(&["CandidateReview", "ReplaySafety"]));
    let replay = strategy_standing(&portfolio, "ReplaySafety");
    assert_eq!(replay.replay_passed_count, 1);
    assert_eq!(replay.last_used_at, 10);
    assert_eq!(replay.seen_count, 1);
    let review = strategy_standing(&portfolio, "CandidateReview");
    assert_eq!(review.replay_passed_count, 1);
    assert_eq!(review.last_used_at, 12);
    assert_eq!(review.seen_count, 0);
    let missing = strategy_standing(&portfolio, "TestExpansion");
    assert_eq!(missing.seen_count, 0);
    assert_eq!(missing.strategy, "TestExpansion");
}

use eva_runtime::contracts::MutationKind;
use eva_runtime::evolution::metrics::ReplayResult;
use eva_runtime::evolution::mutation_portfolio::{
    kind_label, kind_standing, record_kind_after_log, record_kind_after_replay, KindCounts,
};

fn kinds(v: &[KindCounts]) -> Vec<String> {
    v.iter().map(|c| c.mutation_kind.clone()).collect()
}

fn replay(ok: bool, at: u64) -> ReplayResult {
    ReplayResult {
        run_id: "run-1".to_string(),
        replay_status: if ok { EvolutionStatus::Candidate } else { EvolutionStatus::Failed },
        matches_stored_summary: true,
        cargo_check_ok: true,
        cargo_test_ok: true,
        cargo_run_ok: true,
        timestamp_unix: at,
    }
}

#[test]
fn kind_labels_are_lower_case_names() {
    assert_eq!(kind_label(MutationKind::AddReplayAssertion), "addreplayassertion");
    assert_eq!(kind_label(MutationKind::AppendComment), "appendcomment");
}

#[test]
fn logged_runs_are_counted_under_their_lower_case_kind() {
    let mut portfolio = Vec::new();
    let mut first = log("AddUnitTest", "tests/a.rs", true, false, 3);
    first.status = EvolutionStatus::Candidate;
    record_kind_after_log(&mut portfolio, &first);
    let mut second = log("addunittest", "tests/a.rs", true, true, 9);
    second.status = EvolutionStatus::Promoted;
    second.cargo_test_ok = false;
    record_kind_after_log(&mut portfolio, &second);
    record_kind_after_log(&mut portfolio, &log("addmetricupdate", "src/x.rs", false, false, 4));
    assert_eq!(kinds(&portfolio), strings(&["addmetricupdate", "addunittest"]));
    let unit = kind_standing(&portfolio, "addunittest");
    assert_eq!(unit.seen_count, 2);
    assert_eq!(unit.success_count, 1);
    assert_eq!(unit.candidate_count, 1);
    assert_eq!(unit.promoted_count, 1);
    assert_eq!(unit.last_used_at, 9);
}

#[test]
fn only_passed_replays_are_counted() {
    let mut portfolio = Vec::new();
    record_kind_after_replay(&mut portfolio, MutationKind::AddUnitTest, &replay(false, 5));
    assert!(portfolio.is_empty());
    record_kind_after_replay(&mut portfolio, MutationKind::AddUnitTest, &replay(true, 6));
    let unit = kind_standing(&portfolio, "addunittest");
    assert_eq!(unit.replay_passed_count, 1);
    assert_eq!(unit.last_used_at, 6);
    assert_eq!(unit.seen_count, 0);
}
