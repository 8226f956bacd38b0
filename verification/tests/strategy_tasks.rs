use eva_runtime::contracts::{DeniedMutationKind, MutationKind, MutationObjective};
use eva_runtime::evolution::strategy_tasks::{render_task_markdown, suggest_tasks_for_patterns};
use eva_runtime::evolution::task_validator::check_task_contract;

fn strings(v: &[&str]) -> Vec<String> {
    v.iter().map(|s| s.to_string()).collect()
}

#[test]
fn each_detected_family_suggests_its_task_in_order() {
    let tasks = suggest_tasks_for_patterns("c1", &strings(&["result_error_pattern", "test_assertion_pattern", "json_contract_pattern"]), 9);
    assert_eq!(tasks.len(), 2);
    assert_eq!(tasks[0].task.task_id, "corpus_c1_test_expansion");
    assert_eq!(tasks[0].task.allowed_targets, strings(&["tests/*"]));
    assert_eq!(tasks[0].task.preferred_objectives, vec![MutationObjective::ImproveTests, MutationObjective::ImproveReplayability]);
    assert_eq!(tasks[0].max_risk_hundredths, 20);
    assert_eq!(tasks[1].task.task_id, "corpus_c1_regression_avoidance");
    assert_eq!(tasks[1].task.allowed_mutation_kinds, vec![MutationKind::AddReplayAssertion, MutationKind::AddMetricUpdate]);
    assert_eq!(tasks[1].task.cycles, 2);
    for t in &tasks {
        assert!(!t.task.auto_promote);
        assert!(t.task.require_replay);
        assert_eq!(t.min_score, 7);
        assert_eq!(t.task.created_at, 9);
        assert_eq!(t.task.source_corpus_id.as_deref(), Some("c1"));
        assert_eq!(t.task.forbidden_targets, strings(&["src/core/*", "src/main.rs", "src/lib.rs", "Cargo.toml"]));
        assert_eq!(
            t.task.denied_mutation_kinds,
            vec![DeniedMutationKind::DeleteCode, DeniedMutationKind::RewriteFunction, DeniedMutationKind::FreeDiff, DeniedMutationKind::DependencyAdd]
        );
    }
}

#[test]
fn all_four_families_give_four_tasks() {
    let tasks = suggest_tasks_for_patterns(
        "x",
        &strings(&["validation_guard_pattern", "report_writer_pattern", "result_error_pattern", "test_assertion_pattern"]),
        0,
    );
    let ids: Vec<&str> = tasks.iter().map(|t| t.task.task_id.as_str()).collect();
    assert_eq!(ids, vec!["corpus_x_test_expansion", "corpus_x_validation_hardening", "corpus_x_metrics_reporting", "corpus_x_regression_avoidance"]);
    assert_eq!(tasks[1].max_risk_hundredths, 18);
    assert_eq!(tasks[2].task.allowed_targets, strings(&["src/evolution/*"]));
}

#[test]
fn without_patterns_the_safe_baseline_is_suggested() {
    let tasks = suggest_tasks_for_patterns("c1", &Vec::new(), 3);
    assert_eq!(tasks.len(), 1);
    let t = &tasks[0].task;
    assert_eq!(t.task_id, "corpus_c1_safe_local_baseline");
    assert_eq!(t.cycles, 1);
    assert_eq!(tasks[0].max_risk_hundredths, 18);
    assert_eq!(
        render_task_markdown(t),
        "# Suggested Task EVA\n\ntitle: Безопасная локальная baseline задача\ngoal: Выполнить только безопасные test/reporting улучшения по итогам локального corpus.\nsource_corpus_id: c1\nauto_promote=false\nallowed_targets: tests/*, src/evolution/*\nallowed_mutation_kinds: AddUnitTest, AddMetricUpdate\n"
    );
}

#[test]
fn suggested_tasks_pass_task_validation() {
    let tasks = suggest_tasks_for_patterns(
        "c1",
        &strings(&["validation_guard_pattern", "report_writer_pattern", "result_error_pattern", "test_assertion_pattern"]),
        0,
    );
    for t in &tasks {
        let n = t.task.allowed_targets.len() + t.task.forbidden_targets.len();
        assert!(check_task_contract(&t.task, t.max_risk_hundredths <= 35, &vec![false; n]).is_ok());
    }
}
