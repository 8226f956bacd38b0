use eva_runtime::analyzer::{
    is_safe_target, kind_for_file, objective_for_file, plan_evidence, plan_id, safe_plan_files,
    target_for_kind, task_allows,
};
use eva_runtime::contracts::{DeniedMutationKind, MutationKind, MutationObjective, TaskContract};
use eva_runtime::evolution::evolution_policy::{
    metrics_success_count, policy_mutation_kinds, runtime_regression_count, strategy_allowed_kinds,
    strategy_preferred_targets,
};
use eva_runtime::graph::{EvolutionGraph, GraphEdge, GraphNode};

fn strings(v: &[&str]) -> Vec<String> {
    v.iter().map(|s| s.to_string()).collect()
}

fn node(id: &str, kind: &str) -> GraphNode {
    GraphNode { id: id.to_string(), kind: kind.to_string() }
}

fn edge(from: &str, to: &str) -> GraphEdge {
    GraphEdge { from: from.to_string(), to: to.to_string(), relation: "found_in".to_string() }
}

fn task() -> TaskContract {
    TaskContract {
        task_id: "t1".to_string(),
        title_ru: "Тесты".to_string(),
        goal_ru: "Больше тестов".to_string(),
        allowed_targets: strings(&["tests/*"]),
        forbidden_targets: strings(&["src/core/*", "src/main.rs", "src/lib.rs", "Cargo.toml"]),
        preferred_objectives: vec![MutationObjective::ImproveTests, MutationObjective::ImproveValidation],
        allowed_mutation_kinds: vec![MutationKind::AddUnitTest],
        denied_mutation_kinds: vec![
            DeniedMutationKind::DeleteCode,
            DeniedMutationKind::RewriteFunction,
            DeniedMutationKind::FreeDiff,
            DeniedMutationKind::DependencyAdd,
        ],
        cycles: 1,
        require_replay: true,
        require_benchmark: false,
        require_russian_report: true,
        auto_promote: false,
        source_corpus_id: None,
        created_at: 1,
    }
}

#[test]
fn protected_files_are_never_plan_targets() {
    assert!(is_safe_target("src/evolution/metrics.rs"));
    assert!(!is_safe_target("src/core/engine.rs"));
    assert!(!is_safe_target("src/main.rs"));
    assert!(!is_safe_target("src/lib.rs"));
    assert!(!is_safe_target("src/tools/Cargo.toml"));
    assert!(!is_safe_target("tests/a.rs"));
}

#[test]
fn objective_and_kind_follow_the_path() {
    assert_eq!(objective_for_file("src/evolution/validator.rs"), MutationObjective::ImproveValidation);
    assert_eq!(objective_for_file("src/evolution/promotion_queue.rs"), MutationObjective::ImproveReplayability);
    assert_eq!(objective_for_file("src/evolution/metrics.rs"), MutationObjective::ImproveGraphMemory);
    assert_eq!(objective_for_file("src/graph/ingest.rs"), MutationObjective::ImproveGraphMemory);
    assert_eq!(objective_for_file("src/testing.rs"), MutationObjective::ImproveTests);
    assert_eq!(objective_for_file("src/app.rs"), MutationObjective::ImproveReliability);

    assert_eq!(kind_for_file("src/replay.rs", MutationObjective::ImproveReplayability), MutationKind::AddReplayAssertion);
    assert_eq!(kind_for_file("src/metrics.rs", MutationObjective::ImproveGraphMemory), MutationKind::AddMetricUpdate);
    assert_eq!(kind_for_file("src/report.rs", MutationObjective::ReduceStorage), MutationKind::AddLearningSummaryField);
    assert_eq!(kind_for_file("src/tests/x.rs", MutationObjective::ImproveReliability), MutationKind::AddUnitTest);
    assert_eq!(kind_for_file("src/app.rs", MutationObjective::ImproveValidation), MutationKind::AddUnitTest);
}

#[test]
fn test_kinds_write_to_the_generated_test_file() {
    assert_eq!(target_for_kind("src/a.rs", MutationKind::AddUnitTest), "tests/evolution_generated_tests.rs");
    assert_eq!(target_for_kind("src/a.rs", MutationKind::AddReplayAssertion), "tests/evolution_generated_tests.rs");
    assert_eq!(target_for_kind("src/a.rs", MutationKind::AddMetricUpdate), "src/a.rs");
}

#[test]
fn task_contract_filters_plans() {
    let t = task();
    assert!(task_allows(None, "src/a.rs", MutationObjective::ImproveReliability, MutationKind::AddMetricUpdate));
    assert!(task_allows(Some(&t), "tests/evolution_generated_tests.rs", MutationObjective::ImproveTests, MutationKind::AddUnitTest));
    assert!(!task_allows(Some(&t), "src/a.rs", MutationObjective::ImproveTests, MutationKind::AddUnitTest));
    assert!(!task_allows(Some(&t), "tests/x.rs", MutationObjective::ImproveScoring, MutationKind::AddUnitTest));
    assert!(!task_allows(Some(&t), "tests/x.rs", MutationObjective::ImproveTests, MutationKind::AddMetricUpdate));
}

#[test]
fn graph_offers_safe_files_sorted_once() {
    let graph = EvolutionGraph {
        nodes: vec![
            node("file:src/b.rs", "File"),
            node("file:src/a.rs", "TargetFile"),
            node("file:src/b.rs", "TargetFile"),
            node("file:src/main.rs", "File"),
            node("pattern:function:x", "Pattern"),
            node("file:tests/t.rs", "File"),
        ],
        edges: vec![
            edge("pattern:function:x", "file:src/a.rs"),
            edge("pattern:struct:S", "file:src/a.rs"),
            edge("pattern:enum:E", "file:src/b.rs"),
            edge("pattern:use:y", "file:src/a.rs"),
            edge("pattern:test:t", "file:src/a.rs"),
        ],
    };
    assert_eq!(safe_plan_files(&graph), strings(&["src/a.rs", "src/b.rs"]));
    assert_eq!(
        plan_evidence(&graph, "src/a.rs"),
        strings(&["pattern:function:x", "pattern:struct:S", "pattern:use:y"])
    );
    assert_eq!(plan_evidence(&graph, "src/c.rs"), Vec::<String>::new());
}

#[test]
fn plan_ids_flatten_the_path() {
    assert_eq!(plan_id("src/evolution/metrics.rs"), "plan:src_evolution_metrics_rs");
}

#[test]
fn strategies_allow_their_kinds_and_targets() {
    assert_eq!(strategy_allowed_kinds("ReplaySafety"), strings(&["addreplayassertion", "addunittest"]));
    assert_eq!(strategy_allowed_kinds("ValidationHardening"), strings(&["addunittest"]));
    assert_eq!(strategy_allowed_kinds("TestExpansion"), strings(&["addunittest", "addreplayassertion"]));
    assert_eq!(strategy_preferred_targets("MetricsReporting"), strings(&["src/evolution/metrics.rs"]));
    assert_eq!(
        strategy_preferred_targets("RegressionAvoidance"),
        strings(&["tests/evolution_generated_tests.rs", "src/evolution/metrics.rs"])
    );
    assert_eq!(strategy_preferred_targets("CandidateReview"), strings(&["tests/evolution_generated_tests.rs"]));
}

#[test]
fn policy_evidence_counts() {
    let targets = strings(&["src/runtime/mod.rs", "src/evolution/a.rs", "tests/x.rs", "src/runtimex.rs"]);
    assert_eq!(runtime_regression_count(&targets), 3);
    let kinds = strings(&["addmetricupdate", "addunittest", "addlearningsummaryfield"]);
    assert_eq!(metrics_success_count(&kinds), 2);
}

#[test]
fn task_narrows_policy_kinds_with_a_fallback() {
    assert_eq!(policy_mutation_kinds("ReplaySafety", None), strings(&["addreplayassertion", "addunittest"]));
    let only_unit = vec![MutationKind::AddUnitTest];
    assert_eq!(policy_mutation_kinds("ReplaySafety", Some(&only_unit)), strings(&["addunittest"]));
    let only_metrics = vec![MutationKind::AddMetricUpdate];
    assert_eq!(
        policy_mutation_kinds("ValidationHardening", Some(&only_metrics)),
        strings(&["addreplayassertion", "addmetricupdate", "addlearningsummaryfield", "addunittest"])
    );
    assert_eq!(policy_mutation_kinds("ValidationHardening", Some(&Vec::new())), strings(&["addunittest"]));
}
