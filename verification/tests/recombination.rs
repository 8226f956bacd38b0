use eva_runtime::contracts::{MutationKind, MutationObjective};
use eva_runtime::evolution::recombination::{
    build_hypothesis_frame, candidate_options, collect_candidate_files, forbidden_kind,
    generate_from_recombined_hypothesis, mutation_kind_from_label, objective_from_label,
    preferred_objective_for_file, KindSuccesses, ObjectiveCount, RecombinationCandidate,
    RecombinedHypothesis,
};
use eva_runtime::graph::{EvolutionGraph, GraphEdge, GraphNode};

fn strings(v: &[&str]) -> Vec<String> {
    v.iter().map(|s| s.to_string()).collect()
}

#[test]
fn only_the_four_safe_kinds_are_recombined() {
    assert_eq!(mutation_kind_from_label("addunittest").unwrap(), MutationKind::AddUnitTest);
    assert_eq!(mutation_kind_from_label("addmetricupdate").unwrap(), MutationKind::AddMetricUpdate);
    assert_eq!(
        mutation_kind_from_label("appendcomment").unwrap_err(),
        "unsupported recombined mutation kind: appendcomment"
    );
    assert!(forbidden_kind("rewritefunction"));
    assert!(!forbidden_kind("addunittest"));
    assert_eq!(objective_from_label("ReduceStorage"), MutationObjective::ReduceStorage);
    assert_eq!(objective_from_label("whatever"), MutationObjective::ImproveReliability);
}

fn hypothesis(kind: &str, target: &str) -> RecombinedHypothesis {
    RecombinedHypothesis {
        hypothesis_id: "recombined:src_evolution_metrics_rs:addmetricupdate:src_evolution_metrics_rs".to_string(),
        source_patterns: strings(&["pattern:a"]),
        avoided_risks: Vec::new(),
        target_objective: "ImproveGraphMemory".to_string(),
        suggested_mutation_kind: kind.to_string(),
        suggested_target: target.to_string(),
        reason_ru: "причина".to_string(),
        portfolio_reason_ru: "portfolio рассмотрело kind=addmetricupdate".to_string(),
    }
}

#[test]
fn a_hypothesis_becomes_its_templated_mutation() {
    let h = hypothesis("addmetricupdate", "src/evolution/metrics.rs");
    let m = generate_from_recombined_hypothesis(&h).unwrap();
    assert_eq!(m.id, format!("mutation:{}", h.hypothesis_id));
    assert_eq!(m.kind, MutationKind::AddMetricUpdate);
    assert_eq!(m.target_file, "src/evolution/metrics.rs");
    assert_eq!(
        m.reason,
        format!("recombined hypothesis {}: причина; portfolio=portfolio рассмотрело kind=addmetricupdate", h.hypothesis_id)
    );
    assert_eq!(m.search.as_deref(), Some("pub const DEFAULT_METRICS_PATH: &str = \"memory/metrics.json\";\n"));
    assert!(m.replace.unwrap().ends_with("pub const EVA_REPORTS_DIR: &str = \"memory/reports\";\n"));
    assert!(m.append.is_none());
}

#[test]
fn a_replay_hypothesis_appends_a_replay_test() {
    let h = hypothesis("addreplayassertion", "tests/evolution_generated_tests.rs");
    let m = generate_from_recombined_hypothesis(&h).unwrap();
    let body = m.append.unwrap();
    assert!(body.starts_with("#[test]\nfn eva_generated_recombined_src_evolution_metrics_rs_addmetricupdate_src_evolution_metrics_rs_replay_assertion()"));
    assert!(m.search.is_none());
}

#[test]
fn an_unsupported_hypothesis_kind_is_refused() {
    let h = hypothesis("deletecode", "src/evolution/metrics.rs");
    assert_eq!(
        generate_from_recombined_hypothesis(&h).unwrap_err(),
        "unsupported recombined mutation kind: deletecode"
    );
}

fn edge(from: &str, to: &str) -> GraphEdge {
    GraphEdge { from: from.to_string(), to: to.to_string(), relation: "found_in".to_string() }
}

fn node(id: &str, kind: &str) -> GraphNode {
    GraphNode { id: id.to_string(), kind: kind.to_string() }
}

#[test]
fn candidate_files_come_from_the_graph() {
    let graph = EvolutionGraph {
        nodes: vec![node("file:src/z.rs", "File"), node("file:src/lib.rs", "File"), node("module:m", "Module")],
        edges: vec![
            edge("pattern:b", "file:src/evolution/x.rs"),
            edge("pattern:a", "file:src/evolution/x.rs"),
            edge("pattern:c", "file:src/core/y.rs"),
            edge("pattern:d", "file:tests/t.rs"),
            edge("pattern:a", "file:src/evolution/x.rs"),
        ],
    };
    let c = collect_candidate_files(&graph);
    assert_eq!(c.len(), 2);
    assert_eq!(c[0].file, "src/evolution/x.rs");
    assert_eq!(c[0].source_patterns, strings(&["pattern:a", "pattern:b"]));
    assert_eq!(c[1].file, "src/z.rs");
    assert!(c[1].source_patterns.is_empty());
}

fn count(key: &str, count: u64) -> ObjectiveCount {
    ObjectiveCount { key: key.to_string(), count }
}

#[test]
fn the_most_frequent_objective_wins_ties_by_name() {
    let counts = vec![count("ReduceStorage", 5), count("ImproveTests", 3), count("ImproveValidation", 5)];
    assert_eq!(preferred_objective_for_file("src/x.rs", &counts), "ImproveValidation");
    assert_eq!(preferred_objective_for_file("src/evolution/validator.rs", &Vec::new()), "ImproveValidation");
    assert_eq!(preferred_objective_for_file("src/evolution/promotion_queue.rs", &Vec::new()), "ImproveReplayability");
    assert_eq!(preferred_objective_for_file("src/evolution/metrics.rs", &Vec::new()), "ImproveGraphMemory");
    assert_eq!(preferred_objective_for_file("src/other.rs", &Vec::new()), "ImproveReliability");
}

fn successes(unit: u64, replay: u64, metric: u64, learning: u64) -> KindSuccesses {
    KindSuccesses { add_unit_test: unit, add_replay_assertion: replay, add_metric_update: metric, add_learning_summary_field: learning }
}

#[test]
fn options_for_an_evolution_metrics_file() {
    let o = candidate_options("src/evolution/metrics.rs", successes(1, 0, 2, 0));
    let kinds: Vec<&str> = o.iter().map(|x| x.mutation_kind.as_str()).collect();
    assert_eq!(kinds, vec!["addlearningsummaryfield", "addmetricupdate", "addreplayassertion", "addunittest"]);
    let bonus: Vec<u32> = o.iter().map(|x| x.base_kind_bonus_hundredths).collect();
    assert_eq!(bonus, vec![12, 10, 10, 14]);
    assert_eq!(o[0].target, "src/evolution/metrics.rs");
    assert_eq!(o[2].target, "tests/evolution_generated_tests.rs");
    assert_eq!(o[2].reason_ru, "Рекомбинация отвела рискованный runtime/evolution target в replay/test слой.");
}

#[test]
fn options_keep_the_first_reason_of_each_kind() {
    let o = candidate_options("src/evolution/replay_validator.rs", successes(3, 3, 0, 0));
    let kinds: Vec<&str> = o.iter().map(|x| x.mutation_kind.as_str()).collect();
    assert_eq!(kinds, vec!["addreplayassertion", "addunittest"]);
    assert_eq!(o[0].base_kind_bonus_hundredths, 11);
    assert_eq!(o[1].base_kind_bonus_hundredths, 12);
    let fallback = candidate_options("src/other.rs", successes(0, 0, 0, 0));
    assert_eq!(fallback.len(), 1);
    assert_eq!(fallback[0].mutation_kind, "addunittest");
    assert_eq!(fallback[0].base_kind_bonus_hundredths, 8);
}

#[test]
fn hypothesis_frames_name_and_collect_their_evidence() {
    let candidate = RecombinationCandidate {
        file: "src/evolution/metrics.rs".to_string(),
        source_patterns: strings(&["pattern:b", "pattern:a"]),
    };
    let option = candidate_options("src/evolution/metrics.rs", successes(0, 0, 2, 0))[1].clone();
    let h = build_hypothesis_frame(
        &candidate,
        &option,
        "ImproveGraphMemory",
        2,
        strings(&["regression_penalty:0.50:src/evolution/metrics.rs"]),
        "p",
    );
    assert_eq!(h.hypothesis_id, "recombined:src_evolution_metrics_rs:addmetricupdate:src_evolution_metrics_rs");
    assert_eq!(h.source_patterns, strings(&["pattern:a", "pattern:b", "success_kind:addmetricupdate:2"]));
    assert_eq!(
        h.avoided_risks,
        strings(&["regression_penalty:0.50:src/evolution/metrics.rs", "runtime_to_tests_redirect:src/evolution/metrics.rs"])
    );
    assert_eq!(h.suggested_target, "src/evolution/metrics.rs");
    let lonely = RecombinationCandidate { file: "src/z.rs".to_string(), source_patterns: Vec::new() };
    let h = build_hypothesis_frame(&lonely, &candidate_options("src/z.rs", successes(0, 0, 0, 0))[0], "ImproveReliability", 0, Vec::new(), "");
    assert_eq!(h.source_patterns, strings(&["file:src/z.rs"]));
    assert!(h.avoided_risks.is_empty());
    assert_eq!(h.hypothesis_id, "recombined:src_z_rs:addunittest:tests_evolution_generated_tests_rs");
}
