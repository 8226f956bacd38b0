use eva_runtime::contracts::{EvolutionLogEntry, EvolutionStatus};
use eva_runtime::graph::{
    ingest_repo_patterns, manifest_dependencies, summary_pattern_ids, update_graph_for_evolution,
    EvolutionGraph, RepoRustFile, RustAstSummary, ScoreBand,
};

fn strings(v: &[&str]) -> Vec<String> {
    v.iter().map(|s| s.to_string()).collect()
}

fn empty_graph() -> EvolutionGraph {
    EvolutionGraph { nodes: Vec::new(), edges: Vec::new() }
}

fn entry(hypothesis: Option<&str>) -> EvolutionLogEntry {
    EvolutionLogEntry {
        run_id: "run-1".to_string(),
        plan_id: None,
        hypothesis_id: hypothesis.map(|s| s.to_string()),
        objective: None,
        selected_strategy: None,
        recombined_source_patterns: strings(&["pattern:test:x"]),
        recombined_avoided_risks: strings(&["runtime"]),
        recombination_reason_ru: None,
        portfolio_reason_ru: None,
        mutation_id: "m1".to_string(),
        mutation_class: "useful".to_string(),
        status: EvolutionStatus::Candidate,
        target_file: "tests/a.rs".to_string(),
        mutation_kind: "addunittest".to_string(),
        useful_change: true,
        non_candidate_reason: None,
        duplicate_rejected: false,
        cargo_check_ok: true,
        cargo_test_ok: true,
        cargo_run_ok: true,
        retained_in_core: false,
        sandbox_destroyed: true,
        timestamp_unix: 1,
    }
}

fn node_ids(g: &EvolutionGraph) -> Vec<String> {
    g.nodes.iter().map(|n| format!("{}|{}", n.id, n.kind)).collect()
}

#[test]
fn upserts_append_and_compact_sorts_without_repeats() {
    let mut g = empty_graph();
    g.upsert_node("b", "K");
    g.upsert_node("a", "K");
    g.upsert_node("b", "K");
    g.upsert_edge("a", "b", "r");
    g.upsert_edge("a", "b", "r");
    assert_eq!(g.nodes.len(), 3);
    g.compact();
    assert_eq!(node_ids(&g), strings(&["a|K", "b|K"]));
    assert_eq!(g.edges.len(), 1);
}

#[test]
fn a_run_without_hypothesis_adds_four_nodes_and_three_edges() {
    let mut g = empty_graph();
    update_graph_for_evolution(&mut g, &entry(None), ScoreBand::High);
    assert_eq!(
        node_ids(&g),
        strings(&[
            "file:tests/a.rs|TargetFile",
            "mutation:m1|Mutation",
            "score_band:high|ScoreBand",
            "status:candidate|Status",
        ])
    );
    assert_eq!(g.edges.len(), 3);
}

#[test]
fn a_recombined_run_files_its_patterns_and_risks() {
    let mut g = empty_graph();
    update_graph_for_evolution(&mut g, &entry(Some("hyp:1")), ScoreBand::Low);
    let ids = node_ids(&g);
    assert!(ids.contains(&"hyp:1|Hypothesis".to_string()));
    assert!(ids.contains(&"pattern:test:x|Pattern".to_string()));
    assert!(ids.contains(&"risk:runtime|Risk".to_string()));
    assert!(ids.contains(&"score_band:low|ScoreBand".to_string()));
    assert_eq!(g.edges.len(), 6);
    // filing the same run twice changes nothing
    let before = node_ids(&g);
    update_graph_for_evolution(&mut g, &entry(Some("hyp:1")), ScoreBand::Low);
    assert_eq!(node_ids(&g), before);
    assert_eq!(g.edges.len(), 6);
}

#[test]
fn manifest_dependencies_come_from_dependency_sections() {
    let manifest = "[package]\nname = \"x\"\n\n[dependencies]\nserde = \"1\"\n# comment\nsyn = { version = \"2\" }\n\n[features]\nfull = []\n[dev-dependencies]\n  proptest = \"1\"\n";
    assert_eq!(manifest_dependencies(manifest), strings(&["serde", "syn", "proptest"]));
    assert!(manifest_dependencies("").is_empty());
}

fn summary() -> RustAstSummary {
    RustAstSummary {
        modules: strings(&["util"]),
        functions: strings(&["run"]),
        structs: strings(&["S"]),
        enums: Vec::new(),
        use_imports: strings(&["std::fs"]),
        test_functions: strings(&["checks"]),
    }
}

#[test]
fn summary_patterns_are_prefixed_by_kind() {
    assert_eq!(
        summary_pattern_ids(&summary()),
        strings(&[
            "pattern:module:util",
            "pattern:function:run",
            "pattern:struct:S",
            "pattern:use:std::fs",
            "pattern:test:checks",
        ])
    );
}

#[test]
fn repository_patterns_are_found_in_their_files() {
    let mut g = empty_graph();
    let files = vec![RepoRustFile { relative_path: "src/lib.rs".to_string(), summary: summary() }];
    ingest_repo_patterns(&mut g, &Some("[dependencies]\nserde = \"1\"\n".to_string()), &files);
    let ids = node_ids(&g);
    assert!(ids.contains(&"dependency:serde|Dependency".to_string()));
    assert!(ids.contains(&"file:src/lib.rs|File".to_string()));
    assert!(ids.contains(&"pattern:struct:S|Pattern".to_string()));
    assert_eq!(g.edges.len(), 5);
    assert!(g.edges.iter().all(|e| e.to == "file:src/lib.rs" && e.relation == "found_in"));
}
