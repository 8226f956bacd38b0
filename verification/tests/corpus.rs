use eva_runtime::contracts::CorpusIngestContract;
use eva_runtime::evolution::corpus::{
    default_corpus_contract, finish_corpus_scan, infer_strategies, new_corpus_scan,
    render_corpus_markdown, scan_corpus_file, scan_file_contents, update_graph_for_corpus,
};
use eva_runtime::evolution::corpus_validator::{check_corpus_contract_fields, check_root_parts};
use eva_runtime::graph::EvolutionGraph;
use eva_runtime::paths::PathPart;

const RUST_SOURCE: &str = "mod util;\nfn main() {\n    println!(\"x\");\n}\n#[test]\nfn check_report() -> Result<(), String> {\n    assert_eq!(1, 1);\n}\n";

fn strings(v: &[&str]) -> Vec<String> {
    v.iter().map(|s| s.to_string()).collect()
}

#[test]
fn scanning_a_rust_source_counts_its_lines() {
    let mut scan = new_corpus_scan("c1", "/tmp/p", 2, 1);
    scan_file_contents(&mut scan, "src/report.rs", true, RUST_SOURCE);
    let s = &scan.summary;
    assert_eq!(s.file_count, 1);
    assert_eq!(s.rust_file_count, 1);
    assert_eq!(s.test_file_count, 0);
    assert_eq!(s.function_count, 2);
    assert_eq!(s.test_function_count, 0);
    assert_eq!(s.result_returning_functions, 1);
    assert_eq!(s.error_enum_count, 0);
    assert_eq!(s.validation_function_count, 0);
    assert_eq!(s.cli_parser_mentions, 0);
    assert_eq!(s.reporting_mentions, 2);
    assert_eq!(scan.detected, strings(&["report_writer_pattern", "result_error_pattern", "test_assertion_pattern"]));
    assert_eq!(scan.symbolic, strings(&["assertion_label", "report_writer_label", "result_signature_label"]));
    assert_eq!(scan.modules, strings(&["util"]));
}

#[test]
fn assertions_in_test_files_count_as_test_functions() {
    let mut scan = new_corpus_scan("c1", "/tmp/p", 1, 0);
    let src = "fn validate_input() {}\nassert!(true);\nenum ParseError { A }\nlet m = clap::Command::new(\"x\");\n";
    scan_file_contents(&mut scan, "tests/it_test.rs", true, src);
    let s = &scan.summary;
    assert_eq!(s.test_file_count, 1);
    assert_eq!(s.function_count, 1);
    assert_eq!(s.test_function_count, 1);
    assert_eq!(s.error_enum_count, 1);
    assert_eq!(s.validation_function_count, 1);
    assert_eq!(s.cli_parser_mentions, 1);
    assert_eq!(
        scan.detected,
        strings(&["cli_command_pattern", "result_error_pattern", "test_assertion_pattern", "validation_guard_pattern"])
    );
}

#[test]
fn other_files_only_mark_configuration() {
    let mut scan = new_corpus_scan("c1", "/tmp/p", 1, 0);
    scan_file_contents(&mut scan, "Cargo.toml", false, "fn not_code() {}\nserde_json = \"1\"\n");
    assert_eq!(scan.summary.file_count, 1);
    assert_eq!(scan.summary.function_count, 0);
    assert_eq!(scan.detected, strings(&["toml_config_pattern"]));
    assert_eq!(scan.symbolic, strings(&["toml_config_label"]));
    assert!(scan.modules.is_empty());
}

#[test]
fn json_use_is_detected_in_rust_sources() {
    let mut scan = new_corpus_scan("c1", "/tmp/p", 1, 0);
    scan_corpus_file(&mut scan, "src/io.rs", "use serde_json::Value;\n");
    assert_eq!(scan.summary.rust_file_count, 1);
    assert_eq!(scan.detected, strings(&["json_contract_pattern"]));
    assert_eq!(scan.symbolic, strings(&["json_contract_label"]));
}

#[test]
fn strategies_follow_the_detected_patterns() {
    assert_eq!(
        infer_strategies(&strings(&["validation_guard_pattern", "test_assertion_pattern", "toml_config_pattern"])),
        strings(&["TestExpansion", "ValidationHardening"])
    );
    assert!(infer_strategies(&strings(&["cli_command_pattern"])).is_empty());
}

#[test]
fn finished_scan_reports_and_files_the_corpus() {
    let mut scan = new_corpus_scan("c1", "/tmp/p", 2, 1);
    scan_file_contents(&mut scan, "src/report.rs", true, RUST_SOURCE);
    scan_file_contents(&mut scan, "Cargo.toml", false, "[package]\n");
    let (summary, patterns) = finish_corpus_scan(scan);
    assert_eq!(summary.module_names, strings(&["util"]));
    assert_eq!(summary.suggested_strategies, strings(&["MetricsReporting", "RegressionAvoidance", "TestExpansion"]));
    assert_eq!(patterns.corpus_id, "c1");
    let md = render_corpus_markdown(&summary, &patterns);
    assert_eq!(
        md,
        "# Corpus EVA\n\ncorpus path: /tmp/p\nscanned files: 2\nskipped files: 1\ndetected patterns: report_writer_pattern, result_error_pattern, test_assertion_pattern, toml_config_pattern\nsuggested strategies: MetricsReporting, RegressionAvoidance, TestExpansion\nsafety notes: read-only local ingestion only; source corpus was not mutated; no full source content stored\nsource corpus was not mutated: yes\n"
    );
    let mut graph = EvolutionGraph { nodes: Vec::new(), edges: Vec::new() };
    update_graph_for_corpus(&mut graph, &summary, &patterns);
    assert_eq!(graph.nodes.len(), 9);
    assert_eq!(graph.edges.len(), 8);
    assert!(graph.nodes.iter().any(|n| n.id == "corpus_pattern:c1:toml_config_pattern" && n.kind == "CorpusPattern"));
    assert!(graph.edges.iter().any(|e| e.from == "corpus:c1" && e.to == "strategy:TestExpansion" && e.relation == "corpus_suggests_strategy"));
    update_graph_for_corpus(&mut graph, &summary, &patterns);
    assert_eq!(graph.nodes.len(), 9);
    assert_eq!(graph.edges.len(), 8);
}

#[test]
fn empty_corpus_report_says_none() {
    let (summary, patterns) = finish_corpus_scan(new_corpus_scan("c2", "/r", 0, 0));
    let md = render_corpus_markdown(&summary, &patterns);
    assert!(md.contains("detected patterns: (none)\nsuggested strategies: (none)\n"));
}

#[test]
fn default_contract_is_named_by_the_root_digest() {
    let c = default_corpus_contract("/tmp/p", 5);
    assert_eq!(c.corpus_id, "corpus_48feb3df");
    assert_eq!(c.root_path, "/tmp/p");
    assert_eq!(c.allowed_extensions, strings(&["rs", "toml", "md", "json"]));
    assert_eq!(c.denied_dirs, strings(&[".git", "target", "node_modules", "memory", "sandboxes", "eva_output"]));
    assert_eq!(c.max_files, 500);
    assert_eq!(c.max_file_bytes, 262144);
    assert_eq!(c.created_at, 5);
    assert!(check_corpus_contract_fields(&c).is_ok());
}

fn contract() -> CorpusIngestContract {
    default_corpus_contract("/tmp/p", 1)
}

#[test]
fn contract_field_errors() {
    let mut c = contract();
    c.max_files = 501;
    assert_eq!(check_corpus_contract_fields(&c).unwrap_err(), "max_files must be <= 500");
    let mut c = contract();
    c.max_file_bytes = 262145;
    assert_eq!(check_corpus_contract_fields(&c).unwrap_err(), "max_file_bytes must be <= 262144");
    let mut c = contract();
    c.root_path = "https://example.org/repo".to_string();
    assert_eq!(check_corpus_contract_fields(&c).unwrap_err(), "network URLs are forbidden for corpus ingestion");
    let mut c = contract();
    c.allowed_extensions.push("py".to_string());
    c.allowed_extensions.push("sh".to_string());
    assert_eq!(check_corpus_contract_fields(&c).unwrap_err(), "unsupported corpus extension: py");
    let mut c = contract();
    c.denied_dirs.retain(|d| d != "memory" && d != "target");
    assert_eq!(check_corpus_contract_fields(&c).unwrap_err(), "missing denied dir: target");
}

#[test]
fn broad_absolute_roots_are_refused() {
    let two = vec![PathPart::RootDir, PathPart::Normal("home".to_string()), PathPart::Normal("u".to_string())];
    assert_eq!(
        check_root_parts(&two, "/home/u").unwrap_err(),
        "absolute unsafe corpus root is forbidden unless narrowed to a project folder: /home/u"
    );
    let three = vec![
        PathPart::RootDir,
        PathPart::Normal("home".to_string()),
        PathPart::Normal("u".to_string()),
        PathPart::Normal("project".to_string()),
    ];
    assert!(check_root_parts(&three, "/home/u/project").is_ok());
}
