use eva_runtime::contracts::{CandidateState, MutationContract, MutationKind, PromotionQueueItem};
use eva_runtime::evolution::corpus::{new_corpus_scan, scan_corpus_file};
use eva_runtime::evolution::corpus_validator::{allowed_corpus_file, check_narrow_root, is_denied_path};
use eva_runtime::evolution::generator::generate_safe_mutation;
use eva_runtime::evolution::proof_report::queue_proof_counts;
use eva_runtime::evolution::regression_memory::target_area;
use eva_runtime::evolution::release_bundle::{release_from_preflight, ReleasePaths};
use eva_runtime::evolution::release_preflight::{
    build_release_preflight, context_mutation_kind, context_useful_change, release_candidate_context,
    release_id_from_preflight, StoredApproval, StoredReport, StoredSummary,
};
use eva_runtime::evolution::task_validator::validate_target_pattern;
use eva_runtime::evolution::validator::{validate_mutation, validate_target_path, MutationBounds};
use eva_runtime::rust_ast::extract_rust_ast;

fn strings(v: &[&str]) -> Vec<String> {
    v.iter().map(|s| s.to_string()).collect()
}

fn bounds_for(risk: f64, gain: f64) -> MutationBounds {
    MutationBounds {
        risk_within_limit: risk <= 0.5,
        expected_gain_in_range: (0.0..=1.0).contains(&gain),
        target_size: None,
    }
}

#[test]
fn denied_directories_match_whole_components() {
    assert!(is_denied_path("p/target/debug/a.rs", &strings(&["target"])));
    assert!(!is_denied_path("p/targets/a.rs", &strings(&["target"])));
    assert!(is_denied_path("/abs/.git", &strings(&[".git"])));
    assert!(!is_denied_path("p/target", &Vec::new()));
    assert!(is_denied_path("a//target/./b", &strings(&["target"])));
}

#[test]
fn corpus_files_are_chosen_by_extension_of_the_file_name() {
    let rs = strings(&["rs", "toml"]);
    assert!(allowed_corpus_file("src/a.rs", &rs));
    assert!(allowed_corpus_file("Cargo.toml", &rs));
    assert!(!allowed_corpus_file("README", &rs));
    assert!(!allowed_corpus_file("src/.rs", &rs));
    assert!(!allowed_corpus_file("archive.rs.bak", &rs));
    assert!(allowed_corpus_file("dir/x.tar.rs/", &rs));
}

#[test]
fn broad_corpus_roots_are_refused() {
    let message = "absolute unsafe corpus root is forbidden unless narrowed to a project folder: /home";
    assert_eq!(check_narrow_root("/home", "/home").unwrap_err(), message);
    assert!(check_narrow_root("/", "/").is_err());
    assert!(check_narrow_root("/home/user", "/home/user").is_err());
    assert!(check_narrow_root("/home/user/project", "/home/user/project").is_ok());
}

#[test]
fn target_area_is_the_parent_directory() {
    assert_eq!(target_area("src/evolution/metrics.rs"), "src/evolution");
    assert_eq!(target_area("Cargo.toml"), "");
    assert_eq!(target_area(""), "");
    assert_eq!(target_area("/"), "/");
    assert_eq!(target_area("/usr/lib"), "/usr");
    assert_eq!(target_area("/usr"), "/");
}

#[test]
fn the_safe_default_mutation_is_accepted() {
    let m = generate_safe_mutation();
    assert_eq!(validate_mutation(&m, &bounds_for(0.05, 0.1)), Ok(()));
}

#[test]
fn risk_half_is_accepted_and_above_is_refused() {
    let m = generate_safe_mutation();
    assert_eq!(validate_mutation(&m, &bounds_for(0.6, 0.1)).unwrap_err(), "mutation risk too high");
    assert_eq!(validate_mutation(&m, &bounds_for(0.5, 0.1)), Ok(()));
}

#[test]
fn escaping_targets_are_refused_for_every_kind() {
    let mut m: MutationContract = generate_safe_mutation();
    m.target_file = "src/../../etc/x.rs".to_string();
    assert_eq!(validate_mutation(&m, &bounds_for(0.1, 0.1)).unwrap_err(), "target file must not escape the project");
    m.target_file = "/src/x.rs".to_string();
    assert!(validate_mutation(&m, &bounds_for(0.1, 0.1)).is_err());
    assert!(validate_target_path("tests/../x.rs", MutationKind::AddUnitTest, None).is_err());
    assert!(validate_target_path("tests/a/x.rs", MutationKind::AddUnitTest, None).is_ok());
    assert_eq!(
        validate_target_pattern("src/../*").unwrap_err(),
        "path escape is forbidden in task pattern: src/../*"
    );
}

#[test]
fn rust_files_are_counted_by_extension() {
    let mut scan = new_corpus_scan("c", "/r", 2, 0);
    scan_corpus_file(&mut scan, "tests/x.rs", "fn a() {}\n");
    scan_corpus_file(&mut scan, "docs/readme.md", "# test\n");
    let summary = scan.summary;
    assert_eq!(summary.file_count, 2);
    assert_eq!(summary.rust_file_count, 1);
    assert_eq!(summary.test_file_count, 1);
}

#[test]
fn deeply_nested_sources_are_refused_before_parsing() {
    let deep = format!("fn f() {{ {}1{} }}", "(".repeat(100), ")".repeat(100));
    assert_eq!(
        extract_rust_ast(&deep).unwrap_err(),
        "failed to parse Rust AST: source nests too deeply"
    );
    let chain = format!("fn f() {{ let x = {}1; }}", "- ".repeat(300));
    assert!(extract_rust_ast(&chain).is_err());
    let shallow = format!("fn f() {{ {}1{} }}", "(".repeat(20), ")".repeat(20));
    assert!(extract_rust_ast(&shallow).is_ok());
}

fn queue_item(lifecycle: &str, replay: &str) -> PromotionQueueItem {
    PromotionQueueItem {
        run_id: "run-7".to_string(),
        mutation_kind: "addunittest".to_string(),
        mutation_class: "useful".to_string(),
        target_file: "tests/t.rs".to_string(),
        replay_status: replay.to_string(),
        promotion_state: lifecycle.to_string(),
        promotion_allowed: lifecycle == "ready",
        promotion_blockers: Vec::new(),
        report_path: "r.md".to_string(),
        lifecycle_state: lifecycle.to_string(),
        candidate_state: CandidateState::Ready,
        candidate_state_reason: String::new(),
        cargo_test_ok: Some(true),
        cargo_run_ok: Some(true),
        duplicate_rejected: false,
        promoted: false,
        reason_ru: String::new(),
        updated_at: 3,
    }
}

fn summary() -> StoredSummary {
    StoredSummary {
        mutation_kind: "addunittest".to_string(),
        target_file: "tests/t.rs".to_string(),
        useful_change: true,
        timestamp_unix: 10,
    }
}

fn report() -> StoredReport {
    StoredReport {
        mutation_class: "  useful ".to_string(),
        target_file: "tests/r.rs".to_string(),
        replay_status: "ok".to_string(),
        replay_checked_at: Some(30),
    }
}

#[test]
fn candidate_context_takes_each_field_from_the_first_record_that_has_it() {
    let c = release_candidate_context(
        "run-7",
        Some(summary()),
        None,
        Some(report()),
        Some(queue_item("ready", "failed")),
        Some(StoredApproval { decision: "approve".to_string(), created_at: 20 }),
        "legacy",
        Some("r.md".to_string()),
        Some("+ diff".to_string()),
    );
    assert_eq!(c.mutation_kind, "addunittest");
    assert_eq!(c.mutation_class, "useful");
    assert_eq!(c.target_file, "tests/t.rs");
    assert_eq!(c.replay_status, "ok");
    assert_eq!(c.promotion_queue_state, "ready");
    assert!(c.approval_required && c.approved);
    assert_eq!(c.generated_at, 30);
    assert_eq!(c.candidate_diff_summary, None);
    assert!(c.summary_exists);
}

#[test]
fn candidate_context_without_records_falls_back() {
    let mut m = generate_safe_mutation();
    m.target_file = "src/m.rs".to_string();
    assert_eq!(context_mutation_kind(&None, &Some(m.clone())), "appendcomment");
    assert!(!context_useful_change(&None, &None));
    let c = release_candidate_context("run-8", None, Some(m), None, None, None, "cosmetic", None, Some("d".to_string()));
    assert_eq!(c.mutation_kind, "appendcomment");
    assert_eq!(c.mutation_class, "cosmetic");
    assert_eq!(c.target_file, "src/m.rs");
    assert_eq!(c.replay_status, "unknown");
    assert_eq!(c.promotion_queue_state, "unknown");
    assert!(c.approval_required && !c.approved);
    assert_eq!(c.generated_at, 0);
    assert_eq!(c.candidate_diff_summary, Some("d".to_string()));
    assert!(!c.summary_exists);
}

#[test]
fn unapproved_candidate_is_blocked_for_approval() {
    let c = release_candidate_context(
        "run-7",
        Some(summary()),
        None,
        Some(report()),
        Some(queue_item("ready", "ok")),
        Some(StoredApproval { decision: "reject".to_string(), created_at: 5 }),
        "useful",
        None,
        None,
    );
    let p = build_release_preflight(&c);
    assert!(!p.allowed);
    assert!(p.blockers.contains(&"approval_required".to_string()));
    assert!(p.blockers.contains(&"not_approved".to_string()));
}

#[test]
fn bundle_id_is_derived_from_the_preflight() {
    let mut m = generate_safe_mutation();
    m.target_file = "tests/t.rs".to_string();
    let c = release_candidate_context(
        "run-7",
        Some(summary()),
        Some(m),
        Some(report()),
        Some(queue_item("ready", "ok")),
        Some(StoredApproval { decision: "approve".to_string(), created_at: 5 }),
        "useful",
        Some("r.md".to_string()),
        Some("+ diff".to_string()),
    );
    let p = build_release_preflight(&c);
    assert!(p.allowed, "{:?}", p.blockers);
    let paths = ReleasePaths {
        bundle_path: "b".to_string(),
        manifest_path: "m".to_string(),
        rollback_path: "r".to_string(),
        changelog_path: "c".to_string(),
        preflight_report_path: "p".to_string(),
    };
    let a = release_from_preflight(&p, &c, "0.80", "0.10", &paths).unwrap();
    let id = release_id_from_preflight(&p, "0.80", "0.10");
    assert!(id.starts_with("release-") && id.ends_with("-run-7"));
    assert_eq!(a.bundle.release_id, id);
    assert_eq!(a.manifest.release_id, id);
    assert_eq!(a.rollback.release_id, id);
}

#[test]
fn proof_counts_split_the_queue() {
    let items = vec![queue_item("ready", "ok"), queue_item("blocked", "ok"), queue_item("ready", "failed")];
    let counts = queue_proof_counts(&items);
    assert_eq!(counts.replay_passed_candidates, 2);
    assert_eq!(counts.ready_candidates, 2);
    assert_eq!(counts.blocked_candidates, 1);
}

#[test]
fn release_ids_are_safe_file_names() {
    let c = release_candidate_context(
        "run:7/../a b",
        Some(summary()),
        None,
        Some(report()),
        Some(queue_item("ready", "ok")),
        None,
        "useful",
        None,
        None,
    );
    let p = build_release_preflight(&c);
    let id = release_id_from_preflight(&p, "0.80", "0.10");
    assert!(id.chars().all(|ch| ch.is_ascii_alphanumeric() || ch == '-' || ch == '_'));
    assert!(id.starts_with("release-"));
    assert!(id.ends_with("-run-7----a-b"));
    assert_eq!(id.len(), "release-".len() + 8 + 1 + "run-7----a-b".len());
}
