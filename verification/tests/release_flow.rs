use eva_runtime::contracts::{CandidateState, PromotionQueueItem, ReleaseLedgerRecord};
use eva_runtime::evolution::changelog::bullet_list;
use eva_runtime::evolution::release_bundle::{
    build_release_bundle, latest_release_id, latest_release_or_none, list_releases, print_release_status,
    release_count, ReleaseEntry, ReleasePaths,
};
use eva_runtime::evolution::release_candidate::{build_release_candidate_state, check_release_approval};
use eva_runtime::evolution::release_ledger::{
    order_release_ledger, print_release_ledger, record_release_attempt, release_ledger_count,
};
use eva_runtime::evolution::release_preflight::{
    build_release_preflight, normalize_release_id_fragment, ReleaseCandidateContext,
};

fn strings(v: &[&str]) -> Vec<String> {
    v.iter().map(|s| s.to_string()).collect()
}

fn entry(id: &str, created_at: u64) -> ReleaseEntry {
    ReleaseEntry { release_id: id.to_string(), created_at }
}

fn ready_item() -> PromotionQueueItem {
    PromotionQueueItem {
        run_id: "run-7".to_string(),
        mutation_kind: "addunittest".to_string(),
        mutation_class: "useful".to_string(),
        target_file: "tests/evolution_generated_tests.rs".to_string(),
        replay_status: "ok".to_string(),
        promotion_state: "ready".to_string(),
        promotion_allowed: true,
        promotion_blockers: Vec::new(),
        report_path: "memory/candidates/run-7.md".to_string(),
        lifecycle_state: "ready".to_string(),
        candidate_state: CandidateState::Ready,
        candidate_state_reason: String::new(),
        cargo_test_ok: Some(true),
        cargo_run_ok: Some(true),
        duplicate_rejected: false,
        promoted: false,
        reason_ru: String::new(),
        updated_at: 3,
    }
}

fn context() -> ReleaseCandidateContext {
    ReleaseCandidateContext {
        run_id: "run-7".to_string(),
        mutation_kind: "addunittest".to_string(),
        mutation_class: "useful".to_string(),
        target_file: "tests/evolution_generated_tests.rs".to_string(),
        replay_status: "ok".to_string(),
        approval_required: true,
        approved: true,
        promotion_queue_state: "ready".to_string(),
        useful_change: true,
        candidate_report_path: Some("memory/candidates/run-7.md".to_string()),
        generated_at: 42,
        candidate_diff_summary: Some("+ test".to_string()),
        queue_item: Some(ready_item()),
        approval_decision: Some("approve".to_string()),
        summary_exists: true,
    }
}

fn paths() -> ReleasePaths {
    ReleasePaths {
        bundle_path: "out/b.json".to_string(),
        manifest_path: "out/m.json".to_string(),
        rollback_path: "out/r.json".to_string(),
        changelog_path: "out/c.md".to_string(),
        preflight_report_path: "out/p.json".to_string(),
    }
}

#[test]
fn releases_are_listed_oldest_first() {
    let entries = vec![entry("rel-b", 5), entry("rel-a", 5), entry("rel-c", 1)];
    assert_eq!(list_releases(entries.clone()), strings(&["rel-c", "rel-a", "rel-b"]));
    assert_eq!(release_count(&entries), 3);
    assert_eq!(latest_release_id(entries.clone()), Some("rel-b".to_string()));
    assert_eq!(latest_release_or_none(Vec::new()), "none");
    assert_eq!(
        print_release_status(entries),
        "releases=3 latest=rel-b auto_promote=false approval_required=true"
    );
}

#[test]
fn release_id_fragment_replaces_and_trims() {
    assert_eq!(normalize_release_id_fragment("run:7/a.b"), "run-7-a-b");
    assert_eq!(normalize_release_id_fragment("--x_y--"), "x_y");
    assert_eq!(normalize_release_id_fragment("::"), "");
}

#[test]
fn approved_useful_candidate_passes_preflight() {
    let report = build_release_preflight(&context());
    assert!(report.allowed);
    assert!(report.blockers.is_empty());
    assert_eq!(report.reason_ru, "Release preflight разрешил metadata-only bundle.");
    assert_eq!(report.run_id, "run-7");
    assert_eq!(report.generated_at, 42);
}

#[test]
fn preflight_blockers_are_sorted_and_explained() {
    let mut c = context();
    c.approved = false;
    c.replay_status = "failed".to_string();
    c.target_file = "src/lib.rs".to_string();
    c.candidate_diff_summary = None;
    let report = build_release_preflight(&c);
    assert!(!report.allowed);
    assert_eq!(
        report.blockers,
        strings(&[
            "approval_required",
            "forbidden_target",
            "missing_diff",
            "not_approved",
            "replay_not_ok",
        ])
    );
    assert_eq!(
        report.reason_ru,
        "Release preflight заблокировал bundle: approval_required, forbidden_target, missing_diff, not_approved, replay_not_ok."
    );
}

#[test]
fn blocked_preflight_refuses_the_bundle() {
    let mut c = context();
    c.useful_change = false;
    let report = build_release_preflight(&c);
    let result = build_release_bundle(&report, &c, "rel-run-7", &paths());
    match result {
        Err(e) => assert_eq!(e, "release preflight blocked bundle: useful_change_false"),
        Ok(_) => panic!("bundle must be refused"),
    }
}

#[test]
fn allowed_preflight_builds_a_metadata_only_bundle() {
    let c = context();
    let report = build_release_preflight(&c);
    let artifacts = build_release_bundle(&report, &c, "rel-run-7", &paths()).unwrap();
    assert_eq!(artifacts.bundle.release_id, "rel-run-7");
    assert_eq!(artifacts.bundle.source_run_id, "run-7");
    assert_eq!(artifacts.bundle.approval_status, "approve");
    assert_eq!(artifacts.bundle.candidate_diff_summary, "+ test");
    assert_eq!(artifacts.bundle.created_at, 42);
    assert!(!artifacts.manifest.auto_promote);
    assert!(!artifacts.manifest.source_mutated);
    assert!(artifacts.manifest.rollback_available);
    assert_eq!(artifacts.rollback.rollback_type, "metadata_only");
}

#[test]
fn release_candidate_state_picks_the_smallest_approved_run() {
    let state = build_release_candidate_state(
        2,
        "pass".to_string(),
        "green".to_string(),
        Some("rel-1".to_string()),
        &strings(&["run-9", "run-3"]),
    );
    assert_eq!(state.approved_release_candidate, Some("run-3".to_string()));
    assert!(state.operator_approved);
    assert!(state.release_bundle_exists);
    assert!(state.operator_approval_required);
    assert!(state.blockers.is_empty());
    let none = build_release_candidate_state(0, "pass".to_string(), "green".to_string(), None, &Vec::new());
    assert_eq!(none.approved_release_candidate, None);
    assert!(!none.operator_approved);
}

#[test]
fn release_approval_needs_a_ready_replayed_candidate() {
    assert!(check_release_approval(&ready_item()).is_ok());
    let mut item = ready_item();
    item.candidate_state = CandidateState::Blocked;
    item.replay_status = "failed".to_string();
    item.cargo_run_ok = None;
    item.promotion_blockers = strings(&["zeta", "alpha"]);
    let blockers = check_release_approval(&item).unwrap_err();
    assert_eq!(
        blockers,
        strings(&[
            "alpha",
            "candidate_state=blocked",
            "cargo_run_not_ok",
            "replay_not_ok",
            "zeta",
        ])
    );
}

fn record(id: &str, at: u64) -> ReleaseLedgerRecord {
    ReleaseLedgerRecord {
        release_id: id.to_string(),
        status: "recorded".to_string(),
        gate_status: "pass".to_string(),
        health_grade: "green".to_string(),
        approved_candidate_count: 1,
        generated_at: at,
    }
}

#[test]
fn release_attempts_need_a_bundle() {
    match record_release_attempt("rel-x", false, "pass".to_string(), "green".to_string(), 1, 5) {
        Err(e) => assert_eq!(e, "release bundle not found for rel-x"),
        Ok(_) => panic!("missing bundle must be refused"),
    }
    let blocked = record_release_attempt("rel-x", true, "fail".to_string(), "red".to_string(), 0, 5).unwrap();
    assert_eq!(blocked.status, "blocked");
    let ok = record_release_attempt("rel-x", true, "warn".to_string(), "yellow".to_string(), 0, 5).unwrap();
    assert_eq!(ok.status, "recorded");
    assert_eq!(ok.generated_at, 5);
}

#[test]
fn ledger_is_ordered_by_time_then_id() {
    let records = vec![record("b", 2), record("a", 2), record("c", 1)];
    let ordered = order_release_ledger(records.clone());
    let ids: Vec<&str> = ordered.iter().map(|r| r.release_id.as_str()).collect();
    assert_eq!(ids, vec!["c", "a", "b"]);
    assert_eq!(release_ledger_count(&records), 3);
    let listing = print_release_ledger(records);
    assert!(listing.contains("c"));
}

#[test]
fn bullet_list_marks_each_item() {
    let text = bullet_list(&strings(&["one", "two"]));
    assert!(text.contains("one"));
    assert!(text.contains("two"));
}
