use eva_runtime::contracts::{
    ArtifactAuditReport, CandidateState, DeterminismAuditReport, GovernanceStatus,
    PromotionQueueItem, RuntimeValidation,
};
use eva_runtime::evolution::artifact_audit::{
    build_artifact_audit, contains_auto_promote_true, gitignore_patterns, is_ignored,
    print_artifact_audit, runtime_paths, tracked_files, trim_end_char, trim_start_char,
};
use eva_runtime::evolution::evolution_core_readiness::build_evolution_core_readiness;
use eva_runtime::evolution::future_phase::{build_future_phase_registry, print_future_phases};
use eva_runtime::evolution::preflight_gate::{build_preflight_gate, print_preflight_gate};
use eva_runtime::evolution::release_health::{build_release_health, print_release_health};
use eva_runtime::evolution::runtime_cli_contract::build_runtime_cli_contract;

fn item(lifecycle: &str, replay: &str, class: &str) -> PromotionQueueItem {
    PromotionQueueItem {
        run_id: "run-1".to_string(),
        mutation_kind: "addunittest".to_string(),
        mutation_class: class.to_string(),
        target_file: "tests/evolution_generated_tests.rs".to_string(),
        replay_status: replay.to_string(),
        promotion_state: "pending".to_string(),
        promotion_allowed: false,
        promotion_blockers: Vec::new(),
        report_path: String::new(),
        lifecycle_state: lifecycle.to_string(),
        candidate_state: CandidateState::Ready,
        candidate_state_reason: String::new(),
        cargo_test_ok: Some(true),
        cargo_run_ok: Some(true),
        duplicate_rejected: false,
        promoted: false,
        reason_ru: String::new(),
        updated_at: 1,
    }
}

fn governance(auto_promote: bool) -> GovernanceStatus {
    GovernanceStatus {
        approved_count: 1,
        rejected_count: 0,
        deferred_count: 0,
        promotion_ready_approved_count: 1,
        auto_promote,
        operator_approval_required: true,
    }
}

fn clean_artifact() -> ArtifactAuditReport {
    ArtifactAuditReport {
        generated_at: 1,
        checked_paths: Vec::new(),
        tracked_runtime_artifacts: Vec::new(),
        untracked_runtime_artifacts: Vec::new(),
        ignored_runtime_artifacts: Vec::new(),
        sandbox_leaks: Vec::new(),
        should_fail_release: false,
        recommendations_ru: Vec::new(),
    }
}

fn determinism(ok: bool) -> DeterminismAuditReport {
    DeterminismAuditReport {
        generated_at: 1,
        checked_documents: Vec::new(),
        missing_required_fields: Vec::new(),
        unstable_field_warnings: Vec::new(),
        full_source_content_warnings: Vec::new(),
        deterministic_enough: ok,
        recommendations_ru: Vec::new(),
    }
}

fn strings(v: &[&str]) -> Vec<String> {
    v.iter().map(|s| s.to_string()).collect()
}

#[test]
fn trim_char_helpers_strip_every_repeat() {
    assert_eq!(trim_start_char("//a/b//", '/'), "a/b//");
    assert_eq!(trim_end_char("//a/b//", '/'), "//a/b");
    assert_eq!(trim_start_char("////", '/'), "");
    assert_eq!(trim_end_char("abc", '/'), "abc");
}

#[test]
fn gitignore_patterns_skip_blank_lines_and_comments() {
    let patterns = gitignore_patterns("# runtime\n/memory/\n\n  sandboxes/  \r\ntarget\n");
    assert_eq!(patterns, strings(&["memory/", "sandboxes/", "target"]));
}

#[test]
fn tracked_files_are_sorted_and_unique() {
    let files = tracked_files("src/b.rs\0src/a.rs\0\0src/b.rs\0");
    assert_eq!(files, strings(&["src/a.rs", "src/b.rs"]));
    assert!(tracked_files("").is_empty());
}

#[test]
fn ignored_paths_follow_gitignore_prefixes() {
    let patterns = strings(&["memory/", "sandboxes"]);
    assert!(is_ignored("memory/releases/", &patterns));
    assert!(is_ignored("/sandboxes/", &patterns));
    assert!(!is_ignored("memoryx/", &patterns));
    assert!(!is_ignored(".eva-runtime-tests/", &patterns));
}

#[test]
fn auto_promote_marker_is_found_with_or_without_space() {
    assert!(contains_auto_promote_true("{\"auto_promote\": true}"));
    assert!(contains_auto_promote_true("{\"auto_promote\":true}"));
    assert!(!contains_auto_promote_true("{\"auto_promote\": false}"));
}

#[test]
fn runtime_paths_are_sorted() {
    let paths = runtime_paths();
    assert_eq!(paths.len(), 16);
    assert_eq!(paths[0], ".eva-evolution-tests/");
    assert_eq!(paths[15], "sandboxes/");
    let mut sorted = paths.clone();
    sorted.sort();
    assert_eq!(paths, sorted);
}

#[test]
fn clean_project_passes_artifact_audit() {
    let report = build_artifact_audit(7, &Vec::new(), &Vec::new(), &Vec::new(), &Vec::new(), &Vec::new());
    assert_eq!(report.generated_at, 7);
    assert_eq!(report.checked_paths.len(), 16);
    assert!(report.tracked_runtime_artifacts.is_empty());
    assert!(report.untracked_runtime_artifacts.is_empty());
    assert!(report.sandbox_leaks.is_empty());
    assert!(!report.should_fail_release);
    assert_eq!(
        report.recommendations_ru,
        strings(&["Runtime-артефакты выглядят изолированными и metadata-only."])
    );
}

#[test]
fn tracked_runtime_files_and_sandbox_leaks_fail_the_audit() {
    let git_files = strings(&[
        "memory/releases/r1.json",
        "memory/releases/.gitkeep",
        "src/lib.rs",
    ]);
    let mut exists = vec![false; 16];
    exists[15] = true;
    let entries = vec![
        (".gitkeep".to_string(), "sandboxes/.gitkeep".to_string()),
        ("run-1".to_string(), "sandboxes/run-1".to_string()),
    ];
    let report = build_artifact_audit(1, &strings(&["sandboxes/"]), &git_files, &exists, &Vec::new(), &entries);
    assert_eq!(report.tracked_runtime_artifacts, strings(&["memory/releases/r1.json"]));
    assert_eq!(report.untracked_runtime_artifacts, strings(&["sandboxes/"]));
    assert_eq!(report.ignored_runtime_artifacts, strings(&["sandboxes/"]));
    assert_eq!(report.sandbox_leaks, strings(&["sandboxes/run-1"]));
    assert!(report.should_fail_release);
    assert_eq!(
        report.recommendations_ru,
        strings(&[
            "Удалить runtime-артефакты из git index и оставить их под .gitignore.",
            "Очистить sandboxes перед release gate.",
        ])
    );
    assert_eq!(
        print_artifact_audit(&report),
        "artifact_audit: checked=16 tracked=1 untracked=1 ignored=1 sandbox_leaks=1 should_fail_release=true\nrecommendations=Удалить runtime-артефакты из git index и оставить их под .gitignore.; Очистить sandboxes перед release gate."
    );
}

#[test]
fn auto_promote_marker_fails_the_audit_only_where_the_path_exists() {
    let mut markers = vec![false; 16];
    markers[2] = true;
    let absent = build_artifact_audit(1, &Vec::new(), &Vec::new(), &Vec::new(), &markers, &Vec::new());
    assert!(!absent.should_fail_release);
    let mut exists = vec![false; 16];
    exists[2] = true;
    let present = build_artifact_audit(1, &Vec::new(), &Vec::new(), &exists, &markers, &Vec::new());
    assert!(present.should_fail_release);
    assert_eq!(present.untracked_runtime_artifacts, strings(&["memory/approvals/"]));
    assert_eq!(
        present.recommendations_ru,
        strings(&["Проверить runtime-память: найден маркер auto_promote=true."])
    );
}

#[test]
fn healthy_release_runtime_is_green() {
    let items = vec![item("ready", "ok", "useful")];
    let h = build_release_health(
        5,
        &items,
        &governance(false),
        &clean_artifact(),
        1,
        Some("r1".to_string()),
        true,
        true,
    );
    assert_eq!(h.health_score, 100);
    assert_eq!(h.health_grade, "green");
    assert_eq!(h.ready_count, 1);
    assert_eq!(h.blocked_count, 0);
    assert_eq!(h.replay_passed_candidates, 1);
    assert!(h.blockers.is_empty());
    assert_eq!(
        h.recommendations_ru,
        strings(&["Release runtime готов к metadata-only проверкам."])
    );
    assert_eq!(
        print_release_health(&h),
        "release_health: grade=green score=100 releases=1 latest=r1 candidates=1 ready=1 blocked=0 auto_promote=false approval_required=true blockers=none"
    );
}

#[test]
fn unsafe_release_runtime_is_red() {
    let mut artifact = clean_artifact();
    artifact.sandbox_leaks.push("sandboxes/run-1".to_string());
    let h = build_release_health(5, &Vec::new(), &governance(true), &artifact, 0, None, false, false);
    assert_eq!(h.health_score, 25);
    assert_eq!(h.health_grade, "red");
    assert!(!h.auto_promote);
    assert!(h.operator_approval_required);
    assert_eq!(
        h.blockers,
        strings(&["auto_promote_true", "sandbox_leaks_detected", "governance_not_ready"])
    );
    assert_eq!(h.recommendations_ru.len(), 3);
}

#[test]
fn blocked_candidates_cost_at_most_thirty_points() {
    let items = vec![item("blocked", "failed", "useful"); 12];
    let h = build_release_health(5, &items, &governance(false), &clean_artifact(), 1, None, true, true);
    assert_eq!(h.blocked_count, 12);
    assert_eq!(h.health_score, 70);
    assert_eq!(h.health_grade, "yellow");
    assert!(h.health_score <= 100);
}

#[test]
fn preflight_gate_passes_with_an_approved_candidate() {
    let items = vec![item("ready", "ok", "useful")];
    let h = build_release_health(5, &items, &governance(false), &clean_artifact(), 1, None, true, true);
    let g = build_preflight_gate(9, &clean_artifact(), &determinism(true), &h, &governance(false), 1);
    assert_eq!(g.gate_status, "pass");
    assert_eq!(g.release_preflight_status, "candidate_available");
    assert_eq!(g.governance_status, "ready");
    assert_eq!(g.artifact_audit_status, "pass");
    assert_eq!(g.determinism_status, "pass");
    assert!(g.blockers.is_empty());
    assert!(g.warnings.is_empty());
    assert_eq!(
        g.next_actions_ru,
        strings(&["Можно создавать metadata-only release bundle для approved кандидата."])
    );
}

#[test]
fn preflight_gate_warns_without_a_candidate() {
    let items = vec![item("ready", "ok", "useful")];
    let h = build_release_health(5, &items, &governance(false), &clean_artifact(), 1, None, true, true);
    let g = build_preflight_gate(9, &clean_artifact(), &determinism(true), &h, &governance(false), 0);
    assert_eq!(g.gate_status, "warn");
    assert_eq!(g.warnings, strings(&["no_approved_release_candidate"]));
    assert_eq!(g.release_preflight_status, "no_candidate");
    assert_eq!(g.next_actions_ru.len(), 2);
    assert_eq!(
        print_preflight_gate(&g),
        "preflight_gate: status=warn health=green auto_promote=false approval_required=true blockers=none warnings=no_approved_release_candidate\nnext_actions=Система безопасна, но нет approved release-кандидата.; Запустите promotion queue, replay/review и operator approval для кандидата."
    );
}

#[test]
fn preflight_gate_fails_on_blockers_sorted() {
    let mut artifact = clean_artifact();
    artifact.sandbox_leaks.push("sandboxes/x".to_string());
    artifact.should_fail_release = true;
    let h = build_release_health(5, &Vec::new(), &governance(true), &artifact, 0, None, false, false);
    let g = build_preflight_gate(9, &artifact, &determinism(false), &h, &governance(true), 0);
    assert_eq!(g.gate_status, "fail");
    assert_eq!(
        g.blockers,
        strings(&[
            "auto_promote_true",
            "determinism_audit_failed",
            "release_health_red",
            "sandbox_leaks",
        ])
    );
    assert_eq!(g.governance_status, "blocked");
    assert_eq!(g.artifact_audit_status, "fail");
    assert_eq!(g.determinism_status, "fail");
    assert!(!g.auto_promote);
}

fn validation(status: &str, approved: Option<&str>, bundle: Option<&str>) -> RuntimeValidation {
    RuntimeValidation {
        validation_id: "v1".to_string(),
        generated_at: 1,
        status: status.to_string(),
        blockers: Vec::new(),
        warnings: Vec::new(),
        checks: Vec::new(),
        next_actions: Vec::new(),
        green_conditions: Vec::new(),
        missing_green_conditions: Vec::new(),
        approved_release_candidate: approved.map(|s| s.to_string()),
        release_bundle: bundle.map(|s| s.to_string()),
        metrics_summary: "runs=1".to_string(),
        candidate_queue_summary: String::new(),
        sandbox_state: "clean".to_string(),
        auto_promote: false,
        operator_approval_required: true,
    }
}

#[test]
fn core_readiness_follows_runtime_validation() {
    let ready = build_evolution_core_readiness(&validation("green", Some("run-1"), Some("rel-1")), false);
    assert!(ready.runtime_green);
    assert!(ready.phase_16_allowed);
    assert!(ready.tui_hydration_ok);
    assert!(ready.metrics_truth_ok);
    assert!(!ready.candidate_queue_truth_ok);
    assert!(ready.blockers.is_empty());

    let blocked = build_evolution_core_readiness(&validation("yellow", None, None), false);
    assert!(!blocked.phase_16_allowed);
    assert_eq!(
        blocked.blockers,
        strings(&[
            "runtime_validation_status=yellow",
            "approved_release_candidate_missing",
            "release_bundle_missing",
        ])
    );
    let with_release = build_evolution_core_readiness(&validation("yellow", None, None), true);
    assert!(with_release.release_bundle_exists);
}

#[test]
fn no_future_phase_is_allowed_now() {
    let registry = build_future_phase_registry(3);
    assert_eq!(registry.generated_at, 3);
    assert_eq!(registry.entries.len(), 4);
    assert!(registry.entries.iter().all(|e| !e.allowed_now && e.status == "planned"));
    assert_eq!(registry.entries[0].phase, "10.0");
    assert_eq!(registry.entries[3].name, "Controlled Self-Modification Review Runtime");
    let listing = print_future_phases();
    assert!(listing.starts_with(
        "Phase 10.0: CI/PR Integration Runtime status=planned allowed_now=false reason=requires stable local release gate first\n"
    ));
    assert_eq!(listing.lines().count(), 4);
}

#[test]
fn cli_contract_commands_never_mutate_source() {
    let report = build_runtime_cli_contract(4);
    assert_eq!(report.generated_at, 4);
    assert_eq!(report.commands[0].command, "--eva-status");
    assert_eq!(report.commands[0].safety_class, "read_only");
    assert!(report.commands.iter().all(|c| !c.mutates_source && !c.mutates_external_repo));
    assert!(report
        .commands
        .iter()
        .all(|c| c.requires_operator_approval == (c.safety_class == "blocked_if_untrusted")));
    let trust = report.commands.iter().find(|c| c.command == "--trust-decision").unwrap();
    assert!(trust.requires_operator_approval);
}

#[test]
fn cli_contract_commands_are_distinct_and_three_need_approval() {
    let report = build_runtime_cli_contract(0);
    assert_eq!(report.commands.len(), 25);
    let mut names: Vec<&str> = report.commands.iter().map(|c| c.command.as_str()).collect();
    names.sort();
    names.dedup();
    assert_eq!(names.len(), 25);
    let approval: Vec<&str> = report
        .commands
        .iter()
        .filter(|c| c.requires_operator_approval)
        .map(|c| c.command.as_str())
        .collect();
    assert_eq!(approval, vec!["--trust-decision", "--preflight-gate-v3", "--release-approve <RUN_ID>"]);
}
