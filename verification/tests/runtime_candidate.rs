use eva_runtime::contracts::{FuturePhaseEntry, FuturePhaseRegistry, ProofReport};
use eva_runtime::evolution::proof_report::{print_eva_status, print_proof_report};
use eva_runtime::evolution::runtime_candidate::{phase_lines, proof_support_flags, release_candidate_status};
use eva_runtime::evolution::runtime_validation::proof_support_count;

fn sample_report() -> ProofReport {
    ProofReport {
        generated_at: 1,
        local_corpus_ingestion_support: true,
        read_only_corpus_safety: true,
        task_suggestion_support: true,
        campaign_diagnostics_support: true,
        zero_yield_task_adjustment_support: true,
        bounded_campaign_loop_support: true,
        recombination_fallback_support: true,
        replay_review_support: true,
        promotion_queue_support: true,
        supervised_task_support: true,
        governance_runtime_support: true,
        release_runtime_support: true,
        release_health_support: true,
        artifact_audit_support: true,
        determinism_audit_support: true,
        preflight_gate_v2_support: true,
        release_ledger_support: true,
        future_phase_registry_support: true,
        operator_runbook_support: true,
        operations_runtime_support: true,
        pr_package_support: true,
        external_patch_package_support: true,
        self_review_package_support: true,
        operator_console_support: true,
        capability_policy_support: true,
        trust_decision_support: true,
        evidence_bundle_support: true,
        workspace_snapshot_support: true,
        recovery_manifest_support: true,
        preflight_gate_v3_support: true,
        trust_proof_report_support: true,
        runtime_candidate_support: true,
        runtime_validation_support: true,
        runtime_service_metadata_support: true,
        stable_cli_contract_support: true,
        final_rc_report_support: true,
        auto_promote: false,
        operator_approval_required: true,
        forbidden_target_preservation: true,
        total_runs: 12,
        candidate_count: 3,
        replay_passed_candidates: 2,
        promoted_candidates: 0,
        ready_candidates: 1,
        blocked_candidates: 2,
        approved_count: 1,
        rejected_count: 0,
        deferred_count: 0,
        release_count: 1,
        release_ledger_count: 1,
        latest_release_id: Some("rel-1".to_string()),
        latest_bounded_run_id: None,
        latest_supervised_run_id: None,
    }
}

#[test]
fn rc_status_needs_green_validation_and_an_approved_candidate() {
    assert_eq!(release_candidate_status("blocked", 1, "pass"), "blocked");
    assert_eq!(release_candidate_status("green", 0, "pass"), "warn");
    assert_eq!(release_candidate_status("green", 1, "warn"), "warn");
    assert_eq!(release_candidate_status("green", 1, "pass"), "pass");
    assert_eq!(release_candidate_status("yellow", 1, "pass"), "warn");
}

#[test]
fn phases_are_split_into_completed_and_planned() {
    let entry = |phase: &str, name: &str, status: &str| FuturePhaseEntry {
        phase: phase.to_string(),
        name: name.to_string(),
        status: status.to_string(),
        allowed_now: false,
        reason: String::new(),
    };
    let registry = FuturePhaseRegistry {
        generated_at: 1,
        entries: vec![
            entry("10.0", "CI", "completed_by_phase_20"),
            entry("11.0", "Daemon", "planned"),
            entry("12.0", "Other", "deferred"),
        ],
    };
    assert_eq!(phase_lines(&registry, true), vec!["10.0 CI".to_string()]);
    assert_eq!(phase_lines(&registry, false), vec!["11.0 Daemon".to_string()]);
}

#[test]
fn support_flags_list_every_set_flag() {
    let mut p = sample_report();
    assert_eq!(proof_support_flags(&p).len(), 36);
    assert_eq!(proof_support_count(&p), 36);
    p.pr_package_support = false;
    p.final_rc_report_support = false;
    let flags = proof_support_flags(&p);
    assert_eq!(flags.len(), 34);
    assert_eq!(flags[0], "local_corpus_ingestion_support");
    assert!(!flags.contains(&"pr_package_support".to_string()));
    assert_eq!(proof_support_count(&p), 34);
}

#[test]
fn proof_report_lists_flags_then_counters() {
    let text = print_proof_report(&sample_report());
    assert!(text.starts_with("# EVA Proof Report\n\nlocal_corpus_ingestion_support=true\n"));
    assert!(text.contains("\ntotal_runs=12\ncandidate_count=3\n"));
    assert!(text.ends_with("latest_release_id=rel-1\nlatest_bounded_run_id=none\nlatest_supervised_run_id=none\n"));
}

#[test]
fn eva_status_is_one_line() {
    assert_eq!(
        print_eva_status(&sample_report(), &None),
        "eva_status: candidates=3 ready=1 blocked=2 replay_passed=2 promoted=0 approved=1 rejected=0 deferred=0 releases=1 release_latest=rel-1 bounded_latest=none supervised_latest=none proof_snapshot_latest=none auto_promote=false"
    );
}
