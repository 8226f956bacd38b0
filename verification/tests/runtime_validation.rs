use eva_runtime::contracts::{
    ArtifactAuditReport, CapabilityPolicy, DeterminismAuditReport, EvolutionMetrics, GovernanceStatus,
    PreflightGateV3Report, ProofReport, ReleaseCandidateState, ReleaseHealthReport, WorkspaceSnapshot,
};
use eva_runtime::evolution::promotion_queue::refresh_promotion_queue;
use eva_runtime::evolution::runtime_validation::{apply_green_gate_details, evaluate_runtime_validation};

fn proof_report() -> ProofReport {
    ProofReport {
        generated_at: 1,
        local_corpus_ingestion_support: true,
        read_only_corpus_safety: true,
        task_suggestion_support: true,
        campaign_diagnostics_support: true,
        zero_yield_task_adjustment_support: true,
        bounded_campaign_loop_support: true,
        recombination_fallback_support: true,
        replay_review_support: true,
        promotion_queue_support: true,
        supervised_task_support: true,
        governance_runtime_support: true,
        release_runtime_support: true,
        release_health_support: true,
        artifact_audit_support: true,
        determinism_audit_support: true,
        preflight_gate_v2_support: true,
        release_ledger_support: true,
        future_phase_registry_support: true,
        operator_runbook_support: true,
        operations_runtime_support: true,
        pr_package_support: true,
        external_patch_package_support: true,
        self_review_package_support: true,
        operator_console_support: true,
        capability_policy_support: true,
        trust_decision_support: true,
        evidence_bundle_support: true,
        workspace_snapshot_support: true,
        recovery_manifest_support: true,
        preflight_gate_v3_support: true,
        trust_proof_report_support: true,
        runtime_candidate_support: true,
        runtime_validation_support: true,
        runtime_service_metadata_support: true,
        stable_cli_contract_support: true,
        final_rc_report_support: true,
        auto_promote: false,
        operator_approval_required: true,
        forbidden_target_preservation: true,
        total_runs: 12,
        candidate_count: 3,
        replay_passed_candidates: 2,
        promoted_candidates: 0,
        ready_candidates: 1,
        blocked_candidates: 2,
        approved_count: 1,
        rejected_count: 0,
        deferred_count: 0,
        release_count: 1,
        release_ledger_count: 1,
        latest_release_id: Some("rel-1".to_string()),
        latest_bounded_run_id: None,
        latest_supervised_run_id: None,
    }
}

fn policy() -> CapabilityPolicy {
    CapabilityPolicy {
        auto_promote_allowed: false,
        network_push_allowed: false,
        merge_allowed: false,
        external_repo_mutation_allowed: false,
        self_apply_allowed: false,
        source_mutation_without_approval_allowed: false,
        metadata_generation_allowed: true,
        local_read_only_inspection_allowed: true,
        sandboxed_validation_allowed_when_isolated: true,
        denied_capabilities: Vec::new(),
        allowed_capabilities: Vec::new(),
    }
}

fn governance() -> GovernanceStatus {
    GovernanceStatus {
        approved_count: 1,
        rejected_count: 0,
        deferred_count: 0,
        promotion_ready_approved_count: 1,
        auto_promote: false,
        operator_approval_required: true,
    }
}

fn health() -> ReleaseHealthReport {
    ReleaseHealthReport {
        generated_at: 1,
        release_runtime_support: true,
        latest_release_id: None,
        release_count: 0,
        candidate_count: 1,
        approved_count: 1,
        ready_count: 1,
        blocked_count: 0,
        replay_passed_candidates: 1,
        promoted_candidates: 0,
        governance_ready: true,
        proof_ready: true,
        preflight_ready: true,
        sandbox_leaks_detected: false,
        auto_promote: false,
        operator_approval_required: true,
        health_score: 90,
        health_grade: "green".to_string(),
        blockers: Vec::new(),
        recommendations_ru: Vec::new(),
    }
}

fn artifact() -> ArtifactAuditReport {
    ArtifactAuditReport {
        generated_at: 1,
        checked_paths: Vec::new(),
        tracked_runtime_artifacts: Vec::new(),
        untracked_runtime_artifacts: Vec::new(),
        ignored_runtime_artifacts: Vec::new(),
        sandbox_leaks: Vec::new(),
        should_fail_release: false,
        recommendations_ru: Vec::new(),
    }
}

fn determinism() -> DeterminismAuditReport {
    DeterminismAuditReport {
        generated_at: 1,
        checked_documents: Vec::new(),
        missing_required_fields: Vec::new(),
        unstable_field_warnings: Vec::new(),
        full_source_content_warnings: Vec::new(),
        deterministic_enough: true,
        recommendations_ru: Vec::new(),
    }
}

fn gate(status: &str) -> PreflightGateV3Report {
    PreflightGateV3Report {
        status: status.to_string(),
        blockers: Vec::new(),
        warnings: Vec::new(),
        auto_promote: false,
        operator_approval_required: true,
    }
}

fn snapshot(leaks: usize, modified: usize) -> WorkspaceSnapshot {
    WorkspaceSnapshot { snapshot_id: "s".to_string(), modified_count: modified, untracked_count: 0, sandbox_leak_count: leaks }
}

#[test]
fn clean_runtime_passes_validation() {
    let v = evaluate_runtime_validation(
        7, &policy(), &governance(), &proof_report(), &health(), &artifact(), &determinism(), &gate("pass"), &snapshot(0, 0),
    );
    assert_eq!(v.validation_id, "runtime-validation-7");
    assert!(v.blockers.is_empty());
    assert!(v.warnings.is_empty());
    assert_eq!(v.status, "pass");
    assert_eq!(v.checks.len(), 8);
    assert!(!v.auto_promote && v.operator_approval_required);
}

#[test]
fn blocker_causes_and_order() {
    let mut p = policy();
    p.merge_allowed = true;
    let mut pr = proof_report();
    pr.auto_promote = true;
    let v = evaluate_runtime_validation(
        7, &p, &governance(), &pr, &health(), &artifact(), &determinism(), &gate("warn"), &snapshot(2, 1),
    );
    assert_eq!(
        v.blockers,
        vec![
            "auto_promote_true_detected".to_string(),
            "sandbox_leaks_present".to_string(),
            "unsafe_capability_policy".to_string(),
        ]
    );
    assert_eq!(v.warnings, vec!["preflight_gate_v3_warn".to_string(), "workspace_not_clean".to_string()]);
    assert_eq!(v.status, "blocked");
    let mut sorted = v.blockers.clone();
    sorted.sort();
    assert_eq!(sorted, v.blockers);
}

#[test]
fn green_gate_splits_its_conditions() {
    let mut v = evaluate_runtime_validation(
        7, &policy(), &governance(), &proof_report(), &health(), &artifact(), &determinism(), &gate("pass"), &snapshot(0, 0),
    );
    let rc = ReleaseCandidateState {
        approved_release_candidate: None,
        approved_count: 0,
        release_bundle_exists: false,
        latest_release_bundle: None,
        operator_approval_required: true,
        operator_approved: false,
        preflight_gate_v3: "pass".to_string(),
        release_health: "green".to_string(),
        blockers: Vec::new(),
        warnings: Vec::new(),
    };
    let metrics = EvolutionMetrics {
        total_runs: 0,
        passed_runs: 0,
        failed_runs: 0,
        real_execution_failed_runs: 0,
        cargo_gate_failed_runs: 0,
        replay_failed_runs: 0,
        safety_rejected_runs: 0,
        duplicate_rejected_runs: 0,
        cosmetic_rejected_runs: 0,
        already_promoted_runs: 0,
        policy_rejected_runs: 0,
        unknown_runs: 0,
        candidate_count: 0,
        replay_passed: 0,
        replay_failed: 0,
        promoted_count: 0,
        last_run_id: None,
    };
    let queue = refresh_promotion_queue(Vec::new(), 3);
    apply_green_gate_details(&mut v, &rc, &metrics, &queue);
    assert_eq!(v.green_conditions.len() + v.missing_green_conditions.len(), 11);
    for g in &v.green_conditions {
        assert!(!v.missing_green_conditions.contains(g));
    }
    assert!(!v.missing_green_conditions.is_empty());
    assert_eq!(v.status, "warn");
}
