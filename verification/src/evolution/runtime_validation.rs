//! Runtime validation: blockers, warnings and checks from the audits, and the green gate.
use vstd::prelude::*;

use crate::contracts::{
    ArtifactAuditReport, CapabilityPolicy, DeterminismAuditReport, EvolutionMetrics,
    GovernanceStatus, PreflightGateV3Report, PromotionQueue, PromotionQueueItem, ProofReport,
    ReleaseCandidateState, ReleaseHealthReport, RuntimeValidation, WorkspaceSnapshot,
};
use crate::text::{
    bool_text, contains, decimal, flag, has_infix, push_bool, push_decimal, push_if, push_owned,
    push_str, sort_dedup, str_eq, strictly_sorted, views, flags_of, lemma_flags_of_contains, lemma_flags_of_ten,
    lemma_flags_of_sorted, lemma_flags_of_step, lemma_sorted_by_neighbours, lt_from, seq_lt,
};

verus! {

/// The policy allows something that must stay forbidden.
pub open spec fn policy_unsafe(p: CapabilityPolicy) -> bool {
    p.auto_promote_allowed || p.network_push_allowed || p.merge_allowed
        || p.external_repo_mutation_allowed || p.self_apply_allowed
        || p.source_mutation_without_approval_allowed
}

/// The blockers of a runtime validation, in sorted order.
pub open spec fn runtime_blockers(
    policy: CapabilityPolicy,
    governance: GovernanceStatus,
    proof: ProofReport,
    health: ReleaseHealthReport,
    artifact: ArtifactAuditReport,
    determinism: DeterminismAuditReport,
    gate_v3: PreflightGateV3Report,
    snapshot: WorkspaceSnapshot,
) -> Seq<Seq<char>> {
    flag(artifact.should_fail_release || artifact.sandbox_leaks.len() > 0, "artifact_audit_failed"@)
        + flag(proof.auto_promote || health.auto_promote || gate_v3.auto_promote, "auto_promote_true_detected"@)
        + flag(!determinism.deterministic_enough, "determinism_audit_failed"@)
        + flag(determinism.full_source_content_warnings.len() > 0, "full_source_content_detected"@)
        + flag(!policy.sandboxed_validation_allowed_when_isolated, "isolated_sandbox_validation_disabled"@)
        + flag(
        !proof.operator_approval_required || !health.operator_approval_required
            || !governance.operator_approval_required || !gate_v3.operator_approval_required,
        "operator_approval_disabled"@,
    ) + flag(gate_v3.status@ == "fail"@, "preflight_gate_v3_failed"@)
        + flag(
        !policy.metadata_generation_allowed || !policy.local_read_only_inspection_allowed,
        "required_metadata_capabilities_missing"@,
    ) + flag(snapshot.sandbox_leak_count > 0, "sandbox_leaks_present"@)
        + flag(policy_unsafe(policy), "unsafe_capability_policy"@)
}

/// A runtime validation is blocked for an unsafe capability policy exactly
/// when the policy allows one of the unsafe capabilities; for a detected
/// automatic promotion exactly when the proof report, the release health or
/// the preflight gate allows one; and for sandbox leaks exactly when the
/// workspace snapshot counts some.
pub proof fn lemma_runtime_blocker_causes(
    policy: CapabilityPolicy,
    governance: GovernanceStatus,
    proof: ProofReport,
    health: ReleaseHealthReport,
    artifact: ArtifactAuditReport,
    determinism: DeterminismAuditReport,
    gate_v3: PreflightGateV3Report,
    snapshot: WorkspaceSnapshot,
)
    ensures
        runtime_blockers(policy, governance, proof, health, artifact, determinism, gate_v3, snapshot).contains(
            "unsafe_capability_policy"@,
        ) <==> policy_unsafe(policy),
        runtime_blockers(policy, governance, proof, health, artifact, determinism, gate_v3, snapshot).contains(
            "auto_promote_true_detected"@,
        ) <==> (proof.auto_promote || health.auto_promote || gate_v3.auto_promote),
        runtime_blockers(policy, governance, proof, health, artifact, determinism, gate_v3, snapshot).contains(
            "sandbox_leaks_present"@,
        ) <==> snapshot.sandbox_leak_count > 0,
{
    let c = blocker_conditions(policy, governance, proof, health, artifact, determinism, gate_v3, snapshot);
    let l = blocker_labels();
    lemma_blockers_are_flags(policy, governance, proof, health, artifact, determinism, gate_v3, snapshot);
    lemma_blocker_labels_distinct();
    lemma_flags_of_contains(c, l, 1);
    lemma_flags_of_contains(c, l, 8);
    lemma_flags_of_contains(c, l, 9);
}

/// The blockers and the warnings of a runtime validation are strictly sorted
/// (hence without repeats), whatever the audits say.
pub proof fn lemma_runtime_lists_sorted(
    policy: CapabilityPolicy,
    governance: GovernanceStatus,
    proof: ProofReport,
    health: ReleaseHealthReport,
    artifact: ArtifactAuditReport,
    determinism: DeterminismAuditReport,
    gate_v3: PreflightGateV3Report,
    snapshot: WorkspaceSnapshot,
)
    ensures
        strictly_sorted(runtime_blockers(policy, governance, proof, health, artifact, determinism, gate_v3, snapshot)),
        strictly_sorted(runtime_warnings(governance, health, gate_v3, snapshot)),
{
    lemma_blockers_are_flags(policy, governance, proof, health, artifact, determinism, gate_v3, snapshot);
    lemma_blocker_labels_sorted();
    lemma_flags_of_sorted(
        blocker_conditions(policy, governance, proof, health, artifact, determinism, gate_v3, snapshot),
        blocker_labels(),
    );
    let c = seq![
        governance.promotion_ready_approved_count == 0,
        gate_v3.status@ == "warn"@,
        health.health_grade@ == "yellow"@,
        snapshot.modified_count > 0 || snapshot.untracked_count > 0,
    ];
    let l = warning_labels();
    lemma_flags_of_step(c, l, 0);
    lemma_flags_of_step(c, l, 1);
    lemma_flags_of_step(c, l, 2);
    lemma_flags_of_step(c, l, 3);
    assert(flags_of(c.take(0), l.take(0)) =~= Seq::<Seq<char>>::empty());
    assert(Seq::<Seq<char>>::empty() + flag(c[0], l[0]) =~= flag(c[0], l[0]));
    assert(c.take(4) =~= c);
    assert(l.take(4) =~= l);
    assert(runtime_warnings(governance, health, gate_v3, snapshot) == flags_of(c, l));
    lemma_warning_labels_sorted();
    lemma_flags_of_sorted(c, l);
}

/// The warning labels, in the order they are checked.
pub open spec fn warning_labels() -> Seq<Seq<char>> {
    seq![
        "no_approved_release_candidate"@,
        "preflight_gate_v3_warn"@,
        "release_health_yellow"@,
        "workspace_not_clean"@,
    ]
}

proof fn lemma_warning_labels_sorted()
    ensures
        strictly_sorted(warning_labels()),
{
    reveal_strlit("no_approved_release_candidate");
    reveal_strlit("preflight_gate_v3_warn");
    reveal_strlit("release_health_yellow");
    reveal_strlit("workspace_not_clean");
    let l = warning_labels();
    assert(l[0][0] == 'n' && l[1][0] == 'p' && l[2][0] == 'r' && l[3][0] == 'w');
    assert forall|i: int| 0 <= i < l.len() - 1 implies seq_lt(#[trigger] l[i], l[i + 1]) by {
        assert(l[i].len() > 0 && l[i + 1].len() > 0);
    }
    lemma_sorted_by_neighbours(l);
}

proof fn lemma_blocker_labels_sorted()
    ensures
        strictly_sorted(blocker_labels()),
{
    reveal_strlit("artifact_audit_failed");
    reveal_strlit("auto_promote_true_detected");
    reveal_strlit("determinism_audit_failed");
    reveal_strlit("full_source_content_detected");
    reveal_strlit("isolated_sandbox_validation_disabled");
    reveal_strlit("operator_approval_disabled");
    reveal_strlit("preflight_gate_v3_failed");
    reveal_strlit("required_metadata_capabilities_missing");
    reveal_strlit("sandbox_leaks_present");
    reveal_strlit("unsafe_capability_policy");
    let l = blocker_labels();
    assert(l[0][0] == 'a' && l[0][1] == 'r' && l[1][0] == 'a' && l[1][1] == 'u');
    assert(seq_lt(l[0], l[1])) by {
        assert(lt_from(l[0], l[1], 1));
    }
    assert(l[2][0] == 'd' && l[3][0] == 'f' && l[4][0] == 'i' && l[5][0] == 'o');
    assert(l[6][0] == 'p' && l[7][0] == 'r' && l[8][0] == 's' && l[9][0] == 'u');
    assert forall|i: int| 0 <= i < l.len() - 1 implies seq_lt(#[trigger] l[i], l[i + 1]) by {
        assert(l[i].len() > 1 && l[i + 1].len() > 1);
    }
    lemma_sorted_by_neighbours(l);
}

/// The conditions of the blockers, in the order they are checked.
pub open spec fn blocker_conditions(
    policy: CapabilityPolicy,
    governance: GovernanceStatus,
    proof: ProofReport,
    health: ReleaseHealthReport,
    artifact: ArtifactAuditReport,
    determinism: DeterminismAuditReport,
    gate_v3: PreflightGateV3Report,
    snapshot: WorkspaceSnapshot,
) -> Seq<bool> {
    seq![
        artifact.should_fail_release || artifact.sandbox_leaks.len() > 0,
        proof.auto_promote || health.auto_promote || gate_v3.auto_promote,
        !determinism.deterministic_enough,
        determinism.full_source_content_warnings.len() > 0,
        !policy.sandboxed_validation_allowed_when_isolated,
        !proof.operator_approval_required || !health.operator_approval_required
            || !governance.operator_approval_required || !gate_v3.operator_approval_required,
        gate_v3.status@ == "fail"@,
        !policy.metadata_generation_allowed || !policy.local_read_only_inspection_allowed,
        snapshot.sandbox_leak_count > 0,
        policy_unsafe(policy),
    ]
}

#[verifier::rlimit(50)]
proof fn lemma_blockers_are_flags(
    policy: CapabilityPolicy,
    governance: GovernanceStatus,
    proof: ProofReport,
    health: ReleaseHealthReport,
    artifact: ArtifactAuditReport,
    determinism: DeterminismAuditReport,
    gate_v3: PreflightGateV3Report,
    snapshot: WorkspaceSnapshot,
)
    ensures
        runtime_blockers(policy, governance, proof, health, artifact, determinism, gate_v3, snapshot)
            == flags_of(
            blocker_conditions(policy, governance, proof, health, artifact, determinism, gate_v3, snapshot),
            blocker_labels(),
        ),
{
    let c = blocker_conditions(policy, governance, proof, health, artifact, determinism, gate_v3, snapshot);
    let l = blocker_labels();
    lemma_flags_of_ten(c, l);
}

/// The blocker labels, in the order they are checked.
pub open spec fn blocker_labels() -> Seq<Seq<char>> {
    seq![
        "artifact_audit_failed"@,
        "auto_promote_true_detected"@,
        "determinism_audit_failed"@,
        "full_source_content_detected"@,
        "isolated_sandbox_validation_disabled"@,
        "operator_approval_disabled"@,
        "preflight_gate_v3_failed"@,
        "required_metadata_capabilities_missing"@,
        "sandbox_leaks_present"@,
        "unsafe_capability_policy"@,
    ]
}

proof fn lemma_blocker_labels_distinct()
    ensures
        forall|j: int| 0 <= j < 10 && j != 1 ==> #[trigger] blocker_labels()[j] != blocker_labels()[1],
        forall|j: int| 0 <= j < 10 && j != 8 ==> #[trigger] blocker_labels()[j] != blocker_labels()[8],
        forall|j: int| 0 <= j < 10 && j != 9 ==> #[trigger] blocker_labels()[j] != blocker_labels()[9],
{
    reveal_strlit("artifact_audit_failed");
    reveal_strlit("auto_promote_true_detected");
    reveal_strlit("determinism_audit_failed");
    reveal_strlit("full_source_content_detected");
    reveal_strlit("isolated_sandbox_validation_disabled");
    reveal_strlit("operator_approval_disabled");
    reveal_strlit("preflight_gate_v3_failed");
    reveal_strlit("required_metadata_capabilities_missing");
    reveal_strlit("sandbox_leaks_present");
    reveal_strlit("unsafe_capability_policy");
    let l = blocker_labels();
    assert(l[0][1] == 'r' && l[1][1] == 'u');
    assert(l[1][0] == 'a' && l[2][0] == 'd' && l[3][0] == 'f' && l[4][0] == 'i' && l[5][0] == 'o');
    assert(l[6][0] == 'p' && l[7][0] == 'r' && l[8][0] == 's' && l[9][0] == 'u' && l[0][0] == 'a');
}

/// The warnings of a runtime validation, in sorted order.
pub open spec fn runtime_warnings(
    governance: GovernanceStatus,
    health: ReleaseHealthReport,
    gate_v3: PreflightGateV3Report,
    snapshot: WorkspaceSnapshot,
) -> Seq<Seq<char>> {
    flag(governance.promotion_ready_approved_count == 0, "no_approved_release_candidate"@)
        + flag(gate_v3.status@ == "warn"@, "preflight_gate_v3_warn"@)
        + flag(health.health_grade@ == "yellow"@, "release_health_yellow"@)
        + flag(snapshot.modified_count > 0 || snapshot.untracked_count > 0, "workspace_not_clean"@)
}

/// The support flags of a proof report, in their declared order.
pub open spec fn support_flags(p: ProofReport) -> Seq<bool> {
    seq![
        p.local_corpus_ingestion_support, p.read_only_corpus_safety, p.task_suggestion_support,
        p.campaign_diagnostics_support, p.zero_yield_task_adjustment_support,
        p.bounded_campaign_loop_support, p.recombination_fallback_support,
        p.replay_review_support, p.promotion_queue_support, p.supervised_task_support,
        p.governance_runtime_support, p.release_runtime_support, p.release_health_support,
        p.artifact_audit_support, p.determinism_audit_support, p.preflight_gate_v2_support,
        p.release_ledger_support, p.future_phase_registry_support, p.operator_runbook_support,
        p.operations_runtime_support, p.pr_package_support, p.external_patch_package_support,
        p.self_review_package_support, p.operator_console_support, p.capability_policy_support,
        p.trust_decision_support, p.evidence_bundle_support, p.workspace_snapshot_support,
        p.recovery_manifest_support, p.preflight_gate_v3_support, p.trust_proof_report_support,
        p.runtime_candidate_support, p.runtime_validation_support,
        p.runtime_service_metadata_support, p.stable_cli_contract_support,
        p.final_rc_report_support,
    ]
}

/// The number of `true` values in `s`.
pub open spec fn count_true(s: Seq<bool>) -> nat
    decreases s.len(),
{
    if s.len() == 0 {
        0
    } else {
        count_true(s.drop_last()) + if s.last() {
            1nat
        } else {
            0nat
        }
    }
}

fn support_flag_vec(p: &ProofReport) -> (v: Vec<bool>)
    ensures
        v@ == support_flags(*p),
{
    let v = vec![
        p.local_corpus_ingestion_support, p.read_only_corpus_safety, p.task_suggestion_support,
        p.campaign_diagnostics_support, p.zero_yield_task_adjustment_support,
        p.bounded_campaign_loop_support, p.recombination_fallback_support,
        p.replay_review_support, p.promotion_queue_support, p.supervised_task_support,
        p.governance_runtime_support, p.release_runtime_support, p.release_health_support,
        p.artifact_audit_support, p.determinism_audit_support, p.preflight_gate_v2_support,
        p.release_ledger_support, p.future_phase_registry_support, p.operator_runbook_support,
        p.operations_runtime_support, p.pr_package_support, p.external_patch_package_support,
        p.self_review_package_support, p.operator_console_support, p.capability_policy_support,
        p.trust_decision_support, p.evidence_bundle_support, p.workspace_snapshot_support,
        p.recovery_manifest_support, p.preflight_gate_v3_support, p.trust_proof_report_support,
        p.runtime_candidate_support, p.runtime_validation_support,
        p.runtime_service_metadata_support, p.stable_cli_contract_support,
        p.final_rc_report_support,
    ];
    assert(v@ =~= support_flags(*p));
    v
}

/// How many support flags of the proof report are set.
pub fn proof_support_count(proof: &ProofReport) -> (n: usize)
    ensures
        n == count_true(support_flags(*proof)),
{
    let flags = support_flag_vec(proof);
    let mut n: usize = 0;
    let mut i: usize = 0;
    while i < flags.len()
        invariant
            i <= flags.len(),
            flags.len() == 36,
            n <= i,
            n == count_true(flags@.subrange(0, i as int)),
        decreases flags.len() - i,
    {
        assert(flags@.subrange(0, i + 1).drop_last() =~= flags@.subrange(0, i as int));
        if flags[i] {
            n = n + 1;
        }
        i = i + 1;
    }
    assert(flags@.subrange(0, flags.len() as int) =~= flags@);
    n
}

/// The check line for the artifact audit.
pub open spec fn artifact_check(a: ArtifactAuditReport) -> Seq<char> {
    "artifact_audit:fail="@ + bool_text(a.should_fail_release) + " sandbox_leaks="@ + decimal(
        a.sandbox_leaks.len() as nat,
    )
}

/// The check line for the capability policy.
pub open spec fn policy_check(p: CapabilityPolicy) -> Seq<char> {
    "capability_policy:"@ + if policy_unsafe(p) {
        "fail"@
    } else {
        "pass"@
    }
}

/// The check line for the determinism audit.
pub open spec fn determinism_check(d: DeterminismAuditReport) -> Seq<char> {
    "determinism:deterministic_enough="@ + bool_text(d.deterministic_enough)
        + " full_source_warnings="@ + decimal(d.full_source_content_warnings.len() as nat)
}

/// The check line for governance.
pub open spec fn governance_check(g: GovernanceStatus) -> Seq<char> {
    "governance:approved="@ + decimal(g.approved_count as nat) + " ready_approved="@ + decimal(
        g.promotion_ready_approved_count as nat,
    ) + " approval_required="@ + bool_text(g.operator_approval_required)
}

/// The check line for the proof report.
pub open spec fn proof_check(p: ProofReport) -> Seq<char> {
    "proof:support_flags="@ + decimal(count_true(support_flags(p))) + " auto_promote="@
        + bool_text(p.auto_promote) + " approval_required="@ + bool_text(
        p.operator_approval_required,
    )
}

/// The check line for the workspace snapshot.
pub open spec fn snapshot_check(s: WorkspaceSnapshot) -> Seq<char> {
    "workspace_snapshot:modified="@ + decimal(s.modified_count as nat) + " untracked="@
        + decimal(s.untracked_count as nat) + " sandbox_leaks="@ + decimal(
        s.sandbox_leak_count as nat,
    )
}

/// The checks of a runtime validation, in sorted order.
pub open spec fn runtime_checks(
    policy: CapabilityPolicy,
    governance: GovernanceStatus,
    proof: ProofReport,
    health: ReleaseHealthReport,
    artifact: ArtifactAuditReport,
    determinism: DeterminismAuditReport,
    gate_v3: PreflightGateV3Report,
    snapshot: WorkspaceSnapshot,
) -> Seq<Seq<char>> {
    seq![
        artifact_check(artifact),
        policy_check(policy),
        determinism_check(determinism),
        governance_check(governance),
        "preflight_gate_v3:"@ + gate_v3.status@,
        proof_check(proof),
        "release_health:"@ + health.health_grade@ + " score="@ + decimal(health.health_score as nat),
        snapshot_check(snapshot),
    ]
}

/// The status word for the given blockers and warnings.
pub open spec fn validation_status(blockers: Seq<Seq<char>>, warnings: Seq<Seq<char>>) -> Seq<char> {
    if blockers.len() > 0 {
        "blocked"@
    } else if warnings.len() > 0 {
        "warn"@
    } else {
        "pass"@
    }
}

/// The next operator commands, by whether there are blockers and whether there are warnings.
pub open spec fn validation_next_actions(has_blockers: bool, has_warnings: bool) -> Seq<Seq<char>> {
    if has_blockers {
        seq![
            "cargo run -- --artifact-audit"@,
            "cargo run -- --preflight-gate-v3"@,
            "cargo run -- --trust-proof-report"@,
        ]
    } else if has_warnings {
        seq![
            "cargo run -- --promotion-ready-approved"@,
            "cargo run -- --runtime-candidate"@,
            "cargo run -- --final-rc-report"@,
        ]
    } else {
        seq!["cargo run -- --final-rc-report"@, "cargo run -- --operator-console"@]
    }
}

fn usize_text(s: &mut String, n: usize)
    ensures
        final(s)@ == old(s)@ + decimal(n as nat),
{
    push_decimal(s, n as u64);
}

fn blocker_list(
    policy: &CapabilityPolicy,
    governance: &GovernanceStatus,
    proof: &ProofReport,
    health: &ReleaseHealthReport,
    artifact: &ArtifactAuditReport,
    determinism: &DeterminismAuditReport,
    gate_v3: &PreflightGateV3Report,
    snapshot: &WorkspaceSnapshot,
) -> (blockers: Vec<String>)
    ensures
        views(blockers@) == runtime_blockers(
            *policy,
            *governance,
            *proof,
            *health,
            *artifact,
            *determinism,
            *gate_v3,
            *snapshot,
        ),
{
    let gate_fail = str_eq(gate_v3.status.as_str(), "fail");
    let unsafe_policy = policy.auto_promote_allowed || policy.network_push_allowed
        || policy.merge_allowed || policy.external_repo_mutation_allowed
        || policy.self_apply_allowed || policy.source_mutation_without_approval_allowed;
    let mut blockers: Vec<String> = Vec::new();
    push_if(&mut blockers, artifact.should_fail_release || artifact.sandbox_leaks.len() > 0, "artifact_audit_failed");
    push_if(&mut blockers, proof.auto_promote || health.auto_promote || gate_v3.auto_promote, "auto_promote_true_detected");
    push_if(&mut blockers, !determinism.deterministic_enough, "determinism_audit_failed");
    push_if(&mut blockers, determinism.full_source_content_warnings.len() > 0, "full_source_content_detected");
    push_if(&mut blockers, !policy.sandboxed_validation_allowed_when_isolated, "isolated_sandbox_validation_disabled");
    push_if(
        &mut blockers,
        !proof.operator_approval_required || !health.operator_approval_required
            || !governance.operator_approval_required || !gate_v3.operator_approval_required,
        "operator_approval_disabled",
    );
    push_if(&mut blockers, gate_fail, "preflight_gate_v3_failed");
    push_if(
        &mut blockers,
        !policy.metadata_generation_allowed || !policy.local_read_only_inspection_allowed,
        "required_metadata_capabilities_missing",
    );
    push_if(&mut blockers, snapshot.sandbox_leak_count > 0, "sandbox_leaks_present");
    push_if(&mut blockers, unsafe_policy, "unsafe_capability_policy");
    assert(views(blockers@) =~= runtime_blockers(
        *policy,
        *governance,
        *proof,
        *health,
        *artifact,
        *determinism,
        *gate_v3,
        *snapshot,
    ));
    blockers
}

fn warning_list(
    governance: &GovernanceStatus,
    health: &ReleaseHealthReport,
    gate_v3: &PreflightGateV3Report,
    snapshot: &WorkspaceSnapshot,
) -> (warnings: Vec<String>)
    ensures
        views(warnings@) == runtime_warnings(*governance, *health, *gate_v3, *snapshot),
{
    let gate_warn = str_eq(gate_v3.status.as_str(), "warn");
    let health_yellow = str_eq(health.health_grade.as_str(), "yellow");
    let mut warnings: Vec<String> = Vec::new();
    push_if(&mut warnings, governance.promotion_ready_approved_count == 0, "no_approved_release_candidate");
    push_if(&mut warnings, gate_warn, "preflight_gate_v3_warn");
    push_if(&mut warnings, health_yellow, "release_health_yellow");
    push_if(&mut warnings, snapshot.modified_count > 0 || snapshot.untracked_count > 0, "workspace_not_clean");
    assert(views(warnings@) =~= runtime_warnings(*governance, *health, *gate_v3, *snapshot));
    warnings
}

fn check_list_head(
    policy: &CapabilityPolicy,
    governance: &GovernanceStatus,
    artifact: &ArtifactAuditReport,
    determinism: &DeterminismAuditReport,
) -> (checks: Vec<String>)
    ensures
        views(checks@) == seq![
            artifact_check(*artifact),
            policy_check(*policy),
            determinism_check(*determinism),
            governance_check(*governance),
        ],
{
    let unsafe_policy = policy.auto_promote_allowed || policy.network_push_allowed
        || policy.merge_allowed || policy.external_repo_mutation_allowed
        || policy.self_apply_allowed || policy.source_mutation_without_approval_allowed;
    let mut c1 = String::new();
    push_str(&mut c1, "artifact_audit:fail=");
    push_bool(&mut c1, artifact.should_fail_release);
    push_str(&mut c1, " sandbox_leaks=");
    usize_text(&mut c1, artifact.sandbox_leaks.len());
    let mut c2 = String::new();
    push_str(&mut c2, "capability_policy:");
    push_str(&mut c2, if unsafe_policy { "fail" } else { "pass" });
    let mut c3 = String::new();
    push_str(&mut c3, "determinism:deterministic_enough=");
    push_bool(&mut c3, determinism.deterministic_enough);
    push_str(&mut c3, " full_source_warnings=");
    usize_text(&mut c3, determinism.full_source_content_warnings.len());
    let mut c4 = String::new();
    push_str(&mut c4, "governance:approved=");
    usize_text(&mut c4, governance.approved_count);
    push_str(&mut c4, " ready_approved=");
    usize_text(&mut c4, governance.promotion_ready_approved_count);
    push_str(&mut c4, " approval_required=");
    push_bool(&mut c4, governance.operator_approval_required);
    let checks = vec![c1, c2, c3, c4];
    assert(views(checks@) =~= seq![
        artifact_check(*artifact),
        policy_check(*policy),
        determinism_check(*determinism),
        governance_check(*governance),
    ]);
    checks
}

fn check_list_tail(
    proof: &ProofReport,
    health: &ReleaseHealthReport,
    gate_v3: &PreflightGateV3Report,
    snapshot: &WorkspaceSnapshot,
) -> (checks: Vec<String>)
    ensures
        views(checks@) == seq![
            "preflight_gate_v3:"@ + gate_v3.status@,
            proof_check(*proof),
            "release_health:"@ + health.health_grade@ + " score="@ + decimal(health.health_score as nat),
            snapshot_check(*snapshot),
        ],
{
    let mut c5 = String::new();
    push_str(&mut c5, "preflight_gate_v3:");
    push_str(&mut c5, gate_v3.status.as_str());
    let mut c6 = String::new();
    push_str(&mut c6, "proof:support_flags=");
    usize_text(&mut c6, proof_support_count(proof));
    push_str(&mut c6, " auto_promote=");
    push_bool(&mut c6, proof.auto_promote);
    push_str(&mut c6, " approval_required=");
    push_bool(&mut c6, proof.operator_approval_required);
    let mut c7 = String::new();
    push_str(&mut c7, "release_health:");
    push_str(&mut c7, health.health_grade.as_str());
    push_str(&mut c7, " score=");
    push_decimal(&mut c7, health.health_score as u64);
    let mut c8 = String::new();
    push_str(&mut c8, "workspace_snapshot:modified=");
    usize_text(&mut c8, snapshot.modified_count);
    push_str(&mut c8, " untracked=");
    usize_text(&mut c8, snapshot.untracked_count);
    push_str(&mut c8, " sandbox_leaks=");
    usize_text(&mut c8, snapshot.sandbox_leak_count);
    let checks = vec![c5, c6, c7, c8];
    assert(views(checks@) =~= seq![
        "preflight_gate_v3:"@ + gate_v3.status@,
        proof_check(*proof),
        "release_health:"@ + health.health_grade@ + " score="@ + decimal(health.health_score as nat),
        snapshot_check(*snapshot),
    ]);
    checks
}

fn check_list(
    policy: &CapabilityPolicy,
    governance: &GovernanceStatus,
    proof: &ProofReport,
    health: &ReleaseHealthReport,
    artifact: &ArtifactAuditReport,
    determinism: &DeterminismAuditReport,
    gate_v3: &PreflightGateV3Report,
    snapshot: &WorkspaceSnapshot,
) -> (checks: Vec<String>)
    ensures
        views(checks@) == runtime_checks(
            *policy,
            *governance,
            *proof,
            *health,
            *artifact,
            *determinism,
            *gate_v3,
            *snapshot,
        ),
{
    let mut checks = check_list_head(policy, governance, artifact, determinism);
    let mut tail = check_list_tail(proof, health, gate_v3, snapshot);
    let ghost head_views = views(checks@);
    let ghost tail_views = views(tail@);
    checks.append(&mut tail);
    assert(views(checks@) =~= head_views + tail_views);
    assert(views(checks@) =~= runtime_checks(
        *policy,
        *governance,
        *proof,
        *health,
        *artifact,
        *determinism,
        *gate_v3,
        *snapshot,
    ));
    checks
}

/// The status word and next operator commands for the given blocker and warning presence.
fn status_and_actions(has_blockers: bool, has_warnings: bool) -> (r: (String, Vec<String>))
    ensures
        r.0@ == (if has_blockers {
            "blocked"@
        } else if has_warnings {
            "warn"@
        } else {
            "pass"@
        }),
        views(r.1@) == validation_next_actions(has_blockers, has_warnings),
{
    let mut next_actions: Vec<String> = Vec::new();
    if has_blockers {
        push_owned(&mut next_actions, "cargo run -- --artifact-audit");
        push_owned(&mut next_actions, "cargo run -- --preflight-gate-v3");
        push_owned(&mut next_actions, "cargo run -- --trust-proof-report");
        assert(views(next_actions@) =~= validation_next_actions(has_blockers, has_warnings));
        (crate::text::owned("blocked"), next_actions)
    } else if has_warnings {
        push_owned(&mut next_actions, "cargo run -- --promotion-ready-approved");
        push_owned(&mut next_actions, "cargo run -- --runtime-candidate");
        push_owned(&mut next_actions, "cargo run -- --final-rc-report");
        assert(views(next_actions@) =~= validation_next_actions(has_blockers, has_warnings));
        (crate::text::owned("warn"), next_actions)
    } else {
        push_owned(&mut next_actions, "cargo run -- --final-rc-report");
        push_owned(&mut next_actions, "cargo run -- --operator-console");
        assert(views(next_actions@) =~= validation_next_actions(has_blockers, has_warnings));
        (crate::text::owned("pass"), next_actions)
    }
}

/// Evaluates the runtime against the audits: the blockers, warnings, checks,
/// status and next actions of the validation, before the green gate.
pub fn evaluate_runtime_validation(
    generated_at: u64,
    policy: &CapabilityPolicy,
    governance: &GovernanceStatus,
    proof: &ProofReport,
    health: &ReleaseHealthReport,
    artifact: &ArtifactAuditReport,
    determinism: &DeterminismAuditReport,
    gate_v3: &PreflightGateV3Report,
    snapshot: &WorkspaceSnapshot,
) -> (v: RuntimeValidation)
    ensures
        v.validation_id@ == "runtime-validation-"@ + decimal(generated_at as nat),
        v.generated_at == generated_at,
        views(v.blockers@) == runtime_blockers(
            *policy,
            *governance,
            *proof,
            *health,
            *artifact,
            *determinism,
            *gate_v3,
            *snapshot,
        ),
        views(v.warnings@) == runtime_warnings(*governance, *health, *gate_v3, *snapshot),
        views(v.checks@) == runtime_checks(
            *policy,
            *governance,
            *proof,
            *health,
            *artifact,
            *determinism,
            *gate_v3,
            *snapshot,
        ),
        v.status@ == validation_status(views(v.blockers@), views(v.warnings@)),
        views(v.next_actions@) == validation_next_actions(v.blockers.len() > 0, v.warnings.len() > 0),
        v.green_conditions.len() == 0,
        v.missing_green_conditions.len() == 0,
        v.approved_release_candidate.is_none(),
        v.release_bundle.is_none(),
        v.metrics_summary@.len() == 0,
        v.candidate_queue_summary@.len() == 0,
        v.sandbox_state@.len() == 0,
        !v.auto_promote,
        v.operator_approval_required,
{
    let blockers = blocker_list(policy, governance, proof, health, artifact, determinism, gate_v3, snapshot);
    let warnings = warning_list(governance, health, gate_v3, snapshot);
    let checks = check_list(policy, governance, proof, health, artifact, determinism, gate_v3, snapshot);
    let (status, next_actions) = status_and_actions(blockers.len() > 0, warnings.len() > 0);
    let mut validation_id = String::new();
    push_str(&mut validation_id, "runtime-validation-");
    push_decimal(&mut validation_id, generated_at);
    RuntimeValidation {
        validation_id,
        generated_at,
        status,
        blockers,
        warnings,
        checks,
        next_actions,
        green_conditions: Vec::new(),
        missing_green_conditions: Vec::new(),
        approved_release_candidate: None,
        release_bundle: None,
        metrics_summary: String::new(),
        candidate_queue_summary: String::new(),
        sandbox_state: String::new(),
        auto_promote: false,
        operator_approval_required: true,
    }
}

/// Keeps the validation's lists sorted and free of repeats, drops warnings that
/// repeat a missing green condition, and recomputes the status from the lists.
pub fn sanitize_runtime_validation(validation: RuntimeValidation) -> (r: RuntimeValidation)
    ensures
        strictly_sorted(views(r.warnings@)),
        views(r.warnings@).to_set() == views(validation.warnings@).to_set().difference(
            views(validation.missing_green_conditions@).to_set(),
        ),
        strictly_sorted(views(r.blockers@)),
        views(r.blockers@).to_set() == views(validation.blockers@).to_set(),
        strictly_sorted(views(r.green_conditions@)),
        views(r.green_conditions@).to_set() == views(validation.green_conditions@).to_set(),
        strictly_sorted(views(r.missing_green_conditions@)),
        views(r.missing_green_conditions@).to_set() == views(
            validation.missing_green_conditions@,
        ).to_set(),
        r.status@ == (if r.blockers.len() > 0 {
            "blocked"@
        } else if r.missing_green_conditions.len() == 0 && r.warnings.len() == 0 {
            "green"@
        } else {
            "warn"@
        }),
        r.validation_id == validation.validation_id,
        r.generated_at == validation.generated_at,
        r.checks == validation.checks,
        r.next_actions == validation.next_actions,
        r.approved_release_candidate == validation.approved_release_candidate,
        r.release_bundle == validation.release_bundle,
        r.metrics_summary == validation.metrics_summary,
        r.candidate_queue_summary == validation.candidate_queue_summary,
        r.sandbox_state == validation.sandbox_state,
        r.auto_promote == validation.auto_promote,
        r.operator_approval_required == validation.operator_approval_required,
{
    let mut kept: Vec<String> = Vec::new();
    let mut i: usize = 0;
    while i < validation.warnings.len()
        invariant
            i <= validation.warnings.len(),
            views(kept@).to_set() == views(validation.warnings@.subrange(0, i as int)).to_set().difference(
                views(validation.missing_green_conditions@).to_set(),
            ),
        decreases validation.warnings.len() - i,
    {
        let w = &validation.warnings[i];
        let ghost before = views(validation.warnings@.subrange(0, i as int));
        assert(views(validation.warnings@.subrange(0, i + 1)) =~= before.push(w@));
        proof {
            before.lemma_push_to_set_commute(w@);
        }
        if !crate::text::contains_string(&validation.missing_green_conditions, w.as_str()) {
            let ghost kb = views(kept@);
            kept.push(w.clone());
            assert(views(kept@) =~= kb.push(w@));
            proof {
                kb.lemma_push_to_set_commute(w@);
            }
            assert(views(kept@).to_set() =~= before.push(w@).to_set().difference(
                views(validation.missing_green_conditions@).to_set(),
            ));
        } else {
            assert(views(kept@).to_set() =~= before.push(w@).to_set().difference(
                views(validation.missing_green_conditions@).to_set(),
            ));
        }
        i = i + 1;
    }
    assert(validation.warnings@.subrange(0, validation.warnings.len() as int) =~= validation.warnings@);
    let warnings = sort_dedup(kept);
    let blockers = sort_dedup(validation.blockers.clone());
    let green_conditions = sort_dedup(validation.green_conditions.clone());
    let missing = sort_dedup(validation.missing_green_conditions.clone());
    proof {
        if blockers.len() == 0 && validation.blockers.len() > 0 {
            assert(views(validation.blockers@).to_set().contains(views(validation.blockers@)[0]));
        }
        if missing.len() == 0 && validation.missing_green_conditions.len() > 0 {
            assert(views(validation.missing_green_conditions@).to_set().contains(
                views(validation.missing_green_conditions@)[0],
            ));
        }
    }
    let status = if blockers.len() > 0 {
        crate::text::owned("blocked")
    } else if missing.len() == 0 && warnings.len() == 0 {
        crate::text::owned("green")
    } else {
        crate::text::owned("warn")
    };
    RuntimeValidation {
        validation_id: validation.validation_id,
        generated_at: validation.generated_at,
        status,
        blockers,
        warnings,
        checks: validation.checks,
        next_actions: validation.next_actions,
        green_conditions,
        missing_green_conditions: missing,
        approved_release_candidate: validation.approved_release_candidate,
        release_bundle: validation.release_bundle,
        metrics_summary: validation.metrics_summary,
        candidate_queue_summary: validation.candidate_queue_summary,
        sandbox_state: validation.sandbox_state,
        auto_promote: validation.auto_promote,
        operator_approval_required: validation.operator_approval_required,
    }
}

/// Records one green-gate condition: its label goes to the met conditions when
/// `ok` holds and to the missing ones otherwise.
pub fn check_condition(
    green_conditions: &mut Vec<String>,
    missing: &mut Vec<String>,
    ok: bool,
    label: &str,
)
    ensures
        views(final(green_conditions)@) == views(old(green_conditions)@) + flag(ok, label@),
        views(final(missing)@) == views(old(missing)@) + flag(!ok, label@),
{
    push_if(green_conditions, ok, label);
    push_if(missing, !ok, label);
}

/// The labels of the green-gate conditions, in the order they are checked.
pub open spec fn green_gate_labels() -> Seq<Seq<char>> {
    seq![
        "approved_release_candidate"@,
        "release_bundle_exists"@,
        "preflight_gate_v3_pass"@,
        "release_health_green"@,
        "sandbox_leaks_zero"@,
        "metrics_semantics_correct"@,
        "candidate_queue_has_ready_or_approved_candidate"@,
        "no_critical_blockers"@,
        "operator_approval_required"@,
        "operator_approved"@,
        "replay_status_for_approved_candidate"@,
    ]
}

/// The first queue item for a run.
pub open spec fn item_for_run(items: Seq<PromotionQueueItem>, run_id: Seq<char>) -> Option<PromotionQueueItem>
    decreases items.len(),
{
    if items.len() == 0 {
        None
    } else if items[0].run_id@ == run_id {
        Some(items[0])
    } else {
        item_for_run(items.drop_first(), run_id)
    }
}

/// The approved candidate is in the queue and its replay passed.
pub open spec fn approved_replay_ok(rc: ReleaseCandidateState, items: Seq<PromotionQueueItem>) -> bool {
    match rc.approved_release_candidate {
        Some(run_id) => match item_for_run(items, run_id@) {
            Some(item) => item.replay_status@ == "ok"@ || item.replay_status@ == "passed"@,
            None => false,
        },
        None => false,
    }
}

/// The outcome of each green-gate condition, in the order of `green_gate_labels`.
pub open spec fn green_gate_flags(
    validation: RuntimeValidation,
    rc: ReleaseCandidateState,
    metrics: EvolutionMetrics,
    queue: PromotionQueue,
) -> Seq<bool> {
    seq![
        rc.approved_release_candidate.is_some(),
        rc.release_bundle_exists,
        rc.preflight_gate_v3@ == "pass"@,
        rc.release_health@ == "green"@,
        validation.sandbox_state@ != "leaked"@,
        metrics.failed_runs == metrics.real_execution_failed_runs + metrics.cargo_gate_failed_runs
            + metrics.replay_failed_runs,
        queue.summary.ready_candidates > 0 || rc.operator_approved,
        validation.blockers.len() == 0,
        rc.operator_approval_required,
        rc.operator_approved,
        approved_replay_ok(rc, queue.items@),
    ]
}

/// The labels whose flag equals `want`, in order.
pub open spec fn labels_where(flags: Seq<bool>, labels: Seq<Seq<char>>, want: bool) -> Seq<Seq<char>>
    decreases flags.len(),
{
    if flags.len() == 0 {
        Seq::empty()
    } else {
        labels_where(flags.drop_last(), labels, want) + flag(
            flags.last() == want,
            labels[flags.len() - 1],
        )
    }
}

/// The labels split by their flags: each label lands in the list of its own
/// flag's value, and together the two lists are as long as the flags. So the
/// green and the missing green conditions of a validation split the green
/// gate's labels between them.
pub proof fn lemma_labels_split(flags: Seq<bool>, labels: Seq<Seq<char>>)
    requires
        flags.len() <= labels.len(),
    ensures
        labels_where(flags, labels, true).len() + labels_where(flags, labels, false).len() == flags.len(),
        forall|i: int| 0 <= i < flags.len() ==> labels_where(flags, labels, flags[i]).contains(#[trigger] labels[i]),
        forall|x: Seq<char>|
            labels_where(flags, labels, true).contains(x) || labels_where(flags, labels, false).contains(x)
                ==> #[trigger] labels.take(flags.len() as int).contains(x),
    decreases flags.len(),
{
    if flags.len() > 0 {
        let n = flags.len() - 1;
        let f = flags.drop_last();
        lemma_labels_split(f, labels);
        let t0 = labels_where(f, labels, true);
        let f0 = labels_where(f, labels, false);
        let x = labels[n];
        crate::text::lemma_flagged_contains(t0, flags.last() == true, x, x);
        crate::text::lemma_flagged_contains(f0, flags.last() == false, x, x);
        assert forall|i: int| 0 <= i < flags.len() implies labels_where(flags, labels, flags[i]).contains(
            #[trigger] labels[i],
        ) by {
            if i < n {
                assert(f[i] == flags[i]);
                assert(labels_where(f, labels, f[i]).contains(labels[i]));
                crate::text::lemma_flagged_contains(
                    labels_where(f, labels, flags[i]),
                    flags.last() == flags[i],
                    x,
                    labels[i],
                );
            }
        }
        assert forall|y: Seq<char>|
            labels_where(flags, labels, true).contains(y) || labels_where(flags, labels, false).contains(y)
                implies #[trigger] labels.take(flags.len() as int).contains(y) by {
            crate::text::lemma_flagged_contains(t0, flags.last() == true, x, y);
            crate::text::lemma_flagged_contains(f0, flags.last() == false, x, y);
            if t0.contains(y) || f0.contains(y) {
                assert(labels.take(n as int).contains(y));
                let k = choose|k: int| 0 <= k < n && labels.take(n as int)[k] == y;
                assert(labels.take(flags.len() as int)[k] == y);
            } else {
                assert(labels.take(flags.len() as int)[n as int] == y);
            }
        }
    }
}

fn approved_candidate_replay_ok(rc: &ReleaseCandidateState, queue: &PromotionQueue) -> (r: bool)
    ensures
        r == approved_replay_ok(*rc, queue.items@),
{
    match &rc.approved_release_candidate {
        None => false,
        Some(run_id) => {
            let mut i: usize = 0;
            assert(queue.items@.skip(0) =~= queue.items@);
            while i < queue.items.len()
                invariant
                    i <= queue.items.len(),
                    rc.approved_release_candidate == Some(*run_id),
                    item_for_run(queue.items@, run_id@) == item_for_run(queue.items@.skip(i as int), run_id@),
                decreases queue.items.len() - i,
            {
                assert(queue.items@.skip(i as int).drop_first() =~= queue.items@.skip(i + 1));
                if str_eq(queue.items[i].run_id.as_str(), run_id.as_str()) {
                    assert(queue.items@.skip(i as int)[0] == queue.items@[i as int]);
                    assert(item_for_run(queue.items@.skip(i as int), run_id@) == Some(queue.items@[i as int]));
                    let st = queue.items[i].replay_status.as_str();
                    let ok = str_eq(st, "ok") || str_eq(st, "passed");
                    assert(rc.approved_release_candidate == Some(*run_id));
                    assert(ok == (queue.items@[i as int].replay_status@ == "ok"@
                        || queue.items@[i as int].replay_status@ == "passed"@));
                    return ok;
                }
                i = i + 1;
            }
            assert(queue.items@.skip(i as int).len() == 0);
            false
        },
    }
}

/// The metrics summary line of the green gate.
pub open spec fn metrics_summary_text(m: EvolutionMetrics) -> Seq<char> {
    "total_runs="@ + decimal(m.total_runs as nat) + " passed="@ + decimal(m.passed_runs as nat)
        + " failed="@ + decimal(m.failed_runs as nat) + " safety_rejected="@ + decimal(
        m.safety_rejected_runs as nat,
    ) + " duplicate_rejected="@ + decimal(m.duplicate_rejected_runs as nat)
}

fn metrics_summary(m: &EvolutionMetrics) -> (s: String)
    ensures
        s@ == metrics_summary_text(*m),
{
    let mut s = String::new();
    push_str(&mut s, "total_runs=");
    push_decimal(&mut s, m.total_runs);
    push_str(&mut s, " passed=");
    push_decimal(&mut s, m.passed_runs);
    push_str(&mut s, " failed=");
    push_decimal(&mut s, m.failed_runs);
    push_str(&mut s, " safety_rejected=");
    push_decimal(&mut s, m.safety_rejected_runs);
    push_str(&mut s, " duplicate_rejected=");
    push_decimal(&mut s, m.duplicate_rejected_runs);
    s
}

/// The number of queue items that are not ready (`len - ready`, never below zero).
pub open spec fn not_ready_count(q: PromotionQueue) -> nat {
    if q.items.len() >= q.summary.ready_candidates {
        (q.items.len() - q.summary.ready_candidates) as nat
    } else {
        0
    }
}

/// The candidate queue summary line of the green gate.
pub open spec fn queue_summary_text(q: PromotionQueue) -> Seq<char> {
    "candidate_count="@ + decimal(q.summary.candidate_count as nat) + " ready="@ + decimal(
        q.summary.ready_candidates as nat,
    ) + " blocked="@ + decimal(not_ready_count(q)) + " quarantined="@ + decimal(
        q.summary.quarantined_candidates as nat,
    ) + " legacy="@ + decimal(q.summary.legacy_candidates as nat) + " duplicate="@ + decimal(
        q.summary.duplicate_candidates as nat,
    ) + " unreplayable="@ + decimal(q.summary.unreplayable_candidates as nat)
        + " already_promoted="@ + decimal(q.summary.already_promoted_candidates as nat)
}

fn queue_summary(q: &PromotionQueue) -> (s: String)
    ensures
        s@ == queue_summary_text(*q),
{
    let blocked = q.items.len().saturating_sub(q.summary.ready_candidates);
    let mut s = String::new();
    push_str(&mut s, "candidate_count=");
    usize_text(&mut s, q.summary.candidate_count);
    push_str(&mut s, " ready=");
    usize_text(&mut s, q.summary.ready_candidates);
    push_str(&mut s, " blocked=");
    usize_text(&mut s, blocked);
    push_str(&mut s, " quarantined=");
    usize_text(&mut s, q.summary.quarantined_candidates);
    push_str(&mut s, " legacy=");
    usize_text(&mut s, q.summary.legacy_candidates);
    push_str(&mut s, " duplicate=");
    usize_text(&mut s, q.summary.duplicate_candidates);
    push_str(&mut s, " unreplayable=");
    usize_text(&mut s, q.summary.unreplayable_candidates);
    push_str(&mut s, " already_promoted=");
    usize_text(&mut s, q.summary.already_promoted_candidates);
    s
}

/// Some string of `v` contains `p`.
pub open spec fn any_has_infix(v: Seq<Seq<char>>, p: Seq<char>) -> bool {
    exists|i: int| 0 <= i < v.len() && has_infix(#[trigger] v[i], p)
}

fn any_contains(v: &Vec<String>, p: &str) -> (r: bool)
    ensures
        r == any_has_infix(views(v@), p@),
{
    let mut i: usize = 0;
    while i < v.len()
        invariant
            i <= v.len(),
            forall|k: int| 0 <= k < i ==> !has_infix(#[trigger] views(v@)[k], p@),
        decreases v.len() - i,
    {
        if contains(v[i].as_str(), p) {
            assert(has_infix(views(v@)[i as int], p@));
            return true;
        }
        i = i + 1;
    }
    false
}

fn green_gate_flag_vec(
    validation: &RuntimeValidation,
    rc: &ReleaseCandidateState,
    metrics: &EvolutionMetrics,
    queue: &PromotionQueue,
) -> (f: Vec<bool>)
    ensures
        f@ == green_gate_flags(*validation, *rc, *metrics, *queue),
{
    let semantics = (metrics.failed_runs as u128) == (metrics.real_execution_failed_runs as u128)
        + (metrics.cargo_gate_failed_runs as u128) + (metrics.replay_failed_runs as u128);
    let f = vec![
        rc.approved_release_candidate.is_some(),
        rc.release_bundle_exists,
        str_eq(rc.preflight_gate_v3.as_str(), "pass"),
        str_eq(rc.release_health.as_str(), "green"),
        !str_eq(validation.sandbox_state.as_str(), "leaked"),
        semantics,
        queue.summary.ready_candidates > 0 || rc.operator_approved,
        validation.blockers.len() == 0,
        rc.operator_approval_required,
        rc.operator_approved,
        approved_candidate_replay_ok(rc, queue),
    ];
    assert(f@ =~= green_gate_flags(*validation, *rc, *metrics, *queue));
    f
}

fn green_gate_label_vec() -> (l: Vec<String>)
    ensures
        views(l@) == green_gate_labels(),
{
    let l = vec![
        crate::text::owned("approved_release_candidate"),
        crate::text::owned("release_bundle_exists"),
        crate::text::owned("preflight_gate_v3_pass"),
        crate::text::owned("release_health_green"),
        crate::text::owned("sandbox_leaks_zero"),
        crate::text::owned("metrics_semantics_correct"),
        crate::text::owned("candidate_queue_has_ready_or_approved_candidate"),
        crate::text::owned("no_critical_blockers"),
        crate::text::owned("operator_approval_required"),
        crate::text::owned("operator_approved"),
        crate::text::owned("replay_status_for_approved_candidate"),
    ];
    assert(views(l@) =~= green_gate_labels());
    l
}

fn green_gate_lists(
    validation: &RuntimeValidation,
    rc: &ReleaseCandidateState,
    metrics: &EvolutionMetrics,
    queue: &PromotionQueue,
) -> (r: (Vec<String>, Vec<String>))
    ensures
        views(r.0@) == labels_where(green_gate_flags(*validation, *rc, *metrics, *queue), green_gate_labels(), true),
        views(r.1@) == labels_where(green_gate_flags(*validation, *rc, *metrics, *queue), green_gate_labels(), false),
{
    let flags = green_gate_flag_vec(validation, rc, metrics, queue);
    let labels = green_gate_label_vec();
    let mut green: Vec<String> = Vec::new();
    let mut missing: Vec<String> = Vec::new();
    let mut i: usize = 0;
    while i < flags.len()
        invariant
            flags.len() == 11,
            views(labels@).len() == 11,
            i <= flags.len(),
            views(green@) == labels_where(flags@.take(i as int), views(labels@), true),
            views(missing@) == labels_where(flags@.take(i as int), views(labels@), false),
        decreases flags.len() - i,
    {
        assert(flags@.take(i + 1).drop_last() =~= flags@.take(i as int));
        check_condition(&mut green, &mut missing, flags[i], labels[i].as_str());
        i = i + 1;
    }
    assert(flags@.take(11) =~= flags@);
    (green, missing)
}

/// Completes a validation with the green gate: the met and missing green
/// conditions, the approved candidate and release bundle, the summaries, the
/// sandbox state and the final status.
pub fn apply_green_gate_details(
    validation: &mut RuntimeValidation,
    release_candidate: &ReleaseCandidateState,
    metrics: &EvolutionMetrics,
    queue: &PromotionQueue,
)
    ensures
        views(final(validation).green_conditions@) == labels_where(
            green_gate_flags(*old(validation), *release_candidate, *metrics, *queue),
            green_gate_labels(),
            true,
        ),
        views(final(validation).missing_green_conditions@) == labels_where(
            green_gate_flags(*old(validation), *release_candidate, *metrics, *queue),
            green_gate_labels(),
            false,
        ),
        final(validation).approved_release_candidate == release_candidate.approved_release_candidate,
        final(validation).release_bundle == release_candidate.latest_release_bundle,
        final(validation).metrics_summary@ == metrics_summary_text(*metrics),
        final(validation).candidate_queue_summary@ == queue_summary_text(*queue),
        final(validation).sandbox_state@ == (if any_has_infix(views(old(validation).blockers@), "sandbox"@) {
            "leaked"@
        } else {
            "clean"@
        }),
        strictly_sorted(views(final(validation).warnings@)),
        views(final(validation).warnings@).to_set() == views(old(validation).warnings@).to_set(),
        final(validation).status@ == (if old(validation).blockers.len() > 0 {
            "blocked"@
        } else if final(validation).missing_green_conditions.len() == 0 {
            "green"@
        } else {
            "warn"@
        }),
        final(validation).validation_id == old(validation).validation_id,
        final(validation).generated_at == old(validation).generated_at,
        final(validation).blockers == old(validation).blockers,
        final(validation).checks == old(validation).checks,
        final(validation).next_actions == old(validation).next_actions,
        final(validation).auto_promote == old(validation).auto_promote,
        final(validation).operator_approval_required == old(validation).operator_approval_required,
{
    let (green, missing) = green_gate_lists(validation, release_candidate, metrics, queue);
    validation.approved_release_candidate = release_candidate.approved_release_candidate.clone();
    validation.release_bundle = release_candidate.latest_release_bundle.clone();
    validation.metrics_summary = metrics_summary(metrics);
    validation.candidate_queue_summary = queue_summary(queue);
    validation.sandbox_state = if any_contains(&validation.blockers, "sandbox") {
        crate::text::owned("leaked")
    } else {
        crate::text::owned("clean")
    };
    let no_missing = missing.len() == 0;
    validation.green_conditions = green;
    validation.missing_green_conditions = missing;
    validation.warnings = sort_dedup(validation.warnings.clone());
    validation.status = if validation.blockers.len() > 0 {
        crate::text::owned("blocked")
    } else if no_missing {
        crate::text::owned("green")
    } else {
        crate::text::owned("warn")
    };
}

} // verus!
