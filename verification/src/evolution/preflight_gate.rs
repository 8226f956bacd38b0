//! The release preflight gate over the audits, release health and governance.
use vstd::prelude::*;

use crate::contracts::{
    ArtifactAuditReport, DeterminismAuditReport, GovernanceStatus, PreflightGateReport,
    ReleaseHealthReport,
};
use crate::text::{bool_text, flag, join, join_or, push_bool, push_if, push_owned, push_str, str_eq, views};

verus! {

/// The preflight blockers, in sorted order.
pub open spec fn gate_blockers(
    artifact: ArtifactAuditReport,
    determinism: DeterminismAuditReport,
    health: ReleaseHealthReport,
    governance: GovernanceStatus,
) -> Seq<Seq<char>> {
    flag(health.auto_promote || governance.auto_promote, "auto_promote_true"@)
        + flag(!determinism.deterministic_enough, "determinism_audit_failed"@)
        + flag(health.health_grade@ == "red"@, "release_health_red"@)
        + flag(artifact.sandbox_leaks.len() > 0, "sandbox_leaks"@)
        + flag(artifact.tracked_runtime_artifacts.len() > 0, "tracked_runtime_artifacts"@)
}

/// The preflight status: `fail` with blockers, `warn` without an approved ready candidate, else `pass`.
pub open spec fn gate_status(blockers: Seq<Seq<char>>, ready_approved: nat) -> Seq<char> {
    if blockers.len() > 0 {
        "fail"@
    } else if ready_approved == 0 {
        "warn"@
    } else {
        "pass"@
    }
}

/// The next operator actions for a gate outcome.
pub open spec fn gate_next_actions(has_blockers: bool, ready_approved: nat) -> Seq<Seq<char>> {
    if has_blockers {
        seq![
            "Устраните blockers перед release."@,
            "Не запускайте promotion; auto_promote должен оставаться false."@,
        ]
    } else if ready_approved == 0 {
        seq![
            "Система безопасна, но нет approved release-кандидата."@,
            "Запустите promotion queue, replay/review и operator approval для кандидата."@,
        ]
    } else {
        seq!["Можно создавать metadata-only release bundle для approved кандидата."@]
    }
}

/// Builds the preflight gate from the audits, release health, governance and
/// the number of approved candidates that are ready for promotion.
pub fn build_preflight_gate(
    generated_at: u64,
    artifact: &ArtifactAuditReport,
    determinism: &DeterminismAuditReport,
    health: &ReleaseHealthReport,
    governance: &GovernanceStatus,
    ready_approved: usize,
) -> (g: PreflightGateReport)
    ensures
        g.generated_at == generated_at,
        views(g.blockers@) == gate_blockers(*artifact, *determinism, *health, *governance),
        views(g.warnings@) == flag(ready_approved == 0, "no_approved_release_candidate"@),
        g.gate_status@ == gate_status(views(g.blockers@), ready_approved as nat),
        views(g.next_actions_ru@) == gate_next_actions(g.blockers.len() > 0, ready_approved as nat),
        g.release_preflight_status@ == (if ready_approved == 0 {
            "no_candidate"@
        } else {
            "candidate_available"@
        }),
        g.governance_status@ == (if governance.operator_approval_required && !governance.auto_promote {
            "ready"@
        } else {
            "blocked"@
        }),
        g.artifact_audit_status@ == (if artifact.should_fail_release {
            "fail"@
        } else {
            "pass"@
        }),
        g.determinism_status@ == (if determinism.deterministic_enough {
            "pass"@
        } else {
            "fail"@
        }),
        g.health_grade == health.health_grade,
        !g.auto_promote,
        g.operator_approval_required,
{
    let mut blockers: Vec<String> = Vec::new();
    push_if(&mut blockers, health.auto_promote || governance.auto_promote, "auto_promote_true");
    push_if(&mut blockers, !determinism.deterministic_enough, "determinism_audit_failed");
    push_if(&mut blockers, str_eq(health.health_grade.as_str(), "red"), "release_health_red");
    push_if(&mut blockers, artifact.sandbox_leaks.len() > 0, "sandbox_leaks");
    push_if(&mut blockers, artifact.tracked_runtime_artifacts.len() > 0, "tracked_runtime_artifacts");
    assert(views(blockers@) =~= gate_blockers(*artifact, *determinism, *health, *governance));
    let mut warnings: Vec<String> = Vec::new();
    push_if(&mut warnings, ready_approved == 0, "no_approved_release_candidate");
    assert(views(warnings@) =~= flag(ready_approved == 0, "no_approved_release_candidate"@));
    let mut next_actions: Vec<String> = Vec::new();
    let status = if blockers.len() > 0 {
        push_owned(&mut next_actions, "Устраните blockers перед release.");
        push_owned(&mut next_actions, "Не запускайте promotion; auto_promote должен оставаться false.");
        crate::text::owned("fail")
    } else if ready_approved == 0 {
        push_owned(&mut next_actions, "Система безопасна, но нет approved release-кандидата.");
        push_owned(&mut next_actions, "Запустите promotion queue, replay/review и operator approval для кандидата.");
        crate::text::owned("warn")
    } else {
        push_owned(&mut next_actions, "Можно создавать metadata-only release bundle для approved кандидата.");
        crate::text::owned("pass")
    };
    assert(views(next_actions@) =~= gate_next_actions(blockers.len() > 0, ready_approved as nat));
    PreflightGateReport {
        generated_at,
        gate_status: status,
        release_preflight_status: if ready_approved == 0 {
            crate::text::owned("no_candidate")
        } else {
            crate::text::owned("candidate_available")
        },
        governance_status: if governance.operator_approval_required && !governance.auto_promote {
            crate::text::owned("ready")
        } else {
            crate::text::owned("blocked")
        },
        artifact_audit_status: if artifact.should_fail_release {
            crate::text::owned("fail")
        } else {
            crate::text::owned("pass")
        },
        determinism_status: if determinism.deterministic_enough {
            crate::text::owned("pass")
        } else {
            crate::text::owned("fail")
        },
        health_grade: health.health_grade.clone(),
        auto_promote: false,
        operator_approval_required: true,
        blockers,
        warnings,
        next_actions_ru: next_actions,
    }
}

/// The two-line preflight gate summary.
pub open spec fn preflight_gate_text(g: PreflightGateReport) -> Seq<char> {
    "preflight_gate: status="@ + g.gate_status@ + " health="@ + g.health_grade@ + " auto_promote="@
        + bool_text(g.auto_promote) + " approval_required="@ + bool_text(
        g.operator_approval_required,
    ) + " blockers="@ + join_or(views(g.blockers@), ","@, "none"@) + " warnings="@ + join_or(
        views(g.warnings@),
        ","@,
        "none"@,
    ) + "\nnext_actions="@ + join(views(g.next_actions_ru@), "; "@)
}

/// Renders the preflight gate summary.
pub fn print_preflight_gate(g: &PreflightGateReport) -> (s: String)
    ensures
        s@ == preflight_gate_text(*g),
{
    let mut s = String::new();
    push_str(&mut s, "preflight_gate: status=");
    push_str(&mut s, g.gate_status.as_str());
    push_str(&mut s, " health=");
    push_str(&mut s, g.health_grade.as_str());
    push_str(&mut s, " auto_promote=");
    push_bool(&mut s, g.auto_promote);
    push_str(&mut s, " approval_required=");
    push_bool(&mut s, g.operator_approval_required);
    push_str(&mut s, " blockers=");
    let b = crate::text::join_or_strings(&g.blockers, ",", "none");
    push_str(&mut s, b.as_str());
    push_str(&mut s, " warnings=");
    let w = crate::text::join_or_strings(&g.warnings, ",", "none");
    push_str(&mut s, w.as_str());
    push_str(&mut s, "\nnext_actions=");
    let n = crate::text::join_strings(&g.next_actions_ru, "; ");
    push_str(&mut s, n.as_str());
    s
}

/// The preflight passes only without blockers and with an approved ready candidate,
/// and it fails exactly when there are blockers.
pub proof fn lemma_gate_status(blockers: Seq<Seq<char>>, ready_approved: nat)
    ensures
        gate_status(blockers, ready_approved) == "pass"@ <==> (blockers.len() == 0 && ready_approved > 0),
        gate_status(blockers, ready_approved) == "fail"@ <==> blockers.len() > 0,
{
    reveal_strlit("pass");
    reveal_strlit("fail");
    reveal_strlit("warn");
    assert("pass"@[0] != "fail"@[0]);
    assert("pass"@[0] != "warn"@[0]);
    assert("fail"@[0] != "warn"@[0]);
}

} // verus!
