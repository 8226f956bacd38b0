//! Release health: candidate counts, a bounded score, a grade and recommendations.
use vstd::prelude::*;

use crate::contracts::{ArtifactAuditReport, GovernanceStatus, PromotionQueueItem, ReleaseHealthReport};
use crate::text::{
    bool_text, decimal, flag, join_or, push_bool, push_decimal, push_if, push_owned, push_str,
    str_eq, views,
};

verus! {

/// The number of items that satisfy `p`.
pub open spec fn count_items(items: Seq<PromotionQueueItem>, p: spec_fn(PromotionQueueItem) -> bool) -> nat
    decreases items.len(),
{
    if items.len() == 0 {
        0
    } else {
        count_items(items.drop_last(), p) + if p(items.last()) {
            1nat
        } else {
            0nat
        }
    }
}

/// The item is ready for promotion review.
pub open spec fn is_ready_item(i: PromotionQueueItem) -> bool {
    i.lifecycle_state@ == "ready"@
}

/// The item's replay passed and its mutation is useful.
pub open spec fn is_replay_passed_item(i: PromotionQueueItem) -> bool {
    i.replay_status@ == "ok"@ && i.mutation_class@ == "useful"@
}

/// The item was already promoted.
pub open spec fn is_promoted_item(i: PromotionQueueItem) -> bool {
    i.lifecycle_state@ == "already_promoted"@
}

/// A count never exceeds the number of items.
pub proof fn lemma_count_items_bound(items: Seq<PromotionQueueItem>, p: spec_fn(PromotionQueueItem) -> bool)
    ensures
        count_items(items, p) <= items.len(),
    decreases items.len(),
{
    if items.len() > 0 {
        lemma_count_items_bound(items.drop_last(), p);
    }
}

/// `a - b`, or zero when `b > a` (saturating subtraction).
pub open spec fn sat_sub(a: int, b: int) -> int {
    if a >= b {
        a - b
    } else {
        0
    }
}

/// The penalty for blocked candidates: three per candidate (counted as a `u32`), at most thirty.
pub open spec fn blocked_penalty(blocked: nat) -> int {
    let b = (blocked as u32) as int;
    if b * 3 >= 30 {
        30
    } else {
        b * 3
    }
}

/// The release health score.
pub open spec fn health_score(
    blocked: nat,
    candidate_count: nat,
    release_count: nat,
    proof_ready: bool,
    preflight_ready: bool,
    governance_ready: bool,
    capped: bool,
) -> int {
    let s1 = sat_sub(100, blocked_penalty(blocked));
    let s2 = if candidate_count == 0 { sat_sub(s1, 20) } else { s1 };
    let s3 = if release_count == 0 { sat_sub(s2, 10) } else { s2 };
    let s4 = if !proof_ready { sat_sub(s3, 10) } else { s3 };
    let s5 = if !preflight_ready { sat_sub(s4, 5) } else { s4 };
    let s6 = if !governance_ready { sat_sub(s5, 30) } else { s5 };
    if capped && s6 > 40 { 40 } else { s6 }
}

/// The grade of a release health score.
pub open spec fn health_grade(score: int, ready: nat, sandbox_leaks: bool, auto_promote: bool) -> Seq<char> {
    if sandbox_leaks || auto_promote {
        "red"@
    } else if score >= 80 && ready > 0 {
        "green"@
    } else if score >= 50 {
        "yellow"@
    } else {
        "red"@
    }
}

fn count_queue(items: &Vec<PromotionQueueItem>) -> (r: (usize, usize, usize))
    ensures
        r.0 == count_items(items@, |i: PromotionQueueItem| is_ready_item(i)),
        r.1 == count_items(items@, |i: PromotionQueueItem| is_replay_passed_item(i)),
        r.2 == count_items(items@, |i: PromotionQueueItem| is_promoted_item(i)),
        r.0 <= items.len(),
{
    let mut ready: usize = 0;
    let mut replay: usize = 0;
    let mut promoted: usize = 0;
    let mut k: usize = 0;
    while k < items.len()
        invariant
            k <= items.len(),
            ready <= k,
            replay <= k,
            promoted <= k,
            ready == count_items(items@.take(k as int), |i: PromotionQueueItem| is_ready_item(i)),
            replay == count_items(items@.take(k as int), |i: PromotionQueueItem| is_replay_passed_item(i)),
            promoted == count_items(items@.take(k as int), |i: PromotionQueueItem| is_promoted_item(i)),
        decreases items.len() - k,
    {
        assert(items@.take(k + 1).drop_last() =~= items@.take(k as int));
        let item = &items[k];
        if str_eq(item.lifecycle_state.as_str(), "ready") {
            ready = ready + 1;
        }
        if str_eq(item.replay_status.as_str(), "ok") && str_eq(item.mutation_class.as_str(), "useful") {
            replay = replay + 1;
        }
        if str_eq(item.lifecycle_state.as_str(), "already_promoted") {
            promoted = promoted + 1;
        }
        k = k + 1;
    }
    assert(items@.take(items.len() as int) =~= items@);
    (ready, replay, promoted)
}

fn compute_health_score(
    blocked: usize,
    candidate_count: usize,
    release_count: usize,
    proof_ready: bool,
    preflight_ready: bool,
    governance_ready: bool,
    capped: bool,
) -> (score: u32)
    ensures
        score as int == health_score(
            blocked as nat,
            candidate_count as nat,
            release_count as nat,
            proof_ready,
            preflight_ready,
            governance_ready,
            capped,
        ),
        score <= 100,
{
    let mut score: u32 = 100;
    #[verifier::truncate]
    let b32: u32 = blocked as u32;
    let penalty: u32 = if b32 >= 10 { 30 } else { b32 * 3 };
    score = score.saturating_sub(penalty);
    if candidate_count == 0 {
        score = score.saturating_sub(20);
    }
    if release_count == 0 {
        score = score.saturating_sub(10);
    }
    if !proof_ready {
        score = score.saturating_sub(10);
    }
    if !preflight_ready {
        score = score.saturating_sub(5);
    }
    if !governance_ready {
        score = score.saturating_sub(30);
    }
    if capped {
        score = if score > 40 { 40 } else { score };
    }
    score
}

/// The blockers of release health, in the order they are found.
pub open spec fn health_blockers(
    governance: GovernanceStatus,
    artifact: ArtifactAuditReport,
) -> Seq<Seq<char>> {
    flag(governance.auto_promote, "auto_promote_true"@)
        + flag(artifact.sandbox_leaks.len() > 0, "sandbox_leaks_detected"@)
        + flag(artifact.tracked_runtime_artifacts.len() > 0, "tracked_runtime_artifacts"@)
        + flag(
        !(governance.operator_approval_required && !governance.auto_promote),
        "governance_not_ready"@,
    )
}

/// The recommendations of release health.
pub open spec fn health_recommendations(candidate_count: nat, ready: nat, sandbox_leaks: bool) -> Seq<Seq<char>> {
    let r = flag(candidate_count == 0, "Нет release-кандидатов: это предупреждение, не авария."@)
        + flag(ready == 0, "Подготовить replay-ok useful кандидата и approval перед release."@)
        + flag(sandbox_leaks, "Очистить sandboxes перед release gate."@);
    if r.len() == 0 {
        seq!["Release runtime готов к metadata-only проверкам."@]
    } else {
        r
    }
}

/// Builds the release health report from the promotion queue, governance, the
/// artifact audit, the releases present and whether the proof and preflight
/// records exist.
pub fn build_release_health(
    generated_at: u64,
    items: &Vec<PromotionQueueItem>,
    governance: &GovernanceStatus,
    artifact: &ArtifactAuditReport,
    release_count: usize,
    latest_release_id: Option<String>,
    proof_ready: bool,
    preflight_ready: bool,
) -> (h: ReleaseHealthReport)
    ensures
        h.generated_at == generated_at,
        h.release_runtime_support,
        h.latest_release_id == latest_release_id,
        h.release_count == release_count,
        h.candidate_count == items.len(),
        h.approved_count == governance.approved_count,
        h.ready_count == count_items(items@, |i: PromotionQueueItem| is_ready_item(i)),
        h.blocked_count == items.len() - h.ready_count,
        h.replay_passed_candidates == count_items(items@, |i: PromotionQueueItem| is_replay_passed_item(i)),
        h.promoted_candidates == count_items(items@, |i: PromotionQueueItem| is_promoted_item(i)),
        h.governance_ready == (governance.operator_approval_required && !governance.auto_promote),
        h.proof_ready == proof_ready,
        h.preflight_ready == preflight_ready,
        h.sandbox_leaks_detected == (artifact.sandbox_leaks.len() > 0),
        !h.auto_promote,
        h.operator_approval_required,
        h.health_score as int == health_score(
            h.blocked_count as nat,
            items.len() as nat,
            release_count as nat,
            proof_ready,
            preflight_ready,
            h.governance_ready,
            h.sandbox_leaks_detected || governance.auto_promote
                || artifact.tracked_runtime_artifacts.len() > 0,
        ),
        h.health_grade@ == health_grade(
            h.health_score as int,
            h.ready_count as nat,
            h.sandbox_leaks_detected,
            governance.auto_promote,
        ),
        views(h.blockers@) == health_blockers(*governance, *artifact),
        views(h.recommendations_ru@) == health_recommendations(
            items.len() as nat,
            h.ready_count as nat,
            h.sandbox_leaks_detected,
        ),
{
    let candidate_count = items.len();
    let (ready_count, replay_passed, promoted) = count_queue(items);
    let blocked_count = candidate_count - ready_count;
    let governance_ready = governance.operator_approval_required && !governance.auto_promote;
    let sandbox_leaks_detected = artifact.sandbox_leaks.len() > 0;
    let mut blockers: Vec<String> = Vec::new();
    push_if(&mut blockers, governance.auto_promote, "auto_promote_true");
    push_if(&mut blockers, sandbox_leaks_detected, "sandbox_leaks_detected");
    push_if(&mut blockers, artifact.tracked_runtime_artifacts.len() > 0, "tracked_runtime_artifacts");
    push_if(&mut blockers, !governance_ready, "governance_not_ready");
    assert(views(blockers@) =~= health_blockers(*governance, *artifact));
    let capped = sandbox_leaks_detected || governance.auto_promote
        || artifact.tracked_runtime_artifacts.len() > 0;
    let score = compute_health_score(
        blocked_count,
        candidate_count,
        release_count,
        proof_ready,
        preflight_ready,
        governance_ready,
        capped,
    );
    let grade = if sandbox_leaks_detected || governance.auto_promote {
        crate::text::owned("red")
    } else if score >= 80 && ready_count > 0 {
        crate::text::owned("green")
    } else if score >= 50 {
        crate::text::owned("yellow")
    } else {
        crate::text::owned("red")
    };
    let mut recommendations: Vec<String> = Vec::new();
    push_if(&mut recommendations, candidate_count == 0, "Нет release-кандидатов: это предупреждение, не авария.");
    push_if(&mut recommendations, ready_count == 0, "Подготовить replay-ok useful кандидата и approval перед release.");
    push_if(&mut recommendations, sandbox_leaks_detected, "Очистить sandboxes перед release gate.");
    if recommendations.len() == 0 {
        push_owned(&mut recommendations, "Release runtime готов к metadata-only проверкам.");
    }
    assert(views(recommendations@) =~= health_recommendations(
        candidate_count as nat,
        ready_count as nat,
        sandbox_leaks_detected,
    ));
    ReleaseHealthReport {
        generated_at,
        release_runtime_support: true,
        latest_release_id,
        release_count,
        candidate_count,
        approved_count: governance.approved_count,
        ready_count,
        blocked_count,
        replay_passed_candidates: replay_passed,
        promoted_candidates: promoted,
        governance_ready,
        proof_ready,
        preflight_ready,
        sandbox_leaks_detected,
        auto_promote: false,
        operator_approval_required: true,
        health_score: score,
        health_grade: grade,
        blockers,
        recommendations_ru: recommendations,
    }
}

/// A release health score never exceeds 100, and a green grade means some
/// candidate is ready and no sandbox leaked and auto-promotion is off.
pub proof fn lemma_health_grade_bounds(
    blocked: nat,
    candidate_count: nat,
    release_count: nat,
    proof_ready: bool,
    preflight_ready: bool,
    governance_ready: bool,
    capped: bool,
    ready: nat,
    sandbox_leaks: bool,
    auto_promote: bool,
)
    ensures
        0 <= health_score(blocked, candidate_count, release_count, proof_ready, preflight_ready, governance_ready, capped) <= 100,
        capped ==> health_score(blocked, candidate_count, release_count, proof_ready, preflight_ready, governance_ready, capped) <= 40,
        health_grade(
            health_score(blocked, candidate_count, release_count, proof_ready, preflight_ready, governance_ready, capped),
            ready,
            sandbox_leaks,
            auto_promote,
        ) == "green"@ ==> ready > 0 && !sandbox_leaks && !auto_promote,
{
    reveal_strlit("green");
    reveal_strlit("red");
    reveal_strlit("yellow");
    assert("red"@.len() != "green"@.len());
    assert("yellow"@.len() != "green"@.len());
}

/// The one-line release health summary.
pub open spec fn release_health_line(h: ReleaseHealthReport) -> Seq<char> {
    "release_health: grade="@ + h.health_grade@ + " score="@ + decimal(h.health_score as nat)
        + " releases="@ + decimal(h.release_count as nat) + " latest="@ + match h.latest_release_id {
        Some(id) => id@,
        None => "none"@,
    } + " candidates="@ + decimal(h.candidate_count as nat) + " ready="@ + decimal(
        h.ready_count as nat,
    ) + " blocked="@ + decimal(h.blocked_count as nat) + " auto_promote="@ + bool_text(
        h.auto_promote,
    ) + " approval_required="@ + bool_text(h.operator_approval_required) + " blockers="@
        + join_or(views(h.blockers@), ","@, "none"@)
}

/// Renders the one-line release health summary.
pub fn print_release_health(h: &ReleaseHealthReport) -> (s: String)
    ensures
        s@ == release_health_line(*h),
{
    let mut s = String::new();
    push_str(&mut s, "release_health: grade=");
    push_str(&mut s, h.health_grade.as_str());
    push_str(&mut s, " score=");
    push_decimal(&mut s, h.health_score as u64);
    push_str(&mut s, " releases=");
    push_decimal(&mut s, h.release_count as u64);
    push_str(&mut s, " latest=");
    match &h.latest_release_id {
        Some(id) => push_str(&mut s, id.as_str()),
        None => push_str(&mut s, "none"),
    }
    push_str(&mut s, " candidates=");
    push_decimal(&mut s, h.candidate_count as u64);
    push_str(&mut s, " ready=");
    push_decimal(&mut s, h.ready_count as u64);
    push_str(&mut s, " blocked=");
    push_decimal(&mut s, h.blocked_count as u64);
    push_str(&mut s, " auto_promote=");
    push_bool(&mut s, h.auto_promote);
    push_str(&mut s, " approval_required=");
    push_bool(&mut s, h.operator_approval_required);
    push_str(&mut s, " blockers=");
    let b = crate::text::join_or_strings(&h.blockers, ",", "none");
    push_str(&mut s, b.as_str());
    s
}

} // verus!
