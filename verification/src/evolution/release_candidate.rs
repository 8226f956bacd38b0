//! The release candidate: its state, and whether a candidate may be approved for release.
use vstd::prelude::*;

use crate::contracts::{CandidateState, PromotionQueueItem, ReleaseCandidateState};
use crate::text::{
    flag, join, join_strings, owned, push_if, push_str, seq_lt, sort_dedup, str_eq, str_lt,
    strictly_sorted, views,
};

verus! {

/// The smallest of the run ids, if any.
pub open spec fn min_run(s: Seq<Seq<char>>) -> Option<Seq<char>>
    decreases s.len(),
{
    if s.len() == 0 {
        None
    } else {
        match min_run(s.drop_last()) {
            Some(m) => if seq_lt(s.last(), m) {
                Some(s.last())
            } else {
                Some(m)
            },
            None => Some(s.last()),
        }
    }
}

fn smallest_run(runs: &Vec<String>) -> (r: Option<String>)
    ensures
        match r {
            Some(x) => min_run(views(runs@)) == Some(x@),
            None => min_run(views(runs@)) is None,
        },
{
    let mut best: Option<String> = None;
    let mut i: usize = 0;
    while i < runs.len()
        invariant
            i <= runs.len(),
            match best {
                Some(x) => min_run(views(runs@).take(i as int)) == Some(x@),
                None => min_run(views(runs@).take(i as int)) is None,
            },
        decreases runs.len() - i,
    {
        assert(views(runs@).take(i + 1).drop_last() =~= views(runs@).take(i as int));
        assert(views(runs@).take(i + 1).last() == runs@[i as int]@);
        let replace = match &best {
            Some(m) => str_lt(runs[i].as_str(), m.as_str()),
            None => true,
        };
        if replace {
            best = Some(runs[i].clone());
        }
        i = i + 1;
    }
    assert(views(runs@).take(i as int) =~= views(runs@));
    best
}

/// The warnings of the release candidate state, in the order they are checked.
pub open spec fn rc_warnings(approved: bool, has_release: bool, gate: Seq<char>, health: Seq<char>) -> Seq<Seq<char>> {
    flag(!approved, "no_approved_release_candidate"@) + flag(!has_release, "no_release_bundle"@)
        + flag(gate != "fail"@ && gate == "warn"@, "preflight_gate_v3_warn"@) + flag(
        health != "red"@ && health == "yellow"@,
        "release_health_yellow"@,
    )
}

/// The blockers of the release candidate state, in the order they are checked.
pub open spec fn rc_blockers(gate: Seq<char>, health: Seq<char>) -> Seq<Seq<char>> {
    flag(gate == "fail"@, "preflight_gate_v3_failed"@) + flag(health == "red"@, "release_health_red"@)
}

/// The state of the release candidate: the approved candidate (the smallest
/// approved run id), the latest release bundle, the v3 gate and the health,
/// with what blocks and what warns.
pub fn build_release_candidate_state(
    promotion_ready_approved_count: usize,
    gate_v3_status: String,
    health_grade: String,
    latest_release: Option<String>,
    approved_runs: &Vec<String>,
) -> (r: ReleaseCandidateState)
    ensures
        match r.approved_release_candidate {
            Some(x) => min_run(views(approved_runs@)) == Some(x@),
            None => min_run(views(approved_runs@)) is None,
        },
        r.approved_count == promotion_ready_approved_count,
        r.release_bundle_exists == latest_release is Some,
        r.latest_release_bundle == latest_release,
        r.operator_approval_required,
        r.operator_approved == (promotion_ready_approved_count > 0),
        r.preflight_gate_v3 == gate_v3_status,
        r.release_health == health_grade,
        views(r.blockers@) == rc_blockers(gate_v3_status@, health_grade@),
        views(r.warnings@) == rc_warnings(
            promotion_ready_approved_count > 0,
            latest_release is Some,
            gate_v3_status@,
            health_grade@,
        ),
{
    let approved = promotion_ready_approved_count > 0;
    let mut blockers: Vec<String> = Vec::new();
    let mut warnings: Vec<String> = Vec::new();
    let gate_fail = str_eq(gate_v3_status.as_str(), "fail");
    let gate_warn = str_eq(gate_v3_status.as_str(), "warn");
    let red = str_eq(health_grade.as_str(), "red");
    let yellow = str_eq(health_grade.as_str(), "yellow");
    push_if(&mut warnings, !approved, "no_approved_release_candidate");
    push_if(&mut warnings, latest_release.is_none(), "no_release_bundle");
    push_if(&mut blockers, gate_fail, "preflight_gate_v3_failed");
    push_if(&mut warnings, !gate_fail && gate_warn, "preflight_gate_v3_warn");
    push_if(&mut blockers, red, "release_health_red");
    push_if(&mut warnings, !red && yellow, "release_health_yellow");
    let approved_run = smallest_run(approved_runs);
    ReleaseCandidateState {
        approved_release_candidate: approved_run,
        approved_count: promotion_ready_approved_count as u64,
        release_bundle_exists: latest_release.is_some(),
        latest_release_bundle: latest_release,
        operator_approval_required: true,
        operator_approved: approved,
        preflight_gate_v3: gate_v3_status,
        release_health: health_grade,
        blockers,
        warnings,
    }
}

/// The name of a candidate state in lower case.
pub open spec fn state_label(st: CandidateState) -> Seq<char> {
    match st {
        CandidateState::Ready => "ready"@,
        CandidateState::Blocked => "blocked"@,
        CandidateState::Quarantined => "quarantined"@,
        CandidateState::Stale => "stale"@,
        CandidateState::Legacy => "legacy"@,
        CandidateState::Duplicate => "duplicate"@,
        CandidateState::Unreplayable => "unreplayable"@,
        CandidateState::AlreadyPromoted => "alreadypromoted"@,
        CandidateState::Unknown => "unknown"@,
    }
}

fn state_label_text(st: CandidateState) -> (r: &'static str)
    ensures
        r@ == state_label(st),
{
    match st {
        CandidateState::Ready => "ready",
        CandidateState::Blocked => "blocked",
        CandidateState::Quarantined => "quarantined",
        CandidateState::Stale => "stale",
        CandidateState::Legacy => "legacy",
        CandidateState::Duplicate => "duplicate",
        CandidateState::Unreplayable => "unreplayable",
        CandidateState::AlreadyPromoted => "alreadypromoted",
        CandidateState::Unknown => "unknown",
    }
}

/// Why a queue item may not be approved for release: the first failed check.
pub open spec fn refusal_reason(item: PromotionQueueItem) -> Seq<char> {
    if item.candidate_state != CandidateState::Ready {
        "candidate_state="@ + state_label(item.candidate_state)
    } else if item.replay_status@ != "ok"@ {
        "replay_status="@ + item.replay_status@
    } else if item.cargo_test_ok != Some(true) {
        "cargo_test_ok=false"@
    } else if item.cargo_run_ok != Some(true) {
        "cargo_run_ok=false"@
    } else if item.promotion_blockers.len() > 0 {
        "promotion_gate_blocked"@
    } else {
        "unknown"@
    }
}

/// Everything that stops a queue item from being approved for release, unsorted.
pub open spec fn approval_blockers(item: PromotionQueueItem) -> Seq<Seq<char>> {
    flag(
        item.candidate_state != CandidateState::Ready,
        "candidate_state="@ + state_label(item.candidate_state),
    ) + flag(item.replay_status@ != "ok"@, "replay_not_ok"@) + flag(
        item.cargo_test_ok != Some(true),
        "cargo_test_not_ok"@,
    ) + flag(item.cargo_run_ok != Some(true), "cargo_run_not_ok"@) + views(item.promotion_blockers@)
}

/// A queue item can be approved only when it is ready, its replay passed,
/// both cargo gates passed and the queue recorded no blocker for it.
pub proof fn lemma_approvable_item(item: PromotionQueueItem)
    ensures
        approval_blockers(item).len() == 0 <==> {
            &&& item.candidate_state == CandidateState::Ready
            &&& item.replay_status@ == "ok"@
            &&& item.cargo_test_ok == Some(true)
            &&& item.cargo_run_ok == Some(true)
            &&& item.promotion_blockers.len() == 0
        },
{
}

/// Whether a queue item may be approved for release: refused
/// when anything blocks it, with the first failed check and all blockers,
/// sorted and without repeats.
pub fn check_release_approval(item: &PromotionQueueItem) -> (r: Result<(), Vec<String>>)
    ensures
        approval_blockers(*item).len() == 0 ==> r is Ok,
        approval_blockers(*item).len() > 0 ==> (r matches Err(b) && strictly_sorted(views(b@))
            && views(b@).to_set() == approval_blockers(*item).to_set()),
{
    let mut blockers: Vec<String> = Vec::new();
    let ready = item.candidate_state == CandidateState::Ready;
    let ghost before = views(blockers@);
    if !ready {
        let mut b = owned("candidate_state=");
        push_str(&mut b, state_label_text(item.candidate_state));
        blockers.push(b);
    }
    assert(views(blockers@) =~= before + flag(
        item.candidate_state != CandidateState::Ready,
        "candidate_state="@ + state_label(item.candidate_state),
    ));
    push_if(&mut blockers, !str_eq(item.replay_status.as_str(), "ok"), "replay_not_ok");
    let test_ok = match item.cargo_test_ok {
        Some(b) => b,
        None => false,
    };
    let run_ok = match item.cargo_run_ok {
        Some(b) => b,
        None => false,
    };
    push_if(&mut blockers, !test_ok, "cargo_test_not_ok");
    push_if(&mut blockers, !run_ok, "cargo_run_not_ok");
    let mut i: usize = 0;
    let ghost base = views(blockers@);
    while i < item.promotion_blockers.len()
        invariant
            i <= item.promotion_blockers.len(),
            views(blockers@) == base + views(item.promotion_blockers@).take(i as int),
        decreases item.promotion_blockers.len() - i,
    {
        let ghost b0 = views(blockers@);
        blockers.push(item.promotion_blockers[i].clone());
        assert(views(blockers@) =~= b0.push(item.promotion_blockers@[i as int]@));
        assert(views(item.promotion_blockers@).take(i + 1) =~= views(item.promotion_blockers@).take(
            i as int,
        ).push(item.promotion_blockers@[i as int]@));
        i = i + 1;
    }
    assert(views(item.promotion_blockers@).take(i as int) =~= views(item.promotion_blockers@));
    assert(views(blockers@) =~= approval_blockers(*item));
    if blockers.len() == 0 {
        return Ok(());
    }
    Err(sort_dedup(blockers))
}

/// The refusal of a release approval.
pub open spec fn refusal_text(run_id: Seq<char>, reason: Seq<char>, blockers: Seq<Seq<char>>) -> Seq<char> {
    "release approval refused\nrun_id="@ + run_id + "\nreason="@ + reason + "\nblockers="@ + join(
        blockers,
        ","@,
    )
}

/// The refusal message for a release approval.
pub fn refusal_message(item: &PromotionQueueItem, run_id: &str, blockers: &Vec<String>) -> (r: String)
    ensures
        r@ == refusal_text(run_id@, refusal_reason(*item), views(blockers@)),
{
    let mut reason = String::new();
    if item.candidate_state != CandidateState::Ready {
        push_str(&mut reason, "candidate_state=");
        push_str(&mut reason, state_label_text(item.candidate_state));
    } else if !str_eq(item.replay_status.as_str(), "ok") {
        push_str(&mut reason, "replay_status=");
        push_str(&mut reason, item.replay_status.as_str());
    } else if item.cargo_test_ok != Some(true) {
        push_str(&mut reason, "cargo_test_ok=false");
    } else if item.cargo_run_ok != Some(true) {
        push_str(&mut reason, "cargo_run_ok=false");
    } else if item.promotion_blockers.len() > 0 {
        push_str(&mut reason, "promotion_gate_blocked");
    } else {
        push_str(&mut reason, "unknown");
    }
    let mut r = owned("release approval refused\nrun_id=");
    push_str(&mut r, run_id);
    push_str(&mut r, "\nreason=");
    push_str(&mut r, reason.as_str());
    push_str(&mut r, "\nblockers=");
    push_str(&mut r, join_strings(blockers, ",").as_str());
    r
}

} // verus!
