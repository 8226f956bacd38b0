use eva_runtime::contracts::{CandidateState, EvolutionStatus, PromotionQueue, PromotionQueueItem};
use eva_runtime::evolution::promotion_queue::{
    build_queue_item, candidate_lifecycle, classify_candidate_state, classify_lifecycle,
    promotion_blocked_items, promotion_ready_items, refresh_promotion_queue,
    render_promotion_queue_markdown, summarize_queue, CandidateSummary, ReviewOutcome,
};

fn summary(run_id: &str) -> CandidateSummary {
    CandidateSummary {
        run_id: run_id.to_string(),
        mutation_kind: "addunittest".to_string(),
        target_file: "tests/evolution_generated_tests.rs".to_string(),
        useful_change: true,
        cargo_test_ok: true,
        cargo_run_ok: true,
        duplicate_rejected: false,
        status: EvolutionStatus::Candidate,
    }
}

fn bl(v: &[&str]) -> Vec<String> {
    v.iter().map(|s| s.to_string()).collect()
}

fn state(s: &CandidateSummary, class: &str, replay: &str, blockers: &[&str], report: bool) -> (CandidateState, String) {
    classify_candidate_state(s, class, replay, &bl(blockers), report)
}

#[test]
fn candidate_states_in_order() {
    let mut dup = summary("r");
    dup.duplicate_rejected = true;
    assert_eq!(state(&dup, "test", "ok", &[], false), (CandidateState::Duplicate, "duplicate safety rejection".to_string()));
    let s = summary("r");
    assert_eq!(state(&s, "test", "ok", &[], false).0, CandidateState::Stale);
    assert_eq!(state(&s, "test", "ok", &["report_missing"], true), (CandidateState::Blocked, "required candidate evidence is missing".to_string()));
    assert_eq!(state(&s, "", "ok", &[], true).0, CandidateState::Legacy);
    assert_eq!(state(&s, "cosmetic", "ok", &[], true), (CandidateState::Quarantined, "cosmetic mutation is isolated from promotion".to_string()));
    assert_eq!(state(&s, "test", "ok", &["already_promoted"], true).0, CandidateState::AlreadyPromoted);
    assert_eq!(state(&s, "test", "failed", &[], true), (CandidateState::Unreplayable, "replay status is failed".to_string()));
    let mut gate = summary("r");
    gate.cargo_run_ok = false;
    assert_eq!(state(&gate, "test", "ok", &[], true), (CandidateState::Quarantined, "cargo test/run gate did not pass".to_string()));
    assert_eq!(state(&s, "test", "ok", &["forbidden_target"], true).1, "forbidden target blocker");
    assert_eq!(state(&s, "test", "ok", &[], true), (CandidateState::Ready, "all required gates passed".to_string()));
    assert_eq!(state(&s, "test", "not_run", &["a", "b"], true), (CandidateState::Blocked, "a, b".to_string()));
    assert_eq!(state(&s, "test", "not_run", &[], true).0, CandidateState::Unknown);
}

#[test]
fn lifecycles_in_order() {
    let s = summary("r");
    let life = |class: &str, replay: &str, blockers: &[&str], allowed: bool, report: bool| {
        classify_lifecycle(&s, class, replay, &bl(blockers), allowed, report)
    };
    assert_eq!(life("test", "ok", &[], true, false).0, "stale_report");
    assert_eq!(life("cosmetic", "ok", &[], true, true).0, "cosmetic_rejected");
    assert_eq!(life("unsafe", "ok", &[], true, true).0, "unsafe_rejected");
    assert_eq!(life("legacy", "ok", &[], true, true), ("unknown".to_string(), "blocked".to_string(), "Legacy-мутация не допускается к promotion.".to_string()));
    assert_eq!(life("test", "ok", &["already_promoted"], true, true).0, "already_promoted");
    assert_eq!(life("test", "not_run", &[], true, true).1, "needs_replay");
    assert_eq!(life("test", "failed", &[], true, true).0, "replay_failed");
    assert_eq!(life("test", "ok", &[], true, true), ("ready".to_string(), "ready".to_string(), "Кандидат готов к ручному promotion-review.".to_string()));
    assert_eq!(life("test", "ok", &["x", "y"], false, true).2, "Кандидат заблокирован: x, y.");
    assert_eq!(life("test", "ok", &[], false, true).0, "unknown");
    let mut useless = summary("r");
    useless.useful_change = false;
    assert_eq!(classify_lifecycle(&useless, "test", "ok", &Vec::new(), true, true).0, "blocked");
}

fn item(run_id: &str, ready: bool) -> PromotionQueueItem {
    let review = ReviewOutcome {
        replay_status: "ok".to_string(),
        promotion_blockers: if ready { Vec::new() } else { bl(&["forbidden_target"]) },
        promotion_allowed: ready,
    };
    build_queue_item(&summary(run_id), "test".to_string(), Some(review), true, format!("reports/{run_id}.ru.md"), 5)
}

#[test]
fn queue_items_carry_their_review() {
    let ready = item("r2", true);
    assert_eq!(ready.lifecycle_state, "ready");
    assert_eq!(ready.candidate_state, CandidateState::Ready);
    assert_eq!(ready.cargo_test_ok, Some(true));
    assert!(!ready.promoted);
    let blocked = item("r1", false);
    assert_eq!(blocked.lifecycle_state, "blocked");
    assert_eq!(blocked.candidate_state, CandidateState::Blocked);
    let unreviewed = build_queue_item(&summary("r3"), "test".to_string(), None, true, String::new(), 0);
    assert_eq!(unreviewed.replay_status, "unknown");
    assert_eq!(unreviewed.promotion_blockers, bl(&["review_unavailable"]));
    assert_eq!(unreviewed.lifecycle_state, "replay_failed");
    assert_eq!(unreviewed.candidate_state, CandidateState::Unreplayable);
}

#[test]
fn the_queue_is_sorted_and_every_item_counted_once() {
    let q = refresh_promotion_queue(vec![item("r3", true), item("r1", false), item("r2", true)], 9);
    let ids: Vec<&str> = q.items.iter().map(|i| i.run_id.as_str()).collect();
    assert_eq!(ids, vec!["r1", "r2", "r3"]);
    assert_eq!(q.summary.candidate_count, 3);
    assert_eq!(q.summary.ready_candidates, 2);
    assert_eq!(q.summary.blocked_candidates, 1);
    let s = summarize_queue(&q.items);
    let total = s.ready_candidates + s.blocked_candidates + s.quarantined_candidates + s.legacy_candidates
        + s.duplicate_candidates + s.unreplayable_candidates + s.already_promoted_candidates + s.unknown_candidates;
    assert_eq!(total, s.candidate_count);
    let ready = promotion_ready_items(q.clone());
    let blocked = promotion_blocked_items(q.clone());
    assert_eq!(ready.len() + blocked.len(), 3);
    assert_eq!(ready.iter().map(|i| i.run_id.as_str()).collect::<Vec<_>>(), vec!["r2", "r3"]);
    assert_eq!(blocked[0].run_id, "r1");
}

#[test]
fn lifecycle_lookup() {
    let q = refresh_promotion_queue(vec![item("r1", false), item("r2", true)], 0);
    assert_eq!(candidate_lifecycle(q.clone(), "r2").unwrap().lifecycle_state, "ready");
    assert_eq!(candidate_lifecycle(q, "r9").unwrap_err(), "candidate lifecycle not found for r9");
}

#[test]
fn queue_report() {
    let empty = refresh_promotion_queue(Vec::new(), 0);
    assert_eq!(
        render_promotion_queue_markdown(&empty),
        "# Promotion Queue EVA\n\nitems=0\nready=0\nblocked=0\nquarantined=0\nlegacy=0\nduplicate=0\nunreplayable=0\nalready_promoted=0\nunknown=0\n\n(none)\n"
    );
    let q: PromotionQueue = refresh_promotion_queue(vec![item("r2", true)], 0);
    let md = render_promotion_queue_markdown(&q);
    assert!(md.contains("items=1\nready=1\nblocked=0\n"));
    assert!(md.ends_with("- r2 kind=addunittest class=test replay=ok lifecycle=ready state=Ready allowed=true target=tests/evolution_generated_tests.rs reason=Кандидат готов к ручному promotion-review.\n"));
}
