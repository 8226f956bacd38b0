use eva_runtime::contracts::MutationKind;
use eva_runtime::evolution::scorer::{score_cycle, CommandOutcome};

fn cmd(success: bool, ms: u128) -> CommandOutcome {
    CommandOutcome { success, duration_ms: ms }
}

#[test]
fn a_full_pass_scores_ten_and_is_useful() {
    let run = cmd(true, 5);
    let s = score_cycle(MutationKind::AddUnitTest, &cmd(true, 10), &cmd(true, 20), Some(&run));
    assert!(s.accepted);
    assert_eq!(s.score_points, 10);
    assert!(s.useful_change);
    assert!(s.non_candidate_reason.is_none());
    assert_eq!(s.total_duration_ms, 35);
}

#[test]
fn without_a_run_the_cycle_is_accepted_but_not_useful() {
    let s = score_cycle(MutationKind::ReplaceText, &cmd(true, 1), &cmd(true, 2), None);
    assert!(s.accepted);
    assert!(!s.run_passed);
    assert_eq!(s.score_points, 7);
    assert!(!s.useful_change);
    assert_eq!(s.total_duration_ms, 3);
}

#[test]
fn cosmetic_mutations_are_capped_at_two() {
    let run = cmd(true, 0);
    let s = score_cycle(MutationKind::AppendComment, &cmd(true, 0), &cmd(true, 0), Some(&run));
    assert_eq!(s.score_points, 2);
    assert!(!s.useful_change);
    assert_eq!(s.non_candidate_reason.as_deref(), Some("cosmetic_mutation"));
    let s = score_cycle(MutationKind::AppendComment, &cmd(false, 0), &cmd(false, 0), None);
    assert_eq!(s.score_points, 0);
}

#[test]
fn failing_tests_are_not_accepted() {
    let run = cmd(true, 0);
    let s = score_cycle(MutationKind::AddMetricUpdate, &cmd(true, 0), &cmd(false, 0), Some(&run));
    assert!(!s.accepted);
    assert_eq!(s.score_points, 6);
    assert!(!s.useful_change);
}
