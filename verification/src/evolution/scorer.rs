//! The score of one evolution cycle from its check, test and run results.
use vstd::prelude::*;

use crate::contracts::MutationKind;
use crate::text::owned;

verus! {

/// What one sandbox command reported: whether it succeeded and how long it took.
#[derive(Clone, Debug)]
pub struct CommandOutcome {
    pub success: bool,
    pub duration_ms: u128,
}

/// The score of a cycle. `score_points` is the score, a whole number of points.
#[derive(Clone, Debug)]
pub struct EvolutionScore {
    pub accepted: bool,
    pub score_points: u32,
    pub useful_change: bool,
    pub non_candidate_reason: Option<String>,
    pub check_passed: bool,
    pub test_passed: bool,
    pub run_passed: bool,
    pub total_duration_ms: u128,
}

/// Only a comment-appending mutation is cosmetic: every other template can be useful.
pub open spec fn useful_template(k: MutationKind) -> bool {
    k != MutationKind::AppendComment
}

/// The points of a cycle: 3 for the check, 4 for the tests, 3 for the run,
/// capped at 2 for a cosmetic mutation.
pub open spec fn cycle_points(check: bool, test: bool, run: bool, useful: bool) -> nat {
    let raw = (if check {
        3nat
    } else {
        0nat
    }) + (if test {
        4nat
    } else {
        0nat
    }) + (if run {
        3nat
    } else {
        0nat
    });
    if !useful && raw > 2 {
        2
    } else {
        raw
    }
}

/// The duration of an optional run; none when it did not run.
pub open spec fn run_duration(run: Option<&CommandOutcome>) -> nat {
    match run {
        Some(r) => r.duration_ms as nat,
        None => 0,
    }
}

/// Scores a cycle: accepted when the check and the tests pass, useful when
/// moreover the run passes and the template is not cosmetic.
pub fn score_cycle(
    mutation_kind: MutationKind,
    check: &CommandOutcome,
    test: &CommandOutcome,
    run: Option<&CommandOutcome>,
) -> (r: EvolutionScore)
    requires
        check.duration_ms + test.duration_ms + run_duration(run) <= u128::MAX,
    ensures
        r.accepted == (check.success && test.success),
        r.check_passed == check.success,
        r.test_passed == test.success,
        r.run_passed == (run matches Some(x) && x.success),
        r.useful_change == (useful_template(mutation_kind) && check.success && test.success
            && r.run_passed),
        r.score_points == cycle_points(
            check.success,
            test.success,
            r.run_passed,
            useful_template(mutation_kind),
        ),
        match r.non_candidate_reason {
            Some(reason) => !useful_template(mutation_kind) && reason@ == "cosmetic_mutation"@,
            None => useful_template(mutation_kind),
        },
        r.total_duration_ms == check.duration_ms + test.duration_ms + run_duration(run),
{
    let run_passed = match run {
        Some(x) => x.success,
        None => false,
    };
    let run_ms: u128 = match run {
        Some(x) => x.duration_ms,
        None => 0,
    };
    let total = check.duration_ms + test.duration_ms + run_ms;
    let mut points: u32 = 0;
    if check.success {
        points = points + 3;
    }
    if test.success {
        points = points + 4;
    }
    if run_passed {
        points = points + 3;
    }
    let useful = match mutation_kind {
        MutationKind::AppendComment => false,
        _ => true,
    };
    if !useful && points > 2 {
        points = 2;
    }
    EvolutionScore {
        accepted: check.success && test.success,
        score_points: points,
        useful_change: useful && check.success && test.success && run_passed,
        non_candidate_reason: if useful {
            None
        } else {
            Some(owned("cosmetic_mutation"))
        },
        check_passed: check.success,
        test_passed: test.success,
        run_passed,
        total_duration_ms: total,
    }
}

/// The points of a cycle. A cosmetic mutation scores at most 2, whatever its
/// results, and exactly the points a useful one would score, capped at 2. A
/// useful mutation scores 10 exactly when the check, the tests and the run
/// all pass. A step that passes never lowers the score.
pub proof fn lemma_cycle_points(check: bool, test: bool, run: bool, useful: bool)
    ensures
        cycle_points(check, test, run, false) <= 2,
        cycle_points(check, test, run, false) == if cycle_points(check, test, run, true) > 2 {
            2
        } else {
            cycle_points(check, test, run, true)
        },
        cycle_points(check, test, run, true) == 10 <==> (check && test && run),
        cycle_points(check, test, run, true) <= 10,
        cycle_points(false, test, run, useful) <= cycle_points(true, test, run, useful),
        cycle_points(check, false, run, useful) <= cycle_points(check, true, run, useful),
        cycle_points(check, test, false, useful) <= cycle_points(check, test, true, useful),
{
}

} // verus!
