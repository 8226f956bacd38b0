//! Run outcome classification and the run counters of the evolution metrics.
use vstd::prelude::*;

use crate::contracts::{EvolutionLogEntry, EvolutionMetrics, EvolutionStatus};
use crate::text::str_eq;

verus! {

/// How an evolution run ended, for the metrics.
#[derive(Clone, Copy, Debug, PartialEq, Eq, Structural)]
pub enum EvolutionRunOutcome {
    Passed,
    RealExecutionFailure,
    CargoGateFailure,
    ReplayFailure,
    DuplicateSafetyRejection,
    CosmeticRejection,
    AlreadyPromoted,
    PolicyRejection,
    BlockedByOperator,
    Unknown,
}

/// The outcome of a replay of a stored candidate: the fields the metrics read.
#[derive(Clone, Debug)]
pub struct ReplayResult {
    pub run_id: String,
    pub replay_status: EvolutionStatus,
    pub matches_stored_summary: bool,
    pub cargo_check_ok: bool,
    pub cargo_test_ok: bool,
    pub cargo_run_ok: bool,
    pub timestamp_unix: u64,
}

/// The entry's reason for not being a candidate is `r`.
pub open spec fn reason_is(e: EvolutionLogEntry, r: Seq<char>) -> bool {
    e.non_candidate_reason is Some && e.non_candidate_reason->0@ == r
}

/// A reason that marks a rejection by the evolution policy.
pub open spec fn is_policy_reason(e: EvolutionLogEntry) -> bool {
    reason_is(e, "policy_rejection"@) || reason_is(e, "task_constraints_too_narrow"@) || reason_is(
        e,
        "allowed_targets_filtered_all"@,
    ) || reason_is(e, "allowed_kinds_filtered_all"@) || reason_is(e, "blocked_by_policy"@)
}

/// The outcome of a logged run, decided in order: duplicate, promoted,
/// passed, cosmetic, policy, then the failures.
pub open spec fn run_outcome(e: EvolutionLogEntry) -> EvolutionRunOutcome {
    if e.duplicate_rejected {
        EvolutionRunOutcome::DuplicateSafetyRejection
    } else if e.retained_in_core || e.status == EvolutionStatus::Promoted {
        EvolutionRunOutcome::AlreadyPromoted
    } else if e.status == EvolutionStatus::Passed || e.status == EvolutionStatus::Candidate {
        EvolutionRunOutcome::Passed
    } else if e.mutation_class@ == "cosmetic"@ || reason_is(e, "cosmetic_mutation"@)
        || e.mutation_kind@ == "appendcomment"@ {
        EvolutionRunOutcome::CosmeticRejection
    } else if is_policy_reason(e) {
        EvolutionRunOutcome::PolicyRejection
    } else if e.status == EvolutionStatus::Failed {
        if !e.cargo_check_ok || !e.cargo_test_ok || !e.cargo_run_ok {
            EvolutionRunOutcome::CargoGateFailure
        } else if reason_is(e, "blocked_by_operator"@) {
            EvolutionRunOutcome::BlockedByOperator
        } else if reason_is(e, "unknown"@) {
            EvolutionRunOutcome::Unknown
        } else {
            EvolutionRunOutcome::RealExecutionFailure
        }
    } else {
        EvolutionRunOutcome::Unknown
    }
}

fn reason_equals(e: &EvolutionLogEntry, r: &str) -> (b: bool)
    ensures
        b == reason_is(*e, r@),
{
    match &e.non_candidate_reason {
        Some(x) => str_eq(x.as_str(), r),
        None => false,
    }
}

/// The outcome of a logged run.
pub fn classify_run_outcome(entry: &EvolutionLogEntry) -> (o: EvolutionRunOutcome)
    ensures
        o == run_outcome(*entry),
{
    if entry.duplicate_rejected {
        return EvolutionRunOutcome::DuplicateSafetyRejection;
    }
    if entry.retained_in_core || entry.status == EvolutionStatus::Promoted {
        return EvolutionRunOutcome::AlreadyPromoted;
    }
    if entry.status == EvolutionStatus::Passed || entry.status == EvolutionStatus::Candidate {
        return EvolutionRunOutcome::Passed;
    }
    if str_eq(entry.mutation_class.as_str(), "cosmetic") || reason_equals(
        entry,
        "cosmetic_mutation",
    ) || str_eq(entry.mutation_kind.as_str(), "appendcomment") {
        return EvolutionRunOutcome::CosmeticRejection;
    }
    if reason_equals(entry, "policy_rejection") || reason_equals(
        entry,
        "task_constraints_too_narrow",
    ) || reason_equals(entry, "allowed_targets_filtered_all") || reason_equals(
        entry,
        "allowed_kinds_filtered_all",
    ) || reason_equals(entry, "blocked_by_policy") {
        return EvolutionRunOutcome::PolicyRejection;
    }
    if entry.status == EvolutionStatus::Failed {
        if !entry.cargo_check_ok || !entry.cargo_test_ok || !entry.cargo_run_ok {
            return EvolutionRunOutcome::CargoGateFailure;
        }
        if reason_equals(entry, "blocked_by_operator") {
            return EvolutionRunOutcome::BlockedByOperator;
        }
        if reason_equals(entry, "unknown") {
            return EvolutionRunOutcome::Unknown;
        }
        return EvolutionRunOutcome::RealExecutionFailure;
    }
    EvolutionRunOutcome::Unknown
}

/// The counters after one run with outcome `o`.
pub open spec fn counted(m: EvolutionMetrics, o: EvolutionRunOutcome) -> EvolutionMetrics {
    match o {
        EvolutionRunOutcome::Passed => EvolutionMetrics { passed_runs: (m.passed_runs + 1) as u64, ..m },
        EvolutionRunOutcome::RealExecutionFailure => EvolutionMetrics {
            failed_runs: (m.failed_runs + 1) as u64,
            real_execution_failed_runs: (m.real_execution_failed_runs + 1) as u64,
            ..m
        },
        EvolutionRunOutcome::CargoGateFailure => EvolutionMetrics {
            failed_runs: (m.failed_runs + 1) as u64,
            cargo_gate_failed_runs: (m.cargo_gate_failed_runs + 1) as u64,
            ..m
        },
        EvolutionRunOutcome::ReplayFailure => EvolutionMetrics {
            failed_runs: (m.failed_runs + 1) as u64,
            replay_failed_runs: (m.replay_failed_runs + 1) as u64,
            ..m
        },
        EvolutionRunOutcome::DuplicateSafetyRejection => EvolutionMetrics {
            safety_rejected_runs: (m.safety_rejected_runs + 1) as u64,
            duplicate_rejected_runs: (m.duplicate_rejected_runs + 1) as u64,
            ..m
        },
        EvolutionRunOutcome::CosmeticRejection => EvolutionMetrics {
            safety_rejected_runs: (m.safety_rejected_runs + 1) as u64,
            cosmetic_rejected_runs: (m.cosmetic_rejected_runs + 1) as u64,
            ..m
        },
        EvolutionRunOutcome::AlreadyPromoted => EvolutionMetrics {
            already_promoted_runs: (m.already_promoted_runs + 1) as u64,
            ..m
        },
        EvolutionRunOutcome::PolicyRejection => EvolutionMetrics {
            safety_rejected_runs: (m.safety_rejected_runs + 1) as u64,
            policy_rejected_runs: (m.policy_rejected_runs + 1) as u64,
            ..m
        },
        EvolutionRunOutcome::BlockedByOperator => EvolutionMetrics {
            policy_rejected_runs: (m.policy_rejected_runs + 1) as u64,
            ..m
        },
        EvolutionRunOutcome::Unknown => EvolutionMetrics { unknown_runs: (m.unknown_runs + 1) as u64, ..m },
    }
}

/// No outcome counter is at its limit.
pub open spec fn counters_below(m: EvolutionMetrics, limit: int) -> bool {
    m.passed_runs < limit && m.failed_runs < limit && m.real_execution_failed_runs < limit
        && m.cargo_gate_failed_runs < limit && m.replay_failed_runs < limit
        && m.safety_rejected_runs < limit && m.duplicate_rejected_runs < limit
        && m.cosmetic_rejected_runs < limit && m.already_promoted_runs < limit
        && m.policy_rejected_runs < limit && m.unknown_runs < limit
}

/// Counts one run with outcome `outcome`.
pub fn apply_outcome_counts(metrics: &mut EvolutionMetrics, outcome: EvolutionRunOutcome)
    requires
        counters_below(*old(metrics), u64::MAX as int),
    ensures
        *final(metrics) == counted(*old(metrics), outcome),
{
    match outcome {
        EvolutionRunOutcome::Passed => metrics.passed_runs = metrics.passed_runs + 1,
        EvolutionRunOutcome::RealExecutionFailure => {
            metrics.failed_runs = metrics.failed_runs + 1;
            metrics.real_execution_failed_runs = metrics.real_execution_failed_runs + 1;
        },
        EvolutionRunOutcome::CargoGateFailure => {
            metrics.failed_runs = metrics.failed_runs + 1;
            metrics.cargo_gate_failed_runs = metrics.cargo_gate_failed_runs + 1;
        },
        EvolutionRunOutcome::ReplayFailure => {
            metrics.failed_runs = metrics.failed_runs + 1;
            metrics.replay_failed_runs = metrics.replay_failed_runs + 1;
        },
        EvolutionRunOutcome::DuplicateSafetyRejection => {
            metrics.safety_rejected_runs = metrics.safety_rejected_runs + 1;
            metrics.duplicate_rejected_runs = metrics.duplicate_rejected_runs + 1;
        },
        EvolutionRunOutcome::CosmeticRejection => {
            metrics.safety_rejected_runs = metrics.safety_rejected_runs + 1;
            metrics.cosmetic_rejected_runs = metrics.cosmetic_rejected_runs + 1;
        },
        EvolutionRunOutcome::AlreadyPromoted => metrics.already_promoted_runs =
        metrics.already_promoted_runs + 1,
        EvolutionRunOutcome::PolicyRejection => {
            metrics.safety_rejected_runs = metrics.safety_rejected_runs + 1;
            metrics.policy_rejected_runs = metrics.policy_rejected_runs + 1;
        },
        EvolutionRunOutcome::BlockedByOperator => metrics.policy_rejected_runs =
        metrics.policy_rejected_runs + 1,
        EvolutionRunOutcome::Unknown => metrics.unknown_runs = metrics.unknown_runs + 1,
    }
}

/// The runs counted in the categories that each outcome falls in exactly once.
pub open spec fn classified_runs(m: EvolutionMetrics) -> int {
    m.passed_runs + m.real_execution_failed_runs + m.cargo_gate_failed_runs + m.replay_failed_runs
        + m.duplicate_rejected_runs + m.cosmetic_rejected_runs + m.already_promoted_runs
        + m.policy_rejected_runs + m.unknown_runs
}

/// Counting one run adds it to exactly one category, keeps the failed runs
/// equal to the sum of their three kinds (when they were), and never lowers a counter.
pub proof fn lemma_counted_once(m: EvolutionMetrics, o: EvolutionRunOutcome)
    requires
        counters_below(m, u64::MAX as int),
    ensures
        classified_runs(counted(m, o)) == classified_runs(m) + 1,
        counted(m, o).failed_runs - counted(m, o).real_execution_failed_runs - counted(
            m,
            o,
        ).cargo_gate_failed_runs - counted(m, o).replay_failed_runs == m.failed_runs
            - m.real_execution_failed_runs - m.cargo_gate_failed_runs - m.replay_failed_runs,
        counted(m, o).total_runs == m.total_runs,
        counted(m, o).passed_runs >= m.passed_runs,
        counted(m, o).failed_runs >= m.failed_runs,
{
}

/// The replay confirmed the stored candidate and passed all cargo gates.
pub open spec fn replay_ok(r: ReplayResult) -> bool {
    r.matches_stored_summary && r.replay_status != EvolutionStatus::Failed && r.cargo_check_ok
        && r.cargo_test_ok && r.cargo_run_ok
}

/// Whether the replay confirmed the stored candidate and passed all cargo gates.
pub fn replay_is_ok(replay: &ReplayResult) -> (b: bool)
    ensures
        b == replay_ok(*replay),
{
    replay.matches_stored_summary && replay.replay_status != EvolutionStatus::Failed
        && replay.cargo_check_ok && replay.cargo_test_ok && replay.cargo_run_ok
}

/// The counters after logging one more run.
pub open spec fn logged(m: EvolutionMetrics, e: EvolutionLogEntry) -> EvolutionMetrics {
    let c = counted(m, run_outcome(e));
    EvolutionMetrics {
        total_runs: (m.total_runs + 1) as u64,
        candidate_count: if e.status == EvolutionStatus::Candidate {
            (m.candidate_count + 1) as u64
        } else {
            m.candidate_count
        },
        promoted_count: if e.status == EvolutionStatus::Promoted || e.retained_in_core {
            (m.promoted_count + 1) as u64
        } else {
            m.promoted_count
        },
        last_run_id: Some(e.run_id),
        ..c
    }
}

/// Counts a newly logged run: one more run, its outcome, and whether it is a
/// candidate or was promoted; it becomes the last run.
pub fn update_metrics_after_log(metrics: &mut EvolutionMetrics, entry: &EvolutionLogEntry)
    requires
        counters_below(*old(metrics), u64::MAX as int),
        old(metrics).total_runs < u64::MAX,
        old(metrics).candidate_count < u64::MAX,
        old(metrics).promoted_count < u64::MAX,
    ensures
        *final(metrics) == logged(*old(metrics), *entry),
{
    metrics.total_runs = metrics.total_runs + 1;
    apply_outcome_counts(metrics, classify_run_outcome(entry));
    if entry.status == EvolutionStatus::Candidate {
        metrics.candidate_count = metrics.candidate_count + 1;
    }
    if entry.status == EvolutionStatus::Promoted || entry.retained_in_core {
        metrics.promoted_count = metrics.promoted_count + 1;
    }
    metrics.last_run_id = Some(entry.run_id.clone());
}

/// Counts a replay: a confirmed replay as passed; any other as a failed
/// replay, a failed replay run and a failed run.
pub fn update_metrics_after_replay(metrics: &mut EvolutionMetrics, replay: &ReplayResult)
    requires
        old(metrics).replay_passed < u64::MAX,
        old(metrics).replay_failed < u64::MAX,
        old(metrics).replay_failed_runs < u64::MAX,
        old(metrics).failed_runs < u64::MAX,
    ensures
        replay_ok(*replay) ==> *final(metrics) == (EvolutionMetrics {
            replay_passed: (old(metrics).replay_passed + 1) as u64,
            ..*old(metrics)
        }),
        !replay_ok(*replay) ==> *final(metrics) == (EvolutionMetrics {
            replay_failed: (old(metrics).replay_failed + 1) as u64,
            replay_failed_runs: (old(metrics).replay_failed_runs + 1) as u64,
            failed_runs: (old(metrics).failed_runs + 1) as u64,
            ..*old(metrics)
        }),
{
    if replay_is_ok(replay) {
        metrics.replay_passed = metrics.replay_passed + 1;
    } else {
        metrics.replay_failed = metrics.replay_failed + 1;
        metrics.replay_failed_runs = metrics.replay_failed_runs + 1;
        metrics.failed_runs = metrics.failed_runs + 1;
    }
}

/// Counters with nothing counted.
pub open spec fn zero_metrics() -> EvolutionMetrics {
    EvolutionMetrics {
        total_runs: 0,
        passed_runs: 0,
        failed_runs: 0,
        real_execution_failed_runs: 0,
        cargo_gate_failed_runs: 0,
        replay_failed_runs: 0,
        safety_rejected_runs: 0,
        duplicate_rejected_runs: 0,
        cosmetic_rejected_runs: 0,
        already_promoted_runs: 0,
        policy_rejected_runs: 0,
        unknown_runs: 0,
        candidate_count: 0,
        replay_passed: 0,
        replay_failed: 0,
        promoted_count: 0,
        last_run_id: None,
    }
}

/// The outcome counters of the runs `s`, counted from nothing.
pub open spec fn count_outcomes(s: Seq<EvolutionLogEntry>) -> EvolutionMetrics
    decreases s.len(),
{
    if s.len() == 0 {
        zero_metrics()
    } else {
        counted(count_outcomes(s.drop_last()), run_outcome(s.last()))
    }
}

/// Every run falls in exactly one outcome category; failed runs are those of
/// the three failure kinds, and no outcome is a failed replay.
pub proof fn lemma_count_outcomes(s: Seq<EvolutionLogEntry>)
    requires
        s.len() <= u64::MAX,
    ensures
        classified_runs(count_outcomes(s)) == s.len(),
        count_outcomes(s).failed_runs == count_outcomes(s).real_execution_failed_runs
            + count_outcomes(s).cargo_gate_failed_runs,
        count_outcomes(s).replay_failed_runs == 0,
        count_outcomes(s).safety_rejected_runs <= count_outcomes(s).duplicate_rejected_runs
            + count_outcomes(s).cosmetic_rejected_runs + count_outcomes(s).policy_rejected_runs,
        count_outcomes(s).total_runs == 0,
        count_outcomes(s).candidate_count == 0,
        count_outcomes(s).replay_passed == 0,
        count_outcomes(s).replay_failed == 0,
        count_outcomes(s).promoted_count == 0,
        count_outcomes(s).last_run_id is None,
    decreases s.len(),
{
    if s.len() > 0 {
        lemma_count_outcomes(s.drop_last());
        assert(run_outcome(s.last()) != EvolutionRunOutcome::ReplayFailure);
        lemma_counted_once(count_outcomes(s.drop_last()), run_outcome(s.last()));
    }
}

/// The number of replays of `r` that passed (when `ok`) or did not (otherwise).
pub open spec fn count_replays(r: Seq<ReplayResult>, ok: bool) -> nat
    decreases r.len(),
{
    if r.len() == 0 {
        0
    } else {
        count_replays(r.drop_last(), ok) + if replay_ok(r.last()) == ok {
            1nat
        } else {
            0nat
        }
    }
}

/// The number of runs of `s` whose mutation was retained in the core.
pub open spec fn count_retained(s: Seq<EvolutionLogEntry>) -> nat
    decreases s.len(),
{
    if s.len() == 0 {
        0
    } else {
        count_retained(s.drop_last()) + if s.last().retained_in_core {
            1nat
        } else {
            0nat
        }
    }
}

/// The run counters recomputed from the whole log, the number of stored
/// candidates and the replays.
pub open spec fn refreshed(
    logs: Seq<EvolutionLogEntry>,
    candidate_count: u64,
    replays: Seq<ReplayResult>,
) -> EvolutionMetrics {
    let c = count_outcomes(logs);
    let failed_replays = count_replays(replays, false);
    EvolutionMetrics {
        total_runs: logs.len() as u64,
        failed_runs: (c.failed_runs + failed_replays) as u64,
        replay_failed_runs: failed_replays as u64,
        candidate_count,
        replay_passed: count_replays(replays, true) as u64,
        replay_failed: failed_replays as u64,
        promoted_count: count_retained(logs) as u64,
        last_run_id: if logs.len() == 0 {
            None
        } else {
            Some(logs.last().run_id)
        },
        ..c
    }
}

proof fn lemma_count_bounds(s: Seq<EvolutionLogEntry>, r: Seq<ReplayResult>)
    ensures
        count_retained(s) <= s.len(),
        count_replays(r, true) + count_replays(r, false) == r.len(),
    decreases s.len() + r.len(),
{
    if s.len() > 0 {
        lemma_count_bounds(s.drop_last(), r);
    } else if r.len() > 0 {
        lemma_count_bounds(s, r.drop_last());
    }
}

/// Recomputes the run counters from the whole log, the number of stored
/// candidates and the replays: each run counted by its outcome, failed
/// replays counted as failed runs, and the last logged run as the last run.
pub fn refresh_metrics(
    logs: &Vec<EvolutionLogEntry>,
    candidate_count: u64,
    replays: &Vec<ReplayResult>,
) -> (m: EvolutionMetrics)
    requires
        logs.len() + replays.len() <= u64::MAX,
    ensures
        m == refreshed(logs@, candidate_count, replays@),
{
    let mut m = EvolutionMetrics {
        total_runs: 0,
        passed_runs: 0,
        failed_runs: 0,
        real_execution_failed_runs: 0,
        cargo_gate_failed_runs: 0,
        replay_failed_runs: 0,
        safety_rejected_runs: 0,
        duplicate_rejected_runs: 0,
        cosmetic_rejected_runs: 0,
        already_promoted_runs: 0,
        policy_rejected_runs: 0,
        unknown_runs: 0,
        candidate_count: 0,
        replay_passed: 0,
        replay_failed: 0,
        promoted_count: 0,
        last_run_id: None,
    };
    let mut retained: u64 = 0;
    let mut i: usize = 0;
    while i < logs.len()
        invariant
            i <= logs.len(),
            logs.len() + replays.len() <= u64::MAX,
            m == count_outcomes(logs@.take(i as int)),
            retained == count_retained(logs@.take(i as int)),
        decreases logs.len() - i,
    {
        proof {
            assert(logs@.take(i + 1).drop_last() =~= logs@.take(i as int));
            assert(logs@.take(i + 1).last() == logs@[i as int]);
            lemma_count_outcomes(logs@.take(i as int));
            lemma_count_bounds(logs@.take(i as int), Seq::<ReplayResult>::empty());
        }
        apply_outcome_counts(&mut m, classify_run_outcome(&logs[i]));
        if logs[i].retained_in_core {
            retained = retained + 1;
        }
        i = i + 1;
    }
    assert(logs@.take(i as int) =~= logs@);
    let mut passed: u64 = 0;
    let mut failed: u64 = 0;
    let mut j: usize = 0;
    while j < replays.len()
        invariant
            j <= replays.len(),
            logs.len() + replays.len() <= u64::MAX,
            passed == count_replays(replays@.take(j as int), true),
            failed == count_replays(replays@.take(j as int), false),
        decreases replays.len() - j,
    {
        proof {
            assert(replays@.take(j + 1).drop_last() =~= replays@.take(j as int));
            assert(replays@.take(j + 1).last() == replays@[j as int]);
            lemma_count_bounds(Seq::<EvolutionLogEntry>::empty(), replays@.take(j as int));
        }
        if replay_is_ok(&replays[j]) {
            passed = passed + 1;
        } else {
            failed = failed + 1;
        }
        j = j + 1;
    }
    assert(replays@.take(j as int) =~= replays@);
    proof {
        lemma_count_outcomes(logs@);
        lemma_count_bounds(logs@, replays@);
    }
    let last_run_id = if logs.len() == 0 {
        None
    } else {
        Some(logs[logs.len() - 1].run_id.clone())
    };
    EvolutionMetrics {
        total_runs: logs.len() as u64,
        passed_runs: m.passed_runs,
        failed_runs: m.failed_runs + failed,
        real_execution_failed_runs: m.real_execution_failed_runs,
        cargo_gate_failed_runs: m.cargo_gate_failed_runs,
        replay_failed_runs: failed,
        safety_rejected_runs: m.safety_rejected_runs,
        duplicate_rejected_runs: m.duplicate_rejected_runs,
        cosmetic_rejected_runs: m.cosmetic_rejected_runs,
        already_promoted_runs: m.already_promoted_runs,
        policy_rejected_runs: m.policy_rejected_runs,
        unknown_runs: m.unknown_runs,
        candidate_count,
        replay_passed: passed,
        replay_failed: failed,
        promoted_count: retained,
        last_run_id,
    }
}

/// After a refresh every logged run and every failed replay is counted in
/// exactly one category, and the failed runs are exactly those of the three
/// failure kinds.
pub proof fn lemma_refreshed_counts(
    logs: Seq<EvolutionLogEntry>,
    candidate_count: u64,
    replays: Seq<ReplayResult>,
)
    requires
        logs.len() + replays.len() <= u64::MAX,
    ensures
        classified_runs(refreshed(logs, candidate_count, replays)) == logs.len()
            + count_replays(replays, false),
        refreshed(logs, candidate_count, replays).failed_runs == refreshed(
            logs,
            candidate_count,
            replays,
        ).real_execution_failed_runs + refreshed(logs, candidate_count, replays).cargo_gate_failed_runs
            + refreshed(logs, candidate_count, replays).replay_failed_runs,
        refreshed(logs, candidate_count, replays).replay_passed + refreshed(
            logs,
            candidate_count,
            replays,
        ).replay_failed == replays.len(),
        refreshed(logs, candidate_count, replays).total_runs == logs.len(),
{
    lemma_count_outcomes(logs);
    lemma_count_bounds(logs, replays);
}

/// How a logged run is classified. A duplicate rejection is always classified
/// as one; otherwise a run kept in the core or promoted counts as already
/// promoted; otherwise a run whose status is passed or candidate counts as
/// passed, whatever its class, kind, reason and cargo results. A run counts as
/// passed only in that case.
pub proof fn lemma_run_outcome_classes(e: EvolutionLogEntry)
    ensures
        e.duplicate_rejected ==> run_outcome(e) == EvolutionRunOutcome::DuplicateSafetyRejection,
        !e.duplicate_rejected && (e.retained_in_core || e.status == EvolutionStatus::Promoted)
            ==> run_outcome(e) == EvolutionRunOutcome::AlreadyPromoted,
        !e.duplicate_rejected && !e.retained_in_core && (e.status == EvolutionStatus::Passed
            || e.status == EvolutionStatus::Candidate) ==> run_outcome(e)
            == EvolutionRunOutcome::Passed,
        run_outcome(e) == EvolutionRunOutcome::Passed ==> !e.duplicate_rejected
            && !e.retained_in_core && (e.status == EvolutionStatus::Passed || e.status
            == EvolutionStatus::Candidate),
        e.status == EvolutionStatus::Failed && !e.duplicate_rejected && !e.retained_in_core
            ==> run_outcome(e) != EvolutionRunOutcome::Passed,
{
}

} // verus!
