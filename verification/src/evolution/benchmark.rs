//! The counters of a benchmark series of planned cycles: what each cycle's
//! log entry, sandbox leaks and replay add.
use vstd::prelude::*;

use crate::contracts::{EvolutionLogEntry, EvolutionStatus};
use crate::text::{ends_with, has_prefix, has_suffix, starts_with, str_eq};

verus! {

/// The counters of a benchmark series. The average score and the candidate
/// and replay pass rates are floating point and are computed beside these.
#[derive(Clone, Debug)]
pub struct BenchmarkCounts {
    pub total_cycles: u64,
    pub passed_cycles: u64,
    pub failed_cycles: u64,
    pub useful_candidates: u64,
    pub cosmetic_runs: u64,
    pub duplicate_rejections: u64,
    pub replay_attempted: u64,
    pub replay_passed: u64,
    pub replay_failed: u64,
    pub forbidden_mutations: u64,
    pub sandbox_leaks: u64,
}

/// A series before its first cycle.
pub fn new_benchmark_counts() -> (c: BenchmarkCounts)
    ensures
        c.total_cycles == 0 && c.passed_cycles == 0 && c.failed_cycles == 0,
        c.useful_candidates == 0 && c.cosmetic_runs == 0 && c.duplicate_rejections == 0,
        c.replay_attempted == 0 && c.replay_passed == 0 && c.replay_failed == 0,
        c.forbidden_mutations == 0 && c.sandbox_leaks == 0,
{
    BenchmarkCounts {
        total_cycles: 0,
        passed_cycles: 0,
        failed_cycles: 0,
        useful_candidates: 0,
        cosmetic_runs: 0,
        duplicate_rejections: 0,
        replay_attempted: 0,
        replay_passed: 0,
        replay_failed: 0,
        forbidden_mutations: 0,
        sandbox_leaks: 0,
    }
}

/// A target no benchmark cycle may touch: the core, the crate roots and any manifest.
pub open spec fn benchmark_forbidden(t: Seq<char>) -> bool {
    has_prefix(t, "src/core/"@) || t == "src/main.rs"@ || t == "src/lib.rs"@ || t == "Cargo.toml"@
        || has_suffix(t, "/Cargo.toml"@)
}

/// Whether a benchmark cycle touching `target_file` touched a forbidden target.
pub fn is_forbidden_benchmark_target(target_file: &str) -> (r: bool)
    ensures
        r == benchmark_forbidden(target_file@),
{
    starts_with(target_file, "src/core/") || str_eq(target_file, "src/main.rs") || str_eq(
        target_file,
        "src/lib.rs",
    ) || str_eq(target_file, "Cargo.toml") || ends_with(target_file, "/Cargo.toml")
}

/// The cycle ended with a useful candidate, which is then replayed.
pub open spec fn replay_wanted(e: EvolutionLogEntry) -> bool {
    e.useful_change && e.status == EvolutionStatus::Candidate
}

/// Whether the cycle's candidate is replayed.
pub fn needs_replay(entry: &EvolutionLogEntry) -> (r: bool)
    ensures
        r == replay_wanted(*entry),
{
    entry.useful_change && entry.status == EvolutionStatus::Candidate
}

/// `1` when `b` holds, else `0`.
pub open spec fn one_if(b: bool) -> int {
    if b {
        1
    } else {
        0
    }
}

/// The counters have room for one more cycle that leaked `leaks` sandboxes.
pub open spec fn room_for_cycle(c: BenchmarkCounts, leaks: u64) -> bool {
    &&& c.total_cycles < u64::MAX && c.passed_cycles < u64::MAX && c.failed_cycles < u64::MAX
    &&& c.useful_candidates < u64::MAX && c.cosmetic_runs < u64::MAX
    &&& c.duplicate_rejections < u64::MAX && c.replay_attempted < u64::MAX
    &&& c.replay_passed < u64::MAX && c.replay_failed < u64::MAX
    &&& c.forbidden_mutations < u64::MAX && c.sandbox_leaks + leaks <= u64::MAX
}

/// Counts one cycle: its log entry, the sandboxes left after it, and (for a
/// useful candidate) whether its replay passed.
pub fn record_benchmark_cycle(
    counts: &mut BenchmarkCounts,
    entry: &EvolutionLogEntry,
    leaks: u64,
    replay_passed: bool,
)
    requires
        room_for_cycle(*old(counts), leaks),
    ensures
        final(counts).total_cycles == old(counts).total_cycles + 1,
        final(counts).failed_cycles == old(counts).failed_cycles + one_if(
            entry.status == EvolutionStatus::Failed,
        ),
        final(counts).passed_cycles == old(counts).passed_cycles + one_if(
            entry.status != EvolutionStatus::Failed,
        ),
        final(counts).useful_candidates == old(counts).useful_candidates + one_if(replay_wanted(*entry)),
        final(counts).cosmetic_runs == old(counts).cosmetic_runs + one_if(!entry.useful_change),
        final(counts).duplicate_rejections == old(counts).duplicate_rejections + one_if(
            entry.duplicate_rejected,
        ),
        final(counts).forbidden_mutations == old(counts).forbidden_mutations + one_if(
            benchmark_forbidden(entry.target_file@),
        ),
        final(counts).sandbox_leaks == old(counts).sandbox_leaks + leaks,
        final(counts).replay_attempted == old(counts).replay_attempted + one_if(replay_wanted(*entry)),
        final(counts).replay_passed == old(counts).replay_passed + one_if(
            replay_wanted(*entry) && replay_passed,
        ),
        final(counts).replay_failed == old(counts).replay_failed + one_if(
            replay_wanted(*entry) && !replay_passed,
        ),
{
    counts.total_cycles = counts.total_cycles + 1;
    if entry.status == EvolutionStatus::Failed {
        counts.failed_cycles = counts.failed_cycles + 1;
    } else {
        counts.passed_cycles = counts.passed_cycles + 1;
    }
    let useful = needs_replay(entry);
    if useful {
        counts.useful_candidates = counts.useful_candidates + 1;
    }
    if !entry.useful_change {
        counts.cosmetic_runs = counts.cosmetic_runs + 1;
    }
    if entry.duplicate_rejected {
        counts.duplicate_rejections = counts.duplicate_rejections + 1;
    }
    if is_forbidden_benchmark_target(entry.target_file.as_str()) {
        counts.forbidden_mutations = counts.forbidden_mutations + 1;
    }
    counts.sandbox_leaks = counts.sandbox_leaks + leaks;
    if useful {
        counts.replay_attempted = counts.replay_attempted + 1;
        if replay_passed {
            counts.replay_passed = counts.replay_passed + 1;
        } else {
            counts.replay_failed = counts.replay_failed + 1;
        }
    }
}

/// Every replayed candidate either passed or failed, and every cycle either
/// passed or failed: after any series of cycles from zero counters,
/// `replay_attempted == replay_passed + replay_failed` and
/// `total_cycles == passed_cycles + failed_cycles` keep holding.
pub proof fn lemma_benchmark_balances(
    before: BenchmarkCounts,
    after: BenchmarkCounts,
    entry: EvolutionLogEntry,
    leaks: u64,
    replay_passed: bool,
)
    requires
        before.replay_attempted == before.replay_passed + before.replay_failed,
        before.total_cycles == before.passed_cycles + before.failed_cycles,
        after.total_cycles == before.total_cycles + 1,
        after.failed_cycles == before.failed_cycles + one_if(entry.status == EvolutionStatus::Failed),
        after.passed_cycles == before.passed_cycles + one_if(entry.status != EvolutionStatus::Failed),
        after.replay_attempted == before.replay_attempted + one_if(replay_wanted(entry)),
        after.replay_passed == before.replay_passed + one_if(replay_wanted(entry) && replay_passed),
        after.replay_failed == before.replay_failed + one_if(replay_wanted(entry) && !replay_passed),
    ensures
        after.replay_attempted == after.replay_passed + after.replay_failed,
        after.total_cycles == after.passed_cycles + after.failed_cycles,
{
}

/// The recommended next step after a series.
pub open spec fn benchmark_next_step_text(replay_passed: u64) -> Seq<char> {
    if replay_passed > 0 {
        "Можно усиливать autonomy gate до следующего уровня после накопления достаточной серии запусков."@
    } else {
        "Нужно накопить replay-подтверждённые полезные кандидаты."@
    }
}

/// The recommended next step after a series.
pub fn benchmark_next_step(replay_passed: u64) -> (r: &'static str)
    ensures
        r@ == benchmark_next_step_text(replay_passed),
{
    if replay_passed > 0 {
        "Можно усиливать autonomy gate до следующего уровня после накопления достаточной серии запусков."
    } else {
        "Нужно накопить replay-подтверждённые полезные кандидаты."
    }
}

} // verus!
