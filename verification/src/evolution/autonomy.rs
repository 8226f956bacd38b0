//! The autonomy gate: the safe autonomy level, its blockers and the campaign limits.
use vstd::prelude::*;

use crate::contracts::{EvolutionLogEntry, EvolutionMetrics, EvolutionStatus};
use crate::text::{decimal, flag, has_prefix, push_decimal, push_owned, push_str, starts_with, str_eq, views};

verus! {

/// The current safe autonomy level and what stands between it and the next.
#[derive(Clone, Debug)]
pub struct AutonomyStatus {
    pub current_level: u8,
    pub allowed_next_level: u8,
    pub blockers: Vec<String>,
    pub required_metrics: Vec<String>,
    pub campaign_mode_allowed: bool,
    pub max_campaign_cycles: usize,
    pub level4_blockers: Vec<String>,
    pub current_safe_autonomy_level: u8,
}

/// How stable the most recent sandbox cargo gates were.
#[derive(Clone, Debug, PartialEq, Eq, Structural)]
pub struct RecentGateSummary {
    pub recent_checked_runs: usize,
    pub recent_gate_passed: usize,
    pub recent_gate_failed: usize,
    pub stable: bool,
}

/// What the autonomy gate reads besides the run counters.
///
/// The ratios are floating point in the runtime: the autonomy level receives whether each
/// passes its threshold, and each as the text (two decimals) that its messages show.
#[derive(Clone, Debug)]
pub struct AutonomyEvidence {
    pub sandbox_leaks: u64,
    pub forbidden_mutations: u64,
    pub useful_candidates: u64,
    pub pass_ratio_at_least_0_8: bool,
    pub pass_ratio_text: String,
    pub regression_rate_at_most_0_3: bool,
    pub regression_rate_text: String,
    pub recent: RecentGateSummary,
}

/// An evolution log entry written by the current runtime (not reconstructed from a legacy line).
pub open spec fn is_explicit_entry(e: EvolutionLogEntry) -> bool {
    !has_prefix(e.run_id@, "legacy-run-"@) && e.timestamp_unix != 0
}

/// Whether the entry was written by the current runtime.
pub fn explicit_log_entry(e: &EvolutionLogEntry) -> (r: bool)
    ensures
        r == is_explicit_entry(*e),
{
    !starts_with(e.run_id.as_str(), "legacy-run-") && e.timestamp_unix != 0
}

/// A target file that no mutation may touch: the core, the crate roots and the manifest.
pub open spec fn is_forbidden_target(t: Seq<char>) -> bool {
    has_prefix(t, "src/core/"@) || t == "src/main.rs"@ || t == "src/lib.rs"@ || t == "Cargo.toml"@
}

/// Whether the target file is one that no mutation may touch.
pub fn forbidden_target(t: &str) -> (r: bool)
    ensures
        r == is_forbidden_target(t@),
{
    starts_with(t, "src/core/") || str_eq(t, "src/main.rs") || str_eq(t, "src/lib.rs") || str_eq(
        t,
        "Cargo.toml",
    )
}

/// The number of explicit entries of `s` that satisfy `p`.
pub open spec fn count_explicit(s: Seq<EvolutionLogEntry>, p: spec_fn(EvolutionLogEntry) -> bool) -> nat
    decreases s.len(),
{
    if s.len() == 0 {
        0
    } else {
        count_explicit(s.drop_last(), p) + if is_explicit_entry(s.last()) && p(s.last()) {
            1nat
        } else {
            0nat
        }
    }
}

/// The entry mutated a forbidden target.
pub open spec fn touches_forbidden(e: EvolutionLogEntry) -> bool {
    is_forbidden_target(e.target_file@)
}

/// The entry ended as a candidate.
pub open spec fn is_candidate_entry(e: EvolutionLogEntry) -> bool {
    e.status == EvolutionStatus::Candidate
}

/// The number of explicit log entries whose mutation touched a forbidden target.
pub fn count_forbidden_mutations(entries: &Vec<EvolutionLogEntry>) -> (n: u64)
    ensures
        n == count_explicit(entries@, |e: EvolutionLogEntry| touches_forbidden(e)),
{
    let ghost p = |e: EvolutionLogEntry| touches_forbidden(e);
    let mut n: u64 = 0;
    let mut i: usize = 0;
    while i < entries.len()
        invariant
            i <= entries.len(),
            n == count_explicit(entries@.take(i as int), p),
            n <= i,
            p == (|e: EvolutionLogEntry| touches_forbidden(e)),
        decreases entries.len() - i,
    {
        assert(entries@.take(i + 1).drop_last() =~= entries@.take(i as int));
        assert(entries@.take(i + 1).last() == entries@[i as int]);
        let e = &entries[i];
        let hit = explicit_log_entry(e) && forbidden_target(e.target_file.as_str());
        if hit {
            n = n + 1;
        }
        i = i + 1;
    }
    assert(entries@.take(i as int) =~= entries@);
    n
}

/// The number of explicit log entries that ended as candidates.
pub fn useful_candidate_runs(entries: &Vec<EvolutionLogEntry>) -> (n: u64)
    ensures
        n == count_explicit(entries@, |e: EvolutionLogEntry| is_candidate_entry(e)),
{
    let ghost p = |e: EvolutionLogEntry| is_candidate_entry(e);
    let mut n: u64 = 0;
    let mut i: usize = 0;
    while i < entries.len()
        invariant
            i <= entries.len(),
            n == count_explicit(entries@.take(i as int), p),
            n <= i,
            p == (|e: EvolutionLogEntry| is_candidate_entry(e)),
        decreases entries.len() - i,
    {
        assert(entries@.take(i + 1).drop_last() =~= entries@.take(i as int));
        assert(entries@.take(i + 1).last() == entries@[i as int]);
        let e = &entries[i];
        let hit = explicit_log_entry(e) && e.status == EvolutionStatus::Candidate;
        if hit {
            n = n + 1;
        }
        i = i + 1;
    }
    assert(entries@.take(i as int) =~= entries@);
    n
}

/// The run went through the sandbox cargo gates (not rejected, promoted or cosmetic beforehand).
pub open spec fn is_gate_run(e: EvolutionLogEntry) -> bool {
    !e.duplicate_rejected && !e.retained_in_core && e.mutation_kind@ != "appendcomment"@
        && !(e.non_candidate_reason is Some && e.non_candidate_reason->0@ == "cosmetic_mutation"@)
}

/// Whether the run went through the sandbox cargo gates.
pub fn is_actual_sandbox_gate_run(e: &EvolutionLogEntry) -> (r: bool)
    ensures
        r == is_gate_run(*e),
{
    if e.duplicate_rejected {
        return false;
    }
    if e.retained_in_core {
        return false;
    }
    let cosmetic = match &e.non_candidate_reason {
        Some(reason) => str_eq(reason.as_str(), "cosmetic_mutation"),
        None => false,
    };
    if str_eq(e.mutation_kind.as_str(), "appendcomment") || cosmetic {
        return false;
    }
    true
}

/// The run passed all three cargo gates.
pub open spec fn gate_passed(e: EvolutionLogEntry) -> bool {
    e.cargo_check_ok && e.cargo_test_ok && e.cargo_run_ok
}

/// The counts (checked, passed) over the first `limit` explicit gate runs of `s`.
pub open spec fn gate_counts(s: Seq<EvolutionLogEntry>, limit: nat) -> (nat, nat)
    decreases s.len(),
{
    if s.len() == 0 || limit == 0 {
        (0, 0)
    } else if is_explicit_entry(s[0]) && is_gate_run(s[0]) {
        let rest = gate_counts(s.drop_first(), (limit - 1) as nat);
        (rest.0 + 1, rest.1 + if gate_passed(s[0]) {
            1nat
        } else {
            0nat
        })
    } else {
        gate_counts(s.drop_first(), limit)
    }
}

/// The cargo-run summary when the log holds no gate runs: stable exactly when runs
/// passed, none failed, no sandbox leaked and no forbidden mutation was seen.
pub open spec fn fallback_summary(passed_runs: u64, failed_runs: u64, sandbox_leaks: u64, forbidden: u64) -> RecentGateSummary {
    let stable = passed_runs > 0 && failed_runs == 0 && sandbox_leaks == 0 && forbidden == 0;
    RecentGateSummary {
        recent_checked_runs: 0,
        recent_gate_passed: if stable { 1 } else { 0 },
        recent_gate_failed: if stable { 0 } else { 1 },
        stable,
    }
}

/// The cargo-run summary used when the log holds no gate runs.
pub fn fallback_recent_gate_summary(
    metrics: &EvolutionMetrics,
    sandbox_leaks: u64,
    forbidden_mutations: u64,
) -> (r: RecentGateSummary)
    ensures
        r == fallback_summary(metrics.passed_runs, metrics.failed_runs, sandbox_leaks, forbidden_mutations),
{
    let stable = metrics.passed_runs > 0 && metrics.failed_runs == 0 && sandbox_leaks == 0
        && forbidden_mutations == 0;
    RecentGateSummary {
        recent_checked_runs: 0,
        recent_gate_passed: if stable { 1 } else { 0 },
        recent_gate_failed: if stable { 0 } else { 1 },
        stable,
    }
}

/// The summary of the ten most recent gate runs; `newest_first` holds the log
/// entries from the newest to the oldest. Without gate runs it is the fallback.
/// The runs are stable when none failed or at least nine in ten passed.
pub fn recent_gate_summary(
    newest_first: &Vec<EvolutionLogEntry>,
    metrics: &EvolutionMetrics,
    sandbox_leaks: u64,
    forbidden_mutations: u64,
) -> (r: RecentGateSummary)
    ensures
        gate_counts(newest_first@, 10).0 == 0 ==> r == fallback_summary(
            metrics.passed_runs,
            metrics.failed_runs,
            sandbox_leaks,
            forbidden_mutations,
        ),
        gate_counts(newest_first@, 10).0 > 0 ==> {
            let (c, p) = gate_counts(newest_first@, 10);
            &&& r.recent_checked_runs == c
            &&& r.recent_gate_passed == p
            &&& r.recent_gate_failed == c - p
            &&& r.stable == (p == c || 10 * p >= 9 * c)
        },
{
    let mut checked: usize = 0;
    let mut passed: usize = 0;
    let mut i: usize = 0;
    assert(newest_first@.skip(0) =~= newest_first@);
    proof {
        lemma_gate_counts_bound(newest_first@, 10);
    }
    while i < newest_first.len() && checked < 10
        invariant
            i <= newest_first.len(),
            checked <= 10,
            passed <= checked,
            ({
                let total = gate_counts(newest_first@, 10);
                let rest = gate_counts(newest_first@.skip(i as int), (10 - checked) as nat);
                total.0 == checked + rest.0 && total.1 == passed + rest.1
            }),
        decreases newest_first.len() - i,
    {
        let e = &newest_first[i];
        assert(newest_first@.skip(i as int).drop_first() =~= newest_first@.skip(i + 1));
        assert(newest_first@.skip(i as int)[0] == newest_first@[i as int]);
        if explicit_log_entry(e) && is_actual_sandbox_gate_run(e) {
            checked = checked + 1;
            if e.cargo_check_ok && e.cargo_test_ok && e.cargo_run_ok {
                passed = passed + 1;
            }
        }
        i = i + 1;
    }
    proof {
        let rest = gate_counts(newest_first@.skip(i as int), (10 - checked) as nat);
        assert(rest.0 == 0 && rest.1 == 0);
    }
    if checked == 0 {
        return fallback_recent_gate_summary(metrics, sandbox_leaks, forbidden_mutations);
    }
    let failed = checked - passed;
    RecentGateSummary {
        recent_checked_runs: checked,
        recent_gate_passed: passed,
        recent_gate_failed: failed,
        stable: failed == 0 || 10 * passed >= 9 * checked,
    }
}

/// At most `limit` runs are counted, and no more pass than are counted.
pub proof fn lemma_gate_counts_bound(s: Seq<EvolutionLogEntry>, limit: nat)
    ensures
        gate_counts(s, limit).0 <= limit,
        gate_counts(s, limit).1 <= gate_counts(s, limit).0,
    decreases s.len(),
{
    if s.len() > 0 && limit > 0 {
        if is_explicit_entry(s[0]) && is_gate_run(s[0]) {
            lemma_gate_counts_bound(s.drop_first(), (limit - 1) as nat);
        } else {
            lemma_gate_counts_bound(s.drop_first(), limit);
        }
    }
}

/// The runtime is ready for level 2.
pub open spec fn level2_ready(m: EvolutionMetrics, ev: AutonomyEvidence) -> bool {
    m.total_runs >= 10 && ev.pass_ratio_at_least_0_8 && ev.sandbox_leaks == 0
        && ev.forbidden_mutations == 0
}

/// The runtime is ready for level 3.
pub open spec fn level3_ready(m: EvolutionMetrics, ev: AutonomyEvidence) -> bool {
    level2_ready(m, ev) && m.replay_passed >= 3 && (m.promoted_count >= 1
        || ev.useful_candidates >= 1) && ev.regression_rate_at_most_0_3
}

/// The current safe autonomy level.
pub open spec fn autonomy_level(m: EvolutionMetrics, ev: AutonomyEvidence) -> u8 {
    if level3_ready(m, ev) {
        3
    } else if level2_ready(m, ev) {
        2
    } else if m.total_runs > 0 {
        1
    } else {
        0
    }
}

/// The blockers on the way to the next autonomy level, in the order they are checked.
pub open spec fn autonomy_blockers(m: EvolutionMetrics, ev: AutonomyEvidence) -> Seq<Seq<char>> {
    let level = autonomy_level(m, ev);
    let r = ev.recent;
    flag(m.total_runs < 10, "нужно не менее 10 запусков"@)
        + flag(!ev.pass_ratio_at_least_0_8 && m.total_runs > 0, "pass ratio below threshold: "@ + ev.pass_ratio_text@)
        + flag(ev.sandbox_leaks > 0, "обнаружены утечки sandbox: "@ + decimal(ev.sandbox_leaks as nat))
        + flag(ev.forbidden_mutations > 0, "обнаружены forbidden mutations: "@ + decimal(ev.forbidden_mutations as nat))
        + flag(level < 3 && m.replay_passed < 3, "нужно не менее 3 replay_passed: "@ + decimal(m.replay_passed as nat))
        + flag(level < 3 && m.promoted_count == 0 && ev.useful_candidates == 0, "нет promoted_count >= 1 или useful candidates >= 1"@)
        + flag(level < 3 && !ev.regression_rate_at_most_0_3 && m.total_runs > 0, "слишком высокий regression rate: "@ + ev.regression_rate_text@)
        + flag(
        !r.stable,
        "последние sandbox cargo-gates нестабильны: recent_checked_runs="@ + decimal(
            r.recent_checked_runs as nat,
        ) + " recent_gate_passed="@ + decimal(r.recent_gate_passed as nat) + " recent_gate_failed="@
            + decimal(r.recent_gate_failed as nat),
    )
}

/// The blockers that keep level 4 closed.
pub open spec fn level4_blockers(m: EvolutionMetrics, ev: AutonomyEvidence) -> Seq<Seq<char>> {
    seq!["external ingestion mode is not enabled in this phase"@, "auto-promotion remains forbidden"@]
        + flag(m.replay_passed < 5, "нужно не менее 5 replay_passed: "@ + decimal(m.replay_passed as nat))
        + flag(ev.sandbox_leaks > 0, "sandbox cleanup нестабилен"@)
        + flag(ev.forbidden_mutations > 0, "forbidden mutations must stay at zero"@)
}

/// The metrics that the autonomy gate reports.
pub open spec fn autonomy_metrics(m: EvolutionMetrics, ev: AutonomyEvidence) -> Seq<Seq<char>> {
    seq![
        "total_runs="@ + decimal(m.total_runs as nat),
        "passed_runs="@ + decimal(m.passed_runs as nat),
        "failed_runs="@ + decimal(m.failed_runs as nat),
        "replay_passed="@ + decimal(m.replay_passed as nat),
        "promoted_count="@ + decimal(m.promoted_count as nat),
        "useful_candidate_runs="@ + decimal(ev.useful_candidates as nat),
        "sandbox_leaks="@ + decimal(ev.sandbox_leaks as nat),
        "forbidden_mutations="@ + decimal(ev.forbidden_mutations as nat),
        "regression_rate="@ + ev.regression_rate_text@,
        "recent_checked_runs="@ + decimal(ev.recent.recent_checked_runs as nat),
        "recent_gate_passed="@ + decimal(ev.recent.recent_gate_passed as nat),
        "recent_gate_failed="@ + decimal(ev.recent.recent_gate_failed as nat),
    ]
}

fn prefixed_number(prefix: &str, n: u64) -> (s: String)
    ensures
        s@ == prefix@ + decimal(n as nat),
{
    let mut s = String::new();
    push_str(&mut s, prefix);
    push_decimal(&mut s, n);
    s
}

fn prefixed_text(prefix: &str, t: &str) -> (s: String)
    ensures
        s@ == prefix@ + t@,
{
    let mut s = String::new();
    push_str(&mut s, prefix);
    push_str(&mut s, t);
    s
}

fn push_string_if(v: &mut Vec<String>, c: bool, s: String)
    ensures
        views(final(v)@) == views(old(v)@) + flag(c, s@),
{
    let ghost before = views(v@);
    let ghost sv = s@;
    if c {
        v.push(s);
    }
    assert(views(v@) =~= before + flag(c, sv));
}

fn blocker_list(m: &EvolutionMetrics, ev: &AutonomyEvidence, level: u8) -> (b: Vec<String>)
    requires
        level == autonomy_level(*m, *ev),
    ensures
        views(b@) == autonomy_blockers(*m, *ev),
{
    let mut b: Vec<String> = Vec::new();
    let r = &ev.recent;
    crate::text::push_if(&mut b, m.total_runs < 10, "нужно не менее 10 запусков");
    push_string_if(&mut b, !ev.pass_ratio_at_least_0_8 && m.total_runs > 0, prefixed_text("pass ratio below threshold: ", ev.pass_ratio_text.as_str()));
    push_string_if(&mut b, ev.sandbox_leaks > 0, prefixed_number("обнаружены утечки sandbox: ", ev.sandbox_leaks));
    push_string_if(&mut b, ev.forbidden_mutations > 0, prefixed_number("обнаружены forbidden mutations: ", ev.forbidden_mutations));
    push_string_if(&mut b, level < 3 && m.replay_passed < 3, prefixed_number("нужно не менее 3 replay_passed: ", m.replay_passed));
    crate::text::push_if(&mut b, level < 3 && m.promoted_count == 0 && ev.useful_candidates == 0, "нет promoted_count >= 1 или useful candidates >= 1");
    push_string_if(&mut b, level < 3 && !ev.regression_rate_at_most_0_3 && m.total_runs > 0, prefixed_text("слишком высокий regression rate: ", ev.regression_rate_text.as_str()));
    let mut g = String::new();
    push_str(&mut g, "последние sandbox cargo-gates нестабильны: recent_checked_runs=");
    push_decimal(&mut g, r.recent_checked_runs as u64);
    push_str(&mut g, " recent_gate_passed=");
    push_decimal(&mut g, r.recent_gate_passed as u64);
    push_str(&mut g, " recent_gate_failed=");
    push_decimal(&mut g, r.recent_gate_failed as u64);
    push_string_if(&mut b, !r.stable, g);
    assert(views(b@) =~= autonomy_blockers(*m, *ev));
    b
}

fn level4_list(m: &EvolutionMetrics, ev: &AutonomyEvidence) -> (b: Vec<String>)
    ensures
        views(b@) == level4_blockers(*m, *ev),
{
    let mut b: Vec<String> = Vec::new();
    push_owned(&mut b, "external ingestion mode is not enabled in this phase");
    push_owned(&mut b, "auto-promotion remains forbidden");
    push_string_if(&mut b, m.replay_passed < 5, prefixed_number("нужно не менее 5 replay_passed: ", m.replay_passed));
    crate::text::push_if(&mut b, ev.sandbox_leaks > 0, "sandbox cleanup нестабилен");
    crate::text::push_if(&mut b, ev.forbidden_mutations > 0, "forbidden mutations must stay at zero");
    assert(views(b@) =~= level4_blockers(*m, *ev));
    b
}

fn metric_list(m: &EvolutionMetrics, ev: &AutonomyEvidence) -> (v: Vec<String>)
    ensures
        views(v@) == autonomy_metrics(*m, *ev),
{
    let v = vec![
        prefixed_number("total_runs=", m.total_runs),
        prefixed_number("passed_runs=", m.passed_runs),
        prefixed_number("failed_runs=", m.failed_runs),
        prefixed_number("replay_passed=", m.replay_passed),
        prefixed_number("promoted_count=", m.promoted_count),
        prefixed_number("useful_candidate_runs=", ev.useful_candidates),
        prefixed_number("sandbox_leaks=", ev.sandbox_leaks),
        prefixed_number("forbidden_mutations=", ev.forbidden_mutations),
        prefixed_text("regression_rate=", ev.regression_rate_text.as_str()),
        prefixed_number("recent_checked_runs=", ev.recent.recent_checked_runs as u64),
        prefixed_number("recent_gate_passed=", ev.recent.recent_gate_passed as u64),
        prefixed_number("recent_gate_failed=", ev.recent.recent_gate_failed as u64),
    ];
    assert(views(v@) =~= autonomy_metrics(*m, *ev));
    v
}

/// The autonomy status from the run counters and the cargo-run evidence.
pub fn autonomy_status(metrics: &EvolutionMetrics, evidence: &AutonomyEvidence) -> (s: AutonomyStatus)
    ensures
        s.current_level == autonomy_level(*metrics, *evidence),
        s.current_safe_autonomy_level == s.current_level,
        s.allowed_next_level == (if s.current_level >= 3 {
            3
        } else {
            s.current_level + 1
        }),
        s.campaign_mode_allowed == (s.current_level >= 3),
        s.max_campaign_cycles == (if metrics.total_runs >= 40 && metrics.replay_passed >= 8 {
            50usize
        } else {
            20usize
        }),
        views(s.blockers@) == autonomy_blockers(*metrics, *evidence),
        views(s.level4_blockers@) == level4_blockers(*metrics, *evidence),
        views(s.required_metrics@) == autonomy_metrics(*metrics, *evidence),
{
    let level2 = metrics.total_runs >= 10 && evidence.pass_ratio_at_least_0_8
        && evidence.sandbox_leaks == 0 && evidence.forbidden_mutations == 0;
    let level3 = level2 && metrics.replay_passed >= 3 && (metrics.promoted_count >= 1
        || evidence.useful_candidates >= 1) && evidence.regression_rate_at_most_0_3;
    let level: u8 = if level3 {
        3
    } else if level2 {
        2
    } else if metrics.total_runs > 0 {
        1
    } else {
        0
    };
    AutonomyStatus {
        current_level: level,
        allowed_next_level: if level >= 3 { 3 } else { level + 1 },
        blockers: blocker_list(metrics, evidence, level),
        required_metrics: metric_list(metrics, evidence),
        campaign_mode_allowed: level >= 3,
        max_campaign_cycles: if metrics.total_runs >= 40 && metrics.replay_passed >= 8 {
            50
        } else {
            20
        },
        level4_blockers: level4_list(metrics, evidence),
        current_safe_autonomy_level: level,
    }
}

/// Level 2 and above are reached only without sandbox leaks or forbidden
/// mutations, after at least ten runs; campaigns are allowed only at level 3,
/// and only with at least three passed replays.
pub proof fn lemma_autonomy_levels(m: EvolutionMetrics, ev: AutonomyEvidence)
    ensures
        autonomy_level(m, ev) <= 3,
        autonomy_level(m, ev) >= 2 ==> ev.sandbox_leaks == 0 && ev.forbidden_mutations == 0
            && m.total_runs >= 10,
        autonomy_level(m, ev) >= 3 ==> m.replay_passed >= 3,
        m.total_runs == 0 ==> autonomy_level(m, ev) == 0,
{
}

} // verus!
