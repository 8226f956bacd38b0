//! Campaigns: whether a task may run as a campaign, and what each cycle adds
//! to the campaign's counters and blocker tally.
use vstd::prelude::*;

use crate::contracts::{EvolutionLogEntry, EvolutionStatus, MutationKind, TaskContract};
use crate::evolution::strategy_tasks::{kind_title, kind_title_text};
use crate::evolution::autonomy::AutonomyStatus;
use crate::text::{
    bool_text, decimal, ends_with, join, join_strings, push_bool, has_prefix, has_suffix, owned, push_decimal, push_str, seq_lt, starts_with,
    str_eq, str_lt, views,
};

verus! {

/// How often a blocker was reported for the campaign's candidates.
#[derive(Clone, Debug)]
pub struct CampaignBlockerCount {
    pub blocker: String,
    pub count: u64,
}

/// The counters of a campaign.
#[derive(Clone, Debug)]
pub struct EvolutionCampaign {
    pub campaign_id: String,
    pub task_id: String,
    pub total_cycles: u64,
    pub passed_cycles: u64,
    pub failed_cycles: u64,
    pub useful_candidates: u64,
    pub replay_attempted: u64,
    pub replay_passed: u64,
    pub replay_failed: u64,
    pub duplicate_rejections: u64,
    pub regression_patterns_added: u64,
    pub success_patterns_added: u64,
    pub promotion_ready_candidates: u64,
    pub promoted_candidates: u64,
    pub forbidden_mutations: u64,
    pub sandbox_leaks: u64,
    pub started_at: u64,
    pub finished_at: u64,
    pub blocker_counts: Vec<CampaignBlockerCount>,
    pub candidate_run_ids: Vec<String>,
}

/// The refusal of a campaign, if any: the autonomy level and campaign mode,
/// then the cycle limit, then the benchmark history a task may require.
pub open spec fn admission_error(
    t: TaskContract,
    a: AutonomyStatus,
    has_benchmark_history: bool,
) -> Option<Seq<char>> {
    if a.current_level < 3 || !a.campaign_mode_allowed {
        Some("campaign mode is blocked by autonomy gate"@)
    } else if t.cycles > a.max_campaign_cycles {
        Some(
            "campaign cycles exceed autonomy limit: "@ + decimal(t.cycles as nat) + " > "@ + decimal(
                a.max_campaign_cycles as nat,
            ),
        )
    } else if t.require_benchmark && !has_benchmark_history {
        Some("task requires benchmark history before campaign run"@)
    } else {
        None
    }
}

/// Whether an already validated task may run as a campaign under the autonomy status.
pub fn check_campaign_admission(
    task: &TaskContract,
    autonomy: &AutonomyStatus,
    has_benchmark_history: bool,
) -> (r: Result<(), String>)
    ensures
        match r {
            Ok(_) => admission_error(*task, *autonomy, has_benchmark_history) is None,
            Err(e) => admission_error(*task, *autonomy, has_benchmark_history) == Some(e@),
        },
{
    if autonomy.current_level < 3 || !autonomy.campaign_mode_allowed {
        return Err(owned("campaign mode is blocked by autonomy gate"));
    }
    if task.cycles > autonomy.max_campaign_cycles {
        let mut e = owned("campaign cycles exceed autonomy limit: ");
        push_decimal(&mut e, task.cycles as u64);
        push_str(&mut e, " > ");
        push_decimal(&mut e, autonomy.max_campaign_cycles as u64);
        return Err(e);
    }
    if task.require_benchmark && !has_benchmark_history {
        return Err(owned("task requires benchmark history before campaign run"));
    }
    Ok(())
}

/// A campaign admitted only when the autonomy level is three with campaign
/// mode on, its cycles are within the autonomy limit, and any required
/// benchmark history exists.
pub proof fn lemma_admitted_campaign_is_bounded(
    t: TaskContract,
    a: AutonomyStatus,
    has_benchmark_history: bool,
)
    requires
        admission_error(t, a, has_benchmark_history) is None,
    ensures
        a.current_level >= 3,
        a.campaign_mode_allowed,
        t.cycles <= a.max_campaign_cycles,
        t.require_benchmark ==> has_benchmark_history,
{
}

/// A campaign target that no mutation may touch.
pub open spec fn campaign_forbidden_target(t: Seq<char>) -> bool {
    has_prefix(t, "src/core/"@) || t == "src/main.rs"@ || t == "src/lib.rs"@ || t == "Cargo.toml"@
        || has_suffix(t, "/Cargo.toml"@)
}

/// Whether a campaign target is one that no mutation may touch.
pub fn is_forbidden_target(target_file: &str) -> (r: bool)
    ensures
        r == campaign_forbidden_target(target_file@),
{
    starts_with(target_file, "src/core/") || str_eq(target_file, "src/main.rs") || str_eq(
        target_file,
        "src/lib.rs",
    ) || str_eq(target_file, "Cargo.toml") || ends_with(target_file, "/Cargo.toml")
}

/// The cycle produced a useful candidate, which is then reviewed.
pub open spec fn is_useful_candidate(e: EvolutionLogEntry) -> bool {
    e.useful_change && e.status == EvolutionStatus::Candidate
}

/// Whether the cycle produced a useful candidate that is to be reviewed (and
/// replayed first when the task requires replay).
pub fn cycle_needs_review(entry: &EvolutionLogEntry) -> (r: bool)
    ensures
        r == is_useful_candidate(*entry),
{
    entry.useful_change && entry.status == EvolutionStatus::Candidate
}

/// What the review of a cycle's candidate said, with whether its replay passed.
#[derive(Clone, Debug)]
pub struct CycleReview {
    pub replay_ok: bool,
    pub promotion_allowed: bool,
    pub promotion_blockers: Vec<String>,
}

/// The blocker tally as a map from blocker to count.
pub open spec fn tally(v: Seq<CampaignBlockerCount>) -> Map<Seq<char>, nat>
    decreases v.len(),
{
    if v.len() == 0 {
        Map::empty()
    } else {
        tally(v.drop_last()).insert(v.last().blocker@, v.last().count as nat)
    }
}

/// The tally lists each blocker once, in order.
pub open spec fn tally_ordered(v: Seq<CampaignBlockerCount>) -> bool {
    forall|i: int, j: int|
        #![trigger v[i], v[j]]
        0 <= i < j < v.len() ==> seq_lt(v[i].blocker@, v[j].blocker@)
}

/// The count of `b` in the tally, zero when absent.
pub open spec fn count_of(m: Map<Seq<char>, nat>, b: Seq<char>) -> nat {
    if m.contains_key(b) {
        m[b]
    } else {
        0
    }
}

proof fn lemma_tally_lookup(v: Seq<CampaignBlockerCount>, k: int)
    requires
        tally_ordered(v),
        0 <= k < v.len(),
    ensures
        tally(v).contains_key(v[k].blocker@),
        tally(v)[v[k].blocker@] == v[k].count,
    decreases v.len(),
{
    if k < v.len() - 1 {
        let u = v.drop_last();
        assert(u[k] == v[k]);
        assert(tally_ordered(u));
        lemma_tally_lookup(u, k);
        assert(seq_lt(v[k].blocker@, v.last().blocker@));
        crate::text::lemma_lt_irreflexive(v[k].blocker@, 0);
    }
}

proof fn lemma_tally_keys(v: Seq<CampaignBlockerCount>, b: Seq<char>)
    requires
        tally(v).contains_key(b),
    ensures
        exists|k: int| 0 <= k < v.len() && (#[trigger] v[k]).blocker@ == b,
    decreases v.len(),
{
    if v.len() > 0 && v.last().blocker@ != b {
        lemma_tally_keys(v.drop_last(), b);
        let k = choose|k: int| 0 <= k < v.len() - 1 && (#[trigger] v.drop_last()[k]).blocker@ == b;
        assert(v[k] == v.drop_last()[k]);
    } else if v.len() > 0 {
        assert(v[v.len() - 1].blocker@ == b);
    }
}

proof fn lemma_tally_update(v: Seq<CampaignBlockerCount>, k: int, c: CampaignBlockerCount)
    requires
        tally_ordered(v),
        0 <= k < v.len(),
        c.blocker@ == v[k].blocker@,
    ensures
        tally(v.update(k, c)) == tally(v).insert(c.blocker@, c.count as nat),
    decreases v.len(),
{
    let w = v.update(k, c);
    if k == v.len() - 1 {
        assert(w.drop_last() =~= v.drop_last());
        assert(tally(v).insert(c.blocker@, c.count as nat) =~= tally(v.drop_last()).insert(
            c.blocker@,
            c.count as nat,
        ));
    } else {
        let u = v.drop_last();
        assert(tally_ordered(u));
        assert(w.drop_last() =~= u.update(k, c));
        lemma_tally_update(u, k, c);
        assert(seq_lt(v[k].blocker@, v.last().blocker@));
        crate::text::lemma_lt_irreflexive(v[k].blocker@, 0);
        assert(tally(w) =~= tally(v).insert(c.blocker@, c.count as nat));
    }
}

proof fn lemma_tally_insert(v: Seq<CampaignBlockerCount>, k: int, c: CampaignBlockerCount)
    requires
        tally_ordered(v),
        0 <= k <= v.len(),
        !tally(v).contains_key(c.blocker@),
    ensures
        tally(v.insert(k, c)) == tally(v).insert(c.blocker@, c.count as nat),
    decreases v.len(),
{
    let w = v.insert(k, c);
    if k == v.len() {
        assert(w =~= v.push(c));
        assert(w.drop_last() =~= v);
    } else {
        let u = v.drop_last();
        assert(tally_ordered(u));
        assert(w.drop_last() =~= u.insert(k, c));
        assert(!tally(u).contains_key(c.blocker@)) by {
            if tally(u).contains_key(c.blocker@) {
                lemma_tally_keys(u, c.blocker@);
                let j = choose|j: int| 0 <= j < u.len() && (#[trigger] u[j]).blocker@ == c.blocker@;
                assert(u[j] == v[j]);
                lemma_tally_lookup(v, j);
            }
        }
        lemma_tally_insert(u, k, c);
        assert(w.last() == v.last());
        assert(v.last().blocker@ != c.blocker@) by {
            lemma_tally_lookup(v, v.len() - 1);
        }
        assert(tally(w) =~= tally(v).insert(c.blocker@, c.count as nat));
    }
}

/// Counts one more report of `blocker`, keeping the tally in order.
pub fn add_blocker(counts: &mut Vec<CampaignBlockerCount>, blocker: &str)
    requires
        tally_ordered(old(counts)@),
        count_of(tally(old(counts)@), blocker@) < u64::MAX,
    ensures
        tally_ordered(final(counts)@),
        tally(final(counts)@) == tally(old(counts)@).insert(
            blocker@,
            count_of(tally(old(counts)@), blocker@) + 1,
        ),
{
    let ghost v = counts@;
    let mut p: usize = 0;
    while p < counts.len() && str_lt(counts[p].blocker.as_str(), blocker)
        invariant
            counts@ == v,
            p <= counts.len(),
            forall|k: int| 0 <= k < p ==> seq_lt(#[trigger] v[k].blocker@, blocker@),
        decreases counts.len() - p,
    {
        p = p + 1;
    }
    if p < counts.len() && str_eq(counts[p].blocker.as_str(), blocker) {
        proof {
            lemma_tally_lookup(v, p as int);
        }
        let n = counts[p].count;
        let c = CampaignBlockerCount { blocker: owned(blocker), count: n + 1 };
        proof {
            lemma_tally_update(v, p as int, c);
        }
        counts.set(p, c);
        proof {
            let w = counts@;
            assert forall|i: int, j: int|
                #![trigger w[i], w[j]]
                0 <= i < j < w.len() implies seq_lt(w[i].blocker@, w[j].blocker@) by {
                assert(v[i].blocker@ == w[i].blocker@);
                assert(v[j].blocker@ == w[j].blocker@);
            }
        }
    } else {
        let c = CampaignBlockerCount { blocker: owned(blocker), count: 1 };
        proof {
            if p < counts.len() {
                crate::text::lemma_lt_total(blocker@, v[p as int].blocker@, 0);
            }
            assert(!tally(v).contains_key(blocker@)) by {
                if tally(v).contains_key(blocker@) {
                    lemma_tally_keys(v, blocker@);
                    let j = choose|j: int| 0 <= j < v.len() && (#[trigger] v[j]).blocker@ == blocker@;
                    if j < p {
                        crate::text::lemma_lt_irreflexive(blocker@, 0);
                    } else if j > p {
                        crate::text::lemma_lt_trans(blocker@, v[p as int].blocker@, v[j].blocker@, 0);
                        crate::text::lemma_lt_irreflexive(blocker@, 0);
                    }
                }
            }
            lemma_tally_insert(v, p as int, c);
        }
        counts.insert(p, c);
        proof {
            let w = counts@;
            assert forall|i: int, j: int|
                #![trigger w[i], w[j]]
                0 <= i < j < w.len() implies seq_lt(w[i].blocker@, w[j].blocker@) by {
                if j < p {
                    assert(w[i] == v[i] && w[j] == v[j]);
                } else if j == p {
                    assert(w[i] == v[i]);
                } else if i < p {
                    assert(w[i] == v[i] && w[j] == v[j - 1]);
                    if j - 1 > p {
                        crate::text::lemma_lt_trans(v[i].blocker@, v[p as int].blocker@, v[j - 1].blocker@, 0);
                    }
                } else if i == p {
                    assert(w[j] == v[j - 1]);
                    if j - 1 > p {
                        crate::text::lemma_lt_trans(blocker@, v[p as int].blocker@, v[j - 1].blocker@, 0);
                    }
                } else {
                    assert(w[i] == v[i - 1] && w[j] == v[j - 1]);
                }
            }
        }
    }
}

/// The tally after counting each of the blockers in order.
pub open spec fn tally_added(m: Map<Seq<char>, nat>, bl: Seq<Seq<char>>) -> Map<Seq<char>, nat>
    decreases bl.len(),
{
    if bl.len() == 0 {
        m
    } else {
        let prev = tally_added(m, bl.drop_last());
        prev.insert(bl.last(), count_of(prev, bl.last()) + 1)
    }
}

proof fn lemma_tally_added_bound(m: Map<Seq<char>, nat>, bl: Seq<Seq<char>>, b: Seq<char>)
    ensures
        count_of(tally_added(m, bl), b) <= count_of(m, b) + bl.len(),
    decreases bl.len(),
{
    if bl.len() > 0 {
        lemma_tally_added_bound(m, bl.drop_last(), b);
    }
}

/// A campaign that has counted no more of anything per cycle than it has cycles.
pub open spec fn counters_within(c: EvolutionCampaign) -> bool {
    &&& c.passed_cycles <= c.total_cycles
    &&& c.failed_cycles <= c.total_cycles
    &&& c.duplicate_rejections <= c.total_cycles
    &&& c.forbidden_mutations <= c.total_cycles
    &&& c.useful_candidates <= c.total_cycles
    &&& c.replay_attempted <= c.useful_candidates
    &&& c.replay_passed + c.replay_failed == c.replay_attempted
    &&& c.promotion_ready_candidates <= c.useful_candidates
    &&& c.passed_cycles + c.failed_cycles == c.total_cycles
    &&& tally_ordered(c.blocker_counts@)
}

/// A fresh campaign for a task: nothing counted yet.
pub fn new_campaign(task_id: &str, started_at: u64) -> (c: EvolutionCampaign)
    ensures
        c.campaign_id@ == "campaign-"@ + task_id@ + "-"@ + decimal(started_at as nat),
        c.task_id@ == task_id@,
        c.total_cycles == 0,
        counters_within(c),
        c.sandbox_leaks == 0,
        c.regression_patterns_added == 0,
        c.success_patterns_added == 0,
        c.promoted_candidates == 0,
        c.started_at == started_at,
        c.finished_at == started_at,
        c.blocker_counts@.len() == 0,
        c.candidate_run_ids@.len() == 0,
{
    let mut id = owned("campaign-");
    push_str(&mut id, task_id);
    push_str(&mut id, "-");
    push_decimal(&mut id, started_at);
    EvolutionCampaign {
        campaign_id: id,
        task_id: owned(task_id),
        total_cycles: 0,
        passed_cycles: 0,
        failed_cycles: 0,
        useful_candidates: 0,
        replay_attempted: 0,
        replay_passed: 0,
        replay_failed: 0,
        duplicate_rejections: 0,
        regression_patterns_added: 0,
        success_patterns_added: 0,
        promotion_ready_candidates: 0,
        promoted_candidates: 0,
        forbidden_mutations: 0,
        sandbox_leaks: 0,
        started_at,
        finished_at: started_at,
        blocker_counts: Vec::new(),
        candidate_run_ids: Vec::new(),
    }
}

/// One more indicator when `c` holds.
pub open spec fn plus(n: u64, c: bool) -> int {
    if c {
        n + 1
    } else {
        n as int
    }
}

/// Counts one cycle of a campaign: its outcome, a duplicate or forbidden
/// target, the sandbox leaks found after it, and, for a useful candidate,
/// its review (with the replay when the task requires it) and blockers.
pub fn record_campaign_cycle(
    campaign: &mut EvolutionCampaign,
    entry: &EvolutionLogEntry,
    sandbox_leaks: u64,
    require_replay: bool,
    review: &Option<CycleReview>,
)
    requires
        counters_within(*old(campaign)),
        old(campaign).total_cycles < u64::MAX,
        old(campaign).sandbox_leaks + sandbox_leaks <= u64::MAX,
        review is Some <==> is_useful_candidate(*entry),
        review is Some ==> forall|b: Seq<char>|
            #![trigger count_of(tally(old(campaign).blocker_counts@), b)]
            count_of(tally(old(campaign).blocker_counts@), b) + review->0.promotion_blockers.len()
                < u64::MAX,
    ensures
        counters_within(*final(campaign)),
        final(campaign).total_cycles == old(campaign).total_cycles + 1,
        final(campaign).failed_cycles == plus(old(campaign).failed_cycles, entry.status == EvolutionStatus::Failed),
        final(campaign).passed_cycles == plus(old(campaign).passed_cycles, entry.status != EvolutionStatus::Failed),
        final(campaign).duplicate_rejections == plus(old(campaign).duplicate_rejections, entry.duplicate_rejected),
        final(campaign).forbidden_mutations == plus(
            old(campaign).forbidden_mutations,
            campaign_forbidden_target(entry.target_file@),
        ),
        final(campaign).sandbox_leaks == old(campaign).sandbox_leaks + sandbox_leaks,
        final(campaign).useful_candidates == plus(old(campaign).useful_candidates, review is Some),
        views(final(campaign).candidate_run_ids@) == (if review is Some {
            views(old(campaign).candidate_run_ids@).push(entry.run_id@)
        } else {
            views(old(campaign).candidate_run_ids@)
        }),
        final(campaign).replay_attempted == plus(old(campaign).replay_attempted, review is Some && require_replay),
        final(campaign).replay_passed == plus(
            old(campaign).replay_passed,
            review is Some && require_replay && review->0.replay_ok,
        ),
        final(campaign).replay_failed == plus(
            old(campaign).replay_failed,
            review is Some && require_replay && !review->0.replay_ok,
        ),
        final(campaign).promotion_ready_candidates == plus(
            old(campaign).promotion_ready_candidates,
            review is Some && review->0.promotion_allowed,
        ),
        tally(final(campaign).blocker_counts@) == (if review is Some {
            tally_added(tally(old(campaign).blocker_counts@), views(review->0.promotion_blockers@))
        } else {
            tally(old(campaign).blocker_counts@)
        }),
        final(campaign).campaign_id == old(campaign).campaign_id,
        final(campaign).task_id == old(campaign).task_id,
        final(campaign).started_at == old(campaign).started_at,
        final(campaign).finished_at == old(campaign).finished_at,
        final(campaign).regression_patterns_added == old(campaign).regression_patterns_added,
        final(campaign).success_patterns_added == old(campaign).success_patterns_added,
        final(campaign).promoted_candidates == old(campaign).promoted_candidates,
{
    campaign.total_cycles = campaign.total_cycles + 1;
    if entry.status == EvolutionStatus::Failed {
        campaign.failed_cycles = campaign.failed_cycles + 1;
    } else {
        campaign.passed_cycles = campaign.passed_cycles + 1;
    }
    if entry.duplicate_rejected {
        campaign.duplicate_rejections = campaign.duplicate_rejections + 1;
    }
    if is_forbidden_target(entry.target_file.as_str()) {
        campaign.forbidden_mutations = campaign.forbidden_mutations + 1;
    }
    campaign.sandbox_leaks = campaign.sandbox_leaks + sandbox_leaks;
    match review {
        None => {},
        Some(rv) => {
            campaign.useful_candidates = campaign.useful_candidates + 1;
            let ghost ids = views(campaign.candidate_run_ids@);
            campaign.candidate_run_ids.push(entry.run_id.clone());
            assert(views(campaign.candidate_run_ids@) =~= ids.push(entry.run_id@));
            if require_replay {
                campaign.replay_attempted = campaign.replay_attempted + 1;
                if rv.replay_ok {
                    campaign.replay_passed = campaign.replay_passed + 1;
                } else {
                    campaign.replay_failed = campaign.replay_failed + 1;
                }
            }
            if rv.promotion_allowed {
                campaign.promotion_ready_candidates = campaign.promotion_ready_candidates + 1;
            }
            let mut counts: Vec<CampaignBlockerCount> = Vec::new();
            std::mem::swap(&mut counts, &mut campaign.blocker_counts);
            let ghost start = tally(counts@);
            let ghost bl = views(rv.promotion_blockers@);
            let mut i: usize = 0;
            while i < rv.promotion_blockers.len()
                invariant
                    i <= rv.promotion_blockers.len(),
                    bl == views(rv.promotion_blockers@),
                    tally_ordered(counts@),
                    tally(counts@) == tally_added(start, bl.take(i as int)),
                    forall|b: Seq<char>|
                        #![trigger count_of(start, b)]
                        count_of(start, b) + bl.len() < u64::MAX,
                decreases rv.promotion_blockers.len() - i,
            {
                proof {
                    assert(bl.take(i + 1).drop_last() =~= bl.take(i as int));
                    assert(bl.take(i + 1).last() == bl[i as int]);
                    lemma_tally_added_bound(start, bl.take(i as int), bl[i as int]);
                    assert(count_of(start, bl[i as int]) + bl.len() < u64::MAX);
                }
                add_blocker(&mut counts, rv.promotion_blockers[i].as_str());
                i = i + 1;
            }
            campaign.blocker_counts = counts;
            assert(bl.take(i as int) =~= bl);
        },
    }
}

/// Closes a campaign: when it finished, the regression and success patterns
/// and promotions added since it started, and the sandbox leaks left at the end.
pub fn finish_campaign(
    campaign: &mut EvolutionCampaign,
    finished_at: u64,
    regressions: (u64, u64),
    successes: (u64, u64),
    promotions: (u64, u64),
    final_sandbox_leaks: u64,
)
    requires
        regressions.0 <= regressions.1,
        successes.0 <= successes.1,
        promotions.0 <= promotions.1,
        old(campaign).sandbox_leaks + final_sandbox_leaks <= u64::MAX,
    ensures
        final(campaign).finished_at == finished_at,
        final(campaign).regression_patterns_added == regressions.1 - regressions.0,
        final(campaign).success_patterns_added == successes.1 - successes.0,
        final(campaign).promoted_candidates == promotions.1 - promotions.0,
        final(campaign).sandbox_leaks == old(campaign).sandbox_leaks + final_sandbox_leaks,
        final(campaign).total_cycles == old(campaign).total_cycles,
        counters_within(*old(campaign)) ==> counters_within(*final(campaign)),
{
    campaign.finished_at = finished_at;
    campaign.regression_patterns_added = regressions.1 - regressions.0;
    campaign.success_patterns_added = successes.1 - successes.0;
    campaign.promoted_candidates = promotions.1 - promotions.0;
    campaign.sandbox_leaks = campaign.sandbox_leaks + final_sandbox_leaks;
}

/// The `Debug` text of a list of strings, as `std` writes it.
pub uninterp spec fn debug_strings(v: Seq<Seq<char>>) -> Seq<char>;

/// `format!("{:?}", v)`: the `Debug` text of a list of strings, a function of
/// the strings alone (named `debug_strings` here).
#[verifier::external_body]
fn debug_list(v: &Vec<String>) -> (r: String)
    ensures
        r@ == debug_strings(views(v@)),
{
    format!("{:?}", v)
}

/// A list of mutation kinds as `Debug` writes it: names in brackets, separated by `, `.
pub open spec fn kinds_debug(kinds: Seq<MutationKind>) -> Seq<char> {
    "["@ + join(kinds.map_values(|k: MutationKind| kind_title(k)), ", "@) + "]"@
}

fn kinds_debug_text(kinds: &Vec<MutationKind>) -> (r: String)
    ensures
        r@ == kinds_debug(kinds@),
{
    let ghost f = |k: MutationKind| kind_title(k);
    let mut titles: Vec<String> = Vec::new();
    let mut i: usize = 0;
    while i < kinds.len()
        invariant
            i <= kinds.len(),
            f == (|k: MutationKind| kind_title(k)),
            views(titles@) == kinds@.take(i as int).map_values(f),
        decreases kinds.len() - i,
    {
        let ghost before = views(titles@);
        titles.push(kind_title_text(kinds[i]));
        assert(views(titles@) =~= before.push(kind_title(kinds@[i as int])));
        assert(kinds@.take(i + 1) =~= kinds@.take(i as int).push(kinds@[i as int]));
        assert(kinds@.take(i + 1).map_values(f) =~= kinds@.take(i as int).map_values(f).push(f(kinds@[i as int])));
        i = i + 1;
    }
    assert(kinds@.take(i as int) =~= kinds@);
    let mut r = owned("[");
    push_str(&mut r, join_strings(&titles, ", ").as_str());
    push_str(&mut r, "]");
    r
}

/// One blocker line: `- blocker: count`.
pub open spec fn blocker_line(b: CampaignBlockerCount) -> Seq<char> {
    "- "@ + b.blocker@ + ": "@ + decimal(b.count as nat)
}

/// The blocker section: one line per blocker, or a note that there are none.
pub open spec fn blockers_text(bs: Seq<CampaignBlockerCount>) -> Seq<char> {
    if bs.len() == 0 {
        "Нет явных blocker reason по кандидатам."@
    } else {
        join(bs.map_values(|b: CampaignBlockerCount| blocker_line(b)), "\n"@)
    }
}

fn render_blockers(bs: &Vec<CampaignBlockerCount>) -> (r: String)
    ensures
        r@ == blockers_text(bs@),
{
    if bs.len() == 0 {
        return owned("Нет явных blocker reason по кандидатам.");
    }
    let ghost f = |b: CampaignBlockerCount| blocker_line(b);
    let mut lines: Vec<String> = Vec::new();
    let mut i: usize = 0;
    while i < bs.len()
        invariant
            i <= bs.len(),
            f == (|b: CampaignBlockerCount| blocker_line(b)),
            views(lines@) == bs@.take(i as int).map_values(f),
        decreases bs.len() - i,
    {
        let mut line = owned("- ");
        push_str(&mut line, bs[i].blocker.as_str());
        push_str(&mut line, ": ");
        push_decimal(&mut line, bs[i].count);
        let ghost before = views(lines@);
        lines.push(line);
        assert(views(lines@) =~= before.push(blocker_line(bs@[i as int])));
        assert(bs@.take(i + 1) =~= bs@.take(i as int).push(bs@[i as int]));
        assert(bs@.take(i + 1).map_values(f) =~= bs@.take(i as int).map_values(f).push(f(bs@[i as int])));
        i = i + 1;
    }
    assert(bs@.take(i as int) =~= bs@);
    join_strings(&lines, "\n")
}

/// The ready section: the first five candidate runs, or a note that there are none.
pub open spec fn ready_text(ids: Seq<Seq<char>>) -> Seq<char> {
    if ids.len() == 0 {
        "Нет кандидатов для ручного promotion-review."@
    } else {
        join(ids.take(if ids.len() < 5 { ids.len() as int } else { 5 }), ", "@)
    }
}

fn render_ready(ids: &Vec<String>) -> (r: String)
    ensures
        r@ == ready_text(views(ids@)),
{
    if ids.len() == 0 {
        return owned("Нет кандидатов для ручного promotion-review.");
    }
    let n = if ids.len() < 5 { ids.len() } else { 5 };
    let mut first: Vec<String> = Vec::new();
    let mut i: usize = 0;
    while i < n
        invariant
            i <= n <= ids.len(),
            views(first@) == views(ids@).take(i as int),
        decreases n - i,
    {
        first.push(ids[i].clone());
        assert(views(ids@).take(i + 1) =~= views(ids@).take(i as int).push(ids@[i as int]@));
        assert(views(first@) =~= views(ids@).take(i + 1));
        i = i + 1;
    }
    join_strings(&first, ", ")
}

/// The recommended next step.
pub open spec fn recommendation_text(ready: u64) -> Seq<char> {
    if ready > 0 {
        "Рекомендуется вручную рассмотреть replay-подтверждённые кандидаты через --review-candidate."@
    } else {
        "Нужно накопить replay-подтверждённые полезные кандидаты без критических blockers."@
    }
}

fn recommendation(ready: u64) -> (r: &'static str)
    ensures
        r@ == recommendation_text(ready),
{
    if ready > 0 {
        "Рекомендуется вручную рассмотреть replay-подтверждённые кандидаты через --review-candidate."
    } else {
        "Нужно накопить replay-подтверждённые полезные кандидаты без критических blockers."
    }
}
/// Part 1 of the campaign report.
pub open spec fn campaign_markdown_part1(task: TaskContract, campaign: EvolutionCampaign, max_risk: Seq<char>) -> Seq<char> {
    "# Campaign EVA\n\n## Цель задачи\n"@ + task.goal_ru@ + "\n\n## Ограничения\ncycles="@ + decimal(task.cycles as nat) + " max_risk="@ + max_risk + " require_replay="@ + bool_text(task.require_replay) + " auto_promote="@ + bool_text(task.auto_promote) + "\nallowed_targets="@ + debug_strings(views(task.allowed_targets@)) + "\nallowed_kinds="@ + kinds_debug(task.allowed_mutation_kinds@) + "\n\n## Количество циклов\n"@ + decimal(campaign.total_cycles as nat)
}

fn campaign_markdown_text1(task: &TaskContract, campaign: &EvolutionCampaign, max_risk: &str) -> (s: String)
    ensures
        s@ == campaign_markdown_part1(*task, *campaign, max_risk@),
{
    let mut s = String::new();
    push_str(&mut s, "# Campaign EVA\n\n## Цель задачи\n");
    push_str(&mut s, task.goal_ru.as_str());
    push_str(&mut s, "\n\n## Ограничения\ncycles=");
    push_decimal(&mut s, task.cycles as u64);
    push_str(&mut s, " max_risk=");
    push_str(&mut s, max_risk);
    push_str(&mut s, " require_replay=");
    push_bool(&mut s, task.require_replay);
    push_str(&mut s, " auto_promote=");
    push_bool(&mut s, task.auto_promote);
    push_str(&mut s, "\nallowed_targets=");
    push_str(&mut s, debug_list(&task.allowed_targets).as_str());
    push_str(&mut s, "\nallowed_kinds=");
    push_str(&mut s, kinds_debug_text(&task.allowed_mutation_kinds).as_str());
    push_str(&mut s, "\n\n## Количество циклов\n");
    push_decimal(&mut s, campaign.total_cycles as u64);
    s
}

/// Part 2 of the campaign report.
pub open spec fn campaign_markdown_part2(task: TaskContract, campaign: EvolutionCampaign, max_risk: Seq<char>) -> Seq<char> {
    "\n\n## Найденные кандидаты\nПолезных кандидатов: "@ + decimal(campaign.useful_candidates as nat) + "\nГотовых к promotion-review: "@ + decimal(campaign.promotion_ready_candidates as nat) + "\n\n## Replay\nПопыток: "@ + decimal(campaign.replay_attempted as nat) + "\nПройдено: "@ + decimal(campaign.replay_passed as nat) + "\nНе пройдено: "@ + decimal(campaign.replay_failed as nat) + "\n\n## Причины отказа по кандидатам\n"@ + blockers_text(campaign.blocker_counts@) + "\n\n## Готовые к promotion кандидаты\n"@ + ready_text(views(campaign.candidate_run_ids@)) + "\n\n## Риски\nforbidden_mutations="@ + decimal(campaign.forbidden_mutations as nat)
}

fn campaign_markdown_text2(task: &TaskContract, campaign: &EvolutionCampaign, max_risk: &str) -> (s: String)
    ensures
        s@ == campaign_markdown_part2(*task, *campaign, max_risk@),
{
    let mut s = String::new();
    push_str(&mut s, "\n\n## Найденные кандидаты\nПолезных кандидатов: ");
    push_decimal(&mut s, campaign.useful_candidates as u64);
    push_str(&mut s, "\nГотовых к promotion-review: ");
    push_decimal(&mut s, campaign.promotion_ready_candidates as u64);
    push_str(&mut s, "\n\n## Replay\nПопыток: ");
    push_decimal(&mut s, campaign.replay_attempted as u64);
    push_str(&mut s, "\nПройдено: ");
    push_decimal(&mut s, campaign.replay_passed as u64);
    push_str(&mut s, "\nНе пройдено: ");
    push_decimal(&mut s, campaign.replay_failed as u64);
    push_str(&mut s, "\n\n## Причины отказа по кандидатам\n");
    push_str(&mut s, render_blockers(&campaign.blocker_counts).as_str());
    push_str(&mut s, "\n\n## Готовые к promotion кандидаты\n");
    push_str(&mut s, render_ready(&campaign.candidate_run_ids).as_str());
    push_str(&mut s, "\n\n## Риски\nforbidden_mutations=");
    push_decimal(&mut s, campaign.forbidden_mutations as u64);
    s
}

/// Part 3 of the campaign report.
pub open spec fn campaign_markdown_part3(task: TaskContract, campaign: EvolutionCampaign, max_risk: Seq<char>) -> Seq<char> {
    " sandbox_leaks="@ + decimal(campaign.sandbox_leaks as nat) + " duplicate_rejections="@ + decimal(campaign.duplicate_rejections as nat) + "\n\n## Итог EVA\nЕва выполнила "@ + decimal(campaign.total_cycles as nat) + " sandbox-циклов. Найдено "@ + decimal(campaign.useful_candidates as nat) + " полезных кандидата(ов), "@ + decimal(campaign.replay_passed as nat) + " прошли replay. Promotion автоматически не выполнялся.\n\n## Рекомендация следующего шага\n"@ + recommendation_text(campaign.promotion_ready_candidates)
}

fn campaign_markdown_text3(task: &TaskContract, campaign: &EvolutionCampaign, max_risk: &str) -> (s: String)
    ensures
        s@ == campaign_markdown_part3(*task, *campaign, max_risk@),
{
    let mut s = String::new();
    push_str(&mut s, " sandbox_leaks=");
    push_decimal(&mut s, campaign.sandbox_leaks as u64);
    push_str(&mut s, " duplicate_rejections=");
    push_decimal(&mut s, campaign.duplicate_rejections as u64);
    push_str(&mut s, "\n\n## Итог EVA\nЕва выполнила ");
    push_decimal(&mut s, campaign.total_cycles as u64);
    push_str(&mut s, " sandbox-циклов. Найдено ");
    push_decimal(&mut s, campaign.useful_candidates as u64);
    push_str(&mut s, " полезных кандидата(ов), ");
    push_decimal(&mut s, campaign.replay_passed as u64);
    push_str(&mut s, " прошли replay. Promotion автоматически не выполнялся.\n\n## Рекомендация следующего шага\n");
    push_str(&mut s, recommendation(campaign.promotion_ready_candidates));
    s
}

/// The campaign report: goal, limits, cycles, candidates, replay, blockers,
/// ready candidates, risks, summary and next step; `max_risk` is the task's
/// risk ceiling written with two decimals.
pub open spec fn campaign_markdown(task: TaskContract, campaign: EvolutionCampaign, max_risk: Seq<char>) -> Seq<char> {
    campaign_markdown_part1(task, campaign, max_risk) + campaign_markdown_part2(task, campaign, max_risk) + campaign_markdown_part3(task, campaign, max_risk)
}

/// The campaign report.
pub fn render_campaign_markdown(task: &TaskContract, campaign: &EvolutionCampaign, max_risk: &str) -> (s: String)
    ensures
        s@ == campaign_markdown(*task, *campaign, max_risk@),
{
    let mut s = String::new();
    push_str(&mut s, campaign_markdown_text1(task, campaign, max_risk).as_str());
    push_str(&mut s, campaign_markdown_text2(task, campaign, max_risk).as_str());
    push_str(&mut s, campaign_markdown_text3(task, campaign, max_risk).as_str());
    s
}

} // verus!
