//! The evolution strategy a run followed, and the counters of the strategy
//! portfolio.
use vstd::prelude::*;

use crate::contracts::EvolutionLogEntry;
use crate::text::{
    contains, has_infix, has_prefix, lemma_lt_irreflexive, lemma_lt_total, lemma_lt_trans, owned,
    seq_lt, starts_with, str_eq, str_lt, views,
};

verus! {

/// Some avoided risk mentions a runtime-to-tests redirect or a regression.
pub open spec fn avoids_regression(risks: Seq<Seq<char>>) -> bool {
    exists|i: int|
        0 <= i < risks.len() && (has_infix(#[trigger] risks[i], "runtime_to_tests_redirect"@)
            || has_infix(risks[i], "regression"@))
}

/// The objective is `o`.
pub open spec fn objective_is(objective: Option<Seq<char>>, o: Seq<char>) -> bool {
    objective == Some(o)
}

/// The strategy of a run: the selected one, else the first that its target,
/// avoided risks, objective and kind point to, in order.
pub open spec fn strategy_of(
    selected: Option<Seq<char>>,
    objective: Option<Seq<char>>,
    kind: Seq<char>,
    target: Seq<char>,
    risks: Seq<Seq<char>>,
) -> Seq<char> {
    if selected is Some {
        selected->0
    } else if has_infix(target, "review"@) || has_infix(target, "promotion"@) {
        "CandidateReview"@
    } else if avoids_regression(risks) {
        "RegressionAvoidance"@
    } else if objective_is(objective, "ImproveValidation"@) || has_infix(target, "validator"@) {
        "ValidationHardening"@
    } else if kind == "addreplayassertion"@ || objective_is(objective, "ImproveReplayability"@)
        || has_infix(target, "replay"@) {
        "ReplaySafety"@
    } else if kind == "addmetricupdate"@ || kind == "addlearningsummaryfield"@ || has_infix(
        target,
        "metrics"@,
    ) || has_infix(target, "report"@) {
        "MetricsReporting"@
    } else if has_prefix(target, "tests/"@) || kind == "addunittest"@ {
        "TestExpansion"@
    } else {
        "CandidateReview"@
    }
}

fn any_avoids_regression(risks: &Vec<String>) -> (r: bool)
    ensures
        r == avoids_regression(views(risks@)),
{
    let mut i: usize = 0;
    while i < risks.len()
        invariant
            i <= risks.len(),
            forall|k: int|
                0 <= k < i ==> !(has_infix(#[trigger] views(risks@)[k], "runtime_to_tests_redirect"@)
                    || has_infix(views(risks@)[k], "regression"@)),
        decreases risks.len() - i,
    {
        if contains(risks[i].as_str(), "runtime_to_tests_redirect") || contains(
            risks[i].as_str(),
            "regression",
        ) {
            assert(has_infix(views(risks@)[i as int], "runtime_to_tests_redirect"@) || has_infix(
                views(risks@)[i as int],
                "regression"@,
            ));
            return true;
        }
        i = i + 1;
    }
    false
}

fn objective_equals(objective: Option<&str>, o: &str) -> (r: bool)
    ensures
        r == (objective is Some && objective->0@ == o@),
{
    match objective {
        Some(x) => str_eq(x, o),
        None => false,
    }
}

/// The strategy a run followed.
pub fn infer_strategy(
    selected_strategy: Option<&str>,
    objective: Option<&str>,
    mutation_kind: &str,
    target_file: &str,
    avoided_risks: &Vec<String>,
) -> (r: String)
    ensures
        r@ == strategy_of(
            match selected_strategy {
                Some(s) => Some(s@),
                None => None,
            },
            match objective {
                Some(o) => Some(o@),
                None => None,
            },
            mutation_kind@,
            target_file@,
            views(avoided_risks@),
        ),
{
    if let Some(strategy) = selected_strategy {
        return owned(strategy);
    }
    let t = target_file;
    if contains(t, "review") || contains(t, "promotion") {
        return owned("CandidateReview");
    }
    if any_avoids_regression(avoided_risks) {
        return owned("RegressionAvoidance");
    }
    if objective_equals(objective, "ImproveValidation") || contains(t, "validator") {
        return owned("ValidationHardening");
    }
    if str_eq(mutation_kind, "addreplayassertion") || objective_equals(
        objective,
        "ImproveReplayability",
    ) || contains(t, "replay") {
        return owned("ReplaySafety");
    }
    if str_eq(mutation_kind, "addmetricupdate") || str_eq(mutation_kind, "addlearningsummaryfield")
        || contains(t, "metrics") || contains(t, "report") {
        return owned("MetricsReporting");
    }
    if starts_with(t, "tests/") || str_eq(mutation_kind, "addunittest") {
        return owned("TestExpansion");
    }
    owned("CandidateReview")
}

/// The counters of one strategy in the portfolio. The average score, the
/// average risk and the saturation score are floating point and are kept
/// beside these.
#[derive(Clone, Debug)]
pub struct StrategyCounts {
    pub strategy: String,
    pub seen_count: u64,
    pub useful_count: u64,
    pub replay_passed_count: u64,
    pub promoted_count: u64,
    pub last_used_at: u64,
}

/// The counters of a record: seen, useful, replay passed, promoted, last used at.
pub open spec fn counters(c: StrategyCounts) -> (nat, nat, nat, nat, nat) {
    (
        c.seen_count as nat,
        c.useful_count as nat,
        c.replay_passed_count as nat,
        c.promoted_count as nat,
        c.last_used_at as nat,
    )
}

/// The portfolio as a map from strategy name to its counters.
pub open spec fn standings(v: Seq<StrategyCounts>) -> Map<Seq<char>, (nat, nat, nat, nat, nat)>
    decreases v.len(),
{
    if v.len() == 0 {
        Map::empty()
    } else {
        standings(v.drop_last()).insert(v.last().strategy@, counters(v.last()))
    }
}

/// The portfolio lists each strategy once, in order of name.
pub open spec fn standings_ordered(v: Seq<StrategyCounts>) -> bool {
    forall|i: int, j: int|
        #![trigger v[i], v[j]]
        0 <= i < j < v.len() ==> seq_lt(v[i].strategy@, v[j].strategy@)
}

/// The counters of `s`, all zero when the portfolio does not list it.
pub open spec fn standing_of(m: Map<Seq<char>, (nat, nat, nat, nat, nat)>, s: Seq<char>) -> (
    nat,
    nat,
    nat,
    nat,
    nat,
) {
    if m.contains_key(s) {
        m[s]
    } else {
        (0, 0, 0, 0, 0)
    }
}

/// The counters after one more run: seen, and useful or promoted when it was.
pub open spec fn after_run(c: (nat, nat, nat, nat, nat), useful: bool, promoted: bool, at: nat) -> (
    nat,
    nat,
    nat,
    nat,
    nat,
) {
    (
        c.0 + 1,
        if useful {
            c.1 + 1
        } else {
            c.1
        },
        c.2,
        if promoted {
            c.3 + 1
        } else {
            c.3
        },
        at,
    )
}

/// The counters after one more passed replay; the last use is the later one.
pub open spec fn after_replay(c: (nat, nat, nat, nat, nat), at: nat) -> (nat, nat, nat, nat, nat) {
    (c.0, c.1, c.2 + 1, c.3, if at > c.4 {
        at
    } else {
        c.4
    })
}

proof fn lemma_standings_lookup(v: Seq<StrategyCounts>, k: int)
    requires
        standings_ordered(v),
        0 <= k < v.len(),
    ensures
        standings(v).contains_key(v[k].strategy@),
        standings(v)[v[k].strategy@] == counters(v[k]),
    decreases v.len(),
{
    if k < v.len() - 1 {
        let u = v.drop_last();
        assert(u[k] == v[k]);
        assert(standings_ordered(u));
        lemma_standings_lookup(u, k);
        assert(seq_lt(v[k].strategy@, v.last().strategy@));
        lemma_lt_irreflexive(v[k].strategy@, 0);
    }
}

proof fn lemma_standings_keys(v: Seq<StrategyCounts>, s: Seq<char>)
    requires
        standings(v).contains_key(s),
    ensures
        exists|k: int| 0 <= k < v.len() && (#[trigger] v[k]).strategy@ == s,
    decreases v.len(),
{
    if v.len() > 0 && v.last().strategy@ != s {
        lemma_standings_keys(v.drop_last(), s);
        let k = choose|k: int| 0 <= k < v.len() - 1 && (#[trigger] v.drop_last()[k]).strategy@ == s;
        assert(v[k] == v.drop_last()[k]);
    } else if v.len() > 0 {
        assert(v[v.len() - 1].strategy@ == s);
    }
}

proof fn lemma_standings_update(v: Seq<StrategyCounts>, k: int, c: StrategyCounts)
    requires
        standings_ordered(v),
        0 <= k < v.len(),
        c.strategy@ == v[k].strategy@,
    ensures
        standings(v.update(k, c)) == standings(v).insert(c.strategy@, counters(c)),
    decreases v.len(),
{
    let w = v.update(k, c);
    if k == v.len() - 1 {
        assert(w.drop_last() =~= v.drop_last());
        assert(standings(v).insert(c.strategy@, counters(c)) =~= standings(v.drop_last()).insert(
            c.strategy@,
            counters(c),
        ));
    } else {
        let u = v.drop_last();
        assert(standings_ordered(u));
        assert(w.drop_last() =~= u.update(k, c));
        lemma_standings_update(u, k, c);
        assert(seq_lt(v[k].strategy@, v.last().strategy@));
        lemma_lt_irreflexive(v[k].strategy@, 0);
        assert(standings(w) =~= standings(v).insert(c.strategy@, counters(c)));
    }
}

proof fn lemma_standings_insert(v: Seq<StrategyCounts>, k: int, c: StrategyCounts)
    requires
        standings_ordered(v),
        0 <= k <= v.len(),
        !standings(v).contains_key(c.strategy@),
    ensures
        standings(v.insert(k, c)) == standings(v).insert(c.strategy@, counters(c)),
    decreases v.len(),
{
    let w = v.insert(k, c);
    if k == v.len() {
        assert(w =~= v.push(c));
        assert(w.drop_last() =~= v);
    } else {
        let u = v.drop_last();
        assert(standings_ordered(u));
        assert(w.drop_last() =~= u.insert(k, c));
        assert(!standings(u).contains_key(c.strategy@)) by {
            if standings(u).contains_key(c.strategy@) {
                lemma_standings_keys(u, c.strategy@);
                let j = choose|j: int| 0 <= j < u.len() && (#[trigger] u[j]).strategy@ == c.strategy@;
                assert(u[j] == v[j]);
                lemma_standings_lookup(v, j);
            }
        }
        lemma_standings_insert(u, k, c);
        assert(w.last() == v.last());
        assert(v.last().strategy@ != c.strategy@) by {
            lemma_standings_lookup(v, v.len() - 1);
        }
        assert(standings(w) =~= standings(v).insert(c.strategy@, counters(c)));
    }
}

/// The position of `s` in the portfolio (or where it would go), and whether it is there.
fn find_strategy(v: &Vec<StrategyCounts>, s: &str) -> (r: (usize, bool))
    requires
        standings_ordered(v@),
    ensures
        r.0 <= v.len(),
        forall|k: int| 0 <= k < r.0 ==> seq_lt(#[trigger] v@[k].strategy@, s@),
        r.1 ==> r.0 < v.len() && v@[r.0 as int].strategy@ == s@,
        !r.1 ==> (r.0 < v.len() ==> seq_lt(s@, v@[r.0 as int].strategy@)),
        !r.1 ==> !standings(v@).contains_key(s@),
{
    let mut p: usize = 0;
    while p < v.len() && str_lt(v[p].strategy.as_str(), s)
        invariant
            p <= v.len(),
            forall|k: int| 0 <= k < p ==> seq_lt(#[trigger] v@[k].strategy@, s@),
        decreases v.len() - p,
    {
        p = p + 1;
    }
    if p < v.len() && str_eq(v[p].strategy.as_str(), s) {
        return (p, true);
    }
    proof {
        if p < v.len() {
            lemma_lt_total(s@, v@[p as int].strategy@, 0);
        }
        if standings(v@).contains_key(s@) {
            lemma_standings_keys(v@, s@);
            let j = choose|j: int| 0 <= j < v@.len() && (#[trigger] v@[j]).strategy@ == s@;
            if j < p {
                lemma_lt_irreflexive(s@, 0);
            } else if j > p {
                lemma_lt_trans(s@, v@[p as int].strategy@, v@[j].strategy@, 0);
                lemma_lt_irreflexive(s@, 0);
            }
        }
    }
    (p, false)
}

/// The counters of `strategy` in the portfolio, zero when it is not listed.
pub fn strategy_standing(portfolio: &Vec<StrategyCounts>, strategy: &str) -> (r: StrategyCounts)
    requires
        standings_ordered(portfolio@),
    ensures
        r.strategy@ == strategy@,
        counters(r) == standing_of(standings(portfolio@), strategy@),
{
    let (p, found) = find_strategy(portfolio, strategy);
    if found {
        proof {
            lemma_standings_lookup(portfolio@, p as int);
        }
        let c = &portfolio[p];
        StrategyCounts {
            strategy: owned(strategy),
            seen_count: c.seen_count,
            useful_count: c.useful_count,
            replay_passed_count: c.replay_passed_count,
            promoted_count: c.promoted_count,
            last_used_at: c.last_used_at,
        }
    } else {
        StrategyCounts {
            strategy: owned(strategy),
            seen_count: 0,
            useful_count: 0,
            replay_passed_count: 0,
            promoted_count: 0,
            last_used_at: 0,
        }
    }
}

/// Puts the record `c` in the portfolio, in place of the one of the same
/// strategy or at its place in name order.
fn put_strategy(portfolio: &mut Vec<StrategyCounts>, c: StrategyCounts)
    requires
        standings_ordered(old(portfolio)@),
    ensures
        standings_ordered(final(portfolio)@),
        standings(final(portfolio)@) == standings(old(portfolio)@).insert(c.strategy@, counters(c)),
{
    let ghost v = portfolio@;
    let (p, found) = find_strategy(portfolio, c.strategy.as_str());
    if found {
        proof {
            lemma_standings_update(v, p as int, c);
        }
        portfolio.set(p, c);
        proof {
            let w = portfolio@;
            assert forall|i: int, j: int|
                #![trigger w[i], w[j]]
                0 <= i < j < w.len() implies seq_lt(w[i].strategy@, w[j].strategy@) by {
                assert(v[i].strategy@ == w[i].strategy@);
                assert(v[j].strategy@ == w[j].strategy@);
            }
        }
    } else {
        let ghost name = c.strategy@;
        proof {
            lemma_standings_insert(v, p as int, c);
        }
        portfolio.insert(p, c);
        proof {
            let w = portfolio@;
            assert forall|i: int, j: int|
                #![trigger w[i], w[j]]
                0 <= i < j < w.len() implies seq_lt(w[i].strategy@, w[j].strategy@) by {
                if j < p {
                    assert(w[i] == v[i] && w[j] == v[j]);
                } else if j == p {
                    assert(w[i] == v[i]);
                } else if i < p {
                    assert(w[i] == v[i] && w[j] == v[j - 1]);
                    if j - 1 > p {
                        lemma_lt_trans(v[i].strategy@, v[p as int].strategy@, v[j - 1].strategy@, 0);
                    }
                } else if i == p {
                    assert(w[j] == v[j - 1]);
                    if j - 1 > p {
                        lemma_lt_trans(name, v[p as int].strategy@, v[j - 1].strategy@, 0);
                    }
                } else {
                    assert(w[i] == v[i - 1] && w[j] == v[j - 1]);
                }
            }
        }
    }
}

/// Counts one more run of `strategy`, useful or promoted as it was, used at `at`.
pub fn record_strategy_run(
    portfolio: &mut Vec<StrategyCounts>,
    strategy: &str,
    useful: bool,
    promoted: bool,
    at: u64,
)
    requires
        standings_ordered(old(portfolio)@),
        standing_of(standings(old(portfolio)@), strategy@).0 < u64::MAX,
        standing_of(standings(old(portfolio)@), strategy@).1 < u64::MAX,
        standing_of(standings(old(portfolio)@), strategy@).3 < u64::MAX,
    ensures
        standings_ordered(final(portfolio)@),
        standings(final(portfolio)@) == standings(old(portfolio)@).insert(
            strategy@,
            after_run(standing_of(standings(old(portfolio)@), strategy@), useful, promoted, at as nat),
        ),
{
    let c = strategy_standing(portfolio, strategy);
    let next = StrategyCounts {
        strategy: c.strategy,
        seen_count: c.seen_count + 1,
        useful_count: if useful {
            c.useful_count + 1
        } else {
            c.useful_count
        },
        replay_passed_count: c.replay_passed_count,
        promoted_count: if promoted {
            c.promoted_count + 1
        } else {
            c.promoted_count
        },
        last_used_at: at,
    };
    put_strategy(portfolio, next);
}

/// Counts one more passed replay of `strategy`, at `at`.
pub fn record_strategy_replay(portfolio: &mut Vec<StrategyCounts>, strategy: &str, at: u64)
    requires
        standings_ordered(old(portfolio)@),
        standing_of(standings(old(portfolio)@), strategy@).2 < u64::MAX,
    ensures
        standings_ordered(final(portfolio)@),
        standings(final(portfolio)@) == standings(old(portfolio)@).insert(
            strategy@,
            after_replay(standing_of(standings(old(portfolio)@), strategy@), at as nat),
        ),
{
    let c = strategy_standing(portfolio, strategy);
    let next = StrategyCounts {
        strategy: c.strategy,
        seen_count: c.seen_count,
        useful_count: c.useful_count,
        replay_passed_count: c.replay_passed_count + 1,
        promoted_count: c.promoted_count,
        last_used_at: if at > c.last_used_at {
            at
        } else {
            c.last_used_at
        },
    };
    put_strategy(portfolio, next);
}

/// The strategy of a logged run.
pub open spec fn run_strategy(e: EvolutionLogEntry) -> Seq<char> {
    strategy_of(
        match e.selected_strategy {
            Some(s) => Some(s@),
            None => None,
        },
        match e.objective {
            Some(o) => Some(o@),
            None => None,
        },
        e.mutation_kind@,
        e.target_file@,
        views(e.recombined_avoided_risks@),
    )
}

/// The counters of the strategies of the logged runs, run by run.
pub open spec fn strategy_tally(logs: Seq<EvolutionLogEntry>) -> Map<Seq<char>, (nat, nat, nat, nat, nat)>
    decreases logs.len(),
{
    if logs.len() == 0 {
        Map::empty()
    } else {
        let m = strategy_tally(logs.drop_last());
        let e = logs.last();
        let s = run_strategy(e);
        m.insert(s, after_run(standing_of(m, s), e.useful_change, e.retained_in_core, e.timestamp_unix as nat))
    }
}

/// No counter of the tally of `logs` exceeds the number of runs, and no replay is counted.
pub proof fn lemma_strategy_tally_bounds(logs: Seq<EvolutionLogEntry>, s: Seq<char>)
    ensures
        standing_of(strategy_tally(logs), s).0 <= logs.len(),
        standing_of(strategy_tally(logs), s).1 <= standing_of(strategy_tally(logs), s).0,
        standing_of(strategy_tally(logs), s).3 <= standing_of(strategy_tally(logs), s).0,
        standing_of(strategy_tally(logs), s).2 == 0,
    decreases logs.len(),
{
    if logs.len() > 0 {
        let prev = logs.drop_last();
        lemma_strategy_tally_bounds(prev, s);
        lemma_strategy_tally_bounds(prev, run_strategy(logs.last()));
    }
}

/// The strategy counters of the logged runs, in order of strategy name.
pub fn count_strategy_runs(logs: &Vec<EvolutionLogEntry>) -> (r: Vec<StrategyCounts>)
    ensures
        standings_ordered(r@),
        standings(r@) == strategy_tally(logs@),
{
    let mut r: Vec<StrategyCounts> = Vec::new();
    let mut i: usize = 0;
    assert(standings(r@) =~= strategy_tally(logs@.take(0)));
    while i < logs.len()
        invariant
            i <= logs.len(),
            standings_ordered(r@),
            standings(r@) == strategy_tally(logs@.take(i as int)),
        decreases logs.len() - i,
    {
        let e = &logs[i];
        let selected = match &e.selected_strategy {
            Some(s) => Some(s.as_str()),
            None => None,
        };
        let objective = match &e.objective {
            Some(o) => Some(o.as_str()),
            None => None,
        };
        let s = infer_strategy(
            selected,
            objective,
            e.mutation_kind.as_str(),
            e.target_file.as_str(),
            &e.recombined_avoided_risks,
        );
        assert(s@ == run_strategy(logs@[i as int]));
        assert(logs@.take(i + 1).drop_last() =~= logs@.take(i as int));
        proof {
            lemma_strategy_tally_bounds(logs@.take(i as int), s@);
        }
        record_strategy_run(&mut r, s.as_str(), e.useful_change, e.retained_in_core, e.timestamp_unix);
        i = i + 1;
    }
    assert(logs@.take(logs.len() as int) =~= logs@);
    r
}

} // verus!
