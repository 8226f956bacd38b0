//! The mutation portfolio: the labels of the mutation templates, and the
//! counters kept for each.
use vstd::prelude::*;

use crate::contracts::{EvolutionLogEntry, EvolutionStatus, MutationKind};
use crate::evolution::metrics::{replay_is_ok, replay_ok, ReplayResult};
use crate::text::{
    ascii_lower, ascii_lowercase, lemma_lt_irreflexive, lemma_lt_total, lemma_lt_trans, owned, seq_lt,
    str_eq, str_lt,
};

verus! {

/// The label of a mutation kind: its name in lower case.
pub open spec fn kind_name(kind: MutationKind) -> Seq<char> {
    match kind {
        MutationKind::AppendComment => "appendcomment"@,
        MutationKind::ReplaceText => "replacetext"@,
        MutationKind::ParameterTune => "parametertune"@,
        MutationKind::AddTestSkeleton => "addtestskeleton"@,
        MutationKind::AddMetricField => "addmetricfield"@,
        MutationKind::AddUnitTest => "addunittest"@,
        MutationKind::AddReplayAssertion => "addreplayassertion"@,
        MutationKind::AddLearningSummaryField => "addlearningsummaryfield"@,
        MutationKind::AddMetricUpdate => "addmetricupdate"@,
    }
}

/// The label of a mutation kind: its name in lower case.
pub fn kind_label(kind: MutationKind) -> (r: String)
    ensures
        r@ == kind_name(kind),
{
    owned(
        match kind {
            MutationKind::AppendComment => "appendcomment",
            MutationKind::ReplaceText => "replacetext",
            MutationKind::ParameterTune => "parametertune",
            MutationKind::AddTestSkeleton => "addtestskeleton",
            MutationKind::AddMetricField => "addmetricfield",
            MutationKind::AddUnitTest => "addunittest",
            MutationKind::AddReplayAssertion => "addreplayassertion",
            MutationKind::AddLearningSummaryField => "addlearningsummaryfield",
            MutationKind::AddMetricUpdate => "addmetricupdate",
        },
    )
}

/// The counters of one mutation kind in the portfolio. The average score and
/// the saturation score are floating point and are kept beside these.
#[derive(Clone, Debug)]
pub struct KindCounts {
    pub mutation_kind: String,
    pub seen_count: u64,
    pub success_count: u64,
    pub candidate_count: u64,
    pub replay_passed_count: u64,
    pub promoted_count: u64,
    pub last_used_at: u64,
}

/// The counters of a record: seen, success, candidate, replay passed, promoted, last used at.
pub open spec fn kind_counters(c: KindCounts) -> (nat, nat, nat, nat, nat, nat) {
    (
        c.seen_count as nat,
        c.success_count as nat,
        c.candidate_count as nat,
        c.replay_passed_count as nat,
        c.promoted_count as nat,
        c.last_used_at as nat,
    )
}

/// The portfolio as a map from kind label to its counters.
pub open spec fn kind_standings(v: Seq<KindCounts>) -> Map<Seq<char>, (nat, nat, nat, nat, nat, nat)>
    decreases v.len(),
{
    if v.len() == 0 {
        Map::empty()
    } else {
        kind_standings(v.drop_last()).insert(v.last().mutation_kind@, kind_counters(v.last()))
    }
}

/// The portfolio lists each kind once, in order of label.
pub open spec fn kinds_ordered(v: Seq<KindCounts>) -> bool {
    forall|i: int, j: int|
        #![trigger v[i], v[j]]
        0 <= i < j < v.len() ==> seq_lt(v[i].mutation_kind@, v[j].mutation_kind@)
}

/// The counters of `k`, all zero when the portfolio does not list it.
pub open spec fn kind_standing_of(m: Map<Seq<char>, (nat, nat, nat, nat, nat, nat)>, k: Seq<char>) -> (
    nat,
    nat,
    nat,
    nat,
    nat,
    nat,
) {
    if m.contains_key(k) {
        m[k]
    } else {
        (0, 0, 0, 0, 0, 0)
    }
}

/// The label a logged run is counted under: its kind in lower case.
pub open spec fn logged_kind(e: EvolutionLogEntry) -> Seq<char> {
    e.mutation_kind@.map_values(|c: char| ascii_lower(c))
}

/// The counters after logging `e`: seen; a success when check and tests
/// passed; a candidate or a promotion by its status; used at its time.
pub open spec fn after_log(c: (nat, nat, nat, nat, nat, nat), e: EvolutionLogEntry) -> (
    nat,
    nat,
    nat,
    nat,
    nat,
    nat,
) {
    (
        c.0 + 1,
        if e.cargo_check_ok && e.cargo_test_ok {
            c.1 + 1
        } else {
            c.1
        },
        if e.status == EvolutionStatus::Candidate {
            c.2 + 1
        } else {
            c.2
        },
        c.3,
        if e.status == EvolutionStatus::Promoted {
            c.4 + 1
        } else {
            c.4
        },
        e.timestamp_unix as nat,
    )
}

proof fn lemma_kinds_lookup(v: Seq<KindCounts>, k: int)
    requires
        kinds_ordered(v),
        0 <= k < v.len(),
    ensures
        kind_standings(v).contains_key(v[k].mutation_kind@),
        kind_standings(v)[v[k].mutation_kind@] == kind_counters(v[k]),
    decreases v.len(),
{
    if k < v.len() - 1 {
        let u = v.drop_last();
        assert(u[k] == v[k]);
        assert(kinds_ordered(u));
        lemma_kinds_lookup(u, k);
        assert(seq_lt(v[k].mutation_kind@, v.last().mutation_kind@));
        lemma_lt_irreflexive(v[k].mutation_kind@, 0);
    }
}

proof fn lemma_kinds_keys(v: Seq<KindCounts>, s: Seq<char>)
    requires
        kind_standings(v).contains_key(s),
    ensures
        exists|k: int| 0 <= k < v.len() && (#[trigger] v[k]).mutation_kind@ == s,
    decreases v.len(),
{
    if v.len() > 0 && v.last().mutation_kind@ != s {
        lemma_kinds_keys(v.drop_last(), s);
        let k = choose|k: int| 0 <= k < v.len() - 1 && (#[trigger] v.drop_last()[k]).mutation_kind@ == s;
        assert(v[k] == v.drop_last()[k]);
    } else if v.len() > 0 {
        assert(v[v.len() - 1].mutation_kind@ == s);
    }
}

proof fn lemma_kinds_update(v: Seq<KindCounts>, k: int, c: KindCounts)
    requires
        kinds_ordered(v),
        0 <= k < v.len(),
        c.mutation_kind@ == v[k].mutation_kind@,
    ensures
        kind_standings(v.update(k, c)) == kind_standings(v).insert(c.mutation_kind@, kind_counters(c)),
    decreases v.len(),
{
    let w = v.update(k, c);
    if k == v.len() - 1 {
        assert(w.drop_last() =~= v.drop_last());
        assert(kind_standings(v).insert(c.mutation_kind@, kind_counters(c)) =~= kind_standings(
            v.drop_last(),
        ).insert(c.mutation_kind@, kind_counters(c)));
    } else {
        let u = v.drop_last();
        assert(kinds_ordered(u));
        assert(w.drop_last() =~= u.update(k, c));
        lemma_kinds_update(u, k, c);
        assert(seq_lt(v[k].mutation_kind@, v.last().mutation_kind@));
        lemma_lt_irreflexive(v[k].mutation_kind@, 0);
        assert(kind_standings(w) =~= kind_standings(v).insert(c.mutation_kind@, kind_counters(c)));
    }
}

proof fn lemma_kinds_insert(v: Seq<KindCounts>, k: int, c: KindCounts)
    requires
        kinds_ordered(v),
        0 <= k <= v.len(),
        !kind_standings(v).contains_key(c.mutation_kind@),
    ensures
        kind_standings(v.insert(k, c)) == kind_standings(v).insert(c.mutation_kind@, kind_counters(c)),
    decreases v.len(),
{
    let w = v.insert(k, c);
    if k == v.len() {
        assert(w =~= v.push(c));
        assert(w.drop_last() =~= v);
    } else {
        let u = v.drop_last();
        assert(kinds_ordered(u));
        assert(w.drop_last() =~= u.insert(k, c));
        assert(!kind_standings(u).contains_key(c.mutation_kind@)) by {
            if kind_standings(u).contains_key(c.mutation_kind@) {
                lemma_kinds_keys(u, c.mutation_kind@);
                let j = choose|j: int| 0 <= j < u.len() && (#[trigger] u[j]).mutation_kind@ == c.mutation_kind@;
                assert(u[j] == v[j]);
                lemma_kinds_lookup(v, j);
            }
        }
        lemma_kinds_insert(u, k, c);
        assert(w.last() == v.last());
        assert(v.last().mutation_kind@ != c.mutation_kind@) by {
            lemma_kinds_lookup(v, v.len() - 1);
        }
        assert(kind_standings(w) =~= kind_standings(v).insert(c.mutation_kind@, kind_counters(c)));
    }
}

/// The position of `s` in the portfolio (or where it would go), and whether it is there.
fn find_kind(v: &Vec<KindCounts>, s: &str) -> (r: (usize, bool))
    requires
        kinds_ordered(v@),
    ensures
        r.0 <= v.len(),
        forall|k: int| 0 <= k < r.0 ==> seq_lt(#[trigger] v@[k].mutation_kind@, s@),
        r.1 ==> r.0 < v.len() && v@[r.0 as int].mutation_kind@ == s@,
        !r.1 ==> (r.0 < v.len() ==> seq_lt(s@, v@[r.0 as int].mutation_kind@)),
        !r.1 ==> !kind_standings(v@).contains_key(s@),
{
    let mut p: usize = 0;
    while p < v.len() && str_lt(v[p].mutation_kind.as_str(), s)
        invariant
            p <= v.len(),
            forall|k: int| 0 <= k < p ==> seq_lt(#[trigger] v@[k].mutation_kind@, s@),
        decreases v.len() - p,
    {
        p = p + 1;
    }
    if p < v.len() && str_eq(v[p].mutation_kind.as_str(), s) {
        return (p, true);
    }
    proof {
        if p < v.len() {
            lemma_lt_total(s@, v@[p as int].mutation_kind@, 0);
        }
        if kind_standings(v@).contains_key(s@) {
            lemma_kinds_keys(v@, s@);
            let j = choose|j: int| 0 <= j < v@.len() && (#[trigger] v@[j]).mutation_kind@ == s@;
            if j < p {
                lemma_lt_irreflexive(s@, 0);
            } else if j > p {
                lemma_lt_trans(s@, v@[p as int].mutation_kind@, v@[j].mutation_kind@, 0);
                lemma_lt_irreflexive(s@, 0);
            }
        }
    }
    (p, false)
}

/// The counters of the kind labelled `kind` in the portfolio, zero when it is not listed.
pub fn kind_standing(portfolio: &Vec<KindCounts>, kind: &str) -> (r: KindCounts)
    requires
        kinds_ordered(portfolio@),
    ensures
        r.mutation_kind@ == kind@,
        kind_counters(r) == kind_standing_of(kind_standings(portfolio@), kind@),
{
    let (p, found) = find_kind(portfolio, kind);
    if found {
        proof {
            lemma_kinds_lookup(portfolio@, p as int);
        }
        let c = &portfolio[p];
        KindCounts {
            mutation_kind: owned(kind),
            seen_count: c.seen_count,
            success_count: c.success_count,
            candidate_count: c.candidate_count,
            replay_passed_count: c.replay_passed_count,
            promoted_count: c.promoted_count,
            last_used_at: c.last_used_at,
        }
    } else {
        KindCounts {
            mutation_kind: owned(kind),
            seen_count: 0,
            success_count: 0,
            candidate_count: 0,
            replay_passed_count: 0,
            promoted_count: 0,
            last_used_at: 0,
        }
    }
}

fn put_kind(portfolio: &mut Vec<KindCounts>, c: KindCounts)
    requires
        kinds_ordered(old(portfolio)@),
    ensures
        kinds_ordered(final(portfolio)@),
        kind_standings(final(portfolio)@) == kind_standings(old(portfolio)@).insert(
            c.mutation_kind@,
            kind_counters(c),
        ),
{
    let ghost v = portfolio@;
    let (p, found) = find_kind(portfolio, c.mutation_kind.as_str());
    if found {
        proof {
            lemma_kinds_update(v, p as int, c);
        }
        portfolio.set(p, c);
        proof {
            let w = portfolio@;
            assert forall|i: int, j: int|
                #![trigger w[i], w[j]]
                0 <= i < j < w.len() implies seq_lt(w[i].mutation_kind@, w[j].mutation_kind@) by {
                assert(v[i].mutation_kind@ == w[i].mutation_kind@);
                assert(v[j].mutation_kind@ == w[j].mutation_kind@);
            }
        }
    } else {
        let ghost name = c.mutation_kind@;
        proof {
            lemma_kinds_insert(v, p as int, c);
        }
        portfolio.insert(p, c);
        proof {
            let w = portfolio@;
            assert forall|i: int, j: int|
                #![trigger w[i], w[j]]
                0 <= i < j < w.len() implies seq_lt(w[i].mutation_kind@, w[j].mutation_kind@) by {
                if j < p {
                    assert(w[i] == v[i] && w[j] == v[j]);
                } else if j == p {
                    assert(w[i] == v[i]);
                } else if i < p {
                    assert(w[i] == v[i] && w[j] == v[j - 1]);
                    if j - 1 > p {
                        lemma_lt_trans(v[i].mutation_kind@, v[p as int].mutation_kind@, v[j - 1].mutation_kind@, 0);
                    }
                } else if i == p {
                    assert(w[j] == v[j - 1]);
                    if j - 1 > p {
                        lemma_lt_trans(name, v[p as int].mutation_kind@, v[j - 1].mutation_kind@, 0);
                    }
                } else {
                    assert(w[i] == v[i - 1] && w[j] == v[j - 1]);
                }
            }
        }
    }
}

/// Counts a logged run under its kind (in lower case).
pub fn record_kind_after_log(portfolio: &mut Vec<KindCounts>, entry: &EvolutionLogEntry)
    requires
        kinds_ordered(old(portfolio)@),
        kind_standing_of(kind_standings(old(portfolio)@), logged_kind(*entry)).0 < u64::MAX,
        kind_standing_of(kind_standings(old(portfolio)@), logged_kind(*entry)).1 < u64::MAX,
        kind_standing_of(kind_standings(old(portfolio)@), logged_kind(*entry)).2 < u64::MAX,
        kind_standing_of(kind_standings(old(portfolio)@), logged_kind(*entry)).4 < u64::MAX,
    ensures
        kinds_ordered(final(portfolio)@),
        kind_standings(final(portfolio)@) == kind_standings(old(portfolio)@).insert(
            logged_kind(*entry),
            after_log(kind_standing_of(kind_standings(old(portfolio)@), logged_kind(*entry)), *entry),
        ),
{
    let kind = ascii_lowercase(entry.mutation_kind.as_str());
    let c = kind_standing(portfolio, kind.as_str());
    let next = KindCounts {
        mutation_kind: c.mutation_kind,
        seen_count: c.seen_count + 1,
        success_count: if entry.cargo_check_ok && entry.cargo_test_ok {
            c.success_count + 1
        } else {
            c.success_count
        },
        candidate_count: if entry.status == EvolutionStatus::Candidate {
            c.candidate_count + 1
        } else {
            c.candidate_count
        },
        replay_passed_count: c.replay_passed_count,
        promoted_count: if entry.status == EvolutionStatus::Promoted {
            c.promoted_count + 1
        } else {
            c.promoted_count
        },
        last_used_at: entry.timestamp_unix,
    };
    put_kind(portfolio, next);
}

/// Counts a replay of a candidate of `kind` that passed; a replay that did
/// not pass leaves the portfolio as it was.
pub fn record_kind_after_replay(portfolio: &mut Vec<KindCounts>, kind: MutationKind, replay: &ReplayResult)
    requires
        kinds_ordered(old(portfolio)@),
        kind_standing_of(kind_standings(old(portfolio)@), kind_name(kind)).3 < u64::MAX,
    ensures
        kinds_ordered(final(portfolio)@),
        replay_ok(*replay) ==> kind_standings(final(portfolio)@) == kind_standings(old(portfolio)@).insert(
            kind_name(kind),
            ({
                let c = kind_standing_of(kind_standings(old(portfolio)@), kind_name(kind));
                (c.0, c.1, c.2, c.3 + 1, c.4, replay.timestamp_unix as nat)
            }),
        ),
        !replay_ok(*replay) ==> final(portfolio)@ == old(portfolio)@,
{
    if !replay_is_ok(replay) {
        return;
    }
    let label = kind_label(kind);
    let c = kind_standing(portfolio, label.as_str());
    let next = KindCounts {
        mutation_kind: c.mutation_kind,
        seen_count: c.seen_count,
        success_count: c.success_count,
        candidate_count: c.candidate_count,
        replay_passed_count: c.replay_passed_count + 1,
        promoted_count: c.promoted_count,
        last_used_at: replay.timestamp_unix,
    };
    put_kind(portfolio, next);
}

} // verus!
