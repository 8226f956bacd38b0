//! The parts of the evolution policy that are decided on names and counts:
//! which mutation kinds and targets a strategy allows, what a task narrows,
//! and the evidence counts the policy reads.
use vstd::prelude::*;

use crate::contracts::MutationKind;
use crate::evolution::mutation_portfolio::{kind_label, kind_name};
use crate::text::{owned, starts_with, str_eq, views};

verus! {

/// The mutation kinds a strategy allows, by label.
pub open spec fn allowed_kinds_of(strategy: Seq<char>) -> Seq<Seq<char>> {
    if strategy == "ReplaySafety"@ {
        seq!["addreplayassertion"@, "addunittest"@]
    } else if strategy == "MetricsReporting"@ {
        seq!["addmetricupdate"@, "addlearningsummaryfield"@]
    } else if strategy == "ValidationHardening"@ {
        seq!["addunittest"@]
    } else if strategy == "RegressionAvoidance"@ {
        seq!["addreplayassertion"@, "addunittest"@, "addmetricupdate"@]
    } else if strategy == "CandidateReview"@ {
        seq!["addreplayassertion"@, "addmetricupdate"@]
    } else {
        seq!["addunittest"@, "addreplayassertion"@]
    }
}

/// The mutation kinds `strategy` allows, by label.
pub fn strategy_allowed_kinds(strategy: &str) -> (r: Vec<String>)
    ensures
        views(r@) == allowed_kinds_of(strategy@),
{
    let r = if str_eq(strategy, "ReplaySafety") {
        vec![owned("addreplayassertion"), owned("addunittest")]
    } else if str_eq(strategy, "MetricsReporting") {
        vec![owned("addmetricupdate"), owned("addlearningsummaryfield")]
    } else if str_eq(strategy, "ValidationHardening") {
        vec![owned("addunittest")]
    } else if str_eq(strategy, "RegressionAvoidance") {
        vec![owned("addreplayassertion"), owned("addunittest"), owned("addmetricupdate")]
    } else if str_eq(strategy, "CandidateReview") {
        vec![owned("addreplayassertion"), owned("addmetricupdate")]
    } else {
        vec![owned("addunittest"), owned("addreplayassertion")]
    };
    assert(views(r@) =~= allowed_kinds_of(strategy@));
    r
}

/// The targets a strategy prefers.
pub open spec fn preferred_targets_of(strategy: Seq<char>) -> Seq<Seq<char>> {
    if strategy == "MetricsReporting"@ {
        seq!["src/evolution/metrics.rs"@]
    } else if strategy == "RegressionAvoidance"@ {
        seq!["tests/evolution_generated_tests.rs"@, "src/evolution/metrics.rs"@]
    } else {
        seq!["tests/evolution_generated_tests.rs"@]
    }
}

/// The targets `strategy` prefers.
pub fn strategy_preferred_targets(strategy: &str) -> (r: Vec<String>)
    ensures
        views(r@) == preferred_targets_of(strategy@),
{
    let r = if str_eq(strategy, "MetricsReporting") {
        vec![owned("src/evolution/metrics.rs")]
    } else if str_eq(strategy, "RegressionAvoidance") {
        vec![owned("tests/evolution_generated_tests.rs"), owned("src/evolution/metrics.rs")]
    } else {
        vec![owned("tests/evolution_generated_tests.rs")]
    };
    assert(views(r@) =~= preferred_targets_of(strategy@));
    r
}

/// A regression in runtime or evolution code.
pub open spec fn runtime_target(t: Seq<char>) -> bool {
    crate::text::has_prefix(t, "src/runtime"@) || crate::text::has_prefix(t, "src/evolution/"@)
}

/// How many of `targets` are runtime or evolution files.
pub open spec fn runtime_count(targets: Seq<Seq<char>>) -> nat
    decreases targets.len(),
{
    if targets.len() == 0 {
        0
    } else {
        runtime_count(targets.drop_last()) + if runtime_target(targets.last()) {
            1nat
        } else {
            0nat
        }
    }
}

/// How many regressions (given by target file) hit runtime or evolution code.
pub fn runtime_regression_count(targets: &Vec<String>) -> (r: usize)
    ensures
        r == runtime_count(views(targets@)),
{
    let mut r: usize = 0;
    let mut i: usize = 0;
    while i < targets.len()
        invariant
            i <= targets.len(),
            r <= i,
            r == runtime_count(views(targets@).take(i as int)),
        decreases targets.len() - i,
    {
        assert(views(targets@).take(i + 1).drop_last() =~= views(targets@).take(i as int));
        let t = targets[i].as_str();
        if starts_with(t, "src/runtime") || starts_with(t, "src/evolution/") {
            r = r + 1;
        }
        i = i + 1;
    }
    assert(views(targets@).take(targets.len() as int) =~= views(targets@));
    r
}

/// A success of a metrics kind.
pub open spec fn metrics_kind(k: Seq<char>) -> bool {
    k == "addmetricupdate"@ || k == "addlearningsummaryfield"@
}

/// How many of `kinds` are metrics kinds.
pub open spec fn metrics_count(kinds: Seq<Seq<char>>) -> nat
    decreases kinds.len(),
{
    if kinds.len() == 0 {
        0
    } else {
        metrics_count(kinds.drop_last()) + if metrics_kind(kinds.last()) {
            1nat
        } else {
            0nat
        }
    }
}

/// How many successes (given by mutation kind label) were metrics updates.
pub fn metrics_success_count(kinds: &Vec<String>) -> (r: usize)
    ensures
        r == metrics_count(views(kinds@)),
{
    let mut r: usize = 0;
    let mut i: usize = 0;
    while i < kinds.len()
        invariant
            i <= kinds.len(),
            r <= i,
            r == metrics_count(views(kinds@).take(i as int)),
        decreases kinds.len() - i,
    {
        assert(views(kinds@).take(i + 1).drop_last() =~= views(kinds@).take(i as int));
        let k = kinds[i].as_str();
        if str_eq(k, "addmetricupdate") || str_eq(k, "addlearningsummaryfield") {
            r = r + 1;
        }
        i = i + 1;
    }
    assert(views(kinds@).take(kinds.len() as int) =~= views(kinds@));
    r
}

/// The labels of `kinds`.
pub open spec fn kind_names(kinds: Seq<MutationKind>) -> Seq<Seq<char>> {
    kinds.map_values(|k: MutationKind| kind_name(k))
}

/// The labels of `labels` that `allowed` holds, in order.
pub open spec fn retained(labels: Seq<Seq<char>>, allowed: Seq<Seq<char>>) -> Seq<Seq<char>>
    decreases labels.len(),
{
    if labels.len() == 0 {
        Seq::empty()
    } else {
        let prev = retained(labels.drop_last(), allowed);
        if allowed.contains(labels.last()) {
            prev.push(labels.last())
        } else {
            prev
        }
    }
}

/// The kinds every policy falls back to when nothing else is left.
pub open spec fn fallback_kinds() -> Seq<Seq<char>> {
    seq!["addreplayassertion"@, "addmetricupdate"@, "addlearningsummaryfield"@, "addunittest"@]
}

/// The mutation kinds a policy allows: the strategy's, narrowed to the task's
/// allowed kinds when the task lists some, and the fallback kinds when none is left.
pub open spec fn policy_kinds(strategy: Seq<char>, task_kinds: Option<Seq<MutationKind>>) -> Seq<Seq<char>> {
    let base = allowed_kinds_of(strategy);
    let narrowed = match task_kinds {
        Some(ks) => if ks.len() > 0 {
            retained(base, kind_names(ks))
        } else {
            base
        },
        None => base,
    };
    if narrowed.len() == 0 {
        fallback_kinds()
    } else {
        narrowed
    }
}

/// A policy always leaves at least one mutation kind, and every kind it leaves
/// is one the task allows or one of the fallback kinds.
pub proof fn lemma_policy_kinds_nonempty(strategy: Seq<char>, task_kinds: Option<Seq<MutationKind>>)
    ensures
        policy_kinds(strategy, task_kinds).len() > 0,
        forall|i: int|
            0 <= i < policy_kinds(strategy, task_kinds).len() ==> (fallback_kinds().contains(
                #[trigger] policy_kinds(strategy, task_kinds)[i],
            ) || allowed_kinds_of(strategy).contains(policy_kinds(strategy, task_kinds)[i])),
{
    let base = allowed_kinds_of(strategy);
    match task_kinds {
        Some(ks) => {
            if ks.len() > 0 {
                lemma_retained_subset(base, kind_names(ks));
            }
        },
        None => {},
    }
    assert forall|i: int| 0 <= i < policy_kinds(strategy, task_kinds).len() implies (fallback_kinds().contains(
        #[trigger] policy_kinds(strategy, task_kinds)[i],
    ) || allowed_kinds_of(strategy).contains(policy_kinds(strategy, task_kinds)[i])) by {
        let p = policy_kinds(strategy, task_kinds);
        if p == fallback_kinds() {
            assert(fallback_kinds()[i] == p[i]);
        } else if p == base {
            assert(base[i] == p[i]);
        }
    }
}

proof fn lemma_retained_subset(labels: Seq<Seq<char>>, allowed: Seq<Seq<char>>)
    ensures
        forall|i: int| 0 <= i < retained(labels, allowed).len() ==> labels.contains(#[trigger] retained(labels, allowed)[i]),
    decreases labels.len(),
{
    if labels.len() > 0 {
        let prev = retained(labels.drop_last(), allowed);
        lemma_retained_subset(labels.drop_last(), allowed);
        assert forall|i: int| 0 <= i < retained(labels, allowed).len() implies labels.contains(#[trigger] retained(labels, allowed)[i]) by {
            if i < prev.len() {
                let x = prev[i];
                assert(labels.drop_last().contains(x));
                let k = choose|k: int| 0 <= k < labels.drop_last().len() && labels.drop_last()[k] == x;
                assert(labels[k] == x);
            } else {
                assert(labels[labels.len() - 1] == labels.last());
            }
        }
    }
}

fn label_in(labels: &Vec<String>, s: &str) -> (r: bool)
    ensures
        r == views(labels@).contains(s@),
{
    crate::text::contains_string(labels, s)
}

/// The mutation kinds a policy for `strategy` allows, given the kinds the task
/// (if any) allows.
pub fn policy_mutation_kinds(strategy: &str, task_kinds: Option<&Vec<MutationKind>>) -> (r: Vec<String>)
    ensures
        views(r@) == policy_kinds(
            strategy@,
            match task_kinds {
                Some(v) => Some(v@),
                None => None,
            },
        ),
{
    let base = strategy_allowed_kinds(strategy);
    let mut kinds: Vec<String> = Vec::new();
    let mut narrowed = false;
    match task_kinds {
        Some(ks) => {
            if ks.len() > 0 {
                narrowed = true;
                let mut labels: Vec<String> = Vec::new();
                let mut j: usize = 0;
                while j < ks.len()
                    invariant
                        j <= ks.len(),
                        views(labels@) == kind_names(ks@.take(j as int)),
                    decreases ks.len() - j,
                {
                    let ghost before = views(labels@);
                    labels.push(kind_label(ks[j]));
                    assert(views(labels@) =~= before.push(kind_name(ks@[j as int])));
                    assert(kind_names(ks@.take(j + 1)) =~= kind_names(ks@.take(j as int)).push(
                        kind_name(ks@[j as int]),
                    ));
                    j = j + 1;
                }
                assert(ks@.take(ks.len() as int) =~= ks@);
                let mut i: usize = 0;
                while i < base.len()
                    invariant
                        i <= base.len(),
                        views(labels@) == kind_names(ks@),
                        views(kinds@) == retained(views(base@).take(i as int), kind_names(ks@)),
                    decreases base.len() - i,
                {
                    assert(views(base@).take(i + 1).drop_last() =~= views(base@).take(i as int));
                    if label_in(&labels, base[i].as_str()) {
                        let ghost before = views(kinds@);
                        kinds.push(base[i].clone());
                        assert(views(kinds@) =~= before.push(base@[i as int]@));
                    }
                    i = i + 1;
                }
                assert(views(base@).take(base.len() as int) =~= views(base@));
            }
        },
        None => {},
    }
    if !narrowed {
        kinds = base;
    }
    if kinds.len() == 0 {
        let r = vec![
            owned("addreplayassertion"),
            owned("addmetricupdate"),
            owned("addlearningsummaryfield"),
            owned("addunittest"),
        ];
        assert(views(r@) =~= fallback_kinds());
        return r;
    }
    kinds
}

} // verus!
