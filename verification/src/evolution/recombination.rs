//! Recombination of what earlier runs taught into new mutation hypotheses:
//! the files it may target, the options it weighs for each, and the mutation
//! that a chosen hypothesis becomes. Its scores and risks are computed where
//! the stored numbers live; the choices here are the ones they are computed for.
use vstd::prelude::*;

use crate::contracts::{MutationContract, MutationKind, MutationObjective, MutationPlan};
use crate::evolution::campaign::{campaign_forbidden_target, is_forbidden_target};
use crate::evolution::generator::generate_from_plan;
use crate::evolution::templates::{
    generated_test_target, identifier_suffix, metric_update_replace,
    metric_update_search, learning_summary_replace, learning_summary_search,
    replay_assertion_body, test_suffix_of, unit_test_body,
};
use crate::graph::{EvolutionGraph, GraphEdge, GraphNode};
use crate::text::{
    chars_of, contains, has_infix, has_prefix, lemma_lt_irreflexive, lemma_lt_total, lemma_lt_trans,
    decimal, push_decimal, seq_lt, sort_dedup, str_lt, insert_sorted, lemma_union_empty, lemma_union_step, owned, push_str,
    starts_with, str_eq, strictly_sorted, string_of_range, union_over, views,
};

verus! {

/// A hypothesis that recombination proposes. Its expected gain, risk,
/// confidence and score terms travel beside it where they are computed.
#[derive(Clone, Debug)]
pub struct RecombinedHypothesis {
    pub hypothesis_id: String,
    pub source_patterns: Vec<String>,
    pub avoided_risks: Vec<String>,
    pub target_objective: String,
    pub suggested_mutation_kind: String,
    pub suggested_target: String,
    pub reason_ru: String,
    pub portfolio_reason_ru: String,
}

/// The mutation kind a recombined label names; only the four safe test,
/// replay, summary and metric kinds are recombined.
pub open spec fn recombined_kind(label: Seq<char>) -> Option<MutationKind> {
    if label == "addunittest"@ {
        Some(MutationKind::AddUnitTest)
    } else if label == "addreplayassertion"@ {
        Some(MutationKind::AddReplayAssertion)
    } else if label == "addlearningsummaryfield"@ {
        Some(MutationKind::AddLearningSummaryField)
    } else if label == "addmetricupdate"@ {
        Some(MutationKind::AddMetricUpdate)
    } else {
        None
    }
}

/// The mutation kind a recombined label names, or the error for an unsupported one.
pub fn mutation_kind_from_label(label: &str) -> (r: Result<MutationKind, String>)
    ensures
        match r {
            Ok(k) => recombined_kind(label@) == Some(k),
            Err(e) => recombined_kind(label@) is None && e@
                == "unsupported recombined mutation kind: "@ + label@,
        },
{
    if str_eq(label, "addunittest") {
        Ok(MutationKind::AddUnitTest)
    } else if str_eq(label, "addreplayassertion") {
        Ok(MutationKind::AddReplayAssertion)
    } else if str_eq(label, "addlearningsummaryfield") {
        Ok(MutationKind::AddLearningSummaryField)
    } else if str_eq(label, "addmetricupdate") {
        Ok(MutationKind::AddMetricUpdate)
    } else {
        let mut e = owned("unsupported recombined mutation kind: ");
        push_str(&mut e, label);
        Err(e)
    }
}

/// The objective a label names; reliability for any other label.
pub open spec fn objective_of_label(label: Seq<char>) -> MutationObjective {
    if label == "ImproveTests"@ {
        MutationObjective::ImproveTests
    } else if label == "ImproveValidation"@ {
        MutationObjective::ImproveValidation
    } else if label == "ImproveReplayability"@ {
        MutationObjective::ImproveReplayability
    } else if label == "ImproveGraphMemory"@ {
        MutationObjective::ImproveGraphMemory
    } else if label == "ImproveScoring"@ {
        MutationObjective::ImproveScoring
    } else if label == "ReduceStorage"@ {
        MutationObjective::ReduceStorage
    } else if label == "ReduceRuntimeCost"@ {
        MutationObjective::ReduceRuntimeCost
    } else {
        MutationObjective::ImproveReliability
    }
}

/// The objective a label names.
pub fn objective_from_label(label: &str) -> (r: MutationObjective)
    ensures
        r == objective_of_label(label@),
{
    if str_eq(label, "ImproveTests") {
        MutationObjective::ImproveTests
    } else if str_eq(label, "ImproveValidation") {
        MutationObjective::ImproveValidation
    } else if str_eq(label, "ImproveReplayability") {
        MutationObjective::ImproveReplayability
    } else if str_eq(label, "ImproveGraphMemory") {
        MutationObjective::ImproveGraphMemory
    } else if str_eq(label, "ImproveScoring") {
        MutationObjective::ImproveScoring
    } else if str_eq(label, "ReduceStorage") {
        MutationObjective::ReduceStorage
    } else if str_eq(label, "ReduceRuntimeCost") {
        MutationObjective::ReduceRuntimeCost
    } else {
        MutationObjective::ImproveReliability
    }
}

/// A kind that recombination never proposes.
pub open spec fn forbidden_recombined_kind(label: Seq<char>) -> bool {
    label == "appendcomment"@ || label == "deletecode"@ || label == "rewritefunction"@ || label
        == "freediff"@ || label == "dependencyadd"@
}

/// Whether recombination never proposes the kind `label`.
pub fn forbidden_kind(label: &str) -> (r: bool)
    ensures
        r == forbidden_recombined_kind(label@),
{
    str_eq(label, "appendcomment") || str_eq(label, "deletecode") || str_eq(label, "rewritefunction")
        || str_eq(label, "freediff") || str_eq(label, "dependencyadd")
}

/// The reason a recombined mutation records.
pub open spec fn recombined_reason(h: RecombinedHypothesis) -> Seq<char> {
    "recombined hypothesis "@ + h.hypothesis_id@ + ": "@ + h.reason_ru@ + "; portfolio="@
        + h.portfolio_reason_ru@
}

/// The payload of a recombined mutation of kind `k` for hypothesis `h`: the
/// template of `k` for a plan with the hypothesis's id and target.
pub open spec fn recombined_payload(m: MutationContract, k: MutationKind, h: RecombinedHypothesis) -> bool {
    exists|plan: MutationPlan|
        #![trigger template_payload(m, k, plan)]
        plan.id@ == h.hypothesis_id@ && plan.target_file@ == h.suggested_target@
            && template_payload(m, k, plan)
}

/// The payload that the templates give kind `k` for `plan`.
pub open spec fn template_payload(m: MutationContract, k: MutationKind, plan: MutationPlan) -> bool {
    match k {
        MutationKind::AddUnitTest => m.search is None && m.replace is None && m.append is Some
            && m.append->0@ == unit_test_body(plan),
        MutationKind::AddReplayAssertion => m.search is None && m.replace is None
            && m.append is Some && m.append->0@ == replay_assertion_body(plan),
        MutationKind::AddLearningSummaryField => m.append is None && m.search is Some
            && m.search->0@ == learning_summary_search() && m.replace is Some && m.replace->0@
            == learning_summary_replace(),
        _ => m.append is None && m.search is Some && m.search->0@ == metric_update_search()
            && m.replace is Some && m.replace->0@ == metric_update_replace(),
    }
}

/// The mutation a recombined hypothesis becomes: the template of its kind
/// for a plan with its id, objective, target, reason and source patterns,
/// under the hypothesis's id, reason and target. Its expected gain and risk
/// are the hypothesis's, clamped where they are held.
pub fn generate_from_recombined_hypothesis(hypothesis: &RecombinedHypothesis) -> (r: Result<
    MutationContract,
    String,
>)
    requires
        crate::evolution::validator::byte_len(hypothesis.hypothesis_id@) * 7919
            + crate::evolution::validator::byte_len(hypothesis.suggested_target@) * 104729
            <= u64::MAX,
    ensures
        match r {
            Ok(m) => {
                &&& recombined_kind(hypothesis.suggested_mutation_kind@) == Some(m.kind)
                &&& m.id@ == "mutation:"@ + hypothesis.hypothesis_id@
                &&& m.reason@ == recombined_reason(*hypothesis)
                &&& m.target_file@ == hypothesis.suggested_target@
                &&& recombined_payload(m, m.kind, *hypothesis)
            },
            Err(e) => recombined_kind(hypothesis.suggested_mutation_kind@) is None && e@
                == "unsupported recombined mutation kind: "@ + hypothesis.suggested_mutation_kind@,
        },
{
    let kind = match mutation_kind_from_label(hypothesis.suggested_mutation_kind.as_str()) {
        Ok(k) => k,
        Err(e) => return Err(e),
    };
    let plan = MutationPlan {
        id: hypothesis.hypothesis_id.clone(),
        objective: objective_from_label(hypothesis.target_objective.as_str()),
        target_file: hypothesis.suggested_target.clone(),
        mutation_kind: kind,
        reason: hypothesis.reason_ru.clone(),
        graph_evidence: hypothesis.source_patterns.clone(),
    };
    let mut mutation = generate_from_plan(&plan);
    assert(template_payload(mutation, kind, plan));
    let mut id = owned("mutation:");
    push_str(&mut id, hypothesis.hypothesis_id.as_str());
    let mut reason = owned("recombined hypothesis ");
    push_str(&mut reason, hypothesis.hypothesis_id.as_str());
    push_str(&mut reason, ": ");
    push_str(&mut reason, hypothesis.reason_ru.as_str());
    push_str(&mut reason, "; portfolio=");
    push_str(&mut reason, hypothesis.portfolio_reason_ru.as_str());
    mutation.id = id;
    mutation.reason = reason;
    mutation.kind = kind;
    mutation.target_file = hypothesis.suggested_target.clone();
    assert(template_payload(mutation, kind, plan));
    assert(recombined_payload(mutation, kind, *hypothesis));
    Ok(mutation)
}

/// A file that recombination may target: under `src/` and not protected.
pub open spec fn eligible_file(f: Seq<char>) -> bool {
    has_prefix(f, "src/"@) && !campaign_forbidden_target(f)
}

/// The file that a graph id names, when it is a `file:` id.
pub open spec fn named_file(t: Seq<char>) -> Option<Seq<char>> {
    if has_prefix(t, "file:"@) {
        Some(t.skip(5))
    } else {
        None
    }
}

/// The eligible file an id names, as a set.
pub open spec fn eligible_named() -> spec_fn(Seq<char>) -> Set<Seq<char>> {
    |t: Seq<char>|
        match named_file(t) {
            Some(f) => if eligible_file(f) {
                set![f]
            } else {
                Set::empty()
            },
            None => Set::empty(),
        }
}

/// The files recombination considers: eligible files that an edge points to
/// or a node names.
pub open spec fn candidate_file_set(g: EvolutionGraph) -> Set<Seq<char>> {
    union_over(g.edges@.map_values(|e: GraphEdge| e.to@), eligible_named()) + union_over(
        g.nodes@.map_values(|n: GraphNode| n.id@),
        eligible_named(),
    )
}

/// The source of an edge into `f`, as a set.
pub open spec fn source_into(f: Seq<char>) -> spec_fn(GraphEdge) -> Set<Seq<char>> {
    |e: GraphEdge|
        if named_file(e.to@) == Some(f) {
            set![e.from@]
        } else {
            Set::empty()
        }
}

/// A file recombination may target and the patterns whose edges point to it.
#[derive(Clone, Debug)]
pub struct RecombinationCandidate {
    pub file: String,
    pub source_patterns: Vec<String>,
}

/// The file that `t` names, when it is a `file:` id.
fn file_of(t: &str) -> (r: Option<String>)
    ensures
        match r {
            Some(f) => named_file(t@) == Some(f@),
            None => named_file(t@) is None,
        },
{
    if starts_with(t, "file:") {
        proof {
            reveal_strlit("file:");
        }
        let x = chars_of(t);
        let n = x.len();
        let f = string_of_range(&x, 5, n);
        assert(x@.subrange(5, n as int) =~= t@.skip(5));
        Some(f)
    } else {
        None
    }
}

/// The eligible file that `t` names, when it names one.
fn eligible_file_of(t: &str) -> (r: Option<String>)
    ensures
        match r {
            Some(f) => (eligible_named())(t@) == set![f@],
            None => (eligible_named())(t@) == Set::<Seq<char>>::empty(),
        },
{
    match file_of(t) {
        Some(f) => {
            if starts_with(f.as_str(), "src/") && !is_forbidden_target(f.as_str()) {
                Some(f)
            } else {
                None
            }
        },
        None => None,
    }
}

/// The patterns whose edges point to the file `f`, sorted without repeats.
fn sources_of(edges: &Vec<GraphEdge>, f: &str) -> (r: Vec<String>)
    ensures
        strictly_sorted(views(r@)),
        views(r@).to_set() == union_over(edges@, source_into(f@)),
{
    let mut r: Vec<String> = Vec::new();
    let ghost g = source_into(f@);
    proof {
        lemma_union_empty(edges@.take(0), g);
        assert(views(r@).to_set() =~= Set::<Seq<char>>::empty());
    }
    let mut i: usize = 0;
    while i < edges.len()
        invariant
            i <= edges.len(),
            g == source_into(f@),
            strictly_sorted(views(r@)),
            views(r@).to_set() == union_over(edges@.take(i as int), g),
        decreases edges.len() - i,
    {
        proof {
            lemma_union_step(edges@, i as int, g);
        }
        let e = &edges[i];
        let target = file_of(e.to.as_str());
        let hit = match &target {
            Some(t) => str_eq(t.as_str(), f),
            None => false,
        };
        if hit {
            let ghost before = views(r@).to_set();
            insert_sorted(&mut r, e.from.clone());
            assert(views(r@).to_set() =~= before + g(edges@[i as int]));
        } else {
            assert(views(r@).to_set() =~= views(r@).to_set() + g(edges@[i as int]));
        }
        i = i + 1;
    }
    assert(edges@.take(i as int) =~= edges@);
    r
}

/// The files of `c`, in order.
pub open spec fn candidate_files(c: Seq<RecombinationCandidate>) -> Seq<Seq<char>> {
    c.map_values(|x: RecombinationCandidate| x.file@)
}

/// The files recombination may target, sorted without repeats: those that
/// graph edges point to or graph nodes name as `file:` ids, under `src/` and
/// not protected; each with the patterns whose edges point to it.
pub fn collect_candidate_files(graph: &EvolutionGraph) -> (r: Vec<RecombinationCandidate>)
    ensures
        strictly_sorted(candidate_files(r@)),
        candidate_files(r@).to_set() == candidate_file_set(*graph),
        forall|i: int|
            0 <= i < r.len() ==> strictly_sorted(views((#[trigger] r@[i]).source_patterns@))
                && views(r@[i].source_patterns@).to_set() == union_over(
                graph.edges@,
                source_into(r@[i].file@),
            ),
{
    let ghost tos = graph.edges@.map_values(|e: GraphEdge| e.to@);
    let ghost ids = graph.nodes@.map_values(|n: GraphNode| n.id@);
    let ghost g = eligible_named();
    let mut files: Vec<String> = Vec::new();
    proof {
        lemma_union_empty(tos.take(0), g);
        assert(views(files@).to_set() =~= Set::<Seq<char>>::empty());
    }
    let mut i: usize = 0;
    while i < graph.edges.len()
        invariant
            i <= graph.edges.len(),
            tos == graph.edges@.map_values(|e: GraphEdge| e.to@),
            g == eligible_named(),
            strictly_sorted(views(files@)),
            views(files@).to_set() == union_over(tos.take(i as int), g),
        decreases graph.edges.len() - i,
    {
        proof {
            lemma_union_step(tos, i as int, g);
        }
        let ghost before = views(files@).to_set();
        match eligible_file_of(graph.edges[i].to.as_str()) {
            Some(f) => insert_sorted(&mut files, f),
            None => {},
        }
        assert(views(files@).to_set() =~= before + g(tos[i as int]));
        i = i + 1;
    }
    assert(tos.take(i as int) =~= tos);
    let ghost from_edges = views(files@).to_set();
    proof {
        lemma_union_empty(ids.take(0), g);
    }
    let mut j: usize = 0;
    while j < graph.nodes.len()
        invariant
            j <= graph.nodes.len(),
            ids == graph.nodes@.map_values(|n: GraphNode| n.id@),
            g == eligible_named(),
            strictly_sorted(views(files@)),
            views(files@).to_set() == from_edges + union_over(ids.take(j as int), g),
        decreases graph.nodes.len() - j,
    {
        proof {
            lemma_union_step(ids, j as int, g);
        }
        let ghost before = views(files@).to_set();
        match eligible_file_of(graph.nodes[j].id.as_str()) {
            Some(f) => insert_sorted(&mut files, f),
            None => {},
        }
        assert(views(files@).to_set() =~= before + g(ids[j as int]));
        assert(from_edges + union_over(ids.take(j as int), g) + g(ids[j as int]) =~= from_edges
            + union_over(ids.take(j + 1), g));
        j = j + 1;
    }
    assert(ids.take(j as int) =~= ids);
    let mut r: Vec<RecombinationCandidate> = Vec::new();
    let mut k: usize = 0;
    while k < files.len()
        invariant
            k <= files.len(),
            candidate_files(r@) == views(files@).take(k as int),
            forall|m: int|
                0 <= m < r.len() ==> strictly_sorted(views((#[trigger] r@[m]).source_patterns@))
                    && views(r@[m].source_patterns@).to_set() == union_over(
                    graph.edges@,
                    source_into(r@[m].file@),
                ),
        decreases files.len() - k,
    {
        let sources = sources_of(&graph.edges, files[k].as_str());
        let ghost before = candidate_files(r@);
        r.push(RecombinationCandidate { file: files[k].clone(), source_patterns: sources });
        assert(candidate_files(r@) =~= before.push(files@[k as int]@));
        assert(views(files@).take(k + 1) =~= views(files@).take(k as int).push(files@[k as int]@));
        k = k + 1;
    }
    assert(views(files@).take(k as int) =~= views(files@));
    r
}

/// How often an objective led to a useful change.
#[derive(Clone, Debug)]
pub struct ObjectiveCount {
    pub key: String,
    pub count: u64,
}

/// The objective a file's name suggests on its own.
pub open spec fn inferred_objective(file: Seq<char>) -> Seq<char> {
    if has_infix(file, "validator"@) {
        "ImproveValidation"@
    } else if has_infix(file, "replay"@) || has_infix(file, "promotion"@) {
        "ImproveReplayability"@
    } else if has_infix(file, "metrics"@) || has_infix(file, "learning"@) || has_infix(
        file,
        "report"@,
    ) {
        "ImproveGraphMemory"@
    } else {
        "ImproveReliability"@
    }
}

/// `r` is the most frequent objective of `counts`, the least in name order
/// among equally frequent ones.
pub open spec fn most_frequent(counts: Seq<ObjectiveCount>, r: Seq<char>) -> bool {
    exists|i: int|
        0 <= i < counts.len() && (#[trigger] counts[i]).key@ == r && forall|j: int|
            0 <= j < counts.len() ==> (#[trigger] counts[j]).count <= counts[i].count && (
            counts[j].count == counts[i].count ==> !seq_lt(counts[j].key@, r))
}

/// The objective recombination aims at for `file`: the most frequent useful
/// objective so far, or, with no history, the one the file's name suggests.
pub fn preferred_objective_for_file(file: &str, counts: &Vec<ObjectiveCount>) -> (r: String)
    ensures
        counts.len() == 0 ==> r@ == inferred_objective(file@),
        counts.len() > 0 ==> most_frequent(counts@, r@),
{
    if counts.len() == 0 {
        if contains(file, "validator") {
            return owned("ImproveValidation");
        } else if contains(file, "replay") || contains(file, "promotion") {
            return owned("ImproveReplayability");
        } else if contains(file, "metrics") || contains(file, "learning") || contains(file, "report") {
            return owned("ImproveGraphMemory");
        } else {
            return owned("ImproveReliability");
        }
    }
    let mut best: usize = 0;
    let mut i: usize = 1;
    proof {
        lemma_lt_irreflexive(counts@[0].key@, 0);
    }
    while i < counts.len()
        invariant
            0 < i <= counts.len(),
            best < i,
            forall|j: int|
                0 <= j < i ==> (#[trigger] counts@[j]).count <= counts@[best as int].count && (
                counts@[j].count == counts@[best as int].count ==> !seq_lt(
                    counts@[j].key@,
                    counts@[best as int].key@,
                )),
        decreases counts.len() - i,
    {
        let c = &counts[i];
        let b = &counts[best];
        if c.count > b.count || (c.count == b.count && str_lt(c.key.as_str(), b.key.as_str())) {
            let ghost old_best = best as int;
            proof {
                lemma_lt_irreflexive(counts@[i as int].key@, 0);
                assert forall|j: int| 0 <= j < i + 1 implies (#[trigger] counts@[j]).count
                    <= counts@[i as int].count && (counts@[j].count == counts@[i as int].count
                    ==> !seq_lt(counts@[j].key@, counts@[i as int].key@)) by {
                    if j < i && counts@[j].count == counts@[i as int].count {
                        if seq_lt(counts@[j].key@, counts@[i as int].key@) {
                            lemma_lt_trans(counts@[j].key@, counts@[i as int].key@, counts@[old_best].key@, 0);
                        }
                    }
                }
            }
            best = i;
        } else {
            proof {
                if c.count == b.count {
                    if counts@[i as int].key@ != counts@[best as int].key@ {
                        lemma_lt_total(counts@[i as int].key@, counts@[best as int].key@, 0);
                    }
                    if seq_lt(counts@[i as int].key@, counts@[best as int].key@) {
                        assert(false);
                    }
                    lemma_lt_irreflexive(counts@[best as int].key@, 0);
                }
            }
        }
        i = i + 1;
    }
    let r = counts[best].key.clone();
    assert(counts@[best as int].key@ == r@);
    r
}

/// How many successes each recombinable kind has had.
#[derive(Clone, Copy, Debug)]
pub struct KindSuccesses {
    pub add_unit_test: u64,
    pub add_replay_assertion: u64,
    pub add_metric_update: u64,
    pub add_learning_summary_field: u64,
}

/// An option recombination weighs for a file: kind, target, reason and the
/// kind's base bonus in hundredths.
#[derive(Clone, Debug)]
pub struct RecombinationOption {
    pub mutation_kind: String,
    pub target: String,
    pub reason_ru: String,
    pub base_kind_bonus_hundredths: u32,
}

/// An option as plain values.
pub struct OptionView {
    pub kind: Seq<char>,
    pub target: Seq<char>,
    pub reason: Seq<char>,
    pub bonus: nat,
}

/// An option as plain values.
pub open spec fn option_view(o: RecombinationOption) -> OptionView {
    OptionView {
        kind: o.mutation_kind@,
        target: o.target@,
        reason: o.reason_ru@,
        bonus: o.base_kind_bonus_hundredths as nat,
    }
}

/// A file under the runtime or the evolution sources.
pub open spec fn runtime_file(file: Seq<char>) -> bool {
    has_prefix(file, "src/runtime"@) || has_prefix(file, "src/evolution/"@)
}

/// A file about metrics, reports or learning.
pub open spec fn reporting_file(file: Seq<char>) -> bool {
    has_infix(file, "metrics"@) || has_infix(file, "report"@) || has_infix(file, "learning"@)
}

/// A file about replay or promotion.
pub open spec fn replay_file(file: Seq<char>) -> bool {
    has_infix(file, "replay"@) || has_infix(file, "promotion"@)
}

/// The options recombination weighs for a file, one per kind, in kind order:
/// for reporting code a summary field and a metric update (bonus 10 after
/// a success of that kind, else 12); a replay assertion for replay and
/// promotion code (11), else for runtime and evolution code redirected into
/// tests (14 after a replay success, else 10); a unit test for validators
/// (12), else for runtime and evolution code after a unit-test success (14),
/// else as the fallback when no other option applies (8). Where two reasons
/// give the same kind, the first considered (validator, replay, runtime)
/// stands.
pub open spec fn recombination_options(file: Seq<char>, s: KindSuccesses) -> Seq<OptionView> {
    let t = generated_test_target();
    let m = "src/evolution/metrics.rs"@;
    (if reporting_file(file) {
        seq![
            OptionView { kind: "addlearningsummaryfield"@, target: m, reason: "Рекомбинация объединила успешную reporting/learning историю в компактное расширение summary-поля."@, bonus: if s.add_learning_summary_field > 0 { 10 } else { 12 } },
            OptionView { kind: "addmetricupdate"@, target: m, reason: "Рекомбинация объединила успешную metrics/reporting историю в безопасное обновление метрик."@, bonus: if s.add_metric_update > 0 { 10 } else { 12 } },
        ]
    } else {
        Seq::empty()
    }) + (if replay_file(file) {
        seq![OptionView { kind: "addreplayassertion"@, target: t, reason: "Рекомбинация выбрала replay assertion для усиления replay/promotion поведения."@, bonus: 11 }]
    } else if runtime_file(file) {
        seq![OptionView { kind: "addreplayassertion"@, target: t, reason: "Рекомбинация отвела рискованный runtime/evolution target в replay/test слой."@, bonus: if s.add_replay_assertion > 0 { 14 } else { 10 } }]
    } else {
        Seq::empty()
    }) + (if has_infix(file, "validator"@) {
        seq![OptionView { kind: "addunittest"@, target: t, reason: "Рекомбинация выбрала усиление validator safety через локально успешный тестовый паттерн."@, bonus: 12 }]
    } else if runtime_file(file) && s.add_unit_test > 0 {
        seq![OptionView { kind: "addunittest"@, target: t, reason: "Рекомбинация отвела рискованный runtime/evolution target в безопасный test target и использовала успешный AddUnitTest-паттерн."@, bonus: 14 }]
    } else if !replay_file(file) && !runtime_file(file) && !reporting_file(file) {
        seq![OptionView { kind: "addunittest"@, target: t, reason: "Рекомбинация выбрала безопасный fallback через локальный unit-test паттерн."@, bonus: 8 }]
    } else {
        Seq::empty()
    })
}

fn option(kind: &str, target: &str, reason: &str, bonus: u32) -> (r: RecombinationOption)
    ensures
        option_view(r) == (OptionView { kind: kind@, target: target@, reason: reason@, bonus: bonus as nat }),
{
    RecombinationOption {
        mutation_kind: owned(kind),
        target: owned(target),
        reason_ru: owned(reason),
        base_kind_bonus_hundredths: bonus,
    }
}

/// The options recombination weighs for `file`, given how often each kind succeeded.
pub fn candidate_options(file: &str, successes: KindSuccesses) -> (r: Vec<RecombinationOption>)
    ensures
        r@.map_values(|o: RecombinationOption| option_view(o)) == recombination_options(file@, successes),
{
    let validator = contains(file, "validator");
    let replay = contains(file, "replay") || contains(file, "promotion");
    let runtime = starts_with(file, "src/runtime") || starts_with(file, "src/evolution/");
    let reporting = contains(file, "metrics") || contains(file, "report") || contains(file, "learning");
    let unit_success = successes.add_unit_test > 0;
    let mut r: Vec<RecombinationOption> = Vec::new();
    if reporting {
        r.push(option("addlearningsummaryfield", "src/evolution/metrics.rs", "Рекомбинация объединила успешную reporting/learning историю в компактное расширение summary-поля.", if successes.add_learning_summary_field > 0 { 10 } else { 12 }));
        r.push(option("addmetricupdate", "src/evolution/metrics.rs", "Рекомбинация объединила успешную metrics/reporting историю в безопасное обновление метрик.", if successes.add_metric_update > 0 { 10 } else { 12 }));
    }
    if replay {
        r.push(option("addreplayassertion", "tests/evolution_generated_tests.rs", "Рекомбинация выбрала replay assertion для усиления replay/promotion поведения.", 11));
    } else if runtime {
        r.push(option("addreplayassertion", "tests/evolution_generated_tests.rs", "Рекомбинация отвела рискованный runtime/evolution target в replay/test слой.", if successes.add_replay_assertion > 0 { 14 } else { 10 }));
    }
    if validator {
        r.push(option("addunittest", "tests/evolution_generated_tests.rs", "Рекомбинация выбрала усиление validator safety через локально успешный тестовый паттерн.", 12));
    } else if runtime && unit_success {
        r.push(option("addunittest", "tests/evolution_generated_tests.rs", "Рекомбинация отвела рискованный runtime/evolution target в безопасный test target и использовала успешный AddUnitTest-паттерн.", 14));
    } else if !replay && !runtime && !reporting {
        r.push(option("addunittest", "tests/evolution_generated_tests.rs", "Рекомбинация выбрала безопасный fallback через локальный unit-test паттерн.", 8));
    }
    proof {
        reveal_strlit("tests/evolution_generated_tests.rs");
        assert(r@.map_values(|o: RecombinationOption| option_view(o)) =~= recombination_options(file@, successes));
    }
    r
}

/// The id of the hypothesis that applies an option of kind `kind` to
/// `target` for `file`: both paths as identifier fragments.
pub open spec fn hypothesis_id_of(file: Seq<char>, kind: Seq<char>, target: Seq<char>) -> Seq<char> {
    "recombined:"@ + test_suffix_of(file) + ":"@ + kind + ":"@ + test_suffix_of(target)
}

/// The source patterns of a hypothesis: the file's patterns (its file node
/// when it has none), and the kind's success count when it has succeeded.
pub open spec fn hypothesis_sources(
    patterns: Set<Seq<char>>,
    file: Seq<char>,
    kind: Seq<char>,
    successes: u64,
) -> Set<Seq<char>> {
    (if patterns.len() == 0 {
        set!["file:"@ + file]
    } else {
        patterns
    }) + if successes > 0 {
        set!["success_kind:"@ + kind + ":"@ + decimal(successes as nat)]
    } else {
        Set::empty()
    }
}

/// The risks a hypothesis avoids: the numeric ones computed beside it, and
/// the redirect of runtime and evolution code into tests.
pub open spec fn hypothesis_avoided(numeric: Set<Seq<char>>, file: Seq<char>) -> Set<Seq<char>> {
    numeric + if runtime_file(file) {
        set!["runtime_to_tests_redirect:"@ + file]
    } else {
        Set::empty()
    }
}

/// The hypothesis recombination proposes for a candidate file and an
/// option: its id, source patterns, avoided risks (the numeric ones given in
/// `numeric_risks`), objective, kind, target and reasons.
pub fn build_hypothesis_frame(
    candidate: &RecombinationCandidate,
    option: &RecombinationOption,
    objective: &str,
    kind_successes: u64,
    numeric_risks: Vec<String>,
    portfolio_reason_ru: &str,
) -> (h: RecombinedHypothesis)
    ensures
        h.hypothesis_id@ == hypothesis_id_of(candidate.file@, option.mutation_kind@, option.target@),
        strictly_sorted(views(h.source_patterns@)),
        views(h.source_patterns@).to_set() == hypothesis_sources(
            views(candidate.source_patterns@).to_set(),
            candidate.file@,
            option.mutation_kind@,
            kind_successes,
        ),
        strictly_sorted(views(h.avoided_risks@)),
        views(h.avoided_risks@).to_set() == hypothesis_avoided(
            views(numeric_risks@).to_set(),
            candidate.file@,
        ),
        h.target_objective@ == objective@,
        h.suggested_mutation_kind@ == option.mutation_kind@,
        h.suggested_target@ == option.target@,
        h.reason_ru@ == option.reason_ru@,
        h.portfolio_reason_ru@ == portfolio_reason_ru@,
{
    let mut id = owned("recombined:");
    push_str(&mut id, identifier_suffix(candidate.file.as_str()).as_str());
    push_str(&mut id, ":");
    push_str(&mut id, option.mutation_kind.as_str());
    push_str(&mut id, ":");
    push_str(&mut id, identifier_suffix(option.target.as_str()).as_str());
    let mut sources: Vec<String> = Vec::new();
    let mut i: usize = 0;
    while i < candidate.source_patterns.len()
        invariant
            i <= candidate.source_patterns.len(),
            views(sources@) == views(candidate.source_patterns@).take(i as int),
        decreases candidate.source_patterns.len() - i,
    {
        sources.push(candidate.source_patterns[i].clone());
        assert(views(candidate.source_patterns@).take(i + 1) =~= views(candidate.source_patterns@).take(
            i as int,
        ).push(candidate.source_patterns@[i as int]@));
        assert(views(sources@) =~= views(candidate.source_patterns@).take(i + 1));
        i = i + 1;
    }
    assert(views(candidate.source_patterns@).take(i as int) =~= views(candidate.source_patterns@));
    let ghost pset = views(candidate.source_patterns@).to_set();
    if sources.len() == 0 {
        let mut f = owned("file:");
        push_str(&mut f, candidate.file.as_str());
        let ghost fv = f@;
        sources.push(f);
        proof {
            Seq::<Seq<char>>::empty().lemma_push_to_set_commute(fv);
            assert(views(sources@) =~= Seq::<Seq<char>>::empty().push(fv));
            assert(views(candidate.source_patterns@) =~= Seq::<Seq<char>>::empty());
            assert(pset =~= Set::<Seq<char>>::empty());
        }
    } else {
        proof {
            let v = views(candidate.source_patterns@);
            assert(v.to_set().contains(v[0]));
            assert(pset.len() != 0);
        }
    }
    let ghost base = views(sources@).to_set();
    if kind_successes > 0 {
        let mut t = owned("success_kind:");
        push_str(&mut t, option.mutation_kind.as_str());
        push_str(&mut t, ":");
        push_decimal(&mut t, kind_successes);
        let ghost v0 = views(sources@);
        sources.push(t);
        assert(views(sources@) =~= v0.push(t@));
        proof {
            v0.lemma_push_to_set_commute(t@);
        }
    }
    proof {
        let e = if kind_successes > 0 {
            set!["success_kind:"@ + option.mutation_kind@ + ":"@ + decimal(kind_successes as nat)]
        } else {
            Set::<Seq<char>>::empty()
        };
        assert(views(sources@).to_set() =~= base + e);
    }
    let sources = sort_dedup(sources);
    let mut avoided = numeric_risks;
    let ghost n0 = views(avoided@);
    if starts_with(candidate.file.as_str(), "src/runtime") || starts_with(
        candidate.file.as_str(),
        "src/evolution/",
    ) {
        let mut t = owned("runtime_to_tests_redirect:");
        push_str(&mut t, candidate.file.as_str());
        avoided.push(t);
        assert(views(avoided@) =~= n0.push(t@));
        proof {
            n0.lemma_push_to_set_commute(t@);
        }
    }
    assert(views(avoided@).to_set() =~= hypothesis_avoided(n0.to_set(), candidate.file@));
    let avoided = sort_dedup(avoided);
    RecombinedHypothesis {
        hypothesis_id: id,
        source_patterns: sources,
        avoided_risks: avoided,
        target_objective: owned(objective),
        suggested_mutation_kind: option.mutation_kind.clone(),
        suggested_target: option.target.clone(),
        reason_ru: option.reason_ru.clone(),
        portfolio_reason_ru: owned(portfolio_reason_ru),
    }
}

/// Every option recombination weighs is one of the four recombined kinds,
/// never a forbidden kind, and targets the generated tests or the metrics
/// module, never a protected file.
pub proof fn lemma_options_are_safe(file: Seq<char>, s: KindSuccesses)
    ensures
        forall|i: int|
            0 <= i < recombination_options(file, s).len() ==> {
                let o = #[trigger] recombination_options(file, s)[i];
                &&& recombined_kind(o.kind) is Some
                &&& !forbidden_recombined_kind(o.kind)
                &&& (o.target == generated_test_target() || o.target == "src/evolution/metrics.rs"@)
                &&& !campaign_forbidden_target(o.target)
            },
{
    let t = generated_test_target();
    let m = "src/evolution/metrics.rs"@;
    reveal_strlit("tests/evolution_generated_tests.rs");
    reveal_strlit("src/evolution/metrics.rs");
    reveal_strlit("src/core/");
    reveal_strlit("src/main.rs");
    reveal_strlit("src/lib.rs");
    reveal_strlit("Cargo.toml");
    reveal_strlit("/Cargo.toml");
    assert(t[0] != "src/core/"@[0]);
    assert(t.subrange(0, 9) != "src/core/"@) by {
        assert(t.subrange(0, 9)[0] == t[0]);
    }
    assert(t.last() != "/Cargo.toml"@.last());
    assert(t.subrange(t.len() - 11, t.len() as int) != "/Cargo.toml"@) by {
        assert(t.subrange(t.len() - 11, t.len() as int)[10] == t.last());
    }
    assert(m.subrange(0, 9) != "src/core/"@) by {
        assert(m.subrange(0, 9)[4] == m[4]);
        assert(m[4] != "src/core/"@[4]);
    }
    assert(m.subrange(m.len() - 11, m.len() as int) != "/Cargo.toml"@) by {
        assert(m.subrange(m.len() - 11, m.len() as int)[10] == m.last());
        assert(m.last() != "/Cargo.toml"@.last());
    }
    assert(t != "src/main.rs"@ && t != "src/lib.rs"@ && t != "Cargo.toml"@) by {
        assert(t.len() != "src/main.rs"@.len());
        assert(t.len() != "src/lib.rs"@.len());
        assert(t.len() != "Cargo.toml"@.len());
    }
    assert(m != "src/main.rs"@ && m != "src/lib.rs"@ && m != "Cargo.toml"@) by {
        assert(m.len() != "src/main.rs"@.len());
        assert(m.len() != "src/lib.rs"@.len());
        assert(m.len() != "Cargo.toml"@.len());
    }
    assert(!campaign_forbidden_target(t));
    assert(!campaign_forbidden_target(m));
    reveal_strlit("addunittest");
    reveal_strlit("addreplayassertion");
    reveal_strlit("addmetricupdate");
    reveal_strlit("addlearningsummaryfield");
    reveal_strlit("appendcomment");
    reveal_strlit("deletecode");
    reveal_strlit("rewritefunction");
    reveal_strlit("freediff");
    reveal_strlit("dependencyadd");
    assert(recombined_kind("addunittest"@) is Some);
    assert(recombined_kind("addreplayassertion"@) is Some);
    assert(recombined_kind("addmetricupdate"@) is Some);
    assert(recombined_kind("addlearningsummaryfield"@) is Some);
    assert(!forbidden_recombined_kind("addunittest"@)) by {
        assert("addunittest"@[1] != "appendcomment"@[1]);
        assert("addunittest"@[0] != "deletecode"@[0]);
        assert("addunittest"@[0] != "rewritefunction"@[0]);
        assert("addunittest"@[0] != "freediff"@[0]);
        assert("addunittest"@[0] != "dependencyadd"@[0]);
    }
    assert(!forbidden_recombined_kind("addreplayassertion"@)) by {
        assert("addreplayassertion"@[1] != "appendcomment"@[1]);
        assert("addreplayassertion"@[0] != "deletecode"@[0]);
        assert("addreplayassertion"@[0] != "rewritefunction"@[0]);
        assert("addreplayassertion"@[0] != "freediff"@[0]);
        assert("addreplayassertion"@[0] != "dependencyadd"@[0]);
    }
    assert(!forbidden_recombined_kind("addmetricupdate"@)) by {
        assert("addmetricupdate"@[1] != "appendcomment"@[1]);
        assert("addmetricupdate"@[0] != "deletecode"@[0]);
        assert("addmetricupdate"@[0] != "rewritefunction"@[0]);
        assert("addmetricupdate"@[0] != "freediff"@[0]);
        assert("addmetricupdate"@[0] != "dependencyadd"@[0]);
    }
    assert(!forbidden_recombined_kind("addlearningsummaryfield"@)) by {
        assert("addlearningsummaryfield"@[1] != "appendcomment"@[1]);
        assert("addlearningsummaryfield"@[0] != "deletecode"@[0]);
        assert("addlearningsummaryfield"@[0] != "rewritefunction"@[0]);
        assert("addlearningsummaryfield"@[0] != "freediff"@[0]);
        assert("addlearningsummaryfield"@[0] != "dependencyadd"@[0]);
    }
    let opts = recombination_options(file, s);
    assert forall|i: int| 0 <= i < opts.len() implies {
        let o = #[trigger] opts[i];
        &&& recombined_kind(o.kind) is Some
        &&& !forbidden_recombined_kind(o.kind)
        &&& (o.target == t || o.target == m)
        &&& !campaign_forbidden_target(o.target)
    } by {
        let o = opts[i];
        assert(o.kind == "addunittest"@ || o.kind == "addreplayassertion"@ || o.kind == "addmetricupdate"@
            || o.kind == "addlearningsummaryfield"@);
        assert(o.target == t || o.target == m);
    }
}

} // verus!
