//! Mutation generation: the safe probe, mutations from plans, and the default
//! template for each objective.
use vstd::prelude::*;

use crate::contracts::{MutationContract, MutationKind, MutationObjective, MutationPlan};
use crate::evolution::templates::{
    digest_seed, generate_add_learning_summary_field, generate_add_metric_update,
    generate_add_replay_assertion, generate_add_unit_test, generated_test_target,
    learning_summary_replace, learning_summary_search, metric_update_replace, metric_update_search,
    mutation_id, replay_assertion_body, unit_test_body,
};
use crate::text::{
    ascii_alnum, chars_of, is_ascii_alnum, join, join_strings, owned, push_str, trim,
    trimmed_chars, views,
};

verus! {

/// The sandbox-only probe mutation: a comment appended to the runtime cycle.
pub fn generate_safe_mutation() -> (m: MutationContract)
    ensures
        m.id@ == "phase1-append-runtime-note"@,
        m.kind == MutationKind::AppendComment,
        m.target_file@ == "src/runtime_cycle.rs"@,
        m.search is None,
        m.replace is None,
        m.append is Some && m.append->0@ == "// EVA Phase 1 sandbox-only mutation probe."@,
        m.reason@ == "prove bounded sandbox mutation without touching core project"@,
{
    MutationContract {
        id: owned("phase1-append-runtime-note"),
        kind: MutationKind::AppendComment,
        target_file: owned("src/runtime_cycle.rs"),
        search: None,
        replace: None,
        append: Some(owned("// EVA Phase 1 sandbox-only mutation probe.")),
        reason: owned("prove bounded sandbox mutation without touching core project"),
    }
}

/// The template that serves an objective by default.
pub open spec fn default_kind(objective: MutationObjective) -> MutationKind {
    match objective {
        MutationObjective::ImproveTests | MutationObjective::ImproveValidation =>
            MutationKind::AddUnitTest,
        MutationObjective::ImproveReplayability => MutationKind::AddReplayAssertion,
        MutationObjective::ImproveGraphMemory | MutationObjective::ImproveScoring =>
            MutationKind::AddMetricUpdate,
        MutationObjective::ReduceStorage => MutationKind::AddLearningSummaryField,
        MutationObjective::ImproveReliability | MutationObjective::ReduceRuntimeCost =>
            MutationKind::AddUnitTest,
    }
}

/// The template that serves an objective by default.
pub fn default_kind_for_objective(objective: MutationObjective) -> (k: MutationKind)
    ensures
        k == default_kind(objective),
{
    match objective {
        MutationObjective::ImproveTests | MutationObjective::ImproveValidation =>
            MutationKind::AddUnitTest,
        MutationObjective::ImproveReplayability => MutationKind::AddReplayAssertion,
        MutationObjective::ImproveGraphMemory | MutationObjective::ImproveScoring =>
            MutationKind::AddMetricUpdate,
        MutationObjective::ReduceStorage => MutationKind::AddLearningSummaryField,
        MutationObjective::ImproveReliability | MutationObjective::ReduceRuntimeCost =>
            MutationKind::AddUnitTest,
    }
}

/// The name of an objective as reasons print it.
pub open spec fn objective_name(o: MutationObjective) -> Seq<char> {
    match o {
        MutationObjective::ImproveTests => "ImproveTests"@,
        MutationObjective::ImproveValidation => "ImproveValidation"@,
        MutationObjective::ImproveReplayability => "ImproveReplayability"@,
        MutationObjective::ImproveGraphMemory => "ImproveGraphMemory"@,
        MutationObjective::ImproveScoring => "ImproveScoring"@,
        MutationObjective::ReduceStorage => "ReduceStorage"@,
        MutationObjective::ImproveReliability => "ImproveReliability"@,
        MutationObjective::ReduceRuntimeCost => "ReduceRuntimeCost"@,
    }
}

/// The name of an objective as reasons print it.
pub fn objective_label(o: MutationObjective) -> (r: &'static str)
    ensures
        r@ == objective_name(o),
{
    match o {
        MutationObjective::ImproveTests => "ImproveTests",
        MutationObjective::ImproveValidation => "ImproveValidation",
        MutationObjective::ImproveReplayability => "ImproveReplayability",
        MutationObjective::ImproveGraphMemory => "ImproveGraphMemory",
        MutationObjective::ImproveScoring => "ImproveScoring",
        MutationObjective::ReduceStorage => "ReduceStorage",
        MutationObjective::ImproveReliability => "ImproveReliability",
        MutationObjective::ReduceRuntimeCost => "ReduceRuntimeCost",
    }
}

/// A character that a planned note may keep: ASCII letters, digits and
/// whitespace, `-` and `_`.
pub open spec fn reason_char(c: char) -> bool {
    is_ascii_alnum(c) || c == ' ' || c == '\t' || c == '\n' || c == '\x0C' || c == '\r' || c
        == '-' || c == '_'
}

/// The characters of `s` that a planned note may keep, in order.
pub open spec fn reason_chars(s: Seq<char>) -> Seq<char>
    decreases s.len(),
{
    if s.len() == 0 {
        Seq::empty()
    } else if reason_char(s.last()) {
        reason_chars(s.drop_last()).push(s.last())
    } else {
        reason_chars(s.drop_last())
    }
}

/// The note fragment of a reason: its first 120 kept characters, trimmed.
pub open spec fn reason_fragment(s: Seq<char>) -> Seq<char> {
    let k = reason_chars(s);
    trim(if k.len() > 120 {
        k.take(120)
    } else {
        k
    })
}

proof fn lemma_reason_chars_len(s: Seq<char>)
    ensures
        reason_chars(s).len() <= s.len(),
    decreases s.len(),
{
    if s.len() > 0 {
        lemma_reason_chars_len(s.drop_last());
    }
}

/// The note fragment of a plan reason.
pub fn safe_reason_fragment(reason: &str) -> (r: String)
    ensures
        r@ == reason_fragment(reason@),
{
    let x = chars_of(reason);
    let mut k: Vec<char> = Vec::new();
    let mut i: usize = 0;
    while i < x.len()
        invariant
            x@ == reason@,
            i <= x.len(),
            k@ == reason_chars(reason@.take(i as int)),
        decreases x.len() - i,
    {
        proof {
            assert(reason@.take(i + 1).drop_last() =~= reason@.take(i as int));
            lemma_reason_chars_len(reason@.take(i as int));
        }
        let c = x[i];
        if ascii_alnum(c) || c == ' ' || c == '\t' || c == '\n' || c == '\x0C' || c == '\r' || c
            == '-' || c == '_' {
            k.push(c);
        }
        i = i + 1;
    }
    assert(reason@.take(i as int) =~= reason@);
    if k.len() > 120 {
        k.truncate(120);
    }
    assert(k@ =~= (if reason_chars(reason@).len() > 120 {
        reason_chars(reason@).take(120)
    } else {
        reason_chars(reason@)
    }));
    trimmed_chars(&k)
}

/// The reason of a planned mutation: its objective and its graph evidence.
pub open spec fn planned_reason(plan: MutationPlan) -> Seq<char> {
    "planned "@ + objective_name(plan.objective) + " from graph evidence: "@ + join(
        views(plan.graph_evidence@),
        ","@,
    )
}

/// The kind of mutation that a plan yields: a test skeleton becomes a unit
/// test and a metric field a metric update.
pub open spec fn plan_mutation_kind(plan: MutationPlan) -> MutationKind {
    match plan.mutation_kind {
        MutationKind::AddTestSkeleton => MutationKind::AddUnitTest,
        MutationKind::AddMetricField => MutationKind::AddMetricUpdate,
        k => k,
    }
}

/// The mutation for a plan: the bounded templates for test, metric and
/// summary kinds; a planned note, a probe rewrite or a risk tuning otherwise.
pub fn generate_from_plan(plan: &MutationPlan) -> (m: MutationContract)
    requires
        digest_seed(*plan) <= u64::MAX,
    ensures
        m.kind == plan_mutation_kind(*plan),
        m.id@ == mutation_id(*plan),
        plan.mutation_kind == MutationKind::AddUnitTest || plan.mutation_kind
            == MutationKind::AddTestSkeleton ==> {
            &&& m.target_file@ == generated_test_target()
            &&& m.search is None && m.replace is None
            &&& m.append is Some && m.append->0@ == unit_test_body(*plan)
            &&& m.reason@ == "add deterministic generated unit test for "@ + plan.id@
        },
        plan.mutation_kind == MutationKind::AddReplayAssertion ==> {
            &&& m.target_file@ == generated_test_target()
            &&& m.search is None && m.replace is None
            &&& m.append is Some && m.append->0@ == replay_assertion_body(*plan)
            &&& m.reason@ == "add deterministic replay assertion for "@ + plan.id@
        },
        plan.mutation_kind == MutationKind::AddLearningSummaryField ==> {
            &&& m.target_file@ == "src/evolution/metrics.rs"@
            &&& m.search is Some && m.search->0@ == learning_summary_search()
            &&& m.replace is Some && m.replace->0@ == learning_summary_replace()
            &&& m.append is None
            &&& m.reason@ == "extend learning summary output for "@ + plan.id@
        },
        plan.mutation_kind == MutationKind::AddMetricUpdate || plan.mutation_kind
            == MutationKind::AddMetricField ==> {
            &&& m.target_file@ == "src/evolution/metrics.rs"@
            &&& m.search is Some && m.search->0@ == metric_update_search()
            &&& m.replace is Some && m.replace->0@ == metric_update_replace()
            &&& m.append is None
            &&& m.reason@ == "add compact metric/report constant for "@ + plan.id@
        },
        plan.mutation_kind == MutationKind::AppendComment ==> {
            &&& m.target_file@ == plan.target_file@
            &&& m.search is None && m.replace is None
            &&& m.append is Some && m.append->0@ == "// EVA planned note: "@ + reason_fragment(
                plan.reason@,
            ) + "."@
            &&& m.reason@ == planned_reason(*plan)
        },
        plan.mutation_kind == MutationKind::ReplaceText ==> {
            &&& m.target_file@ == plan.target_file@
            &&& m.search is Some && m.search->0@ == "// EVA Phase 1 sandbox-only mutation probe."@
            &&& m.replace is Some && m.replace->0@
                == "// EVA graph-guided sandbox-only mutation probe."@
            &&& m.append is None
            &&& m.reason@ == planned_reason(*plan)
        },
        plan.mutation_kind == MutationKind::ParameterTune ==> {
            &&& m.target_file@ == plan.target_file@
            &&& m.search is Some && m.search->0@ == "risk: 0.1"@
            &&& m.replace is Some && m.replace->0@ == "risk: 0.09"@
            &&& m.append is None
            &&& m.reason@ == planned_reason(*plan)
        },
{
    match plan.mutation_kind {
        MutationKind::AddUnitTest => return generate_add_unit_test(plan),
        MutationKind::AddReplayAssertion => return generate_add_replay_assertion(plan),
        MutationKind::AddLearningSummaryField => return generate_add_learning_summary_field(plan),
        MutationKind::AddMetricUpdate => return generate_add_metric_update(plan),
        MutationKind::AddTestSkeleton => return generate_add_unit_test(plan),
        MutationKind::AddMetricField => return generate_add_metric_update(plan),
        _ => {},
    }
    let (search, replace, append) = match plan.mutation_kind {
        MutationKind::AppendComment => {
            let mut note = owned("// EVA planned note: ");
            push_str(&mut note, safe_reason_fragment(plan.reason.as_str()).as_str());
            push_str(&mut note, ".");
            (None, None, Some(note))
        },
        MutationKind::ReplaceText => (
            Some(owned("// EVA Phase 1 sandbox-only mutation probe.")),
            Some(owned("// EVA graph-guided sandbox-only mutation probe.")),
            None,
        ),
        _ => (Some(owned("risk: 0.1")), Some(owned("risk: 0.09")), None),
    };
    let mut id = owned("mutation:");
    push_str(&mut id, plan.id.as_str());
    let mut reason = owned("planned ");
    push_str(&mut reason, objective_label(plan.objective));
    push_str(&mut reason, " from graph evidence: ");
    push_str(&mut reason, join_strings(&plan.graph_evidence, ",").as_str());
    MutationContract {
        id,
        kind: plan.mutation_kind,
        target_file: plan.target_file.clone(),
        search,
        replace,
        append,
        reason,
    }
}

} // verus!
