//! Tasks that the patterns detected in a local corpus suggest.
use vstd::prelude::*;

use crate::contracts::{DeniedMutationKind, MutationKind, MutationObjective, TaskContract};
use crate::text::{contains_string, join, join_strings, owned, push_str, views};

verus! {

/// A suggested task, its risk ceiling in hundredths and its score floor.
#[derive(Clone, Debug)]
pub struct SuggestedTask {
    pub task: TaskContract,
    pub max_risk_hundredths: u32,
    pub min_score: u32,
}

/// What one kind of suggestion fixes: its id suffix, title, goal, targets,
/// objectives, mutation kinds, cycles and risk ceiling in hundredths.
pub struct TaskTemplate {
    pub suffix: Seq<char>,
    pub title: Seq<char>,
    pub goal: Seq<char>,
    pub targets: Seq<Seq<char>>,
    pub objectives: Seq<MutationObjective>,
    pub kinds: Seq<MutationKind>,
    pub cycles: nat,
    pub risk: nat,
}

/// The template for test expansion.
pub open spec fn test_expansion() -> TaskTemplate {
    TaskTemplate {
        suffix: "test_expansion"@,
        title: "Локальное расширение тестового покрытия"@,
        goal: "Усилить безопасные test/replay паттерны на основе локального corpus."@,
        targets: seq!["tests/*"@],
        objectives: seq![MutationObjective::ImproveTests, MutationObjective::ImproveReplayability],
        kinds: seq![MutationKind::AddUnitTest, MutationKind::AddReplayAssertion],
        cycles: 2,
        risk: 20,
    }
}

/// The template for validation hardening.
pub open spec fn validation_hardening() -> TaskTemplate {
    TaskTemplate {
        suffix: "validation_hardening"@,
        title: "Локальное усиление validation guard"@,
        goal: "Усилить validator safety через безопасные test/replay мутации."@,
        targets: seq!["tests/*"@],
        objectives: seq![MutationObjective::ImproveValidation],
        kinds: seq![MutationKind::AddReplayAssertion, MutationKind::AddUnitTest],
        cycles: 2,
        risk: 18,
    }
}

/// The template for metrics and reporting.
pub open spec fn metrics_reporting() -> TaskTemplate {
    TaskTemplate {
        suffix: "metrics_reporting"@,
        title: "Локальное усиление reporting/metrics"@,
        goal: "Улучшить локальные метрики и learning summary без изменения core/runtime safety barriers."@,
        targets: seq!["src/evolution/*"@],
        objectives: seq![MutationObjective::ImproveGraphMemory],
        kinds: seq![MutationKind::AddLearningSummaryField, MutationKind::AddMetricUpdate],
        cycles: 2,
        risk: 18,
    }
}

/// The template for regression avoidance.
pub open spec fn regression_avoidance() -> TaskTemplate {
    TaskTemplate {
        suffix: "regression_avoidance"@,
        title: "Локальное усиление regression avoidance"@,
        goal: "Усилить replay/error safety и избегать рискованных runtime target через tests/reporting."@,
        targets: seq!["tests/*"@, "src/evolution/*"@],
        objectives: seq![MutationObjective::ImproveReplayability, MutationObjective::ImproveReliability],
        kinds: seq![MutationKind::AddReplayAssertion, MutationKind::AddMetricUpdate],
        cycles: 2,
        risk: 20,
    }
}

/// The template used when no pattern suggests anything.
pub open spec fn safe_local_baseline() -> TaskTemplate {
    TaskTemplate {
        suffix: "safe_local_baseline"@,
        title: "Безопасная локальная baseline задача"@,
        goal: "Выполнить только безопасные test/reporting улучшения по итогам локального corpus."@,
        targets: seq!["tests/*"@, "src/evolution/*"@],
        objectives: seq![MutationObjective::ImproveReliability],
        kinds: seq![MutationKind::AddUnitTest, MutationKind::AddMetricUpdate],
        cycles: 1,
        risk: 18,
    }
}

/// The templates that the detected patterns call for, in order; the safe
/// baseline alone when none does.
pub open spec fn suggested_templates(detected: Set<Seq<char>>) -> Seq<TaskTemplate> {
    let found = (if detected.contains("test_assertion_pattern"@) {
        seq![test_expansion()]
    } else {
        Seq::empty()
    }) + (if detected.contains("validation_guard_pattern"@) {
        seq![validation_hardening()]
    } else {
        Seq::empty()
    }) + (if detected.contains("report_writer_pattern"@) {
        seq![metrics_reporting()]
    } else {
        Seq::empty()
    }) + (if detected.contains("result_error_pattern"@) {
        seq![regression_avoidance()]
    } else {
        Seq::empty()
    });
    if found.len() == 0 {
        seq![safe_local_baseline()]
    } else {
        found
    }
}

/// The targets that every suggested task forbids.
pub open spec fn suggested_forbidden_targets() -> Seq<Seq<char>> {
    seq!["src/core/*"@, "src/main.rs"@, "src/lib.rs"@, "Cargo.toml"@]
}

/// The kinds that every suggested task denies.
pub open spec fn suggested_denied_kinds() -> Seq<DeniedMutationKind> {
    seq![
        DeniedMutationKind::DeleteCode,
        DeniedMutationKind::RewriteFunction,
        DeniedMutationKind::FreeDiff,
        DeniedMutationKind::DependencyAdd,
    ]
}

/// `s` is the task that template `t` makes for the corpus `corpus_id` at `created_at`.
pub open spec fn task_from(s: SuggestedTask, t: TaskTemplate, corpus_id: Seq<char>, created_at: u64) -> bool {
    &&& s.task.task_id@ == "corpus_"@ + corpus_id + "_"@ + t.suffix
    &&& s.task.title_ru@ == t.title
    &&& s.task.goal_ru@ == t.goal
    &&& views(s.task.allowed_targets@) == t.targets
    &&& views(s.task.forbidden_targets@) == suggested_forbidden_targets()
    &&& s.task.preferred_objectives@ == t.objectives
    &&& s.task.allowed_mutation_kinds@ == t.kinds
    &&& s.task.denied_mutation_kinds@ == suggested_denied_kinds()
    &&& s.task.cycles == t.cycles
    &&& s.task.require_replay
    &&& !s.task.require_benchmark
    &&& s.task.require_russian_report
    &&& !s.task.auto_promote
    &&& s.task.source_corpus_id matches Some(c) && c@ == corpus_id
    &&& s.task.created_at == created_at
    &&& s.max_risk_hundredths == t.risk
    &&& s.min_score == 7
}

fn strings(a: &str, b: Option<&str>) -> (r: Vec<String>)
    ensures
        views(r@) == match b {
            Some(b) => seq![a@, b@],
            None => seq![a@],
        },
{
    let mut r = Vec::new();
    r.push(owned(a));
    match b {
        Some(b) => r.push(owned(b)),
        None => {},
    }
    assert(views(r@) =~= match b {
        Some(b) => seq![a@, b@],
        None => seq![a@],
    });
    r
}

fn one_objective(o: MutationObjective) -> (r: Vec<MutationObjective>)
    ensures
        r@ == seq![o],
{
    let mut r = Vec::new();
    r.push(o);
    assert(r@ =~= seq![o]);
    r
}

fn build_task(
    corpus_id: &str,
    suffix: &str,
    title_ru: &str,
    goal_ru: &str,
    allowed_targets: Vec<String>,
    preferred_objectives: Vec<MutationObjective>,
    allowed_mutation_kinds: Vec<MutationKind>,
    cycles: usize,
    max_risk_hundredths: u32,
    created_at: u64,
) -> (r: SuggestedTask)
    ensures
        r.task.task_id@ == "corpus_"@ + corpus_id@ + "_"@ + suffix@,
        r.task.title_ru@ == title_ru@,
        r.task.goal_ru@ == goal_ru@,
        r.task.allowed_targets@ == allowed_targets@,
        views(r.task.forbidden_targets@) == suggested_forbidden_targets(),
        r.task.preferred_objectives@ == preferred_objectives@,
        r.task.allowed_mutation_kinds@ == allowed_mutation_kinds@,
        r.task.denied_mutation_kinds@ == suggested_denied_kinds(),
        r.task.cycles == cycles,
        r.task.require_replay && !r.task.require_benchmark && r.task.require_russian_report
            && !r.task.auto_promote,
        r.task.source_corpus_id matches Some(c) && c@ == corpus_id@,
        r.task.created_at == created_at,
        r.max_risk_hundredths == max_risk_hundredths,
        r.min_score == 7,
{
    let mut id = owned("corpus_");
    push_str(&mut id, corpus_id);
    push_str(&mut id, "_");
    push_str(&mut id, suffix);
    let forbidden = vec![owned("src/core/*"), owned("src/main.rs"), owned("src/lib.rs"), owned("Cargo.toml")];
    assert(views(forbidden@) =~= suggested_forbidden_targets());
    let denied = vec![
        DeniedMutationKind::DeleteCode,
        DeniedMutationKind::RewriteFunction,
        DeniedMutationKind::FreeDiff,
        DeniedMutationKind::DependencyAdd,
    ];
    assert(denied@ =~= suggested_denied_kinds());
    SuggestedTask {
        task: TaskContract {
            task_id: id,
            title_ru: owned(title_ru),
            goal_ru: owned(goal_ru),
            allowed_targets,
            forbidden_targets: forbidden,
            preferred_objectives,
            allowed_mutation_kinds,
            denied_mutation_kinds: denied,
            cycles,
            require_replay: true,
            require_benchmark: false,
            require_russian_report: true,
            auto_promote: false,
            source_corpus_id: Some(owned(corpus_id)),
            created_at,
        },
        max_risk_hundredths,
        min_score: 7,
    }
}

/// The tasks that the patterns detected in the corpus `corpus_id` suggest,
/// made at `created_at`: one per pattern family found, in a fixed order, and
/// the safe baseline alone when none is found.
pub fn suggest_tasks_for_patterns(corpus_id: &str, detected: &Vec<String>, created_at: u64) -> (r:
    Vec<SuggestedTask>)
    ensures
        r.len() == suggested_templates(views(detected@).to_set()).len(),
        forall|i: int|
            0 <= i < r.len() ==> task_from(
                #[trigger] r@[i],
                suggested_templates(views(detected@).to_set())[i],
                corpus_id@,
                created_at,
            ),
{
    let ghost d = views(detected@).to_set();
    let mut r: Vec<SuggestedTask> = Vec::new();
    let ghost mut ts: Seq<TaskTemplate> = Seq::empty();
    assert(r.len() == ts.len());
    if contains_string(detected, "test_assertion_pattern") {
        let t = build_task(
            corpus_id,
            "test_expansion",
            "Локальное расширение тестового покрытия",
            "Усилить безопасные test/replay паттерны на основе локального corpus.",
            strings("tests/*", None),
            vec![MutationObjective::ImproveTests, MutationObjective::ImproveReplayability],
            vec![MutationKind::AddUnitTest, MutationKind::AddReplayAssertion],
            2,
            20,
            created_at,
        );
        proof {
            ts = ts.push(test_expansion());
        }
        r.push(t);
        assert(task_from(r@[r.len() - 1], test_expansion(), corpus_id@, created_at));
    }
    assert(r.len() == ts.len() && forall|k: int| 0 <= k < r.len() ==> task_from(#[trigger] r@[k], ts[k], corpus_id@, created_at));
    if contains_string(detected, "validation_guard_pattern") {
        let t = build_task(
            corpus_id,
            "validation_hardening",
            "Локальное усиление validation guard",
            "Усилить validator safety через безопасные test/replay мутации.",
            strings("tests/*", None),
            one_objective(MutationObjective::ImproveValidation),
            vec![MutationKind::AddReplayAssertion, MutationKind::AddUnitTest],
            2,
            18,
            created_at,
        );
        proof {
            ts = ts.push(validation_hardening());
        }
        r.push(t);
        assert(task_from(r@[r.len() - 1], validation_hardening(), corpus_id@, created_at));
    }
    assert(r.len() == ts.len() && forall|k: int| 0 <= k < r.len() ==> task_from(#[trigger] r@[k], ts[k], corpus_id@, created_at));
    if contains_string(detected, "report_writer_pattern") {
        let t = build_task(
            corpus_id,
            "metrics_reporting",
            "Локальное усиление reporting/metrics",
            "Улучшить локальные метрики и learning summary без изменения core/runtime safety barriers.",
            strings("src/evolution/*", None),
            one_objective(MutationObjective::ImproveGraphMemory),
            vec![MutationKind::AddLearningSummaryField, MutationKind::AddMetricUpdate],
            2,
            18,
            created_at,
        );
        proof {
            ts = ts.push(metrics_reporting());
        }
        r.push(t);
        assert(task_from(r@[r.len() - 1], metrics_reporting(), corpus_id@, created_at));
    }
    assert(r.len() == ts.len() && forall|k: int| 0 <= k < r.len() ==> task_from(#[trigger] r@[k], ts[k], corpus_id@, created_at));
    if contains_string(detected, "result_error_pattern") {
        let t = build_task(
            corpus_id,
            "regression_avoidance",
            "Локальное усиление regression avoidance",
            "Усилить replay/error safety и избегать рискованных runtime target через tests/reporting.",
            strings("tests/*", Some("src/evolution/*")),
            vec![MutationObjective::ImproveReplayability, MutationObjective::ImproveReliability],
            vec![MutationKind::AddReplayAssertion, MutationKind::AddMetricUpdate],
            2,
            20,
            created_at,
        );
        proof {
            ts = ts.push(regression_avoidance());
        }
        r.push(t);
        assert(task_from(r@[r.len() - 1], regression_avoidance(), corpus_id@, created_at));
    }
    assert(r.len() == ts.len() && forall|k: int| 0 <= k < r.len() ==> task_from(#[trigger] r@[k], ts[k], corpus_id@, created_at));
    assert(ts =~= (if d.contains("test_assertion_pattern"@) {
        seq![test_expansion()]
    } else {
        Seq::empty()
    }) + (if d.contains("validation_guard_pattern"@) {
        seq![validation_hardening()]
    } else {
        Seq::empty()
    }) + (if d.contains("report_writer_pattern"@) {
        seq![metrics_reporting()]
    } else {
        Seq::empty()
    }) + (if d.contains("result_error_pattern"@) {
        seq![regression_avoidance()]
    } else {
        Seq::empty()
    }));
    if r.len() == 0 {
        let t = build_task(
            corpus_id,
            "safe_local_baseline",
            "Безопасная локальная baseline задача",
            "Выполнить только безопасные test/reporting улучшения по итогам локального corpus.",
            strings("tests/*", Some("src/evolution/*")),
            one_objective(MutationObjective::ImproveReliability),
            vec![MutationKind::AddUnitTest, MutationKind::AddMetricUpdate],
            1,
            18,
            created_at,
        );
        r.push(t);
        assert(task_from(r@[0], safe_local_baseline(), corpus_id@, created_at));
    }
    r
}

/// The name of a mutation kind as written in reports (its variant name).
pub open spec fn kind_title(k: MutationKind) -> Seq<char> {
    match k {
        MutationKind::AppendComment => "AppendComment"@,
        MutationKind::ReplaceText => "ReplaceText"@,
        MutationKind::ParameterTune => "ParameterTune"@,
        MutationKind::AddTestSkeleton => "AddTestSkeleton"@,
        MutationKind::AddMetricField => "AddMetricField"@,
        MutationKind::AddUnitTest => "AddUnitTest"@,
        MutationKind::AddReplayAssertion => "AddReplayAssertion"@,
        MutationKind::AddLearningSummaryField => "AddLearningSummaryField"@,
        MutationKind::AddMetricUpdate => "AddMetricUpdate"@,
    }
}

/// The name of a mutation kind as written in reports.
pub fn kind_title_text(k: MutationKind) -> (r: String)
    ensures
        r@ == kind_title(k),
{
    owned(
        match k {
            MutationKind::AppendComment => "AppendComment",
            MutationKind::ReplaceText => "ReplaceText",
            MutationKind::ParameterTune => "ParameterTune",
            MutationKind::AddTestSkeleton => "AddTestSkeleton",
            MutationKind::AddMetricField => "AddMetricField",
            MutationKind::AddUnitTest => "AddUnitTest",
            MutationKind::AddReplayAssertion => "AddReplayAssertion",
            MutationKind::AddLearningSummaryField => "AddLearningSummaryField",
            MutationKind::AddMetricUpdate => "AddMetricUpdate",
        },
    )
}

/// The note stored beside a suggested task.
pub open spec fn task_markdown(t: TaskContract) -> Seq<char> {
    "# Suggested Task EVA\n\ntitle: "@ + t.title_ru@ + "\ngoal: "@ + t.goal_ru@
        + "\nsource_corpus_id: "@ + match t.source_corpus_id {
        Some(c) => c@,
        None => "нет"@,
    } + "\nauto_promote=false\nallowed_targets: "@ + join(views(t.allowed_targets@), ", "@)
        + "\nallowed_mutation_kinds: "@ + join(
        t.allowed_mutation_kinds@.map_values(|k: MutationKind| kind_title(k)),
        ", "@,
    ) + "\n"@
}

/// The note stored beside a suggested task: title, goal, source corpus,
/// targets and mutation kinds; it never promotes on its own.
pub fn render_task_markdown(t: &TaskContract) -> (s: String)
    ensures
        s@ == task_markdown(*t),
{
    let ghost f = |k: MutationKind| kind_title(k);
    let mut titles: Vec<String> = Vec::new();
    let mut i: usize = 0;
    while i < t.allowed_mutation_kinds.len()
        invariant
            i <= t.allowed_mutation_kinds.len(),
            f == (|k: MutationKind| kind_title(k)),
            views(titles@) == t.allowed_mutation_kinds@.take(i as int).map_values(f),
        decreases t.allowed_mutation_kinds.len() - i,
    {
        let ghost before = views(titles@);
        titles.push(kind_title_text(t.allowed_mutation_kinds[i]));
        let ghost ks = t.allowed_mutation_kinds@;
        assert(views(titles@) =~= before.push(kind_title(ks[i as int])));
        assert(ks.take(i + 1) =~= ks.take(i as int).push(ks[i as int]));
        assert(ks.take(i + 1).map_values(f) =~= ks.take(i as int).map_values(f).push(f(ks[i as int])));
        i = i + 1;
    }
    assert(t.allowed_mutation_kinds@.take(i as int) =~= t.allowed_mutation_kinds@);
    let mut s = String::new();
    push_str(&mut s, "# Suggested Task EVA\n\ntitle: ");
    push_str(&mut s, t.title_ru.as_str());
    push_str(&mut s, "\ngoal: ");
    push_str(&mut s, t.goal_ru.as_str());
    push_str(&mut s, "\nsource_corpus_id: ");
    match &t.source_corpus_id {
        Some(c) => push_str(&mut s, c.as_str()),
        None => push_str(&mut s, "нет"),
    }
    push_str(&mut s, "\nauto_promote=false\nallowed_targets: ");
    push_str(&mut s, join_strings(&t.allowed_targets, ", ").as_str());
    push_str(&mut s, "\nallowed_mutation_kinds: ");
    push_str(&mut s, join_strings(&titles, ", ").as_str());
    push_str(&mut s, "\n");
    s
}

} // verus!
