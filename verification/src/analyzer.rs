//! Graph-guided choice of mutation targets: which files a plan may target,
//! what it aims at there, and what a task contract lets through.
use vstd::prelude::*;

use crate::contracts::{MutationKind, MutationObjective, TaskContract};
use crate::evolution::generator::{default_kind, default_kind_for_objective};
use crate::evolution::task_validator::{matches_target_patterns, pattern_matches};
use crate::graph::EvolutionGraph;
use crate::text::{
    chars_of, contains, ends_with, has_infix, has_prefix, has_suffix, owned, push_char, sort_dedup,
    starts_with, str_eq, strictly_sorted, string_of_range, views,
};

verus! {

/// A file that graph-guided plans may target: under `src/`, outside the
/// protected core, and neither an entry point nor a manifest.
pub open spec fn safe_plan_target(f: Seq<char>) -> bool {
    &&& has_prefix(f, "src/"@)
    &&& !has_prefix(f, "src/core/"@)
    &&& f != "src/main.rs"@
    &&& f != "src/lib.rs"@
    &&& f != "Cargo.toml"@
    &&& !has_suffix(f, "/Cargo.toml"@)
}

/// Whether graph-guided plans may target `file`.
pub fn is_safe_target(file: &str) -> (r: bool)
    ensures
        r == safe_plan_target(file@),
{
    starts_with(file, "src/") && !starts_with(file, "src/core/") && !str_eq(file, "src/main.rs")
        && !str_eq(file, "src/lib.rs") && !str_eq(file, "Cargo.toml") && !ends_with(
        file,
        "/Cargo.toml",
    )
}

/// The objective a plan pursues in `f`, by the words its path holds.
pub open spec fn file_objective(f: Seq<char>) -> MutationObjective {
    if has_infix(f, "validator"@) {
        MutationObjective::ImproveValidation
    } else if has_infix(f, "replay"@) || has_infix(f, "promotion"@) {
        MutationObjective::ImproveReplayability
    } else if has_infix(f, "metrics"@) || has_infix(f, "learning"@) || has_infix(f, "report"@) {
        MutationObjective::ImproveGraphMemory
    } else if has_infix(f, "graph"@) {
        MutationObjective::ImproveGraphMemory
    } else if has_infix(f, "test"@) {
        MutationObjective::ImproveTests
    } else {
        MutationObjective::ImproveReliability
    }
}

/// The objective a plan pursues in `file`.
pub fn objective_for_file(file: &str) -> (o: MutationObjective)
    ensures
        o == file_objective(file@),
{
    if contains(file, "validator") {
        MutationObjective::ImproveValidation
    } else if contains(file, "replay") || contains(file, "promotion") {
        MutationObjective::ImproveReplayability
    } else if contains(file, "metrics") || contains(file, "learning") || contains(file, "report") {
        MutationObjective::ImproveGraphMemory
    } else if contains(file, "graph") {
        MutationObjective::ImproveGraphMemory
    } else if contains(file, "test") {
        MutationObjective::ImproveTests
    } else {
        MutationObjective::ImproveReliability
    }
}

/// The mutation kind a plan applies to `f` for objective `o`.
pub open spec fn file_kind(f: Seq<char>, o: MutationObjective) -> MutationKind {
    if has_infix(f, "replay"@) {
        MutationKind::AddReplayAssertion
    } else if has_infix(f, "metrics"@) || has_infix(f, "learning"@) || has_infix(f, "report"@) {
        match o {
            MutationObjective::ImproveGraphMemory | MutationObjective::ImproveScoring =>
                MutationKind::AddMetricUpdate,
            MutationObjective::ReduceStorage => MutationKind::AddLearningSummaryField,
            _ => default_kind(o),
        }
    } else if has_infix(f, "tests/"@) {
        MutationKind::AddUnitTest
    } else {
        default_kind(o)
    }
}

/// The mutation kind a plan applies to `file` for `objective`.
pub fn kind_for_file(file: &str, objective: MutationObjective) -> (k: MutationKind)
    ensures
        k == file_kind(file@, objective),
{
    if contains(file, "replay") {
        MutationKind::AddReplayAssertion
    } else if contains(file, "metrics") || contains(file, "learning") || contains(file, "report") {
        match objective {
            MutationObjective::ImproveGraphMemory | MutationObjective::ImproveScoring =>
                MutationKind::AddMetricUpdate,
            MutationObjective::ReduceStorage => MutationKind::AddLearningSummaryField,
            _ => default_kind_for_objective(objective),
        }
    } else if contains(file, "tests/") {
        MutationKind::AddUnitTest
    } else {
        default_kind_for_objective(objective)
    }
}

/// The file a mutation of kind `k` planned for `f` is written to: test-adding
/// kinds go to the generated test file.
pub open spec fn kind_target(f: Seq<char>, k: MutationKind) -> Seq<char> {
    match k {
        MutationKind::AddTestSkeleton | MutationKind::AddUnitTest | MutationKind::AddReplayAssertion =>
            "tests/evolution_generated_tests.rs"@,
        _ => f,
    }
}

/// The file a mutation of `kind` planned for `file` is written to.
pub fn target_for_kind(file: &str, kind: MutationKind) -> (r: String)
    ensures
        r@ == kind_target(file@, kind),
{
    match kind {
        MutationKind::AddTestSkeleton | MutationKind::AddUnitTest | MutationKind::AddReplayAssertion =>
            owned("tests/evolution_generated_tests.rs"),
        _ => owned(file),
    }
}

/// `target` matches one of `patterns`.
pub open spec fn matches_any(target: Seq<char>, patterns: Seq<String>) -> bool {
    exists|i: int| 0 <= i < patterns.len() && pattern_matches(target, #[trigger] patterns[i]@)
}

/// A task (if any) lets a plan of `kind` for `objective` write to `target`:
/// the target is allowed (when the task lists allowed targets) and not
/// forbidden, and the objective and kind are among the listed ones (when listed).
pub open spec fn allowed_by_task(
    task: Option<TaskContract>,
    target: Seq<char>,
    objective: MutationObjective,
    kind: MutationKind,
) -> bool {
    match task {
        None => true,
        Some(t) => {
            &&& (t.allowed_targets.len() == 0 || matches_any(target, t.allowed_targets@))
            &&& !matches_any(target, t.forbidden_targets@)
            &&& (t.preferred_objectives.len() == 0 || t.preferred_objectives@.contains(objective))
            &&& (t.allowed_mutation_kinds.len() == 0 || t.allowed_mutation_kinds@.contains(kind))
        },
    }
}

fn has_objective(v: &Vec<MutationObjective>, o: MutationObjective) -> (r: bool)
    ensures
        r == v@.contains(o),
{
    let mut i: usize = 0;
    while i < v.len()
        invariant
            i <= v.len(),
            forall|k: int| 0 <= k < i ==> v@[k] != o,
        decreases v.len() - i,
    {
        if v[i] == o {
            return true;
        }
        i = i + 1;
    }
    false
}

fn has_kind(v: &Vec<MutationKind>, k: MutationKind) -> (r: bool)
    ensures
        r == v@.contains(k),
{
    let mut i: usize = 0;
    while i < v.len()
        invariant
            i <= v.len(),
            forall|j: int| 0 <= j < i ==> v@[j] != k,
        decreases v.len() - i,
    {
        if v[i] == k {
            return true;
        }
        i = i + 1;
    }
    false
}

/// Whether the task (if any) lets a plan of `kind` for `objective` write to `target`.
pub fn task_allows(
    task: Option<&TaskContract>,
    target: &str,
    objective: MutationObjective,
    kind: MutationKind,
) -> (r: bool)
    ensures
        r == allowed_by_task(
            match task {
                Some(t) => Some(*t),
                None => None,
            },
            target@,
            objective,
            kind,
        ),
{
    match task {
        None => true,
        Some(t) => {
            if t.allowed_targets.len() > 0 && !matches_target_patterns(target, &t.allowed_targets) {
                return false;
            }
            if matches_target_patterns(target, &t.forbidden_targets) {
                return false;
            }
            if t.preferred_objectives.len() > 0 && !has_objective(&t.preferred_objectives, objective) {
                return false;
            }
            if t.allowed_mutation_kinds.len() > 0 && !has_kind(&t.allowed_mutation_kinds, kind) {
                return false;
            }
            true
        },
    }
}

/// The file a graph node names, when it is a file node with a `file:` id.
pub open spec fn node_file(id: Seq<char>, kind: Seq<char>) -> Option<Seq<char>> {
    if (kind == "File"@ || kind == "TargetFile"@) && has_prefix(id, "file:"@) {
        Some(id.skip(5))
    } else {
        None
    }
}

/// The safe files that the nodes of `g` (the first `n`) name, in node order.
pub open spec fn named_safe_files(g: EvolutionGraph, n: int) -> Seq<Seq<char>>
    decreases n,
{
    if n <= 0 {
        Seq::empty()
    } else {
        let prev = named_safe_files(g, n - 1);
        let node = g.nodes@[n - 1];
        match node_file(node.id@, node.kind@) {
            Some(f) => if safe_plan_target(f) {
                prev.push(f)
            } else {
                prev
            },
            None => prev,
        }
    }
}

/// Graph-guided plans never target a protected file: every file that the
/// graph offers as a plan target is under `src/`, outside `src/core/`, and
/// neither an entry point nor a manifest.
pub proof fn lemma_plan_files_are_safe(g: EvolutionGraph, n: int, f: Seq<char>)
    requires
        named_safe_files(g, n).contains(f),
    ensures
        safe_plan_target(f),
        !has_prefix(f, "src/core/"@),
        f != "src/main.rs"@,
        f != "src/lib.rs"@,
    decreases n,
{
    if n > 0 {
        let prev = named_safe_files(g, n - 1);
        let node = g.nodes@[n - 1];
        if prev.contains(f) {
            lemma_plan_files_are_safe(g, n - 1, f);
        } else {
            match node_file(node.id@, node.kind@) {
                Some(x) => {
                    if safe_plan_target(x) {
                        let k = choose|k: int| 0 <= k < prev.push(x).len() && prev.push(x)[k] == f;
                        if k < prev.len() {
                            assert(prev[k] == f);
                        }
                    }
                },
                None => {},
            }
        }
    }
}

fn file_of_node(id: &str, kind: &str) -> (r: Option<String>)
    ensures
        match r {
            Some(f) => node_file(id@, kind@) == Some(f@),
            None => node_file(id@, kind@) is None,
        },
{
    if !(str_eq(kind, "File") || str_eq(kind, "TargetFile")) || !starts_with(id, "file:") {
        return None;
    }
    proof {
        reveal_strlit("file:");
    }
    let x = chars_of(id);
    let n = x.len();
    let f = string_of_range(&x, 5, n);
    assert(x@.subrange(5, n as int) =~= id@.skip(5));
    Some(f)
}

/// The files of the graph that plans may target, sorted, each once.
pub fn safe_plan_files(graph: &EvolutionGraph) -> (r: Vec<String>)
    ensures
        strictly_sorted(views(r@)),
        views(r@).to_set() == named_safe_files(*graph, graph.nodes@.len() as int).to_set(),
{
    let mut found: Vec<String> = Vec::new();
    let mut i: usize = 0;
    while i < graph.nodes.len()
        invariant
            i <= graph.nodes.len(),
            views(found@) == named_safe_files(*graph, i as int),
        decreases graph.nodes.len() - i,
    {
        let node = &graph.nodes[i];
        match file_of_node(node.id.as_str(), node.kind.as_str()) {
            Some(f) => {
                if is_safe_target(f.as_str()) {
                    let ghost before = views(found@);
                    found.push(f);
                    assert(views(found@) =~= before.push(found@[found@.len() - 1]@));
                }
            },
            None => {},
        }
        i = i + 1;
    }
    sort_dedup(found)
}

/// The sources of the edges of `g` (the first `n`) that point at `file:<f>`,
/// at most `limit` of them, in edge order.
pub open spec fn edge_sources_to(g: EvolutionGraph, n: int, to: Seq<char>, limit: nat) -> Seq<Seq<char>>
    decreases n,
{
    if n <= 0 {
        Seq::empty()
    } else {
        let prev = edge_sources_to(g, n - 1, to, limit);
        let e = g.edges@[n - 1];
        if e.to@ == to && prev.len() < limit {
            prev.push(e.from@)
        } else {
            prev
        }
    }
}

/// The graph evidence of a plan for `file`: the sources of the first three
/// edges that point at `file:<file>`.
pub fn plan_evidence(graph: &EvolutionGraph, file: &str) -> (r: Vec<String>)
    ensures
        views(r@) == edge_sources_to(*graph, graph.edges@.len() as int, "file:"@ + file@, 3),
        r.len() <= 3,
{
    let mut to = owned("file:");
    let fc = chars_of(file);
    let mut k: usize = 0;
    while k < fc.len()
        invariant
            k <= fc.len(),
            fc@ == file@,
            to@ == "file:"@ + file@.take(k as int),
        decreases fc.len() - k,
    {
        push_char(&mut to, fc[k]);
        assert(file@.take(k + 1) =~= file@.take(k as int).push(file@[k as int]));
        assert("file:"@ + file@.take(k + 1) =~= ("file:"@ + file@.take(k as int)).push(file@[k as int]));
        k = k + 1;
    }
    assert(file@.take(fc.len() as int) =~= file@);
    let mut r: Vec<String> = Vec::new();
    let mut i: usize = 0;
    while i < graph.edges.len()
        invariant
            i <= graph.edges.len(),
            to@ == "file:"@ + file@,
            views(r@) == edge_sources_to(*graph, i as int, to@, 3),
            r.len() <= 3,
        decreases graph.edges.len() - i,
    {
        let e = &graph.edges[i];
        if str_eq(e.to.as_str(), to.as_str()) && r.len() < 3 {
            let ghost before = views(r@);
            r.push(e.from.clone());
            assert(views(r@) =~= before.push(e.from@));
        }
        i = i + 1;
    }
    r
}

/// `c`, or `_` when it is a slash or a dot.
pub open spec fn id_char(c: char) -> char {
    if c == '/' || c == '.' {
        '_'
    } else {
        c
    }
}

/// The id of the plan for `f`: `plan:` and the path with slashes and dots as `_`.
pub open spec fn plan_id_of(f: Seq<char>) -> Seq<char> {
    "plan:"@ + f.map_values(|c: char| id_char(c))
}

/// The id of the plan for `file`.
pub fn plan_id(file: &str) -> (r: String)
    ensures
        r@ == plan_id_of(file@),
{
    let mut r = owned("plan:");
    let fc = chars_of(file);
    let mut k: usize = 0;
    while k < fc.len()
        invariant
            k <= fc.len(),
            fc@ == file@,
            r@ == "plan:"@ + file@.take(k as int).map_values(|c: char| id_char(c)),
        decreases fc.len() - k,
    {
        let c = fc[k];
        let d = if c == '/' || c == '.' {
            '_'
        } else {
            c
        };
        push_char(&mut r, d);
        assert(file@.take(k + 1).map_values(|c: char| id_char(c)) =~= file@.take(k as int).map_values(
            |c: char| id_char(c),
        ).push(id_char(file@[k as int])));
        k = k + 1;
    }
    assert(file@.take(fc.len() as int) =~= file@);
    r
}

} // verus!
