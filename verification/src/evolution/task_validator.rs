//! Validation of operator task contracts and matching of target patterns.
use vstd::prelude::*;

use crate::contracts::{DeniedMutationKind, TaskContract};
use crate::paths::{path_is_absolute, plain_path, rooted};
use crate::text::{
    chars_of, contains, contains_string, has_infix, has_prefix, owned, push_str, starts_with,
    str_eq, views,
};

verus! {

/// The targets every task must forbid, in the order they are checked.
pub open spec fn hard_forbidden_targets() -> Seq<Seq<char>> {
    seq!["src/core/*"@, "src/main.rs"@, "src/lib.rs"@, "Cargo.toml"@]
}

/// The mutation kinds every task must deny, in the order they are checked.
pub open spec fn required_denied_kinds() -> Seq<DeniedMutationKind> {
    seq![
        DeniedMutationKind::DeleteCode,
        DeniedMutationKind::RewriteFunction,
        DeniedMutationKind::FreeDiff,
        DeniedMutationKind::DependencyAdd,
    ]
}

/// The name of a denied mutation kind as error messages print it.
pub open spec fn denied_kind_name(k: DeniedMutationKind) -> Seq<char> {
    match k {
        DeniedMutationKind::DeleteCode => "DeleteCode"@,
        DeniedMutationKind::RewriteFunction => "RewriteFunction"@,
        DeniedMutationKind::FreeDiff => "FreeDiff"@,
        DeniedMutationKind::DependencyAdd => "DependencyAdd"@,
    }
}

/// The name of a denied mutation kind as error messages print it.
pub fn denied_kind_label(k: DeniedMutationKind) -> (r: &'static str)
    ensures
        r@ == denied_kind_name(k),
{
    match k {
        DeniedMutationKind::DeleteCode => "DeleteCode",
        DeniedMutationKind::RewriteFunction => "RewriteFunction",
        DeniedMutationKind::FreeDiff => "FreeDiff",
        DeniedMutationKind::DependencyAdd => "DependencyAdd",
    }
}

/// `target` matches `pattern`: a trailing `*` matches any rest, otherwise the two are equal.
pub open spec fn pattern_matches(target: Seq<char>, pattern: Seq<char>) -> bool {
    if pattern.len() > 0 && pattern.last() == '*' {
        has_prefix(target, pattern.drop_last())
    } else {
        target == pattern
    }
}

/// Whether `target` matches `pattern`.
pub fn matches_target_pattern(target: &str, pattern: &str) -> (r: bool)
    ensures
        r == pattern_matches(target@, pattern@),
{
    let p = chars_of(pattern);
    if p.len() > 0 && p[p.len() - 1] == '*' {
        let mut prefix = String::new();
        let mut i: usize = 0;
        while i + 1 < p.len()
            invariant
                p@ == pattern@,
                p.len() > 0,
                i + 1 <= p.len(),
                prefix@ == pattern@.subrange(0, i as int),
            decreases p.len() - i,
        {
            crate::text::push_char(&mut prefix, p[i]);
            assert(pattern@.subrange(0, i + 1) =~= pattern@.subrange(0, i as int).push(p@[i as int]));
            i = i + 1;
        }
        assert(prefix@ =~= pattern@.drop_last());
        starts_with(target, prefix.as_str())
    } else {
        str_eq(target, pattern)
    }
}

/// Whether `target` matches one of `patterns`.
pub fn matches_target_patterns(target: &str, patterns: &Vec<String>) -> (r: bool)
    ensures
        r == exists|i: int| 0 <= i < patterns@.len() && pattern_matches(target@, #[trigger] patterns@[i]@),
{
    let mut i: usize = 0;
    while i < patterns.len()
        invariant
            i <= patterns.len(),
            forall|k: int| 0 <= k < i ==> !pattern_matches(target@, #[trigger] patterns@[k]@),
        decreases patterns.len() - i,
    {
        if matches_target_pattern(target, patterns[i].as_str()) {
            return true;
        }
        i = i + 1;
    }
    false
}

/// The error of a target pattern, given whether the platform reads it as absolute.
pub open spec fn pattern_error(p: Seq<char>, absolute: bool) -> Option<Seq<char>> {
    if has_infix(p, ".."@) {
        Some("path escape is forbidden in task pattern: "@ + p)
    } else if absolute {
        Some("absolute task patterns are forbidden: "@ + p)
    } else {
        None
    }
}

/// `r` is the verdict that `error` describes.
pub open spec fn verdict(r: Result<(), String>, error: Option<Seq<char>>) -> bool {
    match r {
        Ok(_) => error is None,
        Err(e) => error == Some(e@),
    }
}

fn fail(text: &str) -> (r: Result<(), String>)
    ensures
        r matches Err(e) && e@ == text@,
{
    Err(owned(text))
}

fn message(prefix: &str, rest: &str) -> (r: Result<(), String>)
    ensures
        r matches Err(e) && e@ == prefix@ + rest@,
{
    let mut e = owned(prefix);
    push_str(&mut e, rest);
    Err(e)
}

/// Checks a target pattern, given whether the platform reads it as absolute.
pub fn check_target_pattern(pattern: &str, absolute: bool) -> (r: Result<(), String>)
    ensures
        verdict(r, pattern_error(pattern@, absolute)),
{
    if contains(pattern, "..") {
        return message("path escape is forbidden in task pattern: ", pattern);
    }
    if absolute {
        return message("absolute task patterns are forbidden: ", pattern);
    }
    Ok(())
}

/// Checks a target pattern, asking `std::path` whether it is absolute: a
/// plain pattern that does not start with `/` is not absolute anywhere; for
/// other patterns the answer depends on the platform.
pub fn validate_target_pattern(pattern: &str) -> (r: Result<(), String>)
    ensures
        exists|absolute: bool| verdict(r, pattern_error(pattern@, absolute)),
        plain_path(pattern@) && !rooted(pattern@) ==> verdict(r, pattern_error(pattern@, false)),
{
    let absolute = path_is_absolute(pattern);
    let r = check_target_pattern(pattern, absolute);
    assert(verdict(r, pattern_error(pattern@, absolute)));
    r
}

/// The first hard forbidden target that the task does not forbid, if any.
pub open spec fn missing_forbidden(forbidden: Seq<Seq<char>>) -> Option<Seq<char>> {
    let h = hard_forbidden_targets();
    if !forbidden.contains(h[0]) {
        Some(h[0])
    } else if !forbidden.contains(h[1]) {
        Some(h[1])
    } else if !forbidden.contains(h[2]) {
        Some(h[2])
    } else if !forbidden.contains(h[3]) {
        Some(h[3])
    } else {
        None
    }
}

/// The first required denied kind that the task does not deny, if any.
pub open spec fn missing_denied(denied: Seq<DeniedMutationKind>) -> Option<DeniedMutationKind> {
    let k = required_denied_kinds();
    if !denied.contains(k[0]) {
        Some(k[0])
    } else if !denied.contains(k[1]) {
        Some(k[1])
    } else if !denied.contains(k[2]) {
        Some(k[2])
    } else if !denied.contains(k[3]) {
        Some(k[3])
    } else {
        None
    }
}

/// The first pattern error among `patterns`, with `absolute[i]` telling whether
/// the platform reads the `i`-th pattern as absolute.
pub open spec fn first_pattern_error(patterns: Seq<Seq<char>>, absolute: Seq<bool>) -> Option<
    Seq<char>,
>
    decreases patterns.len(),
{
    if patterns.len() == 0 {
        None
    } else if pattern_error(patterns[0], absolute[0]) is Some {
        pattern_error(patterns[0], absolute[0])
    } else {
        first_pattern_error(patterns.drop_first(), absolute.drop_first())
    }
}

/// The first error of a task contract, if any: cycles, risk, auto-promotion,
/// hard forbidden targets, required denied kinds, then the allowed and the
/// forbidden target patterns in order.
pub open spec fn task_error(t: TaskContract, max_risk_within_limit: bool, absolute: Seq<bool>) -> Option<
    Seq<char>,
> {
    if t.cycles == 0 || t.cycles > 100 {
        Some("cycles must be > 0 and <= 100"@)
    } else if !max_risk_within_limit {
        Some("max_risk must be <= 0.35"@)
    } else if t.auto_promote {
        Some("auto_promote must be false for now"@)
    } else if missing_forbidden(views(t.forbidden_targets@)) is Some {
        Some("missing hard forbidden target: "@ + missing_forbidden(views(t.forbidden_targets@))->0)
    } else if missing_denied(t.denied_mutation_kinds@) is Some {
        Some(
            "missing denied mutation kind: "@ + denied_kind_name(
                missing_denied(t.denied_mutation_kinds@)->0,
            ),
        )
    } else {
        first_pattern_error(views(t.allowed_targets@) + views(t.forbidden_targets@), absolute)
    }
}

fn denied_contains(v: &Vec<DeniedMutationKind>, k: DeniedMutationKind) -> (r: bool)
    ensures
        r == v@.contains(k),
{
    let mut i: usize = 0;
    while i < v.len()
        invariant
            i <= v.len(),
            forall|j: int| 0 <= j < i ==> v@[j] != k,
        decreases v.len() - i,
    {
        if v[i] == k {
            return true;
        }
        i = i + 1;
    }
    false
}

fn check_patterns(patterns: &Vec<String>, absolute: &Vec<bool>, start: usize) -> (r: Result<
    (),
    String,
>)
    requires
        absolute.len() == patterns.len(),
        start <= patterns.len(),
    ensures
        verdict(r, first_pattern_error(views(patterns@).skip(start as int), absolute@.skip(start as int))),
    decreases patterns.len() - start,
{
    let ghost ps = views(patterns@).skip(start as int);
    let ghost abs = absolute@.skip(start as int);
    if start == patterns.len() {
        return Ok(());
    }
    let r = check_target_pattern(patterns[start].as_str(), absolute[start]);
    assert(ps[0] == patterns@[start as int]@);
    assert(abs[0] == absolute@[start as int]);
    if r.is_err() {
        return r;
    }
    assert(ps.drop_first() =~= views(patterns@).skip(start + 1));
    assert(abs.drop_first() =~= absolute@.skip(start + 1));
    check_patterns(patterns, absolute, start + 1)
}

/// Checks a task contract, given whether its maximal risk is at most 0.35 and,
/// for each of its allowed then forbidden target patterns, whether the platform
/// reads it as absolute.
pub fn check_task_contract(
    task: &TaskContract,
    max_risk_within_limit: bool,
    pattern_absolute: &Vec<bool>,
) -> (r: Result<(), String>)
    requires
        pattern_absolute.len() == task.allowed_targets.len() + task.forbidden_targets.len(),
    ensures
        verdict(r, task_error(*task, max_risk_within_limit, pattern_absolute@)),
{
    if task.cycles == 0 || task.cycles > 100 {
        return fail("cycles must be > 0 and <= 100");
    }
    if !max_risk_within_limit {
        return fail("max_risk must be <= 0.35");
    }
    if task.auto_promote {
        return fail("auto_promote must be false for now");
    }
    proof {
        reveal_strlit("src/core/*");
        reveal_strlit("src/main.rs");
        reveal_strlit("src/lib.rs");
        reveal_strlit("Cargo.toml");
    }
    if !contains_string(&task.forbidden_targets, "src/core/*") {
        return message("missing hard forbidden target: ", "src/core/*");
    }
    if !contains_string(&task.forbidden_targets, "src/main.rs") {
        return message("missing hard forbidden target: ", "src/main.rs");
    }
    if !contains_string(&task.forbidden_targets, "src/lib.rs") {
        return message("missing hard forbidden target: ", "src/lib.rs");
    }
    if !contains_string(&task.forbidden_targets, "Cargo.toml") {
        return message("missing hard forbidden target: ", "Cargo.toml");
    }
    let denied = &task.denied_mutation_kinds;
    if !denied_contains(denied, DeniedMutationKind::DeleteCode) {
        return message("missing denied mutation kind: ", denied_kind_label(DeniedMutationKind::DeleteCode));
    }
    if !denied_contains(denied, DeniedMutationKind::RewriteFunction) {
        return message(
            "missing denied mutation kind: ",
            denied_kind_label(DeniedMutationKind::RewriteFunction),
        );
    }
    if !denied_contains(denied, DeniedMutationKind::FreeDiff) {
        return message("missing denied mutation kind: ", denied_kind_label(DeniedMutationKind::FreeDiff));
    }
    if !denied_contains(denied, DeniedMutationKind::DependencyAdd) {
        return message(
            "missing denied mutation kind: ",
            denied_kind_label(DeniedMutationKind::DependencyAdd),
        );
    }
    let mut patterns: Vec<String> = Vec::new();
    let mut a: usize = 0;
    while a < task.allowed_targets.len()
        invariant
            a <= task.allowed_targets.len(),
            views(patterns@) == views(task.allowed_targets@).take(a as int),
        decreases task.allowed_targets.len() - a,
    {
        let ghost before = views(patterns@);
        patterns.push(task.allowed_targets[a].clone());
        assert(views(patterns@) =~= before.push(task.allowed_targets@[a as int]@));
        assert(views(task.allowed_targets@).take(a + 1) =~= views(task.allowed_targets@).take(
            a as int,
        ).push(task.allowed_targets@[a as int]@));
        a = a + 1;
    }
    let mut f: usize = 0;
    while f < task.forbidden_targets.len()
        invariant
            f <= task.forbidden_targets.len(),
            views(patterns@) == views(task.allowed_targets@) + views(task.forbidden_targets@).take(
                f as int,
            ),
        decreases task.forbidden_targets.len() - f,
    {
        let ghost before = views(patterns@);
        patterns.push(task.forbidden_targets[f].clone());
        assert(views(patterns@) =~= before.push(task.forbidden_targets@[f as int]@));
        assert(views(task.forbidden_targets@).take(f + 1) =~= views(task.forbidden_targets@).take(
            f as int,
        ).push(task.forbidden_targets@[f as int]@));
        f = f + 1;
    }
    assert(views(task.allowed_targets@).take(a as int) =~= views(task.allowed_targets@));
    assert(views(task.forbidden_targets@).take(f as int) =~= views(task.forbidden_targets@));
    assert(views(patterns@).skip(0) =~= views(patterns@));
    assert(pattern_absolute@.skip(0) =~= pattern_absolute@);
    check_patterns(&patterns, pattern_absolute, 0)
}

/// Whether the platform may read a pattern as absolute: a plain pattern that
/// does not start with `/` is absolute nowhere.
pub open spec fn absolute_allowed(pattern: Seq<char>, absolute: bool) -> bool {
    plain_path(pattern) && !rooted(pattern) ==> !absolute
}

/// Validates a task contract, given whether its maximal risk is at most 0.35,
/// asking `std::path` whether each target pattern (the allowed ones, then the
/// forbidden ones) is absolute. A plain pattern that does not start with `/`
/// is absolute nowhere; for other patterns the answer depends on the platform.
pub fn validate_task_contract(task: &TaskContract, max_risk_within_limit: bool) -> (r: Result<
    (),
    String,
>)
    ensures
        exists|absolute: Seq<bool>|
            {
                &&& verdict(r, task_error(*task, max_risk_within_limit, absolute))
                &&& absolute.len() == task.allowed_targets@.len() + task.forbidden_targets@.len()
                &&& forall|i: int|
                    0 <= i < absolute.len() ==> absolute_allowed(
                        #[trigger] (views(task.allowed_targets@) + views(task.forbidden_targets@))[i],
                        absolute[i],
                    )
            },
{
    let mut absolute: Vec<bool> = Vec::new();
    let mut a: usize = 0;
    while a < task.allowed_targets.len()
        invariant
            a <= task.allowed_targets.len(),
            absolute.len() == a,
            forall|i: int|
                0 <= i < a ==> absolute_allowed(
                    #[trigger] views(task.allowed_targets@)[i],
                    absolute@[i],
                ),
        decreases task.allowed_targets.len() - a,
    {
        absolute.push(path_is_absolute(task.allowed_targets[a].as_str()));
        a = a + 1;
    }
    let mut f: usize = 0;
    while f < task.forbidden_targets.len()
        invariant
            f <= task.forbidden_targets.len(),
            absolute.len() == task.allowed_targets.len() + f,
            forall|i: int|
                0 <= i < task.allowed_targets.len() ==> absolute_allowed(
                    #[trigger] views(task.allowed_targets@)[i],
                    absolute@[i],
                ),
            forall|i: int|
                0 <= i < f ==> absolute_allowed(
                    #[trigger] views(task.forbidden_targets@)[i],
                    absolute@[task.allowed_targets.len() + i],
                ),
        decreases task.forbidden_targets.len() - f,
    {
        absolute.push(path_is_absolute(task.forbidden_targets[f].as_str()));
        f = f + 1;
    }
    let r = check_task_contract(task, max_risk_within_limit, &absolute);
    assert(verdict(r, task_error(*task, max_risk_within_limit, absolute@)));
    proof {
        let all = views(task.allowed_targets@) + views(task.forbidden_targets@);
        let n = task.allowed_targets@.len() as int;
        assert forall|i: int| 0 <= i < absolute@.len() implies absolute_allowed(
            #[trigger] all[i],
            absolute@[i],
        ) by {
            if i < n {
                assert(all[i] == views(task.allowed_targets@)[i]);
            } else {
                assert(all[i] == views(task.forbidden_targets@)[i - n]);
            }
        }
    }
    r
}

proof fn lemma_no_pattern_error(patterns: Seq<Seq<char>>, absolute: Seq<bool>)
    requires
        first_pattern_error(patterns, absolute) is None,
    ensures
        forall|i: int| 0 <= i < patterns.len() ==> !has_infix(#[trigger] patterns[i], ".."@),
    decreases patterns.len(),
{
    if patterns.len() > 0 {
        lemma_no_pattern_error(patterns.drop_first(), absolute.drop_first());
        assert forall|i: int| 0 <= i < patterns.len() implies !has_infix(#[trigger] patterns[i], ".."@) by {
            if i > 0 {
                assert(patterns[i] == patterns.drop_first()[i - 1]);
            }
        }
    }
}

/// An accepted task runs between one and a hundred cycles, never promotes on
/// its own, forbids every hard forbidden target, denies every required
/// mutation kind, and has no target pattern that climbs out with `..`.
pub proof fn lemma_accepted_task_is_safe(t: TaskContract, max_risk_within_limit: bool, absolute: Seq<bool>)
    requires
        task_error(t, max_risk_within_limit, absolute) is None,
    ensures
        1 <= t.cycles <= 100,
        max_risk_within_limit,
        !t.auto_promote,
        forall|k: int|
            0 <= k < 4 ==> views(t.forbidden_targets@).contains(#[trigger] hard_forbidden_targets()[k]),
        forall|k: int|
            0 <= k < 4 ==> t.denied_mutation_kinds@.contains(#[trigger] required_denied_kinds()[k]),
        forall|i: int|
            0 <= i < t.allowed_targets@.len() ==> !has_infix(#[trigger] t.allowed_targets@[i]@, ".."@),
        forall|i: int|
            0 <= i < t.forbidden_targets@.len() ==> !has_infix(
                #[trigger] t.forbidden_targets@[i]@,
                ".."@,
            ),
{
    let all = views(t.allowed_targets@) + views(t.forbidden_targets@);
    lemma_no_pattern_error(all, absolute);
    assert forall|i: int| 0 <= i < t.allowed_targets@.len() implies !has_infix(#[trigger] t.allowed_targets@[i]@, ".."@) by {
        assert(all[i] == t.allowed_targets@[i]@);
    }
    assert forall|i: int| 0 <= i < t.forbidden_targets@.len() implies !has_infix(#[trigger] t.forbidden_targets@[i]@, ".."@) by {
        assert(all[t.allowed_targets@.len() + i] == t.forbidden_targets@[i]@);
    }
    assert forall|k: int| 0 <= k < 4 implies views(t.forbidden_targets@).contains(#[trigger] hard_forbidden_targets()[k]) by {
        if k == 0 {} else if k == 1 {} else if k == 2 {} else {}
    }
    assert forall|k: int| 0 <= k < 4 implies t.denied_mutation_kinds@.contains(#[trigger] required_denied_kinds()[k]) by {
        if k == 0 {} else if k == 1 {} else if k == 2 {} else {}
    }
}

/// A pattern that ends in `*` matches every target that starts with the
/// pattern without its `*`, whatever follows (slashes included), and only
/// those; a pattern without a trailing `*` matches only the target equal to it.
pub proof fn lemma_pattern_matching(prefix: Seq<char>, rest: Seq<char>, target: Seq<char>)
    ensures
        pattern_matches(prefix + rest, prefix.push('*')),
        pattern_matches(target, prefix.push('*')) ==> target.len() >= prefix.len()
            && target.subrange(0, prefix.len() as int) == prefix,
        !(prefix.len() > 0 && prefix.last() == '*') ==> (pattern_matches(target, prefix) <==> target
            == prefix),
{
    assert(prefix.push('*').drop_last() =~= prefix);
    assert((prefix + rest).subrange(0, prefix.len() as int) =~= prefix);
}

} // verus!
