//! The runtime artifact audit summary.
use vstd::prelude::*;
use vstd::string::StrSliceExecFns;

use crate::contracts::ArtifactAuditReport;
use crate::text::{
    bool_text, chars_of, contains, decimal, ends_with, flag, has_infix, has_prefix, has_suffix, join,
    join_strings, lines, lines_of, owned, push_bool, push_char, push_decimal, push_if, push_str,
    sort_dedup, starts_with, str_eq, strictly_sorted, string_of_range, trim, trimmed, views,
};

verus! {

/// The one-line summary of an artifact audit and its recommendations.
pub open spec fn artifact_summary(r: ArtifactAuditReport) -> Seq<char> {
    "artifact_audit: checked="@ + decimal(r.checked_paths.len() as nat) + " tracked="@ + decimal(
        r.tracked_runtime_artifacts.len() as nat,
    ) + " untracked="@ + decimal(r.untracked_runtime_artifacts.len() as nat) + " ignored="@
        + decimal(r.ignored_runtime_artifacts.len() as nat) + " sandbox_leaks="@ + decimal(
        r.sandbox_leaks.len() as nat,
    ) + " should_fail_release="@ + bool_text(r.should_fail_release) + "\nrecommendations="@ + join(
        views(r.recommendations_ru@),
        "; "@,
    )
}

/// The summary of an artifact audit.
pub fn print_artifact_audit(report: &ArtifactAuditReport) -> (s: String)
    ensures
        s@ == artifact_summary(*report),
{
    let mut s = owned("artifact_audit: checked=");
    push_decimal(&mut s, report.checked_paths.len() as u64);
    push_str(&mut s, " tracked=");
    push_decimal(&mut s, report.tracked_runtime_artifacts.len() as u64);
    push_str(&mut s, " untracked=");
    push_decimal(&mut s, report.untracked_runtime_artifacts.len() as u64);
    push_str(&mut s, " ignored=");
    push_decimal(&mut s, report.ignored_runtime_artifacts.len() as u64);
    push_str(&mut s, " sandbox_leaks=");
    push_decimal(&mut s, report.sandbox_leaks.len() as u64);
    push_str(&mut s, " should_fail_release=");
    push_bool(&mut s, report.should_fail_release);
    push_str(&mut s, "\nrecommendations=");
    push_str(&mut s, join_strings(&report.recommendations_ru, "; ").as_str());
    s
}

/// `s` without every leading `c`.
pub open spec fn strip_leading(s: Seq<char>, c: char) -> Seq<char>
    decreases s.len(),
{
    if s.len() > 0 && s[0] == c {
        strip_leading(s.drop_first(), c)
    } else {
        s
    }
}

/// `s` without every trailing `c`.
pub open spec fn strip_trailing(s: Seq<char>, c: char) -> Seq<char>
    decreases s.len(),
{
    if s.len() > 0 && s.last() == c {
        strip_trailing(s.drop_last(), c)
    } else {
        s
    }
}

/// `s` without every leading `c` (`trim_start_matches` with one character).
pub fn trim_start_char(s: &str, c: char) -> (r: String)
    ensures
        r@ == strip_leading(s@, c),
{
    let x = chars_of(s);
    let mut i: usize = 0;
    assert(s@.skip(0) =~= s@);
    while i < x.len() && x[i] == c
        invariant
            x@ == s@,
            i <= x.len(),
            strip_leading(s@.skip(i as int), c) == strip_leading(s@, c),
        decreases x.len() - i,
    {
        assert(s@.skip(i as int).drop_first() =~= s@.skip(i + 1));
        i = i + 1;
    }
    let n = x.len();
    assert(x@.subrange(i as int, n as int) =~= s@.skip(i as int));
    string_of_range(&x, i, n)
}

/// `s` without every trailing `c` (`trim_end_matches` with one character).
pub fn trim_end_char(s: &str, c: char) -> (r: String)
    ensures
        r@ == strip_trailing(s@, c),
{
    let x = chars_of(s);
    let mut j: usize = x.len();
    assert(s@.take(j as int) =~= s@);
    while j > 0 && x[j - 1] == c
        invariant
            x@ == s@,
            j <= x.len(),
            strip_trailing(s@.take(j as int), c) == strip_trailing(s@, c),
        decreases j,
    {
        assert(s@.take(j as int).drop_last() =~= s@.take(j - 1));
        j = j - 1;
    }
    assert(x@.subrange(0, j as int) =~= s@.take(j as int));
    string_of_range(&x, 0, j)
}

/// The runtime paths that the audit checks, in sorted order.
pub open spec fn runtime_paths_spec() -> Seq<Seq<char>> {
    seq![
        ".eva-evolution-tests/"@,
        ".eva-runtime-tests/"@,
        "memory/approvals/"@,
        "memory/bounded_runs/"@,
        "memory/corpus/"@,
        "memory/governance/"@,
        "memory/policy_feedback.json"@,
        "memory/promotion_queue.json"@,
        "memory/proof/"@,
        "memory/release_proposals/"@,
        "memory/releases/"@,
        "memory/supervised_runs/"@,
        "memory/tasks/adjusted/"@,
        "memory/tasks/feedback/"@,
        "memory/tasks/suggested/"@,
        "sandboxes/"@,
    ]
}

/// The runtime paths that the audit checks, sorted.
pub fn runtime_paths() -> (r: Vec<String>)
    ensures
        views(r@) == runtime_paths_spec(),
{
    let r = vec![
        owned(".eva-evolution-tests/"),
        owned(".eva-runtime-tests/"),
        owned("memory/approvals/"),
        owned("memory/bounded_runs/"),
        owned("memory/corpus/"),
        owned("memory/governance/"),
        owned("memory/policy_feedback.json"),
        owned("memory/promotion_queue.json"),
        owned("memory/proof/"),
        owned("memory/release_proposals/"),
        owned("memory/releases/"),
        owned("memory/supervised_runs/"),
        owned("memory/tasks/adjusted/"),
        owned("memory/tasks/feedback/"),
        owned("memory/tasks/suggested/"),
        owned("sandboxes/"),
    ];
    assert(views(r@) =~= runtime_paths_spec());
    r
}

/// A `.gitignore` line that holds a pattern: not blank, not a comment.
pub open spec fn pattern_line(t: Seq<char>) -> bool {
    t.len() > 0 && t[0] != '#'
}

/// The patterns of the `.gitignore` lines `ls`: each trimmed, blank lines and
/// comments dropped, leading slashes removed.
pub open spec fn patterns_of_lines(ls: Seq<Seq<char>>) -> Seq<Seq<char>>
    decreases ls.len(),
{
    if ls.len() == 0 {
        Seq::empty()
    } else {
        let prev = patterns_of_lines(ls.drop_last());
        let t = trim(ls.last());
        if pattern_line(t) {
            prev.push(strip_leading(t, '/'))
        } else {
            prev
        }
    }
}

/// The patterns of a `.gitignore` file.
pub fn gitignore_patterns(contents: &str) -> (r: Vec<String>)
    ensures
        views(r@) == patterns_of_lines(lines_of(contents@)),
{
    let ls = lines(contents);
    let mut r: Vec<String> = Vec::new();
    let mut i: usize = 0;
    while i < ls.len()
        invariant
            i <= ls.len(),
            views(ls@) == lines_of(contents@),
            views(r@) == patterns_of_lines(views(ls@).take(i as int)),
        decreases ls.len() - i,
    {
        assert(views(ls@).take(i + 1).drop_last() =~= views(ls@).take(i as int));
        let t = trimmed(ls[i].as_str());
        let keep = t.as_str().unicode_len() > 0 && !starts_with(t.as_str(), "#");
        proof {
            reveal_strlit("#");
            if t@.len() > 0 {
                assert(has_prefix(t@, "#"@) <==> t@[0] == '#') by {
                    if t@[0] == '#' {
                        assert(t@.subrange(0, 1) =~= "#"@);
                    }
                    if has_prefix(t@, "#"@) {
                        assert(t@.subrange(0, 1)[0] == "#"@[0]);
                    }
                }
            }
        }
        if keep {
            let p = trim_start_char(t.as_str(), '/');
            let ghost before = views(r@);
            r.push(p);
            assert(views(r@) =~= before.push(p@));
        }
        i = i + 1;
    }
    assert(views(ls@).take(ls.len() as int) =~= views(ls@));
    r
}

/// The non-empty fields of `rest` split at `sep`, the current field so far being `cur`.
pub open spec fn split_fields(rest: Seq<char>, cur: Seq<char>, sep: char) -> Seq<Seq<char>>
    decreases rest.len(),
{
    if rest.len() == 0 {
        if cur.len() == 0 {
            Seq::empty()
        } else {
            seq![cur]
        }
    } else if rest[0] == sep {
        (if cur.len() == 0 {
            Seq::empty()
        } else {
            seq![cur]
        }) + split_fields(rest.drop_first(), Seq::empty(), sep)
    } else {
        split_fields(rest.drop_first(), cur.push(rest[0]), sep)
    }
}

/// The files that `git ls-files -z` printed: the non-empty NUL-separated
/// names, sorted, each once.
pub fn tracked_files(listing: &str) -> (r: Vec<String>)
    ensures
        strictly_sorted(views(r@)),
        views(r@).to_set() == split_fields(listing@, Seq::empty(), '\0').to_set(),
{
    let x = chars_of(listing);
    let mut out: Vec<String> = Vec::new();
    let mut cur: Vec<char> = Vec::new();
    let mut i: usize = 0;
    assert(listing@.skip(0) =~= listing@);
    assert(cur@ =~= Seq::<char>::empty());
    while i < x.len()
        invariant
            x@ == listing@,
            i <= x.len(),
            views(out@) + split_fields(listing@.skip(i as int), cur@, '\0') == split_fields(
                listing@,
                Seq::empty(),
                '\0',
            ),
        decreases x.len() - i,
    {
        let ghost rest = listing@.skip(i as int);
        let ghost c0 = cur@;
        let ghost o0 = views(out@);
        assert(rest[0] == x@[i as int]);
        assert(rest.drop_first() =~= listing@.skip(i + 1));
        if x[i] == '\0' {
            if cur.len() > 0 {
                let n = cur.len();
                let field = string_of_range(&cur, 0, n);
                assert(cur@.subrange(0, n as int) =~= cur@);
                out.push(field);
                assert(views(out@) =~= o0.push(c0));
            }
            cur = Vec::new();
            assert(cur@ =~= Seq::<char>::empty());
            assert(o0 + split_fields(rest, c0, '\0') =~= views(out@) + split_fields(
                rest.drop_first(),
                Seq::empty(),
                '\0',
            ));
        } else {
            cur.push(x[i]);
            assert(cur@ == c0.push(rest[0]));
        }
        i = i + 1;
    }
    assert(listing@.skip(i as int) =~= Seq::<char>::empty());
    if cur.len() > 0 {
        let ghost o0 = views(out@);
        let n = cur.len();
        let field = string_of_range(&cur, 0, n);
        assert(cur@.subrange(0, n as int) =~= cur@);
        out.push(field);
        assert(views(out@) =~= o0.push(cur@));
    }
    assert(views(out@) =~= split_fields(listing@, Seq::empty(), '\0'));
    sort_dedup(out)
}

/// `pattern` (trailing slashes dropped) covers the cleaned path `clean`.
pub open spec fn pattern_covers(pattern: Seq<char>, clean: Seq<char>) -> bool {
    let p = strip_trailing(pattern, '/');
    clean == p || has_prefix(clean, p.push('/'))
}

/// `path` falls under one of the `.gitignore` patterns.
pub open spec fn ignored_by(path: Seq<char>, patterns: Seq<Seq<char>>) -> bool {
    let clean = strip_trailing(strip_leading(path, '/'), '/');
    exists|k: int| 0 <= k < patterns.len() && pattern_covers(#[trigger] patterns[k], clean)
}

fn covers(pattern: &str, clean: &str) -> (r: bool)
    ensures
        r == pattern_covers(pattern@, clean@),
{
    let mut p = trim_end_char(pattern, '/');
    if str_eq(clean, p.as_str()) {
        return true;
    }
    push_char(&mut p, '/');
    starts_with(clean, p.as_str())
}

/// Whether `path` falls under one of the `.gitignore` patterns.
pub fn is_ignored(path: &str, gitignore: &Vec<String>) -> (r: bool)
    ensures
        r == ignored_by(path@, views(gitignore@)),
{
    let lead = trim_start_char(path, '/');
    let clean = trim_end_char(lead.as_str(), '/');
    let mut k: usize = 0;
    while k < gitignore.len()
        invariant
            k <= gitignore.len(),
            clean@ == strip_trailing(strip_leading(path@, '/'), '/'),
            forall|j: int| 0 <= j < k ==> !pattern_covers(#[trigger] views(gitignore@)[j], clean@),
        decreases gitignore.len() - k,
    {
        if covers(gitignore[k].as_str(), clean.as_str()) {
            assert(pattern_covers(views(gitignore@)[k as int], clean@));
            return true;
        }
        k = k + 1;
    }
    false
}

/// Whether a runtime file's text holds an `auto_promote` flag set to true.
pub fn contains_auto_promote_true(contents: &str) -> (r: bool)
    ensures
        r == (has_infix(contents@, "\"auto_promote\": true"@) || has_infix(
            contents@,
            "\"auto_promote\":true"@,
        )),
{
    contains(contents, "\"auto_promote\": true") || contains(contents, "\"auto_promote\":true")
}

/// `t` is a `.gitkeep` placeholder.
pub open spec fn is_gitkeep(t: Seq<char>) -> bool {
    has_suffix(t, "/.gitkeep"@) || t == ".gitkeep"@
}

/// The tracked file `t` lies at or under the cleaned runtime path `clean`.
pub open spec fn under_path(t: Seq<char>, clean: Seq<char>) -> bool {
    t == clean || has_prefix(t, clean.push('/'))
}

/// The tracked file `t` is a runtime artifact: no placeholder, under one of the checked paths.
pub open spec fn tracked_artifact(t: Seq<char>, checked: Seq<Seq<char>>) -> bool {
    !is_gitkeep(t) && exists|k: int|
        0 <= k < checked.len() && under_path(t, strip_trailing(#[trigger] checked[k], '/'))
}

/// The tracked files that are runtime artifacts, in the order of `ts`.
pub open spec fn tracked_artifacts(ts: Seq<Seq<char>>, checked: Seq<Seq<char>>) -> Seq<Seq<char>>
    decreases ts.len(),
{
    if ts.len() == 0 {
        Seq::empty()
    } else {
        let prev = tracked_artifacts(ts.drop_last(), checked);
        if tracked_artifact(ts.last(), checked) {
            prev.push(ts.last())
        } else {
            prev
        }
    }
}

/// `b[i]` is present and true.
pub open spec fn observed(b: Seq<bool>, i: int) -> bool {
    0 <= i < b.len() && b[i]
}

/// Some tracked file starts with the cleaned path `clean`.
pub open spec fn some_tracked_under(git_files: Seq<Seq<char>>, clean: Seq<char>) -> bool {
    exists|k: int| 0 <= k < git_files.len() && (#[trigger] git_files[k] == clean || has_prefix(git_files[k], clean))
}

/// The checked paths (the first `n`) that exist on disk and of which no tracked file starts.
pub open spec fn untracked_paths(
    checked: Seq<Seq<char>>,
    n: int,
    exists_on_disk: Seq<bool>,
    git_files: Seq<Seq<char>>,
) -> Seq<Seq<char>>
    decreases n,
{
    if n <= 0 {
        Seq::empty()
    } else {
        let prev = untracked_paths(checked, n - 1, exists_on_disk, git_files);
        let p = checked[n - 1];
        if observed(exists_on_disk, n - 1) && !some_tracked_under(git_files, strip_trailing(p, '/')) {
            prev.push(p)
        } else {
            prev
        }
    }
}

/// The checked paths (the first `n`) that `.gitignore` covers.
pub open spec fn ignored_paths(checked: Seq<Seq<char>>, n: int, patterns: Seq<Seq<char>>) -> Seq<Seq<char>>
    decreases n,
{
    if n <= 0 {
        Seq::empty()
    } else {
        let prev = ignored_paths(checked, n - 1, patterns);
        if ignored_by(checked[n - 1], patterns) {
            prev.push(checked[n - 1])
        } else {
            prev
        }
    }
}

/// The sandbox entries (name, path) that are leaks: every entry but a `.gitkeep`.
pub open spec fn leak_paths(entries: Seq<(String, String)>) -> Seq<Seq<char>>
    decreases entries.len(),
{
    if entries.len() == 0 {
        Seq::empty()
    } else {
        let prev = leak_paths(entries.drop_last());
        if entries.last().0@ != ".gitkeep"@ {
            prev.push(entries.last().1@)
        } else {
            prev
        }
    }
}

/// Some checked path that exists carries an `auto_promote` marker.
pub open spec fn any_auto_promote(n: int, exists_on_disk: Seq<bool>, markers: Seq<bool>) -> bool {
    exists|i: int| 0 <= i < n && observed(exists_on_disk, i) && #[trigger] observed(markers, i)
}

/// The audit's recommendations.
pub open spec fn audit_recommendations(tracked_found: bool, leaks_found: bool, auto_promote: bool) -> Seq<Seq<char>> {
    let r = flag(tracked_found, "Удалить runtime-артефакты из git index и оставить их под .gitignore."@)
        + flag(leaks_found, "Очистить sandboxes перед release gate."@)
        + flag(auto_promote, "Проверить runtime-память: найден маркер auto_promote=true."@);
    if r.len() == 0 {
        seq!["Runtime-артефакты выглядят изолированными и metadata-only."@]
    } else {
        r
    }
}

fn tracked_under_any(t: &str, checked: &Vec<String>) -> (r: bool)
    ensures
        r == tracked_artifact(t@, views(checked@)),
{
    proof {
        reveal_strlit("/.gitkeep");
        reveal_strlit(".gitkeep");
    }
    if ends_with(t, "/.gitkeep") || str_eq(t, ".gitkeep") {
        return false;
    }
    assert(!is_gitkeep(t@));
    let mut k: usize = 0;
    while k < checked.len()
        invariant
            k <= checked.len(),
            forall|j: int| 0 <= j < k ==> !under_path(t@, strip_trailing(#[trigger] views(checked@)[j], '/')),
            !is_gitkeep(t@),
        decreases checked.len() - k,
    {
        assert(views(checked@)[k as int] == checked@[k as int]@);
        let mut clean = trim_end_char(checked[k].as_str(), '/');
        let same = str_eq(t, clean.as_str());
        push_char(&mut clean, '/');
        if same || starts_with(t, clean.as_str()) {
            assert(under_path(t@, strip_trailing(views(checked@)[k as int], '/')));
            assert(0 <= k < views(checked@).len());
            return true;
        }
        k = k + 1;
    }
    false
}

fn any_tracked_under(git_files: &Vec<String>, clean: &str) -> (r: bool)
    ensures
        r == some_tracked_under(views(git_files@), clean@),
{
    let mut k: usize = 0;
    while k < git_files.len()
        invariant
            k <= git_files.len(),
            forall|j: int|
                0 <= j < k ==> !(#[trigger] views(git_files@)[j] == clean@ || has_prefix(views(git_files@)[j], clean@)),
        decreases git_files.len() - k,
    {
        if str_eq(git_files[k].as_str(), clean) || starts_with(git_files[k].as_str(), clean) {
            assert(views(git_files@)[k as int] == git_files@[k as int]@);
            return true;
        }
        k = k + 1;
    }
    false
}

/// The runtime artifact audit of a project, from what was read of it: the
/// `.gitignore` patterns, the tracked files, and for each checked path (in the
/// order of `runtime_paths`) whether it exists and whether a file under it holds
/// an `auto_promote` marker set to true, and the entries (name, path) of the
/// sandboxes directory. A flag that is missing counts as false.
pub fn build_artifact_audit(
    generated_at: u64,
    gitignore: &Vec<String>,
    git_files: &Vec<String>,
    exists_on_disk: &Vec<bool>,
    auto_promote_markers: &Vec<bool>,
    sandbox_entries: &Vec<(String, String)>,
) -> (r: ArtifactAuditReport)
    ensures
        r.generated_at == generated_at,
        views(r.checked_paths@) == runtime_paths_spec(),
        strictly_sorted(views(r.tracked_runtime_artifacts@)),
        views(r.tracked_runtime_artifacts@).to_set() == tracked_artifacts(
            views(git_files@),
            runtime_paths_spec(),
        ).to_set(),
        strictly_sorted(views(r.untracked_runtime_artifacts@)),
        views(r.untracked_runtime_artifacts@).to_set() == untracked_paths(
            runtime_paths_spec(),
            16,
            exists_on_disk@,
            views(git_files@),
        ).to_set(),
        strictly_sorted(views(r.ignored_runtime_artifacts@)),
        views(r.ignored_runtime_artifacts@).to_set() == ignored_paths(
            runtime_paths_spec(),
            16,
            views(gitignore@),
        ).to_set(),
        strictly_sorted(views(r.sandbox_leaks@)),
        views(r.sandbox_leaks@).to_set() == (if observed(exists_on_disk@, 15) {
            leak_paths(sandbox_entries@).to_set()
        } else {
            Set::empty()
        }),
        r.should_fail_release == (any_auto_promote(16, exists_on_disk@, auto_promote_markers@)
            || r.tracked_runtime_artifacts.len() > 0 || r.sandbox_leaks.len() > 0),
        views(r.recommendations_ru@) == audit_recommendations(
            r.tracked_runtime_artifacts.len() > 0,
            r.sandbox_leaks.len() > 0,
            any_auto_promote(16, exists_on_disk@, auto_promote_markers@),
        ),
{
    let checked = runtime_paths();
    let ghost cv = views(checked@);
    // tracked runtime artifacts
    let mut found: Vec<String> = Vec::new();
    let mut i: usize = 0;
    while i < git_files.len()
        invariant
            i <= git_files.len(),
            views(checked@) == cv,
            cv == runtime_paths_spec(),
            views(found@) == tracked_artifacts(views(git_files@).take(i as int), cv),
        decreases git_files.len() - i,
    {
        assert(views(git_files@).take(i + 1).drop_last() =~= views(git_files@).take(i as int));
        assert(views(git_files@).take(i + 1).last() == git_files@[i as int]@);
        if tracked_under_any(git_files[i].as_str(), &checked) {
            let ghost before = views(found@);
            found.push(git_files[i].clone());
            assert(views(found@) =~= before.push(git_files@[i as int]@));
        }
        i = i + 1;
    }
    assert(views(git_files@).take(git_files.len() as int) =~= views(git_files@));
    // untracked, ignored, auto_promote
    assert(checked@.len() == views(checked@).len());
    assert(runtime_paths_spec().len() == 16);
    let mut untracked: Vec<String> = Vec::new();
    let mut ignored: Vec<String> = Vec::new();
    let mut auto_promote = false;
    let mut j: usize = 0;
    while j < checked.len()
        invariant
            j <= checked.len(),
            checked.len() == 16,
            views(checked@) == cv,
            cv == runtime_paths_spec(),
            views(untracked@) == untracked_paths(cv, j as int, exists_on_disk@, views(git_files@)),
            views(ignored@) == ignored_paths(cv, j as int, views(gitignore@)),
            auto_promote == any_auto_promote(j as int, exists_on_disk@, auto_promote_markers@),
        decreases checked.len() - j,
    {
        let path = &checked[j];
        assert(cv[j as int] == path@);
        let exists = j < exists_on_disk.len() && exists_on_disk[j];
        assert(exists == observed(exists_on_disk@, j as int));
        let clean = trim_end_char(path.as_str(), '/');
        if exists && !any_tracked_under(git_files, clean.as_str()) {
            let ghost before = views(untracked@);
            untracked.push(path.clone());
            assert(views(untracked@) =~= before.push(path@));
        }
        if is_ignored(path.as_str(), gitignore) {
            let ghost before = views(ignored@);
            ignored.push(path.clone());
            assert(views(ignored@) =~= before.push(path@));
        }
        let marker = j < auto_promote_markers.len() && auto_promote_markers[j];
        assert(marker == observed(auto_promote_markers@, j as int));
        if exists && marker {
            auto_promote = true;
        }
        assert(any_auto_promote(j + 1, exists_on_disk@, auto_promote_markers@) == (any_auto_promote(
            j as int,
            exists_on_disk@,
            auto_promote_markers@,
        ) || (observed(exists_on_disk@, j as int) && observed(auto_promote_markers@, j as int))));
        j = j + 1;
    }
    // sandbox leaks
    let mut leaks: Vec<String> = Vec::new();
    let sandboxes_exist = 15 < exists_on_disk.len() && exists_on_disk[15];
    if sandboxes_exist {
        let mut k: usize = 0;
        while k < sandbox_entries.len()
            invariant
                k <= sandbox_entries.len(),
                views(leaks@) == leak_paths(sandbox_entries@.take(k as int)),
            decreases sandbox_entries.len() - k,
        {
            assert(sandbox_entries@.take(k + 1).drop_last() =~= sandbox_entries@.take(k as int));
            proof {
                reveal_strlit(".gitkeep");
            }
            if !str_eq(sandbox_entries[k].0.as_str(), ".gitkeep") {
                let ghost before = views(leaks@);
                leaks.push(sandbox_entries[k].1.clone());
                assert(views(leaks@) =~= before.push(sandbox_entries@[k as int].1@));
            }
            k = k + 1;
        }
        assert(sandbox_entries@.take(sandbox_entries.len() as int) =~= sandbox_entries@);
    } else {
        assert(views(leaks@).to_set() =~= Set::<Seq<char>>::empty());
    }
    let tracked_runtime_artifacts = sort_dedup(found);
    let untracked_runtime_artifacts = sort_dedup(untracked);
    let ignored_runtime_artifacts = sort_dedup(ignored);
    let sandbox_leaks = sort_dedup(leaks);
    let tracked_found = tracked_runtime_artifacts.len() > 0;
    let leaks_found = sandbox_leaks.len() > 0;
    let mut recommendations_ru: Vec<String> = Vec::new();
    push_if(
        &mut recommendations_ru,
        tracked_found,
        "Удалить runtime-артефакты из git index и оставить их под .gitignore.",
    );
    push_if(&mut recommendations_ru, leaks_found, "Очистить sandboxes перед release gate.");
    push_if(
        &mut recommendations_ru,
        auto_promote,
        "Проверить runtime-память: найден маркер auto_promote=true.",
    );
    if recommendations_ru.len() == 0 {
        recommendations_ru.push(owned("Runtime-артефакты выглядят изолированными и metadata-only."));
    }
    assert(views(recommendations_ru@) =~= audit_recommendations(tracked_found, leaks_found, auto_promote));
    let should_fail_release = auto_promote || tracked_found || leaks_found;
    ArtifactAuditReport {
        generated_at,
        checked_paths: checked,
        tracked_runtime_artifacts,
        untracked_runtime_artifacts,
        ignored_runtime_artifacts,
        sandbox_leaks,
        should_fail_release,
        recommendations_ru,
    }
}

} // verus!
