//! Repository discovery on GitHub search results: which repositories are
//! kept as benchmark candidates, and the case ids they get. The search score
//! that orders the kept repositories is computed where the results are read.
use vstd::prelude::*;

use crate::text::{
    ascii_lower, ascii_lowercase, contains, contains_string, decimal, has_infix, owned, push_decimal,
    push_str, str_eq, views,
};

verus! {

/// What a discovery run searches for and which results it keeps.
#[derive(Clone, Debug)]
pub struct DiscoveryConfig {
    pub language: String,
    pub query: String,
    pub license_allowlist: Vec<String>,
    pub exclude_full_names: Vec<String>,
    pub exclude_names: Vec<String>,
    pub min_repo_size_kb: Option<u64>,
    pub max_repo_size_kb: Option<u64>,
    pub target_repo_size_kb: u64,
    pub require_tests_or_ci: bool,
    pub min_stars: u64,
    pub max_results: usize,
    pub output_manifest_path: String,
}

/// The license of a search result.
#[derive(Clone, Debug)]
pub struct GithubLicense {
    pub spdx_id: Option<String>,
}

/// One repository of a search result.
#[derive(Clone, Debug)]
pub struct GithubRepositorySummary {
    pub full_name: String,
    pub html_url: String,
    pub description: Option<String>,
    pub stargazers_count: u64,
    pub size: u64,
    pub forks_count: u64,
    pub open_issues_count: u64,
    pub default_branch: String,
    pub archived: bool,
    pub disabled: bool,
    pub license: Option<GithubLicense>,
}

/// Search results stored for offline discovery.
#[derive(Clone, Debug)]
pub struct GithubSearchFixture {
    pub items: Vec<GithubRepositorySummary>,
}

/// A repository kept as a benchmark candidate, with the counts its search
/// score is computed from.
#[derive(Clone, Debug)]
pub struct DiscoveredRepository {
    pub full_name: String,
    pub html_url: String,
    pub description: Option<String>,
    pub license: String,
    pub default_branch: String,
    pub repo_size_kb: u64,
    pub has_tests_or_ci: bool,
    pub stargazers_count: u64,
    pub open_issues_count: u64,
}

/// The discovery tool.
#[derive(Clone, Debug)]
pub struct GithubToolExecutor {}

/// `s` in ASCII lower case.
pub open spec fn lower(s: Seq<char>) -> Seq<char> {
    s.map_values(|c: char| ascii_lower(c))
}

/// The SPDX id of a result's license, `UNKNOWN` when it has none.
pub open spec fn license_of(r: GithubRepositorySummary) -> Seq<char> {
    match r.license {
        Some(l) => match l.spdx_id {
            Some(id) => id@,
            None => "UNKNOWN"@,
        },
        None => "UNKNOWN"@,
    }
}

/// Some entry of `names` equals `s` up to ASCII case.
pub open spec fn listed_ignoring_case(names: Seq<Seq<char>>, s: Seq<char>) -> bool {
    exists|i: int| 0 <= i < names.len() && lower(#[trigger] names[i]) == lower(s)
}

/// Some entry of `names` occurs in `s`, both in ASCII lower case.
pub open spec fn mentions_any(names: Seq<Seq<char>>, s: Seq<char>) -> bool {
    exists|i: int| 0 <= i < names.len() && has_infix(lower(s), lower(#[trigger] names[i]))
}

/// The text that the tests-or-CI heuristic reads: name and description, in lower case.
pub open spec fn haystack(r: GithubRepositorySummary) -> Seq<char> {
    lower(r.full_name@) + " "@ + lower(
        match r.description {
            Some(d) => d@,
            None => Seq::empty(),
        },
    )
}

/// A result that probably has tests or CI: its name or description mentions
/// tests, CI or assertions, or it has open issues or forks.
pub open spec fn looks_tested(r: GithubRepositorySummary) -> bool {
    has_infix(haystack(r), "test"@) || has_infix(haystack(r), "ci"@) || has_infix(
        haystack(r),
        "assert"@,
    ) || r.open_issues_count > 0 || r.forks_count > 0
}

/// A result that every filter before deduplication keeps: live, popular
/// enough, not excluded, licensed as allowed and within the size bounds.
pub open spec fn passes_filters(r: GithubRepositorySummary, c: DiscoveryConfig) -> bool {
    &&& !r.archived && !r.disabled
    &&& r.stargazers_count >= c.min_stars
    &&& !listed_ignoring_case(views(c.exclude_full_names@), r.full_name@)
    &&& !mentions_any(views(c.exclude_names@), r.full_name@)
    &&& listed_ignoring_case(views(c.license_allowlist@), license_of(r))
    &&& (c.min_repo_size_kb matches Some(m) ==> r.size >= m)
    &&& (c.max_repo_size_kb matches Some(m) ==> r.size <= m)
}

/// The `i`th result is the first that passes the filters under its name.
pub open spec fn first_of_name(items: Seq<GithubRepositorySummary>, c: DiscoveryConfig, i: int) -> bool {
    forall|j: int|
        0 <= j < i && passes_filters(#[trigger] items[j], c) ==> items[j].full_name@
            != items[i].full_name@
}

/// The `i`th result is kept: it passes the filters, is the first under its
/// name, and has tests or CI when the configuration asks for them.
pub open spec fn kept(items: Seq<GithubRepositorySummary>, c: DiscoveryConfig, i: int) -> bool {
    passes_filters(items[i], c) && first_of_name(items, c, i) && (!c.require_tests_or_ci
        || looks_tested(items[i]))
}

/// `d` is the candidate that result `r` becomes.
pub open spec fn discovered_from(d: DiscoveredRepository, r: GithubRepositorySummary) -> bool {
    &&& d.full_name == r.full_name
    &&& d.html_url == r.html_url
    &&& d.description == r.description
    &&& d.license@ == license_of(r)
    &&& d.default_branch == r.default_branch
    &&& d.repo_size_kb == r.size
    &&& d.has_tests_or_ci == looks_tested(r)
    &&& d.stargazers_count == r.stargazers_count
    &&& d.open_issues_count == r.open_issues_count
}

/// The indices of the kept results among the first `n`, in order.
pub open spec fn kept_indices(items: Seq<GithubRepositorySummary>, c: DiscoveryConfig, n: int) -> Seq<int>
    decreases n,
{
    if n <= 0 {
        Seq::empty()
    } else {
        kept_indices(items, c, n - 1) + if kept(items, c, n - 1) {
            seq![n - 1]
        } else {
            Seq::empty()
        }
    }
}

/// Whether `a` and `b` are equal up to ASCII case.
pub fn eq_ignore_case(a: &str, b: &str) -> (r: bool)
    ensures
        r == (lower(a@) == lower(b@)),
{
    let x = ascii_lowercase(a);
    let y = ascii_lowercase(b);
    str_eq(x.as_str(), y.as_str())
}

fn listed_ignore_case(names: &Vec<String>, s: &str) -> (r: bool)
    ensures
        r == listed_ignoring_case(views(names@), s@),
{
    let mut i: usize = 0;
    while i < names.len()
        invariant
            i <= names.len(),
            forall|k: int| 0 <= k < i ==> lower(#[trigger] views(names@)[k]) != lower(s@),
        decreases names.len() - i,
    {
        if eq_ignore_case(names[i].as_str(), s) {
            assert(lower(views(names@)[i as int]) == lower(s@));
            return true;
        }
        i = i + 1;
    }
    false
}

/// Whether some excluded name occurs in `full_name`, ignoring ASCII case.
pub fn should_exclude(full_name: &str, exclude_names: &Vec<String>) -> (r: bool)
    ensures
        r == mentions_any(views(exclude_names@), full_name@),
{
    let lowered = ascii_lowercase(full_name);
    let mut i: usize = 0;
    while i < exclude_names.len()
        invariant
            i <= exclude_names.len(),
            lowered@ == lower(full_name@),
            forall|k: int|
                0 <= k < i ==> !has_infix(lower(full_name@), lower(#[trigger] views(exclude_names@)[k])),
        decreases exclude_names.len() - i,
    {
        let entry = ascii_lowercase(exclude_names[i].as_str());
        if contains(lowered.as_str(), entry.as_str()) {
            assert(has_infix(lower(full_name@), lower(views(exclude_names@)[i as int])));
            return true;
        }
        i = i + 1;
    }
    false
}

/// Whether `full_name` is none of the excluded full names, ignoring ASCII case.
pub fn full_name_allowed(full_name: &str, excluded: &Vec<String>) -> (r: bool)
    ensures
        r == !listed_ignoring_case(views(excluded@), full_name@),
{
    !listed_ignore_case(excluded, full_name)
}

/// Whether `license` is on the allowlist, ignoring ASCII case.
pub fn license_allowed(license: &str, allowlist: &Vec<String>) -> (r: bool)
    ensures
        r == listed_ignoring_case(views(allowlist@), license@),
{
    listed_ignore_case(allowlist, license)
}

/// The SPDX id of a result's license, `UNKNOWN` when it has none.
pub fn normalize_license(repo: &GithubRepositorySummary) -> (r: String)
    ensures
        r@ == license_of(*repo),
{
    match &repo.license {
        Some(l) => match &l.spdx_id {
            Some(id) => id.clone(),
            None => owned("UNKNOWN"),
        },
        None => owned("UNKNOWN"),
    }
}

/// Whether a result probably has tests or CI.
pub fn heuristic_has_tests_or_ci(repo: &GithubRepositorySummary) -> (r: bool)
    ensures
        r == looks_tested(*repo),
{
    let mut text = ascii_lowercase(repo.full_name.as_str());
    push_str(&mut text, " ");
    match &repo.description {
        Some(d) => push_str(&mut text, ascii_lowercase(d.as_str()).as_str()),
        None => {
            assert(lower(Seq::<char>::empty()) =~= Seq::<char>::empty());
        },
    }
    assert(text@ =~= haystack(*repo));
    contains(text.as_str(), "test") || contains(text.as_str(), "ci") || contains(text.as_str(), "assert")
        || repo.open_issues_count > 0 || repo.forks_count > 0
}

fn passes(repo: &GithubRepositorySummary, config: &DiscoveryConfig) -> (r: bool)
    ensures
        r == passes_filters(*repo, *config),
{
    if repo.archived || repo.disabled || repo.stargazers_count < config.min_stars {
        return false;
    }
    if !full_name_allowed(repo.full_name.as_str(), &config.exclude_full_names) {
        return false;
    }
    if should_exclude(repo.full_name.as_str(), &config.exclude_names) {
        return false;
    }
    let license = normalize_license(repo);
    if !license_allowed(license.as_str(), &config.license_allowlist) {
        return false;
    }
    match config.min_repo_size_kb {
        Some(m) => if repo.size < m {
            return false;
        },
        None => {},
    }
    match config.max_repo_size_kb {
        Some(m) => if repo.size > m {
            return false;
        },
        None => {},
    }
    true
}

impl GithubToolExecutor {
    /// The discovery tool.
    pub fn new() -> (r: Self) {
        GithubToolExecutor {  }
    }

    /// The results kept as benchmark candidates, in search order: live,
    /// popular enough, not excluded, allowed license, within the size bounds,
    /// the first result under each name, and with tests or CI when the
    /// configuration asks for them.
    pub fn filter_repositories(&self, items: &Vec<GithubRepositorySummary>, config: &DiscoveryConfig) -> (r:
        Vec<DiscoveredRepository>)
        ensures
            r.len() == kept_indices(items@, *config, items.len() as int).len(),
            forall|k: int|
                0 <= k < r.len() ==> discovered_from(
                    #[trigger] r@[k],
                    items@[kept_indices(items@, *config, items.len() as int)[k]],
                ),
    {
        let mut r: Vec<DiscoveredRepository> = Vec::new();
        let mut seen: Vec<String> = Vec::new();
        let mut i: usize = 0;
        while i < items.len()
            invariant
                i <= items.len(),
                r.len() == kept_indices(items@, *config, i as int).len(),
                forall|k: int|
                    0 <= k < r.len() ==> discovered_from(
                        #[trigger] r@[k],
                        items@[kept_indices(items@, *config, i as int)[k]],
                    ),
                forall|n: Seq<char>|
                    views(seen@).contains(n) <==> exists|j: int|
                        0 <= j < i && passes_filters(#[trigger] items@[j], *config)
                            && items@[j].full_name@ == n,
            decreases items.len() - i,
        {
            let repo = &items[i];
            let ghost before = kept_indices(items@, *config, i as int);
            if passes(repo, config) {
                let fresh = !contains_string(&seen, repo.full_name.as_str());
                assert(fresh == first_of_name(items@, *config, i as int)) by {
                    if !fresh {
                        let j = choose|j: int|
                            0 <= j < i && passes_filters(#[trigger] items@[j], *config)
                                && items@[j].full_name@ == repo.full_name@;
                        assert(items@[j].full_name@ == items@[i as int].full_name@);
                    } else {
                        assert forall|j: int|
                            0 <= j < i && passes_filters(#[trigger] items@[j], *config) implies items@[j].full_name@
                            != items@[i as int].full_name@ by {
                            if items@[j].full_name@ == items@[i as int].full_name@ {
                                assert(views(seen@).contains(items@[j].full_name@));
                            }
                        }
                    }
                }
                let ghost seen_before = views(seen@);
                seen.push(repo.full_name.clone());
                proof {
                    assert(views(seen@) =~= seen_before.push(repo.full_name@));
                    assert forall|n: Seq<char>|
                        views(seen@).contains(n) <==> exists|j: int|
                            0 <= j < i + 1 && passes_filters(#[trigger] items@[j], *config)
                                && items@[j].full_name@ == n by {
                        if views(seen@).contains(n) {
                            if n == repo.full_name@ {
                                assert(passes_filters(items@[i as int], *config)
                                    && items@[i as int].full_name@ == n);
                            } else {
                                let k = choose|k: int| 0 <= k < views(seen@).len() && views(seen@)[k] == n;
                                assert(k < seen_before.len());
                                assert(seen_before[k] == n);
                                assert(seen_before.contains(n));
                                let j = choose|j: int|
                                    0 <= j < i && passes_filters(#[trigger] items@[j], *config)
                                        && items@[j].full_name@ == n;
                                assert(0 <= j < i + 1);
                            }
                        }
                        if exists|j: int|
                            0 <= j < i + 1 && passes_filters(#[trigger] items@[j], *config)
                                && items@[j].full_name@ == n {
                            let j = choose|j: int|
                                0 <= j < i + 1 && passes_filters(#[trigger] items@[j], *config)
                                    && items@[j].full_name@ == n;
                            if j == i {
                                assert(views(seen@)[seen_before.len() as int] == n);
                            } else {
                                assert(seen_before.contains(n));
                                let k = choose|k: int| 0 <= k < seen_before.len() && seen_before[k] == n;
                                assert(views(seen@)[k] == n);
                            }
                        }
                    }
                }
                let tested = heuristic_has_tests_or_ci(repo);
                if fresh && (!config.require_tests_or_ci || tested) {
                    r.push(DiscoveredRepository {
                        full_name: repo.full_name.clone(),
                        html_url: repo.html_url.clone(),
                        description: repo.description.clone(),
                        license: normalize_license(repo),
                        default_branch: repo.default_branch.clone(),
                        repo_size_kb: repo.size,
                        has_tests_or_ci: tested,
                        stargazers_count: repo.stargazers_count,
                        open_issues_count: repo.open_issues_count,
                    });
                    assert(kept_indices(items@, *config, i + 1) =~= before.push(i as int));
                } else {
                    assert(kept_indices(items@, *config, i + 1) =~= before);
                }
            } else {
                assert(kept_indices(items@, *config, i + 1) =~= before);
                proof {
                    assert forall|n: Seq<char>|
                        views(seen@).contains(n) <==> exists|j: int|
                            0 <= j < i + 1 && passes_filters(#[trigger] items@[j], *config)
                                && items@[j].full_name@ == n by {
                        if exists|j: int|
                            0 <= j < i + 1 && passes_filters(#[trigger] items@[j], *config)
                                && items@[j].full_name@ == n {
                            let j = choose|j: int|
                                0 <= j < i + 1 && passes_filters(#[trigger] items@[j], *config)
                                    && items@[j].full_name@ == n;
                            assert(j != i);
                        }
                    }
                }
            }
            i = i + 1;
        }
        r
    }
}

/// The id of the `index`th discovery case (counted from zero): `case_`, the
/// number from one in at least three digits, `_` and the full name with `/`
/// and `-` as `_`.
pub open spec fn case_id_of(index: nat, full_name: Seq<char>) -> Seq<char> {
    "case_"@ + padded3(index + 1) + "_"@ + full_name.map_values(
        |c: char| if c == '/' || c == '-' { '_' } else { c },
    )
}

/// `n` in decimal, padded with zeros to at least three digits.
pub open spec fn padded3(n: nat) -> Seq<char> {
    if n < 10 {
        "00"@ + decimal(n)
    } else if n < 100 {
        "0"@ + decimal(n)
    } else {
        decimal(n)
    }
}

/// The id of the `index`th discovery case.
pub fn make_case_id(index: usize, full_name: &str) -> (r: String)
    requires
        index < u64::MAX,
    ensures
        r@ == case_id_of(index as nat, full_name@),
{
    let n = index as u64 + 1;
    let mut r = owned("case_");
    if n < 10 {
        push_str(&mut r, "00");
    } else if n < 100 {
        push_str(&mut r, "0");
    }
    push_decimal(&mut r, n);
    push_str(&mut r, "_");
    let x = crate::text::chars_of(full_name);
    let ghost f = |c: char| if c == '/' || c == '-' { '_' } else { c };
    let ghost start = r@;
    let mut i: usize = 0;
    while i < x.len()
        invariant
            i <= x.len(),
            x@ == full_name@,
            f == (|c: char| if c == '/' || c == '-' { '_' } else { c }),
            r@ == start + full_name@.take(i as int).map_values(f),
        decreases x.len() - i,
    {
        let c = x[i];
        crate::text::push_char(&mut r, if c == '/' || c == '-' { '_' } else { c });
        assert(full_name@.take(i + 1) =~= full_name@.take(i as int).push(c));
        assert(full_name@.take(i + 1).map_values(f) =~= full_name@.take(i as int).map_values(f).push(f(c)));
        i = i + 1;
    }
    assert(full_name@.take(i as int) =~= full_name@);
    r
}

/// The local checkout path of a discovered repository: under
/// `benchmarks/repos/`, its full name with `/` as `_`.
pub open spec fn local_repo_path_of(full_name: Seq<char>) -> Seq<char> {
    "benchmarks/repos/"@ + full_name.map_values(|c: char| if c == '/' { '_' } else { c })
}

/// The local checkout path of a discovered repository.
pub fn local_repo_path(full_name: &str) -> (r: String)
    ensures
        r@ == local_repo_path_of(full_name@),
{
    let mut r = owned("benchmarks/repos/");
    let x = crate::text::chars_of(full_name);
    let ghost f = |c: char| if c == '/' { '_' } else { c };
    let ghost start = r@;
    let mut i: usize = 0;
    while i < x.len()
        invariant
            i <= x.len(),
            x@ == full_name@,
            f == (|c: char| if c == '/' { '_' } else { c }),
            r@ == start + full_name@.take(i as int).map_values(f),
        decreases x.len() - i,
    {
        let c = x[i];
        crate::text::push_char(&mut r, if c == '/' { '_' } else { c });
        assert(full_name@.take(i + 1) =~= full_name@.take(i as int).push(c));
        assert(full_name@.take(i + 1).map_values(f) =~= full_name@.take(i as int).map_values(f).push(f(c)));
        i = i + 1;
    }
    assert(full_name@.take(i as int) =~= full_name@);
    r
}

/// The kept indices are increasing and below `n`.
proof fn lemma_kept_indices_increasing(items: Seq<GithubRepositorySummary>, c: DiscoveryConfig, n: int)
    ensures
        forall|a: int, b: int|
            0 <= a < b < kept_indices(items, c, n).len() ==> kept_indices(items, c, n)[a]
                < kept_indices(items, c, n)[b],
        forall|a: int|
            0 <= a < kept_indices(items, c, n).len() ==> 0 <= kept_indices(items, c, n)[a] < n
                && kept(items, c, #[trigger] kept_indices(items, c, n)[a]),
    decreases n,
{
    if n > 0 {
        lemma_kept_indices_increasing(items, c, n - 1);
        let prev = kept_indices(items, c, n - 1);
        let cur = kept_indices(items, c, n);
        assert forall|a: int| 0 <= a < cur.len() implies 0 <= #[trigger] cur[a] < n && kept(items, c, cur[a]) by {
            if a < prev.len() {
                assert(cur[a] == prev[a]);
                assert(kept(items, c, prev[a]));
            }
        }
        assert forall|a: int, b: int| 0 <= a < b < cur.len() implies cur[a] < cur[b] by {
            if b < prev.len() {
                assert(cur[a] == prev[a] && cur[b] == prev[b]);
            } else {
                assert(cur[a] == prev[a]);
                assert(prev[a] < n - 1);
            }
        }
    }
}

/// No two kept repositories share a full name: a later result under a name
/// already kept is dropped.
pub proof fn lemma_kept_names_distinct(items: Seq<GithubRepositorySummary>, c: DiscoveryConfig)
    ensures
        forall|a: int, b: int|
            0 <= a < b < kept_indices(items, c, items.len() as int).len() ==> items[kept_indices(
                items,
                c,
                items.len() as int,
            )[a]].full_name@ != items[kept_indices(items, c, items.len() as int)[b]].full_name@,
{
    let k = kept_indices(items, c, items.len() as int);
    lemma_kept_indices_increasing(items, c, items.len() as int);
    assert forall|a: int, b: int| 0 <= a < b < k.len() implies items[k[a]].full_name@
        != items[k[b]].full_name@ by {
        assert(kept(items, c, k[a]));
        assert(kept(items, c, k[b]));
        assert(k[a] < k[b]);
        assert(passes_filters(items[k[a]], c));
    }
}

} // verus!
