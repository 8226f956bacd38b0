use eva_runtime::github::{
    heuristic_has_tests_or_ci, local_repo_path, make_case_id, normalize_license, DiscoveryConfig,
    GithubLicense, GithubRepositorySummary, GithubToolExecutor,
};

fn strings(v: &[&str]) -> Vec<String> {
    v.iter().map(|s| s.to_string()).collect()
}

fn repo(name: &str, desc: Option<&str>, license: Option<&str>) -> GithubRepositorySummary {
    GithubRepositorySummary {
        full_name: name.to_string(),
        html_url: format!("https://github.com/{name}"),
        description: desc.map(|d| d.to_string()),
        stargazers_count: 10,
        size: 100,
        forks_count: 0,
        open_issues_count: 0,
        default_branch: "main".to_string(),
        archived: false,
        disabled: false,
        license: license.map(|l| GithubLicense { spdx_id: Some(l.to_string()) }),
    }
}

fn config() -> DiscoveryConfig {
    DiscoveryConfig {
        language: "rust".to_string(),
        query: "cli".to_string(),
        license_allowlist: strings(&["MIT", "apache-2.0"]),
        exclude_full_names: strings(&["Owner/Bad"]),
        exclude_names: strings(&["AWESOME"]),
        min_repo_size_kb: Some(10),
        max_repo_size_kb: Some(5000),
        target_repo_size_kb: 3000,
        require_tests_or_ci: true,
        min_stars: 5,
        max_results: 10,
        output_manifest_path: "out.json".to_string(),
    }
}

#[test]
fn discovery_keeps_live_licensed_tested_unique_repositories() {
    let mut items = Vec::new();
    items.push(repo("owner/good", Some("A test framework"), Some("MIT")));
    items.push(repo("owner/good", Some("again, with tests"), Some("MIT")));
    items.push(repo("owner/bad", Some("tests"), Some("MIT")));
    items.push(repo("x/awesome-list", Some("tests"), Some("MIT")));
    items.push(repo("y/lic", Some("tests"), Some("GPL-3.0")));
    let mut archived = repo("z/archived", Some("tests"), Some("MIT"));
    archived.archived = true;
    items.push(archived);
    items.push(repo("w/plain", Some("library"), Some("Apache-2.0")));
    let mut small = repo("v/small", Some("tests"), Some("MIT"));
    small.size = 5;
    items.push(small);
    items.push(repo("u/ci-tool", None, None));
    let mut forked = repo("t/forked", Some("lib"), Some("APACHE-2.0"));
    forked.forks_count = 3;
    items.push(forked);
    items.push(repo("w/plain", Some("now with tests"), Some("MIT")));
    let mut unpopular = repo("s/new", Some("tests"), Some("MIT"));
    unpopular.stargazers_count = 4;
    items.push(unpopular);
    let tool = GithubToolExecutor::new();
    let kept = tool.filter_repositories(&items, &config());
    let names: Vec<&str> = kept.iter().map(|r| r.full_name.as_str()).collect();
    assert_eq!(names, vec!["owner/good", "t/forked"]);
    assert_eq!(kept[0].description.as_deref(), Some("A test framework"));
    assert_eq!(kept[1].license, "APACHE-2.0");
    assert!(kept[1].has_tests_or_ci);
    assert_eq!(kept[0].repo_size_kb, 100);
}

#[test]
fn without_the_tests_requirement_untested_repositories_stay() {
    let mut c = config();
    c.require_tests_or_ci = false;
    c.min_repo_size_kb = None;
    let items = vec![repo("w/plain", Some("library"), Some("MIT"))];
    let kept = GithubToolExecutor::new().filter_repositories(&items, &c);
    assert_eq!(kept.len(), 1);
    assert!(!kept[0].has_tests_or_ci);
}

#[test]
fn licenses_default_to_unknown() {
    assert_eq!(normalize_license(&repo("a/b", None, None)), "UNKNOWN");
    let mut r = repo("a/b", None, None);
    r.license = Some(GithubLicense { spdx_id: None });
    assert_eq!(normalize_license(&r), "UNKNOWN");
    assert_eq!(normalize_license(&repo("a/b", None, Some("MIT"))), "MIT");
}

#[test]
fn the_tests_heuristic_reads_name_description_and_activity() {
    assert!(heuristic_has_tests_or_ci(&repo("Org/ACIDTOOL", None, None)));
    assert!(heuristic_has_tests_or_ci(&repo("a/b", Some("with ASSERTions"), None)));
    assert!(!heuristic_has_tests_or_ci(&repo("a/b", Some("library"), None)));
    let mut busy = repo("a/b", None, None);
    busy.open_issues_count = 1;
    assert!(heuristic_has_tests_or_ci(&busy));
}

#[test]
fn case_ids_and_local_paths() {
    assert_eq!(make_case_id(0, "owner/my-repo"), "case_001_owner_my_repo");
    assert_eq!(make_case_id(9, "a/b"), "case_010_a_b");
    assert_eq!(make_case_id(99, "a/b"), "case_100_a_b");
    assert_eq!(make_case_id(1233, "a/b"), "case_1234_a_b");
    assert_eq!(local_repo_path("owner/my-repo"), "benchmarks/repos/owner_my-repo");
}
