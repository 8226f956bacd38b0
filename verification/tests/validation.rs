use eva_runtime::contracts::{DeniedMutationKind, MutationContract, MutationKind, TaskContract};
use eva_runtime::evolution::task_validator::{
    check_target_pattern, check_task_contract, matches_target_pattern, matches_target_patterns,
    validate_target_pattern, validate_task_contract,
};
use eva_runtime::evolution::validator::{
    check_mutation, check_target_path, validate_mutation, validate_target_path, MutationBounds,
};

fn bounds() -> MutationBounds {
    MutationBounds { risk_within_limit: true, expected_gain_in_range: true, target_size: None }
}

fn mutation(kind: MutationKind, target: &str) -> MutationContract {
    MutationContract {
        id: "m1".to_string(),
        kind,
        target_file: target.to_string(),
        search: None,
        replace: None,
        append: None,
        reason: "r".to_string(),
    }
}

fn err(m: &MutationContract) -> String {
    check_mutation(m, &bounds(), false, false).unwrap_err()
}

#[test]
fn mutation_header_errors_come_first() {
    let mut m = mutation(MutationKind::AppendComment, "src/x.rs");
    m.id = "   ".to_string();
    assert_eq!(err(&m), "mutation id must not be empty");
    let m = mutation(MutationKind::AppendComment, "src/x.rs");
    let b = MutationBounds { risk_within_limit: false, expected_gain_in_range: false, target_size: None };
    assert_eq!(check_mutation(&m, &b, false, false).unwrap_err(), "mutation risk too high");
    let b = MutationBounds { risk_within_limit: true, expected_gain_in_range: false, target_size: None };
    assert_eq!(check_mutation(&m, &b, false, false).unwrap_err(), "expected gain must be between 0.0 and 1.0");
}

#[test]
fn target_path_errors() {
    let k = MutationKind::ReplaceText;
    assert_eq!(check_target_path("/abs.rs", k, true, false, None).unwrap_err(), "target file must be relative");
    assert_eq!(check_target_path("Cargo.toml", k, false, false, None).unwrap_err(), "Cargo.toml mutation is forbidden in this phase");
    assert_eq!(check_target_path("crates/a/Cargo.toml", k, false, false, None).unwrap_err(), "Cargo.toml mutation is forbidden in this phase");
    assert_eq!(check_target_path("src/x.rs", MutationKind::AddUnitTest, false, false, None).unwrap_err(), "target file must be inside tests/");
    assert_eq!(check_target_path("docs/x.md", k, false, false, None).unwrap_err(), "target file must be inside an allowed source directory");
    assert_eq!(check_target_path("src/core/x.rs", k, false, false, None).unwrap_err(), "core mutation is forbidden");
    assert_eq!(check_target_path("src/lib.rs", k, false, false, None).unwrap_err(), "core mutation is forbidden");
    assert_eq!(check_target_path("src/../x.rs", k, false, true, None).unwrap_err(), "target file must not escape the project");
    assert_eq!(check_target_path("src/x.rs", k, false, false, Some(262145)).unwrap_err(), "target file too large");
    assert!(check_target_path("src/x.rs", k, false, false, Some(262144)).is_ok());
}

#[test]
fn std_path_decides_absolute_and_escaping_targets() {
    let k = MutationKind::ReplaceText;
    assert_eq!(validate_target_path("/etc/passwd", k, None).unwrap_err(), "target file must be relative");
    assert_eq!(validate_target_path("src/../../x.rs", k, None).unwrap_err(), "target file must not escape the project");
    assert!(validate_target_path("src/evolution/x.rs", k, None).is_ok());
    let mut m = mutation(MutationKind::ReplaceText, "/tmp/x.rs");
    m.search = Some("a".to_string());
    m.replace = Some("b".to_string());
    assert_eq!(validate_mutation(&m, &bounds()).unwrap_err(), "target file must be relative");
    m.target_file = "src/x.rs".to_string();
    assert!(validate_mutation(&m, &bounds()).is_ok());
}

#[test]
fn payload_size_is_bounded() {
    let mut m = mutation(MutationKind::ReplaceText, "src/x.rs");
    m.search = Some("a".repeat(1024));
    m.replace = Some("b".repeat(1025));
    assert_eq!(err(&m), "mutation payload too large");
    m.replace = Some("b".repeat(1024));
    assert!(check_mutation(&m, &bounds(), false, false).is_ok());
}

#[test]
fn comment_appends() {
    let mut m = mutation(MutationKind::AppendComment, "src/x.rs");
    assert_eq!(err(&m), "append mutation requires append payload");
    m.append = Some(format!("// {}", "x".repeat(298)));
    assert_eq!(err(&m), "append payload too large");
    m.append = Some("let x = 1;".to_string());
    assert_eq!(err(&m), "append mutation only allows Rust comments");
    m.append = Some("  /* ok */".to_string());
    assert!(check_mutation(&m, &bounds(), false, false).is_ok());
}

#[test]
fn search_and_replace_kinds() {
    let mut m = mutation(MutationKind::ReplaceText, "src/x.rs");
    assert_eq!(err(&m), "replace mutation requires search and replace");
    m.kind = MutationKind::ParameterTune;
    m.search = Some(String::new());
    m.replace = Some("x".to_string());
    assert_eq!(err(&m), "parameter tuning requires search and replace");
    let mut l = mutation(MutationKind::AddLearningSummaryField, "src/evolution/x.rs");
    assert_eq!(err(&l), "learning summary field mutation requires search and replace");
    l.search = Some("a".to_string());
    l.replace = Some("b".to_string());
    assert_eq!(err(&l), "learning summary field target must be learning/report related");
    l.target_file = "src/evolution/report_ru.rs".to_string();
    assert!(check_mutation(&l, &bounds(), false, false).is_ok());
    let mut u = mutation(MutationKind::AddMetricUpdate, "src/other.rs");
    assert_eq!(err(&u), "metric update mutation requires search and replace");
    u.search = Some("a".to_string());
    u.replace = Some("b".to_string());
    assert_eq!(err(&u), "metric update target must be metrics or safe evolution/runtime file");
    u.target_file = "src/runtime_cycle.rs".to_string();
    assert!(check_mutation(&u, &bounds(), false, false).is_ok());
}

#[test]
fn generated_tests_and_metric_fields() {
    let mut s = mutation(MutationKind::AddTestSkeleton, "tests/a.rs");
    assert_eq!(err(&s), "test skeleton requires append payload");
    s.append = Some("#[test]".to_string());
    assert_eq!(err(&s), "test skeleton must contain a test function");
    let mut g = mutation(MutationKind::AddReplayAssertion, "tests/a.rs");
    assert_eq!(err(&g), "generated test mutation requires append payload");
    g.append = Some("fn helper() {}".to_string());
    assert_eq!(err(&g), "generated test mutation must contain a test function");
    g.append = Some("#[test]\nfn t() {}".to_string());
    assert!(check_mutation(&g, &bounds(), false, false).is_ok());
    let mut f = mutation(MutationKind::AddMetricField, "src/evolution/metrics.rs");
    assert_eq!(err(&f), "metric field mutation requires append payload");
    f.append = Some("/* block */".to_string());
    assert_eq!(err(&f), "metric field mutation is comment-only in this phase");
}

#[test]
fn protected_targets_are_always_rejected() {
    for target in ["Cargo.toml", "src/core/engine.rs", "src/lib.rs", "src/main.rs", "a/Cargo.toml"] {
        for kind in [MutationKind::AppendComment, MutationKind::ReplaceText, MutationKind::AddUnitTest, MutationKind::AddMetricUpdate] {
            let mut m = mutation(kind, target);
            m.append = Some("// c".to_string());
            m.search = Some("a".to_string());
            m.replace = Some("b".to_string());
            assert!(check_mutation(&m, &bounds(), false, false).is_err());
        }
    }
}

fn task() -> TaskContract {
    TaskContract {
        task_id: "t".to_string(),
        title_ru: "т".to_string(),
        goal_ru: "g".to_string(),
        allowed_targets: vec!["tests/*".to_string()],
        forbidden_targets: vec!["src/core/*".to_string(), "src/main.rs".to_string(), "src/lib.rs".to_string(), "Cargo.toml".to_string()],
        preferred_objectives: Vec::new(),
        allowed_mutation_kinds: vec![MutationKind::AddUnitTest],
        denied_mutation_kinds: vec![
            DeniedMutationKind::DeleteCode,
            DeniedMutationKind::RewriteFunction,
            DeniedMutationKind::FreeDiff,
            DeniedMutationKind::DependencyAdd,
        ],
        cycles: 2,
        require_replay: true,
        require_benchmark: false,
        require_russian_report: true,
        auto_promote: false,
        source_corpus_id: None,
        created_at: 0,
    }
}

fn task_err(t: &TaskContract) -> String {
    let n = t.allowed_targets.len() + t.forbidden_targets.len();
    check_task_contract(t, true, &vec![false; n]).unwrap_err()
}

#[test]
fn task_contract_errors() {
    assert!(validate_task_contract(&task(), true).is_ok());
    let mut t = task();
    t.cycles = 0;
    assert_eq!(task_err(&t), "cycles must be > 0 and <= 100");
    t.cycles = 101;
    assert_eq!(task_err(&t), "cycles must be > 0 and <= 100");
    assert_eq!(validate_task_contract(&task(), false).unwrap_err(), "max_risk must be <= 0.35");
    let mut t = task();
    t.auto_promote = true;
    assert_eq!(task_err(&t), "auto_promote must be false for now");
    let mut t = task();
    t.forbidden_targets.remove(2);
    assert_eq!(task_err(&t), "missing hard forbidden target: src/lib.rs");
    let mut t = task();
    t.denied_mutation_kinds.remove(2);
    assert_eq!(task_err(&t), "missing denied mutation kind: FreeDiff");
    let mut t = task();
    t.allowed_targets.push("src/../x".to_string());
    assert_eq!(task_err(&t), "path escape is forbidden in task pattern: src/../x");
    let mut t = task();
    t.allowed_targets = vec!["/abs/*".to_string()];
    assert_eq!(validate_task_contract(&t, true).unwrap_err(), "absolute task patterns are forbidden: /abs/*");
}

#[test]
fn target_patterns() {
    assert!(matches_target_pattern("tests/a.rs", "tests/*"));
    assert!(!matches_target_pattern("src/a.rs", "tests/*"));
    assert!(matches_target_pattern("Cargo.toml", "Cargo.toml"));
    assert!(!matches_target_pattern("Cargo.toml.bak", "Cargo.toml"));
    assert!(matches_target_pattern("anything", "*"));
    assert!(matches_target_patterns("src/evolution/x.rs", &vec!["tests/*".to_string(), "src/evolution/*".to_string()]));
    assert!(!matches_target_patterns("src/x.rs", &Vec::new()));
    assert_eq!(check_target_pattern("a/../b", false).unwrap_err(), "path escape is forbidden in task pattern: a/../b");
    assert_eq!(validate_target_pattern("/etc/*").unwrap_err(), "absolute task patterns are forbidden: /etc/*");
    assert!(validate_target_pattern("tests/*").is_ok());
}
