use eva_runtime::contracts::{MutationContract, MutationKind};
use eva_runtime::evolution::mutator::{
    apply_mutation_to_content, check_target_presence, replace_first_occurrence,
};
use eva_runtime::evolution::validator::{check_mutation, MutationBounds};

fn mutation(kind: MutationKind, target: &str) -> MutationContract {
    MutationContract {
        id: "m1".to_string(),
        kind,
        target_file: target.to_string(),
        search: None,
        replace: None,
        append: None,
        reason: "test".to_string(),
    }
}

#[test]
fn append_payload_goes_on_its_own_line() {
    let mut m = mutation(MutationKind::AddUnitTest, "tests/evolution_generated_tests.rs");
    m.append = Some("#[test]\nfn t() {}".to_string());
    let out = apply_mutation_to_content(&m, "fn a() {}").unwrap();
    assert_eq!(out, "fn a() {}\n#[test]\nfn t() {}\n");
}

#[test]
fn append_to_an_empty_new_file() {
    let mut m = mutation(MutationKind::AppendComment, "src/x.rs");
    m.append = Some("// note".to_string());
    assert_eq!(apply_mutation_to_content(&m, "").unwrap(), "\n// note\n");
}

#[test]
fn missing_append_payload_is_an_error() {
    let m = mutation(MutationKind::AddMetricField, "src/x.rs");
    assert_eq!(apply_mutation_to_content(&m, "x").unwrap_err(), "missing append payload");
}

#[test]
fn replace_changes_only_the_first_occurrence() {
    let mut m = mutation(MutationKind::ParameterTune, "src/x.rs");
    m.search = Some("risk: 0.1".to_string());
    m.replace = Some("risk: 0.09".to_string());
    let out = apply_mutation_to_content(&m, "a risk: 0.1 b risk: 0.1").unwrap();
    assert_eq!(out, "a risk: 0.09 b risk: 0.1");
}

#[test]
fn replace_errors_in_order() {
    let mut m = mutation(MutationKind::ReplaceText, "src/x.rs");
    assert_eq!(apply_mutation_to_content(&m, "abc").unwrap_err(), "missing search pattern");
    m.search = Some("b".to_string());
    assert_eq!(apply_mutation_to_content(&m, "abc").unwrap_err(), "missing replacement");
    m.replace = Some("B".to_string());
    m.search = Some("zz".to_string());
    assert_eq!(apply_mutation_to_content(&m, "abc").unwrap_err(), "search pattern not found");
}

#[test]
fn replace_first_occurrence_with_unicode_and_empty_search() {
    assert_eq!(replace_first_occurrence("ёжик ёжик", "ёж", "ЁЖ").as_deref(), Some("ЁЖик ёжик"));
    assert_eq!(replace_first_occurrence("abc", "", "X").as_deref(), Some("Xabc"));
    assert_eq!(replace_first_occurrence("abc", "abcd", "X"), None);
    assert_eq!(replace_first_occurrence("aaa", "aa", "b").as_deref(), Some("ba"));
}

#[test]
fn missing_target_only_for_generated_tests() {
    let m = mutation(MutationKind::ReplaceText, "src/x.rs");
    assert_eq!(
        check_target_presence(&m, false, 0).unwrap_err(),
        "target file does not exist: src/x.rs"
    );
    let t = mutation(MutationKind::AddReplayAssertion, "tests/new.rs");
    assert!(check_target_presence(&t, false, 0).is_ok());
    assert_eq!(check_target_presence(&t, true, 262145).unwrap_err(), "target file too large");
    assert!(check_target_presence(&t, true, 262144).is_ok());
}

#[test]
fn validated_mutations_apply_to_any_text() {
    let bounds = MutationBounds { risk_within_limit: true, expected_gain_in_range: true, target_size: Some(10) };
    let mut append = mutation(MutationKind::AddUnitTest, "tests/evolution_generated_tests.rs");
    append.append = Some("#[test]\nfn eva() {}".to_string());
    assert!(check_mutation(&append, &bounds, false, false).is_ok());
    assert!(apply_mutation_to_content(&append, "anything").is_ok());
    let mut tune = mutation(MutationKind::ParameterTune, "src/evolution/x.rs");
    tune.search = Some("risk: 0.1".to_string());
    tune.replace = Some("risk: 0.09".to_string());
    assert!(check_mutation(&tune, &bounds, false, false).is_ok());
    assert!(apply_mutation_to_content(&tune, "risk: 0.1").is_ok());
    assert!(apply_mutation_to_content(&tune, "risk: 0.2").is_err());
}
