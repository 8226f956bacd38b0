use eva_runtime::contracts::{MutationContract, MutationKind};
use eva_runtime::digest::{hex_lower, sha256_digest};
use eva_runtime::evolution::dedup::{compute_mutation_digest, should_reject_duplicate_bad, DedupOutcome};

#[test]
fn sha256_of_abc_matches_the_standard_vector() {
    assert_eq!(sha256_digest("abc"), "ba7816bf8f01cfea414140de5dae2223b00361a396177a9cb410ff61f20015ad");
    assert_eq!(sha256_digest("").len(), 64);
}

#[test]
fn hex_is_two_lower_case_digits_per_byte() {
    assert_eq!(hex_lower(&vec![0u8, 15, 16, 255]), "000f10ff");
    assert_eq!(hex_lower(&Vec::new()), "");
}

fn unit_test_mutation() -> MutationContract {
    MutationContract {
        id: "m".to_string(),
        kind: MutationKind::AddUnitTest,
        target_file: "src/x.rs".to_string(),
        search: None,
        replace: None,
        append: Some("#[test]".to_string()),
        reason: "r".to_string(),
    }
}

#[test]
fn mutation_digest_covers_target_kind_and_payloads() {
    let m = unit_test_mutation();
    assert_eq!(
        compute_mutation_digest(&m),
        "33fdac5da82c9fb1a08fbb941bc373e10993f2a9e72bbe723d1157667ecd50b2"
    );
    let mut other = unit_test_mutation();
    other.id = "another id".to_string();
    other.reason = "another reason".to_string();
    assert_eq!(compute_mutation_digest(&other), compute_mutation_digest(&m));
    other.target_file = "src/y.rs".to_string();
    assert_ne!(compute_mutation_digest(&other), compute_mutation_digest(&m));
}

#[test]
fn bad_duplicates_are_rejected() {
    let entries = vec![
        DedupOutcome { digest: "a".to_string(), useful_change: true, score_below_bar: false },
        DedupOutcome { digest: "b".to_string(), useful_change: false, score_below_bar: false },
        DedupOutcome { digest: "c".to_string(), useful_change: true, score_below_bar: true },
    ];
    assert!(!should_reject_duplicate_bad(&entries, "a"));
    assert!(should_reject_duplicate_bad(&entries, "b"));
    assert!(should_reject_duplicate_bad(&entries, "c"));
    assert!(!should_reject_duplicate_bad(&entries, "d"));
}
