use eva_runtime::contracts::MutationKind;
use eva_runtime::evolution::generator::generate_safe_mutation;

#[test]
fn safe_probe_appends_a_comment_to_the_runtime_cycle() {
    let m = generate_safe_mutation();
    assert_eq!(m.id, "phase1-append-runtime-note");
    assert_eq!(m.kind, MutationKind::AppendComment);
    assert_eq!(m.target_file, "src/runtime_cycle.rs");
    assert_eq!(m.append.as_deref(), Some("// EVA Phase 1 sandbox-only mutation probe."));
    assert!(m.search.is_none());
    assert!(m.replace.is_none());
}

use eva_runtime::contracts::{MutationObjective, MutationPlan};
use eva_runtime::evolution::generator::{default_kind_for_objective, generate_from_plan, objective_label};
use eva_runtime::evolution::templates::{
    fixed_hex, generate_add_replay_assertion, generate_add_unit_test, identifier_suffix, test_suffix,
};
use eva_runtime::evolution::validator::{validate_mutation, MutationBounds};

fn plan(id: &str, target: &str, kind: MutationKind) -> MutationPlan {
    MutationPlan {
        id: id.to_string(),
        objective: MutationObjective::ImproveTests,
        target_file: target.to_string(),
        mutation_kind: kind,
        reason: "graph-guided safe improvement".to_string(),
        graph_evidence: Vec::new(),
    }
}

#[test]
fn fixed_hex_repeats_the_plan_seed() {
    let p = plan("p1", "src/x.rs", MutationKind::AddUnitTest);
    let hex = fixed_hex(&p);
    assert_eq!(hex.len(), 64);
    assert!(hex.starts_with("d06a6d06a6"));
    assert!(hex.chars().all(|c| c.is_ascii_hexdigit()));
    assert_eq!(hex, "d06a6".repeat(13)[..64].to_string());
}

#[test]
fn test_suffix_is_a_lower_case_identifier() {
    assert_eq!(identifier_suffix("__Plan:Src/X.rs__"), "plan_src_x_rs");
    assert_eq!(test_suffix(&plan("P-1", "src/x.rs", MutationKind::AddUnitTest)), "p_1");
}

#[test]
fn unit_test_plans_append_a_deterministic_test() {
    let m = generate_from_plan(&plan("p1", "src/x.rs", MutationKind::AddUnitTest));
    assert_eq!(m.id, "mutation:p1");
    assert_eq!(m.kind, MutationKind::AddUnitTest);
    assert_eq!(m.target_file, "tests/evolution_generated_tests.rs");
    let body = m.append.unwrap();
    assert!(body.starts_with("#[test]\nfn eva_generated_p1_deterministic() {\n    let digest = \"d06a6"));
    assert!(body.ends_with("assert!(digest.chars().all(|ch| ch.is_ascii_hexdigit()));\n}\n"));
    assert_eq!(m.reason, "add deterministic generated unit test for p1");
}

#[test]
fn metric_plans_edit_the_metrics_module() {
    let m = generate_from_plan(&plan("p2", "src/a.rs", MutationKind::AddMetricUpdate));
    assert_eq!(m.target_file, "src/evolution/metrics.rs");
    assert!(m.search.is_some());
    assert!(m.replace.is_some());
    assert!(m.append.is_none());
    let p = generate_from_plan(&plan("p3", "src/a.rs", MutationKind::ParameterTune));
    assert_eq!(p.search.as_deref(), Some("risk: 0.1"));
    assert_eq!(p.replace.as_deref(), Some("risk: 0.09"));
    assert_eq!(p.target_file, "src/a.rs");
}

#[test]
fn objectives_choose_their_default_kind() {
    assert_eq!(default_kind_for_objective(MutationObjective::ImproveTests), MutationKind::AddUnitTest);
    assert_eq!(default_kind_for_objective(MutationObjective::ImproveReplayability), MutationKind::AddReplayAssertion);
    assert_eq!(default_kind_for_objective(MutationObjective::ImproveScoring), MutationKind::AddMetricUpdate);
    assert_eq!(objective_label(MutationObjective::ImproveReliability), "ImproveReliability");
}

#[test]
fn generated_tests_pass_validation() {
    let bounds = MutationBounds {
        risk_within_limit: true,
        expected_gain_in_range: true,
        target_size: Some(262144),
    };
    let long_id = "Ж-".repeat(500);
    for id in ["p1", "Plan:Src/X.rs", "__", long_id.as_str()] {
        let p = plan(id, "src/x.rs", MutationKind::AddUnitTest);
        for m in [generate_add_unit_test(&p), generate_add_replay_assertion(&p)] {
            assert_eq!(m.target_file, "tests/evolution_generated_tests.rs");
            assert_eq!(validate_mutation(&m, &bounds), Ok(()));
        }
    }
}
