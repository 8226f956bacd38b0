use eva_runtime::contracts::ReleaseHealthReport;
use eva_runtime::evolution::determinism_audit::{
    build_determinism_audit, collect_markers, json_has_field, print_determinism_audit, required_fields,
    AuditDocument, DocumentKind, JsonValue,
};

fn text(s: &str) -> JsonValue {
    JsonValue::Text(s.to_string())
}

fn object(fields: Vec<(&str, JsonValue)>) -> JsonValue {
    JsonValue::Object(fields.into_iter().map(|(k, v)| (k.to_string(), v)).collect())
}

fn health() -> ReleaseHealthReport {
    ReleaseHealthReport {
        generated_at: 1,
        release_runtime_support: true,
        latest_release_id: Some("rel-1".to_string()),
        release_count: 1,
        candidate_count: 1,
        approved_count: 1,
        ready_count: 1,
        blocked_count: 0,
        replay_passed_candidates: 1,
        promoted_candidates: 0,
        governance_ready: true,
        proof_ready: true,
        preflight_ready: true,
        sandbox_leaks_detected: false,
        auto_promote: false,
        operator_approval_required: true,
        health_score: 100,
        health_grade: "green".to_string(),
        blockers: Vec::new(),
        recommendations_ru: vec!["Release runtime готов к metadata-only проверкам.".to_string()],
    }
}

fn proof_document(extra: &str) -> AuditDocument {
    AuditDocument {
        label: "proof:eva".to_string(),
        kind: DocumentKind::ProofReport,
        value: object(vec![
            ("generated_at", JsonValue::Number),
            ("release_runtime_support", JsonValue::Bool(true)),
            ("auto_promote", JsonValue::Bool(false)),
            ("operator_approval_required", JsonValue::Bool(true)),
            ("notes", JsonValue::Array(vec![text(extra)])),
        ]),
    }
}

#[test]
fn fields_are_found_only_in_objects() {
    let v = object(vec![("created_at", JsonValue::Number)]);
    assert!(json_has_field(&v, "created_at"));
    assert!(!json_has_field(&v, "generated_at"));
    assert!(!json_has_field(&text("created_at"), "created_at"));
    assert_eq!(required_fields(DocumentKind::ProofReport).len(), 4);
    assert_eq!(required_fields(DocumentKind::RollbackManifest)[3], "rollback_type");
}

#[test]
fn source_text_and_urls_raise_markers_per_value() {
    let mut out = Vec::new();
    collect_markers(
        "doc",
        &JsonValue::Array(vec![text("pub fn run() {}"), text("see https://example.org"), JsonValue::Null]),
        &mut out,
    );
    assert_eq!(
        out,
        vec!["doc:possible_full_source_content".to_string(), "doc:network_url_marker".to_string()]
    );
    let mut none = Vec::new();
    collect_markers("doc", &text("plain metadata"), &mut none);
    assert!(none.is_empty());
}

#[test]
fn clean_documents_are_deterministic_enough() {
    let report = build_determinism_audit(&vec![proof_document("metadata only")], &health(), 9);
    assert!(report.deterministic_enough);
    assert_eq!(
        report.checked_documents,
        vec!["proof:eva".to_string(), "release_health:runtime".to_string()]
    );
    assert!(report.missing_required_fields.is_empty());
    assert!(report.unstable_field_warnings.is_empty());
    assert_eq!(
        report.recommendations_ru,
        vec!["Структура release/proof артефактов достаточно детерминирована.".to_string()]
    );
    assert_eq!(
        print_determinism_audit(&report),
        "determinism_audit: checked=2 missing=0 full_source_warnings=0 deterministic_enough=true\nrecommendations=Структура release/proof артефактов достаточно детерминирована."
    );
}

#[test]
fn missing_fields_and_source_text_fail_the_audit() {
    let manifest = AuditDocument {
        label: "release:r1:manifest".to_string(),
        kind: DocumentKind::ReleaseManifest,
        value: object(vec![("release_id", text("r1"))]),
    };
    let report = build_determinism_audit(&vec![manifest, proof_document("fn main() {}")], &health(), 9);
    assert!(!report.deterministic_enough);
    assert_eq!(report.missing_required_fields.len(), 11);
    assert!(report
        .missing_required_fields
        .contains(&"release:r1:manifest:created_at".to_string()));
    assert_eq!(
        report.unstable_field_warnings,
        vec!["release:r1:manifest:missing_timestamp".to_string()]
    );
    assert_eq!(
        report.full_source_content_warnings,
        vec!["proof:eva:possible_full_source_content".to_string()]
    );
    let mut sorted = report.missing_required_fields.clone();
    sorted.sort();
    assert_eq!(sorted, report.missing_required_fields);
}
