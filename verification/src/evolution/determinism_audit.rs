//! The determinism audit: release and proof documents carry their required
//! fields and timestamps, and no source text or network address.
use vstd::prelude::*;

use crate::contracts::{DeterminismAuditReport, ReleaseHealthReport};
use crate::text::{
    ascii_lower, ascii_lowercase, contains, decimal, flag, has_infix, join, join_strings, owned,
    push_decimal, push_owned, push_str, sort_dedup, str_eq, strictly_sorted, views,
};

verus! {

/// A JSON document as the audit reads it.
pub enum JsonValue {
    Null,
    Bool(bool),
    Number,
    Text(String),
    Array(Vec<JsonValue>),
    Object(Vec<(String, JsonValue)>),
}

/// The warnings that one text value raises: source code, or a network address.
pub open spec fn text_markers(label: Seq<char>, t: Seq<char>) -> Seq<Seq<char>> {
    let lower = t.map_values(|c: char| ascii_lower(c));
    flag(
        has_infix(lower, "fn main("@) || has_infix(lower, "pub fn "@) || has_infix(lower, "impl "@)
            || has_infix(lower, "use std::"@),
        label + ":possible_full_source_content"@,
    ) + flag(
        has_infix(lower, "http://"@) || has_infix(lower, "https://"@) || has_infix(
            lower,
            "github.com"@,
        ),
        label + ":network_url_marker"@,
    )
}

/// The warnings that the text values anywhere in a document raise, in document order.
pub open spec fn value_markers(label: Seq<char>, v: JsonValue) -> Seq<Seq<char>>
    decreases v, 1nat,
{
    match v {
        JsonValue::Text(t) => text_markers(label, t@),
        JsonValue::Array(items) => items_markers(label, items@),
        JsonValue::Object(entries) => entries_markers(label, entries@),
        _ => Seq::empty(),
    }
}

/// The warnings of a sequence of values, in order.
pub open spec fn items_markers(label: Seq<char>, s: Seq<JsonValue>) -> Seq<Seq<char>>
    decreases s, 0nat,
{
    if s.len() == 0 {
        Seq::empty()
    } else {
        items_markers(label, s.drop_last()) + value_markers(label, s.last())
    }
}

/// The warnings of the values of a sequence of entries, in order.
pub open spec fn entries_markers(label: Seq<char>, s: Seq<(String, JsonValue)>) -> Seq<Seq<char>>
    decreases s, 0nat,
{
    if s.len() == 0 {
        Seq::empty()
    } else {
        entries_markers(label, s.drop_last()) + value_markers(label, s.last().1)
    }
}

fn push_marker(out: &mut Vec<String>, c: bool, label: &str, suffix: &str)
    ensures
        views(final(out)@) == views(old(out)@) + flag(c, label@ + suffix@),
{
    let ghost before = views(out@);
    if c {
        let mut w = owned(label);
        push_str(&mut w, suffix);
        out.push(w);
    }
    assert(views(out@) =~= before + flag(c, label@ + suffix@));
}

fn collect_text_markers(label: &str, t: &str, out: &mut Vec<String>)
    ensures
        views(final(out)@) == views(old(out)@) + text_markers(label@, t@),
{
    let lower = ascii_lowercase(t);
    let l = lower.as_str();
    let source = contains(l, "fn main(") || contains(l, "pub fn ") || contains(l, "impl ")
        || contains(l, "use std::");
    let network = contains(l, "http://") || contains(l, "https://") || contains(l, "github.com");
    let ghost before = views(out@);
    push_marker(out, source, label, ":possible_full_source_content");
    push_marker(out, network, label, ":network_url_marker");
    assert(views(out@) =~= before + text_markers(label@, t@));
}

/// Appends the warnings that the text values anywhere in `v` raise.
pub fn collect_markers(label: &str, v: &JsonValue, out: &mut Vec<String>)
    ensures
        views(final(out)@) == views(old(out)@) + value_markers(label@, *v),
    decreases v,
{
    let ghost before = views(out@);
    match v {
        JsonValue::Text(t) => collect_text_markers(label, t.as_str(), out),
        JsonValue::Array(items) => {
            let mut i: usize = 0;
            while i < items.len()
                invariant
                    i <= items.len(),
                    *v == JsonValue::Array(*items),
                    views(out@) == before + items_markers(label@, items@.take(i as int)),
                decreases items.len() - i,
            {
                assert(items@.take(i + 1).drop_last() =~= items@.take(i as int));
                assert(items@.take(i + 1).last() == items@[i as int]);
                proof {
                    assert(decreases_to!(*v => v->Array_0));
                    assert(decreases_to!(*items => items@));
                    assert(decreases_to!(items@ => items@[i as int]));
                    assert(decreases_to!(*v => items@[i as int]));
                }
                let ghost mid = views(out@);
                collect_markers(label, &items[i], out);
                assert(views(out@) =~= before + items_markers(label@, items@.take(i + 1)));
                i = i + 1;
            }
            assert(items@.take(i as int) =~= items@);
        },
        JsonValue::Object(entries) => {
            let mut i: usize = 0;
            while i < entries.len()
                invariant
                    i <= entries.len(),
                    *v == JsonValue::Object(*entries),
                    views(out@) == before + entries_markers(label@, entries@.take(i as int)),
                decreases entries.len() - i,
            {
                assert(entries@.take(i + 1).drop_last() =~= entries@.take(i as int));
                assert(entries@.take(i + 1).last() == entries@[i as int]);
                proof {
                    assert(decreases_to!(*v => v->Object_0));
                    assert(decreases_to!(*entries => entries@));
                    assert(decreases_to!(entries@ => entries@[i as int]));
                    assert(decreases_to!(entries@[i as int] => entries@[i as int].1));
                    assert(decreases_to!(*v => entries@[i as int].1));
                }
                collect_markers(label, &entries[i].1, out);
                assert(views(out@) =~= before + entries_markers(label@, entries@.take(i + 1)));
                i = i + 1;
            }
            assert(entries@.take(i as int) =~= entries@);
        },
        _ => {
            assert(views(out@) =~= before + value_markers(label@, *v));
        },
    }
}

/// The kinds of documents the audit inspects.
#[derive(Clone, Copy, Debug, PartialEq, Eq, Structural)]
pub enum DocumentKind {
    ReleaseManifest,
    RollbackManifest,
    ProofReport,
}

/// A document to audit: where it was read from, what it is, and its value.
pub struct AuditDocument {
    pub label: String,
    pub kind: DocumentKind,
    pub value: JsonValue,
}

/// The fields that a document of each kind must carry.
pub open spec fn required_fields_of(kind: DocumentKind) -> Seq<Seq<char>> {
    match kind {
        DocumentKind::ReleaseManifest => seq![
            "release_id"@,
            "source_run_id"@,
            "target_file"@,
            "mutation_kind"@,
            "mutation_class"@,
            "replay_status"@,
            "approved"@,
            "auto_promote"@,
            "source_mutated"@,
            "rollback_available"@,
            "changelog_available"@,
            "created_at"@,
        ],
        DocumentKind::RollbackManifest => seq![
            "release_id"@,
            "source_run_id"@,
            "target_file"@,
            "rollback_type"@,
            "rollback_available"@,
            "original_candidate_report_path"@,
            "notes"@,
            "created_at"@,
        ],
        DocumentKind::ProofReport => seq![
            "generated_at"@,
            "release_runtime_support"@,
            "auto_promote"@,
            "operator_approval_required"@,
        ],
    }
}

/// The fields that a document of each kind must carry.
pub fn required_fields(kind: DocumentKind) -> (r: Vec<&'static str>)
    ensures
        r@.len() == required_fields_of(kind).len(),
        forall|i: int| 0 <= i < r@.len() ==> (#[trigger] r@[i])@ == required_fields_of(kind)[i],
{
    match kind {
        DocumentKind::ReleaseManifest => vec![
            "release_id",
            "source_run_id",
            "target_file",
            "mutation_kind",
            "mutation_class",
            "replay_status",
            "approved",
            "auto_promote",
            "source_mutated",
            "rollback_available",
            "changelog_available",
            "created_at",
        ],
        DocumentKind::RollbackManifest => vec![
            "release_id",
            "source_run_id",
            "target_file",
            "rollback_type",
            "rollback_available",
            "original_candidate_report_path",
            "notes",
            "created_at",
        ],
        DocumentKind::ProofReport => vec![
            "generated_at",
            "release_runtime_support",
            "auto_promote",
            "operator_approval_required",
        ],
    }
}

/// The document is an object with the field `f`.
pub open spec fn has_field(v: JsonValue, f: Seq<char>) -> bool {
    match v {
        JsonValue::Object(entries) => exists|i: int|
            0 <= i < entries@.len() && (#[trigger] entries@[i]).0@ == f,
        _ => false,
    }
}

/// Whether the document is an object with the field `f`.
pub fn json_has_field(v: &JsonValue, f: &str) -> (r: bool)
    ensures
        r == has_field(*v, f@),
{
    match v {
        JsonValue::Object(entries) => {
            let mut i: usize = 0;
            while i < entries.len()
                invariant
                    i <= entries.len(),
                    *v == JsonValue::Object(*entries),
                    forall|k: int| 0 <= k < i ==> (#[trigger] entries@[k]).0@ != f@,
                decreases entries.len() - i,
            {
                if str_eq(entries[i].0.as_str(), f) {
                    assert((entries@[i as int]).0@ == f@);
                    assert(v->Object_0 == *entries);
                    assert(has_field(*v, f@));
                    return true;
                }
                i = i + 1;
            }
            false
        },
        _ => false,
    }
}

/// `label:field` for each of `fields` that the document lacks, in order.
pub open spec fn missing_of(label: Seq<char>, v: JsonValue, fields: Seq<Seq<char>>) -> Seq<Seq<char>>
    decreases fields.len(),
{
    if fields.len() == 0 {
        Seq::empty()
    } else {
        missing_of(label, v, fields.drop_last()) + flag(
            !has_field(v, fields.last()),
            label + ":"@ + fields.last(),
        )
    }
}

/// The missing fields of a document.
pub open spec fn doc_missing(d: AuditDocument) -> Seq<Seq<char>> {
    missing_of(d.label@, d.value, required_fields_of(d.kind))
}

/// The timestamp warning of a document without `created_at` or `generated_at`.
pub open spec fn doc_unstable(d: AuditDocument) -> Seq<Seq<char>> {
    flag(
        !has_field(d.value, "created_at"@) && !has_field(d.value, "generated_at"@),
        d.label@ + ":missing_timestamp"@,
    )
}

/// The source and network warnings of a document.
pub open spec fn doc_markers(d: AuditDocument) -> Seq<Seq<char>> {
    value_markers(d.label@, d.value)
}

/// The label of a document, as a one-element list.
pub open spec fn doc_label(d: AuditDocument) -> Seq<Seq<char>> {
    seq![d.label@]
}

/// `f` of each document, concatenated in order.
pub open spec fn over_docs(docs: Seq<AuditDocument>, f: spec_fn(AuditDocument) -> Seq<Seq<char>>) -> Seq<Seq<char>>
    decreases docs.len(),
{
    if docs.len() == 0 {
        Seq::empty()
    } else {
        over_docs(docs.drop_last(), f) + f(docs.last())
    }
}

/// The audit lists before sorting: checked documents, missing fields,
/// timestamp warnings and source warnings.
pub struct AuditLists {
    pub checked: Vec<String>,
    pub missing: Vec<String>,
    pub unstable: Vec<String>,
    pub markers: Vec<String>,
}

fn inspect_document(d: &AuditDocument, lists: &mut AuditLists)
    ensures
        views(final(lists).checked@) == views(old(lists).checked@) + doc_label(*d),
        views(final(lists).missing@) == views(old(lists).missing@) + doc_missing(*d),
        views(final(lists).unstable@) == views(old(lists).unstable@) + doc_unstable(*d),
        views(final(lists).markers@) == views(old(lists).markers@) + doc_markers(*d),
{
    let label = d.label.as_str();
    let ghost c0 = views(lists.checked@);
    lists.checked.push(d.label.clone());
    assert(views(lists.checked@) =~= c0 + doc_label(*d));
    let fields = required_fields(d.kind);
    let ghost m0 = views(lists.missing@);
    let ghost fs = required_fields_of(d.kind);
    let ghost checked = lists.checked;
    let ghost unstable = lists.unstable;
    let ghost markers = lists.markers;
    let mut i: usize = 0;
    while i < fields.len()
        invariant
            i <= fields.len(),
            fields@.len() == fs.len(),
            fs == required_fields_of(d.kind),
            forall|k: int| 0 <= k < fields@.len() ==> (#[trigger] fields@[k])@ == fs[k],
            views(lists.missing@) == m0 + missing_of(d.label@, d.value, fs.take(i as int)),
            lists.checked == checked,
            label@ == d.label@,
            lists.unstable == unstable,
            lists.markers == markers,
        decreases fields.len() - i,
    {
        assert(fs.take(i + 1).drop_last() =~= fs.take(i as int));
        assert(fs.take(i + 1).last() == fields@[i as int]@);
        let present = json_has_field(&d.value, fields[i]);
        let ghost before = views(lists.missing@);
        if !present {
            let mut w = owned(label);
            push_str(&mut w, ":");
            push_str(&mut w, fields[i]);
            assert(w@ == d.label@ + ":"@ + fields@[i as int]@);
            let ghost wv = w@;
            lists.missing.push(w);
            assert(views(lists.missing@) =~= before.push(wv));
            assert(views(lists.missing@) =~= before + flag(!present, d.label@ + ":"@ + fields@[i as int]@));
        } else {
            assert(views(lists.missing@) =~= before + flag(!present, d.label@ + ":"@ + fields@[i as int]@));
        }
        i = i + 1;
    }
    assert(fs.take(i as int) =~= fs);
    let timestamp = json_has_field(&d.value, "created_at") || json_has_field(&d.value, "generated_at");
    push_marker(&mut lists.unstable, !timestamp, label, ":missing_timestamp");
    collect_markers(label, &d.value, &mut lists.markers);
}

/// The warnings that a list of text values raises, in order.
pub open spec fn strings_markers(label: Seq<char>, s: Seq<Seq<char>>) -> Seq<Seq<char>>
    decreases s.len(),
{
    if s.len() == 0 {
        Seq::empty()
    } else {
        strings_markers(label, s.drop_last()) + text_markers(label, s.last())
    }
}

/// The label of the release health document.
pub open spec fn health_label() -> Seq<char> {
    "release_health:runtime"@
}

/// The warnings that the text values of the release health raise.
pub open spec fn health_markers(h: ReleaseHealthReport) -> Seq<Seq<char>> {
    (match h.latest_release_id {
        Some(id) => text_markers(health_label(), id@),
        None => Seq::empty(),
    }) + text_markers(health_label(), h.health_grade@) + strings_markers(
        health_label(),
        views(h.blockers@),
    ) + strings_markers(health_label(), views(h.recommendations_ru@))
}

fn collect_strings_markers(label: &str, v: &Vec<String>, out: &mut Vec<String>)
    ensures
        views(final(out)@) == views(old(out)@) + strings_markers(label@, views(v@)),
{
    let ghost before = views(out@);
    let mut i: usize = 0;
    while i < v.len()
        invariant
            i <= v.len(),
            views(out@) == before + strings_markers(label@, views(v@).take(i as int)),
        decreases v.len() - i,
    {
        assert(views(v@).take(i + 1).drop_last() =~= views(v@).take(i as int));
        assert(views(v@).take(i + 1).last() == v@[i as int]@);
        collect_text_markers(label, v[i].as_str(), out);
        assert(views(out@) =~= before + strings_markers(label@, views(v@).take(i + 1)));
        i = i + 1;
    }
    assert(views(v@).take(i as int) =~= views(v@));
}

/// The recommendation of the audit.
pub open spec fn audit_recommendation(deterministic_enough: bool) -> Seq<char> {
    if deterministic_enough {
        "Структура release/proof артефактов достаточно детерминирована."@
    } else {
        "Исправить missing/full-source предупреждения перед release gate."@
    }
}

/// The determinism audit of the documents and the release health: each list
/// sorted and without repeats; deterministic enough when no field is missing
/// and no document holds source text or a network address.
pub fn build_determinism_audit(
    documents: &Vec<AuditDocument>,
    health: &ReleaseHealthReport,
    generated_at: u64,
) -> (r: DeterminismAuditReport)
    ensures
        ({
            let d = documents@;
            let checked = over_docs(d, |x: AuditDocument| doc_label(x)).push(health_label());
            let missing = over_docs(d, |x: AuditDocument| doc_missing(x));
            let unstable = over_docs(d, |x: AuditDocument| doc_unstable(x));
            let markers = over_docs(d, |x: AuditDocument| doc_markers(x)) + health_markers(*health);
            &&& strictly_sorted(views(r.checked_documents@))
            &&& views(r.checked_documents@).to_set() == checked.to_set()
            &&& strictly_sorted(views(r.missing_required_fields@))
            &&& views(r.missing_required_fields@).to_set() == missing.to_set()
            &&& strictly_sorted(views(r.unstable_field_warnings@))
            &&& views(r.unstable_field_warnings@).to_set() == unstable.to_set()
            &&& strictly_sorted(views(r.full_source_content_warnings@))
            &&& views(r.full_source_content_warnings@).to_set() == markers.to_set()
            &&& r.deterministic_enough == (missing.len() == 0 && markers.len() == 0)
            &&& views(r.recommendations_ru@) == seq![audit_recommendation(r.deterministic_enough)]
            &&& r.generated_at == generated_at
        }),
{
    let mut lists = AuditLists {
        checked: Vec::new(),
        missing: Vec::new(),
        unstable: Vec::new(),
        markers: Vec::new(),
    };
    let ghost d = documents@;
    let ghost fl = |x: AuditDocument| doc_label(x);
    let ghost fm = |x: AuditDocument| doc_missing(x);
    let ghost fu = |x: AuditDocument| doc_unstable(x);
    let ghost fk = |x: AuditDocument| doc_markers(x);
    let mut i: usize = 0;
    while i < documents.len()
        invariant
            i <= documents.len(),
            d == documents@,
            fl == (|x: AuditDocument| doc_label(x)),
            fm == (|x: AuditDocument| doc_missing(x)),
            fu == (|x: AuditDocument| doc_unstable(x)),
            fk == (|x: AuditDocument| doc_markers(x)),
            views(lists.checked@) == over_docs(d.take(i as int), fl),
            views(lists.missing@) == over_docs(d.take(i as int), fm),
            views(lists.unstable@) == over_docs(d.take(i as int), fu),
            views(lists.markers@) == over_docs(d.take(i as int), fk),
        decreases documents.len() - i,
    {
        assert(d.take(i + 1).drop_last() =~= d.take(i as int));
        assert(d.take(i + 1).last() == d[i as int]);
        inspect_document(&documents[i], &mut lists);
        i = i + 1;
    }
    assert(d.take(i as int) =~= d);
    let ghost c0 = views(lists.checked@);
    push_owned(&mut lists.checked, "release_health:runtime");
    let label = "release_health:runtime";
    let ghost k0 = views(lists.markers@);
    match &health.latest_release_id {
        Some(id) => collect_text_markers(label, id.as_str(), &mut lists.markers),
        None => {},
    }
    let ghost k1 = views(lists.markers@);
    collect_text_markers(label, health.health_grade.as_str(), &mut lists.markers);
    collect_strings_markers(label, &health.blockers, &mut lists.markers);
    collect_strings_markers(label, &health.recommendations_ru, &mut lists.markers);
    assert(k1 =~= k0 + (match health.latest_release_id {
        Some(id) => text_markers(health_label(), id@),
        None => Seq::empty(),
    }));
    assert(views(lists.markers@) =~= k0 + health_markers(*health));
    assert(views(lists.checked@) =~= over_docs(d, fl).push(health_label()));
    let deterministic_enough = lists.missing.len() == 0 && lists.markers.len() == 0;
    let mut recommendations_ru: Vec<String> = Vec::new();
    push_owned(
        &mut recommendations_ru,
        if deterministic_enough {
            "Структура release/proof артефактов достаточно детерминирована."
        } else {
            "Исправить missing/full-source предупреждения перед release gate."
        },
    );
    assert(views(recommendations_ru@) =~= seq![audit_recommendation(deterministic_enough)]);
    let AuditLists { checked, missing, unstable, markers } = lists;
    DeterminismAuditReport {
        generated_at,
        checked_documents: sort_dedup(checked),
        missing_required_fields: sort_dedup(missing),
        unstable_field_warnings: sort_dedup(unstable),
        full_source_content_warnings: sort_dedup(markers),
        deterministic_enough,
        recommendations_ru,
    }
}

/// The one-line summary of a determinism audit and its recommendations.
pub open spec fn determinism_summary(r: DeterminismAuditReport) -> Seq<char> {
    "determinism_audit: checked="@ + decimal(r.checked_documents.len() as nat) + " missing="@
        + decimal(r.missing_required_fields.len() as nat) + " full_source_warnings="@ + decimal(
        r.full_source_content_warnings.len() as nat,
    ) + " deterministic_enough="@ + crate::text::bool_text(r.deterministic_enough)
        + "\nrecommendations="@ + join(views(r.recommendations_ru@), "; "@)
}

/// The summary of a determinism audit.
pub fn print_determinism_audit(report: &DeterminismAuditReport) -> (s: String)
    ensures
        s@ == determinism_summary(*report),
{
    let mut s = owned("determinism_audit: checked=");
    push_decimal(&mut s, report.checked_documents.len() as u64);
    push_str(&mut s, " missing=");
    push_decimal(&mut s, report.missing_required_fields.len() as u64);
    push_str(&mut s, " full_source_warnings=");
    push_decimal(&mut s, report.full_source_content_warnings.len() as u64);
    push_str(&mut s, " deterministic_enough=");
    crate::text::push_bool(&mut s, report.deterministic_enough);
    push_str(&mut s, "\nrecommendations=");
    push_str(&mut s, join_strings(&report.recommendations_ru, "; ").as_str());
    s
}

} // verus!
