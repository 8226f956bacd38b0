//! The Russian changelog of a release.
use vstd::prelude::*;

use crate::evolution::release_bundle::{ReleaseBundle, ReleaseManifest, RollbackManifest};
use crate::evolution::release_preflight::ReleasePreflightReport;
use crate::text::{bool_text, dash_lines, dash_list, owned, push_bool, push_str, views};

verus! {

/// A bullet list of the items, or `(none)`.
pub open spec fn bullets(items: Seq<Seq<char>>) -> Seq<char> {
    if items.len() == 0 {
        "(none)"@
    } else {
        dash_lines(items)
    }
}

/// A bullet list of the strings, or `(none)`.
pub fn bullet_list(items: &Vec<String>) -> (r: String)
    ensures
        r@ == bullets(views(items@)),
{
    if items.len() == 0 {
        owned("(none)")
    } else {
        dash_list(items)
    }
}

/// The changelog of a release; `score` and `risk` are the candidate's score
/// and risk as the runtime prints them (two decimals).
pub open spec fn changelog_text(
    b: ReleaseBundle,
    p: ReleasePreflightReport,
    m: ReleaseManifest,
    r: RollbackManifest,
    score: Seq<char>,
    risk: Seq<char>,
) -> Seq<char> {
    "# EVA Release Changelog\n\nrelease_id="@ + b.release_id@ + "\nsource_run_id="@ + b.source_run_id@
        + "\ntarget_file="@ + b.target_file@ + "\nmutation_kind="@ + b.mutation_kind@
        + "\nmutation_class="@ + b.mutation_class@ + "\nscore="@ + score + "\nrisk="@ + risk
        + "\nreplay_status="@ + b.replay_status@ + "\napproval_status="@ + b.approval_status@
        + "\npromotion_queue_state="@ + b.promotion_queue_state@ + "\nallowed="@ + bool_text(p.allowed)
        + "\nreason_ru="@ + p.reason_ru@ + "\n\n## Безопасность\n"@ + bullets(views(b.safety_notes@))
        + "\n\n## Preflight Blockers\n"@ + bullets(views(p.blockers@)) + "\n\n## Manifest\napproved="@
        + bool_text(m.approved) + "\nauto_promote="@ + bool_text(m.auto_promote)
        + "\nsource_mutated="@ + bool_text(m.source_mutated) + "\nrollback_available="@ + bool_text(
        m.rollback_available,
    ) + "\nchangelog_available="@ + bool_text(m.changelog_available) + "\n\n## Rollback\nrollback_type="@
        + r.rollback_type@ + "\nrollback_available="@ + bool_text(r.rollback_available)
        + "\noriginal_candidate_report_path="@ + (match r.original_candidate_report_path {
        Some(path) => path@,
        None => "none"@,
    }) + "\n"@ + bullets(views(r.notes@)) + "\n"@
}

/// The changelog of a release.
pub fn render_release_changelog(
    bundle: &ReleaseBundle,
    preflight: &ReleasePreflightReport,
    manifest: &ReleaseManifest,
    rollback: &RollbackManifest,
    score: &str,
    risk: &str,
) -> (s: String)
    ensures
        s@ == changelog_text(*bundle, *preflight, *manifest, *rollback, score@, risk@),
{
    let mut s = owned("# EVA Release Changelog\n\nrelease_id=");
    push_str(&mut s, bundle.release_id.as_str());
    push_str(&mut s, "\nsource_run_id=");
    push_str(&mut s, bundle.source_run_id.as_str());
    push_str(&mut s, "\ntarget_file=");
    push_str(&mut s, bundle.target_file.as_str());
    push_str(&mut s, "\nmutation_kind=");
    push_str(&mut s, bundle.mutation_kind.as_str());
    push_str(&mut s, "\nmutation_class=");
    push_str(&mut s, bundle.mutation_class.as_str());
    push_str(&mut s, "\nscore=");
    push_str(&mut s, score);
    push_str(&mut s, "\nrisk=");
    push_str(&mut s, risk);
    push_str(&mut s, "\nreplay_status=");
    push_str(&mut s, bundle.replay_status.as_str());
    push_str(&mut s, "\napproval_status=");
    push_str(&mut s, bundle.approval_status.as_str());
    push_str(&mut s, "\npromotion_queue_state=");
    push_str(&mut s, bundle.promotion_queue_state.as_str());
    push_str(&mut s, "\nallowed=");
    push_bool(&mut s, preflight.allowed);
    push_str(&mut s, "\nreason_ru=");
    push_str(&mut s, preflight.reason_ru.as_str());
    push_str(&mut s, "\n\n## Безопасность\n");
    push_str(&mut s, bullet_list(&bundle.safety_notes).as_str());
    push_str(&mut s, "\n\n## Preflight Blockers\n");
    push_str(&mut s, bullet_list(&preflight.blockers).as_str());
    push_str(&mut s, "\n\n## Manifest\napproved=");
    push_bool(&mut s, manifest.approved);
    push_str(&mut s, "\nauto_promote=");
    push_bool(&mut s, manifest.auto_promote);
    push_str(&mut s, "\nsource_mutated=");
    push_bool(&mut s, manifest.source_mutated);
    push_str(&mut s, "\nrollback_available=");
    push_bool(&mut s, manifest.rollback_available);
    push_str(&mut s, "\nchangelog_available=");
    push_bool(&mut s, manifest.changelog_available);
    push_str(&mut s, "\n\n## Rollback\nrollback_type=");
    push_str(&mut s, rollback.rollback_type.as_str());
    push_str(&mut s, "\nrollback_available=");
    push_bool(&mut s, rollback.rollback_available);
    push_str(&mut s, "\noriginal_candidate_report_path=");
    match &rollback.original_candidate_report_path {
        Some(path) => push_str(&mut s, path.as_str()),
        None => push_str(&mut s, "none"),
    }
    push_str(&mut s, "\n");
    push_str(&mut s, bullet_list(&rollback.notes).as_str());
    push_str(&mut s, "\n");
    s
}

/// The report of the last release: the release status line, then its changelog.
pub fn print_last_release(
    status_line: &str,
    bundle: &ReleaseBundle,
    preflight: &ReleasePreflightReport,
    manifest: &ReleaseManifest,
    rollback: &RollbackManifest,
    score: &str,
    risk: &str,
) -> (s: String)
    ensures
        s@ == "# Release Runtime EVA\n\nrelease_status: "@ + status_line@ + "\n\n"@ + changelog_text(
            *bundle,
            *preflight,
            *manifest,
            *rollback,
            score@,
            risk@,
        ) + "\n"@,
{
    let mut s = owned("# Release Runtime EVA\n\nrelease_status: ");
    push_str(&mut s, status_line);
    push_str(&mut s, "\n\n");
    push_str(&mut s, render_release_changelog(bundle, preflight, manifest, rollback, score, risk).as_str());
    push_str(&mut s, "\n");
    s
}

} // verus!
