//! The release bundles on record, and the metadata-only bundle of an approved candidate.
use vstd::prelude::*;

use crate::evolution::release_preflight::{
    release_id_from_preflight, release_id_of, ReleaseCandidateContext, ReleasePreflightReport,
};
use crate::ordering::{sort_ranked, sort_stable, Ranked};
use crate::text::{
    decimal, join, join_strings, owned, push_decimal, push_owned, push_str, seq_lt, str_lt, views,
};

verus! {

/// A release bundle on record: its id and when it was created.
#[derive(Clone, Debug)]
pub struct ReleaseEntry {
    pub release_id: String,
    pub created_at: u64,
}

impl Ranked for ReleaseEntry {
    /// Releases are ordered by creation time, then by id.
    open spec fn before(&self, other: &Self) -> bool {
        self.created_at < other.created_at || (self.created_at == other.created_at && seq_lt(
            self.release_id@,
            other.release_id@,
        ))
    }

    fn is_before(&self, other: &Self) -> (r: bool) {
        self.created_at < other.created_at || (self.created_at == other.created_at && str_lt(
            self.release_id.as_str(),
            other.release_id.as_str(),
        ))
    }

    proof fn lemma_irreflexive(a: &Self) {
        crate::text::lemma_lt_irreflexive(a.release_id@, 0);
    }

    proof fn lemma_transitive(a: &Self, b: &Self, c: &Self) {
        if a.created_at == b.created_at && b.created_at == c.created_at {
            crate::text::lemma_lt_trans(a.release_id@, b.release_id@, c.release_id@, 0);
        }
    }
}

/// The ids of the releases, ordered by creation time and then id.
pub open spec fn release_ids(entries: Seq<ReleaseEntry>) -> Seq<Seq<char>> {
    sort_ranked(entries).map_values(|e: ReleaseEntry| e.release_id@)
}

/// The ids of the releases on record, oldest first (ties by id).
pub fn list_releases(entries: Vec<ReleaseEntry>) -> (r: Vec<String>)
    ensures
        views(r@) == release_ids(entries@),
{
    let sorted = sort_stable(entries);
    let mut r: Vec<String> = Vec::new();
    let mut i: usize = 0;
    while i < sorted.len()
        invariant
            i <= sorted.len(),
            views(r@) == sorted@.take(i as int).map_values(|e: ReleaseEntry| e.release_id@),
        decreases sorted.len() - i,
    {
        let ghost before = views(r@);
        r.push(sorted[i].release_id.clone());
        proof {
            let f = |e: ReleaseEntry| e.release_id@;
            assert(views(r@) =~= before.push(sorted@[i as int].release_id@));
            assert(sorted@.take(i + 1) =~= sorted@.take(i as int).push(sorted@[i as int]));
            assert(sorted@.take(i + 1).map_values(f) =~= sorted@.take(i as int).map_values(f).push(
                f(sorted@[i as int]),
            ));
        }
        i = i + 1;
    }
    assert(sorted@.take(i as int) =~= sorted@);
    r
}

/// The number of releases on record.
pub fn release_count(entries: &Vec<ReleaseEntry>) -> (n: usize)
    ensures
        n == entries@.len(),
{
    entries.len()
}

/// The id of the latest release, if any.
pub open spec fn latest_release(entries: Seq<ReleaseEntry>) -> Option<Seq<char>> {
    if entries.len() == 0 {
        None
    } else {
        Some(sort_ranked(entries).last().release_id@)
    }
}

/// The latest release is one of the releases on record, and no release on
/// record comes after it (by creation time, then id); there is one exactly
/// when some release is on record.
pub proof fn lemma_latest_release_is_last(entries: Seq<ReleaseEntry>)
    ensures
        latest_release(entries) is Some <==> entries.len() > 0,
        entries.len() > 0 ==> exists|k: int|
            0 <= k < entries.len() && latest_release(entries) == Some((#[trigger] entries[k]).release_id@)
                && forall|j: int| 0 <= j < entries.len() ==> !entries[k].before(&#[trigger] entries[j]),
{
    broadcast use vstd::seq_lib::group_to_multiset_ensures;

    if entries.len() > 0 {
        crate::ordering::lemma_sort_ranked(entries);
        let sorted = sort_ranked(entries);
        let n = sorted.len() - 1;
        let last = sorted[n];
        assert(sorted.contains(last));
        assert(sorted.to_multiset().count(last) > 0);
        assert(entries.to_multiset().count(last) > 0);
        assert(entries.contains(last));
        let k = choose|k: int| 0 <= k < entries.len() && entries[k] == last;
        assert forall|j: int| 0 <= j < entries.len() implies !entries[k].before(&#[trigger] entries[j]) by {
            assert(entries.contains(entries[j]));
            assert(entries.to_multiset().count(entries[j]) > 0);
            assert(sorted.to_multiset().count(entries[j]) > 0);
            assert(sorted.contains(entries[j]));
            let i = choose|i: int| 0 <= i < sorted.len() && sorted[i] == entries[j];
            if i < n {
                assert(!sorted[n].before(&sorted[i]));
            } else {
                ReleaseEntry::lemma_irreflexive(&last);
            }
        }
    }
}

/// The id of the latest release (by creation time, then id), if any.
pub fn latest_release_id(entries: Vec<ReleaseEntry>) -> (r: Option<String>)
    ensures
        match r {
            Some(id) => latest_release(entries@) == Some(id@),
            None => latest_release(entries@) is None,
        },
{
    proof {
        crate::ordering::lemma_sort_ranked(entries@);
    }
    let mut sorted = sort_stable(entries);
    match sorted.pop() {
        Some(e) => Some(e.release_id),
        None => None,
    }
}

/// The latest release id, or `none`.
pub open spec fn latest_or_none(entries: Seq<ReleaseEntry>) -> Seq<char> {
    match latest_release(entries) {
        Some(id) => id,
        None => "none"@,
    }
}

/// The id of the latest release, or `none` when there is none.
pub fn latest_release_or_none(entries: Vec<ReleaseEntry>) -> (r: String)
    ensures
        r@ == latest_or_none(entries@),
{
    match latest_release_id(entries) {
        Some(id) => id,
        None => owned("none"),
    }
}

/// The release status line.
pub open spec fn release_status_text(entries: Seq<ReleaseEntry>) -> Seq<char> {
    "releases="@ + decimal(entries.len()) + " latest="@ + latest_or_none(entries)
        + " auto_promote=false approval_required=true"@
}

/// The release status: how many releases, the latest, and that releases are
/// never promoted on their own.
pub fn print_release_status(entries: Vec<ReleaseEntry>) -> (s: String)
    ensures
        s@ == release_status_text(entries@),
{
    let count = entries.len();
    let ghost all = entries@;
    let latest = latest_release_or_none(entries);
    let mut s = owned("releases=");
    push_decimal(&mut s, count as u64);
    push_str(&mut s, " latest=");
    push_str(&mut s, latest.as_str());
    push_str(&mut s, " auto_promote=false approval_required=true");
    s
}

/// Releases are listed oldest first, each once, and the latest release is the
/// last one listed.
pub proof fn lemma_release_listing(entries: Seq<ReleaseEntry>)
    ensures
        release_ids(entries).len() == entries.len(),
        sort_ranked(entries).to_multiset() == entries.to_multiset(),
        forall|i: int, j: int|
            #![trigger sort_ranked(entries)[i], sort_ranked(entries)[j]]
            0 <= i < j < entries.len() ==> sort_ranked(entries)[i].created_at <= sort_ranked(
                entries,
            )[j].created_at,
        entries.len() > 0 ==> latest_release(entries) == Some(
            release_ids(entries)[entries.len() - 1],
        ),
{
    crate::ordering::lemma_sort_ranked(entries);
    let s = sort_ranked(entries);
    assert forall|i: int, j: int|
        #![trigger s[i], s[j]]
        0 <= i < j < entries.len() implies s[i].created_at <= s[j].created_at by {
        assert(!s[j].before(&s[i]));
    }
}

/// Where the files of a release live.
#[derive(Clone, Debug)]
pub struct ReleasePaths {
    pub bundle_path: String,
    pub manifest_path: String,
    pub rollback_path: String,
    pub changelog_path: String,
    pub preflight_report_path: String,
}

/// The manifest of a metadata-only release.
#[derive(Clone, Debug)]
pub struct ReleaseManifest {
    pub release_id: String,
    pub source_run_id: String,
    pub target_file: String,
    pub mutation_kind: String,
    pub mutation_class: String,
    pub replay_status: String,
    pub approved: bool,
    pub auto_promote: bool,
    pub source_mutated: bool,
    pub rollback_available: bool,
    pub changelog_available: bool,
    pub created_at: u64,
}

/// How a release is rolled back.
#[derive(Clone, Debug)]
pub struct RollbackManifest {
    pub release_id: String,
    pub source_run_id: String,
    pub target_file: String,
    pub rollback_type: String,
    pub rollback_available: bool,
    pub original_candidate_report_path: Option<String>,
    pub notes: Vec<String>,
    pub created_at: u64,
}

/// A metadata-only release bundle.
#[derive(Clone, Debug)]
pub struct ReleaseBundle {
    pub release_id: String,
    pub source_run_id: String,
    pub target_file: String,
    pub mutation_kind: String,
    pub mutation_class: String,
    pub replay_status: String,
    pub approval_status: String,
    pub promotion_queue_state: String,
    pub candidate_report_path: Option<String>,
    pub preflight_report_path: String,
    pub release_manifest_path: String,
    pub rollback_manifest_path: String,
    pub changelog_path: String,
    pub candidate_diff_summary: String,
    pub safety_notes: Vec<String>,
    pub created_at: u64,
}

/// The bundle of a release with its manifest and rollback manifest.
#[derive(Clone, Debug)]
pub struct ReleaseArtifacts {
    pub bundle: ReleaseBundle,
    pub manifest: ReleaseManifest,
    pub rollback: RollbackManifest,
}

/// The safety notes of every bundle.
pub open spec fn bundle_safety_notes() -> Seq<Seq<char>> {
    seq![
        "metadata-only release bundle"@,
        "no source mutation performed"@,
        "auto_promote=false"@,
        "operator approval required"@,
        "rollback manifest generated"@,
        "network disabled"@,
    ]
}

/// The notes of every rollback manifest.
pub open spec fn rollback_notes() -> Seq<Seq<char>> {
    seq![
        "metadata-only release bundle"@,
        "no source mutation performed"@,
        "rollback manifest generated"@,
    ]
}

/// The approval status of a candidate: the decision on record, else `missing`.
pub open spec fn approval_status_of(decision: Option<String>) -> Seq<char> {
    match decision {
        Some(d) => d@,
        None => "missing"@,
    }
}

/// The release of a candidate under `release_id`: refused when its preflight
/// is not allowed, naming the blockers; otherwise a metadata-only bundle that
/// never mutates the source, never promotes on its own and can be rolled back.
pub open spec fn bundle_result(
    preflight: ReleasePreflightReport,
    context: ReleaseCandidateContext,
    release_id: Seq<char>,
    paths: ReleasePaths,
    r: Result<ReleaseArtifacts, String>,
) -> bool {
    &&& !preflight.allowed ==> (r matches Err(e) && e@ == "release preflight blocked bundle: "@
        + join(views(preflight.blockers@), ", "@))
    &&& preflight.allowed ==> (r matches Ok(a) && {
            &&& a.bundle.release_id@ == release_id
            &&& a.bundle.source_run_id == context.run_id
            &&& a.bundle.target_file == preflight.target_file
            &&& a.bundle.mutation_kind == preflight.mutation_kind
            &&& a.bundle.mutation_class == preflight.mutation_class
            &&& a.bundle.replay_status == preflight.replay_status
            &&& a.bundle.approval_status@ == approval_status_of(context.approval_decision)
            &&& a.bundle.promotion_queue_state == preflight.promotion_queue_state
            &&& a.bundle.candidate_report_path == context.candidate_report_path
            &&& a.bundle.preflight_report_path == paths.preflight_report_path
            &&& a.bundle.release_manifest_path == paths.manifest_path
            &&& a.bundle.rollback_manifest_path == paths.rollback_path
            &&& a.bundle.changelog_path == paths.changelog_path
            &&& a.bundle.candidate_diff_summary@ == (match context.candidate_diff_summary {
                Some(d) => d@,
                None => "(missing diff)"@,
            })
            &&& views(a.bundle.safety_notes@) == bundle_safety_notes()
            &&& a.bundle.created_at == context.generated_at
            &&& a.manifest.release_id@ == release_id
            &&& a.manifest.source_run_id == context.run_id
            &&& a.manifest.target_file == preflight.target_file
            &&& a.manifest.mutation_kind == preflight.mutation_kind
            &&& a.manifest.mutation_class == preflight.mutation_class
            &&& a.manifest.replay_status == preflight.replay_status
            &&& a.manifest.approved == preflight.approved
            &&& !a.manifest.auto_promote && !a.manifest.source_mutated
            &&& a.manifest.rollback_available && a.manifest.changelog_available
            &&& a.manifest.created_at == context.generated_at
            &&& a.rollback.release_id@ == release_id
            &&& a.rollback.source_run_id == context.run_id
            &&& a.rollback.target_file == preflight.target_file
            &&& a.rollback.rollback_type@ == "metadata_only"@
            &&& a.rollback.rollback_available
            &&& a.rollback.original_candidate_report_path == context.candidate_report_path
            &&& views(a.rollback.notes@) == rollback_notes()
            &&& a.rollback.created_at == context.generated_at
        })
}

/// The release of an approved candidate: refused when its preflight is not
/// allowed, naming the blockers; otherwise a metadata-only bundle that never
/// mutates the source, never promotes on its own and can be rolled back.
pub fn build_release_bundle(
    preflight: &ReleasePreflightReport,
    context: &ReleaseCandidateContext,
    release_id: &str,
    paths: &ReleasePaths,
) -> (r: Result<ReleaseArtifacts, String>)
    ensures
        bundle_result(*preflight, *context, release_id@, *paths, r),
{
    if !preflight.allowed {
        let mut e = owned("release preflight blocked bundle: ");
        push_str(&mut e, join_strings(&preflight.blockers, ", ").as_str());
        return Err(e);
    }
    let manifest = ReleaseManifest {
        release_id: owned(release_id),
        source_run_id: context.run_id.clone(),
        target_file: preflight.target_file.clone(),
        mutation_kind: preflight.mutation_kind.clone(),
        mutation_class: preflight.mutation_class.clone(),
        replay_status: preflight.replay_status.clone(),
        approved: preflight.approved,
        auto_promote: false,
        source_mutated: false,
        rollback_available: true,
        changelog_available: true,
        created_at: context.generated_at,
    };
    let mut rollback_note_list: Vec<String> = Vec::new();
    push_owned(&mut rollback_note_list, "metadata-only release bundle");
    push_owned(&mut rollback_note_list, "no source mutation performed");
    push_owned(&mut rollback_note_list, "rollback manifest generated");
    assert(views(rollback_note_list@) =~= rollback_notes());
    let rollback = RollbackManifest {
        release_id: owned(release_id),
        source_run_id: context.run_id.clone(),
        target_file: preflight.target_file.clone(),
        rollback_type: owned("metadata_only"),
        rollback_available: true,
        original_candidate_report_path: context.candidate_report_path.clone(),
        notes: rollback_note_list,
        created_at: context.generated_at,
    };
    let mut notes: Vec<String> = Vec::new();
    push_owned(&mut notes, "metadata-only release bundle");
    push_owned(&mut notes, "no source mutation performed");
    push_owned(&mut notes, "auto_promote=false");
    push_owned(&mut notes, "operator approval required");
    push_owned(&mut notes, "rollback manifest generated");
    push_owned(&mut notes, "network disabled");
    assert(views(notes@) =~= bundle_safety_notes());
    let approval_status = match &context.approval_decision {
        Some(d) => d.clone(),
        None => owned("missing"),
    };
    let diff = match &context.candidate_diff_summary {
        Some(d) => d.clone(),
        None => owned("(missing diff)"),
    };
    let bundle = ReleaseBundle {
        release_id: owned(release_id),
        source_run_id: context.run_id.clone(),
        target_file: preflight.target_file.clone(),
        mutation_kind: preflight.mutation_kind.clone(),
        mutation_class: preflight.mutation_class.clone(),
        replay_status: preflight.replay_status.clone(),
        approval_status,
        promotion_queue_state: preflight.promotion_queue_state.clone(),
        candidate_report_path: context.candidate_report_path.clone(),
        preflight_report_path: paths.preflight_report_path.clone(),
        release_manifest_path: paths.manifest_path.clone(),
        rollback_manifest_path: paths.rollback_path.clone(),
        changelog_path: paths.changelog_path.clone(),
        candidate_diff_summary: diff,
        safety_notes: notes,
        created_at: context.generated_at,
    };
    Ok(ReleaseArtifacts { bundle, manifest, rollback })
}

/// The release of an approved candidate under the id that its preflight
/// admits, `release_id_of(preflight, score, risk)` (`score` and `risk` as the
/// preflight report writes them): refused, naming the blockers, when the
/// preflight is not allowed; otherwise the metadata-only bundle, manifest and
/// rollback manifest under that id.
pub fn release_from_preflight(
    preflight: &ReleasePreflightReport,
    context: &ReleaseCandidateContext,
    score: &str,
    risk: &str,
    paths: &ReleasePaths,
) -> (r: Result<ReleaseArtifacts, String>)
    ensures
        bundle_result(*preflight, *context, release_id_of(*preflight, score@, risk@), *paths, r),
        r matches Ok(a) ==> a.bundle.release_id@ == release_id_of(*preflight, score@, risk@),
{
    let release_id = release_id_from_preflight(preflight, score, risk);
    build_release_bundle(preflight, context, release_id.as_str(), paths)
}

} // verus!
