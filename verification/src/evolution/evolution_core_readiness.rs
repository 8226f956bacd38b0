//! Readiness of the evolution core: what must hold before the next phase opens.
use vstd::prelude::*;

use crate::contracts::{EvolutionCoreReadiness, RuntimeValidation};
use crate::text::{flag, owned, push_if, push_str, str_eq, views};

verus! {

/// The blockers of core readiness, in the order they are checked.
pub open spec fn readiness_blockers(v: RuntimeValidation, release_exists: bool) -> Seq<Seq<char>> {
    flag(v.status@ != "green"@, "runtime_validation_status="@ + v.status@) + flag(
        v.approved_release_candidate is None,
        "approved_release_candidate_missing"@,
    ) + flag(!release_exists, "release_bundle_missing"@)
}

/// The readiness of the evolution core from the runtime validation and
/// whether a release is recorded; a release bundle exists when the
/// validation names one or a release is recorded.
pub fn build_evolution_core_readiness(
    validation: &RuntimeValidation,
    latest_release_exists: bool,
) -> (r: EvolutionCoreReadiness)
    ensures
        r.runtime_green == (validation.status@ == "green"@),
        r.approved_release_candidate == (validation.approved_release_candidate is Some),
        r.release_bundle_exists == (validation.release_bundle is Some || latest_release_exists),
        r.tui_hydration_ok,
        r.metrics_truth_ok == (validation.metrics_summary@.len() > 0),
        r.candidate_queue_truth_ok == (validation.candidate_queue_summary@.len() > 0),
        r.phase_16_allowed == r.runtime_green,
        views(r.blockers@) == readiness_blockers(
            *validation,
            validation.release_bundle is Some || latest_release_exists,
        ),
{
    let runtime_green = str_eq(validation.status.as_str(), "green");
    let approved = validation.approved_release_candidate.is_some();
    let release_bundle_exists = validation.release_bundle.is_some() || latest_release_exists;
    let mut blockers: Vec<String> = Vec::new();
    let ghost before = views(blockers@);
    if !runtime_green {
        let mut b = owned("runtime_validation_status=");
        push_str(&mut b, validation.status.as_str());
        blockers.push(b);
    }
    assert(views(blockers@) =~= before + flag(
        validation.status@ != "green"@,
        "runtime_validation_status="@ + validation.status@,
    ));
    push_if(&mut blockers, !approved, "approved_release_candidate_missing");
    push_if(&mut blockers, !release_bundle_exists, "release_bundle_missing");
    EvolutionCoreReadiness {
        runtime_green,
        approved_release_candidate: approved,
        release_bundle_exists,
        tui_hydration_ok: true,
        metrics_truth_ok: validation.metrics_summary.as_str().unicode_len() > 0,
        candidate_queue_truth_ok: validation.candidate_queue_summary.as_str().unicode_len() > 0,
        phase_16_allowed: runtime_green,
        blockers,
    }
}

/// The core is ready for the next phase exactly when nothing blocks it:
/// a green validation, an approved candidate and a release bundle.
pub proof fn lemma_core_ready_iff_unblocked(v: RuntimeValidation, release_exists: bool)
    ensures
        readiness_blockers(v, release_exists).len() == 0 <==> (v.status@ == "green"@
            && v.approved_release_candidate is Some && release_exists),
{
}

} // verus!
