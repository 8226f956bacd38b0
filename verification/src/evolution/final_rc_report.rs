//! The final release-candidate report.
use vstd::prelude::*;

use crate::contracts::RuntimeValidation;
use crate::evolution::runtime_candidate::RuntimeCandidateManifest;
use crate::text::{
    bool_text, dash_lines, dash_list, decimal, join_or, join_or_strings, or_none, push_bool,
    push_decimal, push_or_none, push_str, views,
};

verus! {

/// What the local operator service declares about itself.
#[derive(Clone, Debug)]
pub struct RuntimeServiceMetadata {
    pub service_name: String,
    pub mode: String,
    pub daemonized: bool,
    pub attach_supported: bool,
    pub watch_supported: bool,
    pub status_supported: bool,
    pub network_required: bool,
    pub network_push_allowed: bool,
    pub external_side_effects: bool,
}

/// Part 1 of the final release-candidate report.
pub open spec fn final_rc_part1(c: RuntimeCandidateManifest, v: RuntimeValidation, sv: RuntimeServiceMetadata, cli_commands: usize) -> Seq<char> {
    "# EVA Runtime v1.0 Candidate Report\n\nRC status: "@ + c.rc_status@ + "\nCurrent branch/head: "@ + c.git_branch@ + " / "@ + c.git_head@ + "\nCompleted phases: "@ + join_or(views(c.completed_phases@), ", "@, "none"@) + "\nPlanned phases: "@ + join_or(views(c.planned_phases@), ", "@, "none"@) + "\n\n## Safety state\n- auto_promote=false\n- operator approval required=true\n- no network push\n- no merge\n- no self-apply\n- no external repo mutation\n- sandbox_leak_count="@ + decimal(c.sandbox_leak_count as nat) + "\n\n## Runtime service metadata\n- service_name="@ + sv.service_name@ + "\n- mode="@ + sv.mode@
}

fn final_rc_text1(c: &RuntimeCandidateManifest, v: &RuntimeValidation, sv: &RuntimeServiceMetadata, cli_commands: usize) -> (s: String)
    ensures
        s@ == final_rc_part1(*c, *v, *sv, cli_commands),
{
    let mut s = String::new();
    push_str(&mut s, "# EVA Runtime v1.0 Candidate Report\n\nRC status: ");
    push_str(&mut s, c.rc_status.as_str());
    push_str(&mut s, "\nCurrent branch/head: ");
    push_str(&mut s, c.git_branch.as_str());
    push_str(&mut s, " / ");
    push_str(&mut s, c.git_head.as_str());
    push_str(&mut s, "\nCompleted phases: ");
    push_str(&mut s, join_or_strings(&c.completed_phases, ", ", "none").as_str());
    push_str(&mut s, "\nPlanned phases: ");
    push_str(&mut s, join_or_strings(&c.planned_phases, ", ", "none").as_str());
    push_str(&mut s, "\n\n## Safety state\n- auto_promote=false\n- operator approval required=true\n- no network push\n- no merge\n- no self-apply\n- no external repo mutation\n- sandbox_leak_count=");
    push_decimal(&mut s, c.sandbox_leak_count as u64);
    push_str(&mut s, "\n\n## Runtime service metadata\n- service_name=");
    push_str(&mut s, sv.service_name.as_str());
    push_str(&mut s, "\n- mode=");
    push_str(&mut s, sv.mode.as_str());
    s
}

/// Part 2 of the final release-candidate report.
pub open spec fn final_rc_part2(c: RuntimeCandidateManifest, v: RuntimeValidation, sv: RuntimeServiceMetadata, cli_commands: usize) -> Seq<char> {
    "\n- daemonized="@ + bool_text(sv.daemonized) + "\n- attach_supported="@ + bool_text(sv.attach_supported) + "\n- watch_supported="@ + bool_text(sv.watch_supported) + "\n- status_supported="@ + bool_text(sv.status_supported) + "\n- network_required="@ + bool_text(sv.network_required) + "\n- network_push_allowed="@ + bool_text(sv.network_push_allowed) + "\n- external_side_effects="@ + bool_text(sv.external_side_effects) + "\n\n## CLI contract summary\n- commands="@ + decimal(cli_commands as nat)
}

fn final_rc_text2(c: &RuntimeCandidateManifest, v: &RuntimeValidation, sv: &RuntimeServiceMetadata, cli_commands: usize) -> (s: String)
    ensures
        s@ == final_rc_part2(*c, *v, *sv, cli_commands),
{
    let mut s = String::new();
    push_str(&mut s, "\n- daemonized=");
    push_bool(&mut s, sv.daemonized);
    push_str(&mut s, "\n- attach_supported=");
    push_bool(&mut s, sv.attach_supported);
    push_str(&mut s, "\n- watch_supported=");
    push_bool(&mut s, sv.watch_supported);
    push_str(&mut s, "\n- status_supported=");
    push_bool(&mut s, sv.status_supported);
    push_str(&mut s, "\n- network_required=");
    push_bool(&mut s, sv.network_required);
    push_str(&mut s, "\n- network_push_allowed=");
    push_bool(&mut s, sv.network_push_allowed);
    push_str(&mut s, "\n- external_side_effects=");
    push_bool(&mut s, sv.external_side_effects);
    push_str(&mut s, "\n\n## CLI contract summary\n- commands=");
    push_decimal(&mut s, cli_commands as u64);
    s
}

/// Part 3 of the final release-candidate report.
pub open spec fn final_rc_part3(c: RuntimeCandidateManifest, v: RuntimeValidation, sv: RuntimeServiceMetadata, cli_commands: usize) -> Seq<char> {
    "\n- metadata_only=true\n\n## Trust and recovery state\n- trust="@ + c.trust_state@ + "\n- preflight_gate_v3="@ + c.preflight_gate_v3_state@ + "\n- latest_evidence_bundle_id="@ + or_none(c.latest_evidence_bundle_id) + "\n- latest_workspace_snapshot_id="@ + or_none(c.latest_workspace_snapshot_id) + "\n- latest_recovery_manifest_id="@ + or_none(c.latest_recovery_manifest_id) + "\n\n## Release and operations state\n- release="@ + c.release_state@ + "\n- operations="@ + c.operations_state@ + "\n- ready_candidates="@ + decimal(c.ready_candidates as nat)
}

fn final_rc_text3(c: &RuntimeCandidateManifest, v: &RuntimeValidation, sv: &RuntimeServiceMetadata, cli_commands: usize) -> (s: String)
    ensures
        s@ == final_rc_part3(*c, *v, *sv, cli_commands),
{
    let mut s = String::new();
    push_str(&mut s, "\n- metadata_only=true\n\n## Trust and recovery state\n- trust=");
    push_str(&mut s, c.trust_state.as_str());
    push_str(&mut s, "\n- preflight_gate_v3=");
    push_str(&mut s, c.preflight_gate_v3_state.as_str());
    push_str(&mut s, "\n- latest_evidence_bundle_id=");
    push_or_none(&mut s, &c.latest_evidence_bundle_id);
    push_str(&mut s, "\n- latest_workspace_snapshot_id=");
    push_or_none(&mut s, &c.latest_workspace_snapshot_id);
    push_str(&mut s, "\n- latest_recovery_manifest_id=");
    push_or_none(&mut s, &c.latest_recovery_manifest_id);
    push_str(&mut s, "\n\n## Release and operations state\n- release=");
    push_str(&mut s, c.release_state.as_str());
    push_str(&mut s, "\n- operations=");
    push_str(&mut s, c.operations_state.as_str());
    push_str(&mut s, "\n- ready_candidates=");
    push_decimal(&mut s, c.ready_candidates as u64);
    s
}

/// Part 4 of the final release-candidate report.
pub open spec fn final_rc_part4(c: RuntimeCandidateManifest, v: RuntimeValidation, sv: RuntimeServiceMetadata, cli_commands: usize) -> Seq<char> {
    "\n- approved_count="@ + decimal(c.approved_count as nat) + "\n- blocked_candidates="@ + decimal(c.blocked_candidates_count as nat) + "\n\n## Validation state\n- status="@ + v.status@ + "\n- blockers="@ + join_or(views(v.blockers@), ", "@, "none"@) + "\n- warnings="@ + join_or(views(v.warnings@), ", "@, "none"@) + "\n- green_conditions="@ + join_or(views(v.green_conditions@), ", "@, "none"@) + "\n- missing_green_conditions="@ + join_or(views(v.missing_green_conditions@), ", "@, "none"@) + "\n- metrics_summary="@ + v.metrics_summary@
}

fn final_rc_text4(c: &RuntimeCandidateManifest, v: &RuntimeValidation, sv: &RuntimeServiceMetadata, cli_commands: usize) -> (s: String)
    ensures
        s@ == final_rc_part4(*c, *v, *sv, cli_commands),
{
    let mut s = String::new();
    push_str(&mut s, "\n- approved_count=");
    push_decimal(&mut s, c.approved_count as u64);
    push_str(&mut s, "\n- blocked_candidates=");
    push_decimal(&mut s, c.blocked_candidates_count as u64);
    push_str(&mut s, "\n\n## Validation state\n- status=");
    push_str(&mut s, v.status.as_str());
    push_str(&mut s, "\n- blockers=");
    push_str(&mut s, join_or_strings(&v.blockers, ", ", "none").as_str());
    push_str(&mut s, "\n- warnings=");
    push_str(&mut s, join_or_strings(&v.warnings, ", ", "none").as_str());
    push_str(&mut s, "\n- green_conditions=");
    push_str(&mut s, join_or_strings(&v.green_conditions, ", ", "none").as_str());
    push_str(&mut s, "\n- missing_green_conditions=");
    push_str(&mut s, join_or_strings(&v.missing_green_conditions, ", ", "none").as_str());
    push_str(&mut s, "\n- metrics_summary=");
    push_str(&mut s, v.metrics_summary.as_str());
    s
}

/// Part 5 of the final release-candidate report.
pub open spec fn final_rc_part5(c: RuntimeCandidateManifest, v: RuntimeValidation, sv: RuntimeServiceMetadata, cli_commands: usize) -> Seq<char> {
    "\n- candidate_queue_summary="@ + v.candidate_queue_summary@ + "\n- sandbox_state="@ + v.sandbox_state@ + "\n\n## Next operator commands\n"@ + dash_lines(views(v.next_actions@)) + "\n"@
}

fn final_rc_text5(c: &RuntimeCandidateManifest, v: &RuntimeValidation, sv: &RuntimeServiceMetadata, cli_commands: usize) -> (s: String)
    ensures
        s@ == final_rc_part5(*c, *v, *sv, cli_commands),
{
    let mut s = String::new();
    push_str(&mut s, "\n- candidate_queue_summary=");
    push_str(&mut s, v.candidate_queue_summary.as_str());
    push_str(&mut s, "\n- sandbox_state=");
    push_str(&mut s, v.sandbox_state.as_str());
    push_str(&mut s, "\n\n## Next operator commands\n");
    push_str(&mut s, dash_list(&v.next_actions).as_str());
    push_str(&mut s, "\n");
    s
}

/// The final release-candidate report in Markdown.
pub open spec fn final_rc_markdown(
    c: RuntimeCandidateManifest,
    v: RuntimeValidation,
    sv: RuntimeServiceMetadata,
    cli_commands: usize,
) -> Seq<char> {
    final_rc_part1(c, v, sv, cli_commands) + final_rc_part2(c, v, sv, cli_commands) + final_rc_part3(c, v, sv, cli_commands) + final_rc_part4(c, v, sv, cli_commands) + final_rc_part5(c, v, sv, cli_commands)
}

/// The final release-candidate report from the runtime candidate, the
/// validation, the service metadata and the number of CLI commands.
pub fn print_final_rc_report(
    c: &RuntimeCandidateManifest,
    v: &RuntimeValidation,
    sv: &RuntimeServiceMetadata,
    cli_commands: usize,
) -> (s: String)
    ensures
        s@ == final_rc_markdown(*c, *v, *sv, cli_commands),
{
    let mut s = String::new();
    push_str(&mut s, final_rc_text1(c, v, sv, cli_commands).as_str());
    push_str(&mut s, final_rc_text2(c, v, sv, cli_commands).as_str());
    push_str(&mut s, final_rc_text3(c, v, sv, cli_commands).as_str());
    push_str(&mut s, final_rc_text4(c, v, sv, cli_commands).as_str());
    push_str(&mut s, final_rc_text5(c, v, sv, cli_commands).as_str());
    s
}

} // verus!
