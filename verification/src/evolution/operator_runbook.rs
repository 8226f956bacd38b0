//! The operator runbook: where the release stands and the next safe command.
use vstd::prelude::*;

use crate::contracts::{PreflightGateReport, ReleaseHealthReport};
use crate::evolution::future_phase::{future_listing, print_future_phases};
use crate::text::{decimal, join, join_strings, owned, push_decimal, push_str, str_eq, views};

verus! {

/// The next safe command for a preflight gate status.
pub open spec fn next_command(gate_status: Seq<char>) -> Seq<char> {
    if gate_status == "pass"@ {
        "cargo run -- --release-status"@
    } else if gate_status == "warn"@ {
        "cargo run -- --promotion-queue"@
    } else {
        "cargo run -- --artifact-audit"@
    }
}

/// The runbook text.
pub open spec fn runbook_text(
    h: ReleaseHealthReport,
    g: PreflightGateReport,
    latest_release: Seq<char>,
) -> Seq<char> {
    let safe = g.gate_status@ == "pass"@;
    "# EVA Operator Runbook\n\nСтатус: release_health="@ + h.health_grade@ + " score="@ + decimal(
        h.health_score as nat,
    ) + " preflight_gate="@ + g.gate_status@ + " latest_release="@ + latest_release
        + "\nБезопасность release: "@ + (if safe {
        "да, metadata-only"@
    } else {
        "нет или требуется операторская подготовка"@
    }) + "\nСледующая команда: "@ + next_command(g.gate_status@) + "\nBlockers: "@ + (if g.blockers.len()
        == 0 {
        "none"@
    } else {
        join(views(g.blockers@), ", "@)
    }) + "\nFuture phases allowed_now=false:\n"@ + future_listing()
        + "\n\nНапоминание: auto_promote=false, operator approval обязателен."@
}

/// The operator runbook from the release health, the preflight gate and the
/// latest release (its id, or `none`).
pub fn print_operator_runbook(
    health: &ReleaseHealthReport,
    gate: &PreflightGateReport,
    latest_release: &str,
) -> (s: String)
    ensures
        s@ == runbook_text(*health, *gate, latest_release@),
{
    let safe = str_eq(gate.gate_status.as_str(), "pass");
    let next = if safe {
        "cargo run -- --release-status"
    } else if str_eq(gate.gate_status.as_str(), "warn") {
        "cargo run -- --promotion-queue"
    } else {
        "cargo run -- --artifact-audit"
    };
    let mut s = owned("# EVA Operator Runbook\n\nСтатус: release_health=");
    push_str(&mut s, health.health_grade.as_str());
    push_str(&mut s, " score=");
    push_decimal(&mut s, health.health_score as u64);
    push_str(&mut s, " preflight_gate=");
    push_str(&mut s, gate.gate_status.as_str());
    push_str(&mut s, " latest_release=");
    push_str(&mut s, latest_release);
    push_str(&mut s, "\nБезопасность release: ");
    push_str(
        &mut s,
        if safe {
            "да, metadata-only"
        } else {
            "нет или требуется операторская подготовка"
        },
    );
    push_str(&mut s, "\nСледующая команда: ");
    push_str(&mut s, next);
    push_str(&mut s, "\nBlockers: ");
    if gate.blockers.len() == 0 {
        push_str(&mut s, "none");
    } else {
        push_str(&mut s, join_strings(&gate.blockers, ", ").as_str());
    }
    push_str(&mut s, "\nFuture phases allowed_now=false:\n");
    push_str(&mut s, print_future_phases().as_str());
    push_str(&mut s, "\n\nНапоминание: auto_promote=false, operator approval обязателен.");
    s
}

} // verus!
