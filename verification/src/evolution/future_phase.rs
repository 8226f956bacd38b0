//! The registry of future phases: all planned, none allowed now.
use vstd::prelude::*;

use crate::contracts::{FuturePhaseEntry, FuturePhaseRegistry};
use crate::text::{bool_text, join, owned, push_bool, push_str, views};

verus! {

/// The future phases: phase, name and the reason each waits, in order.
pub open spec fn future_phases() -> Seq<(Seq<char>, Seq<char>, Seq<char>)> {
    seq![
        ("10.0"@, "CI/PR Integration Runtime"@, "requires stable local release gate first"@),
        (
            "11.0"@,
            "Daemonized Operator Service"@,
            "requires release health and artifact audit stability"@,
        ),
        (
            "12.0"@,
            "External Repository Patch Pipeline"@,
            "requires stronger sandbox and rollback proofs"@,
        ),
        (
            "13.0"@,
            "Controlled Self-Modification Review Runtime"@,
            "requires governance, release, rollback, and reproducibility guarantees"@,
        ),
    ]
}

/// A planned phase that is not allowed now.
pub open spec fn is_planned_phase(e: FuturePhaseEntry, p: (Seq<char>, Seq<char>, Seq<char>)) -> bool {
    &&& e.phase@ == p.0
    &&& e.name@ == p.1
    &&& e.status@ == "planned"@
    &&& !e.allowed_now
    &&& e.reason@ == p.2
}

fn planned(phase: &str, name: &str, reason: &str) -> (e: FuturePhaseEntry)
    ensures
        is_planned_phase(e, (phase@, name@, reason@)),
{
    FuturePhaseEntry {
        phase: owned(phase),
        name: owned(name),
        status: owned("planned"),
        allowed_now: false,
        reason: owned(reason),
    }
}

/// The registry of future phases, stamped with `generated_at`.
pub fn build_future_phase_registry(generated_at: u64) -> (r: FuturePhaseRegistry)
    ensures
        r.generated_at == generated_at,
        r.entries@.len() == future_phases().len(),
        forall|i: int|
            0 <= i < future_phases().len() ==> is_planned_phase(
                #[trigger] r.entries@[i],
                future_phases()[i],
            ),
{
    let entries = vec![
        planned("10.0", "CI/PR Integration Runtime", "requires stable local release gate first"),
        planned(
            "11.0",
            "Daemonized Operator Service",
            "requires release health and artifact audit stability",
        ),
        planned(
            "12.0",
            "External Repository Patch Pipeline",
            "requires stronger sandbox and rollback proofs",
        ),
        planned(
            "13.0",
            "Controlled Self-Modification Review Runtime",
            "requires governance, release, rollback, and reproducibility guarantees",
        ),
    ];
    FuturePhaseRegistry { generated_at, entries }
}

/// One line of the future phase listing.
pub open spec fn phase_line(e: FuturePhaseEntry) -> Seq<char> {
    "Phase "@ + e.phase@ + ": "@ + e.name@ + " status="@ + e.status@ + " allowed_now="@
        + bool_text(e.allowed_now) + " reason="@ + e.reason@
}

/// The listing of a registry, one line per phase.
pub open spec fn phases_listing(r: FuturePhaseRegistry) -> Seq<char> {
    join(r.entries@.map_values(|e: FuturePhaseEntry| phase_line(e)), "\n"@)
}

/// The listing of a registry, one line per phase.
pub fn render_future_phases(registry: &FuturePhaseRegistry) -> (s: String)
    ensures
        s@ == phases_listing(*registry),
{
    let mut lines: Vec<String> = Vec::new();
    let mut i: usize = 0;
    while i < registry.entries.len()
        invariant
            i <= registry.entries.len(),
            views(lines@) == registry.entries@.take(i as int).map_values(
                |e: FuturePhaseEntry| phase_line(e),
            ),
        decreases registry.entries.len() - i,
    {
        let e = &registry.entries[i];
        let mut line = owned("Phase ");
        push_str(&mut line, e.phase.as_str());
        push_str(&mut line, ": ");
        push_str(&mut line, e.name.as_str());
        push_str(&mut line, " status=");
        push_str(&mut line, e.status.as_str());
        push_str(&mut line, " allowed_now=");
        push_bool(&mut line, e.allowed_now);
        push_str(&mut line, " reason=");
        push_str(&mut line, e.reason.as_str());
        let ghost before = views(lines@);
        let ghost lv = line@;
        lines.push(line);
        proof {
            let f = |e: FuturePhaseEntry| phase_line(e);
            assert(views(lines@) =~= before.push(lv));
            assert(registry.entries@.take(i + 1) =~= registry.entries@.take(i as int).push(
                registry.entries@[i as int],
            ));
            assert(registry.entries@.take(i + 1).map_values(f) =~= registry.entries@.take(
                i as int,
            ).map_values(f).push(f(registry.entries@[i as int])));
        }
        i = i + 1;
    }
    assert(registry.entries@.take(i as int) =~= registry.entries@);
    crate::text::join_strings(&lines, "\n")
}

/// The line of a planned phase that is not allowed now.
pub open spec fn planned_line(p: (Seq<char>, Seq<char>, Seq<char>)) -> Seq<char> {
    "Phase "@ + p.0 + ": "@ + p.1 + " status=planned allowed_now=false reason="@ + p.2
}

/// The listing of the future phases.
pub open spec fn future_listing() -> Seq<char> {
    join(future_phases().map_values(|p: (Seq<char>, Seq<char>, Seq<char>)| planned_line(p)), "\n"@)
}

/// The listing of the future phases, one line per phase.
pub fn print_future_phases() -> (s: String)
    ensures
        s@ == future_listing(),
{
    let r = build_future_phase_registry(0);
    proof {
        reveal_strlit("planned");
        reveal_strlit("false");
        reveal_strlit(" status=");
        reveal_strlit(" allowed_now=");
        reveal_strlit(" reason=");
        reveal_strlit(" status=planned allowed_now=false reason=");
        let a = r.entries@.map_values(|e: FuturePhaseEntry| phase_line(e));
        let b = future_phases().map_values(|p: (Seq<char>, Seq<char>, Seq<char>)| planned_line(p));
        assert forall|i: int| 0 <= i < a.len() implies a[i] == b[i] by {
            assert(is_planned_phase(r.entries@[i], future_phases()[i]));
            assert(a[i] =~= b[i]);
        }
        assert(a =~= b);
    }
    render_future_phases(&r)
}

/// No future phase is allowed now: each is planned and waits for its reason.
pub proof fn lemma_no_future_phase_allowed(r: FuturePhaseRegistry, i: int)
    requires
        r.entries@.len() == future_phases().len(),
        forall|k: int|
            0 <= k < future_phases().len() ==> is_planned_phase(
                #[trigger] r.entries@[k],
                future_phases()[k],
            ),
        0 <= i < r.entries@.len(),
    ensures
        !r.entries@[i].allowed_now,
        r.entries@[i].status@ == "planned"@,
{
    assert(is_planned_phase(r.entries@[i], future_phases()[i]));
}

} // verus!
