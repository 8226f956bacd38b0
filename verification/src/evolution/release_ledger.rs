//! The ledger of release attempts.
use vstd::prelude::*;

use crate::contracts::ReleaseLedgerRecord;
use crate::ordering::{sort_ranked, sort_stable, Ranked};
use crate::text::{decimal, join, join_strings, owned, push_decimal, push_str, seq_lt, str_eq, str_lt, views};

verus! {

impl Ranked for ReleaseLedgerRecord {
    /// Ledger records are ordered by time, then release id, then status.
    open spec fn before(&self, other: &Self) -> bool {
        self.generated_at < other.generated_at || (self.generated_at == other.generated_at && (
        seq_lt(self.release_id@, other.release_id@) || (self.release_id@ == other.release_id@
            && seq_lt(self.status@, other.status@))))
    }

    fn is_before(&self, other: &Self) -> (r: bool) {
        if self.generated_at != other.generated_at {
            return self.generated_at < other.generated_at;
        }
        if str_lt(self.release_id.as_str(), other.release_id.as_str()) {
            return true;
        }
        str_eq(self.release_id.as_str(), other.release_id.as_str()) && str_lt(
            self.status.as_str(),
            other.status.as_str(),
        )
    }

    proof fn lemma_irreflexive(a: &Self) {
        crate::text::lemma_lt_irreflexive(a.release_id@, 0);
        crate::text::lemma_lt_irreflexive(a.status@, 0);
    }

    proof fn lemma_transitive(a: &Self, b: &Self, c: &Self) {
        if a.generated_at == b.generated_at && b.generated_at == c.generated_at {
            if seq_lt(a.release_id@, b.release_id@) && seq_lt(b.release_id@, c.release_id@) {
                crate::text::lemma_lt_trans(a.release_id@, b.release_id@, c.release_id@, 0);
            }
            if a.release_id@ == b.release_id@ && b.release_id@ == c.release_id@ {
                crate::text::lemma_lt_irreflexive(a.release_id@, 0);
                crate::text::lemma_lt_trans(a.status@, b.status@, c.status@, 0);
            }
        }
    }
}

/// The ledger records in order: by time, then release id, then status.
pub fn order_release_ledger(records: Vec<ReleaseLedgerRecord>) -> (r: Vec<ReleaseLedgerRecord>)
    ensures
        r@ == sort_ranked(records@),
{
    sort_stable(records)
}

/// The number of records in the ledger.
pub fn release_ledger_count(records: &Vec<ReleaseLedgerRecord>) -> (n: usize)
    ensures
        n == records@.len(),
{
    records.len()
}

/// One line of the ledger listing.
pub open spec fn ledger_line(r: ReleaseLedgerRecord) -> Seq<char> {
    r.release_id@ + " status="@ + r.status@ + " gate="@ + r.gate_status@ + " health="@
        + r.health_grade@ + " approved_candidates="@ + decimal(r.approved_candidate_count as nat)
}

/// The ledger listing: `release_ledger: empty`, or one line per record in order.
pub open spec fn ledger_listing(records: Seq<ReleaseLedgerRecord>) -> Seq<char> {
    if records.len() == 0 {
        "release_ledger: empty"@
    } else {
        join(
            sort_ranked(records).map_values(|r: ReleaseLedgerRecord| ledger_line(r)),
            "\n"@,
        )
    }
}

/// The ledger listing of the records, in ledger order.
pub fn print_release_ledger(records: Vec<ReleaseLedgerRecord>) -> (s: String)
    ensures
        s@ == ledger_listing(records@),
{
    if records.len() == 0 {
        return owned("release_ledger: empty");
    }
    let sorted = order_release_ledger(records);
    let mut lines: Vec<String> = Vec::new();
    let mut i: usize = 0;
    while i < sorted.len()
        invariant
            i <= sorted.len(),
            views(lines@) == sorted@.take(i as int).map_values(
                |r: ReleaseLedgerRecord| ledger_line(r),
            ),
        decreases sorted.len() - i,
    {
        let r = &sorted[i];
        let mut line = owned(r.release_id.as_str());
        push_str(&mut line, " status=");
        push_str(&mut line, r.status.as_str());
        push_str(&mut line, " gate=");
        push_str(&mut line, r.gate_status.as_str());
        push_str(&mut line, " health=");
        push_str(&mut line, r.health_grade.as_str());
        push_str(&mut line, " approved_candidates=");
        push_decimal(&mut line, r.approved_candidate_count as u64);
        let ghost before = views(lines@);
        let ghost lv = line@;
        lines.push(line);
        proof {
            let f = |r: ReleaseLedgerRecord| ledger_line(r);
            assert(views(lines@) =~= before.push(lv));
            assert(sorted@.take(i + 1) =~= sorted@.take(i as int).push(sorted@[i as int]));
            assert(sorted@.take(i + 1).map_values(f) =~= sorted@.take(i as int).map_values(f).push(
                f(sorted@[i as int]),
            ));
        }
        i = i + 1;
    }
    assert(sorted@.take(i as int) =~= sorted@);
    join_strings(&lines, "\n")
}

/// Records an attempt to release `release_id`: refused when its bundle does
/// not exist; otherwise blocked when the preflight gate fails and recorded
/// when it does not.
pub fn record_release_attempt(
    release_id: &str,
    bundle_exists: bool,
    gate_status: String,
    health_grade: String,
    approved_candidate_count: usize,
    generated_at: u64,
) -> (r: Result<ReleaseLedgerRecord, String>)
    ensures
        !bundle_exists ==> (r matches Err(e) && e@ == "release bundle not found for "@ + release_id@),
        bundle_exists ==> (r matches Ok(rec) && {
            &&& rec.release_id@ == release_id@
            &&& rec.status@ == (if gate_status@ == "fail"@ {
                "blocked"@
            } else {
                "recorded"@
            })
            &&& rec.gate_status == gate_status
            &&& rec.health_grade == health_grade
            &&& rec.approved_candidate_count == approved_candidate_count
            &&& rec.generated_at == generated_at
        }),
{
    if !bundle_exists {
        let mut e = owned("release bundle not found for ");
        push_str(&mut e, release_id);
        return Err(e);
    }
    let status = if str_eq(gate_status.as_str(), "fail") {
        owned("blocked")
    } else {
        owned("recorded")
    };
    Ok(ReleaseLedgerRecord {
        release_id: owned(release_id),
        status,
        gate_status,
        health_grade,
        approved_candidate_count,
        generated_at,
    })
}

} // verus!
