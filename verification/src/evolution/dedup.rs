//! Recognition of mutations that were already tried and went badly.
use vstd::prelude::*;

use crate::contracts::MutationContract;
use crate::digest::{sha256_digest, sha256_hex};
use crate::evolution::mutation_portfolio::{kind_label, kind_name};
use crate::text::{push_str, str_eq};

verus! {

/// An optional payload as text; empty when absent.
pub open spec fn payload_text(p: Option<String>) -> Seq<char> {
    match p {
        Some(s) => s@,
        None => Seq::empty(),
    }
}

/// The text a mutation's digest is taken of: target, kind label and the
/// three payloads, separated by `|`.
pub open spec fn digest_payload(mutation: MutationContract) -> Seq<char> {
    mutation.target_file@ + "|"@ + kind_name(mutation.kind) + "|"@ + payload_text(mutation.search)
        + "|"@ + payload_text(mutation.replace) + "|"@ + payload_text(mutation.append)
}

fn push_payload(s: &mut String, p: &Option<String>)
    ensures
        final(s)@ == old(s)@ + payload_text(*p),
{
    match p {
        Some(t) => push_str(s, t.as_str()),
        None => {
            assert(old(s)@ + payload_text(*p) =~= old(s)@);
        },
    }
}

/// The SHA-256 digest, in hexadecimal, of what a mutation changes and where.
pub fn compute_mutation_digest(mutation: &MutationContract) -> (r: String)
    ensures
        r@ == sha256_hex(digest_payload(*mutation)),
        r@.len() == 64,
{
    let mut s = String::new();
    push_str(&mut s, mutation.target_file.as_str());
    push_str(&mut s, "|");
    push_str(&mut s, kind_label(mutation.kind).as_str());
    push_str(&mut s, "|");
    push_payload(&mut s, &mutation.search);
    push_str(&mut s, "|");
    push_payload(&mut s, &mutation.replace);
    push_str(&mut s, "|");
    push_payload(&mut s, &mutation.append);
    assert(s@ =~= digest_payload(*mutation));
    sha256_digest(s.as_str())
}

/// What the dedup memory recorded of one digest: whether its last run was a
/// useful change, and whether its score stayed below the bar of 5.
#[derive(Clone, Debug)]
pub struct DedupOutcome {
    pub digest: String,
    pub useful_change: bool,
    pub score_below_bar: bool,
}

/// A recorded outcome of `digest` that was not useful or scored below the bar.
pub open spec fn bad_duplicate(entries: Seq<DedupOutcome>, digest: Seq<char>) -> bool {
    exists|i: int|
        0 <= i < entries.len() && (#[trigger] entries[i]).digest@ == digest && (
        !entries[i].useful_change || entries[i].score_below_bar)
}

/// Whether a mutation with `digest` was already tried and went badly, so that
/// it is rejected without another run.
pub fn should_reject_duplicate_bad(entries: &Vec<DedupOutcome>, digest: &str) -> (r: bool)
    ensures
        r == bad_duplicate(entries@, digest@),
{
    let mut i: usize = 0;
    while i < entries.len()
        invariant
            i <= entries.len(),
            forall|k: int|
                0 <= k < i ==> !((#[trigger] entries@[k]).digest@ == digest@ && (
                !entries@[k].useful_change || entries@[k].score_below_bar)),
        decreases entries.len() - i,
    {
        let e = &entries[i];
        if str_eq(e.digest.as_str(), digest) && (!e.useful_change || e.score_below_bar) {
            return true;
        }
        i = i + 1;
    }
    false
}

/// A mutation is rejected as a bad duplicate when any recorded outcome with
/// its digest was not a useful change, or scored below the bar, whatever the
/// other of the two says.
pub proof fn lemma_recorded_bad_outcome_rejects(entries: Seq<DedupOutcome>, digest: Seq<char>, i: int)
    requires
        0 <= i < entries.len(),
        entries[i].digest@ == digest,
        !entries[i].useful_change || entries[i].score_below_bar,
    ensures
        bad_duplicate(entries, digest),
{
    assert(entries[i].digest@ == digest);
}

/// A mutation is not rejected as a bad duplicate when every recorded outcome
/// with its digest was a useful change that reached the bar; in particular
/// when its digest was never recorded.
pub proof fn lemma_good_or_unseen_digest_passes(entries: Seq<DedupOutcome>, digest: Seq<char>)
    requires
        forall|i: int|
            0 <= i < entries.len() && (#[trigger] entries[i]).digest@ == digest ==> entries[i].useful_change
                && !entries[i].score_below_bar,
    ensures
        !bad_duplicate(entries, digest),
{
}

} // verus!
