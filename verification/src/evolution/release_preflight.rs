//! The release preflight: what stops a candidate from becoming a metadata-only release.
use vstd::prelude::*;

use crate::contracts::{MutationContract, PromotionQueueItem};
use crate::evolution::mutation_portfolio::{kind_label, kind_name};
use crate::digest::{hex_bytes, sha256_digest, sha256_hex};
use crate::evolution::templates::hex_char;
use crate::text::{
    ascii_alnum, bool_text, chars_of, push_bool, string_of_range, contains_string, flag, has_prefix, is_ascii_alnum, join, join_strings,
    owned, push_owned, push_str, sort_dedup, starts_with, str_eq, strictly_sorted, trim, trimmed, views,
};

verus! {

/// What the release preflight knows of a candidate.
#[derive(Clone, Debug)]
pub struct ReleaseCandidateContext {
    pub run_id: String,
    pub mutation_kind: String,
    pub mutation_class: String,
    pub target_file: String,
    pub replay_status: String,
    pub approval_required: bool,
    pub approved: bool,
    pub promotion_queue_state: String,
    pub useful_change: bool,
    pub candidate_report_path: Option<String>,
    pub generated_at: u64,
    pub candidate_diff_summary: Option<String>,
    pub queue_item: Option<PromotionQueueItem>,
    pub approval_decision: Option<String>,
    pub summary_exists: bool,
}

/// The verdict of the release preflight for a candidate.
#[derive(Clone, Debug)]
pub struct ReleasePreflightReport {
    pub run_id: String,
    pub allowed: bool,
    pub reason_ru: String,
    pub blockers: Vec<String>,
    pub mutation_kind: String,
    pub mutation_class: String,
    pub target_file: String,
    pub replay_status: String,
    pub approval_required: bool,
    pub approved: bool,
    pub promotion_queue_state: String,
    pub generated_at: u64,
}

/// A target that a release may never touch: the core, the crate roots and the manifest.
pub open spec fn forbidden_release_target(t: Seq<char>) -> bool {
    has_prefix(t, "src/core/"@) || t == "src/main.rs"@ || t == "src/lib.rs"@ || t == "Cargo.toml"@
}

/// The blockers that the queue item raises: a lifecycle other than ready
/// (and that lifecycle), and a forbidden target blocker; a missing item blocks too.
pub open spec fn queue_blockers(item: Option<PromotionQueueItem>) -> Seq<Seq<char>> {
    match item {
        Some(it) => (if it.lifecycle_state@ != "ready"@ {
            seq!["promotion_queue_blocked"@, it.lifecycle_state@]
        } else {
            Seq::empty()
        }) + flag(views(it.promotion_blockers@).contains("forbidden_target"@), "forbidden_target"@),
        None => seq!["promotion_queue_blocked"@],
    }
}

/// The blockers of a candidate, in the order they are checked (before sorting).
pub open spec fn preflight_blockers(c: ReleaseCandidateContext) -> Seq<Seq<char>> {
    flag(!c.summary_exists, "candidate_not_found"@) + flag(!c.useful_change, "useful_change_false"@)
        + flag(c.mutation_kind@ == "appendcomment"@, "appendcomment_cosmetic"@) + flag(
        c.mutation_class@ == "cosmetic"@,
        "cosmetic_mutation"@,
    ) + flag(c.mutation_class@ == "unsafe"@, "unsafe_mutation"@) + flag(
        c.mutation_class@ == "legacy"@,
        "legacy_mutation"@,
    ) + flag(c.replay_status@ != "ok"@, "replay_not_ok"@) + (if c.approval_required
        && !c.approved {
        seq!["approval_required"@, "not_approved"@]
    } else {
        Seq::empty()
    }) + queue_blockers(c.queue_item) + flag(forbidden_release_target(c.target_file@), "forbidden_target"@)
        + flag(c.candidate_diff_summary is None, "missing_diff"@)
}

/// A candidate that needs an operator's approval and lacks it is blocked by
/// the preflight, with both `approval_required` and `not_approved` among its
/// blockers, whatever else holds of it.
pub proof fn lemma_unapproved_candidate_blocked(c: ReleaseCandidateContext)
    requires
        c.approval_required,
        !c.approved,
    ensures
        preflight_blockers(c).contains("approval_required"@),
        preflight_blockers(c).contains("not_approved"@),
{
    let pre = flag(!c.summary_exists, "candidate_not_found"@) + flag(!c.useful_change, "useful_change_false"@)
        + flag(c.mutation_kind@ == "appendcomment"@, "appendcomment_cosmetic"@) + flag(
        c.mutation_class@ == "cosmetic"@,
        "cosmetic_mutation"@,
    ) + flag(c.mutation_class@ == "unsafe"@, "unsafe_mutation"@) + flag(
        c.mutation_class@ == "legacy"@,
        "legacy_mutation"@,
    ) + flag(c.replay_status@ != "ok"@, "replay_not_ok"@);
    let with_mid = pre + seq!["approval_required"@, "not_approved"@];
    let q = with_mid + queue_blockers(c.queue_item);
    let f = q + flag(forbidden_release_target(c.target_file@), "forbidden_target"@);
    assert(preflight_blockers(c) == f + flag(c.candidate_diff_summary is None, "missing_diff"@));
    lemma_prefix_keeps(pre, seq!["approval_required"@, "not_approved"@]);
    lemma_extended_keeps(with_mid, queue_blockers(c.queue_item));
    lemma_extended_keeps(q, flag(forbidden_release_target(c.target_file@), "forbidden_target"@));
    lemma_extended_keeps(f, flag(c.candidate_diff_summary is None, "missing_diff"@));
}

/// What `pre + m` holds includes every element of `m`.
proof fn lemma_prefix_keeps(pre: Seq<Seq<char>>, m: Seq<Seq<char>>)
    ensures
        forall|i: int| 0 <= i < m.len() ==> (pre + m).contains(#[trigger] m[i]),
{
    assert forall|i: int| 0 <= i < m.len() implies (pre + m).contains(#[trigger] m[i]) by {
        assert((pre + m)[pre.len() + i] == m[i]);
    }
}

/// Extending a sequence keeps what it holds.
proof fn lemma_extended_keeps(s: Seq<Seq<char>>, t: Seq<Seq<char>>)
    ensures
        forall|x: Seq<char>| s.contains(x) ==> (s + t).contains(x),
{
    assert forall|x: Seq<char>| s.contains(x) implies (s + t).contains(x) by {
        let i = choose|i: int| 0 <= i < s.len() && s[i] == x;
        assert((s + t)[i] == x);
    }
}

/// The context that `release_candidate_context` builds always requires an
/// approval; so a candidate whose latest approval record is missing or is not
/// `approve` gets a preflight that is not allowed and names both
/// `approval_required` and `not_approved`.
pub proof fn lemma_unapproved_context_blocked(c: ReleaseCandidateContext, r: ReleasePreflightReport)
    requires
        c.approval_required,
        !c.approved,
        views(r.blockers@).to_set() == preflight_blockers(c).to_set(),
        r.allowed == (preflight_blockers(c).len() == 0),
    ensures
        !r.allowed,
        views(r.blockers@).contains("approval_required"@),
        views(r.blockers@).contains("not_approved"@),
{
    lemma_unapproved_candidate_blocked(c);
    assert(preflight_blockers(c).to_set().contains("approval_required"@));
    assert(preflight_blockers(c).to_set().contains("not_approved"@));
    assert(views(r.blockers@).to_set().contains("approval_required"@));
    assert(views(r.blockers@).to_set().contains("not_approved"@));
}

/// The reason of a preflight verdict, given its sorted blockers.
pub open spec fn preflight_reason(blockers: Seq<Seq<char>>) -> Seq<char> {
    if blockers.len() == 0 {
        "Release preflight разрешил metadata-only bundle."@
    } else {
        "Release preflight заблокировал bundle: "@ + join(blockers, ", "@) + "."@
    }
}

fn queue_blocker_list(b: &mut Vec<String>, item: &Option<PromotionQueueItem>)
    ensures
        views(final(b)@) == views(old(b)@) + queue_blockers(*item),
{
    let ghost before = views(b@);
    match item {
        Some(it) => {
            if !str_eq(it.lifecycle_state.as_str(), "ready") {
                push_owned(b, "promotion_queue_blocked");
                let ghost mid = views(b@);
                b.push(it.lifecycle_state.clone());
                assert(views(b@) =~= mid.push(it.lifecycle_state@));
            }
            assert(views(b@) =~= before + (if it.lifecycle_state@ != "ready"@ {
                seq!["promotion_queue_blocked"@, it.lifecycle_state@]
            } else {
                Seq::<Seq<char>>::empty()
            }));
            crate::text::push_if(
                b,
                contains_string(&it.promotion_blockers, "forbidden_target"),
                "forbidden_target",
            );
            assert(views(b@) =~= before + queue_blockers(*item));
        },
        None => {
            push_owned(b, "promotion_queue_blocked");
            assert(views(b@) =~= before + queue_blockers(*item));
        },
    }
}

#[verifier::rlimit(40)]
fn raw_blockers(c: &ReleaseCandidateContext) -> (b: Vec<String>)
    ensures
        views(b@) == preflight_blockers(*c),
{
    let mut b: Vec<String> = Vec::new();
    crate::text::push_if(&mut b, !c.summary_exists, "candidate_not_found");
    crate::text::push_if(&mut b, !c.useful_change, "useful_change_false");
    crate::text::push_if(
        &mut b,
        str_eq(c.mutation_kind.as_str(), "appendcomment"),
        "appendcomment_cosmetic",
    );
    crate::text::push_if(&mut b, str_eq(c.mutation_class.as_str(), "cosmetic"), "cosmetic_mutation");
    crate::text::push_if(&mut b, str_eq(c.mutation_class.as_str(), "unsafe"), "unsafe_mutation");
    crate::text::push_if(&mut b, str_eq(c.mutation_class.as_str(), "legacy"), "legacy_mutation");
    crate::text::push_if(&mut b, !str_eq(c.replay_status.as_str(), "ok"), "replay_not_ok");
    let ghost before = views(b@);
    if c.approval_required && !c.approved {
        push_owned(&mut b, "approval_required");
        push_owned(&mut b, "not_approved");
    }
    assert(views(b@) =~= before + (if c.approval_required && !c.approved {
        seq!["approval_required"@, "not_approved"@]
    } else {
        Seq::empty()
    }));
    queue_blocker_list(&mut b, &c.queue_item);
    let t = c.target_file.as_str();
    crate::text::push_if(
        &mut b,
        starts_with(t, "src/core/") || str_eq(t, "src/main.rs") || str_eq(t, "src/lib.rs")
            || str_eq(t, "Cargo.toml"),
        "forbidden_target",
    );
    crate::text::push_if(&mut b, c.candidate_diff_summary.is_none(), "missing_diff");
    assert(views(b@) =~= preflight_blockers(*c));
    b
}

proof fn lemma_same_set_empty(a: Seq<Seq<char>>, b: Seq<Seq<char>>)
    requires
        a.to_set() == b.to_set(),
    ensures
        (a.len() == 0) == (b.len() == 0),
{
    if a.len() > 0 {
        assert(a.to_set().contains(a[0]));
        assert(b.to_set().contains(a[0]));
    }
    if b.len() > 0 {
        assert(b.to_set().contains(b[0]));
        assert(a.to_set().contains(b[0]));
    }
}

/// What the release preflight reads of a stored candidate summary.
#[derive(Clone, Debug)]
pub struct StoredSummary {
    pub mutation_kind: String,
    pub target_file: String,
    pub useful_change: bool,
    pub timestamp_unix: u64,
}

/// What the release preflight reads of a stored evolution report.
#[derive(Clone, Debug)]
pub struct StoredReport {
    pub mutation_class: String,
    pub target_file: String,
    pub replay_status: String,
    pub replay_checked_at: Option<u64>,
}

/// What the release preflight reads of the latest approval record of a run.
#[derive(Clone, Debug)]
pub struct StoredApproval {
    pub decision: String,
    pub created_at: u64,
}

/// The mutation kind of a candidate: the summary's, else the label of the
/// stored mutation's kind, else `unknown`.
pub open spec fn context_kind(summary: Option<StoredSummary>, mutation: Option<MutationContract>) -> Seq<char> {
    match summary {
        Some(s) => s.mutation_kind@,
        None => match mutation {
            Some(m) => kind_name(m.kind),
            None => "unknown"@,
        },
    }
}

/// Whether a candidate is a useful change: as its summary says, else whether
/// its report classes it `useful`, else not.
pub open spec fn context_useful(summary: Option<StoredSummary>, report: Option<StoredReport>) -> bool {
    match summary {
        Some(s) => s.useful_change,
        None => match report {
            Some(r) => r.mutation_class@ == "useful"@,
            None => false,
        },
    }
}

/// The mutation class of a candidate: the report's, trimmed, when that is not
/// blank; else `implied`, the class that its kind and usefulness imply.
pub open spec fn context_class(report: Option<StoredReport>, implied: Seq<char>) -> Seq<char> {
    if report is Some && trim(report->0.mutation_class@).len() > 0 {
        trim(report->0.mutation_class@)
    } else {
        implied
    }
}

/// The target file of a candidate: the summary's, else the mutation's, else
/// the report's, else empty.
pub open spec fn context_target(
    summary: Option<StoredSummary>,
    mutation: Option<MutationContract>,
    report: Option<StoredReport>,
) -> Seq<char> {
    match summary {
        Some(s) => s.target_file@,
        None => match mutation {
            Some(m) => m.target_file@,
            None => match report {
                Some(r) => r.target_file@,
                None => Seq::empty(),
            },
        },
    }
}

/// The replay status of a candidate: the report's, else the queue item's,
/// else `unknown`.
pub open spec fn context_replay(report: Option<StoredReport>, item: Option<PromotionQueueItem>) -> Seq<char> {
    match report {
        Some(r) => r.replay_status@,
        None => match item {
            Some(i) => i.replay_status@,
            None => "unknown"@,
        },
    }
}

/// When the candidate was last touched: the latest of its summary's
/// timestamp, its approval's time and its replay check (each 0 when absent).
pub open spec fn context_time(
    summary: Option<StoredSummary>,
    approval: Option<StoredApproval>,
    report: Option<StoredReport>,
) -> u64 {
    let a: u64 = match summary {
        Some(s) => s.timestamp_unix,
        None => 0,
    };
    let b: u64 = match approval {
        Some(x) => x.created_at,
        None => 0,
    };
    let c: u64 = match report {
        Some(r) => match r.replay_checked_at {
            Some(t) => t,
            None => 0,
        },
        None => 0,
    };
    if a >= b && a >= c {
        a
    } else if b >= c {
        b
    } else {
        c
    }
}

/// The mutation kind that `release_candidate_context` records.
pub fn context_mutation_kind(summary: &Option<StoredSummary>, mutation: &Option<MutationContract>) -> (r:
    String)
    ensures
        r@ == context_kind(*summary, *mutation),
{
    match summary {
        Some(s) => s.mutation_kind.clone(),
        None => match mutation {
            Some(m) => kind_label(m.kind),
            None => owned("unknown"),
        },
    }
}

/// Whether `release_candidate_context` records the candidate as useful.
pub fn context_useful_change(summary: &Option<StoredSummary>, report: &Option<StoredReport>) -> (r:
    bool)
    ensures
        r == context_useful(*summary, *report),
{
    match summary {
        Some(s) => s.useful_change,
        None => match report {
            Some(r) => str_eq(r.mutation_class.as_str(), "useful"),
            None => false,
        },
    }
}

/// What the release preflight knows of the candidate of `run_id`, from what
/// was found of it: its summary, mutation, report, queue item and latest
/// approval record, the path of its report and its diff. `implied_class` is
/// the class that the candidate's kind and usefulness (as
/// `context_mutation_kind` and `context_useful_change` give them) imply. An
/// operator approval is always required; the candidate is approved exactly
/// when the latest record's decision is `approve`; the diff counts only when
/// the mutation was found.
pub fn release_candidate_context(
    run_id: &str,
    summary: Option<StoredSummary>,
    mutation: Option<MutationContract>,
    report: Option<StoredReport>,
    queue_item: Option<PromotionQueueItem>,
    approval: Option<StoredApproval>,
    implied_class: &str,
    candidate_report_path: Option<String>,
    diff: Option<String>,
) -> (c: ReleaseCandidateContext)
    ensures
        c.run_id@ == run_id@,
        c.mutation_kind@ == context_kind(summary, mutation),
        c.useful_change == context_useful(summary, report),
        c.mutation_class@ == context_class(report, implied_class@),
        c.target_file@ == context_target(summary, mutation, report),
        c.replay_status@ == context_replay(report, queue_item),
        c.approval_required,
        c.approved == (approval matches Some(a) && a.decision@ == "approve"@),
        c.approval_decision == (match approval {
            Some(a) => Some(a.decision),
            None => None::<String>,
        }),
        c.promotion_queue_state@ == (match queue_item {
            Some(i) => i.lifecycle_state@,
            None => "unknown"@,
        }),
        c.candidate_report_path == candidate_report_path,
        c.candidate_diff_summary == (if mutation is Some {
            diff
        } else {
            None
        }),
        c.generated_at == context_time(summary, approval, report),
        c.queue_item == queue_item,
        c.summary_exists == summary is Some,
{
    let mutation_kind = context_mutation_kind(&summary, &mutation);
    let useful_change = context_useful_change(&summary, &report);
    let mutation_class = match &report {
        Some(r) => {
            let t = trimmed(r.mutation_class.as_str());
            if t.as_str().unicode_len() > 0 {
                t
            } else {
                owned(implied_class)
            }
        },
        None => owned(implied_class),
    };
    let target_file = match &summary {
        Some(s) => s.target_file.clone(),
        None => match &mutation {
            Some(m) => m.target_file.clone(),
            None => match &report {
                Some(r) => r.target_file.clone(),
                None => owned(""),
            },
        },
    };
    let replay_status = match &report {
        Some(r) => r.replay_status.clone(),
        None => match &queue_item {
            Some(i) => i.replay_status.clone(),
            None => owned("unknown"),
        },
    };
    let promotion_queue_state = match &queue_item {
        Some(i) => i.lifecycle_state.clone(),
        None => owned("unknown"),
    };
    let approved = match &approval {
        Some(a) => str_eq(a.decision.as_str(), "approve"),
        None => false,
    };
    let approval_decision = match &approval {
        Some(a) => Some(a.decision.clone()),
        None => None,
    };
    let a: u64 = match &summary {
        Some(s) => s.timestamp_unix,
        None => 0,
    };
    let b: u64 = match &approval {
        Some(x) => x.created_at,
        None => 0,
    };
    let t: u64 = match &report {
        Some(r) => match r.replay_checked_at {
            Some(x) => x,
            None => 0,
        },
        None => 0,
    };
    let generated_at = if a >= b && a >= t {
        a
    } else if b >= t {
        b
    } else {
        t
    };
    let candidate_diff_summary = if mutation.is_some() {
        diff
    } else {
        None
    };
    proof {
        reveal_strlit("");
    }
    ReleaseCandidateContext {
        run_id: owned(run_id),
        mutation_kind,
        mutation_class,
        target_file,
        replay_status,
        approval_required: true,
        approved,
        promotion_queue_state,
        useful_change,
        candidate_report_path,
        generated_at,
        candidate_diff_summary,
        queue_item,
        approval_decision,
        summary_exists: summary.is_some(),
    }
}

/// The release preflight of a candidate: its blockers sorted and without
/// repeats, allowed exactly when there are none, with the reason.
pub fn build_release_preflight(context: &ReleaseCandidateContext) -> (r: ReleasePreflightReport)
    ensures
        strictly_sorted(views(r.blockers@)),
        views(r.blockers@).to_set() == preflight_blockers(*context).to_set(),
        r.allowed == (preflight_blockers(*context).len() == 0),
        r.allowed == (r.blockers.len() == 0),
        r.reason_ru@ == preflight_reason(views(r.blockers@)),
        r.run_id == context.run_id,
        r.mutation_kind == context.mutation_kind,
        r.mutation_class == context.mutation_class,
        r.target_file == context.target_file,
        r.replay_status == context.replay_status,
        r.approval_required == context.approval_required,
        r.approved == context.approved,
        r.promotion_queue_state == context.promotion_queue_state,
        r.generated_at == context.generated_at,
{
    let raw = raw_blockers(context);
    let ghost raw_views = views(raw@);
    let blockers = sort_dedup(raw);
    proof {
        lemma_same_set_empty(raw_views, views(blockers@));
    }
    let allowed = blockers.len() == 0;
    let reason_ru = if allowed {
        owned("Release preflight разрешил metadata-only bundle.")
    } else {
        let mut r = owned("Release preflight заблокировал bundle: ");
        push_str(&mut r, join_strings(&blockers, ", ").as_str());
        push_str(&mut r, ".");
        r
    };
    ReleasePreflightReport {
        run_id: context.run_id.clone(),
        allowed,
        reason_ru,
        blockers,
        mutation_kind: context.mutation_kind.clone(),
        mutation_class: context.mutation_class.clone(),
        target_file: context.target_file.clone(),
        replay_status: context.replay_status.clone(),
        approval_required: context.approval_required,
        approved: context.approved,
        promotion_queue_state: context.promotion_queue_state.clone(),
        generated_at: context.generated_at,
    }
}

/// `c` kept when it is an ASCII letter or digit, `-` or `_`, else replaced by `-`.
pub open spec fn id_char(c: char) -> char {
    if is_ascii_alnum(c) || c == '-' || c == '_' {
        c
    } else {
        '-'
    }
}

/// `s` without leading `-`.
pub open spec fn trim_dash_start(s: Seq<char>) -> Seq<char>
    decreases s.len(),
{
    if s.len() > 0 && s[0] == '-' {
        trim_dash_start(s.drop_first())
    } else {
        s
    }
}

/// `s` without trailing `-`.
pub open spec fn trim_dash_end(s: Seq<char>) -> Seq<char>
    decreases s.len(),
{
    if s.len() > 0 && s.last() == '-' {
        trim_dash_end(s.drop_last())
    } else {
        s
    }
}

/// The run id as a release id fragment: other characters become `-`, and
/// leading and trailing `-` go.
pub open spec fn release_fragment(run_id: Seq<char>) -> Seq<char> {
    trim_dash_end(trim_dash_start(run_id.map_values(|c: char| id_char(c))))
}

/// The run id as a release id fragment.
pub fn normalize_release_id_fragment(run_id: &str) -> (r: String)
    ensures
        r@ == release_fragment(run_id@),
{
    let x = chars_of(run_id);
    let ghost mapped = run_id@.map_values(|c: char| id_char(c));
    let mut m: Vec<char> = Vec::new();
    let mut i: usize = 0;
    while i < x.len()
        invariant
            x@ == run_id@,
            mapped == run_id@.map_values(|c: char| id_char(c)),
            i <= x.len(),
            m@ == mapped.take(i as int),
        decreases x.len() - i,
    {
        let c = x[i];
        m.push(if ascii_alnum(c) || c == '-' || c == '_' { c } else { '-' });
        assert(mapped.take(i + 1) =~= mapped.take(i as int).push(mapped[i as int]));
        i = i + 1;
    }
    assert(mapped.take(i as int) =~= mapped);
    let mut lo: usize = 0;
    assert(m@.skip(0) =~= m@);
    while lo < m.len() && m[lo] == '-'
        invariant
            lo <= m.len(),
            trim_dash_start(m@) == trim_dash_start(m@.skip(lo as int)),
        decreases m.len() - lo,
    {
        assert(m@.skip(lo as int).drop_first() =~= m@.skip(lo + 1));
        lo = lo + 1;
    }
    let mut hi: usize = m.len();
    assert(m@.skip(lo as int) =~= m@.subrange(lo as int, hi as int));
    while hi > lo && m[hi - 1] == '-'
        invariant
            lo <= hi <= m.len(),
            trim_dash_end(trim_dash_start(m@)) == trim_dash_end(m@.subrange(lo as int, hi as int)),
        decreases hi,
    {
        assert(m@.subrange(lo as int, hi as int).drop_last() =~= m@.subrange(lo as int, hi - 1));
        hi = hi - 1;
    }
    crate::text::string_of_range(&m, lo, hi)
}

/// A release is allowed only for a stored, useful candidate whose replay is
/// ok, that is approved when approval is required, that is ready in the
/// queue without a forbidden-target blocker, whose class is neither cosmetic,
/// unsafe nor legacy, whose target is not protected, and whose diff exists.
#[verifier::rlimit(60)]
#[verifier::spinoff_prover]
pub proof fn lemma_allowed_release_is_safe(c: ReleaseCandidateContext)
    requires
        preflight_blockers(c).len() == 0,
    ensures
        c.summary_exists,
        c.useful_change,
        c.replay_status@ == "ok"@,
        c.approval_required ==> c.approved,
        c.queue_item is Some,
        c.queue_item->0.lifecycle_state@ == "ready"@,
        !views(c.queue_item->0.promotion_blockers@).contains("forbidden_target"@),
        c.mutation_kind@ != "appendcomment"@,
        c.mutation_class@ != "cosmetic"@ && c.mutation_class@ != "unsafe"@ && c.mutation_class@
            != "legacy"@,
        !forbidden_release_target(c.target_file@),
        c.candidate_diff_summary is Some,
{
}

/// The text a release id's digest is taken of: run, target, kind, class,
/// score and risk (as the caller wrote them, three decimals), replay status,
/// approval and queue state, separated by `:`.
pub open spec fn release_seed(report: ReleasePreflightReport, score: Seq<char>, risk: Seq<char>) -> Seq<
    char,
> {
    report.run_id@ + ":"@ + report.target_file@ + ":"@ + report.mutation_kind@ + ":"@
        + report.mutation_class@ + ":"@ + score + ":"@ + risk + ":"@ + report.replay_status@ + ":"@
        + bool_text(report.approved) + ":"@ + report.promotion_queue_state@
}

/// The id of the release that a preflight report admits: `release-`, the
/// first 8 hexadecimal digits of the seed's digest, `-` and the run id as a
/// fragment. `score` and `risk` are the report's score and risk written with
/// three decimals.
pub open spec fn release_id_of(report: ReleasePreflightReport, score: Seq<char>, risk: Seq<char>) -> Seq<
    char,
> {
    "release-"@ + sha256_hex(release_seed(report, score, risk)).take(8) + "-"@ + release_fragment(
        report.run_id@,
    )
}

/// A character that a release id may hold: an ASCII letter or digit, `-` or `_`.
pub open spec fn release_id_char(c: char) -> bool {
    is_ascii_alnum(c) || c == '-' || c == '_'
}

proof fn lemma_hex_char_is_id_char(d: int)
    requires
        0 <= d < 16,
    ensures
        release_id_char(hex_char(d)),
{
    let s = seq!['0', '1', '2', '3', '4', '5', '6', '7', '8', '9', 'a', 'b', 'c', 'd', 'e', 'f'];
    assert(hex_char(d) == s[d]);
    if d < 10 {
        assert(s[d] == (('0' as int) + d) as char) by {
            if d == 0 {} else if d == 1 {} else if d == 2 {} else if d == 3 {} else if d == 4 {}
            else if d == 5 {} else if d == 6 {} else if d == 7 {} else if d == 8 {} else {}
        }
    } else {
        assert(s[d] == (('a' as int) + d - 10) as char) by {
            if d == 10 {} else if d == 11 {} else if d == 12 {} else if d == 13 {} else if d == 14 {}
            else {}
        }
    }
}

proof fn lemma_hex_bytes_are_id_chars(b: Seq<u8>)
    ensures
        forall|i: int| 0 <= i < hex_bytes(b).len() ==> release_id_char(#[trigger] hex_bytes(b)[i]),
    decreases b.len(),
{
    if b.len() > 0 {
        lemma_hex_bytes_are_id_chars(b.drop_last());
        lemma_hex_char_is_id_char((b.last() / 16) as int);
        lemma_hex_char_is_id_char((b.last() % 16) as int);
        let h = hex_bytes(b);
        let p = hex_bytes(b.drop_last());
        assert forall|i: int| 0 <= i < h.len() implies release_id_char(#[trigger] h[i]) by {
            if i < p.len() {
                assert(h[i] == p[i]);
            }
        }
    }
}

proof fn lemma_trim_dashes_keep_chars(s: Seq<char>)
    requires
        forall|i: int| 0 <= i < s.len() ==> release_id_char(#[trigger] s[i]),
    ensures
        forall|i: int| 0 <= i < trim_dash_start(s).len() ==> release_id_char(#[trigger] trim_dash_start(s)[i]),
        forall|i: int| 0 <= i < trim_dash_end(s).len() ==> release_id_char(#[trigger] trim_dash_end(s)[i]),
    decreases s.len(),
{
    if s.len() > 0 {
        let f = s.drop_first();
        let l = s.drop_last();
        assert forall|i: int| 0 <= i < f.len() implies release_id_char(#[trigger] f[i]) by {
            assert(f[i] == s[i + 1]);
        }
        assert forall|i: int| 0 <= i < l.len() implies release_id_char(#[trigger] l[i]) by {
            assert(l[i] == s[i]);
        }
        lemma_trim_dashes_keep_chars(f);
        lemma_trim_dashes_keep_chars(l);
        if s[0] == '-' {
            assert(trim_dash_start(s) == trim_dash_start(f));
        } else {
            assert(trim_dash_start(s) == s);
        }
        if s.last() == '-' {
            assert(trim_dash_end(s) == trim_dash_end(l));
        } else {
            assert(trim_dash_end(s) == s);
        }
    }
}

/// A release id whose digest has at least eight digits holds only ASCII
/// letters and digits, `-` and `_`.
proof fn lemma_release_id_chars(report: ReleasePreflightReport, score: Seq<char>, risk: Seq<char>)
    requires
        sha256_hex(release_seed(report, score, risk)).len() >= 8,
    ensures
        forall|i: int|
            0 <= i < release_id_of(report, score, risk).len() ==> release_id_char(
                #[trigger] release_id_of(report, score, risk)[i],
            ),
{
    reveal_strlit("release-");
    reveal_strlit("-");
    let h = sha256_hex(release_seed(report, score, risk));
    lemma_hex_bytes_are_id_chars(crate::digest::sha256_of(vstd::utf8::encode_utf8(release_seed(report, score, risk))));
    let m = report.run_id@.map_values(|c: char| id_char(c));
    assert forall|i: int| 0 <= i < m.len() implies release_id_char(#[trigger] m[i]) by {
        assert(m[i] == id_char(report.run_id@[i]));
    }
    lemma_trim_dashes_keep_chars(m);
    let t = trim_dash_start(m);
    lemma_trim_dashes_keep_chars(t);
    let frag = release_fragment(report.run_id@);
    let head = "release-"@;
    let id = release_id_of(report, score, risk);
    assert forall|i: int| 0 <= i < id.len() implies release_id_char(#[trigger] id[i]) by {
        let a = head + h.take(8);
        let b = a + "-"@;
        assert(id == b + frag);
        if i >= b.len() {
            assert(id[i] == frag[i - b.len()]);
        } else if i >= a.len() {
            assert(id[i] == '-');
        } else if i >= head.len() {
            assert(id[i] == h.take(8)[i - head.len()]);
            assert(h.take(8)[i - head.len()] == h[i - head.len()]);
        } else {
            assert(id[i] == head[i]);
        }
    }
}

/// The id of the release that a preflight report admits. It holds only
/// ASCII letters and digits, `-` and `_`, so it names a file without leaving
/// the directory it is put in.
pub fn release_id_from_preflight(report: &ReleasePreflightReport, score: &str, risk: &str) -> (r:
    String)
    ensures
        r@ == release_id_of(*report, score@, risk@),
        forall|i: int| 0 <= i < r@.len() ==> release_id_char(#[trigger] r@[i]),
{
    let mut seed = String::new();
    push_str(&mut seed, report.run_id.as_str());
    push_str(&mut seed, ":");
    push_str(&mut seed, report.target_file.as_str());
    push_str(&mut seed, ":");
    push_str(&mut seed, report.mutation_kind.as_str());
    push_str(&mut seed, ":");
    push_str(&mut seed, report.mutation_class.as_str());
    push_str(&mut seed, ":");
    push_str(&mut seed, score);
    push_str(&mut seed, ":");
    push_str(&mut seed, risk);
    push_str(&mut seed, ":");
    push_str(&mut seed, report.replay_status.as_str());
    push_str(&mut seed, ":");
    push_bool(&mut seed, report.approved);
    push_str(&mut seed, ":");
    push_str(&mut seed, report.promotion_queue_state.as_str());
    assert(seed@ =~= release_seed(*report, score@, risk@));
    let digest = sha256_digest(seed.as_str());
    let digits = chars_of(digest.as_str());
    let mut r = owned("release-");
    push_str(&mut r, string_of_range(&digits, 0, 8).as_str());
    push_str(&mut r, "-");
    push_str(&mut r, normalize_release_id_fragment(report.run_id.as_str()).as_str());
    proof {
        assert(r@ == release_id_of(*report, score@, risk@));
        lemma_release_id_chars(*report, score@, risk@);
    }
    r
}

} // verus!
