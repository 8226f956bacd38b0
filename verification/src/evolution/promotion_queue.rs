//! The promotion queue: how each stored candidate is classified, how the queue
//! is summarised, and its ready and blocked views ordered by run id.
use vstd::prelude::*;
use vstd::multiset::Multiset;

use crate::ordering::{is_ranked, lemma_sort_ranked, sort_ranked, sort_stable, Ranked};
use crate::contracts::{
    CandidateQueueSummary, CandidateState, EvolutionStatus, PromotionQueue, PromotionQueueItem,
};
use crate::text::{
    contains_string, decimal, join, join_or, join_or_strings, join_strings, owned, push_decimal,
    push_str, seq_lt, str_eq, str_lt, views,
};

verus! {

/// A stored candidate as the memory lists it: the fields the queue reads.
#[derive(Clone, Debug)]
pub struct CandidateSummary {
    pub run_id: String,
    pub mutation_kind: String,
    pub target_file: String,
    pub useful_change: bool,
    pub cargo_test_ok: bool,
    pub cargo_run_ok: bool,
    pub duplicate_rejected: bool,
    pub status: EvolutionStatus,
}

/// Evidence of the candidate is missing.
pub open spec fn missing_evidence(bl: Seq<Seq<char>>) -> bool {
    bl.contains("candidate_missing"@) || bl.contains("mutation_missing"@) || bl.contains(
        "report_missing"@,
    )
}

/// The candidate state and its reason, checked in order: duplicate, stale
/// report, missing evidence, legacy, quarantined class, already promoted,
/// replay, cargo gates, forbidden target, ready, other blockers.
pub open spec fn candidate_state_of(
    s: CandidateSummary,
    class: Seq<char>,
    replay: Seq<char>,
    bl: Seq<Seq<char>>,
    report_exists: bool,
) -> (CandidateState, Seq<char>) {
    if s.duplicate_rejected {
        (CandidateState::Duplicate, "duplicate safety rejection"@)
    } else if !report_exists {
        (CandidateState::Stale, "candidate report missing or not rebuildable"@)
    } else if missing_evidence(bl) {
        (CandidateState::Blocked, "required candidate evidence is missing"@)
    } else if class == "legacy"@ || class.len() == 0 {
        (CandidateState::Legacy, "legacy candidate cannot be replayed with full trust"@)
    } else if class == "unsafe"@ || class == "cosmetic"@ {
        (CandidateState::Quarantined, class + " mutation is isolated from promotion"@)
    } else if bl.contains("already_promoted"@) {
        (CandidateState::AlreadyPromoted, "candidate already promoted"@)
    } else if replay != "ok"@ && replay != "not_run"@ {
        (CandidateState::Unreplayable, "replay status is "@ + replay)
    } else if !s.cargo_test_ok || !s.cargo_run_ok {
        (CandidateState::Quarantined, "cargo test/run gate did not pass"@)
    } else if bl.contains("forbidden_target"@) {
        (CandidateState::Blocked, "forbidden target blocker"@)
    } else if replay == "ok"@ && s.useful_change && bl.len() == 0 {
        (CandidateState::Ready, "all required gates passed"@)
    } else if bl.len() > 0 {
        (CandidateState::Blocked, join(bl, ", "@))
    } else {
        (CandidateState::Unknown, "candidate state could not be determined"@)
    }
}

fn concat(a: &str, b: &str) -> (r: String)
    ensures
        r@ == a@ + b@,
{
    let mut r = owned(a);
    push_str(&mut r, b);
    r
}

/// The candidate state of a stored candidate and the reason for it.
pub fn classify_candidate_state(
    summary: &CandidateSummary,
    mutation_class: &str,
    replay_status: &str,
    promotion_blockers: &Vec<String>,
    report_exists: bool,
) -> (r: (CandidateState, String))
    ensures
        (r.0, r.1@) == candidate_state_of(
            *summary,
            mutation_class@,
            replay_status@,
            views(promotion_blockers@),
            report_exists,
        ),
{
    let no_class = str_eq(mutation_class, "");
    proof {
        reveal_strlit("");
        if mutation_class@.len() == 0 {
            assert(mutation_class@ =~= ""@);
        }
    }
    if summary.duplicate_rejected {
        return (CandidateState::Duplicate, owned("duplicate safety rejection"));
    }
    if !report_exists {
        return (CandidateState::Stale, owned("candidate report missing or not rebuildable"));
    }
    if contains_string(promotion_blockers, "candidate_missing") || contains_string(
        promotion_blockers,
        "mutation_missing",
    ) || contains_string(promotion_blockers, "report_missing") {
        return (CandidateState::Blocked, owned("required candidate evidence is missing"));
    }
    if str_eq(mutation_class, "legacy") || no_class {
        return (
            CandidateState::Legacy,
            owned("legacy candidate cannot be replayed with full trust"),
        );
    }
    if str_eq(mutation_class, "unsafe") || str_eq(mutation_class, "cosmetic") {
        return (
            CandidateState::Quarantined,
            concat(mutation_class, " mutation is isolated from promotion"),
        );
    }
    if contains_string(promotion_blockers, "already_promoted") {
        return (CandidateState::AlreadyPromoted, owned("candidate already promoted"));
    }
    if !str_eq(replay_status, "ok") && !str_eq(replay_status, "not_run") {
        return (CandidateState::Unreplayable, concat("replay status is ", replay_status));
    }
    if !summary.cargo_test_ok || !summary.cargo_run_ok {
        return (CandidateState::Quarantined, owned("cargo test/run gate did not pass"));
    }
    if contains_string(promotion_blockers, "forbidden_target") {
        return (CandidateState::Blocked, owned("forbidden target blocker"));
    }
    if str_eq(replay_status, "ok") && summary.useful_change && promotion_blockers.len() == 0 {
        return (CandidateState::Ready, owned("all required gates passed"));
    }
    if promotion_blockers.len() > 0 {
        return (CandidateState::Blocked, join_strings(promotion_blockers, ", "));
    }
    (CandidateState::Unknown, owned("candidate state could not be determined"))
}

/// The lifecycle state, promotion state and Russian reason of a candidate.
pub open spec fn lifecycle_of(
    s: CandidateSummary,
    class: Seq<char>,
    replay: Seq<char>,
    bl: Seq<Seq<char>>,
    allowed: bool,
    report_exists: bool,
) -> (Seq<char>, Seq<char>, Seq<char>) {
    if !report_exists {
        (
            "stale_report"@,
            "stale_report"@,
            "Отчёт кандидата отсутствует и не был восстановлен."@,
        )
    } else if class == "cosmetic"@ {
        (
            "cosmetic_rejected"@,
            "blocked"@,
            "Косметическая мутация исключена из promotion queue."@,
        )
    } else if class == "unsafe"@ {
        ("unsafe_rejected"@, "blocked"@, "Опасная мутация исключена из promotion queue."@)
    } else if class == "legacy"@ {
        ("unknown"@, "blocked"@, "Legacy-мутация не допускается к promotion."@)
    } else if !s.useful_change {
        ("blocked"@, "blocked"@, "Кандидат не отмечен как useful_change."@)
    } else if bl.contains("already_promoted"@) {
        ("already_promoted"@, "already_promoted"@, "Кандидат уже был promoted ранее."@)
    } else if replay == "not_run"@ {
        ("needs_replay"@, "needs_replay"@, "Для кандидата ещё не выполнен replay."@)
    } else if replay != "ok"@ {
        ("replay_failed"@, "blocked"@, "Replay не подтверждён, promotion запрещён."@)
    } else if allowed {
        ("ready"@, "ready"@, "Кандидат готов к ручному promotion-review."@)
    } else if bl.len() > 0 {
        ("blocked"@, "blocked"@, "Кандидат заблокирован: "@ + join(bl, ", "@) + "."@)
    } else {
        ("unknown"@, "unknown"@, "Состояние кандидата не удалось определить."@)
    }
}

/// A candidate is ready exactly when it is not a duplicate, its report
/// exists, its class is neither legacy, unsafe nor cosmetic, its replay
/// passed, both cargo gates passed, it is a useful change and nothing blocks it.
pub proof fn lemma_ready_state(
    s: CandidateSummary,
    class: Seq<char>,
    replay: Seq<char>,
    bl: Seq<Seq<char>>,
    report_exists: bool,
)
    ensures
        candidate_state_of(s, class, replay, bl, report_exists).0 == CandidateState::Ready <==> {
            &&& !s.duplicate_rejected
            &&& report_exists
            &&& class != "legacy"@ && class.len() > 0 && class != "unsafe"@ && class != "cosmetic"@
            &&& replay == "ok"@
            &&& s.cargo_test_ok && s.cargo_run_ok
            &&& s.useful_change
            &&& bl.len() == 0
        },
{
    if bl.len() == 0 {
        assert(!missing_evidence(bl));
        assert(!bl.contains("already_promoted"@));
        assert(!bl.contains("forbidden_target"@));
    }
}

/// A candidate's lifecycle is `ready` exactly when its report exists, its
/// class is neither cosmetic, unsafe nor legacy, it is a useful change, it
/// was not promoted already, its replay passed and its review allows promotion.
pub proof fn lemma_ready_lifecycle(
    s: CandidateSummary,
    class: Seq<char>,
    replay: Seq<char>,
    bl: Seq<Seq<char>>,
    allowed: bool,
    report_exists: bool,
)
    ensures
        lifecycle_of(s, class, replay, bl, allowed, report_exists).0 == "ready"@ <==> {
            &&& report_exists
            &&& class != "cosmetic"@ && class != "unsafe"@ && class != "legacy"@
            &&& s.useful_change
            &&& !bl.contains("already_promoted"@)
            &&& replay == "ok"@
            &&& allowed
        },
{
    reveal_strlit("ready");
    reveal_strlit("stale_report");
    reveal_strlit("cosmetic_rejected");
    reveal_strlit("unsafe_rejected");
    reveal_strlit("unknown");
    reveal_strlit("blocked");
    reveal_strlit("already_promoted");
    reveal_strlit("needs_replay");
    reveal_strlit("replay_failed");
    reveal_strlit("ok");
    reveal_strlit("not_run");
    let r = "ready"@;
    assert(r[0] == 'r' && r[2] == 'a' && r.len() == 5);
    assert("stale_report"@[0] == 's' && "cosmetic_rejected"@[0] == 'c' && "unsafe_rejected"@[0] == 'u');
    assert("unknown"@[0] == 'u' && "blocked"@[0] == 'b' && "already_promoted"@[0] == 'a');
    assert("needs_replay"@[0] == 'n' && "replay_failed"@[2] == 'p');
    assert("ok"@ != "not_run"@) by {
        assert("ok"@.len() != "not_run"@.len());
    }
}

fn triple(a: &str, b: &str, c: &str) -> (r: (String, String, String))
    ensures
        r.0@ == a@,
        r.1@ == b@,
        r.2@ == c@,
{
    (owned(a), owned(b), owned(c))
}

/// The lifecycle state, promotion state and Russian reason of a candidate.
pub fn classify_lifecycle(
    summary: &CandidateSummary,
    mutation_class: &str,
    replay_status: &str,
    promotion_blockers: &Vec<String>,
    promotion_allowed: bool,
    report_exists: bool,
) -> (r: (String, String, String))
    ensures
        (r.0@, r.1@, r.2@) == lifecycle_of(
            *summary,
            mutation_class@,
            replay_status@,
            views(promotion_blockers@),
            promotion_allowed,
            report_exists,
        ),
{
    if !report_exists {
        return triple(
            "stale_report",
            "stale_report",
            "Отчёт кандидата отсутствует и не был восстановлен.",
        );
    }
    if str_eq(mutation_class, "cosmetic") {
        return triple(
            "cosmetic_rejected",
            "blocked",
            "Косметическая мутация исключена из promotion queue.",
        );
    }
    if str_eq(mutation_class, "unsafe") {
        return triple("unsafe_rejected", "blocked", "Опасная мутация исключена из promotion queue.");
    }
    if str_eq(mutation_class, "legacy") {
        return triple("unknown", "blocked", "Legacy-мутация не допускается к promotion.");
    }
    if !summary.useful_change {
        return triple("blocked", "blocked", "Кандидат не отмечен как useful_change.");
    }
    if contains_string(promotion_blockers, "already_promoted") {
        return triple("already_promoted", "already_promoted", "Кандидат уже был promoted ранее.");
    }
    if str_eq(replay_status, "not_run") {
        return triple("needs_replay", "needs_replay", "Для кандидата ещё не выполнен replay.");
    }
    if !str_eq(replay_status, "ok") {
        return triple("replay_failed", "blocked", "Replay не подтверждён, promotion запрещён.");
    }
    if promotion_allowed {
        return triple("ready", "ready", "Кандидат готов к ручному promotion-review.");
    }
    if promotion_blockers.len() > 0 {
        let mut reason = owned("Кандидат заблокирован: ");
        let joined = join_strings(promotion_blockers, ", ");
        push_str(&mut reason, joined.as_str());
        push_str(&mut reason, ".");
        return (owned("blocked"), owned("blocked"), reason);
    }
    triple("unknown", "unknown", "Состояние кандидата не удалось определить.")
}

/// The number of items of `s` in state `st`.
pub open spec fn count_state(s: Seq<PromotionQueueItem>, st: CandidateState) -> nat
    decreases s.len(),
{
    if s.len() == 0 {
        0
    } else {
        count_state(s.drop_last(), st) + if s.last().candidate_state == st {
            1nat
        } else {
            0nat
        }
    }
}

/// Every item is in exactly one state: the per-state counts add up to the number of items.
pub proof fn lemma_state_counts_partition(s: Seq<PromotionQueueItem>)
    ensures
        count_state(s, CandidateState::Ready) + count_state(s, CandidateState::Blocked)
            + count_state(s, CandidateState::Quarantined) + count_state(s, CandidateState::Stale)
            + count_state(s, CandidateState::Legacy) + count_state(s, CandidateState::Duplicate)
            + count_state(s, CandidateState::Unreplayable) + count_state(
            s,
            CandidateState::AlreadyPromoted,
        ) + count_state(s, CandidateState::Unknown) == s.len(),
    decreases s.len(),
{
    if s.len() > 0 {
        lemma_state_counts_partition(s.drop_last());
    }
}

/// The summary of a queue whose items are `s`.
pub open spec fn queue_summary_of(s: Seq<PromotionQueueItem>) -> CandidateQueueSummary {
    CandidateQueueSummary {
        candidate_count: s.len() as usize,
        ready_candidates: count_state(s, CandidateState::Ready) as usize,
        blocked_candidates: (count_state(s, CandidateState::Blocked) + count_state(
            s,
            CandidateState::Stale,
        )) as usize,
        quarantined_candidates: count_state(s, CandidateState::Quarantined) as usize,
        legacy_candidates: count_state(s, CandidateState::Legacy) as usize,
        duplicate_candidates: count_state(s, CandidateState::Duplicate) as usize,
        unreplayable_candidates: count_state(s, CandidateState::Unreplayable) as usize,
        already_promoted_candidates: count_state(s, CandidateState::AlreadyPromoted) as usize,
        unknown_candidates: count_state(s, CandidateState::Unknown) as usize,
    }
}

/// The sum of a summary's per-state counts.
pub open spec fn summary_total(q: CandidateQueueSummary) -> int {
    q.ready_candidates + q.blocked_candidates + q.quarantined_candidates + q.legacy_candidates
        + q.duplicate_candidates + q.unreplayable_candidates + q.already_promoted_candidates
        + q.unknown_candidates
}

/// Counts the queue items per candidate state; stale items count as blocked.
pub fn summarize_queue(items: &Vec<PromotionQueueItem>) -> (q: CandidateQueueSummary)
    ensures
        q == queue_summary_of(items@),
        summary_total(q) == q.candidate_count,
{
    let mut q = CandidateQueueSummary {
        candidate_count: items.len(),
        ready_candidates: 0,
        blocked_candidates: 0,
        quarantined_candidates: 0,
        legacy_candidates: 0,
        duplicate_candidates: 0,
        unreplayable_candidates: 0,
        already_promoted_candidates: 0,
        unknown_candidates: 0,
    };
    let mut i: usize = 0;
    while i < items.len()
        invariant
            i <= items.len(),
            q.candidate_count == items.len(),
            ({
                let t = items@.take(i as int);
                &&& q.ready_candidates == count_state(t, CandidateState::Ready)
                &&& q.blocked_candidates == count_state(t, CandidateState::Blocked) + count_state(
                    t,
                    CandidateState::Stale,
                )
                &&& q.quarantined_candidates == count_state(t, CandidateState::Quarantined)
                &&& q.legacy_candidates == count_state(t, CandidateState::Legacy)
                &&& q.duplicate_candidates == count_state(t, CandidateState::Duplicate)
                &&& q.unreplayable_candidates == count_state(t, CandidateState::Unreplayable)
                &&& q.already_promoted_candidates == count_state(
                    t,
                    CandidateState::AlreadyPromoted,
                )
                &&& q.unknown_candidates == count_state(t, CandidateState::Unknown)
            }),
        decreases items.len() - i,
    {
        proof {
            assert(items@.take(i + 1).drop_last() =~= items@.take(i as int));
            assert(items@.take(i + 1).last() == items@[i as int]);
            lemma_state_counts_partition(items@.take(i as int));
        }
        match items[i].candidate_state {
            CandidateState::Ready => q.ready_candidates = q.ready_candidates + 1,
            CandidateState::Blocked => q.blocked_candidates = q.blocked_candidates + 1,
            CandidateState::Quarantined => q.quarantined_candidates = q.quarantined_candidates + 1,
            CandidateState::Stale => q.blocked_candidates = q.blocked_candidates + 1,
            CandidateState::Legacy => q.legacy_candidates = q.legacy_candidates + 1,
            CandidateState::Duplicate => q.duplicate_candidates = q.duplicate_candidates + 1,
            CandidateState::Unreplayable => q.unreplayable_candidates = q.unreplayable_candidates
                + 1,
            CandidateState::AlreadyPromoted => q.already_promoted_candidates =
            q.already_promoted_candidates + 1,
            CandidateState::Unknown => q.unknown_candidates = q.unknown_candidates + 1,
        }
        i = i + 1;
    }
    proof {
        assert(items@.take(i as int) =~= items@);
        lemma_state_counts_partition(items@);
    }
    q
}

/// The queue summary accounts for every item: its per-state counts add up to the item count.
pub proof fn lemma_summary_accounts_for_every_item(s: Seq<PromotionQueueItem>)
    requires
        s.len() <= usize::MAX,
    ensures
        summary_total(queue_summary_of(s)) == queue_summary_of(s).candidate_count,
{
    lemma_state_counts_partition(s);
}

impl Ranked for PromotionQueueItem {
    /// Items are ordered by run id.
    open spec fn before(&self, other: &Self) -> bool {
        seq_lt(self.run_id@, other.run_id@)
    }

    fn is_before(&self, other: &Self) -> (r: bool) {
        str_lt(self.run_id.as_str(), other.run_id.as_str())
    }

    proof fn lemma_irreflexive(a: &Self) {
        crate::text::lemma_lt_irreflexive(a.run_id@, 0);
    }

    proof fn lemma_transitive(a: &Self, b: &Self, c: &Self) {
        crate::text::lemma_lt_trans(a.run_id@, b.run_id@, c.run_id@, 0);
    }
}

/// The items whose lifecycle state is `ready` (when `ready` holds) or is not (when it does not), in order.
pub open spec fn items_where_ready(s: Seq<PromotionQueueItem>, ready: bool) -> Seq<PromotionQueueItem>
    decreases s.len(),
{
    if s.len() == 0 {
        Seq::empty()
    } else {
        let rest = items_where_ready(s.drop_last(), ready);
        if (s.last().lifecycle_state@ == "ready"@) == ready {
            rest.push(s.last())
        } else {
            rest
        }
    }
}

fn filter_ready(items: Vec<PromotionQueueItem>, ready: bool) -> (r: Vec<PromotionQueueItem>)
    ensures
        r@ == items_where_ready(items@, ready),
{
    let ghost orig = items@;
    let n: usize = items.len();
    let mut rest = items;
    let mut r: Vec<PromotionQueueItem> = Vec::new();
    let mut i: usize = 0;
    while rest.len() > 0
        invariant
            i + rest@.len() == orig.len(),
            orig.len() == n,
            rest@ == orig.skip(i as int),
            r@ == items_where_ready(orig.take(i as int), ready),
        decreases rest.len(),
    {
        let x = rest.remove(0);
        proof {
            assert(orig.take(i + 1).drop_last() =~= orig.take(i as int));
            assert(orig.take(i + 1).last() == x);
            assert(rest@ =~= orig.skip(i + 1));
        }
        if str_eq(x.lifecycle_state.as_str(), "ready") == ready {
            r.push(x);
        }
        i = i + 1;
    }
    assert(orig.take(i as int) =~= orig);
    r
}

/// The ready and the other items together are the queue's items, each once.
pub proof fn lemma_ready_blocked_partition(s: Seq<PromotionQueueItem>)
    ensures
        items_where_ready(s, true).to_multiset().add(items_where_ready(s, false).to_multiset())
            == s.to_multiset(),
    decreases s.len(),
{
    broadcast use vstd::seq_lib::group_to_multiset_ensures;

    if s.len() == 0 {
        assert(items_where_ready(s, true).to_multiset() =~= Multiset::empty());
        assert(items_where_ready(s, false).to_multiset() =~= Multiset::empty());
        assert(s.to_multiset() =~= Multiset::empty());
    } else {
        lemma_ready_blocked_partition(s.drop_last());
        assert(s =~= s.drop_last().push(s.last()));
        assert(items_where_ready(s, true).to_multiset().add(items_where_ready(s, false).to_multiset())
            =~= s.to_multiset());
    }
}

/// The ready list and the blocked list of a queue, as `promotion_ready_items`
/// and `promotion_blocked_items` give them, are sorted by run id and together
/// hold the queue's items, each once: their lengths add up to the queue's.
pub proof fn lemma_ready_blocked_lists(s: Seq<PromotionQueueItem>)
    ensures
        is_ranked(sort_ranked(items_where_ready(s, true))),
        is_ranked(sort_ranked(items_where_ready(s, false))),
        sort_ranked(items_where_ready(s, true)).to_multiset().add(
            sort_ranked(items_where_ready(s, false)).to_multiset(),
        ) == s.to_multiset(),
        sort_ranked(items_where_ready(s, true)).len() + sort_ranked(items_where_ready(s, false)).len()
            == s.len(),
{
    broadcast use vstd::seq_lib::group_to_multiset_ensures;

    lemma_ready_blocked_partition(s);
    lemma_sort_ranked(items_where_ready(s, true));
    lemma_sort_ranked(items_where_ready(s, false));
    assert(s.to_multiset().len() == s.len());
    assert(items_where_ready(s, true).to_multiset().len() == items_where_ready(s, true).len());
    assert(items_where_ready(s, false).to_multiset().len() == items_where_ready(s, false).len());
}

/// The queue items that are ready for promotion, sorted by run id.
pub fn promotion_ready_items(queue: PromotionQueue) -> (r: Vec<PromotionQueueItem>)
    ensures
        r@ == sort_ranked(items_where_ready(queue.items@, true)),
{
    sort_stable(filter_ready(queue.items, true))
}

/// The queue items that are not ready for promotion, sorted by run id.
pub fn promotion_blocked_items(queue: PromotionQueue) -> (r: Vec<PromotionQueueItem>)
    ensures
        r@ == sort_ranked(items_where_ready(queue.items@, false)),
{
    sort_stable(filter_ready(queue.items, false))
}

/// The lifecycle of the candidate with run id `run_id`: the first queue item
/// with that run id, or an error naming the run id.
pub fn candidate_lifecycle(queue: PromotionQueue, run_id: &str) -> (r: Result<PromotionQueueItem, String>)
    ensures
        match r {
            Ok(item) => exists|k: int|
                0 <= k < queue.items@.len() && queue.items@[k] == item && item.run_id@ == run_id@
                    && forall|m: int| 0 <= m < k ==> #[trigger] queue.items@[m].run_id@ != run_id@,
            Err(e) => (forall|k: int|
                0 <= k < queue.items@.len() ==> #[trigger] queue.items@[k].run_id@ != run_id@) && e@
                == "candidate lifecycle not found for "@ + run_id@,
        },
{
    let mut items = queue.items;
    let ghost orig = items@;
    let mut i: usize = 0;
    while i < items.len()
        invariant
            items@ == orig,
            orig == queue.items@,
            i <= items.len(),
            forall|m: int| 0 <= m < i ==> #[trigger] orig[m].run_id@ != run_id@,
        decreases items.len() - i,
    {
        if str_eq(items[i].run_id.as_str(), run_id) {
            let item = items.remove(i);
            assert(queue.items@[i as int] == item);
            return Ok(item);
        }
        i = i + 1;
    }
    Err(concat("candidate lifecycle not found for ", run_id))
}

/// The name of a candidate state as the queue report prints it.
pub open spec fn state_name(st: CandidateState) -> Seq<char> {
    match st {
        CandidateState::Ready => "Ready"@,
        CandidateState::Blocked => "Blocked"@,
        CandidateState::Quarantined => "Quarantined"@,
        CandidateState::Stale => "Stale"@,
        CandidateState::Legacy => "Legacy"@,
        CandidateState::Duplicate => "Duplicate"@,
        CandidateState::Unreplayable => "Unreplayable"@,
        CandidateState::AlreadyPromoted => "AlreadyPromoted"@,
        CandidateState::Unknown => "Unknown"@,
    }
}

/// The name of a candidate state as the queue report prints it.
pub fn candidate_state_name(st: CandidateState) -> (r: &'static str)
    ensures
        r@ == state_name(st),
{
    match st {
        CandidateState::Ready => "Ready",
        CandidateState::Blocked => "Blocked",
        CandidateState::Quarantined => "Quarantined",
        CandidateState::Stale => "Stale",
        CandidateState::Legacy => "Legacy",
        CandidateState::Duplicate => "Duplicate",
        CandidateState::Unreplayable => "Unreplayable",
        CandidateState::AlreadyPromoted => "AlreadyPromoted",
        CandidateState::Unknown => "Unknown",
    }
}

/// One line of the queue report.
pub open spec fn item_line(it: PromotionQueueItem) -> Seq<char> {
    "- "@ + it.run_id@ + " kind="@ + it.mutation_kind@ + " class="@ + it.mutation_class@
        + " replay="@ + it.replay_status@ + " lifecycle="@ + it.lifecycle_state@ + " state="@
        + state_name(it.candidate_state) + " allowed="@ + crate::text::bool_text(it.promotion_allowed)
        + " target="@ + it.target_file@ + " reason="@ + it.reason_ru@
}

fn render_item_line(it: &PromotionQueueItem) -> (r: String)
    ensures
        r@ == item_line(*it),
{
    let mut r = owned("- ");
    push_str(&mut r, it.run_id.as_str());
    push_str(&mut r, " kind=");
    push_str(&mut r, it.mutation_kind.as_str());
    push_str(&mut r, " class=");
    push_str(&mut r, it.mutation_class.as_str());
    push_str(&mut r, " replay=");
    push_str(&mut r, it.replay_status.as_str());
    push_str(&mut r, " lifecycle=");
    push_str(&mut r, it.lifecycle_state.as_str());
    push_str(&mut r, " state=");
    push_str(&mut r, candidate_state_name(it.candidate_state));
    push_str(&mut r, " allowed=");
    crate::text::push_bool(&mut r, it.promotion_allowed);
    push_str(&mut r, " target=");
    push_str(&mut r, it.target_file.as_str());
    push_str(&mut r, " reason=");
    push_str(&mut r, it.reason_ru.as_str());
    r
}

/// The Markdown report of the promotion queue.
pub open spec fn queue_markdown(q: PromotionQueue) -> Seq<char> {
    let n = q.items@.len();
    let ready = q.summary.ready_candidates;
    let blocked: nat = if n >= ready { (n - ready) as nat } else { 0 };
    "# Promotion Queue EVA\n\nitems="@ + decimal(n) + "\nready="@ + decimal(ready as nat)
        + "\nblocked="@ + decimal(blocked) + "\nquarantined="@ + decimal(
        q.summary.quarantined_candidates as nat,
    ) + "\nlegacy="@ + decimal(q.summary.legacy_candidates as nat) + "\nduplicate="@ + decimal(
        q.summary.duplicate_candidates as nat,
    ) + "\nunreplayable="@ + decimal(q.summary.unreplayable_candidates as nat)
        + "\nalready_promoted="@ + decimal(q.summary.already_promoted_candidates as nat)
        + "\nunknown="@ + decimal(q.summary.unknown_candidates as nat) + "\n\n"@ + join_or(
        q.items@.map_values(|it: PromotionQueueItem| item_line(it)),
        "\n"@,
        "(none)"@,
    ) + "\n"@
}

/// Renders the promotion queue as its Markdown report.
pub fn render_promotion_queue_markdown(queue: &PromotionQueue) -> (r: String)
    ensures
        r@ == queue_markdown(*queue),
{
    let mut lines: Vec<String> = Vec::new();
    let mut i: usize = 0;
    while i < queue.items.len()
        invariant
            i <= queue.items.len(),
            views(lines@) == queue.items@.take(i as int).map_values(
                |it: PromotionQueueItem| item_line(it),
            ),
        decreases queue.items.len() - i,
    {
        let line = render_item_line(&queue.items[i]);
        let ghost before = views(lines@);
        let ghost lv = line@;
        lines.push(line);
        proof {
            let f = |it: PromotionQueueItem| item_line(it);
            assert(views(lines@) =~= before.push(lv));
            assert(queue.items@.take(i + 1) =~= queue.items@.take(i as int).push(queue.items@[i as int]));
            assert(queue.items@.take(i + 1).map_values(f) =~= queue.items@.take(i as int).map_values(f).push(f(queue.items@[i as int])));
        }
        i = i + 1;
    }
    assert(queue.items@.take(i as int) =~= queue.items@);
    let n = queue.items.len();
    let ready = queue.summary.ready_candidates;
    let blocked: usize = n.saturating_sub(ready);
    let mut r = owned("# Promotion Queue EVA\n\nitems=");
    push_decimal(&mut r, n as u64);
    push_str(&mut r, "\nready=");
    push_decimal(&mut r, ready as u64);
    push_str(&mut r, "\nblocked=");
    push_decimal(&mut r, blocked as u64);
    push_str(&mut r, "\nquarantined=");
    push_decimal(&mut r, queue.summary.quarantined_candidates as u64);
    push_str(&mut r, "\nlegacy=");
    push_decimal(&mut r, queue.summary.legacy_candidates as u64);
    push_str(&mut r, "\nduplicate=");
    push_decimal(&mut r, queue.summary.duplicate_candidates as u64);
    push_str(&mut r, "\nunreplayable=");
    push_decimal(&mut r, queue.summary.unreplayable_candidates as u64);
    push_str(&mut r, "\nalready_promoted=");
    push_decimal(&mut r, queue.summary.already_promoted_candidates as u64);
    push_str(&mut r, "\nunknown=");
    push_decimal(&mut r, queue.summary.unknown_candidates as u64);
    push_str(&mut r, "\n\n");
    let body = join_or_strings(&lines, "\n", "(none)");
    push_str(&mut r, body.as_str());
    push_str(&mut r, "\n");
    r
}

/// What the promotion review of a candidate said.
#[derive(Clone, Debug)]
pub struct ReviewOutcome {
    pub replay_status: String,
    pub promotion_blockers: Vec<String>,
    pub promotion_allowed: bool,
}

/// The queue item of a stored candidate: `mutation_class` is the class its
/// report records (or the one its mutation kind implies), `review` the review
/// outcome when a review could be made; without one the replay status is
/// `unknown`, the only blocker `review_unavailable`, and promotion is not allowed.
pub fn build_queue_item(
    summary: &CandidateSummary,
    mutation_class: String,
    review: Option<ReviewOutcome>,
    report_exists: bool,
    report_path: String,
    updated_at: u64,
) -> (item: PromotionQueueItem)
    ensures
        ({
            let (replay, bl, allowed) = match review {
                Some(rv) => (rv.replay_status@, views(rv.promotion_blockers@), rv.promotion_allowed),
                None => ("unknown"@, seq!["review_unavailable"@], false),
            };
            let (life, promo, reason) = lifecycle_of(*summary, mutation_class@, replay, bl, allowed, report_exists);
            let (state, state_reason) = candidate_state_of(*summary, mutation_class@, replay, bl, report_exists);
            &&& item.run_id@ == summary.run_id@
            &&& item.mutation_kind@ == summary.mutation_kind@
            &&& item.mutation_class@ == mutation_class@
            &&& item.target_file@ == summary.target_file@
            &&& item.replay_status@ == replay
            &&& item.promotion_state@ == promo
            &&& item.promotion_allowed == allowed
            &&& views(item.promotion_blockers@) == bl
            &&& item.report_path@ == report_path@
            &&& item.lifecycle_state@ == life
            &&& item.candidate_state == state
            &&& item.candidate_state_reason@ == state_reason
            &&& item.cargo_test_ok == Some(summary.cargo_test_ok)
            &&& item.cargo_run_ok == Some(summary.cargo_run_ok)
            &&& item.duplicate_rejected == summary.duplicate_rejected
            &&& item.promoted == (summary.status == EvolutionStatus::Promoted)
            &&& item.reason_ru@ == reason
            &&& item.updated_at == updated_at
        }),
{
    let (replay_status, promotion_blockers, promotion_allowed) = match review {
        Some(rv) => (rv.replay_status, rv.promotion_blockers, rv.promotion_allowed),
        None => {
            let mut bl: Vec<String> = Vec::new();
            crate::text::push_owned(&mut bl, "review_unavailable");
            assert(views(bl@) =~= seq!["review_unavailable"@]);
            (owned("unknown"), bl, false)
        },
    };
    let (lifecycle_state, promotion_state, reason_ru) = classify_lifecycle(
        summary,
        mutation_class.as_str(),
        replay_status.as_str(),
        &promotion_blockers,
        promotion_allowed,
        report_exists,
    );
    let (candidate_state, candidate_state_reason) = classify_candidate_state(
        summary,
        mutation_class.as_str(),
        replay_status.as_str(),
        &promotion_blockers,
        report_exists,
    );
    PromotionQueueItem {
        run_id: summary.run_id.clone(),
        mutation_kind: summary.mutation_kind.clone(),
        mutation_class,
        target_file: summary.target_file.clone(),
        replay_status,
        promotion_state,
        promotion_allowed,
        promotion_blockers,
        report_path,
        lifecycle_state,
        candidate_state,
        candidate_state_reason,
        cargo_test_ok: Some(summary.cargo_test_ok),
        cargo_run_ok: Some(summary.cargo_run_ok),
        duplicate_rejected: summary.duplicate_rejected,
        promoted: summary.status == EvolutionStatus::Promoted,
        reason_ru,
        updated_at,
    }
}

/// The promotion queue of freshly built items: sorted by run id and summarised.
pub fn refresh_promotion_queue(items: Vec<PromotionQueueItem>, generated_at: u64) -> (q: PromotionQueue)
    ensures
        q.items@ == sort_ranked(items@),
        q.summary == queue_summary_of(sort_ranked(items@)),
        q.generated_at == generated_at,
{
    let items = sort_stable(items);
    let summary = summarize_queue(&items);
    PromotionQueue { items, summary, generated_at }
}

} // verus!
