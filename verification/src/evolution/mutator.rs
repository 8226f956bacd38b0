//! Application of a validated mutation to the text of its target file.
use vstd::prelude::*;

use crate::contracts::{MutationContract, MutationKind};
use crate::evolution::validator::{
    is_test_kind, mutation_error, verdict, MutationBounds, MAX_TARGET_FILE_BYTES,
};
use crate::text::{chars_of, find_first, first_occurrence, has_infix, occurs_at, owned, push_str,
    push_char, string_of_range};

verus! {

/// The mutation kinds that append their payload at the end of the target.
pub open spec fn appends_payload(k: MutationKind) -> bool {
    k == MutationKind::AppendComment || k == MutationKind::AddMetricField
        || k == MutationKind::AddTestSkeleton || k == MutationKind::AddUnitTest
        || k == MutationKind::AddReplayAssertion
}

/// The error for the target file's presence and size, if any: only kinds
/// that create generated tests may write a file that does not exist yet.
pub open spec fn target_presence_error(m: MutationContract, exists: bool, size: u64) -> Option<
    Seq<char>,
> {
    if !exists && !is_test_kind(m.kind) {
        Some("target file does not exist: "@ + m.target_file@)
    } else if exists && size > MAX_TARGET_FILE_BYTES {
        Some("target file too large"@)
    } else {
        None
    }
}

/// The first occurrence of `p` in `s` is unique.
pub proof fn lemma_first_occurrence_unique(s: Seq<char>, p: Seq<char>, i: int, j: int)
    requires
        first_occurrence(s, p, i),
        first_occurrence(s, p, j),
    ensures
        i == j,
{
    if i < j {
        assert(!occurs_at(s, p, i));
    } else if j < i {
        assert(!occurs_at(s, p, j));
    }
}

/// `s` with its first occurrence of `p` replaced by `r` (`str::replacen(p, r, 1)`
/// on a text that holds `p`).
pub open spec fn replace_first(s: Seq<char>, p: Seq<char>, r: Seq<char>) -> Seq<char> {
    let i = choose|i: int| first_occurrence(s, p, i);
    s.subrange(0, i) + r + s.subrange(i + p.len(), s.len() as int)
}

/// The new text of a target that held `content`, or the error that stops the mutation.
pub open spec fn mutated_content(m: MutationContract, content: Seq<char>) -> Result<
    Seq<char>,
    Seq<char>,
> {
    if appends_payload(m.kind) {
        match m.append {
            Some(a) => Ok(content + seq!['\n'] + a@ + seq!['\n']),
            None => Err("missing append payload"@),
        }
    } else {
        match (m.search, m.replace) {
            (None, _) => Err("missing search pattern"@),
            (Some(_), None) => Err("missing replacement"@),
            (Some(s), Some(r)) => if has_infix(content, s@) {
                Ok(replace_first(content, s@, r@))
            } else {
                Err("search pattern not found"@)
            },
        }
    }
}

/// `r` is the result that `expected` describes, strings taken by their views.
pub open spec fn same_outcome(r: Result<String, String>, expected: Result<Seq<char>, Seq<char>>) -> bool {
    match (r, expected) {
        (Ok(a), Ok(b)) => a@ == b,
        (Err(a), Err(b)) => a@ == b,
        _ => false,
    }
}

/// Checks that the target may be written: it exists, or the mutation creates
/// generated tests; and an existing target is within the size limit.
pub fn check_target_presence(mutation: &MutationContract, exists: bool, size: u64) -> (r: Result<
    (),
    String,
>)
    ensures
        verdict(r, target_presence_error(*mutation, exists, size)),
{
    let test_kind = match mutation.kind {
        MutationKind::AddTestSkeleton | MutationKind::AddUnitTest
        | MutationKind::AddReplayAssertion => true,
        _ => false,
    };
    if !exists && !test_kind {
        let mut message = owned("target file does not exist: ");
        push_str(&mut message, mutation.target_file.as_str());
        return Err(message);
    }
    if exists && size > MAX_TARGET_FILE_BYTES {
        return Err(owned("target file too large"));
    }
    Ok(())
}

/// Replaces the first occurrence of `search` in `content` by `replace`, or
/// gives `None` when `content` does not hold `search`.
pub fn replace_first_occurrence(content: &str, search: &str, replace: &str) -> (r: Option<String>)
    ensures
        r is None <==> !has_infix(content@, search@),
        r matches Some(t) ==> t@ == replace_first(content@, search@, replace@),
{
    let x = chars_of(content);
    let y = chars_of(search);
    match find_first(&x, &y) {
        None => None,
        Some(i) => {
            assert(occurs_at(x@, y@, i as int));
            assert(i + y@.len() <= x@.len());
            let n = x.len();
            let end = i + y.len();
            let mut out = string_of_range(&x, 0, i);
            push_str(&mut out, replace);
            let tail = string_of_range(&x, end, n);
            push_str(&mut out, tail.as_str());
            proof {
                let k = choose|k: int| first_occurrence(content@, search@, k);
                lemma_first_occurrence_unique(content@, search@, i as int, k);
            }
            Some(out)
        },
    }
}

/// The new text of the target of `mutation` whose current text is `content`
/// (empty for a target that does not exist yet): the payload appended on a
/// line of its own, or the first occurrence of the search text replaced.
pub fn apply_mutation_to_content(mutation: &MutationContract, content: &str) -> (r: Result<
    String,
    String,
>)
    ensures
        same_outcome(r, mutated_content(*mutation, content@)),
{
    match mutation.kind {
        MutationKind::AppendComment | MutationKind::AddMetricField | MutationKind::AddTestSkeleton
        | MutationKind::AddUnitTest | MutationKind::AddReplayAssertion => {
            match &mutation.append {
                Some(append) => {
                    let mut out = owned(content);
                    push_char(&mut out, '\n');
                    push_str(&mut out, append.as_str());
                    push_char(&mut out, '\n');
                    assert(out@ =~= content@ + seq!['\n'] + append@ + seq!['\n']);
                    Ok(out)
                },
                None => Err(owned("missing append payload")),
            }
        },
        _ => {
            match (&mutation.search, &mutation.replace) {
                (None, _) => Err(owned("missing search pattern")),
                (Some(_), None) => Err(owned("missing replacement")),
                (Some(search), Some(replace)) => {
                    match replace_first_occurrence(content, search.as_str(), replace.as_str()) {
                        Some(out) => Ok(out),
                        None => Err(owned("search pattern not found")),
                    }
                },
            }
        },
    }
}

/// A text in which `p` occurs has a first occurrence of `p`.
proof fn lemma_first_occurrence_exists(s: Seq<char>, p: Seq<char>, k: int)
    requires
        occurs_at(s, p, k),
    ensures
        exists|i: int| first_occurrence(s, p, i),
    decreases k,
{
    if exists|j: int| 0 <= j < k && occurs_at(s, p, j) {
        let j = choose|j: int| 0 <= j < k && occurs_at(s, p, j);
        lemma_first_occurrence_exists(s, p, j);
    } else {
        assert(first_occurrence(s, p, k));
    }
}

/// A mutation that applies keeps what it does not change: an appending one
/// keeps the old text in front and holds its payload after it; a
/// search-and-replace one keeps the text before the first occurrence of its
/// search text and holds its replacement there.
pub proof fn lemma_applied_mutation_keeps_text(m: MutationContract, content: Seq<char>)
    ensures
        mutated_content(m, content) matches Ok(out) ==> {
            if appends_payload(m.kind) {
                &&& out.take(content.len() as int) == content
                &&& occurs_at(out, m.append->0@, content.len() as int + 1)
            } else {
                exists|i: int|
                    first_occurrence(content, m.search->0@, i) && out.take(i) == content.take(i)
                        && occurs_at(out, m.replace->0@, i)
            }
        },
{
    if mutated_content(m, content) is Ok {
        let out = mutated_content(m, content)->Ok_0;
        if appends_payload(m.kind) {
            let a = m.append->0@;
            assert(out == content + seq!['\n'] + a + seq!['\n']);
            assert(out.take(content.len() as int) =~= content);
            assert(out.subrange(content.len() as int + 1, content.len() as int + 1 + a.len()) =~= a);
        } else {
            let sp = m.search->0@;
            let rp = m.replace->0@;
            let k = choose|k: int| occurs_at(content, sp, k);
            lemma_first_occurrence_exists(content, sp, k);
            let i = choose|i: int| first_occurrence(content, sp, i);
            assert(out == content.subrange(0, i) + rp + content.subrange(i + sp.len(), content.len() as int));
            assert(out.take(i) =~= content.take(i));
            assert(out.subrange(i, i + rp.len()) =~= rp);
        }
    }
}

/// A mutation that passed validation never fails for want of a payload: an
/// appending one always applies, and a search-and-replace one applies
/// exactly when the target text holds its search text.
pub proof fn lemma_validated_mutation_applies(
    m: MutationContract,
    b: MutationBounds,
    absolute: bool,
    escapes: bool,
    content: Seq<char>,
)
    requires
        mutation_error(m, b, absolute, escapes) is None,
    ensures
        appends_payload(m.kind) ==> mutated_content(m, content) is Ok,
        !appends_payload(m.kind) ==> (mutated_content(m, content) is Ok <==> has_infix(
            content,
            m.search->0@,
        )),
{
}

} // verus!
