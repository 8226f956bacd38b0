//! The bounded mutation templates: generated tests and the metric and summary edits.
use vstd::prelude::*;

use crate::contracts::{MutationContract, MutationKind, MutationPlan};
use crate::evolution::validator::{
    byte_len, mutation_error, payload_bytes, MutationBounds, MAX_MUTATION_PAYLOAD_BYTES,
    MAX_TARGET_FILE_BYTES,
};
use crate::paths::{plain_path, rooted, slash_segments};
use crate::text::{
    ascii_alnum, ascii_lower, ascii_lower_char, chars_of, is_ascii_alnum, owned, push_char, push_str,
    trim_start,
};
use vstd::utf8::{is_ascii_chars, is_ascii_chars_encode_utf8};

verus! {

/// The file that generated tests are appended to.
pub open spec fn generated_test_target() -> Seq<char> {
    "tests/evolution_generated_tests.rs"@
}

/// `c` with non-alphanumeric characters replaced by `_`.
pub open spec fn underscore_other(c: char) -> char {
    if is_ascii_alnum(c) {
        c
    } else {
        '_'
    }
}

/// `s` without leading `_`.
pub open spec fn trim_underscore_start(s: Seq<char>) -> Seq<char>
    decreases s.len(),
{
    if s.len() > 0 && s[0] == '_' {
        trim_underscore_start(s.drop_first())
    } else {
        s
    }
}

/// `s` without trailing `_`.
pub open spec fn trim_underscore_end(s: Seq<char>) -> Seq<char>
    decreases s.len(),
{
    if s.len() > 0 && s.last() == '_' {
        trim_underscore_end(s.drop_last())
    } else {
        s
    }
}

/// The suffix of generated test names: the plan id with other characters
/// replaced by `_`, without leading or trailing `_`, in lower case.
pub open spec fn test_suffix_of(id: Seq<char>) -> Seq<char> {
    trim_underscore_end(
        trim_underscore_start(id.map_values(|c: char| underscore_other(c))),
    ).map_values(|c: char| ascii_lower(c))
}

/// The suffix of generated test names for a plan.
pub fn test_suffix(plan: &MutationPlan) -> (r: String)
    ensures
        r@ == test_suffix_of(plan.id@),
{
    identifier_suffix(plan.id.as_str())
}

/// `id` as an identifier fragment: other characters than ASCII letters and
/// digits become `_`, leading and trailing `_` go, and letters are lower case.
pub fn identifier_suffix(id: &str) -> (r: String)
    ensures
        r@ == test_suffix_of(id@),
{
    let x = chars_of(id);
    let ghost mapped = id@.map_values(|c: char| underscore_other(c));
    let mut m: Vec<char> = Vec::new();
    let mut i: usize = 0;
    while i < x.len()
        invariant
            x@ == id@,
            mapped == id@.map_values(|c: char| underscore_other(c)),
            i <= x.len(),
            m@ == mapped.take(i as int),
        decreases x.len() - i,
    {
        let c = x[i];
        m.push(if ascii_alnum(c) { c } else { '_' });
        assert(mapped.take(i + 1) =~= mapped.take(i as int).push(mapped[i as int]));
        i = i + 1;
    }
    assert(mapped.take(i as int) =~= mapped);
    let mut lo: usize = 0;
    assert(m@.skip(0) =~= m@);
    while lo < m.len() && m[lo] == '_'
        invariant
            lo <= m.len(),
            trim_underscore_start(m@) == trim_underscore_start(m@.skip(lo as int)),
        decreases m.len() - lo,
    {
        assert(m@.skip(lo as int).drop_first() =~= m@.skip(lo + 1));
        lo = lo + 1;
    }
    let mut hi: usize = m.len();
    assert(m@.skip(lo as int) =~= m@.subrange(lo as int, hi as int));
    while hi > lo && m[hi - 1] == '_'
        invariant
            lo <= hi <= m.len(),
            trim_underscore_end(trim_underscore_start(m@)) == trim_underscore_end(
                m@.subrange(lo as int, hi as int),
            ),
        decreases hi,
    {
        assert(m@.subrange(lo as int, hi as int).drop_last() =~= m@.subrange(lo as int, hi - 1));
        hi = hi - 1;
    }
    let ghost kept = m@.subrange(lo as int, hi as int);
    let mut r = String::new();
    let mut k = lo;
    while k < hi
        invariant
            lo <= k <= hi <= m.len(),
            kept == m@.subrange(lo as int, hi as int),
            r@ == kept.take(k - lo).map_values(|c: char| ascii_lower(c)),
        decreases hi - k,
    {
        push_char(&mut r, ascii_lower_char(m[k]));
        assert(kept.take(k + 1 - lo) =~= kept.take(k - lo).push(kept[k - lo]));
        assert(kept.take(k + 1 - lo).map_values(|c: char| ascii_lower(c)) =~= kept.take(
            k - lo,
        ).map_values(|c: char| ascii_lower(c)).push(ascii_lower(kept[k - lo])));
        k = k + 1;
    }
    assert(kept.take(k - lo) =~= kept);
    r
}

/// The lower-case hexadecimal digit for `d` (`0 <= d < 16`).
pub open spec fn hex_char(d: int) -> char {
    seq!['0', '1', '2', '3', '4', '5', '6', '7', '8', '9', 'a', 'b', 'c', 'd', 'e', 'f'][d]
}

/// `n` in lower-case hexadecimal, without leading zeros (`{:x}`).
pub open spec fn hex(n: nat) -> Seq<char>
    decreases n,
{
    if n < 16 {
        seq![hex_char(n as int)]
    } else {
        hex(n / 16) + seq![hex_char((n % 16) as int)]
    }
}

pub(crate) fn hex_digit(d: u64) -> (c: char)
    requires
        d < 16,
    ensures
        c == hex_char(d as int),
{
    let digits = [
        '0', '1', '2', '3', '4', '5', '6', '7', '8', '9', 'a', 'b', 'c', 'd', 'e', 'f',
    ];
    let c = digits[d as usize];
    assert(c == hex_char(d as int)) by {
        assert(digits@ =~= seq!['0', '1', '2', '3', '4', '5', '6', '7', '8', '9', 'a', 'b', 'c', 'd', 'e', 'f']);
    }
    c
}

fn push_hex(s: &mut String, n: u64)
    ensures
        final(s)@ == old(s)@ + hex(n as nat),
    decreases n,
{
    if n < 16 {
        push_char(s, hex_digit(n));
    } else {
        push_hex(s, n / 16);
        push_char(s, hex_digit(n % 16));
    }
}

proof fn lemma_hex_nonempty(n: nat)
    ensures
        hex(n).len() >= 1,
    decreases n,
{
    if n >= 16 {
        lemma_hex_nonempty(n / 16);
    }
}

/// The seed of the fixed digest: the plan id and target lengths in bytes, weighted.
pub open spec fn digest_seed(plan: MutationPlan) -> nat {
    crate::evolution::validator::byte_len(plan.id@) * 7919 + crate::evolution::validator::byte_len(
        plan.target_file@,
    ) * 104729
}

/// The fixed 64-character digest of a plan: its seed in hexadecimal, repeated.
pub open spec fn fixed_hex_of(plan: MutationPlan) -> Seq<char> {
    let h = hex(digest_seed(plan));
    Seq::new(64, |i: int| h[i % (h.len() as int)])
}

/// The fixed 64-character digest of a plan.
pub fn fixed_hex(plan: &MutationPlan) -> (r: String)
    requires
        digest_seed(*plan) <= u64::MAX,
    ensures
        r@ == fixed_hex_of(*plan),
{
    let seed: u64 = plan.id.as_str().len() as u64 * 7919 + plan.target_file.as_str().len() as u64
        * 104729;
    let mut h = String::new();
    push_hex(&mut h, seed);
    let x = chars_of(h.as_str());
    proof {
        lemma_hex_nonempty(seed as nat);
    }
    let mut r = String::new();
    let mut i: usize = 0;
    while i < 64
        invariant
            x@ == hex(seed as nat),
            x@.len() >= 1,
            seed == digest_seed(*plan),
            i <= 64,
            r@ == fixed_hex_of(*plan).take(i as int),
        decreases 64 - i,
    {
        push_char(&mut r, x[i % x.len()]);
        assert(fixed_hex_of(*plan).take(i + 1) =~= fixed_hex_of(*plan).take(i as int).push(
            x@[(i as int) % (x@.len() as int)],
        ));
        i = i + 1;
    }
    assert(fixed_hex_of(*plan).take(64) =~= fixed_hex_of(*plan));
    r
}

/// `"mutation:"` and the plan id.
pub open spec fn mutation_id(plan: MutationPlan) -> Seq<char> {
    "mutation:"@ + plan.id@
}

fn prefixed(prefix: &str, t: &str) -> (r: String)
    ensures
        r@ == prefix@ + t@,
{
    let mut r = owned(prefix);
    push_str(&mut r, t);
    r
}

/// The appended body of a generated unit test.
pub open spec fn unit_test_body(plan: MutationPlan) -> Seq<char> {
    "#[test]\nfn eva_generated_"@ + test_suffix_of(plan.id@)
        + "_deterministic() {\n    let digest = \""@ + fixed_hex_of(plan)
        + "\";\n    assert_eq!(digest.len(), 64);\n    assert!(digest.chars().all(|ch| ch.is_ascii_hexdigit()));\n}\n"@
}

/// A generated deterministic unit test for the plan.
pub fn generate_add_unit_test(plan: &MutationPlan) -> (m: MutationContract)
    requires
        digest_seed(*plan) <= u64::MAX,
    ensures
        m.id@ == mutation_id(*plan),
        m.kind == MutationKind::AddUnitTest,
        m.target_file@ == generated_test_target(),
        m.search is None,
        m.replace is None,
        m.append is Some && m.append->0@ == unit_test_body(*plan),
        m.reason@ == "add deterministic generated unit test for "@ + plan.id@,
{
    let mut body = owned("#[test]\nfn eva_generated_");
    push_str(&mut body, test_suffix(plan).as_str());
    push_str(&mut body, "_deterministic() {\n    let digest = \"");
    push_str(&mut body, fixed_hex(plan).as_str());
    push_str(
        &mut body,
        "\";\n    assert_eq!(digest.len(), 64);\n    assert!(digest.chars().all(|ch| ch.is_ascii_hexdigit()));\n}\n",
    );
    MutationContract {
        id: prefixed("mutation:", plan.id.as_str()),
        kind: MutationKind::AddUnitTest,
        target_file: owned("tests/evolution_generated_tests.rs"),
        search: None,
        replace: None,
        append: Some(body),
        reason: prefixed("add deterministic generated unit test for ", plan.id.as_str()),
    }
}

/// The appended body of a generated replay assertion.
pub open spec fn replay_assertion_body(plan: MutationPlan) -> Seq<char> {
    "#[test]\nfn eva_generated_"@ + test_suffix_of(plan.id@)
        + "_replay_assertion() {\n    let fixture = [(\"candidate\", true), (\"replay\", true), (\"failed\", false)];\n    let passed = fixture.iter().filter(|(_, ok)| *ok).count();\n    assert_eq!(passed, 2);\n    assert!(fixture.iter().any(|(name, _)| *name == \"replay\"));\n}\n"@
}

/// A generated deterministic replay assertion for the plan.
pub fn generate_add_replay_assertion(plan: &MutationPlan) -> (m: MutationContract)
    ensures
        m.id@ == mutation_id(*plan),
        m.kind == MutationKind::AddReplayAssertion,
        m.target_file@ == generated_test_target(),
        m.search is None,
        m.replace is None,
        m.append is Some && m.append->0@ == replay_assertion_body(*plan),
        m.reason@ == "add deterministic replay assertion for "@ + plan.id@,
{
    let mut body = owned("#[test]\nfn eva_generated_");
    push_str(&mut body, test_suffix(plan).as_str());
    push_str(
        &mut body,
        "_replay_assertion() {\n    let fixture = [(\"candidate\", true), (\"replay\", true), (\"failed\", false)];\n    let passed = fixture.iter().filter(|(_, ok)| *ok).count();\n    assert_eq!(passed, 2);\n    assert!(fixture.iter().any(|(name, _)| *name == \"replay\"));\n}\n",
    );
    MutationContract {
        id: prefixed("mutation:", plan.id.as_str()),
        kind: MutationKind::AddReplayAssertion,
        target_file: owned("tests/evolution_generated_tests.rs"),
        search: None,
        replace: None,
        append: Some(body),
        reason: prefixed("add deterministic replay assertion for ", plan.id.as_str()),
    }
}

/// The learning summary format before the edit.
pub open spec fn learning_summary_search() -> Seq<char> {
    "total regression patterns: {}\\ntotal success patterns: {}\\nmutation dedup count: {}\\ntop risky files: {}\\ntop successful files: {}\",\n        regressions.len(),\n        successes.len(),\n        dedup_entries.len(),\n        risky,\n        successful"@
}

/// The learning summary format after the edit.
pub open spec fn learning_summary_replace() -> Seq<char> {
    "total regression patterns: {}\\ntotal success patterns: {}\\nmutation dedup count: {}\\ntop risky files: {}\\ntop successful files: {}\\nlearning source count: {}\",\n        regressions.len(),\n        successes.len(),\n        dedup_entries.len(),\n        risky,\n        successful,\n        regressions.len() + successes.len()"@
}

/// An edit of the metrics learning summary that adds the learning source count.
pub fn generate_add_learning_summary_field(plan: &MutationPlan) -> (m: MutationContract)
    ensures
        m.id@ == mutation_id(*plan),
        m.kind == MutationKind::AddLearningSummaryField,
        m.target_file@ == "src/evolution/metrics.rs"@,
        m.search is Some && m.search->0@ == learning_summary_search(),
        m.replace is Some && m.replace->0@ == learning_summary_replace(),
        m.append is None,
        m.reason@ == "extend learning summary output for "@ + plan.id@,
{
    MutationContract {
        id: prefixed("mutation:", plan.id.as_str()),
        kind: MutationKind::AddLearningSummaryField,
        target_file: owned("src/evolution/metrics.rs"),
        search: Some(
            owned(
                "total regression patterns: {}\\ntotal success patterns: {}\\nmutation dedup count: {}\\ntop risky files: {}\\ntop successful files: {}\",\n        regressions.len(),\n        successes.len(),\n        dedup_entries.len(),\n        risky,\n        successful",
            ),
        ),
        replace: Some(
            owned(
                "total regression patterns: {}\\ntotal success patterns: {}\\nmutation dedup count: {}\\ntop risky files: {}\\ntop successful files: {}\\nlearning source count: {}\",\n        regressions.len(),\n        successes.len(),\n        dedup_entries.len(),\n        risky,\n        successful,\n        regressions.len() + successes.len()",
            ),
        ),
        append: None,
        reason: prefixed("extend learning summary output for ", plan.id.as_str()),
    }
}

/// The metrics constant line before the edit.
pub open spec fn metric_update_search() -> Seq<char> {
    "pub const DEFAULT_METRICS_PATH: &str = \"memory/metrics.json\";\n"@
}

/// The metrics constant lines after the edit.
pub open spec fn metric_update_replace() -> Seq<char> {
    "pub const DEFAULT_METRICS_PATH: &str = \"memory/metrics.json\";\npub const EVA_REPORTS_DIR: &str = \"memory/reports\";\n"@
}

/// An edit of the metrics module that adds the reports directory constant.
pub fn generate_add_metric_update(plan: &MutationPlan) -> (m: MutationContract)
    ensures
        m.id@ == mutation_id(*plan),
        m.kind == MutationKind::AddMetricUpdate,
        m.target_file@ == "src/evolution/metrics.rs"@,
        m.search is Some && m.search->0@ == metric_update_search(),
        m.replace is Some && m.replace->0@ == metric_update_replace(),
        m.append is None,
        m.reason@ == "add compact metric/report constant for "@ + plan.id@,
{
    MutationContract {
        id: prefixed("mutation:", plan.id.as_str()),
        kind: MutationKind::AddMetricUpdate,
        target_file: owned("src/evolution/metrics.rs"),
        search: Some(owned("pub const DEFAULT_METRICS_PATH: &str = \"memory/metrics.json\";\n")),
        replace: Some(
            owned(
                "pub const DEFAULT_METRICS_PATH: &str = \"memory/metrics.json\";\npub const EVA_REPORTS_DIR: &str = \"memory/reports\";\n",
            ),
        ),
        append: None,
        reason: prefixed("add compact metric/report constant for ", plan.id.as_str()),
    }
}

proof fn lemma_trim_underscore_start_is_suffix(s: Seq<char>)
    ensures
        trim_underscore_start(s).len() <= s.len(),
        trim_underscore_start(s) == s.subrange(
            s.len() - trim_underscore_start(s).len(),
            s.len() as int,
        ),
    decreases s.len(),
{
    if s.len() > 0 && s[0] == '_' {
        lemma_trim_underscore_start_is_suffix(s.drop_first());
        let k = trim_underscore_start(s).len();
        assert(s.drop_first().subrange(s.len() - 1 - k, s.len() - 1) =~= s.subrange(
            s.len() - k,
            s.len() as int,
        ));
    } else {
        assert(s.subrange(0, s.len() as int) =~= s);
    }
}

proof fn lemma_trim_underscore_end_is_prefix(s: Seq<char>)
    ensures
        trim_underscore_end(s).len() <= s.len(),
        trim_underscore_end(s) == s.subrange(0, trim_underscore_end(s).len() as int),
    decreases s.len(),
{
    if s.len() > 0 && s.last() == '_' {
        lemma_trim_underscore_end_is_prefix(s.drop_last());
        let k = trim_underscore_end(s).len();
        assert(s.drop_last().subrange(0, k as int) =~= s.subrange(0, k as int));
    } else {
        assert(s.subrange(0, s.len() as int) =~= s);
    }
}

/// The suffix of generated test names is ASCII and no longer than the plan id.
proof fn lemma_test_suffix_is_ascii(id: Seq<char>)
    ensures
        is_ascii_chars(test_suffix_of(id)),
        test_suffix_of(id).len() <= id.len(),
{
    let a = id.map_values(|c: char| underscore_other(c));
    let b = trim_underscore_start(a);
    let c = trim_underscore_end(b);
    lemma_trim_underscore_start_is_suffix(a);
    lemma_trim_underscore_end_is_prefix(b);
    let r = test_suffix_of(id);
    assert forall|i: int| 0 <= i < r.len() implies '\0' <= #[trigger] r[i] <= '\u{7f}' by {
        let j = a.len() - b.len() + i;
        assert(c[i] == b[i]);
        assert(b[i] == a[j]);
        assert(is_ascii_alnum(a[j]) || a[j] == '_');
        assert(r[i] == ascii_lower(c[i]));
    }
}

proof fn lemma_hex_is_ascii(n: nat)
    ensures
        is_ascii_chars(hex(n)),
    decreases n,
{
    if n >= 16 {
        lemma_hex_is_ascii(n / 16);
        assert forall|i: int| 0 <= i < hex(n).len() implies '\0' <= #[trigger] hex(n)[i]
            <= '\u{7f}' by {
            if i < hex(n / 16).len() {
                assert(hex(n)[i] == hex(n / 16)[i]);
            }
        }
    }
}

proof fn lemma_fixed_hex_is_ascii(plan: MutationPlan)
    ensures
        is_ascii_chars(fixed_hex_of(plan)),
        fixed_hex_of(plan).len() == 64,
{
    let h = hex(digest_seed(plan));
    lemma_hex_nonempty(digest_seed(plan));
    lemma_hex_is_ascii(digest_seed(plan));
    assert forall|i: int| 0 <= i < 64 implies '\0' <= #[trigger] fixed_hex_of(plan)[i]
        <= '\u{7f}' by {
        vstd::arithmetic::div_mod::lemma_mod_bound(i, h.len() as int);
        assert(0 <= i % (h.len() as int) < h.len());
    }
}

proof fn lemma_slash_segments_whole(s: Seq<char>)
    requires
        !s.contains('/'),
    ensures
        slash_segments(s) == seq![s],
    decreases s.len(),
{
    if s.len() > 0 {
        assert(!s.drop_first().contains('/')) by {
            if s.drop_first().contains('/') {
                let i = choose|i: int| 0 <= i < s.len() - 1 && s.drop_first()[i] == '/';
                assert(s[i + 1] == '/');
            }
        }
        lemma_slash_segments_whole(s.drop_first());
        assert(s[0] != '/');
        assert(seq![s[0]] + s.drop_first() =~= s);
    } else {
        assert(s =~= Seq::<char>::empty());
    }
}

proof fn lemma_slash_segments_split(a: Seq<char>, c: Seq<char>)
    requires
        !a.contains('/'),
    ensures
        slash_segments(a + seq!['/'] + c) == seq![a] + slash_segments(c),
    decreases a.len(),
{
    let s = a + seq!['/'] + c;
    if a.len() == 0 {
        assert(s.drop_first() =~= c);
        assert(a =~= Seq::<char>::empty());
    } else {
        let a1 = a.drop_first();
        assert(!a1.contains('/')) by {
            if a1.contains('/') {
                let i = choose|i: int| 0 <= i < a1.len() && a1[i] == '/';
                assert(a[i + 1] == '/');
            }
        }
        lemma_slash_segments_split(a1, c);
        assert(s.drop_first() =~= a1 + seq!['/'] + c);
        assert(s[0] == a[0]);
        assert(a[0] != '/');
        assert(seq![a[0]] + a1 =~= a);
        assert((seq![a1] + slash_segments(c)).update(0, seq![a[0]] + a1) =~= seq![a]
            + slash_segments(c));
    }
}

proof fn lemma_ascii_byte_len(s: Seq<char>)
    requires
        is_ascii_chars(s),
        s.len() <= u32::MAX,
    ensures
        byte_len(s) == s.len(),
{
    is_ascii_chars_encode_utf8(s);
}

/// A generated test whose payload is ASCII, within the size limit and starts
/// with a test function passes validation.
proof fn lemma_generated_test_is_accepted(m: MutationContract, b: MutationBounds, id: Seq<char>)
    requires
        m.id@ == "mutation:"@ + id,
        m.kind == MutationKind::AddUnitTest || m.kind == MutationKind::AddReplayAssertion,
        m.target_file@ == generated_test_target(),
        m.search is None,
        m.replace is None,
        m.append is Some,
        is_ascii_chars(m.append->0@),
        m.append->0@.len() <= MAX_MUTATION_PAYLOAD_BYTES,
        crate::text::has_prefix(m.append->0@, "#[test]\nfn "@),
        b.risk_within_limit,
        b.expected_gain_in_range,
        b.target_size is Some ==> b.target_size->0 <= MAX_TARGET_FILE_BYTES,
    ensures
        plain_path(m.target_file@),
        !rooted(m.target_file@),
        !slash_segments(m.target_file@).contains(".."@),
        mutation_error(m, b, false, false) is None,
{
    let body = m.append->0@;
    lemma_ascii_byte_len(body);
    assert(payload_bytes(m.append) <= MAX_MUTATION_PAYLOAD_BYTES);
    let t = m.target_file@;
    let dir = "tests"@;
    let file = "evolution_generated_tests.rs"@;
    reveal_strlit("tests/evolution_generated_tests.rs");
    reveal_strlit("tests");
    reveal_strlit("evolution_generated_tests.rs");
    assert(t =~= dir + seq!['/'] + file);
    assert(!dir.contains('/'));
    assert(!file.contains('/'));
    lemma_slash_segments_split(dir, file);
    lemma_slash_segments_whole(file);
    assert(slash_segments(t) =~= seq![dir, file]);
    reveal_strlit("..");
    assert(!slash_segments(t).contains(".."@)) by {
        if slash_segments(t).contains(".."@) {
            let k = choose|k: int| 0 <= k < 2 && slash_segments(t)[k] == ".."@;
            assert(slash_segments(t)[k].len() == 2);
        }
    }
    assert(!t.contains('\\'));
    assert(!t.contains(':'));
    reveal_strlit("mutation:");
    assert(m.id@[0] == 'm');
    assert(trim_start(m.id@) == m.id@);
    reveal_strlit("Cargo.toml");
    reveal_strlit("/Cargo.toml");
    reveal_strlit("tests/");
    reveal_strlit("src/core/");
    reveal_strlit("src/lib.rs");
    reveal_strlit("src/main.rs");
    reveal_strlit("#[test]");
    reveal_strlit("fn ");
    reveal_strlit("#[test]\nfn ");
    assert(body.subrange(0, 11) == "#[test]\nfn "@);
    assert(body.subrange(0, 7) =~= "#[test]"@) by {
        assert forall|k: int| 0 <= k < 7 implies body.subrange(0, 7)[k] == "#[test]"@[k] by {
            assert(body.subrange(0, 11)[k] == body[k]);
        }
    }
    assert(body.subrange(8, 11) =~= "fn "@) by {
        assert forall|k: int| 0 <= k < 3 implies body.subrange(8, 11)[k] == "fn "@[k] by {
            assert(body.subrange(0, 11)[k + 8] == body[k + 8]);
        }
    }
    assert(crate::text::occurs_at(body, "#[test]"@, 0));
    assert(crate::text::occurs_at(body, "fn "@, 8));
    assert(t.subrange(0, 6) =~= "tests/"@);
    assert(!crate::text::has_suffix(t, "/Cargo.toml"@)) by {
        assert(t[t.len() - 1] != "/Cargo.toml"@[10]);
    }
    assert(!crate::text::has_infix(t, "src/core/"@)) by {
        if crate::text::has_infix(t, "src/core/"@) {
            let i = choose|i: int| crate::text::occurs_at(t, "src/core/"@, i);
            assert(t.subrange(i, i + 9)[2] == 'c');
            assert(t[i + 2] == 'c');
        }
    }
}

/// A generated unit test passes validation. For a plan whose id has at most
/// 1000 characters, the mutation that `generate_add_unit_test` gives is
/// accepted whenever its risk and expected gain are within bounds and its
/// target file is absent or within the size limit. Its target is a plain
/// relative path with no `..` piece, so `validate_mutation` reads it as stated.
pub proof fn lemma_generated_unit_test_is_valid(
    plan: MutationPlan,
    m: MutationContract,
    b: MutationBounds,
)
    requires
        plan.id@.len() <= 1000,
        m.id@ == mutation_id(plan),
        m.kind == MutationKind::AddUnitTest,
        m.target_file@ == generated_test_target(),
        m.search is None,
        m.replace is None,
        m.append is Some && m.append->0@ == unit_test_body(plan),
        b.risk_within_limit,
        b.expected_gain_in_range,
        b.target_size is Some ==> b.target_size->0 <= MAX_TARGET_FILE_BYTES,
    ensures
        plain_path(m.target_file@),
        !rooted(m.target_file@),
        !slash_segments(m.target_file@).contains(".."@),
        mutation_error(m, b, false, false) is None,
{
    let body = unit_test_body(plan);
    let p1 = "#[test]\nfn eva_generated_"@;
    let p2 = "_deterministic() {\n    let digest = \""@;
    let p3 = "\";\n    assert_eq!(digest.len(), 64);\n    assert!(digest.chars().all(|ch| ch.is_ascii_hexdigit()));\n}\n"@;
    reveal_strlit("#[test]\nfn eva_generated_");
    reveal_strlit("_deterministic() {\n    let digest = \"");
    reveal_strlit("\";\n    assert_eq!(digest.len(), 64);\n    assert!(digest.chars().all(|ch| ch.is_ascii_hexdigit()));\n}\n");
    reveal_strlit("#[test]\nfn ");
    lemma_test_suffix_is_ascii(plan.id@);
    lemma_fixed_hex_is_ascii(plan);
    let sfx = test_suffix_of(plan.id@);
    let hx = fixed_hex_of(plan);
    assert(is_ascii_chars(body)) by {
        assert forall|i: int| 0 <= i < body.len() implies '\0' <= #[trigger] body[i] <= '\u{7f}' by {
            if i < p1.len() {
                assert(body[i] == p1[i]);
            } else if i < p1.len() + sfx.len() {
                assert(body[i] == sfx[i - p1.len()]);
            } else if i < p1.len() + sfx.len() + p2.len() {
                assert(body[i] == p2[i - p1.len() - sfx.len()]);
            } else if i < p1.len() + sfx.len() + p2.len() + 64 {
                assert(body[i] == hx[i - p1.len() - sfx.len() - p2.len()]);
            } else {
                assert(body[i] == p3[i - p1.len() - sfx.len() - p2.len() - 64]);
            }
        }
    }
    assert(body.subrange(0, 11) =~= "#[test]\nfn "@);
    lemma_generated_test_is_accepted(m, b, plan.id@);
}

/// A generated replay assertion passes validation, on the same terms as a
/// generated unit test: for a plan whose id has at most 1000 characters, the
/// mutation that `generate_add_replay_assertion` gives is accepted whenever
/// its risk and expected gain are within bounds and its target file is
/// absent or within the size limit.
pub proof fn lemma_generated_replay_assertion_is_valid(
    plan: MutationPlan,
    m: MutationContract,
    b: MutationBounds,
)
    requires
        plan.id@.len() <= 1000,
        m.id@ == mutation_id(plan),
        m.kind == MutationKind::AddReplayAssertion,
        m.target_file@ == generated_test_target(),
        m.search is None,
        m.replace is None,
        m.append is Some && m.append->0@ == replay_assertion_body(plan),
        b.risk_within_limit,
        b.expected_gain_in_range,
        b.target_size is Some ==> b.target_size->0 <= MAX_TARGET_FILE_BYTES,
    ensures
        plain_path(m.target_file@),
        !rooted(m.target_file@),
        !slash_segments(m.target_file@).contains(".."@),
        mutation_error(m, b, false, false) is None,
{
    let body = replay_assertion_body(plan);
    let p1 = "#[test]\nfn eva_generated_"@;
    let p2 = "_replay_assertion() {\n    let fixture = [(\"candidate\", true), (\"replay\", true), (\"failed\", false)];\n    let passed = fixture.iter().filter(|(_, ok)| *ok).count();\n    assert_eq!(passed, 2);\n    assert!(fixture.iter().any(|(name, _)| *name == \"replay\"));\n}\n"@;
    reveal_strlit("#[test]\nfn eva_generated_");
    reveal_strlit("_replay_assertion() {\n    let fixture = [(\"candidate\", true), (\"replay\", true), (\"failed\", false)];\n    let passed = fixture.iter().filter(|(_, ok)| *ok).count();\n    assert_eq!(passed, 2);\n    assert!(fixture.iter().any(|(name, _)| *name == \"replay\"));\n}\n");
    reveal_strlit("#[test]\nfn ");
    lemma_test_suffix_is_ascii(plan.id@);
    let sfx = test_suffix_of(plan.id@);
    assert(is_ascii_chars(body)) by {
        assert forall|i: int| 0 <= i < body.len() implies '\0' <= #[trigger] body[i] <= '\u{7f}' by {
            if i < p1.len() {
                assert(body[i] == p1[i]);
            } else if i < p1.len() + sfx.len() {
                assert(body[i] == sfx[i - p1.len()]);
            } else {
                assert(body[i] == p2[i - p1.len() - sfx.len()]);
            }
        }
    }
    assert(body.subrange(0, 11) =~= "#[test]\nfn "@);
    lemma_generated_test_is_accepted(m, b, plan.id@);
}

} // verus!
