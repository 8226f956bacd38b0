//! Validation of a bounded mutation before it is applied in the sandbox.
use vstd::prelude::*;

use crate::contracts::{MutationContract, MutationKind};
use crate::paths::{
    lemma_leaves_root_by_pieces, path_escapes, path_is_absolute, plain_path, rooted, slash_segments,
};
use crate::text::{
    contains, ends_with, has_infix, has_prefix, has_suffix, owned, starts_with, str_eq,
    trim_start, trimmed_start,
};

verus! {

/// The largest payload (search, replace and append together), in bytes.
pub const MAX_MUTATION_PAYLOAD_BYTES: usize = 2048;

/// The largest target file a mutation may touch, in bytes.
pub const MAX_TARGET_FILE_BYTES: u64 = 262144;

/// The facts about a mutation that are measured outside this module: whether
/// its risk is at most 0.5, whether its expected gain lies in `0.0..=1.0`, and
/// the size in bytes of its target file when that file exists.
#[derive(Clone, Debug)]
pub struct MutationBounds {
    pub risk_within_limit: bool,
    pub expected_gain_in_range: bool,
    pub target_size: Option<u64>,
}

/// The number of bytes of the UTF-8 encoding of `s` (what `str::len` gives).
pub open spec fn byte_len(s: Seq<char>) -> nat {
    (vstd::utf8::encode_utf8(s).len() as usize) as nat
}

/// The bytes of an optional payload; none when absent.
pub open spec fn payload_bytes(p: Option<String>) -> nat {
    match p {
        Some(s) => byte_len(s@),
        None => 0,
    }
}

/// The mutation kinds that write generated tests.
pub open spec fn is_test_kind(k: MutationKind) -> bool {
    k == MutationKind::AddTestSkeleton || k == MutationKind::AddUnitTest || k
        == MutationKind::AddReplayAssertion
}

/// The error for the target path, if any, checked in order: absolute,
/// manifest, directory, core, escape, size.
pub open spec fn target_path_error(
    t: Seq<char>,
    k: MutationKind,
    absolute: bool,
    escapes: bool,
    size: Option<u64>,
) -> Option<Seq<char>> {
    if absolute {
        Some("target file must be relative"@)
    } else if t == "Cargo.toml"@ || has_suffix(t, "/Cargo.toml"@) {
        Some("Cargo.toml mutation is forbidden in this phase"@)
    } else if is_test_kind(k) && !has_prefix(t, "tests/"@) {
        Some("target file must be inside tests/"@)
    } else if !is_test_kind(k) && !has_prefix(t, "src/"@) {
        Some("target file must be inside an allowed source directory"@)
    } else if has_infix(t, "src/core/"@) || t == "src/lib.rs"@ || t == "src/main.rs"@ {
        Some("core mutation is forbidden"@)
    } else if escapes {
        Some("target file must not escape the project"@)
    } else if size is Some && size->0 > MAX_TARGET_FILE_BYTES {
        Some("target file too large"@)
    } else {
        None
    }
}

/// The error when search is missing or empty, or replace is missing.
pub open spec fn search_replace_error(m: MutationContract, message: Seq<char>) -> Option<Seq<char>> {
    if m.search is None || m.search->0@.len() == 0 || m.replace is None {
        Some(message)
    } else {
        None
    }
}

/// The payload starts, after its leading whitespace, with `p`.
pub open spec fn starts_after_space(a: Seq<char>, p: Seq<char>) -> bool {
    has_prefix(trim_start(a), p)
}

/// The payload holds a test function.
pub open spec fn holds_test_fn(a: Seq<char>) -> bool {
    has_infix(a, "#[test]"@) && has_infix(a, "fn "@)
}

/// The error of the checks that depend on the mutation kind, if any.
pub open spec fn kind_error(m: MutationContract) -> Option<Seq<char>> {
    let t = m.target_file@;
    match m.kind {
        MutationKind::AppendComment => match m.append {
            None => Some("append mutation requires append payload"@),
            Some(a) => if byte_len(a@) > 300 {
                Some("append payload too large"@)
            } else if !starts_after_space(a@, "//"@) && !starts_after_space(a@, "/*"@) {
                Some("append mutation only allows Rust comments"@)
            } else {
                None
            },
        },
        MutationKind::ReplaceText => search_replace_error(
            m,
            "replace mutation requires search and replace"@,
        ),
        MutationKind::ParameterTune => search_replace_error(
            m,
            "parameter tuning requires search and replace"@,
        ),
        MutationKind::AddTestSkeleton => match m.append {
            None => Some("test skeleton requires append payload"@),
            Some(a) => if !has_prefix(t, "tests/"@) {
                Some("test skeleton target must be inside tests/"@)
            } else if !holds_test_fn(a@) {
                Some("test skeleton must contain a test function"@)
            } else {
                None
            },
        },
        MutationKind::AddMetricField => match m.append {
            None => Some("metric field mutation requires append payload"@),
            Some(a) => if !starts_after_space(a@, "//"@) {
                Some("metric field mutation is comment-only in this phase"@)
            } else {
                None
            },
        },
        MutationKind::AddUnitTest | MutationKind::AddReplayAssertion => match m.append {
            None => Some("generated test mutation requires append payload"@),
            Some(a) => if !has_prefix(t, "tests/"@) {
                Some("generated test target must be inside tests/"@)
            } else if !holds_test_fn(a@) {
                Some("generated test mutation must contain a test function"@)
            } else {
                None
            },
        },
        MutationKind::AddLearningSummaryField => if search_replace_error(
            m,
            "learning summary field mutation requires search and replace"@,
        ) is Some {
            search_replace_error(m, "learning summary field mutation requires search and replace"@)
        } else if !has_infix(t, "learning"@) && !has_infix(t, "report"@) && t
            != "src/evolution/metrics.rs"@ {
            Some("learning summary field target must be learning/report related"@)
        } else {
            None
        },
        MutationKind::AddMetricUpdate => if search_replace_error(
            m,
            "metric update mutation requires search and replace"@,
        ) is Some {
            search_replace_error(m, "metric update mutation requires search and replace"@)
        } else if t == "src/evolution/metrics.rs"@ || has_prefix(t, "src/evolution/"@) || has_prefix(
            t,
            "src/runtime"@,
        ) {
            None
        } else {
            Some("metric update target must be metrics or safe evolution/runtime file"@)
        },
    }
}

/// The first error of a mutation, if any: empty id, risk, gain, target path,
/// payload size, then the checks of its kind.
pub open spec fn mutation_error(
    m: MutationContract,
    b: MutationBounds,
    absolute: bool,
    escapes: bool,
) -> Option<Seq<char>> {
    if trim_start(m.id@).len() == 0 {
        Some("mutation id must not be empty"@)
    } else if !b.risk_within_limit {
        Some("mutation risk too high"@)
    } else if !b.expected_gain_in_range {
        Some("expected gain must be between 0.0 and 1.0"@)
    } else if target_path_error(m.target_file@, m.kind, absolute, escapes, b.target_size) is Some {
        target_path_error(m.target_file@, m.kind, absolute, escapes, b.target_size)
    } else if payload_bytes(m.search) + payload_bytes(m.replace) + payload_bytes(m.append)
        > MAX_MUTATION_PAYLOAD_BYTES {
        Some("mutation payload too large"@)
    } else {
        kind_error(m)
    }
}

/// `r` is the verdict that `error` describes: `Ok` when there is none, else the error.
pub open spec fn verdict(r: Result<(), String>, error: Option<Seq<char>>) -> bool {
    match r {
        Ok(_) => error is None,
        Err(e) => error == Some(e@),
    }
}

fn fail(message: &str) -> (r: Result<(), String>)
    ensures
        r matches Err(e) && e@ == message@,
{
    Err(owned(message))
}

/// Checks a target path, given whether it is absolute and whether a
/// component leaves the project, and the target's size when it exists.
pub fn check_target_path(
    target_file: &str,
    kind: MutationKind,
    absolute: bool,
    escapes: bool,
    size: Option<u64>,
) -> (r: Result<(), String>)
    ensures
        verdict(r, target_path_error(target_file@, kind, absolute, escapes, size)),
{
    if absolute {
        return fail("target file must be relative");
    }
    if str_eq(target_file, "Cargo.toml") || ends_with(target_file, "/Cargo.toml") {
        return fail("Cargo.toml mutation is forbidden in this phase");
    }
    let test_kind = kind == MutationKind::AddTestSkeleton || kind == MutationKind::AddUnitTest
        || kind == MutationKind::AddReplayAssertion;
    if test_kind && !starts_with(target_file, "tests/") {
        return fail("target file must be inside tests/");
    }
    if !test_kind && !starts_with(target_file, "src/") {
        return fail("target file must be inside an allowed source directory");
    }
    if contains(target_file, "src/core/") || str_eq(target_file, "src/lib.rs") || str_eq(
        target_file,
        "src/main.rs",
    ) {
        return fail("core mutation is forbidden");
    }
    if escapes {
        return fail("target file must not escape the project");
    }
    if let Some(n) = size {
        if n > MAX_TARGET_FILE_BYTES {
            return fail("target file too large");
        }
    }
    Ok(())
}

/// Validates a target path, asking `std::path` whether it is absolute and
/// whether it leaves the project; `size` is the target's size when it exists.
/// For a plain path that does not start with `/` the answers are stated (not
/// absolute; leaving exactly when a piece between `/` is `..`); a plain path
/// that starts with `/` or has a `..` piece is always rejected. For other
/// paths the answers depend on the platform.
pub fn validate_target_path(target_file: &str, kind: MutationKind, size: Option<u64>) -> (r: Result<
    (),
    String,
>)
    ensures
        exists|absolute: bool, escapes: bool|
            verdict(r, target_path_error(target_file@, kind, absolute, escapes, size)),
        plain_path(target_file@) && !rooted(target_file@) ==> verdict(
            r,
            target_path_error(
                target_file@,
                kind,
                false,
                slash_segments(target_file@).contains(".."@),
                size,
            ),
        ),
        plain_path(target_file@) && (rooted(target_file@) || slash_segments(target_file@).contains(
            ".."@,
        )) ==> r is Err,
{
    let absolute = path_is_absolute(target_file);
    let escapes = path_escapes(target_file);
    proof {
        lemma_leaves_root_by_pieces(target_file@);
    }
    let r = check_target_path(target_file, kind, absolute, escapes, size);
    assert(verdict(r, target_path_error(target_file@, kind, absolute, escapes, size)));
    r
}

fn option_bytes(p: &Option<String>) -> (n: usize)
    ensures
        n == payload_bytes(*p),
{
    match p {
        Some(s) => s.as_str().len(),
        None => 0,
    }
}

/// Rejects a payload whose search, replace and append together exceed the limit.
pub fn validate_payload_size(mutation: &MutationContract) -> (r: Result<(), String>)
    ensures
        verdict(
            r,
            if payload_bytes(mutation.search) + payload_bytes(mutation.replace) + payload_bytes(
                mutation.append,
            ) > MAX_MUTATION_PAYLOAD_BYTES {
                Some("mutation payload too large"@)
            } else {
                None
            },
        ),
{
    let size: u128 = option_bytes(&mutation.search) as u128 + option_bytes(&mutation.replace) as u128
        + option_bytes(&mutation.append) as u128;
    if size > MAX_MUTATION_PAYLOAD_BYTES as u128 {
        return fail("mutation payload too large");
    }
    Ok(())
}

/// Rejects a mutation whose search is missing or empty or whose replace is missing.
pub fn require_search_replace(mutation: &MutationContract, message: &str) -> (r: Result<(), String>)
    ensures
        verdict(r, search_replace_error(*mutation, message@)),
{
    let missing = match &mutation.search {
        Some(s) => s.as_str().unicode_len() == 0,
        None => true,
    };
    if missing || mutation.replace.is_none() {
        return fail(message);
    }
    Ok(())
}

fn starts_after_whitespace(a: &str, p: &str) -> (r: bool)
    ensures
        r == starts_after_space(a@, p@),
{
    let t = trimmed_start(a);
    starts_with(t.as_str(), p)
}

fn test_fn_payload(a: &str) -> (r: bool)
    ensures
        r == holds_test_fn(a@),
{
    contains(a, "#[test]") && contains(a, "fn ")
}

fn check_kind(mutation: &MutationContract) -> (r: Result<(), String>)
    ensures
        verdict(r, kind_error(*mutation)),
{
    let t = mutation.target_file.as_str();
    match mutation.kind {
        MutationKind::AppendComment => match &mutation.append {
            None => fail("append mutation requires append payload"),
            Some(a) => {
                if a.as_str().len() > 300 {
                    fail("append payload too large")
                } else if !starts_after_whitespace(a.as_str(), "//") && !starts_after_whitespace(
                    a.as_str(),
                    "/*",
                ) {
                    fail("append mutation only allows Rust comments")
                } else {
                    Ok(())
                }
            },
        },
        MutationKind::ReplaceText => require_search_replace(
            mutation,
            "replace mutation requires search and replace",
        ),
        MutationKind::ParameterTune => require_search_replace(
            mutation,
            "parameter tuning requires search and replace",
        ),
        MutationKind::AddTestSkeleton => match &mutation.append {
            None => fail("test skeleton requires append payload"),
            Some(a) => {
                if !starts_with(t, "tests/") {
                    fail("test skeleton target must be inside tests/")
                } else if !test_fn_payload(a.as_str()) {
                    fail("test skeleton must contain a test function")
                } else {
                    Ok(())
                }
            },
        },
        MutationKind::AddMetricField => match &mutation.append {
            None => fail("metric field mutation requires append payload"),
            Some(a) => {
                if !starts_after_whitespace(a.as_str(), "//") {
                    fail("metric field mutation is comment-only in this phase")
                } else {
                    Ok(())
                }
            },
        },
        MutationKind::AddUnitTest | MutationKind::AddReplayAssertion => match &mutation.append {
            None => fail("generated test mutation requires append payload"),
            Some(a) => {
                if !starts_with(t, "tests/") {
                    fail("generated test target must be inside tests/")
                } else if !test_fn_payload(a.as_str()) {
                    fail("generated test mutation must contain a test function")
                } else {
                    Ok(())
                }
            },
        },
        MutationKind::AddLearningSummaryField => {
            let r = require_search_replace(
                mutation,
                "learning summary field mutation requires search and replace",
            );
            if r.is_err() {
                r
            } else if !contains(t, "learning") && !contains(t, "report") && !str_eq(
                t,
                "src/evolution/metrics.rs",
            ) {
                fail("learning summary field target must be learning/report related")
            } else {
                Ok(())
            }
        },
        MutationKind::AddMetricUpdate => {
            let r = require_search_replace(
                mutation,
                "metric update mutation requires search and replace",
            );
            if r.is_err() {
                r
            } else if str_eq(t, "src/evolution/metrics.rs") || starts_with(t, "src/evolution/")
                || starts_with(t, "src/runtime") {
                Ok(())
            } else {
                fail("metric update target must be metrics or safe evolution/runtime file")
            }
        },
    }
}

/// Checks a mutation, given whether its target is absolute and whether a
/// component of it leaves the project.
pub fn check_mutation(
    mutation: &MutationContract,
    bounds: &MutationBounds,
    absolute: bool,
    escapes: bool,
) -> (r: Result<(), String>)
    ensures
        verdict(r, mutation_error(*mutation, *bounds, absolute, escapes)),
{
    let id = trimmed_start(mutation.id.as_str());
    if id.as_str().unicode_len() == 0 {
        return fail("mutation id must not be empty");
    }
    if !bounds.risk_within_limit {
        return fail("mutation risk too high");
    }
    if !bounds.expected_gain_in_range {
        return fail("expected gain must be between 0.0 and 1.0");
    }
    let path = check_target_path(
        mutation.target_file.as_str(),
        mutation.kind,
        absolute,
        escapes,
        bounds.target_size,
    );
    if path.is_err() {
        return path;
    }
    let size = validate_payload_size(mutation);
    if size.is_err() {
        return size;
    }
    check_kind(mutation)
}

/// Validates a mutation before it is applied, asking `std::path` whether its
/// target is absolute and whether it leaves the project. For a plain target
/// that does not start with `/` the answers are stated (not absolute; leaving
/// exactly when a piece between `/` is `..`); a plain target that starts with
/// `/` or has a `..` piece is always rejected. For other targets the answers
/// depend on the platform.
pub fn validate_mutation(mutation: &MutationContract, bounds: &MutationBounds) -> (r: Result<
    (),
    String,
>)
    ensures
        exists|absolute: bool, escapes: bool|
            verdict(r, mutation_error(*mutation, *bounds, absolute, escapes)),
        plain_path(mutation.target_file@) && !rooted(mutation.target_file@) ==> verdict(
            r,
            mutation_error(
                *mutation,
                *bounds,
                false,
                slash_segments(mutation.target_file@).contains(".."@),
            ),
        ),
        plain_path(mutation.target_file@) && (rooted(mutation.target_file@) || slash_segments(
            mutation.target_file@,
        ).contains(".."@)) ==> r is Err,
{
    let absolute = path_is_absolute(mutation.target_file.as_str());
    let escapes = path_escapes(mutation.target_file.as_str());
    proof {
        lemma_leaves_root_by_pieces(mutation.target_file@);
    }
    let r = check_mutation(mutation, bounds, absolute, escapes);
    assert(verdict(r, mutation_error(*mutation, *bounds, absolute, escapes)));
    r
}

/// A target that mutations may never touch: the manifest, the core and the crate roots.
pub open spec fn protected_target(t: Seq<char>) -> bool {
    t == "Cargo.toml"@ || has_suffix(t, "/Cargo.toml"@) || has_infix(t, "src/core/"@) || t
        == "src/lib.rs"@ || t == "src/main.rs"@
}

/// A mutation of the manifest, the core or a crate root is always rejected,
/// whatever its payload and bounds and however the platform reads its path.
pub proof fn lemma_protected_targets_rejected(
    m: MutationContract,
    b: MutationBounds,
    absolute: bool,
    escapes: bool,
)
    requires
        protected_target(m.target_file@),
    ensures
        mutation_error(m, b, absolute, escapes) is Some,
{
}

/// An accepted mutation has a non-blank id, risk and gain within bounds, a
/// relative target under `tests/` (test kinds) or `src/` (other kinds) that
/// stays in the project and is no larger than the limit, and a payload within
/// the limit.
pub proof fn lemma_accepted_mutation_is_bounded(
    m: MutationContract,
    b: MutationBounds,
    absolute: bool,
    escapes: bool,
)
    requires
        mutation_error(m, b, absolute, escapes) is None,
    ensures
        trim_start(m.id@).len() > 0,
        b.risk_within_limit && b.expected_gain_in_range,
        !absolute && !escapes,
        !protected_target(m.target_file@),
        is_test_kind(m.kind) ==> has_prefix(m.target_file@, "tests/"@),
        !is_test_kind(m.kind) ==> has_prefix(m.target_file@, "src/"@),
        b.target_size is Some ==> b.target_size->0 <= MAX_TARGET_FILE_BYTES,
        payload_bytes(m.search) + payload_bytes(m.replace) + payload_bytes(m.append)
            <= MAX_MUTATION_PAYLOAD_BYTES,
{
    if has_suffix(m.target_file@, "/Cargo.toml"@) || m.target_file@ == "Cargo.toml"@ {
        assert(false);
    }
}

} // verus!
