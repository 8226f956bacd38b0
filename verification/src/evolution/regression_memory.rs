//! Regression memory: the pattern and area a failed run is filed under.
use vstd::prelude::*;

use crate::contracts::EvolutionLogEntry;
use crate::paths::{path_parent, plain_path, slash_parts, tidy_parent, tidy_path};
use crate::text::{owned, push_str, str_eq};

verus! {

/// The pattern a run is filed under: its plan id, else its kind and target.
pub open spec fn pattern_of(e: EvolutionLogEntry) -> Seq<char> {
    match e.plan_id {
        Some(p) => p@,
        None => "pattern:"@ + e.mutation_kind@ + ":"@ + e.target_file@,
    }
}

/// The pattern a run is filed under.
pub fn pattern_id(entry: &EvolutionLogEntry) -> (r: String)
    ensures
        r@ == pattern_of(*entry),
{
    match &entry.plan_id {
        Some(plan_id) => plan_id.clone(),
        None => {
            let mut r = owned("pattern:");
            push_str(&mut r, entry.mutation_kind.as_str());
            push_str(&mut r, ":");
            push_str(&mut r, entry.target_file.as_str());
            r
        },
    }
}

/// The area of a target file: its parent directory as `std::path` finds it,
/// or the target itself when it has none. For a tidy path the parent is
/// `tidy_parent`; a plain path without components or ending in the root has
/// none; for other paths the parent depends on how `std` trims and splits them.
pub fn target_area(target_file: &str) -> (r: String)
    ensures
        tidy_path(target_file@) ==> r@ == tidy_parent(target_file@),
        plain_path(target_file@) && (slash_parts(target_file@).len() == 0 || slash_parts(
            target_file@,
        ).last() is RootDir) ==> r@ == target_file@,
{
    let parent = path_parent(target_file);
    let r = match parent {
        Some(p) => p,
        None => owned(target_file),
    };
    r
}

/// A remembered regression or success (filed under `entry_target`, its area
/// `entry_area` and kind `entry_kind`) bears on a change of `kind` to
/// `target` in area `area`: the same file, or the same area and kind.
pub open spec fn memory_applies(
    entry_target: Seq<char>,
    entry_area: Seq<char>,
    entry_kind: Seq<char>,
    target: Seq<char>,
    area: Seq<char>,
    kind: Seq<char>,
) -> bool {
    entry_target == target || (entry_area == area && entry_kind == kind)
}

/// Whether a remembered regression or success bears on a change of
/// `mutation_kind` to `target_file`, whose area is `area`.
pub fn memory_entry_applies(
    entry_target: &str,
    entry_area: &str,
    entry_kind: &str,
    target_file: &str,
    area: &str,
    mutation_kind: &str,
) -> (r: bool)
    ensures
        r == memory_applies(entry_target@, entry_area@, entry_kind@, target_file@, area@, mutation_kind@),
{
    str_eq(entry_target, target_file) || (str_eq(entry_area, area) && str_eq(entry_kind, mutation_kind))
}

} // verus!
