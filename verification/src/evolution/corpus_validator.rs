//! Which corpus paths ingestion may read.
use vstd::prelude::*;

use crate::contracts::CorpusIngestContract;
use crate::evolution::validator::verdict;
use crate::paths::{
    last_extension, option_text, part_view, parts_view, path_extension, path_parts, plain_path,
    slash_parts, PartView, PathPart,
};
use crate::text::{contains_string, has_prefix, owned, push_str, starts_with, str_eq, views};

verus! {

/// Some normal component of the path is one of the denied directories.
pub open spec fn parts_denied(parts: Seq<PartView>, denied: Seq<Seq<char>>) -> bool {
    exists|i: int|
        0 <= i < parts.len() && (#[trigger] parts[i]) is Normal && denied.contains(
            parts[i]->Normal_0,
        )
}

/// Whether some normal component of the path is one of the denied directories.
pub fn parts_in_denied_dir(parts: &Vec<PathPart>, denied_dirs: &Vec<String>) -> (r: bool)
    ensures
        r == parts_denied(parts_view(parts@), views(denied_dirs@)),
{
    let ghost pv = parts_view(parts@);
    let mut i: usize = 0;
    while i < parts.len()
        invariant
            i <= parts.len(),
            pv == parts_view(parts@),
            forall|k: int|
                0 <= k < i ==> !((#[trigger] pv[k]) is Normal && views(denied_dirs@).contains(
                    pv[k]->Normal_0,
                )),
        decreases parts.len() - i,
    {
        proof {
            assert(pv[i as int] == part_view(parts@[i as int]));
        }
        match &parts[i] {
            PathPart::Normal(name) => {
                if contains_string(denied_dirs, name.as_str()) {
                    return true;
                }
            },
            _ => {},
        }
        i = i + 1;
    }
    false
}

/// Whether some component of `path`, as `std::path` splits it, is a denied
/// directory. For a plain path the components are those of `slash_parts`;
/// for any other path they depend on the platform.
pub fn is_denied_path(path: &str, denied_dirs: &Vec<String>) -> (r: bool)
    ensures
        plain_path(path@) ==> r == parts_denied(slash_parts(path@), views(denied_dirs@)),
{
    let parts = path_parts(path);
    parts_in_denied_dir(&parts, denied_dirs)
}

/// The extension is one of the allowed ones.
pub open spec fn extension_allowed(ext: Option<Seq<char>>, allowed: Seq<Seq<char>>) -> bool {
    ext is Some && allowed.contains(ext->0)
}

/// Whether the extension is one of the allowed ones.
pub fn allowed_extension(ext: &Option<String>, allowed_extensions: &Vec<String>) -> (r: bool)
    ensures
        r == extension_allowed(option_text(*ext), views(allowed_extensions@)),
{
    match ext {
        Some(e) => contains_string(allowed_extensions, e.as_str()),
        None => false,
    }
}

/// Whether the extension of `path`, as `std::path` finds it, is allowed. For
/// a plain path the extension is `last_extension`; for any other path it
/// depends on the platform.
pub fn allowed_corpus_file(path: &str, allowed_extensions: &Vec<String>) -> (r: bool)
    ensures
        plain_path(path@) ==> r == extension_allowed(last_extension(path@), views(allowed_extensions@)),
{
    let ext = path_extension(path);
    allowed_extension(&ext, allowed_extensions)
}

/// An extension that ingestion may read.
pub open spec fn supported_extension(e: Seq<char>) -> bool {
    e == "rs"@ || e == "toml"@ || e == "md"@ || e == "json"@
}

/// The first extension that ingestion may not read, if any.
pub open spec fn first_unsupported(exts: Seq<Seq<char>>) -> Option<Seq<char>>
    decreases exts.len(),
{
    if exts.len() == 0 {
        None
    } else if !supported_extension(exts[0]) {
        Some(exts[0])
    } else {
        first_unsupported(exts.drop_first())
    }
}

/// The directories that every ingestion must deny.
pub open spec fn required_denied_dirs() -> Seq<Seq<char>> {
    seq![".git"@, "target"@, "node_modules"@, "memory"@, "sandboxes"@, "eva_output"@]
}

/// The first of `required` that `present` lacks, if any.
pub open spec fn first_missing(required: Seq<Seq<char>>, present: Seq<Seq<char>>) -> Option<
    Seq<char>,
>
    decreases required.len(),
{
    if required.len() == 0 {
        None
    } else if !present.contains(required[0]) {
        Some(required[0])
    } else {
        first_missing(required.drop_first(), present)
    }
}

/// The error of a corpus contract's own fields, if any, checked in order:
/// file count, file size, network root, extensions, denied directories.
pub open spec fn corpus_contract_error(c: CorpusIngestContract) -> Option<Seq<char>> {
    if c.max_files > 500 {
        Some("max_files must be <= 500"@)
    } else if c.max_file_bytes > 262144 {
        Some("max_file_bytes must be <= 262144"@)
    } else if has_prefix(c.root_path@, "http://"@) || has_prefix(c.root_path@, "https://"@) {
        Some("network URLs are forbidden for corpus ingestion"@)
    } else {
        match first_unsupported(views(c.allowed_extensions@)) {
            Some(e) => Some("unsupported corpus extension: "@ + e),
            None => match first_missing(required_denied_dirs(), views(c.denied_dirs@)) {
                Some(d) => Some("missing denied dir: "@ + d),
                None => None,
            },
        }
    }
}

fn supported(e: &str) -> (r: bool)
    ensures
        r == supported_extension(e@),
{
    str_eq(e, "rs") || str_eq(e, "toml") || str_eq(e, "md") || str_eq(e, "json")
}

fn error_with(prefix: &str, t: &str) -> (r: Result<(), String>)
    ensures
        r matches Err(e) && e@ == prefix@ + t@,
{
    let mut e = owned(prefix);
    push_str(&mut e, t);
    Err(e)
}

/// Checks the fields of a corpus contract: at most 500 files of at most
/// 262144 bytes, a local root, supported extensions and the required denied
/// directories. The root's existence and kind are checked where it is read.
pub fn check_corpus_contract_fields(contract: &CorpusIngestContract) -> (r: Result<(), String>)
    ensures
        verdict(r, corpus_contract_error(*contract)),
{
    if contract.max_files > 500 {
        return Err(owned("max_files must be <= 500"));
    }
    if contract.max_file_bytes > 262144 {
        return Err(owned("max_file_bytes must be <= 262144"));
    }
    if starts_with(contract.root_path.as_str(), "http://") || starts_with(
        contract.root_path.as_str(),
        "https://",
    ) {
        return Err(owned("network URLs are forbidden for corpus ingestion"));
    }
    let exts = &contract.allowed_extensions;
    let mut i: usize = 0;
    assert(views(exts@).skip(0) =~= views(exts@));
    while i < exts.len()
        invariant
            i <= exts.len(),
            exts == &contract.allowed_extensions,
            contract.max_files <= 500 && contract.max_file_bytes <= 262144,
            !(has_prefix(contract.root_path@, "http://"@) || has_prefix(contract.root_path@, "https://"@)),
            first_unsupported(views(exts@)) == first_unsupported(views(exts@).skip(i as int)),
        decreases exts.len() - i,
    {
        assert(views(exts@).skip(i as int).drop_first() =~= views(exts@).skip(i + 1));
        assert(views(exts@).skip(i as int)[0] == exts@[i as int]@);
        if !supported(exts[i].as_str()) {
            return error_with("unsupported corpus extension: ", exts[i].as_str());
        }
        i = i + 1;
    }
    let required = vec![
        owned(".git"),
        owned("target"),
        owned("node_modules"),
        owned("memory"),
        owned("sandboxes"),
        owned("eva_output"),
    ];
    assert(views(required@) =~= required_denied_dirs());
    let mut k: usize = 0;
    assert(views(required@).skip(0) =~= views(required@));
    while k < required.len()
        invariant
            k <= required.len(),
            exts == &contract.allowed_extensions,
            contract.max_files <= 500 && contract.max_file_bytes <= 262144,
            !(has_prefix(contract.root_path@, "http://"@) || has_prefix(contract.root_path@, "https://"@)),
            first_unsupported(views(exts@)) is None,
            views(required@) == required_denied_dirs(),
            first_missing(required_denied_dirs(), views(contract.denied_dirs@)) == first_missing(
                views(required@).skip(k as int),
                views(contract.denied_dirs@),
            ),
        decreases required.len() - k,
    {
        assert(views(required@).skip(k as int).drop_first() =~= views(required@).skip(k + 1));
        assert(views(required@).skip(k as int)[0] == required@[k as int]@);
        if !contains_string(&contract.denied_dirs, required[k].as_str()) {
            return error_with("missing denied dir: ", required[k].as_str());
        }
        k = k + 1;
    }
    Ok(())
}

/// The number of normal components among `parts`.
pub open spec fn normal_part_count(parts: Seq<PartView>) -> nat
    decreases parts.len(),
{
    if parts.len() == 0 {
        0
    } else {
        normal_part_count(parts.drop_last()) + if parts.last() is Normal {
            1nat
        } else {
            0nat
        }
    }
}

/// The error for an absolute corpus root whose canonical form has `parts`:
/// one with fewer than three named components is too broad. (`/`, `/etc`,
/// `/usr` and `/home` have at most one.)
pub open spec fn broad_root_error(parts: Seq<PartView>, display: Seq<char>) -> Option<Seq<char>> {
    if normal_part_count(parts) < 3 {
        Some("absolute unsafe corpus root is forbidden unless narrowed to a project folder: "@
            + display)
    } else {
        None
    }
}

/// Rejects an absolute corpus root whose canonical components, `parts`, are too broad.
pub fn check_root_parts(parts: &Vec<PathPart>, display: &str) -> (r: Result<(), String>)
    ensures
        verdict(r, broad_root_error(parts_view(parts@), display@)),
{
    let ghost pv = parts_view(parts@);
    let mut n: usize = 0;
    let mut i: usize = 0;
    while i < parts.len()
        invariant
            i <= parts.len(),
            n == normal_part_count(pv.take(i as int)),
            pv == parts_view(parts@),
            n <= i,
        decreases parts.len() - i,
    {
        assert(pv.take(i + 1).drop_last() =~= pv.take(i as int));
        assert(pv.take(i + 1).last() == part_view(parts@[i as int]));
        match &parts[i] {
            PathPart::Normal(_) => {
                n = n + 1;
            },
            _ => {},
        }
        i = i + 1;
    }
    assert(pv.take(i as int) =~= pv);
    if n < 3 {
        return error_with(
            "absolute unsafe corpus root is forbidden unless narrowed to a project folder: ",
            display,
        );
    }
    Ok(())
}

/// Rejects an absolute corpus root whose canonical path `canonical` is too
/// broad, splitting it into components with `std::path`: for a plain path
/// those of `slash_parts`, for any other path as the platform splits it.
pub fn check_narrow_root(canonical: &str, display: &str) -> (r: Result<(), String>)
    ensures
        plain_path(canonical@) ==> verdict(r, broad_root_error(slash_parts(canonical@), display@)),
        r matches Err(e) ==> e@ == "absolute unsafe corpus root is forbidden unless narrowed to a project folder: "@
            + display@,
{
    let parts = path_parts(canonical);
    check_root_parts(&parts, display)
}

} // verus!
