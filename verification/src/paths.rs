//! Path facts taken from `std::path`. How a path splits depends on the
//! platform in general; a plain path (no `\`, no `:`, not starting with
//! `//`) has no prefix and splits at `/` alone on Unix-like targets and on
//! Windows, and that split is stated here. (On the UEFI and SOLID targets,
//! whose only separator is `\`, these statements would not hold.)
use vstd::prelude::*;

verus! {

/// The kind of one component of a path, as `std::path::Component` tells them apart.
#[derive(Clone, Debug)]
pub enum PathPart {
    Prefix,
    RootDir,
    CurDir,
    ParentDir,
    Normal(String),
}

/// A path component as a value: a normal component by its name.
pub enum PartView {
    Prefix,
    RootDir,
    CurDir,
    ParentDir,
    Normal(Seq<char>),
}

/// The value of a component.
pub open spec fn part_view(p: PathPart) -> PartView {
    match p {
        PathPart::Prefix => PartView::Prefix,
        PathPart::RootDir => PartView::RootDir,
        PathPart::CurDir => PartView::CurDir,
        PathPart::ParentDir => PartView::ParentDir,
        PathPart::Normal(name) => PartView::Normal(name@),
    }
}

/// The values of a list of components.
pub open spec fn parts_view(parts: Seq<PathPart>) -> Seq<PartView> {
    parts.map_values(|p: PathPart| part_view(p))
}

/// The path starts with `/`.
pub open spec fn rooted(s: Seq<char>) -> bool {
    s.len() > 0 && s[0] == '/'
}

/// A path that neither Unix-like targets nor Windows read with a prefix or
/// with another separator than `/`: it holds no `\` and no `:` and does not
/// start with `//`.
pub open spec fn plain_path(s: Seq<char>) -> bool {
    &&& !s.contains('\\')
    &&& !s.contains(':')
    &&& !(rooted(s) && s.len() > 1 && s[1] == '/')
}

/// The pieces of `s` between its `/` characters, empty pieces included:
/// `a//b/` gives `a`, ``, `b`, ``.
pub open spec fn slash_segments(s: Seq<char>) -> Seq<Seq<char>>
    decreases s.len(),
{
    if s.len() == 0 {
        seq![Seq::<char>::empty()]
    } else {
        let rest = slash_segments(s.drop_first());
        if s[0] == '/' {
            seq![Seq::<char>::empty()] + rest
        } else {
            rest.update(0, seq![s[0]] + rest[0])
        }
    }
}

/// The components that the pieces `segs` name: an empty piece or `.` names
/// none, `..` the parent, any other piece a normal component.
pub open spec fn named_parts(segs: Seq<Seq<char>>) -> Seq<PartView>
    decreases segs.len(),
{
    if segs.len() == 0 {
        Seq::empty()
    } else {
        let rest = named_parts(segs.drop_first());
        if segs[0].len() == 0 || segs[0] == "."@ {
            rest
        } else if segs[0] == ".."@ {
            seq![PartView::ParentDir] + rest
        } else {
            seq![PartView::Normal(segs[0])] + rest
        }
    }
}

/// The components of a plain path as `std::path::Path::components` documents
/// them: a leading `/` is the root, a leading `.` piece of a path without root
/// is the current directory, and after that repeated `/`, `.` pieces and a
/// trailing `/` name nothing.
pub open spec fn slash_parts(s: Seq<char>) -> Seq<PartView> {
    let head = if rooted(s) {
        seq![PartView::RootDir]
    } else if slash_segments(s)[0] == "."@ {
        seq![PartView::CurDir]
    } else {
        Seq::<PartView>::empty()
    };
    head + named_parts(slash_segments(s))
}

/// A component that leaves the directory the path is taken from.
pub open spec fn escaping_view(p: PartView) -> bool {
    p is ParentDir || p is RootDir || p is Prefix
}

/// A component that leaves the directory the path is taken from.
pub open spec fn is_escaping_part(p: PathPart) -> bool {
    escaping_view(part_view(p))
}

/// Some component of the plain path `s` is a parent, a root or a prefix.
pub open spec fn leaves_root(s: Seq<char>) -> bool {
    exists|i: int| 0 <= i < slash_parts(s).len() && escaping_view(#[trigger] slash_parts(s)[i])
}

/// A plain path that starts with `/` leaves the directory it is taken from.
pub proof fn lemma_rooted_leaves_root(s: Seq<char>)
    requires
        rooted(s),
    ensures
        leaves_root(s),
{
    assert(slash_parts(s)[0] == PartView::RootDir);
}

/// The pieces of `s` name a parent directory exactly when one of them is `..`;
/// they never name a root or a prefix.
proof fn lemma_named_parts_escaping(segs: Seq<Seq<char>>)
    ensures
        (exists|i: int| 0 <= i < named_parts(segs).len() && escaping_view(#[trigger] named_parts(segs)[i]))
            <==> segs.contains(".."@),
    decreases segs.len(),
{
    if segs.len() > 0 {
        let rest = segs.drop_first();
        lemma_named_parts_escaping(rest);
        let np = named_parts(segs);
        let nr = named_parts(rest);
        assert(segs =~= seq![segs[0]] + rest);
        if segs.contains(".."@) {
            let k = choose|k: int| 0 <= k < segs.len() && segs[k] == ".."@;
            if k > 0 {
                assert(rest[k - 1] == ".."@);
                assert(rest.contains(".."@));
                let j = choose|j: int| 0 <= j < nr.len() && escaping_view(#[trigger] nr[j]);
                if segs[0].len() == 0 || segs[0] == "."@ {
                    assert(np[j] == nr[j]);
                } else {
                    assert(np[j + 1] == nr[j]);
                }
            } else {
                assert(segs[0] == ".."@);
                assert(segs[0].len() != 0 && segs[0] != "."@) by {
                    reveal_strlit("..");
                    reveal_strlit(".");
                }
                assert(np[0] == PartView::ParentDir);
            }
        }
        if exists|i: int| 0 <= i < np.len() && escaping_view(#[trigger] np[i]) {
            let i = choose|i: int| 0 <= i < np.len() && escaping_view(#[trigger] np[i]);
            if segs[0].len() == 0 || segs[0] == "."@ {
                assert(np[i] == nr[i]);
                let k = choose|k: int| 0 <= k < rest.len() && rest[k] == ".."@;
                assert(segs[k + 1] == ".."@);
            } else if segs[0] == ".."@ {
                assert(segs[0] == ".."@);
            } else if i == 0 {
                assert(np[0] == PartView::Normal(segs[0]));
            } else {
                assert(np[i] == nr[i - 1]);
                let k = choose|k: int| 0 <= k < rest.len() && rest[k] == ".."@;
                assert(segs[k + 1] == ".."@);
            }
        }
    }
}

/// A plain path leaves the directory it is taken from exactly when it starts
/// with `/` or one of its pieces between `/` is `..`.
pub proof fn lemma_leaves_root_by_pieces(s: Seq<char>)
    ensures
        leaves_root(s) <==> rooted(s) || slash_segments(s).contains(".."@),
{
    let segs = slash_segments(s);
    let head = if rooted(s) {
        seq![PartView::RootDir]
    } else if segs[0] == "."@ {
        seq![PartView::CurDir]
    } else {
        Seq::<PartView>::empty()
    };
    let np = named_parts(segs);
    assert(slash_parts(s) == head + np);
    lemma_named_parts_escaping(segs);
    if rooted(s) {
        lemma_rooted_leaves_root(s);
    } else {
        if leaves_root(s) {
            let i = choose|i: int| 0 <= i < slash_parts(s).len() && escaping_view(#[trigger] slash_parts(s)[i]);
            if head.len() == 1 && i == 0 {
                assert(!escaping_view(slash_parts(s)[0]));
            } else {
                assert(slash_parts(s)[i] == np[i - head.len()]);
            }
        }
        if segs.contains(".."@) {
            let j = choose|j: int| 0 <= j < np.len() && escaping_view(#[trigger] np[j]);
            assert(slash_parts(s)[j + head.len()] == np[j]);
        }
    }
}

/// Whether `std::path::Path::is_absolute` holds of `t`. What counts as absolute
/// differs between platforms (a leading `/` on Unix, a drive prefix and a root on
/// Windows), so only this is stated: a plain path that does not start with `/`
/// has neither, and is not absolute anywhere.
#[verifier::external_body]
pub(crate) fn path_is_absolute(t: &str) -> (r: bool)
    ensures
        plain_path(t@) && !rooted(t@) ==> !r,
{
    std::path::Path::new(t).is_absolute()
}

/// The components that `std::path::Path::components` yields for `t`, in
/// order, a normal component with its name (lossily converted to UTF-8). For
/// a plain path they are those that `slash_parts` describes; how any other
/// path splits depends on the platform and is not stated.
#[verifier::external_body]
pub(crate) fn path_parts(t: &str) -> (r: Vec<PathPart>)
    ensures
        plain_path(t@) ==> parts_view(r@) == slash_parts(t@),
{
    std::path::Path::new(t).components().map(|c| match c {
        std::path::Component::Prefix(_) => PathPart::Prefix,
        std::path::Component::RootDir => PathPart::RootDir,
        std::path::Component::CurDir => PathPart::CurDir,
        std::path::Component::ParentDir => PathPart::ParentDir,
        std::path::Component::Normal(name) => PathPart::Normal(name.to_string_lossy().to_string()),
    }).collect()
}

/// Whether some component leaves the directory the path is taken from.
pub fn any_escaping_part(parts: &Vec<PathPart>) -> (r: bool)
    ensures
        r == exists|i: int| 0 <= i < parts@.len() && is_escaping_part(#[trigger] parts@[i]),
{
    let mut i: usize = 0;
    while i < parts.len()
        invariant
            i <= parts.len(),
            forall|k: int| 0 <= k < i ==> !is_escaping_part(#[trigger] parts@[k]),
        decreases parts.len() - i,
    {
        match &parts[i] {
            PathPart::ParentDir | PathPart::RootDir | PathPart::Prefix => {
                return true;
            },
            _ => {},
        }
        i = i + 1;
    }
    false
}

/// Whether the path `t` has a parent, root or prefix component as `std::path`
/// splits it: for a plain path, whether `leaves_root` holds.
pub(crate) fn path_escapes(t: &str) -> (r: bool)
    ensures
        plain_path(t@) ==> r == leaves_root(t@),
{
    let parts = path_parts(t);
    let r = any_escaping_part(&parts);
    proof {
        if plain_path(t@) {
            let pv = parts_view(parts@);
            assert(pv.len() == parts@.len());
            if r {
                let i = choose|i: int| 0 <= i < parts@.len() && is_escaping_part(#[trigger] parts@[i]);
                assert(pv[i] == part_view(parts@[i]));
                assert(escaping_view(slash_parts(t@)[i]));
            }
            if leaves_root(t@) {
                let i = choose|i: int|
                    0 <= i < slash_parts(t@).len() && escaping_view(#[trigger] slash_parts(t@)[i]);
                assert(pv[i] == part_view(parts@[i]));
                assert(is_escaping_part(parts@[i]));
            }
        }
    }
    r
}

/// The position of the last `.` in `name`, or -1 when it has none.
pub open spec fn last_dot(name: Seq<char>) -> int
    decreases name.len(),
{
    if name.len() == 0 {
        -1
    } else if name.last() == '.' {
        name.len() - 1
    } else {
        last_dot(name.drop_last())
    }
}

/// The extension of a file name as `std::path::Path::extension` documents it:
/// what follows the last `.`, unless there is no `.` or the only one starts
/// the name.
pub open spec fn name_extension(name: Seq<char>) -> Option<Seq<char>> {
    if last_dot(name) > 0 {
        Some(name.subrange(last_dot(name) + 1, name.len() as int))
    } else {
        None
    }
}

/// The extension of a plain path: that of its last component when that one
/// is a normal component (the file name), none otherwise.
pub open spec fn last_extension(s: Seq<char>) -> Option<Seq<char>> {
    let parts = slash_parts(s);
    if parts.len() > 0 && parts.last() is Normal {
        name_extension(parts.last()->Normal_0)
    } else {
        None
    }
}

/// The text of an optional string.
pub open spec fn option_text(o: Option<String>) -> Option<Seq<char>> {
    match o {
        Some(s) => Some(s@),
        None => None,
    }
}

/// The extension of the last component of `t` as `std::path::Path::extension`
/// finds it, when there is one and it is valid UTF-8. For a plain path it is
/// `last_extension`; for any other path it depends on the platform and is not
/// stated.
#[verifier::external_body]
pub(crate) fn path_extension(t: &str) -> (r: Option<String>)
    ensures
        plain_path(t@) ==> option_text(r) == last_extension(t@),
{
    std::path::Path::new(t).extension().and_then(|e| e.to_str()).map(|e| e.to_string())
}

/// The position of the last `/` in `s`, or -1 when it has none.
pub open spec fn last_slash(s: Seq<char>) -> int
    decreases s.len(),
{
    if s.len() == 0 {
        -1
    } else if s.last() == '/' {
        s.len() - 1
    } else {
        last_slash(s.drop_last())
    }
}

/// A plain, non-empty path none of whose pieces is empty or `.`, but the
/// empty one before a leading `/`: `src/a.rs`, `/usr/lib`, `../x`.
pub open spec fn tidy_path(s: Seq<char>) -> bool {
    &&& plain_path(s)
    &&& s.len() > 0
    &&& forall|i: int|
        (if rooted(s) { 1int } else { 0int }) <= i < slash_segments(s).len() ==> {
            &&& (#[trigger] slash_segments(s)[i]).len() > 0
            &&& slash_segments(s)[i] != "."@
        }
}

/// The parent of a tidy path: all of it before its last `/` (the root itself
/// when that `/` is the leading one), or the empty path when it has no `/`.
pub open spec fn tidy_parent(s: Seq<char>) -> Seq<char> {
    let k = last_slash(s);
    if k < 0 {
        Seq::empty()
    } else if k == 0 {
        s.take(1)
    } else {
        s.take(k)
    }
}

/// The parent of `t` as `std::path::Path::parent` finds it (lossily
/// converted to UTF-8), or none when the path ends in a root or prefix or is
/// empty. Stated here: none for a plain path that has no component or whose
/// last component is the root, and `tidy_parent` for a tidy path. How `std`
/// trims empty and `.` pieces off other paths, and how it splits paths that
/// are not plain, is not stated.
#[verifier::external_body]
pub(crate) fn path_parent(t: &str) -> (r: Option<String>)
    ensures
        plain_path(t@) && (slash_parts(t@).len() == 0 || slash_parts(t@).last() is RootDir)
            ==> r is None,
        tidy_path(t@) ==> option_text(r) == Some(tidy_parent(t@)),
{
    std::path::Path::new(t).parent().map(|p| p.to_string_lossy().to_string())
}

} // verus!
