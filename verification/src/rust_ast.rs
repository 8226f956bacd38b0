//! The names a Rust source declares, read from its syntax tree as `syn`
//! parses it: modules, functions, structs, enums, imports and tests.
use syn::{Item, UseTree};
use vstd::prelude::*;

use crate::graph::{summary_compact, RustAstSummary};
use crate::text::{join, join_strings, owned, push_str, views};

verus! {

/// `syn`'s syntax tree item, carried through without being looked into.
#[verifier::external_type_specification]
#[verifier::external_body]
pub struct ExSynItem(syn::Item);

/// `syn`'s import tree, carried through without being looked into.
#[verifier::external_type_specification]
#[verifier::external_body]
pub struct ExSynUseTree(syn::UseTree);

/// An import tree: a path segment, a name, a renaming, a glob or a group.
pub enum RustUseTree {
    Path(String, Box<RustUseTree>),
    Name(String),
    Rename(String, String),
    Glob,
    Group(Vec<RustUseTree>),
}

/// An item of a Rust file as the summary reads it: a module (with its inline
/// items, if any), a function (with the single-identifier path of each of
/// its attributes, if it has one), a struct, an enum, an import, or another item.
pub enum RustItem {
    Mod(String, Option<Vec<RustItem>>),
    Fn(String, Vec<Option<String>>),
    Struct(String),
    Enum(String),
    Use(RustUseTree),
    Other,
}

/// What `syn::parse_file` makes of a source text: its items, or the error
/// message of a text that does not parse.
pub uninterp spec fn rust_parse(source: Seq<char>) -> Result<Seq<RustItem>, Seq<char>>;

/// Converts `syn`'s import tree, one variant for one variant; identifiers as
/// `to_string` writes them. Used by `parse_rust_items` alone.
#[verifier::external_body]
fn use_tree_model(tree: &syn::UseTree) -> RustUseTree {
    match tree {
        UseTree::Path(p) => RustUseTree::Path(p.ident.to_string(), Box::new(use_tree_model(&p.tree))),
        UseTree::Name(n) => RustUseTree::Name(n.ident.to_string()),
        UseTree::Rename(r) => RustUseTree::Rename(r.ident.to_string(), r.rename.to_string()),
        UseTree::Glob(_) => RustUseTree::Glob,
        UseTree::Group(g) => RustUseTree::Group(g.items.iter().map(use_tree_model).collect()),
    }
}

/// Converts `syn`'s items, one for one: names, inline module contents, the
/// single identifier (`Path::get_ident`) of each function attribute's path,
/// and import trees. Used by `parse_rust_items` alone.
#[verifier::external_body]
fn item_models(items: &[syn::Item]) -> Vec<RustItem> {
    items.iter().map(|item| match item {
        Item::Mod(m) => RustItem::Mod(m.ident.to_string(), m.content.as_ref().map(|(_, v)| item_models(v))),
        Item::Fn(f) => RustItem::Fn(
            f.sig.ident.to_string(),
            f.attrs.iter().map(|a| a.path().get_ident().map(|i| i.to_string())).collect(),
        ),
        Item::Struct(s) => RustItem::Struct(s.ident.to_string()),
        Item::Enum(e) => RustItem::Enum(e.ident.to_string()),
        Item::Use(u) => RustItem::Use(use_tree_model(&u.tree)),
        _ => RustItem::Other,
    }).collect()
}

/// `syn::parse_file`: the items of `source`, named `rust_parse` here, or the
/// parser's error message. `syn` parses by recursion on the stack without a
/// limit of its own; the `requires` admits only sources whose bracket nesting
/// and load (see `rust_lex`) stay within the bounds that keep that recursion
/// shallow.
#[verifier::external_body]
fn parse_rust_items(source: &str) -> (r: Result<Vec<RustItem>, String>)
    requires
        crate::rust_lex::shallow_source(source@),
    ensures
        match r {
            Ok(v) => rust_parse(source@) == Ok::<Seq<RustItem>, Seq<char>>(v@),
            Err(e) => rust_parse(source@) == Err::<Seq<RustItem>, Seq<char>>(e@),
        },
{
    syn::parse_file(source).map(|file| item_models(&file.items)).map_err(|error| error.to_string())
}

/// An import tree as text: segments joined by `::`, `a as b` for a renaming,
/// `*` for a glob, and the members of a group joined by `,`.
pub open spec fn use_text(t: RustUseTree) -> Seq<char>
    decreases t, 1nat,
{
    match t {
        RustUseTree::Path(id, sub) => id@ + "::"@ + use_text(*sub),
        RustUseTree::Name(n) => n@,
        RustUseTree::Rename(a, b) => a@ + " as "@ + b@,
        RustUseTree::Glob => "*"@,
        RustUseTree::Group(items) => join(group_texts(items@), ","@),
    }
}

/// The texts of the members of a group, in order.
pub open spec fn group_texts(s: Seq<RustUseTree>) -> Seq<Seq<char>>
    decreases s, 0nat,
{
    if s.len() == 0 {
        Seq::empty()
    } else {
        group_texts(s.drop_last()).push(use_text(s.last()))
    }
}

/// The lists of a summary.
pub enum NameKind {
    Module,
    Function,
    Struct,
    Enum,
    Import,
    Test,
}

/// A function carries `#[test]`.
pub open spec fn has_test_attr(attrs: Seq<Option<String>>) -> bool {
    exists|i: int| 0 <= i < attrs.len() && (#[trigger] attrs[i]) is Some && attrs[i]->0@ == "test"@
}

/// The names of kind `k` that an item declares, its inline modules' items included.
pub open spec fn item_names(it: RustItem, k: NameKind) -> Set<Seq<char>>
    decreases it, 1nat,
{
    match it {
        RustItem::Mod(n, content) => (if k is Module {
            set![n@]
        } else {
            Set::empty()
        }) + match content {
            Some(v) => items_names(v@, k),
            None => Set::empty(),
        },
        RustItem::Fn(n, attrs) => if k is Function || (k is Test && has_test_attr(attrs@)) {
            set![n@]
        } else {
            Set::empty()
        },
        RustItem::Struct(n) => if k is Struct {
            set![n@]
        } else {
            Set::empty()
        },
        RustItem::Enum(n) => if k is Enum {
            set![n@]
        } else {
            Set::empty()
        },
        RustItem::Use(t) => if k is Import {
            set![use_text(t)]
        } else {
            Set::empty()
        },
        RustItem::Other => Set::empty(),
    }
}

/// The names of kind `k` that a sequence of items declares.
pub open spec fn items_names(s: Seq<RustItem>, k: NameKind) -> Set<Seq<char>>
    decreases s, 0nat,
{
    if s.len() == 0 {
        Set::empty()
    } else {
        items_names(s.drop_last(), k) + item_names(s.last(), k)
    }
}

/// The list of kind `k` of a summary, as a set.
pub open spec fn names_of(a: RustAstSummary, k: NameKind) -> Set<Seq<char>> {
    match k {
        NameKind::Module => views(a.modules@).to_set(),
        NameKind::Function => views(a.functions@).to_set(),
        NameKind::Struct => views(a.structs@).to_set(),
        NameKind::Enum => views(a.enums@).to_set(),
        NameKind::Import => views(a.use_imports@).to_set(),
        NameKind::Test => views(a.test_functions@).to_set(),
    }
}

/// An import tree as text.
pub fn use_tree_to_string(tree: &RustUseTree) -> (r: String)
    ensures
        r@ == use_text(*tree),
    decreases tree,
{
    match tree {
        RustUseTree::Path(id, sub) => {
            let mut r = owned(id.as_str());
            push_str(&mut r, "::");
            proof {
                assert(decreases_to!(*tree => **sub));
            }
            push_str(&mut r, use_tree_to_string(sub).as_str());
            r
        },
        RustUseTree::Name(n) => owned(n.as_str()),
        RustUseTree::Rename(a, b) => {
            let mut r = owned(a.as_str());
            push_str(&mut r, " as ");
            push_str(&mut r, b.as_str());
            r
        },
        RustUseTree::Glob => owned("*"),
        RustUseTree::Group(items) => {
            let mut texts: Vec<String> = Vec::new();
            let mut i: usize = 0;
            while i < items.len()
                invariant
                    i <= items.len(),
                    *tree == RustUseTree::Group(*items),
                    views(texts@) == group_texts(items@.take(i as int)),
                decreases items.len() - i,
            {
                assert(items@.take(i + 1).drop_last() =~= items@.take(i as int));
                assert(items@.take(i + 1).last() == items@[i as int]);
                proof {
                    assert(decreases_to!(*tree => tree->Group_0));
                    assert(tree->Group_0 == *items);
                    assert(decreases_to!(*items => items@));
                    assert(decreases_to!(items@ => items@[i as int]));
                    assert(decreases_to!(*tree => items@[i as int]));
                }
                let t = use_tree_to_string(&items[i]);
                let ghost before = views(texts@);
                texts.push(t);
                assert(views(texts@) =~= before.push(use_text(items@[i as int])));
                i = i + 1;
            }
            assert(items@.take(i as int) =~= items@);
            join_strings(&texts, ",")
        },
    }
}

/// Every list of `b` is that of `a` with the names of kind `k` in `n` added.
pub open spec fn added(a: RustAstSummary, b: RustAstSummary, n: spec_fn(NameKind) -> Set<Seq<char>>) -> bool {
    &&& names_of(b, NameKind::Module) == names_of(a, NameKind::Module) + n(NameKind::Module)
    &&& names_of(b, NameKind::Function) == names_of(a, NameKind::Function) + n(NameKind::Function)
    &&& names_of(b, NameKind::Struct) == names_of(a, NameKind::Struct) + n(NameKind::Struct)
    &&& names_of(b, NameKind::Enum) == names_of(a, NameKind::Enum) + n(NameKind::Enum)
    &&& names_of(b, NameKind::Import) == names_of(a, NameKind::Import) + n(NameKind::Import)
    &&& names_of(b, NameKind::Test) == names_of(a, NameKind::Test) + n(NameKind::Test)
}

fn push_name(v: &mut Vec<String>, name: &str)
    ensures
        views(final(v)@).to_set() == views(old(v)@).to_set() + set![name@],
{
    let ghost before = views(v@);
    v.push(owned(name));
    proof {
        assert(views(v@) =~= before.push(name@));
        before.lemma_push_to_set_commute(name@);
        assert(before.to_set().insert(name@) =~= before.to_set() + set![name@]);
    }
}

fn has_test_attribute(attrs: &Vec<Option<String>>) -> (r: bool)
    ensures
        r == has_test_attr(attrs@),
{
    let mut i: usize = 0;
    while i < attrs.len()
        invariant
            i <= attrs.len(),
            forall|k: int| 0 <= k < i ==> !((#[trigger] attrs@[k]) is Some && attrs@[k]->0@ == "test"@),
        decreases attrs.len() - i,
    {
        match &attrs[i] {
            Some(a) => {
                if crate::text::str_eq(a.as_str(), "test") {
                    return true;
                }
            },
            None => {},
        }
        i = i + 1;
    }
    false
}

/// Adds the names that `item` declares to `acc`.
fn collect_item(item: &RustItem, acc: &mut RustAstSummary)
    ensures
        added(*old(acc), *final(acc), |k: NameKind| item_names(*item, k)),
    decreases item,
{
    let ghost a0 = *acc;
    match item {
        RustItem::Mod(n, content) => {
            push_name(&mut acc.modules, n.as_str());
            let ghost a1 = *acc;
            match content {
                Some(v) => {
                    proof {
                        assert forall|k: NameKind| #[trigger] names_of(*acc, k) == names_of(a1, k)
                            + items_names(v@.take(0), k) by {
                            assert(names_of(a1, k) + items_names(v@.take(0), k) =~= names_of(a1, k));
                        }
                    }
                    let mut i: usize = 0;
                    while i < v.len()
                        invariant
                            i <= v.len(),
                            *item == RustItem::Mod(*n, Some(*v)),
                            added(a1, *acc, |k: NameKind| items_names(v@.take(i as int), k)),
                        decreases v.len() - i,
                    {
                        assert(v@.take(i + 1).drop_last() =~= v@.take(i as int));
                        assert(v@.take(i + 1).last() == v@[i as int]);
                        proof {
                            assert(decreases_to!(*item => item->Mod_1));
                            assert(decreases_to!(item->Mod_1 => item->Mod_1->Some_0));
                            assert(item->Mod_1->Some_0 == *v);
                            assert(decreases_to!(*v => v@));
                            assert(decreases_to!(v@ => v@[i as int]));
                            assert(decreases_to!(*item => v@[i as int]));
                        }
                        let ghost before = *acc;
                        collect_item(&v[i], acc);
                        proof {
                            assert forall|k: NameKind| #[trigger] names_of(*acc, k) == names_of(a1, k)
                                + items_names(v@.take(i + 1), k) by {
                                assert(names_of(a1, k) + items_names(v@.take(i as int), k) + item_names(
                                    v@[i as int],
                                    k,
                                ) =~= names_of(a1, k) + items_names(v@.take(i + 1), k));
                            }
                        }
                        i = i + 1;
                    }
                    assert(v@.take(i as int) =~= v@);
                },
                None => {},
            }
            proof {
                assert forall|k: NameKind| #[trigger] names_of(*acc, k) == names_of(a0, k) + item_names(*item, k) by {
                    match content {
                        Some(v) => {
                            assert(names_of(a0, k) + (if k is Module { set![n@] } else { Set::empty() })
                                + items_names(v@, k) =~= names_of(a0, k) + item_names(*item, k));
                        },
                        None => {
                            assert(names_of(a0, k) + (if k is Module { set![n@] } else { Set::empty() })
                                =~= names_of(a0, k) + item_names(*item, k));
                        },
                    }
                }
            }
        },
        RustItem::Fn(n, attrs) => {
            if has_test_attribute(attrs) {
                push_name(&mut acc.test_functions, n.as_str());
            }
            push_name(&mut acc.functions, n.as_str());
            proof {
                assert forall|k: NameKind| #[trigger] names_of(*acc, k) == names_of(a0, k) + item_names(*item, k) by {
                    assert(names_of(a0, k) + Set::<Seq<char>>::empty() =~= names_of(a0, k));
                }
            }
        },
        RustItem::Struct(n) => {
            push_name(&mut acc.structs, n.as_str());
            proof {
                assert forall|k: NameKind| #[trigger] names_of(*acc, k) == names_of(a0, k) + item_names(*item, k) by {
                    assert(names_of(a0, k) + Set::<Seq<char>>::empty() =~= names_of(a0, k));
                }
            }
        },
        RustItem::Enum(n) => {
            push_name(&mut acc.enums, n.as_str());
            proof {
                assert forall|k: NameKind| #[trigger] names_of(*acc, k) == names_of(a0, k) + item_names(*item, k) by {
                    assert(names_of(a0, k) + Set::<Seq<char>>::empty() =~= names_of(a0, k));
                }
            }
        },
        RustItem::Use(t) => {
            let text = use_tree_to_string(t);
            push_name(&mut acc.use_imports, text.as_str());
            proof {
                assert forall|k: NameKind| #[trigger] names_of(*acc, k) == names_of(a0, k) + item_names(*item, k) by {
                    assert(names_of(a0, k) + Set::<Seq<char>>::empty() =~= names_of(a0, k));
                }
            }
        },
        RustItem::Other => {
            proof {
                assert forall|k: NameKind| #[trigger] names_of(*acc, k) == names_of(a0, k) + item_names(*item, k) by {
                    assert(names_of(a0, k) + Set::<Seq<char>>::empty() =~= names_of(a0, k));
                }
            }
        },
    }
}

/// The summary of parsed items: every module, function, struct, enum,
/// import and test they declare, at any depth of inline modules, each list
/// sorted without repeats.
pub fn summary_from_items(items: &Vec<RustItem>) -> (r: RustAstSummary)
    ensures
        summary_compact(r),
        forall|k: NameKind| #[trigger] names_of(r, k) == items_names(items@, k),
{
    let mut acc = RustAstSummary {
        modules: Vec::new(),
        functions: Vec::new(),
        structs: Vec::new(),
        enums: Vec::new(),
        use_imports: Vec::new(),
        test_functions: Vec::new(),
    };
    proof {
        assert forall|k: NameKind| #[trigger] names_of(acc, k) == items_names(items@.take(0), k) by {
            assert(names_of(acc, k) =~= Set::<Seq<char>>::empty());
        }
    }
    let mut i: usize = 0;
    while i < items.len()
        invariant
            i <= items.len(),
            forall|k: NameKind| #[trigger] names_of(acc, k) == items_names(items@.take(i as int), k),
        decreases items.len() - i,
    {
        assert(items@.take(i + 1).drop_last() =~= items@.take(i as int));
        assert(items@.take(i + 1).last() == items@[i as int]);
        let ghost before = acc;
        collect_item(&items[i], &mut acc);
        proof {
            assert forall|k: NameKind| #[trigger] names_of(acc, k) == items_names(items@.take(i + 1), k) by {
                assert(names_of(before, k) + item_names(items@[i as int], k) == items_names(
                    items@.take(i + 1),
                    k,
                ));
            }
        }
        i = i + 1;
    }
    assert(items@.take(i as int) =~= items@);
    let ghost unsorted = acc;
    let r = acc.sort_compact();
    proof {
        assert forall|k: NameKind| #[trigger] names_of(r, k) == names_of(unsorted, k) by {
            match k {
                NameKind::Module => {},
                NameKind::Function => {},
                NameKind::Struct => {},
                NameKind::Enum => {},
                NameKind::Import => {},
                NameKind::Test => {},
            }
        }
    }
    r
}

/// The summary of a Rust source, or the error of one that nests too deeply
/// or does not parse.
pub open spec fn ast_summary_result(source: Seq<char>, r: Result<RustAstSummary, String>) -> bool {
    if !crate::rust_lex::shallow_source(source) {
        r matches Err(m) && m@ == "failed to parse Rust AST: source nests too deeply"@
    } else {
        match rust_parse(source) {
        Ok(items) => r matches Ok(a) && summary_compact(a) && forall|k: NameKind|
            #[trigger] names_of(a, k) == items_names(items, k),
        Err(e) => r matches Err(m) && m@ == "failed to parse Rust AST: "@ + e,
        }
    }
}

/// Parses a Rust source with `syn` and summarises what it declares. A source
/// that nests brackets deeper than `MAX_SOURCE_NESTING` or whose load passes
/// `MAX_SOURCE_LOAD` (see `rust_lex`) is refused before parsing: `syn` would
/// have to descend that deep on the stack.
pub fn extract_rust_ast(source: &str) -> (r: Result<RustAstSummary, String>)
    ensures
        ast_summary_result(source@, r),
{
    if !crate::rust_lex::source_within_bounds(source) {
        return Err(owned("failed to parse Rust AST: source nests too deeply"));
    }
    match parse_rust_items(source) {
        Ok(items) => Ok(summary_from_items(&items)),
        Err(e) => {
            let mut m = owned("failed to parse Rust AST: ");
            push_str(&mut m, e.as_str());
            Err(m)
        },
    }
}

/// The names of kind `k` declared by any item of a list are among the list's names.
pub proof fn lemma_items_names_include(s: Seq<RustItem>, j: int, k: NameKind)
    requires
        0 <= j < s.len(),
    ensures
        item_names(s[j], k).subset_of(items_names(s, k)),
    decreases s.len(),
{
    if j < s.len() - 1 {
        lemma_items_names_include(s.drop_last(), j, k);
        assert(s.drop_last()[j] == s[j]);
    }
}

/// A function is listed among the tests when any of its attributes, in any
/// position, is `test`, and is not listed when none is; the items of a
/// source thus list a function as a test when one of its attributes is `test`.
pub proof fn lemma_test_functions(
    s: Seq<RustItem>,
    j: int,
    name: String,
    attrs: Vec<Option<String>>,
    i: int,
)
    requires
        0 <= j < s.len(),
        s[j] == RustItem::Fn(name, attrs),
    ensures
        0 <= i < attrs@.len() && attrs@[i] is Some && attrs@[i]->0@ == "test"@ ==> item_names(
            s[j],
            NameKind::Test,
        ) == set![name@] && items_names(s, NameKind::Test).contains(name@),
        (forall|m: int| 0 <= m < attrs@.len() ==> !((#[trigger] attrs@[m]) is Some && attrs@[m]->0@
            == "test"@)) ==> item_names(s[j], NameKind::Test) == Set::<Seq<char>>::empty(),
{
    lemma_items_names_include(s, j, NameKind::Test);
    if 0 <= i < attrs@.len() && attrs@[i] is Some && attrs@[i]->0@ == "test"@ {
        assert(has_test_attr(attrs@));
        assert(item_names(s[j], NameKind::Test).contains(name@));
    }
}

} // verus!

