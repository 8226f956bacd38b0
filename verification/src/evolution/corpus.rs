//! Read-only ingestion of a local corpus: what a scan of its files records,
//! the strategies it suggests, its report and its place in the graph.
use vstd::prelude::*;

use crate::contracts::CorpusIngestContract;
use crate::digest::sha256_hex;
use crate::digest::sha256_digest;
use crate::graph::{edge_keys, keys_sorted, node_keys, EvolutionGraph};
use crate::paths::{last_extension, plain_path};
use crate::text::{
    lemma_union_step, union_over,
    contains, contains_string, decimal, ends_with, flag, has_infix, has_prefix,
    has_suffix, insert_sorted, join, join_or, join_or_strings, join_strings, owned, push_decimal,
    push_if, push_str, starts_with, strictly_sorted, trim, views,
};

verus! {

/// What an ingestion found in a corpus, as counts and names.
#[derive(Clone, Debug)]
pub struct CorpusSummary {
    pub corpus_id: String,
    pub root_path: String,
    pub scanned_files: usize,
    pub skipped_files: usize,
    pub file_count: usize,
    pub rust_file_count: usize,
    pub test_file_count: usize,
    pub function_count: usize,
    pub test_function_count: usize,
    pub result_returning_functions: usize,
    pub error_enum_count: usize,
    pub validation_function_count: usize,
    pub cli_parser_mentions: usize,
    pub reporting_mentions: usize,
    pub module_names: Vec<String>,
    pub suggested_strategies: Vec<String>,
    pub safety_notes: Vec<String>,
}

/// The patterns and symbolic labels an ingestion detected.
#[derive(Clone, Debug)]
pub struct CorpusPatterns {
    pub corpus_id: String,
    pub detected_patterns: Vec<String>,
    pub symbolic_labels: Vec<String>,
}

/// A scan in progress: the summary so far, and the detected patterns,
/// symbolic labels and module names seen so far.
#[derive(Clone, Debug)]
pub struct CorpusScan {
    pub summary: CorpusSummary,
    pub detected: Vec<String>,
    pub symbolic: Vec<String>,
    pub modules: Vec<String>,
}

impl CorpusScan {
    /// The three name lists are sorted without repeats.
    pub open spec fn wf(&self) -> bool {
        strictly_sorted(views(self.detected@)) && strictly_sorted(views(self.symbolic@))
            && strictly_sorted(views(self.modules@))
    }
}

/// The number of lines that satisfy `p`.
pub open spec fn count_lines(ls: Seq<Seq<char>>, p: spec_fn(Seq<char>) -> bool) -> nat
    decreases ls.len(),
{
    if ls.len() == 0 {
        0
    } else {
        count_lines(ls.drop_last(), p) + if p(ls.last()) {
            1nat
        } else {
            0nat
        }
    }
}

/// One more line adds its own count and names.
pub proof fn lemma_lines_step(
    ls: Seq<Seq<char>>,
    i: int,
    p: spec_fn(Seq<char>) -> bool,
    f: spec_fn(Seq<char>) -> Set<Seq<char>>,
)
    requires
        0 <= i < ls.len(),
    ensures
        count_lines(ls.take(i + 1), p) == count_lines(ls.take(i), p) + if p(ls[i]) {
            1nat
        } else {
            0nat
        },
        union_over(ls.take(i + 1), f) == union_over(ls.take(i), f) + f(ls[i]),
        count_lines(ls.take(i), p) <= i,
{
    assert(ls.take(i + 1).drop_last() =~= ls.take(i));
    lemma_union_step(ls, i, f);
    lemma_count_bound(ls.take(i), p);
}

/// A single line counts once when it satisfies `p`.
pub proof fn lemma_count_one(t: Seq<char>, p: spec_fn(Seq<char>) -> bool)
    ensures
        count_lines(seq![t], p) == if p(t) {
            1nat
        } else {
            0nat
        },
{
    let one = seq![t];
    assert(one.drop_last() =~= Seq::<Seq<char>>::empty());
    assert(count_lines(one.drop_last(), p) == 0);
    assert(one.last() == t);
}

/// At most every line satisfies `p`.
pub proof fn lemma_count_bound(ls: Seq<Seq<char>>, p: spec_fn(Seq<char>) -> bool)
    ensures
        count_lines(ls, p) <= ls.len(),
    decreases ls.len(),
{
    if ls.len() > 0 {
        lemma_count_bound(ls.drop_last(), p);
    }
}

/// `{x}` when `c` holds, else nothing.
pub open spec fn when(c: bool, x: Seq<char>) -> Set<Seq<char>> {
    if c {
        set![x]
    } else {
        Set::empty()
    }
}

/// A line that declares a function.
pub open spec fn function_line() -> spec_fn(Seq<char>) -> bool {
    |t: Seq<char>| has_prefix(t, "fn "@) || has_infix(t, " fn "@)
}

/// A test attribute line.
pub open spec fn test_attribute_line(t: Seq<char>) -> bool {
    has_prefix(t, "#[test]"@)
}

/// A line that asserts.
pub open spec fn assertion_line() -> spec_fn(Seq<char>) -> bool {
    |t: Seq<char>| has_infix(t, "assert!"@) || has_infix(t, "assert_eq!"@)
}

/// A line with a function returning `Result`.
pub open spec fn result_line() -> spec_fn(Seq<char>) -> bool {
    |t: Seq<char>| has_infix(t, "-> Result<"@)
}

/// A line that declares an error enum.
pub open spec fn error_enum_line() -> spec_fn(Seq<char>) -> bool {
    |t: Seq<char>| has_infix(t, "enum "@) && has_infix(t, "Error"@)
}

/// A line about validation or guards.
pub open spec fn validation_line() -> spec_fn(Seq<char>) -> bool {
    |t: Seq<char>| has_infix(t, "validate"@) || has_infix(t, "guard"@)
}

/// A line about command-line parsing.
pub open spec fn cli_line() -> spec_fn(Seq<char>) -> bool {
    |t: Seq<char>| has_infix(t, "clap"@) || has_infix(t, "arg("@) || has_infix(t, "subcommand"@)
}

/// A line about reporting.
pub open spec fn report_line() -> spec_fn(Seq<char>) -> bool {
    |t: Seq<char>| has_infix(t, "write_report"@) || has_infix(t, "report"@) || has_infix(
        t,
        "println!"@,
    )
}

/// `s` without the copies of `c` at its end.
pub open spec fn trim_end_char(s: Seq<char>, c: char) -> Seq<char>
    decreases s.len(),
{
    if s.len() > 0 && s.last() == c {
        trim_end_char(s.drop_last(), c)
    } else {
        s
    }
}

/// The module a `mod` line declares, when it names one.
pub open spec fn module_name(t: Seq<char>) -> Option<Seq<char>> {
    if has_prefix(t, "mod "@) {
        let n = trim(trim_end_char(t.skip(4), ';'));
        if n.len() > 0 {
            Some(n)
        } else {
            None
        }
    } else {
        None
    }
}

/// The patterns that a line of Rust shows.
pub open spec fn line_patterns() -> spec_fn(Seq<char>) -> Set<Seq<char>> {
    |t: Seq<char>|
        when(test_attribute_line(t) || (assertion_line())(t), "test_assertion_pattern"@) + when(
            (result_line())(t) || (error_enum_line())(t),
            "result_error_pattern"@,
        ) + when((validation_line())(t), "validation_guard_pattern"@) + when(
            (cli_line())(t),
            "cli_command_pattern"@,
        ) + when((report_line())(t), "report_writer_pattern"@)
}

/// The symbolic labels that a line of Rust shows.
pub open spec fn line_labels() -> spec_fn(Seq<char>) -> Set<Seq<char>> {
    |t: Seq<char>|
        when((assertion_line())(t), "assertion_label"@) + when(
            (result_line())(t),
            "result_signature_label"@,
        ) + when((error_enum_line())(t), "error_enum_label"@) + when(
            (validation_line())(t),
            "validation_guard_label"@,
        ) + when((cli_line())(t), "cli_parser_label"@) + when(
            (report_line())(t),
            "report_writer_label"@,
        )
}

/// The module that a line of Rust declares, as a set.
pub open spec fn line_modules() -> spec_fn(Seq<char>) -> Set<Seq<char>> {
    |t: Seq<char>|
        match module_name(t) {
            Some(n) => set![n],
            None => Set::empty(),
        }
}

/// The counters that a line moves, and by how much.
pub open spec fn counted(
    old: CorpusSummary,
    new: CorpusSummary,
    ls: Seq<Seq<char>>,
    in_test_file: bool,
) -> bool {
    &&& new.function_count == old.function_count + count_lines(ls, function_line())
    &&& new.test_function_count == old.test_function_count + if in_test_file {
        count_lines(ls, assertion_line())
    } else {
        0
    }
    &&& new.result_returning_functions == old.result_returning_functions + count_lines(
        ls,
        result_line(),
    )
    &&& new.error_enum_count == old.error_enum_count + count_lines(ls, error_enum_line())
    &&& new.validation_function_count == old.validation_function_count + count_lines(
        ls,
        validation_line(),
    )
    &&& new.cli_parser_mentions == old.cli_parser_mentions + count_lines(ls, cli_line())
    &&& new.reporting_mentions == old.reporting_mentions + count_lines(ls, report_line())
}

/// The fields that no line changes.
pub open spec fn same_frame(old: CorpusSummary, new: CorpusSummary) -> bool {
    &&& new.corpus_id == old.corpus_id
    &&& new.root_path == old.root_path
    &&& new.scanned_files == old.scanned_files
    &&& new.skipped_files == old.skipped_files
    &&& new.file_count == old.file_count
    &&& new.rust_file_count == old.rust_file_count
    &&& new.test_file_count == old.test_file_count
    &&& new.module_names == old.module_names
    &&& new.suggested_strategies == old.suggested_strategies
    &&& new.safety_notes == old.safety_notes
}

/// Every line counter of `s` can grow by `n` without overflow.
pub open spec fn counters_room(s: CorpusSummary, n: nat) -> bool {
    &&& s.function_count + n <= usize::MAX
    &&& s.test_function_count + n <= usize::MAX
    &&& s.result_returning_functions + n <= usize::MAX
    &&& s.error_enum_count + n <= usize::MAX
    &&& s.validation_function_count + n <= usize::MAX
    &&& s.cli_parser_mentions + n <= usize::MAX
    &&& s.reporting_mentions + n <= usize::MAX
}

fn insert_name(v: &mut Vec<String>, c: bool, name: &str)
    requires
        strictly_sorted(views(old(v)@)),
    ensures
        strictly_sorted(views(final(v)@)),
        views(final(v)@).to_set() == views(old(v)@).to_set() + when(c, name@),
{
    if c {
        insert_sorted(v, owned(name));
        assert(views(old(v)@).to_set().insert(name@) =~= views(old(v)@).to_set() + when(c, name@));
    } else {
        assert(views(v@).to_set() =~= views(v@).to_set() + when(c, name@));
    }
}

fn bump(n: usize, c: bool) -> (r: usize)
    requires
        n + 1 <= usize::MAX,
    ensures
        r == n + if c {
            1nat
        } else {
            0nat
        },
{
    if c {
        n + 1
    } else {
        n
    }
}

/// Records one trimmed line `t` of a Rust file: its counters, the patterns and
/// labels it shows and the module it declares.
pub fn scan_line(scan: &mut CorpusScan, in_test_file: bool, t: &str)
    requires
        old(scan).wf(),
        counters_room(old(scan).summary, 1),
    ensures
        final(scan).wf(),
        counted(old(scan).summary, final(scan).summary, seq![t@], in_test_file),
        same_frame(old(scan).summary, final(scan).summary),
        views(final(scan).detected@).to_set() == views(old(scan).detected@).to_set() + (
        line_patterns())(t@),
        views(final(scan).symbolic@).to_set() == views(old(scan).symbolic@).to_set() + (
        line_labels())(t@),
        views(final(scan).modules@).to_set() == views(old(scan).modules@).to_set() + (
        line_modules())(t@),
{
    proof {
        lemma_count_one(t@, function_line());
        lemma_count_one(t@, assertion_line());
        lemma_count_one(t@, result_line());
        lemma_count_one(t@, error_enum_line());
        lemma_count_one(t@, validation_line());
        lemma_count_one(t@, cli_line());
        lemma_count_one(t@, report_line());
    }
    let function = starts_with(t, "fn ") || contains(t, " fn ");
    let test_attr = starts_with(t, "#[test]");
    let assertion = contains(t, "assert!") || contains(t, "assert_eq!");
    let result = contains(t, "-> Result<");
    let error_enum = contains(t, "enum ") && contains(t, "Error");
    let validation = contains(t, "validate") || contains(t, "guard");
    let cli = contains(t, "clap") || contains(t, "arg(") || contains(t, "subcommand");
    let report = contains(t, "write_report") || contains(t, "report") || contains(t, "println!");
    scan.summary.function_count = bump(scan.summary.function_count, function);
    scan.summary.test_function_count = bump(
        scan.summary.test_function_count,
        assertion && in_test_file,
    );
    scan.summary.result_returning_functions = bump(scan.summary.result_returning_functions, result);
    scan.summary.error_enum_count = bump(scan.summary.error_enum_count, error_enum);
    scan.summary.validation_function_count = bump(
        scan.summary.validation_function_count,
        validation,
    );
    scan.summary.cli_parser_mentions = bump(scan.summary.cli_parser_mentions, cli);
    scan.summary.reporting_mentions = bump(scan.summary.reporting_mentions, report);
    let ghost d0 = views(scan.detected@).to_set();
    insert_name(&mut scan.detected, test_attr || assertion, "test_assertion_pattern");
    insert_name(&mut scan.detected, result || error_enum, "result_error_pattern");
    insert_name(&mut scan.detected, validation, "validation_guard_pattern");
    insert_name(&mut scan.detected, cli, "cli_command_pattern");
    insert_name(&mut scan.detected, report, "report_writer_pattern");
    assert(views(scan.detected@).to_set() =~= d0 + (line_patterns())(t@));
    let ghost s0 = views(scan.symbolic@).to_set();
    insert_name(&mut scan.symbolic, assertion, "assertion_label");
    insert_name(&mut scan.symbolic, result, "result_signature_label");
    insert_name(&mut scan.symbolic, error_enum, "error_enum_label");
    insert_name(&mut scan.symbolic, validation, "validation_guard_label");
    insert_name(&mut scan.symbolic, cli, "cli_parser_label");
    insert_name(&mut scan.symbolic, report, "report_writer_label");
    assert(views(scan.symbolic@).to_set() =~= s0 + (line_labels())(t@));
    let name = declared_module(t);
    match name {
        Some(n) => {
            let ghost m0 = views(scan.modules@).to_set();
            insert_sorted(&mut scan.modules, n);
            assert(views(scan.modules@).to_set() =~= m0 + (line_modules())(t@));
        },
        None => {
            assert(views(scan.modules@).to_set() =~= views(scan.modules@).to_set() + (
            line_modules())(t@));
        },
    }
}

/// The module a `mod` line declares, when it names one.
pub fn declared_module(t: &str) -> (r: Option<String>)
    ensures
        match r {
            Some(n) => module_name(t@) == Some(n@),
            None => module_name(t@) is None,
        },
{
    if !starts_with(t, "mod ") {
        return None;
    }
    proof {
        reveal_strlit("mod ");
    }
    let x = crate::text::chars_of(t);
    let mut hi = x.len();
    assert(x@.subrange(4, hi as int) =~= t@.skip(4));
    while hi > 4 && x[hi - 1] == ';'
        invariant
            x@ == t@,
            4 <= hi <= x.len(),
            trim_end_char(t@.skip(4), ';') == trim_end_char(x@.subrange(4, hi as int), ';'),
        decreases hi,
    {
        assert(x@.subrange(4, hi as int).drop_last() =~= x@.subrange(4, hi - 1));
        hi = hi - 1;
    }
    let rest = crate::text::string_of_range(&x, 4, hi);
    assert(trim_end_char(x@.subrange(4, hi as int), ';') == rest@);
    let name = crate::text::trimmed(rest.as_str());
    if name.as_str().unicode_len() > 0 {
        Some(name)
    } else {
        None
    }
}

/// The lines of `contents`, each without surrounding whitespace.
pub open spec fn trimmed_lines(contents: Seq<char>) -> Seq<Seq<char>> {
    crate::text::lines_of(contents).map_values(|l: Seq<char>| trim(l))
}

/// A Rust source file.
pub open spec fn is_rust_source(relative: Seq<char>) -> bool {
    has_suffix(relative, ".rs"@)
}

/// The patterns a file shows: those of its lines and its JSON use for Rust
/// sources, and the configuration pattern for TOML files.
pub open spec fn file_patterns(relative: Seq<char>, contents: Seq<char>) -> Set<Seq<char>> {
    (if is_rust_source(relative) {
        union_over(trimmed_lines(contents), line_patterns()) + when(
            has_infix(contents, "serde_json"@) || has_infix(contents, "json!"@),
            "json_contract_pattern"@,
        )
    } else {
        Set::empty()
    }) + when(has_suffix(relative, ".toml"@), "toml_config_pattern"@)
}

/// The symbolic labels a file shows, in the same way.
pub open spec fn file_labels(relative: Seq<char>, contents: Seq<char>) -> Set<Seq<char>> {
    (if is_rust_source(relative) {
        union_over(trimmed_lines(contents), line_labels()) + when(
            has_infix(contents, "serde_json"@) || has_infix(contents, "json!"@),
            "json_contract_label"@,
        )
    } else {
        Set::empty()
    }) + when(has_suffix(relative, ".toml"@), "toml_config_label"@)
}

/// The modules a Rust source declares.
pub open spec fn file_modules(relative: Seq<char>, contents: Seq<char>) -> Set<Seq<char>> {
    if is_rust_source(relative) {
        union_over(trimmed_lines(contents), line_modules())
    } else {
        Set::empty()
    }
}

/// The lines whose counters a file moves: all of a Rust source's, none of another file's.
pub open spec fn counted_lines(relative: Seq<char>, contents: Seq<char>) -> Seq<Seq<char>> {
    if is_rust_source(relative) {
        trimmed_lines(contents)
    } else {
        Seq::empty()
    }
}

proof fn lemma_counted_step(
    s0: CorpusSummary,
    s1: CorpusSummary,
    s2: CorpusSummary,
    ls: Seq<Seq<char>>,
    i: int,
    in_test_file: bool,
)
    requires
        0 <= i < ls.len(),
        counted(s0, s1, ls.take(i), in_test_file),
        counted(s1, s2, seq![ls[i]], in_test_file),
    ensures
        counted(s0, s2, ls.take(i + 1), in_test_file),
{
    let f = line_modules();
    lemma_lines_step(ls, i, function_line(), f);
    lemma_lines_step(ls, i, assertion_line(), f);
    lemma_lines_step(ls, i, result_line(), f);
    lemma_lines_step(ls, i, error_enum_line(), f);
    lemma_lines_step(ls, i, validation_line(), f);
    lemma_lines_step(ls, i, cli_line(), f);
    lemma_lines_step(ls, i, report_line(), f);
    lemma_count_one(ls[i], function_line());
    lemma_count_one(ls[i], assertion_line());
    lemma_count_one(ls[i], result_line());
    lemma_count_one(ls[i], error_enum_line());
    lemma_count_one(ls[i], validation_line());
    lemma_count_one(ls[i], cli_line());
    lemma_count_one(ls[i], report_line());
}

proof fn lemma_room_left(s0: CorpusSummary, s1: CorpusSummary, ls: Seq<Seq<char>>, i: int, in_test_file: bool)
    requires
        0 <= i < ls.len(),
        counters_room(s0, ls.len()),
        counted(s0, s1, ls.take(i), in_test_file),
    ensures
        counters_room(s1, 1),
{
    let f = line_modules();
    lemma_lines_step(ls, i, function_line(), f);
    lemma_lines_step(ls, i, assertion_line(), f);
    lemma_lines_step(ls, i, result_line(), f);
    lemma_lines_step(ls, i, error_enum_line(), f);
    lemma_lines_step(ls, i, validation_line(), f);
    lemma_lines_step(ls, i, cli_line(), f);
    lemma_lines_step(ls, i, report_line(), f);
}

/// Records the lines of a Rust source, trimmed, one by one.
fn scan_rust_lines(scan: &mut CorpusScan, in_test_file: bool, contents: &str)
    requires
        old(scan).wf(),
        counters_room(old(scan).summary, trimmed_lines(contents@).len()),
    ensures
        final(scan).wf(),
        counted(old(scan).summary, final(scan).summary, trimmed_lines(contents@), in_test_file),
        same_frame(old(scan).summary, final(scan).summary),
        views(final(scan).detected@).to_set() == views(old(scan).detected@).to_set() + union_over(
            trimmed_lines(contents@),
            line_patterns(),
        ),
        views(final(scan).symbolic@).to_set() == views(old(scan).symbolic@).to_set() + union_over(
            trimmed_lines(contents@),
            line_labels(),
        ),
        views(final(scan).modules@).to_set() == views(old(scan).modules@).to_set() + union_over(
            trimmed_lines(contents@),
            line_modules(),
        ),
{
    let ls = crate::text::lines(contents);
    let ghost tl = trimmed_lines(contents@);
    let ghost s0 = scan.summary;
    let ghost d0 = views(scan.detected@).to_set();
    let ghost y0 = views(scan.symbolic@).to_set();
    let ghost m0 = views(scan.modules@).to_set();
    assert(tl.take(0) =~= Seq::<Seq<char>>::empty());
    assert(union_over(tl.take(0), line_patterns()) =~= Set::empty());
    assert(union_over(tl.take(0), line_labels()) =~= Set::empty());
    assert(union_over(tl.take(0), line_modules()) =~= Set::empty());
    assert(d0 + Set::<Seq<char>>::empty() =~= d0);
    assert(y0 + Set::<Seq<char>>::empty() =~= y0);
    assert(m0 + Set::<Seq<char>>::empty() =~= m0);
    let mut i: usize = 0;
    while i < ls.len()
        invariant
            i <= ls.len(),
            tl.len() == ls.len(),
            forall|k: int| 0 <= k < ls.len() ==> #[trigger] tl[k] == trim(ls@[k]@),
            scan.wf(),
            counters_room(s0, tl.len()),
            counted(s0, scan.summary, tl.take(i as int), in_test_file),
            same_frame(s0, scan.summary),
            views(scan.detected@).to_set() == d0 + union_over(tl.take(i as int), line_patterns()),
            views(scan.symbolic@).to_set() == y0 + union_over(tl.take(i as int), line_labels()),
            views(scan.modules@).to_set() == m0 + union_over(tl.take(i as int), line_modules()),
        decreases ls.len() - i,
    {
        let t = crate::text::trimmed(ls[i].as_str());
        let ghost s1 = scan.summary;
        let ghost d1 = views(scan.detected@).to_set();
        let ghost y1 = views(scan.symbolic@).to_set();
        let ghost m1 = views(scan.modules@).to_set();
        proof {
            lemma_room_left(s0, s1, tl, i as int, in_test_file);
        }
        scan_line(scan, in_test_file, t.as_str());
        proof {
            assert(t@ == tl[i as int]);
            lemma_counted_step(s0, s1, scan.summary, tl, i as int, in_test_file);
            lemma_lines_step(tl, i as int, function_line(), line_patterns());
            lemma_lines_step(tl, i as int, function_line(), line_labels());
            lemma_lines_step(tl, i as int, function_line(), line_modules());
            assert(d0 + union_over(tl.take(i as int), line_patterns()) + (line_patterns())(t@) =~= d0
                + union_over(tl.take(i + 1), line_patterns()));
            assert(y0 + union_over(tl.take(i as int), line_labels()) + (line_labels())(t@) =~= y0
                + union_over(tl.take(i + 1), line_labels()));
            assert(m0 + union_over(tl.take(i as int), line_modules()) + (line_modules())(t@) =~= m0
                + union_over(tl.take(i + 1), line_modules()));
        }
        i = i + 1;
    }
    assert(tl.take(i as int) =~= tl);
}

/// Records one corpus file, at `relative` under the root, whose extension is
/// `rs` when `rust_extension` holds: the file counts, and for a Rust source
/// the counters, patterns, labels and modules of its lines.
pub fn scan_file_contents(scan: &mut CorpusScan, relative: &str, rust_extension: bool, contents: &str)
    requires
        old(scan).wf(),
        counters_room(old(scan).summary, trimmed_lines(contents@).len()),
        old(scan).summary.file_count < usize::MAX,
        old(scan).summary.rust_file_count < usize::MAX,
        old(scan).summary.test_file_count < usize::MAX,
    ensures
        final(scan).wf(),
        final(scan).summary.file_count == old(scan).summary.file_count + 1,
        final(scan).summary.rust_file_count == old(scan).summary.rust_file_count + if rust_extension {
            1nat
        } else {
            0nat
        },
        final(scan).summary.test_file_count == old(scan).summary.test_file_count + if has_infix(
            relative@,
            "test"@,
        ) {
            1nat
        } else {
            0nat
        },
        counted(
            old(scan).summary,
            final(scan).summary,
            counted_lines(relative@, contents@),
            has_infix(relative@, "test"@),
        ),
        final(scan).summary.corpus_id == old(scan).summary.corpus_id,
        final(scan).summary.root_path == old(scan).summary.root_path,
        final(scan).summary.scanned_files == old(scan).summary.scanned_files,
        final(scan).summary.skipped_files == old(scan).summary.skipped_files,
        final(scan).summary.safety_notes == old(scan).summary.safety_notes,
        views(final(scan).detected@).to_set() == views(old(scan).detected@).to_set()
            + file_patterns(relative@, contents@),
        views(final(scan).symbolic@).to_set() == views(old(scan).symbolic@).to_set()
            + file_labels(relative@, contents@),
        views(final(scan).modules@).to_set() == views(old(scan).modules@).to_set()
            + file_modules(relative@, contents@),
{
    let ghost d0 = views(scan.detected@).to_set();
    let ghost y0 = views(scan.symbolic@).to_set();
    let ghost m0 = views(scan.modules@).to_set();
    let ghost s0 = scan.summary;
    scan.summary.file_count = scan.summary.file_count + 1;
    if rust_extension {
        scan.summary.rust_file_count = scan.summary.rust_file_count + 1;
    }
    let in_test = contains(relative, "test");
    if in_test {
        scan.summary.test_file_count = scan.summary.test_file_count + 1;
    }
    let ghost s1 = scan.summary;
    if ends_with(relative, ".rs") {
        scan_rust_lines(scan, in_test, contents);
        let json = contains(contents, "serde_json") || contains(contents, "json!");
        insert_name(&mut scan.detected, json, "json_contract_pattern");
        insert_name(&mut scan.symbolic, json, "json_contract_label");
    } else {
        let ghost e = Seq::<Seq<char>>::empty();
        proof {
            assert(count_lines(e, function_line()) == 0);
            assert(count_lines(e, assertion_line()) == 0);
            assert(count_lines(e, result_line()) == 0);
            assert(count_lines(e, error_enum_line()) == 0);
            assert(count_lines(e, validation_line()) == 0);
            assert(count_lines(e, cli_line()) == 0);
            assert(count_lines(e, report_line()) == 0);
        }
    }
    let toml = ends_with(relative, ".toml");
    insert_name(&mut scan.detected, toml, "toml_config_pattern");
    insert_name(&mut scan.symbolic, toml, "toml_config_label");
    assert(views(scan.detected@).to_set() =~= d0 + file_patterns(relative@, contents@));
    assert(views(scan.symbolic@).to_set() =~= y0 + file_labels(relative@, contents@));
    assert(views(scan.modules@).to_set() =~= m0 + file_modules(relative@, contents@));
}

/// Records one corpus file, asking `std::path` for its extension: a Rust
/// file is one whose extension is `rs`. For a plain path the extension is
/// `last_extension`; for any other path it depends on the platform.
pub fn scan_corpus_file(scan: &mut CorpusScan, relative: &str, contents: &str)
    requires
        old(scan).wf(),
        counters_room(old(scan).summary, trimmed_lines(contents@).len()),
        old(scan).summary.file_count < usize::MAX,
        old(scan).summary.rust_file_count < usize::MAX,
        old(scan).summary.test_file_count < usize::MAX,
    ensures
        final(scan).wf(),
        final(scan).summary.file_count == old(scan).summary.file_count + 1,
        final(scan).summary.test_file_count == old(scan).summary.test_file_count + if has_infix(
            relative@,
            "test"@,
        ) {
            1nat
        } else {
            0nat
        },
        final(scan).summary.rust_file_count == old(scan).summary.rust_file_count
            || final(scan).summary.rust_file_count == old(scan).summary.rust_file_count + 1,
        plain_path(relative@) ==> final(scan).summary.rust_file_count
            == old(scan).summary.rust_file_count + if last_extension(relative@) == Some("rs"@) {
            1nat
        } else {
            0nat
        },
        final(scan).summary.corpus_id == old(scan).summary.corpus_id,
        final(scan).summary.root_path == old(scan).summary.root_path,
        final(scan).summary.scanned_files == old(scan).summary.scanned_files,
        final(scan).summary.skipped_files == old(scan).summary.skipped_files,
        final(scan).summary.safety_notes == old(scan).summary.safety_notes,
        counted(
            old(scan).summary,
            final(scan).summary,
            counted_lines(relative@, contents@),
            has_infix(relative@, "test"@),
        ),
        views(final(scan).detected@).to_set() == views(old(scan).detected@).to_set()
            + file_patterns(relative@, contents@),
        views(final(scan).symbolic@).to_set() == views(old(scan).symbolic@).to_set()
            + file_labels(relative@, contents@),
        views(final(scan).modules@).to_set() == views(old(scan).modules@).to_set()
            + file_modules(relative@, contents@),
{
    let ext = crate::paths::path_extension(relative);
    let rust_extension = match &ext {
        Some(e) => crate::text::str_eq(e.as_str(), "rs"),
        None => false,
    };
    proof {
        reveal_strlit("rs");
        if plain_path(relative@) {
            assert(rust_extension == (last_extension(relative@) == Some("rs"@)));
        }
    }
    scan_file_contents(scan, relative, rust_extension, contents);
}

/// The notes that every ingestion records: it only reads, never changes the
/// corpus and keeps no full source text.
pub open spec fn corpus_safety_notes() -> Seq<Seq<char>> {
    seq![
        "read-only local ingestion only"@,
        "source corpus was not mutated"@,
        "no full source content stored"@,
    ]
}

/// A scan of the corpus `corpus_id` at `root_path` that will read `scanned`
/// files and passed over `skipped` entries: no counts and no names yet.
pub fn new_corpus_scan(corpus_id: &str, root_path: &str, scanned: usize, skipped: usize) -> (r:
    CorpusScan)
    ensures
        r.wf(),
        r.summary.corpus_id@ == corpus_id@,
        r.summary.root_path@ == root_path@,
        r.summary.scanned_files == scanned,
        r.summary.skipped_files == skipped,
        r.summary.file_count == 0,
        r.summary.rust_file_count == 0,
        r.summary.test_file_count == 0,
        counters_room(r.summary, 0) && r.summary.function_count == 0
            && r.summary.test_function_count == 0 && r.summary.result_returning_functions == 0
            && r.summary.error_enum_count == 0 && r.summary.validation_function_count == 0
            && r.summary.cli_parser_mentions == 0 && r.summary.reporting_mentions == 0,
        r.summary.module_names@.len() == 0,
        r.summary.suggested_strategies@.len() == 0,
        views(r.summary.safety_notes@) == corpus_safety_notes(),
        r.detected@.len() == 0,
        r.symbolic@.len() == 0,
        r.modules@.len() == 0,
{
    let mut notes: Vec<String> = Vec::new();
    notes.push(owned("read-only local ingestion only"));
    notes.push(owned("source corpus was not mutated"));
    notes.push(owned("no full source content stored"));
    assert(views(notes@) =~= corpus_safety_notes());
    let r = CorpusScan {
        summary: CorpusSummary {
            corpus_id: owned(corpus_id),
            root_path: owned(root_path),
            scanned_files: scanned,
            skipped_files: skipped,
            file_count: 0,
            rust_file_count: 0,
            test_file_count: 0,
            function_count: 0,
            test_function_count: 0,
            result_returning_functions: 0,
            error_enum_count: 0,
            validation_function_count: 0,
            cli_parser_mentions: 0,
            reporting_mentions: 0,
            module_names: Vec::new(),
            suggested_strategies: Vec::new(),
            safety_notes: notes,
        },
        detected: Vec::new(),
        symbolic: Vec::new(),
        modules: Vec::new(),
    };
    assert(views(r.detected@) =~= Seq::<Seq<char>>::empty());
    assert(views(r.symbolic@) =~= Seq::<Seq<char>>::empty());
    assert(views(r.modules@) =~= Seq::<Seq<char>>::empty());
    r
}

/// The strategies that the detected patterns suggest, in name order.
pub open spec fn strategies_for(detected: Set<Seq<char>>) -> Seq<Seq<char>> {
    flag(detected.contains("report_writer_pattern"@), "MetricsReporting"@) + flag(
        detected.contains("result_error_pattern"@),
        "RegressionAvoidance"@,
    ) + flag(detected.contains("test_assertion_pattern"@), "TestExpansion"@) + flag(
        detected.contains("validation_guard_pattern"@),
        "ValidationHardening"@,
    )
}

/// The strategies that the detected patterns suggest.
pub fn infer_strategies(detected: &Vec<String>) -> (r: Vec<String>)
    ensures
        views(r@) == strategies_for(views(detected@).to_set()),
{
    let mut r: Vec<String> = Vec::new();
    assert(views(r@) =~= Seq::<Seq<char>>::empty());
    push_if(&mut r, contains_string(detected, "report_writer_pattern"), "MetricsReporting");
    push_if(&mut r, contains_string(detected, "result_error_pattern"), "RegressionAvoidance");
    push_if(&mut r, contains_string(detected, "test_assertion_pattern"), "TestExpansion");
    push_if(&mut r, contains_string(detected, "validation_guard_pattern"), "ValidationHardening");
    assert(views(r@) =~= strategies_for(views(detected@).to_set()));
    r
}

/// Ends a scan: the summary with its module names and suggested strategies,
/// and the detected patterns and labels.
pub fn finish_corpus_scan(scan: CorpusScan) -> (r: (CorpusSummary, CorpusPatterns))
    ensures
        r.0.corpus_id == scan.summary.corpus_id,
        r.0.root_path == scan.summary.root_path,
        r.0.scanned_files == scan.summary.scanned_files,
        r.0.skipped_files == scan.summary.skipped_files,
        r.0.file_count == scan.summary.file_count,
        r.0.rust_file_count == scan.summary.rust_file_count,
        r.0.test_file_count == scan.summary.test_file_count,
        r.0.function_count == scan.summary.function_count,
        r.0.test_function_count == scan.summary.test_function_count,
        r.0.result_returning_functions == scan.summary.result_returning_functions,
        r.0.error_enum_count == scan.summary.error_enum_count,
        r.0.validation_function_count == scan.summary.validation_function_count,
        r.0.cli_parser_mentions == scan.summary.cli_parser_mentions,
        r.0.reporting_mentions == scan.summary.reporting_mentions,
        r.0.module_names@ == scan.modules@,
        views(r.0.suggested_strategies@) == strategies_for(views(scan.detected@).to_set()),
        r.0.safety_notes@ == scan.summary.safety_notes@,
        r.1.corpus_id == scan.summary.corpus_id,
        r.1.detected_patterns@ == scan.detected@,
        r.1.symbolic_labels@ == scan.symbolic@,
{
    let strategies = infer_strategies(&scan.detected);
    let CorpusScan { summary, detected, symbolic, modules } = scan;
    let id = summary.corpus_id.clone();
    let mut out = summary;
    out.module_names = modules;
    out.suggested_strategies = strategies;
    let patterns = CorpusPatterns { corpus_id: id, detected_patterns: detected, symbolic_labels: symbolic };
    (out, patterns)
}

/// The report of an ingestion.
pub open spec fn corpus_markdown(summary: CorpusSummary, patterns: CorpusPatterns) -> Seq<char> {
    "# Corpus EVA\n\ncorpus path: "@ + summary.root_path@ + "\nscanned files: "@ + decimal(summary.scanned_files as nat) + "\nskipped files: "@ + decimal(summary.skipped_files as nat) + "\ndetected patterns: "@ + join_or(views(patterns.detected_patterns@), ", "@, "(none)"@) + "\nsuggested strategies: "@ + join_or(views(summary.suggested_strategies@), ", "@, "(none)"@) + "\nsafety notes: "@ + join(views(summary.safety_notes@), "; "@) + "\nsource corpus was not mutated: yes\n"@
}

/// The report of an ingestion: root, file counts, patterns, strategies and notes.
pub fn render_corpus_markdown(summary: &CorpusSummary, patterns: &CorpusPatterns) -> (s: String)
    ensures
        s@ == corpus_markdown(*summary, *patterns),
{
    let mut s = String::new();
    push_str(&mut s, "# Corpus EVA\n\ncorpus path: ");
    push_str(&mut s, summary.root_path.as_str());
    push_str(&mut s, "\nscanned files: ");
    push_decimal(&mut s, summary.scanned_files as u64);
    push_str(&mut s, "\nskipped files: ");
    push_decimal(&mut s, summary.skipped_files as u64);
    push_str(&mut s, "\ndetected patterns: ");
    push_str(&mut s, join_or_strings(&patterns.detected_patterns, ", ", "(none)").as_str());
    push_str(&mut s, "\nsuggested strategies: ");
    push_str(&mut s, join_or_strings(&summary.suggested_strategies, ", ", "(none)").as_str());
    push_str(&mut s, "\nsafety notes: ");
    push_str(&mut s, join_strings(&summary.safety_notes, "; ").as_str());
    push_str(&mut s, "\nsource corpus was not mutated: yes\n");
    s
}

/// The graph node of a corpus.
pub open spec fn corpus_node_id(s: CorpusSummary) -> Seq<char> {
    "corpus:"@ + s.corpus_id@
}

/// The graph node of a detected pattern of a corpus.
pub open spec fn corpus_pattern_id(s: CorpusSummary, q: Seq<char>) -> Seq<char> {
    "corpus_pattern:"@ + s.corpus_id@ + ":"@ + q
}

/// The nodes an ingestion adds: the corpus, its modules, its patterns and its strategies.
pub open spec fn corpus_graph_nodes(s: CorpusSummary, p: CorpusPatterns) -> Seq<Seq<Seq<char>>> {
    seq![seq![corpus_node_id(s), "Corpus"@]] + views(s.module_names@).map_values(
        |m: Seq<char>| seq!["module:"@ + m, "Module"@],
    ) + views(p.detected_patterns@).map_values(
        |q: Seq<char>| seq![corpus_pattern_id(s, q), "CorpusPattern"@],
    ) + views(s.suggested_strategies@).map_values(|t: Seq<char>| seq!["strategy:"@ + t, "Strategy"@])
}

/// The edges an ingestion adds, each from the corpus node.
pub open spec fn corpus_graph_edges(s: CorpusSummary, p: CorpusPatterns) -> Seq<Seq<Seq<char>>> {
    views(s.module_names@).map_values(
        |m: Seq<char>| seq![corpus_node_id(s), "module:"@ + m, "corpus_mentions_module"@],
    ) + views(p.detected_patterns@).map_values(
        |q: Seq<char>| seq![corpus_node_id(s), corpus_pattern_id(s, q), "corpus_has_pattern"@],
    ) + views(s.suggested_strategies@).map_values(
        |t: Seq<char>| seq![corpus_node_id(s), "strategy:"@ + t, "corpus_suggests_strategy"@],
    )
}

fn joined(a: &str, b: &str) -> (r: String)
    ensures
        r@ == a@ + b@,
{
    let mut r = owned(a);
    push_str(&mut r, b);
    r
}

/// Files an ingestion in the graph: the corpus node, and a node and an edge
/// from the corpus for each module, detected pattern and suggested strategy.
pub fn update_graph_for_corpus(graph: &mut EvolutionGraph, summary: &CorpusSummary, patterns: &CorpusPatterns)
    ensures
        keys_sorted(node_keys(final(graph).nodes@)),
        keys_sorted(edge_keys(final(graph).edges@)),
        node_keys(final(graph).nodes@).to_set() == (node_keys(old(graph).nodes@)
            + corpus_graph_nodes(*summary, *patterns)).to_set(),
        edge_keys(final(graph).edges@).to_set() == (edge_keys(old(graph).edges@)
            + corpus_graph_edges(*summary, *patterns)).to_set(),
{
    let ghost n0 = node_keys(graph.nodes@);
    let ghost e0 = edge_keys(graph.edges@);
    let ghost mv = views(summary.module_names@);
    let ghost pv = views(patterns.detected_patterns@);
    let ghost tv = views(summary.suggested_strategies@);
    let ghost c = corpus_node_id(*summary);
    let corpus = joined("corpus:", summary.corpus_id.as_str());
    graph.upsert_node(corpus.as_str(), "Corpus");
    let ghost n1 = node_keys(graph.nodes@);
    let mut i: usize = 0;
    while i < summary.module_names.len()
        invariant
            i <= summary.module_names.len(),
            mv == views(summary.module_names@),
            corpus@ == c,
            node_keys(graph.nodes@) == n1 + mv.take(i as int).map_values(
                |m: Seq<char>| seq!["module:"@ + m, "Module"@],
            ),
            edge_keys(graph.edges@) == e0 + mv.take(i as int).map_values(
                |m: Seq<char>| seq![c, "module:"@ + m, "corpus_mentions_module"@],
            ),
        decreases summary.module_names.len() - i,
    {
        let node = joined("module:", summary.module_names[i].as_str());
        graph.upsert_node(node.as_str(), "Module");
        graph.upsert_edge(corpus.as_str(), node.as_str(), "corpus_mentions_module");
        proof {
            let f = |m: Seq<char>| seq!["module:"@ + m, "Module"@];
            let g = |m: Seq<char>| seq![c, "module:"@ + m, "corpus_mentions_module"@];
            assert(mv.take(i + 1) =~= mv.take(i as int).push(mv[i as int]));
            assert(mv.take(i + 1).map_values(f) =~= mv.take(i as int).map_values(f).push(f(mv[i as int])));
            assert(mv.take(i + 1).map_values(g) =~= mv.take(i as int).map_values(g).push(g(mv[i as int])));
        }
        i = i + 1;
    }
    assert(mv.take(i as int) =~= mv);
    let ghost n2 = node_keys(graph.nodes@);
    let ghost e2 = edge_keys(graph.edges@);
    let mut j: usize = 0;
    while j < patterns.detected_patterns.len()
        invariant
            j <= patterns.detected_patterns.len(),
            pv == views(patterns.detected_patterns@),
            corpus@ == c,
            c == corpus_node_id(*summary),
            node_keys(graph.nodes@) == n2 + pv.take(j as int).map_values(
                |q: Seq<char>| seq![corpus_pattern_id(*summary, q), "CorpusPattern"@],
            ),
            edge_keys(graph.edges@) == e2 + pv.take(j as int).map_values(
                |q: Seq<char>| seq![c, corpus_pattern_id(*summary, q), "corpus_has_pattern"@],
            ),
        decreases patterns.detected_patterns.len() - j,
    {
        let mut node = joined("corpus_pattern:", summary.corpus_id.as_str());
        push_str(&mut node, ":");
        push_str(&mut node, patterns.detected_patterns[j].as_str());
        graph.upsert_node(node.as_str(), "CorpusPattern");
        graph.upsert_edge(corpus.as_str(), node.as_str(), "corpus_has_pattern");
        proof {
            let f = |q: Seq<char>| seq![corpus_pattern_id(*summary, q), "CorpusPattern"@];
            let g = |q: Seq<char>| seq![c, corpus_pattern_id(*summary, q), "corpus_has_pattern"@];
            assert(node@ == corpus_pattern_id(*summary, pv[j as int]));
            assert(pv.take(j + 1) =~= pv.take(j as int).push(pv[j as int]));
            assert(pv.take(j + 1).map_values(f) =~= pv.take(j as int).map_values(f).push(f(pv[j as int])));
            assert(pv.take(j + 1).map_values(g) =~= pv.take(j as int).map_values(g).push(g(pv[j as int])));
        }
        j = j + 1;
    }
    assert(pv.take(j as int) =~= pv);
    let ghost n3 = node_keys(graph.nodes@);
    let ghost e3 = edge_keys(graph.edges@);
    let mut k: usize = 0;
    while k < summary.suggested_strategies.len()
        invariant
            k <= summary.suggested_strategies.len(),
            tv == views(summary.suggested_strategies@),
            corpus@ == c,
            node_keys(graph.nodes@) == n3 + tv.take(k as int).map_values(
                |t: Seq<char>| seq!["strategy:"@ + t, "Strategy"@],
            ),
            edge_keys(graph.edges@) == e3 + tv.take(k as int).map_values(
                |t: Seq<char>| seq![c, "strategy:"@ + t, "corpus_suggests_strategy"@],
            ),
        decreases summary.suggested_strategies.len() - k,
    {
        let node = joined("strategy:", summary.suggested_strategies[k].as_str());
        graph.upsert_node(node.as_str(), "Strategy");
        graph.upsert_edge(corpus.as_str(), node.as_str(), "corpus_suggests_strategy");
        proof {
            let f = |t: Seq<char>| seq!["strategy:"@ + t, "Strategy"@];
            let g = |t: Seq<char>| seq![c, "strategy:"@ + t, "corpus_suggests_strategy"@];
            assert(tv.take(k + 1) =~= tv.take(k as int).push(tv[k as int]));
            assert(tv.take(k + 1).map_values(f) =~= tv.take(k as int).map_values(f).push(f(tv[k as int])));
            assert(tv.take(k + 1).map_values(g) =~= tv.take(k as int).map_values(g).push(g(tv[k as int])));
        }
        k = k + 1;
    }
    assert(tv.take(k as int) =~= tv);
    assert(node_keys(graph.nodes@) =~= n0 + corpus_graph_nodes(*summary, *patterns));
    assert(edge_keys(graph.edges@) =~= e0 + corpus_graph_edges(*summary, *patterns));
    graph.compact();
}

/// The id of the corpus at `root`: `corpus_` and the first 8 hexadecimal
/// digits of the root's digest.
pub open spec fn corpus_id_for(root: Seq<char>) -> Seq<char> {
    "corpus_"@ + sha256_hex(root).take(8)
}

/// The default ingestion contract for the corpus at `root_path`, made at
/// `created_at`: Rust, TOML, Markdown and JSON files of the usual project
/// directories, the tool's own and build directories denied, at most 500
/// files of at most 262144 bytes, every extraction on.
pub fn default_corpus_contract(root_path: &str, created_at: u64) -> (r: CorpusIngestContract)
    ensures
        r.corpus_id@ == corpus_id_for(root_path@),
        r.root_path@ == root_path@,
        views(r.allowed_extensions@) == seq!["rs"@, "toml"@, "md"@, "json"@],
        views(r.allowed_dirs@) == seq!["src"@, "tests"@, "benches"@, "examples"@, "."@],
        views(r.denied_dirs@) == crate::evolution::corpus_validator::required_denied_dirs(),
        r.max_files == 500,
        r.max_file_bytes == 262144,
        r.extract_tests && r.extract_error_handling && r.extract_validation && r.extract_cli
            && r.extract_reporting,
        r.created_at == created_at,
{
    let digest = sha256_digest(root_path);
    let digits = crate::text::chars_of(digest.as_str());
    let mut id = owned("corpus_");
    push_str(&mut id, crate::text::string_of_range(&digits, 0, 8).as_str());
    let allowed_extensions = vec![owned("rs"), owned("toml"), owned("md"), owned("json")];
    let allowed_dirs = vec![owned("src"), owned("tests"), owned("benches"), owned("examples"), owned(".")];
    let denied_dirs = vec![
        owned(".git"),
        owned("target"),
        owned("node_modules"),
        owned("memory"),
        owned("sandboxes"),
        owned("eva_output"),
    ];
    assert(views(allowed_extensions@) =~= seq!["rs"@, "toml"@, "md"@, "json"@]);
    assert(views(allowed_dirs@) =~= seq!["src"@, "tests"@, "benches"@, "examples"@, "."@]);
    assert(views(denied_dirs@) =~= crate::evolution::corpus_validator::required_denied_dirs());
    CorpusIngestContract {
        corpus_id: id,
        root_path: owned(root_path),
        allowed_extensions,
        allowed_dirs,
        denied_dirs,
        max_files: 500,
        max_file_bytes: 262144,
        extract_tests: true,
        extract_error_handling: true,
        extract_validation: true,
        extract_cli: true,
        extract_reporting: true,
        created_at,
    }
}

} // verus!
