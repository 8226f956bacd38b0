//! How deep `syn` may have to descend to parse a Rust source, bounded from
//! the source's tokens alone.
//!
//! `syn` parses by recursion on the stack, with no depth limit of its own. It
//! descends a level for each nested bracket and for each token that opens a
//! nested construct inside a statement: prefix operators (`&`, `*`, `!`,
//! `-`), `=` and compound assignments (not `==`), `..`, `|` of closures, `<` of generic
//! arguments, `::` of paths, `@` of bindings, and keywords such as `return`,
//! `break`, `let`, `if`, `fn`, `impl`, `dyn`, `mut`. The load of a
//! position counts these tokens from the start of the statement, element or
//! arm it stands in, through every enclosing bracket: a `;`, an arm's `=>`, a
//! `,` outside generic arguments and closure parameters, and a `}` that ends a
//! statement bring it back to the load at which the enclosing bracket opened.
//! Comments and the contents of string, character and raw string literals
//! are skipped as `proc_macro2` skips them.
//!
//! The bounds leave room to spare: with them `syn` stays well inside the
//! 2 MiB stack that a Rust thread gets by default, even in an unoptimised
//! build, so some sources that `syn` could still parse on that stack (a
//! deep bracket nesting, or a long run of `&` in a type) are refused.
//! On a thread with a smaller stack the bounds are not known to suffice.
use vstd::prelude::*;

use crate::text::chars_of;

verus! {

/// The deepest bracket nesting that `extract_rust_ast` hands to `syn`.
pub const MAX_SOURCE_NESTING: u64 = 64;

/// The greatest load that `extract_rust_ast` hands to `syn`.
pub const MAX_SOURCE_LOAD: u64 = 192;

/// The weight of a token after which `syn` parses a nested expression, pattern or path.
pub const LIGHT_STEP: u64 = 1;

/// The weight of a bracket.
pub const BRACKET_STEP: u64 = 4;

/// The weight of a token after which `syn` may parse a nested type (`<`,
/// `&`, `*`, `fn`, `dyn`, `impl`), whose frames are larger.
pub const HEAVY_STEP: u64 = 5;

/// Where the scan stands: in code, after a `/`, in a comment, in a string or
/// raw string (with its number of `#`), or after a `'`.
#[derive(Clone, Copy, Debug)]
pub enum LexMode {
    Code,
    Slash,
    LineComment,
    /// The depth of nesting, and whether the last character was `*` or `/`.
    BlockComment(u64, bool, bool),
    Text,
    TextEscape,
    RawOpen(u64),
    RawText(u64),
    /// The number of `#` of the string, and how many followed its closing `"` so far.
    RawClose(u64, u64),
    Quote,
    QuoteEscape,
    QuoteBody,
    QuoteOne(char),
}

/// The state of the scan.
pub struct LexView {
    pub mode: LexMode,
    /// The identifier or keyword being read, and whether it is glued to the
    /// token before it (a literal's suffix, or next to a non-ASCII character).
    pub word: Seq<char>,
    pub word_glued: bool,
    pub glue_next: bool,
    pub load: u64,
    /// The `<` not yet closed and whether a closure's parameter list is open, at this level.
    pub angle: u64,
    pub pipes_odd: bool,
    /// Inside the brackets of a macro invocation, which `syn` keeps as tokens
    /// without parsing; the next bracket opens such a body.
    pub in_macro: bool,
    pub macro_next: bool,
    /// For each enclosing bracket: the load, angle, pipes and macro flag
    /// before it opened, and the load just after.
    pub stack: Seq<(u64, u64, bool, bool, u64)>,
    pub pending_close: bool,
    pub pending_eq: bool,
    pub prev_dot: bool,
    pub prev_colon: bool,
    pub prev_dash: bool,
    /// No bound was passed so far.
    pub ok: bool,
}

/// The state before the first character.
pub open spec fn lex_start() -> LexView {
    LexView {
        mode: LexMode::Code,
        word: Seq::empty(),
        word_glued: false,
        glue_next: false,
        load: 0,
        angle: 0,
        pipes_odd: false,
        in_macro: false,
        macro_next: false,
        stack: Seq::empty(),
        pending_close: false,
        pending_eq: false,
        prev_dot: false,
        prev_colon: false,
        prev_dash: false,
        ok: true,
    }
}

/// `n + 1`, saturating.
pub open spec fn inc(n: u64) -> u64 {
    if n < u64::MAX {
        (n + 1) as u64
    } else {
        n
    }
}

/// A character of an ASCII identifier, keyword or number.
pub open spec fn word_char(c: char) -> bool {
    ('a' <= c <= 'z') || ('A' <= c <= 'Z') || ('0' <= c <= '9') || c == '_'
}

/// ASCII whitespace, as `proc_macro2` skips it.
pub open spec fn ascii_blank(c: char) -> bool {
    c == ' ' || ('\t' <= c <= '\r')
}

/// A keyword after which `syn` may descend into a nested construct.
pub open spec fn deepening_keyword(w: Seq<char>) -> bool {
    ||| w == "return"@ || w == "break"@ || w == "yield"@ || w == "become"@ || w == "box"@
    ||| w == "move"@ || w == "async"@ || w == "static"@ || w == "let"@ || w == "if"@
    ||| w == "while"@ || w == "for"@ || w == "loop"@ || w == "match"@
    ||| w == "unsafe"@ || w == "const"@ || w == "mut"@ || w == "ref"@ || w == "dyn"@
    ||| w == "impl"@ || w == "fn"@ || w == "in"@ || w == "try"@ || w == "raw"@
}

/// `n + w`, saturating.
pub open spec fn add_sat(n: u64, w: u64) -> u64 {
    if n <= u64::MAX - w {
        (n + w) as u64
    } else {
        u64::MAX
    }
}

/// The weight of a deepening keyword.
pub open spec fn keyword_weight(w: Seq<char>) -> u64 {
    if w == "fn"@ || w == "dyn"@ || w == "impl"@ {
        HEAVY_STEP
    } else {
        LIGHT_STEP
    }
}

/// One more deepening token of weight `w`; none counts inside a macro body.
pub open spec fn bump(st: LexView, w: u64) -> LexView {
    if st.in_macro {
        st
    } else {
        LexView { load: add_sat(st.load, w), ok: st.ok && add_sat(st.load, w) <= MAX_SOURCE_LOAD, ..st }
    }
}

/// The load at which the current bracket's contents start.
pub open spec fn level_base(st: LexView) -> u64 {
    if st.stack.len() == 0 {
        0
    } else {
        st.stack.last().4
    }
}

/// Back to the start of a statement, element or arm at the current level.
pub open spec fn reset_level(st: LexView) -> LexView {
    LexView { load: level_base(st), angle: 0, pipes_odd: false, ..st }
}

/// Neither generic arguments nor closure parameters are open at this level.
pub open spec fn at_rest(st: LexView) -> bool {
    st.angle == 0 && !st.pipes_odd
}

/// A bracket opens; it opens a macro body right after `name!`.
pub open spec fn open_group(st: LexView) -> LexView {
    let inner = bump(
        LexView {
            in_macro: st.in_macro || st.macro_next,
            macro_next: false,
            angle: 0,
            pipes_odd: false,
            ..st
        },
        BRACKET_STEP,
    );
    LexView {
        stack: st.stack.push((st.load, st.angle, st.pipes_odd, st.in_macro, inner.load)),
        ok: inner.ok && st.stack.len() + 1 <= MAX_SOURCE_NESTING,
        ..inner
    }
}

/// A bracket closes: the level it opened at comes back.
pub open spec fn close_group(st: LexView) -> LexView {
    if st.stack.len() == 0 {
        LexView { load: 0, angle: 0, pipes_odd: false, ..st }
    } else {
        LexView {
            load: st.stack.last().0,
            angle: st.stack.last().1,
            pipes_odd: st.stack.last().2,
            in_macro: st.stack.last().3,
            stack: st.stack.drop_last(),
            ..st
        }
    }
}

/// The word being read is the prefix of a raw string.
pub open spec fn raw_prefix(st: LexView) -> bool {
    !st.word_glued && (st.word == "r"@ || st.word == "br"@ || st.word == "cr"@)
}

/// A pending `=` that turned out not to start `=>` counts.
pub open spec fn settle_eq(st: LexView) -> LexView {
    if st.pending_eq {
        bump(LexView { pending_eq: false, ..st }, LIGHT_STEP)
    } else {
        st
    }
}

/// The word being read ends: after a `}` a word other than `as` or `else`
/// starts a new statement; a deepening keyword counts.
pub open spec fn finish_word(st: LexView) -> LexView {
    if st.word.len() == 0 {
        st
    } else {
        let w = st.word;
        let s1 = if st.pending_close && w != "as"@ && w != "else"@ {
            reset_level(st)
        } else {
            st
        };
        let s2 = LexView {
            word: Seq::empty(),
            word_glued: false,
            pending_close: false,
            ..s1
        };
        if deepening_keyword(w) {
            bump(s2, keyword_weight(w))
        } else {
            s2
        }
    }
}

#[verifier::opaque]
/// The state after a punctuation character, blank or other non-word
/// character in code, once the word before it has ended.
pub open spec fn code_punct(st: LexView, c: char) -> LexView {
    let plain = LexView {
        pending_close: false,
        prev_dot: false,
        prev_colon: false,
        prev_dash: false,
        glue_next: false,
        macro_next: false,
        ..st
    };
    if ascii_blank(c) {
        LexView { prev_dot: false, prev_colon: false, prev_dash: false, glue_next: false, ..st }
    } else if (c as u32) > 127 {
        LexView { glue_next: true, ..plain }
    } else if c == '/' {
        LexView { mode: LexMode::Slash, ..st }
    } else if c == '"' {
        LexView { mode: LexMode::Text, ..plain }
    } else if c == '\'' {
        LexView { mode: LexMode::Quote, ..plain }
    } else if c == '(' || c == '[' || c == '{' {
        open_group(LexView { macro_next: st.macro_next, ..plain })
    } else if c == ')' || c == ']' {
        close_group(plain)
    } else if c == '}' {
        LexView { pending_close: true, ..close_group(plain) }
    } else if c == ';' {
        reset_level(plain)
    } else if c == ',' {
        if at_rest(st) {
            reset_level(plain)
        } else {
            plain
        }
    } else if c == '#' {
        if st.pending_close {
            reset_level(plain)
        } else {
            plain
        }
    } else {
        code_operator(st, c)
    }
}

#[verifier::opaque]
/// The state after an operator character in code, once the word before it has ended.
pub open spec fn code_operator(st: LexView, c: char) -> LexView {
    let plain = LexView {
        pending_close: false,
        prev_dot: false,
        prev_colon: false,
        prev_dash: false,
        glue_next: false,
        macro_next: false,
        ..st
    };
    if c == '=' {
        LexView { pending_eq: true, ..plain }
    } else if c == '.' {
        let b = if st.prev_dot {
            bump(plain, LIGHT_STEP)
        } else {
            plain
        };
        LexView { prev_dot: true, ..b }
    } else if c == ':' {
        let b = if st.prev_colon {
            bump(plain, LIGHT_STEP)
        } else {
            plain
        };
        LexView { prev_colon: true, ..b }
    } else if c == '<' {
        let b = bump(plain, HEAVY_STEP);
        LexView { angle: inc(st.angle), ..b }
    } else if c == '>' {
        if st.prev_dash {
            plain
        } else {
            LexView {
                angle: if st.angle > 0 {
                    (st.angle - 1) as u64
                } else {
                    0
                },
                ..plain
            }
        }
    } else if c == '|' {
        let b = bump(plain, LIGHT_STEP);
        LexView { pipes_odd: !st.pipes_odd, ..b }
    } else if c == '-' {
        let b = bump(plain, LIGHT_STEP);
        LexView { prev_dash: true, ..b }
    } else if c == '&' || c == '*' {
        bump(plain, HEAVY_STEP)
    } else if c == '!' || c == '@' || c == '~' {
        bump(plain, LIGHT_STEP)
    } else {
        plain
    }
}

#[verifier::opaque]
/// The state after a character in code.
pub open spec fn code_char(st: LexView, c: char) -> LexView {
    if word_char(c) {
        let s = settle_eq(st);
        LexView {
            word: s.word.push(c),
            word_glued: if s.word.len() == 0 {
                s.glue_next
            } else {
                s.word_glued
            },
            glue_next: false,
            prev_dot: false,
            prev_colon: false,
            prev_dash: false,
            ..s
        }
    } else if c == '"' && raw_prefix(st) {
        LexView { mode: LexMode::RawText(0), word: Seq::empty(), word_glued: false, pending_close: false, ..st }
    } else if c == '#' && raw_prefix(st) {
        LexView { mode: LexMode::RawOpen(1), word: Seq::empty(), word_glued: false, pending_close: false, ..st }
    } else if c == '>' && st.pending_eq {
        reset_level(LexView { pending_eq: false, pending_close: false, prev_dash: false, ..st })
    } else if c == '=' && st.pending_eq {
        LexView { pending_eq: false, pending_close: false, prev_dash: false, ..st }
    } else {
        let r = code_punct(finish_word(settle_eq(st)), c);
        if c == '!' && st.word.len() > 0 && !deepening_keyword(st.word) {
            LexView { macro_next: true, ..r }
        } else {
            r
        }
    }
}

#[verifier::opaque]
/// The state after one more character.
pub open spec fn lex_step(st: LexView, c: char) -> LexView {
    match st.mode {
        LexMode::Code => code_char(st, c),
        LexMode::Slash => if c == '/' {
            LexView { mode: LexMode::LineComment, ..st }
        } else if c == '*' {
            LexView { mode: LexMode::BlockComment(1, false, false), ..st }
        } else {
            code_char(
                LexView {
                    mode: LexMode::Code,
                    pending_close: false,
                    prev_dot: false,
                    prev_colon: false,
                    prev_dash: false,
                    glue_next: false,
                    macro_next: false,
                    ..st
                },
                c,
            )
        },
        LexMode::LineComment => if c == '\n' {
            LexView { mode: LexMode::Code, ..st }
        } else {
            st
        },
        LexMode::BlockComment(d, star, slash) => if slash && c == '*' {
            LexView { mode: LexMode::BlockComment(inc(d), false, false), ..st }
        } else if star && c == '/' {
            if d <= 1 {
                LexView { mode: LexMode::Code, ..st }
            } else {
                LexView { mode: LexMode::BlockComment((d - 1) as u64, false, false), ..st }
            }
        } else {
            LexView { mode: LexMode::BlockComment(d, c == '*', c == '/'), ..st }
        },
        LexMode::Text => if c == '\\' {
            LexView { mode: LexMode::TextEscape, ..st }
        } else if c == '"' {
            LexView { mode: LexMode::Code, glue_next: true, ..st }
        } else {
            st
        },
        LexMode::TextEscape => LexView { mode: LexMode::Text, ..st },
        LexMode::RawOpen(n) => if c == '#' {
            LexView { mode: LexMode::RawOpen(inc(n)), ..st }
        } else if c == '"' {
            LexView { mode: LexMode::RawText(n), ..st }
        } else {
            code_char(LexView { mode: LexMode::Code, ..st }, c)
        },
        LexMode::RawText(n) => if c == '"' {
            if n == 0 {
                LexView { mode: LexMode::Code, glue_next: true, ..st }
            } else {
                LexView { mode: LexMode::RawClose(n, 0), ..st }
            }
        } else {
            st
        },
        LexMode::RawClose(n, k) => if c == '#' {
            if inc(k) >= n {
                LexView { mode: LexMode::Code, glue_next: true, ..st }
            } else {
                LexView { mode: LexMode::RawClose(n, inc(k)), ..st }
            }
        } else if c == '"' {
            LexView { mode: LexMode::RawClose(n, 0), ..st }
        } else {
            LexView { mode: LexMode::RawText(n), ..st }
        },
        LexMode::Quote => if c == '\\' {
            LexView { mode: LexMode::QuoteEscape, ..st }
        } else {
            LexView { mode: LexMode::QuoteOne(c), ..st }
        },
        LexMode::QuoteEscape => LexView { mode: LexMode::QuoteBody, ..st },
        LexMode::QuoteBody => if c == '\'' {
            LexView { mode: LexMode::Code, glue_next: true, ..st }
        } else {
            st
        },
        LexMode::QuoteOne(a) => if c == '\'' {
            LexView { mode: LexMode::Code, glue_next: true, ..st }
        } else {
            code_char(
                LexView {
                    mode: LexMode::Code,
                    word: if word_char(a) {
                        seq![a]
                    } else {
                        Seq::empty()
                    },
                    word_glued: false,
                    ..st
                },
                c,
            )
        },
    }
}

/// The state after the characters of `s`.
pub open spec fn lex_all(s: Seq<char>) -> LexView
    decreases s.len(),
{
    if s.len() == 0 {
        lex_start()
    } else {
        lex_step(lex_all(s.drop_last()), s.last())
    }
}

/// `s` without a leading byte order mark, as `syn::parse_file` strips it.
pub open spec fn without_bom(s: Seq<char>) -> Seq<char> {
    if s.len() > 0 && s[0] == '\u{feff}' {
        s.drop_first()
    } else {
        s
    }
}

/// `s` from its first line break on (empty when it has none).
pub open spec fn after_first_line(s: Seq<char>) -> Seq<char>
    decreases s.len(),
{
    if s.len() == 0 || s[0] == '\n' {
        s
    } else {
        after_first_line(s.drop_first())
    }
}

/// `s` starts with `#!`, which `syn::parse_file` may take for a shebang line.
pub open spec fn shebang_start(s: Seq<char>) -> bool {
    s.len() >= 2 && s[0] == '#' && s[1] == '!'
}

/// A source whose nesting and load stay within the bounds that
/// `extract_rust_ast` hands to `syn`, whether or not `syn` takes a first line
/// that starts with `#!` for a shebang.
pub open spec fn shallow_source(s: Seq<char>) -> bool {
    let t = without_bom(s);
    &&& lex_all(t).ok
    &&& shebang_start(t) ==> lex_all(after_first_line(t)).ok
}

/// The scan as it runs.
struct Lexer {
    mode: LexMode,
    word: Vec<char>,
    word_glued: bool,
    glue_next: bool,
    load: u64,
    angle: u64,
    pipes_odd: bool,
    in_macro: bool,
    macro_next: bool,
    stack: Vec<(u64, u64, bool, bool, u64)>,
    pending_close: bool,
    pending_eq: bool,
    prev_dot: bool,
    prev_colon: bool,
    prev_dash: bool,
    ok: bool,
}

impl View for Lexer {
    type V = LexView;

    closed spec fn view(&self) -> LexView {
        LexView {
            mode: self.mode,
            word: self.word@,
            word_glued: self.word_glued,
            glue_next: self.glue_next,
            load: self.load,
            angle: self.angle,
            pipes_odd: self.pipes_odd,
            in_macro: self.in_macro,
            macro_next: self.macro_next,
            stack: self.stack@,
            pending_close: self.pending_close,
            pending_eq: self.pending_eq,
            prev_dot: self.prev_dot,
            prev_colon: self.prev_colon,
            prev_dash: self.prev_dash,
            ok: self.ok,
        }
    }
}

fn add_u64(n: u64, w: u64) -> (r: u64)
    ensures
        r == add_sat(n, w),
{
    if n <= u64::MAX - w {
        n + w
    } else {
        u64::MAX
    }
}

fn inc_u64(n: u64) -> (r: u64)
    ensures
        r == inc(n),
{
    if n < u64::MAX {
        n + 1
    } else {
        n
    }
}

fn is_word_char(c: char) -> (r: bool)
    ensures
        r == word_char(c),
{
    ('a' <= c && c <= 'z') || ('A' <= c && c <= 'Z') || ('0' <= c && c <= '9') || c == '_'
}

fn is_ascii_blank(c: char) -> (r: bool)
    ensures
        r == ascii_blank(c),
{
    c == ' ' || ('\t' <= c && c <= '\r')
}

impl Lexer {
    fn new() -> (l: Lexer)
        ensures
            l@ == lex_start(),
    {
        let l = Lexer {
            mode: LexMode::Code,
            word: Vec::new(),
            word_glued: false,
            glue_next: false,
            load: 0,
            angle: 0,
            pipes_odd: false,
            in_macro: false,
            macro_next: false,
            stack: Vec::new(),
            pending_close: false,
            pending_eq: false,
            prev_dot: false,
            prev_colon: false,
            prev_dash: false,
            ok: true,
        };
        assert(l@.word =~= Seq::<char>::empty());
        assert(l@.stack =~= Seq::<(u64, u64, bool, bool, u64)>::empty());
        l
    }

    fn word_is(&self, k: &str) -> (r: bool)
        ensures
            r == (self.word@ == k@),
    {
        let ks = chars_of(k);
        if ks.len() != self.word.len() {
            return false;
        }
        let mut i: usize = 0;
        while i < ks.len()
            invariant
                ks@ == k@,
                ks.len() == self.word.len(),
                i <= ks.len(),
                forall|j: int| 0 <= j < i ==> ks@[j] == self.word@[j],
            decreases ks.len() - i,
        {
            if ks[i] != self.word[i] {
                return false;
            }
            i = i + 1;
        }
        assert(self.word@ =~= k@);
        true
    }

    fn word_is_deepening_keyword(&self) -> (r: bool)
        ensures
            r == deepening_keyword(self.word@),
    {
        if self.word.len() > 6 || self.word.len() < 2 {
            proof {
                reveal_strlit("return");
                reveal_strlit("break");
                reveal_strlit("yield");
                reveal_strlit("become");
                reveal_strlit("box");
                reveal_strlit("move");
                reveal_strlit("async");
                reveal_strlit("static");
                reveal_strlit("let");
                reveal_strlit("if");
                reveal_strlit("while");
                reveal_strlit("for");
                reveal_strlit("loop");
                reveal_strlit("match");
                reveal_strlit("unsafe");
                reveal_strlit("const");
                reveal_strlit("mut");
                reveal_strlit("ref");
                reveal_strlit("dyn");
                reveal_strlit("impl");
                reveal_strlit("fn");
                reveal_strlit("in");
                reveal_strlit("try");
                reveal_strlit("raw");
            }
            return false;
        }
        self.word_is("return") || self.word_is("break") || self.word_is("yield") || self.word_is(
            "become",
        ) || self.word_is("box") || self.word_is("move") || self.word_is("async") || self.word_is(
            "static",
        ) || self.word_is("let") || self.word_is("if") || self.word_is("while") || self.word_is("for") || self.word_is("loop") || self.word_is("match") || self.word_is(
            "unsafe",
        ) || self.word_is("const") || self.word_is("mut") || self.word_is("ref") || self.word_is(
            "dyn",
        ) || self.word_is("impl") || self.word_is("fn") || self.word_is("in") || self.word_is("try")
            || self.word_is("raw")
    }

    fn is_raw_prefix(&self) -> (r: bool)
        ensures
            r == raw_prefix(self@),
    {
        !self.word_glued && (self.word_is("r") || self.word_is("br") || self.word_is("cr"))
    }

    fn bump(&mut self, w: u64)
        ensures
            final(self)@ == bump(old(self)@, w),
    {
        if self.in_macro {
            return;
        }
        let n = add_u64(self.load, w);
        self.load = n;
        self.ok = self.ok && n <= MAX_SOURCE_LOAD;
    }

    fn keyword_weight(&self) -> (r: u64)
        ensures
            r == keyword_weight(self@.word),
    {
        if self.word_is("fn") || self.word_is("dyn") || self.word_is("impl") {
            HEAVY_STEP
        } else {
            LIGHT_STEP
        }
    }

    fn level_base(&self) -> (r: u64)
        ensures
            r == level_base(self@),
    {
        if self.stack.len() == 0 {
            0
        } else {
            self.stack[self.stack.len() - 1].4
        }
    }

    fn reset_level(&mut self)
        ensures
            final(self)@ == reset_level(old(self)@),
    {
        self.load = self.level_base();
        self.angle = 0;
        self.pipes_odd = false;
    }

    fn open_group(&mut self)
        ensures
            final(self)@ == open_group(old(self)@),
    {
        let saved = (self.load, self.angle, self.pipes_odd, self.in_macro);
        let depth = self.stack.len();
        self.in_macro = self.in_macro || self.macro_next;
        self.macro_next = false;
        self.angle = 0;
        self.pipes_odd = false;
        self.bump(BRACKET_STEP);
        self.stack.push((saved.0, saved.1, saved.2, saved.3, self.load));
        self.ok = self.ok && (depth as u64) < MAX_SOURCE_NESTING;
    }

    fn close_group(&mut self)
        ensures
            final(self)@ == close_group(old(self)@),
    {
        match self.stack.pop() {
            None => {
                self.load = 0;
                self.angle = 0;
                self.pipes_odd = false;
            },
            Some(t) => {
                self.load = t.0;
                self.angle = t.1;
                self.pipes_odd = t.2;
                self.in_macro = t.3;
            },
        }
    }

    fn settle_eq(&mut self)
        ensures
            final(self)@ == settle_eq(old(self)@),
    {
        if self.pending_eq {
            self.pending_eq = false;
            self.bump(LIGHT_STEP);
        }
    }

    fn finish_word(&mut self)
        ensures
            final(self)@ == finish_word(old(self)@),
    {
        if self.word.len() == 0 {
            return;
        }
        let keyword = self.word_is_deepening_keyword();
        let weight = self.keyword_weight();
        if self.pending_close && !self.word_is("as")
            && !self.word_is("else") {
            self.reset_level();
        }
        self.word = Vec::new();
        self.word_glued = false;
        self.pending_close = false;
        if keyword {
            self.bump(weight);
        }
        assert(self@.word =~= Seq::<char>::empty());
    }

    fn plain(&mut self)
        ensures
            final(self)@ == (LexView {
                pending_close: false,
                prev_dot: false,
                prev_colon: false,
                prev_dash: false,
                glue_next: false,
                macro_next: false,
                ..old(self)@
            }),
    {
        self.macro_next = false;
        self.pending_close = false;
        self.prev_dot = false;
        self.prev_colon = false;
        self.prev_dash = false;
        self.glue_next = false;
    }

    #[verifier::rlimit(80)]
    #[verifier::spinoff_prover]
    fn code_punct(&mut self, c: char)
        ensures
            final(self)@ == code_punct(old(self)@, c),
    {
        reveal(code_punct);
        if is_ascii_blank(c) {
            self.prev_dot = false;
            self.prev_colon = false;
            self.prev_dash = false;
            self.glue_next = false;
            return;
        }
        if (c as u32) > 127 {
            self.plain();
            self.glue_next = true;
            return;
        }
        if c == '/' {
            self.mode = LexMode::Slash;
            return;
        }
        if !(c == '"' || c == '\'' || c == '(' || c == '[' || c == '{' || c == ')' || c == ']' || c
            == '}' || c == ';' || c == ',' || c == '#') {
            self.code_operator(c);
            return;
        }
        let pending_close = self.pending_close;
        let prev_dot = self.prev_dot;
        let prev_colon = self.prev_colon;
        let prev_dash = self.prev_dash;
        let angle = self.angle;
        let pipes_odd = self.pipes_odd;
        let macro_next = self.macro_next;
        self.plain();
        if c == '"' {
            self.mode = LexMode::Text;
        } else if c == '\'' {
            self.mode = LexMode::Quote;
        } else if c == '(' || c == '[' || c == '{' {
            self.macro_next = macro_next;
            self.open_group();
        } else if c == ')' || c == ']' {
            self.close_group();
        } else if c == '}' {
            self.close_group();
            self.pending_close = true;
        } else if c == ';' {
            self.reset_level();
        } else if c == ',' {
            if angle == 0 && !pipes_odd {
                self.reset_level();
            }
        } else if c == '#' {
            if pending_close {
                self.reset_level();
            }
        }
    }

    fn code_operator(&mut self, c: char)
        ensures
            final(self)@ == code_operator(old(self)@, c),
    {
        reveal(code_operator);
        let prev_dot = self.prev_dot;
        let prev_colon = self.prev_colon;
        let prev_dash = self.prev_dash;
        let angle = self.angle;
        let pipes_odd = self.pipes_odd;
        self.plain();
        if c == '=' {
            self.pending_eq = true;
        } else if c == '.' {
            if prev_dot {
                self.bump(LIGHT_STEP);
            }
            self.prev_dot = true;
        } else if c == ':' {
            if prev_colon {
                self.bump(LIGHT_STEP);
            }
            self.prev_colon = true;
        } else if c == '<' {
            self.bump(HEAVY_STEP);
            self.angle = inc_u64(angle);
        } else if c == '>' {
            if !prev_dash {
                self.angle = if angle > 0 {
                    angle - 1
                } else {
                    0
                };
            }
        } else if c == '|' {
            self.bump(LIGHT_STEP);
            self.pipes_odd = !pipes_odd;
        } else if c == '-' {
            self.bump(LIGHT_STEP);
            self.prev_dash = true;
        } else if c == '&' || c == '*' {
            self.bump(HEAVY_STEP);
        } else if c == '!' || c == '@' || c == '~' {
            self.bump(LIGHT_STEP);
        }
    }

    fn code_char(&mut self, c: char)
        ensures
            final(self)@ == code_char(old(self)@, c),
    {
        reveal(code_char);
        if is_word_char(c) {
            self.settle_eq();
            if self.word.len() == 0 {
                self.word_glued = self.glue_next;
            }
            self.word.push(c);
            self.glue_next = false;
            self.prev_dot = false;
            self.prev_colon = false;
            self.prev_dash = false;
            return;
        }
        let raw = self.is_raw_prefix();
        if c == '"' && raw {
            self.mode = LexMode::RawText(0);
            self.word = Vec::new();
            self.word_glued = false;
            self.pending_close = false;
            assert(self@.word =~= Seq::<char>::empty());
            return;
        }
        if c == '#' && raw {
            self.mode = LexMode::RawOpen(1);
            self.word = Vec::new();
            self.word_glued = false;
            self.pending_close = false;
            assert(self@.word =~= Seq::<char>::empty());
            return;
        }
        if c == '>' && self.pending_eq {
            self.pending_eq = false;
            self.pending_close = false;
            self.prev_dash = false;
            self.reset_level();
            return;
        }
        if c == '=' && self.pending_eq {
            self.pending_eq = false;
            self.pending_close = false;
            self.prev_dash = false;
            return;
        }
        let bang_macro = c == '!' && self.word.len() > 0 && !self.word_is_deepening_keyword();
        self.settle_eq();
        self.finish_word();
        self.code_punct(c);
        if bang_macro {
            self.macro_next = true;
        }
    }

    fn step_slash(&mut self, c: char)
        requires
            old(self).mode is Slash || old(self).mode is LineComment || old(self).mode is BlockComment,
        ensures
            final(self)@ == lex_step(old(self)@, c),
    {
        reveal(lex_step);
        match self.mode {
            LexMode::Slash => {
                if c == '/' {
                    self.mode = LexMode::LineComment;
                } else if c == '*' {
                    self.mode = LexMode::BlockComment(1, false, false);
                } else {
                    self.mode = LexMode::Code;
                    self.plain();
                    self.code_char(c);
                }
            },
            LexMode::LineComment => {
                if c == '\n' {
                    self.mode = LexMode::Code;
                }
            },
            LexMode::BlockComment(d, star, slash) => {
                if slash && c == '*' {
                    self.mode = LexMode::BlockComment(inc_u64(d), false, false);
                } else if star && c == '/' {
                    if d <= 1 {
                        self.mode = LexMode::Code;
                    } else {
                        self.mode = LexMode::BlockComment(d - 1, false, false);
                    }
                } else {
                    self.mode = LexMode::BlockComment(d, c == '*', c == '/');
                }
            },
            _ => {},
        }
    }

    fn step_text(&mut self, c: char)
        requires
            old(self).mode is Text || old(self).mode is TextEscape,
        ensures
            final(self)@ == lex_step(old(self)@, c),
    {
        reveal(lex_step);
        match self.mode {
            LexMode::Text => {
                if c == '\\' {
                    self.mode = LexMode::TextEscape;
                } else if c == '"' {
                    self.mode = LexMode::Code;
                    self.glue_next = true;
                }
            },
            LexMode::TextEscape => {
                self.mode = LexMode::Text;
            },
            _ => {},
        }
    }

    fn step_raw(&mut self, c: char)
        requires
            old(self).mode is RawOpen || old(self).mode is RawText || old(self).mode is RawClose,
        ensures
            final(self)@ == lex_step(old(self)@, c),
    {
        reveal(lex_step);
        match self.mode {
            LexMode::RawOpen(n) => {
                if c == '#' {
                    self.mode = LexMode::RawOpen(inc_u64(n));
                } else if c == '"' {
                    self.mode = LexMode::RawText(n);
                } else {
                    self.mode = LexMode::Code;
                    self.code_char(c);
                }
            },
            LexMode::RawText(n) => {
                if c == '"' {
                    if n == 0 {
                        self.mode = LexMode::Code;
                        self.glue_next = true;
                    } else {
                        self.mode = LexMode::RawClose(n, 0);
                    }
                }
            },
            LexMode::RawClose(n, k) => {
                if c == '#' {
                    let k2 = inc_u64(k);
                    if k2 >= n {
                        self.mode = LexMode::Code;
                        self.glue_next = true;
                    } else {
                        self.mode = LexMode::RawClose(n, k2);
                    }
                } else if c == '"' {
                    self.mode = LexMode::RawClose(n, 0);
                } else {
                    self.mode = LexMode::RawText(n);
                }
            },
            _ => {},
        }
    }

    fn step_quote(&mut self, c: char)
        requires
            old(self).mode is Quote || old(self).mode is QuoteEscape || old(self).mode is QuoteBody
                || old(self).mode is QuoteOne,
        ensures
            final(self)@ == lex_step(old(self)@, c),
    {
        reveal(lex_step);
        match self.mode {
            LexMode::Quote => {
                if c == '\\' {
                    self.mode = LexMode::QuoteEscape;
                } else {
                    self.mode = LexMode::QuoteOne(c);
                }
            },
            LexMode::QuoteEscape => {
                self.mode = LexMode::QuoteBody;
            },
            LexMode::QuoteBody => {
                if c == '\'' {
                    self.mode = LexMode::Code;
                    self.glue_next = true;
                }
            },
            LexMode::QuoteOne(a) => {
                if c == '\'' {
                    self.mode = LexMode::Code;
                    self.glue_next = true;
                } else {
                    self.mode = LexMode::Code;
                    let mut w: Vec<char> = Vec::new();
                    if is_word_char(a) {
                        w.push(a);
                    }
                    self.word = w;
                    self.word_glued = false;
                    proof {
                        if word_char(a) {
                            assert(self.word@ =~= seq![a]);
                        } else {
                            assert(self.word@ =~= Seq::<char>::empty());
                        }
                    }
                    self.code_char(c);
                }
            },
            _ => {},
        }
    }

    fn step(&mut self, c: char)
        ensures
            final(self)@ == lex_step(old(self)@, c),
    {
        match self.mode {
            LexMode::Code => {
                proof {
                    reveal(lex_step);
                }
                self.code_char(c)
            },
            LexMode::Slash | LexMode::LineComment | LexMode::BlockComment(..) => self.step_slash(c),
            LexMode::Text | LexMode::TextEscape => self.step_text(c),
            LexMode::RawOpen(..) | LexMode::RawText(..) | LexMode::RawClose(..) => self.step_raw(c),
            _ => self.step_quote(c),
        }
    }
}

/// Whether the characters of `cs` from `from` on stay within the bounds.
fn lex_from(cs: &Vec<char>, from: usize) -> (r: bool)
    requires
        from <= cs.len(),
    ensures
        r == lex_all(cs@.subrange(from as int, cs@.len() as int)).ok,
{
    let mut lx = Lexer::new();
    let mut i: usize = from;
    assert(cs@.subrange(from as int, from as int) =~= Seq::<char>::empty());
    while i < cs.len()
        invariant
            from <= i <= cs.len(),
            lx@ == lex_all(cs@.subrange(from as int, i as int)),
        decreases cs.len() - i,
    {
        assert(cs@.subrange(from as int, i + 1).drop_last() =~= cs@.subrange(from as int, i as int));
        assert(cs@.subrange(from as int, i + 1).last() == cs@[i as int]);
        lx.step(cs[i]);
        i = i + 1;
    }
    lx.ok
}

/// Whether a source stays within the nesting and load that `extract_rust_ast`
/// hands to `syn`.
pub fn source_within_bounds(source: &str) -> (r: bool)
    ensures
        r == shallow_source(source@),
{
    let cs = chars_of(source);
    let start: usize = if cs.len() > 0 && cs[0] == '\u{feff}' {
        1
    } else {
        0
    };
    let ghost t = without_bom(source@);
    assert(cs@.subrange(start as int, cs@.len() as int) =~= t);
    let whole = lex_from(&cs, start);
    if !whole {
        return false;
    }
    let shebang = cs.len() >= start + 2 && cs[start] == '#' && cs[start + 1] == '!';
    if !shebang {
        return true;
    }
    let mut j: usize = start;
    while j < cs.len() && cs[j] != '\n'
        invariant
            start <= j <= cs.len(),
            after_first_line(cs@.subrange(start as int, cs@.len() as int)) == after_first_line(
                cs@.subrange(j as int, cs@.len() as int),
            ),
        decreases cs.len() - j,
    {
        assert(cs@.subrange(j as int, cs@.len() as int).drop_first() =~= cs@.subrange(
            j + 1,
            cs@.len() as int,
        ));
        j = j + 1;
    }
    lex_from(&cs, j)
}

} // verus!
