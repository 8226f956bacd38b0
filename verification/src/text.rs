//! Character-level text primitives with exact specifications over `Seq<char>`.
use vstd::prelude::*;
use vstd::string::StrSliceExecFns;
use vstd::string::StringExecFns;

verus! {

/// `p` is a prefix of `s`.
pub open spec fn has_prefix(s: Seq<char>, p: Seq<char>) -> bool {
    p.len() <= s.len() && s.subrange(0, p.len() as int) == p
}

/// `p` is a suffix of `s`.
pub open spec fn has_suffix(s: Seq<char>, p: Seq<char>) -> bool {
    p.len() <= s.len() && s.subrange(s.len() - p.len(), s.len() as int) == p
}

/// `p` occurs in `s` starting at index `i`.
pub open spec fn occurs_at(s: Seq<char>, p: Seq<char>, i: int) -> bool {
    0 <= i && i + p.len() <= s.len() && s.subrange(i, i + p.len()) == p
}

/// `p` occurs somewhere in `s`.
pub open spec fn has_infix(s: Seq<char>, p: Seq<char>) -> bool {
    exists|i: int| occurs_at(s, p, i)
}

/// Appends one character to a string (`String::push`).
#[verifier::external_body]
pub fn push_char(s: &mut String, c: char)
    ensures
        final(s)@ == old(s)@.push(c),
{
    s.push(c);
}

/// The characters of `s`, in order.
pub fn chars_of(s: &str) -> (v: Vec<char>)
    ensures
        v@ == s@,
{
    let n = s.unicode_len();
    let mut v: Vec<char> = Vec::new();
    let mut i: usize = 0;
    while i < n
        invariant
            n == s@.len(),
            i <= n,
            v@ == s@.subrange(0, i as int),
        decreases n - i,
    {
        v.push(s.get_char(i));
        i = i + 1;
    }
    assert(v@ =~= s@);
    v
}

/// Character-wise equality of two strings.
pub fn str_eq(a: &str, b: &str) -> (r: bool)
    ensures
        r == (a@ == b@),
{
    let x = chars_of(a);
    let y = chars_of(b);
    if x.len() != y.len() {
        return false;
    }
    let mut i: usize = 0;
    while i < x.len()
        invariant
            x@ == a@,
            y@ == b@,
            x.len() == y.len(),
            i <= x.len(),
            forall|k: int| 0 <= k < i ==> x@[k] == y@[k],
        decreases x.len() - i,
    {
        if x[i] != y[i] {
            return false;
        }
        i = i + 1;
    }
    assert(x@ =~= y@);
    true
}

/// Whether `s` starts with `p`.
pub fn starts_with(s: &str, p: &str) -> (r: bool)
    ensures
        r == has_prefix(s@, p@),
{
    let x = chars_of(s);
    let y = chars_of(p);
    if y.len() > x.len() {
        return false;
    }
    let mut i: usize = 0;
    while i < y.len()
        invariant
            x@ == s@,
            y@ == p@,
            y.len() <= x.len(),
            i <= y.len(),
            forall|k: int| 0 <= k < i ==> x@[k] == y@[k],
        decreases y.len() - i,
    {
        if x[i] != y[i] {
            assert(s@.subrange(0, p@.len() as int)[i as int] != p@[i as int]);
            return false;
        }
        i = i + 1;
    }
    assert(s@.subrange(0, p@.len() as int) =~= p@);
    true
}


/// Whether `s` ends with `p`.
pub fn ends_with(s: &str, p: &str) -> (r: bool)
    ensures
        r == has_suffix(s@, p@),
{
    let x = chars_of(s);
    let y = chars_of(p);
    if y.len() > x.len() {
        return false;
    }
    let off = x.len() - y.len();
    let mut i: usize = 0;
    while i < y.len()
        invariant
            x@ == s@,
            y@ == p@,
            y.len() <= x.len(),
            off == x.len() - y.len(),
            i <= y.len(),
            forall|k: int| 0 <= k < i ==> x@[off + k] == y@[k],
        decreases y.len() - i,
    {
        if x[off + i] != y[i] {
            assert(s@.subrange(off as int, s@.len() as int)[i as int] != p@[i as int]);
            return false;
        }
        i = i + 1;
    }
    assert(s@.subrange(off as int, s@.len() as int) =~= p@);
    true
}

/// Whether `p` matches at position `i` of the character vector `x`.
fn matches_at(x: &Vec<char>, y: &Vec<char>, i: usize) -> (r: bool)
    requires
        i + y.len() <= x.len(),
    ensures
        r == occurs_at(x@, y@, i as int),
{
    let mut k: usize = 0;
    while k < y.len()
        invariant
            i + y.len() <= x.len(),
            k <= y.len(),
            forall|j: int| 0 <= j < k ==> x@[i + j] == y@[j],
        decreases y.len() - k,
    {
        if x[i + k] != y[k] {
            assert(x@.subrange(i as int, i + y.len())[k as int] != y@[k as int]);
            return false;
        }
        k = k + 1;
    }
    assert(x@.subrange(i as int, i + y@.len()) =~= y@);
    true
}

/// `p` occurs at `i` and at no earlier index of `s`.
pub open spec fn first_occurrence(s: Seq<char>, p: Seq<char>, i: int) -> bool {
    occurs_at(s, p, i) && forall|j: int| 0 <= j < i ==> !occurs_at(s, p, j)
}

/// The index of the first occurrence of `y` in `x`, if any.
pub fn find_first(x: &Vec<char>, y: &Vec<char>) -> (r: Option<usize>)
    ensures
        r is None <==> !has_infix(x@, y@),
        r matches Some(i) ==> first_occurrence(x@, y@, i as int),
{
    if y.len() > x.len() {
        return None;
    }
    if y.len() == 0 {
        assert(x@.subrange(0, 0) =~= y@);
        assert(occurs_at(x@, y@, 0));
        return Some(0);
    }
    let last = x.len() - y.len();
    let mut i: usize = 0;
    while i <= last
        invariant
            y.len() > 0,
            last == x.len() - y.len(),
            y.len() <= x.len(),
            i <= last + 1,
            forall|j: int| 0 <= j < i ==> !occurs_at(x@, y@, j),
        decreases last + 1 - i,
    {
        if matches_at(x, y, i) {
            return Some(i);
        }
        i = i + 1;
    }
    assert forall|j: int| !occurs_at(x@, y@, j) by {
        if 0 <= j && j + y@.len() <= x@.len() {
            assert(j < i);
        }
    }
    None
}

/// Whether `p` occurs in `s`.
pub fn contains(s: &str, p: &str) -> (r: bool)
    ensures
        r == has_infix(s@, p@),
{
    let x = chars_of(s);
    let y = chars_of(p);
    if y.len() > x.len() {
        return false;
    }
    if y.len() == 0 {
        assert(s@.subrange(0, 0) =~= p@);
        assert(occurs_at(s@, p@, 0));
        return true;
    }
    let last = x.len() - y.len();
    let mut i: usize = 0;
    while i <= last
        invariant
            x@ == s@,
            y@ == p@,
            last == x.len() - y.len(),
            y.len() <= x.len(),
            y.len() > 0,
            i <= last + 1,
            forall|j: int| 0 <= j < i ==> !occurs_at(s@, p@, j),
        decreases last + 1 - i,
    {
        if matches_at(&x, &y, i) {
            return true;
        }
        i = i + 1;
    }
    assert forall|j: int| !occurs_at(s@, p@, j) by {
        if 0 <= j && j + p@.len() <= s@.len() {
            assert(j < i);
        }
    }
    false
}

/// Lexicographic order on character sequences from position `i` on, by code point.
pub open spec fn lt_from(a: Seq<char>, b: Seq<char>, i: int) -> bool
    decreases a.len() - i,
{
    if i < 0 || i >= b.len() {
        false
    } else if i >= a.len() {
        true
    } else if a[i] != b[i] {
        (a[i] as int) < (b[i] as int)
    } else {
        lt_from(a, b, i + 1)
    }
}

/// Lexicographic order on character sequences (the order of `str` in Rust).
pub open spec fn seq_lt(a: Seq<char>, b: Seq<char>) -> bool {
    lt_from(a, b, 0)
}

/// The order is irreflexive.
pub proof fn lemma_lt_irreflexive(a: Seq<char>, i: int)
    requires
        0 <= i,
    ensures
        !lt_from(a, a, i),
    decreases a.len() - i,
{
    if i < a.len() {
        lemma_lt_irreflexive(a, i + 1);
    }
}

/// Two different sequences that agree before `i` are ordered one way or the other.
pub proof fn lemma_lt_total(a: Seq<char>, b: Seq<char>, i: int)
    requires
        0 <= i <= a.len(),
        i <= b.len(),
        a != b,
        forall|k: int| 0 <= k < i ==> a[k] == b[k],
    ensures
        lt_from(a, b, i) || lt_from(b, a, i),
    decreases a.len() - i,
{
    if i == a.len() && i == b.len() {
        assert(a =~= b);
    } else if i < a.len() && i < b.len() && a[i] != b[i] {
        assert((a[i] as int) != (b[i] as int));
    } else if i < a.len() && i < b.len() && a[i] == b[i] {
        lemma_lt_total(a, b, i + 1);
    }
}

/// The order is asymmetric.
pub proof fn lemma_lt_asym(a: Seq<char>, b: Seq<char>, i: int)
    requires
        0 <= i,
        lt_from(a, b, i),
    ensures
        !lt_from(b, a, i),
    decreases a.len() - i,
{
    if i < a.len() && i < b.len() && a[i] == b[i] {
        lemma_lt_asym(a, b, i + 1);
    }
}

/// The order is transitive.
pub proof fn lemma_lt_trans(a: Seq<char>, b: Seq<char>, c: Seq<char>, i: int)
    requires
        0 <= i,
        lt_from(a, b, i),
        lt_from(b, c, i),
    ensures
        lt_from(a, c, i),
    decreases b.len() - i,
{
    if i < a.len() && a[i] == b[i] && b[i] == c[i] {
        lemma_lt_trans(a, b, c, i + 1);
    }
}

/// Whether `a` sorts strictly before `b`.
pub fn str_lt(a: &str, b: &str) -> (r: bool)
    ensures
        r == seq_lt(a@, b@),
{
    let x = chars_of(a);
    let y = chars_of(b);
    let mut i: usize = 0;
    while i < x.len() && i < y.len()
        invariant
            x@ == a@,
            y@ == b@,
            i <= x.len(),
            i <= y.len(),
            lt_from(a@, b@, 0) == lt_from(a@, b@, i as int),
        decreases x.len() - i,
    {
        if x[i] != y[i] {
            return x[i] < y[i];
        }
        i = i + 1;
    }
    i < y.len()
}

/// The views of a sequence of strings.
pub open spec fn views(v: Seq<String>) -> Seq<Seq<char>> {
    v.map_values(|s: String| s@)
}

/// Strictly increasing in lexicographic order (hence without repeats).
pub open spec fn strictly_sorted(s: Seq<Seq<char>>) -> bool {
    forall|i: int, j: int| 0 <= i < j < s.len() ==> seq_lt(#[trigger] s[i], #[trigger] s[j])
}

/// Inserts `s` into a strictly sorted vector unless an equal string is present.
pub fn insert_sorted(v: &mut Vec<String>, s: String)
    requires
        strictly_sorted(views(old(v)@)),
    ensures
        strictly_sorted(views(final(v)@)),
        views(final(v)@).to_set() == views(old(v)@).to_set().insert(s@),
{
    let ghost old_views = views(v@);
    let mut p: usize = 0;
    while p < v.len() && str_lt(v[p].as_str(), s.as_str())
        invariant
            p <= v.len(),
            views(v@) == old_views,
            strictly_sorted(old_views),
            forall|k: int| 0 <= k < p ==> seq_lt(#[trigger] old_views[k], s@),
        decreases v.len() - p,
    {
        p = p + 1;
    }
    if p < v.len() && str_eq(v[p].as_str(), s.as_str()) {
        assert(old_views[p as int] == s@);
        assert(old_views.to_set().insert(s@) =~= old_views.to_set());
        return;
    }
    proof {
        if p < v.len() {
            lemma_lt_total(s@, old_views[p as int], 0);
            assert(seq_lt(s@, old_views[p as int]));
        }
    }
    v.insert(p, s);
    let ghost nv = views(v@);
    assert(nv =~= old_views.insert(p as int, s@));
    assert forall|i: int, j: int| 0 <= i < j < nv.len() implies seq_lt(#[trigger] nv[i], #[trigger] nv[j]) by {
        if j < p {
        } else if j == p {
        } else if i < p {
            assert(nv[j] == old_views[j - 1]);
            assert(nv[i] == old_views[i]);
            if j - 1 > p {
                assert(seq_lt(old_views[i], old_views[p as int]));
                assert(seq_lt(old_views[p as int], old_views[j - 1]));
                lemma_lt_trans(nv[i], old_views[p as int], nv[j], 0);
            } else {
                assert(seq_lt(old_views[i], old_views[p as int]));
            }
        } else if i == p {
            assert(nv[j] == old_views[j - 1]);
            if j - 1 > p {
                lemma_lt_trans(s@, old_views[p as int], old_views[j - 1], 0);
            }
        } else {
            assert(nv[i] == old_views[i - 1]);
            assert(nv[j] == old_views[j - 1]);
        }
    }
    assert(nv.to_set() =~= old_views.to_set().insert(s@)) by {
        assert forall|x: Seq<char>| nv.to_set().contains(x) <==> old_views.to_set().insert(s@).contains(x) by {
            if nv.to_set().contains(x) {
                let k = choose|k: int| 0 <= k < nv.len() && nv[k] == x;
                if k < p {
                    assert(old_views[k] == x);
                } else if k > p {
                    assert(old_views[k - 1] == x);
                }
            }
            if old_views.to_set().contains(x) {
                let k = choose|k: int| 0 <= k < old_views.len() && old_views[k] == x;
                if k < p {
                    assert(nv[k] == x);
                } else {
                    assert(nv[k + 1] == x);
                }
            }
            if x == s@ {
                assert(nv[p as int] == x);
            }
        }
    }
}

/// The distinct strings of `v`, sorted (what `sort` then `dedup` gives).
pub fn sort_dedup(v: Vec<String>) -> (r: Vec<String>)
    ensures
        strictly_sorted(views(r@)),
        views(r@).to_set() == views(v@).to_set(),
{
    let mut r: Vec<String> = Vec::new();
    let mut i: usize = 0;
    while i < v.len()
        invariant
            i <= v.len(),
            strictly_sorted(views(r@)),
            views(r@).to_set() == views(v@.subrange(0, i as int)).to_set(),
        decreases v.len() - i,
    {
        insert_sorted(&mut r, v[i].clone());
        assert(views(v@.subrange(0, i + 1)) =~= views(v@.subrange(0, i as int)).push(v@[i as int]@));
        proof {
            views(v@.subrange(0, i as int)).lemma_push_to_set_commute(v@[i as int]@);
        }
        i = i + 1;
    }
    assert(v@.subrange(0, v.len() as int) =~= v@);
    r
}


/// The decimal digit for `d` (`0 <= d < 10`).
pub open spec fn digit_char(d: int) -> char {
    seq!['0', '1', '2', '3', '4', '5', '6', '7', '8', '9'][d]
}

/// The decimal representation of `n`, without leading zeros (as `{}` prints it).
pub open spec fn decimal(n: nat) -> Seq<char>
    decreases n,
{
    if n < 10 {
        seq![digit_char(n as int)]
    } else {
        decimal(n / 10).push(digit_char((n % 10) as int))
    }
}

fn digit(d: u64) -> (c: char)
    requires
        d < 10,
    ensures
        c == digit_char(d as int),
{
    match d {
        0 => '0',
        1 => '1',
        2 => '2',
        3 => '3',
        4 => '4',
        5 => '5',
        6 => '6',
        7 => '7',
        8 => '8',
        _ => '9',
    }
}

/// Appends the decimal representation of `n`.
pub fn push_decimal(s: &mut String, n: u64)
    ensures
        final(s)@ == old(s)@ + decimal(n as nat),
    decreases n,
{
    if n >= 10 {
        push_decimal(s, n / 10);
    }
    push_char(s, digit(n % 10));
    assert(s@ =~= old(s)@ + decimal(n as nat));
}

/// The decimal representation of `n` as a new string.
pub fn decimal_string(n: u64) -> (r: String)
    ensures
        r@ == decimal(n as nat),
{
    let mut s = String::new();
    push_decimal(&mut s, n);
    assert(s@ =~= decimal(n as nat));
    s
}

/// `true` or `false`, as `{}` prints a `bool`.
pub open spec fn bool_text(b: bool) -> Seq<char> {
    if b {
        "true"@
    } else {
        "false"@
    }
}

/// Appends `true` or `false`.
pub fn push_bool(s: &mut String, b: bool)
    ensures
        final(s)@ == old(s)@ + bool_text(b),
{
    if b {
        s.append("true");
    } else {
        s.append("false");
    }
}

/// Appends a string slice.
pub fn push_str(s: &mut String, t: &str)
    ensures
        final(s)@ == old(s)@ + t@,
{
    s.append(t);
}

/// The parts joined by `sep` (what `parts.join(sep)` gives).
pub open spec fn join(parts: Seq<Seq<char>>, sep: Seq<char>) -> Seq<char>
    decreases parts.len(),
{
    if parts.len() == 0 {
        Seq::empty()
    } else if parts.len() == 1 {
        parts[0]
    } else {
        join(parts.drop_last(), sep) + sep + parts.last()
    }
}

/// Joins the strings of `v` with `sep` between them.
pub fn join_strings(v: &Vec<String>, sep: &str) -> (r: String)
    ensures
        r@ == join(views(v@), sep@),
{
    let mut r = String::new();
    let mut i: usize = 0;
    while i < v.len()
        invariant
            i <= v.len(),
            r@ == join(views(v@.subrange(0, i as int)), sep@),
        decreases v.len() - i,
    {
        let ghost before = views(v@.subrange(0, i as int));
        if i > 0 {
            r.append(sep);
        }
        r.append(v[i].as_str());
        let ghost after = views(v@.subrange(0, i + 1));
        assert(after.drop_last() =~= before);
        assert(after.len() == i + 1);
        assert(after.last() == v@[i as int]@);
        if i == 0 {
            assert(before =~= Seq::<Seq<char>>::empty());
            assert(r@ =~= join(after, sep@));
        } else {
            assert(r@ =~= join(after, sep@));
        }
        i = i + 1;
    }
    assert(v@.subrange(0, v.len() as int) =~= v@);
    r
}

/// `(none)`-style rendering of a list: the fallback when empty, else the join.
pub open spec fn join_or(parts: Seq<Seq<char>>, sep: Seq<char>, empty: Seq<char>) -> Seq<char> {
    if parts.len() == 0 {
        empty
    } else {
        join(parts, sep)
    }
}

/// Joins the strings of `v` with `sep`, or gives `empty` when `v` is empty.
pub fn join_or_strings(v: &Vec<String>, sep: &str, empty: &str) -> (r: String)
    ensures
        r@ == join_or(views(v@), sep@, empty@),
{
    if v.len() == 0 {
        String::from_str(empty)
    } else {
        join_strings(v, sep)
    }
}

/// Whether some string of `v` equals `s`.
pub fn contains_string(v: &Vec<String>, s: &str) -> (r: bool)
    ensures
        r == views(v@).contains(s@),
{
    let mut i: usize = 0;
    while i < v.len()
        invariant
            i <= v.len(),
            forall|k: int| 0 <= k < i ==> v@[k]@ != s@,
        decreases v.len() - i,
    {
        if str_eq(v[i].as_str(), s) {
            assert(views(v@)[i as int] == s@);
            return true;
        }
        i = i + 1;
    }
    assert(!views(v@).contains(s@)) by {
        if views(v@).contains(s@) {
            let k = choose|k: int| 0 <= k < views(v@).len() && views(v@)[k] == s@;
            assert(v@[k]@ == s@);
        }
    }
    false
}

/// A new string holding `t`.
pub fn owned(t: &str) -> (r: String)
    ensures
        r@ == t@,
{
    String::from_str(t)
}


/// The one-element list holding `s` when `c` holds, else the empty list.
pub open spec fn flag(c: bool, s: Seq<char>) -> Seq<Seq<char>> {
    if c {
        seq![s]
    } else {
        Seq::empty()
    }
}

/// A list of flags followed by one more holds `x` exactly when one of the two does.
pub proof fn lemma_flagged_contains(a: Seq<Seq<char>>, c: bool, l: Seq<char>, x: Seq<char>)
    ensures
        (a + flag(c, l)).contains(x) <==> a.contains(x) || (c && l == x),
{
    let s = a + flag(c, l);
    if s.contains(x) {
        let i = choose|i: int| 0 <= i < s.len() && s[i] == x;
        if i < a.len() {
            assert(a[i] == x);
        }
    }
    if a.contains(x) {
        let i = choose|i: int| 0 <= i < a.len() && a[i] == x;
        assert(s[i] == x);
    }
    if c && l == x {
        assert(s[a.len() as int] == x);
    }
}

/// The labels `l[i]` whose condition `c[i]` holds, in order.
pub open spec fn flags_of(c: Seq<bool>, l: Seq<Seq<char>>) -> Seq<Seq<char>>
    decreases c.len(),
{
    if c.len() == 0 || l.len() == 0 {
        Seq::empty()
    } else {
        flags_of(c.drop_last(), l.drop_last()) + flag(c.last(), l.last())
    }
}

/// A label that no other label equals is among the flagged labels exactly
/// when its condition holds.
pub proof fn lemma_flags_of_contains(c: Seq<bool>, l: Seq<Seq<char>>, k: int)
    requires
        c.len() == l.len(),
        0 <= k < l.len(),
        forall|j: int| 0 <= j < l.len() && j != k ==> l[j] != l[k],
    ensures
        flags_of(c, l).contains(l[k]) <==> c[k],
    decreases c.len(),
{
    let n = c.len() - 1;
    lemma_flagged_contains(flags_of(c.drop_last(), l.drop_last()), c.last(), l.last(), l[k]);
    if k < n {
        lemma_flags_of_contains(c.drop_last(), l.drop_last(), k);
        assert(l.last() != l[k]);
    } else if n > 0 {
        if flags_of(c.drop_last(), l.drop_last()).contains(l[k]) {
            lemma_flags_of_members(c.drop_last(), l.drop_last(), l[k]);
        }
    }
}

/// Ten flagged labels, written out.
pub proof fn lemma_flags_of_ten(c: Seq<bool>, l: Seq<Seq<char>>)
    requires
        c.len() == 10,
        l.len() == 10,
    ensures
        flags_of(c, l) == flag(c[0], l[0]) + flag(c[1], l[1]) + flag(c[2], l[2]) + flag(c[3], l[3])
            + flag(c[4], l[4]) + flag(c[5], l[5]) + flag(c[6], l[6]) + flag(c[7], l[7]) + flag(
            c[8],
            l[8],
        ) + flag(c[9], l[9]),
{
    assert(flags_of(c.take(0), l.take(0)) =~= Seq::<Seq<char>>::empty());
    lemma_flags_of_step(c, l, 0);
    lemma_flags_of_step(c, l, 1);
    lemma_flags_of_step(c, l, 2);
    lemma_flags_of_step(c, l, 3);
    lemma_flags_of_step(c, l, 4);
    lemma_flags_of_step(c, l, 5);
    lemma_flags_of_step(c, l, 6);
    lemma_flags_of_step(c, l, 7);
    lemma_flags_of_step(c, l, 8);
    lemma_flags_of_step(c, l, 9);
    assert(Seq::<Seq<char>>::empty() + flag(c[0], l[0]) =~= flag(c[0], l[0]));
    assert(c.take(10) =~= c);
    assert(l.take(10) =~= l);
}

/// One more flagged label.
pub proof fn lemma_flags_of_step(c: Seq<bool>, l: Seq<Seq<char>>, k: int)
    requires
        c.len() == l.len(),
        0 <= k < c.len(),
    ensures
        flags_of(c.take(k + 1), l.take(k + 1)) == flags_of(c.take(k), l.take(k)) + flag(c[k], l[k]),
{
    assert(c.take(k + 1).drop_last() =~= c.take(k));
    assert(l.take(k + 1).drop_last() =~= l.take(k));
}

/// A list whose neighbours are in order is strictly sorted.
pub proof fn lemma_sorted_by_neighbours(s: Seq<Seq<char>>)
    requires
        forall|i: int| 0 <= i < s.len() - 1 ==> seq_lt(#[trigger] s[i], s[i + 1]),
    ensures
        strictly_sorted(s),
    decreases s.len(),
{
    if s.len() > 1 {
        let t = s.drop_last();
        assert forall|i: int| 0 <= i < t.len() - 1 implies seq_lt(#[trigger] t[i], t[i + 1]) by {
            assert(t[i] == s[i] && t[i + 1] == s[i + 1]);
        }
        lemma_sorted_by_neighbours(t);
        let n = s.len() - 1;
        assert forall|i: int, j: int| 0 <= i < j < s.len() implies seq_lt(#[trigger] s[i], #[trigger] s[j]) by {
            if j < n {
                assert(t[i] == s[i] && t[j] == s[j]);
            } else {
                lemma_below_last(s, i);
            }
        }
    }
}

proof fn lemma_below_last(s: Seq<Seq<char>>, i: int)
    requires
        forall|k: int| 0 <= k < s.len() - 1 ==> seq_lt(#[trigger] s[k], s[k + 1]),
        0 <= i < s.len() - 1,
    ensures
        seq_lt(s[i], s[s.len() - 1]),
    decreases s.len() - i,
{
    if i < s.len() - 2 {
        lemma_below_last(s, i + 1);
        lemma_lt_trans(s[i], s[i + 1], s[s.len() - 1], 0);
    }
}

/// The flagged labels of a strictly sorted list of labels are strictly sorted.
pub proof fn lemma_flags_of_sorted(c: Seq<bool>, l: Seq<Seq<char>>)
    requires
        c.len() == l.len(),
        strictly_sorted(l),
    ensures
        strictly_sorted(flags_of(c, l)),
    decreases c.len(),
{
    if c.len() > 0 {
        let lp = l.drop_last();
        let cp = c.drop_last();
        assert forall|i: int, j: int| 0 <= i < j < lp.len() implies seq_lt(#[trigger] lp[i], #[trigger] lp[j]) by {
            assert(lp[i] == l[i] && lp[j] == l[j]);
        }
        lemma_flags_of_sorted(cp, lp);
        let f = flags_of(cp, lp);
        let s = f + flag(c.last(), l.last());
        assert(flags_of(c, l) == s);
        assert forall|i: int, j: int| 0 <= i < j < s.len() implies seq_lt(#[trigger] s[i], #[trigger] s[j]) by {
            if j < f.len() {
                assert(s[i] == f[i] && s[j] == f[j]);
            } else {
                assert(s[i] == f[i]);
                assert(f.contains(f[i]));
                lemma_flags_of_members(cp, lp, f[i]);
                let k = choose|k: int| 0 <= k < lp.len() && lp[k] == f[i];
                assert(l[k] == f[i]);
                assert(s[j] == l[l.len() - 1]);
            }
        }
    }
}

/// Every flagged label is one of the labels.
pub proof fn lemma_flags_of_members(c: Seq<bool>, l: Seq<Seq<char>>, x: Seq<char>)
    requires
        c.len() == l.len(),
        flags_of(c, l).contains(x),
    ensures
        l.contains(x),
    decreases c.len(),
{
    if c.len() > 0 {
        lemma_flagged_contains(flags_of(c.drop_last(), l.drop_last()), c.last(), l.last(), x);
        if flags_of(c.drop_last(), l.drop_last()).contains(x) {
            lemma_flags_of_members(c.drop_last(), l.drop_last(), x);
            let i = choose|i: int| 0 <= i < l.drop_last().len() && l.drop_last()[i] == x;
            assert(l[i] == x);
        } else {
            assert(l[l.len() - 1] == x);
        }
    }
}

/// Appends `s` to `v` when `c` holds.
pub fn push_if(v: &mut Vec<String>, c: bool, s: &str)
    ensures
        views(final(v)@) == views(old(v)@) + flag(c, s@),
{
    let ghost before = views(v@);
    if c {
        v.push(owned(s));
        assert(views(v@) =~= before + flag(c, s@));
    } else {
        assert(views(v@) =~= before + flag(c, s@));
    }
}

/// Appends `s` to `v`.
pub fn push_owned(v: &mut Vec<String>, s: &str)
    ensures
        views(final(v)@) == views(old(v)@).push(s@),
{
    let ghost before = views(v@);
    v.push(owned(s));
    assert(views(v@) =~= before.push(s@));
}

/// A character with the Unicode `White_Space` property (what `char::is_whitespace` tests).
pub open spec fn is_whitespace_char(c: char) -> bool {
    let n = c as u32;
    (0x9 <= n <= 0xd) || n == 0x20 || n == 0x85 || n == 0xa0 || n == 0x1680 || (0x2000 <= n
        <= 0x200a) || n == 0x2028 || n == 0x2029 || n == 0x202f || n == 0x205f || n == 0x3000
}

/// Whether `c` is a whitespace character.
pub fn whitespace(c: char) -> (r: bool)
    ensures
        r == is_whitespace_char(c),
{
    let n = c as u32;
    (0x9 <= n && n <= 0xd) || n == 0x20 || n == 0x85 || n == 0xa0 || n == 0x1680 || (0x2000 <= n
        && n <= 0x200a) || n == 0x2028 || n == 0x2029 || n == 0x202f || n == 0x205f || n == 0x3000
}

/// `s` without its leading whitespace (what `str::trim_start` gives).
pub open spec fn trim_start(s: Seq<char>) -> Seq<char>
    decreases s.len(),
{
    if s.len() > 0 && is_whitespace_char(s[0]) {
        trim_start(s.drop_first())
    } else {
        s
    }
}

/// `s` without its leading whitespace.
pub fn trimmed_start(s: &str) -> (r: String)
    ensures
        r@ == trim_start(s@),
{
    let x = chars_of(s);
    let mut i: usize = 0;
    assert(s@.skip(0) =~= s@);
    while i < x.len() && whitespace(x[i])
        invariant
            x@ == s@,
            i <= x.len(),
            trim_start(s@) == trim_start(s@.skip(i as int)),
        decreases x.len() - i,
    {
        assert(s@.skip(i as int).drop_first() =~= s@.skip(i + 1));
        i = i + 1;
    }
    let start = i;
    let mut r = String::new();
    while i < x.len()
        invariant
            x@ == s@,
            start <= i <= x.len(),
            r@ == s@.subrange(start as int, i as int),
        decreases x.len() - i,
    {
        push_char(&mut r, x[i]);
        assert(s@.subrange(start as int, i + 1) =~= s@.subrange(start as int, i as int).push(x@[i as int]));
        i = i + 1;
    }
    assert(r@ =~= s@.skip(start as int));
    r
}

/// `s` without its trailing whitespace (what `str::trim_end` gives).
pub open spec fn trim_end(s: Seq<char>) -> Seq<char>
    decreases s.len(),
{
    if s.len() > 0 && is_whitespace_char(s.last()) {
        trim_end(s.drop_last())
    } else {
        s
    }
}

/// `s` without leading and trailing whitespace (what `str::trim` gives).
pub open spec fn trim(s: Seq<char>) -> Seq<char> {
    trim_end(trim_start(s))
}

/// The characters of `v` from `lo` to `hi` as a string.
pub fn string_of_range(v: &Vec<char>, lo: usize, hi: usize) -> (r: String)
    requires
        lo <= hi <= v.len(),
    ensures
        r@ == v@.subrange(lo as int, hi as int),
{
    let mut r = String::new();
    let mut i = lo;
    while i < hi
        invariant
            lo <= i <= hi <= v.len(),
            r@ == v@.subrange(lo as int, i as int),
        decreases hi - i,
    {
        push_char(&mut r, v[i]);
        assert(v@.subrange(lo as int, i + 1) =~= v@.subrange(lo as int, i as int).push(v@[i as int]));
        i = i + 1;
    }
    r
}

/// The characters `v` without leading and trailing whitespace.
pub fn trimmed_chars(v: &Vec<char>) -> (r: String)
    ensures
        r@ == trim(v@),
{
    let mut lo: usize = 0;
    assert(v@.skip(0) =~= v@);
    while lo < v.len() && whitespace(v[lo])
        invariant
            lo <= v.len(),
            trim_start(v@) == trim_start(v@.skip(lo as int)),
        decreases v.len() - lo,
    {
        assert(v@.skip(lo as int).drop_first() =~= v@.skip(lo + 1));
        lo = lo + 1;
    }
    assert(trim_start(v@) == v@.skip(lo as int));
    let mut hi: usize = v.len();
    assert(v@.skip(lo as int) =~= v@.subrange(lo as int, hi as int));
    while hi > lo && whitespace(v[hi - 1])
        invariant
            lo <= hi <= v.len(),
            trim(v@) == trim_end(v@.subrange(lo as int, hi as int)),
        decreases hi,
    {
        assert(v@.subrange(lo as int, hi as int).drop_last() =~= v@.subrange(lo as int, hi - 1));
        hi = hi - 1;
    }
    string_of_range(v, lo, hi)
}

/// `s` without leading and trailing whitespace.
pub fn trimmed(s: &str) -> (r: String)
    ensures
        r@ == trim(s@),
{
    let v = chars_of(s);
    trimmed_chars(&v)
}

/// An ASCII letter or digit.
pub open spec fn is_ascii_alnum(c: char) -> bool {
    ('a' <= c <= 'z') || ('A' <= c <= 'Z') || ('0' <= c <= '9')
}

/// Whether `c` is an ASCII letter or digit.
pub fn ascii_alnum(c: char) -> (r: bool)
    ensures
        r == is_ascii_alnum(c),
{
    ('a' <= c && c <= 'z') || ('A' <= c && c <= 'Z') || ('0' <= c && c <= '9')
}

/// `c` in ASCII lower case.
pub open spec fn ascii_lower(c: char) -> char {
    if 'A' <= c <= 'Z' {
        ((c as u32) + 32) as char
    } else {
        c
    }
}

/// `c` in ASCII lower case.
pub fn ascii_lower_char(c: char) -> (r: char)
    ensures
        r == ascii_lower(c),
{
    if 'A' <= c && c <= 'Z' {
        let n: u8 = c as u8 + 32;
        n as char
    } else {
        c
    }
}

/// `s` in ASCII lower case (what `str::to_ascii_lowercase` gives).
pub fn ascii_lowercase(s: &str) -> (r: String)
    ensures
        r@ == s@.map_values(|c: char| ascii_lower(c)),
{
    let x = chars_of(s);
    let mut r = String::new();
    let mut i: usize = 0;
    while i < x.len()
        invariant
            x@ == s@,
            i <= x.len(),
            r@ == s@.take(i as int).map_values(|c: char| ascii_lower(c)),
        decreases x.len() - i,
    {
        push_char(&mut r, ascii_lower_char(x[i]));
        assert(s@.take(i + 1).map_values(|c: char| ascii_lower(c)) =~= s@.take(i as int).map_values(
            |c: char| ascii_lower(c),
        ).push(ascii_lower(x@[i as int])));
        i = i + 1;
    }
    assert(s@.take(i as int) =~= s@);
    r
}


/// The value, or `none` when absent.
pub open spec fn or_none(v: Option<String>) -> Seq<char> {
    match v {
        Some(x) => x@,
        None => "none"@,
    }
}

/// Appends the value, or `none` when absent.
pub fn push_or_none(s: &mut String, v: &Option<String>)
    ensures
        final(s)@ == old(s)@ + or_none(*v),
{
    match v {
        Some(x) => push_str(s, x.as_str()),
        None => push_str(s, "none"),
    }
}

/// One `- item` line per part.
pub open spec fn dash_lines(parts: Seq<Seq<char>>) -> Seq<char> {
    join(parts.map_values(|p: Seq<char>| "- "@ + p), "\n"@)
}

/// One `- item` line per string of `v`.
pub fn dash_list(v: &Vec<String>) -> (r: String)
    ensures
        r@ == dash_lines(views(v@)),
{
    let mut lines: Vec<String> = Vec::new();
    let mut i: usize = 0;
    while i < v.len()
        invariant
            i <= v.len(),
            views(lines@) == views(v@).take(i as int).map_values(|p: Seq<char>| "- "@ + p),
        decreases v.len() - i,
    {
        let mut line = String::from_str("- ");
        push_str(&mut line, v[i].as_str());
        let ghost before = views(lines@);
        let ghost lv = line@;
        lines.push(line);
        proof {
            let f = |p: Seq<char>| "- "@ + p;
            assert(views(lines@) =~= before.push(lv));
            assert(views(v@).take(i + 1) =~= views(v@).take(i as int).push(v@[i as int]@));
            assert(views(v@).take(i + 1).map_values(f) =~= views(v@).take(i as int).map_values(f).push(
                f(v@[i as int]@),
            ));
        }
        i = i + 1;
    }
    assert(views(v@).take(i as int) =~= views(v@));
    join_strings(&lines, "\n")
}


/// `s` without one trailing carriage return.
pub open spec fn strip_cr(s: Seq<char>) -> Seq<char> {
    if s.len() > 0 && s.last() == '\r' {
        s.drop_last()
    } else {
        s
    }
}

/// The lines of `rest`, the current line so far being `cur`: split at `\n`,
/// a `\r` before the `\n` dropped, no line after a final `\n`.
pub open spec fn split_lines(rest: Seq<char>, cur: Seq<char>) -> Seq<Seq<char>>
    decreases rest.len(),
{
    if rest.len() == 0 {
        if cur.len() == 0 {
            Seq::empty()
        } else {
            seq![cur]
        }
    } else if rest[0] == '\n' {
        seq![strip_cr(cur)] + split_lines(rest.drop_first(), Seq::empty())
    } else {
        split_lines(rest.drop_first(), cur.push(rest[0]))
    }
}

/// The lines of `s` (what `str::lines` gives).
pub open spec fn lines_of(s: Seq<char>) -> Seq<Seq<char>> {
    split_lines(s, Seq::empty())
}

fn string_of_chars(v: &Vec<char>) -> (r: String)
    ensures
        r@ == v@,
{
    let n = v.len();
    let r = string_of_range(v, 0, n);
    assert(v@.subrange(0, n as int) =~= v@);
    r
}

/// The lines of `s`.
pub fn lines(s: &str) -> (r: Vec<String>)
    ensures
        views(r@) == lines_of(s@),
{
    let x = chars_of(s);
    let mut r: Vec<String> = Vec::new();
    let mut cur: Vec<char> = Vec::new();
    let mut i: usize = 0;
    assert(s@.skip(0) =~= s@);
    assert(cur@ =~= Seq::<char>::empty());
    while i < x.len()
        invariant
            x@ == s@,
            i <= x.len(),
            views(r@) + split_lines(s@.skip(i as int), cur@) == lines_of(s@),
        decreases x.len() - i,
    {
        let ghost rest = s@.skip(i as int);
        let ghost c0 = cur@;
        let ghost r0 = views(r@);
        assert(rest[0] == x@[i as int]);
        assert(rest.drop_first() =~= s@.skip(i + 1));
        if x[i] == '\n' {
            let line = if cur.len() > 0 && cur[cur.len() - 1] == '\r' {
                let n = cur.len() - 1;
                let l = string_of_range(&cur, 0, n);
                assert(cur@.subrange(0, n as int) =~= cur@.drop_last());
                l
            } else {
                string_of_chars(&cur)
            };
            let ghost lv = line@;
            assert(lv == strip_cr(c0));
            r.push(line);
            assert(views(r@) =~= r0.push(lv));
            cur = Vec::new();
            assert(cur@ =~= Seq::<char>::empty());
            assert(r0 + split_lines(rest, c0) =~= r0.push(lv) + split_lines(
                rest.drop_first(),
                Seq::empty(),
            ));
        } else {
            cur.push(x[i]);
            assert(cur@ == c0.push(rest[0]));
        }
        i = i + 1;
    }
    assert(s@.skip(i as int) =~= Seq::<char>::empty());
    if cur.len() > 0 {
        let ghost r0 = views(r@);
        let last = string_of_chars(&cur);
        let ghost lv = last@;
        r.push(last);
        assert(views(r@) =~= r0.push(lv));
    }
    r
}

/// The names that `f` gives for some element of `s`.
pub open spec fn union_over<T>(s: Seq<T>, f: spec_fn(T) -> Set<Seq<char>>) -> Set<Seq<char>> {
    Set::new(|x: Seq<char>| exists|i: int| 0 <= i < s.len() && #[trigger] f(s[i]).contains(x))
}

/// One more element adds its own names.
pub proof fn lemma_union_step<T>(s: Seq<T>, i: int, f: spec_fn(T) -> Set<Seq<char>>)
    requires
        0 <= i < s.len(),
    ensures
        union_over(s.take(i + 1), f) == union_over(s.take(i), f) + f(s[i]),
{
    let a = union_over(s.take(i + 1), f);
    let b = union_over(s.take(i), f) + f(s[i]);
    assert forall|x: Seq<char>| #[trigger] a.contains(x) == b.contains(x) by {
        if a.contains(x) {
            let j = choose|j: int| 0 <= j < i + 1 && #[trigger] f(s.take(i + 1)[j]).contains(x);
            if j < i {
                assert(f(s.take(i)[j]).contains(x));
            }
        }
        if b.contains(x) {
            if f(s[i]).contains(x) {
                assert(f(s.take(i + 1)[i]).contains(x));
            } else {
                let j = choose|j: int| 0 <= j < i && #[trigger] f(s.take(i)[j]).contains(x);
                assert(f(s.take(i + 1)[j]).contains(x));
            }
        }
    }
    assert(a =~= b);
}

/// No element, no names.
pub proof fn lemma_union_empty<T>(s: Seq<T>, f: spec_fn(T) -> Set<Seq<char>>)
    requires
        s.len() == 0,
    ensures
        union_over(s, f) == Set::<Seq<char>>::empty(),
{
    assert(union_over(s, f) =~= Set::<Seq<char>>::empty());
}

} // verus!
