//! Stable sorting of records by a strict order on their keys.
use vstd::prelude::*;

verus! {

/// Records ordered by a key: `before` is a strict order (irreflexive and
/// transitive) on them, decided by `is_before`.
pub trait Ranked: Sized {
    spec fn before(&self, other: &Self) -> bool;

    fn is_before(&self, other: &Self) -> (r: bool)
        ensures
            r == self.before(other),
    ;

    proof fn lemma_irreflexive(a: &Self)
        ensures
            !a.before(a),
    ;

    proof fn lemma_transitive(a: &Self, b: &Self, c: &Self)
        requires
            a.before(b),
            b.before(c),
        ensures
            a.before(c),
    ;
}

/// `x` inserted before the first record that comes after it, so after every
/// record that does not (where a stable sort places it).
pub open spec fn insert_ranked<T: Ranked>(s: Seq<T>, x: T) -> Seq<T>
    decreases s.len(),
{
    if s.len() == 0 {
        seq![x]
    } else if x.before(&s[0]) {
        seq![x] + s
    } else {
        seq![s[0]] + insert_ranked(s.drop_first(), x)
    }
}

/// The records stably sorted: records that neither comes before the other keep their order.
pub open spec fn sort_ranked<T: Ranked>(s: Seq<T>) -> Seq<T>
    decreases s.len(),
{
    if s.len() == 0 {
        Seq::empty()
    } else {
        insert_ranked(sort_ranked(s.drop_last()), s.last())
    }
}

/// No record comes before one that precedes it.
pub open spec fn is_ranked<T: Ranked>(s: Seq<T>) -> bool {
    forall|i: int, j: int| #![trigger s[i], s[j]] 0 <= i < j < s.len() ==> !s[j].before(&s[i])
}

proof fn lemma_insert_at<T: Ranked>(s: Seq<T>, x: T, j: int)
    requires
        0 <= j <= s.len(),
        forall|k: int| #![trigger s[k]] 0 <= k < j ==> !x.before(&s[k]),
        j < s.len() ==> x.before(&s[j]),
    ensures
        insert_ranked(s, x) == s.insert(j, x),
    decreases s.len(),
{
    if s.len() == 0 {
        assert(s.insert(j, x) =~= seq![x]);
    } else if j == 0 {
        assert(s.insert(0, x) =~= seq![x] + s);
    } else {
        let t = s.drop_first();
        assert forall|k: int| #![trigger t[k]] 0 <= k < j - 1 implies !x.before(&t[k]) by {
            assert(t[k] == s[k + 1]);
        }
        lemma_insert_at(t, x, j - 1);
        assert(s.insert(j, x) =~= seq![s[0]] + t.insert(j - 1, x));
    }
}

proof fn lemma_insert_keeps<T: Ranked>(s: Seq<T>, x: T)
    requires
        is_ranked(s),
    ensures
        is_ranked(insert_ranked(s, x)),
        insert_ranked(s, x).to_multiset() == s.to_multiset().insert(x),
    decreases s.len(),
{
    broadcast use vstd::seq_lib::group_to_multiset_ensures;

    if s.len() == 0 {
        assert(seq![x] =~= Seq::<T>::empty().push(x));
    } else if x.before(&s[0]) {
        let r = seq![x] + s;
        assert(r =~= s.insert(0, x));
        vstd::seq_lib::to_multiset_insert(s, 0, x);
        assert forall|i: int, j: int| #![trigger r[i], r[j]] 0 <= i < j < r.len() implies !r[j].before(&r[i]) by {
            if i == 0 {
                assert(r[j] == s[j - 1]);
                if r[j].before(&x) {
                    T::lemma_transitive(&r[j], &x, &s[0]);
                    if j - 1 == 0 {
                        T::lemma_irreflexive(&s[0]);
                    }
                }
            } else {
                assert(r[i] == s[i - 1]);
                assert(r[j] == s[j - 1]);
            }
        }
    } else {
        let t = s.drop_first();
        assert(is_ranked(t)) by {
            assert forall|i: int, j: int| #![trigger t[i], t[j]] 0 <= i < j < t.len() implies !t[j].before(&t[i]) by {
                assert(t[i] == s[i + 1]);
                assert(t[j] == s[j + 1]);
            }
        }
        lemma_insert_keeps(t, x);
        let it = insert_ranked(t, x);
        let r = seq![s[0]] + it;
        assert(r == insert_ranked(s, x));
        assert(s =~= seq![s[0]] + t);
        assert(r.to_multiset() =~= s.to_multiset().insert(x)) by {
            vstd::seq_lib::lemma_multiset_commutative(seq![s[0]], it);
            vstd::seq_lib::lemma_multiset_commutative(seq![s[0]], t);
        }
        assert forall|i: int, j: int| #![trigger r[i], r[j]] 0 <= i < j < r.len() implies !r[j].before(&r[i]) by {
            if i == 0 {
                assert(r[j] == it[j - 1]);
                assert(it.to_multiset().count(it[j - 1]) > 0);
                assert(s.to_multiset().insert(x).count(it[j - 1]) > 0);
                if it[j - 1] != x {
                    assert(t.to_multiset().count(it[j - 1]) > 0);
                    assert(t.contains(it[j - 1]));
                    let k = choose|k: int| 0 <= k < t.len() && t[k] == it[j - 1];
                    assert(s[k + 1] == t[k]);
                }
            } else {
                assert(r[i] == it[i - 1]);
                assert(r[j] == it[j - 1]);
            }
        }
    }
}

/// A stable sort orders the records and keeps each of them exactly once.
pub proof fn lemma_sort_ranked<T: Ranked>(s: Seq<T>)
    ensures
        is_ranked(sort_ranked(s)),
        sort_ranked(s).to_multiset() == s.to_multiset(),
        sort_ranked(s).len() == s.len(),
    decreases s.len(),
{
    broadcast use vstd::seq_lib::group_to_multiset_ensures;

    if s.len() > 0 {
        lemma_sort_ranked(s.drop_last());
        lemma_insert_keeps(sort_ranked(s.drop_last()), s.last());
        assert(s =~= s.drop_last().push(s.last()));
    }
    assert(sort_ranked(s).to_multiset().len() == s.to_multiset().len());
}

/// Sorts the records stably.
pub fn sort_stable<T: Ranked>(items: Vec<T>) -> (r: Vec<T>)
    ensures
        r@ == sort_ranked(items@),
{
    let ghost orig = items@;
    let n: usize = items.len();
    let mut rest = items;
    let mut r: Vec<T> = Vec::new();
    let mut i: usize = 0;
    while rest.len() > 0
        invariant
            i + rest@.len() == orig.len(),
            orig.len() == n,
            rest@ == orig.skip(i as int),
            r@ == sort_ranked(orig.take(i as int)),
        decreases rest.len(),
    {
        let x = rest.remove(0);
        let mut j: usize = 0;
        while j < r.len() && !x.is_before(&r[j])
            invariant
                j <= r.len(),
                forall|k: int| #![trigger r@[k]] 0 <= k < j ==> !x.before(&r@[k]),
            decreases r.len() - j,
        {
            j = j + 1;
        }
        proof {
            lemma_insert_at(r@, x, j as int);
            assert(orig.take(i + 1).drop_last() =~= orig.take(i as int));
            assert(orig.take(i + 1).last() == x);
            assert(rest@ =~= orig.skip(i + 1));
        }
        r.insert(j, x);
        i = i + 1;
    }
    assert(orig.take(i as int) =~= orig);
    r
}

} // verus!
