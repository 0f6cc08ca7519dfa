use vstd::prelude::*;

verus! {

/// Items listed from the highest rank down.
pub trait Ranked: Sized {
    /// The rank of the item.
    spec fn rank(&self) -> int;

    /// The rank of the item, computed.
    fn rank_key(&self) -> (k: i64)
        ensures
            k as int == self.rank(),
    ;
}

/// `s` with `x` put after every leading item that ranks at least as high.
pub open spec fn insert_desc<T: Ranked>(s: Seq<T>, x: T) -> Seq<T>
    decreases s.len(),
{
    if s.len() == 0 {
        seq![x]
    } else if s[0].rank() < x.rank() {
        seq![x] + s
    } else {
        seq![s[0]] + insert_desc(s.drop_first(), x)
    }
}

/// The items of `s` from the highest rank down; items of equal rank keep
/// their order (a stable sort).
pub open spec fn sorted_desc<T: Ranked>(s: Seq<T>) -> Seq<T>
    decreases s.len(),
{
    if s.len() == 0 {
        Seq::empty()
    } else {
        insert_desc(sorted_desc(s.drop_last()), s.last())
    }
}

/// Whether the ranks of `s` never increase.
pub open spec fn ranks_descend<T: Ranked>(s: Seq<T>) -> bool {
    forall|i: int, j: int| 0 <= i < j < s.len() ==> s[i].rank() >= s[j].rank()
}

proof fn lemma_insert_at<T: Ranked>(s: Seq<T>, x: T, pos: int)
    requires
        0 <= pos <= s.len(),
        forall|j: int| 0 <= j < pos ==> s[j].rank() >= x.rank(),
        pos == s.len() || s[pos].rank() < x.rank(),
    ensures
        insert_desc(s, x) == s.insert(pos, x),
    decreases pos,
{
    if pos == 0 {
        if s.len() == 0 {
            assert(s.insert(0, x) =~= seq![x]);
        } else {
            assert(s.insert(0, x) =~= seq![x] + s);
        }
    } else {
        let t = s.drop_first();
        assert forall|j: int| 0 <= j < pos - 1 implies t[j].rank() >= x.rank() by {
            assert(t[j] == s[j + 1]);
        }
        if pos < s.len() {
            assert(t[pos - 1] == s[pos]);
        }
        lemma_insert_at(t, x, pos - 1);
        assert(seq![s[0]] + t.insert(pos - 1, x) =~= s.insert(pos, x));
    }
}

proof fn lemma_insert_keeps_order<T: Ranked>(s: Seq<T>, x: T)
    requires
        ranks_descend(s),
    ensures
        ranks_descend(insert_desc(s, x)),
        insert_desc(s, x).to_multiset() == s.to_multiset().insert(x),
        insert_desc(s, x).len() == s.len() + 1,
    decreases s.len(),
{
    broadcast use vstd::seq_lib::group_seq_properties;
    broadcast use vstd::multiset::group_multiset_axioms;

    if s.len() == 0 {
        assert(seq![x] =~= Seq::<T>::empty().push(x));
    } else if s[0].rank() < x.rank() {
        let r = seq![x] + s;
        assert forall|i: int, j: int| 0 <= i < j < r.len() implies r[i].rank() >= r[j].rank() by {
            if i > 0 {
                assert(r[i] == s[i - 1] && r[j] == s[j - 1]);
            } else {
                assert(r[j] == s[j - 1]);
                assert(s[0].rank() >= s[j - 1].rank() || j - 1 == 0);
            }
        }
        vstd::seq_lib::lemma_multiset_commutative(seq![x], s);
        assert(seq![x].to_multiset() =~= vstd::multiset::Multiset::singleton(x)) by {
            assert(seq![x] =~= Seq::<T>::empty().push(x));
        }
    } else {
        let t = s.drop_first();
        assert forall|i: int, j: int| 0 <= i < j < t.len() implies t[i].rank() >= t[j].rank() by {
            assert(t[i] == s[i + 1] && t[j] == s[j + 1]);
        }
        lemma_insert_keeps_order(t, x);
        let it = insert_desc(t, x);
        let r = seq![s[0]] + it;
        assert forall|k: int| 0 <= k < it.len() implies it[k].rank() <= s[0].rank() by {
            assert(it.to_multiset().count(it[k]) > 0);
            assert(t.to_multiset().insert(x).count(it[k]) > 0);
            if it[k] != x {
                assert(t.to_multiset().count(it[k]) > 0);
                assert(t.contains(it[k]));
                let m = choose|m: int| 0 <= m < t.len() && t[m] == it[k];
                assert(t[m] == s[m + 1]);
            }
        }
        assert forall|i: int, j: int| 0 <= i < j < r.len() implies r[i].rank() >= r[j].rank() by {
            if i > 0 {
                assert(r[i] == it[i - 1] && r[j] == it[j - 1]);
            } else {
                assert(r[j] == it[j - 1]);
            }
        }
        vstd::seq_lib::lemma_multiset_commutative(seq![s[0]], it);
        vstd::seq_lib::lemma_multiset_commutative(seq![s[0]], t);
        assert(seq![s[0]] + t =~= s);
    }
}

/// The sorted list is ordered from the highest rank down and holds exactly
/// the items given, each as often as it was given.
pub proof fn lemma_sorted_desc_laws<T: Ranked>(s: Seq<T>)
    ensures
        ranks_descend(sorted_desc(s)),
        sorted_desc(s).to_multiset() == s.to_multiset(),
        sorted_desc(s).len() == s.len(),
    decreases s.len(),
{
    broadcast use vstd::seq_lib::group_seq_properties;

    if s.len() > 0 {
        lemma_sorted_desc_laws(s.drop_last());
        lemma_insert_keeps_order(sorted_desc(s.drop_last()), s.last());
        assert(s.drop_last().push(s.last()) =~= s);
    } else {
        assert(sorted_desc(s) =~= Seq::<T>::empty());
    }
}

/// Whether an item has rank `r`.
pub open spec fn rank_is<T: Ranked>(r: int) -> spec_fn(T) -> bool {
    |x: T| x.rank() == r
}

proof fn lemma_insert_filter<T: Ranked>(s: Seq<T>, x: T, r: int)
    requires
        ranks_descend(s),
    ensures
        insert_desc(s, x).filter(rank_is(r)) == (if x.rank() == r {
            s.filter(rank_is(r)).push(x)
        } else {
            s.filter(rank_is(r))
        }),
    decreases s.len(),
{
    let p = rank_is::<T>(r);
    if s.len() == 0 {
        s.lemma_filter_prepend(x, p);
        assert(seq![x] + s =~= seq![x]);
        assert(s.filter(p) =~= Seq::<T>::empty()) by {
            reveal(Seq::filter);
        }
        assert(seq![x] + Seq::<T>::empty() =~= Seq::<T>::empty().push(x));
        assert(Seq::<T>::empty() + Seq::<T>::empty() =~= Seq::<T>::empty());
    } else if s[0].rank() < x.rank() {
        s.lemma_filter_prepend(x, p);
        if x.rank() == r {
            assert(s.all(|y: T| !p(y))) by {
                assert forall|i: int| 0 <= i < s.len() implies !p(s[i]) by {
                    if i > 0 {
                        assert(s[0].rank() >= s[i].rank());
                    }
                }
            }
            s.lemma_all_neg_filter_empty(p);
            assert(s.filter(p) =~= Seq::<T>::empty());
            assert(seq![x] + s.filter(p) =~= s.filter(p).push(x));
        } else {
            assert(Seq::<T>::empty() + s.filter(p) =~= s.filter(p));
        }
    } else {
        let t = s.drop_first();
        assert forall|i: int, j: int| 0 <= i < j < t.len() implies t[i].rank() >= t[j].rank() by {
            assert(t[i] == s[i + 1] && t[j] == s[j + 1]);
        }
        lemma_insert_filter(t, x, r);
        let it = insert_desc(t, x);
        it.lemma_filter_prepend(s[0], p);
        t.lemma_filter_prepend(s[0], p);
        assert(seq![s[0]] + t =~= s);
        let head = if p(s[0]) {
            seq![s[0]]
        } else {
            Seq::<T>::empty()
        };
        assert((head + t.filter(p)).push(x) =~= head + t.filter(p).push(x));
    }
}

/// Items of equal rank come out in the order they were given: for every
/// rank, the items of that rank form the same sequence before and after
/// sorting.
pub proof fn lemma_sorted_desc_stable<T: Ranked>(s: Seq<T>, r: int)
    ensures
        sorted_desc(s).filter(rank_is(r)) == s.filter(rank_is(r)),
    decreases s.len(),
{
    let p = rank_is::<T>(r);
    if s.len() == 0 {
        reveal(Seq::filter);
    } else {
        lemma_sorted_desc_stable(s.drop_last(), r);
        lemma_sorted_desc_laws(s.drop_last());
        lemma_insert_filter(sorted_desc(s.drop_last()), s.last(), r);
        reveal(Seq::filter);
    }
}

/// Sorts items from the highest rank down, keeping the order of items of
/// equal rank.
pub fn sort_desc<T: Ranked>(v: Vec<T>) -> (r: Vec<T>)
    ensures
        r@ == sorted_desc(v@),
{
    let ghost all = v@;
    let mut rest = v;
    let mut out: Vec<T> = Vec::new();
    let mut i: usize = 0;
    let total = rest.len();
    assert(all.subrange(0, 0) =~= Seq::<T>::empty());
    while rest.len() > 0
        invariant
            i + rest@.len() == all.len(),
            all.len() == total,
            rest@ == all.subrange(i as int, all.len() as int),
            out@ == sorted_desc(all.subrange(0, i as int)),
        decreases rest@.len(),
    {
        let ghost before = rest@;
        let x = rest.remove(0);
        assert(x == all[i as int]) by {
            assert(before[0] == all[i as int]);
        }
        assert(rest@ =~= all.subrange(i + 1, all.len() as int));
        let k = x.rank_key();
        let mut pos: usize = 0;
        while pos < out.len() && out[pos].rank_key() >= k
            invariant
                pos <= out@.len(),
                k as int == x.rank(),
                forall|j: int| 0 <= j < pos ==> out@[j].rank() >= x.rank(),
            decreases out@.len() - pos,
        {
            pos = pos + 1;
        }
        proof {
            lemma_insert_at(out@, x, pos as int);
            let next = all.subrange(0, i + 1);
            assert(next.drop_last() =~= all.subrange(0, i as int));
            assert(next.last() == x);
        }
        out.insert(pos, x);
        i = i + 1;
    }
    assert(all.subrange(0, i as int) =~= all);
    out
}

} // verus!
