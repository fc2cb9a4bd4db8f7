//! The on-chain sorted map: key-value pairs in increasing key order, kept
//! in Data as a Data map.
use crate::assoc_map::{first_key, lemma_first_key_facts, lemma_first_key_prefix, lookup_outcome, pair_copies_of, pairs_seq};
use crate::list::clones_exactly;
use crate::list::List;
use crate::pair::Pair;
use crate::seqs::{idx, len_int};
use std::cmp::Ordering;
use vstd::prelude::*;
use vstd::std_specs::cmp::{OrdSpec, PartialEqSpec, PartialOrdSpec};

verus! {

/// Key-value pairs in increasing key order.
#[derive(Debug, PartialEq)]
pub struct SortedMap<K, V> {
    pub inner: List<Pair<K, V>>,
}

/// The position at which a pair with key `k` goes into sorted pairs: before
/// the first pair whose key is greater.
pub open spec fn insert_pos<K: Ord, V>(s: Seq<(K, V)>, k: K) -> int
    decreases s.len(),
{
    if s.len() == 0 {
        0
    } else if s[0].0.cmp_spec(&k) == Ordering::Greater {
        0
    } else {
        1 + insert_pos(s.drop_first(), k)
    }
}

/// The pairs sorted by key, pairs with equal keys in their first order.
pub open spec fn stable_sort<K: Ord, V>(s: Seq<(K, V)>) -> Seq<(K, V)>
    decreases s.len(),
{
    if s.len() == 0 {
        Seq::empty()
    } else {
        let t = stable_sort(s.drop_last());
        t.insert(insert_pos(t, s.last().0), s.last())
    }
}

/// The pairs after binding `key` to `value`: in place of the first pair with
/// an equal key, or else added in key order.
pub open spec fn inserted<K: Ord, V>(s: Seq<(K, V)>, key: K, value: V) -> Seq<(K, V)> {
    match first_key(s, key) {
        Some(i) => s.update(i, (key, value)),
        None => stable_sort(s.push((key, value))),
    }
}

/// The position of the pair that lookup finds: scanning from the front, the
/// first whose key equals `k`, stopping at a key greater than `k`.
pub open spec fn sorted_find<K: PartialOrd, V>(s: Seq<(K, V)>, k: K) -> std::option::Option<int>
    decreases s.len(),
{
    if s.len() == 0 {
        std::option::Option::None
    } else if s[0].0.eq_spec(&k) {
        std::option::Option::Some(0)
    } else if s[0].0.partial_cmp_spec(&k) == std::option::Option::Some(Ordering::Greater) {
        std::option::Option::None
    } else {
        match sorted_find(s.drop_first(), k) {
            std::option::Option::Some(i) => std::option::Option::Some(i + 1),
            std::option::Option::None => std::option::Option::None,
        }
    }
}

/// Where no key before `j` is greater than `k` and the key at `j` (if any)
/// is, `j` is the insertion position.
pub proof fn lemma_insert_pos<K: Ord, V>(s: Seq<(K, V)>, k: K, j: int)
    requires
        0 <= j <= s.len(),
        forall|m: int| 0 <= m < j ==> (#[trigger] s[m]).0.cmp_spec(&k) != Ordering::Greater,
        j < s.len() ==> s[j].0.cmp_spec(&k) == Ordering::Greater,
    ensures
        insert_pos(s, k) == j,
    decreases j,
{
    if j > 0 {
        let t = s.drop_first();
        assert forall|m: int| 0 <= m < j - 1 implies (#[trigger] t[m]).0.cmp_spec(&k) != Ordering::Greater by {
            assert(t[m] == s[m + 1]);
        }
        if j - 1 < t.len() {
            assert(t[j - 1] == s[j]);
        }
        lemma_insert_pos(t, k, j - 1);
    }
}

/// Sort pairs by key, stably.
fn sort_pairs<K: Ord, V>(pairs: Vec<(K, V)>) -> (r: Vec<(K, V)>)
    ensures
        K::obeys_cmp_spec() ==> r@ == stable_sort(pairs@),
{
    let ghost all = pairs@;
    let mut out: Vec<(K, V)> = Vec::new();
    for p in it: pairs.into_iter()
        invariant
            it.seq() == all,
            K::obeys_cmp_spec() ==> out@ == stable_sort(all.take(it.index())),
    {
        let ghost n = it.index();
        assert(p == all[n]);
        let mut j: usize = 0;
        while j < out.len()
            invariant
                j <= out@.len(),
                forall|m: int| 0 <= m < j ==> K::obeys_cmp_spec() ==> (#[trigger] out@[m]).0.cmp_spec(&p.0)
                    != Ordering::Greater,
            ensures
                j <= out@.len(),
                forall|m: int| 0 <= m < j ==> K::obeys_cmp_spec() ==> (#[trigger] out@[m]).0.cmp_spec(&p.0)
                    != Ordering::Greater,
                j < out@.len() ==> K::obeys_cmp_spec() ==> out@[idx(j)].0.cmp_spec(&p.0) == Ordering::Greater,
            decreases out@.len() - j,
        {
            match out[j].0.cmp(&p.0) {
                Ordering::Greater => break,
                _ => {
                    j += 1;
                },
            }
        }
        proof {
            if K::obeys_cmp_spec() {
                lemma_insert_pos(out@, p.0, idx(j));
                let s = all.take(n + 1);
                assert(s.drop_last() =~= all.take(n));
                assert(s.last() == p);
            }
        }
        out.insert(j, p);
    }
    assert(all.take(len_int(all.len())) =~= all);
    out
}

} // verus!

verus! {

/// The pairs of a list, moved into a vector.
fn list_into_pairs<K, V>(l: List<Pair<K, V>>) -> (r: Vec<(K, V)>)
    ensures
        r@ == pairs_seq(l),
{
    let ghost all = pairs_seq(l);
    let ghost ls = l@;
    let mut out: Vec<(K, V)> = Vec::new();
    let mut cur = l;
    loop
        invariant
            all == pairs_seq(l),
            ls == l@,
            out@.len() + cur@.len() == ls.len(),
            cur@ == ls.skip(len_int(out@.len())),
            out@ == all.take(len_int(out@.len())),
        ensures
            out@ == all,
        decreases cur@.len(),
    {
        match cur {
            List::Nil => {
                assert(all.take(len_int(out@.len())) =~= all);
                break;
            },
            List::Cons { head, tail } => {
                let ghost k = len_int(out@.len());
                assert(ls.skip(k)[0] == head);
                assert(ls.skip(k + 1) =~= ls.skip(k).skip(1));
                assert(tail@ =~= (seq![head] + tail@).skip(1));
                assert(all.take(k + 1) =~= all.take(k).push((head.fst, head.snd)));
                out.push((head.fst, head.snd));
                cur = *tail;
            },
        }
    }
    out
}

impl<K, V> SortedMap<K, V> {
    /// The pairs, in order.
    pub open spec fn entries(self) -> Seq<(K, V)> {
        pairs_seq(self.inner)
    }

    /// No pairs.
    pub fn empty() -> (r: SortedMap<K, V>)
        ensures
            r.entries() == Seq::<(K, V)>::empty(),
    {
        SortedMap { inner: crate::assoc_map::AssocMap::empty().inner }
    }

    /// Whether there are no pairs.
    pub fn is_empty(&self) -> (r: bool)
        ensures
            r == (self.entries().len() == 0),
    {
        self.inner.is_nil()
    }

    /// The single pair of `key` and `value`.
    pub fn singleton(key: K, value: V) -> (r: SortedMap<K, V>)
        ensures
            r.entries() == seq![(key, value)],
    {
        SortedMap { inner: crate::assoc_map::AssocMap::singleton(key, value).inner }
    }
}

impl<K: Ord, V> SortedMap<K, V> {
    /// The map of the given pairs, sorted by key (pairs with equal keys keep
    /// their order).
    pub fn from_vec(pairs: Vec<(K, V)>) -> (r: SortedMap<K, V>)
        ensures
            K::obeys_cmp_spec() ==> r.entries() == stable_sort(pairs@),
    {
        let sorted = sort_pairs(pairs);
        SortedMap { inner: crate::assoc_map::AssocMap::from_vec(sorted).inner }
    }

    /// The map with `key` bound to `value`: in place of the first pair with
    /// an equal key, or else added in key order.
    pub fn insert(self, key: K, value: V) -> (r: SortedMap<K, V>)
        ensures
            K::obeys_eq_spec() && K::obeys_cmp_spec() ==> r.entries() == inserted(self.entries(), key, value),
    {
        let ghost es = self.entries();
        let mut pairs = list_into_pairs(self.inner);
        let mut pos: usize = 0;
        let mut found = false;
        while pos < pairs.len()
            invariant_except_break
                !found,
            invariant
                pairs@ == es,
                pos <= pairs@.len(),
                K::obeys_eq_spec() ==> first_key(es.take(idx(pos)), key) is None,
            ensures
                pairs@ == es,
                pos <= pairs@.len(),
                found ==> pos < pairs@.len() && (K::obeys_eq_spec() ==> first_key(es, key) == std::option::Option::Some(
                    idx(pos),
                )),
                !found ==> pos == pairs@.len() && (K::obeys_eq_spec() ==> first_key(es.take(idx(pos)), key) is None),
            decreases pairs@.len() - pos,
        {
            assert(es.take(idx(pos) + 1).drop_last() =~= es.take(idx(pos)));
            if pairs[pos].0.eq(&key) {
                proof {
                    if K::obeys_eq_spec() {
                        lemma_first_key_prefix(es, key, idx(pos) + 1);
                    }
                }
                found = true;
                break;
            }
            pos += 1;
        }
        proof {
            if !found {
                assert(es.take(idx(pos)) =~= es);
            }
        }
        if found {
            pairs.set(pos, (key, value));
            SortedMap { inner: crate::assoc_map::AssocMap::from_vec(pairs).inner }
        } else {
            pairs.push((key, value));
            let sorted = sort_pairs(pairs);
            SortedMap { inner: crate::assoc_map::AssocMap::from_vec(sorted).inner }
        }
    }
}

impl<K: PartialOrd, V: Clone> SortedMap<K, V> {
    /// A copy of the value of the pair that lookup finds: scanning in key
    /// order, the first with a key equal to `key`, stopping at a greater key.
    pub fn get(&self, key: &K) -> (r: Option<V>)
        ensures
            K::obeys_eq_spec() && K::obeys_partial_cmp_spec() ==> lookup_outcome(
                self.entries(),
                sorted_find(self.entries(), *key),
                r,
            ),
    {
        let ghost es = self.entries();
        let mut cur = &self.inner;
        let ghost k: int = 0;
        assert(es.skip(0) =~= es);
        loop
            invariant
                es == self.entries(),
                0 <= k <= es.len(),
                es.len() == self.inner@.len(),
                cur@ == self.inner@.skip(k),
                K::obeys_eq_spec() && K::obeys_partial_cmp_spec() ==> sorted_find(es, *key) == match sorted_find(
                    es.skip(k),
                    *key,
                ) {
                    std::option::Option::Some(i) => std::option::Option::Some(i + k),
                    std::option::Option::None => std::option::Option::None,
                },
            decreases cur@.len(),
        {
            match cur {
                List::Nil => {
                    return None;
                },
                List::Cons { head, tail } => {
                    assert(cur@ == seq![*head] + tail@);
                    assert(self.inner@.skip(k)[0] == *head);
                    assert(es.skip(k)[0] == (head.fst, head.snd));
                    assert(es[k] == (head.fst, head.snd));
                    if head.fst.eq(key) {
                        return Some(head.snd.clone());
                    }
                    if head.fst.gt(key) {
                        return None;
                    }
                    assert(es.skip(k).drop_first() =~= es.skip(k + 1));
                    assert(self.inner@.skip(k + 1) =~= self.inner@.skip(k).skip(1));
                    assert(tail@ =~= (seq![*head] + tail@).skip(1));
                    proof {
                        k = k + 1;
                    }
                    cur = tail;
                },
            }
        }
    }
}

impl<K: Clone, V: Clone> SortedMap<K, V> {
    /// Copies of the pairs, in order.
    pub fn to_vec(&self) -> (r: Vec<(K, V)>)
        ensures
            pair_copies_of(self.entries(), r@),
    {
        to_vec_of(&self.inner)
    }
}

/// Copies of the pairs of a list, in order.
fn to_vec_of<K: Clone, V: Clone>(l: &List<Pair<K, V>>) -> (r: Vec<(K, V)>)
    ensures
        pair_copies_of(pairs_seq(*l), r@),
{
    let mut result: Vec<(K, V)> = Vec::new();
    let mut cur = l;
    let ghost all = l@;
    loop
        invariant
            all == l@,
            result@.len() + cur@.len() == all.len(),
            cur@ == all.skip(len_int(result@.len())),
            forall|i: int| 0 <= i < result@.len() ==> cloned::<K>(all[i].fst, (#[trigger] result@[i]).0) && cloned::<V>(
                all[i].snd,
                result@[i].1,
            ),
        ensures
            result@.len() == all.len(),
            forall|i: int| 0 <= i < result@.len() ==> cloned::<K>(all[i].fst, (#[trigger] result@[i]).0) && cloned::<V>(
                all[i].snd,
                result@[i].1,
            ),
        decreases cur@.len(),
    {
        match cur {
            List::Nil => break,
            List::Cons { head, tail } => {
                let ghost k = len_int(result@.len());
                assert(cur@ == seq![*head] + tail@);
                assert(all.skip(k)[0] == *head);
                assert(all.skip(k + 1) =~= all.skip(k).skip(1));
                assert(tail@ =~= (seq![*head] + tail@).skip(1));
                result.push((head.fst.clone(), head.snd.clone()));
                cur = tail;
            },
        }
    }
    result
}

} // verus!

verus! {

/// `cmp` on `K` is a total order that agrees with `==` and with
/// `partial_cmp`, as the contract of `Ord` asks of every implementation.
pub open spec fn total_order<K: Ord>() -> bool {
    &&& K::obeys_cmp_spec()
    &&& K::obeys_eq_spec()
    &&& K::obeys_partial_cmp_spec()
    &&& forall|a: K, b: K| #[trigger] a.cmp_spec(&b) == Ordering::Greater <==> b.cmp_spec(&a) == Ordering::Less
    &&& forall|a: K, b: K, c: K|
        #![trigger a.cmp_spec(&b), b.cmp_spec(&c)]
        a.cmp_spec(&b) != Ordering::Greater && b.cmp_spec(&c) != Ordering::Greater ==> a.cmp_spec(&c)
            != Ordering::Greater
    &&& forall|a: K, b: K| #[trigger] a.eq_spec(&b) <==> a.cmp_spec(&b) == Ordering::Equal
    &&& forall|a: K, b: K| #[trigger] a.partial_cmp_spec(&b) == std::option::Option::Some(a.cmp_spec(&b))
}

/// No key is greater than a key after it.
pub open spec fn sorted_by_key<K: Ord, V>(s: Seq<(K, V)>) -> bool {
    forall|i: int, j: int| #![trigger s[i], s[j]] 0 <= i < j < s.len() ==> s[i].0.cmp_spec(&s[j].0) != Ordering::Greater
}

/// The keys before the insertion position are not greater than `k`; the key
/// at it, if any, is.
proof fn lemma_insert_pos_facts<K: Ord, V>(s: Seq<(K, V)>, k: K)
    ensures
        0 <= insert_pos(s, k) <= s.len(),
        forall|m: int| 0 <= m < insert_pos(s, k) ==> (#[trigger] s[m]).0.cmp_spec(&k) != Ordering::Greater,
        insert_pos(s, k) < s.len() ==> s[insert_pos(s, k)].0.cmp_spec(&k) == Ordering::Greater,
    decreases s.len(),
{
    if s.len() > 0 && s[0].0.cmp_spec(&k) != Ordering::Greater {
        let t = s.drop_first();
        lemma_insert_pos_facts(t, k);
        assert forall|m: int| 0 <= m < insert_pos(s, k) implies (#[trigger] s[m]).0.cmp_spec(&k)
            != Ordering::Greater by {
            if m > 0 {
                assert(s[m] == t[m - 1]);
            }
        }
        if insert_pos(s, k) < s.len() {
            assert(s[insert_pos(s, k)] == t[insert_pos(t, k)]);
        }
    }
}

/// A key is not greater than itself.
proof fn lemma_cmp_reflexive<K: Ord>(a: K)
    requires
        total_order::<K>(),
    ensures
        a.cmp_spec(&a) == Ordering::Equal,
{
    assert(a.cmp_spec(&a) == Ordering::Greater <==> a.cmp_spec(&a) == Ordering::Less);
}

/// Putting a pair at its insertion position keeps sorted pairs sorted.
proof fn lemma_insert_sorted<K: Ord, V>(t: Seq<(K, V)>, x: (K, V))
    requires
        total_order::<K>(),
        sorted_by_key(t),
    ensures
        sorted_by_key(t.insert(insert_pos(t, x.0), x)),
{
    lemma_insert_pos_facts(t, x.0);
    let p = insert_pos(t, x.0);
    let r = t.insert(p, x);
    assert forall|i: int, j: int| #![trigger r[i], r[j]] 0 <= i < j < r.len() implies r[i].0.cmp_spec(&r[j].0)
        != Ordering::Greater by {
        if j < p {
            assert(r[i] == t[i] && r[j] == t[j]);
        } else if j == p {
            assert(r[i] == t[i]);
        } else if i > p {
            assert(r[i] == t[i - 1] && r[j] == t[j - 1]);
        } else {
            assert(r[j] == t[j - 1]);
            let a = t[p].0;
            let b = t[j - 1].0;
            assert(a.cmp_spec(&x.0) == Ordering::Greater);
            assert(x.0.cmp_spec(&a) == Ordering::Less);
            if j - 1 > p {
                assert(a.cmp_spec(&b) != Ordering::Greater);
            } else {
                lemma_cmp_reflexive(a);
            }
            if i < p {
                assert(r[i] == t[i]);
                assert(t[i].0.cmp_spec(&x.0) != Ordering::Greater);
                assert(t[i].0.cmp_spec(&a) != Ordering::Greater);
            } else {
                assert(r[i] == x);
            }
        }
    }
}

/// Sorting by key keeps the pairs: the sorted pairs are the given ones,
/// each as often, duplicate keys included.
pub proof fn law_stable_sort_permutation<K: Ord, V>(s: Seq<(K, V)>)
    ensures
        stable_sort(s).to_multiset() =~= s.to_multiset(),
    decreases s.len(),
{
    broadcast use vstd::seq_lib::group_to_multiset_ensures;

    if s.len() > 0 {
        let p0 = s.drop_last();
        let x = s.last();
        law_stable_sort_permutation(p0);
        let t = stable_sort(p0);
        lemma_insert_pos_facts(t, x.0);
        let k = insert_pos(t, x.0);
        let a = t.subrange(0, k);
        let b = t.skip(k);
        assert(t.insert(k, x) =~= (a + seq![x]) + b);
        assert(t =~= a + b);
        vstd::seq_lib::lemma_multiset_commutative(a + seq![x], b);
        vstd::seq_lib::lemma_multiset_commutative(a, seq![x]);
        vstd::seq_lib::lemma_multiset_commutative(a, b);
        assert(s =~= p0.push(x));
        assert(seq![x] =~= Seq::<(K, V)>::empty().push(x));
    }
}

/// Whether a pair's key equals `k` by the key type's comparison.
pub open spec fn key_is<K: Ord, V>(k: K) -> spec_fn((K, V)) -> bool {
    |p: (K, V)| p.0.cmp_spec(&k) == Ordering::Equal
}

/// Keeping only what none of the elements satisfies keeps nothing.
proof fn lemma_filter_none<A>(s: Seq<A>, f: spec_fn(A) -> bool)
    requires
        forall|i: int| 0 <= i < s.len() ==> !f(#[trigger] s[i]),
    ensures
        s.filter(f) =~= Seq::<A>::empty(),
    decreases s.len(),
{
    reveal(Seq::filter);
    if s.len() > 0 {
        let p = s.drop_last();
        assert forall|i: int| 0 <= i < p.len() implies !f(#[trigger] p[i]) by {
            assert(p[i] == s[i]);
        }
        lemma_filter_none(p, f);
    }
}

/// Keeping from one element what satisfies `f`.
proof fn lemma_filter_one<A>(x: A, f: spec_fn(A) -> bool)
    ensures
        seq![x].filter(f) =~= if f(x) {
            seq![x]
        } else {
            Seq::<A>::empty()
        },
{
    reveal(Seq::filter);
    assert(seq![x].drop_last() =~= Seq::<A>::empty());
    lemma_filter_none(Seq::<A>::empty(), f);
}

/// Sorting by key is stable: the pairs whose key equals any given key come
/// out in the order in which they were given.
pub proof fn law_stable_sort_stable<K: Ord, V>(s: Seq<(K, V)>, k: K)
    requires
        total_order::<K>(),
    ensures
        stable_sort(s).filter(key_is::<K, V>(k)) =~= s.filter(key_is::<K, V>(k)),
    decreases s.len(),
{
    broadcast use Seq::filter_distributes_over_add;

    if s.len() > 0 {
        let f = key_is::<K, V>(k);
        let p0 = s.drop_last();
        let x = s.last();
        law_stable_sort_stable(p0, k);
        law_stable_sort_sorted(p0);
        let t = stable_sort(p0);
        lemma_insert_pos_facts(t, x.0);
        let pos = insert_pos(t, x.0);
        let a = t.subrange(0, pos);
        let b = t.skip(pos);
        assert(t.insert(pos, x) =~= (a + seq![x]) + b);
        assert(t =~= a + b);
        assert(s =~= p0 + seq![x]);
        lemma_filter_one(x, f);
        if f(x) {
            assert forall|j: int| 0 <= j < b.len() implies !f(#[trigger] b[j]) by {
                let y = b[j];
                assert(y == t[pos + j]);
                if j > 0 {
                    assert(t[pos].0.cmp_spec(&t[pos + j].0) != Ordering::Greater);
                }
                if f(y) {
                    assert(k.cmp_spec(&x.0) == Ordering::Equal) by {
                        assert(x.0.cmp_spec(&k) == Ordering::Greater <==> k.cmp_spec(&x.0) == Ordering::Less);
                        assert(k.cmp_spec(&x.0) == Ordering::Greater <==> x.0.cmp_spec(&k) == Ordering::Less);
                    }
                    assert(y.0.cmp_spec(&x.0) != Ordering::Greater);
                    assert(t[pos].0.cmp_spec(&x.0) != Ordering::Greater);
                }
            }
            lemma_filter_none(b, f);
        }
    }
}

/// Sorting by key gives pairs in key order, as many as were sorted: a map
/// made from pairs holds its keys in increasing order.
pub proof fn law_stable_sort_sorted<K: Ord, V>(s: Seq<(K, V)>)
    requires
        total_order::<K>(),
    ensures
        sorted_by_key(stable_sort(s)),
        stable_sort(s).len() == s.len(),
    decreases s.len(),
{
    if s.len() > 0 {
        law_stable_sort_sorted(s.drop_last());
        lemma_insert_pos_facts(stable_sort(s.drop_last()), s.last().0);
        lemma_insert_sorted(stable_sort(s.drop_last()), s.last());
    }
}

/// A sorted map made from pairs, read back with `to_vec` where cloning keys
/// and values is exact, gives the same pairs, each as often (duplicate keys
/// kept), in key order, with the pairs of any one key in their given order.
pub proof fn law_sorted_from_vec_to_vec<K: Ord + Clone, V: Clone>(
    pairs: Seq<(K, V)>,
    m: SortedMap<K, V>,
    copies: Seq<(K, V)>,
)
    requires
        total_order::<K>(),
        clones_exactly::<K>(),
        clones_exactly::<V>(),
        m.entries() == stable_sort(pairs),
        pair_copies_of(m.entries(), copies),
    ensures
        copies.len() == pairs.len(),
        copies.to_multiset() == pairs.to_multiset(),
        sorted_by_key(copies),
        forall|k: K| copies.filter(key_is::<K, V>(k)) == #[trigger] pairs.filter(key_is::<K, V>(k)),
{
    assert(copies =~= stable_sort(pairs));
    law_stable_sort_permutation(pairs);
    law_stable_sort_sorted(pairs);
    assert forall|k: K| copies.filter(key_is::<K, V>(k)) == #[trigger] pairs.filter(key_is::<K, V>(k)) by {
        law_stable_sort_stable(pairs, k);
    }
}

/// Pairs already in key order sort to themselves.
proof fn lemma_sorted_stable_sort_id<K: Ord, V>(s: Seq<(K, V)>)
    requires
        total_order::<K>(),
        sorted_by_key(s),
    ensures
        stable_sort(s) == s,
    decreases s.len(),
{
    if s.len() > 0 {
        let t = s.drop_last();
        assert(sorted_by_key(t)) by {
            assert forall|i: int, j: int| #![trigger t[i], t[j]] 0 <= i < j < t.len() implies t[i].0.cmp_spec(&t[j].0)
                != Ordering::Greater by {
                assert(t[i] == s[i] && t[j] == s[j]);
            }
        }
        lemma_sorted_stable_sort_id(t);
        assert forall|m: int| 0 <= m < t.len() implies (#[trigger] t[m]).0.cmp_spec(&s.last().0)
            != Ordering::Greater by {
            assert(t[m] == s[m] && s.last() == s[s.len() - 1]);
        }
        lemma_insert_pos(t, s.last().0, len_int(t.len()));
        assert(t.insert(len_int(t.len()), s.last()) =~= s);
    }
}

/// Scanning finds the pair at `p` where no key before it equals `k` or is
/// greater, and its own key equals `k`.
proof fn lemma_sorted_find_at<K: PartialOrd, V>(s: Seq<(K, V)>, k: K, p: int)
    requires
        0 <= p < s.len(),
        forall|m: int|
            0 <= m < p ==> !(#[trigger] s[m]).0.eq_spec(&k) && s[m].0.partial_cmp_spec(&k)
                != std::option::Option::Some(Ordering::Greater),
        s[p].0.eq_spec(&k),
    ensures
        sorted_find(s, k) == std::option::Option::Some(p),
    decreases p,
{
    if p > 0 {
        let t = s.drop_first();
        assert(s[0].0.partial_cmp_spec(&k) != std::option::Option::Some(Ordering::Greater));
        assert forall|m: int| 0 <= m < p - 1 implies !(#[trigger] t[m]).0.eq_spec(&k) && t[m].0.partial_cmp_spec(&k)
            != std::option::Option::Some(Ordering::Greater) by {
            assert(t[m] == s[m + 1]);
        }
        assert(t[p - 1] == s[p]);
        lemma_sorted_find_at(t, k, p - 1);
    }
}

/// Inserting into a sorted map (what `insert` gives) keeps its keys in
/// order, and looking the key up afterwards finds the pair that was
/// inserted; a bound key has its first pair replaced in place, the others and
/// the size kept; a new key adds its pair to the others, which are all kept.
pub proof fn law_sorted_insert_then_get<K: Ord, V>(s: Seq<(K, V)>, key: K, value: V)
    requires
        total_order::<K>(),
        sorted_by_key(s),
    ensures
        ({
            let r = inserted(s, key, value);
            &&& sorted_by_key(r)
            &&& sorted_find(r, key) matches Some(i) && r[i] == (key, value)
            &&& first_key(s, key) matches Some(i) ==> r.len() == s.len() && r == s.update(i, (key, value))
            &&& first_key(s, key) is None ==> r.len() == s.len() + 1 && r.to_multiset() =~= s.push(
                (key, value),
            ).to_multiset()
        }),
{
    law_stable_sort_permutation(s.push((key, value)));
    law_stable_sort_sorted(s.push((key, value)));
    lemma_first_key_facts(s, key);
    lemma_cmp_reflexive(key);
    match first_key(s, key) {
        std::option::Option::Some(i) => {
            let r = s.update(i, (key, value));
            let a = s[i].0;
            assert(a.cmp_spec(&key) == Ordering::Equal);
            assert(key.cmp_spec(&a) == Ordering::Equal) by {
                assert(a.cmp_spec(&key) == Ordering::Greater <==> key.cmp_spec(&a) == Ordering::Less);
                assert(key.cmp_spec(&a) == Ordering::Greater <==> a.cmp_spec(&key) == Ordering::Less);
            }
            assert forall|m: int, j: int| #![trigger r[m], r[j]] 0 <= m < j < r.len() implies r[m].0.cmp_spec(&r[j].0)
                != Ordering::Greater by {
                if m == i {
                    assert(s[i].0.cmp_spec(&s[j].0) != Ordering::Greater);
                } else if j == i {
                    assert(s[m].0.cmp_spec(&s[i].0) != Ordering::Greater);
                } else {
                    assert(r[m] == s[m] && r[j] == s[j]);
                }
            }
            assert forall|m: int| 0 <= m < i implies !(#[trigger] r[m]).0.eq_spec(&key) && r[m].0.partial_cmp_spec(&key)
                != std::option::Option::Some(Ordering::Greater) by {
                assert(r[m] == s[m]);
                assert(s[m].0.cmp_spec(&s[i].0) != Ordering::Greater);
            }
            lemma_sorted_find_at(r, key, i);
        },
        std::option::Option::None => {
            let x = (key, value);
            let sp = s.push(x);
            assert(sp.drop_last() =~= s);
            lemma_sorted_stable_sort_id(s);
            lemma_insert_pos_facts(s, key);
            lemma_insert_sorted(s, x);
            let p = insert_pos(s, key);
            let r = s.insert(p, x);
            assert(stable_sort(sp) == r);
            assert forall|m: int| 0 <= m < p implies !(#[trigger] r[m]).0.eq_spec(&key) && r[m].0.partial_cmp_spec(&key)
                != std::option::Option::Some(Ordering::Greater) by {
                assert(r[m] == s[m]);
            }
            lemma_sorted_find_at(r, key, p);
        },
    }
}

} // verus!
