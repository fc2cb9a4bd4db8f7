//! The on-chain association list: key-value pairs in order, kept in Data as
//! a Data map.
use crate::list::{List, clones_exactly};
use crate::pair::Pair;
use vstd::prelude::*;
use vstd::std_specs::cmp::PartialEqSpec;

verus! {

/// Key-value pairs, looked up from the front.
#[derive(Debug, PartialEq)]
pub struct AssocMap<K, V> {
    pub inner: List<Pair<K, V>>,
}

/// The pairs of a list of pairs, as tuples.
pub open spec fn pairs_seq<K, V>(l: List<Pair<K, V>>) -> Seq<(K, V)> {
    l@.map_values(|p: Pair<K, V>| (p.fst, p.snd))
}

/// `r` holds, one for one and in order, copies of the pairs of `s`.
pub open spec fn pair_copies_of<K: Clone, V: Clone>(s: Seq<(K, V)>, r: Seq<(K, V)>) -> bool {
    &&& r.len() == s.len()
    &&& forall|i: int|
        0 <= i < s.len() ==> cloned::<K>(s[i].0, (#[trigger] r[i]).0) && cloned::<V>(s[i].1, r[i].1)
}

impl<K, V> AssocMap<K, V> {
    /// The pairs, in order.
    pub open spec fn entries(self) -> Seq<(K, V)> {
        pairs_seq(self.inner)
    }

    /// No pairs.
    pub fn empty() -> (r: AssocMap<K, V>)
        ensures
            r.entries() == Seq::<(K, V)>::empty(),
    {
        let r = AssocMap { inner: List::Nil };
        assert(r.entries() =~= Seq::<(K, V)>::empty());
        r
    }

    /// The single pair of `key` and `value`.
    pub fn singleton(key: K, value: V) -> (r: AssocMap<K, V>)
        ensures
            r.entries() == seq![(key, value)],
    {
        let nil: List<Pair<K, V>> = List::Nil;
        assert(nil@ =~= Seq::<Pair<K, V>>::empty());
        let p = Pair::new(key, value);
        let l = List::Cons { head: p, tail: Box::new(nil) };
        assert(l@ =~= seq![p]);
        let r = AssocMap { inner: l };
        assert(r.entries() =~= seq![(key, value)]);
        r
    }

    /// Whether there are no pairs.
    pub fn is_empty(&self) -> (r: bool)
        ensures
            r == (self.entries().len() == 0),
    {
        self.inner.is_nil()
    }

    /// The map of the given pairs, in order.
    pub fn from_vec(pairs: Vec<(K, V)>) -> (r: AssocMap<K, V>)
        ensures
            r.entries() == pairs@,
    {
        let ghost all = pairs@;
        let mut ps: Vec<Pair<K, V>> = Vec::new();
        for p in it: pairs.into_iter()
            invariant
                it.seq() == all,
                ps@.len() == it.index(),
                forall|i: int| 0 <= i < it.index() ==> (#[trigger] ps@[i]).fst == all[i].0 && ps@[i].snd == all[i].1,
        {
            ps.push(Pair::new(p.0, p.1));
        }
        let inner = List::from_vec(ps);
        let r = AssocMap { inner };
        assert(r.entries() =~= all);
        r
    }
}

impl<K: Clone, V: Clone> AssocMap<K, V> {
    /// Copies of the pairs, in order.
    pub fn to_vec(&self) -> (r: Vec<(K, V)>)
        ensures
            pair_copies_of(self.entries(), r@),
    {
        let mut result: Vec<(K, V)> = Vec::new();
        let mut cur = &self.inner;
        let ghost all = self.inner@;
        loop
            invariant
                all == self.inner@,
                result@.len() + cur@.len() == all.len(),
                cur@ == all.skip(result@.len() as int),
                forall|i: int| 0 <= i < result@.len() ==> cloned::<K>(all[i].fst, (#[trigger] result@[i]).0) && cloned::<V>(
                    all[i].snd,
                    result@[i].1,
                ),
            ensures
                result@.len() == all.len(),
                forall|i: int| 0 <= i < result@.len() ==> cloned::<K>(all[i].fst, (#[trigger] result@[i]).0) && cloned::<V>(
                    all[i].snd,
                    result@[i].1,
                ),
            decreases cur@.len(),
        {
            match cur {
                List::Nil => break,
                List::Cons { head, tail } => {
                    let ghost k = result@.len() as int;
                    assert(cur@ == seq![*head] + tail@);
                    assert(all.skip(k)[0] == *head);
                    assert(all.skip(k + 1) =~= all.skip(k).skip(1));
                    assert(tail@ =~= (seq![*head] + tail@).skip(1));
                    result.push((head.fst.clone(), head.snd.clone()));
                    cur = tail;
                },
            }
        }
        result
    }
}

/// What a lookup that found the pair at `found` (or none) gives back: a copy
/// of that pair's value, or nothing.
pub open spec fn lookup_outcome<K, V: Clone>(s: Seq<(K, V)>, found: Option<int>, r: Option<V>) -> bool {
    match found {
        Some(i) => r matches Some(value) && cloned::<V>(s[i].1, value),
        None => r is None,
    }
}

/// The position of the first pair whose key equals `key`.
pub open spec fn first_key<K: PartialEq, V>(s: Seq<(K, V)>, key: K) -> std::option::Option<int>
    decreases s.len(),
{
    if s.len() == 0 {
        std::option::Option::None
    } else {
        match first_key(s.drop_last(), key) {
            std::option::Option::Some(i) => std::option::Option::Some(i),
            std::option::Option::None => if s.last().0.eq_spec(&key) {
                std::option::Option::Some(s.len() - 1)
            } else {
                std::option::Option::None
            },
        }
    }
}

impl<K: PartialEq + Clone, V: Clone> AssocMap<K, V> {
    /// A copy of the value of the first pair whose key equals `key`.
    pub fn get(&self, key: &K) -> (r: Option<V>)
        ensures
            K::obeys_eq_spec() ==> lookup_outcome(self.entries(), first_key(self.entries(), *key), r),
    {
        let ghost es = self.entries();
        let mut cur = &self.inner;
        let ghost k: int = 0;
        loop
            invariant
                es == self.entries(),
                0 <= k <= es.len(),
                cur@ == self.inner@.skip(k),
                es.len() == self.inner@.len(),
                K::obeys_eq_spec() ==> first_key(es.take(k), *key) is None,
            decreases cur@.len(),
        {
            match cur {
                List::Nil => {
                    assert(es.take(k) =~= es);
                    return None;
                },
                List::Cons { head, tail } => {
                    assert(cur@ == seq![*head] + tail@);
                    assert(self.inner@.skip(k)[0] == *head);
                    assert(es[k] == (head.fst, head.snd));
                    assert(es.take(k + 1).drop_last() =~= es.take(k));
                    if head.fst.eq(key) {
                        proof {
                            if K::obeys_eq_spec() {
                                lemma_first_key_prefix(es, *key, k + 1);
                            }
                        }
                        return Some(head.snd.clone());
                    }
                    assert(self.inner@.skip(k + 1) =~= self.inner@.skip(k).skip(1));
                    assert(tail@ =~= (seq![*head] + tail@).skip(1));
                    proof {
                        k = k + 1;
                    }
                    cur = tail;
                },
            }
        }
    }

    /// Whether some pair's key equals `key`.
    pub fn contains_key(&self, key: &K) -> (r: bool)
        ensures
            K::obeys_eq_spec() ==> (r <==> has_key(self.entries(), *key)),
    {
        let r = self.get(key).is_some();
        proof {
            lemma_first_key_facts(self.entries(), *key);
        }
        r
    }
}

/// What `first_key` finds: the first pair whose key equals `k`, or none.
pub proof fn lemma_first_key_facts<K: PartialEq, V>(s: Seq<(K, V)>, k: K)
    ensures
        first_key(s, k) is None ==> forall|m: int| 0 <= m < s.len() ==> !(#[trigger] s[m]).0.eq_spec(&k),
        first_key(s, k) matches Some(i) ==> 0 <= i < s.len() && s[i].0.eq_spec(&k) && forall|
            m: int,
        | 0 <= m < i ==> !(#[trigger] s[m]).0.eq_spec(&k),
    decreases s.len(),
{
    if s.len() > 0 {
        let t = s.drop_last();
        lemma_first_key_facts(t, k);
        assert forall|m: int| 0 <= m < t.len() implies #[trigger] s[m] == t[m] by {}
    }
}

/// Some pair's key equals `key`.
pub open spec fn has_key<K: PartialEq, V>(s: Seq<(K, V)>, key: K) -> bool {
    exists|i: int| 0 <= i < s.len() && #[trigger] s[i].0.eq_spec(&key)
}

/// Where `==` on `K` is what its specification says, `contains_key` answers
/// true exactly when `get` finds a value: both look for a pair whose key
/// equals the key asked for; and, where cloning is exact, exactly when some
/// pair that `to_vec` gives has that key.
pub proof fn law_contains_key_agrees_with_get<K: PartialEq + Clone, V: Clone>(
    m: AssocMap<K, V>,
    key: K,
    contained: bool,
    got: Option<V>,
)
    requires
        K::obeys_eq_spec(),
        contained <==> has_key(m.entries(), key),
        lookup_outcome(m.entries(), first_key(m.entries(), key), got),
    ensures
        contained == got is Some,
        forall|copies: Seq<(K, V)>|
            clones_exactly::<K>() && clones_exactly::<V>() && pair_copies_of(m.entries(), copies) ==> (
            #[trigger] has_key(copies, key) <==> contained),
{
    lemma_first_key_facts(m.entries(), key);
    assert forall|copies: Seq<(K, V)>|
        clones_exactly::<K>() && clones_exactly::<V>() && pair_copies_of(m.entries(), copies) implies (
        #[trigger] has_key(copies, key) <==> contained) by {
        assert(copies =~= m.entries());
    }
}

/// Where cloning keys and values is exact, the copies of pairs are the pairs
/// themselves: `AssocMap::from_vec(p).to_vec()` is `p`, in its order and with
/// every duplicate key kept (and so the empty map gives no pair, a singleton
/// its one pair).
pub proof fn law_assoc_from_vec_to_vec<K: Clone, V: Clone>(
    pairs: Seq<(K, V)>,
    m: AssocMap<K, V>,
    copies: Seq<(K, V)>,
)
    requires
        clones_exactly::<K>(),
        clones_exactly::<V>(),
        m.entries() == pairs,
        pair_copies_of(m.entries(), copies),
    ensures
        copies == pairs,
{
    assert(copies =~= pairs);
}

/// A match found in a prefix is the first match of the whole.
pub proof fn lemma_first_key_prefix<K: PartialEq, V>(s: Seq<(K, V)>, key: K, n: int)
    requires
        0 <= n <= s.len(),
        first_key(s.take(n), key) is Some,
    ensures
        first_key(s, key) == first_key(s.take(n), key),
    decreases s.len(),
{
    if n < s.len() {
        assert(s.drop_last().take(n) =~= s.take(n));
        lemma_first_key_prefix(s.drop_last(), key, n);
    } else {
        assert(s.take(n) =~= s);
    }
}

} // verus!
