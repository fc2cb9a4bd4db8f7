//! A map keyed by names, kept sorted by key: the symbol tables of the
//! compiler (data declarations, functions, variable types, annotations).
use crate::text::{lemma_seq_lt_irreflexive, lemma_seq_lt_total, lemma_seq_lt_transitive, seq_lt, str_eq, str_lt};
use vstd::prelude::*;

verus! {

/// Keys strictly increase along the entries (so no key occurs twice).
pub open spec fn keys_sorted<V>(e: Seq<(String, V)>) -> bool {
    forall|i: int, j: int| 0 <= i < j < e.len() ==> seq_lt(#[trigger] e[i].0@, #[trigger] e[j].0@)
}

/// A map from names to values, with its entries in increasing key order.
#[derive(Debug, PartialEq)]
pub struct NameMap<V> {
    pub entries: Vec<(String, V)>,
}

impl<V> NameMap<V> {
    /// The entries, in key order.
    pub open spec fn entries_spec(&self) -> Seq<(String, V)> {
        self.entries@
    }

    /// The map is well formed: its keys are sorted.
    pub open spec fn wf(&self) -> bool {
        keys_sorted(self.entries_spec())
    }

    /// The key `k` is bound.
    pub open spec fn contains(&self, k: Seq<char>) -> bool {
        exists|i: int| 0 <= i < self.entries_spec().len() && #[trigger] self.entries_spec()[i].0@ == k
    }

    /// The key `k` is bound to `v`.
    pub open spec fn has_entry(&self, k: Seq<char>, v: V) -> bool {
        exists|i: int|
            0 <= i < self.entries_spec().len() && #[trigger] self.entries_spec()[i].0@ == k
                && self.entries_spec()[i].1 == v
    }

    /// In a well-formed map a key is bound to at most one value.
    pub proof fn lemma_functional(&self, k: Seq<char>, v1: V, v2: V)
        requires
            self.wf(),
            self.has_entry(k, v1),
            self.has_entry(k, v2),
        ensures
            v1 == v2,
    {
        let e = self.entries_spec();
        let i = choose|i: int| 0 <= i < e.len() && #[trigger] e[i].0@ == k && e[i].1 == v1;
        let j = choose|j: int| 0 <= j < e.len() && #[trigger] e[j].0@ == k && e[j].1 == v2;
        if i < j {
            assert(seq_lt(e[i].0@, e[j].0@));
            lemma_seq_lt_irreflexive(k);
        } else if j < i {
            assert(seq_lt(e[j].0@, e[i].0@));
            lemma_seq_lt_irreflexive(k);
        }
    }

    /// The empty map.
    pub fn new() -> (r: NameMap<V>)
        ensures
            r.wf(),
            r.entries_spec().len() == 0,
            forall|k: Seq<char>| !r.contains(k),
    {
        NameMap { entries: Vec::new() }
    }

    /// The number of entries.
    pub fn len(&self) -> (r: usize)
        ensures
            r == self.entries_spec().len(),
    {
        self.entries.len()
    }

    /// The map has no entry.
    pub fn is_empty(&self) -> (r: bool)
        ensures
            r == (self.entries_spec().len() == 0),
    {
        self.entries.len() == 0
    }

    /// The entry at position `i` in key order.
    pub fn entry(&self, i: usize) -> (r: (&String, &V))
        requires
            i < self.entries_spec().len(),
        ensures
            *r.0 == self.entries_spec()[i as int].0,
            *r.1 == self.entries_spec()[i as int].1,
    {
        let e = &self.entries[i];
        (&e.0, &e.1)
    }

    /// The value bound to `k`, if any.
    pub fn get(&self, k: &str) -> (r: Option<&V>)
        requires
            self.wf(),
        ensures
            r is None <==> !self.contains(k@),
            r matches Some(v) ==> self.has_entry(k@, *v),
    {
        let mut i: usize = 0;
        while i < self.entries.len()
            invariant
                0 <= i <= self.entries_spec().len(),
                forall|j: int| 0 <= j < i ==> #[trigger] self.entries_spec()[j].0@ != k@,
            decreases self.entries_spec().len() - i,
        {
            if str_eq(self.entries[i].0.as_str(), k) {
                return Some(&self.entries[i].1);
            }
            i += 1;
        }
        None
    }

    /// Binds `k` to `v`, replacing any value that `k` had.
    pub fn insert(&mut self, k: String, v: V)
        requires
            old(self).wf(),
        ensures
            final(self).wf(),
            final(self).has_entry(k@, v),
            forall|k2: Seq<char>, x: V|
                k2 != k@ ==> (final(self).has_entry(k2, x) <==> old(self).has_entry(k2, x)),
            forall|k2: Seq<char>|
                final(self).contains(k2) <==> (old(self).contains(k2) || k2 == k@),
    {
        let ghost old_e = self.entries@;
        let mut i: usize = 0;
        while i < self.entries.len()
            invariant
                self.entries@ == old_e,
                keys_sorted(old_e),
                0 <= i <= old_e.len(),
                forall|j: int| 0 <= j < i ==> seq_lt(#[trigger] old_e[j].0@, k@),
            ensures
                self.entries@ == old_e,
                0 <= i <= old_e.len(),
                forall|j: int| 0 <= j < i ==> seq_lt(#[trigger] old_e[j].0@, k@),
                i < old_e.len() ==> !seq_lt(old_e[i as int].0@, k@),
            decreases old_e.len() - i,
        {
            if !str_lt(self.entries[i].0.as_str(), k.as_str()) {
                break;
            }
            i += 1;
        }
        if i < self.entries.len() && str_eq(self.entries[i].0.as_str(), k.as_str()) {
            let ghost key = k@;
            self.entries.set(i, (k, v));
            proof {
                let e = self.entries_spec();
                assert(e[i as int].0@ == key);
                assert(e[i as int].1 == v);
                assert forall|a: int, b: int| 0 <= a < b < e.len() implies seq_lt(
                    #[trigger] e[a].0@,
                    #[trigger] e[b].0@,
                ) by {
                    assert(old_e[a].0@ == e[a].0@ || a == i);
                    assert(old_e[b].0@ == e[b].0@ || b == i);
                }
                assert(self.has_entry(key, v));
                assert forall|k2: Seq<char>, x: V| k2 != key implies (self.has_entry(k2, x)
                    <==> old(self).has_entry(k2, x)) by {
                    if self.has_entry(k2, x) {
                        let j = choose|j: int| 0 <= j < e.len() && #[trigger] e[j].0@ == k2 && e[j].1 == x;
                        assert(old_e[j] == e[j]);
                    }
                    if old(self).has_entry(k2, x) {
                        let j = choose|j: int|
                            0 <= j < old_e.len() && #[trigger] old_e[j].0@ == k2 && old_e[j].1 == x;
                        assert(old_e[j] == e[j]);
                    }
                }
                assert forall|k2: Seq<char>| self.contains(k2) <==> (old(self).contains(k2) || k2 == key) by {
                    if self.contains(k2) {
                        let j = choose|j: int| 0 <= j < e.len() && #[trigger] e[j].0@ == k2;
                        if j != i {
                            assert(old_e[j] == e[j]);
                        }
                    }
                    if old(self).contains(k2) {
                        let j = choose|j: int| 0 <= j < old_e.len() && #[trigger] old_e[j].0@ == k2;
                        if j != i {
                            assert(old_e[j] == e[j]);
                        } else {
                            assert(e[j].0@ == k2);
                        }
                    }
                    if k2 == key {
                        assert(e[i as int].0@ == k2);
                    }
                }
            }
        } else {
            let ghost key = k@;
            proof {
                if i < old_e.len() {
                    lemma_seq_lt_total(old_e[i as int].0@, key);
                }
            }
            self.entries.insert(i, (k, v));
            proof {
                let e = self.entries_spec();
                assert(e == old_e.insert(i as int, (e[i as int].0, v)));
                assert(e[i as int].0@ == key);
                assert(e[i as int].1 == v);
                assert forall|a: int, b: int| 0 <= a < b < e.len() implies seq_lt(
                    #[trigger] e[a].0@,
                    #[trigger] e[b].0@,
                ) by {
                    if b < i {
                        assert(e[a] == old_e[a] && e[b] == old_e[b]);
                    } else if b == i {
                        assert(e[a] == old_e[a]);
                    } else if a == i {
                        assert(e[b] == old_e[b - 1]);
                        if b - 1 > i {
                            assert(seq_lt(old_e[i as int].0@, old_e[b - 1].0@));
                            lemma_seq_lt_transitive(key, old_e[i as int].0@, old_e[b - 1].0@);
                        }
                    } else if a < i {
                        assert(e[a] == old_e[a] && e[b] == old_e[b - 1]);
                        if a < b - 1 {
                        } else {
                        }
                        if b - 1 >= i {
                            assert(seq_lt(old_e[a].0@, key));
                            if b - 1 > i {
                                assert(seq_lt(old_e[i as int].0@, old_e[b - 1].0@));
                                lemma_seq_lt_transitive(key, old_e[i as int].0@, old_e[b - 1].0@);
                            }
                            lemma_seq_lt_transitive(old_e[a].0@, key, old_e[b - 1].0@);
                        }
                    } else {
                        assert(e[a] == old_e[a - 1] && e[b] == old_e[b - 1]);
                    }
                }
                assert forall|j: int| 0 <= j < old_e.len() implies #[trigger] old_e[j].0@ != key by {
                    if j < i {
                        lemma_seq_lt_irreflexive(key);
                    } else {
                        if j > i {
                            assert(seq_lt(old_e[i as int].0@, old_e[j].0@));
                            lemma_seq_lt_transitive(key, old_e[i as int].0@, old_e[j].0@);
                            lemma_seq_lt_irreflexive(key);
                        }
                    }
                }
                assert(self.has_entry(key, v));
                assert forall|k2: Seq<char>, x: V| k2 != key implies (self.has_entry(k2, x)
                    <==> old(self).has_entry(k2, x)) by {
                    if self.has_entry(k2, x) {
                        let j = choose|j: int| 0 <= j < e.len() && #[trigger] e[j].0@ == k2 && e[j].1 == x;
                        if j < i {
                            assert(old_e[j] == e[j]);
                        } else {
                            assert(old_e[j - 1] == e[j]);
                        }
                    }
                    if old(self).has_entry(k2, x) {
                        let j = choose|j: int|
                            0 <= j < old_e.len() && #[trigger] old_e[j].0@ == k2 && old_e[j].1 == x;
                        if j < i {
                            assert(old_e[j] == e[j]);
                        } else {
                            assert(old_e[j] == e[j + 1]);
                        }
                    }
                }
                assert forall|k2: Seq<char>| self.contains(k2) <==> (old(self).contains(k2) || k2 == key) by {
                    if self.contains(k2) {
                        let j = choose|j: int| 0 <= j < e.len() && #[trigger] e[j].0@ == k2;
                        if j < i {
                            assert(old_e[j] == e[j]);
                        } else if j > i {
                            assert(old_e[j - 1] == e[j]);
                        }
                    }
                    if old(self).contains(k2) {
                        let j = choose|j: int| 0 <= j < old_e.len() && #[trigger] old_e[j].0@ == k2;
                        if j < i {
                            assert(old_e[j] == e[j]);
                        } else {
                            assert(old_e[j] == e[j + 1]);
                        }
                    }
                    if k2 == key {
                        assert(e[i as int].0@ == k2);
                    }
                }
            }
        }
    }

    /// The entries, in key order.
    pub fn into_entries(self) -> (r: Vec<(String, V)>)
        ensures
            r@ == self.entries_spec(),
    {
        self.entries
    }

    /// The map with the given entries, which must be in increasing key order.
    pub fn from_sorted_entries(entries: Vec<(String, V)>) -> (r: NameMap<V>)
        requires
            keys_sorted(entries@),
        ensures
            r.entries_spec() == entries@,
            r.wf(),
    {
        NameMap { entries }
    }
}

} // verus!

verus! {

/// The value of the last entry with key `k` in a sequence of entries.
pub open spec fn assoc_last<M>(m: Seq<(Seq<char>, M)>, k: Seq<char>) -> Option<M>
    decreases m.len(),
{
    if m.len() == 0 {
        None
    } else if m[m.len() - 1].0 == k {
        Some(m[m.len() - 1].1)
    } else {
        assoc_last(m.subrange(0, m.len() - 1), k)
    }
}

/// Keys strictly increase along a sequence of modelled entries.
pub open spec fn sorted_keys_m<M>(m: Seq<(Seq<char>, M)>) -> bool {
    forall|i: int, j: int| 0 <= i < j < m.len() ==> seq_lt(#[trigger] m[i].0, #[trigger] m[j].0)
}

/// In sorted entries, the entry with key `k` is the one that lookup finds.
pub proof fn lemma_assoc_last_at<M>(m: Seq<(Seq<char>, M)>, i: int)
    requires
        sorted_keys_m(m),
        0 <= i < m.len(),
    ensures
        assoc_last(m, m[i].0) == Some(m[i].1),
    decreases m.len(),
{
    if i < m.len() - 1 {
        assert(seq_lt(m[i].0, m[m.len() - 1].0));
        if m[m.len() - 1].0 == m[i].0 {
            lemma_seq_lt_irreflexive(m[i].0);
        }
        let p = m.subrange(0, m.len() - 1);
        assert(p[i] == m[i]);
        lemma_assoc_last_at(p, i);
    }
}

/// Lookup finds nothing where no entry has the key.
pub proof fn lemma_assoc_last_none<M>(m: Seq<(Seq<char>, M)>, k: Seq<char>)
    requires
        forall|i: int| 0 <= i < m.len() ==> #[trigger] m[i].0 != k,
    ensures
        assoc_last(m, k) is None,
    decreases m.len(),
{
    if m.len() > 0 {
        let p = m.subrange(0, m.len() - 1);
        assert forall|i: int| 0 <= i < p.len() implies #[trigger] p[i].0 != k by {
            assert(p[i] == m[i]);
        }
        lemma_assoc_last_none(p, k);
    }
}

impl<V> NameMap<V> {
    /// The position of the entry with key `k`, if any.
    pub fn index_of(&self, k: &str) -> (r: Option<usize>)
        ensures
            r matches Some(i) ==> i < self.entries_spec().len() && self.entries_spec()[i as int].0@
                == k@,
            r is None ==> forall|i: int|
                0 <= i < self.entries_spec().len() ==> #[trigger] self.entries_spec()[i].0@ != k@,
    {
        let mut i: usize = 0;
        while i < self.entries.len()
            invariant
                0 <= i <= self.entries_spec().len(),
                forall|j: int| 0 <= j < i ==> #[trigger] self.entries_spec()[j].0@ != k@,
            decreases self.entries_spec().len() - i,
        {
            if str_eq(self.entries[i].0.as_str(), k) {
                return Some(i);
            }
            i += 1;
        }
        None
    }
}

} // verus!

verus! {

/// The entries of a map in key order, each key by its characters and each
/// value by `f`.
pub open spec fn model_of<V, M>(m: NameMap<V>, f: spec_fn(V) -> M) -> Seq<(Seq<char>, M)> {
    m.entries@.map_values(|e: (String, V)| (e.0@, f(e.1)))
}

/// In a well-formed map, looking a key up in the model finds the model of the
/// value bound to it, and nothing where it is not bound.
pub proof fn lemma_model_lookup<V, M>(m: NameMap<V>, f: spec_fn(V) -> M, k: Seq<char>)
    requires
        m.wf(),
    ensures
        forall|v: V| m.has_entry(k, v) ==> assoc_last(model_of(m, f), k) == Some(f(v)),
        !m.contains(k) ==> assoc_last(model_of(m, f), k) is None,
        m.contains(k) ==> exists|v: V| m.has_entry(k, v),
{
    let mm = model_of(m, f);
    let e = m.entries_spec();
    assert(sorted_keys_m(mm)) by {
        assert forall|i: int, j: int| 0 <= i < j < mm.len() implies seq_lt(
            #[trigger] mm[i].0,
            #[trigger] mm[j].0,
        ) by {
            assert(mm[i].0 == e[i].0@);
            assert(mm[j].0 == e[j].0@);
        }
    }
    assert forall|v: V| m.has_entry(k, v) implies assoc_last(mm, k) == Some(f(v)) by {
        let i = choose|i: int| 0 <= i < e.len() && #[trigger] e[i].0@ == k && e[i].1 == v;
        lemma_assoc_last_at(mm, i);
    }
    if !m.contains(k) {
        assert forall|i: int| 0 <= i < mm.len() implies #[trigger] mm[i].0 != k by {
            assert(mm[i].0 == e[i].0@);
        }
        lemma_assoc_last_none(mm, k);
    } else {
        let i = choose|i: int| 0 <= i < e.len() && #[trigger] e[i].0@ == k;
        assert(m.has_entry(k, e[i].1));
    }
}

/// After an insert, the model binds the key to the new value and every other
/// key as before.
pub proof fn lemma_model_insert<V, M>(
    before: NameMap<V>,
    after: NameMap<V>,
    k: Seq<char>,
    v: V,
    f: spec_fn(V) -> M,
)
    requires
        before.wf(),
        after.wf(),
        after.has_entry(k, v),
        forall|k2: Seq<char>, x: V| k2 != k ==> (after.has_entry(k2, x) <==> before.has_entry(k2, x)),
        forall|k2: Seq<char>| after.contains(k2) <==> (before.contains(k2) || k2 == k),
    ensures
        assoc_last(model_of(after, f), k) == Some(f(v)),
        forall|k2: Seq<char>|
            k2 != k ==> #[trigger] assoc_last(model_of(after, f), k2) == assoc_last(model_of(before, f), k2),
{
    lemma_model_lookup(after, f, k);
    assert forall|k2: Seq<char>| k2 != k implies #[trigger] assoc_last(model_of(after, f), k2) == assoc_last(
        model_of(before, f),
        k2,
    ) by {
        lemma_model_lookup(after, f, k2);
        lemma_model_lookup(before, f, k2);
        if before.contains(k2) {
            let x = choose|x: V| before.has_entry(k2, x);
            assert(after.has_entry(k2, x));
        }
    }
}

} // verus!
