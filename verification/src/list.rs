//! The on-chain `List` type: a cons list, kept in Data as a Data list.
use crate::data::{Data, DataM, ToData, views_of};
use crate::encode::encode_all;
use crate::integer::Integer;
use vstd::prelude::*;
use vstd::std_specs::cmp::PartialEqSpec;

verus! {

/// A cons list.
#[derive(Debug, PartialEq)]
pub enum List<T> {
    Nil,
    Cons { head: T, tail: Box<List<T>> },
}

/// The elements of a list, first to last.
pub open spec fn list_seq<T>(l: List<T>) -> Seq<T>
    decreases l,
{
    match l {
        List::Nil => Seq::empty(),
        List::Cons { head, tail } => seq![head] + list_seq(*tail),
    }
}

/// Cloning a `T` gives a value equal to the original.
pub open spec fn clones_exactly<T: Clone>() -> bool {
    forall|a: T, b: T| #[trigger] cloned::<T>(a, b) ==> a == b
}

/// `r` holds, one for one and in order, copies of the elements of `s`.
pub open spec fn copies_of<T: Clone>(s: Seq<T>, r: Seq<T>) -> bool {
    r.len() == s.len() && forall|i: int| 0 <= i < s.len() ==> cloned::<T>(s[i], #[trigger] r[i])
}

/// Some element of `s` equals `elem`, by `==` as `T` specifies it.
pub open spec fn has_elem<T: PartialEq>(s: Seq<T>, elem: T) -> bool {
    exists|i: int| 0 <= i < s.len() && (#[trigger] s[i]).eq_spec(&elem)
}

impl<T> View for List<T> {
    type V = Seq<T>;

    open spec fn view(&self) -> Seq<T> {
        list_seq(*self)
    }
}

impl<T> List<T> {
    /// The list of the given items, in order.
    pub fn from_vec(items: Vec<T>) -> (r: List<T>)
        ensures
            r@ == items@,
    {
        let ghost all = items@;
        let mut v = items;
        let mut acc: List<T> = List::Nil;
        assert(all.subrange(all.len() as int, all.len() as int) =~= Seq::<T>::empty());
        while v.len() > 0
            invariant
                v@ == all.take(v@.len() as int),
                v@.len() <= all.len(),
                acc@ == all.subrange(v@.len() as int, all.len() as int),
            decreases v@.len(),
        {
            let ghost n = v@.len();
            let x = v.pop().unwrap();
            assert(x == all[n - 1]);
            acc = List::Cons { head: x, tail: Box::new(acc) };
            assert(all.subrange(n - 1, all.len() as int) =~= seq![all[n - 1]] + all.subrange(n as int, all.len() as int));
            assert(v@ =~= all.take(n - 1));
        }
        acc
    }

    /// Whether the list has no element.
    pub fn is_nil(&self) -> (r: bool)
        ensures
            r == (self@.len() == 0),
    {
        match self {
            List::Nil => true,
            List::Cons { .. } => false,
        }
    }
}

impl<T: Clone> List<T> {
    /// Copies of the elements, in order.
    pub fn to_vec(&self) -> (r: Vec<T>)
        ensures
            copies_of(self@, r@),
    {
        let mut result: Vec<T> = Vec::new();
        let mut cur = self;
        let ghost all = self@;
        loop
            invariant
                result@.len() + cur@.len() == all.len(),
                cur@ == all.skip(result@.len() as int),
                forall|i: int| 0 <= i < result@.len() ==> cloned::<T>(all[i], #[trigger] result@[i]),
            ensures
                result@.len() == all.len(),
                forall|i: int| 0 <= i < result@.len() ==> cloned::<T>(all[i], #[trigger] result@[i]),
            decreases cur@.len(),
        {
            match cur {
                List::Nil => break,
                List::Cons { head, tail } => {
                    let ghost k = result@.len() as int;
                    assert(cur@ == seq![*head] + tail@);
                    assert(all.skip(k)[0] == *head);
                    assert(all.skip(k + 1) =~= all.skip(k).skip(1));
                    assert(tail@ =~= (seq![*head] + tail@).skip(1));
                    result.push(head.clone());
                    cur = tail;
                },
            }
        }
        result
    }

    /// A copy of the element at `idx` (which must be an index of the list).
    pub fn at(&self, idx: &Integer) -> (r: T)
        requires
            0 <= idx@ < self@.len(),
        ensures
            cloned::<T>(self@[idx@], r),
    {
        let mut cur = self;
        let mut i = idx.copy();
        let ghost all = self@;
        let ghost k: int = 0;
        let zero = Integer::zero();
        let one = Integer::from_i64(1);
        loop
            invariant
                0 <= k <= idx@,
                all == self@,
                i@ == idx@ - k,
                idx@ < all.len(),
                cur@ == all.skip(k),
                zero@ == 0,
                one@ == 1,
            decreases cur@.len(),
        {
            match cur {
                List::Nil => {
                    assert(false);
                    return vstd::pervasive::unreached();
                },
                List::Cons { head, tail } => {
                    assert(cur@ == seq![*head] + tail@);
                    assert(all.skip(k)[0] == *head);
                    assert(all[k] == *head);
                    if i.eq(&zero) {
                        return head.clone();
                    }
                    assert(all.skip(k + 1) =~= all.skip(k).skip(1));
                    assert(tail@ =~= (seq![*head] + tail@).skip(1));
                    i = i.sub(&one);
                    proof {
                        k = k + 1;
                    }
                    cur = tail;
                },
            }
        }
    }
}

impl<T: PartialEq> List<T> {
    /// Whether an element equals `elem`.
    pub fn contains_elem(&self, elem: &T) -> (r: bool)
        ensures
            T::obeys_eq_spec() ==> (r <==> has_elem(self@, *elem)),
        decreases self,
    {
        match self {
            List::Nil => false,
            List::Cons { head, tail } => {
                if head.eq(elem) {
                    assert(self@[0] == *head);
                    true
                } else {
                    let r = tail.contains_elem(elem);
                    proof {
                        assert forall|i: int| 0 < i < self@.len() implies #[trigger] self@[i] == tail@[i - 1] by {}
                        if T::obeys_eq_spec() && r {
                            let j = choose|j: int| 0 <= j < tail@.len() && (#[trigger] tail@[j]).eq_spec(elem);
                            assert(self@[j + 1] == tail@[j]);
                        }
                    }
                    r
                }
            },
        }
    }
}

impl<T: ToData> List<T> {
    /// Each element converted to Data.
    pub fn map_to_data(&self) -> (r: List<Data>)
        ensures
            views_of(r@) == encode_all(self@),
            r@.len() == self@.len(),
            forall|i: int| 0 <= i < self@.len() ==> (#[trigger] r@[i])@ == T::encode(self@[i]@),
        decreases self,
    {
        match self {
            List::Nil => {
                let r = List::Nil;
                assert(views_of(r@) =~= encode_all(self@));
                r
            },
            List::Cons { head, tail } => {
                let t = tail.map_to_data();
                let r = List::Cons { head: head.to_data(), tail: Box::new(t) };
                assert forall|i: int| 0 < i < r@.len() implies #[trigger] r@[i] == t@[i - 1] by {}
                assert(views_of(r@) =~= encode_all(self@));
                r
            },
        }
    }
}

} // verus!

verus! {

/// Two lists with the same elements are the same list.
pub proof fn lemma_list_by_elements<T>(a: List<T>, b: List<T>)
    requires
        a@ == b@,
    ensures
        a == b,
    decreases a,
{
    match (a, b) {
        (List::Cons { head: h1, tail: t1 }, List::Cons { head: h2, tail: t2 }) => {
            assert(a@[0] == h1 && b@[0] == h2);
            assert(t1@ =~= a@.drop_first());
            assert(t2@ =~= b@.drop_first());
            lemma_list_by_elements(*t1, *t2);
        },
        (List::Nil, List::Cons { .. }) => {
            assert(b@.len() > 0);
        },
        (List::Cons { .. }, List::Nil) => {
            assert(a@.len() > 0);
        },
        (List::Nil, List::Nil) => {},
    }
}

/// Where cloning a `T` is exact, the copies that `to_vec` gives are the
/// elements themselves, and a list is determined by its elements: so
/// `from_vec(l.to_vec())` is `l`, and `from_vec(v).to_vec()` is `v`.
pub proof fn law_list_vec_roundtrip<T: Clone>(l: List<T>, copies: Seq<T>, rebuilt: List<T>)
    requires
        clones_exactly::<T>(),
        copies_of(l@, copies),
        rebuilt@ == copies,
    ensures
        copies == l@,
        rebuilt == l,
{
    assert(copies =~= l@);
    lemma_list_by_elements(rebuilt, l);
}

/// `contains` and `contains_elem` give the same answer, which is also the
/// answer for the copies of the elements where cloning is exact.
pub proof fn law_contains_agrees<T: PartialEq + Clone>(l: List<T>, elem: T, by_fn: bool, by_method: bool)
    requires
        T::obeys_eq_spec(),
        by_fn <==> has_elem(l@, elem),
        by_method <==> has_elem(l@, elem),
    ensures
        by_fn == by_method,
        forall|copies: Seq<T>| clones_exactly::<T>() && copies_of(l@, copies) ==> (#[trigger] has_elem(copies, elem)
            <==> by_fn),
{
    assert forall|copies: Seq<T>| clones_exactly::<T>() && copies_of(l@, copies) implies (#[trigger] has_elem(
        copies,
        elem,
    ) <==> by_fn) by {
        assert(copies =~= l@);
    }
}

/// Whether the list is empty.
pub fn is_empty(list: List<Data>) -> (r: bool)
    ensures
        r == (list@.len() == 0),
{
    match list {
        List::Nil => true,
        _ => false,
    }
}

/// The first element of a non-empty list.
pub fn head(list: List<Data>) -> (r: Data)
    requires
        list@.len() > 0,
    ensures
        r == list@[0],
{
    match list {
        List::Cons { head, .. } => head,
        List::Nil => vstd::pervasive::unreached(),
    }
}

/// All but the first element of a non-empty list.
pub fn tail(list: List<Data>) -> (r: List<Data>)
    requires
        list@.len() > 0,
    ensures
        r@ == list@.drop_first(),
{
    match list {
        List::Cons { head, tail } => {
            assert(list@ == seq![head] + tail@);
            assert(list@.drop_first() =~= tail@);
            *tail
        },
        List::Nil => vstd::pervasive::unreached(),
    }
}

/// The element at `idx` (which must be an index of the list).
pub fn at(list: List<Data>, idx: Integer) -> (r: Data)
    requires
        0 <= idx@ < list@.len(),
    ensures
        r == list@[idx@],
    decreases list@.len(),
{
    match list {
        List::Nil => vstd::pervasive::unreached(),
        List::Cons { head, tail } => {
            assert(list@ == seq![head] + tail@);
            if idx.eq(&Integer::zero()) {
                head
            } else {
                let i = idx.sub(&Integer::from_i64(1));
                at(*tail, i)
            }
        },
    }
}

/// Whether an element of the list equals `elem`.
pub fn contains<T: PartialEq>(list: List<T>, elem: T) -> (r: bool)
    ensures
        T::obeys_eq_spec() ==> (r <==> has_elem(list@, elem)),
{
    list.contains_elem(&elem)
}

} // verus!
