//! How the on-chain prelude types are written as `Data`: records and sum
//! types as `Constr` with the constructor's index, lists as Data lists and
//! maps as Data maps.
use crate::assoc_map::AssocMap;
use crate::data::{
    Data, DataError, DataM, FromData, ToData, constr_of, datas_of, entries_of, lemma_datas_of, lemma_pairs_of, list_of,
    pairs_of, views_of,
};
use crate::list::List;
use crate::option::Option;
use crate::order::Order;
use crate::pair::Pair;
use crate::sorted_map::SortedMap;
use vstd::prelude::*;

verus! {

broadcast use vstd::std_specs::vec::group_vec_axioms;

impl<T> View for Option<T> {
    type V = Option<T>;

    open spec fn view(&self) -> Option<T> {
        *self
    }
}

impl<A, B> View for Pair<A, B> {
    type V = Pair<A, B>;

    open spec fn view(&self) -> Pair<A, B> {
        *self
    }
}

impl<K, V> View for SortedMap<K, V> {
    type V = SortedMap<K, V>;

    open spec fn view(&self) -> SortedMap<K, V> {
        *self
    }
}

impl<K, V> View for AssocMap<K, V> {
    type V = AssocMap<K, V>;

    open spec fn view(&self) -> AssocMap<K, V> {
        *self
    }
}

impl View for Order {
    type V = Order;

    open spec fn view(&self) -> Order {
        *self
    }
}

/// The Data of the elements of a sequence, one by one.
pub open spec fn encode_all<T: ToData>(s: Seq<T>) -> Seq<DataM> {
    Seq::new(s.len(), |i: int| T::encode(s[i]@))
}

/// The Data pairs of key-value pairs, one by one.
pub open spec fn encode_pairs<K: ToData, V: ToData>(s: Seq<(K, V)>) -> Seq<(DataM, DataM)> {
    Seq::new(s.len(), |i: int| (K::encode(s[i].0@), V::encode(s[i].1@)))
}

impl<T: ToData> ToData for Option<T> {
    open spec fn encode(v: Option<T>) -> DataM {
        match v {
            Option::Just { value } => DataM::Constr(0, seq![T::encode(value@)]),
            Option::Nothing => DataM::Constr(1, Seq::empty()),
        }
    }

    fn to_data(&self) -> (r: Data) {
        match self {
            Option::Just { value } => {
                let args = vec![value.to_data()];
                let r = constr_of(0, args);
                assert(views_of(args@) =~= seq![T::encode(value@)]);
                r
            },
            Option::Nothing => {
                let args: Vec<Data> = Vec::new();
                let r = constr_of(1, args);
                assert(views_of(args@) =~= Seq::<DataM>::empty());
                r
            },
        }
    }
}

impl<A: ToData, B: ToData> ToData for Pair<A, B> {
    open spec fn encode(v: Pair<A, B>) -> DataM {
        DataM::Constr(0, seq![A::encode(v.fst@), B::encode(v.snd@)])
    }

    fn to_data(&self) -> (r: Data) {
        let args = vec![self.fst.to_data(), self.snd.to_data()];
        let r = constr_of(0, args);
        assert(views_of(args@) =~= seq![A::encode(self.fst@), B::encode(self.snd@)]);
        r
    }
}

impl ToData for Order {
    open spec fn encode(v: Order) -> DataM {
        match v {
            Order::Less => DataM::Constr(0, Seq::empty()),
            Order::Equal => DataM::Constr(1, Seq::empty()),
            Order::Greater => DataM::Constr(2, Seq::empty()),
        }
    }

    fn to_data(&self) -> (r: Data) {
        let tag: i64 = match self {
            Order::Less => 0,
            Order::Equal => 1,
            Order::Greater => 2,
        };
        let args: Vec<Data> = Vec::new();
        let r = constr_of(tag, args);
        assert(views_of(args@) =~= Seq::<DataM>::empty());
        r
    }
}

/// The Data of each element of a list, in order.
fn encode_list<T: ToData>(l: &List<T>) -> (r: Vec<Data>)
    ensures
        views_of(r@) == encode_all(l@),
{
    let ghost all = l@;
    let mut out: Vec<Data> = Vec::new();
    let mut cur = l;
    loop
        invariant
            all == l@,
            out@.len() + cur@.len() == all.len(),
            cur@ == all.skip(out@.len() as int),
            forall|i: int| 0 <= i < out@.len() ==> (#[trigger] out@[i])@ == T::encode(all[i]@),
        ensures
            out@.len() == all.len(),
            forall|i: int| 0 <= i < out@.len() ==> (#[trigger] out@[i])@ == T::encode(all[i]@),
        decreases cur@.len(),
    {
        match cur {
            List::Nil => {
                break;
            },
            List::Cons { head, tail } => {
                let ghost k = out@.len() as int;
                assert(all.skip(k)[0] == *head);
                assert(all.skip(k + 1) =~= all.skip(k).skip(1));
                assert(tail@ =~= (seq![*head] + tail@).skip(1));
                out.push(head.to_data());
                cur = tail;
            },
        }
    }
    assert(views_of(out@) =~= encode_all(all));
    out
}

impl<T: ToData> ToData for List<T> {
    open spec fn encode(v: Seq<T>) -> DataM {
        DataM::List(encode_all(v))
    }

    fn to_data(&self) -> (r: Data) {
        list_of(encode_list(self))
    }
}

/// The Data of each key and value of a list of pairs, in order.
fn encode_entries<K: ToData, V: ToData>(l: &List<Pair<K, V>>) -> (r: Vec<(Data, Data)>)
    ensures
        r@.len() == l@.len(),
        forall|i: int| 0 <= i < r@.len() ==> (#[trigger] r@[i]).0@ == K::encode(l@[i].fst@) && r@[i].1@ == V::encode(l@[i].snd@),
{
    let ghost all = l@;
    let mut out: Vec<(Data, Data)> = Vec::new();
    let mut cur = l;
    loop
        invariant
            all == l@,
            out@.len() + cur@.len() == all.len(),
            cur@ == all.skip(out@.len() as int),
            forall|i: int| 0 <= i < out@.len() ==> (#[trigger] out@[i]).0@ == K::encode(all[i].fst@) && out@[i].1@ == V::encode(all[i].snd@),
        ensures
            out@.len() == all.len(),
            forall|i: int| 0 <= i < out@.len() ==> (#[trigger] out@[i]).0@ == K::encode(all[i].fst@) && out@[i].1@ == V::encode(all[i].snd@),
        decreases cur@.len(),
    {
        match cur {
            List::Nil => {
                break;
            },
            List::Cons { head, tail } => {
                let ghost k = out@.len() as int;
                assert(all.skip(k)[0] == *head);
                assert(all.skip(k + 1) =~= all.skip(k).skip(1));
                assert(tail@ =~= (seq![*head] + tail@).skip(1));
                out.push((head.fst.to_data(), head.snd.to_data()));
                cur = tail;
            },
        }
    }
    out
}

impl<K: ToData, V: ToData> ToData for SortedMap<K, V> {
    open spec fn encode(v: SortedMap<K, V>) -> DataM {
        DataM::Entries(encode_pairs(v.entries()))
    }

    fn to_data(&self) -> (r: Data) {
        let es = encode_entries(&self.inner);
        let r = entries_of(es);
        assert(Seq::new(es@.len(), |i: int| (es@[i].0@, es@[i].1@)) =~= encode_pairs(self.entries()));
        r
    }
}

impl<K: ToData, V: ToData> ToData for AssocMap<K, V> {
    open spec fn encode(v: AssocMap<K, V>) -> DataM {
        DataM::Entries(encode_pairs(v.entries()))
    }

    fn to_data(&self) -> (r: Data) {
        let es = encode_entries(&self.inner);
        let r = entries_of(es);
        assert(Seq::new(es@.len(), |i: int| (es@[i].0@, es@[i].1@)) =~= encode_pairs(self.entries()));
        r
    }
}


// ---------------------------------------------------------------------------
// Decoding
// ---------------------------------------------------------------------------

impl<T: FromData> FromData for Option<T> {
    open spec fn decodable(d: DataM) -> bool {
        match d {
            DataM::Constr(tag, args) => (tag == 0 && args.len() > 0 && T::decodable(args[0])) || tag == 1,
            _ => false,
        }
    }

    open spec fn decodes_to(d: DataM, v: Option<T>) -> bool {
        match v {
            Option::Just { value } => d matches DataM::Constr(tag, args) && tag == 0 && args.len() > 0
                && T::decodes_to(args[0], value@),
            Option::Nothing => d matches DataM::Constr(tag, _) && tag == 1,
        }
    }

    open spec fn decode_error(d: DataM) -> DataError {
        match d {
            DataM::Constr(tag, args) => if tag == 0 {
                if args.len() == 0 {
                    DataError::MissingField { index: 0 }
                } else {
                    T::decode_error(args[0])
                }
            } else {
                DataError::UnexpectedTag { expected: "Option", got: tag }
            },
            _ => DataError::UnexpectedVariant { expected: "Constr" },
        }
    }

    fn from_data(data: &Data) -> (r: Result<Option<T>, DataError>) {
        match data {
            Data::Constr { tag, args } => {
                proof {
                    lemma_datas_of(args@);
                }
                if *tag == 0 {
                    if args.len() == 0 {
                        Err(DataError::MissingField { index: 0 })
                    } else {
                        match T::from_data(&args[0]) {
                            Ok(value) => Ok(Option::Just { value }),
                            Err(e) => Err(e),
                        }
                    }
                } else if *tag == 1 {
                    Ok(Option::Nothing)
                } else {
                    Err(DataError::UnexpectedTag { expected: "Option", got: *tag })
                }
            },
            _ => Err(DataError::UnexpectedVariant { expected: "Constr" }),
        }
    }

    proof fn law_roundtrip(v: Option<T>, w: Option<T>) {
        match v {
            Option::Just { value } => match w {
                Option::Just { value: x } => T::law_roundtrip(value@, x@),
                Option::Nothing => T::law_roundtrip(value@, value@),
            },
            Option::Nothing => {},
        }
    }
}

impl<A: FromData, B: FromData> FromData for Pair<A, B> {
    open spec fn decodable(d: DataM) -> bool {
        d matches DataM::Constr(tag, args) && tag == 0 && args.len() >= 2 && A::decodable(args[0]) && B::decodable(
            args[1],
        )
    }

    open spec fn decodes_to(d: DataM, v: Pair<A, B>) -> bool {
        d matches DataM::Constr(tag, args) && tag == 0 && args.len() >= 2 && A::decodes_to(args[0], v.fst@)
            && B::decodes_to(args[1], v.snd@)
    }

    open spec fn decode_error(d: DataM) -> DataError {
        match d {
            DataM::Constr(tag, args) => if tag != 0 {
                DataError::UnexpectedTag { expected: "Pair", got: tag }
            } else if args.len() == 0 {
                DataError::MissingField { index: 0 }
            } else if !A::decodable(args[0]) {
                A::decode_error(args[0])
            } else if args.len() == 1 {
                DataError::MissingField { index: 1 }
            } else {
                B::decode_error(args[1])
            },
            _ => DataError::UnexpectedVariant { expected: "Constr" },
        }
    }

    fn from_data(data: &Data) -> (r: Result<Pair<A, B>, DataError>) {
        match data {
            Data::Constr { tag, args } => {
                proof {
                    lemma_datas_of(args@);
                }
                if *tag != 0 {
                    return Err(DataError::UnexpectedTag { expected: "Pair", got: *tag });
                }
                if args.len() == 0 {
                    return Err(DataError::MissingField { index: 0 });
                }
                let fst = match A::from_data(&args[0]) {
                    Ok(x) => x,
                    Err(e) => {
                        return Err(e);
                    },
                };
                if args.len() == 1 {
                    return Err(DataError::MissingField { index: 1 });
                }
                let snd = match B::from_data(&args[1]) {
                    Ok(x) => x,
                    Err(e) => {
                        return Err(e);
                    },
                };
                Ok(Pair { fst, snd })
            },
            _ => Err(DataError::UnexpectedVariant { expected: "Constr" }),
        }
    }

    proof fn law_roundtrip(v: Pair<A, B>, w: Pair<A, B>) {
        A::law_roundtrip(v.fst@, w.fst@);
        B::law_roundtrip(v.snd@, w.snd@);
    }
}

impl FromData for Order {
    open spec fn decodable(d: DataM) -> bool {
        d matches DataM::Constr(tag, _) && 0 <= tag <= 2
    }

    open spec fn decodes_to(d: DataM, v: Order) -> bool {
        d matches DataM::Constr(tag, _) && tag == match v {
            Order::Less => 0i64,
            Order::Equal => 1i64,
            Order::Greater => 2i64,
        }
    }

    open spec fn decode_error(d: DataM) -> DataError {
        match d {
            DataM::Constr(tag, _) => DataError::UnexpectedTag { expected: "Order", got: tag },
            _ => DataError::UnexpectedVariant { expected: "Constr" },
        }
    }

    fn from_data(data: &Data) -> (r: Result<Order, DataError>) {
        match data {
            Data::Constr { tag, .. } => {
                if *tag == 0 {
                    Ok(Order::Less)
                } else if *tag == 1 {
                    Ok(Order::Equal)
                } else if *tag == 2 {
                    Ok(Order::Greater)
                } else {
                    Err(DataError::UnexpectedTag { expected: "Order", got: *tag })
                }
            },
            _ => Err(DataError::UnexpectedVariant { expected: "Constr" }),
        }
    }

    proof fn law_roundtrip(v: Order, w: Order) {
    }
}

/// Each element decodes.
pub open spec fn all_decodable<T: FromData>(items: Seq<DataM>) -> bool {
    forall|i: int| 0 <= i < items.len() ==> #[trigger] T::decodable(items[i])
}

/// The elements decode to the values with the views of `s`, one by one.
pub open spec fn all_decode_to<T: FromData>(items: Seq<DataM>, s: Seq<T>) -> bool {
    &&& s.len() == items.len()
    &&& forall|i: int| 0 <= i < items.len() ==> #[trigger] T::decodes_to(items[i], s[i]@)
}

/// Why the items do not decode: the error of the last item that does not.
pub open spec fn items_error<T: FromData>(items: Seq<DataM>) -> DataError
    decreases items.len(),
{
    if items.len() == 0 {
        DataError::UnexpectedVariant { expected: "List (Data::List)" }
    } else if !T::decodable(items.last()) {
        T::decode_error(items.last())
    } else {
        items_error::<T>(items.drop_last())
    }
}

/// Where item `k` does not decode and all after it do, the items' error is
/// its error.
proof fn lemma_items_error<T: FromData>(items: Seq<DataM>, k: int)
    requires
        0 <= k < items.len(),
        !T::decodable(items[k]),
        forall|j: int| k < j < items.len() ==> #[trigger] T::decodable(items[j]),
    ensures
        items_error::<T>(items) == T::decode_error(items[k]),
    decreases items.len(),
{
    if k < items.len() - 1 {
        let p = items.drop_last();
        assert(T::decodable(items[items.len() - 1]));
        assert forall|j: int| k < j < p.len() implies #[trigger] T::decodable(p[j]) by {
            assert(p[j] == items[j]);
        }
        lemma_items_error::<T>(p, k);
    }
}

/// The list of the values that the items decode to, the last item decoded
/// first.
fn decode_items<T: FromData>(values: &Vec<Data>) -> (r: Result<List<T>, DataError>)
    ensures
        r is Ok <==> all_decodable::<T>(views_of(values@)),
        r matches Ok(l) ==> all_decode_to(views_of(values@), l@),
        r matches Err(e) ==> e == items_error::<T>(views_of(values@)),
{
    let ghost items = views_of(values@);
    let mut acc: List<T> = List::Nil;
    let mut i: usize = values.len();
    while i > 0
        invariant
            i <= values@.len(),
            items == views_of(values@),
            acc@.len() == values@.len() - i,
            forall|j: int| i <= j < values@.len() ==> #[trigger] T::decodable(items[j]),
            forall|j: int| 0 <= j < acc@.len() ==> #[trigger] T::decodes_to(items[i + j], acc@[j]@),
        decreases i,
    {
        match T::from_data(&values[i - 1]) {
            Ok(x) => {
                let ghost a0 = acc@;
                acc = List::Cons { head: x, tail: Box::new(acc) };
                assert(acc@ =~= seq![x] + a0);
                assert forall|j: int| 0 <= j < acc@.len() implies #[trigger] T::decodes_to(
                    items[i - 1 + j],
                    acc@[j]@,
                ) by {
                    if j > 0 {
                        assert(acc@[j] == a0[j - 1]);
                        assert(T::decodes_to(items[i + (j - 1)], a0[j - 1]@));
                    }
                }
            },
            Err(e) => {
                assert(items[i - 1] == values@[i - 1]@);
                assert(!T::decodable(items[i - 1]));
                proof {
                    lemma_items_error::<T>(items, i - 1);
                }
                return Err(e);
            },
        }
        i -= 1;
    }
    assert forall|j: int| 0 <= j < acc@.len() implies #[trigger] T::decodes_to(items[j], acc@[j]@) by {
        assert(T::decodes_to(items[0 + j], acc@[j]@));
    }
    Ok(acc)
}

impl<T: FromData> FromData for List<T> {
    open spec fn decodable(d: DataM) -> bool {
        d matches DataM::List(items) && all_decodable::<T>(items)
    }

    open spec fn decodes_to(d: DataM, v: Seq<T>) -> bool {
        d matches DataM::List(items) && all_decode_to(items, v)
    }

    open spec fn decode_error(d: DataM) -> DataError {
        match d {
            DataM::List(items) => items_error::<T>(items),
            _ => DataError::UnexpectedVariant { expected: "List (Data::List)" },
        }
    }

    fn from_data(data: &Data) -> (r: Result<List<T>, DataError>) {
        match data {
            Data::List { values } => {
                proof {
                    lemma_datas_of(values@);
                    assert(datas_of(values@) =~= views_of(values@));
                }
                decode_items(values)
            },
            _ => Err(DataError::UnexpectedVariant { expected: "List (Data::List)" }),
        }
    }

    proof fn law_roundtrip(v: Seq<T>, w: Seq<T>) {
        let items = encode_all(v);
        assert forall|i: int| 0 <= i < items.len() implies #[trigger] T::decodable(items[i]) by {
            T::law_roundtrip(v[i]@, v[i]@);
        }
        if Self::decodes_to(Self::encode(v), w) {
            assert forall|i: int| 0 <= i < w.len() implies T::encode(w[i]@) == T::encode(v[i]@) by {
                assert(T::decodes_to(items[i], w[i]@));
                T::law_roundtrip(v[i]@, w[i]@);
            }
            assert(encode_all(w) =~= encode_all(v));
        }
    }
}

/// The key and the value decode.
pub open spec fn pair_decodable<K: FromData, V: FromData>(p: (DataM, DataM)) -> bool {
    K::decodable(p.0) && V::decodable(p.1)
}

/// Each key and each value decodes.
pub open spec fn pairs_decodable<K: FromData, V: FromData>(ps: Seq<(DataM, DataM)>) -> bool {
    forall|i: int| 0 <= i < ps.len() ==> #[trigger] pair_decodable::<K, V>(ps[i])
}

/// The key and the value decode to those of `kv`.
pub open spec fn pair_decodes_to<K: FromData, V: FromData>(p: (DataM, DataM), kv: (K, V)) -> bool {
    K::decodes_to(p.0, kv.0@) && V::decodes_to(p.1, kv.1@)
}

/// The keys and values decode to those of `s`, pair by pair.
pub open spec fn pairs_decode_to<K: FromData, V: FromData>(ps: Seq<(DataM, DataM)>, s: Seq<(K, V)>) -> bool {
    &&& s.len() == ps.len()
    &&& forall|i: int| 0 <= i < ps.len() ==> #[trigger] pair_decodes_to(ps[i], s[i])
}

/// Why the pairs do not decode: the error of the key, or else of the value,
/// of the last pair that does not.
pub open spec fn pairs_error<K: FromData, V: FromData>(ps: Seq<(DataM, DataM)>) -> DataError
    decreases ps.len(),
{
    if ps.len() == 0 {
        DataError::UnexpectedVariant { expected: "Map" }
    } else if !K::decodable(ps.last().0) {
        K::decode_error(ps.last().0)
    } else if !V::decodable(ps.last().1) {
        V::decode_error(ps.last().1)
    } else {
        pairs_error::<K, V>(ps.drop_last())
    }
}

/// Where pair `k` does not decode and all after it do, the pairs' error is
/// the error of its key, or else of its value.
proof fn lemma_pairs_error<K: FromData, V: FromData>(ps: Seq<(DataM, DataM)>, k: int)
    requires
        0 <= k < ps.len(),
        !pair_decodable::<K, V>(ps[k]),
        forall|j: int| k < j < ps.len() ==> #[trigger] pair_decodable::<K, V>(ps[j]),
    ensures
        pairs_error::<K, V>(ps) == if !K::decodable(ps[k].0) {
            K::decode_error(ps[k].0)
        } else {
            V::decode_error(ps[k].1)
        },
    decreases ps.len(),
{
    if k < ps.len() - 1 {
        let p = ps.drop_last();
        assert(pair_decodable::<K, V>(ps[ps.len() - 1]));
        assert forall|j: int| k < j < p.len() implies #[trigger] pair_decodable::<K, V>(p[j]) by {
            assert(p[j] == ps[j]);
        }
        lemma_pairs_error::<K, V>(p, k);
    }
}

/// The list of the pairs that the keys and values decode to, the last pair
/// decoded first, each key before its value.
fn decode_pairs<K: FromData, V: FromData>(values: &Vec<(Data, Data)>) -> (r: Result<List<Pair<K, V>>, DataError>)
    ensures
        r is Ok <==> pairs_decodable::<K, V>(pairs_of(values@)),
        r matches Ok(l) ==> pairs_decode_to(pairs_of(values@), crate::assoc_map::pairs_seq(l)),
        r matches Err(e) ==> e == pairs_error::<K, V>(pairs_of(values@)),
{
    proof {
        lemma_pairs_of(values@);
    }
    let ghost ps = pairs_of(values@);
    let mut acc: List<Pair<K, V>> = List::Nil;
    let mut i: usize = values.len();
    while i > 0
        invariant
            i <= values@.len(),
            ps == pairs_of(values@),
            ps.len() == values@.len(),
            forall|j: int| 0 <= j < values@.len() ==> #[trigger] ps[j] == (values@[j].0@, values@[j].1@),
            acc@.len() == values@.len() - i,
            forall|j: int| i <= j < values@.len() ==> #[trigger] pair_decodable::<K, V>(ps[j]),
            forall|j: int|
                0 <= j < acc@.len() ==> K::decodes_to(#[trigger] ps[i + j].0, acc@[j].fst@) && V::decodes_to(
                    ps[i + j].1,
                    acc@[j].snd@,
                ),
        decreases i,
    {
        assert(ps[i - 1] == (values@[i - 1].0@, values@[i - 1].1@));
        let k = match K::from_data(&values[i - 1].0) {
            Ok(x) => x,
            Err(e) => {
                assert(!pair_decodable::<K, V>(ps[i - 1]));
                proof {
                    lemma_pairs_error::<K, V>(ps, i - 1);
                }
                return Err(e);
            },
        };
        let v = match V::from_data(&values[i - 1].1) {
            Ok(x) => x,
            Err(e) => {
                assert(!pair_decodable::<K, V>(ps[i - 1]));
                proof {
                    lemma_pairs_error::<K, V>(ps, i - 1);
                }
                return Err(e);
            },
        };
        let ghost a0 = acc@;
        let p = Pair { fst: k, snd: v };
        acc = List::Cons { head: p, tail: Box::new(acc) };
        assert(acc@ =~= seq![p] + a0);
        assert forall|j: int| 0 <= j < acc@.len() implies K::decodes_to(#[trigger] ps[i - 1 + j].0, acc@[j].fst@)
            && V::decodes_to(ps[i - 1 + j].1, acc@[j].snd@) by {
            if j > 0 {
                assert(acc@[j] == a0[j - 1]);
                assert(K::decodes_to(ps[i + (j - 1)].0, a0[j - 1].fst@));
            }
        }
        i -= 1;
    }
    let ghost s = crate::assoc_map::pairs_seq(acc);
    assert forall|j: int| 0 <= j < ps.len() implies #[trigger] pair_decodes_to(ps[j], s[j]) by {
        assert(s[j] == (acc@[j].fst, acc@[j].snd));
        assert(K::decodes_to(ps[0 + j].0, acc@[j].fst@));
    }
    Ok(acc)
}

impl<K: FromData, V: FromData> FromData for SortedMap<K, V> {
    open spec fn decodable(d: DataM) -> bool {
        d matches DataM::Entries(ps) && pairs_decodable::<K, V>(ps)
    }

    open spec fn decodes_to(d: DataM, v: SortedMap<K, V>) -> bool {
        d matches DataM::Entries(ps) && pairs_decode_to(ps, v.entries())
    }

    open spec fn decode_error(d: DataM) -> DataError {
        match d {
            DataM::Entries(ps) => pairs_error::<K, V>(ps),
            _ => DataError::UnexpectedVariant { expected: "SortedMap (Data::Map)" },
        }
    }

    fn from_data(data: &Data) -> (r: Result<SortedMap<K, V>, DataError>) {
        match data {
            Data::Entries { values } => match decode_pairs(values) {
                Ok(inner) => Ok(SortedMap { inner }),
                Err(e) => Err(e),
            },
            _ => Err(DataError::UnexpectedVariant { expected: "SortedMap (Data::Map)" }),
        }
    }

    proof fn law_roundtrip(v: SortedMap<K, V>, w: SortedMap<K, V>) {
        lemma_pairs_roundtrip::<K, V>(v.entries(), w.entries());
    }
}

impl<K: FromData, V: FromData> FromData for AssocMap<K, V> {
    open spec fn decodable(d: DataM) -> bool {
        d matches DataM::Entries(ps) && pairs_decodable::<K, V>(ps)
    }

    open spec fn decodes_to(d: DataM, v: AssocMap<K, V>) -> bool {
        d matches DataM::Entries(ps) && pairs_decode_to(ps, v.entries())
    }

    open spec fn decode_error(d: DataM) -> DataError {
        match d {
            DataM::Entries(ps) => pairs_error::<K, V>(ps),
            _ => DataError::UnexpectedVariant { expected: "AssocMap (Data::Map)" },
        }
    }

    fn from_data(data: &Data) -> (r: Result<AssocMap<K, V>, DataError>) {
        match data {
            Data::Entries { values } => match decode_pairs(values) {
                Ok(inner) => Ok(AssocMap { inner }),
                Err(e) => Err(e),
            },
            _ => Err(DataError::UnexpectedVariant { expected: "AssocMap (Data::Map)" }),
        }
    }

    proof fn law_roundtrip(v: AssocMap<K, V>, w: AssocMap<K, V>) {
        lemma_pairs_roundtrip::<K, V>(v.entries(), w.entries());
    }
}

/// The pairs that encoded pairs decode to encode the same way.
proof fn lemma_pairs_roundtrip<K: FromData, V: FromData>(v: Seq<(K, V)>, w: Seq<(K, V)>)
    ensures
        pairs_decodable::<K, V>(encode_pairs(v)),
        pairs_decode_to(encode_pairs(v), w) ==> encode_pairs(w) == encode_pairs(v),
{
    let ps = encode_pairs(v);
    assert forall|i: int| 0 <= i < ps.len() implies #[trigger] pair_decodable::<K, V>(ps[i]) by {
        K::law_roundtrip(v[i].0@, v[i].0@);
        V::law_roundtrip(v[i].1@, v[i].1@);
    }
    if pairs_decode_to(ps, w) {
        assert forall|i: int| 0 <= i < w.len() implies (K::encode(w[i].0@), V::encode(w[i].1@)) == (
            K::encode(v[i].0@),
            V::encode(v[i].1@),
        ) by {
            assert(pair_decodes_to(ps[i], w[i]));
            K::law_roundtrip(v[i].0@, w[i].0@);
            V::law_roundtrip(v[i].1@, w[i].1@);
        }
        assert(encode_pairs(w) =~= encode_pairs(v));
    }
}

} // verus!
