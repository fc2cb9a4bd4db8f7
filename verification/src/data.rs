//! Plutus `Data`, and the conversions of Rust values to and from it.
use crate::integer::Integer;
use crate::text::{decimal, int_text, nat_decimal, nat_text, owned, push_str};
use vstd::prelude::*;

verus! {

broadcast use vstd::std_specs::vec::group_vec_axioms;

/// Plutus Data.
#[derive(Debug, PartialEq)]
pub enum Data {
    Constr { tag: i64, args: Vec<Data> },
    Entries { values: Vec<(Data, Data)> },
    List { values: Vec<Data> },
    I { value: Integer },
    B { value: Vec<u8> },
}

/// Model of `Data`.
pub enum DataM {
    Constr(i64, Seq<DataM>),
    Entries(Seq<(DataM, DataM)>),
    List(Seq<DataM>),
    I(int),
    B(Seq<u8>),
}

/// The model of a `Data` value.
pub open spec fn data_of(d: Data) -> DataM
    decreases d,
{
    match d {
        Data::Constr { tag, args } => DataM::Constr(tag, datas_of(args@)),
        Data::Entries { values } => DataM::Entries(pairs_of(values@)),
        Data::List { values } => DataM::List(datas_of(values@)),
        Data::I { value } => DataM::I(value@),
        Data::B { value } => DataM::B(value@),
    }
}

/// The models of a sequence of `Data` values.
pub open spec fn datas_of(s: Seq<Data>) -> Seq<DataM>
    decreases s,
{
    if s.len() == 0 {
        Seq::empty()
    } else {
        datas_of(s.subrange(0, s.len() - 1)).push(data_of(s[s.len() - 1]))
    }
}

/// The models of a sequence of pairs of `Data` values.
pub open spec fn pairs_of(s: Seq<(Data, Data)>) -> Seq<(DataM, DataM)>
    decreases s,
{
    if s.len() == 0 {
        Seq::empty()
    } else {
        pairs_of(s.subrange(0, s.len() - 1)).push(
            (data_of(s[s.len() - 1].0), data_of(s[s.len() - 1].1)),
        )
    }
}

impl View for Data {
    type V = DataM;

    open spec fn view(&self) -> DataM {
        data_of(*self)
    }
}

pub proof fn lemma_datas_of(s: Seq<Data>)
    ensures
        datas_of(s).len() == s.len(),
        forall|i: int| 0 <= i < s.len() ==> #[trigger] datas_of(s)[i] == data_of(s[i]),
    decreases s.len(),
{
    if s.len() > 0 {
        lemma_datas_of(s.subrange(0, s.len() - 1));
        assert forall|i: int| 0 <= i < s.len() implies #[trigger] datas_of(s)[i] == data_of(s[i]) by {
            if i < s.len() - 1 {
                assert(s.subrange(0, s.len() - 1)[i] == s[i]);
            }
        }
    }
}

pub proof fn lemma_pairs_of(s: Seq<(Data, Data)>)
    ensures
        pairs_of(s).len() == s.len(),
        forall|i: int|
            0 <= i < s.len() ==> #[trigger] pairs_of(s)[i] == (data_of(s[i].0), data_of(s[i].1)),
    decreases s.len(),
{
    if s.len() > 0 {
        lemma_pairs_of(s.subrange(0, s.len() - 1));
        assert forall|i: int| 0 <= i < s.len() implies #[trigger] pairs_of(s)[i] == (
            data_of(s[i].0),
            data_of(s[i].1),
        ) by {
            if i < s.len() - 1 {
                assert(s.subrange(0, s.len() - 1)[i] == s[i]);
            }
        }
    }
}

pub proof fn lemma_datas_push(s: Seq<Data>, x: Data)
    ensures
        datas_of(s.push(x)) == datas_of(s).push(data_of(x)),
{
    assert(s.push(x).subrange(0, s.len() as int) == s);
}

pub proof fn lemma_pairs_push(s: Seq<(Data, Data)>, x: (Data, Data))
    ensures
        pairs_of(s.push(x)) == pairs_of(s).push((data_of(x.0), data_of(x.1))),
{
    assert(s.push(x).subrange(0, s.len() as int) == s);
}

impl Data {
    /// The unit value: `Constr(0, [])`.
    pub fn unit() -> (r: Data)
        ensures
            r@ == DataM::Constr(0, Seq::empty()),
    {
        let args: Vec<Data> = Vec::new();
        assert(datas_of(args@) =~= Seq::<DataM>::empty());
        Data::Constr { tag: 0, args }
    }

    /// A copy of the value.
    pub fn duplicate(&self) -> (r: Data)
        ensures
            r@ == self@,
        decreases self,
    {
        match self {
            Data::Constr { tag, args } => Data::Constr { tag: *tag, args: dup_datas(args, self) },
            Data::Entries { values } => Data::Entries { values: dup_pairs(values, self) },
            Data::List { values } => Data::List { values: dup_datas(values, self) },
            Data::I { value } => Data::I { value: value.copy() },
            Data::B { value } => Data::B { value: crate::duplicate::dup_bytes(value) },
        }
    }

    /// Structural equality of two values.
    pub fn equals(&self, other: &Data) -> (r: bool)
        ensures
            r == (self@ == other@),
        decreases self,
    {
        match (self, other) {
            (Data::Constr { tag: t1, args: a1 }, Data::Constr { tag: t2, args: a2 }) => {
                *t1 == *t2 && equals_datas(a1, a2, self)
            },
            (Data::Entries { values: v1 }, Data::Entries { values: v2 }) => equals_pairs(v1, v2, self),
            (Data::List { values: v1 }, Data::List { values: v2 }) => equals_datas(v1, v2, self),
            (Data::I { value: v1 }, Data::I { value: v2 }) => v1.eq(v2),
            (Data::B { value: v1 }, Data::B { value: v2 }) => crate::bytestring::bytes_eq(v1, v2),
            _ => false,
        }
    }
}

/// A copy of the elements of `parent`.
fn dup_datas(v: &Vec<Data>, parent: &Data) -> (r: Vec<Data>)
    requires
        forall|i: int| 0 <= i < v@.len() ==> decreases_to!(*parent => #[trigger] v@[i]),
    ensures
        datas_of(r@) == datas_of(v@),
    decreases parent, 0nat,
{
    let mut r: Vec<Data> = Vec::new();
    let mut i: usize = 0;
    while i < v.len()
        invariant
            0 <= i <= v@.len(),
            datas_of(r@) == datas_of(v@.take(i as int)),
            forall|i: int| 0 <= i < v@.len() ==> decreases_to!(*parent => #[trigger] v@[i]),
        decreases v@.len() - i,
    {
        let x = v[i].duplicate();
        proof {
            lemma_datas_push(r@, x);
            lemma_datas_push(v@.take(i as int), v@[i as int]);
            assert(v@.take(i + 1) == v@.take(i as int).push(v@[i as int]));
        }
        r.push(x);
        i += 1;
    }
    assert(v@.take(v@.len() as int) == v@);
    r
}

/// A copy of the entries of `parent`.
fn dup_pairs(v: &Vec<(Data, Data)>, parent: &Data) -> (r: Vec<(Data, Data)>)
    requires
        forall|i: int|
            0 <= i < v@.len() ==> decreases_to!(*parent => (#[trigger] v@[i]).0) && decreases_to!(
                *parent => v@[i].1),
    ensures
        pairs_of(r@) == pairs_of(v@),
    decreases parent, 0nat,
{
    let mut r: Vec<(Data, Data)> = Vec::new();
    let mut i: usize = 0;
    while i < v.len()
        invariant
            0 <= i <= v@.len(),
            pairs_of(r@) == pairs_of(v@.take(i as int)),
            forall|i: int|
                0 <= i < v@.len() ==> decreases_to!(*parent => (#[trigger] v@[i]).0)
                    && decreases_to!(*parent => v@[i].1),
        decreases v@.len() - i,
    {
        let x = (v[i].0.duplicate(), v[i].1.duplicate());
        proof {
            lemma_pairs_push(r@, x);
            lemma_pairs_push(v@.take(i as int), v@[i as int]);
            assert(v@.take(i + 1) == v@.take(i as int).push(v@[i as int]));
        }
        r.push(x);
        i += 1;
    }
    assert(v@.take(v@.len() as int) == v@);
    r
}

/// Element-wise equality of the elements of `parent` with another sequence.
fn equals_datas(a: &Vec<Data>, b: &Vec<Data>, parent: &Data) -> (r: bool)
    requires
        forall|i: int| 0 <= i < a@.len() ==> decreases_to!(*parent => #[trigger] a@[i]),
    ensures
        r == (datas_of(a@) == datas_of(b@)),
    decreases parent, 0nat,
{
    proof {
        lemma_datas_of(a@);
        lemma_datas_of(b@);
    }
    if a.len() != b.len() {
        return false;
    }
    let mut i: usize = 0;
    while i < a.len()
        invariant
            0 <= i <= a@.len(),
            a@.len() == b@.len(),
            forall|j: int| 0 <= j < i ==> data_of(#[trigger] a@[j]) == data_of(b@[j]),
            forall|i: int| 0 <= i < a@.len() ==> decreases_to!(*parent => #[trigger] a@[i]),
            datas_of(a@).len() == a@.len(),
            datas_of(b@).len() == b@.len(),
            forall|j: int| 0 <= j < a@.len() ==> #[trigger] datas_of(a@)[j] == data_of(a@[j]),
            forall|j: int| 0 <= j < b@.len() ==> #[trigger] datas_of(b@)[j] == data_of(b@[j]),
        decreases a@.len() - i,
    {
        if !a[i].equals(&b[i]) {
            assert(datas_of(a@)[i as int] != datas_of(b@)[i as int]);
            return false;
        }
        i += 1;
    }
    assert(datas_of(a@) =~= datas_of(b@));
    true
}

/// Entry-wise equality of the entries of `parent` with another sequence.
fn equals_pairs(a: &Vec<(Data, Data)>, b: &Vec<(Data, Data)>, parent: &Data) -> (r: bool)
    requires
        forall|i: int|
            0 <= i < a@.len() ==> decreases_to!(*parent => (#[trigger] a@[i]).0) && decreases_to!(
                *parent => a@[i].1),
    ensures
        r == (pairs_of(a@) == pairs_of(b@)),
    decreases parent, 0nat,
{
    proof {
        lemma_pairs_of(a@);
        lemma_pairs_of(b@);
    }
    if a.len() != b.len() {
        return false;
    }
    let mut i: usize = 0;
    while i < a.len()
        invariant
            0 <= i <= a@.len(),
            a@.len() == b@.len(),
            forall|j: int|
                0 <= j < i ==> data_of((#[trigger] a@[j]).0) == data_of(b@[j].0) && data_of(a@[j].1)
                    == data_of(b@[j].1),
            forall|i: int|
                0 <= i < a@.len() ==> decreases_to!(*parent => (#[trigger] a@[i]).0)
                    && decreases_to!(*parent => a@[i].1),
            pairs_of(a@).len() == a@.len(),
            pairs_of(b@).len() == b@.len(),
            forall|j: int|
                0 <= j < a@.len() ==> #[trigger] pairs_of(a@)[j] == (data_of(a@[j].0), data_of(a@[j].1)),
            forall|j: int|
                0 <= j < b@.len() ==> #[trigger] pairs_of(b@)[j] == (data_of(b@[j].0), data_of(b@[j].1)),
        decreases a@.len() - i,
    {
        if !a[i].0.equals(&b[i].0) || !a[i].1.equals(&b[i].1) {
            assert(pairs_of(a@)[i as int] != pairs_of(b@)[i as int]);
            return false;
        }
        i += 1;
    }
    assert(pairs_of(a@) =~= pairs_of(b@));
    true
}

/// The models of `Data` values, element by element.
pub open spec fn views_of(s: Seq<Data>) -> Seq<DataM> {
    Seq::new(s.len(), |i: int| s[i]@)
}

/// `Constr` with the given tag and arguments.
pub fn constr_of(tag: i64, args: Vec<Data>) -> (r: Data)
    ensures
        r@ == DataM::Constr(tag, views_of(args@)),
{
    proof {
        lemma_datas_of(args@);
    }
    assert(datas_of(args@) =~= views_of(args@));
    Data::Constr { tag, args }
}

/// A Data list of the given elements.
pub fn list_of(values: Vec<Data>) -> (r: Data)
    ensures
        r@ == DataM::List(views_of(values@)),
{
    proof {
        lemma_datas_of(values@);
    }
    assert(datas_of(values@) =~= views_of(values@));
    Data::List { values }
}

/// A Data map of the given pairs.
pub fn entries_of(values: Vec<(Data, Data)>) -> (r: Data)
    ensures
        r@ == DataM::Entries(Seq::new(values@.len(), |i: int| (values@[i].0@, values@[i].1@))),
{
    proof {
        lemma_pairs_of(values@);
    }
    assert(pairs_of(values@) =~= Seq::new(values@.len(), |i: int| (values@[i].0@, values@[i].1@)));
    Data::Entries { values }
}

/// Why a `Data` value could not be decoded.
#[derive(Debug, PartialEq)]
pub enum DataError {
    UnexpectedTag { expected: &'static str, got: i64 },
    UnexpectedVariant { expected: &'static str },
    MissingField { index: usize },
}

/// The message of a decoding error.
pub open spec fn data_error_text(e: DataError) -> Seq<char> {
    match e {
        DataError::UnexpectedTag { expected, got } => "expected "@ + expected@ + ", got tag "@ + decimal(got as int),
        DataError::UnexpectedVariant { expected } => "expected "@ + expected@ + " variant"@,
        DataError::MissingField { index } => "missing field at index "@ + nat_decimal(index as nat),
    }
}

impl DataError {
    /// The message that the error displays as.
    pub fn message(&self) -> (r: String)
        ensures
            r@ == data_error_text(*self),
    {
        match self {
            DataError::UnexpectedTag { expected, got } => {
                let mut r = owned("expected ");
                push_str(&mut r, expected);
                push_str(&mut r, ", got tag ");
                let n = int_text(*got);
                push_str(&mut r, n.as_str());
                r
            },
            DataError::UnexpectedVariant { expected } => {
                let mut r = owned("expected ");
                push_str(&mut r, expected);
                push_str(&mut r, " variant");
                r
            },
            DataError::MissingField { index } => {
                let mut r = owned("missing field at index ");
                let n = nat_text(*index as u64);
                push_str(&mut r, n.as_str());
                r
            },
        }
    }
}

/// Conversion of a Rust value to `Data`.
pub trait ToData: View {
    /// The `Data` that a value is encoded as.
    spec fn encode(v: Self::V) -> DataM;

    /// Encodes the value.
    fn to_data(&self) -> (r: Data)
        ensures
            r@ == Self::encode(self@),
    ;
}

/// Conversion of `Data` to a Rust value.
pub trait FromData: Sized + ToData {
    /// The `Data` values that decode.
    spec fn decodable(d: DataM) -> bool;

    /// `d` decodes to a value whose view is `v`.
    spec fn decodes_to(d: DataM, v: Self::V) -> bool;

    /// Why `d` does not decode, where it does not.
    spec fn decode_error(d: DataM) -> DataError;

    /// Decodes the value.
    fn from_data(data: &Data) -> (r: Result<Self, DataError>)
        ensures
            r is Ok <==> Self::decodable(data@),
            r matches Ok(v) ==> Self::decodes_to(data@, v@),
            r matches Err(e) ==> e == Self::decode_error(data@),
    ;

    /// What `to_data` writes decodes, and a value that it decodes to is
    /// written as the same `Data` again.
    proof fn law_roundtrip(v: Self::V, w: Self::V)
        ensures
            Self::decodable(Self::encode(v)),
            Self::decodes_to(Self::encode(v), w) ==> Self::encode(w) == Self::encode(v),
    ;
}

impl ToData for bool {
    open spec fn encode(v: bool) -> DataM {
        DataM::Constr(if v { 1 } else { 0 }, Seq::empty())
    }

    fn to_data(&self) -> (r: Data) {
        let args: Vec<Data> = Vec::new();
        assert(datas_of(args@) =~= Seq::<DataM>::empty());
        Data::Constr { tag: if *self { 1 } else { 0 }, args }
    }
}

impl FromData for bool {
    open spec fn decodable(d: DataM) -> bool {
        d matches DataM::Constr(tag, _) && (tag == 0 || tag == 1)
    }

    open spec fn decodes_to(d: DataM, v: bool) -> bool {
        d matches DataM::Constr(tag, _) && tag == if v {
            1i64
        } else {
            0i64
        }
    }

    open spec fn decode_error(d: DataM) -> DataError {
        match d {
            DataM::Constr(tag, _) => DataError::UnexpectedTag { expected: "bool (0 or 1)", got: tag },
            _ => DataError::UnexpectedVariant { expected: "Constr" },
        }
    }

    proof fn law_roundtrip(v: bool, w: bool) {
    }

    fn from_data(data: &Data) -> (r: Result<bool, DataError>) {
        match data {
            Data::Constr { tag, .. } => {
                if *tag == 0 {
                    Ok(false)
                } else if *tag == 1 {
                    Ok(true)
                } else {
                    Err(DataError::UnexpectedTag { expected: "bool (0 or 1)", got: *tag })
                }
            },
            _ => Err(DataError::UnexpectedVariant { expected: "Constr" }),
        }
    }
}

impl ToData for Integer {
    open spec fn encode(v: int) -> DataM {
        DataM::I(v)
    }

    fn to_data(&self) -> (r: Data) {
        Data::I { value: self.copy() }
    }
}

impl FromData for Integer {
    open spec fn decodable(d: DataM) -> bool {
        d is I
    }

    open spec fn decodes_to(d: DataM, v: int) -> bool {
        d == DataM::I(v)
    }

    open spec fn decode_error(d: DataM) -> DataError {
        DataError::UnexpectedVariant { expected: "I" }
    }

    proof fn law_roundtrip(v: int, w: int) {
    }

    fn from_data(data: &Data) -> (r: Result<Integer, DataError>) {
        match data {
            Data::I { value } => Ok(value.copy()),
            _ => Err(DataError::UnexpectedVariant { expected: "I" }),
        }
    }
}

impl ToData for i64 {
    open spec fn encode(v: i64) -> DataM {
        DataM::I(v as int)
    }

    fn to_data(&self) -> (r: Data) {
        Data::I { value: Integer::from_i64(*self) }
    }
}

impl FromData for i64 {
    open spec fn decodable(d: DataM) -> bool {
        d matches DataM::I(v) && i64::MIN <= v <= i64::MAX
    }

    open spec fn decodes_to(d: DataM, v: i64) -> bool {
        d == DataM::I(v as int)
    }

    open spec fn decode_error(d: DataM) -> DataError {
        if d is I {
            DataError::UnexpectedVariant { expected: "I (fits in i64)" }
        } else {
            DataError::UnexpectedVariant { expected: "I" }
        }
    }

    proof fn law_roundtrip(v: i64, w: i64) {
    }

    fn from_data(data: &Data) -> (r: Result<i64, DataError>) {
        match data {
            Data::I { value } => match value.to_i64() {
                Some(v) => Ok(v),
                None => Err(DataError::UnexpectedVariant { expected: "I (fits in i64)" }),
            },
            _ => Err(DataError::UnexpectedVariant { expected: "I" }),
        }
    }
}

impl ToData for Vec<u8> {
    open spec fn encode(v: Seq<u8>) -> DataM {
        DataM::B(v)
    }

    fn to_data(&self) -> (r: Data) {
        Data::B { value: crate::duplicate::dup_bytes(self) }
    }
}

impl FromData for Vec<u8> {
    open spec fn decodable(d: DataM) -> bool {
        d is B
    }

    open spec fn decodes_to(d: DataM, v: Seq<u8>) -> bool {
        d == DataM::B(v)
    }

    open spec fn decode_error(d: DataM) -> DataError {
        DataError::UnexpectedVariant { expected: "B" }
    }

    proof fn law_roundtrip(v: Seq<u8>, w: Seq<u8>) {
    }

    fn from_data(data: &Data) -> (r: Result<Vec<u8>, DataError>) {
        match data {
            Data::B { value } => Ok(crate::duplicate::dup_bytes(value)),
            _ => Err(DataError::UnexpectedVariant { expected: "B" }),
        }
    }
}

impl ToData for Data {
    open spec fn encode(v: DataM) -> DataM {
        v
    }

    fn to_data(&self) -> (r: Data) {
        let r = self.duplicate();
        assert(r@ == self@);
        assert(<Data as ToData>::encode(self@) == self@);
        r
    }
}

impl FromData for Data {
    open spec fn decodable(d: DataM) -> bool {
        true
    }

    open spec fn decodes_to(d: DataM, v: DataM) -> bool {
        d == v
    }

    open spec fn decode_error(d: DataM) -> DataError {
        DataError::UnexpectedVariant { expected: "Data" }
    }

    proof fn law_roundtrip(v: DataM, w: DataM) {
    }

    fn from_data(data: &Data) -> (r: Result<Data, DataError>) {
        Ok(data.duplicate())
    }
}

impl<T: ToData> ToData for Box<T> {
    open spec fn encode(v: T::V) -> DataM {
        T::encode(v)
    }

    fn to_data(&self) -> (r: Data) {
        (**self).to_data()
    }
}

impl<T: FromData> FromData for Box<T> {
    open spec fn decodable(d: DataM) -> bool {
        T::decodable(d)
    }

    open spec fn decodes_to(d: DataM, v: T::V) -> bool {
        T::decodes_to(d, v)
    }

    proof fn law_roundtrip(v: T::V, w: T::V) {
        T::law_roundtrip(v, w);
    }

    open spec fn decode_error(d: DataM) -> DataError {
        T::decode_error(d)
    }

    fn from_data(data: &Data) -> (r: Result<Box<T>, DataError>) {
        match T::from_data(data) {
            Ok(v) => Ok(Box::new(v)),
            Err(e) => Err(e),
        }
    }
}

/// A boolean decodes back from its `Data`, and nothing else does from it.
pub proof fn law_bool_roundtrip(v: bool, w: bool)
    ensures
        <bool as FromData>::decodable(<bool as ToData>::encode(v)),
        <bool as FromData>::decodes_to(<bool as ToData>::encode(v), w) <==> w == v,
{
}

/// An integer decodes back from its `Data`, and nothing else does from it.
pub proof fn law_integer_roundtrip(v: int, w: int)
    ensures
        <Integer as FromData>::decodable(<Integer as ToData>::encode(v)),
        <Integer as FromData>::decodes_to(<Integer as ToData>::encode(v), w) <==> w == v,
{
}

/// An `i64` decodes back from its `Data`, and nothing else does from it.
pub proof fn law_i64_roundtrip(v: i64, w: i64)
    ensures
        <i64 as FromData>::decodable(<i64 as ToData>::encode(v)),
        <i64 as FromData>::decodes_to(<i64 as ToData>::encode(v), w) <==> w == v,
{
}

/// Bytes decode back from their `Data`, and nothing else does from it.
pub proof fn law_bytes_roundtrip(v: Seq<u8>, w: Seq<u8>)
    ensures
        <Vec<u8> as FromData>::decodable(<Vec<u8> as ToData>::encode(v)),
        <Vec<u8> as FromData>::decodes_to(<Vec<u8> as ToData>::encode(v), w) <==> w == v,
{
}

} // verus!
