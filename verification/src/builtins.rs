//! The UPLC builtin functions, run in Rust: the same results that the
//! on-chain builtins give, for testing off chain.
use crate::arith::{floor_div, floor_mod, lemma_floor_from_trunc, lemma_floor_mod_from_trunc};
use crate::data::{Data, DataM, datas_of, pairs_of};
use crate::integer::{Integer, trunc_div, trunc_rem};
use sha2::Digest;
use vstd::prelude::*;

verus! {

broadcast use vstd::std_specs::vec::group_vec_axioms;

// ---------------------------------------------------------------------------
// Integers
// ---------------------------------------------------------------------------

/// `a + b`.
pub fn add_integer(a: Integer, b: Integer) -> (r: Integer)
    ensures
        r@ == a@ + b@,
{
    a.add(&b)
}

/// `a - b`.
pub fn subtract_integer(a: Integer, b: Integer) -> (r: Integer)
    ensures
        r@ == a@ - b@,
{
    a.sub(&b)
}

/// `a * b`.
pub fn multiply_integer(a: Integer, b: Integer) -> (r: Integer)
    ensures
        r@ == a@ * b@,
{
    a.mul(&b)
}

/// Division rounding toward negative infinity, as Plutus `divideInteger`.
pub fn divide_integer(a: Integer, b: Integer) -> (r: Integer)
    requires
        b@ != 0,
    ensures
        r@ == floor_div(a@, b@),
{
    let q = a.quot(&b);
    let r = a.rem(&b);
    proof {
        lemma_floor_from_trunc(a@, b@);
    }
    let zero = Integer::zero();
    if !r.eq(&zero) && (r.lt(&zero) != b.lt(&zero)) {
        q.sub(&Integer::from_i64(1))
    } else {
        q
    }
}

/// Division rounding toward zero, as Plutus `quotientInteger`.
pub fn quotient_integer(a: Integer, b: Integer) -> (r: Integer)
    requires
        b@ != 0,
    ensures
        r@ == trunc_div(a@, b@),
{
    a.quot(&b)
}

/// The remainder of division rounding toward zero, with the sign of `a`,
/// as Plutus `remainderInteger`.
pub fn remainder_integer(a: Integer, b: Integer) -> (r: Integer)
    requires
        b@ != 0,
    ensures
        r@ == trunc_rem(a@, b@),
{
    a.rem(&b)
}

/// The remainder of division rounding toward negative infinity, with the
/// sign of `b`, as Plutus `modInteger`.
pub fn mod_integer(a: Integer, b: Integer) -> (r: Integer)
    requires
        b@ != 0,
    ensures
        r@ == floor_mod(a@, b@),
{
    proof {
        lemma_floor_mod_from_trunc(a@, b@);
    }
    let r1 = a.rem(&b);
    let s = r1.add(&b);
    s.rem(&b)
}

/// `a == b`.
pub fn equals_integer(a: Integer, b: Integer) -> (r: bool)
    ensures
        r == (a@ == b@),
{
    a.eq(&b)
}

/// `a < b`.
pub fn less_than_integer(a: Integer, b: Integer) -> (r: bool)
    ensures
        r == (a@ < b@),
{
    a.lt(&b)
}

/// `a <= b`.
pub fn less_than_equals_integer(a: Integer, b: Integer) -> (r: bool)
    ensures
        r == (a@ <= b@),
{
    a.le(&b)
}

// ---------------------------------------------------------------------------
// Byte strings
// ---------------------------------------------------------------------------

/// `a` followed by `b`.
pub fn append_bytestring(a: Vec<u8>, b: Vec<u8>) -> (r: Vec<u8>)
    ensures
        r@ == a@ + b@,
{
    let mut result = a;
    let mut other = b;
    result.append(&mut other);
    result
}

/// `bs` with `byte` in front.
pub fn cons_bytestring(byte: u8, bs: Vec<u8>) -> (r: Vec<u8>)
    ensures
        r@ == seq![byte] + bs@,
{
    let mut result: Vec<u8> = Vec::new();
    result.push(byte);
    let mut rest = bs;
    result.append(&mut rest);
    result
}

/// The bytes that `slice_bytestring` takes: none where `start` is outside
/// the string; else from `start` on, `len` of them (as many as there are),
/// or all of them where `len` is negative.
pub open spec fn slice_spec(start: int, len: int, bs: Seq<u8>) -> Seq<u8> {
    if start < 0 || start >= bs.len() {
        Seq::empty()
    } else if len >= 0 {
        bs.subrange(start, if start + len < bs.len() { start + len } else { bs.len() as int })
    } else {
        bs.subrange(start, bs.len() as int)
    }
}

/// A slice of a byte string.
pub fn slice_bytestring(start: i64, len: i64, bs: Vec<u8>) -> (r: Vec<u8>)
    requires
        !(0 <= start < bs@.len() && len < 0 && start + len >= 0),
    ensures
        r@ == slice_spec(start as int, len as int, bs@),
{
    if start < 0 || start as u64 >= bs.len() as u64 {
        return Vec::new();
    }
    let s = start as usize;
    let end: usize = if len < 0 {
        bs.len()
    } else if (len as u64) < ((bs.len() - s) as u64) {
        s + len as usize
    } else {
        bs.len()
    };
    let mut r: Vec<u8> = Vec::new();
    let mut i: usize = s;
    while i < end
        invariant
            s <= i <= end <= bs@.len(),
            r@ == bs@.subrange(s as int, i as int),
        decreases end - i,
    {
        r.push(bs[i]);
        assert(bs@.subrange(s as int, i + 1) == bs@.subrange(s as int, i as int).push(bs@[i as int]));
        i += 1;
    }
    r
}

/// The length of a byte string.
pub fn length_of_bytestring(bs: &[u8]) -> (r: Integer)
    ensures
        r@ == bs@.len(),
{
    Integer::from_usize(bs.len())
}

/// The byte at `index`.
pub fn index_bytestring(bs: &[u8], index: i64) -> (r: u8)
    requires
        0 <= index < bs@.len(),
    ensures
        r == bs@[index as int],
{
    bs[index as usize]
}

/// `a == b`.
pub fn equals_bytestring(a: &[u8], b: &[u8]) -> (r: bool)
    ensures
        r == (a@ == b@),
{
    compare_bytes(a, b).1
}

/// `a` comes before `b` in lexicographic order of bytes (a proper prefix
/// comes first).
pub open spec fn bytes_lt(a: Seq<u8>, b: Seq<u8>) -> bool {
    exists|k: int|
        0 <= k <= a.len() && k <= b.len() && a.subrange(0, k) == b.subrange(0, k) && (if k == a.len() {
            k < b.len()
        } else {
            k < b.len() && a[k] < b[k]
        })
}

/// Lexicographic comparison of byte strings: whether `a < b` and whether
/// they are equal.
fn compare_bytes(a: &[u8], b: &[u8]) -> (r: (bool, bool))
    ensures
        r.0 == bytes_lt(a@, b@),
        r.1 == (a@ == b@),
{
    let mut i: usize = 0;
    while i < a.len() && i < b.len()
        invariant
            0 <= i <= a@.len(),
            i <= b@.len(),
            a@.subrange(0, i as int) == b@.subrange(0, i as int),
        decreases a@.len() - i,
    {
        if a[i] != b[i] {
            let lt = a[i] < b[i];
            proof {
                if lt {
                    assert(bytes_lt(a@, b@));
                } else {
                    assert forall|k: int|
                        0 <= k <= a@.len() && k <= b@.len() && a@.subrange(0, k) == b@.subrange(0, k) implies !(
                        if k == a@.len() {
                            k < b@.len()
                        } else {
                            k < b@.len() && a@[k] < b@[k]
                        }) by {
                        if k > i {
                            assert(a@.subrange(0, k)[i as int] == b@.subrange(0, k)[i as int]);
                        } else if k < i {
                            assert(a@.subrange(0, i as int)[k] == b@.subrange(0, i as int)[k]);
                        }
                    }
                }
            }
            return (lt, false);
        }
        assert(a@.subrange(0, i + 1) =~= a@.subrange(0, i as int).push(a@[i as int]));
        assert(b@.subrange(0, i + 1) =~= b@.subrange(0, i as int).push(b@[i as int]));
        i += 1;
    }
    let lt = a.len() < b.len();
    let eq = a.len() == b.len();
    proof {
        if i == a@.len() {
            assert(a@.subrange(0, i as int) =~= a@);
        }
        if i == b@.len() {
            assert(b@.subrange(0, i as int) =~= b@);
        }
        if lt {
            assert(bytes_lt(a@, b@));
        } else {
            assert forall|k: int|
                0 <= k <= a@.len() && k <= b@.len() && a@.subrange(0, k) == b@.subrange(0, k) implies !(if k
                == a@.len() {
                k < b@.len()
            } else {
                k < b@.len() && a@[k] < b@[k]
            }) by {
                if k < a@.len() && k < b@.len() {
                    assert(a@.subrange(0, i as int)[k] == b@.subrange(0, i as int)[k]);
                }
            }
        }
        if eq {
            assert(a@ =~= b@);
        }
    }
    (lt, eq)
}

/// `a < b` in lexicographic order.
pub fn less_than_bytestring(a: &[u8], b: &[u8]) -> (r: bool)
    ensures
        r == bytes_lt(a@, b@),
{
    compare_bytes(a, b).0
}

/// `a <= b` in lexicographic order.
pub fn less_than_equals_bytestring(a: &[u8], b: &[u8]) -> (r: bool)
    ensures
        r == (bytes_lt(a@, b@) || a@ == b@),
{
    let (lt, eq) = compare_bytes(a, b);
    lt || eq
}

// ---------------------------------------------------------------------------
// Strings
// ---------------------------------------------------------------------------

/// `a` followed by `b`.
pub fn append_string(a: String, b: String) -> (r: String)
    ensures
        r@ == a@ + b@,
{
    let mut r = a;
    crate::text::push_str(&mut r, b.as_str());
    r
}

/// `a == b`.
pub fn equals_string(a: &str, b: &str) -> (r: bool)
    ensures
        r == (a@ == b@),
{
    crate::text::str_eq(a, b)
}

/// The UTF-8 encoding of a string.
pub fn encode_utf8(s: &str) -> (r: Vec<u8>)
    ensures
        r@ == vstd::utf8::encode_utf8(s@),
{
    vstd::slice::slice_to_vec(s.as_bytes())
}

/// `String::from_utf8`: the string that the bytes encode, where they are
/// valid UTF-8 (its documentation: an error exactly where they are not).
#[verifier::external_body]
fn string_from_utf8(bytes: Vec<u8>) -> (r: Option<String>)
    ensures
        r is Some <==> vstd::utf8::valid_utf8(bytes@),
        r matches Some(s) ==> vstd::utf8::encode_utf8(s@) == bytes@,
{
    String::from_utf8(bytes).ok()
}

/// Decoding what a string encodes to gives the string back, and two
/// strings with the same encoding are the same.
pub proof fn law_utf8_roundtrip(s: Seq<char>, t: Seq<char>)
    ensures
        vstd::utf8::valid_utf8(vstd::utf8::encode_utf8(s)),
        vstd::utf8::decode_utf8(vstd::utf8::encode_utf8(s)) == s,
        vstd::utf8::encode_utf8(s) == vstd::utf8::encode_utf8(t) ==> s == t,
{
    vstd::utf8::encode_utf8_valid_utf8(s);
    vstd::utf8::encode_utf8_decode_utf8(s);
    vstd::utf8::encode_utf8_decode_utf8(t);
}

/// The string that valid UTF-8 bytes encode.
pub fn decode_utf8(bs: &[u8]) -> (r: String)
    requires
        vstd::utf8::valid_utf8(bs@),
    ensures
        vstd::utf8::encode_utf8(r@) == bs@,
        r@ == vstd::utf8::decode_utf8(bs@),
{
    let r = match string_from_utf8(vstd::slice::slice_to_vec(bs)) {
        Some(s) => s,
        None => vstd::pervasive::unreached(),
    };
    proof {
        vstd::utf8::encode_utf8_decode_utf8(r@);
    }
    r
}

// ---------------------------------------------------------------------------
// Hashes
// ---------------------------------------------------------------------------

/// The SHA-256 digest of the bytes.
pub uninterp spec fn sha2_256_of(data: Seq<u8>) -> Seq<u8>;

/// The SHA3-256 digest of the bytes.
pub uninterp spec fn sha3_256_of(data: Seq<u8>) -> Seq<u8>;

/// The BLAKE2b digest of the bytes, with a 32-byte output.
pub uninterp spec fn blake2b_256_of(data: Seq<u8>) -> Seq<u8>;

/// The BLAKE2b digest of the bytes, with a 28-byte output.
pub uninterp spec fn blake2b_224_of(data: Seq<u8>) -> Seq<u8>;

/// `sha2::Sha256::digest`: the 32-byte SHA-256 digest of the bytes.
#[verifier::external_body]
fn sha256_digest(data: &[u8]) -> (r: Vec<u8>)
    ensures
        r@ == sha2_256_of(data@),
        r@.len() == 32,
{
    sha2::Sha256::digest(data).to_vec()
}

/// `sha3::Sha3_256::digest`: the 32-byte SHA3-256 digest of the bytes.
#[verifier::external_body]
fn sha3_256_digest(data: &[u8]) -> (r: Vec<u8>)
    ensures
        r@ == sha3_256_of(data@),
        r@.len() == 32,
{
    sha3::Sha3_256::digest(data).to_vec()
}

/// `blake2::Blake2b<U32>::digest`: the 32-byte BLAKE2b digest of the bytes.
#[verifier::external_body]
fn blake2b_256_digest(data: &[u8]) -> (r: Vec<u8>)
    ensures
        r@ == blake2b_256_of(data@),
        r@.len() == 32,
{
    blake2::Blake2b::<blake2::digest::consts::U32>::digest(data).to_vec()
}

/// `blake2::Blake2b<U28>::digest`: the 28-byte BLAKE2b digest of the bytes.
#[verifier::external_body]
fn blake2b_224_digest(data: &[u8]) -> (r: Vec<u8>)
    ensures
        r@ == blake2b_224_of(data@),
        r@.len() == 28,
{
    blake2::Blake2b::<blake2::digest::consts::U28>::digest(data).to_vec()
}

/// SHA-256.
pub fn sha2_256(data: &[u8]) -> (r: Vec<u8>)
    ensures
        r@ == sha2_256_of(data@),
        r@.len() == 32,
{
    sha256_digest(data)
}

/// SHA3-256.
pub fn sha3_256(data: &[u8]) -> (r: Vec<u8>)
    ensures
        r@ == sha3_256_of(data@),
        r@.len() == 32,
{
    sha3_256_digest(data)
}

/// BLAKE2b with a 256-bit output.
pub fn blake2b_256(data: &[u8]) -> (r: Vec<u8>)
    ensures
        r@ == blake2b_256_of(data@),
        r@.len() == 32,
{
    blake2b_256_digest(data)
}

/// BLAKE2b with a 224-bit output.
pub fn blake2b_224(data: &[u8]) -> (r: Vec<u8>)
    ensures
        r@ == blake2b_224_of(data@),
        r@.len() == 28,
{
    blake2b_224_digest(data)
}

// ---------------------------------------------------------------------------
// Data
// ---------------------------------------------------------------------------

/// `Constr tag args`; the tag must fit in an `i64`.
pub fn constr_data(tag: Integer, args: Vec<Data>) -> (r: Data)
    requires
        i64::MIN <= tag@ <= i64::MAX,
    ensures
        r@ == DataM::Constr(tag@ as i64, datas_of(args@)),
{
    match tag.to_i64() {
        Some(t) => Data::Constr { tag: t, args },
        None => vstd::pervasive::unreached(),
    }
}

/// A map of Data pairs.
pub fn map_data(values: Vec<(Data, Data)>) -> (r: Data)
    ensures
        r@ == DataM::Entries(pairs_of(values@)),
{
    Data::Entries { values }
}

/// A list of Data.
pub fn list_data(values: Vec<Data>) -> (r: Data)
    ensures
        r@ == DataM::List(datas_of(values@)),
{
    Data::List { values }
}

/// An integer as Data.
pub fn i_data(value: Integer) -> (r: Data)
    ensures
        r@ == DataM::I(value@),
{
    Data::I { value }
}

/// A byte string as Data.
pub fn b_data(value: Vec<u8>) -> (r: Data)
    ensures
        r@ == DataM::B(value@),
{
    Data::B { value }
}

/// The tag and fields of a `Constr`.
pub fn un_constr_data(data: &Data) -> (r: (Integer, Vec<Data>))
    requires
        data@ is Constr,
    ensures
        data@ == DataM::Constr(r.0@ as i64, datas_of(r.1@)),
        i64::MIN <= r.0@ <= i64::MAX,
{
    match data {
        Data::Constr { tag, args } => {
            let d = data.duplicate();
            match d {
                Data::Constr { args: copy, .. } => (Integer::from_i64(*tag), copy),
                _ => vstd::pervasive::unreached(),
            }
        },
        _ => vstd::pervasive::unreached(),
    }
}

/// The pairs of a map.
pub fn un_map_data(data: &Data) -> (r: Vec<(Data, Data)>)
    requires
        data@ is Entries,
    ensures
        data@ == DataM::Entries(pairs_of(r@)),
{
    match data.duplicate() {
        Data::Entries { values } => values,
        _ => vstd::pervasive::unreached(),
    }
}

/// The elements of a list.
pub fn un_list_data(data: &Data) -> (r: Vec<Data>)
    requires
        data@ is List,
    ensures
        data@ == DataM::List(datas_of(r@)),
{
    match data.duplicate() {
        Data::List { values } => values,
        _ => vstd::pervasive::unreached(),
    }
}

/// The integer of an `I`.
pub fn un_i_data(data: &Data) -> (r: Integer)
    requires
        data@ is I,
    ensures
        data@ == DataM::I(r@),
{
    match data {
        Data::I { value } => value.copy(),
        _ => vstd::pervasive::unreached(),
    }
}

/// The bytes of a `B`.
pub fn un_b_data(data: &Data) -> (r: Vec<u8>)
    requires
        data@ is B,
    ensures
        data@ == DataM::B(r@),
{
    match data {
        Data::B { value } => crate::duplicate::dup_bytes(value),
        _ => vstd::pervasive::unreached(),
    }
}

/// `a == b`, structurally.
pub fn equals_data(a: &Data, b: &Data) -> (r: bool)
    ensures
        r == (a@ == b@),
{
    a.equals(b)
}

} // verus!
