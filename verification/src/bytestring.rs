//! The on-chain ByteString type.
use crate::data::{Data, DataError, DataM, FromData, ToData};
use crate::model::Ty;
use crate::sir_type::{HasSIRType, SIRType};
use vstd::prelude::*;

verus! {

/// Byte-wise equality.
pub fn bytes_eq(a: &Vec<u8>, b: &Vec<u8>) -> (r: bool)
    ensures
        r == (a@ == b@),
{
    if a.len() != b.len() {
        return false;
    }
    let mut i: usize = 0;
    while i < a.len()
        invariant
            0 <= i <= a@.len(),
            a@.len() == b@.len(),
            forall|j: int| 0 <= j < i ==> a@[j] == b@[j],
        decreases a@.len() - i,
    {
        if a[i] != b[i] {
            return false;
        }
        i += 1;
    }
    assert(a@ =~= b@);
    true
}

/// `c` is a hexadecimal digit.
pub open spec fn is_hex_digit(c: char) -> bool {
    ('0' <= c && c <= '9') || ('a' <= c && c <= 'f') || ('A' <= c && c <= 'F')
}

/// The value of a hexadecimal digit.
pub open spec fn hex_digit_value(c: char) -> int {
    if '0' <= c && c <= '9' {
        c as int - '0' as int
    } else if 'a' <= c && c <= 'f' {
        c as int - 'a' as int + 10
    } else {
        c as int - 'A' as int + 10
    }
}

/// Two characters that stand for a byte, as an unsigned base-16 number of
/// two characters reads: two hex digits, or `+` and one hex digit.
pub open spec fn is_hex_pair(c1: char, c2: char) -> bool {
    is_hex_digit(c2) && (is_hex_digit(c1) || c1 == '+')
}

/// The byte that a hex pair stands for.
pub open spec fn hex_pair_value(c1: char, c2: char) -> int {
    if c1 == '+' {
        hex_digit_value(c2)
    } else {
        16 * hex_digit_value(c1) + hex_digit_value(c2)
    }
}

/// A string that `ByteString::from_hex` accepts: pairs of characters, each a
/// hex pair.
pub open spec fn is_hex_text(s: Seq<char>) -> bool {
    s.len() % 2 == 0 && forall|i: int| 0 <= i < s.len() / 2 ==> #[trigger] is_hex_pair(s[2 * i], s[2 * i + 1])
}

/// The bytes that a hex text stands for.
pub open spec fn hex_bytes(s: Seq<char>) -> Seq<u8> {
    Seq::new((s.len() / 2) as nat, |i: int| hex_pair_value(s[2 * i], s[2 * i + 1]) as u8)
}

/// The lower-case hex digit of a value below 16.
pub open spec fn hex_char(v: int) -> char {
    if v < 10 {
        (v + '0' as int) as char
    } else {
        (v - 10 + 'a' as int) as char
    }
}

/// Lower-case hex text of bytes, two digits per byte.
pub open spec fn hex_text(b: Seq<u8>) -> Seq<char> {
    Seq::new(2 * b.len(), |i: int| if i % 2 == 0 { hex_char((b[i / 2] / 16) as int) } else { hex_char((b[i / 2] % 16) as int) })
}

fn digit_value(c: char) -> (r: u8)
    requires
        is_hex_digit(c),
    ensures
        r as int == hex_digit_value(c),
{
    if '0' <= c && c <= '9' {
        (c as u32 - '0' as u32) as u8
    } else if 'a' <= c && c <= 'f' {
        (c as u32 - 'a' as u32 + 10) as u8
    } else {
        (c as u32 - 'A' as u32 + 10) as u8
    }
}

fn digit_char(v: u8) -> (r: char)
    requires
        v < 16,
    ensures
        r == hex_char(v as int),
{
    if v < 10 {
        ((v as u32 + '0' as u32) as u8) as char
    } else {
        ((v as u32 - 10 + 'a' as u32) as u8) as char
    }
}

/// On-chain ByteString: a sequence of bytes, used for hashes, keys, token
/// names and policy ids.
#[derive(Debug, Clone, PartialEq, Eq, PartialOrd, Ord, Hash)]
pub struct ByteString(Vec<u8>);

impl View for ByteString {
    type V = Seq<u8>;

    closed spec fn view(&self) -> Seq<u8> {
        self.0@
    }
}

impl ByteString {
    /// The empty ByteString.
    pub fn new() -> (r: ByteString)
        ensures
            r@ == Seq::<u8>::empty(),
    {
        ByteString(Vec::new())
    }

    /// The ByteString with the given bytes.
    pub fn from_vec(v: Vec<u8>) -> (r: ByteString)
        ensures
            r@ == v@,
    {
        ByteString(v)
    }

    /// The ByteString with a copy of the given bytes.
    pub fn from_slice(s: &[u8]) -> (r: ByteString)
        ensures
            r@ == s@,
    {
        let mut v: Vec<u8> = Vec::new();
        let mut i: usize = 0;
        while i < s.len()
            invariant
                0 <= i <= s@.len(),
                v@ == s@.take(i as int),
            decreases s@.len() - i,
        {
            v.push(s[i]);
            assert(s@.take(i + 1) == s@.take(i as int).push(s@[i as int]));
            i += 1;
        }
        assert(s@.take(s@.len() as int) == s@);
        ByteString(v)
    }

    /// The bytes written in hex text, two characters per byte.
    pub fn from_hex(s: &str) -> (r: ByteString)
        requires
            is_hex_text(s@),
        ensures
            r@ == hex_bytes(s@),
    {
        let cs = crate::text::chars_of(s);
        let len = cs.len();
        let n = len / 2;
        let mut v: Vec<u8> = Vec::new();
        let mut i: usize = 0;
        while i < n
            invariant
                cs@ == s@,
                len == cs@.len(),
                n == s@.len() / 2,
                is_hex_text(s@),
                0 <= i <= n,
                v@.len() == i,
                forall|j: int| 0 <= j < i ==> #[trigger] v@[j] == hex_bytes(s@)[j],
            decreases n - i,
        {
            assert(is_hex_pair(s@[2 * i], s@[2 * i + 1]));
            let c1 = cs[2 * i];
            let c2 = cs[2 * i + 1];
            let lo = digit_value(c2);
            let b: u8 = if c1 == '+' {
                lo
            } else {
                let hi = digit_value(c1);
                hi * 16 + lo
            };
            v.push(b);
            i += 1;
        }
        assert(v@ =~= hex_bytes(s@));
        ByteString(v)
    }

    /// The bytes.
    pub fn as_bytes(&self) -> (r: &[u8])
        ensures
            r@ == self@,
    {
        self.0.as_slice()
    }

    /// The bytes, as a vector.
    pub fn to_vec(self) -> (r: Vec<u8>)
        ensures
            r@ == self@,
    {
        self.0
    }

    /// The number of bytes.
    pub fn len(&self) -> (r: usize)
        ensures
            r == self@.len(),
    {
        self.0.len()
    }

    /// There are no bytes.
    pub fn is_empty(&self) -> (r: bool)
        ensures
            r == (self@.len() == 0),
    {
        self.0.len() == 0
    }

    /// Lower-case hex text of the bytes, two digits per byte.
    pub fn to_hex(&self) -> (r: String)
        ensures
            r@ == hex_text(self@),
    {
        let mut cs: Vec<char> = Vec::new();
        let mut i: usize = 0;
        while i < self.0.len()
            invariant
                0 <= i <= self.0@.len(),
                cs@.len() == 2 * i,
                forall|j: int| 0 <= j < 2 * i ==> #[trigger] cs@[j] == hex_text(self.0@)[j],
            decreases self.0@.len() - i,
        {
            let b = self.0[i];
            cs.push(digit_char(b / 16));
            cs.push(digit_char(b % 16));
            proof {
                assert((2 * i) / 2 == i && (2 * i + 1) / 2 == i) by (nonlinear_arith);
                assert((2 * i) % 2 == 0 && (2 * i + 1) % 2 == 1) by (nonlinear_arith);
            }
            i += 1;
        }
        assert(cs@ =~= hex_text(self.0@));
        crate::text::string_of(cs.as_slice())
    }

    /// A copy of the ByteString.
    pub fn duplicate(&self) -> (r: ByteString)
        ensures
            r@ == self@,
    {
        ByteString(crate::duplicate::dup_bytes(&self.0))
    }

    /// Byte-wise equality.
    pub fn equals(&self, other: &ByteString) -> (r: bool)
        ensures
            r == (self@ == other@),
    {
        bytes_eq(&self.0, &other.0)
    }
}

impl ToData for ByteString {
    open spec fn encode(v: Seq<u8>) -> DataM {
        DataM::B(v)
    }

    fn to_data(&self) -> (r: Data) {
        Data::B { value: crate::duplicate::dup_bytes(&self.0) }
    }
}

impl FromData for ByteString {
    open spec fn decodable(d: DataM) -> bool {
        d is B
    }

    open spec fn decodes_to(d: DataM, v: Seq<u8>) -> bool {
        d == DataM::B(v)
    }

    open spec fn decode_error(d: DataM) -> DataError {
        DataError::UnexpectedVariant { expected: "B (ByteString)" }
    }

    proof fn law_roundtrip(v: Seq<u8>, w: Seq<u8>) {
    }

    fn from_data(data: &Data) -> (r: Result<ByteString, DataError>) {
        match data {
            Data::B { value } => Ok(ByteString(crate::duplicate::dup_bytes(value))),
            _ => Err(DataError::UnexpectedVariant { expected: "B (ByteString)" }),
        }
    }
}

impl HasSIRType for ByteString {
    open spec fn sir_type_spec() -> Ty {
        Ty::ByteString
    }

    fn sir_type() -> (r: SIRType) {
        SIRType::ByteString
    }
}

/// A byte string decodes back from its `Data`, and nothing else does from
/// it.
pub proof fn law_bytestring_roundtrip(v: Seq<u8>, w: Seq<u8>)
    ensures
        <ByteString as FromData>::decodable(<ByteString as ToData>::encode(v)),
        <ByteString as FromData>::decodes_to(<ByteString as ToData>::encode(v), w) <==> w == v,
{
}

/// The hex text of bytes is two lower-case hex digits per byte, and
/// reading it gives the bytes back.
pub proof fn law_hex_roundtrip(b: Seq<u8>)
    ensures
        hex_text(b).len() == 2 * b.len(),
        forall|i: int|
            0 <= i < hex_text(b).len() ==> ('0' <= #[trigger] hex_text(b)[i] <= '9') || ('a' <= hex_text(b)[i]
                <= 'f'),
        is_hex_text(hex_text(b)),
        hex_bytes(hex_text(b)) == b,
{
    assert forall|i: int| 0 <= i < hex_text(b).len() implies ('0' <= #[trigger] hex_text(b)[i] <= '9') || (
    'a' <= hex_text(b)[i] <= 'f') by {
        let v = if i % 2 == 0 { (b[i / 2] / 16) as int } else { (b[i / 2] % 16) as int };
        assert(0 <= v < 16);
        assert(hex_text(b)[i] == hex_char(v));
    }
    let t = hex_text(b);
    assert forall|i: int| 0 <= i < t.len() / 2 implies #[trigger] is_hex_pair(t[2 * i], t[2 * i + 1]) && hex_pair_value(t[2 * i], t[2 * i + 1]) == b[i] by {
        assert((2 * i) / 2 == i && (2 * i + 1) / 2 == i) by (nonlinear_arith);
        assert((2 * i) % 2 == 0 && (2 * i + 1) % 2 == 1) by (nonlinear_arith);
        let hi = b[i] / 16;
        let lo = b[i] % 16;
        assert(16 * hi + lo == b[i]);
    }
    assert(hex_bytes(t) =~= b);
}

impl Default for ByteString {
    fn default() -> (r: ByteString)
        ensures
            r@ == Seq::<u8>::empty(),
    {
        ByteString::new()
    }
}

impl From<Vec<u8>> for ByteString {
    fn from(v: Vec<u8>) -> (r: ByteString) {
        ByteString(v)
    }
}

impl vstd::std_specs::convert::FromSpecImpl<Vec<u8>> for ByteString {
    open spec fn obeys_from_spec() -> bool {
        true
    }

    closed spec fn from_spec(v: Vec<u8>) -> ByteString {
        ByteString(v)
    }
}

impl From<ByteString> for Vec<u8> {
    fn from(b: ByteString) -> (r: Vec<u8>) {
        b.0
    }
}

impl vstd::std_specs::convert::FromSpecImpl<ByteString> for Vec<u8> {
    open spec fn obeys_from_spec() -> bool {
        true
    }

    closed spec fn from_spec(b: ByteString) -> Vec<u8> {
        b.0
    }
}

impl AsRef<[u8]> for ByteString {
    fn as_ref(&self) -> (r: &[u8]) {
        self.0.as_slice()
    }
}

/// Converting bytes to a `ByteString` keeps them, and so does converting
/// back.
pub proof fn lemma_from_vec_view(v: Vec<u8>, b: ByteString)
    ensures
        <ByteString as vstd::std_specs::convert::FromSpec<Vec<u8>>>::from_spec(v)@ == v@,
        <Vec<u8> as vstd::std_specs::convert::FromSpec<ByteString>>::from_spec(b)@ == b@,
{
}

} // verus!
