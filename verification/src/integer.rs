//! Arbitrary-precision integers, as the on-chain `Integer` type needs them.
//!
//! An `Integer` holds its value as plain data: a sign and the base 2^32 digits
//! of its magnitude, least significant first. The arithmetic itself is done by
//! `num_bigint`; each operation converts to its `BigInt`, calls it, and converts
//! back.
use num_bigint::{BigInt, Sign};
use vstd::prelude::*;

verus! {

/// The value of base 2^32 digits, least significant first.
pub open spec fn digits_value(d: Seq<u32>) -> nat
    decreases d.len(),
{
    if d.len() == 0 {
        0
    } else {
        d[0] as nat + 0x1_0000_0000 * digits_value(d.subrange(1, d.len() as int))
    }
}

/// The value of a sign and a magnitude.
pub open spec fn signed_value(negative: bool, d: Seq<u32>) -> int {
    if negative {
        -digits_value(d)
    } else {
        digits_value(d) as int
    }
}

/// Truncated division (rounding toward zero), as Rust's `/` on integers.
pub open spec fn trunc_div(a: int, b: int) -> int {
    let q = (if a < 0 { -a } else { a }) / (if b < 0 { -b } else { b });
    if (a < 0) == (b < 0) {
        q
    } else {
        -q
    }
}

/// The remainder of truncated division, with the sign of the dividend.
pub open spec fn trunc_rem(a: int, b: int) -> int {
    a - b * trunc_div(a, b)
}

/// An integer of any size.
#[derive(Debug)]
pub struct Integer {
    negative: bool,
    magnitude: Vec<u32>,
}

/// Integers are equal when their values are, however their digits are
/// stored.
impl PartialEq for Integer {
    fn eq(&self, other: &Integer) -> (r: bool) {
        Integer::eq(self, other)
    }
}

impl vstd::std_specs::cmp::PartialEqSpecImpl for Integer {
    open spec fn obeys_eq_spec() -> bool {
        true
    }

    open spec fn eq_spec(&self, other: &Integer) -> bool {
        self@ == other@
    }
}

impl View for Integer {
    type V = int;

    closed spec fn view(&self) -> int {
        signed_value(self.negative, self.magnitude@)
    }
}

impl Integer {
    /// The integer with the given sign and base 2^32 digits (least significant first).
    pub fn from_sign_digits(negative: bool, magnitude: Vec<u32>) -> (r: Integer)
        ensures
            r@ == signed_value(negative, magnitude@),
    {
        Integer { negative, magnitude }
    }

    /// Whether the integer is stored with a negative sign.
    pub fn is_negative_sign(&self) -> (r: bool)
        ensures
            self@ == signed_value(r, self.digits_spec()),
    {
        self.negative
    }

    /// The stored digits of the magnitude.
    pub closed spec fn digits_spec(&self) -> Seq<u32> {
        self.magnitude@
    }

    /// The base 2^32 digits of the magnitude, least significant first.
    pub fn digits(&self) -> (r: &Vec<u32>)
        ensures
            r@ == self.digits_spec(),
            self@ == signed_value(self.is_negative_spec(), r@),
    {
        &self.magnitude
    }

    /// The stored sign.
    pub closed spec fn is_negative_spec(&self) -> bool {
        self.negative
    }

    /// A copy with the same value.
    pub fn copy(&self) -> (r: Integer)
        ensures
            r@ == self@,
    {
        let mut m: Vec<u32> = Vec::new();
        let mut i: usize = 0;
        while i < self.magnitude.len()
            invariant
                0 <= i <= self.magnitude@.len(),
                m@ == self.magnitude@.take(i as int),
            decreases self.magnitude@.len() - i,
        {
            m.push(self.magnitude[i]);
            assert(self.magnitude@.take(i + 1) == self.magnitude@.take(i as int).push(
                self.magnitude@[i as int],
            ));
            i += 1;
        }
        assert(self.magnitude@.take(self.magnitude@.len() as int) == self.magnitude@);
        Integer { negative: self.negative, magnitude: m }
    }

    /// Zero.
    pub fn zero() -> (r: Integer)
        ensures
            r@ == 0,
    {
        Integer { negative: false, magnitude: Vec::new() }
    }

    /// The integer with the value of an `i64`.
    pub fn from_i64(v: i64) -> (r: Integer)
        ensures
            r@ == v as int,
    {
        let negative = v < 0;
        let mag: u64 = if v < 0 {
            if v == i64::MIN {
                0x8000_0000_0000_0000u64
            } else {
                (-v) as u64
            }
        } else {
            v as u64
        };
        let r = Integer::from_u64(mag);
        Integer { negative, magnitude: r.magnitude }
    }

    /// The integer with the value of a `u64`.
    pub fn from_u64(v: u64) -> (r: Integer)
        ensures
            r@ == v as int,
            !r.is_negative_spec(),
    {
        let lo: u32 = (v % 0x1_0000_0000) as u32;
        let hi: u32 = (v / 0x1_0000_0000) as u32;
        let mut m: Vec<u32> = Vec::new();
        m.push(lo);
        m.push(hi);
        proof {
            let s = m@;
            assert(skip_two(s) =~= Seq::<u32>::empty());
            lemma_digits_split(s);
            assert(v == lo + 0x1_0000_0000 * hi);
        }
        Integer { negative: false, magnitude: m }
    }

    /// The integer with the value of a `usize`.
    pub fn from_usize(v: usize) -> (r: Integer)
        ensures
            r@ == v as int,
    {
        Integer::from_u64(v as u64)
    }

    /// `a + b` (`num_bigint::BigInt` addition).
    #[verifier::external_body]
    fn big_add(&self, other: &Integer) -> (r: Integer)
        ensures
            r@ == self@ + other@,
    {
        let a = BigInt::from_slice(if self.negative { Sign::Minus } else { Sign::Plus }, &self.magnitude);
        let b = BigInt::from_slice(if other.negative { Sign::Minus } else { Sign::Plus }, &other.magnitude);
        let (s, d) = (a + b).to_u32_digits();
        Integer { negative: s == Sign::Minus, magnitude: d }
    }

    /// `a - b` (`num_bigint::BigInt` subtraction).
    #[verifier::external_body]
    fn big_sub(&self, other: &Integer) -> (r: Integer)
        ensures
            r@ == self@ - other@,
    {
        let a = BigInt::from_slice(if self.negative { Sign::Minus } else { Sign::Plus }, &self.magnitude);
        let b = BigInt::from_slice(if other.negative { Sign::Minus } else { Sign::Plus }, &other.magnitude);
        let (s, d) = (a - b).to_u32_digits();
        Integer { negative: s == Sign::Minus, magnitude: d }
    }

    /// `a * b` (`num_bigint::BigInt` multiplication).
    #[verifier::external_body]
    fn big_mul(&self, other: &Integer) -> (r: Integer)
        ensures
            r@ == self@ * other@,
    {
        let a = BigInt::from_slice(if self.negative { Sign::Minus } else { Sign::Plus }, &self.magnitude);
        let b = BigInt::from_slice(if other.negative { Sign::Minus } else { Sign::Plus }, &other.magnitude);
        let (s, d) = (a * b).to_u32_digits();
        Integer { negative: s == Sign::Minus, magnitude: d }
    }

    /// `a / b`, rounding toward zero (`num_bigint::BigInt` division, which
    /// panics on a zero divisor).
    #[verifier::external_body]
    fn big_quot(&self, other: &Integer) -> (r: Integer)
        requires
            other@ != 0,
        ensures
            r@ == trunc_div(self@, other@),
    {
        let a = BigInt::from_slice(if self.negative { Sign::Minus } else { Sign::Plus }, &self.magnitude);
        let b = BigInt::from_slice(if other.negative { Sign::Minus } else { Sign::Plus }, &other.magnitude);
        let (s, d) = (a / b).to_u32_digits();
        Integer { negative: s == Sign::Minus, magnitude: d }
    }

    /// `a % b`, with the sign of `a` (`num_bigint::BigInt` remainder, which
    /// panics on a zero divisor).
    #[verifier::external_body]
    fn big_rem(&self, other: &Integer) -> (r: Integer)
        requires
            other@ != 0,
        ensures
            r@ == trunc_rem(self@, other@),
    {
        let a = BigInt::from_slice(if self.negative { Sign::Minus } else { Sign::Plus }, &self.magnitude);
        let b = BigInt::from_slice(if other.negative { Sign::Minus } else { Sign::Plus }, &other.magnitude);
        let (s, d) = (a % b).to_u32_digits();
        Integer { negative: s == Sign::Minus, magnitude: d }
    }

    /// `a == b` (`num_bigint::BigInt` equality).
    #[verifier::external_body]
    fn big_eq(&self, other: &Integer) -> (r: bool)
        ensures
            r == (self@ == other@),
    {
        let a = BigInt::from_slice(if self.negative { Sign::Minus } else { Sign::Plus }, &self.magnitude);
        let b = BigInt::from_slice(if other.negative { Sign::Minus } else { Sign::Plus }, &other.magnitude);
        a == b
    }

    /// `a < b` (`num_bigint::BigInt` order).
    #[verifier::external_body]
    fn big_lt(&self, other: &Integer) -> (r: bool)
        ensures
            r == (self@ < other@),
    {
        let a = BigInt::from_slice(if self.negative { Sign::Minus } else { Sign::Plus }, &self.magnitude);
        let b = BigInt::from_slice(if other.negative { Sign::Minus } else { Sign::Plus }, &other.magnitude);
        a < b
    }

    /// `a + b`.
    pub fn add(&self, other: &Integer) -> (r: Integer)
        ensures
            r@ == self@ + other@,
    {
        self.big_add(other)
    }

    /// `a - b`.
    pub fn sub(&self, other: &Integer) -> (r: Integer)
        ensures
            r@ == self@ - other@,
    {
        self.big_sub(other)
    }

    /// `a * b`.
    pub fn mul(&self, other: &Integer) -> (r: Integer)
        ensures
            r@ == self@ * other@,
    {
        self.big_mul(other)
    }

    /// `a / b`, rounding toward zero.
    pub fn quot(&self, other: &Integer) -> (r: Integer)
        requires
            other@ != 0,
        ensures
            r@ == trunc_div(self@, other@),
    {
        self.big_quot(other)
    }

    /// `a % b`, with the sign of `a`.
    pub fn rem(&self, other: &Integer) -> (r: Integer)
        requires
            other@ != 0,
        ensures
            r@ == trunc_rem(self@, other@),
    {
        self.big_rem(other)
    }

    /// `a == b`.
    pub fn eq(&self, other: &Integer) -> (r: bool)
        ensures
            r == (self@ == other@),
    {
        self.big_eq(other)
    }

    /// `a < b`.
    pub fn lt(&self, other: &Integer) -> (r: bool)
        ensures
            r == (self@ < other@),
    {
        self.big_lt(other)
    }

    /// `a <= b`.
    pub fn le(&self, other: &Integer) -> (r: bool)
        ensures
            r == (self@ <= other@),
    {
        !other.lt(self)
    }

    /// The value as an `i64`, where it fits.
    pub fn to_i64(&self) -> (r: Option<i64>)
        ensures
            r is Some <==> i64::MIN <= self@ <= i64::MAX,
            r matches Some(v) ==> v as int == self@,
    {
        let lo = Integer::from_i64(i64::MIN);
        let hi = Integer::from_i64(i64::MAX);
        if self.lt(&lo) || hi.lt(self) {
            return None;
        }
        let d = &self.magnitude;
        let n = d.len();
        let l0: u64 = if n > 0 { d[0] as u64 } else { 0 };
        let l1: u64 = if n > 1 { d[1] as u64 } else { 0 };
        proof {
            lemma_digits_split(d@);
            let rest = digits_value(skip_two(d@));
            assert(digits_value(d@) <= 0x8000_0000_0000_0000);
            assert(rest == 0) by (nonlinear_arith)
                requires
                    digits_value(d@) == l0 + 0x1_0000_0000 * l1 + 0x1_0000_0000_0000_0000 * rest,
                    digits_value(d@) <= 0x8000_0000_0000_0000,
                    l0 >= 0,
                    l1 >= 0,
                    rest >= 0,
            ;
            assert(l1 * 0x1_0000_0000 + l0 <= 0xffff_ffff_ffff_ffff) by (nonlinear_arith)
                requires
                    l1 <= 0xffff_ffff,
                    l0 <= 0xffff_ffff,
            ;
        }
        let m: u64 = l1 * 0x1_0000_0000 + l0;
        if self.negative {
            if m == 0x8000_0000_0000_0000u64 {
                Some(i64::MIN)
            } else {
                Some(-(m as i64))
            }
        } else {
            Some(m as i64)
        }
    }
}

/// The digits after the first two.
pub open spec fn skip_two(d: Seq<u32>) -> Seq<u32> {
    if d.len() >= 2 {
        d.subrange(2, d.len() as int)
    } else {
        Seq::empty()
    }
}

/// The value of digits is that of the first two plus 2^64 times the rest.
pub proof fn lemma_digits_split(d: Seq<u32>)
    ensures
        digits_value(d) == (if d.len() > 0 { d[0] as int } else { 0 }) + 0x1_0000_0000 * (if d.len()
            > 1 {
            d[1] as int
        } else {
            0
        }) + 0x1_0000_0000_0000_0000 * digits_value(skip_two(d)),
{
    if d.len() == 0 {
    } else if d.len() == 1 {
        assert(d.subrange(1, 1) =~= Seq::<u32>::empty());
    } else {
        let t = d.subrange(1, d.len() as int);
        assert(t.subrange(1, t.len() as int) =~= skip_two(d));
        assert(digits_value(t) == t[0] as nat + 0x1_0000_0000 * digits_value(skip_two(d)));
        let x = digits_value(skip_two(d)) as int;
        let d1 = t[0] as int;
        assert(0x1_0000_0000 * (d1 + 0x1_0000_0000 * x) == 0x1_0000_0000 * d1
            + 0x1_0000_0000_0000_0000 * x) by (nonlinear_arith);
    }
}

} // verus!
