//! Character-level helpers on strings: the operations that the compiler
//! needs on names (joining, comparing, splitting at a separator).
use vstd::prelude::*;

verus! {

broadcast use vstd::std_specs::vec::group_vec_axioms;

/// The characters of a string slice, in order.
pub fn chars_of(s: &str) -> (r: Vec<char>)
    ensures
        r@ == s@,
{
    let mut r: Vec<char> = Vec::new();
    for c in it: s.chars()
        invariant
            r@ == it.seq().take(it.index() as int),
            it.seq() == s@,
    {
        r.push(c);
    }
    r
}

/// `String::push`: appends one character.
#[verifier::external_body]
fn push_char(s: &mut String, c: char)
    ensures
        final(s)@ == old(s)@.push(c),
{
    s.push(c);
}

/// Builds a string from its characters.
pub fn string_of(cs: &[char]) -> (r: String)
    ensures
        r@ == cs@,
{
    let mut r = String::new();
    let mut i: usize = 0;
    while i < cs.len()
        invariant
            0 <= i <= cs@.len(),
            r@ == cs@.take(i as int),
        decreases cs@.len() - i,
    {
        push_char(&mut r, cs[i]);
        assert(cs@.take(i + 1) == cs@.take(i as int).push(cs@[i as int]));
        i += 1;
    }
    assert(cs@.take(cs@.len() as int) == cs@);
    r
}

/// Appends the characters of `other` to `s`.
pub fn push_str(s: &mut String, other: &str)
    ensures
        final(s)@ == old(s)@ + other@,
{
    let cs = chars_of(other);
    let ghost start = s@;
    let mut i: usize = 0;
    while i < cs.len()
        invariant
            0 <= i <= cs@.len(),
            cs@ == other@,
            s@ == start + cs@.take(i as int),
        decreases cs@.len() - i,
    {
        push_char(s, cs[i]);
        assert(cs@.take(i + 1) == cs@.take(i as int).push(cs@[i as int]));
        i += 1;
    }
    assert(cs@.take(cs@.len() as int) == cs@);
}

/// A copy of a string slice as an owned string.
pub fn owned(s: &str) -> (r: String)
    ensures
        r@ == s@,
{
    let mut r = String::new();
    push_str(&mut r, s);
    assert(Seq::<char>::empty() + s@ == s@);
    r
}

/// `a.b`: two names joined by a dot.
pub fn join_dot(a: &str, b: &str) -> (r: String)
    ensures
        r@ == a@ + seq!['.'] + b@,
{
    let mut r = owned(a);
    push_char(&mut r, '.');
    push_str(&mut r, b);
    r
}

/// Equality of two string slices, character by character.
pub fn str_eq(a: &str, b: &str) -> (r: bool)
    ensures
        r == (a@ == b@),
{
    let x = chars_of(a);
    let y = chars_of(b);
    if x.len() != y.len() {
        return false;
    }
    let mut i: usize = 0;
    while i < x.len()
        invariant
            x@ == a@,
            y@ == b@,
            x@.len() == y@.len(),
            0 <= i <= x@.len(),
            forall|j: int| 0 <= j < i ==> x@[j] == y@[j],
        decreases x@.len() - i,
    {
        if x[i] != y[i] {
            return false;
        }
        i += 1;
    }
    assert(x@ =~= y@);
    true
}

/// Lexicographic order on character sequences, by code point: the order in
/// which a sorted map of strings keeps its keys.
pub open spec fn seq_lt(a: Seq<char>, b: Seq<char>) -> bool
    decreases a.len(),
{
    if b.len() == 0 {
        false
    } else if a.len() == 0 {
        true
    } else if (a[0] as int) < (b[0] as int) {
        true
    } else if a[0] == b[0] {
        seq_lt(a.drop_first(), b.drop_first())
    } else {
        false
    }
}

/// No sequence is below itself.
pub proof fn lemma_seq_lt_irreflexive(a: Seq<char>)
    ensures
        !seq_lt(a, a),
    decreases a.len(),
{
    if a.len() > 0 {
        lemma_seq_lt_irreflexive(a.drop_first());
    }
}

/// The order is transitive.
pub proof fn lemma_seq_lt_transitive(a: Seq<char>, b: Seq<char>, c: Seq<char>)
    requires
        seq_lt(a, b),
        seq_lt(b, c),
    ensures
        seq_lt(a, c),
    decreases a.len(),
{
    if a.len() > 0 && a[0] == b[0] && b[0] == c[0] {
        lemma_seq_lt_transitive(a.drop_first(), b.drop_first(), c.drop_first());
    }
}

/// Any two distinct sequences are ordered one way or the other.
pub proof fn lemma_seq_lt_total(a: Seq<char>, b: Seq<char>)
    ensures
        a == b || seq_lt(a, b) || seq_lt(b, a),
    decreases a.len(),
{
    if a.len() > 0 && b.len() > 0 {
        if a[0] == b[0] {
            lemma_seq_lt_total(a.drop_first(), b.drop_first());
            if a.drop_first() == b.drop_first() {
                assert(a =~= seq![a[0]] + a.drop_first());
                assert(b =~= seq![b[0]] + b.drop_first());
            }
        } else {
            assert((a[0] as int) != (b[0] as int));
        }
    } else if a.len() == 0 && b.len() == 0 {
        assert(a =~= b);
    }
}

/// Lexicographic comparison of two string slices.
pub fn str_lt(a: &str, b: &str) -> (r: bool)
    ensures
        r == seq_lt(a@, b@),
{
    let x = chars_of(a);
    let y = chars_of(b);
    let mut i: usize = 0;
    assert(x@.skip(0) == x@ && y@.skip(0) == y@);
    while i < x.len() && i < y.len()
        invariant
            x@ == a@,
            y@ == b@,
            0 <= i <= x@.len(),
            i <= y@.len(),
            forall|j: int| 0 <= j < i ==> x@[j] == y@[j],
            seq_lt(a@, b@) == seq_lt(x@.skip(i as int), y@.skip(i as int)),
        decreases x@.len() - i,
    {
        let cx = x[i];
        let cy = y[i];
        assert(x@.skip(i as int)[0] == cx && y@.skip(i as int)[0] == cy);
        if cx < cy {
            return true;
        }
        if cx != cy {
            return false;
        }
        assert(x@.skip(i as int).drop_first() == x@.skip(i + 1));
        assert(y@.skip(i as int).drop_first() == y@.skip(i + 1));
        i += 1;
    }
    i < y.len()
}

/// `k` is a position at which `sep` occurs in `s`.
pub open spec fn occurs_at(s: Seq<char>, sep: Seq<char>, k: int) -> bool {
    0 <= k && k + sep.len() <= s.len() && s.subrange(k, k + sep.len()) == sep
}

/// What follows the last occurrence of `sep` in `s`, or the whole of `s` where
/// `sep` does not occur (the first piece that `rsplit` yields).
pub open spec fn after_last(s: Seq<char>, sep: Seq<char>) -> Seq<char> {
    if exists|k: int| occurs_at(s, sep, k) {
        let k = choose|k: int|
            occurs_at(s, sep, k) && forall|j: int| k < j ==> !occurs_at(s, sep, j);
        s.subrange(k + sep.len(), s.len() as int)
    } else {
        s
    }
}

/// `sep` occurs in `x` at position `k`.
fn occurs_exec(x: &Vec<char>, sep: &Vec<char>, k: usize) -> (r: bool)
    requires
        k + sep@.len() <= x@.len(),
    ensures
        r == occurs_at(x@, sep@, k as int),
{
    let n = x.len();
    let mut j: usize = 0;
    while j < sep.len()
        invariant
            n == x@.len(),
            k + sep@.len() <= x@.len(),
            0 <= j <= sep@.len(),
            forall|t: int| 0 <= t < j ==> x@[k + t] == sep@[t],
        decreases sep@.len() - j,
    {
        assert(k + j < x@.len());
        if x[k + j] != sep[j] {
            assert(x@.subrange(k as int, k + sep@.len())[j as int] != sep@[j as int]);
            return false;
        }
        j += 1;
    }
    assert(x@.subrange(k as int, k + sep@.len()) =~= sep@);
    true
}

/// The last piece of `s` split at `sep` (`s.rsplit(sep).next()`).
pub fn last_segment(s: &str, sep: &str) -> (r: String)
    requires
        sep@.len() > 0,
    ensures
        r@ == after_last(s@, sep@),
{
    let x = chars_of(s);
    let p = chars_of(sep);
    if p.len() > x.len() {
        assert(!exists|k: int| occurs_at(s@, sep@, k));
        return owned(s);
    }
    let mut k: usize = x.len() - p.len() + 1;
    while k > 0
        invariant
            x@ == s@,
            p@ == sep@,
            p@.len() <= x@.len(),
            k <= x@.len() - p@.len() + 1,
            forall|j: int| k <= j ==> !occurs_at(s@, sep@, j),
        decreases k,
    {
        k -= 1;
        if occurs_exec(&x, &p, k) {
            let ghost kk = k as int;
            assert(occurs_at(s@, sep@, kk) && forall|j: int| kk < j ==> !occurs_at(s@, sep@, j));
            let ghost c = choose|c: int|
                occurs_at(s@, sep@, c) && forall|j: int| c < j ==> !occurs_at(s@, sep@, j);
            assert(c == kk) by {
                if c < kk {
                } else if c > kk {
                }
            }
            let n = x.len();
            assert(k + p@.len() <= n);
            let tail = x.as_slice().split_at(k + p.len()).1;
            assert(tail@ == x@.subrange(k + p@.len(), x@.len() as int));
            return string_of(tail);
        }
    }
    assert(!exists|k: int| occurs_at(s@, sep@, k));
    owned(s)
}

/// `s` ends with `suffix`.
pub fn ends_with(s: &str, suffix: &str) -> (r: bool)
    ensures
        r == (suffix@.len() <= s@.len() && s@.subrange(s@.len() - suffix@.len(), s@.len() as int)
            == suffix@),
{
    let x = chars_of(s);
    let p = chars_of(suffix);
    if p.len() > x.len() {
        return false;
    }
    let r = occurs_exec(&x, &p, x.len() - p.len());
    r
}

} // verus!

verus! {

/// The decimal digit character of a value below 10.
pub open spec fn digit_char(d: int) -> char {
    (d + '0' as int) as char
}

/// Decimal text of a natural number.
pub open spec fn nat_decimal(n: nat) -> Seq<char>
    decreases n,
{
    if n < 10 {
        seq![digit_char(n as int)]
    } else {
        nat_decimal(n / 10).push(digit_char((n % 10) as int))
    }
}

/// Decimal text of an integer, with a leading `-` when it is negative.
pub open spec fn decimal(n: int) -> Seq<char> {
    if n < 0 {
        seq!['-'] + nat_decimal((-n) as nat)
    } else {
        nat_decimal(n as nat)
    }
}

fn push_nat_decimal(n: u64, out: &mut Vec<char>)
    ensures
        final(out)@ == old(out)@ + nat_decimal(n as nat),
    decreases n,
{
    if n >= 10 {
        push_nat_decimal(n / 10, out);
    }
    let d = (n % 10) as u8;
    let c = ((d as u32) + ('0' as u32)) as u8 as char;
    out.push(c);
    proof {
        if n >= 10 {
            assert(nat_decimal(n as nat) == nat_decimal((n / 10) as nat).push(digit_char((n % 10) as int)));
        }
    }
}

/// Decimal text of a natural number (as `format!("{}")` writes it).
pub fn nat_text(n: u64) -> (r: String)
    ensures
        r@ == nat_decimal(n as nat),
{
    let mut cs: Vec<char> = Vec::new();
    push_nat_decimal(n, &mut cs);
    assert(cs@ =~= nat_decimal(n as nat));
    string_of(cs.as_slice())
}

/// Decimal text of an integer (as `format!("{}")` writes it).
pub fn int_text(n: i64) -> (r: String)
    ensures
        r@ == decimal(n as int),
{
    let mut cs: Vec<char> = Vec::new();
    if n < 0 {
        cs.push('-');
        let m: u64 = if n == i64::MIN { 0x8000_0000_0000_0000u64 } else { (-n) as u64 };
        push_nat_decimal(m, &mut cs);
    } else {
        push_nat_decimal(n as u64, &mut cs);
        assert(cs@ == nat_decimal(n as nat));
    }
    string_of(cs.as_slice())
}

} // verus!
