//! Arbitrary-precision non-negative integers, held as big-endian magnitude
//! bytes (the wire form of the protocol), with their arithmetic supplied by
//! `num_bigint` behind trusted wrappers whose contracts state the exact
//! mathematical result.

use vstd::prelude::*;
use vstd::arithmetic::power::pow;

verus! {

/// The value that a big-endian magnitude byte string stands for.
pub open spec fn be_value(s: Seq<u8>) -> nat
    decreases s.len(),
{
    if s.len() == 0 {
        0
    } else {
        be_value(s.drop_last()) * 256 + s.last() as nat
    }
}

/// A byte string is canonical when it is the shortest big-endian form of its
/// value, except that zero is written as the single byte `0x00`.
pub open spec fn canonical(s: Seq<u8>) -> bool {
    s.len() >= 1 && (s.len() > 1 ==> s[0] != 0)
}

/// A non-negative arbitrary-precision integer.
#[derive(Debug)]
pub struct Num {
    pub bytes: Vec<u8>,
}

impl View for Num {
    type V = nat;

    open spec fn view(&self) -> nat {
        be_value(self.bytes@)
    }
}

pub proof fn lemma_be_value_push(s: Seq<u8>, b: u8)
    ensures
        be_value(s.push(b)) == be_value(s) * 256 + b,
{
    assert(s.push(b).drop_last() =~= s);
}

/// A leading zero byte does not change the value.
pub proof fn lemma_be_value_leading_zero(s: Seq<u8>)
    requires
        s.len() > 0,
        s[0] == 0,
    ensures
        be_value(s) == be_value(s.drop_first()),
    decreases s.len(),
{
    if s.len() == 1 {
        assert(s.drop_last() =~= Seq::<u8>::empty());
        assert(s.drop_first() =~= Seq::<u8>::empty());
    } else {
        let t = s.drop_last();
        lemma_be_value_leading_zero(t);
        assert(s.drop_first().drop_last() =~= t.drop_first());
        assert(s.drop_first().last() == s.last());
    }
}

/// Any run of leading zero bytes can be skipped without changing the value.
pub proof fn lemma_be_value_skip_zeros(s: Seq<u8>, i: int)
    requires
        0 <= i <= s.len(),
        forall|j: int| 0 <= j < i ==> s[j] == 0,
    ensures
        be_value(s.skip(i)) == be_value(s),
    decreases i,
{
    if i > 0 {
        lemma_be_value_skip_zeros(s, i - 1);
        let t = s.skip(i - 1);
        lemma_be_value_leading_zero(t);
        assert(t.drop_first() =~= s.skip(i));
    } else {
        assert(s.skip(0) =~= s);
    }
}

/// The value is zero exactly when every byte is zero.
pub proof fn lemma_be_value_zero(s: Seq<u8>)
    ensures
        (be_value(s) == 0) <==> (forall|j: int| 0 <= j < s.len() ==> s[j] == 0),
    decreases s.len(),
{
    if s.len() > 0 {
        let t = s.drop_last();
        lemma_be_value_zero(t);
        if be_value(s) == 0 {
            assert(forall|j: int| 0 <= j < t.len() ==> t[j] == s[j]);
        }
        if forall|j: int| 0 <= j < s.len() ==> s[j] == 0 {
            assert(forall|j: int| 0 <= j < t.len() ==> t[j] == 0) by {
                assert(forall|j: int| 0 <= j < t.len() ==> t[j] == s[j]);
            }
        }
    }
}

impl Num {
    /// Wrap magnitude-only big-endian bytes, as they come off the wire.
    pub fn from_bytes_be(bytes: Vec<u8>) -> (r: Num)
        ensures
            r@ == be_value(bytes@),
            r.bytes@ == bytes@,
    {
        Num { bytes }
    }

    /// Copy magnitude-only big-endian bytes into an integer.
    pub fn from_bytes_ref(bytes: &Vec<u8>) -> (r: Num)
        ensures
            r@ == be_value(bytes@),
            r.bytes@ == bytes@,
    {
        let mut copy: Vec<u8> = Vec::new();
        let mut i: usize = 0;
        while i < bytes.len()
            invariant
                i <= bytes.len(),
                copy@ =~= bytes@.subrange(0, i as int),
            decreases bytes.len() - i,
        {
            copy.push(*vstd::slice::slice_index_get(bytes.as_slice(), i));
            i = i + 1;
        }
        proof {
            assert(copy@ =~= bytes@);
        }
        Num { bytes: copy }
    }

    /// The value of a machine word, in eight big-endian bytes.
    pub fn from_u64(x: u64) -> (r: Num)
        ensures
            r@ == x,
    {
        let x6: u64 = x / 256;
        let x5: u64 = x6 / 256;
        let x4: u64 = x5 / 256;
        let x3: u64 = x4 / 256;
        let x2: u64 = x3 / 256;
        let x1: u64 = x2 / 256;
        let x0: u64 = x1 / 256;
        let mut bytes: Vec<u8> = Vec::new();
        let ghost e: Seq<u8> = bytes@;
        bytes.push((x0 % 256) as u8);
        proof {
            lemma_be_value_push(e, (x0 % 256) as u8);
        }
        let ghost s0 = bytes@;
        bytes.push((x1 % 256) as u8);
        proof {
            lemma_be_value_push(s0, (x1 % 256) as u8);
        }
        let ghost s1 = bytes@;
        bytes.push((x2 % 256) as u8);
        proof {
            lemma_be_value_push(s1, (x2 % 256) as u8);
        }
        let ghost s2 = bytes@;
        bytes.push((x3 % 256) as u8);
        proof {
            lemma_be_value_push(s2, (x3 % 256) as u8);
        }
        let ghost s3 = bytes@;
        bytes.push((x4 % 256) as u8);
        proof {
            lemma_be_value_push(s3, (x4 % 256) as u8);
        }
        let ghost s4 = bytes@;
        bytes.push((x5 % 256) as u8);
        proof {
            lemma_be_value_push(s4, (x5 % 256) as u8);
        }
        let ghost s5 = bytes@;
        bytes.push((x6 % 256) as u8);
        proof {
            lemma_be_value_push(s5, (x6 % 256) as u8);
        }
        let ghost s6 = bytes@;
        bytes.push((x % 256) as u8);
        proof {
            lemma_be_value_push(s6, (x % 256) as u8);
            assert(x0 < 256) by {
                assert(x6 < 0x100000000000000);
                assert(x5 < 0x1000000000000);
                assert(x4 < 0x10000000000);
                assert(x3 < 0x100000000);
                assert(x2 < 0x1000000);
                assert(x1 < 0x10000);
            }
            assert(x0 % 256 == x0);
        }
        Num { bytes }
    }

    /// The value of this integer is zero.
    pub fn is_zero(&self) -> (r: bool)
        ensures
            r == (self@ == 0),
    {
        let mut i: usize = 0;
        while i < self.bytes.len()
            invariant
                i <= self.bytes.len(),
                forall|j: int| 0 <= j < i ==> self.bytes@[j] == 0,
            decreases self.bytes.len() - i,
        {
            if *vstd::slice::slice_index_get(self.bytes.as_slice(), i) != 0 {
                proof {
                    lemma_be_value_zero(self.bytes@);
                }
                return false;
            }
            i = i + 1;
        }
        proof {
            lemma_be_value_zero(self.bytes@);
        }
        true
    }

    /// The canonical big-endian magnitude bytes of this value.
    pub fn to_bytes_be(&self) -> (r: Vec<u8>)
        ensures
            be_value(r@) == self@,
            canonical(r@),
    {
        let n: usize = self.bytes.len();
        let mut i: usize = 0;
        while i < n && *vstd::slice::slice_index_get(self.bytes.as_slice(), i) == 0
            invariant
                i <= n,
                n == self.bytes.len(),
                forall|j: int| 0 <= j < i ==> self.bytes@[j] == 0,
            decreases n - i,
        {
            i = i + 1;
        }
        if i == n {
            let mut v: Vec<u8> = Vec::new();
            v.push(0u8);
            proof {
                lemma_be_value_zero(self.bytes@);
                assert(v@ =~= seq![0u8]);
                assert(v@.drop_last() =~= Seq::<u8>::empty());
                assert(be_value(Seq::<u8>::empty()) == 0);
                assert(be_value(v@) == 0);
            }
            return v;
        }
        let mut v: Vec<u8> = Vec::new();
        let mut j: usize = i;
        while j < n
            invariant
                i <= j <= n,
                n == self.bytes.len(),
                v@ =~= self.bytes@.subrange(i as int, j as int),
            decreases n - j,
        {
            let b: u8 = *vstd::slice::slice_index_get(self.bytes.as_slice(), j);
            v.push(b);
            j = j + 1;
        }
        proof {
            assert(v@ =~= self.bytes@.skip(i as int));
            lemma_be_value_skip_zeros(self.bytes@, i as int);
        }
        v
    }
}

impl Clone for Num {
    /// A clone carries the same value.
    fn clone(&self) -> (r: Self)
        ensures
            r@ == self@,
    {
        let mut bytes: Vec<u8> = Vec::new();
        let mut i: usize = 0;
        while i < self.bytes.len()
            invariant
                i <= self.bytes.len(),
                bytes@ =~= self.bytes@.subrange(0, i as int),
            decreases self.bytes.len() - i,
        {
            bytes.push(*vstd::slice::slice_index_get(self.bytes.as_slice(), i));
            i = i + 1;
        }
        proof {
            assert(bytes@ =~= self.bytes@);
        }
        Num { bytes }
    }
}

/// Relies on `num_bigint::BigUint`: `from_bytes_be` reads magnitude-only
/// big-endian bytes, `*` multiplies, and `to_bytes_be` writes the product
/// back in the same byte order.
#[verifier::external_body]
pub(crate) fn num_mul(a: &Num, b: &Num) -> (r: Num)
    ensures
        r@ == a@ * b@,
{
    let x = num_bigint::BigUint::from_bytes_be(&a.bytes) * num_bigint::BigUint::from_bytes_be(
        &b.bytes,
    );
    Num { bytes: x.to_bytes_be() }
}

/// Relies on `num_bigint::BigUint`: `+` adds two magnitudes.
#[verifier::external_body]
pub(crate) fn num_add(a: &Num, b: &Num) -> (r: Num)
    ensures
        r@ == a@ + b@,
{
    let x = num_bigint::BigUint::from_bytes_be(&a.bytes) + num_bigint::BigUint::from_bytes_be(
        &b.bytes,
    );
    Num { bytes: x.to_bytes_be() }
}

/// Relies on `num_bigint::BigUint`: `-` subtracts, and panics on underflow,
/// which the precondition rules out.
#[verifier::external_body]
pub(crate) fn num_sub(a: &Num, b: &Num) -> (r: Num)
    requires
        b@ <= a@,
    ensures
        r@ == a@ - b@,
{
    let x = num_bigint::BigUint::from_bytes_be(&a.bytes) - num_bigint::BigUint::from_bytes_be(
        &b.bytes,
    );
    Num { bytes: x.to_bytes_be() }
}

/// Relies on `num_bigint::BigUint`: `%` takes the Euclidean remainder, and
/// panics on a zero modulus, which the precondition rules out.
#[verifier::external_body]
pub(crate) fn num_mod(a: &Num, m: &Num) -> (r: Num)
    requires
        m@ > 0,
    ensures
        r@ == a@ % m@,
{
    let x = num_bigint::BigUint::from_bytes_be(&a.bytes) % num_bigint::BigUint::from_bytes_be(
        &m.bytes,
    );
    Num { bytes: x.to_bytes_be() }
}

/// Relies on `num_bigint::BigUint`: `/` takes the Euclidean quotient, and
/// panics on a zero divisor, which the precondition rules out.
#[verifier::external_body]
pub(crate) fn num_div(a: &Num, d: &Num) -> (r: Num)
    requires
        d@ > 0,
    ensures
        r@ == a@ / d@,
{
    let x = num_bigint::BigUint::from_bytes_be(&a.bytes) / num_bigint::BigUint::from_bytes_be(
        &d.bytes,
    );
    Num { bytes: x.to_bytes_be() }
}

/// Relies on `num_bigint::BigUint::modpow`, documented to return
/// `(self ^ exponent) % modulus` and to panic on a zero modulus, which the
/// precondition rules out.
#[verifier::external_body]
pub(crate) fn num_mod_pow(base: &Num, exponent: &Num, modulus: &Num) -> (r: Num)
    requires
        modulus@ > 0,
    ensures
        r@ == pow(base@ as int, exponent@) % (modulus@ as int),
{
    let x = num_bigint::BigUint::from_bytes_be(&base.bytes).modpow(
        &num_bigint::BigUint::from_bytes_be(&exponent.bytes),
        &num_bigint::BigUint::from_bytes_be(&modulus.bytes),
    );
    Num { bytes: x.to_bytes_be() }
}

/// Relies on `num_bigint::BigUint`: `<` compares the two magnitudes.
#[verifier::external_body]
pub(crate) fn num_lt(a: &Num, b: &Num) -> (r: bool)
    ensures
        r == (a@ < b@),
{
    num_bigint::BigUint::from_bytes_be(&a.bytes) < num_bigint::BigUint::from_bytes_be(&b.bytes)
}

/// Relies on `num_bigint::BigUint`: `==` compares the two magnitudes.
#[verifier::external_body]
pub(crate) fn num_value_eq(a: &Num, b: &Num) -> (r: bool)
    ensures
        r == (a@ == b@),
{
    num_bigint::BigUint::from_bytes_be(&a.bytes) == num_bigint::BigUint::from_bytes_be(&b.bytes)
}

} // verus!
