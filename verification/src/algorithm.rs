//! The Chaum-Pedersen engine: parameter selection, two-point modular
//! exponentiation, random challenge generation, the response solver and the
//! verification predicate, all over a prime-order subgroup.

use vstd::prelude::*;
use vstd::arithmetic::power::pow;
use vstd::arithmetic::power2::pow2;
use vstd::arithmetic::div_mod::{
    lemma_fundamental_div_mod, lemma_mod_multiples_vanish, lemma_mod_twice,
    lemma_mod_division_less_than_divisor,
};
use crate::num::{Num, be_value, lemma_be_value_push, num_mul, num_add, num_sub, num_mod, num_div,
    num_mod_pow, num_lt, num_value_eq};

verus! {

/// The modulus of the built-in 256-bit parameter table, a safe prime.
pub open spec fn fixed_p_256() -> nat {
    42765216643065397982265462252423826320512529931694366715111734768493812630447nat
}

/// The subgroup order of the built-in 256-bit parameter table,
/// `(fixed_p_256() - 1) / 2`.
pub open spec fn fixed_q_256() -> nat {
    21382608321532698991132731126211913160256264965847183357555867384246906315223nat
}

/// Append one byte to a big-endian magnitude, tracking the value.
fn push_be_byte(bytes: &mut Vec<u8>, b: u8)
    ensures
        be_value(final(bytes)@) == be_value(old(bytes)@) * 256 + b,
{
    bytes.push(b);
    proof {
        lemma_be_value_push(old(bytes)@, b);
    }
}

/// `pow(b, e) % m`, as a natural number.
pub open spec fn pow_mod(b: nat, e: nat, m: nat) -> nat
    recommends
        m > 0,
{
    (pow(b as int, e) % (m as int)) as nat
}

/// What the group parameters must satisfy: `p = 2q + 1`, the generators lie
/// strictly between 1 and `p`, and both have order dividing `q`, so that
/// they generate the subgroup of order `q`.
pub open spec fn valid_parameters(p: nat, q: nat, g: nat, h: nat) -> bool {
    &&& p == 2 * q + 1
    &&& q > 1
    &&& 1 < g < p
    &&& 1 < h < p
    &&& pow_mod(g, q, p) == 1
    &&& pow_mod(h, q, p) == 1
}

/// One side of the verification equation:
/// `(base^s mod p) * (y^c mod p) mod p == r`.
pub open spec fn verify_commitment_equation(p: nat, base: nat, y: nat, r: nat, s: nat, c: nat) -> bool {
    (pow_mod(base, s, p) * pow_mod(y, c, p)) % p == r
}

/// The whole verification predicate, over both generators.
pub open spec fn spec_verify(
    p: nat,
    g: nat,
    h: nat,
    y1: nat,
    y2: nat,
    r1: nat,
    r2: nat,
    s: nat,
    c: nat,
) -> bool {
    verify_commitment_equation(p, g, y1, r1, s, c) && verify_commitment_equation(
        p,
        h,
        y2,
        r2,
        s,
        c,
    )
}

/// Why a set of parameters could not be produced.
#[derive(Clone, Copy, PartialEq, Eq, Structural, Debug)]
pub enum ParameterError {
    /// The fixed-parameter table has no entry for the requested bit size,
    /// or the size is below what the safe-prime sampler supports.
    UnsupportedBitSize,
    /// The values at hand failed the subgroup checks.
    InvalidParameters,
}

/// The public parameters of the protocol.
#[derive(Debug)]
pub struct ChaumPedersenParameters {
    /// The safe-prime modulus.
    pub p: Num,
    /// The order of the subgroup, `(p - 1) / 2`.
    pub q: Num,
    /// The first generator of the subgroup.
    pub g: Num,
    /// The second generator of the subgroup.
    pub h: Num,
    /// The bit length requested of `p`.
    pub bit_size: u16,
}

impl ChaumPedersenParameters {
    /// Well-formed parameters: the subgroup conditions hold and the bit size
    /// is large enough that a challenge of at least 2 exists below
    /// `2^bit_size`.
    pub open spec fn wf(&self) -> bool {
        &&& valid_parameters(self.p@, self.q@, self.g@, self.h@)
        &&& self.bit_size >= 2
    }
}

impl Clone for ChaumPedersenParameters {
    /// A clone carries the same values.
    fn clone(&self) -> (r: Self)
        ensures
            r.p@ == self.p@,
            r.q@ == self.q@,
            r.g@ == self.g@,
            r.h@ == self.h@,
            r.bit_size == self.bit_size,
            r.wf() == self.wf(),
    {
        ChaumPedersenParameters {
            p: self.p.clone(),
            q: self.q.clone(),
            g: self.g.clone(),
            h: self.h.clone(),
            bit_size: self.bit_size,
        }
    }
}

#[verifier::external_type_specification]
#[verifier::external_body]
pub struct ExStdRng(rand::rngs::StdRng);

/// Relies on `rand::rngs::StdRng::from_entropy`: a fresh generator seeded
/// from system entropy.  Nothing is assumed of the values it will yield.
/// It can abort only if the operating system's entropy source fails, an
/// environmental failure no precondition can exclude.
#[verifier::external_body]
fn rng_from_entropy() -> rand::rngs::StdRng {
    rand::SeedableRng::from_entropy()
}

/// Relies on `num_bigint::RandBigInt::gen_biguint`, which returns a
/// uniformly random integer of the given number of bits, hence a value
/// below `2^bits`.
#[verifier::external_body]
fn rand_bits(rng: &mut rand::rngs::StdRng, bits: u64) -> (r: Num)
    ensures
        r@ < pow2(bits as nat),
{
    let x = num_bigint::RandBigInt::gen_biguint(rng, bits);
    Num { bytes: x.to_bytes_be() }
}

/// Relies on `num_primes::Generator::safe_prime`, which draws candidates of
/// at most `bits` bits until one passes its primality and safe-primality
/// tests, so the result is below `2^bits`.  The sampler's inner primality
/// test misbehaves on tiny values: it rejects 2 outright, and on 3 it draws
/// from a degenerate random range and panics, so it can reject or panic on
/// the candidates 3 and 7 and never accepts a safe prime of fewer than four
/// bits.  The precondition therefore admits only sizes large enough that
/// those candidates are drawn with vanishing probability, comparable to an
/// identifier collision.  Nothing else is assumed of the value: the caller
/// checks at run time every further property it needs.
#[verifier::external_body]
fn safe_prime_bytes(bits: usize) -> (r: Vec<u8>)
    requires
        bits >= 32,
    ensures
        be_value(r@) < pow2(bits as nat),
{
    num_primes::Generator::safe_prime(bits).to_bytes_be()
}

/// A power of two as a number: a leading byte of `2^(e mod 8)` followed by
/// `e / 8` zero bytes.
fn pow2_num(e: u16) -> (r: Num)
    ensures
        r@ == pow2(e as nat),
{
    let low: u16 = e % 8;
    let lead: u8 = match low {
        0 => 1,
        1 => 2,
        2 => 4,
        3 => 8,
        4 => 16,
        5 => 32,
        6 => 64,
        _ => 128,
    };
    let mut bytes: Vec<u8> = Vec::new();
    proof {
        vstd::arithmetic::power2::lemma2_to64();
        assert(be_value(Seq::<u8>::empty()) == 0);
        assert(lead == pow2(low as nat));
    }
    push_be_byte(&mut bytes, lead);
    let zeros: u16 = e / 8;
    let mut j: u16 = 0;
    while j < zeros
        invariant
            j <= zeros,
            low < 8,
            be_value(bytes@) == pow2((low + 8 * j) as nat),
        decreases zeros - j,
    {
        push_be_byte(&mut bytes, 0);
        proof {
            vstd::arithmetic::power2::lemma_pow2_adds((low + 8 * j) as nat, 8);
            vstd::arithmetic::power2::lemma2_to64();
        }
        j = j + 1;
    }
    proof {
        assert(low + 8 * zeros == e);
    }
    Num { bytes }
}

/// Check the subgroup conditions of `valid_parameters` at run time, so that
/// nothing about the stored or sampled constants has to be taken on faith.
pub fn parameters_are_valid(ps: &ChaumPedersenParameters) -> (r: bool)
    ensures
        r == valid_parameters(ps.p@, ps.q@, ps.g@, ps.h@),
{
    let one = Num::from_u64(1);
    let two = Num::from_u64(2);
    if !num_lt(&one, &ps.g) || !num_lt(&ps.g, &ps.p) {
        return false;
    }
    if !num_lt(&one, &ps.h) || !num_lt(&ps.h, &ps.p) {
        return false;
    }
    if !num_lt(&one, &ps.q) {
        return false;
    }
    let two_q_plus_one = num_add(&num_mul(&two, &ps.q), &one);
    if !num_value_eq(&ps.p, &two_q_plus_one) {
        return false;
    }
    let gq = num_mod_pow(&ps.g, &ps.q, &ps.p);
    if !num_value_eq(&gq, &one) {
        return false;
    }
    let hq = num_mod_pow(&ps.h, &ps.q, &ps.p);
    num_value_eq(&hq, &one)
}

/// The Chaum-Pedersen engine: immutable parameters and the one mutable
/// piece, the random source.
#[derive(Debug)]
pub struct ChaumPedersenAlgorthim {
    /// The public parameters the engine computes over.
    pub parameters: ChaumPedersenParameters,
    /// The random source, seeded from system entropy at construction.
    pub rng: rand::rngs::StdRng,
}

impl ChaumPedersenAlgorthim {
    /// The engine is well-formed when its parameters are.
    pub open spec fn wf(&self) -> bool {
        self.parameters.wf()
    }

    /// Build an engine around the given parameters, with a random source
    /// seeded from system entropy.
    pub fn new(parameters: &ChaumPedersenParameters) -> (r: ChaumPedersenAlgorthim)
        requires
            parameters.wf(),
        ensures
            r.wf(),
            r.parameters.p@ == parameters.p@,
            r.parameters.q@ == parameters.q@,
            r.parameters.g@ == parameters.g@,
            r.parameters.h@ == parameters.h@,
            r.parameters.bit_size == parameters.bit_size,
    {
        ChaumPedersenAlgorthim { parameters: parameters.clone(), rng: rng_from_entropy() }
    }

    /// Look up or sample parameters of the requested bit length.  With
    /// `fixed_parameters`, a built-in table holds one 256-bit entry; any
    /// other size is refused.  Otherwise safe primes are sampled, with a
    /// bounded number of redraws, until one of the requested length comes
    /// back (the sampler bounds its output only from above), and `g = 4`,
    /// `h = 9` are used, both quadratic residues modulo a safe prime;
    /// sampled sizes below 32 bits are refused, since there the sampler
    /// itself misbehaves.  Every returned set has passed the run-time
    /// subgroup checks.
    pub fn find_parameters(bit_size: u16, fixed_parameters: bool) -> (r: Result<
        ChaumPedersenParameters,
        ParameterError,
    >)
        ensures
            r matches Ok(ps) ==> ps.wf() && ps.bit_size == bit_size,
            fixed_parameters ==> (r == Err::<ChaumPedersenParameters, ParameterError>(
                ParameterError::UnsupportedBitSize,
            ) <==> bit_size != 256),
            fixed_parameters && bit_size == 256 ==> ((r is Ok) <==> valid_parameters(
                fixed_p_256(),
                fixed_q_256(),
                4,
                9,
            )),
            fixed_parameters && bit_size == 256 ==> (r matches Ok(ps) ==> ps.p@ == fixed_p_256()
                && ps.q@ == fixed_q_256() && ps.g@ == 4 && ps.h@ == 9),
            !fixed_parameters ==> (r == Err::<ChaumPedersenParameters, ParameterError>(
                ParameterError::UnsupportedBitSize,
            ) <==> bit_size < 32),
            !fixed_parameters ==> (r matches Ok(ps) ==> ps.g@ == 4 && ps.h@ == 9 && pow2(
                (bit_size - 1) as nat,
            ) <= ps.p@ < pow2(bit_size as nat)),
    {
        if fixed_parameters {
            if bit_size != 256 {
                return Err(ParameterError::UnsupportedBitSize);
            }
            let mut p_bytes: Vec<u8> = Vec::new();
            push_be_byte(&mut p_bytes, 0x5e);
            push_be_byte(&mut p_bytes, 0x8c);
            push_be_byte(&mut p_bytes, 0x41);
            push_be_byte(&mut p_bytes, 0x3e);
            push_be_byte(&mut p_bytes, 0x14);
            push_be_byte(&mut p_bytes, 0x52);
            push_be_byte(&mut p_bytes, 0x69);
            push_be_byte(&mut p_bytes, 0xf1);
            push_be_byte(&mut p_bytes, 0x27);
            push_be_byte(&mut p_bytes, 0xaf);
            push_be_byte(&mut p_bytes, 0x7b);
            push_be_byte(&mut p_bytes, 0x9c);
            push_be_byte(&mut p_bytes, 0x7f);
            push_be_byte(&mut p_bytes, 0x94);
            push_be_byte(&mut p_bytes, 0xea);
            push_be_byte(&mut p_bytes, 0x3c);
            push_be_byte(&mut p_bytes, 0xa5);
            push_be_byte(&mut p_bytes, 0x97);
            push_be_byte(&mut p_bytes, 0xc5);
            push_be_byte(&mut p_bytes, 0x2d);
            push_be_byte(&mut p_bytes, 0x7e);
            push_be_byte(&mut p_bytes, 0x22);
            push_be_byte(&mut p_bytes, 0x22);
            push_be_byte(&mut p_bytes, 0x3e);
            push_be_byte(&mut p_bytes, 0x12);
            push_be_byte(&mut p_bytes, 0xaf);
            push_be_byte(&mut p_bytes, 0x3f);
            push_be_byte(&mut p_bytes, 0x01);
            push_be_byte(&mut p_bytes, 0x95);
            push_be_byte(&mut p_bytes, 0x15);
            push_be_byte(&mut p_bytes, 0xc3);
            push_be_byte(&mut p_bytes, 0xaf);
            let mut q_bytes: Vec<u8> = Vec::new();
            push_be_byte(&mut q_bytes, 0x2f);
            push_be_byte(&mut q_bytes, 0x46);
            push_be_byte(&mut q_bytes, 0x20);
            push_be_byte(&mut q_bytes, 0x9f);
            push_be_byte(&mut q_bytes, 0x0a);
            push_be_byte(&mut q_bytes, 0x29);
            push_be_byte(&mut q_bytes, 0x34);
            push_be_byte(&mut q_bytes, 0xf8);
            push_be_byte(&mut q_bytes, 0x93);
            push_be_byte(&mut q_bytes, 0xd7);
            push_be_byte(&mut q_bytes, 0xbd);
            push_be_byte(&mut q_bytes, 0xce);
            push_be_byte(&mut q_bytes, 0x3f);
            push_be_byte(&mut q_bytes, 0xca);
            push_be_byte(&mut q_bytes, 0x75);
            push_be_byte(&mut q_bytes, 0x1e);
            push_be_byte(&mut q_bytes, 0x52);
            push_be_byte(&mut q_bytes, 0xcb);
            push_be_byte(&mut q_bytes, 0xe2);
            push_be_byte(&mut q_bytes, 0x96);
            push_be_byte(&mut q_bytes, 0xbf);
            push_be_byte(&mut q_bytes, 0x11);
            push_be_byte(&mut q_bytes, 0x11);
            push_be_byte(&mut q_bytes, 0x1f);
            push_be_byte(&mut q_bytes, 0x09);
            push_be_byte(&mut q_bytes, 0x57);
            push_be_byte(&mut q_bytes, 0x9f);
            push_be_byte(&mut q_bytes, 0x80);
            push_be_byte(&mut q_bytes, 0xca);
            push_be_byte(&mut q_bytes, 0x8a);
            push_be_byte(&mut q_bytes, 0xe1);
            push_be_byte(&mut q_bytes, 0xd7);
            proof {
                assert(be_value(p_bytes@) == fixed_p_256());
                assert(be_value(q_bytes@) == fixed_q_256());
            }
            let ps = ChaumPedersenParameters {
                p: Num::from_bytes_be(p_bytes),
                q: Num::from_bytes_be(q_bytes),
                g: Num::from_u64(4),
                h: Num::from_u64(9),
                bit_size,
            };
            if parameters_are_valid(&ps) {
                Ok(ps)
            } else {
                Err(ParameterError::InvalidParameters)
            }
        } else {
            if bit_size < 32 {
                return Err(ParameterError::UnsupportedBitSize);
            }
            let one = Num::from_u64(1);
            let two = Num::from_u64(2);
            let bound = pow2_num(bit_size - 1);
            let mut attempts: usize = 0;
            while attempts < 32
                invariant
                    !fixed_parameters,
                    bit_size >= 32,
                    bound@ == pow2((bit_size - 1) as nat),
                    one@ == 1,
                    two@ == 2,
                decreases 32 - attempts,
            {
                let p = Num::from_bytes_be(safe_prime_bytes(bit_size as usize));
                // The sampler bounds its output only from above; redraw
                // until the requested length actually comes back.
                if !num_lt(&p, &bound) {
                    proof {
                        vstd::arithmetic::power2::lemma2_to64();
                        if bit_size > 32 {
                            vstd::arithmetic::power2::lemma_pow2_strictly_increases(
                                31,
                                (bit_size - 1) as nat,
                            );
                        }
                        assert(p@ > 2);
                    }
                    let q = num_div(&num_sub(&p, &one), &two);
                    let ps = ChaumPedersenParameters {
                        p,
                        q,
                        g: Num::from_u64(4),
                        h: Num::from_u64(9),
                        bit_size,
                    };
                    if parameters_are_valid(&ps) {
                        return Ok(ps);
                    }
                }
                attempts = attempts + 1;
            }
            Err(ParameterError::InvalidParameters)
        }
    }

    /// A borrowed view of the engine's parameters.
    pub fn get_parameters(&self) -> (r: &ChaumPedersenParameters)
        ensures
            r == &self.parameters,
    {
        &self.parameters
    }

    /// Raise both generators to the exponent `x` modulo `p`.
    pub fn exponentiation(&self, x: &Num) -> (r: (Num, Num))
        requires
            self.wf(),
        ensures
            r.0@ == pow_mod(self.parameters.g@, x@, self.parameters.p@),
            r.1@ == pow_mod(self.parameters.h@, x@, self.parameters.p@),
    {
        proof {
            lemma_mod_division_less_than_divisor(
                pow(self.parameters.g@ as int, x@),
                self.parameters.p@ as int,
            );
            lemma_mod_division_less_than_divisor(
                pow(self.parameters.h@ as int, x@),
                self.parameters.p@ as int,
            );
        }
        let y1 = num_mod_pow(&self.parameters.g, x, &self.parameters.p);
        let y2 = num_mod_pow(&self.parameters.h, x, &self.parameters.p);
        (y1, y2)
    }

    /// Draw a random challenge: a value of at most `bit_size` bits,
    /// resampled while it is below 2.  The retry count is bounded; if every
    /// draw fell below 2 (an event of vanishing probability), the smallest
    /// admissible challenge is returned.
    pub fn generate_random(&mut self) -> (r: Num)
        requires
            old(self).wf(),
        ensures
            final(self).wf(),
            final(self).parameters == old(self).parameters,
            2 <= r@ < pow2(old(self).parameters.bit_size as nat),
    {
        proof {
            vstd::arithmetic::power2::lemma2_to64();
            if self.parameters.bit_size > 2 {
                vstd::arithmetic::power2::lemma_pow2_strictly_increases(
                    2,
                    self.parameters.bit_size as nat,
                );
            }
        }
        let two = Num::from_u64(2);
        let bits: u64 = self.parameters.bit_size as u64;
        let mut c = rand_bits(&mut self.rng, bits);
        let mut attempts: usize = 0;
        while attempts < 64
            invariant
                self.wf(),
                self.parameters == old(self).parameters,
                bits == old(self).parameters.bit_size,
                two@ == 2,
                c@ < pow2(bits as nat),
            decreases 64 - attempts,
        {
            if !num_lt(&c, &two) {
                return c;
            }
            c = rand_bits(&mut self.rng, bits);
            attempts = attempts + 1;
        }
        two
    }

    /// The prover's response `s = (k - c * x) mod q`, mapped into `[0, q)`.
    pub fn solve_challenge(&self, x: &Num, k: &Num, c: &Num) -> (s: Num)
        requires
            self.wf(),
        ensures
            s@ < self.parameters.q@,
            ((s@ + c@ * x@) as int) % (self.parameters.q@ as int) == (k@ as int) % (
            self.parameters.q@ as int),
    {
        let q = &self.parameters.q;
        let t = num_mod(&num_mul(c, x), q);
        let kq = num_mod(k, q);
        let s = if num_lt(&kq, &t) {
            num_sub(&num_add(&kq, q), &t)
        } else {
            num_sub(&kq, &t)
        };
        proof {
            let qi = self.parameters.q@ as int;
            let ki = k@ as int;
            let cx = (c@ * x@) as int;
            let si = s@ as int;
            assert(t@ == cx % qi);
            assert(kq@ == ki % qi);
            lemma_fundamental_div_mod(cx, qi);
            lemma_mod_division_less_than_divisor(cx, qi);
            lemma_mod_division_less_than_divisor(ki, qi);
            let d = cx / qi;
            if kq@ < t@ {
                assert(si + cx == qi * (d + 1) + kq@) by {
                    vstd::arithmetic::mul::lemma_mul_is_distributive_add(qi, d, 1);
                }
                lemma_mod_multiples_vanish(d + 1, kq@ as int, qi);
            } else {
                assert(si + cx == qi * d + kq@);
                lemma_mod_multiples_vanish(d, kq@ as int, qi);
            }
            lemma_mod_twice(ki, qi);
        }
        s
    }

    /// The verifier's predicate: `v1 = g^s * y1^c mod p` must equal `r1`,
    /// and `v2 = h^s * y2^c mod p` must equal `r2`.
    pub fn verify(&self, y1: &Num, y2: &Num, r1: &Num, r2: &Num, s: &Num, c: &Num) -> (r: bool)
        requires
            self.wf(),
        ensures
            r == spec_verify(
                self.parameters.p@,
                self.parameters.g@,
                self.parameters.h@,
                y1@,
                y2@,
                r1@,
                r2@,
                s@,
                c@,
            ),
    {
        let p = &self.parameters.p;
        proof {
            lemma_mod_division_less_than_divisor(pow(self.parameters.g@ as int, s@), p@ as int);
            lemma_mod_division_less_than_divisor(pow(self.parameters.h@ as int, s@), p@ as int);
            lemma_mod_division_less_than_divisor(pow(y1@ as int, c@), p@ as int);
            lemma_mod_division_less_than_divisor(pow(y2@ as int, c@), p@ as int);
        }
        let v1 = num_mod(&num_mul(&num_mod_pow(&self.parameters.g, s, p), &num_mod_pow(y1, c, p)), p);
        let v2 = num_mod(&num_mul(&num_mod_pow(&self.parameters.h, s, p), &num_mod_pow(y2, c, p)), p);
        let ok1 = num_value_eq(&v1, r1);
        let ok2 = num_value_eq(&v2, r2);
        ok1 && ok2
    }
}

} // verus!
