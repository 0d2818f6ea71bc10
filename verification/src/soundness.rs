//! Soundness of the protocol: with well-formed parameters, an honest
//! prover's response always satisfies the verifier's predicate.

use vstd::prelude::*;
use vstd::arithmetic::power::{
    pow, lemma_pow_adds, lemma_pow_multiplies, lemma_pow_mod_noop, lemma1_pow,
};
use vstd::arithmetic::div_mod::{
    lemma_mul_mod_noop_general, lemma_mod_twice, lemma_small_mod, lemma_fundamental_div_mod,
    lemma_mod_division_less_than_divisor, lemma_div_pos_is_pos, lemma_add_mod_noop,
    lemma_mod_add_multiples_vanish,
};
use vstd::arithmetic::mul::{lemma_mul_is_commutative, lemma_mul_basics};
use crate::algorithm::{pow_mod, valid_parameters, verify_commitment_equation, spec_verify};

verus! {

/// For a base `a` of order dividing `q` modulo `p`, an exponent can be
/// reduced modulo `q`: `a^e mod p == a^(e mod q) mod p`.
proof fn lemma_pow_exponent_reduces(p: nat, q: nat, a: nat, e: nat)
    requires
        p > 1,
        q > 0,
        pow_mod(a, q, p) == 1,
    ensures
        pow(a as int, e) % (p as int) == pow(a as int, (e % q) as nat) % (p as int),
{
    let pi = p as int;
    let qi = q as int;
    let ai = a as int;
    let r = (e % q) as nat;

    // e splits as q * t + r with t >= 0.
    lemma_fundamental_div_mod(e as int, qi);
    lemma_div_pos_is_pos(e as int, qi);
    let t = (e as int) / qi;
    let tn = t as nat;
    let e1 = (q * t) as nat;
    assert(e == e1 + r);

    // a^e == a^r * (a^q)^t.
    lemma_pow_adds(ai, r, e1);
    lemma_pow_multiplies(ai, q, tn);
    assert(q * tn == e1);
    assert(pow(ai, e) == pow(ai, r) * pow(pow(ai, q), tn));

    // Modulo p the factor (a^q)^t is 1, because a^q mod p == 1.
    let head = pow(ai, r);
    let tail = pow(pow(ai, q), tn);
    lemma_mul_mod_noop_general(head, tail, pi);
    assert(((head % pi) * (tail % pi)) % pi == (head * tail) % pi);
    lemma_pow_mod_noop(pow(ai, q), tn, pi);
    assert(pow(ai, q) % pi == 1);
    lemma1_pow(tn);
    lemma_small_mod(1, p);
    assert(tail % pi == 1);
    lemma_mul_basics(head % pi);
    assert((head % pi) * (tail % pi) == head % pi);
    lemma_mod_twice(head, pi);
}

/// The verifier's product over a single base `a` of order dividing `q`,
/// brought to one reduced exponent:
/// `a^s * (a^x mod p)^c mod p == a^((s + c * x) mod q) mod p`.
proof fn lemma_verifier_product(p: nat, q: nat, a: nat, x: nat, c: nat, s: nat)
    requires
        p > 1,
        q > 0,
        pow_mod(a, q, p) == 1,
    ensures
        (pow_mod(a, s, p) * pow_mod(pow_mod(a, x, p), c, p)) % p == pow_mod(
            a,
            (s + c * x) % q,
            p,
        ),
{
    let pi = p as int;
    let ai = a as int;
    lemma_mul_is_commutative(x as int, c as int);

    // (a^x mod p)^c mod p == a^(x * c) mod p.
    lemma_mod_division_less_than_divisor(pow(ai, x), pi);
    lemma_pow_mod_noop(pow(ai, x), c, pi);
    lemma_pow_multiplies(ai, x, c);
    assert(pow(pow(ai, x) % pi, c) % pi == pow(ai, x * c) % pi);

    // (a^s mod p) * (a^(x * c) mod p) mod p == a^(s + x * c) mod p.
    lemma_mul_mod_noop_general(pow(ai, s), pow(ai, x * c), pi);
    lemma_pow_adds(ai, s, x * c);
    assert(((pow(ai, s) % pi) * (pow(ai, x * c) % pi)) % pi == pow(ai, (s + x * c) as nat) % pi);

    // The combined exponent reduces modulo q.
    lemma_pow_exponent_reduces(p, q, a, (s + x * c) as nat);

    lemma_mod_division_less_than_divisor(pow(ai, s), pi);
    lemma_mod_division_less_than_divisor(pow(ai, x * c), pi);
}

/// The round trip over a single base `a` of order dividing `q`: whenever
/// `s + c * x` is congruent to `k` modulo `q`, the verifier's product
/// `a^s * (a^x mod p)^c mod p` recovers the commitment `a^k mod p`.
proof fn lemma_base_round_trip(p: nat, q: nat, a: nat, x: nat, k: nat, c: nat, s: nat)
    requires
        p > 1,
        q > 0,
        pow_mod(a, q, p) == 1,
        ((s + c * x) as int) % (q as int) == (k as int) % (q as int),
    ensures
        verify_commitment_equation(p, a, pow_mod(a, x, p), pow_mod(a, k, p), s, c),
{
    let pi = p as int;
    let ai = a as int;
    lemma_mul_is_commutative(x as int, c as int);

    // (a^x mod p)^c mod p == a^(x * c) mod p.
    lemma_mod_division_less_than_divisor(pow(ai, x), pi);
    lemma_pow_mod_noop(pow(ai, x), c, pi);
    lemma_pow_multiplies(ai, x, c);
    assert(pow(pow(ai, x) % pi, c) % pi == pow(ai, x * c) % pi);

    // (a^s mod p) * (a^(x * c) mod p) mod p == a^(s + x * c) mod p.
    lemma_mul_mod_noop_general(pow(ai, s), pow(ai, x * c), pi);
    lemma_pow_adds(ai, s, x * c);
    assert(((pow(ai, s) % pi) * (pow(ai, x * c) % pi)) % pi == pow(ai, (s + x * c) as nat) % pi);

    // Both exponents reduce to the same residue modulo q.
    lemma_pow_exponent_reduces(p, q, a, (s + x * c) as nat);
    lemma_pow_exponent_reduces(p, q, a, k);
    assert(pow(ai, (s + x * c) as nat) % pi == pow(ai, k) % pi);

    lemma_mod_division_less_than_divisor(pow(ai, s), pi);
    lemma_mod_division_less_than_divisor(pow(ai, k), pi);
    lemma_mod_division_less_than_divisor(pow(ai, x * c), pi);
}

/// Soundness of the verifier: for well-formed parameters and any secret
/// `x`, nonce `k` and challenge `c` whatsoever — in particular the secrets,
/// nonces and challenges of the protocol's own runs, where `c` ranges up
/// to `2^bit_size` and the secret is a 64-bit hash — the honest prover's
/// commitments `(g^x, h^x)`, `(g^k, h^k)` and any response `s` with
/// `s + c * x` congruent to `k` modulo `q`, as the solver guarantees of
/// its result, always satisfy the verification predicate.
pub proof fn lemma_verify_soundness(p: nat, q: nat, g: nat, h: nat, x: nat, k: nat, c: nat, s: nat)
    requires
        valid_parameters(p, q, g, h),
        ((s + c * x) as int) % (q as int) == (k as int) % (q as int),
    ensures
        spec_verify(
            p,
            g,
            h,
            pow_mod(g, x, p),
            pow_mod(h, x, p),
            pow_mod(g, k, p),
            pow_mod(h, k, p),
            s,
            c,
        ),
{
    lemma_base_round_trip(p, q, g, x, k, c, s);
    lemma_base_round_trip(p, q, h, x, k, c, s);
}

/// Exponentiation by the base is injective on exponents below `q`: distinct
/// exponents give distinct powers modulo `p`.  For a generator of the
/// order-`q` subgroup of a safe prime this holds because `q` is prime — a
/// group-theoretic fact that the crate does not check at run time, which is
/// why it stands as a hypothesis rather than inside the parameter
/// invariant.
pub open spec fn injective_exponentiation(p: nat, q: nat, a: nat) -> bool {
    forall|e1: nat, e2: nat|
        e1 < q && e2 < q && e1 != e2 ==> #[trigger] pow_mod(a, e1, p) != #[trigger] pow_mod(
            a,
            e2,
            p,
        )
}

/// Completeness on a wrong secret: when the registered commitments come
/// from an exponent `x2` while the response was solved for `x`, and the
/// challenge does not cancel the difference (`c * (x2 - x)` is not a
/// multiple of `q`), verification fails — deterministically, given that
/// exponentiation by `g` is injective below `q`.  The protocol item that
/// a wrong secret fails "with overwhelming probability" is this statement
/// quantified over the verifier's random challenge, which cancels the
/// difference only for a negligible fraction of draws.
pub proof fn lemma_verify_completeness(
    p: nat,
    q: nat,
    g: nat,
    h: nat,
    x: nat,
    x2: nat,
    k: nat,
    c: nat,
    s: nat,
)
    requires
        valid_parameters(p, q, g, h),
        injective_exponentiation(p, q, g),
        ((s + c * x) as int) % (q as int) == (k as int) % (q as int),
        ((c * x2) as int - (c * x) as int) % (q as int) != 0,
    ensures
        !verify_commitment_equation(p, g, pow_mod(g, x2, p), pow_mod(g, k, p), s, c),
        !spec_verify(
            p,
            g,
            h,
            pow_mod(g, x2, p),
            pow_mod(h, x2, p),
            pow_mod(g, k, p),
            pow_mod(h, k, p),
            s,
            c,
        ),
{
    let qi = q as int;
    lemma_verifier_product(p, q, g, x2, c, s);
    lemma_pow_exponent_reduces(p, q, g, k);
    let e1 = (s + c * x2) % q;
    let e2 = k % q;

    // The two reduced exponents differ: the verifier's exponent is the
    // commitment's shifted by c * (x2 - x), which is nonzero modulo q.
    let d = (c * x2) as int - (c * x) as int;
    assert((s + c * x2) as int == (s + c * x) as int + d);
    lemma_add_mod_noop((s + c * x) as int, d, qi);
    lemma_mod_division_less_than_divisor(d, qi);
    lemma_mod_division_less_than_divisor(k as int, qi);
    lemma_mod_division_less_than_divisor((s + c * x) as int, qi);
    let kr = (k as int) % qi;
    let dr = d % qi;
    assert(0 < dr < qi);
    assert(e1 as int == (kr + dr) % qi);
    if kr + dr < qi {
        lemma_small_mod((kr + dr) as nat, q);
        assert(e1 as int == kr + dr);
    } else {
        lemma_mod_add_multiples_vanish(kr + dr - qi, qi);
        lemma_small_mod((kr + dr - qi) as nat, q);
        assert(e1 as int == kr + dr - qi);
    }
    assert(e1 != e2);

    // Distinct exponents below q give distinct powers.
    assert(pow_mod(g, e1, p) != pow_mod(g, e2, p));
}

} // verus!
