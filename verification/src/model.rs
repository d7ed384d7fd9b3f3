//! The mathematical model of the scheme.
//!
//! Contracts throughout the crate speak in terms of these spec functions:
//! the basepoint order, Ed25519 clamping, key derivation, the signing
//! equation and the verification predicate. Results that only the curve and
//! hash crates can compute (digests, compressed points) are named by
//! uninterpreted spec functions; the trusted wrappers in `primitives` state
//! their results with those names, and everything else is proved.

use vstd::prelude::*;
use vstd::arithmetic::power2::{pow2, lemma_pow2_adds, lemma2_to64};
use crate::codec::{le_nat, lemma_le_nat_bound, lemma_le_nat_take_step};

verus! {

/// The order of the Ed25519 basepoint subgroup,
/// ℓ = 2^252 + 27742317777372353535851937790883648493, as little-endian bytes.
pub open spec fn order_bytes_spec() -> Seq<u8> {
    seq![
        0xedu8, 0xd3u8, 0xf5u8, 0x5cu8, 0x1au8, 0x63u8, 0x12u8, 0x58u8,
        0xd6u8, 0x9cu8, 0xf7u8, 0xa2u8, 0xdeu8, 0xf9u8, 0xdeu8, 0x14u8,
        0x00u8, 0x00u8, 0x00u8, 0x00u8, 0x00u8, 0x00u8, 0x00u8, 0x00u8,
        0x00u8, 0x00u8, 0x00u8, 0x00u8, 0x00u8, 0x00u8, 0x00u8, 0x10u8,
    ]
}

/// The order ℓ of the Ed25519 basepoint subgroup.
pub open spec fn group_order() -> nat {
    le_nat(order_bytes_spec())
}

/// ℓ is positive and below 2^253 (its top byte is 0x10).
pub proof fn lemma_group_order_bounds()
    ensures
        0 < group_order(),
        group_order() < pow2(253),
{
    let s = order_bytes_spec();
    assert(le_nat(s) == s[0] as nat + 256 * le_nat(s.subrange(1, 32)));
    assert(le_nat(s) >= 0xed);
    assert(s.take(32) =~= s);
    lemma_le_nat_take_step(s, 31);
    lemma_le_nat_bound(s.take(31));
    lemma_pow2_adds(5, 248);
    assert(pow2(5) == 32) by {
        lemma2_to64();
    }
    let p = pow2(248);
    assert((s[31] as nat) * p == 16 * p) by (nonlinear_arith)
        requires
            s[31] == 0x10u8,
    ;
    assert(le_nat(s) < p + 16 * p);
    assert(p + 16 * p < 32 * p);
    assert(pow2(253) == 32 * p);
}

/// Ed25519 clamping: clear the low three bits, clear the top bit, set bit 254.
pub open spec fn clamp_spec(s: Seq<u8>) -> Seq<u8>
    recommends
        s.len() == 32,
{
    s.update(0, s[0] & 248).update(31, (s[31] & 127) | 64)
}

/// The bit pattern that clamping guarantees.
pub proof fn lemma_clamp_bits(s: Seq<u8>)
    requires
        s.len() == 32,
    ensures
        clamp_spec(s).len() == 32,
        clamp_spec(s)[0] & 7 == 0,
        clamp_spec(s)[31] & 128 == 0,
        clamp_spec(s)[31] & 64 == 64,
{
    let b0 = s[0];
    let b31 = s[31];
    assert((b0 & 248) & 7 == 0) by (bit_vector);
    assert(((b31 & 127) | 64) & 128 == 0) by (bit_vector);
    assert(((b31 & 127) | 64) & 64 == 64) by (bit_vector);
}

/// A 32-byte scalar passes the relaxed bound `s < 2^253` exactly when the
/// three top bits of its last byte are clear.
pub proof fn lemma_relaxed_byte(s: Seq<u8>)
    requires
        s.len() == 32,
    ensures
        (s[31] & 224 == 0) <==> le_nat(s) < pow2(253),
{
    let t = s[31];
    assert((t & 224 == 0) <==> (t < 32)) by (bit_vector);
    assert(s.take(32) =~= s);
    lemma_le_nat_take_step(s, 31);
    lemma_le_nat_bound(s.take(31));
    lemma_pow2_adds(5, 248);
    assert(pow2(5) == 32) by {
        lemma2_to64();
    }
    let p = pow2(248);
    assert(pow2(253) == 32 * p);
    if t < 32 {
        assert((t as nat) * p <= 31 * p) by (nonlinear_arith)
            requires
                t as nat <= 31,
        ;
        assert(le_nat(s) < p + 31 * p);
    } else {
        assert((t as nat) * p >= 32 * p) by (nonlinear_arith)
            requires
                t as nat >= 32,
        ;
        assert(le_nat(s) >= 32 * p);
    }
}

/// The SHA-512 digest of a byte string; named, stated by the `sha512`
/// wrapper, and a pure function of the input bytes.
pub uninterp spec fn sha512_of(input: Seq<u8>) -> Seq<u8>;

/// The compressed encoding of [n]B, for the basepoint B and a residue n
/// modulo ℓ; named, stated by the `base_mul` wrapper.
pub uninterp spec fn base_mul_of(n: nat) -> Seq<u8>;

/// Whether 32 bytes decompress to a curve point; named, stated by the
/// `check_point` wrapper.
pub uninterp spec fn point_decompresses(pk: Seq<u8>) -> bool;

/// The compressed encoding of [s]B - [h]A, for public key bytes A and
/// residues h and s modulo ℓ; named, stated by the `check_point` wrapper.
pub uninterp spec fn ver_point_of(pk: Seq<u8>, h: nat, s: nat) -> Seq<u8>;

/// The compressed encoding of entry `i` of the curve library's canonical
/// 8-torsion table; named, stated by the `eight_torsion_keys` wrapper.
pub uninterp spec fn torsion_compressed(i: int) -> Seq<u8>;

/// The 64-byte expansion of a seed.
pub open spec fn expand_spec(seed: Seq<u8>) -> Seq<u8> {
    sha512_of(seed)
}

/// The clamped secret scalar bytes derived from a seed.
pub open spec fn secret_scalar_spec(seed: Seq<u8>) -> Seq<u8> {
    clamp_spec(expand_spec(seed).subrange(0, 32))
}

/// The secret scalar's residue modulo ℓ.
pub open spec fn secret_residue(seed: Seq<u8>) -> nat {
    le_nat(secret_scalar_spec(seed)) % group_order()
}

/// The nonce prefix: the upper half of the expanded seed.
pub open spec fn nonce_prefix_spec(seed: Seq<u8>) -> Seq<u8> {
    expand_spec(seed).subrange(32, 64)
}

/// The compressed public key [a]B.
pub open spec fn public_key_spec(seed: Seq<u8>) -> Seq<u8> {
    base_mul_of(secret_residue(seed))
}

/// The deterministic nonce scalar: H(prefix ‖ M) reduced modulo ℓ.
pub open spec fn nonce_residue(seed: Seq<u8>, msg: Seq<u8>) -> nat {
    le_nat(sha512_of(nonce_prefix_spec(seed) + msg)) % group_order()
}

/// The challenge hash H(R ‖ A ‖ M), unreduced.
pub open spec fn challenge_hash(rpt: Seq<u8>, pk: Seq<u8>, msg: Seq<u8>) -> Seq<u8> {
    sha512_of(rpt + pk + msg)
}

/// The challenge hash reduced modulo ℓ.
pub open spec fn challenge_residue(rpt: Seq<u8>, pk: Seq<u8>, msg: Seq<u8>) -> nat {
    le_nat(challenge_hash(rpt, pk, msg)) % group_order()
}

/// The point half of a signature made with nonce scalar value `r_val`.
pub open spec fn sign_r_with(r_val: nat) -> Seq<u8> {
    base_mul_of(r_val % group_order())
}

/// The scalar half of a signature made with nonce scalar value `r_val`:
/// s = (H(R ‖ A ‖ M)·a + r) mod ℓ.
pub open spec fn sign_s_with(seed: Seq<u8>, msg: Seq<u8>, r_val: nat) -> nat {
    (challenge_residue(sign_r_with(r_val), public_key_spec(seed), msg) * le_nat(
        secret_scalar_spec(seed),
    ) + r_val) % group_order()
}

/// The point half of a deterministic signature.
pub open spec fn sig_r_spec(seed: Seq<u8>, msg: Seq<u8>) -> Seq<u8> {
    sign_r_with(nonce_residue(seed, msg))
}

/// The scalar half of a deterministic signature, as a residue modulo ℓ.
pub open spec fn sig_s_residue(seed: Seq<u8>, msg: Seq<u8>) -> nat {
    sign_s_with(seed, msg, nonce_residue(seed, msg))
}

/// The verification predicate: 64 bytes, the scalar half below 2^253, a
/// decompressible key, and the recomputed point equal to R.
pub open spec fn verify_ok_spec(pk: Seq<u8>, msg: Seq<u8>, sig: Seq<u8>) -> bool {
    &&& sig.len() == 64
    &&& le_nat(sig.subrange(32, 64)) < pow2(253)
    &&& point_decompresses(pk)
    &&& ver_point_of(
        pk,
        challenge_residue(sig.subrange(0, 32), pk, msg),
        le_nat(sig.subrange(32, 64)) % group_order(),
    ) == sig.subrange(0, 32)
}

/// The acceptance filter of the forged-message search: the challenge
/// residue is divisible by eight.
pub open spec fn message_accepted(rpt: Seq<u8>, pk: Seq<u8>, msg: Seq<u8>) -> bool {
    challenge_residue(rpt, pk, msg) % 8 == 0
}

/// The all-zero compressed encoding, used as the placeholder point when the
/// public key does not decompress.
pub open spec fn zero_point_spec() -> Seq<u8> {
    Seq::new(32, |i: int| 0u8)
}

/// The group order ℓ as an executable byte vector.
pub fn order_bytes() -> (r: Vec<u8>)
    ensures
        r@ == order_bytes_spec(),
        r@.len() == 32,
{
    let mut v: Vec<u8> = Vec::new();
    v.push(0xed);
    v.push(0xd3);
    v.push(0xf5);
    v.push(0x5c);
    v.push(0x1a);
    v.push(0x63);
    v.push(0x12);
    v.push(0x58);
    v.push(0xd6);
    v.push(0x9c);
    v.push(0xf7);
    v.push(0xa2);
    v.push(0xde);
    v.push(0xf9);
    v.push(0xde);
    v.push(0x14);
    let mut i: usize = 0;
    while i < 15
        invariant
            i <= 15,
            v@.len() == 16 + i,
            forall|j: int| 0 <= j < v@.len() ==> v@[j] == order_bytes_spec()[j],
        decreases 15 - i,
    {
        v.push(0x00);
        i += 1;
    }
    v.push(0x10);
    proof {
        assert(v@ =~= order_bytes_spec());
    }
    v
}

/// The all-zero placeholder point as an executable byte vector.
pub fn zero_point() -> (r: Vec<u8>)
    ensures
        r@ == zero_point_spec(),
        r@.len() == 32,
{
    let mut v: Vec<u8> = Vec::new();
    let mut i: usize = 0;
    while i < 32
        invariant
            i <= 32,
            v@.len() == i,
            forall|j: int| 0 <= j < v@.len() ==> v@[j] == 0u8,
        decreases 32 - i,
    {
        v.push(0x00);
        i += 1;
    }
    proof {
        assert(v@ =~= zero_point_spec());
    }
    v
}

} // verus!
