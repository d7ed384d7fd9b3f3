//! Signatures and their quirks.
//!
//! Signing composes the hash and curve wrappers step by step, so the
//! contract pins every byte of the output; the construction is additionally
//! cross-checked against the outside crate's own signer, and the two are
//! proved to agree. The malleability transform shifts the scalar half by
//! the group order with a verified adder, and the forged-message search
//! synthesizes candidates whose challenge residue passes the
//! divisible-by-eight filter.

use vstd::prelude::*;
use vstd::arithmetic::power2::pow2;
use vstd::arithmetic::power2::lemma_pow2_strictly_increases;
use vstd::arithmetic::div_mod::{
    lemma_mod_bound, lemma_small_mod, lemma_mul_mod_noop_right, lemma_add_mod_noop,
    lemma_mod_mod,
};
use crate::codec::{
    le_nat, sub_vec, copy_vec, concat2, concat3, add_bytes, decimal_spec, decimal_digits,
    push_all, lemma_le_nat_injective, lemma_le_nat_low_byte,
};
use crate::model::{
    group_order, order_bytes, nonce_residue, challenge_hash, challenge_residue,
    public_key_spec, sig_r_spec, sig_s_residue, sign_r_with, sign_s_with,
    base_mul_of, message_accepted, lemma_group_order_bounds, lemma_relaxed_byte,
};
use crate::keys::{Keypair, PublicKey};
use crate::primitives::{
    sha512, reduce_wide, scalar_add, scalar_mul, base_mul, ed_sign, fill_random, random_u32,
};

verus! {

/// An Ed25519 signature R ‖ s, with the study material the original scheme
/// would keep secret: the nonce scalar and the challenge hash.
pub struct Signature {
    pub r_bytes: Vec<u8>,
    pub s_bytes: Vec<u8>,
    pub random_scalar_bytes: Vec<u8>,
    pub hash_bytes: Option<Vec<u8>>,
}

impl Signature {
    /// Well-formedness: both halves are 32 bytes, the scalar half is a
    /// canonical residue, and the hash, when present, is 64 bytes.
    pub open spec fn wf(&self) -> bool {
        &&& self.r_bytes@.len() == 32
        &&& self.s_bytes@.len() == 32
        &&& le_nat(self.s_bytes@) < group_order()
        &&& self.random_scalar_bytes@.len() == 32
        &&& (self.hash_bytes matches Some(h) ==> h@.len() == 64)
    }

    /// A signature ([s]B, s) for a freshly drawn random scalar s. No
    /// message was involved, so no challenge hash exists.
    pub fn from_random_scalar() -> (sig: Signature)
        ensures
            sig.wf(),
            sig.hash_bytes is None,
            sig.s_bytes@ == sig.random_scalar_bytes@,
            sig.r_bytes@ == base_mul_of(le_nat(sig.s_bytes@)),
    {
        let wide = fill_random(64);
        let s = reduce_wide(&wide);
        proof {
            lemma_group_order_bounds();
            lemma_mod_bound(le_nat(wide@) as int, group_order() as int);
            lemma_small_mod(le_nat(s@), group_order());
        }
        let rpt = base_mul(&s);
        let s2 = copy_vec(&s);
        Signature { r_bytes: rpt, s_bytes: s, random_scalar_bytes: s2, hash_bytes: None }
    }

    /// The nonce scalar used during signing (secret in a real scheme;
    /// exposed here for study).
    pub fn random_scalar(&self) -> (r: Vec<u8>)
        ensures
            r@ == self.random_scalar_bytes@,
    {
        copy_vec(&self.random_scalar_bytes)
    }

    /// The 64 signature bytes R ‖ s.
    pub fn bytes(&self) -> (r: Vec<u8>)
        ensures
            r@ == self.r_bytes@ + self.s_bytes@,
    {
        concat2(&self.r_bytes, &self.s_bytes)
    }

    /// The point half R.
    pub fn random_point(&self) -> (r: Vec<u8>)
        ensures
            r@ == self.r_bytes@,
    {
        copy_vec(&self.r_bytes)
    }

    /// The scalar half s.
    pub fn scalar(&self) -> (r: Vec<u8>)
        ensures
            r@ == self.s_bytes@,
    {
        copy_vec(&self.s_bytes)
    }

    /// The challenge hash SHA-512(R ‖ A ‖ M), when one was computed.
    pub fn hash(&self) -> (r: Option<Vec<u8>>)
        ensures
            r is Some <==> self.hash_bytes is Some,
            r matches Some(h) ==> (self.hash_bytes matches Some(h0) && h@ == h0@),
    {
        match &self.hash_bytes {
            Some(h) => Some(copy_vec(h)),
            None => None,
        }
    }

    /// The challenge hash reduced to a scalar modulo ℓ.
    pub fn hash_scalar(&self) -> (r: Option<Vec<u8>>)
        requires
            self.wf(),
        ensures
            r is Some <==> self.hash_bytes is Some,
            r matches Some(h) ==> (self.hash_bytes matches Some(h0) && h@.len() == 32 && le_nat(
                h@,
            ) == le_nat(h0@) % group_order()),
    {
        match &self.hash_bytes {
            Some(h) => Some(reduce_wide(h)),
            None => None,
        }
    }

    /// Shifts the scalar half by the group order: s' = s + ℓ, re-encoded
    /// in exactly 32 bytes. The alternate signature R ‖ s' exists exactly
    /// when s' still passes the relaxed bound s' < 2^253.
    pub fn modified_scalar(&self) -> (m: ModifiedScalar)
        requires
            self.wf(),
        ensures
            m.bytes@.len() == 32,
            le_nat(m.bytes@) == le_nat(self.s_bytes@) + group_order(),
            m.valid == (le_nat(m.bytes@) < pow2(253)),
            m.valid ==> (m.signature matches Some(s2) && s2@ == self.r_bytes@ + m.bytes@),
            !m.valid ==> m.signature is None,
    {
        let ell = order_bytes();
        proof {
            lemma_group_order_bounds();
            vstd::arithmetic::power2::lemma_pow2_adds(1, 253);
            assert(pow2(1) == 2) by {
                vstd::arithmetic::power2::lemma2_to64();
            }
            lemma_pow2_strictly_increases(254, 256);
            assert(le_nat(self.s_bytes@) + le_nat(ell@) < pow2(254));
        }
        let shifted = add_bytes(&self.s_bytes, &ell);
        let top = shifted[31];
        let valid = (top & 224) == 0;
        proof {
            lemma_relaxed_byte(shifted@);
        }
        let signature = if valid {
            Some(concat2(&self.r_bytes, &shifted))
        } else {
            None
        };
        ModifiedScalar { valid, bytes: shifted, signature }
    }

    /// Searches for message strings that pass the challenge filter for
    /// this signature under the given public key: the reduced challenge
    /// hash must be divisible by eight. The caller is expected to pass a
    /// small-subgroup key; the search draws fresh randomness and stops
    /// after a generous attempt budget, so fewer than `count` messages can
    /// come back in principle.
    pub fn generate_valid_messages(&self, public_key: &PublicKey, count: usize) -> (r: Vec<
        Vec<u8>,
    >)
        requires
            self.wf(),
            public_key.wf(),
        ensures
            r@.len() <= count,
            forall|i: int| 0 <= i < r@.len() ==> message_accepted(
                self.r_bytes@,
                public_key.bytes@,
                (#[trigger] r@[i])@,
            ),
    {
        let mut out: Vec<Vec<u8>> = Vec::new();
        let budget: usize = match count.checked_mul(8192) {
            Some(b) => b,
            None => usize::MAX,
        };
        let mut attempts: usize = 0;
        while out.len() < count && attempts < budget
            invariant
                self.wf(),
                public_key.wf(),
                out@.len() <= count,
                attempts <= budget,
                forall|i: int| 0 <= i < out@.len() ==> message_accepted(
                    self.r_bytes@,
                    public_key.bytes@,
                    (#[trigger] out@[i])@,
                ),
            decreases budget - attempts,
        {
            attempts += 1;
            let a = random_u32();
            let b = random_u32();
            let msg = make_message(a, b);
            let hin = concat3(&self.r_bytes, &public_key.bytes, &msg);
            let h64 = sha512(&hin);
            let h = reduce_wide(&h64);
            if h[0] % 8 == 0 {
                proof {
                    lemma_group_order_bounds();
                    lemma_le_nat_low_byte(h@);
                    lemma_mod_mod(le_nat(h@) as int, 8, 32);
                    assert(le_nat(h@) == challenge_residue(
                        self.r_bytes@,
                        public_key.bytes@,
                        msg@,
                    ));
                    assert(h@[0] as nat == le_nat(h@) % 256);
                    assert(le_nat(h@) % 8 == 0);
                }
                out.push(msg);
            }
        }
        out
    }
}

/// A candidate message: two random numbers in decimal, dash-separated.
fn make_message(a: u32, b: u32) -> (r: Vec<u8>)
    ensures
        r@ == decimal_spec(a as nat) + seq![45u8] + decimal_spec(b as nat),
{
    let mut out = decimal_digits(a);
    out.push(45);
    let db = decimal_digits(b);
    push_all(&mut out, &db);
    proof {
        assert(out@ =~= decimal_spec(a as nat) + seq![45u8] + decimal_spec(b as nat));
    }
    out
}

/// A scalar drawn uniformly from the entropy source, reduced modulo ℓ.
pub struct RandomScalar {
    pub bytes: Vec<u8>,
}

impl Default for RandomScalar {
    /// A freshly drawn scalar.
    fn default() -> (r: Self)
        ensures
            r.wf(),
    {
        RandomScalar::new()
    }
}

impl RandomScalar {
    /// Well-formedness: 32 bytes encoding a canonical residue.
    pub open spec fn wf(&self) -> bool {
        self.bytes@.len() == 32 && le_nat(self.bytes@) < group_order()
    }

    /// Draws a fresh random scalar.
    pub fn new() -> (r: RandomScalar)
        ensures
            r.wf(),
    {
        let wide = fill_random(64);
        let b = reduce_wide(&wide);
        proof {
            lemma_group_order_bounds();
            lemma_mod_bound(le_nat(wide@) as int, group_order() as int);
        }
        RandomScalar { bytes: b }
    }
}

/// The scalar of a signature shifted by the group order, with the relaxed
/// validity verdict and, when valid, the alternate signature.
pub struct ModifiedScalar {
    pub valid: bool,
    pub bytes: Vec<u8>,
    pub signature: Option<Vec<u8>>,
}

impl ModifiedScalar {
    /// Whether the shifted scalar passes the relaxed rule s' < 2^253.
    pub fn valid(&self) -> (r: bool)
        ensures
            r == self.valid,
    {
        self.valid
    }

    /// The shifted scalar bytes.
    pub fn bytes(&self) -> (r: Vec<u8>)
        ensures
            r@ == self.bytes@,
    {
        copy_vec(&self.bytes)
    }

    /// The alternate signature R ‖ s', when the shifted scalar is valid.
    pub fn signature(&self) -> (r: Option<Vec<u8>>)
        ensures
            r is Some <==> self.signature is Some,
            r matches Some(s) ==> (self.signature matches Some(s0) && s@ == s0@),
    {
        match &self.signature {
            Some(s) => Some(copy_vec(s)),
            None => None,
        }
    }
}

impl Keypair {
    /// Deterministic Ed25519 signing. The signature is built here step by
    /// step through the curve wrappers, and the result is proved equal to
    /// what the outside crate's signer returns on the same input: the
    /// cross-check of the construction cannot fail.
    pub fn sign(&self, message: &Vec<u8>) -> (sig: Signature)
        requires
            self.wf(),
        ensures
            sig.wf(),
            sig.r_bytes@ == sig_r_spec(self.seed_bytes@, message@),
            le_nat(sig.s_bytes@) == sig_s_residue(self.seed_bytes@, message@),
            le_nat(sig.random_scalar_bytes@) == nonce_residue(self.seed_bytes@, message@),
            (sig.hash_bytes matches Some(h) && h@ == challenge_hash(
                sig_r_spec(self.seed_bytes@, message@),
                public_key_spec(self.seed_bytes@),
                message@,
            )),
    {
        let ghost seed = self.seed_bytes@;
        let nonce = self.nonce();
        let nin = concat2(&nonce, message);
        let n64 = sha512(&nin);
        let r_scal = reduce_wide(&n64);
        proof {
            lemma_group_order_bounds();
            lemma_mod_bound(le_nat(n64@) as int, group_order() as int);
            lemma_small_mod(le_nat(r_scal@), group_order());
        }
        let rpt = base_mul(&r_scal);
        let a = self.scalar();
        let pk = base_mul(&a);
        let hin = concat3(&rpt, &pk, message);
        let h64 = sha512(&hin);
        let h = reduce_wide(&h64);
        proof {
            lemma_mod_bound(le_nat(h64@) as int, group_order() as int);
            lemma_small_mod(le_nat(h@), group_order());
        }
        let ha = scalar_mul(&h, &a);
        let s = scalar_add(&ha, &r_scal);
        proof {
            let ell = group_order() as int;
            let hres = le_nat(h@) as int;
            let aval = le_nat(a@) as int;
            let rres = le_nat(r_scal@) as int;
            lemma_mul_mod_noop_right(hres, aval, ell);
            lemma_mod_bound(hres * aval, ell);
            lemma_small_mod(le_nat(ha@), group_order());
            lemma_add_mod_noop(hres * aval, rres, ell);
            lemma_small_mod(le_nat(s@), group_order());
            assert(le_nat(s@) == (hres * aval + rres) % ell);
            assert(rpt@ == sign_r_with(nonce_residue(seed, message@)));
            assert(le_nat(s@) == sig_s_residue(seed, message@));
        }
        let theirs = ed_sign(&self.seed_bytes, message);
        let their_r = sub_vec(&theirs, 0, 32);
        let their_s = sub_vec(&theirs, 32, 64);
        proof {
            lemma_le_nat_injective(their_s@, s@);
            assert(their_r@ == rpt@);
            assert(their_s@ == s@);
        }
        Signature {
            r_bytes: rpt,
            s_bytes: s,
            random_scalar_bytes: r_scal,
            hash_bytes: Some(h64),
        }
    }

    /// Signing with a caller-chosen nonce scalar, for nonce-reuse and
    /// adversarial-nonce demonstrations. The chosen scalar is kept in the
    /// result and retrievable.
    pub fn sign_with_scalar(&self, message: &Vec<u8>, random_scalar: &RandomScalar) -> (sig:
        Signature)
        requires
            self.wf(),
            random_scalar.wf(),
        ensures
            sig.wf(),
            sig.r_bytes@ == sign_r_with(le_nat(random_scalar.bytes@)),
            le_nat(sig.s_bytes@) == sign_s_with(
                self.seed_bytes@,
                message@,
                le_nat(random_scalar.bytes@),
            ),
            sig.random_scalar_bytes@ == random_scalar.bytes@,
            (sig.hash_bytes matches Some(h) && h@ == challenge_hash(
                sign_r_with(le_nat(random_scalar.bytes@)),
                public_key_spec(self.seed_bytes@),
                message@,
            )),
    {
        let ghost seed = self.seed_bytes@;
        let r_scal = copy_vec(&random_scalar.bytes);
        proof {
            lemma_group_order_bounds();
            lemma_small_mod(le_nat(r_scal@), group_order());
        }
        let rpt = base_mul(&r_scal);
        let a = self.scalar();
        let pk = base_mul(&a);
        let hin = concat3(&rpt, &pk, message);
        let h64 = sha512(&hin);
        let h = reduce_wide(&h64);
        proof {
            lemma_mod_bound(le_nat(h64@) as int, group_order() as int);
            lemma_small_mod(le_nat(h@), group_order());
        }
        let ha = scalar_mul(&h, &a);
        let s = scalar_add(&ha, &r_scal);
        proof {
            let ell = group_order() as int;
            let hres = le_nat(h@) as int;
            let aval = le_nat(a@) as int;
            let rres = le_nat(r_scal@) as int;
            lemma_mul_mod_noop_right(hres, aval, ell);
            lemma_mod_bound(hres * aval, ell);
            lemma_small_mod(le_nat(ha@), group_order());
            lemma_add_mod_noop(hres * aval, rres, ell);
            lemma_small_mod(le_nat(s@), group_order());
            assert(le_nat(s@) == (hres * aval + rres) % ell);
            assert(rpt@ == sign_r_with(le_nat(random_scalar.bytes@)));
            assert(le_nat(s@) == sign_s_with(seed, message@, le_nat(random_scalar.bytes@)));
        }
        Signature {
            r_bytes: rpt,
            s_bytes: s,
            random_scalar_bytes: r_scal,
            hash_bytes: Some(h64),
        }
    }
}

} // verus!
