//! Key material: seeds, keypairs, public keys, and verification.
//!
//! A `Keypair` owns a 32-byte seed; every derived quantity (expanded seed,
//! clamped scalar, nonce prefix, public key) is recomputed from it on
//! demand, with a contract pinning the result. A `PublicKey` is 32 bytes
//! that may or may not decompress to a curve point: failure to decompress
//! is a recorded condition, never an error.

use vstd::prelude::*;
use vstd::arithmetic::div_mod::{lemma_mod_division_less_than_divisor, lemma_small_mod};
use crate::codec::{le_nat, sub_vec, copy_vec, concat3};
use crate::model::{
    expand_spec, secret_scalar_spec, nonce_prefix_spec, public_key_spec, clamp_spec,
    point_decompresses, torsion_compressed, challenge_residue, group_order, verify_ok_spec,
    ver_point_of, zero_point_spec, zero_point, lemma_group_order_bounds,
};
use crate::primitives::{sha512, base_mul, reduce_wide, check_point, ed_verify, eight_torsion_keys,
    fill_random};

verus! {

/// Failures caused by caller-supplied data.
#[derive(Debug, Clone, Copy, PartialEq, Eq, Structural)]
pub enum Error {
    /// A seed or key of the wrong length.
    MalformedInput,
    /// A signature that is not exactly 64 bytes.
    InvalidSignatureFormat,
}

/// An Ed25519 public key: 32 bytes, valid point or not.
pub struct PublicKey {
    pub bytes: Vec<u8>,
}

impl PublicKey {
    /// Well-formedness: exactly 32 bytes.
    pub open spec fn wf(&self) -> bool {
        self.bytes@.len() == 32
    }

    /// Parses a public key; fails exactly when the length is not 32.
    /// Whether the bytes decompress is not checked here.
    pub fn parse(bytes: &Vec<u8>) -> (r: Result<PublicKey, Error>)
        ensures
            bytes@.len() == 32 ==> (r matches Ok(k) && k.bytes@ == bytes@),
            bytes@.len() != 32 ==> (r matches Err(e) && e == Error::MalformedInput),
    {
        if bytes.len() == 32 {
            Ok(PublicKey { bytes: copy_vec(bytes) })
        } else {
            Err(Error::MalformedInput)
        }
    }

    /// The eight public keys of the curve's 8-torsion subgroup, in the
    /// curve library's canonical order. Each call yields the same sequence.
    pub fn small_subgroup() -> (r: Vec<PublicKey>)
        ensures
            r@.len() == 8,
            forall|i: int| 0 <= i < 8 ==> (#[trigger] r@[i]).wf() && r@[i].bytes@
                == torsion_compressed(i),
    {
        let keys = eight_torsion_keys();
        let mut out: Vec<PublicKey> = Vec::new();
        let mut i: usize = 0;
        while i < 8
            invariant
                i <= 8,
                keys@.len() == 8,
                forall|j: int| 0 <= j < 8 ==> (#[trigger] keys@[j])@ == torsion_compressed(j)
                    && keys@[j]@.len() == 32,
                out@.len() == i,
                forall|j: int| 0 <= j < i ==> (#[trigger] out@[j]).wf() && out@[j].bytes@
                    == torsion_compressed(j),
            decreases 8 - i,
        {
            out.push(PublicKey { bytes: copy_vec(&keys[i]) });
            i += 1;
        }
        out
    }

    /// The serialized key bytes.
    pub fn bytes(&self) -> (r: Vec<u8>)
        ensures
            r@ == self.bytes@,
    {
        copy_vec(&self.bytes)
    }

    /// Verifies a signed message. Total: any malformed signature or any
    /// verification failure yields `false`, never an error.
    pub fn verify(&self, message: &Vec<u8>, signature: &Vec<u8>) -> (r: bool)
        requires
            self.wf(),
        ensures
            r == (signature@.len() == 64 && verify_ok_spec(self.bytes@, message@, signature@)),
    {
        if signature.len() != 64 {
            return false;
        }
        ed_verify(&self.bytes, message, signature)
    }

    /// Verifies with a full diagnostic trace. Fails exactly when the
    /// signature is not 64 bytes; a key that does not decompress is
    /// recorded in the trace instead of aborting.
    pub fn verification(&self, message: &Vec<u8>, signature: &Vec<u8>) -> (r: Result<
        Verification,
        Error,
    >)
        requires
            self.wf(),
        ensures
            signature@.len() != 64 ==> (r matches Err(e) && e == Error::InvalidSignatureFormat),
            signature@.len() == 64 ==> (r matches Ok(v) && v.trace_ok(
                self.bytes@,
                message@,
                signature@,
            )),
    {
        if signature.len() != 64 {
            return Err(Error::InvalidSignatureFormat);
        }
        let rpt = sub_vec(signature, 0, 32);
        let spt = sub_vec(signature, 32, 64);
        let hin = concat3(&rpt, &self.bytes, message);
        let h64 = sha512(&hin);
        let h = reduce_wide(&h64);
        let result = ed_verify(&self.bytes, message, signature);
        proof {
            lemma_group_order_bounds();
            lemma_mod_division_less_than_divisor(le_nat(h64@) as int, group_order() as int);
            lemma_small_mod(le_nat(h@), group_order());
        }
        match check_point(&self.bytes, &h, &spt) {
            Some(cp) => Ok(
                Verification {
                    result,
                    decompression_error: false,
                    hash_scalar: h,
                    computed_point: cp,
                },
            ),
            None => Ok(
                Verification {
                    result,
                    decompression_error: true,
                    hash_scalar: h,
                    computed_point: zero_point(),
                },
            ),
        }
    }
}

/// The trace of one verification: the challenge scalar, the recomputed
/// point, whether the key decompressed, and the verdict.
pub struct Verification {
    pub result: bool,
    pub decompression_error: bool,
    pub hash_scalar: Vec<u8>,
    pub computed_point: Vec<u8>,
}

impl Verification {
    /// What a trace for `(pk, msg, sig)` holds: the reduced challenge
    /// hash, the recomputed point (or the all-zero placeholder), the
    /// decompression flag, and a verdict equal to `verify()`'s.
    pub open spec fn trace_ok(&self, pk: Seq<u8>, msg: Seq<u8>, sig: Seq<u8>) -> bool {
        let rpt = sig.subrange(0, 32);
        let spt = sig.subrange(32, 64);
        &&& self.hash_scalar@.len() == 32
        &&& le_nat(self.hash_scalar@) == challenge_residue(rpt, pk, msg)
        &&& self.decompression_error == !point_decompresses(pk)
        &&& self.computed_point@ == if point_decompresses(pk) {
            ver_point_of(pk, challenge_residue(rpt, pk, msg), le_nat(spt) % group_order())
        } else {
            zero_point_spec()
        }
        &&& self.result == verify_ok_spec(pk, msg, sig)
    }

    /// The challenge scalar H(R ‖ A ‖ M) reduced modulo ℓ.
    pub fn hash_scalar(&self) -> (r: Vec<u8>)
        ensures
            r@ == self.hash_scalar@,
    {
        copy_vec(&self.hash_scalar)
    }

    /// The recomputed compressed point R' = [s]B - [H(R ‖ A ‖ M)]A.
    pub fn computed_point(&self) -> (r: Vec<u8>)
        ensures
            r@ == self.computed_point@,
    {
        copy_vec(&self.computed_point)
    }

    /// Whether the public key failed to decompress.
    pub fn decompression_error(&self) -> (r: bool)
        ensures
            r == self.decompression_error,
    {
        self.decompression_error
    }

    /// The verdict.
    pub fn success(&self) -> (r: bool)
        ensures
            r == self.result,
    {
        self.result
    }
}

/// An Ed25519 keypair, held as its 32-byte seed.
pub struct Keypair {
    pub seed_bytes: Vec<u8>,
}

impl Default for Keypair {
    /// A freshly generated keypair.
    fn default() -> (r: Self)
        ensures
            r.wf(),
    {
        Keypair::new()
    }
}

impl Keypair {
    /// Well-formedness: exactly 32 bytes of seed.
    pub open spec fn wf(&self) -> bool {
        self.seed_bytes@.len() == 32
    }

    /// Generates a keypair from the system entropy source.
    pub fn new() -> (r: Keypair)
        ensures
            r.wf(),
    {
        Keypair { seed_bytes: fill_random(32) }
    }

    /// Constructs a keypair from a seed; fails exactly when the length is
    /// not 32.
    pub fn from_seed(seed: &Vec<u8>) -> (r: Result<Keypair, Error>)
        ensures
            seed@.len() == 32 ==> (r matches Ok(k) && k.seed_bytes@ == seed@),
            seed@.len() != 32 ==> (r matches Err(e) && e == Error::MalformedInput),
    {
        if seed.len() == 32 {
            Ok(Keypair { seed_bytes: copy_vec(seed) })
        } else {
            Err(Error::MalformedInput)
        }
    }

    /// The 32-byte seed.
    pub fn seed(&self) -> (r: Vec<u8>)
        requires
            self.wf(),
        ensures
            r@ == self.seed_bytes@,
    {
        copy_vec(&self.seed_bytes)
    }

    /// The 64-byte expansion SHA-512(seed).
    pub fn expanded_seed(&self) -> (r: Vec<u8>)
        requires
            self.wf(),
        ensures
            r@ == expand_spec(self.seed_bytes@),
            r@.len() == 64,
    {
        sha512(&self.seed_bytes)
    }

    /// The clamped secret scalar: the low half of the expanded seed with
    /// the low three bits cleared, the top bit cleared, and bit 254 set.
    pub fn scalar(&self) -> (r: Vec<u8>)
        requires
            self.wf(),
        ensures
            r@ == secret_scalar_spec(self.seed_bytes@),
            r@.len() == 32,
    {
        let h = self.expanded_seed();
        let mut s = sub_vec(&h, 0, 32);
        let b0 = s[0] & 248;
        s.set(0, b0);
        let b31 = (s[31] & 127) | 64;
        s.set(31, b31);
        proof {
            assert(s@ =~= clamp_spec(expand_spec(self.seed_bytes@).subrange(0, 32)));
        }
        s
    }

    /// The signing nonce prefix: the upper half of the expanded seed.
    pub fn nonce(&self) -> (r: Vec<u8>)
        requires
            self.wf(),
        ensures
            r@ == nonce_prefix_spec(self.seed_bytes@),
            r@.len() == 32,
    {
        let h = self.expanded_seed();
        sub_vec(&h, 32, 64)
    }

    /// The public key [a]B for the clamped secret scalar a. The resulting
    /// bytes always decompress.
    pub fn public_key(&self) -> (r: PublicKey)
        requires
            self.wf(),
        ensures
            r.wf(),
            r.bytes@ == public_key_spec(self.seed_bytes@),
            point_decompresses(r.bytes@),
    {
        let s = self.scalar();
        PublicKey { bytes: base_mul(&s) }
    }
}

} // verus!
