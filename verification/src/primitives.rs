//! Trusted boundary to the outside crates.
//!
//! Each wrapper makes exactly one call into the hash, curve or randomness
//! crate (plus argument and result conversions) and states what comes back
//! over the spec functions of `model`. Verus believes these contracts; the
//! rest of the crate is proved against them.

use vstd::prelude::*;
use sha2::Digest;
use ed25519_dalek::Signer;
use ed25519_dalek::Verifier;
use rand_core::RngCore;
use crate::codec::le_nat;
use crate::model::{
    sha512_of, base_mul_of, point_decompresses, ver_point_of, torsion_compressed, group_order,
    sig_r_spec, sig_s_residue, verify_ok_spec,
};

verus! {

/// Relies on sha2::Sha512: the 64-byte SHA-512 digest of the input, a pure
/// function of the input bytes.
#[verifier::external_body]
pub(crate) fn sha512(input: &Vec<u8>) -> (r: Vec<u8>)
    ensures
        r@.len() == 64,
        r@ == sha512_of(input@),
{
    sha2::Sha512::digest(input.as_slice()).to_vec()
}

/// Relies on curve25519_dalek::Scalar::from_bytes_mod_order_wide, which
/// reduces a 512-bit little-endian integer modulo ℓ, and on Scalar::to_bytes,
/// which returns the canonical 32-byte little-endian encoding.
#[verifier::external_body]
pub(crate) fn reduce_wide(input: &Vec<u8>) -> (r: Vec<u8>)
    requires
        input@.len() == 64,
    ensures
        r@.len() == 32,
        le_nat(r@) == le_nat(input@) % group_order(),
{
    let mut wide = [0u8; 64];
    wide.copy_from_slice(input.as_slice());
    curve25519_dalek::scalar::Scalar::from_bytes_mod_order_wide(&wide).to_bytes().to_vec()
}

/// Relies on curve25519_dalek scalar addition: both inputs are first reduced
/// modulo ℓ by Scalar::from_bytes_mod_order, the sum is reduced again, and
/// to_bytes returns its canonical encoding.
#[verifier::external_body]
pub(crate) fn scalar_add(a: &Vec<u8>, b: &Vec<u8>) -> (r: Vec<u8>)
    requires
        a@.len() == 32,
        b@.len() == 32,
    ensures
        r@.len() == 32,
        le_nat(r@) == (le_nat(a@) % group_order() + le_nat(b@) % group_order()) % group_order(),
{
    let mut aa = [0u8; 32];
    aa.copy_from_slice(a.as_slice());
    let mut bb = [0u8; 32];
    bb.copy_from_slice(b.as_slice());
    let x = curve25519_dalek::scalar::Scalar::from_bytes_mod_order(aa);
    let y = curve25519_dalek::scalar::Scalar::from_bytes_mod_order(bb);
    (x + y).to_bytes().to_vec()
}

/// Relies on curve25519_dalek scalar multiplication: both inputs are first
/// reduced modulo ℓ by Scalar::from_bytes_mod_order, the product is reduced
/// again, and to_bytes returns its canonical encoding.
#[verifier::external_body]
pub(crate) fn scalar_mul(a: &Vec<u8>, b: &Vec<u8>) -> (r: Vec<u8>)
    requires
        a@.len() == 32,
        b@.len() == 32,
    ensures
        r@.len() == 32,
        le_nat(r@) == ((le_nat(a@) % group_order()) * (le_nat(b@) % group_order()))
            % group_order(),
{
    let mut aa = [0u8; 32];
    aa.copy_from_slice(a.as_slice());
    let mut bb = [0u8; 32];
    bb.copy_from_slice(b.as_slice());
    let x = curve25519_dalek::scalar::Scalar::from_bytes_mod_order(aa);
    let y = curve25519_dalek::scalar::Scalar::from_bytes_mod_order(bb);
    (x * y).to_bytes().to_vec()
}

/// Relies on multiplication by curve25519_dalek's ED25519_BASEPOINT_POINT
/// and on point compression: the result is the compressed encoding of [n]B
/// for n the input's residue modulo ℓ (the scalar is reduced by
/// Scalar::from_bytes_mod_order). An encoding produced by compress() always
/// decompresses back to a point.
#[verifier::external_body]
pub(crate) fn base_mul(s: &Vec<u8>) -> (r: Vec<u8>)
    requires
        s@.len() == 32,
    ensures
        r@.len() == 32,
        r@ == base_mul_of(le_nat(s@) % group_order()),
        point_decompresses(r@),
{
    let mut ss = [0u8; 32];
    ss.copy_from_slice(s.as_slice());
    let x = curve25519_dalek::scalar::Scalar::from_bytes_mod_order(ss);
    (x * curve25519_dalek::constants::ED25519_BASEPOINT_POINT).compress().to_bytes().to_vec()
}

/// Relies on CompressedEdwardsY::decompress, point negation,
/// EdwardsPoint::vartime_double_scalar_mul_basepoint and compress: None
/// exactly when the key bytes do not decompress, otherwise the compressed
/// encoding of [s]B - [h]A. Both scalars are reduced modulo ℓ by
/// Scalar::from_bytes_mod_order before use.
#[verifier::external_body]
pub(crate) fn check_point(pk: &Vec<u8>, h: &Vec<u8>, s: &Vec<u8>) -> (r: Option<Vec<u8>>)
    requires
        pk@.len() == 32,
        h@.len() == 32,
        s@.len() == 32,
    ensures
        r is Some <==> point_decompresses(pk@),
        r matches Some(v) ==> v@.len() == 32 && v@ == ver_point_of(
            pk@,
            le_nat(h@) % group_order(),
            le_nat(s@) % group_order(),
        ),
{
    let mut pkb = [0u8; 32];
    pkb.copy_from_slice(pk.as_slice());
    let mut hb = [0u8; 32];
    hb.copy_from_slice(h.as_slice());
    let mut sb = [0u8; 32];
    sb.copy_from_slice(s.as_slice());
    let a = curve25519_dalek::edwards::CompressedEdwardsY(pkb).decompress()?;
    let hs = curve25519_dalek::scalar::Scalar::from_bytes_mod_order(hb);
    let ss = curve25519_dalek::scalar::Scalar::from_bytes_mod_order(sb);
    let neg = -a;
    let p = curve25519_dalek::edwards::EdwardsPoint::vartime_double_scalar_mul_basepoint(
        &hs, &neg, &ss,
    );
    Some(p.compress().to_bytes().to_vec())
}

/// Relies on ed25519_dalek::SigningKey::sign (the RFC 8032 signing path):
/// R = [H(prefix ‖ M) mod ℓ]B compressed, and the scalar half encodes
/// (H(R ‖ A ‖ M)·a + r) mod ℓ, for the clamped secret scalar a and the
/// nonce r; see raw_sign_byupdate in ed25519_dalek::signing.
#[verifier::external_body]
pub(crate) fn ed_sign(seed: &Vec<u8>, msg: &Vec<u8>) -> (r: Vec<u8>)
    requires
        seed@.len() == 32,
    ensures
        r@.len() == 64,
        r@.subrange(0, 32) == sig_r_spec(seed@, msg@),
        le_nat(r@.subrange(32, 64)) == sig_s_residue(seed@, msg@),
{
    let mut sb = [0u8; 32];
    sb.copy_from_slice(seed.as_slice());
    let sk = ed25519_dalek::SigningKey::from_bytes(&sb);
    sk.sign(msg.as_slice()).to_bytes().to_vec()
}

/// Relies on ed25519_dalek::VerifyingKey::verify with the
/// legacy_compatibility scalar rule: it accepts exactly when the key bytes
/// decompress, the scalar half is below 2^253, and the recomputed point
/// [s]B - [H(R ‖ A ‖ M)]A compresses back to R. [s]B depends on s only
/// modulo ℓ, because the basepoint has order ℓ.
#[verifier::external_body]
pub(crate) fn ed_verify(pk: &Vec<u8>, msg: &Vec<u8>, sig: &Vec<u8>) -> (r: bool)
    requires
        pk@.len() == 32,
        sig@.len() == 64,
    ensures
        r == verify_ok_spec(pk@, msg@, sig@),
{
    let mut pkb = [0u8; 32];
    pkb.copy_from_slice(pk.as_slice());
    let vk = match ed25519_dalek::VerifyingKey::from_bytes(&pkb) {
        Ok(k) => k,
        Err(_) => return false,
    };
    let mut sgb = [0u8; 64];
    sgb.copy_from_slice(sig.as_slice());
    let es = ed25519_dalek::Signature::from_bytes(&sgb);
    vk.verify(msg.as_slice(), &es).is_ok()
}

/// Relies on curve25519_dalek::constants::EIGHT_TORSION and point
/// compression: the eight compressed low-order points, in the library's
/// canonical table order.
#[verifier::external_body]
pub(crate) fn eight_torsion_keys() -> (r: Vec<Vec<u8>>)
    ensures
        r@.len() == 8,
        forall|i: int| 0 <= i < 8 ==> (#[trigger] r@[i])@ == torsion_compressed(i)
            && r@[i]@.len() == 32,
{
    curve25519_dalek::constants::EIGHT_TORSION
        .iter()
        .map(|p| p.compress().to_bytes().to_vec())
        .collect()
}

/// Relies on rand_core::OsRng::fill_bytes, the operating system's secure
/// random source; nothing is promised of the contents.
#[verifier::external_body]
pub(crate) fn fill_random(n: usize) -> (r: Vec<u8>)
    ensures
        r@.len() == n,
{
    let mut buf = vec![0u8; n];
    rand_core::OsRng.fill_bytes(&mut buf);
    buf
}

/// Relies on rand_core::OsRng::next_u32; nothing is promised of the value.
#[verifier::external_body]
pub(crate) fn random_u32() -> u32 {
    rand_core::OsRng.next_u32()
}

} // verus!
