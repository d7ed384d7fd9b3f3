//! End-to-end tests of the Ed25519 toolkit, cross-checked against the
//! underlying hash and curve crates.

use ed25519_quirks::keys::{Error, Keypair, PublicKey};
use ed25519_quirks::sig::{RandomScalar, Signature};
use sha2::Digest;
use ed25519_dalek::Signer;

fn keypair_from(seed: [u8; 32]) -> Keypair {
    Keypair::from_seed(&seed.to_vec()).unwrap()
}

/// Adds two 32-byte little-endian numbers, panicking on overflow.
fn add_le_32(a: &[u8], b: &[u8]) -> Vec<u8> {
    let mut out = Vec::new();
    let mut carry: u16 = 0;
    for i in 0..32 {
        let sum = a[i] as u16 + b[i] as u16 + carry;
        out.push((sum % 256) as u8);
        carry = sum / 256;
    }
    assert_eq!(carry, 0);
    out
}

const GROUP_ORDER_LE: [u8; 32] = [
    0xed, 0xd3, 0xf5, 0x5c, 0x1a, 0x63, 0x12, 0x58, 0xd6, 0x9c, 0xf7, 0xa2, 0xde, 0xf9, 0xde,
    0x14, 0x00, 0x00, 0x00, 0x00, 0x00, 0x00, 0x00, 0x00, 0x00, 0x00, 0x00, 0x00, 0x00, 0x00,
    0x00, 0x10,
];

#[test]
fn zero_seed_public_key_fixture() {
    let kp = keypair_from([0u8; 32]);
    let pk = kp.public_key().bytes();
    // Cross-check against the outside crate's own derivation.
    let sk = ed25519_dalek::SigningKey::from_bytes(&[0u8; 32]);
    assert_eq!(pk.as_slice(), sk.verifying_key().as_bytes());
    // Golden value.
    let expected: [u8; 32] = [
        0x3b, 0x6a, 0x27, 0xbc, 0xce, 0xb6, 0xa4, 0x2d, 0x62, 0xa3, 0xa8, 0xd0, 0x2a, 0x6f,
        0x0d, 0x73, 0x65, 0x32, 0x15, 0x77, 0x1d, 0xe2, 0x43, 0xa6, 0x3a, 0xc0, 0x48, 0xa1,
        0x8b, 0x59, 0xda, 0x29,
    ];
    assert_eq!(pk.as_slice(), &expected);
}

#[test]
fn expanded_seed_matches_sha512() {
    let seed = [7u8; 32];
    let kp = keypair_from(seed);
    let expanded = kp.expanded_seed();
    let digest = sha2::Sha512::digest(&seed);
    assert_eq!(expanded.as_slice(), digest.as_slice());
    assert_ne!(expanded.as_slice(), &seed[..]);
}

#[test]
fn scalar_and_nonce_come_from_expansion() {
    let seed = [42u8; 32];
    let kp = keypair_from(seed);
    let digest = sha2::Sha512::digest(&seed);
    let mut clamped = digest[..32].to_vec();
    clamped[0] &= 248;
    clamped[31] &= 127;
    clamped[31] |= 64;
    assert_eq!(kp.scalar(), clamped);
    assert_eq!(kp.nonce().as_slice(), &digest[32..]);
}

#[test]
fn clamped_scalar_bit_pattern() {
    for b in [0u8, 1, 9, 77, 255] {
        let kp = keypair_from([b; 32]);
        let s = kp.scalar();
        assert_eq!(s.len(), 32);
        assert_eq!(s[0] & 7, 0);
        assert_eq!(s[31] & 128, 0);
        assert_eq!(s[31] & 64, 64);
    }
}

#[test]
fn sign_and_verify_round_trip() {
    for b in [0u8, 3, 200] {
        let kp = keypair_from([b; 32]);
        let pk = kp.public_key();
        for msg in [b"".to_vec(), b"hello".to_vec(), vec![0xaa; 300]] {
            let sig = kp.sign(&msg);
            assert!(pk.verify(&msg, &sig.bytes()));
        }
    }
}

#[test]
fn sign_matches_outside_signer() {
    let seed = [13u8; 32];
    let kp = keypair_from(seed);
    let msg = b"cross-check me".to_vec();
    let ours = kp.sign(&msg).bytes();
    let sk = ed25519_dalek::SigningKey::from_bytes(&seed);
    let theirs = sk.sign(&msg).to_bytes();
    assert_eq!(ours.as_slice(), &theirs[..]);
}

#[test]
fn signing_is_deterministic() {
    let kp = keypair_from([99u8; 32]);
    let msg = b"same every time".to_vec();
    let s1 = kp.sign(&msg).bytes();
    let s2 = kp.sign(&msg).bytes();
    assert_eq!(s1, s2);
    let kp2 = keypair_from([99u8; 32]);
    assert_eq!(kp2.sign(&msg).bytes(), s1);
}

#[test]
fn bit_flips_break_verification() {
    let kp = keypair_from([5u8; 32]);
    let pk = kp.public_key();
    let msg = b"tamper with me".to_vec();
    let sig = kp.sign(&msg).bytes();
    // Flip every bit of the message.
    for i in 0..msg.len() {
        for bit in 0..8 {
            let mut m = msg.clone();
            m[i] ^= 1 << bit;
            assert!(!pk.verify(&m, &sig), "message flip {i}/{bit} verified");
        }
    }
    // Flip every bit of R and s.
    for i in 0..64 {
        for bit in 0..8 {
            let mut s = sig.clone();
            s[i] ^= 1 << bit;
            assert!(!pk.verify(&msg, &s), "signature flip {i}/{bit} verified");
        }
    }
}

#[test]
fn verify_is_total_on_bad_shapes() {
    let kp = keypair_from([1u8; 32]);
    let pk = kp.public_key();
    let msg = b"shape".to_vec();
    assert!(!pk.verify(&msg, &vec![]));
    assert!(!pk.verify(&msg, &vec![0u8; 63]));
    assert!(!pk.verify(&msg, &vec![0u8; 65]));
    assert!(!pk.verify(&msg, &vec![0u8; 64]));
}

#[test]
fn constructors_reject_bad_lengths() {
    assert_eq!(Keypair::from_seed(&vec![0u8; 31]).err(), Some(Error::MalformedInput));
    assert_eq!(Keypair::from_seed(&vec![0u8; 33]).err(), Some(Error::MalformedInput));
    assert!(Keypair::from_seed(&vec![0u8; 32]).is_ok());
    assert_eq!(PublicKey::parse(&vec![0u8; 12]).err(), Some(Error::MalformedInput));
    assert!(PublicKey::parse(&vec![0u8; 32]).is_ok());
}

#[test]
fn verification_trace_reports_the_equation() {
    let kp = keypair_from([21u8; 32]);
    let pk = kp.public_key();
    let msg = b"trace".to_vec();
    let sig = kp.sign(&msg);
    let trace = pk.verification(&msg, &sig.bytes()).unwrap();
    assert!(trace.success());
    assert!(!trace.decompression_error());
    // On success the recomputed point is R itself.
    assert_eq!(trace.computed_point(), sig.random_point());
    // The trace's hash scalar is the reduced challenge hash.
    assert_eq!(Some(trace.hash_scalar()), sig.hash_scalar());
    // The trace and the boolean verifier agree on a tampered message too.
    let bad = b"trace!".to_vec();
    let t2 = pk.verification(&bad, &sig.bytes()).unwrap();
    assert!(!t2.success());
    assert_eq!(t2.success(), pk.verify(&bad, &sig.bytes()));
}

#[test]
fn verification_rejects_bad_length_only() {
    let kp = keypair_from([2u8; 32]);
    let pk = kp.public_key();
    let msg = b"len".to_vec();
    assert_eq!(pk.verification(&msg, &vec![0u8; 63]).err(), Some(Error::InvalidSignatureFormat));
    assert!(pk.verification(&msg, &vec![0u8; 64]).is_ok());
}

#[test]
fn undecompressible_key_is_flagged_not_fatal() {
    // Find 32 bytes that do not decompress to a curve point.
    let mut bad = Vec::new();
    for b in 0u8..=255 {
        let mut cand = [0u8; 32];
        cand[0] = b;
        if ed25519_dalek::VerifyingKey::from_bytes(&cand).is_err() {
            bad = cand.to_vec();
            break;
        }
    }
    assert_eq!(bad.len(), 32, "no undecompressible encoding found");
    let pk = PublicKey::parse(&bad).unwrap();
    let msg = b"no point".to_vec();
    let sig = vec![0u8; 64];
    assert!(!pk.verify(&msg, &sig));
    let trace = pk.verification(&msg, &sig).unwrap();
    assert!(trace.decompression_error());
    assert!(!trace.success());
    assert_eq!(trace.computed_point(), vec![0u8; 32]);
}

#[test]
fn modified_scalar_adds_the_group_order() {
    let kp = keypair_from([17u8; 32]);
    let msg = b"shift".to_vec();
    let sig = kp.sign(&msg);
    let m = sig.modified_scalar();
    let expected = add_le_32(&sig.scalar(), &GROUP_ORDER_LE);
    assert_eq!(m.bytes(), expected);
    assert_eq!(m.valid(), m.bytes()[31] & 224 == 0);
    match m.signature() {
        Some(alt) => {
            assert!(m.valid());
            assert_eq!(&alt[..32], sig.random_point().as_slice());
            assert_eq!(&alt[32..], m.bytes().as_slice());
        }
        None => assert!(!m.valid()),
    }
}

#[test]
fn alternate_signature_verifies_whenever_valid() {
    // s' = s + l stays below 2^253 unless s falls within a vanishing
    // distance of l, so on any realistic sample every shifted scalar is
    // valid, and every alternate signature must verify.
    let msg = b"malleable".to_vec();
    for i in 0..96 {
        let kp = keypair_from([i as u8; 32]);
        let pk = kp.public_key();
        let sig = kp.sign(&msg);
        assert!(pk.verify(&msg, &sig.bytes()));
        let m = sig.modified_scalar();
        assert!(m.valid(), "shifted scalar unexpectedly out of range at seed {i}");
        let alt = m.signature().unwrap();
        assert_ne!(alt, sig.bytes());
        assert!(pk.verify(&msg, &alt), "alternate signature rejected at seed {i}");
    }
}

#[test]
fn small_subgroup_has_eight_distinct_fixed_keys() {
    let keys = PublicKey::small_subgroup();
    assert_eq!(keys.len(), 8);
    let first: Vec<Vec<u8>> = keys.iter().map(|k| k.bytes()).collect();
    for k in &first {
        assert_eq!(k.len(), 32);
    }
    for i in 0..8 {
        for j in (i + 1)..8 {
            assert_ne!(first[i], first[j], "keys {i} and {j} coincide");
        }
    }
    // Deterministic across calls.
    let again: Vec<Vec<u8>> = PublicKey::small_subgroup().iter().map(|k| k.bytes()).collect();
    assert_eq!(first, again);
    // Matches the curve library's own table.
    let table: Vec<Vec<u8>> = curve25519_dalek::constants::EIGHT_TORSION
        .iter()
        .map(|p| p.compress().to_bytes().to_vec())
        .collect();
    assert_eq!(first, table);
    // The identity is present, compressed as 0x01 followed by zeros.
    let mut identity = vec![0u8; 32];
    identity[0] = 1;
    assert!(first.contains(&identity));
}

#[test]
fn forged_messages_verify_under_identity_key() {
    let sig = Signature::from_random_scalar();
    assert!(sig.hash().is_none());
    assert!(sig.hash_scalar().is_none());
    let mut identity = vec![0u8; 32];
    identity[0] = 1;
    let pk = PublicKey::parse(&identity).unwrap();
    let messages = sig.generate_valid_messages(&pk, 10);
    assert_eq!(messages.len(), 10);
    let sig_bytes = sig.bytes();
    for msg in &messages {
        assert!(pk.verify(msg, &sig_bytes), "forged message rejected");
        assert!(msg.iter().all(|b| b.is_ascii_digit() || *b == b'-'));
    }
}

#[test]
fn random_scalar_signing_exposes_the_nonce() {
    let kp = keypair_from([55u8; 32]);
    let pk = kp.public_key();
    let msg = b"chosen nonce".to_vec();
    let rs = RandomScalar::new();
    let sig = kp.sign_with_scalar(&msg, &rs);
    assert!(pk.verify(&msg, &sig.bytes()));
    // The chosen nonce is stored and retrievable.
    let sig2 = kp.sign_with_scalar(&msg, &rs);
    assert_eq!(sig.random_scalar(), sig2.random_scalar());
    assert_eq!(sig.bytes(), sig2.bytes());
}

#[test]
fn nonce_reuse_is_visible() {
    // Two different messages signed with one injected nonce share R.
    let kp = keypair_from([77u8; 32]);
    let rs = RandomScalar::new();
    let s1 = kp.sign_with_scalar(&b"first".to_vec(), &rs);
    let s2 = kp.sign_with_scalar(&b"second".to_vec(), &rs);
    assert_eq!(s1.random_point(), s2.random_point());
    assert_ne!(s1.scalar(), s2.scalar());
}

#[test]
fn signature_accessors_expose_the_parts() {
    let seed = [88u8; 32];
    let kp = keypair_from(seed);
    let pk = kp.public_key();
    let msg = b"parts".to_vec();
    let sig = kp.sign(&msg);
    let bytes = sig.bytes();
    assert_eq!(bytes.len(), 64);
    assert_eq!(&bytes[..32], sig.random_point().as_slice());
    assert_eq!(&bytes[32..], sig.scalar().as_slice());
    // The stored hash is SHA-512(R || A || M).
    let mut hasher = sha2::Sha512::new();
    hasher.update(sig.random_point());
    hasher.update(pk.bytes());
    hasher.update(&msg);
    let expected = hasher.finalize();
    assert_eq!(sig.hash().unwrap().as_slice(), expected.as_slice());
    // The hash scalar is that hash reduced mod the group order.
    let wide: [u8; 64] = expected.as_slice().try_into().unwrap();
    let reduced = curve25519_dalek::scalar::Scalar::from_bytes_mod_order_wide(&wide);
    assert_eq!(sig.hash_scalar().unwrap().as_slice(), reduced.as_bytes());
    // The nonce scalar reproduces R.
    let r_bytes: [u8; 32] = sig.random_scalar().as_slice().try_into().unwrap();
    let r_scalar = curve25519_dalek::scalar::Scalar::from_bytes_mod_order(r_bytes);
    let rpt = (r_scalar * curve25519_dalek::constants::ED25519_BASEPOINT_POINT).compress();
    assert_eq!(sig.random_point().as_slice(), rpt.as_bytes());
}

#[test]
fn from_random_scalar_is_consistent() {
    let sig = Signature::from_random_scalar();
    assert_eq!(sig.scalar(), sig.random_scalar());
    let s: [u8; 32] = sig.scalar().as_slice().try_into().unwrap();
    let scalar = curve25519_dalek::scalar::Scalar::from_bytes_mod_order(s);
    assert_eq!(scalar.as_bytes(), s.as_slice(), "scalar must already be reduced");
    let rpt = (scalar * curve25519_dalek::constants::ED25519_BASEPOINT_POINT).compress();
    assert_eq!(sig.random_point().as_slice(), rpt.as_bytes());
}

#[test]
fn generated_keypairs_are_well_formed() {
    let kp = Keypair::new();
    assert_eq!(kp.seed().len(), 32);
    let pk = kp.public_key();
    let msg = b"fresh".to_vec();
    assert!(pk.verify(&msg, &kp.sign(&msg).bytes()));
    let kp2 = Keypair::default();
    assert_eq!(kp2.seed().len(), 32);
    let rs = RandomScalar::default();
    let sig = kp2.sign_with_scalar(&msg, &rs);
    assert!(kp2.public_key().verify(&msg, &sig.bytes()));
}
