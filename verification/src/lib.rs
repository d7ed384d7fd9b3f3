//! An instructional Ed25519 toolkit that exposes the scheme's internal
//! mechanics and edge cases: deterministic signing with visible nonces,
//! verification with a full diagnostic trace, signature malleability via the
//! group order, and small-subgroup key forgery.
//!
//! All protocol logic (key derivation and clamping, the signing equation,
//! the verification equation, the scalar shift, the forged-message search)
//! is verified. Curve arithmetic and hashing are delegated to outside
//! crates through a small set of trusted wrappers.

pub mod codec;
pub mod model;
mod primitives;
pub mod keys;
pub mod sig;
pub mod laws;
