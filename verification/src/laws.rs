//! The guarantees that tie several operations together, stated and proved
//! once: signing is deterministic, the order-shifted scalar keeps a
//! signature valid, the torsion key sequence is fixed, and the diagnostic
//! trace agrees with the boolean verifier.

use vstd::prelude::*;
use vstd::arithmetic::power2::pow2;
use vstd::arithmetic::div_mod::lemma_mod_add_multiples_vanish;
use crate::codec::{le_nat, lemma_le_nat_injective};
use crate::model::{
    group_order, sig_r_spec, sig_s_residue, verify_ok_spec, torsion_compressed,
    challenge_residue, nonce_residue, public_key_spec, secret_scalar_spec,
    lemma_group_order_bounds,
};
use crate::keys::Verification;

verus! {

/// Signing is deterministic: any two signatures that satisfy the contract
/// of `Keypair::sign` for the same seed and message are byte-identical.
pub proof fn lemma_sign_deterministic(
    seed: Seq<u8>,
    msg: Seq<u8>,
    r1: Seq<u8>,
    s1: Seq<u8>,
    r2: Seq<u8>,
    s2: Seq<u8>,
)
    requires
        r1 == sig_r_spec(seed, msg),
        s1.len() == 32,
        le_nat(s1) == sig_s_residue(seed, msg),
        r2 == sig_r_spec(seed, msg),
        s2.len() == 32,
        le_nat(s2) == sig_s_residue(seed, msg),
    ensures
        r1 + s1 == r2 + s2,
{
    lemma_le_nat_injective(s1, s2);
    assert(r1 + s1 =~= r2 + s2);
}

/// Malleability: when R ‖ s verifies and the shifted scalar s' = s + ℓ
/// still passes the relaxed bound s' < 2^253, the alternate signature
/// R ‖ s' verifies for the same key and message. The verifier sees the
/// scalar only modulo ℓ, so adding the group order changes nothing it
/// checks except the relaxed bound.
pub proof fn lemma_shifted_scalar_verifies(
    pk: Seq<u8>,
    msg: Seq<u8>,
    rpt: Seq<u8>,
    s1: Seq<u8>,
    s2: Seq<u8>,
)
    requires
        rpt.len() == 32,
        s1.len() == 32,
        s2.len() == 32,
        le_nat(s2) == le_nat(s1) + group_order(),
        le_nat(s2) < pow2(253),
        verify_ok_spec(pk, msg, rpt + s1),
    ensures
        verify_ok_spec(pk, msg, rpt + s2),
{
    lemma_group_order_bounds();
    assert((rpt + s1).subrange(0, 32) =~= rpt);
    assert((rpt + s1).subrange(32, 64) =~= s1);
    assert((rpt + s2).subrange(0, 32) =~= rpt);
    assert((rpt + s2).subrange(32, 64) =~= s2);
    lemma_mod_add_multiples_vanish(le_nat(s1) as int, group_order() as int);
}

/// An honest signature's scalar half is a canonical residue, so it always
/// passes the relaxed bound s < 2^253 that verification applies.
pub proof fn lemma_honest_scalar_passes_relaxed_bound(seed: Seq<u8>, msg: Seq<u8>, s: Seq<u8>)
    requires
        s.len() == 32,
        le_nat(s) == sig_s_residue(seed, msg),
    ensures
        le_nat(s) < pow2(253),
{
    lemma_group_order_bounds();
    vstd::arithmetic::div_mod::lemma_mod_bound(
        (challenge_residue(sig_r_spec(seed, msg), public_key_spec(seed), msg) * le_nat(
            secret_scalar_spec(seed),
        ) + nonce_residue(seed, msg)) as int,
        group_order() as int,
    );
}

/// The small-subgroup enumeration is one fixed sequence: any two results
/// that satisfy the contract of `PublicKey::small_subgroup` are equal,
/// element for element.
pub proof fn lemma_small_subgroup_deterministic(ks1: Seq<Seq<u8>>, ks2: Seq<Seq<u8>>)
    requires
        ks1.len() == 8,
        ks2.len() == 8,
        forall|i: int| 0 <= i < 8 ==> #[trigger] ks1[i] == torsion_compressed(i),
        forall|i: int| 0 <= i < 8 ==> #[trigger] ks2[i] == torsion_compressed(i),
    ensures
        ks1 == ks2,
{
    assert(ks1 =~= ks2);
}

/// The diagnostic trace and the boolean verifier agree: a trace for
/// `(pk, msg, sig)` carries exactly the verdict that `verify` returns.
pub proof fn lemma_trace_matches_verify(
    t: Verification,
    pk: Seq<u8>,
    msg: Seq<u8>,
    sig: Seq<u8>,
    verdict: bool,
)
    requires
        sig.len() == 64,
        t.trace_ok(pk, msg, sig),
        verdict == (sig.len() == 64 && verify_ok_spec(pk, msg, sig)),
    ensures
        t.result == verdict,
{
}

/// On a successful verification the trace's recomputed point is exactly
/// the signature's R half.
pub proof fn lemma_trace_point_on_success(t: Verification, pk: Seq<u8>, msg: Seq<u8>, sig: Seq<u8>)
    requires
        sig.len() == 64,
        t.trace_ok(pk, msg, sig),
        verify_ok_spec(pk, msg, sig),
    ensures
        t.computed_point@ == sig.subrange(0, 32),
{
}

} // verus!
