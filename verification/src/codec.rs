//! Little-endian byte strings as natural numbers.
//!
//! Scalars in Ed25519 are 32-byte little-endian integers. This module gives
//! the byte strings their mathematical value (`le_nat`), proves the basic
//! facts about that value (bounds, injectivity, concatenation), and provides
//! the verified byte-level operations the rest of the crate builds on:
//! subranges, concatenation, decimal rendering and a
//! carry-propagating adder.

use vstd::prelude::*;
use vstd::arithmetic::power2::{pow2, lemma_pow2_adds, lemma2_to64};
use vstd::arithmetic::div_mod::lemma_fundamental_div_mod_converse;

verus! {

/// The natural number that a little-endian byte string encodes.
pub open spec fn le_nat(s: Seq<u8>) -> nat
    decreases s.len(),
{
    if s.len() == 0 {
        0
    } else {
        s[0] as nat + 256 * le_nat(s.subrange(1, s.len() as int))
    }
}

/// Appending a byte on the big end adds its value times the matching power of two.
pub proof fn lemma_le_nat_push(s: Seq<u8>, b: u8)
    ensures
        le_nat(s.push(b)) == le_nat(s) + (b as nat) * pow2((8 * s.len()) as nat),
    decreases s.len(),
{
    if s.len() == 0 {
        assert(s.push(b).subrange(1, 1) =~= Seq::<u8>::empty());
        assert(pow2(0) == 1) by {
            lemma2_to64();
        }
        assert(le_nat(Seq::<u8>::empty()) == 0);
        assert(s.push(b)[0] == b);
        assert(le_nat(s.push(b)) == b as nat + 256 * le_nat(s.push(b).subrange(1, 1)));
        assert(le_nat(s) == 0);
        assert((b as nat) * pow2((8 * s.len()) as nat) == b as nat) by (nonlinear_arith)
            requires
                pow2((8 * s.len()) as nat) == 1,
        ;
        assert(le_nat(s.push(b)) == le_nat(s) + (b as nat) * pow2((8 * s.len()) as nat));
    } else {
        let t = s.subrange(1, s.len() as int);
        assert(s.push(b).subrange(1, s.len() as int + 1) =~= t.push(b));
        lemma_le_nat_push(t, b);
        lemma_pow2_adds(8, (8 * t.len()) as nat);
        assert(pow2(8) == 256) by {
            lemma2_to64();
        }
        let p = pow2((8 * t.len()) as nat);
        assert(le_nat(s) == s[0] as nat + 256 * le_nat(t));
        assert(le_nat(s.push(b)) == s[0] as nat + 256 * le_nat(t.push(b)));
        assert(le_nat(t.push(b)) == le_nat(t) + (b as nat) * p);
        assert(pow2((8 * s.len()) as nat) == 256 * p);
        assert(256 * (le_nat(t) + (b as nat) * p) == 256 * le_nat(t) + (b as nat) * (256 * p))
            by (nonlinear_arith);
        assert(le_nat(s.push(b)) == s[0] as nat + 256 * le_nat(t) + (b as nat) * (256 * p));
        assert(le_nat(s.push(b)) == le_nat(s) + (b as nat) * pow2((8 * s.len()) as nat));
    }
}

/// The first `i + 1` bytes encode the first `i` bytes plus byte `i` scaled.
pub proof fn lemma_le_nat_take_step(s: Seq<u8>, i: int)
    requires
        0 <= i < s.len(),
    ensures
        le_nat(s.take(i + 1)) == le_nat(s.take(i)) + (s[i] as nat) * pow2((8 * i) as nat),
{
    assert(s.take(i + 1) =~= s.take(i).push(s[i]));
    lemma_le_nat_push(s.take(i), s[i]);
}

/// A byte string of length `n` encodes a value below `2^(8n)`.
pub proof fn lemma_le_nat_bound(s: Seq<u8>)
    ensures
        le_nat(s) < pow2((8 * s.len()) as nat),
    decreases s.len(),
{
    if s.len() == 0 {
        assert(pow2(0) == 1) by {
            lemma2_to64();
        }
    } else {
        let t = s.subrange(1, s.len() as int);
        lemma_le_nat_bound(t);
        lemma_pow2_adds(8, (8 * t.len()) as nat);
        assert(pow2(8) == 256) by {
            lemma2_to64();
        }
        assert(256 * le_nat(t) + 255 < 256 * pow2((8 * t.len()) as nat)) by (nonlinear_arith)
            requires
                le_nat(t) < pow2((8 * t.len()) as nat),
        ;
    }
}

/// The low byte and the rest of the value can be read back off `le_nat`.
pub proof fn lemma_le_nat_low_byte(s: Seq<u8>)
    requires
        s.len() > 0,
    ensures
        le_nat(s) % 256 == s[0] as nat,
        le_nat(s) / 256 == le_nat(s.subrange(1, s.len() as int)),
{
    let rest = le_nat(s.subrange(1, s.len() as int));
    lemma_fundamental_div_mod_converse(le_nat(s) as int, 256, rest as int, s[0] as int);
}

/// Two byte strings of equal length with the same value are equal.
pub proof fn lemma_le_nat_injective(a: Seq<u8>, b: Seq<u8>)
    requires
        a.len() == b.len(),
        le_nat(a) == le_nat(b),
    ensures
        a =~= b,
    decreases a.len(),
{
    if a.len() > 0 {
        lemma_le_nat_low_byte(a);
        lemma_le_nat_low_byte(b);
        lemma_le_nat_injective(a.subrange(1, a.len() as int), b.subrange(1, b.len() as int));
        assert(a =~= Seq::new(a.len(), |i: int| if i == 0 { a[0] } else { a.subrange(1, a.len() as int)[i - 1] }));
        assert(b =~= Seq::new(b.len(), |i: int| if i == 0 { b[0] } else { b.subrange(1, b.len() as int)[i - 1] }));
    }
}

/// Copies the byte range `[start, end)` out of `v`.
pub fn sub_vec(v: &Vec<u8>, start: usize, end: usize) -> (r: Vec<u8>)
    requires
        start <= end,
        end <= v@.len(),
    ensures
        r@ == v@.subrange(start as int, end as int),
{
    let mut out: Vec<u8> = Vec::new();
    let mut i: usize = start;
    while i < end
        invariant
            start <= i <= end,
            end <= v@.len(),
            out@ =~= v@.subrange(start as int, i as int),
        decreases end - i,
    {
        out.push(v[i]);
        proof {
            assert(v@.subrange(start as int, i + 1) =~= v@.subrange(start as int, i as int).push(
                v@[i as int],
            ));
        }
        i += 1;
    }
    proof {
        assert(out@ =~= v@.subrange(start as int, end as int));
    }
    out
}

/// Appends all of `src` to `dst`.
pub fn push_all(dst: &mut Vec<u8>, src: &Vec<u8>)
    ensures
        final(dst)@ == old(dst)@ + src@,
{
    let mut i: usize = 0;
    while i < src.len()
        invariant
            i <= src@.len(),
            dst@ =~= old(dst)@ + src@.take(i as int),
        decreases src@.len() - i,
    {
        dst.push(src[i]);
        proof {
            assert(old(dst)@ + src@.take(i + 1) =~= (old(dst)@ + src@.take(i as int)).push(
                src@[i as int],
            ));
        }
        i += 1;
    }
    proof {
        assert(src@.take(src@.len() as int) =~= src@);
        assert(dst@ =~= old(dst)@ + src@);
    }
}

/// Concatenates two byte vectors.
pub fn concat2(a: &Vec<u8>, b: &Vec<u8>) -> (r: Vec<u8>)
    ensures
        r@ == a@ + b@,
{
    let mut out: Vec<u8> = Vec::new();
    push_all(&mut out, a);
    push_all(&mut out, b);
    proof {
        assert(out@ =~= a@ + b@);
    }
    out
}

/// Concatenates three byte vectors.
pub fn concat3(a: &Vec<u8>, b: &Vec<u8>, c: &Vec<u8>) -> (r: Vec<u8>)
    ensures
        r@ == a@ + b@ + c@,
{
    let mut out: Vec<u8> = Vec::new();
    push_all(&mut out, a);
    push_all(&mut out, b);
    push_all(&mut out, c);
    proof {
        assert(out@ =~= a@ + b@ + c@);
    }
    out
}

/// Copies a byte vector.
pub fn copy_vec(v: &Vec<u8>) -> (r: Vec<u8>)
    ensures
        r@ == v@,
{
    let mut out: Vec<u8> = Vec::new();
    push_all(&mut out, v);
    proof {
        assert(out@ =~= v@);
    }
    out
}

/// Adds two 32-byte little-endian numbers whose sum still fits in 32 bytes.
pub fn add_bytes(a: &Vec<u8>, b: &Vec<u8>) -> (r: Vec<u8>)
    requires
        a@.len() == 32,
        b@.len() == 32,
        le_nat(a@) + le_nat(b@) < pow2(256),
    ensures
        r@.len() == 32,
        le_nat(r@) == le_nat(a@) + le_nat(b@),
{
    let mut out: Vec<u8> = Vec::new();
    let mut carry: u16 = 0;
    let mut i: usize = 0;
    proof {
        assert(a@.take(0) =~= Seq::<u8>::empty());
        assert(b@.take(0) =~= Seq::<u8>::empty());
        assert(pow2(0) == 1) by {
            lemma2_to64();
        }
    }
    while i < 32
        invariant
            i <= 32,
            a@.len() == 32,
            b@.len() == 32,
            out@.len() == i,
            carry <= 1,
            le_nat(out@) + (carry as nat) * pow2((8 * i) as nat) == le_nat(a@.take(i as int))
                + le_nat(b@.take(i as int)),
        decreases 32 - i,
    {
        let sum: u16 = a[i] as u16 + b[i] as u16 + carry;
        let low: u8 = (sum % 256) as u8;
        let hi: u16 = sum / 256;
        proof {
            lemma_le_nat_push(out@, low);
            lemma_le_nat_take_step(a@, i as int);
            lemma_le_nat_take_step(b@, i as int);
            lemma_pow2_adds(8, (8 * i) as nat);
            assert(pow2(8) == 256) by {
                lemma2_to64();
            }
            assert(low as nat + 256 * (hi as nat) == sum as nat);
            let p = pow2((8 * i) as nat);
            assert((low as nat) * p + (hi as nat) * (256 * p) == (sum as nat) * p)
                by (nonlinear_arith)
                requires
                    low as nat + 256 * (hi as nat) == sum as nat,
            ;
            assert((sum as nat) * p == (a@[i as int] as nat) * p + (b@[i as int] as nat) * p + (
            carry as nat) * p) by (nonlinear_arith)
                requires
                    sum as nat == a@[i as int] as nat + b@[i as int] as nat + carry as nat,
            ;
        }
        out.push(low);
        carry = hi;
        i += 1;
    }
    proof {
        assert(a@.take(32) =~= a@);
        assert(b@.take(32) =~= b@);
        if carry != 0 {
            assert(le_nat(out@) + (carry as nat) * pow2(256) >= pow2(256)) by (nonlinear_arith)
                requires
                    carry >= 1,
            ;
        }
    }
    out
}

/// The decimal digits of a number, most significant first, as ASCII bytes.
pub open spec fn decimal_spec(n: nat) -> Seq<u8>
    decreases n,
{
    if n < 10 {
        seq![(48 + n) as u8]
    } else {
        decimal_spec(n / 10).push((48 + n % 10) as u8)
    }
}

/// Renders a number in decimal ASCII.
pub fn decimal_digits(n: u32) -> (r: Vec<u8>)
    ensures
        r@ == decimal_spec(n as nat),
    decreases n,
{
    if n < 10 {
        let mut out: Vec<u8> = Vec::new();
        out.push(48 + (n as u8));
        proof {
            assert(out@ =~= decimal_spec(n as nat));
        }
        out
    } else {
        let mut out = decimal_digits(n / 10);
        out.push(48 + ((n % 10) as u8));
        out
    }
}

} // verus!
