//! The laws the library promises, stated over the views and spec functions
//! its contracts use and proved once and for all.

use vstd::prelude::*;

use crate::encoding::{be_to_nat, le_to_nat, lemma_be_to_nat_is_le_of_reverse};
use crate::hd_wallet::{derivation_digest, DerivedShift, ExtendedPublicKey, NonHardenedIndex};
use crate::point::{is_point_encoding, point_base_mul, point_sum, Point};
use crate::scalar::{group_order, Scalar};

verus! {

/// Reduction respects exactly one transformation: the endianness flip. A
/// byte string reduced big-endian yields the same scalar as its reversal
/// reduced little-endian, whatever its length.
pub proof fn lemma_reduce_endianness_flip(b: Seq<u8>)
    ensures
        be_to_nat(b) % group_order() == le_to_nat(b.reverse()) % group_order(),
{
    lemma_be_to_nat_is_le_of_reverse(b);
}

/// Round trip of the canonical scalar encoding: decoding what a scalar
/// encodes succeeds and returns a scalar of the same value with the very
/// same encoding, so re-encoding is idempotent. The parameters carry the
/// contracts of `Scalar::to_le_bytes` and `Scalar::from_le_bytes_exact`.
pub proof fn lemma_scalar_round_trip(s: Scalar, encoded: Seq<u8>, decoded: Option<Scalar>)
    requires
        s.wf(),
        encoded == s.enc(),
        decoded is Some <==> le_to_nat(encoded) < group_order(),
        decoded is Some ==> decoded.unwrap().value() == le_to_nat(encoded) && decoded.unwrap().enc()
            == encoded,
    ensures
        decoded is Some,
        decoded.unwrap().value() == s.value(),
        decoded.unwrap().enc() == s.enc(),
{
}

/// Round trip of the canonical point encoding: a valid compressed encoding,
/// decoded and re-encoded, yields the very same bytes. The parameters carry
/// the contracts of `Point::decode` and `Point::to_bytes_compressed`.
pub proof fn lemma_point_round_trip(p: Seq<u8>, decoded: Option<Point>)
    requires
        is_point_encoding(p),
        decoded is Some <==> is_point_encoding(p),
        decoded is Some ==> decoded.unwrap().enc() == p,
    ensures
        decoded is Some,
        decoded.unwrap().enc() == p,
{
}

/// Inversion law: inverting a nonzero scalar and multiplying back yields
/// one, and inverting zero yields nothing. The parameters carry the
/// contracts of `Scalar::invert` and `Scalar::mul`.
pub proof fn lemma_invert_then_mul(x: Scalar, inverted: Option<Scalar>, product: Scalar)
    requires
        inverted is Some <==> x.value() != 0,
        inverted is Some ==> (inverted.unwrap().value() * x.value()) % group_order() == 1,
        inverted is Some ==> product.value() == (inverted.unwrap().value() * x.value())
            % group_order(),
    ensures
        x.value() == 0 ==> inverted is None,
        x.value() != 0 ==> product.value() == 1,
{
}

/// The multiplicative inverse is unique: two reduced scalars whose products
/// with the same scalar are both one modulo the group order are equal.
pub proof fn lemma_inverse_unique(x: nat, a: nat, b: nat)
    requires
        a < group_order(),
        b < group_order(),
        (a * x) % group_order() == 1,
        (b * x) % group_order() == 1,
    ensures
        a == b,
{
    let l = group_order() as int;
    vstd::arithmetic::power2::lemma_pow2_pos(252);
    vstd::arithmetic::div_mod::lemma_small_mod(a, group_order());
    vstd::arithmetic::div_mod::lemma_small_mod(b, group_order());
    // a == (a * ((b*x) mod l)) mod l == (a*b*x) mod l == (b * ((a*x) mod l)) mod l == b
    vstd::arithmetic::div_mod::lemma_mul_mod_noop_right(a as int, (b * x) as int, l);
    vstd::arithmetic::div_mod::lemma_mul_mod_noop_right(b as int, (a * x) as int, l);
    assert(a as int * (b * x) == b as int * (a * x)) by (nonlinear_arith);
    assert(a as int * (((b * x) as int) % l) == a);
    assert(b as int * (((a * x) as int) % l) == b);
}

/// Derivation is deterministic: two results that each satisfy the contract
/// of `HdWallet::derive_public_shift` for the same parent and index agree on
/// the shift value, the child public key's encoding and the child chain
/// code.
pub proof fn lemma_derivation_deterministic(
    parent: ExtendedPublicKey,
    index: NonHardenedIndex,
    r1: DerivedShift,
    r2: DerivedShift,
)
    requires
        r1.shift.value() == be_to_nat(derivation_digest(parent, index).subrange(0, 32))
            % group_order(),
        r1.child_public_key.public_key.enc() == point_sum(
            parent.public_key.enc(),
            point_base_mul(r1.shift.value()),
        ),
        r1.child_public_key.chain_code@ == derivation_digest(parent, index).subrange(32, 64),
        r2.shift.value() == be_to_nat(derivation_digest(parent, index).subrange(0, 32))
            % group_order(),
        r2.child_public_key.public_key.enc() == point_sum(
            parent.public_key.enc(),
            point_base_mul(r2.shift.value()),
        ),
        r2.child_public_key.chain_code@ == derivation_digest(parent, index).subrange(32, 64),
    ensures
        r1.shift.value() == r2.shift.value(),
        r1.child_public_key.public_key.enc() == r2.child_public_key.public_key.enc(),
        r1.child_public_key.chain_code@ == r2.child_public_key.chain_code@,
{
}

} // verus!
