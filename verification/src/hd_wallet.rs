//! Hierarchical-deterministic key derivation for ristretto255: from a parent
//! extended public key and a non-hardened child index, a deterministic shift
//! scalar and the child's extended public key, via HMAC-SHA512 keyed with the
//! parent chain code.

use vstd::prelude::*;

use hmac::Mac;

use crate::encoding::be_to_nat;
use crate::point::{point_base_mul, point_sum, Point};
use crate::scalar::{group_order, Scalar};

verus! {

/// The 64-byte digest HMAC-SHA512 returns for a key and a message; a pure
/// function of the two.
pub uninterp spec fn hmac_sha512(key: Seq<u8>, msg: Seq<u8>) -> Seq<u8>;

/// Relies on the `hmac` crate's `Hmac<Sha512>`: keyed HMAC-SHA512 producing
/// a 64-byte digest, a pure function of key and message.  `new_from_slice`
/// accepts keys of any length, so it cannot fail here.
#[verifier::external_body]
fn hmac_sha512_digest(key: &[u8], msg: &[u8]) -> (r: [u8; 64])
    ensures
        r@ == hmac_sha512(key@, msg@),
{
    let mut mac = <hmac::Hmac<sha2::Sha512> as Mac>::new_from_slice(key)
        .expect("HMAC-SHA512 accepts keys of any length");
    mac.update(msg);
    let tag = mac.finalize().into_bytes();
    let mut out = [0u8; 64];
    out.copy_from_slice(&tag);
    out
}

/// A non-hardened child index: a value below `2^31`, the only kind of index
/// a public-only parent key can derive with.
#[derive(Clone, Copy, Debug, PartialEq, Eq)]
pub struct NonHardenedIndex {
    value: u32,
}

impl NonHardenedIndex {
    /// The index as an integer.
    pub closed spec fn as_u32(self) -> u32 {
        self.value
    }

    /// A non-hardened index always lies below `2^31`.
    #[verifier::type_invariant]
    pub open spec fn wf(self) -> bool {
        self.as_u32() < 0x8000_0000u32
    }

    /// The four-byte big-endian encoding of the index.
    pub open spec fn be_bytes(self) -> Seq<u8> {
        seq![
            (self.as_u32() >> 24) as u8,
            (self.as_u32() >> 16) as u8,
            (self.as_u32() >> 8) as u8,
            self.as_u32() as u8,
        ]
    }

    /// Accept a value as a non-hardened index; empty exactly when the value
    /// lies at or above `2^31`.
    pub fn new(value: u32) -> (r: Option<NonHardenedIndex>)
        ensures
            r is Some <==> value < 0x8000_0000u32,
            r is Some ==> r.unwrap().as_u32() == value,
    {
        if value < 0x8000_0000u32 {
            Some(NonHardenedIndex { value })
        } else {
            None
        }
    }

    /// The index as an integer.
    pub fn to_u32(&self) -> (r: u32)
        ensures
            r == self.as_u32(),
            r < 0x8000_0000u32,
    {
        proof {
            use_type_invariant(self);
        }
        self.value
    }

    /// The four-byte big-endian encoding of the index.
    pub fn to_be_bytes(&self) -> (r: [u8; 4])
        ensures
            r@ == self.be_bytes(),
    {
        let v = self.value;
        let r = [(v >> 24) as u8, (v >> 16) as u8, (v >> 8) as u8, v as u8];
        proof {
            assert(r@ =~= self.be_bytes());
        }
        r
    }
}

/// A parent or child extended public key: a group element together with a
/// 32-byte chain code.
#[derive(Clone, Copy)]
pub struct ExtendedPublicKey {
    /// The public point.
    pub public_key: Point,
    /// The auxiliary entropy mixed into child derivations.
    pub chain_code: [u8; 32],
}

/// The output of one derivation step: the shift scalar and the child
/// extended public key it produces.
#[derive(Clone, Copy)]
pub struct DerivedShift {
    /// The deterministic shift scalar.
    pub shift: Scalar,
    /// The child public key and chain code.
    pub child_public_key: ExtendedPublicKey,
}

/// The message the derivation feeds to HMAC-SHA512: the parent's compressed
/// public key, one zero byte kept for compatibility with other derivation
/// schemes, and the index in big-endian order.
pub open spec fn derivation_message(parent: ExtendedPublicKey, index: NonHardenedIndex) -> Seq<
    u8,
> {
    parent.public_key.enc() + seq![0u8] + index.be_bytes()
}

/// The 64-byte digest one derivation step computes.
pub open spec fn derivation_digest(parent: ExtendedPublicKey, index: NonHardenedIndex) -> Seq<
    u8,
> {
    hmac_sha512(parent.chain_code@, derivation_message(parent, index))
}

/// Split a 64-byte block into its first and second halves.
fn split_into_two_halves(i: &[u8; 64]) -> (r: ([u8; 32], [u8; 32]))
    ensures
        r.0@ == i@.subrange(0, 32),
        r.1@ == i@.subrange(32, 64),
{
    let mut left = [0u8; 32];
    let mut right = [0u8; 32];
    let mut k: usize = 0;
    while k < 32
        invariant
            0 <= k <= 32,
            left@.len() == 32,
            right@.len() == 32,
            forall|j: int| 0 <= j < k ==> left@[j] == i@[j],
            forall|j: int| 0 <= j < k ==> right@[j] == i@[32 + j],
        decreases 32 - k,
    {
        left[k] = i[k];
        right[k] = i[32 + k];
        k += 1;
    }
    proof {
        assert(left@ =~= i@.subrange(0, 32));
        assert(right@ =~= i@.subrange(32, 64));
    }
    (left, right)
}

/// HD derivation for the ristretto255 curve.
pub struct HdWallet {
    _private: (),
}

impl HdWallet {
    /// One non-hardened derivation step: HMAC-SHA512 keyed with the parent
    /// chain code over the parent public key, a zero byte and the index;
    /// the first half of the digest, reduced big-endian, is the shift; the
    /// child public key is the parent plus the generator times the shift;
    /// the second half of the digest is the child chain code.
    pub fn derive_public_shift(
        parent_public_key: &ExtendedPublicKey,
        child_index: NonHardenedIndex,
    ) -> (r: DerivedShift)
        ensures
            r.shift.value() == be_to_nat(
                derivation_digest(*parent_public_key, child_index).subrange(0, 32),
            ) % group_order(),
            r.child_public_key.public_key.enc() == point_sum(
                parent_public_key.public_key.enc(),
                point_base_mul(r.shift.value()),
            ),
            r.child_public_key.chain_code@ == derivation_digest(
                *parent_public_key,
                child_index,
            ).subrange(32, 64),
    {
        let pk_bytes = parent_public_key.public_key.to_bytes_compressed();
        let index_bytes = child_index.to_be_bytes();
        let mut msg: Vec<u8> = Vec::new();
        let mut k: usize = 0;
        while k < 32
            invariant
                0 <= k <= 32,
                pk_bytes@.len() == 32,
                msg@ =~= pk_bytes@.subrange(0, k as int),
            decreases 32 - k,
        {
            msg.push(pk_bytes[k]);
            k += 1;
        }
        // the zero byte kept for compatibility with other derivation schemes
        msg.push(0x00u8);
        let mut k: usize = 0;
        while k < 4
            invariant
                0 <= k <= 4,
                pk_bytes@.len() == 32,
                index_bytes@.len() == 4,
                msg@ =~= pk_bytes@ + seq![0u8] + index_bytes@.subrange(0, k as int),
            decreases 4 - k,
        {
            msg.push(index_bytes[k]);
            k += 1;
        }
        proof {
            assert(msg@ =~= derivation_message(*parent_public_key, child_index));
        }
        let digest = hmac_sha512_digest(&parent_public_key.chain_code, msg.as_slice());
        Self::calculate_shift(parent_public_key, &digest)
    }

    /// Turn one 64-byte derivation digest into the shift and the child
    /// extended public key.
    pub fn calculate_shift(parent_public_key: &ExtendedPublicKey, i: &[u8; 64]) -> (r:
        DerivedShift)
        ensures
            r.shift.value() == be_to_nat(i@.subrange(0, 32)) % group_order(),
            r.child_public_key.public_key.enc() == point_sum(
                parent_public_key.public_key.enc(),
                point_base_mul(r.shift.value()),
            ),
            r.child_public_key.chain_code@ == i@.subrange(32, 64),
    {
        let (i_left, i_right) = split_into_two_halves(i);
        let shift = Scalar::from_be_array_mod_order(&i_left);
        let child_pk = Point::add(&parent_public_key.public_key, &Point::mul_generator(&shift));
        DerivedShift {
            shift,
            child_public_key: ExtendedPublicKey { public_key: child_pk, chain_code: i_right },
        }
    }
}

} // verus!
