//! Arbitrary-length scalar reduction: fold a byte string of any length into a
//! canonical scalar modulo the group order. Strings of at most 64 bytes are
//! zero-padded and handed to the native 32- or 64-byte reduction; longer
//! strings are folded 64-byte block by 64-byte block with Horner's rule,
//! most significant block first, the weight of a block being `2^512` modulo
//! the group order.

use vstd::prelude::*;

use crate::encoding::{
    be_to_nat, le_to_nat, lemma_be_to_nat_is_le_of_reverse, lemma_le_to_nat_all_ff,
    lemma_le_to_nat_append, lemma_le_to_nat_zero_extend, pow256,
};
use crate::scalar::{group_order, Scalar};
use vstd::arithmetic::div_mod::{lemma_add_mod_noop, lemma_mul_mod_noop_general, lemma_small_mod};

verus! {

/// One Horner step modulo `l`: multiplying a reduced accumulator by the
/// reduced block weight and adding a reduced block equals reducing the
/// exact integer `p * x + c`.
proof fn lemma_horner_step(x: int, c: int, p: int, l: int)
    requires
        l > 0,
    ensures
        ((x % l) * (p % l) % l + c % l) % l == (p * x + c) % l,
{
    lemma_mul_mod_noop_general(x, p, l);
    lemma_add_mod_noop(x * p, c, l);
}

/// Copy the 64-byte block of `bytes` that starts at `start`.
fn chunk64(bytes: &[u8], start: usize) -> (r: [u8; 64])
    requires
        start + 64 <= bytes@.len(),
    ensures
        r@ == bytes@.subrange(start as int, start as int + 64),
{
    let n = bytes.len();
    let mut out = [0u8; 64];
    let mut i: usize = 0;
    while i < 64
        invariant
            0 <= i <= 64,
            n == bytes@.len(),
            start + 64 <= n,
            out@.len() == 64,
            forall|j: int| 0 <= j < i ==> out@[j] == bytes@[start + j],
        decreases 64 - i,
    {
        out[i] = bytes[start + i];
        i += 1;
    }
    proof {
        assert(out@ =~= bytes@.subrange(start as int, start as int + 64));
    }
    out
}

/// Reduce the suffix of `bytes` that starts at `start`, which holds at most
/// 64 bytes: zero-pad it on the high-order side to 32 or 64 bytes and reduce
/// it as a native little-endian value.
fn reduce_le_suffix(bytes: &[u8], start: usize) -> (r: Scalar)
    requires
        start <= bytes@.len(),
        bytes@.len() - start <= 64,
    ensures
        r.value() == le_to_nat(bytes@.skip(start as int)) % group_order(),
{
    let len = bytes.len();
    let n = len - start;
    if n <= 32 {
        let mut padded = [0u8; 32];
        let mut i: usize = 0;
        while i < n
            invariant
                0 <= i <= n,
                n == bytes@.len() - start,
                n <= 32,
                len == bytes@.len(),
                start + n == len,
                padded@.len() == 32,
                forall|j: int| 0 <= j < i ==> padded@[j] == bytes@[start + j],
                forall|j: int| i <= j < 32 ==> padded@[j] == 0,
            decreases n - i,
        {
            padded[i] = bytes[start + i];
            i += 1;
        }
        proof {
            lemma_le_to_nat_zero_extend(bytes@.skip(start as int), padded@);
        }
        Scalar::from_le_array_mod_order(&padded)
    } else {
        let mut padded = [0u8; 64];
        let mut i: usize = 0;
        while i < n
            invariant
                0 <= i <= n,
                n == bytes@.len() - start,
                n <= 64,
                len == bytes@.len(),
                start + n == len,
                padded@.len() == 64,
                forall|j: int| 0 <= j < i ==> padded@[j] == bytes@[start + j],
                forall|j: int| i <= j < 64 ==> padded@[j] == 0,
            decreases n - i,
        {
            padded[i] = bytes[start + i];
            i += 1;
        }
        proof {
            lemma_le_to_nat_zero_extend(bytes@.skip(start as int), padded@);
        }
        Scalar::from_le_array_mod_order_wide(&padded)
    }
}

/// The weight of one 64-byte block: the scalar `2^512` modulo the group
/// order, obtained by reducing 64 bytes of all ones and adding one.
fn block_weight() -> (r: Scalar)
    ensures
        r.value() == pow256(64) % group_order(),
{
    let ones = [0xffu8; 64];
    let all_ff = Scalar::from_le_array_mod_order_wide(&ones);
    proof {
        lemma_le_to_nat_all_ff(ones@);
    }
    let r = Scalar::add(&all_ff, &Scalar::one());
    proof {
        let l = group_order() as int;
        let p = pow256(64) as int;
        crate::encoding::lemma_pow256_pos(64);
        vstd::arithmetic::power2::lemma_pow2_pos(252);
        lemma_small_mod(1, group_order());
        lemma_add_mod_noop(p - 1, 1, l);
    }
    r
}

impl Scalar {
    /// Reduce a little-endian byte string of any length modulo the group
    /// order.
    pub fn from_le_bytes_mod_order(bytes: &[u8]) -> (r: Scalar)
        ensures
            r.value() == le_to_nat(bytes@) % group_order(),
    {
        let len = bytes.len();
        if len <= 64 {
            let r = reduce_le_suffix(bytes, 0);
            proof {
                assert(bytes@.skip(0) =~= bytes@);
            }
            r
        } else {
            let weight = block_weight();
            let rem = len % 64;
            let mut lo: usize;
            let mut acc: Scalar;
            if rem != 0 {
                // the trailing partial block is the most significant chunk
                lo = len - rem;
                acc = reduce_le_suffix(bytes, lo);
            } else {
                lo = len - 64;
                let c = chunk64(bytes, lo);
                acc = Scalar::from_le_array_mod_order_wide(&c);
                proof {
                    assert(bytes@.subrange(lo as int, lo as int + 64) =~= bytes@.skip(lo as int));
                }
            }
            while lo > 0
                invariant
                    lo % 64 == 0,
                    lo <= bytes@.len(),
                    weight.value() == pow256(64) % group_order(),
                    acc.value() == le_to_nat(bytes@.skip(lo as int)) % group_order(),
                decreases lo,
            {
                let c = chunk64(bytes, lo - 64);
                let block = Scalar::from_le_array_mod_order_wide(&c);
                let shifted = Scalar::mul(&acc, &weight);
                let folded = Scalar::add(&shifted, &block);
                proof {
                    let l = group_order() as int;
                    let x = le_to_nat(bytes@.skip(lo as int)) as int;
                    let chunk = bytes@.subrange(lo - 64, lo as int);
                    let c_val = le_to_nat(chunk) as int;
                    vstd::arithmetic::power2::lemma_pow2_pos(252);
                    assert(bytes@.skip(lo - 64) =~= chunk + bytes@.skip(lo as int));
                    lemma_le_to_nat_append(chunk, bytes@.skip(lo as int));
                    lemma_horner_step(x, c_val, pow256(64) as int, l);
                }
                acc = folded;
                lo = lo - 64;
            }
            proof {
                assert(bytes@.skip(0) =~= bytes@);
            }
            acc
        }
    }

    /// Reduce a big-endian byte string of any length modulo the group order:
    /// the mirror of the little-endian reduction, with the byte order
    /// reversed.
    pub fn from_be_bytes_mod_order(bytes: &[u8]) -> (r: Scalar)
        ensures
            r.value() == be_to_nat(bytes@) % group_order(),
    {
        let len = bytes.len();
        let mut rev: Vec<u8> = Vec::new();
        let mut i: usize = len;
        while i > 0
            invariant
                0 <= i <= len,
                len == bytes@.len(),
                rev@.len() == len - i,
                forall|j: int| 0 <= j < len - i ==> rev@[j] == bytes@[len - 1 - j],
            decreases i,
        {
            i = i - 1;
            rev.push(bytes[i]);
        }
        proof {
            assert(rev@ =~= bytes@.reverse());
            lemma_be_to_nat_is_le_of_reverse(bytes@);
        }
        Scalar::from_le_bytes_mod_order(rev.as_slice())
    }
}

} // verus!
