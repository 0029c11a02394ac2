//! Byte-string values: the integer a byte string denotes in little-endian or
//! big-endian order, and the lemmas about concatenation, padding and reversal
//! that the scalar-reduction proofs rest on.

use vstd::prelude::*;

verus! {

/// 256 raised to the power `n`: the weight of the byte at position `n` of a
/// little-endian byte string.
pub open spec fn pow256(n: nat) -> nat
    decreases n,
{
    if n == 0 {
        1
    } else {
        256 * pow256((n - 1) as nat)
    }
}

/// The integer a byte string denotes in little-endian order: the byte at
/// index 0 is the least significant.
pub open spec fn le_to_nat(b: Seq<u8>) -> nat
    decreases b.len(),
{
    if b.len() == 0 {
        0
    } else {
        (b[0] + 256 * le_to_nat(b.drop_first())) as nat
    }
}

/// The integer a byte string denotes in big-endian order: the byte at
/// index 0 is the most significant.
pub open spec fn be_to_nat(b: Seq<u8>) -> nat
    decreases b.len(),
{
    if b.len() == 0 {
        0
    } else {
        (256 * be_to_nat(b.drop_last()) + b.last()) as nat
    }
}

/// Byte weights are positive.
pub proof fn lemma_pow256_pos(n: nat)
    ensures
        pow256(n) >= 1,
    decreases n,
{
    if n > 0 {
        lemma_pow256_pos((n - 1) as nat);
    }
}

/// Concatenation splits a little-endian value: the left part carries the low
/// bytes and the right part is weighted by the left part's length.
pub proof fn lemma_le_to_nat_append(a: Seq<u8>, b: Seq<u8>)
    ensures
        le_to_nat(a + b) == le_to_nat(a) + pow256(a.len()) * le_to_nat(b),
    decreases a.len(),
{
    if a.len() == 0 {
        assert(a + b =~= b);
        assert(le_to_nat(a) == 0);
        assert(pow256(a.len()) == 1);
        assert(pow256(a.len()) * le_to_nat(b) == le_to_nat(b));
    } else {
        assert((a + b).drop_first() =~= a.drop_first() + b);
        lemma_le_to_nat_append(a.drop_first(), b);
        let p = pow256((a.len() - 1) as nat) as int;
        let v = le_to_nat(b) as int;
        let x = le_to_nat(a.drop_first()) as int;
        vstd::arithmetic::mul::lemma_mul_is_associative(256, p, v);
        assert(256 * (x + p * v) == 256 * x + (256 * p) * v) by (nonlinear_arith);
        assert((a + b)[0] == a[0]);
        assert(le_to_nat(a + b) == a[0] + 256 * (x + p * v));
        assert(pow256(a.len()) == 256 * p);
        assert(pow256(a.len()) * le_to_nat(b) == (256 * p) * v);
        assert(le_to_nat(a) == a[0] + 256 * x);
        assert(le_to_nat(a + b) == le_to_nat(a) + pow256(a.len()) * le_to_nat(b));
    }
}

/// A byte string of zeros denotes zero.
pub proof fn lemma_le_to_nat_all_zero(b: Seq<u8>)
    requires
        forall|i: int| 0 <= i < b.len() ==> b[i] == 0,
    ensures
        le_to_nat(b) == 0,
    decreases b.len(),
{
    if b.len() > 0 {
        lemma_le_to_nat_all_zero(b.drop_first());
    }
}

/// A byte string of `0xff` bytes denotes one less than the weight just past
/// its end.
pub proof fn lemma_le_to_nat_all_ff(b: Seq<u8>)
    requires
        forall|i: int| 0 <= i < b.len() ==> b[i] == 0xff,
    ensures
        le_to_nat(b) == pow256(b.len()) - 1,
    decreases b.len(),
{
    if b.len() > 0 {
        lemma_le_to_nat_all_ff(b.drop_first());
        lemma_pow256_pos((b.len() - 1) as nat);
    }
}

/// Zero-padding a little-endian byte string on its high-order side does not
/// change the value it denotes.
pub proof fn lemma_le_to_nat_zero_extend(a: Seq<u8>, b: Seq<u8>)
    requires
        a.len() <= b.len(),
        forall|i: int| 0 <= i < a.len() ==> b[i] == a[i],
        forall|i: int| a.len() <= i < b.len() ==> b[i] == 0,
    ensures
        le_to_nat(b) == le_to_nat(a),
{
    let pad = b.subrange(a.len() as int, b.len() as int);
    assert(b =~= a + pad);
    lemma_le_to_nat_append(a, pad);
    lemma_le_to_nat_all_zero(pad);
    assert(pow256(a.len()) * le_to_nat(pad) == 0) by {
        assert(le_to_nat(pad) == 0);
    }
}

/// Byte strings of equal length that denote the same little-endian value are
/// equal byte for byte.
pub proof fn lemma_le_to_nat_injective(a: Seq<u8>, b: Seq<u8>)
    requires
        a.len() == b.len(),
        le_to_nat(a) == le_to_nat(b),
    ensures
        a == b,
    decreases a.len(),
{
    if a.len() == 0 {
        assert(a =~= b);
    } else {
        let x = le_to_nat(a.drop_first());
        let y = le_to_nat(b.drop_first());
        assert(a[0] + 256 * x == b[0] + 256 * y);
        assert(a[0] == b[0] && x == y) by {
            if x != y {
                assert(256 * x - 256 * y >= 256 || 256 * y - 256 * x >= 256) by (nonlinear_arith)
                    requires
                        x != y,
                ;
            }
        }
        lemma_le_to_nat_injective(a.drop_first(), b.drop_first());
        assert forall|i: int| 0 <= i < a.len() implies a[i] == b[i] by {
            if i > 0 {
                assert(a[i] == a.drop_first()[i - 1]);
                assert(b[i] == b.drop_first()[i - 1]);
            }
        }
        assert(a =~= b);
    }
}

/// The big-endian value of a byte string is the little-endian value of its
/// reversal.
pub proof fn lemma_be_to_nat_is_le_of_reverse(b: Seq<u8>)
    ensures
        be_to_nat(b) == le_to_nat(b.reverse()),
    decreases b.len(),
{
    if b.len() > 0 {
        assert(b.reverse().drop_first() =~= b.drop_last().reverse());
        lemma_be_to_nat_is_le_of_reverse(b.drop_last());
        assert(b.reverse()[0] == b.last());
    }
}

} // verus!
