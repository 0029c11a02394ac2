//! Scalars of the ristretto255 group: elements of the prime field of the
//! group's order, held as canonical 32-byte little-endian encodings inside
//! `curve25519_dalek`, with verified contracts over the integer each scalar
//! represents.

use vstd::prelude::*;

use curve25519_dalek::Scalar as DalekScalar;

use crate::encoding::{
    be_to_nat, le_to_nat, lemma_be_to_nat_is_le_of_reverse, lemma_le_to_nat_injective,
};

verus! {

/// The prime order of the ristretto255 group; every scalar is an integer
/// modulo this value.
pub open spec fn group_order() -> nat {
    vstd::arithmetic::power2::pow2(252) + 27742317777372353535851937790883648493nat
}

#[verifier::external_type_specification]
#[verifier::external_body]
pub struct ExDalekScalar(DalekScalar);

/// The canonical little-endian encoding a `curve25519_dalek` scalar returns
/// from `Scalar::to_bytes`; a function of the scalar alone.
pub uninterp spec fn scalar_bytes(s: DalekScalar) -> Seq<u8>;

/// A ristretto255 scalar: an element of the field of integers modulo the
/// group order, always fully reduced.
#[derive(Clone, Copy, PartialEq, Eq)]
pub struct Scalar {
    s: DalekScalar,
}

impl Scalar {
    /// The canonical 32-byte little-endian encoding of this scalar.
    pub closed spec fn enc(self) -> Seq<u8> {
        scalar_bytes(self.s)
    }

    /// The integer this scalar represents.
    pub open spec fn value(self) -> nat {
        le_to_nat(self.enc())
    }

    /// Every scalar holds a canonical 32-byte encoding of an integer below
    /// the group order.
    #[verifier::type_invariant]
    pub open spec fn wf(self) -> bool {
        self.enc().len() == 32 && self.value() < group_order()
    }

    /// The wrapped `curve25519_dalek` scalar.
    pub(crate) fn raw(&self) -> (r: &DalekScalar)
        ensures
            scalar_bytes(*r) == self.enc(),
    {
        &self.s
    }
}

/// Relies on `DalekScalar::from_bytes_mod_order`: reduces a
/// 256-bit little-endian integer modulo the group order, returning a
/// canonical scalar.
#[verifier::external_body]
fn dalek_reduce_32(bytes: &[u8; 32]) -> (r: Scalar)
    ensures
        r.wf(),
        r.value() == le_to_nat(bytes@) % group_order(),
{
    Scalar { s: DalekScalar::from_bytes_mod_order(*bytes) }
}

/// Relies on `DalekScalar::from_bytes_mod_order_wide`: reduces a
/// 512-bit little-endian integer modulo the group order, returning a
/// canonical scalar.
#[verifier::external_body]
fn dalek_reduce_64(bytes: &[u8; 64]) -> (r: Scalar)
    ensures
        r.wf(),
        r.value() == le_to_nat(bytes@) % group_order(),
{
    Scalar { s: DalekScalar::from_bytes_mod_order_wide(bytes) }
}

/// Relies on `DalekScalar::from_canonical_bytes`: succeeds
/// exactly on canonical little-endian encodings, that is on byte arrays whose
/// integer lies below the group order, and returns the scalar holding those
/// very bytes.
#[verifier::external_body]
fn dalek_from_canonical(bytes: &[u8; 32]) -> (r: Option<Scalar>)
    ensures
        r is Some <==> le_to_nat(bytes@) < group_order(),
        r is Some ==> r.unwrap().wf() && scalar_bytes(r.unwrap().s) == bytes@,
{
    match Option::<DalekScalar>::from(DalekScalar::from_canonical_bytes(
        *bytes,
    )) {
        Some(s) => Some(Scalar { s }),
        None => None,
    }
}

/// Relies on `DalekScalar::to_bytes`: returns the canonical
/// little-endian encoding of the scalar.
#[verifier::external_body]
fn dalek_to_bytes(x: &Scalar) -> (r: [u8; 32])
    ensures
        r@ == scalar_bytes(x.s),
{
    x.s.to_bytes()
}

/// Relies on `curve25519_dalek`'s `Add` for `Scalar`: field addition modulo
/// the group order, correct on canonical inputs.
#[verifier::external_body]
fn dalek_add(a: &Scalar, b: &Scalar) -> (r: Scalar)
    requires
        a.wf(),
        b.wf(),
    ensures
        r.wf(),
        r.value() == (a.value() + b.value()) % group_order(),
{
    Scalar { s: a.s + b.s }
}

/// Relies on `curve25519_dalek`'s `Sub` for `Scalar`: field subtraction
/// modulo the group order, correct on canonical inputs.
#[verifier::external_body]
fn dalek_sub(a: &Scalar, b: &Scalar) -> (r: Scalar)
    requires
        a.wf(),
        b.wf(),
    ensures
        r.wf(),
        r.value() == (a.value() + group_order() - b.value()) % (group_order() as int),
{
    Scalar { s: a.s - b.s }
}

/// Relies on `curve25519_dalek`'s `Neg` for `Scalar`: field negation modulo
/// the group order, correct on canonical inputs.
#[verifier::external_body]
fn dalek_neg(x: &Scalar) -> (r: Scalar)
    requires
        x.wf(),
    ensures
        r.wf(),
        r.value() == (group_order() - x.value()) % (group_order() as int),
{
    Scalar { s: -x.s }
}

/// Relies on `curve25519_dalek`'s `Mul` for `Scalar`: field multiplication
/// modulo the group order, correct on canonical inputs.
#[verifier::external_body]
fn dalek_mul(a: &Scalar, b: &Scalar) -> (r: Scalar)
    requires
        a.wf(),
        b.wf(),
    ensures
        r.wf(),
        r.value() == (a.value() * b.value()) % group_order(),
{
    Scalar { s: a.s * b.s }
}

/// Relies on `DalekScalar::invert`, which returns the
/// multiplicative inverse of a nonzero scalar, and on `subtle::CtOption`
/// masking the result with a constant-time zero test, exactly as the zero
/// case demands.
#[verifier::external_body]
fn dalek_invert(x: &Scalar) -> (r: Option<Scalar>)
    requires
        x.wf(),
    ensures
        r is Some <==> x.value() != 0,
        r is Some ==> r.unwrap().wf() && (r.unwrap().value() * x.value()) % group_order() == 1,
{
    let inverted = Scalar { s: x.s.invert() };
    let nonzero = !subtle::ConstantTimeEq::ct_eq(&x.s, &DalekScalar::ZERO);
    subtle::CtOption::new(inverted, nonzero).into()
}

/// Relies on `DalekScalar::ZERO`: the canonical scalar of all
/// zero bytes.
#[verifier::external_body]
fn dalek_zero() -> (r: Scalar)
    ensures
        r.wf(),
        r.value() == 0,
{
    Scalar { s: DalekScalar::ZERO }
}

/// Relies on `DalekScalar::ONE`: the canonical scalar encoding
/// the integer one.
#[verifier::external_body]
fn dalek_one() -> (r: Scalar)
    ensures
        r.wf(),
        r.value() == 1,
{
    Scalar { s: DalekScalar::ONE }
}

/// Relies on `subtle::ConstantTimeEq` for `DalekScalar`, which
/// compares the canonical encodings byte for byte in constant time.
#[verifier::external_body]
fn dalek_ct_eq(a: &Scalar, b: &Scalar) -> (r: bool)
    ensures
        r == (scalar_bytes(a.s) == scalar_bytes(b.s)),
{
    subtle::ConstantTimeEq::ct_eq(&a.s, &b.s).into()
}

/// Relies on `subtle::ConditionallySelectable` for
/// `DalekScalar`: returns the second scalar when the choice is
/// set and the first otherwise, in constant time.
#[verifier::external_body]
fn dalek_select(a: &Scalar, b: &Scalar, choice: bool) -> (r: Scalar)
    ensures
        r == (if choice {
            *b
        } else {
            *a
        }),
{
    Scalar {
        s: subtle::ConditionallySelectable::conditional_select(
            &a.s,
            &b.s,
            subtle::Choice::from(choice as u8),
        ),
    }
}

impl Scalar {
    /// The scalar zero, the additive identity.
    pub fn zero() -> (r: Scalar)
        ensures
            r.value() == 0,
    {
        dalek_zero()
    }

    /// The scalar one, the multiplicative identity.
    pub fn one() -> (r: Scalar)
        ensures
            r.value() == 1,
    {
        dalek_one()
    }

    /// Field addition modulo the group order.
    pub fn add(a: &Scalar, b: &Scalar) -> (r: Scalar)
        ensures
            r.value() == (a.value() + b.value()) % group_order(),
    {
        proof {
            use_type_invariant(a);
            use_type_invariant(b);
        }
        dalek_add(a, b)
    }

    /// Field subtraction modulo the group order.
    pub fn sub(a: &Scalar, b: &Scalar) -> (r: Scalar)
        ensures
            r.value() == (a.value() + group_order() - b.value()) % (group_order() as int),
    {
        proof {
            use_type_invariant(a);
            use_type_invariant(b);
        }
        dalek_sub(a, b)
    }

    /// Field negation modulo the group order.
    pub fn negate(x: &Scalar) -> (r: Scalar)
        ensures
            r.value() == (group_order() - x.value()) % (group_order() as int),
    {
        proof {
            use_type_invariant(x);
        }
        dalek_neg(x)
    }

    /// Field multiplication modulo the group order.
    pub fn mul(a: &Scalar, b: &Scalar) -> (r: Scalar)
        ensures
            r.value() == (a.value() * b.value()) % group_order(),
    {
        proof {
            use_type_invariant(a);
            use_type_invariant(b);
        }
        dalek_mul(a, b)
    }

    /// The multiplicative inverse: empty exactly when the scalar is zero,
    /// otherwise the unique scalar whose product with the input is one.
    pub fn invert(x: &Scalar) -> (r: Option<Scalar>)
        ensures
            r is Some <==> x.value() != 0,
            r is Some ==> (r.unwrap().value() * x.value()) % group_order() == 1,
    {
        proof {
            use_type_invariant(x);
        }
        dalek_invert(x)
    }

    /// Constant-time equality of scalars, which coincides with equality of
    /// the integers they represent.
    pub fn ct_eq(a: &Scalar, b: &Scalar) -> (r: bool)
        ensures
            r == (a.value() == b.value()),
    {
        proof {
            use_type_invariant(a);
            use_type_invariant(b);
        }
        let r = dalek_ct_eq(a, b);
        proof {
            if a.value() == b.value() {
                lemma_le_to_nat_injective(scalar_bytes(a.s), scalar_bytes(b.s));
            }
        }
        r
    }

    /// Constant-time test against zero.
    pub fn is_zero(x: &Scalar) -> (r: bool)
        ensures
            r == (x.value() == 0),
    {
        Scalar::ct_eq(x, &Scalar::zero())
    }

    /// Constant-time test against one.
    pub fn is_one(x: &Scalar) -> (r: bool)
        ensures
            r == (x.value() == 1),
    {
        Scalar::ct_eq(x, &Scalar::one())
    }

    /// Constant-time selection: the second scalar when the choice is set,
    /// else the first.
    pub fn conditional_select(a: &Scalar, b: &Scalar, choice: bool) -> (r: Scalar)
        ensures
            r.enc() == (if choice {
                b.enc()
            } else {
                a.enc()
            }),
            r.value() == (if choice {
                b.value()
            } else {
                a.value()
            }),
    {
        dalek_select(a, b, choice)
    }

    /// The canonical 32-byte little-endian encoding of this scalar.
    pub fn to_le_bytes(&self) -> (r: [u8; 32])
        ensures
            r@ == self.enc(),
            le_to_nat(r@) == self.value(),
    {
        dalek_to_bytes(self)
    }

    /// The canonical 32-byte big-endian encoding: the little-endian encoding
    /// reversed.
    pub fn to_be_bytes(&self) -> (r: [u8; 32])
        ensures
            r@ == self.enc().reverse(),
            be_to_nat(r@) == self.value(),
    {
        proof {
            use_type_invariant(self);
        }
        let le = dalek_to_bytes(self);
        let mut out = [0u8; 32];
        let mut i: usize = 0;
        while i < 32
            invariant
                0 <= i <= 32,
                le@ == scalar_bytes(self.s),
                le@.len() == 32,
                out@.len() == 32,
                forall|j: int| 0 <= j < i ==> out@[j] == le@[31 - j],
            decreases 32 - i,
        {
            out[i] = le[31 - i];
            i += 1;
        }
        proof {
            assert(out@ =~= scalar_bytes(self.s).reverse());
            lemma_be_to_nat_is_le_of_reverse(out@);
            assert(out@.reverse() =~= scalar_bytes(self.s));
        }
        out
    }

    /// Decode a canonical 32-byte little-endian encoding; empty exactly when
    /// the bytes encode an integer at or above the group order.
    pub fn from_le_bytes_exact(bytes: &[u8; 32]) -> (r: Option<Scalar>)
        ensures
            r is Some <==> le_to_nat(bytes@) < group_order(),
            r is Some ==> r.unwrap().value() == le_to_nat(bytes@) && r.unwrap().enc() == bytes@,
    {
        dalek_from_canonical(bytes)
    }

    /// Decode a canonical 32-byte big-endian encoding; empty exactly when the
    /// bytes encode an integer at or above the group order.
    pub fn from_be_bytes_exact(bytes: &[u8; 32]) -> (r: Option<Scalar>)
        ensures
            r is Some <==> be_to_nat(bytes@) < group_order(),
            r is Some ==> r.unwrap().value() == be_to_nat(bytes@) && r.unwrap().enc()
                == bytes@.reverse(),
    {
        let mut rev = [0u8; 32];
        let mut i: usize = 0;
        while i < 32
            invariant
                0 <= i <= 32,
                rev@.len() == 32,
                forall|j: int| 0 <= j < i ==> rev@[j] == bytes@[31 - j],
            decreases 32 - i,
        {
            rev[i] = bytes[31 - i];
            i += 1;
        }
        proof {
            assert(rev@ =~= bytes@.reverse());
            lemma_be_to_nat_is_le_of_reverse(bytes@);
        }
        Scalar::from_le_bytes_exact(&rev)
    }

    /// Reduce a 32-byte little-endian integer modulo the group order.
    pub fn from_le_array_mod_order(bytes: &[u8; 32]) -> (r: Scalar)
        ensures
            r.value() == le_to_nat(bytes@) % group_order(),
    {
        dalek_reduce_32(bytes)
    }

    /// Reduce a 32-byte big-endian integer modulo the group order.
    pub fn from_be_array_mod_order(bytes: &[u8; 32]) -> (r: Scalar)
        ensures
            r.value() == be_to_nat(bytes@) % group_order(),
    {
        let mut rev = [0u8; 32];
        let mut i: usize = 0;
        while i < 32
            invariant
                0 <= i <= 32,
                rev@.len() == 32,
                forall|j: int| 0 <= j < i ==> rev@[j] == bytes@[31 - j],
            decreases 32 - i,
        {
            rev[i] = bytes[31 - i];
            i += 1;
        }
        proof {
            assert(rev@ =~= bytes@.reverse());
            lemma_be_to_nat_is_le_of_reverse(bytes@);
        }
        dalek_reduce_32(&rev)
    }

    /// Reduce a 64-byte little-endian integer modulo the group order.
    pub fn from_le_array_mod_order_wide(bytes: &[u8; 64]) -> (r: Scalar)
        ensures
            r.value() == le_to_nat(bytes@) % group_order(),
    {
        dalek_reduce_64(bytes)
    }

    /// Reduce a 64-byte big-endian integer modulo the group order.
    pub fn from_be_array_mod_order_wide(bytes: &[u8; 64]) -> (r: Scalar)
        ensures
            r.value() == be_to_nat(bytes@) % group_order(),
    {
        let mut rev = [0u8; 64];
        let mut i: usize = 0;
        while i < 64
            invariant
                0 <= i <= 64,
                rev@.len() == 64,
                forall|j: int| 0 <= j < i ==> rev@[j] == bytes@[63 - j],
            decreases 64 - i,
        {
            rev[i] = bytes[63 - i];
            i += 1;
        }
        proof {
            assert(rev@ =~= bytes@.reverse());
            lemma_be_to_nat_is_le_of_reverse(bytes@);
        }
        dalek_reduce_64(&rev)
    }
}

impl Default for Scalar {
    /// The default scalar is zero.
    fn default() -> (r: Scalar)
        ensures
            r.value() == 0,
    {
        Scalar::zero()
    }
}

} // verus!
