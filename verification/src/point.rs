//! Points of the ristretto255 group, wrapped around `curve25519_dalek`'s
//! prime-order Ristretto group. A point is observable only through its
//! canonical 32-byte compressed encoding, and every contract speaks of that
//! encoding.

use vstd::prelude::*;

use curve25519_dalek::RistrettoPoint;

use crate::scalar::Scalar;

verus! {

#[verifier::external_type_specification]
#[verifier::external_body]
pub struct ExRistrettoPoint(RistrettoPoint);

/// The canonical compressed encoding a point returns from
/// `RistrettoPoint::compress`; a function of the point alone, 32 bytes long.
pub uninterp spec fn point_bytes(p: RistrettoPoint) -> Seq<u8>;

/// Whether a byte string is the canonical compressed encoding of some
/// ristretto255 point: exactly the strings `CompressedRistretto::decompress`
/// accepts.
pub uninterp spec fn is_point_encoding(b: Seq<u8>) -> bool;

/// The encoding of the sum of the two points with the given encodings.
pub uninterp spec fn point_sum(a: Seq<u8>, b: Seq<u8>) -> Seq<u8>;

/// The encoding of the difference of the two points with the given encodings.
pub uninterp spec fn point_diff(a: Seq<u8>, b: Seq<u8>) -> Seq<u8>;

/// The encoding of the negation of the point with the given encoding.
pub uninterp spec fn point_negation(a: Seq<u8>) -> Seq<u8>;

/// The encoding of the point with encoding `p` multiplied by the scalar of
/// value `s`.
pub uninterp spec fn point_scalar_mul(s: nat, p: Seq<u8>) -> Seq<u8>;

/// The encoding of the group generator multiplied by the scalar of value `s`.
pub uninterp spec fn point_base_mul(s: nat) -> Seq<u8>;

/// The canonical encoding of the group identity: 32 zero bytes.
pub open spec fn identity_bytes() -> Seq<u8> {
    Seq::new(32, |i: int| 0u8)
}

/// The canonical encoding of the ristretto255 generator, as
/// `curve25519_dalek` publishes it.
pub open spec fn generator_bytes() -> Seq<u8> {
    seq![
        0xe2u8, 0xf2u8, 0xaeu8, 0x0au8, 0x6au8, 0xbcu8, 0x4eu8, 0x71u8, 0xa8u8, 0x84u8, 0xa9u8,
        0x61u8, 0xc5u8, 0x00u8, 0x51u8, 0x5fu8, 0x58u8, 0xe3u8, 0x0bu8, 0x6au8, 0xa5u8, 0x82u8,
        0xddu8, 0x8du8, 0xb6u8, 0xa6u8, 0x59u8, 0x45u8, 0xe0u8, 0x8du8, 0x2du8, 0x76u8,
    ]
}

/// A ristretto255 point: an element of the prime-order group, valid and
/// torsion-free by construction.
#[derive(Clone, Copy, PartialEq, Eq)]
pub struct Point {
    p: RistrettoPoint,
}

impl Point {
    /// The canonical 32-byte compressed encoding of this point.
    pub closed spec fn enc(self) -> Seq<u8> {
        point_bytes(self.p)
    }

    /// Every point carries a 32-byte canonical encoding, itself a valid
    /// point encoding.
    #[verifier::type_invariant]
    pub open spec fn wf(self) -> bool {
        self.enc().len() == 32 && is_point_encoding(self.enc())
    }
}

/// Relies on `curve25519_dalek`'s `Add` for `RistrettoPoint`: the group
/// operation; the Ristretto encoding is canonical, so the sum's encoding is a
/// function of the operands' encodings.
#[verifier::external_body]
fn dalek_pt_add(a: &Point, b: &Point) -> (r: Point)
    ensures
        r.wf(),
        r.enc() == point_sum(a.enc(), b.enc()),
{
    Point { p: a.p + b.p }
}

/// Relies on `curve25519_dalek`'s `Sub` for `RistrettoPoint`: the group
/// operation with the second operand negated.
#[verifier::external_body]
fn dalek_pt_sub(a: &Point, b: &Point) -> (r: Point)
    ensures
        r.wf(),
        r.enc() == point_diff(a.enc(), b.enc()),
{
    Point { p: a.p - b.p }
}

/// Relies on `curve25519_dalek`'s `Neg` for `RistrettoPoint`: the group
/// inverse.
#[verifier::external_body]
fn dalek_pt_neg(x: &Point) -> (r: Point)
    ensures
        r.wf(),
        r.enc() == point_negation(x.enc()),
{
    Point { p: -x.p }
}

/// Relies on `curve25519_dalek`'s `Identity` for `RistrettoPoint` and on the
/// identity compressing to 32 zero bytes.
#[verifier::external_body]
fn dalek_pt_identity() -> (r: Point)
    ensures
        r.wf(),
        r.enc() == identity_bytes(),
{
    Point { p: <RistrettoPoint as curve25519_dalek::traits::Identity>::identity() }
}

/// Relies on `curve25519_dalek::constants::RISTRETTO_BASEPOINT_POINT` and its
/// published compressed encoding `RISTRETTO_BASEPOINT_COMPRESSED`.
#[verifier::external_body]
fn dalek_pt_generator() -> (r: Point)
    ensures
        r.wf(),
        r.enc() == generator_bytes(),
{
    Point { p: curve25519_dalek::constants::RISTRETTO_BASEPOINT_POINT }
}

/// Relies on `curve25519_dalek`'s `Mul<&RistrettoPoint>` for `&Scalar`:
/// scalar multiplication in the group.
#[verifier::external_body]
fn dalek_pt_mul(s: &Scalar, p: &Point) -> (r: Point)
    ensures
        r.wf(),
        r.enc() == point_scalar_mul(s.value(), p.enc()),
{
    Point { p: s.raw() * &p.p }
}

/// Relies on `curve25519_dalek::constants::RISTRETTO_BASEPOINT_TABLE`'s
/// `Mul<&Scalar>`: fixed-base scalar multiplication of the generator.
#[verifier::external_body]
fn dalek_pt_mul_base(s: &Scalar) -> (r: Point)
    ensures
        r.wf(),
        r.enc() == point_base_mul(s.value()),
{
    Point { p: curve25519_dalek::constants::RISTRETTO_BASEPOINT_TABLE * s.raw() }
}

/// Relies on `RistrettoPoint::compress`: returns the canonical compressed
/// encoding.
#[verifier::external_body]
fn dalek_pt_compress(x: &Point) -> (r: [u8; 32])
    ensures
        r@ == point_bytes(x.p),
{
    x.p.compress().to_bytes()
}

/// Relies on `CompressedRistretto::from_slice` and
/// `CompressedRistretto::decompress`: decoding succeeds exactly on canonical
/// 32-byte encodings of points, and the decoded point compresses back to the
/// input bytes.
#[verifier::external_body]
fn dalek_pt_decode(bytes: &[u8]) -> (r: Option<Point>)
    ensures
        r is Some <==> is_point_encoding(bytes@),
        r is Some ==> r.unwrap().wf() && r.unwrap().enc() == bytes@,
        bytes@.len() != 32 ==> r is None,
{
    let compressed = match curve25519_dalek::ristretto::CompressedRistretto::from_slice(bytes) {
        Ok(c) => c,
        Err(_) => return None,
    };
    compressed.decompress().map(|p| Point { p })
}

/// Relies on `subtle::ConstantTimeEq` for `RistrettoPoint`: group equality,
/// which holds exactly when the canonical encodings are equal, the Ristretto
/// encoding being canonical.
#[verifier::external_body]
fn dalek_pt_ct_eq(a: &Point, b: &Point) -> (r: bool)
    ensures
        r == (a.enc() == b.enc()),
{
    subtle::ConstantTimeEq::ct_eq(&a.p, &b.p).into()
}

/// Relies on `subtle::ConditionallySelectable` for `RistrettoPoint`: returns
/// the second point when the choice is set and the first otherwise, in
/// constant time.
#[verifier::external_body]
fn dalek_pt_select(a: &Point, b: &Point, choice: bool) -> (r: Point)
    ensures
        r == (if choice {
            *b
        } else {
            *a
        }),
{
    Point {
        p: subtle::ConditionallySelectable::conditional_select(
            &a.p,
            &b.p,
            subtle::Choice::from(choice as u8),
        ),
    }
}

/// Relies on `group::cofactor::CofactorGroup::is_torsion_free` for
/// `RistrettoPoint`, which always holds: the Ristretto group is prime-order.
#[verifier::external_body]
fn dalek_pt_torsion_free(x: &Point) -> (r: bool)
    ensures
        r == true,
{
    group::cofactor::CofactorGroup::is_torsion_free(&x.p).into()
}

impl Point {
    /// The group identity, which encodes as 32 zero bytes.
    pub fn zero() -> (r: Point)
        ensures
            r.enc() == identity_bytes(),
    {
        dalek_pt_identity()
    }

    /// The group generator, with its published canonical encoding.
    pub fn generator() -> (r: Point)
        ensures
            r.enc() == generator_bytes(),
    {
        dalek_pt_generator()
    }

    /// Group addition.
    pub fn add(a: &Point, b: &Point) -> (r: Point)
        ensures
            r.enc() == point_sum(a.enc(), b.enc()),
    {
        dalek_pt_add(a, b)
    }

    /// Group subtraction.
    pub fn sub(a: &Point, b: &Point) -> (r: Point)
        ensures
            r.enc() == point_diff(a.enc(), b.enc()),
    {
        dalek_pt_sub(a, b)
    }

    /// Group negation.
    pub fn negate(x: &Point) -> (r: Point)
        ensures
            r.enc() == point_negation(x.enc()),
    {
        dalek_pt_neg(x)
    }

    /// Constant-time equality, which coincides with equality of the
    /// canonical encodings.
    pub fn ct_eq(a: &Point, b: &Point) -> (r: bool)
        ensures
            r == (a.enc() == b.enc()),
    {
        dalek_pt_ct_eq(a, b)
    }

    /// Constant-time identity test.
    pub fn is_zero(x: &Point) -> (r: bool)
        ensures
            r == (x.enc() == identity_bytes()),
    {
        Point::ct_eq(x, &Point::zero())
    }

    /// Every point of this group lies on the curve.
    pub fn is_on_curve(&self) -> (r: bool)
        ensures
            r == true,
    {
        true
    }

    /// Every point of this prime-order group is torsion-free.
    pub fn is_torsion_free(&self) -> (r: bool)
        ensures
            r == true,
    {
        dalek_pt_torsion_free(self)
    }

    /// Constant-time selection: the second point when the choice is set,
    /// else the first.
    pub fn conditional_select(a: &Point, b: &Point, choice: bool) -> (r: Point)
        ensures
            r.enc() == (if choice {
                b.enc()
            } else {
                a.enc()
            }),
    {
        dalek_pt_select(a, b, choice)
    }

    /// The canonical 32-byte compressed encoding.
    pub fn to_bytes_compressed(&self) -> (r: [u8; 32])
        ensures
            r@ == self.enc(),
    {
        dalek_pt_compress(self)
    }

    /// The Ristretto group exposes no affine coordinates; the uncompressed
    /// encoding is the compressed one.
    pub fn to_bytes_uncompressed(&self) -> (r: [u8; 32])
        ensures
            r@ == self.enc(),
    {
        self.to_bytes_compressed()
    }

    /// Decode a canonical compressed encoding; empty exactly when the bytes
    /// are not the canonical encoding of a point. A decoded point re-encodes
    /// to the very same bytes.
    pub fn decode(bytes: &[u8]) -> (r: Option<Point>)
        ensures
            r is Some <==> is_point_encoding(bytes@),
            r is Some ==> r.unwrap().enc() == bytes@,
            bytes@.len() != 32 ==> r is None,
    {
        dalek_pt_decode(bytes)
    }

    /// Scalar multiplication: this point added to itself scalar-many times.
    pub fn mul_scalar(s: &Scalar, p: &Point) -> (r: Point)
        ensures
            r.enc() == point_scalar_mul(s.value(), p.enc()),
    {
        dalek_pt_mul(s, p)
    }

    /// Fixed-base scalar multiplication of the generator.
    pub fn mul_generator(s: &Scalar) -> (r: Point)
        ensures
            r.enc() == point_base_mul(s.value()),
    {
        dalek_pt_mul_base(s)
    }
}

impl Default for Point {
    /// The default point is the group identity.
    fn default() -> (r: Point)
        ensures
            r.enc() == identity_bytes(),
    {
        Point::zero()
    }
}

} // verus!
