//! Ordering of scalars and points, defined over their canonical encoded
//! bytes rather than any internal representation, so that values comparing
//! equal under the canonical encoding order consistently.

use vstd::prelude::*;

use crate::point::Point;
use crate::scalar::Scalar;

verus! {

/// Lexicographic comparison of two byte strings of equal length, byte by
/// byte from index 0.
pub open spec fn lex_cmp(a: Seq<u8>, b: Seq<u8>) -> core::cmp::Ordering
    decreases a.len(),
{
    if a.len() == 0 || b.len() == 0 {
        core::cmp::Ordering::Equal
    } else if a[0] < b[0] {
        core::cmp::Ordering::Less
    } else if a[0] > b[0] {
        core::cmp::Ordering::Greater
    } else {
        lex_cmp(a.drop_first(), b.drop_first())
    }
}

/// Compare two 32-byte arrays lexicographically.
fn lex_cmp_32(a: &[u8; 32], b: &[u8; 32]) -> (r: core::cmp::Ordering)
    ensures
        r == lex_cmp(a@, b@),
{
    let mut i: usize = 0;
    proof {
        assert(a@.skip(0) =~= a@);
        assert(b@.skip(0) =~= b@);
    }
    while i < 32
        invariant
            0 <= i <= 32,
            a@.len() == 32,
            b@.len() == 32,
            lex_cmp(a@, b@) == lex_cmp(a@.skip(i as int), b@.skip(i as int)),
            forall|j: int| 0 <= j < i ==> a@[j] == b@[j],
        decreases 32 - i,
    {
        if a[i] < b[i] {
            return core::cmp::Ordering::Less;
        }
        if a[i] > b[i] {
            return core::cmp::Ordering::Greater;
        }
        proof {
            assert(a@.skip(i as int).drop_first() =~= a@.skip(i + 1));
            assert(b@.skip(i as int).drop_first() =~= b@.skip(i + 1));
        }
        i += 1;
    }
    core::cmp::Ordering::Equal
}

impl Scalar {
    /// Total order over the canonical little-endian encoding, compared
    /// lexicographically.
    pub fn cmp(a: &Scalar, b: &Scalar) -> (r: core::cmp::Ordering)
        ensures
            r == lex_cmp(a.enc(), b.enc()),
    {
        let ab = a.to_le_bytes();
        let bb = b.to_le_bytes();
        lex_cmp_32(&ab, &bb)
    }

    /// The partial order agreeing with the total order on encodings.
    pub fn partial_cmp(a: &Scalar, b: &Scalar) -> (r: Option<core::cmp::Ordering>)
        ensures
            r == Some(lex_cmp(a.enc(), b.enc())),
    {
        Some(Scalar::cmp(a, b))
    }
}

impl Point {
    /// Total order over the canonical compressed encoding, compared
    /// lexicographically.
    pub fn cmp(a: &Point, b: &Point) -> (r: core::cmp::Ordering)
        ensures
            r == lex_cmp(a.enc(), b.enc()),
    {
        let ab = a.to_bytes_compressed();
        let bb = b.to_bytes_compressed();
        lex_cmp_32(&ab, &bb)
    }

    /// The partial order agreeing with the total order on encodings.
    pub fn partial_cmp(a: &Point, b: &Point) -> (r: Option<core::cmp::Ordering>)
        ensures
            r == Some(lex_cmp(a.enc(), b.enc())),
    {
        Some(Point::cmp(a, b))
    }
}

} // verus!
