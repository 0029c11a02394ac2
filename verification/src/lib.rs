//! Ristretto255 group arithmetic with verified scalar reduction and
//! hierarchical-deterministic (HD) child key derivation.

pub mod encoding;
pub mod hd_wallet;
pub mod laws;
pub mod order;
pub mod point;
pub mod reduce;
pub mod scalar;

pub use hd_wallet::{DerivedShift, ExtendedPublicKey, HdWallet, NonHardenedIndex};
pub use point::Point;
pub use scalar::Scalar;

use vstd::prelude::*;

verus! {

/// Marker for the ristretto255 curve.
#[derive(Clone, Copy, Debug, PartialEq, Eq)]
pub struct Ristretto255 {
    _private: (),
}

impl Ristretto255 {
    /// The canonical name of the curve.
    pub fn curve_name() -> (r: &'static str)
        ensures
            r@ == "ristretto255"@,
    {
        "ristretto255"
    }
}

} // verus!
