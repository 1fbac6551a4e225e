//! The astronomical reference frames a camera can be expressed in.
use vstd::prelude::*;

verus! {

/// A named celestial reference frame.
#[derive(PartialEq, Eq, Structural, Clone, Copy, Debug)]
pub enum CooSystem {
    /// Equatorial, ICRS at epoch J2000.
    ICRS,
    /// Galactic.
    GAL,
}

} // verus!
