use vstd::prelude::*;

verus! {

/// A number of dimensions, known at compile time.
///
/// A funge address always carries three components. The dimensions beyond
/// those of the dialect stay out of all addressing.
pub trait FungeDimension {
    /// The number of dimensions.
    spec fn dimensions() -> nat;

    /// There are one, two or three dimensions.
    proof fn lemma_dimensions()
        ensures
            1 <= Self::dimensions() <= 3,
    ;

    /// The number of dimensions: one, two or three.
    fn dimensionality() -> (d: u32)
        ensures
            d == Self::dimensions(),
            1 <= d <= 3,
    ;
}

/// One dimensional
pub struct FungeDim1;

impl FungeDimension for FungeDim1 {
    open spec fn dimensions() -> nat {
        1
    }

    proof fn lemma_dimensions() {
    }

    #[inline(always)]
    fn dimensionality() -> (d: u32) {
        1
    }
}

/// Two dimensional
pub struct FungeDim2;

impl FungeDimension for FungeDim2 {
    open spec fn dimensions() -> nat {
        2
    }

    proof fn lemma_dimensions() {
    }

    #[inline(always)]
    fn dimensionality() -> (d: u32) {
        2
    }
}

/// Three dimensional
pub struct FungeDim3;

impl FungeDimension for FungeDim3 {
    open spec fn dimensions() -> nat {
        3
    }

    proof fn lemma_dimensions() {
    }

    #[inline(always)]
    fn dimensionality() -> (d: u32) {
        3
    }
}

} // verus!
