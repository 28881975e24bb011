use vstd::prelude::*;
use crate::interpreter::funge_value::{wrap_cell, wrapping_add_cells};
use crate::vector::Vector3;

verus! {

/// The address of a cell in funge space.
pub type FungeAddress = Vector3<i32>;

/// The address of a page of funge space: the cell address divided, component
/// by component, by the width of a page.
pub type FungePageAddress = Vector3<i32>;

/// The sum of two triples of cells, each component overflowing silently.
pub open spec fn wrapping_sum(a: (i32, i32, i32), b: (i32, i32, i32)) -> (i32, i32, i32) {
    (wrap_cell(a.0 + b.0), wrap_cell(a.1 + b.1), wrap_cell(a.2 + b.2))
}

impl FungeAddress {
    /// Adds `other` to this address, component by component. A component that
    /// leaves the range of a cell comes back in at the other end.
    pub fn add_wrapping(&mut self, other: &FungeAddress)
        ensures
            final(self)@ == wrapping_sum(old(self)@, other@),
    {
        self.elements[0] = wrapping_add_cells(self.x(), other.x());
        self.elements[1] = wrapping_add_cells(self.y(), other.y());
        self.elements[2] = wrapping_add_cells(self.z(), other.z());
    }
}

} // verus!
