use vstd::prelude::*;

verus! {

/// The dialects of Funge that a program can be written in.
#[derive(Copy, Clone, PartialEq, Eq, Structural, Debug)]
pub enum FungeDialect {
    Befunge93,
    Befunge98,
    Unefunge98,
    Trefunge98,
}

impl FungeDialect {
    /// The number of dimensions of the grid that the dialect runs on.
    pub open spec fn dimensions(self) -> nat {
        match self {
            FungeDialect::Unefunge98 => 1,
            FungeDialect::Befunge93 => 2,
            FungeDialect::Befunge98 => 2,
            FungeDialect::Trefunge98 => 3,
        }
    }

    /// The number of dimensions of the grid that the dialect runs on.
    pub fn dimensionality(self) -> (d: u32)
        ensures
            d == self.dimensions(),
    {
        match self {
            FungeDialect::Unefunge98 => 1,
            FungeDialect::Befunge93 => 2,
            FungeDialect::Befunge98 => 2,
            FungeDialect::Trefunge98 => 3,
        }
    }
}

} // verus!
