use vstd::prelude::*;
use std::ops::Deref;

verus! {

/// A value that can be read and never changed.
pub struct Final<T> {
    value: T,
}

impl<T> Final<T> {
    /// The value that is kept.
    pub closed spec fn value(&self) -> T {
        self.value
    }

    /// Keeps `value`.
    pub fn new(value: T) -> (kept: Self)
        ensures
            kept.value() == value,
    {
        Final { value }
    }
}

impl<T> Deref for Final<T> {
    type Target = T;

    fn deref(&self) -> (value: &T)
        ensures
            *value == self.value(),
    {
        &self.value
    }
}

} // verus!
