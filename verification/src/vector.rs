use vstd::prelude::*;

verus! {

/// Three components of one type, stored in the order x, y, z.
#[derive(Copy, Clone, Eq, PartialEq)]
pub struct Vector3<T: Copy + Default> {
    pub elements: [T; 3],
}

impl<T: Copy + Default> View for Vector3<T> {
    type V = (T, T, T);

    /// The components as a triple `(x, y, z)`.
    open spec fn view(&self) -> (T, T, T) {
        (self.elements[0], self.elements[1], self.elements[2])
    }
}

impl<T: Copy + Default> Vector3<T> {
    /// The first component.
    pub open spec fn spec_x(&self) -> T {
        self.elements[0]
    }

    /// The second component.
    pub open spec fn spec_y(&self) -> T {
        self.elements[1]
    }

    /// The third component.
    pub open spec fn spec_z(&self) -> T {
        self.elements[2]
    }

    /// The vector whose three components are the default value of `T`.
    pub fn new() -> (v: Self)
        ensures
            call_ensures(T::default, (), v.x()),
            v.y() == v.x(),
            v.z() == v.x(),
    {
        let zero = T::default();
        Vector3 { elements: [zero, zero, zero] }
    }

    /// The vector whose three components all equal `value`.
    pub fn new_value(value: T) -> (v: Self)
        ensures
            v@ == (value, value, value),
    {
        Vector3 { elements: [value, value, value] }
    }

    /// The vector with the components `x`, `y` and `z`.
    pub fn new_xyz(x: T, y: T, z: T) -> (v: Self)
        ensures
            v@ == (x, y, z),
    {
        Vector3 { elements: [x, y, z] }
    }

    /// The first component.
    #[inline(always)]
    #[verifier::when_used_as_spec(spec_x)]
    pub fn x(&self) -> (r: T)
        ensures
            r == self.spec_x(),
    {
        self.elements[0]
    }

    /// The second component.
    #[inline(always)]
    #[verifier::when_used_as_spec(spec_y)]
    pub fn y(&self) -> (r: T)
        ensures
            r == self.spec_y(),
    {
        self.elements[1]
    }

    /// The third component.
    #[inline(always)]
    #[verifier::when_used_as_spec(spec_z)]
    pub fn z(&self) -> (r: T)
        ensures
            r == self.spec_z(),
    {
        self.elements[2]
    }

    /// Replaces all three components and hands the vector back for chaining.
    #[inline(always)]
    pub fn set_xyz(&mut self, x: T, y: T, z: T) -> (r: &mut Self)
        ensures
            r@ == (x, y, z),
            *final(self) == *final(r),
    {
        self.elements = [x, y, z];
        self
    }

    /// Replaces the x component and hands the vector back for chaining.
    #[inline(always)]
    pub fn set_x(&mut self, x: T) -> (r: &mut Self)
        ensures
            r@ == (x, old(self).y(), old(self).z()),
            *final(self) == *final(r),
    {
        self.elements[0] = x;
        self
    }

    /// Replaces the y component and hands the vector back for chaining.
    #[inline(always)]
    pub fn set_y(&mut self, y: T) -> (r: &mut Self)
        ensures
            r@ == (old(self).x(), y, old(self).z()),
            *final(self) == *final(r),
    {
        self.elements[1] = y;
        self
    }

    /// Replaces the z component and hands the vector back for chaining.
    #[inline(always)]
    pub fn set_z(&mut self, z: T) -> (r: &mut Self)
        ensures
            r@ == (old(self).x(), old(self).y(), z),
            *final(self) == *final(r),
    {
        self.elements[2] = z;
        self
    }
}

} // verus!
