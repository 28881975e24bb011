use vstd::prelude::*;
use crate::interpreter::funge_address::{FungeAddress, FungePageAddress};
use crate::interpreter::funge_dimension::{FungeDim2, FungeDim3, FungeDimension};
use crate::interpreter::funge_value::FungeValue;
use std::marker::PhantomData;

verus! {

/// The address that stands for `a` in a space of `dims` dimensions: the
/// components beyond the dimensions are zero, so that they take no part in
/// addressing.
pub open spec fn canonical(dims: nat, a: (i32, i32, i32)) -> (i32, i32, i32) {
    (
        a.0,
        if dims >= 2 {
            a.1
        } else {
            0
        },
        if dims >= 3 {
            a.2
        } else {
            0
        },
    )
}

/// The address of the page that holds the cell at `a`: each component within
/// the dimensions is divided by the page width and rounded down, so that
/// negative coordinates follow on from the others without a gap.
pub open spec fn page_coords(dims: nat, width: int, a: (i32, i32, i32)) -> (i32, i32, i32) {
    (
        (a.0 as int / width) as i32,
        if dims >= 2 {
            (a.1 as int / width) as i32
        } else {
            0
        },
        if dims >= 3 {
            (a.2 as int / width) as i32
        } else {
            0
        },
    )
}

/// The place of the cell at `a` within its page: each component within the
/// dimensions is taken modulo the page width, which gives a number from zero
/// up to the width, whatever the sign of the component.
pub open spec fn local_coords(dims: nat, width: int, a: (i32, i32, i32)) -> (i32, i32, i32) {
    (
        (a.0 as int % width) as i32,
        if dims >= 2 {
            (a.1 as int % width) as i32
        } else {
            0
        },
        if dims >= 3 {
            (a.2 as int % width) as i32
        } else {
            0
        },
    )
}

/// Whether `local` is a place within a page: each component within the
/// dimensions is at least zero and less than the page width.
pub open spec fn is_local(dims: nat, width: int, local: (i32, i32, i32)) -> bool {
    &&& 0 <= local.0 < width
    &&& dims >= 2 ==> 0 <= local.1 < width
    &&& dims >= 3 ==> 0 <= local.2 < width
}

/// Where the cell at the place `local` stands in the flat storage of its
/// page.
pub open spec fn linear_index(dims: nat, width: int, local: (i32, i32, i32)) -> int {
    local.0 + (if dims >= 2 {
        local.1 * width
    } else {
        0
    }) + (if dims >= 3 {
        local.2 * width * width
    } else {
        0
    })
}

/// The number of cells in a page.
pub open spec fn page_capacity(dims: nat, width: int) -> int {
    if dims >= 3 {
        width * width * width
    } else if dims == 2 {
        width * width
    } else {
        width
    }
}

/// The place of a cell within its page lies within the page, and stands at an
/// index of the page's storage.
pub proof fn lemma_local_in_page(dims: nat, width: int, a: (i32, i32, i32))
    requires
        0 < width <= i32::MAX,
    ensures
        is_local(dims, width, local_coords(dims, width, a)),
        0 <= linear_index(dims, width, local_coords(dims, width, a)) < page_capacity(dims, width),
{
    let l = local_coords(dims, width, a);
    vstd::arithmetic::div_mod::lemma_mod_bound(a.0 as int, width);
    vstd::arithmetic::div_mod::lemma_mod_bound(a.1 as int, width);
    vstd::arithmetic::div_mod::lemma_mod_bound(a.2 as int, width);
    lemma_linear_index_in_page(dims, width, l);
}

/// A place within a page stands at an index of the page's storage.
pub proof fn lemma_linear_index_in_page(dims: nat, width: int, l: (i32, i32, i32))
    requires
        0 < width,
        is_local(dims, width, l),
    ensures
        0 <= linear_index(dims, width, l) < page_capacity(dims, width),
{
    if dims >= 2 {
        assert(0 <= l.1 * width <= (width - 1) * width) by (nonlinear_arith)
            requires
                0 <= l.1 < width,
        ;
    }
    if dims >= 3 {
        assert(0 <= l.2 * width * width <= (width - 1) * width * width) by (nonlinear_arith)
            requires
                0 <= l.2 < width,
                0 < width,
        ;
        assert((width - 1) * width * width + (width - 1) * width + width == width * width * width)
            by (nonlinear_arith);
    } else if dims == 2 {
        assert((width - 1) * width + width == width * width) by (nonlinear_arith);
    }
}

/// Two places within a page that stand at the same index are the same place,
/// as far as the dimensions go.
pub proof fn lemma_linear_index_injective(
    dims: nat,
    width: int,
    l: (i32, i32, i32),
    m: (i32, i32, i32),
)
    requires
        0 < width,
        is_local(dims, width, l),
        is_local(dims, width, m),
        linear_index(dims, width, l) == linear_index(dims, width, m),
    ensures
        canonical(dims, l) == canonical(dims, m),
{
    if dims >= 3 {
        let lo_l = l.0 + l.1 * width;
        let lo_m = m.0 + m.1 * width;
        lemma_linear_index_in_page(2, width, l);
        lemma_linear_index_in_page(2, width, m);
        assert(l.2 * width * width == l.2 * (width * width)) by (nonlinear_arith);
        assert(m.2 * width * width == m.2 * (width * width)) by (nonlinear_arith);
        lemma_digits_equal(width * width, lo_l, l.2 as int, lo_m, m.2 as int);
        lemma_digits_equal(width, l.0 as int, l.1 as int, m.0 as int, m.1 as int);
    } else if dims == 2 {
        lemma_digits_equal(width, l.0 as int, l.1 as int, m.0 as int, m.1 as int);
    }
}

/// A number written as `low + high * base` with `low` below `base` has only
/// one such writing.
proof fn lemma_digits_equal(base: int, low1: int, high1: int, low2: int, high2: int)
    requires
        0 < base,
        0 <= low1 < base,
        0 <= low2 < base,
        low1 + high1 * base == low2 + high2 * base,
    ensures
        low1 == low2,
        high1 == high2,
{
    assert(high1 == high2) by (nonlinear_arith)
        requires
            0 < base,
            0 <= low1 < base,
            0 <= low2 < base,
            low1 + high1 * base == low2 + high2 * base,
    ;
    assert(high1 * base == high2 * base);
}

/// Two addresses whose cells lie in the same page at the same place are the
/// same address, as far as the dimensions go.
pub proof fn lemma_cell_place_injective(
    dims: nat,
    width: int,
    a: (i32, i32, i32),
    b: (i32, i32, i32),
)
    requires
        0 < width <= i32::MAX,
        page_coords(dims, width, a) == page_coords(dims, width, b),
        linear_index(dims, width, local_coords(dims, width, a)) == linear_index(
            dims,
            width,
            local_coords(dims, width, b),
        ),
    ensures
        canonical(dims, a) == canonical(dims, b),
{
    lemma_local_in_page(dims, width, a);
    lemma_local_in_page(dims, width, b);
    lemma_linear_index_injective(
        dims,
        width,
        local_coords(dims, width, a),
        local_coords(dims, width, b),
    );
    lemma_component_split(width, a.0, b.0);
    lemma_component_split(width, a.1, b.1);
    lemma_component_split(width, a.2, b.2);
}

/// A coordinate is told by its page and its place in the page.
proof fn lemma_component_split(width: int, x: i32, y: i32)
    requires
        0 < width <= i32::MAX,
    ensures
        (x as int / width) as i32 == (y as int / width) as i32 && (x as int % width) as i32 == (
        y as int % width) as i32 ==> x == y,
        i32::MIN <= x as int / width <= i32::MAX,
        0 <= x as int % width < width,
{
    vstd::arithmetic::div_mod::lemma_fundamental_div_mod(x as int, width);
    vstd::arithmetic::div_mod::lemma_fundamental_div_mod(y as int, width);
    vstd::arithmetic::div_mod::lemma_mod_bound(x as int, width);
    vstd::arithmetic::div_mod::lemma_mod_bound(y as int, width);
    lemma_floor_div_bounds(width, x as int);
    lemma_floor_div_bounds(width, y as int);
}

/// The rounded-down quotient of a cell by a positive width is a cell.
pub proof fn lemma_floor_div_bounds(width: int, x: int)
    requires
        0 < width,
        i32::MIN <= x <= i32::MAX,
    ensures
        i32::MIN <= x / width <= i32::MAX,
{
    vstd::arithmetic::div_mod::lemma_fundamental_div_mod(x, width);
    vstd::arithmetic::div_mod::lemma_mod_bound(x, width);
    let q = x / width;
    assert(i32::MIN <= q <= i32::MAX) by (nonlinear_arith)
        requires
            0 < width,
            i32::MIN <= x <= i32::MAX,
            x == width * q + x % width,
            0 <= x % width < width,
    ;
}

/// The remainder of `x` by a positive `width`, at least zero whatever the
/// sign of `x`.
pub fn floor_mod(x: i32, width: i32) -> (r: i32)
    requires
        width > 0,
    ensures
        r == x as int % width as int,
        0 <= r < width,
{
    proof {
        vstd::arithmetic::div_mod::lemma_mod_bound(x as int, width as int);
    }
    x.checked_rem_euclid(width).unwrap()
}

/// The quotient of `x` by a positive `width`, rounded down.
pub fn floor_div(x: i32, width: i32) -> (q: i32)
    requires
        width > 0,
    ensures
        q == x as int / width as int,
{
    proof {
        lemma_floor_div_bounds(width as int, x as int);
    }
    x.checked_div_euclid(width).unwrap()
}

/// How funge space of `N` dimensions is cut into pages, and where a cell
/// stands in its page.
pub trait FungeSpaceAccessor<N, V> where N: FungeDimension, V: FungeValue {
    /// The number of cells along each edge of a page.
    spec fn page_width() -> int;

    /// A page has a width, and no more cells than the capacity can count.
    proof fn lemma_page_width()
        ensures
            0 < Self::page_width() <= i32::MAX,
            page_capacity(N::dimensions(), Self::page_width()) <= u32::MAX,
    ;

    fn get_page_width() -> (width: u32)
        ensures
            width == Self::page_width(),
            0 < width <= i32::MAX,
    ;

    fn get_page_capacity() -> (capacity: u32)
        ensures
            capacity == page_capacity(N::dimensions(), Self::page_width()),
    ;

    /// The number of dimensions of the space.
    fn dimensionality() -> (d: u32)
        ensures
            d == N::dimensions(),
            1 <= d <= 3,
    ;

    /// The place within its page of the cell at `address`.
    fn localize_address(address: &FungeAddress) -> (local: FungeAddress)
        ensures
            local@ == local_coords(N::dimensions(), Self::page_width(), address@),
            is_local(N::dimensions(), Self::page_width(), local@),
    ;

    /// The index in a page's storage of the cell at the place `local_address`.
    fn address_to_page_linear_index(local_address: &FungeAddress) -> (index: usize)
        requires
            is_local(N::dimensions(), Self::page_width(), local_address@),
        ensures
            index == linear_index(N::dimensions(), Self::page_width(), local_address@),
            index < page_capacity(N::dimensions(), Self::page_width()),
    ;

    /// The address of the page that holds the cell at `address`.
    fn make_page_address(address: &FungeAddress) -> (page_address: FungePageAddress)
        ensures
            page_address@ == page_coords(N::dimensions(), Self::page_width(), address@),
    ;
}

// Two dimensional
const DEFAULT_PAGE_WIDTH_DIM2: u32 = 32;

/// How the plane is cut into pages: squares of 32 by 32 cells.
pub struct SpaceAccessorDim2<V> {
    _phantom: PhantomData<(V)>,
}

impl<V> FungeSpaceAccessor<FungeDim2, V> for SpaceAccessorDim2<V> where V: FungeValue {
    open spec fn page_width() -> int {
        32
    }

    proof fn lemma_page_width() {
    }

    #[inline(always)]
    fn get_page_width() -> (width: u32) {
        DEFAULT_PAGE_WIDTH_DIM2
    }

    #[inline(always)]
    fn get_page_capacity() -> (capacity: u32) {
        DEFAULT_PAGE_WIDTH_DIM2 * DEFAULT_PAGE_WIDTH_DIM2
    }

    #[inline(always)]
    fn dimensionality() -> (d: u32) {
        FungeDim2::dimensionality()
    }

    fn localize_address(address: &FungeAddress) -> (local: FungeAddress) {
        let page_width = Self::get_page_width() as i32;

        let mut local = FungeAddress::new_value(0);
        local.set_x(floor_mod(address.x(), page_width));
        local.set_y(floor_mod(address.y(), page_width));
        local
    }

    fn address_to_page_linear_index(local_address: &FungeAddress) -> (index: usize) {
        let page_width = Self::get_page_width() as usize;
        proof {
            lemma_linear_index_in_page(2, 32, local_address@);
        }

        (local_address.x() as usize) + (local_address.y() as usize * page_width)
    }

    fn make_page_address(address: &FungeAddress) -> (page_address: FungePageAddress) {
        let page_width = Self::get_page_width() as i32;

        let mut page_address = FungeAddress::new_value(0);
        page_address.set_x(floor_div(address.x(), page_width));
        page_address.set_y(floor_div(address.y(), page_width));
        page_address
    }
}

// Three dimensional
const DEFAULT_PAGE_WIDTH_DIM3: u32 = 16;

/// How space of three dimensions is cut into pages: cubes of 16 by 16 by 16
/// cells.
pub struct SpaceAccessorDim3<V> {
    _phantom: PhantomData<(V)>,
}

impl<V> FungeSpaceAccessor<FungeDim3, V> for SpaceAccessorDim3<V> where V: FungeValue {
    open spec fn page_width() -> int {
        16
    }

    proof fn lemma_page_width() {
    }

    #[inline(always)]
    fn get_page_width() -> (width: u32) {
        DEFAULT_PAGE_WIDTH_DIM3
    }

    #[inline(always)]
    fn get_page_capacity() -> (capacity: u32) {
        DEFAULT_PAGE_WIDTH_DIM3 * DEFAULT_PAGE_WIDTH_DIM3 * DEFAULT_PAGE_WIDTH_DIM3
    }

    #[inline(always)]
    fn dimensionality() -> (d: u32) {
        FungeDim3::dimensionality()
    }

    fn localize_address(address: &FungeAddress) -> (local: FungeAddress) {
        let page_width = Self::get_page_width() as i32;

        let mut local = FungeAddress::new_value(0);
        local.set_x(floor_mod(address.x(), page_width));
        local.set_y(floor_mod(address.y(), page_width));
        local.set_z(floor_mod(address.z(), page_width));
        local
    }

    fn address_to_page_linear_index(local_address: &FungeAddress) -> (index: usize) {
        let page_width = Self::get_page_width() as usize;
        proof {
            lemma_linear_index_in_page(3, 16, local_address@);
        }
        (local_address.x() as usize) + (local_address.y() as usize * page_width) + (
        local_address.z() as usize * page_width * page_width)
    }

    fn make_page_address(address: &FungeAddress) -> (page_address: FungePageAddress) {
        let page_width = Self::get_page_width() as i32;

        let mut page_address = FungeAddress::new_value(0);
        page_address.set_x(floor_div(address.x(), page_width));
        page_address.set_y(floor_div(address.y(), page_width));
        page_address.set_z(floor_div(address.z(), page_width));
        page_address
    }
}

} // verus!
