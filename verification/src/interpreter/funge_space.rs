use vstd::prelude::*;
use crate::interpreter::funge_address::{FungeAddress, FungePageAddress};
use crate::interpreter::funge_dimension::FungeDimension;
use crate::interpreter::funge_space_accessor::{
    FungeSpaceAccessor,
    canonical,
    is_local,
    lemma_cell_place_injective,
    lemma_local_in_page,
    linear_index,
    local_coords,
    page_capacity,
    page_coords,
};
use crate::interpreter::funge_value::FungeValue;
use std::collections::HashMap;
use std::marker::PhantomData;

verus! {

/// Space character (32)
pub const EMPTY_CELL_VALUE: i32 = 32;

/// The cells of a page that nothing was written to.
pub open spec fn blank_page<V: FungeValue>(capacity: int) -> Seq<V> {
    Seq::new(capacity as nat, |i: int| V::spec_from_cell(EMPTY_CELL_VALUE))
}

/// The cells of a space that is cut into the pages `pages`: the cell at an
/// address is the cell at its place in its page, and the space character
/// where there is no such page. The addresses are those whose components
/// beyond the dimensions are zero.
pub open spec fn cells_of<V: FungeValue>(
    pages: Map<(i32, i32, i32), Seq<V>>,
    dims: nat,
    width: int,
) -> Map<(i32, i32, i32), V> {
    Map::new(
        |a: (i32, i32, i32)| canonical(dims, a) == a,
        |a: (i32, i32, i32)|
            if pages.contains_key(page_coords(dims, width, a)) {
                pages[page_coords(dims, width, a)][linear_index(
                    dims,
                    width,
                    local_coords(dims, width, a),
                )]
            } else {
                V::spec_from_cell(EMPTY_CELL_VALUE)
            },
    )
}

/// A space that nothing was written to: every cell holds the space
/// character.
pub open spec fn blank_space<V: FungeValue>(dims: nat) -> Map<(i32, i32, i32), V> {
    Map::new(
        |a: (i32, i32, i32)| canonical(dims, a) == a,
        |a: (i32, i32, i32)| V::spec_from_cell(EMPTY_CELL_VALUE),
    )
}

/// A cell that was written holds what was written, whatever the signs of its
/// coordinates; every other cell is as it was; and in a space that nothing
/// was written to every cell holds the space character.
pub proof fn lemma_read_after_write<V: FungeValue>(
    space: Map<(i32, i32, i32), V>,
    dims: nat,
    written: (i32, i32, i32),
    other: (i32, i32, i32),
    value: V,
)
    ensures
        space.insert(canonical(dims, written), value)[canonical(dims, written)] == value,
        canonical(dims, other) != canonical(dims, written) ==> space.insert(
            canonical(dims, written),
            value,
        )[canonical(dims, other)] == space[canonical(dims, other)],
        blank_space::<V>(dims).contains_key(canonical(dims, other)),
        blank_space::<V>(dims)[canonical(dims, other)] == V::spec_from_cell(EMPTY_CELL_VALUE),
{
}

/// The number under which the page at `page` is filed: the three components,
/// each moved into the unsigned range, written side by side.
pub open spec fn page_key_of(page: (i32, i32, i32)) -> int {
    (page.0 - i32::MIN) * 0x1_0000_0000_0000_0000 + (page.1 - i32::MIN) * 0x1_0000_0000 + (page.2
        - i32::MIN)
}

/// Different pages are filed under different numbers.
pub proof fn lemma_page_key_injective(p: (i32, i32, i32), q: (i32, i32, i32))
    requires
        page_key_of(p) == page_key_of(q),
    ensures
        p == q,
{
}

/// The number under which the page at `page_address` is filed.
fn page_key(page_address: &FungePageAddress) -> (key: u128)
    ensures
        key == page_key_of(page_address@),
{
    let x = (page_address.x() as i64 - i32::MIN as i64) as u128;
    let y = (page_address.y() as i64 - i32::MIN as i64) as u128;
    let z = (page_address.z() as i64 - i32::MIN as i64) as u128;
    x * 0x1_0000_0000_0000_0000 + y * 0x1_0000_0000 + z
}

/// Funge space: the grid of cells that holds program and data. It has no
/// bounds but those of its addresses. A cell that was never written holds the
/// space character.
///
/// The view maps each address of the space to the value of its cell; the
/// addresses are the triples whose components beyond the dimensions are
/// zero.
pub struct FungeSpace<N, V, A> where N: FungeDimension, V: FungeValue, A: FungeSpaceAccessor<N, V> {
    /// Where in `pages` the page filed under a number stands.
    page_index: HashMap<u128, usize>,
    pages: Vec<FungeSpacePage<N, V, A>>,
    /// The page addresses of `pages`, in the same order.
    page_addresses: Ghost<Seq<(i32, i32, i32)>>,
    _unused: PhantomData<N>,
}

impl<N, V, A> View for FungeSpace<N, V, A> where
    N: FungeDimension,
    V: FungeValue,
    A: FungeSpaceAccessor<N, V>,
 {
    type V = Map<(i32, i32, i32), V>;

    open spec fn view(&self) -> Map<(i32, i32, i32), V> {
        cells_of(self.pages(), N::dimensions(), A::page_width())
    }
}

impl<N, V, A> FungeSpace<N, V, A> where
    N: FungeDimension,
    V: FungeValue,
    A: FungeSpaceAccessor<N, V>,
 {
    #[verifier::type_invariant]
    spec fn is_filed(self) -> bool {
        &&& self.page_addresses@.len() == self.pages@.len()
        &&& forall|key: u128| #[trigger]
            self.page_index@.contains_key(key) ==> {
                &&& self.page_index@[key] < self.pages@.len()
                &&& page_key_of(self.page_addresses@[self.page_index@[key] as int]) == key
            }
        &&& forall|i: int|
            0 <= i < self.pages@.len() ==> {
                &&& 0 <= #[trigger] page_key_of(self.page_addresses@[i]) <= u128::MAX
                &&& self.page_index@.contains_key(page_key_of(self.page_addresses@[i]) as u128)
                &&& self.page_index@[page_key_of(self.page_addresses@[i]) as u128] == i
            }
    }

    /// The pages that were made so far, by their page addresses. Each holds
    /// its cells in the order of their linear indices.
    pub closed spec fn pages(&self) -> Map<(i32, i32, i32), Seq<V>> {
        Map::new(
            |p: (i32, i32, i32)| self.page_index@.contains_key(page_key_of(p) as u128),
            |p: (i32, i32, i32)| self.pages@[self.page_index@[page_key_of(p) as u128] as int]@,
        )
    }

    /// A space without pages.
    fn empty() -> (space: Self)
        ensures
            space.pages() == Map::<(i32, i32, i32), Seq<V>>::empty(),
    {
        let space = FungeSpace {
            page_index: HashMap::new(),
            pages: Vec::new(),
            page_addresses: Ghost(Seq::empty()),
            _unused: PhantomData,
        };
        assert(space.pages() =~= Map::<(i32, i32, i32), Seq<V>>::empty());
        space
    }

    /// A space that nothing was written to.
    pub fn new() -> (space: Self)
        ensures
            space.pages() == Map::<(i32, i32, i32), Seq<V>>::empty(),
            space@ == blank_space::<V>(N::dimensions()),
    {
        let space = FungeSpace {
            page_index: HashMap::with_capacity(128),
            pages: Vec::new(),
            page_addresses: Ghost(Seq::empty()),
            _unused: PhantomData,
        };
        assert(space.pages() =~= Map::<(i32, i32, i32), Seq<V>>::empty());
        assert(space@ =~= blank_space::<V>(N::dimensions()));
        space
    }

    /// The value of the cell at `address`. Reading makes no page: where the
    /// page of the cell was never made, the cell holds the space character.
    pub fn read_cell(&self, address: &FungeAddress) -> (cell: V)
        ensures
            cell == self@[canonical(N::dimensions(), address@)],
    {
        proof {
            use_type_invariant(self);
            A::lemma_page_width();
            N::lemma_dimensions();
            let dims = N::dimensions();
            let width = A::page_width();
            let c = canonical(dims, address@);
            assert(page_coords(dims, width, c) == page_coords(dims, width, address@));
            assert(local_coords(dims, width, c) == local_coords(dims, width, address@));
        }
        // Try get page at address
        let page_address = A::make_page_address(address);
        let key = page_key(&page_address);
        broadcast use vstd::std_specs::hash::group_hash_axioms;

        match self.page_index.get(&key) {
            Some(index) => {
                // Localize page address
                let local_address = A::localize_address(address);

                // Read value from page
                self.pages[*index].read_cell(&local_address)
            },
            None => {
                // Return empty value if page absent
                V::from_cell(EMPTY_CELL_VALUE)
            },
        }
    }

    /// Stores `value` in the cell at `address`, and makes the page of the
    /// cell if need be. Every other cell keeps its value, and no other page
    /// is made.
    pub fn write_cell(&mut self, address: &FungeAddress, value: V)
        ensures
            final(self)@ == old(self)@.insert(canonical(N::dimensions(), address@), value),
            final(self).pages() == old(self).pages().insert(
                page_coords(N::dimensions(), A::page_width(), address@),
                (if old(self).pages().contains_key(
                    page_coords(N::dimensions(), A::page_width(), address@),
                ) {
                    old(self).pages()[page_coords(N::dimensions(), A::page_width(), address@)]
                } else {
                    blank_page::<V>(page_capacity(N::dimensions(), A::page_width()))
                }).update(
                    linear_index(
                        N::dimensions(),
                        A::page_width(),
                        local_coords(N::dimensions(), A::page_width(), address@),
                    ),
                    value,
                ),
            ),
    {
        let ghost dims = N::dimensions();
        let ghost width = A::page_width();
        let ghost before = self.pages();
        let ghost target = canonical(dims, address@);
        proof {
            A::lemma_page_width();
            N::lemma_dimensions();
            assert(page_coords(dims, width, target) == page_coords(dims, width, address@));
            assert(local_coords(dims, width, target) == local_coords(dims, width, address@));
            lemma_local_in_page(dims, width, address@);
        }
        // Get page (create if necessary)
        let page_address = A::make_page_address(address);
        let page = self.get_page_or_create(&page_address);

        // Localize address
        let local_address = A::localize_address(address);

        // Write cell to page
        let ghost page_before = page@;
        page.write_cell(&local_address, value);

        proof {
            let after = self.pages();
            let index = linear_index(dims, width, local_address@);
            assert(after == before.insert(page_address@, page_before.update(index, value)));
            assert forall|a: (i32, i32, i32)| canonical(dims, a) == a implies #[trigger] self@[a]
                == old(self)@.insert(target, value)[a] by {
                if a != target {
                    if page_coords(dims, width, a) == page_address@ {
                        if linear_index(dims, width, local_coords(dims, width, a)) == index {
                            lemma_cell_place_injective(dims, width, a, target);
                        }
                        lemma_local_in_page(dims, width, a);
                    }
                }
            }
            assert(self@ =~= old(self)@.insert(target, value));
        }
    }

    /// A change to the page that stands at `index` changes that page in
    /// `pages()`, and nothing else.
    proof fn lemma_page_changed(before: Self, after: Self, index: int)
        requires
            before.is_filed(),
            0 <= index < before.pages@.len(),
            after.page_index@ == before.page_index@,
            after.page_addresses@ == before.page_addresses@,
            after.pages@.len() == before.pages@.len(),
            forall|i: int|
                0 <= i < before.pages@.len() && i != index ==> after.pages@[i] == before.pages@[i],
        ensures
            after.pages() == before.pages().insert(
                before.page_addresses@[index],
                after.pages@[index]@,
            ),
    {
        let address = before.page_addresses@[index];
        let changed = before.pages().insert(address, after.pages@[index]@);
        assert(page_key_of(before.page_addresses@[index]) >= 0);
        assert forall|p: (i32, i32, i32)| #[trigger] after.pages().contains_key(p) implies
            after.pages()[p] == changed[p] by {
            let k = page_key_of(p) as u128;
            if p != address {
                assert(before.page_index@.contains_key(k));
                lemma_page_key_injective(before.page_addresses@[before.page_index@[k] as int], p);
            }
        }
        assert(after.pages() =~= changed);
    }

    /// Where the page that is filed under `key` stands in `pages`.
    fn lookup(&self, key: u128) -> (found: Option<usize>)
        ensures
            found is Some <==> self.page_index@.contains_key(key),
            found is Some ==> found->0 == self.page_index@[key],
    {
        broadcast use vstd::std_specs::hash::group_hash_axioms;

        match self.page_index.get(&key) {
            Some(index) => Some(*index),
            None => None,
        }
    }

    /// A new page of space characters at the end of the pages changes no
    /// cell.
    proof fn lemma_page_added(before: Self, after: Self, address: (i32, i32, i32))
        requires
            before.is_filed(),
            !before.page_index@.contains_key(page_key_of(address) as u128),
            after.page_index@ == before.page_index@.insert(
                page_key_of(address) as u128,
                before.pages@.len() as usize,
            ),
            before.pages@.len() <= usize::MAX,
            after.pages@.len() == before.pages@.len() + 1,
            forall|i: int| 0 <= i < before.pages@.len() ==> after.pages@[i] == before.pages@[i],
            after.pages@[before.pages@.len() as int]@ == blank_page::<V>(
                page_capacity(N::dimensions(), A::page_width()),
            ),
            after.page_addresses@ == before.page_addresses@.push(address),
        ensures
            after.is_filed(),
            after.pages() == before.pages().insert(
                address,
                blank_page::<V>(page_capacity(N::dimensions(), A::page_width())),
            ),
            after@ == before@,
    {
        let key = page_key_of(address) as u128;
        let n = before.pages@.len() as int;
        assert forall|k: u128| #[trigger] after.page_index@.contains_key(k) implies {
            &&& after.page_index@[k] < after.pages@.len()
            &&& page_key_of(after.page_addresses@[after.page_index@[k] as int]) == k
        } by {
            if k != key {
                assert(before.page_index@.contains_key(k));
            }
        }
        assert forall|i: int| 0 <= i < after.pages@.len() implies {
            &&& 0 <= #[trigger] page_key_of(after.page_addresses@[i]) <= u128::MAX
            &&& after.page_index@.contains_key(page_key_of(after.page_addresses@[i]) as u128)
            &&& after.page_index@[page_key_of(after.page_addresses@[i]) as u128] == i
        } by {
            if i < n {
                assert(after.page_addresses@[i] == before.page_addresses@[i]);
                assert(0 <= page_key_of(before.page_addresses@[i]) <= u128::MAX);
            }
        }
        let blank = blank_page::<V>(page_capacity(N::dimensions(), A::page_width()));
        assert forall|p: (i32, i32, i32)| #[trigger] after.pages().contains_key(p) implies
            after.pages()[p] == before.pages().insert(address, blank)[p] by {
            let k = page_key_of(p) as u128;
            if p != address {
                assert(before.page_index@.contains_key(k));
            }
        }
        assert(after.pages() =~= before.pages().insert(address, blank));
        A::lemma_page_width();
        N::lemma_dimensions();
        let dims = N::dimensions();
        let width = A::page_width();
        assert forall|a: (i32, i32, i32)| canonical(dims, a) == a implies #[trigger] after@[a]
            == before@[a] by {
            lemma_local_in_page(dims, width, a);
        }
        assert(after@ =~= before@);
    }

    /// Makes a page of space characters at `page_address`, where there is
    /// none, and tells where it stands in `pages`.
    fn add_page(&mut self, page_address: &FungePageAddress, key: u128) -> (index: usize)
        requires
            key == page_key_of(page_address@),
            !old(self).page_index@.contains_key(key),
        ensures
            index == old(self).pages@.len(),
            final(self).page_index@ == old(self).page_index@.insert(key, index),
            final(self).pages@.len() == old(self).pages@.len() + 1,
            final(self).page_addresses@ == old(self).page_addresses@.push(page_address@),
            final(self).pages() == old(self).pages().insert(
                page_address@,
                blank_page::<V>(page_capacity(N::dimensions(), A::page_width())),
            ),
            final(self)@ == old(self)@,
    {
        proof {
            use_type_invariant(&*self);
        }
        let ghost before = *self;
        let mut taken = Self::empty();
        core::mem::swap(self, &mut taken);
        let FungeSpace { mut page_index, mut pages, page_addresses, _unused } = taken;
        let index = pages.len();
        pages.push(FungeSpacePage::new());
        let ghost addresses = page_addresses@.push(page_address@);
        Self::file(&mut page_index, key, index);
        proof {
            let after = FungeSpace { page_index, pages, page_addresses: Ghost(addresses), _unused };
            Self::lemma_page_added(before, after, page_address@);
        }
        *self = FungeSpace { page_index, pages, page_addresses: Ghost(addresses), _unused };
        index
    }

    /// Files `index` under `key`.
    fn file(page_index: &mut HashMap<u128, usize>, key: u128, index: usize)
        ensures
            final(page_index)@ == old(page_index)@.insert(key, index),
    {
        broadcast use vstd::std_specs::hash::group_hash_axioms;

        page_index.insert(key, index);
    }

    /// Where the page at `page_address` stands in `pages`. Where there is
    /// none yet, a page of space characters is made: that changes no cell.
    fn find_or_create(&mut self, page_address: &FungePageAddress) -> (index: usize)
        ensures
            index < final(self).pages@.len(),
            final(self).page_addresses@[index as int] == page_address@,
            final(self).pages().contains_key(page_address@),
            final(self).pages()[page_address@] == final(self).pages@[index as int]@,
            old(self).pages().contains_key(page_address@) ==> final(self).pages()
                == old(self).pages(),
            !old(self).pages().contains_key(page_address@) ==> final(self).pages()
                == old(self).pages().insert(
                page_address@,
                blank_page::<V>(page_capacity(N::dimensions(), A::page_width())),
            ),
            final(self)@ == old(self)@,
    {
        let key = page_key(page_address);
        proof {
            use_type_invariant(&*self);
        }
        match self.lookup(key) {
            Some(index) => {
                proof {
                    lemma_page_key_injective(self.page_addresses@[index as int], page_address@);
                }
                index
            },
            None => self.add_page(page_address, key),
        }
    }

    /// The page at `page_address`, for reading and writing. Where there is
    /// none yet, a page of space characters is made.
    #[inline]
    pub fn get_page_or_create(&mut self, page_address: &FungePageAddress) -> (page:
        &mut FungeSpacePage<N, V, A>)
        ensures
            page@ == (if old(self).pages().contains_key(page_address@) {
                old(self).pages()[page_address@]
            } else {
                blank_page::<V>(page_capacity(N::dimensions(), A::page_width()))
            }),
            final(self).pages() == old(self).pages().insert(page_address@, final(page)@),
            !old(self).pages().contains_key(page_address@) ==> old(self)@ == cells_of(
                old(self).pages().insert(page_address@, page@),
                N::dimensions(),
                A::page_width(),
            ),
    {
        let index = self.find_or_create(page_address);
        proof {
            use_type_invariant(&*self);
        }
        let ghost held = *self;
        let page = &mut self.pages[index];
        proof {
            assert forall|after: Self|
                after.page_index@ == held.page_index@ && after.page_addresses@
                    == held.page_addresses@ && after.pages@.len() == held.pages@.len() && (forall|
                    i: int,
                |
                    0 <= i < held.pages@.len() && i != index ==> after.pages@[i] == held.pages@[i])
                    implies #[trigger] after.pages() == held.pages().insert(
                    page_address@,
                    after.pages@[index as int]@,
                ) by {
                Self::lemma_page_changed(held, after, index as int);
            }
            assert(held.pages().insert(page_address@, held.pages@[index as int]@) =~= held.pages());
        }
        page
    }

    /// The page at `page_address`, for reading and writing, if it was made.
    #[inline]
    pub fn get_page_maybe(&mut self, page_address: &FungePageAddress) -> (page: Option<
        &mut FungeSpacePage<N, V, A>,
    >)
        ensures
            !old(self).pages().contains_key(page_address@) ==> page is None && final(self).pages()
                == old(self).pages(),
            old(self).pages().contains_key(page_address@) ==> page is Some
                && page->0@ == old(self).pages()[page_address@]
                && final(self).pages() == old(self).pages().insert(page_address@, final(page->0)@),
    {
        let key = page_key(page_address);
        broadcast use vstd::std_specs::hash::group_hash_axioms;

        if self.page_index.contains_key(&key) {
            Some(self.get_page_or_create(page_address))
        } else {
            None
        }
    }
}

/// One page of funge space: the cells of a cube of addresses, in the order of
/// their linear indices.
pub struct FungeSpacePage<N, V, A> where
    N: FungeDimension,
    V: FungeValue,
    A: FungeSpaceAccessor<N, V>,
 {
    data: Vec<V>,
    _unused: PhantomData<(N, A)>,
}

impl<N, V, A> View for FungeSpacePage<N, V, A> where
    N: FungeDimension,
    V: FungeValue,
    A: FungeSpaceAccessor<N, V>,
 {
    type V = Seq<V>;

    closed spec fn view(&self) -> Seq<V> {
        self.data@
    }
}

impl<N, V, A> FungeSpacePage<N, V, A> where
    N: FungeDimension,
    V: FungeValue,
    A: FungeSpaceAccessor<N, V>,
 {
    #[verifier::type_invariant]
    spec fn is_whole(self) -> bool {
        self.data@.len() == page_capacity(N::dimensions(), A::page_width())
    }

    /// A page of space characters.
    pub fn new() -> (page: Self)
        ensures
            page@ == blank_page::<V>(page_capacity(N::dimensions(), A::page_width())),
    {
        let initial_value = V::from_cell(EMPTY_CELL_VALUE);
        let page_cap = A::get_page_capacity() as usize;

        let mut data: Vec<V> = Vec::with_capacity(page_cap);
        let mut i: usize = 0;
        while i < page_cap
            invariant
                i <= page_cap,
                data@.len() == i,
                initial_value == V::spec_from_cell(EMPTY_CELL_VALUE),
                forall|j: int| 0 <= j < i ==> data@[j] == initial_value,
            decreases page_cap - i,
        {
            data.push(initial_value);
            i = i + 1;
        }
        let page = FungeSpacePage { data, _unused: PhantomData };
        assert(page@ =~= blank_page::<V>(page_capacity(N::dimensions(), A::page_width())));
        page
    }

    /// The value of the cell at the place `local_address` of the page.
    pub fn read_cell(&self, local_address: &FungeAddress) -> (cell: V)
        requires
            is_local(N::dimensions(), A::page_width(), local_address@),
        ensures
            self@.len() == page_capacity(N::dimensions(), A::page_width()),
            cell == self@[linear_index(N::dimensions(), A::page_width(), local_address@)],
    {
        proof {
            use_type_invariant(self);
        }
        let linear_index = A::address_to_page_linear_index(local_address);
        self.data[linear_index]
    }

    /// Stores `value` in the cell at the place `local_address` of the page.
    pub fn write_cell(&mut self, local_address: &FungeAddress, value: V)
        requires
            is_local(N::dimensions(), A::page_width(), local_address@),
        ensures
            old(self)@.len() == page_capacity(N::dimensions(), A::page_width()),
            final(self)@ == old(self)@.update(
                linear_index(N::dimensions(), A::page_width(), local_address@),
                value,
            ),
    {
        proof {
            use_type_invariant(&*self);
        }
        let linear_index = A::address_to_page_linear_index(local_address);
        self.data[linear_index] = value;
    }
}

} // verus!
