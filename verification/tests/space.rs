use rsfunge::interpreter::funge_space_accessor::{floor_div, floor_mod};
use rsfunge::interpreter::{
    FungeAddress, FungeDim2, FungeDim3, FungeDimension, FungeSpace, FungeSpaceAccessor,
    FungeSpacePage, SpaceAccessorDim2, SpaceAccessorDim3,
};

type Space2 = FungeSpace<FungeDim2, i32, SpaceAccessorDim2<i32>>;
type Space3 = FungeSpace<FungeDim3, i32, SpaceAccessorDim3<i32>>;
type Acc2 = SpaceAccessorDim2<i32>;
type Acc3 = SpaceAccessorDim3<i32>;

fn at(x: i32, y: i32, z: i32) -> FungeAddress {
    FungeAddress::new_xyz(x, y, z)
}

#[test]
fn unwritten_cells_hold_a_space() {
    let space = Space2::new();
    for a in [at(0, 0, 0), at(-1, -1, 0), at(i32::MAX, i32::MIN, 0), at(1000, -77, 0)] {
        assert_eq!(space.read_cell(&a), 32);
    }
    let space = Space3::new();
    assert_eq!(space.read_cell(&at(-5, 6, -7)), 32);
}

#[test]
fn read_after_write_for_every_sign() {
    let mut space = Space2::new();
    let addresses = [
        at(0, 0, 0),
        at(5, 7, 0),
        at(-5, 7, 0),
        at(5, -7, 0),
        at(-5, -7, 0),
        at(-1, -1, 0),
        at(-32, -33, 0),
        at(31, 32, 0),
        at(i32::MAX, i32::MAX, 0),
        at(i32::MIN, i32::MIN, 0),
    ];
    for (i, a) in addresses.iter().enumerate() {
        space.write_cell(a, 100 + i as i32);
    }
    for (i, a) in addresses.iter().enumerate() {
        assert_eq!(space.read_cell(a), 100 + i as i32);
    }
    assert_eq!(space.read_cell(&at(1, 1, 0)), 32);
    assert_eq!(space.read_cell(&at(-2, -1, 0)), 32);
}

#[test]
fn read_after_write_in_three_dimensions() {
    let mut space = Space3::new();
    space.write_cell(&at(1, 2, 3), 11);
    space.write_cell(&at(1, 3, 2), 12);
    space.write_cell(&at(-1, -2, -3), 13);
    space.write_cell(&at(-17, 16, -16), 14);
    assert_eq!(space.read_cell(&at(1, 2, 3)), 11);
    assert_eq!(space.read_cell(&at(1, 3, 2)), 12);
    assert_eq!(space.read_cell(&at(-1, -2, -3)), 13);
    assert_eq!(space.read_cell(&at(-17, 16, -16)), 14);
    assert_eq!(space.read_cell(&at(1, 2, 0)), 32);
    assert_eq!(space.read_cell(&at(1, 0, 3)), 32);
}

#[test]
fn a_write_leaves_the_neighbours_alone() {
    let mut space = Space2::new();
    space.write_cell(&at(-1, 0, 0), 1);
    space.write_cell(&at(0, 0, 0), 2);
    space.write_cell(&at(0, -1, 0), 3);
    space.write_cell(&at(-1, -1, 0), 4);
    space.write_cell(&at(0, 0, 0), 5);
    assert_eq!(space.read_cell(&at(-1, 0, 0)), 1);
    assert_eq!(space.read_cell(&at(0, 0, 0)), 5);
    assert_eq!(space.read_cell(&at(0, -1, 0)), 3);
    assert_eq!(space.read_cell(&at(-1, -1, 0)), 4);
}

#[test]
fn the_third_component_takes_no_part_in_two_dimensions() {
    let mut space = Space2::new();
    space.write_cell(&at(3, 4, 99), 7);
    assert_eq!(space.read_cell(&at(3, 4, 0)), 7);
    assert_eq!(space.read_cell(&at(3, 4, -5)), 7);
}

#[test]
fn page_addresses_round_down() {
    assert_eq!(Acc2::get_page_width(), 32);
    assert_eq!(Acc2::get_page_capacity(), 1024);
    assert_eq!(Acc3::get_page_width(), 16);
    assert_eq!(Acc3::get_page_capacity(), 4096);
    let p = Acc2::make_page_address(&at(-1, 32, 5));
    assert_eq!((p.x(), p.y(), p.z()), (-1, 1, 0));
    let p = Acc2::make_page_address(&at(-33, 31, 0));
    assert_eq!((p.x(), p.y(), p.z()), (-2, 0, 0));
    let p = Acc3::make_page_address(&at(-1, 16, -17));
    assert_eq!((p.x(), p.y(), p.z()), (-1, 1, -2));
}

#[test]
fn local_addresses_are_never_negative() {
    let l = Acc2::localize_address(&at(-1, 33, 9));
    assert_eq!((l.x(), l.y(), l.z()), (31, 1, 0));
    let l = Acc3::localize_address(&at(-1, 17, -16));
    assert_eq!((l.x(), l.y(), l.z()), (15, 1, 0));
    let l = Acc3::localize_address(&at(i32::MIN, i32::MAX, -15));
    assert_eq!((l.x(), l.y(), l.z()), (0, 15, 1));
}

#[test]
fn linear_index_follows_the_formula() {
    assert_eq!(Acc2::address_to_page_linear_index(&at(3, 2, 0)), 3 + 2 * 32);
    assert_eq!(Acc2::address_to_page_linear_index(&at(31, 31, 0)), 1023);
    assert_eq!(Acc3::address_to_page_linear_index(&at(3, 2, 1)), 3 + 2 * 16 + 256);
    assert_eq!(Acc3::address_to_page_linear_index(&at(15, 15, 15)), 4095);
}

#[test]
fn dimensions_are_told() {
    assert_eq!(FungeDim2::dimensionality(), 2);
    assert_eq!(FungeDim3::dimensionality(), 3);
    assert_eq!(rsfunge::interpreter::FungeDim1::dimensionality(), 1);
    assert_eq!(Acc2::dimensionality(), 2);
    assert_eq!(Acc3::dimensionality(), 3);
}

#[test]
fn floor_division_and_remainder() {
    assert_eq!(floor_div(-1, 32), -1);
    assert_eq!(floor_mod(-1, 32), 31);
    assert_eq!(floor_div(-32, 32), -1);
    assert_eq!(floor_mod(-32, 32), 0);
    assert_eq!(floor_div(63, 32), 1);
    assert_eq!(floor_mod(63, 32), 31);
    assert_eq!(floor_div(i32::MIN, 16), -134217728);
    assert_eq!(floor_mod(i32::MIN, 16), 0);
}

#[test]
fn pages_are_made_on_the_first_write_only() {
    let mut space = Space2::new();
    let page = at(2, -3, 0);
    assert!(space.get_page_maybe(&page).is_none());
    space.read_cell(&at(70, -90, 0));
    assert!(space.get_page_maybe(&page).is_none());
    space.write_cell(&at(70, -90, 0), 9);
    let local = Acc2::localize_address(&at(70, -90, 0));
    assert_eq!(space.get_page_maybe(&page).unwrap().read_cell(&local), 9);
}

#[test]
fn a_page_can_be_written_directly() {
    let mut space = Space2::new();
    let page = space.get_page_or_create(&at(0, 0, 0));
    page.write_cell(&at(1, 1, 0), 55);
    assert_eq!(space.read_cell(&at(1, 1, 0)), 55);
    assert_eq!(space.read_cell(&at(1, 2, 0)), 32);
}

#[test]
fn a_new_page_is_blank() {
    let mut page = FungeSpacePage::<FungeDim2, i32, Acc2>::new();
    assert_eq!(page.read_cell(&at(0, 0, 0)), 32);
    assert_eq!(page.read_cell(&at(31, 31, 0)), 32);
    page.write_cell(&at(31, 31, 0), 1);
    assert_eq!(page.read_cell(&at(31, 31, 0)), 1);
    assert_eq!(page.read_cell(&at(30, 31, 0)), 32);
}
