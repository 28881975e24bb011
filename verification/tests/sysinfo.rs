use rsfunge::interpreter::instruction::insts::{
    _get_sysinfo_cell, _get_sysinfo_cell_at, _get_sysinfo_cell_num, inst_get_sysinfo,
    inst_get_sysinfo_at, ClockReading, RSFUNGE_HANDPRINT, RSFUNGE_VERSION,
};
use rsfunge::interpreter::{
    FungeDim2, FungeDim3, FungeInterpreter, FungeStack, FungeThread, SpaceAccessorDim2,
    SpaceAccessorDim3,
};
use rsfunge::vector::Vector3;

type Befunge = FungeInterpreter<FungeDim2, SpaceAccessorDim2<i32>>;

const DATE: i32 = 101 * 65536 + 2 * 256 + 3;
const TIME: i32 = 12 * 65536 + 34 * 256 + 56;

fn clock() -> ClockReading {
    ClockReading { year: 2001, month: 2, day: 3, hour: 12, minute: 34, second: 56 }
}

fn thread_with(values: &[i32]) -> FungeThread {
    let mut thread = FungeThread::new(Vector3::new_xyz(4, 5, 6), Vector3::new_xyz(0, -1, 0));
    thread.storage_offset.set_xyz(7, 8, 9);
    for v in values {
        thread.stack_stack.push(*v);
    }
    thread
}

fn toss(thread: &mut FungeThread) -> Vec<i32> {
    let stack = thread.stack_stack.top_stack();
    let mut values = Vec::new();
    let mut n = stack.depth();
    while n > 0 {
        n -= 1;
        values.push(stack.peek_nth(n).unwrap());
    }
    values
}

/// The cells in a plane for the thread of `thread_with` with the top stack
/// depth `depth` and `stacks` stacks, the first one first.
fn flat_cells(depth: i32, stacks: &[i32], cli: &[u8], env: &[u8]) -> Vec<i32> {
    let mut cells = vec![
        0,
        4,
        RSFUNGE_HANDPRINT as i32,
        RSFUNGE_VERSION as i32,
        0,
        47,
        2,
        0,
        0,
        4,
        5,
        0,
        -1,
        7,
        8,
        0,
        0,
        0,
        0,
        DATE,
        TIME,
        1 + stacks.len() as i32,
        depth,
    ];
    cells.extend_from_slice(stacks);
    cells.extend(cli.iter().map(|b| *b as i32));
    cells.extend(env.iter().map(|b| *b as i32));
    cells
}

#[test]
fn the_handprint_spells_the_name() {
    assert_eq!(&RSFUNGE_HANDPRINT.to_be_bytes(), b"RSFN");
    assert_eq!(RSFUNGE_VERSION, 100);
}

#[test]
fn all_cells_go_onto_the_stack_the_first_on_top() {
    let cli = b"prog\0\0\0";
    let env = b"A=b\0\0";
    let mut thread = thread_with(&[5, 6, 0]);
    inst_get_sysinfo_at(&mut thread, 2, &clock(), env, cli);
    let mut expected = vec![5, 6];
    let mut cells = flat_cells(2, &[], cli, env);
    cells.reverse();
    expected.extend(cells);
    assert_eq!(toss(&mut thread), expected);
}

#[test]
fn a_negative_number_asks_for_all_cells_too() {
    let mut thread = thread_with(&[-7]);
    inst_get_sysinfo_at(&mut thread, 2, &clock(), &[0], &[0, 0, 0]);
    let mut cells = flat_cells(0, &[], &[0, 0, 0], &[0]);
    cells.reverse();
    assert_eq!(toss(&mut thread), cells);
}

#[test]
fn one_cell_by_its_number() {
    let cli = b"prog\0\0\0";
    let env = b"A=b\0\0";
    let cells = flat_cells(1, &[], cli, env);
    for (i, cell) in cells.iter().enumerate() {
        let mut thread = thread_with(&[99, i as i32 + 1]);
        inst_get_sysinfo_at(&mut thread, 2, &clock(), env, cli);
        assert_eq!(toss(&mut thread), vec![99, *cell], "cell {}", i + 1);
    }
}

#[test]
fn a_number_beyond_the_cells_picks_from_the_stack() {
    let cli = [0u8, 0, 0];
    let env = [0u8];
    let count = flat_cells(0, &[], &cli, &env).len() as i32;
    let mut thread = thread_with(&[11, 22, 33, count + 1]);
    inst_get_sysinfo_at(&mut thread, 2, &clock(), &env, &cli);
    assert_eq!(toss(&mut thread), vec![11, 22, 33, 33]);
    let mut thread = thread_with(&[11, 22, 33, count + 3]);
    inst_get_sysinfo_at(&mut thread, 2, &clock(), &env, &cli);
    assert_eq!(toss(&mut thread), vec![11, 22, 33, 11]);
    let mut thread = thread_with(&[11, 22, 33, count + 4]);
    inst_get_sysinfo_at(&mut thread, 2, &clock(), &env, &cli);
    assert_eq!(toss(&mut thread), vec![11, 22, 33, 0]);
    let mut thread = thread_with(&[i32::MAX]);
    inst_get_sysinfo_at(&mut thread, 2, &clock(), &env, &cli);
    assert_eq!(toss(&mut thread), vec![0]);
}

#[test]
fn the_depths_of_all_stacks_are_told() {
    let mut thread = thread_with(&[1, 2, 3]);
    let mut second = FungeStack::new();
    second.push(4);
    thread.stack_stack.push_stack(second);
    thread.stack_stack.push_stack(FungeStack::new());
    thread.stack_stack.push(8);
    thread.stack_stack.push(9);
    thread.stack_stack.push(0);
    inst_get_sysinfo_at(&mut thread, 2, &clock(), &[0], &[0, 0, 0]);
    let mut cells = flat_cells(2, &[1, 3], &[0, 0, 0], &[0]);
    cells.reverse();
    let mut expected = vec![8, 9];
    expected.extend(cells);
    assert_eq!(toss(&mut thread), expected);
}

#[test]
fn the_cells_in_one_and_three_dimensions() {
    let mut thread = thread_with(&[0]);
    inst_get_sysinfo_at(&mut thread, 1, &clock(), &[0], &[0, 0, 0]);
    let mut got = toss(&mut thread);
    got.reverse();
    assert_eq!(
        got,
        vec![0, 4, RSFUNGE_HANDPRINT as i32, 100, 0, 47, 1, 0, 0, 4, 0, 7, 0, 0, DATE, TIME, 1, 0, 0, 0, 0, 0]
    );
    let mut thread = thread_with(&[0]);
    inst_get_sysinfo_at(&mut thread, 3, &clock(), &[0], &[0, 0, 0]);
    let mut got = toss(&mut thread);
    got.reverse();
    assert_eq!(
        got,
        vec![
            0, 4, RSFUNGE_HANDPRINT as i32, 100, 0, 47, 3, 0, 0, 4, 5, 6, 0, -1, 0, 7, 8, 9, 0, 0,
            0, 0, DATE, TIME, 1, 0, 0, 0, 0, 0
        ]
    );
}

#[test]
fn the_number_of_cells() {
    let thread = thread_with(&[]);
    assert_eq!(_get_sysinfo_cell_num(&thread, 1, 1, &[0], &[0, 0, 0]), 17 + 1 + 1 + 3);
    assert_eq!(_get_sysinfo_cell_num(&thread, 2, 1, &[0], &[0, 0, 0]), 22 + 1 + 1 + 3);
    assert_eq!(_get_sysinfo_cell_num(&thread, 3, 4, b"A=b\0\0", b"p\0\0\0"), 25 + 4 + 5 + 4);
    assert_eq!(
        _get_sysinfo_cell_num(&thread, 2, u32::MAX, &[], &[]),
        22 + u32::MAX as u128
    );
}

#[test]
fn single_cells() {
    let cli = b"prog\0\0\0";
    let env = b"A=b\0\0";
    let cells = flat_cells(3, &[], cli, env);
    let mut thread = thread_with(&[1, 2]);
    for (i, cell) in cells.iter().enumerate() {
        let got = _get_sysinfo_cell_at(&mut thread, i as u32, 2, 3, 1, &clock(), env, cli);
        assert_eq!(got, *cell, "cell {}", i);
    }
    assert_eq!(toss(&mut thread), vec![1, 2]);
}

#[test]
fn the_clock_of_the_machine_keeps_to_the_calendar() {
    let mut thread = thread_with(&[]);
    let date = _get_sysinfo_cell(&mut thread, 19, 2, 0, 1, &[0], &[0, 0, 0]);
    let time = _get_sysinfo_cell(&mut thread, 20, 2, 0, 1, &[0], &[0, 0, 0]);
    assert!((1..=31).contains(&(date & 0xff)));
    assert!((1..=12).contains(&((date >> 8) & 0xff)));
    assert!((date >> 16) >= 70);
    assert!((0..=59).contains(&(time & 0xff)));
    assert!((0..=59).contains(&((time >> 8) & 0xff)));
    assert!((0..=23).contains(&(time >> 16)));
    assert_eq!(_get_sysinfo_cell(&mut thread, 6, 2, 0, 1, &[0], &[0, 0, 0]), 2);
    assert_eq!(_get_sysinfo_cell(&mut thread, 22, 2, 5, 1, &[0], &[0, 0, 0]), 5);
}

#[test]
fn the_instruction_reads_the_clock_of_the_machine() {
    let mut thread = thread_with(&[20]);
    inst_get_sysinfo::<FungeDim2, SpaceAccessorDim2<i32>>(&mut thread, &[0], &[0, 0, 0]);
    let date = thread.stack_stack.pop();
    assert!((1..=31).contains(&(date & 0xff)));
    assert!((1..=12).contains(&((date >> 8) & 0xff)));
    assert!((date >> 16) >= 70);
    let mut thread = thread_with(&[7]);
    inst_get_sysinfo::<FungeDim3, SpaceAccessorDim3<i32>>(&mut thread, &[0], &[0, 0, 0]);
    assert_eq!(toss(&mut thread), vec![3]);
    let mut thread = thread_with(&[12]);
    inst_get_sysinfo::<FungeDim3, SpaceAccessorDim3<i32>>(&mut thread, &[0], &[0, 0, 0]);
    assert_eq!(toss(&mut thread), vec![6]);
}

#[test]
fn the_block_of_the_environment() {
    let vars = vec![
        (String::from("HOME"), String::from("/root")),
        (String::from("X"), String::new()),
        (String::from("\u{e9}"), String::from("=")),
    ];
    assert_eq!(Befunge::make_env_var_string(&vars), b"HOME=/root\0X=\0\xc3\xa9==\0\0");
    assert_eq!(Befunge::make_env_var_string(&Vec::new()), b"\0");
}

#[test]
fn the_block_of_the_command_line() {
    assert_eq!(Befunge::make_cli_arg_string("prog"), b"prog\0\0\0");
    assert_eq!(Befunge::make_cli_arg_string(""), b"\0\0\0");
}
