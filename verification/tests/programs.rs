use rsfunge::interpreter::{
    FungeAddress, FungeDim2, FungeDim3, FungeInterpreter, FungeThread, HostReply, HostRequest,
    SpaceAccessorDim2, SpaceAccessorDim3, StepResult, TickResult,
};
use rsfunge::io::{CodeBuffer, CodeBufferLine, CodeSource, LineTerminator};
use rsfunge::vector::Vector3;
use rsfunge::FungeDialect;

type Befunge = FungeInterpreter<FungeDim2, SpaceAccessorDim2<i32>>;
type Trefunge = FungeInterpreter<FungeDim3, SpaceAccessorDim3<i32>>;

fn buffer(rows: &[&str]) -> CodeBuffer {
    let mut lines = Vec::new();
    let mut widest = 0;
    for (i, row) in rows.iter().enumerate() {
        let data: Vec<u32> = row.chars().map(|c| c as u32).collect();
        widest = widest.max(data.len() as u32);
        let terminator = if i + 1 == rows.len() {
            LineTerminator::End
        } else {
            LineTerminator::FeedY
        };
        lines.push(CodeBufferLine { data, terminator });
    }
    CodeBuffer::new(lines, Vector3::new_xyz(widest, rows.len() as u32, 1), 0)
}

fn befunge(rows: &[&str]) -> Befunge {
    let source = CodeSource::new(String::from("test.bf"), Some(FungeDialect::Befunge98));
    let mut interpreter = Befunge::new(FungeDialect::Befunge98, source, vec![0], vec![0, 0, 0]);
    interpreter.load_initial_code(&buffer(rows));
    interpreter
}

fn toss(thread: &mut FungeThread) -> Vec<i32> {
    let stack = thread.stack_stack.top_stack();
    let mut values = Vec::new();
    let mut n = stack.depth();
    while n > 0 {
        n -= 1;
        values.push(stack.peek_nth(n).unwrap());
    }
    values
}

fn position(thread: &FungeThread) -> (i32, i32, i32) {
    (thread.ip.x(), thread.ip.y(), thread.ip.z())
}

fn direction(thread: &FungeThread) -> (i32, i32, i32) {
    (thread.delta.x(), thread.delta.y(), thread.delta.z())
}

/// Runs at most `steps` steps; the input is read byte by byte, and what is
/// written is collected.
fn run(interpreter: &mut Befunge, input: &[u8], steps: usize) -> (Vec<u8>, bool) {
    let mut output = Vec::new();
    let mut reply = HostReply::Done;
    let mut read = 0;
    for _ in 0..steps {
        match interpreter.step(reply) {
            StepResult::Finished => return (output, true),
            StepResult::Continue => reply = HostReply::Done,
            StepResult::Request(HostRequest::Write) => {
                output.extend_from_slice(interpreter.pending_output());
                reply = HostReply::Done;
            }
            StepResult::Request(HostRequest::Read) => {
                if read < input.len() {
                    reply = HostReply::Byte(input[read]);
                    read += 1;
                } else {
                    reply = HostReply::Failed;
                }
            }
            StepResult::Request(HostRequest::Invoke(_)) => reply = HostReply::Failed,
        }
    }
    (output, false)
}

#[test]
fn a_new_interpreter_has_one_thread_at_the_origin() {
    let mut interpreter = befunge(&["@"]);
    assert_eq!(interpreter.num_threads(), 1);
    assert_eq!(interpreter.get_programmatic_exit_code(), None);
    assert!(interpreter.pending_output().is_empty());
    let thread = interpreter.thread_mut(0).unwrap();
    assert_eq!(position(thread), (0, 0, 0));
    assert_eq!(direction(thread), (1, 0, 0));
    assert!(!thread.string_mode);
    assert_eq!(thread.stack_stack.num_stacks(), 1);
    let offset = thread.get_storage_offset();
    assert_eq!((offset.x(), offset.y(), offset.z()), (0, 0, 0));
    assert!(interpreter.thread_mut(1).is_none());
}

#[test]
fn adding_and_printing() {
    let mut interpreter = befunge(&["23+.@"]);
    let (output, finished) = run(&mut interpreter, &[], 100);
    assert!(finished);
    assert_eq!(output, b"5 ");
    assert_eq!(interpreter.get_programmatic_exit_code(), None);
    assert_eq!(interpreter.num_threads(), 0);
}

#[test]
fn adding_and_printing_tick_by_tick() {
    let mut interpreter = befunge(&["23+."]);
    assert_eq!(interpreter.execute_thread_tick(0), TickResult::Completed);
    assert_eq!(interpreter.execute_thread_tick(0), TickResult::Completed);
    assert_eq!(toss(interpreter.thread_mut(0).unwrap()), vec![2, 3]);
    assert_eq!(interpreter.execute_thread_tick(0), TickResult::Completed);
    assert_eq!(toss(interpreter.thread_mut(0).unwrap()), vec![5]);
    assert_eq!(interpreter.execute_thread_tick(0), TickResult::Waiting(HostRequest::Write));
    assert_eq!(interpreter.pending_output().as_slice(), b"5 ");
    assert_eq!(position(interpreter.thread_mut(0).unwrap()), (3, 0, 0));
    interpreter.complete_thread_tick(HostReply::Done);
    assert!(interpreter.pending_output().is_empty());
    let thread = interpreter.thread_mut(0).unwrap();
    assert_eq!(position(thread), (4, 0, 0));
    assert_eq!(direction(thread), (1, 0, 0));
    assert_eq!(toss(thread), Vec::<i32>::new());
}

#[test]
fn a_failed_write_turns_the_pointer_round() {
    let mut interpreter = befunge(&["7."]);
    assert_eq!(interpreter.step(HostReply::Done), StepResult::Continue);
    assert_eq!(interpreter.step(HostReply::Done), StepResult::Request(HostRequest::Write));
    assert_eq!(interpreter.step(HostReply::Failed), StepResult::Continue);
    let thread = interpreter.thread_mut(0).unwrap();
    assert_eq!(direction(thread), (-1, 0, 0));
    assert_eq!(position(thread), (0, 0, 0));
}

#[test]
fn string_mode_pushes_codepoints() {
    let mut interpreter = befunge(&["\"abc\",@"]);
    for _ in 0..4 {
        assert_eq!(interpreter.step(HostReply::Done), StepResult::Continue);
    }
    let thread = interpreter.thread_mut(0).unwrap();
    assert!(thread.string_mode);
    assert_eq!(toss(thread), vec![97, 98, 99]);
    assert_eq!(interpreter.step(HostReply::Done), StepResult::Continue);
    assert!(!interpreter.thread_mut(0).unwrap().string_mode);
    assert_eq!(interpreter.step(HostReply::Done), StepResult::Request(HostRequest::Write));
    assert_eq!(interpreter.pending_output().as_slice(), b"c");
    let (output, finished) = run(&mut interpreter, &[], 10);
    assert!(finished);
    assert!(output.is_empty());
}

#[test]
fn string_mode_output_in_a_loop() {
    let mut interpreter = befunge(&["\"abc\",,,@"]);
    let (output, finished) = run(&mut interpreter, &[], 100);
    assert!(finished);
    assert_eq!(output, b"cba");
}

#[test]
fn string_mode_skips_spaces() {
    let mut interpreter = befunge(&["\"a  b\"@"]);
    assert_eq!(interpreter.step(HostReply::Done), StepResult::Continue);
    assert_eq!(interpreter.step(HostReply::Done), StepResult::Continue);
    assert_eq!(position(interpreter.thread_mut(0).unwrap()), (2, 0, 0));
    assert_eq!(interpreter.step(HostReply::Done), StepResult::Continue);
    let thread = interpreter.thread_mut(0).unwrap();
    assert_eq!(position(thread), (4, 0, 0));
    assert_eq!(toss(thread), vec![97]);
    assert_eq!(interpreter.step(HostReply::Done), StepResult::Continue);
    assert_eq!(toss(interpreter.thread_mut(0).unwrap()), vec![97, 98]);
}

#[test]
fn spaces_cost_no_tick() {
    let mut interpreter = befunge(&["1  +@"]);
    assert_eq!(interpreter.execute_thread_tick(0), TickResult::Completed);
    let thread = interpreter.thread_mut(0).unwrap();
    assert_eq!(toss(thread), vec![1]);
    assert_eq!(position(thread), (1, 0, 0));
    assert_eq!(interpreter.execute_thread_tick(0), TickResult::Completed);
    let thread = interpreter.thread_mut(0).unwrap();
    assert_eq!(toss(thread), vec![1]);
    assert_eq!(position(thread), (4, 0, 0));
    assert_eq!(interpreter.execute_thread_tick(0), TickResult::Stopped);
    assert_eq!(interpreter.num_threads(), 0);
}

#[test]
fn comments_cost_no_tick() {
    let mut interpreter = befunge(&[";skip this;2@"]);
    assert_eq!(interpreter.execute_thread_tick(0), TickResult::Completed);
    let thread = interpreter.thread_mut(0).unwrap();
    assert_eq!(toss(thread), vec![2]);
    assert_eq!(position(thread), (12, 0, 0));
}

#[test]
fn comments_and_spaces_in_turn() {
    let mut interpreter = befunge(&[" ;1; ;2;  3@"]);
    assert_eq!(interpreter.execute_thread_tick(0), TickResult::Completed);
    let thread = interpreter.thread_mut(0).unwrap();
    assert_eq!(toss(thread), vec![3]);
    assert_eq!(position(thread), (11, 0, 0));
}

#[test]
fn quit_ends_the_run_with_its_code() {
    let mut interpreter = befunge(&["7q1."]);
    let (output, finished) = run(&mut interpreter, &[], 100);
    assert!(finished);
    assert!(output.is_empty());
    assert_eq!(interpreter.get_programmatic_exit_code(), Some(7));
    assert_eq!(interpreter.step(HostReply::Done), StepResult::Finished);
}

#[test]
fn quit_ends_the_run_whatever_other_pointers_do() {
    let mut interpreter = befunge(&["1q", "2.@"]);
    interpreter.start_thread(FungeAddress::new_xyz(0, 1, 0), Vector3::new_xyz(1, 0, 0));
    assert_eq!(interpreter.num_threads(), 2);
    assert_eq!(interpreter.step(HostReply::Done), StepResult::Continue);
    assert_eq!(interpreter.step(HostReply::Done), StepResult::Continue);
    assert_eq!(interpreter.step(HostReply::Done), StepResult::Finished);
    assert_eq!(interpreter.get_programmatic_exit_code(), Some(1));
    assert_eq!(interpreter.num_threads(), 2);
    assert_eq!(toss(interpreter.thread_mut(1).unwrap()), vec![2]);
}

#[test]
fn stop_removes_one_pointer_only() {
    let mut interpreter = befunge(&["@", "12+.@"]);
    interpreter.create_thread(FungeAddress::new_xyz(0, 1, 0), Vector3::new_xyz(1, 0, 0));
    let (output, finished) = run(&mut interpreter, &[], 100);
    assert!(finished);
    assert_eq!(output, b"3 ");
    assert_eq!(interpreter.get_programmatic_exit_code(), None);
}

#[test]
fn pointers_take_turns() {
    let mut interpreter = befunge(&["1.2.@", "3.4.@"]);
    interpreter.create_thread(FungeAddress::new_xyz(0, 1, 0), Vector3::new_xyz(1, 0, 0));
    let (output, finished) = run(&mut interpreter, &[], 100);
    assert!(finished);
    assert_eq!(output, b"1 3 2 4 ");
}

#[test]
fn division_by_zero_lets_the_run_go_on() {
    let mut interpreter = befunge(&["50/.50%.93/.93%.@"]);
    let (output, finished) = run(&mut interpreter, &[], 100);
    assert!(finished);
    assert_eq!(output, b"0 0 3 0 ");
}

#[test]
fn input_is_pushed() {
    let mut interpreter = befunge(&["~.~.@"]);
    let (output, finished) = run(&mut interpreter, b"A\n", 100);
    assert!(finished);
    assert_eq!(output, b"65 10 ");
}

#[test]
fn the_end_of_the_input_turns_the_pointer_round() {
    let mut interpreter = befunge(&["@1~"]);
    let thread = interpreter.thread_mut(0).unwrap();
    thread.ip.set_x(1);
    let (output, finished) = run(&mut interpreter, &[], 100);
    assert!(finished);
    assert!(output.is_empty());
}

#[test]
fn an_unknown_instruction_turns_the_pointer_round() {
    for program in ["@1t", "@1k", "@1(", "@1)", "@1}", "@1&", "@1=", "@1i", "@1o", "@1A", "@1\u{7f}"] {
        let mut interpreter = befunge(&[program]);
        interpreter.thread_mut(0).unwrap().ip.set_x(1);
        assert_eq!(interpreter.step(HostReply::Done), StepResult::Continue);
        assert_eq!(interpreter.step(HostReply::Done), StepResult::Continue);
        let thread = interpreter.thread_mut(0).unwrap();
        assert_eq!(direction(thread), (-1, 0, 0), "{}", program);
        assert_eq!(position(thread), (1, 0, 0), "{}", program);
    }
}

#[test]
fn moving_in_the_plane() {
    let mut interpreter = befunge(&["v  @", ">1.^"]);
    let (output, finished) = run(&mut interpreter, &[], 100);
    assert!(finished);
    assert_eq!(output, b"1 ");
}

#[test]
fn put_and_get_go_through_the_space() {
    let mut interpreter = befunge(&["529p29g.@"]);
    let (output, finished) = run(&mut interpreter, &[], 100);
    assert!(finished);
    assert_eq!(output, b"5 ");
    assert_eq!(interpreter.read_cell(&FungeAddress::new_xyz(2, 9, 0)), 5);
    assert_eq!(interpreter.read_cell(&FungeAddress::new_xyz(9, 2, 0)), 32);
}

#[test]
fn hex_digits_push_ten_to_fifteen() {
    let mut interpreter = befunge(&["abcdef@"]);
    for _ in 0..6 {
        interpreter.step(HostReply::Done);
    }
    assert_eq!(toss(interpreter.thread_mut(0).unwrap()), vec![10, 11, 12, 13, 14, 15]);
}

#[test]
fn trampoline_and_jump() {
    let mut interpreter = befunge(&["#12.2j345.@"]);
    let (output, finished) = run(&mut interpreter, &[], 100);
    assert!(finished);
    assert_eq!(output, b"2 5 ");
}

#[test]
fn fetch_and_store_character() {
    let mut interpreter = befunge(&["'A.'zs @"]);
    let (output, finished) = run(&mut interpreter, &[], 100);
    assert!(finished);
    assert_eq!(output, b"65 ");
    assert_eq!(interpreter.read_cell(&FungeAddress::new_xyz(6, 0, 0)), 122);
}

#[test]
fn loading_twice_is_loading_once() {
    let code = buffer(&["12 4", " ab", "", "x"]);
    let source = CodeSource::new(String::from("a"), None);
    let mut once = Befunge::new(FungeDialect::Befunge98, source, vec![0], vec![0, 0, 0]);
    let source = CodeSource::new(String::from("a"), None);
    let mut twice = Befunge::new(FungeDialect::Befunge98, source, vec![0], vec![0, 0, 0]);
    let origin = FungeAddress::new_xyz(-3, 30, 0);
    once.load_code(&code, origin);
    twice.load_code(&code, origin);
    twice.load_code(&code, origin);
    for y in 28..36 {
        for x in -6..4 {
            let at = FungeAddress::new_xyz(x, y, 0);
            assert_eq!(once.read_cell(&at), twice.read_cell(&at));
        }
    }
    assert_eq!(once.read_cell(&FungeAddress::new_xyz(-3, 30, 0)), 49);
    assert_eq!(once.read_cell(&FungeAddress::new_xyz(-1, 30, 0)), 32);
    assert_eq!(once.read_cell(&FungeAddress::new_xyz(0, 30, 0)), 52);
    assert_eq!(once.read_cell(&FungeAddress::new_xyz(-2, 31, 0)), 97);
    assert_eq!(once.read_cell(&FungeAddress::new_xyz(-3, 33, 0)), 120);
}

#[test]
fn spaces_in_code_leave_cells_alone() {
    let mut interpreter = befunge(&["abc"]);
    interpreter.load_initial_code(&buffer(&["x z"]));
    assert_eq!(interpreter.read_cell(&FungeAddress::new_xyz(0, 0, 0)), 120);
    assert_eq!(interpreter.read_cell(&FungeAddress::new_xyz(1, 0, 0)), 98);
    assert_eq!(interpreter.read_cell(&FungeAddress::new_xyz(2, 0, 0)), 122);
}

#[test]
fn loading_stops_at_the_end_mark() {
    let lines = vec![
        CodeBufferLine { data: vec![49], terminator: LineTerminator::FeedY },
        CodeBufferLine { data: vec![50], terminator: LineTerminator::End },
        CodeBufferLine { data: vec![51, 51], terminator: LineTerminator::FeedY },
    ];
    let code = CodeBuffer::new(lines, Vector3::new_xyz(2, 3, 1), 0);
    let mut interpreter = befunge(&[]);
    interpreter.load_initial_code(&code);
    assert_eq!(interpreter.read_cell(&FungeAddress::new_xyz(0, 0, 0)), 49);
    assert_eq!(interpreter.read_cell(&FungeAddress::new_xyz(0, 1, 0)), 50);
    assert_eq!(interpreter.read_cell(&FungeAddress::new_xyz(1, 1, 0)), 32);
    assert_eq!(interpreter.read_cell(&FungeAddress::new_xyz(0, 2, 0)), 32);
}

#[test]
fn planes_are_loaded_in_three_dimensions() {
    let lines = vec![
        CodeBufferLine { data: vec![49], terminator: LineTerminator::FeedY },
        CodeBufferLine { data: vec![50], terminator: LineTerminator::FeedZ },
        CodeBufferLine { data: vec![51], terminator: LineTerminator::End },
    ];
    let code = CodeBuffer::new(lines, Vector3::new_xyz(1, 2, 2), 0);
    let source = CodeSource::new(String::from("a.tf"), Some(FungeDialect::Trefunge98));
    let mut interpreter = Trefunge::new(FungeDialect::Trefunge98, source, vec![0], vec![0, 0, 0]);
    interpreter.load_initial_code(&code);
    assert_eq!(interpreter.read_cell(&FungeAddress::new_xyz(0, 0, 0)), 49);
    assert_eq!(interpreter.read_cell(&FungeAddress::new_xyz(0, 1, 0)), 50);
    assert_eq!(interpreter.read_cell(&FungeAddress::new_xyz(0, 1, 1)), 51);
    assert_eq!(interpreter.read_cell(&FungeAddress::new_xyz(0, 0, 1)), 32);
}

#[test]
fn high_and_low_are_there_in_three_dimensions_only() {
    let source = CodeSource::new(String::from("a.tf"), Some(FungeDialect::Trefunge98));
    let mut interpreter = Trefunge::new(FungeDialect::Trefunge98, source, vec![0], vec![0, 0, 0]);
    interpreter.load_initial_code(&buffer(&["h"]));
    assert_eq!(interpreter.step(HostReply::Done), StepResult::Continue);
    let thread = interpreter.thread_mut(0).unwrap();
    assert_eq!(direction(thread), (0, 0, 1));
    assert_eq!(position(thread), (0, 0, 1));

    let mut interpreter = befunge(&["@h"]);
    interpreter.thread_mut(0).unwrap().ip.set_x(1);
    assert_eq!(interpreter.step(HostReply::Done), StepResult::Continue);
    let thread = interpreter.thread_mut(0).unwrap();
    assert_eq!(direction(thread), (-1, 0, 0));
    assert_eq!(position(thread), (0, 0, 0));
}

#[test]
fn go_away_keeps_to_the_axes() {
    for _ in 0..40 {
        let mut interpreter = befunge(&["?"]);
        assert_eq!(interpreter.step(HostReply::Done), StepResult::Continue);
        let thread = interpreter.thread_mut(0).unwrap();
        let d = direction(thread);
        assert!([(1, 0, 0), (-1, 0, 0), (0, 1, 0), (0, -1, 0)].contains(&d));
        assert_eq!(position(thread), d);
    }
}

#[test]
fn sysinfo_reaches_the_program() {
    let source = CodeSource::new(String::from("test.bf"), Some(FungeDialect::Befunge98));
    let env = Befunge::make_env_var_string(&vec![(String::from("A"), String::from("b"))]);
    let cli = Befunge::make_cli_arg_string("prog");
    let mut interpreter = Befunge::new(FungeDialect::Befunge98, source, env, cli);
    interpreter.load_initial_code(&buffer(&["7y.2y.@"]));
    let (output, finished) = run(&mut interpreter, &[], 100);
    assert!(finished);
    assert_eq!(output, b"2 4 ");
}

#[test]
fn a_held_up_tick_is_not_run_twice() {
    let mut interpreter = befunge(&["1.@"]);
    assert_eq!(interpreter.step(HostReply::Done), StepResult::Continue);
    assert_eq!(interpreter.step(HostReply::Done), StepResult::Request(HostRequest::Write));
    assert_eq!(interpreter.pending_output().as_slice(), b"1 ");
    assert_eq!(interpreter.step(HostReply::Done), StepResult::Continue);
    assert!(interpreter.pending_output().is_empty());
    assert_eq!(interpreter.step(HostReply::Done), StepResult::Continue);
    assert_eq!(interpreter.step(HostReply::Done), StepResult::Finished);
}

#[test]
fn completing_without_a_held_up_tick_changes_nothing() {
    let mut interpreter = befunge(&["1@"]);
    interpreter.complete_thread_tick(HostReply::Failed);
    let thread = interpreter.thread_mut(0).unwrap();
    assert_eq!(position(thread), (0, 0, 0));
    assert_eq!(direction(thread), (1, 0, 0));
}

#[test]
fn a_step_across_the_edge_of_the_space() {
    let mut interpreter = befunge(&[]);
    interpreter.load_code(&buffer(&["5"]), FungeAddress::new_xyz(i32::MIN, 0, 0));
    interpreter.thread_mut(0).unwrap().delta.set_xyz(i32::MIN, 0, 0);
    assert_eq!(interpreter.execute_thread_tick(0), TickResult::Completed);
    let thread = interpreter.thread_mut(0).unwrap();
    assert_eq!(toss(thread), vec![5]);
    assert_eq!(position(thread), (0, 0, 0));
    assert_eq!(direction(thread), (i32::MIN, 0, 0));
}

#[test]
fn code_is_loaded_across_the_edge_of_the_space() {
    let mut interpreter = befunge(&[]);
    interpreter.load_code(&buffer(&["ab", "c"]), FungeAddress::new_xyz(i32::MAX, i32::MAX, 0));
    assert_eq!(interpreter.read_cell(&FungeAddress::new_xyz(i32::MAX, i32::MAX, 0)), 97);
    assert_eq!(interpreter.read_cell(&FungeAddress::new_xyz(i32::MIN, i32::MAX, 0)), 98);
    assert_eq!(interpreter.read_cell(&FungeAddress::new_xyz(i32::MAX, i32::MIN, 0)), 99);
}

#[test]
fn a_pointer_walks_back_over_its_program() {
    let mut interpreter = befunge(&["12r"]);
    for _ in 0..5 {
        assert_eq!(interpreter.step(HostReply::Done), StepResult::Continue);
    }
    let thread = interpreter.thread_mut(0).unwrap();
    assert_eq!(toss(thread), vec![1, 2, 2, 1]);
    assert_eq!(direction(thread), (-1, 0, 0));
    assert_eq!(position(thread), (-1, 0, 0));
}
