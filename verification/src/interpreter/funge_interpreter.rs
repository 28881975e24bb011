use vstd::prelude::*;
use crate::funge_dialect::FungeDialect;
use crate::interpreter::fingerprint::fingerprint_inst_function::FingerprintInstFunction;
use crate::interpreter::fingerprint::standard::null_fingerprint::inst_null;
use crate::interpreter::funge_address::{FungeAddress, wrapping_sum};
use crate::interpreter::funge_dimension::FungeDimension;
use crate::interpreter::funge_space::{FungeSpace, blank_space};
use crate::interpreter::funge_space_accessor::{FungeSpaceAccessor, canonical};
use crate::interpreter::funge_stack::{below, below_top, top_of};
use crate::interpreter::funge_thread::{
    FungeThread,
    InstructionDelta,
    InstructionPointer,
    ThreadState,
};
use crate::interpreter::funge_value::{
    cell_quotient,
    cell_remainder,
    lemma_wrap_cell_sum,
    wrap_cell,
    wrapping_add_cells,
};
use crate::interpreter::instruction::alphabet_instruction_table::active_override;
use crate::interpreter::instruction::insts::{
    ClockReading,
    _reflect_delta,
    cardinal_direction,
    inst_absolute_delta,
    inst_add,
    inst_begin_block,
    inst_clear_stack,
    inst_compare,
    inst_divide,
    inst_duplicate,
    inst_east_west_if,
    inst_fetch_character,
    inst_get,
    inst_get_sysinfo_at,
    inst_go_east,
    inst_go_high,
    inst_go_low,
    inst_go_north,
    inst_go_south,
    inst_go_west,
    inst_greater_than,
    inst_high_low_if,
    inst_input_character,
    inst_jump_forward,
    inst_logical_not,
    inst_multiply,
    inst_north_south_if,
    inst_output_char,
    inst_output_integer,
    inst_pop,
    inst_push_number,
    inst_put,
    inst_reflect,
    inst_remainder,
    inst_stack_under_stack,
    inst_store_character,
    inst_subtract,
    inst_swap,
    inst_turn_left,
    inst_turn_right,
    local_time,
    random_index,
    below_two,
    block_split,
    cardinal,
    decimal,
    jumped,
    offset_cells,
    output_scalar,
    popped_vector,
    reflected,
    second_of,
    sysinfo_effect,
    turned_left,
    turned_right,
    under_stack,
};
use crate::interpreter::thread_list::ThreadList;
use crate::io::code_buffer::{CodeBuffer, LineTerminator};
use crate::io::code_loader::{LineView, line_views};
use crate::io::code_source::CodeSource;
use crate::vector::Vector3;

verus! {

/// What an instruction needs from the program around the interpreter before
/// its tick can end.
#[derive(Copy, Clone, PartialEq, Eq, Structural, Debug)]
pub enum HostRequest {
    /// The bytes that wait in the interpreter are to be written to the
    /// output.
    Write,
    /// One byte is to be read from the input.
    Read,
    /// The instruction with this number, which a fingerprint supplies, is to
    /// be carried out on the instruction pointer.
    Invoke(u32),
}

/// What the program around the interpreter answers to a request.
#[derive(Copy, Clone, PartialEq, Eq, Structural, Debug)]
pub enum HostReply {
    /// The bytes were written, or the instruction was carried out.
    Done,
    /// This byte was read.
    Byte(u8),
    /// It could not be done: the output did not take the bytes, the input
    /// has come to its end, the instruction is not known.
    Failed,
}

/// How the run goes on behind an instruction.
#[derive(Copy, Clone, PartialEq, Eq, Structural, Debug)]
pub enum Flow {
    /// The instruction pointer takes its step.
    Next,
    /// The instruction pointer is at its end and leaves.
    Stop,
    /// The program is at its end, with this exit code.
    Quit(i32),
    /// The instruction pointer waits for the program around the interpreter.
    Wait(HostRequest),
}

/// What a tick came to.
#[derive(Copy, Clone, PartialEq, Eq, Structural, Debug)]
pub enum TickResult {
    /// The instruction pointer ran an instruction and took its step.
    Completed,
    /// The instruction pointer ran the stop instruction and is gone.
    Stopped,
    /// The instruction pointer ran the quit instruction.
    Quit,
    /// The instruction pointer waits for an answer to this request.
    Waiting(HostRequest),
    /// There is nothing on the way of the instruction pointer that it could
    /// run: it stays where it is.
    Adrift,
}

/// What chance and the clock put into a tick.
pub struct Chance {
    /// The number of the direction that go away takes.
    pub direction: int,
    /// What the clock shows.
    pub clock: ClockReading,
}

impl Chance {
    /// Whether chance kept to its bounds in a space of `dims` dimensions.
    pub open spec fn is_valid(self, dims: nat) -> bool {
        0 <= self.direction < 2 * dims && self.clock.is_valid()
    }
}

/// What an instruction did.
pub struct Effect {
    pub thread: ThreadState,
    pub space: Map<(i32, i32, i32), i32>,
    pub charout: Seq<u8>,
    /// Whether the instruction was carried out. Where it was not, the
    /// instruction pointer turns round.
    pub handled: bool,
    pub flow: Flow,
}

/// How far an instruction pointer looks for its next instruction before it
/// gives up. Behind this many steps it has been everywhere on its way twice,
/// once within a comment and once without: `course::lemma_seek_limit` shows
/// that looking further finds nothing else.
pub const SEEK_LIMIT: u64 = 0x2_0000_0000;

/// How far an instruction pointer looks for the end of a run of spaces
/// before it gives up. Behind this many steps it is back where it started:
/// `course::lemma_skip_limit` shows that looking further finds nothing else.
pub const SKIP_LIMIT: u64 = 0x1_0000_0000;

/// Where the instruction pointer that stands at `pos` finds its next
/// instruction, given whether it stands within a comment: spaces and
/// comments, which semicolons enclose, are passed over. It looks at `fuel`
/// cells and finds nothing where none of them is an instruction.
pub open spec fn seek(
    space: Map<(i32, i32, i32), i32>,
    dims: nat,
    pos: (i32, i32, i32),
    delta: (i32, i32, i32),
    in_comment: bool,
    fuel: nat,
) -> Option<(i32, i32, i32)>
    decreases fuel,
{
    let cell = space[canonical(dims, pos)];
    if fuel == 0 {
        None
    } else if in_comment {
        seek(space, dims, wrapping_sum(pos, delta), delta, cell != 59, (fuel - 1) as nat)
    } else if cell == 32 {
        seek(space, dims, wrapping_sum(pos, delta), delta, false, (fuel - 1) as nat)
    } else if cell == 59 {
        seek(space, dims, wrapping_sum(pos, delta), delta, true, (fuel - 1) as nat)
    } else {
        Some(pos)
    }
}

/// The first position from `pos` on along `delta` whose cell is no space. It
/// looks at `fuel` cells and finds nothing where all of them are spaces.
pub open spec fn skip_spaces(
    space: Map<(i32, i32, i32), i32>,
    dims: nat,
    pos: (i32, i32, i32),
    delta: (i32, i32, i32),
    fuel: nat,
) -> Option<(i32, i32, i32)>
    decreases fuel,
{
    if fuel == 0 {
        None
    } else if space[canonical(dims, pos)] == 32 {
        skip_spaces(space, dims, wrapping_sum(pos, delta), delta, (fuel - 1) as nat)
    } else {
        Some(pos)
    }
}

/// An instruction that was carried out and lets the instruction pointer take
/// its step.
pub open spec fn carried_out(
    thread: ThreadState,
    space: Map<(i32, i32, i32), i32>,
    charout: Seq<u8>,
) -> Effect {
    Effect { thread, space, charout, handled: true, flow: Flow::Next }
}

/// An instruction that is not there, or not there in this space: nothing
/// changes, and the instruction pointer turns round.
pub open spec fn not_handled(
    thread: ThreadState,
    space: Map<(i32, i32, i32), i32>,
    charout: Seq<u8>,
) -> Effect {
    Effect { thread, space, charout, handled: false, flow: Flow::Next }
}

/// What the instruction `instruction` does to the instruction pointer
/// `thread` that stands on it, to the space and to the bytes that wait for
/// the output.
pub open spec fn instruction_effect(
    thread: ThreadState,
    space: Map<(i32, i32, i32), i32>,
    charout: Seq<u8>,
    instruction: i32,
    dims: nat,
    env_var_string: Seq<u8>,
    cli_arg_string: Seq<u8>,
    chance: Chance,
) -> Effect {
    let toss = thread.toss();
    let top = top_of(toss);
    let second = second_of(toss);
    let ahead = wrapping_sum(thread.ip, thread.delta);
    let flat = dims == 2 || dims == 3;
    if instruction == 33 {
        // !
        carried_out(
            thread.with_toss(
                below_top(toss).push(
                    if top == 0 {
                        1i32
                    } else {
                        0i32
                    },
                ),
            ),
            space,
            charout,
        )
    } else if instruction == 34 {
        // "
        carried_out(ThreadState { string_mode: true, ..thread }, space, charout)
    } else if instruction == 35 {
        // #
        carried_out(thread.with_ip(ahead), space, charout)
    } else if instruction == 36 {
        // $
        carried_out(thread.with_toss(below_top(toss)), space, charout)
    } else if instruction == 37 {
        // %
        carried_out(
            thread.with_toss(below_two(toss).push(cell_remainder(second, top))),
            space,
            charout,
        )
    } else if instruction == 39 {
        // '
        carried_out(
            thread.with_toss(toss.push(space[canonical(dims, ahead)])).with_ip(ahead),
            space,
            charout,
        )
    } else if instruction == 42 {
        // *
        carried_out(
            thread.with_toss(below_two(toss).push(wrap_cell(top * second))),
            space,
            charout,
        )
    } else if instruction == 43 {
        // +
        carried_out(
            thread.with_toss(below_two(toss).push(wrap_cell(top + second))),
            space,
            charout,
        )
    } else if instruction == 44 {
        // ,
        Effect {
            thread: thread.with_toss(below_top(toss)),
            space,
            charout: charout + vstd::utf8::encode_scalar(output_scalar(top)),
            handled: true,
            flow: Flow::Wait(HostRequest::Write),
        }
    } else if instruction == 45 {
        // -
        carried_out(
            thread.with_toss(below_two(toss).push(wrap_cell(second - top))),
            space,
            charout,
        )
    } else if instruction == 46 {
        // .
        Effect {
            thread: thread.with_toss(below_top(toss)),
            space,
            charout: charout + decimal(top as int).push(32u8),
            handled: true,
            flow: Flow::Wait(HostRequest::Write),
        }
    } else if instruction == 47 {
        // /
        carried_out(
            thread.with_toss(below_two(toss).push(cell_quotient(second, top))),
            space,
            charout,
        )
    } else if 48 <= instruction <= 57 {
        // 0 to 9
        carried_out(thread.with_toss(toss.push((instruction - 48) as i32)), space, charout)
    } else if instruction == 58 {
        // :
        carried_out(thread.with_toss(below_top(toss).push(top).push(top)), space, charout)
    } else if instruction == 60 {
        // <
        carried_out(thread.with_delta((-1i32, 0i32, 0i32)), space, charout)
    } else if instruction == 62 {
        // >
        carried_out(thread.with_delta((1i32, 0i32, 0i32)), space, charout)
    } else if instruction == 63 {
        // ?
        carried_out(thread.with_delta(cardinal(chance.direction)), space, charout)
    } else if instruction == 64 {
        // @
        Effect { thread, space, charout, handled: true, flow: Flow::Stop }
    } else if 65 <= instruction <= 90 {
        // A to Z
        match active_override(thread.fingerprints, instruction - 65) {
            None => not_handled(thread, space, charout),
            Some(FingerprintInstFunction::Null) => carried_out(thread, space, charout),
            Some(FingerprintInstFunction::Host(number)) => Effect {
                thread,
                space,
                charout,
                handled: true,
                flow: Flow::Wait(HostRequest::Invoke(number)),
            },
        }
    } else if instruction == 91 {
        // [
        if flat {
            carried_out(thread.with_delta(turned_left(thread.delta)), space, charout)
        } else {
            not_handled(thread, space, charout)
        }
    } else if instruction == 92 {
        // \
        carried_out(thread.with_toss(below_two(toss).push(top).push(second)), space, charout)
    } else if instruction == 93 {
        // ]
        if flat {
            carried_out(thread.with_delta(turned_right(thread.delta)), space, charout)
        } else {
            not_handled(thread, space, charout)
        }
    } else if instruction == 94 {
        // ^
        if flat {
            carried_out(thread.with_delta((0i32, -1i32, 0i32)), space, charout)
        } else {
            not_handled(thread, space, charout)
        }
    } else if instruction == 95 {
        // _
        carried_out(
            thread.with_toss(below_top(toss)).with_delta(
                if top == 0 {
                    (1i32, 0i32, 0i32)
                } else {
                    (-1i32, 0i32, 0i32)
                },
            ),
            space,
            charout,
        )
    } else if instruction == 96 {
        // `
        carried_out(
            thread.with_toss(
                below_two(toss).push(
                    if second > top {
                        1i32
                    } else {
                        0i32
                    },
                ),
            ),
            space,
            charout,
        )
    } else if 97 <= instruction <= 102 {
        // a to f
        carried_out(thread.with_toss(toss.push((instruction - 87) as i32)), space, charout)
    } else if instruction == 103 {
        // g
        carried_out(
            thread.with_toss(
                below(toss, dims).push(
                    space[canonical(
                        dims,
                        wrapping_sum(popped_vector(toss, dims), thread.storage_offset),
                    )],
                ),
            ),
            space,
            charout,
        )
    } else if instruction == 104 {
        // h
        if dims == 3 {
            carried_out(thread.with_delta((0i32, 0i32, 1i32)), space, charout)
        } else {
            not_handled(thread, space, charout)
        }
    } else if instruction == 106 {
        // j
        carried_out(
            thread.with_toss(below_top(toss)).with_ip(jumped(thread.ip, thread.delta, top)),
            space,
            charout,
        )
    } else if instruction == 108 {
        // l
        if dims == 3 {
            carried_out(thread.with_delta((0i32, 0i32, -1i32)), space, charout)
        } else {
            not_handled(thread, space, charout)
        }
    } else if instruction == 109 {
        // m
        if dims == 3 {
            carried_out(
                thread.with_toss(below_top(toss)).with_delta(
                    if top == 0 {
                        (0i32, 0i32, -1i32)
                    } else {
                        (0i32, 0i32, 1i32)
                    },
                ),
                space,
                charout,
            )
        } else {
            not_handled(thread, space, charout)
        }
    } else if instruction == 110 {
        // n
        carried_out(thread.with_toss(Seq::empty()), space, charout)
    } else if instruction == 112 {
        // p
        carried_out(
            thread.with_toss(below(toss, dims + 1)),
            space.insert(
                canonical(dims, wrapping_sum(popped_vector(toss, dims), thread.storage_offset)),
                top_of(below(toss, dims)),
            ),
            charout,
        )
    } else if instruction == 113 {
        // q
        Effect {
            thread: thread.with_toss(below_top(toss)),
            space,
            charout,
            handled: true,
            flow: Flow::Quit(top),
        }
    } else if instruction == 114 {
        // r
        carried_out(thread.with_delta(reflected(thread.delta)), space, charout)
    } else if instruction == 115 {
        // s
        carried_out(
            thread.with_toss(below_top(toss)),
            space.insert(canonical(dims, ahead), top),
            charout,
        )
    } else if instruction == 117 {
        // u
        if thread.stacks.len() < 2 {
            carried_out(thread.with_delta(reflected(thread.delta)), space, charout)
        } else {
            carried_out(
                ThreadState {
                    stacks: thread.stacks.update(
                        0,
                        under_stack(below_top(toss), thread.stacks[1], top).0,
                    ).update(1, under_stack(below_top(toss), thread.stacks[1], top).1),
                    ..thread
                },
                space,
                charout,
            )
        }
    } else if instruction == 118 {
        // v
        if flat {
            carried_out(thread.with_delta((0i32, 1i32, 0i32)), space, charout)
        } else {
            not_handled(thread, space, charout)
        }
    } else if instruction == 119 {
        // w
        if flat {
            carried_out(
                thread.with_toss(below_two(toss)).with_delta(
                    if second < top {
                        turned_left(thread.delta)
                    } else if second > top {
                        turned_right(thread.delta)
                    } else {
                        thread.delta
                    },
                ),
                space,
                charout,
            )
        } else {
            not_handled(thread, space, charout)
        }
    } else if instruction == 120 {
        // x
        carried_out(
            thread.with_toss(below(toss, dims)).with_delta(popped_vector(toss, dims)),
            space,
            charout,
        )
    } else if instruction == 121 {
        // y
        carried_out(
            sysinfo_effect(thread, dims, chance.clock, env_var_string, cli_arg_string),
            space,
            charout,
        )
    } else if instruction == 122 {
        // z
        carried_out(thread, space, charout)
    } else if instruction == 123 {
        // {
        carried_out(
            ThreadState {
                stacks: seq![block_split(below_top(toss), top).0] + thread.stacks.update(
                    0,
                    block_split(below_top(toss), top).1 + offset_cells(thread.storage_offset, dims),
                ),
                storage_offset: ahead,
                ..thread
            },
            space,
            charout,
        )
    } else if instruction == 124 {
        // |
        if flat {
            carried_out(
                thread.with_toss(below_top(toss)).with_delta(
                    if top == 0 {
                        (0i32, 1i32, 0i32)
                    } else {
                        (0i32, -1i32, 0i32)
                    },
                ),
                space,
                charout,
            )
        } else {
            not_handled(thread, space, charout)
        }
    } else if instruction == 126 {
        // ~
        Effect { thread, space, charout, handled: true, flow: Flow::Wait(HostRequest::Read) }
    } else {
        not_handled(thread, space, charout)
    }
}

/// Carries out the instruction `instruction` on the instruction pointer
/// `thread` that stands on it. What chance and the clock put in is handed in:
/// the number of the direction that go away takes, and what the clock shows.
///
/// Tells whether the instruction was carried out, and how the run goes on.
pub fn execute_instruction<N, A>(
    thread: &mut FungeThread,
    funge_space: &mut FungeSpace<N, i32, A>,
    charout: &mut Vec<u8>,
    instruction: i32,
    env_var_string: &[u8],
    cli_arg_string: &[u8],
    direction: usize,
    clock: &ClockReading,
) -> (outcome: (bool, Flow)) where N: FungeDimension, A: FungeSpaceAccessor<N, i32>
    requires
        direction < 2 * N::dimensions(),
    ensures
        (Effect {
            thread: final(thread)@,
            space: final(funge_space)@,
            charout: final(charout)@,
            handled: outcome.0,
            flow: outcome.1,
        }) == instruction_effect(
            old(thread)@,
            old(funge_space)@,
            old(charout)@,
            instruction,
            N::dimensions(),
            env_var_string@,
            cli_arg_string@,
            Chance { direction: direction as int, clock: *clock },
        ),
{
    proof {
        thread.stack_stack.lemma_never_empty();
        N::lemma_dimensions();
    }
    // Get dims
    let dims = A::dimensionality();
    let mut valid_instruction = true;
    let mut flow = Flow::Next;
    if instruction < 65 {
        match instruction {
            /* ! */
            33 => inst_logical_not(thread),
            /* " */
            34 => {
                // Enable string mode
                thread.string_mode = true;
            },
            /* # */
            35 => thread.ip.add_delta_wrapping(&thread.delta),
            /* $ */
            36 => inst_pop(thread),
            /* % */
            37 => inst_remainder(thread),
            /* ' */
            39 => inst_fetch_character(thread, funge_space),
            /* * */
            42 => inst_multiply(thread),
            /* + */
            43 => inst_add(thread),
            /* , */
            44 => {
                inst_output_char(thread, charout);
                flow = Flow::Wait(HostRequest::Write);
            },
            /* - */
            45 => inst_subtract(thread),
            /* . */
            46 => {
                inst_output_integer(thread, charout);
                flow = Flow::Wait(HostRequest::Write);
            },
            /* / */
            47 => inst_divide(thread),
            /* 0...9 */
            48 | 49 | 50 | 51 | 52 | 53 | 54 | 55 | 56 | 57 => inst_push_number(
                thread,
                instruction - 48,
            ),
            /* : */
            58 => inst_duplicate(thread),
            /* < */
            60 => inst_go_west(thread),
            /* > */
            62 => inst_go_east(thread),
            /* ? */
            63 => {
                thread.delta = cardinal_direction(direction);
            },
            /* @ */
            64 => {
                flow = Flow::Stop;
            },
            _ => {
                // Invalid (or unimplemented) instruction so set flag
                valid_instruction = false
            },
        }
    } else if instruction <= 90 {
        /* A...Z */
        match thread.alphabet_inst_table.find_inst((instruction - 65) as u32) {
            Some(FingerprintInstFunction::Null) => inst_null(thread),
            Some(FingerprintInstFunction::Host(number)) => {
                flow = Flow::Wait(HostRequest::Invoke(number));
            },
            None => {
                valid_instruction = false;
            },
        }
    } else if instruction < 110 {
        match instruction {
            /* [ */
            91 => valid_instruction = inst_turn_left(thread, dims),
            /* \ */
            92 => inst_swap(thread),
            /* ] */
            93 => valid_instruction = inst_turn_right(thread, dims),
            /* ^ */
            94 => valid_instruction = inst_go_north(thread, dims),
            /* _ */
            95 => inst_east_west_if(thread),
            /* ` */
            96 => inst_greater_than(thread),
            /* a...f */
            97 | 98 | 99 | 100 | 101 | 102 => inst_push_number(thread, instruction - 87),
            /* g */
            103 => inst_get(thread, funge_space, dims),
            /* h */
            104 => valid_instruction = inst_go_high(thread, dims),
            /* j */
            106 => inst_jump_forward(thread),
            /* l */
            108 => valid_instruction = inst_go_low(thread, dims),
            /* m */
            109 => valid_instruction = inst_high_low_if(thread, dims),
            _ => {
                valid_instruction = false
            },
        }
    } else {
        match instruction {
            /* n */
            110 => inst_clear_stack(thread),
            /* p */
            112 => inst_put(thread, funge_space, dims),
            /* q */
            113 => {
                let code = thread.stack_stack.pop();
                flow = Flow::Quit(code);
            },
            /* r */
            114 => inst_reflect(thread),
            /* s */
            115 => inst_store_character(thread, funge_space),
            /* u */
            117 => inst_stack_under_stack(thread),
            /* v */
            118 => valid_instruction = inst_go_south(thread, dims),
            /* w */
            119 => valid_instruction = inst_compare(thread, dims),
            /* x */
            120 => inst_absolute_delta(thread, dims),
            /* y */
            121 => inst_get_sysinfo_at(thread, dims, clock, env_var_string, cli_arg_string),
            /* z */
            122 => {  /* No-op */
            },
            /* { */
            123 => inst_begin_block(thread, dims),
            /* | */
            124 => valid_instruction = inst_north_south_if(thread, dims),
            /* ~ */
            126 => {
                flow = Flow::Wait(HostRequest::Read);
            },
            _ => {
                valid_instruction = false
            },
        }
    }
    (valid_instruction, flow)
}

/// What one tick does to an instruction pointer, to the space and to the
/// bytes that wait for the output. Where the instruction pointer is adrift
/// there is no flow, and nothing has changed.
pub struct TickEffect {
    pub thread: ThreadState,
    pub space: Map<(i32, i32, i32), i32>,
    pub charout: Seq<u8>,
    pub flow: Option<Flow>,
}

/// The instruction pointer one step on.
pub open spec fn advanced(thread: ThreadState) -> ThreadState {
    thread.with_ip(wrapping_sum(thread.ip, thread.delta))
}

/// What one tick does to the instruction pointer `thread`.
///
/// Within a string, a space leads to the next cell that is no space, the
/// quote ends the string, and any other cell is pushed. Else the instruction
/// pointer passes over spaces and comments to its next instruction and
/// carries it out; where the instruction was not carried out it turns round;
/// then it takes its step, unless it waits or leaves.
#[verifier::opaque]
pub open spec fn thread_tick(
    thread: ThreadState,
    space: Map<(i32, i32, i32), i32>,
    charout: Seq<u8>,
    dims: nat,
    env_var_string: Seq<u8>,
    cli_arg_string: Seq<u8>,
    chance: Chance,
) -> TickEffect {
    let ahead = wrapping_sum(thread.ip, thread.delta);
    let cell = space[canonical(dims, thread.ip)];
    if thread.string_mode {
        if cell == 32 {
            match skip_spaces(space, dims, ahead, thread.delta, SKIP_LIMIT as nat) {
                Some(pos) => TickEffect {
                    thread: thread.with_ip(pos),
                    space,
                    charout,
                    flow: Some(Flow::Next),
                },
                None => TickEffect { thread, space, charout, flow: None },
            }
        } else if cell == 34 {
            TickEffect {
                thread: ThreadState { string_mode: false, ..thread }.with_ip(ahead),
                space,
                charout,
                flow: Some(Flow::Next),
            }
        } else {
            TickEffect {
                thread: thread.with_toss(thread.toss().push(cell)).with_ip(ahead),
                space,
                charout,
                flow: Some(Flow::Next),
            }
        }
    } else {
        match seek(space, dims, thread.ip, thread.delta, false, SEEK_LIMIT as nat) {
            None => TickEffect { thread, space, charout, flow: None },
            Some(pos) => {
                let effect = instruction_effect(
                    thread.with_ip(pos),
                    space,
                    charout,
                    space[canonical(dims, pos)],
                    dims,
                    env_var_string,
                    cli_arg_string,
                    chance,
                );
                let turned = if effect.handled {
                    effect.thread
                } else {
                    effect.thread.with_delta(reflected(effect.thread.delta))
                };
                TickEffect {
                    thread: match effect.flow {
                        Flow::Next => advanced(turned),
                        Flow::Quit(_) => advanced(turned),
                        _ => turned,
                    },
                    space: effect.space,
                    charout: effect.charout,
                    flow: Some(effect.flow),
                }
            },
        }
    }
}

/// Looks for the first cell from `ip` on along `delta` that is no space.
fn skip_spaces_from<N, A>(
    funge_space: &FungeSpace<N, i32, A>,
    ip: InstructionPointer,
    delta: &InstructionDelta,
) -> (found: Option<InstructionPointer>) where N: FungeDimension, A: FungeSpaceAccessor<N, i32>
    ensures
        found is Some <==> skip_spaces(
            funge_space@,
            N::dimensions(),
            ip@,
            delta@,
            SKIP_LIMIT as nat,
        ) is Some,
        found is Some ==> found->0@ == skip_spaces(
            funge_space@,
            N::dimensions(),
            ip@,
            delta@,
            SKIP_LIMIT as nat,
        )->0,
{
    let mut pos = ip;
    let mut fuel: u64 = SKIP_LIMIT;
    while fuel > 0
        invariant
            fuel <= SKIP_LIMIT,
            skip_spaces(funge_space@, N::dimensions(), ip@, delta@, SKIP_LIMIT as nat)
                == skip_spaces(funge_space@, N::dimensions(), pos@, delta@, fuel as nat),
        decreases fuel,
    {
        if funge_space.read_cell(&pos) != 32 {
            return Some(pos);
        }
        pos.add_delta_wrapping(delta);
        fuel = fuel - 1;
    }
    None
}

/// Looks for the next instruction from `ip` on along `delta`, passing over
/// spaces and comments.
fn seek_instruction<N, A>(
    funge_space: &FungeSpace<N, i32, A>,
    ip: InstructionPointer,
    delta: &InstructionDelta,
) -> (found: Option<InstructionPointer>) where N: FungeDimension, A: FungeSpaceAccessor<N, i32>
    ensures
        found is Some <==> seek(
            funge_space@,
            N::dimensions(),
            ip@,
            delta@,
            false,
            SEEK_LIMIT as nat,
        ) is Some,
        found is Some ==> found->0@ == seek(
            funge_space@,
            N::dimensions(),
            ip@,
            delta@,
            false,
            SEEK_LIMIT as nat,
        )->0,
{
    let mut pos = ip;
    let mut in_comment = false;
    let mut fuel: u64 = SEEK_LIMIT;
    while fuel > 0
        invariant
            fuel <= SEEK_LIMIT,
            seek(funge_space@, N::dimensions(), ip@, delta@, false, SEEK_LIMIT as nat) == seek(
                funge_space@,
                N::dimensions(),
                pos@,
                delta@,
                in_comment,
                fuel as nat,
            ),
        decreases fuel,
    {
        // Read instruction cell
        let instruction = funge_space.read_cell(&pos);
        if in_comment {
            in_comment = instruction != 59;
        } else if instruction == 59 {
            in_comment = true;
        } else if instruction != 32 {
            return Some(pos);
        }
        pos.add_delta_wrapping(delta);
        fuel = fuel - 1;
    }
    None
}

/// A reading for the ticks that do not look at the clock.
pub open spec fn spec_no_clock() -> ClockReading {
    ClockReading { year: 1970, month: 1, day: 1, hour: 0, minute: 0, second: 0 }
}

/// A reading for the ticks that do not look at the clock.
fn no_clock() -> (clock: ClockReading)
    ensures
        clock == spec_no_clock(),
        clock.is_valid(),
{
    ClockReading { year: 1970, month: 1, day: 1, hour: 0, minute: 0, second: 0 }
}

/// Gives the instruction pointer `thread` its tick.
///
/// Tells how the run goes on, or nothing where the instruction pointer is
/// adrift.
fn tick_thread<N, A>(
    thread: &mut FungeThread,
    funge_space: &mut FungeSpace<N, i32, A>,
    charout: &mut Vec<u8>,
    env_var_string: &[u8],
    cli_arg_string: &[u8],
) -> (flow: Option<Flow>) where N: FungeDimension, A: FungeSpaceAccessor<N, i32>
    ensures
        exists|chance: Chance|
            chance.is_valid(N::dimensions()) && (TickEffect {
                thread: final(thread)@,
                space: final(funge_space)@,
                charout: final(charout)@,
                flow,
            }) == #[trigger] thread_tick(
                old(thread)@,
                old(funge_space)@,
                old(charout)@,
                N::dimensions(),
                env_var_string@,
                cli_arg_string@,
                chance,
            ),
{
    proof {
        thread.stack_stack.lemma_never_empty();
        N::lemma_dimensions();
        reveal(thread_tick);
    }
    let ghost before = thread@;
    let ghost space = funge_space@;
    let ghost bytes = charout@;
    let dims = A::dimensionality();
    if !thread.string_mode {
        match seek_instruction(funge_space, thread.ip, &thread.delta) {
            None => {
                let ghost chance = Chance { direction: 0, clock: spec_no_clock() };
                assert(chance.is_valid(N::dimensions()));
                assert((TickEffect { thread: thread@, space, charout: bytes, flow: None })
                    == thread_tick(
                    before,
                    space,
                    bytes,
                    N::dimensions(),
                    env_var_string@,
                    cli_arg_string@,
                    chance,
                ));
                None
            },
            Some(pos) => {
                // Set thread ip to next instruction
                thread.ip = pos;
                let instruction = funge_space.read_cell(&pos);
                let direction = if instruction == 63 {
                    random_index(2 * dims as usize)
                } else {
                    0
                };
                let clock = if instruction == 121 {
                    local_time()
                } else {
                    no_clock()
                };
                let ghost chance = Chance { direction: direction as int, clock };

                // Execute instruction
                let (valid_instruction, flow) = execute_instruction(
                    thread,
                    funge_space,
                    charout,
                    instruction,
                    env_var_string,
                    cli_arg_string,
                    direction,
                    &clock,
                );

                // If an invalid instruction was encountered, act as reflect
                if !valid_instruction {
                    _reflect_delta(&mut thread.delta);
                }
                // Move ip by delta

                match flow {
                    Flow::Next => thread.ip.add_delta_wrapping(&thread.delta),
                    Flow::Quit(_) => thread.ip.add_delta_wrapping(&thread.delta),
                    _ => {},
                }
                assert(chance.is_valid(N::dimensions()));
                assert((TickEffect {
                    thread: thread@,
                    space: funge_space@,
                    charout: charout@,
                    flow: Some(flow),
                }) == thread_tick(
                    before,
                    space,
                    bytes,
                    N::dimensions(),
                    env_var_string@,
                    cli_arg_string@,
                    chance,
                ));
                Some(flow)
            },
        }
    } else {
        // If in string mode
        // Read instruction cell
        let instruction = funge_space.read_cell(&thread.ip);
        let ghost chance = Chance { direction: 0, clock: spec_no_clock() };
        assert(chance.is_valid(N::dimensions()));

        let flow = match instruction {
            /* space */
            32 => {
                // Search for next non-space instruction
                let mut pos = thread.ip;
                pos.add_delta_wrapping(&thread.delta);
                match skip_spaces_from(funge_space, pos, &thread.delta) {
                    Some(pos) => {
                        // Set thread ip to next non-space instruction
                        thread.ip = pos;
                        Some(Flow::Next)
                    },
                    None => None,
                }
            },
            /* " */
            34 => {
                // Disable string mode
                thread.string_mode = false;

                // Advance ip
                thread.ip.add_delta_wrapping(&thread.delta);
                Some(Flow::Next)
            },
            _ => {
                // Push char as value onto the stack
                thread.stack_stack.push(instruction);

                // Advance ip
                thread.ip.add_delta_wrapping(&thread.delta);
                Some(Flow::Next)
            },
        };
        assert((TickEffect { thread: thread@, space, charout: bytes, flow }) == thread_tick(
            before,
            space,
            bytes,
            N::dimensions(),
            env_var_string@,
            cli_arg_string@,
            chance,
        ));
        flow
    }
}

/// What an interpreter is at one moment.
pub struct InterpreterState {
    /// The instruction pointers in the order in which they run.
    pub threads: Seq<ThreadState>,
    /// The cells of funge space.
    pub space: Map<(i32, i32, i32), i32>,
    /// The bytes that wait to be written to the output.
    pub charout: Seq<u8>,
    /// The exit code that the program asked for, once it has quit.
    pub exit_code: Option<i32>,
    /// The number of the instruction pointer whose tick is held up, and what
    /// it waits for.
    pub waiting: Option<(int, HostRequest)>,
    /// The number of the instruction pointer that runs next in this round.
    pub cursor: int,
    /// The dialect that the interpreter runs.
    pub dialect: FungeDialect,
    pub env_var_string: Seq<u8>,
    pub cli_arg_string: Seq<u8>,
}

impl InterpreterState {
    /// The number of instruction pointers, as far as 32 bits can tell it.
    pub open spec fn live(self) -> int {
        self.threads.len() as int % 0x1_0000_0000
    }

    /// Whether the run is over: the program has quit, or no instruction
    /// pointer is left.
    pub open spec fn is_finished(self) -> bool {
        self.exit_code is Some || self.live() == 0
    }
}

/// What one tick of the instruction pointer with the number `index` makes of
/// the interpreter, and what the tick came to.
#[verifier::opaque]
pub open spec fn tick_spec(
    state: InterpreterState,
    index: int,
    dims: nat,
    chance: Chance,
) -> (InterpreterState, TickResult) {
    let effect = thread_tick(
        state.threads[index],
        state.space,
        state.charout,
        dims,
        state.env_var_string,
        state.cli_arg_string,
        chance,
    );
    let ticked = InterpreterState {
        threads: state.threads.update(index, effect.thread),
        space: effect.space,
        charout: effect.charout,
        ..state
    };
    match effect.flow {
        None => (state, TickResult::Adrift),
        Some(Flow::Next) => (ticked, TickResult::Completed),
        Some(Flow::Quit(code)) => (
            InterpreterState { exit_code: Some(code), ..ticked },
            TickResult::Quit,
        ),
        Some(Flow::Stop) => (
            InterpreterState { threads: state.threads.remove(index), ..ticked },
            TickResult::Stopped,
        ),
        Some(Flow::Wait(request)) => (
            InterpreterState { waiting: Some((index, request)), ..ticked },
            TickResult::Waiting(request),
        ),
    }
}

/// What the answer `reply` makes of the instruction pointer `thread` that
/// waited for `request`, before it takes its step: a byte that was read is
/// pushed; where the request was not met the instruction pointer turns round.
pub open spec fn answered(thread: ThreadState, request: HostRequest, reply: HostReply) -> ThreadState {
    match (request, reply) {
        (HostRequest::Write, HostReply::Done) => thread,
        (HostRequest::Invoke(_), HostReply::Done) => thread,
        (HostRequest::Read, HostReply::Byte(byte)) => thread.with_toss(
            thread.toss().push(byte as i32),
        ),
        _ => thread.with_delta(reflected(thread.delta)),
    }
}

/// What the answer `reply` makes of the interpreter: the tick that was held
/// up comes to its end, and no bytes wait for the output any more. Where no
/// tick was held up nothing changes.
pub open spec fn complete_spec(state: InterpreterState, reply: HostReply) -> InterpreterState {
    match state.waiting {
        None => state,
        Some((index, request)) => {
            if 0 <= index < state.threads.len() {
                InterpreterState {
                    threads: state.threads.update(
                        index,
                        advanced(answered(state.threads[index], request, reply)),
                    ),
                    charout: Seq::empty(),
                    waiting: None,
                    ..state
                }
            } else {
                InterpreterState { charout: Seq::empty(), waiting: None, ..state }
            }
        },
    }
}

/// What a step of the scheduler came to.
#[derive(Copy, Clone, PartialEq, Eq, Structural, Debug)]
pub enum StepResult {
    /// The run goes on with the next step.
    Continue,
    /// The run goes on once this request is answered.
    Request(HostRequest),
    /// The run is over.
    Finished,
}

/// What one step of the scheduler makes of the interpreter.
///
/// A run that is over stays as it is. A tick that is held up comes to its
/// end with `reply`, and the next instruction pointer is in line. Else the
/// instruction pointer in line gets its tick; behind the last one the first
/// one is in line again. An instruction pointer that leaves makes room for
/// the one behind it, and the quit instruction ends the run at once.
pub open spec fn step_spec(
    state: InterpreterState,
    reply: HostReply,
    dims: nat,
    chance: Chance,
) -> (InterpreterState, StepResult) {
    if state.is_finished() {
        (state, StepResult::Finished)
    } else if state.waiting is Some {
        (
            InterpreterState {
                cursor: wrap_cursor(state.cursor + 1),
                ..complete_spec(state, reply)
            },
            StepResult::Continue,
        )
    } else {
        let index = if 0 <= state.cursor < state.live() {
            state.cursor
        } else {
            0
        };
        let ticked = tick_spec(state, index, dims, chance);
        match ticked.1 {
            TickResult::Completed => (
                InterpreterState { cursor: wrap_cursor(index + 1), ..ticked.0 },
                StepResult::Continue,
            ),
            TickResult::Adrift => (
                InterpreterState { cursor: wrap_cursor(index + 1), ..ticked.0 },
                StepResult::Continue,
            ),
            TickResult::Stopped => (
                InterpreterState { cursor: index, ..ticked.0 },
                StepResult::Continue,
            ),
            TickResult::Quit => (
                InterpreterState { cursor: index, ..ticked.0 },
                StepResult::Finished,
            ),
            TickResult::Waiting(request) => (
                InterpreterState { cursor: index, ..ticked.0 },
                StepResult::Request(request),
            ),
        }
    }
}

/// The number of an instruction pointer, kept within 32 bits.
pub open spec fn wrap_cursor(cursor: int) -> int {
    cursor % 0x1_0000_0000
}

/// The cell that a code point of a program becomes.
pub open spec fn codepoint_cell(raw: u32) -> i32 {
    wrap_cell(raw as int)
}

/// The space once the first `count` cells of a line were loaded into it, the
/// first at `row` and each at the next address along the first dimension.
/// Spaces in the line leave the cells as they are.
pub open spec fn line_loaded(
    space: Map<(i32, i32, i32), i32>,
    dims: nat,
    data: Seq<u32>,
    row: (i32, i32, i32),
    count: int,
) -> Map<(i32, i32, i32), i32>
    decreases count,
{
    if count <= 0 {
        space
    } else {
        let before = line_loaded(space, dims, data, row, count - 1);
        if codepoint_cell(data[count - 1]) == 32 {
            before
        } else {
            before.insert(
                canonical(dims, (wrap_cell(row.0 + (count - 1)), row.1, row.2)),
                codepoint_cell(data[count - 1]),
            )
        }
    }
}

/// The offset of the line that follows a line with the offset `offset` and
/// the end `terminator`.
pub open spec fn next_offset(offset: (i32, i32, i32), terminator: LineTerminator) -> (
    i32,
    i32,
    i32,
) {
    match terminator {
        LineTerminator::FeedY => (offset.0, wrap_cell(offset.1 + 1), offset.2),
        LineTerminator::FeedZ => (offset.0, offset.1, wrap_cell(offset.2 + 1)),
        LineTerminator::End => offset,
    }
}

/// The space once the lines from `from` on were loaded into it, the first of
/// them at `position` moved by `offset`. A line that ends the program is the
/// last one that is loaded.
pub open spec fn code_loaded(
    space: Map<(i32, i32, i32), i32>,
    dims: nat,
    lines: Seq<LineView>,
    position: (i32, i32, i32),
    offset: (i32, i32, i32),
    from: int,
) -> Map<(i32, i32, i32), i32>
    decreases lines.len() - from,
{
    if from < 0 || from >= lines.len() {
        space
    } else {
        let written = line_loaded(
            space,
            dims,
            lines[from].data,
            wrapping_sum(position, offset),
            lines[from].data.len() as int,
        );
        if lines[from].terminator == LineTerminator::End {
            written
        } else {
            code_loaded(
                written,
                dims,
                lines,
                position,
                next_offset(offset, lines[from].terminator),
                from + 1,
            )
        }
    }
}

/// Whether two spaces, `first` and `second`, and what became of them,
/// `first_after` and `second_after`, fit the same writes as far as the
/// address `at` goes: either the cell was written, and holds the same in
/// both, or it was not, and is as it was in both.
pub open spec fn same_writes(
    first: Map<(i32, i32, i32), i32>,
    second: Map<(i32, i32, i32), i32>,
    first_after: Map<(i32, i32, i32), i32>,
    second_after: Map<(i32, i32, i32), i32>,
    at: (i32, i32, i32),
) -> bool {
    ||| (first_after.contains_key(at) && second_after.contains_key(at) && first_after[at]
        == second_after[at])
    ||| (first_after.contains_key(at) == first.contains_key(at) && second_after.contains_key(at)
        == second.contains_key(at) && first_after[at] == first[at] && second_after[at]
        == second[at])
}

/// Loading a line writes the same cells whatever the space held before.
pub proof fn lemma_line_same_writes(
    first: Map<(i32, i32, i32), i32>,
    second: Map<(i32, i32, i32), i32>,
    dims: nat,
    data: Seq<u32>,
    row: (i32, i32, i32),
    count: int,
    at: (i32, i32, i32),
)
    ensures
        same_writes(
            first,
            second,
            line_loaded(first, dims, data, row, count),
            line_loaded(second, dims, data, row, count),
            at,
        ),
    decreases count,
{
    if count > 0 {
        lemma_line_same_writes(first, second, dims, data, row, count - 1, at);
    }
}

/// Loading a program writes the same cells whatever the space held before.
pub proof fn lemma_code_same_writes(
    first: Map<(i32, i32, i32), i32>,
    second: Map<(i32, i32, i32), i32>,
    dims: nat,
    lines: Seq<LineView>,
    position: (i32, i32, i32),
    offset: (i32, i32, i32),
    from: int,
    at: (i32, i32, i32),
)
    ensures
        same_writes(
            first,
            second,
            code_loaded(first, dims, lines, position, offset, from),
            code_loaded(second, dims, lines, position, offset, from),
            at,
        ),
    decreases lines.len() - from,
{
    if 0 <= from < lines.len() {
        let row = wrapping_sum(position, offset);
        let count = lines[from].data.len() as int;
        let first_written = line_loaded(first, dims, lines[from].data, row, count);
        let second_written = line_loaded(second, dims, lines[from].data, row, count);
        lemma_line_same_writes(first, second, dims, lines[from].data, row, count, at);
        if lines[from].terminator != LineTerminator::End {
            lemma_code_same_writes(
                first_written,
                second_written,
                dims,
                lines,
                position,
                next_offset(offset, lines[from].terminator),
                from + 1,
                at,
            );
        }
    }
}

/// Loading is idempotent: a program that is loaded a second time at the same
/// place leaves the space as the first loading left it.
pub proof fn lemma_load_idempotent(
    space: Map<(i32, i32, i32), i32>,
    dims: nat,
    lines: Seq<LineView>,
    position: (i32, i32, i32),
)
    ensures
        code_loaded(
            code_loaded(space, dims, lines, position, (0i32, 0i32, 0i32), 0),
            dims,
            lines,
            position,
            (0i32, 0i32, 0i32),
            0,
        ) == code_loaded(space, dims, lines, position, (0i32, 0i32, 0i32), 0),
{
    let once = code_loaded(space, dims, lines, position, (0i32, 0i32, 0i32), 0);
    let twice = code_loaded(once, dims, lines, position, (0i32, 0i32, 0i32), 0);
    assert forall|at: (i32, i32, i32)|
        #![trigger once.dom().contains(at)]
        #![trigger twice.dom().contains(at)]
        once.dom().contains(at) == twice.dom().contains(at) && (once.dom().contains(at)
            ==> once[at] == twice[at]) by {
        lemma_code_same_writes(space, once, dims, lines, position, (0i32, 0i32, 0i32), 0, at);
    }
    assert(once =~= twice);
}

/// The cell that agrees with the index `x` modulo 2^32.
fn wrap_index(x: usize) -> (c: i32)
    ensures
        c == wrap_cell(x as int),
{
    let low = (x as u128 % 0x1_0000_0000) as i64;
    if low > 0x7FFF_FFFF {
        (low - 0x1_0000_0000) as i32
    } else {
        low as i32
    }
}

/// The cell that a code point of a program becomes.
fn cell_of_codepoint(raw: u32) -> (c: i32)
    ensures
        c == codepoint_cell(raw),
{
    if raw > 0x7FFF_FFFF {
        (raw as i64 - 0x1_0000_0000) as i32
    } else {
        raw as i32
    }
}

/// Interpreter for funge*.
/// Instances directly contain the interpretation state.
///
/// The interpreter does no input and no output. An instruction that needs
/// either holds its tick up with a request; the program around the
/// interpreter meets the request and hands in its answer, and the tick comes
/// to its end.
pub struct FungeInterpreter<N, A> where N: FungeDimension, A: FungeSpaceAccessor<N, i32> {
    threads: ThreadList,
    funge_space: FungeSpace<N, i32, A>,
    dialect_mode: FungeDialect,
    code_source: CodeSource,
    /// The bytes that wait to be written to the output.
    charout: Vec<u8>,
    /// The instruction pointer whose tick is held up, and what it waits for.
    waiting: Option<(u32, HostRequest)>,
    /// The instruction pointer that runs next in this round.
    cursor: u32,
    programatically_quit: bool,
    quit_exit_code: i32,
    /// A single null terminated env var string with null terminated "name=value" variables
    env_var_string: Vec<u8>,
    /// A double null terminated cli arg string with null terminated strings
    cli_arg_string: Vec<u8>,
}

impl<N, A> View for FungeInterpreter<N, A> where N: FungeDimension, A: FungeSpaceAccessor<N, i32> {
    type V = InterpreterState;

    closed spec fn view(&self) -> InterpreterState {
        InterpreterState {
            threads: self.threads@,
            space: self.funge_space@,
            charout: self.charout@,
            exit_code: if self.programatically_quit {
                Some(self.quit_exit_code)
            } else {
                None
            },
            waiting: match self.waiting {
                Some((index, request)) => Some((index as int, request)),
                None => None,
            },
            cursor: self.cursor as int,
            dialect: self.dialect_mode,
            env_var_string: self.env_var_string@,
            cli_arg_string: self.cli_arg_string@,
        }
    }
}

impl<N, A> FungeInterpreter<N, A> where N: FungeDimension, A: FungeSpaceAccessor<N, i32> {
    /// An interpreter with an empty space and one instruction pointer, which
    /// stands at the origin and goes east. The two strings are what the
    /// program gets to see of the environment and of the command line.
    pub fn new(
        dialect: FungeDialect,
        code_source: CodeSource,
        env_var_string: Vec<u8>,
        cli_arg_string: Vec<u8>,
    ) -> (interpreter: Self)
        ensures
            interpreter@ == (InterpreterState {
                threads: seq![
                    ThreadState {
                        ip: (0i32, 0i32, 0i32),
                        delta: (1i32, 0i32, 0i32),
                        stacks: seq![Seq::<i32>::empty()],
                        fingerprints: Seq::empty(),
                        storage_offset: (0i32, 0i32, 0i32),
                        string_mode: false,
                    },
                ],
                space: blank_space::<i32>(N::dimensions()),
                charout: Seq::empty(),
                exit_code: None,
                waiting: None,
                cursor: 0,
                dialect,
                env_var_string: env_var_string@,
                cli_arg_string: cli_arg_string@,
            }),
    {
        // Instantiate
        let mut interpreter = FungeInterpreter {
            threads: ThreadList::new(),
            funge_space: FungeSpace::new(),
            dialect_mode: dialect,
            code_source,
            charout: Vec::new(),
            waiting: None,
            cursor: 0,
            programatically_quit: false,
            quit_exit_code: 0,
            env_var_string,
            cli_arg_string,
        };

        // Create initial thread
        interpreter.create_thread(Vector3::new_value(0), Vector3::new_xyz(1, 0, 0));
        assert(interpreter@.threads =~= seq![
            ThreadState {
                ip: (0i32, 0i32, 0i32),
                delta: (1i32, 0i32, 0i32),
                stacks: seq![Seq::<i32>::empty()],
                fingerprints: Seq::empty(),
                storage_offset: (0i32, 0i32, 0i32),
                string_mode: false,
            },
        ]);

        return interpreter;
    }

    /// The exit code that the program asked for with the quit instruction,
    /// if it has run one.
    pub fn get_programmatic_exit_code(&self) -> (code: Option<i32>)
        ensures
            code == self@.exit_code,
    {
        if self.programatically_quit {
            return Some(self.quit_exit_code);
        } else {
            return None;
        }
    }

    /// The bytes that wait to be written to the output.
    pub fn pending_output(&self) -> (bytes: &Vec<u8>)
        ensures
            bytes@ == self@.charout,
    {
        &self.charout
    }

    /// The number of instruction pointers, as far as 32 bits can tell it.
    pub fn num_threads(&self) -> (n: u32)
        ensures
            n == self@.live(),
    {
        self.threads.num()
    }

    /// The instruction pointer with the number `index`, for reading and
    /// writing, if there is one.
    pub fn thread_mut(&mut self, index: u32) -> (thread: Option<&mut FungeThread>)
        ensures
            index >= old(self)@.threads.len() ==> thread is None && final(self)@ == old(self)@,
            index < old(self)@.threads.len() ==> thread is Some && thread->0@ == old(
                self,
            )@.threads[index as int] && final(self)@ == (InterpreterState {
                threads: old(self)@.threads.update(index as int, final(thread->0)@),
                ..old(self)@
            }),
    {
        self.threads.get_mut(index)
    }

    /// The value of the cell at `address`.
    pub fn read_cell(&self, address: &FungeAddress) -> (cell: i32)
        ensures
            cell == self@.space[canonical(N::dimensions(), address@)],
    {
        self.funge_space.read_cell(address)
    }

    /// Gives the instruction pointer with the number `thread_index` its
    /// tick. Where the tick is held up, it ends with
    /// `complete_thread_tick`.
    #[inline]
    pub fn execute_thread_tick(&mut self, thread_index: u32) -> (result: TickResult)
        requires
            thread_index < old(self)@.threads.len(),
        ensures
            exists|chance: Chance|
                chance.is_valid(N::dimensions()) && (final(self)@, result) == #[trigger] tick_spec(
                    old(self)@,
                    thread_index as int,
                    N::dimensions(),
                    chance,
                ),
    {
        let ghost before = self@;
        let thread = self.threads.get_mut(thread_index).unwrap();
        let flow = tick_thread(
            thread,
            &mut self.funge_space,
            &mut self.charout,
            self.env_var_string.as_slice(),
            self.cli_arg_string.as_slice(),
        );
        let ghost chance = choose|chance: Chance|
            chance.is_valid(N::dimensions()) && (TickEffect {
                thread: thread@,
                space: self.funge_space@,
                charout: self.charout@,
                flow,
            }) == #[trigger] thread_tick(
                before.threads[thread_index as int],
                before.space,
                before.charout,
                N::dimensions(),
                before.env_var_string,
                before.cli_arg_string,
                chance,
            );
        let result = match flow {
            None => TickResult::Adrift,
            Some(Flow::Next) => TickResult::Completed,
            Some(Flow::Quit(code)) => {
                self.programatically_quit = true;
                self.quit_exit_code = code;
                TickResult::Quit
            },
            Some(Flow::Stop) => {
                self.threads.remove(thread_index);
                TickResult::Stopped
            },
            Some(Flow::Wait(request)) => {
                self.waiting = Some((thread_index, request));
                TickResult::Waiting(request)
            },
        };
        proof {
            reveal(tick_spec);
            let effect = thread_tick(
                before.threads[thread_index as int],
                before.space,
                before.charout,
                N::dimensions(),
                before.env_var_string,
                before.cli_arg_string,
                chance,
            );
            assert(effect.flow == flow);
            assert(effect.space == self@.space);
            assert(effect.charout == self@.charout);
            let spec = tick_spec(before, thread_index as int, N::dimensions(), chance);
            assert(spec.1 == result);
            if flow is None {
                reveal(thread_tick);
                assert(effect.thread == before.threads[thread_index as int]);
            }
            assert(self@.threads =~= spec.0.threads);
            assert(self@ == spec.0);
        }
        result
    }

    /// Brings the tick that is held up to its end, given the answer to its
    /// request. Where no tick is held up nothing changes.
    pub fn complete_thread_tick(&mut self, reply: HostReply)
        ensures
            final(self)@ == complete_spec(old(self)@, reply),
    {
        let ghost before = self@;
        match self.waiting {
            None => {},
            Some((index, request)) => {
                self.waiting = None;
                self.charout.clear();
                match self.threads.get_mut(index) {
                    None => {},
                    Some(thread) => {
                        proof {
                            thread.stack_stack.lemma_never_empty();
                        }
                        match (request, reply) {
                            (HostRequest::Write, HostReply::Done) => {},
                            (HostRequest::Invoke(_), HostReply::Done) => {},
                            (HostRequest::Read, HostReply::Byte(byte)) => inst_input_character(
                                thread,
                                Some(byte),
                            ),
                            // Act as `r` if the request failed
                            _ => _reflect_delta(&mut thread.delta),
                        }
                        // Move ip by delta
                        thread.ip.add_delta_wrapping(&thread.delta);
                    },
                }
                assert(self@.threads =~= complete_spec(before, reply).threads);
            },
        }
    }

    /// One step of the run: the tick that is held up comes to its end with
    /// `reply`, or else the instruction pointer in line gets its tick.
    ///
    /// The program around the interpreter calls this in a loop until the run
    /// is over, and meets the requests that come back.
    pub fn step(&mut self, reply: HostReply) -> (result: StepResult)
        ensures
            exists|chance: Chance|
                chance.is_valid(N::dimensions()) && (final(self)@, result) == #[trigger] step_spec(
                    old(self)@,
                    reply,
                    N::dimensions(),
                    chance,
                ),
    {
        let ghost before = self@;
        proof {
            N::lemma_dimensions();
        }
        let ghost idle = Chance { direction: 0, clock: spec_no_clock() };
        let num = self.threads.num();
        if self.programatically_quit || num == 0 {
            assert((self@, StepResult::Finished) == step_spec(
                before,
                reply,
                N::dimensions(),
                idle,
            ));
            return StepResult::Finished;
        }
        if self.waiting.is_some() {
            self.complete_thread_tick(reply);
            self.cursor = self.cursor.wrapping_add(1);
            assert((self@, StepResult::Continue) == step_spec(
                before,
                reply,
                N::dimensions(),
                idle,
            ));
            return StepResult::Continue;
        }
        let index = if self.cursor < num {
            self.cursor
        } else {
            0
        };
        let ticked = self.execute_thread_tick(index);
        let ghost chance = choose|chance: Chance|
            chance.is_valid(N::dimensions()) && (self@, ticked) == #[trigger] tick_spec(
                before,
                index as int,
                N::dimensions(),
                chance,
            );
        let result = match ticked {
            TickResult::Completed => {
                self.cursor = index.wrapping_add(1);
                StepResult::Continue
            },
            TickResult::Adrift => {
                self.cursor = index.wrapping_add(1);
                StepResult::Continue
            },
            TickResult::Stopped => {
                self.cursor = index;
                StepResult::Continue
            },
            TickResult::Quit => {
                self.cursor = index;
                StepResult::Finished
            },
            TickResult::Waiting(request) => {
                self.cursor = index;
                StepResult::Request(request)
            },
        };
        assert((self@, result) == step_spec(before, reply, N::dimensions(), chance));
        result
    }

    /// Loads the code from the given buffer into funge space, with the origin
    /// as the top left corner of the code.
    pub fn load_initial_code(&mut self, code: &CodeBuffer)
        ensures
            final(self)@ == (InterpreterState {
                space: code_loaded(
                    old(self)@.space,
                    N::dimensions(),
                    line_views(code.lines@),
                    (0i32, 0i32, 0i32),
                    (0i32, 0i32, 0i32),
                    0,
                ),
                ..old(self)@
            }),
    {
        self.load_code(code, FungeAddress::new_xyz(0, 0, 0));
    }

    /// Loads the code from the given buffer into this interpreters
    /// funge space where the given position is the top left corner
    /// of the code's bounding box.
    ///
    /// The cell values in the buffer are copied verbatim into the funge space,
    /// overwriting the previous values. Space characters (ASCII 32)
    /// in the code buffer are treated as essentially transparent.
    /// They do not overwrite cells in the funge space and are simply
    /// ignored, leaving the previous value intact.
    ///
    /// This method traverses and processes the code buffer lines until either
    /// none are left or a line has an End terminator. Note that and End terminator
    /// should never occur until the very last code buffer line, although
    /// the existance of an End terminator is optional. In case an End
    /// terminator does occur before the last line, the loading procedure
    /// is simply stopped.
    pub fn load_code(&mut self, code: &CodeBuffer, position: FungeAddress)
        ensures
            final(self)@ == (InterpreterState {
                space: code_loaded(
                    old(self)@.space,
                    N::dimensions(),
                    line_views(code.lines@),
                    position@,
                    (0i32, 0i32, 0i32),
                    0,
                ),
                ..old(self)@
            }),
    {
        let ghost before = self@;
        let ghost lines = line_views(code.lines@);
        let ghost dims = N::dimensions();
        let mut offset = FungeAddress::new_value(0);

        let mut i: usize = 0;
        let count = code.lines.len();
        while i < count
            invariant_except_break
                i <= count,
                code_loaded(before.space, dims, lines, position@, (0i32, 0i32, 0i32), 0)
                    == code_loaded(self@.space, dims, lines, position@, offset@, i as int),
            invariant
                count == code.lines@.len(),
                lines == line_views(code.lines@),
                dims == N::dimensions(),
                self@ == (InterpreterState { space: self@.space, ..before }),
            ensures
                self@.space == code_loaded(
                    before.space,
                    dims,
                    lines,
                    position@,
                    (0i32, 0i32, 0i32),
                    0,
                ),
            decreases count - i,
        {
            let line = &code.lines[i];
            let ghost start = self@.space;
            let mut row = FungeAddress::new_xyz(position.x(), position.y(), position.z());
            row.add_wrapping(&offset);
            assert(lines[i as int] == line@);

            // Put line values into funge space
            let mut x: usize = 0;
            let width = line.data.len();
            while x < width
                invariant
                    x <= width,
                    width == line.data@.len(),
                    dims == N::dimensions(),
                    self@ == (InterpreterState { space: self@.space, ..before }),
                    self@.space == line_loaded(start, dims, line.data@, row@, x as int),
                decreases width - x,
            {
                let cell_value = cell_of_codepoint(line.data[x]);  // Reinterpret u32 codepoint as i32 cell value

                // Only overwrite cell if code cell is not a space (32)
                if cell_value != 32 {
                    let address = FungeAddress::new_xyz(
                        wrapping_add_cells(row.x(), wrap_index(x)),
                        row.y(),
                        row.z(),
                    );
                    proof {
                        lemma_wrap_cell_sum(row.x() as int, x as int);
                    }

                    // Write cell
                    self.funge_space.write_cell(&address, cell_value);
                }
                x = x + 1;
            }

            // Process terminator
            match line.terminator {
                LineTerminator::FeedY => {
                    let y = wrapping_add_cells(offset.y(), 1);
                    offset.set_y(y);
                },
                LineTerminator::FeedZ => {
                    let z = wrapping_add_cells(offset.z(), 1);
                    offset.set_z(z);
                },
                LineTerminator::End => {
                    break ;
                },  // Stop iteration on End terminator
            }
            i = i + 1;
        }
    }

    /// Adds an instruction pointer at `ip` that moves by `delta`. It runs
    /// behind those that are there.
    pub fn create_thread(&mut self, ip: InstructionPointer, delta: InstructionDelta)
        ensures
            final(self)@ == (InterpreterState {
                threads: old(self)@.threads.push(
                    ThreadState {
                        ip: ip@,
                        delta: delta@,
                        stacks: seq![Seq::<i32>::empty()],
                        fingerprints: Seq::empty(),
                        storage_offset: (0i32, 0i32, 0i32),
                        string_mode: false,
                    },
                ),
                ..old(self)@
            }),
    {
        let thread = FungeThread::new(ip, delta);
        self.threads.test_add(thread);
    }

    /// Adds an instruction pointer at `ip` that moves by `delta`. It runs
    /// behind those that are there.
    pub fn start_thread(&mut self, ip: InstructionPointer, delta: InstructionDelta)
        ensures
            final(self)@ == (InterpreterState {
                threads: old(self)@.threads.push(
                    ThreadState {
                        ip: ip@,
                        delta: delta@,
                        stacks: seq![Seq::<i32>::empty()],
                        fingerprints: Seq::empty(),
                        storage_offset: (0i32, 0i32, 0i32),
                        string_mode: false,
                    },
                ),
                ..old(self)@
            }),
    {
        self.create_thread(ip, delta);
    }
}

/// The block that tells a program of the environment: for each variable its
/// name, an equals sign, its value and a zero byte, and one more zero byte at
/// the end.
pub open spec fn env_block(vars: Seq<(Seq<char>, Seq<char>)>) -> Seq<u8> {
    env_entries(vars).push(0u8)
}

/// The entries of the block that tells a program of the environment.
pub open spec fn env_entries(vars: Seq<(Seq<char>, Seq<char>)>) -> Seq<u8>
    decreases vars.len(),
{
    if vars.len() == 0 {
        Seq::empty()
    } else {
        env_entries(vars.drop_last()) + vstd::utf8::encode_utf8(vars.last().0).push(61u8)
            + vstd::utf8::encode_utf8(vars.last().1).push(0u8)
    }
}

/// The variables as pairs of texts.
pub open spec fn var_texts(vars: Seq<(String, String)>) -> Seq<(Seq<char>, Seq<char>)> {
    Seq::new(vars.len(), |i: int| (vars[i].0@, vars[i].1@))
}

/// Appends `bytes` to `block`.
fn append_bytes(block: &mut Vec<u8>, bytes: &[u8])
    ensures
        final(block)@ == old(block)@ + bytes@,
{
    let mut i: usize = 0;
    assert(block@ =~= old(block)@ + bytes@.take(0));
    while i < bytes.len()
        invariant
            i <= bytes@.len(),
            block@ == old(block)@ + bytes@.take(i as int),
        decreases bytes@.len() - i,
    {
        block.push(bytes[i]);
        i = i + 1;
        assert(block@ =~= old(block)@ + bytes@.take(i as int));
    }
    assert(bytes@.take(bytes@.len() as int) =~= bytes@);
}

/// The block that tells a program of its command line, which is the name of
/// the program alone: the name and three zero bytes.
pub open spec fn cli_arg_block(program_name: Seq<char>) -> Seq<u8> {
    vstd::utf8::encode_utf8(program_name).push(0u8).push(0u8).push(0u8)
}

impl<N, A> FungeInterpreter<N, A> where N: FungeDimension, A: FungeSpaceAccessor<N, i32> {
    /// Makes the block that tells a program of the environment out of the
    /// variables `vars`, each a name and a value.
    pub fn make_env_var_string(vars: &Vec<(String, String)>) -> (block: Vec<u8>)
        ensures
            block@ == env_block(var_texts(vars@)),
    {
        // Allocate string
        let mut string = Vec::<u8>::with_capacity(1024);
        let ghost texts = var_texts(vars@);

        // Iterate over env vars
        let mut i: usize = 0;
        assert(texts.take(0) =~= Seq::empty());
        while i < vars.len()
            invariant
                i <= vars@.len(),
                texts == var_texts(vars@),
                string@ == env_entries(texts.take(i as int)),
            decreases vars@.len() - i,
        {
            let name_slice = vars[i].0.as_str().as_bytes();
            let value_slice = vars[i].1.as_str().as_bytes();
            let ghost before = string@;

            // Push in format "name=value\0"
            append_bytes(&mut string, name_slice);
            string.push(61);
            append_bytes(&mut string, value_slice);
            string.push(0);
            proof {
                assert(texts.take(i + 1).drop_last() =~= texts.take(i as int));
                assert(texts.take(i + 1).last() == texts[i as int]);
                assert(string@ =~= before + vstd::utf8::encode_utf8(texts[i as int].0).push(61u8)
                    + vstd::utf8::encode_utf8(texts[i as int].1).push(0u8));
            }
            i = i + 1;
        }
        assert(texts.take(vars@.len() as int) =~= texts);

        // Null terminate entire string
        string.push(0);
        return string;
    }

    /// Makes the block that tells a program of its command line.
    pub fn make_cli_arg_string(program_name: &str) -> (block: Vec<u8>)
        ensures
            block@ == cli_arg_block(program_name@),
    {
        let mut cli_arg_string: Vec<u8> = Vec::new();
        append_bytes(&mut cli_arg_string, program_name.as_bytes());
        cli_arg_string.push(0);  // Null terminate program name
        cli_arg_string.push(0);
        cli_arg_string.push(0);  // Double null terminate arg string
        assert(cli_arg_string@ =~= cli_arg_block(program_name@));
        cli_arg_string
    }
}

} // verus!
