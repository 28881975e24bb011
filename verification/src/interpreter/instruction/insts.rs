use vstd::prelude::*;
use crate::interpreter::funge_address::{FungeAddress, wrapping_sum};
use crate::interpreter::funge_dimension::FungeDimension;
use crate::interpreter::funge_space::FungeSpace;
use crate::interpreter::funge_space_accessor::{FungeSpaceAccessor, canonical};
use crate::interpreter::funge_stack::{FungeStack, below, below_top, popped, top_of, zeros};
use crate::interpreter::funge_thread::{FungeThread, InstructionDelta, InstructionPointer, ThreadState};
use crate::interpreter::funge_value::{
    cell_quotient,
    cell_remainder,
    divide_cells,
    lemma_wrap_cell_sum,
    remainder_cells,
    wrap_cell,
    wrapping_add_cells,
    wrapping_mul_cells,
    wrapping_neg_cell,
    wrapping_sub_cells,
};

use chrono::{Datelike, Timelike};
use rand::Rng;

verus! {

/// The value that the second of two pops yields from a stack that holds `s`.
pub open spec fn second_of(s: Seq<i32>) -> i32 {
    top_of(below_top(s))
}

/// What two pops leave of a stack that holds `s`.
pub open spec fn below_two(s: Seq<i32>) -> Seq<i32> {
    below_top(below_top(s))
}

/// The step that leads the other way, each component overflowing silently.
pub open spec fn reflected(delta: (i32, i32, i32)) -> (i32, i32, i32) {
    (wrap_cell(-delta.0), wrap_cell(-delta.1), wrap_cell(-delta.2))
}

/// The step turned by a quarter to the right in the plane of the first two
/// dimensions.
pub open spec fn turned_right(delta: (i32, i32, i32)) -> (i32, i32, i32) {
    (wrap_cell(-delta.1), delta.0, delta.2)
}

/// The step turned by a quarter to the left in the plane of the first two
/// dimensions.
pub open spec fn turned_left(delta: (i32, i32, i32)) -> (i32, i32, i32) {
    (delta.1, wrap_cell(-delta.0), delta.2)
}

/// 33: Logical not (!)
#[inline(always)]
pub fn inst_logical_not(thread: &mut FungeThread)
    ensures
        final(thread)@ == old(thread)@.with_toss(
            below_top(old(thread)@.toss()).push(
                if top_of(old(thread)@.toss()) == 0 {
                    1i32
                } else {
                    0i32
                },
            ),
        ),
{
    let cell = thread.stack_stack.pop();
    thread.stack_stack.push(if cell == 0 { 1 } else { 0 });
    assert(thread@.stacks =~= old(thread)@.with_toss(
        below_top(old(thread)@.toss()).push(
            if top_of(old(thread)@.toss()) == 0 {
                1i32
            } else {
                0i32
            },
        ),
    ).stacks);
}

/// 37: Remainder (%)
///
/// Pushes what is left over when the second value from the top is divided by
/// the top value, and zero where the top value is zero.
#[inline(always)]
pub fn inst_remainder(thread: &mut FungeThread)
    ensures
        final(thread)@ == old(thread)@.with_toss(
            below_two(old(thread)@.toss()).push(
                cell_remainder(second_of(old(thread)@.toss()), top_of(old(thread)@.toss())),
            ),
        ),
{
    let (a, b) = thread.stack_stack.pop_two();

    // Calculate the remainder of the division of the values with explicit overflow wrapping
    let c = remainder_cells(b, a);  // Remainder from dividing second by first
    thread.stack_stack.push(c);
    assert(thread@.stacks =~= old(thread)@.stacks.update(
        0,
        below_two(old(thread)@.toss()).push(c),
    ));
}

/// 39: Fetch character (')
///
/// Pushes the value of the next cell on the way and moves on to it, so that
/// the cell is not run as an instruction.
#[inline(always)]
pub fn inst_fetch_character<N, A>(thread: &mut FungeThread, funge_space: &FungeSpace<N, i32, A>) where
    N: FungeDimension,
    A: FungeSpaceAccessor<N, i32>,

    ensures
        final(thread)@ == old(thread)@.with_toss(
            old(thread)@.toss().push(
                funge_space@[canonical(
                    N::dimensions(),
                    wrapping_sum(old(thread)@.ip, old(thread)@.delta),
                )],
            ),
        ).with_ip(wrapping_sum(old(thread)@.ip, old(thread)@.delta)),
{
    // Get next pos
    let mut pos: FungeAddress = thread.ip;
    pos.add_wrapping(&thread.delta);

    // Load character value at pos
    let char = funge_space.read_cell(&pos);

    // Push onto stack
    thread.stack_stack.push(char);

    // Set ip to pos (so it gets moved again after this function and skips over the read character cell)
    thread.ip = pos;
}

/// 115: Store character (s)
///
/// Pops a value and stores it in the next cell on the way.
#[inline(always)]
pub fn inst_store_character<N, A>(
    thread: &mut FungeThread,
    funge_space: &mut FungeSpace<N, i32, A>,
) where N: FungeDimension, A: FungeSpaceAccessor<N, i32>
    ensures
        final(thread)@ == old(thread)@.with_toss(below_top(old(thread)@.toss())),
        final(funge_space)@ == old(funge_space)@.insert(
            canonical(N::dimensions(), wrapping_sum(old(thread)@.ip, old(thread)@.delta)),
            top_of(old(thread)@.toss()),
        ),
{
    // Get next pos
    let mut pos: FungeAddress = thread.ip;
    pos.add_wrapping(&thread.delta);

    // Pop char value
    let value = thread.stack_stack.pop();

    // Store in funge space
    funge_space.write_cell(&pos, value);
}

/// 42: Multiply (*)
#[inline(always)]
pub fn inst_multiply(thread: &mut FungeThread)
    ensures
        final(thread)@ == old(thread)@.with_toss(
            below_two(old(thread)@.toss()).push(
                wrap_cell(top_of(old(thread)@.toss()) * second_of(old(thread)@.toss())),
            ),
        ),
{
    let (a, b) = thread.stack_stack.pop_two();

    // Mutliply the values with explicit overflow wrapping
    let c = wrapping_mul_cells(a, b);
    thread.stack_stack.push(c);
    assert(thread@.stacks =~= old(thread)@.stacks.update(
        0,
        below_two(old(thread)@.toss()).push(c),
    ));
}

/// 43: Add (+)
#[inline(always)]
pub fn inst_add(thread: &mut FungeThread)
    ensures
        final(thread)@ == old(thread)@.with_toss(
            below_two(old(thread)@.toss()).push(
                wrap_cell(top_of(old(thread)@.toss()) + second_of(old(thread)@.toss())),
            ),
        ),
{
    let (a, b) = thread.stack_stack.pop_two();

    // Add the values with explicit overflow wrapping
    let c = wrapping_add_cells(a, b);
    thread.stack_stack.push(c);
    assert(thread@.stacks =~= old(thread)@.stacks.update(
        0,
        below_two(old(thread)@.toss()).push(c),
    ));
}

/// 45: Subtract (-)
///
/// Pushes the second value from the top less the top value.
#[inline(always)]
pub fn inst_subtract(thread: &mut FungeThread)
    ensures
        final(thread)@ == old(thread)@.with_toss(
            below_two(old(thread)@.toss()).push(
                wrap_cell(second_of(old(thread)@.toss()) - top_of(old(thread)@.toss())),
            ),
        ),
{
    let (a, b) = thread.stack_stack.pop_two();

    // Subtract the values with explicit overflow wrapping
    let c = wrapping_sub_cells(b, a);  // Subtract first from second
    thread.stack_stack.push(c);
    assert(thread@.stacks =~= old(thread)@.stacks.update(
        0,
        below_two(old(thread)@.toss()).push(c),
    ));
}

/// 47: Divide (/)
///
/// Pushes the second value from the top divided by the top value, and zero
/// where the top value is zero.
#[inline(always)]
pub fn inst_divide(thread: &mut FungeThread)
    ensures
        final(thread)@ == old(thread)@.with_toss(
            below_two(old(thread)@.toss()).push(
                cell_quotient(second_of(old(thread)@.toss()), top_of(old(thread)@.toss())),
            ),
        ),
{
    let (a, b) = thread.stack_stack.pop_two();

    // Divide the values with explicit overflow wrapping
    let c = divide_cells(b, a);  // Divide second by first
    thread.stack_stack.push(c);
    assert(thread@.stacks =~= old(thread)@.stacks.update(
        0,
        below_two(old(thread)@.toss()).push(c),
    ));
}

/// 48...57: Push Zero, .., Push Niner (0, .., 9)
#[inline(always)]
pub fn inst_push_number(thread: &mut FungeThread, number: i32)
    ensures
        final(thread)@ == old(thread)@.with_toss(old(thread)@.toss().push(number)),
{
    thread.stack_stack.push(number);
}

/// 58: Duplicate (:)
#[inline(always)]
pub fn inst_duplicate(thread: &mut FungeThread)
    ensures
        final(thread)@ == old(thread)@.with_toss(
            below_top(old(thread)@.toss()).push(top_of(old(thread)@.toss())).push(
                top_of(old(thread)@.toss()),
            ),
        ),
{
    let cell = thread.stack_stack.pop();
    thread.stack_stack.push(cell);
    thread.stack_stack.push(cell);
    assert(thread@.stacks =~= old(thread)@.stacks.update(
        0,
        below_top(old(thread)@.toss()).push(cell).push(cell),
    ));
}

/// 60: Go west (<)
#[inline(always)]
pub fn inst_go_west(thread: &mut FungeThread)
    ensures
        final(thread)@ == old(thread)@.with_delta((-1i32, 0i32, 0i32)),
{
    // Set delta
    thread.delta = InstructionDelta::new_xyz(-1, 0, 0);
}

/// 62: Go east (>)
#[inline(always)]
pub fn inst_go_east(thread: &mut FungeThread)
    ensures
        final(thread)@ == old(thread)@.with_delta((1i32, 0i32, 0i32)),
{
    // Set delta
    thread.delta = InstructionDelta::new_xyz(1, 0, 0);
}

/// 94: Go north (^)
///
/// There is a north in two and three dimensions. Elsewhere nothing changes and
/// the answer is false.
#[inline(always)]
pub fn inst_go_north(thread: &mut FungeThread, dims: u32) -> (handled: bool)
    ensures
        handled == (dims == 2 || dims == 3),
        handled ==> final(thread)@ == old(thread)@.with_delta((0i32, -1i32, 0i32)),
        !handled ==> final(thread)@ == old(thread)@,
{
    match dims {
        1 => return false,
        2 | 3 => {
            // Set delta
            thread.delta = InstructionDelta::new_xyz(0, -1, 0);
            return true;
        },
        _ => return false,
    }
}

/// 118: Go south (v)
///
/// There is a south in two and three dimensions. Elsewhere nothing changes and
/// the answer is false.
#[inline(always)]
pub fn inst_go_south(thread: &mut FungeThread, dims: u32) -> (handled: bool)
    ensures
        handled == (dims == 2 || dims == 3),
        handled ==> final(thread)@ == old(thread)@.with_delta((0i32, 1i32, 0i32)),
        !handled ==> final(thread)@ == old(thread)@,
{
    match dims {
        1 => return false,
        2 | 3 => {
            // Set delta
            thread.delta = InstructionDelta::new_xyz(0, 1, 0);
            return true;
        },
        _ => return false,
    }
}

/// 95: East west if (_)
///
/// Pops a value and goes east where it is zero, and west where it is not.
#[inline(always)]
pub fn inst_east_west_if(thread: &mut FungeThread)
    ensures
        final(thread)@ == old(thread)@.with_toss(below_top(old(thread)@.toss())).with_delta(
            if top_of(old(thread)@.toss()) == 0 {
                (1i32, 0i32, 0i32)
            } else {
                (-1i32, 0i32, 0i32)
            },
        ),
{
    let value = thread.stack_stack.pop();

    // If zero, go east (>)
    if value == 0 {
        thread.delta = InstructionDelta::new_xyz(1, 0, 0);
    }
    // If non-zero, go west (<)
     else {
        thread.delta = InstructionDelta::new_xyz(-1, 0, 0);
    }
}

/// 124: North south if (|)
///
/// In two and three dimensions: pops a value and goes south where it is zero,
/// and north where it is not. Elsewhere nothing changes and the answer is
/// false.
#[inline(always)]
pub fn inst_north_south_if(thread: &mut FungeThread, dims: u32) -> (handled: bool)
    ensures
        handled == (dims == 2 || dims == 3),
        handled ==> final(thread)@ == old(thread)@.with_toss(
            below_top(old(thread)@.toss()),
        ).with_delta(
            if top_of(old(thread)@.toss()) == 0 {
                (0i32, 1i32, 0i32)
            } else {
                (0i32, -1i32, 0i32)
            },
        ),
        !handled ==> final(thread)@ == old(thread)@,
{
    match dims {
        1 => return false,
        2 | 3 => {
            let value = thread.stack_stack.pop();

            // If zero, go south (v)
            if value == 0 {
                thread.delta = InstructionDelta::new_xyz(0, 1, 0);
            }
            // If non-zero, go north (^)
             else {
                thread.delta = InstructionDelta::new_xyz(0, -1, 0);
            }
            return true;
        },
        _ => return false,
    }
}

/// 96: Greater than (`)
///
/// Pushes one where the second value from the top is greater than the top
/// value, and zero where it is not.
#[inline(always)]
pub fn inst_greater_than(thread: &mut FungeThread)
    ensures
        final(thread)@ == old(thread)@.with_toss(
            below_two(old(thread)@.toss()).push(
                if second_of(old(thread)@.toss()) > top_of(old(thread)@.toss()) {
                    1i32
                } else {
                    0i32
                },
            ),
        ),
{
    let (first, second) = thread.stack_stack.pop_two();
    let c: i32 = if second > first { 1 } else { 0 };
    thread.stack_stack.push(c);
    assert(thread@.stacks =~= old(thread)@.stacks.update(
        0,
        below_two(old(thread)@.toss()).push(c),
    ));
}

/// 36: Pop ($)
#[inline(always)]
pub fn inst_pop(thread: &mut FungeThread)
    ensures
        final(thread)@ == old(thread)@.with_toss(below_top(old(thread)@.toss())),
{
    // Pop value from cell and discard
    thread.stack_stack.pop();
}

/// 92: Swap (\)
#[inline(always)]
pub fn inst_swap(thread: &mut FungeThread)
    ensures
        final(thread)@ == old(thread)@.with_toss(
            below_two(old(thread)@.toss()).push(top_of(old(thread)@.toss())).push(
                second_of(old(thread)@.toss()),
            ),
        ),
{
    let (a, b) = thread.stack_stack.pop_two();
    thread.stack_stack.push(a);
    thread.stack_stack.push(b);
    assert(thread@.stacks =~= old(thread)@.stacks.update(
        0,
        below_two(old(thread)@.toss()).push(a).push(b),
    ));
}

/// The vector that an instruction takes off a stack that holds `s`: as many
/// values as there are dimensions, the last component on top.
pub open spec fn popped_vector(s: Seq<i32>, dims: nat) -> (i32, i32, i32) {
    if dims == 1 {
        (top_of(s), 0, 0)
    } else if dims == 2 {
        (second_of(s), top_of(s), 0)
    } else {
        (top_of(below_two(s)), second_of(s), top_of(s))
    }
}

/// Pops from a stack one after another is the same as taking the values off at
/// once.
pub proof fn lemma_below_steps(s: Seq<i32>, n: nat)
    ensures
        below(s, 0) == s,
        below_top(below(s, n)) == below(s, n + 1),
        top_of(below(s, n)) == popped(s, n + 1)[n as int],
{
    assert(below(s, 0) =~= s);
    assert(below_top(below(s, n)) =~= below(s, n + 1));
}

/// Takes a vector of `dims` components off `toss`.
#[inline(always)]
pub fn _pop_vector(toss: &mut FungeStack, dims: u32) -> (vector: FungeAddress)
    requires
        1 <= dims <= 3,
    ensures
        vector@ == popped_vector(old(toss)@, dims as nat),
        final(toss)@ == below(old(toss)@, dims as nat),
{
    proof {
        lemma_below_steps(toss@, 0);
        lemma_below_steps(toss@, 1);
        lemma_below_steps(toss@, 2);
    }
    let vector = match dims {
        // 1D
        1 => {
            let x = toss.pop();
            FungeAddress::new_xyz(x, 0, 0)
        },
        // 2D
        2 => {
            let y = toss.pop();
            let x = toss.pop();
            FungeAddress::new_xyz(x, y, 0)
        },
        // 3D
        _ => {
            let z = toss.pop();
            let y = toss.pop();
            let x = toss.pop();
            FungeAddress::new_xyz(x, y, z)
        },
    };
    vector
}

/// 103: Get (g)
///
/// Takes a vector off the top stack and pushes the value of the cell that
/// lies by that vector from the storage offset.
#[inline(always)]
pub fn inst_get<N, A>(thread: &mut FungeThread, funge_space: &FungeSpace<N, i32, A>, dims: u32) where
    N: FungeDimension,
    A: FungeSpaceAccessor<N, i32>,

    requires
        1 <= dims <= 3,
    ensures
        final(thread)@ == old(thread)@.with_toss(
            below(old(thread)@.toss(), dims as nat).push(
                funge_space@[canonical(
                    N::dimensions(),
                    wrapping_sum(
                        popped_vector(old(thread)@.toss(), dims as nat),
                        old(thread)@.storage_offset,
                    ),
                )],
            ),
        ),
{
    let storage_offset = thread.get_storage_offset();

    // Pop vector
    let toss = thread.stack_stack.top_stack();
    let mut position = _pop_vector(toss, dims);

    // Add storage offset
    position.add_wrapping(&storage_offset);

    // Read and push cell
    let cell = funge_space.read_cell(&position);
    toss.push(cell);
}

/// The position that lies `count` steps of `delta` from `ip`, each component
/// overflowing silently.
pub open spec fn jumped(ip: (i32, i32, i32), delta: (i32, i32, i32), count: i32) -> (
    i32,
    i32,
    i32,
) {
    (
        wrap_cell(ip.0 + delta.0 * count),
        wrap_cell(ip.1 + delta.1 * count),
        wrap_cell(ip.2 + delta.2 * count),
    )
}

/// 106: Jump forward (j)
///
/// Pops a count and moves the instruction pointer that many steps on. The
/// step that follows every instruction comes on top of that.
#[inline(always)]
pub fn inst_jump_forward(thread: &mut FungeThread)
    ensures
        final(thread)@ == old(thread)@.with_toss(below_top(old(thread)@.toss())).with_ip(
            jumped(old(thread)@.ip, old(thread)@.delta, top_of(old(thread)@.toss())),
        ),
{
    // Note that the ip is moved by this instruction but it is also incremented
    // normally after the instruction is executed: Funge-98 wants it so.
    let count = thread.stack_stack.pop();

    // Move ip
    let d = thread.delta;
    let ip = thread.ip;
    proof {
        lemma_wrap_cell_sum(ip.x() as int, d.x() * count);
        lemma_wrap_cell_sum(ip.y() as int, d.y() * count);
        lemma_wrap_cell_sum(ip.z() as int, d.z() * count);
    }
    thread.ip = InstructionPointer::new_xyz(
        wrapping_add_cells(ip.x(), wrapping_mul_cells(d.x(), count)),
        wrapping_add_cells(ip.y(), wrapping_mul_cells(d.y(), count)),
        wrapping_add_cells(ip.z(), wrapping_mul_cells(d.z(), count)),
    );
}

/// 104: Go high (h)
///
/// There is a height in three dimensions only. Elsewhere nothing changes and
/// the answer is false.
#[inline(always)]
pub fn inst_go_high(thread: &mut FungeThread, dims: u32) -> (handled: bool)
    ensures
        handled == (dims == 3),
        handled ==> final(thread)@ == old(thread)@.with_delta((0i32, 0i32, 1i32)),
        !handled ==> final(thread)@ == old(thread)@,
{
    return match dims {
        3 => {
            // Set delta
            thread.delta = InstructionDelta::new_xyz(0, 0, 1);
            true
        },
        _ => false,
    };
}

/// 108: Go low (l)
///
/// There is a depth in three dimensions only. Elsewhere nothing changes and
/// the answer is false.
#[inline(always)]
pub fn inst_go_low(thread: &mut FungeThread, dims: u32) -> (handled: bool)
    ensures
        handled == (dims == 3),
        handled ==> final(thread)@ == old(thread)@.with_delta((0i32, 0i32, -1i32)),
        !handled ==> final(thread)@ == old(thread)@,
{
    match dims {
        3 => {
            // Set delta
            thread.delta = InstructionDelta::new_xyz(0, 0, -1);
            return true;
        },
        _ => return false,
    }
}

/// 109: High low if (m)
///
/// In three dimensions: pops a value and goes low where it is zero, and high
/// where it is not. Elsewhere nothing changes and the answer is false.
#[inline(always)]
pub fn inst_high_low_if(thread: &mut FungeThread, dims: u32) -> (handled: bool)
    ensures
        handled == (dims == 3),
        handled ==> final(thread)@ == old(thread)@.with_toss(
            below_top(old(thread)@.toss()),
        ).with_delta(
            if top_of(old(thread)@.toss()) == 0 {
                (0i32, 0i32, -1i32)
            } else {
                (0i32, 0i32, 1i32)
            },
        ),
        !handled ==> final(thread)@ == old(thread)@,
{
    match dims {
        3 => {
            let value = thread.stack_stack.pop();

            // If zero, act like go low (l)
            if value == 0 {
                thread.delta = InstructionDelta::new_xyz(0, 0, -1);
            }
            // If non-zero, act like go high (h)
             else {
                thread.delta = InstructionDelta::new_xyz(0, 0, 1);
            }
            return true;
        },
        _ => return false,
    }
}

/// 110: Clear stack (n)
#[inline(always)]
pub fn inst_clear_stack(thread: &mut FungeThread)
    ensures
        final(thread)@ == old(thread)@.with_toss(Seq::<i32>::empty()),
{
    let toss = thread.stack_stack.top_stack();
    toss.clear();
}

/// 112: Put (p)
///
/// Takes a vector and then a value off the top stack and stores the value in
/// the cell that lies by that vector from the storage offset.
#[inline(always)]
pub fn inst_put<N, A>(thread: &mut FungeThread, funge_space: &mut FungeSpace<N, i32, A>, dims: u32) where
    N: FungeDimension,
    A: FungeSpaceAccessor<N, i32>,

    requires
        1 <= dims <= 3,
    ensures
        final(thread)@ == old(thread)@.with_toss(below(old(thread)@.toss(), (dims + 1) as nat)),
        final(funge_space)@ == old(funge_space)@.insert(
            canonical(
                N::dimensions(),
                wrapping_sum(
                    popped_vector(old(thread)@.toss(), dims as nat),
                    old(thread)@.storage_offset,
                ),
            ),
            top_of(below(old(thread)@.toss(), dims as nat)),
        ),
{
    let storage_offset = thread.get_storage_offset();
    proof {
        lemma_below_steps(thread@.toss(), dims as nat);
    }

    // Pop vector
    let toss = thread.stack_stack.top_stack();
    let mut position = _pop_vector(toss, dims);

    // Add storage offset
    position.add_wrapping(&storage_offset);

    // Pop and write value
    let value = toss.pop();
    funge_space.write_cell(&position, value);
}

/// Turns `delta` to lead the other way.
pub fn _reflect_delta(delta: &mut InstructionPointer)
    ensures
        final(delta)@ == reflected(old(delta)@),
{
    // Reflect delta
    let x = wrapping_neg_cell(delta.x());
    let y = wrapping_neg_cell(delta.y());
    let z = wrapping_neg_cell(delta.z());
    delta.set_xyz(x, y, z);
}

/// 114: Reflect (r)
#[inline(always)]
pub fn inst_reflect(thread: &mut FungeThread)
    ensures
        final(thread)@ == old(thread)@.with_delta(reflected(old(thread)@.delta)),
{
    _reflect_delta(&mut thread.delta);
}

/// Turns `delta` by a quarter to the right in the plane of the first two
/// dimensions.
pub fn _rotate_delta_clockwise_90(delta: &mut InstructionDelta)
    ensures
        final(delta)@ == turned_right(old(delta)@),
{
    let d = delta;
    *d = InstructionDelta::new_xyz(wrapping_neg_cell(d.y()), d.x(), d.z());
}

/// Turns `delta` by a quarter to the left in the plane of the first two
/// dimensions.
pub fn _rotate_delta_counterclockwise_90(delta: &mut InstructionDelta)
    ensures
        final(delta)@ == turned_left(old(delta)@),
{
    let d = delta;
    *d = InstructionDelta::new_xyz(d.y(), wrapping_neg_cell(d.x()), d.z());
}

/// 91: Turn left ([)
///
/// There is a left in two and three dimensions. Elsewhere nothing changes and
/// the answer is false.
#[inline(always)]
pub fn inst_turn_left(thread: &mut FungeThread, dims: u32) -> (handled: bool)
    ensures
        handled == (dims == 2 || dims == 3),
        handled ==> final(thread)@ == old(thread)@.with_delta(turned_left(old(thread)@.delta)),
        !handled ==> final(thread)@ == old(thread)@,
{
    match dims {
        2 | 3 => {
            // Rotate delta 90° counter-clockwise
            _rotate_delta_counterclockwise_90(&mut thread.delta);
            return true;
        },
        _ => return false,
    }
}

/// 93: Turn right (])
///
/// There is a right in two and three dimensions. Elsewhere nothing changes
/// and the answer is false.
#[inline(always)]
pub fn inst_turn_right(thread: &mut FungeThread, dims: u32) -> (handled: bool)
    ensures
        handled == (dims == 2 || dims == 3),
        handled ==> final(thread)@ == old(thread)@.with_delta(turned_right(old(thread)@.delta)),
        !handled ==> final(thread)@ == old(thread)@,
{
    match dims {
        2 | 3 => {
            // Rotate delta 90° clockwise
            _rotate_delta_clockwise_90(&mut thread.delta);
            return true;
        },
        _ => return false,
    }
}

/// 119: Compare (w)
///
/// In two and three dimensions: pops two values and turns left where the
/// second from the top is the smaller one, right where it is the greater one,
/// and not at all where they are equal. Elsewhere nothing changes and the
/// answer is false.
#[inline(always)]
pub fn inst_compare(thread: &mut FungeThread, dims: u32) -> (handled: bool)
    ensures
        handled == (dims == 2 || dims == 3),
        handled ==> final(thread)@ == old(thread)@.with_toss(
            below_two(old(thread)@.toss()),
        ).with_delta(
            if second_of(old(thread)@.toss()) < top_of(old(thread)@.toss()) {
                turned_left(old(thread)@.delta)
            } else if second_of(old(thread)@.toss()) > top_of(old(thread)@.toss()) {
                turned_right(old(thread)@.delta)
            } else {
                old(thread)@.delta
            },
        ),
        !handled ==> final(thread)@ == old(thread)@,
{
    match dims {
        2 | 3 => {
            let (b, a) = thread.stack_stack.pop_two();

            // If a < b, act like turn left ([)
            if a < b {
                // Rotate delta 90° counter-clockwise
                _rotate_delta_counterclockwise_90(&mut thread.delta);
            }
            // If a > b, act like turn right (])
             else if a > b {
                // Rotate delta 90° clockwise
                _rotate_delta_clockwise_90(&mut thread.delta);
            }
            // Else don't change the delta

            return true;
        },
        _ => return false,
    }
}

/// 120: Absolute delta (x)
///
/// Takes a vector off the top stack and makes it the step.
#[inline(always)]
pub fn inst_absolute_delta(thread: &mut FungeThread, dims: u32)
    requires
        1 <= dims <= 3,
    ensures
        final(thread)@ == old(thread)@.with_toss(
            below(old(thread)@.toss(), dims as nat),
        ).with_delta(popped_vector(old(thread)@.toss(), dims as nat)),
{
    // Pop delta vector
    let new_delta: InstructionDelta = _pop_vector(thread.stack_stack.top_stack(), dims);

    // Assign new delta to thread
    thread.delta = new_delta;
}

/// The six directions along the axes, in the order west, east, north, south,
/// low, high. A space of `dims` dimensions has the first `2 * dims` of them.
pub open spec fn cardinal(index: int) -> (i32, i32, i32) {
    if index == 0 {
        (-1i32, 0i32, 0i32)
    } else if index == 1 {
        (1i32, 0i32, 0i32)
    } else if index == 2 {
        (0i32, -1i32, 0i32)
    } else if index == 3 {
        (0i32, 1i32, 0i32)
    } else if index == 4 {
        (0i32, 0i32, -1i32)
    } else {
        (0i32, 0i32, 1i32)
    }
}

/// The direction with the number `index` among those along the axes.
pub fn cardinal_direction(index: usize) -> (delta: InstructionDelta)
    requires
        index < 6,
    ensures
        delta@ == cardinal(index as int),
{
    match index {
        0 => InstructionDelta::new_xyz(-1, 0, 0),
        1 => InstructionDelta::new_xyz(1, 0, 0),
        2 => InstructionDelta::new_xyz(0, -1, 0),
        3 => InstructionDelta::new_xyz(0, 1, 0),
        4 => InstructionDelta::new_xyz(0, 0, -1),
        _ => InstructionDelta::new_xyz(0, 0, 1),
    }
}

/// `rand::Rng::gen_range` on the generator that `rand::thread_rng` hands out,
/// with the bounds zero and `bound`. The number that comes back is at least
/// zero and less than `bound`; which one it is, is left to chance. The outside
/// function panics where the range is empty.
#[verifier::external_body]
pub(crate) fn random_index(bound: usize) -> (index: usize)
    requires
        bound > 0,
    ensures
        index < bound,
{
    rand::thread_rng().gen_range(0usize, bound)
}

/// 63: Go away (?)
///
/// Goes in one of the directions along the axes of the space, picked by
/// chance.
#[inline(always)]
pub fn inst_go_away(thread: &mut FungeThread, dims: u32)
    requires
        1 <= dims <= 3,
    ensures
        exists|index: int|
            0 <= index < 2 * dims && final(thread)@ == old(thread)@.with_delta(
                #[trigger] cardinal(index),
            ),
{
    // Create new random delta
    let index = random_index(2 * dims as usize);
    let new_delta = cardinal_direction(index);

    // Assign delta to thread
    thread.delta = new_delta;
    assert(thread@ == old(thread)@.with_delta(cardinal(index as int)));
}

/// 126: Input character (~)
///
/// Pushes the byte that was read. Where none could be read, be it that the
/// input has come to its end, the instruction pointer turns round instead.
#[inline(always)]
pub fn inst_input_character(thread: &mut FungeThread, charin: Option<u8>)
    ensures
        charin is Some ==> final(thread)@ == old(thread)@.with_toss(
            old(thread)@.toss().push(charin->0 as i32),
        ),
        charin is None ==> final(thread)@ == old(thread)@.with_delta(
            reflected(old(thread)@.delta),
        ),
{
    match charin {
        Some(byte) => {
            // Push read char onto toss
            let char: i32 = byte as i32;
            thread.stack_stack.push(char);
        },
        // On read error (including end of file/pipe) act as reflect
        None => {
            // Reflect delta
            _reflect_delta(&mut thread.delta);
        },
    }
}

/// What stack under stack makes of the two upper stacks, given the top stack
/// `toss` without the count and the second stack `soss`: a count of zero or
/// more moves that many values from the second stack to the top stack, a count
/// below zero moves as many the other way. The values move one by one, so
/// they arrive in the opposite order; a stack that runs out yields zeros.
pub open spec fn under_stack(toss: Seq<i32>, soss: Seq<i32>, count: i32) -> (Seq<i32>, Seq<i32>) {
    if count >= 0 {
        (toss + popped(soss, count as nat), below(soss, count as nat))
    } else {
        (below(toss, (-count) as nat), soss + popped(toss, (-count) as nat))
    }
}

/// Moves `count` values, one by one, from the top of `from` to the top of
/// `to`.
fn move_cells(from: &mut FungeStack, to: &mut FungeStack, count: u32)
    ensures
        final(from)@ == below(old(from)@, count as nat),
        final(to)@ == old(to)@ + popped(old(from)@, count as nat),
{
    let ghost source = from@;
    let ghost target = to@;
    let mut i: u32 = 0;
    proof {
        lemma_below_steps(source, 0);
        assert(to@ =~= target + popped(source, 0));
    }
    while i < count
        invariant
            i <= count,
            from@ == below(source, i as nat),
            to@ == target + popped(source, i as nat),
        decreases count - i,
    {
        proof {
            lemma_below_steps(source, i as nat);
        }
        let val = from.pop();
        to.push(val);
        i = i + 1;
        assert(to@ =~= target + popped(source, i as nat));
    }
}

/// 117: Stack under stack (u)
///
/// Where there is a second stack: pops a count and moves that many values
/// between the second stack and the top stack. Where there is none, the
/// instruction pointer turns round.
#[inline(always)]
pub fn inst_stack_under_stack(thread: &mut FungeThread)
    ensures
        old(thread)@.stacks.len() < 2 ==> final(thread)@ == old(thread)@.with_delta(
            reflected(old(thread)@.delta),
        ),
        old(thread)@.stacks.len() >= 2 ==> final(thread)@ == (ThreadState {
            stacks: old(thread)@.stacks.update(
                0,
                under_stack(
                    below_top(old(thread)@.toss()),
                    old(thread)@.stacks[1],
                    top_of(old(thread)@.toss()),
                ).0,
            ).update(
                1,
                under_stack(
                    below_top(old(thread)@.toss()),
                    old(thread)@.stacks[1],
                    top_of(old(thread)@.toss()),
                ).1,
            ),
            ..old(thread)@
        }),
{
    let ghost stacks = thread@.stacks;
    // Check if we have a soss
    match thread.stack_stack.pop_stack() {
        Some(toss) => {
            let mut toss = toss;
            // Pop count from toss
            let count = toss.pop();
            let soss = thread.stack_stack.top_stack();

            // Transfer cells in reverse order via pop-push loop
            if count >= 0 {
                move_cells(soss, &mut toss, count as u32);
            } else {
                let ghost n = -(count as int);
                let many = if count == i32::MIN {
                    0x8000_0000u32
                } else {
                    (-count) as u32
                };
                move_cells(&mut toss, soss, many);
            }
            thread.stack_stack.push_stack(toss);
            assert(thread@.stacks =~= stacks.update(
                0,
                under_stack(below_top(stacks[0]), stacks[1], top_of(stacks[0])).0,
            ).update(1, under_stack(below_top(stacks[0]), stacks[1], top_of(stacks[0])).1));
        },
        // If we don't have a soss (only one stack is on the stack stack), act like reflect (r)
        None => {
            _reflect_delta(&mut thread.delta);
        },
    }
}

/// The components of `offset` in the order in which begin block pushes them:
/// the last dimension first, so that the first one comes to lie on top.
pub open spec fn offset_cells(offset: (i32, i32, i32), dims: nat) -> Seq<i32> {
    if dims == 1 {
        seq![offset.0]
    } else if dims == 2 {
        seq![offset.1, offset.0]
    } else {
        seq![offset.2, offset.1, offset.0]
    }
}

/// What begin block makes of the top stack, given that stack without the
/// count: the new top stack, and what stays on the old one. A count above
/// zero takes that many values over in their order, with zeros below them
/// where the old stack runs out. A count below zero leaves as many zeros on
/// the old stack.
pub open spec fn block_split(toss: Seq<i32>, count: i32) -> (Seq<i32>, Seq<i32>) {
    if count > 0 {
        (popped(toss, count as nat).reverse(), below(toss, count as nat))
    } else if count < 0 {
        (Seq::empty(), toss + zeros::<i32>((-count) as nat))
    } else {
        (Seq::empty(), toss)
    }
}

/// 123: Begin block ({)
///
/// Pops a count and puts a new stack on the stack stack, which takes over
/// that many values from the old top stack. The storage offset goes onto the
/// old top stack, and the cell that follows the instruction becomes the new
/// storage offset.
#[inline(always)]
pub fn inst_begin_block(thread: &mut FungeThread, dims: u32)
    requires
        1 <= dims <= 3,
    ensures
        final(thread)@ == (ThreadState {
            stacks: seq![
                block_split(below_top(old(thread)@.toss()), top_of(old(thread)@.toss())).0,
            ] + old(thread)@.stacks.update(
                0,
                block_split(below_top(old(thread)@.toss()), top_of(old(thread)@.toss())).1
                    + offset_cells(old(thread)@.storage_offset, dims as nat),
            ),
            storage_offset: wrapping_sum(old(thread)@.ip, old(thread)@.delta),
            ..old(thread)@
        }),
{
    let ghost stacks = thread@.stacks;
    let n = thread.stack_stack.pop();
    let ghost rest = below_top(stacks[0]);

    // Get storage offset
    let current_storage_offset: FungeAddress = thread.get_storage_offset();

    // Allocate new stack
    let mut new_toss = FungeStack::<i32>::new();

    // If n > 0, transfer |n| elements from soss to new toss in non-reversed order
    if n > 0 {
        let fsoss = thread.stack_stack.top_stack();
        fsoss.transfer_to_stack(&mut new_toss, n as u32);
        assert(new_toss@ =~= block_split(rest, n).0);
    }
    // If n < 0, push |n| zeros onto soss
     else if n < 0 {
        let fsoss = thread.stack_stack.top_stack();  // Current toss is future soss
        let many = if n == i32::MIN {
            0x8000_0000u32
        } else {
            (-n) as u32
        };

        let mut i: u32 = 0;
        assert(fsoss@ =~= rest + zeros::<i32>(0));
        while i < many
            invariant
                i <= many,
                fsoss@ == rest + zeros::<i32>(i as nat),
            decreases many - i,
        {
            fsoss.push(0);
            i = i + 1;
            assert(fsoss@ =~= rest + zeros::<i32>(i as nat));
        }
    }
    // If n == 0, don't transfer any elements
     else {
    }

    // Push storage offset onto soss
    let fsoss = thread.stack_stack.top_stack();
    let ghost kept = fsoss@;
    match dims {
        1 => {
            fsoss.push(current_storage_offset.x());  // x
        },
        2 => {
            fsoss.push(current_storage_offset.y());  // y
            fsoss.push(current_storage_offset.x());  // x
        },
        _ => {
            fsoss.push(current_storage_offset.z());  // z
            fsoss.push(current_storage_offset.y());  // y
            fsoss.push(current_storage_offset.x());  // x
        },
    }
    assert(fsoss@ =~= kept + offset_cells(current_storage_offset@, dims as nat));

    // Push new toss onto the stack stack
    assert(new_toss@ == block_split(rest, n).0);
    assert(kept == block_split(rest, n).1);
    thread.stack_stack.push_stack(new_toss);
    assert(thread@.stacks =~= seq![block_split(rest, n).0] + stacks.update(
        0,
        block_split(rest, n).1 + offset_cells(current_storage_offset@, dims as nat),
    ));

    // Set new storage offset
    let mut new_storage_offset: InstructionPointer = thread.ip;
    new_storage_offset.add_wrapping(&thread.delta);
    thread.storage_offset = new_storage_offset;
}

/// The character that output char writes for the cell `cell`, as its scalar
/// value: the cell itself where it is above zero and a Unicode scalar value,
/// and the question mark where it is not.
pub open spec fn output_scalar(cell: i32) -> u32 {
    if cell > 0 && (cell <= 0xD7FF || (0xE000 <= cell && cell <= 0x10FFFF)) {
        cell as u32
    } else {
        63
    }
}

/// Appends to `charout` the bytes that stand for the scalar value `scalar` in
/// UTF-8.
pub fn encode_scalar_utf8(scalar: u32, charout: &mut Vec<u8>)
    requires
        vstd::utf8::is_scalar(scalar),
    ensures
        final(charout)@ == old(charout)@ + vstd::utf8::encode_scalar(scalar),
{
    if scalar <= 0x7F {
        charout.push((scalar & 0x7F) as u8);
    } else if scalar <= 0x7FF {
        charout.push(0xC0 | ((scalar >> 6) & 0x1F) as u8);
        charout.push(0x80 | (scalar & 0x3F) as u8);
    } else if scalar <= 0xFFFF {
        charout.push(0xE0 | ((scalar >> 12) & 0x0F) as u8);
        charout.push(0x80 | ((scalar >> 6) & 0x3F) as u8);
        charout.push(0x80 | (scalar & 0x3F) as u8);
    } else {
        charout.push(0xF0 | ((scalar >> 18) & 0x7) as u8);
        charout.push(0x80 | ((scalar >> 12) & 0x3F) as u8);
        charout.push(0x80 | ((scalar >> 6) & 0x3F) as u8);
        charout.push(0x80 | (scalar & 0x3F) as u8);
    }
    assert(charout@ =~= old(charout)@ + vstd::utf8::encode_scalar(scalar));
}

/// 44: Output char (,)
///
/// Pops a cell and appends to `charout` the character that it stands for,
/// in UTF-8.
#[inline(always)]
pub fn inst_output_char(thread: &mut FungeThread, charout: &mut Vec<u8>)
    ensures
        final(thread)@ == old(thread)@.with_toss(below_top(old(thread)@.toss())),
        final(charout)@ == old(charout)@ + vstd::utf8::encode_scalar(
            output_scalar(top_of(old(thread)@.toss())),
        ),
{
    let cell = thread.stack_stack.pop();

    // Print the cell by converting it to a unicode scalar ("char") if possible
    let mut char: u32 = 63;
    if cell > 0 && (cell <= 0xD7FF || (0xE000 <= cell && cell <= 0x10FFFF)) {
        char = cell as u32;
    }
    encode_scalar_utf8(char, charout);
}

/// The decimal digits of `n`, as characters.
pub open spec fn decimal_digits(n: nat) -> Seq<u8>
    decreases n,
{
    if n < 10 {
        seq![(48 + n) as u8]
    } else {
        decimal_digits(n / 10).push((48 + n % 10) as u8)
    }
}

/// The decimal writing of `value`, with a minus sign where it is below zero.
pub open spec fn decimal(value: int) -> Seq<u8> {
    if value < 0 {
        seq![45u8] + decimal_digits((-value) as nat)
    } else {
        decimal_digits(value as nat)
    }
}

/// Appends to `charout` the decimal writing of `value`.
pub fn write_decimal(value: i32, charout: &mut Vec<u8>)
    ensures
        final(charout)@ == old(charout)@ + decimal(value as int),
{
    let ghost before = charout@;
    let magnitude: u32 = if value < 0 {
        charout.push(45);
        if value == i32::MIN {
            0x8000_0000u32
        } else {
            (-value) as u32
        }
    } else {
        value as u32
    };
    let ghost start = charout@;
    // The digits from the last to the first
    let mut digits: Vec<u8> = Vec::new();
    let mut rest: u32 = magnitude;
    assert(decimal_digits(magnitude as nat) =~= decimal_digits(rest as nat) + digits@.reverse());
    while rest >= 10
        invariant
            decimal_digits(magnitude as nat) == decimal_digits(rest as nat) + digits@.reverse(),
        decreases rest,
    {
        let digit = (48 + rest % 10) as u8;
        let ghost earlier = digits@;
        digits.push(digit);
        proof {
            assert(digits@.reverse() =~= seq![digit] + earlier.reverse());
            assert(decimal_digits(rest as nat) == decimal_digits((rest / 10) as nat).push(digit));
            assert(decimal_digits((rest / 10) as nat).push(digit) + earlier.reverse()
                =~= decimal_digits((rest / 10) as nat) + (seq![digit] + earlier.reverse()));
        }
        rest = rest / 10;
    }
    charout.push((48 + rest) as u8);
    let mut i: usize = digits.len();
    while i > 0
        invariant
            i <= digits@.len(),
            rest < 10,
            charout@ == start + seq![(48 + rest) as u8] + digits@.reverse().take(
                digits@.len() - i,
            ),
        decreases i,
    {
        i = i - 1;
        charout.push(digits[i]);
        assert(charout@ =~= start + seq![(48 + rest) as u8] + digits@.reverse().take(
            digits@.len() - i,
        ));
    }
    assert(digits@.reverse().take(digits@.len() as int) =~= digits@.reverse());
    assert(charout@ =~= before + decimal(value as int));
}

/// 46: Output integer (.)
///
/// Pops a cell and appends to `charout` its decimal writing and a space.
#[inline(always)]
pub fn inst_output_integer(thread: &mut FungeThread, charout: &mut Vec<u8>)
    ensures
        final(thread)@ == old(thread)@.with_toss(below_top(old(thread)@.toss())),
        final(charout)@ == old(charout)@ + decimal(top_of(old(thread)@.toss()) as int).push(32u8),
{
    let cell = thread.stack_stack.pop();

    write_decimal(cell, charout);
    charout.push(32);  // A space follows the decimal number
    assert(charout@ =~= old(charout)@ + decimal(cell as int).push(32u8));
}

/// The handprint of rsfunge, "RSFN"
pub const RSFUNGE_HANDPRINT: u32 = 0x5253464e;

/// The version that the interpreter tells a program: 1.0.0 as 100.
pub const RSFUNGE_VERSION: u32 = 100;

/// A date and a time of day, as a clock showed them.
#[derive(Copy, Clone, Debug)]
pub struct ClockReading {
    pub year: i32,
    pub month: u32,
    pub day: u32,
    pub hour: u32,
    pub minute: u32,
    pub second: u32,
}

impl ClockReading {
    /// Whether the parts lie in the ranges of a calendar and a clock: months
    /// from 1 to 12, days from 1 to 31, hours up to 23, minutes and seconds
    /// up to 59.
    pub open spec fn is_valid(self) -> bool {
        &&& 1 <= self.month <= 12
        &&& 1 <= self.day <= 31
        &&& self.hour <= 23
        &&& self.minute <= 59
        &&& self.second <= 59
    }

    /// The date as one cell: the years since 1900, the month and the day of
    /// the month, each in a byte of its own, overflowing silently.
    pub open spec fn date_cell(self) -> i32 {
        wrap_cell((self.year - 1900) * 256 * 256 + self.month * 256 + self.day)
    }

    /// The time of day as one cell: hour, minute and second, each in a byte
    /// of its own, overflowing silently.
    pub open spec fn time_cell(self) -> i32 {
        wrap_cell(self.hour * 256 * 256 + self.minute * 256 + self.second)
    }
}

/// `chrono::Local::now`, read through the methods `year`, `month` and `day`
/// of `chrono::Datelike` and `hour`, `minute` and `second` of
/// `chrono::Timelike`. What comes back is the local date and time of the
/// moment of the call, so nothing is claimed of it but the ranges that chrono
/// documents for these methods. The outside function panics where the system
/// clock stands before 1970.
#[verifier::external_body]
pub(crate) fn local_time() -> (now: ClockReading)
    ensures
        now.is_valid(),
{
    let time = chrono::Local::now();
    ClockReading {
        year: time.year(),
        month: time.month(),
        day: time.day(),
        hour: time.hour(),
        minute: time.minute(),
        second: time.second(),
    }
}

/// The cell that agrees with `x` modulo 2^32.
pub fn wrap_to_cell(x: i64) -> (c: i32)
    ensures
        c == wrap_cell(x as int),
{
    let m = x.checked_rem_euclid(0x1_0000_0000).unwrap();
    if m > 0x7FFF_FFFF {
        (m - 0x1_0000_0000) as i32
    } else {
        m as i32
    }
}

/// Where the cells of system information end that are there whatever the
/// stacks, the arguments and the environment hold.
pub open spec fn sysinfo_base_size(dims: nat) -> nat {
    if dims == 1 {
        17
    } else if dims == 2 {
        22
    } else {
        25
    }
}

/// The component of `v` with the number `i`.
pub open spec fn component(v: (i32, i32, i32), i: int) -> i32 {
    if i == 0 {
        v.0
    } else if i == 1 {
        v.1
    } else {
        v.2
    }
}

/// The cell with the number `index` among the first cells of system
/// information, those below `sysinfo_base_size`: flags; bytes per cell;
/// handprint; version; operating paradigm; path separator; dimensions; the
/// number of the instruction pointer; its team; its position; its step; its
/// storage offset; the bounds of the program, which are left at zero; date;
/// time; the number of stacks.
pub open spec fn sysinfo_head_cell(
    state: ThreadState,
    dims: nat,
    stack_num: u32,
    clock: ClockReading,
    index: int,
) -> i32 {
    let base = sysinfo_base_size(dims) as int;
    if index == 1 {
        4
    } else if index == 2 {
        RSFUNGE_HANDPRINT as i32
    } else if index == 3 {
        RSFUNGE_VERSION as i32
    } else if index == 5 {
        47
    } else if index == 6 {
        dims as i32
    } else if 9 <= index < 9 + dims {
        component(state.ip, index - 9)
    } else if 9 + dims <= index < 9 + 2 * dims {
        component(state.delta, index - 9 - dims)
    } else if 9 + 2 * dims <= index < 9 + 3 * dims {
        component(state.storage_offset, index - 9 - 2 * dims)
    } else if index == base - 3 {
        clock.date_cell()
    } else if index == base - 2 {
        clock.time_cell()
    } else if index == base - 1 {
        wrap_cell(stack_num as int)
    } else {
        0
    }
}

/// The first cells of system information, those that are there whatever the
/// stacks, the arguments and the environment hold.
pub open spec fn sysinfo_head_cells(
    state: ThreadState,
    dims: nat,
    stack_num: u32,
    clock: ClockReading,
) -> Seq<i32> {
    Seq::new(sysinfo_base_size(dims), |i: int| sysinfo_head_cell(state, dims, stack_num, clock, i))
}

/// The depths of the first `stack_num` stacks from the top stack down, as
/// cells. The top stack counts with the depth `toss_depth`.
pub open spec fn sysinfo_depth_cells(stacks: Seq<Seq<i32>>, toss_depth: u32, stack_num: u32) -> Seq<
    i32,
> {
    Seq::new(
        stack_num as nat,
        |i: int|
            if i == 0 {
                wrap_cell(toss_depth as int)
            } else {
                wrap_cell(stacks[i].len() as int % 0x1_0000_0000)
            },
    )
}

/// Bytes as cells.
pub open spec fn bytes_as_cells(bytes: Seq<u8>) -> Seq<i32> {
    Seq::new(bytes.len(), |i: int| bytes[i] as i32)
}

/// The cells of system information: the first cells, then the depths of the
/// stacks, then the bytes of the arguments, then the bytes of the
/// environment.
pub open spec fn sysinfo_cells(
    state: ThreadState,
    dims: nat,
    toss_depth: u32,
    stack_num: u32,
    clock: ClockReading,
    env_var_string: Seq<u8>,
    cli_arg_string: Seq<u8>,
) -> Seq<i32> {
    sysinfo_head_cells(state, dims, stack_num, clock) + sysinfo_depth_cells(
        state.stacks,
        toss_depth,
        stack_num,
    ) + bytes_as_cells(cli_arg_string) + bytes_as_cells(env_var_string)
}

/// The number of cells of system information.
#[inline(always)]
pub fn _get_sysinfo_cell_num(
    thread: &FungeThread,
    dims: u32,
    stack_num: u32,
    env_var_string: &[u8],
    cli_arg_string: &[u8],
) -> (size: u128)
    requires
        1 <= dims <= 3,
    ensures
        size == sysinfo_base_size(dims as nat) + stack_num + env_var_string@.len()
            + cli_arg_string@.len(),
{
    let base_size: u128 = if dims == 1 {
        17
    } else if dims == 2 {
        22
    } else {
        25
    };
    base_size + stack_num as u128 + env_var_string.len() as u128 + cli_arg_string.len() as u128
}

/// The component of `v` with the number `i`.
fn component_of(v: &FungeAddress, i: u32) -> (c: i32)
    ensures
        c == component(v@, i as int),
{
    if i == 0 {
        v.x()
    } else if i == 1 {
        v.y()
    } else {
        v.z()
    }
}

/// One of the first cells of system information.
fn sysinfo_head(thread: &FungeThread, index: u32, dims: u32, stack_num: u32, clock: &ClockReading) -> (cell:
    i32)
    requires
        1 <= dims <= 3,
        index < sysinfo_base_size(dims as nat),
    ensures
        cell == sysinfo_head_cell(thread@, dims as nat, stack_num, *clock, index as int),
{
    let base: u32 = if dims == 1 {
        17
    } else if dims == 2 {
        22
    } else {
        25
    };
    if index == 1 {
        4  /* num bytes per cell (global env) */

    } else if index == 2 {
        RSFUNGE_HANDPRINT as i32  /* implementation handprint (env) */

    } else if index == 3 {
        RSFUNGE_VERSION as i32  /* implementation version number (env) */

    } else if index == 5 {
        47  /* path seperator char (global env) */

    } else if index == 6 {
        dims as i32  /* dimensionality or number of cells per vector (global env) */

    } else if 9 <= index && index < 9 + dims {
        component_of(&thread.ip, index - 9)  /* ip of the current thread (ip) */

    } else if 9 + dims <= index && index < 9 + 2 * dims {
        component_of(&thread.delta, index - 9 - dims)  /* delta of the curren thread (ip) */

    } else if 9 + 2 * dims <= index && index < 9 + 3 * dims {
        component_of(
            &thread.storage_offset,
            index - 9 - 2 * dims,
        )  /* storage offset of the current thread (ip) */

    } else if index == base - 3 {
        /* current ((year - 1900) * 256 * 256) + (month * 256) + (day of month) (env) */
        wrap_to_cell(
            (clock.year as i64 - 1900) * 256 * 256 + clock.month as i64 * 256 + clock.day as i64,
        )
    } else if index == base - 2 {
        /* current (hour * 256 * 256) + (minute * 256) + (second) (env) */
        wrap_to_cell(
            clock.hour as i64 * 256 * 256 + clock.minute as i64 * 256 + clock.second as i64,
        )
    } else if index == base - 1 {
        wrap_to_cell(stack_num as i64)  /* number of stacks on the stack stack (ip) */

    } else {
        0
    }
}

/// The cell of system information with the number `index`, given what the
/// clock shows.
pub fn _get_sysinfo_cell_at(
    thread: &mut FungeThread,
    index: u32,
    dims: u32,
    toss_depth: u32,
    stack_num: u32,
    clock: &ClockReading,
    env_var_string: &[u8],
    cli_arg_string: &[u8],
) -> (cell: i32)
    requires
        1 <= dims <= 3,
        stack_num <= old(thread)@.stacks.len(),
        index < sysinfo_base_size(dims as nat) + stack_num + env_var_string@.len()
            + cli_arg_string@.len(),
    ensures
        final(thread)@ == old(thread)@,
        cell == sysinfo_cells(
            old(thread)@,
            dims as nat,
            toss_depth,
            stack_num,
            *clock,
            env_var_string@,
            cli_arg_string@,
        )[index as int],
{
    let base: u32 = if dims == 1 {
        17
    } else if dims == 2 {
        22
    } else {
        25
    };
    if index < base {
        return sysinfo_head(thread, index, dims, stack_num, clock);
    }
    // Stack size cells

    let local_index = index - base;
    if local_index < stack_num {
        if local_index == 0 {
            return wrap_to_cell(toss_depth as i64);
        }
        let ghost stacks = thread@.stacks;
        let stack = thread.stack_stack.nth_stack(local_index).unwrap();
        let depth = stack.depth();
        assert(thread@.stacks =~= stacks);
        return wrap_to_cell(depth as i64);
    }
    // Cli arg string

    let local_index = (local_index - stack_num) as usize;
    if local_index < cli_arg_string.len() {
        return cli_arg_string[local_index] as i32;
    }
    // Env var string

    let local_index = local_index - cli_arg_string.len();
    env_var_string[local_index] as i32
}

/// The cell of system information with the number `index`. The date and the
/// time come from the clock of the machine, so they are whatever the clock
/// shows.
#[inline(always)]
pub fn _get_sysinfo_cell(
    thread: &mut FungeThread,
    index: u32,
    dims: u32,
    toss_depth: u32,
    stack_num: u32,
    env_var_string: &[u8],
    cli_arg_string: &[u8],
) -> (cell: i32)
    requires
        1 <= dims <= 3,
        stack_num <= old(thread)@.stacks.len(),
        index < sysinfo_base_size(dims as nat) + stack_num + env_var_string@.len()
            + cli_arg_string@.len(),
    ensures
        final(thread)@ == old(thread)@,
        exists|clock: ClockReading|
            clock.is_valid() && cell == (#[trigger] sysinfo_cells(
                old(thread)@,
                dims as nat,
                toss_depth,
                stack_num,
                clock,
                env_var_string@,
                cli_arg_string@,
            ))[index as int],
{
    let clock = local_time();
    _get_sysinfo_cell_at(
        thread,
        index,
        dims,
        toss_depth,
        stack_num,
        &clock,
        env_var_string,
        cli_arg_string,
    )
}

/// What get sysinfo makes of the top stack, given that stack without the
/// number that was popped, the number, and the cells of system information.
/// A number of zero or less puts all the cells on the stack, the first one on
/// top. A number above zero picks the cell with that number, counted from
/// one; beyond the last cell it picks from the stack itself, as many values
/// below the top as the number is beyond, and zero where the stack does not
/// reach that far.
pub open spec fn sysinfo_pushed(toss: Seq<i32>, number: i32, cells: Seq<i32>) -> Seq<i32> {
    if number <= 0 {
        toss + cells.reverse()
    } else if number <= cells.len() {
        toss.push(cells[number - 1])
    } else if number - 1 - cells.len() < toss.len() {
        toss.push(toss[toss.len() - 1 - (number - 1 - cells.len())])
    } else {
        toss.push(0)
    }
}

/// What get sysinfo makes of an instruction pointer, given what the clock
/// shows.
pub open spec fn sysinfo_effect(
    state: ThreadState,
    dims: nat,
    clock: ClockReading,
    env_var_string: Seq<u8>,
    cli_arg_string: Seq<u8>,
) -> ThreadState {
    let number = top_of(state.toss());
    let popped = state.with_toss(below_top(state.toss()));
    popped.with_toss(
        sysinfo_pushed(
            popped.toss(),
            number,
            sysinfo_cells(
                popped,
                dims,
                (popped.toss().len() % 0x1_0000_0000) as u32,
                (state.stacks.len() % 0x1_0000_0000) as u32,
                clock,
                env_var_string,
                cli_arg_string,
            ),
        ),
    )
}

/// Pushes `bytes` onto `toss` as cells, the last one first.
fn push_reversed_bytes(toss: &mut FungeStack, bytes: &[u8])
    ensures
        final(toss)@ == old(toss)@ + bytes_as_cells(bytes@).reverse(),
{
    let ghost cells = bytes_as_cells(bytes@);
    let ghost before = toss@;
    let mut i: usize = bytes.len();
    assert(toss@ =~= before + cells.reverse().take(0));
    while i > 0
        invariant
            i <= bytes@.len(),
            cells == bytes_as_cells(bytes@),
            toss@ == before + cells.reverse().take(bytes@.len() - i),
        decreases i,
    {
        i = i - 1;
        toss.push(bytes[i] as i32);
        assert(toss@ =~= before + cells.reverse().take(bytes@.len() - i));
    }
    assert(cells.reverse().take(bytes@.len() as int) =~= cells.reverse());
}

/// Pushes the depths of the first `stack_num` stacks onto the top stack, the
/// last one first.
fn push_reversed_depths(thread: &mut FungeThread, toss_depth: u32, stack_num: u32)
    requires
        1 <= old(thread)@.stacks.len(),
        stack_num <= old(thread)@.stacks.len(),
    ensures
        final(thread)@ == old(thread)@.with_toss(
            old(thread)@.toss() + sysinfo_depth_cells(
                old(thread)@.stacks,
                toss_depth,
                stack_num,
            ).reverse(),
        ),
{
    let ghost before = thread@;
    let ghost cells = sysinfo_depth_cells(before.stacks, toss_depth, stack_num);
    let mut i: u32 = stack_num;
    assert(thread@.stacks =~= before.stacks.update(0, before.toss() + cells.reverse().take(0)));
    while i > 0
        invariant
            i <= stack_num,
            stack_num <= before.stacks.len(),
            1 <= before.stacks.len(),
            cells == sysinfo_depth_cells(before.stacks, toss_depth, stack_num),
            thread@ == before.with_toss(before.toss() + cells.reverse().take(stack_num - i)),
        decreases i,
    {
        i = i - 1;
        let ghost stacks = thread@.stacks;
        let cell = if i == 0 {
            wrap_to_cell(toss_depth as i64)
        } else {
            let stack = thread.stack_stack.nth_stack(i).unwrap();
            let depth = stack.depth();
            assert(thread@.stacks =~= stacks);
            wrap_to_cell(depth as i64)
        };
        assert(cell == cells[i as int]);
        thread.stack_stack.push(cell);
        assert(cells.reverse()[stack_num - i - 1] == cells[i as int]);
        assert(cells.reverse().take(stack_num - i) =~= cells.reverse().take(
            stack_num - i - 1,
        ).push(cell));
        assert(before.toss() + cells.reverse().take(stack_num - i) =~= (before.toss()
            + cells.reverse().take(stack_num - i - 1)).push(cell));
        assert(thread@.stacks =~= before.stacks.update(
            0,
            before.toss() + cells.reverse().take(stack_num - i),
        ));
    }
    assert(cells.reverse().take(stack_num as int) =~= cells.reverse());
}

/// Pushes the first cells of system information onto the top stack, the last
/// one first.
fn push_reversed_head(thread: &mut FungeThread, dims: u32, stack_num: u32, clock: &ClockReading)
    requires
        1 <= dims <= 3,
        1 <= old(thread)@.stacks.len(),
    ensures
        final(thread)@ == old(thread)@.with_toss(
            old(thread)@.toss() + sysinfo_head_cells(
                old(thread)@,
                dims as nat,
                stack_num,
                *clock,
            ).reverse(),
        ),
{
    let ghost before = thread@;
    let ghost cells = sysinfo_head_cells(before, dims as nat, stack_num, *clock);
    let base: u32 = if dims == 1 {
        17
    } else if dims == 2 {
        22
    } else {
        25
    };
    let mut j: u32 = base;
    assert(thread@.stacks =~= before.stacks.update(0, before.toss() + cells.reverse().take(0)));
    while j > 0
        invariant
            1 <= dims <= 3,
            j <= base,
            base == sysinfo_base_size(dims as nat),
            1 <= before.stacks.len(),
            cells == sysinfo_head_cells(before, dims as nat, stack_num, *clock),
            thread@ == before.with_toss(before.toss() + cells.reverse().take(base - j)),
        decreases j,
    {
        j = j - 1;
        let cell = sysinfo_head(thread, j, dims, stack_num, clock);
        assert(cell == cells[j as int]);
        thread.stack_stack.push(cell);
        assert(cells.reverse()[base - j - 1] == cells[j as int]);
        assert(cells.reverse().take(base - j) =~= cells.reverse().take(base - j - 1).push(cell));
        assert(before.toss() + cells.reverse().take(base - j) =~= (before.toss()
            + cells.reverse().take(base - j - 1)).push(cell));
        assert(thread@.stacks =~= before.stacks.update(
            0,
            before.toss() + cells.reverse().take(base - j),
        ));
    }
    assert(cells.reverse().take(base as int) =~= cells.reverse());
}

/// The cells of system information in the opposite order.
proof fn lemma_sysinfo_cells_reversed(head: Seq<i32>, depths: Seq<i32>, cli: Seq<i32>, env: Seq<i32>)
    ensures
        (head + depths + cli + env).reverse() == env.reverse() + cli.reverse() + depths.reverse()
            + head.reverse(),
{
    assert((head + depths + cli + env).reverse() =~= env.reverse() + cli.reverse()
        + depths.reverse() + head.reverse());
}

/// Pushes all cells of system information onto the top stack, the last one
/// first.
fn push_all_sysinfo(
    thread: &mut FungeThread,
    dims: u32,
    toss_depth: u32,
    stack_num: u32,
    clock: &ClockReading,
    env_var_string: &[u8],
    cli_arg_string: &[u8],
)
    requires
        1 <= dims <= 3,
        1 <= old(thread)@.stacks.len(),
        stack_num <= old(thread)@.stacks.len(),
    ensures
        final(thread)@ == old(thread)@.with_toss(
            old(thread)@.toss() + sysinfo_cells(
                old(thread)@,
                dims as nat,
                toss_depth,
                stack_num,
                *clock,
                env_var_string@,
                cli_arg_string@,
            ).reverse(),
        ),
{
    let ghost before = thread@;
    let ghost start = before.toss();
    let ghost env = bytes_as_cells(env_var_string@);
    let ghost cli = bytes_as_cells(cli_arg_string@);
    let ghost depths = sysinfo_depth_cells(before.stacks, toss_depth, stack_num);
    let ghost head = sysinfo_head_cells(before, dims as nat, stack_num, *clock);
    // Go through all sysinfo cells in reverse so that they are on the stack in the right order
    push_reversed_bytes(thread.stack_stack.top_stack(), env_var_string);
    push_reversed_bytes(thread.stack_stack.top_stack(), cli_arg_string);
    assert(thread@.stacks =~= before.stacks.update(0, start + env.reverse() + cli.reverse()));
    let ghost middle = thread@;
    push_reversed_depths(thread, toss_depth, stack_num);
    assert(sysinfo_depth_cells(middle.stacks, toss_depth, stack_num) =~= depths);
    assert(thread@.stacks =~= before.stacks.update(
        0,
        start + env.reverse() + cli.reverse() + depths.reverse(),
    ));
    let ghost late = thread@;
    push_reversed_head(thread, dims, stack_num, clock);
    assert(sysinfo_head_cells(late, dims as nat, stack_num, *clock) =~= head);
    proof {
        lemma_sysinfo_cells_reversed(head, depths, cli, env);
    }
    assert(late.toss() == start + env.reverse() + cli.reverse() + depths.reverse());
    assert(thread@.stacks == late.stacks.update(0, late.toss() + head.reverse()));
    assert(start + env.reverse() + cli.reverse() + depths.reverse() + head.reverse() =~= start + (
    env.reverse() + cli.reverse() + depths.reverse() + head.reverse()));
    assert(thread@.stacks =~= before.stacks.update(
        0,
        start + (head + depths + cli + env).reverse(),
    ));
}

/// Pushes the cell of system information with the number `number`, counted
/// from one, or the value that lies as far below the top of the top stack as
/// the number is beyond the last cell.
fn push_one_sysinfo(
    thread: &mut FungeThread,
    number: i32,
    dims: u32,
    toss_depth: u32,
    stack_num: u32,
    clock: &ClockReading,
    env_var_string: &[u8],
    cli_arg_string: &[u8],
)
    requires
        number > 0,
        1 <= dims <= 3,
        1 <= old(thread)@.stacks.len(),
        stack_num <= old(thread)@.stacks.len(),
    ensures
        final(thread)@ == old(thread)@.with_toss(
            sysinfo_pushed(
                old(thread)@.toss(),
                number,
                sysinfo_cells(
                    old(thread)@,
                    dims as nat,
                    toss_depth,
                    stack_num,
                    *clock,
                    env_var_string@,
                    cli_arg_string@,
                ),
            ),
        ),
{
    let ghost popped = thread@;
    let syscell_num = _get_sysinfo_cell_num(thread, dims, stack_num, env_var_string, cli_arg_string);
    let index = (number - 1) as u32;

    // Use specific sysinfo cell
    if (index as u128) < syscell_num {
        let cell = _get_sysinfo_cell_at(
            thread,
            index,
            dims,
            toss_depth,
            stack_num,
            clock,
            env_var_string,
            cli_arg_string,
        );
        thread.stack_stack.push(cell);
    }
    // If index larger than sysinfo cell num, pick from toss
     else {
        let beyond = (index as u128 - syscell_num) as u32;
        let cell = thread.stack_stack.top_stack().peek_nth(beyond);
        let ghost stacks = thread@.stacks;
        assert(stacks =~= popped.stacks);
        let value = match cell {
            Some(value) => value,
            None => 0,
        };
        thread.stack_stack.push(value);
    }
}

/// 121: Get sysinfo (y), given what the clock shows.
///
/// Pops a number and pushes cells of system information: all of them where
/// the number is zero or less, else the one with that number.
pub fn inst_get_sysinfo_at(
    thread: &mut FungeThread,
    dims: u32,
    clock: &ClockReading,
    env_var_string: &[u8],
    cli_arg_string: &[u8],
)
    requires
        1 <= dims <= 3,
    ensures
        final(thread)@ == sysinfo_effect(
            old(thread)@,
            dims as nat,
            *clock,
            env_var_string@,
            cli_arg_string@,
        ),
{
    proof {
        thread.stack_stack.lemma_never_empty();
    }
    // The given index: Zero or negative for everything, else the 1-based cell number
    let nth_cell = thread.stack_stack.pop();

    let toss_depth = thread.stack_stack.top_stack().depth();
    let ghost stacks = thread@.stacks;
    assert(stacks =~= old(thread)@.with_toss(below_top(old(thread)@.toss())).stacks);
    let stack_num = thread.stack_stack.num_stacks();

    // Push only specific (one-indexed) cell
    if nth_cell > 0 {
        push_one_sysinfo(
            thread,
            nth_cell,
            dims,
            toss_depth,
            stack_num,
            clock,
            env_var_string,
            cli_arg_string,
        );
    }
    // Push all sysinfo cells
     else {
        push_all_sysinfo(
            thread,
            dims,
            toss_depth,
            stack_num,
            clock,
            env_var_string,
            cli_arg_string,
        );
    }
}

/// 121: Get sysinfo (y)
///
/// Pops a number and pushes cells of system information: all of them where
/// the number is zero or less, else the one with that number. The date and
/// the time among them are whatever the clock of the machine shows.
#[inline(always)]
pub fn inst_get_sysinfo<N: FungeDimension, A: FungeSpaceAccessor<N, i32>>(
    thread: &mut FungeThread,
    env_var_string: &[u8],
    cli_arg_string: &[u8],
)
    ensures
        exists|clock: ClockReading|
            clock.is_valid() && final(thread)@ == #[trigger] sysinfo_effect(
                old(thread)@,
                N::dimensions(),
                clock,
                env_var_string@,
                cli_arg_string@,
            ),
{
    let dims = A::dimensionality();
    let clock = local_time();
    inst_get_sysinfo_at(thread, dims, &clock, env_var_string, cli_arg_string);
}

} // verus!
