use vstd::prelude::*;
use crate::interpreter::funge_address::wrapping_sum;
use crate::interpreter::funge_interpreter::{seek, skip_spaces, SEEK_LIMIT, SKIP_LIMIT};
use crate::interpreter::funge_space_accessor::canonical;
use crate::interpreter::funge_value::{lemma_wrap_cell_congruent, lemma_wrap_cell_sum, wrap_cell};

verus! {

/// Where on an axis an instruction pointer stands that took `n` steps of
/// `delta` from `pos`.
pub open spec fn moved_on_axis(pos: i32, delta: i32, n: nat) -> i32 {
    wrap_cell(pos + n * delta)
}

/// Where an instruction pointer stands that took `n` steps of `delta` from
/// `pos`.
pub open spec fn moved(pos: (i32, i32, i32), delta: (i32, i32, i32), n: nat) -> (i32, i32, i32) {
    (
        moved_on_axis(pos.0, delta.0, n),
        moved_on_axis(pos.1, delta.1, n),
        moved_on_axis(pos.2, delta.2, n),
    )
}

/// On an axis: no steps lead nowhere; a step, and then `n` more, are `n + 1`
/// steps; and a way of 2^32 steps leads back to where it started.
proof fn lemma_moved_on_axis(pos: i32, delta: i32, n: nat)
    ensures
        moved_on_axis(pos, delta, 0) == pos,
        moved_on_axis(wrap_cell(pos + delta), delta, n) == moved_on_axis(pos, delta, n + 1),
        moved_on_axis(pos, delta, 0x1_0000_0000) == pos,
{
    assert(pos + 0 * delta == pos) by (nonlinear_arith);
    assert(wrap_cell(pos as int) == pos);
    assert(wrap_cell(wrap_cell(pos + delta) + n * delta) == wrap_cell(pos + (n + 1) * delta)) by {
        lemma_wrap_cell_sum(n * delta, pos + delta);
        assert(n * delta + (pos + delta) == pos + (n + 1) * delta) by (nonlinear_arith);
    }
    assert(wrap_cell(pos + 0x1_0000_0000 * delta) == pos) by {
        lemma_wrap_cell_congruent(pos as int, delta as int);
        assert(pos + 0x1_0000_0000 * delta == pos + delta * 0x1_0000_0000) by (nonlinear_arith);
    }
}

/// No steps lead nowhere; a step, and then `n` more, are `n + 1` steps; and
/// a way of 2^32 steps leads back to where it started.
pub proof fn lemma_moved(pos: (i32, i32, i32), delta: (i32, i32, i32), n: nat)
    ensures
        moved(pos, delta, 0) == pos,
        moved(wrapping_sum(pos, delta), delta, n) == moved(pos, delta, n + 1),
        moved(pos, delta, 0x1_0000_0000) == pos,
{
    lemma_moved_on_axis(pos.0, delta.0, n);
    lemma_moved_on_axis(pos.1, delta.1, n);
    lemma_moved_on_axis(pos.2, delta.2, n);
}

/// Whether an instruction pointer stands within a comment once it has passed
/// over `n` cells from `pos` on, given whether it stood within one at `pos`:
/// each semicolon on the way begins or ends a comment.
pub open spec fn in_comment_after(
    space: Map<(i32, i32, i32), i32>,
    dims: nat,
    pos: (i32, i32, i32),
    delta: (i32, i32, i32),
    in_comment: bool,
    n: nat,
) -> bool
    decreases n,
{
    if n == 0 {
        in_comment
    } else {
        in_comment_after(
            space,
            dims,
            wrapping_sum(pos, delta),
            delta,
            in_comment != (space[canonical(dims, pos)] == 59),
            (n - 1) as nat,
        )
    }
}

/// Over the same cells, a way that begins within a comment is within a
/// comment just where a way that begins without is not.
proof fn lemma_comment_flips(
    space: Map<(i32, i32, i32), i32>,
    dims: nat,
    pos: (i32, i32, i32),
    delta: (i32, i32, i32),
    n: nat,
)
    ensures
        in_comment_after(space, dims, pos, delta, true, n) == !in_comment_after(
            space,
            dims,
            pos,
            delta,
            false,
            n,
        ),
    decreases n,
{
    if n > 0 {
        lemma_comment_flips(space, dims, wrapping_sum(pos, delta), delta, (n - 1) as nat);
    }
}

/// A search over `a + b` cells is a search over `a` cells and, where that
/// finds nothing, a search over `b` more cells from where it ended.
pub proof fn lemma_seek_split(
    space: Map<(i32, i32, i32), i32>,
    dims: nat,
    pos: (i32, i32, i32),
    delta: (i32, i32, i32),
    in_comment: bool,
    a: nat,
    b: nat,
)
    ensures
        seek(space, dims, pos, delta, in_comment, a + b) == (if seek(
            space,
            dims,
            pos,
            delta,
            in_comment,
            a,
        ) is Some {
            seek(space, dims, pos, delta, in_comment, a)
        } else {
            seek(
                space,
                dims,
                moved(pos, delta, a),
                delta,
                in_comment_after(space, dims, pos, delta, in_comment, a),
                b,
            )
        }),
    decreases a,
{
    lemma_moved(pos, delta, 0);
    if a > 0 {
        let cell = space[canonical(dims, pos)];
        let next = wrapping_sum(pos, delta);
        lemma_moved(pos, delta, (a - 1) as nat);
        if in_comment {
            lemma_seek_split(space, dims, next, delta, cell != 59, (a - 1) as nat, b);
        } else if cell == 32 {
            lemma_seek_split(space, dims, next, delta, false, (a - 1) as nat, b);
        } else if cell == 59 {
            lemma_seek_split(space, dims, next, delta, true, (a - 1) as nat, b);
        }
    }
}

/// An instruction pointer that looked at 2^33 cells and found no instruction
/// finds none, however far it looks: it has been at every cell on its way,
/// within a comment and without, and is back where it started.
proof fn lemma_adrift(
    space: Map<(i32, i32, i32), i32>,
    dims: nat,
    pos: (i32, i32, i32),
    delta: (i32, i32, i32),
    fuel: nat,
)
    requires
        seek(space, dims, pos, delta, false, 0x2_0000_0000) is None,
    ensures
        seek(space, dims, pos, delta, false, fuel) is None,
    decreases fuel,
{
    let round: nat = 0x1_0000_0000;
    lemma_moved(pos, delta, 0);
    lemma_seek_split(space, dims, pos, delta, false, round, round);
    if fuel <= 2 * round {
        lemma_seek_split(space, dims, pos, delta, false, fuel, (2 * round - fuel) as nat);
    } else if !in_comment_after(space, dims, pos, delta, false, round) {
        lemma_seek_split(space, dims, pos, delta, false, round, (fuel - round) as nat);
        lemma_adrift(space, dims, pos, delta, (fuel - round) as nat);
    } else {
        lemma_comment_flips(space, dims, pos, delta, round);
        lemma_seek_split(space, dims, pos, delta, false, round, (fuel - round) as nat);
        lemma_seek_split(space, dims, pos, delta, true, round, (fuel - 2 * round) as nat);
        lemma_adrift(space, dims, pos, delta, (fuel - 2 * round) as nat);
    }
}

/// The limit of the search for the next instruction leaves nothing out: an
/// instruction pointer that looks further finds what it finds within the
/// limit, and where it finds nothing within the limit there is nothing on its
/// way.
pub proof fn lemma_seek_limit(
    space: Map<(i32, i32, i32), i32>,
    dims: nat,
    pos: (i32, i32, i32),
    delta: (i32, i32, i32),
    fuel: nat,
)
    requires
        fuel >= SEEK_LIMIT,
    ensures
        seek(space, dims, pos, delta, false, fuel) == seek(
            space,
            dims,
            pos,
            delta,
            false,
            SEEK_LIMIT as nat,
        ),
{
    let limit = SEEK_LIMIT as nat;
    lemma_seek_split(space, dims, pos, delta, false, limit, (fuel - limit) as nat);
    if seek(space, dims, pos, delta, false, limit) is None {
        lemma_adrift(space, dims, pos, delta, fuel);
    }
}

/// A search for the end of a run of spaces over `a + b` cells is a search
/// over `a` cells and, where that finds nothing, a search over `b` more cells
/// from where it ended.
pub proof fn lemma_skip_split(
    space: Map<(i32, i32, i32), i32>,
    dims: nat,
    pos: (i32, i32, i32),
    delta: (i32, i32, i32),
    a: nat,
    b: nat,
)
    ensures
        skip_spaces(space, dims, pos, delta, a + b) == (if skip_spaces(space, dims, pos, delta, a)
            is Some {
            skip_spaces(space, dims, pos, delta, a)
        } else {
            skip_spaces(space, dims, moved(pos, delta, a), delta, b)
        }),
    decreases a,
{
    lemma_moved(pos, delta, 0);
    if a > 0 {
        lemma_moved(pos, delta, (a - 1) as nat);
        if space[canonical(dims, pos)] == 32 {
            lemma_skip_split(space, dims, wrapping_sum(pos, delta), delta, (a - 1) as nat, b);
        }
    }
}

/// An instruction pointer that looked at 2^32 cells and found spaces only
/// finds nothing else, however far it looks: it is back where it started.
proof fn lemma_all_spaces(
    space: Map<(i32, i32, i32), i32>,
    dims: nat,
    pos: (i32, i32, i32),
    delta: (i32, i32, i32),
    fuel: nat,
)
    requires
        skip_spaces(space, dims, pos, delta, 0x1_0000_0000) is None,
    ensures
        skip_spaces(space, dims, pos, delta, fuel) is None,
    decreases fuel,
{
    let round: nat = 0x1_0000_0000;
    lemma_moved(pos, delta, 0);
    if fuel <= round {
        lemma_skip_split(space, dims, pos, delta, fuel, (round - fuel) as nat);
    } else {
        lemma_skip_split(space, dims, pos, delta, round, (fuel - round) as nat);
        lemma_all_spaces(space, dims, pos, delta, (fuel - round) as nat);
    }
}

/// The limit of the search for the end of a run of spaces leaves nothing
/// out: an instruction pointer that looks further finds what it finds within
/// the limit, and where it finds nothing within the limit there are spaces
/// only on its way.
pub proof fn lemma_skip_limit(
    space: Map<(i32, i32, i32), i32>,
    dims: nat,
    pos: (i32, i32, i32),
    delta: (i32, i32, i32),
    fuel: nat,
)
    requires
        fuel >= SKIP_LIMIT,
    ensures
        skip_spaces(space, dims, pos, delta, fuel) == skip_spaces(
            space,
            dims,
            pos,
            delta,
            SKIP_LIMIT as nat,
        ),
{
    let limit = SKIP_LIMIT as nat;
    lemma_skip_split(space, dims, pos, delta, limit, (fuel - limit) as nat);
    if skip_spaces(space, dims, pos, delta, limit) is None {
        lemma_all_spaces(space, dims, pos, delta, fuel);
    }
}

} // verus!
