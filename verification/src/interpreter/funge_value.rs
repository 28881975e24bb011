use vstd::prelude::*;

verus! {

/// A value that can be stored in a funge cell.
///
/// Every cell type can take up a 32-bit integer: that is how the space
/// character, which fills unwritten cells, and the zero, which an empty stack
/// yields, come into being.
pub trait FungeValue: Copy + Clone + Default {
    /// The cell value that stands for the integer `v`.
    spec fn spec_from_cell(v: i32) -> Self;

    /// The cell value that stands for the integer `v`.
    fn from_cell(v: i32) -> (r: Self)
        ensures
            r == Self::spec_from_cell(v),
    ;
}

impl FungeValue for i32 {
    open spec fn spec_from_cell(v: i32) -> i32 {
        v
    }

    #[inline(always)]
    fn from_cell(v: i32) -> (r: i32) {
        v
    }
}

/// The 32-bit two's-complement integer that agrees with `x` modulo 2^32.
pub open spec fn wrap_cell(x: int) -> i32 {
    if x % 0x1_0000_0000 > i32::MAX {
        (x % 0x1_0000_0000 - 0x1_0000_0000) as i32
    } else {
        (x % 0x1_0000_0000) as i32
    }
}

/// Wrapping is determined by the residue modulo 2^32 alone.
pub proof fn lemma_wrap_cell_congruent(x: int, k: int)
    ensures
        wrap_cell(x + k * 0x1_0000_0000) == wrap_cell(x),
{
    vstd::arithmetic::div_mod::lemma_mod_multiples_vanish(k, x, 0x1_0000_0000);
}

/// A sum can be wrapped at the end or on the way: it comes to the same.
pub proof fn lemma_wrap_cell_sum(a: int, b: int)
    ensures
        wrap_cell(a + wrap_cell(b)) == wrap_cell(a + b),
{
    let m = 0x1_0000_0000int;
    let k = b / m;
    vstd::arithmetic::div_mod::lemma_fundamental_div_mod(b, m);
    assert(b == m * k + b % m);
    if b % m > i32::MAX {
        assert(a + wrap_cell(b) == (a + b) + (-k - 1) * m) by (nonlinear_arith)
            requires
                wrap_cell(b) == b % m - m,
                b == m * k + b % m,
        ;
        vstd::arithmetic::div_mod::lemma_mod_multiples_vanish(-k - 1, a + b, m);
    } else {
        assert(a + wrap_cell(b) == (a + b) + (-k) * m) by (nonlinear_arith)
            requires
                wrap_cell(b) == b % m,
                b == m * k + b % m,
        ;
        vstd::arithmetic::div_mod::lemma_mod_multiples_vanish(-k, a + b, m);
    }
}

/// What wrapping comes to: a cell that differs from the exact value by a
/// multiple of 2^32. So the greatest cell and one come to the least cell, in
/// sums as in products.
pub proof fn lemma_wrap_cell_wraps(x: int)
    ensures
        (wrap_cell(x) - x) % 0x1_0000_0000 == 0,
        wrap_cell(i32::MAX + 1) == i32::MIN,
        wrap_cell(i32::MIN - 1) == i32::MAX,
        wrap_cell(i32::MAX * 2) == -2,
{
    let m = 0x1_0000_0000int;
    vstd::arithmetic::div_mod::lemma_fundamental_div_mod(x, m);
    if x % m > i32::MAX {
        vstd::arithmetic::div_mod::lemma_mod_multiples_basic(-(x / m) - 1, m);
        assert(wrap_cell(x) - x == (-(x / m) - 1) * m) by (nonlinear_arith)
            requires
                wrap_cell(x) == x % m - m,
                x == m * (x / m) + x % m,
        ;
    } else {
        vstd::arithmetic::div_mod::lemma_mod_multiples_basic(-(x / m), m);
        assert(wrap_cell(x) - x == (-(x / m)) * m) by (nonlinear_arith)
            requires
                wrap_cell(x) == x % m,
                x == m * (x / m) + x % m,
        ;
    }
}

/// Dividing by zero yields zero, for the quotient and for the remainder.
pub proof fn lemma_divide_by_zero(a: i32)
    ensures
        cell_quotient(a, 0) == 0,
        cell_remainder(a, 0) == 0,
{
}

/// The sum of two cells, overflowing silently.
pub fn wrapping_add_cells(a: i32, b: i32) -> (c: i32)
    ensures
        c == wrap_cell(a + b),
{
    a.wrapping_add(b)
}

/// The difference `a - b` of two cells, overflowing silently.
pub fn wrapping_sub_cells(a: i32, b: i32) -> (c: i32)
    ensures
        c == wrap_cell(a - b),
{
    a.wrapping_sub(b)
}

/// The product of two cells, overflowing silently.
pub fn wrapping_mul_cells(a: i32, b: i32) -> (c: i32)
    ensures
        c == wrap_cell(a * b),
{
    a.wrapping_mul(b)
}

/// The negation of a cell, overflowing silently: the least cell is its own
/// negation.
pub fn wrapping_neg_cell(a: i32) -> (c: i32)
    ensures
        c == wrap_cell(-a),
{
    0i32.wrapping_sub(a)
}

/// The quotient of `a` by `b`, rounded towards zero; undefined for `b == 0`.
pub open spec fn truncated_quotient(a: int, b: int) -> int {
    if a >= 0 && b > 0 {
        a / b
    } else if a < 0 && b < 0 {
        (-a) / (-b)
    } else if a < 0 {
        -((-a) / b)
    } else {
        -(a / (-b))
    }
}

/// The remainder that goes with `truncated_quotient`: it has the sign of `a`.
pub open spec fn truncated_remainder(a: int, b: int) -> int {
    a - b * truncated_quotient(a, b)
}

/// What dividing the cell `a` by the cell `b` yields: zero where `b` is zero,
/// else the quotient rounded towards zero, overflowing silently.
pub open spec fn cell_quotient(a: i32, b: i32) -> i32 {
    if b == 0 {
        0
    } else {
        wrap_cell(truncated_quotient(a as int, b as int))
    }
}

/// What is left over when the cell `a` is divided by the cell `b`: zero where
/// `b` is zero, else the remainder with the sign of `a`.
pub open spec fn cell_remainder(a: i32, b: i32) -> i32 {
    if b == 0 {
        0
    } else {
        wrap_cell(truncated_remainder(a as int, b as int))
    }
}

/// Divides `a` by `b`. A zero divisor yields zero and never a fault.
pub fn divide_cells(a: i32, b: i32) -> (c: i32)
    ensures
        c == cell_quotient(a, b),
{
    match a.checked_div(b) {
        Some(q) => q,
        None => {
            if b == 0 {
                0
            } else {
                // Only the least cell divided by -1 is left: it wraps to itself.
                a
            }
        },
    }
}

/// The remainder of dividing `a` by `b`. A zero divisor yields zero and never
/// a fault.
pub fn remainder_cells(a: i32, b: i32) -> (c: i32)
    ensures
        c == cell_remainder(a, b),
{
    proof {
        if b != 0 {
            lemma_truncated_remainder(a as int, b as int);
        }
    }
    match a.checked_rem(b) {
        Some(r) => r,
        None => 0,
    }
}

/// The remainder of a truncating division, written with the remainder of the
/// absolute values.
pub proof fn lemma_truncated_remainder(a: int, b: int)
    requires
        b != 0,
    ensures
        truncated_remainder(a, b) == if a >= 0 && b > 0 {
            a % b
        } else if a < 0 && b < 0 {
            -((-a) % (-b))
        } else if a < 0 {
            -((-a) % b)
        } else {
            a % (-b)
        },
{
    let aa = if a < 0 { -a } else { a };
    let bb = if b < 0 { -b } else { b };
    vstd::arithmetic::div_mod::lemma_fundamental_div_mod(aa, bb);
    let q = truncated_quotient(a, b);
    assert(b * q == if a < 0 { -(bb * (aa / bb)) } else { bb * (aa / bb) }) by (nonlinear_arith)
        requires
            q == truncated_quotient(a, b),
            aa == if a < 0 { -a } else { a },
            bb == if b < 0 { -b } else { b },
            b != 0,
    ;
}

} // verus!
