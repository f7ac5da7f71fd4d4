//! The pure layer: arithmetic on plain values, with no effects and no failure.
use vstd::prelude::*;

verus! {

/// Whether `v` can be held in an `i32`.
pub open spec fn fits_i32(v: int) -> bool {
    i32::MIN <= v <= i32::MAX
}

/// The mathematical sum of two integers.
pub open spec fn sum(x: int, y: int) -> int {
    x + y
}

/// Adds two integers. The sum must fit in an `i32`.
pub fn add(x: i32, y: i32) -> (r: i32)
    requires
        fits_i32(sum(x as int, y as int)),
    ensures
        r == sum(x as int, y as int),
{
    x + y
}

/// The sum does not depend on the order of its operands.
pub proof fn lemma_sum_commutative(x: int, y: int)
    ensures
        sum(x, y) == sum(y, x),
{
}

/// Grouping does not change the sum of three operands.
pub proof fn lemma_sum_associative(x: int, y: int, z: int)
    ensures
        sum(sum(x, y), z) == sum(x, sum(y, z)),
{
}

/// Zero is the neutral element of the sum, on either side.
pub proof fn lemma_sum_neutral(x: int)
    ensures
        sum(x, 0) == x,
        sum(0, x) == x,
{
}

} // verus!
