//! The orchestration layer: it fetches one operand through an operation it is
//! handed, then leaves the arithmetic to the pure layer.
use vstd::prelude::*;

use crate::pure;

verus! {

/// Whether the pure sum of a fetched operand and `y` can be computed: a
/// failed fetch asks nothing of `y`.
pub open spec fn fetch_fits<E>(fetched: Result<i32, E>, y: i32) -> bool {
    match fetched {
        Ok(x) => pure::fits_i32(pure::sum(x as int, y as int)),
        Err(_) => true,
    }
}

/// What the orchestrator returns once the fetch has produced `fetched`: the
/// failure unchanged, or the sum of the fetched value and `y`.
pub open spec fn outcome<E>(fetched: Result<i32, E>, y: i32) -> Result<i32, E> {
    match fetched {
        Ok(x) => Ok(pure::sum(x as int, y as int) as i32),
        Err(e) => Err(e),
    }
}

/// `r` is what `add(get_x, y)` may return: the outcome of one value that the
/// fetch operation may produce.
pub open spec fn delivers<E, F: Fn() -> Result<i32, E>>(get_x: F, y: i32, r: Result<i32, E>) -> bool {
    exists|v: Result<i32, E>| #[trigger] get_x.ensures((), v) && r == outcome(v, y)
}

/// Completes the orchestration once the fetch has finished: a failure is
/// passed on as it is, without any arithmetic; a value is added to `y`.
pub fn finish<E>(fetched: Result<i32, E>, y: i32) -> (r: Result<i32, E>)
    requires
        fetch_fits(fetched, y),
    ensures
        r == outcome(fetched, y),
{
    match fetched {
        Ok(x) => Ok(pure::add(x, y)),
        Err(e) => Err(e),
    }
}

/// Invokes the fetch operation once and combines what it produced with `y`.
/// Nothing here depends on how the operation obtains its value.
pub fn add<E, F: Fn() -> Result<i32, E>>(get_x: F, y: i32) -> (r: Result<i32, E>)
    requires
        get_x.requires(()),
        forall|v: Result<i32, E>| #[trigger] get_x.ensures((), v) ==> fetch_fits(v, y),
    ensures
        delivers(get_x, y, r),
{
    let fetched = get_x();
    finish(fetched, y)
}

/// With a fetch operation that always succeeds with `v`, the orchestrator
/// returns the success `v + y`.
pub proof fn lemma_fetch_succeeds<E, F: Fn() -> Result<i32, E>>(
    get_x: F,
    v: i32,
    y: i32,
    r: Result<i32, E>,
)
    requires
        forall|o: Result<i32, E>| #[trigger] get_x.ensures((), o) ==> o == Ok::<i32, E>(v),
        pure::fits_i32(v + y),
        delivers(get_x, y, r),
    ensures
        r == Ok::<i32, E>((v + y) as i32),
{
}

/// With a fetch operation that always fails with `e`, the orchestrator
/// returns that same failure.
pub proof fn lemma_fetch_fails<E, F: Fn() -> Result<i32, E>>(get_x: F, e: E, y: i32, r: Result<i32, E>)
    requires
        forall|o: Result<i32, E>| #[trigger] get_x.ensures((), o) ==> o == Err::<i32, E>(e),
        delivers(get_x, y, r),
    ensures
        r == Err::<i32, E>(e),
{
}

} // verus!
