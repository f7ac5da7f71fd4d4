//! The concrete fetch operation that the composition root hands to the
//! orchestrator. It stands for a round trip to a store and yields a fixed value.
use vstd::prelude::*;

verus! {

/// The value that the concrete fetch produces.
pub const STORED_X: i32 = 7;

/// Why a fetch failed.
#[derive(Clone, Debug, PartialEq, Eq)]
pub struct FetchError {
    pub message: String,
}

/// Fetches the stored operand. It always succeeds with `STORED_X`.
pub fn get_x() -> (r: Result<i32, FetchError>)
    ensures
        r == Ok::<i32, FetchError>(STORED_X),
{
    Ok(STORED_X)
}

} // verus!
