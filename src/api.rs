//! The composition root: the one place where the concrete fetch is chosen and
//! handed to the orchestrator.
use vstd::prelude::*;

use crate::domain;
use crate::infra::{self, FetchError, STORED_X};
use crate::pure;

verus! {

/// Adds `y` to the stored operand, fetched through the concrete operation.
pub fn add(y: i32) -> (r: Result<i32, FetchError>)
    requires
        pure::fits_i32(STORED_X + y),
    ensures
        r == Ok::<i32, FetchError>((STORED_X + y) as i32),
{
    let r = domain::add(infra::get_x, y);
    proof {
        domain::lemma_fetch_succeeds(infra::get_x, STORED_X, y, r);
    }
    r
}

} // verus!
