//! The balance rule: an account may go negative, but never below its credit limit.

use vstd::prelude::*;

verus! {

/// The balance rule over the integers: `balance` is no lower than `-limit`.
pub open spec fn within_limit(balance: int, limit: int) -> bool {
    balance + limit >= 0
}

/// Tells whether a candidate balance respects a credit limit.
pub fn check(candidate: i64, limit: i64) -> (ok: bool)
    ensures
        ok == within_limit(candidate as int, limit as int),
{
    candidate as i128 + limit as i128 >= 0
}

} // verus!
