//! Addition with a floor under the first operand.

use crate::error::Error;
use vstd::prelude::*;

verus! {

/// The least first operand that `add_numbers` accepts.
pub const FLOOR: i64 = 10;

/// The sum of `a` and `b` as a 64-bit signed integer: the exact sum where
/// it fits, and otherwise the sum reduced modulo 2^64 into the type's
/// range.
pub open spec fn wrapped_sum(a: i64, b: i64) -> i64 {
    if a + b > i64::MAX {
        (a + b - 0x1_0000_0000_0000_0000) as i64
    } else if a + b < i64::MIN {
        (a + b + 0x1_0000_0000_0000_0000) as i64
    } else {
        (a + b) as i64
    }
}

/// Adds `b` to `a`, unless `a` is below the floor.
///
/// Only `a` is held against the floor; `b` may be any value. A sum that
/// does not fit in 64 bits wraps around.
pub fn add_numbers(a: i64, b: i64) -> (sum: Result<i64, Error>)
    ensures
        a < FLOOR ==> sum == Err::<i64, Error>(Error::ValueTooSmall(a)),
        a >= FLOOR ==> sum == Ok::<i64, Error>(wrapped_sum(a, b)),
        a >= FLOOR && a + b <= i64::MAX ==> sum == Ok::<i64, Error>((a + b) as i64),
{
    if a < FLOOR {
        return Err(Error::ValueTooSmall(a));
    }
    Ok(a.wrapping_add(b))
}

} // verus!
