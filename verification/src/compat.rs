//! Conversions between the integer types of the CUPS C interface and Rust's.

use vstd::prelude::*;

verus! {

/// A C truth value: anything but zero is true.
pub fn cups_bool(value: i32) -> (r: bool)
    ensures
        r == (value != 0),
{
    value != 0
}

/// A C count as a length; a negative count means nothing.
pub fn count_to_usize(count: i32) -> (r: usize)
    ensures
        r == if count < 0 {
            0
        } else {
            count as int
        },
{
    if count < 0 {
        0
    } else {
        count as usize
    }
}

/// A length as a C count, capped at the largest C `int`.
pub fn usize_to_count(count: usize) -> (r: i32)
    ensures
        r == if count > i32::MAX {
            i32::MAX as int
        } else {
            count as int
        },
{
    if count > 2147483647 {
        i32::MAX
    } else {
        count as i32
    }
}

} // verus!
