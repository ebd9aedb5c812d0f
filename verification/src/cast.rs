//! Width-checked integer casts.
//!
//! Every cast between integer widths either returns the mathematically equal
//! value in the target type or fails with `FailToCast`; no cast ever wraps
//! or truncates.

use vstd::prelude::*;

use crate::errors::{ClearingHouseResult, Errors};

verus! {

/// Narrows an unsigned 128-bit value to a signed 128-bit value.
pub fn cast_to_i128(t: u128) -> (r: ClearingHouseResult<i128>)
    ensures
        t <= i128::MAX ==> r == Ok::<i128, Errors>(t as i128),
        t > i128::MAX ==> r == Err::<i128, Errors>(Errors::FailToCast),
{
    if t <= i128::MAX as u128 {
        Ok(t as i128)
    } else {
        Err(Errors::FailToCast)
    }
}

/// Narrows an unsigned 128-bit value to a signed 64-bit value.
pub fn cast_to_i64(t: u128) -> (r: ClearingHouseResult<i64>)
    ensures
        t <= i64::MAX ==> r == Ok::<i64, Errors>(t as i64),
        t > i64::MAX ==> r == Err::<i64, Errors>(Errors::FailToCast),
{
    if t <= i64::MAX as u128 {
        Ok(t as i64)
    } else {
        Err(Errors::FailToCast)
    }
}

/// Converts a signed 128-bit value to an unsigned 128-bit value.
pub fn cast_to_u128(t: i128) -> (r: ClearingHouseResult<u128>)
    ensures
        t >= 0 ==> r == Ok::<u128, Errors>(t as u128),
        t < 0 ==> r == Err::<u128, Errors>(Errors::FailToCast),
{
    if t >= 0 {
        Ok(t as u128)
    } else {
        Err(Errors::FailToCast)
    }
}

/// Narrows an unsigned 64-bit value to a signed 64-bit value.
pub fn cast_u64_to_i64(t: u64) -> (r: ClearingHouseResult<i64>)
    ensures
        t <= i64::MAX ==> r == Ok::<i64, Errors>(t as i64),
        t > i64::MAX ==> r == Err::<i64, Errors>(Errors::FailToCast),
{
    if t <= i64::MAX as u64 {
        Ok(t as i64)
    } else {
        Err(Errors::FailToCast)
    }
}

/// Widens a signed 64-bit value to 128 bits; this never fails.
pub fn cast_i64_to_i128(t: i64) -> (r: i128)
    ensures
        r == t,
{
    t as i128
}

/// Widens an unsigned 64-bit value to 128 bits; this never fails.
pub fn cast_u64_to_u128(t: u64) -> (r: u128)
    ensures
        r == t,
{
    t as u128
}

} // verus!
