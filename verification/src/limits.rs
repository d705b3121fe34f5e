//! Numbers that cross the boundary between seconds, milliseconds and columns.

use crate::error::StoreError;
use crate::records::SecretRequestStatus;
use crate::text::same;
use vstd::prelude::*;

verus! {

/// A duration in seconds as milliseconds, where it is positive and fits.
pub open spec fn milliseconds(seconds: u64) -> Option<i64> {
    if seconds == 0 || seconds * 1_000 > i64::MAX {
        None
    } else {
        Some((seconds * 1_000) as i64)
    }
}

/// A duration in seconds as milliseconds. Zero, and what does not fit into a
/// column, is refused under the name of the field.
pub fn positive_milliseconds(seconds: u64, field: &'static str) -> (reply: Result<i64, StoreError>)
    ensures
        reply == match milliseconds(seconds) {
            Some(value) => Ok::<i64, StoreError>(value),
            None => Err(StoreError::InvalidInput(field)),
        },
{
    if seconds == 0 {
        return Err(StoreError::InvalidInput(field));
    }
    match seconds.checked_mul(1_000) {
        Some(value) => {
            if value <= i64::MAX as u64 {
                Ok(value as i64)
            } else {
                Err(StoreError::InvalidInput(field))
            }
        },
        None => Err(StoreError::InvalidInput(field)),
    }
}

/// A number moved into the range of a column.
pub open spec fn clamped(value: int) -> i64 {
    if value > i64::MAX {
        i64::MAX
    } else if value < i64::MIN {
        i64::MIN
    } else {
        value as i64
    }
}

/// The sum, moved into the range of a column.
pub fn saturated_sum(a: i64, b: i64) -> (sum: i64)
    ensures
        sum == clamped(a + b),
{
    match a.checked_add(b) {
        Some(sum) => sum,
        None => {
            if b > 0 {
                i64::MAX
            } else {
                i64::MIN
            }
        },
    }
}

/// The difference, moved into the range of a column.
pub fn saturated_difference(a: i64, b: i64) -> (difference: i64)
    ensures
        difference == clamped(a - b),
{
    match a.checked_sub(b) {
        Some(difference) => difference,
        None => {
            if b < 0 {
                i64::MAX
            } else {
                i64::MIN
            }
        },
    }
}

/// The sum, where it fits into a column.
pub open spec fn exact_sum(a: i64, b: i64) -> Option<i64> {
    if i64::MIN <= a + b <= i64::MAX {
        Some((a + b) as i64)
    } else {
        None
    }
}

/// An unsigned number as a column holds it. What does not fit is refused under
/// the name of the field.
pub fn to_i64(value: u64, field: &'static str) -> (reply: Result<i64, StoreError>)
    ensures
        reply == if value <= i64::MAX {
            Ok::<i64, StoreError>(value as i64)
        } else {
            Err(StoreError::InvalidInput(field))
        },
{
    if value <= i64::MAX as u64 {
        Ok(value as i64)
    } else {
        Err(StoreError::InvalidInput(field))
    }
}

/// The status that a stored text stands for.
pub open spec fn request_status(status: Seq<char>) -> Result<SecretRequestStatus, StoreError> {
    if status == "pending"@ {
        Ok(SecretRequestStatus::Pending)
    } else if status == "submitted"@ {
        Ok(SecretRequestStatus::Submitted)
    } else {
        Err(StoreError::MissingState("secret request status"))
    }
}

/// Read a stored status.
pub fn parse_request_status(status: String) -> (reply: Result<SecretRequestStatus, StoreError>)
    ensures
        reply == request_status(status@),
{
    if same(&status, "pending") {
        Ok(SecretRequestStatus::Pending)
    } else if same(&status, "submitted") {
        Ok(SecretRequestStatus::Submitted)
    } else {
        Err(StoreError::MissingState("secret request status"))
    }
}

/// Whether a deadline is ahead. Nothing is while the time cannot be told.
pub open spec fn unexpired(expires_at_ms: i64, now: Option<i64>) -> bool {
    match now {
        Some(now_ms) => expires_at_ms > now_ms,
        None => false,
    }
}

/// Test whether a deadline is ahead.
pub fn is_unexpired(expires_at_ms: i64, now: Option<i64>) -> (ahead: bool)
    ensures
        ahead == unexpired(expires_at_ms, now),
{
    match now {
        Some(now_ms) => expires_at_ms > now_ms,
        None => false,
    }
}

/// A moment moved by a duration, where the moment can be told and the result
/// fits.
pub open spec fn moment_after(now: Option<i64>, duration_ms: i64) -> Option<i64> {
    match now {
        Some(now_ms) => exact_sum(now_ms, duration_ms),
        None => None,
    }
}

/// Move a moment by a duration.
pub fn deadline(now: Option<i64>, duration_ms: i64) -> (moment: Option<i64>)
    ensures
        moment == moment_after(now, duration_ms),
{
    match now {
        Some(now_ms) => now_ms.checked_add(duration_ms),
        None => None,
    }
}

/// A page size between one and a largest one.
pub open spec fn page_size(limit: u32, largest: u32) -> int {
    if limit < 1 {
        1
    } else if limit > largest {
        largest as int
    } else {
        limit as int
    }
}

/// Move a page size into its range.
pub fn clamp_limit(limit: u32, largest: u32) -> (size: usize)
    requires
        1 <= largest,
    ensures
        size == page_size(limit, largest),
{
    if limit < 1 {
        1
    } else if limit > largest {
        largest as usize
    } else {
        limit as usize
    }
}

} // verus!
