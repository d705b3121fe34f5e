//! Pages of records in the order of a timestamp and an identifier.

use crate::text::{before, text_before};
use vstd::prelude::*;

verus! {

/// The place behind which a page starts: a timestamp and an identifier.
pub open spec fn cursor_view(cursor: Option<(i64, String)>) -> Option<(i64, Seq<char>)> {
    match cursor {
        Some((at_ms, id)) => Some((at_ms, id@)),
        None => None,
    }
}

/// Whether one place comes before another: earlier, or at the same time with a
/// smaller identifier.
pub open spec fn place_before(
    a_ms: i64,
    a_id: Seq<char>,
    b_ms: i64,
    b_id: Seq<char>,
) -> bool {
    a_ms < b_ms || (a_ms == b_ms && text_before(a_id, b_id))
}

/// Whether a place comes behind a cursor in ascending order.
pub open spec fn behind(cursor: Option<(i64, Seq<char>)>, at_ms: i64, id: Seq<char>) -> bool {
    match cursor {
        Some((cursor_ms, cursor_id)) => place_before(cursor_ms, cursor_id, at_ms, id),
        None => true,
    }
}

/// Whether a place comes behind a cursor in descending order.
pub open spec fn ahead(cursor: Option<(i64, Seq<char>)>, at_ms: i64, id: Seq<char>) -> bool {
    match cursor {
        Some((cursor_ms, cursor_id)) => place_before(at_ms, id, cursor_ms, cursor_id),
        None => true,
    }
}

/// Test whether one place comes before another.
pub fn is_before(a_ms: i64, a_id: &str, b_ms: i64, b_id: &str) -> (yes: bool)
    ensures
        yes == place_before(a_ms, a_id@, b_ms, b_id@),
{
    a_ms < b_ms || (a_ms == b_ms && before(a_id, b_id))
}

/// Test whether a place comes behind a cursor in ascending order.
pub fn is_behind(cursor: &Option<(i64, String)>, at_ms: i64, id: &str) -> (yes: bool)
    ensures
        yes == behind(cursor_view(*cursor), at_ms, id@),
{
    match cursor {
        Some(place) => is_before(place.0, &place.1, at_ms, id),
        None => true,
    }
}

/// Test whether a place comes behind a cursor in descending order.
pub fn is_ahead(cursor: &Option<(i64, String)>, at_ms: i64, id: &str) -> (yes: bool)
    ensures
        yes == ahead(cursor_view(*cursor), at_ms, id@),
{
    match cursor {
        Some(place) => is_before(at_ms, id, place.0, &place.1),
        None => true,
    }
}

} // verus!
