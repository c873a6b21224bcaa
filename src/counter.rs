//! A per-session visit counter kept in the session payload.

use vstd::prelude::*;
use crate::session::{ReadableSession, SessionPayload, WritableSession};

verus! {

/// The counter after one more visit: one on the first visit; past the
/// largest `i32` it wraps around to the smallest.
pub open spec fn next_count(count: Option<i32>) -> i32 {
    match count {
        Some(n) => if n < i32::MAX { (n + 1) as i32 } else { i32::MIN },
        None => 1,
    }
}

/// The counter of the session, zero when it has none.
pub fn display_handler(session: &ReadableSession) -> (r: i32)
    ensures
        r == (match session.payload.count {
            Some(c) => c,
            None => 0i32,
        }),
{
    match session.payload.count {
        Some(c) => c,
        None => 0,
    }
}

/// Counts one more visit in the session and returns the new count.
pub fn increment_handler(session: &mut WritableSession) -> (r: i32)
    ensures
        r == next_count(old(session).payload.count),
        final(session).payload == (SessionPayload { count: Some(r), ..old(session).payload }),
        final(session).token == old(session).token,
        final(session).destroyed == old(session).destroyed,
{
    let count: i32 = match session.payload.count {
        Some(n) => n.wrapping_add(1),
        None => 1,
    };
    session.insert_count(count);
    count
}

/// Resets the counter by destroying the session.
pub fn reset_handler(session: &mut WritableSession)
    ensures
        final(session).destroyed,
        final(session).token == old(session).token,
        final(session).payload == old(session).payload,
{
    session.destroy();
}

} // verus!
