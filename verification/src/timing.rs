//! Wall-clock arithmetic for the end of playback.

use vstd::prelude::*;

verus! {

/// The absolute time at which playback ends: the wall-clock time `now`, in
/// seconds since the epoch, plus the `offset` in seconds that the player
/// named. The offset is the time that is left where playback goes on from
/// some position, and the whole duration where a duration has just come in.
///
/// The sum is handed on as it is: a zero or negative offset is not clamped,
/// and an end that lies in the past is for the display to hide. With an
/// offset of zero the result is `now` itself.
pub fn compute_end_timestamp(now: i64, offset: i64) -> (end: i64)
    requires
        i64::MIN <= now + offset <= i64::MAX,
    ensures
        end == now + offset,
{
    now + offset
}

} // verus!
