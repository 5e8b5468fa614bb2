//! Pacing of frames. Points in time are nanoseconds on one monotonic clock.

use vstd::prelude::*;

verus! {

/// How long to sleep before the frame that is due at `next_deadline`.
pub fn frame_wait(next_deadline: u64, now: u64) -> (nanos: u64)
    ensures
        now < next_deadline ==> nanos == next_deadline - now,
        next_deadline <= now ==> nanos == 0,
{
    if now < next_deadline {
        next_deadline - now
    } else {
        0
    }
}

/// Moves the deadline on after the wait. One that has already passed when the clock reads
/// `checked` is set to one interval behind the later reading `restarted`, so that frames that were
/// missed are not made up for.
pub fn pace_frame(next_deadline: &mut u64, interval: u64, checked: u64, restarted: u64)
    requires
        *old(next_deadline) + interval <= u64::MAX,
        *old(next_deadline) + interval < checked ==> restarted + interval <= u64::MAX,
    ensures
        *final(next_deadline) == paced_deadline(
            *old(next_deadline) as int,
            interval as int,
            checked as int,
            restarted as int,
        ),
{
    *next_deadline = *next_deadline + interval;
    if *next_deadline < checked {
        *next_deadline = restarted + interval;
    }
}

/// The deadline behind the one at `deadline`.
pub open spec fn paced_deadline(deadline: int, interval: int, checked: int, restarted: int) -> int {
    if deadline + interval < checked {
        restarted + interval
    } else {
        deadline + interval
    }
}

/// The next deadline is never in the past, and never further ahead than one interval behind the
/// later of the last deadline and the clock.
pub proof fn next_deadline_is_ahead(deadline: int, interval: int, checked: int, restarted: int)
    requires
        0 <= interval,
        checked <= restarted,
    ensures
        checked <= paced_deadline(deadline, interval, checked, restarted),
        paced_deadline(deadline, interval, checked, restarted) <= deadline + interval
            || paced_deadline(deadline, interval, checked, restarted) <= restarted + interval,
{
}

/// A loop that keeps up sends frames one interval apart: the deadlines do not drift.
pub proof fn deadlines_do_not_drift(deadline: int, interval: int, checked: int, restarted: int)
    requires
        checked <= deadline + interval,
    ensures
        paced_deadline(deadline, interval, checked, restarted) == deadline + interval,
{
}

/// A deadline that was missed is made up for by none of the frames: the next one is due a whole interval
/// behind the clock, however late it is.
pub proof fn missed_frames_are_not_made_up_for(
    deadline: int,
    interval: int,
    checked: int,
    restarted: int,
)
    requires
        deadline + interval < checked,
    ensures
        paced_deadline(deadline, interval, checked, restarted) - restarted == interval,
{
}

} // verus!
