use vstd::prelude::*;

verus! {

/// Milliseconds from `last` to `now`; zero when the clock reads earlier than `last`.
pub open spec fn elapsed(now: u64, last: u64) -> int {
    if now >= last {
        now - last
    } else {
        0
    }
}

/// A cycle may run: none ran before, or at least `interval` ms passed since the last one.
pub open spec fn is_due(last: Option<u64>, now: u64, interval: u64) -> bool {
    match last {
        None => true,
        Some(t) => elapsed(now, t) >= interval,
    }
}

/// Milliseconds still to wait before a cycle may run.
pub open spec fn wait_ms(last: Option<u64>, now: u64, interval: u64) -> int {
    match last {
        None => 0,
        Some(t) => if elapsed(now, t) >= interval {
            0
        } else {
            interval - elapsed(now, t)
        },
    }
}

/// Milliseconds elapsed since the last execution.
pub fn time_remaining(now: u64, last_execution: u64) -> (r: u64)
    ensures
        r == elapsed(now, last_execution),
{
    if now >= last_execution {
        now - last_execution
    } else {
        0
    }
}

/// Whether a cycle may run at `now`.
pub fn due(last: Option<u64>, now: u64, interval: u64) -> (r: bool)
    ensures
        r == is_due(last, now, interval),
{
    match last {
        None => true,
        Some(t) => time_remaining(now, t) >= interval,
    }
}

/// Milliseconds to sleep until a cycle may run; zero when one may run now.
pub fn delay_until_due(last: Option<u64>, now: u64, interval: u64) -> (r: u64)
    ensures
        r == wait_ms(last, now, interval),
        r == 0 <==> is_due(last, now, interval),
{
    match last {
        None => 0,
        Some(t) => {
            let e = time_remaining(now, t);
            if e >= interval {
                0
            } else {
                interval - e
            }
        },
    }
}

} // verus!
