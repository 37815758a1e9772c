//! Wall-clock arithmetic for quit/relaunch checkpoints: the quit time is kept as
//! milliseconds since the Unix epoch, and the gap since quitting is measured on
//! the wall clock.

use vstd::prelude::*;

verus! {

/// A wall-clock reading as the system clock keeps it: whole seconds since the
/// Unix epoch (negative before it) and the nanoseconds past that second.
#[derive(Debug, Clone, Copy, PartialEq, Eq, Structural)]
pub struct WallTime {
    pub secs: i64,
    pub subsec_nanos: u32,
}

/// Milliseconds since the Unix epoch, `0` for readings before the epoch, wrapped
/// to `i64` as a cast does.
pub open spec fn wall_millis(t: WallTime) -> i64 {
    if t.secs < 0 {
        0
    } else {
        (t.secs * 1000 + t.subsec_nanos / 1_000_000) as i64
    }
}

/// Milliseconds since the Unix epoch of a wall-clock reading; readings before
/// the epoch count as the epoch.
pub fn wall_ms(t: WallTime) -> (ms: i64)
    ensures
        ms == wall_millis(t),
{
    if t.secs < 0 {
        return 0;
    }
    let secs = t.secs as u128;
    let millis: u128 = secs * 1000 + (t.subsec_nanos / 1_000_000) as u128;
    millis as i64
}

/// A valid reading: the nanoseconds are within the second.
pub open spec fn valid_wall_time(t: WallTime) -> bool {
    t.subsec_nanos < 1_000_000_000
}

/// `t1` is no later than `t2`.
pub open spec fn not_after(t1: WallTime, t2: WallTime) -> bool {
    t1.secs < t2.secs || (t1.secs == t2.secs && t1.subsec_nanos <= t2.subsec_nanos)
}

/// Within the range of `i64` milliseconds, later readings never give fewer
/// milliseconds, and a reading one whole second later gives exactly 1000 more.
pub proof fn lemma_wall_millis_monotone(t1: WallTime, t2: WallTime)
    requires
        valid_wall_time(t1),
        valid_wall_time(t2),
        not_after(t1, t2),
        t2.secs * 1000 + 999 <= i64::MAX,
    ensures
        wall_millis(t1) <= wall_millis(t2),
        t1.secs >= 0 && t2.secs == t1.secs + 1 && t2.subsec_nanos == t1.subsec_nanos
            ==> wall_millis(t2) == wall_millis(t1) + 1000,
        t1.secs < 0 ==> wall_millis(t1) == 0,
{
    assert(t1.subsec_nanos / 1_000_000 <= 999);
    assert(t2.subsec_nanos / 1_000_000 <= 999);
    if t1.secs == t2.secs {
        assert(t1.subsec_nanos / 1_000_000 <= t2.subsec_nanos / 1_000_000) by (nonlinear_arith)
            requires
                t1.subsec_nanos <= t2.subsec_nanos,
        ;
    }
}

/// The gap since quitting does not overflow `i64` milliseconds.
pub open spec fn gap_fits(quit_wall_ms: i64, wall_now: WallTime) -> bool {
    wall_millis(wall_now) > quit_wall_ms ==> wall_millis(wall_now) - quit_wall_ms <= i64::MAX
}

/// Milliseconds from the quit time to `wall_now`; `0` when the clock reads the
/// quit time or earlier (a clock set back never gives a negative gap).
pub fn gap_since_quit(quit_wall_ms: i64, wall_now: WallTime) -> (gap_ms: u64)
    requires
        gap_fits(quit_wall_ms, wall_now),
    ensures
        gap_ms == (if wall_millis(wall_now) <= quit_wall_ms {
            0
        } else {
            wall_millis(wall_now) - quit_wall_ms
        }),
{
    let now_ms = wall_ms(wall_now);
    if now_ms <= quit_wall_ms {
        return 0;
    }
    (now_ms - quit_wall_ms) as u64
}

} // verus!
