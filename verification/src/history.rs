//! Local history: how Rhythm Core interval intents become stored rows. Rows are
//! labelled intervals in wall-clock milliseconds; there are no scores or streaks.

use crate::rhythm::{ClosedInterval, IntervalKind};
use vstd::prelude::*;

verus! {

/// One stored history interval.
#[derive(Debug, Clone)]
pub struct HistoryRow {
    pub id: i64,
    pub kind: String,
    pub start_ms: i64,
    pub end_ms: i64,
}

/// The stored label of each interval kind.
pub open spec fn kind_text(kind: IntervalKind) -> Seq<char> {
    match kind {
        IntervalKind::Focus => "focus"@,
        IntervalKind::ShortBreak => "short_break"@,
        IntervalKind::LongBreak => "long_break"@,
        IntervalKind::Overrun => "overrun"@,
        IntervalKind::Away => "away"@,
        IntervalKind::LockedSleeping => "locked_sleeping"@,
        IntervalKind::HyperFocus => "hyper_focus"@,
        IntervalKind::MediaMeeting => "media_meeting"@,
    }
}

pub fn kind_label(kind: IntervalKind) -> (label: &'static str)
    ensures
        label@ == kind_text(kind),
{
    match kind {
        IntervalKind::Focus => "focus",
        IntervalKind::ShortBreak => "short_break",
        IntervalKind::LongBreak => "long_break",
        IntervalKind::Overrun => "overrun",
        IntervalKind::Away => "away",
        IntervalKind::LockedSleeping => "locked_sleeping",
        IntervalKind::HyperFocus => "hyper_focus",
        IntervalKind::MediaMeeting => "media_meeting",
    }
}

/// Different kinds of interval are stored under different labels.
pub proof fn lemma_kind_labels_distinct(a: IntervalKind, b: IntervalKind)
    requires
        kind_text(a) == kind_text(b),
    ensures
        a == b,
{
    reveal_strlit("focus");
    reveal_strlit("short_break");
    reveal_strlit("long_break");
    reveal_strlit("overrun");
    reveal_strlit("away");
    reveal_strlit("locked_sleeping");
    reveal_strlit("hyper_focus");
    reveal_strlit("media_meeting");
    assert("focus"@.len() == 5 && "focus"@[0] == 'f');
    assert("short_break"@.len() == 11 && "short_break"@[0] == 's');
    assert("long_break"@.len() == 10 && "long_break"@[0] == 'l');
    assert("overrun"@.len() == 7 && "overrun"@[0] == 'o');
    assert("away"@.len() == 4 && "away"@[0] == 'a');
    assert("locked_sleeping"@.len() == 15 && "locked_sleeping"@[0] == 'l');
    assert("hyper_focus"@.len() == 11 && "hyper_focus"@[0] == 'h');
    assert("media_meeting"@.len() == 13 && "media_meeting"@[0] == 'm');
    assert(kind_text(a).len() == kind_text(b).len());
    assert(kind_text(a)[0] == kind_text(b)[0]);
}

/// Monotonic milliseconds from `t` to `instant_now`, `0` when `t` is later.
pub open spec fn elapsed_since(instant_now: u64, t: u64) -> u64 {
    if instant_now >= t {
        (instant_now - t) as u64
    } else {
        0
    }
}

/// Wall-clock milliseconds of the monotonic instant `t`, given that
/// `instant_now` reads `wall_now_ms` on the wall clock.
pub open spec fn wall_of(instant_now: u64, wall_now_ms: i64, t: u64) -> int {
    wall_now_ms - (elapsed_since(instant_now, t) as i64)
}

/// Placing the instant on the wall clock does not overflow `i64`.
pub open spec fn wall_of_fits(instant_now: u64, wall_now_ms: i64, t: u64) -> bool {
    i64::MIN <= wall_of(instant_now, wall_now_ms, t) <= i64::MAX
}

/// Wall-clock start and end of a closed interval, in milliseconds since the
/// Unix epoch, measured back from the present.
pub fn wall_span(interval: &ClosedInterval, instant_now: u64, wall_now_ms: i64) -> (span: (
    i64,
    i64,
))
    requires
        wall_of_fits(instant_now, wall_now_ms, interval.start),
        wall_of_fits(instant_now, wall_now_ms, interval.end),
    ensures
        span.0 == wall_of(instant_now, wall_now_ms, interval.start),
        span.1 == wall_of(instant_now, wall_now_ms, interval.end),
{
    let since_start = if instant_now >= interval.start {
        instant_now - interval.start
    } else {
        0
    };
    let since_end = if instant_now >= interval.end {
        instant_now - interval.end
    } else {
        0
    };
    let start_ms = wall_now_ms - since_start as i64;
    let end_ms = wall_now_ms - since_end as i64;
    (start_ms, end_ms)
}

/// An interval that ended by now keeps its length and order on the wall clock.
pub proof fn lemma_wall_span_keeps_length(
    interval: ClosedInterval,
    instant_now: u64,
    wall_now_ms: i64,
)
    requires
        interval.start <= interval.end <= instant_now,
        instant_now - interval.start <= i64::MAX,
    ensures
        wall_of(instant_now, wall_now_ms, interval.end) - wall_of(
            instant_now,
            wall_now_ms,
            interval.start,
        ) == interval.end - interval.start,
        wall_of(instant_now, wall_now_ms, interval.start) <= wall_of(
            instant_now,
            wall_now_ms,
            interval.end,
        ),
{
}

} // verus!
