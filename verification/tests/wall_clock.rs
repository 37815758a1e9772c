use auramate::checkpoint::{gap_since_quit, wall_ms, WallTime};
use auramate::history::{kind_label, wall_span};
use auramate::rhythm::{ClosedInterval, IntervalKind};

#[test]
fn wall_ms_counts_milliseconds_since_epoch() {
    assert_eq!(wall_ms(WallTime { secs: 0, subsec_nanos: 0 }), 0);
    assert_eq!(wall_ms(WallTime { secs: 1_700_000_000, subsec_nanos: 123_999_999 }), 1_700_000_000_123);
    assert_eq!(wall_ms(WallTime { secs: 2, subsec_nanos: 999_999 }), 2000);
}

#[test]
fn wall_ms_before_epoch_is_zero() {
    assert_eq!(wall_ms(WallTime { secs: -1, subsec_nanos: 500_000_000 }), 0);
    assert_eq!(wall_ms(WallTime { secs: i64::MIN, subsec_nanos: 0 }), 0);
}

#[test]
fn gap_since_quit_measures_forward_time_only() {
    let quit = wall_ms(WallTime { secs: 1_700_000_000, subsec_nanos: 0 });
    let later = WallTime { secs: 1_700_000_090, subsec_nanos: 0 };
    assert_eq!(gap_since_quit(quit, later), 90_000);
    let same = WallTime { secs: 1_700_000_000, subsec_nanos: 0 };
    assert_eq!(gap_since_quit(quit, same), 0);
    let earlier = WallTime { secs: 1_699_999_000, subsec_nanos: 0 };
    assert_eq!(gap_since_quit(quit, earlier), 0);
    assert_eq!(gap_since_quit(-5_000, WallTime { secs: 0, subsec_nanos: 0 }), 5_000);
}

#[test]
fn kind_labels_are_stable() {
    assert_eq!(kind_label(IntervalKind::Focus), "focus");
    assert_eq!(kind_label(IntervalKind::ShortBreak), "short_break");
    assert_eq!(kind_label(IntervalKind::LongBreak), "long_break");
    assert_eq!(kind_label(IntervalKind::Overrun), "overrun");
    assert_eq!(kind_label(IntervalKind::Away), "away");
    assert_eq!(kind_label(IntervalKind::LockedSleeping), "locked_sleeping");
    assert_eq!(kind_label(IntervalKind::HyperFocus), "hyper_focus");
    assert_eq!(kind_label(IntervalKind::MediaMeeting), "media_meeting");
}

#[test]
fn wall_span_measures_back_from_now() {
    let now: u64 = 10_000_000;
    let wall_now: i64 = 1_700_000_000_000;
    let interval = ClosedInterval { kind: IntervalKind::Focus, start: now - 60_000, end: now };
    let (start_ms, end_ms) = wall_span(&interval, now, wall_now);
    assert_eq!(start_ms, wall_now - 60_000);
    assert_eq!(end_ms, wall_now);
    assert!(end_ms >= start_ms);

    let future = ClosedInterval { kind: IntervalKind::Away, start: now + 5, end: now + 10 };
    assert_eq!(wall_span(&future, now, wall_now), (wall_now, wall_now));
}
