use auramate::rhythm::{
    Phase, RhythmCore, FOCUS_DURATION, LONG_BREAK_DURATION, SHORT_BREAK_DURATION,
};

/// A monotonic clock reading, in milliseconds.
fn t0() -> u64 {
    7_200_000
}

const SECOND: u64 = 1000;

#[test]
fn starts_idle() {
    let core = RhythmCore::new();
    let snap = core.snapshot(t0());
    assert_eq!(snap.phase, None);
    assert_eq!(snap.remaining_ms, 0);
    assert!(!snap.paused);
}

#[test]
fn start_focus_sets_phase_and_remaining_from_timestamps() {
    let mut core = RhythmCore::new();
    let now = t0();
    core.start_focus(now);
    let snap = core.snapshot(now);
    assert_eq!(snap.phase, Some(Phase::Focus));
    assert_eq!(snap.remaining_ms, FOCUS_DURATION);

    let later = now + 60 * SECOND;
    let snap = core.snapshot(later);
    assert_eq!(snap.remaining_ms, FOCUS_DURATION - 60 * SECOND);
}

#[test]
fn focus_then_short_break_then_focus() {
    let mut core = RhythmCore::new();
    let now = t0();
    core.start_focus(now);
    core.start_break(now + SECOND);
    assert_eq!(core.snapshot(now + SECOND).phase, Some(Phase::ShortBreak));
    assert_eq!(core.snapshot(now + SECOND).remaining_ms, SHORT_BREAK_DURATION);
    assert_eq!(core.snapshot(now + SECOND).focuses_completed_in_cycle, 1);

    core.start_focus(now + 2 * SECOND);
    assert_eq!(core.snapshot(now + 2 * SECOND).phase, Some(Phase::Focus));
}

#[test]
fn fourth_focus_leads_to_long_break() {
    let mut core = RhythmCore::new();
    let mut now = t0();
    for i in 1..=4 {
        core.start_focus(now);
        now += SECOND;
        core.start_break(now);
        let snap = core.snapshot(now);
        if i < 4 {
            assert_eq!(snap.phase, Some(Phase::ShortBreak), "break after focus {i}");
        } else {
            assert_eq!(snap.phase, Some(Phase::LongBreak));
            assert_eq!(snap.remaining_ms, LONG_BREAK_DURATION);
            assert_eq!(snap.focuses_completed_in_cycle, 0);
        }
        now += SECOND;
    }
}

#[test]
fn pause_freezes_remaining_resume_recomputes_end() {
    let mut core = RhythmCore::new();
    let now = t0();
    core.start_focus(now);
    let at_pause = now + 100 * SECOND;
    core.pause(at_pause);
    let frozen = core.snapshot(at_pause);
    assert!(frozen.paused);
    assert_eq!(frozen.remaining_ms, FOCUS_DURATION - 100 * SECOND);

    // Time passes while paused — remaining unchanged
    let later = at_pause + 500 * SECOND;
    assert_eq!(core.snapshot(later).remaining_ms, frozen.remaining_ms);

    core.resume(later);
    let after = core.snapshot(later);
    assert!(!after.paused);
    assert_eq!(after.remaining_ms, frozen.remaining_ms);

    let after_one_min = later + 60 * SECOND;
    assert_eq!(core.snapshot(after_one_min).remaining_ms, frozen.remaining_ms - 60_000);
}

#[test]
fn past_planned_end_reports_overrun_not_negative_remaining() {
    let mut core = RhythmCore::new();
    let now = t0();
    core.start_focus(now);
    let past = now + FOCUS_DURATION + 30 * SECOND;
    let snap = core.snapshot(past);
    assert_eq!(snap.remaining_ms, 0);
    assert_eq!(snap.overrun_ms, 30_000);
    assert_eq!(snap.phase, Some(Phase::Focus));
}

// ---- further behaviour of the core ----

#[test]
fn default_durations_are_classic() {
    assert_eq!(FOCUS_DURATION, 25 * 60 * 1000);
    assert_eq!(SHORT_BREAK_DURATION, 5 * 60 * 1000);
    assert_eq!(LONG_BREAK_DURATION, 15 * 60 * 1000);
}

#[test]
fn start_break_outside_focus_does_nothing() {
    let mut core = RhythmCore::new();
    let now = t0();
    core.start_break(now);
    assert_eq!(core.snapshot(now).phase, None);
    assert_eq!(core.snapshot(now).focuses_completed_in_cycle, 0);

    core.start_focus(now);
    core.start_break(now + SECOND);
    let before = core.snapshot(now + 2 * SECOND);
    core.start_break(now + 2 * SECOND);
    assert_eq!(core.snapshot(now + 2 * SECOND), before);
}

#[test]
fn eighth_focus_also_leads_to_long_break() {
    let mut core = RhythmCore::new();
    let now = t0();
    for i in 1..=8 {
        core.start_focus(now);
        core.start_break(now);
        let phase = core.snapshot(now).phase;
        if i % 4 == 0 {
            assert_eq!(phase, Some(Phase::LongBreak));
        } else {
            assert_eq!(phase, Some(Phase::ShortBreak));
        }
        assert_eq!(core.snapshot(now).focuses_completed_in_cycle, i % 4);
    }
}

#[test]
fn nudge_due_exactly_at_planned_end() {
    let mut core = RhythmCore::new();
    let now = t0();
    core.start_focus(now);
    assert!(!core.snapshot(now + FOCUS_DURATION - 1).should_nudge);
    assert!(core.snapshot(now + FOCUS_DURATION).should_nudge);
    assert_eq!(core.snapshot(now + FOCUS_DURATION).remaining_ms, 0);
    assert_eq!(core.snapshot(now + FOCUS_DURATION).overrun_ms, 0);
    core.pause(now + FOCUS_DURATION + SECOND);
    assert!(!core.snapshot(now + FOCUS_DURATION + 2 * SECOND).should_nudge);
}

#[test]
fn pause_past_end_freezes_zero_and_resume_nudges() {
    let mut core = RhythmCore::new();
    let now = t0();
    core.start_focus(now);
    let past = now + FOCUS_DURATION + 10 * SECOND;
    core.pause(past);
    let frozen = core.snapshot(past + 60 * SECOND);
    assert!(frozen.paused);
    assert_eq!(frozen.remaining_ms, 0);
    assert_eq!(frozen.overrun_ms, 0);
    core.resume(past + 60 * SECOND);
    let snap = core.snapshot(past + 60 * SECOND);
    assert!(snap.should_nudge);
    assert_eq!(snap.overrun_ms, 0);
}

#[test]
fn pause_twice_and_resume_unpaused_are_no_ops() {
    let mut core = RhythmCore::new();
    let now = t0();
    core.start_focus(now);
    core.resume(now + SECOND);
    assert_eq!(core.snapshot(now + SECOND).remaining_ms, FOCUS_DURATION - SECOND);
    core.pause(now + 2 * SECOND);
    core.pause(now + 50 * SECOND);
    assert_eq!(core.snapshot(now + 90 * SECOND).remaining_ms, FOCUS_DURATION - 2 * SECOND);
    let mut idle = RhythmCore::default();
    idle.pause(now);
    idle.resume(now);
    assert_eq!(idle.snapshot(now).phase, None);
    assert!(!idle.snapshot(now).paused);
}

#[test]
fn clone_keeps_the_session() {
    let mut core = RhythmCore::new();
    let now = t0();
    core.start_focus(now);
    let copy = core.clone();
    assert_eq!(copy.snapshot(now + SECOND), core.snapshot(now + SECOND));
}

#[test]
fn long_break_after_fourth_focus_with_pauses_at_varied_instants() {
    let mut core = RhythmCore::new();
    let mut now = t0();
    for i in 1..=8u32 {
        core.start_focus(now);
        now += 37 * SECOND * u64::from(i);
        core.pause(now);
        now += 90 * SECOND;
        core.resume(now);
        now += 1_500 * SECOND;
        core.start_break(now);
        let snap = core.snapshot(now);
        assert_eq!(snap.focuses_completed_in_cycle, i % 4);
        let expected = if i % 4 == 0 { Phase::LongBreak } else { Phase::ShortBreak };
        assert_eq!(snap.phase, Some(expected));
        now += 11 * SECOND;
    }
}

#[test]
fn remaining_never_exceeds_stage_length() {
    let mut core = RhythmCore::new();
    let mut now = t0();
    core.start_focus(now);
    for _ in 0..5 {
        now += 7 * SECOND;
        core.pause(now);
        now += 600 * SECOND;
        assert!(core.snapshot(now).remaining_ms <= FOCUS_DURATION);
        core.resume(now);
        assert!(core.snapshot(now).remaining_ms <= FOCUS_DURATION);
    }
    core.start_break(now);
    assert!(core.snapshot(now + SECOND).remaining_ms <= SHORT_BREAK_DURATION);
}

#[test]
fn resume_counts_down_from_frozen_remaining() {
    let mut core = RhythmCore::new();
    let now = t0();
    core.start_focus(now);
    core.pause(now + 200 * SECOND);
    let frozen = core.snapshot(now + 900 * SECOND);
    core.resume(now + 900 * SECOND);
    let later = core.snapshot(now + 900 * SECOND + 45 * SECOND);
    assert!(!later.paused);
    assert_eq!(later.phase, frozen.phase);
    assert_eq!(later.remaining_ms, frozen.remaining_ms - 45 * SECOND);
    assert_eq!(later.overrun_ms, 0);
}
