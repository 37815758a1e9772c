use auramate::rhythm::{Phase, RhythmCore, Snapshot, FOCUS_DURATION};
use auramate::tray::{
    press_pause_item, tray_pause_label, tray_title, tray_tooltip, MENU_PAUSE, MENU_SKIP, MENU_SNOOZE,
    TRAY_ID,
};

fn t0() -> u64 {
    7_200_000
}

const SECOND: u64 = 1000;

#[test]
fn tray_tooltip_changes_when_nudge_is_due() {
    let mut core = RhythmCore::new();
    let now = t0();
    core.start_focus(now);
    let during = core.snapshot(now);
    assert!(tray_tooltip(&during).contains("Focus"));
    assert!(!tray_tooltip(&during).contains("Break due"));
    assert!(tray_title(&during).starts_with("F "));

    let past = now + FOCUS_DURATION + SECOND;
    let nudged = core.snapshot(past);
    assert!(tray_tooltip(&nudged).contains("Break due"));
    assert!(tray_title(&nudged).starts_with("! "));
    assert_ne!(tray_title(&during), tray_title(&nudged));
}

#[test]
fn tray_title_distinguishes_focus_and_break() {
    let mut core = RhythmCore::new();
    let now = t0();
    core.start_focus(now);
    assert!(tray_title(&core.snapshot(now)).starts_with("F "));
    core.start_break(now + SECOND);
    assert!(tray_title(&core.snapshot(now + SECOND)).starts_with("B "));
}

#[test]
fn tray_pause_label_toggles_with_paused() {
    let mut core = RhythmCore::new();
    let now = t0();
    core.start_focus(now);
    assert_eq!(tray_pause_label(&core.snapshot(now)), "Pause");
    core.pause(now + SECOND);
    assert_eq!(tray_pause_label(&core.snapshot(now + SECOND)), "Resume");
}

// ---- exact texts ----

fn snap(phase: Option<Phase>, remaining_ms: u64, overrun_ms: u64, paused: bool, nudge: bool) -> Snapshot {
    Snapshot {
        phase,
        remaining_ms,
        overrun_ms,
        paused,
        focuses_completed_in_cycle: 0,
        should_nudge: nudge,
    }
}

#[test]
fn tooltip_texts_are_exact() {
    assert_eq!(tray_tooltip(&snap(None, 0, 0, false, false)), "AuraMate · Ready");
    assert_eq!(
        tray_tooltip(&snap(Some(Phase::Focus), FOCUS_DURATION, 0, false, false)),
        "AuraMate · Focus · 25:00"
    );
    assert_eq!(
        tray_tooltip(&snap(Some(Phase::Focus), 0, 61_500, false, true)),
        "AuraMate · Break due · +1:01"
    );
    assert_eq!(
        tray_tooltip(&snap(Some(Phase::Focus), 1_470_000, 0, true, false)),
        "AuraMate · Focus paused · 24:30"
    );
    assert_eq!(
        tray_tooltip(&snap(Some(Phase::ShortBreak), 299_999, 0, false, false)),
        "AuraMate · Short Break · 4:59"
    );
    assert_eq!(
        tray_tooltip(&snap(Some(Phase::ShortBreak), 0, 0, false, true)),
        "AuraMate · Focus due · 0:00"
    );
    assert_eq!(
        tray_tooltip(&snap(Some(Phase::LongBreak), 900_000, 0, true, false)),
        "AuraMate · Long Break paused · 15:00"
    );
    assert_eq!(
        tray_tooltip(&snap(Some(Phase::LongBreak), 5_000, 0, false, false)),
        "AuraMate · Long Break · 0:05"
    );
}

#[test]
fn title_texts_are_exact() {
    assert_eq!(tray_title(&snap(None, 0, 0, false, false)), "Ready");
    assert_eq!(tray_title(&snap(Some(Phase::Focus), 600_000, 0, false, false)), "F 10:00");
    assert_eq!(tray_title(&snap(Some(Phase::Focus), 600_000, 0, true, false)), "❚❚ F 10:00");
    assert_eq!(tray_title(&snap(Some(Phase::ShortBreak), 9_000, 0, true, false)), "❚❚ B 0:09");
    assert_eq!(tray_title(&snap(Some(Phase::LongBreak), 0, 3_600_000, false, true)), "! +60:00");
    assert_eq!(tray_title(&snap(Some(Phase::LongBreak), 120_000, 0, false, false)), "L 2:00");
}

#[test]
fn clock_uses_overrun_when_present_and_many_minutes() {
    assert_eq!(
        tray_title(&snap(Some(Phase::Focus), 0, 6_000_000_999, false, true)),
        "! +100000:00"
    );
}

#[test]
fn pause_item_toggles_between_pause_and_resume() {
    assert_eq!(TRAY_ID, "auramate");
    assert_eq!((MENU_PAUSE, MENU_SKIP, MENU_SNOOZE), ("tray-pause", "tray-skip", "tray-snooze"));
    let mut core = RhythmCore::new();
    let now = t0();
    core.start_focus(now);
    press_pause_item(&mut core, now + 10 * SECOND);
    let paused = core.snapshot(now + 40 * SECOND);
    assert!(paused.paused);
    assert_eq!(tray_pause_label(&paused), "Resume");
    assert_eq!(paused.remaining_ms, FOCUS_DURATION - 10 * SECOND);
    press_pause_item(&mut core, now + 40 * SECOND);
    let running = core.snapshot(now + 40 * SECOND);
    assert!(!running.paused);
    assert_eq!(tray_pause_label(&running), "Pause");
    assert_eq!(running.remaining_ms, FOCUS_DURATION - 10 * SECOND);
}
