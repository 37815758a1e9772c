//! Tray / menu-bar presentation of a `Snapshot`: tooltip, compact title and the
//! pause/resume menu label. Text only; no window is shown or focused.

use crate::rhythm::{Phase, RhythmCore, RhythmModel, Snapshot};
use crate::text::{
    decimal, digits_value, is_digit, lemma_decimal_reads_back, lemma_two_digits_reads_back,
    push_decimal, two_digits,
};
use vstd::prelude::*;

verus! {

/// Identifier of the tray icon.
pub const TRAY_ID: &'static str = "auramate";

/// Menu item that pauses or resumes.
pub const MENU_PAUSE: &'static str = "tray-pause";

/// Menu item that skips.
pub const MENU_SKIP: &'static str = "tray-skip";

/// Menu item that snoozes.
pub const MENU_SNOOZE: &'static str = "tray-snooze";

/// `m:ss` of the remaining time, or `+m:ss` of the overrun when there is one.
pub open spec fn clock_text(remaining_ms: nat, overrun_ms: nat) -> Seq<char> {
    let ms = if overrun_ms > 0 {
        overrun_ms
    } else {
        remaining_ms
    };
    let total_sec = ms / 1000;
    let sign = if overrun_ms > 0 {
        seq!['+']
    } else {
        Seq::<char>::empty()
    };
    sign + decimal(total_sec / 60) + seq![':'] + two_digits(total_sec % 60)
}

/// Tooltip text for every platform; it changes clearly when a nudge is due.
pub open spec fn tooltip_text(snap: Snapshot) -> Seq<char> {
    let clock = clock_text(snap.remaining_ms as nat, snap.overrun_ms as nat);
    match snap.phase {
        None => "AuraMate · Ready"@,
        Some(Phase::Focus) => if snap.should_nudge {
            "AuraMate · Break due · "@ + clock
        } else if snap.paused {
            "AuraMate · Focus paused · "@ + clock
        } else {
            "AuraMate · Focus · "@ + clock
        },
        Some(Phase::ShortBreak) => if snap.should_nudge {
            "AuraMate · Focus due · "@ + clock
        } else if snap.paused {
            "AuraMate · Short Break paused · "@ + clock
        } else {
            "AuraMate · Short Break · "@ + clock
        },
        Some(Phase::LongBreak) => if snap.should_nudge {
            "AuraMate · Focus due · "@ + clock
        } else if snap.paused {
            "AuraMate · Long Break paused · "@ + clock
        } else {
            "AuraMate · Long Break · "@ + clock
        },
    }
}

/// Compact menu-bar title: stage letter and clock; `!` when a nudge is due.
pub open spec fn title_text(snap: Snapshot) -> Seq<char> {
    let clock = clock_text(snap.remaining_ms as nat, snap.overrun_ms as nat);
    match snap.phase {
        None => "Ready"@,
        Some(Phase::Focus) => if snap.should_nudge {
            "! "@ + clock
        } else if snap.paused {
            "❚❚ F "@ + clock
        } else {
            "F "@ + clock
        },
        Some(Phase::ShortBreak) => if snap.should_nudge {
            "! "@ + clock
        } else if snap.paused {
            "❚❚ B "@ + clock
        } else {
            "B "@ + clock
        },
        Some(Phase::LongBreak) => if snap.should_nudge {
            "! "@ + clock
        } else if snap.paused {
            "❚❚ L "@ + clock
        } else {
            "L "@ + clock
        },
    }
}

/// The clock reads as minutes, `:`, and two-digit seconds of the overrun when
/// there is one (then led by `+`), else of the remaining time: the minutes
/// and seconds are digit strings whose values make up the whole seconds shown.
pub proof fn lemma_clock_reads_back(remaining_ms: nat, overrun_ms: nat)
    ensures
        exists|mins: Seq<char>, secs: Seq<char>|
            {
                &&& #[trigger] clock_text(remaining_ms, overrun_ms) == (if overrun_ms > 0 {
                    seq!['+']
                } else {
                    Seq::<char>::empty()
                }) + mins + seq![':'] + secs
                &&& mins.len() > 0
                &&& forall|i: int| 0 <= i < mins.len() ==> is_digit(#[trigger] mins[i])
                &&& secs.len() == 2
                &&& forall|i: int| 0 <= i < secs.len() ==> is_digit(#[trigger] secs[i])
                &&& digits_value(secs) < 60
                &&& digits_value(mins) * 60 + digits_value(secs) == (if overrun_ms > 0 {
                    overrun_ms
                } else {
                    remaining_ms
                }) / 1000
            },
{
    let ms = if overrun_ms > 0 {
        overrun_ms
    } else {
        remaining_ms
    };
    let total = ms / 1000;
    let mins = decimal(total / 60);
    let secs = two_digits(total % 60);
    lemma_decimal_reads_back(total / 60);
    lemma_two_digits_reads_back(total % 60);
    assert((total / 60) * 60 + total % 60 == total) by (nonlinear_arith);
    assert(clock_text(remaining_ms, overrun_ms) == (if overrun_ms > 0 {
        seq!['+']
    } else {
        Seq::<char>::empty()
    }) + mins + seq![':'] + secs);
}

/// Whenever a session is running, the menu-bar title starts with `!` exactly
/// when a nudge is due, so the bar changes without opening the app.
pub proof fn lemma_title_marks_nudge(snap: Snapshot)
    requires
        snap.phase is Some,
    ensures
        title_text(snap).len() > 0,
        (title_text(snap)[0] == '!') <==> snap.should_nudge,
{
    reveal_strlit("! ");
    reveal_strlit("F ");
    reveal_strlit("B ");
    reveal_strlit("L ");
    reveal_strlit("❚❚ F ");
    reveal_strlit("❚❚ B ");
    reveal_strlit("❚❚ L ");
}

fn format_mmss(remaining_ms: u64, overrun_ms: u64) -> (text: String)
    ensures
        text@ == clock_text(remaining_ms as nat, overrun_ms as nat),
{
    let ms = if overrun_ms > 0 {
        overrun_ms
    } else {
        remaining_ms
    };
    let total_sec = ms / 1000;
    let m = total_sec / 60;
    let s = total_sec % 60;
    let mut text = String::new();
    if overrun_ms > 0 {
        text.append("+");
    }
    push_decimal(&mut text, m);
    text.append(":");
    if s < 10 {
        text.append("0");
    }
    push_decimal(&mut text, s);
    proof {
        reveal_strlit("+");
        reveal_strlit(":");
        reveal_strlit("0");
        let sign = if overrun_ms > 0 {
            seq!['+']
        } else {
            Seq::<char>::empty()
        };
        assert(":"@ =~= seq![':']);
        assert("+"@ =~= seq!['+']);
        assert("0"@ =~= seq!['0']);
        assert(text@ =~= sign + decimal(m as nat) + seq![':'] + two_digits(s as nat));
    }
    text
}

/// Tooltip (all platforms). Changes clearly when `should_nudge`.
pub fn tray_tooltip(snap: &Snapshot) -> (text: String)
    ensures
        text@ == tooltip_text(*snap),
{
    let prefix = match snap.phase {
        None => {
            return String::from_str("AuraMate · Ready");
        },
        Some(Phase::Focus) => if snap.should_nudge {
            "AuraMate · Break due · "
        } else if snap.paused {
            "AuraMate · Focus paused · "
        } else {
            "AuraMate · Focus · "
        },
        Some(Phase::ShortBreak) => if snap.should_nudge {
            "AuraMate · Focus due · "
        } else if snap.paused {
            "AuraMate · Short Break paused · "
        } else {
            "AuraMate · Short Break · "
        },
        Some(Phase::LongBreak) => if snap.should_nudge {
            "AuraMate · Focus due · "
        } else if snap.paused {
            "AuraMate · Long Break paused · "
        } else {
            "AuraMate · Long Break · "
        },
    };
    let clock = format_mmss(snap.remaining_ms, snap.overrun_ms);
    String::from_str(prefix).concat(clock.as_str())
}

/// Compact macOS menu-bar title (unsupported on Windows). Stage letter + clock;
/// a nudge shows `!` so the bar changes without opening the app.
pub fn tray_title(snap: &Snapshot) -> (text: String)
    ensures
        text@ == title_text(*snap),
{
    let prefix = match snap.phase {
        None => {
            return String::from_str("Ready");
        },
        Some(Phase::Focus) => if snap.should_nudge {
            "! "
        } else if snap.paused {
            "❚❚ F "
        } else {
            "F "
        },
        Some(Phase::ShortBreak) => if snap.should_nudge {
            "! "
        } else if snap.paused {
            "❚❚ B "
        } else {
            "B "
        },
        Some(Phase::LongBreak) => if snap.should_nudge {
            "! "
        } else if snap.paused {
            "❚❚ L "
        } else {
            "L "
        },
    };
    let clock = format_mmss(snap.remaining_ms, snap.overrun_ms);
    String::from_str(prefix).concat(clock.as_str())
}

/// Tray menu label for the pause/resume item.
pub fn tray_pause_label(snap: &Snapshot) -> (label: &'static str)
    ensures
        label@ == (if snap.paused {
            "Resume"@
        } else {
            "Pause"@
        }),
{
    if snap.paused {
        "Resume"
    } else {
        "Pause"
    }
}

/// The core after the tray's pause item is pressed at `now`.
pub open spec fn pause_item_pressed(m: RhythmModel, now: nat) -> RhythmModel {
    if m.snapshot(now).paused {
        m.resume(now)
    } else {
        m.pause(now)
    }
}

/// The tray's pause item: resume when paused, pause otherwise.
pub fn press_pause_item(core: &mut RhythmCore, now: u64)
    requires
        old(core)@.resume_fits(now as nat),
    ensures
        final(core)@ == pause_item_pressed(old(core)@, now as nat),
        final(core)@.wf(),
        final(core)@.snapshot(now as nat).phase == old(core)@.snapshot(now as nat).phase,
        old(core)@.session is None ==> final(core)@ == old(core)@,
{
    if core.snapshot(now).paused {
        core.resume(now);
    } else {
        core.pause(now);
    }
}

/// The pause item only pauses or resumes: it never starts, ends or changes a
/// session's stage, leaves an idle core as it is, keeps the cycle count and
/// the time shown as remaining at that instant, and, while a session runs,
/// flips between paused and running.
pub proof fn lemma_pause_item_only_pauses_or_resumes(m: RhythmModel, now: nat)
    requires
        m.wf(),
        m.resume_fits(now),
        now <= u64::MAX,
    ensures
        pause_item_pressed(m, now).wf(),
        pause_item_pressed(m, now).snapshot(now).phase == m.snapshot(now).phase,
        pause_item_pressed(m, now).focuses_completed_in_cycle == m.focuses_completed_in_cycle,
        pause_item_pressed(m, now).snapshot(now).remaining_ms == m.snapshot(now).remaining_ms,
        m.session is None ==> pause_item_pressed(m, now) == m,
        m.session is Some ==> pause_item_pressed(m, now).snapshot(now).paused
            == !m.snapshot(now).paused,
{
}

/// While a session runs, the pause item flips between paused and running, and
/// the menu label flips with it.
pub proof fn lemma_pause_item_toggles(m: RhythmModel, now: nat)
    requires
        m.wf(),
        m.session is Some,
        m.resume_fits(now),
        now <= u64::MAX,
    ensures
        pause_item_pressed(m, now).snapshot(now).paused == !m.snapshot(now).paused,
        pause_item_pressed(m, now).snapshot(now).phase == m.snapshot(now).phase,
{
}

/// `word` occurs in `text` as a contiguous piece.
pub open spec fn contains_text(text: Seq<char>, word: Seq<char>) -> bool {
    exists|i: int| 0 <= i && i + word.len() <= text.len() && #[trigger] text.subrange(i, i + word.len()) == word
}


/// The tooltip of a running session names its stage, says `paused` when it
/// is paused, and says which stage is due when a nudge is due; it always ends
/// with the clock.
pub proof fn lemma_tooltip_says_state(snap: Snapshot)
    requires
        snap.phase is Some,
    ensures
        !snap.should_nudge ==> contains_text(
            tooltip_text(snap),
            match snap.phase->0 {
                Phase::Focus => "Focus"@,
                Phase::ShortBreak => "Short Break"@,
                Phase::LongBreak => "Long Break"@,
            },
        ),
        !snap.should_nudge && snap.paused ==> contains_text(tooltip_text(snap), "paused"@),
        snap.should_nudge ==> contains_text(
            tooltip_text(snap),
            match snap.phase->0 {
                Phase::Focus => "Break due"@,
                _ => "Focus due"@,
            },
        ),
        tooltip_text(snap).len() >= clock_text(snap.remaining_ms as nat, snap.overrun_ms as nat).len(),
        tooltip_text(snap).subrange(
            tooltip_text(snap).len() - clock_text(snap.remaining_ms as nat, snap.overrun_ms as nat).len(),
            tooltip_text(snap).len() as int,
        ) == clock_text(snap.remaining_ms as nat, snap.overrun_ms as nat),
{
    reveal_strlit("AuraMate · Ready");
    reveal_strlit("AuraMate · Break due · ");
    reveal_strlit("AuraMate · Focus paused · ");
    reveal_strlit("AuraMate · Focus · ");
    reveal_strlit("AuraMate · Focus due · ");
    reveal_strlit("AuraMate · Short Break paused · ");
    reveal_strlit("AuraMate · Short Break · ");
    reveal_strlit("AuraMate · Long Break paused · ");
    reveal_strlit("AuraMate · Long Break · ");
    reveal_strlit("Focus");
    reveal_strlit("Short Break");
    reveal_strlit("Long Break");
    reveal_strlit("paused");
    reveal_strlit("Break due");
    reveal_strlit("Focus due");
    let t = tooltip_text(snap);
    let clock = clock_text(snap.remaining_ms as nat, snap.overrun_ms as nat);
    let prefix = t.subrange(0, t.len() - clock.len());
    assert(t.subrange(t.len() - clock.len(), t.len() as int) =~= clock);
    if !snap.should_nudge {
        let name = match snap.phase->0 {
            Phase::Focus => "Focus"@,
            Phase::ShortBreak => "Short Break"@,
            Phase::LongBreak => "Long Break"@,
        };
        assert(t.subrange(11, 11 + name.len() as int) =~= name);
        if snap.paused {
            let at: int = 11 + name.len() as int + 1;
            assert(t.subrange(at, at + 6) =~= "paused"@);
        }
    } else {
        let due = match snap.phase->0 {
            Phase::Focus => "Break due"@,
            _ => "Focus due"@,
        };
        assert(t.subrange(11, 11 + due.len() as int) =~= due);
    }
}

/// Pausing shows in the tooltip: two snapshots of a running session that
/// differ only in being paused have different tooltips.
pub proof fn lemma_tooltip_shows_pause(snap: Snapshot)
    requires
        snap.phase is Some,
        !snap.should_nudge,
    ensures
        tooltip_text(Snapshot { paused: true, ..snap }) != tooltip_text(
            Snapshot { paused: false, ..snap },
        ),
{
    reveal_strlit("AuraMate · Ready");
    reveal_strlit("AuraMate · Break due · ");
    reveal_strlit("AuraMate · Focus paused · ");
    reveal_strlit("AuraMate · Focus · ");
    reveal_strlit("AuraMate · Focus due · ");
    reveal_strlit("AuraMate · Short Break paused · ");
    reveal_strlit("AuraMate · Short Break · ");
    reveal_strlit("AuraMate · Long Break paused · ");
    reveal_strlit("AuraMate · Long Break · ");
    let a = tooltip_text(Snapshot { paused: true, ..snap });
    let b = tooltip_text(Snapshot { paused: false, ..snap });
    assert(a.len() == b.len() + 7);
}

/// Two snapshots that differ only in their (running) stage have different
/// tooltips when no nudge is due.
pub proof fn lemma_tooltip_tells_stages_apart(snap: Snapshot, p: Phase, q: Phase)
    requires
        p != q,
        !snap.should_nudge,
    ensures
        tooltip_text(Snapshot { phase: Some(p), ..snap }) != tooltip_text(
            Snapshot { phase: Some(q), ..snap },
        ),
{
    reveal_strlit("AuraMate · Ready");
    reveal_strlit("AuraMate · Break due · ");
    reveal_strlit("AuraMate · Focus paused · ");
    reveal_strlit("AuraMate · Focus · ");
    reveal_strlit("AuraMate · Focus due · ");
    reveal_strlit("AuraMate · Short Break paused · ");
    reveal_strlit("AuraMate · Short Break · ");
    reveal_strlit("AuraMate · Long Break paused · ");
    reveal_strlit("AuraMate · Long Break · ");
    let a = tooltip_text(Snapshot { phase: Some(p), ..snap });
    let b = tooltip_text(Snapshot { phase: Some(q), ..snap });
    assert(a[11] != b[11] || a[12] != b[12]);
}


/// Without a nudge, the title of a running session carries the letter of its
/// stage (`F`, `B` for a Short Break, `L` for a Long Break), after the pause
/// mark `❚❚ ` when paused, followed by a space and the clock.
pub proof fn lemma_title_names_stage(snap: Snapshot)
    requires
        snap.phase is Some,
        !snap.should_nudge,
    ensures
        title_text(snap) == (if snap.paused {
            seq!['❚', '❚', ' ']
        } else {
            Seq::<char>::empty()
        }) + seq![
            match snap.phase->0 {
                Phase::Focus => 'F',
                Phase::ShortBreak => 'B',
                Phase::LongBreak => 'L',
            },
            ' ',
        ] + clock_text(snap.remaining_ms as nat, snap.overrun_ms as nat),
{
    reveal_strlit("Ready");
    reveal_strlit("! ");
    reveal_strlit("F ");
    reveal_strlit("B ");
    reveal_strlit("L ");
    reveal_strlit("❚❚ F ");
    reveal_strlit("❚❚ B ");
    reveal_strlit("❚❚ L ");
    let clock = clock_text(snap.remaining_ms as nat, snap.overrun_ms as nat);
    let letter = match snap.phase->0 {
        Phase::Focus => 'F',
        Phase::ShortBreak => 'B',
        Phase::LongBreak => 'L',
    };
    let mark = if snap.paused {
        seq!['❚', '❚', ' ']
    } else {
        Seq::<char>::empty()
    };
    assert(title_text(snap) =~= mark + seq![letter, ' '] + clock);
}

/// Two snapshots that differ only in their (running) stage have different
/// titles when no nudge is due.
pub proof fn lemma_title_tells_stages_apart(snap: Snapshot, p: Phase, q: Phase)
    requires
        p != q,
        !snap.should_nudge,
    ensures
        title_text(Snapshot { phase: Some(p), ..snap }) != title_text(
            Snapshot { phase: Some(q), ..snap },
        ),
{
    lemma_title_names_stage(Snapshot { phase: Some(p), ..snap });
    lemma_title_names_stage(Snapshot { phase: Some(q), ..snap });
    let at: int = if snap.paused {
        3
    } else {
        0
    };
    assert(title_text(Snapshot { phase: Some(p), ..snap })[at] != title_text(
        Snapshot { phase: Some(q), ..snap },
    )[at]);
}

} // verus!
