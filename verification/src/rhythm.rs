//! Rhythm Core: Focus / Short Break / Long Break with timestamp-based remaining time.
//!
//! Time is read from a monotonic clock and handed in as milliseconds; durations
//! are milliseconds too.

use vstd::prelude::*;

verus! {

/// Default Focus length, in milliseconds.
pub const FOCUS_DURATION: u64 = 25 * 60 * 1000;

/// Default Short Break length, in milliseconds.
pub const SHORT_BREAK_DURATION: u64 = 5 * 60 * 1000;

/// Default Long Break length, in milliseconds.
pub const LONG_BREAK_DURATION: u64 = 15 * 60 * 1000;

/// Focus sessions before a Long Break.
pub const FOCUSES_PER_LONG_BREAK: u32 = 4;

/// The current stage of a session.
#[derive(Debug, Clone, Copy, PartialEq, Eq, Structural)]
pub enum Phase {
    Focus,
    ShortBreak,
    LongBreak,
}

/// What the pet shows: idle, a gentle nudge, or resting.
#[derive(Debug, Clone, Copy, PartialEq, Eq, Structural)]
pub enum PetState {
    Idle,
    Nudge,
    Rest,
}

/// The kinds of intervals kept in local history.
#[derive(Debug, Clone, Copy, PartialEq, Eq, Structural)]
pub enum IntervalKind {
    Focus,
    ShortBreak,
    LongBreak,
    Overrun,
    Away,
    LockedSleeping,
    HyperFocus,
    MediaMeeting,
}

/// A finished interval, in monotonic-clock milliseconds.
#[derive(Debug, Clone, Copy, PartialEq, Eq, Structural)]
pub struct ClosedInterval {
    pub kind: IntervalKind,
    pub start: u64,
    pub end: u64,
}

/// What the surfaces render at a given instant.
#[derive(Debug, Clone, PartialEq, Eq, Structural)]
pub struct Snapshot {
    /// Current stage, or `None` when no session is running.
    pub phase: Option<Phase>,
    /// Milliseconds until planned end; `0` when idle or past the end; frozen while paused.
    pub remaining_ms: u64,
    /// Milliseconds past planned end while still in the session.
    pub overrun_ms: u64,
    pub paused: bool,
    /// Completed Focus sessions in the current cycle (0..FOCUSES_PER_LONG_BREAK).
    pub focuses_completed_in_cycle: u32,
    /// The running session has reached its planned end.
    pub should_nudge: bool,
}

/// Length of a session of the given stage.
pub open spec fn phase_duration(phase: Phase) -> nat {
    match phase {
        Phase::Focus => FOCUS_DURATION as nat,
        Phase::ShortBreak => SHORT_BREAK_DURATION as nat,
        Phase::LongBreak => LONG_BREAK_DURATION as nat,
    }
}

/// Mathematical model of a running session.
pub struct SessionModel {
    pub phase: Phase,
    pub planned_end: nat,
    pub paused_remaining: Option<nat>,
}

/// Mathematical model of the rhythm core.
pub struct RhythmModel {
    pub session: Option<SessionModel>,
    pub focuses_completed_in_cycle: nat,
}

impl RhythmModel {
    /// The states the core can be in.
    pub open spec fn wf(self) -> bool {
        &&& self.focuses_completed_in_cycle < FOCUSES_PER_LONG_BREAK
        &&& self.session matches Some(s) ==> {
            &&& s.planned_end <= u64::MAX
            &&& s.paused_remaining matches Some(r) ==> r <= u64::MAX
        }
    }

    /// No session, fresh cycle.
    pub open spec fn idle() -> RhythmModel {
        RhythmModel { session: None, focuses_completed_in_cycle: 0 }
    }

    pub open spec fn start_focus(self, now: nat) -> RhythmModel {
        RhythmModel {
            session: Some(
                SessionModel {
                    phase: Phase::Focus,
                    planned_end: now + phase_duration(Phase::Focus),
                    paused_remaining: None,
                },
            ),
            ..self
        }
    }

    /// A Focus session is running (paused or not).
    pub open spec fn in_focus(self) -> bool {
        self.session matches Some(s) && s.phase == Phase::Focus
    }

    /// The break that ending the current Focus would start.
    pub open spec fn next_break_phase(self) -> Phase {
        if self.focuses_completed_in_cycle + 1 >= FOCUSES_PER_LONG_BREAK {
            Phase::LongBreak
        } else {
            Phase::ShortBreak
        }
    }

    pub open spec fn start_break(self, now: nat) -> RhythmModel {
        if self.in_focus() {
            let phase = self.next_break_phase();
            RhythmModel {
                session: Some(
                    SessionModel {
                        phase,
                        planned_end: now + phase_duration(phase),
                        paused_remaining: None,
                    },
                ),
                focuses_completed_in_cycle: if phase == Phase::LongBreak {
                    0
                } else {
                    self.focuses_completed_in_cycle + 1
                },
            }
        } else {
            self
        }
    }

    pub open spec fn pause(self, now: nat) -> RhythmModel {
        match self.session {
            Some(s) => if s.paused_remaining is Some {
                self
            } else {
                let remaining: nat = if now < s.planned_end {
                    (s.planned_end - now) as nat
                } else {
                    0
                };
                RhythmModel {
                    session: Some(SessionModel { paused_remaining: Some(remaining), ..s }),
                    ..self
                }
            },
            None => self,
        }
    }

    pub open spec fn resume(self, now: nat) -> RhythmModel {
        match self.session {
            Some(s) => match s.paused_remaining {
                Some(r) => RhythmModel {
                    session: Some(
                        SessionModel { planned_end: now + r, paused_remaining: None, ..s },
                    ),
                    ..self
                },
                None => self,
            },
            None => self,
        }
    }

    /// Whether a Break can start at `now` without the planned end leaving the clock's range.
    pub open spec fn start_break_fits(self, now: nat) -> bool {
        self.in_focus() ==> now + phase_duration(self.next_break_phase()) <= u64::MAX
    }

    /// Whether resuming at `now` keeps the planned end in the clock's range.
    pub open spec fn resume_fits(self, now: nat) -> bool {
        self.session matches Some(s) ==> (s.paused_remaining matches Some(r) ==> now + r
            <= u64::MAX)
    }

    /// What the surfaces see at `now`.
    pub open spec fn snapshot(self, now: nat) -> Snapshot {
        match self.session {
            None => Snapshot {
                phase: None,
                remaining_ms: 0,
                overrun_ms: 0,
                paused: false,
                focuses_completed_in_cycle: self.focuses_completed_in_cycle as u32,
                should_nudge: false,
            },
            Some(s) => {
                let remaining: int = match s.paused_remaining {
                    Some(r) => r as int,
                    None => if now < s.planned_end {
                        s.planned_end - now
                    } else {
                        0
                    },
                };
                let overrun: int = match s.paused_remaining {
                    Some(r) => 0,
                    None => if now < s.planned_end {
                        0
                    } else {
                        now - s.planned_end
                    },
                };
                Snapshot {
                    phase: Some(s.phase),
                    remaining_ms: remaining as u64,
                    overrun_ms: overrun as u64,
                    paused: s.paused_remaining is Some,
                    focuses_completed_in_cycle: self.focuses_completed_in_cycle as u32,
                    should_nudge: s.paused_remaining is None && s.planned_end <= now,
                }
            },
        }
    }
}

#[derive(Debug, Clone, Copy)]
struct Session {
    phase: Phase,
    planned_end: u64,
    paused_remaining: Option<u64>,
}

/// Deep module owning stage / session / pause semantics.
#[derive(Debug)]
pub struct RhythmCore {
    session: Option<Session>,
    focuses_completed_in_cycle: u32,
}

impl View for RhythmCore {
    type V = RhythmModel;

    closed spec fn view(&self) -> RhythmModel {
        RhythmModel {
            session: match self.session {
                Some(s) => Some(
                    SessionModel {
                        phase: s.phase,
                        planned_end: s.planned_end as nat,
                        paused_remaining: match s.paused_remaining {
                            Some(r) => Some(r as nat),
                            None => None,
                        },
                    },
                ),
                None => None,
            },
            focuses_completed_in_cycle: self.focuses_completed_in_cycle as nat,
        }
    }
}

impl RhythmCore {
    #[verifier::type_invariant]
    spec fn inv(self) -> bool {
        self.focuses_completed_in_cycle < FOCUSES_PER_LONG_BREAK
    }

    pub fn new() -> (core: Self)
        ensures
            core@ == RhythmModel::idle(),
            core@.wf(),
    {
        RhythmCore { session: None, focuses_completed_in_cycle: 0 }
    }

    pub fn snapshot(&self, now: u64) -> (snap: Snapshot)
        ensures
            snap == self@.snapshot(now as nat),
            self@.wf(),
    {
        proof {
            use_type_invariant(self);
        }
        match self.session {
            None => Snapshot {
                phase: None,
                remaining_ms: 0,
                overrun_ms: 0,
                paused: false,
                focuses_completed_in_cycle: self.focuses_completed_in_cycle,
                should_nudge: false,
            },
            Some(session) => {
                let paused = session.paused_remaining.is_some();
                let (remaining, overrun) = match session.paused_remaining {
                    Some(rem) => (rem, 0u64),
                    None => if now < session.planned_end {
                        (session.planned_end - now, 0u64)
                    } else {
                        (0u64, now - session.planned_end)
                    },
                };
                Snapshot {
                    phase: Some(session.phase),
                    remaining_ms: remaining,
                    overrun_ms: overrun,
                    paused,
                    focuses_completed_in_cycle: self.focuses_completed_in_cycle,
                    should_nudge: !paused && session.planned_end <= now,
                }
            },
        }
    }

    /// Start a Focus session from Idle or after a Break.
    pub fn start_focus(&mut self, now: u64)
        requires
            now + FOCUS_DURATION <= u64::MAX,
        ensures
            final(self)@ == old(self)@.start_focus(now as nat),
            final(self)@.wf(),
    {
        proof {
            use_type_invariant(&*self);
        }
        self.session = Some(
            Session { phase: Phase::Focus, planned_end: now + FOCUS_DURATION, paused_remaining: None },
        );
    }

    /// End Focus and start a Short or Long Break (after every fourth Focus).
    /// Does nothing unless a Focus session is running.
    pub fn start_break(&mut self, now: u64)
        requires
            old(self)@.start_break_fits(now as nat),
        ensures
            final(self)@ == old(self)@.start_break(now as nat),
            final(self)@.wf(),
    {
        proof {
            use_type_invariant(&*self);
        }
        let session = match self.session {
            Some(session) => session,
            None => return,
        };
        if session.phase != Phase::Focus {
            return;
        }
        let completed = self.focuses_completed_in_cycle + 1;
        if completed >= FOCUSES_PER_LONG_BREAK {
            self.focuses_completed_in_cycle = 0;
            self.session = Some(
                Session {
                    phase: Phase::LongBreak,
                    planned_end: now + LONG_BREAK_DURATION,
                    paused_remaining: None,
                },
            );
        } else {
            self.focuses_completed_in_cycle = completed;
            self.session = Some(
                Session {
                    phase: Phase::ShortBreak,
                    planned_end: now + SHORT_BREAK_DURATION,
                    paused_remaining: None,
                },
            );
        }
    }

    /// Freeze the remaining time. Does nothing when idle or already paused.
    pub fn pause(&mut self, now: u64)
        ensures
            final(self)@ == old(self)@.pause(now as nat),
            final(self)@.wf(),
    {
        proof {
            use_type_invariant(&*self);
        }
        let session = match self.session {
            Some(session) => session,
            None => return,
        };
        if session.paused_remaining.is_some() {
            return;
        }
        let remaining = if now < session.planned_end {
            session.planned_end - now
        } else {
            0
        };
        self.session = Some(Session { paused_remaining: Some(remaining), ..session });
    }

    /// Resume a paused session: the planned end becomes `now` plus the frozen remaining time.
    /// Does nothing unless paused.
    pub fn resume(&mut self, now: u64)
        requires
            old(self)@.resume_fits(now as nat),
        ensures
            final(self)@ == old(self)@.resume(now as nat),
            final(self)@.wf(),
    {
        proof {
            use_type_invariant(&*self);
        }
        let session = match self.session {
            Some(session) => session,
            None => return,
        };
        let remaining = match session.paused_remaining {
            Some(remaining) => remaining,
            None => return,
        };
        self.session = Some(
            Session { planned_end: now + remaining, paused_remaining: None, ..session },
        );
    }
}

impl Clone for RhythmCore {
    fn clone(&self) -> (copy: Self)
        ensures
            copy@ == self@,
    {
        proof {
            use_type_invariant(self);
        }
        RhythmCore {
            session: self.session,
            focuses_completed_in_cycle: self.focuses_completed_in_cycle,
        }
    }
}

impl Default for RhythmCore {
    fn default() -> (core: Self)
        ensures
            core@ == RhythmModel::idle(),
    {
        Self::new()
    }
}

/// Starting Focus shows the full Focus length, unpaused and not overrunning,
/// and leaves the cycle count alone.
pub proof fn lemma_start_focus_shows_full_length(m: RhythmModel, now: nat)
    requires
        m.wf(),
        now + FOCUS_DURATION <= u64::MAX,
    ensures
        m.start_focus(now).wf(),
        m.start_focus(now).snapshot(now) == (Snapshot {
            phase: Some(Phase::Focus),
            remaining_ms: FOCUS_DURATION,
            overrun_ms: 0,
            paused: false,
            focuses_completed_in_cycle: m.focuses_completed_in_cycle as u32,
            should_nudge: false,
        }),
{
}

/// Starting a Break from Focus shows the full length of that Break.
pub proof fn lemma_start_break_shows_full_length(m: RhythmModel, now: nat)
    requires
        m.wf(),
        m.in_focus(),
        m.start_break_fits(now),
    ensures
        m.start_break(now).wf(),
        m.start_break(now).snapshot(now).phase == Some(m.next_break_phase()),
        m.start_break(now).snapshot(now).remaining_ms == phase_duration(m.next_break_phase()),
        !m.start_break(now).snapshot(now).paused,
        m.focuses_completed_in_cycle + 1 == FOCUSES_PER_LONG_BREAK ==> {
            &&& m.start_break(now).snapshot(now).phase == Some(Phase::LongBreak)
            &&& m.start_break(now).snapshot(now).remaining_ms == LONG_BREAK_DURATION
            &&& m.start_break(now).snapshot(now).focuses_completed_in_cycle == 0
        },
        m.focuses_completed_in_cycle + 1 < FOCUSES_PER_LONG_BREAK ==> {
            &&& m.start_break(now).snapshot(now).phase == Some(Phase::ShortBreak)
            &&& m.start_break(now).snapshot(now).remaining_ms == SHORT_BREAK_DURATION
            &&& m.start_break(now).snapshot(now).focuses_completed_in_cycle
                == m.focuses_completed_in_cycle + 1
        },
{
}

/// Start Break does nothing outside a Focus session.
pub proof fn lemma_break_only_from_focus(m: RhythmModel, now: nat)
    requires
        !m.in_focus(),
    ensures
        m.start_break(now) == m,
{
}

/// Remaining time and overrun are never both positive; a nudge is due only
/// when the running session has no time left.
pub proof fn lemma_remaining_or_overrun(m: RhythmModel, now: nat)
    requires
        m.wf(),
        now <= u64::MAX,
    ensures
        m.snapshot(now).remaining_ms == 0 || m.snapshot(now).overrun_ms == 0,
        m.snapshot(now).should_nudge ==> m.snapshot(now).remaining_ms == 0
            && !m.snapshot(now).paused && m.snapshot(now).phase is Some,
        m.snapshot(now).focuses_completed_in_cycle < FOCUSES_PER_LONG_BREAK,
{
}

/// A running session nudges exactly once its planned end is reached, whatever
/// its stage (the end of a Break is a boundary just like the end of a Focus);
/// whenever a running session shows no time left, a nudge is due.
pub proof fn lemma_nudge_at_every_boundary(m: RhythmModel, now: nat)
    requires
        m.wf(),
        now <= u64::MAX,
    ensures
        (m.session matches Some(s) && s.paused_remaining is None) ==> (m.snapshot(now).should_nudge
            <==> m.session->0.planned_end <= now),
        (m.snapshot(now).phase is Some && !m.snapshot(now).paused && m.snapshot(now).remaining_ms
            == 0) ==> m.snapshot(now).should_nudge,
        m.snapshot(now).should_nudge ==> m.snapshot(now).phase is Some && !m.snapshot(now).paused,
{
}

/// While running, the clock is timestamp based: between two instants the
/// remaining time minus the overrun falls by exactly the time elapsed.
pub proof fn lemma_running_counts_down(m: RhythmModel, t1: nat, t2: nat)
    requires
        m.wf(),
        m.session matches Some(s) && s.paused_remaining is None,
        t1 <= t2 <= u64::MAX,
    ensures
        (m.snapshot(t1).remaining_ms - m.snapshot(t1).overrun_ms) - (m.snapshot(t2).remaining_ms
            - m.snapshot(t2).overrun_ms) == t2 - t1,
{
}

/// Pausing freezes the remaining time: it is what was left at the pause, at
/// every later instant, with no overrun and no nudge.
pub proof fn lemma_pause_freezes_remaining(m: RhythmModel, t_pause: nat, t: nat)
    requires
        m.wf(),
        m.session matches Some(s) && s.paused_remaining is None,
        t_pause <= u64::MAX,
        t <= u64::MAX,
    ensures
        m.pause(t_pause).wf(),
        m.pause(t_pause).snapshot(t).remaining_ms == m.snapshot(t_pause).remaining_ms,
        m.pause(t_pause).snapshot(t).overrun_ms == 0,
        m.pause(t_pause).snapshot(t).paused,
        !m.pause(t_pause).snapshot(t).should_nudge,
        m.pause(t_pause).snapshot(t).phase == m.snapshot(t_pause).phase,
{
}

/// Resuming recomputes the end from now plus the frozen remaining time, so
/// pause then resume gives back exactly the time that was left at the pause.
pub proof fn lemma_pause_resume_keeps_remaining(m: RhythmModel, t_pause: nat, t_resume: nat)
    requires
        m.wf(),
        m.session matches Some(s) && s.paused_remaining is None,
        t_pause <= u64::MAX,
        t_resume + m.snapshot(t_pause).remaining_ms <= u64::MAX,
    ensures
        m.pause(t_pause).resume_fits(t_resume),
        m.pause(t_pause).resume(t_resume).wf(),
        m.pause(t_pause).resume(t_resume).snapshot(t_resume).remaining_ms == m.snapshot(
            t_pause,
        ).remaining_ms,
        !m.pause(t_pause).resume(t_resume).snapshot(t_resume).paused,
        m.pause(t_pause).resume(t_resume).snapshot(t_resume).phase == m.snapshot(t_pause).phase,
        m.pause(t_pause).resume(t_resume).focuses_completed_in_cycle
            == m.focuses_completed_in_cycle,
{
}

/// Pausing twice is pausing once; resuming a session that is not paused does nothing.
pub proof fn lemma_pause_resume_idempotent(m: RhythmModel, t1: nat, t2: nat)
    ensures
        m.pause(t1).pause(t2) == m.pause(t1),
        (m.session matches Some(s) ==> s.paused_remaining is None) ==> m.resume(t2) == m,
{
}

/// One call on the core, with the monotonic instant it is made at.
pub enum Step {
    StartFocus(nat),
    StartBreak(nat),
    Pause(nat),
    Resume(nat),
}

/// The instant a step is made at.
pub open spec fn step_instant(step: Step) -> nat {
    match step {
        Step::StartFocus(t) => t,
        Step::StartBreak(t) => t,
        Step::Pause(t) => t,
        Step::Resume(t) => t,
    }
}

impl RhythmModel {
    /// The core after one call.
    pub open spec fn step(self, step: Step) -> RhythmModel {
        match step {
            Step::StartFocus(t) => self.start_focus(t),
            Step::StartBreak(t) => self.start_break(t),
            Step::Pause(t) => self.pause(t),
            Step::Resume(t) => self.resume(t),
        }
    }

    /// The call is one the core accepts: its instant is a clock reading and
    /// the planned end it sets stays in the clock's range.
    pub open spec fn step_fits(self, step: Step) -> bool {
        match step {
            Step::StartFocus(t) => t + FOCUS_DURATION <= u64::MAX,
            Step::StartBreak(t) => t <= u64::MAX && self.start_break_fits(t),
            Step::Pause(t) => t <= u64::MAX,
            Step::Resume(t) => t <= u64::MAX && self.resume_fits(t),
        }
    }

    /// Every running session ends within one stage length of `last`, and a
    /// frozen remaining time is at most one stage length.
    spec fn within_stage(self, last: nat) -> bool {
        self.session matches Some(s) ==> match s.paused_remaining {
            Some(r) => r <= phase_duration(s.phase),
            None => s.planned_end <= last + phase_duration(s.phase),
        }
    }
}

/// The core after a sequence of calls, in order.
pub open spec fn run(m: RhythmModel, steps: Seq<Step>) -> RhythmModel
    decreases steps.len(),
{
    if steps.len() == 0 {
        m
    } else {
        run(m, steps.drop_last()).step(steps.last())
    }
}

/// Every call of the sequence is accepted by the core it reaches.
pub open spec fn run_fits(m: RhythmModel, steps: Seq<Step>) -> bool
    decreases steps.len(),
{
    steps.len() == 0 || (run_fits(m, steps.drop_last()) && run(m, steps.drop_last()).step_fits(
        steps.last(),
    ))
}

/// The calls are made at non-decreasing instants, none later than `t`.
pub open spec fn ordered_until(steps: Seq<Step>, t: nat) -> bool
    decreases steps.len(),
{
    steps.len() == 0 || (step_instant(steps.last()) <= t && ordered_until(
        steps.drop_last(),
        step_instant(steps.last()),
    ))
}

proof fn lemma_step_keeps_wf(m: RhythmModel, step: Step)
    requires
        m.wf(),
        m.step_fits(step),
    ensures
        m.step(step).wf(),
{
}

/// Whatever calls the core accepts, it stays well formed: in particular the
/// count of completed Focus sessions stays below `FOCUSES_PER_LONG_BREAK`.
pub proof fn lemma_run_keeps_wf(m: RhythmModel, steps: Seq<Step>)
    requires
        m.wf(),
        run_fits(m, steps),
    ensures
        run(m, steps).wf(),
        run(m, steps).focuses_completed_in_cycle < FOCUSES_PER_LONG_BREAK,
    decreases steps.len(),
{
    if steps.len() > 0 {
        lemma_run_keeps_wf(m, steps.drop_last());
        lemma_step_keeps_wf(run(m, steps.drop_last()), steps.last());
    }
}

proof fn lemma_step_within_stage(m: RhythmModel, last: nat, step: Step)
    requires
        m.within_stage(last),
        last <= step_instant(step),
    ensures
        m.step(step).within_stage(step_instant(step)),
{
}

proof fn lemma_run_within_stage(steps: Seq<Step>, t: nat)
    requires
        ordered_until(steps, t),
    ensures
        run(RhythmModel::idle(), steps).within_stage(t),
    decreases steps.len(),
{
    if steps.len() > 0 {
        let last = steps.last();
        lemma_run_within_stage(steps.drop_last(), step_instant(last));
        lemma_step_within_stage(
            run(RhythmModel::idle(), steps.drop_last()),
            step_instant(last),
            last,
        );
    }
}

/// Starting from a fresh core, for calls made at non-decreasing instants up to
/// `t`, the remaining time shown at `t` never exceeds the length of the current
/// stage (and is `0` when idle).
pub proof fn lemma_remaining_within_stage(steps: Seq<Step>, t: nat)
    requires
        run_fits(RhythmModel::idle(), steps),
        ordered_until(steps, t),
        t <= u64::MAX,
    ensures
        run(RhythmModel::idle(), steps).snapshot(t).remaining_ms <= match run(
            RhythmModel::idle(),
            steps,
        ).snapshot(t).phase {
            Some(phase) => phase_duration(phase),
            None => 0,
        },
{
    lemma_run_keeps_wf(RhythmModel::idle(), steps);
    lemma_run_within_stage(steps, t);
}

/// Resuming at `now` restarts the countdown from the frozen remaining time:
/// `k` milliseconds later, up to that remaining time, exactly `k` less remains,
/// with the same stage and cycle count and no overrun.
pub proof fn lemma_resume_counts_down_from_frozen(m: RhythmModel, now: nat, k: nat)
    requires
        m.wf(),
        m.snapshot(now).paused,
        k <= m.snapshot(now).remaining_ms,
        now + m.snapshot(now).remaining_ms <= u64::MAX,
    ensures
        m.resume_fits(now),
        m.resume(now).wf(),
        !m.resume(now).snapshot(now + k).paused,
        m.resume(now).snapshot(now + k).phase == m.snapshot(now).phase,
        m.resume(now).snapshot(now + k).remaining_ms == m.snapshot(now).remaining_ms - k,
        m.resume(now).snapshot(now + k).overrun_ms == 0,
        m.resume(now).snapshot(now + k).focuses_completed_in_cycle == m.snapshot(
            now,
        ).focuses_completed_in_cycle,
{
}

/// Pauses and resumes only.
pub open spec fn only_interruptions(steps: Seq<Step>) -> bool {
    forall|i: int| 0 <= i < steps.len() ==> (#[trigger] steps[i] is Pause || steps[i] is Resume)
}

/// A Focus started at `focus_at`, possibly paused and resumed, then ended by a
/// Break started at `break_at`.
pub struct Round {
    pub focus_at: nat,
    pub interruptions: Seq<Step>,
    pub break_at: nat,
}

/// The core after one round.
pub open spec fn play_round(m: RhythmModel, r: Round) -> RhythmModel {
    run(m.start_focus(r.focus_at), r.interruptions).start_break(r.break_at)
}

/// Every call of the round is accepted by the core.
pub open spec fn round_fits(m: RhythmModel, r: Round) -> bool {
    &&& r.focus_at + FOCUS_DURATION <= u64::MAX
    &&& only_interruptions(r.interruptions)
    &&& run_fits(m.start_focus(r.focus_at), r.interruptions)
    &&& r.break_at <= u64::MAX
    &&& run(m.start_focus(r.focus_at), r.interruptions).start_break_fits(r.break_at)
}

/// The core after the rounds, in order.
pub open spec fn play_rounds(m: RhythmModel, rs: Seq<Round>) -> RhythmModel
    decreases rs.len(),
{
    if rs.len() == 0 {
        m
    } else {
        play_round(play_rounds(m, rs.drop_last()), rs.last())
    }
}

/// Every round is accepted by the core it reaches.
pub open spec fn rounds_fit(m: RhythmModel, rs: Seq<Round>) -> bool
    decreases rs.len(),
{
    rs.len() == 0 || (rounds_fit(m, rs.drop_last()) && round_fits(
        play_rounds(m, rs.drop_last()),
        rs.last(),
    ))
}

proof fn lemma_interruptions_keep_focus(m: RhythmModel, steps: Seq<Step>)
    requires
        only_interruptions(steps),
    ensures
        run(m, steps).in_focus() == m.in_focus(),
        run(m, steps).focuses_completed_in_cycle == m.focuses_completed_in_cycle,
    decreases steps.len(),
{
    if steps.len() > 0 {
        assert(only_interruptions(steps.drop_last())) by {
            assert forall|i: int| 0 <= i < steps.drop_last().len() implies (
            #[trigger] steps.drop_last()[i] is Pause || steps.drop_last()[i] is Resume) by {
                assert(steps.drop_last()[i] == steps[i]);
            }
        }
        lemma_interruptions_keep_focus(m, steps.drop_last());
        assert(steps.last() == steps[steps.len() - 1]);
    }
}

/// The Break that follows the `completed`-th Focus of a run of cycles.
pub open spec fn break_after(completed: nat) -> Phase {
    if completed % (FOCUSES_PER_LONG_BREAK as nat) == 0 {
        Phase::LongBreak
    } else {
        Phase::ShortBreak
    }
}

/// Every fourth completed Focus leads to a Long Break and restarts the cycle;
/// the others lead to a Short Break. This holds whatever instants the calls
/// are made at, and with any pauses and resumes inside each Focus.
pub proof fn lemma_long_break_every_fourth(m: RhythmModel, rs: Seq<Round>)
    requires
        m.wf(),
        rounds_fit(m, rs),
    ensures
        play_rounds(m, rs).wf(),
        play_rounds(m, rs).focuses_completed_in_cycle == (m.focuses_completed_in_cycle
            + rs.len()) % (FOCUSES_PER_LONG_BREAK as nat),
        rs.len() > 0 ==> play_rounds(m, rs).session == Some(
            SessionModel {
                phase: break_after(m.focuses_completed_in_cycle + rs.len()),
                planned_end: rs.last().break_at + phase_duration(
                    break_after(m.focuses_completed_in_cycle + rs.len()),
                ),
                paused_remaining: None,
            },
        ),
    decreases rs.len(),
{
    if rs.len() > 0 {
        let prev = play_rounds(m, rs.drop_last());
        let r = rs.last();
        lemma_long_break_every_fourth(m, rs.drop_last());
        let focused = prev.start_focus(r.focus_at);
        assert(focused.wf());
        lemma_run_keeps_wf(focused, r.interruptions);
        lemma_interruptions_keep_focus(focused, r.interruptions);
    }
}

} // verus!
