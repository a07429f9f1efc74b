//! The timer's state machine.
//!
//! The timer is `Stopped` (the wait can be edited), `Started` (counting down,
//! perhaps paused) or `Ringing` (the wait has run out and the alarm sounds).
//! Each message moves it from one state to the next; the time of the message
//! comes with it, so that the time left is always worked out from the clock
//! and never summed tick by tick. The alarm itself is not touched here:
//! `update` returns the `Effect` that its caller carries out.
//!
//! Acknowledging the alarm (`StopRinging`) silences it and leaves the timer
//! `Ringing` until it is reset.

use vstd::prelude::*;
use crate::digits::{hms_of, string_to_hms};
use crate::display::{decimal, numeral};
use crate::time::{elapsed, sub_or_zero, Duration, Instant};

verus! {

/// The wait that a new timer starts with: five minutes.
pub const DEFAULT_WAIT_SECS: u64 = 300;

/// The most digits that an edit buffer takes.
pub const MAX_EDIT_DIGITS: usize = 6;

#[derive(Clone, Copy, Debug, PartialEq, Eq, Structural)]
pub enum Message {
    /// Start editing the wait.
    EnableEditTimer,
    /// A digit typed while editing.
    EditNewNum(u32),
    /// Backspace typed while editing.
    EditBackspace,
    /// The periodic tick while counting down.
    Tick,
    /// Start counting down.
    EnableTimer,
    /// Pause, or resume from a pause.
    TogglePause,
    /// Back to `Stopped` from any state.
    ResetTimer,
    /// Acknowledge the alarm.
    StopRinging,
}

#[derive(Clone, Copy, Debug, PartialEq, Eq, Structural)]
pub enum IsPaused {
    Paused { pause_start: Instant },
    NotPaused,
}

#[derive(Clone, Copy, Debug, PartialEq, Eq, Structural)]
pub enum TimerAppState {
    /// Counting down from `start_instant`; `time_left` is the value of the last tick.
    Started {
        start_instant: Instant,
        time_left: Duration,
        total_wait: Duration,
        is_paused: IsPaused,
    },
    Stopped,
    Ringing,
}

/// The digits typed so far while the wait is edited.
#[derive(Debug)]
pub enum EditingState {
    Editing(String),
    NotEditing,
}

impl View for EditingState {
    type V = Option<Seq<char>>;

    open spec fn view(&self) -> Option<Seq<char>> {
        match self {
            EditingState::Editing(s) => Some(s@),
            EditingState::NotEditing => None,
        }
    }
}

/// What the caller of `update` does with the alarm.
#[derive(Clone, Copy, Debug, PartialEq, Eq, Structural)]
pub enum Effect {
    Nothing,
    StartAlarm,
    StopAlarm,
}

pub struct TimerApp {
    pub state: TimerAppState,
    pub is_editing: EditingState,
    /// The wait that the next countdown starts from.
    pub to_wait: Duration,
}

pub ghost struct TimerView {
    pub state: TimerAppState,
    pub editing: Option<Seq<char>>,
    pub to_wait: Duration,
}

impl View for TimerApp {
    type V = TimerView;

    open spec fn view(&self) -> TimerView {
        TimerView { state: self.state, editing: self.is_editing@, to_wait: self.to_wait }
    }
}

pub open spec fn or_zero(o: Option<u32>) -> nat {
    match o {
        Some(v) => v as nat,
        None => 0,
    }
}

/// The wait that a digit buffer stands for; an absent field counts as zero.
pub open spec fn wait_of(buffer: Seq<char>) -> Duration {
    let (h, m, s) = hms_of(buffer);
    Duration { millis: ((or_zero(h) * 3600 + or_zero(m) * 60 + or_zero(s)) * 1000) as u64 }
}

/// The buffer after a backspace: its last character gone, if it has one.
pub open spec fn backspaced(b: Seq<char>) -> Seq<char> {
    if b.len() > 0 {
        b.drop_last()
    } else {
        b
    }
}

/// The time left of a countdown of `total` that started at `start`, at `now`.
pub open spec fn remaining(total: Duration, start: Instant, now: Instant) -> nat {
    sub_or_zero(total.millis as nat, elapsed(start, now))
}

/// `i` moved later by `by`, held at the clock's last value.
pub open spec fn shifted(i: Instant, by: nat) -> Instant {
    Instant { millis: if i.millis + by <= u64::MAX { (i.millis + by) as u64 } else { u64::MAX } }
}

pub open spec fn with_buffer(v: TimerView, b: Seq<char>) -> TimerView {
    TimerView { editing: Some(b), to_wait: wait_of(b), ..v }
}

/// A step from `Stopped`.
pub open spec fn next_stopped(v: TimerView, m: Message, now: Instant) -> TimerView {
    match m {
        Message::EditNewNum(d) => match v.editing {
            Some(b) => if b.len() >= MAX_EDIT_DIGITS {
                v
            } else {
                with_buffer(v, b + decimal(d as nat))
            },
            None => with_buffer(v, decimal(d as nat)),
        },
        Message::EditBackspace => match v.editing {
            Some(b) => with_buffer(v, backspaced(b)),
            None => with_buffer(v, Seq::empty()),
        },
        Message::EnableTimer => TimerView {
            state: TimerAppState::Started {
                start_instant: now,
                time_left: v.to_wait,
                total_wait: v.to_wait,
                is_paused: IsPaused::NotPaused,
            },
            editing: None,
            ..v
        },
        Message::EnableEditTimer => TimerView { editing: Some(Seq::empty()), ..v },
        _ => v,
    }
}

/// A step from `Started`.
pub open spec fn next_started(
    v: TimerView,
    start_instant: Instant,
    total_wait: Duration,
    is_paused: IsPaused,
    m: Message,
    now: Instant,
) -> (TimerView, Effect) {
    match m {
        Message::Tick => match is_paused {
            IsPaused::NotPaused => {
                let left = remaining(total_wait, start_instant, now);
                if left == 0 {
                    (TimerView { state: TimerAppState::Ringing, ..v }, Effect::StartAlarm)
                } else {
                    (
                        TimerView {
                            state: TimerAppState::Started {
                                start_instant,
                                time_left: Duration { millis: left as u64 },
                                total_wait,
                                is_paused,
                            },
                            ..v
                        },
                        Effect::Nothing,
                    )
                }
            },
            IsPaused::Paused { .. } => (v, Effect::Nothing),
        },
        Message::TogglePause => {
            let (start, paused) = match is_paused {
                IsPaused::Paused { pause_start } => (
                    shifted(start_instant, elapsed(pause_start, now)),
                    IsPaused::NotPaused,
                ),
                IsPaused::NotPaused => (start_instant, IsPaused::Paused { pause_start: now }),
            };
            (
                TimerView {
                    state: TimerAppState::Started {
                        start_instant: start,
                        time_left: v.state->time_left,
                        total_wait,
                        is_paused: paused,
                    },
                    ..v
                },
                Effect::Nothing,
            )
        },
        _ => (v, Effect::Nothing),
    }
}

/// The state and the effect after message `m` arrives at `now`.
pub open spec fn next(v: TimerView, m: Message, now: Instant) -> (TimerView, Effect) {
    if m == Message::ResetTimer {
        (TimerView { state: TimerAppState::Stopped, ..v }, Effect::StopAlarm)
    } else {
        match v.state {
            TimerAppState::Stopped => (next_stopped(v, m, now), Effect::Nothing),
            TimerAppState::Started { start_instant, total_wait, is_paused, .. } => next_started(
                v,
                start_instant,
                total_wait,
                is_paused,
                m,
                now,
            ),
            TimerAppState::Ringing => (
                v,
                if m == Message::StopRinging {
                    Effect::StopAlarm
                } else {
                    Effect::Nothing
                },
            ),
        }
    }
}

/// A reset, from any state, stops the timer and silences the alarm, keeping
/// the wait and the edit state; a second reset leaves the timer as the first
/// left it and again only silences.
pub proof fn lemma_reset_stops(v: TimerView, now: Instant, later: Instant)
    ensures
        next(v, Message::ResetTimer, now).0 == (TimerView { state: TimerAppState::Stopped, ..v }),
        next(v, Message::ResetTimer, now).1 == Effect::StopAlarm,
        next(next(v, Message::ResetTimer, now).0, Message::ResetTimer, later) == next(
            v,
            Message::ResetTimer,
            now,
        ),
{
}

/// With a wait of zero, the first tick after the start rings, whenever it comes.
pub proof fn lemma_zero_wait_rings_on_first_tick(v: TimerView, start: Instant, tick: Instant)
    requires
        v.state == TimerAppState::Stopped,
        v.to_wait.millis == 0,
    ensures
        next(v, Message::EnableTimer, start).0.state is Started,
        next(v, Message::EnableTimer, start).1 == Effect::Nothing,
        next(next(v, Message::EnableTimer, start).0, Message::Tick, tick).0.state
            == TimerAppState::Ringing,
        next(next(v, Message::EnableTimer, start).0, Message::Tick, tick).1 == Effect::StartAlarm,
{
}

/// Pausing at `pause_at` and resuming at `resume_at` keeps the time left and
/// the total, does not count down in between, and moves the start so that,
/// any `after` milliseconds past the resume, the countdown shows what it would
/// have shown `after` milliseconds past the pause.
pub proof fn lemma_pause_resume(
    v: TimerView,
    pause_at: Instant,
    resume_at: Instant,
    tick_in_pause: Instant,
    after: nat,
)
    requires
        v.state is Started,
        v.state->is_paused == IsPaused::NotPaused,
        v.state->start_instant.millis <= pause_at.millis <= resume_at.millis,
        resume_at.millis + after <= u64::MAX,
    ensures
        ({
            let paused = next(v, Message::TogglePause, pause_at).0;
            let resumed = next(paused, Message::TogglePause, resume_at).0;
            &&& paused.state->is_paused is Paused
            &&& next(paused, Message::Tick, tick_in_pause) == (paused, Effect::Nothing)
            &&& resumed.state is Started
            &&& resumed.state->is_paused == IsPaused::NotPaused
            &&& resumed.state->time_left == v.state->time_left
            &&& resumed.state->total_wait == v.state->total_wait
            &&& remaining(
                v.state->total_wait,
                resumed.state->start_instant,
                Instant { millis: (resume_at.millis + after) as u64 },
            ) == remaining(
                v.state->total_wait,
                v.state->start_instant,
                Instant { millis: (pause_at.millis + after) as u64 },
            )
        }),
{
}

impl TimerApp {
    /// A stopped timer, not editing, set to wait five minutes.
    pub fn new() -> (r: TimerApp)
        ensures
            r@ == (TimerView {
                state: TimerAppState::Stopped,
                editing: None,
                to_wait: Duration { millis: (DEFAULT_WAIT_SECS * 1000) as u64 },
            }),
    {
        TimerApp {
            state: TimerAppState::Stopped,
            is_editing: EditingState::NotEditing,
            to_wait: Duration::from_secs(DEFAULT_WAIT_SECS),
        }
    }

    /// Sets the wait to what the digit buffer `s` stands for.
    pub fn update_to_wait_from_str(&mut self, s: &str)
        ensures
            final(self)@ == (TimerView { to_wait: wait_of(s@), ..old(self)@ }),
    {
        let (hours, minutes, seconds) = string_to_hms(s);
        let h: u64 = match hours { Some(v) => v as u64, None => 0 };
        let m: u64 = match minutes { Some(v) => v as u64, None => 0 };
        let sec: u64 = match seconds { Some(v) => v as u64, None => 0 };
        self.to_wait = Duration::from_millis((h * 3600 + m * 60 + sec) * 1000);
    }

    /// Takes the buffer `b`, with the wait it stands for, as the edit state.
    fn set_buffer(&mut self, b: String)
        ensures
            final(self)@ == with_buffer(old(self)@, b@),
    {
        self.update_to_wait_from_str(b.as_str());
        self.is_editing = EditingState::Editing(b);
    }

    fn update_stopped(&mut self, message: Message, now: Instant)
        requires
            old(self).state == TimerAppState::Stopped,
        ensures
            final(self)@ == next_stopped(old(self)@, message, now),
    {
        match message {
            Message::EditNewNum(new_digit) => {
                let digit = numeral(new_digit as u64);
                let buffer = match &self.is_editing {
                    EditingState::Editing(old_state) => {
                        if old_state.as_str().unicode_len() >= MAX_EDIT_DIGITS {
                            None
                        } else {
                            let mut buffer = old_state.clone();
                            buffer.append(digit.as_str());
                            Some(buffer)
                        }
                    },
                    EditingState::NotEditing => Some(digit),
                };
                if let Some(buffer) = buffer {
                    self.set_buffer(buffer);
                }
            },
            Message::EditBackspace => {
                let buffer = match &self.is_editing {
                    EditingState::Editing(old_state) => {
                        let n = old_state.as_str().unicode_len();
                        if n > 0 {
                            assert(old_state@.subrange(0, n - 1) =~= old_state@.drop_last());
                            String::from_str(old_state.as_str().substring_char(0, n - 1))
                        } else {
                            String::new()
                        }
                    },
                    EditingState::NotEditing => String::new(),
                };
                self.set_buffer(buffer);
                assert(self@.editing == next_stopped(old(self)@, message, now).editing);
            },
            Message::EnableTimer => {
                self.state = TimerAppState::Started {
                    start_instant: now,
                    time_left: self.to_wait,
                    total_wait: self.to_wait,
                    is_paused: IsPaused::NotPaused,
                };
                self.is_editing = EditingState::NotEditing;
            },
            Message::EnableEditTimer => {
                self.is_editing = EditingState::Editing(String::new());
                assert(self@.editing->0 =~= Seq::<char>::empty());
            },
            _ => {},
        }
    }

    /// Handles `message`, arriving at `now`, and says what to do with the alarm.
    pub fn update(&mut self, message: Message, now: Instant) -> (r: Effect)
        ensures
            (final(self)@, r) == next(old(self)@, message, now),
    {
        if message == Message::ResetTimer {
            self.state = TimerAppState::Stopped;
            return Effect::StopAlarm;
        }
        match self.state {
            TimerAppState::Stopped => {
                self.update_stopped(message, now);
                Effect::Nothing
            },
            TimerAppState::Started { start_instant, time_left, total_wait, is_paused } => {
                match message {
                    Message::Tick => {
                        if let IsPaused::Paused { .. } = is_paused {
                            return Effect::Nothing;
                        }
                        let new_duration = total_wait.saturating_sub(
                            now.saturating_duration_since(start_instant),
                        );
                        if new_duration.is_zero() {
                            self.state = TimerAppState::Ringing;
                            Effect::StartAlarm
                        } else {
                            self.state = TimerAppState::Started {
                                start_instant,
                                time_left: new_duration,
                                total_wait,
                                is_paused,
                            };
                            Effect::Nothing
                        }
                    },
                    Message::TogglePause => {
                        let (start, paused) = match is_paused {
                            IsPaused::Paused { pause_start } => (
                                start_instant.saturating_add(
                                    now.saturating_duration_since(pause_start),
                                ),
                                IsPaused::NotPaused,
                            ),
                            IsPaused::NotPaused => (
                                start_instant,
                                IsPaused::Paused { pause_start: now },
                            ),
                        };
                        self.state = TimerAppState::Started {
                            start_instant: start,
                            time_left,
                            total_wait,
                            is_paused: paused,
                        };
                        Effect::Nothing
                    },
                    _ => Effect::Nothing,
                }
            },
            TimerAppState::Ringing => {
                if message == Message::StopRinging {
                    Effect::StopAlarm
                } else {
                    Effect::Nothing
                }
            },
        }
    }
}

} // verus!
