//! What the window shows for each state of the timer: the time as
//! (amount, unit) segments, the two buttons and the messages they send, the
//! window title, and the events the timer listens for.

use vstd::prelude::*;
use crate::digits::hms_of;
use crate::digits::string_to_hms;
use crate::display::{
    decimal, duration_segments, human_duration, humanized, numeral, numeral_pad2, pad2,
    parse_duration,
};
use crate::time::Duration;
use crate::timer::{EditingState, IsPaused, Message, TimerApp, TimerAppState, TimerView};

verus! {

/// How often a running countdown ticks, in milliseconds.
pub const TICK_MILLIS: u64 = 100;

/// How long the alarm rings before it is silenced on its own, in milliseconds.
pub const RING_LIMIT_MILLIS: u64 = 60000;

/// One shown amount with its unit; `dimmed` marks a field not yet typed.
#[derive(Debug)]
pub struct Segment {
    pub amount: String,
    pub unit: &'static str,
    pub dimmed: bool,
}

/// A button: its label, and the message it sends when pressed, if it is enabled.
#[derive(Clone, Copy, Debug)]
pub struct ButtonView {
    pub label: &'static str,
    pub on_press: Option<Message>,
}

#[derive(Debug)]
pub struct Screen {
    pub segments: Vec<Segment>,
    /// Pressing the shown time starts editing it.
    pub opens_editor: bool,
    /// Typed digits and backspace go to the editor.
    pub capture_digits: bool,
    pub primary: ButtonView,
    pub secondary: ButtonView,
}

/// What the timer listens for besides the buttons.
#[derive(Clone, Copy, Debug, PartialEq, Eq, Structural)]
pub enum Schedule {
    Idle,
    /// Send `message` every `period_millis`.
    Every { period_millis: u64, message: Message },
    /// Send `message` when Enter is pressed.
    OnEnter(Message),
}

pub open spec fn bright(s: Seq<(Seq<char>, Seq<char>)>) -> Seq<(Seq<char>, Seq<char>, bool)> {
    s.map_values(|p: (Seq<char>, Seq<char>)| (p.0, p.1, false))
}

/// A field while editing: the typed value, else the wait's own, dimmed.
pub open spec fn edit_field(typed: Option<u32>, current: nat, unit: Seq<char>) -> (
    Seq<char>,
    Seq<char>,
    bool,
) {
    match typed {
        Some(v) => (pad2(v as nat), unit, false),
        None => (pad2(current), unit, true),
    }
}

pub open spec fn edit_segments(buffer: Seq<char>, to_wait: Duration) -> Seq<
    (Seq<char>, Seq<char>, bool),
> {
    let (h, m, s) = hms_of(buffer);
    let (ch, cm, cs) = humanized(to_wait);
    seq![edit_field(h, ch, "h"@), edit_field(m, cm, "m"@), edit_field(s, cs, "s"@)]
}

pub open spec fn segments_shown(v: TimerView) -> Seq<(Seq<char>, Seq<char>, bool)> {
    match v.state {
        TimerAppState::Stopped => match v.editing {
            Some(b) => edit_segments(b, v.to_wait),
            None => bright(duration_segments(v.to_wait)),
        },
        TimerAppState::Started { time_left, .. } => bright(duration_segments(time_left)),
        TimerAppState::Ringing => seq![(decimal(0), "s"@, false)],
    }
}

pub open spec fn primary_shown(v: TimerView) -> (Seq<char>, Option<Message>) {
    match v.state {
        TimerAppState::Stopped => ("Start"@, Some(Message::EnableTimer)),
        TimerAppState::Started { is_paused, .. } => match is_paused {
            IsPaused::Paused { .. } => ("Resume"@, Some(Message::TogglePause)),
            IsPaused::NotPaused => ("Pause"@, Some(Message::TogglePause)),
        },
        TimerAppState::Ringing => ("Okay"@, Some(Message::StopRinging)),
    }
}

pub open spec fn secondary_shown(v: TimerView) -> (Seq<char>, Option<Message>) {
    match v.state {
        TimerAppState::Stopped => ("Reset"@, None),
        _ => ("Reset"@, Some(Message::ResetTimer)),
    }
}

pub open spec fn editing_shown(v: TimerView) -> bool {
    v.state == TimerAppState::Stopped && v.editing is Some
}

/// The duration in the title: the time left while counting down, else the wait.
pub open spec fn title_duration(v: TimerView) -> Duration {
    match v.state {
        TimerAppState::Started { time_left, .. } => time_left,
        _ => v.to_wait,
    }
}

/// `hh:mm:ss`, or `mm:ss` under an hour.
pub open spec fn clock_text(h: nat, m: nat, s: nat) -> Seq<char> {
    if h > 0 {
        pad2(h) + ":"@ + pad2(m) + ":"@ + pad2(s)
    } else {
        pad2(m) + ":"@ + pad2(s)
    }
}

pub open spec fn title_of(v: TimerView) -> Seq<char> {
    let (h, m, s) = humanized(title_duration(v));
    "Timerys - "@ + clock_text(h, m, s)
}

pub open spec fn schedule_of(v: TimerView) -> Schedule {
    match v.state {
        TimerAppState::Started { is_paused, .. } => match is_paused {
            IsPaused::Paused { .. } => Schedule::Idle,
            IsPaused::NotPaused => Schedule::Every {
                period_millis: TICK_MILLIS,
                message: Message::Tick,
            },
        },
        TimerAppState::Stopped => match v.editing {
            Some(_) => Schedule::OnEnter(Message::EnableTimer),
            None => Schedule::Idle,
        },
        TimerAppState::Ringing => Schedule::Every {
            period_millis: RING_LIMIT_MILLIS,
            message: Message::StopRinging,
        },
    }
}

pub open spec fn segments_match(r: Seq<Segment>, s: Seq<(Seq<char>, Seq<char>, bool)>) -> bool {
    &&& r.len() == s.len()
    &&& forall|i: int|
        0 <= i < r.len() ==> (#[trigger] r[i].amount@, r[i].unit@, r[i].dimmed) == s[i]
}

/// The pairs of a duration, none of them dimmed.
fn bright_segments(d: Duration) -> (r: Vec<Segment>)
    ensures
        segments_match(r@, bright(duration_segments(d))),
{
    let pairs = parse_duration(d);
    let mut out: Vec<Segment> = Vec::new();
    let mut i: usize = 0;
    while i < pairs.len()
        invariant
            0 <= i <= pairs@.len(),
            pairs@.len() == duration_segments(d).len(),
            forall|j: int|
                0 <= j < pairs@.len() ==> (#[trigger] pairs@[j].0@, pairs@[j].1@)
                    == duration_segments(d)[j],
            segments_match(out@, bright(duration_segments(d).take(i as int))),
        decreases pairs@.len() - i,
    {
        let amount = pairs[i].0.clone();
        let unit = pairs[i].1;
        out.push(Segment { amount, unit, dimmed: false });
        proof {
            assert(bright(duration_segments(d).take(i + 1)) =~= bright(
                duration_segments(d).take(i as int),
            ).push((pairs@[i as int].0@, pairs@[i as int].1@, false)));
        }
        i = i + 1;
    }
    assert(duration_segments(d).take(i as int) =~= duration_segments(d));
    out
}

fn edit_segment(typed: Option<u32>, current: u64, unit: &'static str) -> (r: Segment)
    ensures
        (r.amount@, r.unit@, r.dimmed) == edit_field(typed, current as nat, unit@),
{
    match typed {
        Some(v) => Segment { amount: numeral_pad2(v as u64), unit, dimmed: false },
        None => Segment { amount: numeral_pad2(current), unit, dimmed: true },
    }
}

impl TimerApp {
    /// The segments, buttons and input mode that the window shows.
    pub fn screen(&self) -> (r: Screen)
        ensures
            segments_match(r.segments@, segments_shown(self@)),
            (r.primary.label@, r.primary.on_press) == primary_shown(self@),
            (r.secondary.label@, r.secondary.on_press) == secondary_shown(self@),
            r.capture_digits == editing_shown(self@),
            r.opens_editor == (self@.state == TimerAppState::Stopped && self@.editing is None),
    {
        let reset = "Reset";
        match self.state {
            TimerAppState::Stopped => {
                let (segments, editing) = match &self.is_editing {
                    EditingState::Editing(s) => {
                        let (hours, minutes, seconds) = string_to_hms(s.as_str());
                        let (curr_hours, curr_minutes, curr_seconds) = human_duration(
                            self.to_wait,
                        );
                        let mut segments: Vec<Segment> = Vec::new();
                        segments.push(edit_segment(hours, curr_hours, "h"));
                        segments.push(edit_segment(minutes, curr_minutes, "m"));
                        segments.push(edit_segment(seconds, curr_seconds, "s"));
                        (segments, true)
                    },
                    EditingState::NotEditing => (bright_segments(self.to_wait), false),
                };
                Screen {
                    segments,
                    opens_editor: !editing,
                    capture_digits: editing,
                    primary: ButtonView { label: "Start", on_press: Some(Message::EnableTimer) },
                    secondary: ButtonView { label: reset, on_press: None },
                }
            },
            TimerAppState::Started { time_left, is_paused, .. } => {
                let label = match is_paused {
                    IsPaused::Paused { .. } => "Resume",
                    IsPaused::NotPaused => "Pause",
                };
                Screen {
                    segments: bright_segments(time_left),
                    opens_editor: false,
                    capture_digits: false,
                    primary: ButtonView { label, on_press: Some(Message::TogglePause) },
                    secondary: ButtonView { label: reset, on_press: Some(Message::ResetTimer) },
                }
            },
            TimerAppState::Ringing => {
                let mut segments: Vec<Segment> = Vec::new();
                segments.push(
                    Segment { amount: numeral(0), unit: "s", dimmed: false },
                );
                Screen {
                    segments,
                    opens_editor: false,
                    capture_digits: false,
                    primary: ButtonView { label: "Okay", on_press: Some(Message::StopRinging) },
                    secondary: ButtonView { label: reset, on_press: Some(Message::ResetTimer) },
                }
            },
        }
    }

    /// The window title, with the time left or the wait.
    pub fn title(&self) -> (r: String)
        ensures
            r@ == title_of(self@),
    {
        let duration = match self.state {
            TimerAppState::Started { time_left, .. } => time_left,
            _ => self.to_wait,
        };
        let (hours, minutes, seconds) = human_duration(duration);
        let mut title = String::from_str("Timerys - ");
        if hours > 0 {
            title.append(numeral_pad2(hours).as_str());
            title.append(":");
        }
        title.append(numeral_pad2(minutes).as_str());
        title.append(":");
        title.append(numeral_pad2(seconds).as_str());
        title
    }

    /// What the timer listens for in its present state.
    pub fn subscription(&self) -> (r: Schedule)
        ensures
            r == schedule_of(self@),
    {
        match self.state {
            TimerAppState::Started { is_paused, .. } => match is_paused {
                IsPaused::Paused { .. } => Schedule::Idle,
                IsPaused::NotPaused => Schedule::Every {
                    period_millis: TICK_MILLIS,
                    message: Message::Tick,
                },
            },
            TimerAppState::Stopped => match self.is_editing {
                EditingState::Editing(_) => Schedule::OnEnter(Message::EnableTimer),
                EditingState::NotEditing => Schedule::Idle,
            },
            TimerAppState::Ringing => Schedule::Every {
                period_millis: RING_LIMIT_MILLIS,
                message: Message::StopRinging,
            },
        }
    }
}

} // verus!
