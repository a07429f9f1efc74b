//! A countdown timer: duration arithmetic, the parsing of typed digits into
//! hours, minutes and seconds, the timer's state machine, and what the screen
//! shows in each state.

mod digits;
mod display;
mod keys;
mod screen;
mod time;
mod timer;

pub use digits::{digit_of, string_to_hms};
pub use display::{human_duration, numeral, numeral_pad2, parse_duration};
pub use time::{Duration, Instant};
pub use timer::{EditingState, Effect, IsPaused, Message, TimerApp, TimerAppState};
pub use keys::{intercept_key, Interception, Key};
pub use screen::{ButtonView, Schedule, Screen, Segment, RING_LIMIT_MILLIS, TICK_MILLIS};
