use timerys::{Instant, Message, Screen, TimerApp};

fn at(ms: u64) -> Instant {
    Instant::from_millis(ms)
}

fn shown(s: &Screen) -> Vec<(String, String, bool)> {
    s.segments
        .iter()
        .map(|g| (g.amount.clone(), g.unit.to_string(), g.dimmed))
        .collect()
}

fn seg(a: &str, u: &str, dimmed: bool) -> (String, String, bool) {
    (a.to_string(), u.to_string(), dimmed)
}

#[test]
fn stopped_screen_offers_start() {
    let app = TimerApp::new();
    let s = app.screen();
    assert_eq!(shown(&s), vec![seg("5", "m", false), seg("00", "s", false)]);
    assert!(s.opens_editor);
    assert!(!s.capture_digits);
    assert_eq!(s.primary.label, "Start");
    assert_eq!(s.primary.on_press, Some(Message::EnableTimer));
    assert_eq!(s.secondary.label, "Reset");
    assert_eq!(s.secondary.on_press, None);
}

#[test]
fn editing_screen_dims_untyped_fields() {
    let mut app = TimerApp::new();
    app.update(Message::EnableEditTimer, at(0));
    let s = app.screen();
    assert!(s.capture_digits);
    assert!(!s.opens_editor);
    assert_eq!(
        shown(&s),
        vec![seg("00", "h", true), seg("05", "m", true), seg("00", "s", true)]
    );
    app.update(Message::EditNewNum(1), at(0));
    app.update(Message::EditNewNum(3), at(0));
    app.update(Message::EditNewNum(0), at(0));
    assert_eq!(
        shown(&app.screen()),
        vec![seg("00", "h", true), seg("01", "m", false), seg("30", "s", false)]
    );
}

#[test]
fn running_screen_offers_pause_and_reset() {
    let mut app = TimerApp::new();
    app.update(Message::EnableTimer, at(0));
    app.update(Message::Tick, at(65_000));
    let s = app.screen();
    assert_eq!(shown(&s), vec![seg("3", "m", false), seg("55", "s", false)]);
    assert_eq!(s.primary.label, "Pause");
    assert_eq!(s.primary.on_press, Some(Message::TogglePause));
    assert_eq!(s.secondary.on_press, Some(Message::ResetTimer));
    assert!(!s.capture_digits && !s.opens_editor);
    app.update(Message::TogglePause, at(65_000));
    assert_eq!(app.screen().primary.label, "Resume");
}

#[test]
fn ringing_screen_offers_okay() {
    let mut app = TimerApp::new();
    app.update_to_wait_from_str("");
    app.update(Message::EnableTimer, at(0));
    app.update(Message::Tick, at(0));
    let s = app.screen();
    assert_eq!(shown(&s), vec![seg("0", "s", false)]);
    assert_eq!(s.primary.label, "Okay");
    assert_eq!(s.primary.on_press, Some(Message::StopRinging));
    assert_eq!(s.secondary.label, "Reset");
    assert_eq!(s.secondary.on_press, Some(Message::ResetTimer));
}

#[test]
fn titles() {
    let mut app = TimerApp::new();
    assert_eq!(app.title(), "Timerys - 05:00");
    app.update_to_wait_from_str("10203");
    assert_eq!(app.title(), "Timerys - 01:02:03");
    app.update(Message::EnableTimer, at(0));
    app.update(Message::Tick, at(3_000));
    assert_eq!(app.title(), "Timerys - 01:02:00");
}
