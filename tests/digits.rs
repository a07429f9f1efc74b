use timerys::{digit_of, intercept_key, string_to_hms, Interception, Key};

#[test]
fn three_digits_fill_minutes_and_seconds() {
    assert_eq!(string_to_hms("130"), (None, Some(1), Some(30)));
}

#[test]
fn a_fourth_digit_moves_the_fields() {
    assert_eq!(string_to_hms("1305"), (None, Some(13), Some(5)));
    assert_eq!(string_to_hms("13051"), (Some(1), Some(30), Some(51)));
}

#[test]
fn field_boundaries_shift_as_the_buffer_grows() {
    assert_eq!(string_to_hms(""), (None, None, None));
    assert_eq!(string_to_hms("1"), (None, None, Some(1)));
    assert_eq!(string_to_hms("13"), (None, None, Some(13)));
    assert_eq!(string_to_hms("130"), (None, Some(1), Some(30)));
    assert_eq!(string_to_hms("1305"), (None, Some(13), Some(5)));
    assert_eq!(string_to_hms("13052"), (Some(1), Some(30), Some(52)));
    assert_eq!(string_to_hms("123456"), (Some(12), Some(34), Some(56)));
}

#[test]
fn long_hours_read_in_order() {
    assert_eq!(string_to_hms("1230000"), (Some(123), Some(0), Some(0)));
    assert_eq!(string_to_hms("42949672950000"), (Some(4294967295), Some(0), Some(0)));
}

#[test]
fn unreadable_fields_are_none() {
    assert_eq!(string_to_hms("1a30"), (None, None, Some(30)));
    assert_eq!(string_to_hms("12x4"), (None, Some(12), None));
    assert_eq!(string_to_hms("42949672960000"), (None, Some(0), Some(0)));
}

#[test]
fn digits_in_radix_ten() {
    assert_eq!(digit_of('0'), Some(0));
    assert_eq!(digit_of('9'), Some(9));
    assert_eq!(digit_of('a'), None);
    assert_eq!(digit_of('/'), None);
    assert_eq!(digit_of(':'), None);
}

#[test]
fn keys_pass_through_when_not_capturing() {
    let k = Key::Character("5".to_string());
    assert_eq!(intercept_key(false, &k, Some("5")), Interception::PassThrough);
    assert_eq!(intercept_key(false, &Key::Backspace, None), Interception::PassThrough);
}

#[test]
fn keys_captured_while_editing() {
    assert_eq!(intercept_key(true, &Key::Backspace, None), Interception::Backspace);
    let k = Key::Character("7".to_string());
    assert_eq!(intercept_key(true, &k, Some("7")), Interception::Digit(7));
    let plus = Key::Character("+3".to_string());
    assert_eq!(intercept_key(true, &plus, None), Interception::Digit(3));
}

#[test]
fn keys_fall_back_to_their_text() {
    assert_eq!(intercept_key(true, &Key::Other, Some("4")), Interception::Digit(4));
    let k = Key::Character("a".to_string());
    assert_eq!(intercept_key(true, &k, Some("8x")), Interception::Digit(8));
    assert_eq!(intercept_key(true, &k, Some("a")), Interception::PassThrough);
    assert_eq!(intercept_key(true, &Key::Other, Some("\u{8}")), Interception::PassThrough);
    assert_eq!(intercept_key(true, &Key::Other, None), Interception::PassThrough);
    assert_eq!(intercept_key(true, &Key::Other, Some("")), Interception::PassThrough);
}
