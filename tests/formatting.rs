use timerys::{human_duration, numeral, numeral_pad2, parse_duration, Duration};

fn pairs(d: Duration) -> Vec<(String, String)> {
    parse_duration(d)
        .into_iter()
        .map(|(a, u)| (a, u.to_string()))
        .collect()
}

fn expect(v: &[(&str, &str)]) -> Vec<(String, String)> {
    v.iter().map(|(a, u)| (a.to_string(), u.to_string())).collect()
}

#[test]
fn human_duration_splits_whole_seconds() {
    assert_eq!(human_duration(Duration::from_secs(3661)), (1, 1, 1));
    assert_eq!(human_duration(Duration::from_secs(0)), (0, 0, 0));
    assert_eq!(human_duration(Duration::from_secs(59)), (0, 0, 59));
    assert_eq!(human_duration(Duration::from_secs(3600)), (1, 0, 0));
    assert_eq!(human_duration(Duration::from_secs(360000)), (100, 0, 0));
}

#[test]
fn human_duration_rounds_past_a_tenth() {
    // 59.05 s: a twentieth past, rounded down.
    assert_eq!(human_duration(Duration::from_millis(59_050)), (0, 0, 59));
    // exactly a tenth past: still rounded down.
    assert_eq!(human_duration(Duration::from_millis(59_100)), (0, 0, 59));
    // 59.101 s: rounded up, carrying into the minutes.
    assert_eq!(human_duration(Duration::from_millis(59_101)), (0, 1, 0));
    // just after a 300 s countdown starts.
    assert_eq!(human_duration(Duration::from_millis(299_900)), (0, 5, 0));
}

#[test]
fn human_duration_adds_back_to_whole_seconds() {
    for secs in [0u64, 1, 59, 60, 61, 3599, 3600, 3601, 86399, 90061, 1_000_000] {
        let (h, m, s) = human_duration(Duration::from_millis(secs * 1000 + 100));
        assert_eq!(h * 3600 + m * 60 + s, secs);
        assert!(m <= 59 && s <= 59);
    }
}

#[test]
fn segments_of_sixty_five_seconds() {
    assert_eq!(
        pairs(Duration::from_secs(65)),
        expect(&[("1", "m"), ("05", "s")])
    );
}

#[test]
fn segments_of_an_hour_a_minute_a_second() {
    assert_eq!(
        pairs(Duration::from_secs(3661)),
        expect(&[("1", "h"), ("01", "m"), ("01", "s")])
    );
}

#[test]
fn segments_of_forty_five_seconds() {
    assert_eq!(pairs(Duration::from_secs(45)), expect(&[("45", "s")]));
}

#[test]
fn segments_of_zero() {
    assert_eq!(pairs(Duration::from_secs(0)), expect(&[("0", "s")]));
}

#[test]
fn segments_keep_inner_zeros() {
    assert_eq!(
        pairs(Duration::from_secs(36000)),
        expect(&[("10", "h"), ("00", "m"), ("00", "s")])
    );
    assert_eq!(
        pairs(Duration::from_secs(600)),
        expect(&[("10", "m"), ("00", "s")])
    );
}

#[test]
fn numerals() {
    assert_eq!(numeral(0), "0");
    assert_eq!(numeral(42), "42");
    assert_eq!(numeral(18446744073709551615), "18446744073709551615");
    assert_eq!(numeral_pad2(0), "00");
    assert_eq!(numeral_pad2(7), "07");
    assert_eq!(numeral_pad2(10), "10");
    assert_eq!(numeral_pad2(123), "123");
}
