//! Turning a duration into hours, minutes and seconds, and into the
//! (amount, unit) pairs that the screen shows.

use vstd::prelude::*;
use crate::digits::{all_digits, digit_value, is_digit, value_of};
use crate::time::Duration;

verus! {

/// The character of a decimal digit `d < 10`.
pub open spec fn digit_char(d: nat) -> char {
    ('0' as int + d) as char
}

/// The decimal numeral of `n`, with no leading zero.
pub open spec fn decimal(n: nat) -> Seq<char>
    decreases n,
{
    if n < 10 {
        seq![digit_char(n)]
    } else {
        decimal(n / 10).push(digit_char(n % 10))
    }
}

/// The numeral of `n`, padded on the left with `0` to two characters.
pub open spec fn pad2(n: nat) -> Seq<char> {
    if n < 10 {
        seq!['0'] + decimal(n)
    } else {
        decimal(n)
    }
}

/// The whole seconds shown for a span: rounded up when more than a tenth of a
/// second is left over, so that a countdown does not show one second less
/// right after it starts; rounded down otherwise.
pub open spec fn shown_secs(d: Duration) -> nat {
    if d.millis % 1000 > 100 {
        (d.millis / 1000 + 1) as nat
    } else {
        (d.millis / 1000) as nat
    }
}

/// (hours, minutes, seconds) of a number of seconds.
pub open spec fn hms_of_secs(t: nat) -> (nat, nat, nat) {
    (t / 3600, (t % 3600) / 60, t % 60)
}

pub open spec fn humanized(d: Duration) -> (nat, nat, nat) {
    hms_of_secs(shown_secs(d))
}

/// The (amount, unit) pairs shown for hours, minutes and seconds: a leading
/// zero unit is left out, the first amount is unpadded and the rest have two
/// digits.
pub open spec fn segments_of(h: nat, m: nat, s: nat) -> Seq<(Seq<char>, Seq<char>)> {
    if h > 0 {
        seq![(decimal(h), "h"@), (pad2(m), "m"@), (pad2(s), "s"@)]
    } else if m > 0 {
        seq![(decimal(m), "m"@), (pad2(s), "s"@)]
    } else {
        seq![(decimal(s), "s"@)]
    }
}

pub open spec fn duration_segments(d: Duration) -> Seq<(Seq<char>, Seq<char>)> {
    segments_of(humanized(d).0, humanized(d).1, humanized(d).2)
}

/// Relies on `format!("{}")` of std: the decimal numeral of an integer.
#[verifier::external_body]
fn decimal_string(n: u64) -> (r: String)
    ensures
        r@ == decimal(n as nat),
{
    format!("{n}")
}

/// A decimal numeral reads back as the number it was made from.
pub proof fn lemma_decimal_value(n: nat)
    ensures
        all_digits(decimal(n)),
        value_of(decimal(n)) == n,
        decimal(n).len() >= 1,
        n < 10 ==> decimal(n).len() == 1,
        10 <= n < 100 ==> decimal(n).len() == 2,
    decreases n,
{
    if n < 10 {
        assert(decimal(n).drop_last() =~= Seq::<char>::empty());
        assert(digit_value(digit_char(n)) == n);
        assert(value_of(Seq::<char>::empty()) == 0);
        assert(value_of(decimal(n)) == value_of(decimal(n).drop_last()) * 10 + digit_value(
            decimal(n).last(),
        ));
        assert(is_digit(decimal(n)[0]));
    } else {
        lemma_decimal_value(n / 10);
        let s = decimal(n);
        assert(s.drop_last() =~= decimal(n / 10));
        assert(digit_value(s.last()) == n % 10);
        assert(value_of(s) == value_of(s.drop_last()) * 10 + digit_value(s.last()));
        assert((n / 10) * 10 + n % 10 == n) by (nonlinear_arith);
        assert forall|i: int| 0 <= i < s.len() implies is_digit(#[trigger] s[i]) by {
            if i < s.len() - 1 {
                assert(s[i] == decimal(n / 10)[i]);
            }
        }
    }
}

/// The numeral of `n`, unpadded.
pub fn numeral(n: u64) -> (r: String)
    ensures
        r@ == decimal(n as nat),
{
    decimal_string(n)
}

/// The numeral of `n` padded on the left with `0` to two characters.
pub fn numeral_pad2(n: u64) -> (r: String)
    ensures
        r@ == pad2(n as nat),
{
    let digits = decimal_string(n);
    if n < 10 {
        let mut padded = String::from_str("0");
        proof {
            reveal_strlit("0");
        }
        padded.append(digits.as_str());
        padded
    } else {
        digits
    }
}

/// Splits a span into (hours, minutes, seconds) of its shown whole seconds.
pub fn human_duration(duration: Duration) -> (r: (u64, u64, u64))
    ensures
        (r.0 as nat, r.1 as nat, r.2 as nat) == humanized(duration),
        r.0 * 3600 + r.1 * 60 + r.2 == shown_secs(duration),
        r.1 < 60,
        r.2 < 60,
{
    let whole = duration.millis / 1000;
    let total_secs: u64 = if duration.millis % 1000 > 100 { whole + 1 } else { whole };
    let hours = total_secs / (60 * 60);
    let minutes = (total_secs % (60 * 60)) / 60;
    let seconds = total_secs % 60;
    assert(hours * 3600 + minutes * 60 + seconds == total_secs) by (nonlinear_arith)
        requires
            hours == total_secs / 3600,
            minutes == (total_secs % 3600) / 60,
            seconds == total_secs % 60,
    ;
    (hours, minutes, seconds)
}

/// For a span with no more than a tenth of a second past its whole seconds,
/// the hours, minutes and seconds shown add up to exactly its whole seconds,
/// and minutes and seconds each lie in 0..=59.
pub proof fn lemma_humanized_whole_seconds(d: Duration)
    requires
        d.millis % 1000 <= 100,
    ensures
        humanized(d).0 * 3600 + humanized(d).1 * 60 + humanized(d).2 == d.millis / 1000,
        humanized(d).1 <= 59,
        humanized(d).2 <= 59,
{
    let t = shown_secs(d);
    assert(t == d.millis / 1000);
    assert((t / 3600) * 3600 + ((t % 3600) / 60) * 60 + t % 60 == t) by (nonlinear_arith);
}

/// The (amount, unit) pairs shown for a span.
pub fn parse_duration(duration: Duration) -> (r: Vec<(String, &'static str)>)
    ensures
        r@.len() == duration_segments(duration).len(),
        forall|i: int|
            0 <= i < r@.len() ==> (#[trigger] r@[i].0@, r@[i].1@) == duration_segments(duration)[i],
{
    let (hours, minutes, seconds) = human_duration(duration);
    let mut ret: Vec<(String, &'static str)> = Vec::new();
    if hours > 0 {
        ret.push((numeral(hours), "h"));
        ret.push((numeral_pad2(minutes), "m"));
        ret.push((numeral_pad2(seconds), "s"));
    } else if minutes > 0 {
        ret.push((numeral(minutes), "m"));
        ret.push((numeral_pad2(seconds), "s"));
    } else {
        ret.push((numeral(seconds), "s"));
    }
    ret
}

/// In the pairs shown for a span, the first amount is never zero unless it
/// is the only pair (a bare seconds count), and every later amount is padded
/// to exactly two digits.
pub proof fn lemma_segments_no_leading_zero(d: Duration)
    ensures
        duration_segments(d).len() >= 1,
        duration_segments(d).len() == 1 || value_of(duration_segments(d)[0].0) > 0,
        forall|i: int|
            1 <= i < duration_segments(d).len() ==> (#[trigger] duration_segments(d)[i]).0.len()
                == 2,
        duration_segments(d).last().1 == "s"@,
{
    let (h, m, s) = humanized(d);
    lemma_decimal_value(h);
    lemma_decimal_value(m);
    lemma_decimal_value(s);
}

} // verus!
