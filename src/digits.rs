//! Reading a buffer of typed digits as hours, minutes and seconds.
//!
//! The last two characters are the seconds, the two before them the minutes,
//! and whatever stands in front the hours. A field that the buffer does not
//! reach is `None`, and so is one that holds a character other than an ASCII
//! digit or a value past `u32::MAX`.

use vstd::prelude::*;

verus! {

pub open spec fn is_digit(c: char) -> bool {
    '0' <= c && c <= '9'
}

pub open spec fn all_digits(s: Seq<char>) -> bool {
    forall|i: int| 0 <= i < s.len() ==> is_digit(#[trigger] s[i])
}

/// The value of an ASCII digit.
pub open spec fn digit_value(c: char) -> nat {
    (c as int - '0' as int) as nat
}

/// The number that a string of decimal digits denotes, most significant first.
pub open spec fn value_of(s: Seq<char>) -> nat
    decreases s.len(),
{
    if s.len() == 0 {
        0
    } else {
        value_of(s.drop_last()) * 10 + digit_value(s.last())
    }
}

/// A field read from its characters: `None` when it is empty, holds a
/// non-digit, or does not fit in a `u32`.
pub open spec fn field_of(s: Seq<char>) -> Option<u32> {
    if s.len() > 0 && all_digits(s) && value_of(s) <= u32::MAX {
        Some(value_of(s) as u32)
    } else {
        None
    }
}

pub open spec fn seconds_part(s: Seq<char>) -> Seq<char> {
    if s.len() >= 2 {
        s.subrange(s.len() - 2, s.len() as int)
    } else {
        s
    }
}

pub open spec fn minutes_part(s: Seq<char>) -> Seq<char> {
    if s.len() >= 4 {
        s.subrange(s.len() - 4, s.len() - 2)
    } else if s.len() >= 2 {
        s.subrange(0, s.len() - 2)
    } else {
        Seq::empty()
    }
}

pub open spec fn hours_part(s: Seq<char>) -> Seq<char> {
    if s.len() >= 4 {
        s.subrange(0, s.len() - 4)
    } else {
        Seq::empty()
    }
}

/// Hours, minutes and seconds read from a digit buffer.
pub open spec fn hms_of(s: Seq<char>) -> (Option<u32>, Option<u32>, Option<u32>) {
    (field_of(hours_part(s)), field_of(minutes_part(s)), field_of(seconds_part(s)))
}

/// A digit string never denotes less than any of its prefixes.
proof fn lemma_value_of_prefix(s: Seq<char>, k: int)
    requires
        0 <= k <= s.len(),
    ensures
        value_of(s.subrange(0, k)) <= value_of(s),
    decreases s.len(),
{
    if k < s.len() {
        assert(s.drop_last().subrange(0, k) =~= s.subrange(0, k));
        lemma_value_of_prefix(s.drop_last(), k);
    } else {
        assert(s.subrange(0, k) =~= s);
    }
}

/// The value of a character in radix 10, as `char::to_digit(10)` gives it.
pub fn digit_of(c: char) -> (r: Option<u32>)
    ensures
        r == (if is_digit(c) {
            Some(digit_value(c) as u32)
        } else {
            None::<u32>
        }),
{
    if '0' <= c && c <= '9' {
        Some(c as u32 - '0' as u32)
    } else {
        None
    }
}

/// Reads characters `from..to` of `s` as one field.
fn parse_field(s: &str, from: usize, to: usize) -> (r: Option<u32>)
    requires
        from <= to <= s@.len(),
    ensures
        r == field_of(s@.subrange(from as int, to as int)),
{
    let ghost t = s@.subrange(from as int, to as int);
    if from == to {
        return None;
    }
    let mut value: u32 = 0;
    let mut i: usize = from;
    while i < to
        invariant
            from <= i <= to <= s@.len(),
            t == s@.subrange(from as int, to as int),
            all_digits(t.subrange(0, i - from)),
            value as nat == value_of(t.subrange(0, i - from)),
        decreases to - i,
    {
        let c = s.get_char(i);
        let ghost k: int = i - from + 1;
        assert(t.subrange(0, k).drop_last() =~= t.subrange(0, k - 1));
        match digit_of(c) {
            None => {
                assert(!is_digit(t[k - 1]));
                return None;
            },
            Some(d) => {
                if value > (u32::MAX - d) / 10 {
                    proof {
                        lemma_value_of_prefix(t, k);
                    }
                    return None;
                }
                value = value * 10 + d;
                i = i + 1;
            },
        }
    }
    assert(t.subrange(0, t.len() as int) =~= t);
    Some(value)
}

/// Splits a buffer of typed digits into (hours, minutes, seconds).
pub fn string_to_hms(s: &str) -> (r: (Option<u32>, Option<u32>, Option<u32>))
    ensures
        r == hms_of(s@),
{
    let n = s.unicode_len();
    let sec_from: usize = if n >= 2 { n - 2 } else { 0 };
    let min_from: usize = if n >= 4 { n - 4 } else { 0 };
    let seconds = parse_field(s, sec_from, n);
    let minutes = parse_field(s, min_from, sec_from);
    let hours = parse_field(s, 0, min_from);
    proof {
        if n < 2 {
            assert(s@.subrange(0, n as int) =~= s@);
        }
        if n < 4 {
            assert(s@.subrange(0, 0) =~= Seq::<char>::empty());
        }
    }
    (hours, minutes, seconds)
}

} // verus!
