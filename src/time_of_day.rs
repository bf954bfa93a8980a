use vstd::prelude::*;

verus! {

/// A wall-clock time of day at minute precision.
#[derive(Debug, Clone, Copy, PartialEq, Eq, Structural)]
pub struct TimeOfDay {
    pub hour: u8,
    pub minute: u8,
}

pub open spec fn is_digit(c: char) -> bool {
    '0' <= c && c <= '9'
}

pub open spec fn digit_value(c: char) -> int {
    c as int - '0' as int
}

/// Hour and minute written in `s` as `H:MM` or `HH:MM`, in range or not.
pub open spec fn hour_minute_of(s: Seq<char>) -> Option<(int, int)> {
    if s.len() == 5 && is_digit(s[0]) && is_digit(s[1]) && s[2] == ':' && is_digit(s[3])
        && is_digit(s[4]) {
        Some(
            (
                10 * digit_value(s[0]) + digit_value(s[1]),
                10 * digit_value(s[3]) + digit_value(s[4]),
            ),
        )
    } else if s.len() == 4 && is_digit(s[0]) && s[1] == ':' && is_digit(s[2]) && is_digit(
        s[3],
    ) {
        Some((digit_value(s[0]), 10 * digit_value(s[2]) + digit_value(s[3])))
    } else {
        None
    }
}

/// The time of day that `s` denotes, if it is a valid one.
pub open spec fn parse_spec(s: Seq<char>) -> Option<TimeOfDay> {
    match hour_minute_of(s) {
        Some((h, m)) => if h < 24 && m < 60 {
            Some(TimeOfDay { hour: h as u8, minute: m as u8 })
        } else {
            None
        },
        None => None,
    }
}

impl TimeOfDay {
    pub open spec fn wf(&self) -> bool {
        self.hour < 24 && self.minute < 60
    }

    /// Minutes since midnight: the order in which times of day compare.
    pub open spec fn minutes(&self) -> int {
        self.hour as int * 60 + self.minute as int
    }

    /// Every parsed time of day is valid.
    pub proof fn lemma_parse_wf(s: Seq<char>)
        ensures
            parse_spec(s) matches Some(t) ==> t.wf(),
    {
    }

    pub fn new(hour: u8, minute: u8) -> (r: Option<TimeOfDay>)
        ensures
            r == (if hour < 24 && minute < 60 {
                Some(TimeOfDay { hour, minute })
            } else {
                None
            }),
    {
        if hour < 24 && minute < 60 {
            Some(TimeOfDay { hour, minute })
        } else {
            None
        }
    }

    /// Reads `H:MM` or `HH:MM` (24-hour clock).
    pub fn parse(s: &str) -> (r: Option<TimeOfDay>)
        ensures
            r == parse_spec(s@),
            r matches Some(t) ==> t.wf(),
    {
        let n = s.unicode_len();
        let hour: u32;
        let minute: u32;
        if n == 5 {
            let c0 = s.get_char(0);
            let c1 = s.get_char(1);
            let c2 = s.get_char(2);
            let c3 = s.get_char(3);
            let c4 = s.get_char(4);
            if !(is_digit_char(c0) && is_digit_char(c1) && c2 == ':' && is_digit_char(c3)
                && is_digit_char(c4)) {
                return None;
            }
            hour = 10 * digit_of(c0) + digit_of(c1);
            minute = 10 * digit_of(c3) + digit_of(c4);
        } else if n == 4 {
            let c0 = s.get_char(0);
            let c1 = s.get_char(1);
            let c2 = s.get_char(2);
            let c3 = s.get_char(3);
            if !(is_digit_char(c0) && c1 == ':' && is_digit_char(c2) && is_digit_char(c3)) {
                return None;
            }
            hour = digit_of(c0);
            minute = 10 * digit_of(c2) + digit_of(c3);
        } else {
            return None;
        }
        if hour < 24 && minute < 60 {
            Some(TimeOfDay { hour: hour as u8, minute: minute as u8 })
        } else {
            None
        }
    }

    pub fn minutes_of_day(&self) -> (r: u32)
        ensures
            r as int == self.minutes(),
    {
        self.hour as u32 * 60 + self.minute as u32
    }
}

fn is_digit_char(c: char) -> (r: bool)
    ensures
        r == is_digit(c),
{
    '0' <= c && c <= '9'
}

fn digit_of(c: char) -> (r: u32)
    requires
        is_digit(c),
    ensures
        r as int == digit_value(c),
        r < 10,
{
    (c as u32) - ('0' as u32)
}

} // verus!
