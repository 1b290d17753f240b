//! Small text helpers shared by the views: titles, priority marks and
//! human readable durations.
use vstd::prelude::*;

use crate::task::TASK_PRIORITY_NONE;
use crate::text::{decimal, decimal2, push_char, push_decimal, push_decimal2, push_str, string_of};

verus! {

pub struct Util;

/// Number of `!` shown for a priority value: 1 is the highest priority and
/// gets three marks, 3 gets one, "no priority" and unknown values get none.
pub open spec fn indicator_len(value: u8) -> nat {
    if value == 1 {
        3
    } else if value == 2 {
        2
    } else if value == 3 {
        1
    } else {
        0
    }
}

/// The priority mark: `indicator_len(value)` exclamation marks.
pub open spec fn indicator_text(value: u8) -> Seq<char> {
    Seq::new(indicator_len(value), |i: int| '!')
}

/// `HH:MM:SS`, each field zero-padded to two digits (hours may grow wider).
pub open spec fn clock_text(secs: nat) -> Seq<char> {
    decimal2(secs / 3600) + seq![':'] + decimal2((secs % 3600) / 60) + seq![':'] + decimal2(
        secs % 60,
    )
}

/// Text of a positive span of `d` seconds: the largest non-zero unit
/// (days, hours, minutes) and every smaller one down to seconds.
pub open spec fn span_text(d: nat) -> Seq<char> {
    let days = d / 86400;
    let hours = (d % 86400) / 3600;
    let minutes = (d % 3600) / 60;
    let seconds = d % 60;
    if days > 0 {
        decimal(days) + "d "@ + decimal(hours) + "h "@ + decimal(minutes) + "m "@ + decimal(
            seconds,
        ) + "s"@
    } else if hours > 0 {
        decimal(hours) + "h "@ + decimal(minutes) + "m "@ + decimal(seconds) + "s"@
    } else if minutes > 0 {
        decimal(minutes) + "m "@ + decimal(seconds) + "s"@
    } else {
        decimal(seconds) + "s"@
    }
}

/// What the task details show as the time between creation and completion.
pub open spec fn duration_text(start: Option<u64>, end: Option<u64>) -> Seq<char> {
    match (start, end) {
        (Some(s), Some(e)) => {
            if e > s {
                span_text((e - s) as nat)
            } else {
                "Invalid time range"@
            }
        },
        _ => "Task not completed"@,
    }
}

impl Util {
    /// The title padded with one space on each side.
    pub fn get_spaced_title(title: &str) -> (r: String)
        ensures
            r@ == seq![' '] + title@ + seq![' '],
    {
        let mut s = String::new();
        push_char(&mut s, ' ');
        push_str(&mut s, title);
        push_char(&mut s, ' ');
        s
    }

    /// The `!`, `!!` or `!!!` mark of a priority value (1 = `!!!`).
    pub fn get_priority_indicator(value: u8) -> (r: String)
        ensures
            r@ == indicator_text(value),
    {
        let count: u8 = if value == TASK_PRIORITY_NONE {
            0
        } else if value == 1 {
            3
        } else if value == 2 {
            2
        } else if value == 3 {
            1
        } else {
            0
        };
        let mut s = String::new();
        let mut i: u8 = 0;
        while i < count
            invariant
                i <= count,
                count == indicator_len(value),
                s@ =~= Seq::new(i as nat, |k: int| '!'),
            decreases count - i,
        {
            push_char(&mut s, '!');
            i = i + 1;
        }
        s
    }

    /// A seconds count as `HH:MM:SS`.
    pub fn format_secs(secs: u64) -> (r: String)
        ensures
            r@ == clock_text(secs as nat),
    {
        let mut s = String::new();
        push_decimal2(&mut s, secs / 3600);
        push_char(&mut s, ':');
        push_decimal2(&mut s, (secs % 3600) / 60);
        push_char(&mut s, ':');
        push_decimal2(&mut s, secs % 60);
        assert(s@ =~= clock_text(secs as nat));
        s
    }

    /// The time between `start` and `end` as `1d 2h 3m 4s` (leading zero
    /// units left out), or an explanation when it cannot be measured.
    pub fn format_duration(start: Option<u64>, end: Option<u64>) -> (r: String)
        ensures
            r@ == duration_text(start, end),
    {
        match (start, end) {
            (Some(s), Some(e)) => {
                if e > s {
                    let d = e - s;
                    let days = d / 86400;
                    let hours = (d % 86400) / 3600;
                    let minutes = (d % 3600) / 60;
                    let seconds = d % 60;
                    let mut out = String::new();
                    if days > 0 {
                        push_decimal(&mut out, days);
                        push_str(&mut out, "d ");
                    }
                    if days > 0 || hours > 0 {
                        push_decimal(&mut out, hours);
                        push_str(&mut out, "h ");
                    }
                    if days > 0 || hours > 0 || minutes > 0 {
                        push_decimal(&mut out, minutes);
                        push_str(&mut out, "m ");
                    }
                    push_decimal(&mut out, seconds);
                    push_str(&mut out, "s");
                    assert(out@ =~= span_text(d as nat));
                    out
                } else {
                    string_of("Invalid time range")
                }
            },
            _ => string_of("Task not completed"),
        }
    }
}

/// The local date and time of a UNIX timestamp, as
/// `%Y-%m-%d %H:%M:%S %z`: `DateTime::from_timestamp(secs, 0)` of chrono,
/// converted to the `Local` time zone and formatted. `None` when chrono
/// cannot represent the instant; its source builds the date from the day
/// count, which it can for every instant from 1970 to the end of 9999. The
/// text depends on the machine's time zone and is not stated; being the
/// date, time and offset with their separators, it is never `N/A`.
#[verifier::external_body]
fn local_time_text(secs: i64) -> (r: Option<String>)
    ensures
        0 <= secs <= 253402300799 ==> r is Some,
        r matches Some(s) ==> s@ != "N/A"@,
{
    match chrono::DateTime::from_timestamp(secs, 0) {
        Some(dt) => Some(dt.with_timezone(&chrono::Local).format("%Y-%m-%d %H:%M:%S %z").to_string()),
        None => None,
    }
}

impl Util {
    /// The shown text of a timestamp given its local time text: `N/A` when
    /// there is none.
    pub fn timestamp_text(local: Option<String>) -> (r: String)
        ensures
            match local {
                Some(t) => r@ == t@,
                None => r@ == "N/A"@,
            },
    {
        match local {
            Some(t) => t,
            None => string_of("N/A"),
        }
    }

    /// A timestamp in local time, `N/A` when there is none (or it is out of
    /// the calendar's range). The seconds are read as a signed number, as
    /// a 64-bit two's complement.
    pub fn format_timestamp(timestamp: Option<u64>) -> (r: String)
        ensures
            timestamp is None ==> r@ == "N/A"@,
            timestamp matches Some(ts) && ts <= 253402300799 ==> r@ != "N/A"@,
    {
        match timestamp {
            Some(ts) => {
                let secs = #[verifier::truncate] (ts as i64);
                Util::timestamp_text(local_time_text(secs))
            },
            None => string_of("N/A"),
        }
    }
}

} // verus!
