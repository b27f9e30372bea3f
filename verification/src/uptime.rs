//! What an uptime reading is, and the two texts that are shown for it.

use crate::decimal::{
    append_decimal, append_two_digit, decimal, digit_char, two_digit, two_digit_is_tens_then_ones,
};
use vstd::prelude::*;

verus! {

/// How long the system has been up, in whole seconds.
#[derive(Clone, Copy, Debug, PartialEq, Eq, Structural)]
pub struct UptimeReading {
    pub seconds: u64,
}

/// The uptime counter could not be read.
#[derive(Clone, Copy, Debug, PartialEq, Eq, Structural)]
pub struct ReadError;

/// The long text of an uptime of `seconds`: hours, minutes and seconds, each
/// as a plain numeral, in the form `1h 1m 1s`.
pub open spec fn full_text(seconds: nat) -> Seq<char> {
    decimal(seconds / 3600) + seq!['h', ' '] + decimal((seconds % 3600) / 60) + seq!['m', ' ']
        + decimal(seconds % 60) + seq!['s']
}

/// The short text of an uptime of `seconds`: whole days as a plain numeral
/// and the hours of the day on two digits, in the form `1D01h`.
pub open spec fn short_text(seconds: nat) -> Seq<char> {
    decimal((seconds / 60) / 1440) + seq!['D'] + two_digit(((seconds / 60) % 1440) / 60) + seq![
        'h',
    ]
}

/// The long text that stands in for an uptime that could not be read.
pub open spec fn full_fallback() -> Seq<char> {
    "Failed to retrieve uptime"@
}

/// The short text that stands in for an uptime that could not be read.
pub open spec fn short_fallback() -> Seq<char> {
    "N/A"@
}

/// The long text for the outcome of a read.
pub open spec fn uptime_text(reading: Result<UptimeReading, ReadError>) -> Seq<char> {
    match reading {
        Ok(up) => full_text(up.seconds as nat),
        Err(_) => full_fallback(),
    }
}

/// The short text for the outcome of a read.
pub open spec fn short_uptime_text(reading: Result<UptimeReading, ReadError>) -> Seq<char> {
    match reading {
        Ok(up) => short_text(up.seconds as nat),
        Err(_) => short_fallback(),
    }
}

/// The long text shows the whole hours, then the minute of the hour and the
/// second of the minute, both below sixty.
pub proof fn full_text_is_hours_minute_second(seconds: nat)
    ensures
        ({
            let minute = (seconds / 60) % 60;
            let second = seconds % 60;
            &&& minute < 60
            &&& second < 60
            &&& seconds == 3600 * (seconds / 3600) + 60 * minute + second
            &&& full_text(seconds) == decimal(seconds / 3600) + seq!['h', ' '] + decimal(minute)
                + seq!['m', ' '] + decimal(second) + seq!['s']
        }),
{
    let hours = seconds / 3600;
    let rest = seconds % 3600;
    assert(seconds == 3600 * hours + rest);
    assert(rest == 60 * (rest / 60) + rest % 60);
    assert(seconds == 60 * (60 * hours + rest / 60) + rest % 60);
    assert(seconds / 60 == 60 * hours + rest / 60);
    assert((seconds % 3600) / 60 == (seconds / 60) % 60);
}

/// Counting minutes first, as the short text does, gives the whole days of
/// 86400 seconds and the hour of the day.
proof fn minutes_give_days_and_hour(seconds: nat)
    ensures
        (seconds / 60) / 1440 == seconds / 86400,
        ((seconds / 60) % 1440) / 60 == (seconds / 3600) % 24,
        (seconds / 3600) % 24 < 24,
{
    let minutes = seconds / 60;
    let days = minutes / 1440;
    let minute_of_day = minutes % 1440;
    let hour = minute_of_day / 60;
    assert(seconds == 60 * minutes + seconds % 60);
    assert(minutes == 1440 * days + minute_of_day);
    assert(minute_of_day == 60 * hour + minute_of_day % 60);
    assert(seconds == 86400 * days + 3600 * hour + 60 * (minute_of_day % 60) + seconds % 60);
    assert(seconds == 3600 * (24 * days + hour) + 60 * (minute_of_day % 60) + seconds % 60);
    assert(seconds / 3600 == 24 * days + hour);
}

/// The short text counts whole days of 86400 seconds, and shows the hour of
/// the day, which is below 24, on exactly two digits.
pub proof fn short_text_is_days_and_hour_of_day(seconds: nat)
    ensures
        ({
            let days = seconds / 86400;
            let hour = (seconds / 3600) % 24;
            short_text(seconds) == decimal(days) + seq![
                'D',
                digit_char(hour / 10),
                digit_char(hour % 10),
                'h',
            ]
        }),
{
    let days = seconds / 86400;
    let hour = (seconds / 3600) % 24;
    minutes_give_days_and_hour(seconds);
    two_digit_is_tens_then_ones(hour);
    assert(short_text(seconds) =~= decimal(days) + seq![
        'D',
        digit_char(hour / 10),
        digit_char(hour % 10),
        'h',
    ]);
}

/// Renders a reading in the long form.
pub fn format_full(reading: UptimeReading) -> (text: String)
    ensures
        text@ == full_text(reading.seconds as nat),
{
    let seconds: u64 = reading.seconds;
    let mut text = String::new();
    append_decimal(&mut text, seconds / 3600);
    text.append("h ");
    append_decimal(&mut text, (seconds % 3600) / 60);
    text.append("m ");
    append_decimal(&mut text, seconds % 60);
    text.append("s");
    proof {
        reveal_strlit("h ");
        reveal_strlit("m ");
        reveal_strlit("s");
        assert("h "@ =~= seq!['h', ' ']);
        assert("m "@ =~= seq!['m', ' ']);
        assert("s"@ =~= seq!['s']);
        assert(text@ =~= full_text(seconds as nat));
    }
    text
}

/// Renders a reading in the short form.
pub fn format_short(reading: UptimeReading) -> (text: String)
    ensures
        text@ == short_text(reading.seconds as nat),
{
    let total_minutes: u64 = reading.seconds / 60;
    let days: u64 = total_minutes / 1440;
    let hours: u64 = (total_minutes % 1440) / 60;
    let mut text = String::new();
    append_decimal(&mut text, days);
    text.append("D");
    append_two_digit(&mut text, hours);
    text.append("h");
    proof {
        reveal_strlit("D");
        reveal_strlit("h");
        assert("D"@ =~= seq!['D']);
        assert("h"@ =~= seq!['h']);
        assert(text@ =~= short_text(reading.seconds as nat));
    }
    text
}

/// The long text to show for the outcome of a read: the rendered reading,
/// or the fixed fallback where the read failed.
pub fn calculate_uptime(reading: Result<UptimeReading, ReadError>) -> (text: String)
    ensures
        text@ == uptime_text(reading),
{
    match reading {
        Ok(up) => format_full(up),
        Err(_) => String::from_str("Failed to retrieve uptime"),
    }
}

/// The short text to show for the outcome of a read: the rendered reading,
/// or the fixed fallback where the read failed.
pub fn short_uptime(reading: Result<UptimeReading, ReadError>) -> (text: String)
    ensures
        text@ == short_uptime_text(reading),
{
    match reading {
        Ok(up) => format_short(up),
        Err(_) => String::from_str("N/A"),
    }
}

} // verus!
