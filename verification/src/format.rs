//! Durations as short text for a progress line.

use vstd::prelude::*;
use vstd::string::*;
use crate::text::{decimal, two_digits, push_char, push_decimal, push_two_digits};

verus! {

/// The longest duration that is shown: one day, in seconds.
pub const MAX_SHOWN_SECONDS: u64 = 86400;

/// `seconds` written with its largest unit first: `HhMMmSSs` from one hour
/// on, `MmSSs` from one minute on, else `Ss`. Minutes and seconds take two
/// digits wherever a larger unit stands before them.
pub open spec fn duration_text(seconds: nat) -> Seq<char> {
    let hours = seconds / 3600;
    let minutes = (seconds % 3600) / 60;
    let secs = seconds % 60;
    if hours > 0 {
        decimal(hours) + seq!['h'] + two_digits(minutes) + seq!['m'] + two_digits(secs) + seq!['s']
    } else if minutes > 0 {
        decimal(minutes) + seq!['m'] + two_digits(secs) + seq!['s']
    } else {
        decimal(secs) + seq!['s']
    }
}

/// What is shown for an estimate of `seconds`: two dashes where there is
/// none (zero) or where it is longer than a day, else the duration.
pub open spec fn eta_text(seconds: nat) -> Seq<char> {
    if seconds == 0 || seconds > MAX_SHOWN_SECONDS {
        seq!['-', '-']
    } else {
        duration_text(seconds)
    }
}

/// Writes a duration with its largest unit first.
pub fn format_duration(seconds: u64) -> (text: String)
    ensures
        text@ == duration_text(seconds as nat),
{
    let hours: u64 = seconds / 3600;
    let minutes: u64 = (seconds % 3600) / 60;
    let secs: u64 = seconds % 60;
    let mut text = String::new();
    if hours > 0 {
        push_decimal(&mut text, hours);
        push_char(&mut text, 'h');
        push_two_digits(&mut text, minutes);
        push_char(&mut text, 'm');
        push_two_digits(&mut text, secs);
        push_char(&mut text, 's');
    } else if minutes > 0 {
        push_decimal(&mut text, minutes);
        push_char(&mut text, 'm');
        push_two_digits(&mut text, secs);
        push_char(&mut text, 's');
    } else {
        push_decimal(&mut text, secs);
        push_char(&mut text, 's');
    }
    text
}

/// Writes an estimate of the time left, given in whole seconds.
pub fn eta_to_human_readable(seconds: u64) -> (text: String)
    ensures
        text@ == eta_text(seconds as nat),
{
    if seconds == 0 || seconds > MAX_SHOWN_SECONDS {
        let mut text = String::new();
        push_char(&mut text, '-');
        push_char(&mut text, '-');
        text
    } else {
        format_duration(seconds)
    }
}

} // verus!
