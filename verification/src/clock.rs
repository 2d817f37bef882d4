//! The date and the time of day, as the header shows them.

use vstd::prelude::*;

verus! {

/// The pattern of the date: year, month and day.
pub const DATE_PATTERN: &'static str = "%Y-%m-%d";

/// The pattern of the time of day: hours, minutes and seconds.
pub const TIME_PATTERN: &'static str = "%H:%M:%S";

/// The two patterns that the header uses.
pub open spec fn is_clock_pattern(pattern: Seq<char>) -> bool {
    pattern == DATE_PATTERN@ || pattern == TIME_PATTERN@
}

/// The character is a decimal digit.
pub open spec fn is_digit(c: char) -> bool {
    '0' <= c <= '9'
}

/// The number that the two characters from `at` on write, taken as digits.
pub open spec fn two_digit_value(text: Seq<char>, at: int) -> int {
    10 * (text[at] as int - '0' as int) + (text[at + 1] as int - '0' as int)
}

/// The two characters from `at` on are digits and write a number from `low`
/// to `high`.
pub open spec fn is_two_digit_number(text: Seq<char>, at: int, low: int, high: int) -> bool {
    &&& is_digit(text[at])
    &&& is_digit(text[at + 1])
    &&& low <= two_digit_value(text, at) <= high
}

/// A year as it is written: four digits, or a sign and after it four digits
/// or more.
pub open spec fn is_year_text(text: Seq<char>) -> bool {
    ||| text.len() == 4 && forall|i: int| 0 <= i < text.len() ==> is_digit(#[trigger] text[i])
    ||| text.len() >= 5 && (text[0] == '+' || text[0] == '-') && forall|i: int|
        1 <= i < text.len() ==> is_digit(#[trigger] text[i])
}

/// A date as the header shows it: the year, the month from 01 to 12 and the
/// day from 01 to 31, with a hyphen between them.
pub open spec fn is_date_text(text: Seq<char>) -> bool {
    let n = text.len() as int;
    &&& n >= 10
    &&& is_year_text(text.take(n - 6))
    &&& text[n - 6] == '-'
    &&& is_two_digit_number(text, n - 5, 1, 12)
    &&& text[n - 3] == '-'
    &&& is_two_digit_number(text, n - 2, 1, 31)
}

/// A time of day as the header shows it: the hour from 00 to 23, the minute
/// from 00 to 59 and the second from 00 to 60, with a colon between them.
pub open spec fn is_time_text(text: Seq<char>) -> bool {
    &&& text.len() == 8
    &&& is_two_digit_number(text, 0, 0, 23)
    &&& text[2] == ':'
    &&& is_two_digit_number(text, 3, 0, 59)
    &&& text[5] == ':'
    &&& is_two_digit_number(text, 6, 0, 60)
}

/// The local time of this moment, written by chrono: the system's time is
/// turned into a `DateTime<Local>` (by its `From<SystemTime>`, which takes a
/// clock that stands before 1970 as well as one after) and written out by
/// `format` with the pattern. Which date and time come out depends on the
/// clock and on the time zone of the machine, and is not claimed. Claimed is
/// the shape of the text, as chrono documents its specifiers: the year of four
/// digits, with a sign before it where it lies outside 0 to 9999; month, day,
/// hour, minute and second of two digits each, within the ranges that
/// [`is_date_text`] and [`is_time_text`] give; and the hyphens and colons of
/// the pattern as they stand. Only the two patterns of the header are
/// admitted, which chrono can always write out; a pattern that it cannot parse
/// would make it fail. No argument decides what is left: chrono gives up on a
/// time outside the years that it counts, some 262 000 either way, and on
/// time zone data in which it finds no rule for the time.
#[verifier::external_body]
fn local_time_text(pattern: &str) -> (text: String)
    requires
        is_clock_pattern(pattern@),
    ensures
        pattern@ == DATE_PATTERN@ ==> is_date_text(text@),
        pattern@ == TIME_PATTERN@ ==> is_time_text(text@),
{
    let now = chrono::DateTime::<chrono::Local>::from(std::time::SystemTime::now());
    now.format(pattern).to_string()
}

/// Today's date in local time, as the header shows it: year, month and day.
pub fn current_date() -> (text: String)
    ensures
        is_date_text(text@),
{
    local_time_text(DATE_PATTERN)
}

/// The time of day in local time, as the header shows it: hour, minute and
/// second.
pub fn current_time() -> (text: String)
    ensures
        is_time_text(text@),
{
    local_time_text(TIME_PATTERN)
}

} // verus!
