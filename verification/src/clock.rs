//! The timestamp of a diary entry.

use vstd::prelude::*;

verus! {

/// The pattern of a timestamp: month, day and year of two digits each,
/// with hyphens between them, a space, and hour, minute and second of
/// two digits each, with colons between them.
pub const TIMESTAMP_PATTERN: &'static str = "%m-%d-%y %H:%M:%S";

/// Whether `c` is a decimal digit.
pub open spec fn is_digit(c: char) -> bool {
    '0' <= c <= '9'
}

/// The number that the two characters of `text` at `at` and after it write,
/// where both are digits.
pub open spec fn two_digits(text: Seq<char>, at: int) -> int {
    10 * (text[at] as int - '0' as int) + (text[at + 1] as int - '0' as int)
}

/// Whether the two characters of `text` at `at` and after it are digits
/// that write a number from `low` to `high`.
pub open spec fn is_number_at(text: Seq<char>, at: int, low: int, high: int) -> bool {
    is_digit(text[at]) && is_digit(text[at + 1]) && low <= two_digits(text, at) <= high
}

/// Whether `text` has the form of an entry's timestamp, `MM-DD-YY HH:MM:SS`:
/// the month, the day and the last two digits of the year, then the hour,
/// the minute and the second, each of two digits. A second of 60 is a leap
/// second.
pub open spec fn is_timestamp(text: Seq<char>) -> bool {
    &&& text.len() == 17
    &&& is_number_at(text, 0, 1, 12)
    &&& text[2] == '-'
    &&& is_number_at(text, 3, 1, 31)
    &&& text[5] == '-'
    &&& is_number_at(text, 6, 0, 99)
    &&& text[8] == ' '
    &&& is_number_at(text, 9, 0, 23)
    &&& text[11] == ':'
    &&& is_number_at(text, 12, 0, 59)
    &&& text[14] == ':'
    &&& is_number_at(text, 15, 0, 60)
}

/// The last second of the year 9999, counted from the beginning of 1970
/// in universal time.
pub const LAST_SECOND: i64 = 253_402_300_799;

/// How chrono writes, by `pattern`, the moment that lies `seconds` after the
/// beginning of 1970 in universal time; nothing where its calendar does not
/// reach that moment.
pub uninterp spec fn moment_text(seconds: i64, pattern: Seq<char>) -> Option<Seq<char>>;

/// `chrono::DateTime::from_timestamp` for a whole second, then
/// `chrono::DateTime::format`, written out, for the pattern of a timestamp.
/// The first gives no moment where the second lies outside chrono's
/// calendar, which reaches past the year 9999; it does not fail otherwise.
/// The second writes each of the six items of the pattern as a number of
/// two digits, padded with a zero, within the range that the calendar and
/// the clock give it; so the text has the form of a timestamp whatever the
/// moment. The text depends on the second and the pattern alone.
#[verifier::external_body]
fn format_seconds(seconds: i64, pattern: &str) -> (text: Option<String>)
    requires
        pattern@ == TIMESTAMP_PATTERN@,
    ensures
        text is Some <==> moment_text(seconds, pattern@) is Some,
        text is Some ==> moment_text(seconds, pattern@) == Some(text->0@),
        text is Some ==> is_timestamp(text->0@),
        0 <= seconds <= LAST_SECOND ==> text is Some,
{
    match chrono::DateTime::from_timestamp(seconds, 0) {
        Some(moment) => Some(moment.format(pattern).to_string()),
        None => None,
    }
}

/// The timestamp of the moment that the clock reads as `seconds` since the
/// beginning of 1970, in universal time. There is none where the calendar
/// does not reach that moment; it reaches every moment up to the end of the
/// year 9999.
pub fn timestamp_at(seconds: i64) -> (text: Option<String>)
    ensures
        match text {
            Some(written) => {
                &&& moment_text(seconds, TIMESTAMP_PATTERN@) == Some(written@)
                &&& is_timestamp(written@)
            },
            None => moment_text(seconds, TIMESTAMP_PATTERN@) is None,
        },
        0 <= seconds <= LAST_SECOND ==> text is Some,
{
    format_seconds(seconds, TIMESTAMP_PATTERN)
}

} // verus!
