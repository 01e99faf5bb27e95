//! The names of the files that screenshots of the video are saved to.

use vstd::prelude::*;

verus! {

/// The format of screenshot time stamps: year, month, day, hour, minute,
/// second and milliseconds.
pub open spec fn screenshot_time_format() -> Seq<char> {
    "%Y-%m-%d_%H:%M:%S%.3f"@
}

pub open spec fn is_ascii_digit(c: char) -> bool {
    48 <= (c as u32) <= 57
}

pub open spec fn all_digits(s: Seq<char>) -> bool {
    forall|i: int| 0 <= i < s.len() ==> is_ascii_digit(#[trigger] s[i])
}

/// A year as `%Y` writes it: four digits for the years 0 to 9999, otherwise
/// a sign followed by at least four digits.
pub open spec fn year_text(y: Seq<char>) -> bool {
    ||| (y.len() == 4 && all_digits(y))
    ||| (y.len() >= 5 && (y[0] == '+' || y[0] == '-') && all_digits(y.drop_first()))
}

/// The rest of a time stamp after the year: `-MM-DD_HH:MM:SS.mmm`.
pub open spec fn after_year_text(t: Seq<char>) -> bool {
    &&& t.len() == 19
    &&& t[0] == '-' && is_ascii_digit(t[1]) && is_ascii_digit(t[2])
    &&& t[3] == '-' && is_ascii_digit(t[4]) && is_ascii_digit(t[5])
    &&& t[6] == '_' && is_ascii_digit(t[7]) && is_ascii_digit(t[8])
    &&& t[9] == ':' && is_ascii_digit(t[10]) && is_ascii_digit(t[11])
    &&& t[12] == ':' && is_ascii_digit(t[13]) && is_ascii_digit(t[14])
    &&& t[15] == '.' && is_ascii_digit(t[16]) && is_ascii_digit(t[17]) && is_ascii_digit(t[18])
}

pub open spec fn digit_value(c: char) -> int {
    (c as u32) as int - 48
}

/// The value of the two digits at `k` and `k + 1`.
pub open spec fn two_digit_value(t: Seq<char>, k: int) -> int {
    10 * digit_value(t[k]) + digit_value(t[k + 1])
}

/// The fields after the year hold a month 1 to 12, a day 1 to 31, an hour 0
/// to 23, a minute 0 to 59 and a second 0 to 60 (a leap second reads 60).
pub open spec fn clock_fields_in_range(t: Seq<char>) -> bool {
    &&& 1 <= two_digit_value(t, 1) <= 12
    &&& 1 <= two_digit_value(t, 4) <= 31
    &&& two_digit_value(t, 7) <= 23
    &&& two_digit_value(t, 10) <= 59
    &&& two_digit_value(t, 13) <= 60
}

/// A local date and time as the screenshot time format writes it, e.g.
/// `2024-01-02_03:04:05.678`.
pub open spec fn local_timestamp_text(s: Seq<char>) -> bool {
    &&& s.len() >= 23
    &&& year_text(s.subrange(0, s.len() - 19))
    &&& after_year_text(s.subrange(s.len() - 19, s.len() as int))
    &&& clock_fields_in_range(s.subrange(s.len() - 19, s.len() as int))
}

/// `chrono::Local::now` followed by `chrono::DateTime::format` with the
/// screenshot time format, rendered to a `String`. Which date and time the
/// text shows depends on the clock and the time zone; its layout, and the
/// ranges of month, day, hour, minute and second, are the ones that chrono
/// documents for `%Y`, `%m`, `%d`, `%H`, `%M`, `%S` and `%.3f`.
/// Chrono panics here where the system clock reads before 1970 or where the
/// local offset cannot be determined; that depends on the machine, not on the
/// argument.
#[verifier::external_body]
fn format_local_now(fmt: &str) -> (r: String)
    requires
        fmt@ == screenshot_time_format(),
    ensures
        local_timestamp_text(r@),
{
    chrono::Local::now().format(fmt).to_string()
}

/// The suffix of every screenshot file name.
pub open spec fn screenshot_suffix() -> Seq<char> {
    "_screenshot.png"@
}

/// The file name of a screenshot taken at the time that `timestamp` reads.
pub fn screenshot_file_name_for(timestamp: &str) -> (r: String)
    ensures
        r@ == timestamp@ + screenshot_suffix(),
{
    let mut name = String::from_str(timestamp);
    name.append("_screenshot.png");
    name
}

/// The file name of a screenshot taken now: the local date and time, to the
/// millisecond, followed by the screenshot suffix.
pub fn screenshot_file_name() -> (r: String)
    ensures
        r@.len() >= 38,
        local_timestamp_text(r@.subrange(0, r@.len() - 15)),
        r@.subrange(r@.len() - 15, r@.len() as int) == screenshot_suffix(),
{
    proof {
        reveal_strlit("%Y-%m-%d_%H:%M:%S%.3f");
        reveal_strlit("_screenshot.png");
    }
    let timestamp = format_local_now("%Y-%m-%d_%H:%M:%S%.3f");
    let r = screenshot_file_name_for(timestamp.as_str());
    assert(screenshot_suffix().len() == 15);
    assert(r@.subrange(0, r@.len() - 15) =~= timestamp@);
    assert(r@.subrange(r@.len() - 15, r@.len() as int) =~= screenshot_suffix());
    r
}

} // verus!
