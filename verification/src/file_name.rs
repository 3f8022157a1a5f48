use std::fmt::Write;
use vstd::prelude::*;
use vstd::string::StringExecFns;

verus! {

/// The pattern of the time stamp in a recording's file name: date, hour,
/// minute and second, and the milliseconds in three digits.
pub const FILE_STAMP_PATTERN: &'static str = "%Y%m%d %H_%M_%S.%3f";

/// What follows the time stamp in a recording's file name.
pub const FILE_SUFFIX: &'static str = ".wav";

/// What chrono writes for the instant `millis` milliseconds after the start
/// of 1970, taken as UTC, under the strftime pattern `pattern`; `None` where
/// it has no date for that instant or cannot follow the pattern.
pub uninterp spec fn formatted_utc_millis(millis: int, pattern: Seq<char>) -> Option<Seq<char>>;

/// Renders an instant through chrono: `DateTime::from_timestamp_millis`
/// makes the UTC date and time of `millis`, `DateTime::format` lays it out
/// by `pattern`, and the text is collected with `write!`. The result is what
/// chrono writes and nothing else; where chrono reports that the instant is
/// out of its range or the pattern is not one, there is no text.
#[verifier::external_body]
fn format_utc_millis(millis: i64, pattern: &str) -> (text: Option<String>)
    ensures
        match text {
            Some(t) => formatted_utc_millis(millis as int, pattern@) == Some(t@),
            None => formatted_utc_millis(millis as int, pattern@) is None,
        },
{
    let moment = chrono::DateTime::from_timestamp_millis(millis)?;
    let mut text = String::new();
    match write!(text, "{}", moment.format(pattern)) {
        Ok(()) => Some(text),
        Err(_) => None,
    }
}

/// The local wall-clock time, in milliseconds since the start of 1970, at the
/// instant `utc_millis` where local time is `offset_seconds` ahead of UTC.
pub open spec fn local_millis_of(utc_millis: int, offset_seconds: int) -> int {
    utc_millis + 1000 * offset_seconds
}

/// The file name of a recording made at the local wall-clock time
/// `local_millis`: the time stamp and the suffix.
pub open spec fn recording_file_name_of(local_millis: int) -> Option<Seq<char>> {
    match formatted_utc_millis(local_millis, FILE_STAMP_PATTERN@) {
        Some(stamp) => Some(stamp + FILE_SUFFIX@),
        None => None,
    }
}

/// The local wall-clock time at an instant, unless it is beyond what 64 bits
/// hold.
pub fn local_wall_clock(utc_millis: i64, offset_seconds: i32) -> (local: Option<i64>)
    ensures
        local is Some <==> i64::MIN <= local_millis_of(utc_millis as int, offset_seconds as int)
            <= i64::MAX,
        local matches Some(millis) ==> millis == local_millis_of(
            utc_millis as int,
            offset_seconds as int,
        ),
{
    let shift: i64 = offset_seconds as i64 * 1000;
    utc_millis.checked_add(shift)
}

/// The file name for a recording made at the local wall-clock time
/// `local_millis`, where that time has a date.
pub fn recording_file_name(local_millis: i64) -> (name: Option<String>)
    ensures
        match name {
            Some(n) => recording_file_name_of(local_millis as int) == Some(n@),
            None => recording_file_name_of(local_millis as int) is None,
        },
{
    match format_utc_millis(local_millis, FILE_STAMP_PATTERN) {
        Some(stamp) => Some(stamp.concat(FILE_SUFFIX)),
        None => None,
    }
}

/// What a clock showed: the instant and the local time's distance from UTC.
#[derive(Clone, Copy, Debug, PartialEq, Eq, Structural)]
pub struct ClockReading {
    /// The instant, in milliseconds since the start of 1970 in UTC.
    pub utc_millis: i64,
    /// How many seconds local time is ahead of UTC.
    pub offset_seconds: i32,
}

impl ClockReading {
    /// The file name of a recording made when the clock showed this, where
    /// the local time is within 64 bits and has a date.
    pub open spec fn file_name(&self) -> Option<Seq<char>> {
        let local_millis = local_millis_of(self.utc_millis as int, self.offset_seconds as int);
        if i64::MIN <= local_millis <= i64::MAX {
            recording_file_name_of(local_millis)
        } else {
            None
        }
    }
}

/// The file name for a recording made when the clock showed `now`: the local
/// time as a stamp, and the suffix.
pub fn recording_file_name_at(now: ClockReading) -> (name: Option<String>)
    ensures
        match name {
            Some(n) => now.file_name() == Some(n@),
            None => now.file_name() is None,
        },
{
    match local_wall_clock(now.utc_millis, now.offset_seconds) {
        Some(local_millis) => recording_file_name(local_millis),
        None => None,
    }
}

} // verus!
