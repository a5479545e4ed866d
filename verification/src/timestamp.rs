//! A point in time with a fixed offset from UTC, as the calendar shows it there.

use std::fmt::Write;
use vstd::prelude::*;

verus! {

/// The calendar year in which an instant falls for a clock that is `offset`
/// seconds east of UTC. The instant is `seconds` seconds and `nanos`
/// nanoseconds after the Unix epoch. `None` where the calendar cannot hold the
/// instant or the offset.
pub uninterp spec fn local_year(seconds: int, nanos: int, offset: int) -> Option<i32>;

/// The instant `seconds` seconds and `nanos` nanoseconds after the Unix epoch,
/// on a clock `offset` seconds east of UTC, written after the `strftime`
/// pattern `pattern`; `None` where the calendar cannot hold the instant or the
/// offset, or the pattern is not valid.
pub uninterp spec fn local_format(
    seconds: int,
    nanos: int,
    offset: int,
    pattern: Seq<char>,
) -> Option<Seq<char>>;

/// The instant and the offset that a date and time in the form of RFC 2822
/// names: seconds since the Unix epoch, nanoseconds after the second, and
/// seconds east of UTC. `None` where the text is no such date.
pub uninterp spec fn rfc2822_instant(text: Seq<char>) -> Option<(i64, u32, i32)>;

/// The instant `seconds` seconds and `nanos` nanoseconds after the Unix epoch,
/// on a clock `offset` seconds east of UTC, in the form of RFC 2822; `None`
/// where the calendar cannot hold the instant or the offset.
pub uninterp spec fn rfc2822_text(seconds: int, nanos: int, offset: int) -> Option<Seq<char>>;

/// The pattern of a date as year, month and day.
pub open spec fn date_pattern() -> Seq<char> {
    "%Y-%m-%d"@
}

/// Whether the calendar can hold the instant and show its date.
pub open spec fn representable(seconds: int, nanos: int, offset: int) -> bool {
    local_year(seconds, nanos, offset) is Some && local_format(
        seconds,
        nanos,
        offset,
        date_pattern(),
    ) is Some
}

/// `chrono::Datelike::year` of `chrono::DateTime::from_timestamp(seconds, nanos)`
/// moved to the zone `chrono::FixedOffset::east_opt(offset)`: the year of the
/// local date. `None` where either constructor returns `None`.
#[verifier::external_body]
fn year_at(seconds: i64, nanos: u32, offset: i32) -> (year: Option<i32>)
    ensures
        year == local_year(seconds as int, nanos as int, offset as int),
{
    let zone = chrono::FixedOffset::east_opt(offset)?;
    let utc = chrono::DateTime::from_timestamp(seconds, nanos)?;
    Some(chrono::Datelike::year(&utc.with_timezone(&zone)))
}

/// `chrono::DateTime::format` of `chrono::DateTime::from_timestamp(seconds, nanos)`
/// moved to the zone `chrono::FixedOffset::east_opt(offset)`, written out.
/// `None` where either constructor returns `None` or writing fails, as it does
/// for a pattern that chrono does not accept.
#[verifier::external_body]
fn format_at(seconds: i64, nanos: u32, offset: i32, pattern: &str) -> (text: Option<String>)
    ensures
        crate::text::opt_text(text) == local_format(
            seconds as int,
            nanos as int,
            offset as int,
            pattern@,
        ),
{
    let zone = chrono::FixedOffset::east_opt(offset)?;
    let utc = chrono::DateTime::from_timestamp(seconds, nanos)?;
    let mut text = String::new();
    write!(text, "{}", utc.with_timezone(&zone).format(pattern)).ok()?;
    Some(text)
}

/// `chrono::DateTime::parse_from_rfc2822`, and of the date and time that it
/// returns `timestamp`, `timestamp_subsec_nanos` and the offset's
/// `local_minus_utc`. `None` where parsing fails.
#[verifier::external_body]
fn parse_rfc2822(text: &str) -> (instant: Option<(i64, u32, i32)>)
    ensures
        instant == rfc2822_instant(text@),
{
    let parsed = chrono::DateTime::parse_from_rfc2822(text).ok()?;
    Some((parsed.timestamp(), parsed.timestamp_subsec_nanos(), parsed.offset().local_minus_utc()))
}

/// `chrono::DateTime::to_rfc2822` of `chrono::DateTime::from_timestamp(seconds, nanos)`
/// moved to the zone `chrono::FixedOffset::east_opt(offset)`. `None` where
/// either constructor returns `None`. chrono panics on a year that RFC 2822
/// cannot write, so the local year must lie between 0 and 9999.
#[verifier::external_body]
fn rfc2822_at(seconds: i64, nanos: u32, offset: i32) -> (text: Option<String>)
    requires
        local_year(seconds as int, nanos as int, offset as int) matches Some(year) && 0 <= year
            <= 9999,
    ensures
        crate::text::opt_text(text) == rfc2822_text(seconds as int, nanos as int, offset as int),
{
    let zone = chrono::FixedOffset::east_opt(offset)?;
    Some(chrono::DateTime::from_timestamp(seconds, nanos)?.with_timezone(&zone).to_rfc2822())
}

/// An instant, and the offset of the clock on which it was written down.
#[derive(Clone, Copy, Debug)]
pub struct Timestamp {
    seconds: i64,
    nanos: u32,
    offset: i32,
}

impl Timestamp {
    #[verifier::type_invariant]
    spec fn well_formed(self) -> bool {
        representable(self.seconds as int, self.nanos as int, self.offset as int)
    }

    /// Whole seconds since the Unix epoch.
    pub closed spec fn seconds(self) -> int {
        self.seconds as int
    }

    /// Nanoseconds after the whole second.
    pub closed spec fn nanos(self) -> int {
        self.nanos as int
    }

    /// Seconds that the clock is east of UTC.
    pub closed spec fn offset(self) -> int {
        self.offset as int
    }

    /// The calendar year on the timestamp's own clock.
    pub open spec fn spec_year(self) -> i32 {
        local_year(self.seconds(), self.nanos(), self.offset())->0
    }

    /// The date on the timestamp's own clock, as year, month and day.
    pub open spec fn spec_date(self) -> Seq<char> {
        local_format(self.seconds(), self.nanos(), self.offset(), date_pattern())->0
    }

    /// The timestamp in the form of RFC 2822, which has years from 0 to 9999.
    pub open spec fn spec_rfc2822(self) -> Option<Seq<char>> {
        if 0 <= self.spec_year() <= 9999 {
            rfc2822_text(self.seconds(), self.nanos(), self.offset())
        } else {
            None
        }
    }

    /// The timestamp of an instant and an offset.
    pub closed spec fn at(seconds: i64, nanos: u32, offset: i32) -> Timestamp {
        Timestamp { seconds, nanos, offset }
    }

    /// The timestamp that a date and time in the form of RFC 2822 names, if
    /// the text is one and the calendar can hold it.
    pub open spec fn spec_parse_rfc2822(text: Seq<char>) -> Option<Timestamp> {
        match rfc2822_instant(text) {
            Some(instant) => if representable(
                instant.0 as int,
                instant.1 as int,
                instant.2 as int,
            ) {
                Some(Self::at(instant.0, instant.1, instant.2))
            } else {
                None
            },
            None => None,
        }
    }

    /// Makes a timestamp. Returns `None` exactly where the calendar cannot hold it.
    pub fn new(seconds: i64, nanos: u32, offset: i32) -> (made: Option<Timestamp>)
        ensures
            made is Some <==> representable(seconds as int, nanos as int, offset as int),
            made matches Some(t) ==> t == Self::at(seconds, nanos, offset) && t.seconds()
                == seconds && t.nanos() == nanos && t.offset() == offset,
    {
        if year_at(seconds, nanos, offset).is_none() {
            return None;
        }
        if format_at(seconds, nanos, offset, "%Y-%m-%d").is_none() {
            return None;
        }
        Some(Timestamp { seconds, nanos, offset })
    }

    /// Reads a date and time in the form of RFC 2822. `None` where the text
    /// is none, or the calendar cannot hold it.
    pub fn parse_from_rfc2822(text: &str) -> (made: Option<Timestamp>)
        ensures
            made == Self::spec_parse_rfc2822(text@),
    {
        match parse_rfc2822(text) {
            Some((seconds, nanos, offset)) => Timestamp::new(seconds, nanos, offset),
            None => None,
        }
    }

    /// The timestamp in the form of RFC 2822, on its own clock. `None` for a
    /// year before 0 or after 9999, which that form cannot write.
    pub fn to_rfc2822(&self) -> (text: Option<String>)
        ensures
            crate::text::opt_text(text) == self.spec_rfc2822(),
    {
        proof {
            use_type_invariant(self);
        }
        let year = self.year();
        if 0 <= year && year <= 9999 {
            rfc2822_at(self.seconds, self.nanos, self.offset)
        } else {
            None
        }
    }

    /// Whole seconds since the Unix epoch.
    pub fn unix_seconds(&self) -> (seconds: i64)
        ensures
            seconds == self.seconds(),
    {
        self.seconds
    }

    /// Nanoseconds after the whole second.
    pub fn subsec_nanos(&self) -> (nanos: u32)
        ensures
            nanos == self.nanos(),
    {
        self.nanos
    }

    /// Seconds that the clock is east of UTC.
    pub fn offset_seconds(&self) -> (offset: i32)
        ensures
            offset == self.offset(),
    {
        self.offset
    }

    /// The calendar year on the timestamp's own clock.
    pub fn year(&self) -> (year: i32)
        ensures
            year == self.spec_year(),
    {
        proof {
            use_type_invariant(self);
        }
        match year_at(self.seconds, self.nanos, self.offset) {
            Some(year) => year,
            None => vstd::pervasive::unreached(),
        }
    }

    /// The date on the timestamp's own clock, as year, month and day.
    pub fn date(&self) -> (date: String)
        ensures
            date@ == self.spec_date(),
    {
        proof {
            use_type_invariant(self);
        }
        match format_at(self.seconds, self.nanos, self.offset, "%Y-%m-%d") {
            Some(date) => date,
            None => vstd::pervasive::unreached(),
        }
    }
}

} // verus!
