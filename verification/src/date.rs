//! Release dates: read as RFC 3339, written as RFC 2822, with the start of
//! the Unix era standing in for a date that cannot be read.

use chrono::{DateTime, FixedOffset, TimeZone};
use vstd::prelude::*;

verus! {

/// The first second of the year 0, counted from the start of the Unix era.
pub const FIRST_SECOND: i64 = -62_167_219_200;

/// The last second of the year 9999, counted from the start of the Unix era.
pub const LAST_SECOND: i64 = 253_402_300_799;

/// A point in time with the offset of the clock it was read from.
///
/// `secs` counts seconds since 1970-01-01T00:00:00 UTC, `offset` is the
/// clock's lead over UTC in seconds, and `nanos` is the fraction of the
/// second; during a leap second `nanos` runs on into a second thousand
/// million.
#[derive(Clone, Copy, Debug, PartialEq, Eq)]
pub struct Instant {
    pub secs: i64,
    pub nanos: u32,
    pub offset: i32,
}

impl Instant {
    /// What RFC 2822 can write: an offset under a day, a local year of at
    /// most four digits, and a leap second only at the end of a minute.
    pub open spec fn wf(&self) -> bool {
        &&& -86_400 < self.offset < 86_400
        &&& FIRST_SECOND <= self.secs + self.offset <= LAST_SECOND
        &&& (self.nanos < 1_000_000_000 || (self.nanos < 2_000_000_000 && self.secs % 60 == 59))
    }

    /// The start of the Unix era, on a UTC clock.
    pub open spec fn unix_epoch() -> Instant {
        Instant { secs: 0, nanos: 0, offset: 0 }
    }

    /// Whether RFC 2822 can write this instant.
    pub fn is_wf(&self) -> (ok: bool)
        ensures
            ok == self.wf(),
    {
        if self.offset <= -86_400 || self.offset >= 86_400 {
            return false;
        }
        if self.secs < FIRST_SECOND - 86_400 || self.secs > LAST_SECOND + 86_400 {
            return false;
        }
        let local: i64 = self.secs + self.offset as i64;
        if local < FIRST_SECOND || local > LAST_SECOND {
            return false;
        }
        if self.nanos < 1_000_000_000 {
            return true;
        }
        if self.nanos >= 2_000_000_000 {
            return false;
        }
        let since_first: u64 = (self.secs - (FIRST_SECOND - 86_400)) as u64;
        since_first % 60 == 59
    }

    /// The start of the Unix era, on a UTC clock.
    pub fn epoch() -> (t: Instant)
        ensures
            t == Instant::unix_epoch(),
            t.wf(),
    {
        Instant { secs: 0, nanos: 0, offset: 0 }
    }
}

/// The instant that `DateTime::parse_from_rfc3339` reads from `text`, or
/// `None` where it reports an error.
pub uninterp spec fn rfc3339_instant(text: Seq<char>) -> Option<Instant>;

/// The text that `DateTime::to_rfc2822` writes for an instant.
pub uninterp spec fn rfc2822_text(t: Instant) -> Seq<char>;

/// Calls `chrono::DateTime::parse_from_rfc3339` and hands out the instant's
/// timestamp, sub-second nanoseconds and offset.
///
/// Trusted: the result depends on the text alone. The parser reads a year of
/// exactly four digits and an offset of hours and minutes below a day, and
/// admits a second thousand million of nanoseconds only for a second field of
/// 60, which it stores in second 59; so every instant it returns is `wf`.
#[verifier::external_body]
fn parse_rfc3339(text: &str) -> (parsed: Option<Instant>)
    ensures
        parsed == rfc3339_instant(text@),
        parsed matches Some(t) ==> t.wf(),
{
    match DateTime::parse_from_rfc3339(text) {
        Ok(d) => Some(
            Instant {
                secs: d.timestamp(),
                nanos: d.timestamp_subsec_nanos(),
                offset: d.offset().local_minus_utc(),
            },
        ),
        Err(_) => None,
    }
}

/// Rebuilds the `DateTime<FixedOffset>` of an instant with
/// `FixedOffset::east_opt` and `TimeZone::timestamp_opt`, and calls
/// `DateTime::to_rfc2822` on it.
///
/// Trusted: the text depends on the instant alone. `wf` keeps the offset, the
/// timestamp and the nanoseconds within what the two constructors accept, and
/// the local year within the four digits outside which `to_rfc2822` panics.
#[verifier::external_body]
fn write_rfc2822(t: Instant) -> (text: String)
    requires
        t.wf(),
    ensures
        text@ == rfc2822_text(t),
{
    FixedOffset::east_opt(t.offset).unwrap().timestamp_opt(t.secs, t.nanos).unwrap().to_rfc2822()
}

/// The instant an episode counts as released at: the one its date was read
/// as, or the start of the Unix era where the date could not be read.
pub open spec fn release_instant(parsed: Option<Instant>) -> Instant {
    match parsed {
        Some(t) => t,
        None => Instant::unix_epoch(),
    }
}

/// The publication date of an episode whose release date reads as `date`.
pub open spec fn pub_date_text(date: Seq<char>) -> Seq<char> {
    rfc2822_text(release_instant(rfc3339_instant(date)))
}

/// Writes the publication date for the outcome of reading a release date.
pub fn release_text(parsed: Option<Instant>) -> (text: String)
    requires
        parsed matches Some(t) ==> t.wf(),
    ensures
        text@ == rfc2822_text(release_instant(parsed)),
{
    match parsed {
        Some(t) => write_rfc2822(t),
        None => write_rfc2822(Instant::epoch()),
    }
}

/// The publication date, in RFC 2822 form, for a release date as upstream
/// writes it. A date that is no RFC 3339 date and time gives the start of the
/// Unix era at UTC.
pub fn pub_date(date: &str) -> (text: String)
    ensures
        text@ == pub_date_text(date@),
{
    release_text(parse_rfc3339(date))
}

} // verus!
