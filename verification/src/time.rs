//! Instants in UTC, as the calendar library represents them, and whole-day
//! arithmetic on them.

use vstd::prelude::*;

verus! {

/// Seconds from the Unix epoch to the earliest representable instant,
/// January 1 of the year -262143, 00:00:00 UTC.
pub const MIN_TIMESTAMP_SECS: i64 = -8334601315200i64;

/// Seconds from the Unix epoch to the last representable whole second,
/// December 31 of the year 262142, 23:59:59 UTC.
pub const MAX_TIMESTAMP_SECS: i64 = 8210266876799i64;

/// Seconds from the Unix epoch to 0000-01-01T00:00:00Z, the first instant
/// whose year RFC 3339 text writes with four digits.
pub const MIN_RFC3339_SECS: i64 = -62167219200i64;

/// Seconds from the Unix epoch to 9999-12-31T23:59:59Z, the last whole second
/// whose year RFC 3339 text writes with four digits.
pub const MAX_RFC3339_SECS: i64 = 253402300799i64;

/// Seconds in a calendar day (leap seconds aside).
pub const SECONDS_PER_DAY: i64 = 86400i64;

/// Nanoseconds in a second.
pub const NANOS_PER_SECOND: u32 = 1000000000u32;

/// An instant in UTC: whole seconds since 1970-01-01T00:00:00Z, and the
/// nanoseconds past that second. A count of a full second or more (below two
/// seconds) marks a leap second, which only ever follows the 59th second of a
/// minute.
#[derive(Clone, Copy, Debug, PartialEq, Eq, Structural)]
pub struct Timestamp {
    pub secs: i64,
    pub nanos: u32,
}

impl Timestamp {
    /// The instant lies in the representable range and its fraction is well formed.
    pub open spec fn is_valid(self) -> bool {
        &&& MIN_TIMESTAMP_SECS <= self.secs <= MAX_TIMESTAMP_SECS
        &&& self.nanos < 2 * NANOS_PER_SECOND
        &&& self.nanos >= NANOS_PER_SECOND ==> self.secs % 60 == 59
    }

    pub open spec fn is_leap_second(self) -> bool {
        self.nanos >= NANOS_PER_SECOND
    }

    /// Whether the instant `days` whole days later is still representable.
    pub open spec fn can_add_days(self, days: int) -> bool {
        MIN_TIMESTAMP_SECS <= self.secs + days * SECONDS_PER_DAY <= MAX_TIMESTAMP_SECS
    }

    /// The instant `days` (at least zero) whole days later, at the same time of
    /// day; after one day or more a leap second becomes the ordinary second it
    /// extends, while adding no days leaves the instant as it is.
    pub open spec fn spec_plus_days(self, days: int) -> Timestamp {
        Timestamp {
            secs: (self.secs + days * SECONDS_PER_DAY) as i64,
            nanos: if self.is_leap_second() && days > 0 {
                (self.nanos - NANOS_PER_SECOND) as u32
            } else {
                self.nanos
            },
        }
    }

    /// Adds `days` whole days; `None` when the result leaves the representable range.
    pub fn checked_plus_days(self, days: u32) -> (r: Option<Timestamp>)
        requires
            self.is_valid(),
        ensures
            r is Some <==> self.can_add_days(days as int),
            r matches Some(t) ==> t == self.spec_plus_days(days as int) && t.is_valid(),
    {
        let delta: i64 = (days as i64) * SECONDS_PER_DAY;
        if self.secs > MAX_TIMESTAMP_SECS - delta {
            return None;
        }
        let nanos: u32 = if self.nanos >= NANOS_PER_SECOND && days > 0 {
            self.nanos - NANOS_PER_SECOND
        } else {
            self.nanos
        };
        Some(Timestamp { secs: self.secs + delta, nanos })
    }
}

/// Whether `later` comes after `earlier`.
pub open spec fn is_after(later: Timestamp, earlier: Timestamp) -> bool {
    later.secs > earlier.secs || (later.secs == earlier.secs && later.nanos > earlier.nanos)
}

/// `is_after` is the strict order of instants in time: an instant with more
/// whole seconds since the epoch comes after one with fewer, whatever their
/// fractions; within the same second the larger fraction comes later; no
/// instant comes after itself; and the order is transitive.
pub proof fn lemma_is_after_is_time_order(a: Timestamp, b: Timestamp, c: Timestamp)
    ensures
        a.secs > b.secs ==> is_after(a, b),
        a.secs < b.secs ==> !is_after(a, b),
        a.secs == b.secs ==> (is_after(a, b) <==> a.nanos > b.nanos),
        !is_after(a, a),
        is_after(a, b) ==> !is_after(b, a),
        is_after(a, b) && is_after(b, c) ==> is_after(a, c),
        a != b ==> (is_after(a, b) || is_after(b, a)),
{
}

/// A reading of the system clock: `Ok` with the seconds and nanoseconds
/// elapsed since the Unix epoch, or `Err` with how far the clock is before it.
pub type ClockReading = Result<(u64, u32), (u64, u32)>;

/// Both parts of a clock reading hold a fraction of a second below one second.
pub open spec fn reading_well_formed(reading: ClockReading) -> bool {
    match reading {
        Ok((_, n)) => n < NANOS_PER_SECOND,
        Err((_, n)) => n < NANOS_PER_SECOND,
    }
}

/// The instant a clock reading stands for, in seconds since the epoch (as an
/// integer) and nanoseconds past that second.
pub open spec fn reading_instant(reading: ClockReading) -> (int, int) {
    match reading {
        Ok((s, n)) => (s as int, n as int),
        Err((s, n)) => if n == 0 {
            (-s, 0)
        } else {
            (-s - 1, NANOS_PER_SECOND - n)
        },
    }
}

/// A reading after the epoch stands for its own seconds and nanoseconds; a
/// reading before the epoch stands for the instant as far before the epoch as
/// the reading says, counted in nanoseconds, with a fraction below one second.
pub proof fn lemma_reading_instant_offset(reading: ClockReading)
    requires
        reading_well_formed(reading),
    ensures
        0 <= reading_instant(reading).1 < NANOS_PER_SECOND,
        reading matches Ok((s, n)) ==> reading_instant(reading) == (s as int, n as int),
        reading matches Err((s, n)) ==> reading_instant(reading).0 * NANOS_PER_SECOND
            + reading_instant(reading).1 == -(s * NANOS_PER_SECOND + n),
{
}

/// The instant a well-formed clock reading stands for, if it is representable.
pub fn instant_from_clock(reading: &ClockReading) -> (r: Option<Timestamp>)
    requires
        reading_well_formed(*reading),
    ensures
        r is Some <==> MIN_TIMESTAMP_SECS <= reading_instant(*reading).0 <= MAX_TIMESTAMP_SECS,
        r matches Some(t) ==> t.secs == reading_instant(*reading).0 && t.nanos
            == reading_instant(*reading).1 && t.is_valid() && t.nanos < NANOS_PER_SECOND,
{
    match reading {
        Ok((s, n)) => {
            if *s > MAX_TIMESTAMP_SECS as u64 {
                None
            } else {
                Some(Timestamp { secs: *s as i64, nanos: *n })
            }
        },
        Err((s, n)) => {
            if *n == 0 {
                if *s > 8334601315200u64 {
                    None
                } else {
                    Some(Timestamp { secs: -(*s as i64), nanos: 0 })
                }
            } else {
                if *s > 8334601315199u64 {
                    None
                } else {
                    Some(Timestamp { secs: -(*s as i64) - 1, nanos: NANOS_PER_SECOND - *n })
                }
            }
        },
    }
}

/// Reads the system clock with `std::time::UNIX_EPOCH.elapsed()`: `Ok` with the
/// time elapsed since the epoch, or, when the clock is set before the epoch,
/// `Err` with the duration the error reports, how far before it the clock is.
/// A `Duration`'s fraction is always below one second. Which time the clock
/// shows is up to the machine.
#[verifier::external_body]
fn read_clock() -> (r: ClockReading)
    ensures
        reading_well_formed(r),
{
    match std::time::UNIX_EPOCH.elapsed() {
        Ok(d) => Ok((d.as_secs(), d.subsec_nanos())),
        Err(e) => Err((e.duration().as_secs(), e.duration().subsec_nanos())),
    }
}

/// The current time, or `None` when the system clock shows a time that cannot
/// be represented.
pub fn current_time() -> (r: Option<Timestamp>)
    ensures
        r matches Some(t) ==> t.is_valid() && t.nanos < NANOS_PER_SECOND,
{
    let reading = read_clock();
    instant_from_clock(&reading)
}

/// The instant, as seconds since the epoch and nanoseconds, that
/// `chrono::DateTime::parse_from_rfc3339` reads from a text, or `None` when it
/// refuses the text.
pub uninterp spec fn rfc3339_instant(text: Seq<char>) -> Option<(i64, u32)>;

/// Parses an RFC 3339 date-time (such as `2024-02-14T12:30:00+00:00`) with
/// `chrono::DateTime::parse_from_rfc3339` and keeps its instant in UTC. The
/// crate accepts four-digit years only and offsets in whole minutes, and
/// represents a `:60` second as the 59th second plus one more second of
/// nanoseconds, so what it gives back is a valid instant.
#[verifier::external_body]
pub(crate) fn parse_rfc3339(text: &str) -> (r: Option<Timestamp>)
    ensures
        r is Some <==> rfc3339_instant(text@) is Some,
        r matches Some(t) ==> rfc3339_instant(text@) == Some((t.secs, t.nanos)) && t.is_valid(),
{
    match chrono::DateTime::parse_from_rfc3339(text) {
        Ok(d) => Some(Timestamp { secs: d.timestamp(), nanos: d.timestamp_subsec_nanos() }),
        Err(_) => None,
    }
}

/// The instant falls in the years 0 to 9999, which RFC 3339 text writes with
/// four digits.
pub open spec fn in_rfc3339_years(t: Timestamp) -> bool {
    MIN_RFC3339_SECS <= t.secs <= MAX_RFC3339_SECS
}

/// The text that `chrono::DateTime::to_rfc3339` writes for a UTC instant given
/// as seconds since the epoch and nanoseconds.
pub uninterp spec fn rfc3339_text(secs: i64, nanos: u32) -> Seq<char>;

/// Writes an instant as RFC 3339 text (such as `2024-02-14T12:30:00+00:00`):
/// `chrono::DateTime::from_timestamp` builds the date-time, which exists for
/// every valid instant, and its `to_rfc3339` writes it. For the years 0 to
/// 9999 the crate writes a four-digit year, the offset `+00:00`, a leap second
/// as second `60`, and the nonzero fraction with three, six or nine digits, so
/// `chrono::DateTime::parse_from_rfc3339` reads the same instant back.
#[verifier::external_body]
pub(crate) fn format_rfc3339(t: Timestamp) -> (s: String)
    requires
        t.is_valid(),
    ensures
        s@ == rfc3339_text(t.secs, t.nanos),
        in_rfc3339_years(t) ==> rfc3339_instant(s@) == Some((t.secs, t.nanos)),
{
    chrono::DateTime::from_timestamp(t.secs, t.nanos).unwrap().to_rfc3339()
}

} // verus!
