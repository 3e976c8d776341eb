//! Instants in UTC, and the decoder of the store's legacy tick counts.
use vstd::prelude::*;

verus! {

/// Nanoseconds in one second.
pub const NANOS_PER_SECOND: i64 = 1_000_000_000;

/// Nanoseconds in one millisecond.
pub const NANOS_PER_MILLISECOND: i64 = 1_000_000;

/// Legacy ticks (100-nanosecond intervals) in one second.
pub const TICKS_PER_SECOND: i64 = 10_000_000;

/// The Unix seconds of the UTC calendar time given by its fields, as chrono
/// computes them; none where the date or the time of day does not exist.
pub uninterp spec fn civil_unix_seconds(
    year: int,
    month: int,
    day: int,
    hour: int,
    minute: int,
    second: int,
) -> Option<i64>;

/// Whether chrono has a UTC instant at these Unix seconds and nanoseconds.
pub uninterp spec fn utc_representable(seconds: int, nanos: int) -> bool;

/// The UTC instant that chrono reads from RFC 3339 text, as Unix seconds and
/// the nanoseconds past that second; none where the text is not RFC 3339.
pub uninterp spec fn rfc3339_instant(text: Seq<char>) -> Option<(i64, u32)>;

/// Relies on chrono's `Utc.with_ymd_and_hms(..).single()` and
/// `DateTime::timestamp`: the Unix seconds of a calendar time in UTC, which
/// chrono can then represent.
#[verifier::external_body]
fn unix_seconds_from_civil(
    year: i32,
    month: u32,
    day: u32,
    hour: u32,
    minute: u32,
    second: u32,
) -> (r: Option<i64>)
    ensures
        r == civil_unix_seconds(
            year as int,
            month as int,
            day as int,
            hour as int,
            minute as int,
            second as int,
        ),
        r matches Some(s) ==> utc_representable(s as int, 0),
{
    <chrono::Utc as chrono::TimeZone>::with_ymd_and_hms(
        &chrono::Utc,
        year,
        month,
        day,
        hour,
        minute,
        second,
    ).single().map(|t| t.timestamp())
}

/// Relies on chrono's `DateTime::from_timestamp`: whether an instant exists
/// at these Unix seconds and nanoseconds.
#[verifier::external_body]
fn utc_instant_exists(seconds: i64, nanos: u32) -> (r: bool)
    ensures
        r == utc_representable(seconds as int, nanos as int),
{
    chrono::DateTime::from_timestamp(seconds, nanos).is_some()
}

/// Relies on chrono's `DateTime::parse_from_rfc3339`, `to_utc`, `timestamp`
/// and `timestamp_subsec_nanos`: the instant that RFC 3339 text denotes,
/// which chrono can then represent.
#[verifier::external_body]
fn parse_rfc3339(text: &str) -> (r: Option<(i64, u32)>)
    ensures
        r == rfc3339_instant(text@),
        r matches Some(p) ==> utc_representable(p.0 as int, p.1 as int),
{
    chrono::DateTime::parse_from_rfc3339(text).ok().map(
        |t| (t.to_utc().timestamp(), t.to_utc().timestamp_subsec_nanos()),
    )
}

/// An instant in UTC: whole seconds since 1970-01-01T00:00:00Z and the
/// nanoseconds past that second.
#[derive(Clone, Copy, Debug, PartialEq, Eq, Structural)]
pub struct Timestamp {
    pub seconds: i64,
    pub nanos: u32,
}

impl Timestamp {
    /// A regular instant that chrono can represent.
    pub open spec fn wf(self) -> bool {
        self.nanos < NANOS_PER_SECOND && utc_representable(self.seconds as int, self.nanos as int)
    }

    /// Nanoseconds since 1970-01-01T00:00:00Z.
    pub open spec fn total_nanos(self) -> int {
        self.seconds * NANOS_PER_SECOND + self.nanos
    }

    /// The instant at the given Unix seconds and nanoseconds, where it is a
    /// regular instant that chrono can represent.
    pub fn from_unix(seconds: i64, nanos: u32) -> (r: Option<Timestamp>)
        ensures
            r == (if (nanos as int) < NANOS_PER_SECOND && utc_representable(
                seconds as int,
                nanos as int,
            ) {
                Some(Timestamp { seconds, nanos })
            } else {
                None
            }),
    {
        if nanos < 1_000_000_000 && utc_instant_exists(seconds, nanos) {
            Some(Timestamp { seconds, nanos })
        } else {
            None
        }
    }

    /// Reads an RFC 3339 timestamp, converted to UTC; none where the text is
    /// not RFC 3339 or names a leap second.
    pub fn parse_rfc3339(text: &str) -> (r: Option<Timestamp>)
        ensures
            r == rfc3339_timestamp(text@),
            r matches Some(t) ==> t.wf(),
    {
        match parse_rfc3339(text) {
            Some(p) => {
                if p.1 < 1_000_000_000 {
                    Some(Timestamp { seconds: p.0, nanos: p.1 })
                } else {
                    None
                }
            },
            None => None,
        }
    }
}

/// The regular instant that RFC 3339 text denotes, in UTC.
pub open spec fn rfc3339_timestamp(text: Seq<char>) -> Option<Timestamp> {
    match rfc3339_instant(text) {
        Some(p) => if (p.1 as int) < NANOS_PER_SECOND {
            Some(Timestamp { seconds: p.0, nanos: p.1 })
        } else {
            None
        },
        None => None,
    }
}

/// The instant `total` nanoseconds after 1970-01-01T00:00:00Z, where it is
/// one that chrono can represent.
pub open spec fn instant_at_nanos(total: int) -> Option<Timestamp> {
    let seconds = total / (NANOS_PER_SECOND as int);
    let nanos = total % (NANOS_PER_SECOND as int);
    if i64::MIN <= seconds <= i64::MAX && utc_representable(seconds, nanos) {
        Some(Timestamp { seconds: seconds as i64, nanos: nanos as u32 })
    } else {
        None
    }
}

/// The instant `millis` milliseconds before `t`, where it exists.
pub open spec fn minus_millis(t: Timestamp, millis: i64) -> Option<Timestamp> {
    instant_at_nanos(t.total_nanos() - millis * NANOS_PER_MILLISECOND)
}

/// Subtracts a duration in milliseconds (added where it is negative). The
/// milliseconds are split into whole seconds and a sub-second remainder,
/// and the result is none where it falls outside chrono's range.
pub fn checked_sub_millis(t: Timestamp, millis: i64) -> (r: Option<Timestamp>)
    requires
        t.wf(),
    ensures
        r == minus_millis(t, millis),
        r matches Some(u) ==> u.wf(),
{
    let whole_seconds: i128 = (millis / 1000) as i128;
    let sub_second_nanos: i128 = ((millis % 1000) as i128) * 1_000_000;
    assert(whole_seconds * 1_000_000_000 + sub_second_nanos == millis * 1_000_000);
    let total: i128 = (t.seconds as i128) * 1_000_000_000 + (t.nanos as i128) - whole_seconds
        * 1_000_000_000 - sub_second_nanos;
    let mut seconds: i128 = total / 1_000_000_000;
    let mut nanos: i128 = total % 1_000_000_000;
    if nanos < 0 {
        nanos = nanos + 1_000_000_000;
        seconds = seconds - 1;
    }
    assert(seconds as int == (total as int) / (NANOS_PER_SECOND as int) && nanos as int == (
    total as int) % (NANOS_PER_SECOND as int));
    if seconds < i64::MIN as i128 || seconds > i64::MAX as i128 {
        return None;
    }
    Timestamp::from_unix(seconds as i64, nanos as u32)
}

/// Why a legacy tick count could not be decoded.
#[derive(Clone, Copy, Debug, PartialEq, Eq, Structural)]
pub enum TimestampError {
    /// The 1601 epoch instant could not be constructed.
    EpochUnavailable,
    /// The decoded instant lies outside the representable range.
    OutOfRange,
}

/// The Unix seconds of the legacy epoch, 1601-01-01T00:00:00Z.
pub open spec fn legacy_epoch_seconds() -> Option<i64> {
    civil_unix_seconds(1601, 1, 1, 0, 0, 0)
}

/// Whole seconds in a tick count, the sub-second remainder dropped (the
/// quotient is truncated toward zero).
pub open spec fn whole_seconds_of_ticks(ticks: int) -> int {
    if ticks >= 0 {
        ticks / (TICKS_PER_SECOND as int)
    } else {
        -((-ticks) / (TICKS_PER_SECOND as int))
    }
}

/// What a tick count decodes to.
pub open spec fn decoded_ticks(ticks: i64) -> Result<Timestamp, TimestampError> {
    match legacy_epoch_seconds() {
        None => Err(TimestampError::EpochUnavailable),
        Some(epoch) => {
            let seconds = epoch + whole_seconds_of_ticks(ticks as int);
            if i64::MIN <= seconds <= i64::MAX && utc_representable(seconds, 0) {
                Ok(Timestamp { seconds: seconds as i64, nanos: 0 })
            } else {
                Err(TimestampError::OutOfRange)
            }
        },
    }
}

/// Decodes a count of 100-nanosecond intervals since 1601-01-01T00:00:00Z
/// into a UTC instant, truncated to whole seconds.
pub fn decode_legacy_ticks(ticks: i64) -> (r: Result<Timestamp, TimestampError>)
    ensures
        r == decoded_ticks(ticks),
        r matches Ok(t) ==> t.wf(),
{
    let epoch = match unix_seconds_from_civil(1601, 1, 1, 0, 0, 0) {
        Some(e) => e,
        None => {
            return Err(TimestampError::EpochUnavailable);
        },
    };
    let whole: i64 = ticks / TICKS_PER_SECOND;
    assert(whole == whole_seconds_of_ticks(ticks as int));
    let seconds: i128 = epoch as i128 + whole as i128;
    if seconds < i64::MIN as i128 || seconds > i64::MAX as i128 {
        return Err(TimestampError::OutOfRange);
    }
    if utc_instant_exists(seconds as i64, 0) {
        Ok(Timestamp { seconds: seconds as i64, nanos: 0 })
    } else {
        Err(TimestampError::OutOfRange)
    }
}

} // verus!
