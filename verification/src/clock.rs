//! Instants in time, counted from the Unix epoch in UTC.

use crate::error::ServerError;
use vstd::prelude::*;

verus! {

/// First second that an instant can hold: the start of the year -262143.
pub const MIN_SECS: i64 = -8_334_601_228_800;

/// Last second that an instant can hold: the end of the year 262142.
pub const MAX_SECS: i64 = 8_210_266_876_799;

/// Nanoseconds in one second.
pub const NANOS_PER_SEC: u32 = 1_000_000_000;

/// First second that a calendar date of four digits can hold.
pub const CALENDAR_MIN_SECS: i64 = -377_705_116_800;

/// Last second that a calendar date of four digits can hold.
pub const CALENDAR_MAX_SECS: i64 = 253_402_300_799;

/// An instant: whole seconds since the epoch and the nanoseconds past them.
#[derive(Clone, Copy, Debug, PartialEq, Eq, Structural)]
pub struct Timestamp {
    pub secs: i64,
    pub nanos: u32,
}

/// `chrono::DateTime::from_timestamp_millis`, with the instant taken out by
/// `timestamp` and `timestamp_subsec_nanos`.
/// Trusted: the crate splits the count into floored seconds and the
/// milliseconds left over, and refuses exactly the counts whose second lies
/// outside the years it can represent.
#[verifier::external_body]
fn datetime_from_millis(millis: i64) -> (r: Option<Timestamp>)
    ensures
        r == Timestamp::of_millis(millis),
{
    chrono::DateTime::from_timestamp_millis(millis).map(
        |at| Timestamp { secs: at.timestamp(), nanos: at.timestamp_subsec_nanos() },
    )
}

/// The text of an instant as the `chrono` crate writes a time in UTC.
pub uninterp spec fn instant_text(secs: i64, nanos: u32) -> Seq<char>;

/// `chrono::DateTime::from_timestamp`, then the `Display` of what it gives.
/// Trusted: every instant in the representable range has a text, and the
/// text depends on the instant alone.
#[verifier::external_body]
fn datetime_text(secs: i64, nanos: u32) -> (r: Option<String>)
    ensures
        MIN_SECS <= secs <= MAX_SECS && nanos < NANOS_PER_SEC ==> r is Some,
        r matches Some(text) ==> text@ == instant_text(secs, nanos),
{
    chrono::DateTime::from_timestamp(secs, nanos).map(|at| at.to_string())
}

/// `time::OffsetDateTime`: a calendar date and time of day. Carried
/// through unread.
#[verifier::external_type_specification]
#[verifier::external_body]
pub struct ExOffsetDateTime(time::OffsetDateTime);

/// `time::error::ComponentRange`: which part of a date was out of range.
/// Carried through unread.
#[verifier::external_type_specification]
#[verifier::external_body]
pub struct ExComponentRange(time::error::ComponentRange);

/// `time::OffsetDateTime::from_unix_timestamp`, then `replace_nanosecond`
/// on what it gives.
/// Trusted: the first accepts exactly the seconds of the years -9999 to
/// 9999 (the crate's range unless it is built with its `large-dates`
/// feature), the second exactly the nanoseconds below one second.
#[verifier::external_body]
fn calendar_instant(secs: i64, nanos: u32) -> (r: Result<
    time::OffsetDateTime,
    time::error::ComponentRange,
>)
    ensures
        r is Ok <==> (CALENDAR_MIN_SECS <= secs <= CALENDAR_MAX_SECS && nanos < NANOS_PER_SEC),
{
    time::OffsetDateTime::from_unix_timestamp(secs).and_then(|at| at.replace_nanosecond(nanos))
}

/// The `Display` of `time::error::ComponentRange`. Nothing is promised of
/// the text.
#[verifier::external_body]
fn range_error_text(e: &time::error::ComponentRange) -> (r: String) {
    e.to_string()
}

impl Timestamp {
    /// The instant can be written as a calendar date of four digits.
    pub open spec fn fits_calendar(&self) -> bool {
        CALENDAR_MIN_SECS <= self.secs <= CALENDAR_MAX_SECS && self.nanos < NANOS_PER_SEC
    }

    /// This instant as a calendar date and time, for a cookie's expiry.
    /// Fails with an internal failure exactly when the date needs more
    /// than four digits.
    pub fn to_offset_datetime(&self) -> (r: Result<time::OffsetDateTime, ServerError>)
        ensures
            r is Ok <==> self.fits_calendar(),
            r matches Err(e) ==> e is InternalServerError,
    {
        match calendar_instant(self.secs, self.nanos) {
            Ok(at) => Ok(at),
            Err(e) => Err(ServerError::InternalServerError(range_error_text(&e))),
        }
    }

    /// The instant as text: date, time of day and `UTC`.
    pub fn to_text(&self) -> (r: String)
        requires
            self.wf(),
        ensures
            r@ == instant_text(self.secs, self.nanos),
    {
        match datetime_text(self.secs, self.nanos) {
            Some(text) => text,
            None => unreached(),
        }
    }

    /// The instant lies in the representable range.
    pub open spec fn wf(&self) -> bool {
        MIN_SECS <= self.secs <= MAX_SECS && self.nanos < NANOS_PER_SEC
    }

    /// Milliseconds since the epoch, rounded down.
    pub open spec fn millis(&self) -> int {
        self.secs * 1000 + self.nanos / 1_000_000
    }

    /// The instant that a count of milliseconds stands for, if it is
    /// representable.
    pub open spec fn of_millis(millis: i64) -> Option<Timestamp> {
        let secs = millis as int / 1000;
        let rest = millis as int % 1000;
        if MIN_SECS <= secs <= MAX_SECS {
            Some(Timestamp { secs: secs as i64, nanos: (rest * 1_000_000) as u32 })
        } else {
            None
        }
    }

    /// This instant cut down to whole milliseconds.
    pub open spec fn truncated(&self) -> Timestamp {
        Timestamp { secs: self.secs, nanos: ((self.nanos / 1_000_000) * 1_000_000) as u32 }
    }

    /// The instant `seconds` later, if it is representable.
    pub open spec fn plus(&self, seconds: u32) -> Option<Timestamp> {
        if self.secs + seconds <= MAX_SECS {
            Some(Timestamp { secs: (self.secs + seconds) as i64, nanos: self.nanos })
        } else {
            None
        }
    }

    /// Whether the instant lies in the representable range.
    pub fn is_valid(&self) -> (r: bool)
        ensures
            r == self.wf(),
    {
        MIN_SECS <= self.secs && self.secs <= MAX_SECS && self.nanos < NANOS_PER_SEC
    }

    /// Milliseconds since the epoch, rounded down.
    pub fn timestamp_millis(&self) -> (r: i64)
        requires
            self.wf(),
        ensures
            r == self.millis(),
    {
        self.secs * 1000 + (self.nanos / 1_000_000) as i64
    }

    /// The instant of a count of milliseconds; `None` when the count lies
    /// outside the representable range.
    pub fn from_timestamp_millis(millis: i64) -> (r: Option<Timestamp>)
        ensures
            r == Timestamp::of_millis(millis),
            r matches Some(at) ==> at.wf() && at.millis() == millis,
    {
        let r = datetime_from_millis(millis);
        proof {
            lemma_of_millis(millis);
        }
        r
    }

    /// The instant `seconds` later; `None` when that leaves the range.
    pub fn checked_add_seconds(&self, seconds: u32) -> (r: Option<Timestamp>)
        requires
            self.wf(),
        ensures
            r == self.plus(seconds),
            r matches Some(at) ==> at.wf(),
    {
        let later: i64 = self.secs + seconds as i64;
        if later <= MAX_SECS {
            Some(Timestamp { secs: later, nanos: self.nanos })
        } else {
            None
        }
    }
}

/// An instant made from milliseconds is well formed and counts the same
/// milliseconds.
pub proof fn lemma_of_millis(millis: i64)
    ensures
        Timestamp::of_millis(millis) matches Some(at) ==> at.wf() && at.millis() == millis,
{
}

/// Writing an instant as milliseconds and reading it back loses nothing but
/// the part below one millisecond.
pub proof fn lemma_millis_round_trip(at: Timestamp)
    requires
        at.wf(),
    ensures
        i64::MIN <= at.millis() <= i64::MAX,
        Timestamp::of_millis(at.millis() as i64) == Some(at.truncated()),
        at.nanos % 1_000_000 == 0 ==> at.truncated() == at,
{
    let sub = at.nanos as int / 1_000_000;
    assert(0 <= sub < 1000);
    let m = at.secs * 1000 + sub;
    assert(m / 1000 == at.secs && m % 1000 == sub) by (nonlinear_arith)
        requires
            m == at.secs * 1000 + sub,
            0 <= sub < 1000,
    ;
}

} // verus!
