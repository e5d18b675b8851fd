use vstd::prelude::*;

verus! {

/// Earliest instant that a timestamp can denote, in seconds from the Unix epoch.
pub const MIN_UNIX_SECONDS: i64 = -8_334_601_228_800;

/// Latest instant that a timestamp can denote, in seconds from the Unix epoch.
pub const MAX_UNIX_SECONDS: i64 = 8_210_266_876_799;

/// Nanoseconds in one second.
pub const NANOS_PER_SECOND: u32 = 1_000_000_000;

/// Seconds in one hour.
pub const SECONDS_PER_HOUR: i64 = 3_600;

/// Seconds in one day.
pub const SECONDS_PER_DAY: i64 = 86_400;

/// An instant in UTC: whole seconds from the Unix epoch and the nanoseconds
/// into that second. Every value lies in the range that the calendar supports
/// and never denotes a leap second.
#[derive(Debug, Clone, Copy, PartialEq, Eq)]
pub struct Timestamp {
    secs: i64,
    nanos: u32,
}

/// Whether `secs` and `nanos` denote an instant that a `Timestamp` can hold.
pub open spec fn in_calendar_range(secs: int, nanos: int) -> bool {
    &&& MIN_UNIX_SECONDS <= secs <= MAX_UNIX_SECONDS
    &&& 0 <= nanos < NANOS_PER_SECOND
}

/// Integer division that rounds toward zero, as machine division does.
pub open spec fn div_toward_zero(a: int, b: int) -> int
    recommends
        b > 0,
{
    if a >= 0 {
        a / b
    } else {
        -((-a) / b)
    }
}

/// Nanoseconds from `from` to `to`; negative when `to` is the earlier one.
pub open spec fn nanos_between(from: Timestamp, to: Timestamp) -> int {
    (to.seconds() - from.seconds()) * NANOS_PER_SECOND + (to.nanoseconds() - from.nanoseconds())
}

/// Whole hours from `from` to `to`, rounded toward zero.
pub open spec fn hours_between(from: Timestamp, to: Timestamp) -> int {
    div_toward_zero(
        div_toward_zero(nanos_between(from, to), NANOS_PER_SECOND as int),
        SECONDS_PER_HOUR as int,
    )
}

impl Timestamp {
    #[verifier::type_invariant]
    spec fn valid(self) -> bool {
        in_calendar_range(self.secs as int, self.nanos as int)
    }

    /// Whole seconds from the Unix epoch.
    pub closed spec fn seconds(self) -> int {
        self.secs as int
    }

    /// Nanoseconds into the second.
    pub closed spec fn nanoseconds(self) -> int {
        self.nanos as int
    }

    /// The instant `secs` seconds and `nanos` nanoseconds from the Unix epoch,
    /// or `None` where the calendar does not reach that far or `nanos` is not
    /// below one second.
    pub fn from_unix(secs: i64, nanos: u32) -> (r: Option<Timestamp>)
        ensures
            r is Some <==> in_calendar_range(secs as int, nanos as int),
            r matches Some(t) ==> t.seconds() == secs && t.nanoseconds() == nanos,
    {
        if MIN_UNIX_SECONDS <= secs && secs <= MAX_UNIX_SECONDS && nanos < NANOS_PER_SECOND {
            Some(Timestamp { secs, nanos })
        } else {
            None
        }
    }

    /// Whole seconds from the Unix epoch.
    pub fn unix_seconds(&self) -> (r: i64)
        ensures
            r == self.seconds(),
            MIN_UNIX_SECONDS <= r <= MAX_UNIX_SECONDS,
    {
        proof {
            use_type_invariant(self);
        }
        self.secs
    }

    /// Nanoseconds into the second.
    pub fn subsec_nanos(&self) -> (r: u32)
        ensures
            r == self.nanoseconds(),
            r < NANOS_PER_SECOND,
    {
        proof {
            use_type_invariant(self);
        }
        self.nanos
    }

    /// `Utc::now` of chrono, read through `timestamp` and
    /// `timestamp_subsec_nanos`: the clock's reading. Nothing is promised of
    /// the instant itself; two readings may differ in either direction. What
    /// is taken on trust is that the reading is a valid `Timestamp`: chrono
    /// builds it with `DateTime::from_timestamp` from the system time's
    /// seconds and nanoseconds, so it lies within the calendar and its
    /// nanoseconds stay below one second. chrono panics where the system's
    /// clock stands before the Unix epoch.
    #[verifier::external_body]
    pub(crate) fn now() -> (r: Timestamp) {
        let t = chrono::Utc::now();
        Timestamp { secs: t.timestamp(), nanos: t.timestamp_subsec_nanos() }
    }

    /// `DateTime::signed_duration_since` and `TimeDelta::num_hours` of chrono,
    /// on the two instants rebuilt with `DateTime::from_timestamp`: the whole
    /// hours from `self` to `later`, rounded toward zero.
    #[verifier::external_body]
    fn chrono_hours_until(&self, later: &Timestamp) -> (r: i64)
        ensures
            r == hours_between(*self, *later),
    {
        let a = chrono::DateTime::from_timestamp(self.secs, self.nanos).unwrap();
        let b = chrono::DateTime::from_timestamp(later.secs, later.nanos).unwrap();
        b.signed_duration_since(a).num_hours()
    }

    /// `DateTime::checked_add_signed` of chrono with `TimeDelta::try_days`, on
    /// the instant rebuilt with `DateTime::from_timestamp`: the instant `days`
    /// days later, or `None` where the calendar does not reach that far.
    #[verifier::external_body]
    fn chrono_plus_days(&self, days: i64) -> (r: Option<Timestamp>)
        ensures
            r is Some <==> in_calendar_range(
                self.seconds() + days * SECONDS_PER_DAY,
                self.nanoseconds(),
            ),
            r matches Some(t) ==> t.seconds() == self.seconds() + days * SECONDS_PER_DAY
                && t.nanoseconds() == self.nanoseconds(),
    {
        let a = chrono::DateTime::from_timestamp(self.secs, self.nanos).unwrap();
        let b = a.checked_add_signed(chrono::TimeDelta::try_days(days)?)?;
        Some(Timestamp { secs: b.timestamp(), nanos: b.timestamp_subsec_nanos() })
    }

    /// The instant `days` days after `self`, or `None` where the calendar
    /// does not reach that far.
    pub fn plus_days(&self, days: i64) -> (r: Option<Timestamp>)
        ensures
            r is Some <==> in_calendar_range(
                self.seconds() + days * SECONDS_PER_DAY,
                self.nanoseconds(),
            ),
            r matches Some(t) ==> t.seconds() == self.seconds() + days * SECONDS_PER_DAY
                && t.nanoseconds() == self.nanoseconds(),
    {
        self.chrono_plus_days(days)
    }

    /// Whole hours from `self` to `later`, rounded toward zero; negative when
    /// `later` is the earlier one.
    pub fn hours_until(&self, later: &Timestamp) -> (r: i64)
        ensures
            r == hours_between(*self, *later),
    {
        self.chrono_hours_until(later)
    }
}

} // verus!
