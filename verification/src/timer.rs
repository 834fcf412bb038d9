use vstd::prelude::*;

verus! {

/// The number of milliseconds in a day.
pub const MILLIS_PER_DAY: u64 = 86_400_000;

/// A time zone, given by its distance from UTC.
#[derive(Clone, Copy, PartialEq, Eq, Debug)]
pub struct TimeZone {
    /// Offset from UTC in seconds.
    pub offset: i32,
}

/// A day, counted from 1 January 1970.
#[derive(Clone, Copy, PartialEq, Eq, Debug)]
pub struct Date {
    /// The number of whole days since 1 January 1970.
    pub days: u64,
}

/// A time of day.
#[derive(Clone, Copy, PartialEq, Eq, Debug)]
pub struct Time {
    /// The number of milliseconds since midnight.
    pub millis: u64,
}

/// A moment: a day, a time of that day, and the time zone both are given in.
#[derive(Clone, Copy, PartialEq, Eq, Debug)]
pub struct DateTime {
    date: Date,
    time: Time,
    timezone: TimeZone,
}

impl DateTime {
    /// The day of the moment.
    pub closed spec fn spec_date(&self) -> Date {
        self.date
    }

    /// The time of day of the moment.
    pub closed spec fn spec_time(&self) -> Time {
        self.time
    }

    /// The time zone the moment is given in.
    pub closed spec fn spec_timezone(&self) -> TimeZone {
        self.timezone
    }

    /// The moment that lies `timestamp` milliseconds after the start of
    /// 1 January 1970, in UTC.
    pub fn from_unix_millis(timestamp: u64) -> (moment: Self)
        ensures
            moment.spec_date().days == timestamp / MILLIS_PER_DAY,
            moment.spec_time().millis == timestamp % MILLIS_PER_DAY,
            moment.spec_timezone().offset == 0,
            moment.spec_unix_millis() == timestamp,
    {
        let days = timestamp / MILLIS_PER_DAY;
        let millis = timestamp % MILLIS_PER_DAY;
        assert(days * MILLIS_PER_DAY + millis == timestamp) by (nonlinear_arith)
            requires
                days == timestamp / MILLIS_PER_DAY,
                millis == timestamp % MILLIS_PER_DAY,
        ;
        DateTime { date: Date { days }, time: Time { millis }, timezone: TimeZone { offset: 0 } }
    }

    /// The number of milliseconds between the start of 1 January 1970 and
    /// the moment, in the moment's own time zone.
    pub closed spec fn spec_unix_millis(&self) -> int {
        self.date.days * MILLIS_PER_DAY + self.time.millis
    }

    /// The day of the moment.
    #[verifier::when_used_as_spec(spec_date)]
    pub fn date(&self) -> (date: Date)
        ensures
            date == self.spec_date(),
    {
        self.date
    }

    /// The time of day of the moment.
    #[verifier::when_used_as_spec(spec_time)]
    pub fn time(&self) -> (time: Time)
        ensures
            time == self.spec_time(),
    {
        self.time
    }

    /// The time zone the moment is given in.
    #[verifier::when_used_as_spec(spec_timezone)]
    pub fn timezone(&self) -> (timezone: TimeZone)
        ensures
            timezone == self.spec_timezone(),
    {
        self.timezone
    }
}

} // verus!
