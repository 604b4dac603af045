//! Measurement records: calendar timestamps and named values.

use vstd::prelude::*;

verus! {

/// A calendar timestamp as the peripheral reports it: six integer
/// components, no timezone.
#[derive(Clone, Copy, PartialEq, Eq, Structural, Debug)]
pub struct Timestamp {
    pub year: u16,
    pub month: u8,
    pub day: u8,
    pub hour: u8,
    pub minute: u8,
    pub second: u8,
}

/// Whether `year` is a leap year of the proleptic Gregorian calendar.
pub open spec fn is_leap_year(year: int) -> bool {
    year % 4 == 0 && (year % 100 != 0 || year % 400 == 0)
}

/// Number of days in `month` of `year`, for months between 1 and 12.
pub open spec fn days_in_month(year: int, month: int) -> int {
    if month == 2 {
        if is_leap_year(year) {
            29
        } else {
            28
        }
    } else if month == 4 || month == 6 || month == 9 || month == 11 {
        30
    } else {
        31
    }
}

impl Timestamp {
    /// The components form a real calendar date and a real time of day.
    pub open spec fn valid(self) -> bool {
        &&& 1 <= self.month <= 12
        &&& 1 <= self.day <= days_in_month(self.year as int, self.month as int)
        &&& self.hour < 24
        &&& self.minute < 60
        &&& self.second < 60
    }

    /// Runtime check of [`Timestamp::valid`].
    pub fn check_valid(&self) -> (ok: bool)
        ensures
            ok == self.valid(),
    {
        let dim: u8 = if self.month == 2 {
            if self.year % 4 == 0 && (self.year % 100 != 0 || self.year % 400 == 0) {
                29
            } else {
                28
            }
        } else if self.month == 4 || self.month == 6 || self.month == 9 || self.month == 11 {
            30
        } else {
            31
        };
        1 <= self.month && self.month <= 12 && 1 <= self.day && self.day <= dim && self.hour < 24
            && self.minute < 60 && self.second < 60
    }

    /// Builds a timestamp from peripheral-reported components, rejecting
    /// impossible calendar dates rather than failing later.
    pub fn new(year: u16, month: u8, day: u8, hour: u8, minute: u8, second: u8) -> (r: Option<
        Timestamp,
    >)
        ensures
            match r {
                Some(t) => t == (Timestamp { year, month, day, hour, minute, second })
                    && t.valid(),
                None => !(Timestamp { year, month, day, hour, minute, second }).valid(),
            },
    {
        let t = Timestamp { year, month, day, hour, minute, second };
        if t.check_valid() {
            Some(t)
        } else {
            None
        }
    }
}

/// A named measurement value. Weight is carried in tenths of a kilogram,
/// exactly the scaled decimal the wire encoding uses.
#[derive(Clone, Copy, PartialEq, Eq, Structural, Debug)]
pub enum Value {
    Weight(u16),
}

/// A decoded measurement: a timestamp and the ordered values read from one
/// weight frame. Immutable once constructed.
#[derive(Clone, Debug, PartialEq, Eq)]
pub struct Record {
    pub timestamp: Timestamp,
    pub values: Vec<Value>,
}

/// Mathematical image of a [`Record`].
#[verifier::ext_equal]
pub ghost struct RecordData {
    pub timestamp: Timestamp,
    pub values: Seq<Value>,
}

impl View for Record {
    type V = RecordData;

    open spec fn view(&self) -> RecordData {
        RecordData { timestamp: self.timestamp, values: self.values@ }
    }
}

impl Record {
    /// Builds a record from a timestamp and its values.
    pub fn with_values(timestamp: Timestamp, values: Vec<Value>) -> (r: Record)
        ensures
            r@.timestamp == timestamp,
            r@.values == values@,
    {
        Record { timestamp, values }
    }
}

} // verus!
