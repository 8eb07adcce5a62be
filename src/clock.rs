use vstd::prelude::*;

verus! {

/// Seconds in one day.
pub const SECONDS_PER_DAY: u32 = 86400;

/// A calendar date, held as its day number: day 1 is 0001-01-01 of the
/// proleptic Gregorian calendar. Only equality and order of dates matter to the
/// scheduler.
#[derive(Clone, Copy, Debug, PartialEq, Eq, Structural)]
pub struct Date {
    pub day_number: i32,
}

impl Date {
    /// The date with the given day number.
    pub fn from_day_number(day_number: i32) -> (r: Date)
        ensures
            r.day_number == day_number,
    {
        Date { day_number }
    }
}

/// One reading of the clock: an instant in whole seconds, the local calendar
/// date, and the local time of day in seconds past midnight.
#[derive(Clone, Copy, Debug, PartialEq, Eq, Structural)]
pub struct Moment {
    pub instant: u64,
    pub today: Date,
    pub time_of_day: u32,
}

impl Moment {
    /// A clock reading is well formed when its time of day lies within one day.
    pub open spec fn wf(self) -> bool {
        self.time_of_day < SECONDS_PER_DAY
    }

    /// Builds a clock reading from an instant, a date and hours, minutes and
    /// seconds past midnight; `None` when those do not name a time of day.
    pub fn new(instant: u64, today: Date, hour: u32, minute: u32, second: u32) -> (r: Option<Moment>)
        ensures
            r matches Some(m) <==> (hour < 24 && minute < 60 && second < 60),
            r matches Some(m) ==> m.wf() && m.instant == instant && m.today == today
                && m.time_of_day == hour * 3600 + minute * 60 + second,
    {
        if hour < 24 && minute < 60 && second < 60 {
            Some(Moment { instant, today, time_of_day: hour * 3600 + minute * 60 + second })
        } else {
            None
        }
    }
}

} // verus!
