use vstd::prelude::*;

use crate::decimal::{decimal, digit, push_decimal, push_two_digits};

verus! {

/// A wall-clock time of day, to the second.
#[derive(Clone, Copy, PartialEq, Eq, Structural, Debug, Hash)]
pub struct ClockTime {
    hour: u8,
    minute: u8,
    second: u8,
}

/// A calendar date in the proleptic Gregorian calendar.
#[derive(Clone, Copy, PartialEq, Eq, Structural, Debug, Hash)]
pub struct CalendarDate {
    year: i32,
    month: u8,
    day: u8,
}

/// Whether `year` is a Gregorian leap year.
pub open spec fn is_leap_year(year: int) -> bool {
    (year % 4 == 0 && year % 100 != 0) || year % 400 == 0
}

/// The number of days of `month` (1 to 12) in `year`.
pub open spec fn days_in_month(year: int, month: int) -> int {
    if month == 2 {
        if is_leap_year(year) {
            29
        } else {
            28
        }
    } else if month == 4 || month == 6 || month == 9 || month == 11 {
        30
    } else {
        31
    }
}

/// Whether year, month and day name a day of the calendar.
pub open spec fn is_valid_date(year: int, month: int, day: int) -> bool {
    1 <= month <= 12 && 1 <= day <= days_in_month(year, month)
}

impl ClockTime {
    #[verifier::type_invariant]
    spec fn inv(&self) -> bool {
        self.hour < 24 && self.minute < 60 && self.second < 60
    }

    /// The hour, 0 to 23.
    pub closed spec fn hour_view(&self) -> nat {
        self.hour as nat
    }

    /// The minute, 0 to 59.
    pub closed spec fn minute_view(&self) -> nat {
        self.minute as nat
    }

    /// The second, 0 to 59.
    pub closed spec fn second_view(&self) -> nat {
        self.second as nat
    }

    /// The time of day from hour, minute and second; `None` unless
    /// `hour < 24`, `minute < 60` and `second < 60`.
    pub fn from_hms(hour: u32, minute: u32, second: u32) -> (r: Option<ClockTime>)
        ensures
            r is Some <==> (hour < 24 && minute < 60 && second < 60),
            r matches Some(t) ==> t.hour_view() == hour && t.minute_view() == minute
                && t.second_view() == second,
    {
        if hour < 24 && minute < 60 && second < 60 {
            Some(ClockTime { hour: hour as u8, minute: minute as u8, second: second as u8 })
        } else {
            None
        }
    }

    /// Midnight, 00:00:00.
    pub fn midnight() -> (r: ClockTime)
        ensures
            r.hour_view() == 0 && r.minute_view() == 0 && r.second_view() == 0,
    {
        ClockTime { hour: 0, minute: 0, second: 0 }
    }

    /// The hour, 0 to 23.
    pub fn hour(&self) -> (r: u32)
        ensures
            r == self.hour_view(),
            r < 24,
    {
        proof {
            use_type_invariant(self);
        }
        self.hour as u32
    }

    /// The minute, 0 to 59.
    pub fn minute(&self) -> (r: u32)
        ensures
            r == self.minute_view(),
            r < 60,
    {
        proof {
            use_type_invariant(self);
        }
        self.minute as u32
    }

    /// The second, 0 to 59.
    pub fn second(&self) -> (r: u32)
        ensures
            r == self.second_view(),
            r < 60,
    {
        proof {
            use_type_invariant(self);
        }
        self.second as u32
    }

    /// The hour on a twelve-hour clock: whether it is after noon, and the
    /// hour from 1 to 12.
    pub fn hour12(&self) -> (r: (bool, u32))
        ensures
            r.0 == (self.hour_view() >= 12),
            r.1 == if self.hour_view() % 12 == 0 {
                12
            } else {
                self.hour_view() % 12
            },
    {
        let hour = self.hour();
        let h = hour % 12;
        (hour >= 12, if h == 0 {
            12
        } else {
            h
        })
    }

    /// The time `hours` hours later, wrapping around midnight.
    pub fn add_hours(&self, hours: u32) -> (r: ClockTime)
        ensures
            r.hour_view() == (self.hour_view() + hours) % 24,
            r.minute_view() == self.minute_view(),
            r.second_view() == self.second_view(),
    {
        proof {
            use_type_invariant(self);
        }
        let hour = ((self.hour as u32) + hours % 24) % 24;
        assert(hour == (self.hour_view() + hours) % 24) by (nonlinear_arith)
            requires
                hour == (self.hour as u32 + hours % 24) % 24,
        ;
        ClockTime { hour: hour as u8, minute: self.minute, second: self.second }
    }
}

/// The twelve-hour clock text of a time: the hour from 1 to 12, a colon, the
/// minute in two digits, a space and "AM" or "PM" (such as "2:45 PM").
pub open spec fn label_12h(t: ClockTime) -> Seq<char> {
    let h = t.hour_view() % 12;
    decimal(if h == 0 {
        12
    } else {
        h
    }) + ":"@ + digit(t.minute_view() / 10) + digit(t.minute_view() % 10) + if t.hour_view() >= 12 {
        " PM"@
    } else {
        " AM"@
    }
}

impl ClockTime {
    /// The time on a twelve-hour clock, such as "2:45 PM" or "12:05 AM".
    pub fn label_12h(&self) -> (r: String)
        ensures
            r@ == label_12h(*self),
    {
        let (pm, hour) = self.hour12();
        let minute = self.minute();
        let mut out = String::new();
        push_decimal(&mut out, hour);
        out.append(":");
        push_two_digits(&mut out, minute);
        out.append(if pm {
            " PM"
        } else {
            " AM"
        });
        out
    }
}

/// Whether `year` is a Gregorian leap year.
pub fn leap_year(year: i32) -> (r: bool)
    ensures
        r == is_leap_year(year as int),
{
    (year % 4 == 0 && year % 100 != 0) || year % 400 == 0
}

/// The number of days of `month` (1 to 12) in `year`.
pub fn month_length(year: i32, month: u32) -> (r: u32)
    requires
        1 <= month <= 12,
    ensures
        r == days_in_month(year as int, month as int),
{
    if month == 2 {
        if leap_year(year) {
            29
        } else {
            28
        }
    } else if month == 4 || month == 6 || month == 9 || month == 11 {
        30
    } else {
        31
    }
}

impl CalendarDate {
    #[verifier::type_invariant]
    spec fn inv(&self) -> bool {
        is_valid_date(self.year as int, self.month as int, self.day as int)
    }

    /// The year.
    pub closed spec fn year_view(&self) -> int {
        self.year as int
    }

    /// The month, 1 to 12.
    pub closed spec fn month_view(&self) -> nat {
        self.month as nat
    }

    /// The day of the month, from 1.
    pub closed spec fn day_view(&self) -> nat {
        self.day as nat
    }

    /// The date from year, month and day; `None` unless the month is 1 to 12
    /// and the day exists in that month of that year.
    pub fn from_ymd(year: i32, month: u32, day: u32) -> (r: Option<CalendarDate>)
        ensures
            r is Some <==> is_valid_date(year as int, month as int, day as int),
            r matches Some(d) ==> d.year_view() == year && d.month_view() == month
                && d.day_view() == day,
    {
        if month < 1 || month > 12 || day < 1 {
            return None;
        }
        if day > month_length(year, month) {
            return None;
        }
        Some(CalendarDate { year, month: month as u8, day: day as u8 })
    }

    /// The year.
    pub fn year(&self) -> (r: i32)
        ensures
            r == self.year_view(),
    {
        self.year
    }

    /// The month, 1 to 12.
    pub fn month(&self) -> (r: u32)
        ensures
            r == self.month_view(),
            1 <= r <= 12,
    {
        proof {
            use_type_invariant(self);
        }
        self.month as u32
    }

    /// The day of the month, from 1.
    pub fn day(&self) -> (r: u32)
        ensures
            r == self.day_view(),
            1 <= r <= 31,
    {
        proof {
            use_type_invariant(self);
        }
        self.day as u32
    }
}

} // verus!
