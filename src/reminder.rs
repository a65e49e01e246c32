use vstd::prelude::*;

use crate::days::ReminderDaysOfWeek;
use crate::time::{CalendarDate, ClockTime};

verus! {

/// A month of the year a reminder can be set for.
#[derive(Clone, Copy, PartialEq, Eq, Structural, Debug, Hash)]
pub enum ReminderMonth {
    January,
    February,
    March,
    April,
    May,
    June,
    July,
    August,
    September,
    October,
    November,
    December,
}

/// The English name of a month.
pub open spec fn month_name(m: ReminderMonth) -> Seq<char> {
    match m {
        ReminderMonth::January => "January"@,
        ReminderMonth::February => "February"@,
        ReminderMonth::March => "March"@,
        ReminderMonth::April => "April"@,
        ReminderMonth::May => "May"@,
        ReminderMonth::June => "June"@,
        ReminderMonth::July => "July"@,
        ReminderMonth::August => "August"@,
        ReminderMonth::September => "September"@,
        ReminderMonth::October => "October"@,
        ReminderMonth::November => "November"@,
        ReminderMonth::December => "December"@,
    }
}

impl ReminderMonth {
    /// The English name of the month.
    pub fn name(&self) -> (r: &'static str)
        ensures
            r@ == month_name(*self),
    {
        match self {
            ReminderMonth::January => "January",
            ReminderMonth::February => "February",
            ReminderMonth::March => "March",
            ReminderMonth::April => "April",
            ReminderMonth::May => "May",
            ReminderMonth::June => "June",
            ReminderMonth::July => "July",
            ReminderMonth::August => "August",
            ReminderMonth::September => "September",
            ReminderMonth::October => "October",
            ReminderMonth::November => "November",
            ReminderMonth::December => "December",
        }
    }
}

impl Default for ReminderMonth {
    /// January.
    fn default() -> (r: Self)
        ensures
            r == ReminderMonth::January,
    {
        ReminderMonth::January
    }
}

/// When during the day a reminder is set for.
#[derive(Clone, Copy, PartialEq, Eq, Structural, Debug, Hash)]
pub enum ReminderTimeOfDay {
    /// The whole day.
    AllDay,
    /// A specific time of day.
    Time { time: ClockTime },
    /// A span of time, from `start` to `end`.
    TimeRange { start: ClockTime, end: ClockTime },
}

impl Default for ReminderTimeOfDay {
    /// The whole day.
    fn default() -> (r: Self)
        ensures
            r == ReminderTimeOfDay::AllDay,
    {
        ReminderTimeOfDay::AllDay
    }
}

/// A reminder that occurs once.
#[derive(Clone, Copy, PartialEq, Eq, Structural, Debug, Hash)]
pub struct ReminderFrequencyOnce {
    /// The date the reminder is set for.
    pub date: CalendarDate,
    /// The time of day the reminder is set for.
    pub time: ReminderTimeOfDay,
}

/// A reminder that occurs daily.
#[derive(Clone, Copy, PartialEq, Eq, Structural, Debug, Hash)]
pub struct ReminderFrequencyDaily {
    /// The time of day the reminder is set for.
    pub time: ReminderTimeOfDay,
}

impl Default for ReminderFrequencyDaily {
    /// All day.
    fn default() -> (r: Self)
        ensures
            r.time == ReminderTimeOfDay::AllDay,
    {
        ReminderFrequencyDaily { time: ReminderTimeOfDay::AllDay }
    }
}

/// A reminder that occurs on some days of every week.
#[derive(Clone, Copy, PartialEq, Eq, Structural, Debug, Hash)]
pub struct ReminderFrequencyWeekly {
    /// The days of the week the reminder is set for.
    pub days: ReminderDaysOfWeek,
    /// The time of day the reminder is set for.
    pub time: ReminderTimeOfDay,
}

impl Default for ReminderFrequencyWeekly {
    /// No day, all day.
    fn default() -> (r: Self)
        ensures
            r.days.bits_view() == 0,
            r.time == ReminderTimeOfDay::AllDay,
    {
        ReminderFrequencyWeekly { days: ReminderDaysOfWeek::empty(), time: ReminderTimeOfDay::AllDay }
    }
}

/// A reminder that occurs on some days of every month.
#[derive(Clone, PartialEq, Debug)]
pub struct ReminderFrequencyMonthly {
    /// The days of the month the reminder is set for. Some of these days
    /// might not exist in a given month.
    pub dates: Vec<u8>,
    /// The time of day the reminder is set for.
    pub time: ReminderTimeOfDay,
}

impl Default for ReminderFrequencyMonthly {
    /// No day, all day.
    fn default() -> (r: Self)
        ensures
            r.dates@.len() == 0,
            r.time == ReminderTimeOfDay::AllDay,
    {
        ReminderFrequencyMonthly { dates: Vec::new(), time: ReminderTimeOfDay::AllDay }
    }
}

/// A day of the year a reminder can be set for.
#[derive(Clone, Copy, PartialEq, Eq, Structural, Debug, Hash)]
pub struct ReminderYearlyDate {
    /// The month.
    pub month: ReminderMonth,
    /// The day of the month. This day might not exist.
    pub date: u8,
}

impl Default for ReminderYearlyDate {
    /// The first of January.
    fn default() -> (r: Self)
        ensures
            r.month == ReminderMonth::January,
            r.date == 1,
    {
        ReminderYearlyDate { month: ReminderMonth::January, date: 1 }
    }
}

/// A reminder that occurs on some days of every year.
#[derive(Clone, PartialEq, Debug)]
pub struct ReminderFrequencyYearly {
    /// The days of the year the reminder is set for.
    pub dates: Vec<ReminderYearlyDate>,
    /// The time of day the reminder is set for.
    pub time: ReminderTimeOfDay,
}

impl Default for ReminderFrequencyYearly {
    /// No day, all day.
    fn default() -> (r: Self)
        ensures
            r.dates@.len() == 0,
            r.time == ReminderTimeOfDay::AllDay,
    {
        ReminderFrequencyYearly { dates: Vec::new(), time: ReminderTimeOfDay::AllDay }
    }
}

/// How often a reminder occurs.
#[derive(Clone, PartialEq, Debug)]
pub enum ReminderFrequency {
    /// Only once.
    Once(ReminderFrequencyOnce),
    /// Every day.
    Daily(ReminderFrequencyDaily),
    /// On some days of every week.
    Weekly(ReminderFrequencyWeekly),
    /// On some days of every month.
    Monthly(ReminderFrequencyMonthly),
    /// On some days of every year.
    Yearly(ReminderFrequencyYearly),
}

/// The time of day of a frequency, whatever its kind.
pub open spec fn frequency_time(f: ReminderFrequency) -> ReminderTimeOfDay {
    match f {
        ReminderFrequency::Once(once) => once.time,
        ReminderFrequency::Daily(daily) => daily.time,
        ReminderFrequency::Weekly(weekly) => weekly.time,
        ReminderFrequency::Monthly(monthly) => monthly.time,
        ReminderFrequency::Yearly(yearly) => yearly.time,
    }
}

/// The name of a frequency's kind.
pub open spec fn frequency_name(f: ReminderFrequency) -> Seq<char> {
    match f {
        ReminderFrequency::Once(_) => "Once"@,
        ReminderFrequency::Daily(_) => "Daily"@,
        ReminderFrequency::Weekly(_) => "Weekly"@,
        ReminderFrequency::Monthly(_) => "Monthly"@,
        ReminderFrequency::Yearly(_) => "Yearly"@,
    }
}

impl ReminderFrequency {
    /// The time of day the reminder should occur.
    pub fn time_of_day(&self) -> (r: &ReminderTimeOfDay)
        ensures
            *r == frequency_time(*self),
    {
        match self {
            ReminderFrequency::Once(once) => &once.time,
            ReminderFrequency::Daily(daily) => &daily.time,
            ReminderFrequency::Weekly(weekly) => &weekly.time,
            ReminderFrequency::Monthly(monthly) => &monthly.time,
            ReminderFrequency::Yearly(yearly) => &yearly.time,
        }
    }

    /// Whether the frequency is [`ReminderFrequency::Once`].
    pub fn is_once(&self) -> (r: bool)
        ensures
            r == (*self is Once),
    {
        matches!(self, ReminderFrequency::Once(_))
    }

    /// Whether the frequency is [`ReminderFrequency::Daily`].
    pub fn is_daily(&self) -> (r: bool)
        ensures
            r == (*self is Daily),
    {
        matches!(self, ReminderFrequency::Daily(_))
    }

    /// Whether the frequency is [`ReminderFrequency::Weekly`].
    pub fn is_weekly(&self) -> (r: bool)
        ensures
            r == (*self is Weekly),
    {
        matches!(self, ReminderFrequency::Weekly(_))
    }

    /// Whether the frequency is [`ReminderFrequency::Monthly`].
    pub fn is_monthly(&self) -> (r: bool)
        ensures
            r == (*self is Monthly),
    {
        matches!(self, ReminderFrequency::Monthly(_))
    }

    /// Whether the frequency is [`ReminderFrequency::Yearly`].
    pub fn is_yearly(&self) -> (r: bool)
        ensures
            r == (*self is Yearly),
    {
        matches!(self, ReminderFrequency::Yearly(_))
    }
}

/// The name of the frequency's kind, as shown in a frequency selector.
pub fn selected_text(frequency: &ReminderFrequency) -> (r: &'static str)
    ensures
        r@ == frequency_name(*frequency),
{
    match frequency {
        ReminderFrequency::Once(_) => "Once",
        ReminderFrequency::Daily(_) => "Daily",
        ReminderFrequency::Weekly(_) => "Weekly",
        ReminderFrequency::Monthly(_) => "Monthly",
        ReminderFrequency::Yearly(_) => "Yearly",
    }
}

/// A potentially recurring reminder.
#[derive(Clone, PartialEq, Debug)]
pub struct Reminder {
    /// How often the reminder occurs.
    pub frequency: ReminderFrequency,
    /// The message for the reminder.
    pub message: String,
    /// Whether the reminder has been completed.
    pub completed: bool,
}

} // verus!
