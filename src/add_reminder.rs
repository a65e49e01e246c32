use vstd::prelude::*;

use crate::days::{ReminderDaysOfWeek, ALL_DAYS};
use crate::reminder::{
    Reminder, ReminderFrequency, ReminderFrequencyDaily, ReminderFrequencyMonthly,
    ReminderFrequencyOnce, ReminderFrequencyWeekly, ReminderFrequencyYearly, ReminderMonth,
    ReminderTimeOfDay, ReminderYearlyDate,
};
use crate::time::{CalendarDate, ClockTime};

verus! {

/// A kind of frequency for a new [`Reminder`].
#[derive(Clone, Copy, PartialEq, Eq, Structural, Debug, Hash)]
pub enum FrequencyType {
    /// Maps to [`ReminderFrequency::Once`].
    Once,
    /// Maps to [`ReminderFrequency::Daily`].
    Daily,
    /// Maps to [`ReminderFrequency::Weekly`].
    Weekly,
    /// Maps to [`ReminderFrequency::Monthly`].
    Monthly,
    /// Maps to [`ReminderFrequency::Yearly`].
    Yearly,
}

impl Default for FrequencyType {
    /// Once.
    fn default() -> (r: Self)
        ensures
            r == FrequencyType::Once,
    {
        FrequencyType::Once
    }
}

/// An event of an [`AddReminderPage`].
#[derive(Clone, Debug)]
pub enum AddReminderPageEvent {
    /// Adds the reminder being edited.
    AddReminder,
    /// Sets the title.
    SetTitle(String),
    /// Sets the frequency type.
    SetFrequencyType(FrequencyType),
    /// Sets the days of the week.
    SetDaysOfWeek(ReminderDaysOfWeek),
    /// Sets the time of day.
    SetTimeOfDay(ReminderTimeOfDay),
}

/// The reminder being edited on an [`AddReminderPage`].
#[derive(Clone, Debug)]
pub struct AddReminderPageState {
    /// The title.
    pub title: String,
    /// The kind of frequency.
    pub frequency_type: FrequencyType,
    /// The days of the week.
    pub days_of_week: ReminderDaysOfWeek,
    /// The time of day.
    pub time_of_day: ReminderTimeOfDay,
}

/// Whether `s` is the blank form at time `now`.
pub open spec fn is_blank_form(s: AddReminderPageState, now: ClockTime) -> bool {
    &&& s.title@.len() == 0
    &&& s.frequency_type == FrequencyType::Once
    &&& s.days_of_week.bits_view() == 0
    &&& s.time_of_day == ReminderTimeOfDay::Time { time: now }
}

/// Whether `f` is the frequency a new reminder of kind `kind` at `time` gets
/// on `today`: once on that day, daily, weekly on every day, monthly on the
/// 1st, 2nd and 8th, or yearly on the 4th of January.
pub open spec fn is_new_frequency(
    f: ReminderFrequency,
    kind: FrequencyType,
    time: ReminderTimeOfDay,
    today: CalendarDate,
) -> bool {
    match kind {
        FrequencyType::Once => f == ReminderFrequency::Once(ReminderFrequencyOnce { date: today, time }),
        FrequencyType::Daily => f == ReminderFrequency::Daily(ReminderFrequencyDaily { time }),
        FrequencyType::Weekly => f matches ReminderFrequency::Weekly(w) && w.days.bits_view() == ALL_DAYS
            && w.time == time,
        FrequencyType::Monthly => f matches ReminderFrequency::Monthly(m) && m.dates@ == seq![1u8, 2u8, 8u8]
            && m.time == time,
        FrequencyType::Yearly => f matches ReminderFrequency::Yearly(y) && y.dates@ == seq![
            ReminderYearlyDate { month: ReminderMonth::January, date: 4 },
        ] && y.time == time,
    }
}

/// Whether `r` is the reminder the form `s` adds on `today`.
pub open spec fn is_new_reminder(r: Reminder, s: AddReminderPageState, today: CalendarDate) -> bool {
    &&& is_new_frequency(r.frequency, s.frequency_type, s.time_of_day, today)
    &&& r.message@ == s.title@
    &&& !r.completed
}

impl AddReminderPageState {
    /// The blank form at time `now`: no title, once, no day, at `now`.
    pub fn new(now: ClockTime) -> (r: Self)
        ensures
            is_blank_form(r, now),
    {
        AddReminderPageState {
            title: String::new(),
            frequency_type: FrequencyType::Once,
            days_of_week: ReminderDaysOfWeek::empty(),
            time_of_day: ReminderTimeOfDay::Time { time: now },
        }
    }

    /// Builds the reminder the form describes and resets the form.
    pub fn take_reminder(&mut self, today: CalendarDate, now: ClockTime) -> (r: Reminder)
        ensures
            is_new_reminder(r, *old(self), today),
            is_blank_form(*final(self), now),
    {
        let time = self.time_of_day;
        let frequency = match self.frequency_type {
            FrequencyType::Once => ReminderFrequency::Once(ReminderFrequencyOnce { date: today, time }),
            FrequencyType::Daily => ReminderFrequency::Daily(ReminderFrequencyDaily { time }),
            FrequencyType::Weekly => ReminderFrequency::Weekly(
                ReminderFrequencyWeekly { days: ReminderDaysOfWeek::all(), time },
            ),
            FrequencyType::Monthly => {
                let mut dates: Vec<u8> = Vec::new();
                dates.push(1);
                dates.push(2);
                dates.push(8);
                assert(dates@ =~= seq![1u8, 2u8, 8u8]);
                ReminderFrequency::Monthly(ReminderFrequencyMonthly { dates, time })
            },
            FrequencyType::Yearly => {
                let mut dates: Vec<ReminderYearlyDate> = Vec::new();
                dates.push(ReminderYearlyDate { month: ReminderMonth::January, date: 4 });
                assert(dates@ =~= seq![ReminderYearlyDate { month: ReminderMonth::January, date: 4 }]);
                ReminderFrequency::Yearly(ReminderFrequencyYearly { dates, time })
            },
        };
        let message = self.title.clone();
        *self = AddReminderPageState::new(now);
        Reminder { frequency, message, completed: false }
    }
}

/// A page for adding a reminder.
pub struct AddReminderPage<F> {
    on_add: Option<F>,
}

/// Creates an [`AddReminderPage`] with no callback.
pub fn add_reminder_page<F>() -> (r: AddReminderPage<F>)
    ensures
        r.callback() is None,
{
    AddReminderPage { on_add: None }
}

impl<F> AddReminderPage<F> {
    /// The callback for added reminders.
    pub closed spec fn callback(&self) -> Option<F> {
        self.on_add
    }

    /// Sets the function to be called when a reminder is added.
    pub fn on_add<G>(self, f: G) -> (r: AddReminderPage<G>)
        ensures
            r.callback() == Some(f),
    {
        AddReminderPage { on_add: Some(f) }
    }

    /// Handles an event. Adding builds the reminder from the form (dated
    /// `today` when it occurs once), resets the form to the blank one at
    /// `now` and reports the reminder, if there is a callback; the other
    /// events edit the form and report nothing.
    pub fn update<M>(
        &self,
        state: &mut AddReminderPageState,
        event: AddReminderPageEvent,
        today: CalendarDate,
        now: ClockTime,
    ) -> (r: Option<M>) where F: Fn(Reminder) -> M
        requires
            self.callback() matches Some(f) ==> forall|x: Reminder| f.requires((x,)),
        ensures
            match event {
                AddReminderPageEvent::AddReminder => {
                    &&& is_blank_form(*final(state), now)
                    &&& (r is Some <==> self.callback() is Some)
                    &&& (r matches Some(m) ==> exists|x: Reminder|
                        is_new_reminder(x, *old(state), today) && self.callback().unwrap().ensures(
                            (x,),
                            m,
                        ))
                },
                AddReminderPageEvent::SetTitle(title) => {
                    &&& final(state).title@ == title@
                    &&& final(state).frequency_type == old(state).frequency_type
                    &&& final(state).days_of_week == old(state).days_of_week
                    &&& final(state).time_of_day == old(state).time_of_day
                    &&& r is None
                },
                AddReminderPageEvent::SetFrequencyType(kind) => {
                    &&& final(state).title@ == old(state).title@
                    &&& final(state).frequency_type == kind
                    &&& final(state).days_of_week == old(state).days_of_week
                    &&& final(state).time_of_day == old(state).time_of_day
                    &&& r is None
                },
                AddReminderPageEvent::SetDaysOfWeek(days) => {
                    &&& final(state).title@ == old(state).title@
                    &&& final(state).frequency_type == old(state).frequency_type
                    &&& final(state).days_of_week == days
                    &&& final(state).time_of_day == old(state).time_of_day
                    &&& r is None
                },
                AddReminderPageEvent::SetTimeOfDay(time) => {
                    &&& final(state).title@ == old(state).title@
                    &&& final(state).frequency_type == old(state).frequency_type
                    &&& final(state).days_of_week == old(state).days_of_week
                    &&& final(state).time_of_day == time
                    &&& r is None
                },
            },
    {
        match event {
            AddReminderPageEvent::AddReminder => {
                let added = state.take_reminder(today, now);
                match &self.on_add {
                    Some(f) => Some(f(added)),
                    None => None,
                }
            },
            AddReminderPageEvent::SetTitle(title) => {
                state.title = title;
                None
            },
            AddReminderPageEvent::SetFrequencyType(kind) => {
                state.frequency_type = kind;
                None
            },
            AddReminderPageEvent::SetDaysOfWeek(days) => {
                state.days_of_week = days;
                None
            },
            AddReminderPageEvent::SetTimeOfDay(time) => {
                state.time_of_day = time;
                None
            },
        }
    }
}

} // verus!
