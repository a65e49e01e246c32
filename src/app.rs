use vstd::prelude::*;

use crate::days::{ReminderDaysOfWeek, WEEKDAYS};
use crate::reminder::{
    Reminder, ReminderFrequency, ReminderFrequencyDaily, ReminderFrequencyOnce,
    ReminderFrequencyWeekly, ReminderTimeOfDay,
};
use crate::decimal::{decimal, push_decimal};
use crate::time::{CalendarDate, ClockTime};

verus! {

/// A page of the app.
#[derive(Clone, Copy, PartialEq, Eq, Structural, Debug, Hash)]
pub enum AppTab {
    /// The list of reminders.
    Reminders,
    /// The form for a new reminder.
    AddReminder,
    /// The settings.
    Settings,
}

impl Default for AppTab {
    /// The list of reminders.
    fn default() -> (r: Self)
        ensures
            r == AppTab::Reminders,
    {
        AppTab::Reminders
    }
}

/// A message to the app.
#[derive(Clone, Debug)]
pub enum AppMessage {
    /// A tab was selected.
    TabSelected(AppTab),
    /// A reminder was added.
    AddReminder(Reminder),
    /// The reminder at the index was marked completed or not.
    ReminderToggled(usize, bool),
}

/// The app's state: the page shown and the reminders.
pub struct App {
    tab: AppTab,
    reminders: Vec<Reminder>,
}

/// Whether `r` is a reminder with the message `message`, the frequency
/// `frequency`, not completed.
pub open spec fn is_reminder(r: Reminder, message: Seq<char>, frequency: ReminderFrequency) -> bool {
    r.message@ == message && r.frequency == frequency && !r.completed
}

/// Whether `f` is weekly on weekdays at `time`.
pub open spec fn is_weekdays(f: ReminderFrequency, time: ReminderTimeOfDay) -> bool {
    f matches ReminderFrequency::Weekly(w) && w.days.bits_view() == WEEKDAYS && w.time == time
}

/// Whether `t` is the time `hour`:`minute`:00.
pub open spec fn is_clock(t: ClockTime, hour: nat, minute: nat) -> bool {
    t.hour_view() == hour && t.minute_view() == minute && t.second_view() == 0
}

/// Whether `time` is the range from 12:30 to 16:30.
pub open spec fn is_afternoon(time: ReminderTimeOfDay) -> bool {
    time matches ReminderTimeOfDay::TimeRange { start, end } && is_clock(start, 12, 30) && is_clock(
        end,
        16,
        30,
    )
}

/// Whether `f` is daily at 2:45.
pub open spec fn is_daily_at_quarter_to_three(f: ReminderFrequency) -> bool {
    f matches ReminderFrequency::Daily(d) && d.time matches ReminderTimeOfDay::Time { time } && is_clock(
        time,
        2,
        45,
    )
}

/// Whether `f` is once, on 15 February 2023 at 12:30.
pub open spec fn is_one_off_noon_thirty(f: ReminderFrequency) -> bool {
    &&& f matches ReminderFrequency::Once(o)
    &&& o.date.year_view() == 2023 && o.date.month_view() == 2 && o.date.day_view() == 15
    &&& o.time matches ReminderTimeOfDay::Time { time }
    &&& is_clock(time, 12, 30)
}

impl App {
    /// The page shown.
    pub closed spec fn tab_view(&self) -> AppTab {
        self.tab
    }

    /// The reminders.
    pub closed spec fn reminders_view(&self) -> Seq<Reminder> {
        self.reminders@
    }

    /// The page shown.
    pub fn tab(&self) -> (r: AppTab)
        ensures
            r == self.tab_view(),
    {
        self.tab
    }

    /// The reminders.
    pub fn reminders(&self) -> (r: &Vec<Reminder>)
        ensures
            r@ == self.reminders_view(),
    {
        &self.reminders
    }

    /// The two weekday reminders every sample list starts with.
    fn weekday_reminders() -> (r: Vec<Reminder>)
        ensures
            r@.len() == 2,
            is_weekdays(r@[0].frequency, ReminderTimeOfDay::AllDay),
            r@[0].message@ == "Do work"@ && !r@[0].completed,
            r@[1].frequency matches ReminderFrequency::Weekly(w) && w.days.bits_view() == WEEKDAYS
                && is_afternoon(w.time),
            r@[1].message@ == "Dunno"@ && !r@[1].completed,
    {
        let start = ClockTime::from_hms(12, 30, 0).unwrap();
        let end = ClockTime::from_hms(16, 30, 0).unwrap();
        let mut reminders: Vec<Reminder> = Vec::new();
        reminders.push(
            Reminder {
                frequency: ReminderFrequency::Weekly(
                    ReminderFrequencyWeekly {
                        days: ReminderDaysOfWeek::from_bits_truncate(WEEKDAYS),
                        time: ReminderTimeOfDay::AllDay,
                    },
                ),
                message: "Do work".to_string(),
                completed: false,
            },
        );
        reminders.push(
            Reminder {
                frequency: ReminderFrequency::Weekly(
                    ReminderFrequencyWeekly {
                        days: ReminderDaysOfWeek::from_bits_truncate(WEEKDAYS),
                        time: ReminderTimeOfDay::TimeRange { start, end },
                    },
                ),
                message: "Dunno".to_string(),
                completed: false,
            },
        );
        assert(WEEKDAYS & 0x7f == WEEKDAYS) by (bit_vector);
        reminders
    }

    /// The app with a sample list: the two weekday reminders, a one-off
    /// reminder on 15 February 2023 at 12:30, and three daily ones at 2:45.
    pub fn with_test_reminders() -> (r: Self)
        ensures
            r.tab_view() == AppTab::Reminders,
            r.reminders_view().len() == 6,
            is_weekdays(r.reminders_view()[0].frequency, ReminderTimeOfDay::AllDay),
            r.reminders_view()[0].message@ == "Do work"@,
            r.reminders_view()[1].frequency matches ReminderFrequency::Weekly(w)
                && w.days.bits_view() == WEEKDAYS && is_afternoon(w.time),
            r.reminders_view()[1].message@ == "Dunno"@,
            is_one_off_noon_thirty(r.reminders_view()[2].frequency),
            r.reminders_view()[2].message@ == "Thing #1"@,
            forall|i: int| 3 <= i < 6 ==> is_daily_at_quarter_to_three(#[trigger] r.reminders_view()[i].frequency)
                && r.reminders_view()[i].message@ == "Thing #2"@,
            forall|i: int| 0 <= i < 6 ==> !(#[trigger] r.reminders_view()[i]).completed,
    {
        let mut reminders = App::weekday_reminders();
        let noon_thirty = ClockTime::from_hms(12, 30, 0).unwrap();
        let date = CalendarDate::from_ymd(2023, 2, 15).unwrap();
        reminders.push(
            Reminder {
                frequency: ReminderFrequency::Once(
                    ReminderFrequencyOnce { date, time: ReminderTimeOfDay::Time { time: noon_thirty } },
                ),
                message: "Thing #1".to_string(),
                completed: false,
            },
        );
        let quarter_to_three = ClockTime::from_hms(2, 45, 0).unwrap();
        let mut k: usize = 0;
        while k < 3
            invariant
                0 <= k <= 3,
                reminders@.len() == 3 + k,
                is_clock(quarter_to_three, 2, 45),
                is_weekdays(reminders@[0].frequency, ReminderTimeOfDay::AllDay),
                reminders@[0].message@ == "Do work"@,
                reminders@[1].frequency matches ReminderFrequency::Weekly(w) && w.days.bits_view()
                    == WEEKDAYS && is_afternoon(w.time),
                reminders@[1].message@ == "Dunno"@,
                is_one_off_noon_thirty(reminders@[2].frequency),
                reminders@[2].message@ == "Thing #1"@,
                forall|i: int| 3 <= i < 3 + k ==> is_daily_at_quarter_to_three(#[trigger] reminders@[i].frequency)
                    && reminders@[i].message@ == "Thing #2"@,
                forall|i: int| 0 <= i < 3 + k ==> !(#[trigger] reminders@[i]).completed,
            decreases 3 - k,
        {
            reminders.push(
                Reminder {
                    frequency: ReminderFrequency::Daily(
                        ReminderFrequencyDaily {
                            time: ReminderTimeOfDay::Time { time: quarter_to_three },
                        },
                    ),
                    message: "Thing #2".to_string(),
                    completed: false,
                },
            );
            k = k + 1;
        }
        App { tab: AppTab::Reminders, reminders }
    }

    /// Handles a message: selecting a tab shows it; adding a reminder
    /// appends it and shows the list; toggling sets the completed state of
    /// the reminder at the index, if there is one.
    pub fn update(&mut self, message: AppMessage)
        ensures
            match message {
                AppMessage::TabSelected(tab) => final(self).tab_view() == tab
                    && final(self).reminders_view() == old(self).reminders_view(),
                AppMessage::AddReminder(added) => final(self).tab_view() == AppTab::Reminders
                    && final(self).reminders_view() == old(self).reminders_view().push(added),
                AppMessage::ReminderToggled(index, checked) => final(self).tab_view() == old(
                    self,
                ).tab_view() && final(self).reminders_view() == if index < old(
                    self,
                ).reminders_view().len() {
                    old(self).reminders_view().update(
                        index as int,
                        Reminder { completed: checked, ..old(self).reminders_view()[index as int] },
                    )
                } else {
                    old(self).reminders_view()
                },
            },
    {
        match message {
            AppMessage::TabSelected(tab) => {
                self.tab = tab;
            },
            AppMessage::AddReminder(added) => {
                self.reminders.push(added);
                self.tab = AppTab::Reminders;
            },
            AppMessage::ReminderToggled(index, checked) => {
                if index < self.reminders.len() {
                    let ghost before = self.reminders@;
                    let mut item = self.reminders.remove(index);
                    item.completed = checked;
                    self.reminders.insert(index, item);
                    assert(self.reminders@ =~= before.update(
                        index as int,
                        Reminder { completed: checked, ..before[index as int] },
                    ));
                }
            },
        }
    }
}

impl Default for App {
    /// The list page, with the two weekday reminders followed by a hundred
    /// daily all-day ones, "Reminder 1" to "Reminder 100".
    fn default() -> (r: Self)
        ensures
            r.tab_view() == AppTab::Reminders,
            r.reminders_view().len() == 102,
            is_weekdays(r.reminders_view()[0].frequency, ReminderTimeOfDay::AllDay),
            r.reminders_view()[0].message@ == "Do work"@,
            r.reminders_view()[1].frequency matches ReminderFrequency::Weekly(w)
                && w.days.bits_view() == WEEKDAYS && is_afternoon(w.time),
            r.reminders_view()[1].message@ == "Dunno"@,
            forall|i: int|
                2 <= i < 102 ==> #[trigger] r.reminders_view()[i].frequency == ReminderFrequency::Daily(
                    ReminderFrequencyDaily { time: ReminderTimeOfDay::AllDay },
                ) && r.reminders_view()[i].message@ == "Reminder "@ + decimal((i - 1) as nat),
            forall|i: int| 0 <= i < 102 ==> !(#[trigger] r.reminders_view()[i]).completed,
    {
        let mut reminders = App::weekday_reminders();
        let mut idx: u32 = 1;
        while idx <= 100
            invariant
                1 <= idx <= 101,
                reminders@.len() == idx + 1,
                is_weekdays(reminders@[0].frequency, ReminderTimeOfDay::AllDay),
                reminders@[0].message@ == "Do work"@,
                reminders@[1].frequency matches ReminderFrequency::Weekly(w) && w.days.bits_view()
                    == WEEKDAYS && is_afternoon(w.time),
                reminders@[1].message@ == "Dunno"@,
                forall|i: int|
                    2 <= i < idx + 1 ==> #[trigger] reminders@[i].frequency == ReminderFrequency::Daily(
                        ReminderFrequencyDaily { time: ReminderTimeOfDay::AllDay },
                    ) && reminders@[i].message@ == "Reminder "@ + decimal((i - 1) as nat),
                forall|i: int| 0 <= i < idx + 1 ==> !(#[trigger] reminders@[i]).completed,
            decreases 101 - idx,
        {
            let mut message = "Reminder ".to_string();
            push_decimal(&mut message, idx);
            reminders.push(
                Reminder {
                    frequency: ReminderFrequency::Daily(
                        ReminderFrequencyDaily { time: ReminderTimeOfDay::AllDay },
                    ),
                    message,
                    completed: false,
                },
            );
            idx = idx + 1;
        }
        App { tab: AppTab::Reminders, reminders }
    }
}

} // verus!
