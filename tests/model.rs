use desktop_reminders::add_reminder::{
    add_reminder_page, AddReminderPageEvent, AddReminderPageState, FrequencyType,
};
use desktop_reminders::app::{App, AppMessage, AppTab};
use desktop_reminders::decimal::{push_decimal, push_two_digits};
use desktop_reminders::components::{
    days_of_week, reminder, reminder_page, DaysOfWeekComponentEvent, ReminderComponentEvent,
    ReminderList, ReminderPageEvent, ReminderView,
};
use desktop_reminders::days::{
    ReminderDaysOfWeek, ALL_DAYS, FRIDAY, MONDAY, MWF, SATURDAY, SUNDAY, THURSDAY, TTH, TUESDAY,
    WEDNESDAY, WEEKDAYS, WEEKENDS,
};
use desktop_reminders::ids::{ComponentId, IdTree};
use desktop_reminders::reminder::{
    selected_text, Reminder, ReminderFrequency, ReminderFrequencyDaily, ReminderFrequencyMonthly,
    ReminderFrequencyOnce, ReminderFrequencyWeekly, ReminderFrequencyYearly, ReminderMonth,
    ReminderTimeOfDay, ReminderYearlyDate,
};
use desktop_reminders::tab::{tab_button, tab_list, Tab, TabEvent, TabListEvent};
use desktop_reminders::time::{leap_year, month_length, CalendarDate, ClockTime};
use desktop_reminders::time_of_day::{
    time_of_day, TimeOfDayComponentEvent, TimeOfDayComponentState, TimeOfDayKind,
};

fn hm(hour: u32, minute: u32) -> ClockTime {
    ClockTime::from_hms(hour, minute, 0).unwrap()
}

#[test]
fn clock_time_bounds() {
    assert!(ClockTime::from_hms(23, 59, 59).is_some());
    assert!(ClockTime::from_hms(24, 0, 0).is_none());
    assert!(ClockTime::from_hms(0, 60, 0).is_none());
    assert!(ClockTime::from_hms(0, 0, 60).is_none());
    let t = ClockTime::from_hms(16, 30, 5).unwrap();
    assert_eq!((t.hour(), t.minute(), t.second()), (16, 30, 5));
    assert_eq!(ClockTime::midnight(), hm(0, 0));
}

#[test]
fn twelve_hour_clock() {
    assert_eq!(hm(0, 0).hour12(), (false, 12));
    assert_eq!(hm(2, 45).hour12(), (false, 2));
    assert_eq!(hm(12, 30).hour12(), (true, 12));
    assert_eq!(hm(16, 30).hour12(), (true, 4));
    assert_eq!(hm(23, 0).hour12(), (true, 11));
}

#[test]
fn twelve_hour_labels() {
    assert_eq!(hm(14, 45).label_12h(), "2:45 PM");
    assert_eq!(hm(0, 5).label_12h(), "12:05 AM");
    assert_eq!(hm(12, 30).label_12h(), "12:30 PM");
    assert_eq!(hm(9, 0).label_12h(), "9:00 AM");
    assert_eq!(hm(23, 59).label_12h(), "11:59 PM");
}

#[test]
fn adding_hours_wraps_at_midnight() {
    assert_eq!(hm(10, 15).add_hours(1), hm(11, 15));
    assert_eq!(hm(23, 40).add_hours(1), hm(0, 40));
    assert_eq!(hm(5, 0).add_hours(48), hm(5, 0));
    assert_eq!(hm(5, 0).add_hours(u32::MAX), hm(20, 0));
}

#[test]
fn calendar_dates() {
    assert!(leap_year(2024));
    assert!(!leap_year(2023));
    assert!(!leap_year(1900));
    assert!(leap_year(2000));
    assert_eq!(month_length(2023, 2), 28);
    assert_eq!(month_length(2024, 2), 29);
    assert_eq!(month_length(2023, 4), 30);
    assert_eq!(month_length(2023, 12), 31);
    let d = CalendarDate::from_ymd(2023, 2, 15).unwrap();
    assert_eq!((d.year(), d.month(), d.day()), (2023, 2, 15));
    assert!(CalendarDate::from_ymd(2023, 2, 29).is_none());
    assert!(CalendarDate::from_ymd(2024, 2, 29).is_some());
    assert!(CalendarDate::from_ymd(2023, 13, 1).is_none());
    assert!(CalendarDate::from_ymd(2023, 0, 1).is_none());
    assert!(CalendarDate::from_ymd(2023, 1, 0).is_none());
}

#[test]
fn days_of_week_sets() {
    let mut days = ReminderDaysOfWeek::empty();
    assert!(days.is_empty());
    days.insert(ReminderDaysOfWeek::from_bits_truncate(MONDAY));
    days.set(ReminderDaysOfWeek::from_bits_truncate(FRIDAY), true);
    assert_eq!(days.bits(), MONDAY | FRIDAY);
    assert!(days.contains(ReminderDaysOfWeek::from_bits_truncate(FRIDAY)));
    assert!(!days.contains(ReminderDaysOfWeek::from_bits_truncate(MWF)));
    days.set(ReminderDaysOfWeek::from_bits_truncate(MONDAY), false);
    assert_eq!(days.bits(), FRIDAY);
    days.toggle(ReminderDaysOfWeek::from_bits_truncate(FRIDAY | SUNDAY));
    assert_eq!(days.bits(), SUNDAY);
    days.remove(ReminderDaysOfWeek::from_bits_truncate(SUNDAY));
    assert!(days.is_empty());
    assert_eq!(ReminderDaysOfWeek::all().bits(), ALL_DAYS);
    assert_eq!(ReminderDaysOfWeek::from_bits_truncate(0xff).bits(), 0x7f);
}

#[test]
fn days_of_week_labels() {
    let label = |bits| ReminderDaysOfWeek::from_bits_truncate(bits).label();
    assert_eq!(label(WEEKDAYS), "Weekdays");
    assert_eq!(label(WEEKENDS), "Weekends");
    assert_eq!(label(MWF), "MWF");
    assert_eq!(label(TTH), "TTH");
    assert_eq!(label(MONDAY | TUESDAY | SUNDAY), "Mon, Tue, Sun");
    assert_eq!(label(SATURDAY), "Sat");
    assert_eq!(label(WEDNESDAY | THURSDAY), "Wed, Thu");
    assert_eq!(label(0), "");
    assert_eq!(label(ALL_DAYS), "Mon, Tue, Wed, Thu, Fri, Sat, Sun");
}

#[test]
fn month_names() {
    assert_eq!(ReminderMonth::January.name(), "January");
    assert_eq!(ReminderMonth::September.name(), "September");
    assert_eq!(ReminderMonth::December.name(), "December");
    assert_eq!(ReminderMonth::default(), ReminderMonth::January);
}

#[test]
fn frequency_kinds_and_times() {
    let time = ReminderTimeOfDay::Time { time: hm(9, 0) };
    let once = ReminderFrequency::Once(ReminderFrequencyOnce {
        date: CalendarDate::from_ymd(2023, 2, 15).unwrap(),
        time,
    });
    let daily = ReminderFrequency::Daily(ReminderFrequencyDaily::default());
    let weekly = ReminderFrequency::Weekly(ReminderFrequencyWeekly::default());
    let monthly = ReminderFrequency::Monthly(ReminderFrequencyMonthly { dates: vec![3], time });
    let yearly = ReminderFrequency::Yearly(ReminderFrequencyYearly::default());
    assert!(once.is_once() && !once.is_daily());
    assert!(daily.is_daily() && !daily.is_weekly());
    assert!(weekly.is_weekly() && !weekly.is_monthly());
    assert!(monthly.is_monthly() && !monthly.is_yearly());
    assert!(yearly.is_yearly() && !yearly.is_once());
    assert_eq!(*once.time_of_day(), time);
    assert_eq!(*daily.time_of_day(), ReminderTimeOfDay::AllDay);
    assert_eq!(*monthly.time_of_day(), time);
    assert_eq!(selected_text(&once), "Once");
    assert_eq!(selected_text(&daily), "Daily");
    assert_eq!(selected_text(&weekly), "Weekly");
    assert_eq!(selected_text(&monthly), "Monthly");
    assert_eq!(selected_text(&yearly), "Yearly");
    let date = ReminderYearlyDate::default();
    assert_eq!((date.month, date.date), (ReminderMonth::January, 1));
    assert_eq!(ReminderTimeOfDay::default(), ReminderTimeOfDay::AllDay);
}

#[test]
fn tab_button_reports_selection() {
    let plain = tab_button::<fn() -> u32>("Home").selected(true);
    assert_eq!(plain.update::<u32>(TabEvent::Selected), None);
    let button = tab_button::<fn() -> u32>("Home").on_select(|| 5u32);
    assert_eq!(button.update(TabEvent::Selected), Some(5));
}

#[test]
fn tab_list_reports_selected_id() {
    let tabs = vec![Tab::new("A", 1u8, true), Tab::new("B", 2u8, false)];
    assert_eq!(tabs[0].label, "A");
    assert!(tabs[0].selected);
    let list = tab_list::<u8, fn(u8) -> u8>(tabs).on_selected(|id: u8| id * 10);
    assert_eq!(list.tabs().len(), 2);
    assert_eq!(list.update(TabListEvent::TabSelected(2)), Some(20));
}

#[test]
fn days_of_week_component_updates_value() {
    let mut component = days_of_week::<fn(ReminderDaysOfWeek) -> u8>(
        ReminderDaysOfWeek::from_bits_truncate(MONDAY),
    )
    .on_change(|d: ReminderDaysOfWeek| d.bits());
    let set_friday =
        DaysOfWeekComponentEvent::SetDays(ReminderDaysOfWeek::from_bits_truncate(FRIDAY), true);
    assert_eq!(component.update(set_friday), Some(MONDAY | FRIDAY));
    let unset_monday =
        DaysOfWeekComponentEvent::SetDays(ReminderDaysOfWeek::from_bits_truncate(MONDAY), false);
    assert_eq!(component.update(unset_monday), Some(FRIDAY));
    assert_eq!(component.current().bits(), FRIDAY);
}

#[test]
fn time_of_day_component_switches_kinds() {
    let mut state = TimeOfDayComponentState::new(hm(9, 0));
    assert_eq!(state.end, hm(10, 0));
    let mut component = time_of_day::<fn(ReminderTimeOfDay) -> ReminderTimeOfDay>(
        ReminderTimeOfDay::AllDay,
    )
    .on_change(|t: ReminderTimeOfDay| t);
    assert_eq!(component.selected_kind(), TimeOfDayKind::AllDay);

    let r = component.update(&mut state, TimeOfDayComponentEvent::TabSelected(TimeOfDayKind::Time));
    assert_eq!(r, Some(ReminderTimeOfDay::Time { time: hm(9, 0) }));

    let r = component.update(&mut state, TimeOfDayComponentEvent::SetStartTimeStarted);
    assert_eq!(r, None);
    assert!(state.setting_start);
    let r = component.update(&mut state, TimeOfDayComponentEvent::SetStartTime(hm(8, 15)));
    assert_eq!(r, Some(ReminderTimeOfDay::Time { time: hm(8, 15) }));
    assert!(!state.setting_start);

    let r = component.update(&mut state, TimeOfDayComponentEvent::TabSelected(TimeOfDayKind::TimeRange));
    assert_eq!(r, Some(ReminderTimeOfDay::TimeRange { start: hm(8, 15), end: hm(10, 0) }));
    let r = component.update(&mut state, TimeOfDayComponentEvent::SetEndTime(hm(11, 0)));
    assert_eq!(r, Some(ReminderTimeOfDay::TimeRange { start: hm(8, 15), end: hm(11, 0) }));

    let r = component.update(&mut state, TimeOfDayComponentEvent::TabSelected(TimeOfDayKind::AllDay));
    assert_eq!(r, Some(ReminderTimeOfDay::AllDay));
    assert_eq!((state.start, state.end), (hm(8, 15), hm(11, 0)));

    let r = component.update(&mut state, TimeOfDayComponentEvent::SetEndTimeStarted);
    assert_eq!(r, None);
    assert!(state.setting_end);
    let r = component.update(&mut state, TimeOfDayComponentEvent::SetEndTimeCancelled);
    assert_eq!(r, None);
    assert!(!state.setting_end);
    assert_eq!(component.current(), ReminderTimeOfDay::AllDay);
}

fn sample(message: &str) -> Reminder {
    Reminder {
        frequency: ReminderFrequency::Daily(ReminderFrequencyDaily::default()),
        message: message.to_string(),
        completed: false,
    }
}

#[test]
fn reminder_component_and_page_report_toggles() {
    let item = sample("Water plants");
    let row = reminder::<fn(bool) -> bool>(&item).on_completed_changed(|b: bool| !b);
    assert_eq!(row.reminder().message, "Water plants");
    assert_eq!(row.update(ReminderComponentEvent::CompletedChanged(true)), Some(false));

    let items = vec![sample("a"), sample("b")];
    let page = reminder_page::<fn(usize, bool) -> (usize, bool)>(&items)
        .on_toggle(|i: usize, b: bool| (i, b));
    assert_eq!(page.reminders().len(), 2);
    assert_eq!(page.update(ReminderPageEvent::CompletedChanged(1, true)), Some((1, true)));

    let list = ReminderList::new(&items);
    assert_eq!(list.reminders.len(), 2);
    let mut editable = sample("c");
    let _view = ReminderView::new(&mut editable);
}

#[test]
fn add_reminder_page_builds_reminders() {
    let now = hm(7, 5);
    let today = CalendarDate::from_ymd(2024, 3, 1).unwrap();
    let page = add_reminder_page::<fn(Reminder) -> Reminder>().on_add(|r: Reminder| r);
    let mut state = AddReminderPageState::new(now);
    assert_eq!(state.frequency_type, FrequencyType::Once);
    assert_eq!(state.time_of_day, ReminderTimeOfDay::Time { time: now });

    assert!(page.update(&mut state, AddReminderPageEvent::SetTitle("Call mom".to_string()), today, now).is_none());
    assert_eq!(state.title, "Call mom");
    let added = page.update(&mut state, AddReminderPageEvent::AddReminder, today, now).unwrap();
    assert_eq!(added.message, "Call mom");
    assert!(!added.completed);
    assert_eq!(
        added.frequency,
        ReminderFrequency::Once(ReminderFrequencyOnce { date: today, time: ReminderTimeOfDay::Time { time: now } })
    );
    assert_eq!(state.title, "");

    let later = hm(8, 0);
    page.update(&mut state, AddReminderPageEvent::SetFrequencyType(FrequencyType::Monthly), today, now);
    page.update(&mut state, AddReminderPageEvent::SetTimeOfDay(ReminderTimeOfDay::AllDay), today, now);
    page.update(
        &mut state,
        AddReminderPageEvent::SetDaysOfWeek(ReminderDaysOfWeek::from_bits_truncate(TTH)),
        today,
        now,
    );
    assert_eq!(state.days_of_week.bits(), TTH);
    let added = page.update(&mut state, AddReminderPageEvent::AddReminder, today, later).unwrap();
    assert_eq!(
        added.frequency,
        ReminderFrequency::Monthly(ReminderFrequencyMonthly { dates: vec![1, 2, 8], time: ReminderTimeOfDay::AllDay })
    );
    assert_eq!(state.time_of_day, ReminderTimeOfDay::Time { time: later });
    assert_eq!(state.frequency_type, FrequencyType::Once);
    assert!(state.days_of_week.is_empty());

    page.update(&mut state, AddReminderPageEvent::SetFrequencyType(FrequencyType::Weekly), today, now);
    let added = page.update(&mut state, AddReminderPageEvent::AddReminder, today, now).unwrap();
    match added.frequency {
        ReminderFrequency::Weekly(w) => assert_eq!(w.days.bits(), ALL_DAYS),
        other => panic!("unexpected frequency {:?}", other),
    }

    page.update(&mut state, AddReminderPageEvent::SetFrequencyType(FrequencyType::Yearly), today, now);
    let added = page.update(&mut state, AddReminderPageEvent::AddReminder, today, now).unwrap();
    assert_eq!(
        added.frequency,
        ReminderFrequency::Yearly(ReminderFrequencyYearly {
            dates: vec![ReminderYearlyDate { month: ReminderMonth::January, date: 4 }],
            time: ReminderTimeOfDay::Time { time: now },
        })
    );

    let silent = add_reminder_page::<fn(Reminder) -> Reminder>();
    assert!(silent.update(&mut state, AddReminderPageEvent::AddReminder, today, now).is_none());
    assert_eq!(FrequencyType::default(), FrequencyType::Once);
}

#[test]
fn app_handles_messages() {
    let mut app = App::with_test_reminders();
    assert_eq!(app.tab(), AppTab::Reminders);
    assert_eq!(app.reminders().len(), 6);
    assert_eq!(app.reminders()[0].message, "Do work");
    assert_eq!(app.reminders()[2].message, "Thing #1");
    assert_eq!(app.reminders()[5].message, "Thing #2");

    app.update(AppMessage::TabSelected(AppTab::Settings));
    assert_eq!(app.tab(), AppTab::Settings);
    app.update(AppMessage::ReminderToggled(1, true));
    assert!(app.reminders()[1].completed);
    assert!(!app.reminders()[0].completed);
    app.update(AppMessage::ReminderToggled(99, true));
    assert_eq!(app.reminders().len(), 6);
    app.update(AppMessage::AddReminder(sample("new")));
    assert_eq!(app.reminders().len(), 7);
    assert_eq!(app.reminders()[6].message, "new");
    assert_eq!(app.tab(), AppTab::Reminders);
    assert_eq!(AppTab::default(), AppTab::Reminders);
}

#[test]
fn default_app_lists_sample_reminders() {
    let app = App::default();
    assert_eq!(app.reminders().len(), 102);
    assert_eq!(app.reminders()[1].message, "Dunno");
    assert_eq!(app.reminders()[2].message, "Reminder 1");
    assert_eq!(app.reminders()[11].message, "Reminder 10");
    assert_eq!(app.reminders()[101].message, "Reminder 100");
}

#[test]
fn decimal_numbers() {
    let mut s = String::from("n=");
    push_decimal(&mut s, 0);
    assert_eq!(s, "n=0");
    let mut s = String::new();
    push_decimal(&mut s, 4294967295);
    assert_eq!(s, "4294967295");
    let mut s = String::new();
    push_two_digits(&mut s, 7);
    push_two_digits(&mut s, 42);
    assert_eq!(s, "0742");
}

#[test]
fn identifiers_form_paths() {
    let root = ComponentId::new("reminders");
    let child = root.child("list").child("item");
    assert_eq!(child.to_path_string(), "reminders/list/item");
    assert_eq!(root.to_path_string(), "reminders");
    assert_ne!(root, child);
    assert_eq!(root.child("list"), ComponentId::new("reminders").child("list"));

    let tree = IdTree::new("month").child("frequency");
    assert_eq!(tree.to_path_string(), "month.frequency");
    assert_eq!(IdTree::new("x").to_path_string(), "x");
}
