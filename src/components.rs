use vstd::prelude::*;

use crate::days::ReminderDaysOfWeek;
use crate::reminder::Reminder;

verus! {

/// An event of a [`DaysOfWeekComponent`].
#[derive(Clone, Copy, PartialEq, Eq, Structural, Debug, Hash)]
pub enum DaysOfWeekComponentEvent {
    /// Sets whether the given days are enabled.
    SetDays(ReminderDaysOfWeek, bool),
}

/// A component for choosing days of the week.
pub struct DaysOfWeekComponent<F> {
    value: ReminderDaysOfWeek,
    on_change: Option<F>,
}

/// Creates a [`DaysOfWeekComponent`] showing `value`, with no change
/// callback.
pub fn days_of_week<F>(value: ReminderDaysOfWeek) -> (r: DaysOfWeekComponent<F>)
    ensures
        r.value() == value,
        r.callback() is None,
{
    DaysOfWeekComponent { value, on_change: None }
}

impl<F> DaysOfWeekComponent<F> {
    /// The days shown.
    pub closed spec fn value(&self) -> ReminderDaysOfWeek {
        self.value
    }

    /// The change callback.
    pub closed spec fn callback(&self) -> Option<F> {
        self.on_change
    }

    /// The days shown.
    pub fn current(&self) -> (r: ReminderDaysOfWeek)
        ensures
            r == self.value(),
    {
        self.value
    }

    /// Sets the function to be called when the days change.
    pub fn on_change<G>(self, f: G) -> (r: DaysOfWeekComponent<G>)
        ensures
            r.value() == self.value(),
            r.callback() == Some(f),
    {
        DaysOfWeekComponent { value: self.value, on_change: Some(f) }
    }

    /// Handles an event: enables or disables the given days and reports the
    /// new set, if there is a callback.
    pub fn update<M>(&mut self, event: DaysOfWeekComponentEvent) -> (r: Option<M>) where
        F: Fn(ReminderDaysOfWeek) -> M,
        requires
            old(self).callback() matches Some(f) ==> forall|d: ReminderDaysOfWeek| f.requires((d,)),
        ensures
            final(self).callback() == old(self).callback(),
            event matches DaysOfWeekComponentEvent::SetDays(days, enabled) && final(self).value().bits_view()
                == if enabled {
                old(self).value().bits_view() | days.bits_view()
            } else {
                old(self).value().bits_view() & !days.bits_view()
            },
            r is Some <==> old(self).callback() is Some,
            r matches Some(m) ==> old(self).callback().unwrap().ensures((final(self).value(),), m),
    {
        match event {
            DaysOfWeekComponentEvent::SetDays(days, enabled) => {
                self.value.set(days, enabled);
                match &self.on_change {
                    Some(f) => Some(f(self.value)),
                    None => None,
                }
            },
        }
    }
}

/// An event of a [`ReminderComponent`].
#[derive(Clone, Copy, PartialEq, Eq, Structural, Debug, Hash)]
pub enum ReminderComponentEvent {
    /// The completed state changed.
    CompletedChanged(bool),
}

/// A component showing one [`Reminder`].
pub struct ReminderComponent<'a, F> {
    reminder: &'a Reminder,
    on_completed_changed: Option<F>,
}

/// Creates a [`ReminderComponent`] for `reminder`, with no callback.
pub fn reminder<'a, F>(item: &'a Reminder) -> (r: ReminderComponent<'a, F>)
    ensures
        r.shown() == *item,
        r.callback() is None,
{
    ReminderComponent { reminder: item, on_completed_changed: None }
}

impl<'a, F> ReminderComponent<'a, F> {
    /// The reminder shown.
    pub closed spec fn shown(&self) -> Reminder {
        *self.reminder
    }

    /// The completion callback.
    pub closed spec fn callback(&self) -> Option<F> {
        self.on_completed_changed
    }

    /// The reminder shown.
    pub fn reminder(&self) -> (r: &Reminder)
        ensures
            *r == self.shown(),
    {
        self.reminder
    }

    /// Sets the function to be called when the completed state changes.
    pub fn on_completed_changed<G>(self, f: G) -> (r: ReminderComponent<'a, G>)
        ensures
            r.shown() == self.shown(),
            r.callback() == Some(f),
    {
        ReminderComponent { reminder: self.reminder, on_completed_changed: Some(f) }
    }

    /// Handles an event: reports the new completed state, if there is a
    /// callback.
    pub fn update<M>(&self, event: ReminderComponentEvent) -> (r: Option<M>) where F: Fn(bool) -> M
        requires
            self.callback() matches Some(f) ==> forall|b: bool| f.requires((b,)),
        ensures
            r is Some <==> self.callback() is Some,
            r matches Some(m) ==> (event matches ReminderComponentEvent::CompletedChanged(b)
                && self.callback().unwrap().ensures((b,), m)),
    {
        match event {
            ReminderComponentEvent::CompletedChanged(state) => match &self.on_completed_changed {
                Some(f) => Some(f(state)),
                None => None,
            },
        }
    }
}

/// An event of a [`ReminderPage`].
#[derive(Clone, Copy, PartialEq, Eq, Structural, Debug, Hash)]
pub enum ReminderPageEvent {
    /// The completed state of the reminder at the index changed.
    CompletedChanged(usize, bool),
}

/// A page listing reminders.
pub struct ReminderPage<'a, F> {
    reminders: &'a [Reminder],
    on_reminder_toggled: Option<F>,
}

/// Creates a [`ReminderPage`] for `reminders`, with no callback.
pub fn reminder_page<'a, F>(reminders: &'a [Reminder]) -> (r: ReminderPage<'a, F>)
    ensures
        r.shown() == reminders@,
        r.callback() is None,
{
    ReminderPage { reminders, on_reminder_toggled: None }
}

impl<'a, F> ReminderPage<'a, F> {
    /// The reminders shown.
    pub closed spec fn shown(&self) -> Seq<Reminder> {
        self.reminders@
    }

    /// The toggle callback.
    pub closed spec fn callback(&self) -> Option<F> {
        self.on_reminder_toggled
    }

    /// The reminders shown.
    pub fn reminders(&self) -> (r: &[Reminder])
        ensures
            r@ == self.shown(),
    {
        self.reminders
    }

    /// Sets the function to be called with a reminder's index and new
    /// completed state when it is toggled.
    pub fn on_toggle<G>(self, f: G) -> (r: ReminderPage<'a, G>)
        ensures
            r.shown() == self.shown(),
            r.callback() == Some(f),
    {
        ReminderPage { reminders: self.reminders, on_reminder_toggled: Some(f) }
    }

    /// Handles an event: reports the index and new completed state, if there
    /// is a callback.
    pub fn update<M>(&self, event: ReminderPageEvent) -> (r: Option<M>) where
        F: Fn(usize, bool) -> M,
        requires
            self.callback() matches Some(f) ==> forall|i: usize, b: bool| f.requires((i, b)),
        ensures
            r is Some <==> self.callback() is Some,
            r matches Some(m) ==> (event matches ReminderPageEvent::CompletedChanged(i, b)
                && self.callback().unwrap().ensures((i, b), m)),
    {
        match event {
            ReminderPageEvent::CompletedChanged(index, state) => match &self.on_reminder_toggled {
                Some(f) => Some(f(index, state)),
                None => None,
            },
        }
    }
}

/// A list of reminders.
pub struct ReminderList<'a> {
    /// The reminders listed.
    pub reminders: &'a [Reminder],
}

impl<'a> ReminderList<'a> {
    /// Creates a list of `reminders`.
    pub fn new(reminders: &'a [Reminder]) -> (r: Self)
        ensures
            r.reminders@ == reminders@,
    {
        ReminderList { reminders }
    }
}

/// An editable view of one reminder.
pub struct ReminderView<'a> {
    reminder: &'a mut Reminder,
}

impl<'a> ReminderView<'a> {
    /// The reminder viewed.
    pub closed spec fn shown(&self) -> Reminder {
        *self.reminder
    }

    /// Creates a view of `reminder`.
    pub fn new(reminder: &'a mut Reminder) -> (r: Self)
        ensures
            r.shown() == *old(reminder),
    {
        ReminderView { reminder }
    }
}

} // verus!
