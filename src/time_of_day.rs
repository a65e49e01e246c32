use vstd::prelude::*;

use crate::reminder::ReminderTimeOfDay;
use crate::time::ClockTime;

verus! {

/// The kind of a time of day, as chosen on the component's tabs.
#[derive(Clone, Copy, PartialEq, Eq, Structural, Debug, Hash)]
pub enum TimeOfDayKind {
    /// Maps to [`ReminderTimeOfDay::AllDay`].
    AllDay,
    /// Maps to [`ReminderTimeOfDay::Time`].
    Time,
    /// Maps to [`ReminderTimeOfDay::TimeRange`].
    TimeRange,
}

/// An event of a [`TimeOfDayComponent`].
#[derive(Clone, Copy, PartialEq, Eq, Structural, Debug, Hash)]
pub enum TimeOfDayComponentEvent {
    /// A tab was selected.
    TabSelected(TimeOfDayKind),
    /// The user is starting to set the start time.
    SetStartTimeStarted,
    /// The user is starting to set the end time.
    SetEndTimeStarted,
    /// The user cancelled setting the start time.
    SetStartTimeCancelled,
    /// The user cancelled setting the end time.
    SetEndTimeCancelled,
    /// The user set the starting (or only) time.
    SetStartTime(ClockTime),
    /// The user set the ending time.
    SetEndTime(ClockTime),
}

/// The state a [`TimeOfDayComponent`] keeps between events: the last start
/// and end times, remembered while another kind is selected, and which
/// picker is open.
#[derive(Clone, Copy, PartialEq, Eq, Structural, Debug, Hash)]
pub struct TimeOfDayComponentState {
    /// The starting (or only) time.
    pub start: ClockTime,
    /// The ending time.
    pub end: ClockTime,
    /// Whether the user is setting the starting time.
    pub setting_start: bool,
    /// Whether the user is setting the ending time.
    pub setting_end: bool,
}

impl TimeOfDayComponentState {
    /// The initial state at time `now`: from now to an hour later, no picker
    /// open.
    pub fn new(now: ClockTime) -> (r: Self)
        ensures
            r.start == now,
            r.end.hour_view() == (now.hour_view() + 1) % 24,
            r.end.minute_view() == now.minute_view(),
            r.end.second_view() == now.second_view(),
            !r.setting_start,
            !r.setting_end,
    {
        TimeOfDayComponentState {
            start: now,
            end: now.add_hours(1),
            setting_start: false,
            setting_end: false,
        }
    }
}

/// The value and state after `event`, and whether the change is reported.
pub open spec fn time_of_day_update(
    value: ReminderTimeOfDay,
    state: TimeOfDayComponentState,
    event: TimeOfDayComponentEvent,
) -> (ReminderTimeOfDay, TimeOfDayComponentState, bool) {
    match event {
        TimeOfDayComponentEvent::TabSelected(kind) => match (kind, value) {
            (TimeOfDayKind::AllDay, ReminderTimeOfDay::AllDay) => (value, state, true),
            (TimeOfDayKind::Time, ReminderTimeOfDay::Time { .. }) => (value, state, true),
            (TimeOfDayKind::TimeRange, ReminderTimeOfDay::TimeRange { .. }) => (value, state, true),
            (TimeOfDayKind::AllDay, ReminderTimeOfDay::Time { time }) => (
                ReminderTimeOfDay::AllDay,
                TimeOfDayComponentState { start: time, ..state },
                true,
            ),
            (TimeOfDayKind::AllDay, ReminderTimeOfDay::TimeRange { start, end }) => (
                ReminderTimeOfDay::AllDay,
                TimeOfDayComponentState { start, end, ..state },
                true,
            ),
            (TimeOfDayKind::Time, ReminderTimeOfDay::AllDay) => (
                ReminderTimeOfDay::Time { time: state.start },
                state,
                true,
            ),
            (TimeOfDayKind::Time, ReminderTimeOfDay::TimeRange { start, end }) => (
                ReminderTimeOfDay::Time { time: start },
                TimeOfDayComponentState { start, end, ..state },
                true,
            ),
            (TimeOfDayKind::TimeRange, ReminderTimeOfDay::AllDay) => (
                ReminderTimeOfDay::TimeRange { start: state.start, end: state.end },
                state,
                true,
            ),
            (TimeOfDayKind::TimeRange, ReminderTimeOfDay::Time { time }) => (
                ReminderTimeOfDay::TimeRange { start: time, end: state.end },
                TimeOfDayComponentState { start: time, ..state },
                true,
            ),
        },
        TimeOfDayComponentEvent::SetStartTimeStarted => (
            value,
            TimeOfDayComponentState { setting_start: true, ..state },
            false,
        ),
        TimeOfDayComponentEvent::SetEndTimeStarted => (
            value,
            TimeOfDayComponentState { setting_end: true, ..state },
            false,
        ),
        TimeOfDayComponentEvent::SetStartTimeCancelled => (
            value,
            TimeOfDayComponentState { setting_start: false, ..state },
            false,
        ),
        TimeOfDayComponentEvent::SetEndTimeCancelled => (
            value,
            TimeOfDayComponentState { setting_end: false, ..state },
            false,
        ),
        TimeOfDayComponentEvent::SetStartTime(t) => (
            match value {
                ReminderTimeOfDay::AllDay => value,
                ReminderTimeOfDay::Time { .. } => ReminderTimeOfDay::Time { time: t },
                ReminderTimeOfDay::TimeRange { end, .. } => ReminderTimeOfDay::TimeRange {
                    start: t,
                    end,
                },
            },
            TimeOfDayComponentState { start: t, setting_start: false, ..state },
            true,
        ),
        TimeOfDayComponentEvent::SetEndTime(t) => (
            match value {
                ReminderTimeOfDay::TimeRange { start, .. } => ReminderTimeOfDay::TimeRange {
                    start,
                    end: t,
                },
                _ => value,
            },
            TimeOfDayComponentState { end: t, setting_end: false, ..state },
            true,
        ),
    }
}

/// A component for choosing a time of day.
pub struct TimeOfDayComponent<F> {
    time_of_day: ReminderTimeOfDay,
    on_change: Option<F>,
}

/// Creates a [`TimeOfDayComponent`] showing `time_of_day`, with no change
/// callback.
pub fn time_of_day<F>(value: ReminderTimeOfDay) -> (r: TimeOfDayComponent<F>)
    ensures
        r.value() == value,
        r.callback() is None,
{
    TimeOfDayComponent { time_of_day: value, on_change: None }
}

impl<F> TimeOfDayComponent<F> {
    /// The time of day shown.
    pub closed spec fn value(&self) -> ReminderTimeOfDay {
        self.time_of_day
    }

    /// The change callback.
    pub closed spec fn callback(&self) -> Option<F> {
        self.on_change
    }

    /// The time of day shown.
    pub fn current(&self) -> (r: ReminderTimeOfDay)
        ensures
            r == self.value(),
    {
        self.time_of_day
    }

    /// Which tab is selected.
    pub fn selected_kind(&self) -> (r: TimeOfDayKind)
        ensures
            r == match self.value() {
                ReminderTimeOfDay::AllDay => TimeOfDayKind::AllDay,
                ReminderTimeOfDay::Time { .. } => TimeOfDayKind::Time,
                ReminderTimeOfDay::TimeRange { .. } => TimeOfDayKind::TimeRange,
            },
    {
        match self.time_of_day {
            ReminderTimeOfDay::AllDay => TimeOfDayKind::AllDay,
            ReminderTimeOfDay::Time { .. } => TimeOfDayKind::Time,
            ReminderTimeOfDay::TimeRange { .. } => TimeOfDayKind::TimeRange,
        }
    }

    /// Sets the function to be called when the time of day changes.
    pub fn on_change<G>(self, f: G) -> (r: TimeOfDayComponent<G>)
        ensures
            r.value() == self.value(),
            r.callback() == Some(f),
    {
        TimeOfDayComponent { time_of_day: self.time_of_day, on_change: Some(f) }
    }

    /// Handles an event. Switching kinds carries the times over (and
    /// remembers them in the state); setting a time updates the value; the
    /// new value is reported except for opening or cancelling a picker.
    pub fn update<M>(&mut self, state: &mut TimeOfDayComponentState, event: TimeOfDayComponentEvent) -> (r:
        Option<M>) where F: Fn(ReminderTimeOfDay) -> M
        requires
            old(self).callback() matches Some(f) ==> forall|v: ReminderTimeOfDay| f.requires((v,)),
        ensures
            final(self).value() == time_of_day_update(old(self).value(), *old(state), event).0,
            *final(state) == time_of_day_update(old(self).value(), *old(state), event).1,
            final(self).callback() == old(self).callback(),
            r is Some <==> (old(self).callback() is Some && time_of_day_update(
                old(self).value(),
                *old(state),
                event,
            ).2),
            r matches Some(m) ==> old(self).callback().unwrap().ensures((final(self).value(),), m),
    {
        match event {
            TimeOfDayComponentEvent::TabSelected(kind) => {
                self.time_of_day = match (kind, self.time_of_day) {
                    (TimeOfDayKind::AllDay, ReminderTimeOfDay::AllDay) => ReminderTimeOfDay::AllDay,
                    (TimeOfDayKind::Time, ReminderTimeOfDay::Time { time }) => ReminderTimeOfDay::Time {
                        time,
                    },
                    (TimeOfDayKind::TimeRange, ReminderTimeOfDay::TimeRange { start, end }) => {
                        ReminderTimeOfDay::TimeRange { start, end }
                    },
                    (TimeOfDayKind::AllDay, ReminderTimeOfDay::Time { time }) => {
                        state.start = time;
                        ReminderTimeOfDay::AllDay
                    },
                    (TimeOfDayKind::AllDay, ReminderTimeOfDay::TimeRange { start, end }) => {
                        state.start = start;
                        state.end = end;
                        ReminderTimeOfDay::AllDay
                    },
                    (TimeOfDayKind::Time, ReminderTimeOfDay::AllDay) => ReminderTimeOfDay::Time {
                        time: state.start,
                    },
                    (TimeOfDayKind::Time, ReminderTimeOfDay::TimeRange { start, end }) => {
                        state.start = start;
                        state.end = end;
                        ReminderTimeOfDay::Time { time: start }
                    },
                    (TimeOfDayKind::TimeRange, ReminderTimeOfDay::AllDay) => {
                        ReminderTimeOfDay::TimeRange { start: state.start, end: state.end }
                    },
                    (TimeOfDayKind::TimeRange, ReminderTimeOfDay::Time { time }) => {
                        state.start = time;
                        ReminderTimeOfDay::TimeRange { start: time, end: state.end }
                    },
                };
            },
            TimeOfDayComponentEvent::SetStartTimeStarted => {
                state.setting_start = true;
                return None;
            },
            TimeOfDayComponentEvent::SetEndTimeStarted => {
                state.setting_end = true;
                return None;
            },
            TimeOfDayComponentEvent::SetStartTimeCancelled => {
                state.setting_start = false;
                return None;
            },
            TimeOfDayComponentEvent::SetEndTimeCancelled => {
                state.setting_end = false;
                return None;
            },
            TimeOfDayComponentEvent::SetStartTime(new_time) => {
                state.start = new_time;
                state.setting_start = false;
                self.time_of_day = match self.time_of_day {
                    ReminderTimeOfDay::AllDay => ReminderTimeOfDay::AllDay,
                    ReminderTimeOfDay::Time { .. } => ReminderTimeOfDay::Time { time: new_time },
                    ReminderTimeOfDay::TimeRange { end, .. } => ReminderTimeOfDay::TimeRange {
                        start: new_time,
                        end,
                    },
                };
            },
            TimeOfDayComponentEvent::SetEndTime(new_time) => {
                state.end = new_time;
                state.setting_end = false;
                self.time_of_day = match self.time_of_day {
                    ReminderTimeOfDay::TimeRange { start, .. } => ReminderTimeOfDay::TimeRange {
                        start,
                        end: new_time,
                    },
                    other => other,
                };
            },
        }
        match &self.on_change {
            Some(f) => Some(f(self.time_of_day)),
            None => None,
        }
    }
}

} // verus!
