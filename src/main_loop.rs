use vstd::prelude::*;

use crate::event::BackendUserEvent;
use crate::visibility::{apply_event, apply_events, transition_count, DesktopVisibilityState};

verus! {

/// How long the main loop waits for an event before it ticks anyway, in
/// seconds.
pub const WAIT_TIMEOUT_SECS: u64 = 1;

/// An event taken from the main loop's queue.
#[derive(Clone, Copy, PartialEq, Eq, Structural, Debug, Hash)]
pub enum LoopEvent {
    /// A windowing event for the host window, to be handed to the UI layer.
    WindowInput,
    /// An event posted by the hook or the render backend.
    User(BackendUserEvent),
    /// The queue has been drained: time to run the UI.
    MainEventsCleared,
    /// The host window must be repainted.
    RedrawRequested,
    /// Anything else.
    Other,
}

/// The phase of the main loop.
#[derive(Clone, Copy, PartialEq, Eq, Structural, Debug, Hash)]
pub enum LoopPhase {
    /// No tick has run yet; the render state does not exist.
    Uninitialized,
    /// Running, with the desktop hidden.
    Hidden,
    /// Running, with the desktop shown.
    Shown,
}

/// What one tick asks of the windowing system, the render state and the UI
/// layer, to be carried out in field order.
#[derive(Clone, Copy, PartialEq, Eq, Structural, Debug, Hash)]
pub struct TickPlan {
    /// The wait timeout to set, in seconds.
    pub wait_timeout_secs: u64,
    /// The visibility the z-order enforcer must establish, after this tick's
    /// event has been taken into account.
    pub enforce: DesktopVisibilityState,
    /// Whether the render state must be created now.
    pub init_render: bool,
    /// Whether to hand the event to the UI layer.
    pub dispatch: bool,
    /// Whether to request a redraw of the host window.
    pub request_redraw: bool,
    /// Whether to run the UI.
    pub run_ui: bool,
    /// Whether to paint and present.
    pub paint: bool,
    /// The new visibility, when this tick changed it.
    pub transition: Option<DesktopVisibilityState>,
}

/// The single-threaded loop state: the desktop visibility and whether the
/// render state exists.
pub struct MainLoop {
    desktop: DesktopVisibilityState,
    render_ready: bool,
}

/// The abstract state of the main loop.
pub struct MainLoopView {
    pub desktop: DesktopVisibilityState,
    pub render_ready: bool,
}

/// The state after a tick on `event`, and the plan for that tick.
pub open spec fn tick_spec(s: MainLoopView, event: LoopEvent) -> (MainLoopView, TickPlan) {
    let desktop = match event {
        LoopEvent::User(e) => apply_event(s.desktop, e),
        _ => s.desktop,
    };
    (
        MainLoopView { desktop, render_ready: true },
        TickPlan {
            wait_timeout_secs: WAIT_TIMEOUT_SECS,
            enforce: desktop,
            init_render: !s.render_ready,
            dispatch: event == LoopEvent::WindowInput,
            request_redraw: event == LoopEvent::User(BackendUserEvent::RequestRepaint),
            run_ui: event == LoopEvent::MainEventsCleared,
            paint: event == LoopEvent::RedrawRequested,
            transition: if desktop != s.desktop {
                Some(desktop)
            } else {
                None
            },
        },
    )
}

/// The phase of an abstract main-loop state.
pub open spec fn phase_of(s: MainLoopView) -> LoopPhase {
    if !s.render_ready {
        LoopPhase::Uninitialized
    } else if s.desktop == DesktopVisibilityState::Shown {
        LoopPhase::Shown
    } else {
        LoopPhase::Hidden
    }
}

impl MainLoop {
    /// The abstract state.
    pub closed spec fn view(&self) -> MainLoopView {
        MainLoopView { desktop: self.desktop, render_ready: self.render_ready }
    }

    /// The loop before its first tick: desktop hidden, no render state.
    pub fn new() -> (r: Self)
        ensures
            r.view() == (MainLoopView { desktop: DesktopVisibilityState::Hidden, render_ready: false }),
    {
        MainLoop { desktop: DesktopVisibilityState::Hidden, render_ready: false }
    }

    /// The current desktop visibility.
    pub fn desktop(&self) -> (r: DesktopVisibilityState)
        ensures
            r == self.view().desktop,
    {
        self.desktop
    }

    /// The current phase.
    pub fn phase(&self) -> (r: LoopPhase)
        ensures
            r == phase_of(self.view()),
    {
        if !self.render_ready {
            LoopPhase::Uninitialized
        } else if self.desktop.is_shown() {
            LoopPhase::Shown
        } else {
            LoopPhase::Hidden
        }
    }

    /// Runs one tick on `event`: updates the desktop visibility first, so
    /// that the z-order enforcer sees the new value, and plans the rest.
    pub fn tick(&mut self, event: LoopEvent) -> (plan: TickPlan)
        ensures
            (final(self).view(), plan) == tick_spec(old(self).view(), event),
    {
        let changed = match event {
            LoopEvent::User(e) => self.desktop.apply(e),
            _ => false,
        };
        let init_render = !self.render_ready;
        self.render_ready = true;
        TickPlan {
            wait_timeout_secs: WAIT_TIMEOUT_SECS,
            enforce: self.desktop,
            init_render,
            dispatch: match event {
                LoopEvent::WindowInput => true,
                _ => false,
            },
            request_redraw: match event {
                LoopEvent::User(BackendUserEvent::RequestRepaint) => true,
                _ => false,
            },
            run_ui: match event {
                LoopEvent::MainEventsCleared => true,
                _ => false,
            },
            paint: match event {
                LoopEvent::RedrawRequested => true,
                _ => false,
            },
            transition: if changed {
                Some(self.desktop)
            } else {
                None
            },
        }
    }
}

/// The user events among `events`, in order.
pub open spec fn user_events(events: Seq<LoopEvent>) -> Seq<BackendUserEvent>
    decreases events.len(),
{
    if events.len() == 0 {
        Seq::empty()
    } else {
        let prev = user_events(events.drop_last());
        match events.last() {
            LoopEvent::User(e) => prev.push(e),
            _ => prev,
        }
    }
}

/// The main-loop state after a tick on each of `events`, in order.
pub open spec fn run_ticks(s: MainLoopView, events: Seq<LoopEvent>) -> MainLoopView
    decreases events.len(),
{
    if events.len() == 0 {
        s
    } else {
        tick_spec(run_ticks(s, events.drop_last()), events.last()).0
    }
}

/// How many of the ticks on `events` report a visibility transition.
pub open spec fn reported_transitions(s: MainLoopView, events: Seq<LoopEvent>) -> nat
    decreases events.len(),
{
    if events.len() == 0 {
        0
    } else {
        let before = run_ticks(s, events.drop_last());
        reported_transitions(s, events.drop_last()) + if tick_spec(before, events.last()).1.transition
            is Some {
            1nat
        } else {
            0nat
        }
    }
}

/// Over any sequence of ticks, the desktop visibility is that of the user
/// events processed in order, and a transition is reported exactly when one
/// of them changes it: redundant events and other events report none.
pub proof fn lemma_ticks_follow_user_events(s: MainLoopView, events: Seq<LoopEvent>)
    ensures
        run_ticks(s, events).desktop == apply_events(s.desktop, user_events(events)),
        reported_transitions(s, events) == transition_count(s.desktop, user_events(events)),
    decreases events.len(),
{
    if events.len() > 0 {
        let prefix = events.drop_last();
        lemma_ticks_follow_user_events(s, prefix);
        match events.last() {
            LoopEvent::User(e) => {
                let users = user_events(prefix).push(e);
                assert(users.drop_last() =~= user_events(prefix));
            },
            _ => {},
        }
    }
}

/// The render state is created on the first tick and never again.
pub proof fn lemma_render_initialized_once(s: MainLoopView, first: LoopEvent, second: LoopEvent)
    ensures
        tick_spec(s, first).1.init_render == !s.render_ready,
        !tick_spec(tick_spec(s, first).0, second).1.init_render,
        phase_of(tick_spec(s, first).0) != LoopPhase::Uninitialized,
{
}

} // verus!
