use vstd::prelude::*;

use crate::event::BackendUserEvent;

verus! {

/// Whether the user is currently looking at the desktop. Owned by the main
/// loop and changed only by classified hook events.
#[derive(Clone, Copy, PartialEq, Eq, Structural, Debug, Hash)]
pub enum DesktopVisibilityState {
    /// Some application window is in the foreground.
    Hidden,
    /// The desktop's background container window is in the foreground.
    Shown,
}

/// The visibility an event announces, if it announces one.
pub open spec fn classification(event: BackendUserEvent) -> Option<DesktopVisibilityState> {
    match event {
        BackendUserEvent::DesktopShown => Some(DesktopVisibilityState::Shown),
        BackendUserEvent::DesktopHidden => Some(DesktopVisibilityState::Hidden),
        BackendUserEvent::RequestRepaint => None,
    }
}

/// The state after one event has been processed.
pub open spec fn apply_event(state: DesktopVisibilityState, event: BackendUserEvent) -> DesktopVisibilityState {
    match classification(event) {
        Some(next) => next,
        None => state,
    }
}

/// The state after a sequence of events has been processed in order.
pub open spec fn apply_events(
    state: DesktopVisibilityState,
    events: Seq<BackendUserEvent>,
) -> DesktopVisibilityState
    decreases events.len(),
{
    if events.len() == 0 {
        state
    } else {
        apply_event(apply_events(state, events.drop_last()), events.last())
    }
}

/// The classification of the last event of `events` that has one.
pub open spec fn last_classification(events: Seq<BackendUserEvent>) -> Option<DesktopVisibilityState>
    decreases events.len(),
{
    if events.len() == 0 {
        None
    } else {
        match classification(events.last()) {
            Some(state) => Some(state),
            None => last_classification(events.drop_last()),
        }
    }
}

/// How many times the state changes while the events are processed in order.
pub open spec fn transition_count(state: DesktopVisibilityState, events: Seq<BackendUserEvent>) -> nat
    decreases events.len(),
{
    if events.len() == 0 {
        0
    } else {
        let before = apply_events(state, events.drop_last());
        transition_count(state, events.drop_last()) + if apply_event(before, events.last())
            != before {
            1nat
        } else {
            0nat
        }
    }
}

impl DesktopVisibilityState {
    /// Whether the desktop is shown.
    pub fn is_shown(&self) -> (r: bool)
        ensures
            r == (*self == DesktopVisibilityState::Shown),
    {
        match self {
            DesktopVisibilityState::Shown => true,
            DesktopVisibilityState::Hidden => false,
        }
    }

    /// Processes one event. A redundant event (one that announces the
    /// current state) and a repaint request change nothing; the result says
    /// whether the state changed.
    pub fn apply(&mut self, event: BackendUserEvent) -> (changed: bool)
        ensures
            *final(self) == apply_event(*old(self), event),
            changed == (*final(self) != *old(self)),
    {
        match event {
            BackendUserEvent::DesktopShown => {
                if self.is_shown() {
                    false
                } else {
                    *self = DesktopVisibilityState::Shown;
                    true
                }
            },
            BackendUserEvent::DesktopHidden => {
                if self.is_shown() {
                    *self = DesktopVisibilityState::Hidden;
                    true
                } else {
                    false
                }
            },
            BackendUserEvent::RequestRepaint => false,
        }
    }

    /// Processes events in order and returns how many of them changed the
    /// state.
    pub fn apply_all(&mut self, events: &Vec<BackendUserEvent>) -> (transitions: usize)
        ensures
            *final(self) == apply_events(*old(self), events@),
            transitions == transition_count(*old(self), events@),
    {
        let ghost start = *self;
        let mut transitions: usize = 0;
        let mut i: usize = 0;
        while i < events.len()
            invariant
                0 <= i <= events.len(),
                transitions <= i,
                *self == apply_events(start, events@.subrange(0, i as int)),
                transitions == transition_count(start, events@.subrange(0, i as int)),
            decreases events.len() - i,
        {
            let ghost prefix = events@.subrange(0, i as int);
            let ghost next = events@.subrange(0, i + 1);
            assert(next.drop_last() =~= prefix);
            assert(next.last() == events@[i as int]);
            if self.apply(events[i]) {
                transitions = transitions + 1;
            }
            i = i + 1;
        }
        assert(events@.subrange(0, events.len() as int) =~= events@);
        transitions
    }
}

/// After any sequence of events, the state is the classification of the most
/// recent event that carries one, or the starting state if none does.
pub proof fn lemma_state_follows_last_event(
    state: DesktopVisibilityState,
    events: Seq<BackendUserEvent>,
)
    ensures
        apply_events(state, events) == match last_classification(events) {
            Some(last) => last,
            None => state,
        },
    decreases events.len(),
{
    if events.len() > 0 {
        lemma_state_follows_last_event(state, events.drop_last());
    }
}

/// Processing the same event twice in a row leaves the state where the first
/// one put it, and the repeat causes no transition.
pub proof fn lemma_repeated_event_is_idempotent(state: DesktopVisibilityState, event: BackendUserEvent)
    ensures
        apply_event(apply_event(state, event), event) == apply_event(state, event),
        transition_count(state, seq![event, event]) == transition_count(state, seq![event]),
{
    let two = seq![event, event];
    let one = seq![event];
    assert(two.drop_last() =~= one);
    assert(one.drop_last() =~= Seq::<BackendUserEvent>::empty());
}

} // verus!
