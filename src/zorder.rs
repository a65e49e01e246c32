use vstd::prelude::*;

use crate::visibility::DesktopVisibilityState;

verus! {

/// Window-positioning flag: keep the current size.
pub const SWP_NOSIZE: u32 = 0x0001;

/// Window-positioning flag: keep the current position.
pub const SWP_NOMOVE: u32 = 0x0002;

/// Window-positioning flag: do not activate the window.
pub const SWP_NOACTIVATE: u32 = 0x0010;

/// Window-positioning flag: do not reorder the owner window.
pub const SWP_NOOWNERZORDER: u32 = 0x0200;

/// Window-positioning flag: send no "position changing" notification.
pub const SWP_NOSENDCHANGING: u32 = 0x0400;

/// Window-positioning flag: do not wait for the window's own thread.
pub const SWP_ASYNCWINDOWPOS: u32 = 0x4000;

/// The flags every repositioning request carries: only the stacking order
/// changes, never the size, the position or the focus.
pub const REPOSITION_FLAGS: u32 = SWP_ASYNCWINDOWPOS | SWP_NOACTIVATE | SWP_NOMOVE | SWP_NOSIZE
    | SWP_NOOWNERZORDER | SWP_NOSENDCHANGING;

/// The OS-level identity of a window.
#[derive(Clone, Copy, PartialEq, Eq, Structural, Debug, Hash)]
pub struct WindowHandle(pub isize);

/// The band of the stacking order a window is kept in.
#[derive(Clone, Copy, PartialEq, Eq, Structural, Debug, Hash)]
pub enum WindowLevel {
    /// Above all windows that are not always on top.
    AlwaysOnTop,
    /// Below all windows that are not always on bottom.
    AlwaysOnBottom,
}

/// Where in the stacking order the host window is placed.
#[derive(Clone, Copy, PartialEq, Eq, Structural, Debug, Hash)]
pub enum InsertAfter {
    /// Just above the bottom of the topmost band.
    Topmost,
    /// At the absolute bottom of the stack.
    Bottom,
    /// Directly behind the given window.
    Window(WindowHandle),
}

/// A request the enforcer makes of the window manager.
#[derive(Clone, Copy, PartialEq, Eq, Structural, Debug, Hash)]
pub enum ZOrderCommand {
    /// Put the host window in the given band.
    SetWindowLevel(WindowLevel),
    /// Move the host window in the stacking order. No coordinates or size
    /// are carried: the window keeps both.
    Reposition { insert_after: InsertAfter, flags: u32 },
    /// Ask for the window directly before the host window in the stacking
    /// order.
    QueryPrevious,
    /// Nothing more to do in this tick.
    Done,
}

/// What the window manager answered to the last command.
#[derive(Clone, Copy, PartialEq, Eq, Structural, Debug, Hash)]
pub enum ZOrderReply {
    /// Nothing to report: the walk is starting, or the level was set.
    Ready,
    /// Whether the repositioning call succeeded.
    Repositioned(bool),
    /// The window before the host window, if there is one.
    Previous(Option<WindowHandle>),
}

/// Where the enforcer stands within one tick.
#[derive(Clone, Copy, PartialEq, Eq, Structural, Debug, Hash)]
pub enum ZOrderPhase {
    /// Nothing has been requested yet.
    Start,
    /// The window level was requested.
    LevelRequested,
    /// The placement in the band was requested.
    BandRequested,
    /// The previous window was asked for.
    PreviousRequested,
    /// A placement behind the previous window was requested.
    StepRequested,
    /// The walk is over.
    Finished,
}

/// Brings the host window's place in the stacking order in line with the
/// desktop visibility, once per main-loop tick, by a bounded walk.
pub struct ZOrderEnforcer {
    target: DesktopVisibilityState,
    phase: ZOrderPhase,
    steps: usize,
    limit: usize,
}

/// The abstract state of an enforcer.
pub struct EnforcerView {
    pub target: DesktopVisibilityState,
    pub phase: ZOrderPhase,
    /// Placements behind a previous window requested so far.
    pub steps: nat,
    /// The most such placements allowed: the number of open windows.
    pub limit: nat,
}

/// One transition of the enforcer: the state that follows and the command it
/// issues on `reply`.
pub open spec fn step(s: EnforcerView, reply: ZOrderReply) -> (EnforcerView, ZOrderCommand) {
    let finished = EnforcerView { phase: ZOrderPhase::Finished, ..s };
    match s.phase {
        ZOrderPhase::Start => (
            EnforcerView { phase: ZOrderPhase::LevelRequested, ..s },
            ZOrderCommand::SetWindowLevel(
                if s.target == DesktopVisibilityState::Shown {
                    WindowLevel::AlwaysOnTop
                } else {
                    WindowLevel::AlwaysOnBottom
                },
            ),
        ),
        ZOrderPhase::LevelRequested => (
            EnforcerView { phase: ZOrderPhase::BandRequested, ..s },
            ZOrderCommand::Reposition {
                insert_after: if s.target == DesktopVisibilityState::Shown {
                    InsertAfter::Topmost
                } else {
                    InsertAfter::Bottom
                },
                flags: REPOSITION_FLAGS,
            },
        ),
        ZOrderPhase::BandRequested => if s.target == DesktopVisibilityState::Shown {
            (EnforcerView { phase: ZOrderPhase::PreviousRequested, ..s }, ZOrderCommand::QueryPrevious)
        } else {
            (finished, ZOrderCommand::Done)
        },
        ZOrderPhase::PreviousRequested => match reply {
            ZOrderReply::Previous(Some(prev)) => if s.steps < s.limit {
                (
                    EnforcerView { phase: ZOrderPhase::StepRequested, steps: s.steps + 1, ..s },
                    ZOrderCommand::Reposition {
                        insert_after: InsertAfter::Window(prev),
                        flags: REPOSITION_FLAGS,
                    },
                )
            } else {
                (finished, ZOrderCommand::Done)
            },
            _ => (finished, ZOrderCommand::Done),
        },
        ZOrderPhase::StepRequested => match reply {
            ZOrderReply::Repositioned(true) => (
                EnforcerView { phase: ZOrderPhase::PreviousRequested, ..s },
                ZOrderCommand::QueryPrevious,
            ),
            _ => (finished, ZOrderCommand::Done),
        },
        ZOrderPhase::Finished => (s, ZOrderCommand::Done),
    }
}

/// The enforcer's state after answering each of `replies` in order.
pub open spec fn run(s: EnforcerView, replies: Seq<ZOrderReply>) -> EnforcerView
    decreases replies.len(),
{
    if replies.len() == 0 {
        s
    } else {
        step(run(s, replies.drop_last()), replies.last()).0
    }
}

/// The commands issued while answering each of `replies` in order.
pub open spec fn commands(s: EnforcerView, replies: Seq<ZOrderReply>) -> Seq<ZOrderCommand>
    decreases replies.len(),
{
    if replies.len() == 0 {
        Seq::empty()
    } else {
        commands(s, replies.drop_last()).push(step(run(s, replies.drop_last()), replies.last()).1)
    }
}

/// Whether a command places the host window behind another window.
pub open spec fn is_walk_step(c: ZOrderCommand) -> bool {
    match c {
        ZOrderCommand::Reposition { insert_after: InsertAfter::Window(_), .. } => true,
        _ => false,
    }
}

/// How many commands in `cs` place the host window behind another window.
pub open spec fn walk_step_count(cs: Seq<ZOrderCommand>) -> nat
    decreases cs.len(),
{
    if cs.len() == 0 {
        0
    } else {
        walk_step_count(cs.drop_last()) + if is_walk_step(cs.last()) {
            1nat
        } else {
            0nat
        }
    }
}

/// An upper bound on the replies still needed before the walk is over.
pub open spec fn remaining(s: EnforcerView) -> nat {
    let walk: nat = if s.steps <= s.limit {
        (2 * (s.limit - s.steps)) as nat
    } else {
        0
    };
    match s.phase {
        ZOrderPhase::Start => walk + 4,
        ZOrderPhase::LevelRequested => walk + 3,
        ZOrderPhase::BandRequested => walk + 2,
        ZOrderPhase::PreviousRequested => walk + 1,
        ZOrderPhase::StepRequested => walk + 2,
        ZOrderPhase::Finished => 0,
    }
}

/// Whether a command only touches the stacking order, the window band or
/// nothing: a repositioning always keeps size and position and never
/// activates the window.
pub open spec fn keeps_geometry(c: ZOrderCommand) -> bool {
    match c {
        ZOrderCommand::Reposition { flags, .. } => flags & SWP_NOMOVE != 0 && flags & SWP_NOSIZE
            != 0 && flags & SWP_NOACTIVATE != 0 && flags & SWP_NOOWNERZORDER != 0 && flags
            & SWP_NOSENDCHANGING != 0,
        _ => true,
    }
}

impl ZOrderEnforcer {
    /// The abstract state.
    pub closed spec fn view(&self) -> EnforcerView {
        EnforcerView {
            target: self.target,
            phase: self.phase,
            steps: self.steps as nat,
            limit: self.limit as nat,
        }
    }

    /// An enforcer for one tick, for the given (already updated) desktop
    /// visibility, that places the window behind at most `open_windows`
    /// other windows.
    pub fn new(target: DesktopVisibilityState, open_windows: usize) -> (r: Self)
        ensures
            r.view() == (EnforcerView {
                target,
                phase: ZOrderPhase::Start,
                steps: 0,
                limit: open_windows as nat,
            }),
    {
        ZOrderEnforcer { target, phase: ZOrderPhase::Start, steps: 0, limit: open_windows }
    }

    /// Where the enforcer stands.
    pub fn phase(&self) -> (r: ZOrderPhase)
        ensures
            r == self.view().phase,
    {
        self.phase
    }

    /// Whether the walk is over for this tick.
    pub fn is_finished(&self) -> (r: bool)
        ensures
            r == (self.view().phase == ZOrderPhase::Finished),
    {
        match self.phase {
            ZOrderPhase::Finished => true,
            _ => false,
        }
    }

    /// Takes the window manager's answer to the last command and returns the
    /// next command.
    pub fn next_command(&mut self, reply: ZOrderReply) -> (r: ZOrderCommand)
        requires
            old(self).view().steps <= old(self).view().limit,
        ensures
            (final(self).view(), r) == step(old(self).view(), reply),
            final(self).view().steps <= final(self).view().limit,
    {
        let shown = match self.target {
            DesktopVisibilityState::Shown => true,
            DesktopVisibilityState::Hidden => false,
        };
        match self.phase {
            ZOrderPhase::Start => {
                self.phase = ZOrderPhase::LevelRequested;
                ZOrderCommand::SetWindowLevel(
                    if shown {
                        WindowLevel::AlwaysOnTop
                    } else {
                        WindowLevel::AlwaysOnBottom
                    },
                )
            },
            ZOrderPhase::LevelRequested => {
                self.phase = ZOrderPhase::BandRequested;
                ZOrderCommand::Reposition {
                    insert_after: if shown {
                        InsertAfter::Topmost
                    } else {
                        InsertAfter::Bottom
                    },
                    flags: REPOSITION_FLAGS,
                }
            },
            ZOrderPhase::BandRequested => {
                if shown {
                    self.phase = ZOrderPhase::PreviousRequested;
                    ZOrderCommand::QueryPrevious
                } else {
                    self.phase = ZOrderPhase::Finished;
                    ZOrderCommand::Done
                }
            },
            ZOrderPhase::PreviousRequested => match reply {
                ZOrderReply::Previous(Some(prev)) => {
                    if self.steps < self.limit {
                        self.phase = ZOrderPhase::StepRequested;
                        self.steps = self.steps + 1;
                        ZOrderCommand::Reposition {
                            insert_after: InsertAfter::Window(prev),
                            flags: REPOSITION_FLAGS,
                        }
                    } else {
                        self.phase = ZOrderPhase::Finished;
                        ZOrderCommand::Done
                    }
                },
                _ => {
                    self.phase = ZOrderPhase::Finished;
                    ZOrderCommand::Done
                },
            },
            ZOrderPhase::StepRequested => match reply {
                ZOrderReply::Repositioned(true) => {
                    self.phase = ZOrderPhase::PreviousRequested;
                    ZOrderCommand::QueryPrevious
                },
                _ => {
                    self.phase = ZOrderPhase::Finished;
                    ZOrderCommand::Done
                },
            },
            ZOrderPhase::Finished => ZOrderCommand::Done,
        }
    }
}

/// The repositioning flags keep size and position, never activate the
/// window, leave the owner's order alone and send no "changing"
/// notification.
pub proof fn lemma_reposition_flags_keep_geometry()
    ensures
        REPOSITION_FLAGS & SWP_NOMOVE != 0,
        REPOSITION_FLAGS & SWP_NOSIZE != 0,
        REPOSITION_FLAGS & SWP_NOACTIVATE != 0,
        REPOSITION_FLAGS & SWP_NOOWNERZORDER != 0,
        REPOSITION_FLAGS & SWP_NOSENDCHANGING != 0,
{
    assert(0x4613u32 & 0x0002u32 != 0) by (bit_vector);
    assert(0x4613u32 & 0x0001u32 != 0) by (bit_vector);
    assert(0x4613u32 & 0x0010u32 != 0) by (bit_vector);
    assert(0x4613u32 & 0x0200u32 != 0) by (bit_vector);
    assert(0x4613u32 & 0x0400u32 != 0) by (bit_vector);
    assert(REPOSITION_FLAGS == 0x4613u32) by (bit_vector);
}

/// One command is issued per reply.
pub proof fn lemma_commands_len(s: EnforcerView, replies: Seq<ZOrderReply>)
    ensures
        commands(s, replies).len() == replies.len(),
    decreases replies.len(),
{
    if replies.len() > 0 {
        lemma_commands_len(s, replies.drop_last());
    }
}

/// Whatever the window manager answers, every command the enforcer issues
/// keeps the window's size and position: it only ever changes the stacking
/// order and the window band.
pub proof fn lemma_never_moves_or_resizes(s: EnforcerView, replies: Seq<ZOrderReply>)
    ensures
        forall|i: int|
            0 <= i < replies.len() ==> keeps_geometry(#[trigger] commands(s, replies)[i]),
    decreases replies.len(),
{
    lemma_reposition_flags_keep_geometry();
    if replies.len() > 0 {
        let prefix = replies.drop_last();
        lemma_never_moves_or_resizes(s, prefix);
        lemma_commands_len(s, prefix);
        let cs = commands(s, replies);
        assert(cs == commands(s, prefix).push(step(run(s, prefix), replies.last()).1));
        assert forall|i: int| 0 <= i < replies.len() implies keeps_geometry(
            #[trigger] commands(s, replies)[i],
        ) by {
            if i < prefix.len() {
                assert(cs[i] == commands(s, prefix)[i]);
            }
        }
    }
}

/// Each reply moves an unfinished enforcer closer to the end of its walk.
pub proof fn lemma_step_progresses(s: EnforcerView, reply: ZOrderReply)
    requires
        s.steps <= s.limit,
        s.phase != ZOrderPhase::Finished,
    ensures
        remaining(step(s, reply).0) < remaining(s),
        step(s, reply).0.steps <= step(s, reply).0.limit,
        step(s, reply).0.limit == s.limit,
{
}

/// The walk ends: whatever the window manager answers, and even if every
/// repositioning succeeds, it places the host window behind at most `limit`
/// (the number of open windows) other windows, and it is over after at most
/// `remaining(s)` replies.
pub proof fn lemma_walk_is_bounded(s: EnforcerView, replies: Seq<ZOrderReply>)
    requires
        s.steps <= s.limit,
    ensures
        run(s, replies).steps <= s.limit,
        run(s, replies).limit == s.limit,
        s.steps + walk_step_count(commands(s, replies)) == run(s, replies).steps,
        replies.len() >= remaining(s) ==> run(s, replies).phase == ZOrderPhase::Finished,
        run(s, replies).phase != ZOrderPhase::Finished ==> remaining(run(s, replies)) + replies.len()
            <= remaining(s),
    decreases replies.len(),
{
    if replies.len() > 0 {
        let prefix = replies.drop_last();
        lemma_walk_is_bounded(s, prefix);
        let mid = run(s, prefix);
        if mid.phase != ZOrderPhase::Finished {
            lemma_step_progresses(mid, replies.last());
        }
        let cs = commands(s, replies);
        assert(cs.drop_last() =~= commands(s, prefix));
    }
}

} // verus!
