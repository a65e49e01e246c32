use vstd::prelude::*;

verus! {

/// A user event posted into the main loop, by the foreground hook or by the
/// render backend.
#[derive(Clone, Copy, PartialEq, Eq, Structural, Debug, Hash)]
pub enum BackendUserEvent {
    /// A request has been made to repaint the window.
    RequestRepaint,
    /// The desktop has been brought to the foreground.
    DesktopShown,
    /// The desktop has been sent to the background.
    DesktopHidden,
}

} // verus!
