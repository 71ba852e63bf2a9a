//! Player events.

use vstd::prelude::*;

verus! {

/// The kind of an event that the player handles.
#[derive(Clone, Copy, Debug, PartialEq, Eq, Structural)]
pub enum Kind {
    /// No event.
    Empty,
    MouseDown,
    MouseUp,
    KeyDown,
    KeyUp,
    Timeout,
    MouseDoubleClick,
    MouseEnter,
    MouseLeave,
    MouseWithin,
    Idle,
    StartMovie,
    StopMovie,
    StepMovie,
    EnterFrame,
    ExitFrame,
    ActivateWindow,
    DeactivateWindow,
    CloseWindow,
    OpenWindow,
    MoveWindow,
    ZoomWindow,
    ResizeWindow,
    RightMouseDown,
    RightMouseUp,
}

impl Default for Kind {
    fn default() -> (r: Kind)
        ensures
            r == Kind::Empty,
    {
        Kind::Empty
    }
}

} // verus!
