//! The decisions of the engine that runs the player inside a window system:
//! what each window event asks of the player. Performing the actions (and
//! telling the engine their outcome) is the window system's part.

use vstd::prelude::*;

verus! {

/// An event that the window system delivers to the engine.
#[derive(Clone, Copy, Debug, PartialEq, Eq, Structural)]
pub enum WindowEvent {
    /// The engine's own event, posted once at start.
    Init,
    /// The engine's own event, posted when the player wants its next movie.
    NextMovie,
    ZeroTimer,
    Quit,
    Timer,
    WindowActivate,
    WindowDeactivate,
    MouseButtonPress,
    MouseButtonRelease,
    MouseMove,
    /// A key went down: the first character of its text (NUL if none), its
    /// key code, and whether it repeats a key held down.
    KeyPress { text: char, key: i32, auto_repeat: bool },
    /// A key went up: the first character of its text (NUL if none) and its
    /// key code.
    KeyRelease { text: char, key: i32 },
    Paint,
    /// Any other event.
    Other,
}

/// A Macintosh Toolbox event that the engine posts to the player.
#[derive(Clone, Copy, Debug, PartialEq, Eq, Structural)]
pub enum ToolboxEvent {
    /// The window became active, or stopped being active.
    Activate { active: bool },
    MouseDown,
    MouseUp,
    KeyDown { text: char, key: i32 },
    AutoKey { text: char, key: i32 },
    KeyUp { text: char, key: i32 },
    Update,
}

/// What the engine asks for in answer to an event.
#[derive(Clone, Copy, Debug, PartialEq, Eq, Structural)]
pub enum Action {
    /// Start the next file, or quit when none is left.
    LoadNext,
    /// Have the player load its next movie; its outcome goes to
    /// `Engine::after_advance`.
    AdvancePlayer,
    /// Post a Toolbox event to the player.
    Post(ToolboxEvent),
    Nothing,
}

/// The state of the engine that its decisions depend on.
#[derive(Clone, Copy, Debug, PartialEq, Eq, Structural)]
pub struct Engine {
    /// Whether a player is running.
    pub has_player: bool,
}

/// The Toolbox event that a window event gives the player, if any.
pub open spec fn spec_toolbox_event(event: WindowEvent) -> Option<ToolboxEvent> {
    match event {
        WindowEvent::WindowActivate => Some(ToolboxEvent::Activate { active: true }),
        WindowEvent::WindowDeactivate => Some(ToolboxEvent::Activate { active: false }),
        WindowEvent::MouseButtonPress => Some(ToolboxEvent::MouseDown),
        WindowEvent::MouseButtonRelease => Some(ToolboxEvent::MouseUp),
        WindowEvent::KeyPress { text, key, auto_repeat } => Some(
            if auto_repeat { ToolboxEvent::AutoKey { text, key } } else { ToolboxEvent::KeyDown { text, key } },
        ),
        WindowEvent::KeyRelease { text, key } => Some(ToolboxEvent::KeyUp { text, key }),
        WindowEvent::Paint => Some(ToolboxEvent::Update),
        _ => None,
    }
}

impl Engine {
    /// What the engine does with an event, and whether it handled it.
    pub open spec fn spec_event(self, event: WindowEvent) -> (Action, bool) {
        match event {
            WindowEvent::Init => (Action::LoadNext, true),
            WindowEvent::NextMovie => if self.has_player { (Action::AdvancePlayer, true) } else { (Action::Nothing, false) },
            WindowEvent::ZeroTimer | WindowEvent::Quit | WindowEvent::Other => (Action::Nothing, false),
            WindowEvent::Timer | WindowEvent::MouseMove => (Action::Nothing, true),
            _ => match spec_toolbox_event(event) {
                Some(posted) if self.has_player => (Action::Post(posted), true),
                _ => (Action::Nothing, true),
            },
        }
    }

    /// Decides what to do with an event from the window system: the action
    /// to perform, and whether the event was handled.
    pub fn event(&self, event: WindowEvent) -> (r: (Action, bool))
        ensures
            r == self.spec_event(event),
    {
        let posted = match event {
            WindowEvent::Init => return (Action::LoadNext, true),
            WindowEvent::NextMovie => {
                return if self.has_player { (Action::AdvancePlayer, true) } else { (Action::Nothing, false) };
            },
            WindowEvent::ZeroTimer | WindowEvent::Quit | WindowEvent::Other => return (Action::Nothing, false),
            WindowEvent::Timer | WindowEvent::MouseMove => return (Action::Nothing, true),
            WindowEvent::WindowActivate => ToolboxEvent::Activate { active: true },
            WindowEvent::WindowDeactivate => ToolboxEvent::Activate { active: false },
            WindowEvent::MouseButtonPress => ToolboxEvent::MouseDown,
            WindowEvent::MouseButtonRelease => ToolboxEvent::MouseUp,
            WindowEvent::KeyPress { text, key, auto_repeat } => {
                if auto_repeat { ToolboxEvent::AutoKey { text, key } } else { ToolboxEvent::KeyDown { text, key } }
            },
            WindowEvent::KeyRelease { text, key } => ToolboxEvent::KeyUp { text, key },
            WindowEvent::Paint => ToolboxEvent::Update,
        };
        if self.has_player { (Action::Post(posted), true) } else { (Action::Nothing, true) }
    }

    /// What the engine does once the player has tried to load its next
    /// movie: when there was none, it moves on to the next file.
    pub fn after_advance(&self, loaded: bool) -> (r: Action)
        ensures
            r == if loaded { Action::Nothing } else { Action::LoadNext },
    {
        if loaded { Action::Nothing } else { Action::LoadNext }
    }
}

/// Without a player, no event is passed on to one.
pub proof fn lemma_no_player_no_post(event: WindowEvent)
    ensures
        !(Engine { has_player: false }.spec_event(event).0 is Post),
        !(Engine { has_player: false }.spec_event(event).0 is AdvancePlayer),
{
}

} // verus!
