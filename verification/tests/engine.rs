use libearthquake::engine::{Action, Engine, ToolboxEvent, WindowEvent};

#[test]
fn init_loads_the_first_file() {
    assert_eq!(Engine { has_player: false }.event(WindowEvent::Init), (Action::LoadNext, true));
    assert_eq!(Engine { has_player: true }.event(WindowEvent::Init), (Action::LoadNext, true));
}

#[test]
fn next_movie_advances_a_running_player() {
    assert_eq!(Engine { has_player: true }.event(WindowEvent::NextMovie), (Action::AdvancePlayer, true));
    assert_eq!(Engine { has_player: false }.event(WindowEvent::NextMovie), (Action::Nothing, false));
}

#[test]
fn player_without_next_movie_moves_to_next_file() {
    let engine = Engine { has_player: true };
    assert_eq!(engine.after_advance(false), Action::LoadNext);
    assert_eq!(engine.after_advance(true), Action::Nothing);
}

#[test]
fn input_events_are_posted_to_the_player() {
    let engine = Engine { has_player: true };
    assert_eq!(engine.event(WindowEvent::WindowActivate), (Action::Post(ToolboxEvent::Activate { active: true }), true));
    assert_eq!(engine.event(WindowEvent::WindowDeactivate), (Action::Post(ToolboxEvent::Activate { active: false }), true));
    assert_eq!(engine.event(WindowEvent::MouseButtonPress), (Action::Post(ToolboxEvent::MouseDown), true));
    assert_eq!(engine.event(WindowEvent::MouseButtonRelease), (Action::Post(ToolboxEvent::MouseUp), true));
    assert_eq!(
        engine.event(WindowEvent::KeyPress { text: 'a', key: 65, auto_repeat: false }),
        (Action::Post(ToolboxEvent::KeyDown { text: 'a', key: 65 }), true)
    );
    assert_eq!(
        engine.event(WindowEvent::KeyPress { text: 'a', key: 65, auto_repeat: true }),
        (Action::Post(ToolboxEvent::AutoKey { text: 'a', key: 65 }), true)
    );
    assert_eq!(
        engine.event(WindowEvent::KeyRelease { text: '\0', key: 16 }),
        (Action::Post(ToolboxEvent::KeyUp { text: '\0', key: 16 }), true)
    );
    assert_eq!(engine.event(WindowEvent::Paint), (Action::Post(ToolboxEvent::Update), true));
}

#[test]
fn input_events_without_player_are_handled_and_dropped() {
    let engine = Engine { has_player: false };
    assert_eq!(engine.event(WindowEvent::MouseButtonPress), (Action::Nothing, true));
    assert_eq!(engine.event(WindowEvent::Paint), (Action::Nothing, true));
}

#[test]
fn other_events() {
    let engine = Engine { has_player: true };
    assert_eq!(engine.event(WindowEvent::Timer), (Action::Nothing, true));
    assert_eq!(engine.event(WindowEvent::MouseMove), (Action::Nothing, true));
    assert_eq!(engine.event(WindowEvent::ZeroTimer), (Action::Nothing, false));
    assert_eq!(engine.event(WindowEvent::Quit), (Action::Nothing, false));
    assert_eq!(engine.event(WindowEvent::Other), (Action::Nothing, false));
}
