use atom_simulator::control::{
    accepts_size, dragging_after, pick_format, react, recovery_for, ElementState, Input,
    MouseButton, Reaction, Recovery, SurfaceFault,
};

#[test]
fn test_camera_button_press_and_release() {
    let mut dragging = false;
    assert!(!dragging);

    // Press left mouse button
    dragging = dragging_after(dragging, MouseButton::Left, ElementState::Pressed);
    assert!(dragging);

    // Release left mouse button
    dragging = dragging_after(dragging, MouseButton::Left, ElementState::Released);
    assert!(!dragging);
}

#[test]
fn other_buttons_do_not_touch_the_drag() {
    for button in [
        MouseButton::Right,
        MouseButton::Middle,
        MouseButton::Back,
        MouseButton::Forward,
        MouseButton::Other(7),
    ] {
        for state in [ElementState::Pressed, ElementState::Released] {
            assert!(dragging_after(true, button, state));
            assert!(!dragging_after(false, button, state));
        }
    }
}

#[test]
fn escape_pressed_leaves_the_loop() {
    let pressed = Input::Key { state: ElementState::Pressed, escape: true };
    assert_eq!(react(false, pressed), (Reaction::Exit, false));
    let released = Input::Key { state: ElementState::Released, escape: true };
    assert_eq!(react(true, released), (Reaction::Ignore, true));
    let other = Input::Key { state: ElementState::Pressed, escape: false };
    assert_eq!(react(false, other), (Reaction::Ignore, false));
}

#[test]
fn cursor_orbits_only_while_dragging() {
    assert_eq!(react(true, Input::Cursor), (Reaction::Orbit, true));
    assert_eq!(react(false, Input::Cursor), (Reaction::Track, false));
}

#[test]
fn button_events_change_the_drag_and_nothing_else() {
    let press = Input::Button { button: MouseButton::Left, state: ElementState::Pressed };
    assert_eq!(react(false, press), (Reaction::Ignore, true));
    let release = Input::Button { button: MouseButton::Left, state: ElementState::Released };
    assert_eq!(react(true, release), (Reaction::Ignore, false));
    let right = Input::Button { button: MouseButton::Right, state: ElementState::Pressed };
    assert_eq!(react(false, right), (Reaction::Ignore, false));
}

#[test]
fn window_events_map_to_their_reactions() {
    assert_eq!(react(false, Input::Wheel), (Reaction::Zoom, false));
    assert_eq!(react(true, Input::CloseRequested), (Reaction::Exit, true));
    assert_eq!(react(false, Input::RedrawRequested), (Reaction::Render, false));
    assert_eq!(react(false, Input::AboutToWait), (Reaction::RequestRedraw, false));
    assert_eq!(react(true, Input::Other), (Reaction::Ignore, true));
}

#[test]
fn an_empty_window_is_not_configured() {
    assert_eq!(
        react(false, Input::Resized { width: 1280, height: 720 }),
        (Reaction::Resize { width: 1280, height: 720 }, false)
    );
    assert_eq!(react(false, Input::Resized { width: 0, height: 720 }), (Reaction::Ignore, false));
    assert_eq!(react(false, Input::Resized { width: 1280, height: 0 }), (Reaction::Ignore, false));
    assert!(accepts_size(1, 1));
    assert!(!accepts_size(0, 0));
}

#[test]
fn failed_frames_are_recovered_from() {
    assert_eq!(recovery_for(SurfaceFault::Lost), Recovery::Reconfigure);
    assert_eq!(recovery_for(SurfaceFault::OutOfMemory), Recovery::Exit);
    assert_eq!(recovery_for(SurfaceFault::Timeout), Recovery::Report);
    assert_eq!(recovery_for(SurfaceFault::Outdated), Recovery::Report);
}

#[test]
fn the_first_srgb_format_is_picked() {
    assert_eq!(pick_format(&vec![false, true, true]), Some(1));
    assert_eq!(pick_format(&vec![true, false]), Some(0));
    assert_eq!(pick_format(&vec![false, false, false, true]), Some(3));
}

#[test]
fn without_an_srgb_format_the_first_is_picked() {
    assert_eq!(pick_format(&vec![false, false]), Some(0));
    assert_eq!(pick_format(&vec![false]), Some(0));
}

#[test]
fn no_format_is_picked_from_none() {
    assert_eq!(pick_format(&vec![]), None);
}
