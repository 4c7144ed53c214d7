//! What the viewer does with the events of its window.
//!
//! The window system delivers events; the viewer turns each into at most
//! one thing to do. Amounts (how far the wheel turned, where the cursor
//! is) stay with the caller: the decisions here need only the kind of the
//! event and whether the left button is held.

use vstd::prelude::*;

verus! {

/// A button of the mouse.
#[derive(Clone, Copy, Debug, PartialEq, Eq, Structural)]
pub enum MouseButton {
    Left,
    Right,
    Middle,
    Back,
    Forward,
    Other(u16),
}

/// Whether a button or key went down or came up.
#[derive(Clone, Copy, Debug, PartialEq, Eq, Structural)]
pub enum ElementState {
    Pressed,
    Released,
}

/// An event of the window, reduced to what the decisions depend on.
#[derive(Clone, Copy, Debug, PartialEq, Eq, Structural)]
pub enum Input {
    /// A key changed state; `escape` says whether it was the escape key.
    Key { state: ElementState, escape: bool },
    /// The wheel turned.
    Wheel,
    /// A mouse button changed state.
    Button { button: MouseButton, state: ElementState },
    /// The cursor moved.
    Cursor,
    /// The window was asked to close.
    CloseRequested,
    /// The window has a new size.
    Resized { width: u32, height: u32 },
    /// The window wants to be drawn.
    RedrawRequested,
    /// All pending events have been delivered.
    AboutToWait,
    /// Anything else.
    Other,
}

/// What the viewer does in answer to an event.
#[derive(Clone, Copy, Debug, PartialEq, Eq, Structural)]
pub enum Reaction {
    /// Leave the event loop.
    Exit,
    /// Move the camera towards or away from the target.
    Zoom,
    /// Turn the camera around the target by the cursor's movement.
    Orbit,
    /// Remember where the cursor is.
    Track,
    /// Configure the surface for the new size.
    Resize { width: u32, height: u32 },
    /// Draw a frame.
    Render,
    /// Ask the window for a redraw.
    RequestRedraw,
    /// Nothing.
    Ignore,
}

/// How a frame failed to be presented.
#[derive(Clone, Copy, Debug, PartialEq, Eq, Structural)]
pub enum SurfaceFault {
    Timeout,
    Outdated,
    Lost,
    OutOfMemory,
}

/// What to do about a frame that failed.
#[derive(Clone, Copy, Debug, PartialEq, Eq, Structural)]
pub enum Recovery {
    /// Configure the surface again at its current size.
    Reconfigure,
    /// Leave the event loop.
    Exit,
    /// Report the fault and go on.
    Report,
}

/// Whether the left button is held after a button event: the left button
/// sets it by going down and clears it by coming up, and no other button
/// touches it.
pub open spec fn drag_after(dragging: bool, button: MouseButton, state: ElementState) -> bool {
    if button == MouseButton::Left {
        state == ElementState::Pressed
    } else {
        dragging
    }
}

/// Whether the left button is held after `input`.
pub open spec fn dragging_next(dragging: bool, input: Input) -> bool {
    match input {
        Input::Button { button, state } => drag_after(dragging, button, state),
        _ => dragging,
    }
}

/// Whether a surface of this size can be configured: neither side may be
/// zero.
pub open spec fn drawable(width: u32, height: u32) -> bool {
    width > 0 && height > 0
}

/// The reaction to `input` while the left button is held or not.
pub open spec fn reaction_to(dragging: bool, input: Input) -> Reaction {
    match input {
        Input::Key { state, escape } => if state == ElementState::Pressed && escape {
            Reaction::Exit
        } else {
            Reaction::Ignore
        },
        Input::Wheel => Reaction::Zoom,
        Input::Button { .. } => Reaction::Ignore,
        Input::Cursor => if dragging {
            Reaction::Orbit
        } else {
            Reaction::Track
        },
        Input::CloseRequested => Reaction::Exit,
        Input::Resized { width, height } => if drawable(width, height) {
            Reaction::Resize { width, height }
        } else {
            Reaction::Ignore
        },
        Input::RedrawRequested => Reaction::Render,
        Input::AboutToWait => Reaction::RequestRedraw,
        Input::Other => Reaction::Ignore,
    }
}

/// Whether the left button is held after a button event.
pub fn dragging_after(dragging: bool, button: MouseButton, state: ElementState) -> (held: bool)
    ensures
        held == drag_after(dragging, button, state),
{
    match button {
        MouseButton::Left => match state {
            ElementState::Pressed => true,
            ElementState::Released => false,
        },
        _ => dragging,
    }
}

/// Whether a surface of this size can be configured.
pub fn accepts_size(width: u32, height: u32) -> (ok: bool)
    ensures
        ok == drawable(width, height),
{
    width > 0 && height > 0
}

/// One step of the viewer: the reaction to `input`, and whether the left
/// button is held afterwards.
pub fn react(dragging: bool, input: Input) -> (step: (Reaction, bool))
    ensures
        step.0 == reaction_to(dragging, input),
        step.1 == dragging_next(dragging, input),
{
    match input {
        Input::Key { state, escape } => {
            let pressed: bool = match state {
                ElementState::Pressed => true,
                ElementState::Released => false,
            };
            if pressed && escape {
                (Reaction::Exit, dragging)
            } else {
                (Reaction::Ignore, dragging)
            }
        },
        Input::Wheel => (Reaction::Zoom, dragging),
        Input::Button { button, state } => (
            Reaction::Ignore,
            dragging_after(dragging, button, state),
        ),
        Input::Cursor => if dragging {
            (Reaction::Orbit, dragging)
        } else {
            (Reaction::Track, dragging)
        },
        Input::CloseRequested => (Reaction::Exit, dragging),
        Input::Resized { width, height } => if accepts_size(width, height) {
            (Reaction::Resize { width, height }, dragging)
        } else {
            (Reaction::Ignore, dragging)
        },
        Input::RedrawRequested => (Reaction::Render, dragging),
        Input::AboutToWait => (Reaction::RequestRedraw, dragging),
        Input::Other => (Reaction::Ignore, dragging),
    }
}

/// What to do about a frame that failed: a lost surface is configured
/// again, a lack of memory ends the viewer, anything else is reported.
pub fn recovery_for(fault: SurfaceFault) -> (recovery: Recovery)
    ensures
        fault == SurfaceFault::Lost ==> recovery == Recovery::Reconfigure,
        fault == SurfaceFault::OutOfMemory ==> recovery == Recovery::Exit,
        fault == SurfaceFault::Timeout || fault == SurfaceFault::Outdated ==> recovery
            == Recovery::Report,
{
    match fault {
        SurfaceFault::Lost => Recovery::Reconfigure,
        SurfaceFault::OutOfMemory => Recovery::Exit,
        SurfaceFault::Timeout => Recovery::Report,
        SurfaceFault::Outdated => Recovery::Report,
    }
}

/// Picks the format to configure the surface with, from a list that says
/// of each format the surface supports whether it is sRGB: the first sRGB
/// format where there is one, the first format of all where there is not,
/// and nothing where the surface supports no format.
pub fn pick_format(srgb: &Vec<bool>) -> (picked: Option<usize>)
    ensures
        picked is None <==> srgb@.len() == 0,
        picked matches Some(index) ==> {
            &&& index < srgb@.len()
            &&& forall|j: int| 0 <= j < index ==> !srgb@[j]
            &&& srgb@[index as int] || (index == 0 && forall|j: int|
                0 <= j < srgb@.len() ==> !srgb@[j])
        },
{
    if srgb.len() == 0 {
        return None;
    }
    let mut index: usize = 0;
    while index < srgb.len()
        invariant
            index <= srgb@.len(),
            forall|j: int| 0 <= j < index ==> !srgb@[j],
        decreases srgb@.len() - index,
    {
        if srgb[index] {
            return Some(index);
        }
        index += 1;
    }
    Some(0)
}

/// The camera orbits only while the left button is held: after a press
/// of the left button a cursor movement turns the camera, after its
/// release it does not, and the other buttons change nothing.
pub proof fn lemma_orbit_needs_drag(dragging: bool, button: MouseButton)
    ensures
        reaction_to(drag_after(dragging, MouseButton::Left, ElementState::Pressed), Input::Cursor)
            == Reaction::Orbit,
        reaction_to(drag_after(dragging, MouseButton::Left, ElementState::Released), Input::Cursor)
            == Reaction::Track,
        button != MouseButton::Left ==> forall|state: ElementState|
            reaction_to(drag_after(dragging, button, state), Input::Cursor) == reaction_to(
                dragging,
                Input::Cursor,
            ),
{
}

} // verus!
