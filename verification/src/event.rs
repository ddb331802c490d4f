//! Platform events as the dispatcher reads them.
//!
//! The shapes follow those of the windowing layer: an event is a window
//! event, a device event or something else, and a window event says what
//! happened to the window or to the pointer over it. Positions, sizes and
//! scroll amounts are fixed-point numbers in logical units.

use vstd::prelude::*;
use crate::vector::Vec2;

verus! {

/// Whether a button went down or came up.
#[derive(Clone, Copy, Debug, PartialEq, Eq, Structural)]
pub enum ElementState {
    Pressed,
    Released,
}

/// A button of the pointing device.
#[derive(Clone, Copy, Debug, PartialEq, Eq, Structural)]
pub enum MouseButton {
    Left,
    Right,
    Middle,
    Back,
    Forward,
    Other(u16),
}

/// What happened to the window or to the pointer over it.
#[derive(Clone, Copy, Debug, PartialEq, Eq, Structural)]
pub enum WindowEvent {
    /// The window has a new logical size.
    Resized(Vec2),
    /// The pointer is at a new logical position.
    CursorMoved { position: Vec2 },
    /// A button changed state.
    MouseInput { state: ElementState, button: MouseButton },
    /// The wheel turned by this much, sideways and lengthways.
    MouseWheel { delta: Vec2 },
    /// Anything the dispatcher has no use for.
    Other,
}

/// One event as the platform delivers it.
#[derive(Clone, Copy, Debug, PartialEq, Eq, Structural)]
pub enum Event {
    WindowEvent(WindowEvent),
    DeviceEvent,
    Other,
}

/// The kinds of event that listeners can be registered for, and the kind of
/// every event that has no listeners.
#[derive(Clone, Copy, Debug, PartialEq, Eq, Structural)]
pub enum EventKind {
    Resize,
    MouseMotion,
    MouseDown,
    MouseUp,
    Wheel,
    Ignored,
}

impl Event {
    /// The one kind an event belongs to.
    pub open spec fn spec_kind(self) -> EventKind {
        match self {
            Event::WindowEvent(WindowEvent::Resized(_)) => EventKind::Resize,
            Event::WindowEvent(WindowEvent::CursorMoved { .. }) => EventKind::MouseMotion,
            Event::WindowEvent(WindowEvent::MouseInput { state: ElementState::Pressed, .. }) =>
                EventKind::MouseDown,
            Event::WindowEvent(WindowEvent::MouseInput { state: ElementState::Released, .. }) =>
                EventKind::MouseUp,
            Event::WindowEvent(WindowEvent::MouseWheel { .. }) => EventKind::Wheel,
            _ => EventKind::Ignored,
        }
    }

    /// Sorts the event into its kind. Only window events about size, pointer
    /// position, buttons and the wheel have one; the rest are ignored.
    pub fn kind(&self) -> (r: EventKind)
        ensures
            r == self.spec_kind(),
    {
        match self {
            Event::WindowEvent(window_event) => match window_event {
                WindowEvent::Resized(_) => EventKind::Resize,
                WindowEvent::CursorMoved { .. } => EventKind::MouseMotion,
                WindowEvent::MouseInput { state, .. } => match state {
                    ElementState::Pressed => EventKind::MouseDown,
                    ElementState::Released => EventKind::MouseUp,
                },
                WindowEvent::MouseWheel { .. } => EventKind::Wheel,
                WindowEvent::Other => EventKind::Ignored,
            },
            _ => EventKind::Ignored,
        }
    }
}

} // verus!
