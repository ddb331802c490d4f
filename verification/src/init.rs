//! Wiring the application's listeners to its window.

use vstd::prelude::*;
use crate::event::EventKind;
use crate::rinecraft::{CameraResizeListener, OrbitMotionListener, OrbitWheelListener, Rinecraft,
    RinecraftState, WorldListener};
use crate::window::{Registered, Window};

verus! {

/// `after` is `before` with the orbit controller wired in: one more
/// listener for moves of the pointer and one more for turns of the wheel,
/// each registered last, and all else as it was.
pub open spec fn orbit_controller_wired<Renderer>(
    before: &Window<RinecraftState, Renderer>,
    after: &Window<RinecraftState, Renderer>,
) -> bool {
    &&& after.window_state() == before.window_state()
    &&& after.listeners(EventKind::MouseMotion) == before.listeners(EventKind::MouseMotion).push(
        Registered { func: Box::new(OrbitMotionListener) },
    )
    &&& after.listeners(EventKind::Wheel) == before.listeners(EventKind::Wheel).push(
        Registered { func: Box::new(OrbitWheelListener) },
    )
    &&& forall|kind: EventKind|
        kind != EventKind::MouseMotion && kind != EventKind::Wheel ==> #[trigger] after.listeners(
            kind,
        ) == before.listeners(kind)
}

/// `after` is `before` with the world's click listener registered last,
/// and all else as it was.
pub open spec fn world_wired<Renderer>(
    before: &Window<RinecraftState, Renderer>,
    after: &Window<RinecraftState, Renderer>,
) -> bool {
    after.registered(before, EventKind::MouseDown, Registered { func: Box::new(WorldListener) })
}

/// `after` is `before` with the camera's resize listener registered last,
/// and all else as it was.
pub open spec fn camera_wired<Renderer>(
    before: &Window<RinecraftState, Renderer>,
    after: &Window<RinecraftState, Renderer>,
) -> bool {
    after.registered(
        before,
        EventKind::Resize,
        Registered { func: Box::new(CameraResizeListener) },
    )
}

impl<Renderer: 'static> Rinecraft<Renderer> {
    /// Lets the pointer steer the orbit controller: a drag with the left
    /// button turns the camera, a drag with the right button pans the
    /// target, the wheel zooms.
    pub fn use_orbit_controller(&mut self)
        ensures
            orbit_controller_wired(&old(self).window_session, &final(self).window_session),
            final(self).state == old(self).state,
    {
        init_orbit_controller(&mut self.window_session);
    }
}

/// Lets the pointer steer the orbit controller of the state that the
/// window's listeners work on: a drag with the left button turns the
/// camera, a drag with the right button pans the target, the wheel zooms.
pub fn init_orbit_controller<Renderer: 'static>(
    window_session: &mut Window<RinecraftState, Renderer>,
)
    ensures
        orbit_controller_wired(old(window_session), final(window_session)),
{
    window_session.add_mouse_motion_listener(OrbitMotionListener);
    window_session.add_mouse_wheel_listener(OrbitWheelListener);
}

/// Lets the camera follow the size of the window.
pub fn init_camera<Renderer: 'static>(window_session: &mut Window<RinecraftState, Renderer>)
    ensures
        camera_wired(old(window_session), final(window_session)),
{
    window_session.add_resize_listener(CameraResizeListener);
}

/// Registers the world's click listener.
pub fn init_world<Renderer: 'static>(window_session: &mut Window<RinecraftState, Renderer>)
    ensures
        world_wired(old(window_session), final(window_session)),
{
    window_session.listener(WorldListener);
}

} // verus!
