//! The application: its state and the listeners that steer by the pointer.

use vstd::prelude::*;
use crate::camera::{Camera, PerspectiveCamera, PerspectiveData};
use crate::controller::{OrbitController, OrbitData};
use crate::fixed::{difference, product, spec_difference, spec_product, ONE};
use crate::window::{Listener, Window, WindowData, WindowState};

verus! {

/// How much of the radius one unit of the wheel takes away: a tenth.
pub const ZOOM_STEP: i64 = 100_000;

/// What the listeners of the application work on.
pub struct RinecraftState {
    pub orbit_controller: OrbitController,
    pub camera: PerspectiveCamera,
}

/// The application: a window with its listeners, and the state they work
/// on.
#[verifier::reject_recursive_types(Renderer)]
pub struct Rinecraft<Renderer> {
    pub window_session: Window<RinecraftState, Renderer>,
    pub state: RinecraftState,
}

/// The orbit after a move of the pointer: with the left button down the
/// camera turns against the move, with the right button down the target is
/// panned against it, with both it turns first and pans then.
pub open spec fn dragged(orbit: OrbitData, window: WindowData) -> OrbitData {
    let delta = window.mouse_motion.spec_negated();
    let turned = if window.is_left_mouse_down {
        orbit.rotated(delta)
    } else {
        orbit
    };
    if window.is_right_mouse_down {
        turned.panned(delta)
    } else {
        turned
    }
}

/// The factor that a turn of the wheel zooms by: one, less a tenth for
/// each unit the wheel turned lengthways.
pub open spec fn wheel_factor(window: WindowData) -> i64 {
    spec_difference(ONE, spec_product(window.mouse_wheel_delta.y, ZOOM_STEP))
}

/// The orbit after a turn of the wheel.
pub open spec fn wheeled(orbit: OrbitData, window: WindowData) -> OrbitData {
    orbit.zoomed(wheel_factor(window))
}

/// The camera after the window took a new size: its aspect is the window's
/// width to height and its projection is up to date. A window with a side
/// that is not positive, as when it is folded away, leaves the camera as it
/// is.
pub open spec fn fitted(camera: PerspectiveData, window: WindowData) -> PerspectiveData {
    if window.size.x > 0 && window.size.y > 0 {
        camera.resized(window.size)
    } else {
        camera
    }
}

/// Fits the camera to the window when the window changes size.
pub struct CameraResizeListener;

/// Turns and pans the orbit when the pointer moves with a button down.
pub struct OrbitMotionListener;

/// Zooms the orbit when the wheel turns.
pub struct OrbitWheelListener;

/// Listens for clicks in the world and does nothing yet.
pub struct WorldListener;

impl<Renderer> Listener<RinecraftState, Renderer> for CameraResizeListener {
    open spec fn handles(
        &self,
        window: &WindowState,
        state_before: &RinecraftState,
        state_after: &RinecraftState,
        renderer_before: &Renderer,
        renderer_after: &Renderer,
    ) -> bool {
        &&& state_after.camera@ == fitted(state_before.camera@, window@)
        &&& state_after.orbit_controller == state_before.orbit_controller
        &&& renderer_after == renderer_before
    }

    fn handle(&self, window: &WindowState, state: &mut RinecraftState, renderer: &mut Renderer) {
        match state.camera.resize(window.data().size) {
            Ok(()) => {},
            Err(_) => {},
        }
    }
}

impl<Renderer> Listener<RinecraftState, Renderer> for OrbitMotionListener {
    open spec fn handles(
        &self,
        window: &WindowState,
        state_before: &RinecraftState,
        state_after: &RinecraftState,
        renderer_before: &Renderer,
        renderer_after: &Renderer,
    ) -> bool {
        &&& state_after.orbit_controller@ == dragged(state_before.orbit_controller@, window@)
        &&& state_after.camera == state_before.camera
        &&& renderer_after == renderer_before
    }

    fn handle(&self, window: &WindowState, state: &mut RinecraftState, renderer: &mut Renderer) {
        let input = window.data();
        let delta = input.mouse_motion.negated();
        if input.is_left_mouse_down {
            state.orbit_controller.rotate(delta);
        }
        if input.is_right_mouse_down {
            state.orbit_controller.pan(delta);
        }
    }
}

impl<Renderer> Listener<RinecraftState, Renderer> for OrbitWheelListener {
    open spec fn handles(
        &self,
        window: &WindowState,
        state_before: &RinecraftState,
        state_after: &RinecraftState,
        renderer_before: &Renderer,
        renderer_after: &Renderer,
    ) -> bool {
        &&& state_after.orbit_controller@ == wheeled(state_before.orbit_controller@, window@)
        &&& state_after.camera == state_before.camera
        &&& renderer_after == renderer_before
    }

    fn handle(&self, window: &WindowState, state: &mut RinecraftState, renderer: &mut Renderer) {
        let delta: i64 = window.data().mouse_wheel_delta.y;
        state.orbit_controller.zoom(difference(ONE, product(delta, ZOOM_STEP)));
    }
}

impl<Renderer> Listener<RinecraftState, Renderer> for WorldListener {
    open spec fn handles(
        &self,
        window: &WindowState,
        state_before: &RinecraftState,
        state_after: &RinecraftState,
        renderer_before: &Renderer,
        renderer_after: &Renderer,
    ) -> bool {
        &&& state_after == state_before
        &&& renderer_after == renderer_before
    }

    fn handle(&self, window: &WindowState, state: &mut RinecraftState, renderer: &mut Renderer) {
    }
}

} // verus!
