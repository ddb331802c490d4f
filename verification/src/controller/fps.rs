//! A controller that walks and looks about.
//!
//! The camera stands at a position and faces the way that yaw and pitch
//! give. Pitch is held short of straight up and straight down, as it is for
//! the orbit controller.

use vstd::prelude::*;
use crate::controller::orbit::{hold_pitch, spec_hold_pitch, HALF_PI, PITCH_MAX, PITCH_MIN};
use crate::camera::PerspectiveCamera;
use crate::controller::Controller;
use crate::fixed::{difference, product, spec_difference, spec_product, ONE};
use crate::transformed_object::{Transform, TransformedObject};
use crate::vector::{Vec2, Vec3};

verus! {

/// What a first-person controller holds.
#[derive(Clone, Copy, Debug, PartialEq, Eq, Structural)]
pub struct FpsData {
    /// Where the camera stands.
    pub position: Vec3,
    /// The angle about the vertical axis. It is not wrapped.
    pub yaw: i64,
    /// The tilt of the line of sight, upward when positive. It stays
    /// strictly between [`PITCH_MIN`] and [`PITCH_MAX`].
    pub pitch: i64,
    /// How far the camera has yet to move to its right, upward and
    /// forward.
    pub pending_move: Vec3,
    /// Radians of turn for each unit handed to `look`.
    pub look_sensitivity: i64,
}

impl FpsData {
    /// The camera looks neither straight up nor straight down.
    pub open spec fn wf(self) -> bool {
        PITCH_MIN < self.pitch < PITCH_MAX
    }

    /// A controller at rest. A pitch outside its range is brought to the
    /// nearest value inside.
    pub open spec fn initial(position: Vec3, yaw: i64, pitch: i64) -> FpsData {
        FpsData {
            position,
            yaw,
            pitch: spec_hold_pitch(pitch),
            pending_move: Vec3 { x: 0, y: 0, z: 0 },
            look_sensitivity: ONE,
        }
    }

    pub open spec fn looked(self, delta: Vec2) -> FpsData {
        FpsData {
            yaw: spec_difference(self.yaw, spec_product(delta.x, self.look_sensitivity)),
            pitch: spec_hold_pitch(
                spec_difference(self.pitch, spec_product(delta.y, self.look_sensitivity)),
            ),
            ..self
        }
    }

    pub open spec fn moved(self, direction: Vec3, distance: i64) -> FpsData {
        FpsData {
            pending_move: self.pending_move.spec_plus(direction.spec_scaled(distance)),
            ..self
        }
    }

    pub open spec fn settled(self, right: Vec3, up: Vec3, forward: Vec3) -> FpsData {
        FpsData {
            position: self.position.spec_plus(right.spec_scaled(self.pending_move.x)).spec_plus(
                up.spec_scaled(self.pending_move.y),
            ).spec_plus(forward.spec_scaled(self.pending_move.z)),
            pending_move: Vec3 { x: 0, y: 0, z: 0 },
            ..self
        }
    }

    /// Where the camera belongs: at `position`, at the angles `yaw` and
    /// `pitch`.
    pub open spec fn placement(self) -> Transform {
        Transform { origin: self.position, distance: 0, yaw: self.yaw, pitch: self.pitch }
    }

    /// The state after a run of looks.
    pub open spec fn looked_by_all(self, deltas: Seq<Vec2>) -> FpsData
        decreases deltas.len(),
    {
        if deltas.len() == 0 {
            self
        } else {
            self.looked_by_all(deltas.drop_last()).looked(deltas.last())
        }
    }
}

/// A first-person controller. Every value of this type is well formed in
/// the sense of [`FpsData::wf`].
pub struct FpsController {
    data: FpsData,
}

impl View for FpsController {
    type V = FpsData;

    closed spec fn view(&self) -> FpsData {
        self.data
    }
}

impl FpsController {
    #[verifier::type_invariant]
    spec fn well_formed(self) -> bool {
        self.data.wf()
    }

    /// A controller that stands at `position` and faces the way of the
    /// given angles, with a sensitivity of one.
    pub fn new(position: Vec3, yaw: i64, pitch: i64) -> (r: FpsController)
        ensures
            r@ == FpsData::initial(position, yaw, pitch),
            r@.wf(),
    {
        FpsController {
            data: FpsData {
                position,
                yaw,
                pitch: hold_pitch(pitch),
                pending_move: Vec3::zero(),
                look_sensitivity: ONE,
            },
        }
    }

    /// Turns the view: yaw goes down by `delta.x` times the sensitivity,
    /// pitch by `delta.y` times the sensitivity, and pitch is then held
    /// strictly between [`PITCH_MIN`] and [`PITCH_MAX`].
    pub fn look(&mut self, delta: Vec2)
        ensures
            final(self)@ == old(self)@.looked(delta),
            final(self)@.wf(),
    {
        proof {
            use_type_invariant(&*self);
        }
        let data = self.data;
        self.data = FpsData {
            yaw: difference(data.yaw, product(delta.x, data.look_sensitivity)),
            pitch: hold_pitch(difference(data.pitch, product(delta.y, data.look_sensitivity))),
            ..data
        };
    }

    /// Asks for a move of `distance` along `direction`, which is given in
    /// the camera's own axes: to its right, upward, forward. The move is
    /// kept as pending until [`FpsController::settle_move`] is told where
    /// those axes point.
    pub fn move_(&mut self, direction: Vec3, distance: i64)
        ensures
            final(self)@ == old(self)@.moved(direction, distance),
            final(self)@.wf(),
    {
        proof {
            use_type_invariant(&*self);
        }
        let data = self.data;
        self.data = FpsData {
            pending_move: data.pending_move.plus(direction.scaled(distance)),
            ..data
        };
    }

    /// Carries out the pending move: the position moves along `right`,
    /// `up` and `forward`, which are the camera's own axes in world space,
    /// by the pending amounts, and nothing is pending afterwards.
    pub fn settle_move(&mut self, right: Vec3, up: Vec3, forward: Vec3)
        ensures
            final(self)@ == old(self)@.settled(right, up, forward),
            final(self)@.wf(),
    {
        proof {
            use_type_invariant(&*self);
        }
        let data = self.data;
        let position = data.position.plus(right.scaled(data.pending_move.x)).plus(
            up.scaled(data.pending_move.y),
        ).plus(forward.scaled(data.pending_move.z));
        self.data = FpsData { position, pending_move: Vec3::zero(), ..data };
    }

    /// Sets how many radians the view turns for each unit handed to
    /// `look`. A negative number turns it the other way.
    pub fn set_look_sensitivity(&mut self, sensitivity: i64)
        ensures
            final(self)@ == (FpsData { look_sensitivity: sensitivity, ..old(self)@ }),
            final(self)@.wf(),
    {
        proof {
            use_type_invariant(&*self);
        }
        let data = self.data;
        self.data = FpsData { look_sensitivity: sensitivity, ..data };
    }

    /// Everything the controller holds, as plain data.
    pub fn data(&self) -> (r: FpsData)
        ensures
            r == self@,
            r.wf(),
    {
        proof {
            use_type_invariant(self);
        }
        self.data
    }

    /// Where the camera belongs.
    pub fn placement(&self) -> (r: Transform)
        ensures
            r == self@.placement(),
            PITCH_MIN < r.pitch < PITCH_MAX,
    {
        proof {
            use_type_invariant(self);
        }
        Transform {
            origin: self.data.position,
            distance: 0,
            yaw: self.data.yaw,
            pitch: self.data.pitch,
        }
    }
}

impl<T: TransformedObject> Controller<T> for FpsController {
    /// The controller stays as it is and the target is given the
    /// controller's placement.
    open spec fn updates(&self, after_self: &Self, before: &T, after: &T) -> bool {
        &&& after_self@ == self@
        &&& after.spec_transform() == self@.placement()
        &&& before.moved(after, self@.placement())
    }

    fn update(&mut self, target: &mut T) {
        target.set_transform(self.placement());
    }
}

/// However the view is turned, its pitch stays strictly between its
/// bounds, and those lie strictly between straight down and straight up.
pub proof fn lemma_looks_keep_pitch(start: FpsData, deltas: Seq<Vec2>)
    requires
        start.wf(),
    ensures
        start.looked_by_all(deltas).wf(),
        -HALF_PI < PITCH_MIN < start.looked_by_all(deltas).pitch < PITCH_MAX < HALF_PI,
    decreases deltas.len(),
{
    if deltas.len() > 0 {
        lemma_looks_keep_pitch(start, deltas.drop_last());
    }
}

/// An update with nothing new to tell changes nothing: after one update of
/// a perspective camera, a second one leaves controller and camera as
/// they are.
pub proof fn lemma_update_settles(
    controller: FpsController,
    once: FpsController,
    twice: FpsController,
    camera: PerspectiveCamera,
    camera_once: PerspectiveCamera,
    camera_twice: PerspectiveCamera,
)
    requires
        controller.updates(&once, &camera, &camera_once),
        once.updates(&twice, &camera_once, &camera_twice),
    ensures
        twice@ == once@,
        camera_twice@ == camera_once@,
{
}

} // verus!
