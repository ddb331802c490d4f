//! A controller that keeps its target in view from a distance.
//!
//! The camera sits on a sphere about a point of interest. Turning moves it
//! over the sphere, zooming changes the sphere's radius, panning moves the
//! point. The placement is always derived from the four values `target`,
//! `radius`, `yaw` and `pitch`, never from the placement before, so nothing
//! can drift.

use vstd::prelude::*;
use crate::camera::PerspectiveCamera;
use crate::controller::Controller;
use crate::fixed::{clamp, difference, larger, lemma_product_units, product, spec_clamp,
    spec_difference, spec_larger, spec_product, ONE};
use crate::transformed_object::{Transform, TransformedObject};
use crate::vector::{Vec2, Vec3};

verus! {

/// A quarter turn, rounded down: every angle up to this one is short of
/// straight up.
pub const HALF_PI: i64 = 1_570_796;

/// The pitch stays below this: a hundredth of a radian short of straight
/// up.
pub const PITCH_MAX: i64 = 1_560_796;

/// The pitch stays above this: a hundredth of a radian short of straight
/// down.
pub const PITCH_MIN: i64 = -1_560_796;

/// The nearest the camera may come to its target.
pub const RADIUS_MIN: i64 = 1_000;

/// The pitch nearest to `pitch` that lies strictly between [`PITCH_MIN`] and
/// [`PITCH_MAX`].
pub open spec fn spec_hold_pitch(pitch: i64) -> i64 {
    spec_clamp(pitch, (PITCH_MIN + 1) as i64, (PITCH_MAX - 1) as i64)
}

/// Brings a pitch strictly between [`PITCH_MIN`] and [`PITCH_MAX`]: one at
/// or past a bound becomes the nearest one inside.
pub fn hold_pitch(pitch: i64) -> (r: i64)
    ensures
        r == spec_hold_pitch(pitch),
        PITCH_MIN < r < PITCH_MAX,
{
    clamp(pitch, PITCH_MIN + 1, PITCH_MAX - 1)
}

/// What an orbit controller holds.
#[derive(Clone, Copy, Debug, PartialEq, Eq, Structural)]
pub struct OrbitData {
    /// The point the camera looks at.
    pub target: Vec3,
    /// How far from the target the camera is. It stays at [`RADIUS_MIN`]
    /// or above.
    pub radius: i64,
    /// The angle about the vertical axis. It is not wrapped.
    pub yaw: i64,
    /// The tilt of the line of sight, upward when positive. It stays
    /// strictly between [`PITCH_MIN`] and [`PITCH_MAX`].
    pub pitch: i64,
    /// How far the target has yet to move to the right and upward as the
    /// camera sees it.
    pub pending_pan: Vec2,
    /// Radians of turn for each unit handed to `rotate`.
    pub rotate_sensitivity: i64,
    /// Share of the radius that the target moves for each unit handed to
    /// `pan`.
    pub pan_sensitivity: i64,
}

impl OrbitData {
    /// The camera keeps its distance and stays clear of the poles.
    pub open spec fn wf(self) -> bool {
        &&& self.radius >= RADIUS_MIN
        &&& PITCH_MIN < self.pitch < PITCH_MAX
    }

    /// A controller at rest. A radius or a pitch outside its range is
    /// brought to the nearest value inside.
    pub open spec fn initial(target: Vec3, radius: i64, yaw: i64, pitch: i64) -> OrbitData {
        OrbitData {
            target,
            radius: spec_larger(radius, RADIUS_MIN),
            yaw,
            pitch: spec_hold_pitch(pitch),
            pending_pan: Vec2 { x: 0, y: 0 },
            rotate_sensitivity: ONE,
            pan_sensitivity: ONE,
        }
    }

    pub open spec fn rotated(self, delta: Vec2) -> OrbitData {
        OrbitData {
            yaw: spec_difference(self.yaw, spec_product(delta.x, self.rotate_sensitivity)),
            pitch: spec_hold_pitch(
                spec_difference(self.pitch, spec_product(delta.y, self.rotate_sensitivity)),
            ),
            ..self
        }
    }

    /// What a pan by `delta` adds to the pending displacement: `delta`
    /// times the radius times the sensitivity.
    pub open spec fn pan_step(self, delta: Vec2) -> Vec2 {
        delta.spec_scaled(self.radius).spec_scaled(self.pan_sensitivity)
    }

    pub open spec fn panned(self, delta: Vec2) -> OrbitData {
        OrbitData { pending_pan: self.pending_pan.spec_plus(self.pan_step(delta)), ..self }
    }

    pub open spec fn settled(self, right: Vec3, up: Vec3) -> OrbitData {
        OrbitData {
            target: self.target.spec_plus(right.spec_scaled(self.pending_pan.x)).spec_plus(
                up.spec_scaled(self.pending_pan.y),
            ),
            pending_pan: Vec2 { x: 0, y: 0 },
            ..self
        }
    }

    pub open spec fn zoomed(self, factor: i64) -> OrbitData {
        OrbitData { radius: spec_larger(spec_product(self.radius, factor), RADIUS_MIN), ..self }
    }

    /// Where the camera belongs: `radius` away from `target`, facing it,
    /// at the angles `yaw` and `pitch`.
    pub open spec fn placement(self) -> Transform {
        Transform { origin: self.target, distance: self.radius, yaw: self.yaw, pitch: self.pitch }
    }

    /// The state after one step.
    pub open spec fn stepped(self, step: OrbitStep) -> OrbitData {
        match step {
            OrbitStep::Rotate(delta) => self.rotated(delta),
            OrbitStep::Pan(delta) => self.panned(delta),
            OrbitStep::SettlePan { right, up } => self.settled(right, up),
            OrbitStep::Zoom(factor) => self.zoomed(factor),
        }
    }

    /// The state after a run of steps, taken in order.
    pub open spec fn stepped_by_all(self, steps: Seq<OrbitStep>) -> OrbitData
        decreases steps.len(),
    {
        if steps.len() == 0 {
            self
        } else {
            self.stepped_by_all(steps.drop_last()).stepped(steps.last())
        }
    }
}

/// One thing that can be asked of an orbit controller.
pub enum OrbitStep {
    Rotate(Vec2),
    Pan(Vec2),
    SettlePan { right: Vec3, up: Vec3 },
    Zoom(i64),
}

/// An orbit controller. Every value of this type is well formed in the
/// sense of [`OrbitData::wf`].
pub struct OrbitController {
    data: OrbitData,
}

impl View for OrbitController {
    type V = OrbitData;

    closed spec fn view(&self) -> OrbitData {
        self.data
    }
}

impl OrbitController {
    #[verifier::type_invariant]
    spec fn well_formed(self) -> bool {
        self.data.wf()
    }

    /// A controller that looks at `target` from `radius` away, at the given
    /// angles, with both sensitivities one.
    pub fn new(target: Vec3, radius: i64, yaw: i64, pitch: i64) -> (r: OrbitController)
        ensures
            r@ == OrbitData::initial(target, radius, yaw, pitch),
            r@.wf(),
    {
        OrbitController {
            data: OrbitData {
                target,
                radius: larger(radius, RADIUS_MIN),
                yaw,
                pitch: hold_pitch(pitch),
                pending_pan: Vec2::zero(),
                rotate_sensitivity: ONE,
                pan_sensitivity: ONE,
            },
        }
    }

    /// Turns the camera about its target: yaw goes down by `delta.x` times
    /// the sensitivity, pitch by `delta.y` times the sensitivity, and pitch
    /// is then held strictly between [`PITCH_MIN`] and [`PITCH_MAX`].
    pub fn rotate(&mut self, delta: Vec2)
        ensures
            final(self)@ == old(self)@.rotated(delta),
            final(self)@.wf(),
    {
        proof {
            use_type_invariant(&*self);
        }
        let data = self.data;
        self.data = OrbitData {
            yaw: difference(data.yaw, product(delta.x, data.rotate_sensitivity)),
            pitch: hold_pitch(difference(data.pitch, product(delta.y, data.rotate_sensitivity))),
            ..data
        };
    }

    /// Asks for the target to move across the view by `delta` times the
    /// radius times the sensitivity. The move is kept as pending until
    /// [`OrbitController::settle_pan`] is told which way the view faces.
    pub fn pan(&mut self, delta: Vec2)
        ensures
            final(self)@ == old(self)@.panned(delta),
            final(self)@.wf(),
    {
        proof {
            use_type_invariant(&*self);
        }
        let data = self.data;
        let step = delta.scaled(data.radius).scaled(data.pan_sensitivity);
        self.data = OrbitData { pending_pan: data.pending_pan.plus(step), ..data };
    }

    /// Carries out the pending pan: the target moves along `right` and
    /// `up`, which are the view's own axes in world space, by the pending
    /// amounts, and nothing is pending afterwards.
    pub fn settle_pan(&mut self, right: Vec3, up: Vec3)
        ensures
            final(self)@ == old(self)@.settled(right, up),
            final(self)@.wf(),
    {
        proof {
            use_type_invariant(&*self);
        }
        let data = self.data;
        let target = data.target.plus(right.scaled(data.pending_pan.x)).plus(
            up.scaled(data.pending_pan.y),
        );
        self.data = OrbitData { target, pending_pan: Vec2::zero(), ..data };
    }

    /// Multiplies the radius by `factor` and holds it at [`RADIUS_MIN`] or
    /// above, whatever the factor is.
    pub fn zoom(&mut self, factor: i64)
        ensures
            final(self)@ == old(self)@.zoomed(factor),
            final(self)@.wf(),
    {
        proof {
            use_type_invariant(&*self);
        }
        let data = self.data;
        self.data = OrbitData { radius: larger(product(data.radius, factor), RADIUS_MIN), ..data };
    }

    /// Sets how many radians the camera turns for each unit handed to
    /// `rotate`. A negative number turns it the other way.
    pub fn set_rotate_sensitivity(&mut self, sensitivity: i64)
        ensures
            final(self)@ == (OrbitData { rotate_sensitivity: sensitivity, ..old(self)@ }),
            final(self)@.wf(),
    {
        proof {
            use_type_invariant(&*self);
        }
        let data = self.data;
        self.data = OrbitData { rotate_sensitivity: sensitivity, ..data };
    }

    /// Sets what share of the radius the target moves for each unit handed
    /// to `pan`.
    pub fn set_pan_sensitivity(&mut self, sensitivity: i64)
        ensures
            final(self)@ == (OrbitData { pan_sensitivity: sensitivity, ..old(self)@ }),
            final(self)@.wf(),
    {
        proof {
            use_type_invariant(&*self);
        }
        let data = self.data;
        self.data = OrbitData { pan_sensitivity: sensitivity, ..data };
    }

    /// Everything the controller holds, as plain data.
    pub fn data(&self) -> (r: OrbitData)
        ensures
            r == self@,
            r.wf(),
    {
        proof {
            use_type_invariant(self);
        }
        self.data
    }

    /// Where the camera belongs.
    pub fn placement(&self) -> (r: Transform)
        ensures
            r == self@.placement(),
            r.distance >= RADIUS_MIN,
            PITCH_MIN < r.pitch < PITCH_MAX,
    {
        proof {
            use_type_invariant(self);
        }
        Transform {
            origin: self.data.target,
            distance: self.data.radius,
            yaw: self.data.yaw,
            pitch: self.data.pitch,
        }
    }
}

impl<T: TransformedObject> Controller<T> for OrbitController {
    /// The controller stays as it is and the target is given the
    /// controller's placement.
    open spec fn updates(&self, after_self: &Self, before: &T, after: &T) -> bool {
        &&& after_self@ == self@
        &&& after.spec_transform() == self@.placement()
        &&& before.moved(after, self@.placement())
    }

    fn update(&mut self, target: &mut T) {
        target.set_transform(self.placement());
    }
}

/// Whatever is asked of the controller, and in whatever order, turns by
/// any amount, pans, zooms by factors positive, zero or negative: the pitch
/// stays strictly between its bounds, which lie strictly between straight
/// down and straight up, and the radius stays at [`RADIUS_MIN`] or above,
/// and so above zero.
pub proof fn lemma_steps_keep_bounds(start: OrbitData, steps: Seq<OrbitStep>)
    requires
        start.wf(),
    ensures
        start.stepped_by_all(steps).wf(),
        -HALF_PI < PITCH_MIN < start.stepped_by_all(steps).pitch < PITCH_MAX < HALF_PI,
        start.stepped_by_all(steps).radius >= RADIUS_MIN > 0,
    decreases steps.len(),
{
    if steps.len() > 0 {
        lemma_steps_keep_bounds(start, steps.drop_last());
    }
}

/// At a sensitivity of one a turn takes the yaw down by exactly `delta.x`.
pub proof fn lemma_rotate_at_unit_sensitivity(start: OrbitData, delta: Vec2)
    requires
        start.rotate_sensitivity == ONE,
    ensures
        start.rotated(delta).yaw == spec_difference(start.yaw, delta.x),
        start.rotated(delta).pitch == spec_hold_pitch(spec_difference(start.pitch, delta.y)),
{
    lemma_product_units(delta.x);
    lemma_product_units(delta.y);
}

/// An update with nothing new to tell changes nothing: after one update of
/// a perspective camera, a second one leaves controller and camera as
/// they are.
pub proof fn lemma_update_settles(
    controller: OrbitController,
    once: OrbitController,
    twice: OrbitController,
    camera: PerspectiveCamera,
    camera_once: PerspectiveCamera,
    camera_twice: PerspectiveCamera,
)
    requires
        controller.updates(&once, &camera, &camera_once),
        once.updates(&twice, &camera_once, &camera_twice),
    ensures
        twice@ == once@,
        camera_twice@ == camera_once@,
{
}

/// Two controllers that have come to the same target, radius, yaw and
/// pitch place the camera alike, whatever else they hold and by whatever
/// steps they came there.
pub proof fn lemma_placement_determined(
    a: OrbitData,
    a_steps: Seq<OrbitStep>,
    b: OrbitData,
    b_steps: Seq<OrbitStep>,
)
    requires
        a.stepped_by_all(a_steps).target == b.stepped_by_all(b_steps).target,
        a.stepped_by_all(a_steps).radius == b.stepped_by_all(b_steps).radius,
        a.stepped_by_all(a_steps).yaw == b.stepped_by_all(b_steps).yaw,
        a.stepped_by_all(a_steps).pitch == b.stepped_by_all(b_steps).pitch,
    ensures
        a.stepped_by_all(a_steps).placement() == b.stepped_by_all(b_steps).placement(),
{
}

} // verus!
