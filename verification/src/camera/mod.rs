//! Cameras: a transform together with a projection.
//!
//! A projection is kept in closed form, as the numbers that its matrix is
//! made from. It is brought up to date only by `update_projection` and by
//! what calls it, construction and `resize`; reading it never computes
//! anything, so after a change of parameters it shows the old values until
//! the next update.

pub mod perspective;

pub use perspective::PerspectiveCamera;
pub use perspective::PerspectiveData;

use vstd::prelude::*;
use crate::transformed_object::TransformedObject;
use crate::vector::Vec2;

verus! {

/// Half a turn, rounded down: every angle below this one is short of a
/// straight angle.
pub const PI: i64 = 3_141_592;

/// Why a camera refused its parameters. What was refused has changed
/// nothing.
#[derive(Clone, Copy, Debug, PartialEq, Eq, Structural)]
pub enum CameraError {
    /// The field of view was not between nothing and a straight angle.
    InvalidFov,
    /// A side of the aspect ratio was zero or negative.
    InvalidAspect,
    /// The near plane was not in front of the eye, or the far plane not
    /// beyond the near one.
    InvalidClip,
    /// A side of the viewport was zero or negative.
    InvalidSize,
}

/// A perspective projection in closed form.
#[derive(Clone, Copy, Debug, PartialEq, Eq, Structural)]
pub struct Projection {
    /// The vertical field of view, in radians.
    pub fov: i64,
    /// Width to height, as the two sides of the ratio.
    pub aspect: Vec2,
    pub near: i64,
    pub far: i64,
}

impl Projection {
    /// The numbers describe a view frustum: an opening between nothing and
    /// a straight angle, a ratio of positive sides, and a near plane in
    /// front of the eye with the far plane beyond it.
    pub open spec fn valid(self) -> bool {
        &&& 0 < self.fov < PI
        &&& self.aspect.x > 0
        &&& self.aspect.y > 0
        &&& 0 < self.near < self.far
    }

    /// What is wrong with the numbers, if anything; the first fault found,
    /// looking at the field of view, then the aspect, then the planes.
    pub open spec fn fault(self) -> Option<CameraError> {
        if !(0 < self.fov < PI) {
            Some(CameraError::InvalidFov)
        } else if !(self.aspect.x > 0 && self.aspect.y > 0) {
            Some(CameraError::InvalidAspect)
        } else if !(0 < self.near < self.far) {
            Some(CameraError::InvalidClip)
        } else {
            None
        }
    }

    /// Looks for a fault in the numbers.
    pub fn check(&self) -> (r: Option<CameraError>)
        ensures
            r == self.fault(),
            r is None <==> self.valid(),
    {
        if self.fov <= 0 || self.fov >= PI {
            Some(CameraError::InvalidFov)
        } else if self.aspect.x <= 0 || self.aspect.y <= 0 {
            Some(CameraError::InvalidAspect)
        } else if self.near <= 0 || self.near >= self.far {
            Some(CameraError::InvalidClip)
        } else {
            None
        }
    }
}

/// A camera: a transformed object with a projection.
pub trait Camera: TransformedObject {
    /// The projection as it was last computed.
    spec fn spec_projection(&self) -> Projection;

    /// The projection that the parameters of the moment give.
    spec fn current_projection(&self) -> Projection;

    /// Whether `after` is this camera with an aspect of `size` and the
    /// projection brought up to date. An implementation says here what
    /// else stays as it was.
    open spec fn resized(&self, after: &Self, size: Vec2) -> bool {
        true
    }

    /// Computes the projection anew from the parameters of the moment.
    /// The parameters and the transform stay as they are.
    fn update_projection(&mut self)
        ensures
            final(self).spec_projection() == old(self).current_projection(),
            final(self).current_projection() == old(self).current_projection(),
            final(self).spec_transform() == old(self).spec_transform(),
    ;

    /// The projection as it was last computed. Nothing is computed here.
    fn get_projection_matrix(&self) -> (r: &Projection)
        ensures
            *r == self.spec_projection(),
    ;

    /// Takes the size of the viewport as the new aspect and computes the
    /// projection anew. A size with a side that is not positive is refused
    /// and changes nothing.
    fn resize(&mut self, size: Vec2) -> (r: Result<(), CameraError>)
        ensures
            size.x > 0 && size.y > 0 ==> {
                &&& r is Ok
                &&& final(self).spec_projection().aspect == size
                &&& final(self).spec_projection() == final(self).current_projection()
                &&& final(self).spec_transform() == old(self).spec_transform()
                &&& old(self).resized(final(self), size)
            },
            !(size.x > 0 && size.y > 0) ==> {
                &&& r is Err
                &&& r->Err_0 == CameraError::InvalidSize
                &&& *final(self) == *old(self)
            },
    ;
}

} // verus!
