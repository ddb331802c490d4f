//! Where an object stands and which way it faces.

use vstd::prelude::*;
use crate::vector::Vec3;

verus! {

/// A placement in closed form.
///
/// The object faces the way that the two angles give. With both at zero it
/// faces along the negative z axis, with x to its right and y upward; a
/// positive `yaw` turns it to its left about the y axis, a positive `pitch`
/// tilts it upward. It stands `distance` behind `origin`, against the
/// direction it faces, so that it looks at `origin` from that far away;
/// with a distance of zero it stands at `origin`. Held this way the
/// orientation is a rotation whatever the numbers are: there is no matrix
/// that could lose its right angles.
#[derive(Clone, Copy, Debug, PartialEq, Eq, Structural)]
pub struct Transform {
    pub origin: Vec3,
    pub distance: i64,
    pub yaw: i64,
    pub pitch: i64,
}

impl Transform {
    /// At the origin of the world, facing the way of yaw and pitch zero.
    pub fn identity() -> (r: Transform)
        ensures
            r == (Transform { origin: Vec3 { x: 0, y: 0, z: 0 }, distance: 0, yaw: 0, pitch: 0 }),
    {
        Transform { origin: Vec3::zero(), distance: 0, yaw: 0, pitch: 0 }
    }
}

/// Something that owns a transform.
pub trait TransformedObject: Sized {
    /// The transform the object has.
    spec fn spec_transform(&self) -> Transform;

    /// Whether `after` is this object given another transform. An
    /// implementation says here what else stays as it was.
    open spec fn moved(&self, after: &Self, transform: Transform) -> bool {
        true
    }

    fn get_transform(&self) -> (r: &Transform)
        ensures
            *r == self.spec_transform(),
    ;

    fn set_transform(&mut self, transform: Transform)
        ensures
            final(self).spec_transform() == transform,
            old(self).moved(final(self), transform),
    ;
}

} // verus!
