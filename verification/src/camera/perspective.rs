//! The perspective camera.

use vstd::prelude::*;
use crate::camera::{Camera, CameraError, Projection};
use crate::transformed_object::{Transform, TransformedObject};
use crate::vector::{Vec2, Vec3};

verus! {

/// What a perspective camera holds.
#[derive(Clone, Copy, Debug, PartialEq, Eq, Structural)]
pub struct PerspectiveData {
    /// The vertical field of view, in radians.
    pub fov: i64,
    /// Width to height, as the two sides of the ratio.
    pub aspect: Vec2,
    pub near: i64,
    pub far: i64,
    /// The projection as last computed.
    pub projection: Projection,
    pub transform: Transform,
}

impl PerspectiveData {
    /// The projection that the parameters give.
    pub open spec fn parameters(self) -> Projection {
        Projection { fov: self.fov, aspect: self.aspect, near: self.near, far: self.far }
    }

    /// Both the parameters and the projection last computed describe a
    /// view frustum.
    pub open spec fn wf(self) -> bool {
        &&& self.parameters().valid()
        &&& self.projection.valid()
    }

    /// A camera with these parameters, its projection computed, at the
    /// identity transform.
    pub open spec fn initial(parameters: Projection) -> PerspectiveData {
        PerspectiveData {
            fov: parameters.fov,
            aspect: parameters.aspect,
            near: parameters.near,
            far: parameters.far,
            projection: parameters,
            transform: Transform {
                origin: Vec3 { x: 0, y: 0, z: 0 },
                distance: 0,
                yaw: 0,
                pitch: 0,
            },
        }
    }

    /// The projection computed anew.
    pub open spec fn reprojected(self) -> PerspectiveData {
        PerspectiveData { projection: self.parameters(), ..self }
    }

    /// The aspect taken from a viewport and the projection computed anew.
    pub open spec fn resized(self, size: Vec2) -> PerspectiveData {
        (PerspectiveData { aspect: size, ..self }).reprojected()
    }
}

/// A camera with a perspective projection. Every value of this type is
/// well formed in the sense of [`PerspectiveData::wf`].
pub struct PerspectiveCamera {
    data: PerspectiveData,
}

impl View for PerspectiveCamera {
    type V = PerspectiveData;

    closed spec fn view(&self) -> PerspectiveData {
        self.data
    }
}

impl PerspectiveCamera {
    #[verifier::type_invariant]
    spec fn well_formed(self) -> bool {
        self.data.wf()
    }

    /// A camera with the given field of view, aspect, and near and far
    /// planes. Its projection is computed at once. Numbers that describe
    /// no view frustum are refused.
    pub fn new(fov: i64, aspect: Vec2, near: i64, far: i64) -> (r: Result<
        PerspectiveCamera,
        CameraError,
    >)
        ensures
            match (Projection { fov, aspect, near, far }).fault() {
                Some(error) => r is Err && r->Err_0 == error,
                None => r is Ok && r->Ok_0@ == PerspectiveData::initial(
                    Projection { fov, aspect, near, far },
                ),
            },
    {
        let parameters = Projection { fov, aspect, near, far };
        match parameters.check() {
            Some(error) => Err(error),
            None => Ok(
                PerspectiveCamera {
                    data: PerspectiveData {
                        fov,
                        aspect,
                        near,
                        far,
                        projection: parameters,
                        transform: Transform::identity(),
                    },
                },
            ),
        }
    }

    /// Takes a new field of view. The projection is not computed anew: it
    /// shows the old opening until the next update. An opening that is not
    /// between nothing and a straight angle is refused and changes
    /// nothing.
    pub fn set_fov(&mut self, fov: i64) -> (r: Result<(), CameraError>)
        ensures
            match (Projection { fov, ..old(self)@.parameters() }).fault() {
                Some(error) => r is Err && r->Err_0 == error && final(self)@ == old(self)@,
                None => r is Ok && final(self)@ == (PerspectiveData { fov, ..old(self)@ }),
            },
    {
        proof {
            use_type_invariant(&*self);
        }
        let data = self.data;
        let parameters = Projection { fov, aspect: data.aspect, near: data.near, far: data.far };
        match parameters.check() {
            Some(error) => Err(error),
            None => {
                self.data = PerspectiveData { fov, ..data };
                Ok(())
            },
        }
    }

    /// Takes new near and far planes. The projection is not computed anew.
    /// Planes that are out of order or not in front of the eye are refused
    /// and change nothing.
    pub fn set_clip(&mut self, near: i64, far: i64) -> (r: Result<(), CameraError>)
        ensures
            match (Projection { near, far, ..old(self)@.parameters() }).fault() {
                Some(error) => r is Err && r->Err_0 == error && final(self)@ == old(self)@,
                None => r is Ok && final(self)@ == (PerspectiveData { near, far, ..old(self)@ }),
            },
    {
        proof {
            use_type_invariant(&*self);
        }
        let data = self.data;
        let parameters = Projection { fov: data.fov, aspect: data.aspect, near, far };
        match parameters.check() {
            Some(error) => Err(error),
            None => {
                self.data = PerspectiveData { near, far, ..data };
                Ok(())
            },
        }
    }

    /// Everything the camera holds, as plain data.
    pub fn data(&self) -> (r: PerspectiveData)
        ensures
            r == self@,
            r.wf(),
    {
        proof {
            use_type_invariant(self);
        }
        self.data
    }
}

impl TransformedObject for PerspectiveCamera {
    open spec fn spec_transform(&self) -> Transform {
        self@.transform
    }

    /// Only the transform differs.
    open spec fn moved(&self, after: &Self, transform: Transform) -> bool {
        after@ == (PerspectiveData { transform, ..self@ })
    }

    fn get_transform(&self) -> (r: &Transform) {
        &self.data.transform
    }

    fn set_transform(&mut self, transform: Transform) {
        proof {
            use_type_invariant(&*self);
        }
        let data = self.data;
        self.data = PerspectiveData { transform, ..data };
    }
}

impl Camera for PerspectiveCamera {
    open spec fn spec_projection(&self) -> Projection {
        self@.projection
    }

    open spec fn current_projection(&self) -> Projection {
        self@.parameters()
    }

    open spec fn resized(&self, after: &Self, size: Vec2) -> bool {
        after@ == self@.resized(size)
    }

    fn update_projection(&mut self)
        ensures
            final(self)@ == old(self)@.reprojected(),
    {
        proof {
            use_type_invariant(&*self);
        }
        let data = self.data;
        self.data = PerspectiveData {
            projection: Projection {
                fov: data.fov,
                aspect: data.aspect,
                near: data.near,
                far: data.far,
            },
            ..data
        };
    }

    fn get_projection_matrix(&self) -> (r: &Projection)
        ensures
            r.valid(),
    {
        proof {
            use_type_invariant(self);
        }
        &self.data.projection
    }

    fn resize(&mut self, size: Vec2) -> (r: Result<(), CameraError>)
        ensures
            !(size.x > 0 && size.y > 0) ==> final(self)@ == old(self)@,
    {
        proof {
            use_type_invariant(&*self);
        }
        if size.x <= 0 || size.y <= 0 {
            return Err(CameraError::InvalidSize);
        }
        let data = self.data;
        self.data = PerspectiveData { aspect: size, ..data };
        self.update_projection();
        Ok(())
    }
}

/// Computing the projection twice from the same parameters gives what
/// computing it once gave.
pub proof fn lemma_update_projection_idempotent(camera: PerspectiveData)
    ensures
        camera.reprojected().reprojected() == camera.reprojected(),
{
}

/// After a resize to a viewport with positive sides, the projection holds
/// exactly that viewport's width to height, and is up to date.
pub proof fn lemma_resize_sets_aspect(camera: PerspectiveData, size: Vec2)
    requires
        camera.wf(),
        size.x > 0,
        size.y > 0,
    ensures
        camera.resized(size).projection.aspect == size,
        camera.resized(size).projection == camera.resized(size).parameters(),
        camera.resized(size).wf(),
{
}

} // verus!
