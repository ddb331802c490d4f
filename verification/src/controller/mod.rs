//! Controllers: what turns input into the placement of a target.

pub mod fps;
pub mod orbit;

pub use fps::FpsController;
pub use fps::FpsData;
pub use orbit::OrbitController;
pub use orbit::OrbitData;
pub use orbit::OrbitStep;

use vstd::prelude::*;

verus! {

/// Something that places a target from the state it has gathered.
pub trait Controller<T> {
    /// Whether one update may lead from this controller and `before` to
    /// `after_self` and `after`. A controller that says nothing promises
    /// nothing.
    open spec fn updates(&self, after_self: &Self, before: &T, after: &T) -> bool {
        true
    }

    fn update(&mut self, target: &mut T)
        ensures
            old(self).updates(final(self), old(target), final(target)),
    ;
}

} // verus!
