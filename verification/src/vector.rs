//! Pairs and triples of fixed-point numbers.

use vstd::prelude::*;
use crate::fixed::{sum, difference, negation, product, spec_sum, spec_difference, spec_negation,
    spec_product};

verus! {

/// A displacement in the plane of the window or of the view.
#[derive(Clone, Copy, Debug, PartialEq, Eq, Structural)]
pub struct Vec2 {
    pub x: i64,
    pub y: i64,
}

/// A point or a displacement in space.
#[derive(Clone, Copy, Debug, PartialEq, Eq, Structural)]
pub struct Vec3 {
    pub x: i64,
    pub y: i64,
    pub z: i64,
}

impl Vec2 {
    pub open spec fn spec_plus(self, other: Vec2) -> Vec2 {
        Vec2 { x: spec_sum(self.x, other.x), y: spec_sum(self.y, other.y) }
    }

    pub open spec fn spec_minus(self, other: Vec2) -> Vec2 {
        Vec2 { x: spec_difference(self.x, other.x), y: spec_difference(self.y, other.y) }
    }

    pub open spec fn spec_negated(self) -> Vec2 {
        Vec2 { x: spec_negation(self.x), y: spec_negation(self.y) }
    }

    pub open spec fn spec_scaled(self, factor: i64) -> Vec2 {
        Vec2 { x: spec_product(self.x, factor), y: spec_product(self.y, factor) }
    }

    pub fn new(x: i64, y: i64) -> (r: Vec2)
        ensures
            r == (Vec2 { x, y }),
    {
        Vec2 { x, y }
    }

    pub fn zero() -> (r: Vec2)
        ensures
            r == (Vec2 { x: 0, y: 0 }),
    {
        Vec2 { x: 0, y: 0 }
    }

    /// The sum, component by component.
    pub fn plus(self, other: Vec2) -> (r: Vec2)
        ensures
            r == self.spec_plus(other),
    {
        Vec2 { x: sum(self.x, other.x), y: sum(self.y, other.y) }
    }

    /// The difference, component by component.
    pub fn minus(self, other: Vec2) -> (r: Vec2)
        ensures
            r == self.spec_minus(other),
    {
        Vec2 { x: difference(self.x, other.x), y: difference(self.y, other.y) }
    }

    /// The opposite displacement.
    pub fn negated(self) -> (r: Vec2)
        ensures
            r == self.spec_negated(),
    {
        Vec2 { x: negation(self.x), y: negation(self.y) }
    }

    /// Each component multiplied by `factor`.
    pub fn scaled(self, factor: i64) -> (r: Vec2)
        ensures
            r == self.spec_scaled(factor),
    {
        Vec2 { x: product(self.x, factor), y: product(self.y, factor) }
    }
}

impl Vec3 {
    pub open spec fn spec_plus(self, other: Vec3) -> Vec3 {
        Vec3 {
            x: spec_sum(self.x, other.x),
            y: spec_sum(self.y, other.y),
            z: spec_sum(self.z, other.z),
        }
    }

    pub open spec fn spec_scaled(self, factor: i64) -> Vec3 {
        Vec3 {
            x: spec_product(self.x, factor),
            y: spec_product(self.y, factor),
            z: spec_product(self.z, factor),
        }
    }

    pub fn new(x: i64, y: i64, z: i64) -> (r: Vec3)
        ensures
            r == (Vec3 { x, y, z }),
    {
        Vec3 { x, y, z }
    }

    pub fn zero() -> (r: Vec3)
        ensures
            r == (Vec3 { x: 0, y: 0, z: 0 }),
    {
        Vec3 { x: 0, y: 0, z: 0 }
    }

    /// The sum, component by component.
    pub fn plus(self, other: Vec3) -> (r: Vec3)
        ensures
            r == self.spec_plus(other),
    {
        Vec3 { x: sum(self.x, other.x), y: sum(self.y, other.y), z: sum(self.z, other.z) }
    }

    /// Each component multiplied by `factor`.
    pub fn scaled(self, factor: i64) -> (r: Vec3)
        ensures
            r == self.spec_scaled(factor),
    {
        Vec3 {
            x: product(self.x, factor),
            y: product(self.y, factor),
            z: product(self.z, factor),
        }
    }
}

} // verus!
