//! Rigid bodies: a rectangle with a velocity, a kinematic flag and friction.
use vstd::prelude::*;

use crate::geometry::{Rect, Vec2};

verus! {

/// Friction coefficients are integers in thousandths: this value is 1.0.
pub const FRICTION_ONE: i64 = 1000;

/// A body taking part in collisions.
#[derive(Clone, Copy, Debug, PartialEq, Eq, Structural)]
pub struct Body {
    /// Center of the body.
    pub position: Vec2,
    /// Full width and height.
    pub extent: Vec2,
    /// Displacement per time unit.
    pub velocity: Vec2,
    /// A kinematic body is immovable: collisions never change its velocity.
    pub kinematic: bool,
    /// Friction coefficient in thousandths (`FRICTION_ONE` is 1.0).
    pub friction: i64,
}

impl Body {
    /// Extents are non-negative.
    pub open spec fn wf(self) -> bool {
        self.extent.x >= 0 && self.extent.y >= 0
    }

    pub open spec fn spec_rect(self) -> Rect {
        Rect { center: self.position, size: self.extent }
    }

    /// The same body moving with velocity `(vx, vy)`, when both components
    /// fit the velocity's integer type.
    pub open spec fn with_velocity(self, vx: int, vy: int) -> Option<Body> {
        if i64::MIN <= vx <= i64::MAX && i64::MIN <= vy <= i64::MAX {
            Some(Body { velocity: Vec2 { x: vx as i64, y: vy as i64 }, ..self })
        } else {
            None
        }
    }

    /// Builds a body, refusing a negative extent.
    pub fn new(position: Vec2, extent: Vec2, velocity: Vec2, kinematic: bool, friction: i64) -> (r:
        Option<Body>)
        ensures
            r is Some <==> extent.x >= 0 && extent.y >= 0,
            r matches Some(b) ==> b.wf() && b == (Body {
                position,
                extent,
                velocity,
                kinematic,
                friction,
            }),
    {
        if extent.x < 0 || extent.y < 0 {
            None
        } else {
            Some(Body { position, extent, velocity, kinematic, friction })
        }
    }

    /// The rectangle the body occupies.
    pub fn rect(&self) -> (r: Rect)
        ensures
            r == self.spec_rect(),
    {
        Rect { center: self.position, size: self.extent }
    }

    /// The body with a new velocity, or `None` when a component does not fit.
    pub(crate) fn try_with_velocity(&self, vx: i128, vy: i128) -> (r: Option<Body>)
        ensures
            r == self.with_velocity(vx as int, vy as int),
    {
        if vx < i64::MIN as i128 || vx > i64::MAX as i128 || vy < i64::MIN as i128 || vy
            > i64::MAX as i128 {
            None
        } else {
            Some(Body { velocity: Vec2 { x: vx as i64, y: vy as i64 }, ..*self })
        }
    }
}

} // verus!
