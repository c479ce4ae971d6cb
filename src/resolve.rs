//! Collision response between two bodies, under two distinct policies.
//!
//! * Static: overlap is tested at the current positions, and the side of the
//!   hit is classified by `collide_with_side`. A top or bottom hit negates the
//!   vertical velocity; a left or right hit negates the horizontal velocity and
//!   adds three tenths of the other body's vertical velocity.
//! * Swept: each axis is probed with a one-step look-ahead (`position +
//!   velocity * dt`) along that axis only. A horizontal hit negates the
//!   horizontal velocity and adds the friction-scaled vertical velocity of the
//!   other body; a vertical hit does the same with the axes swapped. The
//!   vertical probe runs after the horizontal response, so both may apply in
//!   one step.
//!
//! Under both policies a kinematic body never changes, and a pair of kinematic
//! bodies is skipped. Responses use the velocities from before the pair's
//! update (each phase, for the swept policy). A response whose velocity would
//! not fit `i64` makes the whole resolution fail with `None`.
use vstd::prelude::*;

use crate::body::Body;
use crate::friction::{static_transfer, static_transfer_of, swept_transfer, swept_transfer_of};
use crate::geometry::{collide_with_side, collision_side, coord_bound, overlap_1d, overlap_axis, Collision};

verus! {

/// Both bodies, when both are there.
pub open spec fn both(a: Option<Body>, b: Option<Body>) -> Option<(Body, Body)> {
    match (a, b) {
        (Some(a2), Some(b2)) => Some((a2, b2)),
        _ => None,
    }
}

/// Static policy: the velocity of `this` after meeting `other`.
pub open spec fn static_velocity(this: Body, other: Body) -> (int, int) {
    let vx = this.velocity.x as int;
    let vy = this.velocity.y as int;
    if this.kinematic {
        (vx, vy)
    } else {
        match collision_side(this.spec_rect(), other.spec_rect()) {
            None => (vx, vy),
            Some(Collision::Top) => (vx, -vy),
            Some(Collision::Bottom) => (vx, -vy),
            Some(_) => (-vx, vy + static_transfer(other.velocity.y as int)),
        }
    }
}

/// Static policy: the pair after resolving their collision, if any.
pub open spec fn static_pair(a: Body, b: Body) -> Option<(Body, Body)> {
    if a.kinematic && b.kinematic {
        Some((a, b))
    } else {
        let va = static_velocity(a, b);
        let vb = static_velocity(b, a);
        both(a.with_velocity(va.0, va.1), b.with_velocity(vb.0, vb.1))
    }
}

/// A coordinate after one step of motion.
pub open spec fn moved(c: i64, v: i64, dt: u32) -> int {
    c + v * dt
}

/// Swept policy: the bodies overlap once each moves one step horizontally.
pub open spec fn x_probe(a: Body, b: Body, dt: u32) -> bool {
    overlap_1d(
        moved(a.position.x, a.velocity.x, dt),
        a.extent.x as int,
        moved(b.position.x, b.velocity.x, dt),
        b.extent.x as int,
    ) && overlap_1d(
        a.position.y as int,
        a.extent.y as int,
        b.position.y as int,
        b.extent.y as int,
    )
}

/// Swept policy: the bodies overlap once each moves one step vertically.
pub open spec fn y_probe(a: Body, b: Body, dt: u32) -> bool {
    overlap_1d(
        moved(a.position.y, a.velocity.y, dt),
        a.extent.y as int,
        moved(b.position.y, b.velocity.y, dt),
        b.extent.y as int,
    ) && overlap_1d(
        a.position.x as int,
        a.extent.x as int,
        b.position.x as int,
        b.extent.x as int,
    )
}

/// Swept policy: the velocity of `this` after a horizontal hit by `other`.
pub open spec fn swept_x_velocity(this: Body, other: Body) -> (int, int) {
    let vx = this.velocity.x as int;
    let vy = this.velocity.y as int;
    if this.kinematic {
        (vx, vy)
    } else {
        (-vx, vy + swept_transfer(other.velocity.y as int, this.friction as int, other.friction as int))
    }
}

/// Swept policy: the velocity of `this` after a vertical hit by `other`.
pub open spec fn swept_y_velocity(this: Body, other: Body) -> (int, int) {
    let vx = this.velocity.x as int;
    let vy = this.velocity.y as int;
    if this.kinematic {
        (vx, vy)
    } else {
        (vx + swept_transfer(other.velocity.x as int, this.friction as int, other.friction as int), -vy)
    }
}

/// Swept policy, horizontal phase.
pub open spec fn swept_x_phase(a: Body, b: Body, dt: u32) -> Option<(Body, Body)> {
    if x_probe(a, b, dt) {
        let va = swept_x_velocity(a, b);
        let vb = swept_x_velocity(b, a);
        both(a.with_velocity(va.0, va.1), b.with_velocity(vb.0, vb.1))
    } else {
        Some((a, b))
    }
}

/// Swept policy, vertical phase.
pub open spec fn swept_y_phase(a: Body, b: Body, dt: u32) -> Option<(Body, Body)> {
    if y_probe(a, b, dt) {
        let va = swept_y_velocity(a, b);
        let vb = swept_y_velocity(b, a);
        both(a.with_velocity(va.0, va.1), b.with_velocity(vb.0, vb.1))
    } else {
        Some((a, b))
    }
}

/// Swept policy: the pair after the horizontal, then the vertical phase.
pub open spec fn swept_pair(a: Body, b: Body, dt: u32) -> Option<(Body, Body)> {
    if a.kinematic && b.kinematic {
        Some((a, b))
    } else {
        match swept_x_phase(a, b, dt) {
            None => None,
            Some(p) => swept_y_phase(p.0, p.1, dt),
        }
    }
}

fn both_of(a: Option<Body>, b: Option<Body>) -> (r: Option<(Body, Body)>)
    ensures
        r == both(a, b),
{
    match (a, b) {
        (Some(a2), Some(b2)) => Some((a2, b2)),
        _ => None,
    }
}

fn static_velocity_of(this: &Body, other: &Body) -> (r: (i128, i128))
    requires
        this.wf(),
        other.wf(),
    ensures
        r.0 == static_velocity(*this, *other).0,
        r.1 == static_velocity(*this, *other).1,
{
    let vx = this.velocity.x as i128;
    let vy = this.velocity.y as i128;
    if this.kinematic {
        return (vx, vy);
    }
    match collide_with_side(&this.rect(), &other.rect()) {
        None => (vx, vy),
        Some(Collision::Top) => (vx, -vy),
        Some(Collision::Bottom) => (vx, -vy),
        Some(_) => (-vx, vy + static_transfer_of(other.velocity.y) as i128),
    }
}

/// Static policy: resolves a collision between `a` and `b`. Returns the pair
/// with updated velocities, or `None` if a velocity would leave `i64`.
pub fn resolve_static(a: &Body, b: &Body) -> (r: Option<(Body, Body)>)
    requires
        a.wf(),
        b.wf(),
    ensures
        r == static_pair(*a, *b),
{
    if a.kinematic && b.kinematic {
        return Some((*a, *b));
    }
    let va = static_velocity_of(a, b);
    let vb = static_velocity_of(b, a);
    both_of(a.try_with_velocity(va.0, va.1), b.try_with_velocity(vb.0, vb.1))
}

fn moved_of(c: i64, v: i64, dt: u32) -> (r: i128)
    ensures
        r == moved(c, v, dt),
        -coord_bound() < r < coord_bound(),
{
    assert(-0x8000_0000_0000_0000 * 0x1_0000_0000 <= v * dt <= 0x8000_0000_0000_0000 * 0x1_0000_0000)
        by (nonlinear_arith)
        requires
            -0x8000_0000_0000_0000 <= v < 0x8000_0000_0000_0000,
            0 <= dt < 0x1_0000_0000,
    ;
    let m = v as i128 * dt as i128;
    c as i128 + m
}

fn x_probe_of(a: &Body, b: &Body, dt: u32) -> (r: bool)
    ensures
        r == x_probe(*a, *b, dt),
{
    overlap_axis(
        moved_of(a.position.x, a.velocity.x, dt),
        a.extent.x,
        moved_of(b.position.x, b.velocity.x, dt),
        b.extent.x,
    ) && overlap_axis(a.position.y as i128, a.extent.y, b.position.y as i128, b.extent.y)
}

fn y_probe_of(a: &Body, b: &Body, dt: u32) -> (r: bool)
    ensures
        r == y_probe(*a, *b, dt),
{
    overlap_axis(
        moved_of(a.position.y, a.velocity.y, dt),
        a.extent.y,
        moved_of(b.position.y, b.velocity.y, dt),
        b.extent.y,
    ) && overlap_axis(a.position.x as i128, a.extent.x, b.position.x as i128, b.extent.x)
}

fn swept_x_velocity_of(this: &Body, other: &Body) -> (r: (i128, i128))
    ensures
        r.0 == swept_x_velocity(*this, *other).0,
        r.1 == swept_x_velocity(*this, *other).1,
{
    let vx = this.velocity.x as i128;
    let vy = this.velocity.y as i128;
    if this.kinematic {
        (vx, vy)
    } else {
        (-vx, vy + swept_transfer_of(other.velocity.y, this.friction, other.friction) as i128)
    }
}

fn swept_y_velocity_of(this: &Body, other: &Body) -> (r: (i128, i128))
    ensures
        r.0 == swept_y_velocity(*this, *other).0,
        r.1 == swept_y_velocity(*this, *other).1,
{
    let vx = this.velocity.x as i128;
    let vy = this.velocity.y as i128;
    if this.kinematic {
        (vx, vy)
    } else {
        (vx + swept_transfer_of(other.velocity.x, this.friction, other.friction) as i128, -vy)
    }
}

/// Swept policy: resolves a collision between `a` and `b` over a step of
/// `dt` time units. Returns the pair with updated velocities, or `None` if a
/// velocity would leave `i64`.
pub fn resolve_swept(a: &Body, b: &Body, dt: u32) -> (r: Option<(Body, Body)>)
    requires
        a.wf(),
        b.wf(),
    ensures
        r == swept_pair(*a, *b, dt),
{
    if a.kinematic && b.kinematic {
        return Some((*a, *b));
    }
    let (a1, b1) = if x_probe_of(a, b, dt) {
        let va = swept_x_velocity_of(a, b);
        let vb = swept_x_velocity_of(b, a);
        match both_of(a.try_with_velocity(va.0, va.1), b.try_with_velocity(vb.0, vb.1)) {
            None => return None,
            Some(p) => p,
        }
    } else {
        (*a, *b)
    };
    if y_probe_of(&a1, &b1, dt) {
        let va = swept_y_velocity_of(&a1, &b1);
        let vb = swept_y_velocity_of(&b1, &a1);
        both_of(a1.try_with_velocity(va.0, va.1), b1.try_with_velocity(vb.0, vb.1))
    } else {
        Some((a1, b1))
    }
}

} // verus!
