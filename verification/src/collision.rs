//! Circle-versus-rectangle overlap test used to decide catches.

use vstd::prelude::*;

use crate::geom::{Rect, Vec2};
use crate::num::iclamp;

verus! {

/// Coordinates accepted by the overlap test; keeps every squared distance
/// inside `i64`.
pub const COLLISION_COORD_LIMIT: i64 = 1_000_000_000;

/// Whether a circle at `center` with `radius` overlaps `rect`: the circle
/// center is clamped into the rectangle, and the squared distance from the
/// center to that closest point is compared with the squared radius.
pub open spec fn spec_collides(center: Vec2, radius: int, rect: Rect) -> bool {
    let cx = iclamp(center.x as int, rect.x as int, rect.x + rect.width);
    let cy = iclamp(center.y as int, rect.y as int, rect.y + rect.height);
    let dx = center.x - cx;
    let dy = center.y - cy;
    dx * dx + dy * dy < radius * radius
}

/// Executable overlap test, equal to `spec_collides`.
pub fn check_collision(center: Vec2, radius: i64, rect: Rect) -> (hit: bool)
    requires
        -COLLISION_COORD_LIMIT <= center.x <= COLLISION_COORD_LIMIT,
        -COLLISION_COORD_LIMIT <= center.y <= COLLISION_COORD_LIMIT,
        -COLLISION_COORD_LIMIT <= rect.x,
        -COLLISION_COORD_LIMIT <= rect.y,
        0 <= rect.width,
        0 <= rect.height,
        rect.x + rect.width <= COLLISION_COORD_LIMIT,
        rect.y + rect.height <= COLLISION_COORD_LIMIT,
        0 <= radius <= COLLISION_COORD_LIMIT,
    ensures
        hit == spec_collides(center, radius as int, rect),
{
    let closest_x: i64 = crate::num::clamp_i64(center.x, rect.x, rect.x + rect.width);
    let closest_y: i64 = crate::num::clamp_i64(center.y, rect.y, rect.y + rect.height);
    let dx: i64 = center.x - closest_x;
    let dy: i64 = center.y - closest_y;
    proof {
        assert(dx * dx <= 4_000_000_000_000_000_000 && dx * dx >= 0) by (nonlinear_arith)
            requires
                -2_000_000_000 <= dx <= 2_000_000_000,
        ;
        assert(dy * dy <= 4_000_000_000_000_000_000 && dy * dy >= 0) by (nonlinear_arith)
            requires
                -2_000_000_000 <= dy <= 2_000_000_000,
        ;
        assert(radius * radius <= 1_000_000_000_000_000_000 && radius * radius >= 0)
            by (nonlinear_arith)
            requires
                0 <= radius <= 1_000_000_000,
        ;
    }
    dx * dx + dy * dy < radius * radius
}

} // verus!
