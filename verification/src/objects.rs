//! A single falling item: vertical kinematics under gravity, a
//! classification tag, and a cosmetic animation phase.

use vstd::prelude::*;

use crate::anim::{spec_advance, AnimClock};
use crate::config::{
    DT_LIMIT, LEN_LIMIT, OBJ_ANIM_FPS, OBJ_FRAME_COUNT, OBJ_GRAVITY, OBJ_INIT_SPEED_LIMIT,
    OBJ_MAX_SPEED, OBJ_POS_Y_LIMIT, OBJ_RADIUS, OBJ_SPAWN_Y,
};
use crate::geom::Vec2;
use crate::num::imin;

verus! {

/// Classification of a falling item. Normal and Angel are safe catches,
/// Devil triggers a random temporary effect, and Explode is the rare
/// Volatile kind that always resets the score.
#[derive(Clone, Copy, PartialEq, Eq, Structural, Debug)]
pub enum CatKind {
    Normal,
    Angel,
    Devil,
    Explode,
}

/// One falling item. Only the vertical velocity is meaningful: items fall
/// straight down.
#[derive(Clone, Copy, PartialEq, Eq, Structural, Debug)]
pub struct FallingObject {
    /// Center of the item, in milliunits.
    pub pos: Vec2,
    /// Radius of the item, in milliunits.
    pub radius: i64,
    /// Downward velocity, in milliunits per second.
    pub velocity: i64,
    /// Classification tag, fixed at creation.
    pub kind: CatKind,
    /// Cosmetic animation phase.
    pub anim: AnimClock,
}

/// Velocity after one step: gravity is integrated over `dt` and the result
/// capped at the fall speed limit.
pub open spec fn obj_vel_after(v: int, dt: int) -> int {
    imin(v + (OBJ_GRAVITY * dt) / 1000, OBJ_MAX_SPEED as int)
}

/// Vertical position after one step, integrating the capped velocity.
pub open spec fn obj_pos_y_after(y: int, v: int, dt: int) -> int {
    y + (obj_vel_after(v, dt) * dt) / 1000
}

/// The whole item after one physics step of `dt` milliseconds.
pub open spec fn item_stepped(o: FallingObject, dt: int) -> FallingObject {
    FallingObject {
        pos: Vec2 {
            x: o.pos.x,
            y: obj_pos_y_after(o.pos.y as int, o.velocity as int, dt) as i64,
        },
        radius: o.radius,
        velocity: obj_vel_after(o.velocity as int, dt) as i64,
        kind: o.kind,
        anim: spec_advance(o.anim, dt, OBJ_ANIM_FPS as int, OBJ_FRAME_COUNT as int),
    }
}

impl FallingObject {
    /// Bounds every update preserves: a non-negative capped velocity, a
    /// fixed radius, and coordinates inside the play range.
    pub open spec fn wf(self) -> bool {
        &&& 0 <= self.velocity <= OBJ_INIT_SPEED_LIMIT
        &&& self.radius == OBJ_RADIUS
        &&& 0 <= self.pos.x <= LEN_LIMIT
        &&& -LEN_LIMIT <= self.pos.y
        &&& self.anim.wf(OBJ_ANIM_FPS as int, OBJ_FRAME_COUNT as int)
    }

    /// A new item of kind `kind`, centered at `x` just above the top of the
    /// screen, falling at `initial_speed`.
    pub fn new(x: i64, kind: CatKind, initial_speed: i64) -> (o: FallingObject)
        requires
            0 <= x <= LEN_LIMIT,
            0 <= initial_speed <= OBJ_INIT_SPEED_LIMIT,
        ensures
            o.wf(),
            o.pos.x == x,
            o.pos.y == OBJ_SPAWN_Y,
            o.radius == OBJ_RADIUS,
            o.velocity == initial_speed,
            o.kind == kind,
            o.anim.time == 0,
            o.anim.frame == 0,
    {
        FallingObject {
            pos: Vec2 { x, y: OBJ_SPAWN_Y },
            radius: OBJ_RADIUS,
            velocity: initial_speed,
            kind,
            anim: AnimClock::new(),
        }
    }

    /// One physics step: integrate gravity into the velocity, cap it at the
    /// fall speed limit, integrate the position, and advance the animation.
    pub fn update(&mut self, dt: i64)
        requires
            old(self).wf(),
            old(self).pos.y <= OBJ_POS_Y_LIMIT,
            0 <= dt <= DT_LIMIT,
        ensures
            final(self).wf(),
            *final(self) == item_stepped(*old(self), dt as int),
            final(self).velocity == obj_vel_after(old(self).velocity as int, dt as int),
            final(self).pos.y == obj_pos_y_after(
                old(self).pos.y as int,
                old(self).velocity as int,
                dt as int,
            ),
            final(self).pos.y <= OBJ_POS_Y_LIMIT + 3_200_000,
            final(self).pos.y >= old(self).pos.y,
    {
        let dv: i64 = crate::num::div_pos(OBJ_GRAVITY * dt, 1000);
        let v1: i64 = self.velocity + dv;
        let v2: i64 = crate::num::min_i64(v1, OBJ_MAX_SPEED);
        self.velocity = v2;
        proof {
            assert(0 <= v2 * dt <= 3_200_000_000) by (nonlinear_arith)
                requires
                    0 <= v2 <= 320_000,
                    0 <= dt <= 10_000,
            ;
            vstd::arithmetic::div_mod::lemma_div_is_ordered(v2 * dt, 3_200_000_000, 1000);
        }
        let dy: i64 = crate::num::div_pos(v2 * dt, 1000);
        self.pos.y = self.pos.y + dy;
        self.anim.advance(dt, OBJ_ANIM_FPS, OBJ_FRAME_COUNT);
    }

    /// Whether the item has left the bottom of the screen: true exactly when
    /// its position minus its radius exceeds the screen height.
    pub fn offscreen(&self, screen_h: i64) -> (r: bool)
        requires
            self.wf(),
        ensures
            r == (self.pos.y - self.radius > screen_h),
    {
        self.pos.y - self.radius > screen_h
    }

    /// Current animation frame index.
    pub fn frame(&self) -> (f: usize)
        ensures
            f == self.anim.frame,
    {
        self.anim.frame
    }

    /// Classification tag of the item.
    pub fn kind(&self) -> (k: CatKind)
        ensures
            k == self.kind,
    {
        self.kind
    }
}

} // verus!
