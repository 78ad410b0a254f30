//! The player-controlled bucket: horizontal physics with acceleration,
//! framerate-independent friction, a difficulty-scaled speed limit, and a
//! hard clamp to the screen range.

use vstd::prelude::*;

use crate::anim::{spec_advance, AnimClock};
use crate::config::{
    BUCKET_ACCEL, BUCKET_ANIM_FPS, BUCKET_FRAME_COUNT, BUCKET_FRICTION, BUCKET_MAX_SPEED,
    BUCKET_VEL_LIMIT, BUCKET_W, BUCKET_Y_OFFSET, DIFFICULTY_LIMIT, DT_LIMIT, LEN_LIMIT,
};
use crate::geom::{Rect, Vec2};
use crate::num::{iabs, iclamp, imax, sdiv};

verus! {

/// Difficulty values the physics accepts, in thousandths.
pub open spec fn difficulty_ok(d: int) -> bool {
    1000 <= d <= DIFFICULTY_LIMIT
}

/// Speed limit at difficulty `d`, in milliunits per second.
pub open spec fn max_speed(d: int) -> int {
    (BUCKET_MAX_SPEED * d) / 1000
}

/// Velocity change from holding `axis` for `dt` milliseconds at difficulty
/// `d`: the held axis scales the base acceleration and the difficulty, each
/// stage truncating its thousandths.
pub open spec fn accel_delta(axis: int, d: int, dt: int) -> int {
    let m = ((iabs(axis) * BUCKET_ACCEL) / 1000 * d) / 1000 * dt / 1000;
    if axis >= 0 {
        m
    } else {
        -m
    }
}

/// Velocity after friction acts for `dt` milliseconds: an exponential decay
/// toward zero, independent of the frame rate.
pub open spec fn friction_vel(v: int, dt: int) -> int {
    sdiv(v * 1000, 1000 + BUCKET_FRICTION * dt)
}

/// Velocity after one input step: acceleration from the axis, friction when
/// no axis is held, and the difficulty-scaled clamp.
pub open spec fn vel_after(v: int, axis: int, d: int, dt: int) -> int {
    let v1 = v + accel_delta(axis, d, dt);
    let v2 = if axis == 0 {
        friction_vel(v1, dt)
    } else {
        v1
    };
    iclamp(v2, -max_speed(d), max_speed(d))
}

/// Horizontal position after integrating velocity `v` for `dt` milliseconds.
pub open spec fn travel_x(x: int, v: int, dt: int) -> int {
    x + sdiv(v * dt, 1000)
}

/// Largest valid horizontal position on a screen of width `screen_w`.
pub open spec fn bound_x(screen_w: int, size_x: int) -> int {
    imax(screen_w - size_x, 0)
}

/// Position after the wall clamp.
pub open spec fn settle_x(x: int, max_x: int) -> int {
    iclamp(x, 0, max_x)
}

/// Velocity after the wall clamp: zeroed when a wall was hit.
pub open spec fn settle_vel(x: int, v: int, max_x: int) -> int {
    if x < 0 || x > max_x {
        0
    } else {
        v
    }
}

/// The bucket's velocity after one whole update.
pub open spec fn stepped_vel(
    pos_x: int,
    v: int,
    axis: int,
    d: int,
    dt: int,
    screen_w: int,
    size_x: int,
) -> int {
    let va = vel_after(v, axis, d, dt);
    settle_vel(travel_x(pos_x, va, dt), va, bound_x(screen_w, size_x))
}

/// The bucket's horizontal position after one whole update.
pub open spec fn stepped_x(
    pos_x: int,
    v: int,
    axis: int,
    d: int,
    dt: int,
    screen_w: int,
    size_x: int,
) -> int {
    let va = vel_after(v, axis, d, dt);
    settle_x(travel_x(pos_x, va, dt), bound_x(screen_w, size_x))
}

/// The player-controlled bucket.
#[derive(Clone, Copy, PartialEq, Eq, Structural, Debug)]
pub struct Bucket {
    /// Top-left corner, in milliunits.
    pub pos: Vec2,
    /// Horizontal velocity, in milliunits per second.
    pub vel: i64,
    /// Width and height, in milliunits.
    pub size: Vec2,
    /// Cosmetic animation phase.
    pub anim: AnimClock,
}

impl Bucket {
    /// Bounds every operation preserves.
    pub open spec fn wf(self) -> bool {
        &&& iabs(self.vel as int) <= BUCKET_VEL_LIMIT
        &&& 0 <= self.pos.x <= LEN_LIMIT
        &&& -LEN_LIMIT <= self.pos.y <= LEN_LIMIT
        &&& 0 < self.size.x <= LEN_LIMIT
        &&& 0 < self.size.y <= LEN_LIMIT
        &&& self.anim.wf(BUCKET_ANIM_FPS as int, BUCKET_FRAME_COUNT as int)
    }

    /// A bucket of the default size, horizontally centered, resting at the
    /// bottom of a `screen_w` by `screen_h` screen.
    pub fn new(screen_w: i64, screen_h: i64) -> (b: Bucket)
        requires
            BUCKET_W <= screen_w <= LEN_LIMIT,
            0 <= screen_h <= LEN_LIMIT,
        ensures
            b.wf(),
            b.pos.x == screen_w as int / 2 - BUCKET_W as int / 2,
            b.pos.y == screen_h - BUCKET_Y_OFFSET,
            b.vel == 0,
            b.size.x == BUCKET_W,
            b.size.y == crate::config::BUCKET_H,
            b.anim.time == 0,
            b.anim.frame == 0,
    {
        let half_w: i64 = crate::num::div_pos(screen_w, 2);
        Bucket {
            pos: Vec2 { x: half_w - BUCKET_W / 2, y: screen_h - BUCKET_Y_OFFSET },
            vel: 0,
            size: Vec2 { x: BUCKET_W, y: crate::config::BUCKET_H },
            anim: AnimClock::new(),
        }
    }

    /// The rectangle the bucket covers.
    pub fn rect(&self) -> (r: Rect)
        ensures
            r.x == self.pos.x,
            r.y == self.pos.y,
            r.width == self.size.x,
            r.height == self.size.y,
    {
        Rect { x: self.pos.x, y: self.pos.y, width: self.size.x, height: self.size.y }
    }

    /// Current animation frame index.
    pub fn frame(&self) -> (f: usize)
        ensures
            f == self.anim.frame,
    {
        self.anim.frame
    }

    /// One physics step. Holding `axis` accelerates the bucket; with the
    /// axis released the velocity decays toward zero; speed is clamped by
    /// the difficulty-scaled limit; the position integrates the velocity and
    /// is clamped to the screen range, zeroing the velocity on a wall hit.
    pub fn update(&mut self, axis: i64, dt: i64, screen_w: i64, difficulty: i64)
        requires
            old(self).wf(),
            -1000 <= axis <= 1000,
            0 <= dt <= DT_LIMIT,
            difficulty_ok(difficulty as int),
            0 <= screen_w <= LEN_LIMIT,
        ensures
            final(self).wf(),
            final(self).vel == stepped_vel(
                old(self).pos.x as int,
                old(self).vel as int,
                axis as int,
                difficulty as int,
                dt as int,
                screen_w as int,
                old(self).size.x as int,
            ),
            final(self).pos.x == stepped_x(
                old(self).pos.x as int,
                old(self).vel as int,
                axis as int,
                difficulty as int,
                dt as int,
                screen_w as int,
                old(self).size.x as int,
            ),
            0 <= final(self).pos.x <= bound_x(screen_w as int, old(self).size.x as int),
            iabs(final(self).vel as int) <= max_speed(difficulty as int),
            final(self).pos.y == old(self).pos.y,
            final(self).size == old(self).size,
            final(self).anim == spec_advance(
                old(self).anim,
                dt as int,
                BUCKET_ANIM_FPS as int,
                BUCKET_FRAME_COUNT as int,
            ),
            axis == 0 && dt >= 1 && old(self).vel != 0 ==> iabs(final(self).vel as int) < iabs(
                old(self).vel as int,
            ),
            axis == 0 && old(self).vel == 0 && old(self).pos.x <= bound_x(
                screen_w as int,
                old(self).size.x as int,
            ) ==> final(self).vel == 0 && final(self).pos.x == old(self).pos.x,
    {
        // speed limit for this difficulty
        let ms: i64 = crate::num::div_pos(BUCKET_MAX_SPEED * difficulty, 1000);
        proof {
            vstd::arithmetic::div_mod::lemma_div_is_ordered(
                BUCKET_MAX_SPEED * difficulty as int,
                363_300_000_000,
                1000,
            );
        }
        // acceleration from the held axis
        let axis_mag: i64 = if axis >= 0 {
            axis
        } else {
            -axis
        };
        let a1: i64 = axis_mag * BUCKET_ACCEL;
        let a2: i64 = crate::num::div_pos(a1, 1000);
        proof {
            assert(0 <= a2 * difficulty <= 1_557_000_000_000 && (a2 == 0 ==> a2 * difficulty
                == 0)) by (nonlinear_arith)
                requires
                    0 <= a2 <= 1_800_000,
                    0 <= difficulty <= 865_000,
            ;
        }
        let a3: i64 = a2 * difficulty;
        let a4: i64 = crate::num::div_pos(a3, 1000);
        proof {
            assert(0 <= a4 * dt <= 15_570_000_000_000 && (a4 == 0 ==> a4 * dt == 0))
                by (nonlinear_arith)
                requires
                    0 <= a4 <= 1_557_000_000,
                    0 <= dt <= 10_000,
            ;
        }
        let a5: i64 = a4 * dt;
        let m: i64 = crate::num::div_pos(a5, 1000);
        let dv: i64 = if axis >= 0 {
            m
        } else {
            -m
        };
        let mut v: i64 = self.vel + dv;
        let ghost v1: int = v as int;
        if axis == 0 {
            let den: i64 = 1000 + BUCKET_FRICTION * dt;
            proof {
                assert(iabs(v as int) * 1000 <= i64::MAX) by (nonlinear_arith)
                    requires
                        iabs(v as int) <= 400_000_000,
                ;
            }
            v = crate::num::mul_div_trunc(v, 1000, den);
            proof {
                if old(self).vel != 0 && dt >= 1 {
                    let a = iabs(v1);
                    assert((a * 1000) / (1000 + BUCKET_FRICTION * dt as int) < a)
                        by (nonlinear_arith)
                        requires
                            1 <= a,
                            1 <= dt,
                    ;
                }
            }
        }
        v = crate::num::clamp_i64(v, -ms, ms);
        // integrate and clamp to the screen
        proof {
            assert(iabs(v as int) * dt <= 3_633_000_000_000) by (nonlinear_arith)
                requires
                    iabs(v as int) <= 363_300_000,
                    0 <= dt <= 10_000,
            ;
        }
        let dx: i64 = crate::num::mul_div_trunc(v, dt, 1000);
        let mut x: i64 = self.pos.x + dx;
        let max_x: i64 = crate::num::max_i64(screen_w - self.size.x, 0);
        if x < 0 {
            x = 0;
            v = 0;
        }
        if x > max_x {
            x = max_x;
            v = 0;
        }
        self.pos.x = x;
        self.vel = v;
        self.anim.advance(dt, BUCKET_ANIM_FPS, BUCKET_FRAME_COUNT);
    }

    /// Replaces the size outright and recenters the bucket horizontally,
    /// resting it at the bottom of the screen.
    pub fn set_size(&mut self, size: Vec2, screen_w: i64, screen_h: i64)
        requires
            old(self).wf(),
            0 < size.x <= screen_w <= LEN_LIMIT,
            0 < size.y <= LEN_LIMIT,
            0 <= screen_h <= LEN_LIMIT,
        ensures
            final(self).wf(),
            final(self).size == size,
            final(self).pos.x == (screen_w - size.x) as int / 2,
            final(self).pos.y == screen_h - BUCKET_Y_OFFSET,
            final(self).vel == old(self).vel,
            final(self).anim == old(self).anim,
    {
        self.size = size;
        self.pos.x = crate::num::div_pos(screen_w - size.x, 2);
        self.pos.y = screen_h - BUCKET_Y_OFFSET;
    }

    /// Applies a new size while keeping the bucket's horizontal center,
    /// reclamped to the screen range.
    pub fn apply_size(&mut self, size: Vec2, screen_w: i64, screen_h: i64)
        requires
            old(self).wf(),
            0 < size.x <= LEN_LIMIT,
            0 < size.y <= LEN_LIMIT,
            0 <= screen_w <= LEN_LIMIT,
            0 <= screen_h <= LEN_LIMIT,
        ensures
            final(self).wf(),
            final(self).size == size,
            final(self).pos.x == settle_x(
                old(self).pos.x + old(self).size.x as int / 2 - size.x as int / 2,
                bound_x(screen_w as int, size.x as int),
            ),
            0 <= final(self).pos.x <= bound_x(screen_w as int, size.x as int),
            final(self).pos.y == screen_h - BUCKET_Y_OFFSET,
            final(self).vel == old(self).vel,
            final(self).anim == old(self).anim,
    {
        let half_old: i64 = crate::num::div_pos(self.size.x, 2);
        let half_new: i64 = crate::num::div_pos(size.x, 2);
        let center_x: i64 = self.pos.x + half_old;
        let max_x: i64 = crate::num::max_i64(screen_w - size.x, 0);
        self.size = size;
        self.pos.x = crate::num::clamp_i64(center_x - half_new, 0, max_x);
        self.pos.y = screen_h - BUCKET_Y_OFFSET;
    }
}

/// Position and velocity after `n` whole zero-axis update steps, walls
/// and all, at difficulty `d` and frame delta `dt`.
pub open spec fn rest_iter(
    x: int,
    v: int,
    d: int,
    dt: int,
    screen_w: int,
    size_x: int,
    n: nat,
) -> (int, int)
    decreases n,
{
    if n == 0 {
        (x, v)
    } else {
        rest_iter(
            stepped_x(x, v, 0, d, dt, screen_w, size_x),
            stepped_vel(x, v, 0, d, dt, screen_w, size_x),
            d,
            dt,
            screen_w,
            size_x,
            (n - 1) as nat,
        )
    }
}

/// With no axis held, one update step strictly shrinks a non-zero velocity
/// and keeps a zero velocity at zero.
pub proof fn lemma_friction_step_shrinks(v: int, d: int, dt: int)
    requires
        difficulty_ok(d),
        1 <= dt <= DT_LIMIT,
    ensures
        v != 0 ==> iabs(vel_after(v, 0, d, dt)) < iabs(v),
        v == 0 ==> vel_after(v, 0, d, dt) == 0,
{
    assert(accel_delta(0, d, dt) == 0) by {
        vstd::arithmetic::mul::lemma_mul_basics(BUCKET_ACCEL as int);
        vstd::arithmetic::div_mod::lemma_div_of0(1000);
        vstd::arithmetic::mul::lemma_mul_basics(d);
        vstd::arithmetic::mul::lemma_mul_basics(dt);
    }
    let den = 1000 + BUCKET_FRICTION * dt;
    let ms = max_speed(d);
    assert(BUCKET_MAX_SPEED * d >= 0);
    vstd::arithmetic::div_mod::lemma_div_pos_is_pos(BUCKET_MAX_SPEED * d, 1000);
    if v != 0 {
        let a = iabs(v);
        assert((a * 1000) / den < a) by (nonlinear_arith)
            requires
                1 <= a,
                1008 <= den,
        ;
        assert((a * 1000) / den >= 0) by {
            vstd::arithmetic::mul::lemma_mul_nonnegative(a, 1000);
            vstd::arithmetic::div_mod::lemma_div_pos_is_pos(a * 1000, den);
        }
        if v > 0 {
            assert(friction_vel(v, dt) == (a * 1000) / den);
        } else {
            assert(-v == a);
            assert(friction_vel(v, dt) == -((a * 1000) / den));
        }
        assert(iabs(friction_vel(v, dt)) < a);
    } else {
        assert(friction_vel(0, dt) == 0) by {
            assert(0int * 1000 == 0) by (nonlinear_arith);
            vstd::arithmetic::div_mod::lemma_div_of0(den);
        }
    }
}

/// A bucket at rest stays at rest: with zero velocity and no axis held, one
/// whole update leaves an in-range position unchanged and the velocity zero.
pub proof fn lemma_rest_is_stable(x: int, d: int, dt: int, screen_w: int, size_x: int)
    requires
        difficulty_ok(d),
        1 <= dt <= DT_LIMIT,
        0 <= x <= bound_x(screen_w, size_x),
    ensures
        stepped_vel(x, 0, 0, d, dt, screen_w, size_x) == 0,
        stepped_x(x, 0, 0, d, dt, screen_w, size_x) == x,
{
    lemma_friction_step_shrinks(0, d, dt);
    assert(0int * dt == 0) by (nonlinear_arith);
    assert(travel_x(x, 0, dt) == x);
}

/// With the axis released and any fixed positive frame delta, repeating the
/// whole update brings the velocity to exactly zero after at most as many
/// steps as its magnitude, and from then on the position never changes
/// again: the bucket converges to rest.
pub proof fn lemma_zero_axis_comes_to_rest(
    x: int,
    v: int,
    d: int,
    dt: int,
    screen_w: int,
    size_x: int,
    n: nat,
)
    requires
        difficulty_ok(d),
        1 <= dt <= DT_LIMIT,
        0 <= x <= bound_x(screen_w, size_x),
        n >= iabs(v),
    ensures
        rest_iter(x, v, d, dt, screen_w, size_x, n).1 == 0,
        0 <= rest_iter(x, v, d, dt, screen_w, size_x, n).0 <= bound_x(screen_w, size_x),
        rest_iter(x, v, d, dt, screen_w, size_x, n + 1).0 == rest_iter(
            x,
            v,
            d,
            dt,
            screen_w,
            size_x,
            n,
        ).0,
    decreases n,
{
    lemma_friction_step_shrinks(v, d, dt);
    let x1 = stepped_x(x, v, 0, d, dt, screen_w, size_x);
    let v1 = stepped_vel(x, v, 0, d, dt, screen_w, size_x);
    if n == 0 {
        assert(v == 0);
        lemma_rest_is_stable(x, d, dt, screen_w, size_x);
        assert(rest_iter(x, v, d, dt, screen_w, size_x, 1) == rest_iter(
            x1,
            v1,
            d,
            dt,
            screen_w,
            size_x,
            0,
        ));
        assert(rest_iter(x1, v1, d, dt, screen_w, size_x, 0) == (x1, v1));
    } else {
        assert(iabs(v1) <= iabs(vel_after(v, 0, d, dt)));
        lemma_zero_axis_comes_to_rest(x1, v1, d, dt, screen_w, size_x, (n - 1) as nat);
        assert(rest_iter(x, v, d, dt, screen_w, size_x, n + 1) == rest_iter(
            x1,
            v1,
            d,
            dt,
            screen_w,
            size_x,
            n,
        ));
    }
}

} // verus!
