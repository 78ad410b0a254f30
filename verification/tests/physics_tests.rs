//! Bucket physics, falling-object kinematics, collision and animation.

use bucket_catch::anim::AnimClock;
use bucket_catch::bucket::Bucket;
use bucket_catch::collision::check_collision;
use bucket_catch::geom::{Rect, Vec2};
use bucket_catch::objects::{CatKind, FallingObject};

const SCREEN_W: i64 = 640_000;
const SCREEN_H: i64 = 480_000;

#[test]
fn bucket_new_is_centered_at_bottom() {
    let b = Bucket::new(SCREEN_W, SCREEN_H);
    assert_eq!(b.pos.x, 320_000 - 24_000);
    assert_eq!(b.pos.y, SCREEN_H - 60_000);
    assert_eq!(b.vel, 0);
    assert_eq!(b.size.x, 48_000);
    assert_eq!(b.size.y, 150_000);
}

#[test]
fn bucket_accelerates_right_and_left() {
    let mut b = Bucket::new(SCREEN_W, SCREEN_H);
    b.update(1000, 100, SCREEN_W, 1000);
    // axis 1.0 at difficulty 1.0 for 100 ms: 1800 * 0.1 = 180 units/s
    assert_eq!(b.vel, 180_000);
    let x_after_one: i64 = b.pos.x;
    assert!(x_after_one > 296_000);
    let mut c = Bucket::new(SCREEN_W, SCREEN_H);
    c.update(-1000, 100, SCREEN_W, 1000);
    assert_eq!(c.vel, -180_000);
    assert!(c.pos.x < 296_000);
}

#[test]
fn bucket_speed_is_clamped_by_difficulty() {
    // a wide screen, so the wall is not reached while accelerating
    let wide: i64 = 100_000_000;
    let mut b = Bucket::new(wide, SCREEN_H);
    // a long hold would reach 1800 units/s, but the cap at difficulty 1 is 420
    for _ in 0..20 {
        b.update(1000, 100, wide, 1000);
    }
    assert_eq!(b.vel, 420_000);
    let mut c = Bucket::new(wide, SCREEN_H);
    for _ in 0..20 {
        c.update(1000, 100, wide, 2000);
    }
    assert_eq!(c.vel, 840_000);
}

#[test]
fn bucket_friction_decays_velocity_to_rest() {
    let mut b = Bucket::new(SCREEN_W, SCREEN_H);
    b.update(1000, 100, SCREEN_W, 1000);
    assert!(b.vel > 0);
    let mut steps: i32 = 0;
    while b.vel != 0 && steps < 10_000 {
        let before: i64 = b.vel;
        b.update(0, 100, SCREEN_W, 1000);
        assert!(b.vel.abs() < before.abs());
        steps += 1;
    }
    assert_eq!(b.vel, 0);
    // once at rest with no axis held, the position no longer changes
    let x_rest: i64 = b.pos.x;
    for _ in 0..10 {
        b.update(0, 100, SCREEN_W, 1000);
        assert_eq!(b.pos.x, x_rest);
        assert_eq!(b.vel, 0);
    }
}

#[test]
fn bucket_friction_step_matches_formula() {
    let mut b = Bucket::new(SCREEN_W, SCREEN_H);
    b.update(1000, 100, SCREEN_W, 1000);
    assert_eq!(b.vel, 180_000);
    b.update(0, 100, SCREEN_W, 1000);
    // 180000 * 1000 / (1000 + 8 * 100) = 100000
    assert_eq!(b.vel, 100_000);
}

#[test]
fn bucket_position_stays_on_screen() {
    let mut b = Bucket::new(SCREEN_W, SCREEN_H);
    let max_x: i64 = SCREEN_W - b.size.x;
    let axes: [i64; 10] = [1000, 1000, -1000, 500, -250, 0, 1000, -1000, -1000, 0];
    for _ in 0..50 {
        for a in axes.iter() {
            b.update(*a, 5_000, SCREEN_W, 800_000);
            assert!(0 <= b.pos.x && b.pos.x <= max_x);
        }
    }
}

#[test]
fn bucket_wall_hit_zeroes_velocity() {
    let mut b = Bucket::new(SCREEN_W, SCREEN_H);
    for _ in 0..30 {
        b.update(1000, 1000, SCREEN_W, 1000);
    }
    assert_eq!(b.pos.x, SCREEN_W - b.size.x);
    assert_eq!(b.vel, 0);
}

#[test]
fn bucket_set_size_recenters() {
    let mut b = Bucket::new(SCREEN_W, SCREEN_H);
    b.set_size(Vec2 { x: 100_000, y: 200_000 }, SCREEN_W, SCREEN_H);
    assert_eq!(b.size.x, 100_000);
    assert_eq!(b.pos.x, (SCREEN_W - 100_000) / 2);
    assert_eq!(b.pos.y, SCREEN_H - 60_000);
}

#[test]
fn bucket_apply_size_keeps_center() {
    let mut b = Bucket::new(SCREEN_W, SCREEN_H);
    // center is at 320_000; shrinking to width 24_000 keeps that center
    b.apply_size(Vec2 { x: 24_000, y: 75_000 }, SCREEN_W, SCREEN_H);
    assert_eq!(b.pos.x, 320_000 - 12_000);
    assert_eq!(b.size.x, 24_000);
}

#[test]
fn bucket_animation_advances_at_fixed_rate() {
    let mut b = Bucket::new(SCREEN_W, SCREEN_H);
    // 6 fps: one frame every 166 ms, 2 frames in total
    b.update(0, 166, SCREEN_W, 1000);
    assert_eq!(b.frame(), 1);
    b.update(0, 166, SCREEN_W, 1000);
    assert_eq!(b.frame(), 0);
}

#[test]
fn object_falls_under_gravity() {
    let mut o = FallingObject::new(100_000, CatKind::Normal, 20_000);
    assert_eq!(o.pos.y, -10_000);
    o.update(100);
    // velocity: 20000 + 400 * 100 = 60000; position: -10000 + 6000
    assert_eq!(o.velocity, 60_000);
    assert_eq!(o.pos.y, -4_000);
    assert_eq!(o.pos.x, 100_000);
}

#[test]
fn object_fall_speed_is_capped() {
    let mut o = FallingObject::new(100_000, CatKind::Normal, 20_000);
    for _ in 0..20 {
        o.update(100);
    }
    assert_eq!(o.velocity, 320_000);
}

#[test]
fn object_offscreen_is_exact_at_the_boundary() {
    let mut o = FallingObject::new(100_000, CatKind::Normal, 0);
    o.pos.y = SCREEN_H + o.radius;
    assert!(!o.offscreen(SCREEN_H));
    o.pos.y = SCREEN_H + o.radius + 1;
    assert!(o.offscreen(SCREEN_H));
}

#[test]
fn object_animation_wraps_modulo_frame_count() {
    let mut o = FallingObject::new(100_000, CatKind::Angel, 0);
    // 10 fps: one frame every 100 ms, 12 frames in total
    o.update(250);
    assert_eq!(o.frame(), 2);
    assert_eq!(o.anim.time, 50);
    o.update(1150);
    // 1200 ms total in the accumulator: 12 frames, wrapping to 2 again
    assert_eq!(o.frame(), 2);
}

#[test]
fn collision_is_strict_on_the_radius() {
    let rect = Rect { x: 100_000, y: 100_000, width: 50_000, height: 50_000 };
    let r: i64 = 8_000;
    let just_touching = Vec2 { x: 100_000 - r, y: 125_000 };
    assert!(!check_collision(just_touching, r, rect));
    let overlapping = Vec2 { x: 100_000 - r + 1, y: 125_000 };
    assert!(check_collision(overlapping, r, rect));
    let inside = Vec2 { x: 125_000, y: 125_000 };
    assert!(check_collision(inside, r, rect));
}

#[test]
fn anim_clock_accumulates_across_calls() {
    let mut c = AnimClock::new();
    c.advance(90, 10, 12);
    assert_eq!(c.frame, 0);
    assert_eq!(c.time, 90);
    c.advance(20, 10, 12);
    assert_eq!(c.frame, 1);
    assert_eq!(c.time, 10);
}
