//! End-to-end frames through the orchestrator: catching, missing,
//! escalation and the terminal state.

use bucket_catch::anim::AnimClock;
use bucket_catch::geom::Vec2;
use bucket_catch::objects::{CatKind, FallingObject};
use bucket_catch::rng::ScriptedRng;
use bucket_catch::world::{Phase, World};

const SCREEN_W: i64 = 640_000;
const SCREEN_H: i64 = 480_000;

fn item_at(x: i64, y: i64, kind: CatKind) -> FallingObject {
    FallingObject {
        pos: Vec2 { x, y },
        radius: 8_000,
        velocity: 0,
        kind,
        anim: AnimClock { time: 0, frame: 0 },
    }
}

/// An item resting at the bucket's center, caught on the next frame.
fn item_on_bucket(w: &World, kind: CatKind) -> FallingObject {
    item_at(w.bucket.pos.x + w.bucket.size.x / 2, w.bucket.pos.y + 1_000, kind)
}

/// An item already past the bottom edge, missed on the next frame.
fn item_below_screen(kind: CatKind) -> FallingObject {
    item_at(10_000, SCREEN_H + 9_000, kind)
}

#[test]
fn normal_catch_at_difficulty_one_adds_the_constant() {
    let mut w = World::new(SCREEN_W, SCREEN_H, 15);
    let mut rng = ScriptedRng::new(vec![]);
    let obj = item_on_bucket(&w, CatKind::Normal);
    w.objects.push(obj);
    w.update(&mut rng, 0, 0, SCREEN_W, SCREEN_H);
    assert_eq!(w.score(), 1);
    assert_eq!(w.objects.len(), 0);
}

#[test]
fn volatile_catch_resets_a_multiplied_score_to_zero() {
    let mut w = World::new(SCREEN_W, SCREEN_H, 15);
    // 50 normal catches at multiplier 1
    for _ in 0..50 {
        let mut rng = ScriptedRng::new(vec![]);
        let obj = item_on_bucket(&w, CatKind::Normal);
        w.objects.push(obj);
        w.update(&mut rng, 0, 0, SCREEN_W, SCREEN_H);
    }
    assert_eq!(w.score(), 50);
    // a devil catch whose effect roll 5 selects the score doubler
    let mut rng = ScriptedRng::new(vec![5]);
    let obj = item_on_bucket(&w, CatKind::Devil);
    w.objects.push(obj);
    w.update(&mut rng, 0, 0, SCREEN_W, SCREEN_H);
    assert_eq!(w.score(), 50);
    assert_eq!(w.effects.score_multiplier, 2);
    // the volatile catch: score becomes 0, not -50 and not 100
    let mut rng2 = ScriptedRng::new(vec![]);
    let obj2 = item_on_bucket(&w, CatKind::Explode);
    w.objects.push(obj2);
    w.update(&mut rng2, 0, 0, SCREEN_W, SCREEN_H);
    assert_eq!(w.score(), 0);
    assert!(w.explosion_effect().is_some());
    assert_eq!(w.effect_message(), Some("Bucket exploded! Score reset!"));
}

#[test]
fn multiplied_normal_catch_awards_double() {
    let mut w = World::new(SCREEN_W, SCREEN_H, 15);
    let mut rng = ScriptedRng::new(vec![5]);
    let obj = item_on_bucket(&w, CatKind::Devil);
    w.objects.push(obj);
    w.update(&mut rng, 0, 0, SCREEN_W, SCREEN_H);
    assert_eq!(w.effects.score_multiplier, 2);
    let mut rng2 = ScriptedRng::new(vec![]);
    let obj2 = item_on_bucket(&w, CatKind::Normal);
    w.objects.push(obj2);
    w.update(&mut rng2, 0, 0, SCREEN_W, SCREEN_H);
    assert_eq!(w.score(), 2);
}

#[test]
fn fifteen_normal_misses_start_the_escalation_on_that_frame() {
    let mut w = World::new(SCREEN_W, SCREEN_H, 15);
    let mut rng = ScriptedRng::new(vec![]);
    for i in 0..15 {
        assert!(matches!(w.phase, Phase::Playing));
        let obj = item_below_screen(CatKind::Normal);
        w.objects.push(obj);
        w.update(&mut rng, 0, 0, SCREEN_W, SCREEN_H);
        assert_eq!(w.angry_points, i + 1);
    }
    // the frame that processed the 15th miss escalated
    assert!(matches!(w.phase, Phase::Escalating { .. }));
    assert!(!w.game_over_trigger());
    // and the simulation never returns to normal play
    for _ in 0..100 {
        w.update(&mut rng, 0, 100, SCREEN_W, SCREEN_H);
        assert!(!matches!(w.phase, Phase::Playing));
    }
    assert!(w.game_over_trigger());
}

#[test]
fn missed_hazard_items_add_no_agitation() {
    let mut w = World::new(SCREEN_W, SCREEN_H, 15);
    let mut rng = ScriptedRng::new(vec![]);
    let devil = item_below_screen(CatKind::Devil);
    w.objects.push(devil);
    let explode = item_below_screen(CatKind::Explode);
    w.objects.push(explode);
    w.update(&mut rng, 0, 0, SCREEN_W, SCREEN_H);
    assert_eq!(w.angry_points, 0);
    let angel = item_below_screen(CatKind::Angel);
    w.objects.push(angel);
    w.update(&mut rng, 0, 0, SCREEN_W, SCREEN_H);
    assert_eq!(w.angry_points, 3);
}

#[test]
fn giant_descends_lands_and_waits_out_the_grace_period() {
    let mut w = World::new(SCREEN_W, SCREEN_H, 1);
    let mut rng = ScriptedRng::new(vec![]);
    let obj = item_below_screen(CatKind::Normal);
    w.objects.push(obj);
    w.update(&mut rng, 0, 0, SCREEN_W, SCREEN_H);
    assert_eq!(w.giant_cat_y(), Some(-800_000));
    assert_eq!(w.giant_cat_frame(), 0);
    // target line: 480000 - 520000 = -40000; descent at 210 units/s
    w.update(&mut rng, 0, 1_000, SCREEN_W, SCREEN_H);
    assert_eq!(w.giant_cat_y(), Some(-590_000));
    // the giant animates once per elapsed frame period while descending
    assert_eq!(w.giant_cat_frame(), 1);
    w.update(&mut rng, 0, 1_000, SCREEN_W, SCREEN_H);
    w.update(&mut rng, 0, 1_000, SCREEN_W, SCREEN_H);
    assert_eq!(w.giant_cat_y(), Some(-170_000));
    // this frame reaches the target and starts the 2 s grace period
    w.update(&mut rng, 0, 1_000, SCREEN_W, SCREEN_H);
    assert_eq!(w.giant_cat_y(), Some(-40_000));
    assert!(matches!(w.phase, Phase::Landed { .. }));
    assert!(!w.game_over_trigger());
    // the landing frame already consumed 1 s of the 2 s grace period
    w.update(&mut rng, 0, 500, SCREEN_W, SCREEN_H);
    assert!(!w.game_over_trigger());
    w.update(&mut rng, 0, 500, SCREEN_W, SCREEN_H);
    assert!(w.game_over_trigger());
    assert_eq!(w.giant_cat_y(), Some(-40_000));
}

#[test]
fn escalation_suspends_normal_play() {
    let mut w = World::new(SCREEN_W, SCREEN_H, 1);
    let mut rng = ScriptedRng::new(vec![]);
    let obj = item_below_screen(CatKind::Normal);
    w.objects.push(obj);
    w.update(&mut rng, 0, 0, SCREEN_W, SCREEN_H);
    assert!(matches!(w.phase, Phase::Escalating { .. }));
    let elapsed_before: i64 = w.elapsed_time;
    let score_before: i64 = w.score();
    let bucket_before_x: i64 = w.bucket.pos.x;
    // a surviving item would normally fall; during escalation nothing moves
    let survivor = item_at(10_000, 100_000, CatKind::Normal);
    w.objects.push(survivor);
    for _ in 0..10 {
        w.update(&mut rng, 1_000, 1_000, SCREEN_W, SCREEN_H);
    }
    assert_eq!(w.elapsed_time, elapsed_before);
    assert_eq!(w.score(), score_before);
    assert_eq!(w.bucket.pos.x, bucket_before_x);
    assert_eq!(w.objects.len(), 1);
    assert_eq!(w.objects[0].pos.y, 100_000);
}

#[test]
fn music_swap_effect_changes_the_selection() {
    let mut w = World::new(SCREEN_W, SCREEN_H, 15);
    // effect roll 3 selects the music swap; pick 0 maps to alternate track 0
    let mut rng = ScriptedRng::new(vec![3, 0]);
    let obj = item_on_bucket(&w, CatKind::Devil);
    w.objects.push(obj);
    w.update(&mut rng, 0, 0, SCREEN_W, SCREEN_H);
    assert_eq!(w.music_mode(), bucket_catch::effects::MusicMode::Alternate(0));
    assert_eq!(w.effect_message(), Some("Music changed!"));
}

#[test]
fn size_effect_rescales_the_bucket_on_the_next_frame() {
    let mut w = World::new(SCREEN_W, SCREEN_H, 15);
    // effect roll 1 shrinks the bucket to 0.7 of its base size
    let mut rng = ScriptedRng::new(vec![1]);
    let obj = item_on_bucket(&w, CatKind::Devil);
    w.objects.push(obj);
    w.update(&mut rng, 0, 0, SCREEN_W, SCREEN_H);
    assert_eq!(w.effects.size_scale, 700);
    assert_eq!(w.bucket.size.x, 48_000);
    w.update(&mut rng, 0, 0, SCREEN_W, SCREEN_H);
    assert_eq!(w.bucket.size.x, 33_600);
    assert_eq!(w.bucket.size.y, 105_000);
    assert_eq!(w.effect_message(), Some("Bucket shrunk!"));
    // after the effect expires the bucket grows back
    for _ in 0..3 {
        w.update(&mut rng, 0, 2_000, SCREEN_W, SCREEN_H);
    }
    assert_eq!(w.bucket.size.x, 48_000);
}

#[test]
fn inverted_controls_move_the_bucket_the_other_way() {
    let mut w = World::new(SCREEN_W, SCREEN_H, 15);
    // effect roll 0 inverts the controls
    let mut rng = ScriptedRng::new(vec![0]);
    let obj = item_on_bucket(&w, CatKind::Devil);
    w.objects.push(obj);
    w.update(&mut rng, 0, 0, SCREEN_W, SCREEN_H);
    assert_eq!(w.effect_message(), Some("Controls inverted!"));
    let x0: i64 = w.bucket.pos.x;
    w.update(&mut rng, 1_000, 100, SCREEN_W, SCREEN_H);
    // holding right moves left while the inversion is active
    assert!(w.bucket.pos.x < x0);
}

#[test]
fn spawned_items_appear_and_fall_through_frames() {
    let mut w = World::new(SCREEN_W, SCREEN_H, 15);
    let mut rng = ScriptedRng::new(vec![100_000, 999]);
    w.update(&mut rng, 0, 800, SCREEN_W, SCREEN_H);
    assert_eq!(w.objects.len(), 1);
    assert_eq!(w.objects[0].pos.x, 100_000);
    assert!(matches!(w.objects[0].kind(), CatKind::Normal));
    // the new item advanced once in its spawn frame
    assert!(w.objects[0].pos.y > -10_000);
}

#[test]
fn construction_state_is_neutral() {
    let w = World::new(SCREEN_W, SCREEN_H, 20);
    assert_eq!(w.score(), 0);
    assert_eq!(w.angry_points, 0);
    assert_eq!(w.max_angry_points, 20);
    assert!(matches!(w.phase, Phase::Playing));
    assert!(w.giant_cat_y().is_none());
    assert_eq!(w.giant_cat_frame(), 0);
    assert!(!w.game_over_trigger());
    assert!(w.effect_message().is_none());
    assert!(w.explosion_effect().is_none());
    assert_eq!(w.objects.len(), 0);
}

#[test]
fn base_size_drives_the_scaled_bucket() {
    let mut w = World::new(SCREEN_W, SCREEN_H, 15);
    w.set_base_bucket_size(Vec2 { x: 100_000, y: 200_000 });
    assert_eq!(w.bucket_scale, 1000);
    // effect roll 2 enlarges the bucket to 1.3 of its base size
    let mut rng = ScriptedRng::new(vec![2]);
    let obj = item_on_bucket(&w, CatKind::Devil);
    w.objects.push(obj);
    w.update(&mut rng, 0, 0, SCREEN_W, SCREEN_H);
    w.update(&mut rng, 0, 0, SCREEN_W, SCREEN_H);
    assert_eq!(w.bucket.size.x, 130_000);
    assert_eq!(w.bucket.size.y, 260_000);
    assert_eq!(w.effect_message(), Some("Bucket enlarged!"));
}

#[test]
fn devil_effect_roll_four_explodes_the_bucket() {
    let mut w = World::new(SCREEN_W, SCREEN_H, 15);
    let obj = item_on_bucket(&w, CatKind::Normal);
    w.objects.push(obj);
    let mut rng = ScriptedRng::new(vec![]);
    w.update(&mut rng, 0, 0, SCREEN_W, SCREEN_H);
    assert_eq!(w.score(), 1);
    // effect roll 4 is the bucket-explode outcome even for a plain devil
    let mut rng2 = ScriptedRng::new(vec![4]);
    let devil = item_on_bucket(&w, CatKind::Devil);
    w.objects.push(devil);
    w.update(&mut rng2, 0, 0, SCREEN_W, SCREEN_H);
    assert_eq!(w.score(), 0);
    let (center, _) = w.explosion_effect().unwrap();
    assert_eq!(center.x, w.bucket.pos.x + w.bucket.size.x / 2);
    assert_eq!(center.y, w.bucket.pos.y + w.bucket.size.y / 2);
}

#[test]
fn devil_effect_roll_six_triples_the_score() {
    let mut w = World::new(SCREEN_W, SCREEN_H, 15);
    let mut rng = ScriptedRng::new(vec![6]);
    let devil = item_on_bucket(&w, CatKind::Devil);
    w.objects.push(devil);
    w.update(&mut rng, 0, 0, SCREEN_W, SCREEN_H);
    assert_eq!(w.effects.score_multiplier, 3);
    assert_eq!(w.effect_message(), Some("Score x3!"));
    let mut rng2 = ScriptedRng::new(vec![]);
    let obj = item_on_bucket(&w, CatKind::Normal);
    w.objects.push(obj);
    w.update(&mut rng2, 0, 0, SCREEN_W, SCREEN_H);
    assert_eq!(w.score(), 3);
}
