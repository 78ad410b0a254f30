//! The timed effects engine, the score accumulator, and the injected
//! random sources.

use bucket_catch::effects::{EffectsState, MusicMode};
use bucket_catch::objects::CatKind;
use bucket_catch::rng::{LcgRng, RandomSource, ScriptedRng};
use bucket_catch::scoring::Scoring;

#[test]
fn invert_expires_after_full_duration() {
    let mut e = EffectsState::new();
    e.apply_invert();
    assert_eq!(e.apply_input(700), -700);
    e.update(4_000);
    assert_eq!(e.apply_input(700), 700);
}

#[test]
fn invert_stays_active_on_partial_advance() {
    let mut e = EffectsState::new();
    e.apply_invert();
    e.update(3_999);
    assert_eq!(e.apply_input(700), -700);
    e.update(1);
    assert_eq!(e.apply_input(700), 700);
}

#[test]
fn size_scale_reverts_after_full_duration() {
    let mut e = EffectsState::new();
    e.apply_size_scale(700);
    assert_eq!(e.bucket_scale(), 700);
    e.update(5_999);
    assert_eq!(e.bucket_scale(), 700);
    e.update(1);
    assert_eq!(e.bucket_scale(), 1000);
}

#[test]
fn multiplier_reverts_after_full_duration() {
    let mut e = EffectsState::new();
    e.apply_score_multiplier(3);
    assert_eq!(e.score_multiplier(), 3);
    e.update(7_999);
    assert_eq!(e.score_multiplier(), 3);
    e.update(1);
    assert_eq!(e.score_multiplier(), 1);
}

#[test]
fn multiplier_is_floored_at_one() {
    let mut e = EffectsState::new();
    e.apply_score_multiplier(-5);
    assert_eq!(e.score_multiplier(), 1);
}

#[test]
fn message_fades_and_disappears() {
    let mut e = EffectsState::new();
    assert!(e.message().is_none());
    e.set_message("Bucket shrunk!");
    assert_eq!(e.message(), Some("Bucket shrunk!"));
    assert_eq!(e.message_alpha(), 1000);
    e.update(1_200);
    assert_eq!(e.message(), Some("Bucket shrunk!"));
    assert_eq!(e.message_alpha(), 500);
    e.update(1_200);
    assert!(e.message().is_none());
    assert_eq!(e.message_alpha(), 0);
}

#[test]
fn music_selection_is_sticky() {
    let mut e = EffectsState::new();
    assert_eq!(e.music_mode(), MusicMode::Default);
    e.apply_music_swap(2);
    assert_eq!(e.music_mode(), MusicMode::Alternate(2));
    for _ in 0..100 {
        e.update(10_000);
    }
    assert_eq!(e.music_mode(), MusicMode::Alternate(2));
    e.set_music_default();
    assert_eq!(e.music_mode(), MusicMode::Default);
}

#[test]
fn explosion_progress_grows_to_one() {
    let mut e = EffectsState::new();
    assert!(e.explosion().is_none());
    e.trigger_explosion(bucket_catch::geom::Vec2 { x: 5, y: 6 });
    let (pos, t0) = e.explosion().unwrap();
    assert_eq!(pos.x, 5);
    assert_eq!(pos.y, 6);
    assert_eq!(t0, 0);
    e.update(450);
    let (_, t1) = e.explosion().unwrap();
    assert_eq!(t1, 500);
    e.update(450);
    assert!(e.explosion().is_none());
}

#[test]
fn normal_catch_awards_the_fixed_constant() {
    let mut s = Scoring::new();
    let mut rng = ScriptedRng::new(vec![]);
    let awarded: i64 = s.register_catch(CatKind::Normal, &mut rng, 1);
    assert_eq!(awarded, 1);
    assert_eq!(s.score(), 1);
}

#[test]
fn angel_catch_awards_scripted_delta_times_multiplier() {
    let mut s = Scoring::new();
    let mut rng = ScriptedRng::new(vec![4]);
    let awarded: i64 = s.register_catch(CatKind::Angel, &mut rng, 3);
    assert_eq!(awarded, 12);
    assert_eq!(s.score(), 12);
}

#[test]
fn angel_delta_is_clamped_into_its_range() {
    let mut s = Scoring::new();
    let mut rng = ScriptedRng::new(vec![100, -7]);
    assert_eq!(s.register_catch(CatKind::Angel, &mut rng, 1), 6);
    assert_eq!(s.register_catch(CatKind::Angel, &mut rng, 1), 2);
}

#[test]
fn devil_and_volatile_catches_award_nothing() {
    let mut s = Scoring::new();
    let mut rng = ScriptedRng::new(vec![]);
    assert_eq!(s.register_catch(CatKind::Devil, &mut rng, 5), 0);
    assert_eq!(s.register_catch(CatKind::Explode, &mut rng, 5), 0);
    assert_eq!(s.score(), 0);
}

#[test]
fn reset_then_catch_leaves_exactly_the_awarded_delta() {
    let mut s = Scoring::new();
    let mut rng = ScriptedRng::new(vec![3]);
    for _ in 0..7 {
        s.register_catch(CatKind::Normal, &mut rng, 2);
    }
    assert_eq!(s.score(), 14);
    s.reset();
    assert_eq!(s.score(), 0);
    let awarded: i64 = s.register_catch(CatKind::Angel, &mut rng, 2);
    assert_eq!(s.score(), awarded);
    assert_eq!(awarded, 6);
}

#[test]
fn scripted_rng_replays_and_wraps() {
    let mut rng = ScriptedRng::new(vec![1, 2, 3]);
    assert_eq!(rng.uniform_integer(0, 10), 1);
    assert_eq!(rng.uniform_integer(0, 10), 2);
    assert_eq!(rng.uniform_integer(0, 10), 3);
    assert_eq!(rng.uniform_integer(0, 10), 1);
}

#[test]
fn empty_script_yields_the_lower_bound() {
    let mut rng = ScriptedRng::new(vec![]);
    assert_eq!(rng.uniform_integer(7, 10), 7);
}

#[test]
fn lcg_stays_in_the_requested_range() {
    let mut rng = LcgRng::new(12345);
    for _ in 0..1000 {
        let v: i64 = rng.uniform_integer(-3, 9);
        assert!(-3 <= v && v <= 9);
    }
    // a seeded generator replays the same sequence
    let mut a = LcgRng::new(99);
    let mut b = LcgRng::new(99);
    for _ in 0..100 {
        assert_eq!(a.uniform_integer(0, 1000), b.uniform_integer(0, 1000));
    }
}
