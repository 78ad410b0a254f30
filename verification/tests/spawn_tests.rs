//! The spawner: interval timing, classification rates, the Devil cooldown
//! and the Volatile protection window.

use bucket_catch::objects::CatKind;
use bucket_catch::rng::ScriptedRng;
use bucket_catch::spawn::{devil_rate, Spawner};

const SCREEN_W: i64 = 640_000;

#[test]
fn devil_rate_has_three_time_tiers() {
    assert_eq!(devil_rate(0), 120);
    assert_eq!(devil_rate(30_000), 120);
    assert_eq!(devil_rate(30_001), 160);
    assert_eq!(devil_rate(90_000), 160);
    assert_eq!(devil_rate(90_001), 200);
}

#[test]
fn spawner_fires_exactly_at_the_interval() {
    let mut s = Spawner::new();
    let mut rng = ScriptedRng::new(vec![300, 999]);
    assert!(s.update(&mut rng, 799, SCREEN_W, 0).is_none());
    let o = s.update(&mut rng, 1, SCREEN_W, 0).unwrap();
    assert_eq!(o.pos.y, -10_000);
    assert_eq!(o.pos.x, 20_000);
    assert!(matches!(o.kind(), CatKind::Normal));
}

#[test]
fn spawn_position_is_clamped_into_the_margin() {
    let mut s = Spawner::new();
    let mut rng = ScriptedRng::new(vec![-50_000, 999, 700_000, 999]);
    let a = s.update(&mut rng, 800, SCREEN_W, 0).unwrap();
    assert_eq!(a.pos.x, 20_000);
    let b = s.update(&mut rng, 800, SCREEN_W, 0).unwrap();
    assert_eq!(b.pos.x, SCREEN_W - 20_000);
}

#[test]
fn spawn_speed_scales_with_elapsed_time() {
    let mut s = Spawner::new();
    let mut rng = ScriptedRng::new(vec![300, 999]);
    let o = s.update(&mut rng, 800, SCREEN_W, 0).unwrap();
    assert_eq!(o.velocity, 20_000);
    let mut s2 = Spawner::new();
    let mut rng2 = ScriptedRng::new(vec![300, 999]);
    // 100 s of play: difficulty 2.0, so twice the base speed
    let o2 = s2.update(&mut rng2, 800, SCREEN_W, 100_000).unwrap();
    assert_eq!(o2.velocity, 40_000);
}

#[test]
fn classification_follows_the_roll_bands() {
    // devil band is [0, 120), angel [120, 270), normal the rest
    let mut s = Spawner::new();
    let mut rng = ScriptedRng::new(vec![300, 119, 999]);
    let o = s.update(&mut rng, 800, SCREEN_W, 0).unwrap();
    assert!(matches!(o.kind(), CatKind::Devil));
    let mut s2 = Spawner::new();
    let mut rng2 = ScriptedRng::new(vec![300, 120]);
    let o2 = s2.update(&mut rng2, 800, SCREEN_W, 0).unwrap();
    assert!(matches!(o2.kind(), CatKind::Angel));
    let mut s3 = Spawner::new();
    let mut rng3 = ScriptedRng::new(vec![300, 270]);
    let o3 = s3.update(&mut rng3, 800, SCREEN_W, 0).unwrap();
    assert!(matches!(o3.kind(), CatKind::Normal));
}

#[test]
fn devil_selection_starts_the_cooldown() {
    let mut s = Spawner::new();
    // first spawn: devil (roll 0, explode roll 999); second spawn comes only
    // 400 ms of cooldown later, so the devil band is empty and roll 0 is angel
    let mut rng = ScriptedRng::new(vec![300, 0, 999, 300, 0]);
    let o = s.update(&mut rng, 800, SCREEN_W, 0).unwrap();
    assert!(matches!(o.kind(), CatKind::Devil));
    s.timer = 400;
    let o2 = s.update(&mut rng, 400, SCREEN_W, 0).unwrap();
    assert!(matches!(o2.kind(), CatKind::Angel));
}

#[test]
fn volatile_needs_the_protection_counter_at_zero() {
    let mut s = Spawner::new();
    let mut rng = ScriptedRng::new(vec![300, 0, 0]);
    // fresh spawner: protection is zero, so the explode sub-roll lands
    let o = s.update(&mut rng, 800, SCREEN_W, 0).unwrap();
    assert!(matches!(o.kind(), CatKind::Explode));
    assert_eq!(s.explode_protect_spawns, 18);
    // an immediate second attempt is suppressed into a plain devil
    let o2 = s.update(&mut rng, 800, SCREEN_W, 0).unwrap();
    assert!(matches!(o2.kind(), CatKind::Devil));
    assert_eq!(s.explode_protect_spawns, 18);
}

#[test]
fn volatile_cannot_repeat_within_the_protection_window() {
    let mut script: Vec<i64> = vec![300, 0, 0];
    for _ in 0..16 {
        script.push(300);
        script.push(999);
    }
    script.push(300);
    script.push(0);
    script.push(0);
    let mut s = Spawner::new();
    let mut rng = ScriptedRng::new(script);
    let first = s.update(&mut rng, 800, SCREEN_W, 0).unwrap();
    assert!(matches!(first.kind(), CatKind::Explode));
    for _ in 0..16 {
        let o = s.update(&mut rng, 800, SCREEN_W, 0).unwrap();
        assert!(matches!(o.kind(), CatKind::Normal));
    }
    // the 18th spawn after the volatile still lies inside the window:
    // the explode sub-roll lands but is suppressed into a plain devil
    let blocked = s.update(&mut rng, 800, SCREEN_W, 0).unwrap();
    assert!(matches!(blocked.kind(), CatKind::Devil));
}

#[test]
fn volatile_can_repeat_once_the_window_has_passed() {
    let mut script: Vec<i64> = vec![300, 0, 0];
    for _ in 0..17 {
        script.push(300);
        script.push(999);
    }
    script.push(300);
    script.push(0);
    script.push(0);
    let mut s = Spawner::new();
    let mut rng = ScriptedRng::new(script);
    let first = s.update(&mut rng, 800, SCREEN_W, 0).unwrap();
    assert!(matches!(first.kind(), CatKind::Explode));
    for _ in 0..17 {
        let o = s.update(&mut rng, 800, SCREEN_W, 0).unwrap();
        assert!(matches!(o.kind(), CatKind::Normal));
    }
    // 18 spawns have passed since the volatile: the window is over
    let second = s.update(&mut rng, 800, SCREEN_W, 0).unwrap();
    assert!(matches!(second.kind(), CatKind::Explode));
}

#[test]
fn devil_cooldown_expires_with_time() {
    let mut s = Spawner::new();
    let mut rng = ScriptedRng::new(vec![300, 0, 999, 300, 0, 999]);
    let o = s.update(&mut rng, 800, SCREEN_W, 0).unwrap();
    assert!(matches!(o.kind(), CatKind::Devil));
    assert_eq!(s.devil_cooldown, 800);
    // a full interval later the cooldown has just run out
    let o2 = s.update(&mut rng, 800, SCREEN_W, 0).unwrap();
    assert!(matches!(o2.kind(), CatKind::Devil));
}
