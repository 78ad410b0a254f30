//! The orchestrator: owns the bucket, the live items, the spawner, the
//! scorer and the effects engine, advances them once per frame, classifies
//! collisions, and drives the two-phase terminal escalation sequence.

use vstd::prelude::*;

use crate::anim::frame_period;
use crate::bucket::Bucket;
use crate::collision::{check_collision, spec_collides};
use crate::config::{
    ANGRY_LIMIT, ANGRY_PENALTY_ANGEL, ANGRY_PENALTY_NORMAL, BASE_SIZE_LIMIT, BUCKET_W,
    CEILING_LIMIT, CRYING_CAT_FPS, CRYING_CAT_FRAMES, CRYING_CAT_FRAME_H, CRYING_CAT_SCALE,
    DT_LIMIT, ELAPSED_LIMIT, GIANT_CAT_LANDED_DELAY, GIANT_CAT_SPEED, GIANT_CAT_START_Y,
    LEN_LIMIT, OBJ_POS_Y_LIMIT, SCALE_LIMIT, SPAWN_INTERVAL, SPAWN_MARGIN,
};
use crate::effects::{DevilEffect, EffectsState, MusicMode};
use crate::geom::{Rect, Vec2};
use crate::num::{imax, imin};
use crate::objects::{CatKind, FallingObject};
use crate::scoring::Scoring;
use crate::spawn::Spawner;

verus! {

/// The escalation state machine: normal play, the giant cat descending,
/// the giant cat landed with the grace timer running, and the terminal
/// state.
#[derive(Clone, Copy, PartialEq, Eq, Structural, Debug)]
pub enum Phase {
    Playing,
    Escalating { y: i64, frame: usize, anim_timer: i64 },
    Landed { y: i64, frame: usize, remaining: i64 },
    Over { y: i64, frame: usize },
}

/// How far along the escalation a phase is; updates never decrease it, so
/// the simulation can never return to normal play.
pub open spec fn phase_rank(p: Phase) -> int {
    match p {
        Phase::Playing => 0,
        Phase::Escalating { .. } => 1,
        Phase::Landed { .. } => 2,
        Phase::Over { .. } => 3,
    }
}

/// The vertical line at which the giant cat stops descending.
pub open spec fn giant_target(screen_h: int) -> int {
    screen_h - CRYING_CAT_FRAME_H * CRYING_CAT_SCALE
}

/// One escalation step: while descending the giant moves at fixed speed
/// toward the target line and animates; on reaching it the grace timer
/// starts (consuming the landing frame's delta); once the grace timer runs
/// out the terminal state is reached and nothing changes any more.
pub open spec fn giant_step(p: Phase, dt: int, screen_h: int) -> Phase {
    match p {
        Phase::Playing => p,
        Phase::Escalating { y, frame, anim_timer } => {
            let target = giant_target(screen_h);
            let per = frame_period(CRYING_CAT_FPS as int);
            if y < target {
                let y2 = imin(y + (GIANT_CAT_SPEED * dt) / 1000, target);
                let t2 = if anim_timer + dt >= per {
                    0int
                } else {
                    anim_timer + dt
                };
                let f2 = if anim_timer + dt >= per {
                    (frame + 1) % (CRYING_CAT_FRAMES as int)
                } else {
                    frame as int
                };
                if y2 >= target {
                    let rem = imax(GIANT_CAT_LANDED_DELAY - dt, 0);
                    if rem == 0 {
                        Phase::Over { y: y2 as i64, frame: f2 as usize }
                    } else {
                        Phase::Landed { y: y2 as i64, frame: f2 as usize, remaining: rem as i64 }
                    }
                } else {
                    Phase::Escalating { y: y2 as i64, frame: f2 as usize, anim_timer: t2 as i64 }
                }
            } else {
                let rem = imax(GIANT_CAT_LANDED_DELAY - dt, 0);
                if rem == 0 {
                    Phase::Over { y: target as i64, frame }
                } else {
                    Phase::Landed { y: target as i64, frame, remaining: rem as i64 }
                }
            }
        },
        Phase::Landed { y, frame, remaining } => {
            let rem = imax(remaining - dt, 0);
            if rem == 0 {
                Phase::Over { y, frame }
            } else {
                Phase::Landed { y, frame, remaining: rem as i64 }
            }
        },
        Phase::Over { .. } => p,
    }
}

/// Agitation penalty a missed item of kind `k` contributes: only the safe
/// kinds count.
pub open spec fn penalty_of(k: CatKind) -> int {
    match k {
        CatKind::Normal => ANGRY_PENALTY_NORMAL as int,
        CatKind::Angel => ANGRY_PENALTY_ANGEL as int,
        CatKind::Devil => 0,
        CatKind::Explode => 0,
    }
}

/// The rectangle a bucket covers, at the spec level.
pub open spec fn rect_of(b: Bucket) -> Rect {
    Rect { x: b.pos.x, y: b.pos.y, width: b.size.x, height: b.size.y }
}

/// Whether an item overlaps the bucket rectangle and is therefore caught.
pub open spec fn item_caught(o: FallingObject, rect: Rect) -> bool {
    spec_collides(o.pos, o.radius as int, rect)
}

/// Whether an item is missed: not caught, and fallen past the bottom edge.
pub open spec fn item_missed(o: FallingObject, rect: Rect, screen_h: int) -> bool {
    !item_caught(o, rect) && o.pos.y - o.radius > screen_h
}

/// Whether an item survives the frame: neither caught nor missed.
pub open spec fn item_kept(o: FallingObject, rect: Rect, screen_h: int) -> bool {
    !item_caught(o, rect) && !(o.pos.y - o.radius > screen_h)
}

/// Kinds of the items from index `i` on that the bucket catches, in order.
pub open spec fn caught_from(items: Seq<FallingObject>, i: int, rect: Rect) -> Seq<CatKind>
    decreases items.len() - i,
{
    if 0 <= i < items.len() {
        let rest = caught_from(items, i + 1, rect);
        if item_caught(items[i], rect) {
            seq![items[i].kind] + rest
        } else {
            rest
        }
    } else {
        Seq::empty()
    }
}

/// The items from index `i` on that survive the frame, in order.
pub open spec fn kept_from(items: Seq<FallingObject>, i: int, rect: Rect, screen_h: int) -> Seq<
    FallingObject,
>
    decreases items.len() - i,
{
    if 0 <= i < items.len() {
        let rest = kept_from(items, i + 1, rect, screen_h);
        if item_kept(items[i], rect, screen_h) {
            seq![items[i]] + rest
        } else {
            rest
        }
    } else {
        Seq::empty()
    }
}

/// The agitation counter after resolving the items from index `i` on,
/// starting from `angry`: each missed safe item adds its penalty,
/// saturating at the cap.
pub open spec fn angry_from(
    items: Seq<FallingObject>,
    i: int,
    rect: Rect,
    screen_h: int,
    angry: int,
) -> int
    decreases items.len() - i,
{
    if 0 <= i < items.len() {
        let next = if item_missed(items[i], rect, screen_h) {
            imin(angry + penalty_of(items[i].kind), ANGRY_LIMIT as int)
        } else {
            angry
        };
        angry_from(items, i + 1, rect, screen_h, next)
    } else {
        angry
    }
}

/// Number of the items from index `i` on that are missed.
pub open spec fn missed_count(items: Seq<FallingObject>, i: int, rect: Rect, screen_h: int) -> int
    decreases items.len() - i,
{
    if 0 <= i < items.len() {
        let rest = missed_count(items, i + 1, rect, screen_h);
        if item_missed(items[i], rect, screen_h) {
            1 + rest
        } else {
            rest
        }
    } else {
        0
    }
}

/// Every item of a frame is resolved exactly once: caught, missed, or
/// surviving, and the three groups together account for the whole list, so
/// no item can be scored or penalized twice.
pub proof fn lemma_items_resolved_once(
    items: Seq<FallingObject>,
    i: int,
    rect: Rect,
    screen_h: int,
)
    requires
        0 <= i <= items.len(),
    ensures
        caught_from(items, i, rect).len() + missed_count(items, i, rect, screen_h) + kept_from(
            items,
            i,
            rect,
            screen_h,
        ).len() == items.len() - i,
    decreases items.len() - i,
{
    if i < items.len() {
        lemma_items_resolved_once(items, i + 1, rect, screen_h);
    }
}

/// Once the session has left normal play it never returns: along any phase
/// sequence in which no step decreases the phase rank — and no update
/// does — every phase after a non-Playing one is itself not Playing.
pub proof fn lemma_no_return_to_play(ps: Seq<Phase>, i: int, j: int)
    requires
        forall|u: int|
            0 < u < ps.len() ==> phase_rank(ps[u - 1]) <= #[trigger] phase_rank(ps[u]),
        0 <= i <= j < ps.len(),
        !(ps[i] is Playing),
    ensures
        !(ps[j] is Playing),
    decreases j - i,
{
    if j > i {
        lemma_no_return_to_play(ps, i, j - 1);
        assert(phase_rank(ps[(j - 1) + 1]) >= phase_rank(ps[j - 1]));
    }
}

/// The temporary effect named by a drawn index in `[0, 6]`.
pub open spec fn spec_effect_of_index(i: int) -> DevilEffect {
    if i == 0 {
        DevilEffect::InvertControls
    } else if i == 1 {
        DevilEffect::BucketSmall
    } else if i == 2 {
        DevilEffect::BucketLarge
    } else if i == 3 {
        DevilEffect::MusicSwap
    } else if i == 4 {
        DevilEffect::BucketExplode
    } else if i == 5 {
        DevilEffect::ScoreDouble
    } else {
        DevilEffect::ScoreTriple
    }
}

/// Exactly what applying the temporary effect `eff` does to the score
/// accumulator and the effects engine, next to bucket `b`: the effect's own
/// override starts at its full duration, its message shows, and everything
/// else is untouched; the bucket-explode outcome additionally zeroes the
/// score and starts the explosion visual at the bucket's center.
pub open spec fn effect_outcome(
    s0: Scoring,
    e0: EffectsState,
    s1: Scoring,
    e1: EffectsState,
    b: Bucket,
    eff: DevilEffect,
) -> bool {
    &&& e1.message_timer == crate::config::DEVIL_EFFECT_MESSAGE_DURATION
    &&& (eff != DevilEffect::BucketExplode ==> s1 == s0 && e1.explode_timer
        == e0.explode_timer && e1.explode_pos == e0.explode_pos)
    &&& (eff != DevilEffect::InvertControls ==> e1.invert_timer == e0.invert_timer)
    &&& (eff != DevilEffect::BucketSmall && eff != DevilEffect::BucketLarge ==> e1.size_timer
        == e0.size_timer && e1.size_scale == e0.size_scale)
    &&& (eff != DevilEffect::ScoreDouble && eff != DevilEffect::ScoreTriple
        ==> e1.multiplier_timer == e0.multiplier_timer && e1.score_multiplier
        == e0.score_multiplier)
    &&& (eff != DevilEffect::MusicSwap ==> e1.music_mode == e0.music_mode)
    &&& (eff == DevilEffect::InvertControls ==> e1.invert_timer
        == crate::config::DEVIL_INVERT_DURATION && e1.message@ == "Controls inverted!"@)
    &&& (eff == DevilEffect::BucketSmall ==> e1.size_scale
        == crate::config::DEVIL_SIZE_SMALL_SCALE && e1.size_timer
        == crate::config::DEVIL_SIZE_EFFECT_DURATION && e1.message@ == "Bucket shrunk!"@)
    &&& (eff == DevilEffect::BucketLarge ==> e1.size_scale
        == crate::config::DEVIL_SIZE_LARGE_SCALE && e1.size_timer
        == crate::config::DEVIL_SIZE_EFFECT_DURATION && e1.message@ == "Bucket enlarged!"@)
    &&& (eff == DevilEffect::MusicSwap ==> e1.music_mode != e0.music_mode
        && (e1.music_mode is Default ==> e1.message@ == "Music Reset!"@)
        && (e1.music_mode matches MusicMode::Alternate(i) ==> i
        < crate::config::MUSIC_TRACKS && e1.message@ == "Music changed!"@))
    &&& (eff == DevilEffect::BucketExplode ==> s1.score == 0 && e1.explode_timer
        == crate::config::DEVIL_EXPLODE_ANIM_DURATION && e1.explode_pos == (Vec2 {
        x: (b.pos.x + b.size.x as int / 2) as i64,
        y: (b.pos.y + b.size.y as int / 2) as i64,
    }) && e1.message@ == "Bucket exploded! Score reset!"@)
    &&& (eff == DevilEffect::ScoreDouble ==> e1.score_multiplier == 2 && e1.multiplier_timer
        == crate::config::DEVIL_SCORE_MULTIPLIER_DURATION && e1.message@ == "Score x2!"@)
    &&& (eff == DevilEffect::ScoreTriple ==> e1.score_multiplier == 3 && e1.multiplier_timer
        == crate::config::DEVIL_SCORE_MULTIPLIER_DURATION && e1.message@ == "Score x3!"@)
}

/// Exactly what resolving one caught item of kind `k` does to the score
/// accumulator and the effects engine: the class delta, at the multiplier
/// active at that moment, is added (the random Blessed delta stays inside
/// its fixed range); a Devil catch additionally applies one of the seven
/// temporary effects, and a Volatile catch the bucket-explode outcome
/// unconditionally.
pub open spec fn catch_outcome(
    s0: Scoring,
    e0: EffectsState,
    s1: Scoring,
    e1: EffectsState,
    b: Bucket,
    k: CatKind,
) -> bool {
    &&& (k == CatKind::Normal ==> s1.score == crate::scoring::score_after(
        s0.score as int,
        crate::scoring::awarded_score(
            crate::config::NORMAL_CAT_SCORE as int,
            e0.score_multiplier as int,
        ),
    ) && e1 == e0)
    &&& (k == CatKind::Angel ==> (exists|delta: int|
        crate::config::ANGEL_SCORE_MIN <= delta <= crate::config::ANGEL_SCORE_MAX
            && s1.score == crate::scoring::score_after(
            s0.score as int,
            crate::scoring::awarded_score(delta, e0.score_multiplier as int),
        )) && e1 == e0)
    &&& (k == CatKind::Devil ==> (exists|eff: DevilEffect|
        #[trigger] effect_outcome(s0, e0, s1, e1, b, eff)))
    &&& (k == CatKind::Explode ==> effect_outcome(
        s0,
        e0,
        s1,
        e1,
        b,
        DevilEffect::BucketExplode,
    ))
}

/// The score and effects evolution of resolving a whole list of caught
/// kinds, in order: a chain of single-catch outcomes.
pub open spec fn catches_outcome(
    s0: Scoring,
    e0: EffectsState,
    s1: Scoring,
    e1: EffectsState,
    b: Bucket,
    ks: Seq<CatKind>,
) -> bool
    decreases ks.len(),
{
    if ks.len() == 0 {
        s1 == s0 && e1 == e0
    } else {
        exists|sm: Scoring, em: EffectsState|
            #[trigger] catch_outcome(s0, e0, sm, em, b, ks[0]) && catches_outcome(
                sm,
                em,
                s1,
                e1,
                b,
                ks.drop_first(),
            )
    }
}

/// Chaining one more catch onto a resolved list resolves the longer list.
proof fn lemma_catches_outcome_snoc(
    s0: Scoring,
    e0: EffectsState,
    s1: Scoring,
    e1: EffectsState,
    s2: Scoring,
    e2: EffectsState,
    b: Bucket,
    ks: Seq<CatKind>,
    k: CatKind,
)
    requires
        catches_outcome(s0, e0, s1, e1, b, ks),
        catch_outcome(s1, e1, s2, e2, b, k),
    ensures
        catches_outcome(s0, e0, s2, e2, b, ks.push(k)),
    decreases ks.len(),
{
    if ks.len() == 0 {
        assert(s1 == s0 && e1 == e0);
        assert(ks.push(k)[0] == k);
        assert(ks.push(k).drop_first() =~= Seq::<CatKind>::empty());
        assert(catch_outcome(s0, e0, s2, e2, b, k));
        assert(catches_outcome(s2, e2, s2, e2, b, ks.push(k).drop_first()));
    } else {
        let (sm, em) = choose|sm: Scoring, em: EffectsState|
            #[trigger] catch_outcome(s0, e0, sm, em, b, ks[0]) && catches_outcome(
                sm,
                em,
                s1,
                e1,
                b,
                ks.drop_first(),
            );
        lemma_catches_outcome_snoc(sm, em, s1, e1, s2, e2, b, ks.drop_first(), k);
        assert(ks.push(k)[0] == ks[0]);
        assert(ks.push(k).drop_first() =~= ks.drop_first().push(k));
        assert(catch_outcome(s0, e0, sm, em, b, ks.push(k)[0]) && catches_outcome(
            sm,
            em,
            s2,
            e2,
            b,
            ks.push(k).drop_first(),
        ));
    }
}

/// What the spawner promises of an item emitted at elapsed time `e2`.
pub open spec fn spawned_ok(o: FallingObject, e2: int, screen_w: int) -> bool {
    &&& o.wf()
    &&& o.pos.y == crate::config::OBJ_SPAWN_Y
    &&& SPAWN_MARGIN <= o.pos.x <= screen_w - SPAWN_MARGIN
    &&& o.velocity == crate::spawn::spawn_speed_of(e2)
    &&& o.anim.time == 0 && o.anim.frame == 0
}

/// How one playing frame treats the items, given the item list `items0` as
/// it stands after any spawn: every item advances one physics step, the
/// advanced list is partitioned against the bucket rectangle, misses charge
/// the agitation counter, and each caught item is resolved exactly once, in
/// order: starting from the ticked effects engine, the frame's score and
/// effects are the chained single-catch outcomes of the caught kinds. With
/// no catch they show exactly one tick, and a frame whose last catch is
/// Volatile always ends with the score reset to zero.
pub open spec fn frame_items_rel(
    w0: World,
    w1: World,
    items0: Seq<FallingObject>,
    dt: int,
    rect: Rect,
    screen_h: int,
) -> bool {
    let adv = items0.map_values(|o: FallingObject| crate::objects::item_stepped(o, dt));
    let ks = caught_from(adv, 0, rect);
    &&& w1.objects@ == kept_from(adv, 0, rect, screen_h)
    &&& w1.angry_points == angry_from(adv, 0, rect, screen_h, w0.angry_points as int)
    &&& (exists|em: EffectsState|
        #[trigger] crate::effects::ticked_rel(w0.effects, em, dt) && catches_outcome(
            w0.scoring,
            em,
            w1.scoring,
            w1.effects,
            w1.bucket,
            ks,
        ))
    &&& (ks.len() == 0 ==> w1.scoring == w0.scoring && crate::effects::ticked_rel(
        w0.effects,
        w1.effects,
        dt,
    ))
    &&& (ks.len() > 0 && ks.last() == CatKind::Explode ==> w1.scoring.score == 0)
}

/// Exactly what one whole frame does while the session is in normal play.
pub open spec fn playing_frame_rel(
    w0: World,
    w1: World,
    axis: int,
    dt: int,
    screen_w: int,
    screen_h: int,
) -> bool {
    let e2 = imin(w0.elapsed_time + dt, ELAPSED_LIMIT as int);
    let dd = crate::spawn::difficulty_of(e2);
    let inv = crate::effects::spec_tick(w0.effects.invert_timer as int, dt) > 0;
    let ax = if inv {
        -axis
    } else {
        axis
    };
    let desired = if crate::effects::spec_tick(w0.effects.size_timer as int, dt) == 0 {
        1000int
    } else {
        w0.effects.size_scale as int
    };
    let resized = desired != w0.bucket_scale;
    let vx = crate::bucket::stepped_vel(
        w0.bucket.pos.x as int,
        w0.bucket.vel as int,
        ax,
        dd,
        dt,
        screen_w,
        w0.bucket.size.x as int,
    );
    let x1 = crate::bucket::stepped_x(
        w0.bucket.pos.x as int,
        w0.bucket.vel as int,
        ax,
        dd,
        dt,
        screen_w,
        w0.bucket.size.x as int,
    );
    let nsx = imax(w0.base_bucket_size.x * desired / 1000, 1);
    let nsy = imax(w0.base_bucket_size.y * desired / 1000, 1);
    let fired = w0.spawner.timer + dt >= SPAWN_INTERVAL;
    let rect = rect_of(w1.bucket);
    &&& w1.elapsed_time == e2
    &&& w1.max_angry_points == w0.max_angry_points
    &&& w1.base_bucket_size == w0.base_bucket_size
    &&& w1.bucket_scale == desired
    &&& w1.bucket.vel == vx
    &&& w1.bucket.size.x == (if resized {
        nsx
    } else {
        w0.bucket.size.x as int
    })
    &&& w1.bucket.size.y == (if resized {
        nsy
    } else {
        w0.bucket.size.y as int
    })
    &&& w1.bucket.pos.x == (if resized {
        crate::bucket::settle_x(
            x1 + w0.bucket.size.x as int / 2 - nsx / 2,
            crate::bucket::bound_x(screen_w, nsx),
        )
    } else {
        x1
    })
    &&& w1.bucket.pos.y == (if resized {
        screen_h - crate::config::BUCKET_Y_OFFSET
    } else {
        w0.bucket.pos.y as int
    })
    &&& (!fired ==> w1.spawner.timer == w0.spawner.timer + dt
        && w1.spawner.explode_protect_spawns == w0.spawner.explode_protect_spawns
        && w1.spawner.devil_cooldown == crate::effects::spec_tick(
        w0.spawner.devil_cooldown as int,
        dt,
    ))
    &&& (fired ==> w1.spawner.timer == 0)
    &&& (!fired ==> frame_items_rel(w0, w1, w0.objects@, dt, rect, screen_h))
    &&& (fired ==> exists|o: FallingObject|
        #[trigger] spawned_ok(o, e2, screen_w) && frame_items_rel(
            w0,
            w1,
            w0.objects@.push(o),
            dt,
            rect,
            screen_h,
        ))
    &&& w1.angry_points >= w0.angry_points
    &&& (w1.phase is Playing <==> w1.angry_points < w1.max_angry_points)
    &&& (w1.phase is Escalating <==> w1.angry_points >= w1.max_angry_points)
    &&& (w1.phase is Escalating ==> w1.phase == (Phase::Escalating {
        y: GIANT_CAT_START_Y,
        frame: 0,
        anim_timer: 0,
    }))
    &&& 0 <= w1.bucket.pos.x <= crate::bucket::bound_x(screen_w, w1.bucket.size.x as int)
    &&& forall|k: int|
        0 <= k < w1.objects.len() ==> !((#[trigger] w1.objects@[k]).pos.y - w1.objects@[k].radius
            > screen_h) && !item_caught(w1.objects@[k], rect)
}

/// Advances every item's physics by `dt`.
fn advance_items(objects: &mut Vec<FallingObject>, dt: i64)
    requires
        forall|k: int|
            0 <= k < old(objects).len() ==> (#[trigger] old(objects)@[k]).wf()
                && old(objects)@[k].pos.y <= OBJ_POS_Y_LIMIT,
        0 <= dt <= DT_LIMIT,
    ensures
        final(objects).len() == old(objects).len(),
        final(objects)@ == old(objects)@.map_values(
            |o: FallingObject| crate::objects::item_stepped(o, dt as int),
        ),
        forall|k: int|
            0 <= k < old(objects).len() ==> (#[trigger] final(objects)@[k]).wf()
                && final(objects)@[k].pos.y <= OBJ_POS_Y_LIMIT + 3_200_000,
{
    let n: usize = objects.len();
    let mut i: usize = 0;
    while i < n
        invariant
            i <= n == objects.len(),
            0 <= dt <= DT_LIMIT,
            forall|k: int|
                i <= k < n ==> (#[trigger] objects@[k]) == old(objects)@[k],
            forall|k: int|
                0 <= k < n ==> (#[trigger] old(objects)@[k]).wf() && old(objects)@[k].pos.y
                    <= OBJ_POS_Y_LIMIT,
            forall|k: int|
                0 <= k < i ==> (#[trigger] objects@[k]).wf() && objects@[k].pos.y
                    <= OBJ_POS_Y_LIMIT + 3_200_000 && objects@[k]
                    == crate::objects::item_stepped(old(objects)@[k], dt as int),
        decreases n - i,
    {
        let mut o: FallingObject = objects[i];
        o.update(dt);
        objects[i] = o;
        i = i + 1;
    }
    proof {
        assert(objects@ =~= old(objects)@.map_values(
            |o: FallingObject| crate::objects::item_stepped(o, dt as int),
        ));
    }
}

/// Splits the items of one frame: overlapping items are caught (their
/// kinds are returned, in order), offscreen items are missed and charge
/// their penalty to the agitation counter, and the rest survive.
fn resolve_items(
    objects: &mut Vec<FallingObject>,
    rect: Rect,
    screen_h: i64,
    angry: &mut i64,
) -> (caught: Vec<CatKind>)
    requires
        forall|k: int|
            0 <= k < old(objects).len() ==> (#[trigger] old(objects)@[k]).wf()
                && old(objects)@[k].pos.y <= OBJ_POS_Y_LIMIT + 3_200_000,
        0 <= rect.x <= LEN_LIMIT,
        -LEN_LIMIT <= rect.y <= LEN_LIMIT,
        0 < rect.width <= LEN_LIMIT,
        0 < rect.height <= LEN_LIMIT,
        0 <= screen_h <= LEN_LIMIT,
        0 <= *old(angry) <= ANGRY_LIMIT,
    ensures
        caught@ == caught_from(old(objects)@, 0, rect),
        final(objects)@ == kept_from(old(objects)@, 0, rect, screen_h as int),
        *final(angry) == angry_from(
            old(objects)@,
            0,
            rect,
            screen_h as int,
            *old(angry) as int,
        ),
        *old(angry) <= *final(angry) <= ANGRY_LIMIT,
        forall|k: int|
            0 <= k < final(objects).len() ==> (#[trigger] final(objects)@[k]).wf()
                && final(objects)@[k].pos.y <= OBJ_POS_Y_LIMIT && !item_caught(
                final(objects)@[k],
                rect,
            ) && !(final(objects)@[k].pos.y - final(objects)@[k].radius > screen_h),
{
    let ghost items: Seq<FallingObject> = objects@;
    let ghost angry0: int = *angry as int;
    let mut kept: Vec<FallingObject> = Vec::new();
    let mut caught: Vec<CatKind> = Vec::new();
    let n: usize = objects.len();
    let mut i: usize = 0;
    while i < n
        invariant
            i <= n == items.len(),
            objects@ == items,
            forall|k: int|
                0 <= k < n ==> (#[trigger] items[k]).wf() && items[k].pos.y <= OBJ_POS_Y_LIMIT
                    + 3_200_000,
            0 <= rect.x <= LEN_LIMIT,
            -LEN_LIMIT <= rect.y <= LEN_LIMIT,
            0 < rect.width <= LEN_LIMIT,
            0 < rect.height <= LEN_LIMIT,
            0 <= screen_h <= LEN_LIMIT,
            caught@ + caught_from(items, i as int, rect) == caught_from(items, 0, rect),
            kept@ + kept_from(items, i as int, rect, screen_h as int) == kept_from(
                items,
                0,
                rect,
                screen_h as int,
            ),
            angry_from(items, i as int, rect, screen_h as int, *angry as int) == angry_from(
                items,
                0,
                rect,
                screen_h as int,
                angry0,
            ),
            0 <= angry0 <= *angry <= ANGRY_LIMIT,
            forall|k: int|
                0 <= k < kept.len() ==> (#[trigger] kept@[k]).wf() && kept@[k].pos.y
                    <= OBJ_POS_Y_LIMIT && !item_caught(kept@[k], rect) && !(kept@[k].pos.y
                    - kept@[k].radius > screen_h),
        decreases n - i,
    {
        let o: FallingObject = objects[i];
        if check_collision(o.pos, o.radius, rect) {
            caught.push(o.kind());
            proof {
                assert(caught@ + caught_from(items, i + 1, rect) =~= caught@.drop_last()
                    + caught_from(items, i as int, rect));
            }
        } else if o.offscreen(screen_h) {
            *angry = crate::num::sat_add_i64(
                *angry,
                match o.kind() {
                    CatKind::Normal => ANGRY_PENALTY_NORMAL,
                    CatKind::Angel => ANGRY_PENALTY_ANGEL,
                    CatKind::Devil => 0,
                    CatKind::Explode => 0,
                },
                ANGRY_LIMIT,
            );
        } else {
            kept.push(o);
            proof {
                assert(kept@ + kept_from(items, i + 1, rect, screen_h as int) =~= kept@.drop_last()
                    + kept_from(items, i as int, rect, screen_h as int));
            }
        }
        i = i + 1;
    }
    *objects = kept;
    proof {
        assert(caught@ =~= caught@ + caught_from(items, n as int, rect));
        assert(objects@ =~= objects@ + kept_from(items, n as int, rect, screen_h as int));
    }
    caught
}

/// The whole simulation state.
pub struct World {
    /// The player-controlled bucket.
    pub bucket: Bucket,
    /// The live falling items.
    pub objects: Vec<FallingObject>,
    /// The item spawner.
    pub spawner: Spawner,
    /// The score accumulator.
    pub scoring: Scoring,
    /// The timed status-effect engine.
    pub effects: EffectsState,
    /// Elapsed play time in milliseconds, saturating at its cap.
    pub elapsed_time: i64,
    /// Unscaled bucket size, the reference for size effects.
    pub base_bucket_size: Vec2,
    /// The size scale currently applied to the bucket, in thousandths.
    pub bucket_scale: i64,
    /// The agitation counter, fed by missed safe items.
    pub angry_points: i64,
    /// The agitation ceiling; reaching it starts the escalation.
    pub max_angry_points: i64,
    /// The escalation state machine.
    pub phase: Phase,
}

impl World {
    /// Bounds and ties every update preserves.
    pub open spec fn wf(self) -> bool {
        &&& self.bucket.wf()
        &&& forall|k: int|
            0 <= k < self.objects.len() ==> (#[trigger] self.objects@[k]).wf()
                && self.objects@[k].pos.y <= OBJ_POS_Y_LIMIT
        &&& self.spawner.wf()
        &&& self.scoring.wf()
        &&& self.effects.wf()
        &&& 0 <= self.elapsed_time <= ELAPSED_LIMIT
        &&& 0 < self.base_bucket_size.x <= BASE_SIZE_LIMIT
        &&& 0 < self.base_bucket_size.y <= BASE_SIZE_LIMIT
        &&& 1 <= self.bucket_scale <= SCALE_LIMIT
        &&& 0 <= self.angry_points <= ANGRY_LIMIT
        &&& 1 <= self.max_angry_points <= CEILING_LIMIT
        &&& self.phase_wf()
    }

    /// Bounds on the escalation state's data.
    pub open spec fn phase_wf(self) -> bool {
        match self.phase {
            Phase::Playing => true,
            Phase::Escalating { y, frame, anim_timer } => {
                &&& GIANT_CAT_START_Y <= y <= LEN_LIMIT
                &&& frame < CRYING_CAT_FRAMES
                &&& 0 <= anim_timer < frame_period(CRYING_CAT_FPS as int)
            },
            Phase::Landed { y, frame, remaining } => {
                &&& GIANT_CAT_START_Y <= y <= LEN_LIMIT
                &&& frame < CRYING_CAT_FRAMES
                &&& 0 < remaining <= GIANT_CAT_LANDED_DELAY
            },
            Phase::Over { y, frame } => {
                &&& GIANT_CAT_START_Y <= y <= LEN_LIMIT
                &&& frame < CRYING_CAT_FRAMES
            },
        }
    }

    /// A fresh session on a `screen_w` by `screen_h` screen with the given
    /// agitation ceiling. The ceiling must be positive: a session that
    /// would escalate immediately is a configuration error.
    pub fn new(screen_w: i64, screen_h: i64, initial_max_angry: i64) -> (w: World)
        requires
            BUCKET_W <= screen_w <= LEN_LIMIT,
            0 <= screen_h <= LEN_LIMIT,
            1 <= initial_max_angry <= CEILING_LIMIT,
        ensures
            w.wf(),
            w.bucket.vel == 0,
            w.bucket.size.x == BUCKET_W,
            w.objects.len() == 0,
            w.spawner.timer == 0,
            w.spawner.devil_cooldown == 0,
            w.spawner.explode_protect_spawns == 0,
            w.scoring.score == 0,
            w.effects.invert_timer == 0,
            w.effects.size_timer == 0,
            w.effects.size_scale == 1000,
            w.effects.multiplier_timer == 0,
            w.effects.score_multiplier == 1,
            w.effects.music_mode == MusicMode::Default,
            w.effects.message@.len() == 0,
            w.effects.message_timer == 0,
            w.effects.explode_timer == 0,
            w.elapsed_time == 0,
            w.base_bucket_size == w.bucket.size,
            w.bucket_scale == 1000,
            w.angry_points == 0,
            w.max_angry_points == initial_max_angry,
            w.phase == Phase::Playing,
    {
        let bucket = Bucket::new(screen_w, screen_h);
        let base = bucket.size;
        World {
            bucket,
            objects: Vec::new(),
            spawner: Spawner::new(),
            scoring: Scoring::new(),
            effects: EffectsState::new(),
            elapsed_time: 0,
            base_bucket_size: base,
            bucket_scale: 1000,
            angry_points: 0,
            max_angry_points: initial_max_angry,
            phase: Phase::Playing,
        }
    }

    /// Current accumulated score.
    pub fn score(&self) -> (s: i64)
        ensures
            s == self.scoring.score,
    {
        self.scoring.score()
    }

    /// Current sticky audio selection.
    pub fn music_mode(&self) -> (m: MusicMode)
        ensures
            m == self.effects.music_mode,
    {
        self.effects.music_mode()
    }

    /// The active effect message, if one is shown.
    pub fn effect_message(&self) -> (r: Option<&str>)
        ensures
            (self.effects.message_timer > 0 && self.effects.message@.len() > 0) <==> (r matches
            Some(s) && s@ == self.effects.message@),
            !(self.effects.message_timer > 0 && self.effects.message@.len() > 0) <==> r is None,
    {
        self.effects.message()
    }

    /// Fade fraction of the message in permille: the remaining share of the
    /// configured display duration.
    pub fn effect_message_alpha(&self) -> (a: i64)
        requires
            self.wf(),
        ensures
            a == crate::num::iclamp(
                (self.effects.message_timer * 1000)
                    / crate::config::DEVIL_EFFECT_MESSAGE_DURATION as int,
                0,
                1000,
            ),
            0 <= a <= 1000,
    {
        self.effects.message_alpha()
    }

    /// The active explosion visual, if any: its center and its normalized
    /// progress in permille.
    pub fn explosion_effect(&self) -> (r: Option<(Vec2, i64)>)
        requires
            self.wf(),
        ensures
            self.effects.explode_timer > 0 <==> (r matches Some(p) && p.0
                == self.effects.explode_pos && p.1 == crate::num::iclamp(
                1000 - (self.effects.explode_timer * 1000)
                    / crate::config::DEVIL_EXPLODE_ANIM_DURATION as int,
                0,
                1000,
            )),
            self.effects.explode_timer == 0 <==> r is None,
    {
        self.effects.explosion()
    }

    /// Vertical position of the giant cat, if the escalation has started.
    pub fn giant_cat_y(&self) -> (r: Option<i64>)
        ensures
            r == (match self.phase {
                Phase::Playing => None::<i64>,
                Phase::Escalating { y, .. } => Some(y),
                Phase::Landed { y, .. } => Some(y),
                Phase::Over { y, .. } => Some(y),
            }),
    {
        match self.phase {
            Phase::Playing => None,
            Phase::Escalating { y, .. } => Some(y),
            Phase::Landed { y, .. } => Some(y),
            Phase::Over { y, .. } => Some(y),
        }
    }

    /// Animation frame of the giant cat; zero before the escalation.
    pub fn giant_cat_frame(&self) -> (r: usize)
        ensures
            r == (match self.phase {
                Phase::Playing => 0usize,
                Phase::Escalating { frame, .. } => frame,
                Phase::Landed { frame, .. } => frame,
                Phase::Over { frame, .. } => frame,
            }),
    {
        match self.phase {
            Phase::Playing => 0,
            Phase::Escalating { frame, .. } => frame,
            Phase::Landed { frame, .. } => frame,
            Phase::Over { frame, .. } => frame,
        }
    }

    /// The terminal flag: the escalation has run to its end.
    pub fn game_over_trigger(&self) -> (r: bool)
        ensures
            r == (self.phase is Over),
    {
        match self.phase {
            Phase::Over { .. } => true,
            _ => false,
        }
    }

    /// Replaces the unscaled bucket size and resets the applied scale.
    pub fn set_base_bucket_size(&mut self, size: Vec2)
        requires
            old(self).wf(),
            0 < size.x <= BASE_SIZE_LIMIT,
            0 < size.y <= BASE_SIZE_LIMIT,
        ensures
            final(self).wf(),
            *final(self) == (World {
                base_bucket_size: size,
                bucket_scale: 1000,
                ..*old(self)
            }),
    {
        self.base_bucket_size = size;
        self.bucket_scale = 1000;
    }

    /// Rolls one of the seven temporary effects, uniformly.
    fn random_devil_effect<R: crate::rng::RandomSource>(rng: &mut R) -> (e: DevilEffect)
        ensures
            exists|i: int| 0 <= i <= 6 && e == #[trigger] spec_effect_of_index(i),
    {
        let index: i64 = rng.uniform_integer(0, 6);
        let e: DevilEffect = Self::effect_of_index(index);
        proof {
            assert(e == spec_effect_of_index(index as int));
        }
        e
    }

    /// The temporary effect each drawn index names.
    fn effect_of_index(index: i64) -> (e: DevilEffect)
        requires
            0 <= index <= 6,
        ensures
            e == spec_effect_of_index(index as int),
    {
        match index {
            0 => DevilEffect::InvertControls,
            1 => DevilEffect::BucketSmall,
            2 => DevilEffect::BucketLarge,
            3 => DevilEffect::MusicSwap,
            4 => DevilEffect::BucketExplode,
            5 => DevilEffect::ScoreDouble,
            _ => DevilEffect::ScoreTriple,
        }
    }

    /// Applies one temporary effect and shows its message. Only the
    /// effects engine and (for the explode effect) the score change; all
    /// physics state stays as it is.
    fn apply_devil_effect<R: crate::rng::RandomSource>(&mut self, effect: DevilEffect, rng: &mut R)
        requires
            old(self).wf(),
        ensures
            final(self).wf(),
            final(self).bucket == old(self).bucket,
            final(self).objects@ == old(self).objects@,
            final(self).spawner == old(self).spawner,
            final(self).elapsed_time == old(self).elapsed_time,
            final(self).base_bucket_size == old(self).base_bucket_size,
            final(self).bucket_scale == old(self).bucket_scale,
            final(self).angry_points == old(self).angry_points,
            final(self).max_angry_points == old(self).max_angry_points,
            final(self).phase == old(self).phase,
            effect_outcome(
                old(self).scoring,
                old(self).effects,
                final(self).scoring,
                final(self).effects,
                old(self).bucket,
                effect,
            ),
    {
        match effect {
            DevilEffect::InvertControls => {
                self.effects.apply_invert();
                self.effects.set_message("Controls inverted!");
            },
            DevilEffect::BucketSmall => {
                self.effects.apply_size_scale(crate::config::DEVIL_SIZE_SMALL_SCALE);
                self.effects.set_message("Bucket shrunk!");
            },
            DevilEffect::BucketLarge => {
                self.effects.apply_size_scale(crate::config::DEVIL_SIZE_LARGE_SCALE);
                self.effects.set_message("Bucket enlarged!");
            },
            DevilEffect::MusicSwap => {
                // one draw over the seven selections; a pick equal to the
                // current one falls back to its successor, so the selection
                // always changes without an unbounded redraw loop (the
                // successor thereby gets a slightly larger share)
                let pick0: i64 = rng.uniform_integer(0, 6);
                let cur: i64 = match self.effects.music_mode() {
                    MusicMode::Default => 6,
                    MusicMode::Alternate(i) => i as i64,
                };
                let pick: i64 = if pick0 == cur {
                    if pick0 == 6 {
                        0
                    } else {
                        pick0 + 1
                    }
                } else {
                    pick0
                };
                if pick == 6 {
                    self.effects.set_music_default();
                    self.effects.set_message("Music Reset!");
                } else {
                    self.effects.apply_music_swap(pick as usize);
                    self.effects.set_message("Music changed!");
                }
            },
            DevilEffect::BucketExplode => {
                let half_w: i64 = crate::num::div_pos(self.bucket.size.x, 2);
                let half_h: i64 = crate::num::div_pos(self.bucket.size.y, 2);
                let center = Vec2 { x: self.bucket.pos.x + half_w, y: self.bucket.pos.y + half_h };
                self.effects.trigger_explosion(center);
                self.scoring.reset();
                self.effects.set_message("Bucket exploded! Score reset!");
            },
            DevilEffect::ScoreDouble => {
                self.effects.apply_score_multiplier(2);
                self.effects.set_message("Score x2!");
            },
            DevilEffect::ScoreTriple => {
                self.effects.apply_score_multiplier(3);
                self.effects.set_message("Score x3!");
            },
        }
    }

    /// Applies the consequences of one caught item: the score delta at the
    /// current multiplier, a random temporary effect for a Devil, and the
    /// unconditional bucket-explode outcome for a Volatile.
    fn handle_catch<R: crate::rng::RandomSource>(&mut self, kind: CatKind, rng: &mut R)
        requires
            old(self).wf(),
        ensures
            final(self).wf(),
            final(self).bucket == old(self).bucket,
            final(self).objects@ == old(self).objects@,
            final(self).spawner == old(self).spawner,
            final(self).elapsed_time == old(self).elapsed_time,
            final(self).base_bucket_size == old(self).base_bucket_size,
            final(self).bucket_scale == old(self).bucket_scale,
            final(self).angry_points == old(self).angry_points,
            final(self).max_angry_points == old(self).max_angry_points,
            final(self).phase == old(self).phase,
            catch_outcome(
                old(self).scoring,
                old(self).effects,
                final(self).scoring,
                final(self).effects,
                old(self).bucket,
                kind,
            ),
            kind == CatKind::Explode ==> final(self).scoring.score == 0,
    {
        let multiplier: i64 = self.effects.score_multiplier();
        let awarded: i64 = self.scoring.register_catch(kind, rng, multiplier);
        proof {
            vstd::arithmetic::mul::lemma_mul_basics(
                imax(old(self).effects.score_multiplier as int, 1),
            );
            if kind == CatKind::Devil || kind == CatKind::Explode {
                assert(awarded == 0);
                assert(self.scoring == old(self).scoring);
            }
        }
        match kind {
            CatKind::Devil => {
                let e: DevilEffect = Self::random_devil_effect(rng);
                self.apply_devil_effect(e, rng);
                proof {
                    assert(effect_outcome(
                        old(self).scoring,
                        old(self).effects,
                        self.scoring,
                        self.effects,
                        old(self).bucket,
                        e,
                    ));
                }
            },
            CatKind::Explode => {
                self.apply_devil_effect(DevilEffect::BucketExplode, rng);
            },
            CatKind::Normal => {},
            CatKind::Angel => {},
        }
    }

    /// One whole frame. While the escalation runs, only the giant's state
    /// advances. In normal play: elapsed time and the effects engine tick;
    /// the bucket moves under the (possibly inverted) axis at the current
    /// difficulty; a changed size scale is applied to the bucket; the
    /// spawner may emit one item; every item falls; items are partitioned
    /// into caught, missed and surviving; caught items are scored and may
    /// trigger effects; and once the agitation counter reaches its ceiling
    /// the escalation starts, irreversibly.
    pub fn update<R: crate::rng::RandomSource>(
        &mut self,
        rng: &mut R,
        axis: i64,
        dt: i64,
        screen_w: i64,
        screen_h: i64,
    )
        requires
            old(self).wf(),
            -1000 <= axis <= 1000,
            0 <= dt <= DT_LIMIT,
            2 * SPAWN_MARGIN <= screen_w <= LEN_LIMIT,
            0 <= screen_h <= LEN_LIMIT,
        ensures
            final(self).wf(),
            phase_rank(final(self).phase) >= phase_rank(old(self).phase),
            !(old(self).phase is Playing) ==> final(self).phase == giant_step(
                old(self).phase,
                dt as int,
                screen_h as int,
            ) && *final(self) == (World { phase: final(self).phase, ..*old(self) }),
            old(self).phase is Playing ==> playing_frame_rel(
                *old(self),
                *final(self),
                axis as int,
                dt as int,
                screen_w as int,
                screen_h as int,
            ),
    {
        let playing: bool = match self.phase {
            Phase::Playing => true,
            _ => false,
        };
        if !playing {
            self.update_escalation(dt, screen_h);
            return;
        }
        self.elapsed_time = crate::num::sat_add_i64(self.elapsed_time, dt, ELAPSED_LIMIT);
        self.effects.update(dt);
        let axis2: i64 = self.effects.apply_input(axis);
        let difficulty: i64 = crate::spawn::difficulty_ms(self.elapsed_time);
        self.bucket.update(axis2, dt, screen_w, difficulty);
        let desired: i64 = self.effects.bucket_scale();
        if desired != self.bucket_scale {
            self.bucket_scale = desired;
            proof {
                assert(0 < self.base_bucket_size.x * desired <= 100_000_000_000 && 0
                    < self.base_bucket_size.y * desired <= 100_000_000_000) by (nonlinear_arith)
                    requires
                        0 < self.base_bucket_size.x <= 50_000_000,
                        0 < self.base_bucket_size.y <= 50_000_000,
                        1 <= desired <= 2000,
                ;
                vstd::arithmetic::div_mod::lemma_div_is_ordered(
                    self.base_bucket_size.x * desired,
                    100_000_000_000,
                    1000,
                );
                vstd::arithmetic::div_mod::lemma_div_is_ordered(
                    self.base_bucket_size.y * desired,
                    100_000_000_000,
                    1000,
                );
            }
            let sx: i64 = crate::num::max_i64(
                crate::num::div_pos(self.base_bucket_size.x * desired, 1000),
                1,
            );
            let sy: i64 = crate::num::max_i64(
                crate::num::div_pos(self.base_bucket_size.y * desired, 1000),
                1,
            );
            self.bucket.apply_size(Vec2 { x: sx, y: sy }, screen_w, screen_h);
        }
        let spawned: Option<FallingObject> = self.spawner.update(
            rng,
            dt,
            screen_w,
            self.elapsed_time,
        );
        let ghost sp: Option<FallingObject> = spawned;
        match spawned {
            Some(o) => {
                self.objects.push(o);
            },
            None => {},
        }
        let ghost items0: Seq<FallingObject> = self.objects@;
        advance_items(&mut self.objects, dt);
        let ghost adv: Seq<FallingObject> = self.objects@;
        let rect: Rect = self.bucket.rect();
        let caught: Vec<CatKind> = resolve_items(
            &mut self.objects,
            rect,
            screen_h,
            &mut self.angry_points,
        );
        let ghost snap: World = *self;
        proof {
            assert(rect == rect_of(snap.bucket));
            assert(caught@.take(0) =~= Seq::<CatKind>::empty());
        }
        let mut ci: usize = 0;
        while ci < caught.len()
            invariant
                self.wf(),
                ci <= caught.len(),
                self.bucket == snap.bucket,
                self.objects@ == snap.objects@,
                self.spawner == snap.spawner,
                self.elapsed_time == snap.elapsed_time,
                self.base_bucket_size == snap.base_bucket_size,
                self.bucket_scale == snap.bucket_scale,
                self.angry_points == snap.angry_points,
                self.max_angry_points == snap.max_angry_points,
                self.phase == snap.phase,
                catches_outcome(
                    snap.scoring,
                    snap.effects,
                    self.scoring,
                    self.effects,
                    snap.bucket,
                    caught@.take(ci as int),
                ),
                ci == 0 ==> self.scoring == snap.scoring && self.effects == snap.effects,
                ci > 0 && caught@[ci - 1] == CatKind::Explode ==> self.scoring.score == 0,
            decreases caught.len() - ci,
        {
            let k: CatKind = caught[ci];
            let ghost s_pre: Scoring = self.scoring;
            let ghost e_pre: EffectsState = self.effects;
            self.handle_catch(k, rng);
            proof {
                lemma_catches_outcome_snoc(
                    snap.scoring,
                    snap.effects,
                    s_pre,
                    e_pre,
                    self.scoring,
                    self.effects,
                    snap.bucket,
                    caught@.take(ci as int),
                    k,
                );
                assert(caught@.take(ci as int).push(k) =~= caught@.take(ci as int + 1));
            }
            ci = ci + 1;
        }
        proof {
            assert(caught@.take(caught@.len() as int) =~= caught@);
            assert(crate::effects::ticked_rel(old(self).effects, snap.effects, dt as int)
                && catches_outcome(
                old(self).scoring,
                snap.effects,
                self.scoring,
                self.effects,
                self.bucket,
                caught@,
            ));
            assert(adv == items0.map_values(
                |o: FallingObject| crate::objects::item_stepped(o, dt as int),
            ));
            let w0 = *old(self);
            let e2 = imin(w0.elapsed_time + dt, ELAPSED_LIMIT as int);
            if sp is Some {
                assert(items0 == w0.objects@.push(sp->Some_0));
                assert(spawned_ok(sp->Some_0, e2, screen_w as int));
            }
        }
        if self.angry_points >= self.max_angry_points {
            self.phase = Phase::Escalating { y: GIANT_CAT_START_Y, frame: 0, anim_timer: 0 };
        }
    }

    /// One escalation step: only the phase data changes.
    fn update_escalation(&mut self, dt: i64, screen_h: i64)
        requires
            old(self).wf(),
            !(old(self).phase is Playing),
            0 <= dt <= DT_LIMIT,
            0 <= screen_h <= LEN_LIMIT,
        ensures
            final(self).wf(),
            final(self).phase == giant_step(old(self).phase, dt as int, screen_h as int),
            phase_rank(final(self).phase) >= phase_rank(old(self).phase),
            *final(self) == (World { phase: final(self).phase, ..*old(self) }),
    {
        let target: i64 = screen_h - CRYING_CAT_FRAME_H * CRYING_CAT_SCALE;
        match self.phase {
            Phase::Playing => {},
            Phase::Escalating { y, frame, anim_timer } => {
                if y < target {
                    let dv: i64 = crate::num::div_pos(GIANT_CAT_SPEED * dt, 1000);
                    let y2: i64 = crate::num::min_i64(y + dv, target);
                    let p: i64 = crate::anim::frame_period_ms(CRYING_CAT_FPS);
                    let mut t2: i64 = anim_timer + dt;
                    let mut f2: usize = frame;
                    if t2 >= p {
                        t2 = 0;
                        f2 = (frame + 1) % CRYING_CAT_FRAMES;
                    }
                    if y2 >= target {
                        let rem: i64 = crate::num::max_i64(GIANT_CAT_LANDED_DELAY - dt, 0);
                        if rem == 0 {
                            self.phase = Phase::Over { y: y2, frame: f2 };
                        } else {
                            self.phase = Phase::Landed { y: y2, frame: f2, remaining: rem };
                        }
                    } else {
                        self.phase = Phase::Escalating { y: y2, frame: f2, anim_timer: t2 };
                    }
                } else {
                    let rem: i64 = crate::num::max_i64(GIANT_CAT_LANDED_DELAY - dt, 0);
                    if rem == 0 {
                        self.phase = Phase::Over { y: target, frame };
                    } else {
                        self.phase = Phase::Landed { y: target, frame, remaining: rem };
                    }
                }
            },
            Phase::Landed { y, frame, remaining } => {
                let rem: i64 = crate::num::max_i64(remaining - dt, 0);
                if rem == 0 {
                    self.phase = Phase::Over { y, frame };
                } else {
                    self.phase = Phase::Landed { y, frame, remaining: rem };
                }
            },
            Phase::Over { .. } => {},
        }
    }
}

} // verus!
