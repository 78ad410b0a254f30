//! The timed status-effect engine: independent countdown timers for control
//! inversion, a bucket size scale, a score multiplier, a cosmetic message
//! and an explosion visual, plus a sticky alternate-audio selection that
//! never expires on its own.

use vstd::prelude::*;

use crate::config::{
    DEVIL_EFFECT_MESSAGE_DURATION, DEVIL_EXPLODE_ANIM_DURATION, DEVIL_INVERT_DURATION,
    DEVIL_SCORE_MULTIPLIER_DURATION, DEVIL_SIZE_EFFECT_DURATION, DT_LIMIT, MULT_LIMIT,
    MUSIC_TRACKS, SCALE_LIMIT,
};
use crate::geom::Vec2;
use crate::num::iclamp;

verus! {

/// The temporary effect a Devil catch rolls; a Volatile catch always
/// applies `BucketExplode`.
#[derive(Clone, Copy, PartialEq, Eq, Structural, Debug)]
pub enum DevilEffect {
    InvertControls,
    BucketSmall,
    BucketLarge,
    MusicSwap,
    BucketExplode,
    ScoreDouble,
    ScoreTriple,
}

/// The sticky audio selection: the default track or one alternate track.
#[derive(Clone, Copy, PartialEq, Eq, Structural, Debug)]
pub enum MusicMode {
    Default,
    Alternate(usize),
}

/// A countdown timer after `dt` milliseconds have passed: it never drops
/// below zero.
pub open spec fn spec_tick(t: int, dt: int) -> int {
    if t - dt >= 0 {
        t - dt
    } else {
        0
    }
}

/// Exactly what one tick of `dt` milliseconds does: every timer loses
/// `dt`, clamped at zero; an override whose timer ran out is back at its
/// neutral default; the audio selection and the explosion center are
/// untouched.
pub open spec fn ticked_rel(e0: EffectsState, e1: EffectsState, dt: int) -> bool {
    &&& e1.invert_timer == spec_tick(e0.invert_timer as int, dt)
    &&& e1.size_timer == spec_tick(e0.size_timer as int, dt)
    &&& e1.size_scale == (if spec_tick(e0.size_timer as int, dt) == 0 {
        1000int
    } else {
        e0.size_scale as int
    })
    &&& e1.multiplier_timer == spec_tick(e0.multiplier_timer as int, dt)
    &&& e1.score_multiplier == (if spec_tick(e0.multiplier_timer as int, dt) == 0 {
        1int
    } else {
        e0.score_multiplier as int
    })
    &&& e1.message_timer == spec_tick(e0.message_timer as int, dt)
    &&& e1.message@ == (if spec_tick(e0.message_timer as int, dt) == 0 {
        Seq::<char>::empty()
    } else {
        e0.message@
    })
    &&& e1.explode_timer == spec_tick(e0.explode_timer as int, dt)
    &&& e1.explode_pos == e0.explode_pos
    &&& e1.music_mode == e0.music_mode
}

/// State of every temporary modifier.
pub struct EffectsState {
    /// Remaining control-inversion time; inversion is active while positive.
    pub invert_timer: i64,
    /// Remaining size-effect time.
    pub size_timer: i64,
    /// Current bucket size scale in thousandths; 1000 while no size effect
    /// is active.
    pub size_scale: i64,
    /// Remaining score-multiplier time.
    pub multiplier_timer: i64,
    /// Current score multiplier; 1 while no multiplier effect is active.
    pub score_multiplier: i64,
    /// Sticky audio selection; only explicit calls change it.
    pub music_mode: MusicMode,
    /// Message text shown while the message timer is positive.
    pub message: String,
    /// Remaining message display time.
    pub message_timer: i64,
    /// Remaining explosion-visual time.
    pub explode_timer: i64,
    /// Center of the explosion visual.
    pub explode_pos: Vec2,
}

impl EffectsState {
    /// Bounds and neutrality ties every operation preserves: timers stay
    /// within their configured durations, overrides stay in range and
    /// revert to neutral whenever their timer is out, and an alternate
    /// track index is always valid.
    pub open spec fn wf(self) -> bool {
        &&& 0 <= self.invert_timer <= DEVIL_INVERT_DURATION
        &&& 0 <= self.size_timer <= DEVIL_SIZE_EFFECT_DURATION
        &&& 0 <= self.multiplier_timer <= DEVIL_SCORE_MULTIPLIER_DURATION
        &&& 0 <= self.message_timer <= DEVIL_EFFECT_MESSAGE_DURATION
        &&& 0 <= self.explode_timer <= DEVIL_EXPLODE_ANIM_DURATION
        &&& 1 <= self.size_scale <= SCALE_LIMIT
        &&& 1 <= self.score_multiplier <= MULT_LIMIT
        &&& (self.size_timer == 0 ==> self.size_scale == 1000)
        &&& (self.multiplier_timer == 0 ==> self.score_multiplier == 1)
        &&& (self.music_mode matches MusicMode::Alternate(i) ==> i < MUSIC_TRACKS)
    }

    /// A fresh engine: no active effect, neutral overrides, default audio.
    pub fn new() -> (e: EffectsState)
        ensures
            e.wf(),
            e.invert_timer == 0,
            e.size_timer == 0,
            e.size_scale == 1000,
            e.multiplier_timer == 0,
            e.score_multiplier == 1,
            e.music_mode == MusicMode::Default,
            e.message@.len() == 0,
            e.message_timer == 0,
            e.explode_timer == 0,
    {
        EffectsState {
            invert_timer: 0,
            size_timer: 0,
            size_scale: 1000,
            multiplier_timer: 0,
            score_multiplier: 1,
            music_mode: MusicMode::Default,
            message: String::new(),
            message_timer: 0,
            explode_timer: 0,
            explode_pos: Vec2 { x: 0, y: 0 },
        }
    }

    /// One tick: every timer loses `dt`, clamped at zero, and an override
    /// whose timer runs out reverts to its neutral default. The audio
    /// selection is sticky and never reverts here.
    pub fn update(&mut self, dt: i64)
        requires
            old(self).wf(),
            0 <= dt <= DT_LIMIT,
        ensures
            final(self).wf(),
            ticked_rel(*old(self), *final(self), dt as int),
    {
        self.invert_timer = crate::num::max_i64(self.invert_timer - dt, 0);
        self.size_timer = crate::num::max_i64(self.size_timer - dt, 0);
        if self.size_timer == 0 {
            self.size_scale = 1000;
        }
        self.multiplier_timer = crate::num::max_i64(self.multiplier_timer - dt, 0);
        if self.multiplier_timer == 0 {
            self.score_multiplier = 1;
        }
        self.message_timer = crate::num::max_i64(self.message_timer - dt, 0);
        if self.message_timer == 0 {
            self.message = String::new();
        }
        self.explode_timer = crate::num::max_i64(self.explode_timer - dt, 0);
        proof {
            assert(final(self).message@ =~= (if spec_tick(
                old(self).message_timer as int,
                dt as int,
            ) == 0 {
                Seq::<char>::empty()
            } else {
                old(self).message@
            }));
        }
    }

    /// The effective movement axis: negated while inversion is active.
    pub fn apply_input(&self, move_x: i64) -> (r: i64)
        requires
            i64::MIN < move_x,
        ensures
            r == (if self.invert_timer > 0 {
                -(move_x as int)
            } else {
                move_x as int
            }),
    {
        if self.invert_timer > 0 {
            -move_x
        } else {
            move_x
        }
    }

    /// Current bucket size scale, in thousandths.
    pub fn bucket_scale(&self) -> (s: i64)
        ensures
            s == self.size_scale,
    {
        self.size_scale
    }

    /// Current score multiplier.
    pub fn score_multiplier(&self) -> (m: i64)
        ensures
            m == self.score_multiplier,
    {
        self.score_multiplier
    }

    /// Current sticky audio selection.
    pub fn music_mode(&self) -> (m: MusicMode)
        ensures
            m == self.music_mode,
    {
        self.music_mode
    }

    /// The active message, if one is being shown.
    pub fn message(&self) -> (r: Option<&str>)
        ensures
            (self.message_timer > 0 && self.message@.len() > 0) <==> (r matches Some(s)
                && s@ == self.message@),
            !(self.message_timer > 0 && self.message@.len() > 0) <==> r is None,
    {
        if self.message_timer > 0 && !self.message.as_str().is_empty() {
            Some(self.message.as_str())
        } else {
            None
        }
    }

    /// Fade fraction of the message in permille: the remaining share of the
    /// configured display duration.
    pub fn message_alpha(&self) -> (a: i64)
        requires
            self.wf(),
        ensures
            a == iclamp(
                (self.message_timer * 1000) / DEVIL_EFFECT_MESSAGE_DURATION as int,
                0,
                1000,
            ),
            0 <= a <= 1000,
    {
        let raw: i64 = crate::num::div_pos(
            self.message_timer * 1000,
            DEVIL_EFFECT_MESSAGE_DURATION,
        );
        crate::num::clamp_i64(raw, 0, 1000)
    }

    /// The active explosion visual, if any: its center and its normalized
    /// progress in permille, growing from 0 to 1000 as the visual plays.
    pub fn explosion(&self) -> (r: Option<(Vec2, i64)>)
        requires
            self.wf(),
        ensures
            self.explode_timer > 0 <==> (r matches Some(p) && p.0 == self.explode_pos && p.1
                == iclamp(
                1000 - (self.explode_timer * 1000) / DEVIL_EXPLODE_ANIM_DURATION as int,
                0,
                1000,
            )),
            self.explode_timer == 0 <==> r is None,
    {
        if self.explode_timer > 0 {
            let raw: i64 = crate::num::div_pos(
                self.explode_timer * 1000,
                DEVIL_EXPLODE_ANIM_DURATION,
            );
            let t: i64 = crate::num::clamp_i64(1000 - raw, 0, 1000);
            proof {
                vstd::arithmetic::div_mod::lemma_div_is_ordered(
                    self.explode_timer * 1000,
                    900_000,
                    900,
                );
            }
            Some((self.explode_pos, t))
        } else {
            None
        }
    }

    /// Shows `text` and restarts the message timer at its full duration.
    pub fn set_message(&mut self, text: &str)
        requires
            old(self).wf(),
        ensures
            final(self).wf(),
            final(self).message@ == text@,
            final(self).message_timer == DEVIL_EFFECT_MESSAGE_DURATION,
            final(self).invert_timer == old(self).invert_timer,
            final(self).size_timer == old(self).size_timer,
            final(self).size_scale == old(self).size_scale,
            final(self).multiplier_timer == old(self).multiplier_timer,
            final(self).score_multiplier == old(self).score_multiplier,
            final(self).music_mode == old(self).music_mode,
            final(self).explode_timer == old(self).explode_timer,
            final(self).explode_pos == old(self).explode_pos,
    {
        self.message = text.to_owned();
        self.message_timer = DEVIL_EFFECT_MESSAGE_DURATION;
    }

    /// Starts control inversion for its full configured duration.
    pub fn apply_invert(&mut self)
        requires
            old(self).wf(),
        ensures
            final(self).wf(),
            *final(self) == (EffectsState { invert_timer: DEVIL_INVERT_DURATION, ..*old(self) }),
    {
        self.invert_timer = DEVIL_INVERT_DURATION;
    }

    /// Starts a size effect: the scale override takes effect at once and
    /// lasts the full configured duration.
    pub fn apply_size_scale(&mut self, scale: i64)
        requires
            old(self).wf(),
            1 <= scale <= SCALE_LIMIT,
        ensures
            final(self).wf(),
            *final(self) == (EffectsState {
                size_timer: DEVIL_SIZE_EFFECT_DURATION,
                size_scale: scale,
                ..*old(self)
            }),
    {
        self.size_scale = scale;
        self.size_timer = DEVIL_SIZE_EFFECT_DURATION;
    }

    /// Starts a score-multiplier effect, flooring the factor at one.
    pub fn apply_score_multiplier(&mut self, multiplier: i64)
        requires
            old(self).wf(),
            multiplier <= MULT_LIMIT,
        ensures
            final(self).wf(),
            *final(self) == (EffectsState {
                multiplier_timer: DEVIL_SCORE_MULTIPLIER_DURATION,
                score_multiplier: crate::num::imax(multiplier as int, 1) as i64,
                ..*old(self)
            }),
    {
        self.score_multiplier = crate::num::max_i64(multiplier, 1);
        self.multiplier_timer = DEVIL_SCORE_MULTIPLIER_DURATION;
    }

    /// Selects an alternate audio track; the selection is sticky.
    pub fn apply_music_swap(&mut self, track_idx: usize)
        requires
            old(self).wf(),
            track_idx < MUSIC_TRACKS,
        ensures
            final(self).wf(),
            *final(self) == (EffectsState {
                music_mode: MusicMode::Alternate(track_idx),
                ..*old(self)
            }),
    {
        self.music_mode = MusicMode::Alternate(track_idx);
    }

    /// Returns to the default audio track; the selection is sticky.
    pub fn set_music_default(&mut self)
        requires
            old(self).wf(),
        ensures
            final(self).wf(),
            *final(self) == (EffectsState { music_mode: MusicMode::Default, ..*old(self) }),
    {
        self.music_mode = MusicMode::Default;
    }

    /// Starts the explosion visual at `pos` for its full configured
    /// duration.
    pub fn trigger_explosion(&mut self, pos: Vec2)
        requires
            old(self).wf(),
        ensures
            final(self).wf(),
            *final(self) == (EffectsState {
                explode_timer: DEVIL_EXPLODE_ANIM_DURATION,
                explode_pos: pos,
                ..*old(self)
            }),
    {
        self.explode_pos = pos;
        self.explode_timer = DEVIL_EXPLODE_ANIM_DURATION;
    }
}

/// Starting any timed effect and advancing time by at least its remaining
/// duration always reverts its override to the neutral default, while a
/// partial advance leaves the override active and unchanged; the audio
/// selection never reverts on its own. Each `apply` call starts its timer
/// at the effect's full configured duration, so with `e0` the state right
/// after such a call this covers every timed effect's whole lifecycle.
pub proof fn lemma_timed_effects_revert(e0: EffectsState, e1: EffectsState, dt: int)
    requires
        e0.wf(),
        0 <= dt,
        ticked_rel(e0, e1, dt),
    ensures
        e0.invert_timer <= dt ==> e1.invert_timer == 0,
        dt < e0.invert_timer ==> e1.invert_timer > 0,
        e0.size_timer <= dt ==> e1.size_scale == 1000,
        dt < e0.size_timer ==> e1.size_scale == e0.size_scale,
        e0.multiplier_timer <= dt ==> e1.score_multiplier == 1,
        dt < e0.multiplier_timer ==> e1.score_multiplier == e0.score_multiplier,
        e0.message_timer <= dt ==> e1.message@.len() == 0,
        dt < e0.message_timer ==> e1.message@ == e0.message@,
        e0.explode_timer <= dt ==> e1.explode_timer == 0,
        dt < e0.explode_timer ==> e1.explode_timer > 0,
        e1.music_mode == e0.music_mode,
{
}

} // verus!
