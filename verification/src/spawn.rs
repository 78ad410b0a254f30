//! Procedural creation of falling items: an interval timer, a time-tiered
//! Devil rate with a cooldown, a fixed Angel rate, and a rare Explode
//! (Volatile) sub-roll guarded by a protection counter so that two
//! Volatile items can never land in quick succession.

use vstd::prelude::*;

use crate::config::{
    ANGEL_RATE, DEVIL_COOLDOWN, DEVIL_RATE_EARLY, DEVIL_RATE_EARLY_END, DEVIL_RATE_LATE,
    DEVIL_RATE_MID, DEVIL_RATE_MID_END, DIFFICULTY_LIMIT, DT_LIMIT, ELAPSED_LIMIT,
    EXPLODE_PROTECT_SPAWNS, EXPLODE_RATE_IN_DEVIL, LEN_LIMIT, OBJ_BASE_SPEED,
    SPAWN_INTERVAL, SPAWN_MARGIN,
};

use crate::objects::{CatKind, FallingObject};
use crate::rng::RandomSource;

verus! {

/// Difficulty at `elapsed` milliseconds of play, in thousandths: it starts
/// at 1.0 and grows by 0.01 per second.
pub open spec fn difficulty_of(elapsed: int) -> int {
    1000 + elapsed / 100
}

/// Executable form of `difficulty_of`.
pub fn difficulty_ms(elapsed: i64) -> (d: i64)
    requires
        0 <= elapsed <= ELAPSED_LIMIT,
    ensures
        d == difficulty_of(elapsed as int),
        1000 <= d <= DIFFICULTY_LIMIT,
{
    proof {
        vstd::arithmetic::div_mod::lemma_div_is_ordered(elapsed as int, ELAPSED_LIMIT as int, 100);
    }
    1000 + crate::num::div_pos(elapsed, 100)
}

/// Devil rate in permille for `elapsed` milliseconds of play: three
/// increasing tiers separated by two time breakpoints.
pub open spec fn devil_rate_of(elapsed: int) -> int {
    if elapsed <= DEVIL_RATE_EARLY_END {
        DEVIL_RATE_EARLY as int
    } else if elapsed <= DEVIL_RATE_MID_END {
        DEVIL_RATE_MID as int
    } else {
        DEVIL_RATE_LATE as int
    }
}

/// Executable form of `devil_rate_of`.
pub fn devil_rate(elapsed: i64) -> (r: i64)
    ensures
        r == devil_rate_of(elapsed as int),
        0 <= r <= DEVIL_RATE_LATE,
{
    if elapsed <= DEVIL_RATE_EARLY_END {
        DEVIL_RATE_EARLY
    } else if elapsed <= DEVIL_RATE_MID_END {
        DEVIL_RATE_MID
    } else {
        DEVIL_RATE_LATE
    }
}

/// Fall speed given to an item spawned at `elapsed` milliseconds: the base
/// speed scaled by the current difficulty.
pub open spec fn spawn_speed_of(elapsed: int) -> int {
    (OBJ_BASE_SPEED * difficulty_of(elapsed)) / 1000
}

/// The Devil rate in force for one spawn tick: the time-tiered rate, or
/// zero while the cooldown still runs.
pub open spec fn live_devil_rate(devil_allowed: bool, elapsed: int) -> int {
    if devil_allowed {
        devil_rate_of(elapsed)
    } else {
        0
    }
}

/// The classification one spawn tick gives to the rolls it drew, both
/// uniform in `[0, 999]`, with `dr` the Devil rate in force: a roll below
/// `dr` picks the hazard branch, where a rare sub-roll upgrades to
/// Volatile unless the protection counter still runs; the next band is
/// Angel; all remaining probability mass is Normal.
pub open spec fn spawn_class(roll: int, sub: int, dr: int, p1: int) -> CatKind {
    if roll < dr {
        if sub < EXPLODE_RATE_IN_DEVIL {
            if p1 > 0 {
                CatKind::Devil
            } else {
                CatKind::Explode
            }
        } else {
            CatKind::Devil
        }
    } else if roll < dr + ANGEL_RATE {
        CatKind::Angel
    } else {
        CatKind::Normal
    }
}

/// The classification one firing spawn tick of `s0` produces from its two
/// drawn rolls, after the cooldown has ticked by `dt` and the protection
/// counter by one.
pub open spec fn rolled_class(s0: Spawner, dt: int, elapsed: int, roll: int, sub: int) -> CatKind {
    let c1 = crate::effects::spec_tick(s0.devil_cooldown as int, dt);
    let p1 = if s0.explode_protect_spawns > 0 {
        s0.explode_protect_spawns - 1
    } else {
        0int
    };
    spawn_class(roll, sub, live_devil_rate(c1 == 0, elapsed), p1)
}

/// What one firing spawn tick guarantees of the protection counter:
/// `p_before` counts down by one tick, a Volatile emission is possible only
/// once it has run out, and any emission decision restores the full
/// protection window or leaves the counter on its way down.
pub open spec fn protect_tick_ok(p_before: int, p_after: int, kind: CatKind) -> bool {
    let p1 = if p_before > 0 {
        p_before - 1
    } else {
        0
    };
    &&& (kind == CatKind::Explode ==> p1 == 0 && p_after == EXPLODE_PROTECT_SPAWNS)
    &&& p_after >= p1
}

/// The item spawner.
pub struct Spawner {
    /// Time since the last spawn; a new item appears once it reaches the
    /// spawn interval.
    pub timer: i64,
    /// Remaining time during which no Devil may be selected.
    pub devil_cooldown: i64,
    /// Remaining spawn ticks during which no Volatile may be emitted.
    pub explode_protect_spawns: i64,
}

impl Spawner {
    /// Bounds every update preserves.
    pub open spec fn wf(self) -> bool {
        &&& 0 <= self.timer < SPAWN_INTERVAL
        &&& 0 <= self.devil_cooldown <= DEVIL_COOLDOWN
        &&& 0 <= self.explode_protect_spawns <= EXPLODE_PROTECT_SPAWNS
    }

    /// A fresh spawner with all timers at zero.
    pub fn new() -> (s: Spawner)
        ensures
            s.wf(),
            s.timer == 0,
            s.devil_cooldown == 0,
            s.explode_protect_spawns == 0,
    {
        Spawner { timer: 0, devil_cooldown: 0, explode_protect_spawns: 0 }
    }

    /// One spawn step. Emits at most one item per call: exactly when the
    /// interval timer, fed with `dt`, reaches the spawn interval; the timer
    /// is reset on emission. The horizontal position is uniform within a
    /// margin of the screen edges; the classification follows the
    /// time-tiered Devil rate (zero while the cooldown runs), the fixed
    /// Angel rate, and the rare protected Explode sub-roll; the fall speed
    /// is the difficulty-scaled base speed.
    pub fn update<R: RandomSource>(
        &mut self,
        rng: &mut R,
        dt: i64,
        screen_w: i64,
        elapsed_time: i64,
    ) -> (spawned: Option<FallingObject>)
        requires
            old(self).wf(),
            0 <= dt <= DT_LIMIT,
            2 * SPAWN_MARGIN <= screen_w <= LEN_LIMIT,
            0 <= elapsed_time <= ELAPSED_LIMIT,
        ensures
            final(self).wf(),
            spawned is Some <==> old(self).timer + dt >= SPAWN_INTERVAL,
            spawned is None ==> final(self).timer == old(self).timer + dt
                && final(self).devil_cooldown == crate::effects::spec_tick(
                old(self).devil_cooldown as int,
                dt as int,
            ) && final(self).explode_protect_spawns == old(self).explode_protect_spawns,
            spawned matches Some(o) ==> {
                let c1 = crate::effects::spec_tick(old(self).devil_cooldown as int, dt as int);
                let p1 = if old(self).explode_protect_spawns > 0 {
                    old(self).explode_protect_spawns - 1
                } else {
                    0int
                };
                &&& final(self).timer == 0
                &&& o.wf()
                &&& o.pos.y == crate::config::OBJ_SPAWN_Y
                &&& SPAWN_MARGIN <= o.pos.x <= screen_w - SPAWN_MARGIN
                &&& o.velocity == spawn_speed_of(elapsed_time as int)
                &&& o.anim.time == 0 && o.anim.frame == 0
                &&& protect_tick_ok(
                    old(self).explode_protect_spawns as int,
                    final(self).explode_protect_spawns as int,
                    o.kind,
                )
                &&& (o.kind == CatKind::Explode ==> p1 == 0
                    && final(self).explode_protect_spawns == EXPLODE_PROTECT_SPAWNS && c1 == 0
                    && final(self).devil_cooldown == DEVIL_COOLDOWN)
                &&& (o.kind == CatKind::Devil ==> c1 == 0 && final(self).devil_cooldown
                    == DEVIL_COOLDOWN && (final(self).explode_protect_spawns == p1
                    || final(self).explode_protect_spawns == EXPLODE_PROTECT_SPAWNS))
                &&& (o.kind == CatKind::Normal || o.kind == CatKind::Angel
                    ==> final(self).explode_protect_spawns == p1
                    && final(self).devil_cooldown == c1)
                &&& (p1 > 0 ==> o.kind != CatKind::Explode)
                &&& (exists|roll: int, sub: int|
                    {
                        let dr = live_devil_rate(c1 == 0, elapsed_time as int);
                        &&& 0 <= roll <= 999
                        &&& 0 <= sub <= 999
                        &&& o.kind == #[trigger] rolled_class(
                            *old(self),
                            dt as int,
                            elapsed_time as int,
                            roll,
                            sub,
                        )
                        &&& o.kind == spawn_class(roll, sub, dr, p1)
                        &&& final(self).devil_cooldown == (if roll < dr {
                            DEVIL_COOLDOWN as int
                        } else {
                            c1
                        })
                        &&& final(self).explode_protect_spawns == (if roll < dr && sub
                            < EXPLODE_RATE_IN_DEVIL {
                            EXPLODE_PROTECT_SPAWNS as int
                        } else {
                            p1
                        })
                    })
            },
    {
        self.timer = self.timer + dt;
        self.devil_cooldown = crate::num::max_i64(self.devil_cooldown - dt, 0);
        if self.timer < SPAWN_INTERVAL {
            return None;
        }
        self.timer = 0;
        if self.explode_protect_spawns > 0 {
            self.explode_protect_spawns = self.explode_protect_spawns - 1;
        }
        let ghost p1g: int = self.explode_protect_spawns as int;
        let x: i64 = rng.uniform_integer(SPAWN_MARGIN, screen_w - SPAWN_MARGIN);
        let allowed: bool = self.devil_cooldown == 0;
        let dr: i64 = if allowed {
            devil_rate(elapsed_time)
        } else {
            0
        };
        let roll: i64 = rng.uniform_integer(0, 999);
        let ghost mut subg: int = 0;
        let kind: CatKind = if roll < dr {
            self.devil_cooldown = DEVIL_COOLDOWN;
            let explode_roll: i64 = rng.uniform_integer(0, 999);
            proof {
                subg = explode_roll as int;
            }
            if explode_roll < EXPLODE_RATE_IN_DEVIL {
                if self.explode_protect_spawns > 0 {
                    self.explode_protect_spawns = EXPLODE_PROTECT_SPAWNS;
                    CatKind::Devil
                } else {
                    self.explode_protect_spawns = EXPLODE_PROTECT_SPAWNS;
                    CatKind::Explode
                }
            } else {
                CatKind::Devil
            }
        } else if roll < dr + ANGEL_RATE {
            CatKind::Angel
        } else {
            CatKind::Normal
        };
        proof {
            assert(dr == live_devil_rate(allowed, elapsed_time as int));
            assert(kind == spawn_class(roll as int, subg, dr as int, p1g));
            assert(kind == rolled_class(
                *old(self),
                dt as int,
                elapsed_time as int,
                roll as int,
                subg,
            ));
        }
        let d: i64 = difficulty_ms(elapsed_time);
        proof {
            vstd::arithmetic::div_mod::lemma_div_is_ordered(
                OBJ_BASE_SPEED * d as int,
                17_300_000_000,
                1000,
            );
        }
        let speed: i64 = crate::num::div_pos(OBJ_BASE_SPEED * d, 1000);
        Some(FallingObject::new(x, kind, speed))
    }
}

/// Along any run of firing spawn ticks that each satisfy
/// `protect_tick_ok`, the protection counter loses at most one per tick
/// once it stands at the full window.
pub proof fn lemma_protect_lower_bound(ps: Seq<int>, ks: Seq<CatKind>, s: int, t: int)
    requires
        ps.len() == ks.len() + 1,
        forall|u: int|
            0 <= u < ks.len() ==> #[trigger] protect_tick_ok(ps[u], ps[u + 1], ks[u]),
        0 <= s <= t <= ks.len(),
        ps[s] >= EXPLODE_PROTECT_SPAWNS,
    ensures
        ps[t] >= EXPLODE_PROTECT_SPAWNS - (t - s),
    decreases t - s,
{
    if t > s {
        lemma_protect_lower_bound(ps, ks, s, t - 1);
        let u = t - 1;
        assert(protect_tick_ok(ps[u], ps[u + 1], ks[u]));
    }
}

/// The spawner never emits a Volatile classification twice within the
/// configured protection window of spawn ticks: along any run of firing
/// spawn ticks, two Volatile emissions are at least
/// `EXPLODE_PROTECT_SPAWNS` ticks apart.
pub proof fn lemma_volatile_protection(ps: Seq<int>, ks: Seq<CatKind>, i: int, j: int)
    requires
        ps.len() == ks.len() + 1,
        forall|u: int|
            0 <= u < ks.len() ==> #[trigger] protect_tick_ok(ps[u], ps[u + 1], ks[u]),
        0 <= i < j < ks.len(),
        ks[i] == CatKind::Explode,
        ks[j] == CatKind::Explode,
    ensures
        j - i >= EXPLODE_PROTECT_SPAWNS,
{
    assert(protect_tick_ok(ps[i], ps[i + 1], ks[i]));
    lemma_protect_lower_bound(ps, ks, i + 1, j);
    assert(protect_tick_ok(ps[j], ps[j + 1], ks[j]));
}

} // verus!
