//! Tuning constants for the simulation core.
//!
//! Lengths are in milliunits, times in milliseconds, rates in permille, and
//! scale factors in thousandths (1000 means 1.0).

use vstd::prelude::*;

verus! {

// scoring
pub const NORMAL_CAT_SCORE: i64 = 1;
pub const DEVIL_CAT_SCORE: i64 = 0;
/// Smallest random reward for an Angel catch (both bounds are reached).
pub const ANGEL_SCORE_MIN: i64 = 2;
/// Largest random reward for an Angel catch (both bounds are reached).
pub const ANGEL_SCORE_MAX: i64 = 6;

// bucket
pub const BUCKET_W: i64 = 48_000;
pub const BUCKET_H: i64 = 150_000;
/// Horizontal acceleration of the bucket, in milliunits per second squared.
pub const BUCKET_ACCEL: i64 = 1_800_000;
/// Horizontal speed limit of the bucket, in milliunits per second.
pub const BUCKET_MAX_SPEED: i64 = 420_000;
/// Exponential damping rate applied while no axis is held, per second.
pub const BUCKET_FRICTION: i64 = 8;
/// Distance from the bottom of the screen to the top of the bucket.
pub const BUCKET_Y_OFFSET: i64 = 60_000;
pub const BUCKET_FRAME_COUNT: usize = 2;
pub const BUCKET_ANIM_FPS: i64 = 6;

// falling object
pub const OBJ_RADIUS: i64 = 8_000;
/// Downward acceleration of a falling object, in milliunits per second squared.
pub const OBJ_GRAVITY: i64 = 400_000;
/// Fall speed given to a new object at difficulty 1.0, in milliunits per second.
pub const OBJ_BASE_SPEED: i64 = 20_000;
/// Fall speed limit of an object, in milliunits per second.
pub const OBJ_MAX_SPEED: i64 = 320_000;
/// Vertical position at which a new object appears.
pub const OBJ_SPAWN_Y: i64 = -10_000;
pub const OBJ_FRAME_COUNT: usize = 12;
pub const OBJ_ANIM_FPS: i64 = 10;

// spawn
pub const SPAWN_INTERVAL: i64 = 800;
/// Horizontal margin kept free of spawns at both screen edges.
pub const SPAWN_MARGIN: i64 = 20_000;
pub const DEVIL_RATE_EARLY: i64 = 120;
pub const DEVIL_RATE_MID: i64 = 160;
pub const DEVIL_RATE_LATE: i64 = 200;
pub const DEVIL_RATE_EARLY_END: i64 = 30_000;
pub const DEVIL_RATE_MID_END: i64 = 90_000;
pub const ANGEL_RATE: i64 = 150;
pub const EXPLODE_RATE_IN_DEVIL: i64 = 50;
pub const DEVIL_COOLDOWN: i64 = 800;
/// Number of spawn ticks during which a second Volatile emission is blocked.
pub const EXPLODE_PROTECT_SPAWNS: i64 = 18;

// devil cat effects
pub const DEVIL_INVERT_DURATION: i64 = 4_000;
pub const DEVIL_SIZE_EFFECT_DURATION: i64 = 6_000;
pub const DEVIL_SIZE_SMALL_SCALE: i64 = 700;
pub const DEVIL_SIZE_LARGE_SCALE: i64 = 1_300;
pub const DEVIL_SCORE_MULTIPLIER_DURATION: i64 = 8_000;
pub const DEVIL_EXPLODE_ANIM_DURATION: i64 = 900;
pub const DEVIL_EFFECT_MESSAGE_DURATION: i64 = 2_400;
/// Number of alternate audio tracks the sticky selection can pick from.
pub const MUSIC_TRACKS: usize = 6;

// angry cat mechanism
pub const ANGRY_BAR_MIN_MAX: i64 = 15;
pub const ANGRY_BAR_MAX_MAX: i64 = 25;
pub const ANGRY_PENALTY_NORMAL: i64 = 1;
pub const ANGRY_PENALTY_ANGEL: i64 = 3;
/// Descent speed of the giant cat, in milliunits per second.
pub const GIANT_CAT_SPEED: i64 = 210_000;
pub const CRYING_CAT_FRAME_H: i64 = 52_000;
pub const CRYING_CAT_FRAMES: usize = 4;
pub const CRYING_CAT_FPS: i64 = 8;
pub const CRYING_CAT_SCALE: i64 = 10;
/// Grace period between the giant cat landing and the terminal flag.
pub const GIANT_CAT_LANDED_DELAY: i64 = 2_000;
/// Vertical position at which the giant cat starts its descent.
pub const GIANT_CAT_START_Y: i64 = -800_000;

// machine limits: these caps keep every intermediate product inside i64
/// Largest frame delta accepted by the update functions.
pub const DT_LIMIT: i64 = 10_000;
/// Largest screen dimension, object coordinate or bucket size accepted.
pub const LEN_LIMIT: i64 = 100_000_000;
/// Elapsed session time saturates here, freezing the difficulty growth.
pub const ELAPSED_LIMIT: i64 = 86_400_000;
/// Largest difficulty value, reached once elapsed time saturates.
pub const DIFFICULTY_LIMIT: i64 = 865_000;
/// Largest size scale a size effect may request.
pub const SCALE_LIMIT: i64 = 2_000;
/// Largest score multiplier an effect may request.
pub const MULT_LIMIT: i64 = 1_000;
/// The score accumulator saturates here instead of overflowing.
pub const SCORE_LIMIT: i64 = 1_000_000_000_000_000;
/// The agitation counter saturates here instead of overflowing.
pub const ANGRY_LIMIT: i64 = 1_000_000_000;
/// Largest agitation ceiling accepted at construction.
pub const CEILING_LIMIT: i64 = 1_000_000;
/// Largest initial fall speed accepted for a new object.
pub const OBJ_INIT_SPEED_LIMIT: i64 = 17_300_000;
/// Largest vertical object position accepted by an object update.
pub const OBJ_POS_Y_LIMIT: i64 = 200_000_000;
/// Largest bucket speed that can ever result from an update.
pub const BUCKET_VEL_LIMIT: i64 = 363_300_000;
/// Largest base bucket size accepted, so that any scaled size stays in range.
pub const BASE_SIZE_LIMIT: i64 = 50_000_000;

} // verus!
