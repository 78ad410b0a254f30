//! The score accumulator: signed catch deltas scaled by the active
//! multiplier, and a reset used by the bucket-explode outcome.

use vstd::prelude::*;

use crate::config::{
    ANGEL_SCORE_MAX, ANGEL_SCORE_MIN, DEVIL_CAT_SCORE, MULT_LIMIT, NORMAL_CAT_SCORE, SCORE_LIMIT,
};
use crate::num::{imax, imin};
use crate::objects::CatKind;
use crate::rng::RandomSource;

verus! {

/// The score a catch of `kind` awards when the base delta is `delta` and
/// the multiplier is `m`: the base delta times the multiplier floored at
/// one.
pub open spec fn awarded_score(delta: int, multiplier: int) -> int {
    delta * imax(multiplier, 1)
}

/// Accumulator after adding `awarded`, saturating at the score cap.
pub open spec fn score_after(score: int, awarded: int) -> int {
    imin(score + awarded, SCORE_LIMIT as int)
}

/// The score accumulator.
pub struct Scoring {
    /// Accumulated score, kept in `[0, SCORE_LIMIT]`.
    pub score: i64,
}

impl Scoring {
    /// The accumulator stays in its range.
    pub open spec fn wf(self) -> bool {
        0 <= self.score <= SCORE_LIMIT
    }

    /// A zeroed accumulator.
    pub fn new() -> (s: Scoring)
        ensures
            s.wf(),
            s.score == 0,
    {
        Scoring { score: 0 }
    }

    /// Registers one catch: picks the class-specific base delta (fixed for
    /// Normal, uniform in `[ANGEL_SCORE_MIN, ANGEL_SCORE_MAX]` for Angel,
    /// fixed for Devil and Explode), multiplies it by the multiplier
    /// floored at one, adds it to the accumulator, and returns it.
    pub fn register_catch<R: RandomSource>(
        &mut self,
        kind: CatKind,
        rng: &mut R,
        multiplier: i64,
    ) -> (awarded: i64)
        requires
            old(self).wf(),
            multiplier <= MULT_LIMIT,
        ensures
            final(self).wf(),
            final(self).score == score_after(old(self).score as int, awarded as int),
            kind == CatKind::Normal ==> awarded == awarded_score(
                NORMAL_CAT_SCORE as int,
                multiplier as int,
            ),
            kind == CatKind::Angel ==> (exists|delta: int|
                ANGEL_SCORE_MIN <= delta <= ANGEL_SCORE_MAX && awarded == awarded_score(
                    delta,
                    multiplier as int,
                )),
            kind == CatKind::Devil || kind == CatKind::Explode ==> awarded == awarded_score(
                DEVIL_CAT_SCORE as int,
                multiplier as int,
            ),
            0 <= awarded <= ANGEL_SCORE_MAX * imax(multiplier as int, 1),
    {
        let delta: i64 = match kind {
            CatKind::Normal => NORMAL_CAT_SCORE,
            CatKind::Angel => rng.uniform_integer(ANGEL_SCORE_MIN, ANGEL_SCORE_MAX),
            CatKind::Devil => DEVIL_CAT_SCORE,
            CatKind::Explode => DEVIL_CAT_SCORE,
        };
        let m: i64 = crate::num::max_i64(multiplier, 1);
        proof {
            assert(0 <= delta * m <= 6000 && (delta == 0 ==> delta * m == 0) && delta * m <= 6 * m)
                by (nonlinear_arith)
                requires
                    0 <= delta <= 6,
                    1 <= m <= 1000,
            ;
        }
        let total: i64 = delta * m;
        proof {
            assert(total == awarded_score(delta as int, multiplier as int));
        }
        self.score = crate::num::sat_add_i64(self.score, total, SCORE_LIMIT);
        total
    }

    /// Current accumulated score.
    pub fn score(&self) -> (s: i64)
        ensures
            s == self.score,
    {
        self.score
    }

    /// Zeroes the accumulator.
    pub fn reset(&mut self)
        ensures
            final(self).wf(),
            final(self).score == 0,
    {
        self.score = 0;
    }
}

/// After a reset, registering any catch leaves the accumulator at exactly
/// the awarded delta: nothing of the former score survives.
pub proof fn lemma_reset_then_catch(awarded: int)
    requires
        0 <= awarded <= SCORE_LIMIT,
    ensures
        score_after(0, awarded) == awarded,
{
}

} // verus!
