//! Fixed-rate animation clock.
//!
//! Both the bucket and the falling objects advance a cosmetic frame counter
//! on a fixed-rate accumulator that is independent of movement: time is
//! collected in an accumulator, and for every full frame period in it the
//! frame index advances by one, wrapping modulo the frame count.

use vstd::prelude::*;

use crate::config::DT_LIMIT;
use crate::num::imax;

verus! {

/// Length in milliseconds of one animation frame at `fps` frames per second,
/// floored at one millisecond.
pub open spec fn frame_period(fps: int) -> int {
    imax(1000int / imax(fps, 1), 1)
}

/// Executable form of `frame_period`.
pub fn frame_period_ms(fps: i64) -> (p: i64)
    requires
        1 <= fps,
    ensures
        p == frame_period(fps as int),
        1 <= p <= 1000,
{
    let q: i64 = 1000 / (fps as u64) as i64;
    proof {
        vstd::arithmetic::div_mod::lemma_div_nonincreasing(1000, fps as int);
        vstd::arithmetic::div_mod::lemma_div_pos_is_pos(1000, fps as int);
    }
    if q >= 1 {
        q
    } else {
        1
    }
}

/// The clock that results from feeding `dt` milliseconds into `c`: the
/// accumulator keeps the remainder of a frame period, and the frame index
/// advances once per full period, wrapping modulo `frame_count`.
pub open spec fn spec_advance(c: AnimClock, dt: int, fps: int, frame_count: int) -> AnimClock {
    AnimClock {
        time: ((c.time + dt) % frame_period(fps)) as i64,
        frame: ((c.frame + (c.time + dt) / frame_period(fps)) % frame_count) as usize,
    }
}

/// Accumulator and frame index of one animation.
#[derive(Clone, Copy, PartialEq, Eq, Structural, Debug)]
pub struct AnimClock {
    /// Time collected since the last frame advance, always below the period.
    pub time: i64,
    /// Current frame index, always below the frame count.
    pub frame: usize,
}

impl AnimClock {
    /// The accumulator is exhausted and the frame index in range.
    pub open spec fn wf(self, fps: int, frame_count: int) -> bool {
        &&& 0 <= self.time < frame_period(fps)
        &&& 0 <= self.frame < frame_count
    }

    /// A fresh clock at frame zero.
    pub fn new() -> (c: AnimClock)
        ensures
            c.time == 0,
            c.frame == 0,
    {
        AnimClock { time: 0, frame: 0 }
    }

    /// Feeds `dt` milliseconds into the accumulator and advances the frame
    /// index once per full frame period, wrapping modulo `frame_count`.
    pub fn advance(&mut self, dt: i64, fps: i64, frame_count: usize)
        requires
            old(self).wf(fps as int, frame_count as int),
            0 <= dt <= DT_LIMIT,
            1 <= fps,
            1 <= frame_count,
        ensures
            final(self).wf(fps as int, frame_count as int),
            *final(self) == spec_advance(*old(self), dt as int, fps as int, frame_count as int),
    {
        let p: i64 = frame_period_ms(fps);
        let ghost total: int = old(self).time + dt;
        let ghost f0: int = old(self).frame as int;
        self.time = self.time + dt;
        let ghost mut steps: int = 0;
        proof {
            vstd::arithmetic::div_mod::lemma_small_mod(f0 as nat, frame_count as nat);
        }
        while self.time >= p
            invariant
                1 <= p == frame_period(fps as int),
                1 <= frame_count,
                0 <= self.time,
                total == self.time + steps * p,
                steps >= 0,
                0 <= self.frame < frame_count,
                self.frame == (f0 + steps) % (frame_count as int),
            decreases self.time,
        {
            self.time = self.time - p;
            let next: usize = (self.frame + 1) % frame_count;
            proof {
                assert((steps + 1) * p == steps * p + p) by (nonlinear_arith);
                vstd::arithmetic::div_mod::lemma_mod_bound(
                    (f0 + steps) as int,
                    frame_count as int,
                );
                vstd::arithmetic::div_mod::lemma_add_mod_noop(
                    f0 + steps,
                    1,
                    frame_count as int,
                );
                if frame_count == 1 {
                    vstd::arithmetic::div_mod::lemma_mod_bound(
                        self.frame + 1,
                        frame_count as int,
                    );
                    vstd::arithmetic::div_mod::lemma_mod_bound(
                        f0 + steps + 1,
                        frame_count as int,
                    );
                } else {
                    vstd::arithmetic::div_mod::lemma_small_mod(1, frame_count as nat);
                }
                steps = steps + 1;
            }
            self.frame = next;
        }
        proof {
            vstd::arithmetic::div_mod::lemma_fundamental_div_mod_converse(
                total,
                p as int,
                steps,
                self.time as int,
            );
        }
    }
}

} // verus!
