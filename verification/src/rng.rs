//! Injected random-number capability.
//!
//! The simulation never owns a hidden random source: every function that
//! needs randomness takes a `RandomSource`, so a caller can plug in a real
//! generator or a scripted sequence for deterministic replay. The only
//! promise a source makes is that a drawn value lies inside the requested
//! inclusive range; everything the simulation guarantees holds for every
//! outcome.

use vstd::prelude::*;

verus! {

/// A capability that draws integers from inclusive ranges.
pub trait RandomSource {
    /// Draws a value in `[min, max]`, both bounds reachable.
    fn uniform_integer(&mut self, min: i64, max: i64) -> (r: i64)
        requires
            min <= max,
        ensures
            min <= r <= max,
    ;
}

/// A scripted source that replays a fixed list of values, for deterministic
/// tests. Each draw takes the next scripted value, clamped into the
/// requested range; when the script is exhausted it starts over, and an
/// empty script always yields the lower bound.
pub struct ScriptedRng {
    /// The values to replay, in order.
    pub script: Vec<i64>,
    /// Index of the next value to replay.
    pub next: usize,
}

impl ScriptedRng {
    /// A source that replays `script` from its start.
    pub fn new(script: Vec<i64>) -> (r: ScriptedRng)
        ensures
            r.script@ == script@,
            r.next == 0,
    {
        ScriptedRng { script, next: 0 }
    }
}

impl RandomSource for ScriptedRng {
    fn uniform_integer(&mut self, min: i64, max: i64) -> (r: i64)
        ensures
            final(self).script@ == old(self).script@,
            old(self).script.len() == 0 ==> r == min,
            old(self).next < old(self).script.len() ==> r == crate::num::iclamp(
                old(self).script@[old(self).next as int] as int,
                min as int,
                max as int,
            ),
    {
        if self.script.len() == 0 {
            return min;
        }
        if self.next >= self.script.len() {
            self.next = 0;
        }
        let v: i64 = self.script[self.next];
        self.next = self.next + 1;
        crate::num::clamp_i64(v, min, max)
    }
}

/// A small deterministic linear congruential generator, good enough to drive
/// a demo session without any outside dependency.
pub struct LcgRng {
    /// Current state, always below 2^31.
    pub state: u64,
}

impl LcgRng {
    /// A generator seeded with `seed`.
    pub fn new(seed: u64) -> (r: LcgRng)
        ensures
            r.state < 0x8000_0000,
    {
        LcgRng { state: seed % 0x8000_0000 }
    }
}

impl RandomSource for LcgRng {
    fn uniform_integer(&mut self, min: i64, max: i64) -> (r: i64)
        ensures
            final(self).state < 0x8000_0000,
    {
        let s: u64 = self.state % 0x8000_0000;
        let next: u64 = (s * 1103515245 + 12345) % 0x8000_0000;
        self.state = next;
        let span: u128 = ((max as i128) - (min as i128) + 1) as u128;
        let off: u128 = (next as u128) % span;
        proof {
            vstd::arithmetic::div_mod::lemma_mod_bound(next as int, span as int);
            vstd::arithmetic::div_mod::lemma_mod_decreases(next as nat, span as nat);
        }
        min + off as i64
    }
}

} // verus!
