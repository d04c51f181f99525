//! A frame-stepped value animator: a tween interpolates from a start value to
//! a target value over a fixed number of ticks, shaped by an easing curve.
//!
//! The sampled value is the floor of the exact interpolation
//! `start + (target - start) * easing(elapsed / duration)`.

use vstd::prelude::*;

verus! {

use crate::arith::{lemma_neg_div_is_neg_ceil, lemma_scaled_delta_bounds, lemma_scaled_delta_strict};
use crate::easing::{
    frac_den, frac_num, lemma_sample_bounds, lemma_sample_strict_bounds, Easing, MAX_DURATION,
};

/// A tween interpolating between two values over `duration` ticks.
///
/// Two logical states: Running (`elapsed < duration`) and Done
/// (`elapsed >= duration`). `tick` moves Running toward Done; `set` re-arms a
/// tween in either state. A tween is reusable indefinitely.
#[derive(Clone, Copy, Debug, PartialEq, Eq, Structural)]
pub struct Tween {
    /// Value sampled at the moment the animation was (re-)armed.
    pub start: i32,
    /// Value the animation runs to.
    pub target: i32,
    /// Length of the animation in ticks.
    pub duration: u32,
    /// Ticks spent since the animation was (re-)armed; never exceeds
    /// `duration`.
    pub elapsed: u32,
    /// Curve shaping the progress `elapsed / duration`.
    pub easing: Easing,
}

impl Tween {
    /// Invariant: elapsed time stays within the duration, and the duration is
    /// small enough that exact sampling stays within machine range.
    pub open spec fn wf(self) -> bool {
        self.elapsed <= self.duration && self.duration <= MAX_DURATION
    }

    /// A tween is done once its elapsed time reaches its duration.
    pub open spec fn spec_done(self) -> bool {
        self.elapsed >= self.duration
    }

    /// The exact sampled value: the target once done (covering a zero
    /// duration), else the floor of
    /// `start + (target - start) * easing(elapsed / duration)`.
    pub open spec fn spec_sample(self) -> int {
        if self.elapsed >= self.duration {
            self.target as int
        } else {
            self.start + ((self.target - self.start) * frac_num(
                self.easing,
                self.elapsed as int,
                self.duration as int,
            )) / frac_den(self.easing, self.duration as int)
        }
    }

    /// The state one tick later: elapsed time advances by one, saturating at
    /// the duration.
    pub open spec fn spec_ticked(self) -> Tween {
        Tween {
            elapsed: if self.elapsed < self.duration {
                (self.elapsed + 1) as u32
            } else {
                self.elapsed
            },
            ..self
        }
    }

    /// The state after re-arming toward `new_target`: the current sampled
    /// value becomes the new start, and elapsed time restarts at zero.
    pub open spec fn spec_set(self, new_target: i32) -> Tween {
        Tween {
            start: self.spec_sample() as i32,
            target: new_target,
            elapsed: 0,
            ..self
        }
    }

    /// A fresh tween holding `initial`: start and target coincide and it is
    /// immediately done, so it samples `initial` until it is re-armed.
    pub fn new(initial: i32) -> (r: Tween)
        ensures
            r == (Tween {
                start: initial,
                target: initial,
                duration: 0,
                elapsed: 0,
                easing: Easing::Linear,
            }),
            r.wf(),
            r.spec_done(),
            r.spec_sample() == initial,
    {
        Tween { start: initial, target: initial, duration: 0, elapsed: 0, easing: Easing::Linear }
    }

    /// Builder step: fix the duration, in ticks. To be called only during
    /// construction, before the animation is first armed; the tween stays
    /// done.
    pub fn duration(self, ticks: u32) -> (r: Tween)
        requires
            self.spec_done(),
            ticks <= MAX_DURATION,
        ensures
            r == (Tween { duration: ticks, elapsed: ticks, ..self }),
            r.wf(),
            r.spec_done(),
    {
        Tween { duration: ticks, elapsed: ticks, ..self }
    }

    /// Builder step: fix the easing curve. To be called only during
    /// construction, before the animation is first armed.
    pub fn ease(self, curve: Easing) -> (r: Tween)
        requires
            self.spec_done(),
        ensures
            r == (Tween { easing: curve, ..self }),
    {
        Tween { easing: curve, ..self }
    }

    /// Advance one tick, saturating at the duration. To be called exactly
    /// once per logical frame by the owner.
    pub fn tick(&mut self)
        requires
            old(self).wf(),
        ensures
            *final(self) == old(self).spec_ticked(),
            final(self).wf(),
    {
        if self.elapsed < self.duration {
            self.elapsed = self.elapsed + 1;
        }
    }

    /// Whether the animation has run its full duration.
    pub fn done(&self) -> (r: bool)
        ensures
            r == self.spec_done(),
    {
        self.elapsed >= self.duration
    }

    /// Sample the current value exactly: `spec_sample` never rounds twice and
    /// always lies between start and target.
    pub fn get(&self) -> (r: i32)
        requires
            self.wf(),
        ensures
            r as int == self.spec_sample(),
    {
        if self.elapsed >= self.duration {
            return self.target;
        }
        let (num, den): (u64, u64) = self.easing.sample_parts(self.elapsed, self.duration);
        let start_w: i64 = self.start as i64;
        let target_w: i64 = self.target as i64;
        let delta: i64 = target_w - start_w;
        let ghost di: int = delta as int;
        proof {
            lemma_scaled_delta_bounds(di, num as int, den as int);
        }
        if delta >= 0 {
            proof {
                assert(di * (num as int) < 0x200000000000000000000000000) by (nonlinear_arith)
                    requires
                        0 <= di <= 0x100000000,
                        0 <= (num as int) < 0x10000000000000000,
                ;
            }
            let prod: u128 = (delta as u128) * (num as u128);
            let q: u128 = prod / (den as u128);
            let r: i64 = start_w + (q as i64);
            r as i32
        } else {
            let mag: u128 = (-delta) as u128;
            proof {
                assert((-di) * (num as int) < 0x200000000000000000000000000) by (nonlinear_arith)
                    requires
                        0 <= -di <= 0x100000000,
                        0 <= (num as int) < 0x10000000000000000,
                ;
            }
            let prod: u128 = mag * (num as u128);
            let q: u128 = (prod + (den as u128) - 1) / (den as u128);
            proof {
                lemma_neg_div_is_neg_ceil(prod as int, den as int);
                assert(di * (num as int) == -(prod as int)) by (nonlinear_arith)
                    requires
                        prod == (-di) * (num as int),
                ;
            }
            let r: i64 = start_w - (q as i64);
            r as i32
        }
    }

    /// Re-arm the animation toward `new_target`, capturing the current
    /// sampled value as the new start so that the motion has no jump.
    pub fn set(&mut self, new_target: i32)
        requires
            old(self).wf(),
        ensures
            *final(self) == old(self).spec_set(new_target),
            final(self).wf(),
    {
        let cur: i32 = self.get();
        self.start = cur;
        self.target = new_target;
        self.elapsed = 0;
    }
}

/// The tween state after `n` calls to `tick`.
pub open spec fn spec_ticked_n(t: Tween, n: nat) -> Tween
    decreases n,
{
    if n == 0 {
        t
    } else {
        spec_ticked_n(t, (n - 1) as nat).spec_ticked()
    }
}

/// Ticking moves only the elapsed time: after `n` ticks it has advanced by
/// `n`, saturating at the duration.
pub proof fn lemma_ticked_n_elapsed(t: Tween, n: nat)
    requires
        t.wf(),
    ensures
        ({
            let u = spec_ticked_n(t, n);
            &&& u.start == t.start
            &&& u.target == t.target
            &&& u.duration == t.duration
            &&& u.easing == t.easing
            &&& u.wf()
            &&& u.elapsed as int == (if t.elapsed + n <= t.duration {
                t.elapsed + n
            } else {
                t.duration as int
            })
        }),
    decreases n,
{
    if n > 0 {
        lemma_ticked_n_elapsed(t, (n - 1) as nat);
    }
}

/// Law: after at least `duration` ticks — in particular, after exactly
/// `duration` ticks from a freshly armed state — a tween is done and samples
/// exactly its target value.
pub proof fn lemma_ticks_reach_target(t: Tween, n: nat)
    requires
        t.wf(),
        n >= t.duration,
    ensures
        spec_ticked_n(t, n).spec_done(),
        spec_ticked_n(t, n).spec_sample() == t.target,
{
    lemma_ticked_n_elapsed(t, n);
}

/// Law: the sampled value never leaves the closed interval between the start
/// and the target value.
pub proof fn lemma_sample_in_range(t: Tween)
    requires
        t.wf(),
    ensures
        t.start <= t.target ==> t.start <= t.spec_sample() <= t.target,
        t.target <= t.start ==> t.target <= t.spec_sample() <= t.start,
{
    if t.elapsed < t.duration {
        lemma_sample_bounds(t.easing, t.elapsed as int, t.duration as int);
        lemma_scaled_delta_bounds(
            t.target - t.start,
            frac_num(t.easing, t.elapsed as int, t.duration as int),
            frac_den(t.easing, t.duration as int),
        );
    }
}

/// Law: re-arming a done tween toward `v` and ticking once puts it back into
/// the running state (the duration being above one), and the sampled value
/// moves strictly off the previous value without reaching `v` — provided the
/// first eased step, at the tween's integer resolution, is at least one unit
/// and undershoots `v` by at least one unit.
pub proof fn lemma_rearm_then_tick(t: Tween, v: i32)
    requires
        t.wf(),
        t.spec_done(),
        t.duration > 1,
        v != t.target,
        (if v >= t.target {
            v - t.target
        } else {
            t.target - v
        }) * frac_num(t.easing, 1, t.duration as int) >= frac_den(t.easing, t.duration as int),
        (if v >= t.target {
            v - t.target
        } else {
            t.target - v
        }) * (frac_den(t.easing, t.duration as int) - frac_num(t.easing, 1, t.duration as int))
            >= frac_den(t.easing, t.duration as int),
    ensures
        ({
            let u = t.spec_set(v).spec_ticked();
            &&& !u.spec_done()
            &&& (v > t.target ==> t.target < u.spec_sample() < v)
            &&& (v < t.target ==> v < u.spec_sample() < t.target)
        }),
{
    let d: int = t.duration as int;
    let num: int = frac_num(t.easing, 1, d);
    let den: int = frac_den(t.easing, d);
    let u = t.spec_set(v).spec_ticked();
    lemma_sample_strict_bounds(t.easing, 1, d);
    assert(u.start == t.target && u.target == v && u.elapsed == 1);
    lemma_scaled_delta_strict(v - t.target, num, den);
}

} // verus!
