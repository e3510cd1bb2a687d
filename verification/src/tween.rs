//! Eased scalar interpolation over a fixed duration.
//!
//! A `Tweener` drives one scalar from a start value to an end value over a
//! fixed time window, following a quadratic ease-in or ease-out curve. Time
//! and values are fixed-point integers in thousandths of a unit. The curve
//! is evaluated exactly: `value_at` below is the single definition of what a
//! tweener outputs at any elapsed time, and `move_by` is proved to return it.

use vstd::prelude::*;

verus! {

/// Bound on the magnitude of tweened values (a million units).
pub const TWEEN_VALUE_BOUND: i64 = 1_000_000_000;

/// Bound on durations and time deltas (a million time units).
pub const TWEEN_TIME_BOUND: i64 = 1_000_000_000;

/// Which quadratic easing curve a tweener follows.
#[derive(Clone, Copy, PartialEq, Eq, Structural, Debug)]
pub enum Ease {
    /// Quadratic ease-in: slow at first, accelerating toward the end.
    QuadIn,
    /// Quadratic ease-out: fast at first, decelerating toward the end.
    QuadOut,
}

/// Fixed-point eased interpolator from `start` to `end` over `duration`.
#[derive(Clone, Copy, PartialEq, Eq, Structural, Debug)]
pub struct Tweener {
    pub start: i64,
    pub end: i64,
    /// Total length of the transition, in thousandths of a time unit; positive.
    pub duration: i64,
    /// Time consumed so far; clamped to `duration`.
    pub elapsed: i64,
    pub ease: Ease,
}

impl Tweener {
    /// Well-formedness: bounded endpoints, a positive bounded duration, and
    /// elapsed time within the window.
    pub open spec fn wf(self) -> bool {
        &&& -TWEEN_VALUE_BOUND <= self.start <= TWEEN_VALUE_BOUND
        &&& -TWEEN_VALUE_BOUND <= self.end <= TWEEN_VALUE_BOUND
        &&& 0 < self.duration <= TWEEN_TIME_BOUND
        &&& 0 <= self.elapsed <= self.duration
    }

    /// Normalized time in thousandths: 0 at the start, 1000 once finished.
    pub open spec fn progress(self) -> int {
        (self.elapsed * 1000) / (self.duration as int)
    }

    /// The easing curve applied to normalized time, in thousandths.
    pub open spec fn eased_progress(self) -> int {
        match self.ease {
            Ease::QuadIn => (self.progress() * self.progress()) / 1000,
            Ease::QuadOut => 1000 - ((1000 - self.progress()) * (1000 - self.progress())) / 1000,
        }
    }

    /// The interpolated value at the current elapsed time.
    pub open spec fn value_at(self) -> int {
        if self.end >= self.start {
            self.start + ((self.end - self.start) * self.eased_progress()) / 1000
        } else {
            self.start - ((self.start - self.end) * self.eased_progress()) / 1000
        }
    }

    /// The tweener as it stands after `dt` more time has passed.
    pub open spec fn advanced(self, dt: i64) -> Tweener {
        Tweener {
            elapsed: if self.elapsed + dt >= self.duration {
                self.duration
            } else {
                (self.elapsed + dt) as i64
            },
            ..self
        }
    }

    /// Whether the transition has consumed its whole duration.
    pub open spec fn finished(self) -> bool {
        self.elapsed >= self.duration
    }

    /// A fresh ease-in tweener from `start` to `end` over `duration`.
    pub fn quad_in(start: i64, end: i64, duration: i64) -> (r: Tweener)
        requires
            -TWEEN_VALUE_BOUND <= start <= TWEEN_VALUE_BOUND,
            -TWEEN_VALUE_BOUND <= end <= TWEEN_VALUE_BOUND,
            0 < duration <= TWEEN_TIME_BOUND,
        ensures
            r == (Tweener { start, end, duration, elapsed: 0, ease: Ease::QuadIn }),
            r.wf(),
    {
        Tweener { start, end, duration, elapsed: 0, ease: Ease::QuadIn }
    }

    /// A fresh ease-out tweener from `start` to `end` over `duration`.
    pub fn quad_out(start: i64, end: i64, duration: i64) -> (r: Tweener)
        requires
            -TWEEN_VALUE_BOUND <= start <= TWEEN_VALUE_BOUND,
            -TWEEN_VALUE_BOUND <= end <= TWEEN_VALUE_BOUND,
            0 < duration <= TWEEN_TIME_BOUND,
        ensures
            r == (Tweener { start, end, duration, elapsed: 0, ease: Ease::QuadOut }),
            r.wf(),
    {
        Tweener { start, end, duration, elapsed: 0, ease: Ease::QuadOut }
    }

    /// Whether the transition has consumed its whole duration.
    pub fn is_finished(&self) -> (r: bool)
        ensures
            r == self.finished(),
    {
        self.elapsed >= self.duration
    }

    /// Normalized progress is always within 0..=1000 for a well-formed tweener.
    proof fn lemma_progress_bounds(self)
        requires
            self.wf(),
        ensures
            0 <= self.progress() <= 1000,
    {
        assert(0 <= (self.elapsed * 1000) / (self.duration as int) <= 1000) by (nonlinear_arith)
            requires
                0 <= self.elapsed <= self.duration,
                0 < self.duration,
        ;
    }

    /// The eased curve stays within 0..=1000 and reaches exactly 1000 at the end.
    proof fn lemma_eased_bounds(self)
        requires
            self.wf(),
        ensures
            0 <= self.eased_progress() <= 1000,
            self.finished() ==> self.eased_progress() == 1000,
    {
        self.lemma_progress_bounds();
        let t = self.progress();
        assert(0 <= (t * t) / 1000 <= 1000) by (nonlinear_arith)
            requires
                0 <= t <= 1000,
        ;
        assert(0 <= ((1000 - t) * (1000 - t)) / 1000 <= 1000) by (nonlinear_arith)
            requires
                0 <= t <= 1000,
        ;
        if self.finished() {
            assert(t == 1000) by (nonlinear_arith)
                requires
                    t == (self.elapsed * 1000) / (self.duration as int),
                    self.elapsed == self.duration,
                    0 < self.duration,
            ;
            assert((t * t) / 1000 == 1000) by (nonlinear_arith)
                requires
                    t == 1000,
            ;
            assert(((1000 - t) * (1000 - t)) / 1000 == 0) by (nonlinear_arith)
                requires
                    t == 1000,
            ;
        }
    }

    /// The interpolated value stays between the endpoints, and equals `end`
    /// exactly once the transition has finished.
    pub proof fn lemma_value_range(self)
        requires
            self.wf(),
        ensures
            self.start <= self.end ==> self.start <= self.value_at() <= self.end,
            self.end <= self.start ==> self.end <= self.value_at() <= self.start,
            self.finished() ==> self.value_at() == self.end,
    {
        self.lemma_eased_bounds();
        let e = self.eased_progress();
        if self.end >= self.start {
            let d = self.end - self.start;
            assert(0 <= (d * e) / 1000 <= d) by (nonlinear_arith)
                requires
                    0 <= d,
                    0 <= e <= 1000,
            ;
            if self.finished() {
                assert((d * 1000) / 1000 == d) by (nonlinear_arith)
                    requires
                        0 <= d,
                ;
            }
        } else {
            let d = self.start - self.end;
            assert(0 <= (d * e) / 1000 <= d) by (nonlinear_arith)
                requires
                    0 <= d,
                    0 <= e <= 1000,
            ;
            if self.finished() {
                assert((d * 1000) / 1000 == d) by (nonlinear_arith)
                    requires
                        0 <= d,
                ;
            }
        }
    }

    /// Advance the transition by `dt` and return the value at the new time.
    /// Once the window is consumed the value is pinned to `end`.
    pub fn move_by(&mut self, dt: i64) -> (r: i64)
        requires
            old(self).wf(),
            0 <= dt <= TWEEN_TIME_BOUND,
        ensures
            *final(self) == old(self).advanced(dt),
            final(self).wf(),
            r == final(self).value_at(),
            final(self).finished() ==> r == final(self).end,
    {
        if dt >= self.duration - self.elapsed {
            self.elapsed = self.duration;
        } else {
            self.elapsed = self.elapsed + dt;
        }
        proof {
            self.lemma_value_range();
        }
        self.value()
    }

    /// The interpolated value at the current elapsed time.
    pub fn value(&self) -> (r: i64)
        requires
            self.wf(),
        ensures
            r == self.value_at(),
    {
        proof {
            self.lemma_progress_bounds();
            self.lemma_eased_bounds();
        }
        let t = (self.elapsed * 1000) / self.duration;
        let eased: i64 = match self.ease {
            Ease::QuadIn => (t * t) / 1000,
            Ease::QuadOut => 1000 - ((1000 - t) * (1000 - t)) / 1000,
        };
        proof {
            assert(eased == self.eased_progress());
        }
        if self.end >= self.start {
            let d = self.end - self.start;
            proof {
                assert(0 <= d * eased <= 2_000_000_000_000) by (nonlinear_arith)
                    requires
                        0 <= d <= 2_000_000_000,
                        0 <= eased <= 1000,
                ;
            }
            self.start + (d * eased) / 1000
        } else {
            let d = self.start - self.end;
            proof {
                assert(0 <= d * eased <= 2_000_000_000_000) by (nonlinear_arith)
                    requires
                        0 <= d <= 2_000_000_000,
                        0 <= eased <= 1000,
                ;
            }
            self.start - (d * eased) / 1000
        }
    }
}

} // verus!
