//! Per-cell appearance state machine driving a circular visual indicator.
//!
//! A ring materializes in two sequential eased transitions: first its height
//! offset rises from zero to the cell boundary over a quarter time unit
//! (ease-in), then its scale grows from a minimal visual size to the
//! requested radius over another quarter time unit (ease-out). Once both
//! finish, the ring settles in `Idle` and never reverts on its own. The
//! dissolve states exist but nothing in the current logic drives a ring into
//! them; they are reachable only through a future explicit removal operation.

use vstd::prelude::*;

use crate::tween::{Ease, Tweener, TWEEN_TIME_BOUND, TWEEN_VALUE_BOUND};

verus! {

/// Duration of each of the two materialize transitions: 0.25 time units.
pub const REZ_DURATION: i64 = 250;

/// Minimal visual scale a ring starts from: 0.02 units.
pub const REZ_START_SCALE: i64 = 20;

/// Appearance phase of a ring.
pub enum State {
    /// Materializing: the height transition runs to completion first, then
    /// the scale transition; only then does the ring become `Idle`.
    Rezzing { rez_height_tweener: Tweener, rez_scale_tweener: Tweener },
    /// Fully materialized; advancing is a no-op from here on.
    Idle,
    /// Dissolving (never entered by the current logic).
    Derezzing,
    /// Fully dissolved (never entered by the current logic).
    Derezzed,
}

/// What a ring asks the rendering layer to change after one advance.
pub enum RingUpdate {
    /// Move the ring to this vertical offset (height transition running).
    Translate { y: i64 },
    /// Scale the ring uniformly by this factor (scale transition running).
    Scale { factor: i64 },
    /// Nothing to change this frame.
    Unchanged,
}

/// A circular indicator marking one boundary of a cell.
pub struct Ring {
    pub state: State,
}

impl Ring {
    /// Well-formedness: while materializing, both tweeners are well-formed.
    pub open spec fn wf(self) -> bool {
        match self.state {
            State::Rezzing { rez_height_tweener, rez_scale_tweener } => {
                rez_height_tweener.wf() && rez_scale_tweener.wf()
            },
            _ => true,
        }
    }

    /// Whether the ring has finished materializing.
    pub open spec fn is_idle(self) -> bool {
        self.state is Idle
    }

    /// The ring as it stands after advancing by `dt`.
    pub open spec fn stepped(self, dt: i64) -> Ring {
        match self.state {
            State::Rezzing { rez_height_tweener, rez_scale_tweener } => {
                if !rez_height_tweener.finished() {
                    Ring {
                        state: State::Rezzing {
                            rez_height_tweener: rez_height_tweener.advanced(dt),
                            rez_scale_tweener,
                        },
                    }
                } else if !rez_scale_tweener.finished() {
                    Ring {
                        state: State::Rezzing {
                            rez_height_tweener,
                            rez_scale_tweener: rez_scale_tweener.advanced(dt),
                        },
                    }
                } else {
                    Ring { state: State::Idle }
                }
            },
            _ => self,
        }
    }

    /// The rendering change one advance by `dt` produces.
    pub open spec fn step_update(self, dt: i64) -> RingUpdate {
        match self.state {
            State::Rezzing { rez_height_tweener, rez_scale_tweener } => {
                if !rez_height_tweener.finished() {
                    RingUpdate::Translate { y: rez_height_tweener.advanced(dt).value_at() as i64 }
                } else if !rez_scale_tweener.finished() {
                    RingUpdate::Scale { factor: rez_scale_tweener.advanced(dt).value_at() as i64 }
                } else {
                    RingUpdate::Unchanged
                }
            },
            _ => RingUpdate::Unchanged,
        }
    }

    /// The ring `new_from_point` returns: materializing from scratch toward
    /// the given height offset and radius.
    pub open spec fn new_spec(height: int, radius: int) -> Ring {
        Ring {
            state: State::Rezzing {
                rez_height_tweener: Tweener {
                    start: 0,
                    end: height as i64,
                    duration: REZ_DURATION,
                    elapsed: 0,
                    ease: Ease::QuadIn,
                },
                rez_scale_tweener: Tweener {
                    start: REZ_START_SCALE,
                    end: radius as i64,
                    duration: REZ_DURATION,
                    elapsed: 0,
                    ease: Ease::QuadOut,
                },
            },
        }
    }

    /// A fresh ring at vertical offset `height` with target `radius`, which
    /// starts materializing: height first (ease-in from 0 over 0.25 time
    /// units), then scale (ease-out from the minimal visual scale over
    /// another 0.25 time units).
    pub fn new_from_point(height: i64, radius: i64) -> (r: Ring)
        requires
            -TWEEN_VALUE_BOUND <= height <= TWEEN_VALUE_BOUND,
            -TWEEN_VALUE_BOUND <= radius <= TWEEN_VALUE_BOUND,
        ensures
            r == Ring::new_spec(height as int, radius as int),
            r.wf(),
            !r.is_idle(),
    {
        Ring {
            state: State::Rezzing {
                rez_height_tweener: Tweener::quad_in(0, height, REZ_DURATION),
                rez_scale_tweener: Tweener::quad_out(REZ_START_SCALE, radius, REZ_DURATION),
            },
        }
    }

    /// Advance the appearance machine by `dt`: drive the height transition
    /// to completion, then the scale transition, then settle in `Idle`.
    /// Advancing an `Idle`, `Derezzing` or `Derezzed` ring changes nothing.
    pub fn logic_step(&mut self, dt: i64) -> (r: RingUpdate)
        requires
            old(self).wf(),
            0 <= dt <= TWEEN_TIME_BOUND,
        ensures
            *final(self) == old(self).stepped(dt),
            final(self).wf(),
            r == old(self).step_update(dt),
    {
        let (new_state, update) = match &self.state {
            State::Rezzing { rez_height_tweener, rez_scale_tweener } => {
                let mut height_tweener = *rez_height_tweener;
                let mut scale_tweener = *rez_scale_tweener;
                if !height_tweener.is_finished() {
                    let y = height_tweener.move_by(dt);
                    (
                        State::Rezzing {
                            rez_height_tweener: height_tweener,
                            rez_scale_tweener: scale_tweener,
                        },
                        RingUpdate::Translate { y },
                    )
                } else if !scale_tweener.is_finished() {
                    let factor = scale_tweener.move_by(dt);
                    (
                        State::Rezzing {
                            rez_height_tweener: height_tweener,
                            rez_scale_tweener: scale_tweener,
                        },
                        RingUpdate::Scale { factor },
                    )
                } else {
                    (State::Idle, RingUpdate::Unchanged)
                }
            },
            State::Idle => (State::Idle, RingUpdate::Unchanged),
            State::Derezzing => (State::Derezzing, RingUpdate::Unchanged),
            State::Derezzed => (State::Derezzed, RingUpdate::Unchanged),
        };
        self.state = new_state;
        update
    }

    /// Whether the ring has finished materializing.
    pub fn idle(&self) -> (r: bool)
        ensures
            r == self.is_idle(),
    {
        matches!(self.state, State::Idle)
    }
}

/// Materializing is monotonic and one-directional: a ring that is `Idle`
/// stays `Idle` under any advance, and an advance never moves a ring from a
/// later phase back to an earlier one.
pub proof fn lemma_ring_idle_is_stable(r: Ring, dt: i64)
    ensures
        r.is_idle() ==> r.stepped(dt) == r,
        r.stepped(dt).is_idle() ==> r.stepped(dt).stepped(dt) == r.stepped(dt),
{
}

} // verus!
