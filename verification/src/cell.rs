//! One shelf level: a cylindrical capture zone framed by two rings.
//!
//! A cell admits nearby objects into its zone. While the cell is still
//! materializing it is inactive: objects that enter are only queued. Every
//! frame the cell advances its two rings, recomputes its flag from the
//! bottom ring alone, and — the moment admission opens — drains the whole
//! queue, issuing one capture request per queued object. An object that
//! leaves before admission opens is dropped from the queue and never
//! captured. Queue insertion and removal are idempotent, so no object is
//! ever captured twice.

use vstd::prelude::*;

use crate::ids::{contains_id, find_id};
use crate::ring::{Ring, RingUpdate};
use crate::tween::{TWEEN_TIME_BOUND, TWEEN_VALUE_BOUND};

verus! {

/// Half the height of a cell's capture cylinder: 0.5 units. The rings sit
/// at plus and minus this offset from the cell's root.
pub const CELL_HALF_HEIGHT: i64 = 500;

/// Radius of a cell's capture cylinder and of its rings: 1.0 unit.
pub const CELL_RADIUS: i64 = 1000;

/// What one cell tick asks of the surrounding process: ring transform
/// changes and capture requests for the objects admitted this frame.
pub struct CellStepOut {
    pub top_update: RingUpdate,
    pub bottom_update: RingUpdate,
    /// Objects to capture this frame, in the order they were queued.
    pub captures: Vec<u64>,
}

/// A capture zone anchored at a vertical offset from the stack origin,
/// an admission flag, a deferred-admission queue, and two boundary rings.
pub struct Cell {
    /// Whether admission is open: captures are admitted only while true.
    pub active: bool,
    /// Vertical offset of this cell from the shared stack origin.
    pub y_offset: i64,
    /// Objects that entered the zone while admission was shut, by identity.
    pub queued_zoneables: Vec<u64>,
    pub top_ring: Ring,
    pub bottom_ring: Ring,
}

/// No identifier occurs twice.
pub open spec fn distinct_ids(s: Seq<u64>) -> bool {
    forall|i: int, j: int| 0 <= i < j < s.len() ==> s[i] != s[j]
}

/// How one cell tick relates the cell before, the cell after, and the tick's
/// output: both rings advance, the flag is recomputed from the bottom ring
/// alone (whatever the flag held before), and the queue drains into capture
/// requests exactly when admission is open.
pub open spec fn cell_step_rel(pre: Cell, post: Cell, out: CellStepOut, dt: i64) -> bool {
    &&& post.top_ring == pre.top_ring.stepped(dt)
    &&& post.bottom_ring == pre.bottom_ring.stepped(dt)
    &&& post.active == pre.bottom_ring.stepped(dt).is_idle()
    &&& post.y_offset == pre.y_offset
    &&& out.top_update == pre.top_ring.step_update(dt)
    &&& out.bottom_update == pre.bottom_ring.step_update(dt)
    &&& if post.active && pre.queued_zoneables@.len() > 0 {
        out.captures@ == pre.queued_zoneables@ && post.queued_zoneables@ == Seq::<u64>::empty()
    } else {
        out.captures@ == Seq::<u64>::empty() && post.queued_zoneables@ == pre.queued_zoneables@
    }
}

impl Cell {
    /// Well-formedness: rings well-formed and no object queued twice.
    pub open spec fn wf(self) -> bool {
        &&& self.top_ring.wf()
        &&& self.bottom_ring.wf()
        &&& distinct_ids(self.queued_zoneables@)
        &&& -TWEEN_VALUE_BOUND <= self.y_offset <= TWEEN_VALUE_BOUND
    }

    /// A fresh cell anchored `height` below or above the stack origin, with
    /// inactive, an empty queue, and both rings starting to
    /// materialize at the cell's boundary offsets.
    pub fn new(height: i64) -> (r: Cell)
        requires
            -TWEEN_VALUE_BOUND <= height <= TWEEN_VALUE_BOUND,
        ensures
            r.active == false,
            r.y_offset == height,
            r.queued_zoneables@ == Seq::<u64>::empty(),
            r.top_ring == Ring::new_spec(CELL_HALF_HEIGHT as int, CELL_RADIUS as int),
            r.bottom_ring == Ring::new_spec(-CELL_HALF_HEIGHT as int, CELL_RADIUS as int),
            r.wf(),
    {
        Cell {
            active: false,
            y_offset: height,
            queued_zoneables: Vec::new(),
            top_ring: Ring::new_from_point(CELL_HALF_HEIGHT, CELL_RADIUS),
            bottom_ring: Ring::new_from_point(-CELL_HALF_HEIGHT, CELL_RADIUS),
        }
    }

    /// One frame: advance both rings, recompute the flag from the bottom
    /// ring alone — any externally forced value of `active` is overridden —
    /// and, if admission is open, drain the whole queue into capture
    /// requests.
    pub fn logic_step(&mut self, dt: i64) -> (out: CellStepOut)
        requires
            old(self).wf(),
            0 <= dt <= TWEEN_TIME_BOUND,
        ensures
            cell_step_rel(*old(self), *final(self), out, dt),
            final(self).wf(),
            distinct_ids(out.captures@),
    {
        let top_update = self.top_ring.logic_step(dt);
        let bottom_update = self.bottom_ring.logic_step(dt);
        self.active = self.bottom_ring.idle();
        let captures: Vec<u64> = if self.active && self.queued_zoneables.len() > 0 {
            let drained = self.queued_zoneables.split_off(0);
            proof {
                assert(drained@ =~= old(self).queued_zoneables@);
                assert(self.queued_zoneables@ =~= Seq::<u64>::empty());
            }
            drained
        } else {
            Vec::new()
        };
        CellStepOut { top_update, bottom_update, captures }
    }

    /// An object entered the zone. While admission is open it is to be
    /// captured immediately and is not queued; otherwise it joins the queue
    /// (idempotently — entering twice queues once). Returns whether the
    /// surrounding process must issue an immediate capture request.
    pub fn enter(&mut self, id: u64) -> (capture_now: bool)
        requires
            old(self).wf(),
        ensures
            final(self).wf(),
            capture_now == old(self).active,
            final(self).active == old(self).active,
            final(self).y_offset == old(self).y_offset,
            final(self).top_ring == old(self).top_ring,
            final(self).bottom_ring == old(self).bottom_ring,
            final(self).queued_zoneables@ == if old(self).active
                || old(self).queued_zoneables@.contains(id) {
                old(self).queued_zoneables@
            } else {
                old(self).queued_zoneables@.push(id)
            },
    {
        if self.active {
            true
        } else {
            if !contains_id(&self.queued_zoneables, id) {
                self.queued_zoneables.push(id);
            }
            false
        }
    }

    /// An object left the zone: drop it from the queue if it is still
    /// pending. A no-op if it is absent — already captured, or never queued.
    pub fn leave(&mut self, id: u64)
        requires
            old(self).wf(),
        ensures
            final(self).wf(),
            final(self).active == old(self).active,
            final(self).y_offset == old(self).y_offset,
            final(self).top_ring == old(self).top_ring,
            final(self).bottom_ring == old(self).bottom_ring,
            final(self).queued_zoneables@ == old(self).queued_zoneables@.remove_value(id),
            !final(self).queued_zoneables@.contains(id),
    {
        proof {
            self.queued_zoneables@.index_of_first_ensures(id);
        }
        match find_id(&self.queued_zoneables, id) {
            Some(i) => {
                proof {
                    let q = self.queued_zoneables@;
                    assert(q.contains(id)) by {
                        assert(q[i as int] == id);
                    }
                    assert(q.index_of_first(id) == Some(i as int));
                }
                self.queued_zoneables.remove(i);
                proof {
                    let pre = old(self).queued_zoneables@;
                    assert(self.queued_zoneables@ == pre.remove_value(id));
                    assert forall|k: int|
                        0 <= k < self.queued_zoneables@.len() implies self.queued_zoneables@[k]
                        != id by {
                        if k < i {
                            assert(self.queued_zoneables@[k] == pre[k]);
                        } else {
                            assert(self.queued_zoneables@[k] == pre[k + 1]);
                        }
                    }
                }
            },
            None => {},
        }
    }
}

} // verus!
