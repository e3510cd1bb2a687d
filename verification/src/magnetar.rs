//! The shelf itself: an ordered stack of cells, the single-actor grab
//! state machine, vertical offset bookkeeping, and the per-input visual
//! grab indicators.
//!
//! Once per frame, `frame` ticks every cell, consumes the frame's input
//! snapshots, runs the grab phases in order — started, acting, stopped —
//! and accumulates scroll. While a drag starts, every cell's flag is forced
//! false; when it ends, the flags reopen and the committed offset takes the
//! dragged value. Scroll shifts the committed offset, the in-progress
//! offset and the grab reference offset together, so a drag's relative
//! offset survives mid-drag scrolling.

use vstd::prelude::*;

use crate::cell::{cell_step_rel, distinct_ids, Cell, CellStepOut};
use crate::grab_action::{
    diff_id_vec, diff_ids, grab_update_rel, lemma_diff_ids_from, GrabAction,
};
use crate::grab_circle::{circle_scale, GrabCircle, INPUT_BOUND};
use crate::input::{
    distinct_inputs, find_input, hover_predicate, hover_qualifies, input_by_id, y_pos, y_pos_spec,
    InputSnapshot,
};
use crate::tween::TWEEN_TIME_BOUND;

verus! {

/// Bound on the stored vertical offsets that keeps one frame's arithmetic
/// within machine range (a billion units).
pub const POS_BOUND: i64 = 1_000_000_000_000;

/// Most inputs one frame can carry.
pub const MAX_INPUTS: usize = 1024;

/// Most cells a stack can hold.
pub const MAX_CELLS: usize = 1_000_000;

/// Scroll deltas are scaled by this divisor: a tenth.
pub const SCROLL_DIVISOR: i64 = 10;

/// Every input within the bounds the frame arithmetic needs.
pub open spec fn inputs_wf(s: Seq<InputSnapshot>) -> bool {
    &&& distinct_inputs(s)
    &&& s.len() <= MAX_INPUTS
    &&& forall|i: int| 0 <= i < s.len() ==> #[trigger] input_in_bounds(s[i])
}

/// Bounds on the fields of one input that the frame reads.
pub open spec fn input_in_bounds(data: InputSnapshot) -> bool {
    &&& -INPUT_BOUND <= y_pos_spec(data) <= INPUT_BOUND
    &&& -INPUT_BOUND <= data.distance <= INPUT_BOUND
    &&& -INPUT_BOUND <= data.scroll_y <= INPUT_BOUND
}

/// One input's contribution to scroll: its vertical scroll delta scaled by
/// a tenth (rounded toward zero), counted only while the input hovers.
pub open spec fn scroll_step(data: InputSnapshot) -> int {
    if hover_predicate(data) {
        if data.scroll_y >= 0 {
            (data.scroll_y as int) / (SCROLL_DIVISOR as int)
        } else {
            -((-(data.scroll_y as int)) / (SCROLL_DIVISOR as int))
        }
    } else {
        0
    }
}

/// The scroll accumulated over the first `i` inputs of the frame.
pub open spec fn scroll_sum_to(s: Seq<InputSnapshot>, i: int) -> int
    decreases i,
{
    if i <= 0 {
        0
    } else {
        scroll_sum_to(s, i - 1) + scroll_step(s[i - 1])
    }
}

/// The scroll accumulated over the whole frame.
pub open spec fn scroll_sum(s: Seq<InputSnapshot>) -> int {
    scroll_sum_to(s, s.len() as int)
}

/// Each input contributes at most a tenth of its bound, so the sum stays
/// small against the offset bound.
pub proof fn lemma_scroll_sum_bound(s: Seq<InputSnapshot>, i: int)
    requires
        0 <= i <= s.len(),
        forall|k: int| 0 <= k < s.len() ==> #[trigger] input_in_bounds(s[k]),
    ensures
        -i * (INPUT_BOUND as int) <= scroll_sum_to(s, i) <= i * (INPUT_BOUND as int),
    decreases i,
{
    if i > 0 {
        lemma_scroll_sum_bound(s, i - 1);
        assert(input_in_bounds(s[i - 1]));
        assert(-(INPUT_BOUND as int) <= scroll_step(s[i - 1]) <= INPUT_BOUND as int);
        assert((i - 1) * (INPUT_BOUND as int) + INPUT_BOUND as int == i * (INPUT_BOUND as int))
            by (nonlinear_arith);
    }
}

/// The new pose the shelf's inner field takes after the stack grows: its
/// vertical center and the length of its cylinder.
pub struct FieldUpdate {
    pub y: i64,
    pub length: i64,
}

/// Everything one frame asks of the surrounding process: per-cell ring
/// changes and capture requests, a stack translation to apply, and the
/// grab indicator changes.
pub struct FrameOut {
    /// One entry per cell, in stack order.
    pub cell_outs: Vec<CellStepOut>,
    /// The vertical translation to apply to the stack root, if any phase
    /// moved it this frame.
    pub translation: Option<i64>,
    /// Spawn, rescale and remove commands for the grab indicators.
    pub circle_cmds: Vec<CircleCmd>,
}

/// A change to one input's visual grab indicator.
pub enum CircleCmd {
    /// The input started hovering: give it an indicator.
    Spawn { id: u64 },
    /// The input keeps hovering: rescale its indicator, pinned large while
    /// it is the grab actor.
    Rescale { id: u64, scale: i64, grabbing: bool },
    /// The input stopped hovering: drop its indicator.
    Remove { id: u64 },
}

/// The vertically stacked shelf.
pub struct Magnetar {
    /// In-progress vertical offset while a drag runs.
    pub y_pos_tmp: i64,
    /// Committed vertical offset of the whole stack.
    pub y_pos: i64,
    /// The grab actor's vertical coordinate at the moment the drag began,
    /// kept so the drag preserves relative offset.
    pub y_offset: i64,
    /// The single-actor grab state machine.
    pub grab_input_action: GrabAction,
    /// The stack, bottom cell first.
    pub cells: Vec<Cell>,
    /// Inputs that currently own a visual grab indicator.
    pub grab_circles: Vec<u64>,
    /// The marker prototype shared by all indicators.
    pub circle: GrabCircle,
}

impl Magnetar {
    /// Well-formedness: a consistent grab machine, well-formed cells, and
    /// no input owning two indicators.
    pub open spec fn wf(self) -> bool {
        &&& self.grab_input_action.wf()
        &&& distinct_ids(self.grab_circles@)
        &&& forall|i: int| 0 <= i < self.cells@.len() ==> (#[trigger] self.cells@[i]).wf()
        &&& self.cells@.len() <= MAX_CELLS
    }

    /// A fresh shelf: no cells, no actor, offsets at zero.
    pub fn new() -> (r: Magnetar)
        ensures
            r.y_pos_tmp == 0,
            r.y_pos == 0,
            r.y_offset == 0,
            r.grab_input_action.actor is None,
            !r.grab_input_action.started,
            !r.grab_input_action.stopped,
            r.grab_input_action.hovering@ == Seq::<u64>::empty(),
            r.cells@ == Seq::<Cell>::empty(),
            r.grab_circles@ == Seq::<u64>::empty(),
            r.circle.radius == crate::cell::CELL_RADIUS,
            r.wf(),
    {
        Magnetar {
            y_pos_tmp: 0,
            y_pos: 0,
            y_offset: 0,
            grab_input_action: GrabAction::new(),
            cells: Vec::new(),
            grab_circles: Vec::new(),
            circle: GrabCircle::new(crate::cell::CELL_RADIUS),
        }
    }

    /// Append one shelf level below the previous ones and recenter the
    /// shelf's inner field around the grown stack: with `n` cells the field
    /// spans `n` units of height centered `n/2 - 1/2` units above the
    /// stack origin.
    pub fn add_cell(&mut self) -> (r: FieldUpdate)
        requires
            old(self).wf(),
            old(self).cells@.len() < MAX_CELLS,
        ensures
            final(self).wf(),
            final(self).cells@.len() == old(self).cells@.len() + 1,
            forall|i: int|
                0 <= i < old(self).cells@.len() ==> final(self).cells@[i] == old(self).cells@[i],
            final(self).cells@.last().active == false,
            final(self).cells@.last().y_offset == -1000 * old(self).cells@.len(),
            final(self).cells@.last().queued_zoneables@ == Seq::<u64>::empty(),
            final(self).cells@.last().top_ring == crate::ring::Ring::new_spec(
                crate::cell::CELL_HALF_HEIGHT as int,
                crate::cell::CELL_RADIUS as int,
            ),
            final(self).cells@.last().bottom_ring == crate::ring::Ring::new_spec(
                -crate::cell::CELL_HALF_HEIGHT as int,
                crate::cell::CELL_RADIUS as int,
            ),
            r.y == 500 * final(self).cells@.len() - 500,
            r.length == 1000 * final(self).cells@.len(),
            final(self).y_pos == old(self).y_pos,
            final(self).y_pos_tmp == old(self).y_pos_tmp,
            final(self).y_offset == old(self).y_offset,
            final(self).grab_input_action == old(self).grab_input_action,
            final(self).grab_circles@ == old(self).grab_circles@,
    {
        let count = self.cells.len();
        let height: i64 = -1000 * (count as i64);
        let cell = Cell::new(height);
        self.cells.push(cell);
        let new_count = self.cells.len() as i64;
        FieldUpdate { y: 500 * new_count - 500, length: 1000 * new_count }
    }
}

/// Force every cell's admission flag to `active`, leaving everything else alone.
fn set_all_active(cells: &mut Vec<Cell>, active: bool)
    requires
        forall|i: int| 0 <= i < old(cells)@.len() ==> (#[trigger] old(cells)@[i]).wf(),
    ensures
        final(cells)@.len() == old(cells)@.len(),
        forall|i: int|
            0 <= i < old(cells)@.len() ==> flag_forced(old(cells)@[i], #[trigger] final(cells)@[i], active),
        forall|i: int| 0 <= i < final(cells)@.len() ==> (#[trigger] final(cells)@[i]).wf(),
{
    let n = cells.len();
    let mut i: usize = 0;
    while i < n
        invariant
            n == cells@.len(),
            n == old(cells)@.len(),
            0 <= i <= n,
            forall|j: int| 0 <= j < old(cells)@.len() ==> (#[trigger] old(cells)@[j]).wf(),
            forall|j: int| i <= j < n ==> cells@[j] == old(cells)@[j],
            forall|j: int| 0 <= j < i ==> flag_forced(old(cells)@[j], #[trigger] cells@[j], active),
            forall|j: int| 0 <= j < i ==> (#[trigger] cells@[j]).wf(),
        decreases n - i,
    {
        let cell = vstd::std_specs::vec::vec_index_mut(cells, i);
        cell.active = active;
        proof {
            assert(cells@[i as int].y_offset == old(cells)@[i as int].y_offset);
            assert(cells@[i as int].queued_zoneables@ == old(cells)@[i as int].queued_zoneables@);
            assert(flag_forced(old(cells)@[i as int], cells@[i as int], active));
            assert(cells@[i as int].wf());
        }
        i = i + 1;
    }
}

/// `post` is `pre` with its flag forced to `active`.
pub open spec fn flag_forced(pre: Cell, post: Cell, active: bool) -> bool {
    &&& post.active == active
    &&& post.y_offset == pre.y_offset
    &&& post.queued_zoneables@ == pre.queued_zoneables@
    &&& post.top_ring == pre.top_ring
    &&& post.bottom_ring == pre.bottom_ring
}

/// Concatenating a list whose members avoid `a` onto a distinct `a` keeps
/// identities distinct.
proof fn lemma_distinct_append(a: Seq<u64>, c: Seq<u64>)
    requires
        distinct_ids(a),
        distinct_ids(c),
        forall|id: u64| c.contains(id) ==> !a.contains(id),
    ensures
        distinct_ids(a + c),
{
    assert forall|p: int, q: int| 0 <= p < q < (a + c).len() implies (a + c)[p] != (a + c)[q] by {
        if p < a.len() && q >= a.len() {
            assert(c.contains(c[q - a.len()])) by {
                assert(c[q - a.len()] == c[q - a.len()]);
            }
            if (a + c)[p] == (a + c)[q] {
                assert(a.contains(a[p])) by {
                    assert(a[p] == a[p]);
                }
            }
        }
    }
}

/// Spawn commands for each identity, in order.
pub open spec fn spawn_cmds(ids: Seq<u64>) -> Seq<CircleCmd> {
    ids.map_values(|id: u64| CircleCmd::Spawn { id })
}

/// Remove commands for each identity, in order.
pub open spec fn remove_cmds(ids: Seq<u64>) -> Seq<CircleCmd> {
    ids.map_values(|id: u64| CircleCmd::Remove { id })
}

/// The rescale command one hovering input gets, pinned large while the
/// input is the grab actor.
pub open spec fn rescale_cmd(data: InputSnapshot, actor: Option<u64>) -> CircleCmd {
    CircleCmd::Rescale {
        id: data.id,
        scale: circle_scale(data, actor == Some(data.id)),
        grabbing: actor == Some(data.id),
    }
}

/// Rescale commands for every hovering input, in frame order, scanning
/// from position `i`.
pub open spec fn rescale_cmds_from(s: Seq<InputSnapshot>, actor: Option<u64>, i: int) -> Seq<
    CircleCmd,
>
    decreases s.len() - i,
{
    if i < 0 || i >= s.len() {
        Seq::empty()
    } else if hover_predicate(s[i]) {
        seq![rescale_cmd(s[i], actor)] + rescale_cmds_from(s, actor, i + 1)
    } else {
        rescale_cmds_from(s, actor, i + 1)
    }
}

/// Rescale commands for every hovering input, in frame order.
pub open spec fn rescale_cmds(s: Seq<InputSnapshot>, actor: Option<u64>) -> Seq<CircleCmd> {
    rescale_cmds_from(s, actor, 0)
}

/// Every indicator change one frame issues: spawns for inputs that started
/// hovering, rescales for inputs still hovering, removals for inputs that
/// stopped.
pub open spec fn circle_cmds_spec(s: Seq<InputSnapshot>, g: GrabAction) -> Seq<CircleCmd> {
    spawn_cmds(g.hover_started@) + rescale_cmds(s, g.actor) + remove_cmds(g.hover_stopped@)
}

/// The indicator owners after one frame: the inputs that started hovering
/// join (unless already present), the inputs that stopped hovering leave.
pub open spec fn circles_after(circles: Seq<u64>, started: Seq<u64>, stopped: Seq<u64>) -> Seq<
    u64,
> {
    diff_ids(circles + diff_ids(started, circles), stopped)
}

/// The grab reference offset after the grab phases, before scroll: set to
/// the actor's vertical coordinate the frame a drag starts, otherwise kept.
pub open spec fn drag_offset_mid(pre: Magnetar, g: GrabAction, s: Seq<InputSnapshot>) -> int {
    if g.actor is Some && g.started {
        y_pos_spec(input_by_id(s, g.actor->0)) as int
    } else {
        pre.y_offset as int
    }
}

/// The in-progress offset after the grab phases, before scroll: while an
/// actor drags, its vertical coordinate relative to where the drag began,
/// on top of the committed offset.
pub open spec fn drag_tmp_mid(pre: Magnetar, g: GrabAction, s: Seq<InputSnapshot>) -> int {
    if g.actor is Some {
        y_pos_spec(input_by_id(s, g.actor->0)) - drag_offset_mid(pre, g, s) + pre.y_pos
    } else {
        pre.y_pos_tmp as int
    }
}

/// The committed offset after the grab phases, before scroll: the frame a
/// drag ends, the dragged offset is committed.
pub open spec fn commit_pos_mid(pre: Magnetar, g: GrabAction) -> int {
    if g.stopped {
        pre.y_pos_tmp as int
    } else {
        pre.y_pos as int
    }
}

/// How one frame relates each cell before and after, and its tick output:
/// the rings advance, the queue drains exactly when the recomputed flag is
/// open, and the flag is then forced shut the frame a drag starts and
/// reopened the frame it ends.
pub open spec fn frame_cell_rel(
    pre: Cell,
    post: Cell,
    out: CellStepOut,
    dt: i64,
    started: bool,
    stopped: bool,
) -> bool {
    let open_now = pre.bottom_ring.stepped(dt).is_idle();
    &&& post.top_ring == pre.top_ring.stepped(dt)
    &&& post.bottom_ring == pre.bottom_ring.stepped(dt)
    &&& post.y_offset == pre.y_offset
    &&& post.active == (if started {
        false
    } else if stopped {
        true
    } else {
        open_now
    })
    &&& out.top_update == pre.top_ring.step_update(dt)
    &&& out.bottom_update == pre.bottom_ring.step_update(dt)
    &&& (if open_now && pre.queued_zoneables@.len() > 0 {
        out.captures@ == pre.queued_zoneables@ && post.queued_zoneables@ == Seq::<u64>::empty()
    } else {
        out.captures@ == Seq::<u64>::empty() && post.queued_zoneables@ == pre.queued_zoneables@
    })
}

impl Magnetar {
    /// Recompute the visual grab indicators from the hover lists: spawn one
    /// for each input that started hovering, rescale every hovering
    /// input's, drop those whose input stopped hovering.
    fn update_grab_circles(&mut self, inputs: &Vec<InputSnapshot>) -> (cmds: Vec<CircleCmd>)
        requires
            old(self).grab_input_action.wf(),
            distinct_ids(old(self).grab_circles@),
            inputs_wf(inputs@),
        ensures
            cmds@ == circle_cmds_spec(inputs@, old(self).grab_input_action),
            final(self).grab_circles@ == circles_after(
                old(self).grab_circles@,
                old(self).grab_input_action.hover_started@,
                old(self).grab_input_action.hover_stopped@,
            ),
            distinct_ids(final(self).grab_circles@),
            final(self).grab_input_action == old(self).grab_input_action,
            final(self).cells == old(self).cells,
            final(self).y_pos == old(self).y_pos,
            final(self).y_pos_tmp == old(self).y_pos_tmp,
            final(self).y_offset == old(self).y_offset,
            final(self).circle == old(self).circle,
    {
        let actor = self.grab_input_action.actor;
        let mut cmds: Vec<CircleCmd> = Vec::new();

        let starts = self.grab_input_action.hover_started.len();
        let mut j: usize = 0;
        while j < starts
            invariant
                starts == self.grab_input_action.hover_started@.len(),
                0 <= j <= starts,
                cmds@.len() == j,
                forall|k: int|
                    0 <= k < j ==> cmds@[k] == (CircleCmd::Spawn {
                        id: self.grab_input_action.hover_started@[k],
                    }),
            decreases starts - j,
        {
            let id = *crate::ids::vec_index_u64(&self.grab_input_action.hover_started, j);
            cmds.push(CircleCmd::Spawn { id });
            j = j + 1;
        }
        proof {
            assert(cmds@ =~= spawn_cmds(self.grab_input_action.hover_started@));
        }

        let n = inputs.len();
        let mut i: usize = 0;
        while i < n
            invariant
                inputs_wf(inputs@),
                n == inputs@.len(),
                0 <= i <= n,
                actor == self.grab_input_action.actor,
                cmds@ + rescale_cmds_from(inputs@, actor, i as int) == spawn_cmds(
                    self.grab_input_action.hover_started@,
                ) + rescale_cmds(inputs@, actor),
            decreases n - i,
        {
            if hover_qualifies(&inputs[i]) {
                let data = &inputs[i];
                let grabbing = match actor {
                    Some(a) => a == data.id,
                    None => false,
                };
                proof {
                    assert(grabbing == (actor == Some(data.id)));
                }
                let scale = self.circle.update(data, grabbing);
                cmds.push(CircleCmd::Rescale { id: data.id, scale, grabbing });
                proof {
                    assert(cmds@ + rescale_cmds_from(inputs@, actor, i + 1) =~= cmds@.drop_last()
                        + (seq![rescale_cmd(inputs@[i as int], actor)] + rescale_cmds_from(
                        inputs@,
                        actor,
                        i + 1,
                    )));
                }
            }
            i = i + 1;
        }
        proof {
            assert(cmds@ + rescale_cmds_from(inputs@, actor, n as int) =~= cmds@);
            assert(cmds@ =~= spawn_cmds(self.grab_input_action.hover_started@) + rescale_cmds(
                inputs@,
                actor,
            ));
        }

        let stops = self.grab_input_action.hover_stopped.len();
        let ghost cmds_before: Seq<CircleCmd> = cmds@;
        let mut j: usize = 0;
        while j < stops
            invariant
                stops == self.grab_input_action.hover_stopped@.len(),
                0 <= j <= stops,
                cmds@.len() == cmds_before.len() + j,
                forall|k: int| 0 <= k < cmds_before.len() ==> cmds@[k] == cmds_before[k],
                forall|k: int|
                    0 <= k < j ==> cmds@[cmds_before.len() + k] == (CircleCmd::Remove {
                        id: self.grab_input_action.hover_stopped@[k],
                    }),
            decreases stops - j,
        {
            let id = *crate::ids::vec_index_u64(&self.grab_input_action.hover_stopped, j);
            cmds.push(CircleCmd::Remove { id });
            j = j + 1;
        }
        proof {
            assert(cmds@ =~= cmds_before + remove_cmds(self.grab_input_action.hover_stopped@));
        }

        let mut additions = diff_id_vec(&self.grab_input_action.hover_started, &self.grab_circles);
        proof {
            lemma_diff_ids_from(
                self.grab_input_action.hover_started@,
                self.grab_circles@,
                0,
            );
            lemma_distinct_append(self.grab_circles@, additions@);
        }
        self.grab_circles.append(&mut additions);
        let kept = diff_id_vec(&self.grab_circles, &self.grab_input_action.hover_stopped);
        proof {
            lemma_diff_ids_from(
                self.grab_circles@,
                self.grab_input_action.hover_stopped@,
                0,
            );
        }
        self.grab_circles = kept;
        cmds
    }

    /// One simulation frame, in order: tick every cell; consume the frame's
    /// inputs in the grab machine; recompute the indicators; run the
    /// started, acting and stopped grab phases; accumulate scroll. Returns
    /// what the surrounding process must apply.
    pub fn frame(&mut self, dt: i64, inputs: &Vec<InputSnapshot>) -> (out: FrameOut)
        requires
            old(self).wf(),
            inputs_wf(inputs@),
            0 <= dt <= TWEEN_TIME_BOUND,
            -POS_BOUND <= old(self).y_pos <= POS_BOUND,
            -POS_BOUND <= old(self).y_pos_tmp <= POS_BOUND,
            -POS_BOUND <= old(self).y_offset <= POS_BOUND,
        ensures
            final(self).wf(),
            grab_update_rel(old(self).grab_input_action, final(self).grab_input_action, inputs@),
            final(self).y_offset == drag_offset_mid(
                *old(self),
                final(self).grab_input_action,
                inputs@,
            ) + scroll_sum(inputs@),
            final(self).y_pos == commit_pos_mid(*old(self), final(self).grab_input_action)
                + scroll_sum(inputs@),
            final(self).y_pos_tmp == drag_tmp_mid(
                *old(self),
                final(self).grab_input_action,
                inputs@,
            ) + scroll_sum(inputs@),
            out.translation == (if final(self).grab_input_action.actor is Some || scroll_sum(
                inputs@,
            ) != 0 {
                Some(final(self).y_pos_tmp)
            } else {
                Option::<i64>::None
            }),
            final(self).cells@.len() == old(self).cells@.len(),
            out.cell_outs@.len() == old(self).cells@.len(),
            forall|i: int|
                0 <= i < old(self).cells@.len() ==> frame_cell_rel(
                    old(self).cells@[i],
                    #[trigger] final(self).cells@[i],
                    out.cell_outs@[i],
                    dt,
                    final(self).grab_input_action.started,
                    final(self).grab_input_action.stopped,
                ),
            out.circle_cmds@ == circle_cmds_spec(inputs@, final(self).grab_input_action),
            final(self).grab_circles@ == circles_after(
                old(self).grab_circles@,
                final(self).grab_input_action.hover_started@,
                final(self).grab_input_action.hover_stopped@,
            ),
            final(self).circle == old(self).circle,
    {
        let mut cell_outs: Vec<CellStepOut> = Vec::new();
        let n = self.cells.len();
        let mut i: usize = 0;
        while i < n
            invariant
                n == self.cells@.len(),
                n == old(self).cells@.len(),
                0 <= i <= n,
                0 <= dt <= TWEEN_TIME_BOUND,
                cell_outs@.len() == i,
                forall|j: int| 0 <= j < old(self).cells@.len() ==> (#[trigger] old(self).cells@[j]).wf(),
                forall|j: int| i <= j < n ==> self.cells@[j] == old(self).cells@[j],
                forall|j: int|
                    0 <= j < i ==> cell_step_rel(
                        old(self).cells@[j],
                        #[trigger] self.cells@[j],
                        cell_outs@[j],
                        dt,
                    ),
                forall|j: int| 0 <= j < i ==> (#[trigger] self.cells@[j]).wf(),
                self.y_pos == old(self).y_pos,
                self.y_pos_tmp == old(self).y_pos_tmp,
                self.y_offset == old(self).y_offset,
                self.grab_input_action == old(self).grab_input_action,
                self.grab_circles == old(self).grab_circles,
                self.circle == old(self).circle,
            decreases n - i,
        {
            let cell = vstd::std_specs::vec::vec_index_mut(&mut self.cells, i);
            let o = cell.logic_step(dt);
            cell_outs.push(o);
            i = i + 1;
        }

        self.grab_input_action.update(inputs);
        let circle_cmds = self.update_grab_circles(inputs);

        let started = self.grab_input_action.started;
        let stopped = self.grab_input_action.stopped;
        let actor = self.grab_input_action.actor;
        let mut translation: Option<i64> = None;

        if started {
            set_all_active(&mut self.cells, false);
        }
        match actor {
            Some(a) => {
                match find_input(inputs, a) {
                    Some(data) => {
                        proof {
                            let w = choose|k: int|
                                0 <= k < inputs@.len() && inputs@[k].id == a;
                            assert(input_in_bounds(inputs@[w]));
                            assert(*data == inputs@[w]);
                        }
                        let y = y_pos(data);
                        if started {
                            self.y_offset = y;
                        }
                        self.y_pos_tmp = y - self.y_offset + self.y_pos;
                        translation = Some(self.y_pos_tmp);
                    },
                    None => {
                        proof {
                            assert(false);
                        }
                    },
                }
            },
            None => {},
        }
        if stopped {
            set_all_active(&mut self.cells, true);
            self.y_pos = self.y_pos_tmp;
        }

        let scroll = accumulate_scroll(inputs);
        if scroll != 0 {
            self.y_offset = self.y_offset + scroll;
            self.y_pos = self.y_pos + scroll;
            self.y_pos_tmp = self.y_pos_tmp + scroll;
            translation = Some(self.y_pos_tmp);
        }

        FrameOut { cell_outs, translation, circle_cmds }
    }
}

/// The scroll accumulated over the frame's hovering inputs.
fn accumulate_scroll(inputs: &Vec<InputSnapshot>) -> (r: i64)
    requires
        inputs_wf(inputs@),
    ensures
        r == scroll_sum(inputs@),
        -(MAX_INPUTS as i64) * INPUT_BOUND <= r <= (MAX_INPUTS as i64) * INPUT_BOUND,
{
    let n = inputs.len();
    let mut acc: i64 = 0;
    let mut i: usize = 0;
    while i < n
        invariant
            inputs_wf(inputs@),
            n == inputs@.len(),
            0 <= i <= n,
            acc == scroll_sum_to(inputs@, i as int),
            -(i as int) * (INPUT_BOUND as int) <= acc <= (i as int) * (INPUT_BOUND as int),
        decreases n - i,
    {
        proof {
            lemma_scroll_sum_bound(inputs@, i + 1);
            assert(input_in_bounds(inputs@[i as int]));
        }
        if hover_qualifies(&inputs[i]) {
            let v = inputs[i].scroll_y;
            let step: i64 = if v >= 0 {
                v / SCROLL_DIVISOR
            } else {
                -((-v) / SCROLL_DIVISOR)
            };
            acc = acc + step;
        }
        proof {
            assert((i + 1) * (INPUT_BOUND as int) == (i as int) * (INPUT_BOUND as int)
                + INPUT_BOUND as int) by (nonlinear_arith);
        }
        i = i + 1;
    }
    acc
}

} // verus!
