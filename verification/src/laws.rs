//! The guarantees the interaction core gives, each proved against the
//! contracts of the frame, cell and grab-action operations.

use vstd::prelude::*;

use crate::cell::{cell_step_rel, distinct_ids, Cell, CellStepOut};
use crate::grab_action::{actor_keeps, grab_update_rel, GrabAction};
use crate::input::{grab_predicate, has_input, input_by_id, y_pos_spec, InputSnapshot};
use crate::magnetar::{drag_tmp_mid, Magnetar};

verus! {

/// A cell's `active` flag after a tick is true exactly when its bottom ring is then
/// idle — and it does not depend on the flag's value before the tick, so a
/// caller forcing the flag open while the cell is still materializing is
/// overridden. Two ticks of cells equal but for their forced flag agree on
/// the flag after and on what they capture.
pub proof fn lemma_active_ignores_forced_value(
    pre1: Cell,
    pre2: Cell,
    post1: Cell,
    post2: Cell,
    out1: CellStepOut,
    out2: CellStepOut,
    dt: i64,
)
    requires
        pre2.top_ring == pre1.top_ring,
        pre2.bottom_ring == pre1.bottom_ring,
        pre2.queued_zoneables@ == pre1.queued_zoneables@,
        pre2.y_offset == pre1.y_offset,
        cell_step_rel(pre1, post1, out1, dt),
        cell_step_rel(pre2, post2, out2, dt),
    ensures
        post1.active == post1.bottom_ring.is_idle(),
        post2.active == post1.active,
        out2.captures@ == out1.captures@,
        post2.queued_zoneables@ == post1.queued_zoneables@,
{
}

/// An object queued in an inactive cell is captured exactly once, and no
/// earlier than the tick on which the cell becomes active: the tick that
/// turns the flag true hands the object out once and drops it from the queue;
/// a tick that leaves the flag false captures nothing and keeps the object
/// queued; and nothing is ever captured before admission opens.
pub proof fn lemma_queued_object_captured_exactly_once(
    pre: Cell,
    post: Cell,
    out: CellStepOut,
    dt: i64,
    id: u64,
)
    requires
        distinct_ids(pre.queued_zoneables@),
        pre.queued_zoneables@.contains(id),
        cell_step_rel(pre, post, out, dt),
    ensures
        out.captures@.len() > 0 ==> post.active,
        post.active ==> out.captures@.contains(id) && distinct_ids(out.captures@) && !post.queued_zoneables@.contains(id),
        !post.active ==> !out.captures@.contains(id) && post.queued_zoneables@.contains(id),
{
}

/// An object that is not queued when the tick runs — it left the zone
/// first, or was already captured — is not captured by that tick, and does
/// not reappear in the queue.
pub proof fn lemma_absent_object_never_captured(
    pre: Cell,
    post: Cell,
    out: CellStepOut,
    dt: i64,
    id: u64,
)
    requires
        !pre.queued_zoneables@.contains(id),
        cell_step_rel(pre, post, out, dt),
    ensures
        !out.captures@.contains(id),
        !post.queued_zoneables@.contains(id),
{
}

/// The grab is exclusive and never preempted: while the current actor's
/// own predicate still holds, an update keeps it as the actor — whatever
/// other inputs' grab predicates say — and admits nothing new.
pub proof fn lemma_actor_not_preempted(
    pre: GrabAction,
    post: GrabAction,
    s: Seq<InputSnapshot>,
    a: u64,
    other: u64,
)
    requires
        grab_update_rel(pre, post, s),
        pre.actor == Some(a),
        actor_keeps(s, a),
        has_input(s, other),
        grab_predicate(input_by_id(s, other)),
    ensures
        post.actor == Some(a),
        !post.started,
{
}

/// Dragging preserves relative offset: whenever the actor's vertical
/// coordinate equals the recorded grab offset — as it does on the frame
/// the drag starts — the in-progress offset the acting phase computes is
/// exactly the committed offset. The stack does not jump when grabbed.
pub proof fn lemma_drag_preserves_relative_offset(
    pre: Magnetar,
    g: GrabAction,
    s: Seq<InputSnapshot>,
)
    requires
        g.actor is Some,
        g.started || y_pos_spec(input_by_id(s, g.actor->0)) == pre.y_offset,
    ensures
        drag_tmp_mid(pre, g, s) == pre.y_pos,
{
}

/// Scroll during an active drag cancels out of the rendered position:
/// shifting the grab offset and the committed offset by the same scroll
/// amount leaves the offset the acting phase computes unchanged.
pub proof fn lemma_scroll_cancels_mid_drag(
    pre: Magnetar,
    shifted: Magnetar,
    g: GrabAction,
    s: Seq<InputSnapshot>,
    scroll: int,
)
    requires
        g.actor is Some,
        !g.started,
        shifted.y_offset == pre.y_offset + scroll,
        shifted.y_pos == pre.y_pos + scroll,
        shifted.y_pos_tmp == pre.y_pos_tmp + scroll,
    ensures
        drag_tmp_mid(shifted, g, s) == drag_tmp_mid(pre, g, s),
{
}

} // verus!
