//! Per-frame snapshots of the pointer, hand and tip inputs that intersect
//! the shelf's inner field.
//!
//! The input layer latches asynchronous updates and hands the core one
//! snapshot per tracked input at the start of each tick. Each snapshot
//! carries the input's kind with its interaction point — pointers expose
//! their deepest point, hands their palm position, tips their origin — a
//! signed proximity distance to the field surface, and the named scalar
//! fields the grab and hover predicates read.

use vstd::prelude::*;

verus! {

/// Hand inputs qualify to grab once their grab strength exceeds 0.8.
pub const GRAB_STRENGTH_THRESHOLD: i64 = 800;

/// All other inputs qualify once their normalized grab axis exceeds 0.9.
pub const GRAB_AXIS_THRESHOLD: i64 = 900;

/// Inputs hover once their distance to the surface is below 0.05 units.
pub const HOVER_DISTANCE: i64 = 50;

/// A position in the field's local frame, in thousandths of a unit.
#[derive(Clone, Copy, PartialEq, Eq, Structural, Debug)]
pub struct Point3 {
    pub x: i64,
    pub y: i64,
    pub z: i64,
}

/// The kind of an input, each exposing its interaction point differently.
#[derive(Clone, Copy, PartialEq, Eq, Structural, Debug)]
pub enum InputVariant {
    /// A ray: interacts at the deepest point of its intersection.
    Pointer { deepest_point: Point3 },
    /// A tracked hand: interacts at its palm.
    Hand { palm_position: Point3 },
    /// A controller tip: interacts at its origin.
    Tip { origin: Point3 },
}

/// Everything the core reads of one input for one frame.
#[derive(Clone, Copy, PartialEq, Eq, Structural, Debug)]
pub struct InputSnapshot {
    /// Stable identity of the input across frames.
    pub id: u64,
    pub input: InputVariant,
    /// Signed distance from the interaction point to the field surface.
    pub distance: i64,
    /// Normalized grab axis, for non-hand inputs.
    pub grab: i64,
    /// Grab strength, for hand inputs.
    pub grab_strength: i64,
    /// Vertical scroll delta accumulated since the previous frame.
    pub scroll_y: i64,
}

/// The uniform interaction point of an input.
pub open spec fn interact_point(data: InputSnapshot) -> Point3 {
    match data.input {
        InputVariant::Pointer { deepest_point } => deepest_point,
        InputVariant::Hand { palm_position } => palm_position,
        InputVariant::Tip { origin } => origin,
    }
}

/// The vertical coordinate of an input's interaction point.
pub open spec fn y_pos_spec(data: InputSnapshot) -> i64 {
    interact_point(data).y
}

/// Whether an input qualifies to grab the stack this frame: hands by grab
/// strength, every other kind by its normalized grab axis.
pub open spec fn grab_predicate(data: InputSnapshot) -> bool {
    match data.input {
        InputVariant::Hand { .. } => data.grab_strength > GRAB_STRENGTH_THRESHOLD,
        _ => data.grab > GRAB_AXIS_THRESHOLD,
    }
}

/// Whether an input hovers close to the shelf surface. Hovering feeds only
/// scroll accumulation and the visual grab indicators, never the grab
/// predicate itself.
pub open spec fn hover_predicate(data: InputSnapshot) -> bool {
    -HOVER_DISTANCE < data.distance < HOVER_DISTANCE
}

/// The vertical coordinate of an input's interaction point: the pointer's
/// deepest point, the hand's palm, or the tip's origin.
pub fn y_pos(data: &InputSnapshot) -> (r: i64)
    ensures
        r == y_pos_spec(*data),
{
    match &data.input {
        InputVariant::Pointer { deepest_point } => deepest_point.y,
        InputVariant::Hand { palm_position } => palm_position.y,
        InputVariant::Tip { origin } => origin.y,
    }
}

/// Whether an input qualifies to grab the stack this frame.
pub fn grab_qualifies(data: &InputSnapshot) -> (r: bool)
    ensures
        r == grab_predicate(*data),
{
    match &data.input {
        InputVariant::Hand { .. } => data.grab_strength > GRAB_STRENGTH_THRESHOLD,
        _ => data.grab > GRAB_AXIS_THRESHOLD,
    }
}

/// Whether an input hovers close to the shelf surface.
pub fn hover_qualifies(data: &InputSnapshot) -> (r: bool)
    ensures
        r == hover_predicate(*data),
{
    -HOVER_DISTANCE < data.distance && data.distance < HOVER_DISTANCE
}

/// Each tracked input appears at most once per frame.
pub open spec fn distinct_inputs(s: Seq<InputSnapshot>) -> bool {
    forall|i: int, j: int| 0 <= i < j < s.len() ==> s[i].id != s[j].id
}

/// Whether some input in the frame carries this identity.
pub open spec fn has_input(s: Seq<InputSnapshot>, id: u64) -> bool {
    exists|i: int| 0 <= i < s.len() && s[i].id == id
}

/// The snapshot carrying this identity (meaningful when `has_input` holds
/// and identities are distinct).
pub open spec fn input_by_id(s: Seq<InputSnapshot>, id: u64) -> InputSnapshot {
    s[choose|i: int| 0 <= i < s.len() && s[i].id == id]
}

/// Find the snapshot with the given identity.
pub fn find_input<'a>(s: &'a Vec<InputSnapshot>, id: u64) -> (r: Option<&'a InputSnapshot>)
    requires
        distinct_inputs(s@),
    ensures
        match r {
            Some(data) => has_input(s@, id) && *data == input_by_id(s@, id) && data.id == id,
            None => !has_input(s@, id),
        },
{
    let n = s.len();
    let mut i: usize = 0;
    while i < n
        invariant
            n == s@.len(),
            0 <= i <= n,
            distinct_inputs(s@),
            forall|j: int| 0 <= j < i ==> s@[j].id != id,
        decreases n - i,
    {
        if s[i].id == id {
            proof {
                assert(has_input(s@, id)) by {
                    assert(0 <= i < s@.len() && s@[i as int].id == id);
                }
                let w = choose|k: int| 0 <= k < s@.len() && s@[k].id == id;
                assert(0 <= w < s@.len() && s@[w].id == id);
                if w < i as int {
                    assert(s@[w].id != s@[i as int].id);
                } else if w > i as int {
                    assert(s@[i as int].id != s@[w].id);
                }
                assert(input_by_id(s@, id) == s@[i as int]);
            }
            return Some(&s[i]);
        }
        i = i + 1;
    }
    None
}

} // verus!
