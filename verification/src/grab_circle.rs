//! Transient visual marker shown at an input's interaction point while it
//! hovers near the shelf.
//!
//! The marker's uniform scale is the one quantity the interaction rules
//! decide: a fixed large scale while its input is the grab actor, otherwise
//! a scale that grows linearly as the input closes the last stretch of
//! distance to the surface. Where the marker sits on the shelf's rim — a
//! direction normalized in the horizontal plane — is left to the rendering
//! layer, which owns the irrational part of that arithmetic.

use vstd::prelude::*;

use crate::input::InputSnapshot;

verus! {

/// Scale of the marker while its input is the grab actor: 0.1 units.
pub const GRABBING_SCALE: i64 = 100;

/// Bound on the input fields the scale rule reads.
pub const INPUT_BOUND: i64 = 1_000_000_000;

/// The marker scale for one input: pinned large while grabbing; otherwise
/// the distance to the surface is mapped linearly — 0.1 units away gives 0,
/// 0.05 units away gives full scale — and clamped to 0..=0.1 units.
pub open spec fn circle_scale(data: InputSnapshot, grabbing: bool) -> i64 {
    if grabbing {
        GRABBING_SCALE
    } else {
        let away = if data.distance >= 0 {
            data.distance as int
        } else {
            -(data.distance as int)
        };
        let mapped = (100 - away) * 2;
        if mapped < 0 {
            0
        } else if mapped > 100 {
            100
        } else {
            mapped as i64
        }
    }
}

/// One input's hover marker; `radius` is the rim distance at which the
/// rendering layer places it.
pub struct GrabCircle {
    pub radius: i64,
}

impl GrabCircle {
    /// A fresh marker for the shelf rim at `radius`.
    pub fn new(radius: i64) -> (r: GrabCircle)
        ensures
            r.radius == radius,
    {
        GrabCircle { radius }
    }

    /// The scale to render this frame for the marker's input.
    pub fn update(&self, data: &InputSnapshot, grabbing: bool) -> (scale: i64)
        requires
            -INPUT_BOUND <= data.distance <= INPUT_BOUND,
        ensures
            scale == circle_scale(*data, grabbing),
    {
        if grabbing {
            GRABBING_SCALE
        } else {
            let away = if data.distance >= 0 {
                data.distance
            } else {
                -data.distance
            };
            let mapped = (100 - away) * 2;
            if mapped < 0 {
                0
            } else if mapped > 100 {
                100
            } else {
                mapped
            }
        }
    }
}

} // verus!
