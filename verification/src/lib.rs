//! Core logic of a vertically stacked shelf of magnetic capture cells.
//!
//! A `Magnetar` owns a column of `Cell`s. Each cell materializes through two
//! animated `Ring` indicators, captures nearby objects once it has finished
//! materializing, and the whole stack can be grabbed by a single input actor
//! and dragged or scrolled along its vertical axis.
//!
//! All scalar quantities (lengths, positions, times, input axes) are carried
//! as fixed-point integers in thousandths of a unit, so that every rule of
//! the interaction core is stated and proved exactly. The surrounding
//! process translates these into the rendering layer's floating-point values.

pub mod cell;
pub mod grab_action;
pub mod grab_circle;
mod ids;
pub mod input;
pub mod laws;
pub mod magnetar;
pub mod ring;
pub mod tween;
