//! Cross-frame memory for an immediate-mode UI, with the two layout engines
//! built on top of it.
//!
//! Widgets in an immediate-mode UI are rebuilt from scratch every frame, yet
//! scroll offsets, kinetic momentum and grid column widths must survive from
//! one frame to the next. This crate provides:
//!
//! * a keyed store ([`store`]) that maps type keys and instance keys to
//!   encoded values, with corrupt entries silently replaced by defaults;
//! * a per-frame carrier ([`frame`]) for write-once-read-once requests such as
//!   "scroll to this position";
//! * a scrollable-region controller ([`scroll`]) with kinetic-scroll physics
//!   and an animated scroll bar;
//! * a grid layout engine ([`grid`]) that predicts cell sizes from the
//!   previous frame's measurements.
//!
//! All geometry is in whole pixels ([`i64`]); ratios are in per-mille.

pub mod codec;
pub mod color;
pub mod frame;
pub mod grid;
pub mod geom;
pub mod paint;
pub mod scroll;
pub mod store;
pub mod type_id;
