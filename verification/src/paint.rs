//! Drawing commands issued by the layout engines.
//!
//! This core decides *what* to paint; rasterizing is the painting backend's
//! job. Each command is plain data that the host hands to its painter.

use vstd::prelude::*;
use crate::color::Rgba;
use crate::geom::{Recti, Vec2i};

verus! {

/// One drawing command for the external painter.
#[derive(Clone, Copy, Debug, PartialEq, Eq, Structural)]
pub enum PaintCmd {
    /// Fill `rect` with `fill`, with corners rounded by `corner_radius`.
    FillRect { rect: Recti, corner_radius: i64, fill: Rgba },
    /// Stroke the border of `rect` with a line of the given width.
    StrokeRect { rect: Recti, stroke_width: i64, color: Rgba },
    /// A straight line segment from `a` to `b`.
    LineSegment { a: Vec2i, b: Vec2i, stroke_width: i64, color: Rgba },
}

} // verus!
