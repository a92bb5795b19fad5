//! Per-frame derived state: values that live for one frame only.
//!
//! The scroll-target request is a single-slot mailbox, not a queue: a
//! second `set` before the first is consumed overwrites it, the first
//! consumer clears it (so of nested scroll regions only the innermost
//! honors it), and it is reset at the start of every frame in any case.

use vstd::prelude::*;

verus! {

/// A request to bring a vertical position into view.
#[derive(Clone, Copy, Debug, PartialEq, Eq, Structural)]
pub struct ScrollTarget {
    /// The content-space y coordinate to show.
    pub target_y: i64,
    /// Where in the clip rectangle the target should land, in per-mille:
    /// `0` is the top edge, `500` the center, `1000` the bottom edge.
    pub center_per_mille: i64,
}

impl ScrollTarget {
    pub open spec fn spec_in_range(self) -> bool {
        crate::geom::in_coord(self.target_y) && 0 <= self.center_per_mille <= 1000
    }
}

/// State that is derived during one frame and cleared for the next.
pub struct FrameState {
    scroll_target: Option<ScrollTarget>,
}

impl FrameState {
    /// The pending scroll-target request, if any.
    pub closed spec fn spec_scroll_target(self) -> Option<ScrollTarget> {
        self.scroll_target
    }

    /// A fresh frame state with no pending request.
    pub fn new() -> (r: FrameState)
        ensures
            r.spec_scroll_target() is None,
    {
        FrameState { scroll_target: None }
    }

    /// Reset at the start of a new frame: a request nobody consumed last
    /// frame has expired.
    pub fn begin_frame(&mut self)
        ensures
            final(self).spec_scroll_target() is None,
    {
        self.scroll_target = None;
    }

    /// Replace the pending request; this is a mailbox, not a queue.
    pub fn set_scroll_target(&mut self, target: Option<ScrollTarget>)
        ensures
            final(self).spec_scroll_target() == target,
    {
        self.scroll_target = target;
    }

    /// The pending request, left in place.
    pub fn scroll_target(&self) -> (r: Option<ScrollTarget>)
        ensures
            r == self.spec_scroll_target(),
    {
        self.scroll_target
    }

    /// Consume the pending request: the first reader takes it and later
    /// readers in the same frame see none.
    pub fn take_scroll_target(&mut self) -> (r: Option<ScrollTarget>)
        ensures
            r == old(self).spec_scroll_target(),
            final(self).spec_scroll_target() is None,
    {
        let r = self.scroll_target;
        self.scroll_target = None;
        r
    }
}

} // verus!
