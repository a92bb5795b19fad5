//! The scrollable-region controller.
//!
//! A scroll region is driven once per frame through a fixed
//! begin → fill → end sequence. `begin` recalls last frame's
//! [`ScrollState`] from the store and computes this frame's geometry;
//! the caller fills the content; `end` measures it, applies the pending
//! scroll-target request, drag, wheel and kinetic input, clamps the
//! offset into the reachable range, decides whether the scroll bar shows,
//! emits its paint commands, and writes the updated state back.

use vstd::prelude::*;
use crate::codec::{
    decode_i64_at, encode_i64_into, lemma_i64_round_trip, spec_i64_from_le, spec_i64_to_le,
};
use crate::color::Rgba;
use crate::geom::{
    abs_i64, clamp_i64, in_coord, in_wide_coord, max_i64, min_i64, scale_i64, spec_abs,
    spec_clamp, spec_max, spec_min, spec_scale, Recti, Vec2i, MAX_COORD,
};
use crate::frame::{FrameState, ScrollTarget};
use crate::paint::PaintCmd;
use crate::store::{spec_after_get, spec_got, InstanceStore, StoreItem};

verus! {

/// The store slot key for scroll state.
pub const SCROLL_STATE_KEY: u64 = 1;

/// Largest velocity magnitude the controller tracks, in pixels per
/// second.
pub const MAX_VEL: i64 = 1_000_000;

/// Below this speed (pixels per second) kinetic scrolling snaps to a
/// stop.
pub const STOP_SPEED: i64 = 20;

/// Kinetic friction, in pixels per second squared.
pub const FRICTION_PPS2: i64 = 1000;

/// Longest frame interval the physics accepts, in milliseconds.
pub const MAX_DT_MS: i64 = 10_000;

/// What a scroll region remembers from one frame to the next.
#[derive(Clone, Copy, Debug, PartialEq, Eq, Structural)]
pub struct ScrollState {
    /// Positive offset means the content is scrolled down/right.
    pub offset: Vec2i,
    /// Whether the scroll bar was shown last frame.
    pub show_scroll: bool,
    /// Momentum for kinetic scrolling, in pixels per second. Carried
    /// across frames but not across save/load.
    pub vel: Vec2i,
}

impl View for ScrollState {
    type V = ScrollState;

    open spec fn view(&self) -> ScrollState {
        *self
    }
}

/// The magnitude of a velocity: the larger of the absolute components,
/// so that integer friction comes off it exactly.
pub open spec fn spec_speed(v: Vec2i) -> int {
    spec_max(spec_abs(v.x as int), spec_abs(v.y as int))
}

impl ScrollState {
    pub open spec fn spec_wf_state(self) -> bool {
        &&& self.offset.spec_in_range()
        &&& spec_abs(self.vel.x as int) <= MAX_VEL
        &&& spec_abs(self.vel.y as int) <= MAX_VEL
    }
}

impl StoreItem for ScrollState {
    open spec fn spec_key() -> u64 {
        SCROLL_STATE_KEY
    }

    open spec fn spec_default() -> ScrollState {
        ScrollState {
            offset: Vec2i { x: 0, y: 0 },
            show_scroll: false,
            vel: Vec2i { x: 0, y: 0 },
        }
    }

    open spec fn spec_wf_view(v: ScrollState) -> bool {
        v.spec_wf_state()
    }

    open spec fn spec_encode(v: ScrollState) -> Seq<u8> {
        spec_i64_to_le(v.offset.x) + spec_i64_to_le(v.offset.y) + spec_i64_to_le(v.vel.x)
            + spec_i64_to_le(v.vel.y) + seq![
            if v.show_scroll {
                1u8
            } else {
                0u8
            },
        ]
    }

    open spec fn spec_decode(b: Seq<u8>) -> Option<ScrollState> {
        if b.len() != 33 {
            None
        } else {
            match (
                spec_i64_from_le(b.subrange(0, 8)),
                spec_i64_from_le(b.subrange(8, 16)),
                spec_i64_from_le(b.subrange(16, 24)),
                spec_i64_from_le(b.subrange(24, 32)),
            ) {
                (Some(ox), Some(oy), Some(vx), Some(vy)) => if spec_abs(vx as int) <= MAX_VEL
                    && spec_abs(vy as int) <= MAX_VEL && (b[32] == 0u8 || b[32] == 1u8) {
                    Some(
                        ScrollState {
                            offset: Vec2i { x: ox, y: oy },
                            show_scroll: b[32] == 1u8,
                            vel: Vec2i { x: vx, y: vy },
                        },
                    )
                } else {
                    None
                },
                _ => None,
            }
        }
    }

    proof fn lemma_default_wf() {
    }

    proof fn lemma_decode_wf(b: Seq<u8>) {
    }

    proof fn lemma_round_trip(v: ScrollState) {
        let b = Self::spec_encode(v);
        lemma_i64_round_trip(v.offset.x);
        lemma_i64_round_trip(v.offset.y);
        lemma_i64_round_trip(v.vel.x);
        lemma_i64_round_trip(v.vel.y);
        assert(b.len() == 33);
        assert(b.subrange(0, 8) =~= spec_i64_to_le(v.offset.x));
        assert(b.subrange(8, 16) =~= spec_i64_to_le(v.offset.y));
        assert(b.subrange(16, 24) =~= spec_i64_to_le(v.vel.x));
        assert(b.subrange(24, 32) =~= spec_i64_to_le(v.vel.y));
        assert(b[32] == if v.show_scroll {
            1u8
        } else {
            0u8
        });
        assert(Self::spec_decode(b) matches Some(w) && w == v);
    }

    fn type_key() -> u64 {
        SCROLL_STATE_KEY
    }

    fn default_item() -> ScrollState {
        ScrollState {
            offset: Vec2i { x: 0, y: 0 },
            show_scroll: false,
            vel: Vec2i { x: 0, y: 0 },
        }
    }

    fn encode(&self) -> (b: Vec<u8>)
    {
        let mut out: Vec<u8> = Vec::new();
        encode_i64_into(&mut out, self.offset.x);
        encode_i64_into(&mut out, self.offset.y);
        encode_i64_into(&mut out, self.vel.x);
        encode_i64_into(&mut out, self.vel.y);
        out.push(
            if self.show_scroll {
                1u8
            } else {
                0u8
            },
        );
        proof {
            assert(out@ =~= Self::spec_encode(*self));
        }
        out
    }

    fn decode(b: &[u8]) -> (r: Option<ScrollState>)
    {
        if b.len() != 33 {
            return None;
        }
        let ox = match decode_i64_at(b, 0) {
            Some(x) => x,
            None => {
                return None;
            },
        };
        let oy = match decode_i64_at(b, 8) {
            Some(x) => x,
            None => {
                return None;
            },
        };
        let vx = match decode_i64_at(b, 16) {
            Some(x) => x,
            None => {
                return None;
            },
        };
        let vy = match decode_i64_at(b, 24) {
            Some(x) => x,
            None => {
                return None;
            },
        };
        let flag = b[32];
        if abs_i64(vx) > MAX_VEL || abs_i64(vy) > MAX_VEL || (flag != 0u8 && flag != 1u8) {
            return None;
        }
        Some(
            ScrollState {
                offset: Vec2i { x: ox, y: oy },
                show_scroll: flag == 1u8,
                vel: Vec2i { x: vx, y: vy },
            },
        )
    }
}

/// The friction one frame applies, in pixels per second.
pub open spec fn spec_friction(dt_ms: int) -> int {
    FRICTION_PPS2 * dt_ms / 1000
}

/// One step of kinetic decay: when the frame's friction exceeds the
/// speed, or the speed is below the stop threshold, the velocity snaps
/// to zero; otherwise each component sheds its share of the friction.
pub open spec fn spec_decay(v: Vec2i, friction: int) -> Vec2i {
    let speed = spec_speed(v);
    if friction > speed || speed < STOP_SPEED {
        Vec2i { x: 0, y: 0 }
    } else {
        Vec2i {
            x: (v.x - spec_scale(v.x as int, friction, speed)) as i64,
            y: (v.y - spec_scale(v.y as int, friction, speed)) as i64,
        }
    }
}

/// A component sheds at most its whole share and never flips sign, and
/// the dominant component sheds exactly the friction.
proof fn lemma_decay_component(a: int, f: int, s: int) by (nonlinear_arith)
    requires
        0 <= a <= s,
        1 <= f <= s,
    ensures
        0 <= a - (a * f) / s <= s - f,
        a == s ==> a - (a * f) / s == s - f,
{
}

/// The decay step is exact on the speed: while the velocity is fast
/// enough to keep moving, one frame takes exactly the frame's friction
/// off the speed.
pub proof fn lemma_decay_exact(v: Vec2i, friction: int)
    requires
        spec_abs(v.x as int) <= MAX_VEL,
        spec_abs(v.y as int) <= MAX_VEL,
        1 <= friction,
        friction <= spec_speed(v),
        spec_speed(v) >= STOP_SPEED,
    ensures
        spec_speed(spec_decay(v, friction)) == spec_speed(v) - friction,
        spec_abs(spec_decay(v, friction).x as int) <= MAX_VEL,
        spec_abs(spec_decay(v, friction).y as int) <= MAX_VEL,
{
    let s = spec_speed(v);
    let ax = spec_abs(v.x as int);
    let ay = spec_abs(v.y as int);
    lemma_decay_component(ax, friction, s);
    lemma_decay_component(ay, friction, s);
    assert(spec_abs(spec_decay(v, friction).x as int) == ax - (ax * friction) / s);
    assert(spec_abs(spec_decay(v, friction).y as int) == ay - (ay * friction) / s);
    if ax == s {
        assert(spec_abs(spec_decay(v, friction).x as int) == s - friction);
    } else {
        assert(ay == s);
        assert(spec_abs(spec_decay(v, friction).y as int) == s - friction);
    }
}

/// Once stopped, the velocity stays at exactly zero: zero speed is under
/// the stop threshold, so every further frame keeps it zero.
pub proof fn lemma_zero_stays(friction: int)
    ensures
        spec_decay(Vec2i { x: 0, y: 0 }, friction) == (Vec2i { x: 0, y: 0 }),
{
}

/// The velocity after `n` frames of fixed friction and no further input.
pub open spec fn spec_decay_n(v: Vec2i, friction: int, n: nat) -> Vec2i
    decreases n,
{
    if n == 0 {
        v
    } else {
        spec_decay(spec_decay_n(v, friction, (n - 1) as nat), friction)
    }
}

proof fn lemma_decay_n_progress(v: Vec2i, friction: int, n: nat)
    requires
        spec_abs(v.x as int) <= MAX_VEL,
        spec_abs(v.y as int) <= MAX_VEL,
        1 <= friction,
    ensures
        spec_decay_n(v, friction, n) == (Vec2i { x: 0, y: 0 }) || (spec_speed(
            spec_decay_n(v, friction, n),
        ) <= spec_speed(v) - n * friction && spec_abs(spec_decay_n(v, friction, n).x as int)
            <= MAX_VEL && spec_abs(spec_decay_n(v, friction, n).y as int) <= MAX_VEL),
    decreases n,
{
    if n > 0 {
        let prev = spec_decay_n(v, friction, (n - 1) as nat);
        lemma_decay_n_progress(v, friction, (n - 1) as nat);
        if prev == (Vec2i { x: 0, y: 0 }) {
            lemma_zero_stays(friction);
        } else {
            if friction > spec_speed(prev) || spec_speed(prev) < STOP_SPEED {
                assert(spec_decay_n(v, friction, n) == (Vec2i { x: 0, y: 0 }));
            } else {
                lemma_decay_exact(prev, friction);
                assert((n - 1) * friction + friction == n * friction) by (nonlinear_arith);
            }
        }
    }
}

/// Kinetic decay runs down to an exact stop: with a fixed per-frame
/// friction and no further input, once the frames' cumulative friction
/// exceeds the starting speed the velocity is exactly zero — and by
/// [`lemma_zero_stays`] it remains zero ever after.
pub proof fn lemma_kinetic_stops(v: Vec2i, friction: int, n: nat)
    requires
        spec_abs(v.x as int) <= MAX_VEL,
        spec_abs(v.y as int) <= MAX_VEL,
        1 <= friction,
        n * friction > spec_speed(v),
    ensures
        spec_decay_n(v, friction, n) == (Vec2i { x: 0, y: 0 }),
{
    lemma_decay_n_progress(v, friction, n);
    if spec_decay_n(v, friction, n) != (Vec2i { x: 0, y: 0 }) {
        assert(spec_speed(spec_decay_n(v, friction, n)) >= 0);
    }
}

/// One frame of kinetic decay, as executed: the new velocity, and
/// whether the animation is still running (so the next frame must be
/// repainted).
pub fn kinetic_step(vel: Vec2i, dt_ms: i64) -> (r: (Vec2i, bool))
    requires
        spec_abs(vel.x as int) <= MAX_VEL,
        spec_abs(vel.y as int) <= MAX_VEL,
        0 <= dt_ms <= MAX_DT_MS,
    ensures
        r.0 == spec_decay(vel, spec_friction(dt_ms as int)),
        r.1 == !(spec_friction(dt_ms as int) > spec_speed(vel) || spec_speed(vel) < STOP_SPEED),
        spec_abs(r.0.x as int) <= MAX_VEL,
        spec_abs(r.0.y as int) <= MAX_VEL,
{
    let friction = (FRICTION_PPS2 * dt_ms) / 1000;
    let speed = max_i64(abs_i64(vel.x), abs_i64(vel.y));
    if friction > speed || speed < STOP_SPEED {
        (Vec2i::new(0, 0), false)
    } else {
        proof {
            if friction >= 1 {
                lemma_decay_exact(vel, friction as int);
            }
        }
        let shed_x = scale_i64(vel.x, friction, speed);
        let shed_y = scale_i64(vel.y, friction, speed);
        let nv = Vec2i::new(vel.x - shed_x, vel.y - shed_y);
        proof {
            lemma_decay_component(
                spec_abs(vel.x as int),
                if friction >= 1 {
                    friction as int
                } else {
                    1
                },
                speed as int,
            );
            assert(spec_abs(nv.x as int) <= MAX_VEL && spec_abs(nv.y as int) <= MAX_VEL) by {
                assert(0 <= spec_abs(vel.x as int) * (friction as int) / (speed as int) <= spec_abs(vel.x as int))
                    by (nonlinear_arith)
                    requires
                        0 <= spec_abs(vel.x as int) <= speed,
                        0 <= friction <= speed,
                        0 < speed,
                ;
                assert(0 <= spec_abs(vel.y as int) * (friction as int) / (speed as int) <= spec_abs(vel.y as int))
                    by (nonlinear_arith)
                    requires
                        0 <= spec_abs(vel.y as int) <= speed,
                        0 <= friction <= speed,
                        0 < speed,
                ;
            }
        }
        (nv, true)
    }
}


/// Width of the scroll bar itself, before the style's item spacing is
/// added as a margin.
pub const SCROLL_BAR_BASE_WIDTH: i64 = 16;

/// Style inputs the scroll region takes from the host theme.
#[derive(Clone, Copy, Debug, PartialEq, Eq, Structural)]
pub struct ScrollStyle {
    /// Horizontal gap between items; also the scroll bar's margin.
    pub item_spacing_x: i64,
    /// How far the content clip rectangle extends past the inner
    /// rectangle.
    pub clip_rect_margin: i64,
    /// Fill of the scroll bar track.
    pub bg_fill: Rgba,
    /// Fill of the scroll bar handle.
    pub handle_fill: Rgba,
    /// Stroke color of the scroll bar handle.
    pub handle_stroke_color: Rgba,
    /// Stroke width of the scroll bar handle.
    pub handle_stroke_width: i64,
}

impl ScrollStyle {
    pub open spec fn spec_wf(self) -> bool {
        &&& 0 <= self.item_spacing_x <= 100_000
        &&& 0 <= self.clip_rect_margin <= 100_000
        &&& 0 <= self.handle_stroke_width <= 100_000
    }
}

/// The widest the scroll bar gets: its own width plus the style's item
/// spacing as a margin between it and the content.
pub fn max_scroll_bar_width_with_margin(style: &ScrollStyle) -> (r: i64)
    requires
        style.spec_wf(),
    ensures
        r == style.item_spacing_x + SCROLL_BAR_BASE_WIDTH,
{
    style.item_spacing_x + SCROLL_BAR_BASE_WIDTH
}

/// Adds vertical scrolling to a contained region.
#[derive(Clone, Copy, Debug, PartialEq, Eq, Structural)]
pub struct ScrollArea {
    /// Bound on the region's height; `None` means it may fill whatever
    /// the surrounding layout allows.
    pub max_height: Option<i64>,
    /// If `false` (the default), the scroll bar is hidden when not
    /// needed; if `true` it is always displayed.
    pub always_show_scroll: bool,
    /// An explicit source for the region's instance key.
    pub id_source: Option<u64>,
}

impl ScrollArea {
    pub open spec fn spec_wf(self) -> bool {
        self.max_height matches Some(h) ==> 0 <= h <= MAX_COORD
    }

    /// A region as high as the surrounding layout allows.
    pub fn auto_sized() -> (r: ScrollArea)
        ensures
            r.max_height is None,
            !r.always_show_scroll,
            r.id_source is None,
            r.spec_wf(),
    {
        ScrollArea { max_height: None, always_show_scroll: false, id_source: None }
    }

    /// A region at most `max_height` pixels high.
    pub fn from_max_height(max_height: i64) -> (r: ScrollArea)
        ensures
            r.max_height == Some(max_height),
            !r.always_show_scroll,
            r.id_source is None,
    {
        ScrollArea { max_height: Some(max_height), always_show_scroll: false, id_source: None }
    }

    /// If `false` (the default), the scroll bar is hidden when not
    /// needed; if `true` it is always displayed.
    pub fn always_show_scroll(self, always_show_scroll: bool) -> (r: ScrollArea)
        ensures
            r == (ScrollArea { always_show_scroll, ..self }),
    {
        ScrollArea { always_show_scroll, ..self }
    }

    /// Set an explicit source for the region's instance key, for example
    /// when several scroll regions share one parent.
    pub fn id_source(self, id_source: u64) -> (r: ScrollArea)
        ensures
            r == (ScrollArea { id_source: Some(id_source), ..self }),
    {
        ScrollArea { id_source: Some(id_source), ..self }
    }
}

/// The host-layout facts `begin` reads.
#[derive(Clone, Copy, Debug, PartialEq, Eq, Structural)]
pub struct BeginInput {
    /// Top-left corner of the space available before wrapping.
    pub avail_min: Vec2i,
    /// Available width.
    pub avail_width: i64,
    /// Available height before wrapping.
    pub avail_height: i64,
    /// The ambient clip rectangle.
    pub ambient_clip: Recti,
    /// What the animation utility returned for the bar's eased
    /// visibility, in per-mille: `0` hidden, `1000` fully shown.
    pub animated_ratio_pm: i64,
}

impl BeginInput {
    pub open spec fn spec_wf(self) -> bool {
        &&& self.avail_min.spec_in_range()
        &&& 0 <= self.avail_width <= MAX_COORD
        &&& 0 <= self.avail_height <= MAX_COORD
        &&& self.ambient_clip.spec_in_range()
        &&& 0 <= self.animated_ratio_pm <= 1000
    }
}

/// A region between `begin` and `end`: last frame's state plus this
/// frame's geometry. It must be finished by [`Prepared::end`] before the
/// enclosing scope exits.
#[derive(Clone, Copy, Debug, PartialEq, Eq, Structural)]
pub struct Prepared {
    /// The instance key the state is stored under.
    pub id: u64,
    /// Last frame's state, as recalled from the store.
    pub state: ScrollState,
    /// This frame's animated scroll bar width.
    pub current_bar_width: i64,
    /// Whether the bar is always displayed.
    pub always_show_scroll: bool,
    /// The content viewport: the outer area minus the scroll bar.
    pub inner_rect: Recti,
    /// Where the content starts: the viewport corner shifted up by the
    /// scroll offset, so scrolled-past content lies out of view.
    pub content_min: Vec2i,
    /// The clip rectangle for the content.
    pub content_clip: Recti,
}

impl Prepared {
    pub open spec fn spec_wf(self) -> bool {
        &&& self.state.spec_wf_state()
        &&& 0 <= self.current_bar_width <= 200_000
        &&& self.inner_rect.min.spec_in_range()
        &&& in_wide_coord(self.inner_rect.size.x)
        &&& 0 <= self.inner_rect.size.y <= MAX_COORD
        &&& in_wide_coord(self.content_min.x)
        &&& in_wide_coord(self.content_min.y)
        &&& -4 * MAX_COORD <= self.content_clip.min.x <= 4 * MAX_COORD
        &&& -4 * MAX_COORD <= self.content_clip.min.y <= 4 * MAX_COORD
        &&& -4 * MAX_COORD <= self.content_clip.size.x <= 4 * MAX_COORD
        &&& -4 * MAX_COORD <= self.content_clip.size.y <= 4 * MAX_COORD
    }
}

impl ScrollArea {
    /// Begin the region: recall last frame's state, compute the animated
    /// scroll bar width (`always_show_scroll` short-circuits the
    /// animation to the full width), carve the inner rectangle out of
    /// the available space, and place the content origin `offset` pixels
    /// up. The clip rectangle is the inner rectangle grown by the
    /// style's clip margin, intersected with the ambient clip, its right
    /// edge then pulled in to leave room for the bar.
    pub fn begin(
        self,
        store: &mut InstanceStore,
        id: u64,
        input: &BeginInput,
        style: &ScrollStyle,
    ) -> (p: Prepared)
        requires
            old(store).wf(),
            self.spec_wf(),
            input.spec_wf(),
            style.spec_wf(),
        ensures
            final(store).wf(),
            final(store)@ == spec_after_get::<ScrollState>(
                old(store)@,
                match self.id_source {
                    Some(s) => s,
                    None => id,
                },
            ),
            p.id == (match self.id_source {
                Some(s) => s,
                None => id,
            }),
            p.state == spec_got::<ScrollState>(old(store)@, p.id),
            p.always_show_scroll == self.always_show_scroll,
            p.current_bar_width == (if self.always_show_scroll {
                style.item_spacing_x + SCROLL_BAR_BASE_WIDTH
            } else {
                spec_scale(
                    style.item_spacing_x + SCROLL_BAR_BASE_WIDTH,
                    input.animated_ratio_pm as int,
                    1000,
                )
            }),
            p.inner_rect.min == input.avail_min,
            p.inner_rect.size.x == input.avail_width - p.current_bar_width,
            p.inner_rect.size.y == (match self.max_height {
                Some(h) => spec_min(input.avail_height as int, h as int),
                None => input.avail_height as int,
            }),
            p.content_min.x == input.avail_min.x - p.state.offset.x,
            p.content_min.y == input.avail_min.y - p.state.offset.y,
            p.content_clip.min.x == spec_max(
                input.avail_min.x - style.clip_rect_margin,
                input.ambient_clip.min.x as int,
            ),
            p.content_clip.min.y == spec_max(
                input.avail_min.y - style.clip_rect_margin,
                input.ambient_clip.min.y as int,
            ),
            p.content_clip.min.y + p.content_clip.size.y == spec_min(
                input.avail_min.y + p.inner_rect.size.y + style.clip_rect_margin,
                input.ambient_clip.spec_bottom(),
            ),
            p.content_clip.min.x + p.content_clip.size.x == input.ambient_clip.spec_right()
                - p.current_bar_width,
            p.spec_wf(),
    {
        let eff_id = match self.id_source {
            Some(s) => s,
            None => id,
        };
        let state = store.get_or_default::<ScrollState>(eff_id);
        let max_bar = max_scroll_bar_width_with_margin(style);
        let current_bar_width = if self.always_show_scroll {
            max_bar
        } else {
            scale_i64(max_bar, input.animated_ratio_pm, 1000)
        };
        proof {
            assert(current_bar_width >= 0) by (nonlinear_arith)
                requires
                    current_bar_width == spec_scale(
                        (style.item_spacing_x + SCROLL_BAR_BASE_WIDTH) as int,
                        input.animated_ratio_pm as int,
                        1000,
                    ) || current_bar_width == style.item_spacing_x + SCROLL_BAR_BASE_WIDTH,
                    0 <= style.item_spacing_x,
                    0 <= input.animated_ratio_pm,
            ;
        }
        let inner_w = input.avail_width - current_bar_width;
        let inner_h = match self.max_height {
            Some(h) => min_i64(input.avail_height, h),
            None => input.avail_height,
        };
        let inner_rect = Recti::from_min_size(input.avail_min, Vec2i::new(inner_w, inner_h));
        let content_min = Vec2i::new(
            input.avail_min.x - state.offset.x,
            input.avail_min.y - state.offset.y,
        );
        let clip_min_x = max_i64(
            input.avail_min.x - style.clip_rect_margin,
            input.ambient_clip.min.x,
        );
        let clip_min_y = max_i64(
            input.avail_min.y - style.clip_rect_margin,
            input.ambient_clip.min.y,
        );
        let clip_bottom = min_i64(
            input.avail_min.y + inner_h + style.clip_rect_margin,
            input.ambient_clip.bottom(),
        );
        let clip_right = input.ambient_clip.right() - current_bar_width;
        let content_clip = Recti::from_min_size(
            Vec2i::new(clip_min_x, clip_min_y),
            Vec2i::new(clip_right - clip_min_x, clip_bottom - clip_min_y),
        );
        Prepared {
            id: eff_id,
            state,
            current_bar_width,
            always_show_scroll: self.always_show_scroll,
            inner_rect,
            content_min,
            content_clip,
        }
    }
}


/// The input facts `end` reads for one frame.
#[derive(Clone, Copy, Debug, PartialEq, Eq, Structural)]
pub struct ScrollInput {
    /// A drag gesture is active over the content (touch scrolling).
    pub content_dragged: bool,
    /// This frame's pointer delta along y.
    pub drag_delta_y: i64,
    /// This frame's pointer velocity, in pixels per second.
    pub drag_velocity: Vec2i,
    /// This frame's duration, in milliseconds.
    pub dt_ms: i64,
    /// The pointer is over the region's outer rectangle.
    pub pointer_over_outer: bool,
    /// This frame's wheel delta along y.
    pub wheel_delta_y: i64,
    /// A click-or-drag interaction is active over the scroll bar track.
    pub bar_dragged: bool,
    /// Where the pointer is, if anywhere.
    pub pointer_pos: Option<Vec2i>,
    /// What the animation utility returns for a bar forced visible this
    /// frame, in per-mille: used to skip the one-frame pop-in on a cold
    /// start.
    pub cold_start_ratio_pm: i64,
}

impl ScrollInput {
    pub open spec fn spec_wf(self) -> bool {
        &&& in_coord(self.drag_delta_y)
        &&& spec_abs(self.drag_velocity.x as int) <= MAX_VEL
        &&& spec_abs(self.drag_velocity.y as int) <= MAX_VEL
        &&& 0 <= self.dt_ms <= MAX_DT_MS
        &&& in_coord(self.wheel_delta_y)
        &&& (self.pointer_pos matches Some(p) ==> p.spec_in_range())
        &&& 0 <= self.cold_start_ratio_pm <= 1000
    }
}

/// Map a content-space y coordinate into the scroll bar track: `0` lands
/// at `top`, `ch` at `top + inner_h`, clamped into the track.
pub open spec fn spec_from_content(top: int, inner_h: int, y: int, ch: int) -> int {
    if ch > 0 {
        top + spec_scale(inner_h, spec_clamp(y, 0, ch), ch)
    } else {
        top
    }
}

fn from_content_y(top: i64, inner_h: i64, y: i64, ch: i64) -> (r: i64)
    requires
        in_coord(top),
        0 <= inner_h <= MAX_COORD,
        0 <= ch <= MAX_COORD,
    ensures
        r == spec_from_content(top as int, inner_h as int, y as int, ch as int),
        top <= r <= top + inner_h,
{
    if ch > 0 {
        let c = clamp_i64(y, 0, ch);
        let s = scale_i64(inner_h, c, ch);
        proof {
            assert(0 <= (inner_h as int * c as int) / (ch as int) <= inner_h as int)
                by (nonlinear_arith)
                requires
                    0 <= inner_h,
                    0 <= c <= ch,
                    0 < ch,
            ;
        }
        top + s
    } else {
        top
    }
}

/// The offset along y after an applied scroll-target request: bring
/// `target_y` to the chosen ratio of the clip height below the top of
/// the clip, measuring from the content origin. Without a request the
/// stored offset stands.
pub open spec fn spec_target_off(p: Prepared, target: Option<ScrollTarget>) -> int {
    match target {
        Some(t) => t.target_y - p.content_min.y - spec_scale(
            spec_clamp(p.content_clip.size.y as int, 0, MAX_COORD as int),
            t.center_per_mille as int,
            1000,
        ),
        None => p.state.offset.y as int,
    }
}

/// Is the content too tall for the viewport, so that drag, kinetics and
/// the scroll bar apply?
pub open spec fn spec_too_small(p: Prepared, content_size: Vec2i) -> bool {
    content_size.y > p.inner_rect.size.y
}

/// The offset after this frame's drag or kinetic motion.
pub open spec fn spec_off_after_motion(
    p: Prepared,
    content_size: Vec2i,
    inp: ScrollInput,
    off1: int,
) -> int {
    if spec_too_small(p, content_size) {
        if inp.content_dragged {
            off1 - inp.drag_delta_y
        } else {
            let f = spec_friction(inp.dt_ms as int);
            if f > spec_speed(p.state.vel) || spec_speed(p.state.vel) < STOP_SPEED {
                off1
            } else {
                off1 - spec_scale(spec_decay(p.state.vel, f).y as int, inp.dt_ms as int, 1000)
            }
        }
    } else {
        off1
    }
}

/// The velocity after this frame: the pointer's while dragging, decayed
/// while coasting, untouched when the content fits.
pub open spec fn spec_vel_after_motion(p: Prepared, content_size: Vec2i, inp: ScrollInput) -> Vec2i {
    if spec_too_small(p, content_size) {
        if inp.content_dragged {
            inp.drag_velocity
        } else {
            spec_decay(p.state.vel, spec_friction(inp.dt_ms as int))
        }
    } else {
        p.state.vel
    }
}

/// Is the kinetic animation still running, so the next frame must be
/// repainted?
pub open spec fn spec_motion_repaint(p: Prepared, content_size: Vec2i, inp: ScrollInput) -> bool {
    spec_too_small(p, content_size) && !inp.content_dragged && !(spec_friction(inp.dt_ms as int)
        > spec_speed(p.state.vel) || spec_speed(p.state.vel) < STOP_SPEED)
}

/// The offset after wheel input, which applies whenever the pointer is
/// over the region.
pub open spec fn spec_off_after_wheel(inp: ScrollInput, off2: int) -> int {
    if inp.pointer_over_outer {
        off2 - inp.wheel_delta_y
    } else {
        off2
    }
}

/// Should the scroll bar be shown this frame?
pub open spec fn spec_show(p: Prepared, content_size: Vec2i) -> bool {
    spec_too_small(p, content_size) || p.always_show_scroll
}

/// This frame's effective bar width: on a cold start (the bar should
/// show but the eased width is still zero) the animation is skipped
/// forward rather than waiting a frame.
pub open spec fn spec_bar_width(
    p: Prepared,
    content_size: Vec2i,
    inp: ScrollInput,
    st: ScrollStyle,
) -> int {
    if spec_show(p, content_size) && p.current_bar_width <= 0 {
        spec_scale(
            st.item_spacing_x + SCROLL_BAR_BASE_WIDTH,
            inp.cold_start_ratio_pm as int,
            1000,
        )
    } else {
        p.current_bar_width as int
    }
}

/// The inner width, grown to fit the content.
pub open spec fn spec_inner_w_exp(p: Prepared, content_size: Vec2i) -> int {
    spec_max(p.inner_rect.size.x as int, content_size.x as int)
}

/// Left edge of the scroll bar track: content right edge plus the
/// animated margin.
pub open spec fn spec_bar_left(p: Prepared, content_size: Vec2i, inp: ScrollInput, st: ScrollStyle) -> int {
    p.inner_rect.min.x + spec_inner_w_exp(p, content_size) + spec_min(
        spec_scale(
            st.item_spacing_x as int,
            spec_bar_width(p, content_size, inp, st),
            st.item_spacing_x + SCROLL_BAR_BASE_WIDTH,
        ),
        st.item_spacing_x as int,
    )
}

/// Right edge of the scroll bar track: the outer rectangle's right edge.
pub open spec fn spec_bar_right(p: Prepared, content_size: Vec2i) -> int {
    p.inner_rect.min.x + spec_inner_w_exp(p, content_size) + p.current_bar_width
}

/// The offset after scroll bar interaction and the bar pass's own clamp;
/// without a visible bar the offset passes through.
pub open spec fn spec_off_after_bar(
    p: Prepared,
    content_size: Vec2i,
    inp: ScrollInput,
    st: ScrollStyle,
    off3: int,
) -> int {
    if spec_bar_width(p, content_size, inp, st) > 0 {
        let ch = content_size.y as int;
        let inner_h = p.inner_rect.size.y as int;
        let top = p.inner_rect.min.y as int;
        let bottom = top + inner_h;
        let left = spec_bar_left(p, content_size, inp, st);
        let right = spec_bar_right(p, content_size);
        let h_top = spec_from_content(top, inner_h, off3, ch);
        let h_bot = spec_from_content(top, inner_h, off3 + inner_h, ch);
        let off4 = if inp.bar_dragged && inp.pointer_pos is Some {
            let mp = inp.pointer_pos->0;
            if left <= mp.x <= right && h_top <= mp.y <= h_bot {
                if top <= mp.y <= bottom && inner_h > 0 {
                    off3 + spec_scale(inp.drag_delta_y as int, ch, inner_h)
                } else {
                    off3
                }
            } else {
                if bottom > top {
                    let mpos_top = mp.y - spec_scale(h_bot - h_top, 1, 2);
                    spec_scale(mpos_top - top, ch, bottom - top)
                } else {
                    off3
                }
            }
        } else {
            off3
        };
        spec_min(spec_max(off4, 0), ch - inner_h)
    } else {
        off3
    }
}

/// The offset the frame ends with: whatever the interactions produced,
/// clamped into the reachable range `[0, max(0, content − viewport)]`.
pub open spec fn spec_final_off(
    p: Prepared,
    content_size: Vec2i,
    inp: ScrollInput,
    target: Option<ScrollTarget>,
    st: ScrollStyle,
) -> int {
    let off1 = spec_target_off(p, target);
    let off2 = spec_off_after_motion(p, content_size, inp, off1);
    let off3 = spec_off_after_wheel(inp, off2);
    let off5 = spec_off_after_bar(p, content_size, inp, st, off3);
    spec_clamp(off5, 0, content_size.y - p.inner_rect.size.y)
}

/// The state written back to the store at the end of the frame.
pub open spec fn spec_end_state(
    p: Prepared,
    content_size: Vec2i,
    inp: ScrollInput,
    target: Option<ScrollTarget>,
    st: ScrollStyle,
) -> ScrollState {
    ScrollState {
        offset: Vec2i {
            x: p.state.offset.x,
            y: spec_final_off(p, content_size, inp, target, st) as i64,
        },
        show_scroll: spec_show(p, content_size),
        vel: spec_vel_after_motion(p, content_size, inp),
    }
}

/// Does the frame request a repaint: either the kinetic animation has
/// not settled, or the bar's shown/hidden decision flipped and its
/// animation needs another frame.
pub open spec fn spec_end_repaint(p: Prepared, content_size: Vec2i, inp: ScrollInput) -> bool {
    spec_motion_repaint(p, content_size, inp) || spec_show(p, content_size)
        != p.state.show_scroll
}

/// The offset reached after target, motion and wheel input, before the
/// scroll bar pass.
pub open spec fn spec_off3(
    p: Prepared,
    content_size: Vec2i,
    inp: ScrollInput,
    target: Option<ScrollTarget>,
) -> int {
    spec_off_after_wheel(
        inp,
        spec_off_after_motion(p, content_size, inp, spec_target_off(p, target)),
    )
}

/// The track and handle commands the bar paints, given the offset the
/// bar pass starts from; empty when the bar is not visible. The handle
/// is recomputed from the clamped offset (no one-frame lag), floored to
/// a usable minimum height, and drawn inset by two pixels.
pub open spec fn spec_bar_paints_at(
    p: Prepared,
    content_size: Vec2i,
    inp: ScrollInput,
    st: ScrollStyle,
    off3: int,
) -> Seq<PaintCmd> {
    let bar_w = spec_bar_width(p, content_size, inp, st);
    if bar_w > 0 {
        let ch = content_size.y as int;
        let inner_h = p.inner_rect.size.y as int;
        let top = p.inner_rect.min.y as int;
        let bottom = top + inner_h;
        let left = spec_bar_left(p, content_size, inp, st);
        let right = spec_bar_right(p, content_size);
        let corner = spec_scale(right - left, 1, 2);
        let off5 = spec_off_after_bar(p, content_size, inp, st, off3);
        let h_top = spec_from_content(top, inner_h, off5, ch);
        let h_bot = spec_from_content(top, inner_h, off5 + inner_h, ch);
        let min_handle = spec_max(2 * corner, 8);
        let centered = h_bot - h_top < min_handle;
        let hf_top = if centered {
            spec_scale(h_top + h_bot, 1, 2) - min_handle / 2
        } else {
            h_top
        };
        let hf_bot = if centered {
            hf_top + min_handle
        } else {
            h_bot
        };
        seq![
            PaintCmd::FillRect {
                rect: Recti {
                    min: Vec2i { x: left as i64, y: top as i64 },
                    size: Vec2i { x: (right - left) as i64, y: (bottom - top) as i64 },
                },
                corner_radius: corner as i64,
                fill: st.bg_fill,
            },
            PaintCmd::FillRect {
                rect: Recti {
                    min: Vec2i { x: (left + 2) as i64, y: (hf_top + 2) as i64 },
                    size: Vec2i {
                        x: (right - left - 4) as i64,
                        y: (hf_bot - hf_top - 4) as i64,
                    },
                },
                corner_radius: corner as i64,
                fill: st.handle_fill,
            },
            PaintCmd::StrokeRect {
                rect: Recti {
                    min: Vec2i { x: (left + 2) as i64, y: (hf_top + 2) as i64 },
                    size: Vec2i {
                        x: (right - left - 4) as i64,
                        y: (hf_bot - hf_top - 4) as i64,
                    },
                },
                stroke_width: st.handle_stroke_width,
                color: st.handle_stroke_color,
            },
        ]
    } else {
        Seq::empty()
    }
}

/// The bar's paint commands for the frame.
pub open spec fn spec_bar_paints(
    p: Prepared,
    content_size: Vec2i,
    inp: ScrollInput,
    target: Option<ScrollTarget>,
    st: ScrollStyle,
) -> Seq<PaintCmd> {
    spec_bar_paints_at(p, content_size, inp, st, spec_off3(p, content_size, inp, target))
}

/// What `end` hands back to the host.
pub struct ScrollOutput {
    /// The state written to the store; also next frame's starting state.
    pub state: ScrollState,
    /// Scroll bar paint commands, in back-to-front order.
    pub paints: Vec<PaintCmd>,
    /// The outer size the region occupies in the host layout.
    pub allocated: Vec2i,
    /// Whether another frame is needed before the region is settled.
    pub repaint: bool,
}

/// The scroll bar pass: interact with the track and handle, clamp the
/// offset, and emit the track and handle commands.
#[verifier::rlimit(100)]
fn bar_pass(
    p: &Prepared,
    content_size: Vec2i,
    input: &ScrollInput,
    style: &ScrollStyle,
    off3: i64,
    bar_w: i64,
    inner_w_exp: i64,
) -> (r: (i64, Vec<PaintCmd>))
    requires
        p.spec_wf(),
        style.spec_wf(),
        input.spec_wf(),
        0 <= content_size.x <= MAX_COORD,
        0 <= content_size.y <= MAX_COORD,
        -8 * MAX_COORD <= off3 <= 8 * MAX_COORD,
        bar_w == spec_bar_width(*p, content_size, *input, *style),
        0 < bar_w <= 200_000,
        inner_w_exp == spec_inner_w_exp(*p, content_size),
    ensures
        r.0 == spec_off_after_bar(*p, content_size, *input, *style, off3 as int),
        -MAX_COORD <= r.0 <= MAX_COORD,
        r.1@ == spec_bar_paints_at(*p, content_size, *input, *style, off3 as int),
{
    let ch = content_size.y;
    let inner_h = p.inner_rect.size.y;
    let top = p.inner_rect.min.y;
    let bottom = top + inner_h;
    let max_bar = max_scroll_bar_width_with_margin(style);
    let margin = min_i64(scale_i64(style.item_spacing_x, bar_w, max_bar), style.item_spacing_x);
    let left = p.inner_rect.min.x + inner_w_exp + margin;
    let right = p.inner_rect.min.x + inner_w_exp + p.current_bar_width;
    let corner = scale_i64(right - left, 1, 2);
    let h_top = from_content_y(top, inner_h, off3, ch);
    let h_bot = from_content_y(top, inner_h, off3 + inner_h, ch);
    let mut off4: i64 = off3;
    if input.bar_dragged {
        match input.pointer_pos {
            Some(mp) => {
                if left <= mp.x && mp.x <= right && h_top <= mp.y && mp.y <= h_bot {
                    if top <= mp.y && mp.y <= bottom && inner_h > 0 {
                        off4 = off3 + scale_i64(input.drag_delta_y, ch, inner_h);
                    }
                } else {
                    if bottom > top {
                        let mpos_top = mp.y - scale_i64(h_bot - h_top, 1, 2);
                        off4 = scale_i64(mpos_top - top, ch, bottom - top);
                    }
                }
            },
            None => {},
        }
    }
    let off5 = min_i64(max_i64(off4, 0), ch - inner_h);
    let h2_top = from_content_y(top, inner_h, off5, ch);
    let h2_bot = from_content_y(top, inner_h, off5 + inner_h, ch);
    let min_handle = max_i64(2 * corner, 8);
    let centered = h2_bot - h2_top < min_handle;
    let hf_top = if centered {
        scale_i64(h2_top + h2_bot, 1, 2) - min_handle / 2
    } else {
        h2_top
    };
    let hf_bot = if centered {
        hf_top + min_handle
    } else {
        h2_bot
    };
    let mut paints: Vec<PaintCmd> = Vec::new();
    paints.push(
        PaintCmd::FillRect {
            rect: Recti::from_min_size(
                Vec2i::new(left, top),
                Vec2i::new(right - left, bottom - top),
            ),
            corner_radius: corner,
            fill: style.bg_fill,
        },
    );
    paints.push(
        PaintCmd::FillRect {
            rect: Recti::from_min_size(
                Vec2i::new(left + 2, hf_top + 2),
                Vec2i::new(right - left - 4, hf_bot - hf_top - 4),
            ),
            corner_radius: corner,
            fill: style.handle_fill,
        },
    );
    paints.push(
        PaintCmd::StrokeRect {
            rect: Recti::from_min_size(
                Vec2i::new(left + 2, hf_top + 2),
                Vec2i::new(right - left - 4, hf_bot - hf_top - 4),
            ),
            stroke_width: style.handle_stroke_width,
            color: style.handle_stroke_color,
        },
    );
    proof {
        assert(paints@ =~= spec_bar_paints_at(*p, content_size, *input, *style, off3 as int));
    }
    (off5, paints)
}

impl Prepared {
    /// Finish the region for this frame: consume a pending scroll-target
    /// request, apply drag, kinetic and wheel input, run the scroll bar
    /// interaction, clamp the offset into the reachable range, and write
    /// the updated state back to the store.
    #[verifier::rlimit(100)]
    pub fn end(
        self,
        store: &mut InstanceStore,
        frame: &mut FrameState,
        content_size: Vec2i,
        input: &ScrollInput,
        style: &ScrollStyle,
    ) -> (out: ScrollOutput)
        requires
            self.spec_wf(),
            old(store).wf(),
            style.spec_wf(),
            input.spec_wf(),
            0 <= content_size.x <= MAX_COORD,
            0 <= content_size.y <= MAX_COORD,
            old(frame).spec_scroll_target() matches Some(t) ==> t.spec_in_range(),
        ensures
            final(store).wf(),
            out.state == spec_end_state(
                self,
                content_size,
                *input,
                old(frame).spec_scroll_target(),
                *style,
            ),
            0 <= out.state.offset.y <= spec_max(
                content_size.y - self.inner_rect.size.y,
                0,
            ),
            out.state.show_scroll == spec_show(self, content_size),
            out.state.spec_wf_state(),
            final(frame).spec_scroll_target() is None,
            final(store)@ == old(store)@.insert(
                self.id,
                (SCROLL_STATE_KEY, ScrollState::spec_encode(out.state)),
            ),
            out.repaint == spec_end_repaint(self, content_size, *input),
            out.paints@ == spec_bar_paints(
                self,
                content_size,
                *input,
                old(frame).spec_scroll_target(),
                *style,
            ),
            out.allocated.x == spec_inner_w_exp(self, content_size) + self.current_bar_width,
            out.allocated.y == spec_min(
                self.inner_rect.size.y as int,
                content_size.y as int,
            ),
    {
        let ghost target0 = old(frame).spec_scroll_target();
        let inner_h = self.inner_rect.size.y;
        let ch = content_size.y;
        let content_too_small = ch > inner_h;

        // Scroll-target request: the first consumer takes it, so nested
        // outer regions do not also honor it.
        let target = frame.take_scroll_target();
        let off1: i64 = match target {
            Some(t) => {
                let clip_h = clamp_i64(self.content_clip.size.y, 0, MAX_COORD);
                let height_offset = scale_i64(clip_h, t.center_per_mille, 1000);
                t.target_y - self.content_min.y - height_offset
            },
            None => self.state.offset.y,
        };
        proof {
            assert(off1 == spec_target_off(self, target0));
            assert(-4 * MAX_COORD <= off1 <= 4 * MAX_COORD);
        }

        // Drag and kinetic motion.
        let mut off2: i64 = off1;
        let mut vel2: Vec2i = self.state.vel;
        let mut kin_repaint = false;
        if content_too_small {
            if input.content_dragged {
                off2 = off1 - input.drag_delta_y;
                vel2 = input.drag_velocity;
            } else {
                let (nv, moving) = kinetic_step(self.state.vel, input.dt_ms);
                vel2 = nv;
                kin_repaint = moving;
                if moving {
                    let shed = scale_i64(nv.y, input.dt_ms, 1000);
                    proof {
                        assert(spec_abs(shed as int) <= MAX_COORD) by (nonlinear_arith)
                            requires
                                spec_abs(shed as int) <= spec_abs(nv.y as int) * (
                                input.dt_ms as int) / 1000,
                                spec_abs(nv.y as int) <= MAX_VEL,
                                0 <= input.dt_ms <= MAX_DT_MS,
                        ;
                    }
                    off2 = off1 - shed;
                }
            }
        }
        proof {
            assert(off2 == spec_off_after_motion(self, content_size, *input, off1 as int));
            assert(vel2 == spec_vel_after_motion(self, content_size, *input));
            assert(kin_repaint == spec_motion_repaint(self, content_size, *input));
            assert(-6 * MAX_COORD <= off2 <= 6 * MAX_COORD);
        }

        // Wheel input.
        let off3: i64 = if input.pointer_over_outer {
            off2 - input.wheel_delta_y
        } else {
            off2
        };
        proof {
            assert(off3 == spec_off3(self, content_size, *input, target0));
        }

        // Show decision and cold-start width.
        let show = content_too_small || self.always_show_scroll;
        let max_bar = max_scroll_bar_width_with_margin(style);
        let bar_w: i64 = if show && self.current_bar_width <= 0 {
            scale_i64(max_bar, input.cold_start_ratio_pm, 1000)
        } else {
            self.current_bar_width
        };
        proof {
            assert(bar_w == spec_bar_width(self, content_size, *input, *style));
        }

        // Scroll bar interaction and paints.
        let inner_w_exp = max_i64(self.inner_rect.size.x, content_size.x);
        let mut off5: i64 = off3;
        let mut paints: Vec<PaintCmd> = Vec::new();
        if bar_w > 0 {
            let (o, cmds) = bar_pass(&self, content_size, input, style, off3, bar_w, inner_w_exp);
            off5 = o;
            paints = cmds;
        }

        // Final defensive clamp: the content size may have changed since
        // the interactions ran.
        let off_final = clamp_i64(off5, 0, ch - inner_h);
        let new_state = ScrollState {
            offset: Vec2i::new(self.state.offset.x, off_final),
            show_scroll: show,
            vel: vel2,
        };
        proof {
            assert(new_state == spec_end_state(self, content_size, *input, target0, *style));
        }
        store.insert::<ScrollState>(self.id, &new_state);
        let repaint = kin_repaint || (show != self.state.show_scroll);
        ScrollOutput {
            state: new_state,
            paints,
            allocated: Vec2i::new(inner_w_exp + self.current_bar_width, min_i64(inner_h, ch)),
            repaint,
        }
    }
}

} // verus!
