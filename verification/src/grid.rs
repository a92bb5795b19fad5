//! The grid layout engine.
//!
//! A grid cannot know a cell's size until the cell has been filled, so it
//! offers each cell a rectangle predicted from the previous frame's
//! measurements, records the truth afterwards, and persists the recorded
//! sizes for the next frame. Within a frame the recorded widths and heights
//! only grow (each index keeps the maximum measurement seen); at the end of
//! the frame they replace the stored state wholesale.

use vstd::prelude::*;
use crate::codec::{
    decode_i64_at, decode_i64s_at, encode_i64_into, encode_i64s_into, lemma_i64_round_trip,
    lemma_i64s_len, lemma_i64s_round_trip, spec_i64_from_le, spec_i64_to_le, spec_i64s_from_le,
    spec_i64s_to_le,
};
use crate::color::{GuiColor, Rgba};
use crate::geom::{in_coord, max_i64, min_i64, spec_max, spec_min, Recti, Vec2i, MAX_COORD};
use crate::paint::PaintCmd;
use crate::store::{spec_after_get, spec_got, InstanceStore, StoreItem};

verus! {

/// Largest width or height one cell, one spacing step, or one minimum cell
/// size may have, in pixels.
pub const MAX_DIM: i64 = 100_000;

/// Largest number of columns or rows a grid may track.
pub const MAX_TRACKS: usize = 4096;

/// Every entry of `s` is a cell dimension: between `0` and [`MAX_DIM`].
pub open spec fn all_dims(s: Seq<i64>) -> bool {
    forall|i: int| 0 <= i < s.len() ==> 0 <= #[trigger] s[i] <= MAX_DIM
}

/// The sum of a sequence of dimensions.
pub open spec fn spec_sum(s: Seq<i64>) -> int
    decreases s.len(),
{
    if s.len() == 0 {
        0
    } else {
        spec_sum(s.drop_last()) + s.last()
    }
}

/// A dimension sum is bounded by one maximal entry per item.
pub proof fn lemma_sum_bounds(s: Seq<i64>)
    requires
        all_dims(s),
    ensures
        0 <= spec_sum(s) <= s.len() * MAX_DIM,
    decreases s.len(),
{
    if s.len() > 0 {
        lemma_sum_bounds(s.drop_last());
        assert((s.len() - 1) * MAX_DIM + MAX_DIM == s.len() * MAX_DIM) by (nonlinear_arith);
    }
}

/// `s` grown to cover index `i` (new entries are zero) with entry `i`
/// raised to at least `v`: the recording step of the grid's
/// measure-and-remember pass.
pub open spec fn spec_set_min(s: Seq<i64>, i: int, v: i64) -> Seq<i64> {
    let grown = if s.len() >= i + 1 {
        s
    } else {
        s + Seq::new((i + 1 - s.len()) as nat, |_j: int| 0i64)
    };
    grown.update(i, spec_max(grown[i] as int, v as int) as i64)
}

/// Recording a measurement never shrinks the tracked sequence: every index
/// already present keeps at least its old value. This is the grid's
/// within-frame monotonicity.
pub proof fn lemma_record_monotone(s: Seq<i64>, i: int, v: i64, j: int)
    requires
        0 <= i,
        0 <= j < s.len(),
    ensures
        spec_set_min(s, i, v).len() >= s.len(),
        spec_set_min(s, i, v)[j] >= s[j],
{
}

/// The recorded value at `i` is at least the measurement `v`: a frame's
/// final width for a column is at least every width measured for it.
pub proof fn lemma_record_dominates(s: Seq<i64>, i: int, v: i64)
    requires
        0 <= i,
    ensures
        spec_set_min(s, i, v).len() >= i + 1,
        spec_set_min(s, i, v)[i] >= v,
{
}

/// Sizes a grid remembered from one frame to predict the next.
#[derive(Debug)]
pub struct GridState {
    /// Per column, the widest cell observed, in pixels.
    pub col_widths: Vec<i64>,
    /// Per row, the tallest cell observed, in pixels.
    pub row_heights: Vec<i64>,
}

impl PartialEq for GridState {
    fn eq(&self, other: &GridState) -> (r: bool) {
        let cw = self.col_widths == other.col_widths;
        let rh = self.row_heights == other.row_heights;
        proof {
            if cw {
                assert(self.col_widths@ =~= other.col_widths@);
            }
            if rh {
                assert(self.row_heights@ =~= other.row_heights@);
            }
        }
        cw && rh
    }
}

impl vstd::std_specs::cmp::PartialEqSpecImpl for GridState {
    open spec fn obeys_eq_spec() -> bool {
        true
    }

    open spec fn eq_spec(&self, other: &GridState) -> bool {
        self.col_widths@ == other.col_widths@ && self.row_heights@ == other.row_heights@
    }
}

impl GridState {
    /// Both tracks are bounded in count and in entry size.
    pub open spec fn spec_wf_state(self) -> bool {
        &&& self.col_widths@.len() <= MAX_TRACKS
        &&& self.row_heights@.len() <= MAX_TRACKS
        &&& all_dims(self.col_widths@)
        &&& all_dims(self.row_heights@)
    }

    /// A grid that has observed nothing.
    pub fn new_empty() -> (r: GridState)
        ensures
            r.col_widths@ == Seq::<i64>::empty(),
            r.row_heights@ == Seq::<i64>::empty(),
            r.spec_wf_state(),
    {
        GridState { col_widths: Vec::new(), row_heights: Vec::new() }
    }

    /// Raise the recorded width of `col` to at least `width`, growing the
    /// track with zero-width columns if `col` is new.
    pub fn set_min_col_width(&mut self, col: usize, width: i64)
        requires
            old(self).spec_wf_state(),
            col < MAX_TRACKS,
            0 <= width <= MAX_DIM,
        ensures
            final(self).spec_wf_state(),
            final(self).col_widths@ == spec_set_min(old(self).col_widths@, col as int, width),
            final(self).row_heights@ == old(self).row_heights@,
    {
        if self.col_widths.len() < col + 1 {
            self.col_widths.resize(col + 1, 0i64);
        }
        let cur = self.col_widths[col];
        let newv = if cur >= width {
            cur
        } else {
            width
        };
        self.col_widths.set(col, newv);
        proof {
            let s = old(self).col_widths@;
            let grown = if s.len() >= col + 1 {
                s
            } else {
                s + Seq::new((col + 1 - s.len()) as nat, |_j: int| 0i64)
            };
            assert(self.col_widths@ =~= grown.update(
                col as int,
                spec_max(grown[col as int] as int, width as int) as i64,
            ));
        }
    }

    /// Raise the recorded height of `row` to at least `height`.
    pub fn set_min_row_height(&mut self, row: usize, height: i64)
        requires
            old(self).spec_wf_state(),
            row < MAX_TRACKS,
            0 <= height <= MAX_DIM,
        ensures
            final(self).spec_wf_state(),
            final(self).row_heights@ == spec_set_min(old(self).row_heights@, row as int, height),
            final(self).col_widths@ == old(self).col_widths@,
    {
        if self.row_heights.len() < row + 1 {
            self.row_heights.resize(row + 1, 0i64);
        }
        let cur = self.row_heights[row];
        let newv = if cur >= height {
            cur
        } else {
            height
        };
        self.row_heights.set(row, newv);
        proof {
            let s = old(self).row_heights@;
            let grown = if s.len() >= row + 1 {
                s
            } else {
                s + Seq::new((row + 1 - s.len()) as nat, |_j: int| 0i64)
            };
            assert(self.row_heights@ =~= grown.update(
                row as int,
                spec_max(grown[row as int] as int, height as int) as i64,
            ));
        }
    }

    /// The number of columns observed so far.
    pub fn cols(&self) -> (r: usize)
        ensures
            r == self.col_widths@.len(),
    {
        self.col_widths.len()
    }

    /// The number of rows observed so far.
    pub fn rows(&self) -> (r: usize)
        ensures
            r == self.row_heights@.len(),
    {
        self.row_heights.len()
    }

    /// The recorded width of `col`, if that column has been observed.
    pub fn col_width(&self, col: usize) -> (r: Option<i64>)
        ensures
            r == if col < self.col_widths@.len() {
                Some(self.col_widths@[col as int])
            } else {
                None::<i64>
            },
    {
        if col < self.col_widths.len() {
            Some(self.col_widths[col])
        } else {
            None
        }
    }

    /// The recorded height of `row`, if that row has been observed.
    pub fn row_height(&self, row: usize) -> (r: Option<i64>)
        ensures
            r == if row < self.row_heights@.len() {
                Some(self.row_heights@[row as int])
            } else {
                None::<i64>
            },
    {
        if row < self.row_heights.len() {
            Some(self.row_heights[row])
        } else {
            None
        }
    }

    /// The width of the whole grid: all recorded columns plus the spacing
    /// between them.
    pub fn full_width(&self, x_spacing: i64) -> (r: i64)
        requires
            self.spec_wf_state(),
            0 <= x_spacing <= MAX_DIM,
        ensures
            r == spec_sum(self.col_widths@) + spec_max(self.col_widths@.len() as int, 1) * x_spacing
                - x_spacing,
            0 <= r + x_spacing,
            r <= MAX_COORD,
    {
        proof {
            lemma_sum_bounds(self.col_widths@);
            assert(self.col_widths@.len() * MAX_DIM <= MAX_TRACKS * MAX_DIM) by (nonlinear_arith)
                requires
                    self.col_widths@.len() <= MAX_TRACKS,
            ;
            assert(self.col_widths@.len() * x_spacing <= MAX_TRACKS * MAX_DIM) by (nonlinear_arith)
                requires
                    self.col_widths@.len() <= MAX_TRACKS,
                    0 <= x_spacing <= MAX_DIM,
            ;
            assert(0 <= self.col_widths@.len() * x_spacing) by (nonlinear_arith)
                requires
                    0 <= x_spacing,
            ;
        }
        let n = self.col_widths.len();
        let lanes: i64 = if n >= 1 {
            n as i64
        } else {
            1
        };
        sum_dims(&self.col_widths) + lanes * x_spacing - x_spacing
    }

    /// The height of the whole grid: all recorded rows plus the spacing
    /// between them.
    pub fn full_height(&self, y_spacing: i64) -> (r: i64)
        requires
            self.spec_wf_state(),
            0 <= y_spacing <= MAX_DIM,
        ensures
            r == spec_sum(self.row_heights@) + spec_max(self.row_heights@.len() as int, 1)
                * y_spacing - y_spacing,
            0 <= r + y_spacing,
            r <= MAX_COORD,
    {
        proof {
            lemma_sum_bounds(self.row_heights@);
            assert(self.row_heights@.len() * MAX_DIM <= MAX_TRACKS * MAX_DIM) by (nonlinear_arith)
                requires
                    self.row_heights@.len() <= MAX_TRACKS,
            ;
            assert(self.row_heights@.len() * y_spacing <= MAX_TRACKS * MAX_DIM) by (nonlinear_arith)
                requires
                    self.row_heights@.len() <= MAX_TRACKS,
                    0 <= y_spacing <= MAX_DIM,
            ;
            assert(0 <= self.row_heights@.len() * y_spacing) by (nonlinear_arith)
                requires
                    0 <= y_spacing,
            ;
        }
        let n = self.row_heights.len();
        let lanes: i64 = if n >= 1 {
            n as i64
        } else {
            1
        };
        sum_dims(&self.row_heights) + lanes * y_spacing - y_spacing
    }
}

/// The sum of a vector of dimensions.
fn sum_dims(v: &Vec<i64>) -> (r: i64)
    requires
        all_dims(v@),
        v@.len() <= MAX_TRACKS,
    ensures
        r == spec_sum(v@),
        0 <= r <= v@.len() * MAX_DIM,
{
    proof {
        lemma_sum_bounds(v@);
    }
    let mut total: i64 = 0;
    let mut i: usize = 0;
    while i < v.len()
        invariant
            i <= v@.len(),
            all_dims(v@),
            v@.len() <= MAX_TRACKS,
            total == spec_sum(v@.subrange(0, i as int)),
            0 <= total <= i * MAX_DIM,
        decreases v@.len() - i,
    {
        proof {
            let pre = v@.subrange(0, i as int);
            let post = v@.subrange(0, i + 1 as int);
            assert(post.drop_last() =~= pre);
            assert(post.last() == v@[i as int]);
            assert(i * MAX_DIM + MAX_DIM == (i + 1) * MAX_DIM) by (nonlinear_arith);
        }
        total = total + v[i];
        i = i + 1;
    }
    proof {
        assert(v@.subrange(0, v@.len() as int) =~= v@);
    }
    total
}

/// The store slot key for grid state.
pub const GRID_STATE_KEY: u64 = 2;

/// Is every entry of `v` a valid cell dimension?
fn check_dims(v: &Vec<i64>) -> (r: bool)
    ensures
        r == all_dims(v@),
{
    let mut i: usize = 0;
    while i < v.len()
        invariant
            i <= v@.len(),
            forall|j: int| 0 <= j < i ==> 0 <= #[trigger] v@[j] <= MAX_DIM,
        decreases v@.len() - i,
    {
        if v[i] < 0 || v[i] > MAX_DIM {
            return false;
        }
        i = i + 1;
    }
    true
}

/// The abstract value of a [`GridState`]: its two track sequences.
#[verifier::ext_equal]
pub ghost struct GridView {
    pub col_widths: Seq<i64>,
    pub row_heights: Seq<i64>,
}

/// Both tracks of the view are bounded in count and in entry size.
pub open spec fn grid_view_wf(v: GridView) -> bool {
    &&& v.col_widths.len() <= MAX_TRACKS
    &&& v.row_heights.len() <= MAX_TRACKS
    &&& all_dims(v.col_widths)
    &&& all_dims(v.row_heights)
}

impl View for GridState {
    type V = GridView;

    open spec fn view(&self) -> GridView {
        GridView { col_widths: self.col_widths@, row_heights: self.row_heights@ }
    }
}

impl StoreItem for GridState {
    open spec fn spec_key() -> u64 {
        GRID_STATE_KEY
    }

    open spec fn spec_default() -> GridView {
        GridView { col_widths: Seq::empty(), row_heights: Seq::empty() }
    }

    open spec fn spec_wf_view(v: GridView) -> bool {
        grid_view_wf(v)
    }

    open spec fn spec_encode(v: GridView) -> Seq<u8> {
        spec_i64_to_le(v.col_widths.len() as i64) + spec_i64s_to_le(v.col_widths)
            + spec_i64_to_le(v.row_heights.len() as i64) + spec_i64s_to_le(v.row_heights)
    }

    open spec fn spec_decode(b: Seq<u8>) -> Option<GridView> {
        if b.len() < 16 {
            None
        } else {
            match spec_i64_from_le(b.subrange(0, 8)) {
                None => None,
                Some(n) => if !(0 <= n <= MAX_TRACKS as i64) || b.len() < 16 + 8 * n {
                    None
                } else {
                    match spec_i64_from_le(b.subrange(8 + 8 * n, 16 + 8 * n)) {
                        None => None,
                        Some(m) => if !(0 <= m <= MAX_TRACKS as i64) || b.len() != 16 + 8 * n + 8
                            * m {
                            None
                        } else {
                            match (
                                spec_i64s_from_le(b.subrange(8, 8 + 8 * n)),
                                spec_i64s_from_le(b.subrange(16 + 8 * n, 16 + 8 * n + 8 * m)),
                            ) {
                                (Some(ws), Some(hs)) => if ws.len() == n && hs.len() == m
                                    && all_dims(ws) && all_dims(hs) {
                                    Some(GridView { col_widths: ws, row_heights: hs })
                                } else {
                                    None
                                },
                                _ => None,
                            }
                        },
                    }
                },
            }
        }
    }

    proof fn lemma_default_wf() {
    }

    proof fn lemma_decode_wf(b: Seq<u8>) {
    }

    proof fn lemma_round_trip(v: GridView) {
        let n = v.col_widths.len() as int;
        let m = v.row_heights.len() as int;
        let b = Self::spec_encode(v);
        lemma_i64_round_trip(n as i64);
        lemma_i64_round_trip(m as i64);
        lemma_i64s_len(v.col_widths);
        lemma_i64s_len(v.row_heights);
        lemma_i64s_round_trip(v.col_widths);
        lemma_i64s_round_trip(v.row_heights);
        assert(b.len() == 16 + 8 * n + 8 * m);
        assert(b.subrange(0, 8) =~= spec_i64_to_le(n as i64));
        assert(b.subrange(8, 8 + 8 * n) =~= spec_i64s_to_le(v.col_widths));
        assert(b.subrange(8 + 8 * n, 16 + 8 * n) =~= spec_i64_to_le(m as i64));
        assert(b.subrange(16 + 8 * n, 16 + 8 * n + 8 * m) =~= spec_i64s_to_le(v.row_heights));
        assert(Self::spec_decode(b) matches Some(w) && w =~= v);
    }

    fn type_key() -> u64 {
        GRID_STATE_KEY
    }

    fn default_item() -> (r: GridState)
    {
        let r = GridState { col_widths: Vec::new(), row_heights: Vec::new() };
        proof {
            assert(r@ =~= Self::spec_default());
        }
        r
    }

    fn encode(&self) -> (b: Vec<u8>)
    {
        let mut out: Vec<u8> = Vec::new();
        proof {
            assert(forall|i: int| 0 <= i < self.col_widths@.len() ==> in_coord(
                #[trigger] self.col_widths@[i],
            ));
            assert(forall|i: int| 0 <= i < self.row_heights@.len() ==> in_coord(
                #[trigger] self.row_heights@[i],
            ));
        }
        let n = self.col_widths.len();
        let m = self.row_heights.len();
        encode_i64_into(&mut out, n as i64);
        encode_i64s_into(&mut out, &self.col_widths);
        encode_i64_into(&mut out, m as i64);
        encode_i64s_into(&mut out, &self.row_heights);
        out
    }

    fn decode(b: &[u8]) -> (r: Option<GridState>)
    {
        let blen = b.len();
        if blen < 16 {
            return None;
        }
        let n64 = match decode_i64_at(b, 0) {
            Some(x) => x,
            None => {
                return None;
            },
        };
        if n64 < 0 || n64 > MAX_TRACKS as i64 {
            return None;
        }
        let n = n64 as usize;
        if blen < 16 + 8 * n {
            return None;
        }
        let m64 = match decode_i64_at(b, 8 + 8 * n) {
            Some(x) => x,
            None => {
                return None;
            },
        };
        if m64 < 0 || m64 > MAX_TRACKS as i64 {
            return None;
        }
        let m = m64 as usize;
        if blen != 16 + 8 * n + 8 * m {
            return None;
        }
        let ws = match decode_i64s_at(b, 8, n) {
            Some(v) => v,
            None => {
                return None;
            },
        };
        let hs = match decode_i64s_at(b, 16 + 8 * n, m) {
            Some(v) => v,
            None => {
                return None;
            },
        };
        if ws.len() != n || hs.len() != m || !check_dims(&ws) || !check_dims(&hs) {
            return None;
        }
        Some(GridState { col_widths: ws, row_heights: hs })
    }
}


/// A row, column, or cell-axis predicate for conditional grid coloring,
/// as data, so that what will be painted is fully determined by the spec.
#[derive(Clone, Copy, Debug, PartialEq, Eq, Structural)]
pub enum IndexRule {
    /// Indices `0, 2, 4, …` — the classic stripe.
    Even,
    /// Indices `1, 3, 5, …`.
    Odd,
    /// Exactly this index — `Is(0)` is the header row.
    Is(usize),
    /// Every index.
    Any,
}

impl IndexRule {
    pub open spec fn spec_applies(self, i: int) -> bool {
        match self {
            IndexRule::Even => i % 2 == 0,
            IndexRule::Odd => i % 2 == 1,
            IndexRule::Is(n) => i == n,
            IndexRule::Any => true,
        }
    }

    /// Does this rule select index `i`?
    pub fn applies(&self, i: usize) -> (r: bool)
        ensures
            r == self.spec_applies(i as int),
    {
        match self {
            IndexRule::Even => i % 2 == 0,
            IndexRule::Odd => i % 2 == 1,
            IndexRule::Is(n) => i == *n,
            IndexRule::Any => true,
        }
    }
}

/// A predicate over one index (a row or a column) with the color to paint
/// where it holds.
#[derive(Clone, Copy, Debug, PartialEq, Eq, Structural)]
pub struct SinglePredicate {
    pub color: GuiColor,
    pub rule: IndexRule,
}

/// A predicate over a row and a column, with its color: it holds where
/// both index rules hold.
#[derive(Clone, Copy, Debug, PartialEq, Eq, Structural)]
pub struct DoublePredicate {
    pub color: GuiColor,
    pub row_rule: IndexRule,
    pub col_rule: IndexRule,
}

/// An explicit color for one cell.
#[derive(Clone, Copy, Debug, PartialEq, Eq, Structural)]
pub struct CellColor {
    pub row: usize,
    pub col: usize,
    pub color: GuiColor,
}

/// Conditional formatting for a grid. All predicates are evaluated for
/// each row, column and cell, in the fixed order row → column → cell →
/// explicit override; later paints are drawn on top of earlier ones.
pub struct ColorSpec {
    /// Explicit per-cell overrides; the latest entry for a cell wins.
    pub list: Vec<CellColor>,
    /// Row predicates, given the row index.
    pub by_row: Vec<SinglePredicate>,
    /// Column predicates, given the column index.
    pub by_column: Vec<SinglePredicate>,
    /// Cell predicates, given row and column indices.
    pub by_cell: Vec<DoublePredicate>,
}

impl ColorSpec {
    /// No formatting at all.
    pub fn new() -> (r: ColorSpec)
        ensures
            r.list@ == Seq::<CellColor>::empty(),
            r.by_row@ == Seq::<SinglePredicate>::empty(),
            r.by_column@ == Seq::<SinglePredicate>::empty(),
            r.by_cell@ == Seq::<DoublePredicate>::empty(),
    {
        ColorSpec { list: Vec::new(), by_row: Vec::new(), by_column: Vec::new(), by_cell: Vec::new() }
    }
}

/// The explicit override for `(row, col)`, the latest entry winning.
pub open spec fn spec_cell_override(list: Seq<CellColor>, row: int, col: int) -> Option<GuiColor>
    decreases list.len(),
{
    if list.len() == 0 {
        None
    } else if list.last().row == row && list.last().col == col {
        Some(list.last().color)
    } else {
        spec_cell_override(list.drop_last(), row, col)
    }
}

/// Style inputs the grid takes from the host theme.
#[derive(Clone, Copy, Debug, PartialEq, Eq, Structural)]
pub struct GridStyle {
    /// Default gap between cells, per axis.
    pub item_spacing: Vec2i,
    /// Default minimum cell size, per axis.
    pub interact_size: Vec2i,
    /// Whether the dark color of a light/dark pair applies.
    pub dark_mode: bool,
    /// Paint a diagnostic overlay over cells wider than predicted.
    pub debug_expand_width: bool,
    /// Paint a diagnostic overlay over cells taller than predicted.
    pub debug_expand_height: bool,
}

impl GridStyle {
    pub open spec fn spec_wf(self) -> bool {
        &&& 0 <= self.item_spacing.x <= MAX_DIM
        &&& 0 <= self.item_spacing.y <= MAX_DIM
        &&& 0 <= self.interact_size.x <= MAX_DIM
        &&& 0 <= self.interact_size.y <= MAX_DIM
    }
}

/// The part of the host layout the grid reads when predicting a cell
/// rectangle: where the cursor is, and how far down the region reaches.
#[derive(Clone, Copy, Debug, PartialEq, Eq, Structural)]
pub struct GridRegion {
    /// Top-left corner of the space available for the next cell.
    pub cursor_min: Vec2i,
    /// Bottom edge of the finite available region.
    pub bottom_y: i64,
}

/// The cursor-based layout state machine of one grid, for one frame.
pub struct GridLayout {
    /// The instance key the state is stored under.
    pub id: u64,
    /// State recorded by the previous frame, used to predict cell sizes.
    pub prev_state: GridState,
    /// State accumulated during the current frame.
    pub curr_state: GridState,
    /// Gap between cells, per axis.
    pub spacing: Vec2i,
    /// Conditional background coloring.
    pub color_spec: ColorSpec,
    /// Horizontal anchor every row starts at.
    pub initial_x: i64,
    /// Smallest rectangle offered to a cell.
    pub min_cell_size: Vec2i,
    /// Wrap width: a finite maximum cell width, if set.
    pub max_cell_width: Option<i64>,
    /// A finite maximum cell height, if set.
    pub max_cell_height: Option<i64>,
    /// Whether the dark color of a light/dark pair applies.
    pub dark_mode: bool,
    /// Paint a diagnostic overlay over cells wider than predicted.
    pub debug_expand_width: bool,
    /// Paint a diagnostic overlay over cells taller than predicted.
    pub debug_expand_height: bool,
    /// The column the cursor is in.
    pub col: usize,
    /// The row the cursor is in.
    pub row: usize,
}

impl GridLayout {
    pub open spec fn wf(self) -> bool {
        &&& self.prev_state.spec_wf_state()
        &&& self.curr_state.spec_wf_state()
        &&& 0 <= self.spacing.x <= MAX_DIM
        &&& 0 <= self.spacing.y <= MAX_DIM
        &&& 0 <= self.min_cell_size.x <= MAX_DIM
        &&& 0 <= self.min_cell_size.y <= MAX_DIM
        &&& (self.max_cell_width matches Some(w) ==> 0 <= w <= MAX_DIM)
        &&& (self.max_cell_height matches Some(h) ==> 0 <= h <= MAX_DIM)
        &&& in_coord(self.initial_x)
    }

    /// The previous frame's width for `col`, the minimum cell width where
    /// that column is new.
    pub open spec fn spec_prev_col_width(self, col: int) -> i64 {
        if 0 <= col < self.prev_state.col_widths@.len() {
            self.prev_state.col_widths@[col]
        } else {
            self.min_cell_size.x
        }
    }

    /// The previous frame's height for `row`, the minimum cell height
    /// where that row is new.
    pub open spec fn spec_prev_row_height(self, row: int) -> i64 {
        if 0 <= row < self.row_heights_len() {
            self.prev_state.row_heights@[row]
        } else {
            self.min_cell_size.y
        }
    }

    pub open spec fn row_heights_len(self) -> int {
        self.prev_state.row_heights@.len() as int
    }

    /// Begin a grid pass: recall the previous frame's state from the
    /// store (the default for a new grid) and place the cursor at the
    /// row anchor.
    pub fn new(store: &mut InstanceStore, id: u64, initial_x: i64, style: &GridStyle) -> (g:
        GridLayout)
        requires
            old(store).wf(),
            in_coord(initial_x),
            style.spec_wf(),
        ensures
            final(store).wf(),
            final(store)@ == spec_after_get::<GridState>(old(store)@, id),
            g.id == id,
            g.prev_state@ == spec_got::<GridState>(old(store)@, id),
            g.curr_state@ == (GridView { col_widths: Seq::empty(), row_heights: Seq::empty() }),
            g.spacing == style.item_spacing,
            g.color_spec.list@ == Seq::<CellColor>::empty(),
            g.color_spec.by_row@ == Seq::<SinglePredicate>::empty(),
            g.color_spec.by_column@ == Seq::<SinglePredicate>::empty(),
            g.color_spec.by_cell@ == Seq::<DoublePredicate>::empty(),
            g.initial_x == initial_x,
            g.min_cell_size == style.interact_size,
            g.max_cell_width is None,
            g.max_cell_height is None,
            g.dark_mode == style.dark_mode,
            g.debug_expand_width == style.debug_expand_width,
            g.debug_expand_height == style.debug_expand_height,
            g.col == 0,
            g.row == 0,
            g.wf(),
    {
        let prev_state = store.get_or_default::<GridState>(id);
        GridLayout {
            id,
            prev_state,
            curr_state: GridState::new_empty(),
            spacing: style.item_spacing,
            color_spec: ColorSpec::new(),
            initial_x,
            min_cell_size: style.interact_size,
            max_cell_width: None,
            max_cell_height: None,
            dark_mode: style.dark_mode,
            debug_expand_width: style.debug_expand_width,
            debug_expand_height: style.debug_expand_height,
            col: 0,
            row: 0,
        }
    }

    /// The previous frame's width for the given column, as a runtime
    /// value.
    pub fn prev_col_width(&self, col: usize) -> (r: i64)
        ensures
            r == self.spec_prev_col_width(col as int),
    {
        match self.prev_state.col_width(col) {
            Some(w) => w,
            None => self.min_cell_size.x,
        }
    }

    /// The previous frame's height for the given row, as a runtime value.
    pub fn prev_row_height(&self, row: usize) -> (r: i64)
        ensures
            r == self.spec_prev_row_height(row as int),
    {
        match self.prev_state.row_height(row) {
            Some(h) => h,
            None => self.min_cell_size.y,
        }
    }

    /// Cell contents wrap when a finite maximum cell width is set.
    pub fn wrap_text(&self) -> (r: bool)
        ensures
            r == self.max_cell_width is Some,
    {
        self.max_cell_width.is_some()
    }

    /// The predicted width for the current column: the configured wrap
    /// width if any, else the previous frame's width for the column,
    /// falling back to the width already observed this frame and then to
    /// the minimum cell width.
    pub open spec fn spec_avail_width(self) -> i64 {
        match self.max_cell_width {
            Some(w) => w,
            None => if self.col < self.prev_state.col_widths@.len() {
                self.prev_state.col_widths@[self.col as int]
            } else if self.col < self.curr_state.col_widths@.len() {
                self.curr_state.col_widths@[self.col as int]
            } else {
                self.min_cell_size.x
            },
        }
    }

    /// The rectangle offered to the next cell before it is filled: the
    /// prediction step. The width comes from history (the engine cannot
    /// know the cell's true size yet); the height is the remaining
    /// vertical space clamped between the minimum and maximum cell
    /// heights.
    pub fn available_rect(&self, region: &GridRegion) -> (r: Recti)
        requires
            self.wf(),
            region.cursor_min.spec_in_range(),
            in_coord(region.bottom_y),
        ensures
            r.min == region.cursor_min,
            r.size.x == self.spec_avail_width(),
            r.size.y == {
                let grown = spec_max(
                    region.bottom_y - region.cursor_min.y,
                    self.min_cell_size.y as int,
                );
                match self.max_cell_height {
                    Some(h) => spec_min(grown, h as int),
                    None => grown,
                }
            },
    {
        self.available_rect_finite(region)
    }

    /// The same prediction, always against the finite region bottom.
    pub fn available_rect_finite(&self, region: &GridRegion) -> (r: Recti)
        requires
            self.wf(),
            region.cursor_min.spec_in_range(),
            in_coord(region.bottom_y),
        ensures
            r.min == region.cursor_min,
            r.size.x == self.spec_avail_width(),
            r.size.y == {
                let grown = spec_max(
                    region.bottom_y - region.cursor_min.y,
                    self.min_cell_size.y as int,
                );
                match self.max_cell_height {
                    Some(h) => spec_min(grown, h as int),
                    None => grown,
                }
            },
    {
        let width: i64 = match self.max_cell_width {
            Some(w) => w,
            None => {
                match self.prev_state.col_width(self.col) {
                    Some(w) => w,
                    None => match self.curr_state.col_width(self.col) {
                        Some(w) => w,
                        None => self.min_cell_size.x,
                    },
                }
            },
        };
        let raw_height = region.bottom_y - region.cursor_min.y;
        let grown = max_i64(raw_height, self.min_cell_size.y);
        let height = match self.max_cell_height {
            Some(h) => min_i64(grown, h),
            None => grown,
        };
        Recti::from_min_size(region.cursor_min, Vec2i::new(width, height))
    }

    /// The rectangle a filled cell will occupy: the child's size, grown
    /// to the column's and row's sizes from last frame.
    pub fn next_cell(&self, cursor_min: Vec2i, child_size: Vec2i) -> (r: Recti)
        ensures
            r.min == cursor_min,
            r.size.x == spec_max(
                child_size.x as int,
                if self.col < self.prev_state.col_widths@.len() {
                    self.prev_state.col_widths@[self.col as int] as int
                } else {
                    0
                },
            ),
            r.size.y == spec_max(
                child_size.y as int,
                self.spec_prev_row_height(self.row as int) as int,
            ),
    {
        let width: i64 = match self.prev_state.col_width(self.col) {
            Some(w) => w,
            None => 0,
        };
        let height = self.prev_row_height(self.row);
        let size = Vec2i::new(max_i64(child_size.x, width), max_i64(child_size.y, height));
        Recti::from_min_size(cursor_min, size)
    }

    /// Place `size` at the left edge of `frame`, vertically centered
    /// (the half-pixel rounded toward the top).
    pub fn align_size_within_rect(&self, size: Vec2i, frame: Recti) -> (r: Recti)
        requires
            frame.spec_in_range(),
            size.spec_in_range(),
        ensures
            r.min.x == frame.min.x,
            r.min.y == frame.min.y + crate::geom::spec_scale(
                frame.size.y - size.y as int,
                1,
                2,
            ),
            r.size == size,
    {
        let d = frame.size.y - size.y;
        let half: i64 = if d >= 0 {
            d / 2
        } else {
            -((-d) / 2)
        };
        Recti::from_min_size(Vec2i::new(frame.min.x, frame.min.y + half), size)
    }

    /// Alignment as applied after a cell is filled: left edge, vertically
    /// centered.
    pub fn justify_and_align(&self, frame: Recti, size: Vec2i) -> (r: Recti)
        requires
            frame.spec_in_range(),
            size.spec_in_range(),
        ensures
            r.min.x == frame.min.x,
            r.min.y == frame.min.y + crate::geom::spec_scale(
                frame.size.y - size.y as int,
                1,
                2,
            ),
            r.size == size,
    {
        self.align_size_within_rect(size, frame)
    }
}


/// The sum of the first `k` entries of `v`.
fn sum_prefix(v: &Vec<i64>, k: usize) -> (r: i64)
    requires
        all_dims(v@),
        v@.len() <= MAX_TRACKS,
        k <= v@.len(),
    ensures
        r == spec_sum(v@.subrange(0, k as int)),
        0 <= r <= k * MAX_DIM,
{
    let mut total: i64 = 0;
    let mut i: usize = 0;
    while i < k
        invariant
            i <= k <= v@.len(),
            all_dims(v@),
            v@.len() <= MAX_TRACKS,
            total == spec_sum(v@.subrange(0, i as int)),
            0 <= total <= i * MAX_DIM,
        decreases k - i,
    {
        proof {
            let pre = v@.subrange(0, i as int);
            let post = v@.subrange(0, i + 1 as int);
            assert(post.drop_last() =~= pre);
            assert(post.last() == v@[i as int]);
            assert(i * MAX_DIM + MAX_DIM == (i + 1) * MAX_DIM) by (nonlinear_arith);
        }
        total = total + v[i];
        i = i + 1;
    }
    total
}

/// A coordinate that stays clear of `i64` overflow in the paint
/// arithmetic: twice the ordinary coordinate range.
pub open spec fn in_paint_coord(x: i64) -> bool {
    -2 * MAX_COORD <= x <= 2 * MAX_COORD
}

impl GridLayout {
    /// The grid's full width under the previous frame's state.
    pub open spec fn spec_full_width(self) -> int {
        spec_sum(self.prev_state.col_widths@) + spec_max(
            self.prev_state.col_widths@.len() as int,
            1,
        ) * self.spacing.x - self.spacing.x
    }

    /// The grid's full height under the previous frame's state.
    pub open spec fn spec_full_height(self) -> int {
        spec_sum(self.prev_state.row_heights@) + spec_max(
            self.prev_state.row_heights@.len() as int,
            1,
        ) * self.spacing.y - self.spacing.y
    }

    /// Where column `col` starts, relative to the cursor: the widths of
    /// the columns before it plus one spacing-and-padding step per gap.
    pub open spec fn spec_col_offset_x(self, col: int) -> int
        recommends
            0 <= col <= self.prev_state.col_widths@.len(),
    {
        spec_sum(self.prev_state.col_widths@.subrange(0, col)) + (self.spacing.x + 1) * (col - 1)
    }

    /// The background command for the row about to start, if its height
    /// is known from the previous frame.
    pub open spec fn spec_row_paint(self, min: Vec2i, color: GuiColor) -> Seq<PaintCmd> {
        if 0 <= (self.row as int) < self.prev_state.row_heights@.len() {
            let h = self.prev_state.row_heights@[self.row as int];
            seq![
                PaintCmd::FillRect {
                    rect: Recti {
                        min: Vec2i { x: (min.x - 2) as i64, y: min.y },
                        size: Vec2i {
                            x: (self.spec_full_width() + 5) as i64,
                            y: (h + self.spacing.y / 2 + 2) as i64,
                        },
                    },
                    corner_radius: 2,
                    fill: color.spec_resolve(self.dark_mode),
                },
            ]
        } else {
            Seq::empty()
        }
    }

    /// The background command for column `col`, spanning the grid's full
    /// height.
    pub open spec fn spec_column_cmd(self, col: int, min: Vec2i, color: GuiColor) -> PaintCmd {
        PaintCmd::FillRect {
            rect: Recti {
                min: Vec2i {
                    x: (min.x + self.spec_col_offset_x(col)) as i64,
                    y: (min.y - 1) as i64,
                },
                size: Vec2i {
                    x: (self.spec_prev_col_width(col) + self.spacing.x / 2 + 5) as i64,
                    y: (self.spec_full_height() + 3) as i64,
                },
            },
            corner_radius: 2,
            fill: color.spec_resolve(self.dark_mode),
        }
    }

    /// The background command for the cell at (`self.row`, `col`).
    pub open spec fn spec_cell_cmd(self, col: int, min: Vec2i, color: GuiColor) -> PaintCmd {
        PaintCmd::FillRect {
            rect: Recti {
                min: Vec2i { x: (min.x + self.spec_col_offset_x(col)) as i64, y: min.y },
                size: Vec2i {
                    x: (self.spec_prev_col_width(col) + self.spacing.x / 2 + 5) as i64,
                    y: (self.spec_prev_row_height(self.row as int) + 3) as i64,
                },
            },
            corner_radius: 2,
            fill: color.spec_resolve(self.dark_mode),
        }
    }

    /// The row-predicate pass: each rule that selects the current row
    /// contributes its row background, in rule order.
    pub open spec fn spec_row_paints(self, rules: Seq<SinglePredicate>, min: Vec2i) -> Seq<
        PaintCmd,
    >
        decreases rules.len(),
    {
        if rules.len() == 0 {
            Seq::empty()
        } else {
            self.spec_row_paints(rules.drop_last(), min) + if rules.last().rule.spec_applies(
                self.row as int,
            ) {
                self.spec_row_paint(min, rules.last().color)
            } else {
                Seq::empty()
            }
        }
    }

    /// One column rule applied to the first `ncols` columns, in column
    /// order.
    pub open spec fn spec_cols_for_rule(
        self,
        rule: IndexRule,
        color: GuiColor,
        min: Vec2i,
        ncols: int,
    ) -> Seq<PaintCmd>
        decreases ncols,
    {
        if ncols <= 0 {
            Seq::empty()
        } else {
            self.spec_cols_for_rule(rule, color, min, ncols - 1) + if rule.spec_applies(
                ncols - 1,
            ) {
                seq![self.spec_column_cmd(ncols - 1, min, color)]
            } else {
                Seq::empty()
            }
        }
    }

    /// The column-predicate pass over the previous frame's column count,
    /// in rule order.
    pub open spec fn spec_col_paints(self, rules: Seq<SinglePredicate>, min: Vec2i) -> Seq<
        PaintCmd,
    >
        decreases rules.len(),
    {
        if rules.len() == 0 {
            Seq::empty()
        } else {
            self.spec_col_paints(rules.drop_last(), min) + self.spec_cols_for_rule(
                rules.last().rule,
                rules.last().color,
                min,
                self.prev_state.col_widths@.len() as int,
            )
        }
    }

    /// The cell-predicate pass for one column, in rule order.
    pub open spec fn spec_cell_rules_at(
        self,
        rules: Seq<DoublePredicate>,
        min: Vec2i,
        col: int,
    ) -> Seq<PaintCmd>
        decreases rules.len(),
    {
        if rules.len() == 0 {
            Seq::empty()
        } else {
            self.spec_cell_rules_at(rules.drop_last(), min, col) + if rules.last(
            ).row_rule.spec_applies(self.row as int) && rules.last().col_rule.spec_applies(col) {
                seq![self.spec_cell_cmd(col, min, rules.last().color)]
            } else {
                Seq::empty()
            }
        }
    }

    /// The cell pass over the first `ncols` columns: for each column its
    /// cell predicates, then its explicit override.
    pub open spec fn spec_cells_for_cols(self, min: Vec2i, ncols: int) -> Seq<PaintCmd>
        decreases ncols,
    {
        if ncols <= 0 {
            Seq::empty()
        } else {
            self.spec_cells_for_cols(min, ncols - 1) + self.spec_cell_rules_at(
                self.color_spec.by_cell@,
                min,
                ncols - 1,
            ) + match spec_cell_override(self.color_spec.list@, self.row as int, ncols - 1) {
                Some(c) => seq![self.spec_cell_cmd(ncols - 1, min, c)],
                None => Seq::empty(),
            }
        }
    }

    /// Everything the paint pass draws for the row about to start, in
    /// paint order: row backgrounds, then (once, before row 0) column
    /// backgrounds, then cell backgrounds and overrides. Later commands
    /// are drawn on top of earlier ones.
    pub open spec fn spec_do_paint(self, min: Vec2i) -> Seq<PaintCmd> {
        self.spec_row_paints(self.color_spec.by_row@, min) + (if self.row == 0 {
            self.spec_col_paints(self.color_spec.by_column@, min)
        } else {
            Seq::empty()
        }) + self.spec_cells_for_cols(min, self.prev_state.col_widths@.len() as int)
    }

    /// The explicit override for (`row`, `col`), the latest entry
    /// winning.
    pub fn cell_override(&self, row: usize, col: usize) -> (r: Option<GuiColor>)
        ensures
            r == spec_cell_override(self.color_spec.list@, row as int, col as int),
    {
        let list = &self.color_spec.list;
        let mut i: usize = list.len();
        proof {
            assert(list@.subrange(0, list@.len() as int) =~= list@);
        }
        while i > 0
            invariant
                i <= list@.len(),
                list@ == self.color_spec.list@,
                spec_cell_override(list@, row as int, col as int) == spec_cell_override(
                    list@.subrange(0, i as int),
                    row as int,
                    col as int,
                ),
            decreases i,
        {
            i = i - 1;
            let e = &list[i];
            proof {
                let sub = list@.subrange(0, i + 1);
                assert(sub.drop_last() =~= list@.subrange(0, i as int));
                assert(sub.last() == list@[i as int]);
            }
            if e.row == row && e.col == col {
                proof {
                    let sub = list@.subrange(0, i + 1);
                    assert(sub.len() > 0);
                    assert(sub.last().row == row && sub.last().col == col);
                    assert(spec_cell_override(sub, row as int, col as int) == Some(
                        sub.last().color,
                    ));
                    assert(Some(e.color) == spec_cell_override(list@, row as int, col as int));
                }
                return Some(e.color);
            }
        }
        proof {
            assert(list@.subrange(0, 0) =~= Seq::<CellColor>::empty());
        }
        None
    }

    /// The row background for the row about to start, under `color`.
    pub fn paint_row(&self, min: Vec2i, color: GuiColor) -> (r: Vec<PaintCmd>)
        requires
            self.wf(),
            in_paint_coord(min.x),
            in_paint_coord(min.y),
        ensures
            r@ == self.spec_row_paint(min, color),
    {
        let mut out: Vec<PaintCmd> = Vec::new();
        match self.prev_state.row_height(self.row) {
            None => {},
            Some(h) => {
                let fw = self.prev_state.full_width(self.spacing.x);
                let rect = Recti::from_min_size(
                    Vec2i::new(min.x - 2, min.y),
                    Vec2i::new(fw + 5, h + self.spacing.y / 2 + 2),
                );
                out.push(
                    PaintCmd::FillRect { rect, corner_radius: 2, fill: color.resolve(self.dark_mode) },
                );
                proof {
                    assert(out@ =~= self.spec_row_paint(min, color));
                }
            },
        }
        out
    }

    /// The column background for `col`, under `color`.
    pub fn paint_column(&self, col: usize, min: Vec2i, color: GuiColor) -> (r: PaintCmd)
        requires
            self.wf(),
            col < self.prev_state.col_widths@.len(),
            in_paint_coord(min.x),
            in_paint_coord(min.y),
        ensures
            r == self.spec_column_cmd(col as int, min, color),
    {
        let off = self.col_offset_x(col);
        let fh = self.prev_state.full_height(self.spacing.y);
        let rect = Recti::from_min_size(
            Vec2i::new(min.x + off, min.y - 1),
            Vec2i::new(self.prev_col_width(col) + self.spacing.x / 2 + 5, fh + 3),
        );
        PaintCmd::FillRect { rect, corner_radius: 2, fill: color.resolve(self.dark_mode) }
    }

    /// The cell background for (`self.row`, `col`), under `color`.
    pub fn paint_cell(&self, col: usize, min: Vec2i, color: GuiColor) -> (r: PaintCmd)
        requires
            self.wf(),
            col < self.prev_state.col_widths@.len(),
            in_paint_coord(min.x),
            in_paint_coord(min.y),
        ensures
            r == self.spec_cell_cmd(col as int, min, color),
    {
        let off = self.col_offset_x(col);
        let rect = Recti::from_min_size(
            Vec2i::new(min.x + off, min.y),
            Vec2i::new(
                self.prev_col_width(col) + self.spacing.x / 2 + 5,
                self.prev_row_height(self.row) + 3,
            ),
        );
        PaintCmd::FillRect { rect, corner_radius: 2, fill: color.resolve(self.dark_mode) }
    }

    /// Where column `col` starts, relative to the cursor.
    fn col_offset_x(&self, col: usize) -> (r: i64)
        requires
            self.wf(),
            col < self.prev_state.col_widths@.len(),
        ensures
            r == self.spec_col_offset_x(col as int),
            -2 * MAX_COORD <= r <= 2 * MAX_COORD,
    {
        let head = sum_prefix(&self.prev_state.col_widths, col);
        proof {
            assert((self.spacing.x + 1) * (col as int - 1) <= (MAX_DIM + 1) * MAX_TRACKS
                && (self.spacing.x + 1) * (col as int - 1) >= -(MAX_DIM + 1))
                by (nonlinear_arith)
                requires
                    0 <= self.spacing.x <= MAX_DIM,
                    0 <= (col as int) < MAX_TRACKS,
            ;
        }
        head + (self.spacing.x + 1) * (col as i64 - 1)
    }
}


impl GridLayout {
    /// Run the paint pass for the row about to start: row backgrounds,
    /// then (before row 0 only) column backgrounds, then cell backgrounds
    /// and explicit overrides, all against previous-frame geometry.
    pub fn do_paint(&self, min: Vec2i) -> (r: Vec<PaintCmd>)
        requires
            self.wf(),
            in_paint_coord(min.x),
            in_paint_coord(min.y),
        ensures
            r@ == self.spec_do_paint(min),
    {
        let mut out: Vec<PaintCmd> = Vec::new();
        let mut i: usize = 0;
        while i < self.color_spec.by_row.len()
            invariant
                self.wf(),
                in_paint_coord(min.x),
                in_paint_coord(min.y),
                i <= self.color_spec.by_row@.len(),
                out@ == self.spec_row_paints(self.color_spec.by_row@.subrange(0, i as int), min),
            decreases self.color_spec.by_row@.len() - i,
        {
            let p = self.color_spec.by_row[i];
            if p.rule.applies(self.row) {
                let mut cmds = self.paint_row(min, p.color);
                out.append(&mut cmds);
            }
            proof {
                let pre = self.color_spec.by_row@.subrange(0, i as int);
                let post = self.color_spec.by_row@.subrange(0, i + 1);
                assert(post.drop_last() =~= pre);
                assert(post.last() == self.color_spec.by_row@[i as int]);
                assert(out@ =~= self.spec_row_paints(post, min));
            }
            i = i + 1;
        }
        proof {
            assert(self.color_spec.by_row@.subrange(0, self.color_spec.by_row@.len() as int)
                =~= self.color_spec.by_row@);
        }
        let ghost after_rows = out@;
        let ncols = self.prev_state.cols();
        if self.row == 0 {
            let mut j: usize = 0;
            while j < self.color_spec.by_column.len()
                invariant
                    self.wf(),
                    in_paint_coord(min.x),
                    in_paint_coord(min.y),
                    j <= self.color_spec.by_column@.len(),
                    ncols == self.prev_state.col_widths@.len(),
                    out@ == after_rows + self.spec_col_paints(
                        self.color_spec.by_column@.subrange(0, j as int),
                        min,
                    ),
                decreases self.color_spec.by_column@.len() - j,
            {
                let p = self.color_spec.by_column[j];
                let ghost before_rule = out@;
                let mut c: usize = 0;
                while c < ncols
                    invariant
                        self.wf(),
                        in_paint_coord(min.x),
                        in_paint_coord(min.y),
                        c <= ncols,
                        ncols == self.prev_state.col_widths@.len(),
                        out@ == before_rule + self.spec_cols_for_rule(
                            p.rule,
                            p.color,
                            min,
                            c as int,
                        ),
                    decreases ncols - c,
                {
                    if p.rule.applies(c) {
                        let cmd = self.paint_column(c, min, p.color);
                        out.push(cmd);
                    }
                    proof {
                        assert(out@ =~= before_rule + self.spec_cols_for_rule(
                            p.rule,
                            p.color,
                            min,
                            c + 1,
                        ));
                    }
                    c = c + 1;
                }
                proof {
                    let pre = self.color_spec.by_column@.subrange(0, j as int);
                    let post = self.color_spec.by_column@.subrange(0, j + 1);
                    assert(post.drop_last() =~= pre);
                    assert(post.last() == self.color_spec.by_column@[j as int]);
                    assert(out@ =~= after_rows + self.spec_col_paints(post, min));
                }
                j = j + 1;
            }
            proof {
                assert(self.color_spec.by_column@.subrange(
                    0,
                    self.color_spec.by_column@.len() as int,
                ) =~= self.color_spec.by_column@);
            }
        }
        let ghost after_cols = out@;
        let mut c: usize = 0;
        while c < ncols
            invariant
                self.wf(),
                in_paint_coord(min.x),
                in_paint_coord(min.y),
                c <= ncols,
                ncols == self.prev_state.col_widths@.len(),
                out@ == after_cols + self.spec_cells_for_cols(min, c as int),
            decreases ncols - c,
        {
            let ghost before_cell = out@;
            let mut k: usize = 0;
            while k < self.color_spec.by_cell.len()
                invariant
                    self.wf(),
                    in_paint_coord(min.x),
                    in_paint_coord(min.y),
                    k <= self.color_spec.by_cell@.len(),
                    c < ncols,
                    ncols == self.prev_state.col_widths@.len(),
                    out@ == before_cell + self.spec_cell_rules_at(
                        self.color_spec.by_cell@.subrange(0, k as int),
                        min,
                        c as int,
                    ),
                decreases self.color_spec.by_cell@.len() - k,
            {
                let p = self.color_spec.by_cell[k];
                if p.row_rule.applies(self.row) && p.col_rule.applies(c) {
                    let cmd = self.paint_cell(c, min, p.color);
                    out.push(cmd);
                }
                proof {
                    let pre = self.color_spec.by_cell@.subrange(0, k as int);
                    let post = self.color_spec.by_cell@.subrange(0, k + 1);
                    assert(post.drop_last() =~= pre);
                    assert(post.last() == self.color_spec.by_cell@[k as int]);
                    assert(out@ =~= before_cell + self.spec_cell_rules_at(post, min, c as int));
                }
                k = k + 1;
            }
            proof {
                assert(self.color_spec.by_cell@.subrange(
                    0,
                    self.color_spec.by_cell@.len() as int,
                ) =~= self.color_spec.by_cell@);
            }
            match self.cell_override(self.row, c) {
                Some(color) => {
                    let cmd = self.paint_cell(c, min, color);
                    out.push(cmd);
                },
                None => {},
            }
            proof {
                assert(out@ =~= after_cols + self.spec_cells_for_cols(min, c + 1));
            }
            c = c + 1;
        }
        proof {
            assert(out@ =~= self.spec_do_paint(min));
        }
        out
    }

    /// The diagnostic overlay painted over a cell that outgrew its
    /// prediction: an outline, plus three guide lines when the width is
    /// the culprit. Only drawn under the debug options; oversized cells
    /// are a layout-drift warning, not an error.
    pub open spec fn spec_advance_paints(self, rect: Recti) -> Seq<PaintCmd> {
        let too_wide = rect.size.x > self.spec_prev_col_width(self.col as int);
        let too_high = rect.size.y > self.spec_prev_row_height(self.row as int);
        if (self.debug_expand_width && too_wide) || (self.debug_expand_height && too_high) {
            let outline = seq![
                PaintCmd::StrokeRect {
                    rect,
                    stroke_width: 1,
                    color: Rgba { r: 140, g: 160, b: 255, a: 255 },
                },
            ];
            if self.debug_expand_width && too_wide {
                outline + seq![
                    PaintCmd::LineSegment {
                        a: rect.min,
                        b: Vec2i { x: rect.min.x, y: (rect.min.y + rect.size.y) as i64 },
                        stroke_width: 2,
                        color: Rgba { r: 200, g: 0, b: 0, a: 255 },
                    },
                    PaintCmd::LineSegment {
                        a: Vec2i { x: rect.min.x, y: (rect.min.y + rect.size.y / 2) as i64 },
                        b: Vec2i {
                            x: (rect.min.x + rect.size.x) as i64,
                            y: (rect.min.y + rect.size.y / 2) as i64,
                        },
                        stroke_width: 2,
                        color: Rgba { r: 200, g: 0, b: 0, a: 255 },
                    },
                    PaintCmd::LineSegment {
                        a: Vec2i { x: (rect.min.x + rect.size.x) as i64, y: rect.min.y },
                        b: Vec2i {
                            x: (rect.min.x + rect.size.x) as i64,
                            y: (rect.min.y + rect.size.y) as i64,
                        },
                        stroke_width: 2,
                        color: Rgba { r: 200, g: 0, b: 0, a: 255 },
                    },
                ]
            } else {
                outline
            }
        } else {
            Seq::empty()
        }
    }

    /// Accept a filled cell: record its measured size (floored at the
    /// minimum cell size) for this frame, step to the next column, and
    /// move the cursor right past the cell's frame. Returns the
    /// diagnostic overlay, empty unless a debug option is set and the
    /// cell outgrew its prediction.
    pub fn advance(
        &mut self,
        cursor: &mut Vec2i,
        frame_width: i64,
        widget_rect: Recti,
    ) -> (paints: Vec<PaintCmd>)
        requires
            old(self).wf(),
            old(self).col < MAX_TRACKS,
            old(self).row < MAX_TRACKS,
            0 <= widget_rect.size.x <= MAX_DIM,
            0 <= widget_rect.size.y <= MAX_DIM,
            widget_rect.spec_in_range(),
            old(cursor).spec_in_range(),
            0 <= frame_width <= MAX_COORD,
        ensures
            final(self).wf(),
            final(self).curr_state.col_widths@ == spec_set_min(
                old(self).curr_state.col_widths@,
                old(self).col as int,
                spec_max(widget_rect.size.x as int, old(self).min_cell_size.x as int) as i64,
            ),
            final(self).curr_state.row_heights@ == spec_set_min(
                old(self).curr_state.row_heights@,
                old(self).row as int,
                spec_max(widget_rect.size.y as int, old(self).min_cell_size.y as int) as i64,
            ),
            final(self).col == old(self).col + 1,
            final(self).row == old(self).row,
            final(self).prev_state == old(self).prev_state,
            final(self).id == old(self).id,
            final(self).spacing == old(self).spacing,
            final(self).color_spec == old(self).color_spec,
            final(self).initial_x == old(self).initial_x,
            final(self).min_cell_size == old(self).min_cell_size,
            final(self).max_cell_width == old(self).max_cell_width,
            final(self).max_cell_height == old(self).max_cell_height,
            final(self).dark_mode == old(self).dark_mode,
            final(self).debug_expand_width == old(self).debug_expand_width,
            final(self).debug_expand_height == old(self).debug_expand_height,
            final(cursor).x == old(cursor).x + frame_width + old(self).spacing.x,
            final(cursor).y == old(cursor).y,
            paints@ == old(self).spec_advance_paints(widget_rect),
    {
        let mut out: Vec<PaintCmd> = Vec::new();
        if self.debug_expand_width || self.debug_expand_height {
            let too_wide = widget_rect.size.x > self.prev_col_width(self.col);
            let too_high = widget_rect.size.y > self.prev_row_height(self.row);
            if (self.debug_expand_width && too_wide) || (self.debug_expand_height && too_high) {
                let rect = widget_rect;
                out.push(
                    PaintCmd::StrokeRect {
                        rect,
                        stroke_width: 1,
                        color: Rgba { r: 140, g: 160, b: 255, a: 255 },
                    },
                );
                if self.debug_expand_width && too_wide {
                    let red = Rgba { r: 200, g: 0, b: 0, a: 255 };
                    let right = rect.min.x + rect.size.x;
                    let bottom = rect.min.y + rect.size.y;
                    let center_y = rect.min.y + rect.size.y / 2;
                    out.push(
                        PaintCmd::LineSegment {
                            a: rect.min,
                            b: Vec2i::new(rect.min.x, bottom),
                            stroke_width: 2,
                            color: red,
                        },
                    );
                    out.push(
                        PaintCmd::LineSegment {
                            a: Vec2i::new(rect.min.x, center_y),
                            b: Vec2i::new(right, center_y),
                            stroke_width: 2,
                            color: red,
                        },
                    );
                    out.push(
                        PaintCmd::LineSegment {
                            a: Vec2i::new(right, rect.min.y),
                            b: Vec2i::new(right, bottom),
                            stroke_width: 2,
                            color: red,
                        },
                    );
                }
            }
        }
        proof {
            assert(out@ =~= old(self).spec_advance_paints(widget_rect));
        }
        let w = max_i64(widget_rect.size.x, self.min_cell_size.x);
        let h = max_i64(widget_rect.size.y, self.min_cell_size.y);
        let col = self.col;
        let row = self.row;
        self.curr_state.set_min_col_width(col, w);
        self.curr_state.set_min_row_height(row, h);
        self.col = self.col + 1;
        cursor.x = cursor.x + frame_width + self.spacing.x;
        out
    }

    /// Close the current row: return the cursor to the row anchor, move
    /// it down by the previous frame's height for this row, step to the
    /// next row, and run the paint pass for the row about to start.
    pub fn end_row(&mut self, cursor: &mut Vec2i) -> (paints: Vec<PaintCmd>)
        requires
            old(self).wf(),
            old(self).row < MAX_TRACKS,
            old(cursor).spec_in_range(),
        ensures
            final(self).wf(),
            final(self).col == 0,
            final(self).row == old(self).row + 1,
            final(self).prev_state == old(self).prev_state,
            final(self).curr_state == old(self).curr_state,
            final(self).id == old(self).id,
            final(self).spacing == old(self).spacing,
            final(self).color_spec == old(self).color_spec,
            final(self).initial_x == old(self).initial_x,
            final(self).min_cell_size == old(self).min_cell_size,
            final(self).max_cell_width == old(self).max_cell_width,
            final(self).max_cell_height == old(self).max_cell_height,
            final(self).dark_mode == old(self).dark_mode,
            final(self).debug_expand_width == old(self).debug_expand_width,
            final(self).debug_expand_height == old(self).debug_expand_height,
            final(cursor).x == old(self).initial_x,
            final(cursor).y == old(cursor).y + old(self).spec_prev_row_height(
                old(self).row as int,
            ) + old(self).spacing.y,
            paints@ == final(self).spec_do_paint(*final(cursor)),
    {
        let row_height = self.prev_row_height(self.row);
        cursor.x = self.initial_x;
        cursor.y = cursor.y + row_height + self.spacing.y;
        self.col = 0;
        self.row = self.row + 1;
        self.do_paint(*cursor)
    }

    /// Persist this frame's accumulated state if it differs from the
    /// previous frame's, replacing it wholesale; the grid then needs one
    /// more frame to reach visual equilibrium, so a repaint is requested
    /// (`true`).
    pub fn save(&self, store: &mut InstanceStore) -> (repaint: bool)
        requires
            self.wf(),
            old(store).wf(),
        ensures
            final(store).wf(),
            repaint == !(self.curr_state@ == self.prev_state@),
            repaint ==> final(store)@ == old(store)@.insert(
                self.id,
                (GRID_STATE_KEY, GridState::spec_encode(self.curr_state@)),
            ),
            !repaint ==> final(store)@ == old(store)@,
    {
        let same = self.curr_state == self.prev_state;
        proof {
            if self.curr_state@ == self.prev_state@ {
                assert(self.curr_state.col_widths@ == self.prev_state.col_widths@);
            }
            if same {
                assert(self.curr_state@ =~= self.prev_state@);
            }
        }
        if !same {
            store.insert::<GridState>(self.id, &self.curr_state);
            true
        } else {
            false
        }
    }
}

/// A frame's recording pass, abstractly: the track that results from
/// recording the given `(index, size)` measurements in order, starting
/// from nothing.
pub open spec fn spec_record_frame(cells: Seq<(usize, i64)>) -> Seq<i64>
    decreases cells.len(),
{
    if cells.len() == 0 {
        Seq::empty()
    } else {
        spec_set_min(
            spec_record_frame(cells.drop_last()),
            cells.last().0 as int,
            cells.last().1,
        )
    }
}

/// What a frame records for an index is at least every measurement made
/// at that index during the frame.
pub proof fn lemma_frame_dominates(cells: Seq<(usize, i64)>, k: int)
    requires
        0 <= k < cells.len(),
    ensures
        spec_record_frame(cells).len() > cells[k].0,
        spec_record_frame(cells)[cells[k].0 as int] >= cells[k].1,
    decreases cells.len(),
{
    let head = cells.drop_last();
    let prev = spec_record_frame(head);
    if k == cells.len() - 1 {
        lemma_record_dominates(prev, cells.last().0 as int, cells.last().1);
    } else {
        lemma_frame_dominates(head, k);
        lemma_record_dominates(prev, cells[k].0 as int, cells[k].1);
        lemma_record_monotone(prev, cells.last().0 as int, cells.last().1, cells[k].0 as int);
    }
}

/// Cross-frame monotonicity under no shrink: when some cell of a frame
/// measures column `i` at least as wide as the width stored for it by the
/// previous frame, the width the frame saves for `i` does not shrink.
/// Applied frame after frame, `col_widths[i]` is non-decreasing for as
/// long as no frame under-measures the column; a frame whose every cell
/// in the column measures narrower does shrink it, because the save
/// replaces the stored state wholesale.
/// Grid-state monotonicity across frames. A frame's save replaces the
/// stored tracks wholesale, so the widths stored after frame `f` are
/// exactly what frame `f` recorded. Given a run of frames in which each
/// frame after the first measures column `i` at least as wide as the
/// width stored before it — no explicit shrink — the stored width of
/// column `i` is non-decreasing across the whole run.
pub proof fn lemma_col_widths_monotone_across_frames(frames: Seq<Seq<(usize, i64)>>, i: usize)
    requires
        forall|f: int|
            #![trigger frames[f]]
            0 < f < frames.len() ==> exists|k: int|
                0 <= k < frames[f].len() && (#[trigger] frames[f][k]).0 == i && frames[f][k].1
                    >= spec_record_frame(frames[f - 1])[i as int],
    ensures
        forall|f: int|
            0 <= f < frames.len() - 1 ==> spec_record_frame(#[trigger] frames[f + 1]).len() > i
                && spec_record_frame(frames[f + 1])[i as int] >= spec_record_frame(frames[f])[i as int],
{
    assert forall|f: int| 0 <= f < frames.len() - 1 implies spec_record_frame(
        #[trigger] frames[f + 1],
    ).len() > i && spec_record_frame(frames[f + 1])[i as int] >= spec_record_frame(frames[f])[i as int] by {
        assert(0 < f + 1 < frames.len());
        let k = choose|k: int|
            0 <= k < frames[f + 1].len() && (#[trigger] frames[f + 1][k]).0 == i && frames[f
                + 1][k].1 >= spec_record_frame(frames[f])[i as int];
        lemma_frame_dominates(frames[f + 1], k);
    }
}

pub proof fn lemma_no_shrink_keeps_widths(
    prev_width: i64,
    cells: Seq<(usize, i64)>,
    k: int,
    i: usize,
)
    requires
        0 <= k < cells.len(),
        cells[k].0 == i,
        cells[k].1 >= prev_width,
    ensures
        spec_record_frame(cells).len() > i,
        spec_record_frame(cells)[i as int] >= prev_width,
{
    lemma_frame_dominates(cells, k);
}


/// A simple grid layout, built up before the pass starts.
///
/// Cells are laid out left to right, top-down; each cell's contents are
/// aligned to the left and vertically centered. Configure it here, then
/// call [`Grid::begin`] with the store and the host style to start the
/// frame's pass.
pub struct Grid {
    /// The instance key naming this grid in the store.
    pub id: u64,
    /// Paint every other row with a subtle background.
    pub striped: bool,
    /// Paint row 0 with a header background.
    pub header_row: bool,
    /// Minimum column width, the style's default when unset.
    pub min_col_width: Option<i64>,
    /// Minimum row height, the style's default when unset.
    pub min_row_height: Option<i64>,
    /// Soft maximum (wrapping) cell width.
    pub max_cell_width: Option<i64>,
    /// Spacing between cells, the style's default when unset.
    pub spacing: Option<Vec2i>,
    /// Conditional background coloring.
    pub color_spec: ColorSpec,
}

impl Grid {
    /// The configured bounds, where set, are valid cell dimensions.
    pub open spec fn spec_wf(self) -> bool {
        &&& (self.min_col_width matches Some(w) ==> 0 <= w <= MAX_DIM)
        &&& (self.min_row_height matches Some(h) ==> 0 <= h <= MAX_DIM)
        &&& (self.max_cell_width matches Some(w) ==> 0 <= w <= MAX_DIM)
        &&& (self.spacing matches Some(s) ==> 0 <= s.x <= MAX_DIM && 0 <= s.y <= MAX_DIM)
    }

    /// A grid under the given locally unique instance key, with every
    /// option at its default.
    pub fn new(id: u64) -> (r: Grid)
        ensures
            r.id == id,
            !r.striped,
            !r.header_row,
            r.min_col_width is None,
            r.min_row_height is None,
            r.max_cell_width is None,
            r.spacing is None,
            r.color_spec.list@ == Seq::<CellColor>::empty(),
            r.color_spec.by_row@ == Seq::<SinglePredicate>::empty(),
            r.color_spec.by_column@ == Seq::<SinglePredicate>::empty(),
            r.color_spec.by_cell@ == Seq::<DoublePredicate>::empty(),
            r.spec_wf(),
    {
        Grid {
            id,
            striped: false,
            header_row: false,
            min_col_width: None,
            min_row_height: None,
            max_cell_width: None,
            spacing: None,
            color_spec: ColorSpec::new(),
        }
    }

    /// Add a column predicate: columns the rule selects get `color`.
    pub fn with_column_spec(self, color: GuiColor, rule: IndexRule) -> (r: Grid)
        ensures
            r.color_spec.by_column@ == self.color_spec.by_column@.push(
                SinglePredicate { color, rule },
            ),
            r.color_spec.by_row@ == self.color_spec.by_row@,
            r.color_spec.by_cell@ == self.color_spec.by_cell@,
            r.color_spec.list@ == self.color_spec.list@,
            r.id == self.id,
            r.striped == self.striped,
            r.header_row == self.header_row,
            r.min_col_width == self.min_col_width,
            r.min_row_height == self.min_row_height,
            r.max_cell_width == self.max_cell_width,
            r.spacing == self.spacing,
    {
        let mut g = self;
        g.color_spec.by_column.push(SinglePredicate { color, rule });
        g
    }

    /// Add a row predicate: rows the rule selects get `color`.
    pub fn with_row_spec(self, color: GuiColor, rule: IndexRule) -> (r: Grid)
        ensures
            r.color_spec.by_row@ == self.color_spec.by_row@.push(
                SinglePredicate { color, rule },
            ),
            r.color_spec.by_column@ == self.color_spec.by_column@,
            r.color_spec.by_cell@ == self.color_spec.by_cell@,
            r.color_spec.list@ == self.color_spec.list@,
            r.id == self.id,
            r.striped == self.striped,
            r.header_row == self.header_row,
            r.min_col_width == self.min_col_width,
            r.min_row_height == self.min_row_height,
            r.max_cell_width == self.max_cell_width,
            r.spacing == self.spacing,
    {
        let mut g = self;
        g.color_spec.by_row.push(SinglePredicate { color, rule });
        g
    }

    /// Add a cell predicate: cells whose row and column both match get
    /// `color`.
    pub fn with_cell_spec(self, color: GuiColor, row_rule: IndexRule, col_rule: IndexRule) -> (
        r: Grid)
        ensures
            r.color_spec.by_cell@ == self.color_spec.by_cell@.push(
                DoublePredicate { color, row_rule, col_rule },
            ),
            r.color_spec.by_row@ == self.color_spec.by_row@,
            r.color_spec.by_column@ == self.color_spec.by_column@,
            r.color_spec.list@ == self.color_spec.list@,
            r.id == self.id,
            r.striped == self.striped,
            r.header_row == self.header_row,
            r.min_col_width == self.min_col_width,
            r.min_row_height == self.min_row_height,
            r.max_cell_width == self.max_cell_width,
            r.spacing == self.spacing,
    {
        let mut g = self;
        g.color_spec.by_cell.push(DoublePredicate { color, row_rule, col_rule });
        g
    }

    /// Color one cell explicitly; a later call for the same cell wins.
    pub fn with_cell_color(self, row: usize, col: usize, color: GuiColor) -> (r: Grid)
        ensures
            r.color_spec.list@ == self.color_spec.list@.push(CellColor { row, col, color }),
            r.color_spec.by_row@ == self.color_spec.by_row@,
            r.color_spec.by_column@ == self.color_spec.by_column@,
            r.color_spec.by_cell@ == self.color_spec.by_cell@,
            r.id == self.id,
            r.striped == self.striped,
            r.header_row == self.header_row,
            r.min_col_width == self.min_col_width,
            r.min_row_height == self.min_row_height,
            r.max_cell_width == self.max_cell_width,
            r.spacing == self.spacing,
    {
        let mut g = self;
        g.color_spec.list.push(CellColor { row, col, color });
        g
    }

    /// If `true`, add a subtle background to every other row; this can
    /// make a table easier to read.
    pub fn striped(self, striped: bool) -> (r: Grid)
        ensures
            r == (Grid { striped, ..self }),
    {
        Grid { striped, ..self }
    }

    /// If `true`, give row 0 a header background.
    pub fn header_row(self, header_row: bool) -> (r: Grid)
        ensures
            r == (Grid { header_row, ..self }),
    {
        Grid { header_row, ..self }
    }

    /// Set the minimum width of each column.
    pub fn min_col_width(self, min_col_width: i64) -> (r: Grid)
        ensures
            r == (Grid { min_col_width: Some(min_col_width), ..self }),
    {
        Grid { min_col_width: Some(min_col_width), ..self }
    }

    /// Set the minimum height of each row.
    pub fn min_row_height(self, min_row_height: i64) -> (r: Grid)
        ensures
            r == (Grid { min_row_height: Some(min_row_height), ..self }),
    {
        Grid { min_row_height: Some(min_row_height), ..self }
    }

    /// Set the soft maximum (wrapping) width of each column.
    pub fn max_col_width(self, max_col_width: i64) -> (r: Grid)
        ensures
            r == (Grid { max_cell_width: Some(max_col_width), ..self }),
    {
        Grid { max_cell_width: Some(max_col_width), ..self }
    }

    /// Set the spacing between columns and rows.
    pub fn spacing(self, spacing: Vec2i) -> (r: Grid)
        ensures
            r == (Grid { spacing: Some(spacing), ..self }),
    {
        Grid { spacing: Some(spacing), ..self }
    }

    /// The subtle every-other-row background pushed by `striped`.
    pub open spec fn spec_stripe_rule() -> SinglePredicate {
        SinglePredicate {
            color: GuiColor::Pair {
                light: Rgba { r: 0, g: 0, b: 0, a: 19 },
                dark: Rgba { r: 255, g: 255, b: 255, a: 2 },
            },
            rule: IndexRule::Even,
        }
    }

    /// The row-0 background pushed by `header_row`.
    pub open spec fn spec_header_rule() -> SinglePredicate {
        SinglePredicate {
            color: GuiColor::Pair {
                light: Rgba { r: 0, g: 0, b: 0, a: 191 },
                dark: Rgba { r: 255, g: 255, b: 255, a: 19 },
            },
            rule: IndexRule::Is(0),
        }
    }

    /// Start the frame's pass: recall the previous frame's state from
    /// the store, resolve the unset options against the host style, and
    /// append the convenience stripe and header rules.
    pub fn begin(self, store: &mut InstanceStore, initial_x: i64, style: &GridStyle) -> (g:
        GridLayout)
        requires
            old(store).wf(),
            in_coord(initial_x),
            style.spec_wf(),
            self.spec_wf(),
        ensures
            final(store).wf(),
            final(store)@ == spec_after_get::<GridState>(old(store)@, self.id),
            g.id == self.id,
            g.prev_state@ == spec_got::<GridState>(old(store)@, self.id),
            g.curr_state@ == (GridView { col_widths: Seq::empty(), row_heights: Seq::empty() }),
            g.spacing == (match self.spacing {
                Some(s) => s,
                None => style.item_spacing,
            }),
            g.min_cell_size == (Vec2i {
                x: match self.min_col_width {
                    Some(w) => w,
                    None => style.interact_size.x,
                },
                y: match self.min_row_height {
                    Some(h) => h,
                    None => style.interact_size.y,
                },
            }),
            g.max_cell_width == self.max_cell_width,
            g.max_cell_height is None,
            g.initial_x == initial_x,
            g.dark_mode == style.dark_mode,
            g.debug_expand_width == style.debug_expand_width,
            g.debug_expand_height == style.debug_expand_height,
            g.col == 0,
            g.row == 0,
            g.color_spec.by_row@ == self.color_spec.by_row@ + (if self.striped {
                seq![Grid::spec_stripe_rule()]
            } else {
                Seq::empty()
            }) + (if self.header_row {
                seq![Grid::spec_header_rule()]
            } else {
                Seq::empty()
            }),
            g.color_spec.by_column@ == self.color_spec.by_column@,
            g.color_spec.by_cell@ == self.color_spec.by_cell@,
            g.color_spec.list@ == self.color_spec.list@,
            g.wf(),
    {
        let mut g = GridLayout::new(store, self.id, initial_x, style);
        g.spacing = match self.spacing {
            Some(s) => s,
            None => style.item_spacing,
        };
        g.min_cell_size = Vec2i::new(
            match self.min_col_width {
                Some(w) => w,
                None => style.interact_size.x,
            },
            match self.min_row_height {
                Some(h) => h,
                None => style.interact_size.y,
            },
        );
        g.max_cell_width = self.max_cell_width;
        let ghost base = self.color_spec.by_row@;
        g.color_spec = self.color_spec;
        if self.striped {
            g.color_spec.by_row.push(
                SinglePredicate {
                    color: GuiColor::pair(Rgba::new(0, 0, 0, 19), Rgba::new(255, 255, 255, 2)),
                    rule: IndexRule::Even,
                },
            );
        }
        if self.header_row {
            g.color_spec.by_row.push(
                SinglePredicate {
                    color: GuiColor::pair(Rgba::new(0, 0, 0, 191), Rgba::new(255, 255, 255, 19)),
                    rule: IndexRule::Is(0),
                },
            );
        }
        proof {
            assert(g.color_spec.by_row@ =~= base + (if self.striped {
                seq![Grid::spec_stripe_rule()]
            } else {
                Seq::empty()
            }) + (if self.header_row {
                seq![Grid::spec_header_rule()]
            } else {
                Seq::empty()
            }));
        }
        g
    }
}

} // verus!
