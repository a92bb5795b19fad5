use ui_memory::color::{GuiColor, Rgba};
use ui_memory::geom::{Recti, Vec2i};
use ui_memory::grid::{Grid, GridRegion, GridState, GridStyle, IndexRule};
use ui_memory::paint::PaintCmd;
use ui_memory::store::{InstanceStore, StoreItem};

fn style() -> GridStyle {
    GridStyle {
        item_spacing: Vec2i::new(0, 0),
        interact_size: Vec2i::new(0, 0),
        dark_mode: false,
        debug_expand_width: false,
        debug_expand_height: false,
    }
}

fn cell(w: i64, h: i64) -> Recti {
    Recti::from_min_size(Vec2i::new(0, 0), Vec2i::new(w, h))
}

/// Run one frame of a grid with the given measured cell sizes per row.
fn run_frame(store: &mut InstanceStore, id: u64, rows: &[&[(i64, i64)]]) -> bool {
    let mut layout = Grid::new(id).begin(store, 0, &style());
    let mut cursor = Vec2i::new(0, 0);
    for row in rows {
        for &(w, h) in *row {
            let _ = layout.advance(&mut cursor, w, cell(w, h));
        }
        let _ = layout.end_row(&mut cursor);
    }
    layout.save(store)
}

#[test]
fn first_frame_records_columnwise_maxima() {
    // Two rows measuring widths [40, 60] and [50, 30]: the stored
    // widths are the column-wise maxima [50, 60]; the heights are each
    // row's own tallest cell.
    let mut store = InstanceStore::new();
    let repaint = run_frame(&mut store, 1, &[&[(40, 12), (60, 9)], &[(50, 7), (30, 11)]]);
    assert!(repaint);
    let state: Option<GridState> = store.get(1);
    let state = state.expect("saved");
    assert_eq!(state.col_widths, vec![50, 60]);
    assert_eq!(state.row_heights, vec![12, 11]);
}

#[test]
fn save_skips_store_when_nothing_changed() {
    let mut store = InstanceStore::new();
    let first = run_frame(&mut store, 1, &[&[(40, 10), (60, 10)]]);
    assert!(first);
    // The same content measured again: no change, no repaint request.
    let second = run_frame(&mut store, 1, &[&[(40, 10), (60, 10)]]);
    assert!(!second);
}

#[test]
fn widths_do_not_shrink_while_content_keeps_its_size() {
    // Cross-frame monotonicity under no shrink: a frame whose cells
    // measure at least as wide as before never lowers a stored width.
    let mut store = InstanceStore::new();
    run_frame(&mut store, 1, &[&[(40, 10)]]);
    run_frame(&mut store, 1, &[&[(55, 10)]]);
    let state: Option<GridState> = store.get(1);
    assert_eq!(state.expect("saved").col_widths, vec![55]);
    run_frame(&mut store, 1, &[&[(55, 10)]]);
    let state: Option<GridState> = store.get(1);
    assert_eq!(state.expect("saved").col_widths, vec![55]);
}

#[test]
fn prediction_uses_previous_frame_widths() {
    let mut store = InstanceStore::new();
    run_frame(&mut store, 1, &[&[(50, 10), (60, 10)]]);
    let layout = Grid::new(1).begin(&mut store, 0, &style());
    let region = GridRegion { cursor_min: Vec2i::new(0, 0), bottom_y: 100 };
    // Column 0 is offered last frame's width for column 0.
    let r = layout.available_rect(&region);
    assert_eq!(r.size.x, 50);
    assert_eq!(r.size.y, 100);
}

#[test]
fn prediction_falls_back_to_current_frame_then_minimum() {
    let mut st = style();
    st.interact_size = Vec2i::new(25, 15);
    let mut store = InstanceStore::new();
    let mut layout = Grid::new(1).begin(&mut store, 0, &st);
    let region = GridRegion { cursor_min: Vec2i::new(0, 0), bottom_y: 10 };
    // Nothing known: the minimum cell size answers, and the height is
    // floored at the minimum cell height.
    let r = layout.available_rect(&region);
    assert_eq!(r.size.x, 25);
    assert_eq!(r.size.y, 15);
    // A configured wrap width short-circuits history.
    let mut cursor = Vec2i::new(0, 0);
    let _ = layout.advance(&mut cursor, 30, cell(30, 20));
    assert_eq!(layout.col, 1);
    assert_eq!(layout.curr_state.col_widths, vec![30]);
}

#[test]
fn max_col_width_bounds_the_offer() {
    let mut store = InstanceStore::new();
    let layout = Grid::new(1).max_col_width(42).begin(&mut store, 0, &style());
    assert!(layout.wrap_text());
    let region = GridRegion { cursor_min: Vec2i::new(0, 0), bottom_y: 100 };
    assert_eq!(layout.available_rect(&region).size.x, 42);
}

#[test]
fn advance_moves_the_cursor_and_end_row_resets_it() {
    let mut store = InstanceStore::new();
    let mut st = style();
    st.item_spacing = Vec2i::new(3, 2);
    let mut layout = Grid::new(1).begin(&mut store, 7, &st);
    let mut cursor = Vec2i::new(7, 0);
    let _ = layout.advance(&mut cursor, 40, cell(40, 10));
    assert_eq!(cursor, Vec2i::new(50, 0));
    let _ = layout.advance(&mut cursor, 60, cell(60, 10));
    assert_eq!(cursor, Vec2i::new(113, 0));
    let _ = layout.end_row(&mut cursor);
    // Back to the row anchor, down by the previous frame's height for
    // the finished row (nothing known: the minimum, 0) plus spacing.
    assert_eq!(cursor, Vec2i::new(7, 2));
    assert_eq!(layout.col, 0);
    assert_eq!(layout.row, 1);
}

#[test]
fn striped_grid_paints_even_rows() {
    let mut store = InstanceStore::new();
    // Last frame saw a 2-column grid with one 8-pixel row.
    let mut prev = GridState::new_empty();
    prev.set_min_col_width(0, 10);
    prev.set_min_col_width(1, 20);
    prev.set_min_row_height(0, 8);
    store.insert(1, &prev);

    let layout = Grid::new(1).striped(true).begin(&mut store, 0, &style());
    let paints = layout.do_paint(Vec2i::new(0, 0));
    // Row 0 is even, so exactly the stripe background is painted.
    assert_eq!(paints.len(), 1);
    match paints[0] {
        PaintCmd::FillRect { rect, corner_radius, fill } => {
            assert_eq!(rect.min, Vec2i::new(-2, 0));
            // full width 30, expanded by 5; height 8 plus the padding 2.
            assert_eq!(rect.size, Vec2i::new(35, 10));
            assert_eq!(corner_radius, 2);
            // Light scheme color of the stripe pair.
            assert_eq!(fill, Rgba::new(0, 0, 0, 19));
        },
        _ => panic!("expected a filled rectangle"),
    }
}

#[test]
fn cell_override_later_entry_wins() {
    let red = GuiColor::single(Rgba::new(255, 0, 0, 255));
    let blue = GuiColor::single(Rgba::new(0, 0, 255, 255));
    let mut store = InstanceStore::new();
    let mut prev = GridState::new_empty();
    prev.set_min_col_width(0, 10);
    store.insert(1, &prev);
    let layout = Grid::new(1)
        .with_cell_color(0, 0, red)
        .with_cell_color(0, 0, blue)
        .begin(&mut store, 0, &style());
    let paints = layout.do_paint(Vec2i::new(0, 0));
    assert_eq!(paints.len(), 1);
    match paints[0] {
        PaintCmd::FillRect { fill, .. } => assert_eq!(fill, Rgba::new(0, 0, 255, 255)),
        _ => panic!("expected a filled rectangle"),
    }
}

#[test]
fn paint_order_is_row_then_column_then_cell() {
    let row_color = GuiColor::single(Rgba::new(1, 0, 0, 255));
    let col_color = GuiColor::single(Rgba::new(2, 0, 0, 255));
    let cell_color = GuiColor::single(Rgba::new(3, 0, 0, 255));
    let mut store = InstanceStore::new();
    let mut prev = GridState::new_empty();
    prev.set_min_col_width(0, 10);
    prev.set_min_row_height(0, 8);
    store.insert(1, &prev);
    let layout = Grid::new(1)
        .with_row_spec(row_color, IndexRule::Any)
        .with_column_spec(col_color, IndexRule::Any)
        .with_cell_spec(cell_color, IndexRule::Any, IndexRule::Any)
        .begin(&mut store, 0, &style());
    let paints = layout.do_paint(Vec2i::new(0, 0));
    let fills: Vec<u8> = paints
        .iter()
        .map(|p| match p {
            PaintCmd::FillRect { fill, .. } => fill.r,
            _ => panic!("expected filled rectangles"),
        })
        .collect();
    assert_eq!(fills, vec![1, 2, 3]);
}

#[test]
fn header_rule_hits_only_row_zero() {
    assert!(IndexRule::Is(0).applies(0));
    assert!(!IndexRule::Is(0).applies(1));
    assert!(IndexRule::Even.applies(0));
    assert!(!IndexRule::Even.applies(1));
    assert!(IndexRule::Even.applies(2));
    assert!(IndexRule::Odd.applies(3));
    assert!(IndexRule::Any.applies(17));
}

#[test]
fn debug_overlay_marks_overgrown_cells() {
    let mut st = style();
    st.debug_expand_width = true;
    let mut store = InstanceStore::new();
    let mut prev = GridState::new_empty();
    prev.set_min_col_width(0, 10);
    prev.set_min_row_height(0, 10);
    store.insert(1, &prev);
    let mut layout = Grid::new(1).begin(&mut store, 0, &st);
    let mut cursor = Vec2i::new(0, 0);
    // Within the prediction: no overlay.
    let quiet = layout.advance(&mut cursor, 10, cell(10, 10));
    assert_eq!(quiet.len(), 0);
    // Wider than predicted: an outline and three guide lines.
    let loud = layout.advance(&mut cursor, 30, cell(30, 10));
    assert_eq!(loud.len(), 4);
    assert!(matches!(loud[0], PaintCmd::StrokeRect { .. }));
    assert!(matches!(loud[1], PaintCmd::LineSegment { .. }));
}

#[test]
fn grid_state_dimension_queries() {
    let mut g = GridState::new_empty();
    g.set_min_col_width(2, 30);
    assert_eq!(g.cols(), 3);
    assert_eq!(g.col_width(0), Some(0));
    assert_eq!(g.col_width(2), Some(30));
    assert_eq!(g.col_width(3), None);
    g.set_min_row_height(0, 7);
    assert_eq!(g.rows(), 1);
    assert_eq!(g.row_height(0), Some(7));
    // full width: 0 + 0 + 30 with spacing 5 between three columns.
    assert_eq!(g.full_width(5), 40);
    assert_eq!(g.full_height(5), 7);
}

#[test]
fn end_row_paints_the_upcoming_row_from_previous_geometry() {
    let mut store = InstanceStore::new();
    let mut prev = GridState::new_empty();
    prev.set_min_col_width(0, 10);
    prev.set_min_row_height(0, 5);
    prev.set_min_row_height(1, 6);
    prev.set_min_row_height(2, 7);
    store.insert(1, &prev);
    let mut layout = Grid::new(1).striped(true).begin(&mut store, 0, &style());
    let mut cursor = Vec2i::new(0, 0);
    let _ = layout.advance(&mut cursor, 10, cell(10, 5));
    // Ending row 0 starts row 1, which is odd: the stripe does not apply.
    let paints = layout.end_row(&mut cursor);
    assert_eq!(paints.len(), 0);
    // Ending row 1 starts row 2, even again: one stripe, 7 px tall from
    // last frame's record for that row.
    let _ = layout.advance(&mut cursor, 10, cell(10, 6));
    let paints = layout.end_row(&mut cursor);
    assert_eq!(paints.len(), 1);
    match paints[0] {
        PaintCmd::FillRect { rect, .. } => assert_eq!(rect.size.y, 9),
        _ => panic!("expected the stripe fill"),
    }
}

#[test]
fn cell_contents_align_left_and_center_vertically() {
    let mut store = InstanceStore::new();
    let layout = Grid::new(1).begin(&mut store, 0, &style());
    let frame = Recti::from_min_size(Vec2i::new(10, 20), Vec2i::new(100, 30));
    let placed = layout.align_size_within_rect(Vec2i::new(40, 10), frame);
    assert_eq!(placed.min, Vec2i::new(10, 30));
    assert_eq!(placed.size, Vec2i::new(40, 10));
    let same = layout.justify_and_align(frame, Vec2i::new(40, 10));
    assert_eq!(same, placed);
}
