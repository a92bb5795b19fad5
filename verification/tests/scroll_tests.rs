use ui_memory::color::Rgba;
use ui_memory::frame::{FrameState, ScrollTarget};
use ui_memory::geom::{Recti, Vec2i};
use ui_memory::scroll::{
    max_scroll_bar_width_with_margin, BeginInput, Prepared, ScrollArea, ScrollInput, ScrollState,
    ScrollStyle,
};
use ui_memory::store::{InstanceStore, StoreItem};

fn style() -> ScrollStyle {
    ScrollStyle {
        item_spacing_x: 4,
        clip_rect_margin: 0,
        bg_fill: Rgba::new(10, 10, 10, 255),
        handle_fill: Rgba::new(200, 200, 200, 255),
        handle_stroke_color: Rgba::new(255, 255, 255, 255),
        handle_stroke_width: 1,
    }
}

fn begin_input(width: i64, height: i64) -> BeginInput {
    BeginInput {
        avail_min: Vec2i::new(0, 0),
        avail_width: width,
        avail_height: height,
        ambient_clip: Recti::from_min_size(Vec2i::new(-10_000, -10_000), Vec2i::new(50_000, 50_000)),
        animated_ratio_pm: 0,
    }
}

fn quiet_input() -> ScrollInput {
    ScrollInput {
        content_dragged: false,
        drag_delta_y: 0,
        drag_velocity: Vec2i::new(0, 0),
        dt_ms: 16,
        pointer_over_outer: false,
        wheel_delta_y: 0,
        bar_dragged: false,
        pointer_pos: None,
        cold_start_ratio_pm: 1000,
    }
}

fn begin(store: &mut InstanceStore, id: u64) -> Prepared {
    ScrollArea::auto_sized().begin(store, id, &begin_input(100, 200), &style())
}

#[test]
fn wheel_cannot_scroll_above_top() {
    // content 500 px tall in a 200 px viewport; a wheel delta of +50
    // would move the offset to -50, which clamps back to 0.
    let mut store = InstanceStore::new();
    let mut frame = FrameState::new();
    let prepared = begin(&mut store, 1);
    assert_eq!(prepared.inner_rect.size.y, 200);
    let mut input = quiet_input();
    input.pointer_over_outer = true;
    input.wheel_delta_y = 50;
    let out = prepared.end(&mut store, &mut frame, Vec2i::new(100, 500), &input, &style());
    assert_eq!(out.state.offset.y, 0);
    assert!(out.state.show_scroll);
}

#[test]
fn wheel_scrolls_down_and_clamps_at_bottom() {
    let mut store = InstanceStore::new();
    let mut frame = FrameState::new();
    let mut input = quiet_input();
    input.pointer_over_outer = true;
    input.wheel_delta_y = -120;
    let out = begin(&mut store, 1).end(
        &mut store,
        &mut frame,
        Vec2i::new(100, 500),
        &input,
        &style(),
    );
    assert_eq!(out.state.offset.y, 120);

    // A huge wheel delta cannot scroll past content_height − inner_height.
    let mut input = quiet_input();
    input.pointer_over_outer = true;
    input.wheel_delta_y = -100_000;
    let out = begin(&mut store, 1).end(
        &mut store,
        &mut frame,
        Vec2i::new(100, 500),
        &input,
        &style(),
    );
    assert_eq!(out.state.offset.y, 300);
}

#[test]
fn wheel_ignored_when_pointer_elsewhere() {
    let mut store = InstanceStore::new();
    let mut frame = FrameState::new();
    let mut input = quiet_input();
    input.pointer_over_outer = false;
    input.wheel_delta_y = -50;
    let out = begin(&mut store, 1).end(
        &mut store,
        &mut frame,
        Vec2i::new(100, 500),
        &input,
        &style(),
    );
    assert_eq!(out.state.offset.y, 0);
}

#[test]
fn scroll_target_centers_and_is_consumed() {
    // target=400, center ratio one half, clip height 200, content top 0:
    // offset.y = 400 − 0 − 100 = 300; the request is gone afterwards.
    let mut store = InstanceStore::new();
    let mut frame = FrameState::new();
    frame.set_scroll_target(Some(ScrollTarget { target_y: 400, center_per_mille: 500 }));
    let prepared = begin(&mut store, 1);
    assert_eq!(prepared.content_clip.size.y, 200);
    assert_eq!(prepared.content_min.y, 0);
    let out = prepared.end(&mut store, &mut frame, Vec2i::new(100, 500), &quiet_input(), &style());
    assert_eq!(out.state.offset.y, 300);
    assert_eq!(frame.scroll_target(), None);
}

#[test]
fn frame_state_is_a_mailbox_not_a_queue() {
    let mut frame = FrameState::new();
    frame.set_scroll_target(Some(ScrollTarget { target_y: 10, center_per_mille: 0 }));
    frame.set_scroll_target(Some(ScrollTarget { target_y: 99, center_per_mille: 0 }));
    assert_eq!(
        frame.scroll_target(),
        Some(ScrollTarget { target_y: 99, center_per_mille: 0 })
    );
    assert_eq!(
        frame.take_scroll_target(),
        Some(ScrollTarget { target_y: 99, center_per_mille: 0 })
    );
    assert_eq!(frame.scroll_target(), None);
    frame.set_scroll_target(Some(ScrollTarget { target_y: 5, center_per_mille: 0 }));
    frame.begin_frame();
    assert_eq!(frame.scroll_target(), None);
}

#[test]
fn drag_scrolls_and_stores_velocity() {
    let mut store = InstanceStore::new();
    let mut frame = FrameState::new();
    let mut input = quiet_input();
    input.content_dragged = true;
    input.drag_delta_y = -40;
    input.drag_velocity = Vec2i::new(0, -700);
    let out = begin(&mut store, 1).end(
        &mut store,
        &mut frame,
        Vec2i::new(100, 500),
        &input,
        &style(),
    );
    assert_eq!(out.state.offset.y, 40);
    assert_eq!(out.state.vel, Vec2i::new(0, -700));
}

#[test]
fn kinetic_decay_reaches_exact_zero_and_stays_there() {
    // Seed a velocity, then let frames run with no input: each frame
    // sheds friction = 1000 px/s² · 0.1 s = 100 px/s until the velocity
    // snaps to exactly zero, where it stays.
    let mut store = InstanceStore::new();
    let mut frame = FrameState::new();
    let mut seeded = ScrollState::default_item();
    seeded.vel = Vec2i::new(0, 300);
    store.insert(1, &seeded);

    let mut input = quiet_input();
    input.dt_ms = 100;

    let mut speeds = Vec::new();
    for _ in 0..5 {
        let out = begin(&mut store, 1).end(
            &mut store,
            &mut frame,
            Vec2i::new(100, 500),
            &input,
            &style(),
        );
        speeds.push(out.state.vel.y);
    }
    assert_eq!(speeds, vec![200, 100, 0, 0, 0]);

    // Once stopped, no repaint is requested for the settled animation.
    let out = begin(&mut store, 1).end(
        &mut store,
        &mut frame,
        Vec2i::new(100, 500),
        &input,
        &style(),
    );
    assert_eq!(out.state.vel, Vec2i::new(0, 0));
    assert!(!out.repaint);
}

#[test]
fn kinetic_motion_moves_offset_and_requests_repaint() {
    let mut store = InstanceStore::new();
    let mut frame = FrameState::new();
    let mut seeded = ScrollState::default_item();
    seeded.offset.y = 100;
    seeded.vel = Vec2i::new(0, -300);
    store.insert(1, &seeded);
    let mut input = quiet_input();
    input.dt_ms = 100;
    let out = begin(&mut store, 1).end(
        &mut store,
        &mut frame,
        Vec2i::new(100, 500),
        &input,
        &style(),
    );
    // velocity decays to −200 px/s, offset moves by +200·0.1 = +20.
    assert_eq!(out.state.vel.y, -200);
    assert_eq!(out.state.offset.y, 120);
    assert!(out.repaint);
}

#[test]
fn offset_is_clamped_after_end_whatever_was_stored() {
    let mut store = InstanceStore::new();
    let mut frame = FrameState::new();
    let mut seeded = ScrollState::default_item();
    seeded.offset.y = 10_000;
    store.insert(1, &seeded);
    let out = begin(&mut store, 1).end(
        &mut store,
        &mut frame,
        Vec2i::new(100, 500),
        &quiet_input(),
        &style(),
    );
    assert_eq!(out.state.offset.y, 300);

    // Undersized content: the reachable range is empty, so the offset
    // lands on 0, not on the negative bound.
    let mut seeded = ScrollState::default_item();
    seeded.offset.y = 50;
    store.insert(2, &seeded);
    let out = begin(&mut store, 2).end(
        &mut store,
        &mut frame,
        Vec2i::new(100, 50),
        &quiet_input(),
        &style(),
    );
    assert_eq!(out.state.offset.y, 0);
    assert!(!out.state.show_scroll);
}

#[test]
fn show_flip_requests_repaint_and_bar_paints_appear() {
    let mut store = InstanceStore::new();
    let mut frame = FrameState::new();
    // First frame: content too tall, bar was hidden --> flip, repaint.
    let out = begin(&mut store, 1).end(
        &mut store,
        &mut frame,
        Vec2i::new(100, 500),
        &quiet_input(),
        &style(),
    );
    assert!(out.repaint);
    assert!(out.state.show_scroll);
    // The cold start forces the bar visible right away: track, handle
    // fill, handle stroke.
    assert_eq!(out.paints.len(), 3);

    // Second frame: still shown, no flip, nothing moving.
    let out = begin(&mut store, 1).end(
        &mut store,
        &mut frame,
        Vec2i::new(100, 500),
        &quiet_input(),
        &style(),
    );
    assert!(!out.repaint);
}

#[test]
fn fitting_content_paints_no_bar() {
    let mut store = InstanceStore::new();
    let mut frame = FrameState::new();
    let out = begin(&mut store, 1).end(
        &mut store,
        &mut frame,
        Vec2i::new(100, 100),
        &quiet_input(),
        &style(),
    );
    assert!(!out.state.show_scroll);
    assert_eq!(out.paints.len(), 0);
    // The region shrinks to its content.
    assert_eq!(out.allocated.y, 100);
}

#[test]
fn always_show_scroll_reserves_bar_width() {
    let mut store = InstanceStore::new();
    let area = ScrollArea::from_max_height(150).always_show_scroll(true);
    let prepared = area.begin(&mut store, 1, &begin_input(100, 200), &style());
    let bar = max_scroll_bar_width_with_margin(&style());
    assert_eq!(bar, 20);
    assert_eq!(prepared.current_bar_width, bar);
    assert_eq!(prepared.inner_rect.size.x, 80);
    assert_eq!(prepared.inner_rect.size.y, 150);
}

#[test]
fn id_source_overrides_the_given_id() {
    let mut store = InstanceStore::new();
    let area = ScrollArea::auto_sized().id_source(77);
    let p = area.begin(&mut store, 1, &begin_input(100, 200), &style());
    assert_eq!(p.id, 77);
    assert!(store.contains_key(77));
    assert!(!store.contains_key(1));
}

#[test]
fn content_origin_is_shifted_up_by_the_offset() {
    let mut store = InstanceStore::new();
    let mut seeded = ScrollState::default_item();
    seeded.offset.y = 60;
    store.insert(1, &seeded);
    let p = begin(&mut store, 1);
    assert_eq!(p.content_min, Vec2i::new(0, -60));
}

#[test]
fn dragging_the_handle_scales_by_content_over_viewport() {
    // Viewport 200, content 400: dragging the handle 10 px moves the
    // content 10 · 400/200 = 20 px.
    let mut store = InstanceStore::new();
    let mut frame = FrameState::new();
    let area = ScrollArea::auto_sized().always_show_scroll(true);
    let mut bi = begin_input(120, 200);
    bi.animated_ratio_pm = 1000;
    let prepared = area.begin(&mut store, 1, &bi, &style());
    assert_eq!(prepared.current_bar_width, 20);
    assert_eq!(prepared.inner_rect.size.x, 100);
    let mut input = quiet_input();
    input.bar_dragged = true;
    input.pointer_pos = Some(Vec2i::new(110, 50));
    input.drag_delta_y = 10;
    let out = prepared.end(&mut store, &mut frame, Vec2i::new(100, 400), &input, &style());
    assert_eq!(out.state.offset.y, 20);
    // Track geometry: margin 4, so the track spans x 104..120 over the
    // full viewport height, with an 8 px corner radius.
    match out.paints[0] {
        ui_memory::paint::PaintCmd::FillRect { rect, corner_radius, .. } => {
            assert_eq!(rect.min, Vec2i::new(104, 0));
            assert_eq!(rect.size, Vec2i::new(16, 200));
            assert_eq!(corner_radius, 8);
        },
        _ => panic!("expected the track fill"),
    }
}

#[test]
fn clicking_the_track_recenters_the_handle() {
    // With offset 0 the handle covers y 0..100; clicking at y=150 puts
    // the handle's center there: offset = (150 − 50) · 400/200 = 200.
    let mut store = InstanceStore::new();
    let mut frame = FrameState::new();
    let area = ScrollArea::auto_sized().always_show_scroll(true);
    let mut bi = begin_input(120, 200);
    bi.animated_ratio_pm = 1000;
    let prepared = area.begin(&mut store, 1, &bi, &style());
    let mut input = quiet_input();
    input.bar_dragged = true;
    input.pointer_pos = Some(Vec2i::new(110, 150));
    let out = prepared.end(&mut store, &mut frame, Vec2i::new(100, 400), &input, &style());
    assert_eq!(out.state.offset.y, 200);
}
