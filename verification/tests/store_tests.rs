use ui_memory::grid::GridState;
use ui_memory::scroll::{ScrollState, SCROLL_STATE_KEY};
use ui_memory::store::{InstanceStore, StoreItem, TypeStore};
use ui_memory::type_id::TypeId;

fn scroll_state(offset_y: i64, show: bool, vel_y: i64) -> ScrollState {
    let mut s = ScrollState::default_item();
    s.offset.y = offset_y;
    s.show_scroll = show;
    s.vel.y = vel_y;
    s
}

#[test]
fn by_type_get_or_default_seeds_default() {
    let mut store = TypeStore::new();
    let got: ScrollState = store.get_or_default();
    assert_eq!(got, ScrollState::default_item());
    let again: Option<ScrollState> = store.get();
    assert_eq!(again, Some(ScrollState::default_item()));
}

#[test]
fn by_type_slots_do_not_alias() {
    // Two types with different type keys never share a slot: touching
    // one leaves the other's value intact.
    let mut store = TypeStore::new();
    let mut grid = GridState::new_empty();
    grid.set_min_col_width(0, 40);
    grid.set_min_col_width(1, 60);
    store.insert(&grid);

    let scroll: ScrollState = store.get_or_default();
    assert_eq!(scroll, ScrollState::default_item());

    let grid_back: Option<GridState> = store.get();
    let grid_back = grid_back.expect("grid state should still be there");
    assert_eq!(grid_back.col_widths, vec![40, 60]);

    store.insert(&scroll_state(7, true, 0));
    let grid_back2: Option<GridState> = store.get();
    assert_eq!(grid_back2.expect("still there").col_widths, vec![40, 60]);
}

#[test]
fn by_instance_get_or_default_is_idempotent() {
    let mut store = InstanceStore::new();
    let first: ScrollState = store.get_or_default(42);
    let second: ScrollState = store.get_or_default(42);
    assert_eq!(first, second);

    store.insert(42, &scroll_state(123, true, -5));
    let third: ScrollState = store.get_or_default(42);
    let fourth: ScrollState = store.get_or_default(42);
    assert_eq!(third, fourth);
    assert_eq!(third.offset.y, 123);
    assert!(third.show_scroll);
    assert_eq!(third.vel.y, -5);
}

#[test]
fn by_instance_keys_are_independent() {
    let mut store = InstanceStore::new();
    store.insert(1, &scroll_state(10, false, 0));
    store.insert(2, &scroll_state(20, true, 0));
    let a: ScrollState = store.get_or_default(1);
    let b: ScrollState = store.get_or_default(2);
    assert_eq!(a.offset.y, 10);
    assert_eq!(b.offset.y, 20);
    store.remove(1);
    let a2: Option<ScrollState> = store.get(1);
    assert_eq!(a2, None);
    let b2: Option<ScrollState> = store.get(2);
    assert_eq!(b2.expect("untouched").offset.y, 20);
}

#[test]
fn corrupt_bytes_reset_to_default() {
    // Corrupt persisted bytes must not surface as an error: the entry
    // decodes to nothing and the next access returns the default.
    let mut store = InstanceStore::new();
    store.insert_raw(9, SCROLL_STATE_KEY, vec![0xde, 0xad, 0xbe, 0xef]);
    let peek: Option<ScrollState> = store.get(9);
    assert_eq!(peek, None);
    let got: ScrollState = store.get_or_default(9);
    assert_eq!(got, ScrollState::default_item());
    // The slot was re-seeded, so it now holds the default durably.
    let after: Option<ScrollState> = store.get(9);
    assert_eq!(after, Some(ScrollState::default_item()));
}

#[test]
fn wrong_typed_slot_reads_as_absent() {
    let mut store = InstanceStore::new();
    let mut grid = GridState::new_empty();
    grid.set_min_col_width(0, 11);
    store.insert(5, &grid);
    let as_scroll: Option<ScrollState> = store.get(5);
    assert_eq!(as_scroll, None);
}

#[test]
fn instances_of_lists_keys_of_one_type() {
    let mut store = InstanceStore::new();
    store.insert(1, &scroll_state(1, false, 0));
    store.insert(2, &GridState::new_empty());
    store.insert(3, &scroll_state(3, false, 0));
    let mut scroll_keys = store.instances_of::<ScrollState>();
    scroll_keys.sort();
    assert_eq!(scroll_keys, vec![1, 3]);
    let grid_keys = store.instances_of::<GridState>();
    assert_eq!(grid_keys, vec![2]);
    assert!(store.contains_key(2));
    assert!(!store.contains_key(4));
}

#[test]
fn encode_decode_round_trips() {
    let s = scroll_state(-250, true, 999);
    let bytes = s.encode();
    assert_eq!(ScrollState::decode(&bytes), Some(s));

    let mut g = GridState::new_empty();
    g.set_min_col_width(0, 50);
    g.set_min_col_width(1, 60);
    g.set_min_row_height(0, 20);
    let bytes = g.encode();
    let back = GridState::decode(&bytes).expect("round trip");
    assert_eq!(back.col_widths, vec![50, 60]);
    assert_eq!(back.row_heights, vec![20]);
}

#[test]
fn type_id_is_stable_within_a_run() {
    let a = TypeId::of::<u32>();
    let b = TypeId::of::<u32>();
    assert_eq!(a, b);
    let c = TypeId::of::<u64>();
    assert_ne!(a, c);
    assert_eq!(TypeId::from_value(a.value()), a);
}

#[test]
fn export_and_insert_raw_round_trip_the_store() {
    let mut store = InstanceStore::new();
    store.insert(1, &scroll_state(33, true, 0));
    let mut grid = GridState::new_empty();
    grid.set_min_col_width(0, 40);
    store.insert(2, &grid);

    let mut reloaded = InstanceStore::new();
    for (key, type_key, bytes) in store.export() {
        reloaded.insert_raw(key, type_key, bytes);
    }
    let scroll: Option<ScrollState> = reloaded.get(1);
    assert_eq!(scroll.expect("scroll entry").offset.y, 33);
    let grid: Option<GridState> = reloaded.get(2);
    assert_eq!(grid.expect("grid entry").col_widths, vec![40]);
}
