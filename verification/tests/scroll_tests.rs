use azul_window::scroll::ScrollState;
use azul_window::ScrollStates;

#[test]
fn scroll_clamps_to_overflow() {
    let mut s = ScrollStates::new();
    s.ensure_initialized_scroll_state(1, 100, 50);
    s.scroll_node(1, 30, 80);
    assert_eq!(s.get_scroll_amount(1), Some((30, 50)));
}

#[test]
fn scroll_unknown_node_is_dropped() {
    let mut s = ScrollStates::new();
    s.scroll_node(99, 10, 10);
    assert_eq!(s.get_scroll_amount(99), None);
}

#[test]
fn scroll_clamps_to_zero_on_negative_overshoot() {
    let mut s = ScrollStates::new();
    s.ensure_initialized_scroll_state(7, 100, 100);
    s.scroll_node(7, 40, 40);
    s.scroll_node(7, -90, -10);
    assert_eq!(s.get_scroll_amount(7), Some((0, 30)));
}

#[test]
fn scroll_saturates_on_huge_deltas() {
    let mut s = ScrollStates::new();
    s.ensure_initialized_scroll_state(7, 1000, 1000);
    s.scroll_node(7, i64::MAX, i64::MIN);
    assert_eq!(s.get_scroll_amount(7), Some((1000, 0)));
    s.scroll_node(7, i64::MIN, i64::MAX);
    assert_eq!(s.get_scroll_amount(7), Some((0, 1000)));
}

#[test]
fn scroll_by_zero_changes_nothing() {
    let mut s = ScrollStates::new();
    s.ensure_initialized_scroll_state(3, 60, 60);
    s.scroll_node(3, 25, 25);
    s.scroll_node(3, 0, 0);
    assert_eq!(s.get_scroll_amount(3), Some((25, 25)));
}

#[test]
fn ensure_initialized_keeps_existing_entry() {
    let mut s = ScrollStates::new();
    s.ensure_initialized_scroll_state(5, 100, 100);
    s.scroll_node(5, 70, 70);
    // Re-registration with different bounds neither resets the offset nor
    // re-clamps it; the old bounds stay in force until the next scroll.
    s.ensure_initialized_scroll_state(5, 10, 10);
    assert_eq!(s.get_scroll_amount(5), Some((70, 70)));
    s.scroll_node(5, 1, 1);
    assert_eq!(s.get_scroll_amount(5), Some((71, 71)));
}

#[test]
fn remove_unused_removes_exactly_the_untouched() {
    let mut s = ScrollStates::new();
    s.ensure_initialized_scroll_state(1, 100, 100);
    s.ensure_initialized_scroll_state(2, 100, 100);
    s.ensure_initialized_scroll_state(3, 100, 100);
    s.scroll_node(1, 10, 0);
    // All three were touched this frame, so the frame boundary keeps them.
    s.remove_unused_scroll_states();
    // Next frame touches only nodes 1 and 3.
    assert_eq!(s.get_scroll_amount(1), Some((10, 0)));
    s.scroll_node(3, 5, 6);
    s.remove_unused_scroll_states();
    // Node 2 is gone; 1 and 3 survive with their offsets intact.
    assert_eq!(s.get_scroll_amount(1), Some((10, 0)));
    assert_eq!(s.get_scroll_amount(3), Some((5, 6)));
    assert_eq!(s.get_scroll_amount(2), None);
}

#[test]
fn remove_unused_twice_empties_an_untouched_table() {
    let mut s = ScrollStates::new();
    s.ensure_initialized_scroll_state(1, 100, 100);
    s.remove_unused_scroll_states();
    s.remove_unused_scroll_states();
    assert_eq!(s.get_scroll_amount(1), None);
}

#[test]
fn reused_identifier_starts_fresh() {
    let mut s = ScrollStates::new();
    s.ensure_initialized_scroll_state(4, 100, 100);
    s.scroll_node(4, 33, 44);
    s.remove_unused_scroll_states();
    s.remove_unused_scroll_states();
    // The subtree is gone; a later subtree reusing the identifier must not
    // inherit the old offset.
    s.ensure_initialized_scroll_state(4, 100, 100);
    assert_eq!(s.get_scroll_amount(4), Some((0, 0)));
}

#[test]
fn ensure_initialized_marks_an_existing_node_as_touched() {
    let mut s = ScrollStates::new();
    s.ensure_initialized_scroll_state(6, 10, 10);
    s.scroll_node(6, 3, 3);
    s.remove_unused_scroll_states();
    // Layout re-asserting the node each frame is what keeps it alive.
    s.ensure_initialized_scroll_state(6, 10, 10);
    s.remove_unused_scroll_states();
    assert_eq!(s.get_scroll_amount(6), Some((3, 3)));
}

#[test]
fn get_marks_a_node_as_touched() {
    let mut s = ScrollStates::new();
    s.ensure_initialized_scroll_state(8, 10, 10);
    s.remove_unused_scroll_states();
    let _ = s.get_scroll_amount(8);
    s.remove_unused_scroll_states();
    assert_eq!(s.get_scroll_amount(8), Some((0, 0)));
}

#[test]
fn scroll_marks_a_node_as_touched() {
    let mut s = ScrollStates::new();
    s.ensure_initialized_scroll_state(9, 10, 10);
    s.remove_unused_scroll_states();
    s.scroll_node(9, 2, 2);
    s.remove_unused_scroll_states();
    assert_eq!(s.get_scroll_amount(9), Some((2, 2)));
}

#[test]
fn scroll_state_new_and_default() {
    let mut fresh = ScrollState::new(40, 30);
    assert_eq!(fresh.overflow_x, 40);
    assert_eq!(fresh.overflow_y, 30);
    assert!(fresh.used_this_frame);
    assert_eq!(fresh.get(), (0, 0));

    let mut dflt = ScrollState::default();
    assert_eq!(dflt.overflow_x, 0);
    assert_eq!(dflt.overflow_y, 0);
    assert!(dflt.used_this_frame);
    assert_eq!(dflt.get(), (0, 0));
}

#[test]
fn scroll_state_add_clamps_each_axis_independently() {
    let mut st = ScrollState::new(10, 2000);
    st.add(500, 500);
    assert_eq!(st.scroll_amount_x, 10);
    assert_eq!(st.scroll_amount_y, 500);
    st.add(-500, -100);
    assert_eq!(st.scroll_amount_x, 0);
    assert_eq!(st.scroll_amount_y, 400);
}
