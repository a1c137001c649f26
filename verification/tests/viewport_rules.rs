use hexcompare::viewport::{
    route_event, InputEvent, Key, Msg, ScrollDelta, ViewportState, FONT_SIZE, MILLI, PAGE_SIZE,
    WHEEL_ROWS_PER_LINE,
};

fn rows(n: i128) -> i128 {
    n * MILLI as i128
}

#[test]
fn constants_have_their_values() {
    assert_eq!(MILLI, 1000);
    assert_eq!(WHEEL_ROWS_PER_LINE, 10);
    assert_eq!(FONT_SIZE, 11);
    assert_eq!(PAGE_SIZE, 100);
}

#[test]
fn new_state_is_at_the_top_and_idle() {
    let v = ViewportState::new(1000, 800, 900);
    assert_eq!(v.scroll_offset(), 0);
    assert_eq!(v.max_scroll_offset(), 1000);
    assert_eq!(v.window_width(), 800);
    assert_eq!(v.window_height(), 900);
    assert_eq!(v.scroll_drag_start(), None);
    assert!(!v.is_dragging());
    assert_eq!(v.limit(), rows(100));
}

#[test]
fn arrow_down_stops_at_the_limit() {
    let mut v = ViewportState::new(1000, 800, 100);
    for _ in 0..1500 {
        v.update(Msg::KeyPress(Key::ArrowDown));
    }
    assert_eq!(v.scroll_offset(), rows(900));
}

#[test]
fn arrow_keys_move_by_one_row() {
    let mut v = ViewportState::new(1000, 800, 100);
    v.update(Msg::KeyPress(Key::ArrowDown));
    assert_eq!(v.scroll_offset(), rows(1));
    v.update(Msg::KeyPress(Key::ArrowDown));
    assert_eq!(v.scroll_offset(), rows(2));
    v.update(Msg::KeyPress(Key::ArrowUp));
    assert_eq!(v.scroll_offset(), rows(1));
}

#[test]
fn arrow_up_stops_at_zero() {
    let mut v = ViewportState::new(1000, 800, 100);
    v.update(Msg::KeyPress(Key::ArrowUp));
    assert_eq!(v.scroll_offset(), 0);
    v.update(Msg::KeyPress(Key::ArrowDown));
    v.update(Msg::KeyPress(Key::ArrowUp));
    v.update(Msg::KeyPress(Key::ArrowUp));
    assert_eq!(v.scroll_offset(), 0);
}

#[test]
fn other_keys_change_nothing() {
    let mut v = ViewportState::new(1000, 800, 100);
    v.update(Msg::KeyPress(Key::ArrowDown));
    v.update(Msg::KeyPress(Key::Other));
    assert_eq!(v.scroll_offset(), rows(1));
    assert!(!v.is_dragging());
}

#[test]
fn wheel_scrolls_ten_rows_a_line_against_its_sign() {
    let mut v = ViewportState::new(1000, 800, 100);
    for _ in 0..50 {
        v.update(Msg::KeyPress(Key::ArrowDown));
    }
    assert_eq!(v.scroll_offset(), rows(50));
    v.update(Msg::Scroll(-MILLI));
    assert_eq!(v.scroll_offset(), rows(60));
    v.update(Msg::Scroll(2 * MILLI));
    assert_eq!(v.scroll_offset(), rows(40));
    v.update(Msg::Scroll(500));
    assert_eq!(v.scroll_offset(), rows(35));
    v.update(Msg::Scroll(1));
    assert_eq!(v.scroll_offset(), rows(35) - 10);
}

#[test]
fn wheel_is_clamped_at_both_ends() {
    let mut v = ViewportState::new(1000, 800, 100);
    v.update(Msg::Scroll(100 * MILLI));
    assert_eq!(v.scroll_offset(), 0);
    v.update(Msg::Scroll(-100 * MILLI));
    assert_eq!(v.scroll_offset(), rows(900));
    v.update(Msg::Scroll(i64::MIN));
    assert_eq!(v.scroll_offset(), rows(900));
    v.update(Msg::Scroll(i64::MAX));
    assert_eq!(v.scroll_offset(), 0);
}

#[test]
fn drag_to_the_bottom_gives_the_limit() {
    let mut v = ViewportState::new(1000, 800, 100);
    v.update(Msg::StartScrollbarDrag);
    v.update(Msg::DragScrollbar(100 * MILLI));
    assert_eq!(v.scroll_offset(), rows(900));
    assert_eq!(v.scroll_offset(), v.limit());
}

#[test]
fn drag_to_the_top_gives_zero() {
    let mut v = ViewportState::new(1000, 800, 100);
    v.update(Msg::Scroll(-30 * MILLI));
    v.update(Msg::StartScrollbarDrag);
    v.update(Msg::DragScrollbar(0));
    assert_eq!(v.scroll_offset(), 0);
    v.update(Msg::DragScrollbar(-5 * MILLI));
    assert_eq!(v.scroll_offset(), 0);
}

#[test]
fn drag_maps_the_pointer_onto_all_rows() {
    let mut v = ViewportState::new(1000, 800, 100);
    v.update(Msg::DragScrollbar(50 * MILLI));
    assert_eq!(v.scroll_offset(), rows(500));
    v.update(Msg::DragScrollbar(12_345));
    assert_eq!(v.scroll_offset(), 123_450);
    v.update(Msg::DragScrollbar(95 * MILLI));
    assert_eq!(v.scroll_offset(), rows(900));
    let mut w = ViewportState::new(10, 800, 3);
    w.update(Msg::DragScrollbar(1000));
    assert_eq!(w.scroll_offset(), 3333);
    w.update(Msg::DragScrollbar(2000));
    assert_eq!(w.scroll_offset(), 6666);
}

#[test]
fn drag_far_below_the_window_is_clamped() {
    let mut v = ViewportState::new(usize::MAX, 800, 1);
    v.update(Msg::DragScrollbar(i64::MAX));
    assert_eq!(v.scroll_offset(), v.limit());
    assert_eq!(v.limit(), (usize::MAX as i128 - 1) * 1000);
}

#[test]
fn drag_in_a_window_without_height() {
    let mut v = ViewportState::new(1000, 800, 0);
    v.update(Msg::DragScrollbar(5 * MILLI));
    assert_eq!(v.scroll_offset(), rows(1000));
    v.update(Msg::DragScrollbar(-1));
    assert_eq!(v.scroll_offset(), 0);
    v.update(Msg::DragScrollbar(0));
    assert_eq!(v.scroll_offset(), rows(1000));
}

#[test]
fn drag_begins_and_ends() {
    let mut v = ViewportState::new(1000, 800, 100);
    v.update(Msg::Scroll(-2 * MILLI));
    v.update(Msg::StartScrollbarDrag);
    assert!(v.is_dragging());
    assert_eq!(v.scroll_drag_start(), Some(rows(20)));
    v.update(Msg::DragScrollbar(10 * MILLI));
    assert_eq!(v.scroll_offset(), rows(100));
    assert_eq!(v.scroll_drag_start(), Some(rows(20)));
    v.update(Msg::EndScrollbarDrag);
    assert!(!v.is_dragging());
    assert_eq!(v.scroll_drag_start(), None);
    assert_eq!(v.scroll_offset(), rows(100));
}

#[test]
fn resize_keeps_the_offset_and_moves_the_limit() {
    let mut v = ViewportState::new(1000, 800, 100);
    v.update(Msg::Scroll(-90 * MILLI));
    assert_eq!(v.scroll_offset(), rows(900));
    v.update(Msg::WindowResized(640, 400));
    assert_eq!(v.window_width(), 640);
    assert_eq!(v.window_height(), 400);
    assert_eq!(v.scroll_offset(), rows(900));
    assert_eq!(v.limit(), rows(600));
    v.update(Msg::KeyPress(Key::ArrowDown));
    assert_eq!(v.scroll_offset(), rows(600));
}

#[test]
fn clamp_is_idempotent() {
    let mut v = ViewportState::new(1000, 800, 100);
    v.update(Msg::Scroll(-90 * MILLI));
    v.update(Msg::WindowResized(800, 250));
    v.clamp_viewport();
    let once = v.scroll_offset();
    assert_eq!(once, rows(750));
    v.clamp_viewport();
    assert_eq!(v.scroll_offset(), once);
}

#[test]
fn clamp_leaves_an_offset_within_bounds() {
    let mut v = ViewportState::new(1000, 800, 100);
    v.update(Msg::Scroll(-MILLI / 4));
    assert_eq!(v.scroll_offset(), 2500);
    v.clamp_viewport();
    assert_eq!(v.scroll_offset(), 2500);
}

#[test]
fn no_rows_hold_the_offset_at_zero() {
    let mut v = ViewportState::new(0, 800, 900);
    assert_eq!(v.limit(), 0);
    v.update(Msg::KeyPress(Key::ArrowDown));
    assert_eq!(v.scroll_offset(), 0);
    v.update(Msg::Scroll(-5 * MILLI));
    assert_eq!(v.scroll_offset(), 0);
    v.update(Msg::DragScrollbar(450 * MILLI));
    assert_eq!(v.scroll_offset(), 0);
    v.clamp_viewport();
    assert_eq!(v.scroll_offset(), 0);
    assert_eq!(v.visible_rows(), (0, 0));
}

#[test]
fn rows_that_fit_in_the_window_do_not_scroll() {
    let mut v = ViewportState::new(50, 800, 900);
    v.update(Msg::KeyPress(Key::ArrowDown));
    assert_eq!(v.scroll_offset(), 0);
    assert_eq!(v.visible_rows(), (0, 50));
}

#[test]
fn visible_rows_are_a_page_from_the_whole_rows_of_the_offset() {
    let mut v = ViewportState::new(1000, 800, 100);
    assert_eq!(v.visible_rows(), (0, 100));
    v.update(Msg::Scroll(-1250));
    assert_eq!(v.scroll_offset(), 12_500);
    assert_eq!(v.visible_rows(), (12, 112));
    v.update(Msg::DragScrollbar(100 * MILLI));
    assert_eq!(v.visible_rows(), (900, 1000));
    v.update(Msg::WindowResized(800, 10));
    v.update(Msg::DragScrollbar(10 * MILLI));
    assert_eq!(v.scroll_offset(), rows(990));
    assert_eq!(v.visible_rows(), (990, 1000));
}

#[test]
fn idle_state_hears_keys_wheel_resize_and_press() {
    assert_eq!(
        route_event(false, InputEvent::KeyPressed(Key::ArrowDown)),
        Some(Msg::KeyPress(Key::ArrowDown))
    );
    assert_eq!(
        route_event(false, InputEvent::KeyPressed(Key::Other)),
        Some(Msg::KeyPress(Key::Other))
    );
    assert_eq!(
        route_event(false, InputEvent::WheelScrolled(ScrollDelta::Lines(-1000))),
        Some(Msg::Scroll(-1000))
    );
    assert_eq!(
        route_event(false, InputEvent::WindowResized(640, 480)),
        Some(Msg::WindowResized(640, 480))
    );
    assert_eq!(
        route_event(false, InputEvent::LeftButtonPressed),
        Some(Msg::StartScrollbarDrag)
    );
    assert_eq!(route_event(false, InputEvent::CursorMoved(5000)), None);
    assert_eq!(route_event(false, InputEvent::LeftButtonReleased), None);
    assert_eq!(route_event(false, InputEvent::Other), None);
}

#[test]
fn dragging_state_hears_only_the_drag() {
    assert_eq!(
        route_event(true, InputEvent::CursorMoved(123_456)),
        Some(Msg::DragScrollbar(123_456))
    );
    assert_eq!(
        route_event(true, InputEvent::LeftButtonReleased),
        Some(Msg::EndScrollbarDrag)
    );
    assert_eq!(route_event(true, InputEvent::KeyPressed(Key::ArrowDown)), None);
    assert_eq!(
        route_event(true, InputEvent::WheelScrolled(ScrollDelta::Lines(1000))),
        None
    );
    assert_eq!(route_event(true, InputEvent::WindowResized(1, 1)), None);
    assert_eq!(route_event(true, InputEvent::LeftButtonPressed), None);
    assert_eq!(route_event(true, InputEvent::Other), None);
}

#[test]
fn wheel_pixels_are_divided_by_the_row_height() {
    let scroll = |y: i64| route_event(false, InputEvent::WheelScrolled(ScrollDelta::Pixels(y)));
    assert_eq!(scroll(22_000), Some(Msg::Scroll(2000)));
    assert_eq!(scroll(11_000), Some(Msg::Scroll(1000)));
    assert_eq!(scroll(5_000), Some(Msg::Scroll(454)));
    assert_eq!(scroll(-5_000), Some(Msg::Scroll(-454)));
    assert_eq!(scroll(-11_000), Some(Msg::Scroll(-1000)));
    assert_eq!(scroll(0), Some(Msg::Scroll(0)));
    assert_eq!(scroll(10), Some(Msg::Scroll(0)));
    assert_eq!(scroll(-10), Some(Msg::Scroll(0)));
    assert_eq!(scroll(i64::MAX), Some(Msg::Scroll(i64::MAX / 11)));
    assert_eq!(scroll(i64::MIN), Some(Msg::Scroll(i64::MIN / 11)));
}

#[test]
fn events_are_heard_by_the_state_they_meet() {
    let mut v = ViewportState::new(1000, 800, 100);
    assert_eq!(
        v.handle_event(InputEvent::KeyPressed(Key::ArrowDown)),
        Some(Msg::KeyPress(Key::ArrowDown))
    );
    assert_eq!(v.scroll_offset(), rows(1));
    assert_eq!(v.handle_event(InputEvent::CursorMoved(50 * MILLI)), None);
    assert_eq!(v.scroll_offset(), rows(1));
    assert_eq!(v.handle_event(InputEvent::LeftButtonReleased), None);

    assert_eq!(v.handle_event(InputEvent::LeftButtonPressed), Some(Msg::StartScrollbarDrag));
    assert!(v.is_dragging());
    assert_eq!(v.scroll_drag_start(), Some(rows(1)));
    assert_eq!(v.handle_event(InputEvent::KeyPressed(Key::ArrowDown)), None);
    assert_eq!(v.handle_event(InputEvent::WheelScrolled(ScrollDelta::Lines(-MILLI))), None);
    assert_eq!(v.handle_event(InputEvent::WindowResized(10, 10)), None);
    assert_eq!(v.handle_event(InputEvent::LeftButtonPressed), None);
    assert_eq!(v.handle_event(InputEvent::Other), None);
    assert_eq!(v.scroll_offset(), rows(1));
    assert_eq!(v.window_height(), 100);
    assert_eq!(v.scroll_drag_start(), Some(rows(1)));

    assert_eq!(
        v.handle_event(InputEvent::CursorMoved(50 * MILLI)),
        Some(Msg::DragScrollbar(50 * MILLI))
    );
    assert_eq!(v.scroll_offset(), rows(500));
    assert_eq!(v.handle_event(InputEvent::LeftButtonReleased), Some(Msg::EndScrollbarDrag));
    assert!(!v.is_dragging());
    assert_eq!(
        v.handle_event(InputEvent::WheelScrolled(ScrollDelta::Pixels(-11 * MILLI))),
        Some(Msg::Scroll(-MILLI))
    );
    assert_eq!(v.scroll_offset(), rows(510));
}
