use okbm::errors::CaptureError;
use okbm::event::Position;
use okbm::state::{
    Bounds, CursorAction, DisplayRect, EdgeSet, InputCaptureState, ProducerEvent,
};

fn test_state(active_right: bool, active_left: bool) -> InputCaptureState {
    InputCaptureState {
        active_clients: EdgeSet { left: active_left, right: active_right, top: false, bottom: false },
        current_pos: None,
        bounds: Bounds { xmin: 0, xmax: 1000, ymin: 0, ymax: 800 },
    }
}

#[test]
fn crossing_into_active_right_edge() {
    let s = test_state(true, false);
    assert_eq!(s.crossed(995, 400, 10, 0), Some(Position::Right));
}

#[test]
fn no_crossing_when_only_left_edge_is_active() {
    let s = test_state(false, true);
    assert_eq!(s.crossed(995, 400, 10, 0), None);
}

#[test]
fn crossing_tests_edges_in_fixed_order() {
    let mut s = test_state(true, true);
    s.bounds = Bounds { xmin: 990, xmax: 1000, ymin: 0, ymax: 800 };
    // The projection reaches both thresholds; Left is tested first.
    assert_eq!(s.crossed(995, 400, -2000, 0), Some(Position::Left));
}

#[test]
fn grab_and_release_round_trip() {
    let mut s = test_state(true, false);
    assert_eq!(
        s.handle_producer_event(ProducerEvent::Grab(Position::Right)),
        Ok(CursorAction::HideCursor)
    );
    assert_eq!(s.current_pos, Some(Position::Right));
    assert_eq!(
        s.handle_producer_event(ProducerEvent::Release),
        Ok(CursorAction::ShowCursor)
    );
    assert_eq!(s.current_pos, None);
}

#[test]
fn release_twice_shows_cursor_at_most_once() {
    let mut s = test_state(true, false);
    s.handle_producer_event(ProducerEvent::Grab(Position::Right)).unwrap();
    let first = s.handle_producer_event(ProducerEvent::Release).unwrap();
    let second = s.handle_producer_event(ProducerEvent::Release).unwrap();
    assert_eq!(first, CursorAction::ShowCursor);
    assert_eq!(second, CursorAction::Nothing);
    assert_eq!(s.current_pos, None);
}

#[test]
fn grab_of_inactive_edge_is_ignored() {
    let mut s = test_state(true, false);
    assert_eq!(
        s.handle_producer_event(ProducerEvent::Grab(Position::Top)),
        Ok(CursorAction::Nothing)
    );
    assert_eq!(s.current_pos, None);
}

#[test]
fn destroy_of_owning_edge_releases_ownership() {
    let mut s = test_state(true, false);
    s.handle_producer_event(ProducerEvent::Grab(Position::Right)).unwrap();
    let action = s.handle_producer_event(ProducerEvent::Destroy(Position::Right)).unwrap();
    assert_eq!(action, CursorAction::ShowCursor);
    assert_eq!(s.current_pos, None);
    assert!(!s.active_clients.right);
}

#[test]
fn destroy_of_other_edge_keeps_ownership() {
    let mut s = test_state(true, false);
    s.handle_producer_event(ProducerEvent::Create(Position::Top)).unwrap();
    s.handle_producer_event(ProducerEvent::Grab(Position::Right)).unwrap();
    let action = s.handle_producer_event(ProducerEvent::Destroy(Position::Top)).unwrap();
    assert_eq!(action, CursorAction::Nothing);
    assert_eq!(s.current_pos, Some(Position::Right));
}

#[test]
fn event_tap_disabled_is_fatal_and_leaves_state() {
    let mut s = test_state(true, false);
    s.handle_producer_event(ProducerEvent::Grab(Position::Right)).unwrap();
    let r = s.handle_producer_event(ProducerEvent::EventTapDisabled);
    assert_eq!(r, Err(CaptureError::EventTapDisabled));
    assert_eq!(s.current_pos, Some(Position::Right));
}

#[test]
fn confinement_pins_constrained_axis_right() {
    let mut s = test_state(true, false);
    s.current_pos = Some(Position::Right);
    // Repeated samples with dx = 50 starting at x = xmax - 1 never leave
    // [xmin, xmax]: the constrained axis is pinned, not accumulated.
    let mut x: i64 = 999;
    for _ in 0..10 {
        let (nx, _) = s.reset_mouse_position(x, 400, 50, 0).unwrap();
        assert!(0 <= nx && nx <= 1000);
        assert_eq!(nx, 999);
        x = nx;
    }
}

#[test]
fn confinement_halves_delta_on_free_axis() {
    let mut s = test_state(true, false);
    s.current_pos = Some(Position::Right);
    let (nx, ny) = s.reset_mouse_position(500, 400, 10, 9).unwrap();
    assert_eq!(nx, 999);
    assert_eq!(ny, 404);
    // Negative deltas are halved toward zero.
    let (_, ny2) = s.reset_mouse_position(500, 400, 10, -9).unwrap();
    assert_eq!(ny2, 396);
}

#[test]
fn confinement_pins_top_edge() {
    let mut s = test_state(false, false);
    s.active_clients.top = true;
    s.current_pos = Some(Position::Top);
    let (nx, ny) = s.reset_mouse_position(500, 2, 8, -40).unwrap();
    assert_eq!(nx, 504);
    assert_eq!(ny, 1);
}

#[test]
fn reset_without_owner_fails() {
    let s = test_state(true, false);
    assert_eq!(
        s.reset_mouse_position(500, 400, 10, 0),
        Err(CaptureError::ResetMouseWithoutClient)
    );
}

#[test]
fn bounds_fold_over_two_displays() {
    let displays = vec![
        DisplayRect { x: 0, y: 0, width: 1920, height: 1080 },
        DisplayRect { x: 1920, y: -120, width: 1280, height: 1024 },
    ];
    let s = InputCaptureState::new(&displays);
    assert_eq!(s.bounds, Bounds { xmin: 0, xmax: 3200, ymin: -120, ymax: 1080 });
    assert_eq!(s.current_pos, None);
    assert!(!s.active_clients.left);
}

#[test]
fn zero_rectangle_with_no_display() {
    let s = InputCaptureState::new(&Vec::new());
    assert_eq!(s.bounds, Bounds { xmin: 0, xmax: 0, ymin: 0, ymax: 0 });
}

#[test]
fn union_rectangle_does_not_reach_back_to_the_origin() {
    // A single monitor not anchored at (0, 0): the union rectangle starts
    // at the display, not at the origin.
    let displays = vec![DisplayRect { x: 5, y: 5, width: 100, height: 50 }];
    let s = InputCaptureState::new(&displays);
    assert_eq!(s.bounds, Bounds { xmin: 5, xmax: 105, ymin: 5, ymax: 55 });
}

#[test]
fn update_bounds_recomputes_from_scratch() {
    let mut s =
        InputCaptureState::new(&vec![DisplayRect { x: -500, y: 0, width: 2000, height: 800 }]);
    s.update_bounds(&vec![DisplayRect { x: 10, y: 20, width: 300, height: 200 }]);
    assert_eq!(s.bounds, Bounds { xmin: 10, xmax: 310, ymin: 20, ymax: 220 });
}

#[test]
fn opposite_edges() {
    assert_eq!(Position::Left.opposite(), Position::Right);
    assert_eq!(Position::Right.opposite(), Position::Left);
    assert_eq!(Position::Top.opposite(), Position::Bottom);
    assert_eq!(Position::Bottom.opposite(), Position::Top);
}
