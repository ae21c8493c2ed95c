use okbm::errors::CaptureError;
use okbm::event::{
    BTN_LEFT, BTN_MIDDLE, BTN_RIGHT, CaptureEvent, Event, KeyboardEvent, PointerEvent, Position,
};
use okbm::state::{Bounds, EdgeSet, InputCaptureState};
use okbm::tap::{RawEvent, RawEventKind, RawFlags, get_events, tap_callback};

fn raw(kind: RawEventKind) -> RawEvent {
    RawEvent {
        kind,
        location_x: 500,
        location_y: 400,
        delta_x: 3,
        delta_y: -2,
        keycode: 0,
        flags: RawFlags {
            shift: false,
            control: false,
            alternate: false,
            command: false,
            alpha_shift: false,
        },
        scroll_v: 0,
        scroll_h: 0,
    }
}

fn grabbed_state(pos: Position) -> InputCaptureState {
    InputCaptureState {
        active_clients: EdgeSet {
            left: false,
            right: pos == Position::Right,
            top: false,
            bottom: false,
        },
        current_pos: Some(pos),
        bounds: Bounds { xmin: 0, xmax: 1000, ymin: 0, ymax: 800 },
    }
}

#[test]
fn key_down_translates_through_the_table() {
    // macOS keycode 0 is the "a" key; its Linux evdev code is 30, so the
    // translated event cannot echo the platform code back.
    let mut ev = raw(RawEventKind::KeyDown);
    ev.keycode = 0;
    let mut out = Vec::new();
    assert_eq!(get_events(&ev, &mut out), Ok(()));
    assert_eq!(
        out,
        vec![CaptureEvent::Input(Event::Keyboard(KeyboardEvent::Key {
            time: 0,
            key: 30,
            state: 1,
        }))]
    );
}

#[test]
fn key_up_translates_a_second_code() {
    // macOS keycode 1 is the "s" key, evdev 31.
    let mut ev = raw(RawEventKind::KeyUp);
    ev.keycode = 1;
    let mut out = Vec::new();
    assert_eq!(get_events(&ev, &mut out), Ok(()));
    assert_eq!(
        out,
        vec![CaptureEvent::Input(Event::Keyboard(KeyboardEvent::Key {
            time: 0,
            key: 31,
            state: 0,
        }))]
    );
}

#[test]
fn unmapped_keycode_fails_and_appends_nothing() {
    let mut ev = raw(RawEventKind::KeyDown);
    ev.keycode = 256;
    let mut out = Vec::new();
    assert_eq!(get_events(&ev, &mut out), Err(CaptureError::KeyMap { code: 256 }));
    assert!(out.is_empty());
}

#[test]
fn modifier_masks_are_exact() {
    let mut ev = raw(RawEventKind::FlagsChanged);
    ev.flags = RawFlags {
        shift: true,
        control: true,
        alternate: false,
        command: false,
        alpha_shift: true,
    };
    let mut out = Vec::new();
    assert_eq!(get_events(&ev, &mut out), Ok(()));
    assert_eq!(
        out,
        vec![CaptureEvent::Input(Event::Keyboard(KeyboardEvent::Modifiers {
            depressed: 1 + 4 + 2,
            latched: 0,
            locked: 2,
            group: 0,
        }))]
    );
}

#[test]
fn motion_and_drag_translate_to_relative_motion() {
    for kind in [
        RawEventKind::MouseMoved,
        RawEventKind::LeftMouseDragged,
        RawEventKind::RightMouseDragged,
        RawEventKind::OtherMouseDragged,
    ] {
        let ev = raw(kind);
        let mut out = Vec::new();
        assert_eq!(get_events(&ev, &mut out), Ok(()));
        assert_eq!(
            out,
            vec![CaptureEvent::Input(Event::Pointer(PointerEvent::Motion {
                time: 0,
                dx: 3,
                dy: -2,
            }))]
        );
    }
}

#[test]
fn buttons_carry_evdev_codes() {
    let cases = [
        (RawEventKind::LeftMouseDown, BTN_LEFT, 1),
        (RawEventKind::LeftMouseUp, BTN_LEFT, 0),
        (RawEventKind::RightMouseDown, BTN_RIGHT, 1),
        (RawEventKind::RightMouseUp, BTN_RIGHT, 0),
        (RawEventKind::OtherMouseDown, BTN_MIDDLE, 1),
        (RawEventKind::OtherMouseUp, BTN_MIDDLE, 0),
    ];
    for (kind, button, state) in cases {
        let ev = raw(kind);
        let mut out = Vec::new();
        assert_eq!(get_events(&ev, &mut out), Ok(()));
        assert_eq!(
            out,
            vec![CaptureEvent::Input(Event::Pointer(PointerEvent::Button {
                time: 0,
                button,
                state,
            }))]
        );
    }
}

#[test]
fn scroll_emits_one_event_per_nonzero_axis() {
    let mut ev = raw(RawEventKind::ScrollWheel);
    ev.scroll_v = -7;
    ev.scroll_h = 4;
    let mut out = Vec::new();
    assert_eq!(get_events(&ev, &mut out), Ok(()));
    assert_eq!(
        out,
        vec![
            CaptureEvent::Input(Event::Pointer(PointerEvent::Axis { time: 0, axis: 0, value: -7 })),
            CaptureEvent::Input(Event::Pointer(PointerEvent::Axis { time: 0, axis: 1, value: 4 })),
        ]
    );

    let mut quiet = raw(RawEventKind::ScrollWheel);
    quiet.scroll_v = 0;
    quiet.scroll_h = 0;
    let mut out2 = Vec::new();
    assert_eq!(get_events(&quiet, &mut out2), Ok(()));
    assert!(out2.is_empty());
}

#[test]
fn crossing_sample_emits_begin_then_motion_and_requests_grab() {
    let free = InputCaptureState {
        active_clients: EdgeSet { left: false, right: true, top: false, bottom: false },
        current_pos: None,
        bounds: Bounds { xmin: 0, xmax: 1000, ymin: 0, ymax: 800 },
    };
    let mut ev = raw(RawEventKind::MouseMoved);
    ev.location_x = 995;
    ev.delta_x = 10;
    ev.delta_y = 0;
    let d = tap_callback(&free, &ev);
    assert!(!d.disabled);
    assert_eq!(d.pos, Some(Position::Right));
    assert_eq!(d.grab, Some(Position::Right));
    assert!(d.suppress());
    assert_eq!(
        d.events,
        vec![
            CaptureEvent::Begin,
            CaptureEvent::Input(Event::Pointer(PointerEvent::Motion { time: 0, dx: 10, dy: 0 })),
        ]
    );
    assert_eq!(d.warp, None);
}

#[test]
fn no_crossing_into_inactive_edge_yields_nothing() {
    let free = InputCaptureState {
        active_clients: EdgeSet { left: true, right: false, top: false, bottom: false },
        current_pos: None,
        bounds: Bounds { xmin: 0, xmax: 1000, ymin: 0, ymax: 800 },
    };
    let mut ev = raw(RawEventKind::MouseMoved);
    ev.location_x = 995;
    ev.delta_x = 10;
    ev.delta_y = 0;
    let d = tap_callback(&free, &ev);
    assert_eq!(d.pos, None);
    assert_eq!(d.grab, None);
    assert!(d.events.is_empty());
    assert!(!d.suppress());
}

#[test]
fn grabbed_motion_is_translated_tagged_and_warped() {
    let s = grabbed_state(Position::Right);
    let mut ev = raw(RawEventKind::MouseMoved);
    ev.location_x = 999;
    ev.delta_x = 50;
    ev.delta_y = 6;
    let d = tap_callback(&s, &ev);
    assert_eq!(d.pos, Some(Position::Right));
    assert_eq!(d.grab, None);
    assert_eq!(
        d.events,
        vec![CaptureEvent::Input(Event::Pointer(PointerEvent::Motion { time: 0, dx: 50, dy: 6 }))]
    );
    assert_eq!(d.warp, Some((999, 403)));
    assert!(d.suppress());
}

#[test]
fn grabbed_unmapped_key_is_dropped_but_still_suppressed() {
    let s = grabbed_state(Position::Right);
    let mut ev = raw(RawEventKind::KeyDown);
    ev.keycode = 256;
    let d = tap_callback(&s, &ev);
    assert_eq!(d.pos, Some(Position::Right));
    assert!(d.events.is_empty());
    assert!(d.suppress());
    assert_eq!(d.warp, None);
}

#[test]
fn tap_disabled_is_flagged() {
    let s = grabbed_state(Position::Right);
    let d = tap_callback(&s, &raw(RawEventKind::TapDisabledByTimeout));
    assert!(d.disabled);
    let d2 = tap_callback(&s, &raw(RawEventKind::TapDisabledByUserInput));
    assert!(d2.disabled);
}

#[test]
fn other_samples_pass_untouched_while_free() {
    let free = InputCaptureState {
        active_clients: EdgeSet { left: false, right: true, top: false, bottom: false },
        current_pos: None,
        bounds: Bounds { xmin: 0, xmax: 1000, ymin: 0, ymax: 800 },
    };
    let d = tap_callback(&free, &raw(RawEventKind::KeyDown));
    assert_eq!(d.pos, None);
    assert!(d.events.is_empty());
    assert!(!d.suppress());
}

#[test]
fn crossing_pipeline_transitions_free_to_grabbed() {
    let mut s = InputCaptureState {
        active_clients: EdgeSet { left: false, right: true, top: false, bottom: false },
        current_pos: None,
        bounds: Bounds { xmin: 0, xmax: 1000, ymin: 0, ymax: 800 },
    };
    let mut ev = raw(RawEventKind::MouseMoved);
    ev.location_x = 995;
    ev.delta_x = 10;
    ev.delta_y = 0;
    let d = tap_callback(&s, &ev);
    let edge = d.grab.expect("the sample crosses the active right edge");
    s.handle_producer_event(okbm::state::ProducerEvent::Grab(edge)).unwrap();
    assert_eq!(s.current_pos, Some(Position::Right));
    assert_eq!(d.events.len(), 2);
    assert_eq!(d.events[0], CaptureEvent::Begin);
}
