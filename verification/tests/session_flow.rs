use okbm::event::{CaptureEvent, Event, KeyboardEvent, PointerEvent};
use okbm::session::{CaptureFlow, NetworkFlow, on_capture_event, on_network_event};

#[test]
fn escape_key_releases_the_local_capture() {
    let esc = CaptureEvent::Input(Event::Keyboard(KeyboardEvent::Key {
        time: 0,
        key: 1,
        state: 1,
    }));
    assert_eq!(on_capture_event(0, esc), CaptureFlow::ReleaseCapture);
}

#[test]
fn other_captured_events_are_published() {
    let motion = CaptureEvent::Input(Event::Pointer(PointerEvent::Motion {
        time: 0,
        dx: 2,
        dy: 3,
    }));
    assert_eq!(on_capture_event(7, motion), CaptureFlow::Publish(7, motion));
    assert_eq!(on_capture_event(7, CaptureEvent::Begin), CaptureFlow::Publish(7, CaptureEvent::Begin));
    let other_key = CaptureEvent::Input(Event::Keyboard(KeyboardEvent::Key {
        time: 0,
        key: 30,
        state: 1,
    }));
    assert_eq!(on_capture_event(7, other_key), CaptureFlow::Publish(7, other_key));
}

#[test]
fn peer_begin_releases_and_input_is_emulated() {
    assert_eq!(on_network_event(3, CaptureEvent::Begin), NetworkFlow::ReleaseCapture);
    let ev = Event::Keyboard(KeyboardEvent::Key { time: 0, key: 30, state: 0 });
    assert_eq!(
        on_network_event(3, CaptureEvent::Input(ev)),
        NetworkFlow::Emulate(3, ev)
    );
}
