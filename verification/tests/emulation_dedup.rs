use okbm::emulation::Emulation;
use okbm::event::{Event, KeyboardEvent, PointerEvent};

fn key(code: u32, pressed: bool) -> Event {
    Event::Keyboard(KeyboardEvent::Key { time: 0, key: code, state: if pressed { 1 } else { 0 } })
}

#[test]
fn create_registers_once() {
    let mut e = Emulation::new();
    assert!(e.create(5));
    assert!(!e.create(5));
    assert!(e.create(6));
}

#[test]
fn key_dedup_cycle() {
    let mut e = Emulation::new();
    e.create(1);
    // Press forwards, duplicate press is suppressed, release forwards,
    // duplicate release is suppressed.
    assert!(e.consume(key(30, true), 1));
    assert!(!e.consume(key(30, true), 1));
    assert!(e.consume(key(30, false), 1));
    assert!(!e.consume(key(30, false), 1));
}

#[test]
fn release_of_key_never_pressed_is_suppressed() {
    let mut e = Emulation::new();
    e.create(1);
    assert!(!e.consume(key(44, false), 1));
}

#[test]
fn handles_have_independent_key_sets() {
    let mut e = Emulation::new();
    e.create(1);
    e.create(2);
    assert!(e.consume(key(30, true), 1));
    // Handle 2 never saw the press, so its own press still forwards.
    assert!(e.consume(key(30, true), 2));
    assert!(e.is_pressed(1, 30));
    assert!(e.is_pressed(2, 30));
    assert!(e.consume(key(30, false), 1));
    assert!(!e.is_pressed(1, 30));
    assert!(e.is_pressed(2, 30));
}

#[test]
fn unregistered_handle_forwards_no_key_events() {
    let mut e = Emulation::new();
    assert!(!e.consume(key(30, true), 9));
    assert!(!e.is_pressed(9, 30));
}

#[test]
fn non_key_events_pass_through() {
    let mut e = Emulation::new();
    e.create(1);
    let motion = Event::Pointer(PointerEvent::Motion { time: 0, dx: 4, dy: 5 });
    assert!(e.consume(motion, 1));
    // Modifiers pass unconditionally too, even for unknown handles.
    let mods = Event::Keyboard(KeyboardEvent::Modifiers {
        depressed: 1,
        latched: 0,
        locked: 0,
        group: 0,
    });
    assert!(e.consume(mods, 42));
}

#[test]
fn direct_accounting_reports_forwarding() {
    let mut e = Emulation::new();
    e.create(3);
    assert!(e.update_pressed_keys(3, 57, 1));
    assert!(!e.update_pressed_keys(3, 57, 2));
    assert!(e.update_pressed_keys(3, 57, 0));
    assert!(!e.update_pressed_keys(3, 57, 0));
    assert!(!e.update_pressed_keys(99, 57, 1));
}
