//! Translation of raw platform samples and the interception callback's logic.
//!
//! The platform's global interception facility hands the session one raw
//! sample at a time. This module turns such a sample, given as plain values,
//! into canonical events, and decides everything the callback must do: which
//! events to send and under which edge, whether to request a grab, where to
//! warp the hidden cursor, whether to report the facility disabled, and
//! whether to suppress the raw sample from the local machine.

use vstd::prelude::*;

use crate::errors::CaptureError;
use crate::event::{
    BTN_LEFT, BTN_MIDDLE, BTN_RIGHT, CaptureEvent, Event, KeyboardEvent, PointerEvent, Position,
};
use crate::keymap::{mac_keymap, mac_to_evdev};
use crate::state::{InputCaptureState, coord_ok};

verus! {

/// X11 modifier bit for Shift.
pub const SHIFT_MASK: u32 = 1;
/// X11 modifier bit for Caps Lock.
pub const LOCK_MASK: u32 = 2;
/// X11 modifier bit for Control.
pub const CONTROL_MASK: u32 = 4;
/// X11 modifier bit for Alt.
pub const MOD1_MASK: u32 = 8;
/// X11 modifier bit for the command (super) key.
pub const MOD4_MASK: u32 = 64;

/// The kind of a raw platform sample.
#[derive(Debug, PartialEq, Eq, Structural, Clone, Copy)]
pub enum RawEventKind {
    KeyDown,
    KeyUp,
    FlagsChanged,
    MouseMoved,
    LeftMouseDragged,
    RightMouseDragged,
    OtherMouseDragged,
    LeftMouseDown,
    LeftMouseUp,
    RightMouseDown,
    RightMouseUp,
    OtherMouseDown,
    OtherMouseUp,
    ScrollWheel,
    TapDisabledByTimeout,
    TapDisabledByUserInput,
    Other,
}

/// The modifier keys a raw sample reports held down.
#[derive(Debug, PartialEq, Clone, Copy)]
pub struct RawFlags {
    pub shift: bool,
    pub control: bool,
    pub alternate: bool,
    pub command: bool,
    pub alpha_shift: bool,
}

/// A raw platform sample, reduced to the plain values the core reads:
/// its kind, the pointer location, the reported relative deltas, the
/// platform keycode, the modifier flags, and the scroll-wheel deltas.
#[derive(Debug, PartialEq, Clone, Copy)]
pub struct RawEvent {
    pub kind: RawEventKind,
    pub location_x: i64,
    pub location_y: i64,
    pub delta_x: i64,
    pub delta_y: i64,
    pub keycode: u16,
    pub flags: RawFlags,
    pub scroll_v: i64,
    pub scroll_h: i64,
}

impl RawEvent {
    /// Whether every coordinate and delta is within the accepted range.
    pub open spec fn in_range(self) -> bool {
        &&& coord_ok(self.location_x as int)
        &&& coord_ok(self.location_y as int)
        &&& coord_ok(self.delta_x as int)
        &&& coord_ok(self.delta_y as int)
    }
}

/// A captured relative pointer motion.
pub open spec fn motion_event(dx: i64, dy: i64) -> CaptureEvent {
    CaptureEvent::Input(Event::Pointer(PointerEvent::Motion { time: 0, dx, dy }))
}

/// A captured button press or release.
pub open spec fn button_event(button: u32, state: u32) -> CaptureEvent {
    CaptureEvent::Input(Event::Pointer(PointerEvent::Button { time: 0, button, state }))
}

/// A captured key press or release.
pub open spec fn key_event(key: u32, state: u8) -> CaptureEvent {
    CaptureEvent::Input(Event::Keyboard(KeyboardEvent::Key { time: 0, key, state }))
}

/// A captured scroll-wheel step on one axis.
pub open spec fn axis_event(axis: u8, value: i64) -> CaptureEvent {
    CaptureEvent::Input(Event::Pointer(PointerEvent::Axis { time: 0, axis, value }))
}

/// The X11 modifier mask for the modifiers a raw sample reports depressed.
pub open spec fn mods_depressed(f: RawFlags) -> u32 {
    ((if f.shift {
        SHIFT_MASK as int
    } else {
        0
    }) + (if f.control {
        CONTROL_MASK as int
    } else {
        0
    }) + (if f.alternate {
        MOD1_MASK as int
    } else {
        0
    }) + (if f.command {
        MOD4_MASK as int
    } else {
        0
    }) + (if f.alpha_shift {
        LOCK_MASK as int
    } else {
        0
    })) as u32
}

/// The X11 modifier mask for the modifiers a raw sample reports locked.
pub open spec fn mods_locked(f: RawFlags) -> u32 {
    if f.alpha_shift {
        LOCK_MASK
    } else {
        0
    }
}

/// A captured modifier-state change.
pub open spec fn modifiers_event(f: RawFlags) -> CaptureEvent {
    CaptureEvent::Input(
        Event::Keyboard(
            KeyboardEvent::Modifiers {
                depressed: mods_depressed(f),
                latched: 0,
                locked: mods_locked(f),
                group: 0,
            },
        ),
    )
}

/// Whether translation succeeds: it fails exactly for a key press or release
/// whose platform keycode has no canonical translation.
pub open spec fn translate_ok(ev: RawEvent) -> bool {
    match ev.kind {
        RawEventKind::KeyDown => mac_keymap(ev.keycode) is Some,
        RawEventKind::KeyUp => mac_keymap(ev.keycode) is Some,
        _ => true,
    }
}

/// The canonical events a raw sample translates to, in order.
pub open spec fn translate_spec(ev: RawEvent) -> Seq<CaptureEvent> {
    match ev.kind {
        RawEventKind::KeyDown => match mac_keymap(ev.keycode) {
            Some(k) => seq![key_event(k as u32, 1)],
            None => Seq::empty(),
        },
        RawEventKind::KeyUp => match mac_keymap(ev.keycode) {
            Some(k) => seq![key_event(k as u32, 0)],
            None => Seq::empty(),
        },
        RawEventKind::FlagsChanged => seq![modifiers_event(ev.flags)],
        RawEventKind::MouseMoved => seq![motion_event(ev.delta_x, ev.delta_y)],
        RawEventKind::LeftMouseDragged => seq![motion_event(ev.delta_x, ev.delta_y)],
        RawEventKind::RightMouseDragged => seq![motion_event(ev.delta_x, ev.delta_y)],
        RawEventKind::OtherMouseDragged => seq![motion_event(ev.delta_x, ev.delta_y)],
        RawEventKind::LeftMouseDown => seq![button_event(BTN_LEFT, 1)],
        RawEventKind::LeftMouseUp => seq![button_event(BTN_LEFT, 0)],
        RawEventKind::RightMouseDown => seq![button_event(BTN_RIGHT, 1)],
        RawEventKind::RightMouseUp => seq![button_event(BTN_RIGHT, 0)],
        RawEventKind::OtherMouseDown => seq![button_event(BTN_MIDDLE, 1)],
        RawEventKind::OtherMouseUp => seq![button_event(BTN_MIDDLE, 0)],
        RawEventKind::ScrollWheel => {
            let v = if ev.scroll_v != 0 {
                seq![axis_event(0, ev.scroll_v)]
            } else {
                Seq::empty()
            };
            let h = if ev.scroll_h != 0 {
                seq![axis_event(1, ev.scroll_h)]
            } else {
                Seq::empty()
            };
            v + h
        },
        _ => Seq::empty(),
    }
}

/// Translate one raw sample into canonical capture events, appended to
/// `result`. A key sample whose keycode the translation table does not know
/// fails and appends nothing; every other sample succeeds.
pub fn get_events(ev: &RawEvent, result: &mut Vec<CaptureEvent>) -> (r: Result<(), CaptureError>)
    ensures
        r is Ok <==> translate_ok(*ev),
        r is Ok ==> final(result)@ == old(result)@ + translate_spec(*ev),
        r is Err ==> final(result)@ == old(result)@,
        r matches Err(e) ==> e == (CaptureError::KeyMap { code: ev.keycode }),
{
    let ghost pre = result@;
    match ev.kind {
        RawEventKind::KeyDown => {
            match mac_to_evdev(ev.keycode) {
                Some(k) => {
                    result.push(
                        CaptureEvent::Input(
                            Event::Keyboard(
                                KeyboardEvent::Key { time: 0, key: k as u32, state: 1 },
                            ),
                        ),
                    );
                    proof {
                        assert(final(result)@ =~= pre + translate_spec(*ev));
                    }
                    Ok(())
                },
                None => Err(CaptureError::KeyMap { code: ev.keycode }),
            }
        },
        RawEventKind::KeyUp => {
            match mac_to_evdev(ev.keycode) {
                Some(k) => {
                    result.push(
                        CaptureEvent::Input(
                            Event::Keyboard(
                                KeyboardEvent::Key { time: 0, key: k as u32, state: 0 },
                            ),
                        ),
                    );
                    proof {
                        assert(final(result)@ =~= pre + translate_spec(*ev));
                    }
                    Ok(())
                },
                None => Err(CaptureError::KeyMap { code: ev.keycode }),
            }
        },
        RawEventKind::FlagsChanged => {
            let mut mods: u32 = 0;
            let mut mods_lck: u32 = 0;
            if ev.flags.shift {
                mods = mods + SHIFT_MASK;
            }
            if ev.flags.control {
                mods = mods + CONTROL_MASK;
            }
            if ev.flags.alternate {
                mods = mods + MOD1_MASK;
            }
            if ev.flags.command {
                mods = mods + MOD4_MASK;
            }
            if ev.flags.alpha_shift {
                mods = mods + LOCK_MASK;
                mods_lck = mods_lck + LOCK_MASK;
            }
            result.push(
                CaptureEvent::Input(
                    Event::Keyboard(
                        KeyboardEvent::Modifiers {
                            depressed: mods,
                            latched: 0,
                            locked: mods_lck,
                            group: 0,
                        },
                    ),
                ),
            );
            proof {
                assert(mods == mods_depressed(ev.flags));
                assert(mods_lck == mods_locked(ev.flags));
                assert(final(result)@ =~= pre + translate_spec(*ev));
            }
            Ok(())
        },
        RawEventKind::MouseMoved => {
            result.push(
                CaptureEvent::Input(
                    Event::Pointer(PointerEvent::Motion { time: 0, dx: ev.delta_x, dy: ev.delta_y }),
                ),
            );
            proof {
                assert(final(result)@ =~= pre + translate_spec(*ev));
            }
            Ok(())
        },
        RawEventKind::LeftMouseDragged => {
            result.push(
                CaptureEvent::Input(
                    Event::Pointer(PointerEvent::Motion { time: 0, dx: ev.delta_x, dy: ev.delta_y }),
                ),
            );
            proof {
                assert(final(result)@ =~= pre + translate_spec(*ev));
            }
            Ok(())
        },
        RawEventKind::RightMouseDragged => {
            result.push(
                CaptureEvent::Input(
                    Event::Pointer(PointerEvent::Motion { time: 0, dx: ev.delta_x, dy: ev.delta_y }),
                ),
            );
            proof {
                assert(final(result)@ =~= pre + translate_spec(*ev));
            }
            Ok(())
        },
        RawEventKind::OtherMouseDragged => {
            result.push(
                CaptureEvent::Input(
                    Event::Pointer(PointerEvent::Motion { time: 0, dx: ev.delta_x, dy: ev.delta_y }),
                ),
            );
            proof {
                assert(final(result)@ =~= pre + translate_spec(*ev));
            }
            Ok(())
        },
        RawEventKind::LeftMouseDown => {
            result.push(
                CaptureEvent::Input(
                    Event::Pointer(PointerEvent::Button { time: 0, button: BTN_LEFT, state: 1 }),
                ),
            );
            proof {
                assert(final(result)@ =~= pre + translate_spec(*ev));
            }
            Ok(())
        },
        RawEventKind::LeftMouseUp => {
            result.push(
                CaptureEvent::Input(
                    Event::Pointer(PointerEvent::Button { time: 0, button: BTN_LEFT, state: 0 }),
                ),
            );
            proof {
                assert(final(result)@ =~= pre + translate_spec(*ev));
            }
            Ok(())
        },
        RawEventKind::RightMouseDown => {
            result.push(
                CaptureEvent::Input(
                    Event::Pointer(PointerEvent::Button { time: 0, button: BTN_RIGHT, state: 1 }),
                ),
            );
            proof {
                assert(final(result)@ =~= pre + translate_spec(*ev));
            }
            Ok(())
        },
        RawEventKind::RightMouseUp => {
            result.push(
                CaptureEvent::Input(
                    Event::Pointer(PointerEvent::Button { time: 0, button: BTN_RIGHT, state: 0 }),
                ),
            );
            proof {
                assert(final(result)@ =~= pre + translate_spec(*ev));
            }
            Ok(())
        },
        RawEventKind::OtherMouseDown => {
            result.push(
                CaptureEvent::Input(
                    Event::Pointer(PointerEvent::Button { time: 0, button: BTN_MIDDLE, state: 1 }),
                ),
            );
            proof {
                assert(final(result)@ =~= pre + translate_spec(*ev));
            }
            Ok(())
        },
        RawEventKind::OtherMouseUp => {
            result.push(
                CaptureEvent::Input(
                    Event::Pointer(PointerEvent::Button { time: 0, button: BTN_MIDDLE, state: 0 }),
                ),
            );
            proof {
                assert(final(result)@ =~= pre + translate_spec(*ev));
            }
            Ok(())
        },
        RawEventKind::ScrollWheel => {
            if ev.scroll_v != 0 {
                result.push(
                    CaptureEvent::Input(
                        Event::Pointer(PointerEvent::Axis { time: 0, axis: 0, value: ev.scroll_v }),
                    ),
                );
            }
            if ev.scroll_h != 0 {
                result.push(
                    CaptureEvent::Input(
                        Event::Pointer(PointerEvent::Axis { time: 0, axis: 1, value: ev.scroll_h }),
                    ),
                );
            }
            proof {
                assert(final(result)@ =~= pre + translate_spec(*ev));
            }
            Ok(())
        },
        _ => {
            proof {
                assert(final(result)@ =~= pre + translate_spec(*ev));
            }
            Ok(())
        },
    }
}

/// Everything the interception callback must do for one raw sample.
pub struct TapDecision {
    /// The facility reported itself disabled: relay the fatal command.
    pub disabled: bool,
    /// Request a grab of this edge: the sample crossed its boundary.
    pub grab: Option<Position>,
    /// The edge the emitted events belong to; when set, the raw sample is
    /// suppressed from the local machine.
    pub pos: Option<Position>,
    /// The capture events to send, tagged with `pos`, in order.
    pub events: Vec<CaptureEvent>,
    /// Where to warp the hidden cursor back to.
    pub warp: Option<(i64, i64)>,
}

impl TapDecision {
    /// Whether the raw sample must be suppressed from the local machine:
    /// exactly when the events belong to an owning or newly crossed edge.
    pub open spec fn suppress_spec(self) -> bool {
        self.pos is Some
    }

    /// Whether the raw sample must be suppressed from the local machine.
    pub fn suppress(&self) -> (r: bool)
        ensures
            r == self.suppress_spec(),
    {
        match self.pos {
            Some(_) => true,
            None => false,
        }
    }
}

/// Decide the interception callback's whole reaction to one raw sample.
///
/// While an edge owns the pointer, every sample is translated and tagged with
/// that edge, and a motion sample additionally yields the confinement warp
/// target; a sample whose keycode cannot be translated yields no events and
/// the session continues. While free, only a motion sample is inspected: if
/// its projected position crosses an active edge, one `Begin` followed by the
/// translated motion is emitted under that edge and a grab of that edge is
/// requested; every other sample is left to the local machine. A sample
/// reporting the facility disabled is flagged as fatal in every state.
pub fn tap_callback(state: &InputCaptureState, ev: &RawEvent) -> (d: TapDecision)
    requires
        ev.in_range(),
        state.bounds.in_range(),
    ensures
        d.disabled <==> (ev.kind is TapDisabledByTimeout || ev.kind is TapDisabledByUserInput),
        state.current_pos matches Some(p) ==> {
            &&& d.pos == Some(p)
            &&& d.grab is None
            &&& d.events@ == if translate_ok(*ev) {
                translate_spec(*ev)
            } else {
                Seq::<CaptureEvent>::empty()
            }
            &&& ev.kind is MouseMoved ==> d.warp == Some(
                (
                    state.confine_x_spec(ev.location_x as int, ev.delta_x as int) as i64,
                    state.confine_y_spec(ev.location_y as int, ev.delta_y as int) as i64,
                ),
            )
            &&& !(ev.kind is MouseMoved) ==> d.warp is None
        },
        state.current_pos is None ==> {
            &&& d.warp is None
            &&& if ev.kind is MouseMoved && state.crossed_spec(
                ev.location_x as int,
                ev.location_y as int,
                ev.delta_x as int,
                ev.delta_y as int,
            ) is Some {
                let p = state.crossed_spec(
                    ev.location_x as int,
                    ev.location_y as int,
                    ev.delta_x as int,
                    ev.delta_y as int,
                );
                &&& d.pos == p
                &&& d.grab == p
                &&& d.events@ == seq![
                    CaptureEvent::Begin,
                    motion_event(ev.delta_x, ev.delta_y),
                ]
            } else {
                &&& d.pos is None
                &&& d.grab is None
                &&& d.events@ == Seq::<CaptureEvent>::empty()
            }
        },
{
    let disabled = matches!(
        ev.kind,
        RawEventKind::TapDisabledByTimeout
        | RawEventKind::TapDisabledByUserInput
    );
    let mut events: Vec<CaptureEvent> = Vec::new();
    let mut pos: Option<Position> = None;
    let mut grab: Option<Position> = None;
    let mut warp: Option<(i64, i64)> = None;

    match state.current_pos {
        Some(current) => {
            pos = Some(current);
            let _ = get_events(ev, &mut events);
            if matches!(ev.kind, RawEventKind::MouseMoved) {
                match state.reset_mouse_position(
                    ev.location_x,
                    ev.location_y,
                    ev.delta_x,
                    ev.delta_y,
                ) {
                    Ok(target) => {
                        warp = Some(target);
                    },
                    Err(_) => {},
                }
            }
        },
        None => {
            if matches!(ev.kind, RawEventKind::MouseMoved) {
                match state.crossed(ev.location_x, ev.location_y, ev.delta_x, ev.delta_y) {
                    Some(new_pos) => {
                        pos = Some(new_pos);
                        grab = Some(new_pos);
                        events.push(CaptureEvent::Begin);
                        events.push(
                            CaptureEvent::Input(
                                Event::Pointer(
                                    PointerEvent::Motion {
                                        time: 0,
                                        dx: ev.delta_x,
                                        dy: ev.delta_y,
                                    },
                                ),
                            ),
                        );
                        proof {
                            assert(events@ =~= seq![
                                CaptureEvent::Begin,
                                motion_event(ev.delta_x, ev.delta_y),
                            ]);
                        }
                    },
                    None => {},
                }
            }
        },
    }

    TapDecision { disabled, grab, pos, events, warp }
}

} // verus!
