//! Session decisions: what to do with each event moving through the switch.
//!
//! The outer loop alternates between the local capture stream and the
//! network subscription; the decisions it takes are here, so the loop itself
//! only performs I/O.

use vstd::prelude::*;

use crate::event::{CaptureEvent, Event, KeyboardEvent};

verus! {

/// Evdev code of the Escape key, the local panic button that gives the
/// pointer back.
pub const ESCAPE_KEY: u32 = 1;

/// What to do with one event off the local capture stream.
#[derive(Debug, PartialEq, Clone, Copy)]
pub enum CaptureFlow {
    /// Release the local capture instead of forwarding the event.
    ReleaseCapture,
    /// Publish the event to the peer under the handle.
    Publish(u32, CaptureEvent),
}

/// What to do with one record received from the network.
#[derive(Debug, PartialEq, Clone, Copy)]
pub enum NetworkFlow {
    /// The peer began capturing: release any local capture.
    ReleaseCapture,
    /// Drive the local emulation backend with the event, for the handle.
    Emulate(u32, Event),
}

/// The decision for one locally captured event: pressing or releasing the
/// Escape key releases the capture; everything else is published as-is.
pub open spec fn capture_flow_spec(handle: u32, event: CaptureEvent) -> CaptureFlow {
    match event {
        CaptureEvent::Input(Event::Keyboard(KeyboardEvent::Key { key, .. })) => {
            if key == ESCAPE_KEY {
                CaptureFlow::ReleaseCapture
            } else {
                CaptureFlow::Publish(handle, event)
            }
        },
        _ => CaptureFlow::Publish(handle, event),
    }
}

/// The decision for one record from the network: a `Begin` from the peer
/// releases the local capture; an input event is handed to emulation.
pub open spec fn network_flow_spec(handle: u32, event: CaptureEvent) -> NetworkFlow {
    match event {
        CaptureEvent::Begin => NetworkFlow::ReleaseCapture,
        CaptureEvent::Input(e) => NetworkFlow::Emulate(handle, e),
    }
}

/// Decide one event off the local capture stream.
pub fn on_capture_event(handle: u32, event: CaptureEvent) -> (r: CaptureFlow)
    ensures
        r == capture_flow_spec(handle, event),
{
    match event {
        CaptureEvent::Input(Event::Keyboard(KeyboardEvent::Key { key, .. })) => {
            if key == ESCAPE_KEY {
                CaptureFlow::ReleaseCapture
            } else {
                CaptureFlow::Publish(handle, event)
            }
        },
        _ => CaptureFlow::Publish(handle, event),
    }
}

/// Decide one record received from the network.
pub fn on_network_event(handle: u32, event: CaptureEvent) -> (r: NetworkFlow)
    ensures
        r == network_flow_spec(handle, event),
{
    match event {
        CaptureEvent::Begin => NetworkFlow::ReleaseCapture,
        CaptureEvent::Input(e) => NetworkFlow::Emulate(handle, e),
    }
}

} // verus!
