//! Core of a software KVM-over-network switch.
//!
//! Input captured on one machine at a configured screen edge is forwarded to
//! drive input emulation on a peer. This library holds the verified logic of
//! that core: boundary-crossing detection and cursor confinement, the capture
//! ownership state machine, translation of raw platform samples into canonical
//! events, fan-out of one capture stream to many logical handles, and the
//! per-handle key dedup in front of the emulation backend. Platform and
//! network plumbing live outside and hand this library plain values.

pub mod emulation;
pub mod errors;
pub mod event;
pub mod keymap;
pub mod keyset;
pub mod router;
pub mod session;
pub mod state;
pub mod tap;

pub use errors::CaptureError;
pub use event::{
    BTN_BACK, BTN_FORWARD, BTN_LEFT, BTN_MIDDLE, BTN_RIGHT, CaptureEvent, Event, KeyboardEvent,
    PointerEvent, Position,
};
