//! Errors of the capture core.

use vstd::prelude::*;

verus! {

/// Why a capture operation failed.
///
/// `EventTapDisabled` is fatal: the platform interception facility was shut
/// off and the session must be recreated. The other variants are per-event
/// and recoverable: the caller drops the event and the session continues.
#[derive(Debug, PartialEq, Clone, Copy)]
pub enum CaptureError {
    /// The platform interception facility reported itself disabled.
    EventTapDisabled,
    /// A cursor re-warp was requested while no edge owns the pointer.
    ResetMouseWithoutClient,
    /// A platform keycode has no canonical translation.
    KeyMap { code: u16 },
}

} // verus!
