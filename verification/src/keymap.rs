//! Keycode translation, behind trusted wrappers.
//!
//! Translating a platform keycode to its canonical Linux evdev code is a pure
//! table lookup done by an outside crate; the table is far too large to state
//! here, so its result is only given a name. The platform scancode lookup
//! used for diagnostic key tracking depends on the build target's table, so
//! nothing is stated of its outcome.

use vstd::prelude::*;

verus! {

/// The canonical Linux evdev code that the fixed translation table gives for
/// a macOS keycode, or `None` when the table has no entry. The result depends
/// on the code alone.
pub uninterp spec fn mac_keymap(code: u16) -> Option<u16>;

/// Relies on keycode::KeyMap::from_key_mapping: a fixed, platform-independent
/// table maps a macOS keycode to the key's Linux evdev code; it fails exactly
/// when the table has no row for the code.
#[verifier::external_body]
pub(crate) fn mac_to_evdev(code: u16) -> (r: Option<u16>)
    ensures
        r == mac_keymap(code),
{
    match keycode::KeyMap::from_key_mapping(keycode::KeyMapping::Mac(code)) {
        Ok(k) => Some(k.evdev),
        Err(()) => None,
    }
}

/// Relies on scancode::Scancode::new: whether the build target's scancode
/// table knows this hardware code. The table differs per target platform, so
/// no two builds need agree and nothing is promised of the outcome.
#[verifier::external_body]
pub(crate) fn scancode_known(code: u8) -> bool {
    scancode::Scancode::new(code).is_some()
}

} // verus!
