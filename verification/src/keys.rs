//! The identifiers of the keys that the dispatcher singles out.

use vstd::prelude::*;

verus! {

/// The key that silences playback.
pub const ESCAPE_KEY: u16 = 1;

/// The key whose repeated press starts bonus mode.
pub const TRIGGER_KEY: u16 = 43;

/// The code of the Escape key, read from `evdev::Key::KEY_ESC` through
/// `evdev::Key::code`. Trusted: the constant is declared as 1 and `code`
/// returns the wrapped number unchanged.
#[verifier::external_body]
pub(crate) fn escape_code() -> (code: u16)
    ensures
        code == ESCAPE_KEY,
{
    evdev::Key::KEY_ESC.code()
}

/// The code of the backslash key, read from `evdev::Key::KEY_BACKSLASH`
/// through `evdev::Key::code`. Trusted: the constant is declared as 43 and
/// `code` returns the wrapped number unchanged.
#[verifier::external_body]
pub(crate) fn trigger_code() -> (code: u16)
    ensures
        code == TRIGGER_KEY,
{
    evdev::Key::KEY_BACKSLASH.code()
}

} // verus!
