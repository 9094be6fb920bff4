//! Keystroke messages for the overlay web clients, and the busy/idle status hook.

use vstd::prelude::*;
use crate::proto::{hid_to_us_ansi_char, us_ansi_char, shift_held, KeyTap, HID_ENTER,
    HID_BACKSPACE, HID_SPACE};
use crate::text::{char_string, str_eq};

verus! {

/// A keystroke message sent to overlay clients.
#[derive(Debug, Clone, PartialEq, Eq)]
pub enum KeystrokeMsg {
    Char { ch: String },
    Enter,
    Backspace,
    Space,
}

/// Whether `m` is the overlay message for `tap`: Enter, Backspace and Space by name, other
/// keys by the character they print, and no message for keys that print none.
pub open spec fn is_msg_for(m: Option<KeystrokeMsg>, tap: KeyTap) -> bool {
    if tap.hid_code == HID_ENTER {
        m == Some(KeystrokeMsg::Enter)
    } else if tap.hid_code == HID_BACKSPACE {
        m == Some(KeystrokeMsg::Backspace)
    } else if tap.hid_code == HID_SPACE {
        m == Some(KeystrokeMsg::Space)
    } else {
        match us_ansi_char(tap.hid_code, shift_held(tap.mods)) {
            Some(c) => m matches Some(KeystrokeMsg::Char { ch }) && ch@ == seq![c],
            None => m is None,
        }
    }
}

/// Convert a key tap into an overlay message.
pub fn tap_to_msg(tap: &KeyTap) -> (m: Option<KeystrokeMsg>)
    ensures
        is_msg_for(m, *tap),
{
    if tap.hid_code == HID_ENTER {
        Some(KeystrokeMsg::Enter)
    } else if tap.hid_code == HID_BACKSPACE {
        Some(KeystrokeMsg::Backspace)
    } else if tap.hid_code == HID_SPACE {
        Some(KeystrokeMsg::Space)
    } else {
        match hid_to_us_ansi_char(tap.hid_code, tap.shift()) {
            Some(c) => Some(KeystrokeMsg::Char { ch: char_string(c) }),
            None => None,
        }
    }
}

/// The busy flag a status post sets: `"busy"` sets it, `"idle"` clears it; any other
/// value is refused (answered 400) and leaves the flag as it was.
pub fn claude_status(status: &str) -> (busy: Option<bool>)
    ensures
        status@ == "busy"@ ==> busy == Some(true),
        status@ == "idle"@ ==> busy == Some(false),
        status@ != "busy"@ && status@ != "idle"@ ==> busy is None,
{
    proof {
        reveal_strlit("busy");
        reveal_strlit("idle");
        assert("busy"@[0] != "idle"@[0]);
    }
    if str_eq(status, "busy") {
        Some(true)
    } else if str_eq(status, "idle") {
        Some(false)
    } else {
        None
    }
}

} // verus!
